//! Providers for the mod manager: the PAYDAY 2 game provider, whose core is the
//! staged install of a downloaded archive, and the ModWorkshop catalogue.
//!
//! Everything here works on plain values. A path is the list of its
//! components; the caller turns it into a path of the platform, touches the
//! disk and the network, and reports back what happened.

pub mod archive;
pub mod errors;
pub mod game_providers;
pub mod helper;
pub mod mod_providers;
pub mod paths;
