//! The games that mods can be installed into.

pub mod disk;
pub mod install;
pub mod laws;
pub mod payday2;
