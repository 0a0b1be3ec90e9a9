//! The catalogues that mods are found in.

pub mod modworkshop;
