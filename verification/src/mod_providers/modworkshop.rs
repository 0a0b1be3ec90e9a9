//! ModWorkshop: what its catalogue answers, and what the manager shows of it.

pub mod api;
pub mod types;
