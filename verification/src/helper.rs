//! Small building blocks shared by the providers.

pub mod staging;
pub mod text;
