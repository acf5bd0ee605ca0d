//! Report descriptor items and the usage tables.

pub mod context;
pub mod descriptor;
pub mod display;
pub mod laws;
pub mod name;
pub mod scoping;
pub mod text;
