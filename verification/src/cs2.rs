//! Values read from the data structures of the host engine.

pub mod schema;
pub mod tier1;
