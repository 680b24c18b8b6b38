//! Values of the engine's base library.

pub mod interface;
pub mod mempool;
pub mod threadtools;
pub mod tshash;
