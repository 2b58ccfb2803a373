//! Deterministic discrete-event simulator of a multi-GPU node.
pub mod error;
pub mod history;
pub mod ids;
pub mod kinds;
pub mod laws;
pub mod list;
pub mod num;
pub mod ops;
pub mod persist;
pub mod profile;
pub mod sim;
pub mod spans;
pub mod state;
pub mod table;
pub mod topo;
