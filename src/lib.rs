//! Versioned, fixed-layout records kept in caller-owned byte buffers:
//! initialization, version checks before use, and migration from the first
//! schema version to the second.

pub mod error;
pub mod state;
pub mod instruction;
pub mod processor;
