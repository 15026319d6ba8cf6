//! The schema migration engine.

pub mod engine;
pub mod order;
pub mod plan;
pub mod script;
