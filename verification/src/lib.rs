//! Data-store lifecycle for a task manager: versioned schema migrations,
//! relocation of the backing file, and the domain values kept in the store.

pub mod domain;
pub mod error;
pub mod location;
pub mod migration;
pub mod queries;
pub mod relocation;
pub mod reminder_service;
pub mod setup;
pub mod store;
pub mod text;
