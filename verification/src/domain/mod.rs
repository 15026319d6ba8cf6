//! Values the store holds, and how they are written in its columns.

pub mod attachment;
pub mod priority;
pub mod project;
pub mod reminder;
pub mod task;
pub mod time;
