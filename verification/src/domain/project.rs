//! Projects that tasks are filed under.

use vstd::prelude::*;
use crate::domain::time::Timestamp;

verus! {

/// A project, or category, of tasks.
#[derive(Debug, Clone, PartialEq, Eq)]
pub struct Project {
    pub id: i64,
    pub name: String,
    pub created_at: Timestamp,
    pub updated_at: Timestamp,
}

/// A row of the projects table, as the store hands it out.
#[derive(Debug, Clone, PartialEq, Eq)]
pub struct ProjectRow {
    pub id: i64,
    pub name: String,
    pub created_at: String,
    pub updated_at: String,
}

impl Project {
    /// The project that a row of the store stands for.
    pub fn from_row(row: ProjectRow) -> (project: Project)
        ensures
            project.id == row.id,
            project.name@ == row.name@,
            project.created_at@ == row.created_at@,
            project.updated_at@ == row.updated_at@,
    {
        Project {
            id: row.id,
            name: row.name,
            created_at: Timestamp::of_column(row.created_at),
            updated_at: Timestamp::of_column(row.updated_at),
        }
    }
}

} // verus!
