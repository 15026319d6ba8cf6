//! Tasks.

use vstd::prelude::*;
use crate::domain::priority::Priority;
use crate::domain::reminder::{flag, flag_set};
use crate::domain::time::{optional_text, optional_time, Timestamp};

verus! {

/// Something to be done.
#[derive(Debug, Clone, PartialEq, Eq)]
pub struct Task {
    pub id: i64,
    pub title: String,
    pub description: Option<String>,
    pub is_completed: bool,
    /// The project the task is filed under; `None` for the inbox.
    pub project_id: Option<i64>,
    /// The task this one is a part of; `None` for a task of its own.
    pub parent_id: Option<i64>,
    /// How many tasks are parts of this one. The store counts them when it
    /// hands the task out; the number is not kept with the task.
    pub subtask_count: i64,
    pub priority: Priority,
    pub due_date: Option<Timestamp>,
    /// The earliest reminder of the task that has not gone out.
    pub next_reminder_at: Option<Timestamp>,
    pub created_at: Timestamp,
    pub updated_at: Timestamp,
}

/// A row of the tasks table with its two computed columns, as the store
/// hands it out.
#[derive(Debug, Clone, PartialEq, Eq)]
pub struct TaskRow {
    pub id: i64,
    pub title: String,
    pub description: Option<String>,
    pub is_completed: i32,
    pub project_id: Option<i64>,
    pub parent_id: Option<i64>,
    pub subtask_count: i64,
    pub priority: i64,
    pub due_date: Option<String>,
    pub next_reminder_at: Option<String>,
    pub created_at: String,
    pub updated_at: String,
}

impl Task {
    /// The task that a row of the store stands for. The completion column
    /// counts as set when it holds 1; a priority column that holds none of
    /// the three levels reads as no priority.
    pub fn from_row(row: TaskRow) -> (task: Task)
        ensures
            task.id == row.id,
            task.title@ == row.title@,
            optional_text(task.description) == optional_text(row.description),
            task.is_completed == flag_set(row.is_completed),
            task.project_id == row.project_id,
            task.parent_id == row.parent_id,
            task.subtask_count == row.subtask_count,
            task.priority == Priority::of_code(row.priority),
            optional_time(task.due_date) == optional_text(row.due_date),
            optional_time(task.next_reminder_at) == optional_text(row.next_reminder_at),
            task.created_at@ == row.created_at@,
            task.updated_at@ == row.updated_at@,
    {
        Task {
            id: row.id,
            title: row.title,
            description: row.description,
            is_completed: flag(row.is_completed),
            project_id: row.project_id,
            parent_id: row.parent_id,
            subtask_count: row.subtask_count,
            priority: Priority::from(row.priority),
            due_date: Timestamp::of_optional_column(row.due_date),
            next_reminder_at: Timestamp::of_optional_column(row.next_reminder_at),
            created_at: Timestamp::of_column(row.created_at),
            updated_at: Timestamp::of_column(row.updated_at),
        }
    }
}

} // verus!
