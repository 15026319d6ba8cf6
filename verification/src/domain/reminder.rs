//! Reminders of a task.

use vstd::prelude::*;
use crate::domain::time::Timestamp;

verus! {

/// A point in time at which a task is to be brought to mind.
#[derive(Debug, Clone, PartialEq, Eq)]
pub struct Reminder {
    pub id: i64,
    pub task_id: i64,
    /// When to remind, in universal time.
    pub remind_at: Timestamp,
    /// Whether the reminder has gone out.
    pub is_sent: bool,
}

/// A row of the reminders table, as the store hands it out.
#[derive(Debug, Clone, PartialEq, Eq)]
pub struct ReminderRow {
    pub id: i64,
    pub task_id: i64,
    pub remind_at: String,
    pub is_sent: i32,
}

/// Whether an integer column stands for "yes": 1 does, every other value
/// does not.
pub open spec fn flag_set(column: i32) -> bool {
    column == 1
}

/// Reads an integer column as a yes or no.
pub fn flag(column: i32) -> (set: bool)
    ensures
        set == flag_set(column),
{
    column == 1
}

impl Reminder {
    /// The reminder that a row of the store stands for.
    pub fn from_row(row: ReminderRow) -> (reminder: Reminder)
        ensures
            reminder.id == row.id,
            reminder.task_id == row.task_id,
            reminder.remind_at@ == row.remind_at@,
            reminder.is_sent == flag_set(row.is_sent),
    {
        Reminder {
            id: row.id,
            task_id: row.task_id,
            remind_at: Timestamp::of_column(row.remind_at),
            is_sent: flag(row.is_sent),
        }
    }
}

} // verus!
