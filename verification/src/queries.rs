//! The statements that the query layer puts to the store.
//!
//! The texts are built here; running them against the store is the
//! caller's business.

use vstd::prelude::*;
use vstd::string::StringExecFns;

verus! {

/// Which tasks a listing shows.
#[derive(Debug, Clone, Copy, PartialEq, Eq, Structural)]
pub enum TaskFilter {
    /// The parts of one task.
    Subtasks { parent_id: i64 },
    /// The tasks of their own that are filed under one project.
    Project { project_id: i64 },
    /// The tasks of their own that are filed under no project.
    Inbox,
}

/// The columns of a task and the two computed ones: the number of its parts
/// and its earliest reminder that has not gone out.
pub open spec fn task_select() -> Seq<char> {
    "SELECT t.id, t.title, t.description, t.is_completed, t.project_id, t.parent_id, t.priority, t.due_date, t.created_at, t.updated_at, (SELECT COUNT(*) FROM tasks AS st WHERE st.parent_id = t.id) AS subtask_count, (SELECT MIN(remind_at) FROM reminders r WHERE r.task_id = t.id AND r.is_sent = 0) AS next_reminder_at FROM tasks t"@
}

/// Highest priority first, and within one priority the newest first.
pub open spec fn task_order() -> Seq<char> {
    " ORDER BY priority DESC, created_at DESC"@
}

impl TaskFilter {
    /// The listing that a request asks for. A parent decides alone: with
    /// one, the listing shows its parts, whatever the project. Without one
    /// it shows tasks of their own, of the project named or of the inbox.
    pub open spec fn requested(project_id: Option<i64>, parent_id: Option<i64>) -> TaskFilter {
        match (parent_id, project_id) {
            (Some(parent_id), _) => TaskFilter::Subtasks { parent_id },
            (None, Some(project_id)) => TaskFilter::Project { project_id },
            (None, None) => TaskFilter::Inbox,
        }
    }

    /// The condition the listing puts on tasks.
    pub open spec fn condition(self) -> Seq<char> {
        match self {
            TaskFilter::Subtasks { .. } => " WHERE parent_id = ?1"@,
            TaskFilter::Project { .. } => " WHERE parent_id IS NULL AND project_id = ?1"@,
            TaskFilter::Inbox => " WHERE parent_id IS NULL AND project_id IS NULL"@,
        }
    }

    /// The value the condition's one parameter is bound to, if it has one.
    pub open spec fn bound_value(self) -> Option<i64> {
        match self {
            TaskFilter::Subtasks { parent_id } => Some(parent_id),
            TaskFilter::Project { project_id } => Some(project_id),
            TaskFilter::Inbox => None,
        }
    }

    /// The whole statement of the listing.
    pub open spec fn statement(self) -> Seq<char> {
        task_select() + self.condition() + task_order()
    }

    /// The listing that a request asks for.
    pub fn of_request(project_id: Option<i64>, parent_id: Option<i64>) -> (filter: TaskFilter)
        ensures
            filter == TaskFilter::requested(project_id, parent_id),
    {
        match parent_id {
            Some(parent_id) => TaskFilter::Subtasks { parent_id },
            None => match project_id {
                Some(project_id) => TaskFilter::Project { project_id },
                None => TaskFilter::Inbox,
            },
        }
    }

    /// The value to bind the statement's parameter to, if it has one.
    pub fn parameter(&self) -> (value: Option<i64>)
        ensures
            value == self.bound_value(),
    {
        match self {
            TaskFilter::Subtasks { parent_id } => Some(*parent_id),
            TaskFilter::Project { project_id } => Some(*project_id),
            TaskFilter::Inbox => None,
        }
    }

    /// Builds the statement of the listing.
    pub fn sql(&self) -> (sql: String)
        ensures
            sql@ == self.statement(),
    {
        let mut sql = String::from_str(
            "SELECT t.id, t.title, t.description, t.is_completed, t.project_id, t.parent_id, t.priority, t.due_date, t.created_at, t.updated_at, (SELECT COUNT(*) FROM tasks AS st WHERE st.parent_id = t.id) AS subtask_count, (SELECT MIN(remind_at) FROM reminders r WHERE r.task_id = t.id AND r.is_sent = 0) AS next_reminder_at FROM tasks t",
        );
        match self {
            TaskFilter::Subtasks { .. } => sql.append(" WHERE parent_id = ?1"),
            TaskFilter::Project { .. } => sql.append(" WHERE parent_id IS NULL AND project_id = ?1"),
            TaskFilter::Inbox => sql.append(" WHERE parent_id IS NULL AND project_id IS NULL"),
        }
        sql.append(" ORDER BY priority DESC, created_at DESC");
        sql
    }
}

/// The statement that reads one task by its id, bound to the one parameter.
pub open spec fn task_by_id_text() -> Seq<char> {
    task_select() + " WHERE t.id = ?"@
}

/// Builds the statement that reads one task by its id.
pub fn task_by_id_statement() -> (sql: String)
    ensures
        sql@ == task_by_id_text(),
{
    let mut sql = String::from_str(
        "SELECT t.id, t.title, t.description, t.is_completed, t.project_id, t.parent_id, t.priority, t.due_date, t.created_at, t.updated_at, (SELECT COUNT(*) FROM tasks AS st WHERE st.parent_id = t.id) AS subtask_count, (SELECT MIN(remind_at) FROM reminders r WHERE r.task_id = t.id AND r.is_sent = 0) AS next_reminder_at FROM tasks t",
    );
    sql.append(" WHERE t.id = ?");
    sql
}

/// Whether a project may take a name, given what the search for another
/// project of that name returned: the name is free unless the search found
/// one. A search that failed counts as one that found none.
pub fn name_is_free(found: &Result<i64, rusqlite::Error>) -> (free: bool)
    ensures
        free == (found is Err),
{
    match found {
        Ok(_) => false,
        Err(_) => true,
    }
}

/// A list of `count` parameter marks, separated by a comma and a space.
pub open spec fn placeholder_list(count: nat) -> Seq<char>
    decreases count,
{
    if count == 0 {
        Seq::<char>::empty()
    } else if count == 1 {
        "?"@
    } else {
        placeholder_list((count - 1) as nat) + ", ?"@
    }
}

/// The statement that marks `count` reminders as gone out, one parameter
/// for each.
pub open spec fn mark_sent_text(count: nat) -> Seq<char> {
    "UPDATE reminders SET is_sent = 1 WHERE id IN ("@ + placeholder_list(count) + ")"@
}

/// Builds a list of `count` parameter marks.
pub fn placeholders(count: usize) -> (list: String)
    ensures
        list@ == placeholder_list(count as nat),
{
    let mut list = String::new();
    let mut i: usize = 0;
    while i < count
        invariant
            i <= count,
            list@ == placeholder_list(i as nat),
        decreases count - i,
    {
        if i == 0 {
            list.append("?");
            assert(list@ =~= "?"@);
        } else {
            list.append(", ?");
        }
        i = i + 1;
    }
    list
}

/// Builds the statement that marks `count` reminders as gone out. With no
/// reminder to mark there is nothing to put to the store.
pub fn mark_sent_statement(count: usize) -> (sql: Option<String>)
    ensures
        count == 0 ==> sql is None,
        count > 0 ==> (sql matches Some(text) && text@ == mark_sent_text(count as nat)),
{
    if count == 0 {
        return None;
    }
    let mut sql = String::from_str("UPDATE reminders SET is_sent = 1 WHERE id IN (");
    let list = placeholders(count);
    sql.append(list.as_str());
    sql.append(")");
    Some(sql)
}

} // verus!
