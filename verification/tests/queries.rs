use momentum::queries::{
    mark_sent_statement, name_is_free, placeholders, task_by_id_statement, TaskFilter,
};
use momentum::reminder_service::{after_marking, sum_up, Delivery, Round, Sequel};
use rusqlite::Connection;

const SELECT: &str = "SELECT t.id, t.title, t.description, t.is_completed, t.project_id, t.parent_id, t.priority, t.due_date, t.created_at, t.updated_at, (SELECT COUNT(*) FROM tasks AS st WHERE st.parent_id = t.id) AS subtask_count, (SELECT MIN(remind_at) FROM reminders r WHERE r.task_id = t.id AND r.is_sent = 0) AS next_reminder_at FROM tasks t";
const ORDER: &str = " ORDER BY priority DESC, created_at DESC";

#[test]
fn parent_decides_the_listing_alone() {
    assert_eq!(TaskFilter::of_request(None, Some(4)), TaskFilter::Subtasks { parent_id: 4 });
    assert_eq!(TaskFilter::of_request(Some(9), Some(4)), TaskFilter::Subtasks { parent_id: 4 });
}

#[test]
fn without_parent_the_project_or_the_inbox_is_listed() {
    assert_eq!(TaskFilter::of_request(Some(9), None), TaskFilter::Project { project_id: 9 });
    assert_eq!(TaskFilter::of_request(None, None), TaskFilter::Inbox);
}

#[test]
fn listing_statements_are_exact() {
    assert_eq!(
        TaskFilter::Subtasks { parent_id: 4 }.sql(),
        format!("{}{}{}", SELECT, " WHERE parent_id = ?1", ORDER)
    );
    assert_eq!(
        TaskFilter::Project { project_id: 9 }.sql(),
        format!("{}{}{}", SELECT, " WHERE parent_id IS NULL AND project_id = ?1", ORDER)
    );
    assert_eq!(
        TaskFilter::Inbox.sql(),
        format!("{}{}{}", SELECT, " WHERE parent_id IS NULL AND project_id IS NULL", ORDER)
    );
}

#[test]
fn task_by_id_statement_is_exact() {
    assert_eq!(task_by_id_statement(), format!("{}{}", SELECT, " WHERE t.id = ?"));
}

#[test]
fn listing_parameters_match_the_statement() {
    assert_eq!(TaskFilter::Subtasks { parent_id: 4 }.parameter(), Some(4));
    assert_eq!(TaskFilter::Project { project_id: 9 }.parameter(), Some(9));
    assert_eq!(TaskFilter::Inbox.parameter(), None);
}

#[test]
fn listing_statements_are_accepted_by_the_store() {
    let conn = Connection::open_in_memory().unwrap();
    conn.execute_batch(
        "CREATE TABLE tasks (id INTEGER PRIMARY KEY, title TEXT, description TEXT, is_completed INTEGER, project_id INTEGER, parent_id INTEGER, priority INTEGER, due_date TEXT, created_at TEXT, updated_at TEXT);
         CREATE TABLE reminders (id INTEGER PRIMARY KEY, task_id INTEGER, remind_at TEXT, is_sent INTEGER);
         INSERT INTO tasks (id, title, is_completed, project_id, parent_id, priority, created_at, updated_at) VALUES
            (1, 'inbox low', 0, NULL, NULL, 1, '2024-01-01 00:00:00', '2024-01-01 00:00:00'),
            (2, 'inbox high', 0, NULL, NULL, 3, '2024-01-01 00:00:00', '2024-01-01 00:00:00'),
            (3, 'project', 0, 7, NULL, 0, '2024-01-01 00:00:00', '2024-01-01 00:00:00'),
            (4, 'part', 0, NULL, 2, 0, '2024-01-01 00:00:00', '2024-01-01 00:00:00');",
    )
    .unwrap();
    let ids = |filter: TaskFilter| -> Vec<i64> {
        let mut stmt = conn.prepare(&filter.sql()).unwrap();
        let rows: Vec<i64> = match filter.parameter() {
            Some(value) => stmt.query_map([value], |r| r.get(0)).unwrap().map(|r| r.unwrap()).collect(),
            None => stmt.query_map([], |r| r.get(0)).unwrap().map(|r| r.unwrap()).collect(),
        };
        rows
    };
    assert_eq!(ids(TaskFilter::Inbox), vec![2, 1]);
    assert_eq!(ids(TaskFilter::Project { project_id: 7 }), vec![3]);
    assert_eq!(ids(TaskFilter::Subtasks { parent_id: 2 }), vec![4]);
}

#[test]
fn placeholders_are_separated_by_commas() {
    assert_eq!(placeholders(0), "");
    assert_eq!(placeholders(1), "?");
    assert_eq!(placeholders(2), "?, ?");
    assert_eq!(placeholders(5), "?, ?, ?, ?, ?");
}

#[test]
fn nothing_to_mark_needs_no_statement() {
    assert_eq!(mark_sent_statement(0), None);
}

#[test]
fn mark_statement_has_a_parameter_for_each_reminder() {
    assert_eq!(
        mark_sent_statement(1),
        Some("UPDATE reminders SET is_sent = 1 WHERE id IN (?)".to_string())
    );
    assert_eq!(
        mark_sent_statement(3),
        Some("UPDATE reminders SET is_sent = 1 WHERE id IN (?, ?, ?)".to_string())
    );
}

#[test]
fn round_keeps_the_deliveries_that_went_out() {
    let attempts = vec![
        Delivery { reminder_id: 1, task_id: 10, shown: true },
        Delivery { reminder_id: 2, task_id: 20, shown: false },
        Delivery { reminder_id: 3, task_id: 10, shown: true },
    ];
    let round = sum_up(&attempts);
    assert_eq!(round, Round { sent_ids: vec![1, 3], task_ids: vec![10, 10] });
    assert!(round.has_sent());
}

#[test]
fn round_without_deliveries_has_nothing_to_mark() {
    let round = sum_up(&Vec::new());
    assert_eq!(round, Round { sent_ids: Vec::new(), task_ids: Vec::new() });
    assert!(!round.has_sent());
    let none_shown = sum_up(&vec![Delivery { reminder_id: 1, task_id: 2, shown: false }]);
    assert!(!none_shown.has_sent());
}

#[test]
fn name_is_taken_only_when_a_project_was_found() {
    assert!(!name_is_free(&Ok(3)));
    assert!(name_is_free(&Err(rusqlite::Error::QueryReturnedNoRows)));
    assert!(name_is_free(&Err(rusqlite::Error::InvalidQuery)));
}

#[test]
fn windows_are_told_only_after_the_marking_went_through() {
    assert_eq!(after_marking(&Ok(2)), Sequel::Announce);
    assert_eq!(after_marking(&Ok(0)), Sequel::Announce);
    assert_eq!(after_marking(&Err(rusqlite::Error::InvalidQuery)), Sequel::Silence);
}
