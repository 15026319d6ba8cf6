use momentum::domain::attachment::{Attachment, AttachmentRow, AttachmentType};
use momentum::domain::priority::Priority;
use momentum::domain::project::{Project, ProjectRow};
use momentum::domain::reminder::{flag, Reminder, ReminderRow};
use momentum::domain::task::{Task, TaskRow};
use momentum::domain::time::Timestamp;

fn time(text: &str) -> Timestamp {
    Timestamp { text: text.to_string() }
}

#[test]
fn priority_reads_from_its_code() {
    assert_eq!(Priority::from(0), Priority::Unset);
    assert_eq!(Priority::from(1), Priority::Low);
    assert_eq!(Priority::from(2), Priority::Medium);
    assert_eq!(Priority::from(3), Priority::High);
}

#[test]
fn unknown_priority_code_reads_as_unset() {
    assert_eq!(Priority::from(4), Priority::Unset);
    assert_eq!(Priority::from(-1), Priority::Unset);
    assert_eq!(Priority::from(i64::MAX), Priority::Unset);
    assert_eq!(Priority::from(i64::MIN), Priority::Unset);
}

#[test]
fn priority_writes_its_code() {
    assert_eq!(i64::from(Priority::Unset), 0);
    assert_eq!(i64::from(Priority::Low), 1);
    assert_eq!(i64::from(Priority::Medium), 2);
    assert_eq!(i64::from(Priority::High), 3);
}

#[test]
fn priority_code_reads_back() {
    for p in [Priority::Unset, Priority::Low, Priority::Medium, Priority::High] {
        assert_eq!(Priority::from(i64::from(p)), p);
        assert_eq!(Priority::parse(i64::from(p)), Some(p));
    }
}

#[test]
fn strict_reading_refuses_unknown_priority_codes() {
    assert_eq!(Priority::parse(4), None);
    assert_eq!(Priority::parse(-1), None);
    assert_eq!(Priority::parse(0), Some(Priority::Unset));
    assert_eq!(Priority::parse(3), Some(Priority::High));
}

#[test]
fn attachment_type_reads_from_its_tag() {
    assert_eq!(AttachmentType::from("Url"), AttachmentType::Url);
    assert_eq!(AttachmentType::from("LocalPath"), AttachmentType::LocalPath);
}

#[test]
fn unknown_attachment_tag_reads_as_url() {
    assert_eq!(AttachmentType::from(""), AttachmentType::Url);
    assert_eq!(AttachmentType::from("url"), AttachmentType::Url);
    assert_eq!(AttachmentType::from("localpath"), AttachmentType::Url);
    assert_eq!(AttachmentType::from("LocalPath "), AttachmentType::Url);
    assert_eq!(AttachmentType::from("File"), AttachmentType::Url);
}

#[test]
fn strict_reading_refuses_unknown_attachment_tags() {
    assert_eq!(AttachmentType::parse("Url"), Some(AttachmentType::Url));
    assert_eq!(AttachmentType::parse("LocalPath"), Some(AttachmentType::LocalPath));
    assert_eq!(AttachmentType::parse("File"), None);
    assert_eq!(AttachmentType::parse(""), None);
}

#[test]
fn attachment_type_writes_its_tag() {
    let url: &str = AttachmentType::Url.into();
    let path: &str = AttachmentType::LocalPath.into();
    assert_eq!(url, "Url");
    assert_eq!(path, "LocalPath");
    assert_eq!(AttachmentType::Url.as_str(), "Url");
    assert_eq!(AttachmentType::LocalPath.as_str(), "LocalPath");
}

#[test]
fn attachment_tag_reads_back() {
    for kind in [AttachmentType::Url, AttachmentType::LocalPath] {
        assert_eq!(AttachmentType::from(kind.as_str()), kind);
        assert_eq!(AttachmentType::parse(kind.as_str()), Some(kind));
    }
}

#[test]
fn attachment_is_read_from_its_row() {
    let row = AttachmentRow {
        id: 4,
        task_id: 9,
        kind: "LocalPath".to_string(),
        payload: "/home/me/notes".to_string(),
    };
    assert_eq!(
        Attachment::from_row(row),
        Attachment {
            id: 4,
            task_id: 9,
            attachment_type: AttachmentType::LocalPath,
            payload: "/home/me/notes".to_string(),
        }
    );
    let odd = AttachmentRow { id: 1, task_id: 2, kind: "Odd".to_string(), payload: "x".to_string() };
    assert_eq!(Attachment::from_row(odd).attachment_type, AttachmentType::Url);
}

#[test]
fn only_one_sets_a_flag() {
    assert!(flag(1));
    assert!(!flag(0));
    assert!(!flag(2));
    assert!(!flag(-1));
}

#[test]
fn reminder_is_read_from_its_row() {
    let row = ReminderRow { id: 3, task_id: 8, remind_at: "2024-05-01 09:30:00".to_string(), is_sent: 0 };
    assert_eq!(
        Reminder::from_row(row),
        Reminder { id: 3, task_id: 8, remind_at: time("2024-05-01 09:30:00"), is_sent: false }
    );
    let sent = ReminderRow { id: 3, task_id: 8, remind_at: "2024-05-01 09:30:00".to_string(), is_sent: 1 };
    assert!(Reminder::from_row(sent).is_sent);
}

#[test]
fn project_is_read_from_its_row() {
    let row = ProjectRow {
        id: 2,
        name: "Home".to_string(),
        created_at: "2024-01-01 00:00:00".to_string(),
        updated_at: "2024-01-02 00:00:00".to_string(),
    };
    assert_eq!(
        Project::from_row(row),
        Project {
            id: 2,
            name: "Home".to_string(),
            created_at: time("2024-01-01 00:00:00"),
            updated_at: time("2024-01-02 00:00:00"),
        }
    );
}

#[test]
fn task_is_read_from_its_row() {
    let row = TaskRow {
        id: 11,
        title: "Write".to_string(),
        description: Some("a letter".to_string()),
        is_completed: 1,
        project_id: Some(2),
        parent_id: None,
        subtask_count: 3,
        priority: 2,
        due_date: Some("2024-06-01 12:00:00".to_string()),
        next_reminder_at: None,
        created_at: "2024-01-01 00:00:00".to_string(),
        updated_at: "2024-01-02 00:00:00".to_string(),
    };
    assert_eq!(
        Task::from_row(row),
        Task {
            id: 11,
            title: "Write".to_string(),
            description: Some("a letter".to_string()),
            is_completed: true,
            project_id: Some(2),
            parent_id: None,
            subtask_count: 3,
            priority: Priority::Medium,
            due_date: Some(time("2024-06-01 12:00:00")),
            next_reminder_at: None,
            created_at: time("2024-01-01 00:00:00"),
            updated_at: time("2024-01-02 00:00:00"),
        }
    );
}

#[test]
fn task_row_with_odd_columns_reads_leniently() {
    let row = TaskRow {
        id: 1,
        title: "t".to_string(),
        description: None,
        is_completed: 7,
        project_id: None,
        parent_id: Some(5),
        subtask_count: 0,
        priority: 99,
        due_date: None,
        next_reminder_at: Some("2024-06-01 12:00:00".to_string()),
        created_at: "c".to_string(),
        updated_at: "u".to_string(),
    };
    let task = Task::from_row(row);
    assert!(!task.is_completed);
    assert_eq!(task.priority, Priority::Unset);
    assert_eq!(task.parent_id, Some(5));
    assert_eq!(task.next_reminder_at, Some(time("2024-06-01 12:00:00")));
}

#[test]
fn timestamps_carry_the_column_text() {
    assert_eq!(Timestamp::of_column("2024-01-01 00:00:00".to_string()), time("2024-01-01 00:00:00"));
    assert_eq!(Timestamp::of_optional_column(None), None);
    assert_eq!(Timestamp::of_optional_column(Some("x".to_string())), Some(time("x")));
}

#[test]
fn timestamp_stands_for_an_instant_in_universal_time() {
    assert_eq!(time("2024-05-01 09:30:00").instant(), Some((1714555800, 0)));
    assert_eq!(time("1970-01-01 00:00:00").instant(), Some((0, 0)));
    assert_eq!(time("1969-12-31 23:59:59").instant(), Some((-1, 0)));
}

#[test]
fn leap_second_is_kept_in_the_nanoseconds() {
    assert_eq!(time("2016-12-31 23:59:60").instant(), Some((1483228799, 1_000_000_000)));
}

#[test]
fn text_in_another_notation_stands_for_no_instant() {
    assert_eq!(time("").instant(), None);
    assert_eq!(time("2024-05-01").instant(), None);
    assert_eq!(time("2024-05-01T09:30:00").instant(), None);
    assert_eq!(time("2024-13-01 09:30:00").instant(), None);
    assert_eq!(time("2024-02-30 09:30:00").instant(), None);
    assert_eq!(time("2024-05-01 09:30:00 UTC").instant(), None);
    assert_eq!(time("yesterday").instant(), None);
}

#[test]
fn notation_is_that_of_the_store() {
    assert_eq!(Timestamp::notation(), "%Y-%m-%d %H:%M:%S");
}
