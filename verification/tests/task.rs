use task_journal::task::{Task, MAX_TIMESTAMP, MIN_TIMESTAMP, TEXT_WIDTH};

fn local_stamp(seconds: i64) -> String {
    chrono::DateTime::from_timestamp(seconds, 0)
        .expect("a creation time within the calendar")
        .with_timezone(&chrono::Local)
        .format("%F %H:%M")
        .to_string()
}

#[test]
fn new_keeps_the_text_and_stamps_now() {
    let before = chrono::Utc::now().timestamp();
    let task = Task::new(String::from("Teste"));
    let after = chrono::Utc::now().timestamp();
    assert_eq!(task.text, "Teste");
    assert!(before <= task.created_at && task.created_at <= after);
    assert!(MIN_TIMESTAMP <= task.created_at && task.created_at <= MAX_TIMESTAMP);
    assert!(task.is_valid());
}

#[test]
fn new_takes_the_empty_text() {
    let task = Task::new(String::new());
    assert_eq!(task.text, "");
    assert!(task.is_valid());
}

#[test]
fn stamped_accepts_the_range_and_nothing_else() {
    assert_eq!(
        Task::stamped(String::from("a"), 5),
        Some(Task { text: String::from("a"), created_at: 5 })
    );
    assert!(Task::stamped(String::from("a"), MIN_TIMESTAMP).is_some());
    assert!(Task::stamped(String::from("a"), MAX_TIMESTAMP).is_some());
    assert!(Task::stamped(String::from("a"), MIN_TIMESTAMP - 1).is_none());
    assert!(Task::stamped(String::from("a"), MAX_TIMESTAMP + 1).is_none());
}

#[test]
fn is_valid_follows_the_range() {
    assert!(Task { text: String::new(), created_at: 0 }.is_valid());
    assert!(Task { text: String::new(), created_at: MIN_TIMESTAMP }.is_valid());
    assert!(Task { text: String::new(), created_at: MAX_TIMESTAMP }.is_valid());
    assert!(!Task { text: String::new(), created_at: MIN_TIMESTAMP - 1 }.is_valid());
    assert!(!Task { text: String::new(), created_at: MAX_TIMESTAMP + 1 }.is_valid());
}

#[test]
fn tasks_are_equal_when_both_fields_are() {
    let a = Task { text: String::from("a"), created_at: 1 };
    assert_eq!(a, Task { text: String::from("a"), created_at: 1 });
    assert_ne!(a, Task { text: String::from("b"), created_at: 1 });
    assert_ne!(a, Task { text: String::from("a"), created_at: 2 });
    assert_eq!(a.clone(), a);
}

#[test]
fn the_text_column_is_fifty_wide() {
    assert_eq!(TEXT_WIDTH, 50);
}

#[test]
fn display_with_pads_a_short_text() {
    let task = Task { text: String::from("Teste"), created_at: 0 };
    assert_eq!(
        task.display_with("2023-11-14 22:13"),
        "Teste                                              [2023-11-14 22:13]"
    );
    assert_eq!(task.display_with("2023-11-14 22:13"), format!("{:<50} [{}]", "Teste", "2023-11-14 22:13"));
}

#[test]
fn display_with_pads_the_empty_text() {
    let task = Task { text: String::new(), created_at: 0 };
    assert_eq!(task.display_with("s"), format!("{} [s]", " ".repeat(50)));
}

#[test]
fn display_with_keeps_a_text_of_fifty() {
    let text = "x".repeat(50);
    let task = Task { text: text.clone(), created_at: 0 };
    assert_eq!(task.display_with("s"), format!("{} [s]", text));
    let text = "x".repeat(49);
    let task = Task { text: text.clone(), created_at: 0 };
    assert_eq!(task.display_with("s"), format!("{}  [s]", text));
}

#[test]
fn display_with_cuts_a_longer_text() {
    let task = Task { text: format!("{}yz", "x".repeat(50)), created_at: 0 };
    assert_eq!(task.display_with("s"), format!("{} [s]", "x".repeat(50)));
}

#[test]
fn display_with_counts_characters_not_bytes() {
    let task = Task { text: String::from("é日🎉"), created_at: 0 };
    assert_eq!(task.display_with("s"), format!("é日🎉{} [s]", " ".repeat(47)));
    let long = "é".repeat(51);
    let task = Task { text: long, created_at: 0 };
    assert_eq!(task.display_with("s"), format!("{} [s]", "é".repeat(50)));
}

#[test]
fn display_at_shows_the_minute_in_the_given_zone() {
    let task = Task { text: String::from("Teste"), created_at: 1_700_000_000 };
    assert_eq!(
        task.display_at(0),
        "Teste                                              [2023-11-14 22:13]"
    );
    assert_eq!(task.display_at(3_600), format!("{:<50} [2023-11-14 23:13]", "Teste"));
    assert_eq!(task.display_at(-19_800), format!("{:<50} [2023-11-14 16:43]", "Teste"));
    assert_eq!(task.display_at(7_200), format!("{:<50} [2023-11-15 00:13]", "Teste"));
    let first = Task { text: String::new(), created_at: 0 };
    assert_eq!(first.display_at(0), format!("{:<50} [1970-01-01 00:00]", ""));
    assert_eq!(first.display_at(-1), format!("{:<50} [1969-12-31 23:59]", ""));
    assert_eq!(first.display_at(86_399), format!("{:<50} [1970-01-01 23:59]", ""));
    assert_eq!(first.display_at(-86_399), format!("{:<50} [1969-12-31 00:00]", ""));
    let before = Task { text: String::new(), created_at: -1 };
    assert_eq!(before.display_at(0), format!("{:<50} [1969-12-31 23:59]", ""));
}

#[test]
fn display_is_display_at_the_local_offset() {
    for seconds in [0, 1_700_000_000, -86_400, 4_102_444_800] {
        let task = Task { text: String::from("Teste"), created_at: seconds };
        let offset = chrono::DateTime::from_timestamp(seconds, 0)
            .expect("a creation time within the calendar")
            .with_timezone(&chrono::Local)
            .offset()
            .local_minus_utc();
        assert_eq!(task.display(), task.display_at(offset));
    }
}

#[test]
fn display_shows_the_local_minute() {
    for seconds in [0, 1_700_000_000, -86_400, 4_102_444_800] {
        let task = Task { text: String::from("Teste"), created_at: seconds };
        assert_eq!(task.display(), format!("{:<50} [{}]", "Teste", local_stamp(seconds)));
        assert_eq!(task.display(), task.display_with(&local_stamp(seconds)));
    }
}

#[test]
fn display_works_at_the_ends_of_the_calendar() {
    for seconds in [MIN_TIMESTAMP, MAX_TIMESTAMP] {
        let task = Task { text: String::from("edge"), created_at: seconds };
        let line = task.display();
        assert!(line.starts_with(&format!("{:<50} [", "edge")));
        assert!(line.ends_with(']'));
        assert!(line.len() > 53);
        for offset in [-86_399, 0, 86_399] {
            let line = task.display_at(offset);
            assert!(line.starts_with(&format!("{:<50} [", "edge")));
            assert!(line.ends_with(']'));
        }
    }
    let last = Task { text: String::new(), created_at: MAX_TIMESTAMP };
    assert_eq!(last.display_at(0), format!("{:<50} [+262142-12-31 23:59]", ""));
    let first = Task { text: String::new(), created_at: MIN_TIMESTAMP };
    assert_eq!(first.display_at(0), format!("{:<50} [-262143-01-01 00:00]", ""));
}
