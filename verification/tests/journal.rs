use task_journal::tasks::{
    add_task, collect_tasks, complete_task, list_tasks, number_lines, show_tasks, with_task,
    without_position,
};
use task_journal::{JournalError, Task};

fn task(text: &str, created_at: i64) -> Task {
    Task::stamped(String::from(text), created_at).expect("a creation time within the calendar")
}

fn journal_of(tasks: &[Task]) -> Vec<u8> {
    let mut contents: Vec<u8> = Vec::new();
    for task in tasks {
        contents = add_task(&contents, task.clone()).expect("Couldn't add task");
    }
    contents
}

#[test]
fn initialize_new_file_empty() {
    let file: Vec<u8> = Vec::new();

    let tasks = collect_tasks(&file).expect("Couldn't read file");

    let empty_vec: Vec<Task> = vec![];
    assert_eq!(empty_vec, tasks);
}

#[test]
fn create_new_todo_and_save_to_file() {
    let file: Vec<u8> = Vec::new();
    let task = Task::new(String::from("Teste"));

    let file = add_task(&file, task.clone()).expect("Couldn't add task");

    let tasks = collect_tasks(&file).expect("Couldn't read file");

    assert_eq!(task.text, tasks[0].text);
}

#[test]
fn completes_item_and_removes_from_list() {
    let file: Vec<u8> = Vec::new();
    let task = Task::new(String::from("Teste"));

    let file = add_task(&file, task.clone()).expect("Couldn't add task");
    let file = add_task(&file, task.clone()).expect("Couldn't add task");
    let file = add_task(&file, task.clone()).expect("Couldn't add task");

    let tasks = collect_tasks(&file).expect("Couldn't read file");

    assert_eq!(3, tasks.len());

    let file = complete_task(&file, 2).expect("Couldn't complete task number 1");

    let updated_tasks = collect_tasks(&file).expect("Couldn't read file");

    assert_eq!(2, updated_tasks.len());
}

#[test]
fn blank_file_holds_no_task() {
    assert_eq!(collect_tasks(b" \n\t\r "), Ok(vec![]));
}

#[test]
fn add_round_trip_keeps_the_whole_task() {
    let added = Task::new(String::from("Teste"));
    let file = add_task(&[], added.clone()).expect("Couldn't add task");
    let tasks = collect_tasks(&file).expect("Couldn't read file");
    assert_eq!(tasks.len(), 1);
    assert_eq!(tasks[0].text, "Teste");
    assert_eq!(tasks[0], added);
}

#[test]
fn add_writes_the_journal_as_a_compact_json_array() {
    let one = add_task(&[], task("Water the plants", 1_700_000_000)).unwrap();
    assert_eq!(
        String::from_utf8(one.clone()).unwrap(),
        r#"[{"text":"Water the plants","created_at":1700000000}]"#
    );
    let two = add_task(&one, task("", -5)).unwrap();
    assert_eq!(
        String::from_utf8(two).unwrap(),
        r#"[{"text":"Water the plants","created_at":1700000000},{"text":"","created_at":-5}]"#
    );
}

#[test]
fn add_escapes_the_text_as_json_does() {
    let file = add_task(&[], task("say \"hi\"\n\\ \u{1} é", 0)).unwrap();
    assert_eq!(
        String::from_utf8(file.clone()).unwrap(),
        "[{\"text\":\"say \\\"hi\\\"\\n\\\\ \\u0001 é\",\"created_at\":0}]"
    );
    let tasks = collect_tasks(&file).unwrap();
    assert_eq!(tasks, vec![task("say \"hi\"\n\\ \u{1} é", 0)]);
}

#[test]
fn add_to_a_blank_file_starts_the_journal() {
    let file = add_task(b"\n", task("a", 1)).unwrap();
    assert_eq!(String::from_utf8(file).unwrap(), r#"[{"text":"a","created_at":1}]"#);
}

#[test]
fn add_preserves_order() {
    let a = task("first", 10);
    let b = task("second", 20);
    let c = task("third", 30);
    let file = add_task(&[], a.clone()).unwrap();
    let file = add_task(&file, b.clone()).unwrap();
    let file = add_task(&file, c.clone()).unwrap();
    assert_eq!(collect_tasks(&file), Ok(vec![a, b, c]));
}

#[test]
fn add_refuses_a_malformed_journal() {
    assert_eq!(add_task(b"[", task("a", 1)), Err(JournalError::Decode));
    assert_eq!(add_task(b"{}", task("a", 1)), Err(JournalError::Decode));
}

#[test]
fn complete_removes_the_task_and_shifts_the_numbering() {
    let a = task("first", 10);
    let b = task("second", 20);
    let c = task("third", 30);
    let file = journal_of(&[a.clone(), b.clone(), c.clone()]);

    let file = complete_task(&file, 2).unwrap();

    let left = collect_tasks(&file).unwrap();
    assert_eq!(left, vec![a, c]);
    let lines = list_tasks(&file).unwrap();
    assert_eq!(lines.len(), 2);
    assert!(lines[0].starts_with("1: first "));
    assert!(lines[1].starts_with("2: third "));
}

#[test]
fn complete_first_and_last() {
    let a = task("first", 10);
    let b = task("second", 20);
    let c = task("third", 30);
    let file = journal_of(&[a.clone(), b.clone(), c.clone()]);
    assert_eq!(
        collect_tasks(&complete_task(&file, 1).unwrap()),
        Ok(vec![b.clone(), c.clone()])
    );
    assert_eq!(collect_tasks(&complete_task(&file, 3).unwrap()), Ok(vec![a, b]));
}

#[test]
fn complete_the_only_task_leaves_an_empty_array() {
    let file = journal_of(&[task("only", 1)]);
    let file = complete_task(&file, 1).unwrap();
    assert_eq!(String::from_utf8(file.clone()).unwrap(), "[]");
    assert_eq!(collect_tasks(&file), Ok(vec![]));
}

#[test]
fn complete_invalid_position() {
    let file = journal_of(&[task("first", 10), task("second", 20), task("third", 30)]);
    let before = collect_tasks(&file).unwrap();

    assert_eq!(complete_task(&file, 0), Err(JournalError::InvalidInput));
    assert_eq!(complete_task(&file, 4), Err(JournalError::InvalidInput));
    assert_eq!(complete_task(&file, usize::MAX), Err(JournalError::InvalidInput));

    assert_eq!(collect_tasks(&file).unwrap(), before);
}

#[test]
fn complete_on_an_empty_journal_is_invalid_input() {
    assert_eq!(complete_task(&[], 1), Err(JournalError::InvalidInput));
    assert_eq!(complete_task(b"[]", 1), Err(JournalError::InvalidInput));
    assert_eq!(complete_task(b"[]", 0), Err(JournalError::InvalidInput));
}

#[test]
fn complete_refuses_a_malformed_journal_before_the_position() {
    assert_eq!(complete_task(b"not json", 0), Err(JournalError::Decode));
    assert_eq!(complete_task(b"not json", 1), Err(JournalError::Decode));
}

#[test]
fn list_on_empty_store() {
    assert_eq!(list_tasks(&[]), Ok(vec![String::from("Task list is empty!")]));
    assert_eq!(list_tasks(b"[]"), Ok(vec![String::from("Task list is empty!")]));
}

#[test]
fn list_is_idempotent() {
    let file = journal_of(&[task("first", 10), task("second", 1_700_000_000)]);
    let once = list_tasks(&file).unwrap();
    let twice = list_tasks(&file).unwrap();
    assert_eq!(once, twice);
    assert_eq!(once.len(), 2);
}

#[test]
fn list_numbers_each_displayed_task() {
    let a = task("first", 10);
    let b = task("second", 1_700_000_000);
    let file = journal_of(&[a.clone(), b.clone()]);
    let lines = list_tasks(&file).unwrap();
    assert_eq!(lines, vec![format!("1: {}", a.display()), format!("2: {}", b.display())]);
}

#[test]
fn list_refuses_a_malformed_journal() {
    assert_eq!(list_tasks(b"[1]"), Err(JournalError::Decode));
}

#[test]
fn number_lines_counts_from_one_in_decimal() {
    let shown: Vec<String> = (0..12).map(|i| format!("task {}", i)).collect();
    let lines = number_lines(&shown);
    assert_eq!(lines.len(), 12);
    assert_eq!(lines[0], "1: task 0");
    assert_eq!(lines[8], "9: task 8");
    assert_eq!(lines[9], "10: task 9");
    assert_eq!(lines[11], "12: task 11");
}

#[test]
fn number_lines_of_nothing_is_the_notice() {
    assert_eq!(number_lines(&Vec::new()), vec![String::from("Task list is empty!")]);
}

#[test]
fn show_tasks_displays_each_task() {
    let a = task("first", 10);
    let b = task("second", 20);
    let shown = show_tasks(&vec![a.clone(), b.clone()]);
    assert_eq!(shown, vec![a.display(), b.display()]);
}

#[test]
fn with_task_appends() {
    let a = task("first", 10);
    let b = task("second", 20);
    assert_eq!(with_task(vec![a.clone()], b.clone()), vec![a, b]);
}

#[test]
fn without_position_removes_or_refuses() {
    let a = task("first", 10);
    let b = task("second", 20);
    assert_eq!(without_position(vec![a.clone(), b.clone()], 1), Ok(vec![b.clone()]));
    assert_eq!(without_position(vec![a.clone(), b.clone()], 2), Ok(vec![a.clone()]));
    assert_eq!(without_position(vec![a.clone(), b.clone()], 0), Err(JournalError::InvalidInput));
    assert_eq!(without_position(vec![a, b], 3), Err(JournalError::InvalidInput));
    assert_eq!(without_position(vec![], 1), Err(JournalError::InvalidInput));
}

#[test]
fn error_messages() {
    assert_eq!(JournalError::InvalidInput.message(), "Invalid Task ID");
    assert_eq!(JournalError::Decode.message(), "Malformed journal");
}
