//! The journal and its three operations: add a task, complete a task, list
//! the tasks.
//!
//! A journal is an ordered list of tasks. A task has no name of its own: it
//! is known by its position, counted from one, in the list as it stands when
//! the operation reads it. Each operation takes the bytes of the journal
//! file and gives back the bytes that replace them, or the lines to show;
//! none keeps anything between two calls.

use crate::clock::{calendar_minute, local_offset, offset_in_range};
use crate::codec::{
    decode_journal, decoded_journal, encode_journal, encoded_journal, lemma_decoded_journal_wf,
};
use crate::error::JournalError;
use crate::task::{displayed, Task, TaskView};
use crate::text::{ascii_text, decimal_digits, push_decimal_text};
use vstd::prelude::*;
use vstd::string::*;

verus! {

/// The tasks of the journal file `contents`, or the error that tells that it
/// holds something else.
pub open spec fn collected(contents: Seq<u8>) -> Result<Seq<TaskView>, JournalError> {
    match decoded_journal(contents) {
        Some(tasks) => Ok(tasks),
        None => Err(JournalError::Decode),
    }
}

/// The journal after `task` is added: the tasks that were there, in their
/// order, and `task` behind them.
pub open spec fn added(tasks: Seq<TaskView>, task: TaskView) -> Seq<TaskView> {
    tasks.push(task)
}

/// Whether `position` names a task of `tasks`: positions count from one.
pub open spec fn valid_position(tasks: Seq<TaskView>, position: int) -> bool {
    1 <= position <= tasks.len()
}

/// The journal after the task at `position` is completed: that task is
/// gone, and the tasks behind it have moved up by one. A position that names
/// no task is an error.
pub open spec fn completed(tasks: Seq<TaskView>, position: int) -> Result<
    Seq<TaskView>,
    JournalError,
> {
    if valid_position(tasks, position) {
        Ok(tasks.remove(position - 1))
    } else {
        Err(JournalError::InvalidInput)
    }
}

/// The journal file after `task` is added to the journal file `contents`: the
/// file that holds its tasks and `task` behind them, or the error of reading
/// `contents`.
pub open spec fn journal_after_add(contents: Seq<u8>, task: TaskView) -> Result<
    Seq<u8>,
    JournalError,
> {
    match collected(contents) {
        Ok(tasks) => Ok(encoded_journal(added(tasks, task))),
        Err(error) => Err(error),
    }
}

/// The journal file after the task at `position` of the journal file
/// `contents` is completed: the file that holds the tasks that are left, or
/// the error of reading `contents`, or else the error of the position.
pub open spec fn journal_after_complete(contents: Seq<u8>, position: int) -> Result<
    Seq<u8>,
    JournalError,
> {
    match collected(contents) {
        Ok(tasks) => match completed(tasks, position) {
            Ok(shorter) => Ok(encoded_journal(shorter)),
            Err(error) => Err(error),
        },
        Err(error) => Err(error),
    }
}

/// What a result says of a journal: the tasks it holds, or the error.
pub open spec fn tasks_of(result: Result<Vec<Task>, JournalError>) -> Result<
    Seq<TaskView>,
    JournalError,
> {
    match result {
        Ok(tasks) => Ok(tasks.deep_view()),
        Err(error) => Err(error),
    }
}

/// What a result says of a journal file: the bytes it holds, or the error.
pub open spec fn bytes_of(result: Result<Vec<u8>, JournalError>) -> Result<
    Seq<u8>,
    JournalError,
> {
    match result {
        Ok(bytes) => Ok(bytes@),
        Err(error) => Err(error),
    }
}

/// The tasks as they are shown, each with its stamp.
pub open spec fn shown_tasks(tasks: Seq<TaskView>, stamps: Seq<Seq<char>>) -> Seq<Seq<char>> {
    Seq::new(tasks.len(), |i: int| displayed(tasks[i].text, stamps[i]))
}

/// Whether `offsets` holds, for each task of `tasks`, a difference between a
/// zone's time and UTC.
pub open spec fn valid_offsets(tasks: Seq<TaskView>, offsets: Seq<int>) -> bool {
    &&& offsets.len() == tasks.len()
    &&& forall|i: int| 0 <= i < offsets.len() ==> offset_in_range(#[trigger] offsets[i])
}

/// The stamp of each task: the minute of its creation, in a zone that is
/// ahead of UTC by the offset that `offsets` holds for it.
pub open spec fn stamps_at(tasks: Seq<TaskView>, offsets: Seq<int>) -> Seq<Seq<char>> {
    Seq::new(tasks.len(), |i: int| calendar_minute(tasks[i].created_at, offsets[i]))
}

/// One line of the listing: the position, a colon, a space, the task.
pub open spec fn numbered(position: nat, shown: Seq<char>) -> Seq<char> {
    ascii_text(decimal_digits(position)) + ": "@ + shown
}

/// The listing of the journal whose tasks are shown as `shown`: one line for
/// each task, numbered from one; or, for an empty journal, a single line that
/// says so.
pub open spec fn listing(shown: Seq<Seq<char>>) -> Seq<Seq<char>> {
    if shown.len() == 0 {
        seq!["Task list is empty!"@]
    } else {
        Seq::new(shown.len(), |i: int| numbered((i + 1) as nat, shown[i]))
    }
}

/// Reads the tasks of the journal file `contents`. A file that is empty, or
/// blank, holds no task; a file that holds anything but a list of tasks is
/// refused.
pub fn collect_tasks(contents: &[u8]) -> (result: Result<Vec<Task>, JournalError>)
    ensures
        tasks_of(result) == collected(contents@),
        result matches Ok(tasks) ==> forall|i: int|
            0 <= i < tasks@.len() ==> (#[trigger] tasks@[i]).wf(),
{
    match decode_journal(contents) {
        Some(tasks) => {
            proof {
                lemma_decoded_journal_wf(contents@);
                assert forall|i: int| 0 <= i < tasks@.len() implies (#[trigger] tasks@[i]).wf() by {
                    assert(tasks.deep_view()[i].wf());
                }
            }
            Ok(tasks)
        },
        None => Err(JournalError::Decode),
    }
}

/// Puts `task` behind the tasks of `tasks`.
pub fn with_task(tasks: Vec<Task>, task: Task) -> (longer: Vec<Task>)
    ensures
        longer.deep_view() == added(tasks.deep_view(), task@),
{
    let mut longer = tasks;
    longer.push(task);
    assert(longer.deep_view() =~= added(tasks.deep_view(), task@));
    longer
}

/// Takes the task at `position` out of `tasks`.
pub fn without_position(tasks: Vec<Task>, position: usize) -> (result: Result<
    Vec<Task>,
    JournalError,
>)
    ensures
        tasks_of(result) == completed(tasks.deep_view(), position as int),
{
    if position == 0 || position > tasks.len() {
        return Err(JournalError::InvalidInput);
    }
    let mut shorter = tasks;
    shorter.remove(position - 1);
    assert(shorter.deep_view() =~= tasks.deep_view().remove(position - 1));
    Ok(shorter)
}

/// Numbers the shown tasks from one, or says that there are none.
pub fn number_lines(shown: &Vec<String>) -> (lines: Vec<String>)
    ensures
        lines.deep_view() == listing(shown.deep_view()),
{
    let mut lines: Vec<String> = Vec::new();
    if shown.len() == 0 {
        lines.push(String::from_str("Task list is empty!"));
        assert(lines.deep_view() =~= listing(shown.deep_view()));
        return lines;
    }
    let mut i: usize = 0;
    while i < shown.len()
        invariant
            i <= shown@.len(),
            lines@.len() == i,
            forall|j: int|
                0 <= j < i ==> (#[trigger] lines@[j])@ == numbered((j + 1) as nat, shown@[j]@),
        decreases shown@.len() - i,
    {
        let mut line = String::new();
        push_decimal_text(&mut line, (i + 1) as u64);
        line.append(": ");
        line.append(shown[i].as_str());
        assert(line@ =~= numbered((i + 1) as nat, shown@[i as int]@));
        lines.push(line);
        i += 1;
    }
    assert(lines.deep_view() =~= listing(shown.deep_view()));
    lines
}

/// Shows each task of `tasks` with the minute of its creation in the
/// machine's time zone. Which offset that zone has at each of those times is
/// the machine's to tell; the lines are fixed by them.
pub fn show_tasks(tasks: &Vec<Task>) -> (shown: Vec<String>)
    requires
        forall|i: int| 0 <= i < tasks@.len() ==> (#[trigger] tasks@[i]).wf(),
    ensures
        exists|offsets: Seq<int>|
            valid_offsets(tasks.deep_view(), offsets) && shown.deep_view() == shown_tasks(
                tasks.deep_view(),
                #[trigger] stamps_at(tasks.deep_view(), offsets),
            ),
{
    let mut shown: Vec<String> = Vec::new();
    let ghost mut offsets: Seq<int> = Seq::empty();
    let mut i: usize = 0;
    while i < tasks.len()
        invariant
            i <= tasks@.len(),
            shown@.len() == i,
            offsets.len() == i,
            forall|j: int| 0 <= j < tasks@.len() ==> (#[trigger] tasks@[j]).wf(),
            forall|j: int| 0 <= j < i ==> offset_in_range(#[trigger] offsets[j]),
            forall|j: int|
                0 <= j < i ==> (#[trigger] shown@[j])@ == displayed(
                    tasks@[j].text@,
                    calendar_minute(tasks@[j].created_at as int, offsets[j]),
                ),
        decreases tasks@.len() - i,
    {
        let offset = local_offset(tasks[i].created_at);
        let line = tasks[i].display_at(offset);
        proof {
            offsets = offsets.push(offset as int);
        }
        shown.push(line);
        i += 1;
    }
    assert(valid_offsets(tasks.deep_view(), offsets));
    assert(shown.deep_view() =~= shown_tasks(
        tasks.deep_view(),
        stamps_at(tasks.deep_view(), offsets),
    ));
    shown
}

/// Adds `task` at the end of the journal: gives the journal file that holds
/// the tasks of `contents`, in their order, and `task` behind them.
pub fn add_task(contents: &[u8], task: Task) -> (result: Result<Vec<u8>, JournalError>)
    requires
        task.wf(),
    ensures
        bytes_of(result) == journal_after_add(contents@, task@),
{
    match collect_tasks(contents) {
        Ok(tasks) => Ok(encode_journal(&with_task(tasks, task))),
        Err(error) => Err(error),
    }
}

/// Completes the task at `task_position`: gives the journal file that holds
/// the tasks of `contents` without that one. Where the position names no
/// task there is no new file, and the journal stays as it is.
pub fn complete_task(contents: &[u8], task_position: usize) -> (result: Result<
    Vec<u8>,
    JournalError,
>)
    ensures
        bytes_of(result) == journal_after_complete(contents@, task_position as int),
{
    match collect_tasks(contents) {
        Ok(tasks) => match without_position(tasks, task_position) {
            Ok(shorter) => Ok(encode_journal(&shorter)),
            Err(error) => Err(error),
        },
        Err(error) => Err(error),
    }
}

/// Lists the journal: gives the lines to show, one for each task of
/// `contents` in order, numbered from one, or the single line that says that
/// the journal is empty. The journal is left as it is. Each task bears the
/// minute of its creation in the machine's time zone; which offset that zone
/// has at each of those times is the machine's to tell.
pub fn list_tasks(contents: &[u8]) -> (result: Result<Vec<String>, JournalError>)
    ensures
        match collected(contents@) {
            Ok(tasks) => result matches Ok(lines) && exists|offsets: Seq<int>|
                valid_offsets(tasks, offsets) && lines.deep_view() == listing(
                    shown_tasks(tasks, #[trigger] stamps_at(tasks, offsets)),
                ),
            Err(error) => result == Err::<Vec<String>, JournalError>(error),
        },
{
    match collect_tasks(contents) {
        Ok(tasks) => {
            let shown = show_tasks(&tasks);
            let lines = number_lines(&shown);
            proof {
                let model = collected(contents@)->Ok_0;
                let offsets = choose|offsets: Seq<int>|
                    valid_offsets(tasks.deep_view(), offsets) && shown.deep_view() == shown_tasks(
                        tasks.deep_view(),
                        #[trigger] stamps_at(tasks.deep_view(), offsets),
                    );
                assert(valid_offsets(model, offsets));
                assert(lines.deep_view() == listing(shown_tasks(model, stamps_at(model, offsets))));
            }
            Ok(lines)
        },
        Err(error) => Err(error),
    }
}

} // verus!
