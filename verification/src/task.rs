//! The task record and the range of creation times it can hold.

use crate::clock::{
    calendar_minute, current_timestamp, local_offset, minute_at, offset_in_range,
};
use crate::text::push_spaces;
use vstd::prelude::*;
use vstd::string::*;

verus! {

/// The width of the column in which a task's text is shown.
pub const TEXT_WIDTH: usize = 50;

/// The earliest creation time a task can hold, in seconds since the Unix
/// epoch: midnight of January 1 of the year -262143.
pub const MIN_TIMESTAMP: i64 = -8_334_601_228_800;

/// The latest creation time a task can hold, in seconds since the Unix epoch:
/// the last second of December 31 of the year 262142.
pub const MAX_TIMESTAMP: i64 = 8_210_266_876_799;

/// Whether `seconds` names an instant that the calendar can express.
pub open spec fn timestamp_in_range(seconds: int) -> bool {
    MIN_TIMESTAMP <= seconds <= MAX_TIMESTAMP
}

/// One journal entry: a free-form text and the second at which it was
/// created, counted from the Unix epoch in UTC.
#[derive(Debug)]
pub struct Task {
    pub text: String,
    pub created_at: i64,
}

/// What a task is, mathematically: its characters and its creation second.
pub struct TaskView {
    pub text: Seq<char>,
    pub created_at: int,
}

impl View for Task {
    type V = TaskView;

    open spec fn view(&self) -> TaskView {
        TaskView { text: self.text@, created_at: self.created_at as int }
    }
}

impl DeepView for Task {
    type V = TaskView;

    open spec fn deep_view(&self) -> TaskView {
        self@
    }
}

impl TaskView {
    /// A task is well formed when its creation time is one the calendar can
    /// express.
    pub open spec fn wf(self) -> bool {
        timestamp_in_range(self.created_at)
    }
}

/// The text column of a displayed task: the text itself, followed by spaces
/// up to `TEXT_WIDTH` characters, or cut after its first `TEXT_WIDTH`
/// characters where it is longer.
pub open spec fn text_column(text: Seq<char>) -> Seq<char> {
    if text.len() >= TEXT_WIDTH {
        text.subrange(0, TEXT_WIDTH as int)
    } else {
        text + Seq::new((TEXT_WIDTH - text.len()) as nat, |i: int| ' ')
    }
}

/// A displayed task: the text column, a space, and the creation time
/// `stamp` in square brackets.
pub open spec fn displayed(text: Seq<char>, stamp: Seq<char>) -> Seq<char> {
    text_column(text) + " ["@ + stamp + "]"@
}

impl Clone for Task {
    fn clone(&self) -> (copy: Task)
        ensures
            copy == *self,
    {
        Task { text: self.text.clone(), created_at: self.created_at }
    }
}

impl Eq for Task {

}

impl PartialEq for Task {
    fn eq(&self, other: &Task) -> (equal: bool) {
        self.text == other.text && self.created_at == other.created_at
    }
}

impl vstd::std_specs::cmp::PartialEqSpecImpl for Task {
    open spec fn obeys_eq_spec() -> bool {
        true
    }

    /// Two tasks are equal when their texts and their creation times are.
    open spec fn eq_spec(&self, other: &Task) -> bool {
        self.text@ == other.text@ && self.created_at == other.created_at
    }
}

impl Task {
    /// A task is well formed when its creation time is one the calendar can
    /// express.
    pub open spec fn wf(&self) -> bool {
        self@.wf()
    }

    /// Builds a task with the given text, created now. Any text is taken, the
    /// empty one too.
    pub fn new(text: String) -> (task: Task)
        ensures
            task.text@ == text@,
            task.wf(),
    {
        let created_at = current_timestamp();
        Task { text, created_at }
    }

    /// Builds the task with the given text and creation time. There is no
    /// task for a time outside the calendar's range.
    pub fn stamped(text: String, created_at: i64) -> (task: Option<Task>)
        ensures
            task is Some <==> timestamp_in_range(created_at as int),
            task matches Some(t) ==> t@ == (TaskView { text: text@, created_at: created_at as int }),
    {
        if MIN_TIMESTAMP <= created_at && created_at <= MAX_TIMESTAMP {
            Some(Task { text, created_at })
        } else {
            None
        }
    }

    /// Whether the task is well formed.
    pub fn is_valid(&self) -> (valid: bool)
        ensures
            valid == self.wf(),
    {
        MIN_TIMESTAMP <= self.created_at && self.created_at <= MAX_TIMESTAMP
    }

    /// Shows the task with `stamp` as its creation time: the text in a
    /// column of `TEXT_WIDTH` characters, then the stamp in square brackets.
    pub fn display_with(&self, stamp: &str) -> (line: String)
        ensures
            line@ == displayed(self.text@, stamp@),
    {
        let length = self.text.as_str().unicode_len();
        let mut line = if length >= TEXT_WIDTH {
            String::from_str(self.text.as_str().substring_char(0, TEXT_WIDTH))
        } else {
            let mut column = self.text.clone();
            push_spaces(&mut column, TEXT_WIDTH - length);
            column
        };
        line.append(" [");
        line.append(stamp);
        line.append("]");
        line
    }

    /// Shows the task as it reads in a zone that is `offset` seconds ahead of
    /// UTC: the text in a column of `TEXT_WIDTH` characters, then in square
    /// brackets the minute of its creation in that zone.
    pub fn display_at(&self, offset: i32) -> (line: String)
        requires
            self.wf(),
            offset_in_range(offset as int),
        ensures
            line@ == displayed(
                self.text@,
                calendar_minute(self.created_at as int, offset as int),
            ),
    {
        let stamp = minute_at(self.created_at, offset);
        self.display_with(stamp.as_str())
    }

    /// Shows the task: the text in a column of `TEXT_WIDTH` characters, then
    /// in square brackets the minute of its creation in the machine's time
    /// zone. Which offset that zone has at the time is the machine's to tell;
    /// the line is fixed by it.
    pub fn display(&self) -> (line: String)
        requires
            self.wf(),
        ensures
            exists|offset: int|
                offset_in_range(offset) && line@ == displayed(
                    self.text@,
                    #[trigger] calendar_minute(self.created_at as int, offset),
                ),
    {
        let offset = local_offset(self.created_at);
        self.display_at(offset)
    }
}

} // verus!
