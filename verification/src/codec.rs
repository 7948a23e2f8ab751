//! The journal's file format: a JSON array of objects, each with the text of
//! a task and the second of its creation.
//!
//! ```text
//! [{"text":"Water the plants","created_at":1700000000}]
//! ```
//!
//! Every JSON value in it (the array, a name, a text, a number) is read and
//! written by the functions of `json`. Which values make a task, and the
//! frame of braces, colons and commas that holds the two members of a task,
//! is written and read here.

use crate::json::{
    array_items, integer_value, json_array_items, json_integer_value, json_string_literal,
    json_string_value, json_value_end, string_literal, string_value, value_end,
};
use crate::task::{timestamp_in_range, Task, TaskView};
use crate::text::{ascii, decimal, push_ascii, push_bytes, push_decimal};
use vstd::prelude::*;
use vstd::slice::{slice_subrange, slice_to_vec};
use vstd::string::*;

verus! {

/// Whether `byte` is white space to JSON: a space, a line feed, a carriage
/// return or a tab.
pub open spec fn is_space(byte: u8) -> bool {
    byte == 0x20 || byte == 0x0A || byte == 0x0D || byte == 0x09
}

/// Whether `contents` ends before anything is said: it is empty, or holds
/// white space only.
pub open spec fn is_blank(contents: Seq<u8>) -> bool {
    forall|i: int| 0 <= i < contents.len() ==> is_space(#[trigger] contents[i])
}

/// The position of the first byte from `at` on that is no white space; the
/// length of `text` where there is none.
pub open spec fn skip_space(text: Seq<u8>, at: int) -> int
    decreases text.len() - at,
{
    if 0 <= at < text.len() && is_space(text[at]) {
        skip_space(text, at + 1)
    } else {
        at
    }
}

/// The member of an object that stands at `at` in `text`: a JSON string for
/// its name, a colon, and a JSON value. Given are the characters of the
/// name, the text that spells the value (with the white space before it),
/// and the position behind the value.
pub open spec fn member_at(text: Seq<u8>, at: int) -> Option<(Seq<char>, Seq<u8>, int)> {
    match json_value_end(text.subrange(at, text.len() as int)) {
        Some(name_length) => match json_string_value(text.subrange(at, at + name_length)) {
            Some(name) => {
                let colon = skip_space(text, at + name_length);
                if colon < text.len() && text[colon] == 0x3A {
                    match json_value_end(text.subrange(colon + 1, text.len() as int)) {
                        Some(value_length) => Some(
                            (
                                name,
                                text.subrange(colon + 1, colon + 1 + value_length),
                                colon + 1 + value_length,
                            ),
                        ),
                        None => None,
                    }
                } else {
                    None
                }
            },
            None => None,
        },
        None => None,
    }
}

/// The two members of the JSON object that `item` spells, in the order in
/// which they stand: an opening brace, a member, a comma, a member, a closing
/// brace, with white space wherever JSON takes it. `None` where `item` is
/// anything else, an object with fewer or with more members too.
pub open spec fn two_members(item: Seq<u8>) -> Option<Seq<(Seq<char>, Seq<u8>)>> {
    let open = skip_space(item, 0);
    if open < item.len() && item[open] == 0x7B {
        match member_at(item, open + 1) {
            Some((first_name, first_value, first_end)) => {
                let comma = skip_space(item, first_end);
                if comma < item.len() && item[comma] == 0x2C {
                    match member_at(item, comma + 1) {
                        Some((second_name, second_value, second_end)) => {
                            let close = skip_space(item, second_end);
                            if close < item.len() && item[close] == 0x7D && skip_space(
                                item,
                                close + 1,
                            ) == item.len() {
                                Some(seq![(first_name, first_value), (second_name, second_value)])
                            } else {
                                None
                            }
                        },
                        None => None,
                    }
                } else {
                    None
                }
            },
            None => None,
        }
    } else {
        None
    }
}

/// The texts that spell the text and the creation time of a task, out of the
/// members of an object: there are exactly two members, one of each name.
pub open spec fn task_members(members: Seq<(Seq<char>, Seq<u8>)>) -> Option<(Seq<u8>, Seq<u8>)> {
    if members.len() == 2 && members[0].0 == "text"@ && members[1].0 == "created_at"@ {
        Some((members[0].1, members[1].1))
    } else if members.len() == 2 && members[0].0 == "created_at"@ && members[1].0 == "text"@ {
        Some((members[1].1, members[0].1))
    } else {
        None
    }
}

/// The task made of a text and a creation time as they were read: both must
/// have been read, and the time must be one the calendar can express.
pub open spec fn decoded_fields(text: Option<Seq<char>>, created_at: Option<i64>) -> Option<
    TaskView,
> {
    match (text, created_at) {
        (Some(text), Some(seconds)) => if timestamp_in_range(seconds as int) {
            Some(TaskView { text, created_at: seconds as int })
        } else {
            None
        },
        _ => None,
    }
}

/// The task made of the members of an object.
pub open spec fn decoded_members(members: Seq<(Seq<char>, Seq<u8>)>) -> Option<TaskView> {
    match task_members(members) {
        Some((text, created_at)) => decoded_fields(
            json_string_value(text),
            json_integer_value(created_at),
        ),
        None => None,
    }
}

/// The task that `item` spells: a JSON object with a string named `text` and
/// an integer named `created_at`, in either order, and nothing else.
pub open spec fn decoded_task(item: Seq<u8>) -> Option<TaskView> {
    match two_members(item) {
        Some(members) => decoded_members(members),
        None => None,
    }
}

/// The tasks that `items` spell, in order, where each of them spells one.
pub open spec fn decoded_items(items: Seq<Seq<u8>>) -> Option<Seq<TaskView>> {
    if forall|i: int| 0 <= i < items.len() ==> (#[trigger] decoded_task(items[i])) is Some {
        Some(Seq::new(items.len(), |i: int| decoded_task(items[i])->0))
    } else {
        None
    }
}

/// The tasks that the journal file `contents` holds: none where the file is
/// blank, else those that its JSON array spells. `None` where the file holds
/// anything else.
pub open spec fn decoded_journal(contents: Seq<u8>) -> Option<Seq<TaskView>> {
    if is_blank(contents) {
        Some(Seq::empty())
    } else {
        match json_array_items(contents) {
            Some(items) => decoded_items(items),
            None => None,
        }
    }
}

/// The JSON object of a task whose text is spelled by `literal` and whose
/// creation time is `created_at`: the member `text`, then the member
/// `created_at` in decimal.
pub open spec fn framed_task(literal: Seq<u8>, created_at: int) -> Seq<u8> {
    ascii("{\"text\":"@) + literal + ascii(",\"created_at\":"@) + decimal(created_at) + ascii(
        "}"@,
    )
}

/// The JSON object that spells `task`.
pub open spec fn encoded_task(task: TaskView) -> Seq<u8> {
    framed_task(json_string_literal(task.text), task.created_at)
}

/// The JSON objects that spell `tasks`, in order, with a comma between
/// neighbours.
pub open spec fn encoded_tasks(tasks: Seq<TaskView>) -> Seq<u8>
    decreases tasks.len(),
{
    if tasks.len() == 0 {
        Seq::empty()
    } else if tasks.len() == 1 {
        encoded_task(tasks[0])
    } else {
        encoded_tasks(tasks.drop_last()) + ascii(","@) + encoded_task(tasks.last())
    }
}

/// The journal file that holds `tasks`: a JSON array of their objects,
/// without white space.
pub open spec fn encoded_journal(tasks: Seq<TaskView>) -> Seq<u8> {
    ascii("["@) + encoded_tasks(tasks) + ascii("]"@)
}

/// A vector of bytes holds what it shows: its elements are their own views.
pub proof fn lemma_bytes_deep_view(bytes: Vec<u8>)
    ensures
        bytes.deep_view() == bytes@,
{
    assert(bytes.deep_view() =~= bytes@);
}

/// Every task that a journal file holds is well formed.
pub proof fn lemma_decoded_journal_wf(contents: Seq<u8>)
    ensures
        decoded_journal(contents) matches Some(tasks) ==> forall|i: int|
            0 <= i < tasks.len() ==> (#[trigger] tasks[i]).wf(),
{
    if !is_blank(contents) {
        if let Some(items) = json_array_items(contents) {
            if let Some(tasks) = decoded_items(items) {
                assert forall|i: int| 0 <= i < tasks.len() implies (#[trigger] tasks[i]).wf() by {
                    assert(decoded_task(items[i]) is Some);
                }
            }
        }
    }
}

/// Tells whether `byte` is white space to JSON.
pub fn space(byte: u8) -> (yes: bool)
    ensures
        yes == is_space(byte),
{
    byte == 0x20 || byte == 0x0A || byte == 0x0D || byte == 0x09
}

/// Tells whether `contents` ends before anything is said.
pub fn blank(contents: &[u8]) -> (yes: bool)
    ensures
        yes == is_blank(contents@),
{
    let mut i: usize = 0;
    while i < contents.len()
        invariant
            i <= contents@.len(),
            forall|j: int| 0 <= j < i ==> is_space(#[trigger] contents@[j]),
        decreases contents@.len() - i,
    {
        if !space(contents[i]) {
            return false;
        }
        i += 1;
    }
    true
}

/// Finds the first byte from `at` on that is no white space.
pub fn skip_spaces(text: &[u8], at: usize) -> (end: usize)
    requires
        at <= text@.len(),
    ensures
        end == skip_space(text@, at as int),
        at <= end <= text@.len(),
{
    let mut i: usize = at;
    while i < text.len()
        invariant
            at <= i <= text@.len(),
            skip_space(text@, at as int) == skip_space(text@, i as int),
        decreases text@.len() - i,
    {
        if !space(text[i]) {
            return i;
        }
        i += 1;
    }
    i
}

/// Reads the member of an object that stands at `at` in `text`.
pub fn read_member(text: &[u8], at: usize) -> (member: Option<(String, Vec<u8>, usize)>)
    requires
        at <= text@.len(),
    ensures
        match member {
            Some((name, value, end)) => member_at(text@, at as int) == Some(
                (name@, value@, end as int),
            ) && end <= text@.len(),
            None => member_at(text@, at as int) is None,
        },
{
    let name_length = match value_end(slice_subrange(text, at, text.len())) {
        Some(length) => length,
        None => {
            return None;
        },
    };
    let name = match string_value(slice_subrange(text, at, at + name_length)) {
        Some(name) => name,
        None => {
            return None;
        },
    };
    let colon = skip_spaces(text, at + name_length);
    if colon >= text.len() || text[colon] != 0x3A {
        return None;
    }
    let value_length = match value_end(slice_subrange(text, colon + 1, text.len())) {
        Some(length) => length,
        None => {
            return None;
        },
    };
    let end = colon + 1 + value_length;
    let value = slice_to_vec(slice_subrange(text, colon + 1, end));
    Some((name, value, end))
}

/// Reads the two members of the JSON object that `item` spells.
pub fn read_two_members(item: &[u8]) -> (members: Option<Vec<(String, Vec<u8>)>>)
    ensures
        members.deep_view() == two_members(item@),
{
    let open = skip_spaces(item, 0);
    if open >= item.len() || item[open] != 0x7B {
        return None;
    }
    let (first_name, first_value, first_end) = match read_member(item, open + 1) {
        Some(member) => member,
        None => {
            return None;
        },
    };
    let comma = skip_spaces(item, first_end);
    if comma >= item.len() || item[comma] != 0x2C {
        return None;
    }
    let (second_name, second_value, second_end) = match read_member(item, comma + 1) {
        Some(member) => member,
        None => {
            return None;
        },
    };
    let close = skip_spaces(item, second_end);
    if close >= item.len() || item[close] != 0x7D {
        return None;
    }
    if skip_spaces(item, close + 1) != item.len() {
        return None;
    }
    proof {
        lemma_bytes_deep_view(first_value);
        lemma_bytes_deep_view(second_value);
    }
    let mut members: Vec<(String, Vec<u8>)> = Vec::new();
    members.push((first_name, first_value));
    members.push((second_name, second_value));
    assert(members.deep_view() =~= seq![
        (first_name@, first_value@),
        (second_name@, second_value@),
    ]);
    Some(members)
}

/// Makes a task of a text and a creation time as they were read.
pub fn task_from_fields(text: Option<String>, created_at: Option<i64>) -> (task: Option<Task>)
    ensures
        task.deep_view() == decoded_fields(text.deep_view(), created_at),
{
    match (text, created_at) {
        (Some(text), Some(seconds)) => Task::stamped(text, seconds),
        _ => None,
    }
}

/// Makes a task of the members of a JSON object.
pub fn task_from_members(members: &Vec<(String, Vec<u8>)>) -> (task: Option<Task>)
    ensures
        task.deep_view() == decoded_members(members.deep_view()),
{
    if members.len() != 2 {
        return None;
    }
    proof {
        lemma_bytes_deep_view(members[0].1);
        lemma_bytes_deep_view(members[1].1);
    }
    let text_name = String::from_str("text");
    let created_at_name = String::from_str("created_at");
    if members[0].0 == text_name && members[1].0 == created_at_name {
        let text = string_value(members[0].1.as_slice());
        let created_at = integer_value(members[1].1.as_slice());
        task_from_fields(text, created_at)
    } else if members[0].0 == created_at_name && members[1].0 == text_name {
        let text = string_value(members[1].1.as_slice());
        let created_at = integer_value(members[0].1.as_slice());
        task_from_fields(text, created_at)
    } else {
        None
    }
}

/// Reads one task from the JSON text `item`.
pub fn decode_task(item: &[u8]) -> (task: Option<Task>)
    ensures
        task.deep_view() == decoded_task(item@),
{
    match read_two_members(item) {
        Some(members) => task_from_members(&members),
        None => None,
    }
}

/// Reads the tasks that `items` spell; there are none to report where one
/// item spells no task.
pub fn decode_items(items: &Vec<Vec<u8>>) -> (tasks: Option<Vec<Task>>)
    ensures
        tasks.deep_view() == decoded_items(items.deep_view()),
{
    let mut tasks: Vec<Task> = Vec::new();
    let mut i: usize = 0;
    while i < items.len()
        invariant
            i <= items@.len(),
            tasks@.len() == i,
            forall|j: int| 0 <= j < i ==> decoded_task(#[trigger] items.deep_view()[j]) == Some(tasks@[j]@),
        decreases items@.len() - i,
    {
        proof {
            lemma_bytes_deep_view(items[i as int]);
        }
        match decode_task(items[i].as_slice()) {
            Some(task) => {
                tasks.push(task);
            },
            None => {
                assert(decoded_task(items.deep_view()[i as int]) is None);
                return None;
            },
        }
        i += 1;
    }
    assert(tasks.deep_view() =~= decoded_items(items.deep_view())->0);
    Some(tasks)
}

/// Reads the tasks of the journal file `contents`.
pub fn decode_journal(contents: &[u8]) -> (tasks: Option<Vec<Task>>)
    ensures
        tasks.deep_view() == decoded_journal(contents@),
{
    if blank(contents) {
        let tasks: Vec<Task> = Vec::new();
        assert(tasks.deep_view() =~= Seq::<TaskView>::empty());
        return Some(tasks);
    }
    match array_items(contents) {
        Some(items) => decode_items(&items),
        None => None,
    }
}

/// Appends to `out` the JSON object of a task whose text is spelled by
/// `literal` and whose creation time is `created_at`.
pub fn frame_task(out: &mut Vec<u8>, literal: &[u8], created_at: i64)
    ensures
        final(out)@ == old(out)@ + framed_task(literal@, created_at as int),
{
    proof {
        reveal_strlit("{\"text\":");
        reveal_strlit(",\"created_at\":");
        reveal_strlit("}");
    }
    push_ascii(out, "{\"text\":");
    push_bytes(out, literal);
    push_ascii(out, ",\"created_at\":");
    push_decimal(out, created_at);
    push_ascii(out, "}");
    assert(out@ =~= old(out)@ + framed_task(literal@, created_at as int));
}

/// Appends the JSON object that spells `task` to `out`.
pub fn encode_task(out: &mut Vec<u8>, task: &Task)
    ensures
        final(out)@ == old(out)@ + encoded_task(task@),
{
    let literal = string_literal(task.text.as_str());
    frame_task(out, literal.as_slice(), task.created_at);
}

/// Writes the journal file that holds `tasks`.
pub fn encode_journal(tasks: &Vec<Task>) -> (contents: Vec<u8>)
    ensures
        contents@ == encoded_journal(tasks.deep_view()),
{
    proof {
        reveal_strlit("[");
        reveal_strlit(",");
        reveal_strlit("]");
    }
    let mut contents: Vec<u8> = Vec::new();
    push_ascii(&mut contents, "[");
    let ghost views = tasks.deep_view();
    let mut i: usize = 0;
    while i < tasks.len()
        invariant
            i <= tasks@.len(),
            views == tasks.deep_view(),
            is_ascii(","),
            contents@ == ascii("["@) + encoded_tasks(views.subrange(0, i as int)),
        decreases tasks@.len() - i,
    {
        let ghost done = views.subrange(0, i as int);
        let ghost next = views.subrange(0, i + 1);
        assert(next.drop_last() =~= done);
        assert(next.last() == tasks@[i as int]@);
        if i > 0 {
            push_ascii(&mut contents, ",");
        }
        encode_task(&mut contents, &tasks[i]);
        assert(contents@ =~= ascii("["@) + encoded_tasks(next));
        i += 1;
    }
    assert(views.subrange(0, i as int) =~= views);
    push_ascii(&mut contents, "]");
    contents
}

} // verus!
