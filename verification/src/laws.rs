//! What holds of the journal's operations, whatever the journal and the
//! argument.

use crate::codec::{
    decoded_items, decoded_journal, decoded_task, encoded_journal, encoded_task, is_blank,
    is_space, lemma_decoded_journal_wf, member_at, skip_space, task_members, two_members,
};
use crate::error::JournalError;
use crate::json::{
    json_array_items, json_integer_value, json_string_literal, json_string_value, json_value_end,
};
use crate::task::{displayed, TaskView};
use crate::text::{ascii, decimal};
use crate::tasks::{
    added, collected, completed, journal_after_add, journal_after_complete, listing, numbered,
    shown_tasks, stamps_at, valid_offsets, valid_position,
};
use vstd::prelude::*;

verus! {

/// A journal file that is empty, or blank, holds no task, and is no error.
pub proof fn blank_file_holds_no_task(contents: Seq<u8>)
    requires
        is_blank(contents),
    ensures
        collected(contents) == Ok::<Seq<TaskView>, JournalError>(Seq::empty()),
{
}

/// A journal file that was written is never blank, whatever tasks it holds:
/// it opens with a square bracket. So what is read back from it is what the
/// JSON reader finds in it.
pub proof fn written_journal_is_read_as_json(tasks: Seq<TaskView>)
    ensures
        !is_blank(encoded_journal(tasks)),
        decoded_journal(encoded_journal(tasks)) == match json_array_items(encoded_journal(tasks)) {
            Some(items) => decoded_items(items),
            None => None,
        },
{
    reveal_strlit("[");
    let written = encoded_journal(tasks);
    assert(written[0] == 0x5Bu8);
    assert(!is_space(written[0]));
}

/// Whether the JSON reader reads the pieces of the object written for `task`
/// as they were written: it finds each name and each value where the object
/// holds them, reads the two names as `text` and `created_at`, and reads back
/// the text from its JSON string and the creation time from its decimal form.
pub open spec fn reader_follows_writer(task: TaskView) -> bool {
    let literal = json_string_literal(task.text);
    let number = decimal(task.created_at);
    let object = encoded_task(task);
    let end = object.len() as int;
    let second = 9 + literal.len() as int;
    &&& json_value_end(object.subrange(1, end)) == Some(6nat)
    &&& json_string_value(ascii("\"text\""@)) == Some("text"@)
    &&& json_value_end(object.subrange(8, end)) == Some(literal.len())
    &&& json_string_value(literal) == Some(task.text)
    &&& json_value_end(object.subrange(second, end)) == Some(12nat)
    &&& json_string_value(ascii("\"created_at\""@)) == Some("created_at"@)
    &&& json_value_end(object.subrange(second + 13, end)) == Some(number.len())
    &&& json_integer_value(number) matches Some(seconds) && seconds == task.created_at
}

/// The object written for a well-formed task is read back as that task,
/// where the JSON reader reads its pieces as they were written.
pub proof fn written_task_reads_back(task: TaskView)
    requires
        task.wf(),
        reader_follows_writer(task),
    ensures
        decoded_task(encoded_task(task)) == Some(task),
{
    reveal_strlit("{\"text\":");
    reveal_strlit(",\"created_at\":");
    reveal_strlit("}");
    reveal_strlit("\"text\"");
    reveal_strlit("\"created_at\"");
    let literal = json_string_literal(task.text);
    let number = decimal(task.created_at);
    let object = encoded_task(task);
    let head = ascii("{\"text\":"@);
    let middle = ascii(",\"created_at\":"@);
    let tail = ascii("}"@);
    let l = literal.len() as int;
    let d = number.len() as int;
    assert(object == head + literal + middle + number + tail);
    assert(head.len() == 8 && middle.len() == 14 && tail.len() == 1);
    assert(object.len() == 23 + l + d);
    assert(object[0] == 0x7Bu8);
    assert(skip_space(object, 0) == 0);
    assert(object.subrange(1, 7) =~= ascii("\"text\""@));
    assert(object[7] == 0x3Au8);
    assert(skip_space(object, 7) == 7);
    assert(object.subrange(8, 8 + l) =~= literal);
    assert(member_at(object, 1) == Some(("text"@, literal, 8 + l)));
    assert(object[8 + l] == 0x2Cu8);
    assert(skip_space(object, 8 + l) == 8 + l);
    assert(object.subrange(9 + l, 21 + l) =~= ascii("\"created_at\""@));
    assert(object[21 + l] == 0x3Au8);
    assert(skip_space(object, 21 + l) == 21 + l);
    assert(object.subrange(22 + l, 22 + l + d) =~= number);
    assert(member_at(object, 9 + l) == Some(("created_at"@, number, 22 + l + d)));
    assert(object[22 + l + d] == 0x7Du8);
    assert(skip_space(object, 22 + l + d) == 22 + l + d);
    assert(skip_space(object, 23 + l + d) == 23 + l + d);
    let members = seq![("text"@, literal), ("created_at"@, number)];
    assert(two_members(object) == Some(members));
    assert(task_members(members) == Some((literal, number)));
}

/// Whether the JSON reader reads the journal file written for `tasks` as it
/// was written: it splits the file into the objects that were written, and
/// reads the pieces of each as they were written.
pub open spec fn reader_follows_journal(tasks: Seq<TaskView>) -> bool {
    &&& json_array_items(encoded_journal(tasks)) == Some(
        Seq::new(tasks.len(), |i: int| encoded_task(tasks[i])),
    )
    &&& forall|i: int| 0 <= i < tasks.len() ==> reader_follows_writer(#[trigger] tasks[i])
}

/// A journal file written for well-formed tasks is read back as those tasks,
/// where the JSON reader reads it as it was written.
pub proof fn written_journal_reads_back(tasks: Seq<TaskView>)
    requires
        forall|i: int| 0 <= i < tasks.len() ==> (#[trigger] tasks[i]).wf(),
        reader_follows_journal(tasks),
    ensures
        collected(encoded_journal(tasks)) == Ok::<Seq<TaskView>, JournalError>(tasks),
{
    written_journal_is_read_as_json(tasks);
    let items = Seq::new(tasks.len(), |i: int| encoded_task(tasks[i]));
    assert forall|i: int| 0 <= i < items.len() implies (#[trigger] decoded_task(items[i]))
        == Some(tasks[i]) by {
        written_task_reads_back(tasks[i]);
    }
    assert(decoded_items(items)->0 =~= tasks);
}

/// After a well-formed task is added to a journal file, the new file holds
/// the tasks that the old one held, in their order, and the new task behind
/// them, where the JSON reader reads the new file as it was written.
pub proof fn added_task_is_read_back(contents: Seq<u8>, task: TaskView)
    requires
        task.wf(),
        collected(contents) matches Ok(tasks) && reader_follows_journal(added(tasks, task)),
    ensures
        journal_after_add(contents, task) matches Ok(written) && collected(written) == Ok::<
            Seq<TaskView>,
            JournalError,
        >(added(collected(contents)->Ok_0, task)),
{
    let tasks = collected(contents)->Ok_0;
    lemma_decoded_journal_wf(contents);
    add_keeps_tasks_well_formed(tasks, task);
    written_journal_reads_back(added(tasks, task));
}

/// After the task at a valid position of a journal file is completed, the
/// new file holds the tasks that the old one held without that task, where
/// the JSON reader reads the new file as it was written.
pub proof fn completed_journal_is_read_back(contents: Seq<u8>, position: int)
    requires
        collected(contents) matches Ok(tasks) && valid_position(tasks, position)
            && reader_follows_journal(tasks.remove(position - 1)),
    ensures
        journal_after_complete(contents, position) matches Ok(written) && collected(written)
            == completed(collected(contents)->Ok_0, position),
{
    let tasks = collected(contents)->Ok_0;
    lemma_decoded_journal_wf(contents);
    complete_keeps_tasks_well_formed(tasks, position);
    written_journal_reads_back(tasks.remove(position - 1));
}

/// Adding a task makes the journal one longer, leaves every task at its
/// position and puts the new task last. So tasks stand in the order in which
/// they were added.
pub proof fn add_keeps_order(tasks: Seq<TaskView>, task: TaskView)
    ensures
        added(tasks, task).len() == tasks.len() + 1,
        forall|i: int| 0 <= i < tasks.len() ==> added(tasks, task)[i] == tasks[i],
        added(tasks, task)[tasks.len() as int] == task,
{
}

/// Three tasks added one after the other stand behind the tasks that were
/// there, in the order of the calls.
pub proof fn three_adds_keep_call_order(
    tasks: Seq<TaskView>,
    first: TaskView,
    second: TaskView,
    third: TaskView,
)
    ensures
        added(added(added(tasks, first), second), third) == tasks + seq![first, second, third],
{
    assert(added(added(added(tasks, first), second), third) =~= tasks + seq![
        first,
        second,
        third,
    ]);
}

/// A journal of well-formed tasks stays one when a well-formed task is added.
pub proof fn add_keeps_tasks_well_formed(tasks: Seq<TaskView>, task: TaskView)
    requires
        forall|i: int| 0 <= i < tasks.len() ==> (#[trigger] tasks[i]).wf(),
        task.wf(),
    ensures
        forall|i: int| 0 <= i < added(tasks, task).len() ==> (#[trigger] added(tasks, task)[i]).wf(),
{
}

/// A journal of well-formed tasks stays one when a task is completed.
pub proof fn complete_keeps_tasks_well_formed(tasks: Seq<TaskView>, position: int)
    requires
        forall|i: int| 0 <= i < tasks.len() ==> (#[trigger] tasks[i]).wf(),
    ensures
        completed(tasks, position) matches Ok(shorter) ==> forall|i: int|
            0 <= i < shorter.len() ==> (#[trigger] shorter[i]).wf(),
{
}

/// Adding succeeds on every journal file that can be read, and on no other.
pub proof fn add_succeeds_where_the_file_is_read(contents: Seq<u8>, task: TaskView)
    ensures
        journal_after_add(contents, task) is Ok <==> collected(contents) is Ok,
        collected(contents) is Err ==> journal_after_add(contents, task) == Err::<
            Seq<u8>,
            JournalError,
        >(JournalError::Decode),
{
}

/// Completing the task at a valid position makes the journal one shorter,
/// leaves the tasks before that position where they were and moves every
/// task behind it up by one.
pub proof fn complete_removes_and_shifts(tasks: Seq<TaskView>, position: int)
    requires
        valid_position(tasks, position),
    ensures
        completed(tasks, position) matches Ok(shorter) && {
            &&& shorter.len() == tasks.len() - 1
            &&& forall|i: int| 0 <= i < position - 1 ==> shorter[i] == tasks[i]
            &&& forall|i: int| position - 1 <= i < shorter.len() ==> shorter[i] == tasks[i + 1]
        },
{
}

/// After the task at a valid position is completed, the listing bears under
/// each number the task that stands there now: the tasks before the
/// position keep their numbers, the tasks behind it are numbered one lower
/// than before.
pub proof fn listing_after_complete(
    tasks: Seq<TaskView>,
    position: int,
    stamps: Seq<Seq<char>>,
)
    requires
        valid_position(tasks, position),
        tasks.len() >= 2,
        stamps.len() == tasks.len() - 1,
    ensures
        completed(tasks, position) matches Ok(shorter) && {
            let lines = listing(shown_tasks(shorter, stamps));
            &&& lines.len() == tasks.len() - 1
            &&& forall|i: int|
                0 <= i < position - 1 ==> (#[trigger] lines[i]) == numbered(
                    (i + 1) as nat,
                    displayed(tasks[i].text, stamps[i]),
                )
            &&& forall|i: int|
                position - 1 <= i < lines.len() ==> (#[trigger] lines[i]) == numbered(
                    (i + 1) as nat,
                    displayed(tasks[i + 1].text, stamps[i]),
                )
        },
{
}

/// Completing is refused with `InvalidInput` exactly where the position is
/// zero or lies behind the last task; nothing is removed then.
pub proof fn complete_rejects_other_positions(tasks: Seq<TaskView>, position: int)
    ensures
        (position <= 0 || position > tasks.len()) <==> completed(tasks, position) == Err::<
            Seq<TaskView>,
            JournalError,
        >(JournalError::InvalidInput),
{
}

/// On a journal file that can be read, completing at position zero or at a
/// position behind the last task is refused with `InvalidInput`, and there
/// is no new journal file: what is stored stays as it was.
pub proof fn complete_at_invalid_position_writes_nothing(contents: Seq<u8>, position: int)
    requires
        collected(contents) matches Ok(tasks) && (position <= 0 || position > tasks.len()),
    ensures
        journal_after_complete(contents, position) == Err::<Seq<u8>, JournalError>(
            JournalError::InvalidInput,
        ),
{
}

/// The listing of a journal that holds tasks has one line for each task, and
/// the line of the task at position `i + 1` bears that number: positions are
/// counted afresh from one in every listing.
pub proof fn listing_numbers_from_one(shown: Seq<Seq<char>>)
    requires
        shown.len() > 0,
    ensures
        listing(shown).len() == shown.len(),
        forall|i: int|
            0 <= i < shown.len() ==> (#[trigger] listing(shown)[i]) == numbered(
                (i + 1) as nat,
                shown[i],
            ),
{
}

/// The listing of an empty journal is the one line that says so; no line of
/// it is numbered.
pub proof fn listing_of_empty_journal(shown: Seq<Seq<char>>)
    requires
        shown.len() == 0,
    ensures
        listing(shown) == seq!["Task list is empty!"@],
{
}

/// Listing the same journal twice gives as many lines both times, and the
/// same line for every task at whose creation time the zone had the same
/// offset both times: while the machine's zone stays as it is, the two
/// listings are one.
pub proof fn list_is_repeatable(tasks: Seq<TaskView>, first: Seq<int>, second: Seq<int>)
    requires
        valid_offsets(tasks, first),
        valid_offsets(tasks, second),
    ensures
        listing(shown_tasks(tasks, stamps_at(tasks, first))).len() == listing(
            shown_tasks(tasks, stamps_at(tasks, second)),
        ).len(),
        forall|i: int|
            0 <= i < tasks.len() && first[i] == second[i] ==> (#[trigger] listing(
                shown_tasks(tasks, stamps_at(tasks, first)),
            )[i]) == listing(shown_tasks(tasks, stamps_at(tasks, second)))[i],
        first == second ==> listing(shown_tasks(tasks, stamps_at(tasks, first))) == listing(
            shown_tasks(tasks, stamps_at(tasks, second)),
        ),
{
}

} // verus!
