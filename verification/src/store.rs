//! The list of records and what can be done with it: add a record, remove
//! one by its number, and write the list out line by line.

use crate::item::{TodoItem, TodoItemView};
use crate::messages::{
    entry_message, entry_text, list_header_message, list_header_text, no_items_message,
    no_items_text, not_found_message, not_found_text, push_line,
};
use vstd::prelude::*;

verus! {

/// Whether some record of `items` carries the number `id`.
pub open spec fn contains_id(items: Seq<TodoItemView>, id: nat) -> bool {
    exists|i: int| 0 <= i < items.len() && (#[trigger] items[i]).id == id
}

/// The place of the first record of `items` that carries the number `id`,
/// counted from 0; the length of `items` if none does.
pub open spec fn first_with_id(items: Seq<TodoItemView>, id: nat) -> int
    decreases items.len(),
{
    if items.len() == 0 || items[0].id == id {
        0
    } else {
        1 + first_with_id(items.drop_first(), id)
    }
}

/// `items` with one more record at its end: `task`, numbered one above the
/// count of the records before it.
pub open spec fn added(items: Seq<TodoItemView>, task: Seq<char>) -> Seq<TodoItemView> {
    items.push(TodoItemView { id: (items.len() + 1) as nat, task })
}

/// `items` with the records of `tasks` added one after the other.
pub open spec fn added_all(items: Seq<TodoItemView>, tasks: Seq<Seq<char>>) -> Seq<TodoItemView>
    decreases tasks.len(),
{
    if tasks.len() == 0 {
        items
    } else {
        added(added_all(items, tasks.drop_last()), tasks.last())
    }
}

/// `items` without the first record that carries the number `id`; `items`
/// itself if none does.
pub open spec fn removed(items: Seq<TodoItemView>, id: nat) -> Seq<TodoItemView> {
    if contains_id(items, id) {
        items.remove(first_with_id(items, id))
    } else {
        items
    }
}

/// One line for each record of `items`, in their order.
pub open spec fn entry_lines(items: Seq<TodoItemView>) -> Seq<Seq<char>> {
    Seq::new(items.len(), |i: int| entry_text(items[i]))
}

/// The listing of `items`: a single line that says so if there are none,
/// else a header and then one line for each record.
pub open spec fn listing(items: Seq<TodoItemView>) -> Seq<Seq<char>> {
    if items.len() == 0 {
        seq![no_items_text()]
    } else {
        seq![list_header_text()] + entry_lines(items)
    }
}

/// `first_with_id` lies within `items` exactly if some record carries `id`;
/// the record there carries it, and none before it does.
pub proof fn first_with_id_is_first(items: Seq<TodoItemView>, id: nat)
    ensures
        0 <= first_with_id(items, id) <= items.len(),
        contains_id(items, id) <==> first_with_id(items, id) < items.len(),
        first_with_id(items, id) < items.len() ==> items[first_with_id(items, id)].id == id,
        forall|j: int| 0 <= j < first_with_id(items, id) ==> (#[trigger] items[j]).id != id,
    decreases items.len(),
{
    if items.len() > 0 && items[0].id != id {
        let rest = items.drop_first();
        first_with_id_is_first(rest, id);
        assert forall|j: int| 0 < j < 1 + first_with_id(rest, id) implies (#[trigger] items[j]).id
            != id by {
            assert(rest[j - 1] == items[j]);
        }
        if contains_id(items, id) {
            let i = choose|i: int| 0 <= i < items.len() && (#[trigger] items[i]).id == id;
            assert(rest[i - 1].id == id);
        }
    }
}

/// The place where a search from the front stops is `first_with_id`.
pub proof fn first_with_id_is_the_only_first(items: Seq<TodoItemView>, id: nat, pos: int)
    requires
        0 <= pos <= items.len(),
        forall|j: int| 0 <= j < pos ==> (#[trigger] items[j]).id != id,
        pos == items.len() || items[pos].id == id,
    ensures
        first_with_id(items, id) == pos,
{
    first_with_id_is_first(items, id);
}

/// Adds a record with the text `task` at the end of the list. Its number is
/// one above the count of the records that the list held before; the records
/// before it stay as they are.
pub fn add_todo_item(todo_items: &mut Vec<TodoItem>, task: String)
    requires
        old(todo_items).len() < usize::MAX,
    ensures
        final(todo_items)@ == old(todo_items)@.push(
            (TodoItem { id: (old(todo_items).len() + 1) as usize, task }),
        ),
        final(todo_items).len() == old(todo_items).len() + 1,
        final(todo_items)@.subrange(0, old(todo_items).len() as int) == old(todo_items)@,
        final(todo_items).deep_view() == added(old(todo_items).deep_view(), task@),
{
    let id = todo_items.len() + 1;
    let todo_item = TodoItem { id, task };
    todo_items.push(todo_item);
}

/// Writes the list out: one line that says so if it is empty, else a header
/// and one line for each record, in the list's order.
pub fn list_todo_items(todo_items: &Vec<TodoItem>) -> (lines: Vec<String>)
    ensures
        lines.deep_view() == listing(todo_items.deep_view()),
{
    let mut lines: Vec<String> = Vec::new();
    let ghost items = todo_items.deep_view();
    if todo_items.is_empty() {
        push_line(&mut lines, no_items_message());
    } else {
        push_line(&mut lines, list_header_message());
        let mut i: usize = 0;
        while i < todo_items.len()
            invariant
                i <= todo_items.len(),
                items == todo_items.deep_view(),
                lines.deep_view() == seq![list_header_text()] + entry_lines(
                    items.subrange(0, i as int),
                ),
            decreases todo_items.len() - i,
        {
            push_line(&mut lines, entry_message(&todo_items[i]));
            assert(lines.deep_view() =~= seq![list_header_text()] + entry_lines(
                items.subrange(0, i + 1),
            )) by {
                assert(entry_lines(items.subrange(0, i + 1)) =~= entry_lines(
                    items.subrange(0, i as int),
                ).push(entry_text(items[i as int])));
            }
            i = i + 1;
        }
    }
    lines
}

/// Removes the first record that carries the number `id`. The records after
/// it move up by one place; every other record stays as it is. If no record
/// carries `id`, the list is left as it is and the error says so.
pub fn remove_todo_item(todo_items: &mut Vec<TodoItem>, id: usize) -> (outcome: Result<
    (),
    String,
>)
    ensures
        outcome is Ok <==> contains_id(old(todo_items).deep_view(), id as nat),
        outcome is Ok ==> final(todo_items)@ == old(todo_items)@.remove(
            first_with_id(old(todo_items).deep_view(), id as nat),
        ) && final(todo_items).len() == old(todo_items).len() - 1,
        outcome matches Err(message) ==> *final(todo_items) == *old(todo_items) && message@
            == not_found_text(id as nat),
        final(todo_items).deep_view() == removed(old(todo_items).deep_view(), id as nat),
{
    let ghost items = todo_items.deep_view();
    let mut pos: usize = 0;
    while pos < todo_items.len() && todo_items[pos].id != id
        invariant
            pos <= todo_items.len(),
            *todo_items == *old(todo_items),
            items == todo_items.deep_view(),
            forall|j: int| 0 <= j < pos ==> (#[trigger] items[j]).id != id as nat,
        decreases todo_items.len() - pos,
    {
        pos = pos + 1;
    }
    proof {
        first_with_id_is_the_only_first(items, id as nat, pos as int);
        first_with_id_is_first(items, id as nat);
    }
    if pos < todo_items.len() {
        todo_items.remove(pos);
        Ok(())
    } else {
        Err(not_found_message(id))
    }
}

/// Additions only append: after the records of `tasks` have been added to
/// `items`, the list holds the records of `items` as they were and after them
/// one record for each addition, in the order of the additions, each with the
/// text that was given and numbered by its place in the list, counted from 1.
pub proof fn additions_append_in_order(items: Seq<TodoItemView>, tasks: Seq<Seq<char>>)
    ensures
        added_all(items, tasks).len() == items.len() + tasks.len(),
        added_all(items, tasks).subrange(0, items.len() as int) == items,
        forall|i: int|
            0 <= i < tasks.len() ==> #[trigger] added_all(items, tasks)[items.len() + i] == (
            TodoItemView { id: (items.len() + i + 1) as nat, task: tasks[i] }),
    decreases tasks.len(),
{
    if tasks.len() > 0 {
        let earlier = tasks.drop_last();
        let before = added_all(items, earlier);
        additions_append_in_order(items, earlier);
        assert(added_all(items, tasks) == before.push(
            TodoItemView { id: (before.len() + 1) as nat, task: tasks.last() },
        ));
        assert(added_all(items, tasks).subrange(0, items.len() as int) =~= before.subrange(
            0,
            items.len() as int,
        ));
        assert forall|i: int| 0 <= i < tasks.len() implies #[trigger] added_all(
            items,
            tasks,
        )[items.len() + i] == (TodoItemView {
            id: (items.len() + i + 1) as nat,
            task: tasks[i],
        }) by {
            if i < earlier.len() {
                assert(added_all(items, tasks)[items.len() + i] == before[items.len() + i]);
            }
        }
    }
}

/// The listing after additions to an empty list: for `n` additions it has
/// exactly `n` entries, in the order of the additions, the entry at place `i`
/// (counted from 0) pairing the number `i + 1` with the text given at that
/// addition.
pub proof fn additions_are_listed_in_order(tasks: Seq<Seq<char>>)
    ensures
        entry_lines(added_all(Seq::empty(), tasks)).len() == tasks.len(),
        forall|i: int|
            0 <= i < tasks.len() ==> #[trigger] entry_lines(added_all(Seq::empty(), tasks))[i]
                == entry_text(TodoItemView { id: (i + 1) as nat, task: tasks[i] }),
        tasks.len() > 0 ==> listing(added_all(Seq::empty(), tasks)) == seq![list_header_text()]
            + entry_lines(added_all(Seq::empty(), tasks)),
        tasks.len() == 0 ==> listing(added_all(Seq::empty(), tasks)) == seq![no_items_text()],
{
    let start = Seq::<TodoItemView>::empty();
    additions_append_in_order(start, tasks);
    assert forall|i: int| 0 <= i < tasks.len() implies #[trigger] entry_lines(
        added_all(start, tasks),
    )[i] == entry_text(TodoItemView { id: (i + 1) as nat, task: tasks[i] }) by {
        assert(added_all(start, tasks)[start.len() + i] == (TodoItemView {
            id: (i + 1) as nat,
            task: tasks[i],
        }));
    }
}

/// A removal takes out one record and no more: if some record of `items`
/// carries `id`, the list after the removal is shorter by one; the record
/// that left is the first that carried `id`; the records before it keep
/// their places, and those after it move up by one place, each with its
/// number and its text as before.
pub proof fn removal_takes_one_record(items: Seq<TodoItemView>, id: nat)
    requires
        contains_id(items, id),
    ensures
        removed(items, id).len() == items.len() - 1,
        0 <= first_with_id(items, id) < items.len(),
        items[first_with_id(items, id)].id == id,
        forall|j: int| 0 <= j < first_with_id(items, id) ==> (#[trigger] items[j]).id != id,
        forall|j: int|
            0 <= j < first_with_id(items, id) ==> #[trigger] removed(items, id)[j] == items[j],
        forall|j: int|
            first_with_id(items, id) <= j < items.len() - 1 ==> #[trigger] removed(items, id)[j]
                == items[j + 1],
{
    first_with_id_is_first(items, id);
}

/// A removal by a number that no record carries changes nothing.
pub proof fn removal_of_absent_id_changes_nothing(items: Seq<TodoItemView>, id: nat)
    requires
        !contains_id(items, id),
    ensures
        removed(items, id) == items,
        first_with_id(items, id) == items.len(),
{
    first_with_id_is_first(items, id);
}

} // verus!
