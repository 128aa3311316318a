//! The task record and its mathematical model.

use vstd::prelude::*;

verus! {

/// One entry of the list: a number shown to the user and the task's text.
#[derive(Debug)]
pub struct TodoItem {
    pub id: usize,
    pub task: String,
}

/// What a `TodoItem` stands for in contracts.
pub struct TodoItemView {
    pub id: nat,
    pub task: Seq<char>,
}

impl View for TodoItem {
    type V = TodoItemView;

    open spec fn view(&self) -> TodoItemView {
        TodoItemView { id: self.id as nat, task: self.task@ }
    }
}

impl DeepView for TodoItem {
    type V = TodoItemView;

    open spec fn deep_view(&self) -> TodoItemView {
        self@
    }
}

impl TodoItem {
    /// A record with the given number and text.
    pub fn new(id: usize, task: String) -> (item: TodoItem)
        ensures
            item.id == id,
            item.task == task,
            item@ == (TodoItemView { id: id as nat, task: task@ }),
    {
        TodoItem { id, task }
    }
}

} // verus!
