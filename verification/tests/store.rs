use todo_list::item::TodoItem;
use todo_list::store::{add_todo_item, list_todo_items, remove_todo_item};

fn pairs(items: &Vec<TodoItem>) -> Vec<(usize, String)> {
    items.iter().map(|item| (item.id, item.task.clone())).collect()
}

fn store_of(tasks: &[&str]) -> Vec<TodoItem> {
    let mut items: Vec<TodoItem> = Vec::new();
    for task in tasks {
        add_todo_item(&mut items, task.to_string());
    }
    items
}

#[test]
fn two_adds_are_listed_in_order() {
    let mut items: Vec<TodoItem> = Vec::new();
    add_todo_item(&mut items, "buy milk".to_string());
    add_todo_item(&mut items, "call bank".to_string());
    assert_eq!(
        pairs(&items),
        vec![(1usize, "buy milk".to_string()), (2usize, "call bank".to_string())]
    );
    assert_eq!(
        list_todo_items(&items),
        vec!["Todo List:".to_string(), "1: buy milk".to_string(), "2: call bank".to_string()]
    );
}

#[test]
fn removal_then_add_repeats_a_number() {
    let mut items = store_of(&["a", "b", "c"]);
    assert_eq!(remove_todo_item(&mut items, 2), Ok(()));
    assert_eq!(pairs(&items), vec![(1usize, "a".to_string()), (3usize, "c".to_string())]);
    assert_eq!(
        list_todo_items(&items),
        vec!["Todo List:".to_string(), "1: a".to_string(), "3: c".to_string()]
    );
    add_todo_item(&mut items, "x".to_string());
    assert_eq!(
        pairs(&items),
        vec![(1usize, "a".to_string()), (3usize, "c".to_string()), (3usize, "x".to_string())]
    );
    assert_eq!(
        list_todo_items(&items),
        vec![
            "Todo List:".to_string(),
            "1: a".to_string(),
            "3: c".to_string(),
            "3: x".to_string()
        ]
    );
}

#[test]
fn removal_of_absent_number_fails_and_keeps_the_list() {
    let mut items = store_of(&["a", "b"]);
    assert_eq!(
        remove_todo_item(&mut items, 99),
        Err("Todo item with ID 99 not found.".to_string())
    );
    assert_eq!(items.len(), 2);
    assert_eq!(pairs(&items), vec![(1usize, "a".to_string()), (2usize, "b".to_string())]);
}

#[test]
fn removal_from_empty_list_fails() {
    let mut items: Vec<TodoItem> = Vec::new();
    assert_eq!(
        remove_todo_item(&mut items, 1),
        Err("Todo item with ID 1 not found.".to_string())
    );
    assert!(items.is_empty());
}

#[test]
fn removal_of_number_zero_fails_on_added_records() {
    let mut items = store_of(&["a", "b", "c"]);
    assert_eq!(
        remove_todo_item(&mut items, 0),
        Err("Todo item with ID 0 not found.".to_string())
    );
    assert_eq!(items.len(), 3);
}

#[test]
fn twelve_adds_give_twelve_entries() {
    let tasks: Vec<String> = (0..12usize).map(|i| format!("task {}", i)).collect();
    let mut items: Vec<TodoItem> = Vec::new();
    for task in &tasks {
        add_todo_item(&mut items, task.clone());
    }
    assert_eq!(items.len(), 12);
    let lines = list_todo_items(&items);
    assert_eq!(lines.len(), 13);
    assert_eq!(lines[0], "Todo List:");
    for i in 0..12usize {
        assert_eq!(items[i].id, i + 1);
        assert_eq!(items[i].task, tasks[i]);
        assert_eq!(lines[i + 1], format!("{}: {}", i + 1, tasks[i]));
    }
    assert_eq!(lines[10], "10: task 9");
    assert_eq!(lines[12], "12: task 11");
}

#[test]
fn add_appends_and_keeps_earlier_records() {
    let mut items = vec![
        TodoItem { id: 7, task: "seven".to_string() },
        TodoItem { id: 7, task: "again".to_string() },
    ];
    add_todo_item(&mut items, "seven".to_string());
    assert_eq!(
        pairs(&items),
        vec![
            (7usize, "seven".to_string()),
            (7usize, "again".to_string()),
            (3usize, "seven".to_string())
        ]
    );
}

#[test]
fn add_takes_an_empty_description() {
    let mut items: Vec<TodoItem> = Vec::new();
    add_todo_item(&mut items, String::new());
    assert_eq!(pairs(&items), vec![(1usize, String::new())]);
    assert_eq!(list_todo_items(&items), vec!["Todo List:".to_string(), "1: ".to_string()]);
}

#[test]
fn removal_takes_the_first_of_two_equal_numbers() {
    let mut items = vec![
        TodoItem { id: 1, task: "a".to_string() },
        TodoItem { id: 3, task: "c".to_string() },
        TodoItem { id: 3, task: "x".to_string() },
        TodoItem { id: 4, task: "d".to_string() },
    ];
    assert_eq!(remove_todo_item(&mut items, 3), Ok(()));
    assert_eq!(
        pairs(&items),
        vec![(1usize, "a".to_string()), (3usize, "x".to_string()), (4usize, "d".to_string())]
    );
    assert_eq!(remove_todo_item(&mut items, 3), Ok(()));
    assert_eq!(pairs(&items), vec![(1usize, "a".to_string()), (4usize, "d".to_string())]);
    assert_eq!(
        remove_todo_item(&mut items, 3),
        Err("Todo item with ID 3 not found.".to_string())
    );
}

#[test]
fn removal_of_first_and_last_record() {
    let mut items = store_of(&["a", "b", "c"]);
    assert_eq!(remove_todo_item(&mut items, 1), Ok(()));
    assert_eq!(pairs(&items), vec![(2usize, "b".to_string()), (3usize, "c".to_string())]);
    assert_eq!(remove_todo_item(&mut items, 3), Ok(()));
    assert_eq!(pairs(&items), vec![(2usize, "b".to_string())]);
    assert_eq!(remove_todo_item(&mut items, 2), Ok(()));
    assert!(items.is_empty());
}

#[test]
fn empty_list_is_listed_as_one_line() {
    let items: Vec<TodoItem> = Vec::new();
    assert_eq!(list_todo_items(&items), vec!["No todo items found.".to_string()]);
}

#[test]
fn listing_leaves_the_list_alone() {
    let items = store_of(&["a", "b"]);
    let first = list_todo_items(&items);
    let second = list_todo_items(&items);
    assert_eq!(first, second);
    assert_eq!(pairs(&items), vec![(1usize, "a".to_string()), (2usize, "b".to_string())]);
}

#[test]
fn listing_shows_large_numbers_in_full() {
    let items = vec![TodoItem::new(usize::MAX, "last".to_string())];
    assert_eq!(
        list_todo_items(&items),
        vec!["Todo List:".to_string(), format!("{}: last", usize::MAX)]
    );
}
