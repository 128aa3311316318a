//! The texts shown to the user, each as a sequence of characters for the
//! contracts and as a function that builds the string.

use crate::decimal::{decimal, push_decimal};
use crate::item::{TodoItem, TodoItemView};
use vstd::prelude::*;

verus! {

/// The listing of a list without records.
pub open spec fn no_items_text() -> Seq<char> {
    "No todo items found."@
}

/// The line above the records of a listing.
pub open spec fn list_header_text() -> Seq<char> {
    "Todo List:"@
}

/// The line of one record in a listing: its number, a colon, a blank and its
/// text.
pub open spec fn entry_text(item: TodoItemView) -> Seq<char> {
    decimal(item.id) + ": "@ + item.task
}

/// What is said when no record carries the number `id`.
pub open spec fn not_found_text(id: nat) -> Seq<char> {
    "Todo item with ID "@ + decimal(id) + " not found."@
}

/// What is said when the record with the number `id` has been removed.
pub open spec fn removed_text(id: nat) -> Seq<char> {
    "Removed todo item with ID "@ + decimal(id)
}

/// What is said at the start when `count` records came from the file.
pub open spec fn loaded_text(count: nat) -> Seq<char> {
    "Loaded "@ + decimal(count) + " todo items from file."@
}

/// The menu, line by line.
pub open spec fn menu_text() -> Seq<Seq<char>> {
    seq![
        "Choose an option:"@,
        "1. Add Todo Item"@,
        "2. List Todo Items"@,
        "3. Remove Todo Item"@,
        "4. Save and Exit"@,
    ]
}

/// The request for a task's text.
pub open spec fn task_prompt_text() -> Seq<char> {
    "Enter the task:"@
}

/// The request for the number of the record to remove.
pub open spec fn id_prompt_text() -> Seq<char> {
    "Enter the ID of the item to remove:"@
}

/// What is said of a line that is none of the menu's entries.
pub open spec fn invalid_choice_text() -> Seq<char> {
    "Invalid choice. Please try again."@
}

/// What is said when the list has been written to its file.
pub open spec fn saved_text() -> Seq<char> {
    "Todo list saved."@
}

/// What is said when the list could not be written, `detail` being the
/// reason.
pub open spec fn save_failed_text(detail: Seq<char>) -> Seq<char> {
    "Error saving todo list: "@ + detail
}

/// The error of a file that could not be read, `detail` being the reason.
pub open spec fn read_failed_text(detail: Seq<char>) -> Seq<char> {
    "Failed to read file: "@ + detail
}

/// The error of a file that does not hold a list, `detail` being the reason.
pub open spec fn parse_failed_text(detail: Seq<char>) -> Seq<char> {
    "Failed to parse JSON: "@ + detail
}

/// Appends `line` to `lines`.
pub fn push_line(lines: &mut Vec<String>, line: String)
    ensures
        final(lines)@ == old(lines)@.push(line),
        final(lines).deep_view() == old(lines).deep_view().push(line@),
{
    lines.push(line);
}

/// The listing of a list without records.
pub fn no_items_message() -> (msg: String)
    ensures
        msg@ == no_items_text(),
{
    String::from_str("No todo items found.")
}

/// The line above the records of a listing.
pub fn list_header_message() -> (msg: String)
    ensures
        msg@ == list_header_text(),
{
    String::from_str("Todo List:")
}

/// The line of `item` in a listing.
pub fn entry_message(item: &TodoItem) -> (msg: String)
    ensures
        msg@ == entry_text(item@),
{
    let mut msg = String::new();
    push_decimal(&mut msg, item.id);
    msg.append(": ");
    msg.append(item.task.as_str());
    msg
}

/// What is said when no record carries the number `id`.
pub fn not_found_message(id: usize) -> (msg: String)
    ensures
        msg@ == not_found_text(id as nat),
{
    let mut msg = String::from_str("Todo item with ID ");
    push_decimal(&mut msg, id);
    msg.append(" not found.");
    msg
}

/// What is said when the record with the number `id` has been removed.
pub fn removed_message(id: usize) -> (msg: String)
    ensures
        msg@ == removed_text(id as nat),
{
    let mut msg = String::from_str("Removed todo item with ID ");
    push_decimal(&mut msg, id);
    msg
}

/// What is said at the start when `count` records came from the file.
pub fn loaded_message(count: usize) -> (msg: String)
    ensures
        msg@ == loaded_text(count as nat),
{
    let mut msg = String::from_str("Loaded ");
    push_decimal(&mut msg, count);
    msg.append(" todo items from file.");
    msg
}

/// Appends the menu's lines to `lines`.
pub fn push_menu(lines: &mut Vec<String>)
    ensures
        final(lines).deep_view() == old(lines).deep_view() + menu_text(),
{
    push_line(lines, String::from_str("Choose an option:"));
    push_line(lines, String::from_str("1. Add Todo Item"));
    push_line(lines, String::from_str("2. List Todo Items"));
    push_line(lines, String::from_str("3. Remove Todo Item"));
    push_line(lines, String::from_str("4. Save and Exit"));
}

/// The request for a task's text.
pub fn task_prompt_message() -> (msg: String)
    ensures
        msg@ == task_prompt_text(),
{
    String::from_str("Enter the task:")
}

/// The request for the number of the record to remove.
pub fn id_prompt_message() -> (msg: String)
    ensures
        msg@ == id_prompt_text(),
{
    String::from_str("Enter the ID of the item to remove:")
}

/// What is said of a line that is none of the menu's entries.
pub fn invalid_choice_message() -> (msg: String)
    ensures
        msg@ == invalid_choice_text(),
{
    String::from_str("Invalid choice. Please try again.")
}

/// What is said when the list has been written to its file.
pub fn saved_message() -> (msg: String)
    ensures
        msg@ == saved_text(),
{
    String::from_str("Todo list saved.")
}

/// What is said when the list could not be written, `detail` being the
/// reason.
pub fn save_failed_message(detail: &str) -> (msg: String)
    ensures
        msg@ == save_failed_text(detail@),
{
    let mut msg = String::from_str("Error saving todo list: ");
    msg.append(detail);
    msg
}

/// The error of a file that could not be read, `detail` being the reason.
pub fn read_failed_message(detail: &str) -> (msg: String)
    ensures
        msg@ == read_failed_text(detail@),
{
    let mut msg = String::from_str("Failed to read file: ");
    msg.append(detail);
    msg
}

/// The error of a file that does not hold a list, `detail` being the reason.
pub fn parse_failed_message(detail: &str) -> (msg: String)
    ensures
        msg@ == parse_failed_text(detail@),
{
    let mut msg = String::from_str("Failed to parse JSON: ");
    msg.append(detail);
    msg
}

} // verus!
