//! A verified core for a small interactive todo list: the records, the
//! operations on the list, the text shown to the user and the decisions of
//! the menu loop. Reading lines, printing and the file on disk are left to
//! the program around it.

pub mod decimal;
pub mod input;
pub mod item;
pub mod messages;
pub mod session;
pub mod store;
