//! Reading what the user typed: blanks around a line are dropped, then the
//! line is taken as a menu choice, as a record's number or as a task's text.

use crate::decimal::{
    decimal, decimal_denotes, decimal_is_read_back, parse_unsigned, parsed_unsigned,
};
use vstd::prelude::*;

verus! {

/// Whether `c` is white space: the characters that Unicode gives the
/// property `White_Space`.
pub open spec fn is_space(c: char) -> bool {
    ||| '\u{9}' <= c && c <= '\u{d}'
    ||| c == ' '
    ||| c == '\u{85}'
    ||| c == '\u{a0}'
    ||| c == '\u{1680}'
    ||| '\u{2000}' <= c && c <= '\u{200a}'
    ||| c == '\u{2028}'
    ||| c == '\u{2029}'
    ||| c == '\u{202f}'
    ||| c == '\u{205f}'
    ||| c == '\u{3000}'
}

/// `s` without the white space it begins with.
pub open spec fn trim_start(s: Seq<char>) -> Seq<char>
    decreases s.len(),
{
    if s.len() > 0 && is_space(s[0]) {
        trim_start(s.drop_first())
    } else {
        s
    }
}

/// `s` without the white space it ends with.
pub open spec fn trim_end(s: Seq<char>) -> Seq<char>
    decreases s.len(),
{
    if s.len() > 0 && is_space(s.last()) {
        trim_end(s.drop_last())
    } else {
        s
    }
}

/// `s` without the white space at either end.
pub open spec fn trimmed(s: Seq<char>) -> Seq<char> {
    trim_end(trim_start(s))
}

/// What the user can ask for at the menu.
#[derive(Clone, Copy, Debug, PartialEq, Eq, Structural)]
pub enum MenuChoice {
    Add,
    List,
    Remove,
    SaveAndExit,
    Invalid,
}

/// The choice that a number stands for: 1 to 4 are the menu's entries, every
/// other number is invalid.
pub open spec fn choice_of_number(n: nat) -> MenuChoice {
    if n == 1 {
        MenuChoice::Add
    } else if n == 2 {
        MenuChoice::List
    } else if n == 3 {
        MenuChoice::Remove
    } else if n == 4 {
        MenuChoice::SaveAndExit
    } else {
        MenuChoice::Invalid
    }
}

/// The choice that a typed line stands for. A line that is no number is
/// invalid.
pub open spec fn choice_of(line: Seq<char>) -> MenuChoice {
    match parsed_unsigned(trimmed(line), u32::MAX as nat) {
        Some(n) => choice_of_number(n),
        None => MenuChoice::Invalid,
    }
}

/// The record number that a typed line stands for. A line that is no number
/// stands for 0, which no record added here carries.
pub open spec fn id_of(line: Seq<char>) -> nat {
    match parsed_unsigned(trimmed(line), usize::MAX as nat) {
        Some(n) => n,
        None => 0,
    }
}

/// If the first `a` characters of `s` are white space and the next one is
/// not, `trim_start` drops exactly those `a`.
pub proof fn trim_start_drops(s: Seq<char>, a: int)
    requires
        0 <= a <= s.len(),
        forall|i: int| 0 <= i < a ==> is_space(#[trigger] s[i]),
        a == s.len() || !is_space(s[a]),
    ensures
        trim_start(s) == s.subrange(a, s.len() as int),
    decreases a,
{
    if a > 0 {
        trim_start_drops(s.drop_first(), a - 1);
    }
}

/// If the characters of `s` from `b` on are white space and the one before
/// them is not, `trim_end` keeps exactly the first `b`.
pub proof fn trim_end_keeps(s: Seq<char>, b: int)
    requires
        0 <= b <= s.len(),
        forall|i: int| b <= i < s.len() ==> is_space(#[trigger] s[i]),
        b == 0 || !is_space(s[b - 1]),
    ensures
        trim_end(s) == s.subrange(0, b),
    decreases s.len() - b,
{
    if b < s.len() {
        trim_end_keeps(s.drop_last(), b);
    }
}

/// Whether `c` is white space.
pub fn is_space_char(c: char) -> (space: bool)
    ensures
        space == is_space(c),
{
    ('\u{9}' <= c && c <= '\u{d}') || c == ' ' || c == '\u{85}' || c == '\u{a0}' || c
        == '\u{1680}' || ('\u{2000}' <= c && c <= '\u{200a}') || c == '\u{2028}' || c
        == '\u{2029}' || c == '\u{202f}' || c == '\u{205f}' || c == '\u{3000}'
}

/// A text that neither begins nor ends with white space stays as it is, and
/// white space put around it is dropped again.
pub proof fn trim_drops_what_is_around(before: Seq<char>, inner: Seq<char>, after: Seq<char>)
    requires
        forall|i: int| 0 <= i < before.len() ==> is_space(#[trigger] before[i]),
        forall|i: int| 0 <= i < after.len() ==> is_space(#[trigger] after[i]),
        inner.len() > 0 ==> !is_space(inner[0]) && !is_space(inner.last()),
    ensures
        trimmed(before + inner + after) == inner,
{
    let s = before + inner + after;
    if inner.len() == 0 {
        trim_start_drops(s, s.len() as int);
    } else {
        trim_start_drops(s, before.len() as int);
        trim_end_keeps(s.subrange(before.len() as int, s.len() as int), inner.len() as int);
    }
}

/// A number written out in decimal, with or without white space around it,
/// is read as that number: as a record's number if it fits one, and as the
/// menu entry that it numbers.
pub proof fn written_number_is_read(before: Seq<char>, n: nat, after: Seq<char>)
    requires
        forall|i: int| 0 <= i < before.len() ==> is_space(#[trigger] before[i]),
        forall|i: int| 0 <= i < after.len() ==> is_space(#[trigger] after[i]),
    ensures
        trimmed(before + decimal(n) + after) == decimal(n),
        n <= usize::MAX ==> id_of(before + decimal(n) + after) == n,
        choice_of(before + decimal(n) + after) == choice_of_number(n),
{
    decimal_denotes(n);
    trim_drops_what_is_around(before, decimal(n), after);
    if n <= usize::MAX {
        decimal_is_read_back(n, usize::MAX as nat);
    }
    if n <= u32::MAX {
        decimal_is_read_back(n, u32::MAX as nat);
    }
}

/// The part of `text` between its leading and its trailing white space.
pub fn trim(text: &str) -> (inner: &str)
    ensures
        inner@ == trimmed(text@),
{
    let len = text.unicode_len();
    let mut i: usize = 0;
    let mut a: usize = 0;
    let mut b: usize = 0;
    for c in it: text.chars()
        invariant
            it.seq() == text@,
            i == it.index(),
            len == text@.len(),
            a <= b <= i <= len,
            forall|j: int| 0 <= j < a ==> is_space(#[trigger] text@[j]),
            forall|j: int| b <= j < i ==> is_space(#[trigger] text@[j]),
            a == b ==> a == i,
            a < b ==> !is_space(text@[a as int]) && !is_space(text@[b - 1]),
    {
        if is_space_char(c) {
            if a == b {
                a = i + 1;
                b = i + 1;
            }
        } else {
            b = i + 1;
        }
        i = i + 1;
    }
    proof {
        let s = text@;
        trim_start_drops(s, a as int);
        trim_end_keeps(s.subrange(a as int, len as int), b - a);
    }
    text.substring_char(a, b)
}

/// Reads a line typed at the menu.
pub fn parse_choice(line: &str) -> (choice: MenuChoice)
    ensures
        choice == choice_of(line@),
{
    match parse_unsigned(trim(line), u32::MAX as usize) {
        Some(1) => MenuChoice::Add,
        Some(2) => MenuChoice::List,
        Some(3) => MenuChoice::Remove,
        Some(4) => MenuChoice::SaveAndExit,
        _ => MenuChoice::Invalid,
    }
}

/// Reads a line typed as the number of a record.
pub fn parse_id(line: &str) -> (id: usize)
    ensures
        id as nat == id_of(line@),
{
    match parse_unsigned(trim(line), usize::MAX) {
        Some(n) => n,
        None => 0,
    }
}

} // verus!
