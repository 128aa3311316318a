use todo_list::input::{is_space_char, parse_choice, parse_id, trim, MenuChoice};

#[test]
fn white_space_is_what_the_standard_library_takes_for_it() {
    let mut code: u32 = 0;
    let mut count: u32 = 0;
    while code <= 0x10ffff {
        if let Some(c) = char::from_u32(code) {
            assert_eq!(is_space_char(c), c.is_whitespace(), "U+{:04X}", code);
            if is_space_char(c) {
                count += 1;
            }
        }
        code += 1;
    }
    assert_eq!(count, 25);
}

#[test]
fn common_blanks_are_white_space() {
    assert!(is_space_char(' '));
    assert!(is_space_char('\t'));
    assert!(is_space_char('\n'));
    assert!(is_space_char('\r'));
    assert!(is_space_char('\u{a0}'));
    assert!(is_space_char('\u{3000}'));
    assert!(!is_space_char('a'));
    assert!(!is_space_char('0'));
    assert!(!is_space_char('\u{0}'));
    assert!(!is_space_char('\u{8}'));
    assert!(!is_space_char('\u{e}'));
    assert!(!is_space_char('\u{200b}'));
    assert!(!is_space_char('\u{180e}'));
}

#[test]
fn trim_drops_blanks_at_both_ends_only() {
    assert_eq!(trim("  buy milk \n"), "buy milk");
    assert_eq!(trim("buy milk"), "buy milk");
    assert_eq!(trim("buy   milk\r\n"), "buy   milk");
    assert_eq!(trim("\t x"), "x");
    assert_eq!(trim("x \t"), "x");
    assert_eq!(trim(""), "");
    assert_eq!(trim(" \n\t "), "");
    assert_eq!(trim("\n"), "");
    assert_eq!(trim("\u{a0}caf\u{e9} au lait\u{2003}"), "caf\u{e9} au lait");
    assert_eq!(trim(" \u{1f600} "), "\u{1f600}");
}

#[test]
fn trim_agrees_with_the_standard_library() {
    let samples = [
        "", " ", "a", " a", "a ", " a ", "\n", "a\n", "\r\n", "a b", "  a  b  ", "\u{85}x\u{85}",
        "\u{2028}line\u{2029}", "\u{200b}zero width\u{200b}", "\u{feff}bom", "x\u{1680}",
        "\u{205f}\u{202f}y\u{3000}", " \u{e9}t\u{e9} ", "\u{0}a\u{0}", "\u{b}\u{c}v\u{b}",
    ];
    for sample in samples.iter() {
        assert_eq!(trim(sample), sample.trim(), "{:?}", sample);
    }
}

#[test]
fn the_four_entries_are_read() {
    assert_eq!(parse_choice("1\n"), MenuChoice::Add);
    assert_eq!(parse_choice("2\n"), MenuChoice::List);
    assert_eq!(parse_choice("3\n"), MenuChoice::Remove);
    assert_eq!(parse_choice("4\n"), MenuChoice::SaveAndExit);
}

#[test]
fn blanks_around_a_choice_are_passed_over() {
    assert_eq!(parse_choice(" 2 "), MenuChoice::List);
    assert_eq!(parse_choice("\t3\r\n"), MenuChoice::Remove);
    assert_eq!(parse_choice("4"), MenuChoice::SaveAndExit);
    assert_eq!(parse_choice("+1\n"), MenuChoice::Add);
    assert_eq!(parse_choice("01\n"), MenuChoice::Add);
}

#[test]
fn other_lines_are_invalid_choices() {
    let lines = [
        "", "\n", "0\n", "5\n", "12\n", "abc\n", "-1\n", "1.0\n", "1 2\n", "one\n", "4294967297\n",
        "1x\n", "x1\n", "99999999999999999999999\n",
    ];
    for line in lines.iter() {
        assert_eq!(parse_choice(line), MenuChoice::Invalid, "{:?}", line);
    }
}

#[test]
fn choice_agrees_with_the_standard_parser() {
    let lines = ["1", " 1", "1 ", "+4", "004", "4.", "", "3\n", "\u{a0}2\u{a0}", "4294967298", "5"];
    for line in lines.iter() {
        let number: u32 = line.trim().parse().unwrap_or(0);
        let expected = match number {
            1 => MenuChoice::Add,
            2 => MenuChoice::List,
            3 => MenuChoice::Remove,
            4 => MenuChoice::SaveAndExit,
            _ => MenuChoice::Invalid,
        };
        assert_eq!(parse_choice(line), expected, "{:?}", line);
    }
}

#[test]
fn a_number_is_read_as_a_record_number() {
    assert_eq!(parse_id("2\n"), 2);
    assert_eq!(parse_id("  17  \n"), 17);
    assert_eq!(parse_id("0\n"), 0);
    assert_eq!(parse_id("+3"), 3);
    assert_eq!(parse_id(&format!("{}\n", usize::MAX)), usize::MAX);
}

#[test]
fn what_is_no_number_is_read_as_record_number_zero() {
    assert_eq!(parse_id("abc\n"), 0);
    assert_eq!(parse_id(""), 0);
    assert_eq!(parse_id("\n"), 0);
    assert_eq!(parse_id("-3\n"), 0);
    assert_eq!(parse_id("2 3\n"), 0);
    assert_eq!(parse_id("2.5\n"), 0);
    assert_eq!(parse_id(&format!("{}0\n", usize::MAX)), 0);
}

#[test]
fn record_number_agrees_with_the_standard_parser() {
    let lines = ["1", " 12 ", "x", "", "+7\n", "-7\n", "007", "18446744073709551616", "4294967296"];
    for line in lines.iter() {
        let expected: usize = line.trim().parse().unwrap_or(0);
        assert_eq!(parse_id(line), expected, "{:?}", line);
    }
}
