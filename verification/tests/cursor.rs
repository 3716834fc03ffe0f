use html_lexer::chars::{
    chars_of, copy_chars, digit_value, is_alpha, is_alphanumeric, is_digit, is_hex_digit, is_lower, is_upper,
    is_whitespace, lower, same_text, text_is,
};
use html_lexer::cursor::Cursor;
use html_lexer::entities::{entity, find_entity, ENTITY_COUNT};

#[test]
fn new_cursor_sees_nothing() {
    let cursor = Cursor::new();
    assert_eq!(cursor.peek_at(0), None);
    assert_eq!(cursor.peek_at(7), None);
}

#[test]
fn cursor_sees_what_was_fed_and_moves_on() {
    let mut cursor = Cursor::new();
    cursor.feed("ab");
    cursor.feed("c");
    assert_eq!(cursor.peek_at(0), Some('a'));
    assert_eq!(cursor.peek_at(2), Some('c'));
    assert_eq!(cursor.peek_at(3), None);
    cursor.advance(1);
    assert_eq!(cursor.peek_at(0), Some('b'));
    cursor.advance(2);
    assert_eq!(cursor.peek_at(0), None);
    cursor.advance(0);
    cursor.advance(5);
    cursor.feed("d");
    assert_eq!(cursor.peek_at(0), Some('d'));
}

#[test]
fn cursor_finds_the_longest_name_where_it_stands() {
    let mut cursor = Cursor::new();
    cursor.feed("x&notin;");
    assert!(cursor.find_entity().is_none());
    cursor.advance(2);
    let found = cursor.find_entity().unwrap();
    assert_eq!(found.length, 6);
    assert_eq!(entity(found.index), ("notin;", '\u{2209}', '\0'));
}

#[test]
fn table_has_every_name_once_and_in_order() {
    assert_eq!(ENTITY_COUNT, 2231);
    for i in 1..ENTITY_COUNT {
        assert!(entity(i - 1).0 < entity(i).0, "{}", entity(i).0);
    }
    assert_eq!(entity(0).0, "AElig");
    assert_eq!(entity(ENTITY_COUNT - 1).0, "zwnj;");
}

#[test]
fn table_entries_at_the_seams() {
    let at = |name: &str| {
        let input: Vec<char> = name.chars().collect();
        let found = find_entity(&input, 0).unwrap();
        assert_eq!(found.length, input.len(), "{name}");
        entity(found.index)
    };
    assert_eq!(at("AElig;"), ("AElig;", '\u{C6}', '\0'));
    assert_eq!(at("Kscr;"), ("Kscr;", '\u{1D4A6}', '\0'));
    assert_eq!(at("LJcy;"), ("LJcy;", '\u{409}', '\0'));
    assert_eq!(at("Zscr;"), ("Zscr;", '\u{1D4B5}', '\0'));
    assert_eq!(at("aacute;"), ("aacute;", '\u{E1}', '\0'));
    assert_eq!(at("cylcty;"), ("cylcty;", '\u{232D}', '\0'));
    assert_eq!(at("dArr;"), ("dArr;", '\u{21D3}', '\0'));
    assert_eq!(at("kscr;"), ("kscr;", '\u{1D4C0}', '\0'));
    assert_eq!(at("lAarr;"), ("lAarr;", '\u{21DA}', '\0'));
    assert_eq!(at("nwnear;"), ("nwnear;", '\u{2927}', '\0'));
    assert_eq!(at("oS;"), ("oS;", '\u{24C8}', '\0'));
    assert_eq!(at("rx;"), ("rx;", '\u{211E}', '\0'));
    assert_eq!(at("sacute;"), ("sacute;", '\u{15B}', '\0'));
    assert_eq!(at("zwnj;"), ("zwnj;", '\u{200C}', '\0'));
    assert_eq!(at("acE;"), ("acE;", '\u{223E}', '\u{333}'));
    assert_eq!(at("CounterClockwiseContourIntegral;").1, '\u{2233}');
}

#[test]
fn no_name_is_found_where_none_begins() {
    for text in ["", ";", "1", "Amp;", "am", "&amp;", " amp;"] {
        let input: Vec<char> = text.chars().collect();
        assert!(find_entity(&input, 0).is_none(), "{text:?}");
    }
    let input: Vec<char> = "amp;".chars().collect();
    assert!(find_entity(&input, 4).is_none());
    assert_eq!(find_entity(&input, 0).unwrap().length, 4);
}

#[test]
fn character_classes() {
    for c in ['\t', '\n', '\u{C}', ' '] {
        assert!(is_whitespace(c));
    }
    for c in ['\r', '\u{B}', 'a', '\0', '\u{A0}'] {
        assert!(!is_whitespace(c));
    }
    assert!(is_upper('A') && is_upper('Z') && !is_upper('a') && !is_upper('[') && !is_upper('@'));
    assert!(is_lower('a') && is_lower('z') && !is_lower('A') && !is_lower('{') && !is_lower('`'));
    assert!(is_alpha('q') && is_alpha('Q') && !is_alpha('1') && !is_alpha('\u{E9}'));
    assert!(is_digit('0') && is_digit('9') && !is_digit('/') && !is_digit(':'));
    assert!(is_hex_digit('a') && is_hex_digit('F') && is_hex_digit('7') && !is_hex_digit('g') && !is_hex_digit('G'));
    assert!(is_alphanumeric('a') && is_alphanumeric('0') && !is_alphanumeric('-'));
}

#[test]
fn lowercase_of_ascii_letters_only() {
    assert_eq!(lower('A'), 'a');
    assert_eq!(lower('Z'), 'z');
    assert_eq!(lower('m'), 'm');
    assert_eq!(lower('1'), '1');
    assert_eq!(lower('\u{C9}'), '\u{C9}');
    for c in 'A'..='Z' {
        assert_eq!(lower(c), c.to_ascii_lowercase());
    }
}

#[test]
fn values_of_digits() {
    assert_eq!(digit_value('0'), 0);
    assert_eq!(digit_value('9'), 9);
    assert_eq!(digit_value('a'), 10);
    assert_eq!(digit_value('f'), 15);
    assert_eq!(digit_value('A'), 10);
    assert_eq!(digit_value('F'), 15);
    assert_eq!(digit_value('g'), 0);
}

#[test]
fn texts_are_copied_and_compared_character_by_character() {
    let text = chars_of("h\u{E9}llo \u{1F600}");
    assert_eq!(text, vec!['h', '\u{E9}', 'l', 'l', 'o', ' ', '\u{1F600}']);
    assert_eq!(copy_chars(&text), text);
    assert!(same_text(&text, &copy_chars(&text)));
    assert!(!same_text(&text, &chars_of("hello")));
    assert!(!same_text(&chars_of("ab"), &chars_of("abc")));
    assert!(text_is(&chars_of("script"), "script"));
    assert!(!text_is(&chars_of("Script"), "script"));
    assert!(text_is(&chars_of(""), ""));
}
