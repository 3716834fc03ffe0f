use html_lexer::reference::{numeric_reference, numeric_reference_error, resolve, ReferenceForm, Resolution};
use html_lexer::tokenizer::{tokenize, Attribute, ParseError, Token};

fn characters(input: &str) -> String {
    tokenize(&String::from(input))
        .iter()
        .filter_map(|t| match t {
            Token::Character(c) => Some(*c),
            _ => None,
        })
        .collect()
}

fn value_of(input: &str) -> String {
    match &tokenize(&String::from(input))[0] {
        Token::StartTag { attributes, .. } => attributes[0].value.clone(),
        other => panic!("no start tag: {other:?}"),
    }
}

fn buffer(s: &str) -> Vec<char> {
    s.chars().collect()
}

#[test]
fn named_reference_resolves() {
    assert_eq!(characters("&amp;"), "&");
    assert_eq!(characters("a&lt;b&gt;c"), "a<b>c");
    assert_eq!(characters("&quot;&apos;"), "\"'");
}

#[test]
fn decimal_and_hexadecimal_references_resolve() {
    assert_eq!(characters("&#65;"), "A");
    assert_eq!(characters("&#x41;"), "A");
    assert_eq!(characters("&#X41;"), "A");
    assert_eq!(characters("&#x1F600;"), "\u{1F600}");
    assert_eq!(characters("&#x1f600;"), "\u{1F600}");
}

#[test]
fn legacy_name_resolves_without_semicolon() {
    assert_eq!(characters("&nbsp"), "\u{A0}");
    assert_eq!(characters("&nbsp;"), "\u{A0}");
    assert_eq!(characters("&ampx"), "&x");
    assert_eq!(characters("&copy 2024"), "\u{A9} 2024");
}

#[test]
fn unknown_name_is_text() {
    assert_eq!(characters("&foo;"), "&foo;");
    assert_eq!(characters("&"), "&");
    assert_eq!(characters("& a"), "& a");
    assert_eq!(characters("&&amp;"), "&&");
    assert_eq!(characters("&1;"), "&1;");
}

#[test]
fn longest_name_wins() {
    assert_eq!(characters("&notit;"), "\u{AC}it;");
    assert_eq!(characters("&notin;"), "\u{2209}");
    assert_eq!(characters("&not;"), "\u{AC}");
    assert_eq!(characters("&lt"), "<");
    assert_eq!(characters("&ltdot;"), "\u{22D6}");
}

#[test]
fn name_of_two_characters() {
    assert_eq!(characters("&NotEqualTilde;"), "\u{2242}\u{338}");
    assert_eq!(characters("&fjlig;"), "fj");
}

#[test]
fn name_needs_its_semicolon_unless_legacy() {
    assert_eq!(characters("&Aacute"), "\u{C1}");
    assert_eq!(characters("&Abreve"), "&Abreve");
    assert_eq!(characters("&Abreve;"), "\u{102}");
}

#[test]
fn numeric_reference_without_semicolon_still_resolves() {
    assert_eq!(characters("&#65"), "A");
    assert_eq!(characters("&#65x"), "Ax");
    assert_eq!(characters("&#x41g"), "Ag");
}

#[test]
fn numeric_reference_without_digits_is_text() {
    assert_eq!(characters("&#"), "&#");
    assert_eq!(characters("&#;"), "&#;");
    assert_eq!(characters("&#x"), "&#x");
    assert_eq!(characters("&#xg;"), "&#xg;");
    assert_eq!(characters("&#a"), "&#a");
}

#[test]
fn codes_that_no_document_may_refer_to() {
    assert_eq!(characters("&#0;"), "\u{FFFD}");
    assert_eq!(characters("&#x110000;"), "\u{FFFD}");
    assert_eq!(characters("&#xD800;"), "\u{FFFD}");
    assert_eq!(characters("&#xDFFF;"), "\u{FFFD}");
    assert_eq!(characters("&#99999999999999999999;"), "\u{FFFD}");
    assert_eq!(characters("&#x10FFFF;"), "\u{10FFFF}");
    assert_eq!(characters("&#xD7FF;"), "\u{D7FF}");
    assert_eq!(characters("&#xE000;"), "\u{E000}");
}

#[test]
fn control_range_is_read_as_windows_1252() {
    assert_eq!(characters("&#x80;"), "\u{20AC}");
    assert_eq!(characters("&#128;"), "\u{20AC}");
    assert_eq!(characters("&#x99;"), "\u{2122}");
    assert_eq!(characters("&#x9F;"), "\u{178}");
    assert_eq!(characters("&#x81;"), "\u{81}");
    assert_eq!(characters("&#x8D;"), "\u{8D}");
    assert_eq!(characters("&#x9D;"), "\u{9D}");
    assert_eq!(characters("&#x7F;"), "\u{7F}");
    assert_eq!(characters("&#xA0;"), "\u{A0}");
}

#[test]
fn whole_windows_1252_table() {
    let table: [(u32, char); 27] = [
        (0x80, '\u{20AC}'),
        (0x82, '\u{201A}'),
        (0x83, '\u{0192}'),
        (0x84, '\u{201E}'),
        (0x85, '\u{2026}'),
        (0x86, '\u{2020}'),
        (0x87, '\u{2021}'),
        (0x88, '\u{02C6}'),
        (0x89, '\u{2030}'),
        (0x8A, '\u{0160}'),
        (0x8B, '\u{2039}'),
        (0x8C, '\u{0152}'),
        (0x8E, '\u{017D}'),
        (0x91, '\u{2018}'),
        (0x92, '\u{2019}'),
        (0x93, '\u{201C}'),
        (0x94, '\u{201D}'),
        (0x95, '\u{2022}'),
        (0x96, '\u{2013}'),
        (0x97, '\u{2014}'),
        (0x98, '\u{02DC}'),
        (0x99, '\u{2122}'),
        (0x9A, '\u{0161}'),
        (0x9B, '\u{203A}'),
        (0x9C, '\u{0153}'),
        (0x9E, '\u{017E}'),
        (0x9F, '\u{0178}'),
    ];
    for (code, c) in table {
        assert_eq!(numeric_reference(code), c, "{code:#x}");
        assert_eq!(numeric_reference_error(code), Some(ParseError::ControlCharacterReference));
    }
}

#[test]
fn numeric_reference_of_a_plain_code_is_its_character() {
    assert_eq!(numeric_reference(0x41), 'A');
    assert_eq!(numeric_reference(0x20AC), '\u{20AC}');
    assert_eq!(numeric_reference(0x10FFFF), '\u{10FFFF}');
    assert_eq!(numeric_reference(0), '\u{FFFD}');
    assert_eq!(numeric_reference(0xD800), '\u{FFFD}');
    assert_eq!(numeric_reference(0x110000), '\u{FFFD}');
    assert_eq!(numeric_reference(u32::MAX), '\u{FFFD}');
}

#[test]
fn errors_of_numeric_references() {
    assert_eq!(numeric_reference_error(0x41), None);
    assert_eq!(numeric_reference_error(0), Some(ParseError::NullCharacterReference));
    assert_eq!(numeric_reference_error(0x110000), Some(ParseError::CharacterReferenceOutsideUnicodeRange));
    assert_eq!(numeric_reference_error(0xDABC), Some(ParseError::SurrogateCharacterReference));
    assert_eq!(numeric_reference_error(0xFDD0), Some(ParseError::NoncharacterCharacterReference));
    assert_eq!(numeric_reference_error(0xFFFE), Some(ParseError::NoncharacterCharacterReference));
    assert_eq!(numeric_reference_error(0x10FFFF), Some(ParseError::NoncharacterCharacterReference));
    assert_eq!(numeric_reference_error(0x0D), Some(ParseError::ControlCharacterReference));
    assert_eq!(numeric_reference_error(0x01), Some(ParseError::ControlCharacterReference));
    assert_eq!(numeric_reference_error(0x0B), Some(ParseError::ControlCharacterReference));
    assert_eq!(numeric_reference_error(0x7F), Some(ParseError::ControlCharacterReference));
    assert_eq!(numeric_reference_error(0x09), None);
    assert_eq!(numeric_reference_error(0x0A), None);
    assert_eq!(numeric_reference_error(0x0C), None);
    assert_eq!(numeric_reference_error(0x20), None);
    assert_eq!(numeric_reference_error(0xA0), None);
}

#[test]
fn references_in_attribute_values() {
    assert_eq!(value_of("<a b=\"x&amp;y\">"), "x&y");
    assert_eq!(value_of("<a b='&#65;&#x42;'>"), "AB");
    assert_eq!(value_of("<a b=&lt;>"), "<");
    assert_eq!(value_of("<a b=\"&foo;\">"), "&foo;");
}

#[test]
fn legacy_name_before_equals_or_alphanumeric_in_attribute_is_text() {
    assert_eq!(value_of("<a href=\"?a=1&amp=2\">"), "?a=1&amp=2");
    assert_eq!(value_of("<a href=\"?a=1&ampx\">"), "?a=1&ampx");
    assert_eq!(value_of("<a href=\"?a=1&amp2\">"), "?a=1&amp2");
    assert_eq!(value_of("<a href=\"?a=1&amp;x\">"), "?a=1&x");
    assert_eq!(value_of("<a href=\"?a=1&amp x\">"), "?a=1& x");
    assert_eq!(value_of("<a href=\"?a=1&amp\">"), "?a=1&");
}

#[test]
fn reference_in_attribute_is_no_token() {
    assert_eq!(
        tokenize(&String::from("<a b=&amp;>")),
        vec![
            Token::StartTag {
                tag_name: String::from("a"),
                self_closing: false,
                attributes: vec![Attribute { name: String::from("b"), value: String::from("&") }],
            },
            Token::EndOfFile
        ]
    );
}

#[test]
fn resolve_named() {
    assert_eq!(
        resolve(&buffer("amp;"), ReferenceForm::Named),
        Some(Resolution { first: '&', second: None, malformed: false })
    );
    assert_eq!(
        resolve(&buffer("nbsp"), ReferenceForm::Named),
        Some(Resolution { first: '\u{A0}', second: None, malformed: true })
    );
    assert_eq!(
        resolve(&buffer("notit;"), ReferenceForm::Named),
        Some(Resolution { first: '\u{AC}', second: None, malformed: true })
    );
    assert_eq!(
        resolve(&buffer("NotEqualTilde; and more"), ReferenceForm::Named),
        Some(Resolution { first: '\u{2242}', second: Some('\u{338}'), malformed: false })
    );
    assert_eq!(resolve(&buffer("foo;"), ReferenceForm::Named), None);
    assert_eq!(resolve(&buffer(""), ReferenceForm::Named), None);
    assert_eq!(resolve(&buffer("AMP;"), ReferenceForm::Named), Some(Resolution { first: '&', second: None, malformed: false }));
    assert_eq!(resolve(&buffer("Amp;"), ReferenceForm::Named), None);
}

#[test]
fn resolve_decimal() {
    assert_eq!(
        resolve(&buffer("65;"), ReferenceForm::Decimal),
        Some(Resolution { first: 'A', second: None, malformed: false })
    );
    assert_eq!(
        resolve(&buffer("65"), ReferenceForm::Decimal),
        Some(Resolution { first: 'A', second: None, malformed: true })
    );
    assert_eq!(
        resolve(&buffer("0065;"), ReferenceForm::Decimal),
        Some(Resolution { first: 'A', second: None, malformed: false })
    );
    assert_eq!(
        resolve(&buffer("6a;"), ReferenceForm::Decimal),
        Some(Resolution { first: '\u{6}', second: None, malformed: true })
    );
    assert_eq!(
        resolve(&buffer("0;"), ReferenceForm::Decimal),
        Some(Resolution { first: '\u{FFFD}', second: None, malformed: true })
    );
    assert_eq!(
        resolve(&buffer("1114112;"), ReferenceForm::Decimal),
        Some(Resolution { first: '\u{FFFD}', second: None, malformed: true })
    );
    assert_eq!(
        resolve(&buffer("1114111;"), ReferenceForm::Decimal),
        Some(Resolution { first: '\u{10FFFF}', second: None, malformed: true })
    );
    assert_eq!(
        resolve(&buffer("128;"), ReferenceForm::Decimal),
        Some(Resolution { first: '\u{20AC}', second: None, malformed: true })
    );
    assert_eq!(resolve(&buffer(";"), ReferenceForm::Decimal), None);
    assert_eq!(resolve(&buffer(""), ReferenceForm::Decimal), None);
    assert_eq!(resolve(&buffer("x41;"), ReferenceForm::Decimal), None);
}

#[test]
fn resolve_hexadecimal() {
    assert_eq!(
        resolve(&buffer("41;"), ReferenceForm::Hexadecimal),
        Some(Resolution { first: 'A', second: None, malformed: false })
    );
    assert_eq!(
        resolve(&buffer("1f600;"), ReferenceForm::Hexadecimal),
        Some(Resolution { first: '\u{1F600}', second: None, malformed: false })
    );
    assert_eq!(
        resolve(&buffer("1F600"), ReferenceForm::Hexadecimal),
        Some(Resolution { first: '\u{1F600}', second: None, malformed: true })
    );
    assert_eq!(
        resolve(&buffer("FFFFFFFFFFFFFFFFFFFF;"), ReferenceForm::Hexadecimal),
        Some(Resolution { first: '\u{FFFD}', second: None, malformed: true })
    );
    assert_eq!(resolve(&buffer("g;"), ReferenceForm::Hexadecimal), None);
}
