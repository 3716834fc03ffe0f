//! The resolution of character references: what a numeric reference's code
//! and a named reference's name stand for.

use vstd::prelude::*;
use vstd::string::StrSliceExecFns;
use crate::chars::{digit_value, is_digit, is_hex_digit, spec_digit_value};
use crate::entities::{entity, entity_name, entry, find_entity, longest_match};
use crate::model::{with_digit, MAX_CODE};
use crate::tokenizer::ParseError;

verus! {

/// How a character reference was written.
#[derive(Debug, Clone, Copy, PartialEq, Eq, Hash, Structural)]
pub enum ReferenceForm {
    /// `&name;`
    Named,
    /// `&#digits;`
    Decimal,
    /// `&#xdigits;`
    Hexadecimal,
}

/// What a character reference stands for.
#[derive(Debug, Clone, Copy, PartialEq, Eq)]
pub struct Resolution {
    pub first: char,
    pub second: Option<char>,
    /// Whether the reference was malformed, though resolved: its `;` was
    /// missing, or its code is none that a document may refer to.
    pub malformed: bool,
}

pub open spec fn is_surrogate(code: int) -> bool {
    0xD800 <= code <= 0xDFFF
}

pub open spec fn is_noncharacter(code: int) -> bool {
    (0xFDD0 <= code <= 0xFDEF) || code % 0x10000 >= 0xFFFE
}

/// A carriage return, or a control character that is not whitespace.
pub open spec fn is_control_reference(code: int) -> bool {
    code == 0x0D || ((code <= 0x1F || (0x7F <= code <= 0x9F)) && code != 0x09 && code != 0x0A
        && code != 0x0C)
}

/// The error that a numeric reference to `code` is, if it is one.
pub open spec fn numeric_error(code: int) -> Option<ParseError> {
    if code == 0 {
        Some(ParseError::NullCharacterReference)
    } else if code > MAX_CODE {
        Some(ParseError::CharacterReferenceOutsideUnicodeRange)
    } else if is_surrogate(code) {
        Some(ParseError::SurrogateCharacterReference)
    } else if is_noncharacter(code) {
        Some(ParseError::NoncharacterCharacterReference)
    } else if is_control_reference(code) {
        Some(ParseError::ControlCharacterReference)
    } else {
        None
    }
}

/// What a code of the C1 control range stands for in Windows-1252, where that
/// differs from the code itself.
pub open spec fn legacy_character(code: int) -> Option<char> {
    if code == 0x80 {
        Some('\u{20AC}')
    } else if code == 0x82 {
        Some('\u{201A}')
    } else if code == 0x83 {
        Some('\u{0192}')
    } else if code == 0x84 {
        Some('\u{201E}')
    } else if code == 0x85 {
        Some('\u{2026}')
    } else if code == 0x86 {
        Some('\u{2020}')
    } else if code == 0x87 {
        Some('\u{2021}')
    } else if code == 0x88 {
        Some('\u{02C6}')
    } else if code == 0x89 {
        Some('\u{2030}')
    } else if code == 0x8A {
        Some('\u{0160}')
    } else if code == 0x8B {
        Some('\u{2039}')
    } else if code == 0x8C {
        Some('\u{0152}')
    } else if code == 0x8E {
        Some('\u{017D}')
    } else if code == 0x91 {
        Some('\u{2018}')
    } else if code == 0x92 {
        Some('\u{2019}')
    } else if code == 0x93 {
        Some('\u{201C}')
    } else if code == 0x94 {
        Some('\u{201D}')
    } else if code == 0x95 {
        Some('\u{2022}')
    } else if code == 0x96 {
        Some('\u{2013}')
    } else if code == 0x97 {
        Some('\u{2014}')
    } else if code == 0x98 {
        Some('\u{02DC}')
    } else if code == 0x99 {
        Some('\u{2122}')
    } else if code == 0x9A {
        Some('\u{0161}')
    } else if code == 0x9B {
        Some('\u{203A}')
    } else if code == 0x9C {
        Some('\u{0153}')
    } else if code == 0x9E {
        Some('\u{017E}')
    } else if code == 0x9F {
        Some('\u{0178}')
    } else {
        None
    }
}

/// The character that a numeric reference to `code` stands for: the
/// replacement character for zero, a surrogate or a code beyond Unicode; the
/// Windows-1252 character for a code of the C1 range that has one; else the
/// character of that code.
pub open spec fn numeric_replacement(code: int) -> char {
    if code <= 0 || code > MAX_CODE || is_surrogate(code) {
        '\u{FFFD}'
    } else if legacy_character(code) is Some {
        legacy_character(code)->0
    } else {
        code as char
    }
}

/// `char::from_u32`: the character of the given code, where the code is a
/// Unicode scalar value, that is at most 0x10FFFF and no surrogate.
#[verifier::external_body]
fn scalar(code: u32) -> (r: Option<char>)
    ensures
        code <= MAX_CODE && !is_surrogate(code as int) ==> r == Some(code as char),
        code > MAX_CODE || is_surrogate(code as int) ==> r is None,
{
    char::from_u32(code)
}

fn legacy_character_of(code: u32) -> (r: Option<char>)
    ensures
        r == legacy_character(code as int),
{
    if code == 0x80 {
        Some('\u{20AC}')
    } else if code == 0x82 {
        Some('\u{201A}')
    } else if code == 0x83 {
        Some('\u{0192}')
    } else if code == 0x84 {
        Some('\u{201E}')
    } else if code == 0x85 {
        Some('\u{2026}')
    } else if code == 0x86 {
        Some('\u{2020}')
    } else if code == 0x87 {
        Some('\u{2021}')
    } else if code == 0x88 {
        Some('\u{02C6}')
    } else if code == 0x89 {
        Some('\u{2030}')
    } else if code == 0x8A {
        Some('\u{0160}')
    } else if code == 0x8B {
        Some('\u{2039}')
    } else if code == 0x8C {
        Some('\u{0152}')
    } else if code == 0x8E {
        Some('\u{017D}')
    } else if code == 0x91 {
        Some('\u{2018}')
    } else if code == 0x92 {
        Some('\u{2019}')
    } else if code == 0x93 {
        Some('\u{201C}')
    } else if code == 0x94 {
        Some('\u{201D}')
    } else if code == 0x95 {
        Some('\u{2022}')
    } else if code == 0x96 {
        Some('\u{2013}')
    } else if code == 0x97 {
        Some('\u{2014}')
    } else if code == 0x98 {
        Some('\u{02DC}')
    } else if code == 0x99 {
        Some('\u{2122}')
    } else if code == 0x9A {
        Some('\u{0161}')
    } else if code == 0x9B {
        Some('\u{203A}')
    } else if code == 0x9C {
        Some('\u{0153}')
    } else if code == 0x9E {
        Some('\u{017E}')
    } else if code == 0x9F {
        Some('\u{0178}')
    } else {
        None
    }
}

/// The error that a numeric reference to `code` is, if it is one.
pub fn numeric_reference_error(code: u32) -> (r: Option<ParseError>)
    ensures
        r == numeric_error(code as int),
{
    if code == 0 {
        Some(ParseError::NullCharacterReference)
    } else if code > MAX_CODE {
        Some(ParseError::CharacterReferenceOutsideUnicodeRange)
    } else if 0xD800 <= code && code <= 0xDFFF {
        Some(ParseError::SurrogateCharacterReference)
    } else if (0xFDD0 <= code && code <= 0xFDEF) || code % 0x10000 >= 0xFFFE {
        Some(ParseError::NoncharacterCharacterReference)
    } else if code == 0x0D || ((code <= 0x1F || (0x7F <= code && code <= 0x9F)) && code != 0x09
        && code != 0x0A && code != 0x0C) {
        Some(ParseError::ControlCharacterReference)
    } else {
        None
    }
}

/// The character that a numeric reference to `code` stands for.
pub fn numeric_reference(code: u32) -> (c: char)
    ensures
        c == numeric_replacement(code as int),
{
    match scalar(code) {
        None => '\u{FFFD}',
        Some(c) => if code == 0 {
            '\u{FFFD}'
        } else {
            match legacy_character_of(code) {
                Some(legacy) => legacy,
                None => c,
            }
        },
    }
}

/// Whether `c` is a digit of a reference of the given form.
pub open spec fn spec_is_digit_of(c: char, form: ReferenceForm) -> bool {
    match form {
        ReferenceForm::Named => false,
        ReferenceForm::Decimal => is_digit(c),
        ReferenceForm::Hexadecimal => is_hex_digit(c),
    }
}

#[verifier::when_used_as_spec(spec_is_digit_of)]
pub fn is_digit_of(c: char, form: ReferenceForm) -> (b: bool)
    ensures
        b == spec_is_digit_of(c, form),
{
    match form {
        ReferenceForm::Named => false,
        ReferenceForm::Decimal => is_digit(c),
        ReferenceForm::Hexadecimal => is_hex_digit(c),
    }
}

pub open spec fn base_of(form: ReferenceForm) -> int {
    match form {
        ReferenceForm::Hexadecimal => 16,
        _ => 10,
    }
}

/// Where the digits that begin at `from` end.
pub open spec fn digits_end(buffer: Seq<char>, form: ReferenceForm, from: int) -> int
    decreases buffer.len() - from,
{
    if 0 <= from < buffer.len() && is_digit_of(buffer[from], form) {
        digits_end(buffer, form, from + 1)
    } else {
        from
    }
}

/// The number that the first `n` characters of `buffer` spell in the given
/// base, stopped just above the largest code point.
pub open spec fn digits_value(buffer: Seq<char>, base: int, n: int) -> int
    decreases n,
{
    if n <= 0 {
        0
    } else {
        with_digit(digits_value(buffer, base, n - 1), base, spec_digit_value(buffer[n - 1]))
    }
}

/// What the buffer of a character reference resolves to: `buffer` is what
/// follows `&` in a named reference, `&#` in a decimal and `&#x` in a
/// hexadecimal one. A named reference stands for the entry with the longest
/// name that `buffer` begins with, a numeric one for what its leading digits
/// spell. Without such a name, or without a digit, there is nothing to
/// resolve.
pub open spec fn resolution(buffer: Seq<char>, form: ReferenceForm) -> Option<Resolution> {
    if form == ReferenceForm::Named {
        match longest_match(buffer) {
            None => None,
            Some(i) => Some(
                Resolution {
                    first: entry(i).1,
                    second: if entry(i).2 == '\0' {
                        None
                    } else {
                        Some(entry(i).2)
                    },
                    malformed: entity_name(i).last() != ';',
                },
            ),
        }
    } else {
        let n = digits_end(buffer, form, 0);
        let code = digits_value(buffer, base_of(form), n);
        if n == 0 {
            None
        } else {
            Some(
                Resolution {
                    first: numeric_replacement(code),
                    second: None,
                    malformed: numeric_error(code) is Some || !(n < buffer.len() && buffer[n]
                        == ';'),
                },
            )
        }
    }
}

fn resolve_named(buffer: &Vec<char>) -> (r: Option<Resolution>)
    ensures
        r == resolution(buffer@, ReferenceForm::Named),
{
    assert(buffer@.skip(0) =~= buffer@);
    match find_entity(buffer, 0) {
        None => None,
        Some(found) => {
            let e = entity(found.index);
            let last = e.0.get_char(found.length - 1);
            Some(
                Resolution {
                    first: e.1,
                    second: if e.2 == '\0' {
                        None
                    } else {
                        Some(e.2)
                    },
                    malformed: last != ';',
                },
            )
        },
    }
}

fn resolve_numeric(buffer: &Vec<char>, form: ReferenceForm) -> (r: Option<Resolution>)
    requires
        form != ReferenceForm::Named,
    ensures
        r == resolution(buffer@, form),
{
    let base: u32 = match form {
        ReferenceForm::Hexadecimal => 16,
        _ => 10,
    };
    let mut code: u32 = 0;
    let mut n: usize = 0;
    while n < buffer.len() && is_digit_of(buffer[n], form)
        invariant
            n <= buffer.len(),
            base == base_of(form),
            code <= MAX_CODE + 1,
            code == digits_value(buffer@, base as int, n as int),
            digits_end(buffer@, form, 0) == digits_end(buffer@, form, n as int),
        decreases buffer.len() - n,
    {
        let digit = digit_value(buffer[n]);
        assert(code * base <= (MAX_CODE + 1) * 16) by (nonlinear_arith)
            requires
                code <= MAX_CODE + 1,
                base <= 16,
        ;
        let next = code * base + digit;
        code = if next > MAX_CODE {
            MAX_CODE + 1
        } else {
            next
        };
        n += 1;
    }
    if n == 0 {
        None
    } else {
        let terminated = n < buffer.len() && buffer[n] == ';';
        Some(
            Resolution {
                first: numeric_reference(code),
                second: None,
                malformed: numeric_reference_error(code).is_some() || !terminated,
            },
        )
    }
}

/// Resolves the buffer of a character reference.
pub fn resolve(buffer: &Vec<char>, form: ReferenceForm) -> (r: Option<Resolution>)
    ensures
        r == resolution(buffer@, form),
{
    match form {
        ReferenceForm::Named => resolve_named(buffer),
        _ => resolve_numeric(buffer, form),
    }
}

} // verus!
