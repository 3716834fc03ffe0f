//! How numeric character references are read in text: a reference stands
//! for the character that it resolves to.

use vstd::prelude::*;
use crate::model::{character_tokens, Machine};
use crate::reading::reference::{opens_reference, reads_references};
use crate::reading::steps::{
    in_character_reference, in_decimal_character_reference, in_decimal_character_reference_start,
    in_hexadecimal_character_reference, in_hexadecimal_character_reference_start,
    in_numeric_character_reference, in_numeric_character_reference_end,
};
use crate::reading::{at, at_concat, moved, run_steps, sees};
use crate::reference::{
    base_of, digits_end, digits_value, numeric_replacement, resolution, spec_is_digit_of,
    ReferenceForm,
};
use crate::run::run;
use crate::step::step;
use crate::tokenizer::{State, TokenModel};

verus! {

/// The state that reads the digits of a numeric reference of the given form.
pub open spec fn digits_state(form: ReferenceForm) -> State {
    match form {
        ReferenceForm::Hexadecimal => State::HexadecimalCharacterReference,
        _ => State::DecimalCharacterReference,
    }
}

/// How a numeric reference begins, before its digits.
pub open spec fn numeric_opening(form: ReferenceForm) -> Seq<char> {
    match form {
        ReferenceForm::Hexadecimal => seq!['&', '#', 'x'],
        _ => seq!['&', '#'],
    }
}

/// `&#` and a digit, or `&#x` and a digit, begin the digits of a numeric
/// reference.
proof fn opens_numeric_reference(m: Machine, form: ReferenceForm, digit: char) -> (n: Machine)
    requires
        m.wf(),
        !m.finished,
        reads_references(m.state),
        form != ReferenceForm::Named,
        at(m.input, m.pos, numeric_opening(form).push(digit)),
        spec_is_digit_of(digit, form),
    ensures
        moved(m, n, numeric_opening(form).len()),
        n.state == digits_state(form),
        n.return_state == m.state,
        n.code == 0,
{
    let text = numeric_opening(form).push(digit);
    sees(m, text);
    assert(text[0] == '&' && text[1] == '#');
    let m1 = opens_reference(m);
    assert(m1.peek() == m.peek_at(1));
    run_steps(m1);
    in_character_reference(m1);
    let m2 = step(m1);
    assert(m2.peek() == m.peek_at(2));
    run_steps(m2);
    in_numeric_character_reference(m2);
    let m3 = step(m2);
    if form == ReferenceForm::Hexadecimal {
        assert(text[2] == 'x' && text[3] == digit);
        assert(m3.peek() == m.peek_at(3));
        run_steps(m3);
        in_hexadecimal_character_reference_start(m3);
        step(m3)
    } else {
        assert(text[2] == digit);
        run_steps(m3);
        in_decimal_character_reference_start(m3);
        step(m3)
    }
}

/// The first `k` digits of a numeric reference are read one by one.
proof fn reads_digits(m: Machine, digits: Seq<char>, form: ReferenceForm, k: int) -> (n: Machine)
    requires
        m.wf(),
        !m.finished,
        form != ReferenceForm::Named,
        m.state == digits_state(form),
        m.code == 0,
        at(m.input, m.pos, digits),
        forall|i: int| 0 <= i < digits.len() ==> spec_is_digit_of(#[trigger] digits[i], form),
        0 <= k <= digits.len(),
    ensures
        moved(m, n, k as nat),
        n.state == m.state,
        n.return_state == m.return_state,
        n.code == digits_value(digits, base_of(form), k),
    decreases k,
{
    if k == 0 {
        m
    } else {
        let before = reads_digits(m, digits, form, k - 1);
        assert(before.peek() == Some(digits[k - 1])) by {
            sees(m, digits);
            assert(before.peek() == m.peek_at(k - 1));
        }
        run_steps(before);
        if form == ReferenceForm::Hexadecimal {
            in_hexadecimal_character_reference(before);
        } else {
            in_decimal_character_reference(before);
        }
        step(before)
    }
}

/// `;` after the digits ends the reference: the character of its code is
/// emitted, and the text goes on.
proof fn closes_numeric_reference(m: Machine) -> (n: Machine)
    requires
        m.wf(),
        !m.finished,
        m.state == State::DecimalCharacterReference || m.state
            == State::HexadecimalCharacterReference,
        reads_references(m.return_state),
        m.peek() == Some(';'),
    ensures
        run(n) == run(m),
        n.wf(),
        !n.finished,
        n.input == m.input,
        n.pos == m.pos + 1,
        n.state == m.return_state,
        n.tokens == m.tokens.push(TokenModel::Character(numeric_replacement(m.code))),
{
    run_steps(m);
    if m.state == State::HexadecimalCharacterReference {
        in_hexadecimal_character_reference(m);
    } else {
        in_decimal_character_reference(m);
    }
    let m1 = step(m);
    run_steps(m1);
    in_numeric_character_reference_end(m1);
    let n = step(m1);
    let c = numeric_replacement(m.code);
    assert(character_tokens(seq![c]) =~= seq![TokenModel::Character(c)]);
    assert(n.tokens =~= m.tokens.push(TokenModel::Character(c)));
    n
}

/// The digits of a buffer end where its first character that is no digit
/// stands.
proof fn digits_end_here(buffer: Seq<char>, form: ReferenceForm, from: int, end: int)
    requires
        0 <= from <= end < buffer.len(),
        forall|i: int| from <= i < end ==> spec_is_digit_of(#[trigger] buffer[i], form),
        !spec_is_digit_of(buffer[end], form),
    ensures
        digits_end(buffer, form, from) == end,
    decreases end - from,
{
    if from < end {
        digits_end_here(buffer, form, from + 1, end);
    }
}

/// What the first characters of a buffer spell does not depend on those
/// behind them.
proof fn digits_value_of_prefix(a: Seq<char>, b: Seq<char>, base: int, n: int)
    requires
        0 <= n <= a.len(),
        n <= b.len(),
        forall|i: int| 0 <= i < n ==> a[i] == b[i],
    ensures
        digits_value(a, base, n) == digits_value(b, base, n),
    decreases n,
{
    if n > 0 {
        digits_value_of_prefix(a, b, base, n - 1);
    }
}

/// How a numeric reference is written: `&#` or `&#x`, the digits, and `;`.
pub open spec fn numeric_spelling(digits: Seq<char>, form: ReferenceForm) -> Seq<char> {
    numeric_opening(form) + digits + seq![';']
}

/// In text, a numeric reference is read as the character that it resolves
/// to: `digits`, decimal or hexadecimal, between `&#` or `&#x` and `;`.
pub proof fn numeric_reference_is_resolved(
    m: Machine,
    digits: Seq<char>,
    form: ReferenceForm,
) -> (n: Machine)
    requires
        m.wf(),
        !m.finished,
        reads_references(m.state),
        form != ReferenceForm::Named,
        digits.len() > 0,
        forall|i: int| 0 <= i < digits.len() ==> spec_is_digit_of(#[trigger] digits[i], form),
        at(m.input, m.pos, numeric_spelling(digits, form)),
    ensures
        run(n) == run(m),
        n.wf(),
        !n.finished,
        n.input == m.input,
        n.pos == m.pos + numeric_spelling(digits, form).len(),
        n.state == m.state,
        resolution(digits.push(';'), form) is Some,
        n.tokens == m.tokens.push(
            TokenModel::Character(resolution(digits.push(';'), form)->0.first),
        ),
{
    let opening = numeric_opening(form);
    let close = seq![';'];
    let buffer = digits.push(';');
    at_concat(m.input, m.pos, opening + digits, close);
    at_concat(m.input, m.pos, opening, digits);
    assert(at(m.input, m.pos, opening.push(digits[0]))) by {
        sees(m, opening);
        sees(m.advance(opening.len() as int), digits);
    }
    let m1 = opens_numeric_reference(m, form, digits[0]);
    let m2 = reads_digits(m1, digits, form, digits.len() as int);
    sees(m2, close);
    let n = closes_numeric_reference(m2);
    assert(!spec_is_digit_of(';', form));
    digits_end_here(buffer, form, 0, digits.len() as int);
    digits_value_of_prefix(buffer, digits, base_of(form), digits.len() as int);
    n
}

} // verus!
