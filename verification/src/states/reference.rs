//! The states that read a character reference.

use vstd::prelude::*;
use vstd::string::StrSliceExecFns;
use crate::chars::{digit_value, is_alphanumeric, is_digit, is_hex_digit, spec_digit_value};
use crate::entities::{entity, entity_name, entry, longest_match};
use crate::model::Machine;
use crate::parser::Parser;
use crate::reference::{
    numeric_error, numeric_reference, numeric_reference_error, numeric_replacement,
};
use crate::tokenizer::{ParseError, State};

verus! {

/// Whether a named reference that ends before `next` is, for historical
/// reasons, no reference: in an attribute's value, without its `;`, and
/// followed by `=` or by a letter or digit.
pub open spec fn is_historical(m: Machine, terminated: bool, next: Option<char>) -> bool {
    m.in_attribute() && !terminated && next is Some && (next->0 == '=' || is_alphanumeric(next->0))
}

/// After `&` and a letter or digit. The longest name that the input begins
/// with is the reference; what it stands for takes its place. With no such
/// name the `&` was text.
pub open spec fn named_character_reference(m: Machine) -> Machine {
    match longest_match(m.rest()) {
        None => m.flush_reference().switch(State::AmbiguousAmpersand),
        Some(i) => {
            let n = entity_name(i).len() as int;
            let terminated = entity_name(i).last() == ';';
            if is_historical(m, terminated, m.peek_at(n)) {
                m.push_temp_text(entity_name(i)).advance(n).flush_reference().switch(m.return_state)
            } else {
                resolved(if terminated {
                    m.advance(n)
                } else {
                    m.advance(n).error(ParseError::MissingSemicolonAfterCharacterReference)
                }, entry(i).1, entry(i).2)
            }
        },
    }
}

/// The characters that a reference stands for take its place; a second
/// character of U+0000 stands for none.
pub open spec fn resolved(m: Machine, first: char, second: char) -> Machine {
    if second == '\0' {
        m.clear_temp().push_temp(first).flush_reference().switch(m.return_state)
    } else {
        m.clear_temp().push_temp(first).push_temp(second).flush_reference().switch(m.return_state)
    }
}

/// At the end of a numeric reference: the character of its code takes its
/// place.
pub open spec fn numeric_character_reference_end(m: Machine) -> Machine {
    match numeric_error(m.code) {
        Some(e) => resolved(m.error(e), numeric_replacement(m.code), '\0'),
        None => resolved(m, numeric_replacement(m.code), '\0'),
    }
}

/// After `&`. The temporary buffer holds what has been read of the reference.
pub open spec fn character_reference(m: Machine) -> Machine {
    let m = m.clear_temp().push_temp('&');
    match m.peek() {
        None => m.flush_reference().switch(m.return_state),
        Some(c) => if is_alphanumeric(c) {
            m.switch(State::NamedCharacterReference)
        } else if c == '#' {
            m.advance(1).push_temp(c).switch(State::NumericCharacterReference)
        } else {
            m.flush_reference().switch(m.return_state)
        },
    }
}

/// After `&` and a word that begins no named reference: the word is text.
pub open spec fn ambiguous_ampersand(m: Machine) -> Machine {
    match m.peek() {
        None => m.switch(m.return_state),
        Some(c) => if is_alphanumeric(c) && m.in_attribute() {
            m.advance(1).push_attr_value(c)
        } else if is_alphanumeric(c) {
            m.advance(1).emit_char(c)
        } else if c == ';' {
            m.error(ParseError::UnknownNamedCharacterReference).switch(m.return_state)
        } else {
            m.switch(m.return_state)
        },
    }
}

/// After `&#`.
pub open spec fn numeric_character_reference(m: Machine) -> Machine {
    let m = m.set_code(0);
    match m.peek() {
        None => m.switch(State::DecimalCharacterReferenceStart),
        Some(c) => if c == 'x' || c == 'X' {
            m.advance(1).push_temp(c).switch(State::HexadecimalCharacterReferenceStart)
        } else {
            m.switch(State::DecimalCharacterReferenceStart)
        },
    }
}

/// After `&#x`, before the first digit.
pub open spec fn hexadecimal_character_reference_start(m: Machine) -> Machine {
    match m.peek() {
        None => m
            .error(ParseError::AbsenceOfDigitsInNumericCharacterReference)
            .flush_reference()
            .switch(m.return_state),
        Some(c) => if is_hex_digit(c) {
            m.switch(State::HexadecimalCharacterReference)
        } else {
            m
                .error(ParseError::AbsenceOfDigitsInNumericCharacterReference)
                .flush_reference()
                .switch(m.return_state)
        },
    }
}

/// After `&#`, before the first digit.
pub open spec fn decimal_character_reference_start(m: Machine) -> Machine {
    match m.peek() {
        None => m
            .error(ParseError::AbsenceOfDigitsInNumericCharacterReference)
            .flush_reference()
            .switch(m.return_state),
        Some(c) => if is_digit(c) {
            m.switch(State::DecimalCharacterReference)
        } else {
            m
                .error(ParseError::AbsenceOfDigitsInNumericCharacterReference)
                .flush_reference()
                .switch(m.return_state)
        },
    }
}

/// In the digits of a hexadecimal reference.
pub open spec fn hexadecimal_character_reference(m: Machine) -> Machine {
    match m.peek() {
        None => m
            .error(ParseError::MissingSemicolonAfterCharacterReference)
            .switch(State::NumericCharacterReferenceEnd),
        Some(c) => if is_hex_digit(c) {
            m.advance(1).add_digit(16, spec_digit_value(c))
        } else if c == ';' {
            m.advance(1).switch(State::NumericCharacterReferenceEnd)
        } else {
            m
                .error(ParseError::MissingSemicolonAfterCharacterReference)
                .switch(State::NumericCharacterReferenceEnd)
        },
    }
}

/// In the digits of a decimal reference.
pub open spec fn decimal_character_reference(m: Machine) -> Machine {
    match m.peek() {
        None => m
            .error(ParseError::MissingSemicolonAfterCharacterReference)
            .switch(State::NumericCharacterReferenceEnd),
        Some(c) => if is_digit(c) {
            m.advance(1).add_digit(10, spec_digit_value(c))
        } else if c == ';' {
            m.advance(1).switch(State::NumericCharacterReferenceEnd)
        } else {
            m
                .error(ParseError::MissingSemicolonAfterCharacterReference)
                .switch(State::NumericCharacterReferenceEnd)
        },
    }
}

impl Parser {
    fn resolved(&mut self, first: char, second: char)
        requires
            old(self)@.wf(),
        ensures
            final(self)@ == resolved(old(self)@, first, second),
            final(self)@.wf(),
    {
        self.clear_temp();
        self.push_temp(first);
        if second != '\0' {
            self.push_temp(second);
        }
        self.flush_reference();
        self.switch_state(self.return_state());
    }

    pub(crate) fn named_character_reference(&mut self)
        requires
            old(self)@.wf(),
        ensures
            final(self)@ == named_character_reference(old(self)@),
            final(self)@.wf(),
    {
        match self.find_entity() {
            None => {
                self.flush_reference();
                self.switch_state(State::AmbiguousAmpersand);
            },
            Some(found) => {
                let e = entity(found.index);
                let terminated = e.0.get_char(found.length - 1) == ';';
                let historical = self.in_attribute() && !terminated && match self.peek_at(
                    found.length,
                ) {
                    Some(next) => next == '=' || is_alphanumeric(next),
                    None => false,
                };
                if historical {
                    self.push_temp_text(e.0);
                    self.advance(found.length);
                    self.flush_reference();
                    self.switch_state(self.return_state());
                } else {
                    self.advance(found.length);
                    if !terminated {
                        self.error(ParseError::MissingSemicolonAfterCharacterReference);
                    }
                    self.resolved(e.1, e.2);
                }
            },
        }
    }

    pub(crate) fn numeric_character_reference_end(&mut self)
        requires
            old(self)@.wf(),
        ensures
            final(self)@ == numeric_character_reference_end(old(self)@),
            final(self)@.wf(),
    {
        let code = self.code();
        match numeric_reference_error(code) {
            Some(e) => self.error(e),
            None => {},
        }
        self.resolved(numeric_reference(code), '\0');
    }

    pub(crate) fn character_reference(&mut self)
        requires
            old(self)@.wf(),
        ensures
            final(self)@ == character_reference(old(self)@),
            final(self)@.wf(),
    {
        self.clear_temp();
        self.push_temp('&');
        match self.peek() {
            None => {
                self.flush_reference();
                self.switch_state(self.return_state());
            },
            Some(c) => if is_alphanumeric(c) {
                self.switch_state(State::NamedCharacterReference);
            } else if c == '#' {
                self.advance(1);
                self.push_temp(c);
                self.switch_state(State::NumericCharacterReference);
            } else {
                self.flush_reference();
                self.switch_state(self.return_state());
            },
        }
    }

    pub(crate) fn ambiguous_ampersand(&mut self)
        requires
            old(self)@.wf(),
        ensures
            final(self)@ == ambiguous_ampersand(old(self)@),
            final(self)@.wf(),
    {
        match self.peek() {
            None => self.switch_state(self.return_state()),
            Some(c) => if is_alphanumeric(c) && self.in_attribute() {
                self.advance(1);
                self.push_attr_value(c);
            } else if is_alphanumeric(c) {
                self.advance(1);
                self.emit_char(c);
            } else if c == ';' {
                self.error(ParseError::UnknownNamedCharacterReference);
                self.switch_state(self.return_state());
            } else {
                self.switch_state(self.return_state());
            },
        }
    }

    pub(crate) fn numeric_character_reference(&mut self)
        requires
            old(self)@.wf(),
        ensures
            final(self)@ == numeric_character_reference(old(self)@),
            final(self)@.wf(),
    {
        self.set_code(0);
        match self.peek() {
            None => self.switch_state(State::DecimalCharacterReferenceStart),
            Some(c) => if c == 'x' || c == 'X' {
                self.advance(1);
                self.push_temp(c);
                self.switch_state(State::HexadecimalCharacterReferenceStart);
            } else {
                self.switch_state(State::DecimalCharacterReferenceStart);
            },
        }
    }

    pub(crate) fn hexadecimal_character_reference_start(&mut self)
        requires
            old(self)@.wf(),
        ensures
            final(self)@ == hexadecimal_character_reference_start(old(self)@),
            final(self)@.wf(),
    {
        match self.peek() {
            None => {
                self.error(ParseError::AbsenceOfDigitsInNumericCharacterReference);
                self.flush_reference();
                self.switch_state(self.return_state());
            },
            Some(c) => if is_hex_digit(c) {
                self.switch_state(State::HexadecimalCharacterReference);
            } else {
                self.error(ParseError::AbsenceOfDigitsInNumericCharacterReference);
                self.flush_reference();
                self.switch_state(self.return_state());
            },
        }
    }

    pub(crate) fn decimal_character_reference_start(&mut self)
        requires
            old(self)@.wf(),
        ensures
            final(self)@ == decimal_character_reference_start(old(self)@),
            final(self)@.wf(),
    {
        match self.peek() {
            None => {
                self.error(ParseError::AbsenceOfDigitsInNumericCharacterReference);
                self.flush_reference();
                self.switch_state(self.return_state());
            },
            Some(c) => if is_digit(c) {
                self.switch_state(State::DecimalCharacterReference);
            } else {
                self.error(ParseError::AbsenceOfDigitsInNumericCharacterReference);
                self.flush_reference();
                self.switch_state(self.return_state());
            },
        }
    }

    pub(crate) fn hexadecimal_character_reference(&mut self)
        requires
            old(self)@.wf(),
        ensures
            final(self)@ == hexadecimal_character_reference(old(self)@),
            final(self)@.wf(),
    {
        match self.peek() {
            None => {
                self.error(ParseError::MissingSemicolonAfterCharacterReference);
                self.switch_state(State::NumericCharacterReferenceEnd);
            },
            Some(c) => if is_hex_digit(c) {
                self.advance(1);
                self.add_digit(16, digit_value(c));
            } else if c == ';' {
                self.advance(1);
                self.switch_state(State::NumericCharacterReferenceEnd);
            } else {
                self.error(ParseError::MissingSemicolonAfterCharacterReference);
                self.switch_state(State::NumericCharacterReferenceEnd);
            },
        }
    }

    pub(crate) fn decimal_character_reference(&mut self)
        requires
            old(self)@.wf(),
        ensures
            final(self)@ == decimal_character_reference(old(self)@),
            final(self)@.wf(),
    {
        match self.peek() {
            None => {
                self.error(ParseError::MissingSemicolonAfterCharacterReference);
                self.switch_state(State::NumericCharacterReferenceEnd);
            },
            Some(c) => if is_digit(c) {
                self.advance(1);
                self.add_digit(10, digit_value(c));
            } else if c == ';' {
                self.advance(1);
                self.switch_state(State::NumericCharacterReferenceEnd);
            } else {
                self.error(ParseError::MissingSemicolonAfterCharacterReference);
                self.switch_state(State::NumericCharacterReferenceEnd);
            },
        }
    }
}

} // verus!
