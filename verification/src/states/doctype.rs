//! The states that read a doctype.

use vstd::prelude::*;
use crate::chars::is_whitespace;
use crate::model::Machine;
use crate::parser::Parser;
use crate::tokenizer::{ParseError, State};

verus! {

/// After `<!DOCTYPE`.
pub open spec fn doctype(m: Machine) -> Machine {
    match m.peek() {
        None => m
            .error(ParseError::EofInDoctype)
            .new_doctype()
            .force_quirks()
            .emit_doctype()
            .finish(),
        Some(c) => if is_whitespace(c) {
            m.advance(1).switch(State::BeforeDoctypeName)
        } else if c == '>' {
            m.switch(State::BeforeDoctypeName)
        } else {
            m
                .error(ParseError::MissingWhitespaceBeforeDoctypeName)
                .switch(State::BeforeDoctypeName)
        },
    }
}

/// Before the name of a doctype.
pub open spec fn before_doctype_name(m: Machine) -> Machine {
    match m.peek() {
        None => m
            .error(ParseError::EofInDoctype)
            .new_doctype()
            .force_quirks()
            .emit_doctype()
            .finish(),
        Some(c) => if is_whitespace(c) {
            m.advance(1)
        } else if c == '\0' {
            m
                .advance(1)
                .error(ParseError::UnexpectedNullCharacter)
                .new_doctype()
                .push_doctype_name('\u{FFFD}')
                .switch(State::DoctypeName)
        } else if c == '>' {
            m
                .advance(1)
                .error(ParseError::MissingDoctypeName)
                .new_doctype()
                .force_quirks()
                .switch(State::Data)
                .emit_doctype()
        } else {
            m.advance(1).new_doctype().push_doctype_name(c).switch(State::DoctypeName)
        },
    }
}

/// In the name of a doctype.
pub open spec fn doctype_name(m: Machine) -> Machine {
    match m.peek() {
        None => m.error(ParseError::EofInDoctype).force_quirks().emit_doctype().finish(),
        Some(c) => if is_whitespace(c) {
            m.advance(1).switch(State::AfterDoctypeName)
        } else if c == '>' {
            m.advance(1).switch(State::Data).emit_doctype()
        } else if c == '\0' {
            m
                .advance(1)
                .error(ParseError::UnexpectedNullCharacter)
                .push_doctype_name('\u{FFFD}')
        } else {
            m.advance(1).push_doctype_name(c)
        },
    }
}

/// After the name of a doctype, before `PUBLIC`, `SYSTEM` or `>`.
pub open spec fn after_doctype_name(m: Machine) -> Machine {
    match m.peek() {
        None => m.error(ParseError::EofInDoctype).force_quirks().emit_doctype().finish(),
        Some(c) => if is_whitespace(c) {
            m.advance(1)
        } else if c == '>' {
            m.advance(1).switch(State::Data).emit_doctype()
        } else if m.looking_at_public() {
            m.advance(6).switch(State::AfterDoctypePublicKeyword)
        } else if m.looking_at_system() {
            m.advance(6).switch(State::AfterDoctypeSystemKeyword)
        } else {
            m
                .error(ParseError::InvalidCharacterSequenceAfterDoctypeName)
                .force_quirks()
                .switch(State::BogusDoctype)
        },
    }
}

/// After `PUBLIC`.
pub open spec fn after_doctype_public_keyword(m: Machine) -> Machine {
    match m.peek() {
        None => m.error(ParseError::EofInDoctype).force_quirks().emit_doctype().finish(),
        Some(c) => if is_whitespace(c) {
            m.advance(1).switch(State::BeforeDoctypePublicIdentifier)
        } else if c == '"' {
            m
                .advance(1)
                .error(ParseError::MissingWhitespaceAfterDoctypePublicKeyword)
                .start_public_id()
                .switch(State::DoctypePublicIdentifierDoubleQuoted)
        } else if c == '\'' {
            m
                .advance(1)
                .error(ParseError::MissingWhitespaceAfterDoctypePublicKeyword)
                .start_public_id()
                .switch(State::DoctypePublicIdentifierSingleQuoted)
        } else if c == '>' {
            m
                .advance(1)
                .error(ParseError::MissingDoctypePublicIdentifier)
                .force_quirks()
                .switch(State::Data)
                .emit_doctype()
        } else {
            m
                .error(ParseError::MissingQuoteBeforeDoctypePublicIdentifier)
                .force_quirks()
                .switch(State::BogusDoctype)
        },
    }
}

/// Before the public identifier.
pub open spec fn before_doctype_public_identifier(m: Machine) -> Machine {
    match m.peek() {
        None => m.error(ParseError::EofInDoctype).force_quirks().emit_doctype().finish(),
        Some(c) => if is_whitespace(c) {
            m.advance(1)
        } else if c == '"' {
            m.advance(1).start_public_id().switch(State::DoctypePublicIdentifierDoubleQuoted)
        } else if c == '\'' {
            m.advance(1).start_public_id().switch(State::DoctypePublicIdentifierSingleQuoted)
        } else if c == '>' {
            m
                .advance(1)
                .error(ParseError::MissingDoctypePublicIdentifier)
                .force_quirks()
                .switch(State::Data)
                .emit_doctype()
        } else {
            m
                .error(ParseError::MissingQuoteBeforeDoctypePublicIdentifier)
                .force_quirks()
                .switch(State::BogusDoctype)
        },
    }
}

/// In a public identifier between double quotes.
pub open spec fn doctype_public_identifier_double_quoted(m: Machine) -> Machine {
    match m.peek() {
        None => m.error(ParseError::EofInDoctype).force_quirks().emit_doctype().finish(),
        Some(c) => if c == '"' {
            m.advance(1).switch(State::AfterDoctypePublicIdentifier)
        } else if c == '\0' {
            m.advance(1).error(ParseError::UnexpectedNullCharacter).push_public_id('\u{FFFD}')
        } else if c == '>' {
            m
                .advance(1)
                .error(ParseError::AbruptDoctypePublicIdentifier)
                .force_quirks()
                .switch(State::Data)
                .emit_doctype()
        } else {
            m.advance(1).push_public_id(c)
        },
    }
}

/// In a public identifier between single quotes.
pub open spec fn doctype_public_identifier_single_quoted(m: Machine) -> Machine {
    match m.peek() {
        None => m.error(ParseError::EofInDoctype).force_quirks().emit_doctype().finish(),
        Some(c) => if c == '\'' {
            m.advance(1).switch(State::AfterDoctypePublicIdentifier)
        } else if c == '\0' {
            m.advance(1).error(ParseError::UnexpectedNullCharacter).push_public_id('\u{FFFD}')
        } else if c == '>' {
            m
                .advance(1)
                .error(ParseError::AbruptDoctypePublicIdentifier)
                .force_quirks()
                .switch(State::Data)
                .emit_doctype()
        } else {
            m.advance(1).push_public_id(c)
        },
    }
}

/// After the public identifier.
pub open spec fn after_doctype_public_identifier(m: Machine) -> Machine {
    match m.peek() {
        None => m.error(ParseError::EofInDoctype).force_quirks().emit_doctype().finish(),
        Some(c) => if is_whitespace(c) {
            m.advance(1).switch(State::BetweenDoctypePublicAndSystemIdentifiers)
        } else if c == '>' {
            m.advance(1).switch(State::Data).emit_doctype()
        } else if c == '"' {
            m
                .advance(1)
                .error(ParseError::MissingWhitespaceBetweenDoctypePublicAndSystemIdentifiers)
                .start_system_id()
                .switch(State::DoctypeSystemIdentifierDoubleQuoted)
        } else if c == '\'' {
            m
                .advance(1)
                .error(ParseError::MissingWhitespaceBetweenDoctypePublicAndSystemIdentifiers)
                .start_system_id()
                .switch(State::DoctypeSystemIdentifierSingleQuoted)
        } else {
            m
                .error(ParseError::MissingQuoteBeforeDoctypeSystemIdentifier)
                .force_quirks()
                .switch(State::BogusDoctype)
        },
    }
}

/// Between the public and the system identifier.
pub open spec fn between_doctype_public_and_system_identifiers(m: Machine) -> Machine {
    match m.peek() {
        None => m.error(ParseError::EofInDoctype).force_quirks().emit_doctype().finish(),
        Some(c) => if is_whitespace(c) {
            m.advance(1)
        } else if c == '>' {
            m.advance(1).switch(State::Data).emit_doctype()
        } else if c == '"' {
            m.advance(1).start_system_id().switch(State::DoctypeSystemIdentifierDoubleQuoted)
        } else if c == '\'' {
            m.advance(1).start_system_id().switch(State::DoctypeSystemIdentifierSingleQuoted)
        } else {
            m
                .error(ParseError::MissingQuoteBeforeDoctypeSystemIdentifier)
                .force_quirks()
                .switch(State::BogusDoctype)
        },
    }
}

/// After `SYSTEM`.
pub open spec fn after_doctype_system_keyword(m: Machine) -> Machine {
    match m.peek() {
        None => m.error(ParseError::EofInDoctype).force_quirks().emit_doctype().finish(),
        Some(c) => if is_whitespace(c) {
            m.advance(1).switch(State::BeforeDoctypeSystemIdentifier)
        } else if c == '"' {
            m
                .advance(1)
                .error(ParseError::MissingWhitespaceAfterDoctypeSystemKeyword)
                .start_system_id()
                .switch(State::DoctypeSystemIdentifierDoubleQuoted)
        } else if c == '\'' {
            m
                .advance(1)
                .error(ParseError::MissingWhitespaceAfterDoctypeSystemKeyword)
                .start_system_id()
                .switch(State::DoctypeSystemIdentifierSingleQuoted)
        } else if c == '>' {
            m
                .advance(1)
                .error(ParseError::MissingDoctypeSystemIdentifier)
                .force_quirks()
                .switch(State::Data)
                .emit_doctype()
        } else {
            m
                .error(ParseError::MissingQuoteBeforeDoctypeSystemIdentifier)
                .force_quirks()
                .switch(State::BogusDoctype)
        },
    }
}

/// Before the system identifier.
pub open spec fn before_doctype_system_identifier(m: Machine) -> Machine {
    match m.peek() {
        None => m.error(ParseError::EofInDoctype).force_quirks().emit_doctype().finish(),
        Some(c) => if is_whitespace(c) {
            m.advance(1)
        } else if c == '"' {
            m.advance(1).start_system_id().switch(State::DoctypeSystemIdentifierDoubleQuoted)
        } else if c == '\'' {
            m.advance(1).start_system_id().switch(State::DoctypeSystemIdentifierSingleQuoted)
        } else if c == '>' {
            m
                .advance(1)
                .error(ParseError::MissingDoctypeSystemIdentifier)
                .force_quirks()
                .switch(State::Data)
                .emit_doctype()
        } else {
            m
                .error(ParseError::MissingQuoteBeforeDoctypeSystemIdentifier)
                .force_quirks()
                .switch(State::BogusDoctype)
        },
    }
}

/// In a system identifier between double quotes.
pub open spec fn doctype_system_identifier_double_quoted(m: Machine) -> Machine {
    match m.peek() {
        None => m.error(ParseError::EofInDoctype).force_quirks().emit_doctype().finish(),
        Some(c) => if c == '"' {
            m.advance(1).switch(State::AfterDoctypeSystemIdentifier)
        } else if c == '\0' {
            m.advance(1).error(ParseError::UnexpectedNullCharacter).push_system_id('\u{FFFD}')
        } else if c == '>' {
            m
                .advance(1)
                .error(ParseError::AbruptDoctypeSystemIdentifier)
                .force_quirks()
                .switch(State::Data)
                .emit_doctype()
        } else {
            m.advance(1).push_system_id(c)
        },
    }
}

/// In a system identifier between single quotes.
pub open spec fn doctype_system_identifier_single_quoted(m: Machine) -> Machine {
    match m.peek() {
        None => m.error(ParseError::EofInDoctype).force_quirks().emit_doctype().finish(),
        Some(c) => if c == '\'' {
            m.advance(1).switch(State::AfterDoctypeSystemIdentifier)
        } else if c == '\0' {
            m.advance(1).error(ParseError::UnexpectedNullCharacter).push_system_id('\u{FFFD}')
        } else if c == '>' {
            m
                .advance(1)
                .error(ParseError::AbruptDoctypeSystemIdentifier)
                .force_quirks()
                .switch(State::Data)
                .emit_doctype()
        } else {
            m.advance(1).push_system_id(c)
        },
    }
}

/// After the system identifier.
pub open spec fn after_doctype_system_identifier(m: Machine) -> Machine {
    match m.peek() {
        None => m.error(ParseError::EofInDoctype).force_quirks().emit_doctype().finish(),
        Some(c) => if is_whitespace(c) {
            m.advance(1)
        } else if c == '>' {
            m.advance(1).switch(State::Data).emit_doctype()
        } else {
            m
                .error(ParseError::UnexpectedCharacterAfterDoctypeSystemIdentifier)
                .switch(State::BogusDoctype)
        },
    }
}

/// In a doctype that went wrong, to the next `>`.
pub open spec fn bogus_doctype(m: Machine) -> Machine {
    match m.peek() {
        None => m.emit_doctype().finish(),
        Some(c) => if c == '>' {
            m.advance(1).switch(State::Data).emit_doctype()
        } else if c == '\0' {
            m.advance(1).error(ParseError::UnexpectedNullCharacter)
        } else {
            m.advance(1)
        },
    }
}

impl Parser {
    pub(crate) fn doctype(&mut self)
        requires
            old(self)@.wf(),
        ensures
            final(self)@ == doctype(old(self)@),
            final(self)@.wf(),
    {
        match self.peek() {
            None => {
                self.error(ParseError::EofInDoctype);
                self.new_doctype();
                self.force_quirks();
                self.emit_doctype();
                self.finish();
            },
            Some(c) => if is_whitespace(c) {
                self.advance(1);
                self.switch_state(State::BeforeDoctypeName);
            } else if c == '>' {
                self.switch_state(State::BeforeDoctypeName);
            } else {
                self.error(ParseError::MissingWhitespaceBeforeDoctypeName);
                self.switch_state(State::BeforeDoctypeName);
            },
        }
    }

    pub(crate) fn before_doctype_name(&mut self)
        requires
            old(self)@.wf(),
        ensures
            final(self)@ == before_doctype_name(old(self)@),
            final(self)@.wf(),
    {
        match self.peek() {
            None => {
                self.error(ParseError::EofInDoctype);
                self.new_doctype();
                self.force_quirks();
                self.emit_doctype();
                self.finish();
            },
            Some(c) => if is_whitespace(c) {
                self.advance(1);
            } else if c == '\0' {
                self.advance(1);
                self.error(ParseError::UnexpectedNullCharacter);
                self.new_doctype();
                self.push_doctype_name('\u{FFFD}');
                self.switch_state(State::DoctypeName);
            } else if c == '>' {
                self.advance(1);
                self.error(ParseError::MissingDoctypeName);
                self.new_doctype();
                self.force_quirks();
                self.switch_state(State::Data);
                self.emit_doctype();
            } else {
                self.advance(1);
                self.new_doctype();
                self.push_doctype_name(c);
                self.switch_state(State::DoctypeName);
            },
        }
    }

    pub(crate) fn doctype_name(&mut self)
        requires
            old(self)@.wf(),
        ensures
            final(self)@ == doctype_name(old(self)@),
            final(self)@.wf(),
    {
        match self.peek() {
            None => {
                self.error(ParseError::EofInDoctype);
                self.force_quirks();
                self.emit_doctype();
                self.finish();
            },
            Some(c) => if is_whitespace(c) {
                self.advance(1);
                self.switch_state(State::AfterDoctypeName);
            } else if c == '>' {
                self.advance(1);
                self.switch_state(State::Data);
                self.emit_doctype();
            } else if c == '\0' {
                self.advance(1);
                self.error(ParseError::UnexpectedNullCharacter);
                self.push_doctype_name('\u{FFFD}');
            } else {
                self.advance(1);
                self.push_doctype_name(c);
            },
        }
    }

    pub(crate) fn after_doctype_name(&mut self)
        requires
            old(self)@.wf(),
        ensures
            final(self)@ == after_doctype_name(old(self)@),
            final(self)@.wf(),
    {
        match self.peek() {
            None => {
                self.error(ParseError::EofInDoctype);
                self.force_quirks();
                self.emit_doctype();
                self.finish();
            },
            Some(c) => if is_whitespace(c) {
                self.advance(1);
            } else if c == '>' {
                self.advance(1);
                self.switch_state(State::Data);
                self.emit_doctype();
            } else if self.looking_at_public() {
                self.advance(6);
                self.switch_state(State::AfterDoctypePublicKeyword);
            } else if self.looking_at_system() {
                self.advance(6);
                self.switch_state(State::AfterDoctypeSystemKeyword);
            } else {
                self.error(ParseError::InvalidCharacterSequenceAfterDoctypeName);
                self.force_quirks();
                self.switch_state(State::BogusDoctype);
            },
        }
    }

    pub(crate) fn after_doctype_public_keyword(&mut self)
        requires
            old(self)@.wf(),
        ensures
            final(self)@ == after_doctype_public_keyword(old(self)@),
            final(self)@.wf(),
    {
        match self.peek() {
            None => {
                self.error(ParseError::EofInDoctype);
                self.force_quirks();
                self.emit_doctype();
                self.finish();
            },
            Some(c) => if is_whitespace(c) {
                self.advance(1);
                self.switch_state(State::BeforeDoctypePublicIdentifier);
            } else if c == '"' {
                self.advance(1);
                self.error(ParseError::MissingWhitespaceAfterDoctypePublicKeyword);
                self.start_public_id();
                self.switch_state(State::DoctypePublicIdentifierDoubleQuoted);
            } else if c == '\'' {
                self.advance(1);
                self.error(ParseError::MissingWhitespaceAfterDoctypePublicKeyword);
                self.start_public_id();
                self.switch_state(State::DoctypePublicIdentifierSingleQuoted);
            } else if c == '>' {
                self.advance(1);
                self.error(ParseError::MissingDoctypePublicIdentifier);
                self.force_quirks();
                self.switch_state(State::Data);
                self.emit_doctype();
            } else {
                self.error(ParseError::MissingQuoteBeforeDoctypePublicIdentifier);
                self.force_quirks();
                self.switch_state(State::BogusDoctype);
            },
        }
    }

    pub(crate) fn before_doctype_public_identifier(&mut self)
        requires
            old(self)@.wf(),
        ensures
            final(self)@ == before_doctype_public_identifier(old(self)@),
            final(self)@.wf(),
    {
        match self.peek() {
            None => {
                self.error(ParseError::EofInDoctype);
                self.force_quirks();
                self.emit_doctype();
                self.finish();
            },
            Some(c) => if is_whitespace(c) {
                self.advance(1);
            } else if c == '"' {
                self.advance(1);
                self.start_public_id();
                self.switch_state(State::DoctypePublicIdentifierDoubleQuoted);
            } else if c == '\'' {
                self.advance(1);
                self.start_public_id();
                self.switch_state(State::DoctypePublicIdentifierSingleQuoted);
            } else if c == '>' {
                self.advance(1);
                self.error(ParseError::MissingDoctypePublicIdentifier);
                self.force_quirks();
                self.switch_state(State::Data);
                self.emit_doctype();
            } else {
                self.error(ParseError::MissingQuoteBeforeDoctypePublicIdentifier);
                self.force_quirks();
                self.switch_state(State::BogusDoctype);
            },
        }
    }

    pub(crate) fn doctype_public_identifier_double_quoted(&mut self)
        requires
            old(self)@.wf(),
        ensures
            final(self)@ == doctype_public_identifier_double_quoted(old(self)@),
            final(self)@.wf(),
    {
        match self.peek() {
            None => {
                self.error(ParseError::EofInDoctype);
                self.force_quirks();
                self.emit_doctype();
                self.finish();
            },
            Some(c) => if c == '"' {
                self.advance(1);
                self.switch_state(State::AfterDoctypePublicIdentifier);
            } else if c == '\0' {
                self.advance(1);
                self.error(ParseError::UnexpectedNullCharacter);
                self.push_public_id('\u{FFFD}');
            } else if c == '>' {
                self.advance(1);
                self.error(ParseError::AbruptDoctypePublicIdentifier);
                self.force_quirks();
                self.switch_state(State::Data);
                self.emit_doctype();
            } else {
                self.advance(1);
                self.push_public_id(c);
            },
        }
    }

    pub(crate) fn doctype_public_identifier_single_quoted(&mut self)
        requires
            old(self)@.wf(),
        ensures
            final(self)@ == doctype_public_identifier_single_quoted(old(self)@),
            final(self)@.wf(),
    {
        match self.peek() {
            None => {
                self.error(ParseError::EofInDoctype);
                self.force_quirks();
                self.emit_doctype();
                self.finish();
            },
            Some(c) => if c == '\'' {
                self.advance(1);
                self.switch_state(State::AfterDoctypePublicIdentifier);
            } else if c == '\0' {
                self.advance(1);
                self.error(ParseError::UnexpectedNullCharacter);
                self.push_public_id('\u{FFFD}');
            } else if c == '>' {
                self.advance(1);
                self.error(ParseError::AbruptDoctypePublicIdentifier);
                self.force_quirks();
                self.switch_state(State::Data);
                self.emit_doctype();
            } else {
                self.advance(1);
                self.push_public_id(c);
            },
        }
    }

    pub(crate) fn after_doctype_public_identifier(&mut self)
        requires
            old(self)@.wf(),
        ensures
            final(self)@ == after_doctype_public_identifier(old(self)@),
            final(self)@.wf(),
    {
        match self.peek() {
            None => {
                self.error(ParseError::EofInDoctype);
                self.force_quirks();
                self.emit_doctype();
                self.finish();
            },
            Some(c) => if is_whitespace(c) {
                self.advance(1);
                self.switch_state(State::BetweenDoctypePublicAndSystemIdentifiers);
            } else if c == '>' {
                self.advance(1);
                self.switch_state(State::Data);
                self.emit_doctype();
            } else if c == '"' {
                self.advance(1);
                self.error(ParseError::MissingWhitespaceBetweenDoctypePublicAndSystemIdentifiers);
                self.start_system_id();
                self.switch_state(State::DoctypeSystemIdentifierDoubleQuoted);
            } else if c == '\'' {
                self.advance(1);
                self.error(ParseError::MissingWhitespaceBetweenDoctypePublicAndSystemIdentifiers);
                self.start_system_id();
                self.switch_state(State::DoctypeSystemIdentifierSingleQuoted);
            } else {
                self.error(ParseError::MissingQuoteBeforeDoctypeSystemIdentifier);
                self.force_quirks();
                self.switch_state(State::BogusDoctype);
            },
        }
    }

    pub(crate) fn between_doctype_public_and_system_identifiers(&mut self)
        requires
            old(self)@.wf(),
        ensures
            final(self)@ == between_doctype_public_and_system_identifiers(old(self)@),
            final(self)@.wf(),
    {
        match self.peek() {
            None => {
                self.error(ParseError::EofInDoctype);
                self.force_quirks();
                self.emit_doctype();
                self.finish();
            },
            Some(c) => if is_whitespace(c) {
                self.advance(1);
            } else if c == '>' {
                self.advance(1);
                self.switch_state(State::Data);
                self.emit_doctype();
            } else if c == '"' {
                self.advance(1);
                self.start_system_id();
                self.switch_state(State::DoctypeSystemIdentifierDoubleQuoted);
            } else if c == '\'' {
                self.advance(1);
                self.start_system_id();
                self.switch_state(State::DoctypeSystemIdentifierSingleQuoted);
            } else {
                self.error(ParseError::MissingQuoteBeforeDoctypeSystemIdentifier);
                self.force_quirks();
                self.switch_state(State::BogusDoctype);
            },
        }
    }

    pub(crate) fn after_doctype_system_keyword(&mut self)
        requires
            old(self)@.wf(),
        ensures
            final(self)@ == after_doctype_system_keyword(old(self)@),
            final(self)@.wf(),
    {
        match self.peek() {
            None => {
                self.error(ParseError::EofInDoctype);
                self.force_quirks();
                self.emit_doctype();
                self.finish();
            },
            Some(c) => if is_whitespace(c) {
                self.advance(1);
                self.switch_state(State::BeforeDoctypeSystemIdentifier);
            } else if c == '"' {
                self.advance(1);
                self.error(ParseError::MissingWhitespaceAfterDoctypeSystemKeyword);
                self.start_system_id();
                self.switch_state(State::DoctypeSystemIdentifierDoubleQuoted);
            } else if c == '\'' {
                self.advance(1);
                self.error(ParseError::MissingWhitespaceAfterDoctypeSystemKeyword);
                self.start_system_id();
                self.switch_state(State::DoctypeSystemIdentifierSingleQuoted);
            } else if c == '>' {
                self.advance(1);
                self.error(ParseError::MissingDoctypeSystemIdentifier);
                self.force_quirks();
                self.switch_state(State::Data);
                self.emit_doctype();
            } else {
                self.error(ParseError::MissingQuoteBeforeDoctypeSystemIdentifier);
                self.force_quirks();
                self.switch_state(State::BogusDoctype);
            },
        }
    }

    pub(crate) fn before_doctype_system_identifier(&mut self)
        requires
            old(self)@.wf(),
        ensures
            final(self)@ == before_doctype_system_identifier(old(self)@),
            final(self)@.wf(),
    {
        match self.peek() {
            None => {
                self.error(ParseError::EofInDoctype);
                self.force_quirks();
                self.emit_doctype();
                self.finish();
            },
            Some(c) => if is_whitespace(c) {
                self.advance(1);
            } else if c == '"' {
                self.advance(1);
                self.start_system_id();
                self.switch_state(State::DoctypeSystemIdentifierDoubleQuoted);
            } else if c == '\'' {
                self.advance(1);
                self.start_system_id();
                self.switch_state(State::DoctypeSystemIdentifierSingleQuoted);
            } else if c == '>' {
                self.advance(1);
                self.error(ParseError::MissingDoctypeSystemIdentifier);
                self.force_quirks();
                self.switch_state(State::Data);
                self.emit_doctype();
            } else {
                self.error(ParseError::MissingQuoteBeforeDoctypeSystemIdentifier);
                self.force_quirks();
                self.switch_state(State::BogusDoctype);
            },
        }
    }

    pub(crate) fn doctype_system_identifier_double_quoted(&mut self)
        requires
            old(self)@.wf(),
        ensures
            final(self)@ == doctype_system_identifier_double_quoted(old(self)@),
            final(self)@.wf(),
    {
        match self.peek() {
            None => {
                self.error(ParseError::EofInDoctype);
                self.force_quirks();
                self.emit_doctype();
                self.finish();
            },
            Some(c) => if c == '"' {
                self.advance(1);
                self.switch_state(State::AfterDoctypeSystemIdentifier);
            } else if c == '\0' {
                self.advance(1);
                self.error(ParseError::UnexpectedNullCharacter);
                self.push_system_id('\u{FFFD}');
            } else if c == '>' {
                self.advance(1);
                self.error(ParseError::AbruptDoctypeSystemIdentifier);
                self.force_quirks();
                self.switch_state(State::Data);
                self.emit_doctype();
            } else {
                self.advance(1);
                self.push_system_id(c);
            },
        }
    }

    pub(crate) fn doctype_system_identifier_single_quoted(&mut self)
        requires
            old(self)@.wf(),
        ensures
            final(self)@ == doctype_system_identifier_single_quoted(old(self)@),
            final(self)@.wf(),
    {
        match self.peek() {
            None => {
                self.error(ParseError::EofInDoctype);
                self.force_quirks();
                self.emit_doctype();
                self.finish();
            },
            Some(c) => if c == '\'' {
                self.advance(1);
                self.switch_state(State::AfterDoctypeSystemIdentifier);
            } else if c == '\0' {
                self.advance(1);
                self.error(ParseError::UnexpectedNullCharacter);
                self.push_system_id('\u{FFFD}');
            } else if c == '>' {
                self.advance(1);
                self.error(ParseError::AbruptDoctypeSystemIdentifier);
                self.force_quirks();
                self.switch_state(State::Data);
                self.emit_doctype();
            } else {
                self.advance(1);
                self.push_system_id(c);
            },
        }
    }

    pub(crate) fn after_doctype_system_identifier(&mut self)
        requires
            old(self)@.wf(),
        ensures
            final(self)@ == after_doctype_system_identifier(old(self)@),
            final(self)@.wf(),
    {
        match self.peek() {
            None => {
                self.error(ParseError::EofInDoctype);
                self.force_quirks();
                self.emit_doctype();
                self.finish();
            },
            Some(c) => if is_whitespace(c) {
                self.advance(1);
            } else if c == '>' {
                self.advance(1);
                self.switch_state(State::Data);
                self.emit_doctype();
            } else {
                self.error(ParseError::UnexpectedCharacterAfterDoctypeSystemIdentifier);
                self.switch_state(State::BogusDoctype);
            },
        }
    }

    pub(crate) fn bogus_doctype(&mut self)
        requires
            old(self)@.wf(),
        ensures
            final(self)@ == bogus_doctype(old(self)@),
            final(self)@.wf(),
    {
        match self.peek() {
            None => {
                self.emit_doctype();
                self.finish();
            },
            Some(c) => if c == '>' {
                self.advance(1);
                self.switch_state(State::Data);
                self.emit_doctype();
            } else if c == '\0' {
                self.advance(1);
                self.error(ParseError::UnexpectedNullCharacter);
            } else {
                self.advance(1);
            },
        }
    }
}

} // verus!
