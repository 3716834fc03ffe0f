//! The text states: data, RCDATA, RAWTEXT, script data and PLAINTEXT.
//!
//! A null character in text is an error and is emitted as it is.

use vstd::prelude::*;
use crate::model::Machine;
use crate::parser::Parser;
use crate::tokenizer::{ParseError, State};

verus! {

/// Text in which markup and character references are recognized.
pub open spec fn data(m: Machine) -> Machine {
    match m.peek() {
        None => m.finish(),
        Some(c) => if c == '&' {
            m.advance(1).returning_to(State::Data).switch(State::CharacterReference)
        } else if c == '<' {
            m.advance(1).switch(State::TagOpen)
        } else if c == '\0' {
            m.advance(1).error(ParseError::UnexpectedNullCharacter).emit_char(c)
        } else {
            m.advance(1).emit_char(c)
        },
    }
}

/// The text of an element such as `title`: character references are
/// recognized, and of markup only the element's end tag.
pub open spec fn rcdata(m: Machine) -> Machine {
    match m.peek() {
        None => m.finish(),
        Some(c) => if c == '&' {
            m.advance(1).returning_to(State::Rcdata).switch(State::CharacterReference)
        } else if c == '<' {
            m.advance(1).switch(State::RcdataLessThanSign)
        } else if c == '\0' {
            m.advance(1).error(ParseError::UnexpectedNullCharacter).emit_char(c)
        } else {
            m.advance(1).emit_char(c)
        },
    }
}

/// The text of an element such as `style`: nothing is recognized but the
/// element's end tag.
pub open spec fn rawtext(m: Machine) -> Machine {
    match m.peek() {
        None => m.finish(),
        Some(c) => if c == '<' {
            m.advance(1).switch(State::RawtextLessThanSign)
        } else if c == '\0' {
            m.advance(1).error(ParseError::UnexpectedNullCharacter).emit_char(c)
        } else {
            m.advance(1).emit_char(c)
        },
    }
}

/// The text of a script: nothing is recognized but the end tag and the
/// escapes that begin with `<!--`.
pub open spec fn script_data(m: Machine) -> Machine {
    match m.peek() {
        None => m.finish(),
        Some(c) => if c == '<' {
            m.advance(1).switch(State::ScriptDataLessThanSign)
        } else if c == '\0' {
            m.advance(1).error(ParseError::UnexpectedNullCharacter).emit_char(c)
        } else {
            m.advance(1).emit_char(c)
        },
    }
}

/// Text to the end of the input.
pub open spec fn plaintext(m: Machine) -> Machine {
    match m.peek() {
        None => m.finish(),
        Some(c) => if c == '\0' {
            m.advance(1).error(ParseError::UnexpectedNullCharacter).emit_char(c)
        } else {
            m.advance(1).emit_char(c)
        },
    }
}

impl Parser {
    pub(crate) fn data(&mut self)
        requires
            old(self)@.wf(),
        ensures
            final(self)@ == data(old(self)@),
            final(self)@.wf(),
    {
        match self.peek() {
            None => self.finish(),
            Some(c) => if c == '&' {
                self.advance(1);
                self.returning_to(State::Data);
                self.switch_state(State::CharacterReference);
            } else if c == '<' {
                self.advance(1);
                self.switch_state(State::TagOpen);
            } else if c == '\0' {
                self.advance(1);
                self.error(ParseError::UnexpectedNullCharacter);
                self.emit_char(c);
            } else {
                self.advance(1);
                self.emit_char(c);
            },
        }
    }

    pub(crate) fn rcdata(&mut self)
        requires
            old(self)@.wf(),
        ensures
            final(self)@ == rcdata(old(self)@),
            final(self)@.wf(),
    {
        match self.peek() {
            None => self.finish(),
            Some(c) => if c == '&' {
                self.advance(1);
                self.returning_to(State::Rcdata);
                self.switch_state(State::CharacterReference);
            } else if c == '<' {
                self.advance(1);
                self.switch_state(State::RcdataLessThanSign);
            } else if c == '\0' {
                self.advance(1);
                self.error(ParseError::UnexpectedNullCharacter);
                self.emit_char(c);
            } else {
                self.advance(1);
                self.emit_char(c);
            },
        }
    }

    pub(crate) fn rawtext(&mut self)
        requires
            old(self)@.wf(),
        ensures
            final(self)@ == rawtext(old(self)@),
            final(self)@.wf(),
    {
        match self.peek() {
            None => self.finish(),
            Some(c) => if c == '<' {
                self.advance(1);
                self.switch_state(State::RawtextLessThanSign);
            } else if c == '\0' {
                self.advance(1);
                self.error(ParseError::UnexpectedNullCharacter);
                self.emit_char(c);
            } else {
                self.advance(1);
                self.emit_char(c);
            },
        }
    }

    pub(crate) fn script_data(&mut self)
        requires
            old(self)@.wf(),
        ensures
            final(self)@ == script_data(old(self)@),
            final(self)@.wf(),
    {
        match self.peek() {
            None => self.finish(),
            Some(c) => if c == '<' {
                self.advance(1);
                self.switch_state(State::ScriptDataLessThanSign);
            } else if c == '\0' {
                self.advance(1);
                self.error(ParseError::UnexpectedNullCharacter);
                self.emit_char(c);
            } else {
                self.advance(1);
                self.emit_char(c);
            },
        }
    }

    pub(crate) fn plaintext(&mut self)
        requires
            old(self)@.wf(),
        ensures
            final(self)@ == plaintext(old(self)@),
            final(self)@.wf(),
    {
        match self.peek() {
            None => self.finish(),
            Some(c) => if c == '\0' {
                self.advance(1);
                self.error(ParseError::UnexpectedNullCharacter);
                self.emit_char(c);
            } else {
                self.advance(1);
                self.emit_char(c);
            },
        }
    }
}

} // verus!
