//! The states that read a CDATA section.

use vstd::prelude::*;
use crate::model::Machine;
use crate::parser::Parser;
use crate::tokenizer::{ParseError, State};

verus! {

/// In a CDATA section: text to the next `]]>`.
pub open spec fn cdata_section(m: Machine) -> Machine {
    match m.peek() {
        None => m.error(ParseError::EofInCdata).finish(),
        Some(c) => if c == ']' {
            m.advance(1).switch(State::CDataSectionBracket)
        } else {
            m.advance(1).emit_char(c)
        },
    }
}

/// After `]` in a CDATA section.
pub open spec fn cdata_section_bracket(m: Machine) -> Machine {
    match m.peek() {
        None => m.emit_char(']').switch(State::CDataSection),
        Some(c) => if c == ']' {
            m.advance(1).switch(State::CDataSectionEnd)
        } else {
            m.emit_char(']').switch(State::CDataSection)
        },
    }
}

/// After `]]` in a CDATA section.
pub open spec fn cdata_section_end(m: Machine) -> Machine {
    match m.peek() {
        None => m.emit_char(']').emit_char(']').switch(State::CDataSection),
        Some(c) => if c == ']' {
            m.advance(1).emit_char(']')
        } else if c == '>' {
            m.advance(1).switch(State::Data)
        } else {
            m.emit_char(']').emit_char(']').switch(State::CDataSection)
        },
    }
}

impl Parser {
    pub(crate) fn cdata_section(&mut self)
        requires
            old(self)@.wf(),
        ensures
            final(self)@ == cdata_section(old(self)@),
            final(self)@.wf(),
    {
        match self.peek() {
            None => {
                self.error(ParseError::EofInCdata);
                self.finish();
            },
            Some(c) => if c == ']' {
                self.advance(1);
                self.switch_state(State::CDataSectionBracket);
            } else {
                self.advance(1);
                self.emit_char(c);
            },
        }
    }

    pub(crate) fn cdata_section_bracket(&mut self)
        requires
            old(self)@.wf(),
        ensures
            final(self)@ == cdata_section_bracket(old(self)@),
            final(self)@.wf(),
    {
        match self.peek() {
            None => {
                self.emit_char(']');
                self.switch_state(State::CDataSection);
            },
            Some(c) => if c == ']' {
                self.advance(1);
                self.switch_state(State::CDataSectionEnd);
            } else {
                self.emit_char(']');
                self.switch_state(State::CDataSection);
            },
        }
    }

    pub(crate) fn cdata_section_end(&mut self)
        requires
            old(self)@.wf(),
        ensures
            final(self)@ == cdata_section_end(old(self)@),
            final(self)@.wf(),
    {
        match self.peek() {
            None => {
                self.emit_char(']');
                self.emit_char(']');
                self.switch_state(State::CDataSection);
            },
            Some(c) => if c == ']' {
                self.advance(1);
                self.emit_char(']');
            } else if c == '>' {
                self.advance(1);
                self.switch_state(State::Data);
            } else {
                self.emit_char(']');
                self.emit_char(']');
                self.switch_state(State::CDataSection);
            },
        }
    }
}

} // verus!
