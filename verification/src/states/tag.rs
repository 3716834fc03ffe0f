//! The states that open a tag and read its name.

use vstd::prelude::*;
use crate::chars::{is_alpha, is_whitespace};
use crate::model::{Machine, TagKind};
use crate::parser::Parser;
use crate::tokenizer::{ParseError, State};

verus! {

/// After `<` in the data state.
pub open spec fn tag_open(m: Machine) -> Machine {
    match m.peek() {
        None => m.error(ParseError::EofBeforeTagName).emit_char('<').finish(),
        Some(c) => if c == '!' {
            m.advance(1).switch(State::MarkupDeclarationOpen)
        } else if c == '/' {
            m.advance(1).switch(State::EndTagOpen)
        } else if is_alpha(c) {
            m.new_tag(TagKind::Start).switch(State::TagName)
        } else if c == '?' {
            m
                .error(ParseError::UnexpectedQuestionMarkInsteadOfTagName)
                .new_comment()
                .switch(State::BogusComment)
        } else {
            m
                .error(ParseError::InvalidFirstCharacterOfTagName)
                .emit_char('<')
                .switch(State::Data)
        },
    }
}

/// After `</` in the data state.
pub open spec fn end_tag_open(m: Machine) -> Machine {
    match m.peek() {
        None => m.error(ParseError::EofBeforeTagName).emit_char('<').emit_char('/').finish(),
        Some(c) => if is_alpha(c) {
            m.new_tag(TagKind::End).switch(State::TagName)
        } else if c == '>' {
            m.advance(1).error(ParseError::MissingEndTagName).switch(State::Data)
        } else {
            m
                .error(ParseError::InvalidFirstCharacterOfTagName)
                .new_comment()
                .switch(State::BogusComment)
        },
    }
}

/// In the name of a tag.
pub open spec fn tag_name(m: Machine) -> Machine {
    match m.peek() {
        None => m.error(ParseError::EofInTag).finish(),
        Some(c) => if is_whitespace(c) {
            m.advance(1).switch(State::BeforeAttributeName)
        } else if c == '/' {
            m.advance(1).switch(State::SelfClosingStartTag)
        } else if c == '>' {
            m.advance(1).emit_tag()
        } else if c == '\0' {
            m.advance(1).error(ParseError::UnexpectedNullCharacter).push_tag_name('\u{FFFD}')
        } else {
            m.advance(1).push_tag_name(c)
        },
    }
}

impl Parser {
    pub(crate) fn tag_open(&mut self)
        requires
            old(self)@.wf(),
        ensures
            final(self)@ == tag_open(old(self)@),
            final(self)@.wf(),
    {
        match self.peek() {
            None => {
                self.error(ParseError::EofBeforeTagName);
                self.emit_char('<');
                self.finish();
            },
            Some(c) => if c == '!' {
                self.advance(1);
                self.switch_state(State::MarkupDeclarationOpen);
            } else if c == '/' {
                self.advance(1);
                self.switch_state(State::EndTagOpen);
            } else if is_alpha(c) {
                self.new_tag(TagKind::Start);
                self.switch_state(State::TagName);
            } else if c == '?' {
                self.error(ParseError::UnexpectedQuestionMarkInsteadOfTagName);
                self.new_comment();
                self.switch_state(State::BogusComment);
            } else {
                self.error(ParseError::InvalidFirstCharacterOfTagName);
                self.emit_char('<');
                self.switch_state(State::Data);
            },
        }
    }

    pub(crate) fn end_tag_open(&mut self)
        requires
            old(self)@.wf(),
        ensures
            final(self)@ == end_tag_open(old(self)@),
            final(self)@.wf(),
    {
        match self.peek() {
            None => {
                self.error(ParseError::EofBeforeTagName);
                self.emit_char('<');
                self.emit_char('/');
                self.finish();
            },
            Some(c) => if is_alpha(c) {
                self.new_tag(TagKind::End);
                self.switch_state(State::TagName);
            } else if c == '>' {
                self.advance(1);
                self.error(ParseError::MissingEndTagName);
                self.switch_state(State::Data);
            } else {
                self.error(ParseError::InvalidFirstCharacterOfTagName);
                self.new_comment();
                self.switch_state(State::BogusComment);
            },
        }
    }

    pub(crate) fn tag_name(&mut self)
        requires
            old(self)@.wf(),
        ensures
            final(self)@ == tag_name(old(self)@),
            final(self)@.wf(),
    {
        match self.peek() {
            None => {
                self.error(ParseError::EofInTag);
                self.finish();
            },
            Some(c) => if is_whitespace(c) {
                self.advance(1);
                self.switch_state(State::BeforeAttributeName);
            } else if c == '/' {
                self.advance(1);
                self.switch_state(State::SelfClosingStartTag);
            } else if c == '>' {
                self.advance(1);
                self.emit_tag();
            } else if c == '\0' {
                self.advance(1);
                self.error(ParseError::UnexpectedNullCharacter);
                self.push_tag_name('\u{FFFD}');
            } else {
                self.advance(1);
                self.push_tag_name(c);
            },
        }
    }
}

} // verus!
