//! The states that read the attributes of a tag.

use vstd::prelude::*;
use crate::chars::is_whitespace;
use crate::model::Machine;
use crate::parser::Parser;
use crate::tokenizer::{ParseError, State};

verus! {

/// Before an attribute's name. A `=` here begins a name, as its first character.
pub open spec fn before_attribute_name(m: Machine) -> Machine {
    match m.peek() {
        None => m.switch(State::AfterAttributeName),
        Some(c) => if is_whitespace(c) {
            m.advance(1)
        } else if c == '/' || c == '>' {
            m.switch(State::AfterAttributeName)
        } else if c == '=' {
            m
                .advance(1)
                .error(ParseError::UnexpectedEqualsSignBeforeAttributeName)
                .new_attribute()
                .push_attr_name(c)
                .switch(State::AttributeName)
        } else {
            m.new_attribute().switch(State::AttributeName)
        },
    }
}

/// In the name of an attribute.
pub open spec fn attribute_name(m: Machine) -> Machine {
    match m.peek() {
        None => m.switch(State::AfterAttributeName),
        Some(c) => if is_whitespace(c) || c == '/' || c == '>' {
            m.switch(State::AfterAttributeName)
        } else if c == '=' {
            m.advance(1).switch(State::BeforeAttributeValue)
        } else if c == '\0' {
            m.advance(1).error(ParseError::UnexpectedNullCharacter).push_attr_name('\u{FFFD}')
        } else if c == '"' || c == '\'' || c == '<' {
            m.advance(1).error(ParseError::UnexpectedCharacterInAttributeName).push_attr_name(c)
        } else {
            m.advance(1).push_attr_name(c)
        },
    }
}

/// After the name of an attribute, before `=` or the next attribute.
pub open spec fn after_attribute_name(m: Machine) -> Machine {
    match m.peek() {
        None => m.error(ParseError::EofInTag).finish(),
        Some(c) => if is_whitespace(c) {
            m.advance(1)
        } else if c == '/' {
            m.advance(1).switch(State::SelfClosingStartTag)
        } else if c == '=' {
            m.advance(1).switch(State::BeforeAttributeValue)
        } else if c == '>' {
            m.advance(1).emit_tag()
        } else {
            m.new_attribute().switch(State::AttributeName)
        },
    }
}

/// After `=`, before the value of an attribute.
pub open spec fn before_attribute_value(m: Machine) -> Machine {
    match m.peek() {
        None => m.switch(State::AttributeValueUnquoted),
        Some(c) => if is_whitespace(c) {
            m.advance(1)
        } else if c == '"' {
            m.advance(1).switch(State::AttributeValueDoubleQuoted)
        } else if c == '\'' {
            m.advance(1).switch(State::AttributeValueSingleQuoted)
        } else if c == '>' {
            m.advance(1).error(ParseError::MissingAttributeValue).emit_tag()
        } else {
            m.switch(State::AttributeValueUnquoted)
        },
    }
}

/// In a value between double quotes.
pub open spec fn attribute_value_double_quoted(m: Machine) -> Machine {
    match m.peek() {
        None => m.error(ParseError::EofInTag).finish(),
        Some(c) => if c == '"' {
            m.advance(1).switch(State::AfterAttributeValueQuoted)
        } else if c == '&' {
            m
                .advance(1)
                .returning_to(State::AttributeValueDoubleQuoted)
                .switch(State::CharacterReference)
        } else if c == '\0' {
            m.advance(1).error(ParseError::UnexpectedNullCharacter).push_attr_value('\u{FFFD}')
        } else {
            m.advance(1).push_attr_value(c)
        },
    }
}

/// In a value between single quotes.
pub open spec fn attribute_value_single_quoted(m: Machine) -> Machine {
    match m.peek() {
        None => m.error(ParseError::EofInTag).finish(),
        Some(c) => if c == '\'' {
            m.advance(1).switch(State::AfterAttributeValueQuoted)
        } else if c == '&' {
            m
                .advance(1)
                .returning_to(State::AttributeValueSingleQuoted)
                .switch(State::CharacterReference)
        } else if c == '\0' {
            m.advance(1).error(ParseError::UnexpectedNullCharacter).push_attr_value('\u{FFFD}')
        } else {
            m.advance(1).push_attr_value(c)
        },
    }
}

/// In a value without quotes.
pub open spec fn attribute_value_unquoted(m: Machine) -> Machine {
    match m.peek() {
        None => m.error(ParseError::EofInTag).finish(),
        Some(c) => if is_whitespace(c) {
            m.advance(1).switch(State::BeforeAttributeName)
        } else if c == '&' {
            m
                .advance(1)
                .returning_to(State::AttributeValueUnquoted)
                .switch(State::CharacterReference)
        } else if c == '>' {
            m.advance(1).emit_tag()
        } else if c == '\0' {
            m.advance(1).error(ParseError::UnexpectedNullCharacter).push_attr_value('\u{FFFD}')
        } else if c == '"' || c == '\'' || c == '<' || c == '=' || c == '`' {
            m
                .advance(1)
                .error(ParseError::UnexpectedCharacterInUnquotedAttributeValue)
                .push_attr_value(c)
        } else {
            m.advance(1).push_attr_value(c)
        },
    }
}

/// After the closing quote of a value.
pub open spec fn after_attribute_value_quoted(m: Machine) -> Machine {
    match m.peek() {
        None => m.error(ParseError::EofInTag).finish(),
        Some(c) => if is_whitespace(c) {
            m.advance(1).switch(State::BeforeAttributeName)
        } else if c == '/' {
            m.advance(1).switch(State::SelfClosingStartTag)
        } else if c == '>' {
            m.advance(1).emit_tag()
        } else {
            m
                .error(ParseError::MissingWhitespaceBetweenAttributes)
                .switch(State::BeforeAttributeName)
        },
    }
}

/// After `/` in a tag.
pub open spec fn self_closing_start_tag(m: Machine) -> Machine {
    match m.peek() {
        None => m.error(ParseError::EofInTag).finish(),
        Some(c) => if c == '>' {
            m.advance(1).set_self_closing().emit_tag()
        } else {
            m.error(ParseError::UnexpectedSolidusInTag).switch(State::BeforeAttributeName)
        },
    }
}

impl Parser {
    pub(crate) fn before_attribute_name(&mut self)
        requires
            old(self)@.wf(),
        ensures
            final(self)@ == before_attribute_name(old(self)@),
            final(self)@.wf(),
    {
        match self.peek() {
            None => self.switch_state(State::AfterAttributeName),
            Some(c) => if is_whitespace(c) {
                self.advance(1);
            } else if c == '/' || c == '>' {
                self.switch_state(State::AfterAttributeName);
            } else if c == '=' {
                self.advance(1);
                self.error(ParseError::UnexpectedEqualsSignBeforeAttributeName);
                self.new_attribute();
                self.push_attr_name(c);
                self.switch_state(State::AttributeName);
            } else {
                self.new_attribute();
                self.switch_state(State::AttributeName);
            },
        }
    }

    pub(crate) fn attribute_name(&mut self)
        requires
            old(self)@.wf(),
        ensures
            final(self)@ == attribute_name(old(self)@),
            final(self)@.wf(),
    {
        match self.peek() {
            None => self.switch_state(State::AfterAttributeName),
            Some(c) => if is_whitespace(c) || c == '/' || c == '>' {
                self.switch_state(State::AfterAttributeName);
            } else if c == '=' {
                self.advance(1);
                self.switch_state(State::BeforeAttributeValue);
            } else if c == '\0' {
                self.advance(1);
                self.error(ParseError::UnexpectedNullCharacter);
                self.push_attr_name('\u{FFFD}');
            } else if c == '"' || c == '\'' || c == '<' {
                self.advance(1);
                self.error(ParseError::UnexpectedCharacterInAttributeName);
                self.push_attr_name(c);
            } else {
                self.advance(1);
                self.push_attr_name(c);
            },
        }
    }

    pub(crate) fn after_attribute_name(&mut self)
        requires
            old(self)@.wf(),
        ensures
            final(self)@ == after_attribute_name(old(self)@),
            final(self)@.wf(),
    {
        match self.peek() {
            None => {
                self.error(ParseError::EofInTag);
                self.finish();
            },
            Some(c) => if is_whitespace(c) {
                self.advance(1);
            } else if c == '/' {
                self.advance(1);
                self.switch_state(State::SelfClosingStartTag);
            } else if c == '=' {
                self.advance(1);
                self.switch_state(State::BeforeAttributeValue);
            } else if c == '>' {
                self.advance(1);
                self.emit_tag();
            } else {
                self.new_attribute();
                self.switch_state(State::AttributeName);
            },
        }
    }

    pub(crate) fn before_attribute_value(&mut self)
        requires
            old(self)@.wf(),
        ensures
            final(self)@ == before_attribute_value(old(self)@),
            final(self)@.wf(),
    {
        match self.peek() {
            None => self.switch_state(State::AttributeValueUnquoted),
            Some(c) => if is_whitespace(c) {
                self.advance(1);
            } else if c == '"' {
                self.advance(1);
                self.switch_state(State::AttributeValueDoubleQuoted);
            } else if c == '\'' {
                self.advance(1);
                self.switch_state(State::AttributeValueSingleQuoted);
            } else if c == '>' {
                self.advance(1);
                self.error(ParseError::MissingAttributeValue);
                self.emit_tag();
            } else {
                self.switch_state(State::AttributeValueUnquoted);
            },
        }
    }

    pub(crate) fn attribute_value_double_quoted(&mut self)
        requires
            old(self)@.wf(),
        ensures
            final(self)@ == attribute_value_double_quoted(old(self)@),
            final(self)@.wf(),
    {
        match self.peek() {
            None => {
                self.error(ParseError::EofInTag);
                self.finish();
            },
            Some(c) => if c == '"' {
                self.advance(1);
                self.switch_state(State::AfterAttributeValueQuoted);
            } else if c == '&' {
                self.advance(1);
                self.returning_to(State::AttributeValueDoubleQuoted);
                self.switch_state(State::CharacterReference);
            } else if c == '\0' {
                self.advance(1);
                self.error(ParseError::UnexpectedNullCharacter);
                self.push_attr_value('\u{FFFD}');
            } else {
                self.advance(1);
                self.push_attr_value(c);
            },
        }
    }

    pub(crate) fn attribute_value_single_quoted(&mut self)
        requires
            old(self)@.wf(),
        ensures
            final(self)@ == attribute_value_single_quoted(old(self)@),
            final(self)@.wf(),
    {
        match self.peek() {
            None => {
                self.error(ParseError::EofInTag);
                self.finish();
            },
            Some(c) => if c == '\'' {
                self.advance(1);
                self.switch_state(State::AfterAttributeValueQuoted);
            } else if c == '&' {
                self.advance(1);
                self.returning_to(State::AttributeValueSingleQuoted);
                self.switch_state(State::CharacterReference);
            } else if c == '\0' {
                self.advance(1);
                self.error(ParseError::UnexpectedNullCharacter);
                self.push_attr_value('\u{FFFD}');
            } else {
                self.advance(1);
                self.push_attr_value(c);
            },
        }
    }

    pub(crate) fn attribute_value_unquoted(&mut self)
        requires
            old(self)@.wf(),
        ensures
            final(self)@ == attribute_value_unquoted(old(self)@),
            final(self)@.wf(),
    {
        match self.peek() {
            None => {
                self.error(ParseError::EofInTag);
                self.finish();
            },
            Some(c) => if is_whitespace(c) {
                self.advance(1);
                self.switch_state(State::BeforeAttributeName);
            } else if c == '&' {
                self.advance(1);
                self.returning_to(State::AttributeValueUnquoted);
                self.switch_state(State::CharacterReference);
            } else if c == '>' {
                self.advance(1);
                self.emit_tag();
            } else if c == '\0' {
                self.advance(1);
                self.error(ParseError::UnexpectedNullCharacter);
                self.push_attr_value('\u{FFFD}');
            } else if c == '"' || c == '\'' || c == '<' || c == '=' || c == '`' {
                self.advance(1);
                self.error(ParseError::UnexpectedCharacterInUnquotedAttributeValue);
                self.push_attr_value(c);
            } else {
                self.advance(1);
                self.push_attr_value(c);
            },
        }
    }

    pub(crate) fn after_attribute_value_quoted(&mut self)
        requires
            old(self)@.wf(),
        ensures
            final(self)@ == after_attribute_value_quoted(old(self)@),
            final(self)@.wf(),
    {
        match self.peek() {
            None => {
                self.error(ParseError::EofInTag);
                self.finish();
            },
            Some(c) => if is_whitespace(c) {
                self.advance(1);
                self.switch_state(State::BeforeAttributeName);
            } else if c == '/' {
                self.advance(1);
                self.switch_state(State::SelfClosingStartTag);
            } else if c == '>' {
                self.advance(1);
                self.emit_tag();
            } else {
                self.error(ParseError::MissingWhitespaceBetweenAttributes);
                self.switch_state(State::BeforeAttributeName);
            },
        }
    }

    pub(crate) fn self_closing_start_tag(&mut self)
        requires
            old(self)@.wf(),
        ensures
            final(self)@ == self_closing_start_tag(old(self)@),
            final(self)@.wf(),
    {
        match self.peek() {
            None => {
                self.error(ParseError::EofInTag);
                self.finish();
            },
            Some(c) => if c == '>' {
                self.advance(1);
                self.set_self_closing();
                self.emit_tag();
            } else {
                self.error(ParseError::UnexpectedSolidusInTag);
                self.switch_state(State::BeforeAttributeName);
            },
        }
    }
}

} // verus!
