//! The states that look for the end tag of an element whose content is text:
//! after `<`, after `</`, and in the name, for RCDATA, RAWTEXT, script data and
//! escaped script data alike.

use vstd::prelude::*;
use crate::chars::{is_alpha, is_whitespace};
use crate::model::{Machine, TagKind};
use crate::parser::Parser;
use crate::tokenizer::State;

verus! {

/// After `<` in RCDATA or RAWTEXT: `text` is the state that the text is read in,
/// `open` the state that follows `</`.
pub open spec fn text_less_than_sign(m: Machine, text: State, open: State) -> Machine {
    match m.peek() {
        None => m.emit_char('<').switch(text),
        Some(c) => if c == '/' {
            m.advance(1).clear_temp().switch(open)
        } else {
            m.emit_char('<').switch(text)
        },
    }
}

/// After `<` in script data.
pub open spec fn script_data_less_than_sign(m: Machine) -> Machine {
    match m.peek() {
        None => m.emit_char('<').switch(State::ScriptData),
        Some(c) => if c == '/' {
            m.advance(1).clear_temp().switch(State::ScriptDataEndTagOpen)
        } else if c == '!' {
            m.advance(1).switch(State::ScriptDataEscapeStart).emit_char('<').emit_char('!')
        } else {
            m.emit_char('<').switch(State::ScriptData)
        },
    }
}

/// After `</` in a text state: `name` is the state that reads the end tag's name.
pub open spec fn text_end_tag_open(m: Machine, text: State, name: State) -> Machine {
    match m.peek() {
        None => m.emit_char('<').emit_char('/').switch(text),
        Some(c) => if is_alpha(c) {
            m.new_tag(TagKind::End).switch(name)
        } else {
            m.emit_char('<').emit_char('/').switch(text)
        },
    }
}

/// The name of an end tag in a text state. A character that ends the name ends
/// it only where the end tag is appropriate; otherwise all that was read since
/// `<` was text, and is emitted as such.
pub open spec fn text_end_tag_name(m: Machine, text: State) -> Machine {
    match m.peek() {
        None => m.emit_char('<').emit_char('/').emit_temp().switch(text),
        Some(c) => if is_whitespace(c) && m.appropriate_end_tag() {
            m.advance(1).switch(State::BeforeAttributeName)
        } else if c == '/' && m.appropriate_end_tag() {
            m.advance(1).switch(State::SelfClosingStartTag)
        } else if c == '>' && m.appropriate_end_tag() {
            m.advance(1).emit_tag()
        } else if is_alpha(c) {
            m.advance(1).push_tag_name(c).push_temp(c)
        } else {
            m.emit_char('<').emit_char('/').emit_temp().switch(text)
        },
    }
}

impl Parser {
    pub(crate) fn text_less_than_sign(&mut self, text: State, open: State)
        requires
            old(self)@.wf(),
        ensures
            final(self)@ == text_less_than_sign(old(self)@, text, open),
            final(self)@.wf(),
    {
        match self.peek() {
            None => {
                self.emit_char('<');
                self.switch_state(text);
            },
            Some(c) => if c == '/' {
                self.advance(1);
                self.clear_temp();
                self.switch_state(open);
            } else {
                self.emit_char('<');
                self.switch_state(text);
            },
        }
    }

    pub(crate) fn script_data_less_than_sign(&mut self)
        requires
            old(self)@.wf(),
        ensures
            final(self)@ == script_data_less_than_sign(old(self)@),
            final(self)@.wf(),
    {
        match self.peek() {
            None => {
                self.emit_char('<');
                self.switch_state(State::ScriptData);
            },
            Some(c) => if c == '/' {
                self.advance(1);
                self.clear_temp();
                self.switch_state(State::ScriptDataEndTagOpen);
            } else if c == '!' {
                self.advance(1);
                self.switch_state(State::ScriptDataEscapeStart);
                self.emit_char('<');
                self.emit_char('!');
            } else {
                self.emit_char('<');
                self.switch_state(State::ScriptData);
            },
        }
    }

    pub(crate) fn text_end_tag_open(&mut self, text: State, name: State)
        requires
            old(self)@.wf(),
        ensures
            final(self)@ == text_end_tag_open(old(self)@, text, name),
            final(self)@.wf(),
    {
        match self.peek() {
            None => {
                self.emit_char('<');
                self.emit_char('/');
                self.switch_state(text);
            },
            Some(c) => if is_alpha(c) {
                self.new_tag(TagKind::End);
                self.switch_state(name);
            } else {
                self.emit_char('<');
                self.emit_char('/');
                self.switch_state(text);
            },
        }
    }

    pub(crate) fn text_end_tag_name(&mut self, text: State)
        requires
            old(self)@.wf(),
        ensures
            final(self)@ == text_end_tag_name(old(self)@, text),
            final(self)@.wf(),
    {
        match self.peek() {
            None => {
                self.emit_char('<');
                self.emit_char('/');
                self.emit_temp();
                self.switch_state(text);
            },
            Some(c) => if is_whitespace(c) && self.appropriate_end_tag() {
                self.advance(1);
                self.switch_state(State::BeforeAttributeName);
            } else if c == '/' && self.appropriate_end_tag() {
                self.advance(1);
                self.switch_state(State::SelfClosingStartTag);
            } else if c == '>' && self.appropriate_end_tag() {
                self.advance(1);
                self.emit_tag();
            } else if is_alpha(c) {
                self.advance(1);
                self.push_tag_name(c);
                self.push_temp(c);
            } else {
                self.emit_char('<');
                self.emit_char('/');
                self.emit_temp();
                self.switch_state(text);
            },
        }
    }
}

} // verus!
