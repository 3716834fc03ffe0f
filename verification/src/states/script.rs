//! The script data escape ladder: what `<!--` and a nested `<script>` do to the
//! text of a script.

use vstd::prelude::*;
use crate::chars::{is_alpha, is_whitespace, lower};
use crate::model::Machine;
use crate::parser::Parser;
use crate::tokenizer::{ParseError, State};

verus! {

/// After `<!` in script data.
pub open spec fn script_data_escape_start(m: Machine) -> Machine {
    match m.peek() {
        None => m.switch(State::ScriptData),
        Some(c) => if c == '-' {
            m.advance(1).switch(State::ScriptDataEscapeStartDash).emit_char('-')
        } else {
            m.switch(State::ScriptData)
        },
    }
}

/// After `<!-` in script data.
pub open spec fn script_data_escape_start_dash(m: Machine) -> Machine {
    match m.peek() {
        None => m.switch(State::ScriptData),
        Some(c) => if c == '-' {
            m.advance(1).switch(State::ScriptDataEscapedDashDash).emit_char('-')
        } else {
            m.switch(State::ScriptData)
        },
    }
}

/// In script data after `<!--`.
pub open spec fn script_data_escaped(m: Machine) -> Machine {
    match m.peek() {
        None => m.error(ParseError::EofInScriptHtmlCommentLikeText).finish(),
        Some(c) => if c == '-' {
            m.advance(1).switch(State::ScriptDataEscapedDash).emit_char('-')
        } else if c == '<' {
            m.advance(1).switch(State::ScriptDataEscapedLessThanSign)
        } else if c == '\0' {
            m.advance(1).error(ParseError::UnexpectedNullCharacter).emit_char(c)
        } else {
            m.advance(1).emit_char(c)
        },
    }
}

/// After `-` in escaped script data.
pub open spec fn script_data_escaped_dash(m: Machine) -> Machine {
    match m.peek() {
        None => m.error(ParseError::EofInScriptHtmlCommentLikeText).finish(),
        Some(c) => if c == '-' {
            m.advance(1).switch(State::ScriptDataEscapedDashDash).emit_char('-')
        } else if c == '<' {
            m.advance(1).switch(State::ScriptDataEscapedLessThanSign)
        } else if c == '\0' {
            m
                .advance(1)
                .error(ParseError::UnexpectedNullCharacter)
                .switch(State::ScriptDataEscaped)
                .emit_char(c)
        } else {
            m.advance(1).switch(State::ScriptDataEscaped).emit_char(c)
        },
    }
}

/// After `--` in escaped script data, which `>` ends.
pub open spec fn script_data_escaped_dash_dash(m: Machine) -> Machine {
    match m.peek() {
        None => m.error(ParseError::EofInScriptHtmlCommentLikeText).finish(),
        Some(c) => if c == '-' {
            m.advance(1).emit_char('-')
        } else if c == '<' {
            m.advance(1).switch(State::ScriptDataEscapedLessThanSign)
        } else if c == '>' {
            m.advance(1).switch(State::ScriptData).emit_char('>')
        } else if c == '\0' {
            m
                .advance(1)
                .error(ParseError::UnexpectedNullCharacter)
                .switch(State::ScriptDataEscaped)
                .emit_char(c)
        } else {
            m.advance(1).switch(State::ScriptDataEscaped).emit_char(c)
        },
    }
}

/// After `<` in escaped script data.
pub open spec fn script_data_escaped_less_than_sign(m: Machine) -> Machine {
    match m.peek() {
        None => m.emit_char('<').switch(State::ScriptDataEscaped),
        Some(c) => if c == '/' {
            m.advance(1).clear_temp().switch(State::ScriptDataEscapedEndTagOpen)
        } else if is_alpha(c) {
            m.clear_temp().emit_char('<').switch(State::ScriptDataDoubleEscapeStart)
        } else {
            m.emit_char('<').switch(State::ScriptDataEscaped)
        },
    }
}

/// The word after `<` or `</` in escaped script data. Where it is `script`, in any
/// case, the escape deepens or ends: `matched` is the state to go to then,
/// `otherwise` the state to stay in.
pub open spec fn script_data_double_escape(
    m: Machine,
    matched: State,
    otherwise: State,
) -> Machine {
    match m.peek() {
        None => m.switch(otherwise),
        Some(c) => if (is_whitespace(c) || c == '/' || c == '>') && m.temp_is("script") {
            m.advance(1).switch(matched).emit_char(c)
        } else if is_whitespace(c) || c == '/' || c == '>' {
            m.advance(1).switch(otherwise).emit_char(c)
        } else if is_alpha(c) {
            m.advance(1).push_temp(lower(c)).emit_char(c)
        } else {
            m.switch(otherwise)
        },
    }
}

/// In escaped script data after a nested `<script`.
pub open spec fn script_data_double_escaped(m: Machine) -> Machine {
    match m.peek() {
        None => m.error(ParseError::EofInScriptHtmlCommentLikeText).finish(),
        Some(c) => if c == '-' {
            m.advance(1).switch(State::ScriptDataDoubleEscapedDash).emit_char('-')
        } else if c == '<' {
            m.advance(1).switch(State::ScriptDataDoubleEscapedLessThanSign).emit_char('<')
        } else if c == '\0' {
            m.advance(1).error(ParseError::UnexpectedNullCharacter).emit_char(c)
        } else {
            m.advance(1).emit_char(c)
        },
    }
}

/// After `-` in doubly escaped script data.
pub open spec fn script_data_double_escaped_dash(m: Machine) -> Machine {
    match m.peek() {
        None => m.error(ParseError::EofInScriptHtmlCommentLikeText).finish(),
        Some(c) => if c == '-' {
            m.advance(1).switch(State::ScriptDataDoubleEscapedDashDash).emit_char('-')
        } else if c == '<' {
            m.advance(1).switch(State::ScriptDataDoubleEscapedLessThanSign).emit_char('<')
        } else if c == '\0' {
            m
                .advance(1)
                .error(ParseError::UnexpectedNullCharacter)
                .switch(State::ScriptDataDoubleEscaped)
                .emit_char(c)
        } else {
            m.advance(1).switch(State::ScriptDataDoubleEscaped).emit_char(c)
        },
    }
}

/// After `--` in doubly escaped script data, which `>` ends.
pub open spec fn script_data_double_escaped_dash_dash(m: Machine) -> Machine {
    match m.peek() {
        None => m.error(ParseError::EofInScriptHtmlCommentLikeText).finish(),
        Some(c) => if c == '-' {
            m.advance(1).emit_char('-')
        } else if c == '<' {
            m.advance(1).switch(State::ScriptDataDoubleEscapedLessThanSign).emit_char('<')
        } else if c == '>' {
            m.advance(1).switch(State::ScriptData).emit_char('>')
        } else if c == '\0' {
            m
                .advance(1)
                .error(ParseError::UnexpectedNullCharacter)
                .switch(State::ScriptDataDoubleEscaped)
                .emit_char(c)
        } else {
            m.advance(1).switch(State::ScriptDataDoubleEscaped).emit_char(c)
        },
    }
}

/// After `<` in doubly escaped script data.
pub open spec fn script_data_double_escaped_less_than_sign(m: Machine) -> Machine {
    match m.peek() {
        None => m.switch(State::ScriptDataDoubleEscaped),
        Some(c) => if c == '/' {
            m.advance(1).clear_temp().switch(State::ScriptDataDoubleEscapeEnd).emit_char('/')
        } else {
            m.switch(State::ScriptDataDoubleEscaped)
        },
    }
}

impl Parser {
    pub(crate) fn script_data_escape_start(&mut self)
        requires
            old(self)@.wf(),
        ensures
            final(self)@ == script_data_escape_start(old(self)@),
            final(self)@.wf(),
    {
        match self.peek() {
            None => self.switch_state(State::ScriptData),
            Some(c) => if c == '-' {
                self.advance(1);
                self.switch_state(State::ScriptDataEscapeStartDash);
                self.emit_char('-');
            } else {
                self.switch_state(State::ScriptData);
            },
        }
    }

    pub(crate) fn script_data_escape_start_dash(&mut self)
        requires
            old(self)@.wf(),
        ensures
            final(self)@ == script_data_escape_start_dash(old(self)@),
            final(self)@.wf(),
    {
        match self.peek() {
            None => self.switch_state(State::ScriptData),
            Some(c) => if c == '-' {
                self.advance(1);
                self.switch_state(State::ScriptDataEscapedDashDash);
                self.emit_char('-');
            } else {
                self.switch_state(State::ScriptData);
            },
        }
    }

    pub(crate) fn script_data_escaped(&mut self)
        requires
            old(self)@.wf(),
        ensures
            final(self)@ == script_data_escaped(old(self)@),
            final(self)@.wf(),
    {
        match self.peek() {
            None => {
                self.error(ParseError::EofInScriptHtmlCommentLikeText);
                self.finish();
            },
            Some(c) => if c == '-' {
                self.advance(1);
                self.switch_state(State::ScriptDataEscapedDash);
                self.emit_char('-');
            } else if c == '<' {
                self.advance(1);
                self.switch_state(State::ScriptDataEscapedLessThanSign);
            } else if c == '\0' {
                self.advance(1);
                self.error(ParseError::UnexpectedNullCharacter);
                self.emit_char(c);
            } else {
                self.advance(1);
                self.emit_char(c);
            },
        }
    }

    pub(crate) fn script_data_escaped_dash(&mut self)
        requires
            old(self)@.wf(),
        ensures
            final(self)@ == script_data_escaped_dash(old(self)@),
            final(self)@.wf(),
    {
        match self.peek() {
            None => {
                self.error(ParseError::EofInScriptHtmlCommentLikeText);
                self.finish();
            },
            Some(c) => if c == '-' {
                self.advance(1);
                self.switch_state(State::ScriptDataEscapedDashDash);
                self.emit_char('-');
            } else if c == '<' {
                self.advance(1);
                self.switch_state(State::ScriptDataEscapedLessThanSign);
            } else if c == '\0' {
                self.advance(1);
                self.error(ParseError::UnexpectedNullCharacter);
                self.switch_state(State::ScriptDataEscaped);
                self.emit_char(c);
            } else {
                self.advance(1);
                self.switch_state(State::ScriptDataEscaped);
                self.emit_char(c);
            },
        }
    }

    pub(crate) fn script_data_escaped_dash_dash(&mut self)
        requires
            old(self)@.wf(),
        ensures
            final(self)@ == script_data_escaped_dash_dash(old(self)@),
            final(self)@.wf(),
    {
        match self.peek() {
            None => {
                self.error(ParseError::EofInScriptHtmlCommentLikeText);
                self.finish();
            },
            Some(c) => if c == '-' {
                self.advance(1);
                self.emit_char('-');
            } else if c == '<' {
                self.advance(1);
                self.switch_state(State::ScriptDataEscapedLessThanSign);
            } else if c == '>' {
                self.advance(1);
                self.switch_state(State::ScriptData);
                self.emit_char('>');
            } else if c == '\0' {
                self.advance(1);
                self.error(ParseError::UnexpectedNullCharacter);
                self.switch_state(State::ScriptDataEscaped);
                self.emit_char(c);
            } else {
                self.advance(1);
                self.switch_state(State::ScriptDataEscaped);
                self.emit_char(c);
            },
        }
    }

    pub(crate) fn script_data_escaped_less_than_sign(&mut self)
        requires
            old(self)@.wf(),
        ensures
            final(self)@ == script_data_escaped_less_than_sign(old(self)@),
            final(self)@.wf(),
    {
        match self.peek() {
            None => {
                self.emit_char('<');
                self.switch_state(State::ScriptDataEscaped);
            },
            Some(c) => if c == '/' {
                self.advance(1);
                self.clear_temp();
                self.switch_state(State::ScriptDataEscapedEndTagOpen);
            } else if is_alpha(c) {
                self.clear_temp();
                self.emit_char('<');
                self.switch_state(State::ScriptDataDoubleEscapeStart);
            } else {
                self.emit_char('<');
                self.switch_state(State::ScriptDataEscaped);
            },
        }
    }

    pub(crate) fn script_data_double_escape(&mut self, matched: State, otherwise: State)
        requires
            old(self)@.wf(),
        ensures
            final(self)@ == script_data_double_escape(old(self)@, matched, otherwise),
            final(self)@.wf(),
    {
        match self.peek() {
            None => self.switch_state(otherwise),
            Some(c) => if (is_whitespace(c) || c == '/' || c == '>') && self.temp_is("script") {
                self.advance(1);
                self.switch_state(matched);
                self.emit_char(c);
            } else if is_whitespace(c) || c == '/' || c == '>' {
                self.advance(1);
                self.switch_state(otherwise);
                self.emit_char(c);
            } else if is_alpha(c) {
                self.advance(1);
                self.push_temp(lower(c));
                self.emit_char(c);
            } else {
                self.switch_state(otherwise);
            },
        }
    }

    pub(crate) fn script_data_double_escaped(&mut self)
        requires
            old(self)@.wf(),
        ensures
            final(self)@ == script_data_double_escaped(old(self)@),
            final(self)@.wf(),
    {
        match self.peek() {
            None => {
                self.error(ParseError::EofInScriptHtmlCommentLikeText);
                self.finish();
            },
            Some(c) => if c == '-' {
                self.advance(1);
                self.switch_state(State::ScriptDataDoubleEscapedDash);
                self.emit_char('-');
            } else if c == '<' {
                self.advance(1);
                self.switch_state(State::ScriptDataDoubleEscapedLessThanSign);
                self.emit_char('<');
            } else if c == '\0' {
                self.advance(1);
                self.error(ParseError::UnexpectedNullCharacter);
                self.emit_char(c);
            } else {
                self.advance(1);
                self.emit_char(c);
            },
        }
    }

    pub(crate) fn script_data_double_escaped_dash(&mut self)
        requires
            old(self)@.wf(),
        ensures
            final(self)@ == script_data_double_escaped_dash(old(self)@),
            final(self)@.wf(),
    {
        match self.peek() {
            None => {
                self.error(ParseError::EofInScriptHtmlCommentLikeText);
                self.finish();
            },
            Some(c) => if c == '-' {
                self.advance(1);
                self.switch_state(State::ScriptDataDoubleEscapedDashDash);
                self.emit_char('-');
            } else if c == '<' {
                self.advance(1);
                self.switch_state(State::ScriptDataDoubleEscapedLessThanSign);
                self.emit_char('<');
            } else if c == '\0' {
                self.advance(1);
                self.error(ParseError::UnexpectedNullCharacter);
                self.switch_state(State::ScriptDataDoubleEscaped);
                self.emit_char(c);
            } else {
                self.advance(1);
                self.switch_state(State::ScriptDataDoubleEscaped);
                self.emit_char(c);
            },
        }
    }

    pub(crate) fn script_data_double_escaped_dash_dash(&mut self)
        requires
            old(self)@.wf(),
        ensures
            final(self)@ == script_data_double_escaped_dash_dash(old(self)@),
            final(self)@.wf(),
    {
        match self.peek() {
            None => {
                self.error(ParseError::EofInScriptHtmlCommentLikeText);
                self.finish();
            },
            Some(c) => if c == '-' {
                self.advance(1);
                self.emit_char('-');
            } else if c == '<' {
                self.advance(1);
                self.switch_state(State::ScriptDataDoubleEscapedLessThanSign);
                self.emit_char('<');
            } else if c == '>' {
                self.advance(1);
                self.switch_state(State::ScriptData);
                self.emit_char('>');
            } else if c == '\0' {
                self.advance(1);
                self.error(ParseError::UnexpectedNullCharacter);
                self.switch_state(State::ScriptDataDoubleEscaped);
                self.emit_char(c);
            } else {
                self.advance(1);
                self.switch_state(State::ScriptDataDoubleEscaped);
                self.emit_char(c);
            },
        }
    }

    pub(crate) fn script_data_double_escaped_less_than_sign(&mut self)
        requires
            old(self)@.wf(),
        ensures
            final(self)@ == script_data_double_escaped_less_than_sign(old(self)@),
            final(self)@.wf(),
    {
        match self.peek() {
            None => self.switch_state(State::ScriptDataDoubleEscaped),
            Some(c) => if c == '/' {
                self.advance(1);
                self.clear_temp();
                self.switch_state(State::ScriptDataDoubleEscapeEnd);
                self.emit_char('/');
            } else {
                self.switch_state(State::ScriptDataDoubleEscaped);
            },
        }
    }
}

} // verus!
