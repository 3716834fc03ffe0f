//! The states after `<!`, and those that read a comment.

use vstd::prelude::*;
use crate::model::Machine;
use crate::parser::Parser;
use crate::tokenizer::{ParseError, State};

verus! {

/// After `<!`: a comment, a doctype or a CDATA section begins, or else a bogus
/// comment. A CDATA section is one only in foreign content.
pub open spec fn markup_declaration_open(m: Machine) -> Machine {
    if m.looking_at_dashes() {
        m.advance(2).new_comment().switch(State::CommentStart)
    } else if m.looking_at_doctype() {
        m.advance(7).switch(State::Doctype)
    } else if m.looking_at_cdata() {
        if m.foreign {
            m.advance(7).switch(State::CDataSection)
        } else {
            m.advance(7)
                .error(ParseError::CdataInHtmlContent)
                .new_comment_of("[CDATA["@)
                .switch(State::BogusComment)
        }
    } else {
        m.error(ParseError::IncorrectlyOpenedComment)
            .new_comment()
            .switch(State::BogusComment)
    }
}

/// In markup that is read as a comment to the next `>`.
pub open spec fn bogus_comment(m: Machine) -> Machine {
    match m.peek() {
        None => m.emit_comment().finish(),
        Some(c) => if c == '>' {
            m.advance(1).switch(State::Data).emit_comment()
        } else if c == '\0' {
            m.advance(1).error(ParseError::UnexpectedNullCharacter).push_comment('\u{FFFD}')
        } else {
            m.advance(1).push_comment(c)
        },
    }
}

/// After `<!--`.
pub open spec fn comment_start(m: Machine) -> Machine {
    match m.peek() {
        None => m.switch(State::Comment),
        Some(c) => if c == '-' {
            m.advance(1).switch(State::CommentStartDash)
        } else if c == '>' {
            m
                .advance(1)
                .error(ParseError::AbruptClosingOfEmptyComment)
                .switch(State::Data)
                .emit_comment()
        } else {
            m.switch(State::Comment)
        },
    }
}

/// After `<!---`.
pub open spec fn comment_start_dash(m: Machine) -> Machine {
    match m.peek() {
        None => m.error(ParseError::EofInComment).emit_comment().finish(),
        Some(c) => if c == '-' {
            m.advance(1).switch(State::CommentEnd)
        } else if c == '>' {
            m
                .advance(1)
                .error(ParseError::AbruptClosingOfEmptyComment)
                .switch(State::Data)
                .emit_comment()
        } else {
            m.push_comment('-').switch(State::Comment)
        },
    }
}

/// In the text of a comment.
pub open spec fn comment(m: Machine) -> Machine {
    match m.peek() {
        None => m.error(ParseError::EofInComment).emit_comment().finish(),
        Some(c) => if c == '<' {
            m.advance(1).push_comment(c).switch(State::CommentLessThanSign)
        } else if c == '-' {
            m.advance(1).switch(State::CommentEndDash)
        } else if c == '\0' {
            m.advance(1).error(ParseError::UnexpectedNullCharacter).push_comment('\u{FFFD}')
        } else {
            m.advance(1).push_comment(c)
        },
    }
}

/// After `<` in a comment.
pub open spec fn comment_less_than_sign(m: Machine) -> Machine {
    match m.peek() {
        None => m.switch(State::Comment),
        Some(c) => if c == '!' {
            m.advance(1).push_comment(c).switch(State::CommentLessThanSignBang)
        } else if c == '<' {
            m.advance(1).push_comment(c)
        } else {
            m.switch(State::Comment)
        },
    }
}

/// After `<!` in a comment.
pub open spec fn comment_less_than_sign_bang(m: Machine) -> Machine {
    match m.peek() {
        None => m.switch(State::Comment),
        Some(c) => if c == '-' {
            m.advance(1).switch(State::CommentLessthanSignBangDash)
        } else {
            m.switch(State::Comment)
        },
    }
}

/// After `<!-` in a comment.
pub open spec fn comment_less_than_sign_bang_dash(m: Machine) -> Machine {
    match m.peek() {
        None => m.switch(State::CommentEndDash),
        Some(c) => if c == '-' {
            m.advance(1).switch(State::CommentLessThanSignBangDashDash)
        } else {
            m.switch(State::CommentEndDash)
        },
    }
}

/// After `<!--` in a comment: a comment inside a comment, unless this one
/// ends here.
pub open spec fn comment_less_than_sign_bang_dash_dash(m: Machine) -> Machine {
    match m.peek() {
        None => m.switch(State::CommentEnd),
        Some(c) => if c == '>' {
            m.switch(State::CommentEnd)
        } else {
            m.error(ParseError::NestedComment).switch(State::CommentEnd)
        },
    }
}

/// After `-` in a comment.
pub open spec fn comment_end_dash(m: Machine) -> Machine {
    match m.peek() {
        None => m.error(ParseError::EofInComment).emit_comment().finish(),
        Some(c) => if c == '-' {
            m.advance(1).switch(State::CommentEnd)
        } else {
            m.push_comment('-').switch(State::Comment)
        },
    }
}

/// After `--` in a comment, which `>` ends.
pub open spec fn comment_end(m: Machine) -> Machine {
    match m.peek() {
        None => m.error(ParseError::EofInComment).emit_comment().finish(),
        Some(c) => if c == '>' {
            m.advance(1).switch(State::Data).emit_comment()
        } else if c == '!' {
            m.advance(1).switch(State::CommentEndBang)
        } else if c == '-' {
            m.advance(1).push_comment('-')
        } else {
            m.push_comment('-').push_comment('-').switch(State::Comment)
        },
    }
}

/// After `--!` in a comment.
pub open spec fn comment_end_bang(m: Machine) -> Machine {
    match m.peek() {
        None => m.error(ParseError::EofInComment).emit_comment().finish(),
        Some(c) => if c == '-' {
            m
                .advance(1)
                .push_comment('-')
                .push_comment('-')
                .push_comment('!')
                .switch(State::CommentEndDash)
        } else if c == '>' {
            m
                .advance(1)
                .error(ParseError::IncorrectlyClosedComment)
                .switch(State::Data)
                .emit_comment()
        } else {
            m.push_comment('-').push_comment('-').push_comment('!').switch(State::Comment)
        },
    }
}

impl Parser {
    pub(crate) fn markup_declaration_open(&mut self)
        requires
            old(self)@.wf(),
        ensures
            final(self)@ == markup_declaration_open(old(self)@),
            final(self)@.wf(),
    {
        if self.looking_at_dashes() {
            self.advance(2);
            self.new_comment();
            self.switch_state(State::CommentStart);
        } else if self.looking_at_doctype() {
            self.advance(7);
            self.switch_state(State::Doctype);
        } else if self.looking_at_cdata() {
            self.advance(7);
            if self.foreign() {
                self.switch_state(State::CDataSection);
            } else {
                self.error(ParseError::CdataInHtmlContent);
                self.new_comment_of("[CDATA[");
                self.switch_state(State::BogusComment);
            }
        } else {
            self.error(ParseError::IncorrectlyOpenedComment);
            self.new_comment();
            self.switch_state(State::BogusComment);
        }
    }

    pub(crate) fn bogus_comment(&mut self)
        requires
            old(self)@.wf(),
        ensures
            final(self)@ == bogus_comment(old(self)@),
            final(self)@.wf(),
    {
        match self.peek() {
            None => {
                self.emit_comment();
                self.finish();
            },
            Some(c) => if c == '>' {
                self.advance(1);
                self.switch_state(State::Data);
                self.emit_comment();
            } else if c == '\0' {
                self.advance(1);
                self.error(ParseError::UnexpectedNullCharacter);
                self.push_comment('\u{FFFD}');
            } else {
                self.advance(1);
                self.push_comment(c);
            },
        }
    }

    pub(crate) fn comment_start(&mut self)
        requires
            old(self)@.wf(),
        ensures
            final(self)@ == comment_start(old(self)@),
            final(self)@.wf(),
    {
        match self.peek() {
            None => self.switch_state(State::Comment),
            Some(c) => if c == '-' {
                self.advance(1);
                self.switch_state(State::CommentStartDash);
            } else if c == '>' {
                self.advance(1);
                self.error(ParseError::AbruptClosingOfEmptyComment);
                self.switch_state(State::Data);
                self.emit_comment();
            } else {
                self.switch_state(State::Comment);
            },
        }
    }

    pub(crate) fn comment_start_dash(&mut self)
        requires
            old(self)@.wf(),
        ensures
            final(self)@ == comment_start_dash(old(self)@),
            final(self)@.wf(),
    {
        match self.peek() {
            None => {
                self.error(ParseError::EofInComment);
                self.emit_comment();
                self.finish();
            },
            Some(c) => if c == '-' {
                self.advance(1);
                self.switch_state(State::CommentEnd);
            } else if c == '>' {
                self.advance(1);
                self.error(ParseError::AbruptClosingOfEmptyComment);
                self.switch_state(State::Data);
                self.emit_comment();
            } else {
                self.push_comment('-');
                self.switch_state(State::Comment);
            },
        }
    }

    pub(crate) fn comment(&mut self)
        requires
            old(self)@.wf(),
        ensures
            final(self)@ == comment(old(self)@),
            final(self)@.wf(),
    {
        match self.peek() {
            None => {
                self.error(ParseError::EofInComment);
                self.emit_comment();
                self.finish();
            },
            Some(c) => if c == '<' {
                self.advance(1);
                self.push_comment(c);
                self.switch_state(State::CommentLessThanSign);
            } else if c == '-' {
                self.advance(1);
                self.switch_state(State::CommentEndDash);
            } else if c == '\0' {
                self.advance(1);
                self.error(ParseError::UnexpectedNullCharacter);
                self.push_comment('\u{FFFD}');
            } else {
                self.advance(1);
                self.push_comment(c);
            },
        }
    }

    pub(crate) fn comment_less_than_sign(&mut self)
        requires
            old(self)@.wf(),
        ensures
            final(self)@ == comment_less_than_sign(old(self)@),
            final(self)@.wf(),
    {
        match self.peek() {
            None => self.switch_state(State::Comment),
            Some(c) => if c == '!' {
                self.advance(1);
                self.push_comment(c);
                self.switch_state(State::CommentLessThanSignBang);
            } else if c == '<' {
                self.advance(1);
                self.push_comment(c);
            } else {
                self.switch_state(State::Comment);
            },
        }
    }

    pub(crate) fn comment_less_than_sign_bang(&mut self)
        requires
            old(self)@.wf(),
        ensures
            final(self)@ == comment_less_than_sign_bang(old(self)@),
            final(self)@.wf(),
    {
        match self.peek() {
            None => self.switch_state(State::Comment),
            Some(c) => if c == '-' {
                self.advance(1);
                self.switch_state(State::CommentLessthanSignBangDash);
            } else {
                self.switch_state(State::Comment);
            },
        }
    }

    pub(crate) fn comment_less_than_sign_bang_dash(&mut self)
        requires
            old(self)@.wf(),
        ensures
            final(self)@ == comment_less_than_sign_bang_dash(old(self)@),
            final(self)@.wf(),
    {
        match self.peek() {
            None => self.switch_state(State::CommentEndDash),
            Some(c) => if c == '-' {
                self.advance(1);
                self.switch_state(State::CommentLessThanSignBangDashDash);
            } else {
                self.switch_state(State::CommentEndDash);
            },
        }
    }

    pub(crate) fn comment_less_than_sign_bang_dash_dash(&mut self)
        requires
            old(self)@.wf(),
        ensures
            final(self)@ == comment_less_than_sign_bang_dash_dash(old(self)@),
            final(self)@.wf(),
    {
        match self.peek() {
            None => self.switch_state(State::CommentEnd),
            Some(c) => if c == '>' {
                self.switch_state(State::CommentEnd);
            } else {
                self.error(ParseError::NestedComment);
                self.switch_state(State::CommentEnd);
            },
        }
    }

    pub(crate) fn comment_end_dash(&mut self)
        requires
            old(self)@.wf(),
        ensures
            final(self)@ == comment_end_dash(old(self)@),
            final(self)@.wf(),
    {
        match self.peek() {
            None => {
                self.error(ParseError::EofInComment);
                self.emit_comment();
                self.finish();
            },
            Some(c) => if c == '-' {
                self.advance(1);
                self.switch_state(State::CommentEnd);
            } else {
                self.push_comment('-');
                self.switch_state(State::Comment);
            },
        }
    }

    pub(crate) fn comment_end(&mut self)
        requires
            old(self)@.wf(),
        ensures
            final(self)@ == comment_end(old(self)@),
            final(self)@.wf(),
    {
        match self.peek() {
            None => {
                self.error(ParseError::EofInComment);
                self.emit_comment();
                self.finish();
            },
            Some(c) => if c == '>' {
                self.advance(1);
                self.switch_state(State::Data);
                self.emit_comment();
            } else if c == '!' {
                self.advance(1);
                self.switch_state(State::CommentEndBang);
            } else if c == '-' {
                self.advance(1);
                self.push_comment('-');
            } else {
                self.push_comment('-');
                self.push_comment('-');
                self.switch_state(State::Comment);
            },
        }
    }

    pub(crate) fn comment_end_bang(&mut self)
        requires
            old(self)@.wf(),
        ensures
            final(self)@ == comment_end_bang(old(self)@),
            final(self)@.wf(),
    {
        match self.peek() {
            None => {
                self.error(ParseError::EofInComment);
                self.emit_comment();
                self.finish();
            },
            Some(c) => if c == '-' {
                self.advance(1);
                self.push_comment('-');
                self.push_comment('-');
                self.push_comment('!');
                self.switch_state(State::CommentEndDash);
            } else if c == '>' {
                self.advance(1);
                self.error(ParseError::IncorrectlyClosedComment);
                self.switch_state(State::Data);
                self.emit_comment();
            } else {
                self.push_comment('-');
                self.push_comment('-');
                self.push_comment('!');
                self.switch_state(State::Comment);
            },
        }
    }
}

} // verus!
