//! The mathematical model of the tokenizer: its state as a value, and the
//! elementary actions that the transitions are composed of.

use vstd::prelude::*;
use crate::chars::{is_whitespace, spec_lower};
use crate::tokenizer::{AttributeModel, ParseError, State, TokenModel};

verus! {

/// Whether the tag under construction is a start tag or an end tag.
#[derive(Debug, Clone, Copy, PartialEq, Eq, Structural)]
pub enum TagKind {
    Start,
    End,
}

/// The tag under construction.
#[verifier::ext_equal]
pub struct TagModel {
    pub kind: TagKind,
    pub name: Seq<char>,
    pub self_closing: bool,
    pub attributes: Seq<AttributeModel>,
}

/// The doctype under construction.
#[verifier::ext_equal]
pub struct DoctypeModel {
    pub name: Option<Seq<char>>,
    pub public_id: Option<Seq<char>>,
    pub system_id: Option<Seq<char>>,
    pub force_quirks: bool,
}

/// The whole state of one tokenizer run.
#[verifier::ext_equal]
pub struct Machine {
    /// The characters to tokenize.
    pub input: Seq<char>,
    /// The cursor: the index of the next input character.
    pub pos: int,
    pub state: State,
    /// Where a character reference resumes.
    pub return_state: State,
    pub temp: Seq<char>,
    pub tag: TagModel,
    /// The attribute under construction, not yet part of the tag.
    pub attr: Option<AttributeModel>,
    pub comment: Seq<char>,
    pub doctype: DoctypeModel,
    /// The name of the start tag emitted last.
    pub last_start_tag: Option<Seq<char>>,
    /// The current node's name, where the collaborator has reported one.
    pub current_node: Option<Seq<char>>,
    /// Whether the collaborator has reported foreign content.
    pub foreign: bool,
    /// The code point of the numeric character reference under construction.
    pub code: int,
    pub tokens: Seq<TokenModel>,
    pub errors: Seq<ParseError>,
    /// Whether the end of file has been emitted.
    pub finished: bool,
}

/// The largest Unicode code point.
pub const MAX_CODE: u32 = 0x10FFFF;

/// A tag of the given kind without a name and without attributes.
pub open spec fn empty_tag(kind: TagKind) -> TagModel {
    TagModel { kind, name: Seq::empty(), self_closing: false, attributes: Seq::empty() }
}

/// A doctype without a name and without identifiers.
pub open spec fn empty_doctype() -> DoctypeModel {
    DoctypeModel { name: None, public_id: None, system_id: None, force_quirks: false }
}

/// The states that a character reference can return to.
pub open spec fn is_return_state(s: State) -> bool {
    s == State::Data || s == State::Rcdata || is_attribute_value_state(s)
}

/// The states that read the value of an attribute.
pub open spec fn is_attribute_value_state(s: State) -> bool {
    s == State::AttributeValueDoubleQuoted || s == State::AttributeValueSingleQuoted || s
        == State::AttributeValueUnquoted
}

/// Whether some attribute of `attributes` is named `name`.
pub open spec fn has_attribute(attributes: Seq<AttributeModel>, name: Seq<char>) -> bool {
    exists|i: int| 0 <= i < attributes.len() && (#[trigger] attributes[i]).name == name
}

/// The text state that the element named `name` puts the tokenizer in when
/// its start tag is emitted and nobody says otherwise.
pub open spec fn content_state(name: Seq<char>) -> State {
    if name == "title"@ || name == "textarea"@ {
        State::Rcdata
    } else if name == "style"@ || name == "xmp"@ || name == "iframe"@ || name == "noembed"@ || name
        == "noframes"@ {
        State::Rawtext
    } else if name == "script"@ {
        State::ScriptData
    } else if name == "plaintext"@ {
        State::Plaintext
    } else {
        State::Data
    }
}

/// Whether an end tag named `name` is appropriate in `context`, the name of
/// the element that opened the current run of text.
pub open spec fn appropriate(name: Seq<char>, context: Option<Seq<char>>) -> bool {
    context == Some(name)
}

/// The token of one character.
pub open spec fn character_token(c: char) -> TokenModel {
    TokenModel::Character(c)
}

/// `code` with one more digit in the given base. A code stops growing just
/// above the largest code point.
pub open spec fn with_digit(code: int, base: int, digit: int) -> int {
    if code * base + digit > MAX_CODE {
        MAX_CODE + 1
    } else {
        code * base + digit
    }
}

/// One character token for each character of `text`.
pub open spec fn character_tokens(text: Seq<char>) -> Seq<TokenModel> {
    Seq::new(text.len(), |i: int| character_token(text[i]))
}

/// Whether `name` can be the name of an element: it is not empty and holds
/// no whitespace, no `/`, no `>` and no null character.
pub open spec fn is_element_name(name: Seq<char>) -> bool {
    &&& name.len() > 0
    &&& forall|i: int|
        0 <= i < name.len() ==> !(is_whitespace(#[trigger] name[i]) || name[i] == '/' || name[i]
            == '>' || name[i] == '\0')
}

impl Machine {
    /// The machine before the first step, on the given input.
    pub open spec fn start(input: Seq<char>) -> Machine {
        Machine {
            input,
            pos: 0,
            state: State::Data,
            return_state: State::Data,
            temp: Seq::empty(),
            tag: empty_tag(TagKind::Start),
            attr: None,
            comment: Seq::empty(),
            doctype: empty_doctype(),
            last_start_tag: None,
            current_node: None,
            foreign: false,
            code: 0,
            tokens: Seq::empty(),
            errors: Seq::empty(),
            finished: false,
        }
    }

    /// What the cursor, the return state and the reference code must satisfy.
    pub open spec fn wf(self) -> bool {
        &&& 0 <= self.pos <= self.input.len()
        &&& is_return_state(self.return_state)
        &&& 0 <= self.code <= MAX_CODE + 1
    }

    /// The character `k` places after the cursor, `None` past the end.
    pub open spec fn peek_at(self, k: int) -> Option<char> {
        if 0 <= self.pos + k < self.input.len() {
            Some(self.input[self.pos + k])
        } else {
            None
        }
    }

    /// The next input character, `None` at the end of input.
    pub open spec fn peek(self) -> Option<char> {
        self.peek_at(0)
    }

    /// The input from the cursor on.
    pub open spec fn rest(self) -> Seq<char> {
        self.input.skip(self.pos)
    }

    /// Whether the character `k` places after the cursor folds to `c`.
    pub open spec fn folds_to(self, k: int, c: char) -> bool {
        self.peek_at(k) is Some && spec_lower(self.peek_at(k)->0) == c
    }

    pub open spec fn looking_at_dashes(self) -> bool {
        self.peek_at(0) == Some('-') && self.peek_at(1) == Some('-')
    }

    pub open spec fn looking_at_doctype(self) -> bool {
        self.folds_to(0, 'd') && self.folds_to(1, 'o') && self.folds_to(2, 'c') && self.folds_to(
            3,
            't',
        ) && self.folds_to(4, 'y') && self.folds_to(5, 'p') && self.folds_to(6, 'e')
    }

    pub open spec fn looking_at_cdata(self) -> bool {
        self.peek_at(0) == Some('[') && self.peek_at(1) == Some('C') && self.peek_at(2) == Some('D')
            && self.peek_at(3) == Some('A') && self.peek_at(4) == Some('T') && self.peek_at(5)
            == Some('A') && self.peek_at(6) == Some('[')
    }

    pub open spec fn looking_at_public(self) -> bool {
        self.folds_to(0, 'p') && self.folds_to(1, 'u') && self.folds_to(2, 'b') && self.folds_to(
            3,
            'l',
        ) && self.folds_to(4, 'i') && self.folds_to(5, 'c')
    }

    pub open spec fn looking_at_system(self) -> bool {
        self.folds_to(0, 's') && self.folds_to(1, 'y') && self.folds_to(2, 's') && self.folds_to(
            3,
            't',
        ) && self.folds_to(4, 'e') && self.folds_to(5, 'm')
    }

    /// `text` appended to the input.
    pub open spec fn feed(self, text: Seq<char>) -> Machine {
        Machine { input: self.input + text, ..self }
    }

    /// The tokens emitted so far handed over.
    pub open spec fn drained(self) -> Machine {
        Machine { tokens: Seq::empty(), ..self }
    }

    /// The collaborator's report of the current node, or of none.
    pub open spec fn with_current_node(self, name: Option<Seq<char>>) -> Machine {
        Machine { current_node: name, ..self }
    }

    /// The collaborator's report of whether the current node is foreign.
    pub open spec fn with_foreign(self, foreign: bool) -> Machine {
        Machine { foreign, ..self }
    }

    /// The cursor moved `n` characters on.
    pub open spec fn advance(self, n: int) -> Machine {
        Machine { pos: self.pos + n, ..self }
    }

    pub open spec fn switch(self, state: State) -> Machine {
        Machine { state, ..self }
    }

    pub open spec fn returning_to(self, state: State) -> Machine {
        Machine { return_state: state, ..self }
    }

    pub open spec fn error(self, e: ParseError) -> Machine {
        Machine { errors: self.errors.push(e), ..self }
    }

    pub open spec fn emit_char(self, c: char) -> Machine {
        Machine { tokens: self.tokens.push(character_token(c)), ..self }
    }

    /// One character token for each character of `text`.
    pub open spec fn emit_text(self, text: Seq<char>) -> Machine {
        Machine { tokens: self.tokens + character_tokens(text), ..self }
    }

    /// The end of file is emitted and the run is over.
    pub open spec fn finish(self) -> Machine {
        Machine { tokens: self.tokens.push(TokenModel::EndOfFile), finished: true, ..self }
    }

    pub open spec fn clear_temp(self) -> Machine {
        Machine { temp: Seq::empty(), ..self }
    }

    pub open spec fn temp_is(self, text: &str) -> bool {
        self.temp == text@
    }

    pub open spec fn push_temp(self, c: char) -> Machine {
        Machine { temp: self.temp.push(c), ..self }
    }

    pub open spec fn push_temp_text(self, text: Seq<char>) -> Machine {
        Machine { temp: self.temp + text, ..self }
    }

    /// The temporary buffer emitted as character tokens.
    pub open spec fn emit_temp(self) -> Machine {
        self.emit_text(self.temp)
    }

    /// A new, empty tag; an attribute still under construction is dropped
    /// with the tag it belonged to.
    pub open spec fn new_tag(self, kind: TagKind) -> Machine {
        Machine { tag: empty_tag(kind), attr: None, ..self }
    }

    /// `c` folded to lowercase and appended to the tag's name.
    pub open spec fn push_tag_name(self, c: char) -> Machine {
        Machine { tag: TagModel { name: self.tag.name.push(spec_lower(c)), ..self.tag }, ..self }
    }

    pub open spec fn set_self_closing(self) -> Machine {
        Machine { tag: TagModel { self_closing: true, ..self.tag }, ..self }
    }

    /// The attribute under construction joins the tag, unless the tag has one
    /// of that name already: then it is dropped.
    pub open spec fn close_attribute(self) -> Machine {
        match self.attr {
            None => self,
            Some(a) => if has_attribute(self.tag.attributes, a.name) {
                Machine {
                    attr: None,
                    errors: self.errors.push(ParseError::DuplicateAttribute),
                    ..self
                }
            } else {
                Machine {
                    attr: None,
                    tag: TagModel { attributes: self.tag.attributes.push(a), ..self.tag },
                    ..self
                }
            },
        }
    }

    /// The attribute under construction is closed and a new, empty one begun.
    pub open spec fn new_attribute(self) -> Machine {
        Machine {
            attr: Some(AttributeModel { name: Seq::empty(), value: Seq::empty() }),
            ..self.close_attribute()
        }
    }

    /// The attribute under construction, or an empty one where there is none.
    pub open spec fn open_attribute(self) -> AttributeModel {
        match self.attr {
            Some(a) => a,
            None => AttributeModel { name: Seq::empty(), value: Seq::empty() },
        }
    }

    /// `c` folded to lowercase and appended to the attribute's name.
    pub open spec fn push_attr_name(self, c: char) -> Machine {
        Machine {
            attr: Some(
                AttributeModel {
                    name: self.open_attribute().name.push(spec_lower(c)),
                    ..self.open_attribute()
                },
            ),
            ..self
        }
    }

    pub open spec fn push_attr_value(self, c: char) -> Machine {
        self.push_attr_text(seq![c])
    }

    pub open spec fn push_attr_text(self, text: Seq<char>) -> Machine {
        Machine {
            attr: Some(
                AttributeModel {
                    value: self.open_attribute().value + text,
                    ..self.open_attribute()
                },
            ),
            ..self
        }
    }

    /// The token of the tag under construction, once its last attribute has
    /// been closed. An end tag keeps its name only.
    pub open spec fn tag_token(self) -> TokenModel {
        match self.tag.kind {
            TagKind::Start => TokenModel::StartTag {
                tag_name: self.tag.name,
                self_closing: self.tag.self_closing,
                attributes: self.tag.attributes,
            },
            TagKind::End => TokenModel::EndTag { tag_name: self.tag.name },
        }
    }

    /// The errors that the emission of the tag under construction records.
    pub open spec fn tag_errors(self) -> Seq<ParseError> {
        if self.tag.kind == TagKind::End && self.tag.attributes.len() > 0 {
            if self.tag.self_closing {
                seq![ParseError::EndTagWithAttributes, ParseError::EndTagWithTrailingSolidus]
            } else {
                seq![ParseError::EndTagWithAttributes]
            }
        } else if self.tag.kind == TagKind::End && self.tag.self_closing {
            seq![ParseError::EndTagWithTrailingSolidus]
        } else {
            Seq::empty()
        }
    }

    /// The tag under construction is emitted, and an empty one takes its
    /// place. A start tag becomes the last start tag and switches to the text
    /// state of its element; an end tag switches to the data state.
    pub open spec fn emit_tag(self) -> Machine {
        let m = self.close_attribute();
        Machine {
            tokens: m.tokens.push(m.tag_token()),
            errors: m.errors + m.tag_errors(),
            last_start_tag: if m.tag.kind == TagKind::Start {
                Some(m.tag.name)
            } else {
                m.last_start_tag
            },
            state: if m.tag.kind == TagKind::Start {
                content_state(m.tag.name)
            } else {
                State::Data
            },
            tag: empty_tag(TagKind::Start),
            ..m
        }
    }

    /// The name that an end tag must have to be appropriate: the current node
    /// where the collaborator reported one, else the last start tag.
    pub open spec fn context(self) -> Option<Seq<char>> {
        if self.current_node is Some {
            self.current_node
        } else {
            self.last_start_tag
        }
    }

    /// Whether the tag under construction is an appropriate end tag.
    pub open spec fn appropriate_end_tag(self) -> bool {
        self.tag.kind == TagKind::End && appropriate(self.tag.name, self.context())
    }

    /// A new comment that holds `text`.
    pub open spec fn new_comment_of(self, text: Seq<char>) -> Machine {
        Machine { comment: text, ..self }
    }

    /// A new, empty comment.
    pub open spec fn new_comment(self) -> Machine {
        self.new_comment_of(Seq::empty())
    }

    pub open spec fn push_comment(self, c: char) -> Machine {
        Machine { comment: self.comment.push(c), ..self }
    }

    pub open spec fn emit_comment(self) -> Machine {
        Machine { tokens: self.tokens.push(TokenModel::Comment(self.comment)), ..self }
    }

    pub open spec fn new_doctype(self) -> Machine {
        Machine { doctype: empty_doctype(), ..self }
    }

    pub open spec fn force_quirks(self) -> Machine {
        Machine { doctype: DoctypeModel { force_quirks: true, ..self.doctype }, ..self }
    }

    /// `c` folded to lowercase and appended to the doctype's name.
    pub open spec fn push_doctype_name(self, c: char) -> Machine {
        let name = match self.doctype.name {
            Some(n) => n,
            None => Seq::empty(),
        };
        Machine {
            doctype: DoctypeModel { name: Some(name.push(spec_lower(c))), ..self.doctype },
            ..self
        }
    }

    pub open spec fn start_public_id(self) -> Machine {
        Machine { doctype: DoctypeModel { public_id: Some(Seq::empty()), ..self.doctype }, ..self }
    }

    pub open spec fn push_public_id(self, c: char) -> Machine {
        let id = match self.doctype.public_id {
            Some(n) => n,
            None => Seq::empty(),
        };
        Machine { doctype: DoctypeModel { public_id: Some(id.push(c)), ..self.doctype }, ..self }
    }

    pub open spec fn start_system_id(self) -> Machine {
        Machine { doctype: DoctypeModel { system_id: Some(Seq::empty()), ..self.doctype }, ..self }
    }

    pub open spec fn push_system_id(self, c: char) -> Machine {
        let id = match self.doctype.system_id {
            Some(n) => n,
            None => Seq::empty(),
        };
        Machine { doctype: DoctypeModel { system_id: Some(id.push(c)), ..self.doctype }, ..self }
    }

    pub open spec fn emit_doctype(self) -> Machine {
        Machine {
            tokens: self.tokens.push(
                TokenModel::Doctype {
                    name: self.doctype.name,
                    public_id: self.doctype.public_id,
                    system_id: self.doctype.system_id,
                    force_quirks: self.doctype.force_quirks,
                },
            ),
            ..self
        }
    }

    /// Whether the character reference under way stands in an attribute value.
    pub open spec fn in_attribute(self) -> bool {
        is_attribute_value_state(self.return_state)
    }

    /// The temporary buffer goes where the character reference stands: into
    /// the attribute's value, or out as character tokens.
    pub open spec fn flush_reference(self) -> Machine {
        if self.in_attribute() {
            self.push_attr_text(self.temp)
        } else {
            self.emit_temp()
        }
    }

    pub open spec fn set_code(self, code: int) -> Machine {
        Machine { code, ..self }
    }

    /// One more digit of the numeric reference, in the given base.
    pub open spec fn add_digit(self, base: int, digit: int) -> Machine {
        Machine { code: with_digit(self.code, base, digit), ..self }
    }
}

} // verus!
