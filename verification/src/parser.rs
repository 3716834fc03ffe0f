//! The tokenizer as a machine that can be driven step by step: its state,
//! and the elementary actions on it, each tied to the model's.

use vstd::prelude::*;
use crate::chars::{chars_of, copy_chars, is_whitespace, lower, same_text, text_is, text_of};
use crate::cursor::Cursor;
use crate::entities::{entity_name, longest_match, EntityMatch, ENTITY_COUNT};
use crate::model::{
    character_token, character_tokens, content_state, has_attribute, is_element_name, DoctypeModel,
    Machine, TagKind, TagModel, MAX_CODE,
};
use crate::tokenizer::{
    attribute_models, is_appropriate_end_tag, text_option, token_models, AttributeModel, Misuse,
    ParseError,
};

pub use crate::tokenizer::{Attribute, InsertionMode, State, Token};

verus! {

/// An attribute whose name and value are still being read.
pub(crate) struct PendingAttribute {
    pub name: Vec<char>,
    pub value: Vec<char>,
}

impl View for PendingAttribute {
    type V = AttributeModel;

    closed spec fn view(&self) -> AttributeModel {
        AttributeModel { name: self.name@, value: self.value@ }
    }
}

pub(crate) open spec fn pending_models(v: Seq<PendingAttribute>) -> Seq<AttributeModel> {
    Seq::new(v.len(), |i: int| v[i]@)
}

/// The characters of an optional text.
pub open spec fn chars_option(o: Option<Vec<char>>) -> Option<Seq<char>> {
    match o {
        Some(v) => Some(v@),
        None => None,
    }
}

pub(crate) open spec fn pending_option(o: Option<PendingAttribute>) -> Option<AttributeModel> {
    match o {
        Some(a) => Some(a@),
        None => None,
    }
}

/// The tag under construction.
pub(crate) struct Tag {
    pub kind: TagKind,
    pub name: Vec<char>,
    pub self_closing: bool,
    pub attributes: Vec<PendingAttribute>,
}

impl View for Tag {
    type V = TagModel;

    closed spec fn view(&self) -> TagModel {
        TagModel {
            kind: self.kind,
            name: self.name@,
            self_closing: self.self_closing,
            attributes: pending_models(self.attributes@),
        }
    }
}

/// The doctype under construction.
pub(crate) struct Doctype {
    pub name: Option<Vec<char>>,
    pub public_id: Option<Vec<char>>,
    pub system_id: Option<Vec<char>>,
    pub force_quirks: bool,
}

impl View for Doctype {
    type V = DoctypeModel;

    closed spec fn view(&self) -> DoctypeModel {
        DoctypeModel {
            name: chars_option(self.name),
            public_id: chars_option(self.public_id),
            system_id: chars_option(self.system_id),
            force_quirks: self.force_quirks,
        }
    }
}

/// The tokenizer's state machine. Its view is the [`Machine`] it stands for.
pub struct Parser {
    cursor: Cursor,
    current_state: State,
    return_state: State,
    temporary_buffer: Vec<char>,
    tag: Tag,
    attribute: Option<PendingAttribute>,
    comment: Vec<char>,
    doctype: Doctype,
    last_start_tag: Option<Vec<char>>,
    current_node: Option<Vec<char>>,
    foreign: bool,
    code: u32,
    tokens: Vec<Token>,
    errors: Vec<ParseError>,
    finished: bool,
}

impl View for Parser {
    type V = Machine;

    closed spec fn view(&self) -> Machine {
        Machine {
            input: self.cursor.input(),
            pos: self.cursor.position(),
            state: self.current_state,
            return_state: self.return_state,
            temp: self.temporary_buffer@,
            tag: self.tag@,
            attr: pending_option(self.attribute),
            comment: self.comment@,
            doctype: self.doctype@,
            last_start_tag: chars_option(self.last_start_tag),
            current_node: chars_option(self.current_node),
            foreign: self.foreign,
            code: self.code as int,
            tokens: token_models(self.tokens@),
            errors: self.errors@,
            finished: self.finished,
        }
    }
}

fn element_name(name: &Vec<char>) -> (b: bool)
    ensures
        b == is_element_name(name@),
{
    if name.len() == 0 {
        return false;
    }
    let mut i: usize = 0;
    while i < name.len()
        invariant
            i <= name.len(),
            forall|j: int|
                0 <= j < i ==> !(is_whitespace(#[trigger] name@[j]) || name@[j] == '/' || name@[j]
                    == '>' || name@[j] == '\0'),
        decreases name.len() - i,
    {
        let c = name[i];
        if is_whitespace(c) || c == '/' || c == '>' || c == '\0' {
            return false;
        }
        i += 1;
    }
    true
}

fn option_text(o: &Option<Vec<char>>) -> (r: Option<String>)
    ensures
        text_option(r) == chars_option(*o),
{
    match o {
        Some(v) => Some(text_of(v)),
        None => None,
    }
}

impl Parser {
    /// A tokenizer in the data state, with no input yet.
    pub fn new() -> (p: Parser)
        ensures
            p@ == Machine::start(Seq::empty()),
            p@.wf(),
    {
        Parser {
            cursor: Cursor::new(),
            current_state: State::Data,
            return_state: State::Data,
            temporary_buffer: Vec::new(),
            tag: Tag {
                kind: TagKind::Start,
                name: Vec::new(),
                self_closing: false,
                attributes: Vec::new(),
            },
            attribute: None,
            comment: Vec::new(),
            doctype: Doctype { name: None, public_id: None, system_id: None, force_quirks: false },
            last_start_tag: None,
            current_node: None,
            foreign: false,
            code: 0,
            tokens: Vec::new(),
            errors: Vec::new(),
            finished: false,
        }
    }

    /// Appends `html` to the input that is still to be read.
    pub fn feed(&mut self, html: &String) -> (r: Result<(), Misuse>)
        requires
            old(self)@.wf(),
        ensures
            final(self)@.wf(),
            r is Ok <==> !old(self)@.finished,
            r is Ok ==> final(self)@ == old(self)@.feed(html@),
            r is Err ==> r == Err::<(), Misuse>(Misuse::Exhausted) && final(self)@ == old(self)@,
    {
        if self.finished {
            return Err(Misuse::Exhausted);
        }
        self.cursor.feed(html.as_str());
        Ok(())
    }

    /// The tokens emitted and not yet taken.
    pub fn tokens(&self) -> (tokens: &Vec<Token>)
        ensures
            token_models(tokens@) == self@.tokens,
    {
        &self.tokens
    }

    /// Hands over the tokens emitted since the last call.
    pub fn take_tokens(&mut self) -> (tokens: Vec<Token>)
        ensures
            token_models(tokens@) == old(self)@.tokens,
            final(self)@ == old(self)@.drained(),
    {
        let mut tokens: Vec<Token> = Vec::new();
        core::mem::swap(&mut tokens, &mut self.tokens);
        assert(token_models(self.tokens@) =~= Seq::empty());
        tokens
    }

    /// The errors recorded so far, in the order in which they were met.
    pub fn errors(&self) -> (errors: &Vec<ParseError>)
        ensures
            errors@ == self@.errors,
    {
        &self.errors
    }

    /// Takes the collaborator's report of the current node: its name, or
    /// `None` where the tokenizer is to go by the last start tag again.
    pub fn set_current_node(&mut self, name: Option<&String>) -> (r: Result<(), Misuse>)
        ensures
            r is Ok <==> (name matches Some(n) ==> is_element_name(n@)),
            r is Ok ==> final(self)@ == old(self)@.with_current_node(
                match name {
                    Some(n) => Some(n@),
                    None => None,
                },
            ),
            r is Err ==> r == Err::<(), Misuse>(Misuse::InconsistentNode) && final(self)@ == old(
                self,
            )@,
    {
        match name {
            None => {
                self.current_node = None;
                Ok(())
            },
            Some(n) => {
                let chars = chars_of(n.as_str());
                if element_name(&chars) {
                    self.current_node = Some(chars);
                    Ok(())
                } else {
                    Err(Misuse::InconsistentNode)
                }
            },
        }
    }

    /// Takes the collaborator's report of whether the current node is in
    /// foreign content, where `<![CDATA[` opens a CDATA section.
    pub fn set_foreign_content(&mut self, foreign: bool)
        ensures
            final(self)@ == old(self)@.with_foreign(foreign),
    {
        self.foreign = foreign;
    }

    /// The current lexical state.
    pub fn state(&self) -> (s: State)
        ensures
            s == self@.state,
    {
        self.current_state
    }

    pub(crate) fn return_state(&self) -> (s: State)
        ensures
            s == self@.return_state,
    {
        self.return_state
    }

    /// Whether the end of file has been emitted.
    pub fn is_finished(&self) -> (b: bool)
        ensures
            b == self@.finished,
    {
        self.finished
    }

    pub(crate) fn peek_at(&self, k: usize) -> (c: Option<char>)
        requires
            self@.wf(),
        ensures
            c == self@.peek_at(k as int),
    {
        self.cursor.peek_at(k)
    }

    pub(crate) fn peek(&self) -> (c: Option<char>)
        requires
            self@.wf(),
        ensures
            c == self@.peek(),
    {
        self.peek_at(0)
    }

    pub(crate) fn folds_to(&self, k: usize, c: char) -> (b: bool)
        requires
            self@.wf(),
        ensures
            b == self@.folds_to(k as int, c),
    {
        match self.peek_at(k) {
            Some(x) => lower(x) == c,
            None => false,
        }
    }

    pub(crate) fn looking_at_dashes(&self) -> (b: bool)
        requires
            self@.wf(),
        ensures
            b == self@.looking_at_dashes(),
    {
        self.peek_at(0) == Some('-') && self.peek_at(1) == Some('-')
    }

    pub(crate) fn looking_at_doctype(&self) -> (b: bool)
        requires
            self@.wf(),
        ensures
            b == self@.looking_at_doctype(),
    {
        self.folds_to(0, 'd') && self.folds_to(1, 'o') && self.folds_to(2, 'c') && self.folds_to(
            3,
            't',
        ) && self.folds_to(4, 'y') && self.folds_to(5, 'p') && self.folds_to(6, 'e')
    }

    pub(crate) fn looking_at_cdata(&self) -> (b: bool)
        requires
            self@.wf(),
        ensures
            b == self@.looking_at_cdata(),
    {
        self.peek_at(0) == Some('[') && self.peek_at(1) == Some('C') && self.peek_at(2) == Some('D')
            && self.peek_at(3) == Some('A') && self.peek_at(4) == Some('T') && self.peek_at(5)
            == Some('A') && self.peek_at(6) == Some('[')
    }

    pub(crate) fn looking_at_public(&self) -> (b: bool)
        requires
            self@.wf(),
        ensures
            b == self@.looking_at_public(),
    {
        self.folds_to(0, 'p') && self.folds_to(1, 'u') && self.folds_to(2, 'b') && self.folds_to(
            3,
            'l',
        ) && self.folds_to(4, 'i') && self.folds_to(5, 'c')
    }

    pub(crate) fn looking_at_system(&self) -> (b: bool)
        requires
            self@.wf(),
        ensures
            b == self@.looking_at_system(),
    {
        self.folds_to(0, 's') && self.folds_to(1, 'y') && self.folds_to(2, 's') && self.folds_to(
            3,
            't',
        ) && self.folds_to(4, 'e') && self.folds_to(5, 'm')
    }

    pub(crate) fn advance(&mut self, n: usize)
        requires
            old(self)@.wf(),
            old(self)@.pos + n <= old(self)@.input.len(),
        ensures
            final(self)@ == old(self)@.advance(n as int),
            final(self)@.wf(),
    {
        self.cursor.advance(n);
    }

    /// Puts the tokenizer in `new_state`, as tree construction does after
    /// certain start tags.
    pub fn switch_state(&mut self, new_state: State)
        ensures
            final(self)@ == old(self)@.switch(new_state),
    {
        self.current_state = new_state;
    }

    pub(crate) fn returning_to(&mut self, state: State)
        ensures
            final(self)@ == old(self)@.returning_to(state),
    {
        self.return_state = state;
    }

    pub(crate) fn error(&mut self, e: ParseError)
        ensures
            final(self)@ == old(self)@.error(e),
    {
        self.errors.push(e);
    }

    /// Appends `token` to the tokens emitted so far.
    pub(crate) fn emit_token(&mut self, token: Token)
        ensures
            final(self)@ == (Machine { tokens: old(self)@.tokens.push(token@), ..old(self)@ }),
    {
        self.tokens.push(token);
        assert(token_models(self.tokens@) =~= token_models(old(self).tokens@).push(token@));
    }

    pub(crate) fn emit_char(&mut self, c: char)
        ensures
            final(self)@ == old(self)@.emit_char(c),
    {
        self.emit_token(Token::Character(c));
    }

    pub(crate) fn emit_text(&mut self, text: &Vec<char>)
        ensures
            final(self)@ == old(self)@.emit_text(text@),
    {
        let mut i: usize = 0;
        assert(self@.tokens + character_tokens(text@.take(0)) =~= self@.tokens);
        while i < text.len()
            invariant
                i <= text.len(),
                self@ == (Machine { tokens: self@.tokens, ..old(self)@ }),
                self@.tokens == old(self)@.tokens + character_tokens(text@.take(i as int)),
            decreases text.len() - i,
        {
            self.emit_char(text[i]);
            assert(text@.take(i + 1) =~= text@.take(i as int).push(text@[i as int]));
            assert(character_tokens(text@.take(i + 1)) =~= character_tokens(
                text@.take(i as int),
            ).push(character_token(text@[i as int])));
            assert(self@.tokens =~= old(self)@.tokens + character_tokens(text@.take(i + 1)));
            i += 1;
        }
        assert(text@.take(text.len() as int) =~= text@);
    }

    pub(crate) fn finish(&mut self)
        ensures
            final(self)@ == old(self)@.finish(),
    {
        self.emit_token(Token::EndOfFile);
        self.finished = true;
    }

    pub(crate) fn clear_temp(&mut self)
        ensures
            final(self)@ == old(self)@.clear_temp(),
    {
        self.temporary_buffer.clear();
    }

    pub(crate) fn push_temp(&mut self, c: char)
        ensures
            final(self)@ == old(self)@.push_temp(c),
    {
        self.temporary_buffer.push(c);
    }

    pub(crate) fn push_temp_text(&mut self, text: &str)
        ensures
            final(self)@ == old(self)@.push_temp_text(text@),
    {
        let mut more = chars_of(text);
        self.temporary_buffer.append(&mut more);
    }

    /// The longest named character reference that the input holds at the
    /// cursor.
    pub(crate) fn find_entity(&self) -> (r: Option<EntityMatch>)
        requires
            self@.wf(),
        ensures
            r is None ==> longest_match(self@.rest()) is None,
            r matches Some(found) ==> longest_match(self@.rest()) == Some(found.index as int)
                && found.index < ENTITY_COUNT && found.length == entity_name(
                found.index as int,
            ).len()
                && self@.pos + found.length <= self@.input.len() && found.length > 0,
    {
        self.cursor.find_entity()
    }

    pub(crate) fn temp_is(&self, text: &str) -> (b: bool)
        ensures
            b == self@.temp_is(text),
    {
        text_is(&self.temporary_buffer, text)
    }

    pub(crate) fn emit_temp(&mut self)
        ensures
            final(self)@ == old(self)@.emit_temp(),
    {
        let text = copy_chars(&self.temporary_buffer);
        self.emit_text(&text);
    }

    pub(crate) fn new_tag(&mut self, kind: TagKind)
        ensures
            final(self)@ == old(self)@.new_tag(kind),
    {
        self.tag = Tag { kind, name: Vec::new(), self_closing: false, attributes: Vec::new() };
        self.attribute = None;
        assert(pending_models(self.tag.attributes@) =~= Seq::empty());
    }

    pub(crate) fn push_tag_name(&mut self, c: char)
        ensures
            final(self)@ == old(self)@.push_tag_name(c),
    {
        self.tag.name.push(lower(c));
    }

    pub(crate) fn set_self_closing(&mut self)
        ensures
            final(self)@ == old(self)@.set_self_closing(),
    {
        self.tag.self_closing = true;
    }

    fn has_attribute(&self, name: &Vec<char>) -> (b: bool)
        ensures
            b == has_attribute(self@.tag.attributes, name@),
    {
        let mut i: usize = 0;
        while i < self.tag.attributes.len()
            invariant
                i <= self.tag.attributes.len(),
                forall|j: int| 0 <= j < i ==> (#[trigger] self@.tag.attributes[j]).name != name@,
            decreases self.tag.attributes.len() - i,
        {
            if same_text(&self.tag.attributes[i].name, name) {
                assert(self@.tag.attributes[i as int].name == name@);
                return true;
            }
            i += 1;
        }
        false
    }

    pub(crate) fn close_attribute(&mut self)
        ensures
            final(self)@ == old(self)@.close_attribute(),
    {
        let pending = self.attribute.take();
        match pending {
            None => {},
            Some(a) => {
                if self.has_attribute(&a.name) {
                    self.errors.push(ParseError::DuplicateAttribute);
                } else {
                    self.tag.attributes.push(a);
                    assert(pending_models(self.tag.attributes@) =~= pending_models(
                        old(self).tag.attributes@,
                    ).push(a@));
                }
            },
        }
    }

    pub(crate) fn new_attribute(&mut self)
        ensures
            final(self)@ == old(self)@.new_attribute(),
    {
        self.close_attribute();
        self.attribute = Some(PendingAttribute { name: Vec::new(), value: Vec::new() });
    }

    fn open_attribute(&mut self) -> (a: PendingAttribute)
        ensures
            a@ == old(self)@.open_attribute(),
            final(self)@ == (Machine { attr: final(self)@.attr, ..old(self)@ }),
    {
        match self.attribute.take() {
            Some(a) => a,
            None => PendingAttribute { name: Vec::new(), value: Vec::new() },
        }
    }

    pub(crate) fn push_attr_name(&mut self, c: char)
        ensures
            final(self)@ == old(self)@.push_attr_name(c),
    {
        let mut a = self.open_attribute();
        a.name.push(lower(c));
        self.attribute = Some(a);
    }

    pub(crate) fn push_attr_value(&mut self, c: char)
        ensures
            final(self)@ == old(self)@.push_attr_value(c),
    {
        let mut a = self.open_attribute();
        a.value.push(c);
        assert(a.value@ =~= old(self)@.open_attribute().value + seq![c]);
        self.attribute = Some(a);
    }

    pub(crate) fn push_attr_text(&mut self, text: &Vec<char>)
        ensures
            final(self)@ == old(self)@.push_attr_text(text@),
    {
        let mut a = self.open_attribute();
        let ghost before = a.value@;
        let mut i: usize = 0;
        while i < text.len()
            invariant
                i <= text.len(),
                a.name@ == old(self)@.open_attribute().name,
                a.value@ == before + text@.take(i as int),
            decreases text.len() - i,
        {
            a.value.push(text[i]);
            assert(a.value@ =~= before + text@.take(i + 1));
            i += 1;
        }
        assert(text@.take(text.len() as int) =~= text@);
        assert(before + text@.take(0) =~= before);
        self.attribute = Some(a);
    }

    fn attributes(&self) -> (out: Vec<Attribute>)
        ensures
            attribute_models(out@) == self@.tag.attributes,
    {
        let mut out: Vec<Attribute> = Vec::new();
        let mut i: usize = 0;
        while i < self.tag.attributes.len()
            invariant
                i <= self.tag.attributes.len(),
                out.len() == i,
                forall|j: int| 0 <= j < i ==> (#[trigger] out@[j])@ == self.tag.attributes@[j]@,
            decreases self.tag.attributes.len() - i,
        {
            let a = &self.tag.attributes[i];
            out.push(Attribute { name: text_of(&a.name), value: text_of(&a.value) });
            i += 1;
        }
        assert(attribute_models(out@) =~= self@.tag.attributes);
        out
    }

    fn tag_token(&self) -> (t: Token)
        ensures
            t@ == self@.tag_token(),
    {
        match self.tag.kind {
            TagKind::Start => Token::StartTag {
                tag_name: text_of(&self.tag.name),
                self_closing: self.tag.self_closing,
                attributes: self.attributes(),
            },
            TagKind::End => Token::EndTag { tag_name: text_of(&self.tag.name) },
        }
    }

    fn tag_errors(&mut self)
        ensures
            final(self)@ == (Machine {
                errors: old(self)@.errors + old(self)@.tag_errors(),
                ..old(self)@
            }),
    {
        assert(old(self)@.errors + Seq::<ParseError>::empty() =~= old(self)@.errors);
        match self.tag.kind {
            TagKind::Start => {},
            TagKind::End => {
                if self.tag.attributes.len() > 0 {
                    self.errors.push(ParseError::EndTagWithAttributes);
                }
                if self.tag.self_closing {
                    self.errors.push(ParseError::EndTagWithTrailingSolidus);
                }
                assert(self.errors@ =~= old(self)@.errors + old(self)@.tag_errors());
            },
        }
    }

    pub(crate) fn content_state(name: &Vec<char>) -> (s: State)
        ensures
            s == content_state(name@),
    {
        if text_is(name, "title") || text_is(name, "textarea") {
            State::Rcdata
        } else if text_is(name, "style") || text_is(name, "xmp") || text_is(name, "iframe")
            || text_is(name, "noembed") || text_is(name, "noframes") {
            State::Rawtext
        } else if text_is(name, "script") {
            State::ScriptData
        } else if text_is(name, "plaintext") {
            State::Plaintext
        } else {
            State::Data
        }
    }

    pub(crate) fn emit_tag(&mut self)
        ensures
            final(self)@ == old(self)@.emit_tag(),
    {
        self.close_attribute();
        let token = self.tag_token();
        self.tag_errors();
        self.emit_token(token);
        match self.tag.kind {
            TagKind::Start => {
                self.current_state = Self::content_state(&self.tag.name);
                self.last_start_tag = Some(copy_chars(&self.tag.name));
            },
            TagKind::End => {
                self.current_state = State::Data;
            },
        }
        self.tag = Tag {
            kind: TagKind::Start,
            name: Vec::new(),
            self_closing: false,
            attributes: Vec::new(),
        };
        assert(pending_models(self.tag.attributes@) =~= Seq::empty());
    }

    /// The name that an end tag must have to be appropriate.
    fn context(&self) -> (c: &Option<Vec<char>>)
        ensures
            chars_option(*c) == self@.context(),
    {
        if self.current_node.is_some() {
            &self.current_node
        } else {
            &self.last_start_tag
        }
    }

    pub(crate) fn appropriate_end_tag(&self) -> (b: bool)
        ensures
            b == self@.appropriate_end_tag(),
    {
        match self.tag.kind {
            TagKind::Start => false,
            TagKind::End => is_appropriate_end_tag(&self.tag.name, self.context()),
        }
    }

    pub(crate) fn new_comment(&mut self)
        ensures
            final(self)@ == old(self)@.new_comment(),
    {
        self.comment = Vec::new();
    }

    pub(crate) fn new_comment_of(&mut self, text: &str)
        ensures
            final(self)@ == old(self)@.new_comment_of(text@),
    {
        self.comment = chars_of(text);
    }

    pub(crate) fn push_comment(&mut self, c: char)
        ensures
            final(self)@ == old(self)@.push_comment(c),
    {
        self.comment.push(c);
    }

    pub(crate) fn emit_comment(&mut self)
        ensures
            final(self)@ == old(self)@.emit_comment(),
    {
        let token = Token::Comment(text_of(&self.comment));
        self.emit_token(token);
    }

    pub(crate) fn new_doctype(&mut self)
        ensures
            final(self)@ == old(self)@.new_doctype(),
    {
        self.doctype =
            Doctype { name: None, public_id: None, system_id: None, force_quirks: false };
    }

    pub(crate) fn force_quirks(&mut self)
        ensures
            final(self)@ == old(self)@.force_quirks(),
    {
        self.doctype.force_quirks = true;
    }

    pub(crate) fn push_doctype_name(&mut self, c: char)
        ensures
            final(self)@ == old(self)@.push_doctype_name(c),
    {
        let mut name = match self.doctype.name.take() {
            Some(n) => n,
            None => Vec::new(),
        };
        name.push(lower(c));
        self.doctype.name = Some(name);
    }

    pub(crate) fn start_public_id(&mut self)
        ensures
            final(self)@ == old(self)@.start_public_id(),
    {
        self.doctype.public_id = Some(Vec::new());
    }

    pub(crate) fn push_public_id(&mut self, c: char)
        ensures
            final(self)@ == old(self)@.push_public_id(c),
    {
        let mut id = match self.doctype.public_id.take() {
            Some(n) => n,
            None => Vec::new(),
        };
        id.push(c);
        self.doctype.public_id = Some(id);
    }

    pub(crate) fn start_system_id(&mut self)
        ensures
            final(self)@ == old(self)@.start_system_id(),
    {
        self.doctype.system_id = Some(Vec::new());
    }

    pub(crate) fn push_system_id(&mut self, c: char)
        ensures
            final(self)@ == old(self)@.push_system_id(c),
    {
        let mut id = match self.doctype.system_id.take() {
            Some(n) => n,
            None => Vec::new(),
        };
        id.push(c);
        self.doctype.system_id = Some(id);
    }

    pub(crate) fn emit_doctype(&mut self)
        ensures
            final(self)@ == old(self)@.emit_doctype(),
    {
        let token = Token::Doctype {
            name: option_text(&self.doctype.name),
            public_id: option_text(&self.doctype.public_id),
            system_id: option_text(&self.doctype.system_id),
            force_quirks: self.doctype.force_quirks,
        };
        self.emit_token(token);
    }

    pub(crate) fn in_attribute(&self) -> (b: bool)
        ensures
            b == self@.in_attribute(),
    {
        self.return_state == State::AttributeValueDoubleQuoted || self.return_state
            == State::AttributeValueSingleQuoted || self.return_state
            == State::AttributeValueUnquoted
    }

    pub(crate) fn flush_reference(&mut self)
        ensures
            final(self)@ == old(self)@.flush_reference(),
    {
        let text = copy_chars(&self.temporary_buffer);
        if self.in_attribute() {
            self.push_attr_text(&text);
        } else {
            self.emit_text(&text);
        }
    }

    pub(crate) fn foreign(&self) -> (b: bool)
        ensures
            b == self@.foreign,
    {
        self.foreign
    }

    pub(crate) fn code(&self) -> (c: u32)
        requires
            self@.wf(),
        ensures
            c == self@.code,
            c <= MAX_CODE + 1,
    {
        self.code
    }

    pub(crate) fn set_code(&mut self, code: u32)
        ensures
            final(self)@ == old(self)@.set_code(code as int),
    {
        self.code = code;
    }

    pub(crate) fn add_digit(&mut self, base: u32, digit: u32)
        requires
            old(self)@.wf(),
            base <= 16,
            digit < 16,
        ensures
            final(self)@ == old(self)@.add_digit(base as int, digit as int),
            final(self)@.wf(),
    {
        assert(self.code * base <= (MAX_CODE + 1) * 16) by (nonlinear_arith)
            requires
                self.code <= MAX_CODE + 1,
                base <= 16,
        ;
        let code = self.code * base + digit;
        self.code = if code > MAX_CODE {
            MAX_CODE + 1
        } else {
            code
        };
    }
}

} // verus!
