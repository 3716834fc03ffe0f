//! The token model, the lexical states, and the whole-input entry point.

use vstd::prelude::*;
use crate::chars::same_text;
use crate::invariants::{token_folded, token_unique};
use crate::laws::{attribute_names_differ, end_of_file_is_last, names_are_folded};
use crate::model::{appropriate, Machine};
use crate::parser::{chars_option, Parser};
use crate::run::tokens_of;

verus! {

/// One attribute of a start tag.
#[derive(Debug, Clone, PartialEq, Eq)]
pub struct Attribute {
    pub name: String,
    pub value: String,
}

/// What the tokenizer emits.
#[derive(Debug, Clone, PartialEq, Eq)]
pub enum Token {
    Doctype {
        name: Option<String>,
        public_id: Option<String>,
        system_id: Option<String>,
        force_quirks: bool,
    },
    StartTag {
        tag_name: String,
        self_closing: bool,
        attributes: Vec<Attribute>,
    },
    EndTag {
        tag_name: String,
    },
    Character(char),
    Comment(String),
    EndOfFile,
}

/// The insertion modes of tree construction, the tokenizer's collaborator.
#[derive(Debug, Clone, Copy, PartialEq, Eq, Hash, Structural)]
pub enum InsertionMode {
    Initial,
    BeforeHtml,
    BeforeHead,
    InHead,
    InHeadNoscript,
    AfterHead,
    InBody,
    Text,
    InTable,
    InTableText,
    InCaption,
    InColumnGroup,
    InTableBody,
    InRow,
    InCell,
    InSelect,
    InSelectInTable,
    InTemplate,
    AfterBody,
    InFrameset,
    AfterFrameset,
    AfterAfterBody,
    AfterAfterFrameset,
}

/// The lexical states of the tokenizer.
#[derive(Debug, Clone, Copy, PartialEq, Eq, Hash, Structural)]
pub enum State {
    Data,
    Rcdata,
    Rawtext,
    ScriptData,
    Plaintext,
    TagOpen,
    EndTagOpen,
    TagName,
    RcdataLessThanSign,
    RcdataEndTagOpen,
    RcdataEndTagName,
    RawtextLessThanSign,
    RawtextEndTagOpen,
    RawtextEndTagName,
    ScriptDataLessThanSign,
    ScriptDataEndTagOpen,
    ScriptDataEndTagName,
    ScriptDataEscapeStart,
    ScriptDataEscapeStartDash,
    ScriptDataEscaped,
    ScriptDataEscapedDash,
    ScriptDataEscapedDashDash,
    ScriptDataEscapedLessThanSign,
    ScriptDataEscapedEndTagOpen,
    ScriptDataEscapedEndTagName,
    ScriptDataDoubleEscapeStart,
    ScriptDataDoubleEscaped,
    ScriptDataDoubleEscapedDash,
    ScriptDataDoubleEscapedDashDash,
    ScriptDataDoubleEscapedLessThanSign,
    ScriptDataDoubleEscapeEnd,
    BeforeAttributeName,
    AttributeName,
    AfterAttributeName,
    BeforeAttributeValue,
    AttributeValueDoubleQuoted,
    AttributeValueSingleQuoted,
    AttributeValueUnquoted,
    AfterAttributeValueQuoted,
    SelfClosingStartTag,
    BogusComment,
    MarkupDeclarationOpen,
    CommentStart,
    CommentStartDash,
    Comment,
    CommentLessThanSign,
    CommentLessThanSignBang,
    CommentLessthanSignBangDash,
    CommentLessThanSignBangDashDash,
    CommentEndDash,
    CommentEnd,
    CommentEndBang,
    Doctype,
    BeforeDoctypeName,
    DoctypeName,
    AfterDoctypeName,
    AfterDoctypePublicKeyword,
    BeforeDoctypePublicIdentifier,
    DoctypePublicIdentifierDoubleQuoted,
    DoctypePublicIdentifierSingleQuoted,
    AfterDoctypePublicIdentifier,
    BetweenDoctypePublicAndSystemIdentifiers,
    AfterDoctypeSystemKeyword,
    BeforeDoctypeSystemIdentifier,
    DoctypeSystemIdentifierDoubleQuoted,
    DoctypeSystemIdentifierSingleQuoted,
    AfterDoctypeSystemIdentifier,
    BogusDoctype,
    CDataSection,
    CDataSectionBracket,
    CDataSectionEnd,
    CharacterReference,
    NamedCharacterReference,
    AmbiguousAmpersand,
    NumericCharacterReference,
    HexadecimalCharacterReferenceStart,
    DecimalCharacterReferenceStart,
    HexadecimalCharacterReference,
    DecimalCharacterReference,
    NumericCharacterReferenceEnd,
}

/// The recoverable errors that the tokenizer records while it goes on.
#[derive(Debug, Clone, Copy, PartialEq, Eq, Hash, Structural)]
pub enum ParseError {
    AbruptClosingOfEmptyComment,
    AbruptDoctypePublicIdentifier,
    AbruptDoctypeSystemIdentifier,
    AbsenceOfDigitsInNumericCharacterReference,
    CdataInHtmlContent,
    CharacterReferenceOutsideUnicodeRange,
    ControlCharacterReference,
    DuplicateAttribute,
    EndTagWithAttributes,
    EndTagWithTrailingSolidus,
    EofBeforeTagName,
    EofInCdata,
    EofInComment,
    EofInDoctype,
    EofInScriptHtmlCommentLikeText,
    EofInTag,
    IncorrectlyClosedComment,
    IncorrectlyOpenedComment,
    InvalidCharacterSequenceAfterDoctypeName,
    InvalidFirstCharacterOfTagName,
    MissingAttributeValue,
    MissingDoctypeName,
    MissingDoctypePublicIdentifier,
    MissingDoctypeSystemIdentifier,
    MissingEndTagName,
    MissingQuoteBeforeDoctypePublicIdentifier,
    MissingQuoteBeforeDoctypeSystemIdentifier,
    MissingSemicolonAfterCharacterReference,
    MissingWhitespaceAfterDoctypePublicKeyword,
    MissingWhitespaceAfterDoctypeSystemKeyword,
    MissingWhitespaceBeforeDoctypeName,
    MissingWhitespaceBetweenAttributes,
    MissingWhitespaceBetweenDoctypePublicAndSystemIdentifiers,
    NestedComment,
    NoncharacterCharacterReference,
    NullCharacterReference,
    SurrogateCharacterReference,
    UnexpectedCharacterAfterDoctypeSystemIdentifier,
    UnexpectedCharacterInAttributeName,
    UnexpectedCharacterInUnquotedAttributeValue,
    UnexpectedEqualsSignBeforeAttributeName,
    UnexpectedNullCharacter,
    UnexpectedQuestionMarkInsteadOfTagName,
    UnexpectedSolidusInTag,
    UnknownNamedCharacterReference,
}

/// A misuse of the tokenizer by its caller, as opposed to malformed input.
#[derive(Debug, Clone, Copy, PartialEq, Eq, Hash, Structural)]
pub enum Misuse {
    /// The tokenizer was driven after it had emitted the end of file.
    Exhausted,
    /// The collaborator reported a current node whose name no element can have.
    InconsistentNode,
}

/// The view of an [`Attribute`].
#[verifier::ext_equal]
pub struct AttributeModel {
    pub name: Seq<char>,
    pub value: Seq<char>,
}

/// The view of a [`Token`].
#[verifier::ext_equal]
pub enum TokenModel {
    Doctype {
        name: Option<Seq<char>>,
        public_id: Option<Seq<char>>,
        system_id: Option<Seq<char>>,
        force_quirks: bool,
    },
    StartTag {
        tag_name: Seq<char>,
        self_closing: bool,
        attributes: Seq<AttributeModel>,
    },
    EndTag {
        tag_name: Seq<char>,
    },
    Character(char),
    Comment(Seq<char>),
    EndOfFile,
}

/// The characters of an optional text.
pub open spec fn text_option(o: Option<String>) -> Option<Seq<char>> {
    match o {
        Some(s) => Some(s@),
        None => None,
    }
}

/// The views of attributes, one by one.
pub open spec fn attribute_models(v: Seq<Attribute>) -> Seq<AttributeModel> {
    Seq::new(v.len(), |i: int| v[i]@)
}

/// The views of tokens, one by one.
pub open spec fn token_models(v: Seq<Token>) -> Seq<TokenModel> {
    Seq::new(v.len(), |i: int| v[i]@)
}

impl View for Attribute {
    type V = AttributeModel;

    open spec fn view(&self) -> AttributeModel {
        AttributeModel { name: self.name@, value: self.value@ }
    }
}

impl View for Token {
    type V = TokenModel;

    open spec fn view(&self) -> TokenModel {
        match *self {
            Token::Doctype { name, public_id, system_id, force_quirks } => TokenModel::Doctype {
                name: text_option(name),
                public_id: text_option(public_id),
                system_id: text_option(system_id),
                force_quirks,
            },
            Token::StartTag { tag_name, self_closing, attributes } => TokenModel::StartTag {
                tag_name: tag_name@,
                self_closing,
                attributes: attribute_models(attributes@),
            },
            Token::EndTag { tag_name } => TokenModel::EndTag { tag_name: tag_name@ },
            Token::Character(c) => TokenModel::Character(c),
            Token::Comment(text) => TokenModel::Comment(text@),
            Token::EndOfFile => TokenModel::EndOfFile,
        }
    }
}

/// Tokenizes `html`: the tokens of a run from the data state over the whole
/// of it, the last of them the end of file.
pub fn tokenize(html: &String) -> (tokens: Vec<Token>)
    ensures
        token_models(tokens@) == tokens_of(html@),
        tokens@.len() > 0,
        tokens@.last() is EndOfFile,
        forall|i: int| 0 <= i < tokens@.len() - 1 ==> !(#[trigger] tokens@[i] is EndOfFile),
        forall|i: int| 0 <= i < tokens@.len() ==> token_folded((#[trigger] tokens@[i])@),
        forall|i: int| 0 <= i < tokens@.len() ==> token_unique((#[trigger] tokens@[i])@),
{
    let mut parser = Parser::new();
    assert(parser@.feed(html@) =~= Machine::start(html@));
    let _ = parser.parse_html(html);
    let tokens = parser.take_tokens();
    proof {
        end_of_file_is_last(html@);
        names_are_folded(html@);
        attribute_names_differ(html@);
        let models = token_models(tokens@);
        assert(models.last() == tokens@.last()@);
        assert forall|i: int| 0 <= i < tokens@.len() - 1 implies !(#[trigger] tokens@[i]
            is EndOfFile) by {
            assert(models.drop_last()[i] == tokens@[i]@);
        }
        assert forall|i: int| 0 <= i < tokens@.len() implies token_folded(
            (#[trigger] tokens@[i])@,
        ) by {
            assert(models[i] == tokens@[i]@);
        }
        assert forall|i: int| 0 <= i < tokens@.len() implies token_unique(
            (#[trigger] tokens@[i])@,
        ) by {
            assert(models[i] == tokens@[i]@);
        }
    }
    tokens
}

/// Whether an end tag named `end_tag_name` is appropriate in `context`: the
/// name of the current node where tree construction supplies it, else of the
/// start tag emitted last. With no context no end tag is appropriate.
pub fn is_appropriate_end_tag(end_tag_name: &Vec<char>, context: &Option<Vec<char>>) -> (b: bool)
    ensures
        b == appropriate(end_tag_name@, chars_option(*context)),
{
    match context {
        Some(name) => same_text(name, end_tag_name),
        None => false,
    }
}

} // verus!
