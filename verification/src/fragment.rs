//! Well-formed fragments: markup that is written the one way in which the
//! tokens themselves are spelled.

use vstd::prelude::*;
use crate::chars::{is_lower, is_upper, is_whitespace};
use crate::model::content_state;
use crate::tokenizer::{AttributeModel, State, TokenModel};

verus! {

/// A character that a name can hold and that is spelled as it is read.
pub open spec fn is_name_character(c: char) -> bool {
    !is_whitespace(c) && c != '/' && c != '>' && c != '\0' && !is_upper(c)
}

/// The name of a tag as it is spelled: a lowercase letter, then characters
/// of names.
pub open spec fn is_tag_name(name: Seq<char>) -> bool {
    &&& name.len() > 0
    &&& is_lower(name[0])
    &&& forall|i: int| 0 <= i < name.len() ==> is_name_character(#[trigger] name[i])
}

pub open spec fn is_attribute_name_character(c: char) -> bool {
    is_name_character(c) && c != '=' && c != '"' && c != '\'' && c != '<'
}

pub open spec fn is_attribute_name(name: Seq<char>) -> bool {
    &&& name.len() > 0
    &&& forall|i: int| 0 <= i < name.len() ==> is_attribute_name_character(#[trigger] name[i])
}

/// A value that can stand between double quotes as it is.
pub open spec fn is_attribute_value(value: Seq<char>) -> bool {
    forall|i: int|
        0 <= i < value.len() ==> (#[trigger] value[i]) != '"' && value[i] != '&' && value[i] != '\0'
}

/// Each attribute is well formed, and no two have the same name.
pub open spec fn are_attributes(attributes: Seq<AttributeModel>) -> bool {
    &&& forall|i: int|
        0 <= i < attributes.len() ==> is_attribute_name((#[trigger] attributes[i]).name)
            && is_attribute_value(attributes[i].value)
    &&& forall|i: int, j: int|
        0 <= i < j < attributes.len() ==> (#[trigger] attributes[i]).name != (
        #[trigger] attributes[j]).name
}

/// The text of a comment in which nothing looks like its end or like markup.
pub open spec fn is_comment_text(text: Seq<char>) -> bool {
    &&& forall|i: int|
        0 <= i < text.len() ==> (#[trigger] text[i]) != '-' && text[i] != '<' && text[i] != '\0'
    &&& text.len() > 0 ==> text[0] != '>'
}

pub open spec fn is_doctype_name(name: Seq<char>) -> bool {
    &&& name.len() > 0
    &&& forall|i: int|
        0 <= i < name.len() ==> !is_whitespace(#[trigger] name[i]) && name[i] != '>' && name[i]
            != '\0' && !is_upper(name[i])
}

/// Whether a token is one of a well-formed fragment: a character of text
/// that begins neither markup nor a reference; a tag, a comment or a doctype
/// that is spelled as it is read; a start tag of an element whose content is
/// read in the data state.
pub open spec fn is_well_formed(token: TokenModel) -> bool {
    match token {
        TokenModel::Character(c) => c != '<' && c != '&',
        TokenModel::StartTag { tag_name, attributes, .. } => is_tag_name(tag_name) && content_state(
            tag_name,
        ) == State::Data && are_attributes(attributes),
        TokenModel::EndTag { tag_name } => is_tag_name(tag_name),
        TokenModel::Comment(text) => is_comment_text(text),
        TokenModel::Doctype { name, public_id, system_id, force_quirks } => name is Some
            && is_doctype_name(name->0) && public_id is None && system_id is None && !force_quirks,
        TokenModel::EndOfFile => false,
    }
}

pub open spec fn all_well_formed(tokens: Seq<TokenModel>) -> bool {
    forall|i: int| 0 <= i < tokens.len() ==> is_well_formed(#[trigger] tokens[i])
}

/// How an attribute is spelled: a space, the name, and the value between
/// double quotes.
pub open spec fn attribute_spelling(a: AttributeModel) -> Seq<char> {
    seq![' '] + a.name + seq!['=', '"'] + a.value + seq!['"']
}

pub open spec fn attributes_spelling(attributes: Seq<AttributeModel>) -> Seq<char>
    decreases attributes.len(),
{
    if attributes.len() == 0 {
        Seq::empty()
    } else {
        attribute_spelling(attributes[0]) + attributes_spelling(attributes.drop_first())
    }
}

/// How a token is spelled. The end of file is spelled by nothing.
pub open spec fn spelling(token: TokenModel) -> Seq<char> {
    match token {
        TokenModel::Character(c) => seq![c],
        TokenModel::StartTag { tag_name, self_closing, attributes } => seq!['<'] + tag_name
            + attributes_spelling(attributes) + (if self_closing {
            seq!['/', '>']
        } else {
            seq!['>']
        }),
        TokenModel::EndTag { tag_name } => seq!['<', '/'] + tag_name + seq!['>'],
        TokenModel::Comment(text) => seq!['<', '!', '-', '-'] + text + seq!['-', '-', '>'],
        TokenModel::Doctype { name, .. } => seq!['<', '!', 'D', 'O', 'C', 'T', 'Y', 'P', 'E', ' ']
            + (match name {
            Some(n) => n,
            None => Seq::empty(),
        }) + seq!['>'],
        TokenModel::EndOfFile => Seq::empty(),
    }
}

/// How a sequence of tokens is spelled: token after token.
pub open spec fn spelling_of(tokens: Seq<TokenModel>) -> Seq<char>
    decreases tokens.len(),
{
    if tokens.len() == 0 {
        Seq::empty()
    } else {
        spelling(tokens[0]) + spelling_of(tokens.drop_first())
    }
}

} // verus!
