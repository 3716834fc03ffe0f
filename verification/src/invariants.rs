//! What every step keeps: the run draws nearer to its end, the end of file
//! comes last, names stay folded to lowercase, and the attributes of a tag
//! differ in their names.

use vstd::prelude::*;
use crate::chars::{is_whitespace, no_upper};
use crate::entities::longest_match_fits;
use crate::model::Machine;
use crate::states::attribute::{
    after_attribute_name,
    after_attribute_value_quoted,
    attribute_name,
    attribute_value_double_quoted,
    attribute_value_single_quoted,
    attribute_value_unquoted,
    before_attribute_name,
    before_attribute_value,
    self_closing_start_tag,
};
use crate::states::cdata::{cdata_section, cdata_section_bracket, cdata_section_end};
use crate::states::comment::{
    bogus_comment,
    comment,
    comment_end,
    comment_end_bang,
    comment_end_dash,
    comment_less_than_sign,
    comment_less_than_sign_bang,
    comment_less_than_sign_bang_dash,
    comment_less_than_sign_bang_dash_dash,
    comment_start,
    comment_start_dash,
    markup_declaration_open,
};
use crate::states::doctype::{
    after_doctype_name,
    after_doctype_public_identifier,
    after_doctype_public_keyword,
    after_doctype_system_identifier,
    after_doctype_system_keyword,
    before_doctype_name,
    before_doctype_public_identifier,
    before_doctype_system_identifier,
    between_doctype_public_and_system_identifiers,
    bogus_doctype,
    doctype,
    doctype_name,
    doctype_public_identifier_double_quoted,
    doctype_public_identifier_single_quoted,
    doctype_system_identifier_double_quoted,
    doctype_system_identifier_single_quoted,
};
use crate::states::raw::{
    script_data_less_than_sign,
    text_end_tag_name,
    text_end_tag_open,
    text_less_than_sign,
};
use crate::states::reference::{
    ambiguous_ampersand,
    character_reference,
    decimal_character_reference,
    decimal_character_reference_start,
    hexadecimal_character_reference,
    hexadecimal_character_reference_start,
    named_character_reference,
    numeric_character_reference,
    numeric_character_reference_end,
};
use crate::states::script::{
    script_data_double_escape,
    script_data_double_escaped,
    script_data_double_escaped_dash,
    script_data_double_escaped_dash_dash,
    script_data_double_escaped_less_than_sign,
    script_data_escape_start,
    script_data_escape_start_dash,
    script_data_escaped,
    script_data_escaped_dash,
    script_data_escaped_dash_dash,
    script_data_escaped_less_than_sign,
};
use crate::states::tag::{end_tag_open, tag_name, tag_open};
use crate::states::text::{data, plaintext, rawtext, rcdata, script_data};
use crate::step::{
    step, step_attribute, step_cdata, step_comment, step_doctype, step_raw, step_reference,
    step_script, step_tag, step_text,
};
use crate::tokenizer::{AttributeModel, State, TokenModel};

verus! {

/// How many steps a state can take on the character `c` without moving the
/// cursor, at most.
pub open spec fn rank(s: State, c: Option<char>) -> nat {
    match s {
        State::TagOpen | State::EndTagOpen => 1,
        State::RcdataLessThanSign | State::RawtextLessThanSign | State::ScriptDataLessThanSign => 1,
        State::RcdataEndTagName | State::RawtextEndTagName | State::ScriptDataEndTagName => 1,
        State::RcdataEndTagOpen | State::RawtextEndTagOpen | State::ScriptDataEndTagOpen => 2,
        State::ScriptDataEscapeStart | State::ScriptDataEscapeStartDash => 1,
        State::ScriptDataDoubleEscapeStart | State::ScriptDataEscapedEndTagName => 1,
        State::ScriptDataEscapedLessThanSign | State::ScriptDataEscapedEndTagOpen => 2,
        State::ScriptDataDoubleEscapedLessThanSign | State::ScriptDataDoubleEscapeEnd => 1,
        State::AttributeName => if c is None || is_whitespace(c->0) || c == Some('/') || c == Some(
            '>',
        ) {
            1
        } else {
            0
        },
        State::AfterAttributeName => if c is None || is_whitespace(c->0) || c == Some('/') || c
            == Some('=') || c == Some('>') {
            0
        } else {
            1
        },
        State::BeforeAttributeName => 2,
        State::BeforeAttributeValue => 1,
        State::AfterAttributeValueQuoted | State::SelfClosingStartTag => 3,
        State::MarkupDeclarationOpen => 1,
        State::CommentStart | State::CommentStartDash | State::CommentLessThanSign => 1,
        State::CommentLessThanSignBang | State::CommentEndDash | State::CommentEnd => 1,
        State::CommentEndBang => 1,
        State::CommentLessthanSignBangDash | State::CommentLessThanSignBangDashDash => 2,
        State::Doctype | State::AfterDoctypeName | State::AfterDoctypePublicKeyword => 1,
        State::BeforeDoctypePublicIdentifier | State::AfterDoctypePublicIdentifier => 1,
        State::BetweenDoctypePublicAndSystemIdentifiers | State::AfterDoctypeSystemKeyword => 1,
        State::BeforeDoctypeSystemIdentifier | State::AfterDoctypeSystemIdentifier => 1,
        State::CDataSectionBracket | State::CDataSectionEnd => 1,
        State::AmbiguousAmpersand | State::NumericCharacterReferenceEnd => 1,
        State::NamedCharacterReference => 2,
        State::HexadecimalCharacterReference | State::DecimalCharacterReference => 2,
        State::CharacterReference => 3,
        State::HexadecimalCharacterReferenceStart | State::DecimalCharacterReferenceStart => 3,
        State::NumericCharacterReference => 4,
        _ => 0,
    }
}

/// What is left of a run where the cursor stands: zero once the run is over.
pub open spec fn weight(m: Machine) -> nat {
    if m.finished {
        0
    } else {
        1 + rank(m.state, m.peek())
    }
}

/// `n` is nearer to the end of the run than `m`: on the same input, the
/// cursor has moved on, or it stands and less is left to do.
pub open spec fn progresses(m: Machine, n: Machine) -> bool {
    &&& n.wf()
    &&& n.input == m.input
    &&& (n.pos > m.pos || (n.pos == m.pos && weight(n) < weight(m)))
}

/// No token of `tokens` is the end of file.
pub open spec fn no_end_of_file(tokens: Seq<TokenModel>) -> bool {
    forall|i: int| 0 <= i < tokens.len() ==> !(#[trigger] tokens[i] is EndOfFile)
}

/// The end of file has been emitted where the run is over, and nowhere but
/// as the last token.
pub open spec fn ends_well(m: Machine) -> bool {
    if m.finished {
        m.tokens.len() > 0 && m.tokens.last() is EndOfFile && no_end_of_file(m.tokens.drop_last())
    } else {
        no_end_of_file(m.tokens)
    }
}

/// No attribute of `attributes` has an ASCII uppercase letter in its name.
pub open spec fn attributes_folded(attributes: Seq<AttributeModel>) -> bool {
    forall|i: int| 0 <= i < attributes.len() ==> no_upper((#[trigger] attributes[i]).name)
}

/// The names of a tag token and of its attributes hold no ASCII uppercase
/// letter.
pub open spec fn token_folded(token: TokenModel) -> bool {
    match token {
        TokenModel::StartTag { tag_name, attributes, .. } => {
            no_upper(tag_name) && attributes_folded(attributes)
        },
        TokenModel::EndTag { tag_name } => no_upper(tag_name),
        _ => true,
    }
}

pub open spec fn tokens_folded(tokens: Seq<TokenModel>) -> bool {
    forall|i: int| 0 <= i < tokens.len() ==> token_folded(#[trigger] tokens[i])
}

/// The names of the tag and the attribute under construction, and of the
/// tokens emitted, hold no ASCII uppercase letter.
pub open spec fn folded(m: Machine) -> bool {
    &&& no_upper(m.tag.name)
    &&& attributes_folded(m.tag.attributes)
    &&& (m.attr matches Some(a) ==> no_upper(a.name))
    &&& tokens_folded(m.tokens)
}

/// No two attributes of `attributes` have the same name.
pub open spec fn names_differ(attributes: Seq<AttributeModel>) -> bool {
    forall|i: int, j: int|
        0 <= i < j < attributes.len() ==> (#[trigger] attributes[i]).name != (
        #[trigger] attributes[j]).name
}

/// No two attributes of a start tag have the same name.
pub open spec fn token_unique(token: TokenModel) -> bool {
    match token {
        TokenModel::StartTag { attributes, .. } => names_differ(attributes),
        _ => true,
    }
}

pub open spec fn tokens_unique(tokens: Seq<TokenModel>) -> bool {
    forall|i: int| 0 <= i < tokens.len() ==> token_unique(#[trigger] tokens[i])
}

/// No two attributes of the tag under construction, nor of a tag emitted,
/// have the same name.
pub open spec fn unique(m: Machine) -> bool {
    &&& names_differ(m.tag.attributes)
    &&& tokens_unique(m.tokens)
}

/// `later` begins with `earlier`: nothing was taken back or changed, only
/// appended.
pub open spec fn extends<T>(earlier: Seq<T>, later: Seq<T>) -> bool {
    &&& earlier.len() <= later.len()
    &&& forall|i: int| 0 <= i < earlier.len() ==> later[i] == #[trigger] earlier[i]
}

/// What a step from `m` to `n` keeps.
pub open spec fn preserves(m: Machine, n: Machine) -> bool {
    &&& progresses(m, n)
    &&& extends(m.tokens, n.tokens)
    &&& extends(m.errors, n.errors)
    &&& ends_well(m) ==> ends_well(n)
    &&& folded(m) ==> folded(n)
    &&& unique(m) ==> unique(n)
}

proof fn in_data(m: Machine)
    requires
        m.wf(),
        !m.finished,
        m.state == State::Data,
    ensures
        preserves(m, data(m)),
{
}

proof fn in_rcdata(m: Machine)
    requires
        m.wf(),
        !m.finished,
        m.state == State::Rcdata,
    ensures
        preserves(m, rcdata(m)),
{
}

proof fn in_rawtext(m: Machine)
    requires
        m.wf(),
        !m.finished,
        m.state == State::Rawtext,
    ensures
        preserves(m, rawtext(m)),
{
}

proof fn in_script_data(m: Machine)
    requires
        m.wf(),
        !m.finished,
        m.state == State::ScriptData,
    ensures
        preserves(m, script_data(m)),
{
}

proof fn in_plaintext(m: Machine)
    requires
        m.wf(),
        !m.finished,
        m.state == State::Plaintext,
    ensures
        preserves(m, plaintext(m)),
{
}

proof fn in_tag_open(m: Machine)
    requires
        m.wf(),
        !m.finished,
        m.state == State::TagOpen,
    ensures
        preserves(m, tag_open(m)),
{
}

proof fn in_end_tag_open(m: Machine)
    requires
        m.wf(),
        !m.finished,
        m.state == State::EndTagOpen,
    ensures
        preserves(m, end_tag_open(m)),
{
}

proof fn in_tag_name(m: Machine)
    requires
        m.wf(),
        !m.finished,
        m.state == State::TagName,
    ensures
        preserves(m, tag_name(m)),
{
}

proof fn in_rcdata_less_than_sign(m: Machine)
    requires
        m.wf(),
        !m.finished,
        m.state == State::RcdataLessThanSign,
    ensures
        preserves(m, text_less_than_sign(m, State::Rcdata, State::RcdataEndTagOpen)),
{
}

proof fn in_rcdata_end_tag_open(m: Machine)
    requires
        m.wf(),
        !m.finished,
        m.state == State::RcdataEndTagOpen,
    ensures
        preserves(m, text_end_tag_open(m, State::Rcdata, State::RcdataEndTagName)),
{
}

proof fn in_rcdata_end_tag_name(m: Machine)
    requires
        m.wf(),
        !m.finished,
        m.state == State::RcdataEndTagName,
    ensures
        preserves(m, text_end_tag_name(m, State::Rcdata)),
{
}

proof fn in_rawtext_less_than_sign(m: Machine)
    requires
        m.wf(),
        !m.finished,
        m.state == State::RawtextLessThanSign,
    ensures
        preserves(m, text_less_than_sign(m, State::Rawtext, State::RawtextEndTagOpen)),
{
}

proof fn in_rawtext_end_tag_open(m: Machine)
    requires
        m.wf(),
        !m.finished,
        m.state == State::RawtextEndTagOpen,
    ensures
        preserves(m, text_end_tag_open(m, State::Rawtext, State::RawtextEndTagName)),
{
}

proof fn in_rawtext_end_tag_name(m: Machine)
    requires
        m.wf(),
        !m.finished,
        m.state == State::RawtextEndTagName,
    ensures
        preserves(m, text_end_tag_name(m, State::Rawtext)),
{
}

proof fn in_script_data_less_than_sign(m: Machine)
    requires
        m.wf(),
        !m.finished,
        m.state == State::ScriptDataLessThanSign,
    ensures
        preserves(m, script_data_less_than_sign(m)),
{
}

proof fn in_script_data_end_tag_open(m: Machine)
    requires
        m.wf(),
        !m.finished,
        m.state == State::ScriptDataEndTagOpen,
    ensures
        preserves(m, text_end_tag_open(m, State::ScriptData, State::ScriptDataEndTagName)),
{
}

proof fn in_script_data_end_tag_name(m: Machine)
    requires
        m.wf(),
        !m.finished,
        m.state == State::ScriptDataEndTagName,
    ensures
        preserves(m, text_end_tag_name(m, State::ScriptData)),
{
}

proof fn in_script_data_escape_start(m: Machine)
    requires
        m.wf(),
        !m.finished,
        m.state == State::ScriptDataEscapeStart,
    ensures
        preserves(m, script_data_escape_start(m)),
{
}

proof fn in_script_data_escape_start_dash(m: Machine)
    requires
        m.wf(),
        !m.finished,
        m.state == State::ScriptDataEscapeStartDash,
    ensures
        preserves(m, script_data_escape_start_dash(m)),
{
}

proof fn in_script_data_escaped(m: Machine)
    requires
        m.wf(),
        !m.finished,
        m.state == State::ScriptDataEscaped,
    ensures
        preserves(m, script_data_escaped(m)),
{
}

proof fn in_script_data_escaped_dash(m: Machine)
    requires
        m.wf(),
        !m.finished,
        m.state == State::ScriptDataEscapedDash,
    ensures
        preserves(m, script_data_escaped_dash(m)),
{
}

proof fn in_script_data_escaped_dash_dash(m: Machine)
    requires
        m.wf(),
        !m.finished,
        m.state == State::ScriptDataEscapedDashDash,
    ensures
        preserves(m, script_data_escaped_dash_dash(m)),
{
}

proof fn in_script_data_escaped_less_than_sign(m: Machine)
    requires
        m.wf(),
        !m.finished,
        m.state == State::ScriptDataEscapedLessThanSign,
    ensures
        preserves(m, script_data_escaped_less_than_sign(m)),
{
}

proof fn in_script_data_escaped_end_tag_open(m: Machine)
    requires
        m.wf(),
        !m.finished,
        m.state == State::ScriptDataEscapedEndTagOpen,
    ensures
        preserves(
            m,
            text_end_tag_open(m, State::ScriptDataEscaped, State::ScriptDataEscapedEndTagName),
        ),
{
}

proof fn in_script_data_escaped_end_tag_name(m: Machine)
    requires
        m.wf(),
        !m.finished,
        m.state == State::ScriptDataEscapedEndTagName,
    ensures
        preserves(m, text_end_tag_name(m, State::ScriptDataEscaped)),
{
}

proof fn in_script_data_double_escape_start(m: Machine)
    requires
        m.wf(),
        !m.finished,
        m.state == State::ScriptDataDoubleEscapeStart,
    ensures
        preserves(
            m,
            script_data_double_escape(m, State::ScriptDataDoubleEscaped, State::ScriptDataEscaped),
        ),
{
}

proof fn in_script_data_double_escaped(m: Machine)
    requires
        m.wf(),
        !m.finished,
        m.state == State::ScriptDataDoubleEscaped,
    ensures
        preserves(m, script_data_double_escaped(m)),
{
}

proof fn in_script_data_double_escaped_dash(m: Machine)
    requires
        m.wf(),
        !m.finished,
        m.state == State::ScriptDataDoubleEscapedDash,
    ensures
        preserves(m, script_data_double_escaped_dash(m)),
{
}

proof fn in_script_data_double_escaped_dash_dash(m: Machine)
    requires
        m.wf(),
        !m.finished,
        m.state == State::ScriptDataDoubleEscapedDashDash,
    ensures
        preserves(m, script_data_double_escaped_dash_dash(m)),
{
}

proof fn in_script_data_double_escaped_less_than_sign(m: Machine)
    requires
        m.wf(),
        !m.finished,
        m.state == State::ScriptDataDoubleEscapedLessThanSign,
    ensures
        preserves(m, script_data_double_escaped_less_than_sign(m)),
{
}

proof fn in_script_data_double_escape_end(m: Machine)
    requires
        m.wf(),
        !m.finished,
        m.state == State::ScriptDataDoubleEscapeEnd,
    ensures
        preserves(
            m,
            script_data_double_escape(m, State::ScriptDataEscaped, State::ScriptDataDoubleEscaped),
        ),
{
}

proof fn in_before_attribute_name(m: Machine)
    requires
        m.wf(),
        !m.finished,
        m.state == State::BeforeAttributeName,
    ensures
        preserves(m, before_attribute_name(m)),
{
}

proof fn in_attribute_name(m: Machine)
    requires
        m.wf(),
        !m.finished,
        m.state == State::AttributeName,
    ensures
        preserves(m, attribute_name(m)),
{
}

proof fn in_after_attribute_name(m: Machine)
    requires
        m.wf(),
        !m.finished,
        m.state == State::AfterAttributeName,
    ensures
        preserves(m, after_attribute_name(m)),
{
}

proof fn in_before_attribute_value(m: Machine)
    requires
        m.wf(),
        !m.finished,
        m.state == State::BeforeAttributeValue,
    ensures
        preserves(m, before_attribute_value(m)),
{
}

proof fn in_attribute_value_double_quoted(m: Machine)
    requires
        m.wf(),
        !m.finished,
        m.state == State::AttributeValueDoubleQuoted,
    ensures
        preserves(m, attribute_value_double_quoted(m)),
{
}

proof fn in_attribute_value_single_quoted(m: Machine)
    requires
        m.wf(),
        !m.finished,
        m.state == State::AttributeValueSingleQuoted,
    ensures
        preserves(m, attribute_value_single_quoted(m)),
{
}

proof fn in_attribute_value_unquoted(m: Machine)
    requires
        m.wf(),
        !m.finished,
        m.state == State::AttributeValueUnquoted,
    ensures
        preserves(m, attribute_value_unquoted(m)),
{
}

proof fn in_after_attribute_value_quoted(m: Machine)
    requires
        m.wf(),
        !m.finished,
        m.state == State::AfterAttributeValueQuoted,
    ensures
        preserves(m, after_attribute_value_quoted(m)),
{
}

proof fn in_self_closing_start_tag(m: Machine)
    requires
        m.wf(),
        !m.finished,
        m.state == State::SelfClosingStartTag,
    ensures
        preserves(m, self_closing_start_tag(m)),
{
}

proof fn in_bogus_comment(m: Machine)
    requires
        m.wf(),
        !m.finished,
        m.state == State::BogusComment,
    ensures
        preserves(m, bogus_comment(m)),
{
}

proof fn in_markup_declaration_open(m: Machine)
    requires
        m.wf(),
        !m.finished,
        m.state == State::MarkupDeclarationOpen,
    ensures
        preserves(m, markup_declaration_open(m)),
{
}

proof fn in_comment_start(m: Machine)
    requires
        m.wf(),
        !m.finished,
        m.state == State::CommentStart,
    ensures
        preserves(m, comment_start(m)),
{
}

proof fn in_comment_start_dash(m: Machine)
    requires
        m.wf(),
        !m.finished,
        m.state == State::CommentStartDash,
    ensures
        preserves(m, comment_start_dash(m)),
{
}

proof fn in_comment(m: Machine)
    requires
        m.wf(),
        !m.finished,
        m.state == State::Comment,
    ensures
        preserves(m, comment(m)),
{
}

proof fn in_comment_less_than_sign(m: Machine)
    requires
        m.wf(),
        !m.finished,
        m.state == State::CommentLessThanSign,
    ensures
        preserves(m, comment_less_than_sign(m)),
{
}

proof fn in_comment_less_than_sign_bang(m: Machine)
    requires
        m.wf(),
        !m.finished,
        m.state == State::CommentLessThanSignBang,
    ensures
        preserves(m, comment_less_than_sign_bang(m)),
{
}

proof fn in_comment_less_than_sign_bang_dash(m: Machine)
    requires
        m.wf(),
        !m.finished,
        m.state == State::CommentLessthanSignBangDash,
    ensures
        preserves(m, comment_less_than_sign_bang_dash(m)),
{
}

proof fn in_comment_less_than_sign_bang_dash_dash(m: Machine)
    requires
        m.wf(),
        !m.finished,
        m.state == State::CommentLessThanSignBangDashDash,
    ensures
        preserves(m, comment_less_than_sign_bang_dash_dash(m)),
{
}

proof fn in_comment_end_dash(m: Machine)
    requires
        m.wf(),
        !m.finished,
        m.state == State::CommentEndDash,
    ensures
        preserves(m, comment_end_dash(m)),
{
}

proof fn in_comment_end(m: Machine)
    requires
        m.wf(),
        !m.finished,
        m.state == State::CommentEnd,
    ensures
        preserves(m, comment_end(m)),
{
}

proof fn in_comment_end_bang(m: Machine)
    requires
        m.wf(),
        !m.finished,
        m.state == State::CommentEndBang,
    ensures
        preserves(m, comment_end_bang(m)),
{
}

proof fn in_doctype(m: Machine)
    requires
        m.wf(),
        !m.finished,
        m.state == State::Doctype,
    ensures
        preserves(m, doctype(m)),
{
}

proof fn in_before_doctype_name(m: Machine)
    requires
        m.wf(),
        !m.finished,
        m.state == State::BeforeDoctypeName,
    ensures
        preserves(m, before_doctype_name(m)),
{
}

proof fn in_doctype_name(m: Machine)
    requires
        m.wf(),
        !m.finished,
        m.state == State::DoctypeName,
    ensures
        preserves(m, doctype_name(m)),
{
}

proof fn in_after_doctype_name(m: Machine)
    requires
        m.wf(),
        !m.finished,
        m.state == State::AfterDoctypeName,
    ensures
        preserves(m, after_doctype_name(m)),
{
}

proof fn in_after_doctype_public_keyword(m: Machine)
    requires
        m.wf(),
        !m.finished,
        m.state == State::AfterDoctypePublicKeyword,
    ensures
        preserves(m, after_doctype_public_keyword(m)),
{
}

proof fn in_before_doctype_public_identifier(m: Machine)
    requires
        m.wf(),
        !m.finished,
        m.state == State::BeforeDoctypePublicIdentifier,
    ensures
        preserves(m, before_doctype_public_identifier(m)),
{
}

proof fn in_doctype_public_identifier_double_quoted(m: Machine)
    requires
        m.wf(),
        !m.finished,
        m.state == State::DoctypePublicIdentifierDoubleQuoted,
    ensures
        preserves(m, doctype_public_identifier_double_quoted(m)),
{
}

proof fn in_doctype_public_identifier_single_quoted(m: Machine)
    requires
        m.wf(),
        !m.finished,
        m.state == State::DoctypePublicIdentifierSingleQuoted,
    ensures
        preserves(m, doctype_public_identifier_single_quoted(m)),
{
}

proof fn in_after_doctype_public_identifier(m: Machine)
    requires
        m.wf(),
        !m.finished,
        m.state == State::AfterDoctypePublicIdentifier,
    ensures
        preserves(m, after_doctype_public_identifier(m)),
{
}

proof fn in_between_doctype_public_and_system_identifiers(m: Machine)
    requires
        m.wf(),
        !m.finished,
        m.state == State::BetweenDoctypePublicAndSystemIdentifiers,
    ensures
        preserves(m, between_doctype_public_and_system_identifiers(m)),
{
}

proof fn in_after_doctype_system_keyword(m: Machine)
    requires
        m.wf(),
        !m.finished,
        m.state == State::AfterDoctypeSystemKeyword,
    ensures
        preserves(m, after_doctype_system_keyword(m)),
{
}

proof fn in_before_doctype_system_identifier(m: Machine)
    requires
        m.wf(),
        !m.finished,
        m.state == State::BeforeDoctypeSystemIdentifier,
    ensures
        preserves(m, before_doctype_system_identifier(m)),
{
}

proof fn in_doctype_system_identifier_double_quoted(m: Machine)
    requires
        m.wf(),
        !m.finished,
        m.state == State::DoctypeSystemIdentifierDoubleQuoted,
    ensures
        preserves(m, doctype_system_identifier_double_quoted(m)),
{
}

proof fn in_doctype_system_identifier_single_quoted(m: Machine)
    requires
        m.wf(),
        !m.finished,
        m.state == State::DoctypeSystemIdentifierSingleQuoted,
    ensures
        preserves(m, doctype_system_identifier_single_quoted(m)),
{
}

proof fn in_after_doctype_system_identifier(m: Machine)
    requires
        m.wf(),
        !m.finished,
        m.state == State::AfterDoctypeSystemIdentifier,
    ensures
        preserves(m, after_doctype_system_identifier(m)),
{
}

proof fn in_bogus_doctype(m: Machine)
    requires
        m.wf(),
        !m.finished,
        m.state == State::BogusDoctype,
    ensures
        preserves(m, bogus_doctype(m)),
{
}

proof fn in_cdata_section(m: Machine)
    requires
        m.wf(),
        !m.finished,
        m.state == State::CDataSection,
    ensures
        preserves(m, cdata_section(m)),
{
}

proof fn in_cdata_section_bracket(m: Machine)
    requires
        m.wf(),
        !m.finished,
        m.state == State::CDataSectionBracket,
    ensures
        preserves(m, cdata_section_bracket(m)),
{
}

proof fn in_cdata_section_end(m: Machine)
    requires
        m.wf(),
        !m.finished,
        m.state == State::CDataSectionEnd,
    ensures
        preserves(m, cdata_section_end(m)),
{
}

proof fn in_character_reference(m: Machine)
    requires
        m.wf(),
        !m.finished,
        m.state == State::CharacterReference,
    ensures
        preserves(m, character_reference(m)),
{
}

proof fn in_named_character_reference(m: Machine)
    requires
        m.wf(),
        !m.finished,
        m.state == State::NamedCharacterReference,
    ensures
        preserves(m, named_character_reference(m)),
{
    longest_match_fits(m.rest());
}

proof fn in_ambiguous_ampersand(m: Machine)
    requires
        m.wf(),
        !m.finished,
        m.state == State::AmbiguousAmpersand,
    ensures
        preserves(m, ambiguous_ampersand(m)),
{
}

proof fn in_numeric_character_reference(m: Machine)
    requires
        m.wf(),
        !m.finished,
        m.state == State::NumericCharacterReference,
    ensures
        preserves(m, numeric_character_reference(m)),
{
}

proof fn in_hexadecimal_character_reference_start(m: Machine)
    requires
        m.wf(),
        !m.finished,
        m.state == State::HexadecimalCharacterReferenceStart,
    ensures
        preserves(m, hexadecimal_character_reference_start(m)),
{
}

proof fn in_decimal_character_reference_start(m: Machine)
    requires
        m.wf(),
        !m.finished,
        m.state == State::DecimalCharacterReferenceStart,
    ensures
        preserves(m, decimal_character_reference_start(m)),
{
}

proof fn in_hexadecimal_character_reference(m: Machine)
    requires
        m.wf(),
        !m.finished,
        m.state == State::HexadecimalCharacterReference,
    ensures
        preserves(m, hexadecimal_character_reference(m)),
{
}

proof fn in_decimal_character_reference(m: Machine)
    requires
        m.wf(),
        !m.finished,
        m.state == State::DecimalCharacterReference,
    ensures
        preserves(m, decimal_character_reference(m)),
{
}

proof fn in_numeric_character_reference_end(m: Machine)
    requires
        m.wf(),
        !m.finished,
        m.state == State::NumericCharacterReferenceEnd,
    ensures
        preserves(m, numeric_character_reference_end(m)),
{
}

/// Every step of a run that is not over brings the run nearer to its end
/// and only appends to the tokens and to the errors; it leaves the end of
/// file last, names folded, and the attributes of each tag different in their
/// names.
pub proof fn step_preserves(m: Machine)
    requires
        m.wf(),
        !m.finished,
    ensures
        preserves(m, step(m)),
{
    reveal(step);
    reveal(step_text);
    reveal(step_tag);
    reveal(step_raw);
    reveal(step_script);
    reveal(step_attribute);
    reveal(step_comment);
    reveal(step_doctype);
    reveal(step_cdata);
    reveal(step_reference);
    match m.state {
        State::Data => in_data(m),
        State::Rcdata => in_rcdata(m),
        State::Rawtext => in_rawtext(m),
        State::ScriptData => in_script_data(m),
        State::Plaintext => in_plaintext(m),
        State::TagOpen => in_tag_open(m),
        State::EndTagOpen => in_end_tag_open(m),
        State::TagName => in_tag_name(m),
        State::RcdataLessThanSign => in_rcdata_less_than_sign(m),
        State::RcdataEndTagOpen => in_rcdata_end_tag_open(m),
        State::RcdataEndTagName => in_rcdata_end_tag_name(m),
        State::RawtextLessThanSign => in_rawtext_less_than_sign(m),
        State::RawtextEndTagOpen => in_rawtext_end_tag_open(m),
        State::RawtextEndTagName => in_rawtext_end_tag_name(m),
        State::ScriptDataLessThanSign => in_script_data_less_than_sign(m),
        State::ScriptDataEndTagOpen => in_script_data_end_tag_open(m),
        State::ScriptDataEndTagName => in_script_data_end_tag_name(m),
        State::ScriptDataEscapeStart => in_script_data_escape_start(m),
        State::ScriptDataEscapeStartDash => in_script_data_escape_start_dash(m),
        State::ScriptDataEscaped => in_script_data_escaped(m),
        State::ScriptDataEscapedDash => in_script_data_escaped_dash(m),
        State::ScriptDataEscapedDashDash => in_script_data_escaped_dash_dash(m),
        State::ScriptDataEscapedLessThanSign => in_script_data_escaped_less_than_sign(m),
        State::ScriptDataEscapedEndTagOpen => in_script_data_escaped_end_tag_open(m),
        State::ScriptDataEscapedEndTagName => in_script_data_escaped_end_tag_name(m),
        State::ScriptDataDoubleEscapeStart => in_script_data_double_escape_start(m),
        State::ScriptDataDoubleEscaped => in_script_data_double_escaped(m),
        State::ScriptDataDoubleEscapedDash => in_script_data_double_escaped_dash(m),
        State::ScriptDataDoubleEscapedDashDash => in_script_data_double_escaped_dash_dash(m),
        State::ScriptDataDoubleEscapedLessThanSign =>
            in_script_data_double_escaped_less_than_sign(m),
        State::ScriptDataDoubleEscapeEnd => in_script_data_double_escape_end(m),
        State::BeforeAttributeName => in_before_attribute_name(m),
        State::AttributeName => in_attribute_name(m),
        State::AfterAttributeName => in_after_attribute_name(m),
        State::BeforeAttributeValue => in_before_attribute_value(m),
        State::AttributeValueDoubleQuoted => in_attribute_value_double_quoted(m),
        State::AttributeValueSingleQuoted => in_attribute_value_single_quoted(m),
        State::AttributeValueUnquoted => in_attribute_value_unquoted(m),
        State::AfterAttributeValueQuoted => in_after_attribute_value_quoted(m),
        State::SelfClosingStartTag => in_self_closing_start_tag(m),
        State::BogusComment => in_bogus_comment(m),
        State::MarkupDeclarationOpen => in_markup_declaration_open(m),
        State::CommentStart => in_comment_start(m),
        State::CommentStartDash => in_comment_start_dash(m),
        State::Comment => in_comment(m),
        State::CommentLessThanSign => in_comment_less_than_sign(m),
        State::CommentLessThanSignBang => in_comment_less_than_sign_bang(m),
        State::CommentLessthanSignBangDash => in_comment_less_than_sign_bang_dash(m),
        State::CommentLessThanSignBangDashDash => in_comment_less_than_sign_bang_dash_dash(m),
        State::CommentEndDash => in_comment_end_dash(m),
        State::CommentEnd => in_comment_end(m),
        State::CommentEndBang => in_comment_end_bang(m),
        State::Doctype => in_doctype(m),
        State::BeforeDoctypeName => in_before_doctype_name(m),
        State::DoctypeName => in_doctype_name(m),
        State::AfterDoctypeName => in_after_doctype_name(m),
        State::AfterDoctypePublicKeyword => in_after_doctype_public_keyword(m),
        State::BeforeDoctypePublicIdentifier => in_before_doctype_public_identifier(m),
        State::DoctypePublicIdentifierDoubleQuoted => in_doctype_public_identifier_double_quoted(m),
        State::DoctypePublicIdentifierSingleQuoted => in_doctype_public_identifier_single_quoted(m),
        State::AfterDoctypePublicIdentifier => in_after_doctype_public_identifier(m),
        State::BetweenDoctypePublicAndSystemIdentifiers =>
            in_between_doctype_public_and_system_identifiers(m),
        State::AfterDoctypeSystemKeyword => in_after_doctype_system_keyword(m),
        State::BeforeDoctypeSystemIdentifier => in_before_doctype_system_identifier(m),
        State::DoctypeSystemIdentifierDoubleQuoted => in_doctype_system_identifier_double_quoted(m),
        State::DoctypeSystemIdentifierSingleQuoted => in_doctype_system_identifier_single_quoted(m),
        State::AfterDoctypeSystemIdentifier => in_after_doctype_system_identifier(m),
        State::BogusDoctype => in_bogus_doctype(m),
        State::CDataSection => in_cdata_section(m),
        State::CDataSectionBracket => in_cdata_section_bracket(m),
        State::CDataSectionEnd => in_cdata_section_end(m),
        State::CharacterReference => in_character_reference(m),
        State::NamedCharacterReference => in_named_character_reference(m),
        State::AmbiguousAmpersand => in_ambiguous_ampersand(m),
        State::NumericCharacterReference => in_numeric_character_reference(m),
        State::HexadecimalCharacterReferenceStart => in_hexadecimal_character_reference_start(m),
        State::DecimalCharacterReferenceStart => in_decimal_character_reference_start(m),
        State::HexadecimalCharacterReference => in_hexadecimal_character_reference(m),
        State::DecimalCharacterReference => in_decimal_character_reference(m),
        State::NumericCharacterReferenceEnd => in_numeric_character_reference_end(m),
    }
}

/// Every step of a run that is not over brings the run nearer to its end.
pub proof fn step_progresses(m: Machine)
    requires
        m.wf(),
        !m.finished,
    ensures
        progresses(m, step(m)),
{
    step_preserves(m);
}

} // verus!
