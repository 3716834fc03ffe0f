//! One step of the tokenizer: what the current state does with the input at
//! the cursor.

use vstd::prelude::*;
use crate::model::Machine;
use crate::parser::Parser;
use crate::states::attribute::{
    after_attribute_name,
    after_attribute_value_quoted,
    attribute_name,
    attribute_value_double_quoted,
    attribute_value_single_quoted,
    attribute_value_unquoted,
    before_attribute_name,
    before_attribute_value,
    self_closing_start_tag,
};
use crate::states::cdata::{cdata_section, cdata_section_bracket, cdata_section_end};
use crate::states::comment::{
    bogus_comment,
    comment,
    comment_end,
    comment_end_bang,
    comment_end_dash,
    comment_less_than_sign,
    comment_less_than_sign_bang,
    comment_less_than_sign_bang_dash,
    comment_less_than_sign_bang_dash_dash,
    comment_start,
    comment_start_dash,
    markup_declaration_open,
};
use crate::states::doctype::{
    after_doctype_name,
    after_doctype_public_identifier,
    after_doctype_public_keyword,
    after_doctype_system_identifier,
    after_doctype_system_keyword,
    before_doctype_name,
    before_doctype_public_identifier,
    before_doctype_system_identifier,
    between_doctype_public_and_system_identifiers,
    bogus_doctype,
    doctype,
    doctype_name,
    doctype_public_identifier_double_quoted,
    doctype_public_identifier_single_quoted,
    doctype_system_identifier_double_quoted,
    doctype_system_identifier_single_quoted,
};
use crate::states::raw::{
    script_data_less_than_sign,
    text_end_tag_name,
    text_end_tag_open,
    text_less_than_sign,
};
use crate::states::reference::{
    ambiguous_ampersand,
    character_reference,
    decimal_character_reference,
    decimal_character_reference_start,
    hexadecimal_character_reference,
    hexadecimal_character_reference_start,
    named_character_reference,
    numeric_character_reference,
    numeric_character_reference_end,
};
use crate::states::script::{
    script_data_double_escape,
    script_data_double_escaped,
    script_data_double_escaped_dash,
    script_data_double_escaped_dash_dash,
    script_data_double_escaped_less_than_sign,
    script_data_escape_start,
    script_data_escape_start_dash,
    script_data_escaped,
    script_data_escaped_dash,
    script_data_escaped_dash_dash,
    script_data_escaped_less_than_sign,
};
use crate::states::tag::{end_tag_open, tag_name, tag_open};
use crate::states::text::{data, plaintext, rawtext, rcdata, script_data};
use crate::tokenizer::State;

verus! {

/// One step in a state that reads text. Any other state is left as it is.
#[verifier::opaque]
pub open spec fn step_text(m: Machine) -> Machine {
    match m.state {
        State::Data => data(m),
        State::Rcdata => rcdata(m),
        State::Rawtext => rawtext(m),
        State::ScriptData => script_data(m),
        State::Plaintext => plaintext(m),
        _ => m,
    }
}

/// One step in a state that opens a tag or reads its name. Any other state is left as it is.
#[verifier::opaque]
pub open spec fn step_tag(m: Machine) -> Machine {
    match m.state {
        State::TagOpen => tag_open(m),
        State::EndTagOpen => end_tag_open(m),
        State::TagName => tag_name(m),
        _ => m,
    }
}

/// One step in a state that looks for the end tag of an element whose content
/// is text. Any other state is left as it is.
#[verifier::opaque]
pub open spec fn step_raw(m: Machine) -> Machine {
    match m.state {
        State::RcdataLessThanSign => text_less_than_sign(m, State::Rcdata, State::RcdataEndTagOpen),
        State::RcdataEndTagOpen => text_end_tag_open(m, State::Rcdata, State::RcdataEndTagName),
        State::RcdataEndTagName => text_end_tag_name(m, State::Rcdata),
        State::RawtextLessThanSign => text_less_than_sign(
            m,
            State::Rawtext,
            State::RawtextEndTagOpen,
        ),
        State::RawtextEndTagOpen => text_end_tag_open(m, State::Rawtext, State::RawtextEndTagName),
        State::RawtextEndTagName => text_end_tag_name(m, State::Rawtext),
        State::ScriptDataLessThanSign => script_data_less_than_sign(m),
        State::ScriptDataEndTagOpen => text_end_tag_open(
            m,
            State::ScriptData,
            State::ScriptDataEndTagName,
        ),
        State::ScriptDataEndTagName => text_end_tag_name(m, State::ScriptData),
        State::ScriptDataEscapedEndTagOpen => text_end_tag_open(
            m,
            State::ScriptDataEscaped,
            State::ScriptDataEscapedEndTagName,
        ),
        State::ScriptDataEscapedEndTagName => text_end_tag_name(m, State::ScriptDataEscaped),
        _ => m,
    }
}

/// One step in a state of the script data escapes. Any other state is left as it is.
#[verifier::opaque]
pub open spec fn step_script(m: Machine) -> Machine {
    match m.state {
        State::ScriptDataEscapeStart => script_data_escape_start(m),
        State::ScriptDataEscapeStartDash => script_data_escape_start_dash(m),
        State::ScriptDataEscaped => script_data_escaped(m),
        State::ScriptDataEscapedDash => script_data_escaped_dash(m),
        State::ScriptDataEscapedDashDash => script_data_escaped_dash_dash(m),
        State::ScriptDataEscapedLessThanSign => script_data_escaped_less_than_sign(m),
        State::ScriptDataDoubleEscapeStart => script_data_double_escape(
            m,
            State::ScriptDataDoubleEscaped,
            State::ScriptDataEscaped,
        ),
        State::ScriptDataDoubleEscaped => script_data_double_escaped(m),
        State::ScriptDataDoubleEscapedDash => script_data_double_escaped_dash(m),
        State::ScriptDataDoubleEscapedDashDash => script_data_double_escaped_dash_dash(m),
        State::ScriptDataDoubleEscapedLessThanSign => script_data_double_escaped_less_than_sign(m),
        State::ScriptDataDoubleEscapeEnd => script_data_double_escape(
            m,
            State::ScriptDataEscaped,
            State::ScriptDataDoubleEscaped,
        ),
        _ => m,
    }
}

/// One step in a state that reads the attributes of a tag. Any other state is left as it is.
#[verifier::opaque]
pub open spec fn step_attribute(m: Machine) -> Machine {
    match m.state {
        State::BeforeAttributeName => before_attribute_name(m),
        State::AttributeName => attribute_name(m),
        State::AfterAttributeName => after_attribute_name(m),
        State::BeforeAttributeValue => before_attribute_value(m),
        State::AttributeValueDoubleQuoted => attribute_value_double_quoted(m),
        State::AttributeValueSingleQuoted => attribute_value_single_quoted(m),
        State::AttributeValueUnquoted => attribute_value_unquoted(m),
        State::AfterAttributeValueQuoted => after_attribute_value_quoted(m),
        State::SelfClosingStartTag => self_closing_start_tag(m),
        _ => m,
    }
}

/// One step in a state after `<!` or in a comment. Any other state is left as it is.
#[verifier::opaque]
pub open spec fn step_comment(m: Machine) -> Machine {
    match m.state {
        State::BogusComment => bogus_comment(m),
        State::MarkupDeclarationOpen => markup_declaration_open(m),
        State::CommentStart => comment_start(m),
        State::CommentStartDash => comment_start_dash(m),
        State::Comment => comment(m),
        State::CommentLessThanSign => comment_less_than_sign(m),
        State::CommentLessThanSignBang => comment_less_than_sign_bang(m),
        State::CommentLessthanSignBangDash => comment_less_than_sign_bang_dash(m),
        State::CommentLessThanSignBangDashDash => comment_less_than_sign_bang_dash_dash(m),
        State::CommentEndDash => comment_end_dash(m),
        State::CommentEnd => comment_end(m),
        State::CommentEndBang => comment_end_bang(m),
        _ => m,
    }
}

/// One step in a state that reads a doctype. Any other state is left as it is.
#[verifier::opaque]
pub open spec fn step_doctype(m: Machine) -> Machine {
    match m.state {
        State::Doctype => doctype(m),
        State::BeforeDoctypeName => before_doctype_name(m),
        State::DoctypeName => doctype_name(m),
        State::AfterDoctypeName => after_doctype_name(m),
        State::AfterDoctypePublicKeyword => after_doctype_public_keyword(m),
        State::BeforeDoctypePublicIdentifier => before_doctype_public_identifier(m),
        State::DoctypePublicIdentifierDoubleQuoted => doctype_public_identifier_double_quoted(m),
        State::DoctypePublicIdentifierSingleQuoted => doctype_public_identifier_single_quoted(m),
        State::AfterDoctypePublicIdentifier => after_doctype_public_identifier(m),
        State::BetweenDoctypePublicAndSystemIdentifiers => between_doctype_public_and_system_identifiers(
            m,
        ),
        State::AfterDoctypeSystemKeyword => after_doctype_system_keyword(m),
        State::BeforeDoctypeSystemIdentifier => before_doctype_system_identifier(m),
        State::DoctypeSystemIdentifierDoubleQuoted => doctype_system_identifier_double_quoted(m),
        State::DoctypeSystemIdentifierSingleQuoted => doctype_system_identifier_single_quoted(m),
        State::AfterDoctypeSystemIdentifier => after_doctype_system_identifier(m),
        State::BogusDoctype => bogus_doctype(m),
        _ => m,
    }
}

/// One step in a state that reads a CDATA section. Any other state is left as it is.
#[verifier::opaque]
pub open spec fn step_cdata(m: Machine) -> Machine {
    match m.state {
        State::CDataSection => cdata_section(m),
        State::CDataSectionBracket => cdata_section_bracket(m),
        State::CDataSectionEnd => cdata_section_end(m),
        _ => m,
    }
}

/// One step in a state that reads a character reference. Any other state is left as it is.
#[verifier::opaque]
pub open spec fn step_reference(m: Machine) -> Machine {
    match m.state {
        State::CharacterReference => character_reference(m),
        State::NamedCharacterReference => named_character_reference(m),
        State::AmbiguousAmpersand => ambiguous_ampersand(m),
        State::NumericCharacterReference => numeric_character_reference(m),
        State::HexadecimalCharacterReferenceStart => hexadecimal_character_reference_start(m),
        State::DecimalCharacterReferenceStart => decimal_character_reference_start(m),
        State::HexadecimalCharacterReference => hexadecimal_character_reference(m),
        State::DecimalCharacterReference => decimal_character_reference(m),
        State::NumericCharacterReferenceEnd => numeric_character_reference_end(m),
        _ => m,
    }
}

/// One step: what the current state does with the next input character. A
/// step moves the cursor on by no character, by one, or by a whole keyword or
/// name.
#[verifier::opaque]
pub open spec fn step(m: Machine) -> Machine {
    match m.state {
        State::Data | State::Rcdata | State::Rawtext | State::ScriptData
        | State::Plaintext => step_text(m),
        State::TagOpen | State::EndTagOpen | State::TagName => step_tag(m),
        State::RcdataLessThanSign | State::RcdataEndTagOpen
        | State::RcdataEndTagName | State::RawtextLessThanSign
        | State::RawtextEndTagOpen | State::RawtextEndTagName
        | State::ScriptDataLessThanSign | State::ScriptDataEndTagOpen
        | State::ScriptDataEndTagName | State::ScriptDataEscapedEndTagOpen
        | State::ScriptDataEscapedEndTagName => step_raw(m),
        State::ScriptDataEscapeStart | State::ScriptDataEscapeStartDash
        | State::ScriptDataEscaped | State::ScriptDataEscapedDash
        | State::ScriptDataEscapedDashDash
        | State::ScriptDataEscapedLessThanSign
        | State::ScriptDataDoubleEscapeStart
        | State::ScriptDataDoubleEscaped
        | State::ScriptDataDoubleEscapedDash
        | State::ScriptDataDoubleEscapedDashDash
        | State::ScriptDataDoubleEscapedLessThanSign
        | State::ScriptDataDoubleEscapeEnd => step_script(m),
        State::BeforeAttributeName | State::AttributeName
        | State::AfterAttributeName | State::BeforeAttributeValue
        | State::AttributeValueDoubleQuoted
        | State::AttributeValueSingleQuoted | State::AttributeValueUnquoted
        | State::AfterAttributeValueQuoted | State::SelfClosingStartTag => step_attribute(m),
        State::BogusComment | State::MarkupDeclarationOpen
        | State::CommentStart | State::CommentStartDash | State::Comment
        | State::CommentLessThanSign | State::CommentLessThanSignBang
        | State::CommentLessthanSignBangDash
        | State::CommentLessThanSignBangDashDash | State::CommentEndDash
        | State::CommentEnd | State::CommentEndBang => step_comment(m),
        State::Doctype | State::BeforeDoctypeName | State::DoctypeName
        | State::AfterDoctypeName | State::AfterDoctypePublicKeyword
        | State::BeforeDoctypePublicIdentifier
        | State::DoctypePublicIdentifierDoubleQuoted
        | State::DoctypePublicIdentifierSingleQuoted
        | State::AfterDoctypePublicIdentifier
        | State::BetweenDoctypePublicAndSystemIdentifiers
        | State::AfterDoctypeSystemKeyword
        | State::BeforeDoctypeSystemIdentifier
        | State::DoctypeSystemIdentifierDoubleQuoted
        | State::DoctypeSystemIdentifierSingleQuoted
        | State::AfterDoctypeSystemIdentifier | State::BogusDoctype => step_doctype(m),
        State::CDataSection | State::CDataSectionBracket
        | State::CDataSectionEnd => step_cdata(m),
        State::CharacterReference | State::NamedCharacterReference
        | State::AmbiguousAmpersand | State::NumericCharacterReference
        | State::HexadecimalCharacterReferenceStart
        | State::DecimalCharacterReferenceStart
        | State::HexadecimalCharacterReference
        | State::DecimalCharacterReference
        | State::NumericCharacterReferenceEnd => step_reference(m),
    }
}

impl Parser {
    pub(crate) fn dispatch(&mut self)
        requires
            old(self)@.wf(),
        ensures
            final(self)@ == step(old(self)@),
            final(self)@.wf(),
    {
        reveal(step);
        reveal(step_text);
        reveal(step_tag);
        reveal(step_raw);
        reveal(step_script);
        reveal(step_attribute);
        reveal(step_comment);
        reveal(step_doctype);
        reveal(step_cdata);
        reveal(step_reference);
        match self.state() {
            State::Data => self.data(),
            State::Rcdata => self.rcdata(),
            State::Rawtext => self.rawtext(),
            State::ScriptData => self.script_data(),
            State::Plaintext => self.plaintext(),
            State::TagOpen => self.tag_open(),
            State::EndTagOpen => self.end_tag_open(),
            State::TagName => self.tag_name(),
            State::RcdataLessThanSign => self.text_less_than_sign(
                State::Rcdata,
                State::RcdataEndTagOpen,
            ),
            State::RcdataEndTagOpen => self.text_end_tag_open(
                State::Rcdata,
                State::RcdataEndTagName,
            ),
            State::RcdataEndTagName => self.text_end_tag_name(State::Rcdata),
            State::RawtextLessThanSign => self.text_less_than_sign(
                State::Rawtext,
                State::RawtextEndTagOpen,
            ),
            State::RawtextEndTagOpen => self.text_end_tag_open(
                State::Rawtext,
                State::RawtextEndTagName,
            ),
            State::RawtextEndTagName => self.text_end_tag_name(State::Rawtext),
            State::ScriptDataLessThanSign => self.script_data_less_than_sign(),
            State::ScriptDataEndTagOpen => self.text_end_tag_open(
                State::ScriptData,
                State::ScriptDataEndTagName,
            ),
            State::ScriptDataEndTagName => self.text_end_tag_name(State::ScriptData),
            State::ScriptDataEscapeStart => self.script_data_escape_start(),
            State::ScriptDataEscapeStartDash => self.script_data_escape_start_dash(),
            State::ScriptDataEscaped => self.script_data_escaped(),
            State::ScriptDataEscapedDash => self.script_data_escaped_dash(),
            State::ScriptDataEscapedDashDash => self.script_data_escaped_dash_dash(),
            State::ScriptDataEscapedLessThanSign => self.script_data_escaped_less_than_sign(),
            State::ScriptDataEscapedEndTagOpen => self.text_end_tag_open(
                State::ScriptDataEscaped,
                State::ScriptDataEscapedEndTagName,
            ),
            State::ScriptDataEscapedEndTagName => self.text_end_tag_name(State::ScriptDataEscaped),
            State::ScriptDataDoubleEscapeStart => self.script_data_double_escape(
                State::ScriptDataDoubleEscaped,
                State::ScriptDataEscaped,
            ),
            State::ScriptDataDoubleEscaped => self.script_data_double_escaped(),
            State::ScriptDataDoubleEscapedDash => self.script_data_double_escaped_dash(),
            State::ScriptDataDoubleEscapedDashDash => self.script_data_double_escaped_dash_dash(),
            State::ScriptDataDoubleEscapedLessThanSign =>
                self.script_data_double_escaped_less_than_sign(),
            State::ScriptDataDoubleEscapeEnd => self.script_data_double_escape(
                State::ScriptDataEscaped,
                State::ScriptDataDoubleEscaped,
            ),
            State::BeforeAttributeName => self.before_attribute_name(),
            State::AttributeName => self.attribute_name(),
            State::AfterAttributeName => self.after_attribute_name(),
            State::BeforeAttributeValue => self.before_attribute_value(),
            State::AttributeValueDoubleQuoted => self.attribute_value_double_quoted(),
            State::AttributeValueSingleQuoted => self.attribute_value_single_quoted(),
            State::AttributeValueUnquoted => self.attribute_value_unquoted(),
            State::AfterAttributeValueQuoted => self.after_attribute_value_quoted(),
            State::SelfClosingStartTag => self.self_closing_start_tag(),
            State::BogusComment => self.bogus_comment(),
            State::MarkupDeclarationOpen => self.markup_declaration_open(),
            State::CommentStart => self.comment_start(),
            State::CommentStartDash => self.comment_start_dash(),
            State::Comment => self.comment(),
            State::CommentLessThanSign => self.comment_less_than_sign(),
            State::CommentLessThanSignBang => self.comment_less_than_sign_bang(),
            State::CommentLessthanSignBangDash => self.comment_less_than_sign_bang_dash(),
            State::CommentLessThanSignBangDashDash => self.comment_less_than_sign_bang_dash_dash(),
            State::CommentEndDash => self.comment_end_dash(),
            State::CommentEnd => self.comment_end(),
            State::CommentEndBang => self.comment_end_bang(),
            State::Doctype => self.doctype(),
            State::BeforeDoctypeName => self.before_doctype_name(),
            State::DoctypeName => self.doctype_name(),
            State::AfterDoctypeName => self.after_doctype_name(),
            State::AfterDoctypePublicKeyword => self.after_doctype_public_keyword(),
            State::BeforeDoctypePublicIdentifier => self.before_doctype_public_identifier(),
            State::DoctypePublicIdentifierDoubleQuoted =>
                self.doctype_public_identifier_double_quoted(),
            State::DoctypePublicIdentifierSingleQuoted =>
                self.doctype_public_identifier_single_quoted(),
            State::AfterDoctypePublicIdentifier => self.after_doctype_public_identifier(),
            State::BetweenDoctypePublicAndSystemIdentifiers =>
                self.between_doctype_public_and_system_identifiers(),
            State::AfterDoctypeSystemKeyword => self.after_doctype_system_keyword(),
            State::BeforeDoctypeSystemIdentifier => self.before_doctype_system_identifier(),
            State::DoctypeSystemIdentifierDoubleQuoted =>
                self.doctype_system_identifier_double_quoted(),
            State::DoctypeSystemIdentifierSingleQuoted =>
                self.doctype_system_identifier_single_quoted(),
            State::AfterDoctypeSystemIdentifier => self.after_doctype_system_identifier(),
            State::BogusDoctype => self.bogus_doctype(),
            State::CDataSection => self.cdata_section(),
            State::CDataSectionBracket => self.cdata_section_bracket(),
            State::CDataSectionEnd => self.cdata_section_end(),
            State::CharacterReference => self.character_reference(),
            State::NamedCharacterReference => self.named_character_reference(),
            State::AmbiguousAmpersand => self.ambiguous_ampersand(),
            State::NumericCharacterReference => self.numeric_character_reference(),
            State::HexadecimalCharacterReferenceStart =>
                self.hexadecimal_character_reference_start(),
            State::DecimalCharacterReferenceStart => self.decimal_character_reference_start(),
            State::HexadecimalCharacterReference => self.hexadecimal_character_reference(),
            State::DecimalCharacterReference => self.decimal_character_reference(),
            State::NumericCharacterReferenceEnd => self.numeric_character_reference_end(),
        }
    }
}

} // verus!
