//! What a step is in each of the states that a well-formed fragment passes
//! through.

use vstd::prelude::*;
use crate::model::Machine;
use crate::states::attribute::{
    after_attribute_value_quoted, attribute_name, attribute_value_double_quoted,
    before_attribute_name, before_attribute_value, self_closing_start_tag,
};
use crate::states::comment::{
    comment, comment_end, comment_end_dash, comment_start, comment_start_dash,
    markup_declaration_open,
};
use crate::states::doctype::{before_doctype_name, doctype, doctype_name};
use crate::states::reference::{
    ambiguous_ampersand, character_reference, decimal_character_reference,
    decimal_character_reference_start, hexadecimal_character_reference,
    hexadecimal_character_reference_start, named_character_reference,
    numeric_character_reference, numeric_character_reference_end,
};
use crate::states::tag::{end_tag_open, tag_name, tag_open};
use crate::states::text::{data, rcdata};
use crate::step::{
    step, step_attribute, step_comment, step_doctype, step_reference, step_tag, step_text,
};
use crate::tokenizer::State;

verus! {

pub proof fn in_after_attribute_value_quoted(m: Machine)
    requires
        m.state == State::AfterAttributeValueQuoted,
    ensures
        step(m) == after_attribute_value_quoted(m),
{
    reveal(step);
    reveal(step_attribute);
}

pub proof fn in_attribute_name(m: Machine)
    requires
        m.state == State::AttributeName,
    ensures
        step(m) == attribute_name(m),
{
    reveal(step);
    reveal(step_attribute);
}

pub proof fn in_attribute_value_double_quoted(m: Machine)
    requires
        m.state == State::AttributeValueDoubleQuoted,
    ensures
        step(m) == attribute_value_double_quoted(m),
{
    reveal(step);
    reveal(step_attribute);
}

pub proof fn in_before_attribute_name(m: Machine)
    requires
        m.state == State::BeforeAttributeName,
    ensures
        step(m) == before_attribute_name(m),
{
    reveal(step);
    reveal(step_attribute);
}

pub proof fn in_before_attribute_value(m: Machine)
    requires
        m.state == State::BeforeAttributeValue,
    ensures
        step(m) == before_attribute_value(m),
{
    reveal(step);
    reveal(step_attribute);
}

pub proof fn in_before_doctype_name(m: Machine)
    requires
        m.state == State::BeforeDoctypeName,
    ensures
        step(m) == before_doctype_name(m),
{
    reveal(step);
    reveal(step_doctype);
}

pub proof fn in_comment(m: Machine)
    requires
        m.state == State::Comment,
    ensures
        step(m) == comment(m),
{
    reveal(step);
    reveal(step_comment);
}

pub proof fn in_comment_end(m: Machine)
    requires
        m.state == State::CommentEnd,
    ensures
        step(m) == comment_end(m),
{
    reveal(step);
    reveal(step_comment);
}

pub proof fn in_comment_end_dash(m: Machine)
    requires
        m.state == State::CommentEndDash,
    ensures
        step(m) == comment_end_dash(m),
{
    reveal(step);
    reveal(step_comment);
}

pub proof fn in_comment_start(m: Machine)
    requires
        m.state == State::CommentStart,
    ensures
        step(m) == comment_start(m),
{
    reveal(step);
    reveal(step_comment);
}

pub proof fn in_comment_start_dash(m: Machine)
    requires
        m.state == State::CommentStartDash,
    ensures
        step(m) == comment_start_dash(m),
{
    reveal(step);
    reveal(step_comment);
}

pub proof fn in_data(m: Machine)
    requires
        m.state == State::Data,
    ensures
        step(m) == data(m),
{
    reveal(step);
    reveal(step_text);
}

pub proof fn in_doctype(m: Machine)
    requires
        m.state == State::Doctype,
    ensures
        step(m) == doctype(m),
{
    reveal(step);
    reveal(step_doctype);
}

pub proof fn in_doctype_name(m: Machine)
    requires
        m.state == State::DoctypeName,
    ensures
        step(m) == doctype_name(m),
{
    reveal(step);
    reveal(step_doctype);
}

pub proof fn in_end_tag_open(m: Machine)
    requires
        m.state == State::EndTagOpen,
    ensures
        step(m) == end_tag_open(m),
{
    reveal(step);
    reveal(step_tag);
}

pub proof fn in_markup_declaration_open(m: Machine)
    requires
        m.state == State::MarkupDeclarationOpen,
    ensures
        step(m) == markup_declaration_open(m),
{
    reveal(step);
    reveal(step_comment);
}

pub proof fn in_self_closing_start_tag(m: Machine)
    requires
        m.state == State::SelfClosingStartTag,
    ensures
        step(m) == self_closing_start_tag(m),
{
    reveal(step);
    reveal(step_attribute);
}

pub proof fn in_tag_name(m: Machine)
    requires
        m.state == State::TagName,
    ensures
        step(m) == tag_name(m),
{
    reveal(step);
    reveal(step_tag);
}

pub proof fn in_tag_open(m: Machine)
    requires
        m.state == State::TagOpen,
    ensures
        step(m) == tag_open(m),
{
    reveal(step);
    reveal(step_tag);
}

pub proof fn in_rcdata(m: Machine)
    requires
        m.state == State::Rcdata,
    ensures
        step(m) == rcdata(m),
{
    reveal(step);
    reveal(step_text);
}

pub proof fn in_character_reference(m: Machine)
    requires
        m.state == State::CharacterReference,
    ensures
        step(m) == character_reference(m),
{
    reveal(step);
    reveal(step_reference);
}

pub proof fn in_named_character_reference(m: Machine)
    requires
        m.state == State::NamedCharacterReference,
    ensures
        step(m) == named_character_reference(m),
{
    reveal(step);
    reveal(step_reference);
}

pub proof fn in_ambiguous_ampersand(m: Machine)
    requires
        m.state == State::AmbiguousAmpersand,
    ensures
        step(m) == ambiguous_ampersand(m),
{
    reveal(step);
    reveal(step_reference);
}

pub proof fn in_numeric_character_reference(m: Machine)
    requires
        m.state == State::NumericCharacterReference,
    ensures
        step(m) == numeric_character_reference(m),
{
    reveal(step);
    reveal(step_reference);
}

pub proof fn in_decimal_character_reference_start(m: Machine)
    requires
        m.state == State::DecimalCharacterReferenceStart,
    ensures
        step(m) == decimal_character_reference_start(m),
{
    reveal(step);
    reveal(step_reference);
}

pub proof fn in_hexadecimal_character_reference_start(m: Machine)
    requires
        m.state == State::HexadecimalCharacterReferenceStart,
    ensures
        step(m) == hexadecimal_character_reference_start(m),
{
    reveal(step);
    reveal(step_reference);
}

pub proof fn in_decimal_character_reference(m: Machine)
    requires
        m.state == State::DecimalCharacterReference,
    ensures
        step(m) == decimal_character_reference(m),
{
    reveal(step);
    reveal(step_reference);
}

pub proof fn in_hexadecimal_character_reference(m: Machine)
    requires
        m.state == State::HexadecimalCharacterReference,
    ensures
        step(m) == hexadecimal_character_reference(m),
{
    reveal(step);
    reveal(step_reference);
}

pub proof fn in_numeric_character_reference_end(m: Machine)
    requires
        m.state == State::NumericCharacterReferenceEnd,
    ensures
        step(m) == numeric_character_reference_end(m),
{
    reveal(step);
    reveal(step_reference);
}

} // verus!
