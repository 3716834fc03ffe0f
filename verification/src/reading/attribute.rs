//! How the attributes of a well-formed start tag are read.

use vstd::prelude::*;
use crate::chars::spec_lower;
use crate::fragment::{
    are_attributes, attribute_spelling, attributes_spelling, is_attribute_name,
    is_attribute_name_character, is_attribute_value,
};
use crate::model::{has_attribute, Machine, TagModel};
use crate::reading::{at, at_concat, moved, run_steps, sees};
use crate::reading::steps::{
    in_after_attribute_value_quoted, in_attribute_name, in_attribute_value_double_quoted,
    in_before_attribute_name, in_before_attribute_value, in_tag_name,
};
use crate::step::step;
use crate::tokenizer::{AttributeModel, State};

verus! {

/// The states in which a start tag is between two of its attributes.
pub open spec fn is_between(s: State) -> bool {
    s == State::TagName || s == State::AfterAttributeValueQuoted
}

/// The attributes of the tag once the one under construction has joined
/// them.
pub open spec fn closed_attributes(m: Machine) -> Seq<AttributeModel> {
    match m.attr {
        Some(a) => m.tag.attributes.push(a),
        None => m.tag.attributes,
    }
}

/// Whether the attribute under construction, if there is one, is none that
/// the tag has already.
pub open spec fn is_fresh(m: Machine) -> bool {
    m.attr matches Some(a) ==> !has_attribute(m.tag.attributes, a.name)
}

/// A space and the first character of a name begin an attribute: the one
/// before it joins the tag.
proof fn begins_attribute(m: Machine, c: char) -> (n: Machine)
    requires
        m.wf(),
        !m.finished,
        is_between(m.state),
        is_fresh(m),
        at(m.input, m.pos, seq![' ', c]),
        is_attribute_name_character(c),
    ensures
        moved(m, n, 1),
        n.state == State::AttributeName,
        n.tag == (TagModel { attributes: closed_attributes(m), ..m.tag }),
        n.attr == Some(AttributeModel { name: Seq::empty(), value: Seq::empty() }),
{
    sees(m, seq![' ', c]);
    run_steps(m);
    if m.state == State::TagName {
        in_tag_name(m);
    } else {
        in_after_attribute_value_quoted(m);
    }
    let m1 = step(m);
    assert(m1.peek() == m.peek_at(1));
    run_steps(m1);
    in_before_attribute_name(m1);
    step(m1)
}

/// The rest of an attribute's name is read character by character.
proof fn reads_attribute_name(m: Machine, rest: Seq<char>) -> (n: Machine)
    requires
        m.wf(),
        !m.finished,
        m.state == State::AttributeName,
        m.attr is Some,
        at(m.input, m.pos, rest),
        forall|i: int| 0 <= i < rest.len() ==> is_attribute_name_character(#[trigger] rest[i]),
    ensures
        moved(m, n, rest.len()),
        n.state == State::AttributeName,
        n.tag == m.tag,
        n.attr == Some(AttributeModel { name: m.attr->0.name + rest, ..m.attr->0 }),
    decreases rest.len(),
{
    if rest.len() == 0 {
        assert(m.attr->0.name + rest =~= m.attr->0.name);
        m
    } else {
        let c = rest[0];
        sees(m, rest);
        run_steps(m);
        in_attribute_name(m);
        let next = step(m);
        assert(spec_lower(c) == c);
        assert(at(next.input, next.pos, rest.drop_first())) by {
            at_concat(m.input, m.pos, seq![c], rest.drop_first());
            assert(seq![c] + rest.drop_first() =~= rest);
        }
        let n = reads_attribute_name(next, rest.drop_first());
        assert(m.attr->0.name.push(c) + rest.drop_first() =~= m.attr->0.name + rest);
        n
    }
}

/// `="` after the name begins the value.
proof fn begins_value(m: Machine) -> (n: Machine)
    requires
        m.wf(),
        !m.finished,
        m.state == State::AttributeName,
        at(m.input, m.pos, seq!['=', '"']),
    ensures
        moved(m, n, 2),
        n.state == State::AttributeValueDoubleQuoted,
        n.tag == m.tag,
        n.attr == m.attr,
{
    sees(m, seq!['=', '"']);
    run_steps(m);
    in_attribute_name(m);
    let m1 = step(m);
    assert(m1.peek() == m.peek_at(1));
    run_steps(m1);
    in_before_attribute_value(m1);
    step(m1)
}

/// The rest of a value is read character by character.
proof fn reads_value(m: Machine, rest: Seq<char>) -> (n: Machine)
    requires
        m.wf(),
        !m.finished,
        m.state == State::AttributeValueDoubleQuoted,
        m.attr is Some,
        at(m.input, m.pos, rest),
        is_attribute_value(rest),
    ensures
        moved(m, n, rest.len()),
        n.state == State::AttributeValueDoubleQuoted,
        n.tag == m.tag,
        n.attr == Some(AttributeModel { value: m.attr->0.value + rest, ..m.attr->0 }),
    decreases rest.len(),
{
    if rest.len() == 0 {
        assert(m.attr->0.value + rest =~= m.attr->0.value);
        m
    } else {
        let c = rest[0];
        sees(m, rest);
        run_steps(m);
        in_attribute_value_double_quoted(m);
        let next = step(m);
        assert(at(next.input, next.pos, rest.drop_first())) by {
            at_concat(m.input, m.pos, seq![c], rest.drop_first());
            assert(seq![c] + rest.drop_first() =~= rest);
        }
        assert(is_attribute_value(rest.drop_first())) by {
            assert forall|i: int| 0 <= i < rest.drop_first().len() implies (
            #[trigger] rest.drop_first()[i]) != '"' && rest.drop_first()[i] != '&'
                && rest.drop_first()[i] != '\0' by {
                assert(rest.drop_first()[i] == rest[i + 1]);
            }
        }
        let n = reads_value(next, rest.drop_first());
        assert((m.attr->0.value + seq![c]) + rest.drop_first() =~= m.attr->0.value + rest);
        n
    }
}

/// `"` ends the value.
proof fn ends_value(m: Machine) -> (n: Machine)
    requires
        m.wf(),
        !m.finished,
        m.state == State::AttributeValueDoubleQuoted,
        m.peek() == Some('"'),
    ensures
        moved(m, n, 1),
        n.state == State::AfterAttributeValueQuoted,
        n.tag == m.tag,
        n.attr == m.attr,
{
    run_steps(m);
    in_attribute_value_double_quoted(m);
    step(m)
}

/// One attribute is read from its space to its closing quote.
proof fn reads_attribute(m: Machine, a: AttributeModel) -> (n: Machine)
    requires
        m.wf(),
        !m.finished,
        is_between(m.state),
        is_fresh(m),
        is_attribute_name(a.name),
        is_attribute_value(a.value),
        at(m.input, m.pos, attribute_spelling(a)),
    ensures
        moved(m, n, attribute_spelling(a).len()),
        n.state == State::AfterAttributeValueQuoted,
        n.tag == (TagModel { attributes: closed_attributes(m), ..m.tag }),
        n.attr == Some(a),
{
    let space = seq![' '];
    let equals = seq!['=', '"'];
    let quote = seq!['"'];
    at_concat(m.input, m.pos, space + a.name + equals + a.value, quote);
    at_concat(m.input, m.pos, space + a.name + equals, a.value);
    at_concat(m.input, m.pos, space + a.name, equals);
    at_concat(m.input, m.pos, space, a.name);
    assert(at(m.input, m.pos, seq![' ', a.name[0]])) by {
        sees(m, space);
        sees(m.advance(1), a.name);
    }
    let m1 = begins_attribute(m, a.name[0]);
    let m2 = reads_attribute_name(m1, a.name);
    assert(Seq::<char>::empty() + a.name =~= a.name);
    let m3 = begins_value(m2);
    let m4 = reads_value(m3, a.value);
    assert(Seq::<char>::empty() + a.value =~= a.value);
    sees(m4, quote);
    let m5 = ends_value(m4);
    assert(m5.attr->0 =~= a);
    m5
}

/// Whether a start tag has read the attributes `done`, the last of them still
/// under construction.
pub open spec fn has_attributes(m: Machine, done: Seq<AttributeModel>) -> bool {
    &&& is_between(m.state)
    &&& if done.len() == 0 {
        m.attr is None && m.tag.attributes == Seq::<AttributeModel>::empty()
    } else {
        m.attr == Some(done.last()) && m.tag.attributes == done.drop_last()
    }
}

/// Among attributes of different names, the last is none of those before it.
pub proof fn last_is_fresh(m: Machine, done: Seq<AttributeModel>)
    requires
        has_attributes(m, done),
        are_attributes(done),
    ensures
        is_fresh(m),
        closed_attributes(m) == done,
{
    if done.len() > 0 {
        let last = done.len() - 1;
        assert forall|i: int| 0 <= i < done.drop_last().len() implies (
        #[trigger] done.drop_last()[i]).name != done.last().name by {
            assert(done.drop_last()[i] == done[i]);
            assert(done[i].name != done[last].name);
        }
        assert(done.drop_last().push(done.last()) =~= done);
    }
}

/// The attributes of a start tag are read one after the other.
pub proof fn reads_attributes(
    m: Machine,
    done: Seq<AttributeModel>,
    rest: Seq<AttributeModel>,
) -> (n: Machine)
    requires
        m.wf(),
        !m.finished,
        has_attributes(m, done),
        are_attributes(done + rest),
        at(m.input, m.pos, attributes_spelling(rest)),
    ensures
        moved(m, n, attributes_spelling(rest).len()),
        has_attributes(n, done + rest),
        n.tag.kind == m.tag.kind,
        n.tag.name == m.tag.name,
        n.tag.self_closing == m.tag.self_closing,
    decreases rest.len(),
{
    if rest.len() == 0 {
        assert(done + rest =~= done);
        m
    } else {
        let a = rest[0];
        let all = done + rest;
        assert(are_attributes(done)) by {
            assert forall|i: int| 0 <= i < done.len() implies is_attribute_name(
                (#[trigger] done[i]).name,
            ) && is_attribute_value(done[i].value) by {
                assert(all[i] == done[i]);
            }
            assert forall|i: int, j: int| 0 <= i < j < done.len() implies (#[trigger] done[i]).name
                != (#[trigger] done[j]).name by {
                assert(all[i] == done[i]);
                assert(all[j] == done[j]);
            }
        }
        last_is_fresh(m, done);
        assert(all[done.len() as int] == a);
        at_concat(m.input, m.pos, attribute_spelling(a), attributes_spelling(rest.drop_first()));
        let m1 = reads_attribute(m, a);
        assert(has_attributes(m1, done.push(a))) by {
            assert(done.push(a).drop_last() =~= done);
        }
        assert(done.push(a) + rest.drop_first() =~= all);
        reads_attributes(m1, done.push(a), rest.drop_first())
    }
}

} // verus!
