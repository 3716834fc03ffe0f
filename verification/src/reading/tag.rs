//! How the tags of a well-formed fragment are read.

use vstd::prelude::*;
use crate::chars::spec_lower;
use crate::fragment::{are_attributes, attributes_spelling, is_name_character, is_tag_name};
use crate::model::{content_state, empty_tag, Machine, TagKind, TagModel};
use crate::reading::attribute::{
    closed_attributes, is_between, is_fresh, last_is_fresh, reads_attributes,
};
use crate::reading::{at, at_concat, has_read, moved, reads_less_than_sign, run_steps, sees};
use crate::run::run;
use crate::reading::steps::{
    in_after_attribute_value_quoted, in_end_tag_open, in_self_closing_start_tag, in_tag_name,
    in_tag_open,
};
use crate::step::step;
use crate::tokenizer::{AttributeModel, State, TokenModel};

verus! {

/// `</` and a letter begin an end tag.
proof fn opens_end_tag(m: Machine, c: char) -> (n: Machine)
    requires
        m.wf(),
        !m.finished,
        m.state == State::Data,
        at(m.input, m.pos, seq!['<', '/', c]),
        crate::chars::is_alpha(c),
    ensures
        moved(m, n, 2),
        n.state == State::TagName,
        n.tag == empty_tag(TagKind::End),
        n.attr is None,
{
    sees(m, seq!['<', '/', c]);
    let m1 = reads_less_than_sign(m);
    assert(m1.peek() == m.peek_at(1));
    run_steps(m1);
    in_tag_open(m1);
    let m2 = step(m1);
    assert(m2.peek() == m.peek_at(2));
    run_steps(m2);
    in_end_tag_open(m2);
    step(m2)
}

/// The rest of a tag's name is read character by character.
proof fn reads_tag_name(m: Machine, rest: Seq<char>) -> (n: Machine)
    requires
        m.wf(),
        !m.finished,
        m.state == State::TagName,
        at(m.input, m.pos, rest),
        forall|i: int| 0 <= i < rest.len() ==> is_name_character(#[trigger] rest[i]),
    ensures
        moved(m, n, rest.len()),
        n.state == State::TagName,
        n.tag == (TagModel { name: m.tag.name + rest, ..m.tag }),
        n.attr == m.attr,
    decreases rest.len(),
{
    if rest.len() == 0 {
        assert(m.tag.name + rest =~= m.tag.name);
        m
    } else {
        let c = rest[0];
        sees(m, rest);
        run_steps(m);
        in_tag_name(m);
        let next = step(m);
        assert(spec_lower(c) == c);
        assert(at(next.input, next.pos, rest.drop_first())) by {
            at_concat(m.input, m.pos, seq![c], rest.drop_first());
            assert(seq![c] + rest.drop_first() =~= rest);
        }
        let n = reads_tag_name(next, rest.drop_first());
        assert(m.tag.name.push(c) + rest.drop_first() =~= m.tag.name + rest);
        n
    }
}

/// `>` after the name of an end tag emits it.
proof fn closes_end_tag(m: Machine) -> (n: Machine)
    requires
        m.wf(),
        !m.finished,
        m.state == State::TagName,
        m.peek() == Some('>'),
        m.tag.kind == TagKind::End,
        m.tag.attributes.len() == 0,
        !m.tag.self_closing,
        m.attr is None,
    ensures
        has_read(m, n, 1, TokenModel::EndTag { tag_name: m.tag.name }),
{
    run_steps(m);
    in_tag_name(m);
    step(m)
}

/// An end tag is read from `<` to `>`.
pub proof fn reads_end_tag(m: Machine, name: Seq<char>) -> (n: Machine)
    requires
        m.wf(),
        !m.finished,
        m.state == State::Data,
        is_tag_name(name),
        at(m.input, m.pos, seq!['<', '/'] + name + seq!['>']),
    ensures
        has_read(m, n, name.len() + 3, TokenModel::EndTag { tag_name: name }),
{
    let open = seq!['<', '/'];
    let close = seq!['>'];
    at_concat(m.input, m.pos, open + name, close);
    at_concat(m.input, m.pos, open, name);
    assert(at(m.input, m.pos, seq!['<', '/', name[0]])) by {
        sees(m, open);
        sees(m.advance(2), name);
    }
    let m1 = opens_end_tag(m, name[0]);
    let m2 = reads_tag_name(m1, name);
    assert(Seq::<char>::empty() + name =~= name);
    sees(m2, close);
    closes_end_tag(m2)
}

/// `<` and a letter begin a start tag.
proof fn opens_start_tag(m: Machine, c: char) -> (n: Machine)
    requires
        m.wf(),
        !m.finished,
        m.state == State::Data,
        at(m.input, m.pos, seq!['<', c]),
        crate::chars::is_alpha(c),
    ensures
        moved(m, n, 1),
        n.state == State::TagName,
        n.tag == empty_tag(TagKind::Start),
        n.attr is None,
{
    sees(m, seq!['<', c]);
    let m1 = reads_less_than_sign(m);
    assert(m1.peek() == m.peek_at(1));
    run_steps(m1);
    in_tag_open(m1);
    step(m1)
}

/// The token of a start tag whose last attribute is still under
/// construction.
pub open spec fn start_tag_of(m: Machine, self_closing: bool) -> TokenModel {
    TokenModel::StartTag {
        tag_name: m.tag.name,
        self_closing,
        attributes: closed_attributes(m),
    }
}

/// `>` after the name or after an attribute emits the start tag.
proof fn closes_start_tag(m: Machine) -> (n: Machine)
    requires
        m.wf(),
        !m.finished,
        is_between(m.state),
        is_fresh(m),
        m.peek() == Some('>'),
        m.tag.kind == TagKind::Start,
        !m.tag.self_closing,
        content_state(m.tag.name) == State::Data,
    ensures
        has_read(m, n, 1, start_tag_of(m, false)),
{
    run_steps(m);
    if m.state == State::TagName {
        in_tag_name(m);
    } else {
        in_after_attribute_value_quoted(m);
    }
    step(m)
}

/// `/>` after the name or after an attribute emits the start tag as one that
/// closes itself.
proof fn closes_start_tag_itself(m: Machine) -> (n: Machine)
    requires
        m.wf(),
        !m.finished,
        is_between(m.state),
        is_fresh(m),
        at(m.input, m.pos, seq!['/', '>']),
        m.tag.kind == TagKind::Start,
        content_state(m.tag.name) == State::Data,
    ensures
        has_read(m, n, 2, start_tag_of(m, true)),
{
    sees(m, seq!['/', '>']);
    run_steps(m);
    if m.state == State::TagName {
        in_tag_name(m);
    } else {
        in_after_attribute_value_quoted(m);
    }
    let m1 = step(m);
    assert(m1.peek() == m.peek_at(1));
    run_steps(m1);
    in_self_closing_start_tag(m1);
    step(m1)
}

/// A start tag is read from `<` to `>`.
pub proof fn reads_start_tag(
    m: Machine,
    name: Seq<char>,
    attributes: Seq<AttributeModel>,
    self_closing: bool,
) -> (n: Machine)
    requires
        m.wf(),
        !m.finished,
        m.state == State::Data,
        is_tag_name(name),
        content_state(name) == State::Data,
        are_attributes(attributes),
        at(
            m.input,
            m.pos,
            seq!['<'] + name + attributes_spelling(attributes) + (if self_closing {
                seq!['/', '>']
            } else {
                seq!['>']
            }),
        ),
    ensures
        has_read(
            m,
            n,
            1 + name.len() + attributes_spelling(attributes).len() + (if self_closing {
                2nat
            } else {
                1nat
            }),
            TokenModel::StartTag { tag_name: name, self_closing, attributes },
        ),
{
    let open = seq!['<'];
    let close = if self_closing {
        seq!['/', '>']
    } else {
        seq!['>']
    };
    let spelled = attributes_spelling(attributes);
    at_concat(m.input, m.pos, open + name + spelled, close);
    at_concat(m.input, m.pos, open + name, spelled);
    at_concat(m.input, m.pos, open, name);
    assert(at(m.input, m.pos, seq!['<', name[0]])) by {
        sees(m, open);
        sees(m.advance(1), name);
    }
    let m1 = opens_start_tag(m, name[0]);
    let m2 = reads_tag_name(m1, name);
    assert(Seq::<char>::empty() + name =~= name);
    let none = Seq::<AttributeModel>::empty();
    assert(none + attributes =~= attributes);
    let m3 = reads_attributes(m2, none, attributes);
    last_is_fresh(m3, attributes);
    if self_closing {
        closes_start_tag_itself(m3)
    } else {
        sees(m3, close);
        closes_start_tag(m3)
    }
}

} // verus!
