//! What holds of every run, whatever the input.

use vstd::prelude::*;
use crate::invariants::{
    ends_well, extends, folded, no_end_of_file, step_preserves, tokens_folded, tokens_unique,
    unique, weight,
};
use crate::model::{has_attribute, Machine};
use crate::run::{run, tokens_of};
use crate::states::raw::text_end_tag_name;
use crate::step::{step, step_raw};
use crate::tokenizer::{State, TokenModel};

verus! {

/// A run is the same run from its next step on: to take steps one by one and
/// to run to the end give the same machine.
pub proof fn run_goes_on_from_its_steps(m: Machine)
    requires
        m.wf(),
        !m.finished,
    ensures
        run(m) == run(step(m)),
{
}

/// Every run comes to its end, and keeps what its steps keep: what has been
/// emitted and recorded stays as it is, the end of file comes last, names
/// stay folded, and the attributes of each tag differ in their names.
pub proof fn run_preserves(m: Machine)
    requires
        m.wf(),
    ensures
        run(m).wf(),
        run(m).finished,
        run(m).input == m.input,
        extends(m.tokens, run(m).tokens),
        extends(m.errors, run(m).errors),
        ends_well(m) ==> ends_well(run(m)),
        folded(m) ==> folded(run(m)),
        unique(m) ==> unique(run(m)),
    decreases m.input.len() - m.pos, weight(m),
{
    if !m.finished {
        step_preserves(m);
        run_preserves(step(m));
    }
}

/// The tokens of any input end with the end of file, and hold it nowhere
/// else.
pub proof fn end_of_file_is_last(input: Seq<char>)
    ensures
        tokens_of(input).len() > 0,
        tokens_of(input).last() is EndOfFile,
        no_end_of_file(tokens_of(input).drop_last()),
{
    run_preserves(Machine::start(input));
}

/// In the tokens of any input, no name of a tag or of an attribute holds an
/// ASCII uppercase letter.
pub proof fn names_are_folded(input: Seq<char>)
    ensures
        tokens_folded(tokens_of(input)),
{
    run_preserves(Machine::start(input));
}

/// In the tokens of any input, no two attributes of a start tag have the same
/// name.
pub proof fn attribute_names_differ(input: Seq<char>)
    ensures
        tokens_unique(tokens_of(input)),
{
    run_preserves(Machine::start(input));
}

/// Of two attributes of one name the first stays: when an attribute is closed,
/// those that the tag has stay as they are, and one whose name the tag has
/// already is dropped.
pub proof fn first_attribute_of_a_name_stays(m: Machine)
    ensures
        extends(m.tag.attributes, m.close_attribute().tag.attributes),
        m.close_attribute().attr is None,
        m.attr is Some && has_attribute(m.tag.attributes, m.attr->0.name)
            ==> m.close_attribute().tag.attributes == m.tag.attributes,
        m.attr is Some && !has_attribute(m.tag.attributes, m.attr->0.name)
            ==> m.close_attribute().tag.attributes == m.tag.attributes.push(m.attr->0),
{
}

/// The states that read the name of an end tag in text.
pub open spec fn is_text_end_tag_name(s: State) -> bool {
    s == State::RcdataEndTagName || s == State::RawtextEndTagName || s
        == State::ScriptDataEndTagName || s == State::ScriptDataEscapedEndTagName
}

/// What a step that emits characters only leaves behind.
pub open spec fn emits_text(m: Machine, n: Machine) -> bool {
    &&& extends(m.tokens, n.tokens)
    &&& forall|i: int| m.tokens.len() <= i < n.tokens.len() ==> #[trigger] n.tokens[i] is Character
}

proof fn inappropriate_name_is_text(m: Machine, text: State)
    requires
        !m.appropriate_end_tag(),
    ensures
        emits_text(m, text_end_tag_name(m, text)),
        text_end_tag_name(m, text).state == m.state || text_end_tag_name(m, text).state == text,
{
}

proof fn appropriate_name_ends_text(m: Machine, text: State)
    requires
        m.appropriate_end_tag(),
        m.peek() == Some('>'),
    ensures
        text_end_tag_name(m, text).tokens == m.tokens.push(
            TokenModel::EndTag { tag_name: m.tag.name },
        ),
        text_end_tag_name(m, text).state == State::Data,
{
}

/// The text state that a state that reads the name of an end tag belongs to.
pub open spec fn text_state_of(s: State) -> State {
    match s {
        State::RcdataEndTagName => State::Rcdata,
        State::RawtextEndTagName => State::Rawtext,
        State::ScriptDataEndTagName => State::ScriptData,
        _ => State::ScriptDataEscaped,
    }
}

proof fn step_reads_end_tag_name(m: Machine)
    requires
        is_text_end_tag_name(m.state),
    ensures
        step(m) == text_end_tag_name(m, text_state_of(m.state)),
{
    reveal(step);
    reveal(step_raw);
}

/// In text, an end tag that is not appropriate ends nothing: whatever follows
/// its name, the step emits characters only, and the next state is the same
/// or the one that reads the text.
pub proof fn inappropriate_end_tag_is_text(m: Machine)
    requires
        is_text_end_tag_name(m.state),
        !m.appropriate_end_tag(),
    ensures
        emits_text(m, step(m)),
        step(m).state == m.state || step(m).state == text_state_of(m.state),
{
    step_reads_end_tag_name(m);
    inappropriate_name_is_text(m, text_state_of(m.state));
}

/// In text, `>` after the name of an appropriate end tag emits the end tag
/// and returns to the data state.
pub proof fn appropriate_end_tag_ends_text(m: Machine)
    requires
        is_text_end_tag_name(m.state),
        m.appropriate_end_tag(),
        m.peek() == Some('>'),
    ensures
        step(m).tokens == m.tokens.push(TokenModel::EndTag { tag_name: m.tag.name }),
        step(m).state == State::Data,
{
    step_reads_end_tag_name(m);
    appropriate_name_ends_text(m, text_state_of(m.state));
}

} // verus!
