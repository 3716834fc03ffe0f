//! How pieces of the input are read: which machine a run comes to when the
//! input holds a given text at the cursor.

use vstd::prelude::*;
use crate::invariants::step_progresses;
use crate::model::Machine;
use crate::run::run;
use crate::step::step;
use crate::tokenizer::{State, TokenModel};

pub mod attribute;
pub mod comment;
pub mod doctype;
pub mod named;
pub mod numeric;
pub mod reference;
pub mod steps;
pub mod tag;

use crate::reading::steps::in_data;

verus! {

/// Whether `input` holds `text` at `pos`.
pub open spec fn at(input: Seq<char>, pos: int, text: Seq<char>) -> bool {
    &&& 0 <= pos
    &&& pos + text.len() <= input.len()
    &&& forall|i: int| 0 <= i < text.len() ==> input[pos + i] == #[trigger] text[i]
}

/// The input holds a text at a position where it holds the text's first part
/// there and its second part right behind.
pub proof fn at_concat(input: Seq<char>, pos: int, a: Seq<char>, b: Seq<char>)
    ensures
        at(input, pos, a + b) <==> at(input, pos, a) && at(input, pos + a.len(), b),
{
    if at(input, pos, a + b) {
        assert forall|i: int| 0 <= i < a.len() implies input[pos + i] == #[trigger] a[i] by {
            assert((a + b)[i] == a[i]);
        }
        assert forall|i: int| 0 <= i < b.len() implies input[pos + a.len() + i]
            == #[trigger] b[i] by {
            assert((a + b)[a.len() + i] == b[i]);
        }
    }
    if at(input, pos, a) && at(input, pos + a.len(), b) {
        assert forall|i: int| 0 <= i < (a + b).len() implies input[pos + i]
            == #[trigger] (a + b)[i] by {
            if i < a.len() {
                assert((a + b)[i] == a[i]);
            } else {
                assert((a + b)[i] == b[i - a.len()]);
                assert(input[pos + a.len() + (i - a.len())] == b[i - a.len()]);
            }
        }
    }
}

/// What the input holds at the cursor is what the machine sees next.
pub proof fn sees(m: Machine, text: Seq<char>)
    requires
        at(m.input, m.pos, text),
    ensures
        forall|k: int| 0 <= k < text.len() ==> m.peek_at(k) == Some(#[trigger] text[k]),
        text.len() > 0 ==> m.peek() == Some(text[0]),
{
}

/// `n` is a later machine of the run of `m`, which is not over: the cursor
/// has moved on by `length`, no token has been emitted and no error
/// recorded.
pub open spec fn moved(m: Machine, n: Machine, length: nat) -> bool {
    &&& run(n) == run(m)
    &&& n.wf()
    &&& !n.finished
    &&& n.input == m.input
    &&& n.pos == m.pos + length
    &&& n.tokens == m.tokens
    &&& n.errors == m.errors
}

/// A run goes on from its next step.
pub proof fn run_steps(m: Machine)
    requires
        m.wf(),
        !m.finished,
    ensures
        run(m) == run(step(m)),
        step(m).wf(),
        step(m).input == m.input,
{
    step_progresses(m);
}

/// What a piece of a fragment leaves of the machine that read it: the data
/// state again, the cursor behind the piece of the given length, one token
/// more, and no error more unless the piece is a null character.
pub open spec fn has_read(m: Machine, n: Machine, length: nat, token: TokenModel) -> bool {
    &&& run(n) == run(m)
    &&& n.wf()
    &&& !n.finished
    &&& n.state == State::Data
    &&& n.input == m.input
    &&& n.pos == m.pos + length
    &&& n.tokens == m.tokens.push(token)
    &&& token != TokenModel::Character('\0') ==> n.errors == m.errors
}

/// A character of text is read in one step.
pub proof fn reads_character(m: Machine, c: char) -> (n: Machine)
    requires
        m.wf(),
        !m.finished,
        m.state == State::Data,
        at(m.input, m.pos, seq![c]),
        c != '<',
        c != '&',
    ensures
        has_read(m, n, 1, TokenModel::Character(c)),
{
    run_steps(m);
    sees(m, seq![c]);
    in_data(m);
    step(m)
}

/// `<` in the data state opens a tag.
pub proof fn reads_less_than_sign(m: Machine) -> (n: Machine)
    requires
        m.wf(),
        !m.finished,
        m.state == State::Data,
        m.peek() == Some('<'),
    ensures
        moved(m, n, 1),
        n.state == State::TagOpen,
{
    run_steps(m);
    in_data(m);
    step(m)
}

} // verus!
