//! How a character reference begins in text.

use vstd::prelude::*;
use crate::model::Machine;
use crate::reading::steps::{in_data, in_rcdata};
use crate::reading::{moved, run_steps};
use crate::step::step;
use crate::tokenizer::State;

verus! {

/// The text states in which references are read.
pub open spec fn reads_references(s: State) -> bool {
    s == State::Data || s == State::Rcdata
}

/// `&` in text begins a character reference.
pub proof fn opens_reference(m: Machine) -> (n: Machine)
    requires
        m.wf(),
        !m.finished,
        reads_references(m.state),
        m.peek() == Some('&'),
    ensures
        moved(m, n, 1),
        n.state == State::CharacterReference,
        n.return_state == m.state,
{
    run_steps(m);
    if m.state == State::Data {
        in_data(m);
    } else {
        in_rcdata(m);
    }
    step(m)
}

} // verus!
