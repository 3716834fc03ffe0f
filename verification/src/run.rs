//! A whole run: steps taken until the end of file has been emitted.

use vstd::prelude::*;
use crate::invariants::{step_progresses, weight};
use crate::model::Machine;
use crate::parser::Parser;
use crate::step::step;
use crate::tokenizer::{Misuse, ParseError, TokenModel};

verus! {

/// The machine at the end of the run that `m` is in.
pub open spec fn run(m: Machine) -> Machine
    decreases m.input.len() - m.pos, weight(m),
    via run_decreases
{
    if m.finished || !m.wf() {
        m
    } else {
        run(step(m))
    }
}

#[via_fn]
proof fn run_decreases(m: Machine) {
    if !m.finished && m.wf() {
        step_progresses(m);
    }
}

/// The tokens of `input`: what a run from the data state emits.
pub open spec fn tokens_of(input: Seq<char>) -> Seq<TokenModel> {
    run(Machine::start(input)).tokens
}

/// The errors of `input`: what a run from the data state records.
pub open spec fn errors_of(input: Seq<char>) -> Seq<ParseError> {
    run(Machine::start(input)).errors
}

impl Parser {
    /// Takes one step. At the end of the input that has been fed, the step is
    /// the one that the end of the document calls for.
    pub fn step(&mut self) -> (r: Result<(), Misuse>)
        requires
            old(self)@.wf(),
        ensures
            final(self)@.wf(),
            r is Ok <==> !old(self)@.finished,
            r is Ok ==> final(self)@ == step(old(self)@),
            r is Err ==> r == Err::<(), Misuse>(Misuse::Exhausted) && final(self)@ == old(self)@,
    {
        if self.is_finished() {
            return Err(Misuse::Exhausted);
        }
        self.dispatch();
        Ok(())
    }

    /// Takes steps until the end of file has been emitted.
    pub fn finish_run(&mut self)
        requires
            old(self)@.wf(),
        ensures
            final(self)@ == run(old(self)@),
            final(self)@.wf(),
            final(self)@.finished,
    {
        while !self.is_finished()
            invariant
                self@.wf(),
                run(self@) == run(old(self)@),
            decreases self@.input.len() - self@.pos, weight(self@),
        {
            proof {
                step_progresses(self@);
            }
            self.dispatch();
        }
    }

    /// Tokenizes `html` to its end: appends it to the input and runs until the
    /// end of file has been emitted.
    pub fn parse_html(&mut self, html: &String) -> (r: Result<(), Misuse>)
        requires
            old(self)@.wf(),
        ensures
            final(self)@.wf(),
            r is Ok <==> !old(self)@.finished,
            r is Ok ==> final(self)@ == run(old(self)@.feed(html@)),
            r is Err ==> r == Err::<(), Misuse>(Misuse::Exhausted) && final(self)@ == old(self)@,
    {
        match self.feed(html) {
            Err(e) => Err(e),
            Ok(()) => {
                self.finish_run();
                Ok(())
            },
        }
    }
}

} // verus!
