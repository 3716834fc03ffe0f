//! The cursor over the input: where the tokenizer reads, and the only way in
//! which it moves. A state that leaves a character to another state does not
//! advance; nothing ever moves back.

use vstd::prelude::*;
use crate::chars::chars_of;
use crate::entities::{entity_name, find_entity, longest_match, EntityMatch, ENTITY_COUNT};

verus! {

/// The input and the position of the next character to read in it.
pub struct Cursor {
    input: Vec<char>,
    pos: usize,
}

impl Cursor {
    /// The characters fed so far.
    pub closed spec fn input(&self) -> Seq<char> {
        self.input@
    }

    /// The index of the next character to read.
    pub closed spec fn position(&self) -> int {
        self.pos as int
    }

    /// The position lies in the input or at its end.
    pub open spec fn wf(&self) -> bool {
        0 <= self.position() <= self.input().len()
    }

    /// A cursor at the start of an empty input.
    pub fn new() -> (cursor: Cursor)
        ensures
            cursor.wf(),
            cursor.input() == Seq::<char>::empty(),
            cursor.position() == 0,
    {
        Cursor { input: Vec::new(), pos: 0 }
    }

    /// Appends `text` to the input.
    pub fn feed(&mut self, text: &str)
        requires
            old(self).wf(),
        ensures
            final(self).wf(),
            final(self).input() == old(self).input() + text@,
            final(self).position() == old(self).position(),
    {
        let mut more = chars_of(text);
        self.input.append(&mut more);
    }

    /// The character `k` places after the position, `None` past the end.
    pub fn peek_at(&self, k: usize) -> (c: Option<char>)
        requires
            self.wf(),
        ensures
            self.position() + k < self.input().len() ==> c == Some(
                self.input()[self.position() + k],
            ),
            self.position() + k >= self.input().len() ==> c is None,
    {
        if k < self.input.len() - self.pos {
            Some(self.input[self.pos + k])
        } else {
            None
        }
    }

    /// Moves `n` characters on, or to the end of the input where fewer are
    /// left.
    pub fn advance(&mut self, n: usize)
        requires
            old(self).wf(),
        ensures
            final(self).wf(),
            final(self).input() == old(self).input(),
            old(self).position() + n <= old(self).input().len() ==> final(self).position() == old(
                self,
            ).position() + n,
            old(self).position() + n > old(self).input().len() ==> final(self).position() == old(
                self,
            ).input().len(),
    {
        if n <= self.input.len() - self.pos {
            self.pos = self.pos + n;
        } else {
            self.pos = self.input.len();
        }
    }

    /// The longest named character reference that the input holds at the
    /// position.
    pub fn find_entity(&self) -> (r: Option<EntityMatch>)
        requires
            self.wf(),
        ensures
            r is None ==> longest_match(self.input().skip(self.position())) is None,
            r matches Some(found) ==> longest_match(self.input().skip(self.position())) == Some(
                found.index as int,
            ) && found.index < ENTITY_COUNT && found.length == entity_name(found.index as int).len()
                && self.position() + found.length <= self.input().len() && found.length > 0,
    {
        find_entity(&self.input, self.pos)
    }
}

} // verus!
