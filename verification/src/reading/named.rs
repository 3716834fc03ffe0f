//! How named character references are read in text: a name stands for what
//! it resolves to, and a word that begins no name is text.

use vstd::prelude::*;
use crate::chars::is_alphanumeric;
use crate::entities::{entity_name, entity_text, entry, longest_match, longest_match_fits};
use crate::model::{character_tokens, Machine};
use crate::reading::reference::{opens_reference, reads_references};
use crate::reading::steps::{
    in_ambiguous_ampersand, in_character_reference, in_named_character_reference,
};
use crate::reading::{at, at_concat, run_steps, sees};
use crate::reference::{resolution, ReferenceForm};
use crate::run::run;
use crate::step::step;
use crate::tokenizer::{State, TokenModel};

verus! {

/// After `&` and the first character of a name, the longest name that the
/// input begins with is read as what it stands for.
proof fn reads_name(m: Machine, i: int) -> (n: Machine)
    requires
        m.wf(),
        !m.finished,
        m.state == State::CharacterReference,
        reads_references(m.return_state),
        m.peek() is Some,
        is_alphanumeric(m.peek()->0),
        longest_match(m.rest()) == Some(i),
    ensures
        run(n) == run(m),
        n.wf(),
        !n.finished,
        n.input == m.input,
        n.pos == m.pos + entity_name(i).len(),
        n.state == m.return_state,
        n.tokens == m.tokens + character_tokens(entity_text(i)),
{
    longest_match_fits(m.rest());
    run_steps(m);
    in_character_reference(m);
    let m1 = step(m);
    assert(m1.rest() == m.rest());
    run_steps(m1);
    in_named_character_reference(m1);
    let n = step(m1);
    if entry(i).2 == '\0' {
        assert(Seq::<char>::empty().push(entry(i).1) =~= entity_text(i));
    } else {
        assert(Seq::<char>::empty().push(entry(i).1).push(entry(i).2) =~= entity_text(i));
    }
    n
}

/// In text, a named reference is read as what it resolves to: the one or two
/// characters of the longest name that the input holds after `&`.
pub proof fn named_reference_is_resolved(m: Machine, i: int) -> (n: Machine)
    requires
        m.wf(),
        !m.finished,
        reads_references(m.state),
        m.peek() == Some('&'),
        m.peek_at(1) is Some,
        is_alphanumeric(m.peek_at(1)->0),
        longest_match(m.input.skip(m.pos + 1)) == Some(i),
    ensures
        run(n) == run(m),
        n.wf(),
        !n.finished,
        n.input == m.input,
        n.pos == m.pos + 1 + entity_name(i).len(),
        n.state == m.state,
        n.tokens == m.tokens + character_tokens(entity_text(i)),
        resolution(m.input.skip(m.pos + 1), ReferenceForm::Named) matches Some(r) && entity_text(i)
            == (match r.second {
            Some(second) => seq![r.first, second],
            None => seq![r.first],
        }),
{
    let m1 = opens_reference(m);
    assert(m1.peek() == m.peek_at(1));
    assert(m1.rest() == m.input.skip(m.pos + 1));
    reads_name(m1, i)
}

/// After `&` and a word that begins no name, the letters and digits of the
/// word are read as text.
proof fn reads_word(m: Machine, word: Seq<char>) -> (n: Machine)
    requires
        m.wf(),
        !m.finished,
        m.state == State::AmbiguousAmpersand,
        reads_references(m.return_state),
        at(m.input, m.pos, word),
        forall|i: int| 0 <= i < word.len() ==> is_alphanumeric(#[trigger] word[i]),
    ensures
        run(n) == run(m),
        n.wf(),
        !n.finished,
        n.input == m.input,
        n.pos == m.pos + word.len(),
        n.state == State::AmbiguousAmpersand,
        n.return_state == m.return_state,
        n.tokens == m.tokens + character_tokens(word),
    decreases word.len(),
{
    if word.len() == 0 {
        assert(m.tokens + character_tokens(word) =~= m.tokens);
        m
    } else {
        let c = word[0];
        sees(m, word);
        run_steps(m);
        in_ambiguous_ampersand(m);
        let next = step(m);
        assert(at(next.input, next.pos, word.drop_first())) by {
            at_concat(m.input, m.pos, seq![c], word.drop_first());
            assert(seq![c] + word.drop_first() =~= word);
        }
        let n = reads_word(next, word.drop_first());
        assert(m.tokens.push(TokenModel::Character(c)) + character_tokens(word.drop_first())
            =~= m.tokens + character_tokens(word));
        n
    }
}

/// In text, `&` before a word that begins no name is text, and so is the
/// word: `&` and the letters and digits after it are emitted as they are, and
/// the text goes on with what follows them.
pub proof fn unknown_name_is_text(m: Machine, word: Seq<char>) -> (n: Machine)
    requires
        m.wf(),
        !m.finished,
        reads_references(m.state),
        at(m.input, m.pos, seq!['&'] + word),
        word.len() > 0,
        forall|i: int| 0 <= i < word.len() ==> is_alphanumeric(#[trigger] word[i]),
        longest_match(m.input.skip(m.pos + 1)) is None,
        !(m.peek_at(1 + word.len() as int) matches Some(c) && is_alphanumeric(c)),
    ensures
        run(n) == run(m),
        n.wf(),
        !n.finished,
        n.input == m.input,
        n.pos == m.pos + 1 + word.len(),
        n.state == m.state,
        n.tokens == m.tokens + character_tokens(seq!['&'] + word),
{
    let amp = seq!['&'];
    at_concat(m.input, m.pos, amp, word);
    sees(m, amp);
    let m1 = opens_reference(m);
    sees(m1, word);
    assert(m1.rest() == m.input.skip(m.pos + 1));
    run_steps(m1);
    in_character_reference(m1);
    let m2 = step(m1);
    assert(m2.rest() == m1.rest());
    run_steps(m2);
    in_named_character_reference(m2);
    let m3 = step(m2);
    assert(m3.tokens =~= m.tokens.push(TokenModel::Character('&'))) by {
        assert(character_tokens(seq!['&']) =~= seq![TokenModel::Character('&')]);
    }
    let m4 = reads_word(m3, word);
    assert(m4.peek() == m.peek_at(1 + word.len() as int));
    run_steps(m4);
    in_ambiguous_ampersand(m4);
    let n = step(m4);
    assert(m.tokens.push(TokenModel::Character('&')) + character_tokens(word) =~= m.tokens
        + character_tokens(amp + word));
    assert(n.tokens == m4.tokens);
    n
}

} // verus!
