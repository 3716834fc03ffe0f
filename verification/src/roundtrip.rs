//! The tokens of a well-formed fragment are the tokens that it spells.

use vstd::prelude::*;
use crate::fragment::{all_well_formed, is_well_formed, spelling, spelling_of};
use crate::model::Machine;
use crate::reading::comment::reads_comment;
use crate::reading::doctype::{keyword, reads_doctype};
use crate::reading::steps::in_data;
use crate::reading::tag::{reads_end_tag, reads_start_tag};
use crate::reading::{at, at_concat, has_read, reads_character, run_steps};
use crate::run::{errors_of, run, tokens_of};
use crate::tokenizer::{ParseError, State, TokenModel};

verus! {

/// One token of a well-formed fragment is read.
proof fn reads_token(m: Machine, token: TokenModel) -> (n: Machine)
    requires
        m.wf(),
        !m.finished,
        m.state == State::Data,
        is_well_formed(token),
        at(m.input, m.pos, spelling(token)),
    ensures
        has_read(m, n, spelling(token).len(), token),
{
    match token {
        TokenModel::Character(c) => reads_character(m, c),
        TokenModel::StartTag { tag_name, self_closing, attributes } => reads_start_tag(
            m,
            tag_name,
            attributes,
            self_closing,
        ),
        TokenModel::EndTag { tag_name } => reads_end_tag(m, tag_name),
        TokenModel::Comment(text) => reads_comment(m, text),
        TokenModel::Doctype { name, .. } => {
            assert(seq!['<', '!', 'D', 'O', 'C', 'T', 'Y', 'P', 'E', ' '] =~= seq!['<', '!']
                + keyword());
            reads_doctype(m, name->0)
        },
        TokenModel::EndOfFile => m,
    }
}

/// At the end of the input a run in the data state ends with the end of file.
proof fn reads_end_of_file(m: Machine)
    requires
        m.wf(),
        !m.finished,
        m.state == State::Data,
        m.pos == m.input.len(),
    ensures
        run(m).tokens == m.tokens.push(TokenModel::EndOfFile),
        run(m).errors == m.errors,
{
    run_steps(m);
    in_data(m);
    assert(run(m.finish()) == m.finish());
}

/// Whether no token of `tokens` is a null character.
pub open spec fn has_no_null(tokens: Seq<TokenModel>) -> bool {
    forall|i: int| 0 <= i < tokens.len() ==> (#[trigger] tokens[i]) != TokenModel::Character('\0')
}

/// From the data state, the tokens of a well-formed fragment are read one
/// after the other, and the end of file after them.
proof fn reads_tokens(m: Machine, tokens: Seq<TokenModel>)
    requires
        m.wf(),
        !m.finished,
        m.state == State::Data,
        all_well_formed(tokens),
        m.rest() == spelling_of(tokens),
    ensures
        run(m).tokens == m.tokens + tokens.push(TokenModel::EndOfFile),
        has_no_null(tokens) ==> run(m).errors == m.errors,
    decreases tokens.len(),
{
    if tokens.len() == 0 {
        assert(m.rest().len() == 0);
        reads_end_of_file(m);
        assert(m.tokens.push(TokenModel::EndOfFile) =~= m.tokens + tokens.push(
            TokenModel::EndOfFile,
        ));
    } else {
        let first = tokens[0];
        let others = tokens.drop_first();
        assert(at(m.input, m.pos, m.rest()));
        at_concat(m.input, m.pos, spelling(first), spelling_of(others));
        let n = reads_token(m, first);
        assert(n.rest() =~= spelling_of(others)) by {
            assert forall|i: int| 0 <= i < n.rest().len() implies n.rest()[i] == spelling_of(
                others,
            )[i] by {
                assert(m.rest()[spelling(first).len() + i] == spelling_of(others)[i]);
            }
        }
        assert(all_well_formed(others)) by {
            assert forall|i: int| 0 <= i < others.len() implies is_well_formed(
                #[trigger] others[i],
            ) by {
                assert(others[i] == tokens[i + 1]);
            }
        }
        if has_no_null(tokens) {
            assert(tokens[0] != TokenModel::Character('\0'));
            assert forall|i: int| 0 <= i < others.len() implies (#[trigger] others[i])
                != TokenModel::Character('\0') by {
                assert(others[i] == tokens[i + 1]);
            }
        }
        reads_tokens(n, others);
        assert(m.tokens.push(first) + others.push(TokenModel::EndOfFile) =~= m.tokens
            + tokens.push(TokenModel::EndOfFile));
    }
}

/// The end of file adds nothing to a spelling.
proof fn end_of_file_is_silent(tokens: Seq<TokenModel>)
    ensures
        spelling_of(tokens.push(TokenModel::EndOfFile)) == spelling_of(tokens),
    decreases tokens.len(),
{
    let more = tokens.push(TokenModel::EndOfFile);
    if tokens.len() == 0 {
        assert(more.drop_first() =~= Seq::<TokenModel>::empty());
        assert(spelling_of(more.drop_first()) =~= Seq::<char>::empty());
        assert(spelling_of(more) =~= Seq::<char>::empty());
    } else {
        end_of_file_is_silent(tokens.drop_first());
        assert(more.drop_first() =~= tokens.drop_first().push(TokenModel::EndOfFile));
    }
}

/// The tokens of a well-formed fragment are the tokens that it spells, with
/// the end of file after them: whatever well-formed tokens `tokens` are,
/// tokenizing their spelling gives them back.
pub proof fn well_formed_fragment_is_read_as_spelled(tokens: Seq<TokenModel>)
    requires
        all_well_formed(tokens),
    ensures
        tokens_of(spelling_of(tokens)) == tokens.push(TokenModel::EndOfFile),
{
    let m = Machine::start(spelling_of(tokens));
    assert(m.rest() =~= spelling_of(tokens));
    reads_tokens(m, tokens);
    assert(m.tokens + tokens.push(TokenModel::EndOfFile) =~= tokens.push(TokenModel::EndOfFile));
}

/// A well-formed fragment without null characters is read without an error.
pub proof fn well_formed_fragment_has_no_errors(tokens: Seq<TokenModel>)
    requires
        all_well_formed(tokens),
        has_no_null(tokens),
    ensures
        errors_of(spelling_of(tokens)) == Seq::<ParseError>::empty(),
{
    let m = Machine::start(spelling_of(tokens));
    assert(m.rest() =~= spelling_of(tokens));
    reads_tokens(m, tokens);
}

/// The round trip: the tokens of a well-formed fragment spell the fragment.
pub proof fn well_formed_fragment_round_trips(tokens: Seq<TokenModel>)
    requires
        all_well_formed(tokens),
    ensures
        spelling_of(tokens_of(spelling_of(tokens))) == spelling_of(tokens),
{
    well_formed_fragment_is_read_as_spelled(tokens);
    end_of_file_is_silent(tokens);
}

} // verus!
