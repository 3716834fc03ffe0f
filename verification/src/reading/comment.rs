//! How the comments of a well-formed fragment are read.

use vstd::prelude::*;
use crate::fragment::is_comment_text;
use crate::model::Machine;
use crate::reading::{at, at_concat, has_read, moved, reads_less_than_sign, run_steps, sees};
use crate::reading::steps::{
    in_comment, in_comment_end, in_comment_end_dash, in_comment_start, in_comment_start_dash,
    in_markup_declaration_open, in_tag_open,
};
use crate::step::step;
use crate::tokenizer::{State, TokenModel};

verus! {

/// `<!` in the data state opens a declaration.
pub proof fn opens_declaration(m: Machine) -> (n: Machine)
    requires
        m.wf(),
        !m.finished,
        m.state == State::Data,
        at(m.input, m.pos, seq!['<', '!']),
    ensures
        moved(m, n, 2),
        n.state == State::MarkupDeclarationOpen,
{
    sees(m, seq!['<', '!']);
    let m1 = reads_less_than_sign(m);
    assert(m1.peek() == m.peek_at(1));
    run_steps(m1);
    in_tag_open(m1);
    step(m1)
}

/// `<!--` begins a comment.
proof fn opens_comment(m: Machine) -> (n: Machine)
    requires
        m.wf(),
        !m.finished,
        m.state == State::Data,
        at(m.input, m.pos, seq!['<', '!', '-', '-']),
    ensures
        moved(m, n, 4),
        n.state == State::CommentStart,
        n.comment == Seq::<char>::empty(),
{
    let text = seq!['<', '!', '-', '-'];
    sees(m, text);
    assert(at(m.input, m.pos, seq!['<', '!'])) by {
        assert(text[0] == '<' && text[1] == '!');
    }
    let m1 = opens_declaration(m);
    assert(m1.peek_at(0) == m.peek_at(2));
    assert(m1.peek_at(1) == m.peek_at(3));
    assert(text[2] == '-' && text[3] == '-');
    run_steps(m1);
    in_markup_declaration_open(m1);
    step(m1)
}

/// The rest of a comment's text is read character by character.
proof fn reads_comment_text(m: Machine, rest: Seq<char>) -> (n: Machine)
    requires
        m.wf(),
        !m.finished,
        m.state == State::Comment,
        at(m.input, m.pos, rest),
        forall|i: int|
            0 <= i < rest.len() ==> (#[trigger] rest[i]) != '-' && rest[i] != '<' && rest[i]
                != '\0',
    ensures
        moved(m, n, rest.len()),
        n.state == State::Comment,
        n.comment == m.comment + rest,
    decreases rest.len(),
{
    if rest.len() == 0 {
        assert(m.comment + rest =~= m.comment);
        m
    } else {
        let c = rest[0];
        sees(m, rest);
        run_steps(m);
        in_comment(m);
        let next = step(m);
        assert(at(next.input, next.pos, rest.drop_first())) by {
            at_concat(m.input, m.pos, seq![c], rest.drop_first());
            assert(seq![c] + rest.drop_first() =~= rest);
        }
        assert forall|i: int| 0 <= i < rest.drop_first().len() implies (
        #[trigger] rest.drop_first()[i]) != '-' && rest.drop_first()[i] != '<'
            && rest.drop_first()[i] != '\0' by {
            assert(rest.drop_first()[i] == rest[i + 1]);
        }
        let n = reads_comment_text(next, rest.drop_first());
        assert(m.comment.push(c) + rest.drop_first() =~= m.comment + rest);
        n
    }
}

/// `-->` after the text of a comment emits it.
proof fn closes_comment(m: Machine) -> (n: Machine)
    requires
        m.wf(),
        !m.finished,
        m.state == State::Comment || (m.state == State::CommentStart && m.comment.len() == 0),
        at(m.input, m.pos, seq!['-', '-', '>']),
    ensures
        has_read(m, n, 3, TokenModel::Comment(m.comment)),
{
    let text = seq!['-', '-', '>'];
    sees(m, text);
    assert(text[0] == '-' && text[1] == '-' && text[2] == '>');
    run_steps(m);
    if m.state == State::Comment {
        in_comment(m);
    } else {
        in_comment_start(m);
    }
    let m1 = step(m);
    assert(m1.peek() == m.peek_at(1));
    run_steps(m1);
    if m.state == State::Comment {
        in_comment_end_dash(m1);
    } else {
        in_comment_start_dash(m1);
    }
    let m2 = step(m1);
    assert(m2.peek() == m.peek_at(2));
    run_steps(m2);
    in_comment_end(m2);
    step(m2)
}

/// The first character of a comment's text leaves the start of the comment
/// behind.
proof fn enters_comment(m: Machine, c: char) -> (n: Machine)
    requires
        m.wf(),
        !m.finished,
        m.state == State::CommentStart,
        m.peek() == Some(c),
        c != '-',
        c != '>',
    ensures
        moved(m, n, 0),
        n.state == State::Comment,
        n.comment == m.comment,
{
    run_steps(m);
    in_comment_start(m);
    step(m)
}

/// A comment is read from `<!--` to `-->`.
pub proof fn reads_comment(m: Machine, text: Seq<char>) -> (n: Machine)
    requires
        m.wf(),
        !m.finished,
        m.state == State::Data,
        is_comment_text(text),
        at(m.input, m.pos, seq!['<', '!', '-', '-'] + text + seq!['-', '-', '>']),
    ensures
        has_read(m, n, text.len() + 7, TokenModel::Comment(text)),
{
    let open = seq!['<', '!', '-', '-'];
    let close = seq!['-', '-', '>'];
    at_concat(m.input, m.pos, open + text, close);
    at_concat(m.input, m.pos, open, text);
    let m1 = opens_comment(m);
    assert(Seq::<char>::empty() + text =~= text);
    if text.len() == 0 {
        closes_comment(m1)
    } else {
        sees(m1, text);
        let m2 = enters_comment(m1, text[0]);
        let m3 = reads_comment_text(m2, text);
        closes_comment(m3)
    }
}

} // verus!
