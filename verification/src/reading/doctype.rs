//! How the doctype of a well-formed fragment is read.

use vstd::prelude::*;
use crate::chars::{is_upper, is_whitespace, spec_lower};
use crate::fragment::is_doctype_name;
use crate::model::{DoctypeModel, Machine};
use crate::reading::comment::opens_declaration;
use crate::reading::{at, at_concat, has_read, moved, run_steps, sees};
use crate::reading::steps::{
    in_before_doctype_name, in_doctype, in_doctype_name, in_markup_declaration_open,
};
use crate::step::step;
use crate::tokenizer::{State, TokenModel};

verus! {

/// The keyword of a doctype as it is spelled, with the space behind it.
pub open spec fn keyword() -> Seq<char> {
    seq!['D', 'O', 'C', 'T', 'Y', 'P', 'E', ' ']
}

/// The keyword after `<!` begins a doctype.
proof fn reads_keyword(m: Machine) -> (n: Machine)
    requires
        m.wf(),
        !m.finished,
        m.state == State::MarkupDeclarationOpen,
        at(m.input, m.pos, keyword()),
    ensures
        moved(m, n, 8),
        n.state == State::BeforeDoctypeName,
{
    let text = keyword();
    sees(m, text);
    assert(text[0] == 'D' && text[1] == 'O' && text[2] == 'C' && text[3] == 'T' && text[4] == 'Y'
        && text[5] == 'P' && text[6] == 'E' && text[7] == ' ');
    assert(spec_lower('D') == 'd' && spec_lower('O') == 'o' && spec_lower('C') == 'c' && spec_lower(
        'T',
    ) == 't' && spec_lower('Y') == 'y' && spec_lower('P') == 'p' && spec_lower('E') == 'e');
    assert(m.looking_at_doctype());
    assert(!m.looking_at_dashes());
    run_steps(m);
    in_markup_declaration_open(m);
    let m1 = step(m);
    assert(m1.peek() == m.peek_at(7));
    run_steps(m1);
    in_doctype(m1);
    step(m1)
}

/// The first character of the name begins the doctype's token.
proof fn begins_name(m: Machine, c: char) -> (n: Machine)
    requires
        m.wf(),
        !m.finished,
        m.state == State::BeforeDoctypeName,
        m.peek() == Some(c),
        !is_whitespace(c),
        c != '>',
        c != '\0',
        !is_upper(c),
    ensures
        moved(m, n, 1),
        n.state == State::DoctypeName,
        n.doctype == (DoctypeModel {
            name: Some(seq![c]),
            public_id: None,
            system_id: None,
            force_quirks: false,
        }),
{
    run_steps(m);
    in_before_doctype_name(m);
    let n = step(m);
    assert(n.doctype.name->0 =~= seq![c]);
    n
}

/// The rest of the name is read character by character.
proof fn reads_name(m: Machine, rest: Seq<char>) -> (n: Machine)
    requires
        m.wf(),
        !m.finished,
        m.state == State::DoctypeName,
        m.doctype.name is Some,
        at(m.input, m.pos, rest),
        forall|i: int|
            0 <= i < rest.len() ==> !is_whitespace(#[trigger] rest[i]) && rest[i] != '>' && rest[i]
                != '\0' && !is_upper(rest[i]),
    ensures
        moved(m, n, rest.len()),
        n.state == State::DoctypeName,
        n.doctype == (DoctypeModel { name: Some(m.doctype.name->0 + rest), ..m.doctype }),
    decreases rest.len(),
{
    if rest.len() == 0 {
        assert(m.doctype.name->0 + rest =~= m.doctype.name->0);
        m
    } else {
        let c = rest[0];
        sees(m, rest);
        run_steps(m);
        in_doctype_name(m);
        let next = step(m);
        assert(spec_lower(c) == c);
        assert(at(next.input, next.pos, rest.drop_first())) by {
            at_concat(m.input, m.pos, seq![c], rest.drop_first());
            assert(seq![c] + rest.drop_first() =~= rest);
        }
        assert forall|i: int| 0 <= i < rest.drop_first().len() implies !is_whitespace(
            #[trigger] rest.drop_first()[i],
        ) && rest.drop_first()[i] != '>' && rest.drop_first()[i] != '\0' && !is_upper(
            rest.drop_first()[i],
        ) by {
            assert(rest.drop_first()[i] == rest[i + 1]);
        }
        let n = reads_name(next, rest.drop_first());
        assert(m.doctype.name->0.push(c) + rest.drop_first() =~= m.doctype.name->0 + rest);
        n
    }
}

/// `>` after the name emits the doctype.
proof fn closes_doctype(m: Machine) -> (n: Machine)
    requires
        m.wf(),
        !m.finished,
        m.state == State::DoctypeName,
        m.peek() == Some('>'),
    ensures
        has_read(
            m,
            n,
            1,
            TokenModel::Doctype {
                name: m.doctype.name,
                public_id: m.doctype.public_id,
                system_id: m.doctype.system_id,
                force_quirks: m.doctype.force_quirks,
            },
        ),
{
    run_steps(m);
    in_doctype_name(m);
    step(m)
}

/// A doctype is read from `<!DOCTYPE` to `>`.
pub proof fn reads_doctype(m: Machine, name: Seq<char>) -> (n: Machine)
    requires
        m.wf(),
        !m.finished,
        m.state == State::Data,
        is_doctype_name(name),
        at(m.input, m.pos, seq!['<', '!'] + keyword() + name + seq!['>']),
    ensures
        has_read(
            m,
            n,
            name.len() + 11,
            TokenModel::Doctype {
                name: Some(name),
                public_id: None,
                system_id: None,
                force_quirks: false,
            },
        ),
{
    let open = seq!['<', '!'];
    let close = seq!['>'];
    at_concat(m.input, m.pos, open + keyword() + name, close);
    at_concat(m.input, m.pos, open + keyword(), name);
    at_concat(m.input, m.pos, open, keyword());
    let m1 = opens_declaration(m);
    let m2 = reads_keyword(m1);
    sees(m2, name);
    let m3 = begins_name(m2, name[0]);
    assert(at(m3.input, m3.pos, name.drop_first())) by {
        at_concat(m2.input, m2.pos, seq![name[0]], name.drop_first());
        assert(seq![name[0]] + name.drop_first() =~= name);
    }
    assert forall|i: int| 0 <= i < name.drop_first().len() implies !is_whitespace(
        #[trigger] name.drop_first()[i],
    ) && name.drop_first()[i] != '>' && name.drop_first()[i] != '\0' && !is_upper(
        name.drop_first()[i],
    ) by {
        assert(name.drop_first()[i] == name[i + 1]);
    }
    let m4 = reads_name(m3, name.drop_first());
    assert(seq![name[0]] + name.drop_first() =~= name);
    sees(m4, close);
    closes_doctype(m4)
}

} // verus!
