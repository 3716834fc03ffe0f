//! A lexer generator: a list of rules, each the name of a kind of token with
//! the pattern that finds it, no pattern among them that does not compile.

use vstd::prelude::*;
use crate::chars::chars_of;

verus! {

/// A token of a generated lexer: its kind and its text.
pub struct Token<'a>(pub &'a str, pub &'a str);

/// One rule: the name of a kind of token, and the pattern of such tokens.
pub struct Rule {
    pub token: Vec<char>,
    pub pattern: Vec<char>,
}

impl View for Rule {
    type V = (Seq<char>, Seq<char>);

    open spec fn view(&self) -> (Seq<char>, Seq<char>) {
        (self.token@, self.pattern@)
    }
}

pub struct LexerGenerator {
    rules: Vec<Rule>,
}

impl View for LexerGenerator {
    type V = Seq<(Seq<char>, Seq<char>)>;

    closed spec fn view(&self) -> Seq<(Seq<char>, Seq<char>)> {
        Seq::new(self.rules@.len(), |i: int| self.rules@[i]@)
    }
}

/// `regex::Regex::new`, and whether it took the pattern. Nothing is claimed
/// of the outcome: the size limits that decide it for a large pattern are
/// counted in bytes of the machine.
#[verifier::external_body]
fn compiles(pattern: &str) -> (ok: bool) {
    regex::Regex::new(pattern).is_ok()
}

/// `rules` with the rule of `token` and `pattern` at its end, if `compiled`.
pub open spec fn with_rule(
    rules: Seq<(Seq<char>, Seq<char>)>,
    token: Seq<char>,
    pattern: Seq<char>,
    compiled: bool,
) -> Seq<(Seq<char>, Seq<char>)> {
    if compiled {
        rules.push((token, pattern))
    } else {
        rules
    }
}

/// The rules for HTML, of which those stay whose pattern compiled: `compiled`
/// says so for each of the four, in order.
pub open spec fn html_rules(compiled: Seq<bool>) -> Seq<(Seq<char>, Seq<char>)> {
    with_rule(
        with_rule(
            with_rule(
                with_rule(
                    Seq::empty(),
                    "OPENING_TAG"@,
                    r#"<\s*[a-zA-Z_][a-zA-Z0-9_-]*(?:\s+[a-zA-Z_][a-zA-Z0-9_-]*(?:="\w*")*)*\s*\/?>"#@,
                    compiled[0],
                ),
                "SELF_CLOSING_TAG"@,
                r"/>"@,
                compiled[1],
            ),
            "CLOSING_TAG"@,
            r">"@,
            compiled[2],
        ),
        "TEXT"@,
        ""@,
        compiled[3],
    )
}

impl LexerGenerator {
    /// A generator without rules.
    pub fn build() -> (generator: Self)
        ensures
            generator@ == Seq::<(Seq<char>, Seq<char>)>::empty(),
    {
        Self { rules: Vec::new() }
    }

    /// The rules, in the order in which they were added.
    pub fn rules(&self) -> (rules: &Vec<Rule>)
        ensures
            rules@.len() == self@.len(),
            forall|i: int| 0 <= i < rules@.len() ==> (#[trigger] rules@[i])@ == self@[i],
    {
        &self.rules
    }

    /// Adds the rule of `token` and `regex` where `compiled` says that the
    /// pattern compiles, and says whether it did.
    pub fn add_compiled(&mut self, token: &str, regex: &str, compiled: bool) -> (added: bool)
        ensures
            added == compiled,
            final(self)@ == with_rule(old(self)@, token@, regex@, compiled),
    {
        if compiled {
            self.rules.push(Rule { token: chars_of(token), pattern: chars_of(regex) });
            assert(self@ =~= old(self)@.push((token@, regex@)));
        }
        compiled
    }

    /// Adds the rule of `token` and `regex` if the pattern compiles, and says
    /// whether it did.
    pub fn add(&mut self, token: &str, regex: &str) -> (added: bool)
        ensures
            final(self)@ == with_rule(old(self)@, token@, regex@, added),
    {
        let compiled = compiles(regex);
        self.add_compiled(token, regex, compiled)
    }

    /// A generator that leaves such tokens out. It has no rules yet.
    pub fn ignore(&self, _token: &str, _regex: &str) -> (generator: Self)
        ensures
            generator@ == Seq::<(Seq<char>, Seq<char>)>::empty(),
    {
        Self { rules: Vec::new() }
    }
}

/// The generator for HTML: the four rules for tags and text, each as far as
/// its pattern compiles.
pub fn html(_html: String) -> (generator: LexerGenerator)
    ensures
        exists|compiled: Seq<bool>| compiled.len() == 4 && generator@ == html_rules(compiled),
{
    let mut generator = LexerGenerator::build();
    let opening = generator.add(
        "OPENING_TAG",
        r#"<\s*[a-zA-Z_][a-zA-Z0-9_-]*(?:\s+[a-zA-Z_][a-zA-Z0-9_-]*(?:="\w*")*)*\s*\/?>"#,
    );
    let self_closing = generator.add("SELF_CLOSING_TAG", r"/>");
    let closing = generator.add("CLOSING_TAG", r">");
    let text = generator.add("TEXT", "");
    assert(generator@ == html_rules(seq![opening, self_closing, closing, text]));
    generator
}

} // verus!
