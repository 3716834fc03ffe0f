use html_lexer::lexer::{html, LexerGenerator, Token};
use html_lexer::scraper::{parse_html, Document};

fn text(chars: &[char]) -> String {
    chars.iter().collect()
}

#[test]
fn generator_starts_without_rules() {
    assert!(LexerGenerator::build().rules().is_empty());
}

#[test]
fn rule_with_a_pattern_that_compiles_is_added() {
    let mut generator = LexerGenerator::build();
    assert!(generator.add("WORD", r"\w+"));
    assert!(generator.add("SPACE", r"\s+"));
    let rules = generator.rules();
    assert_eq!(rules.len(), 2);
    assert_eq!(text(&rules[0].token), "WORD");
    assert_eq!(text(&rules[0].pattern), r"\w+");
    assert_eq!(text(&rules[1].token), "SPACE");
    assert_eq!(text(&rules[1].pattern), r"\s+");
}

#[test]
fn rule_with_a_pattern_that_does_not_compile_is_left_out() {
    let mut generator = LexerGenerator::build();
    assert!(generator.add("WORD", r"\w+"));
    assert!(!generator.add("OPEN", r"a(b"));
    assert!(!generator.add("CLASS", r"[a"));
    assert_eq!(generator.rules().len(), 1);
    assert_eq!(text(&generator.rules()[0].token), "WORD");
}

#[test]
fn rule_is_added_as_the_caller_says_it_compiled() {
    let mut generator = LexerGenerator::build();
    assert!(!generator.add_compiled("A", "a", false));
    assert!(generator.rules().is_empty());
    assert!(generator.add_compiled("B", "b", true));
    assert_eq!(generator.rules().len(), 1);
    assert_eq!(text(&generator.rules()[0].pattern), "b");
}

#[test]
fn ignoring_gives_a_generator_without_rules() {
    let mut generator = LexerGenerator::build();
    generator.add("WORD", r"\w+");
    assert!(generator.ignore("SPACE", r"\s+").rules().is_empty());
    assert_eq!(generator.rules().len(), 1);
}

#[test]
fn html_generator_has_its_four_rules() {
    let generator = html(String::from("<p>"));
    let names: Vec<String> = generator.rules().iter().map(|r| text(&r.token)).collect();
    assert_eq!(names, ["OPENING_TAG", "SELF_CLOSING_TAG", "CLOSING_TAG", "TEXT"]);
    assert_eq!(text(&generator.rules()[1].pattern), "/>");
    assert_eq!(text(&generator.rules()[2].pattern), ">");
    assert_eq!(text(&generator.rules()[3].pattern), "");
}

#[test]
fn lexer_token_is_a_kind_and_a_text() {
    let token = Token("TEXT", "abc");
    assert_eq!(token.0, "TEXT");
    assert_eq!(token.1, "abc");
}

#[test]
fn document_before_tree_construction_has_no_nodes() {
    assert_eq!(parse_html(&String::from("<p>a</p>")), Document {});
}
