use html_lexer::parser::Parser;
use html_lexer::tokenizer::{is_appropriate_end_tag, tokenize, Misuse, ParseError, State, Token};

fn text(s: &str) -> Vec<Token> {
    s.chars().map(Token::Character).collect()
}

fn errors_of(input: &str) -> Vec<ParseError> {
    let mut parser = Parser::new();
    parser.parse_html(&String::from(input)).unwrap();
    parser.errors().clone()
}

#[test]
fn new_parser_is_in_the_data_state() {
    let parser = Parser::new();
    assert_eq!(parser.state(), State::Data);
    assert!(!parser.is_finished());
    assert!(parser.tokens().is_empty());
    assert!(parser.errors().is_empty());
}

#[test]
fn whole_run_gives_the_tokens_of_tokenize() {
    for input in ["", "a", "<a b=c>d</a>", "<script><!--x--></script>", "&amp;&#65;", "<!DOCTYPE html><!--c-->"] {
        let mut parser = Parser::new();
        assert_eq!(parser.parse_html(&String::from(input)), Ok(()));
        assert!(parser.is_finished());
        assert_eq!(parser.take_tokens(), tokenize(&String::from(input)), "{input:?}");
    }
}

#[test]
fn steps_give_the_tokens_of_tokenize() {
    for input in ["", "a", "<a b=c>d</a>", "<script><!--x--></script>", "&amp;&#65;", "<!DOCTYPE html><!--c-->"] {
        let mut parser = Parser::new();
        assert_eq!(parser.feed(&String::from(input)), Ok(()));
        let mut tokens = Vec::new();
        while !parser.is_finished() {
            assert_eq!(parser.step(), Ok(()));
            tokens.extend(parser.take_tokens());
            assert!(parser.tokens().is_empty());
        }
        assert_eq!(tokens, tokenize(&String::from(input)), "{input:?}");
    }
}

#[test]
fn one_step_reads_one_character_of_text() {
    let mut parser = Parser::new();
    parser.feed(&String::from("ab")).unwrap();
    parser.step().unwrap();
    assert_eq!(parser.tokens(), &vec![Token::Character('a')]);
    parser.step().unwrap();
    assert_eq!(parser.tokens(), &vec![Token::Character('a'), Token::Character('b')]);
    assert!(!parser.is_finished());
    parser.step().unwrap();
    assert!(parser.is_finished());
    assert_eq!(parser.tokens().last(), Some(&Token::EndOfFile));
}

#[test]
fn finished_parser_refuses_to_go_on() {
    let mut parser = Parser::new();
    parser.parse_html(&String::from("a")).unwrap();
    assert_eq!(parser.step(), Err(Misuse::Exhausted));
    assert_eq!(parser.feed(&String::from("b")), Err(Misuse::Exhausted));
    assert_eq!(parser.parse_html(&String::from("b")), Err(Misuse::Exhausted));
    assert_eq!(parser.take_tokens(), vec![Token::Character('a'), Token::EndOfFile]);
}

#[test]
fn input_may_come_in_pieces() {
    let mut parser = Parser::new();
    parser.feed(&String::from("<a hr")).unwrap();
    parser.feed(&String::from("ef=x>")).unwrap();
    parser.parse_html(&String::from("y")).unwrap();
    assert_eq!(parser.take_tokens(), tokenize(&String::from("<a href=x>y")));
}

#[test]
fn switched_state_reads_text_as_that_state_does() {
    let mut parser = Parser::new();
    parser.switch_state(State::Rawtext);
    assert_eq!(parser.state(), State::Rawtext);
    parser.parse_html(&String::from("<b>&amp;")).unwrap();
    let mut expected = text("<b>&amp;");
    expected.push(Token::EndOfFile);
    assert_eq!(parser.take_tokens(), expected);
}

#[test]
fn end_tag_without_a_start_tag_is_not_appropriate() {
    let mut parser = Parser::new();
    parser.switch_state(State::Rcdata);
    parser.parse_html(&String::from("a</title>b")).unwrap();
    let mut expected = text("a</title>b");
    expected.push(Token::EndOfFile);
    assert_eq!(parser.take_tokens(), expected);
}

#[test]
fn current_node_decides_which_end_tag_is_appropriate() {
    let mut parser = Parser::new();
    parser.switch_state(State::Rcdata);
    assert_eq!(parser.set_current_node(Some(&String::from("textarea"))), Ok(()));
    parser.parse_html(&String::from("a</title></textarea>b")).unwrap();
    let mut expected = text("a</title>");
    expected.push(Token::EndTag { tag_name: String::from("textarea") });
    expected.push(Token::Character('b'));
    expected.push(Token::EndOfFile);
    assert_eq!(parser.take_tokens(), expected);
}

#[test]
fn current_node_overrides_the_last_start_tag() {
    let mut parser = Parser::new();
    parser.feed(&String::from("<title>a</title>b")).unwrap();
    while parser.tokens().is_empty() {
        parser.step().unwrap();
    }
    parser.set_current_node(Some(&String::from("svg"))).unwrap();
    parser.parse_html(&String::new()).unwrap();
    let tokens = parser.take_tokens();
    assert_eq!(tokens.len(), 1 + "a</title>b".len() + 1);
    assert_eq!(tokens[2], Token::Character('<'));
}

#[test]
fn cleared_current_node_falls_back_to_the_last_start_tag() {
    let mut parser = Parser::new();
    parser.set_current_node(Some(&String::from("svg"))).unwrap();
    parser.set_current_node(None).unwrap();
    parser.parse_html(&String::from("<title>a</title>")).unwrap();
    let tokens = parser.take_tokens();
    assert_eq!(tokens[2], Token::EndTag { tag_name: String::from("title") });
}

#[test]
fn inconsistent_node_name_is_refused() {
    let mut parser = Parser::new();
    for name in ["", "a b", "a/b", "a>", "a\0", "\n"] {
        assert_eq!(parser.set_current_node(Some(&String::from(name))), Err(Misuse::InconsistentNode), "{name:?}");
    }
    assert_eq!(parser.set_current_node(Some(&String::from("foreignObject"))), Ok(()));
}

#[test]
fn cdata_section_in_foreign_content() {
    let mut parser = Parser::new();
    parser.set_foreign_content(true);
    parser.parse_html(&String::from("<![CDATA[a<b>&amp;]]]>c")).unwrap();
    let mut expected = text("a<b>&amp;]c");
    expected.push(Token::EndOfFile);
    assert_eq!(parser.take_tokens(), expected);
    assert!(parser.errors().is_empty());
}

#[test]
fn cdata_section_cut_short() {
    let mut parser = Parser::new();
    parser.set_foreign_content(true);
    parser.parse_html(&String::from("<![CDATA[a]]")).unwrap();
    let mut expected = text("a]]");
    expected.push(Token::EndOfFile);
    assert_eq!(parser.take_tokens(), expected);
    assert_eq!(parser.errors(), &vec![ParseError::EofInCdata]);
}

#[test]
fn cdata_section_in_html_content_is_a_comment() {
    let mut parser = Parser::new();
    parser.parse_html(&String::from("<![CDATA[a]]>")).unwrap();
    assert_eq!(parser.take_tokens(), vec![Token::Comment(String::from("[CDATA[a]]")), Token::EndOfFile]);
    assert_eq!(parser.errors(), &vec![ParseError::CdataInHtmlContent]);
}

#[test]
fn well_formed_input_has_no_errors() {
    assert_eq!(errors_of("<!DOCTYPE html><p class=\"a\" id='b' c=d>x &amp; y<br/></p><!--z-->"), vec![]);
}

#[test]
fn errors_are_recorded_and_the_run_goes_on() {
    assert_eq!(errors_of("a\0"), vec![ParseError::UnexpectedNullCharacter]);
    assert_eq!(errors_of("<"), vec![ParseError::EofBeforeTagName]);
    assert_eq!(errors_of("<1"), vec![ParseError::InvalidFirstCharacterOfTagName]);
    assert_eq!(errors_of("<?a>"), vec![ParseError::UnexpectedQuestionMarkInsteadOfTagName]);
    assert_eq!(errors_of("</>"), vec![ParseError::MissingEndTagName]);
    assert_eq!(errors_of("</"), vec![ParseError::EofBeforeTagName]);
    assert_eq!(errors_of("<a"), vec![ParseError::EofInTag]);
    assert_eq!(errors_of("<a =b>"), vec![ParseError::UnexpectedEqualsSignBeforeAttributeName]);
    assert_eq!(errors_of("<a b\"c>"), vec![ParseError::UnexpectedCharacterInAttributeName]);
    assert_eq!(errors_of("<a b=>"), vec![ParseError::MissingAttributeValue]);
    assert_eq!(errors_of("<a b=c\"d>"), vec![ParseError::UnexpectedCharacterInUnquotedAttributeValue]);
    assert_eq!(errors_of("<a b=\"c\"d>"), vec![ParseError::MissingWhitespaceBetweenAttributes]);
    assert_eq!(errors_of("<a / b>"), vec![ParseError::UnexpectedSolidusInTag]);
    assert_eq!(errors_of("<a b=1 b=2>"), vec![ParseError::DuplicateAttribute]);
    assert_eq!(errors_of("</a b=c>"), vec![ParseError::EndTagWithAttributes]);
    assert_eq!(errors_of("</a/>"), vec![ParseError::EndTagWithTrailingSolidus]);
    assert_eq!(errors_of("<!a>"), vec![ParseError::IncorrectlyOpenedComment]);
    assert_eq!(errors_of("<!-->"), vec![ParseError::AbruptClosingOfEmptyComment]);
    assert_eq!(errors_of("<!--a"), vec![ParseError::EofInComment]);
    assert_eq!(errors_of("<!--<!--a-->"), vec![ParseError::NestedComment]);
    assert_eq!(errors_of("<!--a--!>"), vec![ParseError::IncorrectlyClosedComment]);
    assert_eq!(errors_of("<!DOCTYPE"), vec![ParseError::EofInDoctype]);
    assert_eq!(errors_of("<!DOCTYPEhtml>"), vec![ParseError::MissingWhitespaceBeforeDoctypeName]);
    assert_eq!(errors_of("<!DOCTYPE >"), vec![ParseError::MissingDoctypeName]);
    assert_eq!(errors_of("<!DOCTYPE a b>"), vec![ParseError::InvalidCharacterSequenceAfterDoctypeName]);
    assert_eq!(errors_of("<!DOCTYPE a PUBLIC\"b\">"), vec![ParseError::MissingWhitespaceAfterDoctypePublicKeyword]);
    assert_eq!(errors_of("<!DOCTYPE a PUBLIC>"), vec![ParseError::MissingDoctypePublicIdentifier]);
    assert_eq!(errors_of("<!DOCTYPE a PUBLIC b>"), vec![ParseError::MissingQuoteBeforeDoctypePublicIdentifier]);
    assert_eq!(errors_of("<!DOCTYPE a PUBLIC \"b>"), vec![ParseError::AbruptDoctypePublicIdentifier]);
    assert_eq!(
        errors_of("<!DOCTYPE a PUBLIC \"b\"\"c\">"),
        vec![ParseError::MissingWhitespaceBetweenDoctypePublicAndSystemIdentifiers]
    );
    assert_eq!(errors_of("<!DOCTYPE a PUBLIC \"b\" c>"), vec![ParseError::MissingQuoteBeforeDoctypeSystemIdentifier]);
    assert_eq!(errors_of("<!DOCTYPE a SYSTEM\"b\">"), vec![ParseError::MissingWhitespaceAfterDoctypeSystemKeyword]);
    assert_eq!(errors_of("<!DOCTYPE a SYSTEM>"), vec![ParseError::MissingDoctypeSystemIdentifier]);
    assert_eq!(errors_of("<!DOCTYPE a SYSTEM 'b>"), vec![ParseError::AbruptDoctypeSystemIdentifier]);
    assert_eq!(errors_of("<!DOCTYPE a SYSTEM 'b' c>"), vec![ParseError::UnexpectedCharacterAfterDoctypeSystemIdentifier]);
    assert_eq!(errors_of("<script><!--a"), vec![ParseError::EofInScriptHtmlCommentLikeText]);
    assert_eq!(errors_of("&foo;"), vec![ParseError::UnknownNamedCharacterReference]);
    assert_eq!(errors_of("&amp"), vec![ParseError::MissingSemicolonAfterCharacterReference]);
    assert_eq!(errors_of("&#65"), vec![ParseError::MissingSemicolonAfterCharacterReference]);
    assert_eq!(errors_of("&#;"), vec![ParseError::AbsenceOfDigitsInNumericCharacterReference]);
    assert_eq!(errors_of("&#0;"), vec![ParseError::NullCharacterReference]);
    assert_eq!(errors_of("&#x110000;"), vec![ParseError::CharacterReferenceOutsideUnicodeRange]);
    assert_eq!(errors_of("&#xD800;"), vec![ParseError::SurrogateCharacterReference]);
    assert_eq!(errors_of("&#xFFFF;"), vec![ParseError::NoncharacterCharacterReference]);
    assert_eq!(errors_of("&#x80;"), vec![ParseError::ControlCharacterReference]);
}

#[test]
fn appropriate_end_tag_is_the_one_named_as_the_context() {
    let name = |s: &str| s.chars().collect::<Vec<char>>();
    assert!(is_appropriate_end_tag(&name("script"), &Some(name("script"))));
    assert!(!is_appropriate_end_tag(&name("b"), &Some(name("script"))));
    assert!(!is_appropriate_end_tag(&name("scrip"), &Some(name("script"))));
    assert!(!is_appropriate_end_tag(&name("script"), &Some(name("Script"))));
    assert!(!is_appropriate_end_tag(&name("script"), &None));
    assert!(is_appropriate_end_tag(&name(""), &Some(name(""))));
}
