use html_lexer::tokenizer::{tokenize, Attribute, Token};

fn text(s: &str) -> Vec<Token> {
    s.chars().map(Token::Character).collect()
}

fn start(name: &str, attributes: &[(&str, &str)]) -> Token {
    Token::StartTag {
        tag_name: String::from(name),
        self_closing: false,
        attributes: attributes
            .iter()
            .map(|(n, v)| Attribute { name: String::from(*n), value: String::from(*v) })
            .collect(),
    }
}

fn end(name: &str) -> Token {
    Token::EndTag { tag_name: String::from(name) }
}

fn run(input: &str) -> Vec<Token> {
    tokenize(&String::from(input))
}

fn sequence(parts: Vec<Vec<Token>>) -> Vec<Token> {
    let mut all: Vec<Token> = parts.into_iter().flatten().collect();
    all.push(Token::EndOfFile);
    all
}

#[test]
fn element_with_attribute_and_reference() {
    assert_eq!(
        run("<div class=\"a\">Hi &amp; bye</div>"),
        sequence(vec![vec![start("div", &[("class", "a")])], text("Hi & bye"), vec![end("div")]])
    );
}

#[test]
fn empty_input_is_the_end_of_file_alone() {
    assert_eq!(run(""), vec![Token::EndOfFile]);
}

#[test]
fn end_of_file_comes_last_and_once() {
    for input in ["", "a", "<", "</", "<a", "<a b", "<!--", "<!DOCTYPE", "&", "&#", "<script>x", "a<b>c</b>"] {
        let tokens = run(input);
        assert_eq!(tokens.last(), Some(&Token::EndOfFile), "{input:?}");
        let count = tokens.iter().filter(|t| **t == Token::EndOfFile).count();
        assert_eq!(count, 1, "{input:?}");
    }
}

#[test]
fn names_are_folded_to_lowercase() {
    assert_eq!(
        run("<DiV CLASS=\"Up\" iD=x></DIV>"),
        sequence(vec![vec![start("div", &[("class", "Up"), ("id", "x")]), end("div")]])
    );
}

#[test]
fn first_of_two_attributes_of_one_name_wins() {
    assert_eq!(run("<a x=\"1\" x=\"2\">"), sequence(vec![vec![start("a", &[("x", "1")])]]));
}

#[test]
fn duplicate_is_told_by_the_folded_name() {
    assert_eq!(
        run("<a x=1 X=2 y=3>"),
        sequence(vec![vec![start("a", &[("x", "1"), ("y", "3")])]])
    );
}

#[test]
fn script_ends_at_its_own_end_tag_only() {
    assert_eq!(
        run("<script>a</b></script>"),
        sequence(vec![vec![start("script", &[])], text("a</b>"), vec![end("script")]])
    );
}

#[test]
fn script_end_tag_in_any_case() {
    assert_eq!(
        run("<script>a</SCRIPT >b"),
        sequence(vec![vec![start("script", &[])], text("a"), vec![end("script")], text("b")])
    );
}

#[test]
fn unfinished_end_tag_in_script_is_text() {
    assert_eq!(
        run("<script></scr"),
        sequence(vec![vec![start("script", &[])], text("</scr")])
    );
}

#[test]
fn title_is_text_with_references() {
    assert_eq!(
        run("<title>a<b>&lt;</i></title>x"),
        sequence(vec![vec![start("title", &[])], text("a<b><</i>"), vec![end("title")], text("x")])
    );
}

#[test]
fn style_is_text_without_references() {
    assert_eq!(
        run("<style>a&amp;<b></style>"),
        sequence(vec![vec![start("style", &[])], text("a&amp;<b>"), vec![end("style")]])
    );
}

#[test]
fn plaintext_never_ends() {
    assert_eq!(
        run("<plaintext>a</plaintext>&amp;"),
        sequence(vec![vec![start("plaintext", &[])], text("a</plaintext>&amp;")])
    );
}

#[test]
fn script_comment_hides_a_nested_script() {
    let inner = "<!--<script>a</script>-->";
    assert_eq!(
        run(&format!("<script>{inner}</script>")),
        sequence(vec![vec![start("script", &[])], text(inner), vec![end("script")]])
    );
}

#[test]
fn script_comment_without_nested_script_ends_at_end_tag() {
    assert_eq!(
        run("<script><!--a</script>b"),
        sequence(vec![vec![start("script", &[])], text("<!--a"), vec![end("script")], text("b")])
    );
}

#[test]
fn self_closing_tag() {
    assert_eq!(
        run("<br/>"),
        vec![
            Token::StartTag { tag_name: String::from("br"), self_closing: true, attributes: vec![] },
            Token::EndOfFile
        ]
    );
}

#[test]
fn attribute_values_in_all_three_forms() {
    assert_eq!(
        run("<a b='c d' e=\"f'g\" h=i j>"),
        sequence(vec![vec![start("a", &[("b", "c d"), ("e", "f'g"), ("h", "i"), ("j", "")])]])
    );
}

#[test]
fn equals_sign_before_a_name_begins_the_name() {
    assert_eq!(run("<a =b=c>"), sequence(vec![vec![start("a", &[("=b", "c")])]]));
}

#[test]
fn end_tag_keeps_its_name_only() {
    assert_eq!(run("</a b=c/>"), sequence(vec![vec![end("a")]]));
}

#[test]
fn lone_less_than_sign_is_text() {
    assert_eq!(run("a < b"), sequence(vec![text("a < b")]));
    assert_eq!(run("<"), sequence(vec![text("<")]));
    assert_eq!(run("</"), sequence(vec![text("</")]));
}

#[test]
fn empty_end_tag_is_dropped() {
    assert_eq!(run("a</>b"), sequence(vec![text("ab")]));
}

#[test]
fn tag_cut_short_by_the_end_is_dropped() {
    assert_eq!(run("a<b c=\"d"), sequence(vec![text("a")]));
    assert_eq!(run("a<b"), sequence(vec![text("a")]));
}

#[test]
fn null_in_text_is_kept() {
    assert_eq!(run("a\0b"), sequence(vec![text("a\0b")]));
    assert_eq!(
        run("<title>\0</title>"),
        sequence(vec![vec![start("title", &[])], text("\0"), vec![end("title")]])
    );
    assert_eq!(run("<script>\0"), sequence(vec![vec![start("script", &[])], text("\0")]));
}

#[test]
fn null_in_names_and_values_is_replaced() {
    assert_eq!(
        run("<a\0 b\0=\"c\0\">"),
        sequence(vec![vec![start("a\u{FFFD}", &[("b\u{FFFD}", "c\u{FFFD}")])]])
    );
}

#[test]
fn comments() {
    let comment = |s: &str| Token::Comment(String::from(s));
    assert_eq!(run("<!--a-->"), sequence(vec![vec![comment("a")]]));
    assert_eq!(run("<!---->"), sequence(vec![vec![comment("")]]));
    assert_eq!(run("<!-->"), sequence(vec![vec![comment("")]]));
    assert_eq!(run("<!--->"), sequence(vec![vec![comment("")]]));
    assert_eq!(run("<!--a-b--c--->d"), sequence(vec![vec![comment("a-b--c-")], text("d")]));
    assert_eq!(run("<!--a--!>b"), sequence(vec![vec![comment("a")], text("b")]));
    assert_eq!(run("<!--a--!b-->"), sequence(vec![vec![comment("a--!b")]]));
    assert_eq!(run("<!--<!--a-->"), sequence(vec![vec![comment("<!--a")]]));
    assert_eq!(run("<!--a\0-->"), sequence(vec![vec![comment("a\u{FFFD}")]]));
    assert_eq!(run("<!--a"), sequence(vec![vec![comment("a")]]));
    assert_eq!(run("<!--a--"), sequence(vec![vec![comment("a")]]));
}

#[test]
fn bogus_comments() {
    let comment = |s: &str| Token::Comment(String::from(s));
    assert_eq!(run("<?xml a?>b"), sequence(vec![vec![comment("?xml a?")], text("b")]));
    assert_eq!(run("<!a>"), sequence(vec![vec![comment("a")]]));
    assert_eq!(run("</ a>"), sequence(vec![vec![comment(" a")]]));
    assert_eq!(run("<![CDATA[a]]>"), sequence(vec![vec![comment("[CDATA[a]]")]]));
}

#[test]
fn doctypes() {
    let doctype = |name: Option<&str>, public_id: Option<&str>, system_id: Option<&str>, force_quirks: bool| {
        Token::Doctype {
            name: name.map(String::from),
            public_id: public_id.map(String::from),
            system_id: system_id.map(String::from),
            force_quirks,
        }
    };
    assert_eq!(run("<!DOCTYPE html>"), sequence(vec![vec![doctype(Some("html"), None, None, false)]]));
    assert_eq!(run("<!doctype HTML>"), sequence(vec![vec![doctype(Some("html"), None, None, false)]]));
    assert_eq!(run("<!DOCTYPE>"), sequence(vec![vec![doctype(None, None, None, true)]]));
    assert_eq!(run("<!DOCTYPE"), sequence(vec![vec![doctype(None, None, None, true)]]));
    assert_eq!(run("<!DOCTYPE html"), sequence(vec![vec![doctype(Some("html"), None, None, true)]]));
    assert_eq!(
        run("<!DOCTYPE html PUBLIC \"-//W3C//DTD HTML 4.01//EN\" \"http://www.w3.org/TR/html4/strict.dtd\">"),
        sequence(vec![vec![doctype(
            Some("html"),
            Some("-//W3C//DTD HTML 4.01//EN"),
            Some("http://www.w3.org/TR/html4/strict.dtd"),
            false
        )]])
    );
    assert_eq!(
        run("<!DOCTYPE html system 'about:legacy-compat'>"),
        sequence(vec![vec![doctype(Some("html"), None, Some("about:legacy-compat"), false)]])
    );
    assert_eq!(
        run("<!DOCTYPE html PUBLIC 'a'>"),
        sequence(vec![vec![doctype(Some("html"), Some("a"), None, false)]])
    );
    assert_eq!(
        run("<!DOCTYPE html PUBLIC>"),
        sequence(vec![vec![doctype(Some("html"), None, None, true)]])
    );
    assert_eq!(
        run("<!DOCTYPE html PUBLIC 'a>"),
        sequence(vec![vec![doctype(Some("html"), Some("a"), None, true)]])
    );
    assert_eq!(
        run("<!DOCTYPE html bogus>x"),
        sequence(vec![vec![doctype(Some("html"), None, None, true)], text("x")])
    );
    assert_eq!(
        run("<!DOCTYPE html SYSTEM 'a' b>"),
        sequence(vec![vec![doctype(Some("html"), None, Some("a"), false)]])
    );
}

#[test]
fn plain_text_comes_back_character_by_character() {
    let input = "plain text, with \"quotes\" > and\nlines \u{1F600}";
    let tokens = run(input);
    let back: String = tokens
        .iter()
        .filter_map(|t| match t {
            Token::Character(c) => Some(*c),
            _ => None,
        })
        .collect();
    assert_eq!(back, input);
    assert_eq!(tokens.len(), input.chars().count() + 1);
}

fn spelling(tokens: &[Token]) -> String {
    let mut out = String::new();
    for token in tokens {
        match token {
            Token::Character(c) => out.push(*c),
            Token::StartTag { tag_name, self_closing, attributes } => {
                out.push('<');
                out.push_str(tag_name);
                for a in attributes {
                    out.push_str(&format!(" {}=\"{}\"", a.name, a.value));
                }
                if *self_closing {
                    out.push('/');
                }
                out.push('>');
            }
            Token::EndTag { tag_name } => out.push_str(&format!("</{tag_name}>")),
            Token::Comment(text) => out.push_str(&format!("<!--{text}-->")),
            Token::Doctype { name, .. } => {
                out.push_str(&format!("<!DOCTYPE {}>", name.clone().unwrap_or_default()))
            }
            Token::EndOfFile => {}
        }
    }
    out
}

#[test]
fn well_formed_fragment_is_spelled_back() {
    let input = "<!DOCTYPE html><!--note--><p id=\"a\" class=\"b c\">one <b>two</b><br/></p>\nend";
    assert_eq!(spelling(&run(input)), input);
}
