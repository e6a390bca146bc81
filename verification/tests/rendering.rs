use kobe::error::Error;
use kobe::error::ErrorKind;
use kobe::error::LexicalErrorKind;
use kobe::lex::Lexer;
use kobe::token::Token;
use kobe::token::TokenType;

#[test]
fn token_renders_lexeme_kind_and_position() {
    let mut l = Lexer::new("foo".chars().collect());
    let t = l.next().unwrap().unwrap();
    assert_eq!(t.render(), "foo (Identifier) line: 1 character: 3");
}

#[test]
fn token_renders_operator_kind_names() {
    let mut l = Lexer::new(" >= ".chars().collect());
    let t = l.next().unwrap().unwrap();
    assert_eq!(t.render(), ">= (GreaterThanOrEqual) line: 1 character: 3");
}

#[test]
fn token_renders_multi_digit_positions() {
    let t = Token {
        tok_type: TokenType::IntLiteral,
        lexeme: "204".to_string(),
        line_number: 12,
        char_number: 105,
    };
    assert_eq!(t.render(), "204 (IntLiteral) line: 12 character: 105");
}

#[test]
fn error_renders_kind_locator_line_and_caret() {
    let mut l = Lexer::new("1.2.3".chars().collect());
    let e = l.next().unwrap().unwrap_err();
    assert_eq!(
        e.render("stdin"),
        "Lexical error: invalid floating-point literal.\n> stdin:1:4\n| \n|    ^\n"
    );
}

#[test]
fn error_renders_each_lexical_description() {
    let cases = [
        ("#", "Lexical error: unexpected character in input.\n> stdin:1:1\n| \n| ^\n"),
        ("''", "Lexical error: invalid character literal.\n> stdin:1:1\n| \n| ^\n"),
        ("'\\j'", "Lexical error: invalid escape code.\n> stdin:1:2\n| \n|  ^\n"),
        ("\"a", "Lexical error: invalid string literal.\n> stdin:1:2\n| \n|  ^\n"),
    ];
    for (input, expected) in cases {
        let mut l = Lexer::new(input.chars().collect());
        let e = l.next().unwrap().unwrap_err();
        assert_eq!(e.render("stdin"), expected);
    }
}

#[test]
fn error_rendering_prefers_its_own_file_path() {
    let e = Error {
        kind: ErrorKind::Lexical(LexicalErrorKind::UnexpectedCharacter),
        line_number: 12,
        char_number: 0,
        line: "abc".to_string(),
        file_path: Some("main.kobe".to_string()),
    };
    assert_eq!(
        e.render("stdin"),
        "Lexical error: unexpected character in input.\n> main.kobe:12:0\n| abc\n|^\n"
    );
}

#[test]
fn syntax_error_renders_its_category() {
    let e = Error {
        kind: ErrorKind::Syntax,
        line_number: 3,
        char_number: 2,
        line: String::new(),
        file_path: None,
    };
    assert_eq!(e.render("input.kobe"), "Syntax error: ...\n> input.kobe:3:2\n| \n|  ^\n");
}
