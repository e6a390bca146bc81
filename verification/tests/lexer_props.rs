use kobe::error::Error;
use kobe::error::ErrorKind;
use kobe::error::LexicalErrorKind;
use kobe::lex::Lexer;
use kobe::token::Token;
use kobe::token::TokenType;

fn lexer_for(input: &str) -> Lexer {
    Lexer::new(input.chars().collect())
}

fn token(tok_type: TokenType, lexeme: &str, line_number: usize, char_number: usize) -> Token {
    Token {
        tok_type,
        lexeme: lexeme.to_string(),
        line_number,
        char_number,
    }
}

fn lex_error(kind: LexicalErrorKind, line_number: usize, char_number: usize) -> Error {
    Error {
        kind: ErrorKind::Lexical(kind),
        line_number,
        char_number,
        line: String::new(),
        file_path: None,
    }
}

#[test]
fn keyword_prefix_is_identifier() {
    // keyword matching applies to the whole maximal identifier run
    let mut l = lexer_for("ifx");
    assert_eq!(l.next(), Some(Ok(token(TokenType::Identifier, "ifx", 1, 3))));
    assert!(l.next().is_none());
}

#[test]
fn short_operator_leaves_following_input() {
    // after Minus, the pushed-back character is still there for later scans
    let mut l = lexer_for("-\t>");
    assert_eq!(l.next(), Some(Ok(token(TokenType::Minus, "-", 1, 1))));
    assert_eq!(l.next(), Some(Ok(token(TokenType::GreaterThan, ">", 1, 3))));
    assert!(l.next().is_none());
}

#[test]
fn empty_input_yields_nothing() {
    let mut l = lexer_for("");
    assert!(l.next().is_none());
}

#[test]
fn whitespace_only_input_yields_nothing() {
    let mut l = lexer_for(" \t \r ");
    assert!(l.next().is_none());
}

#[test]
fn unterminated_string_fails() {
    let mut l = lexer_for("\"abc");
    assert_eq!(
        l.next(),
        Some(Err(lex_error(LexicalErrorKind::InvalidStringLiteral, 1, 4)))
    );
}

#[test]
fn bad_escape_in_string_fails() {
    let mut l = lexer_for("\"\\q\"");
    assert_eq!(
        l.next(),
        Some(Err(lex_error(LexicalErrorKind::InvalidEscapeCode, 1, 2)))
    );
}

#[test]
fn string_with_embedded_newline_is_accepted() {
    // unlike a char literal, a string literal may span lines; the token
    // ends on the later line
    let mut l = lexer_for("\"a\nb\"");
    assert_eq!(l.next(), Some(Ok(token(TokenType::StringLiteral, "\"a\nb\"", 2, 2))));
}

#[test]
fn unexpected_character_fails() {
    let mut l = lexer_for("#");
    assert_eq!(
        l.next(),
        Some(Err(lex_error(LexicalErrorKind::UnexpectedCharacter, 1, 1)))
    );
}

#[test]
fn scanning_resumes_after_error() {
    // the characters of the failed attempt stay consumed; the next pull
    // picks up right after them
    let mut l = lexer_for("1.2.3 foo");
    assert_eq!(
        l.next(),
        Some(Err(lex_error(LexicalErrorKind::InvalidFloatLiteral, 1, 4)))
    );
    assert_eq!(l.next(), Some(Ok(token(TokenType::IntLiteral, "3", 1, 5))));
    assert_eq!(l.next(), Some(Ok(token(TokenType::Identifier, "foo", 1, 9))));
    assert!(l.next().is_none());
}

#[test]
fn mixed_terminator_run_coalesces() {
    let mut l = lexer_for(";;\n;x");
    assert_eq!(l.next(), Some(Ok(token(TokenType::EndStatement, ";;\n;", 2, 1))));
    assert_eq!(l.next(), Some(Ok(token(TokenType::Identifier, "x", 2, 2))));
    assert!(l.next().is_none());
}

#[test]
fn positions_track_lines() {
    let mut l = lexer_for("a\nb");
    assert_eq!(l.next(), Some(Ok(token(TokenType::Identifier, "a", 1, 1))));
    assert_eq!(l.next(), Some(Ok(token(TokenType::EndStatement, "\n", 2, 0))));
    assert_eq!(l.next(), Some(Ok(token(TokenType::Identifier, "b", 2, 1))));
    assert!(l.next().is_none());
}

#[test]
fn all_keywords_lex_as_keywords() {
    let cases = [
        ("do", TokenType::DoKeyword),
        ("end", TokenType::EndKeyword),
        ("for", TokenType::ForKeyword),
        ("while", TokenType::WhileKeyword),
        ("if", TokenType::IfKeyword),
        ("then", TokenType::ThenKeyword),
        ("else", TokenType::ElseKeyword),
        ("fn", TokenType::FnKeyword),
        ("return", TokenType::ReturnKeyword),
        ("and", TokenType::AndKeyword),
        ("or", TokenType::OrKeyword),
    ];
    for (word, kind) in cases {
        let mut l = lexer_for(word);
        assert_eq!(l.next(), Some(Ok(token(kind, word, 1, word.len()))));
        assert!(l.next().is_none());
    }
}

#[test]
fn keywords_are_case_sensitive() {
    let mut l = lexer_for("If");
    assert_eq!(l.next(), Some(Ok(token(TokenType::Identifier, "If", 1, 2))));
}

#[test]
fn escaped_zero_and_backslash_in_char_literal() {
    let mut l = lexer_for("'\\0'");
    assert_eq!(l.next(), Some(Ok(token(TokenType::CharLiteral, "'\\0'", 1, 4))));
    let mut l = lexer_for("'\\\\'");
    assert_eq!(l.next(), Some(Ok(token(TokenType::CharLiteral, "'\\\\'", 1, 4))));
}
