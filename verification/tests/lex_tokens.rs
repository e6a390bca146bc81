use kobe::error::Error;
use kobe::error::ErrorKind;
use kobe::error::LexicalErrorKind;
use kobe::lex::Lexer;
use kobe::token::Token;
use kobe::token::TokenType;

fn assert_token(input: &str, tok_type: TokenType, lexeme: &str, line_no: usize, char_no: usize) {
    let expected = Token {
        tok_type,
        lexeme: lexeme.to_string(),
        line_number: line_no,
        char_number: char_no,
    };

    let mut l = Lexer::new(input.chars().collect());
    assert_eq!(l.next(), Some(Ok(expected)));
}

fn assert_error(
    input: &str,
    kind: LexicalErrorKind,
    line: &str,
    line_no: usize,
    char_no: usize,
) {
    let error = Error {
        kind: ErrorKind::Lexical(kind),
        line_number: line_no,
        char_number: char_no,
        line: line.to_string(),
        file_path: None,
    };

    let mut l = Lexer::new(input.chars().collect());
    assert_eq!(l.next(), Some(Err(error)));
}

#[test]
fn sequence_of_tokens() {
    let input = "if (x + 2) / 3 >= foo then\nfunc(abc5, 2.5)\nend";

    let expected_tokens = [
        (TokenType::IfKeyword, "if", 1, 2),
        (TokenType::OpenBracket, "(", 1, 4),
        (TokenType::Identifier, "x", 1, 5),
        (TokenType::Plus, "+", 1, 7),
        (TokenType::IntLiteral, "2", 1, 9),
        (TokenType::CloseBracket, ")", 1, 10),
        (TokenType::Divide, "/", 1, 12),
        (TokenType::IntLiteral, "3", 1, 14),
        (TokenType::GreaterThanOrEqual, ">=", 1, 17),
        (TokenType::Identifier, "foo", 1, 21),
        (TokenType::ThenKeyword, "then", 1, 26),
        (TokenType::EndStatement, "\n", 2, 0),
        (TokenType::Identifier, "func", 2, 4),
        (TokenType::OpenBracket, "(", 2, 5),
        (TokenType::Identifier, "abc5", 2, 9),
        (TokenType::Comma, ",", 2, 10),
        (TokenType::FloatLiteral, "2.5", 2, 14),
        (TokenType::CloseBracket, ")", 2, 15),
        (TokenType::EndStatement, "\n", 3, 0),
        (TokenType::EndKeyword, "end", 3, 3),
    ];

    let mut lexer = Lexer::new(input.chars().collect());

    for (tok_type, lexeme, line_number, char_number) in expected_tokens {
        let expected_token = Token {
            tok_type,
            lexeme: lexeme.to_string(),
            line_number,
            char_number,
        };

        assert_eq!(lexer.next(), Some(Ok(expected_token)));
    }

    assert!(lexer.next().is_none());
}

#[test]
fn simple_tokens() {
    assert_token("=", TokenType::Assign, "=", 1, 1);
    assert_token("==", TokenType::Equivalent, "==", 1, 2);
    assert_token(" :", TokenType::Colon, ":", 1, 2);
    assert_token(", ", TokenType::Comma, ",", 1, 1);
    assert_token("\t(", TokenType::OpenBracket, "(", 1, 2);
    assert_token(")\t", TokenType::CloseBracket, ")", 1, 1);
    assert_token(" [ ", TokenType::OpenSquare, "[", 1, 2);
    assert_token(" ] ", TokenType::CloseSquare, "]", 1, 2);
    assert_token("+", TokenType::Plus, "+", 1, 1);
    assert_token("-", TokenType::Minus, "-", 1, 1);
    assert_token("->", TokenType::Arrow, "->", 1, 2);
    assert_token("-\t>", TokenType::Minus, "-", 1, 1);
    assert_token("\t *", TokenType::Times, "*", 1, 3);
    assert_token("/ \t", TokenType::Divide, "/", 1, 1);
    assert_token("<", TokenType::LessThan, "<", 1, 1);
    assert_token(" <= ", TokenType::LessThanOrEqual, "<=", 1, 3);
    assert_token(">", TokenType::GreaterThan, ">", 1, 1);
    assert_token(" >= ", TokenType::GreaterThanOrEqual, ">=", 1, 3);
    assert_token("!", TokenType::Not, "!", 1, 1);
    assert_token("!=", TokenType::NotEquivalent, "!=", 1, 2);
}

#[test]
fn identifiers_and_keywords() {
    assert_token("a", TokenType::Identifier, "a", 1, 1);
    assert_token("_", TokenType::Identifier, "_", 1, 1);
    assert_token(" ABC_123 ", TokenType::Identifier, "ABC_123", 1, 8);
    assert_token("\tif", TokenType::IfKeyword, "if", 1, 3);
}

#[test]
fn number_literals() {
    assert_token("0", TokenType::IntLiteral, "0", 1, 1);
    assert_token("1234", TokenType::IntLiteral, "1234", 1, 4);
    assert_token("1.\n", TokenType::FloatLiteral, "1.", 1, 2);
    assert_token(" 123.456 ", TokenType::FloatLiteral, "123.456", 1, 8);
    assert_error(".", LexicalErrorKind::UnexpectedCharacter, "", 1, 1);
    assert_error("1.2.3", LexicalErrorKind::InvalidFloatLiteral, "", 1, 4);
}

#[test]
fn char_literals() {
    assert_token("'x'", TokenType::CharLiteral, "'x'", 1, 3);
    assert_token(" ' ' ", TokenType::CharLiteral, "' '", 1, 4);
    assert_token("'\\n'", TokenType::CharLiteral, "'\\n'", 1, 4);
    assert_token("'\\t'", TokenType::CharLiteral, "'\\t'", 1, 4);
    assert_token("'\\''", TokenType::CharLiteral, "'\\''", 1, 4);
    assert_token("'\"'", TokenType::CharLiteral, "'\"'", 1, 3);
    assert_error("'\\j'", LexicalErrorKind::InvalidEscapeCode, "", 1, 2);
    assert_error("'", LexicalErrorKind::InvalidCharLiteral, "", 1, 1);
    assert_error("''", LexicalErrorKind::InvalidCharLiteral, "", 1, 1);
    assert_error("'''", LexicalErrorKind::InvalidCharLiteral, "", 1, 1);
    assert_error("'xy'", LexicalErrorKind::InvalidCharLiteral, "", 1, 2);
    assert_error("'\n'", LexicalErrorKind::InvalidCharLiteral, "", 1, 1);
}

#[test]
fn string_literals() {
    assert_token("\"\"", TokenType::StringLiteral, "\"\"", 1, 2);
    assert_token("\"abc def\"", TokenType::StringLiteral, "\"abc def\"", 1, 9);
    assert_token("\" \\\" \"", TokenType::StringLiteral, "\" \\\" \"", 1, 6);
}

#[test]
fn end_statement() {
    assert_token("\n\n\n", TokenType::EndStatement, "\n\n\n", 4, 0);
    assert_token(" ;\n", TokenType::EndStatement, ";\n", 2, 0);
}
