use vstd::prelude::*;

verus! {

/// A structured compilation error with the position at which it was raised.
///
/// `line` carries the text of the offending source line for diagnostic
/// rendering; the lexer currently leaves it empty.  `file_path` names the
/// input for diagnostics (`None` stands for standard input); the lexer
/// leaves it unset and the surrounding shell fills it in when rendering.
#[derive(Debug, PartialEq)]
pub struct Error {
    pub kind: ErrorKind,
    pub line_number: usize,
    pub char_number: usize,
    pub line: String,
    pub file_path: Option<String>,
}

/// The category of a compilation error.  Only the lexical category is
/// produced here; the syntax category belongs to the parser.
#[derive(Debug, PartialEq, Eq, Structural, Clone, Copy)]
pub enum ErrorKind {
    Lexical(LexicalErrorKind),
    Syntax,
}

/// The lexical error taxonomy.
#[derive(Debug, PartialEq, Eq, Structural, Clone, Copy)]
pub enum LexicalErrorKind {
    /// The lead character does not begin any recognized token and is not
    /// whitespace.
    UnexpectedCharacter,
    /// A second decimal point was encountered in a numeric literal.
    InvalidFloatLiteral,
    /// Zero, two or more, or disallowed content characters between `'`
    /// delimiters, or a missing closing `'`.
    InvalidCharLiteral,
    /// Malformed content inside `"` delimiters, including end of input
    /// before the closing `"`.
    InvalidStringLiteral,
    /// A backslash inside a literal followed by a character outside the
    /// recognized escape set.
    InvalidEscapeCode,
}

} // verus!
