use vstd::prelude::*;

verus! {

/// A classified fragment of source text together with the position at which
/// it ends.
///
/// `lexeme` is the exact substring of the input that produced the token,
/// including any consumed delimiter characters such as quotes.  `line_number`
/// is the 1-based line on which the token ends, and `char_number` the 1-based
/// column within that line (0 right after a newline).
#[derive(Debug, PartialEq)]
pub struct Token {
    pub tok_type: TokenType,
    pub lexeme: String,
    pub line_number: usize,
    pub char_number: usize,
}

/// The token taxonomy: punctuation, operators (short and long forms),
/// literals, identifiers, keywords, and the coalesced statement terminator.
#[derive(Debug, PartialEq, Eq, Structural, Clone, Copy)]
pub enum TokenType {
    Assign,
    Colon,
    Comma,
    OpenBracket,
    CloseBracket,
    OpenSquare,
    CloseSquare,
    Plus,
    Minus,
    Times,
    Divide,
    LessThan,
    GreaterThan,
    LessThanOrEqual,
    GreaterThanOrEqual,
    Equivalent,
    NotEquivalent,
    Arrow,
    Not,
    IntLiteral,
    FloatLiteral,
    CharLiteral,
    StringLiteral,
    Identifier,
    EndStatement,
    DoKeyword,
    EndKeyword,
    ForKeyword,
    WhileKeyword,
    IfKeyword,
    ThenKeyword,
    ElseKeyword,
    FnKeyword,
    ReturnKeyword,
    AndKeyword,
    OrKeyword,
}

} // verus!
