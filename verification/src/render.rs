//! Diagnostic rendering: the human-readable form of tokens and errors.
//!
//! An error renders as the kind description, a `name:line:column` locator
//! line, the offending source line prefixed with a marker, and a caret line
//! pointing at the column.  A token renders as its lexeme, its kind, and
//! the position where it ends.  Rendering is purely presentational: the
//! spec functions below give the exact character sequence produced.

use vstd::prelude::*;
use vstd::string::StringExecFns;

verus! {

use crate::error::Error;
use crate::error::ErrorKind;
use crate::error::LexicalErrorKind;
use crate::token::Token;
use crate::token::TokenType;

// === decimal numbers ===

/// The decimal digit character for one digit value.
pub open spec fn decimal_digit(d: int) -> char {
    if d == 0 {
        '0'
    } else if d == 1 {
        '1'
    } else if d == 2 {
        '2'
    } else if d == 3 {
        '3'
    } else if d == 4 {
        '4'
    } else if d == 5 {
        '5'
    } else if d == 6 {
        '6'
    } else if d == 7 {
        '7'
    } else if d == 8 {
        '8'
    } else {
        '9'
    }
}

/// The usual decimal rendering of a number, most significant digit first,
/// with no leading zeroes (a lone `0` for zero).
pub open spec fn decimal_rendering(n: nat) -> Seq<char>
    decreases n,
{
    if n < 10 {
        seq![decimal_digit(n as int)]
    } else {
        decimal_rendering(n / 10) + seq![decimal_digit((n % 10) as int)]
    }
}

fn decimal_digit_text(d: usize) -> (t: &'static str)
    requires
        d < 10,
    ensures
        t@ == seq![decimal_digit(d as int)],
{
    if d == 0 {
        proof {
            reveal_strlit("0");
            assert("0"@ =~= seq!['0']);
        }
        "0"
    } else if d == 1 {
        proof {
            reveal_strlit("1");
            assert("1"@ =~= seq!['1']);
        }
        "1"
    } else if d == 2 {
        proof {
            reveal_strlit("2");
            assert("2"@ =~= seq!['2']);
        }
        "2"
    } else if d == 3 {
        proof {
            reveal_strlit("3");
            assert("3"@ =~= seq!['3']);
        }
        "3"
    } else if d == 4 {
        proof {
            reveal_strlit("4");
            assert("4"@ =~= seq!['4']);
        }
        "4"
    } else if d == 5 {
        proof {
            reveal_strlit("5");
            assert("5"@ =~= seq!['5']);
        }
        "5"
    } else if d == 6 {
        proof {
            reveal_strlit("6");
            assert("6"@ =~= seq!['6']);
        }
        "6"
    } else if d == 7 {
        proof {
            reveal_strlit("7");
            assert("7"@ =~= seq!['7']);
        }
        "7"
    } else if d == 8 {
        proof {
            reveal_strlit("8");
            assert("8"@ =~= seq!['8']);
        }
        "8"
    } else {
        proof {
            reveal_strlit("9");
            assert("9"@ =~= seq!['9']);
        }
        "9"
    }
}

fn append_decimal(s: &mut String, n: usize)
    ensures
        final(s)@ == old(s)@ + decimal_rendering(n as nat),
    decreases n,
{
    if n >= 10 {
        append_decimal(s, n / 10);
    }
    let d: usize = n % 10;
    s.append(decimal_digit_text(d));
    proof {
        if n >= 10 {
            assert((old(s)@ + decimal_rendering((n / 10) as nat)) + seq![
                decimal_digit(d as int),
            ] =~= old(s)@ + decimal_rendering(n as nat));
        } else {
            assert(old(s)@ + seq![decimal_digit(d as int)] =~= old(s)@ + decimal_rendering(
                n as nat,
            ));
        }
    }
}

// === the caret line's padding ===

/// A run of `n` space characters.
pub open spec fn space_run(n: nat) -> Seq<char>
    decreases n,
{
    if n == 0 {
        Seq::empty()
    } else {
        space_run((n - 1) as nat) + " "@
    }
}

#[verifier::loop_isolation(false)]
fn append_spaces(s: &mut String, n: usize)
    ensures
        final(s)@ == old(s)@ + space_run(n as nat),
{
    let ghost s0: Seq<char> = s@;
    proof {
        assert(s@ =~= s0 + space_run(0));
    }
    let mut i: usize = 0;
    while i < n
        invariant
            i <= n,
            s@ == s0 + space_run(i as nat),
        decreases n - i,
    {
        s.append(" ");
        i = i + 1;
        proof {
            assert((s0 + space_run((i - 1) as nat)) + " "@ =~= s0 + space_run(i as nat));
        }
    }
}

// === kind names and descriptions ===

/// The display name of a token kind: the variant's own name.
pub open spec fn token_type_name(t: TokenType) -> Seq<char> {
    match t {
        TokenType::Assign => "Assign"@,
        TokenType::Colon => "Colon"@,
        TokenType::Comma => "Comma"@,
        TokenType::OpenBracket => "OpenBracket"@,
        TokenType::CloseBracket => "CloseBracket"@,
        TokenType::OpenSquare => "OpenSquare"@,
        TokenType::CloseSquare => "CloseSquare"@,
        TokenType::Plus => "Plus"@,
        TokenType::Minus => "Minus"@,
        TokenType::Times => "Times"@,
        TokenType::Divide => "Divide"@,
        TokenType::LessThan => "LessThan"@,
        TokenType::GreaterThan => "GreaterThan"@,
        TokenType::LessThanOrEqual => "LessThanOrEqual"@,
        TokenType::GreaterThanOrEqual => "GreaterThanOrEqual"@,
        TokenType::Equivalent => "Equivalent"@,
        TokenType::NotEquivalent => "NotEquivalent"@,
        TokenType::Arrow => "Arrow"@,
        TokenType::Not => "Not"@,
        TokenType::IntLiteral => "IntLiteral"@,
        TokenType::FloatLiteral => "FloatLiteral"@,
        TokenType::CharLiteral => "CharLiteral"@,
        TokenType::StringLiteral => "StringLiteral"@,
        TokenType::Identifier => "Identifier"@,
        TokenType::EndStatement => "EndStatement"@,
        TokenType::DoKeyword => "DoKeyword"@,
        TokenType::EndKeyword => "EndKeyword"@,
        TokenType::ForKeyword => "ForKeyword"@,
        TokenType::WhileKeyword => "WhileKeyword"@,
        TokenType::IfKeyword => "IfKeyword"@,
        TokenType::ThenKeyword => "ThenKeyword"@,
        TokenType::ElseKeyword => "ElseKeyword"@,
        TokenType::FnKeyword => "FnKeyword"@,
        TokenType::ReturnKeyword => "ReturnKeyword"@,
        TokenType::AndKeyword => "AndKeyword"@,
        TokenType::OrKeyword => "OrKeyword"@,
    }
}

fn token_type_text(t: TokenType) -> (s: &'static str)
    ensures
        s@ == token_type_name(t),
{
    match t {
        TokenType::Assign => "Assign",
        TokenType::Colon => "Colon",
        TokenType::Comma => "Comma",
        TokenType::OpenBracket => "OpenBracket",
        TokenType::CloseBracket => "CloseBracket",
        TokenType::OpenSquare => "OpenSquare",
        TokenType::CloseSquare => "CloseSquare",
        TokenType::Plus => "Plus",
        TokenType::Minus => "Minus",
        TokenType::Times => "Times",
        TokenType::Divide => "Divide",
        TokenType::LessThan => "LessThan",
        TokenType::GreaterThan => "GreaterThan",
        TokenType::LessThanOrEqual => "LessThanOrEqual",
        TokenType::GreaterThanOrEqual => "GreaterThanOrEqual",
        TokenType::Equivalent => "Equivalent",
        TokenType::NotEquivalent => "NotEquivalent",
        TokenType::Arrow => "Arrow",
        TokenType::Not => "Not",
        TokenType::IntLiteral => "IntLiteral",
        TokenType::FloatLiteral => "FloatLiteral",
        TokenType::CharLiteral => "CharLiteral",
        TokenType::StringLiteral => "StringLiteral",
        TokenType::Identifier => "Identifier",
        TokenType::EndStatement => "EndStatement",
        TokenType::DoKeyword => "DoKeyword",
        TokenType::EndKeyword => "EndKeyword",
        TokenType::ForKeyword => "ForKeyword",
        TokenType::WhileKeyword => "WhileKeyword",
        TokenType::IfKeyword => "IfKeyword",
        TokenType::ThenKeyword => "ThenKeyword",
        TokenType::ElseKeyword => "ElseKeyword",
        TokenType::FnKeyword => "FnKeyword",
        TokenType::ReturnKeyword => "ReturnKeyword",
        TokenType::AndKeyword => "AndKeyword",
        TokenType::OrKeyword => "OrKeyword",
    }
}

/// The description of a lexical error kind.
pub open spec fn lexical_kind_description(k: LexicalErrorKind) -> Seq<char> {
    match k {
        LexicalErrorKind::UnexpectedCharacter => "unexpected character in input"@,
        LexicalErrorKind::InvalidFloatLiteral => "invalid floating-point literal"@,
        LexicalErrorKind::InvalidCharLiteral => "invalid character literal"@,
        LexicalErrorKind::InvalidStringLiteral => "invalid string literal"@,
        LexicalErrorKind::InvalidEscapeCode => "invalid escape code"@,
    }
}

fn lexical_kind_text(k: LexicalErrorKind) -> (s: &'static str)
    ensures
        s@ == lexical_kind_description(k),
{
    match k {
        LexicalErrorKind::UnexpectedCharacter => "unexpected character in input",
        LexicalErrorKind::InvalidFloatLiteral => "invalid floating-point literal",
        LexicalErrorKind::InvalidCharLiteral => "invalid character literal",
        LexicalErrorKind::InvalidStringLiteral => "invalid string literal",
        LexicalErrorKind::InvalidEscapeCode => "invalid escape code",
    }
}

/// The first rendered line of an error: the category and, for a lexical
/// error, its description.
pub open spec fn error_kind_rendering(k: ErrorKind) -> Seq<char> {
    match k {
        ErrorKind::Lexical(lk) => "Lexical error: "@ + lexical_kind_description(lk) + "."@,
        ErrorKind::Syntax => "Syntax error: ..."@,
    }
}

fn error_kind_string(kind: ErrorKind) -> (r: String)
    ensures
        r@ == error_kind_rendering(kind),
{
    match kind {
        ErrorKind::Lexical(k) => {
            let mut s: String = "Lexical error: ".to_owned();
            s.append(lexical_kind_text(k));
            s.append(".");
            s
        },
        ErrorKind::Syntax => "Syntax error: ...".to_owned(),
    }
}

// === the rendered forms ===

/// The name an error is located under: its own file path when it carries
/// one, else the shell-supplied input name.
pub open spec fn error_display_name(file_path: Option<String>, source_name: Seq<char>) -> Seq<
    char,
> {
    match file_path {
        Some(p) => p@,
        None => source_name,
    }
}

/// The full rendering of an error: the kind description, a
/// `name:line:column` locator line, the offending source line after a
/// `| ` marker, and a caret line pointing at the column.
pub open spec fn error_rendering(e: Error, source_name: Seq<char>) -> Seq<char> {
    error_kind_rendering(e.kind) + "\n"@ + "> "@ + error_display_name(e.file_path, source_name)
        + ":"@ + decimal_rendering(e.line_number as nat) + ":"@ + decimal_rendering(
        e.char_number as nat,
    ) + "\n"@ + "| "@ + e.line@ + "\n"@ + "|"@ + space_run(e.char_number as nat) + "^"@ + "\n"@
}

/// The rendering of a token: its lexeme, its kind's name, and the line and
/// column where it ends.
pub open spec fn token_rendering(t: Token) -> Seq<char> {
    t.lexeme@ + " ("@ + token_type_name(t.tok_type) + ") line: "@ + decimal_rendering(
        t.line_number as nat,
    ) + " character: "@ + decimal_rendering(t.char_number as nat)
}

impl Error {
    /// Renders the error for diagnostic display.  `source_name` is the
    /// shell-supplied input name (a file path, or `stdin`), used when the
    /// error carries no file path of its own.
    pub fn render(&self, source_name: &str) -> (r: String)
        ensures
            r@ == error_rendering(*self, source_name@),
    {
        let mut s = error_kind_string(self.kind);
        s.append("\n");
        s.append("> ");
        match &self.file_path {
            Some(p) => s.append(p.as_str()),
            None => s.append(source_name),
        }
        s.append(":");
        append_decimal(&mut s, self.line_number);
        s.append(":");
        append_decimal(&mut s, self.char_number);
        s.append("\n");
        s.append("| ");
        s.append(self.line.as_str());
        s.append("\n");
        s.append("|");
        append_spaces(&mut s, self.char_number);
        s.append("^");
        s.append("\n");
        s
    }
}

impl Token {
    /// Renders the token for display: its lexeme, kind, and end position.
    pub fn render(&self) -> (r: String)
        ensures
            r@ == token_rendering(*self),
    {
        let mut s: String = self.lexeme.as_str().to_owned();
        s.append(" (");
        s.append(token_type_text(self.tok_type));
        s.append(") line: ");
        append_decimal(&mut s, self.line_number);
        s.append(" character: ");
        append_decimal(&mut s, self.char_number);
        s
    }
}

} // verus!
