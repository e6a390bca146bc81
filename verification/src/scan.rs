//! The mathematical model of the tokenizer: what one pull on the scanner
//! produces, as a function of the character sequence and the cursor.
//!
//! `scan_at` is the reference semantics.  The executable lexer is proved to
//! return exactly what `scan_at` says, so every property of the token stream
//! can be read off these definitions.

use vstd::prelude::*;

verus! {

use crate::error::Error;
use crate::error::ErrorKind;
use crate::error::LexicalErrorKind;
use crate::token::TokenType;

// === character classification ===

pub open spec fn is_digit_char(c: char) -> bool {
    '0' as u32 <= c as u32 && c as u32 <= '9' as u32
}

pub open spec fn is_ident_start_char(c: char) -> bool {
    ||| 'a' as u32 <= c as u32 && c as u32 <= 'z' as u32
    ||| 'A' as u32 <= c as u32 && c as u32 <= 'Z' as u32
    ||| c == '_'
}

pub open spec fn is_ident_char(c: char) -> bool {
    is_ident_start_char(c) || is_digit_char(c)
}

pub open spec fn is_number_char(c: char) -> bool {
    is_digit_char(c) || c == '.'
}

pub open spec fn is_escape_code_char(c: char) -> bool {
    c == '\\' || c == 'n' || c == 't' || c == '\'' || c == '"' || c == '0'
}

pub open spec fn is_terminator_char(c: char) -> bool {
    c == ';' || c == '\n'
}

/// The characters with the Unicode `White_Space` property.
pub open spec fn is_whitespace_char(c: char) -> bool {
    ||| c == ' '
    ||| c == '\t'
    ||| c == '\n'
    ||| c == '\r'
    ||| c == '\u{000B}'
    ||| c == '\u{000C}'
    ||| c == '\u{0085}'
    ||| c == '\u{00A0}'
    ||| c == '\u{1680}'
    ||| 0x2000 <= c as u32 && c as u32 <= 0x200A
    ||| c == '\u{2028}'
    ||| c == '\u{2029}'
    ||| c == '\u{202F}'
    ||| c == '\u{205F}'
    ||| c == '\u{3000}'
}

// === position tracking ===

/// The 1-based line number of the cursor that stands after the first `i`
/// characters of `src`: one more than the newlines consumed so far.
pub open spec fn line_at(src: Seq<char>, i: int) -> nat
    decreases i,
{
    if i <= 0 {
        1
    } else {
        line_at(src, i - 1) + (if src[i - 1] == '\n' {
            1nat
        } else {
            0nat
        })
    }
}

/// The column of the cursor that stands after the first `i` characters of
/// `src`: the number of characters consumed since the last newline.
pub open spec fn col_at(src: Seq<char>, i: int) -> nat
    decreases i,
{
    if i <= 0 {
        0
    } else if src[i - 1] == '\n' {
        0
    } else {
        col_at(src, i - 1) + 1
    }
}

pub proof fn lemma_line_at_bound(src: Seq<char>, i: int)
    requires
        0 <= i,
    ensures
        line_at(src, i) <= i + 1,
    decreases i,
{
    if i > 0 {
        lemma_line_at_bound(src, i - 1);
    }
}

pub proof fn lemma_col_at_bound(src: Seq<char>, i: int)
    requires
        0 <= i,
    ensures
        col_at(src, i) <= i,
    decreases i,
{
    if i > 0 {
        lemma_col_at_bound(src, i - 1);
    }
}

// === token dispatch ===

pub open spec fn is_single_char_token(c: char) -> bool {
    ||| c == ':'
    ||| c == ','
    ||| c == '('
    ||| c == ')'
    ||| c == '['
    ||| c == ']'
    ||| c == '+'
    ||| c == '*'
    ||| c == '/'
}

pub open spec fn single_char_kind(c: char) -> TokenType {
    if c == ':' {
        TokenType::Colon
    } else if c == ',' {
        TokenType::Comma
    } else if c == '(' {
        TokenType::OpenBracket
    } else if c == ')' {
        TokenType::CloseBracket
    } else if c == '[' {
        TokenType::OpenSquare
    } else if c == ']' {
        TokenType::CloseSquare
    } else if c == '+' {
        TokenType::Plus
    } else if c == '*' {
        TokenType::Times
    } else {
        TokenType::Divide
    }
}

/// The characters that may begin a two-character operator.
pub open spec fn is_operator_lead(c: char) -> bool {
    c == '=' || c == '-' || c == '<' || c == '>' || c == '!'
}

/// The continuation character that extends an operator lead to its
/// two-character form.
pub open spec fn operator_extension(c: char) -> char {
    if c == '-' {
        '>'
    } else {
        '='
    }
}

/// The token kind of an operator lead standing alone.
pub open spec fn short_operator_kind(c: char) -> TokenType {
    if c == '=' {
        TokenType::Assign
    } else if c == '-' {
        TokenType::Minus
    } else if c == '<' {
        TokenType::LessThan
    } else if c == '>' {
        TokenType::GreaterThan
    } else {
        TokenType::Not
    }
}

/// The token kind of an operator lead followed by its extension character.
pub open spec fn long_operator_kind(c: char) -> TokenType {
    if c == '=' {
        TokenType::Equivalent
    } else if c == '-' {
        TokenType::Arrow
    } else if c == '<' {
        TokenType::LessThanOrEqual
    } else if c == '>' {
        TokenType::GreaterThanOrEqual
    } else {
        TokenType::NotEquivalent
    }
}

// === maximal runs ===

/// The end of the maximal run of identifier characters starting at `i`.
pub open spec fn ident_end(src: Seq<char>, i: int) -> int
    decreases src.len() - i,
{
    if 0 <= i && i < src.len() && is_ident_char(src[i]) {
        ident_end(src, i + 1)
    } else {
        i
    }
}

/// The end of the maximal run of statement-terminator characters starting at
/// `i`.
pub open spec fn terminator_end(src: Seq<char>, i: int) -> int
    decreases src.len() - i,
{
    if 0 <= i && i < src.len() && is_terminator_char(src[i]) {
        terminator_end(src, i + 1)
    } else {
        i
    }
}

pub proof fn lemma_ident_end_props(src: Seq<char>, i: int)
    requires
        0 <= i <= src.len(),
    ensures
        i <= ident_end(src, i) <= src.len(),
        forall|j: int| i <= j < ident_end(src, i) ==> is_ident_char(#[trigger] src[j]),
        ident_end(src, i) == src.len() || !is_ident_char(src[ident_end(src, i)]),
    decreases src.len() - i,
{
    if i < src.len() && is_ident_char(src[i]) {
        lemma_ident_end_props(src, i + 1);
    }
}

pub proof fn lemma_terminator_end_props(src: Seq<char>, i: int)
    requires
        0 <= i <= src.len(),
    ensures
        i <= terminator_end(src, i) <= src.len(),
        forall|j: int| i <= j < terminator_end(src, i) ==> is_terminator_char(#[trigger] src[j]),
        terminator_end(src, i) == src.len() || !is_terminator_char(src[terminator_end(src, i)]),
    decreases src.len() - i,
{
    if i < src.len() && is_terminator_char(src[i]) {
        lemma_terminator_end_props(src, i + 1);
    }
}

// === the keyword set ===

/// Maps a maximal identifier run to its keyword kind, or to `Identifier`
/// when the run is not exactly a keyword.
pub open spec fn keyword_kind(lex: Seq<char>) -> TokenType {
    if lex == seq!['d', 'o'] {
        TokenType::DoKeyword
    } else if lex == seq!['e', 'n', 'd'] {
        TokenType::EndKeyword
    } else if lex == seq!['f', 'o', 'r'] {
        TokenType::ForKeyword
    } else if lex == seq!['w', 'h', 'i', 'l', 'e'] {
        TokenType::WhileKeyword
    } else if lex == seq!['i', 'f'] {
        TokenType::IfKeyword
    } else if lex == seq!['t', 'h', 'e', 'n'] {
        TokenType::ThenKeyword
    } else if lex == seq!['e', 'l', 's', 'e'] {
        TokenType::ElseKeyword
    } else if lex == seq!['f', 'n'] {
        TokenType::FnKeyword
    } else if lex == seq!['r', 'e', 't', 'u', 'r', 'n'] {
        TokenType::ReturnKeyword
    } else if lex == seq!['a', 'n', 'd'] {
        TokenType::AndKeyword
    } else if lex == seq!['o', 'r'] {
        TokenType::OrKeyword
    } else {
        TokenType::Identifier
    }
}

// === literal bodies ===

/// Whether `c` may stand unescaped inside a literal.  A character literal
/// rejects the closing quote and a raw newline; a string literal accepts
/// any character (its closing quote is tested before this).
pub open spec fn is_literal_content_char(c: char, in_string: bool) -> bool {
    in_string || (c != '\'' && c != '\n')
}

/// One content unit inside a literal, starting at `i`: either an escape
/// sequence or a single acceptable character.  Returns the error, if any,
/// and the cursor after the consumed characters.
pub open spec fn literal_char_step(src: Seq<char>, i: int, in_string: bool) -> (Option<
    LexicalErrorKind,
>, int) {
    if 0 <= i && i < src.len() && src[i] == '\\' {
        if i + 1 < src.len() && is_escape_code_char(src[i + 1]) {
            (None, i + 2)
        } else {
            (Some(LexicalErrorKind::InvalidEscapeCode), i + 1)
        }
    } else if 0 <= i && i < src.len() && is_literal_content_char(src[i], in_string) {
        (None, i + 1)
    } else {
        (
            Some(
                if in_string {
                    LexicalErrorKind::InvalidStringLiteral
                } else {
                    LexicalErrorKind::InvalidCharLiteral
                },
            ),
            i,
        )
    }
}

/// What one pull on the scanner produces: a token of the given kind, a
/// lexical error of the given kind, or the end of the input.
pub enum ScanKind {
    Emit(TokenType),
    Fail(LexicalErrorKind),
    Finish,
}

/// A character literal from just after its opening quote: exactly one
/// content unit, then the closing quote.
pub open spec fn char_literal_rest(src: Seq<char>, i: int) -> (ScanKind, int) {
    let (step_err, j) = literal_char_step(src, i, false);
    match step_err {
        Some(k) => (ScanKind::Fail(k), j),
        None => if 0 <= j && j < src.len() && src[j] == '\'' {
            (ScanKind::Emit(TokenType::CharLiteral), j + 1)
        } else {
            (ScanKind::Fail(LexicalErrorKind::InvalidCharLiteral), j)
        },
    }
}

/// A string literal from just after its opening quote: content units until
/// the closing quote.  End of input before the closing quote fails.
pub open spec fn string_literal_rest(src: Seq<char>, i: int) -> (ScanKind, int)
    decreases src.len() - i,
{
    if 0 <= i && i < src.len() && src[i] == '"' {
        (ScanKind::Emit(TokenType::StringLiteral), i + 1)
    } else {
        let (step_err, j) = literal_char_step(src, i, true);
        match step_err {
            Some(k) => (ScanKind::Fail(k), j),
            None => string_literal_rest(src, j),
        }
    }
}

/// A number literal from just after its leading digit: digits and dots,
/// promoted to a float at the first dot, failing at a second dot.
pub open spec fn number_rest(src: Seq<char>, i: int, seen_dot: bool) -> (ScanKind, int)
    decreases src.len() - i,
{
    if !(0 <= i && i < src.len() && is_number_char(src[i])) {
        (
            ScanKind::Emit(
                if seen_dot {
                    TokenType::FloatLiteral
                } else {
                    TokenType::IntLiteral
                },
            ),
            i,
        )
    } else if src[i] == '.' && seen_dot {
        (ScanKind::Fail(LexicalErrorKind::InvalidFloatLiteral), i + 1)
    } else {
        number_rest(src, i + 1, seen_dot || src[i] == '.')
    }
}

// === the scanner ===

/// The outcome of one pull on the scanner at cursor `i`: its kind, the index
/// `start` where the deciding attempt began (after any skipped whitespace),
/// and the index `end` of the first character left unconsumed.  An emitted
/// token's lexeme is exactly `src.subrange(start, end)`.
pub struct ScanOutcome {
    pub kind: ScanKind,
    pub start: int,
    pub end: int,
}

/// The reference semantics of the tokenizer: what scanning at cursor `i`
/// yields.  Dispatch is on the first non-whitespace character, with one
/// character of lookahead for the two-character operators.
pub open spec fn scan_at(src: Seq<char>, i: int) -> ScanOutcome
    decreases src.len() - i,
{
    if !(0 <= i && i < src.len()) {
        ScanOutcome { kind: ScanKind::Finish, start: i, end: i }
    } else {
        let c = src[i];
        if is_single_char_token(c) {
            ScanOutcome { kind: ScanKind::Emit(single_char_kind(c)), start: i, end: i + 1 }
        } else if is_terminator_char(c) {
            ScanOutcome {
                kind: ScanKind::Emit(TokenType::EndStatement),
                start: i,
                end: terminator_end(src, i + 1),
            }
        } else if is_operator_lead(c) {
            if i + 1 < src.len() && src[i + 1] == operator_extension(c) {
                ScanOutcome { kind: ScanKind::Emit(long_operator_kind(c)), start: i, end: i + 2 }
            } else {
                ScanOutcome { kind: ScanKind::Emit(short_operator_kind(c)), start: i, end: i + 1 }
            }
        } else if is_digit_char(c) {
            let (k, e) = number_rest(src, i + 1, false);
            ScanOutcome { kind: k, start: i, end: e }
        } else if is_ident_start_char(c) {
            let e = ident_end(src, i + 1);
            ScanOutcome { kind: ScanKind::Emit(keyword_kind(src.subrange(i, e))), start: i, end: e }
        } else if c == '\'' {
            let (k, e) = char_literal_rest(src, i + 1);
            ScanOutcome { kind: k, start: i, end: e }
        } else if c == '"' {
            let (k, e) = string_literal_rest(src, i + 1);
            ScanOutcome { kind: k, start: i, end: e }
        } else if is_whitespace_char(c) {
            scan_at(src, i + 1)
        } else {
            ScanOutcome {
                kind: ScanKind::Fail(LexicalErrorKind::UnexpectedCharacter),
                start: i,
                end: i + 1,
            }
        }
    }
}

/// What the lexer's errors look like: the given lexical kind, the position
/// of the cursor at the point of failure, an empty line text, and no file
/// path.
pub open spec fn is_lexical_error_at(e: Error, src: Seq<char>, i: int, k: LexicalErrorKind) -> bool {
    &&& e.kind == ErrorKind::Lexical(k)
    &&& e.line_number == line_at(src, i)
    &&& e.char_number == col_at(src, i)
    &&& e.line@ == Seq::<char>::empty()
    &&& e.file_path is None
}

// === bounds and progress ===

pub proof fn lemma_literal_char_step_bounds(src: Seq<char>, i: int, in_string: bool)
    requires
        0 <= i <= src.len(),
    ensures
        i <= literal_char_step(src, i, in_string).1 <= src.len(),
        literal_char_step(src, i, in_string).0 is None ==> i < literal_char_step(
            src,
            i,
            in_string,
        ).1,
{
}

pub proof fn lemma_char_literal_rest_bounds(src: Seq<char>, i: int)
    requires
        0 <= i <= src.len(),
    ensures
        i <= char_literal_rest(src, i).1 <= src.len(),
        !(char_literal_rest(src, i).0 is Finish),
{
    lemma_literal_char_step_bounds(src, i, false);
}

pub proof fn lemma_string_literal_rest_bounds(src: Seq<char>, i: int)
    requires
        0 <= i <= src.len(),
    ensures
        i <= string_literal_rest(src, i).1 <= src.len(),
        !(string_literal_rest(src, i).0 is Finish),
    decreases src.len() - i,
{
    lemma_literal_char_step_bounds(src, i, true);
    if !(i < src.len() && src[i] == '"') {
        let (step_err, j) = literal_char_step(src, i, true);
        if step_err is None {
            lemma_string_literal_rest_bounds(src, j);
        }
    }
}

pub proof fn lemma_number_rest_bounds(src: Seq<char>, i: int, seen_dot: bool)
    requires
        0 <= i <= src.len(),
    ensures
        i <= number_rest(src, i, seen_dot).1 <= src.len(),
        !(number_rest(src, i, seen_dot).0 is Finish),
    decreases src.len() - i,
{
    if 0 <= i && i < src.len() && is_number_char(src[i]) && !(src[i] == '.' && seen_dot) {
        lemma_number_rest_bounds(src, i + 1, seen_dot || src[i] == '.');
    }
}

/// Every pull on the scanner short of the end of input consumes at least
/// one character, and never reads past the end: the token stream over any
/// finite input is finite, and the cursor only moves forward.
pub proof fn lemma_scan_at_bounds(src: Seq<char>, i: int)
    requires
        0 <= i <= src.len(),
    ensures
        i <= scan_at(src, i).start <= scan_at(src, i).end <= src.len(),
        scan_at(src, i).kind is Finish ==> scan_at(src, i).start == src.len() && scan_at(
            src,
            i,
        ).end == src.len(),
        !(scan_at(src, i).kind is Finish) ==> scan_at(src, i).start < scan_at(src, i).end,
    decreases src.len() - i,
{
    if 0 <= i && i < src.len() {
        let c = src[i];
        if is_single_char_token(c) {
        } else if is_terminator_char(c) {
            lemma_terminator_end_props(src, i + 1);
        } else if is_operator_lead(c) {
        } else if is_digit_char(c) {
            lemma_number_rest_bounds(src, i + 1, false);
        } else if is_ident_start_char(c) {
            lemma_ident_end_props(src, i + 1);
        } else if c == '\'' {
            lemma_char_literal_rest_bounds(src, i + 1);
        } else if c == '"' {
            lemma_string_literal_rest_bounds(src, i + 1);
        } else if is_whitespace_char(c) {
            lemma_scan_at_bounds(src, i + 1);
        }
    }
}

} // verus!
