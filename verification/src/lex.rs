//! The scanning engine: a pull-based tokenizer over an in-memory character
//! source, with one character of pushback and exact position bookkeeping.
//!
//! `Lexer::next` is proved to yield exactly what the reference semantics
//! `scan::scan_at` says, token by token.

use vstd::prelude::*;

verus! {

use crate::error::Error;
use crate::error::ErrorKind;
use crate::error::LexicalErrorKind;
use crate::scan;
use crate::scan::ScanKind;
use crate::token::Token;
use crate::token::TokenType;

/// One instance per compilation unit: the character source, the position
/// tracker, and a single-character pushback buffer.
///
/// `pos` is the index of the next character the source will hand out; a
/// pushed-back character sits in `peeked_char` and is returned again before
/// the source is touched.  The committed cursor — the count of characters
/// actually consumed — is `pos` less the pushback, and the line and column
/// fields always describe exactly that committed prefix.
pub struct Lexer {
    source: Vec<char>,
    pos: usize,
    line_number: usize,
    char_number: usize,
    peeked_char: Option<char>,
}

impl Lexer {
    /// The characters this lexer scans.
    pub closed spec fn src(&self) -> Seq<char> {
        self.source@
    }

    /// The committed cursor: how many characters have been consumed.  A
    /// character read from the source but pushed back does not count.
    pub closed spec fn cursor(&self) -> int {
        self.pos - (if self.peeked_char is Some {
            1int
        } else {
            0int
        })
    }

    /// Well-formedness: the pushback holds at most the character just read,
    /// and the position fields describe the committed prefix exactly.
    pub closed spec fn wf(&self) -> bool {
        &&& self.pos <= self.source@.len()
        &&& self.source@.len() < usize::MAX
        &&& (self.peeked_char matches Some(c) ==> self.pos >= 1 && c == self.source@[self.pos
            - 1])
        &&& self.line_number == scan::line_at(self.source@, self.cursor())
        &&& self.char_number == scan::col_at(self.source@, self.cursor())
    }

    /// Creates a lexer at the start of `source`, on line 1, column 0.
    pub fn new(source: Vec<char>) -> (l: Lexer)
        requires
            source@.len() < usize::MAX,
        ensures
            l.wf(),
            l.src() == source@,
            l.cursor() == 0,
    {
        Lexer { source, pos: 0, line_number: 1, char_number: 0, peeked_char: None }
    }

    /// Hands out the next character without touching the position fields:
    /// the pending pushback if there is one, else one character from the
    /// source.  Returns `None` at the end of the input.
    fn next_char_no_update(&mut self) -> (c: Option<char>)
        requires
            old(self).pos <= old(self).source@.len(),
            old(self).peeked_char matches Some(p) ==> old(self).pos >= 1 && p == old(
                self,
            ).source@[old(self).pos - 1],
        ensures
            final(self).source == old(self).source,
            final(self).line_number == old(self).line_number,
            final(self).char_number == old(self).char_number,
            final(self).peeked_char is None,
            old(self).cursor() < old(self).source@.len() ==> c == Some(
                old(self).source@[old(self).cursor()],
            ) && final(self).pos == old(self).cursor() + 1,
            old(self).cursor() >= old(self).source@.len() ==> c is None && final(self).pos == old(
                self,
            ).pos,
    {
        if self.peeked_char.is_some() {
            let c = self.peeked_char;
            self.peeked_char = None;
            c
        } else {
            if self.pos < self.source.len() {
                let c = self.source[self.pos];
                self.pos = self.pos + 1;
                Some(c)
            } else {
                None
            }
        }
    }

    /// Commits one just-read character to the position tracking: the column
    /// advances by one, and a newline starts the next line at column 0.
    fn update_position_tracking(&mut self, c: char)
        requires
            old(self).peeked_char is None,
            1 <= old(self).pos <= old(self).source@.len(),
            old(self).source@.len() < usize::MAX,
            c == old(self).source@[old(self).pos - 1],
            old(self).line_number == scan::line_at(old(self).source@, old(self).pos - 1),
            old(self).char_number == scan::col_at(old(self).source@, old(self).pos - 1),
        ensures
            final(self).source == old(self).source,
            final(self).pos == old(self).pos,
            final(self).peeked_char == old(self).peeked_char,
            final(self).line_number == scan::line_at(old(self).source@, old(self).pos as int),
            final(self).char_number == scan::col_at(old(self).source@, old(self).pos as int),
    {
        proof {
            scan::lemma_line_at_bound(self.source@, self.pos - 1);
            scan::lemma_col_at_bound(self.source@, self.pos - 1);
        }
        self.char_number = self.char_number + 1;
        if c == '\n' {
            self.line_number = self.line_number + 1;
            self.char_number = 0;
        }
    }

    /// Reads and commits the next character, appending it to `lexeme`.
    /// Returns `None` at the end of the input.
    fn next_char(&mut self, lexeme: &mut Vec<char>) -> (c: Option<char>)
        requires
            old(self).wf(),
        ensures
            final(self).wf(),
            final(self).src() == old(self).src(),
            old(self).cursor() < old(self).src().len() ==> c == Some(
                old(self).src()[old(self).cursor()],
            ) && final(self).cursor() == old(self).cursor() + 1 && final(lexeme)@ == old(
                lexeme,
            )@.push(old(self).src()[old(self).cursor()]),
            old(self).cursor() >= old(self).src().len() ==> c is None && final(self).cursor()
                == old(self).cursor() && final(lexeme)@ == old(lexeme)@,
    {
        let c = self.next_char_no_update();
        if let Some(ch) = c {
            self.update_position_tracking(ch);
            lexeme.push(ch);
        }
        c
    }

    /// Conditional consume: peeks one character and, if `pred` accepts it,
    /// commits it (position tracking and lexeme included) and returns it;
    /// otherwise pushes it back and returns `None`.
    fn next_char_if(&mut self, lexeme: &mut Vec<char>, pred: CharPred) -> (c: Option<char>)
        requires
            old(self).wf(),
        ensures
            final(self).wf(),
            final(self).src() == old(self).src(),
            old(self).cursor() < old(self).src().len() && char_pred_holds(
                pred,
                old(self).src()[old(self).cursor()],
            ) ==> c == Some(old(self).src()[old(self).cursor()]) && final(self).cursor() == old(
                self,
            ).cursor() + 1 && final(lexeme)@ == old(lexeme)@.push(
                old(self).src()[old(self).cursor()],
            ),
            !(old(self).cursor() < old(self).src().len() && char_pred_holds(
                pred,
                old(self).src()[old(self).cursor()],
            )) ==> c is None && final(self).cursor() == old(self).cursor() && final(lexeme)@ == old(
                lexeme,
            )@,
    {
        let c_opt = self.next_char_no_update();
        if let Some(c) = c_opt {
            if char_matches(pred, c) {
                self.update_position_tracking(c);
                lexeme.push(c);
                return Some(c);
            } else {
                self.peeked_char = Some(c);
            }
        }
        None
    }

    /// Conditional consume against one expected character: commits it and
    /// returns `true` on a match, pushes it back and returns `false`
    /// otherwise.
    fn next_char_if_equals(&mut self, lexeme: &mut Vec<char>, target: char) -> (b: bool)
        requires
            old(self).wf(),
        ensures
            final(self).wf(),
            final(self).src() == old(self).src(),
            old(self).cursor() < old(self).src().len() && old(self).src()[old(self).cursor()]
                == target ==> b && final(self).cursor() == old(self).cursor() + 1 && final(lexeme)@
                == old(lexeme)@.push(target),
            !(old(self).cursor() < old(self).src().len() && old(self).src()[old(self).cursor()]
                == target) ==> !b && final(self).cursor() == old(self).cursor() && final(lexeme)@
                == old(lexeme)@,
    {
        self.next_char_if(lexeme, CharPred::Equals(target)).is_some()
    }

    /// Scans the remainder of a numeric literal, its leading digit already
    /// consumed and in `lexeme`: digits and dots, promoted from integer to
    /// float at the first dot, failing at a second dot.
    #[verifier::loop_isolation(false)]
    fn handle_number_literal(&mut self, lexeme: &mut Vec<char>) -> (r: Result<TokenType, Error>)
        requires
            old(self).wf(),
        ensures
            final(self).wf(),
            final(self).src() == old(self).src(),
            final(self).cursor() == scan::number_rest(old(self).src(), old(self).cursor(), false).1,
            final(lexeme)@ == old(lexeme)@ + old(self).src().subrange(
                old(self).cursor(),
                final(self).cursor(),
            ),
            match r {
                Ok(tt) => scan::number_rest(old(self).src(), old(self).cursor(), false).0
                    == ScanKind::Emit(tt),
                Err(e) => scan::number_rest(old(self).src(), old(self).cursor(), false).0 matches
                    ScanKind::Fail(k) && scan::is_lexical_error_at(
                    e,
                    old(self).src(),
                    final(self).cursor(),
                    k,
                ),
            },
    {
        let ghost src0: Seq<char> = self.src();
        let ghost c0: int = self.cursor();
        let ghost lex0: Seq<char> = lexeme@;
        let mut tt = TokenType::IntLiteral;
        proof {
            assert(lexeme@ =~= lex0 + src0.subrange(c0, c0));
        }
        loop
            invariant
                self.wf(),
                self.src() == src0,
                c0 <= self.cursor() <= src0.len(),
                lexeme@ == lex0 + src0.subrange(c0, self.cursor()),
                tt == TokenType::IntLiteral || tt == TokenType::FloatLiteral,
                scan::number_rest(src0, c0, false) == scan::number_rest(
                    src0,
                    self.cursor(),
                    tt == TokenType::FloatLiteral,
                ),
            decreases src0.len() - self.cursor(),
        {
            let ghost cur: int = self.cursor();
            let next = self.next_char_if(lexeme, CharPred::Number);
            match next {
                Some(c) => {
                    proof {
                        assert(lexeme@ =~= lex0 + src0.subrange(c0, cur + 1));
                    }
                    if c == '.' {
                        if tt == TokenType::IntLiteral {
                            tt = TokenType::FloatLiteral;
                        } else {
                            return Err(self.new_error(LexicalErrorKind::InvalidFloatLiteral));
                        }
                    }
                },
                None => {
                    break ;
                },
            }
        }
        Ok(tt)
    }

    /// Scans the remainder of an identifier or keyword, its leading
    /// character already consumed and in `lexeme`: the maximal run of
    /// identifier characters, then an exact match of the whole lexeme
    /// against the keyword set.
    #[verifier::loop_isolation(false)]
    fn handle_ident_or_keyword(&mut self, lexeme: &mut Vec<char>) -> (t: TokenType)
        requires
            old(self).wf(),
        ensures
            final(self).wf(),
            final(self).src() == old(self).src(),
            final(self).cursor() == scan::ident_end(old(self).src(), old(self).cursor()),
            final(lexeme)@ == old(lexeme)@ + old(self).src().subrange(
                old(self).cursor(),
                final(self).cursor(),
            ),
            t == scan::keyword_kind(final(lexeme)@),
    {
        let ghost src0: Seq<char> = self.src();
        let ghost c0: int = self.cursor();
        let ghost lex0: Seq<char> = lexeme@;
        proof {
            assert(lexeme@ =~= lex0 + src0.subrange(c0, c0));
        }
        loop
            invariant
                self.wf(),
                self.src() == src0,
                c0 <= self.cursor() <= src0.len(),
                lexeme@ == lex0 + src0.subrange(c0, self.cursor()),
                scan::ident_end(src0, c0) == scan::ident_end(src0, self.cursor()),
            decreases src0.len() - self.cursor(),
        {
            let ghost cur: int = self.cursor();
            let next = self.next_char_if(lexeme, CharPred::Ident);
            if next.is_none() {
                break ;
            }
            proof {
                assert(lexeme@ =~= lex0 + src0.subrange(c0, cur + 1));
            }
        }
        keyword_lookup(lexeme)
    }

    /// Scans the remainder of a character literal, its opening quote
    /// already consumed and in `lexeme`: exactly one content unit, then the
    /// required closing quote.
    fn handle_char_literal(&mut self, lexeme: &mut Vec<char>) -> (r: Result<TokenType, Error>)
        requires
            old(self).wf(),
        ensures
            final(self).wf(),
            final(self).src() == old(self).src(),
            final(self).cursor() == scan::char_literal_rest(old(self).src(), old(self).cursor()).1,
            final(lexeme)@ == old(lexeme)@ + old(self).src().subrange(
                old(self).cursor(),
                final(self).cursor(),
            ),
            match r {
                Ok(tt) => scan::char_literal_rest(old(self).src(), old(self).cursor()).0
                    == ScanKind::Emit(tt),
                Err(e) => scan::char_literal_rest(old(self).src(), old(self).cursor()).0 matches
                    ScanKind::Fail(k) && scan::is_lexical_error_at(
                    e,
                    old(self).src(),
                    final(self).cursor(),
                    k,
                ),
            },
    {
        let ghost src0: Seq<char> = self.src();
        let ghost c0: int = self.cursor();
        let ghost lex0: Seq<char> = lexeme@;
        if let Err(e) = self.handle_character_in_literal(lexeme, false) {
            return Err(e);
        }
        let ghost j: int = self.cursor();
        if self.next_char_if_equals(lexeme, '\'') {
            proof {
                assert(lexeme@ =~= lex0 + src0.subrange(c0, j + 1));
            }
            Ok(TokenType::CharLiteral)
        } else {
            Err(self.new_error(LexicalErrorKind::InvalidCharLiteral))
        }
    }

    /// Scans the remainder of a string literal, its opening quote already
    /// consumed and in `lexeme`: content units until the closing quote.
    /// End of input before the closing quote fails.
    #[verifier::loop_isolation(false)]
    fn handle_string_literal(&mut self, lexeme: &mut Vec<char>) -> (r: Result<TokenType, Error>)
        requires
            old(self).wf(),
        ensures
            final(self).wf(),
            final(self).src() == old(self).src(),
            final(self).cursor() == scan::string_literal_rest(
                old(self).src(),
                old(self).cursor(),
            ).1,
            final(lexeme)@ == old(lexeme)@ + old(self).src().subrange(
                old(self).cursor(),
                final(self).cursor(),
            ),
            match r {
                Ok(tt) => scan::string_literal_rest(old(self).src(), old(self).cursor()).0
                    == ScanKind::Emit(tt),
                Err(e) => scan::string_literal_rest(old(self).src(), old(self).cursor()).0 matches
                    ScanKind::Fail(k) && scan::is_lexical_error_at(
                    e,
                    old(self).src(),
                    final(self).cursor(),
                    k,
                ),
            },
    {
        let ghost src0: Seq<char> = self.src();
        let ghost c0: int = self.cursor();
        let ghost lex0: Seq<char> = lexeme@;
        proof {
            assert(lexeme@ =~= lex0 + src0.subrange(c0, c0));
        }
        loop
            invariant
                self.wf(),
                self.src() == src0,
                c0 <= self.cursor() <= src0.len(),
                lexeme@ == lex0 + src0.subrange(c0, self.cursor()),
                scan::string_literal_rest(src0, c0) == scan::string_literal_rest(
                    src0,
                    self.cursor(),
                ),
            decreases src0.len() - self.cursor(),
        {
            let ghost cur: int = self.cursor();
            if self.next_char_if_equals(lexeme, '"') {
                proof {
                    assert(lexeme@ =~= lex0 + src0.subrange(c0, cur + 1));
                }
                return Ok(TokenType::StringLiteral);
            }
            if let Err(e) = self.handle_character_in_literal(lexeme, true) {
                return Err(e);
            }
            proof {
                scan::lemma_literal_char_step_bounds(src0, cur, true);
                assert(src0.subrange(c0, cur) + src0.subrange(cur, self.cursor()) =~= src0.subrange(
                    c0,
                    self.cursor(),
                ));
                assert(lexeme@ =~= lex0 + src0.subrange(c0, self.cursor()));
            }
        }
    }

    /// Scans one content unit inside a literal: an escape sequence (a
    /// backslash and one recognized escape character), or a single
    /// acceptable content character.
    fn handle_character_in_literal(&mut self, lexeme: &mut Vec<char>, in_string: bool) -> (r:
        Result<(), Error>)
        requires
            old(self).wf(),
        ensures
            final(self).wf(),
            final(self).src() == old(self).src(),
            final(self).cursor() == scan::literal_char_step(
                old(self).src(),
                old(self).cursor(),
                in_string,
            ).1,
            final(lexeme)@ == old(lexeme)@ + old(self).src().subrange(
                old(self).cursor(),
                final(self).cursor(),
            ),
            match r {
                Ok(_) => scan::literal_char_step(old(self).src(), old(self).cursor(), in_string).0
                    is None,
                Err(e) => scan::literal_char_step(
                    old(self).src(),
                    old(self).cursor(),
                    in_string,
                ).0 matches Some(k) && scan::is_lexical_error_at(
                    e,
                    old(self).src(),
                    final(self).cursor(),
                    k,
                ),
            },
    {
        let ghost src0: Seq<char> = self.src();
        let ghost c0: int = self.cursor();
        let ghost lex0: Seq<char> = lexeme@;
        if self.next_char_if_equals(lexeme, '\\') {
            let escape = self.next_char_if(lexeme, CharPred::EscapeCode);
            if escape.is_none() {
                proof {
                    assert(lexeme@ =~= lex0 + src0.subrange(c0, c0 + 1));
                }
                return Err(self.new_error(LexicalErrorKind::InvalidEscapeCode));
            }
            proof {
                assert(lexeme@ =~= lex0 + src0.subrange(c0, c0 + 2));
            }
            Ok(())
        } else {
            let pred = if in_string {
                CharPred::StringLiteralContent
            } else {
                CharPred::CharLiteralContent
            };
            let taken = self.next_char_if(lexeme, pred);
            if taken.is_none() {
                let kind = if in_string {
                    LexicalErrorKind::InvalidStringLiteral
                } else {
                    LexicalErrorKind::InvalidCharLiteral
                };
                proof {
                    assert(lexeme@ =~= lex0 + src0.subrange(c0, c0));
                }
                return Err(self.new_error(kind));
            }
            proof {
                assert(lexeme@ =~= lex0 + src0.subrange(c0, c0 + 1));
            }
            Ok(())
        }
    }

    /// Builds a lexical error of the given kind at the current position.
    /// The line text is left empty and the file path unset; the shell that
    /// renders the error fills them in.
    fn new_error(&mut self, kind: LexicalErrorKind) -> (e: Error)
        requires
            old(self).wf(),
        ensures
            *final(self) == *old(self),
            scan::is_lexical_error_at(e, old(self).src(), old(self).cursor(), kind),
    {
        Error {
            kind: ErrorKind::Lexical(kind),
            line: String::new(),
            line_number: self.line_number,
            char_number: self.char_number,
            file_path: None,
        }
    }

    /// Produces the next token of the stream: exactly one token, or exactly
    /// one lexical error (after which the characters consumed by the failed
    /// attempt stay consumed), or `None` at the end of the input.
    ///
    /// The result is precisely what the reference semantics `scan::scan_at`
    /// says for the current cursor: the emitted token's kind, lexeme and
    /// end position, or the failed attempt's error kind and position, are
    /// all pinned down.
    #[verifier::loop_isolation(false)]
    pub fn next(&mut self) -> (r: Option<Result<Token, Error>>)
        requires
            old(self).wf(),
        ensures
            final(self).wf(),
            final(self).src() == old(self).src(),
            final(self).cursor() == scan::scan_at(old(self).src(), old(self).cursor()).end,
            match r {
                None => scan::scan_at(old(self).src(), old(self).cursor()).kind
                    is Finish,
                Some(Ok(t)) => {
                    let sc = scan::scan_at(old(self).src(), old(self).cursor());
                    &&& sc.kind == ScanKind::Emit(t.tok_type)
                    &&& t.lexeme@ == old(self).src().subrange(sc.start, sc.end)
                    &&& t.line_number == scan::line_at(old(self).src(), sc.end)
                    &&& t.char_number == scan::col_at(old(self).src(), sc.end)
                },
                Some(Err(e)) => {
                    let sc = scan::scan_at(old(self).src(), old(self).cursor());
                    &&& sc.kind matches ScanKind::Fail(k) && scan::is_lexical_error_at(
                        e,
                        old(self).src(),
                        sc.end,
                        k,
                    )
                },
            },
        decreases old(self).src().len() - old(self).cursor(),
    {
        let mut lexeme: Vec<char> = Vec::new();
        let ghost src0: Seq<char> = self.src();
        let ghost c0: int = self.cursor();

        let first = self.next_char(&mut lexeme);
        let c = match first {
            Some(c) => c,
            None => {
                return None;
            },
        };

        let tok_type: Result<TokenType, Error> = if c == ':' {
            Ok(TokenType::Colon)
        } else if c == ',' {
            Ok(TokenType::Comma)
        } else if c == '(' {
            Ok(TokenType::OpenBracket)
        } else if c == ')' {
            Ok(TokenType::CloseBracket)
        } else if c == '[' {
            Ok(TokenType::OpenSquare)
        } else if c == ']' {
            Ok(TokenType::CloseSquare)
        } else if c == '+' {
            Ok(TokenType::Plus)
        } else if c == '*' {
            Ok(TokenType::Times)
        } else if c == '/' {
            Ok(TokenType::Divide)
        } else if c == ';' || c == '\n' {
            // consume the whole run of ';' and newline characters: separate
            // tokens for each boundary would be pointless
            proof {
                assert(lexeme@ =~= src0.subrange(c0, c0 + 1));
            }
            loop
                invariant
                    self.wf(),
                    self.src() == src0,
                    c0 + 1 <= self.cursor() <= src0.len(),
                    lexeme@ == src0.subrange(c0, self.cursor()),
                    scan::terminator_end(src0, c0 + 1) == scan::terminator_end(
                        src0,
                        self.cursor(),
                    ),
                decreases src0.len() - self.cursor(),
            {
                let ghost cur: int = self.cursor();
                let t = self.next_char_if(&mut lexeme, CharPred::Terminator);
                if t.is_none() {
                    break ;
                }
                proof {
                    assert(lexeme@ =~= src0.subrange(c0, cur + 1));
                }
            }
            Ok(TokenType::EndStatement)
        } else if c == '=' {
            let two = self.next_char_if_equals(&mut lexeme, '=');
            proof {
                if two {
                    assert(lexeme@ =~= src0.subrange(c0, c0 + 2));
                } else {
                    assert(lexeme@ =~= src0.subrange(c0, c0 + 1));
                }
            }
            Ok(
                if two {
                    TokenType::Equivalent
                } else {
                    TokenType::Assign
                },
            )
        } else if c == '-' {
            let two = self.next_char_if_equals(&mut lexeme, '>');
            proof {
                if two {
                    assert(lexeme@ =~= src0.subrange(c0, c0 + 2));
                } else {
                    assert(lexeme@ =~= src0.subrange(c0, c0 + 1));
                }
            }
            Ok(
                if two {
                    TokenType::Arrow
                } else {
                    TokenType::Minus
                },
            )
        } else if c == '<' {
            let two = self.next_char_if_equals(&mut lexeme, '=');
            proof {
                if two {
                    assert(lexeme@ =~= src0.subrange(c0, c0 + 2));
                } else {
                    assert(lexeme@ =~= src0.subrange(c0, c0 + 1));
                }
            }
            Ok(
                if two {
                    TokenType::LessThanOrEqual
                } else {
                    TokenType::LessThan
                },
            )
        } else if c == '>' {
            let two = self.next_char_if_equals(&mut lexeme, '=');
            proof {
                if two {
                    assert(lexeme@ =~= src0.subrange(c0, c0 + 2));
                } else {
                    assert(lexeme@ =~= src0.subrange(c0, c0 + 1));
                }
            }
            Ok(
                if two {
                    TokenType::GreaterThanOrEqual
                } else {
                    TokenType::GreaterThan
                },
            )
        } else if c == '!' {
            let two = self.next_char_if_equals(&mut lexeme, '=');
            proof {
                if two {
                    assert(lexeme@ =~= src0.subrange(c0, c0 + 2));
                } else {
                    assert(lexeme@ =~= src0.subrange(c0, c0 + 1));
                }
            }
            Ok(
                if two {
                    TokenType::NotEquivalent
                } else {
                    TokenType::Not
                },
            )
        } else if is_digit_char(c) {
            let r = self.handle_number_literal(&mut lexeme);
            proof {
                scan::lemma_number_rest_bounds(src0, c0 + 1, false);
                assert(lexeme@ =~= src0.subrange(c0, self.cursor()));
            }
            r
        } else if is_ident_start_char(c) {
            let t = self.handle_ident_or_keyword(&mut lexeme);
            proof {
                scan::lemma_ident_end_props(src0, c0 + 1);
                assert(lexeme@ =~= src0.subrange(c0, self.cursor()));
            }
            Ok(t)
        } else if c == '\'' {
            let r = self.handle_char_literal(&mut lexeme);
            proof {
                scan::lemma_char_literal_rest_bounds(src0, c0 + 1);
                assert(lexeme@ =~= src0.subrange(c0, self.cursor()));
            }
            r
        } else if c == '"' {
            let r = self.handle_string_literal(&mut lexeme);
            proof {
                scan::lemma_string_literal_rest_bounds(src0, c0 + 1);
                assert(lexeme@ =~= src0.subrange(c0, self.cursor()));
            }
            r
        } else if is_whitespace_char(c) {
            return self.next();
        } else {
            Err(self.new_error(LexicalErrorKind::UnexpectedCharacter))
        };

        match tok_type {
            Ok(tt) => Some(
                Ok(
                    Token {
                        tok_type: tt,
                        lexeme: chars_to_string(&lexeme),
                        line_number: self.line_number,
                        char_number: self.char_number,
                    },
                ),
            ),
            Err(e) => Some(Err(e)),
        }
    }
}

/// The character classes a conditional consume can test for.  `Equals`
/// matches one expected character; the rest mirror the scanner's
/// classification of literal and identifier content.
enum CharPred {
    Equals(char),
    Number,
    Ident,
    EscapeCode,
    CharLiteralContent,
    StringLiteralContent,
    Terminator,
}

spec fn char_pred_holds(pred: CharPred, c: char) -> bool {
    match pred {
        CharPred::Equals(t) => c == t,
        CharPred::Number => scan::is_number_char(c),
        CharPred::Ident => scan::is_ident_char(c),
        CharPred::EscapeCode => scan::is_escape_code_char(c),
        CharPred::CharLiteralContent => scan::is_literal_content_char(c, false),
        CharPred::StringLiteralContent => scan::is_literal_content_char(c, true),
        CharPred::Terminator => scan::is_terminator_char(c),
    }
}

fn char_matches(pred: CharPred, c: char) -> (b: bool)
    ensures
        b == char_pred_holds(pred, c),
{
    match pred {
        CharPred::Equals(t) => c == t,
        CharPred::Number => is_number_char(c),
        CharPred::Ident => is_ident_char(c),
        CharPred::EscapeCode => is_escape_code_char(c),
        CharPred::CharLiteralContent => c != '\'' && c != '\n',
        CharPred::StringLiteralContent => true,
        CharPred::Terminator => c == ';' || c == '\n',
    }
}

fn is_ident_char(c: char) -> (b: bool)
    ensures
        b == scan::is_ident_char(c),
{
    let u: u32 = c as u32;
    ('a' as u32 <= u && u <= 'z' as u32) || ('A' as u32 <= u && u <= 'Z' as u32) || ('0' as u32 <= u
        && u <= '9' as u32) || c == '_'
}

fn is_number_char(c: char) -> (b: bool)
    ensures
        b == scan::is_number_char(c),
{
    let u: u32 = c as u32;
    ('0' as u32 <= u && u <= '9' as u32) || c == '.'
}

fn is_escape_code_char(c: char) -> (b: bool)
    ensures
        b == scan::is_escape_code_char(c),
{
    c == '\\' || c == 'n' || c == 't' || c == '\'' || c == '"' || c == '0'
}

/// Tests for the Unicode `White_Space` property, written out as the fixed
/// character set it denotes.
fn is_whitespace_char(c: char) -> (b: bool)
    ensures
        b == scan::is_whitespace_char(c),
{
    let u: u32 = c as u32;
    c == ' ' || c == '\t' || c == '\n' || c == '\r' || c == '\u{000B}' || c == '\u{000C}' || c
        == '\u{0085}' || c == '\u{00A0}' || c == '\u{1680}' || (0x2000 <= u && u <= 0x200A) || c
        == '\u{2028}' || c == '\u{2029}' || c == '\u{202F}' || c == '\u{205F}' || c == '\u{3000}'
}

fn is_digit_char(c: char) -> (b: bool)
    ensures
        b == scan::is_digit_char(c),
{
    let u: u32 = c as u32;
    '0' as u32 <= u && u <= '9' as u32
}

fn is_ident_start_char(c: char) -> (b: bool)
    ensures
        b == scan::is_ident_start_char(c),
{
    let u: u32 = c as u32;
    ('a' as u32 <= u && u <= 'z' as u32) || ('A' as u32 <= u && u <= 'Z' as u32) || c == '_'
}

/// Matches a complete identifier lexeme verbatim against the fixed keyword
/// set; anything else is an ordinary identifier.
fn keyword_lookup(lexeme: &Vec<char>) -> (t: TokenType)
    ensures
        t == scan::keyword_kind(lexeme@),
{
    let n: usize = lexeme.len();
    if n == 2 {
        let c0 = lexeme[0];
        let c1 = lexeme[1];
        if c0 == 'd' && c1 == 'o' {
            proof {
                assert(lexeme@ =~= seq!['d', 'o']);
            }
            TokenType::DoKeyword
        } else if c0 == 'i' && c1 == 'f' {
            proof {
                assert(lexeme@ =~= seq!['i', 'f']);
            }
            TokenType::IfKeyword
        } else if c0 == 'f' && c1 == 'n' {
            proof {
                assert(lexeme@ =~= seq!['f', 'n']);
            }
            TokenType::FnKeyword
        } else if c0 == 'o' && c1 == 'r' {
            proof {
                assert(lexeme@ =~= seq!['o', 'r']);
            }
            TokenType::OrKeyword
        } else {
            TokenType::Identifier
        }
    } else if n == 3 {
        let c0 = lexeme[0];
        let c1 = lexeme[1];
        let c2 = lexeme[2];
        if c0 == 'e' && c1 == 'n' && c2 == 'd' {
            proof {
                assert(lexeme@ =~= seq!['e', 'n', 'd']);
            }
            TokenType::EndKeyword
        } else if c0 == 'f' && c1 == 'o' && c2 == 'r' {
            proof {
                assert(lexeme@ =~= seq!['f', 'o', 'r']);
            }
            TokenType::ForKeyword
        } else if c0 == 'a' && c1 == 'n' && c2 == 'd' {
            proof {
                assert(lexeme@ =~= seq!['a', 'n', 'd']);
            }
            TokenType::AndKeyword
        } else {
            TokenType::Identifier
        }
    } else if n == 4 {
        let c0 = lexeme[0];
        let c1 = lexeme[1];
        let c2 = lexeme[2];
        let c3 = lexeme[3];
        if c0 == 't' && c1 == 'h' && c2 == 'e' && c3 == 'n' {
            proof {
                assert(lexeme@ =~= seq!['t', 'h', 'e', 'n']);
            }
            TokenType::ThenKeyword
        } else if c0 == 'e' && c1 == 'l' && c2 == 's' && c3 == 'e' {
            proof {
                assert(lexeme@ =~= seq!['e', 'l', 's', 'e']);
            }
            TokenType::ElseKeyword
        } else {
            TokenType::Identifier
        }
    } else if n == 5 {
        if lexeme[0] == 'w' && lexeme[1] == 'h' && lexeme[2] == 'i' && lexeme[3] == 'l'
            && lexeme[4] == 'e' {
            proof {
                assert(lexeme@ =~= seq!['w', 'h', 'i', 'l', 'e']);
            }
            TokenType::WhileKeyword
        } else {
            TokenType::Identifier
        }
    } else if n == 6 {
        if lexeme[0] == 'r' && lexeme[1] == 'e' && lexeme[2] == 't' && lexeme[3] == 'u'
            && lexeme[4] == 'r' && lexeme[5] == 'n' {
            proof {
                assert(lexeme@ =~= seq!['r', 'e', 't', 'u', 'r', 'n']);
            }
            TokenType::ReturnKeyword
        } else {
            TokenType::Identifier
        }
    } else {
        TokenType::Identifier
    }
}

/// Relies on `String`'s `FromIterator` implementation, through
/// `Iterator::collect`: the resulting string holds exactly the given
/// characters, in order.
#[verifier::external_body]
fn chars_to_string(chars: &Vec<char>) -> (s: String)
    ensures
        s@ == chars@,
{
    chars.iter().collect()
}

} // verus!
