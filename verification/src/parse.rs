//! The syntactic analysis stage.  Only its interface is settled: it owns
//! the token stream it will consume.  The grammar itself is future work.

use vstd::prelude::*;

verus! {

use crate::lex::Lexer;

/// The parser: holds the lexer whose tokens it will consume.
pub struct Parser {
    tokens: Lexer,
}

impl Parser {
    /// The token stream this parser consumes.
    pub closed spec fn lexer(&self) -> Lexer {
        self.tokens
    }

    pub fn new(tokens: Lexer) -> (p: Parser)
        ensures
            p.lexer() == tokens,
    {
        Parser { tokens }
    }
}

} // verus!
