//! The code generation stage.  Only its interface is settled: it owns the
//! parser whose syntax tree it will consume.  Emission itself is future
//! work.

use vstd::prelude::*;

verus! {

use crate::parse::Parser;

/// The code generator: holds the parser whose output it will consume.
pub struct CodeGenerator {
    nodes: Parser,
}

impl CodeGenerator {
    /// The parser this generator consumes.
    pub closed spec fn parser(&self) -> Parser {
        self.nodes
    }

    pub fn new(nodes: Parser) -> (g: CodeGenerator)
        ensures
            g.parser() == nodes,
    {
        CodeGenerator { nodes }
    }
}

} // verus!
