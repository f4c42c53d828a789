//! The parser front end: the tokens, the lexer, and the navigation layer that
//! grammar rules call.

pub mod base;
pub mod laws;
pub mod lexer;
pub mod token;

use vstd::prelude::*;
use crate::parser::lexer::{Lexer, LexerView};

verus! {

/// The state that grammar rules share: the lexer, owned by the parser alone,
/// and the depth of the rule being parsed.
pub struct Parser {
    pub lexer: Lexer,
    /// How many rules are open. It only indents the debug log.
    pub lv: usize,
}

impl View for Parser {
    type V = LexerView;

    open spec fn view(&self) -> LexerView {
        self.lexer@
    }
}

impl Parser {
    /// A parser that reads from `lexer`, with no rule open.
    pub fn new(lexer: Lexer) -> (parser: Parser)
        ensures
            parser@ == lexer@,
            parser.lv == 0,
    {
        Parser { lexer, lv: 0 }
    }
}

} // verus!
