//! Token-stream navigation for recursive-descent parsers.
//!
//! Grammar rules see their input through a [`parser::Parser`]: they look at the
//! current token, peek one token ahead, consume, skip blanks, and go back to a
//! position taken earlier. Every operation is specified against a small
//! mathematical model of the stream, [`parser::lexer::LexerView`].

pub mod error;
pub mod parser;
