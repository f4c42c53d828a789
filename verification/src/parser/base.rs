//! The navigation layer: what a grammar rule calls to look at the tokens, to
//! consume them, to skip blanks and to go back.
//!
//! No operation here recovers from a failure. A mismatch becomes an
//! [`Error`] that the rule hands up, or answers by going back to a position
//! it took before and trying another alternative.

use vstd::prelude::*;
use crate::error::Error;
use crate::parser::laws::lemma_skip_blanks_stops;
use crate::parser::lexer::{Cursor, LexerState, LexerView};
use crate::parser::token::{Token, TokenView};
use crate::parser::Parser;

verus! {

/// Whether skipping passes over `token`: a space always, a separator where
/// `separators_too` says so.
pub open spec fn is_blank(token: TokenView, separators_too: bool) -> bool {
    token == TokenView::Space || (separators_too && token == TokenView::Separator)
}

/// Two spaces for each open rule.
pub open spec fn indentation(level: nat) -> Seq<char> {
    Seq::new(2 * level, |i: int| ' ')
}

impl LexerView {
    /// Whether the current token is `token`.
    pub open spec fn current_is(self, token: TokenView) -> bool {
        self.current() == token
    }

    /// The state after `token` is consumed if it is the current token, and
    /// the same state if it is not.
    pub open spec fn accept(self, token: TokenView) -> LexerView {
        if self.current_is(token) {
            self.advance()
        } else {
            self
        }
    }

    /// The state after the blanks in front are consumed: the current token on,
    /// up to the first token that is not blank.
    pub open spec fn skip_blanks(self, separators_too: bool) -> LexerView
        decreases self.units.len() - self.cur.index,
    {
        if is_blank(self.current(), separators_too) {
            self.advance().skip_blanks(separators_too)
        } else {
            self
        }
    }

    /// Whether a separator can be passed here: at a separator, and at the end
    /// of the input, which stands for one.
    pub open spec fn at_separator(self) -> bool {
        self.current() == TokenView::Separator || self.current() == TokenView::Eof
    }

    /// The state after a separator and the blanks behind it are consumed.
    /// Where the current token is no separator, nothing is consumed.
    pub open spec fn pass_separator(self) -> LexerView {
        if self.current() == TokenView::Separator {
            self.advance().skip_blanks(true)
        } else {
            self
        }
    }
}

impl Parser {
    /// Consumes a separator and the blanks after it. The end of the input
    /// stands for a separator and is not consumed. Any other token is a
    /// mismatch, and nothing is consumed.
    pub fn expect_sep(&mut self) -> (result: Result<(), Error>)
        ensures
            final(self).lv == old(self).lv,
            final(self)@ == old(self)@.pass_separator(),
            old(self)@.at_separator() ==> result is Ok,
            !old(self)@.at_separator() ==> result is Err && result->Err_0.reports_mismatch(
                old(self)@.cur,
                TokenView::Separator,
                old(self)@.current(),
                "separator"@,
            ),
    {
        match self.current_token() {
            Token::Separator => {
                self.consume_token();
            },
            Token::Eof => {},
            token => {
                let actual = token.clone();
                return Err(
                    Error::token_mismatch(
                        self.current_position(),
                        Token::Separator,
                        actual,
                        "separator",
                    ),
                );
            },
        }
        self.skip_wsn();
        Ok(())
    }

    /// Consumes the current token if it is `token` and hands it back. If it
    /// is another token, nothing is consumed and the error names both.
    pub fn expect(&mut self, token: Token) -> (result: Result<Token, Error>)
        ensures
            final(self).lv == old(self).lv,
            final(self)@ == old(self)@.accept(token@),
            old(self)@.current_is(token@) ==> result is Ok && result->Ok_0@ == token@,
            !old(self)@.current_is(token@) ==> result is Err && result->Err_0.reports_mismatch(
                old(self)@.cur,
                token@,
                old(self)@.current(),
                token@.description(),
            ),
    {
        if *self.current_token() == token {
            Ok(self.consume_token())
        } else {
            let wanted = token.describe();
            let actual = self.current_token().clone();
            Err(Error::token_mismatch(self.current_position(), token, actual, wanted.as_str()))
        }
    }

    /// Consumes spaces and separators up to the first token that is neither.
    pub fn skip_wsn(&mut self)
        ensures
            final(self).lv == old(self).lv,
            final(self)@ == old(self)@.skip_blanks(true),
            !is_blank(final(self)@.current(), true),
    {
        proof {
            lemma_skip_blanks_stops(self@, true);
        }
        loop
            invariant
                self.lv == old(self).lv,
                self@.skip_blanks(true) == old(self)@.skip_blanks(true),
            decreases self@.units.len() - self@.cur.index,
        {
            match self.current_token() {
                Token::Space | Token::Separator => {
                    self.consume_token();
                },
                _ => {
                    return ;
                },
            }
        }
    }

    /// Consumes spaces up to the first token that is not a space.
    pub fn skip_ws(&mut self)
        ensures
            final(self).lv == old(self).lv,
            final(self)@ == old(self)@.skip_blanks(false),
            !is_blank(final(self)@.current(), false),
    {
        proof {
            lemma_skip_blanks_stops(self@, false);
        }
        loop
            invariant
                self.lv == old(self).lv,
                self@.skip_blanks(false) == old(self)@.skip_blanks(false),
            decreases self@.units.len() - self@.cur.index,
        {
            match self.current_token() {
                Token::Space => {
                    self.consume_token();
                },
                _ => {
                    return ;
                },
            }
        }
    }

    /// Consumes the current token and hands it back. At the end of the input
    /// the token is `Eof` and the parser stays there.
    pub fn consume_token(&mut self) -> (token: Token)
        ensures
            final(self).lv == old(self).lv,
            token@ == old(self)@.current(),
            final(self)@ == old(self)@.advance(),
    {
        self.debug_log("consume_token");
        self.lexer.consume_token()
    }

    /// Consumes the current token if it is `token`, and says whether it did.
    pub fn consume(&mut self, token: Token) -> (consumed: bool)
        ensures
            final(self).lv == old(self).lv,
            consumed == old(self)@.current_is(token@),
            final(self)@ == old(self)@.accept(token@),
    {
        if self.current_token_is(token) {
            self.consume_token();
            true
        } else {
            false
        }
    }

    /// Whether the current token is `token`. Nothing is consumed.
    pub fn current_token_is(&mut self, token: Token) -> (same: bool)
        ensures
            final(self).lv == old(self).lv,
            same == old(self)@.current_is(token@),
            final(self)@ == old(self)@,
    {
        *self.current_token() == token
    }

    /// The current token.
    pub fn current_token(&self) -> (token: &Token)
        ensures
            token@ == self@.current(),
    {
        self.lexer.current_token()
    }

    /// The token after the current one. Nothing is consumed.
    pub fn peek_next_token(&mut self) -> (token: Token)
        ensures
            final(self).lv == old(self).lv,
            token@ == old(self)@.peek(),
            final(self)@ == old(self)@,
    {
        self.lexer.peek_next()
    }

    /// The current token, or the one after it where the current token is a
    /// space. Separators are not passed over, and nothing is consumed.
    pub fn next_nonspace_token(&mut self) -> (token: Token)
        ensures
            final(self).lv == old(self).lv,
            token@ == if old(self)@.current() == TokenView::Space {
                old(self)@.peek()
            } else {
                old(self)@.current()
            },
            final(self)@ == old(self)@,
    {
        if self.current_token_is(Token::Space) {
            self.lexer.peek_next()
        } else {
            self.current_token().clone()
        }
    }

    /// The position of the current token, to go back to.
    pub fn current_position(&self) -> (cur: Cursor)
        ensures
            cur@ == self@.cur,
    {
        self.lexer.current_position()
    }

    /// Goes back to `cur`. The current token is again the one that was
    /// current when `cur` was taken; the mode stays as it is now.
    pub fn rewind_to(&mut self, cur: Cursor)
        ensures
            final(self).lv == old(self).lv,
            final(self)@ == old(self)@.at(cur@),
    {
        self.lexer.set_position(cur);
    }

    /// Reads in `state` from the next token on. The current token stays.
    pub fn set_lexer_state(&mut self, state: LexerState)
        ensures
            final(self).lv == old(self).lv,
            final(self)@ == old(self)@.in_state(state),
    {
        self.lexer.set_state(state);
    }

    /// Reads `>>` as two `>` from the next token on where `mode` is set, and
    /// as one token where it is not. The current token stays.
    pub fn set_lexer_gtgt_mode(&mut self, mode: bool)
        ensures
            final(self).lv == old(self).lv,
            final(self)@ == old(self)@.with_gtgt_mode(mode),
    {
        self.lexer.set_gtgt_mode(mode);
    }

    /// An error at the current position that `msg` describes.
    pub fn parseerror(&self, msg: &str) -> (error: Error)
        ensures
            error.reports_failure(self@.cur, msg@),
    {
        Error::parse_error(msg, self.lexer.current_position())
    }

    /// A hook for tracing the parser. It keeps no log and prints nothing.
    pub fn debug_log(&self, _msg: &str) {
    }

    /// The indentation of a line of the debug log.
    pub fn lv_space(&self) -> (indent: String)
        ensures
            indent@ == indentation(self.lv as nat),
    {
        let mut indent = String::new();
        let mut level: usize = 0;
        while level < self.lv
            invariant
                level <= self.lv,
                indent@ == indentation(level as nat),
            decreases self.lv - level,
        {
            proof {
                reveal_strlit("  ");
            }
            indent.append("  ");
            level = level + 1;
        }
        indent
    }
}

} // verus!
