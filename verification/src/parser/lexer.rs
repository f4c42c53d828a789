//! The lexer that the navigation layer owns, and its model.
//!
//! The input is a sequence of units, each a [`Token`] as it reads in the normal
//! mode. The lexer walks the units and produces tokens. The one thing the mode
//! changes is the composite symbol `>>`: in the normal mode it is one
//! [`Token::RShift`], and while [`LexerState::rshift_is_gtgt`] is set it is read
//! as two [`Token::GreaterThan`], one after the other.
//!
//! A token, once produced, stays as it is: a change of mode shows in the tokens
//! produced after it. A [`Cursor`] therefore records not only where a token
//! starts but also how much of the unit there it covers, so that going back to
//! a cursor gives the token that was current when the cursor was taken. Going
//! back does not touch the mode.
//!
//! The input ends behind the last unit, and at an [`Token::Eof`] unit if there
//! is one before: the lexer does not move past either.

use vstd::prelude::*;
use crate::parser::token::{Token, TokenView};

verus! {

/// How much of the unit under a cursor the token there covers.
#[derive(Clone, Copy, PartialEq, Eq, Structural, Debug)]
pub enum Part {
    /// The unit as a whole.
    Whole,
    /// The first `>` of a `>>` read as two tokens.
    First,
    /// The second `>` of a `>>` read as two tokens.
    Second,
}

/// A position in the stream: a checkpoint to come back to.
#[derive(Clone, Copy, PartialEq, Eq, Structural, Debug)]
pub struct Cursor {
    /// The number of units before the token.
    pub index: usize,
    /// The part of the unit at `index` that the token covers.
    pub part: Part,
}

/// A [`Cursor`] as the contracts see it, with an index that no machine word
/// bounds.
pub struct CursorView {
    pub index: nat,
    pub part: Part,
}

impl View for Cursor {
    type V = CursorView;

    open spec fn view(&self) -> CursorView {
        CursorView { index: self.index as nat, part: self.part }
    }
}

/// The flags that change how the units are read.
#[derive(Clone, Copy, PartialEq, Eq, Structural, Debug)]
pub struct LexerState {
    /// While set, `>>` is read as two `>`.
    pub rshift_is_gtgt: bool,
}

/// The views of a sequence of tokens, one by one.
pub open spec fn token_views(tokens: Seq<Token>) -> Seq<TokenView> {
    tokens.map_values(|token: Token| token@)
}

/// The token that `cur` designates in `units`. Past the last unit it is
/// `Eof`.
pub open spec fn token_at(units: Seq<TokenView>, cur: CursorView) -> TokenView {
    if cur.index >= units.len() {
        TokenView::Eof
    } else if cur.part == Part::Whole {
        units[cur.index as int]
    } else {
        TokenView::GreaterThan
    }
}

/// The cursor of the token that starts with unit `index` when it is read in
/// `state`.
pub open spec fn entry(units: Seq<TokenView>, index: nat, state: LexerState) -> CursorView {
    if index < units.len() && units[index as int] == TokenView::RShift && state.rshift_is_gtgt {
        CursorView { index, part: Part::First }
    } else {
        CursorView { index, part: Part::Whole }
    }
}

/// Whether `cur` fits `units`: it covers half of a unit only where that unit
/// is `>>`.
pub open spec fn fits(units: Seq<TokenView>, cur: CursorView) -> bool {
    cur.part != Part::Whole ==> cur.index < units.len() && units[cur.index as int]
        == TokenView::RShift
}

/// The state of a lexer: the units it walks, where it stands and the mode it
/// reads in.
pub struct LexerView {
    pub units: Seq<TokenView>,
    pub cur: CursorView,
    pub state: LexerState,
}

impl LexerView {
    /// The current token.
    pub open spec fn current(self) -> TokenView {
        token_at(self.units, self.cur)
    }

    /// Where the token after the current one starts, read in the mode that is
    /// active now. At `Eof` there is no such token, and the cursor stays.
    pub open spec fn next_cursor(self) -> CursorView {
        if self.current() == TokenView::Eof {
            self.cur
        } else if self.cur.part == Part::First {
            CursorView { index: self.cur.index, part: Part::Second }
        } else {
            entry(self.units, self.cur.index + 1, self.state)
        }
    }

    /// The state after the current token is consumed.
    pub open spec fn advance(self) -> LexerView {
        LexerView { cur: self.next_cursor(), ..self }
    }

    /// The token after the current one.
    pub open spec fn peek(self) -> TokenView {
        self.advance().current()
    }

    /// Whether the cursor fits the stream, so that the current token is one
    /// that the units hold.
    pub open spec fn aligned(self) -> bool {
        fits(self.units, self.cur)
    }

    /// The same stream and mode, positioned at `cur`.
    pub open spec fn at(self, cur: CursorView) -> LexerView {
        LexerView { cur, ..self }
    }

    /// The same stream and position, reading in `state`.
    pub open spec fn in_state(self, state: LexerState) -> LexerView {
        LexerView { state, ..self }
    }

    /// The same stream and position, with the flag for `>>` set to `mode`.
    pub open spec fn with_gtgt_mode(self, mode: bool) -> LexerView {
        self.in_state(LexerState { rshift_is_gtgt: mode })
    }
}

/// A cursor together with the token it designates.
struct Head {
    cur: Cursor,
    token: Token,
}

/// A lexer over a sequence of units.
pub struct Lexer {
    units: Vec<Token>,
    head: Head,
    state: LexerState,
}

impl View for Lexer {
    type V = LexerView;

    closed spec fn view(&self) -> LexerView {
        LexerView { units: token_views(self.units@), cur: self.head.cur@, state: self.state }
    }
}

impl Lexer {
    /// The token kept in `head` is the one its cursor designates.
    #[verifier::type_invariant]
    spec fn head_is_current(self) -> bool {
        self.head.token@ == token_at(token_views(self.units@), self.head.cur@)
    }

    /// A lexer at the start of `units`, in the normal mode.
    pub fn new(units: Vec<Token>) -> (lexer: Lexer)
        ensures
            lexer@.units == token_views(units@),
            lexer@.cur == (CursorView { index: 0, part: Part::Whole }),
            lexer@.state == (LexerState { rshift_is_gtgt: false }),
    {
        let cur = Cursor { index: 0, part: Part::Whole };
        let token = Self::read(&units, cur);
        Lexer { units, head: Head { cur, token }, state: LexerState { rshift_is_gtgt: false } }
    }

    /// The token that `cur` designates in `units`.
    fn read(units: &Vec<Token>, cur: Cursor) -> (token: Token)
        ensures
            token@ == token_at(token_views(units@), cur@),
    {
        if cur.index >= units.len() {
            Token::Eof
        } else {
            match cur.part {
                Part::Whole => units[cur.index].clone(),
                _ => Token::GreaterThan,
            }
        }
    }

    /// The cursor of the token after the current one.
    fn next_cursor(&self) -> (next: Cursor)
        ensures
            next@ == self@.next_cursor(),
    {
        proof {
            use_type_invariant(self);
        }
        let cur = self.head.cur;
        let len = self.units.len();
        match self.head.token {
            Token::Eof => cur,
            _ => match cur.part {
                Part::First => Cursor { index: cur.index, part: Part::Second },
                _ => {
                    let index = cur.index + 1;
                    if index < len && self.state.rshift_is_gtgt {
                        match self.units[index] {
                            Token::RShift => Cursor { index, part: Part::First },
                            _ => Cursor { index, part: Part::Whole },
                        }
                    } else {
                        Cursor { index, part: Part::Whole }
                    }
                },
            },
        }
    }

    /// The current token.
    pub fn current_token(&self) -> (token: &Token)
        ensures
            token@ == self@.current(),
    {
        proof {
            use_type_invariant(self);
        }
        &self.head.token
    }

    /// The token after the current one. The lexer stays where it is.
    pub fn peek_next(&self) -> (token: Token)
        ensures
            token@ == self@.peek(),
    {
        let next = self.next_cursor();
        Self::read(&self.units, next)
    }

    /// Hands out the current token and moves to the next one, which is read
    /// in the mode that is active at the call.
    pub fn consume_token(&mut self) -> (token: Token)
        ensures
            token@ == old(self)@.current(),
            final(self)@ == old(self)@.advance(),
    {
        proof {
            use_type_invariant(&*self);
        }
        let token = self.head.token.clone();
        let cur = self.next_cursor();
        self.head = Head { cur, token: Self::read(&self.units, cur) };
        token
    }

    /// The mode that the next token is read in.
    pub fn state(&self) -> (state: LexerState)
        ensures
            state == self@.state,
    {
        self.state
    }

    /// The position of the current token.
    pub fn current_position(&self) -> (cur: Cursor)
        ensures
            cur@ == self@.cur,
    {
        self.head.cur
    }

    /// Goes to `cur`. The current token is then the one that `cur`
    /// designates, whatever the mode.
    pub fn set_position(&mut self, cur: Cursor)
        ensures
            final(self)@ == old(self)@.at(cur@),
    {
        self.head = Head { cur, token: Self::read(&self.units, cur) };
    }

    /// Reads in `state` from the next token on.
    pub fn set_state(&mut self, state: LexerState)
        ensures
            final(self)@ == old(self)@.in_state(state),
    {
        proof {
            use_type_invariant(&*self);
        }
        self.state = state;
    }

    /// Sets the flag for `>>` from the next token on.
    pub fn set_gtgt_mode(&mut self, mode: bool)
        ensures
            final(self)@ == old(self)@.with_gtgt_mode(mode),
    {
        proof {
            use_type_invariant(&*self);
        }
        self.state.rshift_is_gtgt = mode;
    }
}

} // verus!
