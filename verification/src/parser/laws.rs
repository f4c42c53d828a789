//! What holds of the navigation layer whatever the stream: the laws that
//! grammar rules rely on, proved over the model.

use vstd::prelude::*;
use crate::parser::base::is_blank;
use crate::parser::lexer::{entry, fits, CursorView, LexerState, LexerView};
use crate::parser::token::TokenView;

verus! {

/// One operation of the navigation layer that may change the state.
pub enum Step {
    /// `consume_token`.
    Consume,
    /// `consume` or `expect` of the token.
    Accept(TokenView),
    /// `skip_ws`, or `skip_wsn` where `separators_too` is set.
    SkipBlanks { separators_too: bool },
    /// `expect_sep`.
    PassSeparator,
    /// `set_lexer_state`.
    SetState(LexerState),
    /// `set_lexer_gtgt_mode`.
    SetGtgtMode(bool),
    /// `rewind_to`.
    Rewind(CursorView),
}

impl LexerView {
    /// The state after one operation.
    pub open spec fn step(self, step: Step) -> LexerView {
        match step {
            Step::Consume => self.advance(),
            Step::Accept(token) => self.accept(token),
            Step::SkipBlanks { separators_too } => self.skip_blanks(separators_too),
            Step::PassSeparator => self.pass_separator(),
            Step::SetState(state) => self.in_state(state),
            Step::SetGtgtMode(mode) => self.with_gtgt_mode(mode),
            Step::Rewind(cur) => self.at(cur),
        }
    }

    /// The state after the operations of `steps`, first to last.
    pub open spec fn run(self, steps: Seq<Step>) -> LexerView
        decreases steps.len(),
    {
        if steps.len() == 0 {
            self
        } else {
            self.run(steps.drop_last()).step(steps.last())
        }
    }
}

/// Whether `step`, if it goes back, goes back to a cursor that fits `units`.
pub open spec fn rewind_fits(units: Seq<TokenView>, step: Step) -> bool {
    step matches Step::Rewind(cur) ==> fits(units, cur)
}

/// Consuming a token other than the current one is refused: the answer is
/// `false`, and the state, with it the current token, stays as it was.
pub proof fn lemma_other_token_is_not_consumed(s: LexerView, current: TokenView, other: TokenView)
    requires
        s.current() == current,
        current != other,
    ensures
        !s.current_is(other),
        s.accept(other) == s,
        s.accept(other).current() == current,
{
}

/// `expect` moves as a guarded `consume_token` does: past the current token
/// where it is the required one, and not at all where it is not. A failure
/// consumes nothing.
pub proof fn lemma_expect_is_guarded_consume(s: LexerView, token: TokenView)
    ensures
        s.current_is(token) ==> s.accept(token) == s.advance(),
        !s.current_is(token) ==> s.accept(token) == s,
{
}

/// Skipping changes neither the stream nor the mode, moves forward only, and
/// stops at a token that is not blank.
pub proof fn lemma_skip_blanks_stops(s: LexerView, separators_too: bool)
    ensures
        s.skip_blanks(separators_too).units == s.units,
        s.skip_blanks(separators_too).state == s.state,
        s.skip_blanks(separators_too).cur.index >= s.cur.index,
        !is_blank(s.skip_blanks(separators_too).current(), separators_too),
    decreases s.units.len() - s.cur.index,
{
    if is_blank(s.current(), separators_too) {
        lemma_skip_blanks_stops(s.advance(), separators_too);
    }
}

/// Skipping stops at the first token that is not blank: every unit passed
/// over is blank, and where any was passed over, the token reached starts a
/// unit and is read in the active mode.
pub proof fn lemma_skip_blanks_passes_blanks_only(s: LexerView, separators_too: bool)
    ensures
        forall|i: int|
            s.cur.index <= i < s.skip_blanks(separators_too).cur.index ==> is_blank(
                #[trigger] s.units[i],
                separators_too,
            ),
        s.skip_blanks(separators_too).cur == if is_blank(s.current(), separators_too) {
            entry(s.units, s.skip_blanks(separators_too).cur.index, s.state)
        } else {
            s.cur
        },
    decreases s.units.len() - s.cur.index,
{
    if is_blank(s.current(), separators_too) {
        lemma_skip_blanks_passes_blanks_only(s.advance(), separators_too);
        lemma_skip_blanks_stops(s.advance(), separators_too);
    }
}

/// Skipping twice is skipping once.
pub proof fn lemma_skip_blanks_is_idempotent(s: LexerView, separators_too: bool)
    ensures
        s.skip_blanks(separators_too).skip_blanks(separators_too) == s.skip_blanks(separators_too),
{
    lemma_skip_blanks_stops(s, separators_too);
}

/// After spaces and separators are skipped, there are no spaces left to skip.
pub proof fn lemma_skip_ws_after_skip_wsn(s: LexerView)
    ensures
        s.skip_blanks(true).skip_blanks(false) == s.skip_blanks(true),
{
    lemma_skip_blanks_stops(s, true);
}

/// No operation changes the stream.
pub proof fn lemma_step_keeps_units(s: LexerView, step: Step)
    ensures
        s.step(step).units == s.units,
{
    lemma_skip_blanks_stops(s, true);
    lemma_skip_blanks_stops(s, false);
    lemma_skip_blanks_stops(s.advance(), true);
}

/// No sequence of operations changes the stream.
pub proof fn lemma_run_keeps_units(s: LexerView, steps: Seq<Step>)
    ensures
        s.run(steps).units == s.units,
    decreases steps.len(),
{
    if steps.len() > 0 {
        lemma_run_keeps_units(s, steps.drop_last());
        lemma_step_keeps_units(s.run(steps.drop_last()), steps.last());
    }
}

/// Going back restores the current token. Take the position, perform any
/// operations, go back to the position: the current token is the one it was.
/// The whole state is the one it was but for the mode, which is the one that
/// the operations left; where that is the mode it was, nothing has changed.
pub proof fn lemma_rewind_restores_current_token(s: LexerView, steps: Seq<Step>)
    ensures
        s.run(steps).at(s.cur).current() == s.current(),
        s.run(steps).at(s.cur) == s.in_state(s.run(steps).state),
        s.run(steps).state == s.state ==> s.run(steps).at(s.cur) == s,
{
    lemma_run_keeps_units(s, steps);
}

/// A cursor that fits the stream still fits after an operation, as long as
/// the operation does not go back to a cursor that does not fit.
pub proof fn lemma_step_keeps_alignment(s: LexerView, step: Step)
    requires
        s.aligned(),
        rewind_fits(s.units, step),
    ensures
        s.step(step).aligned(),
{
    lemma_skip_blanks_stops(s, true);
    lemma_skip_blanks_stops(s, false);
    lemma_skip_blanks_stops(s.advance(), true);
    lemma_skip_blanks_passes_blanks_only(s, true);
    lemma_skip_blanks_passes_blanks_only(s, false);
    lemma_skip_blanks_passes_blanks_only(s.advance(), true);
}

/// Every state reached from one whose cursor fits the stream has a cursor
/// that fits: the lexer shows half of a unit only where the unit is `>>`.
pub proof fn lemma_run_keeps_alignment(s: LexerView, steps: Seq<Step>)
    requires
        s.aligned(),
        forall|i: int| 0 <= i < steps.len() ==> rewind_fits(s.units, #[trigger] steps[i]),
    ensures
        s.run(steps).aligned(),
    decreases steps.len(),
{
    if steps.len() > 0 {
        let before = steps.drop_last();
        assert forall|i: int| 0 <= i < before.len() implies rewind_fits(
            s.units,
            #[trigger] before[i],
        ) by {
            assert(before[i] == steps[i]);
        }
        lemma_run_keeps_alignment(s, before);
        lemma_run_keeps_units(s, before);
        lemma_step_keeps_alignment(s.run(before), steps.last());
    }
}

/// A change of mode does not touch the current token; it shows from the next
/// token on.
pub proof fn lemma_mode_is_not_retroactive(s: LexerView, state: LexerState)
    ensures
        s.in_state(state).current() == s.current(),
        s.in_state(state).cur == s.cur,
{
}

/// What `peek_next_token` shows is what `consume_token` makes current, as long
/// as the mode is not changed in between.
pub proof fn lemma_peek_is_next_current(s: LexerView)
    ensures
        s.peek() == s.advance().current(),
{
}

/// The end of the input is final: consuming there changes nothing.
pub proof fn lemma_eof_is_final(s: LexerView)
    requires
        s.current() == TokenView::Eof,
    ensures
        s.advance() == s,
        s.peek() == TokenView::Eof,
        s.skip_blanks(true) == s,
        s.skip_blanks(false) == s,
        s.pass_separator() == s,
{
}

} // verus!
