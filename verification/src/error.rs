//! The error that a failed navigation step hands back.

use vstd::prelude::*;
use crate::parser::lexer::{Cursor, CursorView};
use crate::parser::token::{Token, TokenView};

verus! {

/// `backtrace::Backtrace`: a captured call stack. It is carried in an
/// [`Error`] for whoever debugs a grammar; the proofs see nothing inside it.
#[verifier::external_type_specification]
#[verifier::external_body]
pub struct ExBacktrace(backtrace::Backtrace);

/// Calls `backtrace::Backtrace::new`, which walks the stack of the calling
/// thread and resolves the frames to symbols. Trusted: nothing is claimed of
/// what is captured, which depends on the caller and on the machine.
#[verifier::external_body]
fn capture_backtrace() -> (trace: backtrace::Backtrace) {
    backtrace::Backtrace::new()
}

/// What kind of failure an [`Error`] reports, and where it happened.
#[derive(Debug)]
pub enum ErrorDetails {
    /// A failure that the message alone describes.
    ParseError { location: Cursor },
    /// The current token was not the one required.
    TokenMismatch { location: Cursor, expected: Token, actual: Token },
}

/// [`ErrorDetails`] as the contracts see them.
pub enum ErrorDetailsView {
    ParseError { location: CursorView },
    TokenMismatch { location: CursorView, expected: TokenView, actual: TokenView },
}

impl View for ErrorDetails {
    type V = ErrorDetailsView;

    open spec fn view(&self) -> ErrorDetailsView {
        match self {
            ErrorDetails::ParseError { location } => ErrorDetailsView::ParseError {
                location: location@,
            },
            ErrorDetails::TokenMismatch {
                location,
                expected,
                actual,
            } => ErrorDetailsView::TokenMismatch {
                location: location@,
                expected: expected@,
                actual: actual@,
            },
        }
    }
}

impl ErrorDetailsView {
    /// Where the failure happened.
    pub open spec fn location(self) -> CursorView {
        match self {
            ErrorDetailsView::ParseError { location } => location,
            ErrorDetailsView::TokenMismatch { location, .. } => location,
        }
    }
}

/// A failed navigation step. It is made once, where the failure is found, and
/// handed up unchanged.
#[derive(Debug)]
pub struct Error {
    /// The failure in words.
    pub msg: String,
    /// The call stack at the point of failure.
    pub backtrace: backtrace::Backtrace,
    pub details: ErrorDetails,
    /// The error that led to this one, if any.
    pub source: Option<Box<Error>>,
}

/// The message of a mismatch: what was required, then what was found.
pub open spec fn mismatch_text(wanted: Seq<char>, found: Seq<char>) -> Seq<char> {
    "expected "@ + wanted + " but got "@ + found
}

/// Builds the message of a mismatch from the two descriptions.
pub fn mismatch_message(wanted: &str, found: &str) -> (msg: String)
    ensures
        msg@ == mismatch_text(wanted@, found@),
{
    let mut msg = String::from_str("expected ");
    msg.append(wanted);
    msg.append(" but got ");
    msg.append(found);
    msg
}

impl Error {
    /// Whether this is the error of a failure at `location` that `msg`
    /// describes: that message, those details, no source.
    pub open spec fn reports_failure(&self, location: CursorView, msg: Seq<char>) -> bool {
        &&& self.msg@ == msg
        &&& self.details@ == ErrorDetailsView::ParseError { location }
        &&& self.source is None
    }

    /// Whether this is the error of a mismatch at `location`: `actual` found
    /// where `expected` was required, which the message calls `wanted`.
    pub open spec fn reports_mismatch(
        &self,
        location: CursorView,
        expected: TokenView,
        actual: TokenView,
        wanted: Seq<char>,
    ) -> bool {
        &&& self.msg@ == mismatch_text(wanted, actual.description())
        &&& self.details@ == ErrorDetailsView::TokenMismatch { location, expected, actual }
        &&& self.source is None
    }

    /// An error made of the given parts, with no source.
    pub fn new(msg: String, details: ErrorDetails, backtrace: backtrace::Backtrace) -> (error:
        Error)
        ensures
            error.msg == msg,
            error.details == details,
            error.backtrace == backtrace,
            error.source is None,
    {
        Error { msg, backtrace, details, source: None }
    }

    /// An error at `location` that `msg` describes, with the call stack of
    /// the caller.
    pub fn parse_error(msg: &str, location: Cursor) -> (error: Error)
        ensures
            error.reports_failure(location@, msg@),
    {
        Error::new(
            String::from_str(msg),
            ErrorDetails::ParseError { location },
            capture_backtrace(),
        )
    }

    /// An error at `location` for the token `actual` found where `expected`
    /// was required, with the call stack of the caller. `wanted` is how the
    /// message calls the required token.
    pub fn token_mismatch(location: Cursor, expected: Token, actual: Token, wanted: &str) -> (error:
        Error)
        ensures
            error.reports_mismatch(location@, expected@, actual@, wanted@),
    {
        let found = actual.describe();
        Error::new(
            mismatch_message(wanted, found.as_str()),
            ErrorDetails::TokenMismatch { location, expected, actual },
            capture_backtrace(),
        )
    }

    /// Where the failure happened.
    pub fn location(&self) -> (location: Cursor)
        ensures
            location@ == self.details@.location(),
    {
        match &self.details {
            ErrorDetails::ParseError { location } => *location,
            ErrorDetails::TokenMismatch { location, .. } => *location,
        }
    }
}

} // verus!
