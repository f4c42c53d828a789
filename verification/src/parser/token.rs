//! Tokens and their mathematical view.

use vstd::prelude::*;

verus! {

/// One classified unit of lexical input.
#[derive(Debug)]
pub enum Token {
    /// A run of blanks inside a line.
    Space,
    /// A statement boundary: a newline or a semicolon.
    Separator,
    /// The end of the input.
    Eof,
    /// A name, with its text.
    Identifier(String),
    LParen,
    RParen,
    Comma,
    LessThan,
    GreaterThan,
    /// The composite symbol `>>`.
    RShift,
}

/// A [`Token`] as the contracts see it: the same variants, with text as a
/// sequence of characters.
pub enum TokenView {
    Space,
    Separator,
    Eof,
    Identifier(Seq<char>),
    LParen,
    RParen,
    Comma,
    LessThan,
    GreaterThan,
    RShift,
}

impl View for Token {
    type V = TokenView;

    open spec fn view(&self) -> TokenView {
        match self {
            Token::Space => TokenView::Space,
            Token::Separator => TokenView::Separator,
            Token::Eof => TokenView::Eof,
            Token::Identifier(text) => TokenView::Identifier(text@),
            Token::LParen => TokenView::LParen,
            Token::RParen => TokenView::RParen,
            Token::Comma => TokenView::Comma,
            Token::LessThan => TokenView::LessThan,
            Token::GreaterThan => TokenView::GreaterThan,
            Token::RShift => TokenView::RShift,
        }
    }
}

impl Clone for Token {
    fn clone(&self) -> (copy: Token)
        ensures
            copy == *self,
    {
        match self {
            Token::Space => Token::Space,
            Token::Separator => Token::Separator,
            Token::Eof => Token::Eof,
            Token::Identifier(text) => Token::Identifier(text.clone()),
            Token::LParen => Token::LParen,
            Token::RParen => Token::RParen,
            Token::Comma => Token::Comma,
            Token::LessThan => Token::LessThan,
            Token::GreaterThan => Token::GreaterThan,
            Token::RShift => Token::RShift,
        }
    }
}

impl PartialEq for Token {
    fn eq(&self, other: &Token) -> (same: bool) {
        match (self, other) {
            (Token::Space, Token::Space) => true,
            (Token::Separator, Token::Separator) => true,
            (Token::Eof, Token::Eof) => true,
            (Token::Identifier(a), Token::Identifier(b)) => *a == *b,
            (Token::LParen, Token::LParen) => true,
            (Token::RParen, Token::RParen) => true,
            (Token::Comma, Token::Comma) => true,
            (Token::LessThan, Token::LessThan) => true,
            (Token::GreaterThan, Token::GreaterThan) => true,
            (Token::RShift, Token::RShift) => true,
            _ => false,
        }
    }
}

impl Eq for Token {}

impl vstd::std_specs::cmp::PartialEqSpecImpl for Token {
    open spec fn obeys_eq_spec() -> bool {
        true
    }

    open spec fn eq_spec(&self, other: &Token) -> bool {
        self@ == other@
    }
}

/// The text that `Debug` formatting gives for a string made of the characters
/// `text`: the characters between double quotes, with the escapes of a Rust
/// string literal.
pub uninterp spec fn debug_quoted(text: Seq<char>) -> Seq<char>;

/// Formats `text` with std's `<str as Debug>::fmt`, reached through
/// `format!("{:?}", ..)`. Trusted: the result is a function of the characters of
/// `text` alone, and [`debug_quoted`] is the name of that function. Nothing is
/// claimed of which characters are escaped.
#[verifier::external_body]
fn debug_quote(text: &str) -> (quoted: String)
    ensures
        quoted@ == debug_quoted(text@),
{
    format!("{:?}", text)
}

/// The text of a variant with one field: the name, then the field in round
/// brackets.
pub open spec fn tagged_text(name: Seq<char>, payload: Seq<char>) -> Seq<char> {
    name + "("@ + payload + ")"@
}

/// Renders a variant called `name` whose one field is already rendered as
/// `payload`.
pub fn tagged(name: &str, payload: &str) -> (text: String)
    ensures
        text@ == tagged_text(name@, payload@),
{
    let mut text = String::from_str(name);
    text.append("(");
    text.append(payload);
    text.append(")");
    text
}

impl TokenView {
    /// The name of the variant.
    pub open spec fn name(self) -> Seq<char> {
        match self {
            TokenView::Space => "Space"@,
            TokenView::Separator => "Separator"@,
            TokenView::Eof => "Eof"@,
            TokenView::Identifier(_) => "Identifier"@,
            TokenView::LParen => "LParen"@,
            TokenView::RParen => "RParen"@,
            TokenView::Comma => "Comma"@,
            TokenView::LessThan => "LessThan"@,
            TokenView::GreaterThan => "GreaterThan"@,
            TokenView::RShift => "RShift"@,
        }
    }

    /// How the token reads in a diagnostic: its name, followed for an
    /// identifier by the quoted text in round brackets.
    pub open spec fn description(self) -> Seq<char> {
        match self {
            TokenView::Identifier(text) => tagged_text(self.name(), debug_quoted(text)),
            _ => self.name(),
        }
    }
}

impl Token {
    /// The name of the variant.
    pub fn name(&self) -> (name: &'static str)
        ensures
            name@ == self@.name(),
    {
        match self {
            Token::Space => "Space",
            Token::Separator => "Separator",
            Token::Eof => "Eof",
            Token::Identifier(_) => "Identifier",
            Token::LParen => "LParen",
            Token::RParen => "RParen",
            Token::Comma => "Comma",
            Token::LessThan => "LessThan",
            Token::GreaterThan => "GreaterThan",
            Token::RShift => "RShift",
        }
    }

    /// The token as it reads in a diagnostic.
    pub fn describe(&self) -> (text: String)
        ensures
            text@ == self@.description(),
    {
        match self {
            Token::Identifier(text) => {
                let quoted = debug_quote(text.as_str());
                tagged(self.name(), quoted.as_str())
            },
            _ => String::from_str(self.name()),
        }
    }
}

} // verus!
