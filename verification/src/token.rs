//! The token vocabulary the parser consumes. The lexer that produces tokens
//! is an external collaborator; the parser only relies on each token's kind
//! and span.

use vstd::prelude::*;
use crate::span::Span;

verus! {

/// A paired delimiter kind.
#[derive(Debug, Clone, Copy, PartialEq, Eq, Structural)]
pub enum Delimiter {
    /// `(` and `)`.
    Parenthesis,
    /// `{` and `}`.
    Brace,
}

/// The kind of a lexed token.
#[derive(Debug, Clone, Copy, PartialEq, Eq, Structural)]
pub enum Kind {
    /// The `struct` keyword.
    Struct,
    /// An identifier.
    Ident,
    /// A `,` separator.
    Comma,
    /// A `;` statement terminator.
    Semi,
    /// An opening delimiter.
    Open(Delimiter),
    /// A closing delimiter.
    Close(Delimiter),
}

/// One lexed token: a kind and the source range it covers.
#[derive(Debug, Clone, Copy, PartialEq, Eq, Structural)]
pub struct Token {
    /// What the token is.
    pub kind: Kind,
    /// The source range the token covers.
    pub span: Span,
}

} // verus!
