//! A cursor over a token stream with peek-without-consume and
//! consume-one-token operations, the base every grammar production is built
//! from.

use vstd::prelude::*;
use crate::token::{Kind, Token};

verus! {

/// A parse failure. Every failure names the construct that was expected; when
/// a token was present but of the wrong kind it is carried whole, so its span
/// can be reported.
#[derive(Debug, Clone, Copy, PartialEq, Eq, Structural)]
pub enum ParseError {
    /// The stream ended where a token of kind `expected` was required.
    UnexpectedEnd {
        /// The kind of token that was required.
        expected: Kind,
    },
    /// The next token was `actual`, not of the required kind `expected`.
    UnexpectedToken {
        /// The kind of token that was required.
        expected: Kind,
        /// The token actually found, with its span.
        actual: Token,
    },
}

/// The failure that consuming one token of kind `kind` at position `pos` of
/// `tokens` reports: the end of the stream, or the offending token found
/// instead.
pub open spec fn expect_err_at(tokens: Seq<Token>, pos: int, kind: Kind) -> ParseError {
    if pos >= tokens.len() {
        ParseError::UnexpectedEnd { expected: kind }
    } else {
        ParseError::UnexpectedToken { expected: kind, actual: tokens[pos] }
    }
}

/// A parser: a token stream and a cursor into it. A successful parse of a
/// grammar production consumes exactly the production's tokens and leaves the
/// cursor immediately after them; a failed parse abandons the stream and
/// leaves the cursor wherever the failure was found.
#[derive(Debug, Clone)]
pub struct Parser {
    /// The tokens being parsed.
    pub tokens: Vec<Token>,
    /// The cursor: index of the next token to consume.
    pub pos: usize,
}

impl Parser {
    /// The cursor never moves past the end of the stream.
    pub open spec fn wf(self) -> bool {
        self.pos <= self.tokens@.len()
    }

    /// The token the cursor stands on, if any.
    pub open spec fn peek_spec(self) -> Option<Token> {
        if self.pos < self.tokens@.len() {
            Some(self.tokens@[self.pos as int])
        } else {
            None
        }
    }

    /// Whether consuming one token of kind `kind` succeeds here.
    pub open spec fn expect_ok(self, kind: Kind) -> bool {
        self.pos < self.tokens@.len() && self.tokens@[self.pos as int].kind == kind
    }

    /// The failure that consuming one token of kind `kind` reports here:
    /// the end of the stream, or the offending token found instead.
    pub open spec fn expect_err(self, kind: Kind) -> ParseError {
        expect_err_at(self.tokens@, self.pos as int, kind)
    }

    /// Construct a parser positioned at the first token.
    pub fn new(tokens: Vec<Token>) -> (r: Parser)
        ensures
            r.tokens@ == tokens@,
            r.pos == 0,
            r.wf(),
    {
        Parser { tokens, pos: 0 }
    }

    /// Look at the next token without consuming it.
    pub fn token_peek(&self) -> (r: Option<Token>)
        ensures
            r == self.peek_spec(),
    {
        if self.pos < self.tokens.len() {
            Some(self.tokens[self.pos])
        } else {
            None
        }
    }

    /// Whether the next token exists and has the given kind.
    pub fn peek_is(&self, kind: Kind) -> (r: bool)
        ensures
            r == (self.pos < self.tokens@.len() && self.tokens@[self.pos as int].kind == kind),
    {
        if self.pos < self.tokens.len() {
            self.tokens[self.pos].kind == kind
        } else {
            false
        }
    }

    /// Consume the next token, which must have the given kind. On success the
    /// cursor advances by exactly one token; on failure it does not move.
    pub fn expect(&mut self, kind: Kind) -> (r: Result<Token, ParseError>)
        requires
            old(self).wf(),
        ensures
            final(self).wf(),
            final(self).tokens@ == old(self).tokens@,
            match r {
                Ok(t) => {
                    &&& old(self).expect_ok(kind)
                    &&& t == old(self).tokens@[old(self).pos as int]
                    &&& t.kind == kind
                    &&& final(self).pos == old(self).pos + 1
                },
                Err(e) => {
                    &&& !old(self).expect_ok(kind)
                    &&& e == old(self).expect_err(kind)
                    &&& final(self).pos == old(self).pos
                },
            },
    {
        if self.pos < self.tokens.len() {
            let t = self.tokens[self.pos];
            if t.kind == kind {
                self.pos = self.pos + 1;
                Ok(t)
            } else {
                Err(ParseError::UnexpectedToken { expected: kind, actual: t })
            }
        } else {
            Err(ParseError::UnexpectedEnd { expected: kind })
        }
    }
}

} // verus!
