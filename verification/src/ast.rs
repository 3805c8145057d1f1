//! Single-token syntax-tree nodes: keywords, identifiers and delimiters.
//! Each owns the token it was parsed from, so composite nodes can compute
//! their span from their first and last constituent token.

use vstd::prelude::*;
use crate::parser::{ParseError, Parser};
use crate::span::Span;
use crate::token::{Delimiter, Kind, Token};

verus! {

/// The `struct` keyword.
#[derive(Debug, Clone, Copy, PartialEq, Eq, Structural)]
pub struct Struct {
    /// The keyword token.
    pub token: Token,
}

impl Struct {
    /// The node holds a token of its own kind.
    pub open spec fn wf(self) -> bool {
        self.token.kind == Kind::Struct
    }

    /// The source range of the keyword.
    pub fn span(&self) -> (r: Span)
        ensures
            r == self.token.span,
    {
        self.token.span
    }

    /// Consume one `struct` keyword token.
    pub fn parse(p: &mut Parser) -> (r: Result<Struct, ParseError>)
        requires
            old(p).wf(),
        ensures
            final(p).wf(),
            final(p).tokens@ == old(p).tokens@,
            match r {
                Ok(n) => {
                    &&& old(p).expect_ok(Kind::Struct)
                    &&& n.token == old(p).tokens@[old(p).pos as int]
                    &&& n.wf()
                    &&& final(p).pos == old(p).pos + 1
                },
                Err(e) => {
                    &&& !old(p).expect_ok(Kind::Struct)
                    &&& e == old(p).expect_err(Kind::Struct)
                    &&& final(p).pos == old(p).pos
                },
            },
    {
        match p.expect(Kind::Struct) {
            Ok(t) => Ok(Struct { token: t }),
            Err(e) => Err(e),
        }
    }
}

/// An identifier.
#[derive(Debug, Clone, Copy, PartialEq, Eq, Structural)]
pub struct Ident {
    /// The identifier token.
    pub token: Token,
}

impl Ident {
    /// The node holds a token of its own kind.
    pub open spec fn wf(self) -> bool {
        self.token.kind == Kind::Ident
    }

    /// The source range of the identifier.
    pub fn span(&self) -> (r: Span)
        ensures
            r == self.token.span,
    {
        self.token.span
    }

    /// Consume one identifier token.
    pub fn parse(p: &mut Parser) -> (r: Result<Ident, ParseError>)
        requires
            old(p).wf(),
        ensures
            final(p).wf(),
            final(p).tokens@ == old(p).tokens@,
            match r {
                Ok(n) => {
                    &&& old(p).expect_ok(Kind::Ident)
                    &&& n.token == old(p).tokens@[old(p).pos as int]
                    &&& n.wf()
                    &&& final(p).pos == old(p).pos + 1
                },
                Err(e) => {
                    &&& !old(p).expect_ok(Kind::Ident)
                    &&& e == old(p).expect_err(Kind::Ident)
                    &&& final(p).pos == old(p).pos
                },
            },
    {
        match p.expect(Kind::Ident) {
            Ok(t) => Ok(Ident { token: t }),
            Err(e) => Err(e),
        }
    }
}

/// A `,` separator.
#[derive(Debug, Clone, Copy, PartialEq, Eq, Structural)]
pub struct Comma {
    /// The separator token.
    pub token: Token,
}

impl Comma {
    /// The node holds a token of its own kind.
    pub open spec fn wf(self) -> bool {
        self.token.kind == Kind::Comma
    }

    /// The source range of the separator.
    pub fn span(&self) -> (r: Span)
        ensures
            r == self.token.span,
    {
        self.token.span
    }

    /// Consume one `,` token.
    pub fn parse(p: &mut Parser) -> (r: Result<Comma, ParseError>)
        requires
            old(p).wf(),
        ensures
            final(p).wf(),
            final(p).tokens@ == old(p).tokens@,
            match r {
                Ok(n) => {
                    &&& old(p).expect_ok(Kind::Comma)
                    &&& n.token == old(p).tokens@[old(p).pos as int]
                    &&& n.wf()
                    &&& final(p).pos == old(p).pos + 1
                },
                Err(e) => {
                    &&& !old(p).expect_ok(Kind::Comma)
                    &&& e == old(p).expect_err(Kind::Comma)
                    &&& final(p).pos == old(p).pos
                },
            },
    {
        match p.expect(Kind::Comma) {
            Ok(t) => Ok(Comma { token: t }),
            Err(e) => Err(e),
        }
    }
}

/// An opening parenthesis.
#[derive(Debug, Clone, Copy, PartialEq, Eq, Structural)]
pub struct OpenParen {
    /// The delimiter token.
    pub token: Token,
}

impl OpenParen {
    /// The node holds a token of its own kind.
    pub open spec fn wf(self) -> bool {
        self.token.kind == Kind::Open(Delimiter::Parenthesis)
    }

    /// The source range of the delimiter.
    pub fn span(&self) -> (r: Span)
        ensures
            r == self.token.span,
    {
        self.token.span
    }

    /// Consume one `(` token.
    pub fn parse(p: &mut Parser) -> (r: Result<OpenParen, ParseError>)
        requires
            old(p).wf(),
        ensures
            final(p).wf(),
            final(p).tokens@ == old(p).tokens@,
            match r {
                Ok(n) => {
                    &&& old(p).expect_ok(Kind::Open(Delimiter::Parenthesis))
                    &&& n.token == old(p).tokens@[old(p).pos as int]
                    &&& n.wf()
                    &&& final(p).pos == old(p).pos + 1
                },
                Err(e) => {
                    &&& !old(p).expect_ok(Kind::Open(Delimiter::Parenthesis))
                    &&& e == old(p).expect_err(Kind::Open(Delimiter::Parenthesis))
                    &&& final(p).pos == old(p).pos
                },
            },
    {
        match p.expect(Kind::Open(Delimiter::Parenthesis)) {
            Ok(t) => Ok(OpenParen { token: t }),
            Err(e) => Err(e),
        }
    }
}

/// A closing parenthesis.
#[derive(Debug, Clone, Copy, PartialEq, Eq, Structural)]
pub struct CloseParen {
    /// The delimiter token.
    pub token: Token,
}

impl CloseParen {
    /// The node holds a token of its own kind.
    pub open spec fn wf(self) -> bool {
        self.token.kind == Kind::Close(Delimiter::Parenthesis)
    }

    /// The source range of the delimiter.
    pub fn span(&self) -> (r: Span)
        ensures
            r == self.token.span,
    {
        self.token.span
    }

    /// Consume one `)` token.
    pub fn parse(p: &mut Parser) -> (r: Result<CloseParen, ParseError>)
        requires
            old(p).wf(),
        ensures
            final(p).wf(),
            final(p).tokens@ == old(p).tokens@,
            match r {
                Ok(n) => {
                    &&& old(p).expect_ok(Kind::Close(Delimiter::Parenthesis))
                    &&& n.token == old(p).tokens@[old(p).pos as int]
                    &&& n.wf()
                    &&& final(p).pos == old(p).pos + 1
                },
                Err(e) => {
                    &&& !old(p).expect_ok(Kind::Close(Delimiter::Parenthesis))
                    &&& e == old(p).expect_err(Kind::Close(Delimiter::Parenthesis))
                    &&& final(p).pos == old(p).pos
                },
            },
    {
        match p.expect(Kind::Close(Delimiter::Parenthesis)) {
            Ok(t) => Ok(CloseParen { token: t }),
            Err(e) => Err(e),
        }
    }
}

/// An opening brace.
#[derive(Debug, Clone, Copy, PartialEq, Eq, Structural)]
pub struct OpenBrace {
    /// The delimiter token.
    pub token: Token,
}

impl OpenBrace {
    /// The node holds a token of its own kind.
    pub open spec fn wf(self) -> bool {
        self.token.kind == Kind::Open(Delimiter::Brace)
    }

    /// The source range of the delimiter.
    pub fn span(&self) -> (r: Span)
        ensures
            r == self.token.span,
    {
        self.token.span
    }

    /// Consume one `{` token.
    pub fn parse(p: &mut Parser) -> (r: Result<OpenBrace, ParseError>)
        requires
            old(p).wf(),
        ensures
            final(p).wf(),
            final(p).tokens@ == old(p).tokens@,
            match r {
                Ok(n) => {
                    &&& old(p).expect_ok(Kind::Open(Delimiter::Brace))
                    &&& n.token == old(p).tokens@[old(p).pos as int]
                    &&& n.wf()
                    &&& final(p).pos == old(p).pos + 1
                },
                Err(e) => {
                    &&& !old(p).expect_ok(Kind::Open(Delimiter::Brace))
                    &&& e == old(p).expect_err(Kind::Open(Delimiter::Brace))
                    &&& final(p).pos == old(p).pos
                },
            },
    {
        match p.expect(Kind::Open(Delimiter::Brace)) {
            Ok(t) => Ok(OpenBrace { token: t }),
            Err(e) => Err(e),
        }
    }
}

/// A closing brace.
#[derive(Debug, Clone, Copy, PartialEq, Eq, Structural)]
pub struct CloseBrace {
    /// The delimiter token.
    pub token: Token,
}

impl CloseBrace {
    /// The node holds a token of its own kind.
    pub open spec fn wf(self) -> bool {
        self.token.kind == Kind::Close(Delimiter::Brace)
    }

    /// The source range of the delimiter.
    pub fn span(&self) -> (r: Span)
        ensures
            r == self.token.span,
    {
        self.token.span
    }

    /// Consume one `}` token.
    pub fn parse(p: &mut Parser) -> (r: Result<CloseBrace, ParseError>)
        requires
            old(p).wf(),
        ensures
            final(p).wf(),
            final(p).tokens@ == old(p).tokens@,
            match r {
                Ok(n) => {
                    &&& old(p).expect_ok(Kind::Close(Delimiter::Brace))
                    &&& n.token == old(p).tokens@[old(p).pos as int]
                    &&& n.wf()
                    &&& final(p).pos == old(p).pos + 1
                },
                Err(e) => {
                    &&& !old(p).expect_ok(Kind::Close(Delimiter::Brace))
                    &&& e == old(p).expect_err(Kind::Close(Delimiter::Brace))
                    &&& final(p).pos == old(p).pos
                },
            },
    {
        match p.expect(Kind::Close(Delimiter::Brace)) {
            Ok(t) => Ok(CloseBrace { token: t }),
            Err(e) => Err(e),
        }
    }
}

} // verus!
