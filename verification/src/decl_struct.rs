//! Struct declarations and their bodies. After the keyword and identifier,
//! one token of lookahead chooses among three mutually exclusive body kinds:
//! empty (no payload), tuple-like (parenthesized fields) or named
//! (brace-delimited fields). The grammar of both delimited bodies is the same
//! comma-separated identifier list: a field without a following separator
//! ends the list even when more tokens could syntactically follow, and a
//! trailing separator before the closing delimiter is permitted.

use vstd::prelude::*;
use crate::ast::{CloseBrace, CloseParen, Comma, Ident, OpenBrace, OpenParen, Struct};
use crate::parser::{expect_err_at, ParseError, Parser};
use crate::span::{spec_join, Span};
use crate::token::{Delimiter, Kind, Token};

verus! {

/// The view of one parsed field: the identifier token and, when present, the
/// separator token that followed it.
pub open spec fn field_pair_view(f: (Ident, Option<Comma>)) -> (Token, Option<Token>) {
    (
        f.0.token,
        match f.1 {
            Some(c) => Some(c.token),
            None => None,
        },
    )
}

/// The view of a parsed field list: each field as its tokens.
pub open spec fn fields_view(fs: Seq<(Ident, Option<Comma>)>) -> Seq<(Token, Option<Token>)> {
    fs.map_values(|f: (Ident, Option<Comma>)| field_pair_view(f))
}

/// Every field holds an identifier token, and its separator, when present,
/// holds a separator token.
pub open spec fn fields_wf(fs: Seq<(Ident, Option<Comma>)>) -> bool {
    forall|i: int|
        0 <= i < fs.len() ==> (#[trigger] fs[i]).0.wf() && match fs[i].1 {
            Some(c) => c.wf(),
            None => true,
        }
}

/// What parsing a comma-separated identifier field list at `pos` yields: the
/// fields and the position of the closing delimiter `close`, or the parse
/// failure. A field without a following separator ends the list, so after
/// such a field only `close` is accepted.
pub open spec fn fields_res(tokens: Seq<Token>, pos: int, close: Kind) -> Result<
    (Seq<(Token, Option<Token>)>, int),
    ParseError,
>
    decreases tokens.len() - pos,
{
    if pos < 0 || pos >= tokens.len() {
        Err(ParseError::UnexpectedEnd { expected: Kind::Ident })
    } else if tokens[pos].kind == close {
        Ok((Seq::empty(), pos))
    } else if tokens[pos].kind != Kind::Ident {
        Err(ParseError::UnexpectedToken { expected: Kind::Ident, actual: tokens[pos] })
    } else if pos + 1 >= tokens.len() {
        Err(ParseError::UnexpectedEnd { expected: close })
    } else if tokens[pos + 1].kind == Kind::Comma {
        match fields_res(tokens, pos + 2, close) {
            Ok(fe) => Ok((seq![(tokens[pos], Some(tokens[pos + 1]))] + fe.0, fe.1)),
            Err(e) => Err(e),
        }
    } else if tokens[pos + 1].kind == close {
        Ok((seq![(tokens[pos], None)], pos + 1))
    } else {
        Err(ParseError::UnexpectedToken { expected: close, actual: tokens[pos + 1] })
    }
}

/// What parsing one delimited struct body at `pos` yields: the fields and the
/// position immediately after the closing delimiter, or the parse failure.
pub open spec fn body_res(tokens: Seq<Token>, pos: int, open: Kind, close: Kind) -> Result<
    (Seq<(Token, Option<Token>)>, int),
    ParseError,
> {
    if pos < 0 || pos >= tokens.len() || tokens[pos].kind != open {
        Err(expect_err_at(tokens, pos, open))
    } else {
        match fields_res(tokens, pos + 1, close) {
            Ok(fe) => Ok((fe.0, fe.1 + 1)),
            Err(e) => Err(e),
        }
    }
}

/// Fields already parsed, prepended to the rest of a field-list parse.
spec fn join_fields(
    acc: Seq<(Token, Option<Token>)>,
    r: Result<(Seq<(Token, Option<Token>)>, int), ParseError>,
) -> Result<(Seq<(Token, Option<Token>)>, int), ParseError> {
    match r {
        Ok(fe) => Ok((acc + fe.0, fe.1)),
        Err(e) => Err(e),
    }
}

/// Parse the comma-separated identifier fields of a delimited struct body, up
/// to but not including the closing delimiter `close`. A field without a
/// following separator ends the list; the caller consumes the closing
/// delimiter afterwards.
pub fn parse_fields(p: &mut Parser, close: Kind) -> (r: Result<
    Vec<(Ident, Option<Comma>)>,
    ParseError,
>)
    requires
        old(p).wf(),
    ensures
        final(p).wf(),
        final(p).tokens@ == old(p).tokens@,
        match r {
            Ok(fields) => {
                &&& fields_wf(fields@)
                &&& if final(p).expect_ok(close) {
                    fields_res(old(p).tokens@, old(p).pos as int, close) matches Ok(fe) && fe.0
                        == fields_view(fields@) && fe.1 == final(p).pos as int
                } else {
                    fields_res(old(p).tokens@, old(p).pos as int, close) matches Err(e2) && e2
                        == expect_err_at(old(p).tokens@, final(p).pos as int, close)
                }
            },
            Err(e) => fields_res(old(p).tokens@, old(p).pos as int, close) matches Err(e2) && e2
                == e,
        },
{
    let ghost toks = p.tokens@;
    let ghost start = p.pos as int;
    let mut fields: Vec<(Ident, Option<Comma>)> = Vec::new();
    proof {
        assert(fields_view(fields@) =~= Seq::<(Token, Option<Token>)>::empty());
        match fields_res(toks, start, close) {
            Ok(fe) => {
                assert(fields_view(fields@) + fe.0 =~= fe.0);
            },
            Err(_) => {},
        }
    }
    loop
        invariant_except_break
            join_fields(fields_view(fields@), fields_res(toks, p.pos as int, close))
                == fields_res(toks, start, close),
        invariant
            toks == old(p).tokens@,
            start == old(p).pos as int,
            p.wf(),
            p.tokens@ == toks,
            start <= p.pos as int,
            fields_wf(fields@),
        ensures
            p.wf(),
            p.tokens@ == toks,
            fields_wf(fields@),
            if p.expect_ok(close) {
                fields_res(toks, start, close) matches Ok(fe) && fe.0 == fields_view(fields@)
                    && fe.1 == p.pos as int
            } else {
                fields_res(toks, start, close) matches Err(e2) && e2 == expect_err_at(
                    toks,
                    p.pos as int,
                    close,
                )
            },
        decreases toks.len() - p.pos,
    {
        let ghost cur = p.pos as int;
        let ghost fields_prev = fields@;
        if p.peek_is(close) {
            proof {
                assert(fields_view(fields@) + Seq::<(Token, Option<Token>)>::empty()
                    =~= fields_view(fields@));
            }
            break;
        }
        let field = match Ident::parse(p) {
            Ok(i) => i,
            Err(e) => {
                return Err(e);
            },
        };
        let comma: Option<Comma> = if p.peek_is(Kind::Comma) {
            match Comma::parse(p) {
                Ok(c) => Some(c),
                Err(e) => {
                    return Err(e);
                },
            }
        } else {
            None
        };
        let done = comma.is_none();
        fields.push((field, comma));
        proof {
            assert(fields@ == fields_prev.push((field, comma)));
            assert(fields_view(fields@) =~= fields_view(fields_prev).push(
                field_pair_view((field, comma)),
            ));
            assert(fields_view(fields_prev) + seq![field_pair_view((field, comma))]
                =~= fields_view(fields@));
            match fields_res(toks, p.pos as int, close) {
                Ok(fe) => {
                    assert(fields_view(fields_prev) + (seq![field_pair_view((field, comma))]
                        + fe.0) =~= fields_view(fields@) + fe.0);
                },
                Err(_) => {},
            }
        }
        if done {
            break;
        }
    }
    Ok(fields)
}

/// A tuple-like struct body: parenthesized, comma-separated fields.
#[derive(Debug, Clone)]
pub struct TupleBody {
    /// The opening parenthesis.
    pub open: OpenParen,
    /// Fields in the body, each with the separator that followed it, if any.
    pub fields: Vec<(Ident, Option<Comma>)>,
    /// The closing parenthesis.
    pub close: CloseParen,
}

impl TupleBody {
    /// Delimiters and fields each hold a token of their own kind.
    pub open spec fn wf(self) -> bool {
        self.open.wf() && self.close.wf() && fields_wf(self.fields@)
    }

    /// The source range of the body: its delimiters joined.
    pub open spec fn spec_span(self) -> Span {
        spec_join(self.open.token.span, self.close.token.span)
    }

    /// Get the span for the tuple body.
    pub fn span(&self) -> (r: Span)
        ensures
            r == self.spec_span(),
    {
        self.open.span().join(self.close.span())
    }

    /// Parse a parenthesized field list.
    pub fn parse(p: &mut Parser) -> (r: Result<TupleBody, ParseError>)
        requires
            old(p).wf(),
        ensures
            final(p).wf(),
            final(p).tokens@ == old(p).tokens@,
            match r {
                Ok(b) => tuple_body_parsed(b, old(p).tokens@, old(p).pos as int, final(p).pos as int),
                Err(e) => body_res(
                    old(p).tokens@,
                    old(p).pos as int,
                    Kind::Open(Delimiter::Parenthesis),
                    Kind::Close(Delimiter::Parenthesis),
                ) matches Err(e2) && e2 == e,
            },
    {
        let open = match OpenParen::parse(p) {
            Ok(o) => o,
            Err(e) => {
                return Err(e);
            },
        };
        let fields = match parse_fields(p, Kind::Close(Delimiter::Parenthesis)) {
            Ok(f) => f,
            Err(e) => {
                return Err(e);
            },
        };
        let close = match CloseParen::parse(p) {
            Ok(c) => c,
            Err(e) => {
                return Err(e);
            },
        };
        Ok(TupleBody { open, fields, close })
    }
}

/// A parsed tuple body covers exactly the tokens from `pos` to `end`, and its
/// delimiters and fields are those tokens.
pub open spec fn tuple_body_parsed(b: TupleBody, tokens: Seq<Token>, pos: int, end: int) -> bool {
    &&& body_res(
        tokens,
        pos,
        Kind::Open(Delimiter::Parenthesis),
        Kind::Close(Delimiter::Parenthesis),
    ) matches Ok(fe) && fe.0 == fields_view(b.fields@) && fe.1 == end
    &&& b.open.token == tokens[pos]
    &&& b.close.token == tokens[end - 1]
    &&& b.wf()
}

/// A named struct body: brace-delimited, comma-separated fields.
#[derive(Debug, Clone)]
pub struct StructBody {
    /// The opening brace.
    pub open: OpenBrace,
    /// Fields in the body, each with the separator that followed it, if any.
    pub fields: Vec<(Ident, Option<Comma>)>,
    /// The closing brace.
    pub close: CloseBrace,
}

impl StructBody {
    /// Delimiters and fields each hold a token of their own kind.
    pub open spec fn wf(self) -> bool {
        self.open.wf() && self.close.wf() && fields_wf(self.fields@)
    }

    /// The source range of the body: its delimiters joined.
    pub open spec fn spec_span(self) -> Span {
        spec_join(self.open.token.span, self.close.token.span)
    }

    /// Get the span for the struct body.
    pub fn span(&self) -> (r: Span)
        ensures
            r == self.spec_span(),
    {
        self.open.span().join(self.close.span())
    }

    /// Parse a brace-delimited field list.
    pub fn parse(p: &mut Parser) -> (r: Result<StructBody, ParseError>)
        requires
            old(p).wf(),
        ensures
            final(p).wf(),
            final(p).tokens@ == old(p).tokens@,
            match r {
                Ok(b) => struct_body_parsed(b, old(p).tokens@, old(p).pos as int, final(p).pos as int),
                Err(e) => body_res(
                    old(p).tokens@,
                    old(p).pos as int,
                    Kind::Open(Delimiter::Brace),
                    Kind::Close(Delimiter::Brace),
                ) matches Err(e2) && e2 == e,
            },
    {
        let open = match OpenBrace::parse(p) {
            Ok(o) => o,
            Err(e) => {
                return Err(e);
            },
        };
        let fields = match parse_fields(p, Kind::Close(Delimiter::Brace)) {
            Ok(f) => f,
            Err(e) => {
                return Err(e);
            },
        };
        let close = match CloseBrace::parse(p) {
            Ok(c) => c,
            Err(e) => {
                return Err(e);
            },
        };
        Ok(StructBody { open, fields, close })
    }
}

/// A parsed named body covers exactly the tokens from `pos` to `end`, and its
/// delimiters and fields are those tokens.
pub open spec fn struct_body_parsed(b: StructBody, tokens: Seq<Token>, pos: int, end: int) -> bool {
    &&& body_res(
        tokens,
        pos,
        Kind::Open(Delimiter::Brace),
        Kind::Close(Delimiter::Brace),
    ) matches Ok(fe) && fe.0 == fields_view(b.fields@) && fe.1 == end
    &&& b.open.token == tokens[pos]
    &&& b.close.token == tokens[end - 1]
    &&& b.wf()
}

/// An empty struct body: no tokens at all.
#[derive(Debug, Clone, Copy, PartialEq, Eq, Structural)]
pub struct EmptyBody {}

impl EmptyBody {
    /// Parse an empty body: consumes nothing and cannot fail.
    pub fn parse(_parser: &mut Parser) -> (r: Result<EmptyBody, ParseError>)
        requires
            old(_parser).wf(),
        ensures
            *final(_parser) == *old(_parser),
            r matches Ok(_),
    {
        Ok(EmptyBody {  })
    }
}

/// The body of a struct declaration: one of three mutually exclusive kinds.
#[derive(Debug, Clone)]
pub enum DeclStructBody {
    /// An empty struct declaration.
    EmptyBody(EmptyBody),
    /// A tuple-like struct body.
    TupleBody(TupleBody),
    /// A named struct body.
    StructBody(StructBody),
}

/// The next token opens a tuple-like body.
pub open spec fn starts_tuple(tokens: Seq<Token>, pos: int) -> bool {
    0 <= pos < tokens.len() && tokens[pos].kind == Kind::Open(Delimiter::Parenthesis)
}

/// The next token opens a named body.
pub open spec fn starts_named(tokens: Seq<Token>, pos: int) -> bool {
    0 <= pos < tokens.len() && tokens[pos].kind == Kind::Open(Delimiter::Brace)
}

/// A parsed body covers exactly the tokens from `pos` to `end`, and its kind
/// is the one the token at `pos` selects: a parenthesis the tuple-like kind,
/// a brace the named kind, anything else (or the end of the stream) the empty
/// kind with no tokens consumed.
pub open spec fn body_parsed(body: DeclStructBody, tokens: Seq<Token>, pos: int, end: int) -> bool {
    match body {
        DeclStructBody::EmptyBody(_) => {
            &&& !starts_tuple(tokens, pos)
            &&& !starts_named(tokens, pos)
            &&& end == pos
        },
        DeclStructBody::TupleBody(b) => tuple_body_parsed(b, tokens, pos, end),
        DeclStructBody::StructBody(b) => struct_body_parsed(b, tokens, pos, end),
    }
}

/// The failure of a body parse at `pos`: the failure of whichever delimited
/// body the token at `pos` selected. The empty body cannot fail.
pub open spec fn body_failed(tokens: Seq<Token>, pos: int, e: ParseError) -> bool {
    ||| starts_tuple(tokens, pos) && (body_res(
        tokens,
        pos,
        Kind::Open(Delimiter::Parenthesis),
        Kind::Close(Delimiter::Parenthesis),
    ) matches Err(e2) && e2 == e)
    ||| starts_named(tokens, pos) && (body_res(
        tokens,
        pos,
        Kind::Open(Delimiter::Brace),
        Kind::Close(Delimiter::Brace),
    ) matches Err(e2) && e2 == e)
}

impl DeclStructBody {
    /// Each kind's payload is well-formed.
    pub open spec fn wf(self) -> bool {
        match self {
            DeclStructBody::EmptyBody(_) => true,
            DeclStructBody::TupleBody(b) => b.wf(),
            DeclStructBody::StructBody(b) => b.wf(),
        }
    }

    /// Parse a struct body. One token of lookahead, without consuming,
    /// chooses the kind; there is no backtracking.
    pub fn parse(p: &mut Parser) -> (r: Result<DeclStructBody, ParseError>)
        requires
            old(p).wf(),
        ensures
            final(p).wf(),
            final(p).tokens@ == old(p).tokens@,
            match r {
                Ok(b) => body_parsed(b, old(p).tokens@, old(p).pos as int, final(p).pos as int),
                Err(e) => body_failed(old(p).tokens@, old(p).pos as int, e),
            },
    {
        let token = p.token_peek();
        match token {
            Some(t) => match t.kind {
                Kind::Open(Delimiter::Parenthesis) => match TupleBody::parse(p) {
                    Ok(b) => Ok(DeclStructBody::TupleBody(b)),
                    Err(e) => Err(e),
                },
                Kind::Open(Delimiter::Brace) => match StructBody::parse(p) {
                    Ok(b) => Ok(DeclStructBody::StructBody(b)),
                    Err(e) => Err(e),
                },
                _ => match EmptyBody::parse(p) {
                    Ok(b) => Ok(DeclStructBody::EmptyBody(b)),
                    Err(e) => Err(e),
                },
            },
            None => match EmptyBody::parse(p) {
                Ok(b) => Ok(DeclStructBody::EmptyBody(b)),
                Err(e) => Err(e),
            },
        }
    }
}

/// A struct declaration: the `struct` keyword, an identifier, and a body.
#[derive(Debug, Clone)]
pub struct DeclStruct {
    /// The `struct` keyword.
    pub struct_: Struct,
    /// The identifier of the struct declaration.
    pub ident: Ident,
    /// The body of the struct.
    pub body: DeclStructBody,
}

impl DeclStruct {
    /// Every part holds tokens of its own kind.
    pub open spec fn wf(self) -> bool {
        self.struct_.wf() && self.ident.wf() && self.body.wf()
    }

    /// The source range of the declaration: the join of its first and last
    /// constituent tokens — the keyword's span joined with the body's, or,
    /// for an empty body, with the identifier's.
    pub open spec fn spec_span(self) -> Span {
        match self.body {
            DeclStructBody::EmptyBody(_) => spec_join(
                self.struct_.token.span,
                self.ident.token.span,
            ),
            DeclStructBody::TupleBody(b) => spec_join(self.struct_.token.span, b.spec_span()),
            DeclStructBody::StructBody(b) => spec_join(self.struct_.token.span, b.spec_span()),
        }
    }

    /// Get the span for the declaration.
    pub fn span(&self) -> (r: Span)
        ensures
            r == self.spec_span(),
    {
        let start = self.struct_.span();
        match &self.body {
            DeclStructBody::EmptyBody(..) => start.join(self.ident.span()),
            DeclStructBody::TupleBody(body) => start.join(body.span()),
            DeclStructBody::StructBody(body) => start.join(body.span()),
        }
    }

    /// Indicates if the declaration needs a semi-colon: only the empty body
    /// is syntactically a statement rather than a self-delimiting block.
    pub fn needs_semi_colon(&self) -> (r: bool)
        ensures
            r == (self.body matches DeclStructBody::EmptyBody(_)),
    {
        matches!(&self.body, DeclStructBody::EmptyBody(..))
    }

    /// Parse a whole struct declaration: keyword, identifier, body.
    pub fn parse(p: &mut Parser) -> (r: Result<DeclStruct, ParseError>)
        requires
            old(p).wf(),
        ensures
            final(p).wf(),
            final(p).tokens@ == old(p).tokens@,
            match r {
                Ok(d) => {
                    &&& old(p).expect_ok(Kind::Struct)
                    &&& d.struct_.token == old(p).tokens@[old(p).pos as int]
                    &&& old(p).pos + 1 < old(p).tokens@.len()
                    &&& old(p).tokens@[old(p).pos + 1].kind == Kind::Ident
                    &&& d.ident.token == old(p).tokens@[old(p).pos + 1]
                    &&& body_parsed(d.body, old(p).tokens@, old(p).pos + 2, final(p).pos as int)
                    &&& d.wf()
                },
                Err(e) => {
                    ||| !old(p).expect_ok(Kind::Struct) && e == old(p).expect_err(Kind::Struct)
                    ||| old(p).expect_ok(Kind::Struct) && !(old(p).pos + 1 < old(p).tokens@.len()
                        && old(p).tokens@[old(p).pos + 1].kind == Kind::Ident) && e
                        == expect_err_at(old(p).tokens@, old(p).pos + 1, Kind::Ident)
                    ||| old(p).expect_ok(Kind::Struct) && old(p).pos + 1 < old(p).tokens@.len()
                        && old(p).tokens@[old(p).pos + 1].kind == Kind::Ident && body_failed(
                        old(p).tokens@,
                        old(p).pos + 2,
                        e,
                    )
                },
            },
    {
        let struct_ = match Struct::parse(p) {
            Ok(s) => s,
            Err(e) => {
                return Err(e);
            },
        };
        let ident = match Ident::parse(p) {
            Ok(i) => i,
            Err(e) => {
                return Err(e);
            },
        };
        let body = match DeclStructBody::parse(p) {
            Ok(b) => b,
            Err(e) => {
                return Err(e);
            },
        };
        Ok(DeclStruct { struct_, ident, body })
    }
}

} // verus!
