use rune_core::decl_struct::{DeclStruct, DeclStructBody, StructBody, TupleBody};
use rune_core::parser::{ParseError, Parser};
use rune_core::span::Span;
use rune_core::token::{Delimiter, Kind, Token};

fn tok(kind: Kind, at: usize) -> Token {
    Token { kind, span: Span::new(at, at + 1) }
}

fn parser_of(kinds: &[Kind]) -> Parser {
    let tokens: Vec<Token> = kinds.iter().enumerate().map(|(i, k)| tok(*k, i)).collect();
    Parser::new(tokens)
}

fn open_paren() -> Kind {
    Kind::Open(Delimiter::Parenthesis)
}

fn close_paren() -> Kind {
    Kind::Close(Delimiter::Parenthesis)
}

fn open_brace() -> Kind {
    Kind::Open(Delimiter::Brace)
}

fn close_brace() -> Kind {
    Kind::Close(Delimiter::Brace)
}

#[test]
fn empty_body_after_keyword_and_ident() {
    let mut p = parser_of(&[Kind::Struct, Kind::Ident]);
    let decl = DeclStruct::parse(&mut p).unwrap();
    assert!(matches!(decl.body, DeclStructBody::EmptyBody(_)));
    assert!(decl.needs_semi_colon());
    assert_eq!(decl.span(), Span::new(0, 2), "keyword and identifier spans joined");
    assert_eq!(p.pos, 2);
}

#[test]
fn empty_body_before_statement_terminator() {
    let mut p = parser_of(&[Kind::Struct, Kind::Ident, Kind::Semi]);
    let decl = DeclStruct::parse(&mut p).unwrap();
    assert!(matches!(decl.body, DeclStructBody::EmptyBody(_)));
    assert_eq!(p.pos, 2, "the empty body consumes no tokens");
}

#[test]
fn tuple_body_with_three_fields() {
    let mut p = parser_of(&[
        Kind::Struct,
        Kind::Ident,
        open_paren(),
        Kind::Ident,
        Kind::Comma,
        Kind::Ident,
        Kind::Comma,
        Kind::Ident,
        close_paren(),
    ]);
    let decl = DeclStruct::parse(&mut p).unwrap();
    match &decl.body {
        DeclStructBody::TupleBody(body) => {
            assert_eq!(body.fields.len(), 3);
            assert!(body.fields[0].1.is_some());
            assert!(body.fields[1].1.is_some());
            assert!(body.fields[2].1.is_none());
            assert_eq!(body.span(), Span::new(2, 9));
        },
        other => panic!("expected a tuple body, got {:?}", other),
    }
    assert!(!decl.needs_semi_colon());
    assert_eq!(decl.span(), Span::new(0, 9));
}

#[test]
fn named_body_with_three_fields() {
    let mut p = parser_of(&[
        Kind::Struct,
        Kind::Ident,
        open_brace(),
        Kind::Ident,
        Kind::Comma,
        Kind::Ident,
        Kind::Comma,
        Kind::Ident,
        close_brace(),
    ]);
    let decl = DeclStruct::parse(&mut p).unwrap();
    match &decl.body {
        DeclStructBody::StructBody(body) => {
            assert_eq!(body.fields.len(), 3);
            assert_eq!(body.span(), Span::new(2, 9));
        },
        other => panic!("expected a named body, got {:?}", other),
    }
    assert!(!decl.needs_semi_colon());
    assert_eq!(decl.span(), Span::new(0, 9));
}

#[test]
fn trailing_comma_yields_one_fewer_field_than_commas() {
    let mut p = parser_of(&[open_paren(), Kind::Ident, Kind::Comma, Kind::Ident, Kind::Comma,
        close_paren()]);
    let body = TupleBody::parse(&mut p).unwrap();
    assert_eq!(body.fields.len(), 2);
    assert!(body.fields[0].1.is_some());
    assert!(body.fields[1].1.is_some());
    assert_eq!(p.pos, 6);
}

#[test]
fn empty_delimited_bodies_have_no_fields() {
    let mut p = parser_of(&[open_paren(), close_paren()]);
    assert_eq!(TupleBody::parse(&mut p).unwrap().fields.len(), 0);
    let mut p = parser_of(&[open_brace(), close_brace()]);
    assert_eq!(StructBody::parse(&mut p).unwrap().fields.len(), 0);
}

#[test]
fn body_kind_follows_one_token_of_lookahead() {
    let mut p = parser_of(&[open_paren(), Kind::Ident, close_paren()]);
    assert!(matches!(
        DeclStructBody::parse(&mut p).unwrap(),
        DeclStructBody::TupleBody(_)
    ));
    let mut p = parser_of(&[open_brace(), Kind::Ident, close_brace()]);
    assert!(matches!(
        DeclStructBody::parse(&mut p).unwrap(),
        DeclStructBody::StructBody(_)
    ));
    let mut p = parser_of(&[]);
    assert!(matches!(
        DeclStructBody::parse(&mut p).unwrap(),
        DeclStructBody::EmptyBody(_)
    ));
}

#[test]
fn missing_comma_forces_body_closure() {
    let mut p = parser_of(&[open_paren(), Kind::Ident, Kind::Ident, close_paren()]);
    let err = TupleBody::parse(&mut p).unwrap_err();
    assert_eq!(
        err,
        ParseError::UnexpectedToken { expected: close_paren(), actual: tok(Kind::Ident, 2) }
    );
}

#[test]
fn unclosed_body_reports_end_of_stream() {
    let mut p = parser_of(&[open_paren(), Kind::Ident]);
    let err = TupleBody::parse(&mut p).unwrap_err();
    assert_eq!(err, ParseError::UnexpectedEnd { expected: close_paren() });
}

#[test]
fn dangling_separator_reports_missing_field() {
    let mut p = parser_of(&[open_paren(), Kind::Ident, Kind::Comma]);
    let err = TupleBody::parse(&mut p).unwrap_err();
    assert_eq!(err, ParseError::UnexpectedEnd { expected: Kind::Ident });
}

#[test]
fn malformed_field_reports_the_offending_token() {
    let mut p = parser_of(&[open_brace(), Kind::Comma, close_brace()]);
    let err = StructBody::parse(&mut p).unwrap_err();
    assert_eq!(
        err,
        ParseError::UnexpectedToken { expected: Kind::Ident, actual: tok(Kind::Comma, 1) }
    );
}

#[test]
fn declaration_without_keyword_is_rejected() {
    let mut p = parser_of(&[Kind::Ident]);
    let err = DeclStruct::parse(&mut p).unwrap_err();
    assert_eq!(
        err,
        ParseError::UnexpectedToken { expected: Kind::Struct, actual: tok(Kind::Ident, 0) }
    );
    let mut p = parser_of(&[]);
    let err = DeclStruct::parse(&mut p).unwrap_err();
    assert_eq!(err, ParseError::UnexpectedEnd { expected: Kind::Struct });
}

#[test]
fn declaration_keeps_its_constituent_tokens() {
    let mut p = parser_of(&[Kind::Struct, Kind::Ident, open_paren(), Kind::Ident, close_paren()]);
    let decl = DeclStruct::parse(&mut p).unwrap();
    assert_eq!(decl.struct_.token, tok(Kind::Struct, 0));
    assert_eq!(decl.ident.token, tok(Kind::Ident, 1));
    match &decl.body {
        DeclStructBody::TupleBody(body) => {
            assert_eq!(body.open.token, tok(open_paren(), 2));
            assert_eq!(body.fields[0].0.token, tok(Kind::Ident, 3));
            assert_eq!(body.close.token, tok(close_paren(), 4));
        },
        other => panic!("expected a tuple body, got {:?}", other),
    }
}
