//! Declaration parsers: functions, structs, constants, use-paths.

use circuit_parser::constants::Span;
use circuit_parser::error::{ErrorKind, PathIssue, SigIssue};
use circuit_parser::functions::{AttributeKind, FnNameDef, FnSig, Function};
use circuit_parser::scope::{Const, Struct, UsePath, UserRepo};
use circuit_parser::syntax::{is_valid_fn_name, is_valid_fn_type};
use circuit_parser::tokens::{Keyword, ParserCtx, Token, TokenKind, TokenType, Tokens};
use circuit_parser::types::{Ident, TyKind};

fn tok(kind: TokenKind, start: usize, len: usize) -> Token {
    Token::new(kind, Span::new(start, len))
}

fn ident_tok(s: &str, start: usize) -> Token {
    tok(TokenKind::Identifier(s.to_string()), start, s.len())
}

fn kw(k: Keyword, start: usize, len: usize) -> Token {
    tok(TokenKind::Keyword(k), start, len)
}

fn ident(s: &str, start: usize) -> Ident {
    Ident::new(s.to_string(), Span::new(start, s.len()))
}

#[test]
fn struct_point_two_fields_in_order() {
    // struct Point { x: Field, y: Field } — after the `struct` keyword
    let mut ctx = ParserCtx::new();
    let mut toks = Tokens::new(vec![
        ident_tok("Point", 7),
        tok(TokenKind::LeftCurlyBracket, 13, 1),
        ident_tok("x", 15),
        tok(TokenKind::Colon, 16, 1),
        ident_tok("Field", 18),
        tok(TokenKind::Comma, 23, 1),
        ident_tok("y", 25),
        tok(TokenKind::Colon, 26, 1),
        ident_tok("Field", 28),
        tok(TokenKind::RightCurlyBracket, 34, 1),
    ]);
    let s = Struct::parse(&mut ctx, &mut toks).unwrap();
    assert_eq!(s.name.value, "Point");
    assert_eq!(s.fields.len(), 2);
    assert_eq!(s.fields[0].0.value, "x");
    assert_eq!(s.fields[0].1.kind, TyKind::Field);
    assert_eq!(s.fields[1].0.value, "y");
    assert_eq!(s.fields[1].1.kind, TyKind::Field);
    assert_eq!(s.span, Span::new(7, 28));
}

#[test]
fn struct_last_field_may_omit_trailing_comma() {
    let mut ctx = ParserCtx::new();
    let mut toks = Tokens::new(vec![
        ident_tok("One", 0),
        tok(TokenKind::LeftCurlyBracket, 4, 1),
        ident_tok("a", 6),
        tok(TokenKind::Colon, 7, 1),
        ident_tok("Bool", 9),
        tok(TokenKind::Comma, 13, 1),
        tok(TokenKind::RightCurlyBracket, 15, 1),
    ]);
    let s = Struct::parse(&mut ctx, &mut toks).unwrap();
    assert_eq!(s.fields.len(), 1);
}

#[test]
fn struct_field_needs_comma_or_closing_brace() {
    let mut ctx = ParserCtx::new();
    let mut toks = Tokens::new(vec![
        ident_tok("Two", 0),
        tok(TokenKind::LeftCurlyBracket, 4, 1),
        ident_tok("a", 6),
        tok(TokenKind::Colon, 7, 1),
        ident_tok("Bool", 9),
        ident_tok("b", 14),
    ]);
    let err = Struct::parse(&mut ctx, &mut toks).unwrap_err();
    assert_eq!(err.kind, ErrorKind::ExpectedToken(TokenType::Comma));
}

#[test]
fn method_signature_with_self_and_public_input() {
    // fn House.verify(self, pub x: Field) -> Bool — after `fn`
    let mut ctx = ParserCtx::new();
    let mut toks = Tokens::new(vec![
        ident_tok("House", 3),
        tok(TokenKind::Dot, 8, 1),
        ident_tok("verify", 9),
        tok(TokenKind::LeftParen, 15, 1),
        ident_tok("self", 16),
        tok(TokenKind::Comma, 20, 1),
        kw(Keyword::Pub, 22, 3),
        ident_tok("x", 26),
        tok(TokenKind::Colon, 27, 1),
        ident_tok("Field", 29),
        tok(TokenKind::RightParen, 34, 1),
        tok(TokenKind::RightArrow, 36, 2),
        ident_tok("Bool", 39),
    ]);
    let sig = FnSig::parse(&mut ctx, &mut toks).unwrap();
    let self_name = sig.name.self_name.as_ref().unwrap();
    assert_eq!(self_name.value, "House");
    assert_eq!(sig.name.name.value, "verify");
    assert_eq!(sig.arguments.len(), 2);
    // `self` gets the synthesized type of the enclosing method context
    assert_eq!(sig.arguments[0].name.value, "self");
    assert_eq!(
        sig.arguments[0].typ.kind,
        TyKind::Custom { module: None, name: ident("House", 3) }
    );
    assert!(sig.arguments[0].attribute.is_none());
    // `pub x: Field` is a public circuit input
    assert_eq!(sig.arguments[1].name.value, "x");
    assert_eq!(sig.arguments[1].typ.kind, TyKind::Field);
    assert!(sig.arguments[1].is_public());
    assert!(!sig.arguments[1].is_constant());
    assert_eq!(sig.return_type.as_ref().unwrap().kind, TyKind::Bool);
}

#[test]
fn fn_name_bare_value_cased() {
    let mut ctx = ParserCtx::new();
    let mut toks = Tokens::new(vec![ident_tok("verify", 0)]);
    let name = FnNameDef::parse(&mut ctx, &mut toks).unwrap();
    assert!(name.self_name.is_none());
    assert_eq!(name.name.value, "verify");
    assert_eq!(name.span, Span::new(0, 6));
}

#[test]
fn self_outside_method_is_an_error() {
    let mut ctx = ParserCtx::new();
    let mut toks = Tokens::new(vec![
        tok(TokenKind::LeftParen, 0, 1),
        ident_tok("self", 1),
        tok(TokenKind::RightParen, 5, 1),
    ]);
    let err = Function::parse_args(&mut ctx, &mut toks, None).unwrap_err();
    assert_eq!(
        err.kind,
        ErrorKind::InvalidFunctionSignature(SigIssue::SelfOutsideMethod)
    );
}

#[test]
fn self_must_be_the_first_argument() {
    let house = ident("House", 0);
    let mut ctx = ParserCtx::new();
    let mut toks = Tokens::new(vec![
        tok(TokenKind::LeftParen, 0, 1),
        ident_tok("x", 1),
        tok(TokenKind::Colon, 2, 1),
        ident_tok("Field", 4),
        tok(TokenKind::Comma, 9, 1),
        ident_tok("self", 11),
        tok(TokenKind::RightParen, 15, 1),
    ]);
    let err = Function::parse_args(&mut ctx, &mut toks, Some(&house)).unwrap_err();
    assert_eq!(
        err.kind,
        ErrorKind::InvalidFunctionSignature(SigIssue::SelfNotFirst)
    );
}

#[test]
fn self_may_not_carry_an_attribute() {
    let house = ident("House", 0);
    let mut ctx = ParserCtx::new();
    let mut toks = Tokens::new(vec![
        tok(TokenKind::LeftParen, 0, 1),
        kw(Keyword::Pub, 1, 3),
        ident_tok("self", 5),
        tok(TokenKind::RightParen, 9, 1),
    ]);
    let err = Function::parse_args(&mut ctx, &mut toks, Some(&house)).unwrap_err();
    assert_eq!(err.kind, ErrorKind::SelfHasAttribute);
}

#[test]
fn const_argument_attribute() {
    let mut ctx = ParserCtx::new();
    let mut toks = Tokens::new(vec![
        tok(TokenKind::LeftParen, 0, 1),
        kw(Keyword::Const, 1, 5),
        ident_tok("n", 7),
        tok(TokenKind::Colon, 8, 1),
        ident_tok("Field", 10),
        tok(TokenKind::RightParen, 15, 1),
    ]);
    let args = Function::parse_args(&mut ctx, &mut toks, None).unwrap();
    assert_eq!(args.len(), 1);
    assert!(args[0].is_constant());
    assert!(!args[0].is_public());
    assert_eq!(args[0].attribute.unwrap().kind, AttributeKind::Const);
}

#[test]
fn function_with_body_and_is_main() {
    // main(pub x: Field) { return x; }
    let mut ctx = ParserCtx::new();
    let mut toks = Tokens::new(vec![
        ident_tok("main", 3),
        tok(TokenKind::LeftParen, 7, 1),
        kw(Keyword::Pub, 8, 3),
        ident_tok("x", 12),
        tok(TokenKind::Colon, 13, 1),
        ident_tok("Field", 15),
        tok(TokenKind::RightParen, 20, 1),
        tok(TokenKind::LeftCurlyBracket, 22, 1),
        kw(Keyword::Return, 24, 6),
        ident_tok("x", 31),
        tok(TokenKind::SemiColon, 32, 1),
        tok(TokenKind::RightCurlyBracket, 34, 1),
    ]);
    let f = Function::parse(&mut ctx, &mut toks).unwrap();
    assert!(f.is_main());
    assert_eq!(f.body.len(), 1);
    // the span runs from the name to the end of the last statement,
    // whose own span is the `return` keyword's
    assert_eq!(f.span, Span::new(3, 27));
}

#[test]
fn function_empty_body_is_rejected() {
    let mut ctx = ParserCtx::new();
    let mut toks = Tokens::new(vec![
        ident_tok("noop", 3),
        tok(TokenKind::LeftParen, 7, 1),
        tok(TokenKind::RightParen, 8, 1),
        tok(TokenKind::LeftCurlyBracket, 10, 1),
        tok(TokenKind::RightCurlyBracket, 11, 1),
    ]);
    let err = Function::parse(&mut ctx, &mut toks).unwrap_err();
    assert_eq!(
        err.kind,
        ErrorKind::InvalidFunctionSignature(SigIssue::ExpectedBody)
    );
}

#[test]
fn const_declaration_with_literal() {
    // const foo = 42; — after `const`
    let mut ctx = ParserCtx::new();
    let mut toks = Tokens::new(vec![
        ident_tok("foo", 6),
        tok(TokenKind::Equal, 10, 1),
        tok(TokenKind::BigInt("42".to_string()), 12, 2),
        tok(TokenKind::SemiColon, 14, 1),
    ]);
    let c = Const::parse(&mut ctx, &mut toks).unwrap();
    assert_eq!(c.name.value, "foo");
    assert_eq!(c.value.value, 42);
    assert_eq!(c.span, Span::new(6, 3));
}

#[test]
fn const_declaration_rejects_non_integer() {
    // const foo = true;
    let mut ctx = ParserCtx::new();
    let mut toks = Tokens::new(vec![
        ident_tok("foo", 6),
        tok(TokenKind::Equal, 10, 1),
        kw(Keyword::True, 12, 4),
        tok(TokenKind::SemiColon, 16, 1),
    ]);
    let err = Const::parse(&mut ctx, &mut toks).unwrap_err();
    assert_eq!(err.kind, ErrorKind::InvalidConstType);
}

#[test]
fn const_declaration_rejects_oversized_literal() {
    // forty digits exceed the field's backing integer
    let digits = "9".repeat(40);
    let mut ctx = ParserCtx::new();
    let mut toks = Tokens::new(vec![
        ident_tok("foo", 6),
        tok(TokenKind::Equal, 10, 1),
        tok(TokenKind::BigInt(digits.clone()), 12, 40),
        tok(TokenKind::SemiColon, 52, 1),
    ]);
    let err = Const::parse(&mut ctx, &mut toks).unwrap_err();
    assert_eq!(err.kind, ErrorKind::InvalidField(digits));
}

#[test]
fn use_path_two_segments() {
    // alice::lib
    let mut ctx = ParserCtx::new();
    let mut toks = Tokens::new(vec![
        ident_tok("alice", 4),
        tok(TokenKind::DoubleColon, 9, 2),
        ident_tok("lib", 11),
    ]);
    let p = UsePath::parse(&mut ctx, &mut toks).unwrap();
    assert_eq!(p.module.value, "alice");
    assert_eq!(p.submodule.value, "lib");
    assert_eq!(p.span, Span::new(4, 10));
    let repo = UserRepo::from_use_path(&p);
    assert_eq!(repo.user, "alice");
    assert_eq!(repo.repo, "lib");
}

#[test]
fn use_path_rejects_a_third_segment() {
    // alice::lib::extra — the path parser accepts exactly two segments,
    // so the extra `::` is left over and fails the statement terminator
    // the enclosing use-declaration demands
    let mut ctx = ParserCtx::new();
    let mut toks = Tokens::new(vec![
        ident_tok("alice", 4),
        tok(TokenKind::DoubleColon, 9, 2),
        ident_tok("lib", 11),
        tok(TokenKind::DoubleColon, 14, 2),
        ident_tok("extra", 16),
    ]);
    let p = UsePath::parse(&mut ctx, &mut toks).unwrap();
    assert_eq!(p.submodule.value, "lib");
    let err = toks
        .bump_expected(&mut ctx, TokenType::SemiColon)
        .unwrap_err();
    assert_eq!(err.kind, ErrorKind::ExpectedToken(TokenType::SemiColon));
}

#[test]
fn use_path_needs_both_segments() {
    let mut ctx = ParserCtx::new();
    let mut toks = Tokens::new(vec![
        ident_tok("alice", 4),
        tok(TokenKind::DoubleColon, 9, 2),
    ]);
    let err = UsePath::parse(&mut ctx, &mut toks).unwrap_err();
    assert_eq!(err.kind, ErrorKind::InvalidPath(PathIssue::ExpectedSubmodule));
}

#[test]
fn casing_predicates() {
    assert!(is_valid_fn_name("verify"));
    assert!(is_valid_fn_name("foo_1"));
    assert!(!is_valid_fn_name("_foo"));
    assert!(!is_valid_fn_name("Foo"));
    assert!(!is_valid_fn_name(""));
    assert!(!is_valid_fn_name("1abc"));
    assert!(is_valid_fn_type("House"));
    assert!(is_valid_fn_type("Foo_2"));
    assert!(!is_valid_fn_type("house"));
    assert!(!is_valid_fn_type("_Foo"));
    assert!(!is_valid_fn_type(""));
    assert!(!is_valid_fn_type("Fo-o"));
}
