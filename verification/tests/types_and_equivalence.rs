//! The type grammar and the two structural equivalence relations.

use circuit_parser::constants::Span;
use circuit_parser::error::ErrorKind;
use circuit_parser::tokens::{ParserCtx, Token, TokenKind, TokenType, Tokens};
use circuit_parser::types::{CustomType, Ident, Ty, TyKind};

fn tok(kind: TokenKind, start: usize, len: usize) -> Token {
    Token::new(kind, Span::new(start, len))
}

fn ident_tok(s: &str, start: usize) -> Token {
    tok(TokenKind::Identifier(s.to_string()), start, s.len())
}

fn ident(s: &str, start: usize) -> Ident {
    Ident::new(s.to_string(), Span::new(start, s.len()))
}

fn parse_ty(tokens: Vec<Token>) -> Result<Ty, circuit_parser::error::Error> {
    let mut ctx = ParserCtx::new();
    let mut toks = Tokens::new(tokens);
    Ty::parse(&mut ctx, &mut toks)
}

#[test]
fn ty_parse_field() {
    let ty = parse_ty(vec![ident_tok("Field", 0)]).unwrap();
    assert_eq!(ty.kind, TyKind::Field);
    assert_eq!(ty.span, Span::new(0, 5));
}

#[test]
fn ty_parse_bool() {
    let ty = parse_ty(vec![ident_tok("Bool", 0)]).unwrap();
    assert_eq!(ty.kind, TyKind::Bool);
    assert_eq!(ty.span, Span::new(0, 4));
}

#[test]
fn ty_parse_array() {
    // [Field; 4]
    let ty = parse_ty(vec![
        tok(TokenKind::LeftBracket, 0, 1),
        ident_tok("Field", 1),
        tok(TokenKind::SemiColon, 6, 1),
        tok(TokenKind::BigInt("4".to_string()), 8, 1),
        tok(TokenKind::RightBracket, 9, 1),
    ])
    .unwrap();
    assert_eq!(ty.kind, TyKind::Array(Box::new(TyKind::Field), 4));
    assert_eq!(ty.span, Span::new(0, 10));
}

#[test]
fn ty_parse_nested_array() {
    // [[Bool; 2]; 3]
    let ty = parse_ty(vec![
        tok(TokenKind::LeftBracket, 0, 1),
        tok(TokenKind::LeftBracket, 1, 1),
        ident_tok("Bool", 2),
        tok(TokenKind::SemiColon, 6, 1),
        tok(TokenKind::BigInt("2".to_string()), 8, 1),
        tok(TokenKind::RightBracket, 9, 1),
        tok(TokenKind::SemiColon, 10, 1),
        tok(TokenKind::BigInt("3".to_string()), 12, 1),
        tok(TokenKind::RightBracket, 13, 1),
    ])
    .unwrap();
    assert_eq!(
        ty.kind,
        TyKind::Array(Box::new(TyKind::Array(Box::new(TyKind::Bool), 2)), 3)
    );
    assert_eq!(ty.span, Span::new(0, 14));
}

#[test]
fn ty_parse_module_qualified() {
    // mod::Custom — a value-cased lead identifier must be a module
    let ty = parse_ty(vec![
        ident_tok("mod", 0),
        tok(TokenKind::DoubleColon, 3, 2),
        ident_tok("Custom", 5),
    ])
    .unwrap();
    assert_eq!(
        ty.kind,
        TyKind::Custom {
            module: Some(ident("mod", 0)),
            name: ident("Custom", 5),
        }
    );
    // the span covers the whole type text
    assert_eq!(ty.span, Span::new(0, 11));
}

#[test]
fn ty_parse_reserved_type_in_module_is_recoverable() {
    // mod::Field is a recoverable error, not an abort
    let err = parse_ty(vec![
        ident_tok("mod", 0),
        tok(TokenKind::DoubleColon, 3, 2),
        ident_tok("Field", 5),
    ])
    .unwrap_err();
    assert_eq!(err.kind, ErrorKind::ReservedTypeInModule);
}

#[test]
fn ty_parse_array_size_too_large() {
    // 4294967296 does not fit an unsigned 32-bit size
    let err = parse_ty(vec![
        tok(TokenKind::LeftBracket, 0, 1),
        ident_tok("Field", 1),
        tok(TokenKind::SemiColon, 6, 1),
        tok(TokenKind::BigInt("4294967296".to_string()), 8, 10),
        tok(TokenKind::RightBracket, 18, 1),
    ])
    .unwrap_err();
    assert_eq!(err.kind, ErrorKind::InvalidArraySize);
}

#[test]
fn ty_parse_array_size_max() {
    let ty = parse_ty(vec![
        tok(TokenKind::LeftBracket, 0, 1),
        ident_tok("Field", 1),
        tok(TokenKind::SemiColon, 6, 1),
        tok(TokenKind::BigInt("4294967295".to_string()), 8, 10),
        tok(TokenKind::RightBracket, 18, 1),
    ])
    .unwrap();
    assert_eq!(ty.kind, TyKind::Array(Box::new(TyKind::Field), 4294967295));
}

#[test]
fn ty_parse_non_literal_array_size() {
    let err = parse_ty(vec![
        tok(TokenKind::LeftBracket, 0, 1),
        ident_tok("Field", 1),
        tok(TokenKind::SemiColon, 6, 1),
        ident_tok("n", 8),
        tok(TokenKind::RightBracket, 9, 1),
    ])
    .unwrap_err();
    assert_eq!(err.kind, ErrorKind::ExpectedToken(TokenType::BigInt));
}

#[test]
fn match_expected_is_not_symmetric_on_field_bigint() {
    assert!(TyKind::BigInt.match_expected(&TyKind::Field));
    assert!(!TyKind::Field.match_expected(&TyKind::BigInt));
}

#[test]
fn same_as_is_symmetric_on_field_bigint() {
    assert!(TyKind::Field.same_as(&TyKind::BigInt));
    assert!(TyKind::BigInt.same_as(&TyKind::Field));
}

#[test]
fn array_equivalence_requires_exact_size() {
    let three = TyKind::Array(Box::new(TyKind::Field), 3);
    let four = TyKind::Array(Box::new(TyKind::Field), 4);
    assert!(!three.same_as(&four));
    assert!(!four.same_as(&three));
    assert!(!three.match_expected(&four));
    assert!(!four.match_expected(&three));
    assert!(three.same_as(&three));
    assert!(three.match_expected(&three));
}

#[test]
fn array_equivalence_recurses_into_the_directional_relation() {
    // arrays recurse into match_expected, so same_as inherits its
    // direction on element types
    let bigints = TyKind::Array(Box::new(TyKind::BigInt), 2);
    let fields = TyKind::Array(Box::new(TyKind::Field), 2);
    assert!(bigints.same_as(&fields));
    assert!(!fields.same_as(&bigints));
    assert!(bigints.match_expected(&fields));
    assert!(!fields.match_expected(&bigints));
}

fn custom(module: Option<Ident>, name: Ident) -> TyKind {
    TyKind::Custom { module, name }
}

#[test]
fn custom_type_module_is_a_wildcard_when_unset() {
    let plain = custom(None, ident("Foo", 0));
    let qualified = custom(Some(ident("m", 10)), ident("Foo", 13));
    assert!(plain.match_expected(&qualified));
    assert!(qualified.match_expected(&plain));
    assert!(plain.same_as(&qualified));
}

#[test]
fn custom_type_modules_must_agree_when_both_set() {
    let in_a = custom(Some(ident("a", 0)), ident("Foo", 3));
    let in_b = custom(Some(ident("b", 0)), ident("Foo", 3));
    assert!(!in_a.match_expected(&in_b));
    assert!(!in_a.same_as(&in_b));
    let also_in_a = custom(Some(ident("a", 0)), ident("Foo", 20));
    assert!(in_a.match_expected(&also_in_a));
}

#[test]
fn custom_type_names_must_agree() {
    let foo = custom(None, ident("Foo", 0));
    let bar = custom(None, ident("Bar", 0));
    assert!(!foo.match_expected(&bar));
    assert!(!foo.same_as(&bar));
}

#[test]
fn custom_type_parse_rejects_reserved_and_value_cased_names() {
    let mut ctx = ParserCtx::new();
    let mut toks = Tokens::new(vec![ident_tok("Field", 0)]);
    let err = CustomType::parse(&mut ctx, &mut toks).unwrap_err();
    assert_eq!(err.kind, ErrorKind::ReservedType("Field".to_string()));

    let mut ctx = ParserCtx::new();
    let mut toks = Tokens::new(vec![ident_tok("point", 0)]);
    let err = CustomType::parse(&mut ctx, &mut toks).unwrap_err();
    assert_eq!(err.kind, ErrorKind::InvalidTypeName);

    let mut ctx = ParserCtx::new();
    let mut toks = Tokens::new(vec![ident_tok("Point", 0)]);
    let ok = CustomType::parse(&mut ctx, &mut toks).unwrap();
    assert_eq!(ok.value, "Point");
}

#[test]
fn ident_parse_demands_an_identifier_token() {
    let mut ctx = ParserCtx::new();
    let mut toks = Tokens::new(vec![tok(TokenKind::BigInt("7".to_string()), 0, 1)]);
    let err = Ident::parse(&mut ctx, &mut toks).unwrap_err();
    assert_eq!(err.kind, ErrorKind::ExpectedToken(TokenType::Identifier));

    let mut ctx = ParserCtx::new();
    let mut toks = Tokens::new(vec![]);
    let err = Ident::parse(&mut ctx, &mut toks).unwrap_err();
    assert_eq!(err.kind, ErrorKind::MissingToken);
}

#[test]
fn reserved_types_resolution() {
    let k = Ty::reserved_types(None, ident("Field", 0)).unwrap();
    assert_eq!(k, TyKind::Field);
    let k = Ty::reserved_types(None, ident("Bool", 0)).unwrap();
    assert_eq!(k, TyKind::Bool);
    let k = Ty::reserved_types(None, ident("Thing", 0)).unwrap();
    assert_eq!(k, custom(None, ident("Thing", 0)));
    let err = Ty::reserved_types(Some(ident("m", 0)), ident("Bool", 3)).unwrap_err();
    assert_eq!(err.kind, ErrorKind::ReservedTypeInModule);
}
