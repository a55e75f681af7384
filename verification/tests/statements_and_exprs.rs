//! The statement parser and the expression fragment the declaration
//! parsers rely on.

use circuit_parser::constants::Span;
use circuit_parser::error::ErrorKind;
use circuit_parser::expr::{parse_fn_call_args, parse_type_declaration, Expr, ExprKind};
use circuit_parser::statements::{Range, Stmt, StmtKind};
use circuit_parser::tokens::{Keyword, ParserCtx, Token, TokenKind, TokenType, Tokens};
use circuit_parser::types::Ident;

fn tok(kind: TokenKind, start: usize, len: usize) -> Token {
    Token::new(kind, Span::new(start, len))
}

fn ident_tok(s: &str, start: usize) -> Token {
    tok(TokenKind::Identifier(s.to_string()), start, s.len())
}

fn kw(k: Keyword, start: usize, len: usize) -> Token {
    tok(TokenKind::Keyword(k), start, len)
}

fn parse_stmt(tokens: Vec<Token>) -> Result<Stmt, circuit_parser::error::Error> {
    let mut ctx = ParserCtx::new();
    let mut toks = Tokens::new(tokens);
    Stmt::parse(&mut ctx, &mut toks)
}

#[test]
fn for_loop_with_literal_bounds() {
    // for i in 0..5 { }
    let s = parse_stmt(vec![
        kw(Keyword::For, 0, 3),
        ident_tok("i", 4),
        kw(Keyword::In, 6, 2),
        tok(TokenKind::BigInt("0".to_string()), 9, 1),
        tok(TokenKind::DoubleDot, 10, 2),
        tok(TokenKind::BigInt("5".to_string()), 12, 1),
        tok(TokenKind::LeftCurlyBracket, 14, 1),
        tok(TokenKind::RightCurlyBracket, 16, 1),
    ])
    .unwrap();
    match s.kind {
        StmtKind::ForLoop { var, range, body } => {
            assert_eq!(var.value, "i");
            assert_eq!(
                range,
                Range { start: 0, end: 5, span: Span::new(9, 4) }
            );
            assert_eq!(range.range(), 0..5);
            assert!(body.is_empty());
        }
        _ => panic!("expected a for-loop"),
    }
    assert_eq!(s.span, Span::new(0, 3));
}

#[test]
fn for_loop_rejects_non_literal_start() {
    // for i in x..5 { } — the bound must be an integer literal
    let err = parse_stmt(vec![
        kw(Keyword::For, 0, 3),
        ident_tok("i", 4),
        kw(Keyword::In, 6, 2),
        ident_tok("x", 9),
        tok(TokenKind::DoubleDot, 10, 2),
        tok(TokenKind::BigInt("5".to_string()), 12, 1),
        tok(TokenKind::LeftCurlyBracket, 14, 1),
        tok(TokenKind::RightCurlyBracket, 16, 1),
    ])
    .unwrap_err();
    assert_eq!(err.kind, ErrorKind::ExpectedToken(TokenType::BigInt));
}

#[test]
fn for_loop_rejects_oversized_bound() {
    let err = parse_stmt(vec![
        kw(Keyword::For, 0, 3),
        ident_tok("i", 4),
        kw(Keyword::In, 6, 2),
        tok(TokenKind::BigInt("4294967296".to_string()), 9, 10),
        tok(TokenKind::DoubleDot, 19, 2),
        tok(TokenKind::BigInt("5".to_string()), 21, 1),
    ])
    .unwrap_err();
    assert_eq!(err.kind, ErrorKind::InvalidRangeSize);
}

#[test]
fn let_statement_with_mut() {
    // let mut x = 5;
    let s = parse_stmt(vec![
        kw(Keyword::Let, 0, 3),
        kw(Keyword::Mut, 4, 3),
        ident_tok("x", 8),
        tok(TokenKind::Equal, 10, 1),
        tok(TokenKind::BigInt("5".to_string()), 12, 1),
        tok(TokenKind::SemiColon, 13, 1),
    ])
    .unwrap();
    match s.kind {
        StmtKind::Assign { mutable, lhs, rhs } => {
            assert!(mutable);
            assert_eq!(lhs.value, "x");
            assert!(matches!(rhs.kind, ExprKind::BigInt(ref t) if t == "5"));
        }
        _ => panic!("expected an assignment"),
    }
    // the span runs from `let` to the end of the right-hand side
    assert_eq!(s.span, Span::new(0, 13));
}

#[test]
fn if_as_a_statement_is_a_recoverable_error() {
    let err = parse_stmt(vec![kw(Keyword::If, 0, 2), ident_tok("c", 3)]).unwrap_err();
    assert_eq!(err.kind, ErrorKind::UnsupportedStatement);
    assert_eq!(err.span, Span::new(0, 2));
}

#[test]
fn return_statement() {
    let s = parse_stmt(vec![
        kw(Keyword::Return, 0, 6),
        ident_tok("x", 7),
        tok(TokenKind::SemiColon, 8, 1),
    ])
    .unwrap();
    match s.kind {
        StmtKind::Return(e) => {
            assert!(matches!(e.kind, ExprKind::Variable { ref name, .. } if name.value == "x"));
        }
        _ => panic!("expected a return"),
    }
}

#[test]
fn comment_is_kept_as_a_statement() {
    let s = parse_stmt(vec![tok(
        TokenKind::Comment(" halves the input".to_string()),
        0,
        19,
    )])
    .unwrap();
    match s.kind {
        StmtKind::Comment(c) => assert_eq!(c, " halves the input"),
        _ => panic!("expected a comment"),
    }
}

#[test]
fn call_expression_statement() {
    // check(x, y);
    let s = parse_stmt(vec![
        ident_tok("check", 0),
        tok(TokenKind::LeftParen, 5, 1),
        ident_tok("x", 6),
        tok(TokenKind::Comma, 7, 1),
        ident_tok("y", 9),
        tok(TokenKind::RightParen, 10, 1),
        tok(TokenKind::SemiColon, 11, 1),
    ])
    .unwrap();
    match s.kind {
        StmtKind::Expr(e) => match e.kind {
            ExprKind::FnCall { module, fn_name, args } => {
                assert!(module.is_none());
                assert_eq!(fn_name.value, "check");
                assert_eq!(args.len(), 2);
            }
            _ => panic!("expected a call"),
        },
        _ => panic!("expected an expression statement"),
    }
}

#[test]
fn statement_without_semicolon_fails() {
    let err = parse_stmt(vec![
        ident_tok("check", 0),
        tok(TokenKind::LeftParen, 5, 1),
        tok(TokenKind::RightParen, 6, 1),
    ])
    .unwrap_err();
    assert_eq!(err.kind, ErrorKind::MissingToken);
}

#[test]
fn struct_literal_expression() {
    // Thing { x: 1, y: 2 }
    let mut ctx = ParserCtx::new();
    let mut toks = Tokens::new(vec![
        ident_tok("Thing", 0),
        tok(TokenKind::LeftCurlyBracket, 6, 1),
        ident_tok("x", 8),
        tok(TokenKind::Colon, 9, 1),
        tok(TokenKind::BigInt("1".to_string()), 11, 1),
        tok(TokenKind::Comma, 12, 1),
        ident_tok("y", 14),
        tok(TokenKind::Colon, 15, 1),
        tok(TokenKind::BigInt("2".to_string()), 17, 1),
        tok(TokenKind::RightCurlyBracket, 19, 1),
    ]);
    let e = Expr::parse(&mut ctx, &mut toks).unwrap();
    match e.kind {
        ExprKind::CustomTypeDeclaration { struct_name, fields } => {
            assert_eq!(struct_name.value, "Thing");
            assert_eq!(fields.len(), 2);
            assert_eq!(fields[0].0.value, "x");
            assert!(matches!(fields[0].1.kind, ExprKind::BigInt(ref t) if t == "1"));
            assert_eq!(fields[1].0.value, "y");
        }
        _ => panic!("expected a struct literal"),
    }
    assert_eq!(e.span, Span::new(0, 20));
}

#[test]
fn struct_literal_field_needs_comma_or_closing_brace() {
    let mut ctx = ParserCtx::new();
    let mut toks = Tokens::new(vec![
        ident_tok("Thing", 0),
        tok(TokenKind::LeftCurlyBracket, 6, 1),
        ident_tok("x", 8),
        tok(TokenKind::Colon, 9, 1),
        tok(TokenKind::BigInt("1".to_string()), 11, 1),
        ident_tok("y", 13),
        tok(TokenKind::Colon, 14, 1),
        tok(TokenKind::BigInt("2".to_string()), 16, 1),
        tok(TokenKind::RightCurlyBracket, 18, 1),
    ]);
    let err = Expr::parse(&mut ctx, &mut toks).unwrap_err();
    assert_eq!(err.kind, ErrorKind::InvalidEndOfLine);
}

#[test]
fn type_declaration_demands_a_type_cased_name() {
    let mut ctx = ParserCtx::new();
    let mut toks = Tokens::new(vec![tok(TokenKind::LeftCurlyBracket, 6, 1)]);
    let lower = Ident::new("thing".to_string(), Span::new(0, 5));
    let err = parse_type_declaration(&mut ctx, &mut toks, lower).unwrap_err();
    assert_eq!(err.kind, ErrorKind::InvalidTypeName);
}

#[test]
fn fn_call_args_list() {
    // (a, b) — commas are consumed but not enforced between arguments
    let mut ctx = ParserCtx::new();
    let mut toks = Tokens::new(vec![
        tok(TokenKind::LeftParen, 0, 1),
        ident_tok("a", 1),
        tok(TokenKind::Comma, 2, 1),
        ident_tok("b", 4),
        tok(TokenKind::RightParen, 5, 1),
    ]);
    let (args, span) = parse_fn_call_args(&mut ctx, &mut toks).unwrap();
    assert_eq!(args.len(), 2);
    assert_eq!(span, Span::new(0, 6));
}

#[test]
fn fn_call_args_unterminated() {
    let mut ctx = ParserCtx::new();
    let mut toks = Tokens::new(vec![tok(TokenKind::LeftParen, 0, 1), ident_tok("a", 1)]);
    let err = parse_fn_call_args(&mut ctx, &mut toks).unwrap_err();
    assert_eq!(err.kind, ErrorKind::InvalidFnCall);
}

#[test]
fn module_qualified_call_expression() {
    // alice::lib is a variable, alice::foo(x) a call
    let mut ctx = ParserCtx::new();
    let mut toks = Tokens::new(vec![
        ident_tok("alice", 0),
        tok(TokenKind::DoubleColon, 5, 2),
        ident_tok("foo", 7),
        tok(TokenKind::LeftParen, 10, 1),
        ident_tok("x", 11),
        tok(TokenKind::RightParen, 12, 1),
    ]);
    let e = Expr::parse(&mut ctx, &mut toks).unwrap();
    match e.kind {
        ExprKind::FnCall { module, fn_name, args } => {
            assert_eq!(module.unwrap().value, "alice");
            assert_eq!(fn_name.value, "foo");
            assert_eq!(args.len(), 1);
        }
        _ => panic!("expected a module-qualified call"),
    }
}

#[test]
fn boolean_literals_parse_as_expressions() {
    let mut ctx = ParserCtx::new();
    let mut toks = Tokens::new(vec![kw(Keyword::True, 0, 4)]);
    let e = Expr::parse(&mut ctx, &mut toks).unwrap();
    assert!(matches!(e.kind, ExprKind::Bool(true)));
}

#[test]
fn statement_at_end_of_stream_fails() {
    let err = parse_stmt(vec![]).unwrap_err();
    assert_eq!(err.kind, ErrorKind::InvalidStatement);
}

#[test]
fn expression_cannot_start_with_punctuation() {
    let mut ctx = ParserCtx::new();
    let mut toks = Tokens::new(vec![tok(TokenKind::Comma, 0, 1)]);
    let err = Expr::parse(&mut ctx, &mut toks).unwrap_err();
    assert_eq!(err.kind, ErrorKind::InvalidExpression);
}

#[test]
fn nested_for_loops_parse() {
    // for i in 0..2 { for j in 0..3 { check(i); } }
    let s = parse_stmt(vec![
        kw(Keyword::For, 0, 3),
        ident_tok("i", 4),
        kw(Keyword::In, 6, 2),
        tok(TokenKind::BigInt("0".to_string()), 9, 1),
        tok(TokenKind::DoubleDot, 10, 2),
        tok(TokenKind::BigInt("2".to_string()), 12, 1),
        tok(TokenKind::LeftCurlyBracket, 14, 1),
        kw(Keyword::For, 16, 3),
        ident_tok("j", 20),
        kw(Keyword::In, 22, 2),
        tok(TokenKind::BigInt("0".to_string()), 25, 1),
        tok(TokenKind::DoubleDot, 26, 2),
        tok(TokenKind::BigInt("3".to_string()), 28, 1),
        tok(TokenKind::LeftCurlyBracket, 30, 1),
        ident_tok("check", 32),
        tok(TokenKind::LeftParen, 37, 1),
        ident_tok("i", 38),
        tok(TokenKind::RightParen, 39, 1),
        tok(TokenKind::SemiColon, 40, 1),
        tok(TokenKind::RightCurlyBracket, 42, 1),
        tok(TokenKind::RightCurlyBracket, 44, 1),
    ])
    .unwrap();
    match s.kind {
        StmtKind::ForLoop { body, .. } => {
            assert_eq!(body.len(), 1);
            match &body[0].kind {
                StmtKind::ForLoop { range, body, .. } => {
                    assert_eq!(range.start, 0);
                    assert_eq!(range.end, 3);
                    assert_eq!(body.len(), 1);
                }
                _ => panic!("expected an inner for-loop"),
            }
        }
        _ => panic!("expected a for-loop"),
    }
}
