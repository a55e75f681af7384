//! Statements: assignment, bounded for-loops, return, comments, and bare
//! call expressions.
//!
//! Dispatch is on one token of lookahead, with no backtracking.  For-loop
//! bounds must be literal integers known at parse time: loop bodies are
//! unrolled a fixed number of times downstream, never executed by a
//! runtime loop construct.  `if` is only supported as an expression, so a
//! bare `if` statement is a recoverable error.

use vstd::prelude::*;

verus! {

broadcast use vstd::std_specs::control_flow::group_control_flow_axioms;

use crate::constants::{Span, spec_merge};
use crate::error::{Error, ErrorKind, ErrorKindV, ErrorV};
use crate::expr::{spec_parse_expr, view_expr, Expr, ExprV};
use crate::syntax::{parse_decimal_u32, spec_parse_decimal};
use crate::tokens::{
    parse_post, s_advance, s_bump_expected, s_peek, state_of, Keyword, Parsed,
    ParserCtx, PState, TokenKind, TokenKindV, TokenType, TokenV, Tokens, TokensV,
};
use crate::types::{spec_parse_ident, Ident, IdentV};

/// The bounds of a for-loop: both are literal unsigned 32-bit integers
/// known at parse time.
#[derive(Debug, Clone, Copy, PartialEq, Eq, Structural)]
pub struct Range {
    pub start: u32,
    pub end: u32,
    pub span: Span,
}

impl Range {
    /// The bounds as a standard half-open range.
    pub fn range(&self) -> (r: core::ops::Range<u32>)
        ensures
            r.start == self.start,
            r.end == self.end,
    {
        self.start..self.end
    }
}

/// One statement.
#[derive(Debug)]
pub struct Stmt {
    pub kind: StmtKind,
    pub span: Span,
}

/// The statement forms.
#[derive(Debug)]
pub enum StmtKind {
    /// `let [mut] lhs = rhs;`
    Assign { mutable: bool, lhs: Ident, rhs: Box<Expr> },
    /// A bare expression (expected to be a call) followed by `;`.
    Expr(Box<Expr>),
    /// `return expr;`
    Return(Box<Expr>),
    /// A comment, preserved as a statement for tooling fidelity.
    Comment(String),
    /// `for var in start..end { body }` with literal bounds.
    ForLoop { var: Ident, range: Range, body: Vec<Stmt> },
}

/// Mathematical model of a statement.
pub struct StmtV {
    pub kind: StmtKindV,
    pub span: Span,
}

/// Mathematical model of a statement form.
pub enum StmtKindV {
    Assign { mutable: bool, lhs: IdentV, rhs: ExprV },
    Expr(ExprV),
    Return(ExprV),
    Comment(Seq<char>),
    ForLoop { var: IdentV, range: Range, body: Seq<StmtV> },
}

/// The view of a statement, recursively.
pub open spec fn view_stmt(s: Stmt) -> StmtV
    decreases s,
{
    StmtV { kind: view_stmt_kind(s.kind), span: s.span }
}

/// The view of a statement form, recursively.
pub open spec fn view_stmt_kind(k: StmtKind) -> StmtKindV
    decreases k,
{
    match k {
        StmtKind::Assign { mutable, lhs, rhs } => StmtKindV::Assign {
            mutable,
            lhs: lhs@,
            rhs: view_expr(*rhs),
        },
        StmtKind::Expr(e) => StmtKindV::Expr(view_expr(*e)),
        StmtKind::Return(e) => StmtKindV::Return(view_expr(*e)),
        StmtKind::Comment(c) => StmtKindV::Comment(c@),
        StmtKind::ForLoop { var, range, body } => StmtKindV::ForLoop {
            var: var@,
            range,
            body: view_stmts(body@),
        },
    }
}

/// The views of a sequence of statements.
pub open spec fn view_stmts(s: Seq<Stmt>) -> Seq<StmtV>
    decreases s,
{
    if s.len() == 0 {
        Seq::empty()
    } else {
        view_stmts(s.drop_last()).push(view_stmt(s.last()))
    }
}

impl View for Stmt {
    type V = StmtV;

    open spec fn view(&self) -> StmtV {
        view_stmt(*self)
    }
}

impl DeepView for Stmt {
    type V = StmtV;

    open spec fn deep_view(&self) -> StmtV {
        view_stmt(*self)
    }
}

/// An assignment after the consumed `let` keyword: optional `mut`, the
/// left-hand name, `=`, the right-hand expression, `;`.  The statement's
/// span is the union of the keyword's and the right-hand side's.
pub open spec fn spec_parse_let(toks: Seq<TokenV>, st1: PState, kw_span: Span) -> Parsed<StmtV> {
    let (mutable, st2): (bool, PState) = match s_peek(toks, st1) {
        Some(t) => match t.kind {
            TokenKindV::Keyword(Keyword::Mut) => (true, s_advance(toks, st1)),
            _ => (false, st1),
        },
        None => (false, st1),
    };
    match spec_parse_ident(toks, st2) {
        Parsed::Failed { err } => Parsed::Failed { err },
        Parsed::Found { val: lhs, st: st3 } => match s_bump_expected(toks, st3, TokenType::Equal) {
            Parsed::Failed { err } => Parsed::Failed { err },
            Parsed::Found { val: _eq, st: st4 } => match spec_parse_expr(toks, st4) {
                Parsed::Failed { err } => Parsed::Failed { err },
                Parsed::Found { val: rhs, st: st5 } => {
                    let span = spec_merge(kw_span, rhs.span);
                    match s_bump_expected(toks, st5, TokenType::SemiColon) {
                        Parsed::Failed { err } => Parsed::Failed { err },
                        Parsed::Found { val: _semi, st: st6 } => Parsed::Found {
                            val: StmtV { kind: StmtKindV::Assign { mutable, lhs, rhs }, span },
                            st: st6,
                        },
                    }
                },
            },
        },
    }
}

/// One literal for-loop bound: the next token must be an integer literal
/// that fits an unsigned 32-bit value.
pub open spec fn spec_parse_bound(toks: Seq<TokenV>, st: PState) -> Parsed<(u32, Span)> {
    match s_peek(toks, st) {
        None => Parsed::Failed {
            err: ErrorV { kind: ErrorKindV::ExpectedToken(TokenType::BigInt), span: st.last },
        },
        Some(t) => match t.kind {
            TokenKindV::BigInt(n) => match spec_parse_decimal(n, u32::MAX as int) {
                Some(v) => Parsed::Found { val: (v as u32, t.span), st: s_advance(toks, st) },
                None => Parsed::Failed {
                    err: ErrorV { kind: ErrorKindV::InvalidRangeSize, span: t.span },
                },
            },
            _ => Parsed::Failed {
                err: ErrorV { kind: ErrorKindV::ExpectedToken(TokenType::BigInt), span: t.span },
            },
        },
    }
}

/// A return statement after the consumed `return` keyword: the returned
/// expression and `;`.  The statement's span is the keyword's.
pub open spec fn spec_parse_return(toks: Seq<TokenV>, st1: PState, kw_span: Span) -> Parsed<
    StmtV,
> {
    match spec_parse_expr(toks, st1) {
        Parsed::Failed { err } => Parsed::Failed { err },
        Parsed::Found { val: e, st: st2 } => match s_bump_expected(
            toks,
            st2,
            TokenType::SemiColon,
        ) {
            Parsed::Failed { err } => Parsed::Failed { err },
            Parsed::Found { val: _semi, st: st3 } => Parsed::Found {
                val: StmtV { kind: StmtKindV::Return(e), span: kw_span },
                st: st3,
            },
        },
    }
}

/// An expression statement: the expression followed by `;`.  The
/// statement's span is the expression's.
pub open spec fn spec_parse_expr_stmt(toks: Seq<TokenV>, st: PState) -> Parsed<StmtV> {
    match spec_parse_expr(toks, st) {
        Parsed::Failed { err } => Parsed::Failed { err },
        Parsed::Found { val: e, st: st1 } => match s_bump_expected(
            toks,
            st1,
            TokenType::SemiColon,
        ) {
            Parsed::Failed { err } => Parsed::Failed { err },
            Parsed::Found { val: _semi, st: st2 } => Parsed::Found {
                val: StmtV { kind: StmtKindV::Expr(e), span: e.span },
                st: st2,
            },
        },
    }
}

/// A for-loop after the consumed `for` keyword: the loop variable, `in`,
/// two literal bounds around `..`, and a brace-delimited body.  The
/// statement's span is the keyword's.
pub open spec fn spec_parse_for(toks: Seq<TokenV>, st1: PState, kw_span: Span) -> Parsed<StmtV>
    decreases toks.len() - st1.pos, 0int,
{
    match spec_parse_ident(toks, st1) {
        Parsed::Failed { err } => Parsed::Failed { err },
        Parsed::Found { val: var, st: st2 } => match s_bump_expected(
            toks,
            st2,
            TokenType::Keyword(Keyword::In),
        ) {
            Parsed::Failed { err } => Parsed::Failed { err },
            Parsed::Found { val: _in, st: st3 } => match spec_parse_bound(toks, st3) {
                Parsed::Failed { err } => Parsed::Failed { err },
                Parsed::Found { val: start, st: st4 } => match s_bump_expected(
                    toks,
                    st4,
                    TokenType::DoubleDot,
                ) {
                    Parsed::Failed { err } => Parsed::Failed { err },
                    Parsed::Found { val: _dots, st: st5 } => match spec_parse_bound(toks, st5) {
                        Parsed::Failed { err } => Parsed::Failed { err },
                        Parsed::Found { val: end, st: st6 } => {
                            let range = Range {
                                start: start.0,
                                end: end.0,
                                span: spec_merge(start.1, end.1),
                            };
                            match s_bump_expected(toks, st6, TokenType::LeftCurlyBracket) {
                                Parsed::Failed { err } => Parsed::Failed { err },
                                Parsed::Found { val: _brace, st: st7 } => match spec_parse_block(
                                    toks,
                                    st7,
                                    Seq::empty(),
                                ) {
                                    Parsed::Failed { err } => Parsed::Failed { err },
                                    Parsed::Found { val: body, st: st8 } => Parsed::Found {
                                        val: StmtV {
                                            kind: StmtKindV::ForLoop { var, range, body },
                                            span: kw_span,
                                        },
                                        st: st8,
                                    },
                                },
                            }
                        },
                    },
                },
            },
        },
    }
}

/// A statement list closed by `}`: statements are parsed until the
/// closing brace, which is consumed; running out of tokens first is an
/// error from the statement parser.
pub open spec fn spec_parse_block(toks: Seq<TokenV>, st: PState, acc: Seq<StmtV>) -> Parsed<
    Seq<StmtV>,
>
    decreases toks.len() - st.pos, 2int,
{
    match s_peek(toks, st) {
        Some(t) => if t.kind is RightCurlyBracket {
            Parsed::Found { val: acc, st: s_advance(toks, st) }
        } else {
            match spec_parse_stmt(toks, st) {
                Parsed::Failed { err } => Parsed::Failed { err },
                Parsed::Found { val: s, st: st1 } => {
                    // the statement parser always consumes at least one
                    // token; the bound re-states that for the
                    // termination checker
                    if st.pos < st1.pos <= toks.len() {
                        spec_parse_block(toks, st1, acc.push(s))
                    } else {
                        Parsed::Failed {
                            err: ErrorV { kind: ErrorKindV::InvalidStatement, span: st1.last },
                        }
                    }
                },
            }
        },
        None => match spec_parse_stmt(toks, st) {
            Parsed::Failed { err } => Parsed::Failed { err },
            Parsed::Found { val: _s, st: st1 } => Parsed::Failed {
                err: ErrorV { kind: ErrorKindV::InvalidStatement, span: st1.last },
            },
        },
    }
}

/// The statement grammar: one-token dispatch between assignment,
/// for-loop, `if` (rejected), return, comment, and expression statement.
pub open spec fn spec_parse_stmt(toks: Seq<TokenV>, st: PState) -> Parsed<StmtV>
    decreases toks.len() - st.pos, 1int,
{
    match s_peek(toks, st) {
        None => Parsed::Failed { err: ErrorV { kind: ErrorKindV::InvalidStatement, span: st.last } },
        Some(t) => match t.kind {
            TokenKindV::Keyword(Keyword::Let) => spec_parse_let(toks, s_advance(toks, st), t.span),
            TokenKindV::Keyword(Keyword::For) => spec_parse_for(toks, s_advance(toks, st), t.span),
            TokenKindV::Keyword(Keyword::If) => Parsed::Failed {
                err: ErrorV { kind: ErrorKindV::UnsupportedStatement, span: t.span },
            },
            TokenKindV::Keyword(Keyword::Return) => spec_parse_return(
                toks,
                s_advance(toks, st),
                t.span,
            ),
            TokenKindV::Comment(c) => Parsed::Found {
                val: StmtV { kind: StmtKindV::Comment(c), span: t.span },
                st: s_advance(toks, st),
            },
            _ => spec_parse_expr_stmt(toks, st),
        },
    }
}

/// What the block-parsing functions promise, relative to their
/// spec-level counterpart `sr`.
pub open spec fn block_post(
    toks0: TokensV,
    toks1: TokensV,
    ctx1: ParserCtx,
    r: Result<Vec<Stmt>, Error>,
    sr: Parsed<Seq<StmtV>>,
) -> bool {
    &&& toks1.toks == toks0.toks
    &&& match r {
        Ok(v) => {
            &&& sr == (Parsed::Found { val: view_stmts(v@), st: state_of(toks1, ctx1) })
            &&& toks0.pos < toks1.pos <= toks0.toks.len()
        },
        Err(e) => {
            &&& sr == (Parsed::Failed::<Seq<StmtV>> { err: e@ })
            &&& toks0.pos <= toks1.pos
        },
    }
}

/// Parse statements until the closing `}`, which is consumed.
pub(crate) fn parse_block(ctx: &mut ParserCtx, tokens: &mut Tokens, acc: Vec<Stmt>) -> (r: Result<
    Vec<Stmt>,
    Error,
>)
    ensures
        block_post(
            old(tokens)@,
            final(tokens)@,
            *final(ctx),
            r,
            spec_parse_block(
                old(tokens)@.toks,
                state_of(old(tokens)@, *old(ctx)),
                view_stmts(acc@),
            ),
        ),
    decreases tokens@.toks.len() - tokens@.pos, 2int,
{
    let next: Option<TokenType> = match tokens.peek() {
        Some(t) => Some(t.kind.token_type()),
        None => None,
    };
    if matches!(next, Some(TokenType::RightCurlyBracket)) {
        match tokens.bump(ctx) {
            Some(_rbrace) => Ok(acc),
            None => {
                proof {
                    assert(false);
                }
                Err(ctx.error(ErrorKind::InvalidStatement, ctx.last_span()))
            },
        }
    } else {
        let ghost acc0 = acc@;
        let statement = match Stmt::parse(ctx, tokens) {
            Ok(s) => s,
            Err(e) => {
                return Err(e);
            },
        };
        let ghost stmt_v = view_stmt(statement);
        let mut acc = acc;
        acc.push(statement);
        proof {
            assert(acc@.drop_last() =~= acc0);
            assert(view_stmts(acc@) == view_stmts(acc0).push(stmt_v));
        }
        parse_block(ctx, tokens, acc)
    }
}

impl Stmt {
    /// Parse one statement.
    pub fn parse(ctx: &mut ParserCtx, tokens: &mut Tokens) -> (r: Result<Stmt, Error>)
        ensures
            parse_post(
                old(tokens)@,
                *old(ctx),
                final(tokens)@,
                *final(ctx),
                r,
                spec_parse_stmt(old(tokens)@.toks, state_of(old(tokens)@, *old(ctx))),
            ),
        decreases tokens@.toks.len() - tokens@.pos, 1int,
    {
        let info: Option<(TokenType, Span)> = match tokens.peek() {
            Some(t) => Some((t.kind.token_type(), t.span)),
            None => None,
        };
        match info {
            None => Err(ctx.error(ErrorKind::InvalidStatement, ctx.last_span())),
            // assignment
            Some((TokenType::Keyword(Keyword::Let), kw_span)) => {
                tokens.bump(ctx);
                let is_mut: bool = match tokens.peek() {
                    Some(t) => matches!(t.kind, TokenKind::Keyword(Keyword::Mut)),
                    None => false,
                };
                let mutable = if is_mut {
                    tokens.bump(ctx);
                    true
                } else {
                    false
                };
                let lhs = Ident::parse(ctx, tokens)?;
                tokens.bump_expected(ctx, TokenType::Equal)?;
                let rhs = match Expr::parse(ctx, tokens) {
                    Ok(e) => e,
                    Err(e) => {
                        return Err(e);
                    },
                };
                let span = kw_span.merge_with(rhs.span);
                tokens.bump_expected(ctx, TokenType::SemiColon)?;
                Ok(Stmt { kind: StmtKind::Assign { mutable, lhs, rhs: Box::new(rhs) }, span })
            },
            // for loop
            Some((TokenType::Keyword(Keyword::For), kw_span)) => {
                tokens.bump(ctx);
                let var = Ident::parse(ctx, tokens)?;
                tokens.bump_expected(ctx, TokenType::Keyword(Keyword::In))?;
                let (start, start_span) = Stmt::parse_bound(ctx, tokens)?;
                tokens.bump_expected(ctx, TokenType::DoubleDot)?;
                let (end, end_span) = Stmt::parse_bound(ctx, tokens)?;
                let range = Range { start, end, span: start_span.merge_with(end_span) };
                tokens.bump_expected(ctx, TokenType::LeftCurlyBracket)?;
                let body = match parse_block(ctx, tokens, Vec::new()) {
                    Ok(b) => b,
                    Err(e) => {
                        return Err(e);
                    },
                };
                Ok(Stmt { kind: StmtKind::ForLoop { var, range, body }, span: kw_span })
            },
            // if/else: only supported as an expression
            Some((TokenType::Keyword(Keyword::If), if_span)) => Err(
                ctx.error(ErrorKind::UnsupportedStatement, if_span),
            ),
            // return
            Some((TokenType::Keyword(Keyword::Return), kw_span)) => {
                tokens.bump(ctx);
                let e = match Expr::parse(ctx, tokens) {
                    Ok(e) => e,
                    Err(e) => {
                        return Err(e);
                    },
                };
                tokens.bump_expected(ctx, TokenType::SemiColon)?;
                Ok(Stmt { kind: StmtKind::Return(Box::new(e)), span: kw_span })
            },
            // comment
            Some((TokenType::Comment, _)) => match tokens.bump(ctx) {
                Some(t) => {
                    let t_span = t.span;
                    match t.kind {
                        TokenKind::Comment(c) => Ok(
                            Stmt { kind: StmtKind::Comment(c), span: t_span },
                        ),
                        _ => {
                            proof {
                                assert(false);
                            }
                            Err(ctx.error(ErrorKind::InvalidStatement, ctx.last_span()))
                        },
                    }
                },
                None => {
                    proof {
                        assert(false);
                    }
                    Err(ctx.error(ErrorKind::InvalidStatement, ctx.last_span()))
                },
            },
            // statement expression (like a function call)
            Some(_) => {
                let e = match Expr::parse(ctx, tokens) {
                    Ok(e) => e,
                    Err(e) => {
                        return Err(e);
                    },
                };
                let span = e.span;
                tokens.bump_expected(ctx, TokenType::SemiColon)?;
                Ok(Stmt { kind: StmtKind::Expr(Box::new(e)), span })
            },
        }
    }

    /// Parse one literal for-loop bound.
    fn parse_bound(ctx: &mut ParserCtx, tokens: &mut Tokens) -> (r: Result<(u32, Span), Error>)
        ensures
            parse_post(
                old(tokens)@,
                *old(ctx),
                final(tokens)@,
                *final(ctx),
                r,
                spec_parse_bound(old(tokens)@.toks, state_of(old(tokens)@, *old(ctx))),
            ),
    {
        match tokens.bump(ctx) {
            Some(t) => {
                let t_span = t.span;
                match t.kind {
                    TokenKind::BigInt(n) => match parse_decimal_u32(n.as_str()) {
                        Some(v) => Ok((v, t_span)),
                        None => Err(ctx.error(ErrorKind::InvalidRangeSize, t_span)),
                    },
                    _ => Err(ctx.error(ErrorKind::ExpectedToken(TokenType::BigInt), ctx.last_span())),
                }
            },
            None => Err(ctx.error(ErrorKind::ExpectedToken(TokenType::BigInt), ctx.last_span())),
        }
    }
}

} // verus!
