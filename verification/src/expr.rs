//! The fragment of the expression grammar the declaration parsers need:
//! literal forms, variables, function-call argument lists, and inline
//! struct-construction expressions.
//!
//! A struct-construction expression `Name { field: value, … }` shares its
//! surface syntax with a struct declaration; it is entered from expression
//! parsing only when a type-cased identifier is immediately followed by
//! `{` — the disambiguation is purely by parse context and casing.

use vstd::prelude::*;

verus! {

broadcast use vstd::std_specs::control_flow::group_control_flow_axioms;

use crate::constants::{Span, spec_merge};
use crate::error::{Error, ErrorKind, ErrorKindV, ErrorV};
use crate::syntax::{is_type, is_type_chars};
use crate::tokens::{
    parse_post, parse_post_opt, s_advance, s_bump_err, s_bump_expected, s_peek, state_of, Keyword,
    Parsed, ParserCtx, PState, TokenKind, TokenKindV, TokenType, TokenV, Tokens, TokensV,
};
use crate::types::{spec_parse_ident, Ident, IdentV};

/// An expression node.
#[derive(Debug)]
pub struct Expr {
    pub kind: ExprKind,
    pub span: Span,
}

/// The expression forms the declaration parsers need.
#[derive(Debug)]
pub enum ExprKind {
    /// An integer literal, kept as its source text.
    BigInt(String),
    /// A boolean literal.
    Bool(bool),
    /// A variable, optionally qualified by a module.
    Variable { module: Option<Ident>, name: Ident },
    /// A function call, optionally qualified by a module.
    FnCall { module: Option<Ident>, fn_name: Ident, args: Vec<Expr> },
    /// An inline struct-construction expression.
    CustomTypeDeclaration { struct_name: Ident, fields: Vec<(Ident, Expr)> },
}

/// Mathematical model of an expression.
pub struct ExprV {
    pub kind: ExprKindV,
    pub span: Span,
}

/// Mathematical model of an expression form.
pub enum ExprKindV {
    BigInt(Seq<char>),
    Bool(bool),
    Variable { module: Option<IdentV>, name: IdentV },
    FnCall { module: Option<IdentV>, fn_name: IdentV, args: Seq<ExprV> },
    CustomTypeDeclaration { struct_name: IdentV, fields: Seq<(IdentV, ExprV)> },
}

/// The view of an optional module qualifier.
pub open spec fn view_opt_ident(module: Option<Ident>) -> Option<IdentV> {
    match module {
        Some(m) => Some(m@),
        None => None,
    }
}

/// The view of an expression, recursively.
pub open spec fn view_expr(e: Expr) -> ExprV
    decreases e,
{
    ExprV { kind: view_expr_kind(e.kind), span: e.span }
}

/// The view of an expression form, recursively.
pub open spec fn view_expr_kind(k: ExprKind) -> ExprKindV
    decreases k,
{
    match k {
        ExprKind::BigInt(s) => ExprKindV::BigInt(s@),
        ExprKind::Bool(b) => ExprKindV::Bool(b),
        ExprKind::Variable { module, name } => ExprKindV::Variable {
            module: view_opt_ident(module),
            name: name@,
        },
        ExprKind::FnCall { module, fn_name, args } => ExprKindV::FnCall {
            module: view_opt_ident(module),
            fn_name: fn_name@,
            args: view_exprs(args@),
        },
        ExprKind::CustomTypeDeclaration { struct_name, fields } => (
        ExprKindV::CustomTypeDeclaration {
            struct_name: struct_name@,
            fields: view_field_inits(fields@),
        }),
    }
}

/// The views of a sequence of expressions.
pub open spec fn view_exprs(s: Seq<Expr>) -> Seq<ExprV>
    decreases s,
{
    if s.len() == 0 {
        Seq::empty()
    } else {
        view_exprs(s.drop_last()).push(view_expr(s.last()))
    }
}

/// The views of a sequence of `field: value` initialisers.
pub open spec fn view_field_inits(s: Seq<(Ident, Expr)>) -> Seq<(IdentV, ExprV)>
    decreases s,
{
    if s.len() == 0 {
        Seq::empty()
    } else {
        view_field_inits(s.drop_last()).push((s.last().0@, view_expr(s.last().1)))
    }
}

impl View for Expr {
    type V = ExprV;

    open spec fn view(&self) -> ExprV {
        view_expr(*self)
    }
}

impl DeepView for Expr {
    type V = ExprV;

    open spec fn deep_view(&self) -> ExprV {
        view_expr(*self)
    }
}

impl Expr {
    pub fn new(kind: ExprKind, span: Span) -> (e: Expr)
        ensures
            e.kind == kind,
            e.span == span,
    {
        Expr { kind, span }
    }
}

/// The argument list of a function call, after the leading `(` has been
/// consumed: arguments separated (loosely) by commas, closed by `)`.
/// Running out of tokens inside the list is an error.
pub open spec fn spec_fn_call_args_loop(
    toks: Seq<TokenV>,
    st: PState,
    span: Span,
    args: Seq<ExprV>,
) -> Parsed<(Seq<ExprV>, Span)>
    decreases toks.len() - st.pos, 1int,
{
    match s_peek(toks, st) {
        None => Parsed::Failed { err: ErrorV { kind: ErrorKindV::InvalidFnCall, span: st.last } },
        Some(t) => match t.kind {
            TokenKindV::Comma => spec_fn_call_args_loop(toks, s_advance(toks, st), span, args),
            TokenKindV::RightParen => Parsed::Found {
                val: (args, spec_merge(span, t.span)),
                st: s_advance(toks, st),
            },
            _ => match spec_parse_expr(toks, st) {
                Parsed::Failed { err } => Parsed::Failed { err },
                Parsed::Found { val: arg, st: st1 } => {
                    // the expression parser always consumes at least one
                    // token; the bound re-states that for the
                    // termination checker
                    if st.pos < st1.pos <= toks.len() {
                        spec_fn_call_args_loop(toks, st1, span, args.push(arg))
                    } else {
                        Parsed::Failed {
                            err: ErrorV { kind: ErrorKindV::InvalidFnCall, span: st.last },
                        }
                    }
                },
            },
        },
    }
}

/// A function-call argument list: the leading `(`, then the arguments
/// until the closing `)`.  The value also carries the span from the
/// opening to the closing parenthesis.
pub open spec fn spec_parse_fn_call_args(toks: Seq<TokenV>, st: PState) -> Parsed<
    (Seq<ExprV>, Span),
>
    decreases toks.len() - st.pos, 2int,
{
    match s_bump_err(toks, st, ErrorKindV::InvalidFnCall) {
        Parsed::Failed { err } => Parsed::Failed { err },
        Parsed::Found { val: start, st: st1 } => spec_fn_call_args_loop(
            toks,
            st1,
            start.span,
            Seq::empty(),
        ),
    }
}

/// The field list of a struct-construction expression: `field: value`
/// pairs, each followed by a comma or the closing brace; the last field
/// may omit the trailing comma.
pub open spec fn spec_struct_init_fields(
    toks: Seq<TokenV>,
    st: PState,
    ident: IdentV,
    fields: Seq<(IdentV, ExprV)>,
) -> Parsed<ExprV>
    decreases toks.len() - st.pos, 1int,
{
    match s_peek(toks, st) {
        Some(t) => if t.kind is RightCurlyBracket {
            Parsed::Found {
                val: ExprV {
                    kind: ExprKindV::CustomTypeDeclaration { struct_name: ident, fields },
                    span: spec_merge(ident.span, t.span),
                },
                st: s_advance(toks, st),
            }
        } else {
            spec_struct_one_field(toks, st, ident, fields)
        },
        None => spec_struct_one_field(toks, st, ident, fields),
    }
}

/// One `field: value` pair of a struct-construction expression and what
/// follows it: a comma continues the list, a closing brace ends it.
pub open spec fn spec_struct_one_field(
    toks: Seq<TokenV>,
    st: PState,
    ident: IdentV,
    fields: Seq<(IdentV, ExprV)>,
) -> Parsed<ExprV>
    decreases toks.len() - st.pos, 0int,
{
    match spec_parse_ident(toks, st) {
        Parsed::Failed { err } => Parsed::Failed { err },
        Parsed::Found { val: field_name, st: st1 } => match s_bump_expected(
                toks,
                st1,
                TokenType::Colon,
            ) {
                Parsed::Failed { err } => Parsed::Failed { err },
                Parsed::Found { val: _colon, st: st2 } => match spec_parse_expr(toks, st2) {
                    Parsed::Failed { err } => Parsed::Failed { err },
                    Parsed::Found { val: field_value, st: st3 } => match s_bump_err(
                        toks,
                        st3,
                        ErrorKindV::InvalidEndOfLine,
                    ) {
                        Parsed::Failed { err } => Parsed::Failed { err },
                        Parsed::Found { val: sep, st: st4 } => match sep.kind {
                            TokenKindV::Comma => {
                                // the sub-parsers always consume tokens;
                                // the bound re-states that for the
                                // termination checker
                                if st.pos < st4.pos <= toks.len() {
                                    spec_struct_init_fields(
                                        toks,
                                        st4,
                                        ident,
                                        fields.push((field_name, field_value)),
                                    )
                                } else {
                                    Parsed::Failed {
                                        err: ErrorV {
                                            kind: ErrorKindV::InvalidEndOfLine,
                                            span: st4.last,
                                        },
                                    }
                                }
                            },
                            TokenKindV::RightCurlyBracket => Parsed::Found {
                                val: ExprV {
                                    kind: ExprKindV::CustomTypeDeclaration {
                                        struct_name: ident,
                                        fields: fields.push((field_name, field_value)),
                                    },
                                    span: spec_merge(ident.span, sep.span),
                                },
                                st: st4,
                            },
                            _ => Parsed::Failed {
                                err: ErrorV { kind: ErrorKindV::InvalidEndOfLine, span: st4.last },
                            },
                        },
                    },
                },
            },
    }
}

/// A struct-construction expression, after its type-cased name has been
/// consumed: the name must satisfy the type-casing rule, then `{`, the
/// field list, and the closing `}`.
pub open spec fn spec_parse_type_declaration(
    toks: Seq<TokenV>,
    st: PState,
    ident: IdentV,
) -> Parsed<ExprV>
    decreases toks.len() - st.pos, 2int,
{
    if !is_type_chars(ident.value) {
        Parsed::Failed { err: ErrorV { kind: ErrorKindV::InvalidTypeName, span: ident.span } }
    } else {
        spec_struct_init_fields(toks, s_advance(toks, st), ident, Seq::empty())
    }
}

/// An expression: an integer or boolean literal, a plain or
/// module-qualified variable or call, or a struct-construction
/// expression introduced by a type-cased identifier followed by `{`.
pub open spec fn spec_parse_expr(toks: Seq<TokenV>, st: PState) -> Parsed<ExprV>
    decreases toks.len() - st.pos, 0int,
{
    match s_bump_err(toks, st, ErrorKindV::InvalidExpression) {
        Parsed::Failed { err } => Parsed::Failed { err },
        Parsed::Found { val: token, st: st1 } => match token.kind {
            TokenKindV::BigInt(s) => Parsed::Found {
                val: ExprV { kind: ExprKindV::BigInt(s), span: token.span },
                st: st1,
            },
            TokenKindV::Keyword(Keyword::True) => Parsed::Found {
                val: ExprV { kind: ExprKindV::Bool(true), span: token.span },
                st: st1,
            },
            TokenKindV::Keyword(Keyword::False) => Parsed::Found {
                val: ExprV { kind: ExprKindV::Bool(false), span: token.span },
                st: st1,
            },
            TokenKindV::Identifier(name) => {
                let ident = IdentV { value: name, span: token.span };
                let brace_next = match s_peek(toks, st1) {
                    Some(t2) => t2.kind is LeftCurlyBracket,
                    None => false,
                };
                if is_type_chars(name) && brace_next {
                    spec_parse_type_declaration(toks, st1, ident)
                } else {
                    spec_parse_expr_path(toks, st1, ident)
                }
            },
            _ => Parsed::Failed {
                err: ErrorV { kind: ErrorKindV::InvalidExpression, span: token.span },
            },
        },
    }
}

/// Continuation of an expression after a plain identifier: `::` opens a
/// module-qualified name, `(` opens a call, anything else leaves a bare
/// variable.
pub open spec fn spec_parse_expr_path(toks: Seq<TokenV>, st1: PState, ident: IdentV) -> Parsed<
    ExprV,
>
    decreases toks.len() - st1.pos, 3int,
{
    match s_peek(toks, st1) {
        Some(t2) => if t2.kind is DoubleColon {
            let st2 = s_advance(toks, st1);
            match spec_parse_ident(toks, st2) {
                Parsed::Failed { err } => Parsed::Failed { err },
                Parsed::Found { val: name, st: st3 } => {
                    let paren_next = match s_peek(toks, st3) {
                        Some(t3) => t3.kind is LeftParen,
                        None => false,
                    };
                    if paren_next {
                        match spec_parse_fn_call_args(toks, st3) {
                            Parsed::Failed { err } => Parsed::Failed { err },
                            Parsed::Found { val: args, st: st4 } => Parsed::Found {
                                val: ExprV {
                                    kind: ExprKindV::FnCall {
                                        module: Some(ident),
                                        fn_name: name,
                                        args: args.0,
                                    },
                                    span: spec_merge(ident.span, args.1),
                                },
                                st: st4,
                            },
                        }
                    } else {
                        Parsed::Found {
                            val: ExprV {
                                kind: ExprKindV::Variable { module: Some(ident), name },
                                span: spec_merge(ident.span, name.span),
                            },
                            st: st3,
                        }
                    }
                },
            }
        } else if t2.kind is LeftParen {
            match spec_parse_fn_call_args(toks, st1) {
                Parsed::Failed { err } => Parsed::Failed { err },
                Parsed::Found { val: args, st: st2 } => Parsed::Found {
                    val: ExprV {
                        kind: ExprKindV::FnCall { module: None, fn_name: ident, args: args.0 },
                        span: spec_merge(ident.span, args.1),
                    },
                    st: st2,
                },
            }
        } else {
            Parsed::Found {
                val: ExprV {
                    kind: ExprKindV::Variable { module: None, name: ident },
                    span: ident.span,
                },
                st: st1,
            }
        },
        None => Parsed::Found {
            val: ExprV { kind: ExprKindV::Variable { module: None, name: ident }, span: ident.span },
            st: st1,
        },
    }
}

/// What the argument-list functions promise, relative to their
/// spec-level counterpart `sr`.
pub open spec fn fn_call_args_post(
    toks0: TokensV,
    toks1: TokensV,
    ctx1: ParserCtx,
    r: Result<(Vec<Expr>, Span), Error>,
    sr: Parsed<(Seq<ExprV>, Span)>,
) -> bool {
    &&& toks1.toks == toks0.toks
    &&& match r {
        Ok(p) => {
            &&& sr == (Parsed::Found {
                val: (view_exprs(p.0@), p.1),
                st: state_of(toks1, ctx1),
            })
            &&& toks0.pos < toks1.pos <= toks0.toks.len()
        },
        Err(e) => {
            &&& sr == (Parsed::Failed::<(Seq<ExprV>, Span)> { err: e@ })
            &&& toks0.pos <= toks1.pos
        },
    }
}

/// Parse a function-call argument list: the leading `(`, then expressions
/// until the closing `)`.  Commas between arguments are consumed but not
/// enforced, exactly as the grammar model states.
pub fn parse_fn_call_args(ctx: &mut ParserCtx, tokens: &mut Tokens) -> (r: Result<
    (Vec<Expr>, Span),
    Error,
>)
    ensures
        fn_call_args_post(
            old(tokens)@,
            final(tokens)@,
            *final(ctx),
            r,
            spec_parse_fn_call_args(old(tokens)@.toks, state_of(old(tokens)@, *old(ctx))),
        ),
    decreases tokens@.toks.len() - tokens@.pos, 4int,
{
    let start = tokens.bump_err(ctx, ErrorKind::InvalidFnCall)?;
    let args: Vec<Expr> = Vec::new();
    proof {
        assert(args@ =~= Seq::<Expr>::empty());
    }
    fn_call_args_loop(ctx, tokens, start.span, args)
}

/// The tail of a function-call argument list.
fn fn_call_args_loop(ctx: &mut ParserCtx, tokens: &mut Tokens, span: Span, args: Vec<Expr>) -> (r:
    Result<(Vec<Expr>, Span), Error>)
    ensures
        fn_call_args_post(
            old(tokens)@,
            final(tokens)@,
            *final(ctx),
            r,
            spec_fn_call_args_loop(
                old(tokens)@.toks,
                state_of(old(tokens)@, *old(ctx)),
                span,
                view_exprs(args@),
            ),
        ),
    decreases tokens@.toks.len() - tokens@.pos, 3int,
{
    let next: Option<TokenType> = match tokens.peek() {
        Some(t) => Some(t.kind.token_type()),
        None => None,
    };
    match next {
        None => Err(ctx.error(ErrorKind::InvalidFnCall, ctx.last_span())),
        Some(TokenType::Comma) => {
            tokens.bump(ctx);
            fn_call_args_loop(ctx, tokens, span, args)
        },
        Some(TokenType::RightParen) => match tokens.bump(ctx) {
            Some(end) => Ok((args, span.merge_with(end.span))),
            None => {
                proof {
                    assert(false);
                }
                Err(ctx.error(ErrorKind::InvalidFnCall, ctx.last_span()))
            },
        },
        Some(_) => {
            let ghost args0 = args@;
            let arg = match Expr::parse(ctx, tokens) {
                Ok(e) => e,
                Err(e) => {
                    return Err(e);
                },
            };
            let ghost arg_v = view_expr(arg);
            let mut args = args;
            args.push(arg);
            proof {
                assert(args@.drop_last() =~= args0);
                assert(view_exprs(args@) == view_exprs(args0).push(arg_v));
            }
            fn_call_args_loop(ctx, tokens, span, args)
        },
    }
}

/// Parse a struct-construction expression `Name { field: value, … }`,
/// whose (already consumed) name is handed in by the expression parser.
/// The name must satisfy the type-casing rule.
pub fn parse_type_declaration(ctx: &mut ParserCtx, tokens: &mut Tokens, ident: Ident) -> (r: Result<
    Expr,
    Error,
>)
    ensures
        parse_post(
            old(tokens)@,
            *old(ctx),
            final(tokens)@,
            *final(ctx),
            r,
            spec_parse_type_declaration(
                old(tokens)@.toks,
                state_of(old(tokens)@, *old(ctx)),
                ident@,
            ),
        ),
    decreases tokens@.toks.len() - tokens@.pos, 4int,
{
    if !is_type(ident.value.as_str()) {
        return Err(ctx.error(ErrorKind::InvalidTypeName, ident.span));
    }
    // the opening brace; the caller has already seen it
    tokens.bump(ctx);
    let fields: Vec<(Ident, Expr)> = Vec::new();
    proof {
        assert(fields@ =~= Seq::<(Ident, Expr)>::empty());
    }
    struct_init_fields(ctx, tokens, ident, fields)
}

/// The field list of a struct-construction expression.
fn struct_init_fields(
    ctx: &mut ParserCtx,
    tokens: &mut Tokens,
    ident: Ident,
    fields: Vec<(Ident, Expr)>,
) -> (r: Result<Expr, Error>)
    ensures
        parse_post(
            old(tokens)@,
            *old(ctx),
            final(tokens)@,
            *final(ctx),
            r,
            spec_struct_init_fields(
                old(tokens)@.toks,
                state_of(old(tokens)@, *old(ctx)),
                ident@,
                view_field_inits(fields@),
            ),
        ),
    decreases tokens@.toks.len() - tokens@.pos, 3int,
{
    let next: Option<TokenType> = match tokens.peek() {
        Some(t) => Some(t.kind.token_type()),
        None => None,
    };
    if matches!(next, Some(TokenType::RightCurlyBracket)) {
        match tokens.bump(ctx) {
            Some(rbrace) => {
                let span = ident.span.merge_with(rbrace.span);
                Ok(Expr {
                    kind: ExprKind::CustomTypeDeclaration { struct_name: ident, fields },
                    span,
                })
            },
            None => {
                proof {
                    assert(false);
                }
                Err(ctx.error(ErrorKind::InvalidEndOfLine, ctx.last_span()))
            },
        }
    } else {
        let field_name = Ident::parse(ctx, tokens)?;
        tokens.bump_expected(ctx, TokenType::Colon)?;
        let field_value = match Expr::parse(ctx, tokens) {
            Ok(e) => e,
            Err(e) => {
                return Err(e);
            },
        };
        let ghost fields0 = fields@;
        let ghost fname_v = field_name@;
        let ghost fval_v = view_expr(field_value);
        let mut fields = fields;
        fields.push((field_name, field_value));
        proof {
            assert(fields@.drop_last() =~= fields0);
            assert(view_field_inits(fields@) == view_field_inits(fields0).push((fname_v, fval_v)));
        }
        let sep = tokens.bump_err(ctx, ErrorKind::InvalidEndOfLine)?;
        let sep_span = sep.span;
        match sep.kind {
            TokenKind::Comma => struct_init_fields(ctx, tokens, ident, fields),
            TokenKind::RightCurlyBracket => {
                let span = ident.span.merge_with(sep_span);
                Ok(Expr {
                    kind: ExprKind::CustomTypeDeclaration { struct_name: ident, fields },
                    span,
                })
            },
            _ => Err(ctx.error(ErrorKind::InvalidEndOfLine, ctx.last_span())),
        }
    }
}

impl Expr {
    /// Parse one expression of the supported fragment.
    pub fn parse(ctx: &mut ParserCtx, tokens: &mut Tokens) -> (r: Result<Expr, Error>)
        ensures
            parse_post(
                old(tokens)@,
                *old(ctx),
                final(tokens)@,
                *final(ctx),
                r,
                spec_parse_expr(old(tokens)@.toks, state_of(old(tokens)@, *old(ctx))),
            ),
        decreases tokens@.toks.len() - tokens@.pos, 2int,
    {
        let token = tokens.bump_err(ctx, ErrorKind::InvalidExpression)?;
        let token_span = token.span;
        match token.kind {
            TokenKind::BigInt(s) => Ok(Expr { kind: ExprKind::BigInt(s), span: token_span }),
            TokenKind::Keyword(Keyword::True) => Ok(
                Expr { kind: ExprKind::Bool(true), span: token_span },
            ),
            TokenKind::Keyword(Keyword::False) => Ok(
                Expr { kind: ExprKind::Bool(false), span: token_span },
            ),
            TokenKind::Identifier(name) => {
                let next: Option<TokenType> = match tokens.peek() {
                    Some(t) => Some(t.kind.token_type()),
                    None => None,
                };
                let ident = Ident { value: name, span: token_span };
                let brace_next = matches!(next, Some(TokenType::LeftCurlyBracket));
                if is_type(ident.value.as_str()) && brace_next {
                    parse_type_declaration(ctx, tokens, ident)
                } else {
                    Expr::parse_path(ctx, tokens, ident)
                }
            },
            _ => Err(ctx.error(ErrorKind::InvalidExpression, token_span)),
        }
    }

    /// Continuation of an expression after a plain identifier.
    fn parse_path(ctx: &mut ParserCtx, tokens: &mut Tokens, ident: Ident) -> (r: Result<
        Expr,
        Error,
    >)
        ensures
            parse_post_opt(
                old(tokens)@,
                *old(ctx),
                final(tokens)@,
                *final(ctx),
                r,
                spec_parse_expr_path(old(tokens)@.toks, state_of(old(tokens)@, *old(ctx)), ident@),
            ),
        decreases tokens@.toks.len() - tokens@.pos, 5int,
    {
        let next: Option<TokenType> = match tokens.peek() {
            Some(t) => Some(t.kind.token_type()),
            None => None,
        };
        match next {
            Some(TokenType::DoubleColon) => {
                tokens.bump(ctx);
                let name = Ident::parse(ctx, tokens)?;
                let after: Option<TokenType> = match tokens.peek() {
                    Some(t) => Some(t.kind.token_type()),
                    None => None,
                };
                if matches!(after, Some(TokenType::LeftParen)) {
                    let (args, args_span) = match parse_fn_call_args(ctx, tokens) {
                        Ok(p) => p,
                        Err(e) => {
                            return Err(e);
                        },
                    };
                    let span = ident.span.merge_with(args_span);
                    Ok(Expr {
                        kind: ExprKind::FnCall { module: Some(ident), fn_name: name, args },
                        span,
                    })
                } else {
                    let span = ident.span.merge_with(name.span);
                    Ok(Expr { kind: ExprKind::Variable { module: Some(ident), name }, span })
                }
            },
            Some(TokenType::LeftParen) => {
                let (args, args_span) = match parse_fn_call_args(ctx, tokens) {
                    Ok(p) => p,
                    Err(e) => {
                        return Err(e);
                    },
                };
                let span = ident.span.merge_with(args_span);
                Ok(Expr { kind: ExprKind::FnCall { module: None, fn_name: ident, args }, span })
            },
            _ => {
                let span = ident.span;
                Ok(Expr { kind: ExprKind::Variable { module: None, name: ident }, span })
            },
        }
    }
}

} // verus!
