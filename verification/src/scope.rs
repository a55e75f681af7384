//! Top-level items of a compilation unit: use-paths, constant
//! declarations, struct declarations, and the root enumeration that
//! holds them in source order.

use vstd::prelude::*;

verus! {

broadcast use vstd::std_specs::control_flow::group_control_flow_axioms;

use crate::constants::{Field, Span, spec_merge};
use crate::error::{Error, ErrorKind, ErrorKindV, ErrorV, PathIssue, SigIssue};
use crate::expr::{spec_parse_expr, Expr, ExprKind, ExprKindV};
use crate::functions::Function;
use crate::syntax::{parse_decimal_u128, spec_parse_decimal};
use crate::tokens::{
    parse_post, s_advance, s_bump_expected, s_bump_ident, s_peek, state_of, Parsed, ParserCtx,
    PState, TokenKindV, TokenType, TokenV, Tokens,
};
use crate::types::{
    spec_parse_custom_type, spec_parse_ident, spec_parse_ty, CustomType, CustomTypeV, Ident,
    IdentV, Ty, TyV,
};

/// A two-segment import path `module::submodule`; no deeper nesting is
/// supported.
#[derive(Debug, Clone, PartialEq, Eq)]
pub struct UsePath {
    pub module: Ident,
    pub submodule: Ident,
    pub span: Span,
}

/// Mathematical model of a use-path.
pub struct UsePathV {
    pub module: IdentV,
    pub submodule: IdentV,
    pub span: Span,
}

impl View for UsePath {
    type V = UsePathV;

    open spec fn view(&self) -> UsePathV {
        UsePathV { module: self.module@, submodule: self.submodule@, span: self.span }
    }
}

impl DeepView for UsePath {
    type V = UsePathV;

    open spec fn deep_view(&self) -> UsePathV {
        self@
    }
}

/// What parsing a use-path yields: exactly `module :: submodule`.
pub open spec fn spec_parse_use_path(toks: Seq<TokenV>, st: PState) -> Parsed<UsePathV> {
    match s_bump_ident(toks, st, ErrorKindV::InvalidPath(PathIssue::ExpectedModule)) {
        Parsed::Failed { err } => Parsed::Failed { err },
        Parsed::Found { val: module, st: st1 } => match s_bump_expected(
            toks,
            st1,
            TokenType::DoubleColon,
        ) {
            Parsed::Failed { err } => Parsed::Failed { err },
            Parsed::Found { val: _cc, st: st2 } => match s_bump_ident(
                toks,
                st2,
                ErrorKindV::InvalidPath(PathIssue::ExpectedSubmodule),
            ) {
                Parsed::Failed { err } => Parsed::Failed { err },
                Parsed::Found { val: submodule, st: st3 } => Parsed::Found {
                    val: UsePathV {
                        module,
                        submodule,
                        span: spec_merge(module.span, submodule.span),
                    },
                    st: st3,
                },
            },
        },
    }
}

impl UsePath {
    /// Parse `module::submodule`; exactly two segments are accepted.
    pub fn parse(ctx: &mut ParserCtx, tokens: &mut Tokens) -> (r: Result<UsePath, Error>)
        ensures
            parse_post(
                old(tokens)@,
                *old(ctx),
                final(tokens)@,
                *final(ctx),
                r,
                spec_parse_use_path(old(tokens)@.toks, state_of(old(tokens)@, *old(ctx))),
            ),
    {
        let module = tokens.bump_ident(ctx, ErrorKind::InvalidPath(PathIssue::ExpectedModule))?;
        tokens.bump_expected(ctx, TokenType::DoubleColon)?;
        let submodule = tokens.bump_ident(
            ctx,
            ErrorKind::InvalidPath(PathIssue::ExpectedSubmodule),
        )?;
        let span = module.span.merge_with(submodule.span);
        Ok(UsePath { module, submodule, span })
    }
}

/// A user/repository pair a use-path resolves to for package lookup.
#[derive(Debug, Clone, PartialEq, Eq)]
pub struct UserRepo {
    pub user: String,
    pub repo: String,
}

impl UserRepo {
    /// The package a use-path points at: its module names the user, its
    /// submodule the repository.
    pub fn from_use_path(path: &UsePath) -> (r: UserRepo)
        ensures
            r.user@ == path.module.value@,
            r.repo@ == path.submodule.value@,
    {
        UserRepo { user: path.module.value.clone(), repo: path.submodule.value.clone() }
    }
}

/// A top-level constant declaration.
#[derive(Debug)]
pub struct Const {
    pub name: Ident,
    pub value: Field,
    pub span: Span,
}

/// Mathematical model of a constant declaration.
pub struct ConstV {
    pub name: IdentV,
    pub value: Field,
    pub span: Span,
}

impl View for Const {
    type V = ConstV;

    open spec fn view(&self) -> ConstV {
        ConstV { name: self.name@, value: self.value, span: self.span }
    }
}

impl DeepView for Const {
    type V = ConstV;

    open spec fn deep_view(&self) -> ConstV {
        self@
    }
}

/// What parsing `name = <expr> ;` (after the `const` keyword) yields:
/// the right-hand side must be an integer literal that parses as a field
/// element; any other expression shape is an invalid-constant-type
/// error.
pub open spec fn spec_parse_const(toks: Seq<TokenV>, st: PState) -> Parsed<ConstV> {
    match spec_parse_ident(toks, st) {
        Parsed::Failed { err } => Parsed::Failed { err },
        Parsed::Found { val: name, st: st1 } => match s_bump_expected(
            toks,
            st1,
            TokenType::Equal,
        ) {
            Parsed::Failed { err } => Parsed::Failed { err },
            Parsed::Found { val: _eq, st: st2 } => match spec_parse_expr(toks, st2) {
                Parsed::Failed { err } => Parsed::Failed { err },
                Parsed::Found { val: value, st: st3 } => match value.kind {
                    ExprKindV::BigInt(s) => match spec_parse_decimal(s, u128::MAX as int) {
                        Some(v) => match s_bump_expected(toks, st3, TokenType::SemiColon) {
                            Parsed::Failed { err } => Parsed::Failed { err },
                            Parsed::Found { val: _semi, st: st4 } => Parsed::Found {
                                val: ConstV {
                                    name,
                                    value: Field { value: v as u128 },
                                    span: name.span,
                                },
                                st: st4,
                            },
                        },
                        None => Parsed::Failed {
                            err: ErrorV { kind: ErrorKindV::InvalidField(s), span: value.span },
                        },
                    },
                    _ => Parsed::Failed {
                        err: ErrorV { kind: ErrorKindV::InvalidConstType, span: value.span },
                    },
                },
            },
        },
    }
}

impl Const {
    /// Parse a constant declaration, without the `const` keyword: the
    /// name, `=`, a literal-integer value, `;`.
    pub fn parse(ctx: &mut ParserCtx, tokens: &mut Tokens) -> (r: Result<Const, Error>)
        ensures
            parse_post(
                old(tokens)@,
                *old(ctx),
                final(tokens)@,
                *final(ctx),
                r,
                spec_parse_const(old(tokens)@.toks, state_of(old(tokens)@, *old(ctx))),
            ),
    {
        let name = Ident::parse(ctx, tokens)?;
        tokens.bump_expected(ctx, TokenType::Equal)?;
        let value = match Expr::parse(ctx, tokens) {
            Ok(e) => e,
            Err(e) => {
                return Err(e);
            },
        };
        let value_span = value.span;
        let field_value: Field = match value.kind {
            ExprKind::BigInt(s) => match parse_decimal_u128(s.as_str()) {
                Some(v) => Field { value: v },
                None => {
                    return Err(ctx.error(ErrorKind::InvalidField(s), value_span));
                },
            },
            _ => {
                return Err(ctx.error(ErrorKind::InvalidConstType, value_span));
            },
        };
        tokens.bump_expected(ctx, TokenType::SemiColon)?;
        let span = name.span;
        Ok(Const { name, value: field_value, span })
    }
}

/// A top-level struct declaration.  Field order is significant and
/// preserved: it drives layout downstream.
#[derive(Debug)]
pub struct Struct {
    pub name: CustomType,
    pub fields: Vec<(Ident, Ty)>,
    pub span: Span,
}

/// Mathematical model of a struct declaration.
pub struct StructV {
    pub name: CustomTypeV,
    pub fields: Seq<(IdentV, TyV)>,
    pub span: Span,
}

/// The views of a sequence of struct fields.
pub open spec fn view_struct_fields(s: Seq<(Ident, Ty)>) -> Seq<(IdentV, TyV)>
    decreases s,
{
    if s.len() == 0 {
        Seq::empty()
    } else {
        view_struct_fields(s.drop_last()).push((s.last().0@, s.last().1@))
    }
}

impl View for Struct {
    type V = StructV;

    open spec fn view(&self) -> StructV {
        StructV { name: self.name@, fields: view_struct_fields(self.fields@), span: self.span }
    }
}

impl DeepView for Struct {
    type V = StructV;

    open spec fn deep_view(&self) -> StructV {
        self@
    }
}

/// The field list of a struct declaration: `name: type` pairs, each
/// followed by a comma or the closing brace; the last field may omit
/// the trailing comma.
pub open spec fn spec_struct_fields(
    toks: Seq<TokenV>,
    st: PState,
    start_span: Span,
    name: CustomTypeV,
    fields: Seq<(IdentV, TyV)>,
) -> Parsed<StructV>
    decreases toks.len() - st.pos, 1int,
{
    match s_peek(toks, st) {
        Some(t) => if t.kind is RightCurlyBracket {
            Parsed::Found {
                val: StructV { name, fields, span: spec_merge(start_span, t.span) },
                st: s_advance(toks, st),
            }
        } else {
            spec_struct_field_one(toks, st, start_span, name, fields)
        },
        None => spec_struct_field_one(toks, st, start_span, name, fields),
    }
}

/// One `name: type` field of a struct declaration and its separator.
pub open spec fn spec_struct_field_one(
    toks: Seq<TokenV>,
    st: PState,
    start_span: Span,
    name: CustomTypeV,
    fields: Seq<(IdentV, TyV)>,
) -> Parsed<StructV>
    decreases toks.len() - st.pos, 0int,
{
    match spec_parse_ident(toks, st) {
        Parsed::Failed { err } => Parsed::Failed { err },
        Parsed::Found { val: field_name, st: st1 } => match s_bump_expected(
            toks,
            st1,
            TokenType::Colon,
        ) {
            Parsed::Failed { err } => Parsed::Failed { err },
            Parsed::Found { val: _colon, st: st2 } => match spec_parse_ty(toks, st2) {
                Parsed::Failed { err } => Parsed::Failed { err },
                Parsed::Found { val: field_ty, st: st3 } => match s_peek(toks, st3) {
                    Some(t) => match t.kind {
                        TokenKindV::Comma => {
                            let st4 = s_advance(toks, st3);
                            // the sub-parsers always consume tokens; the
                            // bound re-states that for the termination
                            // checker
                            if st.pos < st4.pos <= toks.len() {
                                spec_struct_fields(
                                    toks,
                                    st4,
                                    start_span,
                                    name,
                                    fields.push((field_name, field_ty)),
                                )
                            } else {
                                Parsed::Failed {
                                    err: ErrorV {
                                        kind: ErrorKindV::ExpectedToken(TokenType::Comma),
                                        span: st3.last,
                                    },
                                }
                            }
                        },
                        TokenKindV::RightCurlyBracket => Parsed::Found {
                            val: StructV {
                                name,
                                fields: fields.push((field_name, field_ty)),
                                span: spec_merge(start_span, t.span),
                            },
                            st: s_advance(toks, st3),
                        },
                        _ => Parsed::Failed {
                            err: ErrorV {
                                kind: ErrorKindV::ExpectedToken(TokenType::Comma),
                                span: st3.last,
                            },
                        },
                    },
                    None => Parsed::Failed {
                        err: ErrorV {
                            kind: ErrorKindV::ExpectedToken(TokenType::Comma),
                            span: st3.last,
                        },
                    },
                },
            },
        },
    }
}

/// What parsing a struct declaration (after the `struct` keyword)
/// yields: the type-cased name, `{`, the fields, `}`.  The span runs
/// from the name to the closing brace.
pub open spec fn spec_parse_struct(toks: Seq<TokenV>, st: PState) -> Parsed<StructV> {
    match s_peek(toks, st) {
        None => Parsed::Failed {
            err: ErrorV {
                kind: ErrorKindV::InvalidFunctionSignature(SigIssue::ExpectedName),
                span: st.last,
            },
        },
        Some(first) => match spec_parse_custom_type(toks, st) {
            Parsed::Failed { err } => Parsed::Failed { err },
            Parsed::Found { val: name, st: st1 } => match s_bump_expected(
                toks,
                st1,
                TokenType::LeftCurlyBracket,
            ) {
                Parsed::Failed { err } => Parsed::Failed { err },
                Parsed::Found { val: _brace, st: st2 } => spec_struct_fields(
                    toks,
                    st2,
                    first.span,
                    name,
                    Seq::empty(),
                ),
            },
        },
    }
}

/// The continuation of a struct declaration's field list, carried by
/// the recursive field parser.
fn parse_struct_fields(
    ctx: &mut ParserCtx,
    tokens: &mut Tokens,
    start_span: Span,
    name: CustomType,
    fields: Vec<(Ident, Ty)>,
) -> (r: Result<Struct, Error>)
    ensures
        parse_post(
            old(tokens)@,
            *old(ctx),
            final(tokens)@,
            *final(ctx),
            r,
            spec_struct_fields(
                old(tokens)@.toks,
                state_of(old(tokens)@, *old(ctx)),
                start_span,
                name@,
                view_struct_fields(fields@),
            ),
        ),
    decreases tokens@.toks.len() - tokens@.pos,
{
    let next: Option<TokenType> = match tokens.peek() {
        Some(t) => Some(t.kind.token_type()),
        None => None,
    };
    if matches!(next, Some(TokenType::RightCurlyBracket)) {
        match tokens.bump(ctx) {
            Some(rbrace) => {
                let span = start_span.merge_with(rbrace.span);
                Ok(Struct { name, fields, span })
            },
            None => {
                proof {
                    assert(false);
                }
                Err(ctx.error(ErrorKind::ExpectedToken(TokenType::Comma), ctx.last_span()))
            },
        }
    } else {
        let field_name = Ident::parse(ctx, tokens)?;
        tokens.bump_expected(ctx, TokenType::Colon)?;
        let field_ty = match Ty::parse(ctx, tokens) {
            Ok(t) => t,
            Err(e) => {
                return Err(e);
            },
        };
        let ghost fields0 = fields@;
        let ghost fname_v = field_name@;
        let ghost fty_v = field_ty@;
        let mut fields = fields;
        fields.push((field_name, field_ty));
        proof {
            assert(fields@.drop_last() =~= fields0);
            assert(view_struct_fields(fields@) == view_struct_fields(fields0).push(
                (fname_v, fty_v),
            ));
        }
        let sep: Option<TokenType> = match tokens.peek() {
            Some(t) => Some(t.kind.token_type()),
            None => None,
        };
        match sep {
            Some(TokenType::Comma) => {
                tokens.bump(ctx);
                parse_struct_fields(ctx, tokens, start_span, name, fields)
            },
            Some(TokenType::RightCurlyBracket) => match tokens.bump(ctx) {
                Some(rbrace) => {
                    let span = start_span.merge_with(rbrace.span);
                    Ok(Struct { name, fields, span })
                },
                None => {
                    proof {
                        assert(false);
                    }
                    Err(ctx.error(ErrorKind::ExpectedToken(TokenType::Comma), ctx.last_span()))
                },
            },
            _ => Err(ctx.error(ErrorKind::ExpectedToken(TokenType::Comma), ctx.last_span())),
        }
    }
}

impl Struct {
    /// Parse a struct declaration, without the `struct` keyword: the
    /// type-cased name, `{`, `name: type` fields, `}`.
    pub fn parse(ctx: &mut ParserCtx, tokens: &mut Tokens) -> (r: Result<Struct, Error>)
        ensures
            parse_post(
                old(tokens)@,
                *old(ctx),
                final(tokens)@,
                *final(ctx),
                r,
                spec_parse_struct(old(tokens)@.toks, state_of(old(tokens)@, *old(ctx))),
            ),
    {
        let start_span: Span = match tokens.peek() {
            Some(t) => t.span,
            None => {
                return Err(ctx.error(
                    ErrorKind::InvalidFunctionSignature(SigIssue::ExpectedName),
                    ctx.last_span(),
                ));
            },
        };
        let name = CustomType::parse(ctx, tokens)?;
        tokens.bump_expected(ctx, TokenType::LeftCurlyBracket)?;
        let fields: Vec<(Ident, Ty)> = Vec::new();
        proof {
            assert(fields@ =~= Seq::<(Ident, Ty)>::empty());
        }
        parse_struct_fields(ctx, tokens, start_span, name, fields)
    }
}

/// A top-level item of a compilation unit; their order is preserved.
#[derive(Debug)]
pub struct Root {
    pub kind: RootKind,
    pub span: Span,
}

/// The kinds of top-level item.
#[derive(Debug)]
pub enum RootKind {
    Use(UsePath),
    Function(Function),
    Comment(String),
    Struct(Struct),
    Const(Const),
}

} // verus!
