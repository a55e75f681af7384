//! Function signatures and bodies.
//!
//! The grammar is
//! ```text
//! fn_sig     ::= fn_name "(" param { "," param } ")" [ "->" type ]
//! fn_name    ::= ident | type_ident "." ident
//! param      ::= [ "pub" | "const" ] ident ":" type | "self"
//! ```
//! A type-cased name followed by `.` and a value-cased name encodes
//! method syntax on a struct.  `pub` marks a public circuit input,
//! `const` a compile-time-constant input; a bare name is a private
//! input.  `self` carries no type annotation: its type is synthesized
//! from the enclosing method context, which is threaded into the
//! argument parser as an explicit value.  An empty function body is
//! rejected.

use vstd::prelude::*;

verus! {

broadcast use vstd::std_specs::control_flow::group_control_flow_axioms;

use crate::constants::{Span, spec_merge};
use crate::error::{Error, ErrorKind, ErrorKindV, ErrorV, SigIssue};
use crate::statements::{
    block_post, parse_block, spec_parse_block, view_stmt, view_stmts, Stmt, StmtV,
};
use crate::syntax::{is_type, is_type_chars, str_eq_string};
use crate::tokens::{
    parse_post, parse_post_opt, s_advance, s_bump_err, s_bump_expected, s_bump_ident, s_peek,
    state_of, Keyword, Parsed, ParserCtx, PState, TokenKind, TokenKindV, TokenType, TokenV,
    Tokens, TokensV,
};
use crate::types::{spec_parse_ident, spec_parse_ty, Ident, IdentV, Ty, TyKind, TyKindV, TyV};

/// The attribute of a function argument: a public circuit input or a
/// compile-time constant.  Absence means a private input.
#[derive(Debug, Clone, Copy, PartialEq, Eq, Structural)]
pub enum AttributeKind {
    Pub,
    Const,
}

impl AttributeKind {
    pub fn is_public(&self) -> (r: bool)
        ensures
            r == (*self == AttributeKind::Pub),
    {
        matches!(self, AttributeKind::Pub)
    }

    pub fn is_constant(&self) -> (r: bool)
        ensures
            r == (*self == AttributeKind::Const),
    {
        matches!(self, AttributeKind::Const)
    }
}

/// An attribute occurrence: its kind and the keyword's span.
#[derive(Debug, Clone, Copy, PartialEq, Eq, Structural)]
pub struct Attribute {
    pub kind: AttributeKind,
    pub span: Span,
}

impl Attribute {
    pub fn is_public(&self) -> (r: bool)
        ensures
            r == (self.kind == AttributeKind::Pub),
    {
        self.kind.is_public()
    }

    pub fn is_constant(&self) -> (r: bool)
        ensures
            r == (self.kind == AttributeKind::Const),
    {
        self.kind.is_constant()
    }
}

/// One function parameter.
#[derive(Debug)]
pub struct FnArg {
    pub name: Ident,
    pub typ: Ty,
    pub attribute: Option<Attribute>,
    pub span: Span,
}

/// Mathematical model of a function parameter.
pub struct FnArgV {
    pub name: IdentV,
    pub typ: TyV,
    pub attribute: Option<Attribute>,
    pub span: Span,
}

impl View for FnArg {
    type V = FnArgV;

    open spec fn view(&self) -> FnArgV {
        FnArgV {
            name: self.name@,
            typ: self.typ@,
            attribute: self.attribute,
            span: self.span,
        }
    }
}

impl DeepView for FnArg {
    type V = FnArgV;

    open spec fn deep_view(&self) -> FnArgV {
        self@
    }
}

/// Is the argument marked as a public circuit input?
pub open spec fn spec_arg_is_public(a: FnArgV) -> bool {
    match a.attribute {
        Some(attr) => attr.kind == AttributeKind::Pub,
        None => false,
    }
}

/// Is the argument marked as a compile-time constant?
pub open spec fn spec_arg_is_constant(a: FnArgV) -> bool {
    match a.attribute {
        Some(attr) => attr.kind == AttributeKind::Const,
        None => false,
    }
}

impl FnArg {
    pub fn is_public(&self) -> (r: bool)
        ensures
            r == spec_arg_is_public(self@),
    {
        match &self.attribute {
            Some(attr) => attr.is_public(),
            None => false,
        }
    }

    pub fn is_constant(&self) -> (r: bool)
        ensures
            r == spec_arg_is_constant(self@),
    {
        match &self.attribute {
            Some(attr) => attr.is_constant(),
            None => false,
        }
    }
}

/// The views of a sequence of function parameters.
pub open spec fn view_fn_args(s: Seq<FnArg>) -> Seq<FnArgV>
    decreases s,
{
    if s.len() == 0 {
        Seq::empty()
    } else {
        view_fn_args(s.drop_last()).push(s.last()@)
    }
}

/// The name of a function: the bare name, or the type it is a method on
/// and the method's name.
#[derive(Debug)]
pub struct FnNameDef {
    /// The name of the type this function is implemented on, for
    /// `Type.method` syntax.
    pub self_name: Option<Ident>,
    /// The name of the function.
    pub name: Ident,
    /// The span of the whole name.
    pub span: Span,
}

/// Mathematical model of a function name.
pub struct FnNameDefV {
    pub self_name: Option<IdentV>,
    pub name: IdentV,
    pub span: Span,
}

impl View for FnNameDef {
    type V = FnNameDefV;

    open spec fn view(&self) -> FnNameDefV {
        FnNameDefV {
            self_name: match self.self_name {
                Some(i) => Some(i@),
                None => None,
            },
            name: self.name@,
            span: self.span,
        }
    }
}

impl DeepView for FnNameDef {
    type V = FnNameDefV;

    open spec fn deep_view(&self) -> FnNameDefV {
        self@
    }
}

/// A function signature.
#[derive(Debug)]
pub struct FnSig {
    pub name: FnNameDef,
    pub arguments: Vec<FnArg>,
    pub return_type: Option<Ty>,
}

/// Mathematical model of a function signature.
pub struct FnSigV {
    pub name: FnNameDefV,
    pub arguments: Seq<FnArgV>,
    pub return_type: Option<TyV>,
}

impl View for FnSig {
    type V = FnSigV;

    open spec fn view(&self) -> FnSigV {
        FnSigV {
            name: self.name@,
            arguments: view_fn_args(self.arguments@),
            return_type: match &self.return_type {
                Some(t) => Some(t@),
                None => None,
            },
        }
    }
}

impl DeepView for FnSig {
    type V = FnSigV;

    open spec fn deep_view(&self) -> FnSigV {
        self@
    }
}

/// A function: its signature, its (non-empty) body, and its span.
#[derive(Debug)]
pub struct Function {
    pub sig: FnSig,
    pub body: Vec<Stmt>,
    pub span: Span,
}

/// Mathematical model of a function.
pub struct FunctionV {
    pub sig: FnSigV,
    pub body: Seq<StmtV>,
    pub span: Span,
}

impl View for Function {
    type V = FunctionV;

    open spec fn view(&self) -> FunctionV {
        FunctionV { sig: self.sig@, body: view_stmts(self.body@), span: self.span }
    }
}

impl DeepView for Function {
    type V = FunctionV;

    open spec fn deep_view(&self) -> FunctionV {
        self@
    }
}

/// What parsing a function name yields: one identifier, or — when it is
/// type-cased — `Type.method`, whose second name must follow the dot.
pub open spec fn spec_parse_fn_name(toks: Seq<TokenV>, st: PState) -> Parsed<FnNameDefV> {
    match s_bump_ident(
        toks,
        st,
        ErrorKindV::InvalidFunctionSignature(SigIssue::ExpectedName),
    ) {
        Parsed::Failed { err } => Parsed::Failed { err },
        Parsed::Found { val: maybe_self, st: st1 } => if is_type_chars(maybe_self.value) {
            match s_bump_expected(toks, st1, TokenType::Dot) {
                Parsed::Failed { err } => Parsed::Failed { err },
                Parsed::Found { val: _dot, st: st2 } => match s_bump_ident(
                    toks,
                    st2,
                    ErrorKindV::InvalidFunctionSignature(SigIssue::ExpectedName),
                ) {
                    Parsed::Failed { err } => Parsed::Failed { err },
                    Parsed::Found { val: name, st: st3 } => Parsed::Found {
                        val: FnNameDefV {
                            self_name: Some(maybe_self),
                            name,
                            span: spec_merge(maybe_self.span, name.span),
                        },
                        st: st3,
                    },
                },
            }
        } else {
            Parsed::Found {
                val: FnNameDefV { self_name: None, name: maybe_self, span: maybe_self.span },
                st: st1,
            }
        },
    }
}

impl FnNameDef {
    /// Parse a function name: a bare value-cased name, or `Type.method`.
    pub fn parse(ctx: &mut ParserCtx, tokens: &mut Tokens) -> (r: Result<FnNameDef, Error>)
        ensures
            parse_post(
                old(tokens)@,
                *old(ctx),
                final(tokens)@,
                *final(ctx),
                r,
                spec_parse_fn_name(old(tokens)@.toks, state_of(old(tokens)@, *old(ctx))),
            ),
    {
        let maybe_self_name = tokens.bump_ident(
            ctx,
            ErrorKind::InvalidFunctionSignature(SigIssue::ExpectedName),
        )?;
        if is_type(maybe_self_name.value.as_str()) {
            tokens.bump_expected(ctx, TokenType::Dot)?;
            let name = tokens.bump_ident(
                ctx,
                ErrorKind::InvalidFunctionSignature(SigIssue::ExpectedName),
            )?;
            let span = maybe_self_name.span.merge_with(name.span);
            Ok(FnNameDef { self_name: Some(maybe_self_name), name, span })
        } else {
            let span = maybe_self_name.span;
            Ok(FnNameDef { self_name: None, name: maybe_self_name, span })
        }
    }
}

/// The view of an optional enclosing-method context.
pub open spec fn view_self_name(o: Option<&Ident>) -> Option<IdentV> {
    match o {
        Some(i) => Some(i@),
        None => None,
    }
}

/// What the argument-list functions promise, relative to their
/// spec-level counterpart `sr`.
pub open spec fn args_post(
    toks0: TokensV,
    toks1: TokensV,
    ctx1: ParserCtx,
    r: Result<Vec<FnArg>, Error>,
    sr: Parsed<Seq<FnArgV>>,
) -> bool {
    &&& toks1.toks == toks0.toks
    &&& match r {
        Ok(v) => {
            &&& sr == (Parsed::Found { val: view_fn_args(v@), st: state_of(toks1, ctx1) })
            &&& toks0.pos < toks1.pos <= toks0.toks.len()
        },
        Err(e) => {
            &&& sr == (Parsed::Failed::<Seq<FnArgV>> { err: e@ })
            &&& toks0.pos <= toks1.pos
        },
    }
}

/// One iteration of the argument list, after its lead token: the
/// argument's name has been read (and its attribute, if any); `self`
/// synthesizes its type from the method context, anything else reads
/// `: type`.
pub open spec fn spec_one_arg(
    toks: Seq<TokenV>,
    st: PState,
    self_name: Option<IdentV>,
    acc: Seq<FnArgV>,
    attribute: Option<Attribute>,
    arg_name: IdentV,
) -> Parsed<Seq<FnArgV>>
    decreases toks.len() - st.pos, 1int,
{
    if arg_name.value == "self"@ {
        match self_name {
            None => Parsed::Failed {
                err: ErrorV {
                    kind: ErrorKindV::InvalidFunctionSignature(SigIssue::SelfOutsideMethod),
                    span: arg_name.span,
                },
            },
            Some(self_ident) => if acc.len() != 0 {
                Parsed::Failed {
                    err: ErrorV {
                        kind: ErrorKindV::InvalidFunctionSignature(SigIssue::SelfNotFirst),
                        span: arg_name.span,
                    },
                }
            } else {
                let typ = TyV {
                    kind: TyKindV::Custom {
                        module: None,
                        name: IdentV { value: self_ident.value, span: self_ident.span },
                    },
                    span: self_ident.span,
                };
                spec_arg_separator(toks, st, self_name, acc, attribute, arg_name, typ)
            },
        }
    } else {
        match s_bump_expected(toks, st, TokenType::Colon) {
            Parsed::Failed { err } => Parsed::Failed { err },
            Parsed::Found { val: _colon, st: st1 } => match spec_parse_ty(toks, st1) {
                Parsed::Failed { err } => Parsed::Failed { err },
                Parsed::Found { val: typ, st: st2 } => {
                    // the type parser always consumes at least one
                    // token; the bound re-states that for the
                    // termination checker
                    if st.pos < st2.pos <= toks.len() {
                        spec_arg_separator(toks, st2, self_name, acc, attribute, arg_name, typ)
                    } else {
                        Parsed::Failed {
                            err: ErrorV {
                                kind: ErrorKindV::InvalidFunctionSignature(
                                    SigIssue::ExpectedSeparator,
                                ),
                                span: st2.last,
                            },
                        }
                    }
                },
            },
        }
    }
}

/// The separator after one argument: a comma continues the list, the
/// closing parenthesis ends it.  `self` may not carry an attribute; an
/// attributed argument's span runs from the attribute to its type.
pub open spec fn spec_arg_separator(
    toks: Seq<TokenV>,
    st: PState,
    self_name: Option<IdentV>,
    acc: Seq<FnArgV>,
    attribute: Option<Attribute>,
    arg_name: IdentV,
    typ: TyV,
) -> Parsed<Seq<FnArgV>>
    decreases toks.len() - st.pos, 0int,
{
    match s_bump_err(
        toks,
        st,
        ErrorKindV::InvalidFunctionSignature(SigIssue::ExpectedSeparator),
    ) {
        Parsed::Failed { err } => Parsed::Failed { err },
        Parsed::Found { val: separator, st: st1 } => {
            let is_self = arg_name.value == "self"@;
            match attribute {
                Some(attr) => if is_self {
                    Parsed::Failed {
                        err: ErrorV { kind: ErrorKindV::SelfHasAttribute, span: arg_name.span },
                    }
                } else {
                    spec_finish_arg(
                        toks,
                        st1,
                        self_name,
                        acc,
                        FnArgV {
                            name: arg_name,
                            typ,
                            attribute,
                            span: spec_merge(attr.span, typ.span),
                        },
                        separator,
                    )
                },
                None => spec_finish_arg(
                    toks,
                    st1,
                    self_name,
                    acc,
                    FnArgV {
                        name: arg_name,
                        typ,
                        attribute,
                        span: if is_self {
                            arg_name.span
                        } else {
                            spec_merge(arg_name.span, typ.span)
                        },
                    },
                    separator,
                ),
            }
        },
    }
}

/// Append the finished argument and dispatch on its separator.
pub open spec fn spec_finish_arg(
    toks: Seq<TokenV>,
    st1: PState,
    self_name: Option<IdentV>,
    acc: Seq<FnArgV>,
    arg: FnArgV,
    separator: TokenV,
) -> Parsed<Seq<FnArgV>>
    decreases toks.len() - st1.pos, 3int,
{
    let acc1 = acc.push(arg);
    match separator.kind {
        TokenKindV::Comma => spec_args_loop(toks, st1, self_name, acc1),
        TokenKindV::RightParen => Parsed::Found { val: acc1, st: st1 },
        _ => Parsed::Failed {
            err: ErrorV {
                kind: ErrorKindV::InvalidFunctionSignature(SigIssue::ExpectedSeparator),
                span: separator.span,
            },
        },
    }
}

/// The argument list after the opening parenthesis: arguments are
/// classified by their lead token — `pub`, `const`, or a bare name —
/// until the closing parenthesis.
pub open spec fn spec_args_loop(
    toks: Seq<TokenV>,
    st: PState,
    self_name: Option<IdentV>,
    acc: Seq<FnArgV>,
) -> Parsed<Seq<FnArgV>>
    decreases toks.len() - st.pos, 2int,
{
    match s_bump_err(
        toks,
        st,
        ErrorKindV::InvalidFunctionSignature(SigIssue::ExpectedArguments),
    ) {
        Parsed::Failed { err } => Parsed::Failed { err },
        Parsed::Found { val: token, st: st1 } => match token.kind {
            TokenKindV::RightParen => Parsed::Found { val: acc, st: st1 },
            TokenKindV::Keyword(Keyword::Pub) => match spec_parse_ident(toks, st1) {
                Parsed::Failed { err } => Parsed::Failed { err },
                Parsed::Found { val: arg_name, st: st2 } => spec_one_arg(
                    toks,
                    st2,
                    self_name,
                    acc,
                    Some(Attribute { kind: AttributeKind::Pub, span: token.span }),
                    arg_name,
                ),
            },
            TokenKindV::Keyword(Keyword::Const) => match spec_parse_ident(toks, st1) {
                Parsed::Failed { err } => Parsed::Failed { err },
                Parsed::Found { val: arg_name, st: st2 } => spec_one_arg(
                    toks,
                    st2,
                    self_name,
                    acc,
                    Some(Attribute { kind: AttributeKind::Const, span: token.span }),
                    arg_name,
                ),
            },
            TokenKindV::Identifier(name) => spec_one_arg(
                toks,
                st1,
                self_name,
                acc,
                None,
                IdentV { value: name, span: token.span },
            ),
            _ => Parsed::Failed {
                err: ErrorV {
                    kind: ErrorKindV::InvalidFunctionSignature(SigIssue::ExpectedIdentifier),
                    span: token.span,
                },
            },
        },
    }
}

/// A full argument list: the opening parenthesis and the arguments.
pub open spec fn spec_parse_args(toks: Seq<TokenV>, st: PState, self_name: Option<IdentV>) -> Parsed<
    Seq<FnArgV>,
>
    decreases toks.len() - st.pos, 4int,
{
    match s_bump_expected(toks, st, TokenType::LeftParen) {
        Parsed::Failed { err } => Parsed::Failed { err },
        Parsed::Found { val: _paren, st: st1 } => spec_args_loop(toks, st1, self_name, Seq::empty()),
    }
}

/// An optional return type, introduced by `->`.
pub open spec fn spec_parse_fn_return_type(toks: Seq<TokenV>, st: PState) -> Parsed<Option<TyV>> {
    match s_peek(toks, st) {
        Some(t) => if t.kind is RightArrow {
            match spec_parse_ty(toks, s_advance(toks, st)) {
                Parsed::Failed { err } => Parsed::Failed { err },
                Parsed::Found { val: ty, st: st1 } => Parsed::Found { val: Some(ty), st: st1 },
            }
        } else {
            Parsed::Found { val: None, st }
        },
        None => Parsed::Found { val: None, st },
    }
}

/// A function body: `{`, statements, `}`.
pub open spec fn spec_parse_fn_body(toks: Seq<TokenV>, st: PState) -> Parsed<Seq<StmtV>> {
    match s_bump_expected(toks, st, TokenType::LeftCurlyBracket) {
        Parsed::Failed { err } => Parsed::Failed { err },
        Parsed::Found { val: _brace, st: st1 } => spec_parse_block(toks, st1, Seq::empty()),
    }
}

/// A whole function, without the `fn` keyword: name, arguments, optional
/// return type, non-empty body.  Its span runs from the first token to
/// the end of the last body statement.
pub open spec fn spec_parse_function(toks: Seq<TokenV>, st: PState) -> Parsed<FunctionV> {
    match s_peek(toks, st) {
        None => Parsed::Failed {
            err: ErrorV {
                kind: ErrorKindV::InvalidFunctionSignature(SigIssue::ExpectedName),
                span: st.last,
            },
        },
        Some(first) => match spec_parse_fn_name(toks, st) {
            Parsed::Failed { err } => Parsed::Failed { err },
            Parsed::Found { val: name, st: st1 } => match spec_parse_args(
                toks,
                st1,
                name.self_name,
            ) {
                Parsed::Failed { err } => Parsed::Failed { err },
                Parsed::Found { val: arguments, st: st2 } => match spec_parse_fn_return_type(
                    toks,
                    st2,
                ) {
                    Parsed::Failed { err } => Parsed::Failed { err },
                    Parsed::Found { val: return_type, st: st3 } => match spec_parse_fn_body(
                        toks,
                        st3,
                    ) {
                        Parsed::Failed { err } => Parsed::Failed { err },
                        Parsed::Found { val: body, st: st4 } => if body.len() == 0 {
                            Parsed::Failed {
                                err: ErrorV {
                                    kind: ErrorKindV::InvalidFunctionSignature(
                                        SigIssue::ExpectedBody,
                                    ),
                                    span: st4.last,
                                },
                            }
                        } else {
                            Parsed::Found {
                                val: FunctionV {
                                    sig: FnSigV { name, arguments, return_type },
                                    body,
                                    span: spec_merge(first.span, body.last().span),
                                },
                                st: st4,
                            }
                        },
                    },
                },
            },
        },
    }
}

/// What parsing a signature (without a body) yields.
pub open spec fn spec_parse_fn_sig(toks: Seq<TokenV>, st: PState) -> Parsed<FnSigV> {
    match spec_parse_fn_name(toks, st) {
        Parsed::Failed { err } => Parsed::Failed { err },
        Parsed::Found { val: name, st: st1 } => match spec_parse_args(toks, st1, name.self_name) {
            Parsed::Failed { err } => Parsed::Failed { err },
            Parsed::Found { val: arguments, st: st2 } => match spec_parse_fn_return_type(
                toks,
                st2,
            ) {
                Parsed::Failed { err } => Parsed::Failed { err },
                Parsed::Found { val: return_type, st: st3 } => Parsed::Found {
                    val: FnSigV { name, arguments, return_type },
                    st: st3,
                },
            },
        },
    }
}

impl FnSig {
    /// Parse a function signature: name, arguments, optional return
    /// type.
    pub fn parse(ctx: &mut ParserCtx, tokens: &mut Tokens) -> (r: Result<FnSig, Error>)
        ensures
            parse_post(
                old(tokens)@,
                *old(ctx),
                final(tokens)@,
                *final(ctx),
                r,
                spec_parse_fn_sig(old(tokens)@.toks, state_of(old(tokens)@, *old(ctx))),
            ),
    {
        let name = FnNameDef::parse(ctx, tokens)?;
        let arguments = match Function::parse_args(ctx, tokens, name.self_name.as_ref()) {
            Ok(a) => a,
            Err(e) => {
                return Err(e);
            },
        };
        let return_type = Function::parse_fn_return_type(ctx, tokens)?;
        Ok(FnSig { name, arguments, return_type })
    }
}

impl Function {
    /// Is this the circuit's entry point?
    pub fn is_main(&self) -> (r: bool)
        ensures
            r == (self.sig.name.name.value@ == "main"@),
    {
        str_eq_string(&self.sig.name.name.value, "main")
    }

    /// Parse the argument list of a function, with the enclosing method
    /// context (the type a method is implemented on) threaded in for
    /// `self`.
    pub fn parse_args(ctx: &mut ParserCtx, tokens: &mut Tokens, self_name: Option<&Ident>) -> (r:
        Result<Vec<FnArg>, Error>)
        ensures
            args_post(
                old(tokens)@,
                final(tokens)@,
                *final(ctx),
                r,
                spec_parse_args(
                    old(tokens)@.toks,
                    state_of(old(tokens)@, *old(ctx)),
                    view_self_name(self_name),
                ),
            ),
        decreases tokens@.toks.len() - tokens@.pos, 1int,
    {
        tokens.bump_expected(ctx, TokenType::LeftParen)?;
        let args: Vec<FnArg> = Vec::new();
        proof {
            assert(args@ =~= Seq::<FnArg>::empty());
        }
        Function::parse_args_loop(ctx, tokens, self_name, args)
    }

    /// One argument per call: its lead token, name, type (or the
    /// synthesized `self` type), and separator.
    fn parse_args_loop(
        ctx: &mut ParserCtx,
        tokens: &mut Tokens,
        self_name: Option<&Ident>,
        args: Vec<FnArg>,
    ) -> (r: Result<Vec<FnArg>, Error>)
        ensures
            args_post(
                old(tokens)@,
                final(tokens)@,
                *final(ctx),
                r,
                spec_args_loop(
                    old(tokens)@.toks,
                    state_of(old(tokens)@, *old(ctx)),
                    view_self_name(self_name),
                    view_fn_args(args@),
                ),
            ),
        decreases tokens@.toks.len() - tokens@.pos, 0int,
    {
        let token = tokens.bump_err(
            ctx,
            ErrorKind::InvalidFunctionSignature(SigIssue::ExpectedArguments),
        )?;
        let token_span = token.span;
        let (attribute, arg_name): (Option<Attribute>, Ident) = match token.kind {
            TokenKind::RightParen => {
                return Ok(args);
            },
            TokenKind::Keyword(Keyword::Pub) => {
                let arg_name = Ident::parse(ctx, tokens)?;
                (Some(Attribute { kind: AttributeKind::Pub, span: token_span }), arg_name)
            },
            TokenKind::Keyword(Keyword::Const) => {
                let arg_name = Ident::parse(ctx, tokens)?;
                (Some(Attribute { kind: AttributeKind::Const, span: token_span }), arg_name)
            },
            TokenKind::Identifier(name) => (None, Ident { value: name, span: token_span }),
            _ => {
                return Err(ctx.error(
                    ErrorKind::InvalidFunctionSignature(SigIssue::ExpectedIdentifier),
                    token_span,
                ));
            },
        };
        // `self` takes no explicit type: it is synthesized from the
        // enclosing method context
        let is_self = str_eq_string(&arg_name.value, "self");
        let arg_typ: Ty = if is_self {
            let self_ident: &Ident = match self_name {
                Some(i) => i,
                None => {
                    return Err(ctx.error(
                        ErrorKind::InvalidFunctionSignature(SigIssue::SelfOutsideMethod),
                        arg_name.span,
                    ));
                },
            };
            if args.len() != 0 {
                return Err(ctx.error(
                    ErrorKind::InvalidFunctionSignature(SigIssue::SelfNotFirst),
                    arg_name.span,
                ));
            }
            Ty {
                kind: TyKind::Custom {
                    module: None,
                    name: Ident::new(self_ident.value.clone(), self_ident.span),
                },
                span: self_ident.span,
            }
        } else {
            tokens.bump_expected(ctx, TokenType::Colon)?;
            match Ty::parse(ctx, tokens) {
                Ok(t) => t,
                Err(e) => {
                    return Err(e);
                },
            }
        };
        let separator = tokens.bump_err(
            ctx,
            ErrorKind::InvalidFunctionSignature(SigIssue::ExpectedSeparator),
        )?;
        let span = match &attribute {
            Some(attr) => {
                if is_self {
                    return Err(ctx.error(ErrorKind::SelfHasAttribute, arg_name.span));
                }
                attr.span.merge_with(arg_typ.span)
            },
            None => if is_self {
                arg_name.span
            } else {
                arg_name.span.merge_with(arg_typ.span)
            },
        };
        let arg = FnArg { name: arg_name, typ: arg_typ, attribute, span };
        let ghost args0 = args@;
        let ghost arg_v = arg@;
        let mut args = args;
        args.push(arg);
        proof {
            assert(args@.drop_last() =~= args0);
            assert(view_fn_args(args@) == view_fn_args(args0).push(arg_v));
        }
        match separator.kind {
            TokenKind::Comma => Function::parse_args_loop(ctx, tokens, self_name, args),
            TokenKind::RightParen => Ok(args),
            _ => Err(ctx.error(
                ErrorKind::InvalidFunctionSignature(SigIssue::ExpectedSeparator),
                separator.span,
            )),
        }
    }

    /// Parse an optional return type, introduced by `->`.
    pub fn parse_fn_return_type(ctx: &mut ParserCtx, tokens: &mut Tokens) -> (r: Result<
        Option<Ty>,
        Error,
    >)
        ensures
            parse_post_opt(
                old(tokens)@,
                *old(ctx),
                final(tokens)@,
                *final(ctx),
                r,
                spec_parse_fn_return_type(old(tokens)@.toks, state_of(old(tokens)@, *old(ctx))),
            ),
    {
        let arrow_next: bool = match tokens.peek() {
            Some(t) => matches!(t.kind, TokenKind::RightArrow),
            None => false,
        };
        if arrow_next {
            tokens.bump(ctx);
            let return_type = Ty::parse(ctx, tokens)?;
            Ok(Some(return_type))
        } else {
            Ok(None)
        }
    }

    /// Parse a function body: `{`, statements, `}`.
    pub fn parse_fn_body(ctx: &mut ParserCtx, tokens: &mut Tokens) -> (r: Result<Vec<Stmt>, Error>)
        ensures
            block_post(
                old(tokens)@,
                final(tokens)@,
                *final(ctx),
                r,
                spec_parse_fn_body(old(tokens)@.toks, state_of(old(tokens)@, *old(ctx))),
            ),
    {
        tokens.bump_expected(ctx, TokenType::LeftCurlyBracket)?;
        let body: Vec<Stmt> = Vec::new();
        proof {
            assert(body@ =~= Seq::<Stmt>::empty());
        }
        parse_block(ctx, tokens, body)
    }

    /// Parse a function, without the `fn` keyword.  An empty body is
    /// rejected as malformed.
    pub fn parse(ctx: &mut ParserCtx, tokens: &mut Tokens) -> (r: Result<Function, Error>)
        ensures
            parse_post(
                old(tokens)@,
                *old(ctx),
                final(tokens)@,
                *final(ctx),
                r,
                spec_parse_function(old(tokens)@.toks, state_of(old(tokens)@, *old(ctx))),
            ),
    {
        let first_span: Span = match tokens.peek() {
            Some(t) => t.span,
            None => {
                return Err(ctx.error(
                    ErrorKind::InvalidFunctionSignature(SigIssue::ExpectedName),
                    ctx.last_span(),
                ));
            },
        };
        let name = FnNameDef::parse(ctx, tokens)?;
        let arguments = match Function::parse_args(ctx, tokens, name.self_name.as_ref()) {
            Ok(a) => a,
            Err(e) => {
                return Err(e);
            },
        };
        let return_type = Function::parse_fn_return_type(ctx, tokens)?;
        let body = match Function::parse_fn_body(ctx, tokens) {
            Ok(b) => b,
            Err(e) => {
                return Err(e);
            },
        };
        if body.len() == 0 {
            return Err(ctx.error(
                ErrorKind::InvalidFunctionSignature(SigIssue::ExpectedBody),
                ctx.last_span(),
            ));
        }
        let last_span = body[body.len() - 1].span;
        proof {
            assert(view_stmts(body@).last() == view_stmt(body@.last()));
        }
        let span = first_span.merge_with(last_span);
        Ok(Function { sig: FnSig { name, arguments, return_type }, body, span })
    }
}

} // verus!
