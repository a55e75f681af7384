//! Names and types: identifiers, the type representation, the type
//! grammar, and the two structural equivalence relations.
//!
//! The type grammar is
//! ```text
//! type ::= ident | ident "::" ident | "[" type ";" literal_u32 "]"
//! ```
//! where a type-cased identifier is a bare type name, a value-cased one
//! must be module-qualified, and the reserved names `Field` and `Bool`
//! denote the primitive types and may never carry a module qualifier.

use vstd::prelude::*;

verus! {

broadcast use vstd::std_specs::control_flow::group_control_flow_axioms;

use crate::constants::{Span, spec_merge};
use crate::error::{Error, ErrorKind, ErrorKindV, ErrorV};
use crate::syntax::{is_type, is_type_chars, parse_decimal_u32, spec_parse_decimal, str_eq_string};
use crate::tokens::{
    parse_post, s_bump_err, s_bump_expected, s_bump_ident, s_peek, s_advance, state_of, Parsed,
    ParserCtx, PState, TokenKind, TokenKindV, TokenType, TokenV, Tokens,
};

/// Any kind of text that can represent a type, a variable, a function
/// name: one identifier token's text and span.
#[derive(Debug, Clone, PartialEq, Eq, Hash)]
pub struct Ident {
    pub value: String,
    pub span: Span,
}

/// Mathematical model of an identifier.
pub struct IdentV {
    pub value: Seq<char>,
    pub span: Span,
}

impl View for Ident {
    type V = IdentV;

    open spec fn view(&self) -> IdentV {
        IdentV { value: self.value@, span: self.span }
    }
}

impl DeepView for Ident {
    type V = IdentV;

    open spec fn deep_view(&self) -> IdentV {
        self@
    }
}

/// What consuming one identifier token yields: the identifier, or a
/// missing-token / expected-identifier error.
pub open spec fn spec_parse_ident(toks: Seq<TokenV>, st: PState) -> Parsed<IdentV> {
    match s_bump_err(toks, st, ErrorKindV::MissingToken) {
        Parsed::Found { val: t, st: st1 } => match t.kind {
            TokenKindV::Identifier(value) => Parsed::Found {
                val: IdentV { value, span: t.span },
                st: st1,
            },
            _ => Parsed::Failed {
                err: ErrorV {
                    kind: ErrorKindV::ExpectedToken(TokenType::Identifier),
                    span: t.span,
                },
            },
        },
        Parsed::Failed { err } => Parsed::Failed { err },
    }
}

impl Ident {
    pub fn new(value: String, span: Span) -> (i: Ident)
        ensures
            i.value == value,
            i.span == span,
    {
        Ident { value, span }
    }

    /// Consume exactly one identifier token; any other token kind is a
    /// recoverable error.
    pub fn parse(ctx: &mut ParserCtx, tokens: &mut Tokens) -> (r: Result<Ident, Error>)
        ensures
            parse_post(
                old(tokens)@,
                *old(ctx),
                final(tokens)@,
                *final(ctx),
                r,
                spec_parse_ident(old(tokens)@.toks, state_of(old(tokens)@, *old(ctx))),
            ),
    {
        let token = tokens.bump_err(ctx, ErrorKind::MissingToken)?;
        match token.kind {
            TokenKind::Identifier(value) => Ok(Ident { value, span: token.span }),
            _ => Err(ctx.error(ErrorKind::ExpectedToken(TokenType::Identifier), token.span)),
        }
    }
}

/// How a module is referred to at a type occurrence: by the alias a
/// use-path introduced, or by the absolute two-segment path itself.
#[derive(Debug)]
pub enum TypeModule {
    Alias(Ident),
    Absolute(crate::scope::UsePath),
}

/// A type expression.
#[derive(Debug)]
pub struct Ty {
    pub kind: TyKind,
    pub span: Span,
}

/// The representation of a type.
#[derive(Debug, PartialEq, Eq, Hash)]
pub enum TyKind {
    /// The main primitive type: the scalar of the arithmetic system.
    Field,
    /// A custom / user-defined type, optionally qualified by a module.
    Custom { module: Option<Ident>, name: Ident },
    /// An integer literal's type; interchangeable with `Field`, kept
    /// apart to track constancy.
    BigInt,
    /// An array of a fixed, compile-time size.
    Array(Box<TyKind>, u32),
    /// A boolean.
    Bool,
}

/// Mathematical model of a type representation.
pub enum TyKindV {
    Field,
    Custom { module: Option<IdentV>, name: IdentV },
    BigInt,
    Array(Box<TyKindV>, u32),
    Bool,
}

/// Mathematical model of a type expression.
pub struct TyV {
    pub kind: TyKindV,
    pub span: Span,
}

/// The view of a type representation, recursively.
pub open spec fn view_ty_kind(k: TyKind) -> TyKindV
    decreases k,
{
    match k {
        TyKind::Field => TyKindV::Field,
        TyKind::Custom { module, name } => TyKindV::Custom {
            module: match module {
                Some(m) => Some(m@),
                None => None,
            },
            name: name@,
        },
        TyKind::BigInt => TyKindV::BigInt,
        TyKind::Array(t, n) => TyKindV::Array(Box::new(view_ty_kind(*t)), n),
        TyKind::Bool => TyKindV::Bool,
    }
}

impl View for TyKind {
    type V = TyKindV;

    open spec fn view(&self) -> TyKindV {
        view_ty_kind(*self)
    }
}

impl DeepView for TyKind {
    type V = TyKindV;

    open spec fn deep_view(&self) -> TyKindV {
        view_ty_kind(*self)
    }
}

impl View for Ty {
    type V = TyV;

    open spec fn view(&self) -> TyV {
        TyV { kind: self.kind@, span: self.span }
    }
}

impl DeepView for Ty {
    type V = TyV;

    open spec fn deep_view(&self) -> TyV {
        self@
    }
}

/// The directional "is an `actual` type acceptable where `expected` is
/// required" relation.  Only `BigInt` against `Field` is compatible in
/// that order; array sizes must agree exactly; a custom type's module is
/// a wildcard when either side omits it, while the names must agree.
pub open spec fn spec_match_expected(actual: TyKindV, expected: TyKindV) -> bool
    decreases actual,
{
    match (actual, expected) {
        (TyKindV::BigInt, TyKindV::Field) => true,
        (TyKindV::Array(lhs, lhs_size), TyKindV::Array(rhs, rhs_size)) => lhs_size == rhs_size
            && spec_match_expected(*lhs, *rhs),
        (
            TyKindV::Custom { module, name },
            TyKindV::Custom { module: expected_module, name: expected_name },
        ) => {
            let modules_agree = match (module, expected_module) {
                (Some(a), Some(b)) => a == b,
                _ => true,
            };
            modules_agree && name.value == expected_name.value
        },
        (TyKindV::Field, TyKindV::Field) => true,
        (TyKindV::BigInt, TyKindV::BigInt) => true,
        (TyKindV::Bool, TyKindV::Bool) => true,
        _ => false,
    }
}

/// The "are these the same type" relation.  `Field` and `BigInt` are
/// mutually interchangeable; arrays recurse into the directional
/// relation `spec_match_expected`, so the relation as a whole is not
/// symmetric on arrays; custom types follow the same wildcard rule.
pub open spec fn spec_same_as(a: TyKindV, other: TyKindV) -> bool {
    match (a, other) {
        (TyKindV::BigInt, TyKindV::Field) => true,
        (TyKindV::Field, TyKindV::BigInt) => true,
        (TyKindV::Array(lhs, lhs_size), TyKindV::Array(rhs, rhs_size)) => lhs_size == rhs_size
            && spec_match_expected(*lhs, *rhs),
        (
            TyKindV::Custom { module, name },
            TyKindV::Custom { module: expected_module, name: expected_name },
        ) => {
            let modules_agree = match (module, expected_module) {
                (Some(a), Some(b)) => a == b,
                _ => true,
            };
            modules_agree && name.value == expected_name.value
        },
        (TyKindV::Field, TyKindV::Field) => true,
        (TyKindV::BigInt, TyKindV::BigInt) => true,
        (TyKindV::Bool, TyKindV::Bool) => true,
        _ => false,
    }
}

/// What resolving a parsed type name yields.  The reserved names denote
/// the primitive types, may never carry a module qualifier, and anything
/// else is a custom type.
pub open spec fn spec_reserved_types(module: Option<IdentV>, name: IdentV) -> Result<
    TyKindV,
    ErrorV,
> {
    if name.value == "Field"@ || name.value == "Bool"@ {
        if module is Some {
            Err(ErrorV { kind: ErrorKindV::ReservedTypeInModule, span: name.span })
        } else if name.value == "Field"@ {
            Ok(TyKindV::Field)
        } else {
            Ok(TyKindV::Bool)
        }
    } else {
        Ok(TyKindV::Custom { module, name })
    }
}

/// Continuation of the type grammar after an identifier lead token: a
/// bare type-cased name, or a value-cased module qualifier followed by
/// `::` and the type's name.
pub open spec fn spec_parse_ty_name(
    toks: Seq<TokenV>,
    st1: PState,
    token: TokenV,
    ty_name: Seq<char>,
) -> Parsed<TyV> {
    if is_type_chars(ty_name) {
        match spec_reserved_types(None, IdentV { value: ty_name, span: token.span }) {
            Ok(kind) => Parsed::Found { val: TyV { kind, span: token.span }, st: st1 },
            Err(e) => Parsed::Failed { err: e },
        }
    } else {
        match s_bump_expected(toks, st1, TokenType::DoubleColon) {
            Parsed::Failed { err } => Parsed::Failed { err },
            Parsed::Found { val: _colon, st: st2 } => match s_peek(toks, st2) {
                Some(t2) => match t2.kind {
                    TokenKindV::Identifier(name) => {
                        let st3 = s_advance(toks, st2);
                        let name_ident = IdentV { value: name, span: t2.span };
                        let module = IdentV { value: ty_name, span: token.span };
                        let full_span = spec_merge(token.span, t2.span);
                        match spec_reserved_types(Some(module), name_ident) {
                            Ok(kind) => Parsed::Found {
                                val: TyV { kind, span: full_span },
                                st: st3,
                            },
                            Err(e) => Parsed::Failed { err: e },
                        }
                    },
                    _ => Parsed::Failed {
                        err: ErrorV { kind: ErrorKindV::MissingType, span: t2.span },
                    },
                },
                None => Parsed::Failed {
                    err: ErrorV { kind: ErrorKindV::MissingType, span: st2.last },
                },
            },
        }
    }
}

/// Continuation of the type grammar after `[` and the element type:
/// `; literal_u32 ]`, yielding the array type.
pub open spec fn spec_parse_ty_array(
    toks: Seq<TokenV>,
    st2: PState,
    token: TokenV,
    elem: TyV,
) -> Parsed<TyV> {
    match s_bump_expected(toks, st2, TokenType::SemiColon) {
        Parsed::Failed { err } => Parsed::Failed { err },
        Parsed::Found { val: _semi, st: st3 } => match s_bump_err(
            toks,
            st3,
            ErrorKindV::InvalidToken,
        ) {
            Parsed::Failed { err } => Parsed::Failed { err },
            Parsed::Found { val: siz_tok, st: st4 } => match siz_tok.kind {
                TokenKindV::BigInt(s) => match spec_parse_decimal(s, u32::MAX as int) {
                    Some(v) => match s_bump_expected(toks, st4, TokenType::RightBracket) {
                        Parsed::Failed { err } => Parsed::Failed { err },
                        Parsed::Found { val: right, st: st5 } => Parsed::Found {
                            val: TyV {
                                kind: TyKindV::Array(Box::new(elem.kind), v as u32),
                                span: spec_merge(
                                    Span { start: token.span.start, len: 0 },
                                    right.span,
                                ),
                            },
                            st: st5,
                        },
                    },
                    None => Parsed::Failed {
                        err: ErrorV { kind: ErrorKindV::InvalidArraySize, span: siz_tok.span },
                    },
                },
                _ => Parsed::Failed {
                    err: ErrorV {
                        kind: ErrorKindV::ExpectedToken(TokenType::BigInt),
                        span: siz_tok.span,
                    },
                },
            },
        },
    }
}

/// The type grammar: a bare or module-qualified type name, or an array
/// `[type; size]` recursing on the element type.
pub open spec fn spec_parse_ty(toks: Seq<TokenV>, st: PState) -> Parsed<TyV>
    decreases toks.len() - st.pos,
{
    match s_bump_err(toks, st, ErrorKindV::MissingType) {
        Parsed::Failed { err } => Parsed::Failed { err },
        Parsed::Found { val: token, st: st1 } => match token.kind {
            TokenKindV::Identifier(ty_name) => spec_parse_ty_name(toks, st1, token, ty_name),
            TokenKindV::LeftBracket => match spec_parse_ty(toks, st1) {
                Parsed::Failed { err } => Parsed::Failed { err },
                Parsed::Found { val: elem, st: st2 } => spec_parse_ty_array(
                    toks,
                    st2,
                    token,
                    elem,
                ),
            },
            _ => Parsed::Failed { err: ErrorV { kind: ErrorKindV::InvalidType, span: token.span } },
        },
    }
}

impl Ty {
    /// Resolve a parsed type name: the reserved names `Field` and `Bool`
    /// become the primitive types and may never carry a module
    /// qualifier; anything else is a custom type.
    pub fn reserved_types(module: Option<Ident>, name: Ident) -> (r: Result<TyKind, Error>)
        ensures
            match r {
                Ok(k) => spec_reserved_types(module.deep_view(), name@) == Ok::<TyKindV, ErrorV>(
                    k@,
                ),
                Err(e) => spec_reserved_types(module.deep_view(), name@) == Err::<TyKindV, ErrorV>(
                    e@,
                ),
            },
    {
        let is_field = str_eq_string(&name.value, "Field");
        let is_bool = str_eq_string(&name.value, "Bool");
        if (is_field || is_bool) && module.is_some() {
            Err(Error { kind: ErrorKind::ReservedTypeInModule, span: name.span })
        } else if is_field {
            Ok(TyKind::Field)
        } else if is_bool {
            Ok(TyKind::Bool)
        } else {
            Ok(TyKind::Custom { module, name })
        }
    }

    /// Parse one type expression.  A type-cased identifier is a bare
    /// type name; a value-cased one must be followed by `::` and the
    /// type's name; `[` opens an array type whose size must be a literal
    /// unsigned 32-bit integer.
    pub fn parse(ctx: &mut ParserCtx, tokens: &mut Tokens) -> (r: Result<Ty, Error>)
        ensures
            parse_post(
                old(tokens)@,
                *old(ctx),
                final(tokens)@,
                *final(ctx),
                r,
                spec_parse_ty(old(tokens)@.toks, state_of(old(tokens)@, *old(ctx))),
            ),
        decreases tokens@.toks.len() - tokens@.pos,
    {
        let token = tokens.bump_err(ctx, ErrorKind::MissingType)?;
        let token_span = token.span;
        match token.kind {
            // module::Type or Type
            TokenKind::Identifier(ty_name) => {
                if is_type(ty_name.as_str()) {
                    let name = Ident { value: ty_name, span: token_span };
                    match Ty::reserved_types(None, name) {
                        Ok(kind) => Ok(Ty { kind, span: token_span }),
                        Err(e) => Err(e),
                    }
                } else {
                    let maybe_module = Ident { value: ty_name, span: token_span };
                    tokens.bump_expected(ctx, TokenType::DoubleColon)?;
                    let (name_value, name_span) = match tokens.bump(ctx) {
                        Some(t) => {
                            let t_span = t.span;
                            match t.kind {
                                TokenKind::Identifier(n) => (n, t_span),
                                _ => {
                                    return Err(ctx.error(ErrorKind::MissingType, ctx.last_span()));
                                },
                            }
                        },
                        None => {
                            return Err(ctx.error(ErrorKind::MissingType, ctx.last_span()));
                        },
                    };
                    let name = Ident { value: name_value, span: name_span };
                    let full_span = token_span.merge_with(name_span);
                    match Ty::reserved_types(Some(maybe_module), name) {
                        Ok(kind) => Ok(Ty { kind, span: full_span }),
                        Err(e) => Err(e),
                    }
                }
            },
            // array: [type; size]
            TokenKind::LeftBracket => {
                let start_span = Span { start: token_span.start, len: 0 };
                let elem = match Ty::parse(ctx, tokens) {
                    Ok(t) => t,
                    Err(e) => {
                        return Err(e);
                    },
                };
                tokens.bump_expected(ctx, TokenType::SemiColon)?;
                let siz_tok = tokens.bump_err(ctx, ErrorKind::InvalidToken)?;
                let siz_span = siz_tok.span;
                let siz: u32 = match siz_tok.kind {
                    TokenKind::BigInt(s) => match parse_decimal_u32(s.as_str()) {
                        Some(v) => v,
                        None => {
                            return Err(ctx.error(ErrorKind::InvalidArraySize, siz_span));
                        },
                    },
                    _ => {
                        return Err(
                            ctx.error(ErrorKind::ExpectedToken(TokenType::BigInt), siz_span),
                        );
                    },
                };
                let right = tokens.bump_expected(ctx, TokenType::RightBracket)?;
                let span = start_span.merge_with(right.span);
                Ok(Ty { kind: TyKind::Array(Box::new(elem.kind), siz), span })
            },
            // unrecognized
            _ => Err(ctx.error(ErrorKind::InvalidType, token_span)),
        }
    }
}

/// A struct-name occurrence: the name must satisfy the type-casing rule
/// and must not collide with a reserved type name.
#[derive(Debug)]
pub struct CustomType {
    pub value: String,
    pub span: Span,
}

/// Mathematical model of a struct-name occurrence.
pub struct CustomTypeV {
    pub value: Seq<char>,
    pub span: Span,
}

impl View for CustomType {
    type V = CustomTypeV;

    open spec fn view(&self) -> CustomTypeV {
        CustomTypeV { value: self.value@, span: self.span }
    }
}

impl DeepView for CustomType {
    type V = CustomTypeV;

    open spec fn deep_view(&self) -> CustomTypeV {
        self@
    }
}

/// What parsing a struct name yields: the identifier must be type-cased
/// and must not be a reserved type name.
pub open spec fn spec_parse_custom_type(toks: Seq<TokenV>, st: PState) -> Parsed<CustomTypeV> {
    match s_bump_ident(toks, st, ErrorKindV::InvalidType) {
        Parsed::Failed { err } => Parsed::Failed { err },
        Parsed::Found { val: ty_name, st: st1 } => if !is_type_chars(ty_name.value) {
            Parsed::Failed { err: ErrorV { kind: ErrorKindV::InvalidTypeName, span: ty_name.span } }
        } else if ty_name.value == "Field"@ || ty_name.value == "Bool"@ {
            Parsed::Failed {
                err: ErrorV { kind: ErrorKindV::ReservedType(ty_name.value), span: ty_name.span },
            }
        } else {
            Parsed::Found {
                val: CustomTypeV { value: ty_name.value, span: ty_name.span },
                st: st1,
            }
        },
    }
}

impl CustomType {
    /// Parse a struct name: the identifier must satisfy the type-casing
    /// rule and must not be one of the built-in primitive type names.
    pub fn parse(ctx: &mut ParserCtx, tokens: &mut Tokens) -> (r: Result<CustomType, Error>)
        ensures
            parse_post(
                old(tokens)@,
                *old(ctx),
                final(tokens)@,
                *final(ctx),
                r,
                spec_parse_custom_type(old(tokens)@.toks, state_of(old(tokens)@, *old(ctx))),
            ),
    {
        let ty_name = tokens.bump_ident(ctx, ErrorKind::InvalidType)?;
        if !is_type(ty_name.value.as_str()) {
            return Err(ctx.error(ErrorKind::InvalidTypeName, ty_name.span));
        }
        let is_field = str_eq_string(&ty_name.value, "Field");
        let is_bool = str_eq_string(&ty_name.value, "Bool");
        if is_field || is_bool {
            return Err(ctx.error(ErrorKind::ReservedType(ty_name.value), ty_name.span));
        }
        Ok(CustomType { value: ty_name.value, span: ty_name.span })
    }
}

/// Are two identifiers equal, text and span?
fn ident_eq(a: &Ident, b: &Ident) -> (r: bool)
    ensures
        r == (a@ == b@),
{
    let values_eq = a.value == b.value;
    let r = values_eq && a.span == b.span;
    proof {
        if r {
            assert(a@ == b@);
        }
    }
    r
}

impl TyKind {
    /// Is this type acceptable where `expected` is required?  The
    /// relation is directional: `BigInt` is accepted where `Field` is
    /// expected, never the reverse.
    pub fn match_expected(&self, expected: &TyKind) -> (r: bool)
        ensures
            r == spec_match_expected(self@, expected@),
        decreases *self,
    {
        match (self, expected) {
            (TyKind::BigInt, TyKind::Field) => true,
            (TyKind::Array(lhs, lhs_size), TyKind::Array(rhs, rhs_size)) => *lhs_size == *rhs_size
                && lhs.match_expected(rhs),
            (
                TyKind::Custom { module, name },
                TyKind::Custom { module: expected_module, name: expected_name },
            ) => {
                let modules_agree = match (module, expected_module) {
                    (Some(a), Some(b)) => ident_eq(a, b),
                    _ => true,
                };
                modules_agree && name.value == expected_name.value
            },
            (TyKind::Field, TyKind::Field) => true,
            (TyKind::BigInt, TyKind::BigInt) => true,
            (TyKind::Bool, TyKind::Bool) => true,
            _ => false,
        }
    }

    /// Are the two types the same?  `Field` and `BigInt` are
    /// interchangeable in both directions; arrays recurse into the
    /// directional relation, exactly as `spec_same_as` states.
    pub fn same_as(&self, other: &TyKind) -> (r: bool)
        ensures
            r == spec_same_as(self@, other@),
    {
        match (self, other) {
            (TyKind::BigInt, TyKind::Field) => true,
            (TyKind::Field, TyKind::BigInt) => true,
            (TyKind::Array(lhs, lhs_size), TyKind::Array(rhs, rhs_size)) => *lhs_size == *rhs_size
                && lhs.match_expected(rhs),
            (
                TyKind::Custom { module, name },
                TyKind::Custom { module: expected_module, name: expected_name },
            ) => {
                let modules_agree = match (module, expected_module) {
                    (Some(a), Some(b)) => ident_eq(a, b),
                    _ => true,
                };
                modules_agree && name.value == expected_name.value
            },
            (TyKind::Field, TyKind::Field) => true,
            (TyKind::BigInt, TyKind::BigInt) => true,
            (TyKind::Bool, TyKind::Bool) => true,
            _ => false,
        }
    }
}

} // verus!
