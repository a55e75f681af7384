//! The token stream the parser consumes, and the cursor over it.
//!
//! The lexer (an external collaborator) produces an ordered sequence of
//! tokens, each carrying a kind and a span.  The parser walks it through a
//! cursor with one token of lookahead.  The cursor's contract is exact:
//! each operation is mirrored by a spec-level operation on the sequence of
//! token views, and the spec-level parser in the other modules is built
//! from those operations.

use vstd::prelude::*;

verus! {

use crate::constants::Span;
use crate::error::{Error, ErrorKind, ErrorKindV, ErrorV};
use crate::types::{Ident, IdentV};

/// The keywords of the language.
#[derive(Debug, Clone, Copy, PartialEq, Eq, Hash, Structural)]
pub enum Keyword {
    Use,
    Fn,
    Return,
    Struct,
    Const,
    Let,
    Mut,
    For,
    In,
    If,
    Else,
    Pub,
    True,
    False,
}

/// One lexed token.
#[derive(Debug, Clone, PartialEq, Eq)]
pub enum TokenKind {
    /// Any name: a variable, a function, a type, a module.
    Identifier(String),
    /// An integer literal, kept as its source text.
    BigInt(String),
    /// A comment, preserved for tooling fidelity.
    Comment(String),
    Keyword(Keyword),
    Colon,
    DoubleColon,
    Comma,
    SemiColon,
    Dot,
    DoubleDot,
    Equal,
    RightArrow,
    LeftParen,
    RightParen,
    LeftBracket,
    RightBracket,
    LeftCurlyBracket,
    RightCurlyBracket,
}

/// The type of a token, with literal payloads erased.  Used to ask the
/// cursor for "the next token, which must be a comma".
#[derive(Debug, Clone, Copy, PartialEq, Eq, Structural)]
pub enum TokenType {
    Identifier,
    BigInt,
    Comment,
    Keyword(Keyword),
    Colon,
    DoubleColon,
    Comma,
    SemiColon,
    Dot,
    DoubleDot,
    Equal,
    RightArrow,
    LeftParen,
    RightParen,
    LeftBracket,
    RightBracket,
    LeftCurlyBracket,
    RightCurlyBracket,
}

/// Mathematical model of a token kind.
pub enum TokenKindV {
    Identifier(Seq<char>),
    BigInt(Seq<char>),
    Comment(Seq<char>),
    Keyword(Keyword),
    Colon,
    DoubleColon,
    Comma,
    SemiColon,
    Dot,
    DoubleDot,
    Equal,
    RightArrow,
    LeftParen,
    RightParen,
    LeftBracket,
    RightBracket,
    LeftCurlyBracket,
    RightCurlyBracket,
}

impl View for TokenKind {
    type V = TokenKindV;

    open spec fn view(&self) -> TokenKindV {
        match self {
            TokenKind::Identifier(s) => TokenKindV::Identifier(s@),
            TokenKind::BigInt(s) => TokenKindV::BigInt(s@),
            TokenKind::Comment(s) => TokenKindV::Comment(s@),
            TokenKind::Keyword(k) => TokenKindV::Keyword(*k),
            TokenKind::Colon => TokenKindV::Colon,
            TokenKind::DoubleColon => TokenKindV::DoubleColon,
            TokenKind::Comma => TokenKindV::Comma,
            TokenKind::SemiColon => TokenKindV::SemiColon,
            TokenKind::Dot => TokenKindV::Dot,
            TokenKind::DoubleDot => TokenKindV::DoubleDot,
            TokenKind::Equal => TokenKindV::Equal,
            TokenKind::RightArrow => TokenKindV::RightArrow,
            TokenKind::LeftParen => TokenKindV::LeftParen,
            TokenKind::RightParen => TokenKindV::RightParen,
            TokenKind::LeftBracket => TokenKindV::LeftBracket,
            TokenKind::RightBracket => TokenKindV::RightBracket,
            TokenKind::LeftCurlyBracket => TokenKindV::LeftCurlyBracket,
            TokenKind::RightCurlyBracket => TokenKindV::RightCurlyBracket,
        }
    }
}

/// The type of a token view, payloads erased.
pub open spec fn token_type_of(k: TokenKindV) -> TokenType {
    match k {
        TokenKindV::Identifier(_) => TokenType::Identifier,
        TokenKindV::BigInt(_) => TokenType::BigInt,
        TokenKindV::Comment(_) => TokenType::Comment,
        TokenKindV::Keyword(kw) => TokenType::Keyword(kw),
        TokenKindV::Colon => TokenType::Colon,
        TokenKindV::DoubleColon => TokenType::DoubleColon,
        TokenKindV::Comma => TokenType::Comma,
        TokenKindV::SemiColon => TokenType::SemiColon,
        TokenKindV::Dot => TokenType::Dot,
        TokenKindV::DoubleDot => TokenType::DoubleDot,
        TokenKindV::Equal => TokenType::Equal,
        TokenKindV::RightArrow => TokenType::RightArrow,
        TokenKindV::LeftParen => TokenType::LeftParen,
        TokenKindV::RightParen => TokenType::RightParen,
        TokenKindV::LeftBracket => TokenType::LeftBracket,
        TokenKindV::RightBracket => TokenType::RightBracket,
        TokenKindV::LeftCurlyBracket => TokenType::LeftCurlyBracket,
        TokenKindV::RightCurlyBracket => TokenType::RightCurlyBracket,
    }
}

impl TokenKind {
    /// The type of this token, with payloads erased.
    pub fn token_type(&self) -> (t: TokenType)
        ensures
            t == token_type_of(self@),
    {
        match self {
            TokenKind::Identifier(_) => TokenType::Identifier,
            TokenKind::BigInt(_) => TokenType::BigInt,
            TokenKind::Comment(_) => TokenType::Comment,
            TokenKind::Keyword(kw) => TokenType::Keyword(*kw),
            TokenKind::Colon => TokenType::Colon,
            TokenKind::DoubleColon => TokenType::DoubleColon,
            TokenKind::Comma => TokenType::Comma,
            TokenKind::SemiColon => TokenType::SemiColon,
            TokenKind::Dot => TokenType::Dot,
            TokenKind::DoubleDot => TokenType::DoubleDot,
            TokenKind::Equal => TokenType::Equal,
            TokenKind::RightArrow => TokenType::RightArrow,
            TokenKind::LeftParen => TokenType::LeftParen,
            TokenKind::RightParen => TokenType::RightParen,
            TokenKind::LeftBracket => TokenType::LeftBracket,
            TokenKind::RightBracket => TokenType::RightBracket,
            TokenKind::LeftCurlyBracket => TokenType::LeftCurlyBracket,
            TokenKind::RightCurlyBracket => TokenType::RightCurlyBracket,
        }
    }

    /// An exact copy, proved equal to the original.
    pub fn duplicate(&self) -> (k: TokenKind)
        ensures
            k == *self,
    {
        match self {
            TokenKind::Identifier(s) => TokenKind::Identifier(s.clone()),
            TokenKind::BigInt(s) => TokenKind::BigInt(s.clone()),
            TokenKind::Comment(s) => TokenKind::Comment(s.clone()),
            TokenKind::Keyword(kw) => TokenKind::Keyword(*kw),
            TokenKind::Colon => TokenKind::Colon,
            TokenKind::DoubleColon => TokenKind::DoubleColon,
            TokenKind::Comma => TokenKind::Comma,
            TokenKind::SemiColon => TokenKind::SemiColon,
            TokenKind::Dot => TokenKind::Dot,
            TokenKind::DoubleDot => TokenKind::DoubleDot,
            TokenKind::Equal => TokenKind::Equal,
            TokenKind::RightArrow => TokenKind::RightArrow,
            TokenKind::LeftParen => TokenKind::LeftParen,
            TokenKind::RightParen => TokenKind::RightParen,
            TokenKind::LeftBracket => TokenKind::LeftBracket,
            TokenKind::RightBracket => TokenKind::RightBracket,
            TokenKind::LeftCurlyBracket => TokenKind::LeftCurlyBracket,
            TokenKind::RightCurlyBracket => TokenKind::RightCurlyBracket,
        }
    }
}

/// A token: a kind and the span it covers in the source.
#[derive(Debug, Clone, PartialEq, Eq)]
pub struct Token {
    pub kind: TokenKind,
    pub span: Span,
}

/// Mathematical model of a token.
pub struct TokenV {
    pub kind: TokenKindV,
    pub span: Span,
}

impl View for Token {
    type V = TokenV;

    open spec fn view(&self) -> TokenV {
        TokenV { kind: self.kind@, span: self.span }
    }
}

impl Token {
    pub fn new(kind: TokenKind, span: Span) -> (t: Token)
        ensures
            t.kind == kind,
            t.span == span,
    {
        Token { kind, span }
    }

    /// An exact copy, proved equal to the original.
    pub fn duplicate(&self) -> (t: Token)
        ensures
            t == *self,
    {
        Token { kind: self.kind.duplicate(), span: self.span }
    }
}

/// The state the parser threads along: how far the cursor has moved and
/// the span of the last token it consumed (used for error positions).
pub struct PState {
    pub pos: nat,
    pub last: Span,
}

/// The outcome of a spec-level parsing step: the parsed value together
/// with the state after it, or the exact error.
pub enum Parsed<T> {
    Found { val: T, st: PState },
    Failed { err: ErrorV },
}

/// The token under the cursor, if any.
pub open spec fn s_peek(toks: Seq<TokenV>, st: PState) -> Option<TokenV> {
    if st.pos < toks.len() {
        Some(toks[st.pos as int])
    } else {
        None
    }
}

/// The state after consuming the token under the cursor.
pub open spec fn s_advance(toks: Seq<TokenV>, st: PState) -> PState {
    if st.pos < toks.len() {
        PState { pos: st.pos + 1, last: toks[st.pos as int].span }
    } else {
        st
    }
}

/// Consume one token, or fail with the given error kind at the span of
/// the last consumed token.
pub open spec fn s_bump_err(toks: Seq<TokenV>, st: PState, kind: ErrorKindV) -> Parsed<TokenV> {
    match s_peek(toks, st) {
        Some(t) => Parsed::Found { val: t, st: s_advance(toks, st) },
        None => Parsed::Failed { err: ErrorV { kind, span: st.last } },
    }
}

/// Consume one token that must have the given type.
pub open spec fn s_bump_expected(toks: Seq<TokenV>, st: PState, tt: TokenType) -> Parsed<TokenV> {
    match s_peek(toks, st) {
        Some(t) => if token_type_of(t.kind) == tt {
            Parsed::Found { val: t, st: s_advance(toks, st) }
        } else {
            Parsed::Failed { err: ErrorV { kind: ErrorKindV::ExpectedToken(tt), span: t.span } }
        },
        None => Parsed::Failed { err: ErrorV { kind: ErrorKindV::MissingToken, span: st.last } },
    }
}

/// Consume one identifier token, or fail with the given error kind.
pub open spec fn s_bump_ident(toks: Seq<TokenV>, st: PState, kind: ErrorKindV) -> Parsed<IdentV> {
    match s_peek(toks, st) {
        Some(t) => match t.kind {
            TokenKindV::Identifier(name) => Parsed::Found {
                val: IdentV { value: name, span: t.span },
                st: s_advance(toks, st),
            },
            _ => Parsed::Failed { err: ErrorV { kind, span: t.span } },
        },
        None => Parsed::Failed { err: ErrorV { kind, span: st.last } },
    }
}

/// What every parse function promises, relative to its spec-level
/// counterpart `sr`: the token sequence is untouched; on success the
/// result's view, the cursor position and the recorded last span are
/// exactly what the spec-level parser computed, and at least one token
/// was consumed; on failure the error is exactly the spec-level error
/// and the cursor only moved forward.
pub open spec fn parse_post<T: DeepView>(
    toks0: TokensV,
    ctx0: ParserCtx,
    toks1: TokensV,
    ctx1: ParserCtx,
    r: Result<T, Error>,
    sr: Parsed<<T as DeepView>::V>,
) -> bool {
    &&& toks1.toks == toks0.toks
    &&& match r {
        Ok(v) => {
            &&& sr == (Parsed::Found { val: v.deep_view(), st: state_of(toks1, ctx1) })
            &&& toks0.pos < toks1.pos <= toks0.toks.len()
        },
        Err(e) => {
            &&& sr == (Parsed::Failed::<<T as DeepView>::V> { err: e@ })
            &&& toks0.pos <= toks1.pos
        },
    }
}

/// Like `parse_post`, for parse functions that may legitimately succeed
/// without consuming anything (an absent optional production).
pub open spec fn parse_post_opt<T: DeepView>(
    toks0: TokensV,
    ctx0: ParserCtx,
    toks1: TokensV,
    ctx1: ParserCtx,
    r: Result<T, Error>,
    sr: Parsed<<T as DeepView>::V>,
) -> bool {
    &&& toks1.toks == toks0.toks
    &&& match r {
        Ok(v) => {
            &&& sr == (Parsed::Found { val: v.deep_view(), st: state_of(toks1, ctx1) })
            &&& toks0.pos <= toks1.pos
            &&& toks0.pos < toks1.pos ==> toks1.pos <= toks0.toks.len()
        },
        Err(e) => {
            &&& sr == (Parsed::Failed::<<T as DeepView>::V> { err: e@ })
            &&& toks0.pos <= toks1.pos
        },
    }
}

/// The diagnostic context of one parse: the span of the last consumed
/// token, owned exclusively by the call stack executing the parse.
pub struct ParserCtx {
    pub last_span: Span,
}

impl ParserCtx {
    pub fn new() -> (ctx: ParserCtx)
        ensures
            ctx.last_span == Span::spec_new(0, 0),
    {
        ParserCtx { last_span: Span { start: 0, len: 0 } }
    }

    /// The span of the last token the cursor consumed.
    pub fn last_span(&self) -> (s: Span)
        ensures
            s == self.last_span,
    {
        self.last_span
    }

    /// Build an error value at the given span.
    pub fn error(&self, kind: ErrorKind, span: Span) -> (e: Error)
        ensures
            e.kind == kind,
            e.span == span,
    {
        Error { kind, span }
    }
}

/// A cursor over the lexed token sequence.
pub struct Tokens {
    tokens: Vec<Token>,
    pos: usize,
}

/// Mathematical model of the cursor: the token views and the position.
pub struct TokensV {
    pub toks: Seq<TokenV>,
    pub pos: nat,
}

impl View for Tokens {
    type V = TokensV;

    closed spec fn view(&self) -> TokensV {
        TokensV {
            toks: self.tokens@.map_values(|t: Token| t@),
            pos: self.pos as nat,
        }
    }
}

/// The parser state a cursor and a context are in.
pub open spec fn state_of(tokens: TokensV, ctx: ParserCtx) -> PState {
    PState { pos: tokens.pos, last: ctx.last_span }
}

impl Tokens {
    /// A cursor at the start of the given token sequence.
    pub fn new(tokens: Vec<Token>) -> (r: Tokens)
        ensures
            r@.toks == tokens@.map_values(|t: Token| t@),
            r@.pos == 0,
    {
        Tokens { tokens, pos: 0 }
    }

    /// Look at the next token without consuming it.
    pub fn peek(&self) -> (r: Option<&Token>)
        ensures
            match r {
                Some(t) => self@.pos < self@.toks.len() && t@ == self@.toks[self@.pos as int],
                None => self@.pos >= self@.toks.len(),
            },
    {
        if self.pos < self.tokens.len() {
            Some(&self.tokens[self.pos])
        } else {
            None
        }
    }

    /// Consume and return the next token, recording its span in the
    /// context; `None` at the end of the stream.
    pub fn bump(&mut self, ctx: &mut ParserCtx) -> (r: Option<Token>)
        ensures
            final(self)@.toks == old(self)@.toks,
            match r {
                Some(t) => {
                    &&& old(self)@.pos < old(self)@.toks.len()
                    &&& t@ == old(self)@.toks[old(self)@.pos as int]
                    &&& final(self)@.pos == old(self)@.pos + 1
                    &&& final(ctx).last_span == t.span
                },
                None => {
                    &&& old(self)@.pos >= old(self)@.toks.len()
                    &&& final(self)@.pos == old(self)@.pos
                    &&& *final(ctx) == *old(ctx)
                },
            },
            state_of(final(self)@, *final(ctx)) == s_advance(
                old(self)@.toks,
                state_of(old(self)@, *old(ctx)),
            ),
    {
        if self.pos < self.tokens.len() {
            let t = self.tokens[self.pos].duplicate();
            self.pos = self.pos + 1;
            ctx.last_span = t.span;
            Some(t)
        } else {
            None
        }
    }

    /// Consume one token, or fail with the given error kind at the span
    /// of the last consumed token.
    pub fn bump_err(&mut self, ctx: &mut ParserCtx, kind: ErrorKind) -> (r: Result<Token, Error>)
        ensures
            final(self)@.toks == old(self)@.toks,
            match r {
                Ok(t) => {
                    &&& s_bump_err(old(self)@.toks, state_of(old(self)@, *old(ctx)), kind@)
                        == (Parsed::Found { val: t@, st: state_of(final(self)@, *final(ctx)) })
                    &&& old(self)@.pos < old(self)@.toks.len()
                    &&& final(self)@.pos == old(self)@.pos + 1
                },
                Err(e) => {
                    &&& s_bump_err(old(self)@.toks, state_of(old(self)@, *old(ctx)), kind@)
                        == (Parsed::Failed::<TokenV> { err: e@ })
                    &&& final(self)@.pos == old(self)@.pos
                    &&& *final(ctx) == *old(ctx)
                },
            },
    {
        match self.bump(ctx) {
            Some(t) => Ok(t),
            None => Err(ctx.error(kind, ctx.last_span())),
        }
    }

    /// Consume one token that must have the given type.
    pub fn bump_expected(&mut self, ctx: &mut ParserCtx, tt: TokenType) -> (r: Result<
        Token,
        Error,
    >)
        ensures
            final(self)@.toks == old(self)@.toks,
            match r {
                Ok(t) => {
                    &&& s_bump_expected(old(self)@.toks, state_of(old(self)@, *old(ctx)), tt)
                        == (Parsed::Found { val: t@, st: state_of(final(self)@, *final(ctx)) })
                    &&& old(self)@.pos < old(self)@.toks.len()
                    &&& final(self)@.pos == old(self)@.pos + 1
                },
                Err(e) => {
                    &&& s_bump_expected(old(self)@.toks, state_of(old(self)@, *old(ctx)), tt)
                        == (Parsed::Failed::<TokenV> { err: e@ })
                    &&& old(self)@.pos <= final(self)@.pos
                },
            },
    {
        match self.bump(ctx) {
            Some(t) => {
                if t.kind.token_type() == tt {
                    Ok(t)
                } else {
                    Err(ctx.error(ErrorKind::ExpectedToken(tt), t.span))
                }
            },
            None => Err(ctx.error(ErrorKind::MissingToken, ctx.last_span())),
        }
    }

    /// Consume one identifier token, or fail with the given error kind.
    pub fn bump_ident(&mut self, ctx: &mut ParserCtx, kind: ErrorKind) -> (r: Result<Ident, Error>)
        ensures
            final(self)@.toks == old(self)@.toks,
            match r {
                Ok(id) => {
                    &&& s_bump_ident(old(self)@.toks, state_of(old(self)@, *old(ctx)), kind@)
                        == (Parsed::Found { val: id@, st: state_of(final(self)@, *final(ctx)) })
                    &&& old(self)@.pos < old(self)@.toks.len()
                    &&& final(self)@.pos == old(self)@.pos + 1
                },
                Err(e) => {
                    &&& s_bump_ident(old(self)@.toks, state_of(old(self)@, *old(ctx)), kind@)
                        == (Parsed::Failed::<IdentV> { err: e@ })
                    &&& old(self)@.pos <= final(self)@.pos
                },
            },
    {
        match self.bump(ctx) {
            Some(t) => {
                let span = t.span;
                match t.kind {
                    TokenKind::Identifier(value) => Ok(Ident { value, span }),
                    _ => Err(ctx.error(kind, span)),
                }
            },
            None => Err(ctx.error(kind, ctx.last_span())),
        }
    }
}

} // verus!
