//! Parse errors.
//!
//! Every recoverable failure is a tagged value combining an error kind and
//! the span of the offending token.  The first error encountered stops the
//! parse of the compilation unit; no partial AST is returned alongside it.
//! Conditions that a user can reach with malformed input (a type name that
//! is not type-cased, a reserved type qualified by a module, `if` used as a
//! statement) are reported through this same channel rather than aborting.

use vstd::prelude::*;

verus! {

use crate::constants::Span;
use crate::tokens::TokenType;

/// What went wrong inside a function signature.
#[derive(Debug, Clone, Copy, PartialEq, Eq, Structural)]
pub enum SigIssue {
    /// A function name was expected.
    ExpectedName,
    /// The argument list ended before the closing parenthesis.
    ExpectedArguments,
    /// An argument name was expected.
    ExpectedIdentifier,
    /// `self` appeared outside a struct method.
    SelfOutsideMethod,
    /// `self` was not the first argument.
    SelfNotFirst,
    /// After an argument, a comma or the closing parenthesis was expected.
    ExpectedSeparator,
    /// The function body is empty.
    ExpectedBody,
}

/// Which segment of a use-path was malformed.
#[derive(Debug, Clone, Copy, PartialEq, Eq, Structural)]
pub enum PathIssue {
    /// A module name was expected.
    ExpectedModule,
    /// A submodule name was expected after `::`.
    ExpectedSubmodule,
}

/// The kinds of parse error.
#[derive(Debug, Clone, PartialEq, Eq)]
pub enum ErrorKind {
    /// The token stream ended where a token was required.
    MissingToken,
    /// A token of the given type was required.
    ExpectedToken(TokenType),
    /// A type was expected.
    MissingType,
    /// The token cannot start a type.
    InvalidType,
    /// The token is not valid here.
    InvalidToken,
    /// The size of an array type is not a valid unsigned 32-bit literal.
    InvalidArraySize,
    /// A field of a struct literal must end with a comma or a closing brace.
    InvalidEndOfLine,
    /// A function call ended unexpectedly.
    InvalidFnCall,
    /// A function signature was malformed.
    InvalidFunctionSignature(SigIssue),
    /// The `self` argument may not carry an attribute.
    SelfHasAttribute,
    /// A for-loop bound is not a valid unsigned 32-bit literal.
    InvalidRangeSize,
    /// The token cannot start a statement.
    InvalidStatement,
    /// `if` is only supported as an expression, never as a statement.
    UnsupportedStatement,
    /// The token cannot start an expression.
    InvalidExpression,
    /// A use-path was malformed.
    InvalidPath(PathIssue),
    /// The value of a constant declaration must be an integer literal.
    InvalidConstType,
    /// The literal does not parse as a field element.
    InvalidField(String),
    /// A type name must start with an uppercase letter.
    InvalidTypeName,
    /// The name is reserved for a built-in type.
    ReservedType(String),
    /// A reserved type name may never carry a module qualifier.
    ReservedTypeInModule,
}

/// Mathematical model of an error kind: literal payloads become
/// sequences of characters.
pub enum ErrorKindV {
    MissingToken,
    ExpectedToken(TokenType),
    MissingType,
    InvalidType,
    InvalidToken,
    InvalidArraySize,
    InvalidEndOfLine,
    InvalidFnCall,
    InvalidFunctionSignature(SigIssue),
    SelfHasAttribute,
    InvalidRangeSize,
    InvalidStatement,
    UnsupportedStatement,
    InvalidExpression,
    InvalidPath(PathIssue),
    InvalidConstType,
    InvalidField(Seq<char>),
    InvalidTypeName,
    ReservedType(Seq<char>),
    ReservedTypeInModule,
}

impl View for ErrorKind {
    type V = ErrorKindV;

    open spec fn view(&self) -> ErrorKindV {
        match self {
            ErrorKind::MissingToken => ErrorKindV::MissingToken,
            ErrorKind::ExpectedToken(t) => ErrorKindV::ExpectedToken(*t),
            ErrorKind::MissingType => ErrorKindV::MissingType,
            ErrorKind::InvalidType => ErrorKindV::InvalidType,
            ErrorKind::InvalidToken => ErrorKindV::InvalidToken,
            ErrorKind::InvalidArraySize => ErrorKindV::InvalidArraySize,
            ErrorKind::InvalidEndOfLine => ErrorKindV::InvalidEndOfLine,
            ErrorKind::InvalidFnCall => ErrorKindV::InvalidFnCall,
            ErrorKind::InvalidFunctionSignature(i) => ErrorKindV::InvalidFunctionSignature(*i),
            ErrorKind::SelfHasAttribute => ErrorKindV::SelfHasAttribute,
            ErrorKind::InvalidRangeSize => ErrorKindV::InvalidRangeSize,
            ErrorKind::InvalidStatement => ErrorKindV::InvalidStatement,
            ErrorKind::UnsupportedStatement => ErrorKindV::UnsupportedStatement,
            ErrorKind::InvalidExpression => ErrorKindV::InvalidExpression,
            ErrorKind::InvalidPath(i) => ErrorKindV::InvalidPath(*i),
            ErrorKind::InvalidConstType => ErrorKindV::InvalidConstType,
            ErrorKind::InvalidField(s) => ErrorKindV::InvalidField(s@),
            ErrorKind::InvalidTypeName => ErrorKindV::InvalidTypeName,
            ErrorKind::ReservedType(s) => ErrorKindV::ReservedType(s@),
            ErrorKind::ReservedTypeInModule => ErrorKindV::ReservedTypeInModule,
        }
    }
}

/// A parse error: an error kind and the span of the offending token.
#[derive(Debug, Clone, PartialEq, Eq)]
pub struct Error {
    pub kind: ErrorKind,
    pub span: Span,
}

/// Mathematical model of an error.
pub struct ErrorV {
    pub kind: ErrorKindV,
    pub span: Span,
}

impl View for Error {
    type V = ErrorV;

    open spec fn view(&self) -> ErrorV {
        ErrorV { kind: self.kind@, span: self.span }
    }
}

} // verus!
