//! What the lexer and the parser report when they fail.
use vstd::prelude::*;
use crate::lang::ast::Span;

verus! {

#[derive(Clone, Copy, Debug, PartialEq, Eq, Structural)]
pub enum ErrorKind {
    /// No token starts with the character at the span.
    UnexpectedCharacter,
    /// No definition can go on with the token at the span.
    UnexpectedToken,
    /// The source ends in the middle of a definition.
    UnexpectedEnd,
}

#[derive(Clone, Copy, Debug, PartialEq, Eq, Structural)]
pub struct ParseError {
    pub kind: ErrorKind,
    pub span: Span,
}

} // verus!
