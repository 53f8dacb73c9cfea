//! How an evaluation can fail.
use vstd::prelude::*;
use crate::uplc::builtins::DefaultFunction;

verus! {

/// The kinds of values that the machine tells apart.
#[derive(Clone, Copy, Debug, PartialEq, Eq, Structural)]
pub enum Type {
    Integer,
    ByteString,
    String,
    Unit,
    Bool,
    Pair,
    List,
    Data,
    Delay,
    Function,
}

/// Why a built-in function failed on arguments of the right types.
#[derive(Clone, Copy, Debug, PartialEq, Eq, Structural)]
pub enum Reason {
    /// The function was applied before it was forced often enough.
    MissingForce,
    /// The function was forced more often than it asks for.
    UnexpectedForce,
    /// The result is no machine integer.
    Overflow,
    IndexOutOfRange,
}

#[derive(Clone, Copy, Debug, PartialEq, Eq, Structural)]
pub enum Error {
    /// The variable of this index has no binder.
    FreeVariable(usize),
    /// A value of the first type was needed where one of the second stood.
    TypeMismatch(Type, Type),
    /// A step or a built-in function costs more than the budget has left.
    OutOfBudget,
    /// The term `error` was evaluated.
    UserError,
    BuiltinFailure(DefaultFunction, Reason),
}

} // verus!
