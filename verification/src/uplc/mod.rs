//! Untyped Plutus Core: its terms, its textual form and its evaluator.
pub mod ast;
pub mod builtins;
pub mod debruijn;
pub mod machine;
pub mod parser;
