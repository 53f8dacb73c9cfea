//! Front end of a small functional language that compiles to Untyped Plutus
//! Core, together with a parser and an evaluator for Untyped Plutus Core.
pub mod cmd;
pub mod lang;
pub mod list;
pub mod text;
pub mod uplc;
