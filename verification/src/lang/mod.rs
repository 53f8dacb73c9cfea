//! The surface language: its syntax tree and its parser.
pub mod ast;
pub mod expr;
pub mod parser;
