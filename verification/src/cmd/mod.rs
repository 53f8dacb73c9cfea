//! What the commands of the tool compute, apart from reading and printing.
pub mod check;
pub mod eval;
