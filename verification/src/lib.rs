//! Lowering for a small jq-style query language: the parsed tree of
//! definitions and expressions is compiled into an intermediate
//! representation in which every variable, parameter and user-defined
//! function is a positional reference, and the definitions form a flat
//! table addressed by slot number.

pub mod ast;
pub mod closed;
pub mod compile;
pub mod diag;
pub mod ir;
pub mod laws;
pub mod lower;
pub mod num;
pub mod subst;
