//! Diagnostics produced during lowering.
//!
//! Translation never aborts: every unresolved name or unparsable literal
//! is recorded here while a placeholder filter is emitted, so that later
//! errors are still found.  A result compiled with a non-empty diagnostic
//! list must not be executed.
use vstd::prelude::*;

verus! {

/// What went wrong.
#[derive(Clone, Copy, Debug, PartialEq, Eq, Structural)]
pub enum DiagKind {
    /// A call did not resolve to a definition, parameter or built-in.
    FunNotFound,
    /// A variable reference did not resolve to any binder.
    UndefVar,
    /// A numeric literal in floating-point form could not be parsed.
    BadFloat,
    /// A numeric literal in integer form could not be parsed.
    BadInt,
}

/// A diagnostic: where, and what.
#[derive(Clone, Copy, Debug, PartialEq, Eq, Structural)]
pub struct Diag {
    pub span: crate::ast::Span,
    pub kind: DiagKind,
}

impl DiagKind {
    /// The canonical message text for this kind.
    pub fn message(&self) -> (r: &'static str)
        ensures
            self matches DiagKind::FunNotFound ==> r@ == "could not find function"@,
            self matches DiagKind::UndefVar ==> r@ == "undefined variable"@,
            self matches DiagKind::BadFloat ==> r@ == "cannot interpret as floating-point number"@,
            self matches DiagKind::BadInt ==> r@ == "cannot interpret as machine-size integer"@,
    {
        match self {
            DiagKind::FunNotFound => "could not find function",
            DiagKind::UndefVar => "undefined variable",
            DiagKind::BadFloat => "cannot interpret as floating-point number",
            DiagKind::BadInt => "cannot interpret as machine-size integer",
        }
    }
}

} // verus!
