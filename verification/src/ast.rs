//! The abstract syntax tree that the lowering pass consumes.
//!
//! Every expression node carries the source span it was parsed from, so
//! that diagnostics can point back into the source text.
use vstd::prelude::*;

verus! {

/// A half-open range of source positions.
#[derive(Clone, Copy, Debug, PartialEq, Eq, Structural)]
pub struct Span {
    pub start: usize,
    pub end: usize,
}

/// Arithmetic operators.
#[derive(Clone, Copy, Debug, PartialEq, Eq, Structural)]
pub enum MathOp {
    Add,
    Sub,
    Mul,
    Div,
    Rem,
}

/// Ordering and equality operators.
#[derive(Clone, Copy, Debug, PartialEq, Eq, Structural)]
pub enum OrdOp {
    Lt,
    Le,
    Gt,
    Ge,
    Eq,
    Ne,
}

/// The kind of a folding construct.
#[derive(Clone, Copy, Debug, PartialEq, Eq, Structural)]
pub enum FoldType {
    Reduce,
    For,
    Foreach,
}

/// Assignment operators.
#[derive(Clone, Copy, Debug, PartialEq, Eq, Structural)]
pub enum AssignOp {
    Assign,
    Update,
    UpdateWith(MathOp),
}

/// Binary operators; a pipe optionally binds the left-hand value to a variable.
#[derive(Debug)]
pub enum BinaryOp {
    Pipe(Option<String>),
    Comma,
    Alt,
    Or,
    And,
    Math(MathOp),
    Ord(OrdOp),
    Assign(AssignOp),
}

/// An entry of an object construction expression.
#[derive(Debug)]
pub enum KeyVal {
    /// Both key and value are expressions.
    Filter(SpExpr, SpExpr),
    /// The key is a literal string; a missing value stands for `.key`.
    Str(String, Option<SpExpr>),
}

/// A part of a path expression.
#[derive(Debug)]
pub enum PathPart {
    Index(SpExpr),
    Range(Option<SpExpr>, Option<SpExpr>),
}

/// An expression of the query language.
#[derive(Debug)]
pub enum Expr {
    /// Identity, `.`.
    Id,
    /// Recursive descent, `..`.
    Recurse,
    /// A numeric literal, kept in its textual form, together with its
    /// value as a floating-point bit pattern when the text has one.
    /// The library holds no floating point, so the host that builds the
    /// tree supplies that value; it is consulted only when the text is in
    /// floating-point form (contains `.`, `e` or `E`).
    Num(String, Option<u64>),
    /// A string literal.
    Str(String),
    /// A variable reference (without the leading `$`).
    Var(String),
    /// A call to a named filter with argument expressions.
    Call(String, Vec<SpExpr>),
    /// Negation.
    Neg(Box<SpExpr>),
    /// Error suppression.
    Try(Box<SpExpr>),
    /// Array construction; `None` is the empty array.
    Array(Option<Box<SpExpr>>),
    /// Object construction.
    Object(Vec<KeyVal>),
    /// A binary operation.
    Binary(Box<SpExpr>, BinaryOp, Box<SpExpr>),
    /// A fold: kind, source, binder name, initial value, update body.
    Fold(FoldType, Box<SpExpr>, String, Box<SpExpr>, Box<SpExpr>),
    /// A conditional: a non-empty list of (if, then) pairs, and the else branch.
    Ite(Vec<(SpExpr, SpExpr)>, Box<SpExpr>),
    /// A path: a base expression and a list of (part, optional-flag) pairs.
    Path(Box<SpExpr>, Vec<(PathPart, bool)>),
}

/// An expression together with its source span.
#[derive(Debug)]
pub struct SpExpr {
    pub expr: Expr,
    pub span: Span,
}

/// A formal parameter of a definition: either a variable parameter
/// (written `$x`, binding a value) or a filter parameter (binding a filter).
#[derive(Debug, PartialEq, Eq)]
pub enum Arg {
    Var(String),
    Fun(String),
}

/// The parameter's name, as the string the parameter was declared with.
pub open spec fn arg_string(a: Arg) -> String {
    match a {
        Arg::Var(s) => s,
        Arg::Fun(s) => s,
    }
}

impl Arg {
    /// The parameter's name, without any sigil.
    pub open spec fn spec_name(self) -> Seq<char> {
        arg_string(self)@
    }

    /// Whether this parameter binds a variable.
    pub open spec fn spec_is_var(self) -> bool {
        self matches Arg::Var(_)
    }

    /// The parameter's name, without any sigil.
    pub fn name(&self) -> (r: &String)
        ensures
            *r == arg_string(*self),
            r@ == self.spec_name(),
    {
        match self {
            Arg::Var(s) => s,
            Arg::Fun(s) => s,
        }
    }

    /// Whether this parameter binds a variable.
    pub fn is_var(&self) -> (r: bool)
        ensures
            r == self.spec_is_var(),
    {
        match self {
            Arg::Var(_) => true,
            Arg::Fun(_) => false,
        }
    }
}

/// A definition: name, formal parameters, nested definitions, and a body.
#[derive(Debug)]
pub struct Def {
    pub name: String,
    pub args: Vec<Arg>,
    pub defs: Vec<Def>,
    pub body: SpExpr,
}

/// A module: top-level definitions and a main expression.
#[derive(Debug)]
pub struct Main {
    pub defs: Vec<Def>,
    pub body: SpExpr,
}

/// The number of definitions in `d`, counting `d` itself and all nested ones.
pub open spec fn def_count(d: Def) -> nat
    decreases d,
{
    1 + defs_count(d.defs@, d.defs@.len() as int)
}

/// The number of definitions in the first `i` elements of `ds`, nested ones included.
pub open spec fn defs_count(ds: Seq<Def>, i: int) -> nat
    decreases ds, i,
{
    if 0 < i && i <= ds.len() {
        defs_count(ds, i - 1) + def_count(ds[i - 1])
    } else {
        0
    }
}

} // verus!
