//! The intermediate representation that the lowering pass produces.
//!
//! Every name of the source has been replaced by a positional reference:
//! variables by de Bruijn indices counted from the innermost binder, and
//! formal parameters by their position in the owning definition's list.
//! Repeated children (object entries, path parts) are kept as cons lists,
//! so that filters compare structurally.
use vstd::prelude::*;
use crate::ast::{FoldType, MathOp, OrdOp};

verus! {

/// A part of a compiled path.
#[derive(Debug, PartialEq, Eq)]
pub enum Part {
    Index(Box<Filter>),
    Range(Option<Box<Filter>>, Option<Box<Filter>>),
}

/// The key-value pairs of a compiled object construction, in source order.
#[derive(Debug, PartialEq, Eq)]
pub enum Pairs {
    Nil,
    Cons(Box<Filter>, Box<Filter>, Box<Pairs>),
}

/// The (part, optional-flag) segments of a compiled path, in source order.
#[derive(Debug, PartialEq, Eq)]
pub enum Parts {
    Nil,
    Cons(Part, bool, Box<Parts>),
}

/// A compiled filter.
///
/// `Float` carries the IEEE-754 bit pattern of the parsed literal, so that
/// the representation stays a tree of plain values.
#[derive(Debug, PartialEq, Eq)]
pub enum Filter {
    /// Identity.
    Id,
    /// Recursive descent.
    Recurse,
    /// An integer literal.
    Int(isize),
    /// A floating-point literal, as its bit pattern.
    Float(u64),
    /// A string literal.
    Str(String),
    /// Array construction; `None` is the empty array.
    Array(Option<Box<Filter>>),
    /// Object construction from key-value pairs.
    Object(Pairs),
    /// Error suppression.
    Try(Box<Filter>),
    /// Negation.
    Neg(Box<Filter>),
    /// Composition; when the flag is set, the left value is bound
    /// as a new innermost variable visible to the right side.
    Pipe(Box<Filter>, bool, Box<Filter>),
    /// Concatenation.
    Comma(Box<Filter>, Box<Filter>),
    /// Alternation.
    Alt(Box<Filter>, Box<Filter>),
    /// Disjunction when the flag is set, else conjunction.
    Logic(Box<Filter>, bool, Box<Filter>),
    /// Arithmetic.
    Math(Box<Filter>, MathOp, Box<Filter>),
    /// Comparison.
    Ord(Box<Filter>, OrdOp, Box<Filter>),
    /// Plain assignment.
    Assign(Box<Filter>, Box<Filter>),
    /// Update assignment.
    Update(Box<Filter>, Box<Filter>),
    /// Arithmetic update assignment.
    UpdateMath(Box<Filter>, MathOp, Box<Filter>),
    /// Conditional.
    Ite(Box<Filter>, Box<Filter>, Box<Filter>),
    /// A fold: kind, source, initial value, update body.
    /// The update body sees one new variable binding.
    Fold(FoldType, Box<Filter>, Box<Filter>, Box<Filter>),
    /// A path: a base filter and its segments.
    Path(Box<Filter>, Parts),
    /// A variable, as a de Bruijn index (0 is the innermost binding).
    Var(usize),
    /// A formal parameter of the enclosing definition, by position.
    Arg(usize),
    /// A call to the definition stored in table slot `id`; the evaluator
    /// drops the innermost `skip` variables before entering the callee.
    Call { skip: usize, id: usize },
    /// Evaluate the inner filter with the innermost `n` variables hidden.
    SkipCtx(usize, Box<Filter>),
}

/// `a + b`, saturating at the largest index.
pub open spec fn sat_add(a: usize, b: usize) -> usize {
    if a + b > usize::MAX {
        usize::MAX
    } else {
        (a + b) as usize
    }
}

/// `a + b`, saturating at the largest index.
pub fn add_sat(a: usize, b: usize) -> (r: usize)
    ensures
        r == sat_add(a, b),
{
    if a > usize::MAX - b {
        usize::MAX
    } else {
        a + b
    }
}

impl Clone for Part {
    fn clone(&self) -> (r: Self)
        ensures
            r == *self,
        decreases *self,
    {
        match self {
            Part::Index(f) => Part::Index(Box::new((**f).clone())),
            Part::Range(l, u) => {
                let l2 = match l {
                    Some(f) => Some(Box::new((**f).clone())),
                    None => None,
                };
                let u2 = match u {
                    Some(f) => Some(Box::new((**f).clone())),
                    None => None,
                };
                Part::Range(l2, u2)
            },
        }
    }
}

impl Clone for Pairs {
    fn clone(&self) -> (r: Self)
        ensures
            r == *self,
        decreases *self,
    {
        match self {
            Pairs::Nil => Pairs::Nil,
            Pairs::Cons(k, v, rest) => Pairs::Cons(
                Box::new((**k).clone()),
                Box::new((**v).clone()),
                Box::new((**rest).clone()),
            ),
        }
    }
}

impl Clone for Parts {
    fn clone(&self) -> (r: Self)
        ensures
            r == *self,
        decreases *self,
    {
        match self {
            Parts::Nil => Parts::Nil,
            Parts::Cons(p, opt, rest) => Parts::Cons(
                p.clone(),
                *opt,
                Box::new((**rest).clone()),
            ),
        }
    }
}

impl Clone for Filter {
    /// A deep copy that is equal to the original.
    fn clone(&self) -> (r: Self)
        ensures
            r == *self,
        decreases *self,
    {
        match self {
            Filter::Id => Filter::Id,
            Filter::Recurse => Filter::Recurse,
            Filter::Int(n) => Filter::Int(*n),
            Filter::Float(b) => Filter::Float(*b),
            Filter::Str(s) => Filter::Str(s.clone()),
            Filter::Array(a) => Filter::Array(
                match a {
                    Some(f) => Some(Box::new((**f).clone())),
                    None => None,
                },
            ),
            Filter::Object(kvs) => Filter::Object(kvs.clone()),
            Filter::Try(f) => Filter::Try(Box::new((**f).clone())),
            Filter::Neg(f) => Filter::Neg(Box::new((**f).clone())),
            Filter::Pipe(l, b, r) => Filter::Pipe(
                Box::new((**l).clone()),
                *b,
                Box::new((**r).clone()),
            ),
            Filter::Comma(l, r) => Filter::Comma(Box::new((**l).clone()), Box::new((**r).clone())),
            Filter::Alt(l, r) => Filter::Alt(Box::new((**l).clone()), Box::new((**r).clone())),
            Filter::Logic(l, b, r) => Filter::Logic(
                Box::new((**l).clone()),
                *b,
                Box::new((**r).clone()),
            ),
            Filter::Math(l, op, r) => Filter::Math(
                Box::new((**l).clone()),
                *op,
                Box::new((**r).clone()),
            ),
            Filter::Ord(l, op, r) => Filter::Ord(
                Box::new((**l).clone()),
                *op,
                Box::new((**r).clone()),
            ),
            Filter::Assign(l, r) => Filter::Assign(
                Box::new((**l).clone()),
                Box::new((**r).clone()),
            ),
            Filter::Update(l, r) => Filter::Update(
                Box::new((**l).clone()),
                Box::new((**r).clone()),
            ),
            Filter::UpdateMath(l, op, r) => Filter::UpdateMath(
                Box::new((**l).clone()),
                *op,
                Box::new((**r).clone()),
            ),
            Filter::Ite(c, t, e) => Filter::Ite(
                Box::new((**c).clone()),
                Box::new((**t).clone()),
                Box::new((**e).clone()),
            ),
            Filter::Fold(ty, xs, init, upd) => Filter::Fold(
                *ty,
                Box::new((**xs).clone()),
                Box::new((**init).clone()),
                Box::new((**upd).clone()),
            ),
            Filter::Path(f, parts) => Filter::Path(Box::new((**f).clone()), parts.clone()),
            Filter::Var(v) => Filter::Var(*v),
            Filter::Arg(a) => Filter::Arg(*a),
            Filter::Call { skip, id } => Filter::Call { skip: *skip, id: *id },
            Filter::SkipCtx(n, f) => Filter::SkipCtx(*n, Box::new((**f).clone())),
        }
    }
}

} // verus!
