//! Substitution over the intermediate representation.
//!
//! The lowering pass uses three instances of one traversal:
//! - `Lift`: shift every variable index outward by a fixed amount;
//! - `Inline`: splice an already-compiled definition body into a call
//!   site, keeping a variable bound under the binders crossed inside the
//!   body, shifting the free ones past the call site's environment, and
//!   replacing each parameter reference by the corresponding translated
//!   call argument, itself lifted past the binders crossed;
//! - `Fill`: replace each parameter placeholder of a built-in filter by
//!   the corresponding translated call argument, unchanged.
use vstd::prelude::*;
use crate::ir::{sat_add, add_sat, Filter, Pairs, Part, Parts};

verus! {

/// Which instance of the substitution is being applied.
#[derive(Clone, Copy, Debug, PartialEq, Eq, Structural)]
pub enum SubKind {
    Lift,
    Inline,
    Fill,
}

/// `Lift` is the base instance: `Inline` falls back to it on parameters.
pub open spec fn sub_rank(k: SubKind) -> int {
    match k {
        SubKind::Lift => 0,
        SubKind::Inline => 1,
        SubKind::Fill => 1,
    }
}

/// The substitution, as a function.
///
/// `vs` counts the binders crossed on the way down; `sh` is the shift
/// applied to the variables bound outside the traversed filter, and
/// `args` the translated call arguments.  A parameter index with no
/// matching argument is left unchanged.
pub open spec fn s_sub(f: Filter, vs: usize, k: SubKind, sh: usize, args: Seq<Filter>) -> Filter
    decreases sub_rank(k), f, 0int,
{
    match f {
        Filter::Id => Filter::Id,
        Filter::Recurse => Filter::Recurse,
        Filter::Int(n) => Filter::Int(n),
        Filter::Float(b) => Filter::Float(b),
        Filter::Str(s) => Filter::Str(s),
        Filter::Call { skip, id } => Filter::Call { skip, id },
        Filter::Var(v) => match k {
            SubKind::Lift => Filter::Var(sat_add(v, sh)),
            SubKind::Inline => if v < vs {
                Filter::Var(v)
            } else {
                Filter::Var(sat_add(v, sh))
            },
            SubKind::Fill => Filter::Var(v),
        },
        Filter::Arg(a) => match k {
            SubKind::Lift => Filter::Arg(a),
            SubKind::Inline => if a < args.len() {
                s_sub(args[a as int], 0, SubKind::Lift, vs, args)
            } else {
                Filter::Arg(a)
            },
            SubKind::Fill => if a < args.len() {
                args[a as int]
            } else {
                Filter::Arg(a)
            },
        },
        Filter::Array(o) => Filter::Array(
            match o {
                Some(x) => Some(Box::new(s_sub(*x, vs, k, sh, args))),
                None => None,
            },
        ),
        Filter::Object(kvs) => Filter::Object(s_sub_pairs(kvs, vs, k, sh, args)),
        Filter::Try(x) => Filter::Try(Box::new(s_sub(*x, vs, k, sh, args))),
        Filter::Neg(x) => Filter::Neg(Box::new(s_sub(*x, vs, k, sh, args))),
        Filter::Pipe(l, bind, r) => {
            let vs2 = if bind { sat_add(vs, 1) } else { vs };
            Filter::Pipe(
                Box::new(s_sub(*l, vs, k, sh, args)),
                bind,
                Box::new(s_sub(*r, vs2, k, sh, args)),
            )
        },
        Filter::Comma(l, r) => Filter::Comma(
            Box::new(s_sub(*l, vs, k, sh, args)),
            Box::new(s_sub(*r, vs, k, sh, args)),
        ),
        Filter::Alt(l, r) => Filter::Alt(
            Box::new(s_sub(*l, vs, k, sh, args)),
            Box::new(s_sub(*r, vs, k, sh, args)),
        ),
        Filter::Logic(l, or, r) => Filter::Logic(
            Box::new(s_sub(*l, vs, k, sh, args)),
            or,
            Box::new(s_sub(*r, vs, k, sh, args)),
        ),
        Filter::Math(l, op, r) => Filter::Math(
            Box::new(s_sub(*l, vs, k, sh, args)),
            op,
            Box::new(s_sub(*r, vs, k, sh, args)),
        ),
        Filter::Ord(l, op, r) => Filter::Ord(
            Box::new(s_sub(*l, vs, k, sh, args)),
            op,
            Box::new(s_sub(*r, vs, k, sh, args)),
        ),
        Filter::Assign(l, r) => Filter::Assign(
            Box::new(s_sub(*l, vs, k, sh, args)),
            Box::new(s_sub(*r, vs, k, sh, args)),
        ),
        Filter::Update(l, r) => Filter::Update(
            Box::new(s_sub(*l, vs, k, sh, args)),
            Box::new(s_sub(*r, vs, k, sh, args)),
        ),
        Filter::UpdateMath(l, op, r) => Filter::UpdateMath(
            Box::new(s_sub(*l, vs, k, sh, args)),
            op,
            Box::new(s_sub(*r, vs, k, sh, args)),
        ),
        Filter::Ite(c, t, e) => Filter::Ite(
            Box::new(s_sub(*c, vs, k, sh, args)),
            Box::new(s_sub(*t, vs, k, sh, args)),
            Box::new(s_sub(*e, vs, k, sh, args)),
        ),
        Filter::Fold(ty, xs, init, upd) => Filter::Fold(
            ty,
            Box::new(s_sub(*xs, vs, k, sh, args)),
            Box::new(s_sub(*init, vs, k, sh, args)),
            Box::new(s_sub(*upd, sat_add(vs, 1), k, sh, args)),
        ),
        Filter::Path(base, parts) => Filter::Path(
            Box::new(s_sub(*base, vs, k, sh, args)),
            s_sub_parts(parts, vs, k, sh, args),
        ),
        Filter::SkipCtx(n, x) => Filter::SkipCtx(n, Box::new(s_sub(*x, vs, k, sh, args))),
    }
}

/// The substitution, over object entries.
pub open spec fn s_sub_pairs(ps: Pairs, vs: usize, k: SubKind, sh: usize, args: Seq<Filter>) -> Pairs
    decreases sub_rank(k), ps, 0int,
{
    match ps {
        Pairs::Nil => Pairs::Nil,
        Pairs::Cons(key, val, rest) => Pairs::Cons(
            Box::new(s_sub(*key, vs, k, sh, args)),
            Box::new(s_sub(*val, vs, k, sh, args)),
            Box::new(s_sub_pairs(*rest, vs, k, sh, args)),
        ),
    }
}

/// The substitution, over path segments.
pub open spec fn s_sub_parts(ps: Parts, vs: usize, k: SubKind, sh: usize, args: Seq<Filter>) -> Parts
    decreases sub_rank(k), ps, 1int,
{
    match ps {
        Parts::Nil => Parts::Nil,
        Parts::Cons(p, opt, rest) => Parts::Cons(
            s_sub_part(p, vs, k, sh, args),
            opt,
            Box::new(s_sub_parts(*rest, vs, k, sh, args)),
        ),
    }
}

/// The substitution, over one path segment.
pub open spec fn s_sub_part(p: Part, vs: usize, k: SubKind, sh: usize, args: Seq<Filter>) -> Part
    decreases sub_rank(k), p, 0int,
{
    match p {
        Part::Index(i) => Part::Index(Box::new(s_sub(*i, vs, k, sh, args))),
        Part::Range(l, u) => Part::Range(
            match l {
                Some(x) => Some(Box::new(s_sub(*x, vs, k, sh, args))),
                None => None,
            },
            match u {
                Some(x) => Some(Box::new(s_sub(*x, vs, k, sh, args))),
                None => None,
            },
        ),
    }
}

/// Apply the substitution.
pub fn subst(f: &Filter, vs: usize, k: SubKind, sh: usize, args: &Vec<Filter>) -> (r: Filter)
    ensures
        r == s_sub(*f, vs, k, sh, args@),
    decreases sub_rank(k), *f, 0int,
{
    match f {
        Filter::Id => Filter::Id,
        Filter::Recurse => Filter::Recurse,
        Filter::Int(n) => Filter::Int(*n),
        Filter::Float(b) => Filter::Float(*b),
        Filter::Str(s) => Filter::Str(s.clone()),
        Filter::Call { skip, id } => Filter::Call { skip: *skip, id: *id },
        Filter::Var(v) => match k {
            SubKind::Lift => Filter::Var(add_sat(*v, sh)),
            SubKind::Inline => if *v < vs {
                Filter::Var(*v)
            } else {
                Filter::Var(add_sat(*v, sh))
            },
            SubKind::Fill => Filter::Var(*v),
        },
        Filter::Arg(a) => match k {
            SubKind::Lift => Filter::Arg(*a),
            SubKind::Inline => if *a < args.len() {
                subst(&args[*a], 0, SubKind::Lift, vs, args)
            } else {
                Filter::Arg(*a)
            },
            SubKind::Fill => if *a < args.len() {
                args[*a].clone()
            } else {
                Filter::Arg(*a)
            },
        },
        Filter::Array(o) => Filter::Array(
            match o {
                Some(x) => Some(Box::new(subst(x, vs, k, sh, args))),
                None => None,
            },
        ),
        Filter::Object(kvs) => Filter::Object(subst_pairs(kvs, vs, k, sh, args)),
        Filter::Try(x) => Filter::Try(Box::new(subst(x, vs, k, sh, args))),
        Filter::Neg(x) => Filter::Neg(Box::new(subst(x, vs, k, sh, args))),
        Filter::Pipe(l, bind, r) => {
            let vs2 = if *bind { add_sat(vs, 1) } else { vs };
            Filter::Pipe(
                Box::new(subst(l, vs, k, sh, args)),
                *bind,
                Box::new(subst(r, vs2, k, sh, args)),
            )
        },
        Filter::Comma(l, r) => Filter::Comma(
            Box::new(subst(l, vs, k, sh, args)),
            Box::new(subst(r, vs, k, sh, args)),
        ),
        Filter::Alt(l, r) => Filter::Alt(
            Box::new(subst(l, vs, k, sh, args)),
            Box::new(subst(r, vs, k, sh, args)),
        ),
        Filter::Logic(l, or, r) => Filter::Logic(
            Box::new(subst(l, vs, k, sh, args)),
            *or,
            Box::new(subst(r, vs, k, sh, args)),
        ),
        Filter::Math(l, op, r) => Filter::Math(
            Box::new(subst(l, vs, k, sh, args)),
            *op,
            Box::new(subst(r, vs, k, sh, args)),
        ),
        Filter::Ord(l, op, r) => Filter::Ord(
            Box::new(subst(l, vs, k, sh, args)),
            *op,
            Box::new(subst(r, vs, k, sh, args)),
        ),
        Filter::Assign(l, r) => Filter::Assign(
            Box::new(subst(l, vs, k, sh, args)),
            Box::new(subst(r, vs, k, sh, args)),
        ),
        Filter::Update(l, r) => Filter::Update(
            Box::new(subst(l, vs, k, sh, args)),
            Box::new(subst(r, vs, k, sh, args)),
        ),
        Filter::UpdateMath(l, op, r) => Filter::UpdateMath(
            Box::new(subst(l, vs, k, sh, args)),
            *op,
            Box::new(subst(r, vs, k, sh, args)),
        ),
        Filter::Ite(c, t, e) => Filter::Ite(
            Box::new(subst(c, vs, k, sh, args)),
            Box::new(subst(t, vs, k, sh, args)),
            Box::new(subst(e, vs, k, sh, args)),
        ),
        Filter::Fold(ty, xs, init, upd) => Filter::Fold(
            *ty,
            Box::new(subst(xs, vs, k, sh, args)),
            Box::new(subst(init, vs, k, sh, args)),
            Box::new(subst(upd, add_sat(vs, 1), k, sh, args)),
        ),
        Filter::Path(base, parts) => Filter::Path(
            Box::new(subst(base, vs, k, sh, args)),
            subst_parts(parts, vs, k, sh, args),
        ),
        Filter::SkipCtx(n, x) => Filter::SkipCtx(*n, Box::new(subst(x, vs, k, sh, args))),
    }
}

/// Apply the substitution to object entries.
fn subst_pairs(ps: &Pairs, vs: usize, k: SubKind, sh: usize, args: &Vec<Filter>) -> (r: Pairs)
    ensures
        r == s_sub_pairs(*ps, vs, k, sh, args@),
    decreases sub_rank(k), *ps, 0int,
{
    match ps {
        Pairs::Nil => Pairs::Nil,
        Pairs::Cons(key, val, rest) => Pairs::Cons(
            Box::new(subst(key, vs, k, sh, args)),
            Box::new(subst(val, vs, k, sh, args)),
            Box::new(subst_pairs(rest, vs, k, sh, args)),
        ),
    }
}

/// Apply the substitution to path segments.
fn subst_parts(ps: &Parts, vs: usize, k: SubKind, sh: usize, args: &Vec<Filter>) -> (r: Parts)
    ensures
        r == s_sub_parts(*ps, vs, k, sh, args@),
    decreases sub_rank(k), *ps, 1int,
{
    match ps {
        Parts::Nil => Parts::Nil,
        Parts::Cons(p, opt, rest) => Parts::Cons(
            subst_part(p, vs, k, sh, args),
            *opt,
            Box::new(subst_parts(rest, vs, k, sh, args)),
        ),
    }
}

/// Apply the substitution to one path segment.
fn subst_part(p: &Part, vs: usize, k: SubKind, sh: usize, args: &Vec<Filter>) -> (r: Part)
    ensures
        r == s_sub_part(*p, vs, k, sh, args@),
    decreases sub_rank(k), *p, 0int,
{
    match p {
        Part::Index(i) => Part::Index(Box::new(subst(i, vs, k, sh, args))),
        Part::Range(l, u) => Part::Range(
            match l {
                Some(x) => Some(Box::new(subst(x, vs, k, sh, args))),
                None => None,
            },
            match u {
                Some(x) => Some(Box::new(subst(x, vs, k, sh, args))),
                None => None,
            },
        ),
    }
}

/// The substitution acts as a homomorphism on every variant that is not a
/// leaf reference: it maps each constructor to the same constructor applied
/// to the substituted children, with the binder count raised under a
/// binding `Pipe` and under a `Fold` update body.
pub proof fn lemma_subst_homomorphism(f: Filter, vs: usize, k: SubKind, sh: usize, args: Seq<Filter>)
    ensures
        f matches Filter::Array(o) ==> s_sub(f, vs, k, sh, args) == Filter::Array(
            match o {
                Some(x) => Some(Box::new(s_sub(*x, vs, k, sh, args))),
                None => None::<Box<Filter>>,
            },
        ),
        f matches Filter::Object(kvs) ==> s_sub(f, vs, k, sh, args) == Filter::Object(
            s_sub_pairs(kvs, vs, k, sh, args),
        ),
        f matches Filter::Try(x) ==> s_sub(f, vs, k, sh, args) == Filter::Try(
            Box::new(s_sub(*x, vs, k, sh, args)),
        ),
        f matches Filter::Neg(x) ==> s_sub(f, vs, k, sh, args) == Filter::Neg(
            Box::new(s_sub(*x, vs, k, sh, args)),
        ),
        f matches Filter::Pipe(l, bind, r) ==> s_sub(f, vs, k, sh, args) == Filter::Pipe(
            Box::new(s_sub(*l, vs, k, sh, args)),
            bind,
            Box::new(s_sub(*r, if bind { sat_add(vs, 1) } else { vs }, k, sh, args)),
        ),
        f matches Filter::Comma(l, r) ==> s_sub(f, vs, k, sh, args) == Filter::Comma(
            Box::new(s_sub(*l, vs, k, sh, args)),
            Box::new(s_sub(*r, vs, k, sh, args)),
        ),
        f matches Filter::Alt(l, r) ==> s_sub(f, vs, k, sh, args) == Filter::Alt(
            Box::new(s_sub(*l, vs, k, sh, args)),
            Box::new(s_sub(*r, vs, k, sh, args)),
        ),
        f matches Filter::Logic(l, or, r) ==> s_sub(f, vs, k, sh, args) == Filter::Logic(
            Box::new(s_sub(*l, vs, k, sh, args)),
            or,
            Box::new(s_sub(*r, vs, k, sh, args)),
        ),
        f matches Filter::Math(l, op, r) ==> s_sub(f, vs, k, sh, args) == Filter::Math(
            Box::new(s_sub(*l, vs, k, sh, args)),
            op,
            Box::new(s_sub(*r, vs, k, sh, args)),
        ),
        f matches Filter::Ord(l, op, r) ==> s_sub(f, vs, k, sh, args) == Filter::Ord(
            Box::new(s_sub(*l, vs, k, sh, args)),
            op,
            Box::new(s_sub(*r, vs, k, sh, args)),
        ),
        f matches Filter::Assign(l, r) ==> s_sub(f, vs, k, sh, args) == Filter::Assign(
            Box::new(s_sub(*l, vs, k, sh, args)),
            Box::new(s_sub(*r, vs, k, sh, args)),
        ),
        f matches Filter::Update(l, r) ==> s_sub(f, vs, k, sh, args) == Filter::Update(
            Box::new(s_sub(*l, vs, k, sh, args)),
            Box::new(s_sub(*r, vs, k, sh, args)),
        ),
        f matches Filter::UpdateMath(l, op, r) ==> s_sub(f, vs, k, sh, args)
            == Filter::UpdateMath(
            Box::new(s_sub(*l, vs, k, sh, args)),
            op,
            Box::new(s_sub(*r, vs, k, sh, args)),
        ),
        f matches Filter::Ite(c, t, e) ==> s_sub(f, vs, k, sh, args) == Filter::Ite(
            Box::new(s_sub(*c, vs, k, sh, args)),
            Box::new(s_sub(*t, vs, k, sh, args)),
            Box::new(s_sub(*e, vs, k, sh, args)),
        ),
        f matches Filter::Fold(ty, xs, init, upd) ==> s_sub(f, vs, k, sh, args) == Filter::Fold(
            ty,
            Box::new(s_sub(*xs, vs, k, sh, args)),
            Box::new(s_sub(*init, vs, k, sh, args)),
            Box::new(s_sub(*upd, sat_add(vs, 1), k, sh, args)),
        ),
        f matches Filter::Path(base, parts) ==> s_sub(f, vs, k, sh, args) == Filter::Path(
            Box::new(s_sub(*base, vs, k, sh, args)),
            s_sub_parts(parts, vs, k, sh, args),
        ),
        f matches Filter::SkipCtx(n, x) ==> s_sub(f, vs, k, sh, args) == Filter::SkipCtx(
            n,
            Box::new(s_sub(*x, vs, k, sh, args)),
        ),
{
}

} // verus!
