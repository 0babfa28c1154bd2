//! Bounds on the references inside a compiled filter.
//!
//! A filter is closed at `n` when every variable index it contains is
//! below `n` plus the number of binders above it — counting a binding
//! `Pipe` for its right side and a `Fold` for its update body.  A filter
//! compiled from a well-formed source carries no free variable out of
//! its environment; the lemmas here show that the substitution
//! instances the translator uses preserve that.  `args_below` bounds the
//! parameter references likewise, and the binder wrappers a definition
//! is closed with are shown to respect it.
use vstd::prelude::*;
use crate::ir::{sat_add, Filter, Pairs, Part, Parts};
use crate::ast::Arg;
use crate::lower::wrap_body;
use crate::subst::{s_sub, s_sub_pairs, s_sub_part, s_sub_parts, SubKind};

verus! {

/// Every variable index lies below `n` plus the binders above it.
pub open spec fn closed(f: Filter, n: int) -> bool
    decreases f,
{
    match f {
        Filter::Var(v) => v < n,
        Filter::Pipe(l, bind, r) => closed(*l, n) && closed(
            *r,
            if bind {
                n + 1
            } else {
                n
            },
        ),
        Filter::Fold(_, xs, init, upd) => closed(*xs, n) && closed(*init, n) && closed(
            *upd,
            n + 1,
        ),
        Filter::Array(o) => match o {
            Some(x) => closed(*x, n),
            None => true,
        },
        Filter::Object(kvs) => closed_pairs(kvs, n),
        Filter::Try(x) => closed(*x, n),
        Filter::Neg(x) => closed(*x, n),
        Filter::Comma(l, r) => closed(*l, n) && closed(*r, n),
        Filter::Alt(l, r) => closed(*l, n) && closed(*r, n),
        Filter::Logic(l, _, r) => closed(*l, n) && closed(*r, n),
        Filter::Math(l, _, r) => closed(*l, n) && closed(*r, n),
        Filter::Ord(l, _, r) => closed(*l, n) && closed(*r, n),
        Filter::Assign(l, r) => closed(*l, n) && closed(*r, n),
        Filter::Update(l, r) => closed(*l, n) && closed(*r, n),
        Filter::UpdateMath(l, _, r) => closed(*l, n) && closed(*r, n),
        Filter::Ite(c, t, e) => closed(*c, n) && closed(*t, n) && closed(*e, n),
        Filter::Path(base, parts) => closed(*base, n) && closed_parts(parts, n),
        Filter::SkipCtx(_, x) => closed(*x, n),
        _ => true,
    }
}

pub open spec fn closed_pairs(ps: Pairs, n: int) -> bool
    decreases ps,
{
    match ps {
        Pairs::Nil => true,
        Pairs::Cons(k, v, rest) => closed(*k, n) && closed(*v, n) && closed_pairs(*rest, n),
    }
}

pub open spec fn closed_parts(ps: Parts, n: int) -> bool
    decreases ps,
{
    match ps {
        Parts::Nil => true,
        Parts::Cons(p, _, rest) => closed_part(p, n) && closed_parts(*rest, n),
    }
}

pub open spec fn closed_part(p: Part, n: int) -> bool
    decreases p,
{
    match p {
        Part::Index(i) => closed(*i, n),
        Part::Range(l, u) => (match l {
            Some(x) => closed(*x, n),
            None => true,
        }) && (match u {
            Some(x) => closed(*x, n),
            None => true,
        }),
    }
}

/// Closedness is monotone in the environment size.
pub proof fn lemma_closed_mono(f: Filter, n: int, m: int)
    requires
        closed(f, n),
        n <= m,
    ensures
        closed(f, m),
    decreases f, 0int,
{
    match f {
        Filter::Pipe(l, bind, r) => {
            lemma_closed_mono(*l, n, m);
            if bind {
                lemma_closed_mono(*r, n + 1, m + 1);
            } else {
                lemma_closed_mono(*r, n, m);
            }
        },
        Filter::Fold(_, xs, init, upd) => {
            lemma_closed_mono(*xs, n, m);
            lemma_closed_mono(*init, n, m);
            lemma_closed_mono(*upd, n + 1, m + 1);
        },
        Filter::Array(o) => match o {
            Some(x) => lemma_closed_mono(*x, n, m),
            None => {},
        },
        Filter::Object(kvs) => lemma_closed_mono_pairs(kvs, n, m),
        Filter::Try(x) => lemma_closed_mono(*x, n, m),
        Filter::Neg(x) => lemma_closed_mono(*x, n, m),
        Filter::Comma(l, r) => {
            lemma_closed_mono(*l, n, m);
            lemma_closed_mono(*r, n, m);
        },
        Filter::Alt(l, r) => {
            lemma_closed_mono(*l, n, m);
            lemma_closed_mono(*r, n, m);
        },
        Filter::Logic(l, _, r) => {
            lemma_closed_mono(*l, n, m);
            lemma_closed_mono(*r, n, m);
        },
        Filter::Math(l, _, r) => {
            lemma_closed_mono(*l, n, m);
            lemma_closed_mono(*r, n, m);
        },
        Filter::Ord(l, _, r) => {
            lemma_closed_mono(*l, n, m);
            lemma_closed_mono(*r, n, m);
        },
        Filter::Assign(l, r) => {
            lemma_closed_mono(*l, n, m);
            lemma_closed_mono(*r, n, m);
        },
        Filter::Update(l, r) => {
            lemma_closed_mono(*l, n, m);
            lemma_closed_mono(*r, n, m);
        },
        Filter::UpdateMath(l, _, r) => {
            lemma_closed_mono(*l, n, m);
            lemma_closed_mono(*r, n, m);
        },
        Filter::Ite(c, t, e) => {
            lemma_closed_mono(*c, n, m);
            lemma_closed_mono(*t, n, m);
            lemma_closed_mono(*e, n, m);
        },
        Filter::Path(base, parts) => {
            lemma_closed_mono(*base, n, m);
            lemma_closed_mono_parts(parts, n, m);
        },
        Filter::SkipCtx(_, x) => lemma_closed_mono(*x, n, m),
        _ => {},
    }
}

proof fn lemma_closed_mono_pairs(ps: Pairs, n: int, m: int)
    requires
        closed_pairs(ps, n),
        n <= m,
    ensures
        closed_pairs(ps, m),
    decreases ps, 0int,
{
    match ps {
        Pairs::Nil => {},
        Pairs::Cons(k, v, rest) => {
            lemma_closed_mono(*k, n, m);
            lemma_closed_mono(*v, n, m);
            lemma_closed_mono_pairs(*rest, n, m);
        },
    }
}

proof fn lemma_closed_mono_parts(ps: Parts, n: int, m: int)
    requires
        closed_parts(ps, n),
        n <= m,
    ensures
        closed_parts(ps, m),
    decreases ps, 1int,
{
    match ps {
        Parts::Nil => {},
        Parts::Cons(p, _, rest) => {
            assert(closed_part(p, n));
            match p {
                Part::Index(i) => lemma_closed_mono(*i, n, m),
                Part::Range(l, u) => {
                    match l {
                        Some(x) => lemma_closed_mono(*x, n, m),
                        None => {},
                    }
                    match u {
                        Some(x) => lemma_closed_mono(*x, n, m),
                        None => {},
                    }
                },
            }
            assert(closed_part(p, m));
            lemma_closed_mono_parts(*rest, n, m);
        },
    }
}

/// Filling the parameter placeholders of a filter with closed arguments
/// keeps it closed: no free variable escapes a built-in substitution.
pub proof fn lemma_fill_closed(f: Filter, sh: usize, args: Seq<Filter>, n: int)
    requires
        closed(f, n),
        forall|j: int| 0 <= j < args.len() ==> closed(#[trigger] args[j], n),
    ensures
        closed(s_sub(f, 0, SubKind::Fill, sh, args), n),
{
    lemma_fill_closed_at(f, 0, sh, args, n, 0);
}

proof fn lemma_fill_closed_at(f: Filter, vs: usize, sh: usize, args: Seq<Filter>, n: int, b: int)
    requires
        closed(f, n + b),
        b >= 0,
        forall|j: int| 0 <= j < args.len() ==> closed(#[trigger] args[j], n),
    ensures
        closed(s_sub(f, vs, SubKind::Fill, sh, args), n + b),
    decreases f, 0int,
{
    match f {
        Filter::Arg(a) => {
            if a < args.len() {
                lemma_closed_mono(args[a as int], n, n + b);
            }
        },
        Filter::Pipe(l, bind, r) => {
            lemma_fill_closed_at(*l, vs, sh, args, n, b);
            if bind {
                lemma_fill_closed_at(*r, sat_add(vs, 1), sh, args, n, b + 1);
            } else {
                lemma_fill_closed_at(*r, vs, sh, args, n, b);
            }
        },
        Filter::Fold(_, xs, init, upd) => {
            lemma_fill_closed_at(*xs, vs, sh, args, n, b);
            lemma_fill_closed_at(*init, vs, sh, args, n, b);
            lemma_fill_closed_at(*upd, sat_add(vs, 1), sh, args, n, b + 1);
        },
        Filter::Array(o) => match o {
            Some(x) => lemma_fill_closed_at(*x, vs, sh, args, n, b),
            None => {},
        },
        Filter::Object(kvs) => lemma_fill_closed_pairs(kvs, vs, sh, args, n, b),
        Filter::Try(x) => lemma_fill_closed_at(*x, vs, sh, args, n, b),
        Filter::Neg(x) => lemma_fill_closed_at(*x, vs, sh, args, n, b),
        Filter::Comma(l, r) => {
            lemma_fill_closed_at(*l, vs, sh, args, n, b);
            lemma_fill_closed_at(*r, vs, sh, args, n, b);
        },
        Filter::Alt(l, r) => {
            lemma_fill_closed_at(*l, vs, sh, args, n, b);
            lemma_fill_closed_at(*r, vs, sh, args, n, b);
        },
        Filter::Logic(l, _, r) => {
            lemma_fill_closed_at(*l, vs, sh, args, n, b);
            lemma_fill_closed_at(*r, vs, sh, args, n, b);
        },
        Filter::Math(l, _, r) => {
            lemma_fill_closed_at(*l, vs, sh, args, n, b);
            lemma_fill_closed_at(*r, vs, sh, args, n, b);
        },
        Filter::Ord(l, _, r) => {
            lemma_fill_closed_at(*l, vs, sh, args, n, b);
            lemma_fill_closed_at(*r, vs, sh, args, n, b);
        },
        Filter::Assign(l, r) => {
            lemma_fill_closed_at(*l, vs, sh, args, n, b);
            lemma_fill_closed_at(*r, vs, sh, args, n, b);
        },
        Filter::Update(l, r) => {
            lemma_fill_closed_at(*l, vs, sh, args, n, b);
            lemma_fill_closed_at(*r, vs, sh, args, n, b);
        },
        Filter::UpdateMath(l, _, r) => {
            lemma_fill_closed_at(*l, vs, sh, args, n, b);
            lemma_fill_closed_at(*r, vs, sh, args, n, b);
        },
        Filter::Ite(c, t, e) => {
            lemma_fill_closed_at(*c, vs, sh, args, n, b);
            lemma_fill_closed_at(*t, vs, sh, args, n, b);
            lemma_fill_closed_at(*e, vs, sh, args, n, b);
        },
        Filter::Path(base, parts) => {
            lemma_fill_closed_at(*base, vs, sh, args, n, b);
            lemma_fill_closed_parts(parts, vs, sh, args, n, b);
        },
        Filter::SkipCtx(_, x) => lemma_fill_closed_at(*x, vs, sh, args, n, b),
        _ => {},
    }
}

proof fn lemma_fill_closed_pairs(
    ps: Pairs,
    vs: usize,
    sh: usize,
    args: Seq<Filter>,
    n: int,
    b: int,
)
    requires
        closed_pairs(ps, n + b),
        b >= 0,
        forall|j: int| 0 <= j < args.len() ==> closed(#[trigger] args[j], n),
    ensures
        closed_pairs(s_sub_pairs(ps, vs, SubKind::Fill, sh, args), n + b),
    decreases ps, 0int,
{
    match ps {
        Pairs::Nil => {},
        Pairs::Cons(k, v, rest) => {
            lemma_fill_closed_at(*k, vs, sh, args, n, b);
            lemma_fill_closed_at(*v, vs, sh, args, n, b);
            lemma_fill_closed_pairs(*rest, vs, sh, args, n, b);
        },
    }
}

proof fn lemma_fill_closed_parts(
    ps: Parts,
    vs: usize,
    sh: usize,
    args: Seq<Filter>,
    n: int,
    b: int,
)
    requires
        closed_parts(ps, n + b),
        b >= 0,
        forall|j: int| 0 <= j < args.len() ==> closed(#[trigger] args[j], n),
    ensures
        closed_parts(s_sub_parts(ps, vs, SubKind::Fill, sh, args), n + b),
    decreases ps, 1int,
{
    match ps {
        Parts::Nil => {},
        Parts::Cons(p, _, rest) => {
            assert(closed_part(p, n + b));
            match p {
                Part::Index(i) => lemma_fill_closed_at(*i, vs, sh, args, n, b),
                Part::Range(l, u) => {
                    match l {
                        Some(x) => lemma_fill_closed_at(*x, vs, sh, args, n, b),
                        None => {},
                    }
                    match u {
                        Some(x) => lemma_fill_closed_at(*x, vs, sh, args, n, b),
                        None => {},
                    }
                },
            }
            assert(closed_part(
                s_sub_part(p, vs, SubKind::Fill, sh, args),
                n + b,
            ));
            lemma_fill_closed_parts(*rest, vs, sh, args, n, b);
        },
    }
}

/// Lifting shifts every free variable uniformly: a filter closed at `n`
/// is, after a lift by `sh`, closed at `n + sh`.
pub proof fn lemma_lift_closed(f: Filter, vs: usize, sh: usize, args: Seq<Filter>, n: int)
    requires
        closed(f, n),
        n >= 0,
    ensures
        closed(s_sub(f, vs, SubKind::Lift, sh, args), n + sh),
    decreases f, 0int,
{
    match f {
        Filter::Var(v) => {
            assert(sat_add(v, sh) <= v + sh);
        },
        Filter::Pipe(l, bind, r) => {
            lemma_lift_closed(*l, vs, sh, args, n);
            if bind {
                lemma_lift_closed(*r, sat_add(vs, 1), sh, args, n + 1);
            } else {
                lemma_lift_closed(*r, vs, sh, args, n);
            }
        },
        Filter::Fold(_, xs, init, upd) => {
            lemma_lift_closed(*xs, vs, sh, args, n);
            lemma_lift_closed(*init, vs, sh, args, n);
            lemma_lift_closed(*upd, sat_add(vs, 1), sh, args, n + 1);
        },
        Filter::Array(o) => match o {
            Some(x) => lemma_lift_closed(*x, vs, sh, args, n),
            None => {},
        },
        Filter::Object(kvs) => lemma_lift_closed_pairs(kvs, vs, sh, args, n),
        Filter::Try(x) => lemma_lift_closed(*x, vs, sh, args, n),
        Filter::Neg(x) => lemma_lift_closed(*x, vs, sh, args, n),
        Filter::Comma(l, r) => {
            lemma_lift_closed(*l, vs, sh, args, n);
            lemma_lift_closed(*r, vs, sh, args, n);
        },
        Filter::Alt(l, r) => {
            lemma_lift_closed(*l, vs, sh, args, n);
            lemma_lift_closed(*r, vs, sh, args, n);
        },
        Filter::Logic(l, _, r) => {
            lemma_lift_closed(*l, vs, sh, args, n);
            lemma_lift_closed(*r, vs, sh, args, n);
        },
        Filter::Math(l, _, r) => {
            lemma_lift_closed(*l, vs, sh, args, n);
            lemma_lift_closed(*r, vs, sh, args, n);
        },
        Filter::Ord(l, _, r) => {
            lemma_lift_closed(*l, vs, sh, args, n);
            lemma_lift_closed(*r, vs, sh, args, n);
        },
        Filter::Assign(l, r) => {
            lemma_lift_closed(*l, vs, sh, args, n);
            lemma_lift_closed(*r, vs, sh, args, n);
        },
        Filter::Update(l, r) => {
            lemma_lift_closed(*l, vs, sh, args, n);
            lemma_lift_closed(*r, vs, sh, args, n);
        },
        Filter::UpdateMath(l, _, r) => {
            lemma_lift_closed(*l, vs, sh, args, n);
            lemma_lift_closed(*r, vs, sh, args, n);
        },
        Filter::Ite(c, t, e) => {
            lemma_lift_closed(*c, vs, sh, args, n);
            lemma_lift_closed(*t, vs, sh, args, n);
            lemma_lift_closed(*e, vs, sh, args, n);
        },
        Filter::Path(base, parts) => {
            lemma_lift_closed(*base, vs, sh, args, n);
            lemma_lift_closed_parts(parts, vs, sh, args, n);
        },
        Filter::SkipCtx(_, x) => lemma_lift_closed(*x, vs, sh, args, n),
        _ => {},
    }
}

proof fn lemma_lift_closed_pairs(ps: Pairs, vs: usize, sh: usize, args: Seq<Filter>, n: int)
    requires
        closed_pairs(ps, n),
        n >= 0,
    ensures
        closed_pairs(s_sub_pairs(ps, vs, SubKind::Lift, sh, args), n + sh),
    decreases ps, 0int,
{
    match ps {
        Pairs::Nil => {},
        Pairs::Cons(k, v, rest) => {
            lemma_lift_closed(*k, vs, sh, args, n);
            lemma_lift_closed(*v, vs, sh, args, n);
            lemma_lift_closed_pairs(*rest, vs, sh, args, n);
        },
    }
}

proof fn lemma_lift_closed_parts(ps: Parts, vs: usize, sh: usize, args: Seq<Filter>, n: int)
    requires
        closed_parts(ps, n),
        n >= 0,
    ensures
        closed_parts(s_sub_parts(ps, vs, SubKind::Lift, sh, args), n + sh),
    decreases ps, 1int,
{
    match ps {
        Parts::Nil => {},
        Parts::Cons(p, _, rest) => {
            assert(closed_part(p, n));
            match p {
                Part::Index(i) => lemma_lift_closed(*i, vs, sh, args, n),
                Part::Range(l, u) => {
                    match l {
                        Some(x) => lemma_lift_closed(*x, vs, sh, args, n),
                        None => {},
                    }
                    match u {
                        Some(x) => lemma_lift_closed(*x, vs, sh, args, n),
                        None => {},
                    }
                },
            }
            assert(closed_part(s_sub_part(p, vs, SubKind::Lift, sh, args), n + sh));
            lemma_lift_closed_parts(*rest, vs, sh, args, n);
        },
    }
}

/// Every parameter index lies below `n`.
pub open spec fn args_below(f: Filter, n: int) -> bool
    decreases f,
{
    match f {
        Filter::Arg(a) => a < n,
        Filter::Pipe(l, _, r) => args_below(*l, n) && args_below(*r, n),
        Filter::Fold(_, xs, init, upd) => args_below(*xs, n) && args_below(*init, n)
            && args_below(*upd, n),
        Filter::Array(o) => match o {
            Some(x) => args_below(*x, n),
            None => true,
        },
        Filter::Object(kvs) => args_below_pairs(kvs, n),
        Filter::Try(x) => args_below(*x, n),
        Filter::Neg(x) => args_below(*x, n),
        Filter::Comma(l, r) => args_below(*l, n) && args_below(*r, n),
        Filter::Alt(l, r) => args_below(*l, n) && args_below(*r, n),
        Filter::Logic(l, _, r) => args_below(*l, n) && args_below(*r, n),
        Filter::Math(l, _, r) => args_below(*l, n) && args_below(*r, n),
        Filter::Ord(l, _, r) => args_below(*l, n) && args_below(*r, n),
        Filter::Assign(l, r) => args_below(*l, n) && args_below(*r, n),
        Filter::Update(l, r) => args_below(*l, n) && args_below(*r, n),
        Filter::UpdateMath(l, _, r) => args_below(*l, n) && args_below(*r, n),
        Filter::Ite(c, t, e) => args_below(*c, n) && args_below(*t, n) && args_below(*e, n),
        Filter::Path(base, parts) => args_below(*base, n) && args_below_parts(parts, n),
        Filter::SkipCtx(_, x) => args_below(*x, n),
        _ => true,
    }
}

pub open spec fn args_below_pairs(ps: Pairs, n: int) -> bool
    decreases ps,
{
    match ps {
        Pairs::Nil => true,
        Pairs::Cons(k, v, rest) => args_below(*k, n) && args_below(*v, n) && args_below_pairs(
            *rest,
            n,
        ),
    }
}

pub open spec fn args_below_parts(ps: Parts, n: int) -> bool
    decreases ps,
{
    match ps {
        Parts::Nil => true,
        Parts::Cons(p, _, rest) => (match p {
            Part::Index(i) => args_below(*i, n),
            Part::Range(l, u) => (match l {
                Some(x) => args_below(*x, n),
                None => true,
            }) && (match u {
                Some(x) => args_below(*x, n),
                None => true,
            }),
        }) && args_below_parts(*rest, n),
    }
}

/// Closing a definition keeps its parameter references in bounds: the
/// binder wrappers added around a body use only `Arg(i)` with `i` an
/// index into the parameter list, so a body whose parameter references
/// lie below the arity yields a stored slot whose references do too.
pub proof fn lemma_wrap_args_below(args: Seq<Arg>, i: int, f: Filter)
    requires
        args_below(f, args.len() as int),
        0 <= i,
    ensures
        args_below(wrap_body(args, i, f), args.len() as int),
    decreases args.len() - i,
{
    if i < args.len() {
        lemma_wrap_args_below(args, i + 1, f);
        if args[i].spec_is_var() {
            assert(args_below(Filter::Arg(i as usize), args.len() as int));
        }
    }
}

} // verus!
