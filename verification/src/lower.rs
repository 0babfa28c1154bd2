//! The expression translator: one recursive pass over the tree that
//! resolves every name to a positional reference and emits the
//! intermediate representation.
//!
//! The translator runs against one of two scopes.  A host scope supplies
//! a registry of built-in filters and a list of external parameter names;
//! a module scope supplies the stack of enclosing definitions built by
//! the definition compiler, with the already-compiled siblings of each
//! ancestor visible for inlining.
use vstd::prelude::*;
use crate::ast::{arg_string, Arg, BinaryOp, AssignOp, Expr, KeyVal, PathPart, Span, SpExpr};
use crate::diag::{Diag, DiagKind};
use crate::ir::{add_sat, sat_add, Filter, Pairs, Part, Parts};
use crate::num::{num_filter, s_num};
use crate::subst::{s_sub, subst, SubKind};

verus! {

/// The registry of built-in filters: (name, arity, body) entries.
/// A body uses `Arg(i)` as the placeholder for the i-th call argument
/// and should contain no free `Var`.  The latest entry for a
/// (name, arity) pair wins.
pub struct Builtins {
    pub entries: Vec<(String, usize, Filter)>,
}

/// The filter registered under (name, arity) among the first `i` entries,
/// latest first.
pub open spec fn s_lookup(
    es: Seq<(String, usize, Filter)>,
    name: Seq<char>,
    arity: usize,
    i: int,
) -> Option<Filter>
    decreases i,
{
    if i <= 0 || i > es.len() {
        None
    } else if es[i - 1].0@ == name && es[i - 1].1 == arity {
        Some(es[i - 1].2)
    } else {
        s_lookup(es, name, arity, i - 1)
    }
}

impl Builtins {
    /// The filter registered under (name, arity), if any.
    pub open spec fn spec_lookup(&self, name: Seq<char>, arity: usize) -> Option<Filter> {
        s_lookup(self.entries@, name, arity, self.entries@.len() as int)
    }

    /// Look up a built-in by name and arity.
    pub fn lookup(&self, name: &String, arity: usize) -> (r: Option<&Filter>)
        ensures
            match r {
                Some(f) => self.spec_lookup(name@, arity) == Some(*f),
                None => self.spec_lookup(name@, arity) is None,
            },
    {
        let mut i = self.entries.len();
        while i > 0
            invariant
                i <= self.entries@.len(),
                s_lookup(self.entries@, name@, arity, self.entries@.len() as int) == s_lookup(
                    self.entries@,
                    name@,
                    arity,
                    i as int,
                ),
            decreases i,
        {
            let e = &self.entries[i - 1];
            if e.0.eq(name) && e.1 == arity {
                return Some(&e.2);
            }
            i -= 1;
        }
        None
    }
}

/// One frame of the definition scope stack.
pub struct Parent {
    pub name: String,
    pub args: Vec<Arg>,
    pub id: usize,
    pub children: Vec<(String, usize, usize)>,
}

/// The definition compiler's state: the scope stack (outermost first)
/// and the table of compiled filters.
pub struct Ctx {
    pub tree: Vec<Parent>,
    pub defs: Vec<Filter>,
}

/// The mathematical model of a scope frame.
#[verifier::ext_equal]
pub struct ParentV {
    pub name: Seq<char>,
    pub args: Seq<Arg>,
    pub id: usize,
    pub children: Seq<(Seq<char>, usize, usize)>,
}

/// The mathematical model of the definition compiler's state.
#[verifier::ext_equal]
pub struct CtxV {
    pub tree: Seq<ParentV>,
    pub defs: Seq<Filter>,
}

/// The children table, as a sequence of (name, arity, slot) triples.
pub open spec fn children_view(ch: Seq<(String, usize, usize)>) -> Seq<(Seq<char>, usize, usize)> {
    Seq::new(ch.len(), |i: int| (ch[i].0@, ch[i].1, ch[i].2))
}

impl View for Parent {
    type V = ParentV;

    open spec fn view(&self) -> ParentV {
        ParentV {
            name: self.name@,
            args: self.args@,
            id: self.id,
            children: children_view(self.children@),
        }
    }
}

impl View for Ctx {
    type V = CtxV;

    open spec fn view(&self) -> CtxV {
        CtxV { tree: Seq::new(self.tree@.len(), |i: int| self.tree@[i]@), defs: self.defs@ }
    }
}

/// The scope a translation runs against.
#[derive(Clone, Copy)]
pub enum Scope<'a> {
    /// Built-in registry and external parameter names.
    Host(&'a Builtins, &'a Vec<String>),
    /// The definition compiler's scope stack and table.
    Module(&'a Ctx),
}

/// The mathematical model of a scope.
pub enum ScopeV {
    Host(Builtins, Seq<String>),
    Module(CtxV),
}

pub open spec fn scope_view(sc: Scope) -> ScopeV {
    match sc {
        Scope::Host(fns, args) => ScopeV::Host(*fns, args@),
        Scope::Module(c) => ScopeV::Module(c@),
    }
}

/// Every slot a children table points at lies inside the filter table.
pub open spec fn wf_children(ch: Seq<(Seq<char>, usize, usize)>, ndefs: int) -> bool {
    forall|j: int| 0 <= j < ch.len() ==> (#[trigger] ch[j]).2 < ndefs
}

/// The state invariant of the definition compiler: children point into
/// the table, and every frame above the root owns a reserved slot.
pub open spec fn wf_ctx(c: CtxV) -> bool {
    &&& forall|j: int|
        0 <= j < c.tree.len() ==> wf_children((#[trigger] c.tree[j]).children, c.defs.len() as int)
    &&& forall|j: int| 1 <= j < c.tree.len() ==> (#[trigger] c.tree[j]).id < c.defs.len()
}

pub open spec fn wf_scope(sc: ScopeV) -> bool {
    match sc {
        ScopeV::Host(_, _) => true,
        ScopeV::Module(c) => wf_ctx(c),
    }
}

/// The names of the variable parameters among the first `i` parameters,
/// in source order.
pub open spec fn var_names(args: Seq<Arg>, i: int) -> Seq<String>
    decreases i,
{
    if 0 < i && i <= args.len() {
        var_names(args, i - 1) + (if args[i - 1].spec_is_var() {
            seq![arg_string(args[i - 1])]
        } else {
            Seq::<String>::empty()
        })
    } else {
        Seq::<String>::empty()
    }
}

/// The variable parameter names of the first `i` frames, outermost first.
pub open spec fn scope_vars(tree: Seq<ParentV>, i: int) -> Seq<String>
    decreases i,
{
    if 0 < i && i <= tree.len() {
        scope_vars(tree, i - 1) + var_names(tree[i - 1].args, tree[i - 1].args.len() as int)
    } else {
        Seq::<String>::empty()
    }
}

/// The variable environment a translation sees: in a host scope the
/// pre-bound and local variables alone, in a module scope the variable
/// parameters of the enclosing definitions followed by them.
#[verifier::inline]
pub open spec fn env_names(sc: ScopeV, vars: Seq<String>) -> Seq<String> {
    match sc {
        ScopeV::Host(_, _) => vars,
        ScopeV::Module(c) => scope_vars(c.tree, c.tree.len() as int) + vars,
    }
}

/// The position, counted from the end, of the last of the first `i` names
/// equal to `v`: de Bruijn resolution over an environment listed
/// outermost first.
pub open spec fn rev_find(names: Seq<String>, v: Seq<char>, i: int) -> Option<usize>
    decreases i,
{
    if i <= 0 || i > names.len() {
        None
    } else if names[i - 1]@ == v {
        Some((names.len() - i) as usize)
    } else {
        rev_find(names, v, i - 1)
    }
}

/// The index of the last of the first `i` names equal to `v`.
pub open spec fn rfind_str(names: Seq<String>, v: Seq<char>, i: int) -> Option<usize>
    decreases i,
{
    if i <= 0 || i > names.len() {
        None
    } else if names[i - 1]@ == v {
        Some((i - 1) as usize)
    } else {
        rfind_str(names, v, i - 1)
    }
}

/// The position of the first parameter named `name`, scanning from `i`.
pub open spec fn arg_pos(args: Seq<Arg>, name: Seq<char>, i: int) -> Option<usize>
    decreases args.len() - i,
{
    if i < 0 || i >= args.len() {
        None
    } else if args[i].spec_name() == name {
        Some(i as usize)
    } else {
        arg_pos(args, name, i + 1)
    }
}

/// The slot registered under (name, arity) among the first `i` children,
/// latest registration first.
pub open spec fn child_find(
    ch: Seq<(Seq<char>, usize, usize)>,
    name: Seq<char>,
    arity: usize,
    i: int,
) -> Option<usize>
    decreases i,
{
    if i <= 0 || i > ch.len() {
        None
    } else if ch[i - 1].0 == name && ch[i - 1].1 == arity {
        Some(ch[i - 1].2)
    } else {
        child_find(ch, name, arity, i - 1)
    }
}

/// A resolved variable index always lies inside the environment:
/// the emitted `Var(k)` satisfies `k < |names|`.
pub proof fn lemma_resolved_var_in_range(names: Seq<String>, v: Seq<char>, i: int, k: usize)
    requires
        rev_find(names, v, i) == Some(k),
    ensures
        k < names.len(),
    decreases i,
{
    if !(i <= 0 || i > names.len()) && names[i - 1]@ != v {
        lemma_resolved_var_in_range(names, v, i - 1, k);
    }
}

/// A resolved parameter position always lies inside the parameter list:
/// the emitted `Arg(p)` satisfies `p < |args|`.
pub proof fn lemma_resolved_arg_in_range(args: Seq<Arg>, name: Seq<char>, i: int, p: usize)
    requires
        0 <= i,
        arg_pos(args, name, i) == Some(p),
    ensures
        p < args.len(),
    decreases args.len() - i,
{
    if !(i < 0 || i >= args.len()) && args[i].spec_name() != name {
        lemma_resolved_arg_in_range(args, name, i + 1, p);
    }
}

/// A slot found in a children table occurs in it.
pub proof fn lemma_child_find_in(
    ch: Seq<(Seq<char>, usize, usize)>,
    name: Seq<char>,
    arity: usize,
    i: int,
    id: usize,
)
    requires
        child_find(ch, name, arity, i) == Some(id),
    ensures
        exists|j: int| 0 <= j < ch.len() && (#[trigger] ch[j]).2 == id,
    decreases i,
{
    if !(i <= 0 || i > ch.len()) {
        if ch[i - 1].0 == name && ch[i - 1].1 == arity {
            assert(ch[i - 1].2 == id);
        } else {
            lemma_child_find_in(ch, name, arity, i - 1, id);
        }
    }
}

/// The translation of an expression: the compiled filter and the
/// diagnostics recorded along the way, in order of discovery.
pub open spec fn s_tr(sc: ScopeV, vars: Seq<String>, body: SpExpr) -> (Filter, Seq<Diag>)
    decreases body, 0int, 0int,
{
    match body.expr {
        Expr::Id => (Filter::Id, Seq::<Diag>::empty()),
        Expr::Recurse => (Filter::Recurse, Seq::<Diag>::empty()),
        Expr::Num(n, fb) => s_num(n, fb, body.span),
        Expr::Str(s) => (Filter::Str(s), Seq::<Diag>::empty()),
        Expr::Var(v) => {
            let names = env_names(sc, vars);
            match rev_find(names, v@, names.len() as int) {
                Some(k) => (Filter::Var(k), Seq::<Diag>::empty()),
                None => (Filter::Var(0), seq![Diag { span: body.span, kind: DiagKind::UndefVar }]),
            }
        },
        Expr::Call(name, cargs) => match sc {
            ScopeV::Host(fns, hargs) => {
                let rp = if cargs@.len() == 0 {
                    rfind_str(hargs, name@, hargs.len() as int)
                } else {
                    None
                };
                match rp {
                    Some(pos) => if vars.len() == 0 {
                        (Filter::Arg(pos), Seq::<Diag>::empty())
                    } else {
                        (
                            Filter::SkipCtx(vars.len() as usize, Box::new(Filter::Arg(pos))),
                            Seq::<Diag>::empty(),
                        )
                    },
                    None => {
                        let out = s_tr_args(sc, vars, cargs@, cargs@.len() as int);
                        match fns.spec_lookup(name@, cargs@.len() as usize) {
                            Some(fun) => (s_sub(fun, 0, SubKind::Fill, 0, out.0), out.1),
                            None => (
                                Filter::Id,
                                seq![Diag { span: body.span, kind: DiagKind::FunNotFound }] + out.1,
                            ),
                        }
                    },
                }
            },
            ScopeV::Module(c) => s_call(
                sc,
                vars,
                name@,
                cargs@,
                body.span,
                c.tree.len() as int,
                vars.len() as usize,
            ),
        },
        Expr::Neg(x) => {
            let o = s_tr(sc, vars, *x);
            (Filter::Neg(Box::new(o.0)), o.1)
        },
        Expr::Try(x) => {
            let o = s_tr(sc, vars, *x);
            (Filter::Try(Box::new(o.0)), o.1)
        },
        Expr::Array(o) => match o {
            None => (Filter::Array(None), Seq::<Diag>::empty()),
            Some(x) => {
                let o2 = s_tr(sc, vars, *x);
                (Filter::Array(Some(Box::new(o2.0))), o2.1)
            },
        },
        Expr::Object(kvs) => {
            let o = s_tr_obj(sc, vars, kvs@, 0);
            (Filter::Object(o.0), o.1)
        },
        Expr::Binary(l, op, r) => match op {
            BinaryOp::Pipe(ox) => match ox {
                None => {
                    let lo = s_tr(sc, vars, *l);
                    let ro = s_tr(sc, vars, *r);
                    (Filter::Pipe(Box::new(lo.0), false, Box::new(ro.0)), lo.1 + ro.1)
                },
                Some(x) => {
                    let lo = s_tr(sc, vars, *l);
                    let ro = s_tr(sc, vars.push(x), *r);
                    (Filter::Pipe(Box::new(lo.0), true, Box::new(ro.0)), lo.1 + ro.1)
                },
            },
            BinaryOp::Comma => {
                let lo = s_tr(sc, vars, *l);
                let ro = s_tr(sc, vars, *r);
                (Filter::Comma(Box::new(lo.0), Box::new(ro.0)), lo.1 + ro.1)
            },
            BinaryOp::Alt => {
                let lo = s_tr(sc, vars, *l);
                let ro = s_tr(sc, vars, *r);
                (Filter::Alt(Box::new(lo.0), Box::new(ro.0)), lo.1 + ro.1)
            },
            BinaryOp::Or => {
                let lo = s_tr(sc, vars, *l);
                let ro = s_tr(sc, vars, *r);
                (Filter::Logic(Box::new(lo.0), true, Box::new(ro.0)), lo.1 + ro.1)
            },
            BinaryOp::And => {
                let lo = s_tr(sc, vars, *l);
                let ro = s_tr(sc, vars, *r);
                (Filter::Logic(Box::new(lo.0), false, Box::new(ro.0)), lo.1 + ro.1)
            },
            BinaryOp::Math(m) => {
                let lo = s_tr(sc, vars, *l);
                let ro = s_tr(sc, vars, *r);
                (Filter::Math(Box::new(lo.0), m, Box::new(ro.0)), lo.1 + ro.1)
            },
            BinaryOp::Ord(m) => {
                let lo = s_tr(sc, vars, *l);
                let ro = s_tr(sc, vars, *r);
                (Filter::Ord(Box::new(lo.0), m, Box::new(ro.0)), lo.1 + ro.1)
            },
            BinaryOp::Assign(aop) => {
                let lo = s_tr(sc, vars, *l);
                let ro = s_tr(sc, vars, *r);
                match aop {
                    AssignOp::Assign => (
                        Filter::Assign(Box::new(lo.0), Box::new(ro.0)),
                        lo.1 + ro.1,
                    ),
                    AssignOp::Update => (
                        Filter::Update(Box::new(lo.0), Box::new(ro.0)),
                        lo.1 + ro.1,
                    ),
                    AssignOp::UpdateWith(m) => (
                        Filter::UpdateMath(Box::new(lo.0), m, Box::new(ro.0)),
                        lo.1 + ro.1,
                    ),
                }
            },
        },
        Expr::Fold(ty, xs, x, init, f) => {
            let xo = s_tr(sc, vars, *xs);
            let io = s_tr(sc, vars, *init);
            let fo = s_tr(sc, vars.push(x), *f);
            (
                Filter::Fold(ty, Box::new(xo.0), Box::new(io.0), Box::new(fo.0)),
                xo.1 + io.1 + fo.1,
            )
        },
        Expr::Ite(pairs, els) => {
            let eo = s_tr(sc, vars, *els);
            (s_ite_f(sc, vars, pairs@, eo.0, 0), eo.1 + s_ite_d(sc, vars, pairs@, 0))
        },
        Expr::Path(base, parts) => {
            let bo = s_tr(sc, vars, *base);
            let po = s_tr_parts(sc, vars, parts@, 0);
            (Filter::Path(Box::new(bo.0), po.0), bo.1 + po.1)
        },
    }
}

/// The translations of the first `i` call arguments, and their
/// diagnostics in order.
pub open spec fn s_tr_args(sc: ScopeV, vars: Seq<String>, es: Seq<SpExpr>, i: int) -> (
    Seq<Filter>,
    Seq<Diag>,
)
    decreases es, 0int, i,
{
    if i <= 0 || i > es.len() {
        (Seq::<Filter>::empty(), Seq::<Diag>::empty())
    } else {
        let p = s_tr_args(sc, vars, es, i - 1);
        let a = s_tr(sc, vars, es[i - 1]);
        (p.0.push(a.0), p.1 + a.1)
    }
}

/// The translation of the object entries from index `i` on.
/// A string key with no value stands for an access of that key.
pub open spec fn s_tr_obj(sc: ScopeV, vars: Seq<String>, kvs: Seq<KeyVal>, i: int) -> (
    Pairs,
    Seq<Diag>,
)
    decreases kvs, 0int, kvs.len() - i,
{
    if i < 0 || i >= kvs.len() {
        (Pairs::Nil, Seq::<Diag>::empty())
    } else {
        let rest = s_tr_obj(sc, vars, kvs, i + 1);
        match kvs[i] {
            KeyVal::Filter(kx, vx) => {
                let ko = s_tr(sc, vars, kx);
                let vo = s_tr(sc, vars, vx);
                (
                    Pairs::Cons(Box::new(ko.0), Box::new(vo.0), Box::new(rest.0)),
                    ko.1 + vo.1 + rest.1,
                )
            },
            KeyVal::Str(k, ov) => match ov {
                None => (
                    Pairs::Cons(
                        Box::new(Filter::Str(k)),
                        Box::new(
                            Filter::Path(
                                Box::new(Filter::Id),
                                Parts::Cons(
                                    Part::Index(Box::new(Filter::Str(k))),
                                    false,
                                    Box::new(Parts::Nil),
                                ),
                            ),
                        ),
                        Box::new(rest.0),
                    ),
                    rest.1,
                ),
                Some(vx) => {
                    let vo = s_tr(sc, vars, vx);
                    (
                        Pairs::Cons(Box::new(Filter::Str(k)), Box::new(vo.0), Box::new(rest.0)),
                        vo.1 + rest.1,
                    )
                },
            },
        }
    }
}

/// The conditional built from the (if, then) pairs from index `i` on,
/// wrapped around the translated else branch.
pub open spec fn s_ite_f(
    sc: ScopeV,
    vars: Seq<String>,
    ps: Seq<(SpExpr, SpExpr)>,
    els: Filter,
    i: int,
) -> Filter
    decreases ps, 0int, ps.len() - i,
{
    if i < 0 || i >= ps.len() {
        els
    } else {
        Filter::Ite(
            Box::new(s_tr(sc, vars, ps[i].0).0),
            Box::new(s_tr(sc, vars, ps[i].1).0),
            Box::new(s_ite_f(sc, vars, ps, els, i + 1)),
        )
    }
}

/// The diagnostics of the (if, then) pairs from index `i` on, last pair
/// first: the conditional is folded from the back.
pub open spec fn s_ite_d(sc: ScopeV, vars: Seq<String>, ps: Seq<(SpExpr, SpExpr)>, i: int) -> Seq<
    Diag,
>
    decreases ps, 0int, ps.len() - i,
{
    if i < 0 || i >= ps.len() {
        Seq::<Diag>::empty()
    } else {
        s_ite_d(sc, vars, ps, i + 1) + s_tr(sc, vars, ps[i].0).1 + s_tr(sc, vars, ps[i].1).1
    }
}

/// The translation of the path segments from index `i` on.
pub open spec fn s_tr_parts(sc: ScopeV, vars: Seq<String>, ps: Seq<(PathPart, bool)>, i: int) -> (
    Parts,
    Seq<Diag>,
)
    decreases ps, 0int, ps.len() - i,
{
    if i < 0 || i >= ps.len() {
        (Parts::Nil, Seq::<Diag>::empty())
    } else {
        let rest = s_tr_parts(sc, vars, ps, i + 1);
        match ps[i].0 {
            PathPart::Index(e) => {
                let io = s_tr(sc, vars, e);
                (
                    Parts::Cons(Part::Index(Box::new(io.0)), ps[i].1, Box::new(rest.0)),
                    io.1 + rest.1,
                )
            },
            PathPart::Range(lo, uo) => {
                let l2 = match lo {
                    Some(e) => Some(s_tr(sc, vars, e)),
                    None => None,
                };
                let u2 = match uo {
                    Some(e) => Some(s_tr(sc, vars, e)),
                    None => None,
                };
                let lf = match l2 {
                    Some(o) => Some(Box::new(o.0)),
                    None => None,
                };
                let ld = match l2 {
                    Some(o) => o.1,
                    None => Seq::<Diag>::empty(),
                };
                let uf = match u2 {
                    Some(o) => Some(Box::new(o.0)),
                    None => None,
                };
                let ud = match u2 {
                    Some(o) => o.1,
                    None => Seq::<Diag>::empty(),
                };
                (
                    Parts::Cons(Part::Range(lf, uf), ps[i].1, Box::new(rest.0)),
                    ld + ud + rest.1,
                )
            },
        }
    }
}

/// Resolve a call inside a module scope, walking the stack from frame
/// `i - 1` inward-out.  `acc` counts the variables bound below the frame
/// under inspection: the caller's local binders plus the variable
/// parameters of every frame already passed.  An inlined cousin body
/// keeps a variable bound under the binders crossed inside it and
/// shifts the rest outward by `acc`, past the caller's binders.
pub open spec fn s_call(
    sc: ScopeV,
    vars: Seq<String>,
    name: Seq<char>,
    cargs: Seq<SpExpr>,
    span: Span,
    i: int,
    acc: usize,
) -> (Filter, Seq<Diag>)
    decreases cargs, 1int, i,
{
    match sc {
        ScopeV::Module(c) => {
            if i <= 0 {
                (Filter::Id, seq![Diag { span, kind: DiagKind::FunNotFound }])
            } else {
                let t = c.tree[i - 1];
                match child_find(t.children, name, cargs.len() as usize, t.children.len() as int) {
                    Some(id) => {
                        let out = s_tr_args(sc, vars, cargs, cargs.len() as int);
                        (s_sub(c.defs[id as int], 0, SubKind::Inline, acc, out.0), out.1)
                    },
                    None => {
                        let acc2 = sat_add(
                            acc,
                            var_names(t.args, t.args.len() as int).len() as usize,
                        );
                        if cargs.len() == 0 {
                            match arg_pos(t.args, name, 0) {
                                Some(pos) => (Filter::Arg(pos), Seq::<Diag>::empty()),
                                None => if t.name == name && t.args.len() == 0 {
                                    (
                                        Filter::Call { skip: 0, id: t.id },
                                        Seq::<Diag>::empty(),
                                    )
                                } else {
                                    s_call(sc, vars, name, cargs, span, i - 1, acc2)
                                },
                            }
                        } else {
                            s_call(sc, vars, name, cargs, span, i - 1, acc2)
                        }
                    },
                }
            }
        },
        ScopeV::Host(_, _) => (Filter::Id, Seq::<Diag>::empty()),
    }
}

/// Find a variable innermost-first in an environment listed outermost first.
fn find_rev(names: &Vec<String>, v: &String) -> (r: Option<usize>)
    ensures
        r == rev_find(names@, v@, names@.len() as int),
{
    let mut i = names.len();
    while i > 0
        invariant
            i <= names@.len(),
            rev_find(names@, v@, names@.len() as int) == rev_find(names@, v@, i as int),
        decreases i,
    {
        if names[i - 1].eq(v) {
            return Some(names.len() - i);
        }
        i -= 1;
    }
    None
}

/// Find the last occurrence of a name.
fn rfind_string(names: &Vec<String>, v: &String) -> (r: Option<usize>)
    ensures
        r == rfind_str(names@, v@, names@.len() as int),
{
    let mut i = names.len();
    while i > 0
        invariant
            i <= names@.len(),
            rfind_str(names@, v@, names@.len() as int) == rfind_str(names@, v@, i as int),
        decreases i,
    {
        if names[i - 1].eq(v) {
            return Some(i - 1);
        }
        i -= 1;
    }
    None
}

/// Find the first parameter with the given name.
fn arg_position(args: &Vec<Arg>, v: &String) -> (r: Option<usize>)
    ensures
        r == arg_pos(args@, v@, 0),
{
    let mut i: usize = 0;
    while i < args.len()
        invariant
            i <= args@.len(),
            arg_pos(args@, v@, 0) == arg_pos(args@, v@, i as int),
        decreases args@.len() - i,
    {
        if args[i].name().eq(v) {
            return Some(i);
        }
        i += 1;
    }
    None
}

/// Find the slot registered for (name, arity), latest registration first.
fn child_lookup(ch: &Vec<(String, usize, usize)>, name: &String, arity: usize) -> (r: Option<
    usize,
>)
    ensures
        r == child_find(children_view(ch@), name@, arity, ch@.len() as int),
{
    let mut i = ch.len();
    while i > 0
        invariant
            i <= ch@.len(),
            child_find(children_view(ch@), name@, arity, ch@.len() as int) == child_find(
                children_view(ch@),
                name@,
                arity,
                i as int,
            ),
        decreases i,
    {
        let e = &ch[i - 1];
        if e.0.eq(name) && e.1 == arity {
            return Some(e.2);
        }
        i -= 1;
    }
    None
}

/// Count the variable parameters.
fn count_vars(args: &Vec<Arg>) -> (r: usize)
    ensures
        r == var_names(args@, args@.len() as int).len(),
{
    let mut c: usize = 0;
    let mut i: usize = 0;
    while i < args.len()
        invariant
            i <= args@.len(),
            c <= i,
            c == var_names(args@, i as int).len(),
        decreases args@.len() - i,
    {
        if args[i].is_var() {
            c += 1;
        }
        i += 1;
    }
    c
}

/// The full variable environment of a module scope: the variable
/// parameters of all frames, outermost first, then the local binders.
#[verifier::loop_isolation(false)]
fn scope_env(c: &Ctx, vars: &Vec<String>) -> (r: Vec<String>)
    ensures
        r@ == scope_vars(c@.tree, c@.tree.len() as int) + vars@,
{
    let mut out: Vec<String> = Vec::new();
    let mut i: usize = 0;
    while i < c.tree.len()
        invariant
            i <= c.tree@.len(),
            out@ == scope_vars(c@.tree, i as int),
        decreases c.tree@.len() - i,
    {
        let t = &c.tree[i];
        let mut j: usize = 0;
        while j < t.args.len()
            invariant
                j <= t.args@.len(),
                out@ == scope_vars(c@.tree, i as int) + var_names(t.args@, j as int),
            decreases t.args@.len() - j,
        {
            let a = &t.args[j];
            if a.is_var() {
                out.push(a.name().clone());
            }
            proof {
                assert(out@ =~= scope_vars(c@.tree, i as int) + var_names(
                    t.args@,
                    j + 1,
                ));
            }
            j += 1;
        }
        proof {
            assert(c@.tree[i as int].args == t.args@);
            assert(out@ =~= scope_vars(c@.tree, i + 1));
        }
        i += 1;
    }
    let mut k: usize = 0;
    while k < vars.len()
        invariant
            k <= vars@.len(),
            out@ == scope_vars(c@.tree, c@.tree.len() as int) + vars@.take(k as int),
        decreases vars@.len() - k,
    {
        out.push(vars[k].clone());
        proof {
            assert(out@ =~= scope_vars(c@.tree, c@.tree.len() as int) + vars@.take(k + 1));
        }
        k += 1;
    }
    proof {
        assert(vars@.take(vars@.len() as int) =~= vars@);
    }
    out
}

/// Resolve a call inside a module scope, as `s_call` describes: walk the
/// stack innermost-out, inlining a matching cousin, else binding a
/// nullary call to a parameter or to the enclosing definition itself.
#[verifier::loop_isolation(false)]
#[verifier::rlimit(50)]
fn resolve_call(
    c: &Ctx,
    sc: Scope,
    vars: &mut Vec<String>,
    name: &String,
    cargs: &Vec<SpExpr>,
    span: Span,
    errs: &mut Vec<Diag>,
) -> (r: Filter)
    requires
        scope_view(sc) == ScopeV::Module(c@),
        wf_ctx(c@),
    ensures
        ({
            let out = s_call(
                scope_view(sc),
                old(vars)@,
                name@,
                cargs@,
                span,
                c@.tree.len() as int,
                old(vars)@.len() as usize,
            );
            r == out.0 && final(errs)@ == old(errs)@ + out.1 && final(vars)@ == old(vars)@
        }),
    decreases *cargs, 1int, 0int,
{
    let ghost scv = scope_view(sc);
    let ghost vars0 = vars@;
    let ghost errs0 = errs@;
    let nloc = vars.len();
    let mut i = c.tree.len();
    let mut acc = nloc;
    while i > 0
        invariant
            i <= c@.tree.len(),
            vars@ == vars0,
            errs@ == errs0,
            s_call(scv, vars0, name@, cargs@, span, c@.tree.len() as int, nloc as usize)
                == s_call(scv, vars0, name@, cargs@, span, i as int, acc),
        decreases i,
    {
        let t = &c.tree[i - 1];
        proof {
            assert(c@.tree[i - 1] == t@);
        }
        let hit = child_lookup(&t.children, name, cargs.len());
        if let Some(id) = hit {
            proof {
                lemma_child_find_in(
                    children_view(t.children@),
                    name@,
                    cargs@.len() as usize,
                    t.children@.len() as int,
                    id,
                );
                assert(wf_children(c@.tree[i - 1].children, c@.defs.len() as int));
            }
            let fa = tr_args(sc, vars, cargs, errs);
            let res = subst(&c.defs[id], 0, SubKind::Inline, acc, &fa);
            return res;
        }
        if cargs.len() == 0 {
            match arg_position(&t.args, name) {
                Some(pos) => {
                    return Filter::Arg(pos);
                },
                None => {
                    if t.name.eq(name) && t.args.len() == 0 {
                        return Filter::Call { skip: 0, id: t.id };
                    }
                },
            }
        }
        let cnt = count_vars(&t.args);
        acc = add_sat(acc, cnt);
        i -= 1;
    }
    errs.push(Diag { span, kind: DiagKind::FunNotFound });
    proof {
        assert(errs@ =~= errs0 + s_call(
            scv,
            vars0,
            name@,
            cargs@,
            span,
            c@.tree.len() as int,
            nloc as usize,
        ).1);
    }
    Filter::Id
}

/// Translate the call arguments, in order.
#[verifier::loop_isolation(false)]
fn tr_args(sc: Scope, vars: &mut Vec<String>, es: &Vec<SpExpr>, errs: &mut Vec<Diag>) -> (r: Vec<
    Filter,
>)
    requires
        wf_scope(scope_view(sc)),
    ensures
        r@ == s_tr_args(scope_view(sc), old(vars)@, es@, es@.len() as int).0,
        final(errs)@ == old(errs)@ + s_tr_args(scope_view(sc), old(vars)@, es@, es@.len() as int).1,
        final(vars)@ == old(vars)@,
    decreases *es, 0int, 0int,
{
    let ghost scv = scope_view(sc);
    let ghost vars0 = vars@;
    let ghost errs0 = errs@;
    let mut out: Vec<Filter> = Vec::new();
    let mut i: usize = 0;
    while i < es.len()
        invariant
            i <= es@.len(),
            vars@ == vars0,
            out@ == s_tr_args(scv, vars0, es@, i as int).0,
            errs@ == errs0 + s_tr_args(scv, vars0, es@, i as int).1,
        decreases es@.len() - i,
    {
        let f = translate(sc, vars, &es[i], errs);
        out.push(f);
        proof {
            assert(out@ =~= s_tr_args(scv, vars0, es@, i + 1).0);
            assert(errs@ =~= errs0 + s_tr_args(scv, vars0, es@, i + 1).1);
        }
        i += 1;
    }
    out
}

/// Translate the object entries from index `i` on.
#[verifier::loop_isolation(false)]
fn tr_obj(sc: Scope, vars: &mut Vec<String>, kvs: &Vec<KeyVal>, i: usize, errs: &mut Vec<Diag>) -> (r: Pairs)
    requires
        wf_scope(scope_view(sc)),
        i <= kvs@.len(),
    ensures
        r == s_tr_obj(scope_view(sc), old(vars)@, kvs@, i as int).0,
        final(errs)@ == old(errs)@ + s_tr_obj(scope_view(sc), old(vars)@, kvs@, i as int).1,
        final(vars)@ == old(vars)@,
    decreases *kvs, 0int, kvs@.len() - i,
{
    let ghost scv = scope_view(sc);
    let ghost vars0 = vars@;
    let ghost errs0 = errs@;
    if i >= kvs.len() {
        proof {
            assert(errs@ =~= errs0 + s_tr_obj(scv, vars0, kvs@, i as int).1);
        }
        return Pairs::Nil;
    }
    let r: Pairs = match &kvs[i] {
        KeyVal::Filter(kx, vx) => {
            let kf = translate(sc, vars, kx, errs);
            let vf = translate(sc, vars, vx, errs);
            let rest = tr_obj(sc, vars, kvs, i + 1, errs);
            Pairs::Cons(Box::new(kf), Box::new(vf), Box::new(rest))
        },
        KeyVal::Str(k, ov) => match ov {
            None => {
                let rest = tr_obj(sc, vars, kvs, i + 1, errs);
                Pairs::Cons(
                    Box::new(Filter::Str(k.clone())),
                    Box::new(
                        Filter::Path(
                            Box::new(Filter::Id),
                            Parts::Cons(
                                Part::Index(Box::new(Filter::Str(k.clone()))),
                                false,
                                Box::new(Parts::Nil),
                            ),
                        ),
                    ),
                    Box::new(rest),
                )
            },
            Some(vx) => {
                let vf = translate(sc, vars, vx, errs);
                let rest = tr_obj(sc, vars, kvs, i + 1, errs);
                Pairs::Cons(Box::new(Filter::Str(k.clone())), Box::new(vf), Box::new(rest))
            },
        },
    };
    proof {
        assert(errs@ =~= errs0 + s_tr_obj(scv, vars0, kvs@, i as int).1);
    }
    r
}

/// Build the conditional from the (if, then) pairs, folded from the back
/// around the translated else branch.
#[verifier::loop_isolation(false)]
fn tr_ite(
    sc: Scope,
    vars: &mut Vec<String>,
    ps: &Vec<(SpExpr, SpExpr)>,
    els: Filter,
    errs: &mut Vec<Diag>,
) -> (r: Filter)
    requires
        wf_scope(scope_view(sc)),
    ensures
        r == s_ite_f(scope_view(sc), old(vars)@, ps@, els, 0),
        final(errs)@ == old(errs)@ + s_ite_d(scope_view(sc), old(vars)@, ps@, 0),
        final(vars)@ == old(vars)@,
    decreases *ps, 0int, 0int,
{
    let ghost scv = scope_view(sc);
    let ghost vars0 = vars@;
    let ghost errs0 = errs@;
    let ghost els0 = els;
    let mut acc = els;
    let mut j = ps.len();
    while j > 0
        invariant
            j <= ps@.len(),
            vars@ == vars0,
            acc == s_ite_f(scv, vars0, ps@, els0, j as int),
            errs@ == errs0 + s_ite_d(scv, vars0, ps@, j as int),
        decreases j,
    {
        let pr = &ps[j - 1];
        let cf = translate(sc, vars, &pr.0, errs);
        let tf = translate(sc, vars, &pr.1, errs);
        acc = Filter::Ite(Box::new(cf), Box::new(tf), Box::new(acc));
        proof {
            assert(errs@ =~= errs0 + s_ite_d(scv, vars0, ps@, j - 1));
        }
        j -= 1;
    }
    acc
}

/// Translate the path segments from index `i` on.
#[verifier::loop_isolation(false)]
fn tr_parts(
    sc: Scope,
    vars: &mut Vec<String>,
    ps: &Vec<(PathPart, bool)>,
    i: usize,
    errs: &mut Vec<Diag>,
) -> (r: Parts)
    requires
        wf_scope(scope_view(sc)),
        i <= ps@.len(),
    ensures
        r == s_tr_parts(scope_view(sc), old(vars)@, ps@, i as int).0,
        final(errs)@ == old(errs)@ + s_tr_parts(scope_view(sc), old(vars)@, ps@, i as int).1,
        final(vars)@ == old(vars)@,
    decreases *ps, 0int, ps@.len() - i,
{
    let ghost scv = scope_view(sc);
    let ghost vars0 = vars@;
    let ghost errs0 = errs@;
    if i >= ps.len() {
        proof {
            assert(errs@ =~= errs0 + s_tr_parts(scv, vars0, ps@, i as int).1);
        }
        return Parts::Nil;
    }
    let opt = ps[i].1;
    let r: Parts = match &ps[i].0 {
        PathPart::Index(e) => {
            let f = translate(sc, vars, e, errs);
            let rest = tr_parts(sc, vars, ps, i + 1, errs);
            Parts::Cons(Part::Index(Box::new(f)), opt, Box::new(rest))
        },
        PathPart::Range(lo, uo) => {
            let lf = match lo {
                Some(e) => Some(Box::new(translate(sc, vars, e, errs))),
                None => None,
            };
            let uf = match uo {
                Some(e) => Some(Box::new(translate(sc, vars, e, errs))),
                None => None,
            };
            let rest = tr_parts(sc, vars, ps, i + 1, errs);
            Parts::Cons(Part::Range(lf, uf), opt, Box::new(rest))
        },
    };
    proof {
        assert(errs@ =~= errs0 + s_tr_parts(scv, vars0, ps@, i as int).1);
    }
    r
}

/// The expression translator: compile one expression against the given
/// scope and local variable environment, appending diagnostics in order
/// of discovery and leaving the environment as it was.
#[verifier::loop_isolation(false)]
#[verifier::rlimit(100)]
pub fn translate(sc: Scope, vars: &mut Vec<String>, body: &SpExpr, errs: &mut Vec<Diag>) -> (r:
    Filter)
    requires
        wf_scope(scope_view(sc)),
    ensures
        r == s_tr(scope_view(sc), old(vars)@, *body).0,
        final(errs)@ == old(errs)@ + s_tr(scope_view(sc), old(vars)@, *body).1,
        final(vars)@ == old(vars)@,
    decreases *body, 0int, 0int,
{
    let ghost scv = scope_view(sc);
    let ghost vars0 = vars@;
    let ghost errs0 = errs@;
    let r: Filter = match &body.expr {
        Expr::Id => Filter::Id,
        Expr::Recurse => Filter::Recurse,
        Expr::Num(n, fb) => num_filter(n, *fb, body.span, errs),
        Expr::Str(s) => Filter::Str(s.clone()),
        Expr::Var(v) => {
            let found = match sc {
                Scope::Host(_, _) => find_rev(vars, v),
                Scope::Module(c) => {
                    let env = scope_env(c, vars);
                    find_rev(&env, v)
                },
            };
            match found {
                Some(k) => Filter::Var(k),
                None => {
                    errs.push(Diag { span: body.span, kind: DiagKind::UndefVar });
                    Filter::Var(0)
                },
            }
        },
        Expr::Call(name, cargs) => match sc {
            Scope::Host(fns, hargs) => {
                let hit = if cargs.len() == 0 {
                    rfind_string(hargs, name)
                } else {
                    None
                };
                match hit {
                    Some(pos) => if vars.len() == 0 {
                        Filter::Arg(pos)
                    } else {
                        Filter::SkipCtx(vars.len(), Box::new(Filter::Arg(pos)))
                    },
                    None => {
                        let fo = fns.lookup(name, cargs.len());
                        if fo.is_none() {
                            errs.push(Diag { span: body.span, kind: DiagKind::FunNotFound });
                        }
                        let fa = tr_args(sc, vars, cargs, errs);
                        match fo {
                            Some(fun) => subst(fun, 0, SubKind::Fill, 0, &fa),
                            None => Filter::Id,
                        }
                    },
                }
            },
            Scope::Module(c) => resolve_call(c, sc, vars, name, cargs, body.span, errs),
        },
        Expr::Neg(x) => Filter::Neg(Box::new(translate(sc, vars, x, errs))),
        Expr::Try(x) => Filter::Try(Box::new(translate(sc, vars, x, errs))),
        Expr::Array(o) => match o {
            None => Filter::Array(None),
            Some(x) => Filter::Array(Some(Box::new(translate(sc, vars, x, errs)))),
        },
        Expr::Object(kvs) => Filter::Object(tr_obj(sc, vars, kvs, 0, errs)),
        Expr::Binary(l, op, r) => match op {
            BinaryOp::Pipe(ox) => match ox {
                None => {
                    let lf = translate(sc, vars, l, errs);
                    let rf = translate(sc, vars, r, errs);
                    Filter::Pipe(Box::new(lf), false, Box::new(rf))
                },
                Some(x) => {
                    let lf = translate(sc, vars, l, errs);
                    vars.push(x.clone());
                    let rf = translate(sc, vars, r, errs);
                    let _popped = vars.pop();
                    proof {
                        assert(vars@ =~= vars0);
                    }
                    Filter::Pipe(Box::new(lf), true, Box::new(rf))
                },
            },
            BinaryOp::Comma => {
                let lf = translate(sc, vars, l, errs);
                let rf = translate(sc, vars, r, errs);
                Filter::Comma(Box::new(lf), Box::new(rf))
            },
            BinaryOp::Alt => {
                let lf = translate(sc, vars, l, errs);
                let rf = translate(sc, vars, r, errs);
                Filter::Alt(Box::new(lf), Box::new(rf))
            },
            BinaryOp::Or => {
                let lf = translate(sc, vars, l, errs);
                let rf = translate(sc, vars, r, errs);
                Filter::Logic(Box::new(lf), true, Box::new(rf))
            },
            BinaryOp::And => {
                let lf = translate(sc, vars, l, errs);
                let rf = translate(sc, vars, r, errs);
                Filter::Logic(Box::new(lf), false, Box::new(rf))
            },
            BinaryOp::Math(m) => {
                let lf = translate(sc, vars, l, errs);
                let rf = translate(sc, vars, r, errs);
                Filter::Math(Box::new(lf), *m, Box::new(rf))
            },
            BinaryOp::Ord(m) => {
                let lf = translate(sc, vars, l, errs);
                let rf = translate(sc, vars, r, errs);
                Filter::Ord(Box::new(lf), *m, Box::new(rf))
            },
            BinaryOp::Assign(aop) => {
                let lf = translate(sc, vars, l, errs);
                let rf = translate(sc, vars, r, errs);
                match aop {
                    AssignOp::Assign => Filter::Assign(Box::new(lf), Box::new(rf)),
                    AssignOp::Update => Filter::Update(Box::new(lf), Box::new(rf)),
                    AssignOp::UpdateWith(m) => Filter::UpdateMath(Box::new(lf), *m, Box::new(rf)),
                }
            },
        },
        Expr::Fold(ty, xs, x, init, f) => {
            let xf = translate(sc, vars, xs, errs);
            let inf = translate(sc, vars, init, errs);
            vars.push(x.clone());
            let ff = translate(sc, vars, f, errs);
            let _popped = vars.pop();
            proof {
                assert(vars@ =~= vars0);
            }
            Filter::Fold(*ty, Box::new(xf), Box::new(inf), Box::new(ff))
        },
        Expr::Ite(pairs, els) => {
            let ef = translate(sc, vars, els, errs);
            tr_ite(sc, vars, pairs, ef, errs)
        },
        Expr::Path(base, parts) => {
            let bf = translate(sc, vars, base, errs);
            let pf = tr_parts(sc, vars, parts, 0, errs);
            Filter::Path(Box::new(bf), pf)
        },
    };
    proof {
        assert(errs@ =~= errs0 + s_tr(scv, vars0, *body).1);
    }
    r
}

/// The body of a definition, wrapped in one binding pipe per variable
/// parameter from index `i` on: the leftmost variable parameter ends up
/// outermost, so that de Bruijn index 0 names the rightmost one.
pub open spec fn wrap_body(args: Seq<Arg>, i: int, f: Filter) -> Filter
    decreases args.len() - i,
{
    if i < 0 || i >= args.len() {
        f
    } else {
        let inner = wrap_body(args, i + 1, f);
        if args[i].spec_is_var() {
            Filter::Pipe(Box::new(Filter::Arg(i as usize)), true, Box::new(inner))
        } else {
            inner
        }
    }
}

/// Wrap a compiled body in the binders of its variable parameters.
pub(crate) fn wrap_filter(args: &Vec<Arg>, f: Filter) -> (r: Filter)
    ensures
        r == wrap_body(args@, 0, f),
{
    let ghost f0 = f;
    let mut acc = f;
    let mut j = args.len();
    while j > 0
        invariant
            j <= args@.len(),
            acc == wrap_body(args@, j as int, f0),
        decreases j,
    {
        if args[j - 1].is_var() {
            acc = Filter::Pipe(Box::new(Filter::Arg(j - 1)), true, Box::new(acc));
        }
        j -= 1;
    }
    acc
}

/// Compile a single expression against externally supplied built-ins,
/// parameter names, and pre-bound variables.  The result is exactly the
/// translation `s_tr` describes; the diagnostics are appended in order,
/// and the variable environment is left as it was.
pub fn filter(
    fns: &Builtins,
    args: &Vec<String>,
    vars: &mut Vec<String>,
    body: &SpExpr,
    errs: &mut Vec<Diag>,
) -> (r: Filter)
    ensures
        r == s_tr(ScopeV::Host(*fns, args@), old(vars)@, *body).0,
        final(errs)@ == old(errs)@ + s_tr(ScopeV::Host(*fns, args@), old(vars)@, *body).1,
        final(vars)@ == old(vars)@,
{
    translate(Scope::Host(fns, args), vars, body, errs)
}

/// The compilation of a single definition body: the body is translated
/// with all parameter names callable, the variable parameters pre-bound,
/// and the result wrapped in their binders.
pub open spec fn s_def(fns: Builtins, args: Seq<Arg>, body: SpExpr) -> (Filter, Seq<Diag>) {
    let names = Seq::new(args.len(), |i: int| arg_string(args[i]));
    let out = s_tr(ScopeV::Host(fns, names), var_names(args, args.len() as int), body);
    (wrap_body(args, 0, out.0), out.1)
}

/// Compile a single definition body against externally supplied
/// built-ins and formal parameters.
pub fn def(fns: &Builtins, args: &Vec<Arg>, body: &SpExpr, errs: &mut Vec<Diag>) -> (r: Filter)
    ensures
        r == s_def(*fns, args@, *body).0,
        final(errs)@ == old(errs)@ + s_def(*fns, args@, *body).1,
{
    let mut names: Vec<String> = Vec::new();
    let mut vars: Vec<String> = Vec::new();
    let mut i: usize = 0;
    while i < args.len()
        invariant
            i <= args@.len(),
            names@.len() == i,
            forall|j: int| 0 <= j < i ==> names@[j] == arg_string(args@[j]),
            vars@ == var_names(args@, i as int),
        decreases args@.len() - i,
    {
        let a = &args[i];
        if a.is_var() {
            vars.push(a.name().clone());
            proof {
                assert(vars@ =~= var_names(args@, i + 1));
            }
        }
        names.push(a.name().clone());
        i += 1;
    }
    proof {
        assert(names@ =~= Seq::new(args@.len(), |j: int| arg_string(args@[j])));
    }
    let f = translate(Scope::Host(fns, &names), &mut vars, body, errs);
    wrap_filter(args, f)
}

} // verus!
