//! The definition compiler: walk the nested definitions of a module
//! depth-first, reserve one table slot per definition before its body is
//! translated (so self-reference can point at it), and register each
//! closed definition with its parent so later siblings and their
//! descendants can inline it.
use vstd::prelude::*;
use crate::ast::{def_count, defs_count, Arg, Def, Main};
use crate::diag::Diag;
use crate::ir::Filter;
use crate::lower::{
    s_tr, translate, wf_children, wf_ctx, wrap_body, wrap_filter, Ctx, CtxV, Parent, ParentV,
    Scope, ScopeV,
};

verus! {

/// Reserve a table slot and push a fresh scope frame.
pub open spec fn s_open(c: CtxV, name: Seq<char>, args: Seq<Arg>) -> CtxV {
    CtxV {
        tree: c.tree.push(
            ParentV { name, args, id: c.defs.len() as usize, children: Seq::empty() },
        ),
        defs: c.defs.push(Filter::Id),
    }
}

/// Pop the innermost frame, wrap the compiled body in the binders of its
/// variable parameters, store it in the reserved slot, and register the
/// definition with its parent; a sibling of the same name and arity is
/// overwritten (the last definition wins).
pub open spec fn s_close(c: CtxV, body: Filter) -> CtxV {
    let node = c.tree.last();
    let wrapped = wrap_body(node.args, 0, body);
    let defs2 = c.defs.update(node.id as int, wrapped);
    let pi = c.tree.len() - 2;
    let par = c.tree[pi];
    let par2 = ParentV {
        children: par.children.push((node.name, node.args.len() as usize, node.id)),
        ..par
    };
    CtxV { tree: c.tree.drop_last().update(pi, par2), defs: defs2 }
}

/// Compile one definition: open a frame, compile the nested definitions
/// first, translate the body with no local binders, and close.
pub open spec fn s_ctx_def(c: CtxV, d: Def) -> (CtxV, Seq<Diag>)
    decreases d, 0int, 0int,
{
    let c1 = s_open(c, d.name@, d.args@);
    let o = s_ctx_defs(c1, d.defs@, d.defs@.len() as int);
    let t = s_tr(ScopeV::Module(o.0), Seq::empty(), d.body);
    (s_close(o.0, t.0), o.1 + t.1)
}

/// Compile the first `i` definitions of a list, in order.
pub open spec fn s_ctx_defs(c: CtxV, ds: Seq<Def>, i: int) -> (CtxV, Seq<Diag>)
    decreases ds, 0int, i,
{
    if i <= 0 || i > ds.len() {
        (c, Seq::<Diag>::empty())
    } else {
        let p = s_ctx_defs(c, ds, i - 1);
        let o = s_ctx_def(p.0, ds[i - 1]);
        (o.0, p.1 + o.1)
    }
}

/// Compile a whole module: the definitions into a flat table, and the
/// body into a top-level filter, under a root frame that holds the
/// compiled top-level definitions as its children.
pub open spec fn s_module(m: Main) -> (Seq<Filter>, Filter, Seq<Diag>) {
    let root = ParentV {
        name: Seq::empty(),
        args: Seq::empty(),
        id: 0,
        children: Seq::empty(),
    };
    let c0 = CtxV { tree: seq![root], defs: Seq::empty() };
    let o = s_ctx_defs(c0, m.defs@, m.defs@.len() as int);
    let t = s_tr(ScopeV::Module(o.0), Seq::empty(), m.body);
    (o.0.defs, t.0, o.1 + t.1)
}

/// Opening a frame preserves the compiler's invariant.
proof fn lemma_open_wf(c: CtxV, name: Seq<char>, args: Seq<Arg>)
    requires
        wf_ctx(c),
    ensures
        wf_ctx(s_open(c, name, args)),
        s_open(c, name, args).tree.len() == c.tree.len() + 1,
        s_open(c, name, args).defs.len() == c.defs.len() + 1,
{
    let c1 = s_open(c, name, args);
    assert forall|j: int|
        0 <= j < c1.tree.len() implies wf_children(
        (#[trigger] c1.tree[j]).children,
        c1.defs.len() as int,
    ) by {
        if j < c.tree.len() {
            assert(c1.tree[j] == c.tree[j]);
            assert(wf_children(c.tree[j].children, c.defs.len() as int));
        }
    }
}

/// Closing a frame preserves the compiler's invariant.
proof fn lemma_close_wf(c: CtxV, body: Filter)
    requires
        wf_ctx(c),
        c.tree.len() >= 2,
    ensures
        wf_ctx(s_close(c, body)),
        s_close(c, body).tree.len() == c.tree.len() - 1,
        s_close(c, body).defs.len() == c.defs.len(),
{
    let c3 = s_close(c, body);
    let node = c.tree.last();
    assert(node.id < c.defs.len());
    let pi = c.tree.len() - 2;
    assert forall|j: int|
        0 <= j < c3.tree.len() implies wf_children(
        (#[trigger] c3.tree[j]).children,
        c3.defs.len() as int,
    ) by {
        if j != pi {
            assert(c3.tree[j] == c.tree[j]);
            assert(wf_children(c.tree[j].children, c.defs.len() as int));
        } else {
            let ch2 = c3.tree[pi].children;
            let ch = c.tree[pi].children;
            assert(wf_children(ch, c.defs.len() as int));
            assert forall|k: int| 0 <= k < ch2.len() implies (#[trigger] ch2[k]).2
                < c3.defs.len() as int by {
                if k < ch.len() {
                    assert(ch2[k] == ch[k]);
                }
            }
        }
    }
    assert forall|j: int| 1 <= j < c3.tree.len() implies (#[trigger] c3.tree[j]).id
        < c3.defs.len() by {
        if j != pi {
            assert(c3.tree[j] == c.tree[j]);
        } else {
            assert(c3.tree[pi].id == c.tree[pi].id);
        }
    }
}

/// Compiling one definition preserves the invariant, keeps the stack
/// depth, and grows the table by exactly the number of definitions it
/// contains, itself included.
pub proof fn lemma_ctx_def_props(c: CtxV, d: Def)
    requires
        wf_ctx(c),
        c.tree.len() >= 1,
    ensures
        wf_ctx(s_ctx_def(c, d).0),
        s_ctx_def(c, d).0.tree.len() == c.tree.len(),
        s_ctx_def(c, d).0.defs.len() == c.defs.len() + def_count(d),
    decreases d, 0int, 0int,
{
    lemma_open_wf(c, d.name@, d.args@);
    let c1 = s_open(c, d.name@, d.args@);
    lemma_ctx_defs_props(c1, d.defs@, d.defs@.len() as int);
    let o = s_ctx_defs(c1, d.defs@, d.defs@.len() as int);
    let t = s_tr(ScopeV::Module(o.0), Seq::empty(), d.body);
    lemma_close_wf(o.0, t.0);
}

/// Compiling a list of definitions, likewise.
pub proof fn lemma_ctx_defs_props(c: CtxV, ds: Seq<Def>, i: int)
    requires
        wf_ctx(c),
        c.tree.len() >= 1,
        i <= ds.len(),
    ensures
        wf_ctx(s_ctx_defs(c, ds, i).0),
        s_ctx_defs(c, ds, i).0.tree.len() == c.tree.len(),
        s_ctx_defs(c, ds, i).0.defs.len() == c.defs.len() + defs_count(ds, i),
    decreases ds, 0int, i,
{
    if 0 < i && i <= ds.len() {
        lemma_ctx_defs_props(c, ds, i - 1);
        lemma_ctx_def_props(s_ctx_defs(c, ds, i - 1).0, ds[i - 1]);
    }
}

/// Compiling a definition writes only the slots it reserves: every slot
/// that existed before is unchanged, and every existing frame keeps its
/// name, parameters and reserved slot (only children tables grow).  The
/// bound keeps the reserved slot numbers faithful.
pub proof fn lemma_ctx_def_preserves(c: CtxV, d: Def)
    requires
        wf_ctx(c),
        c.tree.len() >= 1,
        c.defs.len() + def_count(d) <= usize::MAX,
    ensures
        forall|j: int| 0 <= j < c.defs.len() ==> s_ctx_def(c, d).0.defs[j] == c.defs[j],
        forall|j: int|
            0 <= j < c.tree.len() ==> (#[trigger] s_ctx_def(c, d).0.tree[j]).id == c.tree[j].id,
        forall|j: int|
            0 <= j < c.tree.len() ==> (#[trigger] s_ctx_def(c, d).0.tree[j]).args
                == c.tree[j].args,
        forall|j: int|
            0 <= j < c.tree.len() ==> (#[trigger] s_ctx_def(c, d).0.tree[j]).name
                == c.tree[j].name,
    decreases d, 0int, 0int,
{
    lemma_open_wf(c, d.name@, d.args@);
    let c1 = s_open(c, d.name@, d.args@);
    lemma_ctx_defs_props(c1, d.defs@, d.defs@.len() as int);
    lemma_ctx_defs_preserves(c1, d.defs@, d.defs@.len() as int);
    let fresh = ParentV {
        name: d.name@,
        args: d.args@,
        id: c.defs.len() as usize,
        children: Seq::empty(),
    };
    assert(c1.tree == c.tree.push(fresh));
    assert(c1.tree[c.tree.len() as int] == fresh);
    assert(s_ctx_defs(c1, d.defs@, d.defs@.len() as int).0.tree[c.tree.len() as int].id
        == c1.tree[c.tree.len() as int].id);
    assert(s_ctx_defs(c1, d.defs@, d.defs@.len() as int).0.tree.last().id == c.defs.len());
    assert forall|j: int| 0 <= j < c.defs.len() implies s_ctx_def(c, d).0.defs[j]
        == c.defs[j] by {
        assert(s_ctx_defs(c1, d.defs@, d.defs@.len() as int).0.defs[j] == c1.defs[j]);
        assert(c1.defs[j] == c.defs[j]);
    }
    assert forall|j: int| 0 <= j < c.tree.len() implies (#[trigger] s_ctx_def(c, d).0.tree[j]).id
        == c.tree[j].id && s_ctx_def(c, d).0.tree[j].args == c.tree[j].args && s_ctx_def(
        c,
        d,
    ).0.tree[j].name == c.tree[j].name by {
        assert(s_ctx_defs(c1, d.defs@, d.defs@.len() as int).0.tree[j].id == c1.tree[j].id);
        assert(s_ctx_defs(c1, d.defs@, d.defs@.len() as int).0.tree[j].args == c1.tree[j].args);
        assert(s_ctx_defs(c1, d.defs@, d.defs@.len() as int).0.tree[j].name == c1.tree[j].name);
        assert(c1.tree[j] == c.tree[j]);
    }
}

/// Compiling a list of definitions, likewise.
pub proof fn lemma_ctx_defs_preserves(c: CtxV, ds: Seq<Def>, i: int)
    requires
        wf_ctx(c),
        c.tree.len() >= 1,
        i <= ds.len(),
        c.defs.len() + defs_count(ds, i) <= usize::MAX,
    ensures
        forall|j: int| 0 <= j < c.defs.len() ==> s_ctx_defs(c, ds, i).0.defs[j] == c.defs[j],
        forall|j: int|
            0 <= j < c.tree.len() ==> (#[trigger] s_ctx_defs(c, ds, i).0.tree[j]).id
                == c.tree[j].id,
        forall|j: int|
            0 <= j < c.tree.len() ==> (#[trigger] s_ctx_defs(c, ds, i).0.tree[j]).args
                == c.tree[j].args,
        forall|j: int|
            0 <= j < c.tree.len() ==> (#[trigger] s_ctx_defs(c, ds, i).0.tree[j]).name
                == c.tree[j].name,
    decreases ds, 0int, i,
{
    if 0 < i && i <= ds.len() {
        lemma_ctx_defs_props(c, ds, i - 1);
        lemma_ctx_defs_preserves(c, ds, i - 1);
        lemma_ctx_def_preserves(s_ctx_defs(c, ds, i - 1).0, ds[i - 1]);
        assert forall|j: int|
            0 <= j < c.tree.len() implies (#[trigger] s_ctx_defs(c, ds, i).0.tree[j]).id
            == c.tree[j].id && s_ctx_defs(c, ds, i).0.tree[j].args == c.tree[j].args
            && s_ctx_defs(c, ds, i).0.tree[j].name == c.tree[j].name by {
            assert(s_ctx_def(s_ctx_defs(c, ds, i - 1).0, ds[i - 1]).0.tree[j].id == s_ctx_defs(
                c,
                ds,
                i - 1,
            ).0.tree[j].id);
            assert(s_ctx_def(s_ctx_defs(c, ds, i - 1).0, ds[i - 1]).0.tree[j].args == s_ctx_defs(
                c,
                ds,
                i - 1,
            ).0.tree[j].args);
            assert(s_ctx_def(s_ctx_defs(c, ds, i - 1).0, ds[i - 1]).0.tree[j].name == s_ctx_defs(
                c,
                ds,
                i - 1,
            ).0.tree[j].name);
            assert(s_ctx_defs(c, ds, i - 1).0.tree[j].id == c.tree[j].id);
            assert(s_ctx_defs(c, ds, i - 1).0.tree[j].args == c.tree[j].args);
            assert(s_ctx_defs(c, ds, i - 1).0.tree[j].name == c.tree[j].name);
        }
    }
}

/// The compiled table holds exactly one slot per definition of the
/// module, top-level and nested ones alike.
pub proof fn lemma_table_size(m: Main)
    ensures
        s_module(m).0.len() == defs_count(m.defs@, m.defs@.len() as int),
{
    let root = ParentV {
        name: Seq::empty(),
        args: Seq::empty(),
        id: 0,
        children: Seq::empty(),
    };
    let c0 = CtxV { tree: seq![root], defs: Seq::empty() };
    assert(wf_ctx(c0));
    lemma_ctx_defs_props(c0, m.defs@, m.defs@.len() as int);
}

/// Duplicate a parameter list.
fn dup_args(v: &Vec<Arg>) -> (r: Vec<Arg>)
    ensures
        r@ == v@,
{
    let mut out: Vec<Arg> = Vec::new();
    let mut i: usize = 0;
    while i < v.len()
        invariant
            i <= v@.len(),
            out@.len() == i,
            forall|j: int| 0 <= j < i ==> out@[j] == v@[j],
        decreases v@.len() - i,
    {
        let a = match &v[i] {
            Arg::Var(s) => Arg::Var(s.clone()),
            Arg::Fun(s) => Arg::Fun(s.clone()),
        };
        out.push(a);
        i += 1;
    }
    proof {
        assert(out@ =~= v@);
    }
    out
}

/// Pop the innermost frame, store the wrapped body, and register the
/// definition with its parent.
fn ctx_close(ctx: Ctx, body: Filter) -> (r: Ctx)
    requires
        ctx@.tree.len() >= 2,
        ctx@.tree.last().id < ctx@.defs.len(),
    ensures
        r@ == s_close(ctx@, body),
{
    let ghost c0 = ctx@;
    let mut cur = ctx;
    let n = cur.tree.len();
    let node = cur.tree.remove(n - 1);
    proof {
        assert(node@ == c0.tree.last());
    }
    let wrapped = wrap_filter(&node.args, body);
    let slot = node.id;
    cur.defs[slot] = wrapped;
    let m2 = cur.tree.len();
    let mut par = cur.tree.remove(m2 - 1);
    let arity = node.args.len();
    par.children.push((node.name, arity, node.id));
    cur.tree.push(par);
    proof {
        let target = s_close(c0, body);
        assert(cur@.defs =~= target.defs);
        assert(cur@.tree.len() == target.tree.len());
        assert forall|j: int| 0 <= j < cur@.tree.len() implies cur@.tree[j] =~= target.tree[j] by {
            if j < cur@.tree.len() - 1 {
                assert(cur@.tree[j] == c0.tree[j]);
            } else {
                assert(cur@.tree[j].children =~= target.tree[j].children);
            }
        }
        assert(cur@.tree =~= target.tree);
        assert(cur@ =~= target);
    }
    cur
}

/// Compile one definition into the table.
#[verifier::loop_isolation(false)]
pub fn ctx_def(ctx: Ctx, d: &Def, errs: &mut Vec<Diag>) -> (r: Ctx)
    requires
        wf_ctx(ctx@),
        ctx@.tree.len() >= 1,
    ensures
        r@ == s_ctx_def(ctx@, *d).0,
        final(errs)@ == old(errs)@ + s_ctx_def(ctx@, *d).1,
    decreases *d, 0int, 0int,
{
    let ghost c0 = ctx@;
    let ghost errs0 = errs@;
    let mut cur = ctx;
    let id = cur.defs.len();
    cur.tree.push(
        Parent { name: d.name.clone(), args: dup_args(&d.args), id, children: Vec::new() },
    );
    cur.defs.push(Filter::Id);
    proof {
        let c1 = s_open(c0, d.name@, d.args@);
        assert(cur@.tree.len() == c1.tree.len());
        assert forall|j: int| 0 <= j < cur@.tree.len() implies cur@.tree[j] =~= c1.tree[j] by {
            if j < cur@.tree.len() - 1 {
                assert(cur@.tree[j] == c0.tree[j]);
            } else {
                assert(cur@.tree[j].children =~= c1.tree[j].children);
            }
        }
        assert(cur@.tree =~= c1.tree);
        assert(cur@ =~= c1);
        lemma_open_wf(c0, d.name@, d.args@);
    }
    let ghost c1 = cur@;
    let mut k: usize = 0;
    while k < d.defs.len()
        invariant
            k <= d.defs@.len(),
            cur@ == s_ctx_defs(c1, d.defs@, k as int).0,
            errs@ == errs0 + s_ctx_defs(c1, d.defs@, k as int).1,
            wf_ctx(cur@),
            cur@.tree.len() == c1.tree.len(),
        decreases d.defs@.len() - k,
    {
        cur = ctx_def(cur, &d.defs[k], errs);
        proof {
            lemma_ctx_defs_props(c1, d.defs@, k as int);
            lemma_ctx_def_props(s_ctx_defs(c1, d.defs@, k as int).0, d.defs@[k as int]);
            assert(errs@ =~= errs0 + s_ctx_defs(c1, d.defs@, k + 1).1);
        }
        k += 1;
    }
    let mut vars0: Vec<String> = Vec::new();
    let b = translate(Scope::Module(&cur), &mut vars0, &d.body, errs);
    let cur2 = ctx_close(cur, b);
    proof {
        assert(errs@ =~= errs0 + s_ctx_def(c0, *d).1);
    }
    cur2
}

/// Compile a whole module: one table slot per definition, and the body
/// as the top-level filter.  The table and top filter are exactly what
/// `s_module` describes; diagnostics are appended in order.
#[verifier::loop_isolation(false)]
pub fn compile_module(m: &Main, errs: &mut Vec<Diag>) -> (r: (Vec<Filter>, Filter))
    ensures
        r.0@ == s_module(*m).0,
        r.1 == s_module(*m).1,
        final(errs)@ == old(errs)@ + s_module(*m).2,
{
    let ghost errs0 = errs@;
    let mut cur = Ctx { tree: Vec::new(), defs: Vec::new() };
    cur.tree.push(
        Parent { name: String::new(), args: Vec::new(), id: 0, children: Vec::new() },
    );
    let ghost root = ParentV {
        name: Seq::<char>::empty(),
        args: Seq::<Arg>::empty(),
        id: 0,
        children: Seq::<(Seq<char>, usize, usize)>::empty(),
    };
    let ghost c0 = CtxV { tree: seq![root], defs: Seq::<Filter>::empty() };
    proof {
        assert(cur@.tree.len() == 1);
        assert(cur@.tree[0] =~= root);
        assert(cur@.tree =~= c0.tree);
        assert(cur@ =~= c0);
        assert(wf_ctx(c0));
    }
    let mut k: usize = 0;
    while k < m.defs.len()
        invariant
            k <= m.defs@.len(),
            cur@ == s_ctx_defs(c0, m.defs@, k as int).0,
            errs@ == errs0 + s_ctx_defs(c0, m.defs@, k as int).1,
            wf_ctx(cur@),
            cur@.tree.len() == 1,
        decreases m.defs@.len() - k,
    {
        cur = ctx_def(cur, &m.defs[k], errs);
        proof {
            lemma_ctx_defs_props(c0, m.defs@, k as int);
            lemma_ctx_def_props(s_ctx_defs(c0, m.defs@, k as int).0, m.defs@[k as int]);
            assert(errs@ =~= errs0 + s_ctx_defs(c0, m.defs@, k + 1).1);
        }
        k += 1;
    }
    let mut vars0: Vec<String> = Vec::new();
    let top = translate(Scope::Module(&cur), &mut vars0, &m.body, errs);
    proof {
        assert(errs@ =~= errs0 + s_module(*m).2);
    }
    (cur.defs, top)
}

} // verus!
