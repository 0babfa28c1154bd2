//! Laws of the translation, stated and proved over the same
//! specification functions the compilers' contracts use.
use vstd::prelude::*;
use crate::ast::{BinaryOp, Expr, Span, SpExpr};
use crate::ir::Filter;
use crate::lower::{env_names, lemma_resolved_var_in_range, rev_find, s_ite_f, s_tr, ScopeV};

verus! {

/// Translating the identity expression yields the identity filter,
/// in any scope and environment.
pub proof fn law_identity(sc: ScopeV, vars: Seq<String>, span: Span)
    ensures
        s_tr(sc, vars, SpExpr { expr: Expr::Id, span }).0 == Filter::Id,
{
}

/// Translating a variable whose name is the innermost binding of the
/// environment yields de Bruijn index 0, with no diagnostic.
pub proof fn law_var_innermost(sc: ScopeV, vars: Seq<String>, x: String, span: Span)
    requires
        env_names(sc, vars).len() > 0,
        env_names(sc, vars).last()@ == x@,
    ensures
        s_tr(sc, vars, SpExpr { expr: Expr::Var(x), span }) == (
            Filter::Var(0),
            Seq::<crate::diag::Diag>::empty(),
        ),
{
    let names = env_names(sc, vars);
    assert(rev_find(names, x@, names.len() as int) == Some(0usize));
}

/// Translating a pipe without a binder yields a non-binding `Pipe` of
/// the two translations.
pub proof fn law_pipe_no_binder(sc: ScopeV, vars: Seq<String>, l: SpExpr, r: SpExpr, span: Span)
    ensures
        s_tr(
            sc,
            vars,
            SpExpr {
                expr: Expr::Binary(Box::new(l), BinaryOp::Pipe(None), Box::new(r)),
                span,
            },
        ).0 == Filter::Pipe(
            Box::new(s_tr(sc, vars, l).0),
            false,
            Box::new(s_tr(sc, vars, r).0),
        ),
{
}

/// Translating a pipe with a binder yields a binding `Pipe` whose right
/// side is translated with the binder pushed onto the environment.
pub proof fn law_pipe_binder(
    sc: ScopeV,
    vars: Seq<String>,
    l: SpExpr,
    x: String,
    r: SpExpr,
    span: Span,
)
    ensures
        s_tr(
            sc,
            vars,
            SpExpr {
                expr: Expr::Binary(Box::new(l), BinaryOp::Pipe(Some(x)), Box::new(r)),
                span,
            },
        ).0 == Filter::Pipe(
            Box::new(s_tr(sc, vars, l).0),
            true,
            Box::new(s_tr(sc, vars.push(x), r).0),
        ),
{
}

/// Translating a two-branch conditional folds the (if, then) pairs from
/// the back over the translated else branch.
pub proof fn law_ite_chain(
    sc: ScopeV,
    vars: Seq<String>,
    ite: SpExpr,
    ps: Vec<(SpExpr, SpExpr)>,
    els: Box<SpExpr>,
)
    requires
        ite.expr == Expr::Ite(ps, els),
        ps@.len() == 2,
    ensures
        s_tr(sc, vars, ite).0 == Filter::Ite(
            Box::new(s_tr(sc, vars, ps@[0].0).0),
            Box::new(s_tr(sc, vars, ps@[0].1).0),
            Box::new(
                Filter::Ite(
                    Box::new(s_tr(sc, vars, ps@[1].0).0),
                    Box::new(s_tr(sc, vars, ps@[1].1).0),
                    Box::new(s_tr(sc, vars, *els).0),
                ),
            ),
        ),
{
    let eo = s_tr(sc, vars, *els);
    assert(s_ite_f(sc, vars, ps@, eo.0, 2) == eo.0);
    assert(s_ite_f(sc, vars, ps@, eo.0, 1) == Filter::Ite(
        Box::new(s_tr(sc, vars, ps@[1].0).0),
        Box::new(s_tr(sc, vars, ps@[1].1).0),
        Box::new(eo.0),
    ));
    assert(s_ite_f(sc, vars, ps@, eo.0, 0) == Filter::Ite(
        Box::new(s_tr(sc, vars, ps@[0].0).0),
        Box::new(s_tr(sc, vars, ps@[0].1).0),
        Box::new(s_ite_f(sc, vars, ps@, eo.0, 1)),
    ));
    assert(s_tr(sc, vars, ite).0 == s_ite_f(sc, vars, ps@, eo.0, 0));
}

/// A variable reference that resolves without a diagnostic is emitted
/// as an index inside the environment: no free variable escapes the
/// translation of a resolvable reference.
pub proof fn law_var_index_in_range(sc: ScopeV, vars: Seq<String>, x: String, span: Span)
    requires
        s_tr(sc, vars, SpExpr { expr: Expr::Var(x), span }).1.len() == 0,
    ensures
        s_tr(sc, vars, SpExpr { expr: Expr::Var(x), span }).0 matches Filter::Var(k)
            && k < env_names(sc, vars).len(),
{
    let names = env_names(sc, vars);
    match rev_find(names, x@, names.len() as int) {
        Some(k) => {
            lemma_resolved_var_in_range(names, x@, names.len() as int, k);
        },
        None => {},
    }
}

} // verus!
