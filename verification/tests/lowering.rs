use jaq_lower::ast::{Arg, AssignOp, BinaryOp, Expr, KeyVal, MathOp, Span, SpExpr};
use jaq_lower::compile::compile_module;
use jaq_lower::ast::{Def, FoldType, Main};
use jaq_lower::diag::{Diag, DiagKind};
use jaq_lower::ir::{Filter, Pairs, Part, Parts};
use jaq_lower::lower::{def, filter, Builtins};
use jaq_lower::subst::{subst, SubKind};
use jaq_lower::ast::{OrdOp, PathPart};

fn span() -> Span {
    Span { start: 0, end: 0 }
}

fn sp(e: Expr) -> SpExpr {
    SpExpr { expr: e, span: span() }
}

fn bx(e: Expr) -> Box<SpExpr> {
    Box::new(sp(e))
}

fn num(s: &str) -> Expr {
    Expr::Num(s.to_string(), None)
}

fn fnum(s: &str, v: f64) -> Expr {
    Expr::Num(s.to_string(), Some(v.to_bits()))
}

fn bad_fnum(s: &str) -> Expr {
    Expr::Num(s.to_string(), None)
}

fn b(f: Filter) -> Box<Filter> {
    Box::new(f)
}

fn no_builtins() -> Builtins {
    Builtins { entries: Vec::new() }
}

fn run_filter(fns: &Builtins, args: Vec<&str>, vars: Vec<&str>, body: Expr) -> (Filter, Vec<Diag>) {
    let args: Vec<String> = args.into_iter().map(|s| s.to_string()).collect();
    let mut vars: Vec<String> = vars.into_iter().map(|s| s.to_string()).collect();
    let mut errs: Vec<Diag> = Vec::new();
    let f = filter(fns, &args, &mut vars, &sp(body), &mut errs);
    (f, errs)
}

fn run_module(defs: Vec<Def>, body: Expr) -> (Vec<Filter>, Filter, Vec<Diag>) {
    let m = Main { defs, body: sp(body) };
    let mut errs: Vec<Diag> = Vec::new();
    let (table, top) = compile_module(&m, &mut errs);
    (table, top, errs)
}

fn mk_def(name: &str, args: Vec<Arg>, defs: Vec<Def>, body: Expr) -> Def {
    Def { name: name.to_string(), args, defs, body: sp(body) }
}

#[test]
fn identity_becomes_id() {
    let (f, errs) = run_filter(&no_builtins(), vec![], vec![], Expr::Id);
    assert_eq!(f, Filter::Id);
    assert!(errs.is_empty());
}

#[test]
fn var_bound_innermost_is_index_zero() {
    let (f, errs) = run_filter(&no_builtins(), vec![], vec!["x"], Expr::Var("x".to_string()));
    assert_eq!(f, Filter::Var(0));
    assert!(errs.is_empty());
}

#[test]
fn var_resolution_is_innermost_first() {
    let (f, errs) = run_filter(
        &no_builtins(),
        vec![],
        vec!["a", "b", "c"],
        Expr::Var("a".to_string()),
    );
    assert_eq!(f, Filter::Var(2));
    assert!(errs.is_empty());
}

#[test]
fn int_plus_float_literal() {
    let body = Expr::Binary(
        bx(num("1")),
        BinaryOp::Math(MathOp::Add),
        bx(fnum("2.5", 2.5)),
    );
    let (f, errs) = run_filter(&no_builtins(), vec![], vec![], body);
    assert_eq!(
        f,
        Filter::Math(b(Filter::Int(1)), MathOp::Add, b(Filter::Float(2.5f64.to_bits())))
    );
    assert!(errs.is_empty());
}

#[test]
fn integer_literal_forms() {
    let cases = vec![("0", 0isize), ("123", 123), ("+7", 7), ("-42", -42)];
    for (text, expect) in cases {
        let (f, errs) = run_filter(&no_builtins(), vec![], vec![], num(text));
        assert_eq!(f, Filter::Int(expect));
        assert!(errs.is_empty());
    }
}

#[test]
fn integer_literal_overflow_is_reported() {
    let (f, errs) = run_filter(
        &no_builtins(),
        vec![],
        vec![],
        num("99999999999999999999999999999"),
    );
    assert_eq!(f, Filter::Int(0));
    assert_eq!(errs.len(), 1);
    assert_eq!(errs[0].kind, DiagKind::BadInt);
}

#[test]
fn malformed_float_literal_is_reported() {
    let (f, errs) = run_filter(&no_builtins(), vec![], vec![], bad_fnum("1e"));
    assert_eq!(f, Filter::Float(0));
    assert_eq!(errs.len(), 1);
    assert_eq!(errs[0].kind, DiagKind::BadFloat);
    assert_eq!(Filter::Float(0), Filter::Float(0.0f64.to_bits()));
}

#[test]
fn undefined_variable_yields_placeholder_and_diagnostic() {
    let (f, errs) = run_filter(&no_builtins(), vec![], vec![], Expr::Var("x".to_string()));
    assert_eq!(f, Filter::Var(0));
    assert_eq!(errs.len(), 1);
    assert_eq!(errs[0].kind, DiagKind::UndefVar);
}

#[test]
fn unknown_function_yields_identity_and_diagnostic() {
    let (f, errs) = run_filter(
        &no_builtins(),
        vec![],
        vec![],
        Expr::Call("foo".to_string(), Vec::new()),
    );
    assert_eq!(f, Filter::Id);
    assert_eq!(errs.len(), 1);
    assert_eq!(errs[0].kind, DiagKind::FunNotFound);
}

#[test]
fn diagnostic_messages_are_canonical() {
    assert_eq!(DiagKind::FunNotFound.message(), "could not find function");
    assert_eq!(DiagKind::UndefVar.message(), "undefined variable");
    assert_eq!(
        DiagKind::BadFloat.message(),
        "cannot interpret as floating-point number"
    );
    assert_eq!(
        DiagKind::BadInt.message(),
        "cannot interpret as machine-size integer"
    );
}

#[test]
fn pipe_without_binder() {
    let body = Expr::Binary(bx(Expr::Id), BinaryOp::Pipe(None), bx(num("1")));
    let (f, errs) = run_filter(&no_builtins(), vec![], vec![], body);
    assert_eq!(f, Filter::Pipe(b(Filter::Id), false, b(Filter::Int(1))));
    assert!(errs.is_empty());
}

#[test]
fn pipe_with_binder_binds_variable_for_right_side() {
    let body = Expr::Binary(
        bx(num("1")),
        BinaryOp::Pipe(Some("x".to_string())),
        bx(Expr::Var("x".to_string())),
    );
    let (f, errs) = run_filter(&no_builtins(), vec![], vec![], body);
    assert_eq!(f, Filter::Pipe(b(Filter::Int(1)), true, b(Filter::Var(0))));
    assert!(errs.is_empty());
}

#[test]
fn elif_chain_folds_to_nested_conditionals() {
    let body = Expr::Ite(
        vec![
            (sp(Expr::Var("a".to_string())), sp(num("1"))),
            (sp(Expr::Var("c".to_string())), sp(num("2"))),
        ],
        bx(num("3")),
    );
    let (f, errs) = run_filter(&no_builtins(), vec![], vec!["c", "a"], body);
    assert_eq!(
        f,
        Filter::Ite(
            b(Filter::Var(0)),
            b(Filter::Int(1)),
            b(Filter::Ite(b(Filter::Var(1)), b(Filter::Int(2)), b(Filter::Int(3)))),
        )
    );
    assert!(errs.is_empty());
}

#[test]
fn fold_binds_variable_for_update_only() {
    let body = Expr::Fold(
        FoldType::Reduce,
        bx(Expr::Id),
        "x".to_string(),
        bx(num("0")),
        bx(Expr::Var("x".to_string())),
    );
    let (f, errs) = run_filter(&no_builtins(), vec![], vec![], body);
    assert_eq!(
        f,
        Filter::Fold(FoldType::Reduce, b(Filter::Id), b(Filter::Int(0)), b(Filter::Var(0)))
    );
    assert!(errs.is_empty());
}

#[test]
fn object_with_bare_string_key_synthesizes_access() {
    let body = Expr::Object(vec![
        KeyVal::Str("a".to_string(), None),
        KeyVal::Str("b".to_string(), Some(sp(num("2")))),
    ]);
    let (f, errs) = run_filter(&no_builtins(), vec![], vec![], body);
    let a_access = Filter::Path(
        b(Filter::Id),
        Parts::Cons(
            Part::Index(b(Filter::Str("a".to_string()))),
            false,
            Box::new(Parts::Nil),
        ),
    );
    let expected = Filter::Object(Pairs::Cons(
        b(Filter::Str("a".to_string())),
        b(a_access),
        Box::new(Pairs::Cons(
            b(Filter::Str("b".to_string())),
            b(Filter::Int(2)),
            Box::new(Pairs::Nil),
        )),
    ));
    assert_eq!(f, expected);
    assert!(errs.is_empty());
}

#[test]
fn assignment_operators_map_to_their_variants() {
    let mk = |op: AssignOp| {
        Expr::Binary(bx(Expr::Id), BinaryOp::Assign(op), bx(num("1")))
    };
    let (f1, _) = run_filter(&no_builtins(), vec![], vec![], mk(AssignOp::Assign));
    assert_eq!(f1, Filter::Assign(b(Filter::Id), b(Filter::Int(1))));
    let (f2, _) = run_filter(&no_builtins(), vec![], vec![], mk(AssignOp::Update));
    assert_eq!(f2, Filter::Update(b(Filter::Id), b(Filter::Int(1))));
    let (f3, _) = run_filter(
        &no_builtins(),
        vec![],
        vec![],
        mk(AssignOp::UpdateWith(MathOp::Sub)),
    );
    assert_eq!(f3, Filter::UpdateMath(b(Filter::Id), MathOp::Sub, b(Filter::Int(1))));
}

#[test]
fn nullary_definition_call_inlines_compiled_body() {
    // a closed sibling is always inlined at its call sites; only
    // self-recursion inside a definition's own body emits a table call
    let plus_one = Expr::Binary(bx(Expr::Id), BinaryOp::Math(MathOp::Add), bx(num("1")));
    let (table, top, errs) = run_module(
        vec![mk_def("f", vec![], vec![], plus_one)],
        Expr::Call("f".to_string(), vec![]),
    );
    assert_eq!(
        table,
        vec![Filter::Math(b(Filter::Id), MathOp::Add, b(Filter::Int(1)))]
    );
    assert_eq!(top, Filter::Math(b(Filter::Id), MathOp::Add, b(Filter::Int(1))));
    assert!(errs.is_empty());
}

#[test]
fn filter_argument_is_inlined_at_each_use() {
    // def f(g): g|g; f(.+1)
    let body_f = Expr::Binary(
        bx(Expr::Call("g".to_string(), vec![])),
        BinaryOp::Pipe(None),
        bx(Expr::Call("g".to_string(), vec![])),
    );
    let plus_one = Expr::Binary(bx(Expr::Id), BinaryOp::Math(MathOp::Add), bx(num("1")));
    let (table, top, errs) = run_module(
        vec![mk_def("f", vec![Arg::Fun("g".to_string())], vec![], body_f)],
        Expr::Call("f".to_string(), vec![sp(plus_one)]),
    );
    let inc = Filter::Math(b(Filter::Id), MathOp::Add, b(Filter::Int(1)));
    assert_eq!(table, vec![Filter::Pipe(b(Filter::Arg(0)), false, b(Filter::Arg(0)))]);
    assert_eq!(top, Filter::Pipe(b(inc.clone()), false, b(inc)));
    assert!(errs.is_empty());
}

#[test]
fn variable_parameter_is_wrapped_as_binder() {
    // def f($x): $x; f(1)
    let (table, top, errs) = run_module(
        vec![mk_def(
            "f",
            vec![Arg::Var("x".to_string())],
            vec![],
            Expr::Var("x".to_string()),
        )],
        Expr::Call("f".to_string(), vec![sp(num("1"))]),
    );
    assert_eq!(
        table,
        vec![Filter::Pipe(b(Filter::Arg(0)), true, b(Filter::Var(0)))]
    );
    assert_eq!(top, Filter::Pipe(b(Filter::Int(1)), true, b(Filter::Var(0))));
    assert!(errs.is_empty());
}

#[test]
fn table_has_one_slot_per_definition_nested_included() {
    // def a: def b: .; b; a
    let inner = mk_def("b", vec![], vec![], Expr::Id);
    let outer = mk_def("a", vec![], vec![inner], Expr::Call("b".to_string(), vec![]));
    let (table, _top, errs) = run_module(vec![outer], Expr::Call("a".to_string(), vec![]));
    assert_eq!(table.len(), 2);
    assert!(errs.is_empty());
}

#[test]
fn later_sibling_of_same_name_and_arity_wins() {
    let (table, top, errs) = run_module(
        vec![
            mk_def("f", vec![], vec![], num("1")),
            mk_def("f", vec![], vec![], num("2")),
        ],
        Expr::Call("f".to_string(), vec![]),
    );
    assert_eq!(table.len(), 2);
    assert_eq!(table[0], Filter::Int(1));
    assert_eq!(table[1], Filter::Int(2));
    assert_eq!(top, Filter::Int(2));
    assert!(errs.is_empty());
}

#[test]
fn nullary_self_recursion_calls_own_slot() {
    let (table, top, errs) = run_module(
        vec![mk_def("f", vec![], vec![], Expr::Call("f".to_string(), vec![]))],
        Expr::Call("f".to_string(), vec![]),
    );
    assert_eq!(table, vec![Filter::Call { skip: 0, id: 0 }]);
    assert_eq!(top, Filter::Call { skip: 0, id: 0 });
    assert!(errs.is_empty());
}

#[test]
fn recursive_definition_with_arguments_is_not_found() {
    // the self-recursion branch fires only for nullary definitions
    let body = Expr::Call("f".to_string(), vec![sp(num("1"))]);
    let (_table, _top, errs) = run_module(
        vec![mk_def("f", vec![Arg::Var("x".to_string())], vec![], body)],
        Expr::Id,
    );
    assert_eq!(errs.len(), 1);
    assert_eq!(errs[0].kind, DiagKind::FunNotFound);
}

#[test]
fn cousin_inlining_lifts_past_caller_binders() {
    // def f($x): $x; 1 as $y | f(2): the cousin body is entered past one binder
    let (table, top, errs) = run_module(
        vec![mk_def(
            "f",
            vec![Arg::Var("x".to_string())],
            vec![],
            Expr::Var("x".to_string()),
        )],
        Expr::Binary(
            bx(num("1")),
            BinaryOp::Pipe(Some("y".to_string())),
            bx(Expr::Call("f".to_string(), vec![sp(num("2"))])),
        ),
    );
    assert_eq!(table.len(), 1);
    assert_eq!(
        top,
        Filter::Pipe(
            b(Filter::Int(1)),
            true,
            b(Filter::Pipe(b(Filter::Int(2)), true, b(Filter::Var(0)))),
        )
    );
    assert!(errs.is_empty());
}

#[test]
fn builtin_call_substitutes_arguments_in_place() {
    let fns = Builtins {
        entries: vec![(
            "twice".to_string(),
            1usize,
            Filter::Comma(b(Filter::Arg(0)), b(Filter::Arg(0))),
        )],
    };
    let (f, errs) = run_filter(
        &fns,
        vec![],
        vec![],
        Expr::Call("twice".to_string(), vec![sp(num("5"))]),
    );
    assert_eq!(f, Filter::Comma(b(Filter::Int(5)), b(Filter::Int(5))));
    assert!(errs.is_empty());
}

#[test]
fn external_argument_call_skips_local_binders() {
    let body = Expr::Binary(
        bx(num("1")),
        BinaryOp::Pipe(Some("v".to_string())),
        bx(Expr::Call("g".to_string(), vec![])),
    );
    let (f, errs) = run_filter(&no_builtins(), vec!["g"], vec![], body);
    assert_eq!(
        f,
        Filter::Pipe(
            b(Filter::Int(1)),
            true,
            b(Filter::SkipCtx(1, b(Filter::Arg(0)))),
        )
    );
    assert!(errs.is_empty());

    let (f2, errs2) = run_filter(&no_builtins(), vec!["g"], vec![], Expr::Call("g".to_string(), vec![]));
    assert_eq!(f2, Filter::Arg(0));
    assert!(errs2.is_empty());
}

#[test]
fn def_wraps_variable_parameters_leftmost_outermost() {
    let args = vec![
        Arg::Var("a".to_string()),
        Arg::Fun("g".to_string()),
        Arg::Var("b".to_string()),
    ];
    let mut errs: Vec<Diag> = Vec::new();
    let f = def(&no_builtins(), &args, &sp(Expr::Var("b".to_string())), &mut errs);
    assert_eq!(
        f,
        Filter::Pipe(
            b(Filter::Arg(0)),
            true,
            b(Filter::Pipe(b(Filter::Arg(2)), true, b(Filter::Var(0)))),
        )
    );
    assert!(errs.is_empty());
}

#[test]
fn diagnostics_carry_the_node_span() {
    let body = SpExpr {
        expr: Expr::Var("nope".to_string()),
        span: Span { start: 3, end: 8 },
    };
    let mut vars: Vec<String> = Vec::new();
    let mut errs: Vec<Diag> = Vec::new();
    let args: Vec<String> = Vec::new();
    let f = filter(&no_builtins(), &args, &mut vars, &body, &mut errs);
    assert_eq!(f, Filter::Var(0));
    assert_eq!(errs, vec![Diag { span: Span { start: 3, end: 8 }, kind: DiagKind::UndefVar }]);
}

#[test]
fn translation_continues_after_an_error() {
    // both sides of the comma are translated; both diagnostics arrive in order
    let body = Expr::Binary(
        bx(Expr::Var("x".to_string())),
        BinaryOp::Comma,
        bx(Expr::Call("foo".to_string(), vec![])),
    );
    let (f, errs) = run_filter(&no_builtins(), vec![], vec![], body);
    assert_eq!(f, Filter::Comma(b(Filter::Var(0)), b(Filter::Id)));
    assert_eq!(errs.len(), 2);
    assert_eq!(errs[0].kind, DiagKind::UndefVar);
    assert_eq!(errs[1].kind, DiagKind::FunNotFound);
}

#[test]
fn substitution_maps_structure_homomorphically() {
    let f = Filter::Comma(b(Filter::Var(0)), b(Filter::Arg(0)));
    let args = vec![Filter::Int(5)];
    let r = subst(&f, 0, SubKind::Fill, 0, &args);
    assert_eq!(r, Filter::Comma(b(Filter::Var(0)), b(Filter::Int(5))));

    // under a binding pipe, an inlined variable below the binder is kept
    let g = Filter::Pipe(b(Filter::Arg(0)), true, b(Filter::Var(0)));
    let r2 = subst(&g, 0, SubKind::Inline, 3, &args);
    assert_eq!(r2, Filter::Pipe(b(Filter::Int(5)), true, b(Filter::Var(0))));

    // a variable at or above the binder count is shifted
    let h = Filter::Pipe(b(Filter::Var(0)), true, b(Filter::Var(2)));
    let r3 = subst(&h, 0, SubKind::Inline, 3, &args);
    assert_eq!(r3, Filter::Pipe(b(Filter::Var(3)), true, b(Filter::Var(5))));
}

#[test]
fn path_segments_keep_order_and_optional_flags() {
    let body = Expr::Path(
        bx(Expr::Id),
        vec![
            (PathPart::Index(sp(Expr::Str("k".to_string()))), true),
            (PathPart::Range(Some(sp(num("1"))), None), false),
        ],
    );
    let (f, errs) = run_filter(&no_builtins(), vec![], vec![], body);
    assert_eq!(
        f,
        Filter::Path(
            b(Filter::Id),
            Parts::Cons(
                Part::Index(b(Filter::Str("k".to_string()))),
                true,
                Box::new(Parts::Cons(
                    Part::Range(Some(b(Filter::Int(1))), None),
                    false,
                    Box::new(Parts::Nil),
                )),
            ),
        )
    );
    assert!(errs.is_empty());
}

#[test]
fn array_and_simple_wrappers() {
    let (f1, _) = run_filter(&no_builtins(), vec![], vec![], Expr::Array(None));
    assert_eq!(f1, Filter::Array(None));
    let (f2, _) = run_filter(&no_builtins(), vec![], vec![], Expr::Array(Some(bx(num("1")))));
    assert_eq!(f2, Filter::Array(Some(b(Filter::Int(1)))));
    let (f3, _) = run_filter(&no_builtins(), vec![], vec![], Expr::Try(bx(Expr::Id)));
    assert_eq!(f3, Filter::Try(b(Filter::Id)));
    let (f4, _) = run_filter(&no_builtins(), vec![], vec![], Expr::Neg(bx(num("1"))));
    assert_eq!(f4, Filter::Neg(b(Filter::Int(1))));
    let (f5, _) = run_filter(&no_builtins(), vec![], vec![], Expr::Recurse);
    assert_eq!(f5, Filter::Recurse);
    let (f6, _) = run_filter(&no_builtins(), vec![], vec![], Expr::Str("hi".to_string()));
    assert_eq!(f6, Filter::Str("hi".to_string()));
}

#[test]
fn logic_and_comparison_operators() {
    let (f1, _) = run_filter(
        &no_builtins(),
        vec![],
        vec![],
        Expr::Binary(bx(Expr::Id), BinaryOp::Or, bx(Expr::Id)),
    );
    assert_eq!(f1, Filter::Logic(b(Filter::Id), true, b(Filter::Id)));
    let (f2, _) = run_filter(
        &no_builtins(),
        vec![],
        vec![],
        Expr::Binary(bx(Expr::Id), BinaryOp::And, bx(Expr::Id)),
    );
    assert_eq!(f2, Filter::Logic(b(Filter::Id), false, b(Filter::Id)));
    let (f3, _) = run_filter(
        &no_builtins(),
        vec![],
        vec![],
        Expr::Binary(bx(num("1")), BinaryOp::Ord(OrdOp::Le), bx(num("2"))),
    );
    assert_eq!(f3, Filter::Ord(b(Filter::Int(1)), OrdOp::Le, b(Filter::Int(2))));
    let (f4, _) = run_filter(
        &no_builtins(),
        vec![],
        vec![],
        Expr::Binary(bx(num("1")), BinaryOp::Alt, bx(num("2"))),
    );
    assert_eq!(f4, Filter::Alt(b(Filter::Int(1)), b(Filter::Int(2))));
    let (f5, _) = run_filter(
        &no_builtins(),
        vec![],
        vec![],
        Expr::Binary(bx(num("1")), BinaryOp::Comma, bx(num("2"))),
    );
    assert_eq!(f5, Filter::Comma(b(Filter::Int(1)), b(Filter::Int(2))));
}

#[test]
fn inner_definition_sees_outer_parameter_name() {
    // def f(a): def g: a; g; .  -- the inner body resolves `a` in the outer frame
    let inner = mk_def("g", vec![], vec![], Expr::Call("a".to_string(), vec![]));
    let outer = mk_def(
        "f",
        vec![Arg::Fun("a".to_string())],
        vec![inner],
        Expr::Id,
    );
    let (table, _top, errs) = run_module(vec![outer], Expr::Id);
    assert_eq!(table.len(), 2);
    assert_eq!(table[0], Filter::Id);
    assert_eq!(table[1], Filter::Arg(0));
    assert!(errs.is_empty());
}

#[test]
fn empty_module_compiles_body_only() {
    let (table, top, errs) = run_module(vec![], Expr::Id);
    assert!(table.is_empty());
    assert_eq!(top, Filter::Id);
    assert!(errs.is_empty());
}

#[test]
fn variable_environment_is_left_unchanged() {
    let args: Vec<String> = Vec::new();
    let mut vars: Vec<String> = vec!["x".to_string(), "y".to_string()];
    let mut errs: Vec<Diag> = Vec::new();
    let body = sp(Expr::Binary(
        bx(num("1")),
        BinaryOp::Pipe(Some("z".to_string())),
        bx(Expr::Var("z".to_string())),
    ));
    let f = filter(&no_builtins(), &args, &mut vars, &body, &mut errs);
    assert_eq!(f, Filter::Pipe(b(Filter::Int(1)), true, b(Filter::Var(0))));
    assert_eq!(vars, vec!["x".to_string(), "y".to_string()]);
    assert!(errs.is_empty());
}

#[test]
fn cousin_free_variable_is_lifted_past_caller_binders() {
    // def p($a): def f(g; $v): $a; 1 as $y | f(.; 2)
    // f's stored body refers to the enclosing $a; inlining it under the
    // caller's $y must lift that reference past the new binder, so it
    // still names $a and is not captured by $y
    let f_def = mk_def(
        "f",
        vec![Arg::Fun("g".to_string()), Arg::Var("v".to_string())],
        vec![],
        Expr::Var("a".to_string()),
    );
    let p_body = Expr::Binary(
        bx(num("1")),
        BinaryOp::Pipe(Some("y".to_string())),
        bx(Expr::Call(
            "f".to_string(),
            vec![sp(Expr::Id), sp(num("2"))],
        )),
    );
    let p_def = mk_def("p", vec![Arg::Var("a".to_string())], vec![f_def], p_body);
    let (table, _top, errs) = run_module(vec![p_def], Expr::Id);
    assert_eq!(table.len(), 2);
    assert_eq!(
        table[1],
        Filter::Pipe(b(Filter::Arg(1)), true, b(Filter::Var(1)))
    );
    assert_eq!(
        table[0],
        Filter::Pipe(
            b(Filter::Arg(0)),
            true,
            b(Filter::Pipe(
                b(Filter::Int(1)),
                true,
                b(Filter::Pipe(b(Filter::Int(2)), true, b(Filter::Var(2)))),
            )),
        )
    );
    assert!(errs.is_empty());
}

#[test]
fn advancing_past_a_frame_counts_its_variable_parameters() {
    // def p($a): def h(g): $a; def q($b): h(.); .
    // resolving the call to h from q's body walks past q's frame, whose
    // variable parameter $b must be counted: the inlined $a reference is
    // shifted past it, to index 1 in q's environment [$a, $b]
    let h_def = mk_def(
        "h",
        vec![Arg::Fun("g".to_string())],
        vec![],
        Expr::Var("a".to_string()),
    );
    let q_def = mk_def(
        "q",
        vec![Arg::Var("b".to_string())],
        vec![],
        Expr::Call("h".to_string(), vec![sp(Expr::Id)]),
    );
    let p_def = mk_def(
        "p",
        vec![Arg::Var("a".to_string())],
        vec![h_def, q_def],
        Expr::Id,
    );
    let (table, _top, errs) = run_module(vec![p_def], Expr::Id);
    assert_eq!(table.len(), 3);
    assert_eq!(table[1], Filter::Var(0));
    assert_eq!(
        table[2],
        Filter::Pipe(b(Filter::Arg(0)), true, b(Filter::Var(1)))
    );
    assert_eq!(table[0], Filter::Pipe(b(Filter::Arg(0)), true, b(Filter::Id)));
    assert!(errs.is_empty());
}
