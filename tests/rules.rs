use p2r::ast::{Alias, CmpOp, Comprehension, Constant, Expr, Keyword, Operator, Params, Pattern, MatchCase, Stmt};
use p2r::{p2r, Ctx, Imports, Padded, PaddedT, ParseError, Promotion, Rule, TranspileError};

fn bx(e: Expr) -> Box<Expr> {
    Box::new(e)
}

fn name(s: &str) -> Expr {
    Expr::Name { id: s.to_string() }
}

fn num(s: &str) -> Expr {
    Expr::Constant { value: Constant::Int(s.to_string()) }
}

fn call(f: Expr, args: Vec<Expr>) -> Expr {
    Expr::Call { func: bx(f), args, keywords: vec![] }
}

fn attr(v: Expr, a: &str) -> Expr {
    Expr::Attribute { value: bx(v), attr: a.to_string() }
}

fn assign(t: Expr, v: Expr) -> Stmt {
    Stmt::Assign { targets: vec![t], value: v }
}

fn expr(e: Expr) -> Stmt {
    Stmt::Expr { value: e }
}

fn no_params() -> Params {
    Params { posonlyargs: vec![], args: vec![], vararg: false, kwonlyargs: vec![], kwarg: false }
}

fn translate(body: Vec<Stmt>) -> Result<String, TranspileError> {
    p2r(&body, &mut Ctx::default())
}

fn rejected_by(body: Vec<Stmt>) -> Rule {
    translate(body).unwrap_err().rule
}

#[test]
fn int_literal_binding_is_fresh_and_mutable() {
    let out = translate(vec![assign(name("n"), num("7")), assign(name("n"), num("12345678901234567890"))]).unwrap();
    assert_eq!(out, "let mut n = 7;\nlet mut n = 12345678901234567890;\n\n");
}

#[test]
fn enum_reference_before_declaration_is_plain() {
    let out = translate(vec![
        assign(name("x"), attr(name("C"), "M1")),
        Stmt::ClassDef {
            name: "C".to_string(),
            bases: vec![name("Enum")],
            body: vec![assign(name("M1"), num("1")), assign(name("M2"), num("2"))],
        },
        assign(name("y"), attr(name("C"), "M1")),
    ])
    .unwrap();
    assert!(out.starts_with("let mut x = C.M1;\n"));
    assert!(out.contains("enum C {\nM1 = 1,\nM2 = 2\n}"));
    assert!(out.contains("let mut y = C::M1;\n"));
}

#[test]
fn nested_comprehension_is_rejected() {
    let g = |t: &str, it: &str| Comprehension { target: name(t), iter: name(it), ifs: vec![] };
    let e = Expr::ListComp { elt: bx(name("x")), generators: vec![g("x", "a"), g("y", "b")] };
    assert_eq!(rejected_by(vec![expr(e)]), Rule::NestedComprehension);
}

#[test]
fn two_filters_are_rejected() {
    let e = Expr::ListComp {
        elt: bx(name("x")),
        generators: vec![Comprehension { target: name("x"), iter: name("a"), ifs: vec![name("p"), name("q")] }],
    };
    assert_eq!(rejected_by(vec![expr(e)]), Rule::ComprehensionFilters);
}

#[test]
fn tuple_unpacking_of_a_call() {
    let out = translate(vec![assign(
        Expr::Tuple { elts: vec![name("a"), name("b")] },
        call(name("f"), vec![name("x")]),
    )])
    .unwrap();
    assert_eq!(out, "let (mut a, mut b) = f(x);\n\n");
}

#[test]
fn chained_comparison_is_a_conjunction() {
    let e = Expr::Compare { left: bx(name("a")), ops: vec![CmpOp::Lt, CmpOp::Lt], comparators: vec![name("b"), name("c")] };
    assert_eq!(translate(vec![expr(e)]).unwrap(), "a < b&&b < c;\n\n");
}

#[test]
fn membership_tests() {
    let e = Expr::Compare { left: bx(name("x")), ops: vec![CmpOp::NotIn], comparators: vec![name("xs")] };
    assert_eq!(translate(vec![expr(e)]).unwrap(), "!xs.into_iter().any(|v| v == x);\n\n");
}

#[test]
fn compare_shape_mismatch_is_rejected() {
    let e = Expr::Compare { left: bx(name("a")), ops: vec![CmpOp::Lt], comparators: vec![] };
    assert_eq!(rejected_by(vec![expr(e)]), Rule::CompareShape);
}

#[test]
fn raise_and_bare_raise() {
    let raise = Stmt::Raise { exc: Some(call(name("ValueError"), vec![Expr::Constant { value: Constant::Str("msg".to_string()) }])), cause: None };
    assert_eq!(translate(vec![raise]).unwrap(), "panic!(\"ValueError(\"msg\")\")\n");
    assert_eq!(translate(vec![Stmt::Raise { exc: None, cause: None }]).unwrap(), "panic!()\n");
}

#[test]
fn raise_from_and_raise_of_a_name_are_rejected() {
    assert_eq!(rejected_by(vec![Stmt::Raise { exc: None, cause: Some(name("e")) }]), Rule::RaiseFrom);
    assert_eq!(rejected_by(vec![Stmt::Raise { exc: Some(name("e")), cause: None }]), Rule::RaiseShape);
}

#[test]
fn separate_runs_do_not_share_imports() {
    let first = translate(vec![
        Stmt::Import { names: vec![Alias { name: "math".to_string(), asname: None }] },
        expr(call(attr(name("math"), "sin"), vec![name("x")])),
    ])
    .unwrap();
    assert!(first.starts_with("prelude::sin(x);\n"));
    assert!(first.contains("mod prelude"));
    let second = translate(vec![expr(call(attr(name("math"), "sin"), vec![name("x")]))]).unwrap();
    assert_eq!(second, "math.sin(x);\n\n");
}

#[test]
fn async_definition_rejects_the_whole_run() {
    let body = vec![
        assign(name("a"), num("1")),
        Stmt::FunctionDef {
            name: "f".to_string(),
            args: no_params(),
            body: vec![Stmt::If { test: name("c"), body: vec![Stmt::AsyncFunctionDef], orelse: vec![] }],
            returns: None,
        },
    ];
    assert_eq!(translate(body), Err(TranspileError { rule: Rule::AsyncFunctionDef }));
}

#[test]
fn unsupported_statements() {
    assert_eq!(rejected_by(vec![Stmt::With]), Rule::With);
    assert_eq!(rejected_by(vec![Stmt::AsyncWith]), Rule::AsyncWith);
    assert_eq!(rejected_by(vec![Stmt::AsyncFor]), Rule::AsyncFor);
    assert_eq!(rejected_by(vec![Stmt::Global]), Rule::Global);
    assert_eq!(rejected_by(vec![Stmt::Nonlocal]), Rule::Nonlocal);
    assert_eq!(rejected_by(vec![Stmt::TryStar]), Rule::TryStar);
    assert_eq!(rejected_by(vec![Stmt::Return { value: None }]), Rule::BareReturn);
}

#[test]
fn chained_assignment_is_rejected() {
    let s = Stmt::Assign { targets: vec![name("a"), name("b")], value: num("1") };
    assert_eq!(rejected_by(vec![s]), Rule::ChainedAssignment);
}

#[test]
fn for_else_is_rejected() {
    let s = Stmt::For { target: name("i"), iter: name("xs"), body: vec![Stmt::Pass], orelse: vec![Stmt::Pass] };
    assert_eq!(rejected_by(vec![s]), Rule::ForElse);
}

#[test]
fn try_with_finally_is_rejected() {
    let s = Stmt::Try { body: vec![Stmt::Pass], handlers: vec![], orelse: vec![], finalbody: vec![Stmt::Pass] };
    assert_eq!(rejected_by(vec![s]), Rule::TryElseFinally);
}

#[test]
fn match_guards_and_patterns() {
    let guarded = Stmt::Match {
        subject: name("x"),
        cases: vec![MatchCase { pattern: Pattern::MatchValue { value: num("1") }, guard: Some(name("g")), body: vec![] }],
    };
    assert_eq!(rejected_by(vec![guarded]), Rule::MatchGuard);
    let capture = Stmt::Match {
        subject: name("x"),
        cases: vec![MatchCase { pattern: Pattern::MatchAs, guard: None, body: vec![] }],
    };
    assert_eq!(rejected_by(vec![capture]), Rule::MatchPattern);
}

#[test]
fn delete_of_a_subscript_is_rejected() {
    let s = Stmt::Delete { targets: vec![Expr::Subscript { value: bx(name("a")), slice: bx(num("0")) }] };
    assert_eq!(rejected_by(vec![s]), Rule::DeleteTarget);
}

#[test]
fn class_body_with_other_statements_is_rejected() {
    let s = Stmt::ClassDef { name: "K".to_string(), bases: vec![], body: vec![Stmt::Pass] };
    assert_eq!(rejected_by(vec![s]), Rule::ClassMember);
}

#[test]
fn operators_without_a_spelling_are_rejected() {
    let aug = Stmt::AugAssign { target: name("x"), op: Operator::FloorDiv, value: num("2") };
    assert_eq!(rejected_by(vec![aug]), Rule::BinaryOperator);
    let pow = Stmt::AugAssign { target: name("x"), op: Operator::Pow, value: num("2") };
    assert_eq!(rejected_by(vec![pow]), Rule::BinaryOperator);
}

#[test]
fn unsupported_expressions() {
    assert_eq!(rejected_by(vec![expr(Expr::Await)]), Rule::Await);
    assert_eq!(rejected_by(vec![expr(Expr::Yield)]), Rule::Yield);
    assert_eq!(rejected_by(vec![expr(Expr::YieldFrom)]), Rule::YieldFrom);
    assert_eq!(rejected_by(vec![expr(Expr::Starred { value: bx(name("a")) })]), Rule::Starred);
    assert_eq!(rejected_by(vec![expr(Expr::Constant { value: Constant::Ellipsis })]), Rule::LiteralKind);
    let d = Expr::Dict { keys: vec![None], values: vec![name("d")] };
    assert_eq!(rejected_by(vec![expr(d)]), Rule::DictUnpack);
}

#[test]
fn call_argument_rules() {
    let kw = Expr::Call { func: bx(name("f")), args: vec![], keywords: vec![Keyword { arg: None, value: name("d") }] };
    assert_eq!(rejected_by(vec![expr(kw)]), Rule::KeywordUnpack);
    assert_eq!(rejected_by(vec![expr(call(name("zip"), vec![]))]), Rule::ZipArity);
    assert_eq!(rejected_by(vec![expr(call(name("range"), vec![num("0"), num("9"), num("2")]))]), Rule::RangeStep);
    assert_eq!(rejected_by(vec![expr(call(name("range"), vec![]))]), Rule::RangeArity);
    assert_eq!(rejected_by(vec![expr(call(attr(name("np"), "sum"), vec![name("a")]))]), Rule::NumpyCall);
    assert_eq!(
        translate(vec![expr(call(attr(name("np"), "where"), vec![name("a")]))]).unwrap(),
        "ndarray::azip((a), { zip body });\n\n"
    );
}

#[test]
fn record_construction_rules() {
    let class = Stmt::ClassDef {
        name: "P".to_string(),
        bases: vec![],
        body: vec![Stmt::AnnAssign { target: name("x"), annotation: name("int"), value: None }],
    };
    let mixed = Expr::Call {
        func: bx(name("P")),
        args: vec![num("1")],
        keywords: vec![Keyword { arg: Some("x".to_string()), value: num("2") }],
    };
    assert_eq!(rejected_by(vec![class, expr(mixed)]), Rule::RecordArgsMixed);
}

#[test]
fn lambda_with_keyword_only_parameters_is_rejected() {
    let mut params = no_params();
    params.kwarg = true;
    let e = Expr::Lambda { args: params, body: bx(name("x")) };
    assert_eq!(rejected_by(vec![expr(e)]), Rule::LambdaParams);
}

#[test]
fn function_with_variadic_parameters_is_rejected() {
    let mut params = no_params();
    params.vararg = true;
    let s = Stmt::FunctionDef { name: "f".to_string(), args: params, body: vec![Stmt::Pass], returns: None };
    assert_eq!(rejected_by(vec![s]), Rule::FunctionParams);
}

#[test]
fn annotation_rules() {
    let s = Stmt::TypeAlias { name: name("T"), value: attr(name("m"), "T") };
    assert_eq!(rejected_by(vec![s]), Rule::Annotation);
    let s = Stmt::TypeAlias {
        name: name("S"),
        value: Expr::Constant { value: Constant::Str("Vec<u8>".to_string()) },
    };
    assert_eq!(translate(vec![s]).unwrap(), "type S = Vec<u8>;\n\n");
}

#[test]
fn unknown_math_member_is_rejected_at_the_prelude() {
    let s = Stmt::ImportFrom {
        module: Some("math".to_string()),
        names: vec![Alias { name: "floor".to_string(), asname: None }],
        level: 0,
    };
    assert_eq!(rejected_by(vec![s]), Rule::UnknownMathMember);
}

#[test]
fn relative_and_other_imports_are_ignored() {
    let rel = Stmt::ImportFrom {
        module: Some("math".to_string()),
        names: vec![Alias { name: "floor".to_string(), asname: None }],
        level: 1,
    };
    let other = Stmt::ImportFrom {
        module: Some("os".to_string()),
        names: vec![Alias { name: "path".to_string(), asname: None }],
        level: 0,
    };
    assert_eq!(translate(vec![rel, other]).unwrap(), "\n");
}

#[test]
fn functools_members_are_recorded_in_their_table() {
    let s = Stmt::ImportFrom {
        module: Some("functools".to_string()),
        names: vec![Alias { name: "reduce".to_string(), asname: Some("r".to_string()) }],
        level: 0,
    };
    let mut ctx = Ctx::default();
    p2r(&vec![s], &mut ctx).unwrap();
    assert_eq!(ctx.imports.functools.len(), 1);
    assert_eq!(ctx.imports.functools[0].0, "reduce");
    assert_eq!(ctx.imports.functools[0].1.as_deref(), Some("r"));
    assert!(ctx.imports.math.is_empty());
}

#[test]
fn import_table_is_ordered_and_keeps_renames() {
    let from = Stmt::ImportFrom {
        module: Some("math".to_string()),
        names: vec![
            Alias { name: "sqrt".to_string(), asname: None },
            Alias { name: "cos".to_string(), asname: Some("c".to_string()) },
            Alias { name: "cos".to_string(), asname: None },
        ],
        level: 0,
    };
    let mut ctx = Ctx::default();
    p2r(&vec![from], &mut ctx).unwrap();
    let names: Vec<&str> = ctx.imports.math.iter().map(|e| e.0.as_str()).collect();
    assert_eq!(names, vec!["cos", "sqrt"]);
    assert_eq!(ctx.imports.math[0].1.as_deref(), Some("c"));
    assert_eq!(ctx.imports.gen_imports(), "use prelude::{cos as c,sqrt};");
}

#[test]
fn empty_import_table_generates_nothing() {
    let imports = Imports::new();
    assert_eq!(imports.gen_imports(), "");
    assert_eq!(imports.gen_prelude(), Ok(String::new()));
}

#[test]
fn promotion_is_restored_after_a_function() {
    let optional = Stmt::FunctionDef {
        name: "f".to_string(),
        args: no_params(),
        body: vec![Stmt::Return { value: Some(num("1")) }],
        returns: Some(bx(Expr::Subscript { value: bx(name("Optional")), slice: bx(name("int")) })),
    };
    let mut ctx = Ctx::default();
    let out = p2r(&vec![optional], &mut ctx).unwrap();
    assert!(out.contains("return (1).into();"));
    assert_eq!(ctx.ret_needs_promotion, Promotion::Plain);
    assert!(ctx.numpy_array_args.is_empty());
}

#[test]
fn class_registration_and_lookups() {
    let class = Stmt::ClassDef {
        name: "P".to_string(),
        bases: vec![],
        body: vec![
            Stmt::AnnAssign { target: name("x"), annotation: name("int"), value: None },
            Stmt::AnnAssign { target: name("y"), annotation: name("float"), value: None },
        ],
    };
    let mut ctx = Ctx::default();
    p2r(&vec![class], &mut ctx).unwrap();
    let idx = ctx.get_class_members("P").unwrap();
    assert_eq!(ctx.classes[idx].1, vec!["x".to_string(), "y".to_string()]);
    assert_eq!(ctx.get_class_members("Q"), None);
    assert!(!ctx.has_enum("P"));
}

#[test]
fn bytes_are_escaped_in_hex() {
    let e = Expr::Constant { value: Constant::Bytes(vec![0, 15, 16, 171, 255]) };
    assert_eq!(translate(vec![expr(e)]).unwrap(), "b\"\\x00\\x0f\\x10\\xab\\xff\";\n\n");
}

#[test]
fn link_names_the_rule() {
    let e = TranspileError { rule: Rule::ForElse };
    assert_eq!(
        e.to_link(),
        "please, go to: https://github.com/benmkw/p2r/issues and report the rule `for_else` to help improve this crate"
    );
}

#[test]
fn parse_error_from_transpile_error() {
    let e = TranspileError { rule: Rule::With };
    match ParseError::from(e) {
        ParseError::TranspileError(inner) => assert_eq!(inner, e),
        ParseError::ParseError(_) => panic!("wrong variant"),
    }
}


#[test]
fn padded_puts_the_separator_after_each_item() {
    let mut p = Padded::new(vec!["a".to_string(), "b".to_string()], ";".to_string());
    assert_eq!(p.next().as_deref(), Some("a"));
    assert_eq!(p.next().as_deref(), Some(";"));
    assert_eq!(p.next().as_deref(), Some("b"));
    assert_eq!(p.next().as_deref(), Some(";"));
    assert_eq!(p.next(), None);
    assert_eq!(p.next(), None);
}

#[test]
fn padded_text_of_items_and_of_nothing() {
    let items = vec!["x = 1".to_string(), "y = 2".to_string()];
    assert_eq!(items.padded(";\n".to_string()).text(), "x = 1;\ny = 2;\n");
    assert_eq!(Vec::<String>::new().padded(",".to_string()).text(), "");
}

#[test]
fn function_restores_the_mutability_flag() {
    let def = Stmt::FunctionDef {
        name: "f".to_string(),
        args: no_params(),
        body: vec![assign(name("x"), num("1"))],
        returns: None,
    };
    let mut ctx = Ctx::default();
    ctx.declare_var_mut = true;
    let out = p2r(&vec![def], &mut ctx).unwrap();
    assert!(out.contains("let mut x = 1;"));
    assert!(ctx.declare_var_mut);
    assert_eq!(ctx.ret_needs_promotion, Promotion::Plain);
}

#[test]
fn imported_names_stay_after_a_failed_run() {
    let mut ctx = Ctx::default();
    let from = Stmt::ImportFrom {
        module: Some("math".to_string()),
        names: vec![Alias { name: "sin".to_string(), asname: None }],
        level: 0,
    };
    assert!(p2r(&vec![from, Stmt::With], &mut ctx).is_err());
    assert_eq!(ctx.imports.math.len(), 1);
    assert_eq!(ctx.imports.math[0].0, "sin");
}
