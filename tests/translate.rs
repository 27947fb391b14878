use p2r::ast::{
    Alias, BoolOp, CmpOp, Comprehension, Constant, ExceptHandler, Expr, Keyword, MatchCase, Operator,
    Param, Params, Pattern, Stmt,
};
use p2r::{p2r, Ctx};

fn bx(e: Expr) -> Box<Expr> {
    Box::new(e)
}

fn name(s: &str) -> Expr {
    Expr::Name { id: s.to_string() }
}

fn num(s: &str) -> Expr {
    Expr::Constant { value: Constant::Int(s.to_string()) }
}

fn float(s: &str) -> Expr {
    Expr::Constant { value: Constant::Float(s.to_string()) }
}

fn string(s: &str) -> Expr {
    Expr::Constant { value: Constant::Str(s.to_string()) }
}

fn boolean(b: bool) -> Expr {
    Expr::Constant { value: Constant::Bool(b) }
}

fn none() -> Expr {
    Expr::Constant { value: Constant::NoneValue }
}

fn call(f: Expr, args: Vec<Expr>) -> Expr {
    Expr::Call { func: bx(f), args, keywords: vec![] }
}

fn call_kw(f: Expr, args: Vec<Expr>, kws: Vec<(&str, Expr)>) -> Expr {
    let keywords = kws
        .into_iter()
        .map(|(k, v)| Keyword { arg: Some(k.to_string()), value: v })
        .collect();
    Expr::Call { func: bx(f), args, keywords }
}

fn attr(v: Expr, a: &str) -> Expr {
    Expr::Attribute { value: bx(v), attr: a.to_string() }
}

fn bin(l: Expr, op: Operator, r: Expr) -> Expr {
    Expr::BinOp { left: bx(l), op, right: bx(r) }
}

fn cmp(l: Expr, ops: Vec<CmpOp>, comparators: Vec<Expr>) -> Expr {
    Expr::Compare { left: bx(l), ops, comparators }
}

fn subscript(v: Expr, s: Expr) -> Expr {
    Expr::Subscript { value: bx(v), slice: bx(s) }
}

fn slice(lower: Option<Expr>, upper: Option<Expr>, step: Option<Expr>) -> Expr {
    Expr::Slice { lower: lower.map(bx), upper: upper.map(bx), step: step.map(bx) }
}

fn list(elts: Vec<Expr>) -> Expr {
    Expr::List { elts }
}

fn tuple(elts: Vec<Expr>) -> Expr {
    Expr::Tuple { elts }
}

fn fstr(values: Vec<Expr>) -> Expr {
    Expr::JoinedStr { values }
}

fn fv(e: Expr) -> Expr {
    Expr::FormattedValue { value: bx(e) }
}

fn ifexp(test: Expr, body: Expr, orelse: Expr) -> Expr {
    Expr::IfExp { test: bx(test), body: bx(body), orelse: bx(orelse) }
}

fn comp(target: Expr, iter: Expr, ifs: Vec<Expr>) -> Comprehension {
    Comprehension { target, iter, ifs }
}

fn list_comp(elt: Expr, g: Comprehension) -> Expr {
    Expr::ListComp { elt: bx(elt), generators: vec![g] }
}

fn params(ps: Vec<(&str, Option<Expr>)>) -> Params {
    Params {
        posonlyargs: vec![],
        args: ps
            .into_iter()
            .map(|(n, a)| Param { name: n.to_string(), annotation: a.map(bx) })
            .collect(),
        vararg: false,
        kwonlyargs: vec![],
        kwarg: false,
    }
}

fn lam(names: Vec<&str>, body: Expr) -> Expr {
    Expr::Lambda { args: params(names.into_iter().map(|n| (n, None)).collect()), body: bx(body) }
}

fn assign(t: Expr, v: Expr) -> Stmt {
    Stmt::Assign { targets: vec![t], value: v }
}

fn aug(t: Expr, op: Operator, v: Expr) -> Stmt {
    Stmt::AugAssign { target: t, op, value: v }
}

fn ann(t: Expr, a: Expr) -> Stmt {
    Stmt::AnnAssign { target: t, annotation: a, value: None }
}

fn expr(e: Expr) -> Stmt {
    Stmt::Expr { value: e }
}

fn ret(e: Expr) -> Stmt {
    Stmt::Return { value: Some(e) }
}

fn def(n: &str, ps: Vec<(&str, Option<Expr>)>, body: Vec<Stmt>, returns: Option<Expr>) -> Stmt {
    Stmt::FunctionDef { name: n.to_string(), args: params(ps), body, returns: returns.map(bx) }
}

fn class(n: &str, bases: Vec<Expr>, body: Vec<Stmt>) -> Stmt {
    Stmt::ClassDef { name: n.to_string(), bases, body }
}

fn if_(test: Expr, body: Vec<Stmt>, orelse: Vec<Stmt>) -> Stmt {
    Stmt::If { test, body, orelse }
}

fn while_(test: Expr, body: Vec<Stmt>, orelse: Vec<Stmt>) -> Stmt {
    Stmt::While { test, body, orelse }
}

fn for_(target: Expr, iter: Expr, body: Vec<Stmt>) -> Stmt {
    Stmt::For { target, iter, body, orelse: vec![] }
}

fn case(value: Expr, body: Vec<Stmt>) -> MatchCase {
    MatchCase { pattern: Pattern::MatchValue { value }, guard: None, body }
}

fn alias(n: &str, asname: Option<&str>) -> Alias {
    Alias { name: n.to_string(), asname: asname.map(|s| s.to_string()) }
}

fn typedef(n: &str, value: Expr) -> Stmt {
    Stmt::TypeAlias { name: name(n), value }
}

/// The generated statements as the body of `main`, pretty-printed.
fn fmt_program(code: &str) -> String {
    let program = format!("fn main(){{{code}}}");
    match syn::parse_file(&program) {
        Ok(file) => prettyplease::unparse(&file),
        Err(_) => program,
    }
}

/// Translate with a fresh context and format as the body of `main`.
fn run(body: Vec<Stmt>) -> String {
    let code = p2r(&body, &mut Ctx::default()).unwrap();
    fmt_program(&code)
}

#[test]
fn simple() {
    let body = vec![assign(name("a"), num("0"))];
    let expected = r#"fn main() {
    let mut a = 0;
}
"#;
    assert_eq!(run(body), expected);
}

#[test]
fn comprehensions() {
    let body = vec![
        assign(name("arr"), list_comp(name("x"), comp(name("x"), call(name("range"), vec![num("5"), num("10")]), vec![]))),
        assign(name("set_res"), Expr::SetComp { elt: bx(name("x")), generators: vec![comp(name("x"), name("res"), vec![cmp(name("x"), vec![CmpOp::In], vec![name("arr")])])] }),
        assign(name("dict_res"), Expr::DictComp { key: bx(name("k")), value: bx(bin(num("2"), Operator::Mult, name("v"))), generators: vec![comp(tuple(vec![name("k"), name("v")]), call(name("zip"), vec![name("arr"), name("arr")]), vec![])] }),
    ];
    let expected = r#"fn main() {
    let mut arr = (5..10).into_iter().map(|x| { x }).collect::<Vec<_>>();
    let mut set_res = res
        .into_iter()
        .filter_map(|x| { if arr.into_iter().any(|v| v == x) { Some(x) } else { None } })
        .collect::<HashSet<_, _>>();
    let mut dict_res = arr
        .iter()
        .zip(arr.iter())
        .into_iter()
        .map(|(k, v)| { (k, 2 * v) })
        .collect::<HashMap<_, _>>();
}
"#;
    assert_eq!(run(body), expected);
}

#[test]
fn list_comprehension_with_if() {
    let body = vec![expr(list_comp(name("x"), comp(name("x"), call(name("range"), vec![num("10")]), vec![cmp(bin(name("x"), Operator::Mod, num("2")), vec![CmpOp::Eq], vec![num("0")])])))];
    let expected = r#"fn main() {
    (0..10)
        .into_iter()
        .filter_map(|x| { if x % 2 == 0 { Some(x) } else { None } })
        .collect::<Vec<_>>();
}
"#;
    assert_eq!(run(body), expected);
}

#[test]
fn basic_for_and_while() {
    let body = vec![
        assign(name("a"), num("4")),
        assign(name("x"), num("0")),
        for_(name("i"), call(name("range"), vec![name("a")]), vec![aug(name("x"), Operator::Add, num("1"))]),
        assign(name("res"), list(vec![])),
        while_(cmp(name("x"), vec![CmpOp::Gt], vec![num("0")]), vec![
            aug(name("x"), Operator::Sub, num("1")),
            assign(name("a"), bin(name("x"), Operator::Pow, num("2"))),
            expr(call(attr(name("res"), "append"), vec![name("a")])),
        ], vec![]),
    ];
    let expected = r#"fn main() {
    let mut a = 4;
    let mut x = 0;
    for i in (0..a) {
        x += 1;
    }
    let mut res = vec![];
    while x > 0 {
        x -= 1;
        let mut a = x.powf(2);
        res.push(a)
    }
}
"#;
    assert_eq!(run(body), expected);
}

#[test]
fn while_else() {
    let body = vec![
        assign(name("res"), list(vec![])),
        while_(cmp(name("x"), vec![CmpOp::Gt], vec![num("0")]), vec![aug(name("x"), Operator::Sub, num("1"))], vec![expr(call(name("print"), vec![string("done")]))]),
    ];
    let expected = r#"fn main() {
    let mut res = vec![];
    while x > 0 {
        x -= 1;
    }
    if !(x > 0) {
        println!("{:?}", "done");
    }
}
"#;
    assert_eq!(run(body), expected);
}

#[test]
fn basic_class() {
    let body = vec![
        assign(name("foo_i"), call(name("Foo"), vec![])),
        class("Foo", vec![], vec![
            ann(name("a"), name("int")),
            ann(name("b"), name("int")),
            def("member_fn", vec![("self", None), ("other", Some(name("int")))], vec![
                ret(bin(num("2"), Operator::Mult, bin(attr(name("self"), "a"), Operator::Pow, name("other")))),
            ], Some(name("int"))),
        ]),
        assign(name("foo_arg"), call(name("Foo"), vec![num("1"), bin(num("2"), Operator::Mult, num("2"))])),
        assign(name("foo_kw"), call_kw(name("Foo"), vec![], vec![("b", bin(num("4"), Operator::Sub, num("1"))), ("a", num("1"))])),
    ];
    let expected = r#"fn main() {
    let mut foo_i = Foo();
    #[derive(Debug, Clone)]
    struct Foo {
        a: isize,
        b: isize,
    }
    impl Foo {
        fn member_fn(&self, other: isize) -> isize {
            return 2 * self.a.powf(other);
        }
    }
    let mut foo_arg = Foo { a: 1, b: 2 * 2 };
    let mut foo_kw = Foo { b: 4 - 1, a: 1 };
}
"#;
    assert_eq!(run(body), expected);
}

#[test]
fn basic_enum() {
    let body = vec![
        def("EnumOrFun", vec![], vec![Stmt::Pass], None),
        assign(name("foo_i"), call(name("EnumOrFun"), vec![])),
        class("EnumOrFun", vec![name("Enum")], vec![assign(name("A"), num("1")), assign(name("B"), num("2"))]),
        assign(name("a_inst"), attr(name("EnumOrFun"), "A")),
        Stmt::Match { subject: name("a_inst"), cases: vec![
            case(attr(name("EnumOrFun"), "A"), vec![expr(call(name("print"), vec![string("got an A")]))]),
            case(attr(name("EnumOrFun"), "B"), vec![expr(call(name("print"), vec![string("got a B")]))]),
        ] },
    ];
    let expected = r#"fn main() {
    fn EnumOrFun() -> () {
        todo!()
    }
    let mut foo_i = EnumOrFun();
    #[derive(Debug, Clone)]
    enum EnumOrFun {
        A = 1,
        B = 2,
    }
    let mut a_inst = EnumOrFun::A;
    match a_inst {
        EnumOrFun::A => println!("{:?}", "got an A"),
        EnumOrFun::B => println!("{:?}", "got a B"),
    }
}
"#;
    assert_eq!(run(body), expected);
}

#[test]
fn tuple_fn() {
    let body = vec![
        def("t", vec![("x", Some(name("int")))], vec![
            if_(cmp(name("x"), vec![CmpOp::Lt], vec![num("3")]),
                vec![ret(tuple(vec![bin(num("3"), Operator::Mult, name("x")), num("42")]))],
                vec![ret(none())]),
        ], Some(subscript(name("Optional"), subscript(name("tuple"), tuple(vec![name("int"), name("int")]))))),
        assign(tuple(vec![name("a"), name("b")]), call(name("t"), vec![num("1")])),
    ];
    let expected = r#"fn main() {
    fn t(x: isize) -> Option<(isize, isize)> {
        if x < 3 {
            return ((3 * x, 42)).into();
        } else {
            return (None).into();
        }
    }
    let (mut a, mut b) = t(1);
}
"#;
    assert_eq!(run(body), expected);
}

#[test]
fn lists_sets() {
    let body = vec![
        assign(name("a"), list(vec![])),
        assign(name("b"), list(vec![num("1"), num("2"), num("3")])),
        assign(name("is_in"), cmp(num("42"), vec![CmpOp::In], vec![name("b")])),
        assign(name("c"), Expr::Dict { keys: vec![], values: vec![] }),
        assign(name("d"), Expr::SetLiteral { elts: vec![num("1"), num("2"), num("3")] }),
        assign(name("e"), Expr::Dict { keys: vec![Some(string("a")), Some(string("b")), Some(string("c"))], values: vec![num("1"), num("2"), num("3")] }),
    ];
    let expected = r#"fn main() {
    let mut a = vec![];
    let mut b = vec![1, 2, 3];
    let mut is_in = b.into_iter().any(|v| v == 42);
    let mut c = HashMap::new();
    let mut d = [1, 2, 3].into_iter().collect::<HashSet<_>>();
    let mut e = ["a", "b", "c"]
        .into_iter()
        .zip([1, 2, 3].into_iter())
        .collect::<HashMap<_, _>>();
}
"#;
    assert_eq!(run(body), expected);
}

#[test]
fn lambda() {
    let body = vec![
        assign(name("times_two"), lam(vec!["x"], bin(name("x"), Operator::Mult, num("2")))),
        assign(name("twice"), call(name("times_two"), vec![num("3")])),
        assign(name("add"), lam(vec!["x", "y"], bin(name("x"), Operator::Add, name("y")))),
        expr(call(name("add"), vec![num("3"), num("4")])),
    ];
    let expected = r#"fn main() {
    let mut times_two = |x| { x * 2 };
    let mut twice = times_two(3);
    let mut add = |x, y| { x + y };
    add(3, 4);
}
"#;
    assert_eq!(run(body), expected);
}

#[test]
fn else_if() {
    let body = vec![
        assign(name("DEBUG"), boolean(true)),
        assign(name("res"), list(vec![])),
        if_(Expr::BoolOp { op: BoolOp::And, values: vec![name("DEBUG"), cmp(call(name("len"), vec![name("res")]), vec![CmpOp::Gt], vec![num("2")])] },
            vec![assign(name("a"), num("42")), expr(call(name("print"), vec![num("1")]))],
            vec![if_(name("DEBUG"), vec![expr(call(name("print"), vec![num("2")]))],
                vec![if_(name("DEBUG2"), vec![expr(call(name("print"), vec![num("3")]))],
                    vec![expr(call(name("print"), vec![string("inside else...")])), expr(call(name("print"), vec![num("4")]))])])]),
    ];
    let expected = r#"fn main() {
    let mut DEBUG = true;
    let mut res = vec![];
    if DEBUG && res.len() > 2 {
        let mut a = 42;
        println!("{:?}", 1);
    } else {
        if DEBUG {
            println!("{:?}", 2);
        } else {
            if DEBUG2 {
                println!("{:?}", 3);
            } else {
                println!("{:?}", "inside else...");
                println!("{:?}", 4);
            };
        };
    }
}
"#;
    assert_eq!(run(body), expected);
}

#[test]
fn control() {
    let body = vec![
        if_(name("TRUE"), vec![Stmt::Break, Stmt::Continue, Stmt::Pass], vec![]),
        Stmt::Assert { test: cmp(num("4"), vec![CmpOp::Eq], vec![bin(num("2"), Operator::Add, num("2"))]), msg: Some(string("Oh no")) },
    ];
    let expected = r#"fn main() {
    if TRUE {
        break;
        continue;
        todo!();
    }
    assert!(4 == 2 + 2, "Oh no");
}
"#;
    assert_eq!(run(body), expected);
}

#[test]
fn math_polyfill() {
    let body = vec![
        Stmt::Import { names: vec![alias("math", None)] },
        assign(name("arr"), list(vec![float("1.1"), float("2.1"), float("3.1")])),
        assign(name("total"), call(attr(name("math"), "pow"), vec![
            call(attr(name("math"), "sqrt"), vec![call(attr(name("math"), "cos"), vec![call(attr(name("math"), "sin"), vec![call(name("sum"), vec![name("arr")])])])]),
            float("32.1"),
        ])),
        expr(call(name("print"), vec![name("total")])),
    ];
    let expected = r#"fn main() {
    let mut arr = vec![1.1, 2.1, 3.1];
    let mut total = prelude::pow(
        prelude::sqrt(prelude::cos(prelude::sin(arr.iter().sum()))),
        32.1,
    );
    println!("{:?}", total);
    use prelude::{cos, pow, sin, sqrt};
    mod prelude {
        #[inline(always)]
        pub fn cos(v: f64) -> f64 {
            v.cos()
        }
        #[inline(always)]
        pub fn pow(a: f64, b: f64) -> f64 {
            a.powf(b)
        }
        #[inline(always)]
        pub fn sin(v: f64) -> f64 {
            v.sin()
        }
        #[inline(always)]
        pub fn sqrt(a: f64) -> f64 {
            a.sqrt()
        }
    }
}
"#;
    assert_eq!(run(body), expected);
}

#[test]
fn walrus() {
    let body = vec![
        if_(Expr::NamedExpr { target: bx(name("x")), value: bx(name("map")) },
            vec![expr(call(name("print"), vec![fstr(vec![string("map ("), fv(name("map")), string(") is "), fv(bin(subscript(name("res"), num("0")), Operator::Add, num("1")))])]))],
            vec![]),
    ];
    let expected = r#"fn main() {
    if let Some(x) = map {
        println!("{:?}", format!("{:?}{:?}{:?}{:?}", "map (", map, ") is ", res[0] + 1));
    }
}
"#;
    assert_eq!(run(body), expected);
}

#[test]
fn slicing() {
    let body = vec![
        assign(name("res2"), list(vec![num("1"), num("2"), num("3"), num("4")])),
        expr(call(name("print"), vec![
            subscript(name("res2"), slice(None, Some(num("3")), None)),
            subscript(name("res2"), slice(Some(num("1")), Some(num("2")), Some(num("30")))),
        ])),
    ];
    let expected = r#"fn main() {
    let mut res2 = vec![1, 2, 3, 4];
    println!("{:?}", res2[..3], res2[1..2.iter().step_by(30).collect::< Vec < _ >> ()]);
}
"#;
    assert_eq!(run(body), expected);
}

#[test]
fn json() {
    let body = vec![
        assign(name("foo_s"), call(attr(name("json"), "dumps"), vec![call(name("Foo"), vec![])])),
        assign(name("foo_instance"), call(attr(name("json"), "loads"), vec![name("foo_s")])),
    ];
    let expected = r#"fn main() {
    let mut foo_s = serde_json::to_string(Foo()).unwrap();
    let mut foo_instance = serde_json::from_string(foo_s).unwrap();
}
"#;
    assert_eq!(run(body), expected);
}

#[test]
fn zip() {
    let body = vec![
        assign(name("a_arr"), list(vec![num("1"), num("2"), num("3")])),
        assign(name("b_arr"), list(vec![num("4"), num("5"), num("6")])),
        assign(name("c_arr"), list(vec![num("7"), num("8"), num("9")])),
        for_(tuple(vec![name("a"), name("b"), name("c")]), call(name("zip"), vec![name("a_arr"), name("b_arr"), name("c_arr")]), vec![
            expr(call(name("print"), vec![fstr(vec![string("a: "), fv(name("a")), string(" b: "), fv(name("b")), string(", c:"), fv(name("c"))])])),
        ]),
    ];
    let expected = r#"fn main() {
    let mut a_arr = vec![1, 2, 3];
    let mut b_arr = vec![4, 5, 6];
    let mut c_arr = vec![7, 8, 9];
    for (a, b, c) in a_arr
        .iter()
        .zip(b_arr.iter())
        .zip(c_arr.iter())
        .map(|((a_arr, b_arr), c_arr)| (a_arr, b_arr, c_arr))
    {
        println!(
            "{:?}", format!("{:?}{:?}{:?}{:?}{:?}{:?}", "a: ", a, " b: ", b, ", c:", c)
        );
    }
}
"#;
    assert_eq!(run(body), expected);
}

#[test]
fn print_fmt() {
    let body = vec![
        assign(name("a"), num("3")),
        assign(name("b"), fstr(vec![string("b is "), fv(bin(num("2"), Operator::Pow, num("2")))])),
        expr(call(name("print"), vec![fstr(vec![string("a is "), fv(name("a"))])])),
    ];
    let expected = r#"fn main() {
    let mut a = 3;
    let mut b = format!("{:?}{:?}", "b is ", 2.powf(2));
    println!("{:?}", format!("{:?}{:?}", "a is ", a));
}
"#;
    assert_eq!(run(body), expected);
}

#[test]
fn type_alias() {
    let body = vec![
        typedef("PointFloat2", subscript(name("tuple"), tuple(vec![name("float"), name("float")]))),
        typedef("MaybeFloat", subscript(name("Optional"), name("float"))),
        typedef("ListOptionTuple", subscript(name("List"), subscript(name("Optional"), subscript(name("tuple"), tuple(vec![name("float"), name("str")]))))),
        typedef("DictIntStr", subscript(name("Dict"), tuple(vec![name("int"), name("str")]))),
    ];
    let expected = r#"fn main() {
    type PointFloat2 = (f64, f64);
    type MaybeFloat = Option<f64>;
    type ListOptionTuple = Vec<Option<(f64, String)>>;
    type DictIntStr = std::collections::HashMap<isize, String>;
}
"#;
    assert_eq!(run(body), expected);
}

#[test]
fn casts() {
    let body = vec![
        assign(name("i"), call(name("int"), vec![float("3.2")])),
        assign(name("f"), call(name("float"), vec![bin(num("3"), Operator::Add, num("1"))])),
        assign(name("s"), call(name("str"), vec![num("1")])),
    ];
    let expected = r#"fn main() {
    let mut i = ((3.2) as isize);
    let mut f = ((3 + 1) as f64);
    let mut s = 1.to_string();
}
"#;
    assert_eq!(run(body), expected);
}

#[test]
fn init() {
    let body = vec![
        class("A", vec![], vec![ann(name("i"), name("int")), ann(name("f"), name("float"))]),
        def("__init__", vec![("self", None), ("i", Some(name("int"))), ("f", Some(name("float")))], vec![
            assign(attr(name("self"), "i"), name("i")),
            assign(attr(name("self"), "f"), name("f")),
        ], Some(name("A"))),
    ];
    let expected = r#"fn main() {
    #[derive(Debug, Clone)]
    struct A {
        i: isize,
        f: f64,
    }
    fn __init__(&self, i: isize, f: f64) -> A {
        self.i = i;
        self.f = f;
    }
}
"#;
    assert_eq!(run(body), expected);
}

#[test]
fn delete() {
    let body = vec![
        assign(tuple(vec![name("a"), name("b")]), tuple(vec![num("1"), num("2")])),
        Stmt::Delete { targets: vec![name("a"), name("b")] },
    ];
    let expected = r#"fn main() {
    let (mut a, mut b) = (1, 2);
    drop(a);
    drop(b)
}
"#;
    assert_eq!(run(body), expected);
}

#[test]
fn bytes() {
    let body = vec![assign(name("hello_world"), Expr::Constant { value: Constant::Bytes(vec![0x7f, 0x45, 0x4c, 0x46, 0x01, 0x01, 0x01, 0x00]) })];
    let expected = r#"fn main() {
    let mut hello_world = b"\x7f\x45\x4c\x46\x01\x01\x01\x00";
}
"#;
    assert_eq!(run(body), expected);
}

#[test]
fn raise() {
    let body = vec![Stmt::Raise { exc: Some(call(name("Exception"), vec![string("hello")])), cause: None }];
    let expected = r#"fn main() {
    panic!("Exception("hello ")")
}
"#;
    assert_eq!(run(body), expected);
}

#[test]
fn try_except() {
    let body = vec![Stmt::Try {
        body: vec![ret(bin(num("3"), Operator::Div, num("0")))],
        handlers: vec![ExceptHandler { name: Some("e1".to_string()), body: vec![assign(name("val"), num("100")), ret(name("val"))] }],
        orelse: vec![],
        finalbody: vec![],
    }];
    let expected = r#"fn main() {
    try_it(|| {
        return 3 / 0;
    });
    catch_it(|e1| {
        let mut val = 100;
        return val;
    });
}
"#;
    assert_eq!(run(body), expected);
}

#[test]
fn kwargs() {
    let body = vec![
        def("foo", vec![("x", None), ("a", None), ("b", None), ("c", None)], vec![Stmt::Pass], None),
        expr(call_kw(name("foo"), vec![num("0")], vec![("a", num("1")), ("b", num("2")), ("c", num("3"))])),
    ];
    let expected = r#"fn main() {
    fn foo(x: (), a: (), b: (), c: ()) -> () {
        todo!()
    }
    foo(0, fooParams { a: 1, b: 2, c: 3 });
}
"#;
    assert_eq!(run(body), expected);
}

#[test]
fn compare() {
    let body = vec![
        assign(name("a"), cmp(num("3"), vec![CmpOp::Lt], vec![num("4")])),
        assign(name("b"), cmp(num("3"), vec![CmpOp::Lt, CmpOp::Lt], vec![num("4"), num("5")])),
    ];
    let expected = r#"fn main() {
    let mut a = 3 < 4;
    let mut b = 3 < 4 && 4 < 5;
}
"#;
    assert_eq!(run(body), expected);
}

#[test]
fn doc_comments() {
    let body = vec![def("add", vec![("a", None), ("b", None)], vec![
        expr(string("Adds two numbers\n    Arguments:\n        a : Number\n        b : Number\n    ")),
        ret(bin(name("a"), Operator::Add, name("b"))),
    ], None)];
    let expected = r#"fn main() {
    /*! Adds two numbers
    Arguments:
        a : Number
        b : Number
     */
    fn add(a: (), b: ()) -> () {
        return a + b;
    }
}
"#;
    assert_eq!(run(body), expected);
}

#[test]
fn duffinian() {
    let body = vec![
        def("factors", vec![("n", Some(name("int")))], vec![
            assign(name("factors"), list(vec![])),
            for_(name("i"), call(name("range"), vec![num("1"), bin(name("n"), Operator::Add, num("1"))]), vec![
                if_(cmp(bin(name("n"), Operator::Mod, name("i")), vec![CmpOp::Eq], vec![num("0")]),
                    vec![expr(call(attr(name("factors"), "append"), vec![name("i")]))], vec![]),
            ]),
            ret(name("factors")),
        ], Some(subscript(name("List"), name("int")))),
        def("gcd", vec![("a", Some(name("int"))), ("b", Some(name("int")))], vec![
            while_(cmp(name("b"), vec![CmpOp::NotEq], vec![num("0")]), vec![
                assign(tuple(vec![name("a"), name("b")]), tuple(vec![name("b"), bin(name("a"), Operator::Mod, name("b"))])),
            ], vec![]),
            ret(name("a")),
        ], Some(name("int"))),
        assign(name("is_relively_prime"), lam(vec!["a", "b"], cmp(call(name("gcd"), vec![name("a"), name("b")]), vec![CmpOp::Eq], vec![num("1")]))),
        assign(name("sigma_sum"), lam(vec!["x"], call(name("sum"), vec![call(name("factors"), vec![name("x")])]))),
        assign(name("is_duffinian"), lam(vec!["x"], Expr::BoolOp { op: BoolOp::And, values: vec![
            call(name("is_relively_prime"), vec![name("x"), call(name("sigma_sum"), vec![name("x")])]),
            cmp(call(name("len"), vec![call(name("factors"), vec![name("x")])]), vec![CmpOp::Gt], vec![num("2")]),
        ] })),
        assign(name("count"), num("0")),
        assign(name("i"), num("0")),
        while_(cmp(name("count"), vec![CmpOp::Lt], vec![num("50")]), vec![
            if_(call(name("is_duffinian"), vec![name("i")]), vec![
                expr(call(name("print"), vec![name("i")])),
                aug(name("count"), Operator::Add, num("1")),
            ], vec![]),
            aug(name("i"), Operator::Add, num("1")),
        ], vec![]),
        assign(name("count2"), num("0")),
        assign(name("j"), num("0")),
        while_(cmp(name("count2"), vec![CmpOp::Lt], vec![num("20")]), vec![
            if_(Expr::BoolOp { op: BoolOp::And, values: vec![
                call(name("is_duffinian"), vec![name("j")]),
                call(name("is_duffinian"), vec![bin(name("j"), Operator::Add, num("1"))]),
                call(name("is_duffinian"), vec![bin(name("j"), Operator::Add, num("2"))]),
            ] }, vec![
                expr(call(name("print"), vec![fstr(vec![string("("), fv(name("j")), string(","), fv(bin(name("j"), Operator::Add, num("1"))), string(","), fv(bin(name("j"), Operator::Add, num("2"))), string(")")])])),
                aug(name("count2"), Operator::Add, num("1")),
                aug(name("j"), Operator::Add, num("3")),
            ], vec![]),
            aug(name("j"), Operator::Add, num("1")),
        ], vec![]),
    ];
    let expected = r#"fn main() {
    fn factors(n: isize) -> Vec<isize> {
        let mut factors = vec![];
        for i in (1..n + 1) {
            if n % i == 0 {
                factors.push(i);
            }
        }
        return factors;
    }
    fn gcd(a: isize, b: isize) -> isize {
        while b != 0 {
            let (mut a, mut b) = (b, a % b);
        }
        return a;
    }
    let mut is_relively_prime = |a, b| { gcd(a, b) == 1 };
    let mut sigma_sum = |x| { factors(x).iter().sum() };
    let mut is_duffinian = |x| {
        is_relively_prime(x, sigma_sum(x)) && factors(x).len() > 2
    };
    let mut count = 0;
    let mut i = 0;
    while count < 50 {
        if is_duffinian(i) {
            println!("{:?}", i);
            count += 1;
        }
        i += 1;
    }
    let mut count2 = 0;
    let mut j = 0;
    while count2 < 20 {
        if is_duffinian(j) && is_duffinian(j + 1) && is_duffinian(j + 2) {
            println!(
                "{:?}", format!("{:?}{:?}{:?}{:?}{:?}{:?}{:?}", "(", j, ",", j + 1, ",",
                j + 2, ")")
            );
            count2 += 1;
            j += 3;
        }
        j += 1;
    }
}
"#;
    assert_eq!(run(body), expected);
}

#[test]
fn fizzbufzz() {
    let body = vec![expr(list_comp(
        ifexp(cmp(bin(name("i"), Operator::Mod, num("15")), vec![CmpOp::Eq], vec![num("0")]), call(name("print"), vec![string("FizzBuzz")]),
            ifexp(cmp(bin(name("i"), Operator::Mod, num("3")), vec![CmpOp::Eq], vec![num("0")]), call(name("print"), vec![string("Fizz")]),
                ifexp(cmp(bin(name("i"), Operator::Mod, num("5")), vec![CmpOp::Eq], vec![num("0")]), call(name("print"), vec![string("Buzz")]),
                    call(name("print"), vec![name("i")])))),
        comp(name("i"), call(name("range"), vec![num("1"), num("101")]), vec![]),
    ))];
    let expected = r#"fn main() {
    (1..101)
        .into_iter()
        .map(|i| {
            if i % 15 == 0 {
                println!("{:?}", "FizzBuzz")
            } else {
                if i % 3 == 0 {
                    println!("{:?}", "Fizz")
                } else {
                    if i % 5 == 0 {
                        println!("{:?}", "Buzz")
                    } else {
                        println!("{:?}", i)
                    }
                }
            }
        })
        .collect::<Vec<_>>();
}
"#;
    assert_eq!(run(body), expected);
}

#[test]
fn generator_expression() {
    let body = vec![expr(call(name("sum"), vec![Expr::GeneratorExp {
        elt: bx(bin(name("x"), Operator::Mult, name("x"))),
        generators: vec![comp(name("x"), call(name("range"), vec![num("10")]), vec![])],
    }]))];
    let expected = r#"fn main() {
    (0..10).into_iter().map(|x| { x * x }).iter().sum();
}
"#;
    assert_eq!(run(body), expected);
}

#[test]
fn basic_rust_decorator() {
    let body = vec![def("math_arr_np", vec![
            ("a", Some(name("f64"))),
            ("x", Some(subscript(name("NpReadonlyArrayDyn"), name("f64")))),
            ("y", Some(subscript(name("NpReadonlyArrayDyn"), name("f64")))),
        ], vec![ret(bin(bin(name("a"), Operator::Mult, name("x")), Operator::Add, name("y")))],
        Some(subscript(name("NpArrayDyn"), name("f64"))))];
    let expected = r#"fn main() {
    fn math_arr_np<'py>(
        py: pyo3::Python<'py>,
        a: f64,
        x: numpy::PyReadonlyArrayDyn<f64>,
        y: numpy::PyReadonlyArrayDyn<f64>,
    ) -> &'py numpy::PyArrayDyn<f64> {
        let x = x.as_array().to_owned();
        let y = y.as_array().to_owned();
        return (a * x + y).into_pyarray(py);
    }
}
"#;
    assert_eq!(run(body), expected);
}

#[test]
fn imports() {
    let body = vec![
        Stmt::ImportFrom { module: Some("math".to_string()), names: vec![alias("sin", Some("foo")), alias("cos", None), alias("pi", Some("mypi"))], level: 0 },
        Stmt::Import { names: vec![alias("math", Some("math"))] },
        assign(name("sin_of_pi"), call(attr(name("math"), "abs"), vec![call(name("cos"), vec![call(name("foo"), vec![name("mypi")])])])),
        expr(call(name("print"), vec![name("sin_of_pi")])),
    ];
    let expected = r#"fn main() {
    let mut sin_of_pi = prelude::abs(cos(foo(mypi)));
    println!("{:?}", sin_of_pi);
    use prelude::{abs, cos, pi as mypi, sin as foo};
    mod prelude {
        #[inline(always)]
        pub fn abs(a: f64) -> f64 {
            a.abs()
        }
        #[inline(always)]
        pub fn cos(v: f64) -> f64 {
            v.cos()
        }
        pub const pi: f64 = std::f64::consts::PI;
        #[inline(always)]
        pub fn sin(v: f64) -> f64 {
            v.sin()
        }
    }
}
"#;
    assert_eq!(run(body), expected);
}
