//! Properties of the translation that hold for all inputs, proved from the
//! rules' specifications.
use vstd::prelude::*;
use crate::ast::{CmpOp, Comprehension, Constant, Expr, Keyword, Stmt};
use crate::context::{fresh_ctx, CtxView};
use crate::error::{fail, Rule, TranspileError};
use crate::operators::cmp_op_text;
use crate::expr_spec::{
    collect_suffix, attribute_out, call_dispatch, call_out, kw_names, comp_elt_out, comp_out, compare_out, compare_parts, expr_out, exprs_out,
    tuple_out,
};
use crate::stmt_spec::{fndef_out, class_out, is_enum_class, members_allowed, selected_out, stmt_out, stmts_out};
use crate::text::{concat, joined};
use crate::translate::{terminated, transpile};

verus! {

/// Assigning an integer literal to a name declares a fresh mutable binding of
/// that name to the literal, whatever bindings of the name came before.
pub proof fn law_int_literal_binding(targets: Vec<Expr>, name: String, digits: String, c: CtxView)
    requires
        targets@ == seq![Expr::Name { id: name }],
        !c.in_enum,
    ensures
        stmt_out(
            Stmt::Assign { targets, value: Expr::Constant { value: Constant::Int(digits) } },
            c,
        ) == Ok::<(Seq<char>, CtxView), TranspileError>(
            (
                "let "@ + ("mut "@ + name@) + " = "@ + digits@ + ";\n"@,
                CtxView { declare_var_mut: false, ..c },
            ),
        ),
{
}

/// A member access on a name lowers to a qualified variant exactly when an
/// enumeration of that name has been declared before it; otherwise it is a
/// plain attribute path.
pub proof fn law_enum_member_reference(cls: String, member: String, c: CtxView)
    requires
        !c.declare_var_mut,
        member@ != "append"@,
    ensures
        expr_out(Expr::Attribute { value: Box::new(Expr::Name { id: cls }), attr: member }, c)
            == Ok::<(Seq<char>, CtxView), TranspileError>(
            (
                if c.enums.contains(cls@) {
                    cls@ + "::"@ + member@
                } else {
                    cls@ + "."@ + member@
                },
                c,
            ),
        ),
{
    let e = Expr::Attribute { value: Box::new(Expr::Name { id: cls }), attr: member };
    assert(expr_out(Expr::Name { id: cls }, c) == Ok::<(Seq<char>, CtxView), TranspileError>((cls@, c)));
    assert(expr_out(e, c) == attribute_out(e, c));
}

/// An enumeration declared with two members, then referenced by a later
/// assignment: the reference lowers to the qualified variant, because the
/// declaration registered the enumeration before it.
#[verifier::rlimit(40)]
pub proof fn law_enum_declared_then_referenced(
    cls: String,
    marker: String,
    m1: String,
    v1: String,
    m2: String,
    v2: String,
    x: String,
    bases: Vec<Expr>,
    t1: Vec<Expr>,
    t2: Vec<Expr>,
    body: Vec<Stmt>,
    tx: Vec<Expr>,
    program: Seq<Stmt>,
    c: CtxView,
)
    requires
        marker@ == "Enum"@,
        bases@ == seq![Expr::Name { id: marker }],
        t1@ == seq![Expr::Name { id: m1 }],
        t2@ == seq![Expr::Name { id: m2 }],
        body@ == seq![
            Stmt::Assign { targets: t1, value: Expr::Constant { value: Constant::Int(v1) } },
            Stmt::Assign { targets: t2, value: Expr::Constant { value: Constant::Int(v2) } },
        ],
        tx@ == seq![Expr::Name { id: x }],
        program == seq![
            Stmt::ClassDef { name: cls, bases, body },
            Stmt::Assign {
                targets: tx,
                value: Expr::Attribute { value: Box::new(Expr::Name { id: cls }), attr: m1 },
            },
        ],
        m1@ != "append"@,
        !c.in_enum,
        !c.declare_var_mut,
    ensures
        stmts_out(program, c) is Ok,
        stmts_out(program, c)->Ok_0.0[1] == "let "@ + ("mut "@ + x@) + " = "@ + (cls@ + "::"@ + m1@)
            + ";\n"@,
{
    let s0 = program[0];
    let s1 = program[1];
    let c0 = CtxView { enums: c.enums.push(cls@), in_enum: true, ..c };
    let c1 = CtxView { in_enum: false, ..c0 };
    assert(bases@[0] matches Expr::Name { id } && id@ == "Enum"@);
    assert(is_enum_class(bases@));
    assert(members_allowed(body@, true));
    let b = body@;
    let a1 = b[0];
    let a2 = b[1];
    assert(expr_out(Expr::Name { id: m1 }, c0) == Ok::<(Seq<char>, CtxView), TranspileError>((m1@, c0)));
    assert(expr_out(Expr::Name { id: m2 }, c0) == Ok::<(Seq<char>, CtxView), TranspileError>((m2@, c0)));
    assert(expr_out(Expr::Constant { value: Constant::Int(v1) }, c0) == Ok::<(Seq<char>, CtxView), TranspileError>((v1@, c0)));
    assert(expr_out(Expr::Constant { value: Constant::Int(v2) }, c0) == Ok::<(Seq<char>, CtxView), TranspileError>((v2@, c0)));
    assert(stmt_out(a1, c0) == Ok::<(Seq<char>, CtxView), TranspileError>((m1@ + " = "@ + v1@, c0)));
    assert(stmt_out(a2, c0) == Ok::<(Seq<char>, CtxView), TranspileError>((m2@ + " = "@ + v2@, c0)));
    assert(b.drop_first()[0] == a2);
    assert(b.drop_first().drop_first() =~= Seq::<Stmt>::empty());
    assert(selected_out(b.drop_first().drop_first(), false, c0) == Ok::<(Seq<Seq<char>>, CtxView), TranspileError>((Seq::empty(), c0)));
    assert(selected_out(b.drop_first(), false, c0) is Ok);
    assert(selected_out(b, false, c0) is Ok);
    assert(selected_out(b.drop_first().drop_first(), true, c1) == Ok::<(Seq<Seq<char>>, CtxView), TranspileError>((Seq::empty(), c1)));
    assert(selected_out(b.drop_first(), true, c1) == selected_out(b.drop_first().drop_first(), true, c1));
    assert(selected_out(b, true, c1) == selected_out(b.drop_first(), true, c1));
    assert(selected_out(b, false, c0)->Ok_0.1 == c0);
    assert(stmt_out(s0, c) == class_out(s0, c));
    assert(stmt_out(s0, c) is Ok);
    assert(stmt_out(s0, c)->Ok_0.1 == c1);
    assert(c1.enums.contains(cls@)) by {
        assert(c1.enums[c1.enums.len() - 1] == cls@);
    }
    let value = Expr::Attribute { value: Box::new(Expr::Name { id: cls }), attr: m1 };
    assert(expr_out(Expr::Name { id: cls }, c1) == Ok::<(Seq<char>, CtxView), TranspileError>((cls@, c1)));
    assert(expr_out(value, c1) == attribute_out(value, c1));
    let cm = CtxView { declare_var_mut: true, ..c1 };
    assert(expr_out(Expr::Name { id: x }, cm) == Ok::<(Seq<char>, CtxView), TranspileError>(("mut "@ + x@, cm)));
    let t = "let "@ + ("mut "@ + x@) + " = "@ + (cls@ + "::"@ + m1@) + ";\n"@;
    let c2 = CtxView { declare_var_mut: false, ..cm };
    assert(stmt_out(s1, c1) == Ok::<(Seq<char>, CtxView), TranspileError>((t, c2)));
    assert(program.drop_first()[0] == s1);
    assert(program.drop_first().drop_first() =~= Seq::<Stmt>::empty());
    assert(stmts_out(program.drop_first().drop_first(), c2) == Ok::<(Seq<Seq<char>>, CtxView), TranspileError>((Seq::empty(), c2)));
    assert(seq![t] + Seq::<Seq<char>>::empty() =~= seq![t]);
    assert(stmts_out(program.drop_first(), c1) == Ok::<(Seq<Seq<char>>, CtxView), TranspileError>((seq![t], c2)));
}

/// A comprehension with one clause and no filter lowers to map-then-collect.
pub proof fn law_comprehension_map(
    elt: Expr,
    generators: Vec<Comprehension>,
    b: Seq<char>,
    it: Seq<char>,
    tg: Seq<char>,
    c: CtxView,
    c1: CtxView,
    c2: CtxView,
    c3: CtxView,
)
    requires
        generators@.len() == 1,
        generators@[0].ifs@.len() == 0,
        expr_out(elt, c) == Ok::<(Seq<char>, CtxView), TranspileError>((b, c1)),
        expr_out(generators@[0].iter, c1) == Ok::<(Seq<char>, CtxView), TranspileError>((it, c2)),
        expr_out(generators@[0].target, c2) == Ok::<(Seq<char>, CtxView), TranspileError>((tg, c3)),
    ensures
        expr_out(Expr::ListComp { elt: Box::new(elt), generators }, c) == Ok::<
            (Seq<char>, CtxView),
            TranspileError,
        >((it + ".into_iter().map(|"@ + tg + "| { "@ + b + " })"@ + (".collect::<"@ + "Vec::<_>"@ + ">()"@), c3)),
{
    let e = Expr::ListComp { elt: Box::new(elt), generators };
    assert(expr_out(e, c) == comp_out(e, c));
    assert(comp_elt_out(e, c) == expr_out(elt, c));
}

/// A comprehension with one clause and one filter lowers to
/// filter-map-then-collect, the filter being an optional-returning closure.
pub proof fn law_comprehension_filter_map(
    elt: Expr,
    generators: Vec<Comprehension>,
    b: Seq<char>,
    cond: Seq<char>,
    it: Seq<char>,
    tg: Seq<char>,
    c: CtxView,
    c1: CtxView,
    c2: CtxView,
    c3: CtxView,
    c4: CtxView,
)
    requires
        generators@.len() == 1,
        generators@[0].ifs@.len() == 1,
        expr_out(elt, c) == Ok::<(Seq<char>, CtxView), TranspileError>((b, c1)),
        expr_out(generators@[0].ifs@[0], c1) == Ok::<(Seq<char>, CtxView), TranspileError>((cond, c2)),
        expr_out(generators@[0].iter, c2) == Ok::<(Seq<char>, CtxView), TranspileError>((it, c3)),
        expr_out(generators@[0].target, c3) == Ok::<(Seq<char>, CtxView), TranspileError>((tg, c4)),
    ensures
        expr_out(Expr::ListComp { elt: Box::new(elt), generators }, c) == Ok::<
            (Seq<char>, CtxView),
            TranspileError,
        >(
            (
                it + ".into_iter().filter_map(|"@ + tg + "| { "@ + ("if "@ + cond + " { Some("@ + b
                    + ") } else { None } "@) + " })"@ + (".collect::<"@ + "Vec::<_>"@ + ">()"@),
                c4,
            ),
        ),
{
    let e = Expr::ListComp { elt: Box::new(elt), generators };
    assert(expr_out(e, c) == comp_out(e, c));
    assert(comp_elt_out(e, c) == expr_out(elt, c));
}

/// A comprehension with two generator clauses is rejected.
pub proof fn law_nested_comprehension_rejected(elt: Expr, generators: Vec<Comprehension>, c: CtxView)
    requires
        generators@.len() == 2,
    ensures
        expr_out(Expr::ListComp { elt: Box::new(elt), generators }, c) == Err::<
            (Seq<char>, CtxView),
            TranspileError,
        >(fail(Rule::NestedComprehension)),
{
    let e = Expr::ListComp { elt: Box::new(elt), generators };
    assert(expr_out(e, c) == comp_out(e, c));
}

/// Assigning to a pair of names destructures into two fresh mutable
/// bindings.
pub proof fn law_tuple_unpacking(
    targets: Vec<Expr>,
    elts: Vec<Expr>,
    a: String,
    b: String,
    value: Expr,
    v: Seq<char>,
    c: CtxView,
    c1: CtxView,
)
    requires
        targets@ == seq![Expr::Tuple { elts }],
        elts@ == seq![Expr::Name { id: a }, Expr::Name { id: b }],
        !c.in_enum,
        expr_out(value, c) == Ok::<(Seq<char>, CtxView), TranspileError>((v, c1)),
    ensures
        stmt_out(Stmt::Assign { targets, value }, c) == Ok::<(Seq<char>, CtxView), TranspileError>(
            (
                "let "@ + ("("@ + joined(seq!["mut "@ + a@, "mut "@ + b@], ""@, ""@, ", "@) + ")"@)
                    + " = "@ + v + ";\n"@,
                CtxView { declare_var_mut: false, ..c1 },
            ),
        ),
{
    let ct = CtxView { declare_var_mut: true, ..c1 };
    let t = Expr::Tuple { elts };
    assert(elts@.drop_first() =~= seq![Expr::Name { id: b }]);
    assert(elts@.drop_first().drop_first() =~= Seq::<Expr>::empty());
    assert(expr_out(Expr::Name { id: a }, ct) == Ok::<(Seq<char>, CtxView), TranspileError>(("mut "@ + a@, ct)));
    assert(expr_out(Expr::Name { id: b }, ct) == Ok::<(Seq<char>, CtxView), TranspileError>(("mut "@ + b@, ct)));
    assert(exprs_out(elts@.drop_first().drop_first(), ct) == Ok::<
        (Seq<Seq<char>>, CtxView),
        TranspileError,
    >((Seq::empty(), ct)));
    assert(seq!["mut "@ + b@] + Seq::<Seq<char>>::empty() =~= seq!["mut "@ + b@]);
    assert(exprs_out(elts@.drop_first(), ct) == Ok::<(Seq<Seq<char>>, CtxView), TranspileError>(
        (seq!["mut "@ + b@], ct),
    ));
    assert(seq!["mut "@ + a@] + seq!["mut "@ + b@] =~= seq!["mut "@ + a@, "mut "@ + b@]);
    assert(exprs_out(elts@, ct) == Ok::<(Seq<Seq<char>>, CtxView), TranspileError>(
        (seq!["mut "@ + a@, "mut "@ + b@], ct),
    ));
    assert(expr_out(t, ct) == tuple_out(t, ct));
}

/// A chain `a < b < c` lowers to the conjunction of its two windows.
pub proof fn law_chained_comparison(
    left: Expr,
    ops: Vec<CmpOp>,
    comparators: Vec<Expr>,
    ta: Seq<char>,
    tb: Seq<char>,
    tc: Seq<char>,
    c: CtxView,
    c1: CtxView,
    c2: CtxView,
    c3: CtxView,
)
    requires
        ops@ == seq![CmpOp::Lt, CmpOp::Lt],
        comparators@.len() == 2,
        expr_out(left, c) == Ok::<(Seq<char>, CtxView), TranspileError>((ta, c1)),
        expr_out(comparators@[0], c1) == Ok::<(Seq<char>, CtxView), TranspileError>((tb, c2)),
        expr_out(comparators@[1], c2) == Ok::<(Seq<char>, CtxView), TranspileError>((tc, c3)),
    ensures
        expr_out(Expr::Compare { left: Box::new(left), ops, comparators }, c) == Ok::<
            (Seq<char>, CtxView),
            TranspileError,
        >((joined(seq![ta + " "@ + "<"@ + " "@ + tb, tb + " "@ + "<"@ + " "@ + tc], ""@, ""@, "&&"@), c3)),
{
    let e = Expr::Compare { left: Box::new(left), ops, comparators };
    assert(expr_out(e, c) == compare_out(e, c));
    let cs = comparators@;
    assert(cs.drop_first().drop_first() =~= Seq::<Expr>::empty());
    assert(exprs_out(cs.drop_first().drop_first(), c3) == Ok::<
        (Seq<Seq<char>>, CtxView),
        TranspileError,
    >((Seq::empty(), c3)));
    assert(seq![tc] + Seq::<Seq<char>>::empty() =~= seq![tc]);
    assert(exprs_out(cs.drop_first(), c2) == Ok::<(Seq<Seq<char>>, CtxView), TranspileError>(
        (seq![tc], c3),
    ));
    assert(cs.drop_first()[0] == cs[1]);
    assert(seq![tb] + seq![tc] =~= seq![tb, tc]);
    assert(exprs_out(cs, c1) == Ok::<(Seq<Seq<char>>, CtxView), TranspileError>(
        (seq![tb, tc], c3),
    ));
    assert(seq![ta] + seq![tb, tc] =~= seq![ta, tb, tc]);
    assert(compare_parts(ops@, seq![ta, tb, tc]) =~= seq![
        ta + " "@ + "<"@ + " "@ + tb,
        tb + " "@ + "<"@ + " "@ + tc,
    ]);
}

/// Raising a constructor call aborts with a message naming the exception and
/// its arguments.
pub proof fn law_raise_message(
    exc: String,
    args: Vec<Expr>,
    keywords: Vec<Keyword>,
    a: Seq<Seq<char>>,
    c: CtxView,
    c1: CtxView,
)
    requires
        exprs_out(args@, c) == Ok::<(Seq<Seq<char>>, CtxView), TranspileError>((a, c1)),
    ensures
        stmt_out(
            Stmt::Raise {
                exc: Some(Expr::Call { func: Box::new(Expr::Name { id: exc }), args, keywords }),
                cause: None,
            },
            c,
        ) == Ok::<(Seq<char>, CtxView), TranspileError>(
            ("panic!(\""@ + exc@ + "("@ + joined(a, ""@, ""@, ","@) + ")\")"@, c1),
        ),
{
}

/// A bare raise aborts with no message.
pub proof fn law_bare_raise(c: CtxView)
    ensures
        stmt_out(Stmt::Raise { exc: None, cause: None }, c) == Ok::<(Seq<char>, CtxView), TranspileError>(
            ("panic!()"@, c),
        ),
{
}

/// A run starts from a fresh state: a call through the math module in a run
/// that did not import it stays a plain call, and nothing is recorded.
pub proof fn law_no_import_without_import(
    module: String,
    attr: String,
    x: String,
    args: Vec<Expr>,
    keywords: Vec<Keyword>,
    body: Vec<Stmt>,
)
    requires
        module@ == "math"@,
        attr@ != "append"@,
        args@ == seq![Expr::Name { id: x }],
        keywords@.len() == 0,
        body@ == seq![
            Stmt::Expr {
                value: Expr::Call {
                    func: Box::new(Expr::Attribute { value: Box::new(Expr::Name { id: module }), attr }),
                    args,
                    keywords,
                },
            },
        ],
    ensures
        transpile(body@, fresh_ctx()) == Ok::<(Seq<char>, CtxView), TranspileError>(
            (
                concat(
                    seq![module@ + "."@ + attr@ + "("@ + joined(seq![x@], ""@, ""@, ", "@) + ")"@ + ";\n"@],
                ) + Seq::empty() + "\n"@ + Seq::empty(),
                fresh_ctx(),
            ),
        ),
{
    let c = fresh_ctx();
    let f = module@ + "."@ + attr@;
    let func = Expr::Attribute { value: Box::new(Expr::Name { id: module }), attr };
    let call = Expr::Call { func: Box::new(func), args, keywords };
    assert(expr_out(Expr::Name { id: module }, c) == Ok::<(Seq<char>, CtxView), TranspileError>((module@, c)));
    assert(expr_out(Expr::Name { id: x }, c) == Ok::<(Seq<char>, CtxView), TranspileError>((x@, c)));
    assert(expr_out(func, c) == attribute_out(func, c));
    assert(expr_out(call, c) == call_out(call, c));
    assert(stmt_out(body@[0], c) == expr_out(call, c));
    reveal_strlit("math");
    reveal_strlit("print");
    reveal_strlit("enumerate");
    reveal_strlit("zip");
    reveal_strlit("str");
    reveal_strlit("len");
    reveal_strlit("sum");
    reveal_strlit("int");
    reveal_strlit("float");
    reveal_strlit("range");
    reveal_strlit("json.loads");
    reveal_strlit("json.dumps");
    reveal_strlit("np.");
    assert(f[0] == 'm');
    assert(f != "print"@ && f != "enumerate"@ && f != "zip"@ && f != "str"@ && f != "len"@);
    assert(f != "sum"@ && f != "int"@ && f != "float"@ && f != "range"@);
    assert(f != "json.loads"@ && f != "json.dumps"@);
    assert(!crate::text::starts(f, "np."@)) by {
        assert(f.subrange(0, 3)[0] == 'm');
    }
    assert(!c.enums.contains(module@));
    assert(args@.drop_first() =~= Seq::<Expr>::empty());
    assert(seq![x@] + Seq::<Seq<char>>::empty() =~= seq![x@]);
    assert(body@.drop_first() =~= Seq::<Stmt>::empty());
    assert(exprs_out(args@.drop_first(), c) == Ok::<(Seq<Seq<char>>, CtxView), TranspileError>((Seq::empty(), c)));
    assert(exprs_out(args@, c) == Ok::<(Seq<Seq<char>>, CtxView), TranspileError>((seq![x@], c)));
    assert(expr_out(func, c) == Ok::<(Seq<char>, CtxView), TranspileError>((f, c)));
    let t = f + "("@ + joined(seq![x@], ""@, ""@, ", "@) + ")"@;
    assert(call_dispatch(func, f, seq![x@], kw_names(keywords@), Seq::empty(), c) == Ok::<(Seq<char>, CtxView), TranspileError>((t, c)));
    assert(expr_out(call, c) == Ok::<(Seq<char>, CtxView), TranspileError>((t, c)));
    assert(seq![t] + Seq::<Seq<char>>::empty() =~= seq![t]);
    assert(stmts_out(body@.drop_first(), c) == Ok::<(Seq<Seq<char>>, CtxView), TranspileError>((Seq::empty(), c)));
    assert(stmts_out(body@, c) == Ok::<(Seq<Seq<char>>, CtxView), TranspileError>((seq![t], c)));
    assert(terminated(body@, seq![t]) =~= seq![t + ";\n"@]);
}

/// A function definition leaves the enclosing scope's transient state as it
/// found it: return promotion, staged array parameters and mutability flag.
pub proof fn law_function_restores_transients(s: Stmt, c: CtxView)
    requires
        s is FunctionDef,
        stmt_out(s, c) is Ok,
    ensures
        stmt_out(s, c)->Ok_0.1.promotion == c.promotion,
        stmt_out(s, c)->Ok_0.1.array_args == c.array_args,
        stmt_out(s, c)->Ok_0.1.declare_var_mut == c.declare_var_mut,
{
    assert(stmt_out(s, c) == fndef_out(s, c));
}

/// A member access on any receiver lowers to a qualified variant exactly when
/// the receiver's text names a declared enumeration; otherwise to a push for
/// `append`, else to a plain attribute path.
pub proof fn law_member_reference(value: Expr, attr: String, v: Seq<char>, c: CtxView, c1: CtxView)
    requires
        expr_out(value, c) == Ok::<(Seq<char>, CtxView), TranspileError>((v, c1)),
    ensures
        expr_out(Expr::Attribute { value: Box::new(value), attr }, c) == Ok::<
            (Seq<char>, CtxView),
            TranspileError,
        >(
            (
                if c1.enums.contains(v) {
                    v + "::"@ + attr@
                } else if attr@ == "append"@ {
                    v + ".push"@
                } else {
                    v + "."@ + attr@
                },
                c1,
            ),
        ),
{
    let e = Expr::Attribute { value: Box::new(value), attr };
    assert(expr_out(e, c) == attribute_out(e, c));
}

/// A comparison chain of any length lowers to the conjunction of its windows
/// over the operand texts: each relational window is `l op r`, never one
/// n-ary relation.
pub proof fn law_comparison_chain(
    left: Expr,
    ops: Vec<CmpOp>,
    comparators: Vec<Expr>,
    l: Seq<char>,
    ts: Seq<Seq<char>>,
    c: CtxView,
    c1: CtxView,
    c2: CtxView,
)
    requires
        ops@.len() == comparators@.len(),
        expr_out(left, c) == Ok::<(Seq<char>, CtxView), TranspileError>((l, c1)),
        exprs_out(comparators@, c1) == Ok::<(Seq<Seq<char>>, CtxView), TranspileError>((ts, c2)),
    ensures
        expr_out(Expr::Compare { left: Box::new(left), ops, comparators }, c) == Ok::<
            (Seq<char>, CtxView),
            TranspileError,
        >((joined(compare_parts(ops@, seq![l] + ts), ""@, ""@, "&&"@), c2)),
        forall|k: int|
            0 <= k < ops@.len() && (#[trigger] cmp_op_text(ops@[k])) is Some ==> compare_parts(
                ops@,
                seq![l] + ts,
            )[k] == (seq![l] + ts)[k] + " "@ + cmp_op_text(ops@[k])->Some_0 + " "@ + (seq![l]
                + ts)[k + 1],
{
    let e = Expr::Compare { left: Box::new(left), ops, comparators };
    assert(expr_out(e, c) == compare_out(e, c));
}

/// The clauses of a comprehension of any kind.
pub open spec fn comp_generators(e: Expr) -> Seq<Comprehension> {
    match e {
        Expr::ListComp { generators, .. } => generators@,
        Expr::SetComp { generators, .. } => generators@,
        Expr::DictComp { generators, .. } => generators@,
        Expr::GeneratorExp { generators, .. } => generators@,
        _ => Seq::empty(),
    }
}

/// Any comprehension (list, set, mapping or generator) with one clause and no
/// filter lowers to map-then-collect, collecting into its kind's collection.
pub proof fn law_any_comprehension_map(
    e: Expr,
    b: Seq<char>,
    it: Seq<char>,
    tg: Seq<char>,
    c: CtxView,
    c1: CtxView,
    c2: CtxView,
    c3: CtxView,
)
    requires
        e is ListComp || e is SetComp || e is DictComp || e is GeneratorExp,
        comp_generators(e).len() == 1,
        comp_generators(e)[0].ifs@.len() == 0,
        comp_elt_out(e, c) == Ok::<(Seq<char>, CtxView), TranspileError>((b, c1)),
        expr_out(comp_generators(e)[0].iter, c1) == Ok::<(Seq<char>, CtxView), TranspileError>((it, c2)),
        expr_out(comp_generators(e)[0].target, c2) == Ok::<(Seq<char>, CtxView), TranspileError>((tg, c3)),
    ensures
        expr_out(e, c) == Ok::<(Seq<char>, CtxView), TranspileError>(
            (it + ".into_iter().map(|"@ + tg + "| { "@ + b + " })"@ + collect_suffix(e), c3),
        ),
{
    assert(expr_out(e, c) == comp_out(e, c));
}

/// Any comprehension with one clause and one filter lowers to
/// filter-map-then-collect, the filter being an optional-returning closure.
pub proof fn law_any_comprehension_filter_map(
    e: Expr,
    b: Seq<char>,
    cond: Seq<char>,
    it: Seq<char>,
    tg: Seq<char>,
    c: CtxView,
    c1: CtxView,
    c2: CtxView,
    c3: CtxView,
    c4: CtxView,
)
    requires
        e is ListComp || e is SetComp || e is DictComp || e is GeneratorExp,
        comp_generators(e).len() == 1,
        comp_generators(e)[0].ifs@.len() == 1,
        comp_elt_out(e, c) == Ok::<(Seq<char>, CtxView), TranspileError>((b, c1)),
        expr_out(comp_generators(e)[0].ifs@[0], c1) == Ok::<(Seq<char>, CtxView), TranspileError>((cond, c2)),
        expr_out(comp_generators(e)[0].iter, c2) == Ok::<(Seq<char>, CtxView), TranspileError>((it, c3)),
        expr_out(comp_generators(e)[0].target, c3) == Ok::<(Seq<char>, CtxView), TranspileError>((tg, c4)),
    ensures
        expr_out(e, c) == Ok::<(Seq<char>, CtxView), TranspileError>(
            (
                it + ".into_iter().filter_map(|"@ + tg + "| { "@ + ("if "@ + cond + " { Some("@ + b
                    + ") } else { None } "@) + " })"@ + collect_suffix(e),
                c4,
            ),
        ),
{
    assert(expr_out(e, c) == comp_out(e, c));
}

/// The element of a mapping comprehension is the pair of its key and value.
pub proof fn law_mapping_comprehension_pair(
    key: Expr,
    value: Expr,
    generators: Vec<Comprehension>,
    k: Seq<char>,
    v: Seq<char>,
    c: CtxView,
    c1: CtxView,
    c2: CtxView,
)
    requires
        expr_out(key, c) == Ok::<(Seq<char>, CtxView), TranspileError>((k, c1)),
        expr_out(value, c1) == Ok::<(Seq<char>, CtxView), TranspileError>((v, c2)),
    ensures
        comp_elt_out(Expr::DictComp { key: Box::new(key), value: Box::new(value), generators }, c)
            == Ok::<(Seq<char>, CtxView), TranspileError>(("("@ + k + ", "@ + v + ")"@, c2)),
{
}

} // verus!
