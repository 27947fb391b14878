//! What the translation of a statement is: its text and the state after it,
//! or the rule that rejected it.
use vstd::prelude::*;
use crate::annotation::ann_out;
use crate::ast::{Alias, Constant, ExceptHandler, Expr, MatchCase, Param, Pattern, Stmt};
use crate::context::{opt_view, upsert, CtxView, ImportsView, Promotion, TableView};
use crate::error::{fail, Rule};
use crate::expr_spec::{expr_out, exprs_out, prepend, simple_params, Out, Outs};
use crate::operators::bin_op_text;
use crate::text::{concat, joined, padded, starts};

verus! {

/// The translation of a statement.
pub open spec fn stmt_out(s: Stmt, c: CtxView) -> Out
    decreases s, 2nat,
{
    match s {
        Stmt::FunctionDef { .. } => fndef_out(s, c),
        Stmt::AsyncFunctionDef => Err(fail(Rule::AsyncFunctionDef)),
        Stmt::ClassDef { .. } => class_out(s, c),
        Stmt::Return { .. } => return_out(s, c),
        Stmt::Delete { .. } => delete_out(s, c),
        Stmt::Assign { .. } => assign_out(s, c),
        Stmt::AugAssign { .. } => augassign_out(s, c),
        Stmt::AnnAssign { .. } => annassign_out(s, c),
        Stmt::For { .. } => for_out(s, c),
        Stmt::AsyncFor => Err(fail(Rule::AsyncFor)),
        Stmt::While { .. } => while_out(s, c),
        Stmt::If { .. } => if_out(s, c),
        Stmt::With => Err(fail(Rule::With)),
        Stmt::AsyncWith => Err(fail(Rule::AsyncWith)),
        Stmt::Match { .. } => match_out(s, c),
        Stmt::Raise { .. } => raise_out(s, c),
        Stmt::Try { .. } => try_out(s, c),
        Stmt::TryStar => Err(fail(Rule::TryStar)),
        Stmt::Assert { .. } => assert_out(s, c),
        Stmt::Import { names } => Ok((Seq::empty(), CtxView { imports: ImportsView { math_import_name: math_alias(names@, c.imports.math_import_name), ..c.imports }, ..c })),
        Stmt::ImportFrom { .. } => Ok((Seq::empty(), import_from_ctx(s, c))),
        Stmt::Global => Err(fail(Rule::Global)),
        Stmt::Nonlocal => Err(fail(Rule::Nonlocal)),
        Stmt::Expr { value } => expr_out(value, c),
        Stmt::Pass => Ok(("todo!()"@, c)),
        Stmt::Break => Ok(("break"@, c)),
        Stmt::Continue => Ok(("continue"@, c)),
        Stmt::TypeAlias { .. } => type_alias_out(s, c),
    }
}

/// The translations of a list of statements, in order, or the first error.
pub open spec fn stmts_out(ss: Seq<Stmt>, c: CtxView) -> Outs
    decreases ss, 1nat,
{
    if ss.len() == 0 {
        Ok((Seq::empty(), c))
    } else {
        match stmt_out(ss[0], c) {
            Err(x) => Err(x),
            Ok((t, c1)) => prepend(seq![t], stmts_out(ss.drop_first(), c1)),
        }
    }
}

/// The alias under which `import math` binds the module, after `names`.
pub open spec fn math_alias(names: Seq<Alias>, cur: Option<Seq<char>>) -> Option<Seq<char>>
    decreases names.len(),
{
    if names.len() == 0 {
        cur
    } else {
        let a = names[0];
        let next = if a.name@ == "math"@ {
            Some(
                match a.asname {
                    Some(n) => n@,
                    None => a.name@,
                },
            )
        } else {
            cur
        };
        math_alias(names.drop_first(), next)
    }
}

/// A table after each imported member is recorded with its rename.
pub open spec fn record_members(t: TableView, names: Seq<Alias>) -> TableView
    decreases names.len(),
{
    if names.len() == 0 {
        t
    } else {
        record_members(
            upsert(t, names[0].name@, opt_view(names[0].asname), false),
            names.drop_first(),
        )
    }
}

/// The state after `from M import ...`: members of a whitelisted module are
/// recorded; relative imports and other modules change nothing.
pub open spec fn import_from_ctx(s: Stmt, c: CtxView) -> CtxView {
    match s {
        Stmt::ImportFrom { module: Some(m), names, level } => if level != 0 {
            c
        } else if m@ == "math"@ {
            CtxView {
                imports: ImportsView { math: record_members(c.imports.math, names@), ..c.imports },
                ..c
            }
        } else if m@ == "functools"@ {
            CtxView {
                imports: ImportsView {
                    functools: record_members(c.imports.functools, names@),
                    ..c.imports
                },
                ..c
            }
        } else if m@ == "itertools"@ {
            CtxView {
                imports: ImportsView {
                    itertools: record_members(c.imports.itertools, names@),
                    ..c.imports
                },
                ..c
            }
        } else {
            c
        },
        _ => c,
    }
}

/// Whether the first statement of a body is a free-standing string.
pub open spec fn has_doc(body: Seq<Stmt>) -> bool {
    body.len() > 0 && (match body[0] {
        Stmt::Expr { value: Expr::Constant { value: Constant::Str(_) } } => true,
        _ => false,
    })
}

/// The documentation comment made of a body's leading string.
pub open spec fn doc_text(body: Seq<Stmt>) -> Seq<char> {
    match body[0] {
        Stmt::Expr { value: Expr::Constant { value: Constant::Str(d) } } => "/*! "@ + d@ + " */"@,
        _ => Seq::empty(),
    }
}

/// The parameter list of a function: `self` becomes a borrowed receiver;
/// parameters whose type is a foreign array are staged in the state.
pub open spec fn params_out(ps: Seq<Param>, c: CtxView) -> Outs
    decreases ps.len(),
{
    if ps.len() == 0 {
        Ok((Seq::empty(), c))
    } else {
        let p = ps[0];
        if p.name@ == "self"@ {
            prepend(seq!["&self"@], params_out(ps.drop_first(), c))
        } else {
            match (match p.annotation {
                Some(a) => ann_out(*a),
                None => Ok("()"@),
            }) {
                Err(x) => Err(x),
                Ok(t) => {
                    let c1 = if starts(t, "numpy::"@) {
                        CtxView { array_args: c.array_args.push((p.name@, t)), ..c }
                    } else {
                        c
                    };
                    prepend(seq![p.name@ + ": "@ + t], params_out(ps.drop_first(), c1))
                },
            }
        }
    }
}

/// The statement turning one staged foreign array into an owned buffer.
pub open spec fn conversion_line(p: (Seq<char>, Seq<char>)) -> Seq<char> {
    "let "@ + p.0 + " = "@ + p.0 + ".as_array().to_owned();"@
}

/// The prologue turning each staged foreign array into an owned buffer.
pub open spec fn conversions(a: Seq<(Seq<char>, Seq<char>)>) -> Seq<char> {
    concat(a.map_values(|p: (Seq<char>, Seq<char>)| conversion_line(p)))
}

/// How returns are wrapped for a function returning `ret`.
pub open spec fn promotion_of(ret: Seq<char>) -> Promotion {
    if starts(ret, "Option<"@) {
        Promotion::Into
    } else if starts(ret, "numpy::"@) {
        Promotion::IntoPyArray
    } else {
        Promotion::Plain
    }
}

/// The return type as written in the signature.
pub open spec fn ret_text(ret: Seq<char>) -> Seq<char> {
    if starts(ret, "numpy::"@) {
        "&'py "@ + ret
    } else {
        ret
    }
}

/// A function definition. The staged arrays, the return promotion and the
/// mutability flag are the function's own: those of the enclosing scope are
/// restored after it.
pub open spec fn fndef_out(s: Stmt, c: CtxView) -> Out
    decreases s, 1nat,
{
    match s {
        Stmt::FunctionDef { name, args, body, returns } => if !simple_params(args) {
            Err(fail(Rule::FunctionParams))
        } else {
            match params_out(args.args@, CtxView { array_args: Seq::empty(), declare_var_mut: false, ..c }) {
                Err(x) => Err(x),
                Ok((ps, c1)) => match (match returns {
                    Some(r) => ann_out(*r),
                    None => Ok("()"@),
                }) {
                    Err(x) => Err(x),
                    Ok(ret) => {
                        let arrays = c1.array_args.len() > 0;
                        let params = if arrays {
                            "py: pyo3::Python<'py>, "@ + joined(ps, ""@, ""@, ", "@)
                        } else {
                            joined(ps, ""@, ""@, ", "@)
                        };
                        let lifetimes = if arrays { "<'py>"@ } else { ""@ };
                        let rest = if has_doc(body@) { body@.drop_first() } else { body@ };
                        let doc = if has_doc(body@) { doc_text(body@) } else { ""@ };
                        match stmts_out(rest, CtxView { promotion: promotion_of(ret), ..c1 }) {
                            Err(x) => Err(x),
                            Ok((bs, c2)) => Ok(
                                (
                                    doc + "\nfn "@ + name@ + lifetimes + "("@ + params + ") -> "@
                                        + ret_text(ret) + " {\n"@ + conversions(c1.array_args)
                                        + "\n\n"@ + concat(bs) + "}\n"@,
                                    CtxView {
                                        promotion: c.promotion,
                                        array_args: c.array_args,
                                        declare_var_mut: c.declare_var_mut,
                                        ..c2
                                    },
                                ),
                            ),
                        }
                    },
                },
            }
        },
        _ => Ok((Seq::empty(), c)),
    }
}

/// A class body holds only members of the kind its class allows, or methods.
pub open spec fn members_allowed(body: Seq<Stmt>, is_enum: bool) -> bool {
    forall|i: int|
        0 <= i < body.len() ==> (#[trigger] body[i] is FunctionDef || (if is_enum {
            body[i] is Assign
        } else {
            body[i] is AnnAssign
        }))
}

/// Whether some base of a class is the enumeration marker.
pub open spec fn is_enum_class(bases: Seq<Expr>) -> bool {
    exists|i: int| 0 <= i < bases.len() && (#[trigger] bases[i] matches Expr::Name { id } && id@ == "Enum"@)
}

/// The translations of the statements of a body that are methods
/// (`defs`) or plain assignments (not `defs`), in order.
pub open spec fn selected_out(ss: Seq<Stmt>, defs: bool, c: CtxView) -> Outs
    decreases ss, 1nat,
{
    if ss.len() == 0 {
        Ok((Seq::empty(), c))
    } else if (if defs { ss[0] is FunctionDef } else { ss[0] is Assign }) {
        match stmt_out(ss[0], c) {
            Err(x) => Err(x),
            Ok((t, c1)) => prepend(seq![t], selected_out(ss.drop_first(), defs, c1)),
        }
    } else {
        selected_out(ss.drop_first(), defs, c)
    }
}

/// Field names and typed field declarations of a record body, in order.
pub open spec fn fields_out(ss: Seq<Stmt>, c: CtxView) -> Result<
    (Seq<Seq<char>>, Seq<Seq<char>>, CtxView),
    crate::error::TranspileError,
>
    decreases ss, 1nat,
{
    if ss.len() == 0 {
        Ok((Seq::empty(), Seq::empty(), c))
    } else {
        match ss[0] {
            Stmt::AnnAssign { target, .. } => match expr_out(target, c) {
                Err(x) => Err(x),
                Ok((n, c1)) => match stmt_out(ss[0], c1) {
                    Err(x) => Err(x),
                    Ok((t, c2)) => match fields_out(ss.drop_first(), c2) {
                        Err(x) => Err(x),
                        Ok((ns, ts, c3)) => Ok((seq![n] + ns, seq![t] + ts, c3)),
                    },
                },
            },
            _ => fields_out(ss.drop_first(), c),
        }
    }
}

/// The type definition followed by the block of its methods, if any.
pub open spec fn with_methods(def: Seq<char>, name: Seq<char>, ms: Seq<Seq<char>>) -> Seq<char> {
    def + "\n"@ + if ms.len() == 0 {
        ""@
    } else {
        "impl "@ + name + " {\n"@ + joined(ms, ""@, ""@, "\n"@) + " }\n"@
    }
}

/// A class: an enumeration when a base is the marker, else a record; its
/// methods follow in an associated block.
pub open spec fn class_out(s: Stmt, c: CtxView) -> Out
    decreases s, 1nat,
{
    match s {
        Stmt::ClassDef { name, bases, body } => if is_enum_class(bases@) {
            if !members_allowed(body@, true) {
                Err(fail(Rule::ClassMember))
            } else {
                match selected_out(
                    body@,
                    false,
                    CtxView { enums: c.enums.push(name@), in_enum: true, ..c },
                ) {
                    Err(x) => Err(x),
                    Ok((fs, c1)) => match selected_out(body@, true, CtxView { in_enum: false, ..c1 }) {
                        Err(x) => Err(x),
                        Ok((ms, c2)) => Ok(
                            (
                                with_methods(
                                    "\n#[derive(Debug, Clone)]\nenum "@ + name@ + " {\n"@ + joined(
                                        fs,
                                        ""@,
                                        ""@,
                                        ",\n"@,
                                    ) + "\n}"@,
                                    name@,
                                    ms,
                                ),
                                c2,
                            ),
                        ),
                    },
                }
            }
        } else {
            if !members_allowed(body@, false) {
                Err(fail(Rule::ClassMember))
            } else {
                match fields_out(body@, c) {
                    Err(x) => Err(x),
                    Ok((ns, ts, c1)) => match selected_out(
                        body@,
                        true,
                        CtxView { classes: c1.classes.push((name@, ns)), ..c1 },
                    ) {
                        Err(x) => Err(x),
                        Ok((ms, c2)) => Ok(
                            (
                                with_methods(
                                    "\n#[derive(Debug, Clone)]\nstruct "@ + name@ + " {\n"@ + joined(
                                        ts,
                                        ""@,
                                        ""@,
                                        ",\n"@,
                                    ) + "\n}"@,
                                    name@,
                                    ms,
                                ),
                                c2,
                            ),
                        ),
                    },
                }
            }
        },
        _ => Ok((Seq::empty(), c)),
    }
}

/// A return, wrapped as the current function's promotion asks.
pub open spec fn return_out(s: Stmt, c: CtxView) -> Out {
    match s {
        Stmt::Return { value: Some(v) } => match expr_out(v, c) {
            Err(x) => Err(x),
            Ok((t, c1)) => Ok(
                (
                    match c1.promotion {
                        Promotion::Plain => "return "@ + t + ";\n"@,
                        Promotion::Into => "return ("@ + t + ").into();\n"@,
                        Promotion::IntoPyArray => "return ("@ + t + ").into_pyarray(py);\n"@,
                    },
                    c1,
                ),
            ),
        },
        _ => Err(fail(Rule::BareReturn)),
    }
}

/// A deletion of names: each binding is dropped.
pub open spec fn delete_out(s: Stmt, c: CtxView) -> Out {
    match s {
        Stmt::Delete { targets } => if !(forall|i: int|
            0 <= i < targets@.len() ==> (#[trigger] targets@[i]) is Name) {
            Err(fail(Rule::DeleteTarget))
        } else {
            match exprs_out(targets@, c) {
                Err(x) => Err(x),
                Ok((ts, c1)) => Ok((joined(ts, "drop("@, ")"@, ";"@), c1)),
            }
        },
        _ => Ok((Seq::empty(), c)),
    }
}

/// An assignment with one target: inside an enumeration a variant with its
/// discriminant; to a member path a mutation in place; otherwise a fresh
/// mutable binding.
pub open spec fn assign_out(s: Stmt, c: CtxView) -> Out {
    match s {
        Stmt::Assign { targets, value } => if targets@.len() != 1 {
            Err(fail(Rule::ChainedAssignment))
        } else if c.in_enum {
            match expr_out(targets@[0], c) {
                Err(x) => Err(x),
                Ok((t, c1)) => match expr_out(value, c1) {
                    Err(x) => Err(x),
                    Ok((v, c2)) => Ok((t + " = "@ + v, c2)),
                },
            }
        } else {
            match expr_out(value, c) {
                Err(x) => Err(x),
                Ok((v, c1)) => if targets@[0] is Attribute {
                    match expr_out(targets@[0], c1) {
                        Err(x) => Err(x),
                        Ok((t, c2)) => Ok((t + " = "@ + v + ";\n"@, c2)),
                    }
                } else {
                    match expr_out(targets@[0], CtxView { declare_var_mut: true, ..c1 }) {
                        Err(x) => Err(x),
                        Ok((t, c2)) => Ok(
                            ("let "@ + t + " = "@ + v + ";\n"@, CtxView { declare_var_mut: false, ..c2 }),
                        ),
                    }
                },
            }
        },
        _ => Ok((Seq::empty(), c)),
    }
}

/// An augmented assignment becomes a compound assignment.
pub open spec fn augassign_out(s: Stmt, c: CtxView) -> Out {
    match s {
        Stmt::AugAssign { target, op, value } => match expr_out(target, c) {
            Err(x) => Err(x),
            Ok((t, c1)) => match bin_op_text(op) {
                Err(x) => Err(x),
                Ok(o) => match expr_out(value, c1) {
                    Err(x) => Err(x),
                    Ok((v, c2)) => Ok((t + " "@ + o + "= "@ + v + ";"@, c2)),
                },
            },
        },
        _ => Ok((Seq::empty(), c)),
    }
}

/// An annotated assignment becomes a typed field declaration.
pub open spec fn annassign_out(s: Stmt, c: CtxView) -> Out {
    match s {
        Stmt::AnnAssign { target, annotation, .. } => match expr_out(target, c) {
            Err(x) => Err(x),
            Ok((t, c1)) => match ann_out(annotation) {
                Err(x) => Err(x),
                Ok(a) => Ok((t + " : "@ + a, c1)),
            },
        },
        _ => Ok((Seq::empty(), c)),
    }
}

/// A loop over the translated iterable; an `else` clause is rejected.
pub open spec fn for_out(s: Stmt, c: CtxView) -> Out
    decreases s, 1nat,
{
    match s {
        Stmt::For { target, iter, body, orelse } => if orelse@.len() != 0 {
            Err(fail(Rule::ForElse))
        } else {
            match expr_out(iter, c) {
                Err(x) => Err(x),
                Ok((it, c1)) => match expr_out(target, c1) {
                    Err(x) => Err(x),
                    Ok((tg, c2)) => match stmts_out(body@, c2) {
                        Err(x) => Err(x),
                        Ok((bs, c3)) => Ok(
                            ("for "@ + tg + " in "@ + it + " {\n"@ + padded(bs, ";\n"@) + "}\n"@, c3),
                        ),
                    },
                },
            }
        },
        _ => Ok((Seq::empty(), c)),
    }
}

/// A loop over the test; an `else` body runs under a re-evaluated test.
pub open spec fn while_out(s: Stmt, c: CtxView) -> Out
    decreases s, 1nat,
{
    match s {
        Stmt::While { test, body, orelse } => match expr_out(test, c) {
            Err(x) => Err(x),
            Ok((t, c1)) => match stmts_out(body@, c1) {
                Err(x) => Err(x),
                Ok((bs, c2)) => match stmts_out(orelse@, c2) {
                    Err(x) => Err(x),
                    Ok((os, c3)) => Ok(
                        (
                            "while "@ + t + " {\n"@ + joined(bs, ""@, ""@, "\n"@) + "\n}\n"@ + if os.len()
                                == 0 {
                                ""@
                            } else {
                                "if !("@ + t + ") {"@ + padded(os, ";\n"@) + "}"@
                            },
                            c3,
                        ),
                    ),
                },
            },
        },
        _ => Ok((Seq::empty(), c)),
    }
}

/// A conditional; an `elif` arrives as an `if` nested in the `else` body.
pub open spec fn if_out(s: Stmt, c: CtxView) -> Out
    decreases s, 1nat,
{
    match s {
        Stmt::If { test, body, orelse } => match expr_out(test, c) {
            Err(x) => Err(x),
            Ok((t, c1)) => match stmts_out(body@, c1) {
                Err(x) => Err(x),
                Ok((bs, c2)) => match stmts_out(orelse@, c2) {
                    Err(x) => Err(x),
                    Ok((os, c3)) => Ok(
                        (
                            if os.len() == 0 {
                                "if "@ + t + " {\n"@ + padded(bs, ";\n"@) + "\n}\n"@
                            } else {
                                "if "@ + t + " {\n"@ + padded(bs, ";\n"@) + "\n} else {"@ + padded(
                                    os,
                                    ";\n"@,
                                ) + "}\n"@
                            },
                            c3,
                        ),
                    ),
                },
            },
        },
        _ => Ok((Seq::empty(), c)),
    }
}

/// The arms of a match: value patterns only, no guards.
pub open spec fn cases_out(cs: Seq<MatchCase>, c: CtxView) -> Outs
    decreases cs, 1nat,
{
    if cs.len() == 0 {
        Ok((Seq::empty(), c))
    } else if cs[0].guard is Some {
        Err(fail(Rule::MatchGuard))
    } else {
        match cs[0].pattern {
            Pattern::MatchValue { value } => match expr_out(value, c) {
                Err(x) => Err(x),
                Ok((p, c1)) => match stmts_out(cs[0].body@, c1) {
                    Err(x) => Err(x),
                    Ok((bs, c2)) => prepend(
                        seq![p + " => { "@ + concat(bs) + " },"@],
                        cases_out(cs.drop_first(), c2),
                    ),
                },
            },
            _ => Err(fail(Rule::MatchPattern)),
        }
    }
}

/// A match over the translated subject.
pub open spec fn match_out(s: Stmt, c: CtxView) -> Out
    decreases s, 1nat,
{
    match s {
        Stmt::Match { subject, cases } => match expr_out(subject, c) {
            Err(x) => Err(x),
            Ok((t, c1)) => match cases_out(cases@, c1) {
                Err(x) => Err(x),
                Ok((cs, c2)) => Ok(("match "@ + t + " {\n"@ + concat(cs) + "\n}"@, c2)),
            },
        },
        _ => Ok((Seq::empty(), c)),
    }
}

/// A raise: a constructor call becomes an abort naming the exception and its
/// arguments; a bare raise a bare abort.
pub open spec fn raise_out(s: Stmt, c: CtxView) -> Out {
    match s {
        Stmt::Raise { exc, cause } => if cause is Some {
            Err(fail(Rule::RaiseFrom))
        } else {
            match exc {
                None => Ok(("panic!()"@, c)),
                Some(Expr::Call { func, args, .. }) => match *func {
                    Expr::Name { id } => match exprs_out(args@, c) {
                        Err(x) => Err(x),
                        Ok((a, c1)) => Ok(
                            ("panic!(\""@ + id@ + "("@ + joined(a, ""@, ""@, ","@) + ")\")"@, c1),
                        ),
                    },
                    _ => Err(fail(Rule::RaiseShape)),
                },
                Some(_) => Err(fail(Rule::RaiseShape)),
            }
        },
        _ => Ok((Seq::empty(), c)),
    }
}

/// The handlers of a try, each a separately scoped call taking the bound
/// exception.
pub open spec fn handlers_out(hs: Seq<ExceptHandler>, c: CtxView) -> Outs
    decreases hs, 1nat,
{
    if hs.len() == 0 {
        Ok((Seq::empty(), c))
    } else {
        match stmts_out(hs[0].body@, c) {
            Err(x) => Err(x),
            Ok((bs, c1)) => prepend(
                seq![
                    "catch_it(|"@ + match hs[0].name {
                        Some(n) => n@,
                        None => "error_name"@,
                    } + "| {\n"@ + concat(bs) + "\n});"@
                ],
                handlers_out(hs.drop_first(), c1),
            ),
        }
    }
}

/// A try: the protected body in one call, each handler in its own; `else` and
/// `finally` clauses are rejected.
pub open spec fn try_out(s: Stmt, c: CtxView) -> Out
    decreases s, 1nat,
{
    match s {
        Stmt::Try { body, handlers, orelse, finalbody } => if orelse@.len() != 0
            || finalbody@.len() != 0 {
            Err(fail(Rule::TryElseFinally))
        } else {
            match stmts_out(body@, c) {
                Err(x) => Err(x),
                Ok((bs, c1)) => match handlers_out(handlers@, c1) {
                    Err(x) => Err(x),
                    Ok((hs, c2)) => Ok(
                        ("try_it(|| {"@ + joined(bs, ""@, ""@, ";\n"@) + "});\n "@ + concat(hs), c2),
                    ),
                },
            }
        },
        _ => Ok((Seq::empty(), c)),
    }
}

/// An assertion with its optional message.
pub open spec fn assert_out(s: Stmt, c: CtxView) -> Out {
    match s {
        Stmt::Assert { test, msg } => match expr_out(test, c) {
            Err(x) => Err(x),
            Ok((t, c1)) => match msg {
                None => Ok(("assert!("@ + t + ");\n"@, c1)),
                Some(m) => match expr_out(m, c1) {
                    Err(x) => Err(x),
                    Ok((mt, c2)) => Ok(("assert!("@ + t + ", "@ + mt + ");\n"@, c2)),
                },
            },
        },
        _ => Ok((Seq::empty(), c)),
    }
}

/// A type alias over the translated annotation.
pub open spec fn type_alias_out(s: Stmt, c: CtxView) -> Out {
    match s {
        Stmt::TypeAlias { name, value } => match ann_out(value) {
            Err(x) => Err(x),
            Ok(v) => match expr_out(name, c) {
                Err(x) => Err(x),
                Ok((n, c1)) => Ok(("type "@ + n + " = "@ + v + ";\n"@, c1)),
            },
        },
        _ => Ok((Seq::empty(), c)),
    }
}

} // verus!
