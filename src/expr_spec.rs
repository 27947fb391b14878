//! What the translation of an expression is: its text and the state after it,
//! or the rule that rejected it.
use vstd::prelude::*;
use crate::annotation::ann_out;
use crate::ast::{CmpOp, Constant, Expr, Keyword, Operator, Param, Params};
use crate::context::{class_members, upsert, CtxView, ImportsView};
use crate::error::{fail, Rule, TranspileError};
use crate::operators::{bin_op_text, bool_op_text, cmp_op_text, unary_op_text};
use crate::text::{bytes_escaped, joined, paired, starts};

verus! {

/// A translated text with the state after it, or the error.
pub type Out = Result<(Seq<char>, CtxView), TranspileError>;

/// Translated texts with the state after them, or the first error.
pub type Outs = Result<(Seq<Seq<char>>, CtxView), TranspileError>;

/// `r` with the texts `a` put in front of its texts.
pub open spec fn prepend(a: Seq<Seq<char>>, r: Outs) -> Outs {
    match r {
        Ok((ts, c)) => Ok((a + ts, c)),
        Err(e) => Err(e),
    }
}

pub proof fn lemma_prepend(a: Seq<Seq<char>>, b: Seq<Seq<char>>, r: Outs)
    ensures
        prepend(a, prepend(b, r)) == prepend(a + b, r),
{
    if let Ok((ts, c)) = r {
        assert(a + (b + ts) =~= (a + b) + ts);
    }
}

/// An exec result agrees with a spec outcome: the same text and state, or the
/// same error.
pub open spec fn agrees(r: Result<String, TranspileError>, c: CtxView, s: Out) -> bool {
    match s {
        Ok((t, c1)) => r is Ok && r->Ok_0@ == t && c == c1,
        Err(e) => r == Err::<String, TranspileError>(e),
    }
}

/// An exec list result agrees with a spec outcome.
pub open spec fn agrees_all(r: Result<Vec<String>, TranspileError>, c: CtxView, s: Outs) -> bool {
    match s {
        Ok((ts, c1)) => r is Ok && crate::text::views(r->Ok_0@) == ts && c == c1,
        Err(e) => r is Err && r->Err_0 == e,
    }
}

/// Plain positional parameters only.
pub open spec fn simple_params(p: Params) -> bool {
    p.posonlyargs@.len() == 0 && !p.vararg && p.kwonlyargs@.len() == 0 && !p.kwarg
}

pub open spec fn param_names(ps: Seq<Param>) -> Seq<Seq<char>> {
    ps.map_values(|p: Param| p.name@)
}

/// The text of a literal.
pub open spec fn constant_text(v: Constant) -> Result<Seq<char>, TranspileError> {
    match v {
        Constant::NoneValue => Ok("None"@),
        Constant::Str(s) => Ok("\""@ + s@ + "\""@),
        Constant::Bytes(b) => Ok("b\""@ + bytes_escaped(b@) + "\""@),
        Constant::Bool(b) => Ok(if b { "true"@ } else { "false"@ }),
        Constant::Int(d) => Ok(d@),
        Constant::Float(d) => Ok(d@),
        Constant::Tuple => Err(fail(Rule::LiteralKind)),
        Constant::Complex => Err(fail(Rule::LiteralKind)),
        Constant::Ellipsis => Err(fail(Rule::LiteralKind)),
    }
}

/// `s` repeated `n` times.
pub open spec fn repeat(s: Seq<char>, n: nat) -> Seq<char>
    decreases n,
{
    if n == 0 {
        Seq::empty()
    } else {
        repeat(s, (n - 1) as nat) + s
    }
}

/// One window `l op r` of a comparison chain.
pub open spec fn compare_part(op: CmpOp, l: Seq<char>, r: Seq<char>) -> Seq<char> {
    match cmp_op_text(op) {
        Some(o) => l + " "@ + o + " "@ + r,
        None => if op == CmpOp::NotIn {
            "!"@ + r + ".into_iter().any(|v| v == "@ + l + ")"@
        } else {
            r + ".into_iter().any(|v| v == "@ + l + ")"@
        },
    }
}

/// The windows of a comparison chain over the operand texts `ts`.
pub open spec fn compare_parts(ops: Seq<CmpOp>, ts: Seq<Seq<char>>) -> Seq<Seq<char>> {
    Seq::new(ops.len(), |k: int| compare_part(ops[k], ts[k], ts[k + 1]))
}

/// The names of keyword arguments.
pub open spec fn kw_names(ks: Seq<Keyword>) -> Seq<Seq<char>> {
    ks.map_values(|k: Keyword| k.arg->Some_0@)
}

/// The argument list of a call: positional texts, then keyword arguments
/// gathered into a parameter record named after the callee.
pub open spec fn args_text(f: Seq<char>, a: Seq<Seq<char>>, names: Seq<Seq<char>>, kv: Seq<Seq<char>>) -> Seq<char> {
    let pos = joined(a, ""@, ""@, ", "@);
    let params = f + "Params {\n"@ + joined(paired(names, ": "@, kv, kv.len() as int), ""@, ""@, ", "@)
        + "\n}"@;
    if a.len() == 0 && kv.len() == 0 {
        Seq::empty()
    } else if a.len() == 0 {
        params
    } else if kv.len() == 0 {
        pos
    } else {
        pos + ", "@ + params
    }
}

/// `a[0].iter().zip(a[1].iter())...` over the first `k` texts.
pub open spec fn zip_chain(a: Seq<Seq<char>>, k: nat) -> Seq<char>
    decreases k,
{
    if k <= 1 {
        a[0] + ".iter()"@
    } else {
        zip_chain(a, (k - 1) as nat) + ".zip("@ + a[k - 1] + ".iter())"@
    }
}

/// The nested pair pattern `((a0, a1), a2)...` over the first `k` texts.
pub open spec fn zip_pattern(a: Seq<Seq<char>>, k: nat) -> Seq<char>
    decreases k,
{
    if k <= 1 {
        a[0]
    } else {
        "("@ + zip_pattern(a, (k - 1) as nat) + ", "@ + a[k - 1] + ")"@
    }
}

/// Paired iteration over the arguments of `zip`, flattened again past two.
pub open spec fn zip_text(a: Seq<Seq<char>>) -> Seq<char> {
    if a.len() > 2 {
        zip_chain(a, a.len()) + ".map(|"@ + zip_pattern(a, a.len()) + "| ("@ + joined(a, ""@, ""@, ", "@)
            + "))"@
    } else {
        zip_chain(a, a.len())
    }
}

/// The state after the math member `m` was used through the module alias.
pub open spec fn with_math_member(c: CtxView, m: Seq<char>) -> CtxView {
    CtxView {
        imports: ImportsView { math: upsert(c.imports.math, m, None, true), ..c.imports },
        ..c
    }
}

/// A call, once its arguments, callee and keyword values are translated.
pub open spec fn call_dispatch(
    func: Expr,
    f: Seq<char>,
    a: Seq<Seq<char>>,
    names: Seq<Seq<char>>,
    kv: Seq<Seq<char>>,
    c: CtxView,
) -> Out {
    let args = args_text(f, a, names, kv);
    match class_members(c.classes, f) {
        Some(m) => if kv.len() == 0 {
            let n = if m.len() < a.len() { m.len() } else { a.len() };
            Ok((f + " {\n"@ + joined(paired(m, " : "@, a, n as int), ""@, ","@, "\n"@) + "\n}"@, c))
        } else if a.len() > 0 {
            Err(fail(Rule::RecordArgsMixed))
        } else {
            Ok(
                (f + " {\n"@ + joined(paired(names, " : "@, kv, kv.len() as int), ""@, ","@, "\n"@) + "\n}"@,
                c),
            )
        },
        None => if f == "print"@ {
            Ok(("println!(\"{:?}\", "@ + args + ")"@, c))
        } else if f == "enumerate"@ {
            Ok((args + ".iter().enumerate()"@, c))
        } else if f == "zip"@ {
            if a.len() == 0 {
                Err(fail(Rule::ZipArity))
            } else {
                Ok((zip_text(a), c))
            }
        } else if f == "str"@ {
            Ok((args + ".to_string()"@, c))
        } else if f == "len"@ {
            Ok((args + ".len()"@, c))
        } else if f == "sum"@ {
            Ok((args + ".iter().sum()"@, c))
        } else if f == "int"@ || f == "float"@ {
            match ann_out(func) {
                Err(x) => Err(x),
                Ok(t) => Ok(("(("@ + args + ") as "@ + t + ")"@, c)),
            }
        } else if f == "range"@ {
            if kv.len() == 0 && a.len() == 1 {
                Ok(("(0.."@ + a[0] + ")"@, c))
            } else if kv.len() == 0 && a.len() == 2 {
                Ok(("("@ + a[0] + ".."@ + a[1] + ")"@, c))
            } else if kv.len() == 0 && a.len() == 3 {
                Err(fail(Rule::RangeStep))
            } else {
                Err(fail(Rule::RangeArity))
            }
        } else {
            call_dispatch_rest(f, args, c)
        },
    }
}

/// A call whose callee is none of the builtins: through the math module
/// alias, the serialization module, the numeric-array module, or plain.
pub open spec fn call_dispatch_rest(f: Seq<char>, args: Seq<char>, c: CtxView) -> Out {
    if c.imports.math_import_name is Some && starts(f, c.imports.math_import_name->Some_0 + "."@) {
        let m = f.subrange(c.imports.math_import_name->Some_0.len() + 1int, f.len() as int);
        Ok(("prelude::"@ + m + "("@ + args + ")"@, with_math_member(c, m)))
    } else if f == "json.loads"@ {
        Ok(("serde_json::from_string("@ + args + ").unwrap()"@, c))
    } else if f == "json.dumps"@ {
        Ok(("serde_json::to_string("@ + args + ").unwrap()"@, c))
    } else if starts(f, "np."@) {
        if f == "np.where"@ {
            Ok(("ndarray::azip(("@ + args + "), { zip body })"@, c))
        } else {
            Err(fail(Rule::NumpyCall))
        }
    } else {
        Ok((f + "("@ + args + ")"@, c))
    }
}

/// The translation of an expression.
pub open spec fn expr_out(e: Expr, c: CtxView) -> Out
    decreases e, 2nat,
{
    match e {
        Expr::BoolOp { .. } => boolop_out(e, c),
        Expr::NamedExpr { .. } => named_out(e, c),
        Expr::BinOp { .. } => binop_out(e, c),
        Expr::UnaryOp { .. } => unary_out(e, c),
        Expr::Lambda { .. } => lambda_out(e, c),
        Expr::IfExp { .. } => ifexp_out(e, c),
        Expr::Dict { .. } => dict_out(e, c),
        Expr::SetLiteral { .. } => set_out(e, c),
        Expr::ListComp { .. } => comp_out(e, c),
        Expr::SetComp { .. } => comp_out(e, c),
        Expr::DictComp { .. } => comp_out(e, c),
        Expr::GeneratorExp { .. } => comp_out(e, c),
        Expr::Await => Err(fail(Rule::Await)),
        Expr::Yield => Err(fail(Rule::Yield)),
        Expr::YieldFrom => Err(fail(Rule::YieldFrom)),
        Expr::Compare { .. } => compare_out(e, c),
        Expr::Call { .. } => call_out(e, c),
        Expr::FormattedValue { value } => expr_out(*value, c),
        Expr::JoinedStr { .. } => joined_str_out(e, c),
        Expr::Constant { value } => match constant_text(value) {
            Err(x) => Err(x),
            Ok(t) => Ok((t, c)),
        },
        Expr::Attribute { .. } => attribute_out(e, c),
        Expr::Subscript { .. } => subscript_out(e, c),
        Expr::Starred { .. } => Err(fail(Rule::Starred)),
        Expr::Name { id } => Ok((if c.declare_var_mut { "mut "@ + id@ } else { id@ }, c)),
        Expr::List { .. } => list_out(e, c),
        Expr::Tuple { .. } => tuple_out(e, c),
        Expr::Slice { .. } => slice_out(e, c),
    }
}

/// A boolean connective over all its operands.
pub open spec fn boolop_out(e: Expr, c: CtxView) -> Out
    decreases e, 1nat,
{
    match e {
        Expr::BoolOp { op, values } => match exprs_out(values@, c) {
            Err(x) => Err(x),
            Ok((ts, c1)) => Ok((joined(ts, ""@, ""@, " "@ + bool_op_text(op) + " "@), c1)),
        },
        _ => Ok((Seq::empty(), c)),
    }
}

/// A binding expression, assumed always present.
pub open spec fn named_out(e: Expr, c: CtxView) -> Out
    decreases e, 1nat,
{
    match e {
        Expr::NamedExpr { target, value } => match expr_out(*target, c) {
            Err(x) => Err(x),
            Ok((t, c1)) => match expr_out(*value, c1) {
                Err(x) => Err(x),
                Ok((v, c2)) => Ok(("let Some("@ + t + ") = "@ + v, c2)),
            },
        },
        _ => Ok((Seq::empty(), c)),
    }
}

/// A binary operation; exponentiation becomes a call.
pub open spec fn binop_out(e: Expr, c: CtxView) -> Out
    decreases e, 1nat,
{
    match e {
        Expr::BinOp { left, op, right } => match expr_out(*left, c) {
            Err(x) => Err(x),
            Ok((l, c1)) => if op == Operator::Pow {
                match expr_out(*right, c1) {
                    Err(x) => Err(x),
                    Ok((r, c2)) => Ok((l + ".powf("@ + r + ")"@, c2)),
                }
            } else {
                match bin_op_text(op) {
                    Err(x) => Err(x),
                    Ok(o) => match expr_out(*right, c1) {
                        Err(x) => Err(x),
                        Ok((r, c2)) => Ok((l + " "@ + o + " "@ + r, c2)),
                    },
                }
            },
        },
        _ => Ok((Seq::empty(), c)),
    }
}

/// A unary operation.
pub open spec fn unary_out(e: Expr, c: CtxView) -> Out
    decreases e, 1nat,
{
    match e {
        Expr::UnaryOp { op, operand } => match expr_out(*operand, c) {
            Err(x) => Err(x),
            Ok((r, c1)) => Ok((unary_op_text(op) + r, c1)),
        },
        _ => Ok((Seq::empty(), c)),
    }
}

/// A lambda with plain positional parameters becomes a closure.
pub open spec fn lambda_out(e: Expr, c: CtxView) -> Out
    decreases e, 1nat,
{
    match e {
        Expr::Lambda { args, body } => if !simple_params(args) {
            Err(fail(Rule::LambdaParams))
        } else {
            match expr_out(*body, c) {
                Err(x) => Err(x),
                Ok((b, c1)) => Ok(
                    (
                        "|"@ + joined(param_names(args.args@), ""@, ""@, ", "@) + "| {\n"@ + b
                            + "\n}"@,
                        c1,
                    ),
                ),
            }
        },
        _ => Ok((Seq::empty(), c)),
    }
}

/// A conditional expression.
pub open spec fn ifexp_out(e: Expr, c: CtxView) -> Out
    decreases e, 1nat,
{
    match e {
        Expr::IfExp { test, body, orelse } => match expr_out(*test, c) {
            Err(x) => Err(x),
            Ok((t, c1)) => match expr_out(*body, c1) {
                Err(x) => Err(x),
                Ok((b, c2)) => match expr_out(*orelse, c2) {
                    Err(x) => Err(x),
                    Ok((o, c3)) => Ok(("if "@ + t + " { "@ + b + " } else { "@ + o + " }"@, c3)),
                },
            },
        },
        _ => Ok((Seq::empty(), c)),
    }
}

/// A mapping display: keys zipped with values, collected.
pub open spec fn dict_out(e: Expr, c: CtxView) -> Out
    decreases e, 1nat,
{
    match e {
        Expr::Dict { keys, values } => if keys@.len() == 0 {
            Ok(("HashMap::new()"@, c))
        } else {
            match keys_out(keys@, c) {
                Err(x) => Err(x),
                Ok((k, c1)) => match exprs_out(values@, c1) {
                    Err(x) => Err(x),
                    Ok((v, c2)) => Ok(
                        (
                            "["@ + joined(k, ""@, ""@, ", "@) + "].into_iter().zip(["@ + joined(
                                v,
                                ""@,
                                ""@,
                                ", "@,
                            ) + "].into_iter()).collect::<HashMap<_, _>>()"@,
                            c2,
                        ),
                    ),
                },
            }
        },
        _ => Ok((Seq::empty(), c)),
    }
}

/// A set display, collected.
pub open spec fn set_out(e: Expr, c: CtxView) -> Out
    decreases e, 1nat,
{
    match e {
        Expr::SetLiteral { elts } => if elts@.len() == 0 {
            Ok(("HashSet::new()"@, c))
        } else {
            match exprs_out(elts@, c) {
                Err(x) => Err(x),
                Ok((ts, c1)) => Ok(
                    ("["@ + joined(ts, ""@, ""@, ", "@) + "].into_iter().collect::<HashSet<_>>()"@, c1),
                ),
            }
        },
        _ => Ok((Seq::empty(), c)),
    }
}

/// An interpolated string: one generic placeholder per segment.
pub open spec fn joined_str_out(e: Expr, c: CtxView) -> Out
    decreases e, 1nat,
{
    match e {
        Expr::JoinedStr { values } => match exprs_out(values@, c) {
            Err(x) => Err(x),
            Ok((ts, c1)) => Ok(
                (
                    "format!(\""@ + repeat("{:?}"@, ts.len()) + "\""@ + joined(ts, ", "@, ""@, ""@)
                        + ")"@,
                    c1,
                ),
            ),
        },
        _ => Ok((Seq::empty(), c)),
    }
}

/// An attribute: a variant of a declared enumeration, a push, or a field path.
pub open spec fn attribute_out(e: Expr, c: CtxView) -> Out
    decreases e, 1nat,
{
    match e {
        Expr::Attribute { value, attr } => match expr_out(*value, c) {
            Err(x) => Err(x),
            Ok((v, c1)) => if c1.enums.contains(v) {
                Ok((v + "::"@ + attr@, c1))
            } else if attr@ == "append"@ {
                Ok((v + ".push"@, c1))
            } else {
                Ok((v + "."@ + attr@, c1))
            },
        },
        _ => Ok((Seq::empty(), c)),
    }
}

/// A subscript.
pub open spec fn subscript_out(e: Expr, c: CtxView) -> Out
    decreases e, 1nat,
{
    match e {
        Expr::Subscript { value, slice } => match expr_out(*value, c) {
            Err(x) => Err(x),
            Ok((v, c1)) => match expr_out(*slice, c1) {
                Err(x) => Err(x),
                Ok((s, c2)) => Ok((v + "["@ + s + "]"@, c2)),
            },
        },
        _ => Ok((Seq::empty(), c)),
    }
}

/// A list display.
pub open spec fn list_out(e: Expr, c: CtxView) -> Out
    decreases e, 1nat,
{
    match e {
        Expr::List { elts } => match exprs_out(elts@, c) {
            Err(x) => Err(x),
            Ok((ts, c1)) => Ok(("vec!["@ + joined(ts, ""@, ""@, ", "@) + "]"@, c1)),
        },
        _ => Ok((Seq::empty(), c)),
    }
}

/// A tuple display.
pub open spec fn tuple_out(e: Expr, c: CtxView) -> Out
    decreases e, 1nat,
{
    match e {
        Expr::Tuple { elts } => match exprs_out(elts@, c) {
            Err(x) => Err(x),
            Ok((ts, c1)) => Ok(("("@ + joined(ts, ""@, ""@, ", "@) + ")"@, c1)),
        },
        _ => Ok((Seq::empty(), c)),
    }
}

/// A slice; a step materializes the stepped elements.
pub open spec fn slice_out(e: Expr, c: CtxView) -> Out
    decreases e, 1nat,
{
    match e {
        Expr::Slice { lower, upper, step } => match step {
            Some(st) => match expr_out(*st, c) {
                Err(x) => Err(x),
                Ok((s, c1)) => slice_bounds_out(
                    e,
                    ".iter().step_by("@ + s + ").collect::<Vec<_>>()"@,
                    c1,
                ),
            },
            None => slice_bounds_out(e, ""@, c),
        },
        _ => Ok((Seq::empty(), c)),
    }
}

/// The bounds of a slice, followed by `suffix`.
pub open spec fn slice_bounds_out(e: Expr, suffix: Seq<char>, c: CtxView) -> Out
    decreases e, 0nat,
{
    match e {
        Expr::Slice { lower, upper, step } => match (match lower {
            Some(l) => expr_out(*l, c),
            None => Ok((Seq::empty(), c)),
        }) {
            Err(x) => Err(x),
            Ok((l, c1)) => match (match upper {
                Some(u) => expr_out(*u, c1),
                None => Ok((Seq::empty(), c1)),
            }) {
                Err(x) => Err(x),
                Ok((u, c2)) => Ok((l + ".."@ + u + suffix, c2)),
            },
        },
        _ => Ok((Seq::empty(), c)),
    }
}

/// The translations of a list of expressions, in order, or the first error.
pub open spec fn exprs_out(es: Seq<Expr>, c: CtxView) -> Outs
    decreases es, 1nat,
{
    if es.len() == 0 {
        Ok((Seq::empty(), c))
    } else {
        match expr_out(es[0], c) {
            Err(x) => Err(x),
            Ok((t, c1)) => prepend(seq![t], exprs_out(es.drop_first(), c1)),
        }
    }
}

/// The translations of the keys of a mapping display; an unpacking entry is
/// rejected.
pub open spec fn keys_out(ks: Seq<Option<Expr>>, c: CtxView) -> Outs
    decreases ks, 1nat,
{
    if ks.len() == 0 {
        Ok((Seq::empty(), c))
    } else {
        match ks[0] {
            None => Err(fail(Rule::DictUnpack)),
            Some(k) => match expr_out(k, c) {
                Err(x) => Err(x),
                Ok((t, c1)) => prepend(seq![t], keys_out(ks.drop_first(), c1)),
            },
        }
    }
}

/// The translations of the values of keyword arguments; an unpacking
/// argument is rejected.
pub open spec fn kw_values_out(ks: Seq<Keyword>, c: CtxView) -> Outs
    decreases ks, 1nat,
{
    if ks.len() == 0 {
        Ok((Seq::empty(), c))
    } else {
        match ks[0].arg {
            None => Err(fail(Rule::KeywordUnpack)),
            Some(_) => match expr_out(ks[0].value, c) {
                Err(x) => Err(x),
                Ok((t, c1)) => prepend(seq![t], kw_values_out(ks.drop_first(), c1)),
            },
        }
    }
}

/// A call: arguments, then callee, then keyword values, then the dispatch.
pub open spec fn call_out(e: Expr, c: CtxView) -> Out
    decreases e, 1nat,
{
    match e {
        Expr::Call { func, args, keywords } => match exprs_out(args@, c) {
            Err(x) => Err(x),
            Ok((a, c1)) => match expr_out(*func, c1) {
                Err(x) => Err(x),
                Ok((f, c2)) => match kw_values_out(keywords@, c2) {
                    Err(x) => Err(x),
                    Ok((kv, c3)) => call_dispatch(*func, f, a, kw_names(keywords@), kv, c3),
                },
            },
        },
        _ => Ok((Seq::empty(), c)),
    }
}

/// A comparison chain: the conjunction of its windows.
pub open spec fn compare_out(e: Expr, c: CtxView) -> Out
    decreases e, 1nat,
{
    match e {
        Expr::Compare { left, ops, comparators } => if ops@.len() != comparators@.len() {
            Err(fail(Rule::CompareShape))
        } else {
            match expr_out(*left, c) {
                Err(x) => Err(x),
                Ok((l, c1)) => match exprs_out(comparators@, c1) {
                    Err(x) => Err(x),
                    Ok((ts, c2)) => Ok(
                        (joined(compare_parts(ops@, seq![l] + ts), ""@, ""@, "&&"@), c2),
                    ),
                },
            }
        },
        _ => Ok((Seq::empty(), c)),
    }
}

/// The collection a comprehension collects into, if any.
pub open spec fn comp_collection(e: Expr) -> Option<Seq<char>> {
    match e {
        Expr::ListComp { .. } => Some("Vec::<_>"@),
        Expr::SetComp { .. } => Some("HashSet::<_,_>"@),
        Expr::DictComp { .. } => Some("HashMap::<_,_>"@),
        _ => None,
    }
}

/// The element a comprehension yields; a mapping yields a key-value pair.
pub open spec fn comp_elt_out(e: Expr, c: CtxView) -> Out
    decreases e, 0nat,
{
    match e {
        Expr::ListComp { elt, .. } => expr_out(*elt, c),
        Expr::SetComp { elt, .. } => expr_out(*elt, c),
        Expr::GeneratorExp { elt, .. } => expr_out(*elt, c),
        Expr::DictComp { key, value, .. } => match expr_out(*key, c) {
            Err(x) => Err(x),
            Ok((k, c1)) => match expr_out(*value, c1) {
                Err(x) => Err(x),
                Ok((v, c2)) => Ok(("("@ + k + ", "@ + v + ")"@, c2)),
            },
        },
        _ => Ok((Seq::empty(), c)),
    }
}

/// The suffix that collects a comprehension, if it collects.
pub open spec fn collect_suffix(e: Expr) -> Seq<char> {
    match comp_collection(e) {
        Some(t) => ".collect::<"@ + t + ">()"@,
        None => Seq::empty(),
    }
}

/// A comprehension with one clause and at most one filter: map-then-collect,
/// or filter-map-then-collect.
pub open spec fn comp_out(e: Expr, c: CtxView) -> Out
    decreases e, 1nat,
{
    match e {
        Expr::ListComp { generators, .. }
        | Expr::SetComp { generators, .. }
        | Expr::DictComp { generators, .. }
        | Expr::GeneratorExp { generators, .. } => {
            if generators@.len() != 1 {
                Err(fail(Rule::NestedComprehension))
            } else if generators@[0].ifs@.len() > 1 {
                Err(fail(Rule::ComprehensionFilters))
            } else {
                match comp_elt_out(e, c) {
                    Err(x) => Err(x),
                    Ok((body, c1)) => if generators@[0].ifs@.len() == 1 {
                        match expr_out(generators@[0].ifs@[0], c1) {
                            Err(x) => Err(x),
                            Ok((cond, c2)) => match expr_out(generators@[0].iter, c2) {
                                Err(x) => Err(x),
                                Ok((it, c3)) => match expr_out(generators@[0].target, c3) {
                                    Err(x) => Err(x),
                                    Ok((tg, c4)) => Ok(
                                        (
                                            it + ".into_iter().filter_map(|"@ + tg + "| { "@ + ("if "@ + cond
                                                + " { Some("@ + body + ") } else { None } "@) + " })"@
                                                + collect_suffix(e),
                                            c4,
                                        ),
                                    ),
                                },
                            },
                        }
                    } else {
                        match expr_out(generators@[0].iter, c1) {
                            Err(x) => Err(x),
                            Ok((it, c2)) => match expr_out(generators@[0].target, c2) {
                                Err(x) => Err(x),
                                Ok((tg, c3)) => Ok(
                                    (
                                        it + ".into_iter().map(|"@ + tg + "| { "@ + body + " })"@
                                            + collect_suffix(e),
                                        c3,
                                    ),
                                ),
                            },
                        }
                    },
                }
            }
        },
        _ => Ok((Seq::empty(), c)),
    }
}

} // verus!
