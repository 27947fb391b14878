//! The expression translator: lowers each expression kind to text, reading and
//! extending the run's state.
use vstd::prelude::*;
use crate::annotation::r_annotation;
use crate::ast::{CmpOp, Constant, Expr, Keyword, Operator};
use crate::context::{class_members, grows, keeps, table_upsert, Ctx};
use crate::error::{Rule, TranspileError};
use crate::expr_spec::{
    agrees, agrees_all, boolop_out, named_out, binop_out, unary_out, lambda_out, ifexp_out, dict_out, set_out, joined_str_out, attribute_out, subscript_out, list_out, tuple_out, slice_out, call_dispatch, call_dispatch_rest, call_out, collect_suffix, comp_elt_out,
    comp_out, compare_out, compare_part, compare_parts, constant_text, expr_out, exprs_out, keys_out,
    kw_names, kw_values_out, lemma_prepend, param_names, prepend, repeat, args_text, zip_chain,
    zip_pattern, zip_text, slice_bounds_out,
};
use crate::operators::{r_bool, r_c, r_o, r_unary};
use crate::text::{escape_bytes, join_with, owned, pair_up, same, strip_prefix, views};

verus! {

type TResult<T> = Result<T, TranspileError>;

/// Convert an expression.
pub fn r_e(node: &Expr, ctx: &mut Ctx) -> (r: TResult<String>)
    ensures
        keeps(old(ctx)@, final(ctx)@),
        grows(old(ctx)@, final(ctx)@),
        agrees(r, final(ctx)@, expr_out(*node, old(ctx)@)),
    decreases node, 2nat,
{
    match node {
        Expr::BoolOp { .. } => r_boolop(node, ctx),
        Expr::NamedExpr { .. } => r_named(node, ctx),
        Expr::BinOp { .. } => r_binop(node, ctx),
        Expr::UnaryOp { .. } => r_unary_op(node, ctx),
        Expr::Lambda { .. } => r_lambda(node, ctx),
        Expr::IfExp { .. } => r_ifexp(node, ctx),
        Expr::Dict { .. } => r_dict(node, ctx),
        Expr::SetLiteral { .. } => r_set(node, ctx),
        Expr::ListComp { .. } => r_comp(node, ctx),
        Expr::SetComp { .. } => r_comp(node, ctx),
        Expr::DictComp { .. } => r_comp(node, ctx),
        Expr::GeneratorExp { .. } => r_comp(node, ctx),
        Expr::Await => Err(TranspileError { rule: Rule::Await }),
        Expr::Yield => Err(TranspileError { rule: Rule::Yield }),
        Expr::YieldFrom => Err(TranspileError { rule: Rule::YieldFrom }),
        Expr::Compare { .. } => r_compare(node, ctx),
        Expr::Call { .. } => r_call(node, ctx),
        Expr::FormattedValue { value } => r_e(value, ctx),
        Expr::JoinedStr { .. } => r_joined_str(node, ctx),
        Expr::Constant { value } => r_constant(value),
        Expr::Attribute { .. } => r_attribute(node, ctx),
        Expr::Subscript { .. } => r_subscript(node, ctx),
        Expr::Starred { .. } => Err(TranspileError { rule: Rule::Starred }),
        Expr::Name { id } => {
            if ctx.declare_var_mut {
                let mut r = owned("mut ");
                r.append(id.as_str());
                Ok(r)
            } else {
                Ok(owned(id.as_str()))
            }
        },
        Expr::List { .. } => r_list(node, ctx),
        Expr::Tuple { .. } => r_tuple(node, ctx),
        Expr::Slice { .. } => r_slice(node, ctx),
    }
}

/// Convert a boolean connective.
fn r_boolop(node: &Expr, ctx: &mut Ctx) -> (r: TResult<String>)
    requires
        node is BoolOp,
    ensures
        keeps(old(ctx)@, final(ctx)@),
        grows(old(ctx)@, final(ctx)@),
        agrees(r, final(ctx)@, boolop_out(*node, old(ctx)@)),
    decreases node, 1nat,
{
    match node {
        Expr::BoolOp { op, values } => {
            let ts = r_exprs(values, ctx)?;
            let mut sep = owned(" ");
            sep.append(r_bool(op));
            sep.append(" ");
            Ok(join_with(&ts, "", "", sep.as_str()))
        },
        _ => Ok(String::new()),
    }
}

/// Convert a binding expression.
fn r_named(node: &Expr, ctx: &mut Ctx) -> (r: TResult<String>)
    requires
        node is NamedExpr,
    ensures
        keeps(old(ctx)@, final(ctx)@),
        grows(old(ctx)@, final(ctx)@),
        agrees(r, final(ctx)@, named_out(*node, old(ctx)@)),
    decreases node, 1nat,
{
    match node {
        Expr::NamedExpr { target, value } => {
            let t = r_e(target, ctx)?;
            let v = r_e(value, ctx)?;
            let mut r = owned("let Some(");
            r.append(t.as_str());
            r.append(") = ");
            r.append(v.as_str());
            Ok(r)
        },
        _ => Ok(String::new()),
    }
}

/// Convert a binary operation.
fn r_binop(node: &Expr, ctx: &mut Ctx) -> (r: TResult<String>)
    requires
        node is BinOp,
    ensures
        keeps(old(ctx)@, final(ctx)@),
        grows(old(ctx)@, final(ctx)@),
        agrees(r, final(ctx)@, binop_out(*node, old(ctx)@)),
    decreases node, 1nat,
{
    match node {
        Expr::BinOp { left, op, right } => {
            let mut l = r_e(left, ctx)?;
            if *op == Operator::Pow {
                let r = r_e(right, ctx)?;
                l.append(".powf(");
                l.append(r.as_str());
                l.append(")");
                Ok(l)
            } else {
                let o = r_o(op)?;
                let r = r_e(right, ctx)?;
                l.append(" ");
                l.append(o);
                l.append(" ");
                l.append(r.as_str());
                Ok(l)
            }
        },
        _ => Ok(String::new()),
    }
}

/// Convert a unary operation.
fn r_unary_op(node: &Expr, ctx: &mut Ctx) -> (r: TResult<String>)
    requires
        node is UnaryOp,
    ensures
        keeps(old(ctx)@, final(ctx)@),
        grows(old(ctx)@, final(ctx)@),
        agrees(r, final(ctx)@, unary_out(*node, old(ctx)@)),
    decreases node, 1nat,
{
    match node {
        Expr::UnaryOp { op, operand } => {
            let r = r_e(operand, ctx)?;
            let mut t = owned(r_unary(op));
            t.append(r.as_str());
            Ok(t)
        },
        _ => Ok(String::new()),
    }
}

/// Convert a lambda.
fn r_lambda(node: &Expr, ctx: &mut Ctx) -> (r: TResult<String>)
    requires
        node is Lambda,
    ensures
        keeps(old(ctx)@, final(ctx)@),
        grows(old(ctx)@, final(ctx)@),
        agrees(r, final(ctx)@, lambda_out(*node, old(ctx)@)),
    decreases node, 1nat,
{
    match node {
        Expr::Lambda { args, body } => {
            if args.posonlyargs.len() != 0 || args.vararg || args.kwonlyargs.len() != 0
                || args.kwarg {
                return Err(TranspileError { rule: Rule::LambdaParams });
            }
            let b = r_e(body, ctx)?;
            let names = param_names_exec(&args.args);
            let mut r = owned("|");
            r.append(join_with(&names, "", "", ", ").as_str());
            r.append("| {\n");
            r.append(b.as_str());
            r.append("\n}");
            Ok(r)
        },
        _ => Ok(String::new()),
    }
}

/// Convert a conditional expression.
fn r_ifexp(node: &Expr, ctx: &mut Ctx) -> (r: TResult<String>)
    requires
        node is IfExp,
    ensures
        keeps(old(ctx)@, final(ctx)@),
        grows(old(ctx)@, final(ctx)@),
        agrees(r, final(ctx)@, ifexp_out(*node, old(ctx)@)),
    decreases node, 1nat,
{
    match node {
        Expr::IfExp { test, body, orelse } => {
            let t = r_e(test, ctx)?;
            let b = r_e(body, ctx)?;
            let o = r_e(orelse, ctx)?;
            let mut r = owned("if ");
            r.append(t.as_str());
            r.append(" { ");
            r.append(b.as_str());
            r.append(" } else { ");
            r.append(o.as_str());
            r.append(" }");
            Ok(r)
        },
        _ => Ok(String::new()),
    }
}

/// Convert a mapping display.
fn r_dict(node: &Expr, ctx: &mut Ctx) -> (r: TResult<String>)
    requires
        node is Dict,
    ensures
        keeps(old(ctx)@, final(ctx)@),
        grows(old(ctx)@, final(ctx)@),
        agrees(r, final(ctx)@, dict_out(*node, old(ctx)@)),
    decreases node, 1nat,
{
    match node {
        Expr::Dict { keys, values } => {
            if keys.len() == 0 {
                return Ok(owned("HashMap::new()"));
            }
            let k = r_keys(keys, ctx)?;
            let v = r_exprs(values, ctx)?;
            let mut r = owned("[");
            r.append(join_with(&k, "", "", ", ").as_str());
            r.append("].into_iter().zip([");
            r.append(join_with(&v, "", "", ", ").as_str());
            r.append("].into_iter()).collect::<HashMap<_, _>>()");
            Ok(r)
        },
        _ => Ok(String::new()),
    }
}

/// Convert a set display.
fn r_set(node: &Expr, ctx: &mut Ctx) -> (r: TResult<String>)
    requires
        node is SetLiteral,
    ensures
        keeps(old(ctx)@, final(ctx)@),
        grows(old(ctx)@, final(ctx)@),
        agrees(r, final(ctx)@, set_out(*node, old(ctx)@)),
    decreases node, 1nat,
{
    match node {
        Expr::SetLiteral { elts } => {
            if elts.len() == 0 {
                return Ok(owned("HashSet::new()"));
            }
            let ts = r_exprs(elts, ctx)?;
            let mut r = owned("[");
            r.append(join_with(&ts, "", "", ", ").as_str());
            r.append("].into_iter().collect::<HashSet<_>>()");
            Ok(r)
        },
        _ => Ok(String::new()),
    }
}

/// Convert an interpolated string.
#[verifier::loop_isolation(false)]
fn r_joined_str(node: &Expr, ctx: &mut Ctx) -> (r: TResult<String>)
    requires
        node is JoinedStr,
    ensures
        keeps(old(ctx)@, final(ctx)@),
        grows(old(ctx)@, final(ctx)@),
        agrees(r, final(ctx)@, joined_str_out(*node, old(ctx)@)),
    decreases node, 1nat,
{
    match node {
        Expr::JoinedStr { values } => {
            let ts = r_exprs(values, ctx)?;
            let mut r = owned("format!(\"");
            let mut k: usize = 0;
            while k < ts.len()
                invariant
                    k <= ts@.len(),
                    r@ == "format!(\""@ + repeat("{:?}"@, k as nat),
                decreases ts.len() - k,
            {
                r.append("{:?}");
                k = k + 1;
            }
            r.append("\"");
            r.append(join_with(&ts, ", ", "", "").as_str());
            r.append(")");
            Ok(r)
        },
        _ => Ok(String::new()),
    }
}

/// Convert an attribute.
fn r_attribute(node: &Expr, ctx: &mut Ctx) -> (r: TResult<String>)
    requires
        node is Attribute,
    ensures
        keeps(old(ctx)@, final(ctx)@),
        grows(old(ctx)@, final(ctx)@),
        agrees(r, final(ctx)@, attribute_out(*node, old(ctx)@)),
    decreases node, 1nat,
{
    match node {
        Expr::Attribute { value, attr } => {
            let mut v = r_e(value, ctx)?;
            if ctx.has_enum(v.as_str()) {
                v.append("::");
                v.append(attr.as_str());
            } else if same(attr.as_str(), "append") {
                v.append(".push");
            } else {
                v.append(".");
                v.append(attr.as_str());
            }
            Ok(v)
        },
        _ => Ok(String::new()),
    }
}

/// Convert a subscript.
fn r_subscript(node: &Expr, ctx: &mut Ctx) -> (r: TResult<String>)
    requires
        node is Subscript,
    ensures
        keeps(old(ctx)@, final(ctx)@),
        grows(old(ctx)@, final(ctx)@),
        agrees(r, final(ctx)@, subscript_out(*node, old(ctx)@)),
    decreases node, 1nat,
{
    match node {
        Expr::Subscript { value, slice } => {
            let mut v = r_e(value, ctx)?;
            let s = r_e(slice, ctx)?;
            v.append("[");
            v.append(s.as_str());
            v.append("]");
            Ok(v)
        },
        _ => Ok(String::new()),
    }
}

/// Convert a list display.
fn r_list(node: &Expr, ctx: &mut Ctx) -> (r: TResult<String>)
    requires
        node is List,
    ensures
        keeps(old(ctx)@, final(ctx)@),
        grows(old(ctx)@, final(ctx)@),
        agrees(r, final(ctx)@, list_out(*node, old(ctx)@)),
    decreases node, 1nat,
{
    match node {
        Expr::List { elts } => {
            let ts = r_exprs(elts, ctx)?;
            let mut r = owned("vec![");
            r.append(join_with(&ts, "", "", ", ").as_str());
            r.append("]");
            Ok(r)
        },
        _ => Ok(String::new()),
    }
}

/// Convert a tuple display.
fn r_tuple(node: &Expr, ctx: &mut Ctx) -> (r: TResult<String>)
    requires
        node is Tuple,
    ensures
        keeps(old(ctx)@, final(ctx)@),
        grows(old(ctx)@, final(ctx)@),
        agrees(r, final(ctx)@, tuple_out(*node, old(ctx)@)),
    decreases node, 1nat,
{
    match node {
        Expr::Tuple { elts } => {
            let ts = r_exprs(elts, ctx)?;
            let mut r = owned("(");
            r.append(join_with(&ts, "", "", ", ").as_str());
            r.append(")");
            Ok(r)
        },
        _ => Ok(String::new()),
    }
}

/// Convert a slice.
fn r_slice(node: &Expr, ctx: &mut Ctx) -> (r: TResult<String>)
    requires
        node is Slice,
    ensures
        keeps(old(ctx)@, final(ctx)@),
        grows(old(ctx)@, final(ctx)@),
        agrees(r, final(ctx)@, slice_out(*node, old(ctx)@)),
    decreases node, 1nat,
{
    match node {
        Expr::Slice { step, .. } => {
            match step {
                Some(st) => {
                    let s = r_e(st, ctx)?;
                    let mut suffix = owned(".iter().step_by(");
                    suffix.append(s.as_str());
                    suffix.append(").collect::<Vec<_>>()");
                    r_slice_bounds(node, suffix.as_str(), ctx)
                },
                None => r_slice_bounds(node, "", ctx),
            }
        },
        _ => Ok(String::new()),
    }
}

fn param_names_exec(ps: &Vec<crate::ast::Param>) -> (r: Vec<String>)
    ensures
        views(r@) == param_names(ps@),
{
    let mut r: Vec<String> = Vec::new();
    let mut i: usize = 0;
    while i < ps.len()
        invariant
            i <= ps@.len(),
            views(r@) =~= param_names(ps@.take(i as int)),
        decreases ps.len() - i,
    {
        let ghost before = r@;
        r.push(owned(ps[i].name.as_str()));
        assert(views(r@) =~= views(before).push(ps@[i as int].name@));
        assert(param_names(ps@.take(i + 1)) =~= param_names(ps@.take(i as int)).push(ps@[i as int].name@));
        i = i + 1;
    }
    assert(ps@.take(ps@.len() as int) =~= ps@);
    r
}

/// The text of a literal.
fn r_constant(v: &Constant) -> (r: TResult<String>)
    ensures
        match constant_text(*v) {
            Ok(t) => r is Ok && r->Ok_0@ == t,
            Err(x) => r == Err::<String, TranspileError>(x),
        },
{
    match v {
        Constant::NoneValue => Ok(owned("None")),
        Constant::Str(s) => {
            let mut r = owned("\"");
            r.append(s.as_str());
            r.append("\"");
            Ok(r)
        },
        Constant::Bytes(b) => {
            let mut r = owned("b\"");
            r.append(escape_bytes(b).as_str());
            r.append("\"");
            Ok(r)
        },
        Constant::Bool(b) => if *b {
            Ok(owned("true"))
        } else {
            Ok(owned("false"))
        },
        Constant::Int(d) => Ok(owned(d.as_str())),
        Constant::Float(d) => Ok(owned(d.as_str())),
        Constant::Tuple => Err(TranspileError { rule: Rule::LiteralKind }),
        Constant::Complex => Err(TranspileError { rule: Rule::LiteralKind }),
        Constant::Ellipsis => Err(TranspileError { rule: Rule::LiteralKind }),
    }
}

/// The bounds of a slice, followed by `suffix`.
fn r_slice_bounds(node: &Expr, suffix: &str, ctx: &mut Ctx) -> (r: TResult<String>)
    requires
        node is Slice,
    ensures
        keeps(old(ctx)@, final(ctx)@),
        grows(old(ctx)@, final(ctx)@),
        agrees(r, final(ctx)@, slice_bounds_out(*node, suffix@, old(ctx)@)),
    decreases node, 0nat,
{
    match node {
        Expr::Slice { lower, upper, .. } => {
            let mut l = match lower {
                Some(x) => r_e(x, ctx)?,
                None => String::new(),
            };
            let u = match upper {
                Some(x) => r_e(x, ctx)?,
                None => String::new(),
            };
            l.append("..");
            l.append(u.as_str());
            l.append(suffix);
            Ok(l)
        },
        _ => Ok(String::new()),
    }
}

/// Convert a list of expressions, in order.
#[verifier::loop_isolation(false)]
pub fn r_exprs(es: &Vec<Expr>, ctx: &mut Ctx) -> (r: TResult<Vec<String>>)
    ensures
        keeps(old(ctx)@, final(ctx)@),
        grows(old(ctx)@, final(ctx)@),
        agrees_all(r, final(ctx)@, exprs_out(es@, old(ctx)@)),
        r is Ok ==> r->Ok_0@.len() == es@.len(),
    decreases es, 1nat,
{
    let ghost c0 = ctx@;
    let mut out: Vec<String> = Vec::new();
    let mut i: usize = 0;
    assert(es@.skip(0) =~= es@);
    assert(Seq::<Seq<char>>::empty() + Seq::<Seq<char>>::empty() =~= Seq::<Seq<char>>::empty());
    while i < es.len()
        invariant
            keeps(c0, ctx@),
            grows(c0, ctx@),
            i <= es@.len(),
            exprs_out(es@, c0) == prepend(views(out@), exprs_out(es@.skip(i as int), ctx@)),
            out@.len() == i,
        decreases es.len() - i,
    {
        let ghost rest = es@.skip(i as int);
        assert(rest.drop_first() =~= es@.skip(i + 1));
        let t = r_e(&es[i], ctx)?;
        proof {
            lemma_prepend(views(out@), seq![t@], exprs_out(es@.skip(i + 1), ctx@));
        }
        let ghost before = views(out@);
        out.push(t);
        assert(views(out@) =~= before + seq![t@]);
        i = i + 1;
    }
    assert(views(out@) + Seq::<Seq<char>>::empty() =~= views(out@));
    Ok(out)
}

/// Convert the keys of a mapping display.
#[verifier::loop_isolation(false)]
fn r_keys(ks: &Vec<Option<Expr>>, ctx: &mut Ctx) -> (r: TResult<Vec<String>>)
    ensures
        keeps(old(ctx)@, final(ctx)@),
        grows(old(ctx)@, final(ctx)@),
        agrees_all(r, final(ctx)@, keys_out(ks@, old(ctx)@)),
    decreases ks, 1nat,
{
    let ghost c0 = ctx@;
    let mut out: Vec<String> = Vec::new();
    let mut i: usize = 0;
    assert(ks@.skip(0) =~= ks@);
    assert(Seq::<Seq<char>>::empty() + Seq::<Seq<char>>::empty() =~= Seq::<Seq<char>>::empty());
    while i < ks.len()
        invariant
            keeps(c0, ctx@),
            grows(c0, ctx@),
            i <= ks@.len(),
            keys_out(ks@, c0) == prepend(views(out@), keys_out(ks@.skip(i as int), ctx@)),
        decreases ks.len() - i,
    {
        let ghost rest = ks@.skip(i as int);
        assert(rest.drop_first() =~= ks@.skip(i + 1));
        let t = match &ks[i] {
            Some(k) => r_e(k, ctx)?,
            None => return Err(TranspileError { rule: Rule::DictUnpack }),
        };
        proof {
            lemma_prepend(views(out@), seq![t@], keys_out(ks@.skip(i + 1), ctx@));
        }
        let ghost before = views(out@);
        out.push(t);
        assert(views(out@) =~= before + seq![t@]);
        i = i + 1;
    }
    assert(views(out@) + Seq::<Seq<char>>::empty() =~= views(out@));
    Ok(out)
}

/// Convert the values of keyword arguments; on success also gives their
/// names.
#[verifier::loop_isolation(false)]
fn r_kw_values(ks: &Vec<Keyword>, ctx: &mut Ctx) -> (r: TResult<(Vec<String>, Vec<String>)>)
    ensures
        keeps(old(ctx)@, final(ctx)@),
        grows(old(ctx)@, final(ctx)@),
        match kw_values_out(ks@, old(ctx)@) {
            Ok((ts, c1)) => r is Ok && views(r->Ok_0.1@) == ts && final(ctx)@ == c1 && views(
                r->Ok_0.0@,
            ) == kw_names(ks@),
            Err(x) => r is Err && r->Err_0 == x,
        },
        r is Ok ==> r->Ok_0.0@.len() == r->Ok_0.1@.len(),
    decreases ks, 1nat,
{
    let ghost c0 = ctx@;
    let mut names: Vec<String> = Vec::new();
    let mut out: Vec<String> = Vec::new();
    let mut i: usize = 0;
    assert(ks@.skip(0) =~= ks@);
    assert(Seq::<Seq<char>>::empty() + Seq::<Seq<char>>::empty() =~= Seq::<Seq<char>>::empty());
    while i < ks.len()
        invariant
            keeps(c0, ctx@),
            grows(c0, ctx@),
            i <= ks@.len(),
            kw_values_out(ks@, c0) == prepend(views(out@), kw_values_out(ks@.skip(i as int), ctx@)),
            views(names@) =~= kw_names(ks@.take(i as int)),
            names@.len() == i,
            out@.len() == i,
        decreases ks.len() - i,
    {
        let ghost rest = ks@.skip(i as int);
        assert(rest.drop_first() =~= ks@.skip(i + 1));
        let name = match &ks[i].arg {
            Some(n) => owned(n.as_str()),
            None => return Err(TranspileError { rule: Rule::KeywordUnpack }),
        };
        let t = r_e(&ks[i].value, ctx)?;
        proof {
            lemma_prepend(views(out@), seq![t@], kw_values_out(ks@.skip(i + 1), ctx@));
        }
        let ghost before = views(out@);
        let ghost names_before = views(names@);
        out.push(t);
        names.push(name);
        assert(views(out@) =~= before + seq![t@]);
        assert(views(names@) =~= names_before.push(name@));
        assert(kw_names(ks@.take(i + 1)) =~= kw_names(ks@.take(i as int)).push(name@));
        i = i + 1;
    }
    assert(views(out@) + Seq::<Seq<char>>::empty() =~= views(out@));
    assert(ks@.take(ks@.len() as int) =~= ks@);
    Ok((names, out))
}

/// Convert a comparison chain.
#[verifier::loop_isolation(false)]
fn r_compare(node: &Expr, ctx: &mut Ctx) -> (r: TResult<String>)
    requires
        node is Compare,
    ensures
        keeps(old(ctx)@, final(ctx)@),
        grows(old(ctx)@, final(ctx)@),
        agrees(r, final(ctx)@, compare_out(*node, old(ctx)@)),
    decreases node, 1nat,
{
    match node {
        Expr::Compare { left, ops, comparators } => {
            if ops.len() != comparators.len() {
                return Err(TranspileError { rule: Rule::CompareShape });
            }
            let l = r_e(left, ctx)?;
            let ts = r_exprs(comparators, ctx)?;
            let ghost all = seq![l@] + views(ts@);
            let mut parts: Vec<String> = Vec::new();
            let mut k: usize = 0;
            while k < ops.len()
                invariant
                    k <= ops@.len(),
                    ops@.len() == ts@.len(),
                    all == seq![l@] + views(ts@),
                    views(parts@) =~= compare_parts(ops@.take(k as int), all),
                decreases ops.len() - k,
            {
                let lhs: &str = if k == 0 {
                    l.as_str()
                } else {
                    ts[k - 1].as_str()
                };
                let rhs: &str = ts[k].as_str();
                assert(lhs@ == all[k as int]);
                assert(rhs@ == all[k + 1]);
                let part = match r_c(&ops[k]) {
                    Some(o) => {
                        let mut p = owned(lhs);
                        p.append(" ");
                        p.append(o);
                        p.append(" ");
                        p.append(rhs);
                        p
                    },
                    None => {
                        let mut p = if ops[k] == CmpOp::NotIn {
                            let mut q = owned("!");
                            q.append(rhs);
                            q
                        } else {
                            owned(rhs)
                        };
                        p.append(".into_iter().any(|v| v == ");
                        p.append(lhs);
                        p.append(")");
                        p
                    },
                };
                assert(part@ == compare_part(ops@[k as int], all[k as int], all[k + 1]));
                let ghost before = views(parts@);
                parts.push(part);
                assert(views(parts@) =~= before.push(part@));
                k = k + 1;
            }
            assert(ops@.take(ops@.len() as int) =~= ops@);
            Ok(join_with(&parts, "", "", "&&"))
        },
        _ => Ok(String::new()),
    }
}

/// The element a comprehension yields.
fn r_comp_elt(node: &Expr, ctx: &mut Ctx) -> (r: TResult<String>)
    ensures
        keeps(old(ctx)@, final(ctx)@),
        grows(old(ctx)@, final(ctx)@),
        agrees(r, final(ctx)@, comp_elt_out(*node, old(ctx)@)),
    decreases node, 0nat,
{
    match node {
        Expr::ListComp { elt, .. } => r_e(elt, ctx),
        Expr::SetComp { elt, .. } => r_e(elt, ctx),
        Expr::GeneratorExp { elt, .. } => r_e(elt, ctx),
        Expr::DictComp { key, value, .. } => {
            let k = r_e(key, ctx)?;
            let v = r_e(value, ctx)?;
            let mut r = owned("(");
            r.append(k.as_str());
            r.append(", ");
            r.append(v.as_str());
            r.append(")");
            Ok(r)
        },
        _ => Ok(String::new()),
    }
}

fn collect_suffix_exec(node: &Expr) -> (r: String)
    ensures
        r@ == collect_suffix(*node),
{
    let t = match node {
        Expr::ListComp { .. } => "Vec::<_>",
        Expr::SetComp { .. } => "HashSet::<_,_>",
        Expr::DictComp { .. } => "HashMap::<_,_>",
        _ => return String::new(),
    };
    let mut r = owned(".collect::<");
    r.append(t);
    r.append(">()");
    r
}

/// Convert a comprehension or generator expression.
fn r_comp(node: &Expr, ctx: &mut Ctx) -> (r: TResult<String>)
    ensures
        keeps(old(ctx)@, final(ctx)@),
        grows(old(ctx)@, final(ctx)@),
        agrees(r, final(ctx)@, comp_out(*node, old(ctx)@)),
    decreases node, 1nat,
{
    match node {
        Expr::ListComp { generators, .. }
        | Expr::SetComp { generators, .. }
        | Expr::DictComp { generators, .. }
        | Expr::GeneratorExp { generators, .. } => {
            if generators.len() != 1 {
                return Err(TranspileError { rule: Rule::NestedComprehension });
            }
            let g = &generators[0];
            if g.ifs.len() > 1 {
                return Err(TranspileError { rule: Rule::ComprehensionFilters });
            }
            let body = r_comp_elt(node, ctx)?;
            let collect = collect_suffix_exec(node);
            if g.ifs.len() == 1 {
                let cond = r_e(&g.ifs[0], ctx)?;
                let mut it = r_e(&g.iter, ctx)?;
                let tg = r_e(&g.target, ctx)?;
                let mut inner = owned("if ");
                inner.append(cond.as_str());
                inner.append(" { Some(");
                inner.append(body.as_str());
                inner.append(") } else { None } ");
                it.append(".into_iter().filter_map(|");
                it.append(tg.as_str());
                it.append("| { ");
                it.append(inner.as_str());
                it.append(" })");
                it.append(collect.as_str());
                Ok(it)
            } else {
                let mut it = r_e(&g.iter, ctx)?;
                let tg = r_e(&g.target, ctx)?;
                it.append(".into_iter().map(|");
                it.append(tg.as_str());
                it.append("| { ");
                it.append(body.as_str());
                it.append(" })");
                it.append(collect.as_str());
                Ok(it)
            }
        },
        _ => Ok(String::new()),
    }
}

/// Convert a call: arguments, callee and keyword values, then the dispatch.
fn r_call(node: &Expr, ctx: &mut Ctx) -> (r: TResult<String>)
    requires
        node is Call,
    ensures
        keeps(old(ctx)@, final(ctx)@),
        grows(old(ctx)@, final(ctx)@),
        agrees(r, final(ctx)@, call_out(*node, old(ctx)@)),
    decreases node, 1nat,
{
    match node {
        Expr::Call { func, args, keywords } => {
            let a = r_exprs(args, ctx)?;
            let f = r_e(func, ctx)?;
            let (names, kv) = r_kw_values(keywords, ctx)?;
            dispatch_call(func, f, &a, &names, &kv, ctx)
        },
        _ => Ok(String::new()),
    }
}

/// The argument list of a call.
fn args_text_exec(f: &str, a: &Vec<String>, names: &Vec<String>, kv: &Vec<String>) -> (r: String)
    requires
        names@.len() == kv@.len(),
    ensures
        r@ == args_text(f@, views(a@), views(names@), views(kv@)),
{
    let pos = join_with(a, "", "", ", ");
    let pairs = pair_up(names, ": ", kv, kv.len());
    let mut params = owned(f);
    params.append("Params {\n");
    params.append(join_with(&pairs, "", "", ", ").as_str());
    params.append("\n}");
    if a.len() == 0 && kv.len() == 0 {
        String::new()
    } else if a.len() == 0 {
        params
    } else if kv.len() == 0 {
        pos
    } else {
        let mut r = pos;
        r.append(", ");
        r.append(params.as_str());
        r
    }
}

/// Paired iteration over the arguments of `zip`.
fn zip_exec(a: &Vec<String>) -> (r: String)
    requires
        a@.len() > 0,
    ensures
        r@ == zip_text(views(a@)),
{
    let ghost va = views(a@);
    let mut chain = owned(a[0].as_str());
    chain.append(".iter()");
    let mut pattern = owned(a[0].as_str());
    let mut k: usize = 1;
    while k < a.len()
        invariant
            1 <= k <= a@.len(),
            va == views(a@),
            chain@ == zip_chain(va, k as nat),
            pattern@ == zip_pattern(va, k as nat),
        decreases a.len() - k,
    {
        chain.append(".zip(");
        chain.append(a[k].as_str());
        chain.append(".iter())");
        let mut p = owned("(");
        p.append(pattern.as_str());
        p.append(", ");
        p.append(a[k].as_str());
        p.append(")");
        pattern = p;
        k = k + 1;
    }
    if a.len() > 2 {
        chain.append(".map(|");
        chain.append(pattern.as_str());
        chain.append("| (");
        chain.append(join_with(a, "", "", ", ").as_str());
        chain.append("))");
    }
    chain
}

/// A call, once its parts are translated.
fn dispatch_call(
    func: &Expr,
    f: String,
    a: &Vec<String>,
    names: &Vec<String>,
    kv: &Vec<String>,
    ctx: &mut Ctx,
) -> (r: TResult<String>)
    requires
        names@.len() == kv@.len(),
    ensures
        keeps(old(ctx)@, final(ctx)@),
        grows(old(ctx)@, final(ctx)@),
        agrees(
            r,
            final(ctx)@,
            call_dispatch(*func, f@, views(a@), views(names@), views(kv@), old(ctx)@),
        ),
{
    let args = args_text_exec(f.as_str(), a, names, kv);
    match ctx.get_class_members(f.as_str()) {
        Some(idx) => {
            let members = &ctx.classes[idx].1;
            let mut body = if kv.len() == 0 {
                let n = if members.len() < a.len() {
                    members.len()
                } else {
                    a.len()
                };
                let pairs = pair_up(members, " : ", a, n);
                join_with(&pairs, "", ",", "\n")
            } else if a.len() > 0 {
                return Err(TranspileError { rule: Rule::RecordArgsMixed });
            } else {
                let pairs = pair_up(names, " : ", kv, kv.len());
                join_with(&pairs, "", ",", "\n")
            };
            let mut r = f;
            r.append(" {\n");
            r.append(body.as_str());
            r.append("\n}");
            return Ok(r);
        },
        None => {},
    }
    let fs = f.as_str();
    if same(fs, "print") {
        let mut r = owned("println!(\"{:?}\", ");
        r.append(args.as_str());
        r.append(")");
        Ok(r)
    } else if same(fs, "enumerate") {
        let mut r = args;
        r.append(".iter().enumerate()");
        Ok(r)
    } else if same(fs, "zip") {
        if a.len() == 0 {
            Err(TranspileError { rule: Rule::ZipArity })
        } else {
            Ok(zip_exec(a))
        }
    } else if same(fs, "str") {
        let mut r = args;
        r.append(".to_string()");
        Ok(r)
    } else if same(fs, "len") {
        let mut r = args;
        r.append(".len()");
        Ok(r)
    } else if same(fs, "sum") {
        let mut r = args;
        r.append(".iter().sum()");
        Ok(r)
    } else if same(fs, "int") || same(fs, "float") {
        let t = r_annotation(func)?;
        let mut r = owned("((");
        r.append(args.as_str());
        r.append(") as ");
        r.append(t.as_str());
        r.append(")");
        Ok(r)
    } else if same(fs, "range") {
        if kv.len() == 0 && a.len() == 1 {
            let mut r = owned("(0..");
            r.append(a[0].as_str());
            r.append(")");
            Ok(r)
        } else if kv.len() == 0 && a.len() == 2 {
            let mut r = owned("(");
            r.append(a[0].as_str());
            r.append("..");
            r.append(a[1].as_str());
            r.append(")");
            Ok(r)
        } else if kv.len() == 0 && a.len() == 3 {
            Err(TranspileError { rule: Rule::RangeStep })
        } else {
            Err(TranspileError { rule: Rule::RangeArity })
        }
    } else {
        dispatch_qualified(f, args, ctx)
    }
}

/// A call whose callee is none of the builtins: through the math module
/// alias, the serialization module, the numeric-array module, or plain.
fn dispatch_qualified(f: String, args: String, ctx: &mut Ctx) -> (r: TResult<String>)
    requires
        class_members(old(ctx)@.classes, f@) is None,
        f@ != "print"@,
        f@ != "enumerate"@,
        f@ != "zip"@,
        f@ != "str"@,
        f@ != "len"@,
        f@ != "sum"@,
        f@ != "int"@,
        f@ != "float"@,
        f@ != "range"@,
    ensures
        keeps(old(ctx)@, final(ctx)@),
        grows(old(ctx)@, final(ctx)@),
        agrees(r, final(ctx)@, call_dispatch_rest(f@, args@, old(ctx)@)),
{
    let module: Option<String> = match &ctx.imports.math_import_name {
        Some(m) => Some(owned(m.as_str())),
        None => None,
    };
    match module {
        Some(m) => {
            let mut prefix = m;
            prefix.append(".");
            proof {
                reveal_strlit(".");
            }
            match strip_prefix(f.as_str(), prefix.as_str()) {
                Some(member) => {
                    table_upsert(&mut ctx.imports.math, member.as_str(), None, true);
                    let mut r = owned("prelude::");
                    r.append(member.as_str());
                    r.append("(");
                    r.append(args.as_str());
                    r.append(")");
                    return Ok(r);
                },
                None => {},
            }
        },
        None => {},
    }
    let fs = f.as_str();
    if same(fs, "json.loads") {
        let mut r = owned("serde_json::from_string(");
        r.append(args.as_str());
        r.append(").unwrap()");
        Ok(r)
    } else if same(fs, "json.dumps") {
        let mut r = owned("serde_json::to_string(");
        r.append(args.as_str());
        r.append(").unwrap()");
        Ok(r)
    } else if crate::text::starts_with(fs, "np.") {
        if same(fs, "np.where") {
            let mut r = owned("ndarray::azip((");
            r.append(args.as_str());
            r.append("), { zip body })");
            Ok(r)
        } else {
            Err(TranspileError { rule: Rule::NumpyCall })
        }
    } else {
        let mut r = f;
        r.append("(");
        r.append(args.as_str());
        r.append(")");
        Ok(r)
    }
}

} // verus!
