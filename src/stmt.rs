//! The statement translator: lowers each statement kind to text, registering
//! records, enumerations and imports in the run's state.
use vstd::prelude::*;
use crate::annotation::r_annotation;
use crate::ast::{Alias, Constant, ExceptHandler, Expr, MatchCase, Param, Pattern, Stmt};
use crate::context::{grows, keeps, names_kept, opt_view, pairs_view, table_sorted, table_upsert, table_view, Ctx, Promotion, Table};
use crate::error::{Rule, TranspileError};
use crate::expr::{r_e, r_exprs};
use crate::expr_spec::{agrees, agrees_all, lemma_prepend, prepend, Outs};
use crate::operators::r_o;
use crate::stmt_spec::{
    annassign_out, assert_out, assign_out, augassign_out, cases_out, class_out, conversions, conversion_line,
    delete_out, fields_out, fndef_out, for_out, handlers_out, has_doc, doc_text, if_out,
    import_from_ctx, is_enum_class, match_out, math_alias, members_allowed, params_out,
    promotion_of, raise_out, record_members, ret_text, return_out, selected_out, stmt_out,
    stmts_out, try_out, type_alias_out, while_out, with_methods,
};
use crate::padded::padded_text;
use crate::text::{join_with, joined, owned, same, starts_with, views};

verus! {

type TResult<T> = Result<T, TranspileError>;

/// Convert a statement.
pub fn r_s(node: &Stmt, ctx: &mut Ctx) -> (r: TResult<String>)
    ensures
        keeps(old(ctx)@, final(ctx)@),
        grows(old(ctx)@, final(ctx)@),
        agrees(r, final(ctx)@, stmt_out(*node, old(ctx)@)),
    decreases node, 2nat,
{
    match node {
        Stmt::FunctionDef { .. } => r_fndef(node, ctx),
        Stmt::AsyncFunctionDef => Err(TranspileError { rule: Rule::AsyncFunctionDef }),
        Stmt::ClassDef { .. } => r_class(node, ctx),
        Stmt::Return { .. } => r_return(node, ctx),
        Stmt::Delete { .. } => r_delete(node, ctx),
        Stmt::Assign { .. } => r_assign(node, ctx),
        Stmt::AugAssign { .. } => r_augassign(node, ctx),
        Stmt::AnnAssign { .. } => r_annassign(node, ctx),
        Stmt::For { .. } => r_for(node, ctx),
        Stmt::AsyncFor => Err(TranspileError { rule: Rule::AsyncFor }),
        Stmt::While { .. } => r_while(node, ctx),
        Stmt::If { .. } => r_if(node, ctx),
        Stmt::With => Err(TranspileError { rule: Rule::With }),
        Stmt::AsyncWith => Err(TranspileError { rule: Rule::AsyncWith }),
        Stmt::Match { .. } => r_match(node, ctx),
        Stmt::Raise { .. } => r_raise(node, ctx),
        Stmt::Try { .. } => r_try(node, ctx),
        Stmt::TryStar => Err(TranspileError { rule: Rule::TryStar }),
        Stmt::Assert { .. } => r_assert(node, ctx),
        Stmt::Import { names } => {
            r_import(names, ctx);
            Ok(String::new())
        },
        Stmt::ImportFrom { .. } => {
            r_import_from(node, ctx);
            Ok(String::new())
        },
        Stmt::Global => Err(TranspileError { rule: Rule::Global }),
        Stmt::Nonlocal => Err(TranspileError { rule: Rule::Nonlocal }),
        Stmt::Expr { value } => r_e(value, ctx),
        Stmt::Pass => Ok(owned("todo!()")),
        Stmt::Break => Ok(owned("break")),
        Stmt::Continue => Ok(owned("continue")),
        Stmt::TypeAlias { .. } => r_type_alias(node, ctx),
    }
}

/// Convert the statements of `ss` from position `from` on, in order.
#[verifier::loop_isolation(false)]
pub fn r_stmts_from(ss: &Vec<Stmt>, from: usize, ctx: &mut Ctx) -> (r: TResult<Vec<String>>)
    requires
        from <= ss@.len(),
    ensures
        keeps(old(ctx)@, final(ctx)@),
        grows(old(ctx)@, final(ctx)@),
        agrees_all(r, final(ctx)@, stmts_out(ss@.skip(from as int), old(ctx)@)),
        r is Ok ==> r->Ok_0@.len() == ss@.len() - from,
    decreases ss, 1nat,
{
    let ghost c0 = ctx@;
    let mut out: Vec<String> = Vec::new();
    let mut i: usize = from;
    assert(Seq::<Seq<char>>::empty() + Seq::<Seq<char>>::empty() =~= Seq::<Seq<char>>::empty());
    while i < ss.len()
        invariant
            keeps(c0, ctx@),
            grows(c0, ctx@),
            from <= i <= ss@.len(),
            out@.len() == i - from,
            stmts_out(ss@.skip(from as int), c0) == prepend(
                views(out@),
                stmts_out(ss@.skip(i as int), ctx@),
            ),
        decreases ss.len() - i,
    {
        let ghost rest = ss@.skip(i as int);
        assert(rest.drop_first() =~= ss@.skip(i + 1));
        let t = r_s(&ss[i], ctx)?;
        proof {
            lemma_prepend(views(out@), seq![t@], stmts_out(ss@.skip(i + 1), ctx@));
        }
        let ghost before = views(out@);
        out.push(t);
        assert(views(out@) =~= before + seq![t@]);
        i = i + 1;
    }
    assert(views(out@) + Seq::<Seq<char>>::empty() =~= views(out@));
    Ok(out)
}

/// Convert a list of statements, in order.
pub fn r_stmts(ss: &Vec<Stmt>, ctx: &mut Ctx) -> (r: TResult<Vec<String>>)
    ensures
        keeps(old(ctx)@, final(ctx)@),
        grows(old(ctx)@, final(ctx)@),
        agrees_all(r, final(ctx)@, stmts_out(ss@, old(ctx)@)),
        r is Ok ==> r->Ok_0@.len() == ss@.len(),
    decreases ss, 2nat,
{
    assert(ss@.skip(0) =~= ss@);
    r_stmts_from(ss, 0, ctx)
}

/// Convert the parameters of a function.
#[verifier::loop_isolation(false)]
fn r_params(ps: &Vec<Param>, ctx: &mut Ctx) -> (r: TResult<Vec<String>>)
    ensures
        keeps(old(ctx)@, final(ctx)@),
        grows(old(ctx)@, final(ctx)@),
        agrees_all(r, final(ctx)@, params_out(ps@, old(ctx)@)),
{
    let ghost c0 = ctx@;
    let mut out: Vec<String> = Vec::new();
    let mut i: usize = 0;
    assert(ps@.skip(0) =~= ps@);
    assert(Seq::<Seq<char>>::empty() + Seq::<Seq<char>>::empty() =~= Seq::<Seq<char>>::empty());
    while i < ps.len()
        invariant
            keeps(c0, ctx@),
            grows(c0, ctx@),
            i <= ps@.len(),
            params_out(ps@, c0) == prepend(views(out@), params_out(ps@.skip(i as int), ctx@)),
        decreases ps.len() - i,
    {
        let ghost rest = ps@.skip(i as int);
        assert(rest.drop_first() =~= ps@.skip(i + 1));
        let p = &ps[i];
        let t = if same(p.name.as_str(), "self") {
            owned("&self")
        } else {
            let ty = match &p.annotation {
                Some(a) => r_annotation(a)?,
                None => owned("()"),
            };
            if starts_with(ty.as_str(), "numpy::") {
                let ghost before = ctx@;
                ctx.numpy_array_args.push((owned(p.name.as_str()), owned(ty.as_str())));
                assert(ctx@.array_args =~= before.array_args.push((p.name@, ty@)));
            }
            let mut t = owned(p.name.as_str());
            t.append(": ");
            t.append(ty.as_str());
            t
        };
        proof {
            lemma_prepend(views(out@), seq![t@], params_out(ps@.skip(i + 1), ctx@));
        }
        let ghost before = views(out@);
        out.push(t);
        assert(views(out@) =~= before + seq![t@]);
        i = i + 1;
    }
    assert(views(out@) + Seq::<Seq<char>>::empty() =~= views(out@));
    Ok(out)
}

/// The prologue converting each staged foreign array to an owned buffer.
fn conversions_exec(a: &Vec<(String, String)>) -> (r: String)
    ensures
        r@ == conversions(pairs_view(a@)),
{
    let ghost av = pairs_view(a@);
    let mut items: Vec<String> = Vec::new();
    let mut i: usize = 0;
    while i < a.len()
        invariant
            i <= a@.len(),
            av == pairs_view(a@),
            views(items@) =~= av.take(i as int).map_values(|p: (Seq<char>, Seq<char>)| conversion_line(p)),
        decreases a.len() - i,
    {
        let mut t = owned("let ");
        t.append(a[i].0.as_str());
        t.append(" = ");
        t.append(a[i].0.as_str());
        t.append(".as_array().to_owned();");
        let ghost before = views(items@);
        items.push(t);
        assert(views(items@) =~= before.push(t@));
        assert(av.take(i + 1).map_values(|p: (Seq<char>, Seq<char>)| conversion_line(p)) =~= av.take(
            i as int,
        ).map_values(|p: (Seq<char>, Seq<char>)| conversion_line(p)).push(conversion_line(av[i as int])));
        i = i + 1;
    }
    assert(av.take(av.len() as int) =~= av);
    assert(views(items@) =~= av.map_values(|p: (Seq<char>, Seq<char>)| conversion_line(p)));
    join_with(&items, "", "", "")
}

/// The documentation comment of a body and the position where its
/// statements start.
fn doc_of(body: &Vec<Stmt>) -> (r: (String, usize))
    ensures
        r.1 <= body@.len(),
        body@.skip(r.1 as int) == (if has_doc(body@) { body@.drop_first() } else { body@ }),
        r.0@ == (if has_doc(body@) { doc_text(body@) } else { ""@ }),
{
    if body.len() > 0 {
        match &body[0] {
            Stmt::Expr { value: Expr::Constant { value: Constant::Str(d) } } => {
                let mut r = owned("/*! ");
                r.append(d.as_str());
                r.append(" */");
                assert(body@.skip(1) =~= body@.drop_first());
                return (r, 1);
            },
            _ => {},
        }
    }
    assert(body@.skip(0) =~= body@);
    (owned(""), 0)
}

/// The text of a function definition from its translated parts.
fn fn_text(
    doc: &str,
    name: &str,
    lifetimes: &str,
    params: &str,
    ret: &str,
    conv: &str,
    bs: &Vec<String>,
) -> (r: String)
    ensures
        r@ == doc@ + "\nfn "@ + name@ + lifetimes@ + "("@ + params@ + ") -> "@ + ret@ + " {\n"@ + conv@
            + "\n\n"@ + crate::text::concat(views(bs@)) + "}\n"@,
{
    let mut r = owned(doc);
    r.append("\nfn ");
    r.append(name);
    r.append(lifetimes);
    r.append("(");
    r.append(params);
    r.append(") -> ");
    r.append(ret);
    r.append(" {\n");
    r.append(conv);
    r.append("\n\n");
    r.append(join_with(bs, "", "", "").as_str());
    r.append("}\n");
    r
}

/// The parameter list, with the interpreter handle first when foreign arrays
/// are staged.
fn params_text(ps: &Vec<String>, arrays: bool) -> (r: String)
    ensures
        r@ == (if arrays {
            "py: pyo3::Python<'py>, "@ + joined(views(ps@), ""@, ""@, ", "@)
        } else {
            joined(views(ps@), ""@, ""@, ", "@)
        }),
{
    let joined_ps = join_with(ps, "", "", ", ");
    if arrays {
        let mut p = owned("py: pyo3::Python<'py>, ");
        p.append(joined_ps.as_str());
        p
    } else {
        joined_ps
    }
}

/// The return type as written and the promotion it asks for.
fn ret_of(ret: String) -> (r: (String, Promotion))
    ensures
        r.0@ == ret_text(ret@),
        r.1 == promotion_of(ret@),
{
    let is_array = starts_with(ret.as_str(), "numpy::");
    let promotion = if starts_with(ret.as_str(), "Option<") {
        Promotion::Into
    } else if is_array {
        Promotion::IntoPyArray
    } else {
        Promotion::Plain
    };
    if is_array {
        let mut t = owned("&'py ");
        t.append(ret.as_str());
        (t, promotion)
    } else {
        (ret, promotion)
    }
}

/// Convert a function definition.
#[verifier::rlimit(50)]
fn r_fndef(node: &Stmt, ctx: &mut Ctx) -> (r: TResult<String>)
    requires
        node is FunctionDef,
    ensures
        keeps(old(ctx)@, final(ctx)@),
        grows(old(ctx)@, final(ctx)@),
        agrees(r, final(ctx)@, fndef_out(*node, old(ctx)@)),
    decreases node, 1nat,
{
    match node {
        Stmt::FunctionDef { name, args, body, returns } => {
            if args.posonlyargs.len() != 0 || args.vararg || args.kwonlyargs.len() != 0
                || args.kwarg {
                return Err(TranspileError { rule: Rule::FunctionParams });
            }
            let saved_promotion = ctx.ret_needs_promotion;
            let saved_mut = ctx.declare_var_mut;
            ctx.declare_var_mut = false;
            let mut saved_arrays: Vec<(String, String)> = Vec::new();
            std::mem::swap(&mut saved_arrays, &mut ctx.numpy_array_args);
            assert(ctx@.array_args =~= Seq::<(Seq<char>, Seq<char>)>::empty());
            let ps = r_params(&args.args, ctx)?;
            let ret = match returns {
                Some(r) => r_annotation(r)?,
                None => owned("()"),
            };
            let arrays = ctx.numpy_array_args.len() > 0;
            let params = params_text(&ps, arrays);
            let lifetimes = if arrays {
                "<'py>"
            } else {
                ""
            };
            let conv = conversions_exec(&ctx.numpy_array_args);
            let (ret_t, promotion) = ret_of(ret);
            ctx.ret_needs_promotion = promotion;
            let (doc, from) = doc_of(body);
            let bs = r_stmts_from(body, from, ctx)?;
            ctx.ret_needs_promotion = saved_promotion;
            ctx.declare_var_mut = saved_mut;
            std::mem::swap(&mut saved_arrays, &mut ctx.numpy_array_args);
            Ok(fn_text(
                doc.as_str(),
                name.as_str(),
                lifetimes,
                params.as_str(),
                ret_t.as_str(),
                conv.as_str(),
                &bs,
            ))
        },
        _ => Ok(String::new()),
    }
}

/// Whether some base of a class is the enumeration marker.
fn is_enum_class_exec(bases: &Vec<Expr>) -> (r: bool)
    ensures
        r == is_enum_class(bases@),
{
    let mut i: usize = 0;
    while i < bases.len()
        invariant
            i <= bases@.len(),
            forall|j: int|
                0 <= j < i ==> !(#[trigger] bases@[j] matches Expr::Name { id } && id@ == "Enum"@),
        decreases bases.len() - i,
    {
        match &bases[i] {
            Expr::Name { id } => {
                if same(id.as_str(), "Enum") {
                    assert(bases@[i as int] matches Expr::Name { id } && id@ == "Enum"@);
                    return true;
                }
            },
            _ => {},
        }
        i = i + 1;
    }
    false
}

/// Whether a class body holds only the members its class allows.
fn members_allowed_exec(body: &Vec<Stmt>, is_enum: bool) -> (r: bool)
    ensures
        r == members_allowed(body@, is_enum),
{
    let mut i: usize = 0;
    while i < body.len()
        invariant
            i <= body@.len(),
            forall|j: int|
                0 <= j < i ==> (#[trigger] body@[j] is FunctionDef || (if is_enum {
                    body@[j] is Assign
                } else {
                    body@[j] is AnnAssign
                })),
        decreases body.len() - i,
    {
        let ok = match &body[i] {
            Stmt::FunctionDef { .. } => true,
            Stmt::Assign { .. } => is_enum,
            Stmt::AnnAssign { .. } => !is_enum,
            _ => false,
        };
        if !ok {
            return false;
        }
        i = i + 1;
    }
    true
}

/// Convert the methods (`defs`) or the plain assignments (not `defs`) of a
/// class body, in order.
#[verifier::loop_isolation(false)]
fn r_selected(ss: &Vec<Stmt>, defs: bool, ctx: &mut Ctx) -> (r: TResult<Vec<String>>)
    ensures
        keeps(old(ctx)@, final(ctx)@),
        grows(old(ctx)@, final(ctx)@),
        agrees_all(r, final(ctx)@, selected_out(ss@, defs, old(ctx)@)),
    decreases ss, 1nat,
{
    let ghost c0 = ctx@;
    let mut out: Vec<String> = Vec::new();
    let mut i: usize = 0;
    assert(ss@.skip(0) =~= ss@);
    assert(Seq::<Seq<char>>::empty() + Seq::<Seq<char>>::empty() =~= Seq::<Seq<char>>::empty());
    while i < ss.len()
        invariant
            keeps(c0, ctx@),
            grows(c0, ctx@),
            i <= ss@.len(),
            selected_out(ss@, defs, c0) == prepend(
                views(out@),
                selected_out(ss@.skip(i as int), defs, ctx@),
            ),
        decreases ss.len() - i,
    {
        let ghost rest = ss@.skip(i as int);
        assert(rest.drop_first() =~= ss@.skip(i + 1));
        let wanted = match &ss[i] {
            Stmt::FunctionDef { .. } => defs,
            Stmt::Assign { .. } => !defs,
            _ => false,
        };
        if wanted {
            let t = r_s(&ss[i], ctx)?;
            proof {
                lemma_prepend(views(out@), seq![t@], selected_out(ss@.skip(i + 1), defs, ctx@));
            }
            let ghost before = views(out@);
            out.push(t);
            assert(views(out@) =~= before + seq![t@]);
        }
        i = i + 1;
    }
    assert(views(out@) + Seq::<Seq<char>>::empty() =~= views(out@));
    Ok(out)
}

/// `r` with the names `a` and the fields `b` put in front of its own.
spec fn prepend_fields(
    a: Seq<Seq<char>>,
    b: Seq<Seq<char>>,
    r: Result<(Seq<Seq<char>>, Seq<Seq<char>>, crate::context::CtxView), TranspileError>,
) -> Result<(Seq<Seq<char>>, Seq<Seq<char>>, crate::context::CtxView), TranspileError> {
    match r {
        Ok((ns, ts, c)) => Ok((a + ns, b + ts, c)),
        Err(e) => Err(e),
    }
}

proof fn lemma_prepend_fields(
    a: Seq<Seq<char>>,
    b: Seq<Seq<char>>,
    x: Seq<char>,
    y: Seq<char>,
    r: Result<(Seq<Seq<char>>, Seq<Seq<char>>, crate::context::CtxView), TranspileError>,
)
    ensures
        prepend_fields(a, b, prepend_fields(seq![x], seq![y], r)) == prepend_fields(
            a.push(x),
            b.push(y),
            r,
        ),
{
    if let Ok((ns, ts, c)) = r {
        assert(a + (seq![x] + ns) =~= a.push(x) + ns);
        assert(b + (seq![y] + ts) =~= b.push(y) + ts);
    }
}

/// Convert the annotated fields of a record body: their names and their
/// typed declarations.
#[verifier::loop_isolation(false)]
fn r_fields(ss: &Vec<Stmt>, ctx: &mut Ctx) -> (r: TResult<(Vec<String>, Vec<String>)>)
    ensures
        keeps(old(ctx)@, final(ctx)@),
        grows(old(ctx)@, final(ctx)@),
        match fields_out(ss@, old(ctx)@) {
            Ok((ns, ts, c1)) => r is Ok && views(r->Ok_0.0@) == ns && views(r->Ok_0.1@) == ts
                && final(ctx)@ == c1,
            Err(x) => r is Err && r->Err_0 == x,
        },
    decreases ss, 1nat,
{
    let ghost c0 = ctx@;
    let mut names: Vec<String> = Vec::new();
    let mut fields: Vec<String> = Vec::new();
    let mut i: usize = 0;
    assert(ss@.skip(0) =~= ss@);
    assert(Seq::<Seq<char>>::empty() + Seq::<Seq<char>>::empty() =~= Seq::<Seq<char>>::empty());
    while i < ss.len()
        invariant
            keeps(c0, ctx@),
            grows(c0, ctx@),
            i <= ss@.len(),
            fields_out(ss@, c0) == prepend_fields(
                views(names@),
                views(fields@),
                fields_out(ss@.skip(i as int), ctx@),
            ),
        decreases ss.len() - i,
    {
        let ghost rest = ss@.skip(i as int);
        assert(rest.drop_first() =~= ss@.skip(i + 1));
        match &ss[i] {
            Stmt::AnnAssign { target, .. } => {
                let n = r_e(target, ctx)?;
                let t = r_s(&ss[i], ctx)?;
                proof {
                    lemma_prepend_fields(
                        views(names@),
                        views(fields@),
                        n@,
                        t@,
                        fields_out(ss@.skip(i + 1), ctx@),
                    );
                }
                let ghost nb = views(names@);
                let ghost fb = views(fields@);
                names.push(n);
                fields.push(t);
                assert(views(names@) =~= nb.push(n@));
                assert(views(fields@) =~= fb.push(t@));
            },
            _ => {},
        }
        i = i + 1;
    }
    assert(views(names@) + Seq::<Seq<char>>::empty() =~= views(names@));
    assert(views(fields@) + Seq::<Seq<char>>::empty() =~= views(fields@));
    Ok((names, fields))
}

/// The type definition followed by its block of methods, if any.
fn with_methods_exec(def: String, name: &str, ms: &Vec<String>) -> (r: String)
    ensures
        r@ == with_methods(def@, name@, views(ms@)),
{
    let mut r = def;
    r.append("\n");
    if ms.len() == 0 {
        assert(r@ + ""@ =~= r@) by {
            reveal_strlit("");
        }
        r
    } else {
        let mut block = owned("impl ");
        block.append(name);
        block.append(" {\n");
        block.append(join_with(ms, "", "", "\n").as_str());
        block.append(" }\n");
        r.append(block.as_str());
        r
    }
}

/// Convert a class definition.
fn r_class(node: &Stmt, ctx: &mut Ctx) -> (r: TResult<String>)
    requires
        node is ClassDef,
    ensures
        keeps(old(ctx)@, final(ctx)@),
        grows(old(ctx)@, final(ctx)@),
        agrees(r, final(ctx)@, class_out(*node, old(ctx)@)),
    decreases node, 1nat,
{
    match node {
        Stmt::ClassDef { name, bases, body } => {
            if is_enum_class_exec(bases) {
                if !members_allowed_exec(body, true) {
                    return Err(TranspileError { rule: Rule::ClassMember });
                }
                let ghost before = ctx@;
                ctx.enums.push(owned(name.as_str()));
                ctx.in_enum = true;
                assert(ctx@.enums =~= before.enums.push(name@));
                let fs = r_selected(body, false, ctx)?;
                ctx.in_enum = false;
                let ms = r_selected(body, true, ctx)?;
                let mut def = owned("\n#[derive(Debug, Clone)]\nenum ");
                def.append(name.as_str());
                def.append(" {\n");
                def.append(join_with(&fs, "", "", ",\n").as_str());
                def.append("\n}");
                Ok(with_methods_exec(def, name.as_str(), &ms))
            } else {
                if !members_allowed_exec(body, false) {
                    return Err(TranspileError { rule: Rule::ClassMember });
                }
                let (ns, ts) = r_fields(body, ctx)?;
                let ghost before = ctx@;
                let ghost nsv = views(ns@);
                ctx.classes.push((owned(name.as_str()), ns));
                assert(ctx@.classes =~= before.classes.push((name@, nsv)));
                let ms = r_selected(body, true, ctx)?;
                let mut def = owned("\n#[derive(Debug, Clone)]\nstruct ");
                def.append(name.as_str());
                def.append(" {\n");
                def.append(join_with(&ts, "", "", ",\n").as_str());
                def.append("\n}");
                Ok(with_methods_exec(def, name.as_str(), &ms))
            }
        },
        _ => Ok(String::new()),
    }
}

/// Convert a return.
fn r_return(node: &Stmt, ctx: &mut Ctx) -> (r: TResult<String>)
    requires
        node is Return,
    ensures
        keeps(old(ctx)@, final(ctx)@),
        grows(old(ctx)@, final(ctx)@),
        agrees(r, final(ctx)@, return_out(*node, old(ctx)@)),
{
    match node {
        Stmt::Return { value: Some(v) } => {
            let t = r_e(v, ctx)?;
            let mut r = match ctx.ret_needs_promotion {
                Promotion::Plain => owned("return "),
                Promotion::Into => owned("return ("),
                Promotion::IntoPyArray => owned("return ("),
            };
            r.append(t.as_str());
            match ctx.ret_needs_promotion {
                Promotion::Plain => r.append(";\n"),
                Promotion::Into => r.append(").into();\n"),
                Promotion::IntoPyArray => r.append(").into_pyarray(py);\n"),
            }
            Ok(r)
        },
        _ => Err(TranspileError { rule: Rule::BareReturn }),
    }
}

/// Convert a deletion of names.
#[verifier::loop_isolation(false)]
fn r_delete(node: &Stmt, ctx: &mut Ctx) -> (r: TResult<String>)
    requires
        node is Delete,
    ensures
        keeps(old(ctx)@, final(ctx)@),
        grows(old(ctx)@, final(ctx)@),
        agrees(r, final(ctx)@, delete_out(*node, old(ctx)@)),
{
    match node {
        Stmt::Delete { targets } => {
            let mut i: usize = 0;
            while i < targets.len()
                invariant
                    i <= targets@.len(),
                    forall|j: int| 0 <= j < i ==> (#[trigger] targets@[j]) is Name,
                decreases targets.len() - i,
            {
                match &targets[i] {
                    Expr::Name { .. } => {},
                    _ => {
                        assert(!(targets@[i as int] is Name));
                        return Err(TranspileError { rule: Rule::DeleteTarget });
                    },
                }
                i = i + 1;
            }
            let ts = r_exprs(targets, ctx)?;
            Ok(join_with(&ts, "drop(", ")", ";"))
        },
        _ => Ok(String::new()),
    }
}

/// Convert an assignment.
fn r_assign(node: &Stmt, ctx: &mut Ctx) -> (r: TResult<String>)
    requires
        node is Assign,
    ensures
        keeps(old(ctx)@, final(ctx)@),
        grows(old(ctx)@, final(ctx)@),
        agrees(r, final(ctx)@, assign_out(*node, old(ctx)@)),
{
    match node {
        Stmt::Assign { targets, value } => {
            if targets.len() != 1 {
                return Err(TranspileError { rule: Rule::ChainedAssignment });
            }
            if ctx.in_enum {
                let mut t = r_e(&targets[0], ctx)?;
                let v = r_e(value, ctx)?;
                t.append(" = ");
                t.append(v.as_str());
                return Ok(t);
            }
            let v = r_e(value, ctx)?;
            match &targets[0] {
                Expr::Attribute { .. } => {
                    let mut t = r_e(&targets[0], ctx)?;
                    t.append(" = ");
                    t.append(v.as_str());
                    t.append(";\n");
                    Ok(t)
                },
                _ => {
                    ctx.declare_var_mut = true;
                    let t = r_e(&targets[0], ctx)?;
                    ctx.declare_var_mut = false;
                    let mut r = owned("let ");
                    r.append(t.as_str());
                    r.append(" = ");
                    r.append(v.as_str());
                    r.append(";\n");
                    Ok(r)
                },
            }
        },
        _ => Ok(String::new()),
    }
}

/// Convert an augmented assignment.
fn r_augassign(node: &Stmt, ctx: &mut Ctx) -> (r: TResult<String>)
    requires
        node is AugAssign,
    ensures
        keeps(old(ctx)@, final(ctx)@),
        grows(old(ctx)@, final(ctx)@),
        agrees(r, final(ctx)@, augassign_out(*node, old(ctx)@)),
{
    match node {
        Stmt::AugAssign { target, op, value } => {
            let mut t = r_e(target, ctx)?;
            let o = r_o(op)?;
            let v = r_e(value, ctx)?;
            t.append(" ");
            t.append(o);
            t.append("= ");
            t.append(v.as_str());
            t.append(";");
            Ok(t)
        },
        _ => Ok(String::new()),
    }
}

/// Convert an annotated assignment.
fn r_annassign(node: &Stmt, ctx: &mut Ctx) -> (r: TResult<String>)
    requires
        node is AnnAssign,
    ensures
        keeps(old(ctx)@, final(ctx)@),
        grows(old(ctx)@, final(ctx)@),
        agrees(r, final(ctx)@, annassign_out(*node, old(ctx)@)),
{
    match node {
        Stmt::AnnAssign { target, annotation, .. } => {
            let mut t = r_e(target, ctx)?;
            let a = r_annotation(annotation)?;
            t.append(" : ");
            t.append(a.as_str());
            Ok(t)
        },
        _ => Ok(String::new()),
    }
}

/// Convert a `for` loop.
fn r_for(node: &Stmt, ctx: &mut Ctx) -> (r: TResult<String>)
    requires
        node is For,
    ensures
        keeps(old(ctx)@, final(ctx)@),
        grows(old(ctx)@, final(ctx)@),
        agrees(r, final(ctx)@, for_out(*node, old(ctx)@)),
    decreases node, 1nat,
{
    match node {
        Stmt::For { target, iter, body, orelse } => {
            if orelse.len() != 0 {
                return Err(TranspileError { rule: Rule::ForElse });
            }
            let it = r_e(iter, ctx)?;
            let tg = r_e(target, ctx)?;
            let bs = r_stmts(body, ctx)?;
            let mut r = owned("for ");
            r.append(tg.as_str());
            r.append(" in ");
            r.append(it.as_str());
            r.append(" {\n");
            r.append(padded_text(bs, ";\n").as_str());
            r.append("}\n");
            Ok(r)
        },
        _ => Ok(String::new()),
    }
}

/// Convert a `while` loop.
fn r_while(node: &Stmt, ctx: &mut Ctx) -> (r: TResult<String>)
    requires
        node is While,
    ensures
        keeps(old(ctx)@, final(ctx)@),
        grows(old(ctx)@, final(ctx)@),
        agrees(r, final(ctx)@, while_out(*node, old(ctx)@)),
    decreases node, 1nat,
{
    match node {
        Stmt::While { test, body, orelse } => {
            let t = r_e(test, ctx)?;
            let bs = r_stmts(body, ctx)?;
            let os = r_stmts(orelse, ctx)?;
            let mut r = owned("while ");
            r.append(t.as_str());
            r.append(" {\n");
            r.append(join_with(&bs, "", "", "\n").as_str());
            r.append("\n}\n");
            if os.len() == 0 {
                assert(r@ + ""@ =~= r@) by {
                    reveal_strlit("");
                }
            } else {
                let mut tail = owned("if !(");
                tail.append(t.as_str());
                tail.append(") {");
                tail.append(padded_text(os, ";\n").as_str());
                tail.append("}");
                r.append(tail.as_str());
            }
            Ok(r)
        },
        _ => Ok(String::new()),
    }
}

/// Convert a conditional.
fn r_if(node: &Stmt, ctx: &mut Ctx) -> (r: TResult<String>)
    requires
        node is If,
    ensures
        keeps(old(ctx)@, final(ctx)@),
        grows(old(ctx)@, final(ctx)@),
        agrees(r, final(ctx)@, if_out(*node, old(ctx)@)),
    decreases node, 1nat,
{
    match node {
        Stmt::If { test, body, orelse } => {
            let t = r_e(test, ctx)?;
            let bs = r_stmts(body, ctx)?;
            let os = r_stmts(orelse, ctx)?;
            let mut r = owned("if ");
            r.append(t.as_str());
            r.append(" {\n");
            r.append(padded_text(bs, ";\n").as_str());
            if os.len() == 0 {
                r.append("\n}\n");
            } else {
                r.append("\n} else {");
                r.append(padded_text(os, ";\n").as_str());
                r.append("}\n");
            }
            Ok(r)
        },
        _ => Ok(String::new()),
    }
}

/// Convert the arms of a match.
#[verifier::loop_isolation(false)]
fn r_cases(cs: &Vec<MatchCase>, ctx: &mut Ctx) -> (r: TResult<Vec<String>>)
    ensures
        keeps(old(ctx)@, final(ctx)@),
        grows(old(ctx)@, final(ctx)@),
        agrees_all(r, final(ctx)@, cases_out(cs@, old(ctx)@)),
    decreases cs, 1nat,
{
    let ghost c0 = ctx@;
    let mut out: Vec<String> = Vec::new();
    let mut i: usize = 0;
    assert(cs@.skip(0) =~= cs@);
    assert(Seq::<Seq<char>>::empty() + Seq::<Seq<char>>::empty() =~= Seq::<Seq<char>>::empty());
    while i < cs.len()
        invariant
            keeps(c0, ctx@),
            grows(c0, ctx@),
            i <= cs@.len(),
            cases_out(cs@, c0) == prepend(views(out@), cases_out(cs@.skip(i as int), ctx@)),
        decreases cs.len() - i,
    {
        let ghost rest = cs@.skip(i as int);
        assert(rest.drop_first() =~= cs@.skip(i + 1));
        if cs[i].guard.is_some() {
            return Err(TranspileError { rule: Rule::MatchGuard });
        }
        let p = match &cs[i].pattern {
            Pattern::MatchValue { value } => r_e(value, ctx)?,
            _ => return Err(TranspileError { rule: Rule::MatchPattern }),
        };
        let bs = r_stmts(&cs[i].body, ctx)?;
        let mut t = p;
        t.append(" => { ");
        t.append(join_with(&bs, "", "", "").as_str());
        t.append(" },");
        proof {
            lemma_prepend(views(out@), seq![t@], cases_out(cs@.skip(i + 1), ctx@));
        }
        let ghost before = views(out@);
        out.push(t);
        assert(views(out@) =~= before + seq![t@]);
        i = i + 1;
    }
    assert(views(out@) + Seq::<Seq<char>>::empty() =~= views(out@));
    Ok(out)
}

/// Convert a match statement.
fn r_match(node: &Stmt, ctx: &mut Ctx) -> (r: TResult<String>)
    requires
        node is Match,
    ensures
        keeps(old(ctx)@, final(ctx)@),
        grows(old(ctx)@, final(ctx)@),
        agrees(r, final(ctx)@, match_out(*node, old(ctx)@)),
    decreases node, 1nat,
{
    match node {
        Stmt::Match { subject, cases } => {
            let t = r_e(subject, ctx)?;
            let cs = r_cases(cases, ctx)?;
            let mut r = owned("match ");
            r.append(t.as_str());
            r.append(" {\n");
            r.append(join_with(&cs, "", "", "").as_str());
            r.append("\n}");
            Ok(r)
        },
        _ => Ok(String::new()),
    }
}

/// Convert a raise.
fn r_raise(node: &Stmt, ctx: &mut Ctx) -> (r: TResult<String>)
    requires
        node is Raise,
    ensures
        keeps(old(ctx)@, final(ctx)@),
        grows(old(ctx)@, final(ctx)@),
        agrees(r, final(ctx)@, raise_out(*node, old(ctx)@)),
{
    match node {
        Stmt::Raise { exc, cause } => {
            if cause.is_some() {
                return Err(TranspileError { rule: Rule::RaiseFrom });
            }
            match exc {
                None => Ok(owned("panic!()")),
                Some(Expr::Call { func, args, .. }) => match &**func {
                    Expr::Name { id } => {
                        let a = r_exprs(args, ctx)?;
                        let mut r = owned("panic!(\"");
                        r.append(id.as_str());
                        r.append("(");
                        r.append(join_with(&a, "", "", ",").as_str());
                        r.append(")\")");
                        Ok(r)
                    },
                    _ => Err(TranspileError { rule: Rule::RaiseShape }),
                },
                Some(_) => Err(TranspileError { rule: Rule::RaiseShape }),
            }
        },
        _ => Ok(String::new()),
    }
}

/// Convert the handlers of a try.
#[verifier::loop_isolation(false)]
fn r_handlers(hs: &Vec<ExceptHandler>, ctx: &mut Ctx) -> (r: TResult<Vec<String>>)
    ensures
        keeps(old(ctx)@, final(ctx)@),
        grows(old(ctx)@, final(ctx)@),
        agrees_all(r, final(ctx)@, handlers_out(hs@, old(ctx)@)),
    decreases hs, 1nat,
{
    let ghost c0 = ctx@;
    let mut out: Vec<String> = Vec::new();
    let mut i: usize = 0;
    assert(hs@.skip(0) =~= hs@);
    assert(Seq::<Seq<char>>::empty() + Seq::<Seq<char>>::empty() =~= Seq::<Seq<char>>::empty());
    while i < hs.len()
        invariant
            keeps(c0, ctx@),
            grows(c0, ctx@),
            i <= hs@.len(),
            handlers_out(hs@, c0) == prepend(views(out@), handlers_out(hs@.skip(i as int), ctx@)),
        decreases hs.len() - i,
    {
        let ghost rest = hs@.skip(i as int);
        assert(rest.drop_first() =~= hs@.skip(i + 1));
        let bs = r_stmts(&hs[i].body, ctx)?;
        let mut t = owned("catch_it(|");
        match &hs[i].name {
            Some(n) => t.append(n.as_str()),
            None => t.append("error_name"),
        }
        t.append("| {\n");
        t.append(join_with(&bs, "", "", "").as_str());
        t.append("\n});");
        proof {
            lemma_prepend(views(out@), seq![t@], handlers_out(hs@.skip(i + 1), ctx@));
        }
        let ghost before = views(out@);
        out.push(t);
        assert(views(out@) =~= before + seq![t@]);
        i = i + 1;
    }
    assert(views(out@) + Seq::<Seq<char>>::empty() =~= views(out@));
    Ok(out)
}

/// Convert a try statement.
fn r_try(node: &Stmt, ctx: &mut Ctx) -> (r: TResult<String>)
    requires
        node is Try,
    ensures
        keeps(old(ctx)@, final(ctx)@),
        grows(old(ctx)@, final(ctx)@),
        agrees(r, final(ctx)@, try_out(*node, old(ctx)@)),
    decreases node, 1nat,
{
    match node {
        Stmt::Try { body, handlers, orelse, finalbody } => {
            if orelse.len() != 0 || finalbody.len() != 0 {
                return Err(TranspileError { rule: Rule::TryElseFinally });
            }
            let bs = r_stmts(body, ctx)?;
            let hs = r_handlers(handlers, ctx)?;
            let mut r = owned("try_it(|| {");
            r.append(join_with(&bs, "", "", ";\n").as_str());
            r.append("});\n ");
            r.append(join_with(&hs, "", "", "").as_str());
            Ok(r)
        },
        _ => Ok(String::new()),
    }
}

/// Convert an assertion.
fn r_assert(node: &Stmt, ctx: &mut Ctx) -> (r: TResult<String>)
    requires
        node is Assert,
    ensures
        keeps(old(ctx)@, final(ctx)@),
        grows(old(ctx)@, final(ctx)@),
        agrees(r, final(ctx)@, assert_out(*node, old(ctx)@)),
{
    match node {
        Stmt::Assert { test, msg } => {
            let t = r_e(test, ctx)?;
            let mut r = owned("assert!(");
            r.append(t.as_str());
            match msg {
                None => {},
                Some(m) => {
                    let mt = r_e(m, ctx)?;
                    r.append(", ");
                    r.append(mt.as_str());
                },
            }
            r.append(");\n");
            Ok(r)
        },
        _ => Ok(String::new()),
    }
}

/// Convert a type alias.
fn r_type_alias(node: &Stmt, ctx: &mut Ctx) -> (r: TResult<String>)
    requires
        node is TypeAlias,
    ensures
        keeps(old(ctx)@, final(ctx)@),
        grows(old(ctx)@, final(ctx)@),
        agrees(r, final(ctx)@, type_alias_out(*node, old(ctx)@)),
{
    match node {
        Stmt::TypeAlias { name, value } => {
            let v = r_annotation(value)?;
            let n = r_e(name, ctx)?;
            let mut r = owned("type ");
            r.append(n.as_str());
            r.append(" = ");
            r.append(v.as_str());
            r.append(";\n");
            Ok(r)
        },
        _ => Ok(String::new()),
    }
}

/// Record the alias under which `import math` binds the module.
fn r_import(names: &Vec<Alias>, ctx: &mut Ctx)
    ensures
        keeps(old(ctx)@, final(ctx)@),
        grows(old(ctx)@, final(ctx)@),
        final(ctx)@ == (crate::context::CtxView {
            imports: crate::context::ImportsView {
                math_import_name: math_alias(names@, old(ctx)@.imports.math_import_name),
                ..old(ctx)@.imports
            },
            ..old(ctx)@
        }),
{
    let ghost c0 = ctx@;
    let mut i: usize = 0;
    assert(names@.skip(0) =~= names@);
    while i < names.len()
        invariant
            keeps(c0, ctx@),
            grows(c0, ctx@),
            i <= names@.len(),
            math_alias(names@, c0.imports.math_import_name) == math_alias(
                names@.skip(i as int),
                ctx@.imports.math_import_name,
            ),
            ctx@ == (crate::context::CtxView {
                imports: crate::context::ImportsView {
                    math_import_name: ctx@.imports.math_import_name,
                    ..c0.imports
                },
                ..c0
            }),
        decreases names.len() - i,
    {
        let ghost rest = names@.skip(i as int);
        assert(rest.drop_first() =~= names@.skip(i + 1));
        let a = &names[i];
        if same(a.name.as_str(), "math") {
            let alias = match &a.asname {
                Some(n) => owned(n.as_str()),
                None => owned(a.name.as_str()),
            };
            ctx.imports.math_import_name = Some(alias);
        }
        i = i + 1;
    }
}

/// Record each imported member in a table.
fn record_members_exec(t: &mut Table, names: &Vec<Alias>)
    ensures
        table_view(final(t)@) == record_members(table_view(old(t)@), names@),
        table_sorted(table_view(old(t)@)) ==> table_sorted(table_view(final(t)@)),
        names_kept(table_view(old(t)@), table_view(final(t)@)),
{
    let ghost t0 = table_view(t@);
    let mut i: usize = 0;
    assert(names@.skip(0) =~= names@);
    while i < names.len()
        invariant
            i <= names@.len(),
            record_members(t0, names@) == record_members(table_view(t@), names@.skip(i as int)),
            table_sorted(t0) ==> table_sorted(table_view(t@)),
            names_kept(t0, table_view(t@)),
        decreases names.len() - i,
    {
        let ghost rest = names@.skip(i as int);
        assert(rest.drop_first() =~= names@.skip(i + 1));
        let rename = match &names[i].asname {
            Some(n) => Some(owned(n.as_str())),
            None => None,
        };
        assert(opt_view(rename) == opt_view(names@[i as int].asname));
        table_upsert(t, names[i].name.as_str(), rename, false);
        i = i + 1;
    }
}

/// Record the members of a whitelisted module imported by name.
fn r_import_from(node: &Stmt, ctx: &mut Ctx)
    requires
        node is ImportFrom,
    ensures
        keeps(old(ctx)@, final(ctx)@),
        grows(old(ctx)@, final(ctx)@),
        final(ctx)@ == import_from_ctx(*node, old(ctx)@),
{
    match node {
        Stmt::ImportFrom { module: Some(m), names, level } => {
            if *level != 0 {
                return;
            }
            if same(m.as_str(), "math") {
                record_members_exec(&mut ctx.imports.math, names);
            } else if same(m.as_str(), "functools") {
                record_members_exec(&mut ctx.imports.functools, names);
            } else if same(m.as_str(), "itertools") {
                record_members_exec(&mut ctx.imports.itertools, names);
            }
        },
        _ => {},
    }
}

} // verus!
