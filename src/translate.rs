//! A whole run: the statements of a module in order, then the import line
//! and the prelude of polyfills that they used.
use vstd::prelude::*;
use crate::ast::Stmt;
use crate::context::{grows, imports_text, keeps, prelude_text, Ctx, CtxView};
use crate::error::TranspileError;
use crate::expr_spec::{agrees, Out};
use crate::stmt::r_stmts;
use crate::stmt_spec::stmts_out;
use crate::text::{concat, join_with, owned, views};

verus! {

/// Each statement's text; an expression statement is terminated.
pub open spec fn terminated(ss: Seq<Stmt>, ts: Seq<Seq<char>>) -> Seq<Seq<char>> {
    Seq::new(ts.len(), |i: int| ts[i] + if ss[i] is Expr { ";\n"@ } else { ""@ })
}

/// The text of a run over the statements `ss`, starting from the state `c`.
pub open spec fn transpile(ss: Seq<Stmt>, c: CtxView) -> Out {
    match stmts_out(ss, c) {
        Err(x) => Err(x),
        Ok((ts, c1)) => match prelude_text(c1.imports) {
            Err(x) => Err(x),
            Ok(p) => Ok((concat(terminated(ss, ts)) + imports_text(c1.imports) + "\n"@ + p, c1)),
        },
    }
}

/// Translate the statements of a module, in order, then emit the imports and
/// polyfills they used. The first rejected construct aborts the run. The
/// import tables must be ordered, as a fresh state's are; they stay so.
pub fn p2r(body: &Vec<Stmt>, ctx: &mut Ctx) -> (r: Result<String, TranspileError>)
    requires
        old(ctx)@.imports.wf(),
    ensures
        final(ctx)@.imports.wf(),
        grows(old(ctx)@, final(ctx)@),
        agrees(r, final(ctx)@, transpile(body@, old(ctx)@)),
{
    let ts = r_stmts(body, ctx)?;
    let ghost tv = views(ts@);
    let mut items: Vec<String> = Vec::new();
    let mut i: usize = 0;
    while i < ts.len()
        invariant
            i <= ts@.len(),
            tv == views(ts@),
            ts@.len() == body@.len(),
            views(items@) =~= terminated(body@, tv).take(i as int),
        decreases ts.len() - i,
    {
        let mut t = owned(ts[i].as_str());
        match &body[i] {
            Stmt::Expr { .. } => t.append(";\n"),
            _ => t.append(""),
        }
        let ghost before = views(items@);
        items.push(t);
        assert(views(items@) =~= before.push(t@));
        i = i + 1;
    }
    assert(terminated(body@, tv).take(ts@.len() as int) =~= terminated(body@, tv));
    let mut total = join_with(&items, "", "", "");
    total.append(ctx.imports.gen_imports().as_str());
    total.append("\n");
    let prelude = ctx.imports.gen_prelude()?;
    total.append(prelude.as_str());
    Ok(total)
}

} // verus!
