//! An async function definition anywhere in the input rejects the whole run.
use vstd::prelude::*;
use crate::ast::{ExceptHandler, MatchCase, Pattern, Stmt};
use crate::context::CtxView;
use crate::expr_spec::expr_out;
use crate::stmt_spec::{
    cases_out, class_out, fndef_out, for_out, handlers_out, has_doc, if_out, match_out,
    selected_out, stmt_out, stmts_out, try_out, while_out,
};
use crate::translate::transpile;

verus! {

/// Whether an async function definition occurs in a statement, at any depth.
pub open spec fn has_async(s: Stmt) -> bool
    decreases s, 1nat,
{
    match s {
        Stmt::AsyncFunctionDef => true,
        Stmt::FunctionDef { body, .. } => any_async(body@),
        Stmt::ClassDef { body, .. } => any_async(body@),
        Stmt::For { body, orelse, .. } => any_async(body@) || any_async(orelse@),
        Stmt::While { body, orelse, .. } => any_async(body@) || any_async(orelse@),
        Stmt::If { body, orelse, .. } => any_async(body@) || any_async(orelse@),
        Stmt::Match { cases, .. } => cases_async(cases@),
        Stmt::Try { body, handlers, orelse, finalbody } => any_async(body@) || handlers_async(
            handlers@,
        ) || any_async(orelse@) || any_async(finalbody@),
        _ => false,
    }
}

/// Whether an async function definition occurs in a list of statements.
pub open spec fn any_async(ss: Seq<Stmt>) -> bool
    decreases ss, 0nat,
{
    ss.len() > 0 && (has_async(ss[0]) || any_async(ss.drop_first()))
}

/// Whether an async function definition occurs in the arms of a match.
pub open spec fn cases_async(cs: Seq<MatchCase>) -> bool
    decreases cs, 0nat,
{
    cs.len() > 0 && (any_async(cs[0].body@) || cases_async(cs.drop_first()))
}

/// Whether an async function definition occurs in the handlers of a try.
pub open spec fn handlers_async(hs: Seq<ExceptHandler>) -> bool
    decreases hs, 0nat,
{
    hs.len() > 0 && (any_async(hs[0].body@) || handlers_async(hs.drop_first()))
}

/// A run over statements holding an async function definition, at any
/// depth and after any valid statements, fails: it yields no text.
pub proof fn law_async_rejected(ss: Seq<Stmt>, c: CtxView)
    requires
        any_async(ss),
    ensures
        transpile(ss, c) is Err,
{
    lemma_stmts_async(ss, c);
}

proof fn lemma_stmts_async(ss: Seq<Stmt>, c: CtxView)
    requires
        any_async(ss),
    ensures
        stmts_out(ss, c) is Err,
    decreases ss, 1nat,
{
    if has_async(ss[0]) {
        lemma_stmt_async(ss[0], c);
    } else if let Ok((t, c1)) = stmt_out(ss[0], c) {
        lemma_stmts_async(ss.drop_first(), c1);
    }
}

/// Every statement is a method or a field.
spec fn members_only(ss: Seq<Stmt>) -> bool
    decreases ss.len(),
{
    ss.len() == 0 || ((ss[0] is FunctionDef || ss[0] is Assign || ss[0] is AnnAssign)
        && members_only(ss.drop_first()))
}

proof fn lemma_members_only(ss: Seq<Stmt>, is_enum: bool)
    requires
        crate::stmt_spec::members_allowed(ss, is_enum),
    ensures
        members_only(ss),
    decreases ss.len(),
{
    if ss.len() > 0 {
        let rest = ss.drop_first();
        assert forall|i: int| 0 <= i < rest.len() implies (#[trigger] rest[i] is FunctionDef || (
        if is_enum {
            rest[i] is Assign
        } else {
            rest[i] is AnnAssign
        })) by {
            assert(rest[i] == ss[i + 1]);
        }
        lemma_members_only(rest, is_enum);
    }
}

#[verifier::rlimit(40)]
proof fn lemma_methods_async(ss: Seq<Stmt>, c: CtxView)
    requires
        any_async(ss),
        members_only(ss),
    ensures
        selected_out(ss, true, c) is Err,
    decreases ss, 1nat,
{
    let rest = ss.drop_first();
    if ss[0] is FunctionDef {
        if has_async(ss[0]) {
            lemma_stmt_async(ss[0], c);
        } else if let Ok((t, c1)) = stmt_out(ss[0], c) {
            lemma_methods_async(rest, c1);
        }
    } else {
        assert(ss[0] is Assign || ss[0] is AnnAssign);
        assert(!has_async(ss[0]));
        assert(any_async(rest));
        lemma_methods_async(rest, c);
    }
}

proof fn lemma_cases_async(cs: Seq<MatchCase>, c: CtxView)
    requires
        cases_async(cs),
    ensures
        cases_out(cs, c) is Err,
    decreases cs, 1nat,
{
    if cs[0].guard is None {
        if let Pattern::MatchValue { value } = cs[0].pattern {
            if let Ok((p, c1)) = expr_out(value, c) {
                if any_async(cs[0].body@) {
                    lemma_stmts_async(cs[0].body@, c1);
                } else if let Ok((bs, c2)) = stmts_out(cs[0].body@, c1) {
                    lemma_cases_async(cs.drop_first(), c2);
                }
            }
        }
    }
}

proof fn lemma_handlers_async(hs: Seq<ExceptHandler>, c: CtxView)
    requires
        handlers_async(hs),
    ensures
        handlers_out(hs, c) is Err,
    decreases hs, 1nat,
{
    if any_async(hs[0].body@) {
        lemma_stmts_async(hs[0].body@, c);
    } else if let Ok((bs, c1)) = stmts_out(hs[0].body@, c) {
        lemma_handlers_async(hs.drop_first(), c1);
    }
}

/// A statement holding an async function definition at any depth is
/// rejected, whatever state it is translated in.
pub proof fn lemma_stmt_async(s: Stmt, c: CtxView)
    requires
        has_async(s),
    ensures
        stmt_out(s, c) is Err,
    decreases s, 2nat,
{
    match s {
        Stmt::FunctionDef { name, args, body, returns } => {
            assert(stmt_out(s, c) == fndef_out(s, c));
            let c0 = CtxView { array_args: Seq::empty(), declare_var_mut: false, ..c };
            if let Ok((ps, c1)) = crate::stmt_spec::params_out(args.args@, c0) {
                let ret = match returns {
                    Some(r) => crate::annotation::ann_out(*r),
                    None => Ok("()"@),
                };
                if let Ok(rt) = ret {
                    let c2 = CtxView { promotion: crate::stmt_spec::promotion_of(rt), ..c1 };
                    if has_doc(body@) {
                        assert(!has_async(body@[0]));
                        lemma_stmts_async(body@.drop_first(), c2);
                    } else {
                        lemma_stmts_async(body@, c2);
                    }
                }
            }
        },
        Stmt::ClassDef { name, bases, body } => {
            assert(stmt_out(s, c) == class_out(s, c));
            if crate::stmt_spec::is_enum_class(bases@) {
                if crate::stmt_spec::members_allowed(body@, true) {
                    lemma_members_only(body@, true);
                    let c0 = CtxView { enums: c.enums.push(name@), in_enum: true, ..c };
                    if let Ok((fs, c1)) = selected_out(body@, false, c0) {
                        lemma_methods_async(body@, CtxView { in_enum: false, ..c1 });
                    }
                }
            } else {
                if crate::stmt_spec::members_allowed(body@, false) {
                    lemma_members_only(body@, false);
                    if let Ok((ns, ts, c1)) = crate::stmt_spec::fields_out(body@, c) {
                        lemma_methods_async(
                            body@,
                            CtxView { classes: c1.classes.push((name@, ns)), ..c1 },
                        );
                    }
                }
            }
        },
        Stmt::For { target, iter, body, orelse } => {
            assert(stmt_out(s, c) == for_out(s, c));
            if orelse@.len() == 0 {
                if let Ok((it, c1)) = expr_out(iter, c) {
                    if let Ok((tg, c2)) = expr_out(target, c1) {
                        lemma_stmts_async(body@, c2);
                    }
                }
            }
        },
        Stmt::While { test, body, orelse } => {
            assert(stmt_out(s, c) == while_out(s, c));
            if let Ok((t, c1)) = expr_out(test, c) {
                if any_async(body@) {
                    lemma_stmts_async(body@, c1);
                } else if let Ok((bs, c2)) = stmts_out(body@, c1) {
                    lemma_stmts_async(orelse@, c2);
                }
            }
        },
        Stmt::If { test, body, orelse } => {
            assert(stmt_out(s, c) == if_out(s, c));
            if let Ok((t, c1)) = expr_out(test, c) {
                if any_async(body@) {
                    lemma_stmts_async(body@, c1);
                } else if let Ok((bs, c2)) = stmts_out(body@, c1) {
                    lemma_stmts_async(orelse@, c2);
                }
            }
        },
        Stmt::Match { subject, cases } => {
            assert(stmt_out(s, c) == match_out(s, c));
            if let Ok((t, c1)) = expr_out(subject, c) {
                lemma_cases_async(cases@, c1);
            }
        },
        Stmt::Try { body, handlers, orelse, finalbody } => {
            assert(stmt_out(s, c) == try_out(s, c));
            if orelse@.len() == 0 && finalbody@.len() == 0 {
                if any_async(body@) {
                    lemma_stmts_async(body@, c);
                } else if let Ok((bs, c1)) = stmts_out(body@, c) {
                    lemma_handlers_async(handlers@, c1);
                }
            }
        },
        _ => {},
    }
}

} // verus!
