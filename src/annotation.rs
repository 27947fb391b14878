//! Expressions in type position: names, subscripted generics and tuples map to
//! type syntax.
use vstd::prelude::*;
use crate::ast::{Constant, Expr};
use crate::error::{fail, Rule, TranspileError};
use crate::text::{joined, join_with, owned, same, starts, strip_prefix, views};

verus! {

/// The type that a scalar or container name stands for.
pub open spec fn scalar_type(id: Seq<char>) -> Seq<char> {
    if id == "Dict"@ {
        "std::collections::HashMap"@
    } else if id == "float"@ {
        "f64"@
    } else if id == "int"@ {
        "isize"@
    } else if id == "List"@ {
        "Vec"@
    } else if id == "Optional"@ {
        "Option"@
    } else if id == "str"@ {
        "String"@
    } else {
        id
    }
}

/// The type that an annotation denotes.
pub open spec fn ann_out(e: Expr) -> Result<Seq<char>, TranspileError>
    decreases e, 1nat,
{
    match e {
        Expr::Constant { value: Constant::Str(s) } => Ok(s@),
        Expr::Subscript { value, slice } => match ann_out(*value) {
            Err(x) => Err(x),
            Ok(v) => match ann_out(*slice) {
                Err(x) => Err(x),
                Ok(s) => if v == "tuple"@ {
                    Ok("("@ + s + ")"@)
                } else if starts(v, "Np"@) {
                    Ok("numpy::Py"@ + v.subrange(2, v.len() as int) + "<"@ + s + ">"@)
                } else {
                    Ok(v + "<"@ + s + ">"@)
                },
            },
        },
        Expr::Name { id } => Ok(scalar_type(id@)),
        Expr::Tuple { elts } => match anns_out(elts@) {
            Err(x) => Err(x),
            Ok(ts) => Ok(joined(ts, ""@, ""@, ", "@)),
        },
        _ => Err(fail(Rule::Annotation)),
    }
}

/// The types that a list of annotations denotes, or the first error.
pub open spec fn anns_out(es: Seq<Expr>) -> Result<Seq<Seq<char>>, TranspileError>
    decreases es, 0nat,
{
    if es.len() == 0 {
        Ok(Seq::empty())
    } else {
        match ann_out(es[0]) {
            Err(x) => Err(x),
            Ok(t) => match anns_out(es.drop_first()) {
                Err(x) => Err(x),
                Ok(ts) => Ok(seq![t] + ts),
            },
        }
    }
}

fn scalar_type_exec(id: &str) -> (r: String)
    ensures
        r@ == scalar_type(id@),
{
    if same(id, "Dict") {
        owned("std::collections::HashMap")
    } else if same(id, "float") {
        owned("f64")
    } else if same(id, "int") {
        owned("isize")
    } else if same(id, "List") {
        owned("Vec")
    } else if same(id, "Optional") {
        owned("Option")
    } else if same(id, "str") {
        owned("String")
    } else {
        owned(id)
    }
}

/// Convert an annotation.
pub fn r_annotation(e: &Expr) -> (r: Result<String, TranspileError>)
    ensures
        match ann_out(*e) {
            Ok(t) => r is Ok && r->Ok_0@ == t,
            Err(x) => r == Err::<String, TranspileError>(x),
        },
    decreases e, 1nat,
{
    match e {
        Expr::Constant { value: Constant::Str(s) } => Ok(owned(s.as_str())),
        Expr::Subscript { value, slice } => {
            let v = match r_annotation(value) {
                Ok(v) => v,
                Err(x) => return Err(x),
            };
            let s = match r_annotation(slice) {
                Ok(s) => s,
                Err(x) => return Err(x),
            };
            if same(v.as_str(), "tuple") {
                let mut r = owned("(");
                r.append(s.as_str());
                r.append(")");
                Ok(r)
            } else {
                match strip_prefix(v.as_str(), "Np") {
                    Some(rest) => {
                        proof {
                            reveal_strlit("Np");
                        }
                        let mut r = owned("numpy::Py");
                        r.append(rest.as_str());
                        r.append("<");
                        r.append(s.as_str());
                        r.append(">");
                        Ok(r)
                    },
                    None => {
                        let mut r = v;
                        r.append("<");
                        r.append(s.as_str());
                        r.append(">");
                        Ok(r)
                    },
                }
            }
        },
        Expr::Name { id } => Ok(scalar_type_exec(id.as_str())),
        Expr::Tuple { elts } => match r_annotations(elts) {
            Ok(ts) => Ok(join_with(&ts, "", "", ", ")),
            Err(x) => Err(x),
        },
        _ => Err(TranspileError { rule: Rule::Annotation }),
    }
}

/// Convert a list of annotations.
#[verifier::loop_isolation(false)]
fn r_annotations(es: &Vec<Expr>) -> (r: Result<Vec<String>, TranspileError>)
    ensures
        match anns_out(es@) {
            Ok(ts) => r is Ok && views(r->Ok_0@) == ts,
            Err(x) => r is Err && r->Err_0 == x,
        },
    decreases es, 0nat,
{
    let mut out: Vec<String> = Vec::new();
    let mut i: usize = 0;
    assert(es@.skip(0) =~= es@);
    while i < es.len()
        invariant
            i <= es@.len(),
            anns_out(es@) == match anns_out(es@.skip(i as int)) {
                Ok(ts) => Ok(views(out@) + ts),
                Err(x) => Err(x),
            },
        decreases es.len() - i,
    {
        let ghost rest = es@.skip(i as int);
        assert(rest.drop_first() =~= es@.skip(i + 1));
        let t = match r_annotation(&es[i]) {
            Ok(t) => t,
            Err(x) => return Err(x),
        };
        let ghost before = views(out@);
        out.push(t);
        assert(views(out@) =~= before.push(t@));
        assert forall|ts: Seq<Seq<char>>| #[trigger] (before + (seq![t@] + ts)) == views(out@) + ts by {
            assert(before + (seq![t@] + ts) =~= views(out@) + ts);
        }
        i = i + 1;
    }
    assert(views(out@) + Seq::<Seq<char>>::empty() =~= views(out@));
    Ok(out)
}

} // verus!
