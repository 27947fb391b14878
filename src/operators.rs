//! The fixed tables for boolean, binary, unary and comparison operators.
use vstd::prelude::*;
use crate::ast::{BoolOp, CmpOp, Operator, UnaryOp};
use crate::error::{fail, Rule, TranspileError};

verus! {

pub open spec fn bool_op_text(op: BoolOp) -> Seq<char> {
    match op {
        BoolOp::And => "&&"@,
        BoolOp::Or => "||"@,
    }
}

/// The spelling of a binary operator; exponentiation, floor division and
/// matrix product have none.
pub open spec fn bin_op_text(op: Operator) -> Result<Seq<char>, TranspileError> {
    match op {
        Operator::Add => Ok("+"@),
        Operator::BitAnd => Ok("&"@),
        Operator::BitOr => Ok("|"@),
        Operator::BitXor => Ok("^"@),
        Operator::Div => Ok("/"@),
        Operator::LShift => Ok("<<"@),
        Operator::Mod => Ok("%"@),
        Operator::Mult => Ok("*"@),
        Operator::RShift => Ok(">>"@),
        Operator::Sub => Ok("-"@),
        Operator::FloorDiv => Err(fail(Rule::BinaryOperator)),
        Operator::MatMult => Err(fail(Rule::BinaryOperator)),
        Operator::Pow => Err(fail(Rule::BinaryOperator)),
    }
}

pub open spec fn unary_op_text(op: UnaryOp) -> Seq<char> {
    match op {
        UnaryOp::Invert => "~"@,
        UnaryOp::Not => "!"@,
        UnaryOp::UAdd => "+"@,
        UnaryOp::USub => "-"@,
    }
}

/// The relational spelling of a comparison; membership tests have none.
pub open spec fn cmp_op_text(op: CmpOp) -> Option<Seq<char>> {
    match op {
        CmpOp::Eq => Some("=="@),
        CmpOp::NotEq => Some("!="@),
        CmpOp::Lt => Some("<"@),
        CmpOp::LtE => Some("<="@),
        CmpOp::Gt => Some(">"@),
        CmpOp::GtE => Some(">="@),
        CmpOp::Is => Some("=="@),
        CmpOp::IsNot => Some("!="@),
        CmpOp::In => None,
        CmpOp::NotIn => None,
    }
}

/// Convert a boolean operator.
pub fn r_bool(op: &BoolOp) -> (r: &'static str)
    ensures
        r@ == bool_op_text(*op),
{
    match op {
        BoolOp::And => "&&",
        BoolOp::Or => "||",
    }
}

/// Convert a binary operator.
pub fn r_o(op: &Operator) -> (r: Result<&'static str, TranspileError>)
    ensures
        match bin_op_text(*op) {
            Ok(t) => r is Ok && r->Ok_0@ == t,
            Err(e) => r == Err::<&'static str, TranspileError>(e),
        },
{
    match op {
        Operator::Add => Ok("+"),
        Operator::BitAnd => Ok("&"),
        Operator::BitOr => Ok("|"),
        Operator::BitXor => Ok("^"),
        Operator::Div => Ok("/"),
        Operator::LShift => Ok("<<"),
        Operator::Mod => Ok("%"),
        Operator::Mult => Ok("*"),
        Operator::RShift => Ok(">>"),
        Operator::Sub => Ok("-"),
        Operator::FloorDiv => Err(TranspileError { rule: Rule::BinaryOperator }),
        Operator::MatMult => Err(TranspileError { rule: Rule::BinaryOperator }),
        Operator::Pow => Err(TranspileError { rule: Rule::BinaryOperator }),
    }
}

/// Convert a unary operator.
pub fn r_unary(op: &UnaryOp) -> (r: &'static str)
    ensures
        r@ == unary_op_text(*op),
{
    match op {
        UnaryOp::Invert => "~",
        UnaryOp::Not => "!",
        UnaryOp::UAdd => "+",
        UnaryOp::USub => "-",
    }
}

/// Convert a comparison operator.
pub fn r_c(op: &CmpOp) -> (r: Option<&'static str>)
    ensures
        match cmp_op_text(*op) {
            Some(t) => r is Some && r->Some_0@ == t,
            None => r is None,
        },
{
    match op {
        CmpOp::Eq => Some("=="),
        CmpOp::NotEq => Some("!="),
        CmpOp::Lt => Some("<"),
        CmpOp::LtE => Some("<="),
        CmpOp::Gt => Some(">"),
        CmpOp::GtE => Some(">="),
        CmpOp::Is => Some("=="),
        CmpOp::IsNot => Some("!="),
        CmpOp::In => None,
        CmpOp::NotIn => None,
    }
}

} // verus!
