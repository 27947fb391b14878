//! The error taxonomy: a construct the engine does not translate, named by the
//! rule that rejected it, or source text that the parser refused.
use vstd::prelude::*;

verus! {

/// The translation rule that rejected a node.
#[derive(Clone, Copy, Debug, PartialEq, Eq, Structural)]
pub enum Rule {
    FunctionParams,
    LambdaParams,
    ClassMember,
    BareReturn,
    DeleteTarget,
    ChainedAssignment,
    ForElse,
    MatchGuard,
    MatchPattern,
    RaiseFrom,
    RaiseShape,
    TryElseFinally,
    AsyncFunctionDef,
    AsyncFor,
    AsyncWith,
    With,
    TryStar,
    Global,
    Nonlocal,
    BinaryOperator,
    DictUnpack,
    KeywordUnpack,
    RecordArgsMixed,
    ZipArity,
    RangeStep,
    RangeArity,
    NumpyCall,
    NestedComprehension,
    ComprehensionFilters,
    CompareShape,
    Await,
    Yield,
    YieldFrom,
    Starred,
    LiteralKind,
    Annotation,
    UnknownMathMember,
    ModuleKind,
}

impl Rule {
    /// The rule's name, as it appears in messages.
    pub open spec fn spec_name(self) -> Seq<char> {
        match self {
            Rule::FunctionParams => "function_params"@,
            Rule::LambdaParams => "lambda_params"@,
            Rule::ClassMember => "class_member"@,
            Rule::BareReturn => "bare_return"@,
            Rule::DeleteTarget => "delete_target"@,
            Rule::ChainedAssignment => "chained_assignment"@,
            Rule::ForElse => "for_else"@,
            Rule::MatchGuard => "match_guard"@,
            Rule::MatchPattern => "match_pattern"@,
            Rule::RaiseFrom => "raise_from"@,
            Rule::RaiseShape => "raise_shape"@,
            Rule::TryElseFinally => "try_else_finally"@,
            Rule::AsyncFunctionDef => "async_function_def"@,
            Rule::AsyncFor => "async_for"@,
            Rule::AsyncWith => "async_with"@,
            Rule::With => "with"@,
            Rule::TryStar => "try_star"@,
            Rule::Global => "global"@,
            Rule::Nonlocal => "nonlocal"@,
            Rule::BinaryOperator => "binary_operator"@,
            Rule::DictUnpack => "dict_unpack"@,
            Rule::KeywordUnpack => "keyword_unpack"@,
            Rule::RecordArgsMixed => "record_args_mixed"@,
            Rule::ZipArity => "zip_arity"@,
            Rule::RangeStep => "range_step"@,
            Rule::RangeArity => "range_arity"@,
            Rule::NumpyCall => "numpy_call"@,
            Rule::NestedComprehension => "nested_comprehension"@,
            Rule::ComprehensionFilters => "comprehension_filters"@,
            Rule::CompareShape => "compare_shape"@,
            Rule::Await => "await"@,
            Rule::Yield => "yield"@,
            Rule::YieldFrom => "yield_from"@,
            Rule::Starred => "starred"@,
            Rule::LiteralKind => "literal_kind"@,
            Rule::Annotation => "annotation"@,
            Rule::UnknownMathMember => "unknown_math_member"@,
            Rule::ModuleKind => "module_kind"@,
        }
    }

    /// The rule's name, as it appears in messages.
    pub fn name(&self) -> (r: &'static str)
        ensures
            r@ == self.spec_name(),
    {
        match self {
            Rule::FunctionParams => "function_params",
            Rule::LambdaParams => "lambda_params",
            Rule::ClassMember => "class_member",
            Rule::BareReturn => "bare_return",
            Rule::DeleteTarget => "delete_target",
            Rule::ChainedAssignment => "chained_assignment",
            Rule::ForElse => "for_else",
            Rule::MatchGuard => "match_guard",
            Rule::MatchPattern => "match_pattern",
            Rule::RaiseFrom => "raise_from",
            Rule::RaiseShape => "raise_shape",
            Rule::TryElseFinally => "try_else_finally",
            Rule::AsyncFunctionDef => "async_function_def",
            Rule::AsyncFor => "async_for",
            Rule::AsyncWith => "async_with",
            Rule::With => "with",
            Rule::TryStar => "try_star",
            Rule::Global => "global",
            Rule::Nonlocal => "nonlocal",
            Rule::BinaryOperator => "binary_operator",
            Rule::DictUnpack => "dict_unpack",
            Rule::KeywordUnpack => "keyword_unpack",
            Rule::RecordArgsMixed => "record_args_mixed",
            Rule::ZipArity => "zip_arity",
            Rule::RangeStep => "range_step",
            Rule::RangeArity => "range_arity",
            Rule::NumpyCall => "numpy_call",
            Rule::NestedComprehension => "nested_comprehension",
            Rule::ComprehensionFilters => "comprehension_filters",
            Rule::CompareShape => "compare_shape",
            Rule::Await => "await",
            Rule::Yield => "yield",
            Rule::YieldFrom => "yield_from",
            Rule::Starred => "starred",
            Rule::LiteralKind => "literal_kind",
            Rule::Annotation => "annotation",
            Rule::UnknownMathMember => "unknown_math_member",
            Rule::ModuleKind => "module_kind",
        }
    }
}

/// A construct that the engine does not translate; `rule` locates the gap.
#[derive(Clone, Copy, Debug, PartialEq, Eq, Structural)]
pub struct TranspileError {
    pub rule: Rule,
}

/// The error of a translation that rejected the node by `rule`.
pub open spec fn fail(rule: Rule) -> TranspileError {
    TranspileError { rule }
}

/// The message that `to_link` gives for an error.
pub open spec fn link_text(e: TranspileError) -> Seq<char> {
    "please, go to: https://github.com/benmkw/p2r/issues and report the rule `"@
        + e.rule.spec_name() + "` to help improve this crate"@
}

impl TranspileError {
    /// A message pointing the user to where the missing rule can be reported.
    pub fn to_link(&self) -> (r: String)
        ensures
            r@ == link_text(*self),
    {
        let mut r = String::from_str(
            "please, go to: https://github.com/benmkw/p2r/issues and report the rule `",
        );
        r.append(self.rule.name());
        r.append("` to help improve this crate");
        r
    }
}

/// Either the parser refused the text (with its diagnostic) or the engine
/// refused a construct.
#[derive(Debug)]
pub enum ParseError {
    TranspileError(TranspileError),
    ParseError(String),
}

impl From<TranspileError> for ParseError {
    fn from(value: TranspileError) -> (r: ParseError)
        ensures
            r == ParseError::TranspileError(value),
    {
        ParseError::TranspileError(value)
    }
}

impl vstd::std_specs::convert::FromSpecImpl<TranspileError> for ParseError {
    open spec fn obeys_from_spec() -> bool {
        true
    }

    open spec fn from_spec(v: TranspileError) -> ParseError {
        ParseError::TranspileError(v)
    }
}

} // verus!
