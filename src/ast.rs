//! The syntax tree that the engine reads: statements, expressions and the
//! small records between them, holding as plain values what translation needs.
use vstd::prelude::*;

verus! {

/// Boolean connectives.
#[derive(Clone, Copy, Debug, PartialEq, Eq, Structural)]
pub enum BoolOp {
    And,
    Or,
}

/// Binary arithmetic and bitwise operators.
#[derive(Clone, Copy, Debug, PartialEq, Eq, Structural)]
pub enum Operator {
    Add,
    Sub,
    Mult,
    MatMult,
    Div,
    Mod,
    Pow,
    LShift,
    RShift,
    BitOr,
    BitXor,
    BitAnd,
    FloorDiv,
}

/// Unary operators.
#[derive(Clone, Copy, Debug, PartialEq, Eq, Structural)]
pub enum UnaryOp {
    Invert,
    Not,
    UAdd,
    USub,
}

/// Comparison operators.
#[derive(Clone, Copy, Debug, PartialEq, Eq, Structural)]
pub enum CmpOp {
    Eq,
    NotEq,
    Lt,
    LtE,
    Gt,
    GtE,
    Is,
    IsNot,
    In,
    NotIn,
}

/// A literal. Numbers are held as the decimal text that the source literal
/// denotes.
#[derive(Clone, Debug)]
pub enum Constant {
    NoneValue,
    Bool(bool),
    Str(String),
    Bytes(Vec<u8>),
    Int(String),
    Float(String),
    Tuple,
    Complex,
    Ellipsis,
}

/// One parameter: its name and its annotation, if any.
#[derive(Debug)]
pub struct Param {
    pub name: String,
    pub annotation: Option<Box<Expr>>,
}

/// A parameter list, split as the source grammar splits it.
#[derive(Debug)]
pub struct Params {
    pub posonlyargs: Vec<Param>,
    pub args: Vec<Param>,
    pub vararg: bool,
    pub kwonlyargs: Vec<Param>,
    pub kwarg: bool,
}

/// A keyword argument `arg=value`; `arg` is `None` for `**value`.
#[derive(Debug)]
pub struct Keyword {
    pub arg: Option<String>,
    pub value: Expr,
}

/// One `for target in iter if ...` clause of a comprehension.
#[derive(Debug)]
pub struct Comprehension {
    pub target: Expr,
    pub iter: Expr,
    pub ifs: Vec<Expr>,
}

/// Expressions.
#[derive(Debug)]
pub enum Expr {
    BoolOp { op: BoolOp, values: Vec<Expr> },
    NamedExpr { target: Box<Expr>, value: Box<Expr> },
    BinOp { left: Box<Expr>, op: Operator, right: Box<Expr> },
    UnaryOp { op: UnaryOp, operand: Box<Expr> },
    Lambda { args: Params, body: Box<Expr> },
    IfExp { test: Box<Expr>, body: Box<Expr>, orelse: Box<Expr> },
    Dict { keys: Vec<Option<Expr>>, values: Vec<Expr> },
    SetLiteral { elts: Vec<Expr> },
    ListComp { elt: Box<Expr>, generators: Vec<Comprehension> },
    SetComp { elt: Box<Expr>, generators: Vec<Comprehension> },
    DictComp { key: Box<Expr>, value: Box<Expr>, generators: Vec<Comprehension> },
    GeneratorExp { elt: Box<Expr>, generators: Vec<Comprehension> },
    Await,
    Yield,
    YieldFrom,
    Compare { left: Box<Expr>, ops: Vec<CmpOp>, comparators: Vec<Expr> },
    Call { func: Box<Expr>, args: Vec<Expr>, keywords: Vec<Keyword> },
    FormattedValue { value: Box<Expr> },
    JoinedStr { values: Vec<Expr> },
    Constant { value: Constant },
    Attribute { value: Box<Expr>, attr: String },
    Subscript { value: Box<Expr>, slice: Box<Expr> },
    Starred { value: Box<Expr> },
    Name { id: String },
    List { elts: Vec<Expr> },
    Tuple { elts: Vec<Expr> },
    Slice { lower: Option<Box<Expr>>, upper: Option<Box<Expr>>, step: Option<Box<Expr>> },
}

/// Patterns of a `match` case; only value patterns carry their contents.
#[derive(Debug)]
pub enum Pattern {
    MatchValue { value: Expr },
    MatchSingleton,
    MatchSequence,
    MatchMapping,
    MatchClass,
    MatchStar,
    MatchAs,
    MatchOr,
}

/// One `case pattern if guard: body` of a `match` statement.
#[derive(Debug)]
pub struct MatchCase {
    pub pattern: Pattern,
    pub guard: Option<Expr>,
    pub body: Vec<Stmt>,
}

/// One `except T as name: body` clause.
#[derive(Debug)]
pub struct ExceptHandler {
    pub name: Option<String>,
    pub body: Vec<Stmt>,
}

/// `name as asname` in an import.
#[derive(Clone, Debug)]
pub struct Alias {
    pub name: String,
    pub asname: Option<String>,
}

/// Statements.
#[derive(Debug)]
pub enum Stmt {
    FunctionDef { name: String, args: Params, body: Vec<Stmt>, returns: Option<Box<Expr>> },
    AsyncFunctionDef,
    ClassDef { name: String, bases: Vec<Expr>, body: Vec<Stmt> },
    Return { value: Option<Expr> },
    Delete { targets: Vec<Expr> },
    Assign { targets: Vec<Expr>, value: Expr },
    AugAssign { target: Expr, op: Operator, value: Expr },
    AnnAssign { target: Expr, annotation: Expr, value: Option<Expr> },
    For { target: Expr, iter: Expr, body: Vec<Stmt>, orelse: Vec<Stmt> },
    AsyncFor,
    While { test: Expr, body: Vec<Stmt>, orelse: Vec<Stmt> },
    If { test: Expr, body: Vec<Stmt>, orelse: Vec<Stmt> },
    With,
    AsyncWith,
    Match { subject: Expr, cases: Vec<MatchCase> },
    Raise { exc: Option<Expr>, cause: Option<Expr> },
    Try {
        body: Vec<Stmt>,
        handlers: Vec<ExceptHandler>,
        orelse: Vec<Stmt>,
        finalbody: Vec<Stmt>,
    },
    TryStar,
    Assert { test: Expr, msg: Option<Expr> },
    Import { names: Vec<Alias> },
    ImportFrom { module: Option<String>, names: Vec<Alias>, level: u32 },
    Global,
    Nonlocal,
    Expr { value: Expr },
    Pass,
    Break,
    Continue,
    TypeAlias { name: Expr, value: Expr },
}

} // verus!
