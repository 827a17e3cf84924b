//! The library's model of a parsed compilation unit: a closed sum type with
//! one variant per syntactic category of the accepted grammar (expressions,
//! statements, declarations and type-level constructs, with optional JSX and
//! type-annotation syntax).
//!
//! The tree is built by the caller (normally from an external parser's
//! output) and is only read here; every metric is a pure function of it.
use vstd::prelude::*;

verus! {

/// Binary (including logical and nullish-coalescing) operator lexemes.
#[derive(Clone, Copy, PartialEq, Eq, Structural, Debug)]
pub enum BinOp {
    EqEq,
    NotEq,
    EqEqEq,
    NotEqEq,
    Lt,
    LtEq,
    Gt,
    GtEq,
    LShift,
    RShift,
    ZeroFillRShift,
    Add,
    Sub,
    Mul,
    Div,
    Mod,
    BitOr,
    BitXor,
    BitAnd,
    LogicalOr,
    LogicalAnd,
    In,
    InstanceOf,
    Exp,
    NullishCoalescing,
}

/// Unary operator lexemes (`typeof` and friends are keywords, still
/// operators in Halstead's sense).
#[derive(Clone, Copy, PartialEq, Eq, Structural, Debug)]
pub enum UnaryOp {
    Minus,
    Plus,
    Bang,
    Tilde,
    TypeOf,
    Void,
    Delete,
}

/// Assignment operator lexemes.
#[derive(Clone, Copy, PartialEq, Eq, Structural, Debug)]
pub enum AssignOp {
    Assign,
    AddAssign,
    SubAssign,
    MulAssign,
    DivAssign,
    ModAssign,
    LShiftAssign,
    RShiftAssign,
    ZeroFillRShiftAssign,
    BitOrAssign,
    BitXorAssign,
    BitAndAssign,
    ExpAssign,
    AndAssign,
    OrAssign,
    NullishAssign,
}

/// Update operator lexemes (`++`, `--`).
#[derive(Clone, Copy, PartialEq, Eq, Structural, Debug)]
pub enum UpdateOp {
    PlusPlus,
    MinusMinus,
}

/// Type-level operator keywords (`keyof T`, `unique symbol`, `readonly T`).
#[derive(Clone, Copy, PartialEq, Eq, Structural, Debug)]
pub enum TypeOpKind {
    KeyOf,
    Unique,
    ReadOnly,
}

/// The category part of an operand's lexeme key: a literal's kind, an
/// identifier reference, a template string segment, or a keyword name.
/// Two operands are the same unique operand exactly when both the category
/// and the textual part of their keys agree.
#[derive(Clone, Copy, PartialEq, Eq, Structural, Debug)]
pub enum OperandKind {
    Ident,
    Str,
    Num,
    Bool,
    Null,
    Regex,
    BigInt,
    TplStr,
    This,
}

/// One syntax-tree node. Children are held in `Box`, `Option<Box>` or
/// `Vec` fields; every other field is the node's own payload (an operator
/// symbol, a name, a literal value).
pub enum Node {
    // Expressions
    /// A name reference.
    Ident { name: String },
    /// The `this` expression.
    This,
    /// A literal, keyed by `(kind, textual value)`.
    Lit { kind: OperandKind, value: String },
    /// A template literal: `quasis` are the static string segments,
    /// `exprs` the interpolated expressions between them.
    Tpl { quasis: Vec<String>, exprs: Vec<Node> },
    /// A tagged template, e.g. ``tag`a ${b}` ``.
    TaggedTpl { tag: Box<Node>, quasis: Vec<String>, exprs: Vec<Node> },
    /// A binary or logical expression.
    Binary { op: BinOp, left: Box<Node>, right: Box<Node> },
    /// A unary expression.
    Unary { op: UnaryOp, arg: Box<Node> },
    /// An assignment expression.
    Assign { op: AssignOp, left: Box<Node>, right: Box<Node> },
    /// An update expression (`x++`, `--x`).
    Update { op: UpdateOp, arg: Box<Node> },
    /// A call expression.
    Call { callee: Box<Node>, args: Vec<Node> },
    /// A `new` expression.
    New { callee: Box<Node>, args: Vec<Node> },
    /// A conditional (ternary) expression.
    Cond { test: Box<Node>, cons: Box<Node>, alt: Box<Node> },
    /// A comma (sequence) expression.
    SeqExpr { exprs: Vec<Node> },
    /// An arrow function expression.
    Arrow { params: Vec<Node>, body: Vec<Node> },
    /// An `await` expression.
    AwaitExpr { arg: Box<Node> },
    /// A `yield` or `yield*` expression.
    YieldExpr { arg: Option<Box<Node>>, delegate: bool },
    /// A spread element (`...x`).
    SpreadEl { arg: Box<Node> },
    /// A member access, plain (`a.b`, `a[b]`) or optional (`a?.b`).
    Member { obj: Box<Node>, prop: Box<Node>, optional: bool },
    /// A meta-property expression (`new.target`).
    MetaProp,
    /// A TypeScript non-null assertion (`x!`).
    NonNull { arg: Box<Node> },
    /// A TypeScript `as` expression.
    AsExpr { arg: Box<Node> },
    /// A TypeScript angle-bracket type assertion (`<T>x`).
    TypeAssertion { arg: Box<Node> },
    // Statements
    /// An `if` statement.
    IfStmt { test: Box<Node>, cons: Box<Node>, alt: Option<Box<Node>> },
    /// A classic `for` statement.
    ForStmt {
        init: Option<Box<Node>>,
        test: Option<Box<Node>>,
        update: Option<Box<Node>>,
        body: Box<Node>,
    },
    /// A `for-in` or `for-of` statement.
    ForInOf { left: Box<Node>, right: Box<Node>, body: Box<Node> },
    /// A `while` statement.
    WhileStmt { test: Box<Node>, body: Box<Node> },
    /// A `do-while` statement.
    DoWhileStmt { body: Box<Node>, test: Box<Node> },
    /// A `switch` statement.
    SwitchStmt { disc: Box<Node>, cases: Vec<Node> },
    /// One `case` label (`test` present) or the `default` label
    /// (`test` absent) together with its statements.
    CaseClause { test: Option<Box<Node>>, body: Vec<Node> },
    /// A `try` statement.
    TryStmt { block: Vec<Node>, handler: Option<Box<Node>>, finalizer: Vec<Node> },
    /// A `catch` clause.
    CatchClause { param: Option<Box<Node>>, body: Vec<Node> },
    /// A braced statement block.
    Block { stmts: Vec<Node> },
    /// A `return` statement.
    Return { arg: Option<Box<Node>> },
    /// A `break` statement.
    Break,
    /// A `continue` statement.
    Continue,
    /// A `throw` statement.
    Throw { arg: Box<Node> },
    // Declarations
    /// A function declaration or function expression.
    FnDecl { name: Option<String>, params: Vec<Node>, body: Vec<Node> },
    /// A class declaration or class expression.
    ClassDecl { name: Option<String>, body: Vec<Node> },
    /// A TypeScript namespace or module declaration.
    Namespace { name: String, body: Vec<Node> },
    /// An `export` declaration with whatever it exports.
    ExportDecl { items: Vec<Node> },
    /// An `import` declaration: the imported bindings and the source string.
    ImportDecl { names: Vec<Node>, source: String },
    /// A `var`/`let`/`const` declaration list.
    VarDecl { decls: Vec<Node> },
    /// One declarator of a variable declaration.
    Declarator { name: Box<Node>, init: Option<Box<Node>> },
    // Type-level constructs
    /// A TypeScript mapped type (`{ [P in K]: T }`).
    MappedType,
    /// A TypeScript indexed-access type (`T[K]`).
    IndexedAccessType,
    /// A TypeScript type operator (`keyof`, `unique`, `readonly`).
    TypeOperator { op: TypeOpKind },
    /// A qualified type name (`A.B`).
    QualifiedName { left: Box<Node>, right: Box<Node> },
    /// A syntactic grouping that contributes no tokens of its own and only
    /// carries its children: parenthesized expressions, object and array
    /// literals, properties, patterns, JSX containers and the like.
    Group { children: Vec<Node> },
}

/// One parsed compilation unit.
pub struct SourceUnit {
    pub body: Vec<Node>,
}

} // verus!
