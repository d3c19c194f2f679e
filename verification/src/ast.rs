//! The syntax-tree model the analyses walk.
//!
//! The host's parser produces a tree in whatever form it likes; before a rule
//! runs, the host converts it into these nodes, which hold exactly what the
//! analyses read: positions, identifier text as bytes, and the recursive
//! structure. Constructs no analysis looks inside are carried as `Other`
//! nodes, which every rule skips ("rule does not apply").

use vstd::prelude::*;

verus! {

/// A byte range into the analyzed source text. Diagnostics are attached to
/// spans, and the reachability oracle and the comment lookups are keyed by a
/// span's endpoints.
#[derive(Clone, Copy, PartialEq, Eq, Structural, Debug)]
pub struct Span {
    pub lo: u32,
    pub hi: u32,
}

/// Strict order on spans: by low end, then by high end.
pub open spec fn span_lt(a: Span, b: Span) -> bool {
    a.lo < b.lo || (a.lo == b.lo && a.hi < b.hi)
}

impl Span {
    /// Compares two spans in the report order: by low end, then high end.
    pub fn is_before(&self, other: &Span) -> (r: bool)
        ensures
            r == span_lt(*self, *other),
    {
        self.lo < other.lo || (self.lo == other.lo && self.hi < other.hi)
    }
}

/// A block of statements, `{ ... }`.
pub struct Block {
    pub span: Span,
    pub stmts: Vec<Stmt>,
}

/// The shared shape of function declarations, function expressions and
/// methods. A function with no body (for instance a bare declaration) carries
/// `None`.
pub struct Function {
    pub span: Span,
    pub is_async: bool,
    pub body: Option<Block>,
}

/// An arrow function's body: either a block or a bare expression, which
/// always evaluates to a value.
pub enum ArrowBody {
    BlockBody(Block),
    ExprBody(Box<Expr>),
}

/// A property key. `Ident` and `Str` keys can be resolved to a name; a
/// computed or otherwise unrecognized key cannot.
pub enum PropName {
    Ident { span: Span, name: Vec<u8> },
    Str { span: Span, value: Vec<u8> },
    Computed { span: Span },
    Other { span: Span },
}

/// A property of an object literal.
pub enum Prop {
    /// `key: value`
    KeyValue { span: Span, key: PropName, value: Box<Expr> },
    /// `get key() { ... }`
    Getter { span: Span, key: PropName, body: Option<Block> },
    /// `key() { ... }`
    Method { span: Span, key: PropName, function: Function },
    /// `...expr`
    Spread { span: Span, expr: Box<Expr> },
    /// A property shape no analysis looks inside.
    Other { span: Span },
}

/// What kind of method a class member is.
#[derive(Clone, Copy, PartialEq, Eq, Structural, Debug)]
pub enum MethodKind {
    Getter,
    Setter,
    Plain,
}

/// A member of a class body.
pub enum ClassMember {
    Method { span: Span, key: PropName, kind: MethodKind, function: Function },
    PrivateMethod { span: Span, key_span: Span, kind: MethodKind, function: Function },
    Other { span: Span },
}

/// A class body, from a declaration or a class expression.
pub struct Class {
    pub span: Span,
    pub members: Vec<ClassMember>,
}

/// The binary operators an analysis distinguishes: only a logical OR is ever
/// recursed into, so every other operator is carried as `NotOr`.
#[derive(Clone, Copy, PartialEq, Eq, Structural, Debug)]
pub enum BinOp {
    LogicalOr,
    NotOr,
}

/// The callee position of a call: an expression or `super`.
pub enum ExprOrSuper {
    ExprCallee(Box<Expr>),
    SuperCallee(Span),
}

/// An expression.
pub enum Expr {
    Ident { span: Span, name: Vec<u8> },
    /// Any assignment expression, compound operators included.
    Assign { span: Span, target: Box<Expr>, value: Box<Expr> },
    Bin { span: Span, op: BinOp, left: Box<Expr>, right: Box<Expr> },
    Paren { span: Span, expr: Box<Expr> },
    /// Ternary `test ? cons : alt`.
    Ternary { span: Span, test: Box<Expr>, cons: Box<Expr>, alt: Box<Expr> },
    Func { span: Span, function: Function },
    Arrow { span: Span, is_async: bool, body: ArrowBody },
    New { span: Span, callee: Box<Expr>, args: Option<Vec<Expr>> },
    Call { span: Span, callee: ExprOrSuper, args: Vec<Expr> },
    Member { span: Span, obj: ExprOrSuper, prop: Box<Expr> },
    Object { span: Span, props: Vec<Prop> },
    ClassExpr { span: Span, class: Class },
    Unary { span: Span, arg: Box<Expr> },
    OptChain { span: Span, expr: Box<Expr> },
    Lit { span: Span },
    /// An expression shape no analysis looks inside.
    Other { span: Span },
}

/// `for` initializer: a declaration list or a bare expression.
pub enum ForInit {
    VarInit(VarDecl),
    ExprInit(Box<Expr>),
}

/// A declaration list; only the initializer expressions are kept, since no
/// analysis reads the declared names.
pub struct VarDecl {
    pub span: Span,
    pub inits: Vec<Expr>,
}

/// One `case`/`default` arm of a switch statement. `test` is `None` for the
/// default case, which may stand anywhere in the sequence.
pub struct SwitchCase {
    pub span: Span,
    pub test: Option<Box<Expr>>,
    pub cons: Vec<Stmt>,
}

/// A statement.
pub enum Stmt {
    BlockStmt(Block),
    ExprStmt { span: Span, expr: Box<Expr> },
    Return { span: Span, arg: Option<Box<Expr>> },
    If { span: Span, test: Box<Expr>, cons: Box<Stmt>, alt: Option<Box<Stmt>> },
    While { span: Span, test: Box<Expr>, body: Box<Stmt> },
    DoWhile { span: Span, body: Box<Stmt>, test: Box<Expr> },
    For {
        span: Span,
        init: Option<ForInit>,
        test: Option<Box<Expr>>,
        update: Option<Box<Expr>>,
        body: Box<Stmt>,
    },
    Switch { span: Span, disc: Box<Expr>, cases: Vec<SwitchCase> },
    Throw { span: Span, arg: Box<Expr> },
    Break { span: Span },
    Continue { span: Span },
    VarStmt(VarDecl),
    ClassDecl { span: Span, class: Class },
    FnDecl { span: Span, function: Function },
    Try { span: Span, block: Block, handler: Option<Block>, finalizer: Option<Block> },
    /// A statement shape no analysis looks inside.
    Other { span: Span },
}

/// The root node handed to each rule: one module's statements.
pub struct Module {
    pub span: Span,
    pub body: Vec<Stmt>,
}

/// The span a statement is reported and looked up under.
pub open spec fn spec_stmt_span(s: Stmt) -> Span {
    match s {
        Stmt::BlockStmt(b) => b.span,
        Stmt::ExprStmt { span, .. } => span,
        Stmt::Return { span, .. } => span,
        Stmt::If { span, .. } => span,
        Stmt::While { span, .. } => span,
        Stmt::DoWhile { span, .. } => span,
        Stmt::For { span, .. } => span,
        Stmt::Switch { span, .. } => span,
        Stmt::Throw { span, .. } => span,
        Stmt::Break { span } => span,
        Stmt::Continue { span } => span,
        Stmt::VarStmt(d) => d.span,
        Stmt::ClassDecl { span, .. } => span,
        Stmt::FnDecl { span, .. } => span,
        Stmt::Try { span, .. } => span,
        Stmt::Other { span } => span,
    }
}

impl Stmt {
    /// The span a statement is reported and looked up under.
    pub fn stmt_span(&self) -> (r: Span)
        ensures
            r == spec_stmt_span(*self),
    {
        match self {
            Stmt::BlockStmt(b) => b.span,
            Stmt::ExprStmt { span, .. } => *span,
            Stmt::Return { span, .. } => *span,
            Stmt::If { span, .. } => *span,
            Stmt::While { span, .. } => *span,
            Stmt::DoWhile { span, .. } => *span,
            Stmt::For { span, .. } => *span,
            Stmt::Switch { span, .. } => *span,
            Stmt::Throw { span, .. } => *span,
            Stmt::Break { span } => *span,
            Stmt::Continue { span } => *span,
            Stmt::VarStmt(d) => d.span,
            Stmt::ClassDecl { span, .. } => *span,
            Stmt::FnDecl { span, .. } => *span,
            Stmt::Try { span, .. } => *span,
            Stmt::Other { span } => *span,
        }
    }
}

} // verus!
