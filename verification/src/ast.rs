//! The syntax tree consumed by the code generator, and its mathematical model.
//!
//! Each executable type has a ghost counterpart in which strings are
//! `Seq<char>`, vectors are `Seq` and machine integers are `int`. The `View`
//! of a tree is its model; all contracts of the emitters speak of models.

use vstd::prelude::*;

verus! {

/// A declared type of the source language.
#[derive(Debug)]
pub enum Type {
    Int,
    Float,
    Bool,
    String,
    Nil,
    /// A user-defined type, known only by name.
    Custom(String),
}

/// Unary operators.
#[derive(Clone, Copy, Debug, PartialEq, Eq)]
pub enum PrefixOp {
    Neg,
    Not,
}

/// Binary operators, assignment forms included.
#[derive(Clone, Copy, Debug, PartialEq, Eq)]
pub enum InfixOp {
    Add,
    Sub,
    Mul,
    Div,
    Mod,
    Eq,
    Ne,
    Lt,
    Le,
    Gt,
    Ge,
    And,
    Or,
    Assign,
    AddAssign,
    SubAssign,
    MulAssign,
    DivAssign,
}

/// An expression tree.
#[derive(Debug)]
#[allow(inconsistent_fields)]
pub enum Expr {
    Int(i64),
    /// A floating-point literal, held as its canonical decimal text.
    Float(String),
    Bool(bool),
    String(String),
    Nil,
    Ident(String),
    Prefix { op: PrefixOp, rhs: Box<Expr> },
    Infix { op: InfixOp, lhs: Box<Expr>, rhs: Box<Expr> },
    Call { callee: Box<Expr>, args: Vec<Expr> },
    Index { target: Box<Expr>, index: Box<Expr> },
    StructLiteral { name: String, fields: Vec<(String, Expr)> },
    FieldAccess { target: Box<Expr>, field: String },
    Group(Box<Expr>),
}

/// An ordered sequence of statements.
pub type Block = Vec<Stmt>;

/// The else branch of an `If`: a block, or a further `If` of the chain.
#[derive(Debug)]
pub enum BlockOrIf {
    Block(Block),
    If(Box<Stmt>),
}

/// A statement.
#[derive(Debug)]
pub enum Stmt {
    Let { name: String, mutable: bool, value: Option<Expr> },
    ExprStmt(Expr),
    Return(Option<Expr>),
    While { cond: Expr, body: Block },
    If { cond: Expr, then_branch: Block, else_branch: Option<BlockOrIf> },
    Block(Block),
    Struct { name: String, fields: Vec<(String, Type)> },
    /// Leaves the innermost loop.
    Out,
    /// Starts the next iteration of the innermost loop.
    Skip,
    Func { name: String, params: Vec<(String, Type)>, returntype: Type, body: Block },
}

/// A whole program: its top-level statements in source order.
#[derive(Debug)]
pub struct Program {
    pub stmts: Vec<Stmt>,
}

/// Model of [`Type`].
pub enum TypeModel {
    Int,
    Float,
    Bool,
    String,
    Nil,
    Custom(Seq<char>),
}

/// Model of [`Expr`].
#[allow(inconsistent_fields)]
pub enum ExprModel {
    Int(int),
    Float(Seq<char>),
    Bool(bool),
    String(Seq<char>),
    Nil,
    Ident(Seq<char>),
    Prefix { op: PrefixOp, rhs: Box<ExprModel> },
    Infix { op: InfixOp, lhs: Box<ExprModel>, rhs: Box<ExprModel> },
    Call { callee: Box<ExprModel>, args: Seq<ExprModel> },
    Index { target: Box<ExprModel>, index: Box<ExprModel> },
    StructLiteral { name: Seq<char>, fields: Seq<(Seq<char>, ExprModel)> },
    FieldAccess { target: Box<ExprModel>, field: Seq<char> },
    Group(Box<ExprModel>),
}

/// Model of [`BlockOrIf`].
pub enum ElseModel {
    Block(Seq<StmtModel>),
    If(Box<StmtModel>),
}

/// Model of [`Stmt`].
pub enum StmtModel {
    Let { name: Seq<char>, mutable: bool, value: Option<ExprModel> },
    ExprStmt(ExprModel),
    Return(Option<ExprModel>),
    While { cond: ExprModel, body: Seq<StmtModel> },
    If { cond: ExprModel, then_branch: Seq<StmtModel>, else_branch: Option<ElseModel> },
    Block(Seq<StmtModel>),
    Struct { name: Seq<char>, fields: Seq<(Seq<char>, TypeModel)> },
    Out,
    Skip,
    Func {
        name: Seq<char>,
        params: Seq<(Seq<char>, TypeModel)>,
        returntype: TypeModel,
        body: Seq<StmtModel>,
    },
}

impl View for Type {
    type V = TypeModel;

    open spec fn view(&self) -> TypeModel {
        match self {
            Type::Int => TypeModel::Int,
            Type::Float => TypeModel::Float,
            Type::Bool => TypeModel::Bool,
            Type::String => TypeModel::String,
            Type::Nil => TypeModel::Nil,
            Type::Custom(name) => TypeModel::Custom(name@),
        }
    }
}

/// Model of a list of typed names (parameters, struct fields).
pub open spec fn typed_names_model(names: Seq<(String, Type)>) -> Seq<(Seq<char>, TypeModel)> {
    Seq::new(names.len(), |i: int| (names[i].0@, names[i].1@))
}

/// Model of an optional expression.
pub open spec fn opt_expr_model(e: Option<Expr>) -> Option<ExprModel>
    decreases e,
{
    match e {
        Some(e) => Some(expr_model(e)),
        None => None,
    }
}

/// Model of an expression.
pub open spec fn expr_model(e: Expr) -> ExprModel
    decreases e,
{
    match e {
        Expr::Int(v) => ExprModel::Int(v as int),
        Expr::Float(text) => ExprModel::Float(text@),
        Expr::Bool(b) => ExprModel::Bool(b),
        Expr::String(s) => ExprModel::String(s@),
        Expr::Nil => ExprModel::Nil,
        Expr::Ident(name) => ExprModel::Ident(name@),
        Expr::Prefix { op, rhs } => ExprModel::Prefix { op, rhs: Box::new(expr_model(*rhs)) },
        Expr::Infix { op, lhs, rhs } => ExprModel::Infix {
            op,
            lhs: Box::new(expr_model(*lhs)),
            rhs: Box::new(expr_model(*rhs)),
        },
        Expr::Call { callee, args } => ExprModel::Call {
            callee: Box::new(expr_model(*callee)),
            args: exprs_model(args@),
        },
        Expr::Index { target, index } => ExprModel::Index {
            target: Box::new(expr_model(*target)),
            index: Box::new(expr_model(*index)),
        },
        Expr::StructLiteral { name, fields } => ExprModel::StructLiteral {
            name: name@,
            fields: field_inits_model(fields@),
        },
        Expr::FieldAccess { target, field } => ExprModel::FieldAccess {
            target: Box::new(expr_model(*target)),
            field: field@,
        },
        Expr::Group(inner) => ExprModel::Group(Box::new(expr_model(*inner))),
    }
}

/// Model of a list of expressions, element by element.
pub open spec fn exprs_model(es: Seq<Expr>) -> Seq<ExprModel>
    decreases es,
{
    Seq::new(
        es.len(),
        |i: int|
            if 0 <= i < es.len() {
                expr_model(es[i])
            } else {
                ExprModel::Nil
            },
    )
}

/// Model of the field initialisers of a struct literal.
pub open spec fn field_inits_model(fields: Seq<(String, Expr)>) -> Seq<(Seq<char>, ExprModel)>
    decreases fields,
{
    Seq::new(
        fields.len(),
        |i: int|
            if 0 <= i < fields.len() {
                (fields[i].0@, expr_model(fields[i].1))
            } else {
                (Seq::empty(), ExprModel::Nil)
            },
    )
}

impl View for Expr {
    type V = ExprModel;

    open spec fn view(&self) -> ExprModel {
        expr_model(*self)
    }
}

/// Model of a statement.
pub open spec fn stmt_model(s: Stmt) -> StmtModel
    decreases s,
{
    match s {
        Stmt::Let { name, mutable, value } => StmtModel::Let {
            name: name@,
            mutable,
            value: opt_expr_model(value),
        },
        Stmt::ExprStmt(e) => StmtModel::ExprStmt(e@),
        Stmt::Return(e) => StmtModel::Return(opt_expr_model(e)),
        Stmt::While { cond, body } => StmtModel::While { cond: cond@, body: block_model(body@) },
        Stmt::If { cond, then_branch, else_branch } => StmtModel::If {
            cond: cond@,
            then_branch: block_model(then_branch@),
            else_branch: match else_branch {
                Some(BlockOrIf::Block(b)) => Some(ElseModel::Block(block_model(b@))),
                Some(BlockOrIf::If(s)) => Some(ElseModel::If(Box::new(stmt_model(*s)))),
                None => None,
            },
        },
        Stmt::Block(b) => StmtModel::Block(block_model(b@)),
        Stmt::Struct { name, fields } => StmtModel::Struct {
            name: name@,
            fields: typed_names_model(fields@),
        },
        Stmt::Out => StmtModel::Out,
        Stmt::Skip => StmtModel::Skip,
        Stmt::Func { name, params, returntype, body } => StmtModel::Func {
            name: name@,
            params: typed_names_model(params@),
            returntype: returntype@,
            body: block_model(body@),
        },
    }
}

/// Model of a block, statement by statement.
pub open spec fn block_model(b: Seq<Stmt>) -> Seq<StmtModel>
    decreases b,
{
    Seq::new(
        b.len(),
        |i: int|
            if 0 <= i < b.len() {
                stmt_model(b[i])
            } else {
                StmtModel::Skip
            },
    )
}

impl View for Stmt {
    type V = StmtModel;

    open spec fn view(&self) -> StmtModel {
        stmt_model(*self)
    }
}

impl View for BlockOrIf {
    type V = ElseModel;

    open spec fn view(&self) -> ElseModel {
        match self {
            BlockOrIf::Block(b) => ElseModel::Block(block_model(b@)),
            BlockOrIf::If(s) => ElseModel::If(Box::new(s@)),
        }
    }
}

impl View for Program {
    type V = Seq<StmtModel>;

    open spec fn view(&self) -> Seq<StmtModel> {
        block_model(self.stmts@)
    }
}

} // verus!
