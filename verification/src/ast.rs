//! The abstract syntax tree shared by the parser and the evaluator.
//!
//! Statement bodies that end up captured inside function values are held
//! behind `Rc`, so declaring a function shares the already-parsed body
//! instead of copying it.

use vstd::prelude::*;
use std::rc::Rc;
use crate::token::{Literal, SpecLiteral};

verus! {

/// The unary operators.
#[derive(Debug, Copy, Clone, PartialEq, Eq, Structural)]
pub enum UnaryOp {
    Neg,
    Not,
}

/// The binary (non-short-circuit) operators.
#[derive(Debug, Copy, Clone, PartialEq, Eq, Structural)]
pub enum BinaryOp {
    Add,
    Sub,
    Mul,
    Div,
    Greater,
    GreaterEqual,
    Less,
    LessEqual,
    EqualEqual,
    NotEqual,
}

/// The short-circuit logical operators.
#[derive(Debug, Copy, Clone, PartialEq, Eq, Structural)]
pub enum LogicalOp {
    And,
    Or,
}

/// An expression.  Nodes that can fail at run time carry the 1-based source
/// line of the operator or name, for diagnostics.
#[derive(Debug)]
pub enum Expr {
    Literal(Literal),
    Grouping(Box<Expr>),
    Variable { name: String, line: u32 },
    Assign { name: String, line: u32, value: Box<Expr> },
    Unary { op: UnaryOp, line: u32, operand: Box<Expr> },
    Binary { op: BinaryOp, line: u32, left: Box<Expr>, right: Box<Expr> },
    Logical { op: LogicalOp, left: Box<Expr>, right: Box<Expr> },
    Call { callee: Box<Expr>, line: u32, args: Vec<Expr> },
}

/// A statement.  `for` loops do not appear: the parser desugars them into a
/// block holding the initializer and a `while` loop whose body ends with the
/// increment as an expression statement.
#[derive(Debug)]
pub enum Stmt {
    Expression(Expr),
    Print(Expr),
    Var { name: String, init: Expr },
    Block(Vec<Stmt>),
    If { cond: Expr, then_branch: Box<Stmt>, else_branch: Option<Box<Stmt>> },
    While { cond: Expr, body: Box<Stmt> },
    Function { name: String, params: Rc<Vec<String>>, body: Rc<Vec<Stmt>> },
    Return { line: u32, value: Expr },
}

/// The ghost image of an expression: text as character sequences, lists
/// as mathematical sequences.  The parser's specification builds these.
pub enum SpecExpr {
    Literal(SpecLiteral),
    Grouping(Box<SpecExpr>),
    Variable { name: Seq<char>, line: u32 },
    Assign { name: Seq<char>, line: u32, value: Box<SpecExpr> },
    Unary { op: UnaryOp, line: u32, operand: Box<SpecExpr> },
    Binary { op: BinaryOp, line: u32, left: Box<SpecExpr>, right: Box<SpecExpr> },
    Logical { op: LogicalOp, left: Box<SpecExpr>, right: Box<SpecExpr> },
    Call { callee: Box<SpecExpr>, line: u32, args: Seq<SpecExpr> },
}

/// The ghost image of a statement.
pub enum SpecStmt {
    Expression(SpecExpr),
    Print(SpecExpr),
    Var { name: Seq<char>, init: SpecExpr },
    Block(Seq<SpecStmt>),
    If { cond: SpecExpr, then_branch: Box<SpecStmt>, else_branch: Option<Box<SpecStmt>> },
    While { cond: SpecExpr, body: Box<SpecStmt> },
    Function { name: Seq<char>, params: Seq<Seq<char>>, body: Seq<SpecStmt> },
    Return { line: u32, value: SpecExpr },
}

/// The ghost image of an expression tree.
pub open spec fn deep_expr(e: Expr) -> SpecExpr
    decreases e,
{
    match e {
        Expr::Literal(l) => SpecExpr::Literal(l@),
        Expr::Grouping(inner) => SpecExpr::Grouping(Box::new(deep_expr(*inner))),
        Expr::Variable { name, line } => SpecExpr::Variable { name: name@, line },
        Expr::Assign { name, line, value } => SpecExpr::Assign {
            name: name@,
            line,
            value: Box::new(deep_expr(*value)),
        },
        Expr::Unary { op, line, operand } => SpecExpr::Unary {
            op,
            line,
            operand: Box::new(deep_expr(*operand)),
        },
        Expr::Binary { op, line, left, right } => SpecExpr::Binary {
            op,
            line,
            left: Box::new(deep_expr(*left)),
            right: Box::new(deep_expr(*right)),
        },
        Expr::Logical { op, left, right } => SpecExpr::Logical {
            op,
            left: Box::new(deep_expr(*left)),
            right: Box::new(deep_expr(*right)),
        },
        Expr::Call { callee, line, args } => SpecExpr::Call {
            callee: Box::new(deep_expr(*callee)),
            line,
            args: Seq::new(
                args@.len(),
                |i: int|
                    if 0 <= i < args@.len() {
                        deep_expr(args@[i])
                    } else {
                        SpecExpr::Literal(SpecLiteral::Nil)
                    },
            ),
        },
    }
}

/// The ghost image of a statement tree.
pub open spec fn deep_stmt(s: Stmt) -> SpecStmt
    decreases s,
{
    match s {
        Stmt::Expression(e) => SpecStmt::Expression(deep_expr(e)),
        Stmt::Print(e) => SpecStmt::Print(deep_expr(e)),
        Stmt::Var { name, init } => SpecStmt::Var { name: name@, init: deep_expr(init) },
        Stmt::Block(ss) => SpecStmt::Block(
            Seq::new(
                ss@.len(),
                |i: int|
                    if 0 <= i < ss@.len() {
                        deep_stmt(ss@[i])
                    } else {
                        SpecStmt::Block(Seq::empty())
                    },
            ),
        ),
        Stmt::If { cond, then_branch, else_branch } => SpecStmt::If {
            cond: deep_expr(cond),
            then_branch: Box::new(deep_stmt(*then_branch)),
            else_branch: match else_branch {
                Option::Some(eb) => Option::Some(Box::new(deep_stmt(*eb))),
                Option::None => Option::None,
            },
        },
        Stmt::While { cond, body } => SpecStmt::While {
            cond: deep_expr(cond),
            body: Box::new(deep_stmt(*body)),
        },
        Stmt::Function { name, params, body } => SpecStmt::Function {
            name: name@,
            params: params.deep_view(),
            body: Seq::new(
                body@.len(),
                |i: int|
                    if 0 <= i < body@.len() {
                        deep_stmt(body@[i])
                    } else {
                        SpecStmt::Block(Seq::empty())
                    },
            ),
        },
        Stmt::Return { line, value } => SpecStmt::Return { line, value: deep_expr(value) },
    }
}

/// The ghost image of a statement list.
pub open spec fn deep_stmts(ss: Seq<Stmt>) -> Seq<SpecStmt> {
    Seq::new(
        ss.len(),
        |i: int|
            if 0 <= i < ss.len() {
                deep_stmt(ss[i])
            } else {
                SpecStmt::Block(Seq::empty())
            },
    )
}

/// The ghost image of an expression list.
pub open spec fn deep_exprs(es: Seq<Expr>) -> Seq<SpecExpr> {
    Seq::new(
        es.len(),
        |i: int|
            if 0 <= i < es.len() {
                deep_expr(es[i])
            } else {
                SpecExpr::Literal(SpecLiteral::Nil)
            },
    )
}

} // verus!
