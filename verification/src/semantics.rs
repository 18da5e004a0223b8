//! The big-step semantics of the language, as spec functions.
//!
//! A machine is the scope arena, the current scope, what has been printed,
//! the next function identity stamp, and the number the clock native
//! returns this run.  Every spec function takes fuel and consumes one unit
//! per recursion; running out is a distinct outcome, so the semantics is a
//! total function and the executable evaluator can be proved equal to it.

use vstd::prelude::*;
use crate::ast::{BinaryOp, Expr, LogicalOp, Stmt, UnaryOp};
use crate::environment::{assign_in, define_in, lookup_in, SpecScope};
use crate::numerics::{add_bits, div_bits, le_bits, lt_bits, mul_bits, neg_bits, sub_bits};
use crate::token::Literal;
use crate::value::{truthy, vals_equal, SpecFun, SpecVal};

verus! {

/// The whole interpreter state, as mathematics.
pub struct SpecMachine {
    /// The scope arena.
    pub scopes: Seq<SpecScope>,
    /// The index of the scope that is current.
    pub cur: int,
    /// The values printed so far, oldest first.
    pub out: Seq<SpecVal>,
    /// The identity stamp the next function declaration receives.
    pub next_id: int,
    /// The number (IEEE binary64 bits of seconds since the epoch) the
    /// clock native returns during this run.
    pub now: u64,
}

/// A run-time error, as mathematics.  Each carries the offending line.
pub enum SpecRtErr {
    UndefinedVariable { name: Seq<char>, line: u32 },
    UnaryOperandMustBeNumber { line: u32 },
    OperandsMustBeNumbers { line: u32 },
    OperandsMustBeNumbersOrStrings { line: u32 },
    NotCallable { line: u32 },
    ArityMismatch { expected: int, got: int, line: u32 },
}

/// The outcome of evaluating an expression.
pub enum SpecEvalR {
    Value(SpecVal, SpecMachine),
    Fault(SpecRtErr, SpecMachine),
    Exhausted(SpecMachine),
}

/// The outcome of evaluating an argument list.
pub enum SpecArgsR {
    Values(Seq<SpecVal>, SpecMachine),
    Fault(SpecRtErr, SpecMachine),
    Exhausted(SpecMachine),
}

/// The outcome of executing a statement: normal completion, an unwinding
/// `return`, a fault, or exhaustion.
pub enum SpecStmtR {
    Normal(SpecMachine),
    Returning(SpecVal, SpecMachine),
    Fault(SpecRtErr, SpecMachine),
    Exhausted(SpecMachine),
}

/// The value a literal denotes.
pub open spec fn lit_val(l: Literal) -> SpecVal {
    match l {
        Literal::String(s) => SpecVal::Str(s@),
        Literal::Number(bits, _) => SpecVal::Num(bits),
        Literal::Bool(b) => SpecVal::Bool(b),
        Literal::Null => SpecVal::Nil,
        Literal::Nil => SpecVal::Nil,
    }
}

/// What a unary operator yields on an evaluated operand: `-` demands a
/// number; `!` goes by truthiness.
pub open spec fn sp_unary(op: UnaryOp, line: u32, v: SpecVal) -> Result<SpecVal, SpecRtErr> {
    match op {
        UnaryOp::Neg => match v {
            SpecVal::Num(n) => Result::Ok(SpecVal::Num(neg_bits(n))),
            _ => Result::Err(SpecRtErr::UnaryOperandMustBeNumber { line }),
        },
        UnaryOp::Not => Result::Ok(SpecVal::Bool(!truthy(v))),
    }
}

/// What a binary operator yields on two evaluated operands.  `+` adds two
/// numbers or concatenates two strings; the other arithmetic and the
/// orderings demand two numbers; `==` and `!=` never fail.
pub open spec fn sp_binary(op: BinaryOp, line: u32, a: SpecVal, b: SpecVal) -> Result<
    SpecVal,
    SpecRtErr,
> {
    match op {
        BinaryOp::Add => match (a, b) {
            (SpecVal::Num(x), SpecVal::Num(y)) => Result::Ok(SpecVal::Num(add_bits(x, y))),
            (SpecVal::Str(x), SpecVal::Str(y)) => Result::Ok(SpecVal::Str(x + y)),
            _ => Result::Err(SpecRtErr::OperandsMustBeNumbersOrStrings { line }),
        },
        BinaryOp::Sub => match (a, b) {
            (SpecVal::Num(x), SpecVal::Num(y)) => Result::Ok(SpecVal::Num(sub_bits(x, y))),
            _ => Result::Err(SpecRtErr::OperandsMustBeNumbers { line }),
        },
        BinaryOp::Mul => match (a, b) {
            (SpecVal::Num(x), SpecVal::Num(y)) => Result::Ok(SpecVal::Num(mul_bits(x, y))),
            _ => Result::Err(SpecRtErr::OperandsMustBeNumbers { line }),
        },
        BinaryOp::Div => match (a, b) {
            (SpecVal::Num(x), SpecVal::Num(y)) => Result::Ok(SpecVal::Num(div_bits(x, y))),
            _ => Result::Err(SpecRtErr::OperandsMustBeNumbers { line }),
        },
        BinaryOp::Greater => match (a, b) {
            (SpecVal::Num(x), SpecVal::Num(y)) => Result::Ok(SpecVal::Bool(lt_bits(y, x))),
            _ => Result::Err(SpecRtErr::OperandsMustBeNumbers { line }),
        },
        BinaryOp::GreaterEqual => match (a, b) {
            (SpecVal::Num(x), SpecVal::Num(y)) => Result::Ok(SpecVal::Bool(le_bits(y, x))),
            _ => Result::Err(SpecRtErr::OperandsMustBeNumbers { line }),
        },
        BinaryOp::Less => match (a, b) {
            (SpecVal::Num(x), SpecVal::Num(y)) => Result::Ok(SpecVal::Bool(lt_bits(x, y))),
            _ => Result::Err(SpecRtErr::OperandsMustBeNumbers { line }),
        },
        BinaryOp::LessEqual => match (a, b) {
            (SpecVal::Num(x), SpecVal::Num(y)) => Result::Ok(SpecVal::Bool(le_bits(x, y))),
            _ => Result::Err(SpecRtErr::OperandsMustBeNumbers { line }),
        },
        BinaryOp::EqualEqual => Result::Ok(SpecVal::Bool(vals_equal(a, b))),
        BinaryOp::NotEqual => Result::Ok(SpecVal::Bool(!vals_equal(a, b))),
    }
}

/// The machine with a fresh scope installed as current, enclosed by
/// `parent`.
pub open spec fn push_scope_m(m: SpecMachine, parent: int) -> SpecMachine {
    SpecMachine {
        scopes: m.scopes.push(SpecScope { vars: Map::empty(), parent }),
        cur: m.scopes.len() as int,
        out: m.out,
        next_id: m.next_id,
        now: m.now,
    }
}

/// The machine after defining `name` in the current scope.
pub open spec fn define_m(m: SpecMachine, name: Seq<char>, v: SpecVal) -> SpecMachine {
    SpecMachine {
        scopes: define_in(m.scopes, m.cur, name, v),
        cur: m.cur,
        out: m.out,
        next_id: m.next_id,
        now: m.now,
    }
}

/// The machine with the current scope put back to `cur` (block or call
/// exit; the inner scope stays in the arena for any closure that captured
/// it).
pub open spec fn restore_m(m: SpecMachine, cur: int) -> SpecMachine {
    SpecMachine { scopes: m.scopes, cur, out: m.out, next_id: m.next_id, now: m.now }
}

/// The machine after printing `v`.
pub open spec fn output_m(m: SpecMachine, v: SpecVal) -> SpecMachine {
    SpecMachine { scopes: m.scopes, cur: m.cur, out: m.out.push(v), next_id: m.next_id, now: m.now }
}

/// The next identity stamp: one more, saturating at the largest.
pub open spec fn bump_id(id: int) -> int {
    if id + 1 <= u64::MAX {
        id + 1
    } else {
        id
    }
}

/// The machine after binding each parameter to its argument, left to
/// right, in the current scope.
pub open spec fn bind_params_m(m: SpecMachine, params: Seq<Seq<char>>, vs: Seq<SpecVal>) -> SpecMachine
    decreases params.len(),
{
    if params.len() == 0 {
        m
    } else {
        bind_params_m(define_m(m, params[0], vs[0]), params.drop_first(), vs.drop_first())
    }
}

/// Evaluate an expression.
pub open spec fn sp_eval(e: Expr, m: SpecMachine, fuel: nat) -> SpecEvalR
    decreases fuel,
{
    if fuel == 0 {
        SpecEvalR::Exhausted(m)
    } else {
        let f = (fuel - 1) as nat;
        match e {
            Expr::Literal(l) => SpecEvalR::Value(lit_val(l), m),
            Expr::Grouping(inner) => sp_eval(*inner, m, f),
            Expr::Variable { name, line } => match lookup_in(m.scopes, m.cur, name@) {
                Option::Some(v) => SpecEvalR::Value(v, m),
                Option::None => SpecEvalR::Fault(
                    SpecRtErr::UndefinedVariable { name: name@, line },
                    m,
                ),
            },
            Expr::Assign { name, line, value } => match sp_eval(*value, m, f) {
                SpecEvalR::Value(v, m1) => match assign_in(m1.scopes, m1.cur, name@, v) {
                    Option::Some(scopes2) => SpecEvalR::Value(
                        v,
                        SpecMachine {
                            scopes: scopes2,
                            cur: m1.cur,
                            out: m1.out,
                            next_id: m1.next_id,
                            now: m1.now,
                        },
                    ),
                    Option::None => SpecEvalR::Fault(
                        SpecRtErr::UndefinedVariable { name: name@, line },
                        m1,
                    ),
                },
                other => other,
            },
            Expr::Unary { op, line, operand } => match sp_eval(*operand, m, f) {
                SpecEvalR::Value(v, m1) => match sp_unary(op, line, v) {
                    Result::Ok(r) => SpecEvalR::Value(r, m1),
                    Result::Err(er) => SpecEvalR::Fault(er, m1),
                },
                other => other,
            },
            Expr::Binary { op, line, left, right } => match sp_eval(*left, m, f) {
                SpecEvalR::Value(a, m1) => match sp_eval(*right, m1, f) {
                    SpecEvalR::Value(b, m2) => match sp_binary(op, line, a, b) {
                        Result::Ok(r) => SpecEvalR::Value(r, m2),
                        Result::Err(er) => SpecEvalR::Fault(er, m2),
                    },
                    other => other,
                },
                other => other,
            },
            Expr::Logical { op, left, right } => match sp_eval(*left, m, f) {
                SpecEvalR::Value(a, m1) => match op {
                    LogicalOp::Or => if truthy(a) {
                        SpecEvalR::Value(a, m1)
                    } else {
                        sp_eval(*right, m1, f)
                    },
                    LogicalOp::And => if !truthy(a) {
                        SpecEvalR::Value(a, m1)
                    } else {
                        sp_eval(*right, m1, f)
                    },
                },
                other => other,
            },
            Expr::Call { callee, line, args } => match sp_eval(*callee, m, f) {
                SpecEvalR::Value(cv, m1) => match sp_eval_args(args@, m1, f) {
                    SpecArgsR::Values(vs, m2) => sp_call(cv, vs, line, m2, f),
                    SpecArgsR::Fault(er, m2) => SpecEvalR::Fault(er, m2),
                    SpecArgsR::Exhausted(m2) => SpecEvalR::Exhausted(m2),
                },
                other => other,
            },
        }
    }
}

/// Evaluate expressions left to right, collecting their values.
pub open spec fn sp_eval_args(es: Seq<Expr>, m: SpecMachine, fuel: nat) -> SpecArgsR
    decreases fuel,
{
    if fuel == 0 {
        SpecArgsR::Exhausted(m)
    } else {
        let f = (fuel - 1) as nat;
        if es.len() == 0 {
            SpecArgsR::Values(Seq::empty(), m)
        } else {
            match sp_eval(es[0], m, f) {
                SpecEvalR::Value(v, m1) => match sp_eval_args(es.drop_first(), m1, f) {
                    SpecArgsR::Values(vs, m2) => SpecArgsR::Values(seq![v] + vs, m2),
                    other => other,
                },
                SpecEvalR::Fault(er, m1) => SpecArgsR::Fault(er, m1),
                SpecEvalR::Exhausted(m1) => SpecArgsR::Exhausted(m1),
            }
        }
    }
}

/// Call a value.  A user function gets a fresh scope enclosed by its
/// captured scope, its own name bound for recursion, then its parameters;
/// its body runs as a block, a surfacing `return` becomes the call's
/// value, and falling off the end yields nil.  The clock native yields the
/// run's clock reading.  Anything else is a fault.
pub open spec fn sp_call(cv: SpecVal, vs: Seq<SpecVal>, line: u32, m: SpecMachine, fuel: nat) -> SpecEvalR
    decreases fuel,
{
    if fuel == 0 {
        SpecEvalR::Exhausted(m)
    } else {
        let f = (fuel - 1) as nat;
        match cv {
            SpecVal::Fun(fun) => if vs.len() != fun.params.len() {
                SpecEvalR::Fault(
                    SpecRtErr::ArityMismatch {
                        expected: fun.params.len() as int,
                        got: vs.len() as int,
                        line,
                    },
                    m,
                )
            } else {
                let entered = push_scope_m(m, fun.env);
                let named = define_m(entered, fun.name, SpecVal::Fun(fun));
                let bound = bind_params_m(named, fun.params, vs);
                match sp_exec_seq(fun.body, bound, f) {
                    SpecStmtR::Normal(m1) => SpecEvalR::Value(SpecVal::Nil, restore_m(m1, m.cur)),
                    SpecStmtR::Returning(v, m1) => SpecEvalR::Value(v, restore_m(m1, m.cur)),
                    SpecStmtR::Fault(er, m1) => SpecEvalR::Fault(er, restore_m(m1, m.cur)),
                    SpecStmtR::Exhausted(m1) => SpecEvalR::Exhausted(restore_m(m1, m.cur)),
                }
            },
            SpecVal::Native => if vs.len() != 0 {
                SpecEvalR::Fault(
                    SpecRtErr::ArityMismatch { expected: 0, got: vs.len() as int, line },
                    m,
                )
            } else {
                SpecEvalR::Value(SpecVal::Num(m.now), m)
            },
            _ => SpecEvalR::Fault(SpecRtErr::NotCallable { line }, m),
        }
    }
}

/// Execute one statement.
pub open spec fn sp_exec(st: Stmt, m: SpecMachine, fuel: nat) -> SpecStmtR
    decreases fuel,
{
    if fuel == 0 {
        SpecStmtR::Exhausted(m)
    } else {
        let f = (fuel - 1) as nat;
        match st {
            Stmt::Expression(e) => match sp_eval(e, m, f) {
                SpecEvalR::Value(_, m1) => SpecStmtR::Normal(m1),
                SpecEvalR::Fault(er, m1) => SpecStmtR::Fault(er, m1),
                SpecEvalR::Exhausted(m1) => SpecStmtR::Exhausted(m1),
            },
            Stmt::Print(e) => match sp_eval(e, m, f) {
                SpecEvalR::Value(v, m1) => SpecStmtR::Normal(output_m(m1, v)),
                SpecEvalR::Fault(er, m1) => SpecStmtR::Fault(er, m1),
                SpecEvalR::Exhausted(m1) => SpecStmtR::Exhausted(m1),
            },
            Stmt::Var { name, init } => match sp_eval(init, m, f) {
                SpecEvalR::Value(v, m1) => SpecStmtR::Normal(define_m(m1, name@, v)),
                SpecEvalR::Fault(er, m1) => SpecStmtR::Fault(er, m1),
                SpecEvalR::Exhausted(m1) => SpecStmtR::Exhausted(m1),
            },
            Stmt::Block(ss) => {
                let entered = push_scope_m(m, m.cur);
                match sp_exec_seq(ss@, entered, f) {
                    SpecStmtR::Normal(m1) => SpecStmtR::Normal(restore_m(m1, m.cur)),
                    SpecStmtR::Returning(v, m1) => SpecStmtR::Returning(v, restore_m(m1, m.cur)),
                    SpecStmtR::Fault(er, m1) => SpecStmtR::Fault(er, restore_m(m1, m.cur)),
                    SpecStmtR::Exhausted(m1) => SpecStmtR::Exhausted(restore_m(m1, m.cur)),
                }
            },
            Stmt::If { cond, then_branch, else_branch } => match sp_eval(cond, m, f) {
                SpecEvalR::Value(c, m1) => if truthy(c) {
                    sp_exec(*then_branch, m1, f)
                } else {
                    match else_branch {
                        Option::Some(eb) => sp_exec(*eb, m1, f),
                        Option::None => SpecStmtR::Normal(m1),
                    }
                },
                SpecEvalR::Fault(er, m1) => SpecStmtR::Fault(er, m1),
                SpecEvalR::Exhausted(m1) => SpecStmtR::Exhausted(m1),
            },
            Stmt::While { cond, body } => match sp_eval(cond, m, f) {
                SpecEvalR::Value(c, m1) => if !truthy(c) {
                    SpecStmtR::Normal(m1)
                } else {
                    match sp_exec(*body, m1, f) {
                        SpecStmtR::Normal(m2) => sp_exec(Stmt::While { cond, body }, m2, f),
                        SpecStmtR::Returning(v, m2) => SpecStmtR::Returning(v, m2),
                        SpecStmtR::Fault(er, m2) => SpecStmtR::Fault(er, m2),
                        SpecStmtR::Exhausted(m2) => SpecStmtR::Exhausted(m2),
                    }
                },
                SpecEvalR::Fault(er, m1) => SpecStmtR::Fault(er, m1),
                SpecEvalR::Exhausted(m1) => SpecStmtR::Exhausted(m1),
            },
            Stmt::Function { name, params, body } => {
                let fun = SpecFun {
                    name: name@,
                    params: params.deep_view(),
                    body: body@,
                    env: m.cur,
                    id: m.next_id,
                };
                SpecStmtR::Normal(
                    SpecMachine {
                        scopes: define_in(m.scopes, m.cur, name@, SpecVal::Fun(fun)),
                        cur: m.cur,
                        out: m.out,
                        next_id: bump_id(m.next_id),
                        now: m.now,
                    },
                )
            },
            Stmt::Return { line: _, value } => match sp_eval(value, m, f) {
                SpecEvalR::Value(v, m1) => SpecStmtR::Returning(v, m1),
                SpecEvalR::Fault(er, m1) => SpecStmtR::Fault(er, m1),
                SpecEvalR::Exhausted(m1) => SpecStmtR::Exhausted(m1),
            },
        }
    }
}

/// Execute statements in order; a `return`, fault, or exhaustion stops the
/// rest.
pub open spec fn sp_exec_seq(ss: Seq<Stmt>, m: SpecMachine, fuel: nat) -> SpecStmtR
    decreases fuel,
{
    if fuel == 0 {
        SpecStmtR::Exhausted(m)
    } else {
        let f = (fuel - 1) as nat;
        if ss.len() == 0 {
            SpecStmtR::Normal(m)
        } else {
            match sp_exec(ss[0], m, f) {
                SpecStmtR::Normal(m1) => sp_exec_seq(ss.drop_first(), m1, f),
                SpecStmtR::Returning(v, m1) => SpecStmtR::Returning(v, m1),
                SpecStmtR::Fault(er, m1) => SpecStmtR::Fault(er, m1),
                SpecStmtR::Exhausted(m1) => SpecStmtR::Exhausted(m1),
            }
        }
    }
}

} // verus!
