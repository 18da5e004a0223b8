//! Run-time values, and the small spec vocabulary about them: truthiness
//! and the language's equality.

use vstd::prelude::*;
use std::rc::Rc;
use crate::ast::Stmt;
use crate::numerics::eq_bits;

verus! {

/// The native wall-clock function, predefined as `clock` in the global
/// scope of a program run.
#[derive(Debug, Clone)]
pub struct Clock {}

impl Clock {
    pub fn new() -> (c: Clock) {
        Clock {  }
    }

    /// Every native function may stand as the callee of a call.
    pub fn is_lox_callable(&self) -> (r: bool)
        ensures
            r,
    {
        true
    }

    /// How a native function is rendered by `print`.
    pub fn to_string(&self) -> (s: String)
        ensures
            s@ == "<native fn>"@,
    {
        String::from_str("<native fn>")
    }
}

/// The host-provided callables.  The only one is the clock.
#[derive(Debug, Clone)]
pub enum Global {
    Clock(Clock),
}

/// A run-time value, as stored in environments: the tagged sum of nil,
/// booleans, numbers (held as IEEE binary64 bit patterns), strings, user
/// functions, and native functions.
///
/// A function value carries its name, parameter list, body, the scope it
/// was declared in (an index into the evaluator's scope arena — its
/// closure), and an identity stamp: two function values are equal exactly
/// when they came from the same evaluation of a declaration.
#[derive(Debug, Clone)]
pub enum EnvironmentValue {
    Nil,
    Bool(bool),
    Number(u64),
    Str(String),
    Function { name: String, params: Rc<Vec<String>>, body: Rc<Vec<Stmt>>, env: usize, id: u64 },
    Global(Global),
}

/// The ghost image of a function value.
pub struct SpecFun {
    pub name: Seq<char>,
    pub params: Seq<Seq<char>>,
    pub body: Seq<Stmt>,
    pub env: int,
    pub id: int,
}

/// The ghost image of a run-time value.
pub enum SpecVal {
    Nil,
    Bool(bool),
    Num(u64),
    Str(Seq<char>),
    Fun(SpecFun),
    Native,
}

impl View for EnvironmentValue {
    type V = SpecVal;

    open spec fn view(&self) -> SpecVal {
        match self {
            EnvironmentValue::Nil => SpecVal::Nil,
            EnvironmentValue::Bool(b) => SpecVal::Bool(*b),
            EnvironmentValue::Number(bits) => SpecVal::Num(*bits),
            EnvironmentValue::Str(s) => SpecVal::Str(s@),
            EnvironmentValue::Function { name, params, body, env, id } => SpecVal::Fun(
                SpecFun {
                    name: name@,
                    params: params.deep_view(),
                    body: body@,
                    env: *env as int,
                    id: *id as int,
                },
            ),
            EnvironmentValue::Global(_) => SpecVal::Native,
        }
    }
}

/// Truthiness: only `nil` and `false` are falsey.
pub open spec fn truthy(v: SpecVal) -> bool {
    !(v is Nil || v == SpecVal::Bool(false))
}

/// The language's `==`: identical tag and payload; cross-type comparisons
/// are false; numbers compare by IEEE equality; functions compare by
/// identity.
pub open spec fn vals_equal(a: SpecVal, b: SpecVal) -> bool {
    match (a, b) {
        (SpecVal::Nil, SpecVal::Nil) => true,
        (SpecVal::Bool(x), SpecVal::Bool(y)) => x == y,
        (SpecVal::Num(x), SpecVal::Num(y)) => eq_bits(x, y),
        (SpecVal::Str(x), SpecVal::Str(y)) => x == y,
        (SpecVal::Fun(f), SpecVal::Fun(g)) => f.id == g.id,
        (SpecVal::Native, SpecVal::Native) => true,
        _ => false,
    }
}

/// Truthiness law: only `nil` and `false` are falsey; every other value,
/// the number zero and the empty string included, is truthy.
pub proof fn lemma_truthiness(v: SpecVal)
    ensures
        truthy(v) <==> !(v == SpecVal::Nil || v == SpecVal::Bool(false)),
{
}

/// Relies on `std::rc::Rc::clone`: the returned pointer shares the same
/// allocation, so it holds the same statements.
#[verifier::external_body]
pub(crate) fn rc_stmts_clone(b: &Rc<Vec<Stmt>>) -> (r: Rc<Vec<Stmt>>)
    ensures
        r == *b,
{
    Rc::clone(b)
}

/// Relies on `std::rc::Rc::clone`: the returned pointer shares the same
/// allocation, so it holds the same names.
#[verifier::external_body]
pub(crate) fn rc_names_clone(b: &Rc<Vec<String>>) -> (r: Rc<Vec<String>>)
    ensures
        r == *b,
{
    Rc::clone(b)
}

impl EnvironmentValue {
    /// An exact copy; written out so that verified callers know the copy
    /// denotes the same value as the original.
    pub fn duplicate(&self) -> (r: EnvironmentValue)
        ensures
            r@ == self@,
    {
        match self {
            EnvironmentValue::Nil => EnvironmentValue::Nil,
            EnvironmentValue::Bool(b) => EnvironmentValue::Bool(*b),
            EnvironmentValue::Number(bits) => EnvironmentValue::Number(*bits),
            EnvironmentValue::Str(s) => EnvironmentValue::Str(s.clone()),
            EnvironmentValue::Function { name, params, body, env, id } => {
                EnvironmentValue::Function {
                    name: name.clone(),
                    params: rc_names_clone(params),
                    body: rc_stmts_clone(body),
                    env: *env,
                    id: *id,
                }
            },
            EnvironmentValue::Global(g) => EnvironmentValue::Global(
                match g {
                    Global::Clock(_) => Global::Clock(Clock {  }),
                },
            ),
        }
    }

    /// Truthiness of this value.
    pub fn is_truthy(&self) -> (r: bool)
        ensures
            r == truthy(self@),
    {
        match self {
            EnvironmentValue::Nil => false,
            EnvironmentValue::Bool(b) => *b,
            _ => true,
        }
    }

    /// Whether a call may have this value as its callee: user functions and
    /// natives only.
    pub fn is_lox_callable(&self) -> (r: bool)
        ensures
            r == (self@ is Fun || self@ is Native),
    {
        match self {
            EnvironmentValue::Function { .. } => true,
            EnvironmentValue::Global(_) => true,
            _ => false,
        }
    }

    /// The number of parameters this callee expects: the parameter count of
    /// a user function, zero for the clock and for non-callables.
    pub fn arity(&self) -> (n: usize)
        ensures
            self@ matches SpecVal::Fun(f) ==> n == f.params.len(),
            !(self@ is Fun) ==> n == 0,
    {
        match self {
            EnvironmentValue::Function { params, .. } => params.len(),
            _ => 0,
        }
    }

    /// The language's `==` on two values.
    pub fn equals(&self, other: &EnvironmentValue) -> (r: bool)
        ensures
            r == vals_equal(self@, other@),
    {
        match (self, other) {
            (EnvironmentValue::Nil, EnvironmentValue::Nil) => true,
            (EnvironmentValue::Bool(x), EnvironmentValue::Bool(y)) => *x == *y,
            (EnvironmentValue::Number(x), EnvironmentValue::Number(y)) => crate::numerics::num_eq(
                *x,
                *y,
            ),
            (EnvironmentValue::Str(x), EnvironmentValue::Str(y)) => x.eq(y),
            (EnvironmentValue::Function { id: a, .. }, EnvironmentValue::Function {
                id: b,
                ..
            }) => *a == *b,
            (EnvironmentValue::Global(_), EnvironmentValue::Global(_)) => true,
            _ => false,
        }
    }
}

} // verus!
