//! The tree-walking evaluator, proved equal to the big-step semantics.
//!
//! The evaluator owns the machine state: the scope arena, the current
//! scope, the values printed so far, the identity stamp for the next
//! function declaration, and the clock reading for this run.  Every entry
//! point takes fuel and reports exhaustion as an outcome of its own, and
//! its result is exactly what the corresponding spec function of
//! [`crate::semantics`] says.

use vstd::prelude::*;
use crate::ast::{Expr, Stmt, UnaryOp, BinaryOp, LogicalOp};
use crate::environment::{val_wf, Environment, SpecScope};
use crate::numerics::{clock_millis, num_add, num_div, num_from_u64, num_le, num_lt, num_mul,
    num_neg, num_sub, bits_of_u64, div_bits};
use crate::semantics::{bind_params_m, bump_id, define_m, lit_val, output_m, push_scope_m,
    restore_m, sp_binary, sp_call, sp_eval, sp_eval_args, sp_exec, sp_exec_seq, sp_unary,
    SpecArgsR, SpecEvalR, SpecMachine, SpecRtErr, SpecStmtR};
use crate::token::Literal;
use crate::value::{rc_names_clone, rc_stmts_clone, truthy, Clock, EnvironmentValue, Global,
    SpecVal};

verus! {

/// A run-time error.  Each carries the 1-based line of the construct that
/// failed.
#[derive(Debug)]
pub enum RuntimeError {
    UndefinedVariable { name: String, line: u32 },
    UnaryOperandMustBeNumber { line: u32 },
    OperandsMustBeNumbers { line: u32 },
    OperandsMustBeNumbersOrStrings { line: u32 },
    NotCallable { line: u32 },
    ArityMismatch { expected: usize, got: usize, line: u32 },
}

impl View for RuntimeError {
    type V = SpecRtErr;

    open spec fn view(&self) -> SpecRtErr {
        match self {
            RuntimeError::UndefinedVariable { name, line } => SpecRtErr::UndefinedVariable {
                name: name@,
                line: *line,
            },
            RuntimeError::UnaryOperandMustBeNumber { line } => SpecRtErr::UnaryOperandMustBeNumber {
                line: *line,
            },
            RuntimeError::OperandsMustBeNumbers { line } => SpecRtErr::OperandsMustBeNumbers {
                line: *line,
            },
            RuntimeError::OperandsMustBeNumbersOrStrings { line } => SpecRtErr::OperandsMustBeNumbersOrStrings {
                line: *line,
            },
            RuntimeError::NotCallable { line } => SpecRtErr::NotCallable { line: *line },
            RuntimeError::ArityMismatch { expected, got, line } => SpecRtErr::ArityMismatch {
                expected: *expected as int,
                got: *got as int,
                line: *line,
            },
        }
    }
}

/// The character a decimal digit prints as.
pub open spec fn digit_char(d: int) -> char {
    if d == 0 {
        '0'
    } else if d == 1 {
        '1'
    } else if d == 2 {
        '2'
    } else if d == 3 {
        '3'
    } else if d == 4 {
        '4'
    } else if d == 5 {
        '5'
    } else if d == 6 {
        '6'
    } else if d == 7 {
        '7'
    } else if d == 8 {
        '8'
    } else {
        '9'
    }
}

/// The decimal rendering of a number.
pub open spec fn dec_str(n: int) -> Seq<char>
    decreases n,
{
    if n < 10 {
        seq![digit_char(n)]
    } else {
        dec_str(n / 10).push(digit_char(n % 10))
    }
}

/// The diagnostic text a run-time error prints.
pub open spec fn spec_message(e: SpecRtErr) -> Seq<char> {
    match e {
        SpecRtErr::UndefinedVariable { name, .. } => "Undefined variable '"@ + name + "'."@,
        SpecRtErr::UnaryOperandMustBeNumber { .. } => "Operand must be a number."@,
        SpecRtErr::OperandsMustBeNumbers { .. } => "Operands must be numbers."@,
        SpecRtErr::OperandsMustBeNumbersOrStrings { .. } => "Operands must be two numbers or two strings."@,
        SpecRtErr::NotCallable { .. } => "Can only call functions and classes."@,
        SpecRtErr::ArityMismatch { expected, got, .. } => "Expected "@ + dec_str(expected)
            + " arguments but got "@ + dec_str(got) + "."@,
    }
}

/// Append the decimal digits of `n`.
fn push_dec(n: u64, v: &mut Vec<char>)
    ensures
        final(v)@ == old(v)@ + dec_str(n as int),
    decreases n,
{
    if n >= 10 {
        push_dec(n / 10, v);
    }
    let d = n % 10;
    let c = if d == 0 {
        '0'
    } else if d == 1 {
        '1'
    } else if d == 2 {
        '2'
    } else if d == 3 {
        '3'
    } else if d == 4 {
        '4'
    } else if d == 5 {
        '5'
    } else if d == 6 {
        '6'
    } else if d == 7 {
        '7'
    } else if d == 8 {
        '8'
    } else {
        '9'
    };
    v.push(c);
    proof {
        assert(v@ =~= old(v)@ + dec_str(n as int));
    }
}

impl RuntimeError {
    /// The line this error reports.
    pub fn line(&self) -> (line: u32)
        ensures
            line == (match self@ {
                SpecRtErr::UndefinedVariable { line, .. } => line,
                SpecRtErr::UnaryOperandMustBeNumber { line } => line,
                SpecRtErr::OperandsMustBeNumbers { line } => line,
                SpecRtErr::OperandsMustBeNumbersOrStrings { line } => line,
                SpecRtErr::NotCallable { line } => line,
                SpecRtErr::ArityMismatch { line, .. } => line,
            }),
    {
        match self {
            RuntimeError::UndefinedVariable { line, .. } => *line,
            RuntimeError::UnaryOperandMustBeNumber { line } => *line,
            RuntimeError::OperandsMustBeNumbers { line } => *line,
            RuntimeError::OperandsMustBeNumbersOrStrings { line } => *line,
            RuntimeError::NotCallable { line } => *line,
            RuntimeError::ArityMismatch { line, .. } => *line,
        }
    }

    /// The diagnostic text of this error, exactly as the runtime reports
    /// it.
    pub fn message(&self) -> (s: String)
        ensures
            s@ == spec_message(self@),
    {
        match self {
            RuntimeError::UndefinedVariable { name, .. } => {
                let mut s = String::from_str("Undefined variable '");
                s.append(name.as_str());
                s.append("'.");
                s
            },
            RuntimeError::UnaryOperandMustBeNumber { .. } => String::from_str(
                "Operand must be a number.",
            ),
            RuntimeError::OperandsMustBeNumbers { .. } => String::from_str(
                "Operands must be numbers.",
            ),
            RuntimeError::OperandsMustBeNumbersOrStrings { .. } => String::from_str(
                "Operands must be two numbers or two strings.",
            ),
            RuntimeError::NotCallable { .. } => String::from_str(
                "Can only call functions and classes.",
            ),
            RuntimeError::ArityMismatch { expected, got, .. } => {
                let mut s = String::from_str("Expected ");
                let mut v: Vec<char> = Vec::new();
                push_dec(*expected as u64, &mut v);
                s.append(crate::token::chars_to_string(&v).as_str());
                s.append(" arguments but got ");
                let mut v2: Vec<char> = Vec::new();
                push_dec(*got as u64, &mut v2);
                s.append(crate::token::chars_to_string(&v2).as_str());
                s.append(".");
                s
            },
        }
    }
}

/// What evaluating an expression produced: a value, a fatal run-time
/// error, or fuel exhaustion.
#[derive(Debug)]
pub enum EvaluatorReturn {
    Value(EnvironmentValue),
    Fault(RuntimeError),
    Exhausted,
}

/// What executing a statement produced: normal completion, an unwinding
/// `return` with its payload, a fatal error, or fuel exhaustion.
#[derive(Debug)]
pub enum StmtOutcome {
    Completed,
    Returning(EnvironmentValue),
    Fault(RuntimeError),
    Exhausted,
}

/// What evaluating an argument list produced.
#[derive(Debug)]
pub enum ArgsOutcome {
    Values(Vec<EnvironmentValue>),
    Fault(RuntimeError),
    Exhausted,
}

/// The values a list of run-time values denotes.
pub open spec fn vals_view(vs: Seq<EnvironmentValue>) -> Seq<SpecVal> {
    vs.map_values(|v: EnvironmentValue| v@)
}

/// All values of a list are well formed for an arena of `n` scopes.
pub open spec fn vals_wf(vs: Seq<SpecVal>, n: int) -> bool {
    forall|i: int| 0 <= i < vs.len() ==> val_wf(#[trigger] vs[i], n)
}

/// The evaluator: the machine state of a program run.
#[derive(Debug)]
pub struct Evaluator {
    /// The scope arena.
    pub env: Environment,
    /// The index of the current scope.
    pub cur: usize,
    /// The values printed so far, oldest first.
    pub outputs: Vec<EnvironmentValue>,
    /// The identity stamp the next function declaration receives.
    pub next_id: u64,
    /// The clock reading for this run (IEEE binary64 bits of seconds).
    pub clock_bits: u64,
}

impl View for Evaluator {
    type V = SpecMachine;

    open spec fn view(&self) -> SpecMachine {
        SpecMachine {
            scopes: self.env@,
            cur: self.cur as int,
            out: vals_view(self.outputs@),
            next_id: self.next_id as int,
            now: self.clock_bits,
        }
    }
}

impl Evaluator {
    /// The machine invariant: the arena is well formed and the current
    /// scope exists.
    pub open spec fn wf(&self) -> bool {
        self.env.wf() && (self.cur as int) < self.env@.len()
    }

    /// A fresh evaluator: one empty global scope, nothing printed.
    pub fn new() -> (r: Evaluator)
        ensures
            r.wf(),
            r@.scopes.len() == 1,
            r@.scopes[0].vars =~= Map::<Seq<char>, SpecVal>::empty(),
            r@.scopes[0].parent == -1,
            r@.cur == 0,
            r@.out =~= Seq::<SpecVal>::empty(),
            r@.next_id == 0,
            r@.now == 0,
    {
        let r = Evaluator {
            env: Environment::new(),
            cur: 0,
            outputs: Vec::new(),
            next_id: 0,
            clock_bits: 0,
        };
        proof {
            assert(r@.out =~= Seq::<SpecVal>::empty());
        }
        r
    }

    /// Predefine the native `clock` in the current scope.
    pub fn define_clock(&mut self)
        requires
            old(self).wf(),
        ensures
            final(self).wf(),
            final(self)@ == define_m(old(self)@, "clock"@, SpecVal::Native),
    {
        let name = String::from_str("clock");
        self.env.define(self.cur, &name, EnvironmentValue::Global(Global::Clock(Clock::new())));
        proof {
            assert(final(self)@ =~~= define_m(old(self)@, "clock"@, SpecVal::Native));
        }
    }

    /// Read the wall clock once and fix it as this run's `clock` result:
    /// milliseconds since the epoch, divided by a thousand in binary64.
    pub fn prime_clock(&mut self)
        requires
            old(self).wf(),
        ensures
            final(self).wf(),
            final(self)@.scopes == old(self)@.scopes,
            final(self)@.cur == old(self)@.cur,
            final(self)@.out == old(self)@.out,
            final(self)@.next_id == old(self)@.next_id,
            exists|ms: u64|
                final(self)@.now == div_bits(bits_of_u64(ms), bits_of_u64(1000)),
    {
        let ms = clock_millis();
        let msb = num_from_u64(ms);
        let thousand = num_from_u64(1000);
        self.clock_bits = num_div(msb, thousand);
        proof {
            assert(final(self)@.now == div_bits(bits_of_u64(ms), bits_of_u64(1000)));
        }
    }

    /// Evaluate an expression against the current state.  The result and
    /// the new state are exactly those of the spec semantics.
    pub fn evaluate(&mut self, e: &Expr, fuel: u64) -> (r: EvaluatorReturn)
        requires
            old(self).wf(),
        ensures
            final(self).wf(),
            old(self)@.scopes.len() <= final(self)@.scopes.len(),
            match r {
                EvaluatorReturn::Value(v) => sp_eval(*e, old(self)@, fuel as nat)
                    == SpecEvalR::Value(v@, final(self)@) && val_wf(
                    v@,
                    final(self)@.scopes.len() as int,
                ),
                EvaluatorReturn::Fault(er) => sp_eval(*e, old(self)@, fuel as nat)
                    == SpecEvalR::Fault(er@, final(self)@),
                EvaluatorReturn::Exhausted => sp_eval(*e, old(self)@, fuel as nat)
                    == SpecEvalR::Exhausted(final(self)@),
            },
        decreases fuel,
    {
        let ghost m0 = self@;
        if fuel == 0 {
            return EvaluatorReturn::Exhausted;
        }
        let f = fuel - 1;
        match e {
            Expr::Literal(l) => EvaluatorReturn::Value(literal_value(l)),
            Expr::Grouping(inner) => self.evaluate(inner, f),
            Expr::Variable { name, line } => {
                match self.env.get(self.cur, name) {
                    Option::Some(v) => EvaluatorReturn::Value(v),
                    Option::None => EvaluatorReturn::Fault(
                        RuntimeError::UndefinedVariable { name: name.clone(), line: *line },
                    ),
                }
            },
            Expr::Assign { name, line, value } => {
                match self.evaluate(value, f) {
                    EvaluatorReturn::Value(v) => {
                        let stored = v.duplicate();
                        if self.env.assign(self.cur, name, stored) {
                            EvaluatorReturn::Value(v)
                        } else {
                            EvaluatorReturn::Fault(
                                RuntimeError::UndefinedVariable {
                                    name: name.clone(),
                                    line: *line,
                                },
                            )
                        }
                    },
                    other => other,
                }
            },
            Expr::Unary { op, line, operand } => {
                match self.evaluate(operand, f) {
                    EvaluatorReturn::Value(v) => {
                        match op {
                            UnaryOp::Neg => match v {
                                EnvironmentValue::Number(n) => EvaluatorReturn::Value(
                                    EnvironmentValue::Number(num_neg(n)),
                                ),
                                _ => EvaluatorReturn::Fault(
                                    RuntimeError::UnaryOperandMustBeNumber { line: *line },
                                ),
                            },
                            UnaryOp::Not => {
                                let t = v.is_truthy();
                                EvaluatorReturn::Value(EnvironmentValue::Bool(!t))
                            },
                        }
                    },
                    other => other,
                }
            },
            Expr::Binary { op, line, left, right } => {
                match self.evaluate(left, f) {
                    EvaluatorReturn::Value(a) => {
                        match self.evaluate(right, f) {
                            EvaluatorReturn::Value(b) => {
                                match apply_binary(*op, *line, a, b) {
                                    Result::Ok(r) => EvaluatorReturn::Value(r),
                                    Result::Err(er) => EvaluatorReturn::Fault(er),
                                }
                            },
                            other => other,
                        }
                    },
                    other => other,
                }
            },
            Expr::Logical { op, left, right } => {
                match self.evaluate(left, f) {
                    EvaluatorReturn::Value(a) => {
                        let t = a.is_truthy();
                        match op {
                            LogicalOp::Or => if t {
                                EvaluatorReturn::Value(a)
                            } else {
                                self.evaluate(right, f)
                            },
                            LogicalOp::And => if !t {
                                EvaluatorReturn::Value(a)
                            } else {
                                self.evaluate(right, f)
                            },
                        }
                    },
                    other => other,
                }
            },
            Expr::Call { callee, line, args } => {
                proof {
                    assert(args@.skip(0) =~= args@);
                }
                match self.evaluate(callee, f) {
                    EvaluatorReturn::Value(cv) => {
                        match self.eval_args(args, 0, f) {
                            ArgsOutcome::Values(vs) => self.call_function(cv, vs, *line, f),
                            ArgsOutcome::Fault(er) => EvaluatorReturn::Fault(er),
                            ArgsOutcome::Exhausted => EvaluatorReturn::Exhausted,
                        }
                    },
                    other => other,
                }
            },
        }
    }

    /// Evaluate the arguments from position `i` on, left to right.
    fn eval_args(&mut self, args: &Vec<Expr>, i: usize, fuel: u64) -> (r: ArgsOutcome)
        requires
            old(self).wf(),
            i <= args@.len(),
        ensures
            final(self).wf(),
            old(self)@.scopes.len() <= final(self)@.scopes.len(),
            match r {
                ArgsOutcome::Values(vs) => sp_eval_args(args@.skip(i as int), old(self)@, fuel as nat)
                    == SpecArgsR::Values(vals_view(vs@), final(self)@) && vals_wf(
                    vals_view(vs@),
                    final(self)@.scopes.len() as int,
                ),
                ArgsOutcome::Fault(er) => sp_eval_args(args@.skip(i as int), old(self)@, fuel as nat)
                    == SpecArgsR::Fault(er@, final(self)@),
                ArgsOutcome::Exhausted => sp_eval_args(args@.skip(i as int), old(self)@, fuel as nat)
                    == SpecArgsR::Exhausted(final(self)@),
            },
        decreases fuel,
    {
        let ghost rest = args@.skip(i as int);
        if fuel == 0 {
            return ArgsOutcome::Exhausted;
        }
        let f = fuel - 1;
        if i == args.len() {
            let out: Vec<EnvironmentValue> = Vec::new();
            proof {
                assert(rest.len() == 0);
                assert(vals_view(out@) =~= Seq::<SpecVal>::empty());
            }
            ArgsOutcome::Values(out)
        } else {
            proof {
                assert(rest[0] == args@[i as int]);
                assert(rest.drop_first() =~= args@.skip(i as int + 1));
            }
            match self.evaluate(&args[i], f) {
                EvaluatorReturn::Value(v) => {
                    match self.eval_args(args, i + 1, f) {
                        ArgsOutcome::Values(vs) => {
                            let ghost gv = v@;
                            let ghost gvs = vs@;
                            let mut out: Vec<EnvironmentValue> = Vec::new();
                            out.push(v);
                            let mut tail = vs;
                            out.append(&mut tail);
                            proof {
                                assert(out@ =~= seq![out@[0]] + gvs);
                                assert(vals_view(out@) =~= seq![gv] + vals_view(gvs));
                            }
                            ArgsOutcome::Values(out)
                        },
                        other => other,
                    }
                },
                EvaluatorReturn::Fault(er) => ArgsOutcome::Fault(er),
                EvaluatorReturn::Exhausted => ArgsOutcome::Exhausted,
            }
        }
    }
}

impl Evaluator {
    /// Call an already evaluated callee on already evaluated arguments.
    fn call_function(
        &mut self,
        cv: EnvironmentValue,
        args: Vec<EnvironmentValue>,
        line: u32,
        fuel: u64,
    ) -> (r: EvaluatorReturn)
        requires
            old(self).wf(),
            val_wf(cv@, old(self)@.scopes.len() as int),
            vals_wf(vals_view(args@), old(self)@.scopes.len() as int),
        ensures
            final(self).wf(),
            old(self)@.scopes.len() <= final(self)@.scopes.len(),
            match r {
                EvaluatorReturn::Value(v) => sp_call(
                    cv@,
                    vals_view(args@),
                    line,
                    old(self)@,
                    fuel as nat,
                ) == SpecEvalR::Value(v@, final(self)@) && val_wf(
                    v@,
                    final(self)@.scopes.len() as int,
                ),
                EvaluatorReturn::Fault(er) => sp_call(
                    cv@,
                    vals_view(args@),
                    line,
                    old(self)@,
                    fuel as nat,
                ) == SpecEvalR::Fault(er@, final(self)@),
                EvaluatorReturn::Exhausted => sp_call(
                    cv@,
                    vals_view(args@),
                    line,
                    old(self)@,
                    fuel as nat,
                ) == SpecEvalR::Exhausted(final(self)@),
            },
        decreases fuel,
    {
        let ghost m0 = self@;
        if fuel == 0 {
            return EvaluatorReturn::Exhausted;
        }
        let f = fuel - 1;
        match cv {
            EnvironmentValue::Function { name, params, body, env, id } => {
                if args.len() != params.len() {
                    return EvaluatorReturn::Fault(
                        RuntimeError::ArityMismatch {
                            expected: params.len(),
                            got: args.len(),
                            line,
                        },
                    );
                }
                let saved = self.cur;
                let idx = self.env.push_scope(env);
                self.cur = idx;
                proof {
                    assert(self@ =~~= push_scope_m(m0, env as int));
                }
                let ghost entered = self@;
                let selfv = EnvironmentValue::Function {
                    name: name.clone(),
                    params: rc_names_clone(&params),
                    body: rc_stmts_clone(&body),
                    env,
                    id,
                };
                self.env.define(self.cur, &name, selfv);
                proof {
                    assert(self@ =~~= define_m(entered, name@, cv@));
                }
                let ghost named = self@;
                let ghost pview = params.deep_view();
                let ghost aview = vals_view(args@);
                let n = params.len();
                proof {
                    assert(pview.len() == params@.len());
                    assert(forall|k: int|
                        0 <= k < params@.len() ==> pview[k] == (#[trigger] params@[k])@);
                    assert(pview.skip(0) =~= pview);
                    assert(aview.skip(0) =~= aview);
                }
                let mut i: usize = 0;
                while i < n
                    invariant
                        self.wf(),
                        i <= n,
                        n == pview.len(),
                        n == aview.len(),
                        n == args@.len(),
                        n == params@.len(),
                        forall|k: int| 0 <= k < n ==> aview[k] == (#[trigger] args@[k])@,
                        forall|k: int| 0 <= k < n ==> pview[k] == (#[trigger] params@[k])@,
                        named.scopes.len() <= self@.scopes.len(),
                        vals_wf(aview, named.scopes.len() as int),
                        bind_params_m(named, pview, aview) == bind_params_m(
                            self@,
                            pview.skip(i as int),
                            aview.skip(i as int),
                        ),
                    decreases n - i,
                {
                    proof {
                        assert(pview.skip(i as int)[0] == pview[i as int]);
                        assert(aview.skip(i as int)[0] == aview[i as int]);
                        assert(pview.skip(i as int).drop_first() =~= pview.skip(i as int + 1));
                        assert(aview.skip(i as int).drop_first() =~= aview.skip(i as int + 1));
                        assert(val_wf(aview[i as int], self@.scopes.len() as int));
                    }
                    let av = args[i].duplicate();
                    self.env.define(self.cur, &params[i], av);
                    i += 1;
                }
                proof {
                    assert(pview.skip(n as int) =~= Seq::<Seq<char>>::empty());
                    assert(aview.skip(n as int) =~= Seq::<SpecVal>::empty());
                    assert(self@ == bind_params_m(named, pview, aview));
                }
                let r = self.exec_stmts(&body, 0, f);
                let ghost mend = self@;
                self.cur = saved;
                proof {
                    assert(self@ =~~= restore_m(mend, m0.cur));
                    assert(body@.skip(0) =~= body@);
                }
                match r {
                    StmtOutcome::Completed => EvaluatorReturn::Value(EnvironmentValue::Nil),
                    StmtOutcome::Returning(v) => EvaluatorReturn::Value(v),
                    StmtOutcome::Fault(er) => EvaluatorReturn::Fault(er),
                    StmtOutcome::Exhausted => EvaluatorReturn::Exhausted,
                }
            },
            EnvironmentValue::Global(_) => {
                if args.len() != 0 {
                    return EvaluatorReturn::Fault(
                        RuntimeError::ArityMismatch { expected: 0, got: args.len(), line },
                    );
                }
                EvaluatorReturn::Value(EnvironmentValue::Number(self.clock_bits))
            },
            _ => EvaluatorReturn::Fault(RuntimeError::NotCallable { line }),
        }
    }

    /// Execute one statement against the current state.  The outcome and
    /// the new state are exactly those of the spec semantics.
    pub fn execute(&mut self, st: &Stmt, fuel: u64) -> (r: StmtOutcome)
        requires
            old(self).wf(),
        ensures
            final(self).wf(),
            old(self)@.scopes.len() <= final(self)@.scopes.len(),
            match r {
                StmtOutcome::Completed => sp_exec(*st, old(self)@, fuel as nat)
                    == SpecStmtR::Normal(final(self)@),
                StmtOutcome::Returning(v) => sp_exec(*st, old(self)@, fuel as nat)
                    == SpecStmtR::Returning(v@, final(self)@) && val_wf(
                    v@,
                    final(self)@.scopes.len() as int,
                ),
                StmtOutcome::Fault(er) => sp_exec(*st, old(self)@, fuel as nat)
                    == SpecStmtR::Fault(er@, final(self)@),
                StmtOutcome::Exhausted => sp_exec(*st, old(self)@, fuel as nat)
                    == SpecStmtR::Exhausted(final(self)@),
            },
        decreases fuel,
    {
        let ghost m0 = self@;
        if fuel == 0 {
            return StmtOutcome::Exhausted;
        }
        let f = fuel - 1;
        match st {
            Stmt::Expression(e) => {
                match self.evaluate(e, f) {
                    EvaluatorReturn::Value(_) => StmtOutcome::Completed,
                    EvaluatorReturn::Fault(er) => StmtOutcome::Fault(er),
                    EvaluatorReturn::Exhausted => StmtOutcome::Exhausted,
                }
            },
            Stmt::Print(e) => {
                match self.evaluate(e, f) {
                    EvaluatorReturn::Value(v) => {
                        let ghost m1 = self@;
                        let ghost gv = v@;
                        self.outputs.push(v);
                        proof {
                            assert(vals_view(self.outputs@) =~= m1.out.push(gv));
                            assert(self@ =~~= output_m(m1, gv));
                        }
                        StmtOutcome::Completed
                    },
                    EvaluatorReturn::Fault(er) => StmtOutcome::Fault(er),
                    EvaluatorReturn::Exhausted => StmtOutcome::Exhausted,
                }
            },
            Stmt::Var { name, init } => {
                match self.evaluate(init, f) {
                    EvaluatorReturn::Value(v) => {
                        let ghost m1 = self@;
                        let ghost gv = v@;
                        self.env.define(self.cur, name, v);
                        proof {
                            assert(self@ =~~= define_m(m1, name@, gv));
                        }
                        StmtOutcome::Completed
                    },
                    EvaluatorReturn::Fault(er) => StmtOutcome::Fault(er),
                    EvaluatorReturn::Exhausted => StmtOutcome::Exhausted,
                }
            },
            Stmt::Block(ss) => {
                let saved = self.cur;
                let idx = self.env.push_scope(saved);
                self.cur = idx;
                proof {
                    assert(self@ =~~= push_scope_m(m0, m0.cur));
                }
                let r = self.exec_stmts(ss, 0, f);
                let ghost mend = self@;
                self.cur = saved;
                proof {
                    assert(self@ =~~= restore_m(mend, m0.cur));
                    assert(ss@.skip(0) =~= ss@);
                }
                match r {
                    StmtOutcome::Completed => StmtOutcome::Completed,
                    StmtOutcome::Returning(v) => StmtOutcome::Returning(v),
                    StmtOutcome::Fault(er) => StmtOutcome::Fault(er),
                    StmtOutcome::Exhausted => StmtOutcome::Exhausted,
                }
            },
            Stmt::If { cond, then_branch, else_branch } => {
                match self.evaluate(cond, f) {
                    EvaluatorReturn::Value(c) => {
                        if c.is_truthy() {
                            self.execute(then_branch, f)
                        } else {
                            match else_branch {
                                Option::Some(eb) => self.execute(eb, f),
                                Option::None => StmtOutcome::Completed,
                            }
                        }
                    },
                    EvaluatorReturn::Fault(er) => StmtOutcome::Fault(er),
                    EvaluatorReturn::Exhausted => StmtOutcome::Exhausted,
                }
            },
            Stmt::While { cond, body } => {
                let mut fl = fuel;
                #[verifier::loop_isolation(false)]
                loop
                    invariant
                        self.wf(),
                        0 < fl <= fuel,
                        m0.scopes.len() <= self@.scopes.len(),
                        (*st == (Stmt::While { cond: *cond, body: *body })),
                        sp_exec(*st, m0, fuel as nat) == sp_exec(*st, self@, fl as nat),
                    decreases fl,
                {
                    let ghost mi = self@;
                    let fb = fl - 1;
                    match self.evaluate(cond, fb) {
                        EvaluatorReturn::Value(c) => {
                            if !c.is_truthy() {
                                proof {
                                    assert(sp_exec(*st, mi, fl as nat) == SpecStmtR::Normal(
                                        self@,
                                    ));
                                }
                                return StmtOutcome::Completed;
                            }
                            match self.execute(body, fb) {
                                StmtOutcome::Completed => {
                                    proof {
                                        assert(sp_exec(*st, mi, fl as nat) == sp_exec(
                                            *st,
                                            self@,
                                            fb as nat,
                                        ));
                                    }
                                    if fb == 0 {
                                        proof {
                                            assert(sp_exec(*st, self@, fb as nat)
                                                == SpecStmtR::Exhausted(self@));
                                        }
                                        return StmtOutcome::Exhausted;
                                    }
                                    fl = fb;
                                },
                                StmtOutcome::Returning(v) => {
                                    proof {
                                        assert(sp_exec(*st, mi, fl as nat) == SpecStmtR::Returning(
                                            v@,
                                            self@,
                                        ));
                                    }
                                    return StmtOutcome::Returning(v);
                                },
                                StmtOutcome::Fault(er) => {
                                    proof {
                                        assert(sp_exec(*st, mi, fl as nat) == SpecStmtR::Fault(
                                            er@,
                                            self@,
                                        ));
                                    }
                                    return StmtOutcome::Fault(er);
                                },
                                StmtOutcome::Exhausted => {
                                    proof {
                                        assert(sp_exec(*st, mi, fl as nat) == SpecStmtR::Exhausted(
                                            self@,
                                        ));
                                    }
                                    return StmtOutcome::Exhausted;
                                },
                            }
                        },
                        EvaluatorReturn::Fault(er) => {
                            proof {
                                assert(sp_exec(*st, mi, fl as nat) == SpecStmtR::Fault(
                                    er@,
                                    self@,
                                ));
                            }
                            return StmtOutcome::Fault(er);
                        },
                        EvaluatorReturn::Exhausted => {
                            proof {
                                assert(sp_exec(*st, mi, fl as nat) == SpecStmtR::Exhausted(
                                    self@,
                                ));
                            }
                            return StmtOutcome::Exhausted;
                        },
                    }
                }
            },
            Stmt::Function { name, params, body } => {
                let fv = EnvironmentValue::Function {
                    name: name.clone(),
                    params: rc_names_clone(params),
                    body: rc_stmts_clone(body),
                    env: self.cur,
                    id: self.next_id,
                };
                self.env.define(self.cur, name, fv);
                if self.next_id < u64::MAX {
                    self.next_id = self.next_id + 1;
                }
                proof {
                    assert(self@ =~~= (match sp_exec(*st, m0, fuel as nat) {
                        SpecStmtR::Normal(m1) => m1,
                        _ => self@,
                    }));
                }
                StmtOutcome::Completed
            },
            Stmt::Return { line: _, value } => {
                match self.evaluate(value, f) {
                    EvaluatorReturn::Value(v) => StmtOutcome::Returning(v),
                    EvaluatorReturn::Fault(er) => StmtOutcome::Fault(er),
                    EvaluatorReturn::Exhausted => StmtOutcome::Exhausted,
                }
            },
        }
    }

    /// Execute the statements from position `i` on, in order.
    pub fn exec_stmts(&mut self, stmts: &Vec<Stmt>, i: usize, fuel: u64) -> (r: StmtOutcome)
        requires
            old(self).wf(),
            i <= stmts@.len(),
        ensures
            final(self).wf(),
            old(self)@.scopes.len() <= final(self)@.scopes.len(),
            match r {
                StmtOutcome::Completed => sp_exec_seq(
                    stmts@.skip(i as int),
                    old(self)@,
                    fuel as nat,
                ) == SpecStmtR::Normal(final(self)@),
                StmtOutcome::Returning(v) => sp_exec_seq(
                    stmts@.skip(i as int),
                    old(self)@,
                    fuel as nat,
                ) == SpecStmtR::Returning(v@, final(self)@) && val_wf(
                    v@,
                    final(self)@.scopes.len() as int,
                ),
                StmtOutcome::Fault(er) => sp_exec_seq(stmts@.skip(i as int), old(self)@, fuel as nat)
                    == SpecStmtR::Fault(er@, final(self)@),
                StmtOutcome::Exhausted => sp_exec_seq(
                    stmts@.skip(i as int),
                    old(self)@,
                    fuel as nat,
                ) == SpecStmtR::Exhausted(final(self)@),
            },
        decreases fuel,
    {
        let ghost rest = stmts@.skip(i as int);
        if fuel == 0 {
            return StmtOutcome::Exhausted;
        }
        let f = fuel - 1;
        if i == stmts.len() {
            proof {
                assert(rest.len() == 0);
            }
            return StmtOutcome::Completed;
        }
        proof {
            assert(rest[0] == stmts@[i as int]);
            assert(rest.drop_first() =~= stmts@.skip(i as int + 1));
        }
        match self.execute(&stmts[i], f) {
            StmtOutcome::Completed => self.exec_stmts(stmts, i + 1, f),
            StmtOutcome::Returning(v) => StmtOutcome::Returning(v),
            StmtOutcome::Fault(er) => StmtOutcome::Fault(er),
            StmtOutcome::Exhausted => StmtOutcome::Exhausted,
        }
    }

    /// Execute a whole program: its statements in order, against the
    /// current state.
    pub fn run(&mut self, program: &Vec<Stmt>, fuel: u64) -> (r: StmtOutcome)
        requires
            old(self).wf(),
        ensures
            final(self).wf(),
            old(self)@.scopes.len() <= final(self)@.scopes.len(),
            match r {
                StmtOutcome::Completed => sp_exec_seq(program@, old(self)@, fuel as nat)
                    == SpecStmtR::Normal(final(self)@),
                StmtOutcome::Returning(v) => sp_exec_seq(program@, old(self)@, fuel as nat)
                    == SpecStmtR::Returning(v@, final(self)@),
                StmtOutcome::Fault(er) => sp_exec_seq(program@, old(self)@, fuel as nat)
                    == SpecStmtR::Fault(er@, final(self)@),
                StmtOutcome::Exhausted => sp_exec_seq(program@, old(self)@, fuel as nat)
                    == SpecStmtR::Exhausted(final(self)@),
            },
    {
        proof {
            assert(program@.skip(0) =~= program@);
        }
        self.exec_stmts(program, 0, fuel)
    }
}

/// The value a literal expression denotes.
fn literal_value(l: &Literal) -> (v: EnvironmentValue)
    ensures
        v@ == lit_val(*l),
        !(v@ is Fun),
{
    match l {
        Literal::String(s) => EnvironmentValue::Str(s.clone()),
        Literal::Number(bits, _) => EnvironmentValue::Number(*bits),
        Literal::Bool(b) => EnvironmentValue::Bool(*b),
        Literal::Null => EnvironmentValue::Nil,
        Literal::Nil => EnvironmentValue::Nil,
    }
}

/// Apply a binary operator to two evaluated operands.
fn apply_binary(op: BinaryOp, line: u32, a: EnvironmentValue, b: EnvironmentValue) -> (r: Result<
    EnvironmentValue,
    RuntimeError,
>)
    ensures
        match r {
            Result::Ok(v) => sp_binary(op, line, a@, b@) == Result::<SpecVal, SpecRtErr>::Ok(v@)
                && !(v@ is Fun),
            Result::Err(er) => sp_binary(op, line, a@, b@) == Result::<SpecVal, SpecRtErr>::Err(
                er@,
            ),
        },
{
    match op {
        BinaryOp::Add => match (a, b) {
            (EnvironmentValue::Number(x), EnvironmentValue::Number(y)) => Result::Ok(
                EnvironmentValue::Number(num_add(x, y)),
            ),
            (EnvironmentValue::Str(x), EnvironmentValue::Str(y)) => {
                let mut s = x;
                s.append(y.as_str());
                Result::Ok(EnvironmentValue::Str(s))
            },
            _ => Result::Err(RuntimeError::OperandsMustBeNumbersOrStrings { line }),
        },
        BinaryOp::Sub => match (a, b) {
            (EnvironmentValue::Number(x), EnvironmentValue::Number(y)) => Result::Ok(
                EnvironmentValue::Number(num_sub(x, y)),
            ),
            _ => Result::Err(RuntimeError::OperandsMustBeNumbers { line }),
        },
        BinaryOp::Mul => match (a, b) {
            (EnvironmentValue::Number(x), EnvironmentValue::Number(y)) => Result::Ok(
                EnvironmentValue::Number(num_mul(x, y)),
            ),
            _ => Result::Err(RuntimeError::OperandsMustBeNumbers { line }),
        },
        BinaryOp::Div => match (a, b) {
            (EnvironmentValue::Number(x), EnvironmentValue::Number(y)) => Result::Ok(
                EnvironmentValue::Number(num_div(x, y)),
            ),
            _ => Result::Err(RuntimeError::OperandsMustBeNumbers { line }),
        },
        BinaryOp::Greater => match (a, b) {
            (EnvironmentValue::Number(x), EnvironmentValue::Number(y)) => Result::Ok(
                EnvironmentValue::Bool(num_lt(y, x)),
            ),
            _ => Result::Err(RuntimeError::OperandsMustBeNumbers { line }),
        },
        BinaryOp::GreaterEqual => match (a, b) {
            (EnvironmentValue::Number(x), EnvironmentValue::Number(y)) => Result::Ok(
                EnvironmentValue::Bool(num_le(y, x)),
            ),
            _ => Result::Err(RuntimeError::OperandsMustBeNumbers { line }),
        },
        BinaryOp::Less => match (a, b) {
            (EnvironmentValue::Number(x), EnvironmentValue::Number(y)) => Result::Ok(
                EnvironmentValue::Bool(num_lt(x, y)),
            ),
            _ => Result::Err(RuntimeError::OperandsMustBeNumbers { line }),
        },
        BinaryOp::LessEqual => match (a, b) {
            (EnvironmentValue::Number(x), EnvironmentValue::Number(y)) => Result::Ok(
                EnvironmentValue::Bool(num_le(x, y)),
            ),
            _ => Result::Err(RuntimeError::OperandsMustBeNumbers { line }),
        },
        BinaryOp::EqualEqual => {
            let eq = a.equals(&b);
            Result::Ok(EnvironmentValue::Bool(eq))
        },
        BinaryOp::NotEqual => {
            let eq = a.equals(&b);
            Result::Ok(EnvironmentValue::Bool(!eq))
        },
    }
}

} // verus!
