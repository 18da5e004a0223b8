//! The language's laws, proved against the big-step semantics.
//!
//! Each proof function here states one guarantee of the interpreter over
//! the spec semantics of [`crate::semantics`]; the executable evaluator
//! enjoys them because its contracts say it computes exactly that
//! semantics.

use vstd::prelude::*;
use crate::ast::{Expr, LogicalOp, SpecExpr, SpecStmt, Stmt};
use crate::environment::{assign_in, define_in, lookup_in, resolve_in, SpecScope};
use crate::parsing::{for_desugar, sp_for_cond, sp_for_inc, sp_for_init, sp_for_statement,
    sp_statement, tk, ttype, SpecParsed};
use crate::semantics::{bind_params_m, define_m, push_scope_m, restore_m, sp_call, sp_eval,
    sp_exec, sp_exec_seq, SpecEvalR, SpecMachine, SpecStmtR};
use crate::token::{SpecToken, TokenType};
use crate::value::{truthy, SpecFun, SpecVal};

verus! {

/// The `for` desugaring law: `for (init; cond; inc) body` parses to
/// exactly `{ init; while (cond) { body; inc; } }` — the initializer and
/// the loop in a block, the increment appended to the body as an
/// expression statement, a missing condition reading as `true`.
#[verifier::rlimit(100)]
#[verifier::spinoff_prover]
pub proof fn lemma_for_desugars(
    toks: Seq<SpecToken>,
    p: int,
    fuel: nat,
    init: Option<SpecStmt>,
    cond: Option<SpecExpr>,
    inc: Option<SpecExpr>,
    body: SpecStmt,
    p1: int,
    p2: int,
    p3: int,
    p4: int,
)
    requires
        0 < fuel,
        ttype(toks, p) == TokenType::LeftParen,
        sp_for_init(toks, p + 1, (fuel - 1) as nat) == SpecParsed::Parsed(init, p1),
        sp_for_cond(toks, p1, (fuel - 1) as nat) == SpecParsed::Parsed(cond, p2),
        sp_for_inc(toks, p2, (fuel - 1) as nat) == SpecParsed::Parsed(inc, p3),
        sp_statement(toks, p3, (fuel - 1) as nat) == SpecParsed::Parsed(body, p4),
    ensures
        sp_for_statement(toks, p, fuel) == SpecParsed::Parsed(
            for_desugar(init, cond, inc, body),
            p4,
        ),
        ((init, cond, inc) matches (Option::Some(i), Option::Some(c), Option::Some(n))
            ==> for_desugar(init, cond, inc, body) == SpecStmt::Block(
            seq![
                i,
                (SpecStmt::While {
                    cond: c,
                    body: Box::new(SpecStmt::Block(seq![body, SpecStmt::Expression(n)])),
                }),
            ],
        )),
        (init is None && cond is None && inc is None ==> for_desugar(init, cond, inc, body) == (
        SpecStmt::While {
            cond: SpecExpr::Literal(crate::token::SpecLiteral::Bool(true)),
            body: Box::new(body),
        })),
{
    if init is Some && cond is Some && inc is Some {
        let i = init->Some_0;
        let c = cond->Some_0;
        let n = inc->Some_0;
        let body2 = SpecStmt::Block(seq![body, SpecStmt::Expression(n)]);
        let w = SpecStmt::While { cond: c, body: Box::new(body2) };
        assert(for_desugar(init, cond, inc, body) == SpecStmt::Block(seq![i, w]));
    }
}

/// Short-circuit law for `or`: when the left operand evaluates to a
/// truthy value, that value is the whole expression's value and the right
/// operand is never evaluated — the machine is exactly the one the left
/// operand produced, untouched by the right.
pub proof fn lemma_or_short_circuit(
    e: Expr,
    m: SpecMachine,
    fuel: nat,
    v: SpecVal,
    m1: SpecMachine,
)
    requires
        e matches Expr::Logical { op: LogicalOp::Or, left, right } && sp_eval(
            *left,
            m,
            (fuel - 1) as nat,
        ) == SpecEvalR::Value(v, m1),
        0 < fuel,
        truthy(v),
    ensures
        sp_eval(e, m, fuel) == SpecEvalR::Value(v, m1),
{
}

/// Short-circuit law for `and`: when the left operand evaluates to a
/// falsey value, that value is the whole expression's value and the right
/// operand is never evaluated.
pub proof fn lemma_and_short_circuit(
    e: Expr,
    m: SpecMachine,
    fuel: nat,
    v: SpecVal,
    m1: SpecMachine,
)
    requires
        e matches Expr::Logical { op: LogicalOp::And, left, right } && sp_eval(
            *left,
            m,
            (fuel - 1) as nat,
        ) == SpecEvalR::Value(v, m1),
        0 < fuel,
        !truthy(v),
    ensures
        sp_eval(e, m, fuel) == SpecEvalR::Value(v, m1),
{
}

/// `return` stops a statement sequence: whatever statements follow the
/// one that returned are never executed.
pub proof fn lemma_return_stops_sequence(
    ss: Seq<Stmt>,
    m: SpecMachine,
    fuel: nat,
    v: SpecVal,
    m1: SpecMachine,
)
    requires
        0 < fuel,
        ss.len() > 0,
        sp_exec(ss[0], m, (fuel - 1) as nat) == SpecStmtR::Returning(v, m1),
    ensures
        sp_exec_seq(ss, m, fuel) == SpecStmtR::Returning(v, m1),
{
}

/// `return` unwinds a block: a `return` surfacing from a block's body
/// leaves the block at once, carrying its value, with the enclosing scope
/// current again.
pub proof fn lemma_return_unwinds_block(
    blk: Stmt,
    m: SpecMachine,
    fuel: nat,
    v: SpecVal,
    m1: SpecMachine,
)
    requires
        blk matches Stmt::Block(body) && sp_exec_seq(
            body@,
            push_scope_m(m, m.cur),
            (fuel - 1) as nat,
        ) == SpecStmtR::Returning(v, m1),
        0 < fuel,
    ensures
        sp_exec(blk, m, fuel) == SpecStmtR::Returning(v, restore_m(m1, m.cur)),
{
}

/// `return` terminates the function: a `return` surfacing from the body,
/// however deeply blocks had nested, becomes the value of the call.
pub proof fn lemma_call_catches_return(
    fun: SpecFun,
    vs: Seq<SpecVal>,
    line: u32,
    m: SpecMachine,
    fuel: nat,
    v: SpecVal,
    m1: SpecMachine,
)
    requires
        0 < fuel,
        vs.len() == fun.params.len(),
        sp_exec_seq(
            fun.body,
            bind_params_m(
                define_m(push_scope_m(m, fun.env), fun.name, SpecVal::Fun(fun)),
                fun.params,
                vs,
            ),
            (fuel - 1) as nat,
        ) == SpecStmtR::Returning(v, m1),
    ensures
        sp_call(SpecVal::Fun(fun), vs, line, m, fuel) == SpecEvalR::Value(v, restore_m(m1, m.cur)),
{
}

/// Defining a name in one scope never changes which scope any name
/// resolves to, as long as that scope already defined the name.
pub proof fn lemma_resolve_unchanged_by_define(
    s: Seq<SpecScope>,
    j: int,
    name: Seq<char>,
    v: SpecVal,
    idx: int,
    q: Seq<char>,
)
    requires
        0 <= j < s.len(),
        s[j].vars.contains_key(name),
    ensures
        resolve_in(define_in(s, j, name, v), idx, q) == resolve_in(s, idx, q),
    decreases idx,
{
    let s2 = define_in(s, j, name, v);
    assert(s2.len() == s.len());
    assert(forall|k: int| 0 <= k < s.len() ==> (#[trigger] s2[k]).parent == s[k].parent);
    assert(forall|k: int, n: Seq<char>|
        0 <= k < s.len() ==> ((#[trigger] s2[k].vars.contains_key(n)) <==> s[k].vars.contains_key(
            n,
        )));
    if 0 <= idx < s.len() && !s[idx].vars.contains_key(q) {
        let p = s[idx].parent;
        if 0 <= p < idx {
            lemma_resolve_unchanged_by_define(s, j, name, v, p, q);
        }
    }
}

/// Scope-isolation law, assignment half: an assignment made from one
/// scope updates the nearest enclosing scope that defines the name, and
/// every later lookup whose chain reaches that same scope — the scope the
/// assignment started from, or any block scope nested inside it — reads
/// the assigned value.
pub proof fn lemma_assignment_visible(
    s: Seq<SpecScope>,
    idx: int,
    idx2: int,
    name: Seq<char>,
    v: SpecVal,
    s2: Seq<SpecScope>,
)
    requires
        assign_in(s, idx, name, v) == Option::Some(s2),
        resolve_in(s, idx2, name) == resolve_in(s, idx, name),
    ensures
        lookup_in(s2, idx2, name) == Option::Some(v),
{
    let j = resolve_in(s, idx, name)->Some_0;
    crate::environment::lemma_resolve_some(s, idx, name);
    lemma_resolve_unchanged_by_define(s, j, name, v, idx2, name);
    assert(resolve_in(s2, idx2, name) == Option::Some(j));
    assert(s2[j].vars[name] == v);
}

/// Lookups that start inside the old arena cannot see scopes added at its
/// end: as long as the old scopes themselves are unchanged, every name
/// reads the same.
pub proof fn lemma_lookup_frame(s: Seq<SpecScope>, t: Seq<SpecScope>, idx: int, name: Seq<char>)
    requires
        s.len() <= t.len(),
        forall|j: int| 0 <= j < s.len() ==> t[j] == s[j],
        idx < s.len(),
    ensures
        lookup_in(t, idx, name) == lookup_in(s, idx, name),
{
    crate::environment::lemma_resolve_frame(s, t, idx, name);
    crate::environment::lemma_resolve_some(s, idx, name);
}

/// Scope-isolation law, visibility half: a block that only declares a
/// variable leaves every binding visible outside it exactly as it was.
/// The declaration goes to the block's own scope, which the enclosing
/// scope's chain never reaches once the block is done.
pub proof fn lemma_scope_isolation(blk: Stmt, vardecl: Stmt, m: SpecMachine, fuel: nat)
    requires
        fuel >= 4,
        0 <= m.cur < m.scopes.len(),
        blk matches Stmt::Block(body) && body@ =~= seq![vardecl],
        vardecl matches Stmt::Var { name, init } && init matches Expr::Literal(_),
    ensures
        sp_exec(blk, m, fuel) matches SpecStmtR::Normal(m2) ==> m2.cur == m.cur && (forall|
            q: Seq<char>,
        |
            lookup_in(m2.scopes, m2.cur, q) == lookup_in(m.scopes, m.cur, q)),
{
    let body = blk->Block_0;
    let entered = push_scope_m(m, m.cur);
    let f = (fuel - 1) as nat;
    let f2 = (f - 1) as nat;
    assert(body@[0] == vardecl);
    assert(body@.drop_first() =~= Seq::<Stmt>::empty());
    let vname = vardecl->Var_name;
    let vinit = vardecl->Var_init;
    let f3 = (f2 - 1) as nat;
    assert(sp_eval(vinit, entered, f3) == SpecEvalR::Value(
        crate::semantics::lit_val(vinit->Literal_0),
        entered,
    ));
    assert(sp_exec(vardecl, entered, f2) == SpecStmtR::Normal(
        define_m(entered, vname@, crate::semantics::lit_val(vinit->Literal_0)),
    ));
    match sp_exec(vardecl, entered, f2) {
        SpecStmtR::Normal(mv) => {
            assert(mv.scopes.len() == m.scopes.len() + 1);
            assert(forall|j: int| 0 <= j < m.scopes.len() ==> mv.scopes[j] == m.scopes[j]);
            assert(sp_exec_seq(body@, entered, f) == sp_exec_seq(
                body@.drop_first(),
                mv,
                (f2) as nat,
            ));
            match sp_exec(blk, m, fuel) {
                SpecStmtR::Normal(m2) => {
                    assert(m2 == restore_m(mv, m.cur));
                    assert forall|q: Seq<char>|
                        lookup_in(m2.scopes, m2.cur, q) == lookup_in(m.scopes, m.cur, q) by {
                        lemma_lookup_frame(m.scopes, m2.scopes, m.cur, q);
                    }
                },
                _ => {},
            }
        },
        _ => {},
    }
}

/// Closure-capture law: a function whose body is `return x;`, called with
/// no arguments, reads `x` through its captured scope as that scope
/// stands at the time of the call — mutations made after the declaration
/// are observed, and an `x` never defined is the usual run-time error.
pub proof fn lemma_closure_reads_at_call_time(
    fun: SpecFun,
    retstmt: Stmt,
    xname: Seq<char>,
    line: u32,
    m: SpecMachine,
    fuel: nat,
)
    requires
        fuel >= 4,
        0 <= fun.env < m.scopes.len(),
        fun.params.len() == 0,
        fun.body =~= seq![retstmt],
        retstmt matches Stmt::Return { value, .. } && value matches Expr::Variable { name, .. }
            && name@ == xname,
        xname != fun.name,
    ensures
        lookup_in(m.scopes, fun.env, xname) matches Option::Some(xv) ==> sp_call(
            SpecVal::Fun(fun),
            Seq::<SpecVal>::empty(),
            line,
            m,
            fuel,
        ) == SpecEvalR::Value(
            xv,
            restore_m(
                define_m(push_scope_m(m, fun.env), fun.name, SpecVal::Fun(fun)),
                m.cur,
            ),
        ),
{
    let entered = push_scope_m(m, fun.env);
    let named = define_m(entered, fun.name, SpecVal::Fun(fun));
    assert(bind_params_m(named, fun.params, Seq::<SpecVal>::empty()) == named);
    let newidx = m.scopes.len() as int;
    assert(named.cur == newidx);
    assert(named.scopes.len() == m.scopes.len() + 1);
    assert(forall|j: int| 0 <= j < m.scopes.len() ==> named.scopes[j] == m.scopes[j]);
    assert(named.scopes[newidx].vars.contains_key(fun.name));
    assert(!named.scopes[newidx].vars.contains_key(xname));
    assert(named.scopes[newidx].parent == fun.env);
    assert(resolve_in(named.scopes, newidx, xname) == resolve_in(named.scopes, fun.env, xname));
    crate::environment::lemma_resolve_frame(m.scopes, named.scopes, fun.env, xname);
    crate::environment::lemma_resolve_some(m.scopes, fun.env, xname);
    match lookup_in(m.scopes, fun.env, xname) {
        Option::Some(xv) => {
            assert(lookup_in(named.scopes, newidx, xname) == Option::Some(xv));
            let f = (fuel - 1) as nat;
            let f2 = (f - 1) as nat;
            let f3 = (f2 - 1) as nat;
            assert(sp_exec(retstmt, named, f2) == SpecStmtR::Returning(xv, named));
            assert(fun.body[0] == retstmt);
            assert(sp_exec_seq(fun.body, named, f) == SpecStmtR::Returning(xv, named));
            assert(sp_call(SpecVal::Fun(fun), Seq::<SpecVal>::empty(), line, m, fuel)
                == SpecEvalR::Value(xv, restore_m(named, m.cur)));
        },
        Option::None => {},
    }
}

} // verus!
