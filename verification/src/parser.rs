//! The recursive-descent parser, proved equal to the grammar's spec
//! functions in [`crate::parsing`].
//!
//! Every parsing method takes fuel and consumes one unit per recursion or
//! loop iteration, exactly as the spec functions do, and reports
//! exhaustion as an outcome of its own.

use vstd::prelude::*;
use crate::ast::{deep_expr, deep_exprs, deep_stmt, deep_stmts, BinaryOp, Expr, Stmt, UnaryOp};
use crate::parsing::{comparison_op, equality_op, factor_op, sp_arguments, sp_args_tail,
    sp_assignment, sp_block_stmts, sp_call_expr, sp_call_tail, sp_comparison, sp_comparison_tail,
    sp_declaration, sp_equality, sp_equality_tail, sp_expression, sp_factor, sp_factor_tail,
    sp_for_cond, sp_for_inc, sp_for_init, sp_for_statement, sp_function_decl, sp_if_statement,
    sp_logic_and, sp_logic_or, sp_and_tail, sp_or_tail, sp_parameters, sp_params_tail, sp_primary,
    sp_program, sp_return_statement, sp_statement, sp_term, sp_term_tail, sp_unary,
    sp_var_declaration, sp_while_statement, term_op, tk, ttype, ParseError, SpecParsed};
use crate::token::{Literal, SpecToken, Token, TokenType};

verus! {

/// What a parsing method produced: a result, a fatal parse error, or
/// fuel exhaustion.
#[derive(Debug)]
pub enum ParseOutcome<T> {
    Done(T),
    Failed(ParseError),
    Exhausted,
}

/// The parser: the token list and a cursor into it; `parse` collects the
/// program's statements into `statements`.
#[derive(Debug)]
pub struct Parser {
    pub tokens: Vec<Token>,
    pub statements: Vec<Stmt>,
    pub current: usize,
}

impl Parser {
    /// The tokens, as the spec parser sees them.
    pub open spec fn tv(&self) -> Seq<SpecToken> {
        self.tokens@.map_values(|t: Token| t@)
    }

    /// The cursor never passes the end of the token list.
    pub open spec fn wf(&self) -> bool {
        (self.current as int) <= self.tokens@.len()
    }

    pub fn new(tokens: Vec<Token>) -> (r: Parser)
        ensures
            r.wf(),
            r.tokens == tokens,
            r.current == 0,
            r.statements@.len() == 0,
    {
        Parser { tokens, statements: Vec::new(), current: 0 }
    }

    /// The kind of the token under the cursor; the end of the list reads
    /// as the end marker.
    fn peek_type(&self) -> (tt: TokenType)
        requires
            self.wf(),
        ensures
            tt == ttype(self.tv(), self.current as int),
    {
        if self.current < self.tokens.len() {
            self.tokens[self.current].token_type
        } else {
            TokenType::Eof
        }
    }

    /// The line of the token under the cursor.
    fn peek_line(&self) -> (line: u32)
        requires
            self.wf(),
        ensures
            line == tk(self.tv(), self.current as int).line,
    {
        if self.current < self.tokens.len() {
            self.tokens[self.current].line
        } else {
            1
        }
    }

    /// Step over the token under the cursor, which must not be the end
    /// marker.
    fn bump(&mut self)
        requires
            old(self).wf(),
            ttype(old(self).tv(), old(self).current as int) != TokenType::Eof,
        ensures
            final(self).wf(),
            final(self).tokens == old(self).tokens,
            final(self).statements == old(self).statements,
            final(self).current == old(self).current + 1,
    {
        proof {
            assert(self.current < self.tokens@.len());
        }
        let _n = self.tokens.len();
        self.current = self.current + 1;
    }

    /// expression := assignment
    pub fn expression(&mut self, fuel: u64) -> (r: ParseOutcome<Expr>)
        requires
            old(self).wf(),
        ensures
            final(self).wf(),
            final(self).tokens == old(self).tokens,
            final(self).statements == old(self).statements,
            match r {
                ParseOutcome::Done(e) => sp_expression(
                    old(self).tv(),
                    old(self).current as int,
                    fuel as nat,
                ) == SpecParsed::Parsed(deep_expr(e), final(self).current as int),
                ParseOutcome::Failed(pe) => sp_expression(
                    old(self).tv(),
                    old(self).current as int,
                    fuel as nat,
                ) == SpecParsed::<crate::ast::SpecExpr>::Fail(pe),
                ParseOutcome::Exhausted => sp_expression(
                    old(self).tv(),
                    old(self).current as int,
                    fuel as nat,
                ) == SpecParsed::<crate::ast::SpecExpr>::Out,
            },
        decreases fuel,
    {
        if fuel == 0 {
            return ParseOutcome::Exhausted;
        }
        self.assignment(fuel - 1)
    }

    /// assignment := IDENT "=" assignment | logicOr
    #[verifier::rlimit(100)]
    #[verifier::spinoff_prover]
    fn assignment(&mut self, fuel: u64) -> (r: ParseOutcome<Expr>)
        requires
            old(self).wf(),
        ensures
            final(self).wf(),
            final(self).tokens == old(self).tokens,
            final(self).statements == old(self).statements,
            match r {
                ParseOutcome::Done(e) => sp_assignment(
                    old(self).tv(),
                    old(self).current as int,
                    fuel as nat,
                ) == SpecParsed::Parsed(deep_expr(e), final(self).current as int),
                ParseOutcome::Failed(pe) => sp_assignment(
                    old(self).tv(),
                    old(self).current as int,
                    fuel as nat,
                ) == SpecParsed::<crate::ast::SpecExpr>::Fail(pe),
                ParseOutcome::Exhausted => sp_assignment(
                    old(self).tv(),
                    old(self).current as int,
                    fuel as nat,
                ) == SpecParsed::<crate::ast::SpecExpr>::Out,
            },
        decreases fuel,
    {
        if fuel == 0 {
            return ParseOutcome::Exhausted;
        }
        let f = fuel - 1;
        let e = match self.logic_or(f) {
            ParseOutcome::Done(e) => e,
            ParseOutcome::Failed(pe) => {
                return ParseOutcome::Failed(pe);
            },
            ParseOutcome::Exhausted => {
                return ParseOutcome::Exhausted;
            },
        };
        if self.peek_type() == TokenType::Equal {
            let eqline = self.peek_line();
            self.bump();
            match self.assignment(f) {
                ParseOutcome::Done(v) => {
                    match e {
                        Expr::Variable { name, line } => ParseOutcome::Done(
                            Expr::Assign { name, line, value: Box::new(v) },
                        ),
                        _ => ParseOutcome::Failed(
                            ParseError::InvalidAssignmentTarget { line: eqline },
                        ),
                    }
                },
                other => other,
            }
        } else {
            ParseOutcome::Done(e)
        }
    }

    /// logicOr := logicAnd ("or" logicAnd)*
    #[verifier::rlimit(100)]
    #[verifier::spinoff_prover]
    fn logic_or(&mut self, fuel: u64) -> (r: ParseOutcome<Expr>)
        requires
            old(self).wf(),
        ensures
            final(self).wf(),
            final(self).tokens == old(self).tokens,
            final(self).statements == old(self).statements,
            match r {
                ParseOutcome::Done(e) => sp_logic_or(
                    old(self).tv(),
                    old(self).current as int,
                    fuel as nat,
                ) == SpecParsed::Parsed(deep_expr(e), final(self).current as int),
                ParseOutcome::Failed(pe) => sp_logic_or(
                    old(self).tv(),
                    old(self).current as int,
                    fuel as nat,
                ) == SpecParsed::<crate::ast::SpecExpr>::Fail(pe),
                ParseOutcome::Exhausted => sp_logic_or(
                    old(self).tv(),
                    old(self).current as int,
                    fuel as nat,
                ) == SpecParsed::<crate::ast::SpecExpr>::Out,
            },
        decreases fuel,
    {
        if fuel == 0 {
            return ParseOutcome::Exhausted;
        }
        let f = fuel - 1;
        let mut e = match self.logic_and(f) {
            ParseOutcome::Done(e) => e,
            ParseOutcome::Failed(pe) => {
                return ParseOutcome::Failed(pe);
            },
            ParseOutcome::Exhausted => {
                return ParseOutcome::Exhausted;
            },
        };
        let mut fl = f;
        #[verifier::loop_isolation(false)]
        loop
            invariant
                self.wf(),
                fl <= f,
                self.tokens == old(self).tokens,
                self.statements == old(self).statements,
                sp_logic_or(old(self).tv(), old(self).current as int, fuel as nat) == sp_or_tail(
                    deep_expr(e),
                    self.tv(),
                    self.current as int,
                    fl as nat,
                ),
            decreases fl,
        {
            if fl == 0 {
                return ParseOutcome::Exhausted;
            }
            let fb = fl - 1;
            if self.peek_type() == TokenType::Or {
                self.bump();
                match self.logic_and(fb) {
                    ParseOutcome::Done(rhs) => {
                        e = Expr::Logical {
                            op: crate::ast::LogicalOp::Or,
                            left: Box::new(e),
                            right: Box::new(rhs),
                        };
                        fl = fb;
                    },
                    ParseOutcome::Failed(pe) => {
                        return ParseOutcome::Failed(pe);
                    },
                    ParseOutcome::Exhausted => {
                        return ParseOutcome::Exhausted;
                    },
                }
            } else {
                return ParseOutcome::Done(e);
            }
        }
    }

    /// logicAnd := equality ("and" equality)*
    #[verifier::rlimit(100)]
    #[verifier::spinoff_prover]
    fn logic_and(&mut self, fuel: u64) -> (r: ParseOutcome<Expr>)
        requires
            old(self).wf(),
        ensures
            final(self).wf(),
            final(self).tokens == old(self).tokens,
            final(self).statements == old(self).statements,
            match r {
                ParseOutcome::Done(e) => sp_logic_and(
                    old(self).tv(),
                    old(self).current as int,
                    fuel as nat,
                ) == SpecParsed::Parsed(deep_expr(e), final(self).current as int),
                ParseOutcome::Failed(pe) => sp_logic_and(
                    old(self).tv(),
                    old(self).current as int,
                    fuel as nat,
                ) == SpecParsed::<crate::ast::SpecExpr>::Fail(pe),
                ParseOutcome::Exhausted => sp_logic_and(
                    old(self).tv(),
                    old(self).current as int,
                    fuel as nat,
                ) == SpecParsed::<crate::ast::SpecExpr>::Out,
            },
        decreases fuel,
    {
        if fuel == 0 {
            return ParseOutcome::Exhausted;
        }
        let f = fuel - 1;
        let mut e = match self.equality(f) {
            ParseOutcome::Done(e) => e,
            ParseOutcome::Failed(pe) => {
                return ParseOutcome::Failed(pe);
            },
            ParseOutcome::Exhausted => {
                return ParseOutcome::Exhausted;
            },
        };
        let mut fl = f;
        #[verifier::loop_isolation(false)]
        loop
            invariant
                self.wf(),
                fl <= f,
                self.tokens == old(self).tokens,
                self.statements == old(self).statements,
                sp_logic_and(old(self).tv(), old(self).current as int, fuel as nat) == sp_and_tail(
                    deep_expr(e),
                    self.tv(),
                    self.current as int,
                    fl as nat,
                ),
            decreases fl,
        {
            if fl == 0 {
                return ParseOutcome::Exhausted;
            }
            let fb = fl - 1;
            if self.peek_type() == TokenType::And {
                self.bump();
                match self.equality(fb) {
                    ParseOutcome::Done(rhs) => {
                        e = Expr::Logical {
                            op: crate::ast::LogicalOp::And,
                            left: Box::new(e),
                            right: Box::new(rhs),
                        };
                        fl = fb;
                    },
                    ParseOutcome::Failed(pe) => {
                        return ParseOutcome::Failed(pe);
                    },
                    ParseOutcome::Exhausted => {
                        return ParseOutcome::Exhausted;
                    },
                }
            } else {
                return ParseOutcome::Done(e);
            }
        }
    }

    /// equality := comparison (("!=" | "==") comparison)*
    #[verifier::rlimit(100)]
    #[verifier::spinoff_prover]
    fn equality(&mut self, fuel: u64) -> (r: ParseOutcome<Expr>)
        requires
            old(self).wf(),
        ensures
            final(self).wf(),
            final(self).tokens == old(self).tokens,
            final(self).statements == old(self).statements,
            match r {
                ParseOutcome::Done(e) => sp_equality(
                    old(self).tv(),
                    old(self).current as int,
                    fuel as nat,
                ) == SpecParsed::Parsed(deep_expr(e), final(self).current as int),
                ParseOutcome::Failed(pe) => sp_equality(
                    old(self).tv(),
                    old(self).current as int,
                    fuel as nat,
                ) == SpecParsed::<crate::ast::SpecExpr>::Fail(pe),
                ParseOutcome::Exhausted => sp_equality(
                    old(self).tv(),
                    old(self).current as int,
                    fuel as nat,
                ) == SpecParsed::<crate::ast::SpecExpr>::Out,
            },
        decreases fuel,
    {
        if fuel == 0 {
            return ParseOutcome::Exhausted;
        }
        let f = fuel - 1;
        let mut e = match self.comparison(f) {
            ParseOutcome::Done(e) => e,
            ParseOutcome::Failed(pe) => {
                return ParseOutcome::Failed(pe);
            },
            ParseOutcome::Exhausted => {
                return ParseOutcome::Exhausted;
            },
        };
        let mut fl = f;
        #[verifier::loop_isolation(false)]
        loop
            invariant
                self.wf(),
                fl <= f,
                self.tokens == old(self).tokens,
                self.statements == old(self).statements,
                sp_equality(old(self).tv(), old(self).current as int, fuel as nat)
                    == sp_equality_tail(deep_expr(e), self.tv(), self.current as int, fl as nat),
            decreases fl,
        {
            if fl == 0 {
                return ParseOutcome::Exhausted;
            }
            let fb = fl - 1;
            let tt = self.peek_type();
            if tt == TokenType::BangEqual || tt == TokenType::EqualEqual {
                let op = if tt == TokenType::BangEqual {
                    BinaryOp::NotEqual
                } else {
                    BinaryOp::EqualEqual
                };
                proof {
                    assert(equality_op(tt) == Option::Some(op));
                }
                let opline = self.peek_line();
                self.bump();
                match self.comparison(fb) {
                    ParseOutcome::Done(rhs) => {
                        e = Expr::Binary { op, line: opline, left: Box::new(e), right: Box::new(rhs) };
                        fl = fb;
                    },
                    ParseOutcome::Failed(pe) => {
                        return ParseOutcome::Failed(pe);
                    },
                    ParseOutcome::Exhausted => {
                        return ParseOutcome::Exhausted;
                    },
                }
            } else {
                proof {
                    assert(equality_op(tt) == Option::<BinaryOp>::None);
                }
                return ParseOutcome::Done(e);
            }
        }
    }

    /// comparison := term ((">" | ">=" | "<" | "<=") term)*
    #[verifier::rlimit(100)]
    #[verifier::spinoff_prover]
    fn comparison(&mut self, fuel: u64) -> (r: ParseOutcome<Expr>)
        requires
            old(self).wf(),
        ensures
            final(self).wf(),
            final(self).tokens == old(self).tokens,
            final(self).statements == old(self).statements,
            match r {
                ParseOutcome::Done(e) => sp_comparison(
                    old(self).tv(),
                    old(self).current as int,
                    fuel as nat,
                ) == SpecParsed::Parsed(deep_expr(e), final(self).current as int),
                ParseOutcome::Failed(pe) => sp_comparison(
                    old(self).tv(),
                    old(self).current as int,
                    fuel as nat,
                ) == SpecParsed::<crate::ast::SpecExpr>::Fail(pe),
                ParseOutcome::Exhausted => sp_comparison(
                    old(self).tv(),
                    old(self).current as int,
                    fuel as nat,
                ) == SpecParsed::<crate::ast::SpecExpr>::Out,
            },
        decreases fuel,
    {
        if fuel == 0 {
            return ParseOutcome::Exhausted;
        }
        let f = fuel - 1;
        let mut e = match self.term(f) {
            ParseOutcome::Done(e) => e,
            ParseOutcome::Failed(pe) => {
                return ParseOutcome::Failed(pe);
            },
            ParseOutcome::Exhausted => {
                return ParseOutcome::Exhausted;
            },
        };
        let mut fl = f;
        #[verifier::loop_isolation(false)]
        loop
            invariant
                self.wf(),
                fl <= f,
                self.tokens == old(self).tokens,
                self.statements == old(self).statements,
                sp_comparison(old(self).tv(), old(self).current as int, fuel as nat)
                    == sp_comparison_tail(deep_expr(e), self.tv(), self.current as int, fl as nat),
            decreases fl,
        {
            if fl == 0 {
                return ParseOutcome::Exhausted;
            }
            let fb = fl - 1;
            let tt = self.peek_type();
            if tt == TokenType::Greater || tt == TokenType::GreaterEqual || tt == TokenType::Less
                || tt == TokenType::LessEqual {
                let op = if tt == TokenType::Greater {
                    BinaryOp::Greater
                } else if tt == TokenType::GreaterEqual {
                    BinaryOp::GreaterEqual
                } else if tt == TokenType::Less {
                    BinaryOp::Less
                } else {
                    BinaryOp::LessEqual
                };
                proof {
                    assert(comparison_op(tt) == Option::Some(op));
                }
                let opline = self.peek_line();
                self.bump();
                match self.term(fb) {
                    ParseOutcome::Done(rhs) => {
                        e = Expr::Binary { op, line: opline, left: Box::new(e), right: Box::new(rhs) };
                        fl = fb;
                    },
                    ParseOutcome::Failed(pe) => {
                        return ParseOutcome::Failed(pe);
                    },
                    ParseOutcome::Exhausted => {
                        return ParseOutcome::Exhausted;
                    },
                }
            } else {
                proof {
                    assert(comparison_op(tt) == Option::<BinaryOp>::None);
                }
                return ParseOutcome::Done(e);
            }
        }
    }

    /// term := factor (("-" | "+") factor)*
    #[verifier::rlimit(100)]
    #[verifier::spinoff_prover]
    fn term(&mut self, fuel: u64) -> (r: ParseOutcome<Expr>)
        requires
            old(self).wf(),
        ensures
            final(self).wf(),
            final(self).tokens == old(self).tokens,
            final(self).statements == old(self).statements,
            match r {
                ParseOutcome::Done(e) => sp_term(
                    old(self).tv(),
                    old(self).current as int,
                    fuel as nat,
                ) == SpecParsed::Parsed(deep_expr(e), final(self).current as int),
                ParseOutcome::Failed(pe) => sp_term(
                    old(self).tv(),
                    old(self).current as int,
                    fuel as nat,
                ) == SpecParsed::<crate::ast::SpecExpr>::Fail(pe),
                ParseOutcome::Exhausted => sp_term(
                    old(self).tv(),
                    old(self).current as int,
                    fuel as nat,
                ) == SpecParsed::<crate::ast::SpecExpr>::Out,
            },
        decreases fuel,
    {
        if fuel == 0 {
            return ParseOutcome::Exhausted;
        }
        let f = fuel - 1;
        let mut e = match self.factor(f) {
            ParseOutcome::Done(e) => e,
            ParseOutcome::Failed(pe) => {
                return ParseOutcome::Failed(pe);
            },
            ParseOutcome::Exhausted => {
                return ParseOutcome::Exhausted;
            },
        };
        let mut fl = f;
        #[verifier::loop_isolation(false)]
        loop
            invariant
                self.wf(),
                fl <= f,
                self.tokens == old(self).tokens,
                self.statements == old(self).statements,
                sp_term(old(self).tv(), old(self).current as int, fuel as nat) == sp_term_tail(
                    deep_expr(e),
                    self.tv(),
                    self.current as int,
                    fl as nat,
                ),
            decreases fl,
        {
            if fl == 0 {
                return ParseOutcome::Exhausted;
            }
            let fb = fl - 1;
            let tt = self.peek_type();
            if tt == TokenType::Minus || tt == TokenType::Plus {
                let op = if tt == TokenType::Minus {
                    BinaryOp::Sub
                } else {
                    BinaryOp::Add
                };
                proof {
                    assert(term_op(tt) == Option::Some(op));
                }
                let opline = self.peek_line();
                self.bump();
                match self.factor(fb) {
                    ParseOutcome::Done(rhs) => {
                        e = Expr::Binary { op, line: opline, left: Box::new(e), right: Box::new(rhs) };
                        fl = fb;
                    },
                    ParseOutcome::Failed(pe) => {
                        return ParseOutcome::Failed(pe);
                    },
                    ParseOutcome::Exhausted => {
                        return ParseOutcome::Exhausted;
                    },
                }
            } else {
                proof {
                    assert(term_op(tt) == Option::<BinaryOp>::None);
                }
                return ParseOutcome::Done(e);
            }
        }
    }

    /// factor := unary (("/" | "*") unary)*
    #[verifier::rlimit(100)]
    #[verifier::spinoff_prover]
    fn factor(&mut self, fuel: u64) -> (r: ParseOutcome<Expr>)
        requires
            old(self).wf(),
        ensures
            final(self).wf(),
            final(self).tokens == old(self).tokens,
            final(self).statements == old(self).statements,
            match r {
                ParseOutcome::Done(e) => sp_factor(
                    old(self).tv(),
                    old(self).current as int,
                    fuel as nat,
                ) == SpecParsed::Parsed(deep_expr(e), final(self).current as int),
                ParseOutcome::Failed(pe) => sp_factor(
                    old(self).tv(),
                    old(self).current as int,
                    fuel as nat,
                ) == SpecParsed::<crate::ast::SpecExpr>::Fail(pe),
                ParseOutcome::Exhausted => sp_factor(
                    old(self).tv(),
                    old(self).current as int,
                    fuel as nat,
                ) == SpecParsed::<crate::ast::SpecExpr>::Out,
            },
        decreases fuel,
    {
        if fuel == 0 {
            return ParseOutcome::Exhausted;
        }
        let f = fuel - 1;
        let mut e = match self.unary(f) {
            ParseOutcome::Done(e) => e,
            ParseOutcome::Failed(pe) => {
                return ParseOutcome::Failed(pe);
            },
            ParseOutcome::Exhausted => {
                return ParseOutcome::Exhausted;
            },
        };
        let mut fl = f;
        #[verifier::loop_isolation(false)]
        loop
            invariant
                self.wf(),
                fl <= f,
                self.tokens == old(self).tokens,
                self.statements == old(self).statements,
                sp_factor(old(self).tv(), old(self).current as int, fuel as nat) == sp_factor_tail(
                    deep_expr(e),
                    self.tv(),
                    self.current as int,
                    fl as nat,
                ),
            decreases fl,
        {
            if fl == 0 {
                return ParseOutcome::Exhausted;
            }
            let fb = fl - 1;
            let tt = self.peek_type();
            if tt == TokenType::Slash || tt == TokenType::Star {
                let op = if tt == TokenType::Slash {
                    BinaryOp::Div
                } else {
                    BinaryOp::Mul
                };
                proof {
                    assert(factor_op(tt) == Option::Some(op));
                }
                let opline = self.peek_line();
                self.bump();
                match self.unary(fb) {
                    ParseOutcome::Done(rhs) => {
                        e = Expr::Binary { op, line: opline, left: Box::new(e), right: Box::new(rhs) };
                        fl = fb;
                    },
                    ParseOutcome::Failed(pe) => {
                        return ParseOutcome::Failed(pe);
                    },
                    ParseOutcome::Exhausted => {
                        return ParseOutcome::Exhausted;
                    },
                }
            } else {
                proof {
                    assert(factor_op(tt) == Option::<BinaryOp>::None);
                }
                return ParseOutcome::Done(e);
            }
        }
    }

    /// unary := ("!" | "-") unary | call
    #[verifier::rlimit(100)]
    #[verifier::spinoff_prover]
    fn unary(&mut self, fuel: u64) -> (r: ParseOutcome<Expr>)
        requires
            old(self).wf(),
        ensures
            final(self).wf(),
            final(self).tokens == old(self).tokens,
            final(self).statements == old(self).statements,
            match r {
                ParseOutcome::Done(e) => sp_unary(
                    old(self).tv(),
                    old(self).current as int,
                    fuel as nat,
                ) == SpecParsed::Parsed(deep_expr(e), final(self).current as int),
                ParseOutcome::Failed(pe) => sp_unary(
                    old(self).tv(),
                    old(self).current as int,
                    fuel as nat,
                ) == SpecParsed::<crate::ast::SpecExpr>::Fail(pe),
                ParseOutcome::Exhausted => sp_unary(
                    old(self).tv(),
                    old(self).current as int,
                    fuel as nat,
                ) == SpecParsed::<crate::ast::SpecExpr>::Out,
            },
        decreases fuel,
    {
        if fuel == 0 {
            return ParseOutcome::Exhausted;
        }
        let f = fuel - 1;
        let tt = self.peek_type();
        if tt == TokenType::Bang || tt == TokenType::Minus {
            let op = if tt == TokenType::Bang {
                UnaryOp::Not
            } else {
                UnaryOp::Neg
            };
            let opline = self.peek_line();
            self.bump();
            match self.unary(f) {
                ParseOutcome::Done(operand) => ParseOutcome::Done(
                    Expr::Unary { op, line: opline, operand: Box::new(operand) },
                ),
                other => other,
            }
        } else {
            self.call(f)
        }
    }

    /// call := primary ("(" arguments? ")")*
    #[verifier::rlimit(100)]
    #[verifier::spinoff_prover]
    fn call(&mut self, fuel: u64) -> (r: ParseOutcome<Expr>)
        requires
            old(self).wf(),
        ensures
            final(self).wf(),
            final(self).tokens == old(self).tokens,
            final(self).statements == old(self).statements,
            match r {
                ParseOutcome::Done(e) => sp_call_expr(
                    old(self).tv(),
                    old(self).current as int,
                    fuel as nat,
                ) == SpecParsed::Parsed(deep_expr(e), final(self).current as int),
                ParseOutcome::Failed(pe) => sp_call_expr(
                    old(self).tv(),
                    old(self).current as int,
                    fuel as nat,
                ) == SpecParsed::<crate::ast::SpecExpr>::Fail(pe),
                ParseOutcome::Exhausted => sp_call_expr(
                    old(self).tv(),
                    old(self).current as int,
                    fuel as nat,
                ) == SpecParsed::<crate::ast::SpecExpr>::Out,
            },
        decreases fuel,
    {
        if fuel == 0 {
            return ParseOutcome::Exhausted;
        }
        let f = fuel - 1;
        let mut e = match self.primary(f) {
            ParseOutcome::Done(e) => e,
            ParseOutcome::Failed(pe) => {
                return ParseOutcome::Failed(pe);
            },
            ParseOutcome::Exhausted => {
                return ParseOutcome::Exhausted;
            },
        };
        let mut fl = f;
        #[verifier::loop_isolation(false)]
        loop
            invariant
                self.wf(),
                fl <= f,
                self.tokens == old(self).tokens,
                self.statements == old(self).statements,
                sp_call_expr(old(self).tv(), old(self).current as int, fuel as nat)
                    == sp_call_tail(deep_expr(e), self.tv(), self.current as int, fl as nat),
            decreases fl,
        {
            if fl == 0 {
                return ParseOutcome::Exhausted;
            }
            let fb = fl - 1;
            if self.peek_type() == TokenType::LeftParen {
                self.bump();
                match self.arguments(fb) {
                    ParseOutcome::Done(args) => {
                        if self.peek_type() == TokenType::RightParen {
                            let line = self.peek_line();
                            self.bump();
                            let newe = Expr::Call { callee: Box::new(e), line, args };
                            proof {
                                assert(deep_expr(newe).arrow_Call_args() =~= deep_exprs(
                                    newe.arrow_Call_args()@,
                                ));
                            }
                            e = newe;
                            fl = fb;
                        } else {
                            return ParseOutcome::Failed(
                                ParseError::ExpectedToken {
                                    expected: TokenType::RightParen,
                                    line: self.peek_line(),
                                },
                            );
                        }
                    },
                    ParseOutcome::Failed(pe) => {
                        return ParseOutcome::Failed(pe);
                    },
                    ParseOutcome::Exhausted => {
                        return ParseOutcome::Exhausted;
                    },
                }
            } else {
                return ParseOutcome::Done(e);
            }
        }
    }

    /// arguments := expression ("," expression)*, at most 255; the closing
    /// parenthesis stays for the caller.
    #[verifier::rlimit(100)]
    #[verifier::spinoff_prover]
    fn arguments(&mut self, fuel: u64) -> (r: ParseOutcome<Vec<Expr>>)
        requires
            old(self).wf(),
        ensures
            final(self).wf(),
            final(self).tokens == old(self).tokens,
            final(self).statements == old(self).statements,
            match r {
                ParseOutcome::Done(args) => sp_arguments(
                    old(self).tv(),
                    old(self).current as int,
                    fuel as nat,
                ) == SpecParsed::Parsed(deep_exprs(args@), final(self).current as int),
                ParseOutcome::Failed(pe) => sp_arguments(
                    old(self).tv(),
                    old(self).current as int,
                    fuel as nat,
                ) == SpecParsed::<Seq<crate::ast::SpecExpr>>::Fail(pe),
                ParseOutcome::Exhausted => sp_arguments(
                    old(self).tv(),
                    old(self).current as int,
                    fuel as nat,
                ) == SpecParsed::<Seq<crate::ast::SpecExpr>>::Out,
            },
        decreases fuel,
    {
        if fuel == 0 {
            return ParseOutcome::Exhausted;
        }
        let f = fuel - 1;
        if self.peek_type() == TokenType::RightParen {
            let out: Vec<Expr> = Vec::new();
            proof {
                assert(deep_exprs(out@) =~= Seq::<crate::ast::SpecExpr>::empty());
            }
            return ParseOutcome::Done(out);
        }
        let first = match self.expression(f) {
            ParseOutcome::Done(e) => e,
            ParseOutcome::Failed(pe) => {
                return ParseOutcome::Failed(pe);
            },
            ParseOutcome::Exhausted => {
                return ParseOutcome::Exhausted;
            },
        };
        let mut acc: Vec<Expr> = Vec::new();
        acc.push(first);
        proof {
            assert(deep_exprs(acc@) =~= seq![deep_expr(acc@[0])]);
        }
        let mut fl = f;
        #[verifier::loop_isolation(false)]
        loop
            invariant
                self.wf(),
                fl <= f,
                self.tokens == old(self).tokens,
                self.statements == old(self).statements,
                sp_arguments(old(self).tv(), old(self).current as int, fuel as nat)
                    == sp_args_tail(deep_exprs(acc@), self.tv(), self.current as int, fl as nat),
            decreases fl,
        {
            if fl == 0 {
                return ParseOutcome::Exhausted;
            }
            let fb = fl - 1;
            if self.peek_type() == TokenType::Comma {
                if acc.len() >= 255 {
                    return ParseOutcome::Failed(
                        ParseError::TooManyArguments { line: self.peek_line() },
                    );
                }
                self.bump();
                match self.expression(fb) {
                    ParseOutcome::Done(e) => {
                        let ghost before = acc@;
                        acc.push(e);
                        proof {
                            assert(deep_exprs(acc@) =~= deep_exprs(before).push(
                                deep_expr(acc@.last()),
                            ));
                        }
                        fl = fb;
                    },
                    ParseOutcome::Failed(pe) => {
                        return ParseOutcome::Failed(pe);
                    },
                    ParseOutcome::Exhausted => {
                        return ParseOutcome::Exhausted;
                    },
                }
            } else {
                return ParseOutcome::Done(acc);
            }
        }
    }

    /// primary := "false" | "true" | "nil" | NUMBER | STRING | IDENT
    ///          | "(" expression ")"
    #[verifier::rlimit(100)]
    #[verifier::spinoff_prover]
    fn primary(&mut self, fuel: u64) -> (r: ParseOutcome<Expr>)
        requires
            old(self).wf(),
        ensures
            final(self).wf(),
            final(self).tokens == old(self).tokens,
            final(self).statements == old(self).statements,
            match r {
                ParseOutcome::Done(e) => sp_primary(
                    old(self).tv(),
                    old(self).current as int,
                    fuel as nat,
                ) == SpecParsed::Parsed(deep_expr(e), final(self).current as int),
                ParseOutcome::Failed(pe) => sp_primary(
                    old(self).tv(),
                    old(self).current as int,
                    fuel as nat,
                ) == SpecParsed::<crate::ast::SpecExpr>::Fail(pe),
                ParseOutcome::Exhausted => sp_primary(
                    old(self).tv(),
                    old(self).current as int,
                    fuel as nat,
                ) == SpecParsed::<crate::ast::SpecExpr>::Out,
            },
        decreases fuel,
    {
        if fuel == 0 {
            return ParseOutcome::Exhausted;
        }
        let f = fuel - 1;
        let tt = self.peek_type();
        if tt == TokenType::False {
            self.bump();
            ParseOutcome::Done(Expr::Literal(Literal::Bool(false)))
        } else if tt == TokenType::True {
            self.bump();
            ParseOutcome::Done(Expr::Literal(Literal::Bool(true)))
        } else if tt == TokenType::Nil {
            self.bump();
            ParseOutcome::Done(Expr::Literal(Literal::Nil))
        } else if tt == TokenType::Number || tt == TokenType::StringLit {
            let lit = match &self.tokens[self.current].literal {
                Option::Some(l) => l.duplicate(),
                Option::None => Literal::Null,
            };
            self.bump();
            ParseOutcome::Done(Expr::Literal(lit))
        } else if tt == TokenType::Identifier {
            let name = self.tokens[self.current].lexeme.clone();
            let line = self.tokens[self.current].line;
            self.bump();
            ParseOutcome::Done(Expr::Variable { name, line })
        } else if tt == TokenType::LeftParen {
            self.bump();
            match self.expression(f) {
                ParseOutcome::Done(e) => {
                    if self.peek_type() == TokenType::RightParen {
                        self.bump();
                        ParseOutcome::Done(Expr::Grouping(Box::new(e)))
                    } else {
                        ParseOutcome::Failed(
                            ParseError::ExpectedToken {
                                expected: TokenType::RightParen,
                                line: self.peek_line(),
                            },
                        )
                    }
                },
                other => other,
            }
        } else {
            ParseOutcome::Failed(ParseError::ExpectedExpression { line: self.peek_line() })
        }
    }

    /// declaration := funDecl | varDecl | statement
    #[verifier::rlimit(100)]
    #[verifier::spinoff_prover]
    fn declaration(&mut self, fuel: u64) -> (r: ParseOutcome<Stmt>)
        requires
            old(self).wf(),
        ensures
            final(self).wf(),
            final(self).tokens == old(self).tokens,
            final(self).statements == old(self).statements,
            match r {
                ParseOutcome::Done(st) => sp_declaration(
                    old(self).tv(),
                    old(self).current as int,
                    fuel as nat,
                ) == SpecParsed::Parsed(deep_stmt(st), final(self).current as int),
                ParseOutcome::Failed(pe) => sp_declaration(
                    old(self).tv(),
                    old(self).current as int,
                    fuel as nat,
                ) == SpecParsed::<crate::ast::SpecStmt>::Fail(pe),
                ParseOutcome::Exhausted => sp_declaration(
                    old(self).tv(),
                    old(self).current as int,
                    fuel as nat,
                ) == SpecParsed::<crate::ast::SpecStmt>::Out,
            },
        decreases fuel,
    {
        if fuel == 0 {
            return ParseOutcome::Exhausted;
        }
        let f = fuel - 1;
        let tt = self.peek_type();
        if tt == TokenType::Fun {
            self.bump();
            self.function(f)
        } else if tt == TokenType::Var {
            self.bump();
            self.var_declaration(f)
        } else {
            self.statement(f)
        }
    }

    /// funDecl := "fun" IDENT "(" params? ")" block (the keyword is
    /// already consumed).
    #[verifier::rlimit(100)]
    #[verifier::spinoff_prover]
    fn function(&mut self, fuel: u64) -> (r: ParseOutcome<Stmt>)
        requires
            old(self).wf(),
        ensures
            final(self).wf(),
            final(self).tokens == old(self).tokens,
            final(self).statements == old(self).statements,
            match r {
                ParseOutcome::Done(st) => sp_function_decl(
                    old(self).tv(),
                    old(self).current as int,
                    fuel as nat,
                ) == SpecParsed::Parsed(deep_stmt(st), final(self).current as int),
                ParseOutcome::Failed(pe) => sp_function_decl(
                    old(self).tv(),
                    old(self).current as int,
                    fuel as nat,
                ) == SpecParsed::<crate::ast::SpecStmt>::Fail(pe),
                ParseOutcome::Exhausted => sp_function_decl(
                    old(self).tv(),
                    old(self).current as int,
                    fuel as nat,
                ) == SpecParsed::<crate::ast::SpecStmt>::Out,
            },
        decreases fuel,
    {
        if fuel == 0 {
            return ParseOutcome::Exhausted;
        }
        let f = fuel - 1;
        if self.peek_type() != TokenType::Identifier {
            return ParseOutcome::Failed(
                ParseError::ExpectedToken {
                    expected: TokenType::Identifier,
                    line: self.peek_line(),
                },
            );
        }
        let name = self.tokens[self.current].lexeme.clone();
        self.bump();
        if self.peek_type() != TokenType::LeftParen {
            return ParseOutcome::Failed(
                ParseError::ExpectedToken {
                    expected: TokenType::LeftParen,
                    line: self.peek_line(),
                },
            );
        }
        self.bump();
        let params = match self.parameters(f) {
            ParseOutcome::Done(ps) => ps,
            ParseOutcome::Failed(pe) => {
                return ParseOutcome::Failed(pe);
            },
            ParseOutcome::Exhausted => {
                return ParseOutcome::Exhausted;
            },
        };
        if self.peek_type() != TokenType::RightParen {
            return ParseOutcome::Failed(
                ParseError::ExpectedToken {
                    expected: TokenType::RightParen,
                    line: self.peek_line(),
                },
            );
        }
        self.bump();
        if self.peek_type() != TokenType::LeftBrace {
            return ParseOutcome::Failed(
                ParseError::ExpectedToken {
                    expected: TokenType::LeftBrace,
                    line: self.peek_line(),
                },
            );
        }
        self.bump();
        match self.block(f) {
            ParseOutcome::Done(body) => {
                let st = Stmt::Function {
                    name,
                    params: std::rc::Rc::new(params),
                    body: std::rc::Rc::new(body),
                };
                proof {
                    assert(deep_stmt(st).arrow_Function_body() =~= deep_stmts(
                        st.arrow_Function_body()@,
                    ));
                }
                ParseOutcome::Done(st)
            },
            ParseOutcome::Failed(pe) => ParseOutcome::Failed(pe),
            ParseOutcome::Exhausted => ParseOutcome::Exhausted,
        }
    }

    /// params := IDENT ("," IDENT)*, possibly none, at most 250; the
    /// closing parenthesis stays for the caller.
    #[verifier::rlimit(100)]
    #[verifier::spinoff_prover]
    fn parameters(&mut self, fuel: u64) -> (r: ParseOutcome<Vec<String>>)
        requires
            old(self).wf(),
        ensures
            final(self).wf(),
            final(self).tokens == old(self).tokens,
            final(self).statements == old(self).statements,
            match r {
                ParseOutcome::Done(ps) => sp_parameters(
                    old(self).tv(),
                    old(self).current as int,
                    fuel as nat,
                ) == SpecParsed::Parsed(ps.deep_view(), final(self).current as int),
                ParseOutcome::Failed(pe) => sp_parameters(
                    old(self).tv(),
                    old(self).current as int,
                    fuel as nat,
                ) == SpecParsed::<Seq<Seq<char>>>::Fail(pe),
                ParseOutcome::Exhausted => sp_parameters(
                    old(self).tv(),
                    old(self).current as int,
                    fuel as nat,
                ) == SpecParsed::<Seq<Seq<char>>>::Out,
            },
        decreases fuel,
    {
        if fuel == 0 {
            return ParseOutcome::Exhausted;
        }
        let f = fuel - 1;
        if self.peek_type() == TokenType::RightParen {
            let out: Vec<String> = Vec::new();
            proof {
                assert(out.deep_view() =~= Seq::<Seq<char>>::empty());
            }
            return ParseOutcome::Done(out);
        }
        if self.peek_type() != TokenType::Identifier {
            return ParseOutcome::Failed(
                ParseError::ExpectedToken {
                    expected: TokenType::Identifier,
                    line: self.peek_line(),
                },
            );
        }
        let mut acc: Vec<String> = Vec::new();
        acc.push(self.tokens[self.current].lexeme.clone());
        self.bump();
        proof {
            assert(acc.deep_view() =~= seq![acc@[0]@]);
        }
        let mut fl = f;
        #[verifier::loop_isolation(false)]
        loop
            invariant
                self.wf(),
                fl <= f,
                self.tokens == old(self).tokens,
                self.statements == old(self).statements,
                sp_parameters(old(self).tv(), old(self).current as int, fuel as nat)
                    == sp_params_tail(acc.deep_view(), self.tv(), self.current as int, fl as nat),
            decreases fl,
        {
            if fl == 0 {
                return ParseOutcome::Exhausted;
            }
            let fb = fl - 1;
            if self.peek_type() == TokenType::Comma {
                if acc.len() >= 250 {
                    return ParseOutcome::Failed(
                        ParseError::TooManyParameters { line: self.peek_line() },
                    );
                }
                self.bump();
                if self.peek_type() != TokenType::Identifier {
                    return ParseOutcome::Failed(
                        ParseError::ExpectedToken {
                            expected: TokenType::Identifier,
                            line: self.peek_line(),
                        },
                    );
                }
                let ghost before = acc.deep_view();
                acc.push(self.tokens[self.current].lexeme.clone());
                self.bump();
                proof {
                    assert(acc.deep_view() =~= before.push(acc@.last()@));
                }
                fl = fb;
            } else {
                return ParseOutcome::Done(acc);
            }
        }
    }

    /// varDecl := "var" IDENT ("=" expression)? ";" (the keyword is
    /// already consumed).
    #[verifier::rlimit(100)]
    #[verifier::spinoff_prover]
    fn var_declaration(&mut self, fuel: u64) -> (r: ParseOutcome<Stmt>)
        requires
            old(self).wf(),
        ensures
            final(self).wf(),
            final(self).tokens == old(self).tokens,
            final(self).statements == old(self).statements,
            match r {
                ParseOutcome::Done(st) => sp_var_declaration(
                    old(self).tv(),
                    old(self).current as int,
                    fuel as nat,
                ) == SpecParsed::Parsed(deep_stmt(st), final(self).current as int),
                ParseOutcome::Failed(pe) => sp_var_declaration(
                    old(self).tv(),
                    old(self).current as int,
                    fuel as nat,
                ) == SpecParsed::<crate::ast::SpecStmt>::Fail(pe),
                ParseOutcome::Exhausted => sp_var_declaration(
                    old(self).tv(),
                    old(self).current as int,
                    fuel as nat,
                ) == SpecParsed::<crate::ast::SpecStmt>::Out,
            },
        decreases fuel,
    {
        if fuel == 0 {
            return ParseOutcome::Exhausted;
        }
        let f = fuel - 1;
        if self.peek_type() != TokenType::Identifier {
            return ParseOutcome::Failed(
                ParseError::ExpectedToken {
                    expected: TokenType::Identifier,
                    line: self.peek_line(),
                },
            );
        }
        let name = self.tokens[self.current].lexeme.clone();
        self.bump();
        if self.peek_type() == TokenType::Equal {
            self.bump();
            match self.expression(f) {
                ParseOutcome::Done(e) => {
                    if self.peek_type() == TokenType::Semicolon {
                        self.bump();
                        ParseOutcome::Done(Stmt::Var { name, init: e })
                    } else {
                        ParseOutcome::Failed(
                            ParseError::ExpectedToken {
                                expected: TokenType::Semicolon,
                                line: self.peek_line(),
                            },
                        )
                    }
                },
                ParseOutcome::Failed(pe) => ParseOutcome::Failed(pe),
                ParseOutcome::Exhausted => ParseOutcome::Exhausted,
            }
        } else if self.peek_type() == TokenType::Semicolon {
            self.bump();
            ParseOutcome::Done(Stmt::Var { name, init: Expr::Literal(Literal::Nil) })
        } else {
            ParseOutcome::Failed(
                ParseError::ExpectedToken {
                    expected: TokenType::Semicolon,
                    line: self.peek_line(),
                },
            )
        }
    }

    /// statement := exprStmt | printStmt | block | ifStmt | whileStmt
    ///            | forStmt | returnStmt
    #[verifier::rlimit(100)]
    #[verifier::spinoff_prover]
    fn statement(&mut self, fuel: u64) -> (r: ParseOutcome<Stmt>)
        requires
            old(self).wf(),
        ensures
            final(self).wf(),
            final(self).tokens == old(self).tokens,
            final(self).statements == old(self).statements,
            match r {
                ParseOutcome::Done(st) => sp_statement(
                    old(self).tv(),
                    old(self).current as int,
                    fuel as nat,
                ) == SpecParsed::Parsed(deep_stmt(st), final(self).current as int),
                ParseOutcome::Failed(pe) => sp_statement(
                    old(self).tv(),
                    old(self).current as int,
                    fuel as nat,
                ) == SpecParsed::<crate::ast::SpecStmt>::Fail(pe),
                ParseOutcome::Exhausted => sp_statement(
                    old(self).tv(),
                    old(self).current as int,
                    fuel as nat,
                ) == SpecParsed::<crate::ast::SpecStmt>::Out,
            },
        decreases fuel,
    {
        if fuel == 0 {
            return ParseOutcome::Exhausted;
        }
        let f = fuel - 1;
        let tt = self.peek_type();
        if tt == TokenType::For {
            self.bump();
            self.for_statement(f)
        } else if tt == TokenType::If {
            self.bump();
            self.if_statement(f)
        } else if tt == TokenType::Print {
            self.bump();
            match self.expression(f) {
                ParseOutcome::Done(e) => {
                    if self.peek_type() == TokenType::Semicolon {
                        self.bump();
                        ParseOutcome::Done(Stmt::Print(e))
                    } else {
                        ParseOutcome::Failed(
                            ParseError::ExpectedToken {
                                expected: TokenType::Semicolon,
                                line: self.peek_line(),
                            },
                        )
                    }
                },
                ParseOutcome::Failed(pe) => ParseOutcome::Failed(pe),
                ParseOutcome::Exhausted => ParseOutcome::Exhausted,
            }
        } else if tt == TokenType::Return {
            let kwline = self.peek_line();
            self.bump();
            self.return_statement(kwline, f)
        } else if tt == TokenType::While {
            self.bump();
            self.while_statement(f)
        } else if tt == TokenType::LeftBrace {
            self.bump();
            match self.block(f) {
                ParseOutcome::Done(ss) => {
                    let st = Stmt::Block(ss);
                    proof {
                        assert(deep_stmt(st).arrow_Block_0() =~= deep_stmts(st.arrow_Block_0()@));
                    }
                    ParseOutcome::Done(st)
                },
                ParseOutcome::Failed(pe) => ParseOutcome::Failed(pe),
                ParseOutcome::Exhausted => ParseOutcome::Exhausted,
            }
        } else {
            self.expression_statement(fuel)
        }
    }

    /// exprStmt := expression ";".  Shares `statement`'s fuel step: its
    /// specification is the final arm of `sp_statement`.
    #[verifier::rlimit(100)]
    #[verifier::spinoff_prover]
    fn expression_statement(&mut self, fuel: u64) -> (r: ParseOutcome<Stmt>)
        requires
            old(self).wf(),
            fuel > 0,
            !(ttype(old(self).tv(), old(self).current as int) == TokenType::For || ttype(
                old(self).tv(),
                old(self).current as int,
            ) == TokenType::If || ttype(old(self).tv(), old(self).current as int)
                == TokenType::Print || ttype(old(self).tv(), old(self).current as int)
                == TokenType::Return || ttype(old(self).tv(), old(self).current as int)
                == TokenType::While || ttype(old(self).tv(), old(self).current as int)
                == TokenType::LeftBrace),
        ensures
            final(self).wf(),
            final(self).tokens == old(self).tokens,
            final(self).statements == old(self).statements,
            match r {
                ParseOutcome::Done(st) => sp_statement(
                    old(self).tv(),
                    old(self).current as int,
                    fuel as nat,
                ) == SpecParsed::Parsed(deep_stmt(st), final(self).current as int),
                ParseOutcome::Failed(pe) => sp_statement(
                    old(self).tv(),
                    old(self).current as int,
                    fuel as nat,
                ) == SpecParsed::<crate::ast::SpecStmt>::Fail(pe),
                ParseOutcome::Exhausted => sp_statement(
                    old(self).tv(),
                    old(self).current as int,
                    fuel as nat,
                ) == SpecParsed::<crate::ast::SpecStmt>::Out,
            },
        decreases fuel,
    {
        let f = fuel - 1;
        match self.expression(f) {
            ParseOutcome::Done(e) => {
                if self.peek_type() == TokenType::Semicolon {
                    self.bump();
                    ParseOutcome::Done(Stmt::Expression(e))
                } else {
                    ParseOutcome::Failed(
                        ParseError::ExpectedToken {
                            expected: TokenType::Semicolon,
                            line: self.peek_line(),
                        },
                    )
                }
            },
            ParseOutcome::Failed(pe) => ParseOutcome::Failed(pe),
            ParseOutcome::Exhausted => ParseOutcome::Exhausted,
        }
    }

    /// whileStmt := "while" "(" expression ")" statement (the keyword is
    /// already consumed).
    #[verifier::rlimit(100)]
    #[verifier::spinoff_prover]
    fn while_statement(&mut self, fuel: u64) -> (r: ParseOutcome<Stmt>)
        requires
            old(self).wf(),
        ensures
            final(self).wf(),
            final(self).tokens == old(self).tokens,
            final(self).statements == old(self).statements,
            match r {
                ParseOutcome::Done(st) => sp_while_statement(
                    old(self).tv(),
                    old(self).current as int,
                    fuel as nat,
                ) == SpecParsed::Parsed(deep_stmt(st), final(self).current as int),
                ParseOutcome::Failed(pe) => sp_while_statement(
                    old(self).tv(),
                    old(self).current as int,
                    fuel as nat,
                ) == SpecParsed::<crate::ast::SpecStmt>::Fail(pe),
                ParseOutcome::Exhausted => sp_while_statement(
                    old(self).tv(),
                    old(self).current as int,
                    fuel as nat,
                ) == SpecParsed::<crate::ast::SpecStmt>::Out,
            },
        decreases fuel,
    {
        if fuel == 0 {
            return ParseOutcome::Exhausted;
        }
        let f = fuel - 1;
        if self.peek_type() != TokenType::LeftParen {
            return ParseOutcome::Failed(
                ParseError::ExpectedToken {
                    expected: TokenType::LeftParen,
                    line: self.peek_line(),
                },
            );
        }
        self.bump();
        match self.expression(f) {
            ParseOutcome::Done(cond) => {
                if self.peek_type() != TokenType::RightParen {
                    return ParseOutcome::Failed(
                        ParseError::ExpectedToken {
                            expected: TokenType::RightParen,
                            line: self.peek_line(),
                        },
                    );
                }
                self.bump();
                match self.statement(f) {
                    ParseOutcome::Done(body) => ParseOutcome::Done(
                        Stmt::While { cond, body: Box::new(body) },
                    ),
                    ParseOutcome::Failed(pe) => ParseOutcome::Failed(pe),
                    ParseOutcome::Exhausted => ParseOutcome::Exhausted,
                }
            },
            ParseOutcome::Failed(pe) => ParseOutcome::Failed(pe),
            ParseOutcome::Exhausted => ParseOutcome::Exhausted,
        }
    }

    /// ifStmt := "if" "(" expression ")" statement ("else" statement)?
    /// (the keyword is already consumed).
    #[verifier::rlimit(100)]
    #[verifier::spinoff_prover]
    fn if_statement(&mut self, fuel: u64) -> (r: ParseOutcome<Stmt>)
        requires
            old(self).wf(),
        ensures
            final(self).wf(),
            final(self).tokens == old(self).tokens,
            final(self).statements == old(self).statements,
            match r {
                ParseOutcome::Done(st) => sp_if_statement(
                    old(self).tv(),
                    old(self).current as int,
                    fuel as nat,
                ) == SpecParsed::Parsed(deep_stmt(st), final(self).current as int),
                ParseOutcome::Failed(pe) => sp_if_statement(
                    old(self).tv(),
                    old(self).current as int,
                    fuel as nat,
                ) == SpecParsed::<crate::ast::SpecStmt>::Fail(pe),
                ParseOutcome::Exhausted => sp_if_statement(
                    old(self).tv(),
                    old(self).current as int,
                    fuel as nat,
                ) == SpecParsed::<crate::ast::SpecStmt>::Out,
            },
        decreases fuel,
    {
        if fuel == 0 {
            return ParseOutcome::Exhausted;
        }
        let f = fuel - 1;
        if self.peek_type() != TokenType::LeftParen {
            return ParseOutcome::Failed(
                ParseError::ExpectedToken {
                    expected: TokenType::LeftParen,
                    line: self.peek_line(),
                },
            );
        }
        self.bump();
        match self.expression(f) {
            ParseOutcome::Done(cond) => {
                if self.peek_type() != TokenType::RightParen {
                    return ParseOutcome::Failed(
                        ParseError::ExpectedToken {
                            expected: TokenType::RightParen,
                            line: self.peek_line(),
                        },
                    );
                }
                self.bump();
                match self.statement(f) {
                    ParseOutcome::Done(thenb) => {
                        if self.peek_type() == TokenType::Else {
                            self.bump();
                            match self.statement(f) {
                                ParseOutcome::Done(elseb) => ParseOutcome::Done(
                                    Stmt::If {
                                        cond,
                                        then_branch: Box::new(thenb),
                                        else_branch: Option::Some(Box::new(elseb)),
                                    },
                                ),
                                ParseOutcome::Failed(pe) => ParseOutcome::Failed(pe),
                                ParseOutcome::Exhausted => ParseOutcome::Exhausted,
                            }
                        } else {
                            ParseOutcome::Done(
                                Stmt::If {
                                    cond,
                                    then_branch: Box::new(thenb),
                                    else_branch: Option::None,
                                },
                            )
                        }
                    },
                    ParseOutcome::Failed(pe) => ParseOutcome::Failed(pe),
                    ParseOutcome::Exhausted => ParseOutcome::Exhausted,
                }
            },
            ParseOutcome::Failed(pe) => ParseOutcome::Failed(pe),
            ParseOutcome::Exhausted => ParseOutcome::Exhausted,
        }
    }

    /// returnStmt := "return" expression? ";" (the keyword, whose line is
    /// passed in, is already consumed); an omitted value reads as nil.
    #[verifier::rlimit(100)]
    #[verifier::spinoff_prover]
    fn return_statement(&mut self, kwline: u32, fuel: u64) -> (r: ParseOutcome<Stmt>)
        requires
            old(self).wf(),
        ensures
            final(self).wf(),
            final(self).tokens == old(self).tokens,
            final(self).statements == old(self).statements,
            match r {
                ParseOutcome::Done(st) => sp_return_statement(
                    old(self).tv(),
                    old(self).current as int,
                    kwline,
                    fuel as nat,
                ) == SpecParsed::Parsed(deep_stmt(st), final(self).current as int),
                ParseOutcome::Failed(pe) => sp_return_statement(
                    old(self).tv(),
                    old(self).current as int,
                    kwline,
                    fuel as nat,
                ) == SpecParsed::<crate::ast::SpecStmt>::Fail(pe),
                ParseOutcome::Exhausted => sp_return_statement(
                    old(self).tv(),
                    old(self).current as int,
                    kwline,
                    fuel as nat,
                ) == SpecParsed::<crate::ast::SpecStmt>::Out,
            },
        decreases fuel,
    {
        if fuel == 0 {
            return ParseOutcome::Exhausted;
        }
        let f = fuel - 1;
        if self.peek_type() == TokenType::Semicolon {
            self.bump();
            return ParseOutcome::Done(
                Stmt::Return { line: kwline, value: Expr::Literal(Literal::Nil) },
            );
        }
        match self.expression(f) {
            ParseOutcome::Done(e) => {
                if self.peek_type() == TokenType::Semicolon {
                    self.bump();
                    ParseOutcome::Done(Stmt::Return { line: kwline, value: e })
                } else {
                    ParseOutcome::Failed(
                        ParseError::ExpectedToken {
                            expected: TokenType::Semicolon,
                            line: self.peek_line(),
                        },
                    )
                }
            },
            ParseOutcome::Failed(pe) => ParseOutcome::Failed(pe),
            ParseOutcome::Exhausted => ParseOutcome::Exhausted,
        }
    }

    /// The initializer phase of a `for` head.
    #[verifier::rlimit(100)]
    #[verifier::spinoff_prover]
    fn for_init(&mut self, fuel: u64) -> (r: ParseOutcome<Option<Stmt>>)
        requires
            old(self).wf(),
        ensures
            final(self).wf(),
            final(self).tokens == old(self).tokens,
            final(self).statements == old(self).statements,
            match r {
                ParseOutcome::Done(o) => sp_for_init(
                    old(self).tv(),
                    old(self).current as int,
                    fuel as nat,
                ) == SpecParsed::Parsed(
                    match o {
                        Option::Some(st) => Option::Some(deep_stmt(st)),
                        Option::None => Option::None,
                    },
                    final(self).current as int,
                ),
                ParseOutcome::Failed(pe) => sp_for_init(
                    old(self).tv(),
                    old(self).current as int,
                    fuel as nat,
                ) == SpecParsed::<Option<crate::ast::SpecStmt>>::Fail(pe),
                ParseOutcome::Exhausted => sp_for_init(
                    old(self).tv(),
                    old(self).current as int,
                    fuel as nat,
                ) == SpecParsed::<Option<crate::ast::SpecStmt>>::Out,
            },
        decreases fuel,
    {
        if fuel == 0 {
            return ParseOutcome::Exhausted;
        }
        let f = fuel - 1;
        let tt = self.peek_type();
        if tt == TokenType::Semicolon {
            self.bump();
            ParseOutcome::Done(Option::None)
        } else if tt == TokenType::Var {
            self.bump();
            match self.var_declaration(f) {
                ParseOutcome::Done(st) => ParseOutcome::Done(Option::Some(st)),
                ParseOutcome::Failed(pe) => ParseOutcome::Failed(pe),
                ParseOutcome::Exhausted => ParseOutcome::Exhausted,
            }
        } else {
            match self.expression(f) {
                ParseOutcome::Done(e) => {
                    if self.peek_type() == TokenType::Semicolon {
                        self.bump();
                        ParseOutcome::Done(Option::Some(Stmt::Expression(e)))
                    } else {
                        ParseOutcome::Failed(
                            ParseError::ExpectedToken {
                                expected: TokenType::Semicolon,
                                line: self.peek_line(),
                            },
                        )
                    }
                },
                ParseOutcome::Failed(pe) => ParseOutcome::Failed(pe),
                ParseOutcome::Exhausted => ParseOutcome::Exhausted,
            }
        }
    }

    /// The condition phase of a `for` head, through its `;`.
    #[verifier::rlimit(100)]
    #[verifier::spinoff_prover]
    fn for_cond(&mut self, fuel: u64) -> (r: ParseOutcome<Option<Expr>>)
        requires
            old(self).wf(),
        ensures
            final(self).wf(),
            final(self).tokens == old(self).tokens,
            final(self).statements == old(self).statements,
            match r {
                ParseOutcome::Done(o) => sp_for_cond(
                    old(self).tv(),
                    old(self).current as int,
                    fuel as nat,
                ) == SpecParsed::Parsed(
                    match o {
                        Option::Some(e) => Option::Some(deep_expr(e)),
                        Option::None => Option::None,
                    },
                    final(self).current as int,
                ),
                ParseOutcome::Failed(pe) => sp_for_cond(
                    old(self).tv(),
                    old(self).current as int,
                    fuel as nat,
                ) == SpecParsed::<Option<crate::ast::SpecExpr>>::Fail(pe),
                ParseOutcome::Exhausted => sp_for_cond(
                    old(self).tv(),
                    old(self).current as int,
                    fuel as nat,
                ) == SpecParsed::<Option<crate::ast::SpecExpr>>::Out,
            },
        decreases fuel,
    {
        if fuel == 0 {
            return ParseOutcome::Exhausted;
        }
        let f = fuel - 1;
        if self.peek_type() == TokenType::Semicolon {
            self.bump();
            return ParseOutcome::Done(Option::None);
        }
        match self.expression(f) {
            ParseOutcome::Done(e) => {
                if self.peek_type() == TokenType::Semicolon {
                    self.bump();
                    ParseOutcome::Done(Option::Some(e))
                } else {
                    ParseOutcome::Failed(
                        ParseError::ExpectedToken {
                            expected: TokenType::Semicolon,
                            line: self.peek_line(),
                        },
                    )
                }
            },
            ParseOutcome::Failed(pe) => ParseOutcome::Failed(pe),
            ParseOutcome::Exhausted => ParseOutcome::Exhausted,
        }
    }

    /// The increment phase of a `for` head, through the `)`.
    #[verifier::rlimit(100)]
    #[verifier::spinoff_prover]
    fn for_inc(&mut self, fuel: u64) -> (r: ParseOutcome<Option<Expr>>)
        requires
            old(self).wf(),
        ensures
            final(self).wf(),
            final(self).tokens == old(self).tokens,
            final(self).statements == old(self).statements,
            match r {
                ParseOutcome::Done(o) => sp_for_inc(
                    old(self).tv(),
                    old(self).current as int,
                    fuel as nat,
                ) == SpecParsed::Parsed(
                    match o {
                        Option::Some(e) => Option::Some(deep_expr(e)),
                        Option::None => Option::None,
                    },
                    final(self).current as int,
                ),
                ParseOutcome::Failed(pe) => sp_for_inc(
                    old(self).tv(),
                    old(self).current as int,
                    fuel as nat,
                ) == SpecParsed::<Option<crate::ast::SpecExpr>>::Fail(pe),
                ParseOutcome::Exhausted => sp_for_inc(
                    old(self).tv(),
                    old(self).current as int,
                    fuel as nat,
                ) == SpecParsed::<Option<crate::ast::SpecExpr>>::Out,
            },
        decreases fuel,
    {
        if fuel == 0 {
            return ParseOutcome::Exhausted;
        }
        let f = fuel - 1;
        if self.peek_type() == TokenType::RightParen {
            self.bump();
            return ParseOutcome::Done(Option::None);
        }
        match self.expression(f) {
            ParseOutcome::Done(e) => {
                if self.peek_type() == TokenType::RightParen {
                    self.bump();
                    ParseOutcome::Done(Option::Some(e))
                } else {
                    ParseOutcome::Failed(
                        ParseError::ExpectedToken {
                            expected: TokenType::RightParen,
                            line: self.peek_line(),
                        },
                    )
                }
            },
            ParseOutcome::Failed(pe) => ParseOutcome::Failed(pe),
            ParseOutcome::Exhausted => ParseOutcome::Exhausted,
        }
    }

    /// forStmt := "for" "(" (varDecl | exprStmt | ";") expression? ";"
    /// expression? ")" statement (the keyword is already consumed),
    /// desugared on the spot into a block and a `while` loop.
    #[verifier::rlimit(100)]
    #[verifier::spinoff_prover]
    fn for_statement(&mut self, fuel: u64) -> (r: ParseOutcome<Stmt>)
        requires
            old(self).wf(),
        ensures
            final(self).wf(),
            final(self).tokens == old(self).tokens,
            final(self).statements == old(self).statements,
            match r {
                ParseOutcome::Done(st) => sp_for_statement(
                    old(self).tv(),
                    old(self).current as int,
                    fuel as nat,
                ) == SpecParsed::Parsed(deep_stmt(st), final(self).current as int),
                ParseOutcome::Failed(pe) => sp_for_statement(
                    old(self).tv(),
                    old(self).current as int,
                    fuel as nat,
                ) == SpecParsed::<crate::ast::SpecStmt>::Fail(pe),
                ParseOutcome::Exhausted => sp_for_statement(
                    old(self).tv(),
                    old(self).current as int,
                    fuel as nat,
                ) == SpecParsed::<crate::ast::SpecStmt>::Out,
            },
        decreases fuel,
    {
        if fuel == 0 {
            return ParseOutcome::Exhausted;
        }
        let f = fuel - 1;
        if self.peek_type() != TokenType::LeftParen {
            return ParseOutcome::Failed(
                ParseError::ExpectedToken {
                    expected: TokenType::LeftParen,
                    line: self.peek_line(),
                },
            );
        }
        self.bump();
        let init = match self.for_init(f) {
            ParseOutcome::Done(o) => o,
            ParseOutcome::Failed(pe) => {
                return ParseOutcome::Failed(pe);
            },
            ParseOutcome::Exhausted => {
                return ParseOutcome::Exhausted;
            },
        };
        let cond = match self.for_cond(f) {
            ParseOutcome::Done(o) => o,
            ParseOutcome::Failed(pe) => {
                return ParseOutcome::Failed(pe);
            },
            ParseOutcome::Exhausted => {
                return ParseOutcome::Exhausted;
            },
        };
        let inc = match self.for_inc(f) {
            ParseOutcome::Done(o) => o,
            ParseOutcome::Failed(pe) => {
                return ParseOutcome::Failed(pe);
            },
            ParseOutcome::Exhausted => {
                return ParseOutcome::Exhausted;
            },
        };
        let body = match self.statement(f) {
            ParseOutcome::Done(st) => st,
            ParseOutcome::Failed(pe) => {
                return ParseOutcome::Failed(pe);
            },
            ParseOutcome::Exhausted => {
                return ParseOutcome::Exhausted;
            },
        };
        ParseOutcome::Done(assemble_for(init, cond, inc, body))
    }

    /// block := "{" declaration* "}" (the opening brace is already
    /// consumed); yields the statements and consumes the closing brace.
    #[verifier::rlimit(100)]
    #[verifier::spinoff_prover]
    fn block(&mut self, fuel: u64) -> (r: ParseOutcome<Vec<Stmt>>)
        requires
            old(self).wf(),
        ensures
            final(self).wf(),
            final(self).tokens == old(self).tokens,
            final(self).statements == old(self).statements,
            match r {
                ParseOutcome::Done(ss) => sp_block_stmts(
                    old(self).tv(),
                    old(self).current as int,
                    fuel as nat,
                ) == SpecParsed::Parsed(deep_stmts(ss@), final(self).current as int),
                ParseOutcome::Failed(pe) => sp_block_stmts(
                    old(self).tv(),
                    old(self).current as int,
                    fuel as nat,
                ) == SpecParsed::<Seq<crate::ast::SpecStmt>>::Fail(pe),
                ParseOutcome::Exhausted => sp_block_stmts(
                    old(self).tv(),
                    old(self).current as int,
                    fuel as nat,
                ) == SpecParsed::<Seq<crate::ast::SpecStmt>>::Out,
            },
        decreases fuel,
    {
        let mut acc: Vec<Stmt> = Vec::new();
        let mut fl = fuel;
        #[verifier::loop_isolation(false)]
        loop
            invariant
                self.wf(),
                fl <= fuel,
                self.tokens == old(self).tokens,
                self.statements == old(self).statements,
                (match sp_block_stmts(self.tv(), self.current as int, fl as nat) {
                    SpecParsed::Parsed(ss, p2) => sp_block_stmts(
                        old(self).tv(),
                        old(self).current as int,
                        fuel as nat,
                    ) == SpecParsed::<Seq<crate::ast::SpecStmt>>::Parsed(deep_stmts(acc@) + ss, p2),
                    SpecParsed::Fail(pe) => sp_block_stmts(
                        old(self).tv(),
                        old(self).current as int,
                        fuel as nat,
                    ) == SpecParsed::<Seq<crate::ast::SpecStmt>>::Fail(pe),
                    SpecParsed::Out => sp_block_stmts(
                        old(self).tv(),
                        old(self).current as int,
                        fuel as nat,
                    ) == SpecParsed::<Seq<crate::ast::SpecStmt>>::Out,
                }),
            decreases fl,
        {
            if fl == 0 {
                return ParseOutcome::Exhausted;
            }
            let fb = fl - 1;
            let tt = self.peek_type();
            if tt == TokenType::RightBrace {
                self.bump();
                proof {
                    assert(deep_stmts(acc@) + Seq::<crate::ast::SpecStmt>::empty() =~= deep_stmts(
                        acc@,
                    ));
                }
                return ParseOutcome::Done(acc);
            }
            if tt == TokenType::Eof {
                return ParseOutcome::Failed(
                    ParseError::ExpectedToken {
                        expected: TokenType::RightBrace,
                        line: self.peek_line(),
                    },
                );
            }
            match self.declaration(fb) {
                ParseOutcome::Done(st) => {
                    let ghost before = acc@;
                    let ghost dst = deep_stmt(st);
                    acc.push(st);
                    proof {
                        assert(deep_stmts(acc@) =~= deep_stmts(before).push(dst));
                        assert(forall|ss: Seq<crate::ast::SpecStmt>|
                            deep_stmts(before).push(dst) + ss =~= deep_stmts(before) + (#[trigger] (
                            seq![dst] + ss)));
                    }
                    fl = fb;
                },
                ParseOutcome::Failed(pe) => {
                    return ParseOutcome::Failed(pe);
                },
                ParseOutcome::Exhausted => {
                    return ParseOutcome::Exhausted;
                },
            }
        }
    }

    /// program := declaration* END: parse the whole token list into
    /// `self.statements`.
    #[verifier::rlimit(100)]
    #[verifier::spinoff_prover]
    pub fn parse(&mut self, fuel: u64) -> (r: ParseOutcome<()>)
        requires
            old(self).wf(),
        ensures
            final(self).wf(),
            final(self).tokens == old(self).tokens,
            match r {
                ParseOutcome::Done(u) => sp_program(
                    old(self).tv(),
                    old(self).current as int,
                    fuel as nat,
                ) == SpecParsed::Parsed(
                    deep_stmts(final(self).statements@),
                    final(self).current as int,
                ),
                ParseOutcome::Failed(pe) => sp_program(
                    old(self).tv(),
                    old(self).current as int,
                    fuel as nat,
                ) == SpecParsed::<Seq<crate::ast::SpecStmt>>::Fail(pe),
                ParseOutcome::Exhausted => sp_program(
                    old(self).tv(),
                    old(self).current as int,
                    fuel as nat,
                ) == SpecParsed::<Seq<crate::ast::SpecStmt>>::Out,
            },
        decreases fuel,
    {
        let mut acc: Vec<Stmt> = Vec::new();
        let mut fl = fuel;
        #[verifier::loop_isolation(false)]
        loop
            invariant
                self.wf(),
                fl <= fuel,
                self.tokens == old(self).tokens,
                self.statements == old(self).statements,
                (match sp_program(self.tv(), self.current as int, fl as nat) {
                    SpecParsed::Parsed(ss, p2) => sp_program(
                        old(self).tv(),
                        old(self).current as int,
                        fuel as nat,
                    ) == SpecParsed::<Seq<crate::ast::SpecStmt>>::Parsed(deep_stmts(acc@) + ss, p2),
                    SpecParsed::Fail(pe) => sp_program(
                        old(self).tv(),
                        old(self).current as int,
                        fuel as nat,
                    ) == SpecParsed::<Seq<crate::ast::SpecStmt>>::Fail(pe),
                    SpecParsed::Out => sp_program(
                        old(self).tv(),
                        old(self).current as int,
                        fuel as nat,
                    ) == SpecParsed::<Seq<crate::ast::SpecStmt>>::Out,
                }),
            decreases fl,
        {
            if fl == 0 {
                return ParseOutcome::Exhausted;
            }
            let fb = fl - 1;
            if self.peek_type() == TokenType::Eof {
                proof {
                    assert(deep_stmts(acc@) + Seq::<crate::ast::SpecStmt>::empty() =~= deep_stmts(
                        acc@,
                    ));
                }
                self.statements = acc;
                return ParseOutcome::Done(());
            }
            match self.declaration(fb) {
                ParseOutcome::Done(st) => {
                    let ghost before = acc@;
                    let ghost dst = deep_stmt(st);
                    acc.push(st);
                    proof {
                        assert(deep_stmts(acc@) =~= deep_stmts(before).push(dst));
                        assert(forall|ss: Seq<crate::ast::SpecStmt>|
                            deep_stmts(before).push(dst) + ss =~= deep_stmts(before) + (#[trigger] (
                            seq![dst] + ss)));
                    }
                    fl = fb;
                },
                ParseOutcome::Failed(pe) => {
                    return ParseOutcome::Failed(pe);
                },
                ParseOutcome::Exhausted => {
                    return ParseOutcome::Exhausted;
                },
            }
        }
    }

    /// Skip ahead to a plausible statement boundary after a parse error:
    /// just past the next semicolon, or to a statement-starting keyword.
    #[verifier::rlimit(100)]
    #[verifier::spinoff_prover]
    pub fn synchronize(&mut self)
        requires
            old(self).wf(),
        ensures
            final(self).wf(),
            final(self).tokens == old(self).tokens,
            final(self).statements == old(self).statements,
            final(self).current as int == (if ttype(old(self).tv(), old(self).current as int)
                == TokenType::Eof {
                old(self).current as int
            } else {
                crate::parsing::sp_synchronize(old(self).tv(), old(self).current + 1)
            }),
    {
        if self.peek_type() == TokenType::Eof {
            return ;
        }
        self.bump();
        #[verifier::loop_isolation(false)]
        loop
            invariant
                self.wf(),
                1 <= self.current,
                self.tokens == old(self).tokens,
                self.statements == old(self).statements,
                crate::parsing::sp_synchronize(old(self).tv(), old(self).current + 1)
                    == crate::parsing::sp_synchronize(self.tv(), self.current as int),
            decreases self.tokens@.len() - self.current,
        {
            let tt = self.peek_type();
            if tt == TokenType::Eof {
                return ;
            }
            if self.tokens[self.current - 1].token_type == TokenType::Semicolon {
                return ;
            }
            if tt == TokenType::Class || tt == TokenType::Fun || tt == TokenType::Var || tt
                == TokenType::For || tt == TokenType::If || tt == TokenType::While || tt
                == TokenType::Print || tt == TokenType::Return {
                proof {
                    assert(crate::parsing::is_statement_start(tt));
                }
                return ;
            }
            proof {
                assert(!crate::parsing::is_statement_start(tt));
            }
            self.bump();
        }
    }
}

/// Build the desugared form of a `for` statement from its parsed pieces:
/// the increment joins the body in a block, a missing condition reads as
/// `true`, and the initializer wraps the loop in a block.
fn assemble_for(init: Option<Stmt>, cond: Option<Expr>, inc: Option<Expr>, body: Stmt) -> (st:
    Stmt)
    ensures
        deep_stmt(st) == crate::parsing::for_desugar(
            match init {
                Option::Some(i0) => Option::Some(deep_stmt(i0)),
                Option::None => Option::None,
            },
            match cond {
                Option::Some(c0) => Option::Some(deep_expr(c0)),
                Option::None => Option::None,
            },
            match inc {
                Option::Some(n0) => Option::Some(deep_expr(n0)),
                Option::None => Option::None,
            },
            deep_stmt(body),
        ),
{
    let ghost gbody = deep_stmt(body);
    let body2 = match inc {
        Option::Some(i) => {
            let ghost gi = deep_expr(i);
            let mut v: Vec<Stmt> = Vec::new();
            v.push(body);
            v.push(Stmt::Expression(i));
            let b = Stmt::Block(v);
            proof {
                assert(v@.len() == 2);
                assert(deep_stmt(b) is Block);
                assert(deep_stmt(b).arrow_Block_0().len() == 2);
                assert(deep_stmt(b).arrow_Block_0()[0] == deep_stmt(v@[0]));
                assert(deep_stmt(b).arrow_Block_0()[1] == deep_stmt(v@[1]));
                assert(deep_stmt(v@[0]) == gbody);
                assert(deep_stmt(v@[1]) == crate::ast::SpecStmt::Expression(gi));
                assert(deep_stmt(b).arrow_Block_0() =~= seq![
                    gbody,
                    crate::ast::SpecStmt::Expression(gi),
                ]);
            }
            b
        },
        Option::None => body,
    };
    let cond2 = match cond {
        Option::Some(c) => c,
        Option::None => Expr::Literal(Literal::Bool(true)),
    };
    let ghost gbody2 = deep_stmt(body2);
    let w = Stmt::While { cond: cond2, body: Box::new(body2) };
    match init {
        Option::Some(st0) => {
            let ghost gst0 = deep_stmt(st0);
            let ghost gw = deep_stmt(w);
            let mut v: Vec<Stmt> = Vec::new();
            v.push(st0);
            v.push(w);
            let b = Stmt::Block(v);
            proof {
                assert(deep_stmt(b).arrow_Block_0() =~= seq![gst0, gw]);
            }
            b
        },
        Option::None => w,
    }
}

} // verus!
