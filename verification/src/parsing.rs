//! The grammar, as spec functions: what syntax tree a token stream
//! denotes.
//!
//! This is a recursive-descent parser written as mathematics, one
//! function per precedence level or statement form, mirroring the
//! executable parser that is proved equal to it.  Every function takes
//! fuel and consumes one unit per recursion, so each is a total function;
//! the executable parser reports exhaustion as an outcome of its own.
//!
//! `for` has no syntax-tree node: its specification builds the
//! desugared form — a block holding the initializer and a `while` loop
//! whose body ends with the increment.

use vstd::prelude::*;
use crate::ast::{BinaryOp, LogicalOp, SpecExpr, SpecStmt, UnaryOp};
use crate::token::{SpecLiteral, SpecToken, TokenType};
use crate::lexing::eof_tok;

verus! {

/// A parse error.  Each carries the line of the token that exposed it.
#[derive(Debug, Clone, Copy, PartialEq, Eq, Structural)]
pub enum ParseError {
    ExpectedToken { expected: TokenType, line: u32 },
    ExpectedExpression { line: u32 },
    InvalidAssignmentTarget { line: u32 },
    TooManyParameters { line: u32 },
    TooManyArguments { line: u32 },
}

/// The outcome of a parsing function: a result with the position after
/// it, a parse error, or fuel exhaustion.
pub enum SpecParsed<T> {
    Parsed(T, int),
    Fail(ParseError),
    Out,
}

/// The token at a position; out-of-range positions read as an end marker.
pub open spec fn tk(toks: Seq<SpecToken>, p: int) -> SpecToken {
    if 0 <= p < toks.len() {
        toks[p]
    } else {
        eof_tok(1)
    }
}

/// The kind of the token at a position.
pub open spec fn ttype(toks: Seq<SpecToken>, p: int) -> TokenType {
    tk(toks, p).token_type
}

/// expression := assignment
pub open spec fn sp_expression(toks: Seq<SpecToken>, p: int, fuel: nat) -> SpecParsed<SpecExpr>
    decreases fuel,
{
    if fuel == 0 {
        SpecParsed::Out
    } else {
        sp_assignment(toks, p, (fuel - 1) as nat)
    }
}

/// assignment := IDENT "=" assignment | logicOr.  The left-hand side must
/// have parsed as a variable reference; any other target is fatal.
pub open spec fn sp_assignment(toks: Seq<SpecToken>, p: int, fuel: nat) -> SpecParsed<SpecExpr>
    decreases fuel,
{
    if fuel == 0 {
        SpecParsed::Out
    } else {
        let f = (fuel - 1) as nat;
        match sp_logic_or(toks, p, f) {
            SpecParsed::Parsed(e, p1) => if ttype(toks, p1) == TokenType::Equal {
                match sp_assignment(toks, p1 + 1, f) {
                    SpecParsed::Parsed(v, p2) => match e {
                        SpecExpr::Variable { name, line } => SpecParsed::Parsed(
                            SpecExpr::Assign { name, line, value: Box::new(v) },
                            p2,
                        ),
                        _ => SpecParsed::Fail(
                            ParseError::InvalidAssignmentTarget { line: tk(toks, p1).line },
                        ),
                    },
                    other => other,
                }
            } else {
                SpecParsed::Parsed(e, p1)
            },
            other => other,
        }
    }
}

/// logicOr := logicAnd ("or" logicAnd)*
pub open spec fn sp_logic_or(toks: Seq<SpecToken>, p: int, fuel: nat) -> SpecParsed<SpecExpr>
    decreases fuel,
{
    if fuel == 0 {
        SpecParsed::Out
    } else {
        let f = (fuel - 1) as nat;
        match sp_logic_and(toks, p, f) {
            SpecParsed::Parsed(e, p1) => sp_or_tail(e, toks, p1, f),
            other => other,
        }
    }
}

pub open spec fn sp_or_tail(acc: SpecExpr, toks: Seq<SpecToken>, p: int, fuel: nat) -> SpecParsed<
    SpecExpr,
>
    decreases fuel,
{
    if fuel == 0 {
        SpecParsed::Out
    } else {
        let f = (fuel - 1) as nat;
        if ttype(toks, p) == TokenType::Or {
            match sp_logic_and(toks, p + 1, f) {
                SpecParsed::Parsed(r, p2) => sp_or_tail(
                    SpecExpr::Logical { op: LogicalOp::Or, left: Box::new(acc), right: Box::new(r) },
                    toks,
                    p2,
                    f,
                ),
                other => other,
            }
        } else {
            SpecParsed::Parsed(acc, p)
        }
    }
}

/// logicAnd := equality ("and" equality)*
pub open spec fn sp_logic_and(toks: Seq<SpecToken>, p: int, fuel: nat) -> SpecParsed<SpecExpr>
    decreases fuel,
{
    if fuel == 0 {
        SpecParsed::Out
    } else {
        let f = (fuel - 1) as nat;
        match sp_equality(toks, p, f) {
            SpecParsed::Parsed(e, p1) => sp_and_tail(e, toks, p1, f),
            other => other,
        }
    }
}

pub open spec fn sp_and_tail(acc: SpecExpr, toks: Seq<SpecToken>, p: int, fuel: nat) -> SpecParsed<
    SpecExpr,
>
    decreases fuel,
{
    if fuel == 0 {
        SpecParsed::Out
    } else {
        let f = (fuel - 1) as nat;
        if ttype(toks, p) == TokenType::And {
            match sp_equality(toks, p + 1, f) {
                SpecParsed::Parsed(r, p2) => sp_and_tail(
                    SpecExpr::Logical {
                        op: LogicalOp::And,
                        left: Box::new(acc),
                        right: Box::new(r),
                    },
                    toks,
                    p2,
                    f,
                ),
                other => other,
            }
        } else {
            SpecParsed::Parsed(acc, p)
        }
    }
}

/// The binary operator a token denotes at the equality level, if any.
pub open spec fn equality_op(t: TokenType) -> Option<BinaryOp> {
    if t == TokenType::BangEqual {
        Option::Some(BinaryOp::NotEqual)
    } else if t == TokenType::EqualEqual {
        Option::Some(BinaryOp::EqualEqual)
    } else {
        Option::None
    }
}

/// equality := comparison (("!=" | "==") comparison)*
pub open spec fn sp_equality(toks: Seq<SpecToken>, p: int, fuel: nat) -> SpecParsed<SpecExpr>
    decreases fuel,
{
    if fuel == 0 {
        SpecParsed::Out
    } else {
        let f = (fuel - 1) as nat;
        match sp_comparison(toks, p, f) {
            SpecParsed::Parsed(e, p1) => sp_equality_tail(e, toks, p1, f),
            other => other,
        }
    }
}

pub open spec fn sp_equality_tail(
    acc: SpecExpr,
    toks: Seq<SpecToken>,
    p: int,
    fuel: nat,
) -> SpecParsed<SpecExpr>
    decreases fuel,
{
    if fuel == 0 {
        SpecParsed::Out
    } else {
        let f = (fuel - 1) as nat;
        match equality_op(ttype(toks, p)) {
            Option::Some(op) => match sp_comparison(toks, p + 1, f) {
                SpecParsed::Parsed(r, p2) => sp_equality_tail(
                    SpecExpr::Binary {
                        op,
                        line: tk(toks, p).line,
                        left: Box::new(acc),
                        right: Box::new(r),
                    },
                    toks,
                    p2,
                    f,
                ),
                other => other,
            },
            Option::None => SpecParsed::Parsed(acc, p),
        }
    }
}

/// The binary operator a token denotes at the comparison level, if any.
pub open spec fn comparison_op(t: TokenType) -> Option<BinaryOp> {
    if t == TokenType::Greater {
        Option::Some(BinaryOp::Greater)
    } else if t == TokenType::GreaterEqual {
        Option::Some(BinaryOp::GreaterEqual)
    } else if t == TokenType::Less {
        Option::Some(BinaryOp::Less)
    } else if t == TokenType::LessEqual {
        Option::Some(BinaryOp::LessEqual)
    } else {
        Option::None
    }
}

/// comparison := term ((">" | ">=" | "<" | "<=") term)*
pub open spec fn sp_comparison(toks: Seq<SpecToken>, p: int, fuel: nat) -> SpecParsed<SpecExpr>
    decreases fuel,
{
    if fuel == 0 {
        SpecParsed::Out
    } else {
        let f = (fuel - 1) as nat;
        match sp_term(toks, p, f) {
            SpecParsed::Parsed(e, p1) => sp_comparison_tail(e, toks, p1, f),
            other => other,
        }
    }
}

pub open spec fn sp_comparison_tail(
    acc: SpecExpr,
    toks: Seq<SpecToken>,
    p: int,
    fuel: nat,
) -> SpecParsed<SpecExpr>
    decreases fuel,
{
    if fuel == 0 {
        SpecParsed::Out
    } else {
        let f = (fuel - 1) as nat;
        match comparison_op(ttype(toks, p)) {
            Option::Some(op) => match sp_term(toks, p + 1, f) {
                SpecParsed::Parsed(r, p2) => sp_comparison_tail(
                    SpecExpr::Binary {
                        op,
                        line: tk(toks, p).line,
                        left: Box::new(acc),
                        right: Box::new(r),
                    },
                    toks,
                    p2,
                    f,
                ),
                other => other,
            },
            Option::None => SpecParsed::Parsed(acc, p),
        }
    }
}

/// The binary operator a token denotes at the term level, if any.
pub open spec fn term_op(t: TokenType) -> Option<BinaryOp> {
    if t == TokenType::Minus {
        Option::Some(BinaryOp::Sub)
    } else if t == TokenType::Plus {
        Option::Some(BinaryOp::Add)
    } else {
        Option::None
    }
}

/// term := factor (("-" | "+") factor)*
pub open spec fn sp_term(toks: Seq<SpecToken>, p: int, fuel: nat) -> SpecParsed<SpecExpr>
    decreases fuel,
{
    if fuel == 0 {
        SpecParsed::Out
    } else {
        let f = (fuel - 1) as nat;
        match sp_factor(toks, p, f) {
            SpecParsed::Parsed(e, p1) => sp_term_tail(e, toks, p1, f),
            other => other,
        }
    }
}

pub open spec fn sp_term_tail(acc: SpecExpr, toks: Seq<SpecToken>, p: int, fuel: nat) -> SpecParsed<
    SpecExpr,
>
    decreases fuel,
{
    if fuel == 0 {
        SpecParsed::Out
    } else {
        let f = (fuel - 1) as nat;
        match term_op(ttype(toks, p)) {
            Option::Some(op) => match sp_factor(toks, p + 1, f) {
                SpecParsed::Parsed(r, p2) => sp_term_tail(
                    SpecExpr::Binary {
                        op,
                        line: tk(toks, p).line,
                        left: Box::new(acc),
                        right: Box::new(r),
                    },
                    toks,
                    p2,
                    f,
                ),
                other => other,
            },
            Option::None => SpecParsed::Parsed(acc, p),
        }
    }
}

/// The binary operator a token denotes at the factor level, if any.
pub open spec fn factor_op(t: TokenType) -> Option<BinaryOp> {
    if t == TokenType::Slash {
        Option::Some(BinaryOp::Div)
    } else if t == TokenType::Star {
        Option::Some(BinaryOp::Mul)
    } else {
        Option::None
    }
}

/// factor := unary (("/" | "*") unary)*
pub open spec fn sp_factor(toks: Seq<SpecToken>, p: int, fuel: nat) -> SpecParsed<SpecExpr>
    decreases fuel,
{
    if fuel == 0 {
        SpecParsed::Out
    } else {
        let f = (fuel - 1) as nat;
        match sp_unary(toks, p, f) {
            SpecParsed::Parsed(e, p1) => sp_factor_tail(e, toks, p1, f),
            other => other,
        }
    }
}

pub open spec fn sp_factor_tail(
    acc: SpecExpr,
    toks: Seq<SpecToken>,
    p: int,
    fuel: nat,
) -> SpecParsed<SpecExpr>
    decreases fuel,
{
    if fuel == 0 {
        SpecParsed::Out
    } else {
        let f = (fuel - 1) as nat;
        match factor_op(ttype(toks, p)) {
            Option::Some(op) => match sp_unary(toks, p + 1, f) {
                SpecParsed::Parsed(r, p2) => sp_factor_tail(
                    SpecExpr::Binary {
                        op,
                        line: tk(toks, p).line,
                        left: Box::new(acc),
                        right: Box::new(r),
                    },
                    toks,
                    p2,
                    f,
                ),
                other => other,
            },
            Option::None => SpecParsed::Parsed(acc, p),
        }
    }
}

/// unary := ("!" | "-") unary | call
pub open spec fn sp_unary(toks: Seq<SpecToken>, p: int, fuel: nat) -> SpecParsed<SpecExpr>
    decreases fuel,
{
    if fuel == 0 {
        SpecParsed::Out
    } else {
        let f = (fuel - 1) as nat;
        if ttype(toks, p) == TokenType::Bang || ttype(toks, p) == TokenType::Minus {
            let op = if ttype(toks, p) == TokenType::Bang {
                UnaryOp::Not
            } else {
                UnaryOp::Neg
            };
            match sp_unary(toks, p + 1, f) {
                SpecParsed::Parsed(r, p2) => SpecParsed::Parsed(
                    SpecExpr::Unary { op, line: tk(toks, p).line, operand: Box::new(r) },
                    p2,
                ),
                other => other,
            }
        } else {
            sp_call_expr(toks, p, f)
        }
    }
}

/// call := primary ("(" arguments? ")")*
pub open spec fn sp_call_expr(toks: Seq<SpecToken>, p: int, fuel: nat) -> SpecParsed<SpecExpr>
    decreases fuel,
{
    if fuel == 0 {
        SpecParsed::Out
    } else {
        let f = (fuel - 1) as nat;
        match sp_primary(toks, p, f) {
            SpecParsed::Parsed(e, p1) => sp_call_tail(e, toks, p1, f),
            other => other,
        }
    }
}

pub open spec fn sp_call_tail(acc: SpecExpr, toks: Seq<SpecToken>, p: int, fuel: nat) -> SpecParsed<
    SpecExpr,
>
    decreases fuel,
{
    if fuel == 0 {
        SpecParsed::Out
    } else {
        let f = (fuel - 1) as nat;
        if ttype(toks, p) == TokenType::LeftParen {
            match sp_arguments(toks, p + 1, f) {
                SpecParsed::Parsed(args, p2) => if ttype(toks, p2) == TokenType::RightParen {
                    sp_call_tail(
                        SpecExpr::Call {
                            callee: Box::new(acc),
                            line: tk(toks, p2).line,
                            args,
                        },
                        toks,
                        p2 + 1,
                        f,
                    )
                } else {
                    SpecParsed::Fail(
                        ParseError::ExpectedToken {
                            expected: TokenType::RightParen,
                            line: tk(toks, p2).line,
                        },
                    )
                },
                SpecParsed::Fail(pe) => SpecParsed::Fail(pe),
                SpecParsed::Out => SpecParsed::Out,
            }
        } else {
            SpecParsed::Parsed(acc, p)
        }
    }
}

/// arguments := expression ("," expression)*, at most 255 of them; the
/// closing parenthesis is left for the caller.
pub open spec fn sp_arguments(toks: Seq<SpecToken>, p: int, fuel: nat) -> SpecParsed<Seq<SpecExpr>>
    decreases fuel,
{
    if fuel == 0 {
        SpecParsed::Out
    } else {
        let f = (fuel - 1) as nat;
        if ttype(toks, p) == TokenType::RightParen {
            SpecParsed::Parsed(Seq::empty(), p)
        } else {
            match sp_expression(toks, p, f) {
                SpecParsed::Parsed(e, p1) => sp_args_tail(seq![e], toks, p1, f),
                SpecParsed::Fail(pe) => SpecParsed::Fail(pe),
                SpecParsed::Out => SpecParsed::Out,
            }
        }
    }
}

pub open spec fn sp_args_tail(
    acc: Seq<SpecExpr>,
    toks: Seq<SpecToken>,
    p: int,
    fuel: nat,
) -> SpecParsed<Seq<SpecExpr>>
    decreases fuel,
{
    if fuel == 0 {
        SpecParsed::Out
    } else {
        let f = (fuel - 1) as nat;
        if ttype(toks, p) == TokenType::Comma {
            if acc.len() >= 255 {
                SpecParsed::Fail(ParseError::TooManyArguments { line: tk(toks, p).line })
            } else {
                match sp_expression(toks, p + 1, f) {
                    SpecParsed::Parsed(e, p1) => sp_args_tail(acc.push(e), toks, p1, f),
                    SpecParsed::Fail(pe) => SpecParsed::Fail(pe),
                    SpecParsed::Out => SpecParsed::Out,
                }
            }
        } else {
            SpecParsed::Parsed(acc, p)
        }
    }
}

/// primary := "false" | "true" | "nil" | NUMBER | STRING | IDENT
///          | "(" expression ")"
pub open spec fn sp_primary(toks: Seq<SpecToken>, p: int, fuel: nat) -> SpecParsed<SpecExpr>
    decreases fuel,
{
    if fuel == 0 {
        SpecParsed::Out
    } else {
        let f = (fuel - 1) as nat;
        let t = tk(toks, p);
        if t.token_type == TokenType::False {
            SpecParsed::Parsed(SpecExpr::Literal(SpecLiteral::Bool(false)), p + 1)
        } else if t.token_type == TokenType::True {
            SpecParsed::Parsed(SpecExpr::Literal(SpecLiteral::Bool(true)), p + 1)
        } else if t.token_type == TokenType::Nil {
            SpecParsed::Parsed(SpecExpr::Literal(SpecLiteral::Nil), p + 1)
        } else if t.token_type == TokenType::Number || t.token_type == TokenType::StringLit {
            SpecParsed::Parsed(
                SpecExpr::Literal(
                    match t.literal {
                        Option::Some(l) => l,
                        Option::None => SpecLiteral::Null,
                    },
                ),
                p + 1,
            )
        } else if t.token_type == TokenType::Identifier {
            SpecParsed::Parsed(SpecExpr::Variable { name: t.lexeme, line: t.line }, p + 1)
        } else if t.token_type == TokenType::LeftParen {
            match sp_expression(toks, p + 1, f) {
                SpecParsed::Parsed(e, p1) => if ttype(toks, p1) == TokenType::RightParen {
                    SpecParsed::Parsed(SpecExpr::Grouping(Box::new(e)), p1 + 1)
                } else {
                    SpecParsed::Fail(
                        ParseError::ExpectedToken {
                            expected: TokenType::RightParen,
                            line: tk(toks, p1).line,
                        },
                    )
                },
                other => other,
            }
        } else {
            SpecParsed::Fail(ParseError::ExpectedExpression { line: t.line })
        }
    }
}

/// declaration := funDecl | varDecl | statement
pub open spec fn sp_declaration(toks: Seq<SpecToken>, p: int, fuel: nat) -> SpecParsed<SpecStmt>
    decreases fuel,
{
    if fuel == 0 {
        SpecParsed::Out
    } else {
        let f = (fuel - 1) as nat;
        if ttype(toks, p) == TokenType::Fun {
            sp_function_decl(toks, p + 1, f)
        } else if ttype(toks, p) == TokenType::Var {
            sp_var_declaration(toks, p + 1, f)
        } else {
            sp_statement(toks, p, f)
        }
    }
}

/// funDecl := IDENT "(" params? ")" block, after the `fun` keyword; at
/// most 250 parameters.
pub open spec fn sp_function_decl(toks: Seq<SpecToken>, p: int, fuel: nat) -> SpecParsed<SpecStmt>
    decreases fuel,
{
    if fuel == 0 {
        SpecParsed::Out
    } else {
        let f = (fuel - 1) as nat;
        if ttype(toks, p) != TokenType::Identifier {
            SpecParsed::Fail(
                ParseError::ExpectedToken {
                    expected: TokenType::Identifier,
                    line: tk(toks, p).line,
                },
            )
        } else {
            let name = tk(toks, p).lexeme;
            if ttype(toks, p + 1) != TokenType::LeftParen {
                SpecParsed::Fail(
                    ParseError::ExpectedToken {
                        expected: TokenType::LeftParen,
                        line: tk(toks, p + 1).line,
                    },
                )
            } else {
                match sp_parameters(toks, p + 2, f) {
                    SpecParsed::Parsed(params, p2) => if ttype(toks, p2) != TokenType::RightParen {
                        SpecParsed::Fail(
                            ParseError::ExpectedToken {
                                expected: TokenType::RightParen,
                                line: tk(toks, p2).line,
                            },
                        )
                    } else if ttype(toks, p2 + 1) != TokenType::LeftBrace {
                        SpecParsed::Fail(
                            ParseError::ExpectedToken {
                                expected: TokenType::LeftBrace,
                                line: tk(toks, p2 + 1).line,
                            },
                        )
                    } else {
                        match sp_block_stmts(toks, p2 + 2, f) {
                            SpecParsed::Parsed(body, p3) => SpecParsed::Parsed(
                                SpecStmt::Function { name, params, body },
                                p3,
                            ),
                            SpecParsed::Fail(pe) => SpecParsed::Fail(pe),
                            SpecParsed::Out => SpecParsed::Out,
                        }
                    },
                    SpecParsed::Fail(pe) => SpecParsed::Fail(pe),
                    SpecParsed::Out => SpecParsed::Out,
                }
            }
        }
    }
}

/// params := IDENT ("," IDENT)*, possibly none; the closing parenthesis
/// is left for the caller.
pub open spec fn sp_parameters(toks: Seq<SpecToken>, p: int, fuel: nat) -> SpecParsed<
    Seq<Seq<char>>,
>
    decreases fuel,
{
    if fuel == 0 {
        SpecParsed::Out
    } else {
        let f = (fuel - 1) as nat;
        if ttype(toks, p) == TokenType::RightParen {
            SpecParsed::Parsed(Seq::empty(), p)
        } else if ttype(toks, p) != TokenType::Identifier {
            SpecParsed::Fail(
                ParseError::ExpectedToken {
                    expected: TokenType::Identifier,
                    line: tk(toks, p).line,
                },
            )
        } else {
            sp_params_tail(seq![tk(toks, p).lexeme], toks, p + 1, f)
        }
    }
}

pub open spec fn sp_params_tail(
    acc: Seq<Seq<char>>,
    toks: Seq<SpecToken>,
    p: int,
    fuel: nat,
) -> SpecParsed<Seq<Seq<char>>>
    decreases fuel,
{
    if fuel == 0 {
        SpecParsed::Out
    } else {
        let f = (fuel - 1) as nat;
        if ttype(toks, p) == TokenType::Comma {
            if acc.len() >= 250 {
                SpecParsed::Fail(ParseError::TooManyParameters { line: tk(toks, p).line })
            } else if ttype(toks, p + 1) != TokenType::Identifier {
                SpecParsed::Fail(
                    ParseError::ExpectedToken {
                        expected: TokenType::Identifier,
                        line: tk(toks, p + 1).line,
                    },
                )
            } else {
                sp_params_tail(acc.push(tk(toks, p + 1).lexeme), toks, p + 2, f)
            }
        } else {
            SpecParsed::Parsed(acc, p)
        }
    }
}

/// varDecl := IDENT ("=" expression)? ";", after the `var` keyword; a
/// missing initializer reads as nil.
pub open spec fn sp_var_declaration(toks: Seq<SpecToken>, p: int, fuel: nat) -> SpecParsed<SpecStmt>
    decreases fuel,
{
    if fuel == 0 {
        SpecParsed::Out
    } else {
        let f = (fuel - 1) as nat;
        if ttype(toks, p) != TokenType::Identifier {
            SpecParsed::Fail(
                ParseError::ExpectedToken {
                    expected: TokenType::Identifier,
                    line: tk(toks, p).line,
                },
            )
        } else {
            let name = tk(toks, p).lexeme;
            if ttype(toks, p + 1) == TokenType::Equal {
                match sp_expression(toks, p + 2, f) {
                    SpecParsed::Parsed(e, p1) => if ttype(toks, p1) == TokenType::Semicolon {
                        SpecParsed::Parsed(SpecStmt::Var { name, init: e }, p1 + 1)
                    } else {
                        SpecParsed::Fail(
                            ParseError::ExpectedToken {
                                expected: TokenType::Semicolon,
                                line: tk(toks, p1).line,
                            },
                        )
                    },
                    SpecParsed::Fail(pe) => SpecParsed::Fail(pe),
                    SpecParsed::Out => SpecParsed::Out,
                }
            } else {
                if ttype(toks, p + 1) == TokenType::Semicolon {
                    SpecParsed::Parsed(
                        SpecStmt::Var { name, init: SpecExpr::Literal(SpecLiteral::Nil) },
                        p + 2,
                    )
                } else {
                    SpecParsed::Fail(
                        ParseError::ExpectedToken {
                            expected: TokenType::Semicolon,
                            line: tk(toks, p + 1).line,
                        },
                    )
                }
            }
        }
    }
}

/// statement := exprStmt | printStmt | block | ifStmt | whileStmt
///            | forStmt | returnStmt
pub open spec fn sp_statement(toks: Seq<SpecToken>, p: int, fuel: nat) -> SpecParsed<SpecStmt>
    decreases fuel,
{
    if fuel == 0 {
        SpecParsed::Out
    } else {
        let f = (fuel - 1) as nat;
        if ttype(toks, p) == TokenType::For {
            sp_for_statement(toks, p + 1, f)
        } else if ttype(toks, p) == TokenType::If {
            sp_if_statement(toks, p + 1, f)
        } else if ttype(toks, p) == TokenType::Print {
            match sp_expression(toks, p + 1, f) {
                SpecParsed::Parsed(e, p1) => if ttype(toks, p1) == TokenType::Semicolon {
                    SpecParsed::Parsed(SpecStmt::Print(e), p1 + 1)
                } else {
                    SpecParsed::Fail(
                        ParseError::ExpectedToken {
                            expected: TokenType::Semicolon,
                            line: tk(toks, p1).line,
                        },
                    )
                },
                SpecParsed::Fail(pe) => SpecParsed::Fail(pe),
                SpecParsed::Out => SpecParsed::Out,
            }
        } else if ttype(toks, p) == TokenType::Return {
            sp_return_statement(toks, p + 1, tk(toks, p).line, f)
        } else if ttype(toks, p) == TokenType::While {
            sp_while_statement(toks, p + 1, f)
        } else if ttype(toks, p) == TokenType::LeftBrace {
            match sp_block_stmts(toks, p + 1, f) {
                SpecParsed::Parsed(ss, p1) => SpecParsed::Parsed(SpecStmt::Block(ss), p1),
                SpecParsed::Fail(pe) => SpecParsed::Fail(pe),
                SpecParsed::Out => SpecParsed::Out,
            }
        } else {
            match sp_expression(toks, p, f) {
                SpecParsed::Parsed(e, p1) => if ttype(toks, p1) == TokenType::Semicolon {
                    SpecParsed::Parsed(SpecStmt::Expression(e), p1 + 1)
                } else {
                    SpecParsed::Fail(
                        ParseError::ExpectedToken {
                            expected: TokenType::Semicolon,
                            line: tk(toks, p1).line,
                        },
                    )
                },
                SpecParsed::Fail(pe) => SpecParsed::Fail(pe),
                SpecParsed::Out => SpecParsed::Out,
            }
        }
    }
}

/// whileStmt := "(" expression ")" statement, after the `while` keyword.
pub open spec fn sp_while_statement(toks: Seq<SpecToken>, p: int, fuel: nat) -> SpecParsed<SpecStmt>
    decreases fuel,
{
    if fuel == 0 {
        SpecParsed::Out
    } else {
        let f = (fuel - 1) as nat;
        if ttype(toks, p) != TokenType::LeftParen {
            SpecParsed::Fail(
                ParseError::ExpectedToken {
                    expected: TokenType::LeftParen,
                    line: tk(toks, p).line,
                },
            )
        } else {
            match sp_expression(toks, p + 1, f) {
                SpecParsed::Parsed(cond, p1) => if ttype(toks, p1) != TokenType::RightParen {
                    SpecParsed::Fail(
                        ParseError::ExpectedToken {
                            expected: TokenType::RightParen,
                            line: tk(toks, p1).line,
                        },
                    )
                } else {
                    match sp_statement(toks, p1 + 1, f) {
                        SpecParsed::Parsed(body, p2) => SpecParsed::Parsed(
                            SpecStmt::While { cond, body: Box::new(body) },
                            p2,
                        ),
                        SpecParsed::Fail(pe) => SpecParsed::Fail(pe),
                        SpecParsed::Out => SpecParsed::Out,
                    }
                },
                SpecParsed::Fail(pe) => SpecParsed::Fail(pe),
                SpecParsed::Out => SpecParsed::Out,
            }
        }
    }
}

/// ifStmt := "(" expression ")" statement ("else" statement)?, after the
/// `if` keyword.
pub open spec fn sp_if_statement(toks: Seq<SpecToken>, p: int, fuel: nat) -> SpecParsed<SpecStmt>
    decreases fuel,
{
    if fuel == 0 {
        SpecParsed::Out
    } else {
        let f = (fuel - 1) as nat;
        if ttype(toks, p) != TokenType::LeftParen {
            SpecParsed::Fail(
                ParseError::ExpectedToken {
                    expected: TokenType::LeftParen,
                    line: tk(toks, p).line,
                },
            )
        } else {
            match sp_expression(toks, p + 1, f) {
                SpecParsed::Parsed(cond, p1) => if ttype(toks, p1) != TokenType::RightParen {
                    SpecParsed::Fail(
                        ParseError::ExpectedToken {
                            expected: TokenType::RightParen,
                            line: tk(toks, p1).line,
                        },
                    )
                } else {
                    match sp_statement(toks, p1 + 1, f) {
                        SpecParsed::Parsed(thenb, p2) => if ttype(toks, p2) == TokenType::Else {
                            match sp_statement(toks, p2 + 1, f) {
                                SpecParsed::Parsed(elseb, p3) => SpecParsed::Parsed(
                                    SpecStmt::If {
                                        cond,
                                        then_branch: Box::new(thenb),
                                        else_branch: Option::Some(Box::new(elseb)),
                                    },
                                    p3,
                                ),
                                SpecParsed::Fail(pe) => SpecParsed::Fail(pe),
                                SpecParsed::Out => SpecParsed::Out,
                            }
                        } else {
                            SpecParsed::Parsed(
                                SpecStmt::If {
                                    cond,
                                    then_branch: Box::new(thenb),
                                    else_branch: Option::None,
                                },
                                p2,
                            )
                        },
                        SpecParsed::Fail(pe) => SpecParsed::Fail(pe),
                        SpecParsed::Out => SpecParsed::Out,
                    }
                },
                SpecParsed::Fail(pe) => SpecParsed::Fail(pe),
                SpecParsed::Out => SpecParsed::Out,
            }
        }
    }
}

/// returnStmt := expression? ";", after the `return` keyword; an omitted
/// value reads as nil.  The keyword's line is kept for diagnostics.
pub open spec fn sp_return_statement(
    toks: Seq<SpecToken>,
    p: int,
    kwline: u32,
    fuel: nat,
) -> SpecParsed<SpecStmt>
    decreases fuel,
{
    if fuel == 0 {
        SpecParsed::Out
    } else {
        let f = (fuel - 1) as nat;
        if ttype(toks, p) == TokenType::Semicolon {
            SpecParsed::Parsed(
                SpecStmt::Return { line: kwline, value: SpecExpr::Literal(SpecLiteral::Nil) },
                p + 1,
            )
        } else {
            match sp_expression(toks, p, f) {
                SpecParsed::Parsed(e, p1) => if ttype(toks, p1) == TokenType::Semicolon {
                    SpecParsed::Parsed(SpecStmt::Return { line: kwline, value: e }, p1 + 1)
                } else {
                    SpecParsed::Fail(
                        ParseError::ExpectedToken {
                            expected: TokenType::Semicolon,
                            line: tk(toks, p1).line,
                        },
                    )
                },
                SpecParsed::Fail(pe) => SpecParsed::Fail(pe),
                SpecParsed::Out => SpecParsed::Out,
            }
        }
    }
}

/// forStmt := "(" (varDecl | exprStmt | ";") expression? ";" expression?
/// ")" statement, after the `for` keyword — desugared on the spot: the
/// increment joins the body in a block, a missing condition reads as
/// `true`, and the initializer wraps the loop in a block.
pub open spec fn sp_for_statement(toks: Seq<SpecToken>, p: int, fuel: nat) -> SpecParsed<SpecStmt>
    decreases fuel,
{
    if fuel == 0 {
        SpecParsed::Out
    } else {
        let f = (fuel - 1) as nat;
        if ttype(toks, p) != TokenType::LeftParen {
            SpecParsed::Fail(
                ParseError::ExpectedToken {
                    expected: TokenType::LeftParen,
                    line: tk(toks, p).line,
                },
            )
        } else {
            match sp_for_init(toks, p + 1, f) {
                SpecParsed::Parsed(init, p1) => match sp_for_cond(toks, p1, f) {
                    SpecParsed::Parsed(cond, p2) => match sp_for_inc(toks, p2, f) {
                        SpecParsed::Parsed(inc, p3) => match sp_statement(toks, p3, f) {
                            SpecParsed::Parsed(body, p4) => SpecParsed::Parsed(
                                for_desugar(init, cond, inc, body),
                                p4,
                            ),
                            SpecParsed::Fail(pe) => SpecParsed::Fail(pe),
                            SpecParsed::Out => SpecParsed::Out,
                        },
                        SpecParsed::Fail(pe) => SpecParsed::Fail(pe),
                        SpecParsed::Out => SpecParsed::Out,
                    },
                    SpecParsed::Fail(pe) => SpecParsed::Fail(pe),
                    SpecParsed::Out => SpecParsed::Out,
                },
                SpecParsed::Fail(pe) => SpecParsed::Fail(pe),
                SpecParsed::Out => SpecParsed::Out,
            }
        }
    }
}

/// The initializer phase of a `for` head: nothing, a declaration, or an
/// expression statement.
pub open spec fn sp_for_init(toks: Seq<SpecToken>, p: int, fuel: nat) -> SpecParsed<
    Option<SpecStmt>,
>
    decreases fuel,
{
    if fuel == 0 {
        SpecParsed::Out
    } else {
        let f = (fuel - 1) as nat;
        if ttype(toks, p) == TokenType::Semicolon {
            SpecParsed::Parsed(Option::None, p + 1)
        } else if ttype(toks, p) == TokenType::Var {
            match sp_var_declaration(toks, p + 1, f) {
                SpecParsed::Parsed(st, p1) => SpecParsed::Parsed(Option::Some(st), p1),
                SpecParsed::Fail(pe) => SpecParsed::Fail(pe),
                SpecParsed::Out => SpecParsed::Out,
            }
        } else {
            match sp_expression(toks, p, f) {
                SpecParsed::Parsed(e, p1) => if ttype(toks, p1) == TokenType::Semicolon {
                    SpecParsed::Parsed(Option::Some(SpecStmt::Expression(e)), p1 + 1)
                } else {
                    SpecParsed::Fail(
                        ParseError::ExpectedToken {
                            expected: TokenType::Semicolon,
                            line: tk(toks, p1).line,
                        },
                    )
                },
                SpecParsed::Fail(pe) => SpecParsed::Fail(pe),
                SpecParsed::Out => SpecParsed::Out,
            }
        }
    }
}

/// The condition phase of a `for` head, up to and including its `;`.
pub open spec fn sp_for_cond(toks: Seq<SpecToken>, p: int, fuel: nat) -> SpecParsed<
    Option<SpecExpr>,
>
    decreases fuel,
{
    if fuel == 0 {
        SpecParsed::Out
    } else {
        let f = (fuel - 1) as nat;
        if ttype(toks, p) == TokenType::Semicolon {
            SpecParsed::Parsed(Option::None, p + 1)
        } else {
            match sp_expression(toks, p, f) {
                SpecParsed::Parsed(e, p1) => if ttype(toks, p1) == TokenType::Semicolon {
                    SpecParsed::Parsed(Option::Some(e), p1 + 1)
                } else {
                    SpecParsed::Fail(
                        ParseError::ExpectedToken {
                            expected: TokenType::Semicolon,
                            line: tk(toks, p1).line,
                        },
                    )
                },
                SpecParsed::Fail(pe) => SpecParsed::Fail(pe),
                SpecParsed::Out => SpecParsed::Out,
            }
        }
    }
}

/// The increment phase of a `for` head, up to and including the `)`.
pub open spec fn sp_for_inc(toks: Seq<SpecToken>, p: int, fuel: nat) -> SpecParsed<Option<SpecExpr>>
    decreases fuel,
{
    if fuel == 0 {
        SpecParsed::Out
    } else {
        let f = (fuel - 1) as nat;
        if ttype(toks, p) == TokenType::RightParen {
            SpecParsed::Parsed(Option::None, p + 1)
        } else {
            match sp_expression(toks, p, f) {
                SpecParsed::Parsed(e, p1) => if ttype(toks, p1) == TokenType::RightParen {
                    SpecParsed::Parsed(Option::Some(e), p1 + 1)
                } else {
                    SpecParsed::Fail(
                        ParseError::ExpectedToken {
                            expected: TokenType::RightParen,
                            line: tk(toks, p1).line,
                        },
                    )
                },
                SpecParsed::Fail(pe) => SpecParsed::Fail(pe),
                SpecParsed::Out => SpecParsed::Out,
            }
        }
    }
}

/// How a `for` head and body desugar into blocks and a `while` loop.
pub open spec fn for_desugar(
    init: Option<SpecStmt>,
    cond: Option<SpecExpr>,
    inc: Option<SpecExpr>,
    body: SpecStmt,
) -> SpecStmt {
    let body2 = match inc {
        Option::Some(i) => SpecStmt::Block(seq![body, SpecStmt::Expression(i)]),
        Option::None => body,
    };
    let cond2 = match cond {
        Option::Some(c) => c,
        Option::None => SpecExpr::Literal(SpecLiteral::Bool(true)),
    };
    let w = SpecStmt::While { cond: cond2, body: Box::new(body2) };
    match init {
        Option::Some(st) => SpecStmt::Block(seq![st, w]),
        Option::None => w,
    }
}

/// block := "{" declaration* "}", after the opening brace; the closing
/// brace is consumed.
pub open spec fn sp_block_stmts(toks: Seq<SpecToken>, p: int, fuel: nat) -> SpecParsed<
    Seq<SpecStmt>,
>
    decreases fuel,
{
    if fuel == 0 {
        SpecParsed::Out
    } else {
        let f = (fuel - 1) as nat;
        if ttype(toks, p) == TokenType::RightBrace {
            SpecParsed::Parsed(Seq::empty(), p + 1)
        } else if ttype(toks, p) == TokenType::Eof {
            SpecParsed::Fail(
                ParseError::ExpectedToken {
                    expected: TokenType::RightBrace,
                    line: tk(toks, p).line,
                },
            )
        } else {
            match sp_declaration(toks, p, f) {
                SpecParsed::Parsed(st, p1) => match sp_block_stmts(toks, p1, f) {
                    SpecParsed::Parsed(ss, p2) => SpecParsed::Parsed(seq![st] + ss, p2),
                    SpecParsed::Fail(pe) => SpecParsed::Fail(pe),
                    SpecParsed::Out => SpecParsed::Out,
                },
                SpecParsed::Fail(pe) => SpecParsed::Fail(pe),
                SpecParsed::Out => SpecParsed::Out,
            }
        }
    }
}

/// The keywords a statement may start with: where error recovery can
/// plausibly resume.
pub open spec fn is_statement_start(t: TokenType) -> bool {
    t == TokenType::Class || t == TokenType::Fun || t == TokenType::Var || t == TokenType::For || t
        == TokenType::If || t == TokenType::While || t == TokenType::Print || t
        == TokenType::Return
}

/// Where error recovery stops, scanning from position `p`: at the end
/// marker, just past a semicolon, or at a statement-starting keyword.
pub open spec fn sp_synchronize(toks: Seq<SpecToken>, p: int) -> int
    decreases toks.len() - p,
{
    if !(0 <= p < toks.len()) || ttype(toks, p) == TokenType::Eof {
        p
    } else if ttype(toks, p - 1) == TokenType::Semicolon {
        p
    } else if is_statement_start(ttype(toks, p)) {
        p
    } else {
        sp_synchronize(toks, p + 1)
    }
}

/// program := declaration* END
pub open spec fn sp_program(toks: Seq<SpecToken>, p: int, fuel: nat) -> SpecParsed<Seq<SpecStmt>>
    decreases fuel,
{
    if fuel == 0 {
        SpecParsed::Out
    } else {
        let f = (fuel - 1) as nat;
        if ttype(toks, p) == TokenType::Eof {
            SpecParsed::Parsed(Seq::empty(), p)
        } else {
            match sp_declaration(toks, p, f) {
                SpecParsed::Parsed(st, p1) => match sp_program(toks, p1, f) {
                    SpecParsed::Parsed(ss, p2) => SpecParsed::Parsed(seq![st] + ss, p2),
                    SpecParsed::Fail(pe) => SpecParsed::Fail(pe),
                    SpecParsed::Out => SpecParsed::Out,
                },
                SpecParsed::Fail(pe) => SpecParsed::Fail(pe),
                SpecParsed::Out => SpecParsed::Out,
            }
        }
    }
}

} // verus!
