//! The parser's tree shapes and errors, and the scope arena's API.

use lox::ast::{BinaryOp, Expr, Stmt};
use lox::environment::Environment;
use lox::parser::{ParseOutcome, Parser};
use lox::parsing::ParseError;
use lox::scanner::Scanner;
use lox::token::TokenType;
use lox::value::EnvironmentValue;

const FUEL: u64 = 1_000_000;

fn tokens_of(source: &str) -> Vec<lox::token::Token> {
    let chars: Vec<char> = source.chars().collect();
    let mut sc = Scanner::new();
    let mut err: u8 = 0;
    sc.scan_tokens(&chars, &mut err);
    assert_eq!(err, 0);
    sc.tokens
}

fn parse_expr(source: &str) -> Expr {
    let mut parser = Parser::new(tokens_of(source));
    match parser.expression(FUEL) {
        ParseOutcome::Done(e) => e,
        other => panic!("expression parse failed: {:?}", other),
    }
}

fn parse_program(source: &str) -> Vec<Stmt> {
    let mut parser = Parser::new(tokens_of(source));
    match parser.parse(FUEL) {
        ParseOutcome::Done(()) => parser.statements,
        other => panic!("parse failed: {:?}", other),
    }
}

fn expr_error(source: &str) -> ParseError {
    let mut parser = Parser::new(tokens_of(source));
    match parser.parse(FUEL) {
        ParseOutcome::Failed(pe) => pe,
        other => panic!("expected a parse error, got {:?}", other),
    }
}

#[test]
fn multiplication_binds_tighter_than_addition() {
    match parse_expr("1 + 2 * 3") {
        Expr::Binary { op: BinaryOp::Add, right, .. } => match *right {
            Expr::Binary { op: BinaryOp::Mul, .. } => {}
            other => panic!("right operand is not the product: {:?}", other),
        },
        other => panic!("not an addition at the top: {:?}", other),
    }
}

#[test]
fn binary_operators_are_left_associative() {
    match parse_expr("1 - 2 - 3") {
        Expr::Binary { op: BinaryOp::Sub, left, .. } => match *left {
            Expr::Binary { op: BinaryOp::Sub, .. } => {}
            other => panic!("left operand is not the inner difference: {:?}", other),
        },
        other => panic!("not a subtraction at the top: {:?}", other),
    }
}

#[test]
fn assignment_is_right_associative() {
    match parse_expr("a = b = 1") {
        Expr::Assign { name, value, .. } => {
            assert_eq!(name, "a");
            assert!(matches!(*value, Expr::Assign { .. }));
        }
        other => panic!("not an assignment: {:?}", other),
    }
}

#[test]
fn grouping_overrides_precedence() {
    match parse_expr("(1 + 2) * 3") {
        Expr::Binary { op: BinaryOp::Mul, left, .. } => {
            assert!(matches!(*left, Expr::Grouping(_)));
        }
        other => panic!("not a product at the top: {:?}", other),
    }
}

#[test]
fn invalid_assignment_target_is_fatal() {
    assert!(matches!(expr_error("1 = 2;"), ParseError::InvalidAssignmentTarget { .. }));
}

#[test]
fn missing_closing_paren_is_reported() {
    match expr_error("print (1 + 2;") {
        ParseError::ExpectedToken { expected, .. } => assert_eq!(expected, TokenType::RightParen),
        other => panic!("wrong error: {:?}", other),
    }
}

#[test]
fn missing_semicolon_is_reported() {
    match expr_error("print 1") {
        ParseError::ExpectedToken { expected, .. } => assert_eq!(expected, TokenType::Semicolon),
        other => panic!("wrong error: {:?}", other),
    }
}

#[test]
fn expect_expression_error() {
    assert!(matches!(expr_error("print ;"), ParseError::ExpectedExpression { .. }));
}

#[test]
fn keywords_without_support_do_not_parse_as_expressions() {
    assert!(matches!(expr_error("print this;"), ParseError::ExpectedExpression { .. }));
    assert!(matches!(expr_error("print super;"), ParseError::ExpectedExpression { .. }));
}

#[test]
fn too_many_arguments_is_fatal() {
    let mut call = String::from("f(0");
    for i in 1..=255 {
        call.push_str(&format!(", {}", i));
    }
    call.push_str(");");
    assert!(matches!(expr_error(&call), ParseError::TooManyArguments { .. }));
}

#[test]
fn too_many_parameters_is_fatal() {
    let mut decl = String::from("fun f(p0");
    for i in 1..=250 {
        decl.push_str(&format!(", p{}", i));
    }
    decl.push_str(") { }");
    assert!(matches!(expr_error(&decl), ParseError::TooManyParameters { .. }));
}

#[test]
fn for_desugars_into_block_and_while() {
    let stmts = parse_program("for (var i = 0; i < 3; i = i + 1) print i;");
    assert_eq!(stmts.len(), 1);
    match &stmts[0] {
        Stmt::Block(parts) => {
            assert_eq!(parts.len(), 2);
            assert!(matches!(parts[0], Stmt::Var { .. }));
            match &parts[1] {
                Stmt::While { body, .. } => match &**body {
                    Stmt::Block(inner) => {
                        assert_eq!(inner.len(), 2);
                        assert!(matches!(inner[0], Stmt::Print(_)));
                        assert!(matches!(inner[1], Stmt::Expression(Expr::Assign { .. })));
                    }
                    other => panic!("loop body is not a block: {:?}", other),
                },
                other => panic!("second part is not a while loop: {:?}", other),
            }
        }
        other => panic!("not a block: {:?}", other),
    }
}

#[test]
fn for_without_condition_uses_true() {
    let stmts = parse_program("fun f() { for (;;) return 1; } ");
    assert_eq!(stmts.len(), 1);
    match &stmts[0] {
        Stmt::Function { body, .. } => match &body[0] {
            Stmt::While { cond, .. } => {
                assert!(matches!(cond, Expr::Literal(lox::token::Literal::Bool(true))));
            }
            other => panic!("not a bare while loop: {:?}", other),
        },
        other => panic!("not a function: {:?}", other),
    }
}

#[test]
fn var_without_initializer_reads_as_nil() {
    let stmts = parse_program("var a;");
    match &stmts[0] {
        Stmt::Var { name, init } => {
            assert_eq!(name, "a");
            assert!(matches!(init, Expr::Literal(lox::token::Literal::Nil)));
        }
        other => panic!("not a declaration: {:?}", other),
    }
}

#[test]
fn function_declaration_shape() {
    let stmts = parse_program("fun add(a, b) { return a + b; }");
    match &stmts[0] {
        Stmt::Function { name, params, body } => {
            assert_eq!(name, "add");
            assert_eq!(params.as_slice(), &["a".to_string(), "b".to_string()]);
            assert_eq!(body.len(), 1);
            assert!(matches!(body[0], Stmt::Return { .. }));
        }
        other => panic!("not a function: {:?}", other),
    }
}

#[test]
fn call_line_is_the_closing_paren() {
    match parse_expr("f(\n)") {
        Expr::Call { line, .. } => assert_eq!(line, 2),
        other => panic!("not a call: {:?}", other),
    }
}

#[test]
fn environment_define_get_and_shadowing() {
    let mut env = Environment::new();
    let name = String::from("x");
    env.define(0, &name, EnvironmentValue::Number(1f64.to_bits()));
    assert!(env.check_definition(0, &name));
    let inner = env.push_scope(0);
    assert!(!env.check_definition(inner, &name));
    // Lookup walks the chain.
    match env.get(inner, &name) {
        Some(EnvironmentValue::Number(bits)) => assert_eq!(f64::from_bits(bits), 1.0),
        other => panic!("wrong value: {:?}", other),
    }
    // A definition in the child shadows without touching the parent.
    env.define(inner, &name, EnvironmentValue::Bool(true));
    assert!(matches!(env.get(inner, &name), Some(EnvironmentValue::Bool(true))));
    assert!(matches!(env.get(0, &name), Some(EnvironmentValue::Number(_))));
}

#[test]
fn environment_assign_updates_nearest_definition() {
    let mut env = Environment::new();
    let name = String::from("x");
    env.define(0, &name, EnvironmentValue::Number(1f64.to_bits()));
    let inner = env.push_scope(0);
    assert!(env.assign(inner, &name, EnvironmentValue::Number(2f64.to_bits())));
    match env.get(0, &name) {
        Some(EnvironmentValue::Number(bits)) => assert_eq!(f64::from_bits(bits), 2.0),
        other => panic!("wrong value: {:?}", other),
    }
    let absent = String::from("y");
    assert!(!env.assign(inner, &absent, EnvironmentValue::Nil));
    assert!(env.get(inner, &absent).is_none());
}

#[test]
fn environment_set_enclosing_repoints_a_scope() {
    let mut env = Environment::new();
    let a = env.push_scope(0);
    let b = env.push_scope(a);
    let name = String::from("only_in_global");
    env.define(0, &name, EnvironmentValue::Bool(true));
    assert!(env.get(b, &name).is_some());
    env.set_enclosing(b, 0);
    assert!(env.get(b, &name).is_some());
    assert_eq!(env.scope_count(), 3);
}

#[test]
fn values_compare_and_report_like_the_language() {
    let one = EnvironmentValue::Number(1f64.to_bits());
    let also_one = EnvironmentValue::Number(1f64.to_bits());
    let two = EnvironmentValue::Number(2f64.to_bits());
    assert!(one.equals(&also_one));
    assert!(!one.equals(&two));
    assert!(!one.equals(&EnvironmentValue::Str(String::from("1"))));
    assert!(EnvironmentValue::Nil.equals(&EnvironmentValue::Nil));
    assert!(!EnvironmentValue::Nil.is_truthy());
    assert!(!EnvironmentValue::Bool(false).is_truthy());
    assert!(EnvironmentValue::Number(0f64.to_bits()).is_truthy());
    assert!(EnvironmentValue::Str(String::new()).is_truthy());
    assert!(!one.is_lox_callable());
    assert_eq!(one.arity(), 0);
    let dup = one.duplicate();
    assert!(dup.equals(&one));
}

#[test]
fn clock_value_reports_itself() {
    let c = lox::value::Clock::new();
    assert!(c.is_lox_callable());
    assert_eq!(c.to_string(), "<native fn>");
    let g = EnvironmentValue::Global(lox::value::Global::Clock(c));
    assert!(g.is_lox_callable());
    assert_eq!(g.arity(), 0);
}
