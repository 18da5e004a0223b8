//! End-to-end program runs: scan, parse, execute, and check what was
//! printed.

use lox::evaluator::{Evaluator, RuntimeError, StmtOutcome};
use lox::parser::{ParseOutcome, Parser};
use lox::scanner::Scanner;
use lox::value::EnvironmentValue;

const FUEL: u64 = 1_000_000;

fn scan(source: &str) -> (Vec<lox::token::Token>, u8) {
    let chars: Vec<char> = source.chars().collect();
    let mut sc = Scanner::new();
    let mut err: u8 = 0;
    sc.scan_tokens(&chars, &mut err);
    (sc.tokens, err)
}

fn run(source: &str) -> (Vec<EnvironmentValue>, StmtOutcome) {
    let (tokens, err) = scan(source);
    assert_eq!(err, 0, "lex error in test program");
    let mut parser = Parser::new(tokens);
    match parser.parse(FUEL) {
        ParseOutcome::Done(()) => {}
        other => panic!("parse failed: {:?}", other),
    }
    let mut ev = Evaluator::new();
    ev.define_clock();
    ev.prime_clock();
    let outcome = ev.run(&parser.statements, FUEL);
    (ev.outputs, outcome)
}

/// Renders a printed value the way the `print` statement does.
fn render(v: &EnvironmentValue) -> String {
    match v {
        EnvironmentValue::Nil => String::from("nil"),
        EnvironmentValue::Bool(b) => format!("{}", b),
        EnvironmentValue::Number(bits) => format!("{}", f64::from_bits(*bits)),
        EnvironmentValue::Str(s) => s.clone(),
        EnvironmentValue::Function { name, .. } => format!("<fn {}>", name),
        EnvironmentValue::Global(g) => match g {
            lox::value::Global::Clock(c) => c.to_string(),
        },
    }
}

fn printed(source: &str) -> Vec<String> {
    let (outputs, outcome) = run(source);
    assert!(matches!(outcome, StmtOutcome::Completed), "program did not finish: {:?}", outcome);
    outputs.iter().map(render).collect()
}

fn failed(source: &str) -> (Vec<EnvironmentValue>, RuntimeError) {
    let (outputs, outcome) = run(source);
    match outcome {
        StmtOutcome::Fault(e) => (outputs, e),
        other => panic!("expected a runtime error, got {:?}", other),
    }
}

#[test]
fn precedence_mul_before_add() {
    assert_eq!(printed("print 1 + 2 * 3;"), vec!["7"]);
}

#[test]
fn block_shadowing_and_restoration() {
    assert_eq!(printed("var a = 1; { var a = 2; print a; } print a;"), vec!["2", "1"]);
}

#[test]
fn closure_counter_observes_mutation() {
    let src = "fun make() { var i = 0; fun inc() { i = i + 1; return i; } return inc; } \
               var c = make(); print c(); print c(); print c();";
    assert_eq!(printed(src), vec!["1", "2", "3"]);
}

#[test]
fn for_loop_counts() {
    assert_eq!(printed("for (var i = 0; i < 3; i = i + 1) print i;"), vec!["0", "1", "2"]);
}

#[test]
fn string_concatenation() {
    assert_eq!(printed("print \"foo\" + \"bar\";"), vec!["foobar"]);
}

#[test]
fn fibonacci_recursion() {
    assert_eq!(printed("fun fib(n) { if (n < 2) return n; return fib(n-1) + fib(n-2); } print fib(10);"),
        vec!["55"]);
}

#[test]
fn string_minus_number_is_operand_error() {
    let (_, e) = failed("print \"a\" - 1;");
    assert!(e.message().contains("Operand"));
    assert_eq!(e.message(), "Operands must be numbers.");
    assert_eq!(e.line(), 1);
}

#[test]
fn undefined_variable_error() {
    let (_, e) = failed("print x;");
    assert_eq!(e.message(), "Undefined variable 'x'.");
    assert_eq!(e.line(), 1);
}

#[test]
fn var_with_missing_initializer_is_parse_error() {
    let (tokens, err) = scan("var a = ;");
    assert_eq!(err, 0);
    let mut parser = Parser::new(tokens);
    assert!(matches!(parser.parse(FUEL), ParseOutcome::Failed(_)));
}

#[test]
fn outputs_before_runtime_error_are_kept() {
    let (outputs, e) = failed("print 1; print y;");
    assert_eq!(outputs.len(), 1);
    assert_eq!(render(&outputs[0]), "1");
    assert_eq!(e.message(), "Undefined variable 'y'.");
}

#[test]
fn short_circuit_or_skips_right_effect() {
    let src = "var a = 0; fun bump() { a = a + 1; return true; } \
               var r = true or bump(); print a; print r;";
    assert_eq!(printed(src), vec!["0", "true"]);
}

#[test]
fn short_circuit_and_skips_right_effect() {
    let src = "var a = 0; fun bump() { a = a + 1; return true; } \
               var r = false and bump(); print a; print r;";
    assert_eq!(printed(src), vec!["0", "false"]);
}

#[test]
fn logical_operators_return_operand_not_boolean() {
    assert_eq!(printed("print nil or \"yes\"; print 0 and 1; print nil and 1;"),
        vec!["yes", "1", "nil"]);
}

#[test]
fn truthiness_only_nil_and_false_are_falsey() {
    assert_eq!(printed("print !nil; print !false; print !0; print !\"\"; print !true;"),
        vec!["true", "true", "false", "false", "false"]);
}

#[test]
fn return_unwinds_nested_blocks() {
    let src = "fun f() { { { return 42; } } return 0; } print f();";
    assert_eq!(printed(src), vec!["42"]);
}

#[test]
fn return_without_value_yields_nil() {
    assert_eq!(printed("fun f() { return; } print f();"), vec!["nil"]);
}

#[test]
fn falling_off_function_end_yields_nil() {
    assert_eq!(printed("fun f() { 1 + 1; } print f();"), vec!["nil"]);
}

#[test]
fn while_loop_runs_and_stops() {
    assert_eq!(printed("var i = 0; while (i < 2) { print i; i = i + 1; } print \"done\";"),
        vec!["0", "1", "done"]);
}

#[test]
fn if_else_branches() {
    assert_eq!(printed("if (1 < 2) print \"a\"; else print \"b\"; if (2 < 1) print \"c\"; else print \"d\";"),
        vec!["a", "d"]);
}

#[test]
fn assignment_returns_assigned_value() {
    assert_eq!(printed("var a = 1; print a = 5; print a;"), vec!["5", "5"]);
}

#[test]
fn assignment_inside_block_updates_outer() {
    assert_eq!(printed("var a = 1; { a = 2; } print a;"), vec!["2"]);
}

#[test]
fn arithmetic_on_decimals() {
    assert_eq!(printed("print 1.5 + 1.25; print 7 / 2; print 3 * 1.5; print 5 - 0.5;"),
        vec!["2.75", "3.5", "4.5", "4.5"]);
}

#[test]
fn unary_negation_and_not() {
    assert_eq!(printed("print -3; print -(-2.5); print !1;"), vec!["-3", "2.5", "false"]);
}

#[test]
fn negating_a_string_is_operand_error() {
    let (_, e) = failed("print -\"a\";");
    assert_eq!(e.message(), "Operand must be a number.");
}

#[test]
fn equality_is_typed_and_total() {
    assert_eq!(printed("print 1 == 1; print 1 == 2; print 1 == \"1\"; print nil == nil; print \"a\" != \"b\";"),
        vec!["true", "false", "false", "true", "true"]);
}

#[test]
fn nan_is_not_equal_to_itself() {
    assert_eq!(printed("print 0/0 == 0/0;"), vec!["false"]);
}

#[test]
fn comparisons_on_numbers() {
    assert_eq!(printed("print 1 < 2; print 2 <= 2; print 3 > 4; print 4 >= 4;"),
        vec!["true", "true", "false", "true"]);
}

#[test]
fn comparing_strings_is_operand_error() {
    let (_, e) = failed("print \"a\" < \"b\";");
    assert_eq!(e.message(), "Operands must be numbers.");
}

#[test]
fn calling_a_number_is_not_callable_error() {
    let (_, e) = failed("var a = 1; a();");
    assert_eq!(e.message(), "Can only call functions and classes.");
}

#[test]
fn arity_mismatch_error_message() {
    let (_, e) = failed("fun f(a, b) { return a; } f(1);");
    assert_eq!(e.message(), "Expected 2 arguments but got 1.");
}

#[test]
fn clock_arity_mismatch() {
    let (_, e) = failed("clock(1);");
    assert_eq!(e.message(), "Expected 0 arguments but got 1.");
}

#[test]
fn clock_returns_a_positive_number_of_seconds() {
    let (outputs, outcome) = run("print clock() > 0; print clock() == clock();");
    assert!(matches!(outcome, StmtOutcome::Completed));
    assert_eq!(render(&outputs[0]), "true");
    // The clock is sampled once per run, so two reads agree.
    assert_eq!(render(&outputs[1]), "true");
}

#[test]
fn function_values_print_and_compare_by_identity() {
    assert_eq!(printed("fun f() { return 1; } print f; print f == f;"), vec!["<fn f>", "true"]);
    assert_eq!(printed("fun g() { } fun h() { } print g == h;"), vec!["false"]);
}

#[test]
fn redeclaration_overwrites() {
    assert_eq!(printed("var a = 1; var a = 2; print a;"), vec!["2"]);
}

#[test]
fn recursion_by_name_inside_body() {
    assert_eq!(printed("fun down(n) { if (n <= 0) return 0; return down(n - 1); } print down(5);"),
        vec!["0"]);
}

#[test]
fn for_without_increment_or_initializer() {
    assert_eq!(printed("var i = 0; for (; i < 2;) { print i; i = i + 1; }"), vec!["0", "1"]);
}

#[test]
fn division_by_zero_is_infinite_not_an_error() {
    assert_eq!(printed("print 1 / 0;"), vec!["inf"]);
}

#[test]
fn fuel_exhaustion_is_reported_for_endless_loop() {
    let (tokens, err) = scan("while (true) { }");
    assert_eq!(err, 0);
    let mut parser = Parser::new(tokens);
    assert!(matches!(parser.parse(FUEL), ParseOutcome::Done(())));
    let mut ev = Evaluator::new();
    let outcome = ev.run(&parser.statements, 10_000);
    assert!(matches!(outcome, StmtOutcome::Exhausted));
}

#[test]
fn top_level_return_surfaces_as_returning() {
    let (tokens, _) = scan("return 1;");
    let mut parser = Parser::new(tokens);
    assert!(matches!(parser.parse(FUEL), ParseOutcome::Done(())));
    let mut ev = Evaluator::new();
    let outcome = ev.run(&parser.statements, FUEL);
    assert!(matches!(outcome, StmtOutcome::Returning(_)));
}
