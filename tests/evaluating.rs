use rlox::interpreter::{
    negate, number_less, number_less_equal, numbers_equal, Arithmetic, Interpreter, Kind, Value,
};
use rlox::decimal::decimal_string;
use rlox::lox::{Lox, LoxError};
use rlox::expr::{BinaryOp, BinaryOpType, UnaryOp, UnaryOpType};

struct Binary64;

impl Arithmetic for Binary64 {
    fn literal(&self, text: &String) -> u64 {
        text.parse::<f64>().unwrap().to_bits()
    }
    fn parse(&self, text: &String) -> Option<u64> {
        text.parse::<f64>().ok().map(f64::to_bits)
    }
    fn add(&self, a: u64, b: u64) -> u64 {
        (f64::from_bits(a) + f64::from_bits(b)).to_bits()
    }
    fn sub(&self, a: u64, b: u64) -> u64 {
        (f64::from_bits(a) - f64::from_bits(b)).to_bits()
    }
    fn mul(&self, a: u64, b: u64) -> u64 {
        (f64::from_bits(a) * f64::from_bits(b)).to_bits()
    }
    fn div(&self, a: u64, b: u64) -> u64 {
        (f64::from_bits(a) / f64::from_bits(b)).to_bits()
    }
}

fn run(src: &str) -> Result<Value, LoxError> {
    Lox::new().run(&Binary64, src.as_bytes().to_vec())
}

fn num(src: &str) -> f64 {
    match run(src) {
        Ok(Value::Number(n)) => f64::from_bits(n),
        other => panic!("{} gave {:?}", src, other),
    }
}

fn boolean(src: &str) -> bool {
    match run(src) {
        Ok(Value::Bool(b)) => b,
        other => panic!("{} gave {:?}", src, other),
    }
}

fn runtime_error(src: &str) -> rlox::interpreter::RuntimeError {
    match run(src) {
        Err(LoxError::Runtime(e)) => e,
        other => panic!("{} gave {:?}", src, other),
    }
}

fn bits(x: f64) -> u64 {
    x.to_bits()
}

#[test]
fn precedence_evaluates_to_seven() {
    assert_eq!(num("1 + 2 * 3"), 7.0);
}

#[test]
fn left_associative_subtraction_evaluates_to_three() {
    assert_eq!(num("8 - 3 - 2"), 3.0);
}

#[test]
fn grouping_evaluates_to_nine() {
    assert_eq!(num("(1 + 2) * 3"), 9.0);
}

#[test]
fn number_equals_string_that_spells_it() {
    assert!(boolean("5 == \"5\""));
    assert!(boolean("\"5.0\" == 5"));
    assert!(!boolean("5 == \"abc\""));
    assert!(boolean("5 != \"abc\""));
}

#[test]
fn nil_is_not_false() {
    assert!(!boolean("nil == false"));
    assert!(boolean("nil == nil"));
    assert!(!boolean("true == 1"));
}

#[test]
fn equality_of_like_values() {
    assert!(boolean("\"ab\" == \"ab\""));
    assert!(!boolean("\"ab\" == \"abc\""));
    assert!(boolean("true == true"));
    assert!(boolean("1.5 == 1.5"));
    assert!(boolean("0 == -0"));
    assert!(!boolean("0/0 == 0/0"));
    assert!(boolean("0/0 != 0/0"));
}

#[test]
fn subtracting_from_a_string_is_a_type_error() {
    let e = runtime_error("\"a\" - 1");
    assert_eq!(e.message, "Operands of '-' must be numbers.");
    assert_eq!((e.line, e.col), (1, 5));
    assert_eq!(e.operands.len(), 2);
    assert!(matches!(&e.operands[0], Value::String(s) if s == "a"));
    assert!(matches!(e.operands[1], Value::Number(n) if n == bits(1.0)));
}

#[test]
fn multiplying_a_boolean_is_a_type_error() {
    let e = runtime_error("true * 2");
    assert_eq!(e.message, "Operands of '*' must be numbers.");
}

#[test]
fn adding_mixed_kinds_is_a_type_error() {
    let e = runtime_error("1 + \"a\"");
    assert_eq!(e.message, "Operands of '+' must be two numbers or two strings.");
}

#[test]
fn negating_a_string_is_a_type_error() {
    let e = runtime_error("-\"a\"");
    assert_eq!(e.message, "Operand of '-' must be a number.");
    assert_eq!(e.operands.len(), 1);
}

#[test]
fn comparing_non_numbers_is_a_type_error() {
    let e = runtime_error("\"a\" < \"b\"");
    assert_eq!(e.message, "Operands of '<' must be numbers.");
}

#[test]
fn first_type_error_wins() {
    let e = runtime_error("(true - 1) + (nil * 2)");
    assert_eq!(e.message, "Operands of '-' must be numbers.");
    assert_eq!(e.col, 7);
}

#[test]
fn division_by_zero_is_infinity() {
    let v = num("1 / 0");
    assert!(v.is_infinite() && v > 0.0);
    assert!(num("-1 / 0").is_infinite() && num("-1 / 0") < 0.0);
    assert!(num("0 / 0").is_nan());
}

#[test]
fn evaluation_is_repeatable() {
    for _ in 0..3 {
        assert_eq!(num("42"), 42.0);
    }
}

#[test]
fn string_concatenation() {
    match run("\"foo\" + \"bar\"") {
        Ok(Value::String(s)) => assert_eq!(s, "foobar"),
        other => panic!("unexpected {:?}", other),
    }
}

#[test]
fn comparisons() {
    assert!(boolean("1 < 2"));
    assert!(!boolean("2 < 2"));
    assert!(boolean("2 <= 2"));
    assert!(boolean("3 > 2"));
    assert!(boolean("2 >= 2"));
    assert!(!boolean("-1 >= 0"));
    assert!(!boolean("0/0 < 1"));
}

#[test]
fn not_uses_truthiness() {
    assert!(boolean("!nil"));
    assert!(!boolean("!true"));
    assert!(boolean("!0"));
    assert!(!boolean("!1"));
    assert!(!boolean("!\"\""));
    assert!(boolean("!!\"x\""));
}

#[test]
fn negation_and_grouping() {
    assert_eq!(num("-(2 + 3)"), -5.0);
    assert_eq!(num("--4"), 4.0);
    assert_eq!(num("10 / 4"), 2.5);
}

#[test]
fn literals_evaluate_to_themselves() {
    assert!(matches!(run("nil"), Ok(Value::Nil)));
    assert!(matches!(run("true"), Ok(Value::Bool(true))));
    match run("\"s\"") {
        Ok(Value::String(s)) => assert_eq!(s, "s"),
        other => panic!("unexpected {:?}", other),
    }
}

#[test]
fn run_reports_scan_and_parse_errors() {
    assert!(matches!(run("\"abc"), Err(LoxError::Scan(_))));
    assert!(matches!(run("(1 + 2"), Err(LoxError::Parse(_))));
}

#[test]
fn truthiness_of_values() {
    assert!(!Interpreter::is_truthy(&Value::Nil));
    assert!(!Interpreter::is_truthy(&Value::Bool(false)));
    assert!(!Interpreter::is_truthy(&Value::Number(bits(0.0))));
    assert!(!Interpreter::is_truthy(&Value::Number(bits(-0.0))));
    assert!(Interpreter::is_truthy(&Value::Number(bits(f64::NAN))));
    assert!(Interpreter::is_truthy(&Value::String(String::new())));
}

#[test]
fn equality_with_parsed_operand() {
    let n = Value::Number(bits(5.0));
    let s = Value::String("5".to_string());
    assert!(Interpreter::is_equal_parsed(&n, &s, Some(bits(5.0))));
    assert!(!Interpreter::is_equal_parsed(&n, &s, None));
    assert!(Interpreter::is_equal(&Binary64, &s, &n));
    assert!(!Interpreter::is_equal(&Binary64, &Value::Nil, &Value::Bool(false)));
}

#[test]
fn binary64_bit_operations() {
    assert_eq!(negate(bits(1.5)), bits(-1.5));
    assert_eq!(negate(bits(-0.0)), bits(0.0));
    assert!(numbers_equal(bits(0.0), bits(-0.0)));
    assert!(!numbers_equal(bits(f64::NAN), bits(f64::NAN)));
    assert!(number_less(bits(-2.0), bits(-1.0)));
    assert!(number_less(bits(-1.0), bits(0.5)));
    assert!(!number_less(bits(-0.0), bits(0.0)));
    assert!(number_less_equal(bits(-0.0), bits(0.0)));
    assert!(number_less(bits(1.0), bits(f64::INFINITY)));
    assert!(!number_less_equal(bits(f64::NAN), bits(1.0)));
}

#[test]
fn operators_on_values() {
    let op = BinaryOp { ty: BinaryOpType::Greater, line: 1, col: 1 };
    let r = Interpreter::interpret_binary(&Binary64, op, &Value::Number(bits(2.0)), &Value::Number(bits(1.0)));
    assert!(matches!(r, Ok(Value::Bool(true))));
    let un = UnaryOp { ty: UnaryOpType::Minus, line: 2, col: 4 };
    let e = Interpreter::interpret_unary(un, &Value::Nil).unwrap_err();
    assert_eq!((e.line, e.col), (2, 4));
    assert_eq!(Value::Number(1).kind(), Kind::Number);
}

#[test]
fn diagnostics_text() {
    let mut lox = Lox::new();
    assert!(!lox.had_error);
    assert_eq!(lox.report(12, "at end", "Expect expression."), "[line 12] Error at end: Expect expression.");
    assert!(lox.had_error);
    let mut lox = Lox::new();
    assert_eq!(lox.error(3, "oops"), "[line 3] Error : oops");
    assert!(lox.had_error);
}

#[test]
fn decimal_text_of_numbers() {
    assert_eq!(decimal_string(0), "0");
    assert_eq!(decimal_string(7), "7");
    assert_eq!(decimal_string(1204), "1204");
    assert_eq!(decimal_string(usize::MAX), usize::MAX.to_string());
}

#[test]
fn interpreter_new_is_stateless() {
    let _ = Interpreter::new();
    let _ = Interpreter::new();
}
