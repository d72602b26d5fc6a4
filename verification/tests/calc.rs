use toolcore::calc::{parse_op, CalcOp, Calculator, ToolCall};
use toolcore::errors::ErrorCategory;

#[test]
fn add_returns_sum() {
    let c = Calculator::new();
    assert_eq!(c.add(2, 3).unwrap(), 5);
    assert_eq!(c.add(-2, 3).unwrap(), 1);
    assert_eq!(c.add(0, 0).unwrap(), 0);
}

#[test]
fn subtract_returns_difference() {
    let c = Calculator::new();
    assert_eq!(c.subtract(10, 4).unwrap(), 6);
    assert_eq!(c.subtract(4, 10).unwrap(), -6);
}

#[test]
fn multiply_returns_product() {
    let c = Calculator::new();
    assert_eq!(c.multiply(6, 7).unwrap(), 42);
    assert_eq!(c.multiply(-6, 7).unwrap(), -42);
}

#[test]
fn divide_truncates_toward_zero() {
    let c = Calculator::new();
    assert_eq!(c.divide(7, 2).unwrap(), 3);
    assert_eq!(c.divide(-7, 2).unwrap(), -3);
    assert_eq!(c.divide(7, -2).unwrap(), -3);
    assert_eq!(c.divide(-7, -2).unwrap(), 3);
    assert_eq!(c.divide(0, 5).unwrap(), 0);
}

#[test]
fn divide_by_zero_is_domain_error() {
    let c = Calculator::new();
    let e = c.divide(1, 0).unwrap_err();
    assert_eq!(e.category, ErrorCategory::InvalidRequest);
    assert_eq!(e.message, "Division by zero");
}

#[test]
fn overflow_is_rejected() {
    let c = Calculator::new();
    let e = c.add(i64::MAX, 1).unwrap_err();
    assert_eq!(e.category, ErrorCategory::InvalidRequest);
    assert_eq!(e.message, "Result out of range");
    assert!(c.subtract(i64::MIN, 1).is_err());
    assert!(c.multiply(i64::MAX, 2).is_err());
    assert!(c.divide(i64::MIN, -1).is_err());
}

#[test]
fn handle_dispatches_to_the_operation() {
    let c = Calculator::new();
    let call = ToolCall { op: CalcOp::Multiply, a: Some(6), b: Some(9) };
    assert_eq!(c.handle(&call).unwrap(), 54);
    let call = ToolCall { op: CalcOp::Divide, a: Some(9), b: Some(3) };
    assert_eq!(c.handle(&call).unwrap(), 3);
}

#[test]
fn handle_rejects_missing_parameters() {
    let c = Calculator::new();
    let call = ToolCall { op: CalcOp::Add, a: Some(1), b: None };
    let e = c.handle(&call).unwrap_err();
    assert_eq!(e.category, ErrorCategory::InvalidRequest);
    assert_eq!(e.message, "Missing required parameter");
    let call = ToolCall { op: CalcOp::Add, a: None, b: Some(1) };
    assert!(c.handle(&call).is_err());
}

#[test]
fn parse_op_resolves_known_names_only() {
    assert_eq!(parse_op("add"), Some(CalcOp::Add));
    assert_eq!(parse_op("subtract"), Some(CalcOp::Subtract));
    assert_eq!(parse_op("multiply"), Some(CalcOp::Multiply));
    assert_eq!(parse_op("divide"), Some(CalcOp::Divide));
    assert_eq!(parse_op("modulo"), None);
    assert_eq!(parse_op(""), None);
}
