//! The calculator tool: pure arithmetic handlers over 64-bit signed
//! integers, and the dispatcher that validates a call before invoking
//! the matching handler.

use vstd::prelude::*;

use crate::errors::{ErrorCategory, ToolError};

verus! {

/// The operations the calculator exposes.
#[derive(Clone, Copy, Debug, PartialEq, Eq, Structural)]
pub enum CalcOp {
    Add,
    Subtract,
    Multiply,
    Divide,
}

/// A named calculator call as it arrives from the transport: the
/// operation plus the two operands, each `None` when the caller left
/// the required parameter out.
#[derive(Debug)]
pub struct ToolCall {
    pub op: CalcOp,
    pub a: Option<i64>,
    pub b: Option<i64>,
}

/// The calculator service. It holds no state: every handler is a pure
/// function of its operands.
#[derive(Debug, Clone, Copy)]
pub struct Calculator {}

/// Rust's truncating division (rounding toward zero) on mathematical
/// integers, for `b != 0`.
pub open spec fn spec_trunc_div(a: int, b: int) -> int {
    if a >= 0 && b > 0 {
        a / b
    } else if a <= 0 && b < 0 {
        (-a) / (-b)
    } else if a < 0 && b > 0 {
        -((-a) / b)
    } else {
        -(a / (-b))
    }
}

/// What a calculator operation yields on operands `a` and `b`:
/// `Some` of the mathematical result when it is defined and fits in
/// an `i64`, `None` otherwise.
pub open spec fn spec_calc(op: CalcOp, a: int, b: int) -> Option<int> {
    match op {
        CalcOp::Add => if i64::MIN <= a + b <= i64::MAX {
            Some(a + b)
        } else {
            None
        },
        CalcOp::Subtract => if i64::MIN <= a - b <= i64::MAX {
            Some(a - b)
        } else {
            None
        },
        CalcOp::Multiply => if i64::MIN <= a * b <= i64::MAX {
            Some(a * b)
        } else {
            None
        },
        CalcOp::Divide => if b == 0 {
            None
        } else if i64::MIN <= spec_trunc_div(a, b) <= i64::MAX {
            Some(spec_trunc_div(a, b))
        } else {
            None
        },
    }
}

impl Calculator {
    /// Builds the calculator service.
    pub fn new() -> (c: Calculator) {
        Calculator {}
    }

    /// Adds two operands; out-of-range results are rejected rather
    /// than wrapped.
    pub fn add(&self, a: i64, b: i64) -> (r: Result<i64, ToolError>)
        ensures
            i64::MIN <= a + b <= i64::MAX ==> (r matches Ok(v) && v == a + b),
            !(i64::MIN <= a + b <= i64::MAX) ==> (r matches Err(e)
                && e.category == ErrorCategory::InvalidRequest
                && e.message@ == "Result out of range"@),
    {
        match a.checked_add(b) {
            Some(v) => Ok(v),
            None => Err(ToolError::invalid_request("Result out of range".to_owned())),
        }
    }

    /// Subtracts `b` from `a`; out-of-range results are rejected.
    pub fn subtract(&self, a: i64, b: i64) -> (r: Result<i64, ToolError>)
        ensures
            i64::MIN <= a - b <= i64::MAX ==> (r matches Ok(v) && v == a - b),
            !(i64::MIN <= a - b <= i64::MAX) ==> (r matches Err(e)
                && e.category == ErrorCategory::InvalidRequest
                && e.message@ == "Result out of range"@),
    {
        match a.checked_sub(b) {
            Some(v) => Ok(v),
            None => Err(ToolError::invalid_request("Result out of range".to_owned())),
        }
    }

    /// Multiplies two operands; out-of-range results are rejected.
    pub fn multiply(&self, a: i64, b: i64) -> (r: Result<i64, ToolError>)
        ensures
            i64::MIN <= a * b <= i64::MAX ==> (r matches Ok(v) && v == a * b),
            !(i64::MIN <= a * b <= i64::MAX) ==> (r matches Err(e)
                && e.category == ErrorCategory::InvalidRequest
                && e.message@ == "Result out of range"@),
    {
        match a.checked_mul(b) {
            Some(v) => Ok(v),
            None => Err(ToolError::invalid_request("Result out of range".to_owned())),
        }
    }

    /// Divides `a` by `b`, truncating toward zero. Division by zero is
    /// a domain error, never a silently undefined result.
    pub fn divide(&self, a: i64, b: i64) -> (r: Result<i64, ToolError>)
        ensures
            b == 0 ==> (r matches Err(e) && e.category == ErrorCategory::InvalidRequest
                && e.message@ == "Division by zero"@),
            b != 0 && i64::MIN <= spec_trunc_div(a as int, b as int) <= i64::MAX ==> (
            r matches Ok(v) && v == spec_trunc_div(a as int, b as int)),
            b != 0 && !(i64::MIN <= spec_trunc_div(a as int, b as int) <= i64::MAX) ==> (
            r matches Err(e) && e.category == ErrorCategory::InvalidRequest
                && e.message@ == "Result out of range"@),
    {
        if b == 0 {
            Err(ToolError::invalid_request("Division by zero".to_owned()))
        } else {
            match a.checked_div(b) {
                Some(v) => Ok(v),
                None => Err(ToolError::invalid_request("Result out of range".to_owned())),
            }
        }
    }

    /// Dispatches a validated call: a call missing a required operand
    /// is rejected as an invalid request before any handler runs, and
    /// a complete call yields exactly what the handler's own contract
    /// prescribes.
    pub fn handle(&self, call: &ToolCall) -> (r: Result<i64, ToolError>)
        ensures
            match (call.a, call.b) {
                (Some(a), Some(b)) => match spec_calc(call.op, a as int, b as int) {
                    Some(v) => r matches Ok(x) && x == v,
                    None => r matches Err(e) && e.category == ErrorCategory::InvalidRequest,
                },
                _ => r matches Err(e) && e.category == ErrorCategory::InvalidRequest
                    && e.message@ == "Missing required parameter"@,
            },
    {
        let (a, b) = match (call.a, call.b) {
            (Some(a), Some(b)) => (a, b),
            _ => {
                return Err(ToolError::invalid_request("Missing required parameter".to_owned()));
            },
        };
        match call.op {
            CalcOp::Add => self.add(a, b),
            CalcOp::Subtract => self.subtract(a, b),
            CalcOp::Multiply => self.multiply(a, b),
            CalcOp::Divide => self.divide(a, b),
        }
    }
}

/// The operation a tool name denotes, or `None` for a name the
/// calculator does not expose.
pub open spec fn spec_parse_op(name: Seq<char>) -> Option<CalcOp> {
    if name == "add"@ {
        Some(CalcOp::Add)
    } else if name == "subtract"@ {
        Some(CalcOp::Subtract)
    } else if name == "multiply"@ {
        Some(CalcOp::Multiply)
    } else if name == "divide"@ {
        Some(CalcOp::Divide)
    } else {
        None
    }
}

/// Resolves a tool name to the operation it denotes.
pub fn parse_op(name: &str) -> (r: Option<CalcOp>)
    ensures
        r == spec_parse_op(name@),
{
    let n = name.to_owned();
    if n == "add".to_owned() {
        Some(CalcOp::Add)
    } else if n == "subtract".to_owned() {
        Some(CalcOp::Subtract)
    } else if n == "multiply".to_owned() {
        Some(CalcOp::Multiply)
    } else if n == "divide".to_owned() {
        Some(CalcOp::Divide)
    } else {
        None
    }
}

} // verus!
