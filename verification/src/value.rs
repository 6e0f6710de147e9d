//! Runtime values and runtime errors.
//!
//! The value space is a closed tagged union over numbers, strings,
//! booleans, nil, callables (user functions and classes) and class
//! instances.  Callables and instances live in arenas owned by the
//! evaluator; a value holds only the arena index, which models the
//! shared, mutable nature of environments and instances without
//! interior mutability.

use vstd::prelude::*;

verus! {

/// A runtime value of the interpreted language.
#[derive(Debug, PartialEq)]
pub enum Value {
    Num(i64),
    Str(String),
    Bool(bool),
    Nil,
    /// Index of a user function (a closure) in the evaluator's
    /// function arena.
    Function(usize),
    /// Index of a class in the evaluator's class arena.
    Class(usize),
    /// Index of an instance in the evaluator's instance arena.
    Instance(usize),
}

/// Ghost mirror of [`Value`].
pub ghost enum SpecValue {
    Num(i64),
    Str(Seq<char>),
    Bool(bool),
    Nil,
    Function(usize),
    Class(usize),
    Instance(usize),
}

pub open spec fn value_view(v: Value) -> SpecValue {
    match v {
        Value::Num(n) => SpecValue::Num(n),
        Value::Str(s) => SpecValue::Str(s@),
        Value::Bool(b) => SpecValue::Bool(b),
        Value::Nil => SpecValue::Nil,
        Value::Function(i) => SpecValue::Function(i),
        Value::Class(i) => SpecValue::Class(i),
        Value::Instance(i) => SpecValue::Instance(i),
    }
}

impl View for Value {
    type V = SpecValue;

    open spec fn view(&self) -> SpecValue {
        value_view(*self)
    }
}

impl Clone for Value {
    fn clone(&self) -> (res: Self)
        ensures
            res == *self,
    {
        match self {
            Value::Num(n) => Value::Num(*n),
            Value::Str(s) => Value::Str(s.clone()),
            Value::Bool(b) => Value::Bool(*b),
            Value::Nil => Value::Nil,
            Value::Function(i) => Value::Function(*i),
            Value::Class(i) => Value::Class(*i),
            Value::Instance(i) => Value::Instance(*i),
        }
    }
}

/// A runtime (evaluation-time) failure.  Each is fatal to the current
/// top-level execution unit; the host driver catches and reports it.
///
/// `Internal` marks an inconsistency that a correct resolver can never
/// produce, such as a resolved lexical address that does not hold the
/// name.  `StackOverflow` surfaces exhaustion of the step budget the
/// driver granted, so runaway recursion or loops fail distinctly
/// instead of crashing the host.
#[derive(Clone, Copy, Debug, PartialEq, Eq, Structural)]
pub enum RuntimeError {
    UndefinedVariable,
    UndefinedProperty,
    TypeError,
    ArityError,
    NotCallable,
    DivisionByZero,
    Overflow,
    StackOverflow,
    Internal,
}

/// Result of executing one statement: either fall through to the next
/// statement, or unwind with a `return` value to the nearest enclosing
/// function call.
#[derive(Debug)]
pub enum Flow {
    Normal,
    Ret(Value),
}

/// Ghost mirror of [`Flow`].
pub ghost enum SpecFlow {
    Normal,
    Ret(SpecValue),
}

pub open spec fn flow_view(f: Flow) -> SpecFlow {
    match f {
        Flow::Normal => SpecFlow::Normal,
        Flow::Ret(v) => SpecFlow::Ret(value_view(v)),
    }
}

impl View for Flow {
    type V = SpecFlow;

    open spec fn view(&self) -> SpecFlow {
        flow_view(*self)
    }
}

pub open spec fn res_value_view(r: Result<Value, RuntimeError>) -> Result<SpecValue, RuntimeError> {
    match r {
        Ok(v) => Ok(value_view(v)),
        Err(e) => Err(e),
    }
}

pub open spec fn res_flow_view(r: Result<Flow, RuntimeError>) -> Result<SpecFlow, RuntimeError> {
    match r {
        Ok(f) => Ok(flow_view(f)),
        Err(e) => Err(e),
    }
}

pub open spec fn opt_value_view(r: Option<Value>) -> Option<SpecValue> {
    match r {
        Some(v) => Some(value_view(v)),
        None => None,
    }
}

/// The truthiness rule: `nil` and boolean `false` are falsy; every
/// other value — including `0` and the empty string — is truthy.
pub open spec fn spec_truthy(v: SpecValue) -> bool {
    match v {
        SpecValue::Nil => false,
        SpecValue::Bool(b) => b,
        _ => true,
    }
}

pub fn truthy(v: &Value) -> (r: bool)
    ensures
        r == spec_truthy(v@),
{
    match v {
        Value::Nil => false,
        Value::Bool(b) => *b,
        _ => true,
    }
}

/// Language-level equality: defined over all value kinds, with no
/// implicit coercion — values of different kinds are never equal.
/// Strings compare by contents; functions, classes and instances by
/// identity.
pub open spec fn spec_values_equal(a: SpecValue, b: SpecValue) -> bool {
    match (a, b) {
        (SpecValue::Num(x), SpecValue::Num(y)) => x == y,
        (SpecValue::Str(x), SpecValue::Str(y)) => x == y,
        (SpecValue::Bool(x), SpecValue::Bool(y)) => x == y,
        (SpecValue::Nil, SpecValue::Nil) => true,
        (SpecValue::Function(x), SpecValue::Function(y)) => x == y,
        (SpecValue::Class(x), SpecValue::Class(y)) => x == y,
        (SpecValue::Instance(x), SpecValue::Instance(y)) => x == y,
        _ => false,
    }
}

pub fn values_equal(a: &Value, b: &Value) -> (r: bool)
    ensures
        r == spec_values_equal(a@, b@),
{
    match (a, b) {
        (Value::Num(x), Value::Num(y)) => *x == *y,
        (Value::Str(x), Value::Str(y)) => x.eq(y),
        (Value::Bool(x), Value::Bool(y)) => *x == *y,
        (Value::Nil, Value::Nil) => true,
        (Value::Function(x), Value::Function(y)) => *x == *y,
        (Value::Class(x), Value::Class(y)) => *x == *y,
        (Value::Instance(x), Value::Instance(y)) => *x == *y,
        _ => false,
    }
}

} // verus!
