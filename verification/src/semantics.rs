//! The ghost big-step semantics of the language.
//!
//! Every contract of the evaluator is stated against the functions in
//! this module.  The semantics is total: it is indexed by a step
//! budget (`fuel`); when the budget runs out the result is a
//! `StackOverflow` error, which is the resource-guard behaviour the
//! evaluator exposes for runaway recursion or loops.  States that a
//! correct resolver and evaluator can never build (a dangling arena
//! index, a resolved address that misses its binding) map to the
//! `Internal` error rather than being assumed away, so the semantics
//! needs no well-formedness precondition.
//!
//! The global scope is always the environment at index `0`.

use vstd::prelude::*;

use crate::environment::SpecEnv;
use crate::environment::ancestor_at;
use crate::environment::assoc_find;
use crate::environment::entries_find;
use crate::environment::entries_update;
use crate::environment::spec_assign_at;
use crate::environment::spec_define;
use crate::environment::spec_get_at;
use crate::resolver::Resolution;
use crate::resolver::table_lookup;
use crate::statement::ExprId;
use crate::statement::SpecExpr;
use crate::statement::SpecStmt;
use crate::token::TokenType;
use crate::value::RuntimeError;
use crate::value::SpecFlow;
use crate::value::SpecValue;
use crate::value::spec_truthy;
use crate::value::spec_values_equal;

verus! {

/// A user function value: parameter names, shared body, and the
/// captured environment of its declaration site.
#[verifier::ext_equal]
pub ghost struct SpecFun {
    pub params: Seq<Seq<char>>,
    pub body: Seq<SpecStmt>,
    pub env: usize,
}

/// A class value: its name and its method table.
#[verifier::ext_equal]
pub ghost struct SpecClass {
    pub name: Seq<char>,
    pub methods: Seq<(Seq<char>, usize)>,
}

/// An instance: its field map and the class it was created from.
#[verifier::ext_equal]
pub ghost struct SpecInstance {
    pub class: usize,
    pub fields: Seq<(Seq<char>, SpecValue)>,
}

/// The whole mutable state of an evaluation: the environment arena,
/// the three value arenas, and the stream of printed values.
#[verifier::ext_equal]
pub ghost struct SpecState {
    pub envs: Seq<SpecEnv>,
    pub functions: Seq<SpecFun>,
    pub classes: Seq<SpecClass>,
    pub instances: Seq<SpecInstance>,
    pub output: Seq<SpecValue>,
}

/// A fresh state: one empty global scope and nothing else.
pub open spec fn init_state() -> SpecState {
    SpecState {
        envs: seq![SpecEnv { entries: Seq::empty(), enclosing: None }],
        functions: Seq::empty(),
        classes: Seq::empty(),
        instances: Seq::empty(),
        output: Seq::empty(),
    }
}

/// Truncating integer division, as the machine division behaves.
pub open spec fn div_trunc(x: int, d: int) -> int {
    if x == 0 {
        0
    } else if x > 0 && d > 0 {
        x / d
    } else if x < 0 && d < 0 {
        ((x * -1) / (d * -1))
    } else if x < 0 {
        ((x * -1) / d) * -1
    } else {
        (x / (d * -1)) * -1
    }
}

/// The binary operators.  Arithmetic requires numbers, except `+`
/// which also concatenates two strings; comparison requires numbers;
/// equality covers all kinds with no coercion.  Arithmetic that leaves
/// the machine range fails with `Overflow`; division by zero is its
/// own error.  An operator token that is not a binary operator marks
/// a malformed tree.
pub open spec fn eval_binary(op: TokenType, a: SpecValue, b: SpecValue) -> Result<
    SpecValue,
    RuntimeError,
> {
    match op {
        TokenType::Plus => match (a, b) {
            (SpecValue::Num(x), SpecValue::Num(y)) => if i64::MIN <= x + y <= i64::MAX {
                Ok(SpecValue::Num((x + y) as i64))
            } else {
                Err(RuntimeError::Overflow)
            },
            (SpecValue::Str(x), SpecValue::Str(y)) => Ok(SpecValue::Str(x + y)),
            _ => Err(RuntimeError::TypeError),
        },
        TokenType::Minus => match (a, b) {
            (SpecValue::Num(x), SpecValue::Num(y)) => if i64::MIN <= x - y <= i64::MAX {
                Ok(SpecValue::Num((x - y) as i64))
            } else {
                Err(RuntimeError::Overflow)
            },
            _ => Err(RuntimeError::TypeError),
        },
        TokenType::Star => match (a, b) {
            (SpecValue::Num(x), SpecValue::Num(y)) => if i64::MIN <= x * y <= i64::MAX {
                Ok(SpecValue::Num((x * y) as i64))
            } else {
                Err(RuntimeError::Overflow)
            },
            _ => Err(RuntimeError::TypeError),
        },
        TokenType::Slash => match (a, b) {
            (SpecValue::Num(x), SpecValue::Num(y)) => if y == 0 {
                Err(RuntimeError::DivisionByZero)
            } else {
                let q = div_trunc(x as int, y as int);
                if i64::MIN <= q <= i64::MAX {
                    Ok(SpecValue::Num(q as i64))
                } else {
                    Err(RuntimeError::Overflow)
                }
            },
            _ => Err(RuntimeError::TypeError),
        },
        TokenType::Greater => match (a, b) {
            (SpecValue::Num(x), SpecValue::Num(y)) => Ok(SpecValue::Bool(x > y)),
            _ => Err(RuntimeError::TypeError),
        },
        TokenType::GreaterEqual => match (a, b) {
            (SpecValue::Num(x), SpecValue::Num(y)) => Ok(SpecValue::Bool(x >= y)),
            _ => Err(RuntimeError::TypeError),
        },
        TokenType::Less => match (a, b) {
            (SpecValue::Num(x), SpecValue::Num(y)) => Ok(SpecValue::Bool(x < y)),
            _ => Err(RuntimeError::TypeError),
        },
        TokenType::LessEqual => match (a, b) {
            (SpecValue::Num(x), SpecValue::Num(y)) => Ok(SpecValue::Bool(x <= y)),
            _ => Err(RuntimeError::TypeError),
        },
        TokenType::EqualEqual => Ok(SpecValue::Bool(spec_values_equal(a, b))),
        TokenType::BangEqual => Ok(SpecValue::Bool(!spec_values_equal(a, b))),
        _ => Err(RuntimeError::Internal),
    }
}

/// The unary operators: numeric negation requires a number; logical
/// negation applies truthiness to any value.
pub open spec fn eval_unary(op: TokenType, v: SpecValue) -> Result<SpecValue, RuntimeError> {
    match op {
        TokenType::Minus => match v {
            SpecValue::Num(x) => if x == i64::MIN {
                Err(RuntimeError::Overflow)
            } else {
                Ok(SpecValue::Num((-x) as i64))
            },
            _ => Err(RuntimeError::TypeError),
        },
        TokenType::Bang => Ok(SpecValue::Bool(!spec_truthy(v))),
        _ => Err(RuntimeError::Internal),
    }
}

/// Read a variable through its recorded resolution: an exact-hop
/// lookup for local addresses, a dynamic lookup in the global scope
/// otherwise.  A node missing from the table is a resolver defect.
pub open spec fn lookup_variable(
    st: SpecState,
    t: Seq<(ExprId, Resolution)>,
    id: ExprId,
    name: Seq<char>,
    cur: usize,
) -> Result<SpecValue, RuntimeError> {
    match table_lookup(t, id) {
        Some(Resolution::Local(h)) => spec_get_at(st.envs, cur, h, name),
        Some(Resolution::Global) => if st.envs.len() == 0 {
            Err(RuntimeError::Internal)
        } else {
            match entries_find(st.envs[0].entries, name) {
                Some(v) => Ok(v),
                None => Err(RuntimeError::UndefinedVariable),
            }
        },
        None => Err(RuntimeError::Internal),
    }
}

/// Write a variable through its recorded resolution, mirroring
/// [`lookup_variable`].
pub open spec fn assign_variable(
    st: SpecState,
    t: Seq<(ExprId, Resolution)>,
    id: ExprId,
    name: Seq<char>,
    cur: usize,
    v: SpecValue,
) -> Result<Seq<SpecEnv>, RuntimeError> {
    match table_lookup(t, id) {
        Some(Resolution::Local(h)) => spec_assign_at(st.envs, cur, h, name, v),
        Some(Resolution::Global) => if st.envs.len() == 0 {
            Err(RuntimeError::Internal)
        } else {
            match entries_update(st.envs[0].entries, name, v) {
                Some(es) => Ok(
                    st.envs.update(
                        0,
                        SpecEnv { entries: es, enclosing: st.envs[0].enclosing },
                    ),
                ),
                None => Err(RuntimeError::UndefinedVariable),
            }
        },
        None => Err(RuntimeError::Internal),
    }
}

/// Property read: fields first, then a method of the instance's class
/// bound to the instance; neither is `UndefinedProperty`.
pub open spec fn get_property(st: SpecState, ii: usize, name: Seq<char>) -> (SpecState, Result<
    SpecValue,
    RuntimeError,
>) {
    if ii >= st.instances.len() {
        (st, Err(RuntimeError::Internal))
    } else {
        let inst = st.instances[ii as int];
        match entries_find(inst.fields, name) {
            Some(v) => (st, Ok(v)),
            None => {
                if inst.class >= st.classes.len() {
                    (st, Err(RuntimeError::Internal))
                } else {
                    match assoc_find(st.classes[inst.class as int].methods, name) {
                        Some(fi) => bind_method(st, fi, ii),
                        None => (st, Err(RuntimeError::UndefinedProperty)),
                    }
                }
            },
        }
    }
}

/// Bind a method to a receiver: a fresh scope binding the implicit
/// receiver name sits between the method's captured environment and
/// its future call frame.
pub open spec fn bind_method(st: SpecState, fi: usize, ii: usize) -> (SpecState, Result<
    SpecValue,
    RuntimeError,
>) {
    if fi >= st.functions.len() {
        (st, Err(RuntimeError::Internal))
    } else {
        let f = st.functions[fi as int];
        let recv = SpecEnv {
            entries: seq![("this"@, SpecValue::Instance(ii))],
            enclosing: Some(f.env),
        };
        let new_env = st.envs.len() as usize;
        let bound = SpecFun { params: f.params, body: f.body, env: new_env };
        let fidx = st.functions.len() as usize;
        let st2 = SpecState {
            envs: st.envs.push(recv),
            functions: st.functions.push(bound),
            ..st
        };
        (st2, Ok(SpecValue::Function(fidx)))
    }
}

/// Field write: always writes the field, shadowing any method of the
/// same name; the written value is the result.
pub open spec fn set_field(st: SpecState, ii: usize, name: Seq<char>, v: SpecValue) -> (SpecState,
    Result<SpecValue, RuntimeError>,
) {
    if ii >= st.instances.len() {
        (st, Err(RuntimeError::Internal))
    } else {
        let inst = st.instances[ii as int];
        let fields2 = match entries_update(inst.fields, name, v) {
            Some(fs) => fs,
            None => inst.fields.push((name, v)),
        };
        let st2 = SpecState {
            instances: st.instances.update(
                ii as int,
                SpecInstance { class: inst.class, fields: fields2 },
            ),
            ..st
        };
        (st2, Ok(v))
    }
}

/// The call frame's initial bindings: each parameter to its argument.
pub open spec fn zip_params(params: Seq<Seq<char>>, args: Seq<SpecValue>) -> Seq<
    (Seq<char>, SpecValue),
> {
    Seq::new(
        params.len(),
        |i: int| (params[i], if 0 <= i < args.len() { args[i] } else { SpecValue::Nil }),
    )
}

/// Turn each `Function` entry of a class body into a function value
/// closing over the class-declaration environment, and build the
/// method table.
pub open spec fn declare_methods(st: SpecState, ms: Seq<SpecStmt>, i: int, cur: usize) -> (
    SpecState,
    Seq<(Seq<char>, usize)>,
)
    decreases ms.len() - i,
{
    if i < 0 || i >= ms.len() {
        (st, Seq::empty())
    } else {
        match ms[i] {
            SpecStmt::Function { name, parameters, body } => {
                let idx = st.functions.len() as usize;
                let st2 = SpecState {
                    functions: st.functions.push(
                        SpecFun { params: parameters, body, env: cur },
                    ),
                    ..st
                };
                let (st3, rest) = declare_methods(st2, ms, i + 1, cur);
                (st3, seq![(name, idx)] + rest)
            },
            _ => declare_methods(st, ms, i + 1, cur),
        }
    }
}

/// Evaluate one expression.  The pair is the state after the
/// evaluation and its result.
pub open spec fn eval_expr(
    st: SpecState,
    t: Seq<(ExprId, Resolution)>,
    e: SpecExpr,
    cur: usize,
    fuel: u64,
) -> (SpecState, Result<SpecValue, RuntimeError>)
    decreases fuel,
{
    if fuel == 0 {
        (st, Err(RuntimeError::StackOverflow))
    } else {
        let fl = (fuel - 1) as u64;
        match e {
            SpecExpr::Number(n) => (st, Ok(SpecValue::Num(n))),
            SpecExpr::Str(s) => (st, Ok(SpecValue::Str(s))),
            SpecExpr::Boolean(b) => (st, Ok(SpecValue::Bool(b))),
            SpecExpr::Nil => (st, Ok(SpecValue::Nil)),
            SpecExpr::Grouping { expression } => eval_expr(st, t, *expression, cur, fl),
            SpecExpr::Unary { op, right } => {
                let (st1, r1) = eval_expr(st, t, *right, cur, fl);
                match r1 {
                    Ok(v) => (st1, eval_unary(op, v)),
                    Err(er) => (st1, Err(er)),
                }
            },
            SpecExpr::Binary { left, op, right } => {
                let (st1, r1) = eval_expr(st, t, *left, cur, fl);
                match r1 {
                    Ok(lv) => {
                        let (st2, r2) = eval_expr(st1, t, *right, cur, fl);
                        match r2 {
                            Ok(rv) => (st2, eval_binary(op, lv, rv)),
                            Err(er) => (st2, Err(er)),
                        }
                    },
                    Err(er) => (st1, Err(er)),
                }
            },
            SpecExpr::Logical { left, op, right } => {
                match op {
                    TokenType::And => {
                        let (st1, r1) = eval_expr(st, t, *left, cur, fl);
                        match r1 {
                            Ok(lv) => if !spec_truthy(lv) {
                                (st1, Ok(lv))
                            } else {
                                eval_expr(st1, t, *right, cur, fl)
                            },
                            Err(er) => (st1, Err(er)),
                        }
                    },
                    TokenType::Or => {
                        let (st1, r1) = eval_expr(st, t, *left, cur, fl);
                        match r1 {
                            Ok(lv) => if spec_truthy(lv) {
                                (st1, Ok(lv))
                            } else {
                                eval_expr(st1, t, *right, cur, fl)
                            },
                            Err(er) => (st1, Err(er)),
                        }
                    },
                    _ => (st, Err(RuntimeError::Internal)),
                }
            },
            SpecExpr::Variable { id, name } => (st, lookup_variable(st, t, id, name, cur)),
            SpecExpr::Assign { id, name, value } => {
                let (st1, r1) = eval_expr(st, t, *value, cur, fl);
                match r1 {
                    Ok(v) => match assign_variable(st1, t, id, name, cur, v) {
                        Ok(envs2) => (SpecState { envs: envs2, ..st1 }, Ok(v)),
                        Err(er) => (st1, Err(er)),
                    },
                    Err(er) => (st1, Err(er)),
                }
            },
            SpecExpr::Call { callee, arguments } => {
                let (st1, rc) = eval_expr(st, t, *callee, cur, fl);
                match rc {
                    Ok(cv) => {
                        let (st2, ra) = eval_exprs(st1, t, arguments, 0, cur, fl);
                        match ra {
                            Ok(vals) => call_value(st2, t, cv, vals, fl),
                            Err(er) => (st2, Err(er)),
                        }
                    },
                    Err(er) => (st1, Err(er)),
                }
            },
            SpecExpr::Get { object, name } => {
                let (st1, ro) = eval_expr(st, t, *object, cur, fl);
                match ro {
                    Ok(SpecValue::Instance(ii)) => get_property(st1, ii, name),
                    Ok(_) => (st1, Err(RuntimeError::TypeError)),
                    Err(er) => (st1, Err(er)),
                }
            },
            SpecExpr::SetProp { object, name, value } => {
                let (st1, ro) = eval_expr(st, t, *object, cur, fl);
                match ro {
                    Ok(SpecValue::Instance(ii)) => {
                        let (st2, rv) = eval_expr(st1, t, *value, cur, fl);
                        match rv {
                            Ok(v) => set_field(st2, ii, name, v),
                            Err(er) => (st2, Err(er)),
                        }
                    },
                    Ok(_) => (st1, Err(RuntimeError::TypeError)),
                    Err(er) => (st1, Err(er)),
                }
            },
        }
    }
}

/// Evaluate the expressions `es[i..]` left to right.
pub open spec fn eval_exprs(
    st: SpecState,
    t: Seq<(ExprId, Resolution)>,
    es: Seq<SpecExpr>,
    i: int,
    cur: usize,
    fuel: u64,
) -> (SpecState, Result<Seq<SpecValue>, RuntimeError>)
    decreases fuel,
{
    if fuel == 0 {
        (st, Err(RuntimeError::StackOverflow))
    } else if i < 0 || i >= es.len() {
        (st, Ok(Seq::empty()))
    } else {
        let fl = (fuel - 1) as u64;
        let (st1, r1) = eval_expr(st, t, es[i], cur, fl);
        match r1 {
            Ok(v) => {
                let (st2, rr) = eval_exprs(st1, t, es, i + 1, cur, fl);
                match rr {
                    Ok(vs) => (st2, Ok(seq![v] + vs)),
                    Err(er) => (st2, Err(er)),
                }
            },
            Err(er) => (st1, Err(er)),
        }
    }
}

/// Invoke a callable value: a user function runs its body in a fresh
/// frame; a class builds an instance, running its designated
/// initializer (`init`) when it has one; anything else is not
/// callable.  With no initializer the class takes no arguments.
pub open spec fn call_value(
    st: SpecState,
    t: Seq<(ExprId, Resolution)>,
    callee: SpecValue,
    args: Seq<SpecValue>,
    fuel: u64,
) -> (SpecState, Result<SpecValue, RuntimeError>)
    decreases fuel,
{
    if fuel == 0 {
        (st, Err(RuntimeError::StackOverflow))
    } else {
        let fl = (fuel - 1) as u64;
        match callee {
            SpecValue::Function(fi) => call_function(st, t, fi, args, fl),
            SpecValue::Class(ci) => call_class(st, t, ci, args, fl),
            _ => (st, Err(RuntimeError::NotCallable)),
        }
    }
}

/// Construct an instance of class `ci`: a fresh empty instance, whose
/// designated initializer (`init`), when the class has one, runs
/// bound to it with the call's arguments; without one the call takes
/// no arguments.  The result is the instance.
pub open spec fn call_class(
    st: SpecState,
    t: Seq<(ExprId, Resolution)>,
    ci: usize,
    args: Seq<SpecValue>,
    fuel: u64,
) -> (SpecState, Result<SpecValue, RuntimeError>)
    decreases fuel,
{
    if fuel == 0 {
        (st, Err(RuntimeError::StackOverflow))
    } else if ci >= st.classes.len() {
        (st, Err(RuntimeError::Internal))
    } else {
        let fl = (fuel - 1) as u64;
        let ii = st.instances.len() as usize;
        let st1 = SpecState {
            instances: st.instances.push(SpecInstance { class: ci, fields: Seq::empty() }),
            ..st
        };
        match assoc_find(st1.classes[ci as int].methods, "init"@) {
            Some(init_fi) => {
                let (st2, rb) = bind_method(st1, init_fi, ii);
                match rb {
                    Ok(SpecValue::Function(bfi)) => {
                        let (st3, rr) = call_function(st2, t, bfi, args, fl);
                        match rr {
                            Ok(_) => (st3, Ok(SpecValue::Instance(ii))),
                            Err(er) => (st3, Err(er)),
                        }
                    },
                    Ok(_) => (st2, Err(RuntimeError::Internal)),
                    Err(er) => (st2, Err(er)),
                }
            },
            None => if args.len() != 0 {
                (st1, Err(RuntimeError::ArityError))
            } else {
                (st1, Ok(SpecValue::Instance(ii)))
            },
        }
    }
}

/// Invoke a user function: exactly as many arguments as parameters,
/// bound in a fresh frame whose enclosing scope is the captured
/// environment; a `return` unwinds to here, a body that falls off the
/// end yields nil.
pub open spec fn call_function(
    st: SpecState,
    t: Seq<(ExprId, Resolution)>,
    fi: usize,
    args: Seq<SpecValue>,
    fuel: u64,
) -> (SpecState, Result<SpecValue, RuntimeError>)
    decreases fuel,
{
    if fuel == 0 {
        (st, Err(RuntimeError::StackOverflow))
    } else if fi >= st.functions.len() {
        (st, Err(RuntimeError::Internal))
    } else {
        let fl = (fuel - 1) as u64;
        let f = st.functions[fi as int];
        if args.len() != f.params.len() {
            (st, Err(RuntimeError::ArityError))
        } else {
            let frame = SpecEnv { entries: zip_params(f.params, args), enclosing: Some(f.env) };
            let new_env = st.envs.len() as usize;
            let st1 = SpecState { envs: st.envs.push(frame), ..st };
            let (st2, rf) = exec_stmts(st1, t, f.body, 0, new_env, fl);
            match rf {
                Ok(SpecFlow::Normal) => (st2, Ok(SpecValue::Nil)),
                Ok(SpecFlow::Ret(v)) => (st2, Ok(v)),
                Err(er) => (st2, Err(er)),
            }
        }
    }
}

/// Execute one statement.
pub open spec fn exec_stmt(
    st: SpecState,
    t: Seq<(ExprId, Resolution)>,
    s: SpecStmt,
    cur: usize,
    fuel: u64,
) -> (SpecState, Result<SpecFlow, RuntimeError>)
    decreases fuel,
{
    if fuel == 0 {
        (st, Err(RuntimeError::StackOverflow))
    } else {
        let fl = (fuel - 1) as u64;
        match s {
            SpecStmt::Expression { expression } => {
                let (st1, r1) = eval_expr(st, t, expression, cur, fl);
                match r1 {
                    Ok(_) => (st1, Ok(SpecFlow::Normal)),
                    Err(er) => (st1, Err(er)),
                }
            },
            SpecStmt::Print { expression } => {
                let (st1, r1) = eval_expr(st, t, expression, cur, fl);
                match r1 {
                    Ok(v) => (SpecState { output: st1.output.push(v), ..st1 }, Ok(SpecFlow::Normal)),
                    Err(er) => (st1, Err(er)),
                }
            },
            SpecStmt::Var { name, initializer } => {
                let (st1, r1) = match initializer {
                    Some(e) => eval_expr(st, t, e, cur, fl),
                    None => (st, Ok(SpecValue::Nil)),
                };
                match r1 {
                    Ok(v) => match spec_define(st1.envs, cur, name, v) {
                        Some(envs2) => (SpecState { envs: envs2, ..st1 }, Ok(SpecFlow::Normal)),
                        None => (st1, Err(RuntimeError::Internal)),
                    },
                    Err(er) => (st1, Err(er)),
                }
            },
            SpecStmt::Block { statements } => {
                let child = st.envs.len() as usize;
                let st1 = SpecState {
                    envs: st.envs.push(SpecEnv { entries: Seq::empty(), enclosing: Some(cur) }),
                    ..st
                };
                exec_stmts(st1, t, statements, 0, child, fl)
            },
            SpecStmt::If { condition, then_branch, else_branch } => {
                let (st1, rc) = eval_expr(st, t, condition, cur, fl);
                match rc {
                    Ok(cv) => if spec_truthy(cv) {
                        exec_stmt(st1, t, *then_branch, cur, fl)
                    } else {
                        match else_branch {
                            Some(e) => exec_stmt(st1, t, *e, cur, fl),
                            None => (st1, Ok(SpecFlow::Normal)),
                        }
                    },
                    Err(er) => (st1, Err(er)),
                }
            },
            SpecStmt::While { condition, body } => {
                let (st1, rc) = eval_expr(st, t, condition, cur, fl);
                match rc {
                    Ok(cv) => if !spec_truthy(cv) {
                        (st1, Ok(SpecFlow::Normal))
                    } else {
                        let (st2, rb) = exec_stmt(st1, t, *body, cur, fl);
                        match rb {
                            Ok(SpecFlow::Normal) => exec_stmt(st2, t, s, cur, fl),
                            Ok(SpecFlow::Ret(v)) => (st2, Ok(SpecFlow::Ret(v))),
                            Err(er) => (st2, Err(er)),
                        }
                    },
                    Err(er) => (st1, Err(er)),
                }
            },
            SpecStmt::Function { name, parameters, body } => {
                let fidx = st.functions.len() as usize;
                let st1 = SpecState {
                    functions: st.functions.push(
                        SpecFun { params: parameters, body, env: cur },
                    ),
                    ..st
                };
                match spec_define(st1.envs, cur, name, SpecValue::Function(fidx)) {
                    Some(envs2) => (SpecState { envs: envs2, ..st1 }, Ok(SpecFlow::Normal)),
                    None => (st1, Err(RuntimeError::Internal)),
                }
            },
            SpecStmt::Return { value } => {
                let (st1, r1) = match value {
                    Some(e) => eval_expr(st, t, e, cur, fl),
                    None => (st, Ok(SpecValue::Nil)),
                };
                match r1 {
                    Ok(v) => (st1, Ok(SpecFlow::Ret(v))),
                    Err(er) => (st1, Err(er)),
                }
            },
            SpecStmt::Class { name, methods } => {
                let (st1, mtab) = declare_methods(st, methods, 0, cur);
                let cidx = st1.classes.len() as usize;
                let st2 = SpecState {
                    classes: st1.classes.push(SpecClass { name, methods: mtab }),
                    ..st1
                };
                match spec_define(st2.envs, cur, name, SpecValue::Class(cidx)) {
                    Some(envs2) => (SpecState { envs: envs2, ..st2 }, Ok(SpecFlow::Normal)),
                    None => (st2, Err(RuntimeError::Internal)),
                }
            },
        }
    }
}

/// Execute the statements `ss[i..]` in order.  A `return` flow stops
/// the sequence at once: the remaining statements are not executed.
pub open spec fn exec_stmts(
    st: SpecState,
    t: Seq<(ExprId, Resolution)>,
    ss: Seq<SpecStmt>,
    i: int,
    cur: usize,
    fuel: u64,
) -> (SpecState, Result<SpecFlow, RuntimeError>)
    decreases fuel,
{
    if fuel == 0 {
        (st, Err(RuntimeError::StackOverflow))
    } else if i < 0 || i >= ss.len() {
        (st, Ok(SpecFlow::Normal))
    } else {
        let fl = (fuel - 1) as u64;
        let (st1, r1) = exec_stmt(st, t, ss[i], cur, fl);
        match r1 {
            Ok(SpecFlow::Normal) => exec_stmts(st1, t, ss, i + 1, cur, fl),
            Ok(SpecFlow::Ret(v)) => (st1, Ok(SpecFlow::Ret(v))),
            Err(er) => (st1, Err(er)),
        }
    }
}

/// Run a whole program against the global scope.  A `return` flow at
/// the top level marks a resolver defect (resolution rejects it), so
/// it maps to `Internal`.
pub open spec fn run_program(
    st: SpecState,
    t: Seq<(ExprId, Resolution)>,
    prog: Seq<SpecStmt>,
    fuel: u64,
) -> (SpecState, Result<(), RuntimeError>) {
    let (st1, r) = exec_stmts(st, t, prog, 0, 0usize, fuel);
    match r {
        Ok(SpecFlow::Normal) => (st1, Ok(())),
        Ok(SpecFlow::Ret(_)) => (st1, Err(RuntimeError::Internal)),
        Err(er) => (st1, Err(er)),
    }
}

} // verus!
