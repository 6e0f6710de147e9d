//! The evaluator: walks resolved statements against the environment
//! arena, implementing control flow, closures and class dispatch.
//!
//! Every step is proved to produce exactly the state and result of the
//! ghost big-step semantics in [`crate::semantics`].  The evaluator
//! carries a step budget; exhausting it surfaces as `StackOverflow`,
//! never as a host crash, and no verified function here can panic.

use vstd::prelude::*;

use crate::environment::Env;
use crate::environment::SpecEnv;
use crate::environment::ancestor_at;
use crate::environment::assoc_find;
use crate::environment::entries_view;
use crate::environment::envs_view;
use crate::environment::find_entry;
use crate::environment::spec_define;
use crate::environment::spec_get_at;
use crate::environment::spec_assign_at;
use crate::environment::update_entry;
use crate::resolver::Resolution;
use crate::resolver::table_find;
use crate::resolver::table_lookup;
use crate::semantics;
use crate::semantics::SpecClass;
use crate::semantics::SpecFun;
use crate::semantics::SpecInstance;
use crate::semantics::SpecState;
use crate::semantics::zip_params;
use crate::statement::Expr;
use crate::statement::ExprId;
use crate::statement::SpecExpr;
use crate::statement::SpecStmt;
use crate::statement::Stmt;
use crate::statement::clone_stmts;
use crate::statement::clone_strings;
use crate::statement::exprs_view;
use crate::statement::expr_view;
use crate::statement::stmt_view;
use crate::statement::stmts_view;
use crate::statement::strings_view;
use crate::token::TokenType;
use crate::value::Flow;
use crate::value::RuntimeError;
use crate::value::SpecFlow;
use crate::value::SpecValue;
use crate::value::Value;
use crate::value::flow_view;
use crate::value::res_value_view;
use crate::value::truthy;
use crate::value::value_view;
use crate::value::values_equal;

verus! {

/// A user function: parameters, body, captured environment.
pub struct FunDef {
    pub params: Vec<String>,
    pub body: Vec<Stmt>,
    pub env: usize,
}

pub open spec fn fun_view(f: FunDef) -> SpecFun {
    SpecFun { params: strings_view(f.params@), body: stmts_view(f.body@), env: f.env }
}

pub open spec fn funs_view(fs: Seq<FunDef>) -> Seq<SpecFun> {
    Seq::new(fs.len(), |i: int| fun_view(fs[i]))
}

/// A class: its name and method table (method name to function
/// index).
pub struct ClassDef {
    pub name: String,
    pub methods: Vec<(String, usize)>,
}

pub open spec fn methods_view(ms: Seq<(String, usize)>) -> Seq<(Seq<char>, usize)> {
    Seq::new(ms.len(), |i: int| (ms[i].0@, ms[i].1))
}

pub open spec fn class_view(c: ClassDef) -> SpecClass {
    SpecClass { name: c.name@, methods: methods_view(c.methods@) }
}

pub open spec fn classes_view(cs: Seq<ClassDef>) -> Seq<SpecClass> {
    Seq::new(cs.len(), |i: int| class_view(cs[i]))
}

/// An instance: its class and its mutable field map.
pub struct InstanceDef {
    pub class: usize,
    pub fields: Vec<(String, Value)>,
}

pub open spec fn instance_view(inst: InstanceDef) -> SpecInstance {
    SpecInstance { class: inst.class, fields: entries_view(inst.fields@) }
}

pub open spec fn instances_view(is: Seq<InstanceDef>) -> Seq<SpecInstance> {
    Seq::new(is.len(), |i: int| instance_view(is[i]))
}

pub open spec fn values_view(vs: Seq<Value>) -> Seq<SpecValue> {
    Seq::new(vs.len(), |i: int| value_view(vs[i]))
}

proof fn lemma_ancestor_in_range(envs: Seq<SpecEnv>, cur: usize, hops: usize)
    ensures
        ancestor_at(envs, cur, hops) matches Some(i) ==> (i as int) < envs.len(),
    decreases hops,
{
    if cur < envs.len() && hops > 0 {
        match envs[cur as int].enclosing {
            Some(p) => lemma_ancestor_in_range(envs, p, (hops - 1) as usize),
            None => {},
        }
    }
}

fn method_find_from(ms: &Vec<(String, usize)>, name: &String, i: usize) -> (r: Option<usize>)
    ensures
        r == crate::environment::assoc_find_from(methods_view(ms@), name@, i as int),
    decreases ms.len() - i,
{
    if i >= ms.len() {
        None
    } else {
        match method_find_from(ms, name, i + 1) {
            Some(v) => Some(v),
            None => {
                if ms[i].0.eq(name) {
                    Some(ms[i].1)
                } else {
                    None
                }
            },
        }
    }
}

/// Build a call frame's entry list: each parameter name bound to
/// its argument, in order.
#[verifier::loop_isolation(false)]
fn build_frame(params: &Vec<String>, args: &Vec<Value>) -> (r: Vec<(String, Value)>)
    requires
        params@.len() == args@.len(),
    ensures
        entries_view(r@) == zip_params(strings_view(params@), values_view(args@)),
{
    let mut entries: Vec<(String, Value)> = Vec::new();
    let mut i: usize = 0;
    while i < params.len()
        invariant
            i <= params.len(),
            entries@.len() == i,
            entries_view(entries@) == zip_params(strings_view(params@), values_view(args@))
                .subrange(0, i as int),
        decreases params.len() - i,
    {
        let pc = params[i].clone();
        let ac = args[i].clone();
        entries.push((pc, ac));
        proof {
            assert(entries_view(entries@) =~= zip_params(
                strings_view(params@),
                values_view(args@),
            ).subrange(0, i as int + 1));
        }
        i = i + 1;
    }
    proof {
        assert(entries_view(entries@) =~= zip_params(strings_view(params@), values_view(args@)));
    }
    entries
}

/// The truncating-division result of two machine integers, or the
/// overflow / division-by-zero error.
pub fn eval_binary_exec(op: TokenType, a: &Value, b: &Value) -> (r: Result<Value, RuntimeError>)
    ensures
        res_value_view(r) == semantics::eval_binary(op, a@, b@),
{
    match op {
        TokenType::Plus => match (a, b) {
            (Value::Num(x), Value::Num(y)) => match x.checked_add(*y) {
                Some(s) => Ok(Value::Num(s)),
                None => Err(RuntimeError::Overflow),
            },
            (Value::Str(x), Value::Str(y)) => Ok(Value::Str(x.clone().concat(y.as_str()))),
            _ => Err(RuntimeError::TypeError),
        },
        TokenType::Minus => match (a, b) {
            (Value::Num(x), Value::Num(y)) => match x.checked_sub(*y) {
                Some(s) => Ok(Value::Num(s)),
                None => Err(RuntimeError::Overflow),
            },
            _ => Err(RuntimeError::TypeError),
        },
        TokenType::Star => match (a, b) {
            (Value::Num(x), Value::Num(y)) => match x.checked_mul(*y) {
                Some(s) => Ok(Value::Num(s)),
                None => Err(RuntimeError::Overflow),
            },
            _ => Err(RuntimeError::TypeError),
        },
        TokenType::Slash => match (a, b) {
            (Value::Num(x), Value::Num(y)) => {
                if *y == 0 {
                    Err(RuntimeError::DivisionByZero)
                } else {
                    match x.checked_div(*y) {
                        Some(q) => Ok(Value::Num(q)),
                        None => Err(RuntimeError::Overflow),
                    }
                }
            },
            _ => Err(RuntimeError::TypeError),
        },
        TokenType::Greater => match (a, b) {
            (Value::Num(x), Value::Num(y)) => Ok(Value::Bool(*x > *y)),
            _ => Err(RuntimeError::TypeError),
        },
        TokenType::GreaterEqual => match (a, b) {
            (Value::Num(x), Value::Num(y)) => Ok(Value::Bool(*x >= *y)),
            _ => Err(RuntimeError::TypeError),
        },
        TokenType::Less => match (a, b) {
            (Value::Num(x), Value::Num(y)) => Ok(Value::Bool(*x < *y)),
            _ => Err(RuntimeError::TypeError),
        },
        TokenType::LessEqual => match (a, b) {
            (Value::Num(x), Value::Num(y)) => Ok(Value::Bool(*x <= *y)),
            _ => Err(RuntimeError::TypeError),
        },
        TokenType::EqualEqual => Ok(Value::Bool(values_equal(a, b))),
        TokenType::BangEqual => Ok(Value::Bool(!values_equal(a, b))),
        TokenType::Bang => Err(RuntimeError::Internal),
        TokenType::And => Err(RuntimeError::Internal),
        TokenType::Or => Err(RuntimeError::Internal),
    }
}

/// Numeric negation (number only) or logical negation (any value).
pub fn eval_unary_exec(op: TokenType, v: &Value) -> (r: Result<Value, RuntimeError>)
    ensures
        res_value_view(r) == semantics::eval_unary(op, v@),
{
    match op {
        TokenType::Minus => match v {
            Value::Num(x) => {
                if *x == i64::MIN {
                    Err(RuntimeError::Overflow)
                } else {
                    Ok(Value::Num(-*x))
                }
            },
            _ => Err(RuntimeError::TypeError),
        },
        TokenType::Bang => Ok(Value::Bool(!truthy(v))),
        _ => Err(RuntimeError::Internal),
    }
}

/// The evaluator's state: the environment arena, the function, class
/// and instance arenas, and the values printed so far.
pub struct Interp {
    pub envs: Vec<Env>,
    pub functions: Vec<FunDef>,
    pub classes: Vec<ClassDef>,
    pub instances: Vec<InstanceDef>,
    pub output: Vec<Value>,
}

impl View for Interp {
    type V = SpecState;

    open spec fn view(&self) -> SpecState {
        SpecState {
            envs: envs_view(self.envs@),
            functions: funs_view(self.functions@),
            classes: classes_view(self.classes@),
            instances: instances_view(self.instances@),
            output: values_view(self.output@),
        }
    }
}

impl Interp {
    /// A fresh evaluator: one empty global scope, empty arenas.
    pub fn new() -> (r: Interp)
        ensures
            r@ == semantics::init_state(),
    {
        let mut envs: Vec<Env> = Vec::new();
        envs.push(Env { entries: Vec::new(), enclosing: None });
        let r = Interp {
            envs,
            functions: Vec::new(),
            classes: Vec::new(),
            instances: Vec::new(),
            output: Vec::new(),
        };
        proof {
            assert(r@.envs =~~= semantics::init_state().envs);
            assert(r@.functions =~= semantics::init_state().functions);
            assert(r@.classes =~= semantics::init_state().classes);
            assert(r@.instances =~= semantics::init_state().instances);
            assert(r@.output =~= semantics::init_state().output);
        }
        r
    }

    fn ancestor(&self, cur: usize, hops: usize) -> (r: Option<usize>)
        ensures
            r == ancestor_at(self@.envs, cur, hops),
        decreases hops,
    {
        if cur >= self.envs.len() {
            None
        } else if hops == 0 {
            Some(cur)
        } else {
            match self.envs[cur].enclosing {
                Some(p) => self.ancestor(p, hops - 1),
                None => None,
            }
        }
    }

    fn env_get_at(&self, cur: usize, hops: usize, name: &String) -> (r: Result<Value, RuntimeError>)
        ensures
            res_value_view(r) == spec_get_at(self@.envs, cur, hops, name@),
    {
        match self.ancestor(cur, hops) {
            Some(i) => {
                proof {
                    lemma_ancestor_in_range(self@.envs, cur, hops);
                }
                match find_entry(&self.envs[i].entries, name) {
                    Some(v) => Ok(v),
                    None => Err(RuntimeError::Internal),
                }
            },
            None => Err(RuntimeError::Internal),
        }
    }

    fn env_assign_at(&mut self, cur: usize, hops: usize, name: &String, v: &Value) -> (r: Result<
        (),
        RuntimeError,
    >)
        ensures
            match spec_assign_at(old(self)@.envs, cur, hops, name@, v@) {
                Ok(envs2) => r is Ok && final(self)@ == (SpecState { envs: envs2, ..old(self)@ }),
                Err(e) => r == Err::<(), RuntimeError>(e) && final(self)@ == old(self)@,
            },
    {
        match self.ancestor(cur, hops) {
            Some(i) => {
                proof {
                    lemma_ancestor_in_range(self@.envs, cur, hops);
                }
                let e = &mut self.envs[i];
                let ok = update_entry(&mut e.entries, name, v);
                if ok {
                    proof {
                        assert(self@.envs =~~= (match spec_assign_at(
                            old(self)@.envs,
                            cur,
                            hops,
                            name@,
                            v@,
                        ) {
                            Ok(envs2) => envs2,
                            Err(_) => self@.envs,
                        }));
                    }
                    Ok(())
                } else {
                    proof {
                        assert(self@.envs =~~= old(self)@.envs);
                    }
                    Err(RuntimeError::Internal)
                }
            },
            None => Err(RuntimeError::Internal),
        }
    }

    fn env_define(&mut self, cur: usize, name: &String, v: Value) -> (ok: bool)
        ensures
            match spec_define(old(self)@.envs, cur, name@, v@) {
                Some(envs2) => ok && final(self)@ == (SpecState { envs: envs2, ..old(self)@ }),
                None => !ok && final(self)@ == old(self)@,
            },
    {
        if cur >= self.envs.len() {
            false
        } else {
            let e = &mut self.envs[cur];
            e.entries.push((name.clone(), v));
            proof {
                assert(self@.envs =~~= (match spec_define(old(self)@.envs, cur, name@, v@) {
                    Some(envs2) => envs2,
                    None => self@.envs,
                }));
            }
            true
        }
    }

    fn lookup_var(
        &self,
        table: &Vec<(ExprId, Resolution)>,
        id: ExprId,
        name: &String,
        cur: usize,
    ) -> (r: Result<Value, RuntimeError>)
        ensures
            res_value_view(r) == semantics::lookup_variable(self@, table@, id, name@, cur),
    {
        match table_find(table, id) {
            Some(Resolution::Local(h)) => self.env_get_at(cur, h, name),
            Some(Resolution::Global) => {
                if self.envs.len() == 0 {
                    Err(RuntimeError::Internal)
                } else {
                    match find_entry(&self.envs[0].entries, name) {
                        Some(v) => Ok(v),
                        None => Err(RuntimeError::UndefinedVariable),
                    }
                }
            },
            None => Err(RuntimeError::Internal),
        }
    }

    fn assign_var(
        &mut self,
        table: &Vec<(ExprId, Resolution)>,
        id: ExprId,
        name: &String,
        cur: usize,
        v: &Value,
    ) -> (r: Result<(), RuntimeError>)
        ensures
            match semantics::assign_variable(old(self)@, table@, id, name@, cur, v@) {
                Ok(envs2) => r is Ok && final(self)@ == (SpecState { envs: envs2, ..old(self)@ }),
                Err(e) => r == Err::<(), RuntimeError>(e) && final(self)@ == old(self)@,
            },
    {
        match table_find(table, id) {
            Some(Resolution::Local(h)) => self.env_assign_at(cur, h, name, v),
            Some(Resolution::Global) => {
                if self.envs.len() == 0 {
                    Err(RuntimeError::Internal)
                } else {
                    let e = &mut self.envs[0];
                    let ok = update_entry(&mut e.entries, name, v);
                    if ok {
                        proof {
                            assert(self@.envs =~~= (match semantics::assign_variable(
                                old(self)@,
                                table@,
                                id,
                                name@,
                                cur,
                                v@,
                            ) {
                                Ok(envs2) => envs2,
                                Err(_) => self@.envs,
                            }));
                        }
                        Ok(())
                    } else {
                        proof {
                            assert(self@.envs =~~= old(self)@.envs);
                        }
                        Err(RuntimeError::UndefinedVariable)
                    }
                }
            },
            None => Err(RuntimeError::Internal),
        }
    }

    fn bind_method(&mut self, fi: usize, ii: usize) -> (r: Result<Value, RuntimeError>)
        ensures
            ({
                let (st2, rr) = semantics::bind_method(old(self)@, fi, ii);
                final(self)@ == st2 && res_value_view(r) == rr
            }),
    {
        if fi >= self.functions.len() {
            return Err(RuntimeError::Internal);
        }
        let params = clone_strings(&self.functions[fi].params);
        let body = clone_stmts(&self.functions[fi].body);
        let fenv = self.functions[fi].env;
        let new_env = self.envs.len();
        let mut entries: Vec<(String, Value)> = Vec::new();
        let this_name: String = "this".to_owned();
        entries.push((this_name, Value::Instance(ii)));
        self.envs.push(Env { entries, enclosing: Some(fenv) });
        let fidx = self.functions.len();
        self.functions.push(FunDef { params, body, env: new_env });
        proof {
            let (st2, rr) = semantics::bind_method(old(self)@, fi, ii);
            assert(self@.envs =~~= st2.envs);
            assert(self@.functions =~~= st2.functions);
        }
        Ok(Value::Function(fidx))
    }

    fn get_prop(&mut self, ii: usize, name: &String) -> (r: Result<Value, RuntimeError>)
        ensures
            ({
                let (st2, rr) = semantics::get_property(old(self)@, ii, name@);
                final(self)@ == st2 && res_value_view(r) == rr
            }),
    {
        if ii >= self.instances.len() {
            return Err(RuntimeError::Internal);
        }
        match find_entry(&self.instances[ii].fields, name) {
            Some(v) => Ok(v),
            None => {
                let ci = self.instances[ii].class;
                if ci >= self.classes.len() {
                    Err(RuntimeError::Internal)
                } else {
                    match method_find_from(&self.classes[ci].methods, name, 0) {
                        Some(fi) => self.bind_method(fi, ii),
                        None => Err(RuntimeError::UndefinedProperty),
                    }
                }
            },
        }
    }

    fn set_field(&mut self, ii: usize, name: &String, v: &Value) -> (r: Result<Value, RuntimeError>)
        ensures
            ({
                let (st2, rr) = semantics::set_field(old(self)@, ii, name@, v@);
                final(self)@ == st2 && res_value_view(r) == rr
            }),
    {
        if ii >= self.instances.len() {
            return Err(RuntimeError::Internal);
        }
        let inst = &mut self.instances[ii];
        let ok = update_entry(&mut inst.fields, name, v);
        if !ok {
            inst.fields.push((name.clone(), v.clone()));
        }
        proof {
            let (st2, rr) = semantics::set_field(old(self)@, ii, name@, v@);
            assert(entries_view(self.instances@[ii as int].fields@) =~~= st2.instances[ii as int]
                .fields);
            assert(self@.instances =~~= st2.instances);
        }
        Ok(v.clone())
    }

    fn declare_methods(&mut self, ms: &Vec<Stmt>, i: usize, cur: usize) -> (r: Vec<(String, usize)>)
        ensures
            ({
                let (st2, tab) = semantics::declare_methods(old(self)@, stmts_view(ms@), i as int, cur);
                final(self)@ == st2 && methods_view(r@) == tab
            }),
        decreases ms.len() - i,
    {
        if i >= ms.len() {
            let r: Vec<(String, usize)> = Vec::new();
            proof {
                assert(methods_view(r@) =~= Seq::<(Seq<char>, usize)>::empty());
            }
            return r;
        }
        match &ms[i] {
            Stmt::Function { name, parameters, body } => {
                let idx = self.functions.len();
                self.functions.push(
                    FunDef { params: clone_strings(parameters), body: clone_stmts(body), env: cur },
                );
                proof {
                    let stm = SpecState {
                        functions: old(self)@.functions.push(
                            SpecFun {
                                params: strings_view(parameters@),
                                body: stmts_view(body@),
                                env: cur,
                            },
                        ),
                        ..old(self)@
                    };
                    assert(self@.functions =~~= stm.functions);
                }
                let mut rest = self.declare_methods(ms, i + 1, cur);
                rest.insert(0, (name.clone(), idx));
                proof {
                    let (st2, tab) = semantics::declare_methods(
                        old(self)@,
                        stmts_view(ms@),
                        i as int,
                        cur,
                    );
                    assert(methods_view(rest@) =~= tab);
                }
                rest
            },
            _ => self.declare_methods(ms, i + 1, cur),
        }
    }

    /// Evaluate one expression against the resolution table, the
    /// current scope, and a step budget.
    #[verifier::rlimit(100)]
    pub fn eval_expr(
        &mut self,
        table: &Vec<(ExprId, Resolution)>,
        e: &Expr,
        cur: usize,
        fuel: u64,
    ) -> (r: Result<Value, RuntimeError>)
        ensures
            ({
                let (st2, rr) = semantics::eval_expr(old(self)@, table@, e@, cur, fuel);
                final(self)@ == st2 && res_value_view(r) == rr
            }),
        decreases fuel, 2int,
    {
        if fuel == 0 {
            return Err(RuntimeError::StackOverflow);
        }
        let fl = fuel - 1;
        match e {
            Expr::Number(n) => Ok(Value::Num(*n)),
            Expr::Str(s) => Ok(Value::Str(s.clone())),
            Expr::Boolean(b) => Ok(Value::Bool(*b)),
            Expr::Nil => Ok(Value::Nil),
            Expr::Grouping { expression } => self.eval_expr(table, expression, cur, fl),
            Expr::Unary { token_type, right } => {
                let rv = match self.eval_expr(table, right, cur, fl) {
                    Ok(v) => v,
                    Err(er) => {
                        return Err(er);
                    },
                };
                eval_unary_exec(*token_type, &rv)
            },
            Expr::Binary { left, token_type, right } => {
                let lv = match self.eval_expr(table, left, cur, fl) {
                    Ok(v) => v,
                    Err(er) => {
                        return Err(er);
                    },
                };
                let rv = match self.eval_expr(table, right, cur, fl) {
                    Ok(v) => v,
                    Err(er) => {
                        return Err(er);
                    },
                };
                eval_binary_exec(*token_type, &lv, &rv)
            },
            Expr::Logical { left, operator, right } => {
                match operator {
                    TokenType::And => {
                        let lv = match self.eval_expr(table, left, cur, fl) {
                            Ok(v) => v,
                            Err(er) => {
                                return Err(er);
                            },
                        };
                        if !truthy(&lv) {
                            Ok(lv)
                        } else {
                            self.eval_expr(table, right, cur, fl)
                        }
                    },
                    TokenType::Or => {
                        let lv = match self.eval_expr(table, left, cur, fl) {
                            Ok(v) => v,
                            Err(er) => {
                                return Err(er);
                            },
                        };
                        if truthy(&lv) {
                            Ok(lv)
                        } else {
                            self.eval_expr(table, right, cur, fl)
                        }
                    },
                    _ => Err(RuntimeError::Internal),
                }
            },
            Expr::Variable { id, name } => self.lookup_var(table, *id, name, cur),
            Expr::Assign { id, name, value } => {
                let v = match self.eval_expr(table, value, cur, fl) {
                    Ok(v) => v,
                    Err(er) => {
                        return Err(er);
                    },
                };
                match self.assign_var(table, *id, name, cur, &v) {
                    Ok(()) => Ok(v),
                    Err(er) => Err(er),
                }
            },
            Expr::Call { callee, arguments } => {
                let cv = match self.eval_expr(table, callee, cur, fl) {
                    Ok(v) => v,
                    Err(er) => {
                        return Err(er);
                    },
                };
                let vals = match self.eval_exprs(table, arguments, 0, cur, fl) {
                    Ok(vs) => vs,
                    Err(er) => {
                        return Err(er);
                    },
                };
                self.call_value(table, cv, vals, fl)
            },
            Expr::Get { object, name } => {
                let ov = match self.eval_expr(table, object, cur, fl) {
                    Ok(v) => v,
                    Err(er) => {
                        return Err(er);
                    },
                };
                match ov {
                    Value::Instance(ii) => self.get_prop(ii, name),
                    _ => Err(RuntimeError::TypeError),
                }
            },
            Expr::SetProp { object, name, value } => {
                let ov = match self.eval_expr(table, object, cur, fl) {
                    Ok(v) => v,
                    Err(er) => {
                        return Err(er);
                    },
                };
                match ov {
                    Value::Instance(ii) => {
                        let v = match self.eval_expr(table, value, cur, fl) {
                            Ok(v) => v,
                            Err(er) => {
                                return Err(er);
                            },
                        };
                        self.set_field(ii, name, &v)
                    },
                    _ => Err(RuntimeError::TypeError),
                }
            },
        }
    }

    #[verifier::rlimit(100)]
    #[verifier::spinoff_prover]
    fn eval_exprs(
        &mut self,
        table: &Vec<(ExprId, Resolution)>,
        es: &Vec<Expr>,
        i: usize,
        cur: usize,
        fuel: u64,
    ) -> (r: Result<Vec<Value>, RuntimeError>)
        ensures
            ({
                let (st2, rr) = semantics::eval_exprs(old(self)@, table@, exprs_view(es@), i as int, cur, fuel);
                final(self)@ == st2 && (match (r, rr) {
                    (Ok(vs), Ok(ss)) => values_view(vs@) == ss,
                    (Err(e1), Err(e2)) => e1 == e2,
                    _ => false,
                })
            }),
        decreases fuel, 1int,
    {
        if fuel == 0 {
            return Err(RuntimeError::StackOverflow);
        }
        if i >= es.len() {
            let r: Vec<Value> = Vec::new();
            proof {
                assert(values_view(r@) =~= Seq::<SpecValue>::empty());
            }
            return Ok(r);
        }
        let fl = fuel - 1;
        let v = match self.eval_expr(table, &es[i], cur, fl) {
            Ok(v) => v,
            Err(er) => {
                return Err(er);
            },
        };
        let mut vs = match self.eval_exprs(table, es, i + 1, cur, fl) {
            Ok(vs) => vs,
            Err(er) => {
                return Err(er);
            },
        };
        vs.insert(0, v);
        proof {
            let (st2, rr) = semantics::eval_exprs(
                old(self)@,
                table@,
                exprs_view(es@),
                i as int,
                cur,
                fuel,
            );
            match rr {
                Ok(ss) => {
                    assert(values_view(vs@) =~= ss);
                },
                Err(_) => {},
            }
        }
        Ok(vs)
    }

    #[verifier::rlimit(100)]
    #[verifier::spinoff_prover]
    fn call_value(
        &mut self,
        table: &Vec<(ExprId, Resolution)>,
        callee: Value,
        args: Vec<Value>,
        fuel: u64,
    ) -> (r: Result<Value, RuntimeError>)
        ensures
            ({
                let (st2, rr) = semantics::call_value(old(self)@, table@, callee@, values_view(args@), fuel);
                final(self)@ == st2 && res_value_view(r) == rr
            }),
        decreases fuel, 1int,
    {
        if fuel == 0 {
            return Err(RuntimeError::StackOverflow);
        }
        let fl = fuel - 1;
        match callee {
            Value::Function(fi) => self.call_function(table, fi, args, fl),
            Value::Class(ci) => self.call_class(table, ci, args, fl),
            _ => Err(RuntimeError::NotCallable),
        }
    }

    #[verifier::rlimit(100)]
    #[verifier::spinoff_prover]
    fn call_class(
        &mut self,
        table: &Vec<(ExprId, Resolution)>,
        ci: usize,
        args: Vec<Value>,
        fuel: u64,
    ) -> (r: Result<Value, RuntimeError>)
        ensures
            ({
                let (st2, rr) = semantics::call_class(old(self)@, table@, ci, values_view(args@), fuel);
                final(self)@ == st2 && res_value_view(r) == rr
            }),
        decreases fuel, 0int,
    {
        if fuel == 0 {
            return Err(RuntimeError::StackOverflow);
        }
        if ci >= self.classes.len() {
            return Err(RuntimeError::Internal);
        }
        let fl = fuel - 1;
        let ii = self.instances.len();
        self.instances.push(InstanceDef { class: ci, fields: Vec::new() });
        proof {
            let st1 = SpecState {
                instances: old(self)@.instances.push(
                    SpecInstance { class: ci, fields: Seq::empty() },
                ),
                ..old(self)@
            };
            assert(entries_view(Seq::<(String, Value)>::empty()) =~= Seq::<
                (Seq<char>, SpecValue),
            >::empty());
            assert(self@.instances =~~= st1.instances);
        }
        let init_name: String = "init".to_owned();
        match method_find_from(&self.classes[ci].methods, &init_name, 0) {
            Some(init_fi) => {
                let bound = match self.bind_method(init_fi, ii) {
                    Ok(b) => b,
                    Err(er) => {
                        return Err(er);
                    },
                };
                match bound {
                    Value::Function(bfi) => {
                        match self.call_function(table, bfi, args, fl) {
                            Ok(_) => Ok(Value::Instance(ii)),
                            Err(er) => Err(er),
                        }
                    },
                    _ => Err(RuntimeError::Internal),
                }
            },
            None => {
                if args.len() != 0 {
                    Err(RuntimeError::ArityError)
                } else {
                    Ok(Value::Instance(ii))
                }
            },
        }
    }

    #[verifier::rlimit(100)]
    #[verifier::spinoff_prover]
    fn call_function(
        &mut self,
        table: &Vec<(ExprId, Resolution)>,
        fi: usize,
        args: Vec<Value>,
        fuel: u64,
    ) -> (r: Result<Value, RuntimeError>)
        ensures
            ({
                let (st2, rr) = semantics::call_function(old(self)@, table@, fi, values_view(args@), fuel);
                final(self)@ == st2 && res_value_view(r) == rr
            }),
        decreases fuel, 0int,
    {
        if fuel == 0 {
            return Err(RuntimeError::StackOverflow);
        }
        if fi >= self.functions.len() {
            return Err(RuntimeError::Internal);
        }
        let fl = fuel - 1;
        if args.len() != self.functions[fi].params.len() {
            return Err(RuntimeError::ArityError);
        }
        let params = clone_strings(&self.functions[fi].params);
        let body = clone_stmts(&self.functions[fi].body);
        let fenv = self.functions[fi].env;
        let entries = build_frame(&params, &args);
        proof {
            let f = old(self)@.functions[fi as int];
            assert(entries_view(entries@) =~~= zip_params(f.params, values_view(args@)));
        }
        let new_env = self.envs.len();
        self.envs.push(Env { entries, enclosing: Some(fenv) });
        proof {
            let f = old(self)@.functions[fi as int];
            let st1 = SpecState {
                envs: old(self)@.envs.push(
                    SpecEnv {
                        entries: zip_params(f.params, values_view(args@)),
                        enclosing: Some(f.env),
                    },
                ),
                ..old(self)@
            };
            assert(self@.envs =~~= st1.envs);
        }
        match self.exec_stmts(table, &body, 0, new_env, fl) {
            Ok(Flow::Normal) => Ok(Value::Nil),
            Ok(Flow::Ret(v)) => Ok(v),
            Err(er) => Err(er),
        }
    }

    /// Execute one statement.
    #[verifier::rlimit(100)]
    #[verifier::spinoff_prover]
    pub fn exec_stmt(
        &mut self,
        table: &Vec<(ExprId, Resolution)>,
        s: &Stmt,
        cur: usize,
        fuel: u64,
    ) -> (r: Result<Flow, RuntimeError>)
        ensures
            ({
                let (st2, rr) = semantics::exec_stmt(old(self)@, table@, s@, cur, fuel);
                final(self)@ == st2 && (match (r, rr) {
                    (Ok(f1), Ok(f2)) => flow_view(f1) == f2,
                    (Err(e1), Err(e2)) => e1 == e2,
                    _ => false,
                })
            }),
        decreases fuel, 2int,
    {
        if fuel == 0 {
            return Err(RuntimeError::StackOverflow);
        }
        let fl = fuel - 1;
        match s {
            Stmt::Expression { expression } => {
                match self.eval_expr(table, expression, cur, fl) {
                    Ok(_) => Ok(Flow::Normal),
                    Err(er) => Err(er),
                }
            },
            Stmt::Print { expression } => {
                let v = match self.eval_expr(table, expression, cur, fl) {
                    Ok(v) => v,
                    Err(er) => {
                        return Err(er);
                    },
                };
                let ghost gv = v@;
                let ghost stm = self@;
                self.output.push(v);
                proof {
                    assert(self@.output =~= stm.output.push(gv));
                }
                Ok(Flow::Normal)
            },
            Stmt::Var { name, initializer } => {
                let v = match initializer {
                    Some(e) => {
                        match self.eval_expr(table, e, cur, fl) {
                            Ok(v) => v,
                            Err(er) => {
                                return Err(er);
                            },
                        }
                    },
                    None => Value::Nil,
                };
                if self.env_define(cur, name, v) {
                    Ok(Flow::Normal)
                } else {
                    Err(RuntimeError::Internal)
                }
            },
            Stmt::Block { statements } => {
                let child = self.envs.len();
                self.envs.push(Env { entries: Vec::new(), enclosing: Some(cur) });
                proof {
                    let st1 = SpecState {
                        envs: old(self)@.envs.push(
                            SpecEnv { entries: Seq::empty(), enclosing: Some(cur) },
                        ),
                        ..old(self)@
                    };
                    assert(self@.envs =~~= st1.envs);
                }
                self.exec_stmts(table, statements, 0, child, fl)
            },
            Stmt::If { condition, then_branch, else_branch } => {
                let cv = match self.eval_expr(table, condition, cur, fl) {
                    Ok(v) => v,
                    Err(er) => {
                        return Err(er);
                    },
                };
                if truthy(&cv) {
                    self.exec_stmt(table, then_branch, cur, fl)
                } else {
                    match else_branch {
                        Some(e) => self.exec_stmt(table, e, cur, fl),
                        None => Ok(Flow::Normal),
                    }
                }
            },
            Stmt::While { condition, body } => {
                let cv = match self.eval_expr(table, condition, cur, fl) {
                    Ok(v) => v,
                    Err(er) => {
                        return Err(er);
                    },
                };
                if !truthy(&cv) {
                    Ok(Flow::Normal)
                } else {
                    match self.exec_stmt(table, body, cur, fl) {
                        Ok(Flow::Normal) => self.exec_stmt(table, s, cur, fl),
                        Ok(Flow::Ret(v)) => Ok(Flow::Ret(v)),
                        Err(er) => Err(er),
                    }
                }
            },
            Stmt::Function { name, parameters, body } => {
                let fidx = self.functions.len();
                self.functions.push(
                    FunDef { params: clone_strings(parameters), body: clone_stmts(body), env: cur },
                );
                proof {
                    let st1 = SpecState {
                        functions: old(self)@.functions.push(
                            SpecFun {
                                params: strings_view(parameters@),
                                body: stmts_view(body@),
                                env: cur,
                            },
                        ),
                        ..old(self)@
                    };
                    assert(self@.functions =~~= st1.functions);
                }
                if self.env_define(cur, name, Value::Function(fidx)) {
                    Ok(Flow::Normal)
                } else {
                    Err(RuntimeError::Internal)
                }
            },
            Stmt::Return { value } => {
                let v = match value {
                    Some(e) => {
                        match self.eval_expr(table, e, cur, fl) {
                            Ok(v) => v,
                            Err(er) => {
                                return Err(er);
                            },
                        }
                    },
                    None => Value::Nil,
                };
                Ok(Flow::Ret(v))
            },
            Stmt::Class { name, methods } => {
                let mtab = self.declare_methods(methods, 0, cur);
                let cidx = self.classes.len();
                self.classes.push(ClassDef { name: name.clone(), methods: mtab });
                proof {
                    let (stm, tab) = semantics::declare_methods(
                        old(self)@,
                        stmts_view(methods@),
                        0,
                        cur,
                    );
                    let st2 = SpecState {
                        classes: stm.classes.push(SpecClass { name: name@, methods: tab }),
                        ..stm
                    };
                    assert(self@.classes =~~= st2.classes);
                }
                if self.env_define(cur, name, Value::Class(cidx)) {
                    Ok(Flow::Normal)
                } else {
                    Err(RuntimeError::Internal)
                }
            },
        }
    }

    #[verifier::rlimit(100)]
    #[verifier::spinoff_prover]
    fn exec_stmts(
        &mut self,
        table: &Vec<(ExprId, Resolution)>,
        ss: &Vec<Stmt>,
        i: usize,
        cur: usize,
        fuel: u64,
    ) -> (r: Result<Flow, RuntimeError>)
        ensures
            ({
                let (st2, rr) = semantics::exec_stmts(old(self)@, table@, stmts_view(ss@), i as int, cur, fuel);
                final(self)@ == st2 && (match (r, rr) {
                    (Ok(f1), Ok(f2)) => flow_view(f1) == f2,
                    (Err(e1), Err(e2)) => e1 == e2,
                    _ => false,
                })
            }),
        decreases fuel, 1int,
    {
        if fuel == 0 {
            return Err(RuntimeError::StackOverflow);
        }
        if i >= ss.len() {
            return Ok(Flow::Normal);
        }
        let fl = fuel - 1;
        match self.exec_stmt(table, &ss[i], cur, fl) {
            Ok(Flow::Normal) => self.exec_stmts(table, ss, i + 1, cur, fl),
            Ok(Flow::Ret(v)) => Ok(Flow::Ret(v)),
            Err(er) => Err(er),
        }
    }

    /// Run a whole resolved program top to bottom against the global
    /// scope, with a step budget.  The printed values accumulate in
    /// `output`.
    pub fn run(
        &mut self,
        table: &Vec<(ExprId, Resolution)>,
        program: &Vec<Stmt>,
        fuel: u64,
    ) -> (r: Result<(), RuntimeError>)
        ensures
            ({
                let (st2, rr) = semantics::run_program(old(self)@, table@, stmts_view(program@), fuel);
                final(self)@ == st2 && r == rr
            }),
    {
        match self.exec_stmts(table, program, 0, 0, fuel) {
            Ok(Flow::Normal) => Ok(()),
            Ok(Flow::Ret(_)) => Err(RuntimeError::Internal),
            Err(er) => Err(er),
        }
    }
}

} // verus!
