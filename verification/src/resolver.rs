//! The static scope-resolution pass.
//!
//! A single depth-first walk over the syntax tree maintains a stack of
//! scopes, each mapping a name to a two-state flag: `false` while the
//! name is only declared (between `var x` and the end of its
//! initializer), `true` once defined.  For every identity-tagged
//! expression node the walk records a [`Resolution`]: the number of
//! enclosing scopes to traverse to the binding, or `Global` for names
//! resolved dynamically in the global scope (which also supports
//! forward references to top-level declarations).
//!
//! The bottom of the scope stack models the global scope: names are
//! never resolved *to* it by hop count, redeclaration is permitted
//! there, but it still takes part in the self-reference check, so
//! `var x = x;` is rejected at any scope.
//!
//! Resolution failures are collected as a list rather than aborting on
//! the first; evaluation must not proceed if any are present.

use vstd::prelude::*;

use crate::environment::assoc_find;
use crate::environment::assoc_find_from;
use crate::environment::assoc_update;
use crate::environment::assoc_update_from;
use crate::statement::Expr;
use crate::statement::ExprId;
use crate::statement::SpecExpr;
use crate::statement::SpecStmt;
use crate::statement::Stmt;
use crate::statement::exprs_view;
use crate::statement::expr_view;
use crate::statement::stmt_view;
use crate::statement::stmts_view;
use crate::statement::strings_view;

verus! {

/// The lexical address recorded for one identity-tagged node: either
/// the exact number of enclosing scopes to hop, or dynamic lookup in
/// the global scope.
#[derive(Clone, Copy, Debug, PartialEq, Eq, Structural)]
pub enum Resolution {
    Local(usize),
    Global,
}

/// A resolution-time failure.  Each identifies the offending node by
/// its identity tag or name.
#[derive(Debug, PartialEq)]
pub enum ResolveError {
    /// `var x = x;` — the initializer reads the name being declared.
    SelfReference { id: ExprId },
    /// A second declaration of the same name in one local scope.
    DuplicateDeclaration { name: String },
    /// `return` outside any function body.
    ReturnOutsideFunction,
    /// A receiver reference outside a method body.
    ReceiverOutsideMethod { id: ExprId },
}

/// Ghost mirror of [`ResolveError`].
pub ghost enum SpecResolveError {
    SelfReference { id: ExprId },
    DuplicateDeclaration { name: Seq<char> },
    ReturnOutsideFunction,
    ReceiverOutsideMethod { id: ExprId },
}

pub open spec fn resolve_error_view(e: ResolveError) -> SpecResolveError {
    match e {
        ResolveError::SelfReference { id } => SpecResolveError::SelfReference { id },
        ResolveError::DuplicateDeclaration { name } => SpecResolveError::DuplicateDeclaration {
            name: name@,
        },
        ResolveError::ReturnOutsideFunction => SpecResolveError::ReturnOutsideFunction,
        ResolveError::ReceiverOutsideMethod { id } => SpecResolveError::ReceiverOutsideMethod {
            id,
        },
    }
}

pub open spec fn errors_view(es: Seq<ResolveError>) -> Seq<SpecResolveError> {
    Seq::new(es.len(), |i: int| resolve_error_view(es[i]))
}

pub open spec fn scope_view(s: Seq<(String, bool)>) -> Seq<(Seq<char>, bool)> {
    Seq::new(s.len(), |i: int| (s[i].0@, s[i].1))
}

pub open spec fn scopes_view(ss: Seq<Vec<(String, bool)>>) -> Seq<Seq<(Seq<char>, bool)>> {
    Seq::new(ss.len(), |i: int| scope_view(ss[i]@))
}

/// Ghost state of the resolution walk.
#[verifier::ext_equal]
pub ghost struct SpecResolver {
    pub scopes: Seq<Seq<(Seq<char>, bool)>>,
    pub table: Seq<(ExprId, Resolution)>,
    pub errors: Seq<SpecResolveError>,
    pub fun_depth: usize,
    pub in_method: bool,
}

pub open spec fn init_resolver() -> SpecResolver {
    SpecResolver {
        scopes: seq![Seq::empty()],
        table: Seq::empty(),
        errors: Seq::empty(),
        fun_depth: 0,
        in_method: false,
    }
}

pub open spec fn r_err(r: SpecResolver, e: SpecResolveError) -> SpecResolver {
    SpecResolver { errors: r.errors.push(e), ..r }
}

/// Declare `name` in the innermost scope (flag: declared, not yet
/// defined).  A name already present in the same *local* scope is a
/// duplicate-declaration error; the global scope permits
/// redeclaration.
pub open spec fn r_declare(r: SpecResolver, name: Seq<char>) -> SpecResolver {
    if r.scopes.len() == 0 {
        r
    } else {
        let top = r.scopes.last();
        let dup = r.scopes.len() > 1 && assoc_find(top, name) is Some;
        let r1 = if dup {
            r_err(r, SpecResolveError::DuplicateDeclaration { name })
        } else {
            r
        };
        SpecResolver {
            scopes: r1.scopes.update(r1.scopes.len() - 1, top.push((name, false))),
            ..r1
        }
    }
}

/// Mark the latest declaration of `name` in the innermost scope as
/// defined.
pub open spec fn r_define(r: SpecResolver, name: Seq<char>) -> SpecResolver {
    if r.scopes.len() == 0 {
        r
    } else {
        match assoc_update(r.scopes.last(), name, true) {
            Some(s2) => SpecResolver { scopes: r.scopes.update(r.scopes.len() - 1, s2), ..r },
            None => r,
        }
    }
}

pub open spec fn r_push_scope(r: SpecResolver) -> SpecResolver {
    SpecResolver { scopes: r.scopes.push(Seq::empty()), ..r }
}

pub open spec fn r_pop_scope(r: SpecResolver) -> SpecResolver {
    if r.scopes.len() <= 1 {
        r
    } else {
        SpecResolver { scopes: r.scopes.drop_last(), ..r }
    }
}

pub open spec fn r_inc_depth(r: SpecResolver) -> SpecResolver {
    if r.fun_depth < usize::MAX {
        SpecResolver { fun_depth: (r.fun_depth + 1) as usize, ..r }
    } else {
        r
    }
}

pub open spec fn r_dec_depth(r: SpecResolver) -> SpecResolver {
    if r.fun_depth > 0 {
        SpecResolver { fun_depth: (r.fun_depth - 1) as usize, ..r }
    } else {
        r
    }
}

/// Search the local scopes innermost-first for `name`; `Some(hops)`
/// gives the distance from the innermost scope to the nearest scope
/// binding it.  The global scope (index 0) is excluded: names not
/// bound locally resolve dynamically.
pub open spec fn lookup_from(
    scopes: Seq<Seq<(Seq<char>, bool)>>,
    name: Seq<char>,
    j: int,
) -> Option<usize>
    decreases j,
{
    if j <= 0 || j >= scopes.len() {
        None
    } else if assoc_find(scopes[j], name) is Some {
        Some((scopes.len() - 1 - j) as usize)
    } else {
        lookup_from(scopes, name, j - 1)
    }
}

pub open spec fn lookup_local(scopes: Seq<Seq<(Seq<char>, bool)>>, name: Seq<char>) -> Option<
    usize,
> {
    lookup_from(scopes, name, scopes.len() - 1)
}

/// Resolve one identity-tagged reference: run the self-reference and
/// receiver checks, then record the lexical address under the node's
/// identity.
pub open spec fn r_resolve_var(r: SpecResolver, id: ExprId, name: Seq<char>) -> SpecResolver {
    let selfref = r.scopes.len() > 0 && assoc_find(r.scopes.last(), name) == Some(false);
    let r1 = if selfref {
        r_err(r, SpecResolveError::SelfReference { id })
    } else {
        r
    };
    let r2 = if name == "this"@ && !r1.in_method {
        r_err(r1, SpecResolveError::ReceiverOutsideMethod { id })
    } else {
        r1
    };
    let res = match lookup_local(r2.scopes, name) {
        Some(h) => Resolution::Local(h),
        None => Resolution::Global,
    };
    SpecResolver { table: r2.table.push((id, res)), ..r2 }
}

/// Record the lexical address of an assignment target.
pub open spec fn r_resolve_assign(r: SpecResolver, id: ExprId, name: Seq<char>) -> SpecResolver {
    let res = match lookup_local(r.scopes, name) {
        Some(h) => Resolution::Local(h),
        None => Resolution::Global,
    };
    SpecResolver { table: r.table.push((id, res)), ..r }
}

/// Declare and define each parameter in the innermost scope.
pub open spec fn r_declare_params(r: SpecResolver, params: Seq<Seq<char>>, i: int) -> SpecResolver
    decreases params.len() - i,
{
    if i < 0 || i >= params.len() {
        r
    } else {
        r_declare_params(r_define(r_declare(r, params[i]), params[i]), params, i + 1)
    }
}

pub open spec fn res_expr(r: SpecResolver, e: SpecExpr) -> SpecResolver
    decreases e, 0int, 1int,
{
    match e {
        SpecExpr::Number(_) => r,
        SpecExpr::Str(_) => r,
        SpecExpr::Boolean(_) => r,
        SpecExpr::Nil => r,
        SpecExpr::Binary { left, op: _, right } => res_expr(res_expr(r, *left), *right),
        SpecExpr::Call { callee, arguments } => res_exprs(res_expr(r, *callee), arguments, 0),
        SpecExpr::Get { object, name: _ } => res_expr(r, *object),
        SpecExpr::SetProp { object, name: _, value } => res_expr(res_expr(r, *object), *value),
        SpecExpr::Grouping { expression } => res_expr(r, *expression),
        SpecExpr::Unary { op: _, right } => res_expr(r, *right),
        SpecExpr::Logical { left, op: _, right } => res_expr(res_expr(r, *left), *right),
        SpecExpr::Variable { id, name } => r_resolve_var(r, id, name),
        SpecExpr::Assign { id, name, value } => r_resolve_assign(res_expr(r, *value), id, name),
    }
}

pub open spec fn res_exprs(r: SpecResolver, es: Seq<SpecExpr>, i: int) -> SpecResolver
    decreases es, es.len() - i, 0int,
{
    if i < 0 || i >= es.len() {
        r
    } else {
        res_exprs(res_expr(r, es[i]), es, i + 1)
    }
}

pub open spec fn res_stmt(r: SpecResolver, s: SpecStmt) -> SpecResolver
    decreases s, 0int, 2int,
{
    match s {
        SpecStmt::Expression { expression } => res_expr(r, expression),
        SpecStmt::Print { expression } => res_expr(r, expression),
        SpecStmt::Var { name, initializer: Some(e) } => r_define(
            res_expr(r_declare(r, name), e),
            name,
        ),
        SpecStmt::Var { name, initializer: None } => r_define(r_declare(r, name), name),
        SpecStmt::Block { statements } => r_pop_scope(res_stmts(r_push_scope(r), statements, 0)),
        SpecStmt::If { condition, then_branch, else_branch: Some(e) } => res_stmt(
            res_stmt(res_expr(r, condition), *then_branch),
            *e,
        ),
        SpecStmt::If { condition, then_branch, else_branch: None } => res_stmt(
            res_expr(r, condition),
            *then_branch,
        ),
        SpecStmt::While { condition, body } => res_stmt(res_expr(r, condition), *body),
        SpecStmt::Function { name, parameters: _, body: _ } => res_function(
            r_define(r_declare(r, name), name),
            s,
        ),
        SpecStmt::Return { value: Some(e) } => {
            let r1 = if r.fun_depth == 0 {
                r_err(r, SpecResolveError::ReturnOutsideFunction)
            } else {
                r
            };
            res_expr(r1, e)
        },
        SpecStmt::Return { value: None } => {
            if r.fun_depth == 0 {
                r_err(r, SpecResolveError::ReturnOutsideFunction)
            } else {
                r
            }
        },
        SpecStmt::Class { name, methods } => res_methods(r_define(r_declare(r, name), name), methods, 0),
    }
}

/// Resolve a function's parameters and body in a fresh scope, inside
/// a deeper function-nesting level.  The function's own name is
/// declared by the caller (for declarations) or not at all (for
/// methods, which are reached through their class).
pub open spec fn res_function(r: SpecResolver, s: SpecStmt) -> SpecResolver
    decreases s, 0int, 1int,
{
    match s {
        SpecStmt::Function { name: _, parameters, body } => {
            let r1 = r_push_scope(r_inc_depth(r));
            let r2 = r_declare_params(r1, parameters, 0);
            let r3 = res_stmts(r2, body, 0);
            r_dec_depth(r_pop_scope(r3))
        },
        _ => r,
    }
}

pub open spec fn res_stmts(r: SpecResolver, ss: Seq<SpecStmt>, i: int) -> SpecResolver
    decreases ss, ss.len() - i, 0int,
{
    if i < 0 || i >= ss.len() {
        r
    } else {
        res_stmts(res_stmt(r, ss[i]), ss, i + 1)
    }
}

/// Resolve the methods of a class declaration.  Each method is
/// resolved as a function, but below one extra scope that binds the
/// implicit receiver name, and with the receiver-use check enabled.
pub open spec fn res_methods(r: SpecResolver, ms: Seq<SpecStmt>, i: int) -> SpecResolver
    decreases ms, ms.len() - i, 0int,
{
    if i < 0 || i >= ms.len() {
        r
    } else {
        let r1 = match ms[i] {
            SpecStmt::Function { .. } => {
                let saved = r.in_method;
                let r_a = SpecResolver { in_method: true, ..r_push_scope(r) };
                let r_b = r_define(r_declare(r_a, "this"@), "this"@);
                let r_c = res_function(r_b, ms[i]);
                SpecResolver { in_method: saved, ..r_pop_scope(r_c) }
            },
            _ => r,
        };
        res_methods(r1, ms, i + 1)
    }
}

/// The whole pass: resolve a statement sequence against a fresh
/// resolver whose only scope is the global one.
pub open spec fn spec_resolve_program(prog: Seq<SpecStmt>) -> SpecResolver {
    res_stmts(init_resolver(), prog, 0)
}

/// First recorded resolution for `id` among `t[i..]`.
pub open spec fn table_lookup_from(
    t: Seq<(ExprId, Resolution)>,
    id: ExprId,
    i: int,
) -> Option<Resolution>
    decreases t.len() - i,
{
    if i < 0 || i >= t.len() {
        None
    } else if t[i].0 == id {
        Some(t[i].1)
    } else {
        table_lookup_from(t, id, i + 1)
    }
}

pub open spec fn table_lookup(t: Seq<(ExprId, Resolution)>, id: ExprId) -> Option<Resolution> {
    table_lookup_from(t, id, 0)
}

fn table_find_from(t: &Vec<(ExprId, Resolution)>, id: ExprId, i: usize) -> (r: Option<Resolution>)
    ensures
        r == table_lookup_from(t@, id, i as int),
    decreases t.len() - i,
{
    if i >= t.len() {
        None
    } else if t[i].0 == id {
        Some(t[i].1)
    } else {
        table_find_from(t, id, i + 1)
    }
}

/// The recorded resolution of an identity-tagged node, if any.
pub fn table_find(t: &Vec<(ExprId, Resolution)>, id: ExprId) -> (r: Option<Resolution>)
    ensures
        r == table_lookup(t@, id),
{
    table_find_from(t, id, 0)
}

fn scope_find_from(scope: &Vec<(String, bool)>, name: &String, i: usize) -> (r: Option<bool>)
    ensures
        r == assoc_find_from(scope_view(scope@), name@, i as int),
    decreases scope.len() - i,
{
    if i >= scope.len() {
        None
    } else {
        match scope_find_from(scope, name, i + 1) {
            Some(b) => Some(b),
            None => {
                if scope[i].0.eq(name) {
                    Some(scope[i].1)
                } else {
                    None
                }
            },
        }
    }
}

fn scope_mark_from(scope: &mut Vec<(String, bool)>, name: &String, i: usize) -> (ok: bool)
    ensures
        match assoc_update_from(scope_view(old(scope)@), name@, true, i as int) {
            Some(s2) => ok && scope_view(final(scope)@) == s2,
            None => !ok && final(scope)@ == old(scope)@,
        },
    decreases scope.len() - i,
{
    if i >= scope.len() {
        false
    } else {
        if scope_mark_from(scope, name, i + 1) {
            true
        } else {
            let hit = scope[i].0.eq(name);
            if hit {
                scope.set(i, (name.clone(), true));
                proof {
                    assert(scope_view(scope@) =~= scope_view(old(scope)@).update(
                        i as int,
                        (name@, true),
                    ));
                }
                true
            } else {
                false
            }
        }
    }
}

/// The resolution pass, mirroring the ghost walk step for step.
pub struct Resolver {
    pub scopes: Vec<Vec<(String, bool)>>,
    pub table: Vec<(ExprId, Resolution)>,
    pub errors: Vec<ResolveError>,
    pub fun_depth: usize,
    pub in_method: bool,
}

impl View for Resolver {
    type V = SpecResolver;

    open spec fn view(&self) -> SpecResolver {
        SpecResolver {
            scopes: scopes_view(self.scopes@),
            table: self.table@,
            errors: errors_view(self.errors@),
            fun_depth: self.fun_depth,
            in_method: self.in_method,
        }
    }
}

impl Resolver {
    pub fn new() -> (r: Resolver)
        ensures
            r@ == init_resolver(),
    {
        let mut scopes: Vec<Vec<(String, bool)>> = Vec::new();
        scopes.push(Vec::new());
        let r = Resolver {
            scopes,
            table: Vec::new(),
            errors: Vec::new(),
            fun_depth: 0,
            in_method: false,
        };
        proof {
            assert(r@.scopes =~~= init_resolver().scopes);
            assert(r@.table =~= init_resolver().table);
            assert(r@.errors =~= init_resolver().errors);
        }
        r
    }

    fn declare(&mut self, name: &String)
        ensures
            final(self)@ == r_declare(old(self)@, name@),
    {
        let n = self.scopes.len();
        if n == 0 {
            return ;
        }
        let dup = n > 1 && scope_find_from(&self.scopes[n - 1], name, 0).is_some();
        if dup {
            self.errors.push(ResolveError::DuplicateDeclaration { name: name.clone() });
        }
        let top = &mut self.scopes[n - 1];
        top.push((name.clone(), false));
        proof {
            assert(errors_view(self.errors@) =~= r_declare(old(self)@, name@).errors);
            assert(scopes_view(self.scopes@) =~~= r_declare(old(self)@, name@).scopes);
        }
    }

    fn define_name(&mut self, name: &String)
        ensures
            final(self)@ == r_define(old(self)@, name@),
    {
        let n = self.scopes.len();
        if n == 0 {
            return ;
        }
        let top = &mut self.scopes[n - 1];
        let ok = scope_mark_from(top, name, 0);
        proof {
            if ok {
                assert(scopes_view(self.scopes@) =~~= r_define(old(self)@, name@).scopes);
            } else {
                assert(scopes_view(self.scopes@) =~~= scopes_view(old(self).scopes@));
            }
        }
    }

    fn push_scope(&mut self)
        ensures
            final(self)@ == r_push_scope(old(self)@),
    {
        self.scopes.push(Vec::new());
        proof {
            assert(scopes_view(self.scopes@) =~~= r_push_scope(old(self)@).scopes);
        }
    }

    fn pop_scope(&mut self)
        ensures
            final(self)@ == r_pop_scope(old(self)@),
    {
        if self.scopes.len() > 1 {
            self.scopes.pop();
            proof {
                assert(scopes_view(self.scopes@) =~~= r_pop_scope(old(self)@).scopes);
            }
        }
    }

    fn inc_depth(&mut self)
        ensures
            final(self)@ == r_inc_depth(old(self)@),
    {
        if self.fun_depth < usize::MAX {
            self.fun_depth = self.fun_depth + 1;
        }
    }

    fn dec_depth(&mut self)
        ensures
            final(self)@ == r_dec_depth(old(self)@),
    {
        if self.fun_depth > 0 {
            self.fun_depth = self.fun_depth - 1;
        }
    }

    fn lookup(&self, name: &String, j: usize) -> (r: Option<usize>)
        requires
            j < self@.scopes.len(),
        ensures
            r == lookup_from(self@.scopes, name@, j as int),
        decreases j,
    {
        if j == 0 {
            None
        } else if scope_find_from(&self.scopes[j], name, 0).is_some() {
            Some(self.scopes.len() - 1 - j)
        } else {
            self.lookup(name, j - 1)
        }
    }

    fn resolve_var(&mut self, id: ExprId, name: &String)
        ensures
            final(self)@ == r_resolve_var(old(self)@, id, name@),
    {
        let n = self.scopes.len();
        let selfref = n > 0 && {
            match scope_find_from(&self.scopes[n - 1], name, 0) {
                Some(b) => !b,
                None => false,
            }
        };
        if selfref {
            self.errors.push(ResolveError::SelfReference { id });
        }
        let this_name: String = "this".to_owned();
        if name.eq(&this_name) && !self.in_method {
            self.errors.push(ResolveError::ReceiverOutsideMethod { id });
        }
        let res = if self.scopes.len() == 0 {
            Resolution::Global
        } else {
            match self.lookup(name, self.scopes.len() - 1) {
                Some(h) => Resolution::Local(h),
                None => Resolution::Global,
            }
        };
        self.table.push((id, res));
        proof {
            let rr = r_resolve_var(old(self)@, id, name@);
            assert(errors_view(self.errors@) =~= rr.errors);
            assert(self.table@ =~= rr.table);
        }
    }

    fn resolve_assign_target(&mut self, id: ExprId, name: &String)
        ensures
            final(self)@ == r_resolve_assign(old(self)@, id, name@),
    {
        let res = if self.scopes.len() == 0 {
            Resolution::Global
        } else {
            match self.lookup(name, self.scopes.len() - 1) {
                Some(h) => Resolution::Local(h),
                None => Resolution::Global,
            }
        };
        self.table.push((id, res));
        proof {
            assert(self.table@ =~= r_resolve_assign(old(self)@, id, name@).table);
        }
    }

    fn declare_params(&mut self, params: &Vec<String>, i: usize)
        ensures
            final(self)@ == r_declare_params(old(self)@, strings_view(params@), i as int),
        decreases params.len() - i,
    {
        if i >= params.len() {
            return ;
        }
        self.declare(&params[i]);
        self.define_name(&params[i]);
        self.declare_params(params, i + 1);
    }

    fn resolve_expr(&mut self, e: &Expr)
        ensures
            final(self)@ == res_expr(old(self)@, e@),
        decreases *e, 0int, 1int,
    {
        match e {
            Expr::Number(_) => {},
            Expr::Str(_) => {},
            Expr::Boolean(_) => {},
            Expr::Nil => {},
            Expr::Binary { left, token_type: _, right } => {
                self.resolve_expr(left);
                self.resolve_expr(right);
            },
            Expr::Call { callee, arguments } => {
                self.resolve_expr(callee);
                self.resolve_exprs(arguments, 0);
            },
            Expr::Get { object, name: _ } => {
                self.resolve_expr(object);
            },
            Expr::SetProp { object, name: _, value } => {
                self.resolve_expr(object);
                self.resolve_expr(value);
            },
            Expr::Grouping { expression } => {
                self.resolve_expr(expression);
            },
            Expr::Unary { token_type: _, right } => {
                self.resolve_expr(right);
            },
            Expr::Logical { left, operator: _, right } => {
                self.resolve_expr(left);
                self.resolve_expr(right);
            },
            Expr::Variable { id, name } => {
                self.resolve_var(*id, name);
            },
            Expr::Assign { id, name, value } => {
                self.resolve_expr(value);
                self.resolve_assign_target(*id, name);
            },
        }
    }

    fn resolve_exprs(&mut self, es: &Vec<Expr>, i: usize)
        ensures
            final(self)@ == res_exprs(old(self)@, exprs_view(es@), i as int),
        decreases es@, es.len() - i, 0int,
    {
        if i >= es.len() {
            return ;
        }
        self.resolve_expr(&es[i]);
        self.resolve_exprs(es, i + 1);
    }

    fn resolve_stmt(&mut self, s: &Stmt)
        ensures
            final(self)@ == res_stmt(old(self)@, s@),
        decreases *s, 0int, 2int,
    {
        match s {
            Stmt::Expression { expression } => {
                self.resolve_expr(expression);
            },
            Stmt::Print { expression } => {
                self.resolve_expr(expression);
            },
            Stmt::Var { name, initializer } => {
                self.declare(name);
                match initializer {
                    Some(e) => {
                        self.resolve_expr(e);
                    },
                    None => {},
                }
                self.define_name(name);
            },
            Stmt::Block { statements } => {
                self.push_scope();
                self.resolve_stmts(statements, 0);
                self.pop_scope();
            },
            Stmt::If { condition, then_branch, else_branch } => {
                self.resolve_expr(condition);
                self.resolve_stmt(then_branch);
                match else_branch {
                    Some(e) => {
                        self.resolve_stmt(e);
                    },
                    None => {},
                }
            },
            Stmt::While { condition, body } => {
                self.resolve_expr(condition);
                self.resolve_stmt(body);
            },
            Stmt::Function { name, parameters: _, body: _ } => {
                self.declare(name);
                self.define_name(name);
                self.resolve_function(s);
            },
            Stmt::Return { value } => {
                if self.fun_depth == 0 {
                    self.errors.push(ResolveError::ReturnOutsideFunction);
                    proof {
                        assert(errors_view(self.errors@) =~= r_err(
                            old(self)@,
                            SpecResolveError::ReturnOutsideFunction,
                        ).errors);
                    }
                }
                match value {
                    Some(e) => {
                        self.resolve_expr(e);
                    },
                    None => {},
                }
            },
            Stmt::Class { name, methods } => {
                self.declare(name);
                self.define_name(name);
                self.resolve_methods(methods, 0);
            },
        }
    }

    fn resolve_function(&mut self, s: &Stmt)
        ensures
            final(self)@ == res_function(old(self)@, s@),
        decreases *s, 0int, 1int,
    {
        match s {
            Stmt::Function { name: _, parameters, body } => {
                self.inc_depth();
                self.push_scope();
                self.declare_params(parameters, 0);
                self.resolve_stmts(body, 0);
                self.pop_scope();
                self.dec_depth();
            },
            _ => {},
        }
    }

    fn resolve_stmts(&mut self, ss: &Vec<Stmt>, i: usize)
        ensures
            final(self)@ == res_stmts(old(self)@, stmts_view(ss@), i as int),
        decreases ss@, ss.len() - i, 0int,
    {
        if i >= ss.len() {
            return ;
        }
        self.resolve_stmt(&ss[i]);
        self.resolve_stmts(ss, i + 1);
    }

    fn resolve_methods(&mut self, ms: &Vec<Stmt>, i: usize)
        ensures
            final(self)@ == res_methods(old(self)@, stmts_view(ms@), i as int),
        decreases ms@, ms.len() - i, 0int,
    {
        if i >= ms.len() {
            return ;
        }
        let is_fun = matches!(&ms[i], Stmt::Function { .. });
        if is_fun {
            let saved = self.in_method;
            self.push_scope();
            self.in_method = true;
            let this_name: String = "this".to_owned();
            self.declare(&this_name);
            self.define_name(&this_name);
            self.resolve_function(&ms[i]);
            self.pop_scope();
            self.in_method = saved;
        }
        self.resolve_methods(ms, i + 1);
    }

    /// Resolve a whole program: the resolution table keyed by node
    /// identity, and the list of resolution errors.  The result is a
    /// pure function of the syntax tree, so resolving the same tree
    /// twice produces identical tables.
    pub fn resolve_program(program: &Vec<Stmt>) -> (out: (
        Vec<(ExprId, Resolution)>,
        Vec<ResolveError>,
    ))
        ensures
            out.0@ == spec_resolve_program(stmts_view(program@)).table,
            errors_view(out.1@) == spec_resolve_program(stmts_view(program@)).errors,
    {
        let mut r = Resolver::new();
        r.resolve_stmts(program, 0);
        let Resolver { table, errors, .. } = r;
        (table, errors)
    }
}

proof fn lemma_assoc_find_last<V>(es: Seq<(Seq<char>, V)>, name: Seq<char>, i: int)
    requires
        0 <= i < es.len(),
        es.last().0 == name,
    ensures
        assoc_find_from(es, name, i) == Some(es.last().1),
    decreases es.len() - i,
{
    if i == es.len() - 1 {
        assert(assoc_find_from(es, name, i + 1) is None);
    } else {
        lemma_assoc_find_last(es, name, i + 1);
    }
}

/// Shadowing: a reference resolves to the innermost local scope that
/// binds the name.  If both an inner and an outer scope bind it, the
/// recorded hop count is the distance to the inner one — strictly
/// shorter than the distance to the outer one.
pub proof fn lemma_shadowing(
    scopes: Seq<Seq<(Seq<char>, bool)>>,
    name: Seq<char>,
    inner: int,
    outer: int,
)
    requires
        scopes.len() <= usize::MAX as nat,
        1 <= outer < inner < scopes.len(),
        assoc_find(scopes[inner], name) is Some,
        assoc_find(scopes[outer], name) is Some,
        forall|k: int| inner < k < scopes.len() ==> #[trigger] assoc_find(scopes[k], name) is None,
    ensures
        lookup_local(scopes, name) == Some((scopes.len() - 1 - inner) as usize),
        ((scopes.len() - 1 - inner) as usize) < ((scopes.len() - 1 - outer) as usize),
{
    lemma_lookup_down(scopes, name, inner, scopes.len() - 1);
}

proof fn lemma_lookup_down(scopes: Seq<Seq<(Seq<char>, bool)>>, name: Seq<char>, j: int, jj: int)
    requires
        scopes.len() <= usize::MAX as nat,
        1 <= j <= jj < scopes.len(),
        assoc_find(scopes[j], name) is Some,
        forall|k: int| j < k < scopes.len() ==> #[trigger] assoc_find(scopes[k], name) is None,
    ensures
        lookup_from(scopes, name, jj) == Some((scopes.len() - 1 - j) as usize),
    decreases jj,
{
    if jj > j {
        lemma_lookup_down(scopes, name, j, jj - 1);
    }
}

/// A self-referential initializer — `var x = x;` — is rejected during
/// resolution, whatever the scope depth, so it can never reach
/// evaluation.
pub proof fn lemma_self_reference_rejected(r: SpecResolver, name: Seq<char>, id: ExprId)
    requires
        r.scopes.len() > 0,
    ensures
        res_stmt(r, SpecStmt::Var { name, initializer: Some(SpecExpr::Variable { id, name }) })
            .errors.contains(SpecResolveError::SelfReference { id }),
{
    let s = SpecStmt::Var { name, initializer: Some(SpecExpr::Variable { id, name }) };
    let r1 = r_declare(r, name);
    let top1 = r1.scopes.last();
    assert(top1.last() == (name, false));
    lemma_assoc_find_last(top1, name, 0);
    assert(assoc_find(top1, name) == Some(false));
    let r2 = res_expr(r1, SpecExpr::Variable { id, name });
    let k = r1.errors.len();
    assert(r2.errors[k as int] == SpecResolveError::SelfReference { id });
    assert(r2.errors.contains(SpecResolveError::SelfReference { id }));
    assert(res_stmt(r, s).errors == r_define(r2, name).errors);
}

} // verus!
