//! The abstract syntax model: expressions and statements as produced
//! by an outside parser, together with their ghost-level mirrors.
//!
//! Every expression node that denotes a variable access (`Variable`,
//! `Assign`) carries a process-unique identity, distinct from its
//! textual name.  Two syntactically identical references at different
//! lexical positions must resolve independently, so the identity — not
//! structural equality — is the key of the resolution table.

use vstd::prelude::*;

use crate::token::TokenType;

verus! {

/// Identity of a name-binding expression node, assigned by the parser
/// at construction time and never reused.
pub type ExprId = u64;

/// An expression: a closed sum over literals, operator forms, calls,
/// property access, and the two identity-tagged variable forms.
#[derive(Debug)]
pub enum Expr {
    Number(i64),
    Str(String),
    Boolean(bool),
    Nil,
    Binary { left: Box<Expr>, token_type: TokenType, right: Box<Expr> },
    Call { callee: Box<Expr>, arguments: Vec<Expr> },
    Get { object: Box<Expr>, name: String },
    SetProp { object: Box<Expr>, name: String, value: Box<Expr> },
    Grouping { expression: Box<Expr> },
    Unary { token_type: TokenType, right: Box<Expr> },
    Logical { left: Box<Expr>, operator: TokenType, right: Box<Expr> },
    Variable { id: ExprId, name: String },
    Assign { id: ExprId, name: String, value: Box<Expr> },
}

/// A statement: the executable forms of the language.
#[derive(Debug)]
pub enum Stmt {
    Expression { expression: Expr },
    Print { expression: Expr },
    Var { name: String, initializer: Option<Expr> },
    Block { statements: Vec<Stmt> },
    If { condition: Expr, then_branch: Box<Stmt>, else_branch: Option<Box<Stmt>> },
    While { condition: Expr, body: Box<Stmt> },
    Function { name: String, parameters: Vec<String>, body: Vec<Stmt> },
    Return { value: Option<Expr> },
    Class { name: String, methods: Vec<Stmt> },
}

/// Ghost mirror of [`Expr`], with names as character sequences.  All
/// contracts of the resolver and the evaluator are stated over this
/// form.
pub ghost enum SpecExpr {
    Number(i64),
    Str(Seq<char>),
    Boolean(bool),
    Nil,
    Binary { left: Box<SpecExpr>, op: TokenType, right: Box<SpecExpr> },
    Call { callee: Box<SpecExpr>, arguments: Seq<SpecExpr> },
    Get { object: Box<SpecExpr>, name: Seq<char> },
    SetProp { object: Box<SpecExpr>, name: Seq<char>, value: Box<SpecExpr> },
    Grouping { expression: Box<SpecExpr> },
    Unary { op: TokenType, right: Box<SpecExpr> },
    Logical { left: Box<SpecExpr>, op: TokenType, right: Box<SpecExpr> },
    Variable { id: ExprId, name: Seq<char> },
    Assign { id: ExprId, name: Seq<char>, value: Box<SpecExpr> },
}

/// Ghost mirror of [`Stmt`].
pub ghost enum SpecStmt {
    Expression { expression: SpecExpr },
    Print { expression: SpecExpr },
    Var { name: Seq<char>, initializer: Option<SpecExpr> },
    Block { statements: Seq<SpecStmt> },
    If { condition: SpecExpr, then_branch: Box<SpecStmt>, else_branch: Option<Box<SpecStmt>> },
    While { condition: SpecExpr, body: Box<SpecStmt> },
    Function { name: Seq<char>, parameters: Seq<Seq<char>>, body: Seq<SpecStmt> },
    Return { value: Option<SpecExpr> },
    Class { name: Seq<char>, methods: Seq<SpecStmt> },
}

pub open spec fn expr_view(e: Expr) -> SpecExpr
    decreases e,
{
    match e {
        Expr::Number(n) => SpecExpr::Number(n),
        Expr::Str(s) => SpecExpr::Str(s@),
        Expr::Boolean(b) => SpecExpr::Boolean(b),
        Expr::Nil => SpecExpr::Nil,
        Expr::Binary { left, token_type, right } => SpecExpr::Binary {
            left: Box::new(expr_view(*left)),
            op: token_type,
            right: Box::new(expr_view(*right)),
        },
        Expr::Call { callee, arguments } => SpecExpr::Call {
            callee: Box::new(expr_view(*callee)),
            arguments: exprs_view(arguments@),
        },
        Expr::Get { object, name } => SpecExpr::Get {
            object: Box::new(expr_view(*object)),
            name: name@,
        },
        Expr::SetProp { object, name, value } => SpecExpr::SetProp {
            object: Box::new(expr_view(*object)),
            name: name@,
            value: Box::new(expr_view(*value)),
        },
        Expr::Grouping { expression } => SpecExpr::Grouping {
            expression: Box::new(expr_view(*expression)),
        },
        Expr::Unary { token_type, right } => SpecExpr::Unary {
            op: token_type,
            right: Box::new(expr_view(*right)),
        },
        Expr::Logical { left, operator, right } => SpecExpr::Logical {
            left: Box::new(expr_view(*left)),
            op: operator,
            right: Box::new(expr_view(*right)),
        },
        Expr::Variable { id, name } => SpecExpr::Variable { id: id, name: name@ },
        Expr::Assign { id, name, value } => SpecExpr::Assign {
            id: id,
            name: name@,
            value: Box::new(expr_view(*value)),
        },
    }
}

pub open spec fn exprs_view(es: Seq<Expr>) -> Seq<SpecExpr>
    decreases es,
{
    Seq::new(
        es.len(),
        |i: int| if 0 <= i < es.len() { expr_view(es[i]) } else { SpecExpr::Nil },
    )
}

pub open spec fn stmt_view(s: Stmt) -> SpecStmt
    decreases s,
{
    match s {
        Stmt::Expression { expression } => SpecStmt::Expression { expression: expr_view(expression) },
        Stmt::Print { expression } => SpecStmt::Print { expression: expr_view(expression) },
        Stmt::Var { name, initializer } => SpecStmt::Var {
            name: name@,
            initializer: match initializer {
                Some(e) => Some(expr_view(e)),
                None => None,
            },
        },
        Stmt::Block { statements } => SpecStmt::Block { statements: stmts_view(statements@) },
        Stmt::If { condition, then_branch, else_branch } => SpecStmt::If {
            condition: expr_view(condition),
            then_branch: Box::new(stmt_view(*then_branch)),
            else_branch: match else_branch {
                Some(s) => Some(Box::new(stmt_view(*s))),
                None => None,
            },
        },
        Stmt::While { condition, body } => SpecStmt::While {
            condition: expr_view(condition),
            body: Box::new(stmt_view(*body)),
        },
        Stmt::Function { name, parameters, body } => SpecStmt::Function {
            name: name@,
            parameters: strings_view(parameters@),
            body: stmts_view(body@),
        },
        Stmt::Return { value } => SpecStmt::Return {
            value: match value {
                Some(e) => Some(expr_view(e)),
                None => None,
            },
        },
        Stmt::Class { name, methods } => SpecStmt::Class {
            name: name@,
            methods: stmts_view(methods@),
        },
    }
}

pub open spec fn stmts_view(ss: Seq<Stmt>) -> Seq<SpecStmt>
    decreases ss,
{
    Seq::new(
        ss.len(),
        |i: int| if 0 <= i < ss.len() { stmt_view(ss[i]) } else { SpecStmt::Return { value: None } },
    )
}

pub open spec fn strings_view(ns: Seq<String>) -> Seq<Seq<char>> {
    Seq::new(ns.len(), |i: int| ns[i]@)
}

impl View for Expr {
    type V = SpecExpr;

    open spec fn view(&self) -> SpecExpr {
        expr_view(*self)
    }
}

impl View for Stmt {
    type V = SpecStmt;

    open spec fn view(&self) -> SpecStmt {
        stmt_view(*self)
    }
}

/// Copy a parameter list; the copy has the same ghost view.
pub fn clone_strings(ns: &Vec<String>) -> (r: Vec<String>)
    ensures
        strings_view(r@) == strings_view(ns@),
{
    let mut r: Vec<String> = Vec::new();
    let mut i: usize = 0;
    while i < ns.len()
        invariant
            i <= ns.len(),
            r@.len() == i,
            forall|j: int| 0 <= j < i ==> r@[j]@ == ns@[j]@,
        decreases ns.len() - i,
    {
        r.push(ns[i].clone());
        i = i + 1;
    }
    proof {
        assert(strings_view(r@) =~= strings_view(ns@));
    }
    r
}

/// Deep-copy an expression; the copy has the same ghost view.
pub fn clone_expr(e: &Expr) -> (r: Expr)
    ensures
        r@ == e@,
    decreases *e, 0int, 1int,
{
    match e {
        Expr::Number(n) => Expr::Number(*n),
        Expr::Str(s) => Expr::Str(s.clone()),
        Expr::Boolean(b) => Expr::Boolean(*b),
        Expr::Nil => Expr::Nil,
        Expr::Binary { left, token_type, right } => Expr::Binary {
            left: Box::new(clone_expr(left)),
            token_type: *token_type,
            right: Box::new(clone_expr(right)),
        },
        Expr::Call { callee, arguments } => Expr::Call {
            callee: Box::new(clone_expr(callee)),
            arguments: clone_exprs(arguments),
        },
        Expr::Get { object, name } => Expr::Get {
            object: Box::new(clone_expr(object)),
            name: name.clone(),
        },
        Expr::SetProp { object, name, value } => Expr::SetProp {
            object: Box::new(clone_expr(object)),
            name: name.clone(),
            value: Box::new(clone_expr(value)),
        },
        Expr::Grouping { expression } => Expr::Grouping {
            expression: Box::new(clone_expr(expression)),
        },
        Expr::Unary { token_type, right } => Expr::Unary {
            token_type: *token_type,
            right: Box::new(clone_expr(right)),
        },
        Expr::Logical { left, operator, right } => Expr::Logical {
            left: Box::new(clone_expr(left)),
            operator: *operator,
            right: Box::new(clone_expr(right)),
        },
        Expr::Variable { id, name } => Expr::Variable { id: *id, name: name.clone() },
        Expr::Assign { id, name, value } => Expr::Assign {
            id: *id,
            name: name.clone(),
            value: Box::new(clone_expr(value)),
        },
    }
}

/// Deep-copy an expression list; the copy has the same ghost view.
pub fn clone_exprs(es: &Vec<Expr>) -> (r: Vec<Expr>)
    ensures
        exprs_view(r@) == exprs_view(es@),
    decreases es@, 0int, 0int,
{
    let mut r: Vec<Expr> = Vec::new();
    let mut i: usize = 0;
    while i < es.len()
        invariant
            i <= es.len(),
            r@.len() == i,
            forall|j: int| 0 <= j < i ==> expr_view(r@[j]) == expr_view(es@[j]),
        decreases es.len() - i,
    {
        r.push(clone_expr(&es[i]));
        i = i + 1;
    }
    proof {
        assert(exprs_view(r@) =~= exprs_view(es@));
    }
    r
}

/// Deep-copy a statement; the copy has the same ghost view.
pub fn clone_stmt(s: &Stmt) -> (r: Stmt)
    ensures
        r@ == s@,
    decreases *s, 0int, 1int,
{
    match s {
        Stmt::Expression { expression } => Stmt::Expression { expression: clone_expr(expression) },
        Stmt::Print { expression } => Stmt::Print { expression: clone_expr(expression) },
        Stmt::Var { name, initializer } => Stmt::Var {
            name: name.clone(),
            initializer: match initializer {
                Some(e) => Some(clone_expr(e)),
                None => None,
            },
        },
        Stmt::Block { statements } => Stmt::Block { statements: clone_stmts(statements) },
        Stmt::If { condition, then_branch, else_branch } => Stmt::If {
            condition: clone_expr(condition),
            then_branch: Box::new(clone_stmt(then_branch)),
            else_branch: match else_branch {
                Some(b) => Some(Box::new(clone_stmt(b))),
                None => None,
            },
        },
        Stmt::While { condition, body } => Stmt::While {
            condition: clone_expr(condition),
            body: Box::new(clone_stmt(body)),
        },
        Stmt::Function { name, parameters, body } => Stmt::Function {
            name: name.clone(),
            parameters: clone_strings(parameters),
            body: clone_stmts(body),
        },
        Stmt::Return { value } => Stmt::Return {
            value: match value {
                Some(e) => Some(clone_expr(e)),
                None => None,
            },
        },
        Stmt::Class { name, methods } => Stmt::Class {
            name: name.clone(),
            methods: clone_stmts(methods),
        },
    }
}

/// Deep-copy a statement list; the copy has the same ghost view.
pub fn clone_stmts(ss: &Vec<Stmt>) -> (r: Vec<Stmt>)
    ensures
        stmts_view(r@) == stmts_view(ss@),
    decreases ss@, 0int, 0int,
{
    let mut r: Vec<Stmt> = Vec::new();
    let mut i: usize = 0;
    while i < ss.len()
        invariant
            i <= ss.len(),
            r@.len() == i,
            forall|j: int| 0 <= j < i ==> stmt_view(r@[j]) == stmt_view(ss@[j]),
        decreases ss.len() - i,
    {
        r.push(clone_stmt(&ss[i]));
        i = i + 1;
    }
    proof {
        assert(stmts_view(r@) =~= stmts_view(ss@));
    }
    r
}

impl SpecExpr {
    /// The identity of a ghost-level node, where it carries one.
    pub open spec fn spec_id(self) -> Option<ExprId> {
        match self {
            SpecExpr::Variable { id, .. } => Some(id),
            SpecExpr::Assign { id, .. } => Some(id),
            _ => None,
        }
    }
}

impl Expr {
    /// The identity tag of this node: `Some` exactly for the two
    /// name-binding forms `Variable` and `Assign`.
    pub fn id(&self) -> (r: Option<ExprId>)
        ensures
            r == self@.spec_id(),
    {
        match self {
            Expr::Variable { id, name: _ } => Some(*id),
            Expr::Assign { id, name: _, value: _ } => Some(*id),
            _ => None,
        }
    }
}

} // verus!
