use treewalk::evaluator::{eval_binary_exec, Interp};
use treewalk::resolver::{ResolveError, Resolver};
use treewalk::statement::{Expr, Stmt};
use treewalk::token::TokenType;
use treewalk::value::{RuntimeError, Value};

const FUEL: u64 = 1_000_000;

fn num(n: i64) -> Expr {
    Expr::Number(n)
}

fn text(s: &str) -> Expr {
    Expr::Str(s.to_string())
}

fn variable(id: u64, name: &str) -> Expr {
    Expr::Variable {
        id,
        name: name.to_string(),
    }
}

fn binary(l: Expr, op: TokenType, r: Expr) -> Expr {
    Expr::Binary {
        left: Box::new(l),
        token_type: op,
        right: Box::new(r),
    }
}

fn call(callee: Expr, arguments: Vec<Expr>) -> Expr {
    Expr::Call {
        callee: Box::new(callee),
        arguments,
    }
}

fn print_stmt(e: Expr) -> Stmt {
    Stmt::Print { expression: e }
}

fn expr_stmt(e: Expr) -> Stmt {
    Stmt::Expression { expression: e }
}

fn var_stmt(name: &str, init: Option<Expr>) -> Stmt {
    Stmt::Var {
        name: name.to_string(),
        initializer: init,
    }
}

fn block(statements: Vec<Stmt>) -> Stmt {
    Stmt::Block { statements }
}

fn fun_stmt(name: &str, parameters: Vec<&str>, body: Vec<Stmt>) -> Stmt {
    Stmt::Function {
        name: name.to_string(),
        parameters: parameters.iter().map(|p| p.to_string()).collect(),
        body,
    }
}

fn class_stmt(name: &str, methods: Vec<Stmt>) -> Stmt {
    Stmt::Class {
        name: name.to_string(),
        methods,
    }
}

fn run(prog: &Vec<Stmt>) -> Result<Vec<Value>, RuntimeError> {
    let (table, errors) = Resolver::resolve_program(prog);
    assert!(errors.is_empty(), "unexpected resolve errors: {:?}", errors);
    let mut interp = Interp::new();
    interp.run(&table, prog, FUEL)?;
    Ok(interp.output)
}

#[test]
fn adding_two_numbers_yields_their_sum() {
    let r = eval_binary_exec(TokenType::Plus, &Value::Num(1), &Value::Num(1));
    assert_eq!(r, Ok(Value::Num(2)));
}

#[test]
fn adding_number_and_string_is_a_type_error() {
    let r = eval_binary_exec(
        TokenType::Plus,
        &Value::Num(1),
        &Value::Str("x".to_string()),
    );
    assert_eq!(r, Err(RuntimeError::TypeError));
}

#[test]
fn adding_two_strings_concatenates() {
    let r = eval_binary_exec(
        TokenType::Plus,
        &Value::Str("1".to_string()),
        &Value::Str("x".to_string()),
    );
    assert_eq!(r, Ok(Value::Str("1x".to_string())));
}

#[test]
fn addition_overflow_is_reported() {
    let r = eval_binary_exec(TokenType::Plus, &Value::Num(i64::MAX), &Value::Num(1));
    assert_eq!(r, Err(RuntimeError::Overflow));
}

#[test]
fn division_by_zero_is_its_own_error() {
    let r = eval_binary_exec(TokenType::Slash, &Value::Num(1), &Value::Num(0));
    assert_eq!(r, Err(RuntimeError::DivisionByZero));
}

#[test]
fn division_truncates() {
    let r = eval_binary_exec(TokenType::Slash, &Value::Num(7), &Value::Num(2));
    assert_eq!(r, Ok(Value::Num(3)));
}

#[test]
fn self_referential_initializer_rejected_at_resolution() {
    // var x = x;
    let prog = vec![var_stmt("x", Some(variable(7, "x")))];
    let (_table, errors) = Resolver::resolve_program(&prog);
    assert!(errors.contains(&ResolveError::SelfReference { id: 7 }));
}

#[test]
fn duplicate_local_declaration_rejected() {
    // { var a; var a; }
    let prog = vec![block(vec![var_stmt("a", None), var_stmt("a", None)])];
    let (_table, errors) = Resolver::resolve_program(&prog);
    assert!(errors.contains(&ResolveError::DuplicateDeclaration {
        name: "a".to_string()
    }));
}

#[test]
fn global_redeclaration_is_permitted() {
    let prog = vec![var_stmt("a", Some(num(1))), var_stmt("a", Some(num(2)))];
    let (_table, errors) = Resolver::resolve_program(&prog);
    assert!(errors.is_empty());
}

#[test]
fn return_outside_function_rejected() {
    let prog = vec![Stmt::Return { value: None }];
    let (_table, errors) = Resolver::resolve_program(&prog);
    assert!(errors.contains(&ResolveError::ReturnOutsideFunction));
}

#[test]
fn receiver_outside_method_rejected() {
    let prog = vec![print_stmt(variable(9, "this"))];
    let (_table, errors) = Resolver::resolve_program(&prog);
    assert!(errors.contains(&ResolveError::ReceiverOutsideMethod { id: 9 }));
}

#[test]
fn resolving_twice_gives_identical_tables() {
    let prog = vec![
        var_stmt("a", Some(num(1))),
        block(vec![
            var_stmt("b", Some(variable(1, "a"))),
            print_stmt(variable(2, "b")),
        ]),
    ];
    let (t1, e1) = Resolver::resolve_program(&prog);
    let (t2, e2) = Resolver::resolve_program(&prog);
    assert_eq!(t1, t2);
    assert_eq!(e1, e2);
}

#[test]
fn inner_declaration_shadows_outer() {
    // var x = 1; { var x = 2; print x; }
    let prog = vec![
        var_stmt("x", Some(num(1))),
        block(vec![var_stmt("x", Some(num(2))), print_stmt(variable(1, "x"))]),
    ];
    assert_eq!(run(&prog), Ok(vec![Value::Num(2)]));
}

#[test]
fn closure_captures_by_reference_not_snapshot() {
    // var i = 0; fun f() { return i; } i = 1; print f();
    let prog = vec![
        var_stmt("i", Some(num(0))),
        fun_stmt(
            "f",
            vec![],
            vec![Stmt::Return {
                value: Some(variable(1, "i")),
            }],
        ),
        expr_stmt(Expr::Assign {
            id: 2,
            name: "i".to_string(),
            value: Box::new(num(1)),
        }),
        print_stmt(call(variable(3, "f"), vec![])),
    ];
    assert_eq!(run(&prog), Ok(vec![Value::Num(1)]));
}

#[test]
fn closure_resolved_at_declaration_unaffected_by_later_shadow() {
    // var a = "global";
    // { fun showA() { print a; } showA(); var a = "block"; showA(); }
    let prog = vec![
        var_stmt("a", Some(text("global"))),
        block(vec![
            fun_stmt("showA", vec![], vec![print_stmt(variable(1, "a"))]),
            expr_stmt(call(variable(2, "showA"), vec![])),
            var_stmt("a", Some(text("block"))),
            expr_stmt(call(variable(3, "showA"), vec![])),
        ]),
    ];
    assert_eq!(
        run(&prog),
        Ok(vec![
            Value::Str("global".to_string()),
            Value::Str("global".to_string())
        ])
    );
}

#[test]
fn arity_mismatch_fails_before_running_the_body() {
    // fun f() {} f(1);
    let prog = vec![
        fun_stmt("f", vec![], vec![]),
        expr_stmt(call(variable(1, "f"), vec![num(1)])),
    ];
    let (table, errors) = Resolver::resolve_program(&prog);
    assert!(errors.is_empty());
    let mut interp = Interp::new();
    assert_eq!(
        interp.run(&table, &prog, FUEL),
        Err(RuntimeError::ArityError)
    );
    assert!(interp.output.is_empty());
}

#[test]
fn field_shadows_method_after_assignment() {
    // class C { m() { return 1; } } var i = C(); i.m = 5; print i.m;
    let prog = vec![
        class_stmt(
            "C",
            vec![fun_stmt(
                "m",
                vec![],
                vec![Stmt::Return {
                    value: Some(num(1)),
                }],
            )],
        ),
        var_stmt("i", Some(call(variable(1, "C"), vec![]))),
        expr_stmt(Expr::SetProp {
            object: Box::new(variable(2, "i")),
            name: "m".to_string(),
            value: Box::new(num(5)),
        }),
        print_stmt(Expr::Get {
            object: Box::new(variable(3, "i")),
            name: "m".to_string(),
        }),
    ];
    assert_eq!(run(&prog), Ok(vec![Value::Num(5)]));
}

#[test]
fn return_unwinds_through_nested_blocks_and_loops() {
    // fun f() { while (true) { { return 7; } } } print f();
    let prog = vec![
        fun_stmt(
            "f",
            vec![],
            vec![Stmt::While {
                condition: Expr::Boolean(true),
                body: Box::new(block(vec![block(vec![Stmt::Return {
                    value: Some(num(7)),
                }])])),
            }],
        ),
        print_stmt(call(variable(1, "f"), vec![])),
    ];
    assert_eq!(run(&prog), Ok(vec![Value::Num(7)]));
}

#[test]
fn initializer_binds_receiver_and_arguments() {
    // class C { init(v) { this.x = v; } } var o = C(41); print o.x;
    let prog = vec![
        class_stmt(
            "C",
            vec![fun_stmt(
                "init",
                vec!["v"],
                vec![expr_stmt(Expr::SetProp {
                    object: Box::new(variable(1, "this")),
                    name: "x".to_string(),
                    value: Box::new(variable(2, "v")),
                })],
            )],
        ),
        var_stmt("o", Some(call(variable(3, "C"), vec![num(41)]))),
        print_stmt(Expr::Get {
            object: Box::new(variable(4, "o")),
            name: "x".to_string(),
        }),
    ];
    assert_eq!(run(&prog), Ok(vec![Value::Num(41)]));
}

#[test]
fn class_without_initializer_takes_no_arguments() {
    let prog = vec![
        class_stmt("D", vec![]),
        var_stmt("d", Some(call(variable(1, "D"), vec![num(1)]))),
    ];
    let (table, errors) = Resolver::resolve_program(&prog);
    assert!(errors.is_empty());
    let mut interp = Interp::new();
    assert_eq!(
        interp.run(&table, &prog, FUEL),
        Err(RuntimeError::ArityError)
    );
}

#[test]
fn missing_property_is_undefined_property() {
    let prog = vec![
        class_stmt("E", vec![]),
        var_stmt("e", Some(call(variable(1, "E"), vec![]))),
        print_stmt(Expr::Get {
            object: Box::new(variable(2, "e")),
            name: "q".to_string(),
        }),
    ];
    let (table, errors) = Resolver::resolve_program(&prog);
    assert!(errors.is_empty());
    let mut interp = Interp::new();
    assert_eq!(
        interp.run(&table, &prog, FUEL),
        Err(RuntimeError::UndefinedProperty)
    );
}

#[test]
fn reading_an_undefined_global_fails_at_runtime() {
    let prog = vec![print_stmt(variable(1, "y"))];
    let (table, errors) = Resolver::resolve_program(&prog);
    assert!(errors.is_empty());
    let mut interp = Interp::new();
    assert_eq!(
        interp.run(&table, &prog, FUEL),
        Err(RuntimeError::UndefinedVariable)
    );
}

#[test]
fn calling_a_number_is_not_callable() {
    let prog = vec![expr_stmt(call(num(3), vec![]))];
    let (table, errors) = Resolver::resolve_program(&prog);
    assert!(errors.is_empty());
    let mut interp = Interp::new();
    assert_eq!(
        interp.run(&table, &prog, FUEL),
        Err(RuntimeError::NotCallable)
    );
}

#[test]
fn exhausted_step_budget_is_stack_overflow() {
    let prog = vec![print_stmt(num(1))];
    let (table, errors) = Resolver::resolve_program(&prog);
    assert!(errors.is_empty());
    let mut interp = Interp::new();
    assert_eq!(
        interp.run(&table, &prog, 0),
        Err(RuntimeError::StackOverflow)
    );
}

#[test]
fn zero_is_truthy() {
    // if (0) print 1; else print 2;
    let prog = vec![Stmt::If {
        condition: num(0),
        then_branch: Box::new(print_stmt(num(1))),
        else_branch: Some(Box::new(print_stmt(num(2)))),
    }];
    assert_eq!(run(&prog), Ok(vec![Value::Num(1)]));
}

#[test]
fn logical_operators_short_circuit() {
    // print false and 1; print nil or 3;
    let prog = vec![
        print_stmt(Expr::Logical {
            left: Box::new(Expr::Boolean(false)),
            operator: TokenType::And,
            right: Box::new(num(1)),
        }),
        print_stmt(Expr::Logical {
            left: Box::new(Expr::Nil),
            operator: TokenType::Or,
            right: Box::new(num(3)),
        }),
    ];
    assert_eq!(run(&prog), Ok(vec![Value::Bool(false), Value::Num(3)]));
}

#[test]
fn unary_negation_and_not() {
    let prog = vec![
        print_stmt(Expr::Unary {
            token_type: TokenType::Minus,
            right: Box::new(num(5)),
        }),
        print_stmt(Expr::Unary {
            token_type: TokenType::Bang,
            right: Box::new(Expr::Nil),
        }),
    ];
    assert_eq!(run(&prog), Ok(vec![Value::Num(-5), Value::Bool(true)]));
}

#[test]
fn while_loop_counts() {
    // var n = 0; while (n < 3) { n = n + 1; } print n;
    let prog = vec![
        var_stmt("n", Some(num(0))),
        Stmt::While {
            condition: binary(variable(1, "n"), TokenType::Less, num(3)),
            body: Box::new(block(vec![expr_stmt(Expr::Assign {
                id: 2,
                name: "n".to_string(),
                value: Box::new(binary(variable(3, "n"), TokenType::Plus, num(1))),
            })])),
        },
        print_stmt(variable(4, "n")),
    ];
    assert_eq!(run(&prog), Ok(vec![Value::Num(3)]));
}

#[test]
fn equality_never_coerces() {
    let r = eval_binary_exec(
        TokenType::EqualEqual,
        &Value::Num(1),
        &Value::Str("1".to_string()),
    );
    assert_eq!(r, Ok(Value::Bool(false)));
    let r2 = eval_binary_exec(TokenType::EqualEqual, &Value::Nil, &Value::Nil);
    assert_eq!(r2, Ok(Value::Bool(true)));
}

#[test]
fn expr_id_is_some_only_for_binding_forms() {
    assert_eq!(variable(12, "x").id(), Some(12));
    let assign = Expr::Assign {
        id: 13,
        name: "x".to_string(),
        value: Box::new(num(1)),
    };
    assert_eq!(assign.id(), Some(13));
    assert_eq!(num(1).id(), None);
}
