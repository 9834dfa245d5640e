use rlisp::{
    Error, Interpretor, Lexer, Number, Object, Operation, Parser, Request, Status,
};

fn number(x: f64) -> Object {
    Object::Number(Number::from_bits(x.to_bits()))
}

fn answer(request: &Request) -> Object {
    match request {
        Request::Arithmetic { operation, left, right } => {
            let l = f64::from_bits(left.bits);
            let r = f64::from_bits(right.bits);
            number(match operation {
                Operation::Add => l + r,
                Operation::Subtract => l - r,
                Operation::Multiply => l * r,
                Operation::Divide => l / r,
            })
        }
        Request::Literal { text } => number(text.parse::<f64>().unwrap()),
        Request::Display { number } => Object::String(format!("{}", f64::from_bits(number.bits))),
        Request::Native { .. } => number(1234.0),
    }
}

fn drive(interpretor: &mut Interpretor) {
    let mut rounds = 0;
    loop {
        rounds += 1;
        assert!(rounds < 100_000);
        match interpretor.run(1000) {
            Status::Running => {}
            Status::Halted => break,
            Status::Waiting => {
                let reply = answer(interpretor.request().unwrap());
                interpretor.resume(reply);
            }
        }
    }
}

fn run(input: &str) -> Interpretor {
    let lexer = Lexer::new(input.to_string());
    let mut parser = Parser::new(lexer);
    let program = parser.parse_program().unwrap();
    let mut interpretor = Interpretor::new();
    interpretor.interpret(program);
    drive(&mut interpretor);
    interpretor
}

fn printed(input: &str) -> Vec<String> {
    run(input).output().clone()
}

fn reported(input: &str) -> Vec<String> {
    run(input).errors().iter().map(|e| e.report()).collect()
}

#[test]
fn test_literal() {
    let input = "nil; true; false; 123; \"Hello, world!\";";
    let interpretor = run(input);
    assert!(interpretor.errors().is_empty());
    assert!(interpretor.output().is_empty());
}

#[test]
fn test_constant() {
    let input = "
        const a = 1 + 2 * 3;  # declaring a variable
        const a = 100;        # redeclaring the const variable
        ";
    let interpretor = run(input);
    let output = interpretor.environment().get(&"a".to_string()).unwrap();
    assert_eq!(output, number(7.0));
    assert_eq!(
        interpretor.errors()[0].error,
        Error::Syntax("cannot reassign a constant variable".to_string())
    );
}

#[test]
fn division() {
    assert_eq!(printed("print 7 / 2;"), vec!["3.5"]);
    assert_eq!(printed("print 1 / 4; print 10 / 5;"), vec!["0.25", "2"]);
    assert_eq!(
        reported("print 1 / 0;"),
        vec!["ZeroDivisionError: division by zero, line 1, pos 8"]
    );
    assert_eq!(
        reported("print 1 / (0 * 5);"),
        vec!["ZeroDivisionError: division by zero, line 1, pos 8"]
    );
}

#[test]
fn string_repetition() {
    assert_eq!(
        printed("print \"Hello, world!\" * 3;"),
        vec!["Hello, world!Hello, world!Hello, world!"]
    );
    assert_eq!(printed("print 3 * \"ab\";"), vec!["ababab"]);
    assert_eq!(printed("print \"ab\" * 0;"), vec![""]);
    assert_eq!(printed("print \"ab\" * 2.9;"), vec!["abab"]);
}

#[test]
fn constants() {
    let interpretor = run("const x = 1; x = 2; print x;");
    assert_eq!(interpretor.output(), &vec!["1".to_string()]);
    assert_eq!(
        interpretor.errors()[0].report(),
        "SyntaxError: cannot reassign a constant variable, line 1, pos 13"
    );
    let interpretor = run("const x; print 5;");
    assert_eq!(
        interpretor.errors()[0].report(),
        "SyntaxError: cannot declare a constant without a value, line 1, pos 6"
    );
    assert_eq!(
        interpretor.environment().get(&"x".to_string()),
        Err(Error::Name("x".to_string()))
    );
    assert_eq!(interpretor.output(), &vec!["5".to_string()]);
}

#[test]
fn closures_use_the_defining_scope() {
    let input = "
        fn make(n) { fn inc() { return n + 1; } return inc; }
        let n = 100;
        let f = make(5);
        print f();
        fn caller() { let n = 50; return f(); }
        print caller();
        ";
    assert_eq!(printed(input), vec!["6", "6"]);
}

#[test]
fn closures_share_their_scope() {
    let input = "
        fn counter() {
            let count = 0;
            fn next() { count += 1; return count; }
            return next;
        }
        let a = counter();
        let b = counter();
        print a(); print a(); print b();
        ";
    assert_eq!(printed(input), vec!["1", "2", "1"]);
}

#[test]
fn for_loop() {
    assert_eq!(
        printed("for (let i = 0; i < 3; i += 1) { print i; }"),
        vec!["0", "1", "2"]
    );
    assert_eq!(
        printed("let i = 5; for (; i < 7; i += 1) print i; print i;"),
        vec!["5", "6", "7"]
    );
    assert_eq!(
        printed("for (let i = 0; ; i += 1) { if (i >= 2) break; print i; }"),
        vec!["0", "1"]
    );
}

#[test]
fn while_loop_with_break_and_continue() {
    let input = "
        let i = 0;
        while (true) {
            i += 1;
            if (i == 2) continue;
            if (i > 4) break;
            print i;
        }
        print \"done\";
        ";
    assert_eq!(printed(input), vec!["1", "3", "4", "done"]);
}

#[test]
fn undefined_variable_is_reported_and_execution_goes_on() {
    let interpretor = run("print undefined_name;\nprint 2;");
    assert_eq!(
        interpretor.errors()[0].report(),
        "NameError: undefined variable \"undefined_name\", line 1, pos 6"
    );
    assert_eq!(interpretor.errors().len(), 1);
    assert_eq!(interpretor.output(), &vec!["2".to_string()]);
}

#[test]
fn errors_carry_line_and_column() {
    let interpretor = run("let a = 1;\n  print a + \"x\";\nprint -true;");
    let lines: Vec<String> = interpretor.errors().iter().map(|e| e.report()).collect();
    assert_eq!(
        lines,
        vec![
            "RuntimeError: Operands must be two numbers or two strings., line 2, pos 10",
            "RuntimeError: Operand must be a number., line 3, pos 6",
        ]
    );
}

#[test]
fn blocks_scope_their_names() {
    let input = "
        let a = 1;
        {
            let a = 2;
            let b = 3;
            print a;
        }
        print a;
        print b;
        ";
    let interpretor = run(input);
    assert_eq!(interpretor.output(), &vec!["2".to_string(), "1".to_string()]);
    assert_eq!(interpretor.errors()[0].error, Error::Name("b".to_string()));
    assert_eq!(interpretor.environment().current(), 0);
}

#[test]
fn scope_is_restored_after_an_error() {
    let input = "
        fn f() { { let inner = 1; print missing; } }
        f();
        print \"after\";
        ";
    let interpretor = run(input);
    assert_eq!(interpretor.errors()[0].error, Error::Name("missing".to_string()));
    assert_eq!(interpretor.output(), &vec!["after".to_string()]);
    assert_eq!(interpretor.environment().current(), 0);
}

#[test]
fn operators() {
    assert_eq!(printed("print 1 + 2 * 3;"), vec!["7"]);
    assert_eq!(printed("print (1 + 2) * 3;"), vec!["9"]);
    assert_eq!(printed("print -(1 / (2 * 32));"), vec!["-0.015625"]);
    assert_eq!(printed("print \"a\" + \"b\";"), vec!["ab"]);
    assert_eq!(printed("print 1 < 2; print 2 <= 2; print 3 > 4; print 4 >= 5;"), vec!["true", "true", "false", "false"]);
    assert_eq!(printed("print 1 == 1; print 1 != 1; print 1 == \"1\"; print nil == nil;"), vec!["true", "false", "false", "true"]);
    assert_eq!(printed("print \"a\" == \"a\"; print \"a\" != \"b\"; print true == false;"), vec!["true", "true", "false"]);
    assert_eq!(printed("print true && false; print true || false;"), vec!["false", "true"]);
    assert_eq!(printed("print !nil; print !0; print !1; print !\"\"; print !\"x\";"), vec!["true", "true", "false", "true", "false"]);
    assert_eq!(printed("print 5 * true; print false * 5; print 5 / true;"), vec!["5", "0", "5"]);
    assert_eq!(printed("print +3; print - 3; print --3;"), vec!["3", "-3", "3"]);
    assert_eq!(printed("print 0 == -0; print 0.1 + 0.2 == 0.3;"), vec!["true", "false"]);
}

#[test]
fn operator_errors() {
    assert_eq!(
        reported("print 1 - \"a\";"),
        vec!["RuntimeError: Operands must be two numbers., line 1, pos 8"]
    );
    assert_eq!(
        reported("print 1 && true;"),
        vec!["RuntimeError: Operands must be two booleans., line 1, pos 8"]
    );
    assert_eq!(
        reported("print nil * 2;"),
        vec!["RuntimeError: Operands must be two numbers or a string and a number., line 1, pos 10"]
    );
    assert_eq!(
        reported("print 1 < \"2\";"),
        vec!["RuntimeError: Operands must be two numbers., line 1, pos 8"]
    );
    assert_eq!(
        reported("let x = 7; x %= 2;"),
        vec!["RuntimeError: Invalid Logical operator., line 1, pos 13"]
    );
    assert_eq!(
        reported("print 1 | 2;"),
        vec!["RuntimeError: Invalid Logical operator., line 1, pos 8"]
    );
}

#[test]
fn calls() {
    assert_eq!(printed("fn add(a, b) { return a + b; } print add(1, 2);"), vec!["3"]);
    assert_eq!(printed("fn nothing() { } print nothing();"), vec!["nil"]);
    assert_eq!(printed("fn early() { return; print 1; } print early();"), vec!["nil"]);
    assert_eq!(printed("fn f() { while (true) { return 7; } } print f();"), vec!["7"]);
    assert_eq!(
        printed("fn fib(n) { if (n < 2) return n; return fib(n - 1) + fib(n - 2); } print fib(10);"),
        vec!["55"]
    );
    assert_eq!(printed("fn f() {} print f;"), vec!["<function>"]);
    assert_eq!(printed("print time();"), vec!["1234"]);
}

#[test]
fn call_errors() {
    assert_eq!(
        reported("\"text\"();"),
        vec!["TypeError: text is not callable, line 1, pos 6"]
    );
    assert_eq!(reported("12(1);"), vec!["TypeError: 12 is not callable, line 1, pos 2"]);
    assert_eq!(reported("nil();"), vec!["TypeError: nil is not callable, line 1, pos 3"]);
    assert_eq!(
        reported("fn f(a) {} f(1, 2);"),
        vec!["RuntimeError: Expected 1 arguments but got 2, line 1, pos 12"]
    );
    assert_eq!(
        reported("time(1);"),
        vec!["RuntimeError: Expected 0 arguments but got 1, line 1, pos 4"]
    );
    assert_eq!(reported("time = 1;"), vec!["SyntaxError: cannot reassign a constant variable, line 1, pos 0"]);
}

#[test]
fn unfinished_parts_are_reported() {
    assert_eq!(
        reported("class A { } print 1;"),
        vec!["RuntimeError: class is not implemented, line 1, pos 6"]
    );
    assert_eq!(
        reported("let a = 1; a.b;"),
        vec!["RuntimeError: property access is not implemented, line 1, pos 13"]
    );
    assert_eq!(
        reported("let a = 1; a.b = 2;"),
        vec!["RuntimeError: property assignment is not implemented, line 1, pos 13"]
    );
    assert_eq!(
        reported("super.x;"),
        vec!["RuntimeError: super is not implemented, line 1, pos 6"]
    );
    assert_eq!(printed("class A { } print 1;"), vec!["1"]);
}

#[test]
fn assignment_is_an_expression() {
    assert_eq!(printed("let a = 1; let b = 2; print a = b = 5; print a; print b;"), vec!["5", "5", "5"]);
    assert_eq!(printed("let a = 1; a += 2; a *= 3; a -= 1; a /= 4; print a;"), vec!["2"]);
}

#[test]
fn one_step_at_a_time() {
    let mut parser = Parser::new(Lexer::new("print \"a\"; print \"b\";".to_string()));
    let program = parser.parse_program().unwrap();
    let mut interpretor = Interpretor::new();
    assert_eq!(interpretor.status(), Status::Halted);
    interpretor.interpret(program);
    assert_eq!(interpretor.status(), Status::Running);
    assert_eq!(interpretor.run(0), Status::Running);
    assert!(interpretor.output().is_empty());
    let mut steps = 0;
    while interpretor.step() == Status::Running {
        steps += 1;
    }
    assert_eq!(steps, 8);
    assert_eq!(interpretor.take_output(), vec!["a", "b"]);
    assert!(interpretor.output().is_empty());
    assert_eq!(interpretor.step(), Status::Halted);
}

#[test]
fn the_host_is_asked() {
    let mut parser = Parser::new(Lexer::new("1.5 + 2;".to_string()));
    let program = parser.parse_program().unwrap();
    let mut interpretor = Interpretor::new();
    interpretor.interpret(program);
    assert_eq!(interpretor.run(100), Status::Waiting);
    assert_eq!(interpretor.request(), Some(&Request::Literal { text: "1.5".to_string() }));
    assert_eq!(interpretor.run(100), Status::Waiting);
    interpretor.resume(number(1.5));
    assert_eq!(interpretor.run(100), Status::Waiting);
    assert_eq!(interpretor.request(), Some(&Request::Literal { text: "2".to_string() }));
    interpretor.resume(number(2.0));
    assert_eq!(interpretor.run(100), Status::Waiting);
    assert_eq!(
        interpretor.request(),
        Some(&Request::Arithmetic {
            operation: Operation::Add,
            left: Number::from_bits(1.5f64.to_bits()),
            right: Number::from_bits(2.0f64.to_bits()),
        })
    );
    interpretor.resume(number(3.5));
    assert_eq!(interpretor.run(100), Status::Halted);
    assert!(interpretor.request().is_none());
}

#[test]
fn expressions_and_blocks_can_be_loaded() {
    let mut parser = Parser::new(Lexer::new("let a = 2; { let a = 3; print a; } a == 2;".to_string()));
    let program = parser.parse_program().unwrap();
    let mut interpretor = Interpretor::new();
    interpretor.exec(&program.stmts[0]);
    drive(&mut interpretor);
    interpretor.exec(&program.stmts[1]);
    drive(&mut interpretor);
    assert_eq!(interpretor.output(), &vec!["3".to_string()]);
    match &program.stmts[2] {
        rlisp::Stmt::Expr { expr } => interpretor.eval(expr),
        _ => unreachable!(),
    }
    drive(&mut interpretor);
    assert_eq!(interpretor.value(), Some(&Object::Boolean(true)));
    assert!(interpretor.failure().is_none());
    match &program.stmts[1] {
        rlisp::Stmt::Block { stmts } => interpretor.exec_block(stmts, 0),
        _ => unreachable!(),
    }
    drive(&mut interpretor);
    assert_eq!(interpretor.take_output(), vec!["3", "3"]);
    assert_eq!(interpretor.environment().get(&"a".to_string()).unwrap(), Object::Number(Number::from_bits(3.0f64.to_bits())));
}

#[test]
fn scopes_are_given_up_when_they_are_left() {
    let input = "
        let i = 0;
        let total = 0;
        while (i < 500) { let step = 2; { total += step; } i += 1; }
        fn twice(x) { { let y = x * 2; return y; } }
        for (let k = 0; k < 100; k += 1) { total += twice(k); }
        print total;
        ";
    let interpretor = run(input);
    assert_eq!(interpretor.output(), &vec!["10900".to_string()]);
    assert!(interpretor.errors().is_empty());
    assert_eq!(interpretor.environment().scope_count(), 1);
    assert_eq!(interpretor.environment().current(), 0);
}

#[test]
fn captured_scopes_are_kept() {
    let input = "
        fn make(n) { fn get() { return n; } return get; }
        let a = make(1);
        { let unused = 0; }
        let b = make(2);
        { let c = make(3); print c(); }
        print a(); print b(); print a() + b();
        ";
    let interpretor = run(input);
    assert_eq!(interpretor.output(), &vec!["3", "1", "2", "3"]);
    assert_eq!(interpretor.environment().scope_count(), 8);
}

#[test]
fn an_error_inside_a_call_gives_up_its_scopes() {
    let input = "
        fn f(x) { { { print x + nil; } } }
        f(1); f(2);
        print \"ok\";
        ";
    let interpretor = run(input);
    assert_eq!(interpretor.errors().len(), 2);
    assert_eq!(interpretor.output(), &vec!["ok".to_string()]);
    assert_eq!(interpretor.environment().scope_count(), 1);
}

#[test]
fn a_function_value_can_be_called_by_the_host() {
    let mut interpretor = run("fn add(a, b) { return a + b; }");
    let function = match interpretor.environment().get(&"add".to_string()).unwrap() {
        Object::Function(f) => f,
        _ => unreachable!(),
    };
    assert_eq!(function.arity(), 2);
    function.call(&mut interpretor, &vec![number(2.0), number(3.0)]);
    drive(&mut interpretor);
    assert_eq!(interpretor.value(), Some(&number(5.0)));
    function.call(&mut interpretor, &vec![number(2.0)]);
    drive(&mut interpretor);
    assert_eq!(
        interpretor.failure().map(|e| e.error.clone()),
        Some(Error::Runtime("Expected 2 arguments but got 1".to_string()))
    );
    let fresh = Interpretor::default();
    assert_eq!(fresh.status(), Status::Halted);
    assert_eq!(fresh.environment().scope_count(), 1);
}

#[test]
fn long_loops_run_in_bounded_space() {
    let input = "
        let i = 0;
        let sum = 0;
        while (i < 20000) { sum += i; i += 1; }
        print sum;
        ";
    let interpretor = run(input);
    assert_eq!(interpretor.output(), &vec!["199990000".to_string()]);
    assert_eq!(interpretor.environment().scope_count(), 1);
}
