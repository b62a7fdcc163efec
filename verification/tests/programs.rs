use lox::compiler::err::SyntaxFault;
use lox::compiler::scanner::number_literals;
use lox::instructions::err::RuntimeFault;
use lox::instructions::instructions::BinaryOp;
use lox::values::number::Number;
use lox::values::values::{Message, Piece};
use lox::vm::vm::{Action, VM};

fn render(message: &Message) -> String {
    let mut out = String::new();
    for piece in &message.pieces {
        match piece {
            Piece::Text(bytes) => out.push_str(&String::from_utf8_lossy(bytes)),
            Piece::Number(number) => out.push_str(&f64::from_bits(number.to_bits()).to_string()),
        }
    }
    out
}

fn numbers_of(src: &[u8]) -> Vec<u64> {
    number_literals(src)
        .iter()
        .map(|lexeme| {
            String::from_utf8_lossy(lexeme)
                .parse::<f64>()
                .unwrap()
                .to_bits()
        })
        .collect()
}

/// Runs `src` to its end and gives what it printed, or the fault that stopped it.
fn run(src: &str) -> Result<String, RuntimeFault> {
    let numbers = numbers_of(src.as_bytes());
    let mut vm = VM::interprate(src.as_bytes(), &numbers).expect("the program compiles");
    let mut out = String::new();
    let mut steps = 0;
    loop {
        steps += 1;
        assert!(steps < 100_000, "the program does not end");
        let action = vm.run(1000);
        for line in vm.take_output() {
            out.push_str(&render(&line));
            out.push('\n');
        }
        match action {
            Err(err) => return Err(err.fault),
            Ok(Action::Continue) => {}
            Ok(Action::Finished) => return Ok(out),
            Ok(Action::Arithmetic(op, left, right)) => {
                let l = f64::from_bits(left.to_bits());
                let r = f64::from_bits(right.to_bits());
                let value = match op {
                    BinaryOp::ADD => l + r,
                    BinaryOp::SUBTRACT => l - r,
                    BinaryOp::MULTIPLY => l * r,
                    BinaryOp::DIVIDE => l / r,
                    _ => unreachable!(),
                };
                vm.answer_number(Number::from_bits(value.to_bits())).unwrap();
            }
            Ok(Action::Format(number)) => {
                let text = f64::from_bits(number.to_bits()).to_string();
                vm.answer_text(text.into_bytes()).unwrap();
            }
            Ok(Action::Native(_)) => {
                vm.answer_value(lox::values::values::Value::Number(Number::from_bits(
                    1234.0f64.to_bits(),
                )))
                .unwrap();
            }
        }
    }
}

fn compile_fault(src: &str) -> (SyntaxFault, String) {
    let numbers = numbers_of(src.as_bytes());
    match VM::interprate(src.as_bytes(), &numbers) {
        Ok(_) => panic!("the program compiles"),
        Err(err) => (err.fault, String::from_utf8_lossy(&err.message).to_string()),
    }
}

#[test]
fn arithmetic_follows_precedence() {
    assert_eq!(run("print 1 + 2 * 3;").unwrap(), "7\n");
}

#[test]
fn inner_scope_shadows_outer() {
    assert_eq!(
        run("var a = 1; { var a = 2; print a; } print a;").unwrap(),
        "2\n1\n"
    );
}

#[test]
fn while_loop_counts() {
    assert_eq!(
        run("var i = 0; while (i < 3) { print i; i = i + 1; }").unwrap(),
        "0\n1\n2\n"
    );
}

#[test]
fn assignment_to_const_is_a_compile_error() {
    let (fault, message) = compile_fault("const x = 1; x = 2;");
    assert_eq!(fault, SyntaxFault::ConstAssignment);
    assert_eq!(
        message,
        "Invalid assignment target. Can not assign to const x"
    );
}

#[test]
fn while_loop_at_the_start_of_a_program() {
    assert_eq!(
        run("while (false) { print 1; } print 2;").unwrap(),
        "2\n"
    );
}

#[test]
fn for_loop_counts() {
    assert_eq!(
        run("for (var i = 0; i < 3; i = i + 1) { print i; }").unwrap(),
        "0\n1\n2\n"
    );
}

#[test]
fn if_else_takes_one_branch() {
    assert_eq!(
        run("if (1 < 2) print \"yes\"; else print \"no\"; if (2 < 1) print \"yes\"; else print \"no\";").unwrap(),
        "yes\nno\n"
    );
}

#[test]
fn and_or_short_circuit() {
    assert_eq!(
        run("fun loud() { print \"called\"; return true; } print false and loud(); print true or loud(); print true and loud();").unwrap(),
        "false\ntrue\ncalled\ntrue\n"
    );
}

#[test]
fn functions_take_arguments_and_return() {
    assert_eq!(
        run("fun add(a, b) { return a + b; } print add(1, 2); print add(\"a\", \"b\");").unwrap(),
        "3\nab\n"
    );
}

#[test]
fn wrong_number_of_arguments_is_a_runtime_error() {
    assert_eq!(
        run("fun f(a) { return a; } f(1, 2);"),
        Err(RuntimeFault::ArityMismatch)
    );
}

#[test]
fn strings_and_numbers_concatenate() {
    assert_eq!(
        run("print \"n=\" + 1.5; print 2 + \"x\";").unwrap(),
        "n=1.5\n2x\n"
    );
}

#[test]
fn comparison_and_equality() {
    assert_eq!(
        run("print 1 < 2; print 2 <= 2; print 3 >= 4; print 1 == 1; print 1 != 1; print \"a\" == \"a\"; print nil == false; print -1 < 0;").unwrap(),
        "true\ntrue\nfalse\ntrue\nfalse\ntrue\nfalse\ntrue\n"
    );
}

#[test]
fn closures_read_captured_variables() {
    assert_eq!(
        run("fun make(x) { fun get() { return x; } return get; } var f = make(42); print f();").unwrap(),
        "42\n"
    );
}

#[test]
fn classes_have_methods_and_fields() {
    assert_eq!(
        run("class A { hi() { print \"A\"; } } var a = A(); a.hi(); a.x = 3; print a.x;").unwrap(),
        "A\n3\n"
    );
}

#[test]
fn subclasses_inherit_methods() {
    assert_eq!(
        run("class A { hi() { print \"A\"; } bye() { print \"bye A\"; } } class B < A { bye() { print \"bye B\"; } } var b = B(); b.hi(); b.bye();").unwrap(),
        "A\nbye B\n"
    );
}

#[test]
fn undefined_variable_is_a_compile_error() {
    let (fault, _) = compile_fault("print y;");
    assert_eq!(fault, SyntaxFault::UndefinedVariable);
}

#[test]
fn redeclaration_in_a_scope_is_a_compile_error() {
    let (fault, _) = compile_fault("{ var a = 1; var a = 2; }");
    assert_eq!(fault, SyntaxFault::Redeclaration);
}

#[test]
fn unterminated_string_is_a_scan_error() {
    let (fault, message) = compile_fault("print \"abc;");
    assert_eq!(fault, SyntaxFault::UnterminatedString);
    assert_eq!(message, "Unterminated string");
}

#[test]
fn unexpected_character_is_a_scan_error() {
    let (fault, _) = compile_fault("print 1 @ 2;");
    assert_eq!(fault, SyntaxFault::UnexpectedCharacter);
}

#[test]
fn clock_is_a_host_function() {
    assert_eq!(run("print clock();").unwrap(), "1234\n");
}

#[test]
fn this_is_the_receiver_of_a_method() {
    assert_eq!(
        run("class P { get() { return this.x; } } var p = P(); p.x = 5; print p.get(); var g = p.get; print g();").unwrap(),
        "5\n5\n"
    );
}

#[test]
fn this_outside_a_method_is_a_compile_error() {
    let (fault, _) = compile_fault("print this;");
    assert_eq!(fault, SyntaxFault::InvalidThis);
}

#[test]
fn closures_share_a_captured_variable() {
    assert_eq!(
        run("var b = nil; fun counter() { var n = 0; fun bump() { n = n + 1; return n; } fun read() { return n; } b = bump; return read; } var r = counter(); print r(); b(); b(); print r();").unwrap(),
        "0\n2\n"
    );
}

#[test]
fn deep_recursion_exceeds_the_call_stack() {
    assert_eq!(
        run("fun f() { return f(); } f();"),
        Err(RuntimeFault::CallStackExceeded)
    );
}

#[test]
fn calling_a_number_is_a_runtime_error() {
    assert_eq!(run("var a = 1; a();"), Err(RuntimeFault::NotCallable));
}

#[test]
fn unknown_property_is_a_runtime_error() {
    assert_eq!(
        run("class A { } var a = A(); print a.x;"),
        Err(RuntimeFault::UnknownProperty)
    );
}

#[test]
fn property_of_a_number_is_a_runtime_error() {
    assert_eq!(run("var a = 1; print a.x;"), Err(RuntimeFault::NotAnObject));
}

#[test]
fn inheriting_from_a_number_is_a_runtime_error() {
    assert_eq!(
        run("var a = 1; class B < a { }"),
        Err(RuntimeFault::ParentNotClass)
    );
}

#[test]
fn adding_a_boolean_is_a_runtime_error() {
    assert_eq!(run("print 1 + true;"), Err(RuntimeFault::TypeMismatch));
    assert_eq!(run("print -\"a\";"), Err(RuntimeFault::TypeMismatch));
}

#[test]
fn a_function_has_no_truth_value() {
    assert_eq!(
        run("fun f() { } if (f) print 1;"),
        Err(RuntimeFault::NotBoolean)
    );
}

#[test]
fn recursion_computes() {
    assert_eq!(
        run("fun fib(n) { if (n < 2) return n; return fib(n - 1) + fib(n - 2); } print fib(10);").unwrap(),
        "55\n"
    );
}

#[test]
fn comments_and_lines_are_skipped() {
    assert_eq!(
        run("// a comment\nprint 1; // another\n// last\nprint 2;").unwrap(),
        "1\n2\n"
    );
}

#[test]
fn closures_made_by_two_calls_share_one_captured_variable() {
    // One slot stands for a captured variable, whichever call made the
    // closure: the second call overwrites what the first one captured.
    assert_eq!(
        run("fun make(x) { fun get() { return x; } return get; }\nvar f = make(42); var g = make(7); print f(); print g();").unwrap(),
        "7\n7\n"
    );
}

#[test]
fn a_function_that_runs_to_its_end_captures_nothing() {
    // The locals are dropped before the function leaves, so the closure
    // that escaped through a global finds nil in the captured variable.
    assert_eq!(
        run("var b = nil; fun counter() { var n = 0; fun bump() { n = n + 1; return n; } b = bump; } counter(); b();"),
        Err(RuntimeFault::TypeMismatch)
    );
}

#[test]
fn a_return_inside_the_scope_captures_the_local() {
    assert_eq!(
        run("var b = nil; fun counter() { var n = 0; fun bump() { n = n + 1; return n; } b = bump; return nil; } counter(); print b(); print b();").unwrap(),
        "1\n2\n"
    );
}

#[test]
fn assignment_to_a_global_const_inside_a_function_is_a_compile_error() {
    let (fault, message) = compile_fault("const x = 1; fun f() { x = 2; }");
    assert_eq!(fault, SyntaxFault::ConstAssignment);
    assert_eq!(
        message,
        "Invalid assignment target. Can not assign to const x"
    );
}

#[test]
fn assignment_to_a_captured_const_is_a_compile_error() {
    let (fault, _) = compile_fault("fun o() { const y = 1; fun i() { y = 2; } }");
    assert_eq!(fault, SyntaxFault::ConstAssignment);
    let (fault, _) = compile_fault("fun o() { const y = 1; fun i() { fun j() { y = 2; } } }");
    assert_eq!(fault, SyntaxFault::ConstAssignment);
    let (fault, _) = compile_fault("{ const z = 1; z = 2; }");
    assert_eq!(fault, SyntaxFault::ConstAssignment);
}

#[test]
fn a_variable_that_shadows_a_const_can_be_assigned() {
    assert_eq!(
        run("const x = 1; fun f() { var x = 2; x = 3; return x; } print f(); print x;").unwrap(),
        "3\n1\n"
    );
}

#[test]
fn functions_are_constants() {
    let (fault, _) = compile_fault("fun f() { } f = 1;");
    assert_eq!(fault, SyntaxFault::ConstAssignment);
}
