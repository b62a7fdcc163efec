use lox::args::{LoxArgs, Mode};
use lox::compiler::compiler::Compiler;
use lox::errors::err::ErrTraitBase;
use lox::errors::ioerr::{InpErr, SrcErr};
use lox::instructions::chunk::Chunk;
use lox::instructions::define::DefinitionScope;
use lox::instructions::err::{ChunkErr, InstructionErr, RuntimeFault};
use lox::instructions::instructions::{
    Binary, BinaryOp, Call, Constant, Define, ForceJump, Get, Inherit, Instruction,
    InstructionType, Jump, NoOp, Override, Pop, PopN, Print, Resolve, SetField, This, Unary,
    UnaryOp,
};
use lox::runners::{InteractiveRunner, SrcRunner};
use lox::values::err::ValueErr;
use lox::values::func::{Func, Native};
use lox::values::number::Number;
use lox::values::obj::{Class, Heap, Instance};
use lox::values::values::{Message, Piece, Value};
use lox::vm::natives::load_natives;
use lox::vm::state::{Frame, Request, State};
use lox::vm::table::Table;
use lox::vm::vm::{Action, VM};

fn render(message: &Message) -> String {
    let mut out = String::new();
    for piece in &message.pieces {
        match piece {
            Piece::Text(bytes) => out.push_str(&String::from_utf8_lossy(bytes)),
            Piece::Number(number) => out.push_str(&f64::from_bits(number.to_bits()).to_string()),
        }
    }
    out
}

fn num(value: f64) -> Value {
    Value::Number(Number::from_bits(value.to_bits()))
}

fn text(value: &str) -> Value {
    Value::String(value.as_bytes().to_vec())
}

fn state() -> State {
    State::new(Table::new(), Heap::new(), Vec::new())
}

fn shown(value: &Value) -> String {
    render(&Message {
        pieces: vec![value.display(&Vec::new(), &Heap::new())],
    })
}

fn compile(src: &str, numbers: &[f64]) -> Vec<String> {
    let bits: Vec<u64> = numbers.iter().map(|n| n.to_bits()).collect();
    let program = Compiler::compile(src.as_bytes(), &bits, Table::new(), Heap::new())
        .expect("the program compiles");
    let main = &program.functions[program.main];
    main.chunk
        .code
        .iter()
        .map(|i| render(&i.display(&program.functions, &program.heap)))
        .collect()
}

#[test]
fn a_table_maps_names_to_values() {
    let mut table = Table::new();
    assert_eq!(table.keys(), 0);
    assert!(!table.has(b"a"));
    assert!(table.resolve(b"a").is_none());
    assert!(table.override_(b"a", num(1.0)).is_none());
    assert!(!table.has(b"a"));
    table.add(b"a".to_vec(), num(1.0));
    table.add(b"b".to_vec(), text("x"));
    table.add(b"a".to_vec(), num(2.0));
    assert_eq!(table.keys(), 2);
    assert_eq!(shown(&table.resolve(b"a").unwrap()), "2");
    assert_eq!(shown(&table.override_(b"a", num(3.0)).unwrap()), "2");
    assert_eq!(shown(&table.resolve(b"a").unwrap()), "3");
    assert_eq!(shown(&table.resolve(b"b").unwrap()), "x");
    let copy = table.copy();
    assert_eq!(copy.keys(), 2);
    assert_eq!(table.name_at(1), &b"b".to_vec());
}

#[test]
fn values_are_written() {
    assert_eq!(shown(&num(1.5)), "1.5");
    assert_eq!(shown(&text("hi")), "hi");
    assert_eq!(shown(&Value::Nil), "nil");
    assert_eq!(shown(&Value::Bool(true)), "true");
    assert_eq!(shown(&Value::Bool(false)), "false");
    let functions = vec![Func::new(b"f".to_vec(), Chunk::new(), 0, 0)];
    let mut heap = Heap::new();
    heap.add_native(Native::new(b"clock".to_vec(), 0));
    let class = heap.add_class(Class::new(b"A".to_vec()));
    let instance = heap.add_instance(Instance::new(class));
    let show = |v: Value| {
        render(&Message {
            pieces: vec![v.display(&functions, &heap)],
        })
    };
    assert_eq!(show(Value::Func(0)), "<Fun f>");
    assert_eq!(show(Value::Method(0, instance)), "<Fun f>");
    assert_eq!(show(Value::ClassMethod(0)), "<Fun f>");
    assert_eq!(show(Value::Native(0)), "<Native Fun clock>");
    assert_eq!(show(Value::Class(class)), "<Class A>");
    assert_eq!(show(Value::Instance(instance)), "<Instance A>");
    assert_eq!(show(Value::Func(7)), "<Fun ?>");
}

#[test]
fn values_have_truth_and_equality() {
    let functions: Vec<Func> = Vec::new();
    let heap = Heap::new();
    assert_eq!(Value::Nil.is_truthy(), Some(false));
    assert_eq!(num(0.0).is_truthy(), Some(false));
    assert_eq!(num(-0.0).is_truthy(), Some(false));
    assert_eq!(num(2.0).is_truthy(), Some(true));
    assert_eq!(text("").is_truthy(), Some(true));
    assert_eq!(Value::Bool(false).is_truthy(), Some(false));
    assert_eq!(Value::Class(0).is_truthy(), None);
    assert_eq!(Value::Bool(true).truthy(&functions, &heap).unwrap(), true);
    let err: ValueErr = Value::Func(0).truthy(&functions, &heap).unwrap_err();
    assert_eq!(err.fault, RuntimeFault::NotBoolean);
    assert_eq!(
        render(&err.message),
        "<Fun ?> can't be coerced into a boolean value"
    );
    assert_eq!(
        render(&err.describe()),
        "Value Err::: <Fun ?>: <Fun ?> can't be coerced into a boolean value "
    );
    assert!(num(1.0).equals(&num(1.0), &functions, &heap));
    assert!(!num(1.0).equals(&text("1"), &functions, &heap));
    assert!(!num(f64::NAN).equals(&num(f64::NAN), &functions, &heap));
    assert!(text("a").equals(&text("a"), &functions, &heap));
    assert!(Value::Nil.equals(&Value::Nil, &functions, &heap));
    assert!(!Value::Nil.equals(&Value::Bool(false), &functions, &heap));
    assert_eq!(shown(&text("a").copy()), "a");
}

#[test]
fn stack_instructions() {
    let functions: Vec<Func> = Vec::new();
    let mut s = state();
    assert_eq!(Constant::new(num(1.0)).eval(&mut s).unwrap(), 0);
    assert_eq!(Constant::new(num(2.0)).eval(&mut s).unwrap(), 0);
    assert_eq!(Constant::new(num(3.0)).eval(&mut s).unwrap(), 0);
    assert_eq!(s.depth(), 3);
    assert_eq!(Pop::new().eval(&mut s).unwrap(), 0);
    assert_eq!(s.depth(), 2);
    assert_eq!(NoOp::new().eval(&mut s).unwrap(), 0);
    assert_eq!(s.depth(), 2);
    assert_eq!(PopN::new(5).eval(&mut s).unwrap(), 0);
    assert_eq!(s.depth(), 0);
    assert_eq!(Pop::new().eval(&mut s).unwrap(), 0);
    assert_eq!(ForceJump::new(9).eval(&mut s).unwrap(), 9);
    s.push(text("out"));
    assert_eq!(Print::new().eval(&functions, &mut s).unwrap(), 0);
    assert_eq!(s.depth(), 0);
    assert_eq!(s.output.len(), 1);
    assert_eq!(render(&s.output[0]), "out");
    assert_eq!(
        Print::new().eval(&functions, &mut s).unwrap_err().fault,
        RuntimeFault::Corrupt
    );
}

#[test]
fn unary_and_binary_instructions() {
    let functions: Vec<Func> = Vec::new();
    let mut s = state();
    s.push(num(2.0));
    Unary::new(UnaryOp::Negate).eval(&mut s).unwrap();
    assert_eq!(shown(&s.at(0)), "-2");
    Unary::new(UnaryOp::Bang).eval(&mut s).unwrap();
    assert_eq!(shown(&s.at(0)), "false");
    assert_eq!(
        Unary::new(UnaryOp::Negate).eval(&mut s).unwrap_err().fault,
        RuntimeFault::TypeMismatch
    );
    assert_eq!(s.depth(), 1);
    s.push(text("a"));
    s.push(text("b"));
    Binary::new(BinaryOp::ADD).eval(&functions, &mut s).unwrap();
    assert_eq!(shown(&s.at(1)), "ab");
    s.push(num(1.0));
    s.push(num(2.0));
    Binary::new(BinaryOp::LESS).eval(&functions, &mut s).unwrap();
    assert_eq!(shown(&s.at(2)), "true");
    s.push(num(1.0));
    s.push(num(2.0));
    Binary::new(BinaryOp::GREATER).eval(&functions, &mut s).unwrap();
    assert_eq!(shown(&s.at(3)), "false");
    s.push(num(1.0));
    s.push(num(2.0));
    Binary::new(BinaryOp::EQUAL).eval(&functions, &mut s).unwrap();
    assert_eq!(shown(&s.at(4)), "false");
    assert_eq!(s.depth(), 5);
    // Sums of numbers are asked of the driver.
    s.push(num(1.0));
    s.push(num(2.0));
    Binary::new(BinaryOp::ADD).eval(&functions, &mut s).unwrap();
    assert_eq!(s.depth(), 5);
    assert!(matches!(s.request, Request::Arithmetic(BinaryOp::ADD, _, _)));
    s.ask(Request::Idle);
    s.push(num(1.0));
    s.push(text("x"));
    Binary::new(BinaryOp::ADD).eval(&functions, &mut s).unwrap();
    assert!(matches!(
        s.request,
        Request::Format {
            number_first: true,
            ..
        }
    ));
    s.ask(Request::Idle);
    s.push(Value::Nil);
    s.push(num(1.0));
    let err = Binary::new(BinaryOp::SUBTRACT)
        .eval(&functions, &mut s)
        .unwrap_err();
    assert_eq!(err.fault, RuntimeFault::TypeMismatch);
    assert_eq!(s.depth(), 7);
}

#[test]
fn jumps_decide_on_the_top_of_the_stack() {
    let mut s = state();
    assert_eq!(
        Jump::new(7, true).eval(&mut s).unwrap_err().fault,
        RuntimeFault::Corrupt
    );
    s.push(Value::Bool(false));
    assert_eq!(Jump::new(7, true).eval(&mut s).unwrap(), 7);
    assert_eq!(Jump::new(7, false).eval(&mut s).unwrap(), 0);
    s.push(num(1.0));
    assert_eq!(Jump::new(7, true).eval(&mut s).unwrap(), 0);
    assert_eq!(Jump::new(7, false).eval(&mut s).unwrap(), 7);
    assert_eq!(s.depth(), 2);
    s.push(Value::Class(0));
    assert_eq!(
        Jump::new(7, true).eval(&mut s).unwrap_err().fault,
        RuntimeFault::NotBoolean
    );
}

#[test]
fn variables_are_defined_read_and_written() {
    let mut s = state();
    s.push(num(1.0));
    Define::new(DefinitionScope::Global, b"g".to_vec())
        .eval(&mut s)
        .unwrap();
    assert_eq!(s.depth(), 1);
    assert_eq!(shown(&s.globals.resolve(b"g").unwrap()), "1");
    Define::new(DefinitionScope::Local(0), b"l".to_vec())
        .eval(&mut s)
        .unwrap();
    s.push(num(2.0));
    Override::new(b"g".to_vec(), DefinitionScope::Global)
        .eval(&mut s, 0)
        .unwrap();
    Resolve::new(b"g".to_vec(), DefinitionScope::Global)
        .eval(&mut s, 0)
        .unwrap();
    assert_eq!(shown(&s.at(2)), "2");
    // A local is addressed from the start of the window.
    s.push(num(9.0));
    Override::new(b"l".to_vec(), DefinitionScope::Local(0))
        .eval(&mut s, 1)
        .unwrap();
    assert_eq!(shown(&s.at(1)), "9");
    Resolve::new(b"l".to_vec(), DefinitionScope::Local(0))
        .eval(&mut s, 1)
        .unwrap();
    assert_eq!(shown(&s.at(4)), "9");
    let err = Resolve::new(b"nope".to_vec(), DefinitionScope::Global)
        .eval(&mut s, 0)
        .unwrap_err();
    assert_eq!(err.fault, RuntimeFault::UndefinedVariable);
    assert_eq!(
        render(&err.message),
        "undefined variable:: nope not found"
    );
    let err = Override::new(b"nope".to_vec(), DefinitionScope::Global)
        .eval(&mut s, 0)
        .unwrap_err();
    assert_eq!(err.fault, RuntimeFault::UndefinedVariable);
    assert_eq!(
        Resolve::new(b"l".to_vec(), DefinitionScope::Local(50))
            .eval(&mut s, 0)
            .unwrap_err()
            .fault,
        RuntimeFault::Corrupt
    );
    assert_eq!(
        Resolve::new(b"u".to_vec(), DefinitionScope::UpValue(0))
            .eval(&mut s, 0)
            .unwrap_err()
            .fault,
        RuntimeFault::Corrupt
    );
}

#[test]
fn a_call_with_the_wrong_arity_names_both_counts() {
    let mut f = Func::new(b"f".to_vec(), Chunk::new(), 0, 0);
    f.set_arity(2);
    assert_eq!(f.arity(), 2);
    assert_eq!(f.name(), b"f".to_vec());
    let functions = vec![f];
    let mut s = state();
    s.push(Value::Func(0));
    s.push(num(1.0));
    let err = Call::new(1, 3, b"f(1);".to_vec())
        .eval(&functions, &mut s)
        .unwrap_err();
    assert_eq!(err.fault, RuntimeFault::ArityMismatch);
    assert_eq!(
        render(&err.message),
        "\nLine 3: f(1);\n         ^\n         -------- Expected 2 argument(s) for <Fun f> found 1\n"
    );
    assert_eq!(s.depth(), 2);
    s.push(num(2.0));
    Call::new(2, 3, b"f(1, 2);".to_vec())
        .eval(&functions, &mut s)
        .unwrap();
    assert_eq!(s.depth(), 2);
    assert_eq!(s.frames.len(), 1);
    assert_eq!(s.frames[0].func, 0);
    assert_eq!(s.frames[0].stack_offset, 0);
    assert_eq!(s.frames[0].receiver, None);
}

#[test]
fn classes_make_instances_with_properties() {
    let functions = vec![Func::new(b"m".to_vec(), Chunk::new(), 0, 0)];
    let mut s = state();
    let mut class = Class::new(b"A".to_vec());
    assert_eq!(class.name(), b"A".to_vec());
    class.set_method(b"m".to_vec(), 0);
    assert!(class.get_method(b"m").is_some());
    assert!(class.get_method(b"n").is_none());
    let a = s.heap.add_class(class);
    s.push(Value::Class(a));
    Call::new(0, 1, Vec::new()).eval(&functions, &mut s).unwrap();
    assert!(matches!(s.at(0), Value::Instance(0)));
    s.push(num(5.0));
    SetField::new(b"x".to_vec(), 1, Vec::new())
        .eval(&functions, &mut s)
        .unwrap();
    assert_eq!(s.depth(), 1);
    assert_eq!(shown(&s.at(0)), "5");
    s.push(Value::Instance(0));
    Get::new(b"x".to_vec(), 1, Vec::new())
        .eval(&functions, &mut s)
        .unwrap();
    assert_eq!(shown(&s.at(1)), "5");
    s.push(Value::Instance(0));
    Get::new(b"m".to_vec(), 1, Vec::new())
        .eval(&functions, &mut s)
        .unwrap();
    assert!(matches!(s.at(2), Value::Method(0, 0)));
    s.push(Value::Class(a));
    Get::new(b"m".to_vec(), 1, Vec::new())
        .eval(&functions, &mut s)
        .unwrap();
    assert!(matches!(s.at(3), Value::ClassMethod(0)));
    s.push(Value::Instance(0));
    assert_eq!(
        Get::new(b"zz".to_vec(), 1, Vec::new())
            .eval(&functions, &mut s)
            .unwrap_err()
            .fault,
        RuntimeFault::UnknownProperty
    );
    s.push(text("no instance"));
    s.push(num(1.0));
    assert_eq!(
        SetField::new(b"zz".to_vec(), 1, Vec::new())
            .eval(&functions, &mut s)
            .unwrap_err()
            .fault,
        RuntimeFault::NotAnObject
    );
    // A bound method is called on its instance.
    let mut t = state();
    t.push(Value::Method(0, 4));
    Call::new(0, 1, Vec::new()).eval(&functions, &mut t).unwrap();
    assert_eq!(t.frames[0].receiver, Some(4));
    This::new().eval(&mut t).unwrap();
    assert!(matches!(t.at(0), Value::Instance(4)));
    t.frames[0] = Frame {
        func: 0,
        ip: 0,
        stack_offset: 0,
        receiver: None,
    };
    assert_eq!(
        This::new().eval(&mut t).unwrap_err().fault,
        RuntimeFault::NoReceiver
    );
}

#[test]
fn a_child_takes_the_methods_it_lacks() {
    let functions: Vec<Func> = Vec::new();
    let mut s = state();
    let mut parent = Class::new(b"P".to_vec());
    parent.set_method(b"a".to_vec(), 1);
    parent.set_method(b"b".to_vec(), 2);
    let mut child = Class::new(b"C".to_vec());
    child.set_method(b"b".to_vec(), 3);
    let p = s.heap.add_class(parent);
    let c = s.heap.add_class(child);
    s.globals.add(b"C".to_vec(), Value::Class(c));
    s.push(Value::Class(p));
    Inherit::new(DefinitionScope::Global, b"C".to_vec(), 1, Vec::new())
        .eval(&functions, &mut s, 0)
        .unwrap();
    assert_eq!(s.depth(), 0);
    assert_eq!(s.heap.get_method(c, b"a"), Some(1));
    assert_eq!(s.heap.get_method(c, b"b"), Some(3));
    assert_eq!(s.heap.get_method(p, b"b"), Some(2));
    assert_eq!(s.heap.get_method(p, b"zz"), None);
    s.globals.add(b"n".to_vec(), num(1.0));
    s.push(Value::Class(p));
    assert_eq!(
        Inherit::new(DefinitionScope::Global, b"n".to_vec(), 1, Vec::new())
            .eval(&functions, &mut s, 0)
            .unwrap_err()
            .fault,
        RuntimeFault::ChildNotClass
    );
    s.push(num(1.0));
    assert_eq!(
        Inherit::new(DefinitionScope::Global, b"C".to_vec(), 1, Vec::new())
            .eval(&functions, &mut s, 0)
            .unwrap_err()
            .fault,
        RuntimeFault::ParentNotClass
    );
}

#[test]
fn instructions_know_their_opcode() {
    assert_eq!(Pop::new().disassemble(), InstructionType::OP_POP);
    assert_eq!(PopN::new(1).disassemble(), InstructionType::OP_POPN);
    assert_eq!(NoOp::new().disassemble(), InstructionType::OP_NONE);
    assert_eq!(Jump::new(1, true).disassemble(), InstructionType::OP_JUMP);
    assert_eq!(ForceJump::new(1).disassemble(), InstructionType::OP_JUMP);
    assert_eq!(This::new().disassemble(), InstructionType::OP_THIS);
    assert_eq!(InstructionType::OP_CALL.name(), "OP_CALL");
    assert_eq!(UnaryOp::Bang.to_string(), "!");
    assert_eq!(BinaryOp::EQUAL.symbol(), "==");
}

#[test]
fn a_chunk_swaps_instructions_in_range_only() {
    let mut chunk = Chunk::new();
    chunk.write_to_chunk(Instruction::NoOp(NoOp::new()), 4).unwrap();
    chunk.write_to_chunk(Instruction::Pop(Pop::new()), 5).unwrap();
    assert_eq!(chunk.len(), 2);
    chunk.swap_instructions(0, 1).unwrap();
    assert_eq!(
        chunk.disassemble(),
        vec![InstructionType::OP_POP, InstructionType::OP_NONE]
    );
    assert_eq!(chunk.lines, vec![4, 5]);
    let err: ChunkErr = chunk.swap_instructions(0, 2).unwrap_err();
    assert_eq!(err.line, 5);
    assert_eq!(
        err.message,
        b"instruction swap failed for the bounds: 0 < --- > 2".to_vec()
    );
    assert_eq!(
        render(&err.raise()),
        "Chunk processing err @ Line 5:: instruction swap failed for the bounds: 0 < --- > 2\n"
    );
    assert_eq!(
        chunk.disassemble(),
        vec![InstructionType::OP_POP, InstructionType::OP_NONE]
    );
}

#[test]
fn the_compiler_emits_what_the_grammar_says() {
    assert_eq!(
        compile("print 1 + 2 * 3;", &[1.0, 2.0, 3.0]),
        vec![
            "OP_NONE",
            "OP_CONST       1",
            "OP_CONST       2",
            "OP_CONST       3",
            "\"*\"",
            "\"+\"",
            "OP_PRINT"
        ]
    );
    // A scope drops one value for each of its locals.
    assert_eq!(
        compile("{ var a = 1; var b = 2; }", &[1.0, 2.0]),
        vec![
            "OP_NONE",
            "OP_CONST       1",
            "OP_DEFINE       a",
            "OP_CONST       2",
            "OP_DEFINE       b",
            "OP_POPN       2"
        ]
    );
    // The jump of `and` stands before the right operand and leads past it.
    assert_eq!(
        compile("true and false;", &[]),
        vec![
            "OP_NONE",
            "OP_CONST       true",
            "OP_JUMP_IF_false       5",
            "OP_POP",
            "OP_CONST       false",
            "OP_NONE",
            "OP_POP"
        ]
    );
    assert_eq!(
        compile("var a = 1; a = 2; print a != 3;", &[1.0, 2.0, 3.0]),
        vec![
            "OP_NONE",
            "OP_CONST       1",
            "OP_DEFINE       a",
            "OP_CONST       2",
            "OP_OVERRIDE @Global      a",
            "OP_POP",
            "OP_RESOLVE @Global      a",
            "OP_CONST       3",
            "\"==\"",
            "OP_UNARY Bang",
            "OP_PRINT"
        ]
    );
    assert_eq!(
        compile("while (true) print 1;", &[1.0]),
        vec![
            "OP_NONE",
            "OP_CONST       true",
            "OP_JUMP_IF_false       7",
            "OP_POP",
            "OP_CONST       1",
            "OP_PRINT",
            "OP_JUMP       1",
            "OP_NONE",
            "OP_POP"
        ]
    );
}

#[test]
fn the_machine_asks_and_takes_answers() {
    let src = b"print 1 + 2;";
    let mut vm = VM::interprate(src, &[1.0f64.to_bits(), 2.0f64.to_bits()]).unwrap();
    assert!(vm.answer_number(Number::from_bits(0)).is_err());
    assert!(vm.answer_text(Vec::new()).is_err());
    assert!(vm.answer_value(Value::Nil).is_err());
    let action = vm.run(100).unwrap();
    assert!(matches!(action, Action::Arithmetic(BinaryOp::ADD, _, _)));
    // The request is repeated until it is answered.
    assert_eq!(vm.step().unwrap(), action);
    assert!(vm.answer_text(Vec::new()).is_err());
    vm.answer_number(Number::from_bits(3.0f64.to_bits())).unwrap();
    assert_eq!(vm.run(100).unwrap(), Action::Finished);
    let lines = vm.take_output();
    assert_eq!(lines.len(), 1);
    assert_eq!(render(&lines[0]), "3");
    assert!(vm.take_output().is_empty());
    assert_eq!(vm.run(100).unwrap(), Action::Finished);
}

#[test]
fn the_machine_stops_when_the_fuel_runs_out() {
    let src = b"var i = 0; while (true) { i = 1; }";
    let mut vm = VM::interprate(src, &[0.0f64.to_bits(), 1.0f64.to_bits()]).unwrap();
    assert_eq!(vm.run(0).unwrap(), Action::Continue);
    assert_eq!(vm.run(1000).unwrap(), Action::Continue);
    assert_eq!(vm.run(1000).unwrap(), Action::Continue);
}

#[test]
fn a_runtime_error_leaves_the_calls_in_progress() {
    let src = b"fun inner() { return 1 + nil; } fun outer() { return inner(); } outer();";
    let mut vm = VM::interprate(src, &[1.0f64.to_bits()]).unwrap();
    let err: InstructionErr = vm.run(1000).unwrap_err();
    assert_eq!(err.fault, RuntimeFault::TypeMismatch);
    assert_eq!(
        vm.trace(),
        vec![b"inner".to_vec(), b"outer".to_vec(), b"__main__".to_vec()]
    );
    assert_eq!(
        render(&err.describe()),
        "Instruction Err::: \"+\": \"+\" can only be performed on 2 Numbers/Strings or used for string concatenation "
    );
}

#[test]
fn host_functions_are_loaded() {
    let mut globals = Table::new();
    let mut heap = Heap::new();
    load_natives(&mut globals, &mut heap);
    assert!(matches!(globals.resolve(b"clock"), Some(Value::Native(0))));
    assert_eq!(heap.name_of_native(0), b"clock".to_vec());
    assert_eq!(heap.arity_of_native(0), 0);
    let native = Native::new(b"n".to_vec(), 2);
    assert_eq!(native.name(), b"n".to_vec());
    assert_eq!(native.arity(), 2);
}

#[test]
fn the_interactive_runner_gathers_lines() {
    let mut runner = InteractiveRunner::new();
    assert_eq!(InteractiveRunner::banner(), "The Lox Interpreter\n");
    assert_eq!(runner.prompt(), ">>>  ");
    assert_eq!(runner.feed(b"\n"), None);
    assert_eq!(runner.prompt(), ">>>  ");
    assert_eq!(runner.feed(b"print 1;\n"), None);
    assert_eq!(runner.prompt(), "...  ");
    assert_eq!(runner.feed(b"\r"), None);
    assert_eq!(runner.feed(b"print 2;\n"), None);
    assert_eq!(runner.feed(b"\n"), Some(b"print 1;\nprint 2;\n".to_vec()));
    assert_eq!(runner.prompt(), ">>>  ");
}

#[test]
fn the_arguments_choose_the_runner() {
    let file = LoxArgs {
        src: Some(b"a.lox".to_vec()),
    };
    match file.process_req() {
        Mode::Source(runner) => assert_eq!(runner.path, b"a.lox".to_vec()),
        Mode::Interactive(_) => panic!("a path was given"),
    }
    assert!(matches!(
        LoxArgs { src: None }.process_req(),
        Mode::Interactive(_)
    ));
}

#[test]
fn errors_of_reading_are_raised() {
    let runner = SrcRunner::new(b"a.lox".to_vec());
    let err: SrcErr = runner.missing();
    assert_eq!(
        render(&err.raise()),
        "IO Error:: File a.lox: Could not find src file: a.lox\n"
    );
    assert_eq!(
        render(&InpErr::new(b"closed".to_vec()).raise()),
        "IO Error:: Failed to read input stream; closed"
    );
}

#[test]
fn errors_at_a_place_show_the_line() {
    let functions: Vec<Func> = Vec::new();
    let mut s = state();
    s.push(num(3.0));
    let err = Call::new(0, 2, b"3();".to_vec())
        .eval(&functions, &mut s)
        .unwrap_err();
    assert_eq!(err.fault, RuntimeFault::NotCallable);
    assert_eq!(
        render(&err.message),
        "\nLine 2: 3();\n        ^\n        -------- Call pattern `identifier(...)` only allowed for functions/class initializations/methods, not 3\n"
    );
    assert_eq!(render(&err.instruction_str), "3(...)");
    let err = Get::new(b"x".to_vec(), 4, b"a.x;".to_vec())
        .eval(&functions, &mut s)
        .unwrap_err();
    assert_eq!(err.fault, RuntimeFault::NotAnObject);
    assert_eq!(
        render(&err.message),
        "\nLine 4: a.x;\n          ^\n          -------- Property accesses only supported for classes & instances not `3`\n"
    );
    assert_eq!(render(&err.instruction_str), "3.x");
    assert_eq!(render(&err.raise()), render(&err.message) + "\n");
    s.push(Value::Nil);
    let err = SetField::new(b"x".to_vec(), 4, b"a.x = nil;".to_vec())
        .eval(&functions, &mut s)
        .unwrap_err();
    assert_eq!(
        render(&err.message),
        "\nLine 4: a.x = nil;\n          ^\n          -------- The dot notation is only supported for instances of classes, not `3`\n"
    );
}

#[test]
fn answers_without_a_question_are_refused() {
    let mut vm = VM::interprate(b"", &[]).unwrap();
    assert_eq!(
        vm.answer_number(Number::from_bits(0)).unwrap_err().message,
        b"No sum, product or quotient was asked for".to_vec()
    );
    assert_eq!(
        vm.answer_text(Vec::new()).unwrap_err().message,
        b"No numeral was asked for".to_vec()
    );
    assert_eq!(
        vm.answer_value(Value::Nil).unwrap_err().message,
        b"No host function was called".to_vec()
    );
    assert_eq!(vm.run(10).unwrap(), Action::Finished);
}

#[test]
fn a_host_function_counts_its_argument_in_the_singular() {
    let functions: Vec<Func> = Vec::new();
    let mut s = state();
    let clock = s.heap.add_native(Native::new(b"clock".to_vec(), 0));
    s.push(Value::Native(clock));
    s.push(num(1.0));
    let err = Call::new(1, 5, b"clock(1);".to_vec())
        .eval(&functions, &mut s)
        .unwrap_err();
    assert_eq!(err.fault, RuntimeFault::ArityMismatch);
    assert_eq!(
        render(&err.message),
        "\nLine 5: clock(1);\n         ^\n         -------- Expected 0 argument for <Native Fun clock> found 1\n"
    );
}

fn captures(offset: usize, count: usize, slots: &[usize], stack: &[f64], returning: bool) -> Vec<String> {
    let func = Func::new(b"f".to_vec(), Chunk::new(), offset, count);
    let upvalues = slots
        .iter()
        .map(|index| lox::compiler::compiler::UpValue {
            index: *index,
            value: Value::Nil,
        })
        .collect();
    let mut s = State::new(Table::new(), Heap::new(), upvalues);
    s.push(text("below"));
    for value in stack {
        s.push(num(*value));
    }
    let frame = Frame {
        func: 0,
        ip: 0,
        stack_offset: 1,
        receiver: None,
    };
    s.frames.push(frame);
    func.leave(frame, &mut s, returning);
    assert_eq!(s.frames.len(), 0);
    s.upvalues.iter().map(|u| shown(&u.value)).collect()
}

#[test]
fn a_function_that_leaves_copies_its_captured_locals() {
    // One captured variable whose local is the only value of the window.
    assert_eq!(captures(0, 1, &[0], &[5.0], true), vec!["5"]);
    assert_eq!(captures(0, 1, &[0], &[5.0], false), vec!["5"]);
    // Only the slots of the range, and only where the local is on the stack.
    assert_eq!(
        captures(1, 2, &[0, 1, 0, 1], &[5.0, 6.0], true),
        vec!["nil", "6", "5", "nil"]
    );
    assert_eq!(captures(0, 2, &[0, 7], &[5.0], true), vec!["5", "nil"]);
    assert_eq!(captures(0, 1, &[0], &[], true), vec!["nil"]);
}

#[test]
fn a_function_that_returns_hands_back_the_top_of_its_window() {
    let func = Func::new(b"f".to_vec(), Chunk::new(), 0, 0);
    let mut s = state();
    s.push(text("below"));
    s.push(num(1.0));
    s.push(num(2.0));
    let frame = Frame {
        func: 0,
        ip: 0,
        stack_offset: 1,
        receiver: None,
    };
    s.frames.push(frame);
    func.leave(frame, &mut s, true);
    assert_eq!(s.depth(), 2);
    assert_eq!(shown(&s.at(1)), "2");
    s.frames.push(frame);
    func.leave(frame, &mut s, false);
    assert_eq!(s.depth(), 3);
    assert_eq!(shown(&s.at(2)), "nil");
}
