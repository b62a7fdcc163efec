use lox::compiler::compiler::{Compiler, FunctionType};
use lox::compiler::err::SyntaxFault;
use lox::compiler::parser::Parser;
use lox::values::obj::Heap;
use lox::compiler::rules::{construct_rule, InfixRule, Precendence, PrefixRule};
use lox::compiler::token::TokenType;
use lox::instructions::chunk::Chunk;
use lox::instructions::define::DefinitionScope;
use lox::instructions::instructions::{Instruction, InstructionType};
use lox::values::values::Value;
use lox::vm::table::Table;

fn compiler() -> Compiler {
    Compiler::new(Table::new(), Vec::new())
}

#[test]
fn globals_live_at_depth_zero() {
    let mut c = compiler();
    assert_eq!(c.scope(), 0);
    assert_eq!(c.add_local(b"a".to_vec(), false), DefinitionScope::Global);
    // The name is known as a global at once, with the value nil.
    assert!(c.globals().has(b"a"));
    assert!(matches!(c.globals().resolve(b"a"), Some(Value::Nil)));
    c.mark_latest_init();
    assert_eq!(c.resolve(b"a"), Some(DefinitionScope::Global));
    assert_eq!(c.resolve(b"b"), None);
}

#[test]
fn locals_get_their_position() {
    let mut c = compiler();
    c.add_local(b"g".to_vec(), false);
    c.mark_latest_init();
    assert_eq!(c.start_scope(), Some(1));
    assert_eq!(c.add_local(b"a".to_vec(), false), DefinitionScope::Local(1));
    c.mark_latest_init();
    assert_eq!(c.add_local(b"b".to_vec(), true), DefinitionScope::Local(2));
    c.mark_latest_init();
    assert_eq!(c.resolve(b"a"), Some(DefinitionScope::Local(1)));
    assert_eq!(c.resolve(b"b"), Some(DefinitionScope::Local(2)));
    assert_eq!(c.resolve(b"g"), Some(DefinitionScope::Global));
    assert!(c.check_const(2));
    assert!(!c.check_const(1));
    assert!(!c.check_const(9));
    assert!(c.check_const_from_token(b"b"));
    assert!(!c.check_const_from_token(b"a"));
    assert!(!c.check_const_from_token(b"zz"));
}

#[test]
fn a_local_is_invisible_until_it_is_initialized() {
    let mut c = compiler();
    c.start_scope();
    c.add_local(b"x".to_vec(), false);
    assert_eq!(c.resolve(b"x"), None);
    c.mark_latest_init();
    assert_eq!(c.resolve(b"x"), Some(DefinitionScope::Local(0)));
}

#[test]
fn the_newest_local_shadows() {
    let mut c = compiler();
    c.start_scope();
    c.add_local(b"x".to_vec(), false);
    c.mark_latest_init();
    c.start_scope();
    c.add_local(b"x".to_vec(), false);
    // While the inner one is being initialized, the outer one is seen.
    assert_eq!(c.resolve(b"x"), Some(DefinitionScope::Local(0)));
    c.mark_latest_init();
    assert_eq!(c.resolve(b"x"), Some(DefinitionScope::Local(1)));
    assert_eq!(c.close_scope(), Some(1));
    assert_eq!(c.resolve(b"x"), Some(DefinitionScope::Local(0)));
}

#[test]
fn closing_a_scope_counts_its_locals() {
    let mut c = compiler();
    assert_eq!(c.close_scope(), None);
    c.start_scope();
    c.add_local(b"a".to_vec(), false);
    c.start_scope();
    c.add_local(b"b".to_vec(), false);
    c.add_local(b"c".to_vec(), false);
    assert_eq!(c.scope(), 2);
    assert_eq!(c.close_scope(), Some(2));
    assert_eq!(c.scope(), 1);
    assert_eq!(c.close_scope(), Some(1));
    assert_eq!(c.scope(), 0);
}

#[test]
fn redeclaration_is_found_in_the_innermost_scope_only() {
    let mut c = compiler();
    c.start_scope();
    c.add_local(b"a".to_vec(), false);
    assert_eq!(c.resolve_in_scope(b"a"), Some(0));
    assert_eq!(c.resolve_in_scope(b"b"), None);
    c.start_scope();
    assert_eq!(c.resolve_in_scope(b"a"), None);
    c.add_local(b"a".to_vec(), false);
    assert_eq!(c.resolve_in_scope(b"a"), Some(1));
}

#[test]
fn an_inner_function_captures_a_local_once() {
    let mut c = compiler();
    c.start_scope();
    c.add_local(b"x".to_vec(), false);
    c.mark_latest_init();
    c.add_local(b"y".to_vec(), false);
    c.mark_latest_init();
    c.begin_function(FunctionType::Function(b"f".to_vec(), 1), None);
    c.start_scope();
    assert_eq!(c.resolve(b"y"), Some(DefinitionScope::UpValue(0)));
    assert_eq!(c.resolve(b"x"), Some(DefinitionScope::UpValue(1)));
    assert_eq!(c.resolve(b"y"), Some(DefinitionScope::UpValue(0)));
    assert_eq!(c.upvalues.len(), 2);
    assert_eq!(c.upvalues[0].index, 1);
    assert_eq!(c.upvalues[1].index, 0);
    // A function inside the function reaches the same slots.
    c.begin_function(FunctionType::Function(b"g".to_vec(), 1), None);
    assert_eq!(c.resolve(b"x"), Some(DefinitionScope::UpValue(1)));
    assert_eq!(c.upvalues.len(), 2);
    let inner = c.end_function().expect("the level of g");
    assert_eq!(inner.upvalue_start, 2);
    let outer = c.end_function().expect("the level of f");
    assert_eq!(outer.upvalue_start, 0);
    assert!(c.end_function().is_none());
}

#[test]
fn methods_are_told_from_functions() {
    let mut c = compiler();
    assert!(!c.in_method());
    c.begin_function(FunctionType::Method(b"m".to_vec(), 3), Some(b"Base".to_vec()));
    assert!(c.in_method());
    assert_eq!(c.inheriting(), Some(b"Base".to_vec()));
    c.count_parameter();
    c.count_parameter();
    let level = c.end_function().unwrap();
    assert_eq!(level.arity, 2);
    assert_eq!(FunctionType::Script.context(), b"__main__".to_vec());
    assert_eq!(level.type_.context(), b"m".to_vec());
}

#[test]
fn closing_a_scope_emits_the_drop() {
    let mut c = compiler();
    let mut chunk = Chunk::new();
    assert_eq!(c.end_scope(&mut chunk, 1), None);
    assert_eq!(chunk.len(), 0);
    c.start_scope();
    c.start_scope();
    c.add_local(b"a".to_vec(), false);
    c.add_local(b"b".to_vec(), false);
    assert_eq!(c.end_scope(&mut chunk, 7), Some(1));
    assert_eq!(chunk.disassemble(), vec![InstructionType::OP_POPN]);
    assert_eq!(chunk.lines, vec![7]);
    match &chunk.code[0] {
        Instruction::PopN(pop) => assert_eq!(pop.n, 2),
        _ => panic!("not a drop"),
    }
    assert_eq!(c.end_scope(&mut chunk, 8), Some(0));
    match &chunk.code[1] {
        Instruction::PopN(pop) => assert_eq!(pop.n, 0),
        _ => panic!("not a drop"),
    }
}

#[test]
fn the_const_flag_follows_the_resolution() {
    let mut c = compiler();
    c.add_local(b"g".to_vec(), true);
    c.mark_latest_init();
    c.add_local(b"v".to_vec(), false);
    c.mark_latest_init();
    c.begin_function(FunctionType::Function(b"f".to_vec(), 1), None);
    c.start_scope();
    c.add_local(b"k".to_vec(), true);
    c.mark_latest_init();
    c.add_local(b"w".to_vec(), false);
    c.mark_latest_init();
    c.begin_function(FunctionType::Function(b"h".to_vec(), 1), None);
    c.start_scope();
    // A global constant, a constant of the enclosing function, and none.
    assert!(c.check_const_from_token(b"g"));
    assert!(c.check_const_from_token(b"k"));
    assert!(!c.check_const_from_token(b"v"));
    assert!(!c.check_const_from_token(b"w"));
    assert!(!c.check_const_from_token(b"nobody"));
    // A local of the same name decides.
    c.add_local(b"g".to_vec(), false);
    c.mark_latest_init();
    assert!(!c.check_const_from_token(b"g"));
}

#[test]
fn a_refused_assignment_emits_nothing() {
    let src = b"const x = 1; x = 2;";
    let numbers = [1.0f64.to_bits(), 2.0f64.to_bits()];
    let mut parser = Parser::new(src, &numbers, compiler(), Heap::new()).unwrap();
    let err = parser.parse().unwrap_err();
    assert_eq!(err.fault, SyntaxFault::ConstAssignment);
    // The placeholder, the constant and its definition; nothing for `x = 2`.
    assert_eq!(
        parser.chunks[0].disassemble(),
        vec![
            InstructionType::OP_NONE,
            InstructionType::OP_CONST,
            InstructionType::OP_DEFINE
        ]
    );
}

#[test]
fn precedences_are_ordered() {
    assert_eq!(Precendence::Lowest.rank(), 0);
    assert_eq!(Precendence::Primary.rank(), 10);
    assert_eq!(Precendence::Term.next().unwrap(), Precendence::Factor);
    assert_eq!(Precendence::Lowest.next().unwrap(), Precendence::Assignment);
    assert!(Precendence::Primary.next().is_err());
    assert_eq!(Precendence::try_from(4).unwrap(), Precendence::Equality);
    assert!(Precendence::try_from(11).is_err());
}

#[test]
fn rules_of_tokens() {
    let minus = construct_rule(TokenType::MINUS);
    assert_eq!(minus.prefix, Some(PrefixRule::Unary));
    assert_eq!(minus.infix, Some(InfixRule::Binary));
    assert_eq!(minus.precedence, Precendence::Term);
    let paren = construct_rule(TokenType::LEFT_PAREN);
    assert_eq!(paren.prefix, Some(PrefixRule::Grouping));
    assert_eq!(paren.infix, Some(InfixRule::Call));
    assert_eq!(paren.precedence, Precendence::Call);
    let dot = construct_rule(TokenType::DOT);
    assert_eq!(dot.infix, Some(InfixRule::Dot));
    assert_eq!(dot.precedence, Precendence::Call);
    let semicolon = construct_rule(TokenType::SEMICOLON);
    assert_eq!(semicolon.prefix, None);
    assert_eq!(semicolon.infix, None);
    assert_eq!(semicolon.precedence, Precendence::Lowest);
    assert_eq!(construct_rule(TokenType::AND).precedence, Precendence::And);
    assert_eq!(construct_rule(TokenType::OR).precedence, Precendence::Or);
    assert_eq!(construct_rule(TokenType::STAR).precedence, Precendence::Factor);
    assert_eq!(construct_rule(TokenType::LESS).precedence, Precendence::Comparison);
    assert_eq!(construct_rule(TokenType::BANG_EQUAL).precedence, Precendence::Equality);
    assert_eq!(construct_rule(TokenType::THIS).prefix, Some(PrefixRule::This));
    assert_eq!(construct_rule(TokenType::NUMBER).prefix, Some(PrefixRule::Number));
    assert_eq!(construct_rule(TokenType::STRING).prefix, Some(PrefixRule::Literal));
    assert_eq!(construct_rule(TokenType::IDENTIFIER).prefix, Some(PrefixRule::Variable));
}

#[test]
fn a_number_that_is_no_level_is_refused() {
    assert_eq!(
        Precendence::try_from(12).unwrap_err().message,
        b"Couldn't construct precedence from 12, invalid value passed".to_vec()
    );
}
