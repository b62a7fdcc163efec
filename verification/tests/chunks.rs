use lox::instructions::chunk::Chunk;
use lox::instructions::instructions::{
    Constant, Instruction, InstructionType, Return, Unary, UnaryOp,
};
use lox::values::number::Number;
use lox::values::obj::Heap;
use lox::values::values::{Message, Piece, Value};

fn render(message: &Message) -> String {
    let mut out = String::new();
    for piece in &message.pieces {
        match piece {
            Piece::Text(bytes) => out.push_str(&String::from_utf8_lossy(bytes)),
            Piece::Number(number) => out.push_str(&f64::from_bits(number.to_bits()).to_string()),
        }
    }
    out
}

#[test]
#[allow(unused_must_use)]
fn test_disassemble() {
    let mut chunk = Chunk::new();
    chunk.write_to_chunk(Instruction::Return(Return::_new()), 1);
    let insts = chunk.disassemble();
    assert_eq!(insts, vec![InstructionType::OP_RETURN]);
}

#[test]
fn test_chunk_display() {
    let mut chunk = Chunk::new();
    chunk
        .write_to_chunk(
            Instruction::Constant(Constant::new(Value::Number(Number::from_bits(
                1.0f64.to_bits(),
            )))),
            1,
        )
        .unwrap();
    chunk
        .write_to_chunk(Instruction::Return(Return::_new()), 1)
        .unwrap();
    assert_eq!(
        render(&chunk.display(&Vec::new(), &Heap::new())),
        "1  OP_CONST       1\n|  OP_RETURN\n"
    );
}

#[test]
fn test_negate_display() {
    let mut chunk = Chunk::new();
    chunk
        .write_to_chunk(Instruction::Unary(Unary::new(UnaryOp::Negate)), 1)
        .unwrap();
    assert_eq!(
        render(&chunk.display(&Vec::new(), &Heap::new())),
        "1  OP_UNARY Negate\n"
    );
}
