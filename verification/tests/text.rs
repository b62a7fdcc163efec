use lox::compiler::err::{GroupErr, InterpreterErr, ScannerErr, SyntaxFault};
use lox::errors::err::ErrTraitBase;
use lox::text::{bytes_eq, copy_bytes, push_bytes, push_decimal, push_repeated, push_text, text_bytes};
use lox::values::values::{Message, Piece};

fn render(message: &Message) -> String {
    let mut out = String::new();
    for piece in &message.pieces {
        match piece {
            Piece::Text(bytes) => out.push_str(&String::from_utf8_lossy(bytes)),
            Piece::Number(number) => out.push_str(&f64::from_bits(number.to_bits()).to_string()),
        }
    }
    out
}

#[test]
fn decimal_numerals() {
    for (n, text) in [
        (0usize, "0"),
        (7, "7"),
        (10, "10"),
        (255, "255"),
        (1000, "1000"),
        (9876543210, "9876543210"),
    ] {
        let mut out = Vec::new();
        push_decimal(&mut out, n);
        assert_eq!(String::from_utf8(out).unwrap(), text);
    }
}

#[test]
fn bytes_are_pushed_copied_and_compared() {
    let mut out = b"a".to_vec();
    push_text(&mut out, "bc");
    push_bytes(&mut out, b"de");
    push_repeated(&mut out, b'.', 3);
    assert_eq!(out, b"abcde...".to_vec());
    assert_eq!(copy_bytes(&out), out);
    assert_eq!(text_bytes("xy"), b"xy".to_vec());
    assert!(bytes_eq(b"abc", b"abc"));
    assert!(!bytes_eq(b"abc", b"abd"));
    assert!(!bytes_eq(b"abc", b"ab"));
    assert!(bytes_eq(b"", b""));
}

#[test]
fn messages_are_built_from_pieces() {
    let mut message = Message::new();
    message.text("n=");
    message.decimal(12);
    message.bytes(b"!");
    let mut more = Message::from_text("<");
    more.append(&message);
    more.append(&Message::from_bytes(b">"));
    assert_eq!(render(&more), "<n=12!>");
    assert_eq!(render(&more.copy()), "<n=12!>");
}

#[test]
fn the_caret_moves_with_the_column() {
    let at = |offset: usize| {
        String::from_utf8(
            ScannerErr::new(
                SyntaxFault::UnexpectedToken,
                b"m".to_vec(),
                b"line".to_vec(),
                7,
                offset,
            )
            .render(),
        )
        .unwrap()
    };
    assert_eq!(at(0), "\nLine 7: line\n       ^\n       ------- m\n\n");
    assert_eq!(at(1), "\nLine 7: line\n        ^\n        ------- m\n\n");
    assert_eq!(at(2), "\nLine 7: line\n       ^\n       ------- m\n\n");
    assert_eq!(at(5), "\nLine 7: line\n          ^\n          ------- m\n\n");
}

#[test]
fn interpreter_errors_and_groups_are_raised() {
    let err = InterpreterErr::new(b"broken".to_vec());
    assert_eq!(render(&err.raise()), "Interpreter Error:: broken");
    let group = GroupErr::_new(
        "Parse",
        b"two errors".to_vec(),
        vec![Message::from_text("first\n"), Message::from_text("second\n")],
    );
    assert_eq!(
        render(&group.raise()),
        "\nParse:::   two errors\n=====================\n\nfirst\nsecond\n"
    );
}
