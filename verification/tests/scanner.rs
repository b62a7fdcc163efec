use lox::compiler::err::SyntaxFault;
use lox::compiler::scanner::{number_literals, Scanner};
use lox::compiler::token::{Token, TokenType};
use lox::errors::err::ErrTraitBase;
use lox::values::values::Piece;

fn kinds(src: &str) -> Vec<(TokenType, String, u32)> {
    let mut scanner = Scanner::new(src.as_bytes());
    let mut out = Vec::new();
    loop {
        let token = scanner.next().expect("a token");
        out.push((
            token.kind(),
            String::from_utf8_lossy(token.literal).to_string(),
            token.line,
        ));
        if token.kind() == TokenType::EOF {
            return out;
        }
    }
}

fn tok(kind: TokenType, text: &str, line: u32) -> (TokenType, String, u32) {
    (kind, text.to_string(), line)
}

#[test]
fn punctuation_and_operators() {
    assert_eq!(
        kinds("(){};,.-+/*! != = == < <= > >="),
        vec![
            tok(TokenType::LEFT_PAREN, "(", 1),
            tok(TokenType::RIGHT_PAREN, ")", 1),
            tok(TokenType::LEFT_BRACE, "{", 1),
            tok(TokenType::RIGHT_BRACE, "}", 1),
            tok(TokenType::SEMICOLON, ";", 1),
            tok(TokenType::COMMA, ",", 1),
            tok(TokenType::DOT, ".", 1),
            tok(TokenType::MINUS, "-", 1),
            tok(TokenType::PLUS, "+", 1),
            tok(TokenType::SLASH, "/", 1),
            tok(TokenType::STAR, "*", 1),
            tok(TokenType::BANG, "!", 1),
            tok(TokenType::BANG_EQUAL, "!=", 1),
            tok(TokenType::EQUAL, "=", 1),
            tok(TokenType::EQUAL_EQUAL, "==", 1),
            tok(TokenType::LESS, "<", 1),
            tok(TokenType::LESS_EQUAL, "<=", 1),
            tok(TokenType::GREATER, ">", 1),
            tok(TokenType::GREATER_EQUAL, ">=", 1),
            tok(TokenType::EOF, "eof", 1),
        ]
    );
}

#[test]
fn every_keyword_is_recognized() {
    let words = [
        ("and", TokenType::AND),
        ("class", TokenType::CLASS),
        ("const", TokenType::CONST),
        ("else", TokenType::ELSE),
        ("false", TokenType::FALSE),
        ("for", TokenType::FOR),
        ("fun", TokenType::FUN),
        ("if", TokenType::IF),
        ("nil", TokenType::NIL),
        ("or", TokenType::OR),
        ("print", TokenType::PRINT),
        ("return", TokenType::RETURN),
        ("super", TokenType::SUPER),
        ("this", TokenType::THIS),
        ("true", TokenType::TRUE),
        ("var", TokenType::VAR),
        ("while", TokenType::WHILE),
    ];
    for (word, kind) in words {
        assert_eq!(
            kinds(word),
            vec![tok(kind, word, 1), tok(TokenType::EOF, "eof", 1)]
        );
    }
}

#[test]
fn identifiers_and_keyword_prefixes() {
    assert_eq!(
        kinds("x _y z9 fo cl tx"),
        vec![
            tok(TokenType::IDENTIFIER, "x", 1),
            tok(TokenType::IDENTIFIER, "_y", 1),
            tok(TokenType::IDENTIFIER, "z9", 1),
            tok(TokenType::IDENTIFIER, "fo", 1),
            tok(TokenType::IDENTIFIER, "cl", 1),
            tok(TokenType::IDENTIFIER, "tx", 1),
            tok(TokenType::EOF, "eof", 1),
        ]
    );
    // A word that begins with a keyword is of the keyword's kind.
    assert_eq!(
        kinds("variable"),
        vec![
            tok(TokenType::VAR, "variable", 1),
            tok(TokenType::EOF, "eof", 1)
        ]
    );
}

#[test]
fn numbers_with_and_without_a_fraction() {
    assert_eq!(
        kinds("12 3.25 7. .5"),
        vec![
            tok(TokenType::NUMBER, "12", 1),
            tok(TokenType::NUMBER, "3.25", 1),
            tok(TokenType::NUMBER, "7", 1),
            tok(TokenType::DOT, ".", 1),
            tok(TokenType::DOT, ".", 1),
            tok(TokenType::NUMBER, "5", 1),
            tok(TokenType::EOF, "eof", 1),
        ]
    );
}

#[test]
fn strings_lose_their_quotes_and_count_lines() {
    assert_eq!(
        kinds("\"a b\" \"\" \"x\ny\" z"),
        vec![
            tok(TokenType::STRING, "a b", 1),
            tok(TokenType::STRING, "", 1),
            tok(TokenType::STRING, "x\ny", 2),
            tok(TokenType::IDENTIFIER, "z", 2),
            tok(TokenType::EOF, "eof", 2),
        ]
    );
}

#[test]
fn blanks_comments_and_lines() {
    assert_eq!(
        kinds(" a // b c\n\t\r\n// d\n e / f"),
        vec![
            tok(TokenType::IDENTIFIER, "a", 1),
            tok(TokenType::IDENTIFIER, "e", 4),
            tok(TokenType::SLASH, "/", 4),
            tok(TokenType::IDENTIFIER, "f", 4),
            tok(TokenType::EOF, "eof", 4),
        ]
    );
}

#[test]
fn the_end_is_reported_again_and_again() {
    let mut scanner = Scanner::new(b"");
    for _ in 0..3 {
        assert_eq!(scanner.next().unwrap().kind(), TokenType::EOF);
    }
}

#[test]
fn unterminated_string_points_at_its_line() {
    let mut scanner = Scanner::new(b"var a;\nvar b = \"abc");
    for _ in 0..3 {
        scanner.next().unwrap();
    }
    for _ in 0..3 {
        scanner.next().unwrap();
    }
    let err = scanner.next().unwrap_err();
    assert_eq!(err.fault, SyntaxFault::UnterminatedString);
    assert_eq!(err.message, b"Unterminated string".to_vec());
    assert_eq!(err.line, 2);
    assert_eq!(err.line_contents, b"var b = \"abc".to_vec());
    assert_eq!(err.offset, 12);
}

#[test]
fn unexpected_character_names_the_character() {
    let mut scanner = Scanner::new(b"a\n  #");
    scanner.next().unwrap();
    let err = scanner.next().unwrap_err();
    assert_eq!(err.fault, SyntaxFault::UnexpectedCharacter);
    assert_eq!(err.message, b"unexpected token on line 2: #".to_vec());
    assert_eq!(err.line_contents, b"  #".to_vec());
    assert_eq!(err.line, 2);
    assert_eq!(err.offset, 3);
}

#[test]
fn a_diagnostic_shows_the_line_and_a_caret() {
    let mut scanner = Scanner::new(b"a\n  #");
    scanner.next().unwrap();
    let err = scanner.next().unwrap_err();
    assert_eq!(
        err.to_string(),
        "\nLine 2:   #\n        ^\n        ------- unexpected token on line 2: #\n\n"
    );
    let raised = err.raise();
    assert_eq!(raised.pieces.len(), 1);
    match &raised.pieces[0] {
        Piece::Text(bytes) => assert_eq!(String::from_utf8_lossy(bytes), err.to_string()),
        Piece::Number(_) => panic!("a number in a diagnostic"),
    }
}

#[test]
fn the_lexeme_of_a_token_is_decoded_as_text() {
    let token = Token::new(TokenType::STRING, "h\u{e9}llo".as_bytes(), 1);
    assert_eq!(token.to_string(), "h\u{e9}llo");
    assert_eq!(token.lexeme(), "h\u{e9}llo".as_bytes().to_vec());
    let broken = Token::new(TokenType::STRING, &[0x61, 0xff, 0x62], 1);
    assert_eq!(broken.to_string(), "a\u{fffd}b");
}

#[test]
fn number_literals_are_listed_in_order() {
    assert_eq!(
        number_literals(b"var a = 1; print a + 2.5 * 30; // 4\n\"5\""),
        vec![b"1".to_vec(), b"2.5".to_vec(), b"30".to_vec()]
    );
    assert_eq!(number_literals(b"1 # 2"), vec![b"1".to_vec()]);
}

#[test]
fn symbols_of_token_kinds() {
    assert_eq!(TokenType::LEFT_PAREN.to_string(), "(");
    assert_eq!(TokenType::BANG_EQUAL.to_string(), "!=");
    assert_eq!(TokenType::IDENTIFIER.to_string(), "<var>");
    assert_eq!(TokenType::STRING.to_string(), "<string>");
    assert_eq!(TokenType::NUMBER.to_string(), "<number>");
    assert_eq!(TokenType::WHILE.to_string(), "while");
    assert_eq!(TokenType::EOF.to_string(), "eof");
}
