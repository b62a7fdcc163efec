//! Token kinds and tokens.
use vstd::prelude::*;
use vstd::string::*;

verus! {

/// The closed set of token kinds.
#[allow(non_camel_case_types)]
#[derive(Copy, Clone, PartialEq, Eq, Debug, Structural)]
pub enum TokenType {
    // Single-character tokens.
    LEFT_PAREN,
    RIGHT_PAREN,
    LEFT_BRACE,
    RIGHT_BRACE,
    COMMA,
    DOT,
    MINUS,
    PLUS,
    SEMICOLON,
    SLASH,
    STAR,
    // One or two character tokens.
    BANG,
    BANG_EQUAL,
    EQUAL,
    EQUAL_EQUAL,
    GREATER,
    GREATER_EQUAL,
    LESS,
    LESS_EQUAL,
    // Literals.
    IDENTIFIER,
    STRING,
    NUMBER,
    // Keywords.
    AND,
    CLASS,
    CONST,
    ELSE,
    FALSE,
    FUN,
    FOR,
    IF,
    NIL,
    OR,
    PRINT,
    RETURN,
    SUPER,
    THIS,
    TRUE,
    VAR,
    WHILE,
    EOF,
}

impl TokenType {
    /// How a token kind is written in diagnostics: the punctuation or keyword
    /// itself, and a placeholder in angle brackets for the three literal kinds.
    pub open spec fn symbol_text(self) -> Seq<char> {
        match self {
            TokenType::LEFT_PAREN => "("@,
            TokenType::RIGHT_PAREN => ")"@,
            TokenType::LEFT_BRACE => "{"@,
            TokenType::RIGHT_BRACE => "}"@,
            TokenType::COMMA => ","@,
            TokenType::DOT => "."@,
            TokenType::MINUS => "-"@,
            TokenType::PLUS => "+"@,
            TokenType::SEMICOLON => ";"@,
            TokenType::SLASH => "/"@,
            TokenType::STAR => "*"@,
            TokenType::BANG => "!"@,
            TokenType::BANG_EQUAL => "!="@,
            TokenType::EQUAL => "="@,
            TokenType::EQUAL_EQUAL => "=="@,
            TokenType::GREATER => ">"@,
            TokenType::GREATER_EQUAL => ">="@,
            TokenType::LESS => "<"@,
            TokenType::LESS_EQUAL => "<="@,
            TokenType::IDENTIFIER => "<var>"@,
            TokenType::STRING => "<string>"@,
            TokenType::NUMBER => "<number>"@,
            TokenType::AND => "and"@,
            TokenType::CLASS => "class"@,
            TokenType::CONST => "const"@,
            TokenType::ELSE => "else"@,
            TokenType::FALSE => "false"@,
            TokenType::FUN => "fun"@,
            TokenType::FOR => "for"@,
            TokenType::IF => "if"@,
            TokenType::NIL => "nil"@,
            TokenType::OR => "or"@,
            TokenType::PRINT => "print"@,
            TokenType::RETURN => "return"@,
            TokenType::SUPER => "super"@,
            TokenType::THIS => "this"@,
            TokenType::TRUE => "true"@,
            TokenType::VAR => "var"@,
            TokenType::WHILE => "while"@,
            TokenType::EOF => "eof"@,
        }
    }

    /// The text of `symbol_text`.
    pub fn symbol(self) -> (r: &'static str)
        ensures
            r@ == self.symbol_text(),
    {
        match self {
            TokenType::LEFT_PAREN => "(",
            TokenType::RIGHT_PAREN => ")",
            TokenType::LEFT_BRACE => "{",
            TokenType::RIGHT_BRACE => "}",
            TokenType::COMMA => ",",
            TokenType::DOT => ".",
            TokenType::MINUS => "-",
            TokenType::PLUS => "+",
            TokenType::SEMICOLON => ";",
            TokenType::SLASH => "/",
            TokenType::STAR => "*",
            TokenType::BANG => "!",
            TokenType::BANG_EQUAL => "!=",
            TokenType::EQUAL => "=",
            TokenType::EQUAL_EQUAL => "==",
            TokenType::GREATER => ">",
            TokenType::GREATER_EQUAL => ">=",
            TokenType::LESS => "<",
            TokenType::LESS_EQUAL => "<=",
            TokenType::IDENTIFIER => "<var>",
            TokenType::STRING => "<string>",
            TokenType::NUMBER => "<number>",
            TokenType::AND => "and",
            TokenType::CLASS => "class",
            TokenType::CONST => "const",
            TokenType::ELSE => "else",
            TokenType::FALSE => "false",
            TokenType::FUN => "fun",
            TokenType::FOR => "for",
            TokenType::IF => "if",
            TokenType::NIL => "nil",
            TokenType::OR => "or",
            TokenType::PRINT => "print",
            TokenType::RETURN => "return",
            TokenType::SUPER => "super",
            TokenType::THIS => "this",
            TokenType::TRUE => "true",
            TokenType::VAR => "var",
            TokenType::WHILE => "while",
            TokenType::EOF => "eof",
        }
    }

    /// The symbol as an owned string.
    pub fn to_string(&self) -> (r: String)
        ensures
            r@ == self.symbol_text(),
    {
        String::from_str(self.symbol())
    }

    /// Whether this kind is a reserved word.
    pub open spec fn is_keyword(self) -> bool {
        match self {
            TokenType::AND | TokenType::CLASS | TokenType::CONST | TokenType::ELSE
            | TokenType::FALSE | TokenType::FUN | TokenType::FOR | TokenType::IF
            | TokenType::NIL | TokenType::OR | TokenType::PRINT | TokenType::RETURN
            | TokenType::SUPER | TokenType::THIS | TokenType::TRUE | TokenType::VAR
            | TokenType::WHILE => true,
            _ => false,
        }
    }
}

/// A token as contracts see it: its kind, the bytes of its lexeme and its line.
pub struct TokenView {
    pub token_type: TokenType,
    pub literal: Seq<u8>,
    pub line: u32,
}

/// A token: its kind, the slice of the source buffer that is its lexeme, and
/// the 1-based line it was scanned on.
#[derive(Copy, Clone, Debug)]
pub struct Token<'a> {
    pub token_type: TokenType,
    pub literal: &'a [u8],
    pub line: u32,
}

impl<'a> View for Token<'a> {
    type V = TokenView;

    open spec fn view(&self) -> TokenView {
        TokenView { token_type: self.token_type, literal: self.literal@, line: self.line }
    }
}

impl<'a> Token<'a> {
    /// A new `Token`.
    pub fn new(token_type: TokenType, literal: &'a [u8], line: u32) -> (r: Self)
        ensures
            r@ == (TokenView { token_type, literal: literal@, line }),
    {
        Token { token_type, literal, line }
    }

    /// The kind of the token.
    pub fn kind(&self) -> (r: TokenType)
        ensures
            r == self@.token_type,
    {
        self.token_type
    }

    /// An owned copy of the lexeme.
    pub fn lexeme(&self) -> (r: Vec<u8>)
        ensures
            r@ == self@.literal,
    {
        crate::text::copy_bytes(self.literal)
    }

    /// The lexeme as text.
    pub fn to_string(&self) -> (r: String)
        ensures
            r@ == crate::text::utf8_lossy(self@.literal),
    {
        crate::text::lossy_string(self.literal)
    }
}

} // verus!
