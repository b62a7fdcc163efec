//! Operator precedences and the rule of each token kind.
use vstd::prelude::*;
use vstd::string::*;
use crate::compiler::err::InterpreterErr;
use crate::compiler::token::TokenType;
use crate::text::{decimal, push_decimal, push_text};

verus! {

/// The message of the error for a number that is the level of no precedence.
pub open spec fn no_precedence_message(value: u8) -> Seq<u8> {
    "Couldn't construct precedence from ".spec_bytes() + decimal(value as nat)
        + ", invalid value passed".spec_bytes()
}

/// Binding strength, from weakest to strongest.
#[derive(Debug, PartialEq, Eq, Clone, Copy, Structural)]
pub enum Precendence {
    Lowest,
    Assignment,
    Or,
    And,
    Equality,
    Comparison,
    Term,
    Factor,
    Unary,
    Call,
    Primary,
}

impl Precendence {
    /// The place of a precedence in the order: 0 for `Lowest`, 10 for `Primary`.
    pub open spec fn level(self) -> u8 {
        match self {
            Precendence::Lowest => 0,
            Precendence::Assignment => 1,
            Precendence::Or => 2,
            Precendence::And => 3,
            Precendence::Equality => 4,
            Precendence::Comparison => 5,
            Precendence::Term => 6,
            Precendence::Factor => 7,
            Precendence::Unary => 8,
            Precendence::Call => 9,
            Precendence::Primary => 10,
        }
    }

    /// The precedence at `level`, where there is one.
    pub open spec fn at_level(level: u8) -> Option<Precendence> {
        if level == 0 {
            Some(Precendence::Lowest)
        } else if level == 1 {
            Some(Precendence::Assignment)
        } else if level == 2 {
            Some(Precendence::Or)
        } else if level == 3 {
            Some(Precendence::And)
        } else if level == 4 {
            Some(Precendence::Equality)
        } else if level == 5 {
            Some(Precendence::Comparison)
        } else if level == 6 {
            Some(Precendence::Term)
        } else if level == 7 {
            Some(Precendence::Factor)
        } else if level == 8 {
            Some(Precendence::Unary)
        } else if level == 9 {
            Some(Precendence::Call)
        } else if level == 10 {
            Some(Precendence::Primary)
        } else {
            None
        }
    }

    /// The level as a number.
    pub fn rank(&self) -> (r: u8)
        ensures
            r == self.level(),
            r <= 10,
    {
        match self {
            Precendence::Lowest => 0,
            Precendence::Assignment => 1,
            Precendence::Or => 2,
            Precendence::And => 3,
            Precendence::Equality => 4,
            Precendence::Comparison => 5,
            Precendence::Term => 6,
            Precendence::Factor => 7,
            Precendence::Unary => 8,
            Precendence::Call => 9,
            Precendence::Primary => 10,
        }
    }

    /// The precedence of a level, or an error for a number above 10.
    pub fn try_from(value: u8) -> (r: Result<Precendence, InterpreterErr>)
        ensures
            r is Ok <==> value <= 10,
            r is Ok ==> Some(r->Ok_0) == Precendence::at_level(value),
            r is Err ==> r->Err_0.message@ == no_precedence_message(value),
    {
        match value {
            0 => Ok(Precendence::Lowest),
            1 => Ok(Precendence::Assignment),
            2 => Ok(Precendence::Or),
            3 => Ok(Precendence::And),
            4 => Ok(Precendence::Equality),
            5 => Ok(Precendence::Comparison),
            6 => Ok(Precendence::Term),
            7 => Ok(Precendence::Factor),
            8 => Ok(Precendence::Unary),
            9 => Ok(Precendence::Call),
            10 => Ok(Precendence::Primary),
            _ => {
                let mut message: Vec<u8> = Vec::new();
                push_text(&mut message, "Couldn't construct precedence from ");
                push_decimal(&mut message, value as usize);
                push_text(&mut message, ", invalid value passed");
                assert(message@ =~= no_precedence_message(value));
                Err(InterpreterErr::new(message))
            },
        }
    }

    /// The next stronger precedence. `Primary` has none.
    pub fn next(&self) -> (r: Result<Precendence, InterpreterErr>)
        ensures
            r is Ok <==> *self != Precendence::Primary,
            r is Ok ==> r->Ok_0.level() == self.level() + 1,
            r is Err ==> r->Err_0.message@ == no_precedence_message(11),
    {
        Precendence::try_from(self.rank() + 1)
    }
}

/// Proves that `at_level` inverts `level`.
pub proof fn level_round_trip(p: Precendence)
    ensures
        Precendence::at_level(p.level()) == Some(p),
{
}

/// How a token starts an expression.
#[derive(Debug, PartialEq, Eq, Clone, Copy, Structural)]
pub enum PrefixRule {
    Grouping,
    Unary,
    Variable,
    Literal,
    Number,
    This,
}

/// How a token continues an expression.
#[derive(Debug, PartialEq, Eq, Clone, Copy, Structural)]
pub enum InfixRule {
    Call,
    Dot,
    Binary,
    And,
    Or,
}

/// The rule of a token kind: what it does at the start of an expression, what
/// it does after an operand, and how strongly it binds as an infix.
#[derive(Debug, PartialEq, Eq, Clone, Copy, Structural)]
pub struct ParseRule {
    pub prefix: Option<PrefixRule>,
    pub infix: Option<InfixRule>,
    pub precedence: Precendence,
}

/// The prefix handler of a token kind: `(` groups, `-` and `!` are unary
/// operators, a name is a variable, literals stand for themselves, and
/// `this` is the instance of a method.
pub open spec fn prefix_of(token_type: TokenType) -> Option<PrefixRule> {
    match token_type {
        TokenType::LEFT_PAREN => Some(PrefixRule::Grouping),
        TokenType::MINUS | TokenType::BANG => Some(PrefixRule::Unary),
        TokenType::IDENTIFIER => Some(PrefixRule::Variable),
        TokenType::STRING | TokenType::TRUE | TokenType::FALSE | TokenType::NIL => Some(
            PrefixRule::Literal,
        ),
        TokenType::NUMBER => Some(PrefixRule::Number),
        TokenType::THIS => Some(PrefixRule::This),
        _ => None,
    }
}

/// The infix handler of a token kind: `(` calls, `.` reads or writes a
/// property, `and` and `or` short-circuit, and the arithmetic, comparison and
/// equality operators are binary.
pub open spec fn infix_of(token_type: TokenType) -> Option<InfixRule> {
    match token_type {
        TokenType::LEFT_PAREN => Some(InfixRule::Call),
        TokenType::DOT => Some(InfixRule::Dot),
        TokenType::AND => Some(InfixRule::And),
        TokenType::OR => Some(InfixRule::Or),
        TokenType::MINUS | TokenType::PLUS | TokenType::SLASH | TokenType::STAR
        | TokenType::BANG_EQUAL | TokenType::EQUAL_EQUAL | TokenType::GREATER
        | TokenType::GREATER_EQUAL | TokenType::LESS | TokenType::LESS_EQUAL => Some(
            InfixRule::Binary,
        ),
        _ => None,
    }
}

/// The precedence of a token kind as an infix operator; `Lowest` for a token
/// that is no infix operator.
pub open spec fn precedence_of(token_type: TokenType) -> Precendence {
    match token_type {
        TokenType::LEFT_PAREN | TokenType::DOT => Precendence::Call,
        TokenType::SLASH | TokenType::STAR => Precendence::Factor,
        TokenType::MINUS | TokenType::PLUS => Precendence::Term,
        TokenType::GREATER | TokenType::GREATER_EQUAL | TokenType::LESS
        | TokenType::LESS_EQUAL => Precendence::Comparison,
        TokenType::BANG_EQUAL | TokenType::EQUAL_EQUAL => Precendence::Equality,
        TokenType::AND => Precendence::And,
        TokenType::OR => Precendence::Or,
        _ => Precendence::Lowest,
    }
}

/// The rule of `token_type`.
pub fn construct_rule(token_type: TokenType) -> (r: ParseRule)
    ensures
        r.prefix == prefix_of(token_type),
        r.infix == infix_of(token_type),
        r.precedence == precedence_of(token_type),
{
    match token_type {
        TokenType::LEFT_PAREN => ParseRule {
            prefix: Some(PrefixRule::Grouping),
            infix: Some(InfixRule::Call),
            precedence: Precendence::Call,
        },
        TokenType::RIGHT_PAREN => ParseRule {
            prefix: None,
            infix: None,
            precedence: Precendence::Lowest,
        },
        TokenType::LEFT_BRACE => ParseRule {
            prefix: None,
            infix: None,
            precedence: Precendence::Lowest,
        },
        TokenType::RIGHT_BRACE => ParseRule {
            prefix: None,
            infix: None,
            precedence: Precendence::Lowest,
        },
        TokenType::COMMA => ParseRule {
            prefix: None,
            infix: None,
            precedence: Precendence::Lowest,
        },
        TokenType::DOT => ParseRule {
            prefix: None,
            infix: Some(InfixRule::Dot),
            precedence: Precendence::Call,
        },
        TokenType::MINUS => ParseRule {
            prefix: Some(PrefixRule::Unary),
            infix: Some(InfixRule::Binary),
            precedence: Precendence::Term,
        },
        TokenType::PLUS => ParseRule {
            prefix: None,
            infix: Some(InfixRule::Binary),
            precedence: Precendence::Term,
        },
        TokenType::SEMICOLON => ParseRule {
            prefix: None,
            infix: None,
            precedence: Precendence::Lowest,
        },
        TokenType::SLASH => ParseRule {
            prefix: None,
            infix: Some(InfixRule::Binary),
            precedence: Precendence::Factor,
        },
        TokenType::STAR => ParseRule {
            prefix: None,
            infix: Some(InfixRule::Binary),
            precedence: Precendence::Factor,
        },
        TokenType::BANG => ParseRule {
            prefix: Some(PrefixRule::Unary),
            infix: None,
            precedence: Precendence::Lowest,
        },
        TokenType::BANG_EQUAL => ParseRule {
            prefix: None,
            infix: Some(InfixRule::Binary),
            precedence: Precendence::Equality,
        },
        TokenType::EQUAL => ParseRule {
            prefix: None,
            infix: None,
            precedence: Precendence::Lowest,
        },
        TokenType::EQUAL_EQUAL => ParseRule {
            prefix: None,
            infix: Some(InfixRule::Binary),
            precedence: Precendence::Equality,
        },
        TokenType::GREATER => ParseRule {
            prefix: None,
            infix: Some(InfixRule::Binary),
            precedence: Precendence::Comparison,
        },
        TokenType::GREATER_EQUAL => ParseRule {
            prefix: None,
            infix: Some(InfixRule::Binary),
            precedence: Precendence::Comparison,
        },
        TokenType::LESS => ParseRule {
            prefix: None,
            infix: Some(InfixRule::Binary),
            precedence: Precendence::Comparison,
        },
        TokenType::LESS_EQUAL => ParseRule {
            prefix: None,
            infix: Some(InfixRule::Binary),
            precedence: Precendence::Comparison,
        },
        TokenType::IDENTIFIER => ParseRule {
            prefix: Some(PrefixRule::Variable),
            infix: None,
            precedence: Precendence::Lowest,
        },
        TokenType::STRING => ParseRule {
            prefix: Some(PrefixRule::Literal),
            infix: None,
            precedence: Precendence::Lowest,
        },
        TokenType::NUMBER => ParseRule {
            prefix: Some(PrefixRule::Number),
            infix: None,
            precedence: Precendence::Lowest,
        },
        TokenType::AND => ParseRule {
            prefix: None,
            infix: Some(InfixRule::And),
            precedence: Precendence::And,
        },
        TokenType::CLASS => ParseRule {
            prefix: None,
            infix: None,
            precedence: Precendence::Lowest,
        },
        TokenType::CONST => ParseRule {
            prefix: None,
            infix: None,
            precedence: Precendence::Lowest,
        },
        TokenType::ELSE => ParseRule {
            prefix: None,
            infix: None,
            precedence: Precendence::Lowest,
        },
        TokenType::FALSE => ParseRule {
            prefix: Some(PrefixRule::Literal),
            infix: None,
            precedence: Precendence::Lowest,
        },
        TokenType::FUN => ParseRule {
            prefix: None,
            infix: None,
            precedence: Precendence::Lowest,
        },
        TokenType::FOR => ParseRule {
            prefix: None,
            infix: None,
            precedence: Precendence::Lowest,
        },
        TokenType::IF => ParseRule {
            prefix: None,
            infix: None,
            precedence: Precendence::Lowest,
        },
        TokenType::NIL => ParseRule {
            prefix: Some(PrefixRule::Literal),
            infix: None,
            precedence: Precendence::Lowest,
        },
        TokenType::OR => ParseRule {
            prefix: None,
            infix: Some(InfixRule::Or),
            precedence: Precendence::Or,
        },
        TokenType::PRINT => ParseRule {
            prefix: None,
            infix: None,
            precedence: Precendence::Lowest,
        },
        TokenType::RETURN => ParseRule {
            prefix: None,
            infix: None,
            precedence: Precendence::Lowest,
        },
        TokenType::SUPER => ParseRule {
            prefix: None,
            infix: None,
            precedence: Precendence::Lowest,
        },
        TokenType::THIS => ParseRule {
            prefix: Some(PrefixRule::This),
            infix: None,
            precedence: Precendence::Lowest,
        },
        TokenType::TRUE => ParseRule {
            prefix: Some(PrefixRule::Literal),
            infix: None,
            precedence: Precendence::Lowest,
        },
        TokenType::VAR => ParseRule {
            prefix: None,
            infix: None,
            precedence: Precendence::Lowest,
        },
        TokenType::WHILE => ParseRule {
            prefix: None,
            infix: None,
            precedence: Precendence::Lowest,
        },
        TokenType::EOF => ParseRule {
            prefix: None,
            infix: None,
            precedence: Precendence::Lowest,
        },
    }
}

/// Proves that a token kind has an infix handler exactly when it binds at all.
pub proof fn infix_iff_precedence(token_type: TokenType)
    ensures
        infix_of(token_type) is Some <==> precedence_of(token_type) != Precendence::Lowest,
{
}

} // verus!
