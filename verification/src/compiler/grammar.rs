//! What the parser makes of a source: the grammar and the emission of
//! bytecode, stated over the parser's state.
use vstd::prelude::*;
use vstd::string::*;
use crate::compiler::compiler::{find_in_scope, CompilerView, FunctionTypeView, LevelView};
use crate::compiler::err::SyntaxFault;
use crate::compiler::rules::{
    infix_of,
    precedence_of,
    prefix_of,
    InfixRule,
    Precendence,
    PrefixRule,
};
use crate::compiler::scanner::{lexeme_of, line_text, scan_progress, scan_step, Scanned};
use crate::compiler::token::{TokenType, TokenView};
use crate::instructions::chunk::ChunkView;
use crate::instructions::define::DefinitionScope;
use crate::instructions::instructions::{BinaryOp, InstructionView, UnaryOp};
use crate::values::func::FuncView;
use crate::values::obj::{ClassView, HeapView};
use crate::values::values::ValueView;

verus! {

/// The parser's state as contracts see it.
pub struct ParserView {
    /// The source.
    pub src: Seq<u8>,
    /// The scanner's cursor: the end of the current token.
    pub pos: int,
    /// The scanner's line.
    pub line: int,
    /// The token that is looked at.
    pub current: TokenView,
    /// The token that was consumed last.
    pub previous: Option<TokenView>,
    /// The chunk of each function being compiled, the innermost last.
    pub chunks: Seq<ChunkView>,
    /// The lexical state.
    pub compiler: CompilerView,
    /// The functions compiled so far.
    pub functions: Seq<FuncView>,
    /// The classes declared so far.
    pub heap: HeapView,
    /// The values of the number literals of the source, in their order.
    pub numbers: Seq<u64>,
    /// The number of number literals compiled so far.
    pub used: usize,
}

/// A failure of the parser: the fault, the message, and the scanner's
/// cursor and line when it was found.
pub struct Failure {
    pub fault: SyntaxFault,
    pub message: Seq<u8>,
    pub pos: int,
    pub line: int,
}

/// The state after a step of the parser, or the failure.
pub type Parsed = Result<ParserView, Failure>;

/// The message for a token other than the expected one.
pub open spec fn expected_message(expected: TokenType, found: Seq<u8>) -> Seq<u8> {
    "Expected ".spec_bytes() + vstd::utf8::encode_utf8(expected.symbol_text())
        + " but found ".spec_bytes() + found
}

/// The message of a handler that finds no token before it.
pub open spec fn no_previous_message() -> Seq<u8> {
    "Interpreter Error:: Could consume previous token".spec_bytes()
}

/// The message for a token that cannot stand in an expression.
pub open spec fn expression_message(found: Seq<u8>) -> Seq<u8> {
    "Expected expression, found ".spec_bytes() + found
}

/// The message for a name that no scope declares.
pub open spec fn undefined_message(name: Seq<u8>) -> Seq<u8> {
    "Can not access or overwrite undefined variable: `".spec_bytes() + name + "`".spec_bytes()
}

/// The message for `=` after something that cannot be assigned to.
pub open spec fn target_message() -> Seq<u8> {
    "Invalid assignment target. Can only assign to previously defined variables.".spec_bytes()
}

/// The message for `=` after the name of a constant.
pub open spec fn const_message(name: Seq<u8>) -> Seq<u8> {
    "Invalid assignment target. Can not assign to const ".spec_bytes() + name
}

/// The message for a second declaration of a name in one scope.
pub open spec fn redefine_message(name: Seq<u8>) -> Seq<u8> {
    "Can not redefine `".spec_bytes() + name + "` in the same scope".spec_bytes()
}

/// The message for a token that is no unary operator.
pub open spec fn unary_message(kind: TokenType) -> Seq<u8> {
    "Invalid unary operator: ".spec_bytes() + vstd::utf8::encode_utf8(kind.symbol_text())
}

/// The message for a token that is no binary operator.
pub open spec fn binary_message(kind: TokenType) -> Seq<u8> {
    "Invalid Binary operator: ".spec_bytes() + vstd::utf8::encode_utf8(kind.symbol_text())
}

/// The message for a token that is no literal.
pub open spec fn literal_message(found: Seq<u8>) -> Seq<u8> {
    "Expected literal [true | false| nil] found ".spec_bytes() + found
}

/// The message for a number literal whose value was not given.
pub open spec fn number_message(found: Seq<u8>) -> Seq<u8> {
    "Expected Number: no value was given for ".spec_bytes() + found
}

/// The message for `this` outside a method.
pub open spec fn this_message() -> Seq<u8> {
    "Can not use `this` outside of a method".spec_bytes()
}

/// The message of a broken state.
pub open spec fn internal_message() -> Seq<u8> {
    "Interpreter Error:: the parser's state is broken".spec_bytes()
}

/// The operator of a binary operator token, and whether its result is
/// negated: `!=`, `>=` and `<=` are the negations of `==`, `<` and `>`.
pub open spec fn binary_operator(kind: TokenType) -> Option<(BinaryOp, bool)> {
    match kind {
        TokenType::PLUS => Some((BinaryOp::ADD, false)),
        TokenType::MINUS => Some((BinaryOp::SUBTRACT, false)),
        TokenType::STAR => Some((BinaryOp::MULTIPLY, false)),
        TokenType::SLASH => Some((BinaryOp::DIVIDE, false)),
        TokenType::EQUAL_EQUAL => Some((BinaryOp::EQUAL, false)),
        TokenType::GREATER => Some((BinaryOp::GREATER, false)),
        TokenType::LESS => Some((BinaryOp::LESS, false)),
        TokenType::BANG_EQUAL => Some((BinaryOp::EQUAL, true)),
        TokenType::GREATER_EQUAL => Some((BinaryOp::LESS, true)),
        TokenType::LESS_EQUAL => Some((BinaryOp::GREATER, true)),
        _ => None,
    }
}

/// The operator of a unary operator token.
pub open spec fn unary_operator(kind: TokenType) -> Option<UnaryOp> {
    match kind {
        TokenType::MINUS => Some(UnaryOp::Negate),
        TokenType::BANG => Some(UnaryOp::Bang),
        _ => None,
    }
}

/// The value of a literal token.
pub open spec fn literal_value(token: TokenView) -> Option<ValueView> {
    match token.token_type {
        TokenType::TRUE => Some(ValueView::Bool(true)),
        TokenType::FALSE => Some(ValueView::Bool(false)),
        TokenType::NIL => Some(ValueView::Nil),
        TokenType::STRING => Some(ValueView::String(token.literal)),
        _ => None,
    }
}

impl ParserView {
    /// How much of the source is left: the bytes behind the cursor, and
    /// one more while the current token is not the end.
    pub open spec fn measure(self) -> int {
        (if 0 <= self.pos <= self.src.len() {
            self.src.len() - self.pos
        } else {
            0
        }) + if self.current.token_type != TokenType::EOF {
            1int
        } else {
            0int
        }
    }

    /// The failure `fault` at the cursor.
    pub open spec fn fail(self, fault: SyntaxFault, message: Seq<u8>) -> Failure {
        Failure { fault, message, pos: self.pos, line: self.line }
    }

    /// The failure of a broken state.
    pub open spec fn stuck(self) -> Failure {
        self.fail(SyntaxFault::Internal, internal_message())
    }

    /// Whether the current token is of kind `kind`.
    pub open spec fn check(self, kind: TokenType) -> bool {
        self.current.token_type == kind
    }

    /// The state after the scanner has given the next token: the current
    /// token becomes the previous one.
    pub open spec fn advanced(self) -> Parsed {
        if !(0 <= self.pos <= self.src.len()) {
            Err(self.stuck())
        } else {
            let step = scan_step(self.src, self.pos, self.line);
            match step.found {
                Scanned::Token { kind, from, to } => Ok(
                    ParserView {
                        pos: step.current,
                        line: step.line,
                        previous: Some(self.current),
                        current: TokenView {
                            token_type: kind,
                            literal: lexeme_of(self.src, kind, from, to),
                            line: step.line as u32,
                        },
                        ..self
                    },
                ),
                Scanned::Fault { fault, message } => Err(
                    Failure { fault, message, pos: step.current, line: step.line },
                ),
            }
        }
    }

    /// The state after a token of kind `kind` has been consumed; a failure
    /// where the current token is of another kind.
    pub open spec fn consumed(self, kind: TokenType) -> Parsed {
        if self.check(kind) {
            self.advanced()
        } else {
            Err(
                self.fail(
                    SyntaxFault::UnexpectedToken,
                    expected_message(kind, self.current.literal),
                ),
            )
        }
    }

    /// The number of instructions in the chunk of the function being compiled.
    pub open spec fn here(self) -> usize {
        self.chunks.last().code.len() as usize
    }

    /// The state after `instruction` has been appended to the chunk of the
    /// function being compiled, with the scanner's line.
    pub open spec fn emitted(self, instruction: InstructionView) -> ParserView {
        ParserView {
            chunks: self.chunks.update(
                self.chunks.len() - 1,
                ChunkView {
                    code: self.chunks.last().code.push(instruction),
                    lines: self.chunks.last().lines.push(self.line as usize),
                },
            ),
            ..self
        }
    }

    /// The state after the instructions at `origin` and `dest` of the
    /// chunk of the function being compiled have been exchanged.
    pub open spec fn swapped(self, origin: usize, dest: usize) -> Parsed {
        let code = self.chunks.last().code;
        if origin < code.len() && dest < code.len() {
            Ok(
                ParserView {
                    chunks: self.chunks.update(
                        self.chunks.len() - 1,
                        ChunkView {
                            code: code.update(origin as int, code[dest as int]).update(
                                dest as int,
                                code[origin as int],
                            ),
                            lines: self.chunks.last().lines,
                        },
                    ),
                    ..self
                },
            )
        } else {
            Err(self.stuck())
        }
    }

    /// The state with the lexical state `compiler`.
    pub open spec fn with_compiler(self, compiler: CompilerView) -> ParserView {
        ParserView { compiler, ..self }
    }

    /// The text of the line under the cursor.
    pub open spec fn snippet(self) -> Seq<u8> {
        line_text(self.src, self.pos)
    }

    /// The state after a scope has been opened.
    pub open spec fn scope_opened(self) -> Parsed {
        if self.compiler.top().scope_depth < usize::MAX {
            Ok(self.with_compiler(self.compiler.scope_started()))
        } else {
            Err(self.stuck())
        }
    }

    /// The state after the innermost scope has been closed: its locals are
    /// gone, and the instruction that drops their values is emitted.
    pub open spec fn scope_closed(self) -> Parsed {
        if self.compiler.top().scope_depth > 0 {
            Ok(
                self.with_compiler(self.compiler.scope_ended()).emitted(
                    InstructionView::PopN(self.compiler.scope_size() as usize),
                ),
            )
        } else {
            Err(self.stuck())
        }
    }

    /// Declares the variable `name`: a failure where the innermost scope,
    /// if it is not the outermost, declares the name already; else the
    /// state after the declaration, and where the variable lives.
    pub open spec fn declared(self, const_: bool, name: Seq<u8>) -> Result<
        (ParserView, DefinitionScope),
        Failure,
    > {
        if self.compiler.top().scope_depth > 0 && find_in_scope(
            self.compiler.top().locals,
            name,
            self.compiler.top().scope_depth,
        ) is Some {
            Err(self.fail(SyntaxFault::Redeclaration, redefine_message(name)))
        } else {
            Ok(
                (
                    self.with_compiler(self.compiler.local_added(name, const_)),
                    self.compiler.new_scope(),
                ),
            )
        }
    }

    /// A number literal: the constant with the next of the given values.
    pub open spec fn number(self) -> Parsed {
        match self.previous {
            None => Err(self.fail(SyntaxFault::Internal, no_previous_message())),
            Some(token) => if self.used < self.numbers.len() {
                Ok(
                    ParserView { used: (self.used + 1) as usize, ..self }.emitted(
                        InstructionView::Constant(ValueView::Number(self.numbers[self.used as int])),
                    ),
                )
            } else {
                Err(self.fail(SyntaxFault::MissingNumber, number_message(token.literal)))
            },
        }
    }

    /// `this`: the instance of the method being compiled. It is a failure
    /// outside a method.
    pub open spec fn this(self) -> Parsed {
        match self.compiler.top().type_ {
            FunctionTypeView::Method(_, _) => Ok(self.emitted(InstructionView::This)),
            _ => Err(self.fail(SyntaxFault::InvalidThis, this_message())),
        }
    }

    /// `true`, `false`, `nil` or a string: the constant.
    pub open spec fn literal(self) -> Parsed {
        match self.previous {
            None => Err(self.fail(SyntaxFault::Internal, no_previous_message())),
            Some(token) => match literal_value(token) {
                Some(value) => Ok(self.emitted(InstructionView::Constant(value))),
                None => Err(
                    self.fail(SyntaxFault::InvalidOperator, literal_message(token.literal)),
                ),
            },
        }
    }

    /// An expression that binds at least as strongly as `prec`: the
    /// previous token starts it, and infix operators of that strength
    /// continue it. Where an assignment could stand, an `=` that is left
    /// over is a failure.
    pub open spec fn parse_expr(self, prec: Precendence) -> Parsed
        decreases self.measure(), 1int,
    {
        match self.advanced() {
            Err(e) => Err(e),
            Ok(p1) => {
                let can_assign = prec.level() <= Precendence::Assignment.level();
                match prefix_of(self.current.token_type) {
                    None => Err(
                        p1.fail(
                            SyntaxFault::ExpectedExpression,
                            expression_message(self.current.literal),
                        ),
                    ),
                    Some(rule) => {
                        proof {
                            scan_progress(self.src, self.pos, self.line);
                        }
                        match p1.prefix(rule, can_assign) {
                            Err(e) => Err(e),
                            Ok(p2) => if p2.measure() > p1.measure() {
                                Err(p2.stuck())
                            } else {
                                match p2.infix_loop(prec, can_assign) {
                                    Err(e) => Err(e),
                                    Ok(p3) => if can_assign && p3.check(TokenType::EQUAL) {
                                        Err(
                                            p3.fail(
                                                SyntaxFault::InvalidAssignmentTarget,
                                                target_message(),
                                            ),
                                        )
                                    } else {
                                        Ok(p3)
                                    },
                                }
                            },
                        }
                    },
                }
            },
        }
    }

    /// The infix operators that continue an expression: while the current
    /// token binds at least as strongly as `prec`, it is consumed and its
    /// handler runs.
    pub open spec fn infix_loop(self, prec: Precendence, can_assign: bool) -> Parsed
        decreases self.measure(), 0int,
    {
        if prec.level() > precedence_of(self.current.token_type).level() {
            Ok(self)
        } else {
            match self.advanced() {
                Err(e) => Err(e),
                Ok(p1) => match infix_of(self.current.token_type) {
                    None => Err(
                        p1.fail(
                            SyntaxFault::ExpectedExpression,
                            expression_message(self.current.literal),
                        ),
                    ),
                    Some(rule) => {
                        proof {
                            scan_progress(self.src, self.pos, self.line);
                        }
                        match p1.infix(rule, can_assign) {
                            Err(e) => Err(e),
                            Ok(p2) => if p2.measure() > p1.measure() {
                                Err(p2.stuck())
                            } else {
                                p2.infix_loop(prec, can_assign)
                            },
                        }
                    },
                },
            }
        }
    }

    /// The handler of a token that starts an expression.
    pub open spec fn prefix(self, rule: PrefixRule, can_assign: bool) -> Parsed
        decreases self.measure(), 9int,
    {
        match rule {
            PrefixRule::Grouping => self.grouping(),
            PrefixRule::Unary => self.unary(),
            PrefixRule::Variable => self.var(can_assign),
            PrefixRule::Literal => self.literal(),
            PrefixRule::Number => self.number(),
            PrefixRule::This => self.this(),
        }
    }

    /// The handler of a token that continues an expression.
    pub open spec fn infix(self, rule: InfixRule, can_assign: bool) -> Parsed
        decreases self.measure(), 9int,
    {
        match rule {
            InfixRule::Call => self.call(),
            InfixRule::Dot => self.dot(can_assign),
            InfixRule::Binary => self.binary(),
            InfixRule::And => self.and(),
            InfixRule::Or => self.or(),
        }
    }

    /// An expression.
    pub open spec fn expression(self) -> Parsed
        decreases self.measure(), 2int,
    {
        self.parse_expr(Precendence::Assignment)
    }

    /// A parenthesized expression, after its `(`.
    pub open spec fn grouping(self) -> Parsed
        decreases self.measure(), 8int,
    {
        match self.expression() {
            Err(e) => Err(e),
            Ok(p1) => p1.consumed(TokenType::RIGHT_PAREN),
        }
    }

    /// A unary operator, which is the previous token, and its operand.
    pub open spec fn unary(self) -> Parsed
        decreases self.measure(), 8int,
    {
        match self.previous {
            None => Err(self.fail(SyntaxFault::Internal, no_previous_message())),
            Some(token) => match unary_operator(token.token_type) {
                None => Err(
                    self.fail(SyntaxFault::InvalidOperator, unary_message(token.token_type)),
                ),
                Some(op) => match self.parse_expr(Precendence::Unary) {
                    Err(e) => Err(e),
                    Ok(p1) => Ok(p1.emitted(InstructionView::Unary(op))),
                },
            },
        }
    }

    /// The state after the instructions of the binary operator `kind` have
    /// been emitted; a failure where `kind` is no binary operator.
    pub open spec fn operated(self, kind: TokenType) -> Parsed {
        match binary_operator(kind) {
            None => Err(self.fail(SyntaxFault::InvalidOperator, binary_message(kind))),
            Some((op, negated)) => {
                let p1 = self.emitted(InstructionView::Binary(op));
                Ok(
                    if negated {
                        p1.emitted(InstructionView::Unary(UnaryOp::Bang))
                    } else {
                        p1
                    },
                )
            },
        }
    }

    /// A binary operator, which is the previous token, and its right
    /// operand, which binds more strongly than the operator.
    pub open spec fn binary(self) -> Parsed
        decreases self.measure(), 8int,
    {
        match self.previous {
            None => Err(self.fail(SyntaxFault::Internal, no_previous_message())),
            Some(token) => match Precendence::at_level(
                (precedence_of(token.token_type).level() + 1) as u8,
            ) {
                None => Err(self.stuck()),
                Some(next) => match self.parse_expr(next) {
                    Err(e) => Err(e),
                    Ok(p1) => p1.operated(token.token_type),
                },
            },
        }
    }

    /// The right operand of `and` (where `continue_condition` holds) or
    /// `or`, after the operator. A jump over the operand is placed before
    /// it: it is taken where the left operand decides the result, and
    /// otherwise the left operand is dropped and the right one computed.
    pub open spec fn short_circuit(self, prec: Precendence, continue_condition: bool) -> Parsed
        decreases self.measure(), 7int,
    {
        let origin = self.here();
        let p1 = self.emitted(InstructionView::NoOp).emitted(InstructionView::Pop);
        match p1.parse_expr(prec) {
            Err(e) => Err(e),
            Ok(p2) => p2.patched(origin, InstructionView::Jump(p2.here(), continue_condition)),
        }
    }

    /// The right operand of `and`, after the operator.
    pub open spec fn and(self) -> Parsed
        decreases self.measure(), 8int,
    {
        self.short_circuit(Precendence::And, true)
    }

    /// The right operand of `or`, after the operator.
    pub open spec fn or(self) -> Parsed
        decreases self.measure(), 8int,
    {
        self.short_circuit(Precendence::Or, false)
    }

    /// What follows the name of the variable `name` that lives at `scope`:
    /// with `=`, the value and the assignment, which must be allowed here
    /// and must not be to a constant; without it, the read.
    pub open spec fn accessed(
        self,
        name: Seq<u8>,
        scope: DefinitionScope,
        is_const: bool,
        can_assign: bool,
    ) -> Parsed
        decreases self.measure(), 7int,
    {
        if self.check(TokenType::EQUAL) {
            match self.advanced() {
                Err(e) => Err(e),
                Ok(p1) => {
                    proof {
                        scan_progress(self.src, self.pos, self.line);
                    }
                    if can_assign && !is_const {
                        match p1.expression() {
                            Err(e) => Err(e),
                            Ok(p2) => Ok(p2.emitted(InstructionView::Override(name, scope))),
                        }
                    } else if !can_assign {
                        Err(p1.fail(SyntaxFault::InvalidAssignmentTarget, target_message()))
                    } else {
                        Err(p1.fail(SyntaxFault::ConstAssignment, const_message(name)))
                    }
                },
            }
        } else {
            Ok(self.emitted(InstructionView::Resolve(name, scope)))
        }
    }

    /// Whether an assignment is refused here, where `=` follows the name of
    /// a variable: the place allows no assignment, or the variable is a
    /// constant.
    pub open spec fn assignment_refused(self, is_const: bool, can_assign: bool) -> bool {
        self.check(TokenType::EQUAL) && !(can_assign && !is_const)
    }

    /// Whether the variable whose name is the previous token is refused
    /// before anything is emitted for it: no token stands before, no scope
    /// declares the name, or an assignment to it is refused.
    pub open spec fn var_refused(self, can_assign: bool) -> bool {
        match self.previous {
            None => true,
            Some(token) => self.compiler.resolved(token.literal).scope is None
                || self.assignment_refused(self.compiler.is_const(token.literal), can_assign),
        }
    }

    /// A variable, whose name is the previous token: an assignment to it
    /// where `=` follows, and a read of it otherwise.
    pub open spec fn var(self, can_assign: bool) -> Parsed
        decreases self.measure(), 8int,
    {
        match self.previous {
            None => Err(self.fail(SyntaxFault::Internal, no_previous_message())),
            Some(token) => match self.compiler.resolved(token.literal).scope {
                None => Err(
                    self.fail(SyntaxFault::UndefinedVariable, undefined_message(token.literal)),
                ),
                Some(scope) => self.with_compiler(
                    self.compiler.resolved(token.literal).compiler,
                ).accessed(
                    token.literal,
                    scope,
                    self.compiler.is_const(token.literal),
                    can_assign,
                ),
            },
        }
    }

    /// The arguments of a call that follow `count` arguments: expressions
    /// between commas. Gives the state after them and their number.
    pub open spec fn arguments(self, count: usize) -> Result<(ParserView, usize), Failure>
        decreases self.measure(), 3int,
    {
        if count == usize::MAX {
            Err(self.stuck())
        } else {
            match self.expression() {
                Err(e) => Err(e),
                Ok(p1) => if p1.measure() > self.measure() {
                    Err(p1.stuck())
                } else if p1.check(TokenType::COMMA) {
                    match p1.advanced() {
                        Err(e) => Err(e),
                        Ok(p2) => {
                            proof {
                                scan_progress(p1.src, p1.pos, p1.line);
                            }
                            p2.arguments((count + 1) as usize)
                        },
                    }
                } else {
                    Ok((p1, (count + 1) as usize))
                },
            }
        }
    }

    /// The end of a call with `count` arguments: `)`, and the call instruction.
    pub open spec fn call_closed(self, count: usize) -> Parsed {
        match self.consumed(TokenType::RIGHT_PAREN) {
            Err(e) => Err(e),
            Ok(p1) => Ok(p1.emitted(InstructionView::Call(count, p1.line as usize, p1.snippet()))),
        }
    }

    /// A call, after its `(`: the arguments, `)`, and the call instruction.
    pub open spec fn call(self) -> Parsed
        decreases self.measure(), 8int,
    {
        if self.check(TokenType::RIGHT_PAREN) {
            self.call_closed(0)
        } else {
            match self.arguments(0) {
                Err(e) => Err(e),
                Ok((p1, count)) => p1.call_closed(count),
            }
        }
    }

    /// A property, after its `.`: a write where an assignment could stand
    /// and `=` follows the name, and a read otherwise.
    pub open spec fn dot(self, can_assign: bool) -> Parsed
        decreases self.measure(), 8int,
    {
        match self.consumed(TokenType::IDENTIFIER) {
            Err(e) => Err(e),
            Ok(p1) => {
                proof {
                    scan_progress(self.src, self.pos, self.line);
                }
                let name = self.current.literal;
                if can_assign && p1.check(TokenType::EQUAL) {
                    match p1.advanced() {
                        Err(e) => Err(e),
                        Ok(p2) => {
                            proof {
                                scan_progress(p1.src, p1.pos, p1.line);
                            }
                            match p2.expression() {
                                Err(e) => Err(e),
                                Ok(p3) => Ok(
                                    p3.emitted(
                                        InstructionView::SetField(
                                            name,
                                            p3.line as usize,
                                            p3.snippet(),
                                        ),
                                    ),
                                ),
                            }
                        },
                    }
                } else {
                    Ok(p1.emitted(InstructionView::Get(name, p1.line as usize, p1.snippet())))
                }
            },
        }
    }

    /// An expression, `;`, and the instruction `last`.
    pub open spec fn terminated(self, last: InstructionView) -> Parsed
    {
        match self.expression() {
            Err(e) => Err(e),
            Ok(p1) => match p1.consumed(TokenType::SEMICOLON) {
                Err(e) => Err(e),
                Ok(p2) => Ok(p2.emitted(last)),
            },
        }
    }

    /// A print statement, after `print`.
    pub open spec fn print(self) -> Parsed
    {
        self.terminated(InstructionView::Print)
    }

    /// An expression statement: the value is dropped.
    pub open spec fn expr_stmt(self) -> Parsed
    {
        self.terminated(InstructionView::Pop)
    }

    /// The declarations of a block and its `}`, after its `{`.
    pub open spec fn block(self) -> Parsed
        decreases self.measure(), 7int,
    {
        if self.check(TokenType::RIGHT_BRACE) || self.check(TokenType::EOF) {
            self.consumed(TokenType::RIGHT_BRACE)
        } else {
            match self.declaration() {
                Err(e) => Err(e),
                Ok(p1) => if p1.measure() >= self.measure() {
                    Err(p1.stuck())
                } else {
                    p1.block()
                },
            }
        }
    }

    /// A block in a scope of its own, after its `{`.
    pub open spec fn scoped_block(self) -> Parsed
        decreases self.measure(), 8int,
    {
        match self.scope_opened() {
            Err(e) => Err(e),
            Ok(p1) => match p1.block() {
                Err(e) => Err(e),
                Ok(p2) => p2.scope_closed(),
            },
        }
    }

    /// The initializer of a declaration: `=` and an expression; a
    /// constant must have one, and a variable without one is `nil`.
    pub open spec fn initializer(self, const_: bool) -> Parsed {
        if self.check(TokenType::EQUAL) {
            match self.advanced() {
                Err(e) => Err(e),
                Ok(p1) => p1.expression(),
            }
        } else if const_ {
            self.consumed(TokenType::EQUAL)
        } else {
            Ok(self.emitted(InstructionView::Constant(ValueView::Nil)))
        }
    }

    /// The end of the declaration of the variable `name` that lives at
    /// `scope`: `;`, the instruction that defines it, and the variable
    /// becomes visible.
    pub open spec fn defined(self, scope: DefinitionScope, name: Seq<u8>) -> Parsed {
        match self.consumed(TokenType::SEMICOLON) {
            Err(e) => Err(e),
            Ok(p1) => {
                let p2 = p1.emitted(InstructionView::Define(scope, name));
                Ok(p2.with_compiler(p2.compiler.latest_marked()))
            },
        }
    }

    /// A variable or constant declaration, after `var` or `const`: the
    /// name, the initializer, and `;`. The variable is visible once its
    /// initializer has been compiled.
    pub open spec fn var_decl(self, const_: bool) -> Parsed {
        match self.consumed(TokenType::IDENTIFIER) {
            Err(e) => Err(e),
            Ok(p1) => {
                let name = self.current.literal;
                match p1.declared(const_, name) {
                    Err(e) => Err(e),
                    Ok((p2, scope)) => match p2.initializer(const_) {
                        Err(e) => Err(e),
                        Ok(p3) => p3.defined(scope, name),
                    },
                }
            },
        }
    }

    /// The state after `jump` has been appended and exchanged with the
    /// placeholder at `placeholder`.
    pub open spec fn patched(self, placeholder: usize, jump: InstructionView) -> Parsed {
        self.emitted(jump).swapped(placeholder, self.here())
    }

    /// A condition between parentheses.
    pub open spec fn condition(self) -> Parsed {
        match self.consumed(TokenType::LEFT_PAREN) {
            Err(e) => Err(e),
            Ok(p1) => match p1.expression() {
                Err(e) => Err(e),
                Ok(p2) => p2.consumed(TokenType::RIGHT_PAREN),
            },
        }
    }

    /// The end of the first branch of an `if`, whose placeholder for the
    /// jump over the branch is at `dest`: a placeholder for the jump over
    /// the second branch, whose position is given back, and the jump over
    /// the first branch, taken where the condition is false.
    pub open spec fn then_closed(self, dest: usize) -> Result<(ParserView, usize), Failure> {
        let p1 = self.emitted(InstructionView::NoOp);
        match p1.patched(dest, InstructionView::Jump(p1.here(), true)) {
            Err(e) => Err(e),
            Ok(p2) => Ok((p2, self.here())),
        }
    }

    /// The end of the second branch of an `if`: the jump over it, in the
    /// placeholder at `placeholder`, and the end of the statement.
    pub open spec fn else_closed(self, placeholder: usize) -> Parsed {
        match self.patched(placeholder, InstructionView::ForceJump(self.here())) {
            Err(e) => Err(e),
            Ok(p1) => Ok(p1.emitted(InstructionView::Pop)),
        }
    }

    /// An `if` statement, after `if`. The condition stays on the stack
    /// while a branch runs and is dropped at the end.
    pub open spec fn if_stmt(self) -> Parsed
        decreases self.measure(), 8int,
    {
        match self.condition() {
            Err(e) => Err(e),
            Ok(p1) => {
                let p2 = p1.emitted(InstructionView::NoOp);
                if p2.measure() >= self.measure() {
                    Err(p2.stuck())
                } else {
                    match p2.statement() {
                        Err(e) => Err(e),
                        Ok(p3) => match p3.then_closed(p1.here()) {
                            Err(e) => Err(e),
                            Ok((p4, placeholder)) => if p4.check(TokenType::ELSE) {
                                match p4.advanced() {
                                    Err(e) => Err(e),
                                    Ok(p5) => if p5.measure() >= self.measure() {
                                        Err(p5.stuck())
                                    } else {
                                        match p5.statement() {
                                            Err(e) => Err(e),
                                            Ok(p6) => p6.else_closed(placeholder),
                                        }
                                    },
                                }
                            } else {
                                Ok(p4.emitted(InstructionView::Pop))
                            },
                        },
                    }
                }
            },
        }
    }

    /// The end of a loop whose condition starts at `start` and whose jump
    /// out has its placeholder at `placeholder`: the jump back to `start`,
    /// the jump out, taken where the condition is false, and the
    /// instruction that drops the condition.
    pub open spec fn loop_closed(self, start: usize, placeholder: usize) -> Parsed {
        let p1 = self.emitted(InstructionView::ForceJump(start));
        match p1.patched(placeholder, InstructionView::Jump(p1.here(), true)) {
            Err(e) => Err(e),
            Ok(p2) => Ok(p2.emitted(InstructionView::Pop)),
        }
    }

    /// A `while` statement, after `while`.
    pub open spec fn while_stmt(self) -> Parsed
        decreases self.measure(), 8int,
    {
        match self.condition() {
            Err(e) => Err(e),
            Ok(p1) => {
                let p2 = p1.emitted(InstructionView::NoOp).emitted(InstructionView::Pop);
                if p2.measure() >= self.measure() {
                    Err(p2.stuck())
                } else {
                    match p2.statement() {
                        Err(e) => Err(e),
                        Ok(p3) => p3.loop_closed(self.here(), p1.here()),
                    }
                }
            },
        }
    }

    /// The first clause of a `for` statement: a variable declaration or
    /// an expression statement.
    pub open spec fn for_init(self) -> Parsed {
        if self.check(TokenType::VAR) {
            match self.advanced() {
                Err(e) => Err(e),
                Ok(p1) => p1.var_decl(false),
            }
        } else {
            self.expr_stmt()
        }
    }

    /// The second clause of a `for` statement: the condition and `;`, a
    /// placeholder for the jump out, the instruction that drops the
    /// condition, and a placeholder for the jump to the body.
    pub open spec fn for_condition(self) -> Parsed {
        match self.expression() {
            Err(e) => Err(e),
            Ok(p1) => match p1.consumed(TokenType::SEMICOLON) {
                Err(e) => Err(e),
                Ok(p2) => Ok(
                    p2.emitted(InstructionView::NoOp).emitted(InstructionView::Pop).emitted(
                        InstructionView::NoOp,
                    ),
                ),
            },
        }
    }

    /// The third clause of a `for` statement, for a loop whose condition
    /// starts at `start` and whose placeholder for the jump to the body is
    /// at `placeholder`: the increment and `)`, the jump back to the
    /// condition, and the jump to the body.
    pub open spec fn for_increment(self, start: usize, placeholder: usize) -> Parsed {
        match self.expression() {
            Err(e) => Err(e),
            Ok(p1) => match p1.consumed(TokenType::RIGHT_PAREN) {
                Err(e) => Err(e),
                Ok(p2) => {
                    let p3 = p2.emitted(InstructionView::Pop).emitted(
                        InstructionView::ForceJump(start),
                    );
                    p3.patched(placeholder, InstructionView::ForceJump(p3.here()))
                },
            },
        }
    }

    /// The clauses of a `for` statement, after `for`. Gives the state
    /// after them, the position of the placeholder for the jump out, and
    /// the position of the increment.
    pub open spec fn for_header(self) -> Result<(ParserView, usize, usize), Failure> {
        match self.consumed(TokenType::LEFT_PAREN) {
            Err(e) => Err(e),
            Ok(p1) => match p1.for_init() {
                Err(e) => Err(e),
                Ok(p2) => match p2.for_condition() {
                    Err(e) => Err(e),
                    Ok(p3) => if p3.here() < 3 {
                        Err(p3.stuck())
                    } else {
                        match p3.for_increment(p2.here(), (p3.here() - 1) as usize) {
                            Err(e) => Err(e),
                            Ok(p4) => Ok((p4, (p3.here() - 3) as usize, p3.here())),
                        }
                    },
                },
            },
        }
    }

    /// A `for` statement, after `for`: the body runs after the condition,
    /// the increment after the body, and the condition after the increment.
    pub open spec fn for_stmt(self) -> Parsed
        decreases self.measure(), 8int,
    {
        match self.for_header() {
            Err(e) => Err(e),
            Ok((p1, placeholder, increment)) => if p1.measure() >= self.measure() {
                Err(p1.stuck())
            } else {
                match p1.statement() {
                    Err(e) => Err(e),
                    Ok(p2) => p2.loop_closed(increment, placeholder),
                }
            },
        }
    }

    /// A `return` statement, after `return`.
    pub open spec fn return_(self) -> Parsed {
        let valued = if self.check(TokenType::SEMICOLON) {
            Ok(self)
        } else {
            self.expression()
        };
        match valued {
            Err(e) => Err(e),
            Ok(p1) => match p1.consumed(TokenType::SEMICOLON) {
                Err(e) => Err(e),
                Ok(p2) => Ok(p2.emitted(InstructionView::Return)),
            },
        }
    }

    /// The state after the compilation of a function has begun: a new
    /// level, and a new chunk that starts with a placeholder, so that no
    /// jump goes to position 0.
    pub open spec fn function_begun(self, type_: FunctionTypeView) -> ParserView {
        ParserView {
            chunks: self.chunks.push(
                ChunkView { code: seq![InstructionView::NoOp], lines: seq![self.line as usize] },
            ),
            compiler: self.compiler.function_begun(type_, None),
            ..self
        }
    }

    /// The function that the innermost level and chunk make.
    pub open spec fn function_made(self) -> FuncView {
        FuncView {
            name: self.compiler.top().type_.context(),
            arity: self.compiler.top().arity,
            chunk: self.chunks.last(),
            upvalue_offset: self.compiler.top().upvalue_start,
            upvalue_count: if self.compiler.upvalues.len() >= self.compiler.top().upvalue_start {
                (self.compiler.upvalues.len() - self.compiler.top().upvalue_start) as usize
            } else {
                0
            },
        }
    }

    /// The state after the compilation of the innermost function has
    /// ended: the function joins the compiled functions, and its level and
    /// chunk are gone. Gives the function's index too.
    pub open spec fn function_ended(self) -> Result<(ParserView, usize), Failure> {
        if self.compiler.levels.len() > 1 && self.chunks.len() > 1 {
            Ok(
                (
                    ParserView {
                        functions: self.functions.push(self.function_made()),
                        chunks: self.chunks.drop_last(),
                        compiler: self.compiler.function_ended(),
                        ..self
                    },
                    self.functions.len() as usize,
                ),
            )
        } else {
            Err(self.stuck())
        }
    }

    /// The state after one more parameter has been counted.
    pub open spec fn parameter_counted(self) -> ParserView {
        self.with_compiler(
            self.compiler.with_top(
                LevelView {
                    arity: if self.compiler.top().arity < usize::MAX {
                        (self.compiler.top().arity + 1) as usize
                    } else {
                        usize::MAX
                    },
                    ..self.compiler.top()
                },
            ),
        )
    }

    /// A parameter: a name, which becomes an initialized local of the function.
    pub open spec fn parameter(self) -> Parsed {
        match self.consumed(TokenType::IDENTIFIER) {
            Err(e) => Err(e),
            Ok(p1) => {
                let name = self.current.literal;
                match p1.declared(false, name) {
                    Err(e) => Err(e),
                    Ok((p2, scope)) => {
                        let p3 = p2.emitted(InstructionView::Define(scope, name));
                        Ok(p3.with_compiler(p3.compiler.latest_marked()).parameter_counted())
                    },
                }
            },
        }
    }

    /// The parameters of a function: names between commas.
    pub open spec fn parameters(self) -> Parsed
        decreases self.measure(),
    {
        match self.parameter() {
            Err(e) => Err(e),
            Ok(p1) => if p1.check(TokenType::COMMA) {
                match p1.advanced() {
                    Err(e) => Err(e),
                    Ok(p2) => if p2.measure() >= self.measure() {
                        Err(p2.stuck())
                    } else {
                        p2.parameters()
                    },
                }
            } else {
                Ok(p1)
            },
        }
    }

    /// The head of a function: a scope for the parameters and the body,
    /// the parameters between parentheses, and the `{` of the body.
    pub open spec fn function_head(self) -> Parsed {
        match self.scope_opened() {
            Err(e) => Err(e),
            Ok(p1) => match p1.consumed(TokenType::LEFT_PAREN) {
                Err(e) => Err(e),
                Ok(p2) => {
                    let listed = if p2.check(TokenType::RIGHT_PAREN) {
                        Ok(p2)
                    } else {
                        p2.parameters()
                    };
                    match listed {
                        Err(e) => Err(e),
                        Ok(p3) => match p3.consumed(TokenType::RIGHT_PAREN) {
                            Err(e) => Err(e),
                            Ok(p4) => p4.consumed(TokenType::LEFT_BRACE),
                        },
                    }
                },
            },
        }
    }

    /// The end of a function: its scope closes, which drops the
    /// parameters and the locals of the body, and a return is emitted for
    /// a body that runs to its end. Such a function leaves with an empty
    /// window: it returns `nil`, and its locals, being gone, are not
    /// captured. A local is captured by a `return` inside the scope that
    /// declares it.
    pub open spec fn function_closed(self) -> Parsed {
        match self.scope_closed() {
            Err(e) => Err(e),
            Ok(p1) => Ok(p1.emitted(InstructionView::Return)),
        }
    }

    /// The parameters and the body of a function.
    pub open spec fn function(self) -> Parsed
        decreases self.measure(), 8int,
    {
        match self.function_head() {
            Err(e) => Err(e),
            Ok(p1) => if p1.measure() >= self.measure() {
                Err(p1.stuck())
            } else {
                match p1.block() {
                    Err(e) => Err(e),
                    Ok(p2) => p2.function_closed(),
                }
            },
        }
    }

    /// A function or method of the kind `type_`, from its parameters on:
    /// it is compiled into a chunk of its own and joins the compiled
    /// functions. Gives the state after it and the function's index.
    pub open spec fn compiled(self, type_: FunctionTypeView) -> Result<(ParserView, usize), Failure>
        decreases self.measure(), 9int,
    {
        match self.function_begun(type_).function() {
            Err(e) => Err(e),
            Ok(p1) => p1.function_ended(),
        }
    }

    /// The state after `name` has been declared as a constant of the
    /// innermost scope that is initialized already.
    pub open spec fn constant_declared(self, name: Seq<u8>) -> ParserView {
        self.with_compiler(self.compiler.local_added(name, true).latest_marked())
    }

    /// The state after the function at `id` has been made the value of
    /// the variable `name` that lives at `scope`.
    pub open spec fn function_defined(self, scope: DefinitionScope, name: Seq<u8>, id: usize) -> ParserView {
        self.emitted(InstructionView::Constant(ValueView::Func(id))).emitted(
            InstructionView::Define(scope, name),
        )
    }

    /// A function declaration, after `fun`: the name is a constant of the
    /// innermost scope, whose value is the compiled function.
    pub open spec fn func_decl(self) -> Parsed
        decreases self.measure(), 10int,
    {
        match self.consumed(TokenType::IDENTIFIER) {
            Err(e) => Err(e),
            Ok(p1) => {
                let p2 = p1.constant_declared(self.current.literal);
                if p2.measure() > self.measure() {
                    Err(p2.stuck())
                } else {
                    match p2.compiled(
                        FunctionTypeView::Function(self.current.literal, p2.line as u32),
                    ) {
                        Err(e) => Err(e),
                        Ok((p3, id)) => Ok(
                            p3.function_defined(p1.compiler.new_scope(), self.current.literal, id),
                        ),
                    }
                }
            },
        }
    }

    /// The state after the function at `id` has become the method `name`
    /// of the class at `class`.
    pub open spec fn method_set(self, class: usize, name: Seq<u8>, id: usize) -> Parsed {
        if class < self.heap.classes.len() {
            Ok(
                ParserView {
                    heap: HeapView {
                        classes: self.heap.classes.update(
                            class as int,
                            ClassView {
                                name: self.heap.classes[class as int].name,
                                methods: self.heap.classes[class as int].methods.insert(
                                    name,
                                    ValueView::Func(id),
                                ),
                            },
                        ),
                        ..self.heap
                    },
                    ..self
                },
            )
        } else {
            Err(self.stuck())
        }
    }

    /// The methods of the class at `class` and the `}` of its body.
    pub open spec fn methods(self, class: usize) -> Parsed
        decreases self.measure(), 11int,
    {
        if self.check(TokenType::RIGHT_BRACE) || self.check(TokenType::EOF) {
            self.consumed(TokenType::RIGHT_BRACE)
        } else {
            match self.consumed(TokenType::IDENTIFIER) {
                Err(e) => Err(e),
                Ok(p1) => if p1.measure() >= self.measure() {
                    Err(p1.stuck())
                } else {
                    match p1.compiled(
                        FunctionTypeView::Method(self.current.literal, p1.line as u32),
                    ) {
                        Err(e) => Err(e),
                        Ok((p2, id)) => match p2.method_set(class, self.current.literal, id) {
                            Err(e) => Err(e),
                            Ok(p3) => if p3.measure() >= self.measure() {
                                Err(p3.stuck())
                            } else {
                                p3.methods(class)
                            },
                        },
                    }
                },
            }
        }
    }

    /// The state after the class `name` has been declared: the name is a
    /// constant of the innermost scope, whose value is the new class.
    pub open spec fn class_made(self, name: Seq<u8>) -> ParserView {
        ParserView {
            compiler: self.compiler.local_added(name, true).latest_marked(),
            heap: HeapView {
                classes: self.heap.classes.push(ClassView { name, methods: Map::empty() }),
                ..self.heap
            },
            ..self
        }.emitted(
            InstructionView::Constant(ValueView::Class(self.heap.classes.len() as usize)),
        ).emitted(InstructionView::Define(self.compiler.new_scope(), name))
    }

    /// The parent of the class `name`, declared at `scope`, after `<`:
    /// the parent's name, whose value is read, and the instruction that
    /// makes the class inherit from it.
    pub open spec fn parent(self, scope: DefinitionScope, name: Seq<u8>) -> Parsed {
        match self.consumed(TokenType::IDENTIFIER) {
            Err(e) => Err(e),
            Ok(p1) => {
                let parent = self.current.literal;
                let found = p1.compiler.resolved(parent);
                match found.scope {
                    None => Err(
                        p1.fail(SyntaxFault::UndefinedVariable, undefined_message(parent)),
                    ),
                    Some(parent_scope) => Ok(
                        p1.with_compiler(found.compiler).emitted(
                            InstructionView::Resolve(parent, parent_scope),
                        ).emitted(
                            InstructionView::Inherit(scope, name, p1.line as usize, p1.snippet()),
                        ),
                    ),
                }
            },
        }
    }

    /// The head of a class declaration, after `class`: the name, the
    /// parent where one is named, and the `{` of the body. Gives the state
    /// after it and the index of the class.
    pub open spec fn class_head(self) -> Result<(ParserView, usize), Failure> {
        match self.consumed(TokenType::IDENTIFIER) {
            Err(e) => Err(e),
            Ok(p1) => {
                let name = self.current.literal;
                let p2 = p1.class_made(name);
                let inherited = if p2.check(TokenType::LESS) {
                    match p2.advanced() {
                        Err(e) => Err(e),
                        Ok(p3) => p3.parent(p1.compiler.new_scope(), name),
                    }
                } else {
                    Ok(p2)
                };
                match inherited {
                    Err(e) => Err(e),
                    Ok(p4) => match p4.consumed(TokenType::LEFT_BRACE) {
                        Err(e) => Err(e),
                        Ok(p5) => Ok((p5, p1.heap.classes.len() as usize)),
                    },
                }
            },
        }
    }

    /// A class declaration, after `class`: a parent, where one is named,
    /// hands its methods down when the declaration runs, and the methods
    /// of the body are the class's own.
    pub open spec fn class_decl(self) -> Parsed
        decreases self.measure(), 12int,
    {
        match self.class_head() {
            Err(e) => Err(e),
            Ok((p1, class)) => if p1.measure() >= self.measure() {
                Err(p1.stuck())
            } else {
                p1.methods(class)
            },
        }
    }

    /// A statement.
    pub open spec fn statement(self) -> Parsed
        decreases self.measure(), 5int,
    {
        if self.check(TokenType::PRINT) {
            match self.advanced() {
                Err(e) => Err(e),
                Ok(p1) => p1.print(),
            }
        } else if self.check(TokenType::LEFT_BRACE) {
            match self.advanced() {
                Err(e) => Err(e),
                Ok(p1) => {
                    proof {
                        scan_progress(self.src, self.pos, self.line);
                    }
                    p1.scoped_block()
                },
            }
        } else if self.check(TokenType::IF) {
            match self.advanced() {
                Err(e) => Err(e),
                Ok(p1) => {
                    proof {
                        scan_progress(self.src, self.pos, self.line);
                    }
                    p1.if_stmt()
                },
            }
        } else if self.check(TokenType::WHILE) {
            match self.advanced() {
                Err(e) => Err(e),
                Ok(p1) => {
                    proof {
                        scan_progress(self.src, self.pos, self.line);
                    }
                    p1.while_stmt()
                },
            }
        } else if self.check(TokenType::FOR) {
            match self.advanced() {
                Err(e) => Err(e),
                Ok(p1) => {
                    proof {
                        scan_progress(self.src, self.pos, self.line);
                    }
                    p1.for_stmt()
                },
            }
        } else if self.check(TokenType::RETURN) {
            match self.advanced() {
                Err(e) => Err(e),
                Ok(p1) => p1.return_(),
            }
        } else {
            self.expr_stmt()
        }
    }

    /// A declaration: of a variable, a constant, a function or a class; or
    /// a statement.
    pub open spec fn declaration(self) -> Parsed
        decreases self.measure(), 6int,
    {
        if self.check(TokenType::VAR) {
            match self.advanced() {
                Err(e) => Err(e),
                Ok(p1) => p1.var_decl(false),
            }
        } else if self.check(TokenType::CONST) {
            match self.advanced() {
                Err(e) => Err(e),
                Ok(p1) => p1.var_decl(true),
            }
        } else if self.check(TokenType::FUN) {
            match self.advanced() {
                Err(e) => Err(e),
                Ok(p1) => {
                    proof {
                        scan_progress(self.src, self.pos, self.line);
                    }
                    p1.func_decl()
                },
            }
        } else if self.check(TokenType::CLASS) {
            match self.advanced() {
                Err(e) => Err(e),
                Ok(p1) => {
                    proof {
                        scan_progress(self.src, self.pos, self.line);
                    }
                    p1.class_decl()
                },
            }
        } else {
            self.statement()
        }
    }

    /// The declarations of a program, up to the end of the source.
    pub open spec fn program(self) -> Parsed
        decreases self.measure(),
    {
        if self.check(TokenType::EOF) {
            Ok(self)
        } else {
            match self.declaration() {
                Err(e) => Err(e),
                Ok(p1) => if p1.measure() >= self.measure() {
                    Err(p1.stuck())
                } else {
                    p1.program()
                },
            }
        }
    }
}

} // verus!
