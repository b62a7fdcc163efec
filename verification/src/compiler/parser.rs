//! The parser: a Pratt parser that compiles in one pass. It asks the
//! scanner for tokens, keeps the lexical state up to date, and appends
//! instructions to the chunk of the function being compiled.
//!
//! ```text
//! program     -> declaration* EOF
//! declaration -> varDecl | constDecl | funDecl | classDecl | statement
//! classDecl   -> "class" IDENT ( "<" IDENT )? "{" method* "}"
//! funDecl     -> "fun" IDENT "(" params? ")" block
//! method      -> IDENT "(" params? ")" block
//! varDecl     -> "var" IDENT ( "=" expression )? ";"
//! constDecl   -> "const" IDENT "=" expression ";"
//! statement   -> exprStmt | printStmt | block | ifStmt | whileStmt
//!              | forStmt | returnStmt
//! block       -> "{" declaration* "}"
//! expression  -> assignment
//! assignment  -> (call ".")? IDENT "=" assignment | logic_or
//! ```
use vstd::prelude::*;
use vstd::string::*;
use crate::compiler::compiler::Compiler;
use crate::compiler::err::{ParserErr, SyntaxFault};
use crate::compiler::grammar::{
    const_message,
    expected_message,
    expression_message,
    literal_message,
    no_previous_message,
    number_message,
    binary_message,
    unary_message,
    redefine_message,
    undefined_message,
    Failure,
    Parsed,
    ParserView,
};
use crate::compiler::rules::{construct_rule, InfixRule, Precendence, PrefixRule};
use crate::compiler::scanner::{reported_at, scan_progress, scan_step, Scanned, Scanner};
use crate::compiler::token::{Token, TokenType, TokenView};
use crate::instructions::chunk::{Chunk, ChunkView};
use crate::instructions::define::DefinitionScope;
use crate::instructions::instructions::{
    Binary,
    BinaryOp,
    Call,
    Constant,
    Get,
    Instruction,
    InstructionView,
    Jump,
    NoOp,
    Override,
    Pop,
    PopN,
    Resolve,
    SetField,
    This,
    Unary,
    UnaryOp,
};
use crate::text::{copy_bytes, push_bytes, push_text, text_bytes};
use crate::values::func::{Func, FuncView};
use crate::values::number::Number;
use crate::values::obj::{Heap, HeapView};
use crate::values::values::Value;

verus! {

/// Whether the error `err` reports the failure `failure` in the source `src`.
pub open spec fn reported(src: Seq<u8>, failure: Failure, err: ParserErr) -> bool {
    &&& err.fault == failure.fault
    &&& err.message@ == failure.message
    &&& reported_at(src, failure.pos, failure.line, err)
}

/// Whether a call that left the state `after` and returned `r` did what
/// `expected` says.
pub open spec fn agrees(expected: Parsed, after: ParserView, r: Result<(), ParserErr>) -> bool {
    match expected {
        Ok(p) => r is Ok && after == p,
        Err(f) => r is Err && reported(after.src, f, r->Err_0),
    }
}

/// Whether a call that left the state `after` and returned `r` did what
/// `expected` says.
pub open spec fn agrees_with<T>(
    expected: Result<(ParserView, T), Failure>,
    after: ParserView,
    r: Result<T, ParserErr>,
) -> bool {
    match expected {
        Ok((p, value)) => r is Ok && after == p && r->Ok_0 == value,
        Err(f) => r is Err && reported(after.src, f, r->Err_0),
    }
}

/// The parser.
#[derive(Debug)]
pub struct Parser<'a> {
    pub scanner: Scanner<'a>,
    pub current: Token<'a>,
    pub previous: Option<Token<'a>>,
    pub chunks: Vec<Chunk>,
    pub compiler: Compiler,
    pub functions: Vec<Func>,
    pub heap: Heap,
    pub numbers: &'a [u64],
    pub used: usize,
}

impl<'a> View for Parser<'a> {
    type V = ParserView;

    open spec fn view(&self) -> ParserView {
        ParserView {
            src: self.scanner.src(),
            pos: self.scanner.current as int,
            line: self.scanner.line as int,
            current: self.current@,
            previous: match self.previous {
                Some(token) => Some(token@),
                None => None,
            },
            chunks: self.chunks.deep_view(),
            compiler: self.compiler@,
            functions: self.functions.deep_view(),
            heap: self.heap@,
            numbers: self.numbers@,
            used: self.used,
        }
    }
}

/// The state of a parser that has read the first token of `src`: the
/// chunk of the script holds a placeholder, so that no jump goes to
/// position 0.
pub open spec fn opened(
    src: Seq<u8>,
    numbers: Seq<u64>,
    compiler: crate::compiler::compiler::CompilerView,
    heap: HeapView,
) -> Parsed {
    let step = scan_step(src, 0, 1);
    match step.found {
        Scanned::Token { kind, from, to } => Ok(
            ParserView {
                src,
                pos: step.current,
                line: step.line,
                current: TokenView {
                    token_type: kind,
                    literal: crate::compiler::scanner::lexeme_of(src, kind, from, to),
                    line: step.line as u32,
                },
                previous: None,
                chunks: seq![ChunkView { code: seq![InstructionView::NoOp], lines: seq![1usize] }],
                compiler,
                functions: Seq::empty(),
                heap,
                numbers,
                used: 0,
            },
        ),
        Scanned::Fault { fault, message } => Err(
            Failure { fault, message, pos: step.current, line: step.line },
        ),
    }
}

impl<'a> Parser<'a> {
    /// The scanner, the lexical state, the heap and the chunks are well
    /// formed, and there is a chunk to compile into.
    pub open spec fn wf(&self) -> bool {
        &&& self.scanner.wf()
        &&& self.compiler.wf()
        &&& self.heap.wf()
        &&& self.chunks.len() >= 1
        &&& forall|i: int| 0 <= i < self.chunks.len() ==> #[trigger] self.chunks[i].wf()
    }

    /// A parser at the start of `src`, with the values of the number
    /// literals of `src` in `numbers`.
    #[verifier::rlimit(50)]
    pub fn new(src: &'a [u8], numbers: &'a [u64], compiler: Compiler, heap: Heap) -> (r: Result<
        Self,
        ParserErr,
    >)
        requires
            src@.len() < usize::MAX,
            compiler.wf(),
            heap.wf(),
        ensures
            match opened(src@, numbers@, compiler@, heap@) {
                Ok(p) => r is Ok && r->Ok_0@ == p && r->Ok_0.wf(),
                Err(f) => r is Err && reported(src@, f, r->Err_0),
            },
    {
        let mut scanner = Scanner::new(src);
        let current = scanner.next()?;
        let mut chunk = Chunk::new();
        let _ = chunk.write_to_chunk(Instruction::NoOp(NoOp::new()), 1);
        let mut chunks: Vec<Chunk> = Vec::new();
        chunks.push(chunk);
        let parser = Parser {
            scanner,
            current,
            previous: None,
            chunks,
            compiler,
            functions: Vec::new(),
            heap,
            numbers,
            used: 0,
        };
        assert(parser@.chunks =~= seq![
            ChunkView { code: seq![InstructionView::NoOp], lines: seq![1usize] },
        ]);
        assert(parser@.functions =~= Seq::<FuncView>::empty());
        Ok(parser)
    }

    /// How much of the source is left.
    #[verifier::rlimit(50)]
    pub(crate) fn measure(&self) -> (r: usize)
        requires
            self.wf(),
        ensures
            r == self@.measure(),
    {
        let left = self.scanner.input_stream.len() - self.scanner.current;
        match self.current.token_type {
            TokenType::EOF => left,
            _ => left + 1,
        }
    }

    /// The error `fault` at the scanner's cursor.
    #[verifier::rlimit(50)]
    pub(crate) fn fail(&self, fault: SyntaxFault, message: Vec<u8>) -> (r: ParserErr)
        requires
            self.wf(),
        ensures
            reported(self@.src, self@.fail(fault, message@), r),
    {
        self.scanner.fault_here(fault, message)
    }

    /// The error of a broken state.
    #[verifier::rlimit(50)]
    pub(crate) fn stuck(&self) -> (r: ParserErr)
        requires
            self.wf(),
        ensures
            reported(self@.src, self@.stuck(), r),
    {
        self.fail(SyntaxFault::Internal, text_bytes("Interpreter Error:: the parser's state is broken"))
    }

    #[verifier::rlimit(50)]
    pub(crate) fn check(&self, type_: TokenType) -> (r: bool)
        ensures
            r == self@.check(type_),
    {
        self.current.token_type == type_
    }

    #[verifier::rlimit(50)]
    pub(crate) fn advance(&mut self) -> (r: Result<(), ParserErr>)
        requires
            old(self).wf(),
        ensures
            final(self).wf(),
            final(self)@.src == old(self)@.src,
            agrees(old(self)@.advanced(), final(self)@, r),
            final(self)@.chunks == old(self)@.chunks,
            r is Ok ==> final(self)@.measure() <= old(self)@.measure(),
            r is Ok && old(self)@.current.token_type != TokenType::EOF ==> final(self)@.measure()
                < old(self)@.measure(),
    {
        proof {
            scan_progress(self@.src, self@.pos, self@.line);
        }
        let next = self.scanner.next()?;
        self.previous = Some(self.current);
        self.current = next;
        Ok(())
    }

    /// Consumes the current token where it is of the kind `type_`.
    #[verifier::rlimit(50)]
    pub(crate) fn match_(&mut self, type_: TokenType) -> (r: Result<bool, ParserErr>)
        requires
            old(self).wf(),
        ensures
            final(self).wf(),
            final(self)@.src == old(self)@.src,
            old(self)@.check(type_) ==> agrees_with(
                match old(self)@.advanced() {
                    Ok(p) => Ok((p, true)),
                    Err(e) => Err(e),
                },
                final(self)@,
                r,
            ),
            !old(self)@.check(type_) ==> r == Ok::<bool, ParserErr>(false) && final(self)@ == old(
                self,
            )@,
            r is Ok ==> final(self)@.measure() <= old(self)@.measure(),
            r is Ok && r->Ok_0 && type_ != TokenType::EOF ==> final(self)@.measure() < old(
                self,
            )@.measure(),
    {
        if !self.check(type_) {
            return Ok(false);
        }
        self.advance()?;
        Ok(true)
    }

    /// Consumes the current token, which must be of the kind `expected`.
    #[verifier::rlimit(50)]
    pub(crate) fn consume(&mut self, expected: TokenType) -> (r: Result<(), ParserErr>)
        requires
            old(self).wf(),
        ensures
            final(self).wf(),
            final(self)@.src == old(self)@.src,
            agrees(old(self)@.consumed(expected), final(self)@, r),
            r is Ok ==> final(self)@.measure() <= old(self)@.measure(),
            r is Ok && expected != TokenType::EOF ==> final(self)@.measure() < old(
                self,
            )@.measure(),
    {
        if self.current.token_type == expected {
            return self.advance();
        }
        let mut message: Vec<u8> = Vec::new();
        push_text(&mut message, "Expected ");
        push_text(&mut message, expected.symbol());
        push_text(&mut message, " but found ");
        push_bytes(&mut message, self.current.literal);
        assert(message@ =~= expected_message(expected, self@.current.literal));
        Err(self.fail(SyntaxFault::UnexpectedToken, message))
    }

    /// The token that was consumed last.
    #[verifier::rlimit(50)]
    pub(crate) fn get_previous(&self) -> (r: Result<Token<'a>, ParserErr>)
        requires
            self.wf(),
        ensures
            match self@.previous {
                Some(token) => r is Ok && r->Ok_0@ == token,
                None => r is Err && reported(
                    self@.src,
                    self@.fail(SyntaxFault::Internal, no_previous_message()),
                    r->Err_0,
                ),
            },
    {
        match self.previous {
            Some(token) => Ok(token),
            None => Err(
                self.fail(
                    SyntaxFault::Internal,
                    text_bytes("Interpreter Error:: Could consume previous token"),
                ),
            ),
        }
    }

    /// The number of instructions in the chunk of the function being compiled.
    #[verifier::rlimit(50)]
    pub(crate) fn here(&self) -> (r: usize)
        requires
            self.wf(),
        ensures
            r == self@.here(),
    {
        let top = self.chunks.len() - 1;
        assert(self@.chunks[top as int] == self.chunks[top as int]@);
        self.chunks[top].len()
    }

    /// Appends `inst` to the chunk of the function being compiled.
    #[verifier::rlimit(50)]
    pub(crate) fn push(&mut self, inst: Instruction)
        requires
            old(self).wf(),
        ensures
            final(self).wf(),
            final(self)@ == old(self)@.emitted(inst@),
            final(self)@.src == old(self)@.src,
            final(self)@.measure() == old(self)@.measure(),
    {
        let top = self.chunks.len() - 1;
        assert(self@.chunks[top as int] == self.chunks[top as int]@);
        assert(self.chunks[top as int].wf());
        let line = self.scanner.line;
        let _ = self.chunks[top].write_to_chunk(inst, line);
        assert(self@.chunks =~= old(self)@.chunks.update(
            top as int,
            ChunkView {
                code: old(self)@.chunks.last().code.push(inst@),
                lines: old(self)@.chunks.last().lines.push(line),
            },
        ));
    }

    /// Exchanges two instructions of the chunk of the function being compiled.
    #[verifier::rlimit(50)]
    pub(crate) fn swap(&mut self, origin: usize, dest: usize) -> (r: Result<(), ParserErr>)
        requires
            old(self).wf(),
        ensures
            final(self).wf(),
            final(self)@.src == old(self)@.src,
            agrees(old(self)@.swapped(origin, dest), final(self)@, r),
            final(self)@.measure() == old(self)@.measure(),
    {
        let top = self.chunks.len() - 1;
        assert(self@.chunks[top as int] == self.chunks[top as int]@);
        assert(self.chunks[top as int].wf());
        let ghost code = self@.chunks.last().code;
        match self.chunks[top].swap_instructions(origin, dest) {
            Ok(_) => {
                assert(self@.chunks =~= old(self)@.chunks.update(
                    top as int,
                    ChunkView {
                        code: code.update(origin as int, code[dest as int]).update(
                            dest as int,
                            code[origin as int],
                        ),
                        lines: old(self)@.chunks.last().lines,
                    },
                ));
                Ok(())
            },
            Err(_) => {
                assert(self@.chunks =~= old(self)@.chunks);
                Err(self.stuck())
            },
        }
    }

    #[verifier::rlimit(50)]
    pub(crate) fn start_scope(&mut self) -> (r: Result<(), ParserErr>)
        requires
            old(self).wf(),
        ensures
            final(self).wf(),
            final(self)@.src == old(self)@.src,
            agrees(old(self)@.scope_opened(), final(self)@, r),
            final(self)@.measure() == old(self)@.measure(),
    {
        match self.compiler.start_scope() {
            Some(_) => Ok(()),
            None => Err(self.stuck()),
        }
    }

    #[verifier::rlimit(50)]
    pub(crate) fn end_scope(&mut self) -> (r: Result<(), ParserErr>)
        requires
            old(self).wf(),
        ensures
            final(self).wf(),
            final(self)@.src == old(self)@.src,
            agrees(old(self)@.scope_closed(), final(self)@, r),
            final(self)@.measure() == old(self)@.measure(),
    {
        let top = self.chunks.len() - 1;
        assert(self@.chunks[top as int] == self.chunks[top as int]@);
        assert(self.chunks[top as int].wf());
        let line = self.scanner.line;
        match self.compiler.end_scope(&mut self.chunks[top], line) {
            Some(_) => {
                assert(self@.chunks =~= old(self)@.chunks.update(
                    top as int,
                    ChunkView {
                        code: old(self)@.chunks.last().code.push(
                            InstructionView::PopN(old(self)@.compiler.scope_size() as usize),
                        ),
                        lines: old(self)@.chunks.last().lines.push(line),
                    },
                ));
                Ok(())
            },
            None => {
                assert(self@.chunks =~= old(self)@.chunks);
                Err(self.stuck())
            },
        }
    }

    /// Declares the variable `name` in the innermost scope.
    #[verifier::rlimit(50)]
    pub(crate) fn var_decl_inner(&mut self, const_: bool, name: &[u8]) -> (r: Result<
        DefinitionScope,
        ParserErr,
    >)
        requires
            old(self).wf(),
        ensures
            final(self).wf(),
            final(self)@.src == old(self)@.src,
            agrees_with(old(self)@.declared(const_, name@), final(self)@, r),
            final(self)@.measure() == old(self)@.measure(),
    {
        if self.compiler.scope() > 0 {
            match self.compiler.resolve_in_scope(name) {
                Some(_) => {
                    let mut message: Vec<u8> = Vec::new();
                    push_text(&mut message, "Can not redefine `");
                    push_bytes(&mut message, name);
                    push_text(&mut message, "` in the same scope");
                    assert(message@ =~= redefine_message(name@));
                    return Err(self.fail(SyntaxFault::Redeclaration, message));
                },
                None => {},
            }
        }
        Ok(self.compiler.add_local(copy_bytes(name), const_))
    }

    /// A number literal.
    #[verifier::rlimit(50)]
    pub fn number(&mut self) -> (r: Result<(), ParserErr>)
        requires
            old(self).wf(),
        ensures
            final(self).wf(),
            final(self)@.src == old(self)@.src,
            agrees(old(self)@.number(), final(self)@, r),
            final(self)@.measure() == old(self)@.measure(),
    {
        let token = self.get_previous()?;
        if self.used < self.numbers.len() {
            let bits = self.numbers[self.used];
            self.used = self.used + 1;
            self.push(Instruction::Constant(Constant::new(Value::Number(Number::from_bits(bits)))));
            Ok(())
        } else {
            let mut message: Vec<u8> = Vec::new();
            push_text(&mut message, "Expected Number: no value was given for ");
            push_bytes(&mut message, token.literal);
            assert(message@ =~= number_message(token@.literal));
            Err(self.fail(SyntaxFault::MissingNumber, message))
        }
    }

    /// `this`.
    #[verifier::rlimit(50)]
    pub fn this(&mut self) -> (r: Result<(), ParserErr>)
        requires
            old(self).wf(),
        ensures
            final(self).wf(),
            final(self)@.src == old(self)@.src,
            agrees(old(self)@.this(), final(self)@, r),
            final(self)@.measure() == old(self)@.measure(),
    {
        if self.compiler.in_method() {
            self.push(Instruction::This(This::new()));
            Ok(())
        } else {
            Err(
                self.fail(
                    SyntaxFault::InvalidThis,
                    text_bytes("Can not use `this` outside of a method"),
                ),
            )
        }
    }

    /// `true`, `false`, `nil` or a string.
    #[verifier::rlimit(50)]
    pub fn literal(&mut self) -> (r: Result<(), ParserErr>)
        requires
            old(self).wf(),
        ensures
            final(self).wf(),
            final(self)@.src == old(self)@.src,
            agrees(old(self)@.literal(), final(self)@, r),
            final(self)@.measure() == old(self)@.measure(),
    {
        let token = self.get_previous()?;
        let val = match token.token_type {
            TokenType::TRUE => Value::Bool(true),
            TokenType::FALSE => Value::Bool(false),
            TokenType::NIL => Value::Nil,
            TokenType::STRING => Value::String(copy_bytes(token.literal)),
            _ => {
                let mut message: Vec<u8> = Vec::new();
                push_text(&mut message, "Expected literal [true | false| nil] found ");
                push_bytes(&mut message, token.literal);
                assert(message@ =~= literal_message(token@.literal));
                return Err(self.fail(SyntaxFault::InvalidOperator, message));
            },
        };
        self.push(Instruction::Constant(Constant::new(val)));
        Ok(())
    }

    /// The error for a token that is no unary operator.
    #[verifier::rlimit(50)]
    fn unary_error(&self, kind: TokenType) -> (r: ParserErr)
        requires
            self.wf(),
        ensures
            reported(self@.src, self@.fail(SyntaxFault::InvalidOperator, unary_message(kind)), r),
    {
        let mut message: Vec<u8> = Vec::new();
        push_text(&mut message, "Invalid unary operator: ");
        push_text(&mut message, kind.symbol());
        assert(message@ =~= unary_message(kind));
        self.fail(SyntaxFault::InvalidOperator, message)
    }

    /// The error for a token that is no binary operator.
    #[verifier::rlimit(50)]
    fn binary_error(&self, kind: TokenType) -> (r: ParserErr)
        requires
            self.wf(),
        ensures
            reported(self@.src, self@.fail(SyntaxFault::InvalidOperator, binary_message(kind)), r),
    {
        let mut message: Vec<u8> = Vec::new();
        push_text(&mut message, "Invalid Binary operator: ");
        push_text(&mut message, kind.symbol());
        assert(message@ =~= binary_message(kind));
        self.fail(SyntaxFault::InvalidOperator, message)
    }

    /// The error for a token that cannot stand in an expression.
    #[verifier::rlimit(50)]
    fn expression_error(&self, found: &[u8]) -> (r: ParserErr)
        requires
            self.wf(),
        ensures
            reported(
                self@.src,
                self@.fail(SyntaxFault::ExpectedExpression, expression_message(found@)),
                r,
            ),
    {
        let mut message: Vec<u8> = Vec::new();
        push_text(&mut message, "Expected expression, found ");
        push_bytes(&mut message, found);
        assert(message@ =~= expression_message(found@));
        self.fail(SyntaxFault::ExpectedExpression, message)
    }

    /// The error for a name that no scope declares.
    #[verifier::rlimit(50)]
    fn undefined_error(&self, name: &[u8]) -> (r: ParserErr)
        requires
            self.wf(),
        ensures
            reported(
                self@.src,
                self@.fail(SyntaxFault::UndefinedVariable, undefined_message(name@)),
                r,
            ),
    {
        let mut message: Vec<u8> = Vec::new();
        push_text(&mut message, "Can not access or overwrite undefined variable: `");
        push_bytes(&mut message, name);
        push_text(&mut message, "`");
        assert(message@ =~= undefined_message(name@));
        self.fail(SyntaxFault::UndefinedVariable, message)
    }

    /// What follows the name of a variable.
    #[verifier::rlimit(50)]
    fn accessed(&mut self, name: &[u8], scope: DefinitionScope, is_const: bool, can_assign: bool) -> (r:
        Result<(), ParserErr>)
        requires
            old(self).wf(),
        ensures
            final(self).wf(),
            final(self)@.src == old(self)@.src,
            agrees(old(self)@.accessed(name@, scope, is_const, can_assign), final(self)@, r),
            old(self)@.assignment_refused(is_const, can_assign) ==> r is Err && final(self)@.chunks
                == old(self)@.chunks,
            r is Ok ==> final(self)@.measure() <= old(self)@.measure(),
        decreases old(self)@.measure(), 7int,
    {
        if !self.check(TokenType::EQUAL) {
            self.push(Instruction::Resolve(Resolve::new(copy_bytes(name), scope)));
            return Ok(());
        }
        match self.advance() {
            Err(e) => {
                return Err(e);
            },
            Ok(_) => {},
        }
        if can_assign && !is_const {
            match self.expression() {
                Err(e) => {
                    return Err(e);
                },
                Ok(_) => {},
            }
            self.push(Instruction::Override(Override::new(copy_bytes(name), scope)));
            Ok(())
        } else if !can_assign {
            Err(
                self.fail(
                    SyntaxFault::InvalidAssignmentTarget,
                    text_bytes(
                        "Invalid assignment target. Can only assign to previously defined variables.",
                    ),
                ),
            )
        } else {
            let mut message: Vec<u8> = Vec::new();
            push_text(&mut message, "Invalid assignment target. Can not assign to const ");
            push_bytes(&mut message, name);
            assert(message@ =~= const_message(name@));
            Err(self.fail(SyntaxFault::ConstAssignment, message))
        }
    }

    /// A variable, whose name is the previous token.
    #[verifier::rlimit(50)]
    pub fn var(&mut self, can_assign: bool) -> (r: Result<(), ParserErr>)
        requires
            old(self).wf(),
        ensures
            final(self).wf(),
            final(self)@.src == old(self)@.src,
            agrees(old(self)@.var(can_assign), final(self)@, r),
            old(self)@.var_refused(can_assign) ==> r is Err && final(self)@.chunks == old(
                self,
            )@.chunks,
            r is Ok ==> final(self)@.measure() <= old(self)@.measure(),
        decreases old(self)@.measure(), 8int,
    {
        let token = match self.get_previous() {
            Err(e) => {
                return Err(e);
            },
            Ok(token) => token,
        };
        let is_const = self.compiler.check_const_from_token(token.literal);
        let scope = match self.compiler.resolve(token.literal) {
            Some(scope) => scope,
            None => {
                return Err(self.undefined_error(token.literal));
            },
        };
        self.accessed(token.literal, scope, is_const, can_assign)
    }

    /// The right operand of `and` or `or`, with the jump over it.
    #[verifier::rlimit(50)]
    fn short_circuit(&mut self, prec: Precendence, continue_condition: bool) -> (r: Result<
        (),
        ParserErr,
    >)
        requires
            old(self).wf(),
        ensures
            final(self).wf(),
            final(self)@.src == old(self)@.src,
            agrees(old(self)@.short_circuit(prec, continue_condition), final(self)@, r),
            r is Ok ==> final(self)@.measure() <= old(self)@.measure(),
        decreases old(self)@.measure(), 7int,
    {
        let origin = self.here();
        self.push(Instruction::NoOp(NoOp::new()));
        self.push(Instruction::Pop(Pop::new()));
        let ghost p1 = self@;
        assert(p1 == old(self)@.emitted(InstructionView::NoOp).emitted(InstructionView::Pop));
        match self.parse_expr(prec) {
            Err(e) => {
                return Err(e);
            },
            Ok(_) => {},
        }
        let ghost p2 = self@;
        assert(p1.parse_expr(prec) == Ok::<ParserView, Failure>(p2));
        let dest = self.here();
        self.push(Instruction::Jump(Jump::new(dest, continue_condition)));
        assert(self@ == p2.emitted(InstructionView::Jump(dest, continue_condition)));
        self.swap(origin, dest)
    }

    /// The right operand of `or`.
    #[verifier::rlimit(50)]
    pub fn or(&mut self) -> (r: Result<(), ParserErr>)
        requires
            old(self).wf(),
        ensures
            final(self).wf(),
            final(self)@.src == old(self)@.src,
            agrees(old(self)@.or(), final(self)@, r),
            r is Ok ==> final(self)@.measure() <= old(self)@.measure(),
        decreases old(self)@.measure(), 8int,
    {
        self.short_circuit(Precendence::Or, false)
    }

    /// The right operand of `and`.
    #[verifier::rlimit(50)]
    pub fn and(&mut self) -> (r: Result<(), ParserErr>)
        requires
            old(self).wf(),
        ensures
            final(self).wf(),
            final(self)@.src == old(self)@.src,
            agrees(old(self)@.and(), final(self)@, r),
            r is Ok ==> final(self)@.measure() <= old(self)@.measure(),
        decreases old(self)@.measure(), 8int,
    {
        self.short_circuit(Precendence::And, true)
    }

    /// A unary operator and its operand.
    #[verifier::rlimit(50)]
    pub fn unary(&mut self) -> (r: Result<(), ParserErr>)
        requires
            old(self).wf(),
        ensures
            final(self).wf(),
            final(self)@.src == old(self)@.src,
            agrees(old(self)@.unary(), final(self)@, r),
            r is Ok ==> final(self)@.measure() <= old(self)@.measure(),
        decreases old(self)@.measure(), 8int,
    {
        let token = self.get_previous()?;
        let op = match token.token_type {
            TokenType::MINUS => UnaryOp::Negate,
            TokenType::BANG => UnaryOp::Bang,
            _ => {
                return Err(self.unary_error(token.token_type));
            },
        };
        self.parse_expr(Precendence::Unary)?;
        self.push(Instruction::Unary(Unary::new(op)));
        Ok(())
    }

    /// The instructions of the binary operator `kind`.
    #[verifier::rlimit(50)]
    fn operated(&mut self, kind: TokenType) -> (r: Result<(), ParserErr>)
        requires
            old(self).wf(),
        ensures
            final(self).wf(),
            final(self)@.src == old(self)@.src,
            agrees(old(self)@.operated(kind), final(self)@, r),
            final(self)@.measure() == old(self)@.measure(),
    {
        let (op, negated) = match kind {
            TokenType::PLUS => (BinaryOp::ADD, false),
            TokenType::MINUS => (BinaryOp::SUBTRACT, false),
            TokenType::STAR => (BinaryOp::MULTIPLY, false),
            TokenType::SLASH => (BinaryOp::DIVIDE, false),
            TokenType::EQUAL_EQUAL => (BinaryOp::EQUAL, false),
            TokenType::GREATER => (BinaryOp::GREATER, false),
            TokenType::LESS => (BinaryOp::LESS, false),
            TokenType::BANG_EQUAL => (BinaryOp::EQUAL, true),
            TokenType::GREATER_EQUAL => (BinaryOp::LESS, true),
            TokenType::LESS_EQUAL => (BinaryOp::GREATER, true),
            _ => {
                return Err(self.binary_error(kind));
            },
        };
        self.push(Instruction::Binary(Binary::new(op)));
        if negated {
            self.push(Instruction::Unary(Unary::new(UnaryOp::Bang)));
        }
        Ok(())
    }

    /// A binary operator and its right operand.
    #[verifier::rlimit(50)]
    pub fn binary(&mut self) -> (r: Result<(), ParserErr>)
        requires
            old(self).wf(),
        ensures
            final(self).wf(),
            final(self)@.src == old(self)@.src,
            agrees(old(self)@.binary(), final(self)@, r),
            r is Ok ==> final(self)@.measure() <= old(self)@.measure(),
        decreases old(self)@.measure(), 8int,
    {
        let token = match self.get_previous() {
            Err(e) => {
                return Err(e);
            },
            Ok(token) => token,
        };
        let rule = construct_rule(token.token_type);
        let next = match rule.precedence.next() {
            Ok(next) => next,
            Err(_) => {
                return Err(self.stuck());
            },
        };
        proof {
            crate::compiler::rules::level_round_trip(next);
        }
        match self.parse_expr(next) {
            Err(e) => {
                return Err(e);
            },
            Ok(_) => {},
        }
        self.operated(token.token_type)
    }

    /// A parenthesized expression, after its `(`.
    #[verifier::rlimit(50)]
    pub fn grouping(&mut self) -> (r: Result<(), ParserErr>)
        requires
            old(self).wf(),
        ensures
            final(self).wf(),
            final(self)@.src == old(self)@.src,
            agrees(old(self)@.grouping(), final(self)@, r),
            r is Ok ==> final(self)@.measure() <= old(self)@.measure(),
        decreases old(self)@.measure(), 8int,
    {
        self.expression()?;
        self.consume(TokenType::RIGHT_PAREN)
    }

    /// The handler of a token that starts an expression.
    #[verifier::rlimit(50)]
    fn prefix(&mut self, rule: PrefixRule, can_assign: bool) -> (r: Result<(), ParserErr>)
        requires
            old(self).wf(),
        ensures
            final(self).wf(),
            final(self)@.src == old(self)@.src,
            agrees(old(self)@.prefix(rule, can_assign), final(self)@, r),
            r is Ok ==> final(self)@.measure() <= old(self)@.measure(),
        decreases old(self)@.measure(), 9int,
    {
        match rule {
            PrefixRule::Grouping => self.grouping(),
            PrefixRule::Unary => self.unary(),
            PrefixRule::Variable => self.var(can_assign),
            PrefixRule::Literal => self.literal(),
            PrefixRule::Number => self.number(),
            PrefixRule::This => self.this(),
        }
    }

    /// The handler of a token that continues an expression.
    #[verifier::rlimit(50)]
    fn infix(&mut self, rule: InfixRule, can_assign: bool) -> (r: Result<(), ParserErr>)
        requires
            old(self).wf(),
        ensures
            final(self).wf(),
            final(self)@.src == old(self)@.src,
            agrees(old(self)@.infix(rule, can_assign), final(self)@, r),
            r is Ok ==> final(self)@.measure() <= old(self)@.measure(),
        decreases old(self)@.measure(), 9int,
    {
        match rule {
            InfixRule::Call => self.call(),
            InfixRule::Dot => self.dot(can_assign),
            InfixRule::Binary => self.binary(),
            InfixRule::And => self.and(),
            InfixRule::Or => self.or(),
        }
    }

    /// The infix operators that continue an expression.
    #[verifier::rlimit(50)]
    fn infix_loop(&mut self, prec: Precendence, can_assign: bool) -> (r: Result<(), ParserErr>)
        requires
            old(self).wf(),
        ensures
            final(self).wf(),
            final(self)@.src == old(self)@.src,
            agrees(old(self)@.infix_loop(prec, can_assign), final(self)@, r),
            r is Ok ==> final(self)@.measure() <= old(self)@.measure(),
        decreases old(self)@.measure(), 0int,
    {
        let current_rule = construct_rule(self.current.token_type);
        if prec.rank() > current_rule.precedence.rank() {
            return Ok(());
        }
        let token = self.current;
        self.advance()?;
        let rule = match current_rule.infix {
            Some(rule) => rule,
            None => {
                return Err(self.expression_error(token.literal));
            },
        };
        let before = self.measure();
        self.infix(rule, can_assign)?;
        if self.measure() > before {
            return Err(self.stuck());
        }
        self.infix_loop(prec, can_assign)
    }

    /// An expression that binds at least as strongly as `prec`.
    #[verifier::rlimit(50)]
    fn parse_expr(&mut self, prec: Precendence) -> (r: Result<(), ParserErr>)
        requires
            old(self).wf(),
        ensures
            final(self).wf(),
            final(self)@.src == old(self)@.src,
            agrees(old(self)@.parse_expr(prec), final(self)@, r),
            r is Ok ==> final(self)@.measure() <= old(self)@.measure(),
        decreases old(self)@.measure(), 1int,
    {
        let token = self.current;
        self.advance()?;
        let can_assign = prec.rank() <= Precendence::Assignment.rank();
        let rule = match construct_rule(token.token_type).prefix {
            Some(rule) => rule,
            None => {
                return Err(self.expression_error(token.literal));
            },
        };
        let before = self.measure();
        self.prefix(rule, can_assign)?;
        if self.measure() > before {
            return Err(self.stuck());
        }
        self.infix_loop(prec, can_assign)?;
        if can_assign && self.check(TokenType::EQUAL) {
            return Err(
                self.fail(
                    SyntaxFault::InvalidAssignmentTarget,
                    text_bytes(
                        "Invalid assignment target. Can only assign to previously defined variables.",
                    ),
                ),
            );
        }
        Ok(())
    }

    /// An expression.
    #[verifier::rlimit(50)]
    pub(crate) fn expression(&mut self) -> (r: Result<(), ParserErr>)
        requires
            old(self).wf(),
        ensures
            final(self).wf(),
            final(self)@.src == old(self)@.src,
            agrees(old(self)@.expression(), final(self)@, r),
            r is Ok ==> final(self)@.measure() <= old(self)@.measure(),
        decreases old(self)@.measure(), 2int,
    {
        self.parse_expr(Precendence::Assignment)
    }

    /// The arguments of a call that follow `count` arguments.
    #[verifier::rlimit(50)]
    fn arguments(&mut self, count: usize) -> (r: Result<usize, ParserErr>)
        requires
            old(self).wf(),
        ensures
            final(self).wf(),
            final(self)@.src == old(self)@.src,
            agrees_with(old(self)@.arguments(count), final(self)@, r),
            r is Ok ==> final(self)@.measure() <= old(self)@.measure(),
        decreases old(self)@.measure(), 3int,
    {
        if count == usize::MAX {
            return Err(self.stuck());
        }
        let before = self.measure();
        self.expression()?;
        if self.measure() > before {
            return Err(self.stuck());
        }
        if self.match_(TokenType::COMMA)? {
            self.arguments(count + 1)
        } else {
            Ok(count + 1)
        }
    }

    /// The end of a call with `args_len` arguments.
    #[verifier::rlimit(50)]
    fn close_call(&mut self, args_len: usize) -> (r: Result<(), ParserErr>)
        requires
            old(self).wf(),
        ensures
            final(self).wf(),
            final(self)@.src == old(self)@.src,
            agrees(old(self)@.call_closed(args_len), final(self)@, r),
            r is Ok ==> final(self)@.measure() <= old(self)@.measure(),
    {
        match self.consume(TokenType::RIGHT_PAREN) {
            Err(e) => {
                return Err(e);
            },
            Ok(_) => {},
        }
        let line = self.scanner.line();
        let contents = self.scanner.line_to_string();
        self.push(Instruction::Call(Call::new(args_len, line.number, contents)));
        Ok(())
    }

    /// A call, after its `(`.
    #[verifier::rlimit(50)]
    pub fn call(&mut self) -> (r: Result<(), ParserErr>)
        requires
            old(self).wf(),
        ensures
            final(self).wf(),
            final(self)@.src == old(self)@.src,
            agrees(old(self)@.call(), final(self)@, r),
            r is Ok ==> final(self)@.measure() <= old(self)@.measure(),
        decreases old(self)@.measure(), 8int,
    {
        if self.check(TokenType::RIGHT_PAREN) {
            self.close_call(0)
        } else {
            match self.arguments(0) {
                Err(e) => Err(e),
                Ok(count) => self.close_call(count),
            }
        }
    }

    /// A property, after its `.`.
    #[verifier::rlimit(50)]
    pub fn dot(&mut self, can_assign: bool) -> (r: Result<(), ParserErr>)
        requires
            old(self).wf(),
        ensures
            final(self).wf(),
            final(self)@.src == old(self)@.src,
            agrees(old(self)@.dot(can_assign), final(self)@, r),
            r is Ok ==> final(self)@.measure() <= old(self)@.measure(),
        decreases old(self)@.measure(), 8int,
    {
        let id = self.current;
        match self.consume(TokenType::IDENTIFIER) {
            Err(e) => {
                return Err(e);
            },
            Ok(_) => {},
        }
        let ghost p1 = self@;
        assert(old(self)@.consumed(TokenType::IDENTIFIER) == Ok::<ParserView, Failure>(p1));
        if can_assign && self.check(TokenType::EQUAL) {
            match self.advance() {
                Err(e) => {
                    return Err(e);
                },
                Ok(_) => {},
            }
            let ghost p2 = self@;
            assert(p1.advanced() == Ok::<ParserView, Failure>(p2));
            match self.expression() {
                Err(e) => {
                    return Err(e);
                },
                Ok(_) => {},
            }
            let ghost p3 = self@;
            assert(p2.expression() == Ok::<ParserView, Failure>(p3));
            let line = self.scanner.line();
            let contents = self.scanner.line_to_string();
            self.push(
                Instruction::SetField(SetField::new(copy_bytes(id.literal), line.number, contents)),
            );
            assert(self@ == p3.emitted(
                InstructionView::SetField(id@.literal, p3.line as usize, p3.snippet()),
            ));
        } else {
            let line = self.scanner.line();
            let contents = self.scanner.line_to_string();
            self.push(Instruction::Get(Get::new(copy_bytes(id.literal), line.number, contents)));
            assert(self@ == p1.emitted(
                InstructionView::Get(id@.literal, p1.line as usize, p1.snippet()),
            ));
        }
        Ok(())
    }
}

} // verus!
