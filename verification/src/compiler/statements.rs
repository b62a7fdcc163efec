//! The parser's statements and declarations.
use vstd::prelude::*;
use vstd::string::*;
use crate::compiler::compiler::FunctionType;
use crate::compiler::err::{ParserErr, SyntaxFault};
use crate::compiler::grammar::undefined_message;
use crate::compiler::parser::{agrees, agrees_with, reported, Parser};
use crate::compiler::token::TokenType;
use crate::instructions::chunk::{Chunk, ChunkView};
use crate::instructions::define::DefinitionScope;
use crate::instructions::instructions::{
    Constant,
    Define,
    ForceJump,
    Inherit,
    Instruction,
    InstructionView,
    Jump,
    NoOp,
    Pop,
    Print,
    Resolve,
    Return,
};
use crate::text::{copy_bytes, push_bytes, push_text};
use crate::values::func::Func;
use crate::values::obj::{Class, ClassView};
use crate::values::values::{Value, ValueView};

verus! {

impl<'a> Parser<'a> {
    /// An expression, `;`, and the instruction `last`.
    #[verifier::rlimit(50)]
    fn terminated(&mut self, last: Instruction) -> (r: Result<(), ParserErr>)
        requires
            old(self).wf(),
        ensures
            final(self).wf(),
            final(self)@.src == old(self)@.src,
            agrees(old(self)@.terminated(last@), final(self)@, r),
            r is Ok ==> final(self)@.measure() <= old(self)@.measure(),
    {
        match self.expression() {
            Err(e) => {
                return Err(e);
            },
            Ok(_) => {},
        }
        match self.consume(TokenType::SEMICOLON) {
            Err(e) => {
                return Err(e);
            },
            Ok(_) => {},
        }
        self.push(last);
        Ok(())
    }

    /// A print statement, after `print`.
    #[verifier::rlimit(50)]
    pub fn print(&mut self) -> (r: Result<(), ParserErr>)
        requires
            old(self).wf(),
        ensures
            final(self).wf(),
            final(self)@.src == old(self)@.src,
            agrees(old(self)@.print(), final(self)@, r),
            r is Ok ==> final(self)@.measure() <= old(self)@.measure(),
    {
        self.terminated(Instruction::Print(Print::new()))
    }

    /// An expression statement.
    #[verifier::rlimit(50)]
    pub fn expr_stmt(&mut self) -> (r: Result<(), ParserErr>)
        requires
            old(self).wf(),
        ensures
            final(self).wf(),
            final(self)@.src == old(self)@.src,
            agrees(old(self)@.expr_stmt(), final(self)@, r),
            r is Ok ==> final(self)@.measure() <= old(self)@.measure(),
    {
        self.terminated(Instruction::Pop(Pop::new()))
    }

    /// The initializer of a declaration.
    #[verifier::rlimit(50)]
    fn initializer(&mut self, const_: bool) -> (r: Result<(), ParserErr>)
        requires
            old(self).wf(),
        ensures
            final(self).wf(),
            final(self)@.src == old(self)@.src,
            agrees(old(self)@.initializer(const_), final(self)@, r),
            r is Ok ==> final(self)@.measure() <= old(self)@.measure(),
    {
        if self.check(TokenType::EQUAL) {
            match self.advance() {
                Err(e) => {
                    return Err(e);
                },
                Ok(_) => {},
            }
            self.expression()
        } else if const_ {
            self.consume(TokenType::EQUAL)
        } else {
            self.push(Instruction::Constant(Constant::new(Value::Nil)));
            Ok(())
        }
    }

    /// The end of the declaration of the variable `name`.
    #[verifier::rlimit(50)]
    fn defined(&mut self, scope: DefinitionScope, name: &[u8]) -> (r: Result<(), ParserErr>)
        requires
            old(self).wf(),
        ensures
            final(self).wf(),
            final(self)@.src == old(self)@.src,
            agrees(old(self)@.defined(scope, name@), final(self)@, r),
            r is Ok ==> final(self)@.measure() <= old(self)@.measure(),
    {
        match self.consume(TokenType::SEMICOLON) {
            Err(e) => {
                return Err(e);
            },
            Ok(_) => {},
        }
        self.push(Instruction::Define(Define::new(scope, copy_bytes(name))));
        self.compiler.mark_latest_init();
        Ok(())
    }

    /// A variable or constant declaration, after `var` or `const`.
    #[verifier::rlimit(50)]
    pub fn var_decl(&mut self, const_: bool) -> (r: Result<(), ParserErr>)
        requires
            old(self).wf(),
        ensures
            final(self).wf(),
            final(self)@.src == old(self)@.src,
            agrees(old(self)@.var_decl(const_), final(self)@, r),
            r is Ok ==> final(self)@.measure() < old(self)@.measure(),
    {
        let id = self.current;
        match self.consume(TokenType::IDENTIFIER) {
            Err(e) => {
                return Err(e);
            },
            Ok(_) => {},
        }
        let scope = match self.var_decl_inner(const_, id.literal) {
            Err(e) => {
                return Err(e);
            },
            Ok(scope) => scope,
        };
        match self.initializer(const_) {
            Err(e) => {
                return Err(e);
            },
            Ok(_) => {},
        }
        self.defined(scope, id.literal)
    }

    /// Appends `jump` and exchanges it with the placeholder at `placeholder`.
    #[verifier::rlimit(50)]
    fn patch(&mut self, placeholder: usize, jump: Instruction) -> (r: Result<(), ParserErr>)
        requires
            old(self).wf(),
        ensures
            final(self).wf(),
            final(self)@.src == old(self)@.src,
            agrees(old(self)@.patched(placeholder, jump@), final(self)@, r),
            final(self)@.measure() == old(self)@.measure(),
    {
        let dest = self.here();
        self.push(jump);
        self.swap(placeholder, dest)
    }

    /// A condition between parentheses.
    #[verifier::rlimit(50)]
    fn condition(&mut self) -> (r: Result<(), ParserErr>)
        requires
            old(self).wf(),
        ensures
            final(self).wf(),
            final(self)@.src == old(self)@.src,
            agrees(old(self)@.condition(), final(self)@, r),
            r is Ok ==> final(self)@.measure() < old(self)@.measure(),
    {
        match self.consume(TokenType::LEFT_PAREN) {
            Err(e) => {
                return Err(e);
            },
            Ok(_) => {},
        }
        match self.expression() {
            Err(e) => {
                return Err(e);
            },
            Ok(_) => {},
        }
        self.consume(TokenType::RIGHT_PAREN)
    }

    /// The end of the first branch of an `if`.
    #[verifier::rlimit(50)]
    fn then_closed(&mut self, dest: usize) -> (r: Result<usize, ParserErr>)
        requires
            old(self).wf(),
        ensures
            final(self).wf(),
            final(self)@.src == old(self)@.src,
            agrees_with(old(self)@.then_closed(dest), final(self)@, r),
            final(self)@.measure() == old(self)@.measure(),
    {
        let placeholder = self.here();
        self.push(Instruction::NoOp(NoOp::new()));
        let origin = self.here();
        match self.patch(dest, Instruction::Jump(Jump::new(origin, true))) {
            Err(e) => Err(e),
            Ok(_) => Ok(placeholder),
        }
    }

    /// The end of the second branch of an `if`.
    #[verifier::rlimit(50)]
    fn else_closed(&mut self, placeholder: usize) -> (r: Result<(), ParserErr>)
        requires
            old(self).wf(),
        ensures
            final(self).wf(),
            final(self)@.src == old(self)@.src,
            agrees(old(self)@.else_closed(placeholder), final(self)@, r),
            final(self)@.measure() == old(self)@.measure(),
    {
        let end = self.here();
        match self.patch(placeholder, Instruction::ForceJump(ForceJump::new(end))) {
            Err(e) => {
                return Err(e);
            },
            Ok(_) => {},
        }
        self.push(Instruction::Pop(Pop::new()));
        Ok(())
    }

    /// An `if` statement, after `if`.
    #[verifier::rlimit(50)]
    fn if_stmt(&mut self) -> (r: Result<(), ParserErr>)
        requires
            old(self).wf(),
        ensures
            final(self).wf(),
            final(self)@.src == old(self)@.src,
            agrees(old(self)@.if_stmt(), final(self)@, r),
            r is Ok ==> final(self)@.measure() < old(self)@.measure(),
        decreases old(self)@.measure(), 8int,
    {
        let start = self.measure();
        match self.condition() {
            Err(e) => {
                return Err(e);
            },
            Ok(_) => {},
        }
        let dest = self.here();
        self.push(Instruction::NoOp(NoOp::new()));
        if self.measure() >= start {
            return Err(self.stuck());
        }
        match self.statement() {
            Err(e) => {
                return Err(e);
            },
            Ok(_) => {},
        }
        let placeholder = match self.then_closed(dest) {
            Err(e) => {
                return Err(e);
            },
            Ok(placeholder) => placeholder,
        };
        if self.check(TokenType::ELSE) {
            match self.advance() {
                Err(e) => {
                    return Err(e);
                },
                Ok(_) => {},
            }
            if self.measure() >= start {
                return Err(self.stuck());
            }
            match self.statement() {
                Err(e) => {
                    return Err(e);
                },
                Ok(_) => {},
            }
            self.else_closed(placeholder)
        } else {
            self.push(Instruction::Pop(Pop::new()));
            Ok(())
        }
    }

    /// The end of a loop.
    #[verifier::rlimit(50)]
    fn loop_closed(&mut self, start: usize, placeholder: usize) -> (r: Result<(), ParserErr>)
        requires
            old(self).wf(),
        ensures
            final(self).wf(),
            final(self)@.src == old(self)@.src,
            agrees(old(self)@.loop_closed(start, placeholder), final(self)@, r),
            final(self)@.measure() == old(self)@.measure(),
    {
        self.push(Instruction::ForceJump(ForceJump::new(start)));
        let dest = self.here();
        match self.patch(placeholder, Instruction::Jump(Jump::new(dest, true))) {
            Err(e) => {
                return Err(e);
            },
            Ok(_) => {},
        }
        self.push(Instruction::Pop(Pop::new()));
        Ok(())
    }

    /// A `while` statement, after `while`.
    #[verifier::rlimit(50)]
    fn while_stmt(&mut self) -> (r: Result<(), ParserErr>)
        requires
            old(self).wf(),
        ensures
            final(self).wf(),
            final(self)@.src == old(self)@.src,
            agrees(old(self)@.while_stmt(), final(self)@, r),
            r is Ok ==> final(self)@.measure() < old(self)@.measure(),
        decreases old(self)@.measure(), 8int,
    {
        let start = self.measure();
        let jump_position = self.here();
        match self.condition() {
            Err(e) => {
                return Err(e);
            },
            Ok(_) => {},
        }
        let origin = self.here();
        self.push(Instruction::NoOp(NoOp::new()));
        self.push(Instruction::Pop(Pop::new()));
        if self.measure() >= start {
            return Err(self.stuck());
        }
        match self.statement() {
            Err(e) => {
                return Err(e);
            },
            Ok(_) => {},
        }
        self.loop_closed(jump_position, origin)
    }

    /// The first clause of a `for` statement.
    #[verifier::rlimit(50)]
    fn for_init(&mut self) -> (r: Result<(), ParserErr>)
        requires
            old(self).wf(),
        ensures
            final(self).wf(),
            final(self)@.src == old(self)@.src,
            agrees(old(self)@.for_init(), final(self)@, r),
            r is Ok ==> final(self)@.measure() <= old(self)@.measure(),
    {
        if self.check(TokenType::VAR) {
            match self.advance() {
                Err(e) => {
                    return Err(e);
                },
                Ok(_) => {},
            }
            self.var_decl(false)
        } else {
            self.expr_stmt()
        }
    }

    /// The second clause of a `for` statement.
    #[verifier::rlimit(50)]
    fn for_condition(&mut self) -> (r: Result<(), ParserErr>)
        requires
            old(self).wf(),
        ensures
            final(self).wf(),
            final(self)@.src == old(self)@.src,
            agrees(old(self)@.for_condition(), final(self)@, r),
            r is Ok ==> final(self)@.measure() <= old(self)@.measure(),
    {
        match self.expression() {
            Err(e) => {
                return Err(e);
            },
            Ok(_) => {},
        }
        match self.consume(TokenType::SEMICOLON) {
            Err(e) => {
                return Err(e);
            },
            Ok(_) => {},
        }
        self.push(Instruction::NoOp(NoOp::new()));
        self.push(Instruction::Pop(Pop::new()));
        self.push(Instruction::NoOp(NoOp::new()));
        Ok(())
    }

    /// The third clause of a `for` statement.
    #[verifier::rlimit(50)]
    fn for_increment(&mut self, start: usize, placeholder: usize) -> (r: Result<(), ParserErr>)
        requires
            old(self).wf(),
        ensures
            final(self).wf(),
            final(self)@.src == old(self)@.src,
            agrees(old(self)@.for_increment(start, placeholder), final(self)@, r),
            r is Ok ==> final(self)@.measure() <= old(self)@.measure(),
    {
        match self.expression() {
            Err(e) => {
                return Err(e);
            },
            Ok(_) => {},
        }
        match self.consume(TokenType::RIGHT_PAREN) {
            Err(e) => {
                return Err(e);
            },
            Ok(_) => {},
        }
        self.push(Instruction::Pop(Pop::new()));
        self.push(Instruction::ForceJump(ForceJump::new(start)));
        let body = self.here();
        self.patch(placeholder, Instruction::ForceJump(ForceJump::new(body)))
    }

    /// The clauses of a `for` statement, after `for`.
    #[verifier::rlimit(50)]
    fn for_header(&mut self) -> (r: Result<(usize, usize), ParserErr>)
        requires
            old(self).wf(),
        ensures
            final(self).wf(),
            final(self)@.src == old(self)@.src,
            match old(self)@.for_header() {
                Ok((p, placeholder, increment)) => r is Ok && final(self)@ == p && r->Ok_0 == (
                    placeholder,
                    increment,
                ),
                Err(f) => r is Err && reported(final(self)@.src, f, r->Err_0),
            },
            r is Ok ==> final(self)@.measure() < old(self)@.measure(),
    {
        match self.consume(TokenType::LEFT_PAREN) {
            Err(e) => {
                return Err(e);
            },
            Ok(_) => {},
        }
        match self.for_init() {
            Err(e) => {
                return Err(e);
            },
            Ok(_) => {},
        }
        let jump_position = self.here();
        match self.for_condition() {
            Err(e) => {
                return Err(e);
            },
            Ok(_) => {},
        }
        let increment = self.here();
        if increment < 3 {
            return Err(self.stuck());
        }
        match self.for_increment(jump_position, increment - 1) {
            Err(e) => Err(e),
            Ok(_) => Ok((increment - 3, increment)),
        }
    }

    /// A `for` statement, after `for`.
    #[verifier::rlimit(50)]
    fn for_stmt(&mut self) -> (r: Result<(), ParserErr>)
        requires
            old(self).wf(),
        ensures
            final(self).wf(),
            final(self)@.src == old(self)@.src,
            agrees(old(self)@.for_stmt(), final(self)@, r),
            r is Ok ==> final(self)@.measure() < old(self)@.measure(),
        decreases old(self)@.measure(), 8int,
    {
        let start = self.measure();
        let (placeholder, increment) = match self.for_header() {
            Err(e) => {
                return Err(e);
            },
            Ok(marks) => marks,
        };
        if self.measure() >= start {
            return Err(self.stuck());
        }
        match self.statement() {
            Err(e) => {
                return Err(e);
            },
            Ok(_) => {},
        }
        self.loop_closed(increment, placeholder)
    }

    /// A `return` statement, after `return`.
    #[verifier::rlimit(50)]
    fn return_(&mut self) -> (r: Result<(), ParserErr>)
        requires
            old(self).wf(),
        ensures
            final(self).wf(),
            final(self)@.src == old(self)@.src,
            agrees(old(self)@.return_(), final(self)@, r),
            r is Ok ==> final(self)@.measure() <= old(self)@.measure(),
    {
        if !self.check(TokenType::SEMICOLON) {
            match self.expression() {
                Err(e) => {
                    return Err(e);
                },
                Ok(_) => {},
            }
        }
        match self.consume(TokenType::SEMICOLON) {
            Err(e) => {
                return Err(e);
            },
            Ok(_) => {},
        }
        self.push(Instruction::Return(Return::new()));
        Ok(())
    }

    /// The declarations of a block and its `}`.
    #[verifier::rlimit(50)]
    fn block(&mut self) -> (r: Result<(), ParserErr>)
        requires
            old(self).wf(),
        ensures
            final(self).wf(),
            final(self)@.src == old(self)@.src,
            agrees(old(self)@.block(), final(self)@, r),
            r is Ok ==> final(self)@.measure() <= old(self)@.measure(),
        decreases old(self)@.measure(), 7int,
    {
        if self.check(TokenType::RIGHT_BRACE) || self.check(TokenType::EOF) {
            return self.consume(TokenType::RIGHT_BRACE);
        }
        let start = self.measure();
        match self.declaration() {
            Err(e) => {
                return Err(e);
            },
            Ok(_) => {},
        }
        if self.measure() >= start {
            return Err(self.stuck());
        }
        self.block()
    }

    /// A block in a scope of its own, after its `{`.
    #[verifier::rlimit(50)]
    fn scoped_block(&mut self) -> (r: Result<(), ParserErr>)
        requires
            old(self).wf(),
        ensures
            final(self).wf(),
            final(self)@.src == old(self)@.src,
            agrees(old(self)@.scoped_block(), final(self)@, r),
            r is Ok ==> final(self)@.measure() <= old(self)@.measure(),
        decreases old(self)@.measure(), 8int,
    {
        match self.start_scope() {
            Err(e) => {
                return Err(e);
            },
            Ok(_) => {},
        }
        match self.block() {
            Err(e) => {
                return Err(e);
            },
            Ok(_) => {},
        }
        self.end_scope()
    }

    /// A statement.
    #[verifier::rlimit(50)]
    fn statement(&mut self) -> (r: Result<(), ParserErr>)
        requires
            old(self).wf(),
        ensures
            final(self).wf(),
            final(self)@.src == old(self)@.src,
            agrees(old(self)@.statement(), final(self)@, r),
            r is Ok ==> final(self)@.measure() <= old(self)@.measure(),
        decreases old(self)@.measure(), 5int,
    {
        if self.check(TokenType::PRINT) {
            match self.advance() {
                Err(e) => Err(e),
                Ok(_) => self.print(),
            }
        } else if self.check(TokenType::LEFT_BRACE) {
            match self.advance() {
                Err(e) => Err(e),
                Ok(_) => self.scoped_block(),
            }
        } else if self.check(TokenType::IF) {
            match self.advance() {
                Err(e) => Err(e),
                Ok(_) => self.if_stmt(),
            }
        } else if self.check(TokenType::WHILE) {
            match self.advance() {
                Err(e) => Err(e),
                Ok(_) => self.while_stmt(),
            }
        } else if self.check(TokenType::FOR) {
            match self.advance() {
                Err(e) => Err(e),
                Ok(_) => self.for_stmt(),
            }
        } else if self.check(TokenType::RETURN) {
            match self.advance() {
                Err(e) => Err(e),
                Ok(_) => self.return_(),
            }
        } else {
            self.expr_stmt()
        }
    }

    /// A declaration.
    #[verifier::rlimit(50)]
    fn declaration(&mut self) -> (r: Result<(), ParserErr>)
        requires
            old(self).wf(),
        ensures
            final(self).wf(),
            final(self)@.src == old(self)@.src,
            agrees(old(self)@.declaration(), final(self)@, r),
            r is Ok ==> final(self)@.measure() <= old(self)@.measure(),
        decreases old(self)@.measure(), 6int,
    {
        if self.check(TokenType::VAR) {
            match self.advance() {
                Err(e) => Err(e),
                Ok(_) => self.var_decl(false),
            }
        } else if self.check(TokenType::CONST) {
            match self.advance() {
                Err(e) => Err(e),
                Ok(_) => self.var_decl(true),
            }
        } else if self.check(TokenType::FUN) {
            match self.advance() {
                Err(e) => Err(e),
                Ok(_) => self.func_decl(),
            }
        } else if self.check(TokenType::CLASS) {
            match self.advance() {
                Err(e) => Err(e),
                Ok(_) => self.class_decl(),
            }
        } else {
            self.statement()
        }
    }

    /// Begins the compilation of a function.
    #[verifier::rlimit(50)]
    fn begin_function(&mut self, type_: FunctionType)
        requires
            old(self).wf(),
        ensures
            final(self).wf(),
            final(self)@ == old(self)@.function_begun(type_@),
            final(self)@.src == old(self)@.src,
            final(self)@.measure() == old(self)@.measure(),
    {
        let mut chunk = Chunk::new();
        let _ = chunk.write_to_chunk(Instruction::NoOp(NoOp::new()), self.scanner.line);
        self.chunks.push(chunk);
        self.compiler.begin_function(type_, None);
        assert(self@.chunks =~= old(self)@.chunks.push(
            ChunkView { code: seq![InstructionView::NoOp], lines: seq![self.scanner.line] },
        ));
    }

    /// Ends the compilation of the innermost function.
    #[verifier::rlimit(50)]
    fn end_function(&mut self) -> (r: Result<usize, ParserErr>)
        requires
            old(self).wf(),
        ensures
            final(self).wf(),
            final(self)@.src == old(self)@.src,
            agrees_with(old(self)@.function_ended(), final(self)@, r),
            final(self)@.measure() == old(self)@.measure(),
    {
        if self.chunks.len() <= 1 {
            return Err(self.stuck());
        }
        let count = self.compiler.upvalues.len();
        let level = match self.compiler.end_function() {
            Some(level) => level,
            None => {
                return Err(self.stuck());
            },
        };
        let ghost made = old(self)@.function_made();
        let top = self.chunks.len() - 1;
        assert(old(self)@.chunks[top as int] == self.chunks[top as int]@);
        let chunk = match self.chunks.pop() {
            Some(chunk) => chunk,
            None => {
                return Err(self.stuck());
            },
        };
        assert(self@.chunks =~= old(self)@.chunks.drop_last());
        let mut func = Func::new(
            level.type_.context(),
            chunk,
            level.upvalue_start,
            if count >= level.upvalue_start {
                count - level.upvalue_start
            } else {
                0
            },
        );
        func.set_arity(level.arity);
        assert(func@ == made);
        let id = self.functions.len();
        self.functions.push(func);
        assert(self@.functions =~= old(self)@.functions.push(made));
        Ok(id)
    }

    /// A parameter.
    #[verifier::rlimit(50)]
    fn parameter(&mut self) -> (r: Result<(), ParserErr>)
        requires
            old(self).wf(),
        ensures
            final(self).wf(),
            final(self)@.src == old(self)@.src,
            agrees(old(self)@.parameter(), final(self)@, r),
            r is Ok ==> final(self)@.measure() < old(self)@.measure(),
    {
        let id = self.current;
        match self.consume(TokenType::IDENTIFIER) {
            Err(e) => {
                return Err(e);
            },
            Ok(_) => {},
        }
        let scope = match self.var_decl_inner(false, id.literal) {
            Err(e) => {
                return Err(e);
            },
            Ok(scope) => scope,
        };
        self.push(Instruction::Define(Define::new(scope, copy_bytes(id.literal))));
        self.compiler.mark_latest_init();
        self.compiler.count_parameter();
        Ok(())
    }

    /// The parameters of a function.
    #[verifier::rlimit(50)]
    fn parameters(&mut self) -> (r: Result<(), ParserErr>)
        requires
            old(self).wf(),
        ensures
            final(self).wf(),
            final(self)@.src == old(self)@.src,
            agrees(old(self)@.parameters(), final(self)@, r),
            r is Ok ==> final(self)@.measure() < old(self)@.measure(),
        decreases old(self)@.measure(),
    {
        let start = self.measure();
        match self.parameter() {
            Err(e) => {
                return Err(e);
            },
            Ok(_) => {},
        }
        if self.check(TokenType::COMMA) {
            match self.advance() {
                Err(e) => {
                    return Err(e);
                },
                Ok(_) => {},
            }
            if self.measure() >= start {
                return Err(self.stuck());
            }
            self.parameters()
        } else {
            Ok(())
        }
    }

    /// The head of a function.
    #[verifier::rlimit(50)]
    fn function_head(&mut self) -> (r: Result<(), ParserErr>)
        requires
            old(self).wf(),
        ensures
            final(self).wf(),
            final(self)@.src == old(self)@.src,
            agrees(old(self)@.function_head(), final(self)@, r),
            r is Ok ==> final(self)@.measure() < old(self)@.measure(),
    {
        match self.start_scope() {
            Err(e) => {
                return Err(e);
            },
            Ok(_) => {},
        }
        match self.consume(TokenType::LEFT_PAREN) {
            Err(e) => {
                return Err(e);
            },
            Ok(_) => {},
        }
        if !self.check(TokenType::RIGHT_PAREN) {
            match self.parameters() {
                Err(e) => {
                    return Err(e);
                },
                Ok(_) => {},
            }
        }
        match self.consume(TokenType::RIGHT_PAREN) {
            Err(e) => {
                return Err(e);
            },
            Ok(_) => {},
        }
        self.consume(TokenType::LEFT_BRACE)
    }

    /// The parameters and the body of a function.
    #[verifier::rlimit(50)]
    fn function(&mut self) -> (r: Result<(), ParserErr>)
        requires
            old(self).wf(),
        ensures
            final(self).wf(),
            final(self)@.src == old(self)@.src,
            agrees(old(self)@.function(), final(self)@, r),
            r is Ok ==> final(self)@.measure() < old(self)@.measure(),
        decreases old(self)@.measure(), 8int,
    {
        let start = self.measure();
        match self.function_head() {
            Err(e) => {
                return Err(e);
            },
            Ok(_) => {},
        }
        if self.measure() >= start {
            return Err(self.stuck());
        }
        match self.block() {
            Err(e) => {
                return Err(e);
            },
            Ok(_) => {},
        }
        self.close_function()
    }

    /// The end of a function.
    #[verifier::rlimit(50)]
    fn close_function(&mut self) -> (r: Result<(), ParserErr>)
        requires
            old(self).wf(),
        ensures
            final(self).wf(),
            final(self)@.src == old(self)@.src,
            agrees(old(self)@.function_closed(), final(self)@, r),
            final(self)@.measure() == old(self)@.measure(),
    {
        match self.end_scope() {
            Err(e) => {
                return Err(e);
            },
            Ok(_) => {},
        }
        self.push(Instruction::Return(Return::new()));
        Ok(())
    }

    /// A function or method, from its parameters on. Returns its index.
    #[verifier::rlimit(50)]
    fn compile_function(&mut self, type_: FunctionType) -> (r: Result<usize, ParserErr>)
        requires
            old(self).wf(),
        ensures
            final(self).wf(),
            final(self)@.src == old(self)@.src,
            agrees_with(old(self)@.compiled(type_@), final(self)@, r),
            r is Ok ==> final(self)@.measure() < old(self)@.measure(),
        decreases old(self)@.measure(), 9int,
    {
        self.begin_function(type_);
        match self.function() {
            Err(e) => {
                return Err(e);
            },
            Ok(_) => {},
        }
        self.end_function()
    }

    /// Declares `name` as a constant that is initialized already.
    #[verifier::rlimit(50)]
    fn declare_constant(&mut self, name: &[u8]) -> (r: DefinitionScope)
        requires
            old(self).wf(),
        ensures
            final(self).wf(),
            final(self)@ == old(self)@.constant_declared(name@),
            final(self)@.src == old(self)@.src,
            final(self)@.measure() == old(self)@.measure(),
            r == old(self)@.compiler.new_scope(),
    {
        let scope = self.compiler.add_local(copy_bytes(name), true);
        self.compiler.mark_latest_init();
        scope
    }

    /// Makes the function at `id` the value of the variable `name`.
    #[verifier::rlimit(50)]
    fn define_function(&mut self, scope: DefinitionScope, name: &[u8], id: usize)
        requires
            old(self).wf(),
        ensures
            final(self).wf(),
            final(self)@ == old(self)@.function_defined(scope, name@, id),
            final(self)@.src == old(self)@.src,
            final(self)@.measure() == old(self)@.measure(),
    {
        self.push(Instruction::Constant(Constant::new(Value::Func(id))));
        self.push(Instruction::Define(Define::new(scope, copy_bytes(name))));
    }

    /// A function declaration, after `fun`.
    #[verifier::rlimit(50)]
    fn func_decl(&mut self) -> (r: Result<(), ParserErr>)
        requires
            old(self).wf(),
        ensures
            final(self).wf(),
            final(self)@.src == old(self)@.src,
            agrees(old(self)@.func_decl(), final(self)@, r),
            r is Ok ==> final(self)@.measure() < old(self)@.measure(),
        decreases old(self)@.measure(), 10int,
    {
        let start = self.measure();
        let id = self.current;
        match self.consume(TokenType::IDENTIFIER) {
            Err(e) => {
                return Err(e);
            },
            Ok(_) => {},
        }
        let scope = self.declare_constant(id.literal);
        if self.measure() > start {
            return Err(self.stuck());
        }
        let line = self.scanner.line as u32;
        let func = match self.compile_function(
            FunctionType::Function(copy_bytes(id.literal), line),
        ) {
            Err(e) => {
                return Err(e);
            },
            Ok(func) => func,
        };
        self.define_function(scope, id.literal, func);
        Ok(())
    }

    /// Makes the function at `id` the method `name` of the class at `class`.
    #[verifier::rlimit(50)]
    fn set_method(&mut self, class: usize, name: &[u8], id: usize) -> (r: Result<(), ParserErr>)
        requires
            old(self).wf(),
        ensures
            final(self).wf(),
            final(self)@.src == old(self)@.src,
            agrees(old(self)@.method_set(class, name@, id), final(self)@, r),
            final(self)@.measure() == old(self)@.measure(),
    {
        if class >= self.heap.classes.len() {
            return Err(self.stuck());
        }
        assert(self.heap.classes[class as int].wf());
        let ghost before = self.heap.classes[class as int]@;
        assert(before == old(self)@.heap.classes[class as int]);
        self.heap.classes[class].set_method(copy_bytes(name), id);
        assert(self@.heap.classes =~= old(self)@.heap.classes.update(
            class as int,
            ClassView {
                name: before.name,
                methods: before.methods.insert(name@, ValueView::Func(id)),
            },
        ));
        assert(self@.heap.instances =~= old(self)@.heap.instances);
        assert(self@.heap.natives =~= old(self)@.heap.natives);
        Ok(())
    }

    /// The methods of the class at `class` and the `}` of its body.
    #[verifier::rlimit(50)]
    fn methods(&mut self, class: usize) -> (r: Result<(), ParserErr>)
        requires
            old(self).wf(),
        ensures
            final(self).wf(),
            final(self)@.src == old(self)@.src,
            agrees(old(self)@.methods(class), final(self)@, r),
            r is Ok ==> final(self)@.measure() <= old(self)@.measure(),
        decreases old(self)@.measure(), 11int,
    {
        if self.check(TokenType::RIGHT_BRACE) || self.check(TokenType::EOF) {
            return self.consume(TokenType::RIGHT_BRACE);
        }
        let start = self.measure();
        let id = self.current;
        match self.consume(TokenType::IDENTIFIER) {
            Err(e) => {
                return Err(e);
            },
            Ok(_) => {},
        }
        if self.measure() >= start {
            return Err(self.stuck());
        }
        let line = self.scanner.line as u32;
        let func = match self.compile_function(FunctionType::Method(copy_bytes(id.literal), line)) {
            Err(e) => {
                return Err(e);
            },
            Ok(func) => func,
        };
        match self.set_method(class, id.literal, func) {
            Err(e) => {
                return Err(e);
            },
            Ok(_) => {},
        }
        if self.measure() >= start {
            return Err(self.stuck());
        }
        self.methods(class)
    }

    /// Declares the class `name`. Returns where it lives and its index.
    #[verifier::rlimit(50)]
    fn make_class(&mut self, name: &[u8]) -> (r: (DefinitionScope, usize))
        requires
            old(self).wf(),
        ensures
            final(self).wf(),
            final(self)@ == old(self)@.class_made(name@),
            final(self)@.src == old(self)@.src,
            final(self)@.measure() == old(self)@.measure(),
            r.0 == old(self)@.compiler.new_scope(),
            r.1 == old(self)@.heap.classes.len(),
    {
        let scope = self.compiler.add_local(copy_bytes(name), true);
        self.compiler.mark_latest_init();
        let class = self.heap.add_class(Class::new(copy_bytes(name)));
        self.push(Instruction::Constant(Constant::new(Value::Class(class))));
        self.push(Instruction::Define(Define::new(scope, copy_bytes(name))));
        (scope, class)
    }

    /// The parent of the class `name`, after `<`.
    #[verifier::rlimit(50)]
    fn parent(&mut self, scope: DefinitionScope, name: &[u8]) -> (r: Result<(), ParserErr>)
        requires
            old(self).wf(),
        ensures
            final(self).wf(),
            final(self)@.src == old(self)@.src,
            agrees(old(self)@.parent(scope, name@), final(self)@, r),
            r is Ok ==> final(self)@.measure() <= old(self)@.measure(),
    {
        let id = self.current;
        match self.consume(TokenType::IDENTIFIER) {
            Err(e) => {
                return Err(e);
            },
            Ok(_) => {},
        }
        let parent_scope = match self.compiler.resolve(id.literal) {
            Some(scope) => scope,
            None => {
                let mut message: Vec<u8> = Vec::new();
                push_text(&mut message, "Can not access or overwrite undefined variable: `");
                push_bytes(&mut message, id.literal);
                push_text(&mut message, "`");
                assert(message@ =~= undefined_message(id@.literal));
                return Err(self.scanner.fault_here(SyntaxFault::UndefinedVariable, message));
            },
        };
        self.push(Instruction::Resolve(Resolve::new(copy_bytes(id.literal), parent_scope)));
        let line = self.scanner.line();
        let contents = self.scanner.line_to_string();
        self.push(
            Instruction::Inherit(Inherit::new(scope, copy_bytes(name), line.number, contents)),
        );
        Ok(())
    }

    /// The head of a class declaration, after `class`. Returns the index
    /// of the class.
    #[verifier::rlimit(50)]
    fn class_head(&mut self) -> (r: Result<usize, ParserErr>)
        requires
            old(self).wf(),
        ensures
            final(self).wf(),
            final(self)@.src == old(self)@.src,
            agrees_with(old(self)@.class_head(), final(self)@, r),
            r is Ok ==> final(self)@.measure() < old(self)@.measure(),
    {
        let id = self.current;
        match self.consume(TokenType::IDENTIFIER) {
            Err(e) => {
                return Err(e);
            },
            Ok(_) => {},
        }
        let (scope, class) = self.make_class(id.literal);
        if self.check(TokenType::LESS) {
            match self.advance() {
                Err(e) => {
                    return Err(e);
                },
                Ok(_) => {},
            }
            match self.parent(scope, id.literal) {
                Err(e) => {
                    return Err(e);
                },
                Ok(_) => {},
            }
        }
        match self.consume(TokenType::LEFT_BRACE) {
            Err(e) => Err(e),
            Ok(_) => Ok(class),
        }
    }

    /// A class declaration, after `class`.
    #[verifier::rlimit(50)]
    fn class_decl(&mut self) -> (r: Result<(), ParserErr>)
        requires
            old(self).wf(),
        ensures
            final(self).wf(),
            final(self)@.src == old(self)@.src,
            agrees(old(self)@.class_decl(), final(self)@, r),
            r is Ok ==> final(self)@.measure() < old(self)@.measure(),
        decreases old(self)@.measure(), 12int,
    {
        let start = self.measure();
        let class = match self.class_head() {
            Err(e) => {
                return Err(e);
            },
            Ok(class) => class,
        };
        if self.measure() >= start {
            return Err(self.stuck());
        }
        self.methods(class)
    }

    /// Parses the program: declarations up to the end of the source.
    #[verifier::rlimit(50)]
    pub fn parse(&mut self) -> (r: Result<(), ParserErr>)
        requires
            old(self).wf(),
        ensures
            final(self).wf(),
            final(self)@.src == old(self)@.src,
            agrees(old(self)@.program(), final(self)@, r),
        decreases old(self)@.measure(),
    {
        if self.check(TokenType::EOF) {
            return Ok(());
        }
        let start = self.measure();
        match self.declaration() {
            Err(e) => {
                return Err(e);
            },
            Ok(_) => {},
        }
        if self.measure() >= start {
            return Err(self.stuck());
        }
        self.parse()
    }
}

} // verus!
