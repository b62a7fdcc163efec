//! The lexical state of the functions being compiled: their locals and
//! scopes, and the variables that inner functions capture.
use vstd::prelude::*;
use vstd::string::*;
use crate::compiler::err::ParserErr;
use crate::compiler::grammar::{Failure, ParserView};
use crate::compiler::parser::{opened, reported, Parser};
use crate::instructions::chunk::Chunk;
use crate::instructions::instructions::{Instruction, InstructionView, PopN};
use crate::instructions::define::DefinitionScope;
use crate::text::{bytes_eq, copy_bytes};
use crate::values::func::{Func, FuncView};
use crate::values::obj::{Heap, HeapView};
use crate::values::values::{Value, ValueView};
use crate::vm::table::Table;

verus! {

/// A captured variable as contracts see it.
pub struct UpValueView {
    pub index: usize,
    pub value: ValueView,
}

/// A captured variable: the slot of the local it was captured from, counted
/// from the start of the enclosing function's window, and the value that
/// the closures see.
#[derive(Debug)]
pub struct UpValue {
    pub index: usize,
    pub value: Value,
}

impl View for UpValue {
    type V = UpValueView;

    open spec fn view(&self) -> UpValueView {
        UpValueView { index: self.index, value: self.value@ }
    }
}

impl DeepView for UpValue {
    type V = UpValueView;

    open spec fn deep_view(&self) -> UpValueView {
        self@
    }
}

/// What is being compiled, as contracts see it.
pub enum FunctionTypeView {
    Script,
    Function(Seq<u8>, u32),
    Method(Seq<u8>, u32),
}

/// What is being compiled: the script, or a function or method with its
/// name and the line it starts on.
#[derive(Debug)]
pub enum FunctionType {
    Script,
    Function(Vec<u8>, u32),
    Method(Vec<u8>, u32),
}

impl View for FunctionType {
    type V = FunctionTypeView;

    open spec fn view(&self) -> FunctionTypeView {
        match *self {
            FunctionType::Script => FunctionTypeView::Script,
            FunctionType::Function(name, line) => FunctionTypeView::Function(name@, line),
            FunctionType::Method(name, line) => FunctionTypeView::Method(name@, line),
        }
    }
}

impl FunctionTypeView {
    /// The name that the compiled function gets: `__main__` for the script.
    pub open spec fn context(self) -> Seq<u8> {
        match self {
            FunctionTypeView::Script => "__main__".spec_bytes(),
            FunctionTypeView::Function(name, _) => name,
            FunctionTypeView::Method(name, _) => name,
        }
    }
}

impl FunctionType {
    /// The name that the compiled function gets.
    pub fn context(&self) -> (r: Vec<u8>)
        ensures
            r@ == self@.context(),
    {
        match self {
            FunctionType::Script => crate::text::text_bytes("__main__"),
            FunctionType::Function(name, _) => copy_bytes(name.as_slice()),
            FunctionType::Method(name, _) => copy_bytes(name.as_slice()),
        }
    }
}

/// A local as contracts see it.
pub struct LocalView {
    pub name: Seq<u8>,
    pub depth: usize,
    pub uninit: bool,
    pub const_: bool,
}

/// A declared variable: its name, the depth of the scope that declares it,
/// whether its initializer is still being compiled, and whether it is a
/// constant.
#[derive(Debug)]
pub struct Local {
    pub name: Vec<u8>,
    pub depth: usize,
    pub uninit: bool,
    pub const_: bool,
}

impl View for Local {
    type V = LocalView;

    open spec fn view(&self) -> LocalView {
        LocalView { name: self.name@, depth: self.depth, uninit: self.uninit, const_: self.const_ }
    }
}

impl DeepView for Local {
    type V = LocalView;

    open spec fn deep_view(&self) -> LocalView {
        self@
    }
}

/// The state of one function as contracts see it.
pub struct LevelView {
    pub locals: Seq<LocalView>,
    pub scope_depth: usize,
    pub type_: FunctionTypeView,
    pub inheriting: Option<Seq<u8>>,
    pub upvalue_start: usize,
    pub arity: usize,
}

/// The state of one function being compiled: its locals in the order of
/// their declaration, the depth of the innermost open scope, what it is,
/// the class it inherits from where it is a method of a subclass, the
/// number of captured variables that existed when its compilation began,
/// and the number of parameters read so far.
#[derive(Debug)]
pub struct Level {
    pub locals: Vec<Local>,
    pub scope_depth: usize,
    pub type_: FunctionType,
    pub inheriting: Option<Vec<u8>>,
    pub upvalue_start: usize,
    pub arity: usize,
}

impl View for Level {
    type V = LevelView;

    open spec fn view(&self) -> LevelView {
        LevelView {
            locals: self.locals.deep_view(),
            scope_depth: self.scope_depth,
            type_: self.type_@,
            inheriting: match self.inheriting {
                Some(name) => Some(name@),
                None => None,
            },
            upvalue_start: self.upvalue_start,
            arity: self.arity,
        }
    }
}

impl DeepView for Level {
    type V = LevelView;

    open spec fn deep_view(&self) -> LevelView {
        self@
    }
}

/// The compiler's state as contracts see it.
pub struct CompilerView {
    pub levels: Seq<LevelView>,
    pub upvalues: Seq<UpValueView>,
    pub owners: Seq<usize>,
    pub globals: Map<Seq<u8>, ValueView>,
}

/// The lexical state of a compilation: one level for each function being
/// compiled, the innermost last; the captured variables, shared by all
/// functions; for each captured variable the level whose local it is; and
/// the names of the globals.
#[derive(Debug)]
pub struct Compiler {
    pub levels: Vec<Level>,
    pub upvalues: Vec<UpValue>,
    pub owners: Vec<usize>,
    pub globals: Table,
}

impl View for Compiler {
    type V = CompilerView;

    open spec fn view(&self) -> CompilerView {
        CompilerView {
            levels: self.levels.deep_view(),
            upvalues: self.upvalues.deep_view(),
            owners: self.owners@,
            globals: self.globals@,
        }
    }
}

/// The newest initialized local of `locals` with the name `name`.
pub open spec fn find_local(locals: Seq<LocalView>, name: Seq<u8>) -> Option<int>
    decreases locals.len(),
{
    if locals.len() == 0 {
        None
    } else if locals.last().name == name && !locals.last().uninit {
        Some(locals.len() - 1)
    } else {
        find_local(locals.drop_last(), name)
    }
}

/// The newest local of `locals` with the name `name` among those declared
/// at `depth` or deeper at the end of `locals`.
pub open spec fn find_in_scope(locals: Seq<LocalView>, name: Seq<u8>, depth: usize) -> Option<int>
    decreases locals.len(),
{
    if locals.len() == 0 || locals.last().depth < depth {
        None
    } else if locals.last().name == name {
        Some(locals.len() - 1)
    } else {
        find_in_scope(locals.drop_last(), name, depth)
    }
}

/// `locals` without the locals of depth `depth` at its end.
pub open spec fn trimmed(locals: Seq<LocalView>, depth: usize) -> Seq<LocalView>
    decreases locals.len(),
{
    if locals.len() > 0 && locals.last().depth == depth {
        trimmed(locals.drop_last(), depth)
    } else {
        locals
    }
}

/// The newest local of `locals` that was declared at depth 0 with the name
/// `name`, initialized or not.
pub open spec fn find_global(locals: Seq<LocalView>, name: Seq<u8>) -> Option<int>
    decreases locals.len(),
{
    if locals.len() == 0 {
        None
    } else if locals.last().name == name && locals.last().depth == 0 {
        Some(locals.len() - 1)
    } else {
        find_global(locals.drop_last(), name)
    }
}

/// The first slot that captures the local `index` of the level `owner`.
pub open spec fn find_capture(
    upvalues: Seq<UpValueView>,
    owners: Seq<usize>,
    owner: usize,
    index: usize,
    from: int,
) -> Option<int>
    decreases upvalues.len() - from,
{
    if from < 0 || from >= upvalues.len() || from >= owners.len() {
        None
    } else if owners[from] == owner && upvalues[from].index == index {
        Some(from)
    } else {
        find_capture(upvalues, owners, owner, index, from + 1)
    }
}

/// What resolving a name gives: the state after it, and where the name lives.
pub struct Resolved {
    pub compiler: CompilerView,
    pub scope: Option<DefinitionScope>,
}

impl CompilerView {
    /// The level of the function being compiled.
    pub open spec fn top(self) -> LevelView {
        self.levels.last()
    }

    /// The state with `level` in place of the innermost level.
    pub open spec fn with_top(self, level: LevelView) -> CompilerView {
        CompilerView { levels: self.levels.update(self.levels.len() - 1, level), ..self }
    }

    /// The state after a scope has been opened.
    pub open spec fn scope_started(self) -> CompilerView {
        self.with_top(LevelView { scope_depth: (self.top().scope_depth + 1) as usize, ..self.top() })
    }

    /// The state after the innermost scope has been closed: its locals are gone.
    pub open spec fn scope_ended(self) -> CompilerView {
        self.with_top(
            LevelView {
                scope_depth: (self.top().scope_depth - 1) as usize,
                locals: trimmed(self.top().locals, self.top().scope_depth),
                ..self.top()
            },
        )
    }

    /// The number of locals that closing the innermost scope removes.
    pub open spec fn scope_size(self) -> int {
        self.top().locals.len() - trimmed(self.top().locals, self.top().scope_depth).len()
    }

    /// The state after `name` has been declared in the innermost scope: a
    /// new local that is not initialized yet, and at depth 0 also a global
    /// of that name with the value `nil`.
    pub open spec fn local_added(self, name: Seq<u8>, const_: bool) -> CompilerView {
        let level = self.top();
        let added = self.with_top(
            LevelView {
                locals: level.locals.push(
                    LocalView { name, depth: level.scope_depth, uninit: true, const_ },
                ),
                ..level
            },
        );
        if level.scope_depth == 0 {
            CompilerView { globals: self.globals.insert(name, ValueView::Nil), ..added }
        } else {
            added
        }
    }

    /// Where a variable declared now in the innermost scope lives.
    pub open spec fn new_scope(self) -> DefinitionScope {
        if self.top().scope_depth == 0 {
            DefinitionScope::Global
        } else {
            DefinitionScope::Local(self.top().locals.len() as usize)
        }
    }

    /// The state after the newest local has been marked as initialized.
    pub open spec fn latest_marked(self) -> CompilerView {
        if self.top().locals.len() == 0 {
            self
        } else {
            self.with_top(
                LevelView {
                    locals: self.top().locals.update(
                        self.top().locals.len() - 1,
                        LocalView { uninit: false, ..self.top().locals.last() },
                    ),
                    ..self.top()
                },
            )
        }
    }

    /// The slot that captures the local `index` of the level `owner`, and
    /// the state after it: the first slot that captures that local
    /// already, or else a new slot at the end.
    pub open spec fn captured(self, owner: usize, index: usize) -> (CompilerView, usize) {
        match find_capture(self.upvalues, self.owners, owner, index, 0) {
            Some(slot) => (self, slot as usize),
            None => (
                CompilerView {
                    upvalues: self.upvalues.push(UpValueView { index, value: ValueView::Nil }),
                    owners: self.owners.push(owner),
                    ..self
                },
                self.upvalues.len() as usize,
            ),
        }
    }

    /// Resolves `name` as seen from the level `level`. The newest
    /// initialized local of that name decides: it is a global where it was
    /// declared at depth 0, and a local with its position otherwise. With
    /// no such local, a name of the globals table is a global. Otherwise
    /// the enclosing level is asked; where the name is a local there, it is
    /// captured and lives in the slot that captures it, and a global or a
    /// captured variable there is the same here. A name that no level
    /// knows resolves to nothing.
    pub open spec fn resolved_at(self, level: int, name: Seq<u8>) -> Resolved
        decreases level,
    {
        if level < 0 || level >= self.levels.len() {
            Resolved { compiler: self, scope: None }
        } else {
            let locals = self.levels[level].locals;
            match find_local(locals, name) {
                Some(i) => Resolved {
                    compiler: self,
                    scope: Some(
                        if locals[i].depth == 0 {
                            DefinitionScope::Global
                        } else {
                            DefinitionScope::Local(i as usize)
                        },
                    ),
                },
                None => if self.globals.contains_key(name) {
                    Resolved { compiler: self, scope: Some(DefinitionScope::Global) }
                } else if level == 0 {
                    Resolved { compiler: self, scope: None }
                } else {
                    let outer = self.resolved_at(level - 1, name);
                    match outer.scope {
                        Some(DefinitionScope::Local(i)) => {
                            let (compiler, slot) = outer.compiler.captured((level - 1) as usize, i);
                            Resolved { compiler, scope: Some(DefinitionScope::UpValue(slot)) }
                        },
                        _ => outer,
                    }
                },
            }
        }
    }

    /// Resolves `name` in the function being compiled.
    pub open spec fn resolved(self, name: Seq<u8>) -> Resolved {
        self.resolved_at(self.levels.len() - 1, name)
    }

    /// Whether the global `name` was declared as a constant: the newest
    /// declaration of the name at depth 0 of the script decides, and a
    /// global that the script does not declare is no constant.
    pub open spec fn global_is_const(self, name: Seq<u8>) -> bool {
        self.levels.len() > 0 && match find_global(self.levels[0].locals, name) {
            Some(i) => self.levels[0].locals[i].const_,
            None => false,
        }
    }

    /// Whether `name`, seen from the level `level`, is the name of a
    /// constant. The answer follows the resolution of the name: the newest
    /// initialized local of that name decides; with no such local, a name
    /// of the globals table is a constant where the script declared it as
    /// one; otherwise the enclosing level decides.
    pub open spec fn is_const_at(self, level: int, name: Seq<u8>) -> bool
        decreases level,
    {
        if level < 0 || level >= self.levels.len() {
            false
        } else {
            let locals = self.levels[level].locals;
            match find_local(locals, name) {
                Some(i) => locals[i].const_,
                None => if self.globals.contains_key(name) {
                    self.global_is_const(name)
                } else if level == 0 {
                    false
                } else {
                    self.is_const_at(level - 1, name)
                },
            }
        }
    }

    /// Whether `name` is, in the function being compiled, the name of a
    /// constant: of a local of the function, of a variable of an enclosing
    /// function, or of a global.
    pub open spec fn is_const(self, name: Seq<u8>) -> bool {
        self.is_const_at(self.levels.len() - 1, name)
    }

    /// The state after the compilation of a function has begun.
    pub open spec fn function_begun(self, type_: FunctionTypeView, inheriting: Option<Seq<u8>>) -> CompilerView {
        CompilerView {
            levels: self.levels.push(
                LevelView {
                    locals: Seq::empty(),
                    scope_depth: 0,
                    type_,
                    inheriting,
                    upvalue_start: self.upvalues.len() as usize,
                    arity: 0,
                },
            ),
            ..self
        }
    }

    /// The state after the compilation of the innermost function has ended.
    pub open spec fn function_ended(self) -> CompilerView {
        CompilerView { levels: self.levels.drop_last(), ..self }
    }
}

impl Compiler {
    /// There is a level, the tables are well formed, and every captured
    /// variable has an owner.
    pub open spec fn wf(&self) -> bool {
        &&& self.levels.len() >= 1
        &&& self.globals.wf()
        &&& self.owners.len() == self.upvalues.len()
    }

    /// The state at the start of the compilation of a script, with the
    /// globals and the captured variables that exist already.
    pub fn new(globals: Table, upvalues: Vec<UpValue>) -> (r: Self)
        requires
            globals.wf(),
        ensures
            r.wf(),
            r@.levels == seq![
                LevelView {
                    locals: Seq::empty(),
                    scope_depth: 0,
                    type_: FunctionTypeView::Script,
                    inheriting: None,
                    upvalue_start: upvalues.len(),
                    arity: 0,
                },
            ],
            r@.upvalues == upvalues.deep_view(),
            r@.owners == Seq::new(upvalues.len() as nat, |i: int| 0usize),
            r@.globals == globals@,
    {
        let mut owners: Vec<usize> = Vec::new();
        let mut i: usize = 0;
        while i < upvalues.len()
            invariant
                i <= upvalues.len(),
                owners@ == Seq::new(i as nat, |j: int| 0usize),
            decreases upvalues.len() - i,
        {
            owners.push(0);
            i += 1;
            assert(owners@ =~= Seq::new(i as nat, |j: int| 0usize));
        }
        let level = Level {
            locals: Vec::new(),
            scope_depth: 0,
            type_: FunctionType::Script,
            inheriting: None,
            upvalue_start: upvalues.len(),
            arity: 0,
        };
        assert(level@.locals =~= Seq::<LocalView>::empty());
        let mut levels: Vec<Level> = Vec::new();
        levels.push(level);
        let r = Compiler { levels, upvalues, owners, globals };
        assert(r@.levels =~= seq![level@]);
        r
    }

    /// Opens a scope and returns its depth. Nothing changes, and nothing is
    /// returned, where the depth cannot be counted any higher.
    pub fn start_scope(&mut self) -> (r: Option<usize>)
        requires
            old(self).wf(),
        ensures
            final(self).wf(),
            r is Some <==> old(self)@.top().scope_depth < usize::MAX,
            r is Some ==> final(self)@ == old(self)@.scope_started() && r->Some_0
                == old(self)@.top().scope_depth + 1,
            r is None ==> final(self)@ == old(self)@,
    {
        let top = self.levels.len() - 1;
        assert(self@.levels[top as int] == self.levels[top as int]@);
        if self.levels[top].scope_depth == usize::MAX {
            return None;
        }
        let ghost before = self.levels[top as int]@;
        let depth = self.levels[top].scope_depth + 1;
        self.levels[top].scope_depth = depth;
        assert(self.levels[top as int]@ == (LevelView { scope_depth: depth, ..before }));
        assert(self@.levels =~= old(self)@.levels.update(
            top as int,
            LevelView { scope_depth: depth, ..before },
        ));
        Some(depth)
    }

    /// Closes the innermost scope: its locals are removed, and the
    /// instruction that drops their values when the scope ends at run time
    /// is appended to `chunk`, for the source line `line`. Returns the depth
    /// of the scope that is now the innermost. Nothing changes, and nothing
    /// is returned, where no scope is open.
    pub fn end_scope(&mut self, chunk: &mut Chunk, line: usize) -> (r: Option<usize>)
        requires
            old(self).wf(),
            old(chunk).wf(),
        ensures
            final(self).wf(),
            final(chunk).wf(),
            r is Some <==> old(self)@.top().scope_depth > 0,
            r is Some ==> {
                &&& final(self)@ == old(self)@.scope_ended()
                &&& r->Some_0 == old(self)@.top().scope_depth - 1
                &&& final(chunk)@.code == old(chunk)@.code.push(
                    InstructionView::PopN(old(self)@.scope_size() as usize),
                )
                &&& final(chunk)@.lines == old(chunk)@.lines.push(line)
            },
            r is None ==> final(self)@ == old(self)@ && final(chunk)@ == old(chunk)@,
    {
        match self.close_scope() {
            Some(count) => {
                let _ = chunk.write_to_chunk(Instruction::PopN(PopN::new(count)), line);
                Some(self.scope())
            },
            None => None,
        }
    }

    /// Closes the innermost scope: its locals are removed. Returns the
    /// number of locals removed, which is the number of values that leave
    /// the stack when the scope ends at run time. Nothing changes, and
    /// nothing is returned, where no scope is open.
    pub fn close_scope(&mut self) -> (r: Option<usize>)
        requires
            old(self).wf(),
        ensures
            final(self).wf(),
            r is Some <==> old(self)@.top().scope_depth > 0,
            r is Some ==> final(self)@ == old(self)@.scope_ended() && r->Some_0
                == old(self)@.scope_size(),
            r is None ==> final(self)@ == old(self)@,
    {
        let top = self.levels.len() - 1;
        assert(self@.levels[top as int] == self.levels[top as int]@);
        let depth = self.levels[top].scope_depth;
        if depth == 0 {
            return None;
        }
        let ghost before = self.levels[top as int]@;
        assert(before.locals.len() == self.levels[top as int].locals.len());
        let mut pop_count: usize = 0;
        self.levels[top].scope_depth = depth - 1;
        loop
            invariant
                top == self.levels.len() - 1,
                self.levels.len() == old(self).levels.len(),
                self.upvalues == old(self).upvalues,
                self.owners == old(self).owners,
                self.globals == old(self).globals,
                forall|i: int| 0 <= i < top ==> self.levels@[i] == old(self).levels@[i],
                depth >= 1,
                self.levels[top as int]@ == (LevelView {
                    scope_depth: (depth - 1) as usize,
                    locals: self.levels[top as int]@.locals,
                    ..before
                }),
                trimmed(before.locals, depth) == trimmed(self.levels[top as int]@.locals, depth),
                pop_count + self.levels[top as int]@.locals.len() == before.locals.len(),
                before.locals.len() <= usize::MAX,
            ensures
                self.levels[top as int]@.locals == trimmed(before.locals, depth),
            decreases self.levels[top as int].locals.len(),
        {
            let n = self.levels[top].locals.len();
            if n == 0 {
                break;
            }
            assert(self.levels[top as int]@.locals.last() == self.levels[top as int].locals[n
                - 1]@);
            if self.levels[top].locals[n - 1].depth != depth {
                break;
            }
            let ghost locals = self.levels[top as int]@.locals;
            self.levels[top].locals.pop();
            assert(self.levels[top as int]@.locals =~= locals.drop_last());
            pop_count += 1;
        }
        assert(self@.levels =~= old(self)@.levels.update(
            top as int,
            LevelView {
                scope_depth: (depth - 1) as usize,
                locals: trimmed(before.locals, depth),
                ..before
            },
        ));
        Some(pop_count)
    }

    /// Declares `local` in the innermost scope and returns where it lives.
    pub fn add_local(&mut self, local: Vec<u8>, const_: bool) -> (r: DefinitionScope)
        requires
            old(self).wf(),
        ensures
            final(self).wf(),
            final(self)@ == old(self)@.local_added(local@, const_),
            r == old(self)@.new_scope(),
    {
        let top = self.levels.len() - 1;
        assert(self@.levels[top as int] == self.levels[top as int]@);
        let ghost before = self.levels[top as int]@;
        let depth = self.levels[top].scope_depth;
        let position = self.levels[top].locals.len();
        let name = copy_bytes(local.as_slice());
        self.levels[top].locals.push(Local { name: local, depth, uninit: true, const_ });
        assert(self.levels[top as int]@.locals =~= before.locals.push(
            LocalView { name: local@, depth, uninit: true, const_ },
        ));
        assert(self@.levels =~= old(self)@.levels.update(
            top as int,
            LevelView {
                locals: before.locals.push(LocalView { name: local@, depth, uninit: true, const_ }),
                ..before
            },
        ));
        if depth == 0 {
            self.globals.add(name, Value::Nil);
            DefinitionScope::Global
        } else {
            DefinitionScope::Local(position)
        }
    }

    /// The depth of the innermost open scope.
    pub fn scope(&self) -> (r: usize)
        requires
            self.wf(),
        ensures
            r == self@.top().scope_depth,
    {
        let top = self.levels.len() - 1;
        assert(self@.levels[top as int] == self.levels[top as int]@);
        self.levels[top].scope_depth
    }

    /// Marks the newest local as initialized.
    pub fn mark_latest_init(&mut self)
        requires
            old(self).wf(),
        ensures
            final(self).wf(),
            final(self)@ == old(self)@.latest_marked(),
    {
        let top = self.levels.len() - 1;
        assert(self@.levels[top as int] == self.levels[top as int]@);
        let ghost before = self.levels[top as int]@;
        let n = self.levels[top].locals.len();
        if n > 0 {
            assert(before.locals.last() == self.levels[top as int].locals[n - 1]@);
            self.levels[top].locals[n - 1].uninit = false;
            assert(self.levels[top as int]@.locals =~= before.locals.update(
                n - 1,
                LocalView { uninit: false, ..before.locals.last() },
            ));
            assert(self@.levels =~= old(self)@.levels.update(
                top as int,
                LevelView {
                    locals: before.locals.update(
                        n - 1,
                        LocalView { uninit: false, ..before.locals.last() },
                    ),
                    ..before
                },
            ));
        }
    }

    /// The newest initialized local of the level `level` with the name `name`.
    fn resolve_idx(&self, level: usize, name: &[u8]) -> (r: Option<usize>)
        requires
            level < self.levels.len(),
        ensures
            match r {
                Some(i) => find_local(self@.levels[level as int].locals, name@) == Some(i as int)
                    && i < self.levels[level as int].locals.len(),
                None => find_local(self@.levels[level as int].locals, name@) is None,
            },
    {
        assert(self@.levels[level as int] == self.levels[level as int]@);
        let locals = &self.levels[level].locals;
        let ghost all = locals.deep_view();
        let mut i = locals.len();
        assert(all.subrange(0, i as int) =~= all);
        while i > 0
            invariant
                i <= locals.len(),
                all == locals.deep_view(),
                all == self@.levels[level as int].locals,
                locals.len() == self.levels[level as int].locals.len(),
                level < self.levels.len(),
                find_local(all, name@) == find_local(all.subrange(0, i as int), name@),
            decreases i,
        {
            i -= 1;
            assert(all.subrange(0, i + 1).drop_last() =~= all.subrange(0, i as int));
            assert(all.subrange(0, i + 1).last() == locals[i as int]@);
            if !locals[i].uninit && bytes_eq(locals[i].name.as_slice(), name) {
                return Some(i);
            }
        }
        assert(all.subrange(0, 0) =~= Seq::<LocalView>::empty());
        None
    }

    /// The slot that captures the local `index` of the level `owner`.
    fn add_upvalue(&mut self, owner: usize, index: usize) -> (r: usize)
        requires
            old(self).wf(),
        ensures
            final(self).wf(),
            (final(self)@, r) == old(self)@.captured(owner, index),
    {
        let ghost upvalues = self@.upvalues;
        let ghost owners = self@.owners;
        let mut slot: usize = 0;
        while slot < self.upvalues.len()
            invariant
                self.wf(),
                *self == *old(self),
                upvalues == self@.upvalues,
                owners == self@.owners,
                slot <= self.upvalues.len(),
                find_capture(upvalues, owners, owner, index, 0) == find_capture(
                    upvalues,
                    owners,
                    owner,
                    index,
                    slot as int,
                ),
            decreases self.upvalues.len() - slot,
        {
            assert(upvalues[slot as int] == self.upvalues[slot as int]@);
            if self.owners[slot] == owner && self.upvalues[slot].index == index {
                return slot;
            }
            slot += 1;
        }
        self.upvalues.push(UpValue { index, value: Value::Nil });
        self.owners.push(owner);
        assert(self@.upvalues =~= upvalues.push(UpValueView { index, value: ValueView::Nil }));
        slot
    }

    /// Resolves `name` as seen from the level `level`.
    pub fn resolve_at(&mut self, level: usize, name: &[u8]) -> (r: Option<DefinitionScope>)
        requires
            old(self).wf(),
            level < old(self).levels.len(),
        ensures
            final(self).wf(),
            final(self)@ == old(self)@.resolved_at(level as int, name@).compiler,
            r == old(self)@.resolved_at(level as int, name@).scope,
            final(self)@.levels == old(self)@.levels,
            final(self)@.globals == old(self)@.globals,
        decreases level,
    {
        assert(self@.levels[level as int] == self.levels[level as int]@);
        match self.resolve_idx(level, name) {
            Some(i) => {
                assert(self@.levels[level as int].locals[i as int] == self.levels[level as int].locals[i as int]@);
                if self.levels[level].locals[i].depth == 0 {
                    Some(DefinitionScope::Global)
                } else {
                    Some(DefinitionScope::Local(i))
                }
            },
            None => {
                if self.globals.has(name) {
                    Some(DefinitionScope::Global)
                } else if level == 0 {
                    None
                } else {
                    match self.resolve_at(level - 1, name) {
                        Some(DefinitionScope::Local(i)) => {
                            let slot = self.add_upvalue(level - 1, i);
                            Some(DefinitionScope::UpValue(slot))
                        },
                        other => other,
                    }
                }
            },
        }
    }

    /// Resolves `name` in the function being compiled.
    pub fn resolve(&mut self, name: &[u8]) -> (r: Option<DefinitionScope>)
        requires
            old(self).wf(),
        ensures
            final(self).wf(),
            final(self)@ == old(self)@.resolved(name@).compiler,
            r == old(self)@.resolved(name@).scope,
            final(self)@.levels == old(self)@.levels,
            final(self)@.globals == old(self)@.globals,
    {
        let level = self.levels.len() - 1;
        self.resolve_at(level, name)
    }

    /// Whether the local at `idx` of the function being compiled is a constant.
    pub fn check_const(&self, idx: usize) -> (r: bool)
        requires
            self.wf(),
        ensures
            r == (idx < self@.top().locals.len() && self@.top().locals[idx as int].const_),
    {
        let top = self.levels.len() - 1;
        assert(self@.levels[top as int] == self.levels[top as int]@);
        if idx < self.levels[top].locals.len() {
            assert(self@.top().locals[idx as int] == self.levels[top as int].locals[idx as int]@);
            self.levels[top].locals[idx].const_
        } else {
            false
        }
    }

    /// Whether the global `name` was declared as a constant.
    fn check_const_global(&self, name: &[u8]) -> (r: bool)
        requires
            self.wf(),
        ensures
            r == self@.global_is_const(name@),
    {
        assert(self@.levels[0] == self.levels[0]@);
        let locals = &self.levels[0].locals;
        let ghost all = locals.deep_view();
        let mut i = locals.len();
        assert(all.subrange(0, i as int) =~= all);
        while i > 0
            invariant
                i <= locals.len(),
                all == locals.deep_view(),
                all == self@.levels[0].locals,
                self@.levels.len() > 0,
                find_global(all, name@) == find_global(all.subrange(0, i as int), name@),
            decreases i,
        {
            i -= 1;
            assert(all.subrange(0, i + 1).drop_last() =~= all.subrange(0, i as int));
            assert(all.subrange(0, i + 1).last() == locals[i as int]@);
            if locals[i].depth == 0 && bytes_eq(locals[i].name.as_slice(), name) {
                assert(all[i as int] == locals[i as int]@);
                return locals[i].const_;
            }
        }
        assert(all.subrange(0, 0) =~= Seq::<LocalView>::empty());
        false
    }

    /// Whether `name` is the name of a constant in the function being
    /// compiled: of one of its locals, of a variable of an enclosing
    /// function, or of a global.
    pub fn check_const_from_token(&self, name: &[u8]) -> (r: bool)
        requires
            self.wf(),
        ensures
            r == self@.is_const(name@),
    {
        let mut level = self.levels.len() - 1;
        loop
            invariant
                self.wf(),
                level < self.levels.len(),
                self@.is_const(name@) == self@.is_const_at(level as int, name@),
            decreases level,
        {
            assert(self@.levels[level as int] == self.levels[level as int]@);
            match self.resolve_idx(level, name) {
                Some(i) => {
                    assert(self@.levels[level as int].locals[i as int]
                        == self.levels[level as int].locals[i as int]@);
                    return self.levels[level].locals[i].const_;
                },
                None => {
                    if self.globals.has(name) {
                        return self.check_const_global(name);
                    }
                    if level == 0 {
                        return false;
                    }
                    level -= 1;
                },
            }
        }
    }

    /// The position of the newest local named `name` that the innermost
    /// scope declares.
    pub fn resolve_in_scope(&self, name: &[u8]) -> (r: Option<usize>)
        requires
            self.wf(),
        ensures
            match r {
                Some(i) => find_in_scope(self@.top().locals, name@, self@.top().scope_depth)
                    == Some(i as int),
                None => find_in_scope(self@.top().locals, name@, self@.top().scope_depth) is None,
            },
    {
        let top = self.levels.len() - 1;
        assert(self@.levels[top as int] == self.levels[top as int]@);
        let locals = &self.levels[top].locals;
        let depth = self.levels[top].scope_depth;
        let ghost all = locals.deep_view();
        let mut i = locals.len();
        assert(all.subrange(0, i as int) =~= all);
        while i > 0
            invariant
                i <= locals.len(),
                all == locals.deep_view(),
                all == self@.top().locals,
                depth == self@.top().scope_depth,
                find_in_scope(all, name@, depth) == find_in_scope(
                    all.subrange(0, i as int),
                    name@,
                    depth,
                ),
            decreases i,
        {
            i -= 1;
            assert(all.subrange(0, i + 1).drop_last() =~= all.subrange(0, i as int));
            assert(all.subrange(0, i + 1).last() == locals[i as int]@);
            if locals[i].depth < depth {
                return None;
            }
            if bytes_eq(locals[i].name.as_slice(), name) {
                return Some(i);
            }
        }
        assert(all.subrange(0, 0) =~= Seq::<LocalView>::empty());
        None
    }

    /// Whether the function being compiled is a method.
    pub fn in_method(&self) -> (r: bool)
        requires
            self.wf(),
        ensures
            r == (self@.top().type_ is Method),
    {
        let top = self.levels.len() - 1;
        assert(self@.levels[top as int] == self.levels[top as int]@);
        match &self.levels[top].type_ {
            FunctionType::Method(_, _) => true,
            _ => false,
        }
    }

    /// The globals.
    pub fn globals(&self) -> (r: &Table)
        ensures
            r == &self.globals,
    {
        &self.globals
    }

    /// The class that the function being compiled inherits from.
    pub fn inheriting(&self) -> (r: Option<Vec<u8>>)
        requires
            self.wf(),
        ensures
            match r {
                Some(name) => self@.top().inheriting == Some(name@),
                None => self@.top().inheriting is None,
            },
    {
        let top = self.levels.len() - 1;
        assert(self@.levels[top as int] == self.levels[top as int]@);
        match &self.levels[top].inheriting {
            Some(name) => Some(copy_bytes(name.as_slice())),
            None => None,
        }
    }

    /// Begins the compilation of a function inside the one being compiled.
    pub fn begin_function(&mut self, type_: FunctionType, inheriting: Option<Vec<u8>>)
        requires
            old(self).wf(),
        ensures
            final(self).wf(),
            final(self)@ == old(self)@.function_begun(
                type_@,
                match inheriting {
                    Some(name) => Some(name@),
                    None => None,
                },
            ),
    {
        let level = Level {
            locals: Vec::new(),
            scope_depth: 0,
            type_,
            inheriting,
            upvalue_start: self.upvalues.len(),
            arity: 0,
        };
        assert(level@.locals =~= Seq::<LocalView>::empty());
        self.levels.push(level);
        assert(self@.levels =~= old(self)@.levels.push(level@));
    }

    /// Ends the compilation of the innermost function and returns its
    /// level. The level of the script stays, and nothing is returned for it.
    pub fn end_function(&mut self) -> (r: Option<Level>)
        requires
            old(self).wf(),
        ensures
            final(self).wf(),
            r is Some <==> old(self)@.levels.len() > 1,
            r is Some ==> final(self)@ == old(self)@.function_ended() && r->Some_0@
                == old(self)@.top(),
            r is None ==> final(self)@ == old(self)@,
    {
        if self.levels.len() <= 1 {
            return None;
        }
        let level = self.levels.pop();
        assert(self@.levels =~= old(self)@.levels.drop_last());
        level
    }

    /// Counts one more parameter of the function being compiled.
    pub fn count_parameter(&mut self)
        requires
            old(self).wf(),
        ensures
            final(self).wf(),
            final(self)@ == old(self)@.with_top(
                LevelView {
                    arity: if old(self)@.top().arity < usize::MAX {
                        (old(self)@.top().arity + 1) as usize
                    } else {
                        usize::MAX
                    },
                    ..old(self)@.top()
                },
            ),
    {
        let top = self.levels.len() - 1;
        assert(self@.levels[top as int] == self.levels[top as int]@);
        let ghost before = self.levels[top as int]@;
        if self.levels[top].arity < usize::MAX {
            self.levels[top].arity = self.levels[top].arity + 1;
        }
        assert(self@.levels =~= old(self)@.levels.update(
            top as int,
            LevelView { arity: self.levels[top as int].arity, ..before },
        ));
    }
}

/// A compiled program as contracts see it.
pub struct ProgramView {
    pub functions: Seq<FuncView>,
    pub main: usize,
    pub heap: HeapView,
    pub upvalues: Seq<UpValueView>,
    pub globals: Map<Seq<u8>, ValueView>,
}

/// A compiled program: its functions, of which the one at `main` is the
/// script; the classes it declares, in the heap; its captured variables;
/// and the globals, each name that the script declares with the value `nil`.
#[derive(Debug)]
pub struct Program {
    pub functions: Vec<Func>,
    pub main: usize,
    pub heap: Heap,
    pub upvalues: Vec<UpValue>,
    pub globals: Table,
}

impl View for Program {
    type V = ProgramView;

    open spec fn view(&self) -> ProgramView {
        ProgramView {
            functions: self.functions.deep_view(),
            main: self.main,
            heap: self.heap@,
            upvalues: self.upvalues.deep_view(),
            globals: self.globals@,
        }
    }
}

impl Program {
    /// Whether the value is well formed.
    pub open spec fn wf(&self) -> bool {
        self.heap.wf() && self.globals.wf()
    }
}

impl ParserView {
    /// The program that a parser at the end of the source has compiled:
    /// the script is the last of its functions.
    pub open spec fn finished(self) -> ProgramView {
        ProgramView {
            functions: self.functions.push(self.function_made()),
            main: self.functions.len() as usize,
            heap: self.heap,
            upvalues: self.compiler.upvalues,
            globals: self.compiler.globals,
        }
    }
}

/// The state of a compiler that is about to compile a script.
pub open spec fn fresh(globals: Map<Seq<u8>, ValueView>) -> CompilerView {
    CompilerView {
        levels: seq![
            LevelView {
                locals: Seq::empty(),
                scope_depth: 0,
                type_: FunctionTypeView::Script,
                inheriting: None,
                upvalue_start: 0,
                arity: 0,
            },
        ],
        upvalues: Seq::empty(),
        owners: Seq::empty(),
        globals,
    }
}

/// What compiling `src` gives: the program, or the first failure. The
/// number literals of `src` have the values `numbers`, in their order.
pub open spec fn compiled(
    src: Seq<u8>,
    numbers: Seq<u64>,
    globals: Map<Seq<u8>, ValueView>,
    heap: HeapView,
) -> Result<ProgramView, Failure> {
    match opened(src, numbers, fresh(globals), heap) {
        Err(f) => Err(f),
        Ok(p) => match p.program() {
            Err(f) => Err(f),
            Ok(q) => Ok(q.finished()),
        },
    }
}

impl<'a> Parser<'a> {
    /// The compiled program.
    pub fn finish(self) -> (r: Program)
        requires
            self.wf(),
        ensures
            r.wf(),
            r@ == self@.finished(),
    {
        let mut parser = self;
        let ghost view = parser@;
        let count = parser.compiler.upvalues.len();
        let top = parser.chunks.len() - 1;
        assert(view.chunks[top as int] == parser.chunks[top as int]@);
        let ghost chunks = parser.chunks.deep_view();
        let mut chunk = Chunk::new();
        core::mem::swap(&mut chunk, &mut parser.chunks[top]);
        assert(chunk@ == view.chunks.last());
        let level = parser.compiler.levels.len() - 1;
        assert(view.compiler.levels[level as int] == parser.compiler.levels[level as int]@);
        let start = parser.compiler.levels[level].upvalue_start;
        let mut func = Func::new(
            parser.compiler.levels[level].type_.context(),
            chunk,
            start,
            if count >= start {
                count - start
            } else {
                0
            },
        );
        func.set_arity(parser.compiler.levels[level].arity);
        assert(func@ == view.function_made());
        let main = parser.functions.len();
        parser.functions.push(func);
        assert(parser.functions.deep_view() =~= view.functions.push(view.function_made()));
        Program {
            functions: parser.functions,
            main,
            heap: parser.heap,
            upvalues: parser.compiler.upvalues,
            globals: parser.compiler.globals,
        }
    }
}

impl Compiler {
    /// Compiles the script `src`, whose number literals have the values
    /// `numbers` in their order, with the globals and the heap that exist
    /// already.
    pub fn compile(src: &[u8], numbers: &[u64], globals: Table, heap: Heap) -> (r: Result<
        Program,
        ParserErr,
    >)
        requires
            src@.len() < usize::MAX,
            globals.wf(),
            heap.wf(),
        ensures
            match compiled(src@, numbers@, globals@, heap@) {
                Ok(program) => r is Ok && r->Ok_0@ == program && r->Ok_0.wf(),
                Err(f) => r is Err && reported(src@, f, r->Err_0),
            },
    {
        let compiler = Compiler::new(globals, Vec::new());
        assert(compiler@.upvalues =~= Seq::<UpValueView>::empty());
        assert(compiler@.owners =~= Seq::<usize>::empty());
        assert(compiler@ == fresh(globals@));
        let mut parser = match Parser::new(src, numbers, compiler, heap) {
            Err(e) => {
                return Err(e);
            },
            Ok(parser) => parser,
        };
        match parser.parse() {
            Err(e) => {
                return Err(e);
            },
            Ok(_) => {},
        }
        Ok(parser.finish())
    }
}

} // verus!
