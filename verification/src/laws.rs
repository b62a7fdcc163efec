//! What holds of the compiler and the machine together.
use vstd::prelude::*;
use crate::compiler::compiler::{
    find_local,
    find_capture,
    trimmed,
    CompilerView,
    LevelView,
    LocalView,
    UpValueView,
};
use crate::compiler::err::SyntaxFault;
use crate::compiler::grammar::ParserView;
use crate::compiler::token::TokenType;
use crate::instructions::call::{arity_message, arity_words, call_shown, entered};
use crate::instructions::define::DefinitionScope;
use crate::instructions::err::RuntimeFault;
use crate::instructions::instructions::{
    complained,
    proceed,
    Call,
    Complaint,
    Get,
    Jump,
    Override,
    PopN,
    Resolve,
    This,
};
use crate::values::func::FuncView;
use crate::values::obj::{inherited, HeapView};
use crate::values::values::ValueView;
use crate::vm::state::{Frame, StateView};

verus! {

/// Proves that the locals of a scope, and no others, are removed when the
/// scope closes.
pub proof fn trimmed_removes_the_scope(base: Seq<LocalView>, extra: Seq<LocalView>, depth: usize)
    requires
        forall|i: int| 0 <= i < base.len() ==> base[i].depth != depth,
        forall|i: int| 0 <= i < extra.len() ==> extra[i].depth == depth,
    ensures
        trimmed(base + extra, depth) == base,
    decreases extra.len(),
{
    if extra.len() == 0 {
        assert(base + extra =~= base);
        if base.len() > 0 {
            assert(base.last() == base[base.len() - 1]);
        }
    } else {
        assert((base + extra).last() == extra.last());
        assert((base + extra).drop_last() =~= base + extra.drop_last());
        trimmed_removes_the_scope(base, extra.drop_last(), depth);
    }
}

/// Whether the locals of a level lie in its open scopes, the deeper ones
/// after the shallower ones.
pub open spec fn nested(level: LevelView) -> bool {
    &&& forall|i: int, j: int|
        0 <= i <= j < level.locals.len() ==> level.locals[i].depth <= level.locals[j].depth
    &&& forall|i: int|
        0 <= i < level.locals.len() ==> level.locals[i].depth <= level.scope_depth
}

/// Proves that closing a scope leaves a leading part of the locals, which
/// does not end with a local of the closed scope.
pub proof fn trimmed_is_a_prefix(locals: Seq<LocalView>, depth: usize)
    ensures
        trimmed(locals, depth).len() <= locals.len(),
        trimmed(locals, depth) == locals.subrange(0, trimmed(locals, depth).len() as int),
        trimmed(locals, depth).len() > 0 ==> trimmed(locals, depth).last().depth != depth,
    decreases locals.len(),
{
    if locals.len() > 0 && locals.last().depth == depth {
        trimmed_is_a_prefix(locals.drop_last(), depth);
        let kept = trimmed(locals.drop_last(), depth);
        assert(locals.drop_last().subrange(0, kept.len() as int) =~= locals.subrange(
            0,
            kept.len() as int,
        ));
    } else {
        assert(locals.subrange(0, locals.len() as int) =~= locals);
    }
}

/// Scope nesting. Opening a scope, declaring a variable, marking a
/// variable as initialized and closing a scope each keep the locals of
/// the function inside its open scopes.
pub proof fn nesting_is_kept(c: CompilerView, name: Seq<u8>, const_: bool)
    requires
        c.levels.len() >= 1,
        nested(c.top()),
    ensures
        nested(c.local_added(name, const_).top()),
        nested(c.latest_marked().top()),
        c.top().scope_depth < usize::MAX ==> nested(c.scope_started().top()),
        c.top().scope_depth > 0 ==> nested(c.scope_ended().top()),
{
    let level = c.top();
    if level.scope_depth > 0 {
        trimmed_is_a_prefix(level.locals, level.scope_depth);
        let kept = trimmed(level.locals, level.scope_depth);
        let closed = c.scope_ended().top();
        assert(closed.locals == kept);
        assert forall|i: int| 0 <= i < kept.len() implies kept[i].depth <= closed.scope_depth by {
            assert(kept[i] == level.locals[i]);
            assert(kept.last() == level.locals[kept.len() - 1]);
        }
        assert forall|i: int, j: int| 0 <= i <= j < kept.len() implies kept[i].depth
            <= kept[j].depth by {
            assert(kept[i] == level.locals[i]);
            assert(kept[j] == level.locals[j]);
        }
    }
}

/// Scope discipline. Take a function whose locals lie in its open scopes.
/// Open a scope, declare any locals in it, and close it: the lexical state
/// is what it was before the scope was opened, and the instruction emitted
/// at the close drops exactly one value for each local declared in the
/// scope, so that a stack that held one value for each of them is back to
/// the size it had when the scope was opened.
pub proof fn scope_discipline(c: CompilerView, extra: Seq<LocalView>, state: StateView)
    requires
        c.levels.len() >= 1,
        c.top().scope_depth < usize::MAX,
        nested(c.top()),
        forall|i: int| 0 <= i < extra.len() ==> extra[i].depth == c.top().scope_depth + 1,
        extra.len() <= state.stack.len() <= usize::MAX,
    ensures
        ({
            let opened = c.scope_started();
            let filled = opened.with_top(
                LevelView { locals: opened.top().locals + extra, ..opened.top() },
            );
            &&& filled.scope_size() == extra.len()
            &&& filled.scope_ended() == c
            &&& PopN::effect(filled.scope_size() as usize, state).state.stack.len()
                == state.stack.len() - extra.len()
        }),
{
    let opened = c.scope_started();
    let filled = opened.with_top(LevelView { locals: opened.top().locals + extra, ..opened.top() });
    let depth = (c.top().scope_depth + 1) as usize;
    assert(opened.top().locals == c.top().locals);
    assert(filled.top().locals == c.top().locals + extra);
    assert(filled.top().scope_depth == depth);
    trimmed_removes_the_scope(c.top().locals, extra, depth);
    assert((c.top().locals + extra).len() == c.top().locals.len() + extra.len());
    assert(filled.scope_ended().levels =~= c.levels);
}

/// Local resolution. Where the instruction that writes a variable
/// succeeds, the instruction that reads the same variable, run next in the
/// same function, pushes the value that was written: the two go to one
/// slot. The parser gives both instructions of a name the scope that one
/// resolution of the name yields.
pub proof fn resolve_reads_what_override_wrote(
    name: Seq<u8>,
    scope: DefinitionScope,
    state: StateView,
    offset: usize,
)
    requires
        Override::effect(name, scope, state, offset).result is Ok,
    ensures
        ({
            let after = Override::effect(name, scope, state, offset).state;
            Resolve::effect(name, scope, after, offset) == proceed(
                StateView { stack: after.stack.push(state.stack.last()), ..after },
            )
        }),
{
}

/// The constant flag follows the resolution of a name. A name that
/// resolves to a local of the level is a constant exactly when that local
/// is one. A name that resolves to a captured variable is a constant
/// exactly when it is one for the enclosing level, whose variable it is. A
/// name that no level knows is no constant.
pub proof fn const_follows_resolution(c: CompilerView, level: int, name: Seq<u8>)
    requires
        0 <= level < c.levels.len(),
        forall|l: int| 0 <= l < c.levels.len() ==> c.levels[l].locals.len() <= usize::MAX,
    ensures
        match c.resolved_at(level, name).scope {
            Some(DefinitionScope::Local(i)) => i < c.levels[level].locals.len() && c.is_const_at(
                level,
                name,
            ) == c.levels[level].locals[i as int].const_,
            Some(DefinitionScope::UpValue(_)) => level > 0 && c.is_const_at(level, name)
                == c.is_const_at(level - 1, name),
            Some(DefinitionScope::Global) => true,
            None => !c.is_const_at(level, name),
        },
    decreases level,
{
    let locals = c.levels[level].locals;
    match find_local(locals, name) {
        Some(i) => {
            find_local_finds(locals, name);
        },
        None => {
            if !c.globals.contains_key(name) && level > 0 {
                const_follows_resolution(c, level - 1, name);
            }
        },
    }
}

/// Proves that `find_local` finds a position of the locals.
pub proof fn find_local_finds(locals: Seq<LocalView>, name: Seq<u8>)
    ensures
        match find_local(locals, name) {
            Some(i) => 0 <= i < locals.len() && locals[i].name == name && !locals[i].uninit,
            None => true,
        },
    decreases locals.len(),
{
    if locals.len() > 0 && !(locals.last().name == name && !locals.last().uninit) {
        find_local_finds(locals.drop_last(), name);
        if find_local(locals, name) is Some {
            let i = find_local(locals, name)->Some_0;
            assert(locals.drop_last()[i] == locals[i]);
        }
    }
}

/// Const immutability. Where `=` follows a name that is a constant for the
/// function being compiled (a local of the function, a variable of an
/// enclosing function, or a global that the script declared as a
/// constant), the parser fails before it emits anything: the assignment
/// is refused with the error of a constant where an assignment could stand
/// there, and with the error of an invalid target where none could.
pub proof fn const_is_immutable(p: ParserView, can_assign: bool)
    requires
        p.previous is Some,
        p.compiler.is_const(p.previous->Some_0.literal),
        p.check(TokenType::EQUAL),
    ensures
        p.var(can_assign) is Err,
        p.var_refused(can_assign),
        p.compiler.resolved(p.previous->Some_0.literal).scope is Some && p.advanced() is Ok
            ==> p.var(can_assign)->Err_0.fault == if can_assign {
            SyntaxFault::ConstAssignment
        } else {
            SyntaxFault::InvalidAssignmentTarget
        },
{
    let name = p.previous->Some_0.literal;
    let found = p.compiler.resolved(name);
    if found.scope is Some {
        let p1 = p.with_compiler(found.compiler);
        assert(p1.check(TokenType::EQUAL));
        assert(p1.advanced() is Ok == p.advanced() is Ok);
        assert(p1.accessed(name, found.scope->Some_0, true, can_assign) is Err);
    }
}

/// Proves what `find_capture` finds.
pub proof fn find_capture_finds(
    upvalues: Seq<UpValueView>,
    owners: Seq<usize>,
    owner: usize,
    index: usize,
    from: int,
)
    requires
        0 <= from,
        owners.len() == upvalues.len(),
    ensures
        match find_capture(upvalues, owners, owner, index, from) {
            Some(slot) => from <= slot < upvalues.len() && owners[slot] == owner
                && upvalues[slot].index == index && forall|j: int|
                from <= j < slot ==> !(owners[j] == owner && upvalues[j].index == index),
            None => forall|j: int|
                from <= j < upvalues.len() ==> !(owners[j] == owner && upvalues[j].index == index),
        },
    decreases upvalues.len() - from,
{
    if from < upvalues.len() && !(owners[from] == owner && upvalues[from].index == index) {
        find_capture_finds(upvalues, owners, owner, index, from + 1);
    }
}

/// Proves that a search finds the first slot that captures the local.
pub proof fn find_capture_is_first(
    upvalues: Seq<UpValueView>,
    owners: Seq<usize>,
    owner: usize,
    index: usize,
    from: int,
    slot: int,
)
    requires
        0 <= from <= slot < upvalues.len(),
        owners.len() == upvalues.len(),
        owners[slot] == owner,
        upvalues[slot].index == index,
        forall|j: int| from <= j < slot ==> !(owners[j] == owner && upvalues[j].index == index),
    ensures
        find_capture(upvalues, owners, owner, index, from) == Some(slot),
    decreases slot - from,
{
    if from < slot {
        find_capture_is_first(upvalues, owners, owner, index, from + 1, slot);
    }
}

/// Upvalue closure, at compile time. Capturing a local again gives the
/// slot that captured it first and changes nothing: every closure that
/// captures a variable is compiled against one slot.
pub proof fn capture_is_stable(c: CompilerView, owner: usize, index: usize)
    requires
        c.owners.len() == c.upvalues.len(),
    ensures
        c.captured(owner, index).0.captured(owner, index) == c.captured(owner, index),
{
    find_capture_finds(c.upvalues, c.owners, owner, index, 0);
    let (c1, slot) = c.captured(owner, index);
    match find_capture(c.upvalues, c.owners, owner, index, 0) {
        Some(s) => {},
        None => {
            find_capture_is_first(c1.upvalues, c1.owners, owner, index, 0, c.upvalues.len() as int);
        },
    }
}

/// Upvalue closure, at the return. When a function leaves, by a return or
/// by running to its end, each captured variable of its range whose local
/// is on the stack takes the value that the local has then, and every
/// other captured variable keeps its value: what closures read after the
/// function has ended is what the variable held at its end.
pub proof fn return_captures_locals(
    func: FuncView,
    frame: Frame,
    state: StateView,
    returning: bool,
    slot: int,
)
    requires
        0 <= slot < state.upvalues.len(),
    ensures
        func.left(frame, state, returning).upvalues.len() == state.upvalues.len(),
        func.left(frame, state, returning).upvalues[slot] == if func.upvalue_offset <= slot
            < func.upvalue_offset + func.upvalue_count && state.upvalues[slot].index
            + frame.stack_offset < state.stack.len() {
            UpValueView {
                index: state.upvalues[slot].index,
                value: state.stack[state.upvalues[slot].index + frame.stack_offset],
            }
        } else {
            state.upvalues[slot]
        },
{
}

/// Upvalue closure, at run time. A value written to a captured variable
/// is the value that any function reads from it afterwards, whatever the
/// window of its frame: a write through one closure is seen through every
/// closure that captures the variable.
pub proof fn captured_variable_is_shared(
    written_as: Seq<u8>,
    read_as: Seq<u8>,
    slot: usize,
    state: StateView,
    writer_offset: usize,
    reader_offset: usize,
)
    requires
        Override::effect(written_as, DefinitionScope::UpValue(slot), state, writer_offset).result
            is Ok,
    ensures
        ({
            let after = Override::effect(
                written_as,
                DefinitionScope::UpValue(slot),
                state,
                writer_offset,
            ).state;
            Resolve::effect(read_as, DefinitionScope::UpValue(slot), after, reader_offset)
                == proceed(StateView { stack: after.stack.push(state.stack.last()), ..after })
        }),
{
}

/// Short-circuit, at run time. The jump of `and` leaves the stack alone
/// and is taken exactly when the left operand is false; the jump of `or`
/// is taken exactly when it is true. The parser places the jump before
/// the right operand and lets it lead past the operand, so a jump that is
/// taken leaves the right operand unevaluated and the left operand as the
/// result.
pub proof fn jump_is_taken_when_decided(to: usize, continue_condition: bool, state: StateView)
    requires
        state.stack.len() > 0,
        state.stack.last().truth() is Some,
    ensures
        Jump::effect(to, continue_condition, state).state == state,
        Jump::effect(to, continue_condition, state).result == Ok::<usize, Complaint>(
            if state.stack.last().truth()->Some_0 == continue_condition {
                0
            } else {
                to
            },
        ),
{
}

/// Arity. A call of a function with a number of arguments other than the
/// function's arity is a fault, which leaves the state as it was, and
/// whose message names the number that the function takes and the number
/// that the call gave.
pub proof fn wrong_arity_is_a_fault(
    args_len: usize,
    line: usize,
    line_contents: Seq<u8>,
    f: usize,
    functions: Seq<FuncView>,
    state: StateView,
)
    requires
        state.stack.len() >= args_len + 1,
        state.stack[state.stack.len() - args_len - 1] == ValueView::Func(f),
        f < functions.len(),
        functions[f as int].arity != args_len,
    ensures
        Call::effect(args_len, line, line_contents, functions, state) == complained(
            state,
            Complaint {
                fault: RuntimeFault::ArityMismatch,
                message: arity_message(
                    line,
                    line_contents,
                    functions[f as int].arity,
                    arity_words(ValueView::Func(f)),
                    ValueView::Func(f).shown(functions, state.heap),
                    args_len,
                ),
                what: call_shown(ValueView::Func(f).shown(functions, state.heap)),
            },
        ),
{
}

/// Method binding, on the read. Reading from an instance the name of a
/// method of its class, where the instance has no field of that name,
/// gives the method bound to the instance.
pub proof fn method_is_bound(heap: HeapView, instance: usize, name: Seq<u8>, method: usize)
    requires
        instance < heap.instances.len(),
        !heap.instances[instance as int].fields.contains_key(name),
        heap.method(heap.instances[instance as int].class, name) == Some(method),
    ensures
        Get::read(name, ValueView::Instance(instance), heap) == Ok::<ValueView, RuntimeFault>(
            ValueView::Method(method, instance),
        ),
{
}

/// Method binding, on the call. A call of a bound method enters the
/// function with the instance as the receiver of the new frame, and
/// `this` in that frame is the instance.
pub proof fn bound_method_receives_instance(
    args_len: usize,
    line: usize,
    line_contents: Seq<u8>,
    method: usize,
    instance: usize,
    functions: Seq<FuncView>,
    state: StateView,
)
    requires
        state.stack.len() >= args_len + 1,
        state.stack[state.stack.len() - args_len - 1] == ValueView::Method(method, instance),
        Call::effect(args_len, line, line_contents, functions, state).result is Ok,
    ensures
        ({
            let called = Call::effect(args_len, line, line_contents, functions, state).state;
            &&& called.frames == state.frames.push(
                Frame {
                    func: method,
                    ip: 0,
                    stack_offset: (state.stack.len() - 1 - args_len) as usize,
                    receiver: Some(instance),
                },
            )
            &&& This::effect(called) == proceed(
                StateView { stack: called.stack.push(ValueView::Instance(instance)), ..called },
            )
        }),
{
    let n = state.stack.len();
    let without = StateView { stack: state.stack.remove(n - args_len - 1), ..state };
    assert(entered(method, args_len, functions, without, Some(instance)) is Ok);
    let called = Call::effect(args_len, line, line_contents, functions, state).state;
    assert(called.frames.last() == Frame {
        func: method,
        ip: 0,
        stack_offset: (without.stack.len() - args_len) as usize,
        receiver: Some(instance),
    });
}

/// Inheritance. After a class has inherited from a parent, it has the
/// methods of both; a method that it defined itself is its own, and a
/// method that only the parent had is the parent's.
pub proof fn inheritance_keeps_overrides(
    child: Map<Seq<u8>, ValueView>,
    parent: Map<Seq<u8>, ValueView>,
    name: Seq<u8>,
)
    ensures
        inherited(child, parent).contains_key(name) <==> child.contains_key(name)
            || parent.contains_key(name),
        child.contains_key(name) ==> inherited(child, parent)[name] == child[name],
        !child.contains_key(name) && parent.contains_key(name) ==> inherited(child, parent)[name]
            == parent[name],
{
}

} // verus!
