//! Properties of instances and classes, and inheritance.
use vstd::prelude::*;
use vstd::string::*;
use crate::instructions::define::{variable, variable_complaint, DefinitionScope};
use crate::instructions::err::{InstructionErr, RuntimeFault};
use crate::instructions::instructions::{
    carried_out,
    complained,
    failed,
    fault,
    proceed,
    raised,
    Complaint,
    Get,
    Inherit,
    Outcome,
    SetField,
};
use crate::text::{copy_bytes, decimal, push_bytes, push_decimal, push_text};
use crate::values::func::{Func, FuncView};
use crate::values::obj::{inherited, ClassView, Heap, HeapView, InstanceView};
use crate::values::values::{Message, Piece, PieceView, Value, ValueView};
use crate::vm::state::{State, StateView};

verus! {

/// The message of an error at a place in the source: the line, a caret,
/// then `text` and, between backquotes, `subject`.
pub open spec fn located_message(
    line: usize,
    line_contents: Seq<u8>,
    text: Seq<u8>,
    subject: PieceView,
) -> Seq<PieceView> {
    seq![
        PieceView::Text(
            "\nLine ".spec_bytes() + decimal(line as nat) + ": ".spec_bytes() + line_contents
                + "\n          ^\n          -------- ".spec_bytes() + text + " `".spec_bytes(),
        ),
        subject,
        PieceView::Text("`\n".spec_bytes()),
    ]
}

/// `subject`, a separator and `name`.
pub open spec fn joined_shown(subject: PieceView, separator: Seq<u8>, name: PieceView) -> Seq<
    PieceView,
> {
    seq![subject, PieceView::Text(separator), name]
}

/// The complaint `fault` at a place in the source.
pub open spec fn located_complaint(
    fault: RuntimeFault,
    line: usize,
    line_contents: Seq<u8>,
    text: Seq<u8>,
    subject: PieceView,
    what: Seq<PieceView>,
) -> Complaint {
    Complaint { fault, message: located_message(line, line_contents, text, subject), what }
}

/// An error at a place in the source.
fn located(
    kind: RuntimeFault,
    line: usize,
    line_contents: &[u8],
    text: &str,
    subject: Piece,
    what: Message,
) -> (r: InstructionErr)
    ensures
        raised(
            located_complaint(kind, line, line_contents@, text.spec_bytes(), subject@, what@),
            r,
        ),
{
    let mut head: Vec<u8> = Vec::new();
    push_text(&mut head, "\nLine ");
    push_decimal(&mut head, line);
    push_text(&mut head, ": ");
    push_bytes(&mut head, line_contents);
    push_text(&mut head, "\n          ^\n          -------- ");
    push_text(&mut head, text);
    push_text(&mut head, " `");
    let mut message = Message::new();
    message.bytes(head.as_slice());
    message.push(subject);
    message.text("`\n");
    assert(message@ =~= located_message(line, line_contents@, text.spec_bytes(), subject@));
    InstructionErr::new(kind, message, what)
}

/// `subject`, a separator and `name`.
fn joined(subject: Piece, separator: &str, name: Piece) -> (r: Message)
    ensures
        r@ == joined_shown(subject@, separator.spec_bytes(), name@),
{
    let mut what = Message::new();
    what.push(subject);
    what.text(separator);
    what.push(name);
    assert(what@ =~= joined_shown(subject@, separator.spec_bytes(), name@));
    what
}

impl HeapView {
    /// The heap after the field `name` of the instance at `instance` has
    /// been given the value `value`.
    pub open spec fn with_field(self, instance: usize, name: Seq<u8>, value: ValueView) -> HeapView {
        HeapView {
            instances: self.instances.update(
                instance as int,
                InstanceView {
                    class: self.instances[instance as int].class,
                    fields: self.instances[instance as int].fields.insert(name, value),
                },
            ),
            ..self
        }
    }

    /// The function of the method `name` of the class at `class`, where
    /// the class has it.
    pub open spec fn method(self, class: usize, name: Seq<u8>) -> Option<usize> {
        if class < self.classes.len() && self.classes[class as int].methods.contains_key(name) {
            match self.classes[class as int].methods[name] {
                ValueView::Func(f) => Some(f),
                _ => None,
            }
        } else {
            None
        }
    }

    /// The heap after the class at `child` has taken over the methods of
    /// the class at `parent` that it does not define itself.
    pub open spec fn with_parent(self, child: usize, parent: usize) -> HeapView {
        HeapView {
            classes: self.classes.update(
                child as int,
                ClassView {
                    name: self.classes[child as int].name,
                    methods: inherited(
                        self.classes[child as int].methods,
                        self.classes[parent as int].methods,
                    ),
                },
            ),
            ..self
        }
    }
}

impl Heap {
    /// Gives the field `name` of the instance at `instance` the value `value`.
    pub fn set_prop(&mut self, instance: usize, name: Vec<u8>, value: Value)
        requires
            old(self).wf(),
            instance < old(self)@.instances.len(),
        ensures
            final(self).wf(),
            final(self)@ == old(self)@.with_field(instance, name@, value@),
    {
        assert(self.instances[instance as int].wf());
        let ghost before = self.instances[instance as int]@;
        assert(before == old(self)@.instances[instance as int]);
        self.instances[instance].set_prop(name, value);
        assert(self@.instances =~= old(self)@.instances.update(
            instance as int,
            InstanceView { class: before.class, fields: before.fields.insert(name@, value@) },
        ));
        assert(self@.classes =~= old(self)@.classes);
        assert(self@.natives =~= old(self)@.natives);
    }

    /// The function of the method `name` of the class at `class`.
    pub fn get_method(&self, class: usize, name: &[u8]) -> (r: Option<usize>)
        requires
            self.wf(),
        ensures
            r == self@.method(class, name@),
    {
        if class >= self.classes.len() {
            return None;
        }
        assert(self.classes[class as int].wf());
        assert(self@.classes[class as int] == self.classes[class as int]@);
        match self.classes[class].get_method(name) {
            Some(Value::Func(f)) => Some(f),
            _ => None,
        }
    }

    /// Makes the class at `child` inherit from the class at `parent`.
    pub fn inherit(&mut self, child: usize, parent: usize)
        requires
            old(self).wf(),
            child < old(self)@.classes.len(),
            parent < old(self)@.classes.len(),
        ensures
            final(self).wf(),
            final(self)@ == old(self)@.with_parent(child, parent),
    {
        assert(self.classes[parent as int].wf());
        assert(self.classes[child as int].wf());
        let ghost parent_view = self.classes[parent as int]@;
        let ghost child_view = self.classes[child as int]@;
        assert(parent_view == old(self)@.classes[parent as int]);
        assert(child_view == old(self)@.classes[child as int]);
        let methods = self.classes[parent].methods.copy();
        self.classes[child].inherit(&methods);
        assert(self@.classes =~= old(self)@.classes.update(
            child as int,
            ClassView {
                name: child_view.name,
                methods: inherited(child_view.methods, parent_view.methods),
            },
        ));
        assert(self@.instances =~= old(self)@.instances);
        assert(self@.natives =~= old(self)@.natives);
    }
}

impl SetField {
    /// The complaint about a write to a value that is no instance.
    pub open spec fn complaint(
        property: Seq<u8>,
        line: usize,
        line_contents: Seq<u8>,
        target: PieceView,
    ) -> Complaint {
        located_complaint(
            RuntimeFault::NotAnObject,
            line,
            line_contents,
            "The dot notation is only supported for instances of classes, not".spec_bytes(),
            target,
            joined_shown(target, ".".spec_bytes(), PieceView::Text(property)),
        )
    }

    /// The value on top of the stack becomes the field `property` of the
    /// instance under it; both leave the stack and the value is pushed
    /// again. On a fault the state stays as it was.
    pub open spec fn effect(
        property: Seq<u8>,
        line: usize,
        line_contents: Seq<u8>,
        functions: Seq<FuncView>,
        state: StateView,
    ) -> Outcome {
        let n = state.stack.len();
        if n < 2 {
            failed(
                state,
                RuntimeFault::Corrupt,
                "No operands on the stack".spec_bytes(),
                "OP_SET".spec_bytes(),
            )
        } else {
            match state.stack[n - 2] {
                ValueView::Instance(i) => if i >= state.heap.instances.len() {
                    failed(
                        state,
                        RuntimeFault::Corrupt,
                        "No such instance".spec_bytes(),
                        "OP_SET".spec_bytes(),
                    )
                } else {
                    proceed(
                        StateView {
                            stack: state.stack.subrange(0, n - 2).push(state.stack[n - 1]),
                            heap: state.heap.with_field(i, property, state.stack[n - 1]),
                            ..state
                        },
                    )
                },
                target => complained(
                    state,
                    Self::complaint(
                        property,
                        line,
                        line_contents,
                        target.shown(functions, state.heap),
                    ),
                ),
            }
        }
    }

    /// Runs the instruction on `state`, as `effect` describes.
    pub fn eval(&self, functions: &Vec<Func>, state: &mut State) -> (r: Result<
        usize,
        InstructionErr,
    >)
        requires
            old(state).wf(),
        ensures
            final(state).wf(),
            carried_out(
                Self::effect(
                    self.property@,
                    self.line,
                    self.line_contents@,
                    functions.deep_view(),
                    old(state)@,
                ),
                final(state)@,
                r,
            ),
    {
        let depth = state.depth();
        if depth < 2 {
            return Err(fault(RuntimeFault::Corrupt, "No operands on the stack", "OP_SET"));
        }
        match &state.stack[depth - 2] {
            Value::Instance(i) => {
                let i = *i;
                if i >= state.heap.instances.len() {
                    return Err(fault(RuntimeFault::Corrupt, "No such instance", "OP_SET"));
                }
                let value = state.at(depth - 1);
                let pushed = state.at(depth - 1);
                state.heap.set_prop(i, copy_bytes(self.property.as_slice()), value);
                state.drop(2);
                state.push(pushed);
                Ok(0)
            },
            other => {
                let what = joined(
                    other.display(functions, &state.heap),
                    ".",
                    Piece::Text(copy_bytes(self.property.as_slice())),
                );
                Err(
                    located(
                        RuntimeFault::NotAnObject,
                        self.line,
                        self.line_contents.as_slice(),
                        "The dot notation is only supported for instances of classes, not",
                        other.display(functions, &state.heap),
                        what,
                    ),
                )
            },
        }
    }
}

impl Get {
    /// What reading `property` from `target` gives: a field of an
    /// instance, or a method of its class bound to it; a method of a class;
    /// or the fault.
    pub open spec fn read(property: Seq<u8>, target: ValueView, heap: HeapView) -> Result<
        ValueView,
        RuntimeFault,
    > {
        match target {
            ValueView::Instance(i) => match heap.property(i, property) {
                Some(value) => Ok(value),
                None => Err(RuntimeFault::UnknownProperty),
            },
            ValueView::Class(c) => match heap.method(c, property) {
                Some(f) => Ok(ValueView::ClassMethod(f)),
                None => Err(RuntimeFault::UnknownProperty),
            },
            _ => Err(RuntimeFault::NotAnObject),
        }
    }

    /// The complaint about a read of `property` from `target` that fails.
    pub open spec fn complaint(
        property: Seq<u8>,
        line: usize,
        line_contents: Seq<u8>,
        target: ValueView,
        functions: Seq<FuncView>,
        heap: HeapView,
    ) -> Complaint {
        let what = joined_shown(
            target.shown(functions, heap),
            ".".spec_bytes(),
            PieceView::Text(property),
        );
        match target {
            ValueView::Instance(_) => located_complaint(
                RuntimeFault::UnknownProperty,
                line,
                line_contents,
                "The instance has no property".spec_bytes(),
                PieceView::Text(property),
                what,
            ),
            ValueView::Class(_) => located_complaint(
                RuntimeFault::UnknownProperty,
                line,
                line_contents,
                "The class has no method".spec_bytes(),
                PieceView::Text(property),
                what,
            ),
            _ => located_complaint(
                RuntimeFault::NotAnObject,
                line,
                line_contents,
                "Property accesses only supported for classes & instances not".spec_bytes(),
                target.shown(functions, heap),
                what,
            ),
        }
    }

    /// The top of the stack is replaced by its property `property`. On a
    /// fault the state stays as it was.
    pub open spec fn effect(
        property: Seq<u8>,
        line: usize,
        line_contents: Seq<u8>,
        functions: Seq<FuncView>,
        state: StateView,
    ) -> Outcome {
        if state.stack.len() == 0 {
            failed(
                state,
                RuntimeFault::Corrupt,
                "No operand on the stack".spec_bytes(),
                "OP_GET".spec_bytes(),
            )
        } else {
            match Self::read(property, state.stack.last(), state.heap) {
                Ok(value) => proceed(
                    StateView { stack: state.stack.drop_last().push(value), ..state },
                ),
                Err(_) => complained(
                    state,
                    Self::complaint(
                        property,
                        line,
                        line_contents,
                        state.stack.last(),
                        functions,
                        state.heap,
                    ),
                ),
            }
        }
    }

    /// The error for a read from `target` that fails.
    fn refuse(&self, kind: RuntimeFault, text: &str, subject: Piece, target: &Value, functions: &Vec<Func>, heap: &Heap) -> (r:
        InstructionErr)
        ensures
            raised(
                located_complaint(
                    kind,
                    self.line,
                    self.line_contents@,
                    text.spec_bytes(),
                    subject@,
                    joined_shown(
                        target@.shown(functions.deep_view(), heap@),
                        ".".spec_bytes(),
                        PieceView::Text(self.property@),
                    ),
                ),
                r,
            ),
    {
        let what = joined(
            target.display(functions, heap),
            ".",
            Piece::Text(copy_bytes(self.property.as_slice())),
        );
        located(kind, self.line, self.line_contents.as_slice(), text, subject, what)
    }

    /// Runs the instruction on `state`, as `effect` describes.
    pub fn eval(&self, functions: &Vec<Func>, state: &mut State) -> (r: Result<
        usize,
        InstructionErr,
    >)
        requires
            old(state).wf(),
        ensures
            final(state).wf(),
            carried_out(
                Self::effect(
                    self.property@,
                    self.line,
                    self.line_contents@,
                    functions.deep_view(),
                    old(state)@,
                ),
                final(state)@,
                r,
            ),
    {
        let depth = state.depth();
        if depth == 0 {
            return Err(fault(RuntimeFault::Corrupt, "No operand on the stack", "OP_GET"));
        }
        let target = &state.stack[depth - 1];
        let found = match target {
            Value::Instance(i) => match state.heap.get_prop(*i, self.property.as_slice()) {
                Some(value) => value,
                None => {
                    return Err(
                        self.refuse(
                            RuntimeFault::UnknownProperty,
                            "The instance has no property",
                            Piece::Text(copy_bytes(self.property.as_slice())),
                            target,
                            functions,
                            &state.heap,
                        ),
                    );
                },
            },
            Value::Class(c) => match state.heap.get_method(*c, self.property.as_slice()) {
                Some(f) => Value::ClassMethod(f),
                None => {
                    return Err(
                        self.refuse(
                            RuntimeFault::UnknownProperty,
                            "The class has no method",
                            Piece::Text(copy_bytes(self.property.as_slice())),
                            target,
                            functions,
                            &state.heap,
                        ),
                    );
                },
            },
            other => {
                return Err(
                    self.refuse(
                        RuntimeFault::NotAnObject,
                        "Property accesses only supported for classes & instances not",
                        other.display(functions, &state.heap),
                        other,
                        functions,
                        &state.heap,
                    ),
                );
            },
        };
        state.put(depth - 1, found);
        assert(state@.stack =~= old(state)@.stack.drop_last().push(found@));
        Ok(0)
    }
}

impl Inherit {
    /// The complaint about a parent or a child that is no class.
    pub open spec fn complaint(
        fault: RuntimeFault,
        line: usize,
        line_contents: Seq<u8>,
        child: PieceView,
        parent: PieceView,
    ) -> Complaint {
        let what = joined_shown(child, " < ".spec_bytes(), parent);
        match fault {
            RuntimeFault::ChildNotClass => located_complaint(
                fault,
                line,
                line_contents,
                "Invalid inherit target: only class can inherit from classes, not".spec_bytes(),
                child,
                what,
            ),
            _ => located_complaint(
                fault,
                line,
                line_contents,
                "Can only inherit from classes, not".spec_bytes(),
                parent,
                what,
            ),
        }
    }

    /// The parent is on top of the stack and leaves it; the child is the
    /// value of the variable `ident`, read after the parent has left. Where
    /// both are classes, the child takes over the parent's methods that it
    /// does not define itself. On a fault the state stays as it was.
    pub open spec fn effect(
        target: DefinitionScope,
        ident: Seq<u8>,
        line: usize,
        line_contents: Seq<u8>,
        functions: Seq<FuncView>,
        state: StateView,
        offset: usize,
    ) -> Outcome {
        if state.stack.len() == 0 {
            failed(
                state,
                RuntimeFault::Corrupt,
                "No parent on the stack".spec_bytes(),
                "OP_INHERIT".spec_bytes(),
            )
        } else {
            let rest = StateView { stack: state.stack.drop_last(), ..state };
            match variable(target, ident, rest, offset) {
                Err(_) => complained(
                    state,
                    variable_complaint(target, ident, "OP_INHERIT".spec_bytes()),
                ),
                Ok(child) => match state.stack.last() {
                    ValueView::Class(p) => match child {
                        ValueView::Class(c) => if p < state.heap.classes.len() && c
                            < state.heap.classes.len() {
                            proceed(StateView { heap: state.heap.with_parent(c, p), ..rest })
                        } else {
                            failed(
                                state,
                                RuntimeFault::Corrupt,
                                "No such class".spec_bytes(),
                                "OP_INHERIT".spec_bytes(),
                            )
                        },
                        _ => complained(
                            state,
                            Self::complaint(
                                RuntimeFault::ChildNotClass,
                                line,
                                line_contents,
                                child.shown(functions, state.heap),
                                state.stack.last().shown(functions, state.heap),
                            ),
                        ),
                    },
                    _ => complained(
                        state,
                        Self::complaint(
                            RuntimeFault::ParentNotClass,
                            line,
                            line_contents,
                            child.shown(functions, state.heap),
                            state.stack.last().shown(functions, state.heap),
                        ),
                    ),
                },
            }
        }
    }

    /// Runs the instruction on `state`, as `effect` describes.
    pub fn eval(&self, functions: &Vec<Func>, state: &mut State, offset: usize) -> (r: Result<
        usize,
        InstructionErr,
    >)
        requires
            old(state).wf(),
        ensures
            final(state).wf(),
            carried_out(
                Self::effect(
                    self.target,
                    self.ident@,
                    self.line,
                    self.line_contents@,
                    functions.deep_view(),
                    old(state)@,
                    offset,
                ),
                final(state)@,
                r,
            ),
    {
        let depth = state.depth();
        if depth == 0 {
            return Err(fault(RuntimeFault::Corrupt, "No parent on the stack", "OP_INHERIT"));
        }
        let parent = state.at(depth - 1);
        let ghost rest = StateView { stack: old(state)@.stack.drop_last(), ..old(state)@ };
        let child = match self.target {
            DefinitionScope::Local(i) => {
                if i < depth - 1 && offset < depth - 1 - i {
                    state.at(i + offset)
                } else {
                    return Err(fault(RuntimeFault::Corrupt, "No such slot on the stack", "OP_INHERIT"));
                }
            },
            _ => match state.read(self.target, self.ident.as_slice(), offset, "OP_INHERIT") {
                Err(e) => {
                    return Err(e);
                },
                Ok(child) => child,
            },
        };
        assert(variable(self.target, self.ident@, rest, offset) == Ok::<ValueView, RuntimeFault>(
            child@,
        ));
        match parent {
            Value::Class(p) => match child {
                Value::Class(c) => {
                    if p >= state.heap.classes.len() || c >= state.heap.classes.len() {
                        return Err(fault(RuntimeFault::Corrupt, "No such class", "OP_INHERIT"));
                    }
                    state.heap.inherit(c, p);
                    state.drop(1);
                    assert(state@.stack =~= rest.stack);
                    Ok(0)
                },
                _ => {
                    let what = joined(
                        child.display(functions, &state.heap),
                        " < ",
                        parent.display(functions, &state.heap),
                    );
                    Err(
                        located(
                            RuntimeFault::ChildNotClass,
                            self.line,
                            self.line_contents.as_slice(),
                            "Invalid inherit target: only class can inherit from classes, not",
                            child.display(functions, &state.heap),
                            what,
                        ),
                    )
                },
            },
            _ => {
                let what = joined(
                    child.display(functions, &state.heap),
                    " < ",
                    parent.display(functions, &state.heap),
                );
                Err(
                    located(
                        RuntimeFault::ParentNotClass,
                        self.line,
                        self.line_contents.as_slice(),
                        "Can only inherit from classes, not",
                        parent.display(functions, &state.heap),
                        what,
                    ),
                )
            },
        }
    }
}

} // verus!
