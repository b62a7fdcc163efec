//! The binary operators.
use vstd::prelude::*;
use vstd::string::*;
use crate::instructions::err::{InstructionErr, RuntimeFault};
use crate::instructions::instructions::{
    carried_out,
    complained,
    failed,
    fault,
    proceed,
    raised,
    said,
    Binary,
    BinaryOp,
    Complaint,
    Outcome,
};
use crate::text::{copy_bytes, push_bytes};
use crate::values::func::{Func, FuncView};
use crate::values::number::bits_less;
use crate::values::obj::{Heap, HeapView};
use crate::values::values::{Value, ValueView};
use crate::vm::state::{Request, RequestView, State, StateView};

verus! {

/// What an operator yields, as contracts see it.
pub enum YieldView {
    Value(ValueView),
    Ask(RequestView),
}

/// What an operator yields: a value, or a question to the driver whose
/// answer is the value.
#[derive(Debug)]
pub enum Yield {
    Value(Value),
    Ask(Request),
}

impl View for Yield {
    type V = YieldView;

    open spec fn view(&self) -> YieldView {
        match *self {
            Yield::Value(v) => YieldView::Value(v@),
            Yield::Ask(r) => YieldView::Ask(r@),
        }
    }
}

impl BinaryOp {
    /// The operator as it is written.
    pub open spec fn symbol_text(self) -> Seq<char> {
        match self {
            BinaryOp::ADD => "+"@,
            BinaryOp::DIVIDE => "/"@,
            BinaryOp::MULTIPLY => "*"@,
            BinaryOp::SUBTRACT => "-"@,
            BinaryOp::EQUAL => "=="@,
            BinaryOp::GREATER => ">"@,
            BinaryOp::LESS => "<"@,
        }
    }

    /// The operator as it is written.
    pub fn symbol(self) -> (r: &'static str)
        ensures
            r@ == self.symbol_text(),
    {
        match self {
            BinaryOp::ADD => "+",
            BinaryOp::DIVIDE => "/",
            BinaryOp::MULTIPLY => "*",
            BinaryOp::SUBTRACT => "-",
            BinaryOp::EQUAL => "==",
            BinaryOp::GREATER => ">",
            BinaryOp::LESS => "<",
        }
    }

    /// The complaint about operands of the wrong type.
    pub open spec fn mismatch(self) -> Complaint {
        match self {
            BinaryOp::ADD => Complaint {
                fault: RuntimeFault::TypeMismatch,
                message: said(
                    "\"+\" can only be performed on 2 Numbers/Strings or used for string concatenation".spec_bytes(),
                ),
                what: said("\"+\"".spec_bytes()),
            },
            _ => Complaint {
                fault: RuntimeFault::TypeMismatch,
                message: said("The operator can only be performed on 2 Numbers".spec_bytes()),
                what: said(vstd::utf8::encode_utf8(self.symbol_text())),
            },
        }
    }
}

/// Whether `r` is what `expected` says: the yield, or the complaint of `op`.
pub open spec fn yielded(
    expected: Result<YieldView, RuntimeFault>,
    op: BinaryOp,
    r: Result<Yield, InstructionErr>,
) -> bool {
    match expected {
        Ok(y) => r is Ok && r->Ok_0@ == y,
        Err(_) => r is Err && raised(op.mismatch(), r->Err_0),
    }
}

impl Binary {
    /// `left + right`: the sum of two numbers is asked of the driver; two
    /// strings are joined; a number and a string are joined once the driver
    /// has written the number; anything else is a type error.
    pub open spec fn added(left: ValueView, right: ValueView) -> Result<YieldView, RuntimeFault> {
        match (left, right) {
            (ValueView::Number(l), ValueView::Number(r)) => Ok(
                YieldView::Ask(RequestView::Arithmetic(BinaryOp::ADD, l, r)),
            ),
            (ValueView::Number(l), ValueView::String(r)) => Ok(
                YieldView::Ask(RequestView::Format { number: l, text: r, number_first: true }),
            ),
            (ValueView::String(l), ValueView::Number(r)) => Ok(
                YieldView::Ask(RequestView::Format { number: r, text: l, number_first: false }),
            ),
            (ValueView::String(l), ValueView::String(r)) => Ok(
                YieldView::Value(ValueView::String(l + r)),
            ),
            _ => Err(RuntimeFault::TypeMismatch),
        }
    }

    /// `left op right` for `-`, `*` and `/`: asked of the driver when both
    /// are numbers, a type error otherwise.
    pub open spec fn computed(op: BinaryOp, left: ValueView, right: ValueView) -> Result<
        YieldView,
        RuntimeFault,
    > {
        match (left, right) {
            (ValueView::Number(l), ValueView::Number(r)) => Ok(
                YieldView::Ask(RequestView::Arithmetic(op, l, r)),
            ),
            _ => Err(RuntimeFault::TypeMismatch),
        }
    }

    /// `left < right`, for numbers only.
    pub open spec fn lesser(left: ValueView, right: ValueView) -> Result<YieldView, RuntimeFault> {
        match (left, right) {
            (ValueView::Number(l), ValueView::Number(r)) => Ok(
                YieldView::Value(ValueView::Bool(bits_less(l, r))),
            ),
            _ => Err(RuntimeFault::TypeMismatch),
        }
    }

    /// What `left op right` yields.
    pub open spec fn applied(
        op: BinaryOp,
        left: ValueView,
        right: ValueView,
        functions: Seq<FuncView>,
        heap: HeapView,
    ) -> Result<YieldView, RuntimeFault> {
        match op {
            BinaryOp::ADD => Self::added(left, right),
            BinaryOp::SUBTRACT | BinaryOp::MULTIPLY | BinaryOp::DIVIDE => Self::computed(
                op,
                left,
                right,
            ),
            BinaryOp::EQUAL => Ok(YieldView::Value(ValueView::Bool(left.same(right, functions, heap)))),
            BinaryOp::GREATER => Self::lesser(right, left),
            BinaryOp::LESS => Self::lesser(left, right),
        }
    }

    /// The two operands leave the stack, the right one from the top. A
    /// value that the operator yields is pushed; a question is left for
    /// the driver. On a fault the state stays as it was.
    pub open spec fn effect(op: BinaryOp, functions: Seq<FuncView>, state: StateView) -> Outcome {
        let n = state.stack.len();
        if n < 2 {
            failed(
                state,
                RuntimeFault::Corrupt,
                "No operands on the stack".spec_bytes(),
                "OP_BINARY".spec_bytes(),
            )
        } else {
            let rest = state.stack.subrange(0, n - 2);
            match Self::applied(op, state.stack[n - 2], state.stack[n - 1], functions, state.heap) {
                Ok(YieldView::Value(value)) => proceed(
                    StateView { stack: rest.push(value), ..state },
                ),
                Ok(YieldView::Ask(request)) => proceed(StateView { stack: rest, request, ..state }),
                Err(_) => complained(state, op.mismatch()),
            }
        }
    }

    /// The error for operands of the wrong type.
    fn type_error(&self) -> (r: InstructionErr)
        ensures
            raised(self.op.mismatch(), r),
    {
        match self.op {
            BinaryOp::ADD => fault(
                RuntimeFault::TypeMismatch,
                "\"+\" can only be performed on 2 Numbers/Strings or used for string concatenation",
                "\"+\"",
            ),
            _ => fault(
                RuntimeFault::TypeMismatch,
                "The operator can only be performed on 2 Numbers",
                self.op.symbol(),
            ),
        }
    }

    /// What `left + right` yields.
    pub fn eval_add(&self, left: &Value, right: &Value) -> (r: Result<Yield, InstructionErr>)
        ensures
            yielded(Self::added(left@, right@), self.op, r),
    {
        match (left, right) {
            (Value::Number(l), Value::Number(r)) => Ok(
                Yield::Ask(Request::Arithmetic(BinaryOp::ADD, *l, *r)),
            ),
            (Value::Number(l), Value::String(r)) => Ok(
                Yield::Ask(
                    Request::Format {
                        number: *l,
                        text: copy_bytes(r.as_slice()),
                        number_first: true,
                    },
                ),
            ),
            (Value::String(l), Value::Number(r)) => Ok(
                Yield::Ask(
                    Request::Format {
                        number: *r,
                        text: copy_bytes(l.as_slice()),
                        number_first: false,
                    },
                ),
            ),
            (Value::String(l), Value::String(r)) => {
                let mut joined = copy_bytes(l.as_slice());
                push_bytes(&mut joined, r.as_slice());
                Ok(Yield::Value(Value::String(joined)))
            },
            _ => Err(self.type_error()),
        }
    }

    /// `-`, `*` and `/`.
    fn eval_arithmetic(&self, left: &Value, right: &Value) -> (r: Result<Yield, InstructionErr>)
        ensures
            yielded(Self::computed(self.op, left@, right@), self.op, r),
    {
        match (left, right) {
            (Value::Number(l), Value::Number(r)) => Ok(
                Yield::Ask(Request::Arithmetic(self.op, *l, *r)),
            ),
            _ => Err(self.type_error()),
        }
    }

    fn eval_less(&self, left: &Value, right: &Value) -> (r: Result<Yield, InstructionErr>)
        ensures
            yielded(Self::lesser(left@, right@), self.op, r),
    {
        match (left, right) {
            (Value::Number(l), Value::Number(r)) => Ok(Yield::Value(Value::Bool(l.less(r)))),
            _ => Err(self.type_error()),
        }
    }

    fn eval_greater(&self, left: &Value, right: &Value) -> (r: Result<Yield, InstructionErr>)
        ensures
            yielded(Self::lesser(right@, left@), self.op, r),
    {
        self.eval_less(right, left)
    }

    /// What the operator yields on `left` and `right`.
    pub fn apply(&self, left: &Value, right: &Value, functions: &Vec<Func>, heap: &Heap) -> (r:
        Result<Yield, InstructionErr>)
        ensures
            yielded(
                Self::applied(self.op, left@, right@, functions.deep_view(), heap@),
                self.op,
                r,
            ),
    {
        match self.op {
            BinaryOp::ADD => self.eval_add(left, right),
            BinaryOp::SUBTRACT => self.eval_arithmetic(left, right),
            BinaryOp::MULTIPLY => self.eval_arithmetic(left, right),
            BinaryOp::DIVIDE => self.eval_arithmetic(left, right),
            BinaryOp::EQUAL => Ok(Yield::Value(Value::Bool(left.equals(right, functions, heap)))),
            BinaryOp::GREATER => self.eval_greater(left, right),
            BinaryOp::LESS => self.eval_less(left, right),
        }
    }

    /// Runs the instruction on `state`, as `effect` describes.
    pub fn eval(&self, functions: &Vec<Func>, state: &mut State) -> (r: Result<
        usize,
        InstructionErr,
    >)
        requires
            old(state).wf(),
        ensures
            final(state).wf(),
            carried_out(
                Self::effect(self.op, functions.deep_view(), old(state)@),
                final(state)@,
                r,
            ),
    {
        let depth = state.depth();
        if depth < 2 {
            return Err(fault(RuntimeFault::Corrupt, "No operands on the stack", "OP_BINARY"));
        }
        let result = match self.apply(
            &state.stack[depth - 2],
            &state.stack[depth - 1],
            functions,
            &state.heap,
        ) {
            Err(e) => {
                return Err(e);
            },
            Ok(result) => result,
        };
        state.drop(2);
        match result {
            Yield::Value(value) => {
                state.push(value);
            },
            Yield::Ask(request) => {
                state.ask(request);
            },
        }
        Ok(0)
    }
}

} // verus!
