//! The tagged value that the operand stack, the tables and the constants hold.
use vstd::prelude::*;
use vstd::string::*;
use crate::instructions::err::RuntimeFault;
use crate::text::{bytes_eq, copy_bytes, push_bytes, push_text, text_bytes};
use crate::values::err::ValueErr;
use crate::values::func::{Func, FuncView};
use crate::values::number::{bits_equal, bits_zero, Number};
use crate::values::obj::{Heap, HeapView};

verus! {

/// A value as contracts see it: strings by their bytes, numbers by their
/// bits, and functions, classes and instances by their index in the tables
/// that own them.
pub enum ValueView {
    Number(u64),
    String(Seq<u8>),
    Nil,
    Bool(bool),
    Func(usize),
    Native(usize),
    Class(usize),
    Instance(usize),
    Method(usize, usize),
    ClassMethod(usize),
}

/// A Lox value. Functions, host functions, classes and instances are shared:
/// the value holds the index of the object, which lives in a table of the
/// program or of the machine. `Method` pairs a function with the instance it
/// was read from; `ClassMethod` is a function read from a class.
#[derive(Debug)]
pub enum Value {
    Number(Number),
    String(Vec<u8>),
    Nil,
    Bool(bool),
    Func(usize),
    Native(usize),
    Class(usize),
    Instance(usize),
    Method(usize, usize),
    ClassMethod(usize),
}

impl View for Value {
    type V = ValueView;

    open spec fn view(&self) -> ValueView {
        match *self {
            Value::Number(n) => ValueView::Number(n.bits),
            Value::String(s) => ValueView::String(s@),
            Value::Nil => ValueView::Nil,
            Value::Bool(b) => ValueView::Bool(b),
            Value::Func(f) => ValueView::Func(f),
            Value::Native(f) => ValueView::Native(f),
            Value::Class(c) => ValueView::Class(c),
            Value::Instance(i) => ValueView::Instance(i),
            Value::Method(f, i) => ValueView::Method(f, i),
            Value::ClassMethod(f) => ValueView::ClassMethod(f),
        }
    }
}

impl DeepView for Value {
    type V = ValueView;

    open spec fn deep_view(&self) -> ValueView {
        self@
    }
}

impl ValueView {
    /// The truth value that a condition sees in a value, where it has one:
    /// `nil` is false, a boolean is itself, a number is true unless it is a
    /// zero, a string is true. Functions, classes and instances have none.
    pub open spec fn truth(self) -> Option<bool> {
        match self {
            ValueView::Number(bits) => Some(!bits_zero(bits)),
            ValueView::String(_) => Some(true),
            ValueView::Nil => Some(false),
            ValueView::Bool(b) => Some(b),
            _ => None,
        }
    }
}

impl Value {
    /// A copy of the value.
    pub fn copy(&self) -> (r: Value)
        ensures
            r@ == self@,
    {
        match self {
            Value::Number(n) => Value::Number(*n),
            Value::String(s) => Value::String(copy_bytes(s.as_slice())),
            Value::Nil => Value::Nil,
            Value::Bool(b) => Value::Bool(*b),
            Value::Func(f) => Value::Func(*f),
            Value::Native(f) => Value::Native(*f),
            Value::Class(c) => Value::Class(*c),
            Value::Instance(i) => Value::Instance(*i),
            Value::Method(f, i) => Value::Method(*f, *i),
            Value::ClassMethod(f) => Value::ClassMethod(*f),
        }
    }

    /// The truth value of `self`, or `None` where it has none.
    pub fn is_truthy(&self) -> (r: Option<bool>)
        ensures
            r == self@.truth(),
    {
        match self {
            Value::Number(n) => Some(!n.is_zero()),
            Value::String(_) => Some(true),
            Value::Nil => Some(false),
            Value::Bool(b) => Some(*b),
            _ => None,
        }
    }
}

/// A stretch of rendered text as contracts see it.
pub enum PieceView {
    Text(Seq<u8>),
    Number(u64),
}

/// A stretch of rendered text: bytes, or a number that the driver writes the
/// way it writes doubles.
#[derive(Debug)]
pub enum Piece {
    Text(Vec<u8>),
    Number(Number),
}

impl View for Piece {
    type V = PieceView;

    open spec fn view(&self) -> PieceView {
        match *self {
            Piece::Text(t) => PieceView::Text(t@),
            Piece::Number(n) => PieceView::Number(n.bits),
        }
    }
}

impl DeepView for Piece {
    type V = PieceView;

    open spec fn deep_view(&self) -> PieceView {
        self@
    }
}

impl Piece {
    /// A copy.
    pub fn copy(&self) -> (r: Piece)
        ensures
            r@ == self@,
    {
        match self {
            Piece::Text(t) => Piece::Text(copy_bytes(t.as_slice())),
            Piece::Number(n) => Piece::Number(*n),
        }
    }
}

/// Rendered text: pieces to be written one after the other.
#[derive(Debug)]
pub struct Message {
    pub pieces: Vec<Piece>,
}

impl View for Message {
    type V = Seq<PieceView>;

    open spec fn view(&self) -> Seq<PieceView> {
        self.pieces.deep_view()
    }
}

impl Message {
    /// A new `Message`.
    pub fn new() -> (r: Message)
        ensures
            r@ == Seq::<PieceView>::empty(),
    {
        let r = Message { pieces: Vec::new() };
        assert(r@ =~= Seq::<PieceView>::empty());
        r
    }

    /// Appends a piece.
    pub fn push(&mut self, piece: Piece)
        ensures
            final(self)@ == old(self)@.push(piece@),
    {
        self.pieces.push(piece);
        assert(self@ =~= old(self)@.push(piece@));
    }

    /// Appends the bytes of a string literal.
    pub fn text(&mut self, text: &str)
        ensures
            final(self)@ == old(self)@.push(PieceView::Text(text.spec_bytes())),
    {
        let mut bytes: Vec<u8> = Vec::new();
        push_text(&mut bytes, text);
        assert(bytes@ =~= text.spec_bytes());
        self.push(Piece::Text(bytes));
    }

    /// Appends bytes.
    pub fn bytes(&mut self, bytes: &[u8])
        ensures
            final(self)@ == old(self)@.push(PieceView::Text(bytes@)),
    {
        self.push(Piece::Text(copy_bytes(bytes)));
    }

    /// Appends a decimal numeral.
    pub fn decimal(&mut self, n: usize)
        ensures
            final(self)@ == old(self)@.push(PieceView::Text(crate::text::decimal(n as nat))),
    {
        let mut bytes: Vec<u8> = Vec::new();
        crate::text::push_decimal(&mut bytes, n);
        assert(bytes@ =~= crate::text::decimal(n as nat));
        self.push(Piece::Text(bytes));
    }

    /// Appends the pieces of `other`.
    pub fn append(&mut self, other: &Message)
        ensures
            final(self)@ == old(self)@ + other@,
    {
        let mut i: usize = 0;
        while i < other.pieces.len()
            invariant
                i <= other.pieces.len(),
                self@ == old(self)@ + other@.subrange(0, i as int),
            decreases other.pieces.len() - i,
        {
            let p = other.pieces[i].copy();
            self.push(p);
            i += 1;
            assert(self@ =~= old(self)@ + other@.subrange(0, i as int));
        }
        assert(other@.subrange(0, i as int) =~= other@);
    }

    /// A copy.
    pub fn copy(&self) -> (r: Message)
        ensures
            r@ == self@,
    {
        let mut r = Message::new();
        r.append(self);
        assert(r@ =~= self@);
        r
    }

    /// A message of one text piece.
    pub fn from_text(text: &str) -> (r: Message)
        ensures
            r@ == seq![PieceView::Text(text.spec_bytes())],
    {
        let mut r = Message::new();
        r.text(text);
        assert(r@ =~= seq![PieceView::Text(text.spec_bytes())]);
        r
    }

    /// A message of one text piece.
    pub fn from_bytes(bytes: &[u8]) -> (r: Message)
        ensures
            r@ == seq![PieceView::Text(bytes@)],
    {
        let mut r = Message::new();
        r.bytes(bytes);
        assert(r@ =~= seq![PieceView::Text(bytes@)]);
        r
    }
}

/// The name of the function at `f`, or `?` where there is none.
pub open spec fn func_name(functions: Seq<FuncView>, f: usize) -> Seq<u8> {
    if f < functions.len() {
        functions[f as int].name
    } else {
        "?".spec_bytes()
    }
}

/// The arity of the function at `f`, or 0 where there is none.
pub open spec fn func_arity(functions: Seq<FuncView>, f: usize) -> usize {
    if f < functions.len() {
        functions[f as int].arity
    } else {
        0
    }
}

impl HeapView {
    /// The name of the host function at `n`, or `?` where there is none.
    pub open spec fn native_name(self, n: usize) -> Seq<u8> {
        if n < self.natives.len() {
            self.natives[n as int].name
        } else {
            "?".spec_bytes()
        }
    }

    /// The arity of the host function at `n`, or 0 where there is none.
    pub open spec fn native_arity(self, n: usize) -> usize {
        if n < self.natives.len() {
            self.natives[n as int].arity
        } else {
            0
        }
    }

    /// The name of the class at `c`, or `?` where there is none.
    pub open spec fn class_name(self, c: usize) -> Seq<u8> {
        if c < self.classes.len() {
            self.classes[c as int].name
        } else {
            "?".spec_bytes()
        }
    }

    /// The name of the class of the instance at `i`, or `?` where there is none.
    pub open spec fn instance_name(self, i: usize) -> Seq<u8> {
        if i < self.instances.len() {
            self.class_name(self.instances[i as int].class)
        } else {
            "?".spec_bytes()
        }
    }
}

/// The bytes that show an object: a tag and a name between angle brackets.
pub open spec fn tagged(tag: Seq<u8>, name: Seq<u8>) -> Seq<u8> {
    tag + name + ">".spec_bytes()
}

impl ValueView {
    /// How a value is written: a number as the driver writes doubles, a
    /// string as its bytes, `nil`, `true` and `false` as these words, and
    /// an object as its kind and name between angle brackets.
    pub open spec fn shown(self, functions: Seq<FuncView>, heap: HeapView) -> PieceView {
        match self {
            ValueView::Number(bits) => PieceView::Number(bits),
            ValueView::String(s) => PieceView::Text(s),
            ValueView::Nil => PieceView::Text("nil".spec_bytes()),
            ValueView::Bool(b) => PieceView::Text(
                if b {
                    "true".spec_bytes()
                } else {
                    "false".spec_bytes()
                },
            ),
            ValueView::Func(f) => PieceView::Text(
                tagged("<Fun ".spec_bytes(), func_name(functions, f)),
            ),
            ValueView::Method(f, _) => PieceView::Text(
                tagged("<Fun ".spec_bytes(), func_name(functions, f)),
            ),
            ValueView::ClassMethod(f) => PieceView::Text(
                tagged("<Fun ".spec_bytes(), func_name(functions, f)),
            ),
            ValueView::Native(n) => PieceView::Text(
                tagged("<Native Fun ".spec_bytes(), heap.native_name(n)),
            ),
            ValueView::Class(c) => PieceView::Text(
                tagged("<Class ".spec_bytes(), heap.class_name(c)),
            ),
            ValueView::Instance(i) => PieceView::Text(
                tagged("<Instance ".spec_bytes(), heap.instance_name(i)),
            ),
        }
    }

    /// Whether two functions are the same to `==`: they have one name and one arity.
    pub open spec fn same_func(functions: Seq<FuncView>, f: usize, g: usize) -> bool {
        func_name(functions, f) == func_name(functions, g) && func_arity(functions, f)
            == func_arity(functions, g)
    }

    /// Equality as `==` sees it. Values of different kinds are never equal.
    /// Numbers are compared as doubles and strings byte by byte. Functions
    /// and host functions are equal when their names and arities are,
    /// classes when their names are, instances when their classes' names
    /// are, and methods when their functions and instances are.
    pub open spec fn same(self, other: ValueView, functions: Seq<FuncView>, heap: HeapView) -> bool {
        match (self, other) {
            (ValueView::Number(a), ValueView::Number(b)) => bits_equal(a, b),
            (ValueView::String(a), ValueView::String(b)) => a == b,
            (ValueView::Nil, ValueView::Nil) => true,
            (ValueView::Bool(a), ValueView::Bool(b)) => a == b,
            (ValueView::Func(f), ValueView::Func(g)) => Self::same_func(functions, f, g),
            (ValueView::ClassMethod(f), ValueView::ClassMethod(g)) => Self::same_func(
                functions,
                f,
                g,
            ),
            (ValueView::Method(f, i), ValueView::Method(g, j)) => Self::same_func(functions, f, g)
                && heap.instance_name(i) == heap.instance_name(j),
            (ValueView::Native(m), ValueView::Native(n)) => heap.native_name(m)
                == heap.native_name(n) && heap.native_arity(m) == heap.native_arity(n),
            (ValueView::Class(c), ValueView::Class(d)) => heap.class_name(c) == heap.class_name(d),
            (ValueView::Instance(i), ValueView::Instance(j)) => heap.instance_name(i)
                == heap.instance_name(j),
            _ => false,
        }
    }
}

/// The message of the error for a value without a truth value.
pub open spec fn not_boolean_message(shown: PieceView) -> Seq<PieceView> {
    seq![shown, PieceView::Text(" can't be coerced into a boolean value".spec_bytes())]
}

/// The name of the function at `f`.
pub fn name_of_func(functions: &Vec<Func>, f: usize) -> (r: Vec<u8>)
    ensures
        r@ == func_name(functions.deep_view(), f),
{
    if f < functions.len() {
        copy_bytes(functions[f].name.as_slice())
    } else {
        text_bytes("?")
    }
}

/// The arity of the function at `f`.
pub fn arity_of_func(functions: &Vec<Func>, f: usize) -> (r: usize)
    ensures
        r == func_arity(functions.deep_view(), f),
{
    if f < functions.len() {
        functions[f].arity
    } else {
        0
    }
}

impl Heap {
    /// The name of the host function at `n`.
    pub fn name_of_native(&self, n: usize) -> (r: Vec<u8>)
        ensures
            r@ == self@.native_name(n),
    {
        if n < self.natives.len() {
            copy_bytes(self.natives[n].name.as_slice())
        } else {
            text_bytes("?")
        }
    }

    /// The arity of the host function at `n`.
    pub fn arity_of_native(&self, n: usize) -> (r: usize)
        ensures
            r == self@.native_arity(n),
    {
        if n < self.natives.len() {
            self.natives[n].arity
        } else {
            0
        }
    }

    /// The name of the class at `c`.
    pub fn name_of_class(&self, c: usize) -> (r: Vec<u8>)
        ensures
            r@ == self@.class_name(c),
    {
        if c < self.classes.len() {
            copy_bytes(self.classes[c].name.as_slice())
        } else {
            text_bytes("?")
        }
    }

    /// The name of the class of the instance at `i`.
    pub fn name_of_instance(&self, i: usize) -> (r: Vec<u8>)
        ensures
            r@ == self@.instance_name(i),
    {
        if i < self.instances.len() {
            self.name_of_class(self.instances[i].class)
        } else {
            text_bytes("?")
        }
    }
}

/// A tag, a name and a closing angle bracket.
fn tag_name(tag: &str, name: Vec<u8>) -> (r: Piece)
    ensures
        r@ == PieceView::Text(tagged(tag.spec_bytes(), name@)),
{
    let mut out: Vec<u8> = Vec::new();
    push_text(&mut out, tag);
    push_bytes(&mut out, name.as_slice());
    push_text(&mut out, ">");
    assert(out@ =~= tagged(tag.spec_bytes(), name@));
    Piece::Text(out)
}

impl Value {
    /// The value as it is written.
    pub fn display(&self, functions: &Vec<Func>, heap: &Heap) -> (r: Piece)
        ensures
            r@ == self@.shown(functions.deep_view(), heap@),
    {
        match self {
            Value::Number(n) => Piece::Number(*n),
            Value::String(s) => Piece::Text(copy_bytes(s.as_slice())),
            Value::Nil => Piece::Text(text_bytes("nil")),
            Value::Bool(b) => if *b {
                Piece::Text(text_bytes("true"))
            } else {
                Piece::Text(text_bytes("false"))
            },
            Value::Func(f) => tag_name("<Fun ", name_of_func(functions, *f)),
            Value::Method(f, _) => tag_name("<Fun ", name_of_func(functions, *f)),
            Value::ClassMethod(f) => tag_name("<Fun ", name_of_func(functions, *f)),
            Value::Native(n) => tag_name("<Native Fun ", heap.name_of_native(*n)),
            Value::Class(c) => tag_name("<Class ", heap.name_of_class(*c)),
            Value::Instance(i) => tag_name("<Instance ", heap.name_of_instance(*i)),
        }
    }

    /// Whether the functions at `f` and `g` have one name and one arity.
    fn funcs_equal(functions: &Vec<Func>, f: usize, g: usize) -> (r: bool)
        ensures
            r == ValueView::same_func(functions.deep_view(), f, g),
    {
        let a = name_of_func(functions, f);
        let b = name_of_func(functions, g);
        bytes_eq(a.as_slice(), b.as_slice()) && arity_of_func(functions, f) == arity_of_func(
            functions,
            g,
        )
    }

    /// `self == other` as the language defines it.
    pub fn equals(&self, other: &Value, functions: &Vec<Func>, heap: &Heap) -> (r: bool)
        ensures
            r == self@.same(other@, functions.deep_view(), heap@),
    {
        match (self, other) {
            (Value::Number(a), Value::Number(b)) => a.equals(b),
            (Value::String(a), Value::String(b)) => bytes_eq(a.as_slice(), b.as_slice()),
            (Value::Nil, Value::Nil) => true,
            (Value::Bool(a), Value::Bool(b)) => *a == *b,
            (Value::Func(f), Value::Func(g)) => Self::funcs_equal(functions, *f, *g),
            (Value::ClassMethod(f), Value::ClassMethod(g)) => Self::funcs_equal(functions, *f, *g),
            (Value::Method(f, i), Value::Method(g, j)) => {
                let a = heap.name_of_instance(*i);
                let b = heap.name_of_instance(*j);
                Self::funcs_equal(functions, *f, *g) && bytes_eq(a.as_slice(), b.as_slice())
            },
            (Value::Native(m), Value::Native(n)) => {
                let a = heap.name_of_native(*m);
                let b = heap.name_of_native(*n);
                bytes_eq(a.as_slice(), b.as_slice()) && heap.arity_of_native(*m)
                    == heap.arity_of_native(*n)
            },
            (Value::Class(c), Value::Class(d)) => {
                let a = heap.name_of_class(*c);
                let b = heap.name_of_class(*d);
                bytes_eq(a.as_slice(), b.as_slice())
            },
            (Value::Instance(i), Value::Instance(j)) => {
                let a = heap.name_of_instance(*i);
                let b = heap.name_of_instance(*j);
                bytes_eq(a.as_slice(), b.as_slice())
            },
            _ => false,
        }
    }

    /// The truth value of `self`, or the error that it has none.
    pub fn truthy(&self, functions: &Vec<Func>, heap: &Heap) -> (r: Result<bool, ValueErr>)
        ensures
            r is Ok <==> self@.truth() is Some,
            r is Ok ==> Some(r->Ok_0) == self@.truth(),
            r is Err ==> {
                &&& r->Err_0.fault == RuntimeFault::NotBoolean
                &&& r->Err_0.message@ == not_boolean_message(
                    self@.shown(functions.deep_view(), heap@),
                )
                &&& r->Err_0.instruction_str@ == seq![self@.shown(functions.deep_view(), heap@)]
            },
    {
        match self.is_truthy() {
            Some(b) => Ok(b),
            None => {
                let mut message = Message::new();
                message.push(self.display(functions, heap));
                message.text(" can't be coerced into a boolean value");
                assert(message@ =~= not_boolean_message(
                    self@.shown(functions.deep_view(), heap@),
                ));
                let mut subject = Message::new();
                subject.push(self.display(functions, heap));
                assert(subject@ =~= seq![self@.shown(functions.deep_view(), heap@)]);
                Err(ValueErr::new(RuntimeFault::NotBoolean, message, subject))
            },
        }
    }
}

} // verus!
