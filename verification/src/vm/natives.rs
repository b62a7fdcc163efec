//! The functions that the host implements.
use vstd::prelude::*;
use vstd::string::*;
use crate::text::text_bytes;
use crate::values::func::{Native, NativeView};
use crate::values::obj::{Heap, HeapView};
use crate::values::values::{Value, ValueView};
use crate::vm::table::Table;

verus! {

/// The name of the host function that tells the time.
pub open spec fn clock_name() -> Seq<u8> {
    "clock".spec_bytes()
}

/// Makes the host functions known: `clock`, which takes no argument and
/// gives the number of milliseconds since the start of 1970, becomes a
/// host function of the heap and the value of the global `clock`.
pub fn load_natives(global: &mut Table, heap: &mut Heap)
    requires
        old(global).wf(),
        old(heap).wf(),
    ensures
        final(global).wf(),
        final(heap).wf(),
        final(heap)@ == (HeapView {
            natives: old(heap)@.natives.push(NativeView { name: clock_name(), arity: 0 }),
            ..old(heap)@
        }),
        final(global)@ == old(global)@.insert(
            clock_name(),
            ValueView::Native(old(heap)@.natives.len() as usize),
        ),
{
    let clock = heap.add_native(Native::new(text_bytes("clock"), 0));
    global.add(text_bytes("clock"), Value::Native(clock));
}

} // verus!
