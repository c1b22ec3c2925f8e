use vstd::prelude::*;

verus! {

/// A tagged reference as it crosses the native boundary: either an immediate
/// value (a small integer, one of the singletons) or a reference to a heap
/// object. `Handle` carries an opaque identifier for a native resource owned
/// outside the heap, such as a spawned child process.
#[derive(Clone, Copy, PartialEq, Eq, Structural, Debug)]
pub enum Pointer {
    Int(i64),
    True,
    False,
    Nil,
    Undefined,
    Ref(usize),
    Handle(u64),
}

} // verus!
