use vstd::prelude::*;

use crate::env::Environment;
use crate::heap::Heap;
use crate::pointer::Pointer;

verus! {

/// The shared runtime state handed to every native function: the classes of
/// the permanent space that allocations are tagged with, the environment
/// snapshot taken at startup, the program arguments (as pointers to Strings
/// interned at startup), and the platform code. It is initialized once before
/// any worker starts and read-only from then on.
pub struct RtState {
    pub string_class: u64,
    pub byte_array_class: u64,
    pub array_class: u64,
    pub environment: Environment,
    pub arguments: Vec<Pointer>,
    pub platform: i64,
    pub windows: bool,
}

impl RtState {
    /// Every pointer the state holds refers to a live String of the heap.
    pub open spec fn wf(self, heap: Heap) -> bool {
        &&& forall|i: int|
            0 <= i < self.environment.vars@.len() ==> heap.is_str(
                #[trigger] self.environment.vars@[i].1,
            )
        &&& forall|i: int| 0 <= i < self.arguments@.len() ==> heap.is_str(#[trigger] self.arguments@[i])
    }
}

} // verus!
