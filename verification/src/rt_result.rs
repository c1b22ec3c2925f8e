use vstd::prelude::*;

use crate::pointer::Pointer;

verus! {

/// The uniform outcome of every native function: success carrying a payload
/// pointer, an error carrying an OS-level error code, or the empty result used
/// for absence (a missing variable, unparsable text, an exhausted cursor).
/// There is never a fourth state, and absence is distinct from failure.
#[derive(Clone, Copy, PartialEq, Eq, Structural, Debug)]
pub enum RtResult {
    Success(Pointer),
    Failure(i64),
    Empty,
}

} // verus!
