//! Native execution core of a lightweight-process runtime.
//!
//! The crate models the three inseparable pieces of the runtime's native
//! boundary: the heap value/ownership model for the objects that cross it
//! (strings, byte buffers, arrays of tagged pointers), the tri-state result
//! channel every native function answers through, and the scheduler with its
//! blocking bridge that keeps worker threads free while a process waits on
//! the operating system.

pub mod child;
pub mod env;
pub mod globals;
pub mod heap;
pub mod pointer;
pub mod rt_result;
pub mod sched;
pub mod state;
pub mod strings;
