use vstd::prelude::*;

use crate::heap::{clone_bytes, Heap, HeapValue};
use crate::pointer::Pointer;
use crate::rt_result::RtResult;

verus! {

/// How one standard stream of a child process is set up: dropped, inherited
/// from the runtime, or piped so the runtime can read or write it.
#[derive(Clone, Copy, PartialEq, Eq, Structural, Debug)]
pub enum StdioKind {
    Null,
    Inherit,
    Piped,
}

/// The stream mode a wire word selects.
pub open spec fn stdio_kind_of(value: i64) -> StdioKind {
    if value == 1 {
        StdioKind::Inherit
    } else if value == 2 {
        StdioKind::Piped
    } else {
        StdioKind::Null
    }
}

/// Decodes a stream-mode word: 1 inherits, 2 pipes, anything else is null.
pub fn stdio_for(value: i64) -> (r: StdioKind)
    ensures
        r == stdio_kind_of(value),
{
    if value == 1 {
        StdioKind::Inherit
    } else if value == 2 {
        StdioKind::Piped
    } else {
        StdioKind::Null
    }
}

/// Everything the operating system needs to spawn a child process, marshaled
/// out of the heap into plain values: the program, its arguments, the
/// environment pairs, the mode of each standard stream, and the working
/// directory (none when the caller passed an empty path).
pub struct SpawnRequest {
    pub program: Vec<u8>,
    pub args: Vec<Vec<u8>>,
    pub env_pairs: Vec<(Vec<u8>, Vec<u8>)>,
    pub stdin: StdioKind,
    pub stdout: StdioKind,
    pub stderr: StdioKind,
    pub directory: Option<Vec<u8>>,
}

/// Marshals a spawn call's arguments into a `SpawnRequest`. The environment
/// list alternates names and values and is paired off in order; the argument
/// constraints (String pointers, an even environment list) are the compiling
/// caller's to uphold.
pub fn inko_child_process_spawn(
    heap: &Heap,
    program: Pointer,
    args: &Vec<Pointer>,
    env: &Vec<Pointer>,
    stdin: i64,
    stdout: i64,
    stderr: i64,
    directory: Pointer,
) -> (r: SpawnRequest)
    requires
        heap.is_str(program),
        forall|i: int| 0 <= i < args@.len() ==> heap.is_str(#[trigger] args@[i]),
        forall|i: int| 0 <= i < env@.len() ==> heap.is_str(#[trigger] env@[i]),
        env@.len() % 2 == 0,
        heap.is_str(directory),
    ensures
        r.program@ == heap.str_bytes(program),
        r.args@.len() == args@.len(),
        forall|i: int| 0 <= i < args@.len() ==> (#[trigger] r.args@[i])@ == heap.str_bytes(
            args@[i],
        ),
        r.env_pairs@.len() == env@.len() / 2,
        forall|i: int|
            0 <= i < r.env_pairs@.len() ==> (#[trigger] r.env_pairs@[i]).0@ == heap.str_bytes(
                env@[2 * i],
            ) && r.env_pairs@[i].1@ == heap.str_bytes(env@[2 * i + 1]),
        r.stdin == stdio_kind_of(stdin),
        r.stdout == stdio_kind_of(stdout),
        r.stderr == stdio_kind_of(stderr),
        heap.str_bytes(directory).len() == 0 ==> r.directory is None,
        heap.str_bytes(directory).len() > 0 ==> (r.directory matches Some(d) && d@
            == heap.str_bytes(directory)),
{
    let program_bytes = match heap.read(program) {
        HeapValue::Str(b) => clone_bytes(b),
        _ => Vec::new(),
    };
    let mut arg_list: Vec<Vec<u8>> = Vec::new();
    let mut i: usize = 0;
    while i < args.len()
        invariant
            i <= args@.len(),
            forall|j: int| 0 <= j < args@.len() ==> heap.is_str(#[trigger] args@[j]),
            arg_list@.len() == i,
            forall|j: int| 0 <= j < i ==> (#[trigger] arg_list@[j])@ == heap.str_bytes(args@[j]),
        decreases args@.len() - i,
    {
        let a = match heap.read(args[i]) {
            HeapValue::Str(b) => clone_bytes(b),
            _ => Vec::new(),
        };
        arg_list.push(a);
        i = i + 1;
    }
    let mut env_pairs: Vec<(Vec<u8>, Vec<u8>)> = Vec::new();
    let mut k: usize = 0;
    while k + 1 < env.len()
        invariant
            k % 2 == 0,
            k <= env@.len(),
            env@.len() % 2 == 0,
            forall|j: int| 0 <= j < env@.len() ==> heap.is_str(#[trigger] env@[j]),
            env_pairs@.len() == k / 2,
            forall|j: int|
                0 <= j < env_pairs@.len() ==> (#[trigger] env_pairs@[j]).0@ == heap.str_bytes(
                    env@[2 * j],
                ) && env_pairs@[j].1@ == heap.str_bytes(env@[2 * j + 1]),
        decreases env@.len() - k,
    {
        let name = match heap.read(env[k]) {
            HeapValue::Str(b) => clone_bytes(b),
            _ => Vec::new(),
        };
        let value = match heap.read(env[k + 1]) {
            HeapValue::Str(b) => clone_bytes(b),
            _ => Vec::new(),
        };
        env_pairs.push((name, value));
        k = k + 2;
    }
    let dir_bytes = match heap.read(directory) {
        HeapValue::Str(b) => clone_bytes(b),
        _ => Vec::new(),
    };
    let dir = if dir_bytes.len() == 0 {
        None
    } else {
        Some(dir_bytes)
    };
    SpawnRequest {
        program: program_bytes,
        args: arg_list,
        env_pairs,
        stdin: stdio_for(stdin),
        stdout: stdio_for(stdout),
        stderr: stdio_for(stderr),
        directory: dir,
    }
}

/// What the runtime remembers of a spawned child: which standard streams were
/// piped and are still open. A stream that was not piped, or was closed, is
/// simply absent; operations on an absent stream succeed with nothing done.
#[derive(Clone, Copy, Debug)]
pub struct ChildModel {
    pub stdin_piped: bool,
    pub stdout_piped: bool,
    pub stderr_piped: bool,
}

/// The stream bookkeeping a fresh child starts with: exactly the streams the
/// request asked to pipe.
pub fn child_model(req: &SpawnRequest) -> (c: ChildModel)
    ensures
        c.stdin_piped == (req.stdin is Piped),
        c.stdout_piped == (req.stdout is Piped),
        c.stderr_piped == (req.stderr is Piped),
{
    ChildModel {
        stdin_piped: matches!(req.stdin, StdioKind::Piped),
        stdout_piped: matches!(req.stdout, StdioKind::Piped),
        stderr_piped: matches!(req.stderr, StdioKind::Piped),
    }
}

/// Encodes the outcome of the spawn itself: the handle of the new child on
/// success, the OS error code on failure.
pub fn spawn_result(outcome: Result<u64, i64>) -> (r: RtResult)
    ensures
        outcome matches Ok(id) ==> r == RtResult::Success(Pointer::Handle(id)),
        outcome matches Err(e) ==> r == RtResult::Failure(e),
{
    match outcome {
        Ok(id) => RtResult::Success(Pointer::Handle(id)),
        Err(e) => RtResult::Failure(e),
    }
}

/// Encodes the outcome of a blocking wait on a child: the exit code on
/// success (0 when the OS reports no code, as for a killed child), the OS
/// error code on failure.
pub fn inko_child_process_wait(outcome: Result<Option<i64>, i64>) -> (r: RtResult)
    ensures
        outcome matches Ok(Some(c)) ==> r == RtResult::Success(Pointer::Int(c)),
        outcome == Ok::<Option<i64>, i64>(None) ==> r == RtResult::Success(Pointer::Int(0)),
        outcome matches Err(e) ==> r == RtResult::Failure(e),
{
    match outcome {
        Ok(Some(c)) => RtResult::Success(Pointer::Int(c)),
        Ok(None) => RtResult::Success(Pointer::Int(0)),
        Err(e) => RtResult::Failure(e),
    }
}

/// Encodes the outcome of a non-blocking poll of a child: a child still
/// running yields the sentinel -1 as a successful value, an exited child its
/// exit code (0 when the OS reports none), and a failed poll the OS error
/// code. The poll produces the same result shape as the blocking wait.
pub fn inko_child_process_try_wait(outcome: Result<Option<Option<i64>>, i64>) -> (r: RtResult)
    ensures
        outcome == Ok::<Option<Option<i64>>, i64>(None) ==> r == RtResult::Success(
            Pointer::Int(-1i64),
        ),
        outcome matches Ok(Some(s)) ==> r == (match s {
            Some(c) => RtResult::Success(Pointer::Int(c)),
            None => RtResult::Success(Pointer::Int(0)),
        }),
        outcome matches Err(e) ==> r == RtResult::Failure(e),
{
    match outcome {
        Ok(None) => RtResult::Success(Pointer::Int(-1)),
        Ok(Some(Some(c))) => RtResult::Success(Pointer::Int(c)),
        Ok(Some(None)) => RtResult::Success(Pointer::Int(0)),
        Err(e) => RtResult::Failure(e),
    }
}

/// What a read of a piped stream did: the bytes that arrived, or the OS error
/// code of a true I/O failure.
pub type ReadOutcome = Result<Vec<u8>, i64>;

/// Appends what a read of the child's standard output produced to the
/// caller-owned byte buffer and answers with the byte count. An absent stream
/// (never piped, or closed) reads 0 bytes and touches nothing; a true I/O
/// failure is an error and also touches nothing.
pub fn inko_child_process_stdout_read(
    heap: &mut Heap,
    child: &ChildModel,
    buffer: Pointer,
    outcome: ReadOutcome,
) -> (r: RtResult)
    requires
        old(heap).is_bytes(buffer),
        outcome matches Ok(d) ==> d@.len() <= i64::MAX,
    ensures
        !child.stdout_piped ==> *final(heap) == *old(heap) && r == RtResult::Success(
            Pointer::Int(0),
        ),
        child.stdout_piped ==> (outcome matches Ok(d) ==> final(heap).is_bytes(buffer)
            && final(heap).buf_bytes(buffer) == old(heap).buf_bytes(buffer) + d@
            && r == RtResult::Success(Pointer::Int(d@.len() as i64))
            && final(heap).slots@.len() == old(heap).slots@.len()),
        child.stdout_piped ==> (outcome matches Err(e) ==> *final(heap) == *old(heap)
            && r == RtResult::Failure(e)),
{
    stream_read(heap, child.stdout_piped, buffer, outcome)
}

/// Appends what a read of the child's standard error produced to the
/// caller-owned byte buffer and answers with the byte count, exactly as the
/// standard-output read does.
pub fn inko_child_process_stderr_read(
    heap: &mut Heap,
    child: &ChildModel,
    buffer: Pointer,
    outcome: ReadOutcome,
) -> (r: RtResult)
    requires
        old(heap).is_bytes(buffer),
        outcome matches Ok(d) ==> d@.len() <= i64::MAX,
    ensures
        !child.stderr_piped ==> *final(heap) == *old(heap) && r == RtResult::Success(
            Pointer::Int(0),
        ),
        child.stderr_piped ==> (outcome matches Ok(d) ==> final(heap).is_bytes(buffer)
            && final(heap).buf_bytes(buffer) == old(heap).buf_bytes(buffer) + d@
            && r == RtResult::Success(Pointer::Int(d@.len() as i64))
            && final(heap).slots@.len() == old(heap).slots@.len()),
        child.stderr_piped ==> (outcome matches Err(e) ==> *final(heap) == *old(heap)
            && r == RtResult::Failure(e)),
{
    stream_read(heap, child.stderr_piped, buffer, outcome)
}

/// Shared body of the two stream reads.
fn stream_read(heap: &mut Heap, piped: bool, buffer: Pointer, outcome: ReadOutcome) -> (r:
    RtResult)
    requires
        old(heap).is_bytes(buffer),
        outcome matches Ok(d) ==> d@.len() <= i64::MAX,
    ensures
        !piped ==> *final(heap) == *old(heap) && r == RtResult::Success(Pointer::Int(0)),
        piped ==> (outcome matches Ok(d) ==> final(heap).is_bytes(buffer)
            && final(heap).buf_bytes(buffer) == old(heap).buf_bytes(buffer) + d@
            && r == RtResult::Success(Pointer::Int(d@.len() as i64))
            && final(heap).slots@.len() == old(heap).slots@.len()),
        piped ==> (outcome matches Err(e) ==> *final(heap) == *old(heap)
            && r == RtResult::Failure(e)),
{
    if !piped {
        return RtResult::Success(Pointer::Int(0));
    }
    match outcome {
        Ok(d) => {
            heap.append_bytes(buffer, &d);
            RtResult::Success(Pointer::Int(d.len() as i64))
        },
        Err(e) => RtResult::Failure(e),
    }
}

/// Encodes the outcome of writing a byte buffer to the child's standard
/// input: an absent stream writes 0 bytes as a success, a present stream
/// answers with the count the OS accepted, and a true I/O failure is an
/// error.
pub fn inko_child_process_stdin_write_bytes(child: &ChildModel, outcome: Result<i64, i64>) -> (r:
    RtResult)
    ensures
        !child.stdin_piped ==> r == RtResult::Success(Pointer::Int(0)),
        child.stdin_piped ==> (outcome matches Ok(n) ==> r == RtResult::Success(Pointer::Int(n))),
        child.stdin_piped ==> (outcome matches Err(e) ==> r == RtResult::Failure(e)),
{
    if !child.stdin_piped {
        return RtResult::Success(Pointer::Int(0));
    }
    match outcome {
        Ok(n) => RtResult::Success(Pointer::Int(n)),
        Err(e) => RtResult::Failure(e),
    }
}

/// Encodes the outcome of writing a String's bytes to the child's standard
/// input; the result shape is that of the byte-buffer write.
pub fn inko_child_process_stdin_write_string(child: &ChildModel, outcome: Result<i64, i64>) -> (r:
    RtResult)
    ensures
        !child.stdin_piped ==> r == RtResult::Success(Pointer::Int(0)),
        child.stdin_piped ==> (outcome matches Ok(n) ==> r == RtResult::Success(Pointer::Int(n))),
        child.stdin_piped ==> (outcome matches Err(e) ==> r == RtResult::Failure(e)),
{
    inko_child_process_stdin_write_bytes(child, outcome)
}

/// Encodes the outcome of flushing the child's standard input: a flush moves
/// no bytes of its own, so success — and an absent stream, which is not an
/// error — is a success carrying the byte count 0; only a true I/O failure
/// is an error with the OS code.
pub fn inko_child_process_stdin_flush(child: &ChildModel, outcome: Result<(), i64>) -> (r:
    RtResult)
    ensures
        !child.stdin_piped ==> r == RtResult::Success(Pointer::Int(0)),
        child.stdin_piped && outcome is Ok ==> r == RtResult::Success(Pointer::Int(0)),
        child.stdin_piped ==> (outcome matches Err(e) ==> r == RtResult::Failure(e)),
{
    if !child.stdin_piped {
        return RtResult::Success(Pointer::Int(0));
    }
    match outcome {
        Ok(_) => RtResult::Success(Pointer::Int(0)),
        Err(e) => RtResult::Failure(e),
    }
}

/// Drops the child's standard output stream without touching the rest of the
/// handle; closing an already absent stream changes nothing.
pub fn inko_child_process_stdout_close(child: &mut ChildModel)
    ensures
        !final(child).stdout_piped,
        final(child).stdin_piped == old(child).stdin_piped,
        final(child).stderr_piped == old(child).stderr_piped,
{
    child.stdout_piped = false;
}

/// Drops the child's standard error stream; closing twice changes nothing.
pub fn inko_child_process_stderr_close(child: &mut ChildModel)
    ensures
        !final(child).stderr_piped,
        final(child).stdin_piped == old(child).stdin_piped,
        final(child).stdout_piped == old(child).stdout_piped,
{
    child.stderr_piped = false;
}

/// Drops the child's standard input stream; closing twice changes nothing.
pub fn inko_child_process_stdin_close(child: &mut ChildModel)
    ensures
        !final(child).stdin_piped,
        final(child).stdout_piped == old(child).stdout_piped,
        final(child).stderr_piped == old(child).stderr_piped,
{
    child.stdin_piped = false;
}

} // verus!
