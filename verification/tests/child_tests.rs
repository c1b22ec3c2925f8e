use inko_rt::child::{
    child_model, inko_child_process_spawn, inko_child_process_stderr_read,
    inko_child_process_stdin_close, inko_child_process_stdin_flush,
    inko_child_process_stdin_write_bytes, inko_child_process_stdin_write_string,
    inko_child_process_stdout_close, inko_child_process_stdout_read, inko_child_process_try_wait,
    inko_child_process_wait, spawn_result, stdio_for, StdioKind,
};
use inko_rt::env::Environment;
use inko_rt::heap::{Heap, HeapValue};
use inko_rt::pointer::Pointer;
use inko_rt::rt_result::RtResult;
use inko_rt::state::RtState;
use inko_rt::strings::inko_string_new;

fn test_state() -> RtState {
    RtState {
        string_class: 1,
        byte_array_class: 2,
        array_class: 3,
        environment: Environment { vars: Vec::new() },
        arguments: Vec::new(),
        platform: 0,
        windows: false,
    }
}

fn intern(heap: &mut Heap, text: &str) -> Pointer {
    let state = test_state();
    inko_string_new(&state, heap, &text.as_bytes().to_vec())
}

fn buf_bytes_at(heap: &Heap, p: Pointer) -> Vec<u8> {
    match heap.read(p) {
        HeapValue::Bytes(b) => b.clone(),
        _ => panic!("expected a byte buffer object"),
    }
}

#[test]
fn stdio_wire_codes() {
    assert_eq!(stdio_for(0), StdioKind::Null);
    assert_eq!(stdio_for(1), StdioKind::Inherit);
    assert_eq!(stdio_for(2), StdioKind::Piped);
    assert_eq!(stdio_for(7), StdioKind::Null);
    assert_eq!(stdio_for(-3), StdioKind::Null);
}

#[test]
fn spawn_marshals_program_args_env_and_streams() {
    let mut heap = Heap::new();
    let program = intern(&mut heap, "echo");
    let a0 = intern(&mut heap, "hello");
    let k = intern(&mut heap, "KEY");
    let v = intern(&mut heap, "VALUE");
    let dir = intern(&mut heap, "");
    let req = inko_child_process_spawn(&heap, program, &vec![a0], &vec![k, v], 0, 2, 1, dir);
    assert_eq!(req.program, "echo".as_bytes().to_vec());
    assert_eq!(req.args, vec!["hello".as_bytes().to_vec()]);
    assert_eq!(
        req.env_pairs,
        vec![("KEY".as_bytes().to_vec(), "VALUE".as_bytes().to_vec())]
    );
    assert_eq!(req.stdin, StdioKind::Null);
    assert_eq!(req.stdout, StdioKind::Piped);
    assert_eq!(req.stderr, StdioKind::Inherit);
    assert_eq!(req.directory, None);

    let dir2 = intern(&mut heap, "/tmp");
    let req2 = inko_child_process_spawn(&heap, program, &Vec::new(), &Vec::new(), 2, 2, 2, dir2);
    assert_eq!(req2.directory, Some("/tmp".as_bytes().to_vec()));
    let model = child_model(&req2);
    assert!(model.stdin_piped && model.stdout_piped && model.stderr_piped);
}

#[test]
fn spawn_outcome_is_handle_or_error() {
    assert_eq!(spawn_result(Ok(42)), RtResult::Success(Pointer::Handle(42)));
    assert_eq!(spawn_result(Err(11)), RtResult::Failure(11));
}

#[test]
fn wait_maps_exit_codes_and_errors() {
    assert_eq!(inko_child_process_wait(Ok(Some(3))), RtResult::Success(Pointer::Int(3)));
    assert_eq!(inko_child_process_wait(Ok(None)), RtResult::Success(Pointer::Int(0)));
    assert_eq!(inko_child_process_wait(Err(5)), RtResult::Failure(5));
}

#[test]
fn try_wait_uses_the_running_sentinel() {
    assert_eq!(inko_child_process_try_wait(Ok(None)), RtResult::Success(Pointer::Int(-1)));
    assert_eq!(
        inko_child_process_try_wait(Ok(Some(Some(9)))),
        RtResult::Success(Pointer::Int(9))
    );
    assert_eq!(inko_child_process_try_wait(Ok(Some(None))), RtResult::Success(Pointer::Int(0)));
    assert_eq!(inko_child_process_try_wait(Err(2)), RtResult::Failure(2));
}

#[test]
fn child_writes_hello_and_closed_stdout_reads_zero() {
    // A child spawned with stdout piped writes "hello" and exits 0.
    let mut heap = Heap::new();
    let program = intern(&mut heap, "echo");
    let dir = intern(&mut heap, "");
    let req = inko_child_process_spawn(&heap, program, &Vec::new(), &Vec::new(), 0, 2, 0, dir);
    let mut child = child_model(&req);

    assert_eq!(inko_child_process_wait(Ok(Some(0))), RtResult::Success(Pointer::Int(0)));

    let buffer = heap.allocate(2, HeapValue::Bytes(Vec::new()));
    let r = inko_child_process_stdout_read(
        &mut heap,
        &child,
        buffer,
        Ok("hello".as_bytes().to_vec()),
    );
    assert_eq!(r, RtResult::Success(Pointer::Int(5)));
    assert_eq!(buf_bytes_at(&heap, buffer), "hello".as_bytes().to_vec());

    // Closing stdout then reading again returns 0 bytes, not an error.
    inko_child_process_stdout_close(&mut child);
    let r = inko_child_process_stdout_read(&mut heap, &child, buffer, Err(9));
    assert_eq!(r, RtResult::Success(Pointer::Int(0)));
    assert_eq!(buf_bytes_at(&heap, buffer), "hello".as_bytes().to_vec());

    // Closing a second time is idempotent.
    inko_child_process_stdout_close(&mut child);
    assert!(!child.stdout_piped);
}

#[test]
fn stream_read_failure_is_an_error_and_touches_nothing() {
    let mut heap = Heap::new();
    let buffer = heap.allocate(2, HeapValue::Bytes("seed".as_bytes().to_vec()));
    let child = inko_rt::child::ChildModel {
        stdin_piped: false,
        stdout_piped: true,
        stderr_piped: true,
    };
    let r = inko_child_process_stderr_read(&mut heap, &child, buffer, Err(13));
    assert_eq!(r, RtResult::Failure(13));
    assert_eq!(buf_bytes_at(&heap, buffer), "seed".as_bytes().to_vec());
}

#[test]
fn stdin_write_and_flush_results() {
    let piped = inko_rt::child::ChildModel {
        stdin_piped: true,
        stdout_piped: false,
        stderr_piped: false,
    };
    let mut closed = piped;
    inko_child_process_stdin_close(&mut closed);

    assert_eq!(
        inko_child_process_stdin_write_bytes(&piped, Ok(4)),
        RtResult::Success(Pointer::Int(4))
    );
    assert_eq!(inko_child_process_stdin_write_bytes(&piped, Err(3)), RtResult::Failure(3));
    assert_eq!(
        inko_child_process_stdin_write_bytes(&closed, Ok(4)),
        RtResult::Success(Pointer::Int(0))
    );
    assert_eq!(
        inko_child_process_stdin_write_string(&piped, Ok(6)),
        RtResult::Success(Pointer::Int(6))
    );
    assert_eq!(
        inko_child_process_stdin_flush(&piped, Ok(())),
        RtResult::Success(Pointer::Int(0))
    );
    assert_eq!(inko_child_process_stdin_flush(&piped, Err(7)), RtResult::Failure(7));
    assert_eq!(
        inko_child_process_stdin_flush(&closed, Err(7)),
        RtResult::Success(Pointer::Int(0))
    );
}
