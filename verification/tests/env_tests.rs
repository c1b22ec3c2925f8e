use inko_rt::env::{
    canonalize, env_arguments, env_get, env_home_directory, env_lookup, env_platform,
    env_variables, resolve_canonical, Environment,
};
use inko_rt::heap::{Heap, HeapValue};
use inko_rt::pointer::Pointer;
use inko_rt::state::RtState;
use inko_rt::strings::inko_string_new;

fn state_with(vars: Vec<(Vec<u8>, Pointer)>, windows: bool) -> RtState {
    RtState {
        string_class: 1,
        byte_array_class: 2,
        array_class: 3,
        environment: Environment { vars },
        arguments: Vec::new(),
        platform: 9,
        windows,
    }
}

fn intern(heap: &mut Heap, text: &str) -> Pointer {
    let state = state_with(Vec::new(), false);
    inko_string_new(&state, heap, &text.as_bytes().to_vec())
}

fn str_bytes_at(heap: &Heap, p: Pointer) -> Vec<u8> {
    match heap.read(p) {
        HeapValue::Str(b) => b.clone(),
        _ => panic!("expected a String object"),
    }
}

#[test]
fn absent_variable_queries_as_undefined() {
    let mut heap = Heap::new();
    let val = intern(&mut heap, "/usr/bin");
    let state = state_with(vec![("PATH".as_bytes().to_vec(), val)], false);
    let name = intern(&mut heap, "NOT_IN_THE_SNAPSHOT");
    let r = env_get(&state, &heap, &vec![name]);
    assert_eq!(r, Pointer::Undefined);
}

#[test]
fn present_variable_hands_back_its_pointer() {
    let mut heap = Heap::new();
    let val = intern(&mut heap, "/usr/bin");
    let state = state_with(vec![("PATH".as_bytes().to_vec(), val)], false);
    let name = intern(&mut heap, "PATH");
    let r = env_get(&state, &heap, &vec![name]);
    assert_eq!(r, val);
    assert_eq!(str_bytes_at(&heap, r), "/usr/bin".as_bytes().to_vec());
}

#[test]
fn home_set_to_empty_string_is_undefined() {
    let mut heap = Heap::new();
    let empty = intern(&mut heap, "");
    let state = state_with(vec![("HOME".as_bytes().to_vec(), empty)], false);
    assert_eq!(env_home_directory(&state, &heap), Pointer::Undefined);
}

#[test]
fn home_absent_is_undefined() {
    let heap = Heap::new();
    let state = state_with(Vec::new(), false);
    assert_eq!(env_home_directory(&state, &heap), Pointer::Undefined);
}

#[test]
fn home_present_is_returned() {
    let mut heap = Heap::new();
    let home = intern(&mut heap, "/home/someone");
    let state = state_with(vec![("HOME".as_bytes().to_vec(), home)], false);
    assert_eq!(env_home_directory(&state, &heap), home);
}

#[test]
fn home_on_windows_reads_userprofile() {
    let mut heap = Heap::new();
    let home = intern(&mut heap, "C:\\Users\\someone");
    let other = intern(&mut heap, "/home/else");
    let state = state_with(
        vec![
            ("HOME".as_bytes().to_vec(), other),
            ("USERPROFILE".as_bytes().to_vec(), home),
        ],
        true,
    );
    assert_eq!(env_home_directory(&state, &heap), home);
}

#[test]
fn variables_lists_every_name_in_order() {
    let mut heap = Heap::new();
    let v1 = intern(&mut heap, "one");
    let v2 = intern(&mut heap, "two");
    let state = state_with(
        vec![
            ("ALPHA".as_bytes().to_vec(), v1),
            ("BETA".as_bytes().to_vec(), v2),
        ],
        false,
    );
    let arr = env_variables(&state, &mut heap);
    let elems = match heap.read(arr) {
        HeapValue::Array(e) => e.clone(),
        _ => panic!("expected an array object"),
    };
    assert_eq!(elems.len(), 2);
    assert_eq!(str_bytes_at(&heap, elems[0]), "ALPHA".as_bytes().to_vec());
    assert_eq!(str_bytes_at(&heap, elems[1]), "BETA".as_bytes().to_vec());
}

#[test]
fn lookup_finds_first_binding() {
    let mut heap = Heap::new();
    let v = intern(&mut heap, "x");
    let env = Environment { vars: vec![("K".as_bytes().to_vec(), v)] };
    assert_eq!(env_lookup(&env, &"K".as_bytes().to_vec()), Some(v));
    assert_eq!(env_lookup(&env, &"Q".as_bytes().to_vec()), None);
}

#[test]
fn arguments_are_handed_back_as_an_array() {
    let mut heap = Heap::new();
    let a0 = intern(&mut heap, "prog");
    let a1 = intern(&mut heap, "--flag");
    let mut state = state_with(Vec::new(), false);
    state.arguments = vec![a0, a1];
    let arr = env_arguments(&state, &mut heap);
    match heap.read(arr) {
        HeapValue::Array(e) => assert_eq!(e.clone(), vec![a0, a1]),
        _ => panic!("expected an array object"),
    }
}

#[test]
fn platform_is_the_boxed_code() {
    let state = state_with(Vec::new(), false);
    assert_eq!(env_platform(&state), Pointer::Int(9));
}

#[test]
fn canonalize_keeps_an_unresolvable_path() {
    let path = "/no/such/path/for/this/test".to_string();
    assert_eq!(canonalize(path.clone()), path);
}

#[test]
fn canonalize_resolves_the_root() {
    assert_eq!(canonalize("/".to_string()), "/".to_string());
    assert_eq!(canonalize("/../".to_string()), "/".to_string());
}

#[test]
fn resolve_canonical_picks_the_resolved_form() {
    assert_eq!(resolve_canonical("a".to_string(), Some("b".to_string())), "b".to_string());
    assert_eq!(resolve_canonical("a".to_string(), None), "a".to_string());
}

#[test]
fn default_globals_table() {
    let globals = inko_rt::globals::default_globals();
    assert_eq!(globals.len(), 10);
    assert_eq!(globals[0], ("core::string::String".to_string(), "String".to_string()));
    assert_eq!(globals[3], ("core::float::Float".to_string(), "Float".to_string()));
    assert_eq!(globals[7], ("core::nil::NilSingleton".to_string(), "nil".to_string()));
    assert_eq!(globals[9], ("core::boolean::FalseSingleton".to_string(), "false".to_string()));
}
