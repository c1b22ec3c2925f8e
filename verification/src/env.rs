use vstd::prelude::*;

use crate::heap::{bytes_eq, clone_bytes, grown_by, Heap, HeapValue};
use crate::pointer::Pointer;
use crate::state::RtState;

verus! {

/// The environment snapshot taken at startup: variable names, each bound to a
/// pointer to a String interned in the permanent space. A variable set in the
/// OS environment after startup never appears here.
pub struct Environment {
    pub vars: Vec<(Vec<u8>, Pointer)>,
}

impl Environment {
    /// Names are bound at most once.
    pub open spec fn keys_distinct(self) -> bool {
        forall|i: int, j: int|
            0 <= i < j < self.vars@.len() ==> self.vars@[i].0@ != self.vars@[j].0@
    }

    /// The binding of `name` among the entries from position `i` on.
    pub open spec fn lookup_from(self, name: Seq<u8>, i: int) -> Option<Pointer>
        decreases self.vars@.len() - i,
    {
        if i < 0 || i >= self.vars@.len() {
            None
        } else if self.vars@[i].0@ == name {
            Some(self.vars@[i].1)
        } else {
            self.lookup_from(name, i + 1)
        }
    }

    /// The binding of `name`, if the snapshot holds one.
    pub open spec fn lookup(self, name: Seq<u8>) -> Option<Pointer> {
        self.lookup_from(name, 0)
    }
}

/// A successful lookup hands back one of the snapshot's own values.
pub proof fn lemma_lookup_is_value(env: Environment, name: Seq<u8>, i: int)
    requires
        0 <= i,
        env.lookup_from(name, i) is Some,
    ensures
        exists|j: int|
            0 <= j < env.vars@.len() && #[trigger] env.vars@[j].1 == env.lookup_from(
                name,
                i,
            )->Some_0,
    decreases env.vars@.len() - i,
{
    if i < env.vars@.len() && env.vars@[i].0@ == name {
        assert(env.vars@[i].1 == env.lookup_from(name, i)->Some_0);
    } else {
        lemma_lookup_is_value(env, name, i + 1);
    }
}

/// Finds the binding of `name` in the snapshot.
pub fn env_lookup(env: &Environment, name: &Vec<u8>) -> (r: Option<Pointer>)
    ensures
        r == env.lookup(name@),
{
    let mut i: usize = 0;
    while i < env.vars.len()
        invariant
            i <= env.vars@.len(),
            env.lookup(name@) == env.lookup_from(name@, i as int),
        decreases env.vars@.len() - i,
    {
        if bytes_eq(&env.vars[i].0, name) {
            return Some(env.vars[i].1);
        }
        i = i + 1;
    }
    None
}

/// Looks up the environment variable named by the first argument (a String
/// pointer). Absence is the undefined singleton, never an error.
pub fn env_get(state: &RtState, heap: &Heap, arguments: &Vec<Pointer>) -> (r: Pointer)
    requires
        arguments@.len() >= 1,
        heap.is_str(arguments@[0]),
    ensures
        r == (match state.environment.lookup(heap.str_bytes(arguments@[0])) {
            Some(p) => p,
            None => Pointer::Undefined,
        }),
{
    let name = match heap.read(arguments[0]) {
        HeapValue::Str(b) => clone_bytes(b),
        _ => Vec::new(),
    };
    match env_lookup(&state.environment, &name) {
        Some(p) => p,
        None => Pointer::Undefined,
    }
}

/// Allocates one String per variable name and hands them back as a freshly
/// allocated array, in the snapshot's order.
pub fn env_variables(state: &RtState, heap: &mut Heap) -> (p: Pointer)
    ensures
        final(heap).is_array(p),
        final(heap).object_at(p).class == state.array_class,
        final(heap).array_elems(p).len() == state.environment.vars@.len(),
        forall|i: int|
            0 <= i < state.environment.vars@.len() ==> final(heap).is_str(
                #[trigger] final(heap).array_elems(p)[i],
            ) && final(heap).str_bytes(final(heap).array_elems(p)[i])
                == state.environment.vars@[i].0@ && final(heap).object_at(
                final(heap).array_elems(p)[i],
            ).class == state.string_class,
        final(heap).slots@.len() == old(heap).slots@.len() + state.environment.vars@.len() + 1,
        forall|i: int|
            0 <= i < old(heap).slots@.len() ==> final(heap).slots@[i] == old(heap).slots@[i],
{
    let mut names: Vec<Pointer> = Vec::new();
    let mut i: usize = 0;
    while i < state.environment.vars.len()
        invariant
            i <= state.environment.vars@.len(),
            heap.slots@.len() == old(heap).slots@.len() + i,
            forall|j: int|
                0 <= j < old(heap).slots@.len() ==> heap.slots@[j] == old(heap).slots@[j],
            names@.len() == i,
            forall|j: int|
                0 <= j < i ==> heap.is_str(#[trigger] names@[j]) && heap.str_bytes(names@[j])
                    == state.environment.vars@[j].0@ && heap.object_at(names@[j]).class
                    == state.string_class,
        decreases state.environment.vars@.len() - i,
    {
        let key = clone_bytes(&state.environment.vars[i].0);
        let q = heap.allocate(state.string_class, HeapValue::Str(key));
        names.push(q);
        i = i + 1;
    }
    heap.allocate(state.array_class, HeapValue::Array(names))
}

/// The name the home directory is looked up under: `HOME`, or `USERPROFILE`
/// on the Windows platform family.
pub open spec fn home_key_of(windows: bool) -> Seq<u8> {
    if windows {
        seq![85u8, 83u8, 69u8, 82u8, 80u8, 82u8, 79u8, 70u8, 73u8, 76u8, 69u8]
    } else {
        seq![72u8, 79u8, 77u8, 69u8]
    }
}

/// The home directory as the platform's variable names it. A variable that is
/// absent, or explicitly set to the empty string, yields the undefined
/// singleton: there is no scenario in which an empty home is useful.
pub fn env_home_directory(state: &RtState, heap: &Heap) -> (r: Pointer)
    requires
        state.wf(*heap),
    ensures
        r == (match state.environment.lookup(home_key_of(state.windows)) {
            Some(p) => if heap.str_bytes(p).len() == 0 {
                Pointer::Undefined
            } else {
                p
            },
            None => Pointer::Undefined,
        }),
{
    let key: Vec<u8> = if state.windows {
        // "USERPROFILE"
        let k = vec![85u8, 83u8, 69u8, 82u8, 80u8, 82u8, 79u8, 70u8, 73u8, 76u8, 69u8];
        proof {
            assert(k@ =~= home_key_of(true));
        }
        k
    } else {
        // "HOME"
        let k = vec![72u8, 79u8, 77u8, 69u8];
        proof {
            assert(k@ =~= home_key_of(false));
        }
        k
    };
    match env_lookup(&state.environment, &key) {
        Some(p) => {
            proof {
                lemma_lookup_is_value(state.environment, key@, 0);
            }
            let empty = match heap.read(p) {
                HeapValue::Str(b) => b.len() == 0,
                _ => false,
            };
            if empty {
                Pointer::Undefined
            } else {
                p
            }
        },
        None => Pointer::Undefined,
    }
}

/// Copies a vector of pointers.
pub fn clone_pointers(v: &Vec<Pointer>) -> (r: Vec<Pointer>)
    ensures
        r@ == v@,
{
    let mut r: Vec<Pointer> = Vec::new();
    let mut i: usize = 0;
    while i < v.len()
        invariant
            i <= v@.len(),
            r@ == v@.take(i as int),
        decreases v@.len() - i,
    {
        r.push(v[i]);
        proof {
            assert(r@ =~= v@.take(i + 1));
        }
        i = i + 1;
    }
    proof {
        assert(r@ =~= v@);
    }
    r
}

/// Hands back the program arguments as a freshly allocated array of the
/// argument Strings interned at startup.
pub fn env_arguments(state: &RtState, heap: &mut Heap) -> (p: Pointer)
    ensures
        grown_by(*old(heap), *final(heap)),
        p == old(heap).fresh_ref(),
        final(heap).is_array(p),
        final(heap).array_elems(p) == state.arguments@,
        final(heap).object_at(p).class == state.array_class,
{
    let args = clone_pointers(&state.arguments);
    heap.allocate(state.array_class, HeapValue::Array(args))
}

/// The code of the operating system the runtime was built for, boxed as an
/// integer-valued pointer.
pub fn env_platform(state: &RtState) -> (r: Pointer)
    ensures
        r == Pointer::Int(state.platform),
{
    Pointer::Int(state.platform)
}

/// Relies on std's Path::canonicalize, which resolves the path against the
/// filesystem; the outcome depends on what is on disk, so nothing is stated
/// of it.
#[verifier::external_body]
fn fs_canonical(path: &String) -> (r: Option<String>) {
    std::path::PathBuf::from(path.as_str()).canonicalize().ok().map(
        |p| p.to_string_lossy().into_owned(),
    )
}

/// Picks the canonical form where the platform produced one, and keeps the
/// original spelling otherwise.
pub fn resolve_canonical(path: String, resolved: Option<String>) -> (r: String)
    ensures
        r@ == (match resolved {
            Some(p) => p@,
            None => path@,
        }),
{
    match resolved {
        Some(p) => p,
        None => path,
    }
}

/// The canonical spelling of a path: asks the filesystem for it, and keeps the
/// path unchanged where the filesystem cannot resolve it.
pub fn canonalize(path: String) -> (r: String) {
    let resolved = fs_canonical(&path);
    resolve_canonical(path, resolved)
}

} // verus!
