use vstd::prelude::*;

use crate::pointer::Pointer;

verus! {

/// The payload of a heap object: an immutable String stored as the bytes of
/// its text, a mutable byte buffer, or an array of tagged pointers.
pub enum HeapValue {
    Str(Vec<u8>),
    Bytes(Vec<u8>),
    Array(Vec<Pointer>),
}

/// A heap object: a payload tagged with the runtime class it was allocated
/// under.
pub struct HeapObject {
    pub class: u64,
    pub value: HeapValue,
}

/// The owner of runtime objects crossing the native boundary. A slot holds an
/// object from `allocate` until the explicit `release`; a released slot stays
/// `None`, so a reference is never reused.
pub struct Heap {
    pub slots: Vec<Option<HeapObject>>,
}

/// Holds when `post` is `pre` with exactly one freshly allocated slot at the
/// end and every existing slot untouched.
pub open spec fn grown_by(pre: Heap, post: Heap) -> bool {
    &&& post.slots@.len() == pre.slots@.len() + 1
    &&& forall|i: int| 0 <= i < pre.slots@.len() ==> post.slots@[i] == pre.slots@[i]
}

impl Heap {
    /// The pointer a fresh allocation returns.
    pub open spec fn fresh_ref(self) -> Pointer {
        Pointer::Ref(self.slots@.len() as usize)
    }

    /// The pointer refers to a slot that still owns an object.
    pub open spec fn live(self, p: Pointer) -> bool {
        &&& p matches Pointer::Ref(i)
        &&& (p->Ref_0 as int) < self.slots@.len()
        &&& self.slots@[p->Ref_0 as int] is Some
    }

    pub open spec fn object_at(self, p: Pointer) -> HeapObject
        recommends
            self.live(p),
    {
        self.slots@[p->Ref_0 as int]->Some_0
    }

    pub open spec fn is_str(self, p: Pointer) -> bool {
        self.live(p) && self.object_at(p).value is Str
    }

    /// The bytes of the String object `p` refers to.
    pub open spec fn str_bytes(self, p: Pointer) -> Seq<u8>
        recommends
            self.is_str(p),
    {
        self.object_at(p).value->Str_0@
    }

    pub open spec fn is_bytes(self, p: Pointer) -> bool {
        self.live(p) && self.object_at(p).value is Bytes
    }

    /// The contents of the byte buffer `p` refers to.
    pub open spec fn buf_bytes(self, p: Pointer) -> Seq<u8>
        recommends
            self.is_bytes(p),
    {
        self.object_at(p).value->Bytes_0@
    }

    pub open spec fn is_array(self, p: Pointer) -> bool {
        self.live(p) && self.object_at(p).value is Array
    }

    /// The elements of the array object `p` refers to.
    pub open spec fn array_elems(self, p: Pointer) -> Seq<Pointer>
        recommends
            self.is_array(p),
    {
        self.object_at(p).value->Array_0@
    }

    pub fn new() -> (h: Heap)
        ensures
            h.slots@.len() == 0,
    {
        Heap { slots: Vec::new() }
    }

    /// Moves ownership of `value` into a newly allocated object tagged with
    /// `class`, and returns the one reference to it. Existing objects are
    /// untouched, so allocation never invalidates a live reference.
    pub fn allocate(&mut self, class: u64, value: HeapValue) -> (p: Pointer)
        ensures
            p == old(self).fresh_ref(),
            grown_by(*old(self), *final(self)),
            final(self).live(p),
            final(self).object_at(p) == (HeapObject { class, value }),
    {
        let p = Pointer::Ref(self.slots.len());
        self.slots.push(Some(HeapObject { class, value }));
        p
    }

    /// Returns a borrowed view of the object's payload; the borrow must not
    /// outlive the current native call and the heap it came from.
    pub fn read(&self, p: Pointer) -> (v: &HeapValue)
        requires
            self.live(p),
        ensures
            *v == self.object_at(p).value,
    {
        match p {
            Pointer::Ref(i) => &self.slots[i].as_ref().unwrap().value,
            _ => unreached(),
        }
    }

    /// Releases ownership of the object: the slot is emptied and the reference
    /// is dead from here on. Releasing is explicit and happens exactly once
    /// per allocation; a double release is excluded by the precondition.
    pub fn release(&mut self, p: Pointer)
        requires
            old(self).live(p),
        ensures
            final(self).slots@.len() == old(self).slots@.len(),
            final(self).slots@[p->Ref_0 as int] is None,
            forall|i: int|
                0 <= i < old(self).slots@.len() && i != p->Ref_0 as int ==> final(self).slots@[i]
                    == old(self).slots@[i],
    {
        match p {
            Pointer::Ref(i) => {
                self.slots[i] = None;
            },
            _ => {},
        }
    }

    /// Appends `data` to the mutable byte buffer `p` refers to, in place; the
    /// buffer keeps its class and every other object is untouched.
    pub fn append_bytes(&mut self, p: Pointer, data: &Vec<u8>)
        requires
            old(self).is_bytes(p),
        ensures
            final(self).slots@.len() == old(self).slots@.len(),
            final(self).is_bytes(p),
            final(self).buf_bytes(p) == old(self).buf_bytes(p) + data@,
            final(self).object_at(p).class == old(self).object_at(p).class,
            forall|i: int|
                0 <= i < old(self).slots@.len() && i != p->Ref_0 as int ==> final(self).slots@[i]
                    == old(self).slots@[i],
    {
        match p {
            Pointer::Ref(i) => {
                let class = self.slots[i].as_ref().unwrap().class;
                let mut grown = match self.read(p) {
                    HeapValue::Bytes(b) => clone_bytes(b),
                    _ => Vec::new(),
                };
                push_all(&mut grown, data);
                self.slots[i] = Some(HeapObject { class, value: HeapValue::Bytes(grown) });
            },
            _ => {},
        }
    }
}

/// Copies a byte vector.
pub fn clone_bytes(v: &Vec<u8>) -> (r: Vec<u8>)
    ensures
        r@ == v@,
{
    let mut r: Vec<u8> = Vec::new();
    let mut i: usize = 0;
    while i < v.len()
        invariant
            i <= v.len(),
            r@ == v@.take(i as int),
        decreases v.len() - i,
    {
        r.push(v[i]);
        proof {
            assert(r@ =~= v@.take(i + 1));
        }
        i = i + 1;
    }
    proof {
        assert(r@ =~= v@);
    }
    r
}

/// Appends all of `src` to `dst`.
pub fn push_all(dst: &mut Vec<u8>, src: &Vec<u8>)
    ensures
        final(dst)@ == old(dst)@ + src@,
{
    let mut i: usize = 0;
    while i < src.len()
        invariant
            i <= src.len(),
            dst@ == old(dst)@ + src@.take(i as int),
        decreases src.len() - i,
    {
        dst.push(src[i]);
        proof {
            assert(dst@ =~= old(dst)@ + src@.take(i + 1));
        }
        i = i + 1;
    }
    proof {
        assert(dst@ =~= old(dst)@ + src@);
    }
}

/// Copies the bytes of `v` between the positions `s` (inclusive) and `e`
/// (exclusive).
pub fn copy_range(v: &Vec<u8>, s: usize, e: usize) -> (r: Vec<u8>)
    requires
        s <= e <= v@.len(),
    ensures
        r@ == v@.subrange(s as int, e as int),
{
    let mut r: Vec<u8> = Vec::new();
    let mut i: usize = s;
    while i < e
        invariant
            s <= i <= e <= v@.len(),
            r@ == v@.subrange(s as int, i as int),
        decreases e - i,
    {
        r.push(v[i]);
        proof {
            assert(r@ =~= v@.subrange(s as int, i + 1));
        }
        i = i + 1;
    }
    r
}

/// Compares two byte vectors for equality of their contents.
pub fn bytes_eq(a: &Vec<u8>, b: &Vec<u8>) -> (r: bool)
    ensures
        r == (a@ == b@),
{
    if a.len() != b.len() {
        return false;
    }
    let mut i: usize = 0;
    while i < a.len()
        invariant
            i <= a.len(),
            a@.len() == b@.len(),
            forall|j: int| 0 <= j < i ==> a@[j] == b@[j],
        decreases a.len() - i,
    {
        if a[i] != b[i] {
            return false;
        }
        i = i + 1;
    }
    proof {
        assert(a@ =~= b@);
    }
    true
}

} // verus!
