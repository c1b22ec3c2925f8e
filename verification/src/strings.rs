use vstd::prelude::*;

use crate::heap::{clone_bytes, copy_range, grown_by, push_all, bytes_eq, Heap, HeapValue};
use crate::pointer::Pointer;
use crate::rt_result::RtResult;
use crate::state::RtState;

verus! {

// ---------------------------------------------------------------------------
// Trusted views of the platform's text routines. Strings live on the heap as
// the bytes of their text; decoding, case mapping and grapheme segmentation
// are the platform's, named below and never restated.
// ---------------------------------------------------------------------------

/// The characters the bytes decode to under UTF-8, or nothing if they are not
/// valid UTF-8.
pub uninterp spec fn utf8_chars_of(b: Seq<u8>) -> Option<Seq<char>>;

/// Relies on std's str::from_utf8: decodes the bytes as UTF-8 text, or reports
/// that they are not valid UTF-8.
#[verifier::external_body]
fn utf8_view<'a>(b: &'a Vec<u8>) -> (r: Option<&'a str>)
    ensures
        r is Some <==> utf8_chars_of(b@) is Some,
        r matches Some(s) ==> utf8_chars_of(b@) == Some(s@),
{
    core::str::from_utf8(b.as_slice()).ok()
}

/// The Unicode lowercase mapping of the text.
pub uninterp spec fn lower_chars_of(s: Seq<char>) -> Seq<char>;

/// Relies on std's str::to_lowercase: the result depends on the characters
/// alone, and an empty string stays empty.
#[verifier::external_body]
fn lower_str(s: &str) -> (r: String)
    ensures
        r@ == lower_chars_of(s@),
        s@.len() == 0 ==> r@.len() == 0,
{
    s.to_lowercase()
}

/// The Unicode uppercase mapping of the text.
pub uninterp spec fn upper_chars_of(s: Seq<char>) -> Seq<char>;

/// Relies on std's str::to_uppercase: the result depends on the characters
/// alone, and an empty string stays empty.
#[verifier::external_body]
fn upper_str(s: &str) -> (r: String)
    ensures
        r@ == upper_chars_of(s@),
        s@.len() == 0 ==> r@.len() == 0,
{
    s.to_uppercase()
}

/// The UTF-8 encoding of the text.
pub uninterp spec fn utf8_of(s: Seq<char>) -> Seq<u8>;

/// Relies on std's str::as_bytes: the UTF-8 encoding of the text, a function
/// of the characters alone; empty text encodes to no bytes.
#[verifier::external_body]
fn encode_utf8(s: &str) -> (r: Vec<u8>)
    ensures
        r@ == utf8_of(s@),
        s@.len() == 0 ==> r@.len() == 0,
{
    s.as_bytes().to_vec()
}

/// The text the bytes decode to under UTF-8 with invalid sequences replaced by
/// the replacement character.
pub uninterp spec fn lossy_chars_of(b: Seq<u8>) -> Seq<char>;

/// Relies on std's String::from_utf8_lossy: decodes the bytes as UTF-8 text,
/// substituting the replacement character for invalid sequences; empty bytes
/// decode to empty text.
#[verifier::external_body]
fn lossy_decode(b: &Vec<u8>) -> (r: String)
    ensures
        r@ == lossy_chars_of(b@),
        b@.len() == 0 ==> r@.len() == 0,
{
    String::from_utf8_lossy(b.as_slice()).into_owned()
}

/// The extended grapheme clusters of the text, in order.
pub uninterp spec fn grapheme_split_of(s: Seq<char>) -> Seq<Seq<char>>;

/// Relies on unicode_segmentation's UnicodeSegmentation::graphemes with
/// extended cluster boundaries: the clusters are non-empty substrings of the
/// text, in order, whose concatenation is the original text, so the split
/// depends on the characters alone and empty text splits into no clusters.
#[verifier::external_body]
fn grapheme_split(s: &str) -> (r: Vec<String>)
    ensures
        r@.map_values(|g: String| g@) == grapheme_split_of(s@),
        r@.map_values(|g: String| g@).flatten() == s@,
        forall|i: int| 0 <= i < r@.len() ==> r@[i]@.len() > 0,
{
    unicode_segmentation::UnicodeSegmentation::graphemes(s, true).map(|g| g.to_string()).collect()
}

// ---------------------------------------------------------------------------
// Derived spec views of the native string transforms.
// ---------------------------------------------------------------------------

/// The bytes a lower-cased String holds: the source bytes decoded, lower-cased
/// and re-encoded; bytes that are not valid text lower-case to nothing.
pub open spec fn lower_bytes_of(b: Seq<u8>) -> Seq<u8> {
    match utf8_chars_of(b) {
        Some(cs) => utf8_of(lower_chars_of(cs)),
        None => Seq::empty(),
    }
}

/// The bytes an upper-cased String holds.
pub open spec fn upper_bytes_of(b: Seq<u8>) -> Seq<u8> {
    match utf8_chars_of(b) {
        Some(cs) => utf8_of(upper_chars_of(cs)),
        None => Seq::empty(),
    }
}

/// The grapheme clusters of a String's bytes, each cluster as the bytes of its
/// own one-grapheme String; bytes that are not valid text have no clusters.
pub open spec fn grapheme_bytes_of(b: Seq<u8>) -> Seq<Seq<u8>> {
    match utf8_chars_of(b) {
        Some(cs) => grapheme_split_of(cs).map_values(|g: Seq<char>| utf8_of(g)),
        None => Seq::empty(),
    }
}

// ---------------------------------------------------------------------------
// Native functions on Strings.
// ---------------------------------------------------------------------------

/// Allocates a new String object holding exactly the given bytes. The caller
/// guarantees the bytes are valid encoded text; the bytes are stored as they
/// are, never inspected.
pub fn inko_string_new(state: &RtState, heap: &mut Heap, bytes: &Vec<u8>) -> (p: Pointer)
    ensures
        grown_by(*old(heap), *final(heap)),
        p == old(heap).fresh_ref(),
        final(heap).is_str(p),
        final(heap).str_bytes(p) == bytes@,
        final(heap).object_at(p).class == state.string_class,
{
    heap.allocate(state.string_class, HeapValue::Str(clone_bytes(bytes)))
}

/// The ordered byte-concatenation of the Strings the pointers refer to.
pub open spec fn concat_bytes(heap: Heap, ptrs: Seq<Pointer>) -> Seq<u8>
    decreases ptrs.len(),
{
    if ptrs.len() == 0 {
        Seq::empty()
    } else {
        concat_bytes(heap, ptrs.drop_last()) + heap.str_bytes(ptrs.last())
    }
}

/// Allocates a new String whose bytes are the ordered concatenation of the
/// bytes of every input String; the inputs are untouched.
pub fn inko_string_concat(state: &RtState, heap: &mut Heap, strings: &Vec<Pointer>) -> (p: Pointer)
    requires
        forall|i: int| 0 <= i < strings@.len() ==> old(heap).is_str(#[trigger] strings@[i]),
    ensures
        grown_by(*old(heap), *final(heap)),
        p == old(heap).fresh_ref(),
        final(heap).is_str(p),
        final(heap).str_bytes(p) == concat_bytes(*old(heap), strings@),
        final(heap).object_at(p).class == state.string_class,
{
    let mut buffer: Vec<u8> = Vec::new();
    let mut i: usize = 0;
    while i < strings.len()
        invariant
            i <= strings@.len(),
            forall|j: int| 0 <= j < strings@.len() ==> heap.is_str(#[trigger] strings@[j]),
            buffer@ == concat_bytes(*heap, strings@.take(i as int)),
        decreases strings@.len() - i,
    {
        let q = strings[i];
        match heap.read(q) {
            HeapValue::Str(b) => push_all(&mut buffer, b),
            _ => {},
        }
        proof {
            let t = strings@.take(i + 1);
            assert(t.drop_last() =~= strings@.take(i as int));
            assert(t.last() == strings@[i as int]);
        }
        i = i + 1;
    }
    proof {
        assert(strings@.take(strings@.len() as int) =~= strings@);
    }
    heap.allocate(state.string_class, HeapValue::Str(buffer))
}

/// Releases a String object.
pub fn inko_string_drop(heap: &mut Heap, p: Pointer)
    requires
        old(heap).is_str(p),
    ensures
        final(heap).slots@.len() == old(heap).slots@.len(),
        !final(heap).live(p),
        forall|i: int|
            0 <= i < old(heap).slots@.len() && i != p->Ref_0 as int ==> final(heap).slots@[i]
                == old(heap).slots@[i],
{
    heap.release(p);
}

/// Allocates a new String holding the lower-cased text of the source String;
/// the source is untouched.
pub fn inko_string_to_lower(state: &RtState, heap: &mut Heap, string: Pointer) -> (p: Pointer)
    requires
        old(heap).is_str(string),
    ensures
        grown_by(*old(heap), *final(heap)),
        p == old(heap).fresh_ref(),
        final(heap).is_str(p),
        final(heap).str_bytes(p) == lower_bytes_of(old(heap).str_bytes(string)),
        final(heap).object_at(p).class == state.string_class,
{
    let bytes = match heap.read(string) {
        HeapValue::Str(b) => clone_bytes(b),
        _ => Vec::new(),
    };
    let lowered: Vec<u8> = match utf8_view(&bytes) {
        Some(s) => {
            let ls = lower_str(s);
            encode_utf8(ls.as_str())
        },
        None => Vec::new(),
    };
    heap.allocate(state.string_class, HeapValue::Str(lowered))
}

/// Allocates a new String holding the upper-cased text of the source String;
/// the source is untouched.
pub fn inko_string_to_upper(state: &RtState, heap: &mut Heap, string: Pointer) -> (p: Pointer)
    requires
        old(heap).is_str(string),
    ensures
        grown_by(*old(heap), *final(heap)),
        p == old(heap).fresh_ref(),
        final(heap).is_str(p),
        final(heap).str_bytes(p) == upper_bytes_of(old(heap).str_bytes(string)),
        final(heap).object_at(p).class == state.string_class,
{
    let bytes = match heap.read(string) {
        HeapValue::Str(b) => clone_bytes(b),
        _ => Vec::new(),
    };
    let uppered: Vec<u8> = match utf8_view(&bytes) {
        Some(s) => {
            let us = upper_str(s);
            encode_utf8(us.as_str())
        },
        None => Vec::new(),
    };
    heap.allocate(state.string_class, HeapValue::Str(uppered))
}

/// Allocates a new mutable byte buffer holding a copy of the String's bytes.
pub fn inko_string_to_byte_array(state: &RtState, heap: &mut Heap, string: Pointer) -> (p: Pointer)
    requires
        old(heap).is_str(string),
    ensures
        grown_by(*old(heap), *final(heap)),
        p == old(heap).fresh_ref(),
        final(heap).is_bytes(p),
        final(heap).buf_bytes(p) == old(heap).str_bytes(string),
        final(heap).object_at(p).class == state.byte_array_class,
{
    let bytes = match heap.read(string) {
        HeapValue::Str(b) => clone_bytes(b),
        _ => Vec::new(),
    };
    heap.allocate(state.byte_array_class, HeapValue::Bytes(bytes))
}

/// The byte span a slice request selects: out-of-range requests (a negative
/// start, a non-positive length, a start at or past the end) select nothing,
/// and the end is clamped to the String's length.
pub open spec fn slice_bytes_spec(b: Seq<u8>, start: int, length: int) -> Seq<u8> {
    if start < 0 || length <= 0 || start >= b.len() {
        Seq::empty()
    } else if start + length >= b.len() {
        b.subrange(start, b.len() as int)
    } else {
        b.subrange(start, start + length)
    }
}

/// Allocates a mutable byte buffer holding the selected span of the String's
/// bytes; an out-of-range request yields an empty buffer, never an error.
pub fn inko_string_slice_bytes(
    state: &RtState,
    heap: &mut Heap,
    string: Pointer,
    start: i64,
    length: i64,
) -> (p: Pointer)
    requires
        old(heap).is_str(string),
    ensures
        grown_by(*old(heap), *final(heap)),
        p == old(heap).fresh_ref(),
        final(heap).is_bytes(p),
        final(heap).buf_bytes(p) == slice_bytes_spec(
            old(heap).str_bytes(string),
            start as int,
            length as int,
        ),
        final(heap).object_at(p).class == state.byte_array_class,
{
    let bytes: Vec<u8> = {
        let b = match heap.read(string) {
            HeapValue::Str(v) => v,
            _ => unreached(),
        };
        if start < 0 || length <= 0 {
            Vec::new()
        } else if start as u64 >= b.len() as u64 {
            Vec::new()
        } else {
            let s = start as usize;
            let remaining = b.len() - s;
            let e = if length as u64 >= remaining as u64 {
                b.len()
            } else {
                s + (length as usize)
            };
            copy_range(b, s, e)
        }
    };
    heap.allocate(state.byte_array_class, HeapValue::Bytes(bytes))
}

/// Law: a slice request with a negative start, a non-positive length, or a
/// start at or past the end of the String always selects the empty byte
/// buffer.
pub proof fn lemma_slice_out_of_range(b: Seq<u8>, start: int, length: int)
    requires
        start < 0 || length <= 0 || start >= b.len(),
    ensures
        slice_bytes_spec(b, start, length) == Seq::<u8>::empty(),
{
}

/// Law: a slice request from the start with the String's whole length selects
/// exactly the String's bytes.
pub proof fn lemma_slice_full(b: Seq<u8>)
    ensures
        slice_bytes_spec(b, 0, b.len() as int) == b,
{
    if b.len() > 0 {
        assert(b.subrange(0, b.len() as int) =~= b);
    } else {
        assert(Seq::<u8>::empty() =~= b);
    }
}

/// The bit pattern of the positive IEEE-754 double infinity, as the payload
/// word it is boxed into.
pub const INFINITY_BITS: i64 = 9218868437227405312;

/// The bit pattern of the negative IEEE-754 double infinity, as the payload
/// word it is boxed into (the high bit set makes the word negative).
pub const NEG_INFINITY_BITS: i64 = -4503599627370496;

/// The bytes of the text `Infinity`.
pub open spec fn infinity_text() -> Seq<u8> {
    seq![73u8, 110u8, 102u8, 105u8, 110u8, 105u8, 116u8, 121u8]
}

/// The bytes of the text `-Infinity`.
pub open spec fn neg_infinity_text() -> Seq<u8> {
    seq![45u8, 73u8, 110u8, 102u8, 105u8, 110u8, 105u8, 116u8, 121u8]
}

/// Encodes the outcome of parsing a String as a 64-bit float. The spellings
/// `Infinity` and `-Infinity` map to the two infinity bit patterns before the
/// platform parser is consulted; for any other text the caller hands in the
/// parser's outcome (the bit pattern on success), and unparsable text yields
/// the empty result, never an error.
pub fn inko_string_to_float(bytes: &Vec<u8>, parsed_bits: Option<i64>) -> (r: RtResult)
    ensures
        bytes@ == infinity_text() ==> r == RtResult::Success(Pointer::Int(INFINITY_BITS)),
        bytes@ == neg_infinity_text() ==> r == RtResult::Success(Pointer::Int(NEG_INFINITY_BITS)),
        bytes@ != infinity_text() && bytes@ != neg_infinity_text() ==> r == (match parsed_bits {
            Some(v) => RtResult::Success(Pointer::Int(v)),
            None => RtResult::Empty,
        }),
{
    // "Infinity"
    let inf = vec![73u8, 110u8, 102u8, 105u8, 110u8, 105u8, 116u8, 121u8];
    // "-Infinity"
    let neg_inf = vec![45u8, 73u8, 110u8, 102u8, 105u8, 110u8, 105u8, 116u8, 121u8];
    proof {
        assert(inf@ =~= infinity_text());
        assert(neg_inf@ =~= neg_infinity_text());
    }
    if bytes_eq(bytes, &inf) {
        RtResult::Success(Pointer::Int(INFINITY_BITS))
    } else if bytes_eq(bytes, &neg_inf) {
        RtResult::Success(Pointer::Int(NEG_INFINITY_BITS))
    } else {
        match parsed_bits {
            Some(v) => RtResult::Success(Pointer::Int(v)),
            None => RtResult::Empty,
        }
    }
}

/// A cursor over the grapheme clusters of one String. It is created over the
/// String's text, stepped with `inko_string_chars_next` until the clusters are
/// exhausted, and disposed explicitly; it cannot be restarted.
pub struct GraphemeCursor {
    pub items: Vec<Vec<u8>>,
    pub pos: usize,
}

impl GraphemeCursor {
    /// The position never passes the end.
    pub open spec fn wf(self) -> bool {
        self.pos <= self.items@.len()
    }

    /// The clusters, each as the bytes of its one-grapheme String.
    pub open spec fn clusters(self) -> Seq<Seq<u8>> {
        self.items@.map_values(|v: Vec<u8>| v@)
    }
}

/// Creates a cursor over the grapheme clusters of the String; the String's
/// bytes are read once and the String itself is untouched.
pub fn inko_string_chars(heap: &Heap, string: Pointer) -> (c: GraphemeCursor)
    requires
        heap.is_str(string),
    ensures
        c.wf(),
        c.pos == 0,
        c.clusters() == grapheme_bytes_of(heap.str_bytes(string)),
{
    let bytes = match heap.read(string) {
        HeapValue::Str(b) => clone_bytes(b),
        _ => Vec::new(),
    };
    let items: Vec<Vec<u8>> = match utf8_view(&bytes) {
        Some(s) => {
            let gs = grapheme_split(s);
            let ghost target = grapheme_split_of(s@).map_values(|g: Seq<char>| utf8_of(g));
            let mut out: Vec<Vec<u8>> = Vec::new();
            let mut i: usize = 0;
            while i < gs.len()
                invariant
                    i <= gs@.len(),
                    gs@.map_values(|g: String| g@) == grapheme_split_of(s@),
                    target == grapheme_split_of(s@).map_values(|g: Seq<char>| utf8_of(g)),
                    out@.len() == i,
                    forall|j: int| 0 <= j < i ==> #[trigger] out@[j]@ == target[j],
                decreases gs@.len() - i,
            {
                let piece = encode_utf8(gs[i].as_str());
                proof {
                    assert(gs@.map_values(|g: String| g@)[i as int] == gs@[i as int]@);
                    assert(target[i as int] == utf8_of(grapheme_split_of(s@)[i as int]));
                }
                out.push(piece);
                i = i + 1;
            }
            proof {
                assert(out@.map_values(|v: Vec<u8>| v@) =~= target);
            }
            out
        },
        None => Vec::new(),
    };
    proof {
        assert(items@.map_values(|v: Vec<u8>| v@) =~= grapheme_bytes_of(bytes@));
    }
    GraphemeCursor { items, pos: 0 }
}

/// Steps the cursor: while clusters remain, allocates a one-grapheme String
/// holding the next cluster and advances; an exhausted cursor yields the empty
/// result and stays exhausted, so iteration cannot restart.
pub fn inko_string_chars_next(state: &RtState, heap: &mut Heap, iter: &mut GraphemeCursor) -> (r:
    RtResult)
    requires
        old(iter).wf(),
    ensures
        final(iter).wf(),
        final(iter).items == old(iter).items,
        old(iter).pos < old(iter).items@.len() ==> final(iter).pos == old(iter).pos + 1,
        old(iter).pos < old(iter).items@.len() ==> grown_by(*old(heap), *final(heap)),
        old(iter).pos < old(iter).items@.len() ==> r == RtResult::Success(old(heap).fresh_ref()),
        old(iter).pos < old(iter).items@.len() ==> final(heap).is_str(old(heap).fresh_ref())
            && final(heap).str_bytes(old(heap).fresh_ref()) == old(iter).clusters()[old(
            iter,
        ).pos as int] && final(heap).object_at(old(heap).fresh_ref()).class == state.string_class,
        old(iter).pos >= old(iter).items@.len() ==> r == RtResult::Empty && *final(heap) == *old(
            heap,
        ) && final(iter).pos == old(iter).pos,
{
    if iter.pos < iter.items.len() {
        let b = clone_bytes(&iter.items[iter.pos]);
        iter.pos = iter.pos + 1;
        let p = heap.allocate(state.string_class, HeapValue::Str(b));
        RtResult::Success(p)
    } else {
        RtResult::Empty
    }
}

/// Disposes a grapheme cursor. Disposal is explicit: nothing else releases a
/// cursor, and a disposed cursor cannot be stepped again.
pub fn inko_string_chars_drop(iter: GraphemeCursor) {
    let _ = iter;
}

/// Allocates a String from bytes handed over by foreign code, replacing any
/// invalid sequences so the new String is valid text.
pub fn inko_string_from_pointer(state: &RtState, heap: &mut Heap, bytes: &Vec<u8>) -> (p: Pointer)
    ensures
        grown_by(*old(heap), *final(heap)),
        p == old(heap).fresh_ref(),
        final(heap).is_str(p),
        final(heap).str_bytes(p) == utf8_of(lossy_chars_of(bytes@)),
        final(heap).object_at(p).class == state.string_class,
{
    let s = lossy_decode(bytes);
    let encoded = encode_utf8(s.as_str());
    heap.allocate(state.string_class, HeapValue::Str(encoded))
}

} // verus!
