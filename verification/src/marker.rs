//! The marker that a terminal's answer is searched for.

use vstd::prelude::*;

verus! {

/// First byte of the marker, `_`.
pub const MARKER_FIRST: u8 = 0x5f;

/// Second byte of the marker, `G`.
pub const MARKER_SECOND: u8 = 0x47;

/// Third byte of the marker, `i`.
pub const MARKER_THIRD: u8 = 0x69;

/// Number of bytes in the marker.
pub const MARKER_LEN: usize = 3;

/// The marker as a sequence of bytes: `_Gi`.
pub open spec fn marker() -> Seq<u8> {
    seq![0x5fu8, 0x47u8, 0x69u8]
}

/// The bytes `_Gi` stand in `bytes` from position `at` on.
pub open spec fn marker_at(bytes: Seq<u8>, at: int) -> bool {
    &&& 0 <= at
    &&& at + 3 <= bytes.len()
    &&& bytes[at] == 0x5f
    &&& bytes[at + 1] == 0x47
    &&& bytes[at + 2] == 0x69
}

/// The bytes `_Gi` stand somewhere in `bytes`, next to each other.
pub open spec fn has_marker(bytes: Seq<u8>) -> bool {
    exists|at: int| marker_at(bytes, at)
}

/// `at` is the first position of `bytes` at which the marker stands.
pub open spec fn first_marker_at(bytes: Seq<u8>, at: int) -> bool {
    &&& marker_at(bytes, at)
    &&& forall|before: int| 0 <= before < at ==> !marker_at(bytes, before)
}

/// Searches the whole of `bytes` for the marker and gives the first position
/// at which it stands.  The search is over raw bytes: it knows nothing of
/// escape sequences.
pub fn find_marker(bytes: &[u8]) -> (found: Option<usize>)
    ensures
        found is Some <==> has_marker(bytes@),
        found matches Some(at) ==> first_marker_at(bytes@, at as int),
{
    let len: usize = bytes.len();
    if len < MARKER_LEN {
        return None;
    }
    let last: usize = len - MARKER_LEN;
    let mut at: usize = 0;
    while at <= last
        invariant
            len == bytes@.len(),
            last + 3 == len,
            at <= last + 1,
            forall|before: int| 0 <= before < at ==> !marker_at(bytes@, before),
        decreases last + 1 - at,
    {
        if bytes[at] == MARKER_FIRST && bytes[at + 1] == MARKER_SECOND && bytes[at + 2]
            == MARKER_THIRD {
            assert(marker_at(bytes@, at as int));
            return Some(at);
        }
        at += 1;
    }
    None
}

/// Says whether the marker stands anywhere in `bytes`.
pub fn contains_marker(bytes: &[u8]) -> (found: bool)
    ensures
        found == has_marker(bytes@),
{
    find_marker(bytes).is_some()
}

/// A marker, once received, is never lost by receiving more: whatever
/// follows the bytes in which it stands, the search still finds it.
pub proof fn lemma_marker_survives_growth(received: Seq<u8>, more: Seq<u8>)
    requires
        has_marker(received),
    ensures
        has_marker(received + more),
{
    let at = choose|at: int| marker_at(received, at);
    assert(marker_at(received + more, at));
}

/// A marker that is cut by the boundary between two reads, `cut` of its
/// bytes ending the first and the rest starting the second, stands in what
/// the two reads delivered together, though neither part holds it.
pub proof fn lemma_marker_across_reads(first: Seq<u8>, second: Seq<u8>, cut: int)
    requires
        0 < cut < 3,
        cut <= first.len(),
        3 - cut <= second.len(),
        first.subrange(first.len() - cut, first.len() as int) == marker().subrange(0, cut),
        second.subrange(0, 3 - cut) == marker().subrange(cut, 3),
    ensures
        marker_at(first + second, first.len() - cut),
{
    let joined = first + second;
    let start = first.len() - cut;
    let tail = first.subrange(start, first.len() as int);
    let head = second.subrange(0, 3 - cut);
    assert forall|k: int| 0 <= k < 3 implies joined[start + k] == marker()[k] by {
        if k < cut {
            assert(joined[start + k] == tail[k]);
            assert(marker().subrange(0, cut)[k] == marker()[k]);
        } else {
            assert(joined[start + k] == head[k - cut]);
            assert(marker().subrange(cut, 3)[k - cut] == marker()[k]);
        }
    }
    assert(joined[start + 0] == marker()[0]);
    assert(joined[start + 1] == marker()[1]);
    assert(joined[start + 2] == marker()[2]);
}

} // verus!
