//! How a piece of text begins and ends, byte by byte.

use vstd::prelude::*;

verus! {

/// `bytes` begin with `prefix`.
pub open spec fn starts_with(bytes: Seq<u8>, prefix: Seq<u8>) -> bool {
    prefix.len() <= bytes.len() && bytes.subrange(0, prefix.len() as int) == prefix
}

/// `bytes` end with `suffix`.
pub open spec fn ends_with(bytes: Seq<u8>, suffix: Seq<u8>) -> bool {
    suffix.len() <= bytes.len() && bytes.subrange(bytes.len() - suffix.len(), bytes.len() as int)
        == suffix
}

/// Says whether `bytes` hold `part` from position `from` on.
fn holds_at(bytes: &[u8], from: usize, part: &[u8]) -> (held: bool)
    requires
        from + part@.len() <= bytes@.len(),
    ensures
        held == (bytes@.subrange(from as int, from + part@.len()) == part@),
{
    let ghost window = bytes@.subrange(from as int, from + part@.len());
    let len: usize = bytes.len();
    let mut at: usize = 0;
    while at < part.len()
        invariant
            len == bytes@.len(),
            at <= part@.len(),
            from + part@.len() <= bytes@.len(),
            window == bytes@.subrange(from as int, from + part@.len()),
            forall|k: int| 0 <= k < at ==> window[k] == part@[k],
        decreases part@.len() - at,
    {
        if bytes[from + at] != part[at] {
            assert(window[at as int] != part@[at as int]);
            return false;
        }
        at += 1;
    }
    assert(window =~= part@);
    true
}

/// Says whether `bytes` begin with `prefix`.
pub fn has_prefix(bytes: &[u8], prefix: &[u8]) -> (held: bool)
    ensures
        held == starts_with(bytes@, prefix@),
{
    if prefix.len() > bytes.len() {
        return false;
    }
    holds_at(bytes, 0, prefix)
}

/// Says whether `bytes` end with `suffix`.
pub fn has_suffix(bytes: &[u8], suffix: &[u8]) -> (held: bool)
    ensures
        held == ends_with(bytes@, suffix@),
{
    if suffix.len() > bytes.len() {
        return false;
    }
    holds_at(bytes, bytes.len() - suffix.len(), suffix)
}

} // verus!
