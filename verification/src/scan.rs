//! Searching bytes.
use vstd::prelude::*;

verus! {

/// The index of the first `byte` in `bytes` at or after `from`, or the length
/// of `bytes` where there is none.
pub open spec fn find(bytes: Seq<u8>, from: int, byte: u8) -> int
    decreases bytes.len() - from,
{
    if from < 0 || from >= bytes.len() {
        bytes.len() as int
    } else if bytes[from] == byte {
        from
    } else {
        find(bytes, from + 1, byte)
    }
}

/// The index of the first `byte` in `bytes` at or after `from`, or the length
/// of `bytes` where there is none.
pub fn find_byte(bytes: &[u8], from: usize, byte: u8) -> (at: usize)
    ensures
        at == find(bytes@, from as int, byte),
        at <= bytes@.len(),
        from <= bytes@.len() ==> from <= at,
{
    if from >= bytes.len() {
        return bytes.len();
    }
    let mut at: usize = from;
    while at < bytes.len() && bytes[at] != byte
        invariant
            from <= at <= bytes@.len(),
            find(bytes@, from as int, byte) == find(bytes@, at as int, byte),
        decreases bytes@.len() - at,
    {
        at = at + 1;
    }
    at
}

} // verus!
