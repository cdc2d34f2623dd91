//! Conversion between the variants of an enumeration and their integer
//! codes, driven by the table of the codes in the order of the variants.

use vstd::prelude::*;

verus! {

/// The position of the first variant whose code is `value`, if any.
pub open spec fn position_of(codes: Seq<u8>, value: u8) -> Option<int> {
    if exists|i: int| 0 <= i < codes.len() && codes[i] == value {
        Some(first_position(codes, value))
    } else {
        None
    }
}

/// The least position at which `value` stands in `codes`, and the length
/// of `codes` where it stands nowhere.
pub open spec fn first_position(codes: Seq<u8>, value: u8) -> int
    decreases codes.len(),
{
    if codes.len() == 0 {
        0
    } else if codes[0] == value {
        0
    } else {
        1 + first_position(codes.subrange(1, codes.len() as int), value)
    }
}

/// No code stands for two variants.
pub open spec fn codes_distinct(codes: Seq<u8>) -> bool {
    forall|i: int, j: int| 0 <= i < j < codes.len() ==> codes[i] != codes[j]
}

/// `first_position` is the least position of `value`: the code there is
/// `value` and no earlier code is; where `value` is no code at all it is
/// the length.
pub proof fn lemma_first_position(codes: Seq<u8>, value: u8)
    ensures
        0 <= first_position(codes, value) <= codes.len(),
        first_position(codes, value) < codes.len() ==> codes[first_position(codes, value)] == value,
        forall|j: int| 0 <= j < first_position(codes, value) ==> codes[j] != value,
    decreases codes.len(),
{
    if codes.len() > 0 && codes[0] != value {
        let rest = codes.subrange(1, codes.len() as int);
        lemma_first_position(rest, value);
        let p = first_position(rest, value);
        assert forall|j: int| 0 <= j < 1 + p implies codes[j] != value by {
            if j > 0 {
                assert(rest[j - 1] == codes[j]);
            }
        }
        if p < rest.len() {
            assert(rest[p] == codes[p + 1]);
        }
    }
}

/// The code of the variant at `index`.
pub fn encode(codes: &[u8], index: usize) -> (r: u8)
    requires
        index < codes@.len(),
    ensures
        r == codes@[index as int],
{
    codes[index]
}

/// The variant that `value` stands for: the position of the first code
/// equal to it. A value that is no code is handed back as the error.
pub fn decode(codes: &[u8], value: u8) -> (r: Result<usize, u8>)
    ensures
        match r {
            Ok(i) => position_of(codes@, value) == Some(i as int),
            Err(v) => v == value && position_of(codes@, value) is None,
        },
        r is Ok <==> codes@.contains(value),
{
    let n = codes.len();
    let mut i: usize = 0;
    while i < n
        invariant
            n == codes@.len(),
            i <= n,
            forall|j: int| 0 <= j < i ==> codes@[j] != value,
        decreases n - i,
    {
        if codes[i] == value {
            proof {
                lemma_first_position(codes@, value);
                assert(codes@.contains(value));
            }
            return Ok(i);
        }
        i += 1;
    }
    Err(value)
}

/// Decoding undoes encoding where no code stands for two variants.
pub proof fn lemma_decode_encode(codes: Seq<u8>, index: int)
    requires
        codes_distinct(codes),
        0 <= index < codes.len(),
    ensures
        position_of(codes, codes[index]) == Some(index),
{
    lemma_first_position(codes, codes[index]);
    let p = first_position(codes, codes[index]);
    if p < index {
        assert(codes[p] == codes[index]);
    }
}

/// Encoding undoes decoding: the code at the position that decoding found
/// is the value that was decoded.
pub proof fn lemma_encode_decode(codes: Seq<u8>, value: u8)
    requires
        position_of(codes, value) is Some,
    ensures
        0 <= position_of(codes, value)->0 < codes.len(),
        codes[position_of(codes, value)->0] == value,
{
    lemma_first_position(codes, value);
    let w = choose|i: int| 0 <= i < codes.len() && codes[i] == value;
    let p = first_position(codes, value);
    if p >= codes.len() {
        assert(codes[w] != value);
    }
}

} // verus!
