//! Bit-order correction: the module's serializer sends the least significant bit
//! first, the host bus the most significant bit first.
use vstd::prelude::*;

verus! {

/// The byte whose bit `i` is bit `7 - i` of `b`.
pub open spec fn reversed(b: u8) -> u8 {
    ((b & 0x01) << 7u8) | ((b & 0x02) << 5u8) | ((b & 0x04) << 3u8) | ((b & 0x08) << 1u8)
        | ((b & 0x10) >> 1u8) | ((b & 0x20) >> 3u8) | ((b & 0x40) >> 5u8) | ((b & 0x80) >> 7u8)
}

/// The low `n` bits of `b`, taken least significant first, as the bits of a byte
/// read most significant first.
spec fn reversed_prefix(b: u8, n: nat) -> u8
    decreases n,
{
    if n == 0 {
        0u8
    } else {
        ((reversed_prefix(b, (n - 1) as nat) << 1u8) | ((b >> ((n - 1) as u8)) & 1u8)) as u8
    }
}

proof fn lemma_reversed_prefix_full(b: u8)
    ensures
        reversed_prefix(b, 8) == reversed(b),
{
    reveal_with_fuel(reversed_prefix, 9);
    assert(reversed_prefix(b, 8) == reversed(b)) by (bit_vector);
}

/// Reverses the bit order of a byte.
pub fn reverse_bit(b: u8) -> (r: u8)
    ensures
        r == reversed(b),
{
    let mut result: u8 = 0;
    let mut num: u8 = b;
    let mut i: u8 = 0;
    assert(b >> 0u8 == b) by (bit_vector);
    while i < 8
        invariant
            i <= 8,
            num == b >> i,
            result == reversed_prefix(b, i as nat),
        decreases 8 - i,
    {
        result = (result << 1u8) | (num & 1u8);
        assert((b >> i) >> 1u8 == b >> ((i + 1) as u8)) by (bit_vector)
            requires
                i < 8,
        ;
        num = num >> 1u8;
        i = i + 1;
    }
    proof {
        lemma_reversed_prefix_full(b);
    }
    result
}

/// Reversing the bit order twice gives back the original byte.
pub proof fn lemma_reverse_bit_involutive(b: u8)
    ensures
        reversed(reversed(b)) == b,
{
    assert(reversed(reversed(b)) == b) by (bit_vector);
}

} // verus!
