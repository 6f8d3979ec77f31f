//! Sign extension of narrow immediates to full words.
use vstd::prelude::*;

verus! {

/// `a + b` modulo 2^32.
pub open spec fn wadd(a: u32, b: u32) -> u32 {
    if a + b > u32::MAX {
        (a + b - 0x1_0000_0000) as u32
    } else {
        (a + b) as u32
    }
}

/// `a - b` modulo 2^32.
pub open spec fn wsub(a: u32, b: u32) -> u32 {
    if a - b < 0 {
        (a - b + 0x1_0000_0000) as u32
    } else {
        (a - b) as u32
    }
}

/// Mask of the `len` low bits of a word (`len < 32`).
pub open spec fn low_mask(len: u32) -> u32 {
    !(0xffff_ffffu32 << len)
}

/// Bit `i` of `v`.
pub open spec fn bit_of(v: u32, i: u32) -> bool {
    (v >> i) & 1u32 == 1u32
}

/// `v` read as a `len`-bit two's complement value, widened to 32 bits: the
/// `len` low bits are kept and every bit above them takes the value of bit
/// `len - 1`.
pub open spec fn sext_spec(v: u32, len: u32) -> u32 {
    if len >= 32 {
        v
    } else if bit_of(v, (len - 1) as u32) {
        (v & low_mask(len)) | !low_mask(len)
    } else {
        v & low_mask(len)
    }
}

/// Sign-extends the `len` low bits of `value` to 32 bits.
pub fn sext(value: u32, len: usize) -> (r: u32)
    requires
        0 < len <= 32,
    ensures
        r == sext_spec(value, len as u32),
{
    let bit_len: usize = 32;
    if len == bit_len {
        return value;
    }
    let l = len as u32;
    let sign = (value >> (l - 1)) & 0x1;
    proof {
        assert(0 < l < 32 ==> (1u32 << l) >= 1 && (1u32 << (32 - l) as u32) >= 1 && ((1u32
            << l) - 1) as u32 == low_mask(l) && (((1u32 << (32 - l) as u32) - 1) as u32) << l
            == !low_mask(l) && ((((value >> (l - 1) as u32) & 1u32) == 0u32) == !bit_of(
            value,
            (l - 1) as u32,
        ))) by (bit_vector);
    }
    let mask = (1u32 << l) - 1;
    if sign == 0 {
        value & mask
    } else {
        let high = ((1u32 << (32 - l)) - 1) << l;
        value & mask | high
    }
}

/// Sign extension is idempotent for every width from 1 to 32, and the full
/// width leaves a word unchanged.
pub proof fn lemma_sext_idempotent(v: u32, len: u32)
    requires
        1 <= len <= 32,
    ensures
        sext_spec(sext_spec(v, len), len) == sext_spec(v, len),
        sext_spec(v, 32) == v,
{
    assert(1 <= len < 32 ==> bit_of(v, (len - 1) as u32) == bit_of(
        (v & low_mask(len)) | !low_mask(len),
        (len - 1) as u32,
    ) && bit_of(v, (len - 1) as u32) == bit_of(v & low_mask(len), (len - 1) as u32)
        && ((((v & low_mask(len)) | !low_mask(len)) & low_mask(len)) | !low_mask(len)) == (v
        & low_mask(len)) | !low_mask(len) && ((v & low_mask(len)) & low_mask(len)) == v
        & low_mask(len)) by (bit_vector);
}

} // verus!
