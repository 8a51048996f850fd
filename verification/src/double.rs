//! Identifiers at the boundary to a runtime whose only numbers are
//! double-precision: a 64-bit identifier travels as the bit pattern of the
//! double nearest to it, and comes back by truncation.
//!
//! A double has 53 significant bits, so the passage is exact for identifiers
//! below 2^53 and rounds above.

use vstd::prelude::*;

verus! {

/// The first identifier that a double need not hold exactly: 2^53.
pub const EXACT_LIMIT: u64 = 0x20_0000_0000_0000;

/// The 52 fraction bits of a double.
pub const FRACTION_MASK: u64 = 0xF_FFFF_FFFF_FFFF;

/// The leading significand bit that a normal double leaves unwritten: 2^52.
pub const IMPLICIT_BIT: u64 = 0x10_0000_0000_0000;

/// The position of the highest set bit of a number that is not zero.
pub open spec fn top_bit(id: u64) -> u64 {
    choose|k: u64| k < 64 && id >> k == 1
}

/// The 53-bit significand of the double nearest to `id`, whose highest set
/// bit is at `k`: `id` itself, moved up to bit 52, where it has no more than
/// 53 bits, and else its upper 53 bits, rounded to nearest, ties to even.
/// Rounding up may give 2^53.
pub open spec fn significand(id: u64, k: u64) -> u64 {
    if k <= 52 {
        id << ((52 - k) as u64)
    } else {
        let shift = (k - 52) as u64;
        let kept = id >> shift;
        let rest = id & (((1u64 << shift) - 1) as u64);
        let half = 1u64 << ((shift - 1) as u64);
        if rest > half || (rest == half && kept & 1 == 1) {
            (kept + 1) as u64
        } else {
            kept
        }
    }
}

/// The bit pattern of the double nearest to `id`, ties to even.
pub open spec fn spec_id_to_double_bits(id: u64) -> u64 {
    if id == 0 {
        0
    } else {
        let k = top_bit(id);
        ((((k + 1022) as u64) << 52) + significand(id, k)) as u64
    }
}

/// The identifier that a double's bit pattern stands for: the double's value
/// without its fraction, zero for a negative value or a NaN, and the greatest
/// identifier for a value of 2^64 or more.
pub open spec fn spec_double_bits_to_id(bits: u64) -> u64 {
    let exponent = (bits >> 52) & 0x7FF;
    let fraction = bits & FRACTION_MASK;
    let mantissa = fraction | IMPLICIT_BIT;
    if bits >> 63 == 1 {
        0
    } else if exponent < 1023 {
        0
    } else if exponent == 0x7FF {
        if fraction == 0 {
            u64::MAX
        } else {
            0
        }
    } else if exponent > 1086 {
        u64::MAX
    } else if exponent <= 1075 {
        mantissa >> ((1075 - exponent) as u64)
    } else {
        mantissa << ((exponent - 1075) as u64)
    }
}

/// A number has its highest set bit at one position only.
pub proof fn lemma_top_bit_unique(id: u64, k: u64)
    requires
        k < 64,
        id >> k == 1,
    ensures
        top_bit(id) == k,
{
    let t = top_bit(id);
    assert(t < 64 && id >> t == 1);
    assert(t == k) by (bit_vector)
        requires
            t < 64,
            k < 64,
            id >> t == 1,
            id >> k == 1,
    ;
}

/// Finds the highest set bit.
fn find_top_bit(id: u64) -> (k: u64)
    requires
        id != 0,
    ensures
        k < 64,
        id >> k == 1,
        k == top_bit(id),
{
    let mut k: u64 = 63;
    while id >> k == 0
        invariant
            k < 64,
            id != 0,
            k == 63 || id >> ((k + 1) as u64) == 0,
        decreases k,
    {
        assert(k > 0) by (bit_vector)
            requires
                id != 0,
                id >> k == 0,
                k < 64,
        ;
        k = k - 1;
    }
    assert(id >> k == 1) by (bit_vector)
        requires
            k < 64,
            id >> k != 0,
            k == 63 || id >> ((k + 1) as u64) == 0,
    ;
    proof {
        lemma_top_bit_unique(id, k);
    }
    k
}

/// Computes the significand of the double nearest to `id`.
fn round_significand(id: u64, k: u64) -> (m: u64)
    requires
        k < 64,
        id >> k == 1,
    ensures
        m == significand(id, k),
        IMPLICIT_BIT <= m <= EXACT_LIMIT,
{
    if k <= 52 {
        let m = id << (52 - k);
        assert(0x10_0000_0000_0000 <= m <= 0x20_0000_0000_0000) by (bit_vector)
            requires
                k <= 52,
                id >> k == 1,
                m == id << ((52 - k) as u64),
        ;
        m
    } else {
        let shift: u64 = k - 52;
        let kept: u64 = id >> shift;
        assert(0x10_0000_0000_0000 <= kept < 0x20_0000_0000_0000) by (bit_vector)
            requires
                52 < k < 64,
                id >> k == 1,
                shift == (k - 52) as u64,
                kept == id >> shift,
        ;
        assert(1u64 << shift >= 1) by (bit_vector)
            requires
                0 < shift < 12,
        ;
        let rest: u64 = id & ((1u64 << shift) - 1);
        let half: u64 = 1u64 << (shift - 1);
        if rest > half || (rest == half && kept & 1 == 1) {
            kept + 1
        } else {
            kept
        }
    }
}

/// The bit pattern of the double nearest to `id`. Below 2^53 the double holds
/// `id` exactly: truncating it gives `id` back.
pub fn id_to_double_bits(id: u64) -> (bits: u64)
    ensures
        bits == spec_id_to_double_bits(id),
        id < EXACT_LIMIT ==> spec_double_bits_to_id(bits) == id,
{
    if id == 0 {
        assert(spec_double_bits_to_id(0) == 0) by (bit_vector);
        return 0;
    }
    let k = find_top_bit(id);
    let m = round_significand(id, k);
    let high: u64 = (k + 1022) << 52;
    assert(high <= 0x43D0_0000_0000_0000) by (bit_vector)
        requires
            k < 64,
            high == ((k + 1022) as u64) << 52,
    ;
    let bits = high + m;
    proof {
        if id < EXACT_LIMIT {
            lemma_exact_passage(id, k);
        }
    }
    bits
}

/// The identifier that a double's bit pattern stands for: the double's value
/// without its fraction, zero for a negative value or a NaN, and the greatest
/// identifier for a value of 2^64 or more.
pub fn double_bits_to_id(bits: u64) -> (id: u64)
    ensures
        id == spec_double_bits_to_id(bits),
{
    let exponent: u64 = (bits >> 52) & 0x7FF;
    let fraction: u64 = bits & FRACTION_MASK;
    let mantissa: u64 = fraction | IMPLICIT_BIT;
    assert(exponent <= 0x7FF) by (bit_vector)
        requires
            exponent == (bits >> 52) & 0x7FF,
    ;
    if bits >> 63 == 1 {
        0
    } else if exponent < 1023 {
        0
    } else if exponent == 0x7FF {
        if fraction == 0 {
            u64::MAX
        } else {
            0
        }
    } else if exponent > 1086 {
        u64::MAX
    } else if exponent <= 1075 {
        mantissa >> (1075 - exponent)
    } else {
        mantissa << (exponent - 1075)
    }
}

/// An identifier with its highest set bit at `k`, no higher than bit 52, is
/// held exactly by its double.
proof fn lemma_exact_passage(id: u64, k: u64)
    requires
        k < 64,
        id >> k == 1,
        id < EXACT_LIMIT,
    ensures
        spec_double_bits_to_id(((((k + 1022) as u64) << 52) + significand(id, k)) as u64) == id,
{
    assert(k <= 52) by (bit_vector)
        requires
            k < 64,
            id >> k == 1,
            id < 0x20_0000_0000_0000,
    ;
    let m = id << ((52 - k) as u64);
    assert(m == significand(id, k));
    let high = ((k + 1022) as u64) << 52;
    assert(high + m < 0x8000_0000_0000_0000) by (bit_vector)
        requires
            k <= 52,
            id >> k == 1,
            m == id << ((52 - k) as u64),
            high == ((k + 1022) as u64) << 52,
    ;
    let bits = (high + m) as u64;
    let exponent = (bits >> 52) & 0x7FF;
    assert(bits >> 63 == 0 && exponent == k + 1023 && ((bits & 0xF_FFFF_FFFF_FFFF)
        | 0x10_0000_0000_0000) >> ((1075 - exponent) as u64) == id) by (bit_vector)
        requires
            k <= 52,
            id >> k == 1,
            m == id << ((52 - k) as u64),
            high == ((k + 1022) as u64) << 52,
            bits == high + m,
            exponent == (bits >> 52) & 0x7FF,
    ;
}

/// Every identifier below 2^53 comes back unchanged from its passage through
/// a double.
pub proof fn lemma_identifier_round_trip(id: u64)
    requires
        id < EXACT_LIMIT,
    ensures
        spec_double_bits_to_id(spec_id_to_double_bits(id)) == id,
{
    if id == 0 {
        assert(spec_double_bits_to_id(0) == 0) by (bit_vector);
    } else {
        assert(exists|k: u64| k < 64 && id >> k == 1) by {
            lemma_has_top_bit(id);
        }
        let k = top_bit(id);
        lemma_exact_passage(id, k);
    }
}

/// A number that is not zero has a highest set bit.
proof fn lemma_has_top_bit(id: u64)
    requires
        id != 0,
    ensures
        exists|k: u64| k < 64 && id >> k == 1,
{
    lemma_has_top_bit_below(id, 63);
}

/// A number that is not zero and has no bit above `limit` has its highest set
/// bit at `limit` or below.
proof fn lemma_has_top_bit_below(id: u64, limit: u64)
    requires
        id != 0,
        limit < 64,
        limit == 63 || id >> ((limit + 1) as u64) == 0,
    ensures
        exists|k: u64| k < 64 && id >> k == 1,
    decreases limit,
{
    if id >> limit == 0 {
        assert(limit > 0) by (bit_vector)
            requires
                id != 0,
                id >> limit == 0,
                limit < 64,
        ;
        lemma_has_top_bit_below(id, (limit - 1) as u64);
    } else {
        assert(id >> limit == 1) by (bit_vector)
            requires
                limit < 64,
                id >> limit != 0,
                limit == 63 || id >> ((limit + 1) as u64) == 0,
        ;
    }
}

} // verus!
