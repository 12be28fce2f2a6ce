use vstd::prelude::*;

verus! {

/// The sign bit of an IEEE-754 double.
pub const SIGN_BIT: u64 = 0x8000_0000_0000_0000;

/// The order key of the double whose bit pattern is `bits`.
///
/// For every pair of doubles that are not NaN, the integer order of their keys
/// is the order of the doubles: both zeros have key 0, negative numbers have
/// negative keys, and negating a double negates its key. Distances, dot
/// products and coordinates reach the decisions of this crate as such keys, so
/// that every comparison the engine makes is one of integers.
pub open spec fn key_of_bits(bits: u64) -> int {
    if bits < SIGN_BIT {
        bits as int
    } else {
        -((bits - SIGN_BIT) as int)
    }
}

/// The double with order key `k`; zero stands for positive zero.
pub open spec fn bits_of_key_spec(k: int) -> u64 {
    if k >= 0 {
        k as u64
    } else {
        (SIGN_BIT + (-k)) as u64
    }
}

/// The order key of the double whose bit pattern is `bits`.
pub fn order_key(bits: u64) -> (k: i64)
    ensures
        k as int == key_of_bits(bits),
        k != i64::MIN,
{
    if bits < SIGN_BIT {
        bits as i64
    } else {
        -((bits - SIGN_BIT) as i64)
    }
}

/// The bit pattern of the double with order key `k`.
pub fn bits_of_key(k: i64) -> (bits: u64)
    requires
        k != i64::MIN,
    ensures
        bits == bits_of_key_spec(k as int),
        key_of_bits(bits) == k,
{
    if k >= 0 {
        k as u64
    } else {
        SIGN_BIT + ((-k) as u64)
    }
}

/// `k` held within `[lo, hi]`: how a color channel is clamped to `[0, 1]`
/// before gamma correction.
pub fn clamp_key(k: i64, lo: i64, hi: i64) -> (r: i64)
    requires
        lo <= hi,
    ensures
        r == (if k < lo {
            lo
        } else if k > hi {
            hi
        } else {
            k
        }),
        lo <= r <= hi,
{
    if k < lo {
        lo
    } else if k > hi {
        hi
    } else {
        k
    }
}

/// A double's bits survive the trip through its order key, but for negative
/// zero, which comes back as positive zero.
pub proof fn lemma_key_round_trip(bits: u64)
    ensures
        bits != SIGN_BIT ==> bits_of_key_spec(key_of_bits(bits)) == bits,
        bits == SIGN_BIT ==> bits_of_key_spec(key_of_bits(bits)) == 0,
{
}

/// Keys are ordered as their doubles: among non-negative doubles the order of
/// bit patterns, among negative ones the reverse.
pub proof fn lemma_key_order(a: u64, b: u64)
    ensures
        a < SIGN_BIT && b < SIGN_BIT ==> (key_of_bits(a) < key_of_bits(b) <==> a < b),
        a >= SIGN_BIT && b >= SIGN_BIT ==> (key_of_bits(a) < key_of_bits(b) <==> b < a),
        a < SIGN_BIT && b >= SIGN_BIT ==> key_of_bits(b) <= key_of_bits(a),
{
}

} // verus!
