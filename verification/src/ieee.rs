//! Bit patterns of IEEE 754 double-precision numbers, and their order.
//!
//! A pattern is a `u64`: one sign bit, eleven exponent bits, fifty-two bits of
//! fraction. Patterns whose exponent bits are all set and whose fraction is not
//! zero are not-a-number; they compare with nothing, themselves included.
use vstd::prelude::*;

verus! {

/// The pattern with only the sign bit set: negative zero.
pub const SIGN_BIT: u64 = 0x8000_0000_0000_0000;

/// The pattern of positive infinity: the largest magnitude that is a number.
pub const INFINITY: u64 = 0x7ff0_0000_0000_0000;

/// The quiet not-a-number pattern with which arrays are filled before a read.
pub const NAN: u64 = 0x7ff8_0000_0000_0000;

/// Whether the sign bit is set.
pub open spec fn is_negative(bits: u64) -> bool {
    bits >= SIGN_BIT
}

/// The pattern without its sign bit.
pub open spec fn magnitude(bits: u64) -> int {
    if is_negative(bits) {
        bits - SIGN_BIT
    } else {
        bits as int
    }
}

/// Whether the pattern is not-a-number.
pub open spec fn is_nan(bits: u64) -> bool {
    magnitude(bits) > INFINITY
}

/// An integer that orders the patterns that are numbers as their values are
/// ordered. Both zeros get 0.
pub open spec fn order_key(bits: u64) -> int {
    if is_negative(bits) {
        -magnitude(bits)
    } else {
        magnitude(bits)
    }
}

/// `a <= b` for the two numbers: false as soon as one of them is not-a-number.
pub open spec fn le(a: u64, b: u64) -> bool {
    !is_nan(a) && !is_nan(b) && order_key(a) <= order_key(b)
}

/// Whether each element is less than or equal to the one that follows it.
pub open spec fn sorted(values: Seq<u64>) -> bool {
    forall|i: int| 0 <= i < values.len() - 1 ==> le(#[trigger] values[i], values[i + 1])
}

/// Whether the pattern is not-a-number.
pub fn nan(bits: u64) -> (r: bool)
    ensures
        r == is_nan(bits),
{
    if bits >= SIGN_BIT {
        bits - SIGN_BIT > INFINITY
    } else {
        bits > INFINITY
    }
}

/// Whether `a <= b` holds of the two numbers.
pub fn less_or_equal(a: u64, b: u64) -> (r: bool)
    ensures
        r == le(a, b),
{
    if nan(a) || nan(b) {
        false
    } else if a >= SIGN_BIT {
        if b >= SIGN_BIT {
            // Both negative: the larger magnitude is the smaller number.
            b <= a
        } else {
            true
        }
    } else if b >= SIGN_BIT {
        // `a` is not negative, so only the two zeros are in order.
        a == 0 && b == SIGN_BIT
    } else {
        a <= b
    }
}

/// The order is transitive.
pub proof fn lemma_le_transitive(a: u64, b: u64, c: u64)
    requires
        le(a, b),
        le(b, c),
    ensures
        le(a, c),
{
}

/// In a sorted sequence any earlier element is less than or equal to any later
/// one.
pub proof fn lemma_sorted_pairs(values: Seq<u64>, i: int, j: int)
    requires
        sorted(values),
        0 <= i < j < values.len(),
    ensures
        le(values[i], values[j]),
    decreases j - i,
{
    if j == i + 1 {
    } else {
        lemma_sorted_pairs(values, i, j - 1);
        assert(le(values[j - 1], values[j - 1 + 1]));
        lemma_le_transitive(values[i], values[j - 1], values[j]);
    }
}

} // verus!
