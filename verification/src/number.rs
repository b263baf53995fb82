//! Numbers on the wire: which elements stand for an integer, and for which.
//!
//! Servers answer with 32-bit integers, 64-bit integers and doubles as they
//! see fit, so a count or an `ok` flag may come in any of the three. A
//! double is read from its IEEE-754 bit pattern with integer arithmetic
//! alone.

use vstd::prelude::*;
use vstd::arithmetic::power2::{
    lemma2_to64, lemma2_to64_rest, lemma_pow2_strictly_increases, lemma_pow2_unfold, pow2,
};
use vstd::arithmetic::div_mod::lemma_small_mod;
use crate::document::{bson_as_double_bits, bson_as_i32, bson_as_i64, bson_view, Value};

verus! {

/// Two to the power 52: the weight of a double's implicit leading bit.
pub const HIDDEN_BIT: u64 = 0x10_0000_0000_0000;

/// Whether the sign bit of a double is set.
pub open spec fn double_negative(bits: u64) -> bool {
    bits >= 0x8000_0000_0000_0000
}

/// The biased exponent of a double: its bits 52 to 62.
pub open spec fn double_exponent(bits: u64) -> nat {
    ((bits as nat) / (HIDDEN_BIT as nat)) % 2048
}

/// The fraction of a double: its low 52 bits.
pub open spec fn double_fraction(bits: u64) -> nat {
    (bits as nat) % (HIDDEN_BIT as nat)
}

/// The absolute value of a double, where the double is a whole number.
///
/// Infinities, NaNs and subnormal numbers are not whole; both zeros are. A
/// normal double is its 53-bit significand times two to the power of its
/// exponent less 1075.
pub open spec fn double_magnitude(bits: u64) -> Option<nat> {
    let e = double_exponent(bits);
    let f = double_fraction(bits);
    let significand = HIDDEN_BIT as nat + f;
    if e == 2047 {
        None
    } else if e == 0 {
        if f == 0 {
            Some(0)
        } else {
            None
        }
    } else if e >= 1075 {
        Some(significand * pow2((e - 1075) as nat))
    } else if significand % pow2((1075 - e) as nat) == 0 {
        Some(significand / pow2((1075 - e) as nat))
    } else {
        None
    }
}

/// The whole number that a double is, where it is one.
pub open spec fn double_integer(bits: u64) -> Option<int> {
    match double_magnitude(bits) {
        Some(m) => Some(
            if double_negative(bits) {
                -(m as int)
            } else {
                m as int
            },
        ),
        None => None,
    }
}

/// The whole number that an element stands for: that of an integer element,
/// or of a double that is whole.
pub open spec fn integer_of(v: Value) -> Option<int> {
    match v {
        Value::Int32(n) => Some(n as int),
        Value::Int64(n) => Some(n as int),
        Value::Double(bits) => double_integer(bits),
        _ => None,
    }
}

/// Two to the power `k`.
fn power_of_two(k: u64) -> (r: u64)
    requires
        k < 64,
    ensures
        r == pow2(k as nat),
{
    let mut r: u64 = 1;
    let mut i: u64 = 0;
    proof {
        lemma2_to64();
    }
    while i < k
        invariant
            i <= k,
            k < 64,
            r == pow2(i as nat),
        decreases k - i,
    {
        proof {
            lemma_pow2_unfold((i + 1) as nat);
            lemma2_to64_rest();
            if i + 1 < 63 {
                lemma_pow2_strictly_increases((i + 1) as nat, 63);
            }
        }
        r = r * 2;
        i += 1;
    }
    r
}

/// The sign and the absolute value of a double that is a whole number of
/// at most 64 bits.
pub fn double_to_integer(bits: u64) -> (r: Option<(bool, u64)>)
    ensures
        r == match double_magnitude(bits) {
            Some(m) => if m <= u64::MAX {
                Some((double_negative(bits), m as u64))
            } else {
                None
            },
            None => None,
        },
{
    let negative = bits >= 0x8000_0000_0000_0000;
    let e = (bits / HIDDEN_BIT) % 2048;
    let f = bits % HIDDEN_BIT;
    let significand = HIDDEN_BIT + f;
    proof {
        lemma2_to64();
        lemma2_to64_rest();
    }
    if e == 2047 {
        None
    } else if e == 0 {
        if f == 0 {
            Some((negative, 0))
        } else {
            None
        }
    } else if e >= 1075 {
        let k = e - 1075;
        if k > 11 {
            proof {
                if k > 12 {
                    lemma_pow2_strictly_increases(12, k as nat);
                }
                assert(significand * pow2(k as nat) > u64::MAX) by (nonlinear_arith)
                    requires
                        significand >= 0x10_0000_0000_0000,
                        pow2(k as nat) >= 0x1000,
                ;
            }
            None
        } else {
            let p = power_of_two(k);
            proof {
                if k < 11 {
                    lemma_pow2_strictly_increases(k as nat, 11);
                }
                assert(significand * p <= u64::MAX) by (nonlinear_arith)
                    requires
                        significand < 0x20_0000_0000_0000,
                        p <= 0x800,
                ;
            }
            Some((negative, significand * p))
        }
    } else {
        let k = 1075 - e;
        if k > 52 {
            proof {
                if k > 53 {
                    lemma_pow2_strictly_increases(53, k as nat);
                }
                lemma_small_mod(significand as nat, pow2(k as nat));
            }
            None
        } else {
            let p = power_of_two(k);
            if significand % p == 0 {
                Some((negative, significand / p))
            } else {
                None
            }
        }
    }
}

/// The 64-bit signed integer with this sign and absolute value, if there is
/// one.
pub fn signed(negative: bool, magnitude: u64) -> (r: Option<i64>)
    ensures
        r == (if negative {
            if magnitude <= 0x8000_0000_0000_0000 {
                Some((-(magnitude as int)) as i64)
            } else {
                None
            }
        } else {
            if magnitude <= i64::MAX {
                Some(magnitude as i64)
            } else {
                None
            }
        }),
{
    if negative {
        if magnitude == 0x8000_0000_0000_0000 {
            Some(i64::MIN)
        } else if magnitude < 0x8000_0000_0000_0000 {
            Some(0 - (magnitude as i64))
        } else {
            None
        }
    } else if magnitude <= 0x7fff_ffff_ffff_ffff {
        Some(magnitude as i64)
    } else {
        None
    }
}

/// The whole number that an element stands for, as a 64-bit signed
/// integer: `None` for an element that stands for no whole number, or for
/// one out of that range.
pub fn get_int(b: &bson::Bson) -> (r: Option<i64>)
    ensures
        r == match integer_of(bson_view(*b)) {
            Some(n) => if i64::MIN <= n <= i64::MAX {
                Some(n as i64)
            } else {
                None
            },
            None => None,
        },
{
    if let Some(n) = bson_as_i32(b) {
        return Some(n as i64);
    }
    if let Some(n) = bson_as_i64(b) {
        return Some(n);
    }
    match bson_as_double_bits(b) {
        Some(bits) => match double_to_integer(bits) {
            Some((negative, magnitude)) => signed(negative, magnitude),
            None => None,
        },
        None => None,
    }
}

/// The whole number that an element stands for, as a 64-bit unsigned
/// integer: `None` for an element that stands for no whole number, or for
/// one out of that range.
pub fn get_u64(b: &bson::Bson) -> (r: Option<u64>)
    ensures
        r == match integer_of(bson_view(*b)) {
            Some(n) => if 0 <= n <= u64::MAX {
                Some(n as u64)
            } else {
                None
            },
            None => None,
        },
{
    if let Some(n) = bson_as_i32(b) {
        return if n >= 0 {
            Some(n as u64)
        } else {
            None
        };
    }
    if let Some(n) = bson_as_i64(b) {
        return if n >= 0 {
            Some(n as u64)
        } else {
            None
        };
    }
    match bson_as_double_bits(b) {
        Some(bits) => match double_to_integer(bits) {
            Some((negative, magnitude)) => if !negative || magnitude == 0 {
                Some(magnitude)
            } else {
                None
            },
            None => None,
        },
        None => None,
    }
}

} // verus!
