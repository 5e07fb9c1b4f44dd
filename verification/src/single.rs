//! The numbers that IEEE 754 single-precision bit patterns stand for, as far
//! as comparing them needs: every pattern that is not a NaN is given the
//! integer `value * 2^149`, which is exact for all finite patterns.

use vstd::prelude::*;
use vstd::arithmetic::mul::{lemma_mul_inequality, lemma_mul_strict_inequality};
use vstd::arithmetic::power2::{
    lemma2_to64,
    lemma_pow2_adds,
    lemma_pow2_pos,
    lemma_pow2_strictly_increases,
    lemma_pow2_unfold,
    pow2,
};

verus! {

/// The pattern of positive infinity; every larger magnitude is a NaN.
pub const INFINITY: u32 = 0x7f80_0000;

/// The lowest pattern with the sign bit set.
pub const SIGN: u32 = 0x8000_0000;

/// The number of patterns that share one exponent: two to the 23rd.
pub const FRACTIONS: u32 = 0x80_0000;

/// Whether the sign bit is set.
pub open spec fn is_negative(bits: u32) -> bool {
    bits >= SIGN
}

/// The pattern without its sign bit.
pub open spec fn magnitude(bits: u32) -> int {
    if bits >= SIGN {
        bits - SIGN
    } else {
        bits as int
    }
}

/// The biased exponent, from 0 to 255.
pub open spec fn exponent(bits: u32) -> nat {
    (magnitude(bits) / (FRACTIONS as int)) as nat
}

/// The 23 fraction bits.
pub open spec fn fraction(bits: u32) -> nat {
    (magnitude(bits) % (FRACTIONS as int)) as nat
}

/// Whether the pattern is a NaN: the exponent is 255 and the fraction is not
/// zero.
pub open spec fn is_nan(bits: u32) -> bool {
    magnitude(bits) > INFINITY
}

/// The significand in units of the last place: the fraction alone for a
/// subnormal, the fraction with the implicit leading one otherwise.
pub open spec fn significand(bits: u32) -> nat {
    if exponent(bits) == 0 {
        fraction(bits)
    } else {
        FRACTIONS as nat + fraction(bits)
    }
}

/// The weight of the last place, in units of `2^-149`.
pub open spec fn weight(bits: u32) -> nat {
    if exponent(bits) == 0 {
        1
    } else {
        pow2((exponent(bits) - 1) as nat)
    }
}

/// The number the pattern stands for, times `2^149`. An infinity gets the
/// integer that the next exponent would give, which lies beyond every finite
/// value on its side; of a NaN this says nothing.
pub open spec fn scaled(bits: u32) -> int {
    if is_negative(bits) {
        -(significand(bits) * weight(bits))
    } else {
        (significand(bits) * weight(bits)) as int
    }
}

/// Whether the pattern stands for a number, and not for an infinity or a NaN.
pub open spec fn is_finite(bits: u32) -> bool {
    magnitude(bits) < INFINITY
}

/// Whether the pattern stands for a number that is at least the integer `n`.
pub open spec fn at_least(bits: u32, n: int) -> bool {
    !is_nan(bits) && scaled(bits) >= n * pow2(149)
}

/// Whether the pattern stands for a number that is at most the integer `n`.
pub open spec fn at_most(bits: u32, n: int) -> bool {
    !is_nan(bits) && scaled(bits) <= n * pow2(149)
}

/// A pattern with the sign bit set that is no NaN stands for a number that
/// is zero or less.
pub proof fn lemma_negative_is_not_positive(bits: u32)
    requires
        is_negative(bits),
    ensures
        scaled(bits) <= 0,
{
    lemma_pow2_pos((exponent(bits) - 1) as nat);
    assert(significand(bits) * weight(bits) >= 0) by (nonlinear_arith)
        requires
            significand(bits) >= 0,
            weight(bits) >= 0,
    ;
}

/// Among the patterns without sign bit, up to positive infinity, a larger
/// pattern stands for a larger number.
pub proof fn lemma_order_of_patterns(a: u32, b: u32)
    requires
        a < b <= INFINITY,
    ensures
        scaled(a) < scaled(b),
{
    let ea = exponent(a);
    let eb = exponent(b);
    let unit = FRACTIONS as int;
    assert(ea <= eb);
    assert(pow2(0) == 1) by {
        lemma2_to64();
    }
    lemma_pow2_pos((eb - 1) as nat);
    if ea == eb {
        assert(significand(a) < significand(b));
        assert(weight(a) == weight(b));
        lemma_mul_strict_inequality(
            significand(a) as int,
            significand(b) as int,
            weight(b) as int,
        );
    } else {
        // the whole of a's binade lies below the start of b's
        let floor = unit * pow2((eb - 1) as nat);
        assert(floor <= scaled(b)) by {
            lemma_mul_inequality(unit, significand(b) as int, weight(b) as int);
        }
        if ea == 0 {
            assert(scaled(a) < unit);
            assert(unit * 1 <= floor) by {
                lemma_mul_inequality(1, pow2((eb - 1) as nat) as int, unit);
                assert(1 * unit == unit * 1);
                assert(pow2((eb - 1) as nat) * unit == unit * pow2((eb - 1) as nat))
                    by (nonlinear_arith);
            }
        } else {
            let wa = pow2((ea - 1) as nat) as int;
            lemma_pow2_pos((ea - 1) as nat);
            lemma_pow2_unfold(ea);
            assert(scaled(a) < (2 * unit) * wa) by {
                lemma_mul_strict_inequality(significand(a) as int, 2 * unit, wa);
            }
            assert((2 * unit) * wa == unit * pow2(ea)) by (nonlinear_arith)
                requires
                    pow2(ea) == 2 * wa,
            ;
            assert(pow2(ea) <= pow2((eb - 1) as nat)) by {
                if ea < eb - 1 {
                    lemma_pow2_strictly_increases(ea, (eb - 1) as nat);
                }
            }
            assert(unit * pow2(ea) <= floor) by (nonlinear_arith)
                requires
                    pow2(ea) <= pow2((eb - 1) as nat),
                    floor == unit * pow2((eb - 1) as nat),
                    unit > 0,
            ;
        }
    }
}

/// The pattern `0x3f80_0000` stands for the number one, and `0x4234_0000`
/// for forty-five.
pub proof fn lemma_one_and_forty_five()
    ensures
        scaled(0x3f80_0000) == 1 * pow2(149),
        scaled(0x4234_0000) == 45 * pow2(149),
{
    lemma2_to64();
    assert(exponent(0x3f80_0000) == 127 && fraction(0x3f80_0000) == 0);
    assert(exponent(0x4234_0000) == 132 && fraction(0x4234_0000) == 0x34_0000);
    lemma_pow2_adds(23, 126);
    lemma_pow2_adds(18, 131);
    assert(pow2(23) == 0x80_0000 && pow2(18) == 0x4_0000);
    assert(significand(0x4234_0000) == 45 * 0x4_0000);
    assert((45 * 0x4_0000) * pow2(131) == 45 * (pow2(18) * pow2(131))) by (nonlinear_arith)
        requires
            pow2(18) == 0x4_0000,
    ;
}

} // verus!
