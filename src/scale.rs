use vstd::prelude::*;
use vstd::arithmetic::div_mod::{lemma_basic_div, lemma_div_denominator, lemma_fundamental_div_mod, lemma_mod_pos_bound};
use vstd::arithmetic::power2::{
    pow2,
    lemma2_to64,
    lemma2_to64_rest,
    lemma_pow2_adds,
    lemma_pow2_pos,
    lemma_pow2_strictly_increases,
    lemma_pow2_unfold,
};

use crate::error::ImageError;

verus! {

/// 2^52: the weight of the implicit leading bit of a binary64 significand.
pub const FRACTION_SCALE: u64 = 4503599627370496;

/// 2^63: the weight of the sign bit of a binary64 bit pattern.
pub const SIGN_BIT: u64 = 9223372036854775808;

/// A uniform scale factor, held as the bit pattern of an IEEE 754 binary64
/// number, so that its exact value is `significand * 2^exponent`.
#[derive(Debug, Clone, Copy, PartialEq, Eq, Structural)]
pub struct ScaleFactor {
    pub bits: u64,
}

proof fn lemma_pow2_bound(e: nat)
    requires
        e < 128,
    ensures
        pow2(e) <= 0x8000_0000_0000_0000_0000_0000_0000_0000,
{
    lemma2_to64();
    lemma2_to64_rest();
    lemma_pow2_adds(63, 64);
    assert(pow2(127) == pow2(63) * pow2(64));
    if e < 127 {
        lemma_pow2_strictly_increases(e, 127);
    }
}

/// Computes 2^e exactly.
fn pow2_u128(e: u32) -> (r: u128)
    requires
        e < 128,
    ensures
        r as nat == pow2(e as nat),
{
    proof {
        lemma2_to64();
        lemma2_to64_rest();
    }
    let mut r: u128 = 1;
    let mut i: u32 = 0;
    while i < e
        invariant
            i <= e,
            e < 128,
            r as nat == pow2(i as nat),
        decreases e - i,
    {
        proof {
            lemma_pow2_unfold((i + 1) as nat);
            lemma_pow2_bound((i + 1) as nat);
        }
        r = r * 2;
        i = i + 1;
    }
    r
}

/// 2^53: products below it are binary64 numbers exactly.
pub const SIGNIFICAND_LIMIT: u128 = 9007199254740992;

/// How many low bits are dropped when `q` is rounded to 53 significant bits.
pub open spec fn dropped_bits(q: nat) -> nat
    decreases q,
{
    if q < SIGNIFICAND_LIMIT {
        0
    } else {
        1 + dropped_bits(q / 2)
    }
}

/// `q` rounded to a multiple of `2^s`, to nearest with ties to even.
pub open spec fn round_to_multiple(q: nat, s: nat) -> nat {
    let d = pow2(s);
    let lo = q / d;
    let rem = q % d;
    if 2 * rem < d || (2 * rem == d && lo % 2 == 0) {
        lo * d
    } else {
        (lo + 1) * d
    }
}

/// `q` rounded to 53 significant bits, to nearest with ties to even, as a
/// binary64 multiplication rounds its exact product.
pub open spec fn round_binary64(q: nat) -> nat {
    round_to_multiple(q, dropped_bits(q))
}

/// Rounds a product of a dimension and a significand as binary64
/// multiplication does.
fn round_product(q: u128) -> (r: u128)
    requires
        q < pow2(85),
    ensures
        r as nat == round_binary64(q as nat),
        r <= 2 * q,
{
    proof {
        lemma2_to64();
        lemma2_to64_rest();
        lemma_pow2_adds(53, 32);
        assert(pow2(85) == pow2(53) * pow2(32));
    }
    let mut t: u128 = q;
    let mut s: u32 = 0;
    while t >= SIGNIFICAND_LIMIT
        invariant
            t as nat == q as nat / pow2(s as nat),
            dropped_bits(q as nat) == s + dropped_bits(t as nat),
            s <= 32,
            s > 0 ==> t >= 1,
            q < pow2(85),
            pow2(85) == pow2(53) * pow2(32),
            pow2(53) == SIGNIFICAND_LIMIT,
        decreases t,
    {
        proof {
            lemma_pow2_pos(s as nat);
            lemma_fundamental_div_mod(q as int, pow2(s as nat) as int);
            lemma_mod_pos_bound(q as int, pow2(s as nat) as int);
            let p = pow2(s as nat);
            let qi = q as int;
            let ti = t as int;
            assert(ti * p <= qi) by (nonlinear_arith)
                requires
                    qi == p * ti + qi % (p as int),
                    qi % (p as int) >= 0,
            ;
            if s >= 32 {
                if s > 32 {
                    lemma_pow2_strictly_increases(32, s as nat);
                }
                assert(t * p >= pow2(53) * pow2(32)) by (nonlinear_arith)
                    requires
                        t >= pow2(53),
                        p >= pow2(32),
                ;
            }
            lemma_div_denominator(q as int, p as int, 2);
            lemma_pow2_unfold((s + 1) as nat);
            assert(p * 2 == pow2((s + 1) as nat));
        }
        t = t / 2;
        s = s + 1;
    }
    let d = pow2_u128(s);
    proof {
        lemma_pow2_pos(s as nat);
        lemma_fundamental_div_mod(q as int, d as int);
        lemma_mod_pos_bound(q as int, d as int);
        if s > 0 {
            lemma_pow2_unfold(s as nat);
            lemma_pow2_pos((s - 1) as nat);
        }
    }
    let lo = q / d;
    let rem = q % d;
    assert(lo * d + rem == q) by (nonlinear_arith)
        requires
            q == d * lo + rem,
    ;
    assert(s == 0 ==> d == 1);
    assert(s == 0 ==> rem == 0);
    if 2 * rem < d || (2 * rem == d && lo % 2 == 0) {
        assert(lo * d <= 2 * q);
        lo * d
    } else {
        assert(lo >= 1);
        assert(d <= lo * d) by (nonlinear_arith)
            requires
                lo >= 1,
                d > 0,
        ;
        assert((lo + 1) * d == lo * d + d) by (nonlinear_arith);
        (lo + 1) * d
    }
}

/// A dimension in pixels is usable when it is positive and fits in `u32`.
pub open spec fn dimension_in_range(d: nat) -> bool {
    1 <= d <= u32::MAX
}

impl ScaleFactor {
    /// The eleven exponent bits, still biased.
    pub open spec fn biased_exponent(self) -> nat {
        ((self.bits / FRACTION_SCALE) % 2048) as nat
    }

    /// The fifty-two explicit fraction bits.
    pub open spec fn fraction(self) -> nat {
        (self.bits % FRACTION_SCALE) as nat
    }

    pub open spec fn is_negative(self) -> bool {
        self.bits >= SIGN_BIT
    }

    /// The factor is a finite number greater than zero (not NaN, not an
    /// infinity, not zero, not negative).
    pub open spec fn is_positive_finite(self) -> bool {
        &&& !self.is_negative()
        &&& self.biased_exponent() != 2047
        &&& (self.biased_exponent() != 0 || self.fraction() != 0)
    }

    pub open spec fn significand(self) -> nat {
        if self.biased_exponent() == 0 {
            self.fraction()
        } else {
            (self.fraction() + FRACTION_SCALE) as nat
        }
    }

    pub open spec fn exponent(self) -> int {
        if self.biased_exponent() == 0 {
            -1074
        } else {
            self.biased_exponent() - 1075
        }
    }

    /// `n * factor` as binary64 multiplication computes it (the exact
    /// product rounded to 53 significant bits, ties to even), truncated
    /// toward zero. Rounding in the subnormal range differs, but there the
    /// product is below one and truncates to zero either way.
    pub open spec fn scale_floor(self, n: nat) -> nat {
        let q = round_binary64(n * self.significand());
        if self.exponent() >= 0 {
            q * pow2(self.exponent() as nat)
        } else {
            q / pow2((-self.exponent()) as nat)
        }
    }

    /// Wraps the bit pattern of a binary64 number (`f64::to_bits`).
    pub fn from_bits(bits: u64) -> (r: ScaleFactor)
        ensures
            r.bits == bits,
    {
        ScaleFactor { bits }
    }

    /// Tells whether the factor is a finite number greater than zero.
    pub fn check_positive_finite(&self) -> (r: bool)
        ensures
            r == self.is_positive_finite(),
    {
        let biased: u64 = (self.bits / FRACTION_SCALE) % 2048;
        let fraction: u64 = self.bits % FRACTION_SCALE;
        self.bits < SIGN_BIT && biased != 2047 && (biased != 0 || fraction != 0)
    }

    /// Scales one dimension: `n * factor` in binary64 arithmetic, truncated
    /// toward zero, or `None` where that is zero or does not fit in `u32`.
    pub fn scaled_dimension(&self, n: u32) -> (r: Option<u32>)
        requires
            self.is_positive_finite(),
        ensures
            match r {
                Some(d) => d as nat == self.scale_floor(n as nat) && dimension_in_range(d as nat),
                None => !dimension_in_range(self.scale_floor(n as nat)),
            },
    {
        let biased: u64 = (self.bits / FRACTION_SCALE) % 2048;
        let fraction: u64 = self.bits % FRACTION_SCALE;
        let significand: u64 = if biased == 0 {
            fraction
        } else {
            fraction + FRACTION_SCALE
        };
        let ghost sig = significand as nat;
        assert(sig == self.significand());
        assert((n as nat) * sig <= 4294967295nat * 9007199254740991nat) by (nonlinear_arith)
            requires
                n <= 4294967295,
                sig <= 9007199254740991,
        ;
        let exact: u128 = (n as u128) * (significand as u128);
        proof {
            lemma2_to64();
            lemma2_to64_rest();
            lemma_pow2_adds(32, 53);
            assert(pow2(85) == pow2(32) * pow2(53));
            assert(exact < pow2(85));
        }
        let prod = round_product(exact);
        proof {
            lemma_pow2_unfold(86);
            assert(prod < pow2(86));
        }
        if biased >= 1075 {
            let e: u64 = biased - 1075;
            assert(e as int == self.exponent());
            if e >= 64 {
                proof {
                    lemma2_to64();
                    lemma2_to64_rest();
                    if e > 64 {
                        lemma_pow2_strictly_increases(64, e as nat);
                    }
                    let pw = pow2(e as nat);
                    assert(prod == 0 || prod * pw >= pw) by (nonlinear_arith)
                        requires
                            prod >= 0,
                            pw >= 0,
                    ;
                }
                return None;
            }
            let p = pow2_u128(e as u32);
            match prod.checked_mul(p) {
                None => None,
                Some(v) => {
                    if v == 0 || v > u32::MAX as u128 {
                        None
                    } else {
                        Some(v as u32)
                    }
                },
            }
        } else {
            let d: u64 = if biased == 0 {
                1074
            } else {
                1075 - biased
            };
            assert(d as int == -self.exponent());
            if d >= 86 {
                proof {
                    if d > 86 {
                        lemma_pow2_strictly_increases(86, d as nat);
                    }
                    lemma_basic_div(prod as int, pow2(d as nat) as int);
                }
                return None;
            }
            let p = pow2_u128(d as u32);
            proof {
                lemma_pow2_pos(d as nat);
            }
            let v = prod / p;
            if v == 0 || v > u32::MAX as u128 {
                None
            } else {
                Some(v as u32)
            }
        }
    }
}

/// The target dimensions of an upscale: each source dimension multiplied by
/// the factor and truncated toward zero. A factor that is not a finite
/// positive number, or a target dimension that comes out as zero or beyond
/// `u32`, is an invalid parameter.
pub fn upscale_dimensions(width: u32, height: u32, scale: ScaleFactor) -> (r: Result<
    (u32, u32),
    ImageError,
>)
    ensures
        r is Ok <==> scale.is_positive_finite() && dimension_in_range(
            scale.scale_floor(width as nat),
        ) && dimension_in_range(scale.scale_floor(height as nat)),
        r matches Ok((w, h)) ==> w as nat == scale.scale_floor(width as nat) && h as nat
            == scale.scale_floor(height as nat),
        r matches Err(e) ==> e == ImageError::InvalidParameterError,
{
    if !scale.check_positive_finite() {
        return Err(ImageError::InvalidParameterError);
    }
    match (scale.scaled_dimension(width), scale.scaled_dimension(height)) {
        (Some(w), Some(h)) => Ok((w, h)),
        _ => Err(ImageError::InvalidParameterError),
    }
}

} // verus!
