//! A 256-bit unsigned integer with explicitly wrapping arithmetic.

use vstd::prelude::*;

verus! {

/// 2^128: the weight of the high limb of a [`U256`], and the scaling factor
/// of a Q128.128 fixed-point number.
pub open spec fn pow2_128() -> nat {
    0x1_0000_0000_0000_0000_0000_0000_0000_0000nat
}

/// 2^256: the modulus of all [`U256`] arithmetic.
pub open spec fn pow2_256() -> nat {
    0x1_0000_0000_0000_0000_0000_0000_0000_0000_0000_0000_0000_0000_0000_0000_0000_0000nat
}

/// 2^64: half the width of a limb.
pub const HALF: u128 = 0x1_0000_0000_0000_0000;

/// 2^192: the weight of the fourth of four 64-bit limbs.
pub open spec fn pow2_192() -> nat {
    0x1_0000_0000_0000_0000_0000_0000_0000_0000_0000_0000_0000_0000nat
}

/// The number that four 64-bit limbs denote, least significant limb first.
pub open spec fn limbs_value(limbs: Seq<u64>) -> nat {
    (limbs[0] as nat) + (limbs[1] as nat) * (HALF as nat) + (limbs[2] as nat) * pow2_128() + (
    limbs[3] as nat) * pow2_192()
}

/// The representative of `x` modulo 2^256 in `[0, 2^256)`.
pub open spec fn wrap256(x: int) -> nat {
    (x % (pow2_256() as int)) as nat
}

/// `floor(x * m / 2^128)`: a Q128.128 fixed-point number `x` times an integer
/// `m`, rounded down to an integer.
pub open spec fn floor_mul_q128(x: nat, m: nat) -> nat {
    (x * m) / pow2_128()
}

/// A 256-bit unsigned integer held as two 128-bit limbs.
///
/// Every pair of limbs is a valid value; the number it denotes is
/// `hi * 2^128 + lo`.
#[derive(Clone, Copy, Debug, PartialEq, Eq, Structural)]
pub struct U256 {
    /// The most significant 128 bits.
    pub hi: u128,
    /// The least significant 128 bits.
    pub lo: u128,
}

impl View for U256 {
    type V = nat;

    open spec fn view(&self) -> nat {
        (self.hi as nat) * pow2_128() + (self.lo as nat)
    }
}

impl U256 {
    /// The value zero.
    pub fn zero() -> (r: U256)
        ensures
            r@ == 0,
    {
        U256 { hi: 0, lo: 0 }
    }

    /// Widens a 128-bit value without changing it.
    pub fn from_u128(x: u128) -> (r: U256)
        ensures
            r@ == x,
    {
        U256 { hi: 0, lo: x }
    }

    /// The value of four 64-bit limbs, least significant limb first.
    pub fn from_limbs(limbs: [u64; 4]) -> (r: U256)
        ensures
            r@ == limbs_value(limbs@),
    {
        let r = U256 {
            hi: (limbs[3] as u128) * HALF + (limbs[2] as u128),
            lo: (limbs[1] as u128) * HALF + (limbs[0] as u128),
        };
        proof {
            lemma_limbs_regroup(limbs[3] as nat, limbs[2] as nat);
        }
        r
    }

    /// The four 64-bit limbs of the value, least significant limb first.
    pub fn to_limbs(self) -> (limbs: [u64; 4])
        ensures
            limbs_value(limbs@) == self@,
    {
        let limbs: [u64; 4] = [
            (self.lo % HALF) as u64,
            (self.lo / HALF) as u64,
            (self.hi % HALF) as u64,
            (self.hi / HALF) as u64,
        ];
        proof {
            lemma_limbs_regroup(limbs[3] as nat, limbs[2] as nat);
        }
        limbs
    }

    /// `self - rhs` modulo 2^256: the difference never fails, it wraps.
    pub fn wrapping_sub(self, rhs: U256) -> (r: U256)
        ensures
            r@ == wrap256(self@ - rhs@),
    {
        let lo: u128 = self.lo.wrapping_sub(rhs.lo);
        let hi_diff: u128 = self.hi.wrapping_sub(rhs.hi);
        let hi: u128 = if self.lo < rhs.lo {
            hi_diff.wrapping_sub(1)
        } else {
            hi_diff
        };
        let r = U256 { hi, lo };
        proof {
            let d: int = self@ - rhs@;
            assert(r@ == d || r@ == d + pow2_256());
        }
        r
    }

    /// `self + rhs` modulo 2^256.
    pub fn wrapping_add(self, rhs: U256) -> (r: U256)
        ensures
            r@ == wrap256((self@ + rhs@) as int),
    {
        let lo: u128 = self.lo.wrapping_add(rhs.lo);
        let hi_sum: u128 = self.hi.wrapping_add(rhs.hi);
        let hi: u128 = if lo < self.lo {
            hi_sum.wrapping_add(1)
        } else {
            hi_sum
        };
        let r = U256 { hi, lo };
        proof {
            let s: int = (self@ + rhs@) as int;
            assert(r@ == s || r@ == s - pow2_256());
        }
        r
    }

    /// The full 256-bit product of two 128-bit factors.
    pub fn widening_mul(a: u128, b: u128) -> (r: U256)
        ensures
            r@ == a * b,
    {
        let a0: u128 = a % HALF;
        let a1: u128 = a / HALF;
        let b0: u128 = b % HALF;
        let b1: u128 = b / HALF;
        proof {
            lemma_half_product_bound(a0, b0);
            lemma_half_product_bound(a0, b1);
            lemma_half_product_bound(a1, b0);
            lemma_half_product_bound(a1, b1);
        }
        let p00: u128 = a0 * b0;
        let p01: u128 = a0 * b1;
        let p10: u128 = a1 * b0;
        let p11: u128 = a1 * b1;
        let mid: u128 = p00 / HALF + p01 % HALF + p10 % HALF;
        let lo: u128 = (mid % HALF) * HALF + p00 % HALF;
        let hi: u128 = p11 + p01 / HALF + p10 / HALF + mid / HALF;
        let r = U256 { hi, lo };
        proof {
            lemma_schoolbook_product(a1 as int, a0 as int, b1 as int, b0 as int, HALF as int);
            assert(HALF * HALF == pow2_128());
            assert(p11 * (HALF * HALF) == p11 * pow2_128());
        }
        r
    }

    /// `floor(self * m / 2^128)`: the product of a Q128.128 fixed-point number
    /// and an integer, computed at full width and rounded down to an integer.
    pub fn mul_shr_128(self, m: u128) -> (r: U256)
        ensures
            r@ == floor_mul_q128(self@, m as nat),
    {
        let low: U256 = U256::widening_mul(self.lo, m);
        let high: U256 = U256::widening_mul(self.hi, m);
        proof {
            lemma_mul_shr_128_split(self.hi as nat, self.lo as nat, m as nat, high@, low@);
            lemma_product_bound(self@, m as nat);
        }
        let lo: u128 = high.lo.wrapping_add(low.hi);
        let hi: u128 = if lo < high.lo {
            high.hi + 1
        } else {
            high.hi
        };
        U256 { hi, lo }
    }
}

/// The view is faithful: a [`U256`] denotes a number below 2^256, and two
/// values that denote the same number are the same value. A contract that
/// fixes the view of a result therefore fixes the result.
pub proof fn lemma_view_faithful(x: U256, y: U256)
    ensures
        x@ < pow2_256(),
        x@ == y@ ==> x == y,
{
}

/// The wrapped value of `x` differs from `x` by a multiple of 2^256; the
/// result `k` is that multiple's factor.
pub proof fn lemma_wrap256_quotient(x: int) -> (k: int)
    ensures
        wrap256(x) == x - k * pow2_256(),
{
    vstd::arithmetic::div_mod::lemma_fundamental_div_mod(x, pow2_256() as int);
    x / (pow2_256() as int)
}

/// Numbers that differ by a multiple of 2^256 wrap to the same value.
pub proof fn lemma_wrap256_congruent(x: int, y: int, k: int)
    requires
        x == y + k * pow2_256(),
    ensures
        wrap256(x) == wrap256(y),
{
    vstd::arithmetic::div_mod::lemma_mod_multiples_vanish(k, y, pow2_256() as int);
}

/// Two 64-bit limbs that make up the high half weigh 2^192 and 2^128.
proof fn lemma_limbs_regroup(l3: nat, l2: nat)
    ensures
        (l3 * (HALF as nat) + l2) * pow2_128() == l3 * pow2_192() + l2 * pow2_128(),
{
    assert((HALF as nat) * pow2_128() == pow2_192());
    assert((l3 * (HALF as nat) + l2) * pow2_128() == l3 * ((HALF as nat) * pow2_128()) + l2
        * pow2_128()) by (nonlinear_arith);
}

/// The product of two numbers below 2^64 fits in 128 bits, with room to spare.
proof fn lemma_half_product_bound(x: u128, y: u128)
    by (nonlinear_arith)
    requires
        x < HALF,
        y < HALF,
    ensures
        x * y <= 0xFFFF_FFFF_FFFF_FFFE_0000_0000_0000_0001,
{
}

/// Schoolbook multiplication of two two-digit numbers in base `k`.
proof fn lemma_schoolbook_product(a1: int, a0: int, b1: int, b0: int, k: int)
    ensures
        (a1 * k + a0) * (b1 * k + b0) == (a1 * b1) * (k * k) + (a0 * b1) * k + (a1 * b0) * k + a0
            * b0,
{
    let x: int = a1 * k;
    let y: int = b1 * k;
    assert((x + a0) * (y + b0) == x * y + a0 * y + x * b0 + a0 * b0) by (nonlinear_arith);
    assert((a1 * k) * (b1 * k) == (a1 * b1) * (k * k)) by (nonlinear_arith);
    assert(a0 * (b1 * k) == (a0 * b1) * k) by (nonlinear_arith);
    assert((a1 * k) * b0 == (a1 * b0) * k) by (nonlinear_arith);
}

/// Splits the product of a two-limb number and a factor by limb.
proof fn lemma_mul_shr_128_split(hi: nat, lo: nat, m: nat, high: nat, low: nat)
    by (nonlinear_arith)
    requires
        high == hi * m,
        low == lo * m,
    ensures
        (hi * pow2_128() + lo) * m == high * pow2_128() + low,
{
}

/// The product of a 256-bit and a 128-bit number is at most
/// `(2^256 - 1) * (2^128 - 1)`.
pub proof fn lemma_product_bound(x: nat, m: nat)
    by (nonlinear_arith)
    requires
        x < pow2_256(),
        m < pow2_128(),
    ensures
        x * m <= (pow2_256() - 1) * (pow2_128() - 1),
{
}

} // verus!
