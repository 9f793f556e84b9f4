//! The doubles nearest to whole numbers, by their bits.
use vstd::arithmetic::{div_mod, mul, power2};
use vstd::prelude::*;

use crate::json;

verus! {

/// The number of the highest bit of a number: the largest `k` for which two to the `k` is
/// not above it.
pub open spec fn exponent(n: nat) -> nat
    decreases n,
{
    if n < 2 {
        0
    } else {
        1 + exponent(n / 2)
    }
}

/// The quotient, rounded to the nearest whole number, and halfway to the even one.
pub open spec fn rounded(n: int, d: int) -> int {
    let (q, r) = (n / d, n % d);
    if 2 * r > d || (2 * r == d && q % 2 == 1) {
        q + 1
    } else {
        q
    }
}

/// The first 53 bits of a number, rounded where it has more, as a number from 2^52 on.
pub open spec fn significand(n: nat) -> int {
    let k = exponent(n);
    if k <= 52 {
        (n * power2::pow2((52 - k) as nat)) as int
    } else {
        rounded(n as int, power2::pow2((k - 52) as nat) as int)
    }
}

/// The bits of the double nearest to a number that is not negative: the exponent above, and
/// the significand without its first bit below. A significand that is rounded up to 2^53
/// carries into the exponent.
pub open spec fn magnitude(n: nat) -> int {
    if n == 0 {
        0
    } else {
        (exponent(n) + 1022) * 0x10_0000_0000_0000 + significand(n)
    }
}

/// The bits of the double nearest to a whole number, with the sign on top; halfway, the one
/// whose last bit is zero.
pub open spec fn nearest_double(i: int) -> int {
    if i >= 0 {
        magnitude(i as nat)
    } else {
        0x8000_0000_0000_0000 + magnitude((-i) as nat)
    }
}

/// The number of the highest bit is what it is said to be.
proof fn exponent_bounds(n: nat)
    requires
        n > 0,
    ensures
        power2::pow2(exponent(n)) <= n < power2::pow2(exponent(n) + 1),
    decreases n,
{
    power2::lemma2_to64();
    if n >= 2 {
        exponent_bounds(n / 2);
        power2::lemma_pow2_unfold(exponent(n));
        power2::lemma_pow2_unfold(exponent(n) + 1);
    }
}

/// A larger number has no lower highest bit.
proof fn exponent_keeps_order(a: nat, b: nat)
    requires
        0 < a <= b,
    ensures
        exponent(a) <= exponent(b),
{
    exponent_bounds(a);
    exponent_bounds(b);
    if exponent(b) < exponent(a) {
        if exponent(b) + 1 < exponent(a) {
            power2::lemma_pow2_strictly_increases(exponent(b) + 1, exponent(a));
        }
    }
}

/// A larger number is not rounded to less.
proof fn rounded_keeps_order(a: int, b: int, d: int)
    requires
        a <= b,
        d > 0,
    ensures
        rounded(a, d) <= rounded(b, d),
{
    div_mod::lemma_div_is_ordered(a, b, d);
    div_mod::lemma_fundamental_div_mod(a, d);
    div_mod::lemma_fundamental_div_mod(b, d);
}

/// Between which bounds a significand is.
proof fn significand_bounds(n: nat)
    requires
        n > 0,
    ensures
        0x10_0000_0000_0000 <= significand(n) <= 0x20_0000_0000_0000,
        exponent(n) <= 52 ==> significand(n) < 0x20_0000_0000_0000,
{
    let k = exponent(n);
    power2::lemma2_to64();
    power2::lemma2_to64_rest();
    assert(power2::pow2(52) == 0x10_0000_0000_0000);
    assert(power2::pow2(53) == 0x20_0000_0000_0000);
    exponent_bounds(n);
    if k <= 52 {
        let e = (52 - k) as nat;
        power2::lemma_pow2_pos(e);
        power2::lemma_pow2_adds(k, e);
        power2::lemma_pow2_adds(k + 1, e);
        mul::lemma_mul_inequality(power2::pow2(k) as int, n as int, power2::pow2(e) as int);
        mul::lemma_mul_strict_inequality(n as int, power2::pow2(k + 1) as int, power2::pow2(e) as int);
    } else {
        let e = (k - 52) as nat;
        let d = power2::pow2(e) as int;
        power2::lemma_pow2_pos(e);
        power2::lemma_pow2_adds(e, 52);
        power2::lemma_pow2_adds(e, 53);
        assert(power2::pow2(k) == d * 0x10_0000_0000_0000);
        assert(power2::pow2(k + 1) == d * 0x20_0000_0000_0000);
        div_mod::lemma_multiply_divide_lt(n as int, d, 0x20_0000_0000_0000);
        div_mod::lemma_fundamental_div_mod(n as int, d);
        let q = n as int / d;
        let r = n as int % d;
        assert(0 <= r < d);
        assert(q >= 0x10_0000_0000_0000) by (nonlinear_arith)
            requires
                n == d * q + r,
                n >= d * 0x10_0000_0000_0000,
                0 <= r < d,
        ;
    }
}

/// A larger number has no smaller double; and up to 2^53, where every number has a double of
/// its own, it has a larger one.
proof fn magnitude_keeps_order(a: nat, b: nat)
    requires
        a <= b,
    ensures
        0 <= magnitude(a) <= magnitude(b),
        a < b && b <= 0x20_0000_0000_0000 ==> magnitude(a) < magnitude(b),
{
    if b > 0 {
        significand_bounds(b);
    }
    if a > 0 {
        significand_bounds(a);
        exponent_keeps_order(a, b);
        if exponent(a) == exponent(b) {
            let k = exponent(a);
            if k <= 52 {
                let e = (52 - k) as nat;
                power2::lemma_pow2_pos(e);
                mul::lemma_mul_inequality(a as int, b as int, power2::pow2(e) as int);
                if a < b {
                    mul::lemma_mul_strict_inequality(a as int, b as int, power2::pow2(e) as int);
                }
            } else {
                let e = (k - 52) as nat;
                power2::lemma_pow2_pos(e);
                rounded_keeps_order(a as int, b as int, power2::pow2(e) as int);
                if a < b && b <= 0x20_0000_0000_0000 {
                    power2::lemma2_to64_rest();
                    exponent_bounds(a);
                    if k > 53 {
                        power2::lemma_pow2_strictly_increases(53, k);
                    }
                    assert(false);
                }
            }
        } else if b <= 0x20_0000_0000_0000 {
            power2::lemma2_to64_rest();
            exponent_bounds(b);
            if exponent(b) > 53 {
                power2::lemma_pow2_strictly_increases(53, exponent(b));
            }
            assert(exponent(a) <= 52);
        }
    }
}

/// Whole numbers keep their order as doubles. Up to 2^53 on either side no two have the same
/// double.
pub proof fn whole_numbers_keep_order(a: int, b: int)
    requires
        a <= b,
        -0x8000_0000_0000_0000 <= a,
        b <= 0xffff_ffff_ffff_ffff,
    ensures
        json::double_key(nearest_double(a)) <= json::double_key(nearest_double(b)),
        a < b && -0x20_0000_0000_0000 <= a && b <= 0x20_0000_0000_0000 ==> json::double_key(
            nearest_double(a),
        ) < json::double_key(nearest_double(b)),
{
    key_of_nearest(a);
    key_of_nearest(b);
    if a >= 0 {
        magnitude_keeps_order(a as nat, b as nat);
    } else if b < 0 {
        magnitude_keeps_order((-b) as nat, (-a) as nat);
    } else {
        magnitude_keeps_order(0, b as nat);
        magnitude_keeps_order(0, (-a) as nat);
        if -0x20_0000_0000_0000 <= a {
            assert(magnitude(0) < magnitude((-a) as nat));
        }
    }
}

/// The doubles of whole numbers are finite, and are ordered by their magnitude and sign.
pub proof fn key_of_nearest(i: int)
    requires
        -0x8000_0000_0000_0000 <= i <= 0xffff_ffff_ffff_ffff,
    ensures
        json::double_key(nearest_double(i)) == if i >= 0 {
            magnitude(i as nat)
        } else {
            -magnitude((-i) as nat)
        },
        json::finite_double(nearest_double(i)),
        0 <= nearest_double(i) <= u64::MAX,
{
    let n: nat = if i >= 0 {
        i as nat
    } else {
        (-i) as nat
    };
    if n > 0 {
        significand_bounds(n);
        exponent_bounds(n);
        power2::lemma2_to64();
        power2::lemma2_to64_rest();
        if exponent(n) > 63 {
            if exponent(n) > 64 {
                power2::lemma_pow2_strictly_increases(64, exponent(n));
            }
            assert(power2::pow2(64) == 0x1_0000_0000_0000_0000);
        }
    }
}

} // verus!
