//! Overflow-safe wide-integer arithmetic: the multiply-then-divide kernel
//! used to scale balances by rates, carried out over 256-bit intermediates.

use vstd::prelude::*;

verus! {

/// Fixed-point denominator: `10^18`, used to preserve fractional precision.
pub const OBS_PER_REWARD_DENOM: u128 = 1_000_000_000_000_000_000;

/// `2^64` as an executable constant.
pub const TWO64: u128 = 0x1_0000_0000_0000_0000;

pub open spec fn pow2_64() -> int {
    0x1_0000_0000_0000_0000
}

pub open spec fn pow2_128() -> int {
    pow2_64() * pow2_64()
}

pub open spec fn pow2_256() -> int {
    pow2_128() * pow2_128()
}

/// The scaled multiply-then-divide formula: `((a * b * c) / d) * 10^18`,
/// with floor division, as computed over 256-bit intermediates.
pub open spec fn mul_div_scale_spec(a: int, b: int, c: int, d: int) -> int {
    ((a * b * c) / d) * (OBS_PER_REWARD_DENOM as int)
}

/// Full product of two 128-bit values, as a `(high, low)` pair of 128-bit halves.
pub fn mul_u128(x: u128, y: u128) -> (r: (u128, u128))
    ensures
        (r.0 as int) * pow2_128() + (r.1 as int) == (x as int) * (y as int),
{
    let xh = x / TWO64;
    let xl = x % TWO64;
    let yh = y / TWO64;
    let yl = y % TWO64;
    proof {
        vstd::arithmetic::div_mod::lemma_fundamental_div_mod(x as int, TWO64 as int);
        vstd::arithmetic::div_mod::lemma_fundamental_div_mod(y as int, TWO64 as int);
        assert(xh < TWO64 && yh < TWO64) by (nonlinear_arith)
            requires
                x as int == TWO64 as int * (xh as int) + (xl as int),
                y as int == TWO64 as int * (yh as int) + (yl as int),
                0 <= xl < TWO64,
                0 <= yl < TWO64,
                x <= u128::MAX,
                y <= u128::MAX,
                0 <= xh,
                0 <= yh,
        ;
        assert((xh as int) * (yh as int) <= (TWO64 - 1) as int * (TWO64 - 1) as int
            && (xh as int) * (yl as int) <= (TWO64 - 1) as int * (TWO64 - 1) as int
            && (xl as int) * (yh as int) <= (TWO64 - 1) as int * (TWO64 - 1) as int
            && (xl as int) * (yl as int) <= (TWO64 - 1) as int * (TWO64 - 1) as int)
            by (nonlinear_arith)
            requires
                0 <= xh < TWO64,
                0 <= yh < TWO64,
                0 <= xl < TWO64,
                0 <= yl < TWO64,
        ;
    }
    let hh = xh * yh;
    let hl = xh * yl;
    let lh = xl * yh;
    let ll = xl * yl;
    proof {
        assert((x as int) * (y as int) == (hh as int) * pow2_128() + ((hl as int) + (lh as int))
            * pow2_64() + (ll as int)) by (nonlinear_arith)
            requires
                x as int == TWO64 as int * (xh as int) + (xl as int),
                y as int == TWO64 as int * (yh as int) + (yl as int),
                hh as int == (xh as int) * (yh as int),
                hl as int == (xh as int) * (yl as int),
                lh as int == (xl as int) * (yh as int),
                ll as int == (xl as int) * (yl as int),
                pow2_128() == TWO64 as int * TWO64 as int,
                pow2_64() == TWO64 as int,
        ;
    }
    // mid + (if mid_c then 2^128 else 0) == hl + lh
    let (mid, mid_c): (u128, bool) = if hl > u128::MAX - lh {
        (hl - (u128::MAX - lh) - 1, true)
    } else {
        (hl + lh, false)
    };
    let ghost mid_carry: int = if mid_c { pow2_128() } else { 0 };
    proof {
        assert((mid as int) + mid_carry == (hl as int) + (lh as int));
    }
    let mid_low = (mid % TWO64) * TWO64;
    proof {
        vstd::arithmetic::div_mod::lemma_fundamental_div_mod(mid as int, TWO64 as int);
        assert((mid % TWO64) as int * (TWO64 as int) <= (TWO64 - 1) as int * (TWO64 as int))
            by (nonlinear_arith)
            requires
                0 <= (mid % TWO64) as int <= (TWO64 - 1) as int,
        ;
        assert((mid / TWO64) < TWO64) by (nonlinear_arith)
            requires
                mid as int == TWO64 as int * ((mid / TWO64) as int) + ((mid % TWO64) as int),
                0 <= (mid % TWO64) as int,
                mid <= u128::MAX,
                0 <= (mid / TWO64) as int,
        ;
    }
    // lo + (if lo_c then 2^128 else 0) == ll + mid_low
    let (lo, lo_c): (u128, bool) = if ll > u128::MAX - mid_low {
        (ll - (u128::MAX - mid_low) - 1, true)
    } else {
        (ll + mid_low, false)
    };
    let ghost lo_carry: int = if lo_c { pow2_128() } else { 0 };
    let ghost hi_int: int = (hh as int) + (mid / TWO64) as int + (if mid_c {
        TWO64 as int
    } else {
        0
    }) + (if lo_c {
        1int
    } else {
        0
    });
    proof {
        assert((lo as int) + lo_carry == (ll as int) + (mid_low as int));
        // Reassemble: x * y == hi_int * 2^128 + lo
        assert(hi_int * pow2_128() + (lo as int) == (x as int) * (y as int)) by (nonlinear_arith)
            requires
                (x as int) * (y as int) == (hh as int) * pow2_128() + ((hl as int) + (lh as int))
                    * pow2_64() + (ll as int),
                (mid as int) + mid_carry == (hl as int) + (lh as int),
                mid as int == TWO64 as int * ((mid / TWO64) as int) + ((mid % TWO64) as int),
                mid_low as int == ((mid % TWO64) as int) * (TWO64 as int),
                (lo as int) + lo_carry == (ll as int) + (mid_low as int),
                mid_carry == if mid_c { pow2_128() } else { 0int },
                lo_carry == if lo_c { pow2_128() } else { 0int },
                hi_int == (hh as int) + (mid / TWO64) as int + (if mid_c {
                    TWO64 as int
                } else {
                    0int
                }) + (if lo_c {
                    1int
                } else {
                    0int
                }),
                pow2_128() == TWO64 as int * TWO64 as int,
                pow2_64() == TWO64 as int,
        ;
        // hi_int fits in u128
        assert(hi_int < pow2_128()) by (nonlinear_arith)
            requires
                hi_int * pow2_128() + (lo as int) == (x as int) * (y as int),
                0 <= x <= u128::MAX,
                0 <= y <= u128::MAX,
                0 <= lo,
                0 <= hi_int,
                (u128::MAX as int) + 1 == pow2_128(),
        ;
    }
    let hi = hh + mid / TWO64 + (if mid_c {
        TWO64
    } else {
        0
    }) + (if lo_c {
        1
    } else {
        0
    });
    (hi, lo)
}

proof fn pow2_facts()
    ensures
        vstd::arithmetic::power2::pow2(0) == 1,
        vstd::arithmetic::power2::pow2(64) == pow2_64(),
        pow2_128() == 0x1_0000_0000_0000_0000_0000_0000_0000_0000,
        vstd::arithmetic::power2::pow2(127) == 0x8000_0000_0000_0000_0000_0000_0000_0000,
        vstd::arithmetic::power2::pow2(128) == pow2_128(),
        pow2_128() / 2 == 0x8000_0000_0000_0000_0000_0000_0000_0000,
        pow2_128() == (u128::MAX as int) + 1,
{
    vstd::arithmetic::power2::lemma2_to64();
    vstd::arithmetic::power2::lemma2_to64_rest();
    vstd::arithmetic::power2::lemma_pow2_adds(64, 64);
    vstd::arithmetic::power2::lemma_pow2_adds(64, 63);
    assert(pow2_64() * pow2_64() == 0x1_0000_0000_0000_0000_0000_0000_0000_0000int)
        by (nonlinear_arith);
    assert(vstd::arithmetic::power2::pow2(64) * vstd::arithmetic::power2::pow2(63)
        == 0x8000_0000_0000_0000_0000_0000_0000_0000nat) by (nonlinear_arith)
        requires
            vstd::arithmetic::power2::pow2(64) == 0x1_0000_0000_0000_0000nat,
            vstd::arithmetic::power2::pow2(63) == 0x8000_0000_0000_0000nat,
    ;
}

/// Floor division with remainder of a 256-bit dividend, given as a
/// `(high, low)` pair of 128-bit halves, by a 128-bit divisor.
/// The quotient must fit in 128 bits, which `high < divisor` guarantees.
pub fn div_rem_wide(hi: u128, lo: u128, d: u128) -> (r: (u128, u128))
    requires
        d > 0,
        hi < d,
    ensures
        (r.0 as int) * (d as int) + (r.1 as int) == (hi as int) * pow2_128() + (lo as int),
        (r.1 as int) < d as int,
        (r.0 as int) == ((hi as int) * pow2_128() + (lo as int)) / (d as int),
        (r.1 as int) == ((hi as int) * pow2_128() + (lo as int)) % (d as int),
{
    let top: u128 = 0x8000_0000_0000_0000_0000_0000_0000_0000;
    let mut q: u128 = 0;
    let mut rem: u128 = hi;
    let mut sh: u128 = lo;
    let mut i: usize = 0;
    proof {
        pow2_facts();
        vstd::arithmetic::div_mod::lemma_small_mod(lo as nat, vstd::arithmetic::power2::pow2(128));
        vstd::arithmetic::div_mod::lemma_basic_div(
            lo as int,
            vstd::arithmetic::power2::pow2(128) as int,
        );
    }
    while i < 128
        invariant
            i <= 128,
            d > 0,
            hi < d,
            top == 0x8000_0000_0000_0000_0000_0000_0000_0000u128,
            sh as int == ((lo as int) % (vstd::arithmetic::power2::pow2((128 - i) as nat) as int))
                * (vstd::arithmetic::power2::pow2(i as nat) as int),
            (q as int) * (d as int) + (rem as int) == (hi as int) * (
            vstd::arithmetic::power2::pow2(i as nat) as int) + (lo as int) / (
            vstd::arithmetic::power2::pow2((128 - i) as nat) as int),
            rem < d,
            (q as int) < vstd::arithmetic::power2::pow2(i as nat) as int,
        decreases 128 - i,
    {
        let ghost m: nat = (128 - i) as nat;
        let ghost p_i: int = vstd::arithmetic::power2::pow2(i as nat) as int;
        let ghost p_m: int = vstd::arithmetic::power2::pow2(m) as int;
        let ghost p_m1: int = vstd::arithmetic::power2::pow2((m - 1) as nat) as int;
        let ghost u: int = (lo as int) % p_m;
        proof {
            pow2_facts();
            vstd::arithmetic::power2::lemma_pow2_unfold(m);
            vstd::arithmetic::power2::lemma_pow2_pos((m - 1) as nat);
            vstd::arithmetic::power2::lemma_pow2_pos(i as nat);
            vstd::arithmetic::power2::lemma_pow2_adds(i as nat, (m - 1) as nat);
            vstd::arithmetic::div_mod::lemma_mod_bound(lo as int, p_m);
            vstd::arithmetic::div_mod::lemma_fundamental_div_mod(u, p_m1);
            vstd::arithmetic::div_mod::lemma_mod_bound(u, p_m1);
        }
        let ghost bitv: int = u / p_m1;
        let ghost u1: int = u % p_m1;
        proof {
            // u < p_m == 2 * p_m1, so bitv is 0 or 1
            assert(0 <= bitv < 2) by (nonlinear_arith)
                requires
                    u == p_m1 * bitv + u1,
                    0 <= u1 < p_m1,
                    0 <= u < 2 * p_m1,
                    p_m1 > 0,
            ;
            // the top bit of sh decides bitv
            assert((sh as int >= pow2_128() / 2) <==> bitv == 1) by (nonlinear_arith)
                requires
                    sh as int == u * p_i,
                    u == p_m1 * bitv + u1,
                    0 <= u1 < p_m1,
                    0 <= bitv < 2,
                    p_i > 0,
                    p_m1 > 0,
                    p_i * p_m1 == pow2_128() / 2,
            ;
        }
        let bit1: bool = sh >= top;
        proof {
            assert(bitv == if bit1 {
                1int
            } else {
                0int
            });
        }
        let bitu: u128 = if bit1 {
            1
        } else {
            0
        };
        // shift the low register left by one
        let sh_next: u128 = if bit1 {
            proof {
                assert(sh - top <= 0x7fff_ffff_ffff_ffff_ffff_ffff_ffff_ffffint);
            }
            (sh - top) * 2
        } else {
            proof {
                assert(sh < 0x8000_0000_0000_0000_0000_0000_0000_0000u128);
            }
            sh * 2
        };
        proof {
            assert(sh_next as int == u1 * (p_i * 2)) by (nonlinear_arith)
                requires
                    sh as int == u * p_i,
                    u == p_m1 * bitv + u1,
                    bitv == if bit1 { 1int } else { 0int },
                    sh_next as int == if bit1 { (sh as int - (pow2_128() / 2)) * 2 } else { sh as int * 2 },
                    p_i * p_m1 == pow2_128() / 2,
            ;
        }
        // long-division step on the remainder: rem2 == 2*rem + bitv - qb*d
        let (rem2, qb): (u128, u128) = if rem >= top {
            // 2*rem + bit exceeds the 128-bit range, so it also exceeds d
            proof {
                assert(rem - top <= 0x7fff_ffff_ffff_ffff_ffff_ffff_ffff_ffffint);
                assert((rem - top) * 2 + 1 <= u128::MAX as int);
            }
            let t: u128 = (rem - top) * 2 + bitu;
            (t + (u128::MAX - d) + 1, 1)
        } else {
            let t: u128 = 2 * rem + bitu;
            if t >= d {
                (t - d, 1)
            } else {
                (t, 0)
            }
        };
        proof {
            assert((rem2 as int) == 2 * (rem as int) + bitv - (qb as int) * (d as int));
            assert((rem2 as int) < d as int);
            assert(qb == 1 ==> 2 * (rem as int) + bitv >= d as int);
            assert(qb == 0 ==> (rem2 as int) == 2 * (rem as int) + bitv);
        }
        // dividend-prefix step: lo / p_m1 == 2 * (lo / p_m) + bitv
        proof {
            vstd::arithmetic::div_mod::lemma_fundamental_div_mod(lo as int, p_m);
            assert(lo as int == (2 * ((lo as int) / p_m) + bitv) * p_m1 + u1) by (nonlinear_arith)
                requires
                    lo as int == p_m * ((lo as int) / p_m) + u,
                    u == p_m1 * bitv + u1,
                    p_m == 2 * p_m1,
            ;
            vstd::arithmetic::div_mod::lemma_fundamental_div_mod_converse(
                lo as int,
                p_m1,
                2 * ((lo as int) / p_m) + bitv,
                u1,
            );
            assert((lo as int) / p_m1 == 2 * ((lo as int) / p_m) + bitv);
            assert((lo as int) % p_m1 == u1);
        }
        let ghost q_old: int = q as int;
        let ghost rem_old: int = rem as int;
        proof {
            // the quotient stays below 2^(i+1)
            assert(2 * q_old + (qb as int) < 2 * p_i);
            assert(q_old < pow2_128() / 2) by (nonlinear_arith)
                requires
                    q_old < p_i,
                    p_i * p_m1 == pow2_128() / 2,
                    p_m1 >= 1,
                    p_i > 0,
                    q_old >= 0,
            ;
        }
        q = 2 * q + qb;
        rem = rem2;
        sh = sh_next;
        i = i + 1;
        proof {
            vstd::arithmetic::power2::lemma_pow2_adds((i - 1) as nat, 1);
            vstd::arithmetic::power2::lemma2_to64();
            assert(vstd::arithmetic::power2::pow2(i as nat) as int == p_i * 2);
            assert(vstd::arithmetic::power2::pow2((128 - i) as nat) as int == p_m1);
            assert((q as int) * (d as int) + (rem as int) == (hi as int) * (p_i * 2) + (lo as int)
                / p_m1) by (nonlinear_arith)
                requires
                    q as int == 2 * q_old + (qb as int),
                    rem as int == 2 * rem_old + bitv - (qb as int) * (d as int),
                    q_old * (d as int) + rem_old == (hi as int) * p_i + (lo as int) / p_m,
                    (lo as int) / p_m1 == 2 * ((lo as int) / p_m) + bitv,
            ;
        }
    }
    proof {
        pow2_facts();
        assert((lo as int) / 1 == lo as int);
        vstd::arithmetic::div_mod::lemma_fundamental_div_mod_converse(
            (hi as int) * pow2_128() + (lo as int),
            d as int,
            q as int,
            rem as int,
        );
    }
    (q, rem)
}

/// `((a * b * c) / d) * 10^18` computed over 256-bit intermediates, exactly
/// the scaled multiply-then-divide contract of the accrual formula.
/// The intermediate triple product must stay below `2^256` and the final
/// scaled quotient must fit the working balance width; the divisor is the
/// configured interval, non-zero by construction.
pub fn mul_div_scale(a: u128, b: u128, c: u128, d: u128) -> (r: u128)
    requires
        d > 0,
        (a as int) * (b as int) * (c as int) < pow2_256(),
        mul_div_scale_spec(a as int, b as int, c as int, d as int) <= u128::MAX as int,
    ensures
        r as int == mul_div_scale_spec(a as int, b as int, c as int, d as int),
{
    let ghost n: int = (a as int) * (b as int) * (c as int);
    let ghost p: int = pow2_128();
    let (h1, l1) = mul_u128(a, b);
    let (h2a, l2a) = mul_u128(l1, c);
    let (h2b, l2b) = mul_u128(h1, c);
    proof {
        pow2_facts();
        assert(n == (h2b as int) * (p * p) + ((l2b as int) + (h2a as int)) * p + (l2a as int))
            by (nonlinear_arith)
            requires
                n == (a as int) * (b as int) * (c as int),
                (h1 as int) * p + (l1 as int) == (a as int) * (b as int),
                (h2a as int) * p + (l2a as int) == (l1 as int) * (c as int),
                (h2b as int) * p + (l2b as int) == (h1 as int) * (c as int),
        ;
        assert(h2b == 0 && (l2b as int) + (h2a as int) < p) by (nonlinear_arith)
            requires
                n == (h2b as int) * (p * p) + ((l2b as int) + (h2a as int)) * p + (l2a as int),
                n < p * p,
                0 <= l2a,
                0 <= l2b,
                0 <= h2a,
                0 <= h2b,
                p == pow2_128(),
        ;
    }
    let hi = h2a + l2b;
    let lo = l2a;
    let ghost q: int = n / (d as int);
    proof {
        assert((hi as int) * p + (lo as int) == n) by (nonlinear_arith)
            requires
                n == (h2b as int) * (p * p) + ((l2b as int) + (h2a as int)) * p + (l2a as int),
                h2b == 0,
                hi as int == (l2b as int) + (h2a as int),
                lo == l2a,
        ;
        vstd::arithmetic::div_mod::lemma_fundamental_div_mod(n, d as int);
        vstd::arithmetic::div_mod::lemma_mod_bound(n, d as int);
        assert(0 <= q && q < p) by (nonlinear_arith)
            requires
                n == (d as int) * q + n % (d as int),
                0 <= n % (d as int) < d as int,
                0 <= n,
                d > 0,
                q * (OBS_PER_REWARD_DENOM as int) <= u128::MAX as int,
                (u128::MAX as int) + 1 == p,
        ;
        assert((hi as int) < d as int) by (nonlinear_arith)
            requires
                (hi as int) * p + (lo as int) == n,
                n == (d as int) * q + n % (d as int),
                0 <= n % (d as int) < d as int,
                0 <= q < p,
                0 <= lo,
                0 <= hi,
                d > 0,
                p > 0,
        ;
    }
    let (qq, _rr) = div_rem_wide(hi, lo, d);
    proof {
        assert((qq as int) == q);
        assert((qq as int) * (OBS_PER_REWARD_DENOM as int) <= u128::MAX as int);
    }
    qq * OBS_PER_REWARD_DENOM
}

} // verus!
