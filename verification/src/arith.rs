//! Exact integer helpers shared by the transform math: absolute value,
//! division that rounds toward zero, the floor square root, and the sine
//! and cosine of quarter-turn angles.

use vstd::arithmetic::div_mod::{
    lemma_div_by_multiple, lemma_div_nonincreasing, lemma_div_pos_is_pos,
};
use vstd::prelude::*;

verus! {

/// Absolute value of a mathematical integer.
pub open spec fn abs_int(a: int) -> int {
    if a >= 0 {
        a
    } else {
        -a
    }
}

/// A product of bounded factors is bounded by the product of the bounds.
pub proof fn lemma_mul_bound(a: int, b: int, m: int, n: int)
    by (nonlinear_arith)
    requires
        -m <= a <= m,
        -n <= b <= n,
    ensures
        -(m * n) <= a * b <= m * n,
{
}

/// Division rounding toward zero: the magnitude of the quotient is the
/// floor of the quotient of magnitudes, and the sign is the product of
/// the signs. This is the convention of machine division.
pub open spec fn trunc_div(a: int, b: int) -> int {
    if (a >= 0) == (b >= 0) {
        abs_int(a) / abs_int(b)
    } else {
        -(abs_int(a) / abs_int(b))
    }
}

/// Floor of the square root: the `m >= 0` with `m * m <= s < (m + 1) * (m + 1)`.
#[verifier::opaque]
pub open spec fn sqrt_floor(s: int) -> int {
    choose|m: int| 0 <= m && #[trigger] (m * m) <= s && s < (m + 1) * (m + 1)
}

/// The floor square root is pinned down: any witness equals `sqrt_floor`.
pub proof fn lemma_sqrt_floor_unique(s: int, m: int)
    requires
        0 <= m,
        m * m <= s,
        s < (m + 1) * (m + 1),
    ensures
        sqrt_floor(s) == m,
{
    reveal(sqrt_floor);
    assert(0 <= sqrt_floor(s) && sqrt_floor(s) * sqrt_floor(s) <= s && s < (sqrt_floor(s) + 1) * (
    sqrt_floor(s) + 1)) by {
        assert(exists|k: int| 0 <= k && #[trigger] (k * k) <= s && s < (k + 1) * (k + 1)) by {
            assert(0 <= m && m * m <= s && s < (m + 1) * (m + 1));
        }
    }
    let m2 = sqrt_floor(s);
    assert(m2 == m) by (nonlinear_arith)
        requires
            0 <= m,
            m * m <= s,
            s < (m + 1) * (m + 1),
            0 <= m2,
            m2 * m2 <= s,
            s < (m2 + 1) * (m2 + 1),
    ;
}

/// Quotient of `a` and `b`, rounded toward zero.
pub fn div_i64(a: i64, b: i64) -> (q: i64)
    requires
        b != 0,
        a != i64::MIN,
        b != i64::MIN,
    ensures
        q as int == trunc_div(a as int, b as int),
        abs_int(q as int) <= abs_int(a as int),
{
    let ma: u64 = if a >= 0 {
        a as u64
    } else {
        (-a) as u64
    };
    let mb: u64 = if b >= 0 {
        b as u64
    } else {
        (-b) as u64
    };
    let mq: u64 = ma / mb;
    proof {
        assert(ma as int == abs_int(a as int));
        assert(mb as int == abs_int(b as int));
        lemma_div_pos_is_pos(ma as int, mb as int);
        lemma_div_nonincreasing(ma as int, mb as int);
    }
    if (a >= 0) == (b >= 0) {
        mq as i64
    } else {
        -(mq as i64)
    }
}

/// When `b` divides `a` exactly, truncating division recovers the cofactor.
pub proof fn lemma_trunc_div_exact(a: int, b: int, k: int)
    requires
        b != 0,
        a == b * k,
    ensures
        trunc_div(a, b) == k,
{
    assert(abs_int(a) == abs_int(b) * abs_int(k)) by (nonlinear_arith)
        requires
            a == b * k,
    ;
    lemma_div_by_multiple(abs_int(k), abs_int(b));
    assert((abs_int(k) * abs_int(b)) / abs_int(b) == abs_int(k));
    assert(abs_int(k) * abs_int(b) == abs_int(b) * abs_int(k)) by (nonlinear_arith);
    assert(abs_int(a) / abs_int(b) == abs_int(k));
    if k == 0 {
        assert(a == 0) by (nonlinear_arith)
            requires
                a == b * k,
                k == 0,
        ;
    } else if (a >= 0) == (b >= 0) {
        assert(k >= 0) by (nonlinear_arith)
            requires
                a == b * k,
                b != 0,
                k != 0,
                (a >= 0) == (b >= 0),
        ;
    } else {
        assert(k < 0) by (nonlinear_arith)
            requires
                a == b * k,
                b != 0,
                k != 0,
                (a >= 0) != (b >= 0),
        ;
    }
}

/// Floor square root of a nonnegative machine integer.
pub fn isqrt(s: i64) -> (r: i64)
    requires
        s >= 0,
    ensures
        r as int == sqrt_floor(s as int),
        0 <= r,
        r * r <= s,
        s < (r + 1) * (r + 1),
{
    // Binary search over [lo, hi) keeping lo * lo <= s < hi * hi.
    let mut lo: i64 = 0;
    let mut hi: i64 = 3_037_000_500;
    proof {
        assert((3_037_000_500 as int) * (3_037_000_500 as int) > i64::MAX as int);
    }
    while lo + 1 < hi
        invariant
            0 <= lo < hi <= 3_037_000_500,
            lo * lo <= s as int,
            (s as int) < hi * hi,
        decreases hi - lo,
    {
        let mid: i64 = lo + (hi - lo) / 2;
        proof {
            lemma_div_pos_is_pos(s as int, mid as int);
            lemma_div_nonincreasing(s as int, mid as int);
        }
        if mid <= s / mid {
            proof {
                assert(mid * mid <= s as int) by (nonlinear_arith)
                    requires
                        0 < mid,
                        mid <= (s as int) / (mid as int),
                        s >= 0,
                ;
            }
            lo = mid;
        } else {
            proof {
                assert(mid * mid > s as int) by (nonlinear_arith)
                    requires
                        0 < mid,
                        mid > (s as int) / (mid as int),
                        s >= 0,
                ;
            }
            hi = mid;
        }
    }
    proof {
        lemma_sqrt_floor_unique(s as int, lo as int);
    }
    lo
}

/// Sine of `k` quarter turns: the cycle 0, 1, 0, -1.
pub open spec fn qsin(k: int) -> int {
    let r = k % 4;
    if r == 1 {
        1
    } else if r == 3 {
        -1
    } else {
        0
    }
}

/// Cosine of `k` quarter turns: the cycle 1, 0, -1, 0.
pub open spec fn qcos(k: int) -> int {
    let r = k % 4;
    if r == 0 {
        1
    } else if r == 2 {
        -1
    } else {
        0
    }
}

/// A quarter-turn sine/cosine pair lies on the unit circle.
pub proof fn lemma_quarter_unit(k: int)
    ensures
        qsin(k) * qsin(k) + qcos(k) * qcos(k) == 1,
{
    assert(0 <= k % 4 < 4);
}

/// Sine of `k` quarter turns.
pub fn quarter_sin(k: i64) -> (s: i64)
    ensures
        s as int == qsin(k as int),
{
    let r: i64 = ((k % 4) + 4) % 4;
    proof {
        lemma_mod_shift(k as int);
    }
    if r == 1 {
        1
    } else if r == 3 {
        -1
    } else {
        0
    }
}

/// Cosine of `k` quarter turns.
pub fn quarter_cos(k: i64) -> (c: i64)
    ensures
        c as int == qcos(k as int),
{
    let r: i64 = ((k % 4) + 4) % 4;
    proof {
        lemma_mod_shift(k as int);
    }
    if r == 0 {
        1
    } else if r == 2 {
        -1
    } else {
        0
    }
}

/// Machine remainder by four, shifted into [0, 4), agrees with the
/// mathematical remainder.
proof fn lemma_mod_shift(k: int)
    ensures
        ((if k >= 0 {
            k % 4
        } else {
            -((-k) % 4)
        }) + 4) % 4 == k % 4,
{
    assert(((if k >= 0 {
        k % 4
    } else {
        -((-k) % 4)
    }) + 4) % 4 == k % 4) by (nonlinear_arith);
}

} // verus!
