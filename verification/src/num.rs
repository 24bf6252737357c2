//! Scalar helpers shared by the vector and matrix code: truncating
//! division (the semantics of `/` on the machine integer types), the floor
//! square root used by the integer norm, and small bounds lemmas.

use vstd::prelude::*;

verus! {

/// Absolute value of a mathematical integer.
pub open spec fn abs_int(a: int) -> int {
    if a >= 0 {
        a
    } else {
        -a
    }
}

/// Division that rounds toward zero, as `/` does on the machine integer
/// types.  (On `int`, `/` is Euclidean division, which differs for a
/// negative dividend.)
pub open spec fn tdiv(a: int, b: int) -> int {
    if (a >= 0) == (b >= 0) {
        abs_int(a) / abs_int(b)
    } else {
        -(abs_int(a) / abs_int(b))
    }
}

/// `r` is the real square root of `n` rounded down.
pub open spec fn is_isqrt(n: int, r: int) -> bool {
    0 <= r && r * r <= n && n < (r + 1) * (r + 1)
}

/// The real square root of `n`, rounded down.
pub open spec fn isqrt(n: int) -> int {
    choose|r: int| is_isqrt(n, r)
}

/// The floor square root is unique.
pub proof fn lemma_isqrt_unique(n: int, a: int, b: int) by (nonlinear_arith)
    requires
        0 <= a,
        a * a <= n,
        n < (a + 1) * (a + 1),
        0 <= b,
        b * b <= n,
        n < (b + 1) * (b + 1),
    ensures
        a == b,
{
}

/// A witness pins `isqrt` down: any `r` with `is_isqrt(n, r)` is the value
/// of `isqrt(n)`.
pub proof fn lemma_isqrt_is(n: int, r: int)
    requires
        is_isqrt(n, r),
    ensures
        isqrt(n) == r,
        is_isqrt(n, isqrt(n)),
{
    let q = choose|q: int| is_isqrt(n, q);
    lemma_isqrt_unique(n, q, r);
}

/// Every nonnegative integer has a floor square root, so `isqrt` denotes
/// one: proved by building the root up by induction.
pub proof fn lemma_isqrt_exists(n: int)
    requires
        n >= 0,
    ensures
        is_isqrt(n, isqrt(n)),
    decreases n,
{
    if n == 0 {
        lemma_isqrt_is(0, 0);
    } else {
        lemma_isqrt_exists(n - 1);
        let r = isqrt(n - 1);
        if n == (r + 1) * (r + 1) {
            assert(is_isqrt(n, r + 1)) by (nonlinear_arith)
                requires
                    0 <= r,
                    n == (r + 1) * (r + 1),
            ;
            lemma_isqrt_is(n, r + 1);
        } else {
            lemma_isqrt_is(n, r);
        }
    }
}

/// A product of bounded factors is bounded by the product of the bounds.
pub proof fn lemma_mul_le(a: int, b: int, c: int, d: int) by (nonlinear_arith)
    requires
        -c <= a <= c,
        -d <= b <= d,
        0 <= c,
        0 <= d,
    ensures
        -(c * d) <= a * b <= c * d,
{
}

/// A square is nonnegative, and zero exactly for a zero base.
pub proof fn lemma_square_nonneg(a: int) by (nonlinear_arith)
    ensures
        a * a >= 0,
        (a * a == 0) <==> (a == 0),
{
}

/// Floor square root of a machine word, by binary search on the answer.
pub fn isqrt_u64(n: u64) -> (r: u64)
    ensures
        r == isqrt(n as int),
        is_isqrt(n as int, r as int),
{
    let mut lo: u64 = 0;
    let mut hi: u64 = 0x1_0000_0000;
    proof {
        assert(n < hi * hi) by (nonlinear_arith)
            requires
                n <= 0xffff_ffff_ffff_ffffu64,
                hi == 0x1_0000_0000u64,
        ;
    }
    while lo + 1 < hi
        invariant
            lo < hi <= 0x1_0000_0000,
            lo * lo <= n,
            n < hi * hi,
        decreases hi - lo,
    {
        let mid: u64 = lo + (hi - lo) / 2;
        proof {
            assert(mid * mid <= 0xffff_ffff * 0xffff_ffff) by (nonlinear_arith)
                requires
                    mid <= 0xffff_ffffu64,
            ;
        }
        let sq: u64 = mid * mid;
        if sq <= n {
            lo = mid;
        } else {
            hi = mid;
        }
    }
    proof {
        lemma_isqrt_is(n as int, lo as int);
    }
    lo
}

/// Truncating division on `i64`, through unsigned magnitudes so that the
/// rounding direction is explicit.  The dividend and divisor stay above
/// `i64::MIN` so that their magnitudes fit the type.
pub fn div_trunc_i64(a: i64, b: i64) -> (q: i64)
    requires
        b != 0,
        i64::MIN < a,
        i64::MIN < b,
    ensures
        q == tdiv(a as int, b as int),
        abs_int(q as int) <= abs_int(a as int),
{
    let ua: u64 = if a < 0 {
        (-a) as u64
    } else {
        a as u64
    };
    let ub: u64 = if b < 0 {
        (-b) as u64
    } else {
        b as u64
    };
    let uq: u64 = ua / ub;
    proof {
        assert(uq <= ua) by (nonlinear_arith)
            requires
                ub >= 1,
                uq == ua as int / ub as int,
                ua >= 0,
        ;
    }
    let qi: i64 = uq as i64;
    if (a < 0) != (b < 0) {
        -qi
    } else {
        qi
    }
}

/// `d` divides `a` over the integers.
pub open spec fn divides(d: int, a: int) -> bool {
    exists|q: int| a == #[trigger] (q * d)
}

/// Dividing an exact multiple truncates nothing: `tdiv(q * d, d) == q`.
pub proof fn lemma_tdiv_exact(q: int, d: int)
    requires
        d != 0,
    ensures
        tdiv(q * d, d) == q,
{
    let a = q * d;
    assert(abs_int(a) == abs_int(q) * abs_int(d)) by (nonlinear_arith)
        requires
            a == q * d,
            abs_int(a) == (if a >= 0 { a } else { -a }),
            abs_int(q) == (if q >= 0 { q } else { -q }),
            abs_int(d) == (if d >= 0 { d } else { -d }),
    ;
    vstd::arithmetic::div_mod::lemma_div_multiples_vanish(abs_int(q), abs_int(d));
    assert(abs_int(q) * abs_int(d) == abs_int(d) * abs_int(q)) by (nonlinear_arith);
    assert(abs_int(a) / abs_int(d) == abs_int(q));
    if q == 0 {
        assert(a == 0) by (nonlinear_arith)
            requires
                a == q * d,
                q == 0,
        ;
    } else if q > 0 {
        assert((a >= 0) == (d >= 0)) by (nonlinear_arith)
            requires
                q > 0,
                a == q * d,
                d != 0,
        ;
    } else {
        assert((a >= 0) != (d >= 0)) by (nonlinear_arith)
            requires
                q < 0,
                a == q * d,
                d != 0,
        ;
    }
}

/// Division that succeeds only when it loses nothing: `Some(a / b)` when
/// `b` divides `a`, `None` otherwise.
pub fn div_exact_i64(a: i64, b: i64) -> (r: Option<i64>)
    requires
        b != 0,
        i64::MIN < a,
        i64::MIN < b,
    ensures
        r is Some <==> divides(b as int, a as int),
        r is Some ==> a == r.unwrap() * b && r.unwrap() == tdiv(a as int, b as int),
{
    let q: i64 = div_trunc_i64(a, b);
    let back: Option<i64> = q.checked_mul(b);
    let hit: bool = match back {
        Some(p) => p == a,
        None => false,
    };
    proof {
        if divides(b as int, a as int) {
            let q0 = choose|q0: int| a == #[trigger] (q0 * b);
            lemma_tdiv_exact(q0, b as int);
            assert(q == q0);
        }
        if hit {
            assert(a == q * b);
        }
    }
    if hit {
        Some(q)
    } else {
        None
    }
}

/// Truncating division on `i32`, by widening.
pub fn div_trunc_i32(a: i32, b: i32) -> (q: i32)
    requires
        b != 0,
        i32::MIN < a,
        i32::MIN < b,
    ensures
        q == tdiv(a as int, b as int),
        abs_int(q as int) <= abs_int(a as int),
{
    let q64: i64 = div_trunc_i64(a as i64, b as i64);
    q64 as i32
}

} // verus!
