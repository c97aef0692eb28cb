//! Exact integer helpers shared by the camera model: the floor square root
//! used to turn a drag distance into a rotation angle.

use vstd::prelude::*;

verus! {

/// Floor of the square root of `n`, defined by counting up from zero.
pub open spec fn spec_isqrt(n: int) -> int
    decreases n,
{
    if n <= 0 {
        0
    } else {
        let r = spec_isqrt(n - 1);
        if (r + 1) * (r + 1) <= n {
            r + 1
        } else {
            r
        }
    }
}

/// `spec_isqrt(n)` really is the floor square root: it brackets `n`.
pub proof fn lemma_spec_isqrt_bounds(n: int)
    requires
        0 <= n,
    ensures
        0 <= spec_isqrt(n),
        spec_isqrt(n) * spec_isqrt(n) <= n,
        n < (spec_isqrt(n) + 1) * (spec_isqrt(n) + 1),
    decreases n,
{
    if n > 0 {
        lemma_spec_isqrt_bounds(n - 1);
        let r = spec_isqrt(n - 1);
        if (r + 1) * (r + 1) <= n {
            assert(n - 1 < (r + 1) * (r + 1));
            assert((r + 2) * (r + 2) > (r + 1) * (r + 1)) by (nonlinear_arith)
                requires r >= 0;
        }
    }
}

/// Any integer bracketing `n` the way a floor square root does equals `spec_isqrt(n)`.
pub proof fn lemma_isqrt_unique(n: int, r: int)
    requires
        0 <= n,
        0 <= r,
        r * r <= n,
        n < (r + 1) * (r + 1),
    ensures
        r == spec_isqrt(n),
{
    lemma_spec_isqrt_bounds(n);
    let s = spec_isqrt(n);
    if r < s {
        assert((r + 1) * (r + 1) <= s * s) by (nonlinear_arith)
            requires 0 <= r, r + 1 <= s;
    }
    if s < r {
        assert((s + 1) * (s + 1) <= r * r) by (nonlinear_arith)
            requires 0 <= s, s + 1 <= r;
    }
}

/// Floor square root of a `u64`, by binary search.
pub fn isqrt_u64(n: u64) -> (r: u64)
    ensures
        r == spec_isqrt(n as int),
        r * r <= n,
        n < (r + 1) * (r + 1),
{
    let mut lo: u64 = 0;
    let mut hi: u64 = 0x1_0000_0000;
    assert(hi * hi > n as int) by (nonlinear_arith)
        requires n <= 0xffff_ffff_ffff_ffff, hi == 0x1_0000_0000int;
    while lo + 1 < hi
        invariant
            lo < hi,
            hi <= 0x1_0000_0000,
            lo * lo <= n,
            n < hi * hi,
        decreases hi - lo,
    {
        let mid: u64 = lo + (hi - lo) / 2;
        assert(mid * mid < 0x1_0000_0000 * 0x1_0000_0000) by (nonlinear_arith)
            requires mid < 0x1_0000_0000int;
        if mid * mid <= n {
            lo = mid;
        } else {
            hi = mid;
        }
    }
    proof {
        lemma_isqrt_unique(n as int, lo as int);
    }
    lo
}

} // verus!
