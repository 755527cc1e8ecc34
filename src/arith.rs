use vstd::prelude::*;

verus! {

/// `r` is the square root of `n` rounded down.
pub open spec fn is_floor_root(n: int, r: int) -> bool {
    0 <= r && r * r <= n && n < (r + 1) * (r + 1)
}

/// The square root of a natural number, rounded down.
pub open spec fn floor_root(n: int) -> int {
    choose|r: int| is_floor_root(n, r)
}

/// A natural number has at most one rounded-down square root.
pub proof fn lemma_floor_root_unique(n: int, a: int, b: int)
    requires
        is_floor_root(n, a),
        is_floor_root(n, b),
    ensures
        a == b,
{
    if a < b {
        assert((a + 1) * (a + 1) <= b * b) by (nonlinear_arith)
            requires 0 <= a, a + 1 <= b;
    } else if b < a {
        assert((b + 1) * (b + 1) <= a * a) by (nonlinear_arith)
            requires 0 <= b, b + 1 <= a;
    }
}

/// A witness of `is_floor_root` is what `floor_root` denotes.
pub proof fn lemma_floor_root_is(n: int, r: int)
    requires
        is_floor_root(n, r),
    ensures
        floor_root(n) == r,
{
    let c = floor_root(n);
    assert(is_floor_root(n, c));
    lemma_floor_root_unique(n, r, c);
}

/// The square root of `n`, rounded down, found by bisection.
pub fn isqrt(n: u128) -> (r: u128)
    ensures
        is_floor_root(n as int, r as int),
        r as int == floor_root(n as int),
        r <= u64::MAX,
{
    let mut lo: u128 = 0;
    let mut hi: u128 = 0x1_0000_0000_0000_0000;
    assert(n < hi * hi) by (nonlinear_arith)
        requires n <= u128::MAX, hi == 0x1_0000_0000_0000_0000u128;
    while lo + 1 < hi
        invariant
            lo < hi <= 0x1_0000_0000_0000_0000u128,
            lo * lo <= n,
            n < hi * hi,
        decreases hi - lo,
    {
        let mid: u128 = lo + (hi - lo) / 2;
        assert(mid * mid < 0x1_0000_0000_0000_0000_0000_0000_0000_0000int) by (nonlinear_arith)
            requires mid < 0x1_0000_0000_0000_0000int, 0 <= mid;
        if mid * mid <= n {
            lo = mid;
        } else {
            hi = mid;
        }
    }
    proof {
        lemma_floor_root_is(n as int, lo as int);
    }
    lo
}

} // verus!
