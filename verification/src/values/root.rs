use vstd::prelude::*;

verus! {

/// Whether `r` is the whole part of the square root of `n`.
pub open spec fn is_floor_root(n: nat, r: nat) -> bool {
    r * r <= n < (r + 1) * (r + 1)
}

/// The whole part of the square root of `n`.
pub open spec fn root(n: nat) -> nat {
    choose|r: nat| is_floor_root(n, r)
}

/// A number has one whole root only.
pub proof fn lemma_root_unique(n: nat, r: nat)
    requires
        is_floor_root(n, r),
    ensures
        root(n) == r,
{
    let s = root(n);
    assert(is_floor_root(n, s));
    if s < r {
        assert((s + 1) * (s + 1) <= r * r) by (nonlinear_arith)
            requires
                s + 1 <= r,
        ;
    } else if r < s {
        assert((r + 1) * (r + 1) <= s * s) by (nonlinear_arith)
            requires
                r + 1 <= s,
        ;
    }
}

/// The whole part of the square root of `n`.
pub fn floor_root(n: u128) -> (r: u64)
    ensures
        is_floor_root(n as nat, r as nat),
        r == root(n as nat),
{
    let mut lo: u128 = 0;
    let mut hi: u128 = 0x1_0000_0000_0000_0000;
    assert(0x1_0000_0000_0000_0000int * 0x1_0000_0000_0000_0000int > u128::MAX);
    while hi - lo > 1
        invariant
            lo < hi <= 0x1_0000_0000_0000_0000,
            lo * lo <= n < hi * hi,
        decreases hi - lo,
    {
        let mid: u128 = lo + (hi - lo) / 2;
        assert(mid * mid <= 0xffff_ffff_ffff_ffff * 0xffff_ffff_ffff_ffff) by (nonlinear_arith)
            requires
                0 <= mid <= 0xffff_ffff_ffff_ffff,
        ;
        assert(0xffff_ffff_ffff_ffffint * 0xffff_ffff_ffff_ffffint <= u128::MAX);
        if mid * mid <= n {
            lo = mid;
        } else {
            hi = mid;
        }
    }
    assert(hi == lo + 1);
    proof {
        lemma_root_unique(n as nat, lo as nat);
    }
    lo as u64
}

} // verus!
