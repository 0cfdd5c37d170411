use vstd::prelude::*;

verus! {

/// `r` is the truncated square root of `n`: `r² ≤ n < (r+1)²`.
pub open spec fn is_floor_sqrt(r: int, n: int) -> bool {
    &&& 0 <= r
    &&& r * r <= n
    &&& n < (r + 1) * (r + 1)
}

/// The truncated square root of `n`.
pub open spec fn floor_sqrt(n: nat) -> nat {
    choose|r: nat| is_floor_sqrt(r as int, n as int)
}

/// A number has at most one truncated square root.
pub proof fn lemma_floor_sqrt_unique(r: int, s: int, n: int)
    requires
        is_floor_sqrt(r, n),
        is_floor_sqrt(s, n),
    ensures
        r == s,
{
    if r < s {
        assert((r + 1) * (r + 1) <= s * s) by (nonlinear_arith)
            requires
                0 <= r,
                r + 1 <= s,
        ;
    } else if s < r {
        assert((s + 1) * (s + 1) <= r * r) by (nonlinear_arith)
            requires
                0 <= s,
                s + 1 <= r,
        ;
    }
}

/// Any value with the defining property is `floor_sqrt(n)`.
pub proof fn lemma_floor_sqrt_is(r: nat, n: nat)
    requires
        is_floor_sqrt(r as int, n as int),
    ensures
        floor_sqrt(n) == r,
{
    let c = floor_sqrt(n);
    assert(is_floor_sqrt(c as int, n as int));
    lemma_floor_sqrt_unique(c as int, r as int, n as int);
}

/// Every natural number has a truncated square root; returns it.
pub proof fn lemma_floor_sqrt_exists(n: nat) -> (r: nat)
    ensures
        is_floor_sqrt(r as int, n as int),
    decreases n,
{
    if n == 0 {
        0
    } else {
        let r = lemma_floor_sqrt_exists((n - 1) as nat);
        if (r + 1) * (r + 1) <= n {
            assert(is_floor_sqrt(r + 1int, n as int)) by (nonlinear_arith)
                requires
                    (r + 1) * (r + 1) <= n,
                    n - 1 < (r + 1) * (r + 1),
                    r >= 0,
            ;
            let s: nat = (r + 1) as nat;
            assert(s as int == r + 1int);
            s
        } else {
            assert(r * r <= n);
            assert(is_floor_sqrt(r as int, n as int));
            r
        }
    }
}

/// `floor_sqrt(n)` is the truncated square root of `n`, and below `2^64`
/// when `n` is a product of two `u64` values.
pub proof fn lemma_floor_sqrt_spec(n: nat)
    ensures
        is_floor_sqrt(floor_sqrt(n) as int, n as int),
        n <= (u64::MAX as int) * (u64::MAX as int) ==> floor_sqrt(n) <= u64::MAX,
{
    let w = lemma_floor_sqrt_exists(n);
    lemma_floor_sqrt_is(w, n);
    let r = floor_sqrt(n);
    if n <= (u64::MAX as int) * (u64::MAX as int) {
        assert(r <= u64::MAX) by (nonlinear_arith)
            requires
                r * r <= n,
                n <= (u64::MAX as int) * (u64::MAX as int),
                r >= 0,
        ;
    }
}

/// Calls `num_integer::Roots::sqrt` on a `u128`. The crate documents the
/// result as the truncated square root, `r² ≤ n < (r+1)²`; for unsigned
/// integers it does not panic.
#[verifier::external_body]
pub(crate) fn sqrt_u128(n: u128) -> (r: u128)
    ensures
        is_floor_sqrt(r as int, n as int),
{
    num_integer::Roots::sqrt(&n)
}

} // verus!
