//! Integer arithmetic behind the launch dimensions.
use vstd::prelude::*;

verus! {

/// The quotient of `n` by `d`, rounded up.
pub open spec fn ceil_div(n: int, d: int) -> int
    recommends
        0 <= n,
        0 < d,
{
    (n + d - 1) / d
}

/// `r` is the square root of `n`, rounded down.
pub open spec fn is_floor_sqrt(r: nat, n: nat) -> bool {
    r * r <= n < (r + 1) * (r + 1)
}

/// The square root of `n`, rounded down.
pub open spec fn floor_sqrt(n: nat) -> nat {
    choose|r: nat| is_floor_sqrt(r, n)
}

/// Rounding up gives the least number of groups of `d` that hold `n` items.
pub proof fn law_ceil_div_is_least_cover(n: int, d: int)
    requires
        0 <= n,
        0 < d,
    ensures
        ceil_div(n, d) * d >= n,
        forall|q: int| #![trigger q * d] q * d >= n ==> q >= ceil_div(n, d),
        0 <= ceil_div(n, d) <= n,
{
    let c = ceil_div(n, d);
    vstd::arithmetic::div_mod::lemma_fundamental_div_mod(n + d - 1, d);
    vstd::arithmetic::div_mod::lemma_mod_bound(n + d - 1, d);
    vstd::arithmetic::mul::lemma_mul_is_commutative(c, d);
    assert forall|q: int| #![trigger q * d] q * d >= n implies q >= c by {
        if q < c {
            assert(q * d <= (c - 1) * d) by (nonlinear_arith)
                requires
                    q <= c - 1,
                    0 < d,
            ;
            assert((c - 1) * d == c * d - d) by (nonlinear_arith);
        }
    }
    assert(c >= 0) by {
        vstd::arithmetic::div_mod::lemma_div_pos_is_pos(n + d - 1, d);
    }
    assert(n * d >= n) by (nonlinear_arith)
        requires
            0 <= n,
            1 <= d,
    ;
}

/// There is at most one floor of a square root.
proof fn lemma_floor_sqrt_unique(r: nat, s: nat, n: nat)
    requires
        is_floor_sqrt(r, n),
        is_floor_sqrt(s, n),
    ensures
        r == s,
{
    if r < s {
        assert((r + 1) * (r + 1) <= s * s) by (nonlinear_arith)
            requires
                r + 1 <= s,
        ;
    }
    if s < r {
        assert((s + 1) * (s + 1) <= r * r) by (nonlinear_arith)
            requires
                s + 1 <= r,
        ;
    }
}

/// A number that squares to at most `n`, while its successor does not, is
/// [`floor_sqrt`] of `n`.
pub proof fn law_floor_sqrt(r: nat, n: nat)
    requires
        is_floor_sqrt(r, n),
    ensures
        floor_sqrt(n) == r,
{
    lemma_floor_sqrt_unique(r, floor_sqrt(n), n);
}

/// Every number has a floor of its square root: [`floor_sqrt`] squares to at
/// most `n`, and its successor does not.
pub proof fn law_floor_sqrt_exists(n: nat)
    ensures
        is_floor_sqrt(floor_sqrt(n), n),
        floor_sqrt(n) * floor_sqrt(n) <= n,
        n < (floor_sqrt(n) + 1) * (floor_sqrt(n) + 1),
    decreases n,
{
    if n == 0 {
        assert(is_floor_sqrt(0, 0)) by (nonlinear_arith);
    } else {
        let m = (n - 1) as nat;
        law_floor_sqrt_exists(m);
        let r = floor_sqrt(m);
        if (r + 1) * (r + 1) <= n {
            assert((r + 2) * (r + 2) > (r + 1) * (r + 1)) by (nonlinear_arith);
            assert(is_floor_sqrt(r + 1, n));
        } else {
            assert(is_floor_sqrt(r, n));
        }
    }
}

/// The integer square root of a number squares to at most that number, its
/// successor squares to more, and the root of a larger number is never
/// smaller.
pub proof fn law_isqrt(n: u32, more: u32, r: u32, s: u32)
    requires
        n <= more,
        call_ensures(isqrt, (n,), r),
        call_ensures(isqrt, (more,), s),
    ensures
        r * r <= n,
        n < (r + 1) * (r + 1),
        r <= s,
{
    if s < r {
        assert((s + 1) * (s + 1) <= r * r) by (nonlinear_arith)
            requires
                s + 1 <= r,
                0 <= s,
        ;
    }
}

/// The root and `n / root` lie between one and `n`, and `n / root` is the root,
/// or the root plus one or two.
pub(crate) proof fn lemma_floor_sqrt_split(n: nat)
    requires
        0 < n,
    ensures
        0 < floor_sqrt(n) <= n,
        floor_sqrt(n) <= n / floor_sqrt(n) <= floor_sqrt(n) + 2,
        n / floor_sqrt(n) <= n,
        floor_sqrt(n) * (n / floor_sqrt(n)) <= n,
{
    law_floor_sqrt_exists(n);
    let r = floor_sqrt(n);
    let q = n / r;
    assert(0 < r) by (nonlinear_arith)
        requires
            n < (r + 1) * (r + 1),
            0 < n,
    ;
    assert(r <= n) by (nonlinear_arith)
        requires
            r * r <= n,
            0 < r,
    ;
    vstd::arithmetic::div_mod::lemma_fundamental_div_mod(n as int, r as int);
    vstd::arithmetic::div_mod::lemma_mod_bound(n as int, r as int);
    assert(r <= q) by (nonlinear_arith)
        requires
            r * r <= n,
            n < r * q + r,
            0 < r,
    ;
    assert(q <= n) by (nonlinear_arith)
        requires
            r * q <= n,
            0 < r,
            0 <= q,
    ;
    assert(q <= r + 2) by (nonlinear_arith)
        requires
            r * q <= n,
            n < (r + 1) * (r + 1),
            0 < r,
    ;
}

/// The square root of `n`, rounded down.
pub fn isqrt(n: u32) -> (r: u32)
    ensures
        r == floor_sqrt(n as nat),
        is_floor_sqrt(r as nat, n as nat),
        r * r <= n,
        n < (r + 1) * (r + 1),
{
    let mut r: u32 = 0;
    while (r as u64 + 1) * (r as u64 + 1) <= n as u64
        invariant
            r <= 0xffff,
            r * r <= n,
            (r + 1) * (r + 1) <= 0x1_0000_0000,
        decreases n - r,
    {
        proof {
            let s: int = r + 1;
            assert(s <= 0xffff) by (nonlinear_arith)
                requires
                    s * s <= n,
                    n <= 0xffff_ffff,
                    s >= 0,
            ;
            assert(s <= n) by (nonlinear_arith)
                requires
                    s * s <= n,
                    s >= 1,
            ;
            assert((s + 1) * (s + 1) <= 0x1_0000_0000) by (nonlinear_arith)
                requires
                    0 <= s <= 0xffff,
            ;
        }
        r = r + 1;
    }
    proof {
        law_floor_sqrt(r as nat, n as nat);
    }
    r
}

} // verus!
