//! Integer square roots, with the lemmas that a proof about them needs.
use vstd::prelude::*;

verus! {

/// `r` is the integer square root of `n`: the largest number whose square
/// does not exceed `n`.
pub open spec fn is_sqrt(n: nat, r: nat) -> bool {
    r * r <= n < (r + 1) * (r + 1)
}

/// The integer square root of `n`.
pub open spec fn isqrt(n: nat) -> nat
    decreases n,
{
    if n == 0 {
        0
    } else {
        let r = isqrt((n - 1) as nat);
        if (r + 1) * (r + 1) <= n {
            r + 1
        } else {
            r
        }
    }
}

/// `isqrt(n)` is the integer square root of `n`.
pub proof fn lemma_isqrt(n: nat)
    ensures
        is_sqrt(n, isqrt(n)),
    decreases n,
{
    if n > 0 {
        lemma_isqrt((n - 1) as nat);
        let r = isqrt((n - 1) as nat);
        let s = r + 1;
        assert((s + 1) * (s + 1) > s * s) by (nonlinear_arith)
            requires
                s >= 0,
        ;
    } else {
        assert(is_sqrt(0, 0)) by (nonlinear_arith);
    }
}

/// The integer square root of a number does not exceed it.
pub proof fn lemma_isqrt_bounded(n: nat)
    ensures
        isqrt(n) <= n,
{
    lemma_isqrt(n);
    let r = isqrt(n);
    assert(r <= r * r) by (nonlinear_arith);
}

/// A number has one integer square root only.
pub proof fn lemma_sqrt_unique(n: nat, a: nat, b: nat)
    requires
        is_sqrt(n, a),
        is_sqrt(n, b),
    ensures
        a == b,
{
    if a < b {
        assert((a + 1) * (a + 1) <= b * b) by (nonlinear_arith)
            requires
                a + 1 <= b,
        ;
    } else if b < a {
        assert((b + 1) * (b + 1) <= a * a) by (nonlinear_arith)
            requires
                b + 1 <= a,
        ;
    }
}

/// A number that is an integer square root of `n` is `isqrt(n)`.
pub proof fn lemma_isqrt_is(n: nat, r: nat)
    requires
        is_sqrt(n, r),
    ensures
        isqrt(n) == r,
{
    lemma_isqrt(n);
    lemma_sqrt_unique(n, r, isqrt(n));
}

/// One step of Heron's method from any positive `z` lands at or above the
/// integer square root.
pub proof fn lemma_heron_step_above(n: nat, z: nat, r: nat)
    requires
        z > 0,
        r * r <= n,
    ensures
        (n / z + z) / 2 >= r,
{
    let q = n / z;
    assert(q * z <= n < (q + 1) * z) by (nonlinear_arith)
        requires
            z > 0,
            q == n / z,
    ;
    if q + z < 2 * r {
        let a = q + 1;
        assert(4 * (a * z) <= (a + z) * (a + z)) by (nonlinear_arith);
        assert((a + z) * (a + z) <= (2 * r) * (2 * r)) by (nonlinear_arith)
            requires
                a + z <= 2 * r,
        ;
        assert((2 * r) * (2 * r) == 4 * (r * r)) by (nonlinear_arith);
        assert(false);
    }
}

/// Where a step of Heron's method no longer descends, the square of its
/// starting point fits under `n`.
pub proof fn lemma_heron_step_stops(n: nat, z: nat)
    requires
        z > 0,
        (n / z + z) / 2 >= z,
    ensures
        z * z <= n,
{
    let q = n / z;
    assert(q >= z);
    assert(q * z <= n) by (nonlinear_arith)
        requires
            z > 0,
            q == n / z,
    ;
    assert(z * z <= q * z) by (nonlinear_arith)
        requires
            z <= q,
    ;
}

/// Either a step of Heron's method descends, or the square of its starting
/// point fits under `n`.
pub proof fn lemma_heron_step_stops_or_not(n: nat, z: nat)
    requires
        z > 0,
    ensures
        (n / z + z) / 2 >= z ==> z * z <= n,
{
    if (n / z + z) / 2 >= z {
        lemma_heron_step_stops(n, z);
    }
}

/// A number at or above the integer square root whose square fits under `n`
/// is the integer square root.
pub proof fn lemma_sqrt_candidate(n: nat, z: nat, root: nat)
    requires
        is_sqrt(n, root),
        z >= root,
        z * z <= n,
    ensures
        z == root,
{
    if z > root {
        assert((root + 1) * (root + 1) <= z * z) by (nonlinear_arith)
            requires
                root + 1 <= z,
        ;
    }
}

/// The smaller of two amounts.
pub open spec fn spec_min(a: u128, b: u128) -> u128 {
    if a < b {
        a
    } else {
        b
    }
}

/// The smaller of two amounts.
#[verifier::when_used_as_spec(spec_min)]
pub fn min(a: u128, b: u128) -> (r: u128)
    ensures
        r == spec_min(a, b),
{
    if a < b {
        a
    } else {
        b
    }
}

} // verus!
