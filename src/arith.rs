use vstd::arithmetic::div_mod::{lemma_fundamental_div_mod, lemma_fundamental_div_mod_converse};
use vstd::prelude::*;

verus! {

/// `k * d <= n` exactly when `k` is at most the floor of `n / d`.
pub proof fn lemma_mul_le_iff_le_div(n: int, d: int, k: int)
    requires
        d > 0,
        n >= 0,
        k >= 0,
    ensures
        (k * d <= n) <==> (k <= n / d),
{
    lemma_fundamental_div_mod(n, d);
    let q = n / d;
    let r = n % d;
    assert(0 <= r < d);
    if k <= q {
        assert(k * d <= q * d) by (nonlinear_arith)
            requires
                k <= q,
                d > 0,
        ;
        assert(q * d == d * q) by (nonlinear_arith);
    } else {
        assert(k * d >= (q + 1) * d) by (nonlinear_arith)
            requires
                k >= q + 1,
                d > 0,
        ;
        assert((q + 1) * d == d * q + d) by (nonlinear_arith);
    }
}

/// The floor of `n / d` is the unique `q` with `q * d <= n < q * d + d`.
pub proof fn lemma_floor_div_unique(n: int, d: int, q: int)
    requires
        d > 0,
        q * d <= n,
        n < q * d + d,
    ensures
        n / d == q,
{
    lemma_fundamental_div_mod_converse(n, d, q, n - q * d);
}

} // verus!
