//! Counting functions and element-wise array arithmetic.
use vstd::prelude::*;

verus! {

/// The product `lo * (lo + 1) * ... * hi`; the empty product (hi < lo) is 1.
pub open spec fn range_product(lo: nat, hi: nat) -> nat
    decreases hi,
{
    if hi < lo || hi == 0 {
        1
    } else {
        range_product(lo, (hi - 1) as nat) * hi
    }
}

/// `n!`
pub open spec fn fact(n: nat) -> nat {
    range_product(1, n)
}

/// The number of `k`-element subsets of an `n`-element set (Pascal's triangle).
pub open spec fn binomial(n: nat, k: nat) -> nat
    decreases n,
{
    if k == 0 {
        1
    } else if n == 0 {
        0
    } else {
        binomial((n - 1) as nat, (k - 1) as nat) + binomial((n - 1) as nat, k)
    }
}

/// Every step of the running product in `count_combinations` fits in a `u64`.
pub open spec fn combinations_fit(n: nat, r: nat) -> bool {
    r <= n ==> forall|v: nat|
        1 <= v <= (if r < n - r { r } else { (n - r) as nat }) ==> #[trigger] binomial(n, v) * v
            <= u64::MAX
}

pub proof fn lemma_range_product_pos(lo: nat, hi: nat)
    requires
        lo >= 1,
    ensures
        range_product(lo, hi) >= 1,
    decreases hi,
{
    if !(hi < lo || hi == 0) {
        lemma_range_product_pos(lo, (hi - 1) as nat);
        assert(range_product(lo, (hi - 1) as nat) * hi >= 1) by (nonlinear_arith)
            requires
                range_product(lo, (hi - 1) as nat) >= 1,
                hi >= 1,
        ;
    }
}

/// Partial products of a run of factors that are all at least 1 never exceed the whole.
pub proof fn lemma_range_product_mono(lo: nat, mid: nat, hi: nat)
    requires
        lo >= 1,
        mid <= hi,
    ensures
        range_product(lo, mid) <= range_product(lo, hi),
    decreases hi,
{
    if mid < hi {
        lemma_range_product_mono(lo, mid, (hi - 1) as nat);
        if !(hi < lo || hi == 0) {
            lemma_range_product_pos(lo, (hi - 1) as nat);
            assert(range_product(lo, (hi - 1) as nat) <= range_product(lo, (hi - 1) as nat) * hi)
                by (nonlinear_arith)
                requires
                    hi >= 1,
            ;
        } else {
            assert(range_product(lo, (hi - 1) as nat) <= range_product(lo, hi)) by {
                if hi >= 1 {
                    assert(range_product(lo, (hi - 1) as nat) == 1);
                }
            }
        }
    }
}

/// A product over `lo..=hi` splits at any point `m` into `lo..=m` and `m+1..=hi`.
pub proof fn lemma_range_product_split(lo: nat, m: nat, hi: nat)
    requires
        1 <= lo <= m + 1,
        m <= hi,
    ensures
        range_product(lo, hi) == range_product(lo, m) * range_product(m + 1, hi),
    decreases hi,
{
    if hi == m {
        assert(range_product(m + 1, hi) == 1);
    } else {
        lemma_range_product_split(lo, m, (hi - 1) as nat);
        let a = range_product(lo, m);
        let b = range_product(m + 1, (hi - 1) as nat);
        assert(range_product(m + 1, hi) == b * hi);
        assert(range_product(lo, hi) == (a * b) * hi);
        assert((a * b) * hi == a * (b * hi)) by (nonlinear_arith);
    }
}

pub proof fn lemma_fact_pos(n: nat)
    ensures
        fact(n) >= 1,
{
    lemma_range_product_pos(1, n);
}

pub proof fn lemma_fact_step(n: nat)
    requires
        n >= 1,
    ensures
        fact(n) == n * fact((n - 1) as nat),
{
    assert(range_product(1, n) == range_product(1, (n - 1) as nat) * n);
    assert(range_product(1, (n - 1) as nat) * n == n * range_product(1, (n - 1) as nat))
        by (nonlinear_arith);
}

pub proof fn lemma_binomial_above(n: nat, k: nat)
    requires
        k > n,
    ensures
        binomial(n, k) == 0,
    decreases n,
{
    if n > 0 {
        lemma_binomial_above((n - 1) as nat, (k - 1) as nat);
        lemma_binomial_above((n - 1) as nat, k);
    }
}

/// `C(n, k) * k! * (n - k)! == n!`
pub proof fn lemma_binomial_fact(n: nat, k: nat)
    requires
        k <= n,
    ensures
        binomial(n, k) * fact(k) * fact((n - k) as nat) == fact(n),
    decreases n,
{
    if k == 0 {
        assert(fact(0) == 1);
        assert(binomial(n, k) == 1);
        assert(1 * 1 * fact(n) == fact(n)) by (nonlinear_arith);
    } else {
        let n1 = (n - 1) as nat;
        let k1 = (k - 1) as nat;
        lemma_binomial_fact(n1, k1);
        lemma_fact_step(k);
        lemma_fact_step(n);
        let b1 = binomial(n1, k1);
        let b2 = binomial(n1, k);
        let fk1 = fact(k1);
        let fnk = fact((n - k) as nat);
        let fn1 = fact(n1);
        assert(b1 * fk1 * fnk == fn1);
        let t2 = b2 * fact(k) * fnk;
        if k == n {
            lemma_binomial_above(n1, k);
            assert(b2 == 0);
            assert(t2 == 0) by (nonlinear_arith)
                requires
                    b2 == 0,
                    t2 == b2 * fact(k) * fnk,
            ;
        } else {
            lemma_binomial_fact(n1, k);
            lemma_fact_step((n - k) as nat);
            let fnk1 = fact((n1 - k) as nat);
            assert(fnk == (n - k) * fnk1);
            assert(b2 * fact(k) * fnk1 == fn1);
            assert(t2 == (n - k) * fn1) by (nonlinear_arith)
                requires
                    fnk == (n - k) * fnk1,
                    b2 * fact(k) * fnk1 == fn1,
                    t2 == b2 * fact(k) * fnk,
            ;
        }
        assert(t2 == (n - k) * fn1);
        assert(binomial(n, k) == b1 + b2);
        assert(binomial(n, k) * fact(k) * fnk == n * fn1) by (nonlinear_arith)
            requires
                binomial(n, k) == b1 + b2,
                fact(k) == k * fk1,
                b1 * fk1 * fnk == fn1,
                t2 == b2 * fact(k) * fnk,
                t2 == (n - k) * fn1,
                k <= n,
        ;
        assert(fact(n) == n * fn1);
    }
}

/// Consecutive entries of a row of Pascal's triangle:
/// `C(n, j) * (n - j) == C(n, j + 1) * (j + 1)`.
pub proof fn lemma_binomial_step(n: nat, j: nat)
    requires
        j < n,
    ensures
        binomial(n, j) * (n - j) == binomial(n, j + 1) * (j + 1),
{
    lemma_binomial_fact(n, j);
    lemma_binomial_fact(n, j + 1);
    lemma_fact_step(j + 1);
    lemma_fact_step((n - j) as nat);
    lemma_fact_pos(j);
    lemma_fact_pos((n - j - 1) as nat);
    let a = binomial(n, j);
    let b = binomial(n, j + 1);
    let fj = fact(j);
    let g = fact((n - j - 1) as nat);
    assert(fact((n - j) as nat) == (n - j) * g);
    assert(fact(j + 1) == (j + 1) * fj);
    assert(a * (n - j) == b * (j + 1)) by (nonlinear_arith)
        requires
            a * fj * ((n - j) * g) == b * ((j + 1) * fj) * g,
            fj >= 1,
            g >= 1,
    ;
}

/// Choosing `k` elements is choosing the `n - k` that are left out.
pub proof fn lemma_binomial_symmetric(n: nat, k: nat)
    requires
        k <= n,
    ensures
        binomial(n, k) == binomial(n, (n - k) as nat),
{
    lemma_binomial_fact(n, k);
    lemma_binomial_fact(n, (n - k) as nat);
    lemma_fact_pos(k);
    lemma_fact_pos((n - k) as nat);
    let a = binomial(n, k);
    let b = binomial(n, (n - k) as nat);
    let fk = fact(k);
    let g = fact((n - k) as nat);
    assert((n - (n - k)) as nat == k);
    assert(a == b) by (nonlinear_arith)
        requires
            a * fk * g == b * g * fk,
            fk >= 1,
            g >= 1,
    ;
}

/// `n!`, the product of `1..=n`.
pub fn factorial(n: u64) -> (res: u64)
    requires
        fact(n as nat) <= u64::MAX,
    ensures
        res == fact(n as nat),
{
    let mut acc: u64 = 1;
    let mut i: u64 = 0;
    while i < n
        invariant
            i <= n,
            acc == range_product(1, i as nat),
            fact(n as nat) <= u64::MAX,
        decreases n - i,
    {
        i = i + 1;
        proof {
            lemma_range_product_mono(1, i as nat, n as nat);
        }
        acc = acc * i;
    }
    acc
}

/// `n! / (n - r)!`, the number of ordered selections of `r` out of `n`.
pub fn combination(n: u64, r: u64) -> (res: u64)
    requires
        r <= n,
        fact(n as nat) <= u64::MAX,
    ensures
        res == fact(n as nat) / fact((n - r) as nat),
{
    proof {
        lemma_range_product_mono(1, (n - r) as nat, n as nat);
        lemma_fact_pos((n - r) as nat);
    }
    factorial(n) / factorial(n - r)
}

/// The number of ways to choose `r` of `n` elements; 0 when `r > n`.
pub fn count_combinations(n: u64, r: u64) -> (res: u64)
    requires
        combinations_fit(n as nat, r as nat),
    ensures
        res == binomial(n as nat, r as nat),
{
    if r > n {
        proof {
            lemma_binomial_above(n as nat, r as nat);
        }
        0
    } else {
        let m: u64 = if r < n - r { r } else { n - r };
        let mut acc: u64 = 1;
        let mut val: u64 = 0;
        while val < m
            invariant
                r <= n,
                m == (if r < n - r { r } else { (n - r) as u64 }),
                val <= m,
                acc == binomial(n as nat, val as nat),
                combinations_fit(n as nat, r as nat),
            decreases m - val,
        {
            val = val + 1;
            proof {
                lemma_binomial_step(n as nat, (val - 1) as nat);
                assert(binomial(n as nat, val as nat) * (val as nat) <= u64::MAX);
            }
            acc = acc * (n - val + 1) / val;
            proof {
                let b = binomial(n as nat, val as nat);
                assert((b * (val as nat)) / (val as nat) == b) by (nonlinear_arith)
                    requires
                        val >= 1,
                ;
            }
        }
        proof {
            lemma_binomial_symmetric(n as nat, r as nat);
        }
        acc
    }
}

/// The product `(n - r + 1) * ... * n`, the number of ordered selections of `r` out of `n`.
pub fn count_permutations(n: u64, r: u64) -> (res: u64)
    requires
        r <= n,
        n - r + 1 <= u64::MAX,
        range_product((n - r + 1) as nat, n as nat) <= u64::MAX,
    ensures
        res == range_product((n - r + 1) as nat, n as nat),
{
    let lo: u64 = n - r + 1;
    let mut acc: u64 = 1;
    let mut k: u64 = 0;
    while k < r
        invariant
            r <= n,
            lo == n - r + 1,
            k <= r,
            acc == range_product(lo as nat, (lo + k - 1) as nat),
            range_product(lo as nat, n as nat) <= u64::MAX,
        decreases r - k,
    {
        proof {
            lemma_range_product_mono(lo as nat, (lo + k) as nat, n as nat);
            assert(range_product(lo as nat, (lo + k) as nat) == range_product(
                lo as nat,
                (lo + k - 1) as nat,
            ) * ((lo + k) as nat));
        }
        acc = acc * (lo + k);
        k = k + 1;
    }
    acc
}

/// Ordered selections counted as a quotient of factorials equal those counted as a product:
/// `n! / (n - r)! == (n - r + 1) * ... * n`.
pub proof fn lemma_combination_is_permutation_count(n: nat, r: nat)
    requires
        r <= n,
    ensures
        fact(n) / fact((n - r) as nat) == range_product((n - r + 1) as nat, n),
{
    lemma_range_product_split(1, (n - r) as nat, n);
    lemma_fact_pos((n - r) as nat);
    let a = fact((n - r) as nat);
    let b = range_product((n - r + 1) as nat, n);
    assert((a * b) / a == b) by (nonlinear_arith)
        requires
            a >= 1,
    ;
}

/// Unordered selections times the orderings of each give the ordered selections:
/// `C(n, r) * r! == (n - r + 1) * ... * n`.
pub proof fn lemma_combinations_times_orderings(n: nat, r: nat)
    requires
        r <= n,
    ensures
        binomial(n, r) * fact(r) == range_product((n - r + 1) as nat, n),
{
    lemma_binomial_fact(n, r);
    lemma_range_product_split(1, (n - r) as nat, n);
    lemma_fact_pos((n - r) as nat);
    let a = fact((n - r) as nat);
    let b = range_product((n - r + 1) as nat, n);
    let c = binomial(n, r) * fact(r);
    assert(c == b) by (nonlinear_arith)
        requires
            c * a == a * b,
            a >= 1,
    ;
}

/// Multiplies every element of `lhs` by `rhs`.
pub fn mul_array<const D: usize>(lhs: [i64; D], rhs: i64) -> (res: [i64; D])
    requires
        forall|i: int| 0 <= i < D ==> i64::MIN <= #[trigger] lhs[i] * rhs <= i64::MAX,
    ensures
        forall|i: int| 0 <= i < D ==> #[trigger] res[i] == lhs[i] * rhs,
{
    let mut out = lhs;
    let mut i: usize = 0;
    while i < D
        invariant
            i <= D,
            forall|j: int| 0 <= j < D ==> i64::MIN <= #[trigger] lhs[j] * rhs <= i64::MAX,
            forall|j: int| 0 <= j < i ==> #[trigger] out[j] == lhs[j] * rhs,
            forall|j: int| i <= j < D ==> #[trigger] out[j] == lhs[j],
        decreases D - i,
    {
        let v = out[i];
        assert(v == lhs[i as int]);
        out[i] = v * rhs;
        i = i + 1;
    }
    out
}

/// Adds `rhs` to every element of `lhs`.
pub fn add_array<const D: usize>(lhs: [i64; D], rhs: i64) -> (res: [i64; D])
    requires
        forall|i: int| 0 <= i < D ==> i64::MIN <= #[trigger] lhs[i] + rhs <= i64::MAX,
    ensures
        forall|i: int| 0 <= i < D ==> #[trigger] res[i] == lhs[i] + rhs,
{
    let mut out = lhs;
    let mut i: usize = 0;
    while i < D
        invariant
            i <= D,
            forall|j: int| 0 <= j < D ==> i64::MIN <= #[trigger] lhs[j] + rhs <= i64::MAX,
            forall|j: int| 0 <= j < i ==> #[trigger] out[j] == lhs[j] + rhs,
            forall|j: int| i <= j < D ==> #[trigger] out[j] == lhs[j],
        decreases D - i,
    {
        let v = out[i];
        assert(v == lhs[i as int]);
        out[i] = v + rhs;
        i = i + 1;
    }
    out
}

/// Adds `rhs` to `lhs` element by element.
pub fn add_array_array<const D: usize>(lhs: [i64; D], rhs: [i64; D]) -> (res: [i64; D])
    requires
        forall|i: int| 0 <= i < D ==> i64::MIN <= #[trigger] lhs[i] + rhs[i] <= i64::MAX,
    ensures
        forall|i: int| 0 <= i < D ==> #[trigger] res[i] == lhs[i] + rhs[i],
{
    let mut out = lhs;
    let mut i: usize = 0;
    while i < D
        invariant
            i <= D,
            forall|j: int| 0 <= j < D ==> i64::MIN <= #[trigger] lhs[j] + rhs[j] <= i64::MAX,
            forall|j: int| 0 <= j < i ==> #[trigger] out[j] == lhs[j] + rhs[j],
            forall|j: int| i <= j < D ==> #[trigger] out[j] == lhs[j],
        decreases D - i,
    {
        let v = out[i];
        assert(v == lhs[i as int]);
        out[i] = v + rhs[i];
        i = i + 1;
    }
    out
}

} // verus!
