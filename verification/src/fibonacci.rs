//! Fibonacci numbers in 128-bit unsigned arithmetic.
//!
//! The sequence is defined mathematically by [`fib`]. Two executable routines compute
//! values of it: a direct recursion and a linear-time iteration. Both are bounded by the
//! largest index whose value still fits in a `u128`, which is [`MAX_FIB_INDEX`].

use vstd::prelude::*;

verus! {

/// The largest `n` for which `fib(n)` fits in a `u128`.
pub const MAX_FIB_INDEX: u128 = 186;

/// The Fibonacci sequence: 0, 1, 1, 2, 3, 5, 8, ...
pub open spec fn fib(n: nat) -> nat
    decreases n,
{
    if n <= 1 {
        n
    } else {
        fib((n - 1) as nat) + fib((n - 2) as nat)
    }
}

/// What [`fib_optimized`] returns: it seeds the pair `(0, 1)` and advances it `n - 2`
/// times, so from index 2 on it yields the Fibonacci number one place before `n`.
pub open spec fn lagging_fib(n: nat) -> nat {
    if n <= 1 {
        n
    } else {
        fib((n - 1) as nat)
    }
}

/// The sequence never decreases.
pub proof fn lemma_fib_monotonic(i: nat, j: nat)
    requires
        i <= j,
    ensures
        fib(i) <= fib(j),
    decreases j,
{
    if i < j {
        lemma_fib_monotonic(i, (j - 1) as nat);
        if j >= 2 {
            assert(fib(j) == fib((j - 1) as nat) + fib((j - 2) as nat));
        }
    }
}

/// Addition law: `fib(m + n + 1) = fib(m + 1) * fib(n + 1) + fib(m) * fib(n)`.
pub proof fn lemma_fib_addition(m: nat, n: nat)
    ensures
        fib(m + n + 1) == fib(m + 1) * fib(n + 1) + fib(m) * fib(n),
    decreases n,
{
    if n == 0 {
        assert(fib(m + 1) * 1 + fib(m) * 0 == fib(m + 1));
    } else if n == 1 {
        reveal_with_fuel(fib, 3);
        assert(fib(m + 2) == fib(m + 1) + fib(m));
        assert(fib(m + 1) * 1 + fib(m) * 1 == fib(m + 1) + fib(m));
    } else {
        let p = (n - 1) as nat;
        let q = (n - 2) as nat;
        lemma_fib_addition(m, p);
        lemma_fib_addition(m, q);
        let a = fib(m + 1);
        let b = fib(m);
        let (f0, f1, f2) = (fib(q), fib(p), fib(n));
        assert(fib(n + 1) == f2 + f1);
        assert(f2 == f1 + f0);
        assert(fib(m + n + 1) == fib(m + p + 1) + fib(m + q + 1));
        assert(a * f2 + b * f1 + (a * f1 + b * f0) == a * (f2 + f1) + b * (f1 + f0))
            by (nonlinear_arith);
    }
}

/// Doubling law: from the pair at index `k`, here `(a, b)`, follow the values at
/// indices `2k`, `2k + 1` and `2k + 2`.
pub proof fn lemma_fib_doubling(k: nat, a: nat, b: nat)
    requires
        fib(k) == a,
        fib(k + 1) == b,
    ensures
        fib(2 * k) == a * (2 * b - a),
        fib(2 * k + 1) == a * a + b * b,
        fib(2 * k + 2) == a * (2 * b - a) + (a * a + b * b),
{
    lemma_fib_addition(k, k);
    assert(b * b + a * a == a * a + b * b);
    if k == 0 {
        assert(a * (2 * b - a) == 0) by (nonlinear_arith)
            requires
                a == 0,
        ;
    } else {
        let j = (k - 1) as nat;
        lemma_fib_addition(j, k);
        let c = fib(j);
        assert(b == a + c);
        assert(fib(2 * k) == a * b + c * a);
        assert(a * b + c * a == a * (2 * b - a)) by (nonlinear_arith)
            requires
                b == a + c,
        ;
    }
    assert(fib(2 * k + 2) == fib(2 * k + 1) + fib(2 * k));
}

/// The value at the largest supported index, and the one after it.
pub proof fn lemma_fib_at_limit()
    ensures
        fib(186) == 332825110087067562321196029789634457848,
        fib(187) == 538522340430300790495419781092981030533,
{
    assert(fib(1) == 1 && fib(2) == 1) by {
        reveal_with_fuel(fib, 3);
    }
    lemma_fib_doubling(1, 1, 1);
    lemma_fib_doubling(2, 1, 2);
    lemma_fib_doubling(5, 5, 8);
    lemma_fib_doubling(11, 89, 144);
    lemma_fib_doubling(23, 28657, 46368);
    lemma_fib_doubling(46, 1836311903, 2971215073);
    lemma_fib_doubling(93, 12200160415121876738, 19740274219868223167);
}

/// Every index up to [`MAX_FIB_INDEX`] has a value that fits in a `u128`, and the next
/// index does not: the bound is exactly what the machine type allows.
pub proof fn lemma_fib_fits(n: nat)
    ensures
        n <= MAX_FIB_INDEX ==> fib(n) <= u128::MAX,
        n > MAX_FIB_INDEX ==> fib(n) > u128::MAX,
{
    lemma_fib_at_limit();
    if n <= 186 {
        lemma_fib_monotonic(n, 186);
    } else {
        lemma_fib_monotonic(187, n);
    }
}

/// The `n`-th Fibonacci number, by the defining recursion.
///
/// Runs in time exponential in `n`.
pub fn fib_recursive(n: u128) -> (r: u128)
    requires
        n <= MAX_FIB_INDEX,
    ensures
        r == fib(n as nat),
    decreases n,
{
    if n <= 1 {
        return n;
    }
    proof {
        lemma_fib_fits(n as nat);
    }
    return fib_recursive(n - 1) + fib_recursive(n - 2);
}

/// Iterates the recurrence from the pair `(0, 1)`, once for each index in `2..n`.
///
/// Runs in time linear in `n`. The result is [`lagging_fib`]: `0` for `n == 0`, and
/// `fib(n - 1)` from there on (which is also `fib(n)` for `n` equal to 1 or 2).
pub fn fib_optimized(n: u128) -> (r: u128)
    requires
        n <= MAX_FIB_INDEX + 1,
    ensures
        r == lagging_fib(n as nat),
{
    let mut a: u128 = 0;
    let mut b: u128 = 1;
    let mut c: u128;
    if n == 0 {
        return a;
    }
    let mut i: u128 = 2;
    while i < n
        invariant
            n <= MAX_FIB_INDEX + 1,
            2 <= i,
            i <= n || i == 2,
            a == fib((i - 2) as nat),
            b == fib((i - 1) as nat),
        decreases n - i,
    {
        proof {
            lemma_fib_fits(i as nat);
        }
        c = a + b;
        a = b;
        b = c;
        i += 1;
    }
    return b;
}

} // verus!
