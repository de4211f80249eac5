//! The Fibonacci sequence as a mathematical object, and the facts about it
//! that the fast computation relies on.
use vstd::prelude::*;

verus! {

/// The n-th Fibonacci number, 0-indexed: 0, 1, 1, 2, 3, 5, ...
pub open spec fn fib(n: nat) -> nat
    decreases n,
{
    if n == 0 {
        0
    } else if n == 1 {
        1
    } else {
        fib((n - 2) as nat) + fib((n - 1) as nat)
    }
}

/// The defining recurrence: F(n) = F(n-1) + F(n-2) for every n >= 2.
pub proof fn lemma_fib_recurrence(n: nat)
    requires
        n >= 2,
    ensures
        fib(n) == fib((n - 1) as nat) + fib((n - 2) as nat),
{
}

/// Each Fibonacci number is at most the next one.
pub proof fn lemma_fib_step(n: nat)
    ensures
        fib(n) <= fib(n + 1),
{
    if n > 0 {
        assert(fib(n + 1) == fib((n - 1) as nat) + fib(n));
    }
}

/// The sequence never decreases: F(i) <= F(j) whenever i <= j.
pub proof fn lemma_fib_monotone(i: nat, j: nat)
    requires
        i <= j,
    ensures
        fib(i) <= fib(j),
    decreases j - i,
{
    if i < j {
        lemma_fib_step(i);
        lemma_fib_monotone(i + 1, j);
    }
}

/// The addition formula F(m+n+1) = F(m+1) * F(n+1) + F(m) * F(n).
pub proof fn lemma_fib_addition(m: nat, n: nat)
    ensures
        fib(m + n + 1) == fib(m + 1) * fib(n + 1) + fib(m) * fib(n),
    decreases n,
{
    if n == 0 {
        assert(fib(m + 1) * fib(1) == fib(m + 1)) by (nonlinear_arith)
            requires fib(1) == 1;
    } else if n == 1 {
        assert(fib(2) == fib(0) + fib(1));
        assert(fib(m + 2) == fib(m) + fib(m + 1));
        assert(fib(m + 1) * fib(2) + fib(m) * fib(1) == fib(m + 1) + fib(m)) by (nonlinear_arith)
            requires fib(1) == 1, fib(2) == 1;
    } else {
        lemma_fib_addition(m, (n - 1) as nat);
        lemma_fib_addition(m, (n - 2) as nat);
        let a = fib(m);
        let b = fib(m + 1);
        let p = fib((n - 1) as nat);
        let q = fib(n);
        let r = fib((n - 2) as nat);
        assert(m + (n - 1) as nat + 1 == m + n);
        assert(m + (n - 2) as nat + 1 == m + n - 1);
        assert(fib(n + 1) == q + p);
        assert(q == r + p);
        assert(fib(m + n + 1) == fib((m + n - 1) as nat) + fib(m + n));
        assert(fib(m + n) == b * q + a * p);
        assert(fib((m + n - 1) as nat) == b * p + a * r);
        assert(b * p + a * r + (b * q + a * p) == b * (q + p) + a * q) by (nonlinear_arith)
            requires q == r + p;
        assert(fib(m + n + 1) == b * fib(n + 1) + a * q);
    }
}

/// The doubling identities: with a = F(k) and b = F(k+1),
/// F(2k) = a * (b + (b - a)) and F(2k+1) = a * a + b * b.
pub proof fn lemma_fib_doubling(k: nat)
    ensures
        fib(k) <= fib(k + 1),
        fib(2 * k) == fib(k) * (fib(k + 1) + (fib(k + 1) - fib(k))),
        fib(2 * k + 1) == fib(k) * fib(k) + fib(k + 1) * fib(k + 1),
{
    lemma_fib_step(k);
    lemma_fib_addition(k, k);
    if k > 0 {
        let km = (k - 1) as nat;
        lemma_fib_addition(k, km);
        assert(k + km + 1 == 2 * k);
        assert(fib(k + 1) == fib(km) + fib(k));
        let a = fib(k);
        let b = fib(k + 1);
        let c = fib(km);
        assert(b * a + a * c == a * (b + (b - a))) by (nonlinear_arith)
            requires b == c + a;
    }
}

} // verus!
