//! Fibonacci numbers by fast doubling, one halving of the index per step.
use vstd::prelude::*;

use crate::fib_math::{fib, lemma_fib_doubling, lemma_fib_monotone};
use crate::numeric::Numeric;

verus! {

/// What the value type must hold for F(n) to be computed: a non-negative
/// index whose Fibonacci number fits the type.
pub open spec fn fits<T: Numeric>(n: T) -> bool {
    &&& 0 <= n.value()
    &&& fib(n.value() as nat) <= T::max_value()
}

/// Two results for indices that stand for the same integer are identical:
/// the computed value depends on the index alone.
pub proof fn lemma_fibbonacci_deterministic<T: Numeric>(n1: T, n2: T, r1: T, r2: T)
    requires
        fits(n1),
        n1.value() == n2.value(),
        r1.value() == fib(n1.value() as nat),
        r2.value() == fib(n2.value() as nat),
    ensures
        r1 == r2,
{
    T::lemma_value_injective(r1, r2);
}

/// The pair (F(k), F(k+1)), by halving k.
fn fib_pair<T: Numeric>(k: T) -> (r: (T, T))
    requires
        0 <= k.value(),
        fib((k.value() + 1) as nat) <= T::max_value(),
    ensures
        r.0.value() == fib(k.value() as nat),
        r.1.value() == fib((k.value() + 1) as nat),
    decreases k.value(),
{
    let zero = T::from_small(0);
    let one = T::from_small(1);
    let two = T::from_small(2);
    if k.equals(zero) {
        proof {
            assert(fib(1) == 1);
        }
        (zero, one)
    } else {
        let h = k.quotient(two);
        let ghost kk = k.value() as nat;
        let ghost j = h.value() as nat;
        proof {
            lemma_fib_monotone(j + 1, kk + 1);
        }
        let (a, b) = fib_pair(h);
        proof {
            lemma_fib_doubling(j);
            lemma_fib_monotone(2 * j, kk + 1);
            lemma_fib_monotone(2 * j + 1, kk + 1);
            T::lemma_max_value();
            if j > 0 {
                assert(fib(j + 1) == fib((j - 1) as nat) + fib(j));
                lemma_fib_monotone((j - 1) as nat, j);
                lemma_fib_monotone(j + 2, kk + 1);
                assert(fib(j + 2) == fib(j) + fib(j + 1));
            } else {
                assert(fib(1) == 1);
            }
            assert(a.value() * a.value() <= fib(2 * j + 1)) by (nonlinear_arith)
                requires
                    fib(2 * j + 1) == a.value() * a.value() + b.value() * b.value(),
                    0 <= b.value(),
            ;
            assert(b.value() * b.value() <= fib(2 * j + 1)) by (nonlinear_arith)
                requires
                    fib(2 * j + 1) == a.value() * a.value() + b.value() * b.value(),
                    0 <= a.value(),
            ;
        }
        let s = b.plus(b.minus(a));
        let c = a.times(s);
        let d = a.times(a).plus(b.times(b));
        if k.remainder(two).equals(zero) {
            proof {
                assert(kk == 2 * j);
            }
            (c, d)
        } else {
            proof {
                assert(kk == 2 * j + 1);
                assert(fib(kk + 1) == fib(2 * j) + fib(2 * j + 1));
            }
            (d, c.plus(d))
        }
    }
}

/// The n-th Fibonacci number, 0-indexed.
///
/// Takes one halving step per bit of `n`. The last step computes only F(n),
/// never F(n+1), so every `n` whose Fibonacci number fits `T` is served.
pub fn fibbonacci<T: Numeric>(n: T) -> (r: T)
    requires
        fits(n),
    ensures
        r.value() == fib(n.value() as nat),
{
    let zero = T::from_small(0);
    let two = T::from_small(2);
    if n.equals(zero) {
        return zero;
    }
    let h = n.quotient(two);
    let ghost nn = n.value() as nat;
    let ghost m = h.value() as nat;
    proof {
        lemma_fib_monotone(m + 1, nn);
    }
    let (a, b) = fib_pair(h);
    proof {
        lemma_fib_doubling(m);
        T::lemma_max_value();
        if m > 0 {
            assert(fib(m + 1) == fib((m - 1) as nat) + fib(m));
            lemma_fib_monotone((m - 1) as nat, m);
            assert(fib(m + 2) == fib(m) + fib(m + 1));
            if m > 1 {
                lemma_fib_monotone(m + 2, nn);
            } else {
                assert(fib(1) == 1);
                assert(fib(2) == fib(0) + fib(1));
                assert(fib(3) == fib(1) + fib(2));
            }
        }
    }
    if n.remainder(two).equals(zero) {
        proof {
            assert(nn == 2 * m);
        }
        a.times(b.plus(b.minus(a)))
    } else {
        proof {
            assert(nn == 2 * m + 1);
            assert(a.value() * a.value() <= fib(nn)) by (nonlinear_arith)
                requires
                    fib(nn) == a.value() * a.value() + b.value() * b.value(),
                    0 <= b.value(),
            ;
            assert(b.value() * b.value() <= fib(nn)) by (nonlinear_arith)
                requires
                    fib(nn) == a.value() * a.value() + b.value() * b.value(),
                    0 <= a.value(),
            ;
        }
        a.times(a).plus(b.times(b))
    }
}

/// The Fibonacci number of each index, in the order of the indices.
pub fn fibbonacci_range<T: Numeric>(indices: Vec<T>) -> (r: Vec<T>)
    requires
        forall|i: int| 0 <= i < indices@.len() ==> fits(#[trigger] indices@[i]),
    ensures
        r@.len() == indices@.len(),
        forall|i: int|
            0 <= i < r@.len() ==> (#[trigger] r@[i]).value() == fib(indices@[i].value() as nat),
{
    let mut result: Vec<T> = Vec::new();
    let mut pos: usize = 0;
    while pos < indices.len()
        invariant
            pos <= indices@.len(),
            result@.len() == pos,
            forall|i: int| 0 <= i < indices@.len() ==> fits(#[trigger] indices@[i]),
            forall|i: int|
                0 <= i < pos ==> (#[trigger] result@[i]).value() == fib(
                    indices@[i].value() as nat,
                ),
        decreases indices@.len() - pos,
    {
        result.push(fibbonacci(indices[pos]));
        pos = pos + 1;
    }
    result
}

} // verus!
