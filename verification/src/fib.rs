//! The Fibonacci numbers and the bounded iteration that computes them.

use vstd::prelude::*;

verus! {

/// Smallest index a request may ask for.
pub const MIN_N: i64 = 1;

/// Largest index a request may ask for.
pub const MAX_N: i64 = 90;

/// The Fibonacci numbers: `fib(1) == fib(2) == 1`, and every later one is the
/// sum of the two before it.
pub open spec fn fib(n: nat) -> nat
    decreases n,
{
    if n == 0 {
        0
    } else if n == 1 {
        1
    } else {
        fib((n - 2) as nat) + fib((n - 1) as nat)
    }
}

/// Whether `n` is an index the service answers.
pub open spec fn in_domain(n: int) -> bool {
    MIN_N <= n <= MAX_N
}

/// `fib` never decreases.
pub proof fn lemma_fib_monotonic(i: nat, j: nat)
    requires
        i <= j,
    ensures
        fib(i) <= fib(j),
    decreases j - i,
{
    if j < 2 {
    } else if i == j {
    } else if i == j - 1 {
    } else {
        lemma_fib_monotonic(i, (j - 1) as nat);
        lemma_fib_monotonic(i, (j - 2) as nat);
    }
}

/// Ten steps of the recurrence at once, from two neighbouring values.
proof fn lemma_fib_ten_steps(n: nat, a: nat, b: nat)
    requires
        fib(n) == a,
        fib(n + 1) == b,
    ensures
        fib(n + 10) == 34 * a + 55 * b,
        fib(n + 11) == 55 * a + 89 * b,
{
    assert(fib(n + 2) == a + b);
    assert(fib(n + 3) == a + 2 * b);
    assert(fib(n + 4) == 2 * a + 3 * b);
    assert(fib(n + 5) == 3 * a + 5 * b);
    assert(fib(n + 6) == 5 * a + 8 * b);
    assert(fib(n + 7) == 8 * a + 13 * b);
    assert(fib(n + 8) == 13 * a + 21 * b);
    assert(fib(n + 9) == 21 * a + 34 * b);
    assert(fib(n + 10) == 34 * a + 55 * b);
    assert(fib(n + 11) == 55 * a + 89 * b);
}

/// The value at the upper end of the domain.
pub proof fn lemma_fib_at_max()
    ensures
        fib(90) == 2880067194370816120,
{
    assert(fib(0) == 0 && fib(1) == 1);
    lemma_fib_ten_steps(0, 0, 1);
    lemma_fib_ten_steps(10, 55, 89);
    lemma_fib_ten_steps(20, 6765, 10946);
    lemma_fib_ten_steps(30, 832040, 1346269);
    lemma_fib_ten_steps(40, 102334155, 165580141);
    lemma_fib_ten_steps(50, 12586269025, 20365011074);
    lemma_fib_ten_steps(60, 1548008755920, 2504730781961);
    lemma_fib_ten_steps(70, 190392490709135, 308061521170129);
    lemma_fib_ten_steps(80, 23416728348467685, 37889062373143906);
}

/// Inside the domain every value fits a signed 64-bit integer, which is why
/// the iteration needs no overflow guard.
pub proof fn lemma_fib_fits(n: nat)
    requires
        n <= 90,
    ensures
        fib(n) <= i64::MAX,
{
    lemma_fib_monotonic(n, 90);
    lemma_fib_at_max();
}

/// Computes `fib(n)`: 1 for the first two indices, and beyond them by
/// iterating `result = a + b; a = b; b = result` from `a = 0, b = 1`,
/// `n - 1` times.
pub fn fib_iter(n: i64) -> (result: i64)
    requires
        in_domain(n as int),
    ensures
        result == fib(n as nat),
{
    let mut result: i64 = 1;
    assert(fib(1) == 1 && fib(2) == 1) by {
        reveal_with_fuel(fib, 3);
    }
    if n > 2 {
        let mut a: i64 = 0;
        let mut b: i64 = 1;
        let mut i: i64 = 1;
        while i < n
            invariant
                1 <= i <= n <= MAX_N,
                a == fib((i - 1) as nat),
                b == fib(i as nat),
                result == b,
            decreases n - i,
        {
            proof {
                lemma_fib_fits((i + 1) as nat);
            }
            result = a + b;
            a = b;
            b = result;
            i = i + 1;
        }
    }
    result
}

} // verus!
