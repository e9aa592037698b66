//! The fixed, deterministic workload that every worker unit computes.

use vstd::prelude::*;

verus! {

/// The index of the Fibonacci number that every worker unit computes.
pub const WORKLOAD_INDEX: u32 = 30;

/// The number that every worker unit must report.
pub const WORKLOAD_RESULT: u32 = 832040;

/// The largest index whose Fibonacci number fits in 32 bits.
pub const MAX_FIB_INDEX: u32 = 47;

/// The Fibonacci numbers: 0, 1, 1, 2, 3, 5, ...
pub open spec fn fib(n: nat) -> nat
    decreases n,
{
    if n <= 1 {
        n
    } else {
        fib((n - 1) as nat) + fib((n - 2) as nat)
    }
}

/// The Fibonacci sequence never decreases.
pub proof fn lemma_fib_monotonic(i: nat, j: nat)
    requires
        i <= j,
    ensures
        fib(i) <= fib(j),
    decreases j,
{
    if i < j {
        if j >= 2 {
            lemma_fib_monotonic(i, (j - 1) as nat);
        }
    }
}

/// The sequence that starts with `a`, `b` and goes on as the Fibonacci
/// numbers do, `k` steps on.
pub open spec fn fib_from(a: nat, b: nat, k: nat) -> nat
    decreases k,
{
    if k == 0 {
        a
    } else {
        fib_from(b, a + b, (k - 1) as nat)
    }
}

/// Stepping on from two neighbouring Fibonacci numbers gives the later ones.
pub proof fn lemma_fib_from(n: nat, k: nat)
    ensures
        fib_from(fib(n), fib(n + 1), k) == fib(n + k),
    decreases k,
{
    if k > 0 {
        lemma_fib_from(n + 1, (k - 1) as nat);
    }
}

/// The values that the rest of the crate relies on.
pub proof fn lemma_fib_values()
    ensures
        fib(30) == 832040,
        fib(47) == 2971215073,
        fib(48) == 4807526976,
{
    lemma_fib_from(0, 30);
    lemma_fib_from(0, 47);
    lemma_fib_from(0, 48);
    reveal_with_fuel(fib_from, 49);
}

/// The Fibonacci numbers that fit in 32 bits are those up to `MAX_FIB_INDEX`.
pub proof fn lemma_fib_fits(n: nat)
    ensures
        fib(n) <= u32::MAX <==> n <= MAX_FIB_INDEX,
{
    lemma_fib_values();
    if n <= 47 {
        lemma_fib_monotonic(n, 47);
    } else {
        lemma_fib_monotonic(48, n);
    }
}

/// Computes the `n`-th Fibonacci number by naive double recursion.
pub fn fibonacci(n: u32) -> (r: u32)
    requires
        n <= MAX_FIB_INDEX,
    ensures
        r == fib(n as nat),
    decreases n,
{
    if n <= 1 {
        return n;
    }
    proof {
        lemma_fib_fits(n as nat);
    }
    fibonacci(n - 1) + fibonacci(n - 2)
}

/// The work of one worker unit.
pub fn workload() -> (r: u32)
    ensures
        r == fib(WORKLOAD_INDEX as nat),
        r == WORKLOAD_RESULT,
{
    proof {
        lemma_fib_values();
    }
    fibonacci(WORKLOAD_INDEX)
}

} // verus!
