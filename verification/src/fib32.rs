use vstd::prelude::*;
use crate::fib_spec::{fib, lemma_fib_limits, lemma_fib_monotonic};

verus! {

/// The recursive, 32-bit form of the cluster's Fibonacci function:
/// `fibonacci(0) == fibonacci(1) == 1`, and every later value is the sum
/// of the two before it. This is the `n + 1`-th Fibonacci number.
///
/// Past `n == 46` the result no longer fits in a `u32`.
pub fn fibonacci(n: u32) -> (result: u32)
    requires
        n <= 46,
    ensures
        result == fib((n + 1) as nat),
    decreases n,
{
    match n {
        0 => {
            assert(fib(1) == 1);
            1
        },
        1 => {
            assert(fib(2) == fib(0) + fib(1));
            1
        },
        _ => {
            let x = fibonacci(n - 1);
            let y = fibonacci(n - 2);
            proof {
                lemma_fib_limits();
                lemma_fib_monotonic((n + 1) as nat, 47);
                assert(fib((n + 1) as nat) == fib((n - 1) as nat) + fib(n as nat));
            }
            x + y
        },
    }
}

} // verus!
