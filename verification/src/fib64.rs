use vstd::prelude::*;
use crate::fib_spec::{fib, lemma_fib_limits, lemma_fib_monotonic, lemma_fib_step};

verus! {

/// Computes the `number + 1`-th Fibonacci number (so `fibonacci(0) == 1`)
/// by walking the sequence `number` steps from `(0, 1)`.
///
/// Past `number == 92` the result no longer fits in a `u64`.
pub fn fibonacci(number: u64) -> (result: u64)
    requires
        number <= 92,
    ensures
        result == fib((number + 1) as nat),
{
    let mut a: u64 = 0;
    let mut b: u64 = 1;
    for i in 0..number
        invariant
            number <= 92,
            a == fib(i as nat),
            b == fib((i + 1) as nat),
    {
        let tmp = a;
        a = b;
        proof {
            lemma_fib_limits();
            lemma_fib_monotonic((i + 2) as nat, 93);
            lemma_fib_step(i as nat);
        }
        b = a + tmp;
    }
    b
}

} // verus!
