use canary_examples::fib32;
use canary_examples::fib64;

fn reference(n: u64) -> u64 {
    let (mut a, mut b) = (0u128, 1u128);
    for _ in 0..n {
        let t = a + b;
        a = b;
        b = t;
    }
    b as u64
}

#[test]
fn fib64_first_values() {
    let expected = [1u64, 1, 2, 3, 5, 8, 13, 21, 34, 55, 89];
    for (n, want) in expected.iter().enumerate() {
        assert_eq!(fib64::fibonacci(n as u64), *want);
    }
}

#[test]
fn fib64_largest_input() {
    assert_eq!(fib64::fibonacci(92), 12200160415121876738);
    assert_eq!(fib64::fibonacci(91), 7540113804746346429);
}

#[test]
fn fib64_matches_reference_everywhere() {
    for n in 0..=92u64 {
        assert_eq!(fib64::fibonacci(n), reference(n));
    }
}

#[test]
fn fib32_known_values() {
    assert_eq!(fib32::fibonacci(0), 1);
    assert_eq!(fib32::fibonacci(1), 1);
    assert_eq!(fib32::fibonacci(5), 8);
    assert_eq!(fib32::fibonacci(20), 10946);
    assert_eq!(fib32::fibonacci(30), 1346269);
}

#[test]
fn fib32_agrees_with_fib64() {
    for n in 0..=30u32 {
        assert_eq!(fib32::fibonacci(n) as u64, fib64::fibonacci(n as u64));
    }
}

#[test]
fn fib_each_value_is_sum_of_previous_two() {
    for n in 0..=90u64 {
        assert_eq!(fib64::fibonacci(n + 2), fib64::fibonacci(n + 1) + fib64::fibonacci(n));
    }
}
