use fib_engine::engine::{add, fibonacci, MAX_EXACT_INDEX};

/// The Fibonacci numbers up to `last`, over integers wide enough to hold
/// every exact term asked for here.
fn exact_terms(last: usize) -> Vec<u128> {
    let mut terms: Vec<u128> = vec![0, 1];
    while terms.len() <= last {
        let n = terms.len();
        terms.push(terms[n - 1] + terms[n - 2]);
    }
    terms
}

#[test]
fn add_small_numbers() {
    assert_eq!(add(2, 3), 5);
    assert_eq!(add(0, 0), 0);
    assert_eq!(add(40, 2), 42);
}

#[test]
fn add_is_commutative() {
    let samples: [u64; 6] = [0, 1, 7, 1 << 63, u64::MAX - 1, u64::MAX];
    for a in samples {
        for b in samples {
            assert_eq!(add(a, b), add(b, a));
        }
    }
}

#[test]
fn add_zero_is_identity() {
    for a in [0u64, 1, 55, 1 << 32, u64::MAX] {
        assert_eq!(add(a, 0), a);
        assert_eq!(add(0, a), a);
    }
}

#[test]
fn add_reaches_largest_value_without_wrapping() {
    assert_eq!(add(u64::MAX - 1, 1), u64::MAX);
    assert_eq!(add(1 << 63, (1 << 63) - 1), u64::MAX);
}

#[test]
fn add_wraps_around_on_overflow() {
    assert_eq!(add(u64::MAX, 1), 0);
    assert_eq!(add(u64::MAX, 2), 1);
    assert_eq!(add(1 << 63, 1 << 63), 0);
    assert_eq!(add(u64::MAX, u64::MAX), u64::MAX - 1);
}

#[test]
fn fibonacci_starts_with_zero_and_one() {
    assert_eq!(fibonacci(0), 0);
    assert_eq!(fibonacci(1), 1);
}

#[test]
fn fibonacci_small_indices() {
    assert_eq!(fibonacci(2), 1);
    assert_eq!(fibonacci(3), 2);
    assert_eq!(fibonacci(4), 3);
    assert_eq!(fibonacci(5), 5);
    assert_eq!(fibonacci(10), 55);
    assert_eq!(fibonacci(20), 6765);
    assert_eq!(fibonacci(50), 12586269025);
}

#[test]
fn fibonacci_follows_the_recurrence_while_exact() {
    for n in 2..=MAX_EXACT_INDEX {
        let sum = u128::from(fibonacci(n - 1)) + u128::from(fibonacci(n - 2));
        assert_eq!(u128::from(fibonacci(n)), sum);
    }
}

#[test]
fn fibonacci_never_decreases_while_exact() {
    for n in 1..=MAX_EXACT_INDEX {
        assert!(fibonacci(n - 1) <= fibonacci(n));
    }
}

#[test]
fn fibonacci_last_exact_index() {
    assert_eq!(MAX_EXACT_INDEX, 93);
    assert_eq!(fibonacci(92), 7540113804746346429);
    assert_eq!(fibonacci(93), 12200160415121876738);
}

#[test]
fn fibonacci_wraps_past_the_last_exact_index() {
    assert_eq!(fibonacci(94), 1293530146158671551);
    assert_eq!(fibonacci(95), 13493690561280548289);
    let true_value: u128 = 19740274219868223167;
    assert!(true_value > u128::from(u64::MAX));
    assert_eq!(u128::from(fibonacci(94)), true_value - (1u128 << 64));
}

#[test]
fn fibonacci_boundary_is_consistent_in_both_directions() {
    let before = fibonacci(MAX_EXACT_INDEX);
    let after = fibonacci(MAX_EXACT_INDEX + 1);
    let earlier = fibonacci(MAX_EXACT_INDEX - 1);
    assert_eq!(after, add(before, earlier));
    assert_eq!(after, before.wrapping_add(earlier));
    assert_eq!(before, after.wrapping_sub(earlier));
    assert!(before.checked_add(earlier).is_none());
    assert!(fibonacci(MAX_EXACT_INDEX - 2).checked_add(earlier).is_some());
}

#[test]
fn fibonacci_is_the_true_value_modulo_two_to_the_64() {
    let terms = exact_terms(186);
    for n in 0..=186u32 {
        let reduced = terms[n as usize] % (1u128 << 64);
        assert_eq!(u128::from(fibonacci(n)), reduced);
        if n <= MAX_EXACT_INDEX {
            assert_eq!(u128::from(fibonacci(n)), terms[n as usize]);
        } else {
            assert!(terms[n as usize] > u128::from(u64::MAX));
        }
    }
}

#[test]
fn fibonacci_wrapped_recurrence_at_large_indices() {
    for n in [94u32, 95, 100, 1_000, 65_536, 1_000_000] {
        assert_eq!(fibonacci(n), add(fibonacci(n - 1), fibonacci(n - 2)));
    }
}
