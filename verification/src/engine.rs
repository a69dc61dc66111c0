//! The numeric engine: stateless, pure functions on fixed-width integers.
//!
//! Overflow policy: every result is reduced modulo 2^64. Fibonacci values
//! are exact up to index [`MAX_EXACT_INDEX`] and wrap around beyond it.

use vstd::prelude::*;
use vstd::arithmetic::div_mod::{lemma_add_mod_noop, lemma_small_mod};

verus! {

/// The largest index whose Fibonacci value fits in 64 bits.
pub const MAX_EXACT_INDEX: u32 = 93;

/// One more than the largest `u64`: the modulus of all arithmetic here.
pub open spec fn modulus() -> nat {
    0x1_0000_0000_0000_0000
}

/// The sum of `a` and `b` reduced modulo 2^64.
pub open spec fn wrapped_sum(a: u64, b: u64) -> u64 {
    ((a + b) % (modulus() as int)) as u64
}

/// The Fibonacci sequence over the naturals: 0, 1, and from then on each
/// term the sum of the two before it.
pub open spec fn fibonacci_value(n: nat) -> nat
    decreases n,
{
    if n < 2 {
        n
    } else {
        fibonacci_value((n - 1) as nat) + fibonacci_value((n - 2) as nat)
    }
}

/// The Fibonacci value at `n` reduced modulo 2^64.
pub open spec fn wrapped_fibonacci(n: nat) -> u64 {
    (fibonacci_value(n) % modulus()) as u64
}

/// Adds `a` and `b`. A sum that does not fit in 64 bits wraps around.
pub fn add(a: u64, b: u64) -> (sum: u64)
    ensures
        sum == wrapped_sum(a, b),
        a + b <= u64::MAX ==> sum == a + b,
        a + b > u64::MAX ==> sum == a + b - modulus(),
{
    a.wrapping_add(b)
}

/// Computes the Fibonacci value at index `n` in constant space and a
/// number of steps linear in `n`. The value is exact for `n` up to
/// [`MAX_EXACT_INDEX`]; beyond that it is the true value modulo 2^64.
pub fn fibonacci(n: u32) -> (value: u64)
    ensures
        value == wrapped_fibonacci(n as nat),
        n <= MAX_EXACT_INDEX ==> value == fibonacci_value(n as nat),
{
    let mut current: u64 = 0;
    let mut following: u64 = 1;
    let mut index: u32 = 0;
    while index < n
        invariant
            index <= n,
            current == wrapped_fibonacci(index as nat),
            following == wrapped_fibonacci(index as nat + 1),
        decreases n - index,
    {
        proof {
            lemma_fibonacci_wraps_stepwise(index as nat + 2);
        }
        let sum = self::add(following, current);
        current = following;
        following = sum;
        index = index + 1;
    }
    proof {
        if n <= MAX_EXACT_INDEX {
            lemma_fibonacci_exact(n);
        }
    }
    current
}

/// Addition is commutative, whether or not the sum wraps.
pub proof fn lemma_add_commutative(a: u64, b: u64)
    ensures
        wrapped_sum(a, b) == wrapped_sum(b, a),
{
}

/// Zero is the identity of addition, on either side.
pub proof fn lemma_add_zero(a: u64)
    ensures
        wrapped_sum(a, 0) == a,
        wrapped_sum(0, a) == a,
{
}

/// The sequence starts with 0 and 1.
pub proof fn lemma_fibonacci_base()
    ensures
        wrapped_fibonacci(0) == 0,
        wrapped_fibonacci(1) == 1,
{
}

/// From index 2 up to the last exact index, each computed value is the
/// plain sum of the two computed values before it.
pub proof fn lemma_fibonacci_recurrence(n: u32)
    requires
        2 <= n <= MAX_EXACT_INDEX,
    ensures
        wrapped_fibonacci(n as nat) == wrapped_fibonacci((n - 1) as nat) + wrapped_fibonacci(
            (n - 2) as nat,
        ),
{
    lemma_fibonacci_exact(n);
    lemma_fibonacci_exact((n - 1) as u32);
    lemma_fibonacci_exact((n - 2) as u32);
}

/// From index 2 on, with no upper limit, each computed value is the wrapped
/// sum of the two computed values before it.
pub proof fn lemma_fibonacci_wraps_stepwise(n: nat)
    requires
        2 <= n,
    ensures
        wrapped_fibonacci(n) == wrapped_sum(
            wrapped_fibonacci((n - 1) as nat),
            wrapped_fibonacci((n - 2) as nat),
        ),
{
    lemma_add_mod_noop(
        fibonacci_value((n - 1) as nat) as int,
        fibonacci_value((n - 2) as nat) as int,
        modulus() as int,
    );
}

/// A Fibonacci value fits in 64 bits exactly when its index is at most
/// [`MAX_EXACT_INDEX`].
pub proof fn lemma_exact_range(n: nat)
    ensures
        fibonacci_value(n) <= u64::MAX <==> n <= MAX_EXACT_INDEX,
{
    lemma_landmarks();
    if n <= MAX_EXACT_INDEX {
        lemma_fibonacci_nondecreasing(n, MAX_EXACT_INDEX as nat);
    } else {
        lemma_fibonacci_nondecreasing(MAX_EXACT_INDEX as nat + 1, n);
    }
}

/// Up to the last exact index the computed value is the true one.
pub proof fn lemma_fibonacci_exact(n: u32)
    requires
        n <= MAX_EXACT_INDEX,
    ensures
        wrapped_fibonacci(n as nat) == fibonacci_value(n as nat),
{
    lemma_exact_range(n as nat);
    lemma_small_mod(fibonacci_value(n as nat), modulus());
}

/// The sequence never decreases.
pub proof fn lemma_fibonacci_nondecreasing(low: nat, high: nat)
    requires
        low <= high,
    ensures
        fibonacci_value(low) <= fibonacci_value(high),
    decreases high,
{
    if low < high {
        lemma_fibonacci_nondecreasing(low, (high - 1) as nat);
    }
}

/// Ten steps along the sequence at once: the terms at `n + 10` and
/// `n + 11` from the terms at `n` and `n + 1`.
proof fn lemma_ten_steps(n: nat)
    ensures
        fibonacci_value(n + 10) == 34 * fibonacci_value(n) + 55 * fibonacci_value(n + 1),
        fibonacci_value(n + 11) == 55 * fibonacci_value(n) + 89 * fibonacci_value(n + 1),
{
    let a = fibonacci_value(n);
    let b = fibonacci_value(n + 1);
    assert(fibonacci_value(n + 2) == a + b);
    assert(fibonacci_value(n + 3) == a + 2 * b);
    assert(fibonacci_value(n + 4) == 2 * a + 3 * b);
    assert(fibonacci_value(n + 5) == 3 * a + 5 * b);
    assert(fibonacci_value(n + 6) == 5 * a + 8 * b);
    assert(fibonacci_value(n + 7) == 8 * a + 13 * b);
    assert(fibonacci_value(n + 8) == 13 * a + 21 * b);
    assert(fibonacci_value(n + 9) == 21 * a + 34 * b);
    assert(fibonacci_value(n + 10) == 34 * a + 55 * b);
}

/// The last term that fits in 64 bits and the first that does not.
proof fn lemma_landmarks()
    ensures
        fibonacci_value(93) == 12200160415121876738,
        fibonacci_value(94) == 19740274219868223167,
{
    assert(fibonacci_value(0) == 0 && fibonacci_value(1) == 1);
    lemma_ten_steps(0);
    lemma_ten_steps(10);
    lemma_ten_steps(20);
    lemma_ten_steps(30);
    lemma_ten_steps(40);
    lemma_ten_steps(50);
    lemma_ten_steps(60);
    lemma_ten_steps(70);
    lemma_ten_steps(80);
    assert(fibonacci_value(90) == 2880067194370816120);
    assert(fibonacci_value(91) == 4660046610375530309);
    assert(fibonacci_value(92) == 7540113804746346429);
    assert(fibonacci_value(93) == 12200160415121876738);
}

} // verus!
