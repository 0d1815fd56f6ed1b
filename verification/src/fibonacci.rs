//! Fibonacci numbers, computed the slow way on purpose: the doubly recursive
//! evaluation is the CPU-bound work that the tour hands to worker threads.

use vstd::prelude::*;

verus! {

/// The largest index whose Fibonacci number still fits in a `u32`.
pub const MAX_INDEX: u32 = 47;

/// The Fibonacci sequence over the naturals: 0, 1, 1, 2, 3, 5, 8, ...
pub open spec fn fibonacci(n: nat) -> nat
    decreases n,
{
    if n <= 1 {
        n
    } else {
        fibonacci((n - 1) as nat) + fibonacci((n - 2) as nat)
    }
}

/// The sequence starts with 0 and 1, and from index 2 on every member is the
/// sum of the two members before it.
pub proof fn lemma_fibonacci_recurrence(n: nat)
    ensures
        n <= 1 ==> fibonacci(n) == n,
        n >= 2 ==> fibonacci(n) == fibonacci((n - 1) as nat) + fibonacci((n - 2) as nat),
{
}

/// The sequence never decreases from one index to the next.
pub proof fn lemma_fibonacci_step(n: nat)
    ensures
        fibonacci(n) <= fibonacci(n + 1),
{
    if n >= 1 {
        assert(fibonacci(n + 1) == fibonacci(n) + fibonacci((n - 1) as nat));
    }
}

/// The sequence is monotone: a larger index never gives a smaller number.
pub proof fn lemma_fibonacci_monotone(i: nat, j: nat)
    requires
        i <= j,
    ensures
        fibonacci(i) <= fibonacci(j),
    decreases j,
{
    if i < j {
        let k: nat = (j - 1) as nat;
        lemma_fibonacci_monotone(i, k);
        lemma_fibonacci_step(k);
    }
}

/// Landmarks of the sequence: the value asked for most often, the three
/// indices the tour uses as filler work, and the two values on either side of
/// the `u32` range.
pub proof fn lemma_fibonacci_landmarks()
    ensures
        fibonacci(10) == 55,
        fibonacci(39) == 63245986,
        fibonacci(40) == 102334155,
        fibonacci(43) == 433494437,
        fibonacci(47) == 2971215073,
        fibonacci(48) == 4807526976,
{
    assert(fibonacci(9) == 34 && fibonacci(10) == 55) by {
        reveal_with_fuel(fibonacci, 11);
    }
    assert(fibonacci(19) == 4181 && fibonacci(20) == 6765) by {
        reveal_with_fuel(fibonacci, 11);
    }
    assert(fibonacci(29) == 514229 && fibonacci(30) == 832040) by {
        reveal_with_fuel(fibonacci, 11);
    }
    assert(fibonacci(39) == 63245986 && fibonacci(40) == 102334155) by {
        reveal_with_fuel(fibonacci, 11);
    }
    assert(fibonacci(43) == 433494437 && fibonacci(47) == 2971215073 && fibonacci(48)
        == 4807526976) by {
        reveal_with_fuel(fibonacci, 9);
    }
}

/// A Fibonacci number fits in a `u32` exactly when its index is at most
/// `MAX_INDEX`.
pub proof fn lemma_fibonacci_fits_u32(n: nat)
    ensures
        fibonacci(n) <= u32::MAX <==> n <= MAX_INDEX,
{
    lemma_fibonacci_landmarks();
    if n <= 47 {
        lemma_fibonacci_monotone(n, 47);
    } else {
        lemma_fibonacci_monotone(48, n);
    }
}

/// The `n`-th Fibonacci number, by the doubly recursive definition with no
/// memoisation: the running time is exponential in `n`.
pub fn fib(n: u32) -> (value: u32)
    requires
        n <= MAX_INDEX,
    ensures
        value == fibonacci(n as nat),
        n <= 1 ==> value == n,
        n >= 2 ==> value == fibonacci((n - 1) as nat) + fibonacci((n - 2) as nat),
    decreases n,
{
    match n {
        0 => 0,
        1 => 1,
        _ => {
            proof {
                lemma_fibonacci_fits_u32(n as nat);
            }
            fib(n - 1) + fib(n - 2)
        },
    }
}

/// The `n`-th Fibonacci number where a `u32` can hold it, and `None` where
/// it cannot. Runs as long as `fib` does.
pub fn checked_fib(n: u32) -> (value: Option<u32>)
    ensures
        n <= MAX_INDEX ==> value == Some(fibonacci(n as nat) as u32),
        n > MAX_INDEX ==> value.is_none(),
        value.is_some() <==> fibonacci(n as nat) <= u32::MAX,
{
    proof {
        lemma_fibonacci_fits_u32(n as nat);
    }
    if n <= MAX_INDEX {
        Some(fib(n))
    } else {
        None
    }
}

} // verus!
