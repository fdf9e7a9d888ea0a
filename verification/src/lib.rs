//! Collatz step counts over the starting values 1 through 50.
//!
//! For a positive integer `n`, the Collatz sequence repeatedly halves an even
//! value and maps an odd value to `3n + 1` until the value reaches 1. This
//! crate counts the transitions for each starting value in `[1, 50]` and sums
//! the fifty counts.
//!
//! Since no general termination argument for the Collatz sequence is known,
//! the specification is phrased with an explicit step budget (`STEP_FUEL`):
//! a proof that walks all fifty sequences (`reach::lemma_small_starts_within`)
//! shows that every starting value in `[1, 50]` reaches 1 within that budget
//! while staying within `VALUE_BOUND`, which also rules out arithmetic
//! overflow.

use vstd::prelude::*;

pub mod reach;

verus! {

/// Enough transitions for any starting value in `[1, 50]` to reach 1
/// (the longest sequence, from 27, takes 111).
pub const STEP_FUEL: u32 = 130;

/// An upper bound on every value of every Collatz sequence started in
/// `[1, 50]` (the peak, 9232, occurs in the sequence of 27).
pub const VALUE_BOUND: u32 = 9232;

/// One Collatz transition: halve an even value, send an odd value to 3n + 1.
pub open spec fn collatz_next(n: nat) -> nat {
    if n % 2 == 0 {
        n / 2
    } else {
        3 * n + 1
    }
}

/// The sequence started at `n` reaches 1 in at most `fuel` transitions,
/// and every value along the way (including `n`) is at most `bound`.
pub open spec fn collatz_within(n: nat, fuel: nat, bound: nat) -> bool
    decreases fuel,
{
    n <= bound && (n == 1 || (fuel > 0 && collatz_within(collatz_next(n), (fuel - 1) as nat, bound)))
}

/// The number of transitions taken from `n` to reach 1, counted over at most
/// `fuel` transitions. When `collatz_within(n, fuel, bound)` holds for some
/// bound, this is exactly the step count of `n`.
pub open spec fn collatz_steps(n: nat, fuel: nat) -> nat
    decreases fuel,
{
    if n == 1 {
        0
    } else if fuel == 0 {
        0
    } else {
        collatz_steps(collatz_next(n), (fuel - 1) as nat) + 1
    }
}

/// The sum of the step counts of the starting values `i` through 50.
pub open spec fn sum_steps(i: int) -> int
    decreases 51 - i,
{
    if 1 <= i <= 50 {
        collatz_steps(i as nat, STEP_FUEL as nat) + sum_steps(i + 1)
    } else {
        0
    }
}

/// Counts the Collatz transitions needed to bring `start` down to 1.
///
/// Returns 0 for `start == 1`; otherwise repeats the transition until the
/// value reaches 1, counting one step per transition.
pub fn count_steps(start: u32) -> (steps: u32)
    requires
        1 <= start <= 50,
    ensures
        steps as nat == collatz_steps(start as nat, STEP_FUEL as nat),
        collatz_within(start as nat, STEP_FUEL as nat, VALUE_BOUND as nat),
        steps <= STEP_FUEL,
        start == 1 ==> steps == 0,
{
    proof {
        crate::reach::lemma_small_starts_within();
    }
    let mut n: u32 = start;
    let mut steps: u32 = 0;
    while n != 1
        invariant
            steps <= STEP_FUEL,
            collatz_within(n as nat, (STEP_FUEL - steps) as nat, VALUE_BOUND as nat),
            collatz_steps(start as nat, STEP_FUEL as nat) == steps + collatz_steps(
                n as nat,
                (STEP_FUEL - steps) as nat,
            ),
            collatz_within(start as nat, STEP_FUEL as nat, VALUE_BOUND as nat),
        decreases STEP_FUEL - steps,
    {
        proof {
            assert(n as nat <= VALUE_BOUND);
            assert(steps < STEP_FUEL);
            assert(collatz_within(
                collatz_next(n as nat),
                (STEP_FUEL - steps - 1) as nat,
                VALUE_BOUND as nat,
            ));
            assert(collatz_steps(n as nat, (STEP_FUEL - steps) as nat) == collatz_steps(
                collatz_next(n as nat),
                (STEP_FUEL - steps - 1) as nat,
            ) + 1);
        }
        let ghost prev: nat = n as nat;
        if n % 2 == 0 {
            n = n / 2;
        } else {
            n = 3 * n + 1;
        }
        steps = steps + 1;
        proof {
            assert(n as nat == collatz_next(prev));
        }
    }
    steps
}

/// Sums the Collatz step counts of the starting values 1 through 50, in
/// ascending order.
pub fn total_steps() -> (total: u32)
    ensures
        total as int == sum_steps(1),
        total <= 50 * STEP_FUEL,
{
    let mut total: u32 = 0;
    let mut i: u32 = 1;
    while i <= 50
        invariant
            1 <= i <= 51,
            total as int + sum_steps(i as int) == sum_steps(1),
            total <= (i - 1) * STEP_FUEL,
        decreases 51 - i,
    {
        let c = count_steps(i);
        proof {
            assert(sum_steps(i as int) == collatz_steps(i as nat, STEP_FUEL as nat) + sum_steps(
                i as int + 1,
            ));
        }
        total = total + c;
        i = i + 1;
    }
    total
}

/// The sum of the fifty step counts, as a signed 32-bit integer.
pub fn collatz_sequence_sum() -> (total: i32)
    ensures
        total as int == sum_steps(1),
{
    let total = total_steps();
    total as i32
}

/// Counting the steps of the same starting value twice yields the same
/// result: any two values that satisfy the contract of `count_steps` for one
/// `start` are equal.
pub proof fn lemma_count_steps_deterministic(start: u32, r1: u32, r2: u32)
    requires
        r1 as nat == collatz_steps(start as nat, STEP_FUEL as nat),
        r2 as nat == collatz_steps(start as nat, STEP_FUEL as nat),
    ensures
        r1 == r2,
{
}

/// The total over the range is a fixed value: any two values that satisfy
/// the contract of `total_steps` (or of `collatz_sequence_sum`) are equal.
pub proof fn lemma_total_steps_deterministic(r1: u32, r2: u32)
    requires
        r1 as int == sum_steps(1),
        r2 as int == sum_steps(1),
    ensures
        r1 == r2,
{
}

} // verus!
