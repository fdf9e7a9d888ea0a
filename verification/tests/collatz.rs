use collatz_sum::{collatz_sequence_sum, count_steps, total_steps};

#[test]
fn one_needs_no_steps() {
    assert_eq!(count_steps(1), 0);
}

#[test]
fn two_halves_once() {
    assert_eq!(count_steps(2), 1);
}

#[test]
fn three_takes_seven_steps() {
    // 3 -> 10 -> 5 -> 16 -> 8 -> 4 -> 2 -> 1
    assert_eq!(count_steps(3), 7);
}

#[test]
fn six_takes_eight_steps() {
    assert_eq!(count_steps(6), 8);
}

#[test]
fn twenty_seven_takes_long() {
    assert_eq!(count_steps(27), 111);
}

#[test]
fn powers_of_two_halve_down() {
    assert_eq!(count_steps(4), 2);
    assert_eq!(count_steps(8), 3);
    assert_eq!(count_steps(16), 4);
    assert_eq!(count_steps(32), 5);
}

#[test]
fn range_ends() {
    assert_eq!(count_steps(50), 24);
}

#[test]
fn count_steps_is_idempotent() {
    for n in 1..=50u32 {
        assert_eq!(count_steps(n), count_steps(n));
    }
}

#[test]
fn total_steps_is_deterministic() {
    let first = total_steps();
    let second = total_steps();
    let third = total_steps();
    assert_eq!(first, second);
    assert_eq!(second, third);
}

#[test]
fn total_is_the_sum_of_the_fifty_counts() {
    let mut sum: u32 = 0;
    for n in 1..=50u32 {
        sum += count_steps(n);
    }
    assert_eq!(total_steps(), sum);
}

#[test]
fn total_over_one_to_fifty() {
    assert_eq!(total_steps(), 1066);
}

#[test]
fn signed_total_matches() {
    assert_eq!(collatz_sequence_sum(), 1066);
    assert_eq!(collatz_sequence_sum(), total_steps() as i32);
}
