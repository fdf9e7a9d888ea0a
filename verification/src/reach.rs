//! Every starting value in `[1, 50]` reaches 1.
//!
//! No general termination argument for the Collatz sequence is known, so the
//! fact that the fifty starting values of interest all reach 1 -- within
//! `STEP_FUEL` transitions and without exceeding `VALUE_BOUND` -- is proved
//! by listing every value that occurs in one of their sequences.

use crate::{collatz_next, collatz_within, STEP_FUEL, VALUE_BOUND};
use vstd::prelude::*;

verus! {

/// Reaching 1 within `f1` transitions implies reaching it within any larger
/// budget `f2`, with the same bound on the values passed through.
pub proof fn lemma_within_mono(n: nat, f1: nat, f2: nat, bound: nat)
    requires
        collatz_within(n, f1, bound),
        f1 <= f2,
    ensures
        collatz_within(n, f2, bound),
    decreases f1,
{
    if n != 1 {
        lemma_within_mono(collatz_next(n), (f1 - 1) as nat, (f2 - 1) as nat, bound);
    }
}

/// Every starting value in `[1, 50]` reaches 1 within `STEP_FUEL` transitions,
/// and no value of its sequence exceeds `VALUE_BOUND`.
///
/// The proof asserts this for every value that occurs in one of the fifty
/// sequences, at exactly its distance to 1, in order of that distance: each
/// assertion then follows from an earlier one by a single transition. The
/// fifty starting values are lifted to the full budget afterwards.
pub proof fn lemma_small_starts_within()
    ensures
        forall|n: nat|
            1 <= n <= 50 ==> #[trigger] collatz_within(n, STEP_FUEL as nat, VALUE_BOUND as nat),
{
    assert(collatz_within(1, 0, VALUE_BOUND as nat));
    assert(collatz_within(2, 1, VALUE_BOUND as nat));
    assert(collatz_within(4, 2, VALUE_BOUND as nat));
    assert(collatz_within(8, 3, VALUE_BOUND as nat));
    assert(collatz_within(16, 4, VALUE_BOUND as nat));
    assert(collatz_within(5, 5, VALUE_BOUND as nat));
    assert(collatz_within(32, 5, VALUE_BOUND as nat));
    assert(collatz_within(10, 6, VALUE_BOUND as nat));
    assert(collatz_within(64, 6, VALUE_BOUND as nat));
    assert(collatz_within(3, 7, VALUE_BOUND as nat));
    assert(collatz_within(20, 7, VALUE_BOUND as nat));
    assert(collatz_within(21, 7, VALUE_BOUND as nat));
    assert(collatz_within(6, 8, VALUE_BOUND as nat));
    assert(collatz_within(40, 8, VALUE_BOUND as nat));
    assert(collatz_within(42, 8, VALUE_BOUND as nat));
    assert(collatz_within(12, 9, VALUE_BOUND as nat));
    assert(collatz_within(13, 9, VALUE_BOUND as nat));
    assert(collatz_within(80, 9, VALUE_BOUND as nat));
    assert(collatz_within(24, 10, VALUE_BOUND as nat));
    assert(collatz_within(26, 10, VALUE_BOUND as nat));
    assert(collatz_within(160, 10, VALUE_BOUND as nat));
    assert(collatz_within(48, 11, VALUE_BOUND as nat));
    assert(collatz_within(52, 11, VALUE_BOUND as nat));
    assert(collatz_within(53, 11, VALUE_BOUND as nat));
    assert(collatz_within(17, 12, VALUE_BOUND as nat));
    assert(collatz_within(106, 12, VALUE_BOUND as nat));
    assert(collatz_within(34, 13, VALUE_BOUND as nat));
    assert(collatz_within(35, 13, VALUE_BOUND as nat));
    assert(collatz_within(11, 14, VALUE_BOUND as nat));
    assert(collatz_within(68, 14, VALUE_BOUND as nat));
    assert(collatz_within(70, 14, VALUE_BOUND as nat));
    assert(collatz_within(22, 15, VALUE_BOUND as nat));
    assert(collatz_within(23, 15, VALUE_BOUND as nat));
    assert(collatz_within(136, 15, VALUE_BOUND as nat));
    assert(collatz_within(7, 16, VALUE_BOUND as nat));
    assert(collatz_within(44, 16, VALUE_BOUND as nat));
    assert(collatz_within(45, 16, VALUE_BOUND as nat));
    assert(collatz_within(46, 16, VALUE_BOUND as nat));
    assert(collatz_within(14, 17, VALUE_BOUND as nat));
    assert(collatz_within(15, 17, VALUE_BOUND as nat));
    assert(collatz_within(88, 17, VALUE_BOUND as nat));
    assert(collatz_within(92, 17, VALUE_BOUND as nat));
    assert(collatz_within(28, 18, VALUE_BOUND as nat));
    assert(collatz_within(29, 18, VALUE_BOUND as nat));
    assert(collatz_within(30, 18, VALUE_BOUND as nat));
    assert(collatz_within(184, 18, VALUE_BOUND as nat));
    assert(collatz_within(9, 19, VALUE_BOUND as nat));
    assert(collatz_within(56, 19, VALUE_BOUND as nat));
    assert(collatz_within(58, 19, VALUE_BOUND as nat));
    assert(collatz_within(61, 19, VALUE_BOUND as nat));
    assert(collatz_within(18, 20, VALUE_BOUND as nat));
    assert(collatz_within(19, 20, VALUE_BOUND as nat));
    assert(collatz_within(112, 20, VALUE_BOUND as nat));
    assert(collatz_within(122, 20, VALUE_BOUND as nat));
    assert(collatz_within(36, 21, VALUE_BOUND as nat));
    assert(collatz_within(37, 21, VALUE_BOUND as nat));
    assert(collatz_within(38, 21, VALUE_BOUND as nat));
    assert(collatz_within(244, 21, VALUE_BOUND as nat));
    assert(collatz_within(74, 22, VALUE_BOUND as nat));
    assert(collatz_within(76, 22, VALUE_BOUND as nat));
    assert(collatz_within(488, 22, VALUE_BOUND as nat));
    assert(collatz_within(25, 23, VALUE_BOUND as nat));
    assert(collatz_within(148, 23, VALUE_BOUND as nat));
    assert(collatz_within(152, 23, VALUE_BOUND as nat));
    assert(collatz_within(976, 23, VALUE_BOUND as nat));
    assert(collatz_within(49, 24, VALUE_BOUND as nat));
    assert(collatz_within(50, 24, VALUE_BOUND as nat));
    assert(collatz_within(304, 24, VALUE_BOUND as nat));
    assert(collatz_within(325, 24, VALUE_BOUND as nat));
    assert(collatz_within(98, 25, VALUE_BOUND as nat));
    assert(collatz_within(100, 25, VALUE_BOUND as nat));
    assert(collatz_within(101, 25, VALUE_BOUND as nat));
    assert(collatz_within(650, 25, VALUE_BOUND as nat));
    assert(collatz_within(33, 26, VALUE_BOUND as nat));
    assert(collatz_within(196, 26, VALUE_BOUND as nat));
    assert(collatz_within(202, 26, VALUE_BOUND as nat));
    assert(collatz_within(1300, 26, VALUE_BOUND as nat));
    assert(collatz_within(65, 27, VALUE_BOUND as nat));
    assert(collatz_within(67, 27, VALUE_BOUND as nat));
    assert(collatz_within(433, 27, VALUE_BOUND as nat));
    assert(collatz_within(130, 28, VALUE_BOUND as nat));
    assert(collatz_within(134, 28, VALUE_BOUND as nat));
    assert(collatz_within(866, 28, VALUE_BOUND as nat));
    assert(collatz_within(43, 29, VALUE_BOUND as nat));
    assert(collatz_within(268, 29, VALUE_BOUND as nat));
    assert(collatz_within(1732, 29, VALUE_BOUND as nat));
    assert(collatz_within(89, 30, VALUE_BOUND as nat));
    assert(collatz_within(577, 30, VALUE_BOUND as nat));
    assert(collatz_within(178, 31, VALUE_BOUND as nat));
    assert(collatz_within(1154, 31, VALUE_BOUND as nat));
    assert(collatz_within(59, 32, VALUE_BOUND as nat));
    assert(collatz_within(2308, 32, VALUE_BOUND as nat));
    assert(collatz_within(118, 33, VALUE_BOUND as nat));
    assert(collatz_within(4616, 33, VALUE_BOUND as nat));
    assert(collatz_within(39, 34, VALUE_BOUND as nat));
    assert(collatz_within(9232, 34, VALUE_BOUND as nat));
    assert(collatz_within(3077, 35, VALUE_BOUND as nat));
    assert(collatz_within(6154, 36, VALUE_BOUND as nat));
    assert(collatz_within(2051, 37, VALUE_BOUND as nat));
    assert(collatz_within(4102, 38, VALUE_BOUND as nat));
    assert(collatz_within(1367, 39, VALUE_BOUND as nat));
    assert(collatz_within(2734, 40, VALUE_BOUND as nat));
    assert(collatz_within(911, 41, VALUE_BOUND as nat));
    assert(collatz_within(1822, 42, VALUE_BOUND as nat));
    assert(collatz_within(3644, 43, VALUE_BOUND as nat));
    assert(collatz_within(7288, 44, VALUE_BOUND as nat));
    assert(collatz_within(2429, 45, VALUE_BOUND as nat));
    assert(collatz_within(4858, 46, VALUE_BOUND as nat));
    assert(collatz_within(1619, 47, VALUE_BOUND as nat));
    assert(collatz_within(3238, 48, VALUE_BOUND as nat));
    assert(collatz_within(1079, 49, VALUE_BOUND as nat));
    assert(collatz_within(2158, 50, VALUE_BOUND as nat));
    assert(collatz_within(719, 51, VALUE_BOUND as nat));
    assert(collatz_within(1438, 52, VALUE_BOUND as nat));
    assert(collatz_within(479, 53, VALUE_BOUND as nat));
    assert(collatz_within(958, 54, VALUE_BOUND as nat));
    assert(collatz_within(319, 55, VALUE_BOUND as nat));
    assert(collatz_within(638, 56, VALUE_BOUND as nat));
    assert(collatz_within(1276, 57, VALUE_BOUND as nat));
    assert(collatz_within(425, 58, VALUE_BOUND as nat));
    assert(collatz_within(850, 59, VALUE_BOUND as nat));
    assert(collatz_within(283, 60, VALUE_BOUND as nat));
    assert(collatz_within(566, 61, VALUE_BOUND as nat));
    assert(collatz_within(1132, 62, VALUE_BOUND as nat));
    assert(collatz_within(377, 63, VALUE_BOUND as nat));
    assert(collatz_within(754, 64, VALUE_BOUND as nat));
    assert(collatz_within(251, 65, VALUE_BOUND as nat));
    assert(collatz_within(502, 66, VALUE_BOUND as nat));
    assert(collatz_within(167, 67, VALUE_BOUND as nat));
    assert(collatz_within(334, 68, VALUE_BOUND as nat));
    assert(collatz_within(668, 69, VALUE_BOUND as nat));
    assert(collatz_within(1336, 70, VALUE_BOUND as nat));
    assert(collatz_within(445, 71, VALUE_BOUND as nat));
    assert(collatz_within(890, 72, VALUE_BOUND as nat));
    assert(collatz_within(1780, 73, VALUE_BOUND as nat));
    assert(collatz_within(593, 74, VALUE_BOUND as nat));
    assert(collatz_within(1186, 75, VALUE_BOUND as nat));
    assert(collatz_within(395, 76, VALUE_BOUND as nat));
    assert(collatz_within(790, 77, VALUE_BOUND as nat));
    assert(collatz_within(263, 78, VALUE_BOUND as nat));
    assert(collatz_within(526, 79, VALUE_BOUND as nat));
    assert(collatz_within(175, 80, VALUE_BOUND as nat));
    assert(collatz_within(350, 81, VALUE_BOUND as nat));
    assert(collatz_within(700, 82, VALUE_BOUND as nat));
    assert(collatz_within(233, 83, VALUE_BOUND as nat));
    assert(collatz_within(466, 84, VALUE_BOUND as nat));
    assert(collatz_within(155, 85, VALUE_BOUND as nat));
    assert(collatz_within(310, 86, VALUE_BOUND as nat));
    assert(collatz_within(103, 87, VALUE_BOUND as nat));
    assert(collatz_within(206, 88, VALUE_BOUND as nat));
    assert(collatz_within(412, 89, VALUE_BOUND as nat));
    assert(collatz_within(137, 90, VALUE_BOUND as nat));
    assert(collatz_within(274, 91, VALUE_BOUND as nat));
    assert(collatz_within(91, 92, VALUE_BOUND as nat));
    assert(collatz_within(182, 93, VALUE_BOUND as nat));
    assert(collatz_within(364, 94, VALUE_BOUND as nat));
    assert(collatz_within(121, 95, VALUE_BOUND as nat));
    assert(collatz_within(242, 96, VALUE_BOUND as nat));
    assert(collatz_within(484, 97, VALUE_BOUND as nat));
    assert(collatz_within(161, 98, VALUE_BOUND as nat));
    assert(collatz_within(322, 99, VALUE_BOUND as nat));
    assert(collatz_within(107, 100, VALUE_BOUND as nat));
    assert(collatz_within(214, 101, VALUE_BOUND as nat));
    assert(collatz_within(71, 102, VALUE_BOUND as nat));
    assert(collatz_within(142, 103, VALUE_BOUND as nat));
    assert(collatz_within(47, 104, VALUE_BOUND as nat));
    assert(collatz_within(94, 105, VALUE_BOUND as nat));
    assert(collatz_within(31, 106, VALUE_BOUND as nat));
    assert(collatz_within(62, 107, VALUE_BOUND as nat));
    assert(collatz_within(124, 108, VALUE_BOUND as nat));
    assert(collatz_within(41, 109, VALUE_BOUND as nat));
    assert(collatz_within(82, 110, VALUE_BOUND as nat));
    assert(collatz_within(27, 111, VALUE_BOUND as nat));

    lemma_within_mono(1, 0, STEP_FUEL as nat, VALUE_BOUND as nat);
    lemma_within_mono(2, 1, STEP_FUEL as nat, VALUE_BOUND as nat);
    lemma_within_mono(3, 7, STEP_FUEL as nat, VALUE_BOUND as nat);
    lemma_within_mono(4, 2, STEP_FUEL as nat, VALUE_BOUND as nat);
    lemma_within_mono(5, 5, STEP_FUEL as nat, VALUE_BOUND as nat);
    lemma_within_mono(6, 8, STEP_FUEL as nat, VALUE_BOUND as nat);
    lemma_within_mono(7, 16, STEP_FUEL as nat, VALUE_BOUND as nat);
    lemma_within_mono(8, 3, STEP_FUEL as nat, VALUE_BOUND as nat);
    lemma_within_mono(9, 19, STEP_FUEL as nat, VALUE_BOUND as nat);
    lemma_within_mono(10, 6, STEP_FUEL as nat, VALUE_BOUND as nat);
    lemma_within_mono(11, 14, STEP_FUEL as nat, VALUE_BOUND as nat);
    lemma_within_mono(12, 9, STEP_FUEL as nat, VALUE_BOUND as nat);
    lemma_within_mono(13, 9, STEP_FUEL as nat, VALUE_BOUND as nat);
    lemma_within_mono(14, 17, STEP_FUEL as nat, VALUE_BOUND as nat);
    lemma_within_mono(15, 17, STEP_FUEL as nat, VALUE_BOUND as nat);
    lemma_within_mono(16, 4, STEP_FUEL as nat, VALUE_BOUND as nat);
    lemma_within_mono(17, 12, STEP_FUEL as nat, VALUE_BOUND as nat);
    lemma_within_mono(18, 20, STEP_FUEL as nat, VALUE_BOUND as nat);
    lemma_within_mono(19, 20, STEP_FUEL as nat, VALUE_BOUND as nat);
    lemma_within_mono(20, 7, STEP_FUEL as nat, VALUE_BOUND as nat);
    lemma_within_mono(21, 7, STEP_FUEL as nat, VALUE_BOUND as nat);
    lemma_within_mono(22, 15, STEP_FUEL as nat, VALUE_BOUND as nat);
    lemma_within_mono(23, 15, STEP_FUEL as nat, VALUE_BOUND as nat);
    lemma_within_mono(24, 10, STEP_FUEL as nat, VALUE_BOUND as nat);
    lemma_within_mono(25, 23, STEP_FUEL as nat, VALUE_BOUND as nat);
    lemma_within_mono(26, 10, STEP_FUEL as nat, VALUE_BOUND as nat);
    lemma_within_mono(27, 111, STEP_FUEL as nat, VALUE_BOUND as nat);
    lemma_within_mono(28, 18, STEP_FUEL as nat, VALUE_BOUND as nat);
    lemma_within_mono(29, 18, STEP_FUEL as nat, VALUE_BOUND as nat);
    lemma_within_mono(30, 18, STEP_FUEL as nat, VALUE_BOUND as nat);
    lemma_within_mono(31, 106, STEP_FUEL as nat, VALUE_BOUND as nat);
    lemma_within_mono(32, 5, STEP_FUEL as nat, VALUE_BOUND as nat);
    lemma_within_mono(33, 26, STEP_FUEL as nat, VALUE_BOUND as nat);
    lemma_within_mono(34, 13, STEP_FUEL as nat, VALUE_BOUND as nat);
    lemma_within_mono(35, 13, STEP_FUEL as nat, VALUE_BOUND as nat);
    lemma_within_mono(36, 21, STEP_FUEL as nat, VALUE_BOUND as nat);
    lemma_within_mono(37, 21, STEP_FUEL as nat, VALUE_BOUND as nat);
    lemma_within_mono(38, 21, STEP_FUEL as nat, VALUE_BOUND as nat);
    lemma_within_mono(39, 34, STEP_FUEL as nat, VALUE_BOUND as nat);
    lemma_within_mono(40, 8, STEP_FUEL as nat, VALUE_BOUND as nat);
    lemma_within_mono(41, 109, STEP_FUEL as nat, VALUE_BOUND as nat);
    lemma_within_mono(42, 8, STEP_FUEL as nat, VALUE_BOUND as nat);
    lemma_within_mono(43, 29, STEP_FUEL as nat, VALUE_BOUND as nat);
    lemma_within_mono(44, 16, STEP_FUEL as nat, VALUE_BOUND as nat);
    lemma_within_mono(45, 16, STEP_FUEL as nat, VALUE_BOUND as nat);
    lemma_within_mono(46, 16, STEP_FUEL as nat, VALUE_BOUND as nat);
    lemma_within_mono(47, 104, STEP_FUEL as nat, VALUE_BOUND as nat);
    lemma_within_mono(48, 11, STEP_FUEL as nat, VALUE_BOUND as nat);
    lemma_within_mono(49, 24, STEP_FUEL as nat, VALUE_BOUND as nat);
    lemma_within_mono(50, 24, STEP_FUEL as nat, VALUE_BOUND as nat);
}

} // verus!
