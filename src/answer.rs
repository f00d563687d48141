use vstd::prelude::*;
use crate::models::Card;
use crate::timestamp::Timestamp;

verus! {

/// Largest distance, in millimeters, between a guess and the true location
/// that still counts as a correct answer (250 m).
pub const CORRECT_THRESHOLD_MM: u64 = 250_000;

/// A guess `distance_mm` millimeters away from the true location is correct.
pub open spec fn is_correct_spec(distance_mm: u64) -> bool {
    distance_mm <= CORRECT_THRESHOLD_MM
}

/// Whether a guess `distance_mm` millimeters away from the true location is correct.
pub fn is_correct(distance_mm: u64) -> (r: bool)
    ensures
        r == is_correct_spec(distance_mm),
{
    distance_mm <= CORRECT_THRESHOLD_MM
}

/// Grades a guess `distance_mm` millimeters away from the card's location
/// at `now`: returns whether it was correct, and the card after a passed
/// review if so, after a failed one if not.
pub fn check_answer(card: &Card, distance_mm: u64, now: Timestamp) -> (r: (bool, Card))
    requires
        card.well_formed(),
        now.schedulable(),
    ensures
        r.0 == is_correct_spec(distance_mm),
        r.1 == if r.0 { card.after_pass(now) } else { card.after_fail(now) },
        r.1.well_formed(),
{
    if is_correct(distance_mm) {
        (true, card.review_passed(now))
    } else {
        (false, card.review_failed(now))
    }
}

} // verus!
