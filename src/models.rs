use vstd::prelude::*;
use crate::timestamp::{Timestamp, SECS_PER_DAY, SECS_PER_MINUTE};

verus! {

/// Lowest ease factor, in thousandths (1.3).
pub const MIN_EASE_MILLI: u32 = 1300;

/// Highest ease factor, in thousandths (2.5).
pub const MAX_EASE_MILLI: u32 = 2500;

/// Ease factor of a new card, in thousandths (2.5).
pub const INITIAL_EASE_MILLI: u32 = 2500;

/// Multiplier applied on top of the ease factor when a review passes, in thousandths (1.0).
pub const INTERVAL_MODIFIER_MILLI: u32 = 1000;

/// Share of the interval kept when a review fails, in thousandths (0.5).
pub const RELEARN_FACTOR_MILLI: u32 = 500;

/// Ease lost on a failed review, in thousandths (0.2).
pub const EASE_PENALTY_MILLI: u32 = 200;

/// Ease gained on a passed review, in thousandths (0.1).
pub const EASE_BONUS_MILLI: u32 = 100;

/// Longest interval between two reviews, in days.
pub const MAX_INTERVAL_DAYS: i32 = 365;

/// Minutes until a failed card comes up again.
pub const RELEARN_DELAY_MINUTES: i64 = 5;

/// `n / d` rounded to the nearest integer, halves away from zero (for `n >= 0`, `d > 0`).
pub open spec fn round_div(n: int, d: int) -> int {
    (2 * n + d) / (2 * d)
}

pub open spec fn min_int(a: int, b: int) -> int {
    if a <= b { a } else { b }
}

pub open spec fn max_int(a: int, b: int) -> int {
    if a >= b { a } else { b }
}

/// Ease factor after a failed review: lowered by the penalty, never below the minimum.
pub open spec fn failed_ease(ease_milli: int) -> int {
    max_int(ease_milli - EASE_PENALTY_MILLI, MIN_EASE_MILLI as int)
}

/// Ease factor after a passed review: raised by the bonus, never above the maximum.
pub open spec fn passed_ease(ease_milli: int) -> int {
    min_int(ease_milli + EASE_BONUS_MILLI, MAX_EASE_MILLI as int)
}

/// Interval after a failed review: `round(interval * 0.5)`.
pub open spec fn failed_interval(interval: int) -> int {
    round_div(interval * RELEARN_FACTOR_MILLI, 1000)
}

/// Interval after a passed review:
/// `min(max(round(interval * ease * modifier), interval + 1), 365)`.
pub open spec fn passed_interval(interval: int, ease_milli: int) -> int {
    min_int(
        max_int(
            round_div(interval * ease_milli * INTERVAL_MODIFIER_MILLI, 1_000_000),
            interval + 1,
        ),
        MAX_INTERVAL_DAYS as int,
    )
}

/// A card to be stored: everything but the identifier, which the store assigns.
#[derive(Clone, Debug)]
pub struct NewCard {
    pub place_name: String,
    /// Latitude in units of 10^-7 degree.
    pub latitude_e7: i32,
    /// Longitude in units of 10^-7 degree.
    pub longitude_e7: i32,
    pub created_at: Timestamp,
    pub last_reviewed_at: Option<Timestamp>,
    pub next_review_at: Timestamp,
    /// Ease factor in thousandths.
    pub ease_milli: u32,
    /// Days between the last review and the next one.
    pub interval: i32,
}

impl NewCard {
    /// A fresh card for a place, created at `now` and due at once.
    pub fn new(place_name: String, latitude_e7: i32, longitude_e7: i32, now: Timestamp) -> (r: NewCard)
        ensures
            r.place_name == place_name,
            r.latitude_e7 == latitude_e7,
            r.longitude_e7 == longitude_e7,
            r.created_at == now,
            r.last_reviewed_at is None,
            r.next_review_at == now,
            r.ease_milli == INITIAL_EASE_MILLI,
            r.interval == 0,
    {
        NewCard {
            place_name,
            latitude_e7,
            longitude_e7,
            created_at: now,
            last_reviewed_at: None,
            next_review_at: now,
            ease_milli: INITIAL_EASE_MILLI,
            interval: 0,
        }
    }
}

/// A stored learning card: a place to locate and its review schedule.
#[derive(Clone, Debug)]
pub struct Card {
    pub id: i32,
    pub place_name: String,
    /// Latitude in units of 10^-7 degree.
    pub latitude_e7: i32,
    /// Longitude in units of 10^-7 degree.
    pub longitude_e7: i32,
    pub created_at: Timestamp,
    pub last_reviewed_at: Option<Timestamp>,
    pub next_review_at: Timestamp,
    /// Ease factor in thousandths.
    pub ease_milli: u32,
    /// Days between the last review and the next one.
    pub interval: i32,
}

/// The three ways a card can be reviewed.
#[derive(Clone, Copy, Debug, PartialEq, Eq, Structural)]
pub enum ReviewKind {
    Passed,
    Failed,
    Crammed,
}

impl Card {
    /// Ease factor and interval lie within their bounds.
    pub open spec fn well_formed(self) -> bool {
        MIN_EASE_MILLI <= self.ease_milli <= MAX_EASE_MILLI
            && 0 <= self.interval <= MAX_INTERVAL_DAYS
    }

    /// The card after a failed review at `now`.
    pub open spec fn after_fail(self, now: Timestamp) -> Card {
        Card {
            last_reviewed_at: Some(now),
            ease_milli: failed_ease(self.ease_milli as int) as u32,
            interval: failed_interval(self.interval as int) as i32,
            next_review_at: now.plus_spec(RELEARN_DELAY_MINUTES * SECS_PER_MINUTE),
            ..self
        }
    }

    /// The card after a passed review at `now`.
    pub open spec fn after_pass(self, now: Timestamp) -> Card {
        let interval = passed_interval(self.interval as int, self.ease_milli as int);
        Card {
            last_reviewed_at: Some(now),
            ease_milli: passed_ease(self.ease_milli as int) as u32,
            interval: interval as i32,
            next_review_at: now.plus_spec(interval * SECS_PER_DAY),
            ..self
        }
    }

    /// The card after an out-of-schedule review at `now`.
    pub open spec fn after_cram(self, now: Timestamp) -> Card {
        Card {
            last_reviewed_at: Some(now),
            next_review_at: now.plus_spec(self.interval * SECS_PER_DAY),
            ..self
        }
    }

    /// The card after a review of the given kind at `now`.
    pub open spec fn after_review(self, kind: ReviewKind, now: Timestamp) -> Card {
        match kind {
            ReviewKind::Passed => self.after_pass(now),
            ReviewKind::Failed => self.after_fail(now),
            ReviewKind::Crammed => self.after_cram(now),
        }
    }

    /// Whether ease factor and interval lie within their bounds.
    pub fn is_well_formed(&self) -> (r: bool)
        ensures
            r == self.well_formed(),
    {
        MIN_EASE_MILLI <= self.ease_milli && self.ease_milli <= MAX_EASE_MILLI && 0 <= self.interval
            && self.interval <= MAX_INTERVAL_DAYS
    }

    /// A fresh card for a place, created at `now` and due at once; the store
    /// replaces the identifier 0 when it saves the card.
    pub fn new(place_name: String, latitude_e7: i32, longitude_e7: i32, now: Timestamp) -> (r: Card)
        ensures
            r.id == 0,
            r.place_name == place_name,
            r.latitude_e7 == latitude_e7,
            r.longitude_e7 == longitude_e7,
            r.created_at == now,
            r.last_reviewed_at is None,
            r.next_review_at == now,
            r.ease_milli == INITIAL_EASE_MILLI,
            r.interval == 0,
            r.well_formed(),
    {
        Card {
            id: 0,
            place_name,
            latitude_e7,
            longitude_e7,
            created_at: now,
            last_reviewed_at: None,
            next_review_at: now,
            ease_milli: INITIAL_EASE_MILLI,
            interval: 0,
        }
    }

    /// The card after a failed review at `now`: ease lowered by 0.2 down to
    /// 1.3, interval halved (rounded), due again five minutes later.
    pub fn review_failed(&self, now: Timestamp) -> (r: Card)
        requires
            self.well_formed(),
            now.schedulable(),
        ensures
            r == self.after_fail(now),
            r.well_formed(),
            r.ease_milli == failed_ease(self.ease_milli as int),
            r.interval == failed_interval(self.interval as int),
            0 <= r.interval <= self.interval,
            r.last_reviewed_at == Some(now),
            r.next_review_at.secs == now.secs + RELEARN_DELAY_MINUTES * SECS_PER_MINUTE,
            r.next_review_at.nanos == now.nanos,
    {
        let ease_milli = if self.ease_milli >= MIN_EASE_MILLI + EASE_PENALTY_MILLI {
            self.ease_milli - EASE_PENALTY_MILLI
        } else {
            MIN_EASE_MILLI
        };
        let kept: i64 = self.interval as i64 * RELEARN_FACTOR_MILLI as i64;
        let interval = ((2 * kept + 1000) / 2000) as i32;
        Card {
            id: self.id,
            place_name: self.place_name.clone(),
            latitude_e7: self.latitude_e7,
            longitude_e7: self.longitude_e7,
            created_at: self.created_at,
            last_reviewed_at: Some(now),
            next_review_at: now.plus_secs(RELEARN_DELAY_MINUTES * SECS_PER_MINUTE),
            ease_milli,
            interval,
        }
    }
    /// The card after a passed review at `now`: interval grown by the ease
    /// factor (at least by one day, at most to 365 days), ease raised by 0.1
    /// up to 2.5, due again after the new interval.
    pub fn review_passed(&self, now: Timestamp) -> (r: Card)
        requires
            self.well_formed(),
            now.schedulable(),
        ensures
            r == self.after_pass(now),
            r.well_formed(),
            r.ease_milli == passed_ease(self.ease_milli as int),
            r.interval == passed_interval(self.interval as int, self.ease_milli as int),
            r.interval >= self.interval,
            self.interval < MAX_INTERVAL_DAYS ==> r.interval > self.interval,
            r.last_reviewed_at == Some(now),
            r.next_review_at.secs == now.secs + r.interval * SECS_PER_DAY,
            r.next_review_at.nanos == now.nanos,
    {
        let days: u64 = self.interval as u64;
        let ease: u64 = self.ease_milli as u64;
        assert(days * ease <= 365 * 2500) by (nonlinear_arith)
            requires
                days <= 365,
                ease <= 2500,
        ;
        let scaled: u64 = days * ease;
        let modifier: u64 = INTERVAL_MODIFIER_MILLI as u64;
        assert(scaled * modifier <= 365 * 2500 * 1000) by (nonlinear_arith)
            requires
                scaled <= 365 * 2500,
                modifier == 1000,
        ;
        let product: u64 = scaled * modifier;
        let rounded: u64 = (2 * product + 1_000_000) / 2_000_000;
        let floor: u64 = self.interval as u64 + 1;
        let grown: u64 = if rounded >= floor { rounded } else { floor };
        let interval: i32 = if grown <= MAX_INTERVAL_DAYS as u64 {
            grown as i32
        } else {
            MAX_INTERVAL_DAYS
        };
        let ease_milli = if self.ease_milli + EASE_BONUS_MILLI <= MAX_EASE_MILLI {
            self.ease_milli + EASE_BONUS_MILLI
        } else {
            MAX_EASE_MILLI
        };
        Card {
            id: self.id,
            place_name: self.place_name.clone(),
            latitude_e7: self.latitude_e7,
            longitude_e7: self.longitude_e7,
            created_at: self.created_at,
            last_reviewed_at: Some(now),
            next_review_at: now.plus_secs(interval as i64 * SECS_PER_DAY),
            ease_milli,
            interval,
        }
    }

    /// The card after an out-of-schedule review at `now`: ease and interval
    /// unchanged, due again after the current interval.
    pub fn review_cramming(&self, now: Timestamp) -> (r: Card)
        requires
            self.well_formed(),
            now.schedulable(),
        ensures
            r == self.after_cram(now),
            r.well_formed(),
            r.ease_milli == self.ease_milli,
            r.interval == self.interval,
            r.last_reviewed_at == Some(now),
            r.next_review_at.secs == now.secs + self.interval * SECS_PER_DAY,
            r.next_review_at.nanos == now.nanos,
    {
        Card {
            id: self.id,
            place_name: self.place_name.clone(),
            latitude_e7: self.latitude_e7,
            longitude_e7: self.longitude_e7,
            created_at: self.created_at,
            last_reviewed_at: Some(now),
            next_review_at: now.plus_secs(self.interval as i64 * SECS_PER_DAY),
            ease_milli: self.ease_milli,
            interval: self.interval,
        }
    }
}

/// The card after a sequence of reviews, each with its kind and instant, in order.
pub open spec fn replay(card: Card, reviews: Seq<(ReviewKind, Timestamp)>) -> Card
    decreases reviews.len(),
{
    if reviews.len() == 0 {
        card
    } else {
        replay(card, reviews.drop_last()).after_review(reviews.last().0, reviews.last().1)
    }
}

/// Each review keeps the ease factor within [1.3, 2.5] and the interval within
/// [0, 365] days.
pub proof fn lemma_review_keeps_bounds(card: Card, kind: ReviewKind, now: Timestamp)
    requires
        card.well_formed(),
    ensures
        card.after_review(kind, now).well_formed(),
{
}

/// Whatever reviews a well-formed card goes through, in whatever order, its
/// ease factor stays within [1.3, 2.5] and its interval within [0, 365] days.
pub proof fn lemma_replay_keeps_bounds(card: Card, reviews: Seq<(ReviewKind, Timestamp)>)
    requires
        card.well_formed(),
    ensures
        replay(card, reviews).well_formed(),
        0 <= replay(card, reviews).interval <= MAX_INTERVAL_DAYS,
    decreases reviews.len(),
{
    if reviews.len() > 0 {
        lemma_replay_keeps_bounds(card, reviews.drop_last());
        lemma_review_keeps_bounds(
            replay(card, reviews.drop_last()),
            reviews.last().0,
            reviews.last().1,
        );
    }
}

} // verus!
