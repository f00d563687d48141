use geocards::answer::{check_answer, is_correct, CORRECT_THRESHOLD_MM};
use geocards::models::Card;
use geocards::timestamp::Timestamp;

#[test]
fn zero_distance_is_correct() {
    assert!(is_correct(0));
}

#[test]
fn threshold_is_inclusive() {
    assert!(is_correct(CORRECT_THRESHOLD_MM));
    assert!(is_correct(250_000));
    assert!(!is_correct(250_001));
}

#[test]
fn nine_hundred_meters_is_incorrect() {
    assert!(!is_correct(900_000));
}

#[test]
fn correct_answer_passes_the_card() {
    let now = Timestamp::new(1_000_000, 0);
    let c = Card::new("Tokio".to_string(), 356_895_000, 1_396_917_000, Timestamp::new(0, 0));
    let (ok, r) = check_answer(&c, 0, now);
    assert!(ok);
    assert_eq!(r.interval, 1);
    assert_eq!(r.next_review_at, Timestamp::new(1_000_000 + 86_400, 0));
}

#[test]
fn wrong_answer_fails_the_card() {
    let now = Timestamp::new(1_000_000, 0);
    let mut c = Card::new("Tokio".to_string(), 356_895_000, 1_396_917_000, Timestamp::new(0, 0));
    c.interval = 10;
    c.ease_milli = 2000;
    let (ok, r) = check_answer(&c, 900_000, now);
    assert!(!ok);
    assert_eq!(r.interval, 5);
    assert_eq!(r.ease_milli, 1800);
    assert_eq!(r.next_review_at, Timestamp::new(1_000_300, 0));
}

#[test]
fn timestamps_order_by_seconds_then_nanos() {
    let a = Timestamp::new(10, 500);
    assert!(a.is_at_or_before(&a));
    assert!(a.is_at_or_before(&Timestamp::new(10, 501)));
    assert!(a.is_at_or_before(&Timestamp::new(11, 0)));
    assert!(!a.is_at_or_before(&Timestamp::new(10, 499)));
    assert!(!a.is_at_or_before(&Timestamp::new(9, 999)));
    assert_eq!(a.plus_secs(300), Timestamp::new(310, 500));
}
