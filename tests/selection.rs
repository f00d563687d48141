use geocards::due::{due_positions, select_due, select_due_with};
use geocards::models::Card;
use geocards::timestamp::Timestamp;

fn card_due_at(id: i32, secs: i64, nanos: u32) -> Card {
    let mut c = Card::new(format!("place {}", id), 0, 0, Timestamp::new(secs, nanos));
    c.id = id;
    c
}

#[test]
fn nothing_due_in_empty_collection() {
    let items: Vec<Card> = Vec::new();
    let now = Timestamp::new(100, 0);
    assert_eq!(select_due(&items, now, None), None);
    assert_eq!(select_due_with(&items, now, None, 3), None);
    assert!(due_positions(&items, now, None).is_empty());
}

#[test]
fn nothing_due_when_all_cards_are_in_the_future() {
    let items = vec![card_due_at(1, 200, 0), card_due_at(2, 100, 1)];
    let now = Timestamp::new(100, 0);
    assert_eq!(select_due(&items, now, None), None);
    assert_eq!(select_due_with(&items, now, None, 0), None);
}

#[test]
fn lone_due_card_excluded_leaves_nothing() {
    let items = vec![card_due_at(4, 50, 0), card_due_at(5, 500, 0)];
    let now = Timestamp::new(100, 0);
    assert_eq!(select_due(&items, now, Some(4)), None);
    assert_eq!(select_due_with(&items, now, Some(4), 9), None);
    assert_eq!(select_due(&items, now, None), Some(0));
    assert_eq!(select_due(&items, now, Some(5)), Some(0));
}

#[test]
fn card_due_exactly_now_is_due() {
    let items = vec![card_due_at(1, 100, 5)];
    assert_eq!(select_due(&items, Timestamp::new(100, 5), None), Some(0));
    assert_eq!(select_due(&items, Timestamp::new(100, 4), None), None);
    assert_eq!(select_due(&items, Timestamp::new(101, 0), None), Some(0));
}

#[test]
fn due_positions_keep_order_and_skip_excluded() {
    let items = vec![
        card_due_at(1, 10, 0),
        card_due_at(2, 999, 0),
        card_due_at(3, 20, 0),
        card_due_at(4, 30, 0),
        card_due_at(5, 40, 0),
    ];
    let now = Timestamp::new(100, 0);
    assert_eq!(due_positions(&items, now, None), vec![0, 2, 3, 4]);
    assert_eq!(due_positions(&items, now, Some(4)), vec![0, 2, 4]);
}

#[test]
fn deterministic_choice_indexes_the_due_cards() {
    let items = vec![
        card_due_at(1, 10, 0),
        card_due_at(2, 999, 0),
        card_due_at(3, 20, 0),
        card_due_at(4, 30, 0),
    ];
    let now = Timestamp::new(100, 0);
    assert_eq!(select_due_with(&items, now, None, 0), Some(0));
    assert_eq!(select_due_with(&items, now, None, 1), Some(2));
    assert_eq!(select_due_with(&items, now, None, 2), Some(3));
    assert_eq!(select_due_with(&items, now, None, 3), Some(0));
    assert_eq!(select_due_with(&items, now, Some(1), 0), Some(2));
}

#[test]
fn random_choice_is_always_an_eligible_card() {
    let items = vec![
        card_due_at(1, 10, 0),
        card_due_at(2, 999, 0),
        card_due_at(3, 20, 0),
        card_due_at(4, 30, 0),
    ];
    let now = Timestamp::new(100, 0);
    let mut seen = [false; 4];
    for _ in 0..400 {
        let p = select_due(&items, now, Some(3)).unwrap();
        assert!(p == 0 || p == 3);
        seen[p] = true;
    }
    assert!(seen[0] && seen[3]);
}
