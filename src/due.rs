use vstd::prelude::*;
use crate::models::Card;
use crate::timestamp::Timestamp;

verus! {

/// The card is due at `now` and is not the excluded one.
pub open spec fn eligible(card: Card, now: Timestamp, exclude: Option<i32>) -> bool {
    card.next_review_at.le_spec(now) && exclude != Some(card.id)
}

/// Positions, in increasing order, of the cards of `items` that are due at
/// `now` and do not carry the excluded identifier.
pub open spec fn due_set(items: Seq<Card>, now: Timestamp, exclude: Option<i32>) -> Seq<usize>
    decreases items.len(),
{
    if items.len() == 0 {
        Seq::empty()
    } else {
        let rest = due_set(items.drop_last(), now, exclude);
        if eligible(items.last(), now, exclude) {
            rest.push((items.len() - 1) as usize)
        } else {
            rest
        }
    }
}

/// Every position in the due set names an eligible card of `items`, and every
/// eligible card's position is in it.
pub proof fn lemma_due_set_members(items: Seq<Card>, now: Timestamp, exclude: Option<i32>)
    requires
        items.len() <= usize::MAX,
    ensures
        forall|p: usize| #[trigger]
            due_set(items, now, exclude).contains(p) <==> (p < items.len() && eligible(
                items[p as int],
                now,
                exclude,
            )),
    decreases items.len(),
{
    if items.len() > 0 {
        let rest = items.drop_last();
        lemma_due_set_members(rest, now, exclude);
        let whole = due_set(items, now, exclude);
        let prev = due_set(rest, now, exclude);
        let last = (items.len() - 1) as usize;
        assert forall|p: usize| #[trigger]
            whole.contains(p) <==> (p < items.len() && eligible(items[p as int], now, exclude)) by {
            assert(prev.contains(p) <==> (p < rest.len() && eligible(rest[p as int], now, exclude)));
            if p < last {
                assert(rest[p as int] == items[p as int]);
            }
            if eligible(items.last(), now, exclude) {
                assert(whole == prev.push(last));
                if whole.contains(p) && p != last {
                    let k = choose|k: int| 0 <= k < whole.len() && whole[k] == p;
                    assert(k < prev.len());
                    assert(prev[k] == p);
                }
                if p == last {
                    assert(whole[prev.len() as int] == p);
                }
                if prev.contains(p) {
                    let k = choose|k: int| 0 <= k < prev.len() && prev[k] == p;
                    assert(whole[k] == p);
                }
            } else {
                assert(whole == prev);
            }
        }
    }
}

/// Positions, in increasing order, of the cards of `items` that are due at
/// `now` (next review at or before it) and do not carry the id `exclude`.
pub fn due_positions(items: &Vec<Card>, now: Timestamp, exclude: Option<i32>) -> (r: Vec<usize>)
    ensures
        r@ == due_set(items@, now, exclude),
{
    let mut out: Vec<usize> = Vec::new();
    let mut i: usize = 0;
    while i < items.len()
        invariant
            i <= items.len(),
            out@ == due_set(items@.subrange(0, i as int), now, exclude),
        decreases items.len() - i,
    {
        assert(items@.subrange(0, i + 1).drop_last() == items@.subrange(0, i as int));
        let card = &items[i];
        let take = card.next_review_at.is_at_or_before(&now) && match exclude {
            Some(id) => card.id != id,
            None => true,
        };
        if take {
            out.push(i);
        }
        i += 1;
    }
    assert(items@.subrange(0, items.len() as int) == items@);
    out
}

/// Relies on rand's `SliceRandom::choose` with the thread-local generator:
/// `None` exactly when the slice is empty, otherwise one of its elements.
#[verifier::external_body]
fn choose_one(candidates: &Vec<usize>) -> (r: Option<usize>)
    ensures
        r is None <==> candidates@.len() == 0,
        r matches Some(p) ==> candidates@.contains(p),
{
    rand::seq::SliceRandom::choose(candidates.as_slice(), &mut rand::thread_rng()).copied()
}

/// Picks a card that is due at `now` and does not carry the id `exclude`,
/// uniformly at random; returns its position in `items`, or `None` when
/// there is no such card.
pub fn select_due(items: &Vec<Card>, now: Timestamp, exclude: Option<i32>) -> (r: Option<usize>)
    ensures
        r is None <==> due_set(items@, now, exclude).len() == 0,
        r matches Some(p) ==> due_set(items@, now, exclude).contains(p),
        r matches Some(p) ==> p < items.len() && eligible(items@[p as int], now, exclude),
{
    let due = due_positions(items, now, exclude);
    proof {
        assert(items@.len() == items.len());
        lemma_due_set_members(items@, now, exclude);
    }
    choose_one(&due)
}

/// Picks, with a caller-supplied draw `choice`, a card that is due at `now`
/// and does not carry the id `exclude`: the due card at position
/// `choice % n` among the `n` due cards in their order in `items`. Returns
/// its position in `items`, or `None` when no card is due.
pub fn select_due_with(items: &Vec<Card>, now: Timestamp, exclude: Option<i32>, choice: usize) -> (r:
    Option<usize>)
    ensures
        r == (if due_set(items@, now, exclude).len() == 0 {
            None
        } else {
            Some(
                due_set(items@, now, exclude)[choice as int % due_set(items@, now, exclude).len() as int],
            )
        }),
{
    let due = due_positions(items, now, exclude);
    if due.len() == 0 {
        None
    } else {
        Some(due[choice % due.len()])
    }
}

/// When exactly one card is due, excluding its identifier leaves nothing to
/// select.
pub proof fn lemma_lone_due_card_excluded(items: Seq<Card>, now: Timestamp)
    requires
        items.len() <= usize::MAX,
        due_set(items, now, None).len() == 1,
    ensures
        due_set(items, now, Some(items[due_set(items, now, None)[0] as int].id)).len() == 0,
{
    let only = due_set(items, now, None)[0];
    let id = items[only as int].id;
    lemma_due_set_members(items, now, None);
    lemma_due_set_members(items, now, Some(id));
    let left = due_set(items, now, Some(id));
    if left.len() > 0 {
        let p = left[0];
        assert(left.contains(p));
        assert(due_set(items, now, None).contains(p));
        assert(p == only);
    }
}

} // verus!
