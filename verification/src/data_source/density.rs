//! What keeps a waiting list dense.
//!
//! A dense waiting list of length `n` holds each of the positions `0` to
//! `n - 1` once. The lemmas below show that leaving the list, joining it at
//! its tail, taking its front, promoting its head and deleting a
//! registration keep it so.

use vstd::prelude::*;
use vstd::set_lib::{lemma_int_range, lemma_subset_equality, set_int_range};
use crate::data_source::queue::{
    closed_up, deleted, dense, distinct_positions, joins_at_tail, lemma_count_bounded,
    lemma_count_pointwise, lemma_count_positive, lemma_count_push, lemma_count_remove,
    lemma_count_update, moved_to_front, moved_to_tail, placed, positions, promoted, queued_in,
    registration_count, removed_from_waiting_list, repositioned, rewritten, stepped_back, storable,
    waiting_list_count, with_head_promoted, Rows,
};
use crate::wire::event::{AnswerView, EventId, RegistrationView};

verus! {

/// A waiting list without a shared position holds as many positions as it
/// has registrations.
pub proof fn lemma_positions_counted(rows: Rows, e: EventId)
    requires
        distinct_positions(rows, e),
    ensures
        positions(rows, e).finite(),
        positions(rows, e).len() == waiting_list_count(rows, e),
    decreases rows.len(),
{
    if rows.len() == 0 {
        assert(positions(rows, e) =~= Set::<int>::empty());
    } else {
        let d = rows.drop_last();
        let last = rows.len() - 1;
        assert forall|i: int, j: int|
            0 <= i < j < d.len() && queued_in(#[trigger] d[i], e) && queued_in(
                #[trigger] d[j],
                e,
            ) implies d[i].waiting_list_position != d[j].waiting_list_position by {
            assert(d[i] == rows[i] && d[j] == rows[j]);
        }
        lemma_positions_counted(d, e);
        if queued_in(rows[last], e) {
            let p = rows[last].waiting_list_position.unwrap() as int;
            assert(!positions(d, e).contains(p)) by {
                if positions(d, e).contains(p) {
                    let i = choose|i: int|
                        0 <= i < d.len() && queued_in(#[trigger] d[i], e)
                            && d[i].waiting_list_position.unwrap() == p;
                    assert(d[i] == rows[i]);
                    assert(queued_in(rows[i], e) && queued_in(rows[last], e));
                }
            }
            assert forall|x: int| positions(rows, e).contains(x) == positions(d, e).insert(
                p,
            ).contains(x) by {
                if positions(rows, e).contains(x) {
                    let i = choose|i: int|
                        0 <= i < rows.len() && queued_in(#[trigger] rows[i], e)
                            && rows[i].waiting_list_position.unwrap() == x;
                    if i < last {
                        assert(d[i] == rows[i]);
                    }
                }
                if positions(d, e).contains(x) {
                    let i = choose|i: int|
                        0 <= i < d.len() && queued_in(#[trigger] d[i], e)
                            && d[i].waiting_list_position.unwrap() == x;
                    assert(d[i] == rows[i]);
                }
                if x == p {
                    assert(queued_in(rows[last], e));
                }
            }
            assert(positions(rows, e) =~= positions(d, e).insert(p));
        } else {
            assert forall|x: int| positions(rows, e).contains(x) == positions(d, e).contains(
                x,
            ) by {
                if positions(rows, e).contains(x) {
                    let i = choose|i: int|
                        0 <= i < rows.len() && queued_in(#[trigger] rows[i], e)
                            && rows[i].waiting_list_position.unwrap() == x;
                    assert(d[i] == rows[i]);
                }
                if positions(d, e).contains(x) {
                    let i = choose|i: int|
                        0 <= i < d.len() && queued_in(#[trigger] d[i], e)
                            && d[i].waiting_list_position.unwrap() == x;
                    assert(d[i] == rows[i]);
                }
            }
            assert(positions(rows, e) =~= positions(d, e));
        }
    }
}

/// The positions of a dense waiting list of length `n` are `0` to `n - 1`.
pub proof fn lemma_dense_positions(rows: Rows, e: EventId)
    requires
        dense(rows, e),
    ensures
        positions(rows, e) =~= set_int_range(0, waiting_list_count(rows, e) as int),
{
    let n = waiting_list_count(rows, e) as int;
    lemma_positions_counted(rows, e);
    lemma_int_range(0, n);
    assert(positions(rows, e).subset_of(set_int_range(0, n)));
    lemma_subset_equality(positions(rows, e), set_int_range(0, n));
}

/// A dense waiting list holds a registration at every position below its
/// length.
pub proof fn lemma_dense_has_position(rows: Rows, e: EventId, p: int) -> (i: int)
    requires
        dense(rows, e),
        0 <= p < waiting_list_count(rows, e),
    ensures
        0 <= i < rows.len(),
        queued_in(rows[i], e),
        rows[i].waiting_list_position.unwrap() == p,
{
    lemma_dense_positions(rows, e);
    assert(set_int_range(0, waiting_list_count(rows, e) as int).contains(p));
    assert(positions(rows, e).contains(p));
    choose|i: int|
        0 <= i < rows.len() && queued_in(#[trigger] rows[i], e)
            && rows[i].waiting_list_position.unwrap() == p
}

/// Leaving the waiting list shortens the list of the registration's event by
/// one, adds one confirmed seat there, and keeps every waiting list dense.
pub proof fn lemma_removal(rows: Rows, k: int, e: EventId)
    requires
        0 <= k < rows.len(),
        rows[k].waiting_list_position is Some,
    ensures
        waiting_list_count(removed_from_waiting_list(rows, k), e) == waiting_list_count(rows, e)
            - if rows[k].event_id == e {
            1int
        } else {
            0int
        },
        registration_count(removed_from_waiting_list(rows, k), e) == registration_count(rows, e)
            + if rows[k].event_id == e {
            1int
        } else {
            0int
        },
        dense(rows, e) ==> dense(removed_from_waiting_list(rows, k), e),
{
    let ek = rows[k].event_id;
    let p = rows[k].waiting_list_position.unwrap();
    let shifted = Seq::new(rows.len(), |i: int| closed_up(rows[i], ek, p));
    let after = removed_from_waiting_list(rows, k);
    assert(after =~= shifted.update(k, promoted(rows[k])));
    lemma_count_pointwise(rows, shifted, e, true);
    lemma_count_pointwise(rows, shifted, e, false);
    lemma_count_update(shifted, k, promoted(rows[k]), e, true);
    lemma_count_update(shifted, k, promoted(rows[k]), e, false);
    assert(shifted[k] == rows[k]);
    if dense(rows, e) {
        assert forall|i: int| 0 <= i < after.len() && queued_in(#[trigger] after[i], e) implies (
        after[i].waiting_list_position.unwrap() < waiting_list_count(after, e)) by {
            assert(queued_in(rows[i], e));
            assert(i != k);
            if ek == e {
                assert(queued_in(rows[k], e));
                if i < k {
                    assert(rows[i].waiting_list_position != rows[k].waiting_list_position);
                } else {
                    assert(rows[k].waiting_list_position != rows[i].waiting_list_position);
                }
            }
        }
        assert forall|i: int, j: int|
            0 <= i < j < after.len() && queued_in(#[trigger] after[i], e) && queued_in(
                #[trigger] after[j],
                e,
            ) implies after[i].waiting_list_position != after[j].waiting_list_position by {
            assert(queued_in(rows[i], e) && queued_in(rows[j], e));
            assert(rows[i].waiting_list_position != rows[j].waiting_list_position);
            if ek == e {
                assert(queued_in(rows[k], e));
                if i < k {
                    assert(rows[i].waiting_list_position != rows[k].waiting_list_position);
                } else if k < i {
                    assert(rows[k].waiting_list_position != rows[i].waiting_list_position);
                }
                if j < k {
                    assert(rows[j].waiting_list_position != rows[k].waiting_list_position);
                } else if k < j {
                    assert(rows[k].waiting_list_position != rows[j].waiting_list_position);
                }
            }
        }
    }
}

/// Taking out a registration that is not on the waiting list of `e` leaves
/// that list as long and as dense as it was.
pub proof fn lemma_remove_unqueued(rows: Rows, k: int, e: EventId)
    requires
        0 <= k < rows.len(),
        !queued_in(rows[k], e),
    ensures
        waiting_list_count(rows.remove(k), e) == waiting_list_count(rows, e),
        dense(rows, e) ==> dense(rows.remove(k), e),
{
    lemma_count_remove(rows, k, e, true);
    let after = rows.remove(k);
    if dense(rows, e) {
        assert forall|i: int| 0 <= i < after.len() && queued_in(#[trigger] after[i], e) implies (
        after[i].waiting_list_position.unwrap() < waiting_list_count(after, e)) by {
            if i < k {
                assert(after[i] == rows[i]);
            } else {
                assert(after[i] == rows[i + 1]);
            }
        }
        assert forall|i: int, j: int|
            0 <= i < j < after.len() && queued_in(#[trigger] after[i], e) && queued_in(
                #[trigger] after[j],
                e,
            ) implies after[i].waiting_list_position != after[j].waiting_list_position by {
            let oi = if i < k {
                i
            } else {
                i + 1
            };
            let oj = if j < k {
                j
            } else {
                j + 1
            };
            assert(after[i] == rows[oi] && after[j] == rows[oj]);
            assert(rows[oi].waiting_list_position != rows[oj].waiting_list_position);
        }
    }
}

/// Appending a registration that holds a confirmed seat or joins at the tail
/// keeps every waiting list dense.
pub proof fn lemma_push(rows: Rows, r: RegistrationView, e: EventId)
    requires
        dense(rows, e),
        joins_at_tail(rows, r),
    ensures
        dense(rows.push(r), e),
{
    let after = rows.push(r);
    lemma_count_push(rows, r, e, true);
    assert forall|i: int| 0 <= i < after.len() && queued_in(#[trigger] after[i], e) implies (
    after[i].waiting_list_position.unwrap() < waiting_list_count(after, e)) by {
        if i < rows.len() {
            assert(after[i] == rows[i]);
        }
    }
    assert forall|i: int, j: int|
        0 <= i < j < after.len() && queued_in(#[trigger] after[i], e) && queued_in(
            #[trigger] after[j],
            e,
        ) implies after[i].waiting_list_position != after[j].waiting_list_position by {
        assert(after[i] == rows[i]);
        if j < rows.len() {
            assert(after[j] == rows[j]);
        }
    }
}

/// Giving a confirmed registration the position at the tail of its event's
/// waiting list keeps every waiting list dense.
pub proof fn lemma_place_at_tail(rows: Rows, k: int, position: u64, now: i128, e: EventId)
    requires
        0 <= k < rows.len(),
        rows[k].waiting_list_position is None,
        position == waiting_list_count(rows, rows[k].event_id),
        dense(rows, e),
    ensures
        dense(rows.update(k, placed(rows[k], position, now)), e),
{
    let after = rows.update(k, placed(rows[k], position, now));
    lemma_count_update(rows, k, placed(rows[k], position, now), e, true);
    assert forall|i: int| 0 <= i < after.len() && queued_in(#[trigger] after[i], e) implies (
    after[i].waiting_list_position.unwrap() < waiting_list_count(after, e)) by {
        if i != k {
            assert(after[i] == rows[i]);
        }
    }
    assert forall|i: int, j: int|
        0 <= i < j < after.len() && queued_in(#[trigger] after[i], e) && queued_in(
            #[trigger] after[j],
            e,
        ) implies after[i].waiting_list_position != after[j].waiting_list_position by {
        if i != k {
            assert(after[i] == rows[i]);
        }
        if j != k {
            assert(after[j] == rows[j]);
        }
    }
}

/// Taking the front of the waiting list keeps every waiting list dense.
pub proof fn lemma_move_to_front(rows: Rows, k: int, now: i128, e: EventId)
    requires
        0 <= k < rows.len(),
        storable(rows),
        dense(rows, e),
    ensures
        dense(moved_to_front(rows, k, now), e),
{
    let ek = rows[k].event_id;
    let left = rows[k].waiting_list_position;
    let after = moved_to_front(rows, k, now);
    let stepped = Seq::new(rows.len(), |i: int| stepped_back(rows[i], ek, left));
    let front = placed(promoted(rows[k]), 0, now);
    assert(after =~= stepped.update(k, front));
    lemma_count_pointwise(rows, stepped, e, true);
    lemma_count_update(stepped, k, front, e, true);
    lemma_count_bounded(rows, e, true);
    assert(stepped[k] == rows[k]);
    if ek != e {
        assert forall|i: int| 0 <= i < after.len() && queued_in(#[trigger] after[i], e) implies (
        after[i].waiting_list_position.unwrap() < waiting_list_count(after, e)) by {
            assert(after[i] == rows[i]);
        }
        assert forall|i: int, j: int|
            0 <= i < j < after.len() && queued_in(#[trigger] after[i], e) && queued_in(
                #[trigger] after[j],
                e,
            ) implies after[i].waiting_list_position != after[j].waiting_list_position by {
            assert(after[i] == rows[i] && after[j] == rows[j]);
        }
    } else {
        assert(queued_in(after[k], e));
        lemma_count_positive(after, k, e, true);
        assert forall|i: int| 0 <= i < after.len() && queued_in(#[trigger] after[i], e) implies (
        after[i].waiting_list_position.unwrap() < waiting_list_count(after, e)) by {
            if i != k {
                assert(queued_in(rows[i], e));
                if left is Some {
                    assert(queued_in(rows[k], e));
                }
            }
        }
        assert forall|i: int, j: int|
            0 <= i < j < after.len() && queued_in(#[trigger] after[i], e) && queued_in(
                #[trigger] after[j],
                e,
            ) implies after[i].waiting_list_position != after[j].waiting_list_position by {
            if left is Some {
                assert(queued_in(rows[k], e));
            }
            if i != k {
                assert(queued_in(rows[i], e));
                if left is Some {
                    if i < k {
                        assert(rows[i].waiting_list_position != rows[k].waiting_list_position);
                    } else {
                        assert(rows[k].waiting_list_position != rows[i].waiting_list_position);
                    }
                }
            }
            if j != k {
                assert(queued_in(rows[j], e));
                if left is Some {
                    if j < k {
                        assert(rows[j].waiting_list_position != rows[k].waiting_list_position);
                    } else {
                        assert(rows[k].waiting_list_position != rows[j].waiting_list_position);
                    }
                }
            }
            if i != k && j != k {
                assert(rows[i].waiting_list_position != rows[j].waiting_list_position);
            }
        }
    }
}

/// Taking the tail of the waiting list keeps every waiting list dense.
pub proof fn lemma_move_to_tail(rows: Rows, k: int, now: i128, e: EventId)
    requires
        0 <= k < rows.len(),
        storable(rows),
        dense(rows, e),
    ensures
        dense(moved_to_tail(rows, k, now), e),
{
    let removed = removed_from_waiting_list(rows, k);
    if rows[k].waiting_list_position is Some {
        lemma_removal(rows, k, e);
    }
    assert(removed[k] == promoted(rows[k]));
    lemma_count_bounded(removed, rows[k].event_id, true);
    let tail = waiting_list_count(removed, rows[k].event_id) as u64;
    lemma_place_at_tail(removed, k, tail, now, e);
}

/// Giving a registration a position keeps every waiting list dense,
/// whatever the position: it keeps its own, leaves the list, takes the front
/// or takes the tail.
pub proof fn lemma_reposition(rows: Rows, k: int, new: Option<u64>, now: i128, e: EventId)
    requires
        0 <= k < rows.len(),
        storable(rows),
        dense(rows, e),
    ensures
        dense(repositioned(rows, k, new, now), e),
{
    if new == rows[k].waiting_list_position {
    } else if new is None {
        lemma_removal(rows, k, e);
    } else if new.unwrap() == 0 {
        lemma_move_to_front(rows, k, now, e);
    } else {
        lemma_move_to_tail(rows, k, now, e);
    }
}

/// Promoting the head of the waiting list of `of` keeps every waiting list
/// dense, and shortens a dense, non-empty list of `of` by one.
pub proof fn lemma_head_promotion(rows: Rows, of: EventId, e: EventId)
    requires
        dense(rows, e),
    ensures
        dense(with_head_promoted(rows, of), e),
        waiting_list_count(with_head_promoted(rows, of), e) == waiting_list_count(rows, e)
            - if of == e && waiting_list_count(rows, e) > 0 {
            1int
        } else {
            0int
        },
{
    let after = with_head_promoted(rows, of);
    if of != e {
        lemma_count_pointwise(rows, after, e, true);
        assert forall|i: int| 0 <= i < after.len() && queued_in(#[trigger] after[i], e) implies (
        after[i].waiting_list_position.unwrap() < waiting_list_count(after, e)) by {
            assert(after[i] == rows[i]);
        }
        assert forall|i: int, j: int|
            0 <= i < j < after.len() && queued_in(#[trigger] after[i], e) && queued_in(
                #[trigger] after[j],
                e,
            ) implies after[i].waiting_list_position != after[j].waiting_list_position by {
            assert(after[i] == rows[i] && after[j] == rows[j]);
        }
    } else if waiting_list_count(rows, e) == 0 {
        lemma_count_pointwise(rows, after, e, true);
        assert forall|i: int| 0 <= i < rows.len() implies !queued_in(#[trigger] rows[i], e) by {
            if queued_in(rows[i], e) {
                assert(rows[i].waiting_list_position.unwrap() < waiting_list_count(rows, e));
            }
        }
        assert forall|i: int| 0 <= i < after.len() implies !queued_in(#[trigger] after[i], e) by {
            assert(!queued_in(rows[i], e));
        }
    } else {
        let h = lemma_dense_has_position(rows, e, 0);
        let without = rows.update(h, promoted(rows[h]));
        lemma_count_update(rows, h, promoted(rows[h]), e, true);
        assert forall|i: int| 0 <= i < without.len() implies queued_in(
            #[trigger] without[i],
            e,
        ) == queued_in(after[i], e) by {
            if i != h {
                assert(without[i] == rows[i]);
                if queued_in(rows[i], e) {
                    assert(queued_in(rows[h], e));
                    if i < h {
                        assert(rows[i].waiting_list_position != rows[h].waiting_list_position);
                    } else {
                        assert(rows[h].waiting_list_position != rows[i].waiting_list_position);
                    }
                }
            }
        }
        lemma_count_pointwise(without, after, e, true);
        assert forall|i: int| 0 <= i < after.len() && queued_in(#[trigger] after[i], e) implies (
        after[i].waiting_list_position.unwrap() < waiting_list_count(after, e)) by {
            assert(queued_in(rows[i], e));
        }
        assert forall|i: int, j: int|
            0 <= i < j < after.len() && queued_in(#[trigger] after[i], e) && queued_in(
                #[trigger] after[j],
                e,
            ) implies after[i].waiting_list_position != after[j].waiting_list_position by {
            assert(queued_in(rows[i], e) && queued_in(rows[j], e));
            assert(rows[i].waiting_list_position != rows[j].waiting_list_position);
        }
    }
}

/// Deleting a registration keeps every waiting list dense.
pub proof fn lemma_deletion(rows: Rows, k: int, e: EventId)
    requires
        0 <= k < rows.len(),
        dense(rows, e),
    ensures
        dense(deleted(rows, k), e),
{
    if rows[k].waiting_list_position is Some {
        lemma_removal(rows, k, e);
        let removed = removed_from_waiting_list(rows, k);
        assert(removed[k] == promoted(rows[k]));
        lemma_remove_unqueued(removed, k, e);
    } else {
        lemma_head_promotion(rows, rows[k].event_id, e);
        let rebalanced = with_head_promoted(rows, rows[k].event_id);
        assert(rebalanced[k] == rows[k]);
        lemma_remove_unqueued(rebalanced, k, e);
    }
}

/// New answers and attendance change neither the length nor the density of
/// a waiting list.
pub proof fn lemma_rewrite(
    rows: Rows,
    k: int,
    answers: Seq<AnswerView>,
    attended: Option<bool>,
    now: i128,
    e: EventId,
)
    requires
        0 <= k < rows.len(),
    ensures
        waiting_list_count(rows.update(k, rewritten(rows[k], answers, attended, now)), e)
            == waiting_list_count(rows, e),
        dense(rows, e) ==> dense(rows.update(k, rewritten(rows[k], answers, attended, now)), e),
{
    let written = rows.update(k, rewritten(rows[k], answers, attended, now));
    lemma_count_pointwise(rows, written, e, true);
    if dense(rows, e) {
        assert forall|i: int|
            0 <= i < written.len() && queued_in(#[trigger] written[i], e) implies (
        written[i].waiting_list_position.unwrap() < waiting_list_count(written, e)) by {
            assert(queued_in(rows[i], e));
        }
        assert forall|i: int, j: int|
            0 <= i < j < written.len() && queued_in(#[trigger] written[i], e) && queued_in(
                #[trigger] written[j],
                e,
            ) implies written[i].waiting_list_position != written[j].waiting_list_position by {
            assert(queued_in(rows[i], e) && queued_in(rows[j], e));
        }
    }
}

} // verus!
