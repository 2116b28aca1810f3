//! The mathematical model of the registration table and of its waiting lists.
//!
//! A table is a sequence of registrations. The registrations of one event
//! that carry a position form that event's waiting list; those without one
//! hold a confirmed seat. The functions below say what each operation of the
//! store does to a table, and the lemmas say what the operations keep.

use vstd::prelude::*;
use crate::wire::event::{AnswerView, EventId, RegistrationId, RegistrationView};
use crate::wire::user::UserId;

verus! {

/// A registration table as a mathematical value.
pub type Rows = Seq<RegistrationView>;

/// Whether `r` belongs to event `e` and is on its waiting list (`queued`) or
/// holds a confirmed seat (`!queued`).
pub open spec fn counts_as(r: RegistrationView, e: EventId, queued: bool) -> bool {
    r.event_id == e && (r.waiting_list_position is Some) == queued
}

/// Whether `r` is on the waiting list of event `e`.
pub open spec fn queued_in(r: RegistrationView, e: EventId) -> bool {
    counts_as(r, e, true)
}

/// How many registrations of event `e` are on its waiting list (`queued`) or
/// hold a confirmed seat (`!queued`).
pub open spec fn count_in(rows: Rows, e: EventId, queued: bool) -> nat
    decreases rows.len(),
{
    if rows.len() == 0 {
        0
    } else {
        count_in(rows.drop_last(), e, queued) + if counts_as(rows.last(), e, queued) {
            1nat
        } else {
            0nat
        }
    }
}

/// The length of the waiting list of event `e`.
pub open spec fn waiting_list_count(rows: Rows, e: EventId) -> nat {
    count_in(rows, e, true)
}

/// The number of confirmed registrations of event `e`.
pub open spec fn registration_count(rows: Rows, e: EventId) -> nat {
    count_in(rows, e, false)
}

/// Whether a store can hold the table: its size is one that a machine can
/// count.
pub open spec fn storable(rows: Rows) -> bool {
    rows.len() <= usize::MAX
}

/// No two registrations share an identity.
pub open spec fn unique_ids(rows: Rows) -> bool {
    forall|i: int, j: int|
        0 <= i < j < rows.len() ==> (#[trigger] rows[i]).registration_id != (
        #[trigger] rows[j]).registration_id
}

/// Whether the table holds a registration with identity `id`.
pub open spec fn has_registration(rows: Rows, id: RegistrationId) -> bool {
    exists|i: int| 0 <= i < rows.len() && (#[trigger] rows[i]).registration_id == id
}

/// The place in the table of the registration with identity `id`.
pub open spec fn index_of(rows: Rows, id: RegistrationId) -> int {
    choose|i: int| 0 <= i < rows.len() && (#[trigger] rows[i]).registration_id == id
}

/// Every position on the waiting list of event `e` lies below its length.
pub open spec fn positions_below_count(rows: Rows, e: EventId) -> bool {
    forall|i: int|
        0 <= i < rows.len() && queued_in(#[trigger] rows[i], e)
            ==> rows[i].waiting_list_position.unwrap() < waiting_list_count(rows, e)
}

/// No two registrations on the waiting list of event `e` share a position.
pub open spec fn distinct_positions(rows: Rows, e: EventId) -> bool {
    forall|i: int, j: int|
        0 <= i < j < rows.len() && queued_in(#[trigger] rows[i], e) && queued_in(
            #[trigger] rows[j],
            e,
        ) ==> rows[i].waiting_list_position != rows[j].waiting_list_position
}

/// The waiting list of event `e` is dense: its positions lie below its
/// length and no two of its registrations share one.
pub open spec fn dense(rows: Rows, e: EventId) -> bool {
    positions_below_count(rows, e) && distinct_positions(rows, e)
}

/// The positions that the waiting list of event `e` holds.
pub open spec fn positions(rows: Rows, e: EventId) -> Set<int> {
    Set::new(
        |p: int|
            exists|i: int|
                0 <= i < rows.len() && queued_in(#[trigger] rows[i], e)
                    && rows[i].waiting_list_position.unwrap() == p,
    )
}

/// `r` holding a confirmed seat.
pub open spec fn promoted(r: RegistrationView) -> RegistrationView {
    RegistrationView { waiting_list_position: None, ..r }
}

/// `r` at waiting-list position `position`, written at the instant `now`.
pub open spec fn placed(r: RegistrationView, position: u64, now: i128) -> RegistrationView {
    RegistrationView { waiting_list_position: Some(position), updated: now, ..r }
}

/// `r` after the registration at position `p` of event `e` left the waiting
/// list: those of `e` that stood behind `p` move up by one.
pub open spec fn closed_up(r: RegistrationView, e: EventId, p: u64) -> RegistrationView {
    if r.event_id == e && r.waiting_list_position is Some && r.waiting_list_position.unwrap() > p {
        RegistrationView {
            waiting_list_position: Some((r.waiting_list_position.unwrap() - 1) as u64),
            ..r
        }
    } else {
        r
    }
}

/// `r` after the head of the waiting list of event `e` got a confirmed seat:
/// the registration of `e` at position 0 is confirmed, the others of its
/// waiting list move up by one.
pub open spec fn head_promoted(r: RegistrationView, e: EventId) -> RegistrationView {
    if r.event_id == e && r.waiting_list_position is Some {
        if r.waiting_list_position.unwrap() == 0 {
            promoted(r)
        } else {
            RegistrationView {
                waiting_list_position: Some((r.waiting_list_position.unwrap() - 1) as u64),
                ..r
            }
        }
    } else {
        r
    }
}

/// The table after the registration at index `k` left the waiting list for a
/// confirmed seat. A registration that holds a confirmed seat already leaves
/// the table as it is.
pub open spec fn removed_from_waiting_list(rows: Rows, k: int) -> Rows {
    match rows[k].waiting_list_position {
        None => rows,
        Some(p) => Seq::new(
            rows.len(),
            |i: int|
                if i == k {
                    promoted(rows[i])
                } else {
                    closed_up(rows[i], rows[k].event_id, p)
                },
        ),
    }
}

/// Whether the registration at index `k` may be given the position `new`:
/// its own, none, the front, or the last position of its event's waiting
/// list.
pub open spec fn may_reposition(rows: Rows, k: int, new: Option<u64>) -> bool {
    ||| new == rows[k].waiting_list_position
    ||| new is None
    ||| new.unwrap() == 0
    ||| new.unwrap() == waiting_list_count(rows, rows[k].event_id) - 1
}

/// `r` after a registration of event `e` took the front of the waiting
/// list, coming from the place `left` or, if `left` is none, from a
/// confirmed seat: those of `e` that stood before that place move back by
/// one, and so do all who wait if it came from a confirmed seat.
pub open spec fn stepped_back(
    r: RegistrationView,
    e: EventId,
    left: Option<u64>,
) -> RegistrationView {
    if r.event_id == e && r.waiting_list_position is Some && (left is None
        || r.waiting_list_position.unwrap() < left.unwrap()) {
        RegistrationView {
            waiting_list_position: Some((r.waiting_list_position.unwrap() + 1) as u64),
            ..r
        }
    } else {
        r
    }
}

/// The table after the registration at index `k` took the front of its
/// event's waiting list at the instant `now`: it holds position 0, and those
/// that stood before it made room.
pub open spec fn moved_to_front(rows: Rows, k: int, now: i128) -> Rows {
    Seq::new(
        rows.len(),
        |i: int|
            if i == k {
                placed(promoted(rows[i]), 0, now)
            } else {
                stepped_back(rows[i], rows[k].event_id, rows[k].waiting_list_position)
            },
    )
}

/// The table after the registration at index `k` took the tail of its
/// event's waiting list at the instant `now`: it leaves the list, which
/// closes up behind it, and takes the length that the list then has.
pub open spec fn moved_to_tail(rows: Rows, k: int, now: i128) -> Rows {
    removed_from_waiting_list(rows, k).update(
        k,
        placed(
            promoted(rows[k]),
            waiting_list_count(removed_from_waiting_list(rows, k), rows[k].event_id) as u64,
            now,
        ),
    )
}

/// Whether the registration at index `k` cannot take the front because
/// somebody would have to move back beyond the largest position that can be
/// written: it comes from a confirmed seat, and a registration of its event
/// waits at position `u64::MAX`.
pub open spec fn front_blocked(rows: Rows, k: int, new: Option<u64>) -> bool {
    &&& new == Some(0u64)
    &&& rows[k].waiting_list_position is None
    &&& exists|i: int|
        0 <= i < rows.len() && queued_in(#[trigger] rows[i], rows[k].event_id)
            && rows[i].waiting_list_position == Some(u64::MAX)
}

/// The table after the registration at index `k` was given the position
/// `new` at the instant `now`.
///
/// Its own position changes nothing. Without a position it leaves the list
/// for a confirmed seat. With position 0 it takes the front. With any other
/// position that [`may_reposition`] admits, which is then the last of the
/// list, it takes the tail.
pub open spec fn repositioned(rows: Rows, k: int, new: Option<u64>, now: i128) -> Rows {
    if new == rows[k].waiting_list_position {
        rows
    } else if new is None {
        removed_from_waiting_list(rows, k)
    } else if new.unwrap() == 0 {
        moved_to_front(rows, k, now)
    } else {
        moved_to_tail(rows, k, now)
    }
}

/// The table after the head of the waiting list of event `e` got a confirmed
/// seat.
pub open spec fn with_head_promoted(rows: Rows, e: EventId) -> Rows {
    Seq::new(rows.len(), |i: int| head_promoted(rows[i], e))
}

/// The table after the registration at index `k` was deleted and the waiting
/// list of its event rebalanced: one that was queued leaves a gap that closes;
/// one that held a confirmed seat hands it to the head of the waiting list.
pub open spec fn deleted(rows: Rows, k: int) -> Rows {
    match rows[k].waiting_list_position {
        Some(_) => removed_from_waiting_list(rows, k).remove(k),
        None => with_head_promoted(rows, rows[k].event_id).remove(k),
    }
}

/// Whether appending `r` keeps the waiting list of its event dense: `r` holds
/// a confirmed seat or joins at the tail.
pub open spec fn joins_at_tail(rows: Rows, r: RegistrationView) -> bool {
    r.waiting_list_position matches Some(p) ==> p == waiting_list_count(rows, r.event_id)
}

/// `r` with new answers and attendance, written at the instant `now`.
pub open spec fn rewritten(
    r: RegistrationView,
    answers: Seq<AnswerView>,
    attended: Option<bool>,
    now: i128,
) -> RegistrationView {
    RegistrationView { answers, attended, updated: now, ..r }
}

/// The table after the registration at index `k` got new answers and
/// attendance and then the position `new`, all at the instant `now`.
pub open spec fn updated_registration(
    rows: Rows,
    k: int,
    answers: Seq<AnswerView>,
    attended: Option<bool>,
    new: Option<u64>,
    now: i128,
) -> Rows {
    repositioned(rows.update(k, rewritten(rows[k], answers, attended, now)), k, new, now)
}

/// The registrations of event `e` that are for a user, in the order of the
/// table.
pub open spec fn registered_with_user(rows: Rows, e: EventId) -> Rows
    decreases rows.len(),
{
    if rows.len() == 0 {
        Seq::empty()
    } else if rows.last().event_id == e && rows.last().user is Some {
        registered_with_user(rows.drop_last(), e).push(rows.last())
    } else {
        registered_with_user(rows.drop_last(), e)
    }
}

/// The registrations of the user `u`, in the order of the table.
pub open spec fn registrations_of_user(rows: Rows, u: UserId) -> Rows
    decreases rows.len(),
{
    if rows.len() == 0 {
        Seq::empty()
    } else if rows.last().user == Some(u) {
        registrations_of_user(rows.drop_last(), u).push(rows.last())
    } else {
        registrations_of_user(rows.drop_last(), u)
    }
}

/// The users that the registrations of event `e` are for, in the order of
/// the table.
pub open spec fn registered_users(rows: Rows, e: EventId) -> Seq<UserId> {
    Seq::new(
        registered_with_user(rows, e).len(),
        |i: int| registered_with_user(rows, e)[i].user.unwrap(),
    )
}

/// One if `r` counts, zero if not.
pub open spec fn one_if(r: RegistrationView, e: EventId, queued: bool) -> int {
    if counts_as(r, e, queued) {
        1
    } else {
        0
    }
}

/// A count never exceeds the size of the table.
pub proof fn lemma_count_bounded(rows: Rows, e: EventId, queued: bool)
    ensures
        count_in(rows, e, queued) <= rows.len(),
    decreases rows.len(),
{
    if rows.len() > 0 {
        lemma_count_bounded(rows.drop_last(), e, queued);
    }
}

/// Two tables whose registrations count alike, place by place, have the same
/// count.
pub proof fn lemma_count_pointwise(a: Rows, b: Rows, e: EventId, queued: bool)
    requires
        a.len() == b.len(),
        forall|i: int|
            0 <= i < a.len() ==> counts_as(#[trigger] a[i], e, queued) == counts_as(
                b[i],
                e,
                queued,
            ),
    ensures
        count_in(a, e, queued) == count_in(b, e, queued),
    decreases a.len(),
{
    if a.len() > 0 {
        assert(counts_as(a[a.len() - 1], e, queued) == counts_as(b[a.len() - 1], e, queued));
        assert forall|i: int| 0 <= i < a.drop_last().len() implies counts_as(
            #[trigger] a.drop_last()[i],
            e,
            queued,
        ) == counts_as(b.drop_last()[i], e, queued) by {
            assert(a.drop_last()[i] == a[i]);
        }
        lemma_count_pointwise(a.drop_last(), b.drop_last(), e, queued);
    }
}

/// Replacing one registration changes a count by what the two are worth.
pub proof fn lemma_count_update(rows: Rows, k: int, r: RegistrationView, e: EventId, queued: bool)
    requires
        0 <= k < rows.len(),
    ensures
        count_in(rows.update(k, r), e, queued) == count_in(rows, e, queued) - one_if(
            rows[k],
            e,
            queued,
        ) + one_if(r, e, queued),
    decreases rows.len(),
{
    if k == rows.len() - 1 {
        assert(rows.update(k, r).drop_last() =~= rows.drop_last());
    } else {
        lemma_count_update(rows.drop_last(), k, r, e, queued);
        assert(rows.update(k, r).drop_last() =~= rows.drop_last().update(k, r));
    }
}

/// Taking one registration out lowers a count by what it is worth.
pub proof fn lemma_count_remove(rows: Rows, k: int, e: EventId, queued: bool)
    requires
        0 <= k < rows.len(),
    ensures
        count_in(rows.remove(k), e, queued) == count_in(rows, e, queued) - one_if(
            rows[k],
            e,
            queued,
        ),
    decreases rows.len(),
{
    if k == rows.len() - 1 {
        assert(rows.remove(k) =~= rows.drop_last());
    } else {
        lemma_count_remove(rows.drop_last(), k, e, queued);
        assert(rows.remove(k).drop_last() =~= rows.drop_last().remove(k));
        assert(rows.remove(k).last() == rows.last());
    }
}

/// Appending one registration raises a count by what it is worth.
pub proof fn lemma_count_push(rows: Rows, r: RegistrationView, e: EventId, queued: bool)
    ensures
        count_in(rows.push(r), e, queued) == count_in(rows, e, queued) + one_if(r, e, queued),
{
    assert(rows.push(r).drop_last() =~= rows);
}

/// Where a registration counts, the count is positive.
pub proof fn lemma_count_positive(rows: Rows, k: int, e: EventId, queued: bool)
    requires
        0 <= k < rows.len(),
        counts_as(rows[k], e, queued),
    ensures
        count_in(rows, e, queued) > 0,
    decreases rows.len(),
{
    if k < rows.len() - 1 {
        lemma_count_positive(rows.drop_last(), k, e, queued);
    }
}

/// A table that holds the same identities, place by place, as one without a
/// shared identity has none either.
pub proof fn lemma_same_ids(a: Rows, b: Rows)
    requires
        unique_ids(a),
        a.len() == b.len(),
        forall|i: int|
            0 <= i < a.len() ==> (#[trigger] b[i]).registration_id == a[i].registration_id,
    ensures
        unique_ids(b),
{
    assert forall|i: int, j: int| 0 <= i < j < b.len() implies (
    #[trigger] b[i]).registration_id != (#[trigger] b[j]).registration_id by {
        assert(a[i].registration_id != a[j].registration_id);
    }
}

/// Leaving the waiting list changes no identity.
pub proof fn lemma_removal_keeps_ids(rows: Rows, k: int)
    requires
        unique_ids(rows),
        0 <= k < rows.len(),
    ensures
        unique_ids(removed_from_waiting_list(rows, k)),
{
    lemma_same_ids(rows, removed_from_waiting_list(rows, k));
}

/// Taking a registration out leaves no shared identity behind.
pub proof fn lemma_remove_keeps_ids(rows: Rows, k: int)
    requires
        unique_ids(rows),
        0 <= k < rows.len(),
    ensures
        unique_ids(rows.remove(k)),
{
    let after = rows.remove(k);
    assert forall|i: int, j: int| 0 <= i < j < after.len() implies (
    #[trigger] after[i]).registration_id != (#[trigger] after[j]).registration_id by {
        let oi = if i < k {
            i
        } else {
            i + 1
        };
        let oj = if j < k {
            j
        } else {
            j + 1
        };
        assert(after[i] == rows[oi] && after[j] == rows[oj]);
    }
}

/// Appending a registration with an identity that the table lacks shares
/// none.
pub proof fn lemma_push_keeps_ids(rows: Rows, r: RegistrationView)
    requires
        unique_ids(rows),
        !has_registration(rows, r.registration_id),
    ensures
        unique_ids(rows.push(r)),
{
    let after = rows.push(r);
    assert forall|i: int, j: int| 0 <= i < j < after.len() implies (
    #[trigger] after[i]).registration_id != (#[trigger] after[j]).registration_id by {
        assert(after[i] == rows[i]);
        if j < rows.len() {
            assert(after[j] == rows[j]);
        }
    }
}

/// Deleting a registration leaves no shared identity behind.
pub proof fn lemma_deletion_keeps_ids(rows: Rows, k: int)
    requires
        unique_ids(rows),
        0 <= k < rows.len(),
    ensures
        unique_ids(deleted(rows, k)),
{
    if rows[k].waiting_list_position is Some {
        lemma_removal_keeps_ids(rows, k);
        lemma_remove_keeps_ids(removed_from_waiting_list(rows, k), k);
    } else {
        let rebalanced = with_head_promoted(rows, rows[k].event_id);
        lemma_same_ids(rows, rebalanced);
        lemma_remove_keeps_ids(rebalanced, k);
    }
}

/// Updating a registration changes no identity.
pub proof fn lemma_update_keeps_ids(
    rows: Rows,
    k: int,
    answers: Seq<AnswerView>,
    attended: Option<bool>,
    new: Option<u64>,
    now: i128,
)
    requires
        unique_ids(rows),
        0 <= k < rows.len(),
    ensures
        unique_ids(updated_registration(rows, k, answers, attended, new, now)),
{
    let written = rows.update(k, rewritten(rows[k], answers, attended, now));
    lemma_same_ids(rows, written);
    lemma_same_ids(written, repositioned(written, k, new, now));
}

/// In a table without a shared identity, the registration with a given
/// identity has one place.
pub proof fn lemma_index_of(rows: Rows, k: int)
    requires
        unique_ids(rows),
        0 <= k < rows.len(),
    ensures
        has_registration(rows, rows[k].registration_id),
        index_of(rows, rows[k].registration_id) == k,
{
    let c = index_of(rows, rows[k].registration_id);
    if c < k {
        assert(rows[c].registration_id != rows[k].registration_id);
    } else if k < c {
        assert(rows[k].registration_id != rows[c].registration_id);
    }
}

} // verus!
