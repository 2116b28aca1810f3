//! What holds of the engine whatever is asked of it.
//!
//! Each law is a proof about the functions that say what creating, updating
//! and deleting a registration does to the table.

use vstd::prelude::*;
use vstd::set_lib::set_int_range;
use crate::api::event::{create_outcome, creates, deletes, update_outcome, updates};
use crate::auth::gate::tier_of;
use crate::auth::session::Session;
use crate::data_source::density::{
    lemma_deletion, lemma_dense_has_position, lemma_dense_positions, lemma_move_to_front,
    lemma_move_to_tail, lemma_push, lemma_removal, lemma_reposition, lemma_rewrite,
};
use crate::data_source::event::{
    new_row, repositions,
};
use crate::data_source::queue::{
    deleted, dense, front_blocked, index_of, joins_at_tail, lemma_count_bounded,
    lemma_count_pointwise, lemma_count_push, lemma_count_update, may_reposition, moved_to_front,
    moved_to_tail, placed, positions, promoted, queued_in, registration_count,
    removed_from_waiting_list, repositioned, rewritten, stepped_back, storable, waiting_list_count,
    with_head_promoted, Rows,
};
use crate::error::AppResult;
use crate::wire::committee::UserCommittee;
use crate::wire::event::{
    answers_view, EventContent, EventId, NewRegistration, Registration, RegistrationId,
    RegistrationView,
};

verus! {

/// One request to the engine, with all that decided it and the answer it
/// got.
pub enum Request {
    Create {
        actor: Option<Session>,
        terms: Seq<UserCommittee>,
        event_id: EventId,
        event: EventContent,
        new: NewRegistration,
        registration_id: RegistrationId,
        now: i128,
        created: AppResult<Registration>,
    },
    Update {
        session: Session,
        terms: Seq<UserCommittee>,
        event_id: EventId,
        event: EventContent,
        registration_id: RegistrationId,
        updated: NewRegistration,
        now: i128,
        written: AppResult<Registration>,
    },
    Delete {
        session: Session,
        terms: Seq<UserCommittee>,
        event_id: EventId,
        event: EventContent,
        registration_id: RegistrationId,
        now: i128,
        done: AppResult<()>,
    },
}

/// Whether `request` takes the table from `before` to `after`.
pub open spec fn serves(before: Rows, after: Rows, request: Request) -> bool {
    match request {
        Request::Create {
            actor,
            terms,
            event_id,
            event,
            new,
            registration_id,
            now,
            created,
        } => creates(
            before,
            after,
            created,
            actor,
            terms,
            event_id,
            event,
            new,
            registration_id,
            now,
        ),
        Request::Update {
            session,
            terms,
            event_id,
            event,
            registration_id,
            updated,
            now,
            written,
        } => updates(
            before,
            after,
            written,
            session,
            terms,
            event_id,
            event,
            registration_id,
            updated,
            now,
        ),
        Request::Delete { session, terms, event_id, event, registration_id, now, done } => deletes(
            before,
            after,
            done,
            session,
            terms,
            event_id,
            event,
            registration_id,
            now,
        ),
    }
}

/// Whether `tables` is a history of the store: it starts empty, each table
/// comes from the one before by the request of the same place, and a store
/// can hold each.
pub open spec fn history(tables: Seq<Rows>, requests: Seq<Request>) -> bool {
    &&& tables.len() == requests.len() + 1
    &&& tables[0] == Rows::empty()
    &&& forall|i: int|
        0 <= i < requests.len() ==> serves(tables[i], #[trigger] tables[i + 1], requests[i])
    &&& forall|i: int| 0 <= i < tables.len() ==> storable(#[trigger] tables[i])
}

/// Creating a registration keeps a dense waiting list dense.
pub proof fn lemma_create_keeps_dense(
    before: Rows,
    after: Rows,
    res: AppResult<Registration>,
    session: Option<Session>,
    terms: Seq<UserCommittee>,
    event_id: EventId,
    event: EventContent,
    new: NewRegistration,
    registration_id: RegistrationId,
    now: i128,
    e: EventId,
)
    requires
        creates(before, after, res, session, terms, event_id, event, new, registration_id, now),
        storable(before),
        dense(before, e),
    ensures
        dense(after, e),
{
    if res is Ok {
        lemma_count_bounded(before, event_id, true);
        let position = create_outcome(before, session, terms, event_id, event, new, now).unwrap();
        let row = new_row(
            registration_id,
            event_id,
            new.user_id,
            NewRegistration { waiting_list_position: position, ..new },
            now,
        );
        assert(joins_at_tail(before, row));
        lemma_push(before, row, e);
    }
}

/// Updating a registration keeps a dense waiting list dense.
pub proof fn lemma_update_keeps_dense(
    before: Rows,
    after: Rows,
    res: AppResult<Registration>,
    session: Session,
    terms: Seq<UserCommittee>,
    event_id: EventId,
    event: EventContent,
    registration_id: RegistrationId,
    updated: NewRegistration,
    now: i128,
    e: EventId,
)
    requires
        updates(before, after, res, session, terms, event_id, event, registration_id, updated, now),
        storable(before),
        dense(before, e),
    ensures
        dense(after, e),
{
    if res is Ok {
        let k = index_of(before, registration_id);
        let (position, attended) = update_outcome(
            before,
            session,
            terms,
            event_id,
            event,
            registration_id,
            updated,
            now,
        ).unwrap();
        let answers = answers_view(updated.answers@);
        let written = before.update(k, rewritten(before[k], answers, attended, now));
        lemma_rewrite(before, k, answers, attended, now, e);
        lemma_reposition(written, k, position, now, e);
    }
}

/// Deleting a registration keeps a dense waiting list dense.
pub proof fn lemma_delete_keeps_dense(
    before: Rows,
    after: Rows,
    res: AppResult<()>,
    session: Session,
    terms: Seq<UserCommittee>,
    event_id: EventId,
    event: EventContent,
    registration_id: RegistrationId,
    now: i128,
    e: EventId,
)
    requires
        deletes(before, after, res, session, terms, event_id, event, registration_id, now),
        dense(before, e),
    ensures
        dense(after, e),
{
    if res is Ok {
        lemma_deletion(before, index_of(before, registration_id), e);
    }
}

/// After any sequence of requests to create, update and delete
/// registrations, the positions on the waiting list of any event are exactly
/// `0` to `n - 1`, where `n` is the length of the list, and no two of its
/// registrations share one.
pub proof fn lemma_queue_density(tables: Seq<Rows>, requests: Seq<Request>, e: EventId, at: int)
    requires
        history(tables, requests),
        0 <= at < tables.len(),
    ensures
        dense(tables[at], e),
        positions(tables[at], e) == set_int_range(0, waiting_list_count(tables[at], e) as int),
    decreases at,
{
    if at == 0 {
        assert(dense(tables[0], e));
    } else {
        lemma_queue_density(tables, requests, e, at - 1);
        let before = tables[at - 1];
        let after = tables[at - 1 + 1];
        assert(serves(before, after, requests[at - 1]));
        assert(storable(before));
        match requests[at - 1] {
            Request::Create {
                actor,
                terms,
                event_id,
                event,
                new,
                registration_id,
                now,
                created,
            } => {
                lemma_create_keeps_dense(
                    before,
                    after,
                    created,
                    actor,
                    terms,
                    event_id,
                    event,
                    new,
                    registration_id,
                    now,
                    e,
                );
            },
            Request::Update {
                session,
                terms,
                event_id,
                event,
                registration_id,
                updated,
                now,
                written,
            } => {
                lemma_update_keeps_dense(
                    before,
                    after,
                    written,
                    session,
                    terms,
                    event_id,
                    event,
                    registration_id,
                    updated,
                    now,
                    e,
                );
            },
            Request::Delete { session, terms, event_id, event, registration_id, now, done } => {
                lemma_delete_keeps_dense(
                    before,
                    after,
                    done,
                    session,
                    terms,
                    event_id,
                    event,
                    registration_id,
                    now,
                    e,
                );
            },
        }
    }
    lemma_dense_positions(tables[at], e);
}

/// Where an event bounds its confirmed seats and they are within the bound,
/// they are still within it after an actor who is not privileged has created
/// a registration.
pub proof fn lemma_confirmed_capacity_bound(
    before: Rows,
    after: Rows,
    res: AppResult<Registration>,
    session: Option<Session>,
    terms: Seq<UserCommittee>,
    event_id: EventId,
    event: EventContent,
    new: NewRegistration,
    registration_id: RegistrationId,
    now: i128,
)
    requires
        creates(before, after, res, session, terms, event_id, event, new, registration_id, now),
        !tier_of(session, terms, event.created_by, new.user_id).is_privileged(),
        event.registration_max matches Some(max) && registration_count(before, event_id) <= max,
    ensures
        event.registration_max matches Some(max) && registration_count(after, event_id) <= max,
{
    if res is Ok {
        let created = res.unwrap();
        lemma_count_push(before, created@, event_id, false);
    }
}

/// Where an event bounds its waiting list and the list is within the bound,
/// it is still within it after an actor who is not privileged has created a
/// registration.
pub proof fn lemma_waiting_list_bound(
    before: Rows,
    after: Rows,
    res: AppResult<Registration>,
    session: Option<Session>,
    terms: Seq<UserCommittee>,
    event_id: EventId,
    event: EventContent,
    new: NewRegistration,
    registration_id: RegistrationId,
    now: i128,
)
    requires
        creates(before, after, res, session, terms, event_id, event, new, registration_id, now),
        !tier_of(session, terms, event.created_by, new.user_id).is_privileged(),
        event.waiting_list_max matches Some(max) && waiting_list_count(before, event_id) <= max,
    ensures
        event.waiting_list_max matches Some(max) && waiting_list_count(after, event_id) <= max,
{
    if res is Ok {
        let created = res.unwrap();
        lemma_count_push(before, created@, event_id, true);
    }
}

/// Where an event does not bound its confirmed seats, a registration that an
/// actor who is not privileged creates holds a confirmed seat.
pub proof fn lemma_no_waiting_list_without_bound(
    before: Rows,
    after: Rows,
    res: AppResult<Registration>,
    session: Option<Session>,
    terms: Seq<UserCommittee>,
    event_id: EventId,
    event: EventContent,
    new: NewRegistration,
    registration_id: RegistrationId,
    now: i128,
)
    requires
        creates(before, after, res, session, terms, event_id, event, new, registration_id, now),
        !tier_of(session, terms, event.created_by, new.user_id).is_privileged(),
        event.registration_max is None,
    ensures
        res matches Ok(created) ==> created@.waiting_list_position is None,
{
}

/// Deleting a confirmed registration while the waiting list of its event is
/// dense and not empty gives the confirmed seat to the one registration at
/// position 0 and moves every other registration on the list up by one.
/// Nothing else changes.
pub proof fn lemma_promotion_on_departure(rows: Rows, k: int) -> (head: int)
    requires
        0 <= k < rows.len(),
        rows[k].waiting_list_position is None,
        dense(rows, rows[k].event_id),
        waiting_list_count(rows, rows[k].event_id) > 0,
    ensures
        0 <= head < rows.len(),
        head != k,
        queued_in(rows[head], rows[k].event_id),
        rows[head].waiting_list_position == Some(0u64),
        forall|i: int|
            0 <= i < rows.len() && queued_in(#[trigger] rows[i], rows[k].event_id)
                && rows[i].waiting_list_position == Some(0u64) ==> i == head,
        deleted(rows, k) == with_head_promoted(rows, rows[k].event_id).remove(k),
        forall|i: int|
            0 <= i < rows.len() ==> #[trigger] with_head_promoted(rows, rows[k].event_id)[i]
                == if i == head {
                promoted(rows[i])
            } else if queued_in(rows[i], rows[k].event_id) {
                RegistrationView {
                    waiting_list_position: Some(
                        (rows[i].waiting_list_position.unwrap() - 1) as u64,
                    ),
                    ..rows[i]
                }
            } else {
                rows[i]
            },
{
    let e = rows[k].event_id;
    let head = lemma_dense_has_position(rows, e, 0);
    assert forall|i: int|
        0 <= i < rows.len() && queued_in(#[trigger] rows[i], e) && rows[i].waiting_list_position
            == Some(0u64) implies i == head by {
        if i < head {
            assert(rows[i].waiting_list_position != rows[head].waiting_list_position);
        } else if head < i {
            assert(rows[head].waiting_list_position != rows[i].waiting_list_position);
        }
    }
    head
}

/// An update by an actor who is not privileged changes neither the position
/// nor the attendance of any registration, whatever position and attendance
/// it asks for.
pub proof fn lemma_self_reposition_immutability(
    before: Rows,
    after: Rows,
    res: AppResult<Registration>,
    session: Session,
    terms: Seq<UserCommittee>,
    event_id: EventId,
    event: EventContent,
    registration_id: RegistrationId,
    updated: NewRegistration,
    now: i128,
)
    requires
        updates(before, after, res, session, terms, event_id, event, registration_id, updated, now),
        !tier_of(
            Some(session),
            terms,
            event.created_by,
            before[index_of(before, registration_id)].user,
        ).is_privileged(),
    ensures
        after.len() == before.len(),
        forall|i: int|
            0 <= i < before.len() ==> (#[trigger] after[i]).waiting_list_position
                == before[i].waiting_list_position && after[i].attended == before[i].attended,
{
}

/// Giving a registration the position it has is allowed and changes
/// nothing: no registration moves.
pub proof fn lemma_reposition_to_current(rows: Rows, k: int, now: i128)
    requires
        0 <= k < rows.len(),
    ensures
        may_reposition(rows, k, rows[k].waiting_list_position),
        repositioned(rows, k, rows[k].waiting_list_position, now) == rows,
{
}

/// Whether the request was rejected.
pub open spec fn rejected(request: Request) -> bool {
    match request {
        Request::Create { created, .. } => created is Err,
        Request::Update { written, .. } => written is Err,
        Request::Delete { done, .. } => done is Err,
    }
}

/// A request that is rejected changes nothing: the table is as it was, and
/// with it every count and every position.
pub proof fn lemma_rejection_changes_nothing(before: Rows, after: Rows, request: Request)
    requires
        serves(before, after, request),
        rejected(request),
    ensures
        after == before,
{
}

/// The place that the registration at index `i` has once the registration at
/// index `k` is deleted.
pub open spec fn place_after_deletion(i: int, k: int) -> int {
    if i < k {
        i
    } else {
        i - 1
    }
}

/// Deleting a registration does not change who waits before whom: of two
/// other registrations on a dense waiting list, the one that stood behind
/// still waits, and still stands behind the other unless the other got a
/// confirmed seat.
pub proof fn lemma_departure_keeps_order(rows: Rows, k: int, i: int, j: int)
    requires
        0 <= k < rows.len(),
        0 <= i < rows.len(),
        0 <= j < rows.len(),
        i != k,
        j != k,
        rows[i].event_id == rows[j].event_id,
        dense(rows, rows[i].event_id),
        rows[i].waiting_list_position is Some,
        rows[j].waiting_list_position is Some,
        rows[i].waiting_list_position.unwrap() < rows[j].waiting_list_position.unwrap(),
    ensures
        deleted(rows, k)[place_after_deletion(i, k)].registration_id == rows[i].registration_id,
        deleted(rows, k)[place_after_deletion(j, k)].registration_id == rows[j].registration_id,
        deleted(rows, k)[place_after_deletion(j, k)].waiting_list_position is Some,
        deleted(rows, k)[place_after_deletion(i, k)].waiting_list_position matches Some(front)
            ==> front < deleted(rows, k)[place_after_deletion(
            j,
            k,
        )].waiting_list_position.unwrap(),
{
    let e = rows[i].event_id;
    assert(queued_in(rows[i], e) && queued_in(rows[j], e));
    if rows[k].waiting_list_position is Some {
        let removed = removed_from_waiting_list(rows, k);
        assert(deleted(rows, k)[place_after_deletion(i, k)] == removed[i]);
        assert(deleted(rows, k)[place_after_deletion(j, k)] == removed[j]);
        if rows[k].event_id == e {
            assert(queued_in(rows[k], e));
            if i < k {
                assert(rows[i].waiting_list_position != rows[k].waiting_list_position);
            } else {
                assert(rows[k].waiting_list_position != rows[i].waiting_list_position);
            }
            if j < k {
                assert(rows[j].waiting_list_position != rows[k].waiting_list_position);
            } else {
                assert(rows[k].waiting_list_position != rows[j].waiting_list_position);
            }
        }
    } else {
        let rebalanced = with_head_promoted(rows, rows[k].event_id);
        assert(deleted(rows, k)[place_after_deletion(i, k)] == rebalanced[i]);
        assert(deleted(rows, k)[place_after_deletion(j, k)] == rebalanced[j]);
    }
}

/// Whoever joins the waiting list joins behind everybody: a registration
/// that is created onto a dense waiting list gets a position above that of
/// every registration that waits there already.
pub proof fn lemma_newcomer_waits_last(
    before: Rows,
    after: Rows,
    res: AppResult<Registration>,
    session: Option<Session>,
    terms: Seq<UserCommittee>,
    event_id: EventId,
    event: EventContent,
    new: NewRegistration,
    registration_id: RegistrationId,
    now: i128,
    i: int,
)
    requires
        creates(before, after, res, session, terms, event_id, event, new, registration_id, now),
        storable(before),
        dense(before, event_id),
        0 <= i < before.len(),
        queued_in(before[i], event_id),
    ensures
        res matches Ok(created) ==> (created@.waiting_list_position matches Some(position)
            ==> before[i].waiting_list_position.unwrap() < position),
        res is Ok ==> after[i] == before[i],
{
    lemma_count_bounded(before, event_id, true);
}

/// Giving a registration a position keeps a dense waiting list dense,
/// whatever position the store accepts: the front, the tail, none, or its
/// own.
pub proof fn lemma_reposition_keeps_dense(
    before: Rows,
    after: Rows,
    res: AppResult<()>,
    registration_id: RegistrationId,
    new: Option<u64>,
    now: i128,
    e: EventId,
)
    requires
        repositions(before, after, res, registration_id, new, now),
        storable(before),
        dense(before, e),
    ensures
        dense(after, e),
{
    if res is Ok {
        lemma_reposition(before, index_of(before, registration_id), new, now, e);
    }
}

/// A registration that takes the front of a dense waiting list holds
/// position 0 alone, those that stood before it stand one place further
/// back, and everybody else stands where they stood. The list is as long as
/// it was, or longer by one if the registration came from a confirmed seat.
pub proof fn lemma_front_is_held_alone(rows: Rows, k: int, now: i128)
    requires
        0 <= k < rows.len(),
        storable(rows),
        dense(rows, rows[k].event_id),
        rows[k].waiting_list_position != Some(0u64),
    ensures
        repositioned(rows, k, Some(0u64), now) == moved_to_front(rows, k, now),
        moved_to_front(rows, k, now)[k].waiting_list_position == Some(0u64),
        forall|i: int|
            0 <= i < rows.len() && i != k && queued_in(
                #[trigger] moved_to_front(rows, k, now)[i],
                rows[k].event_id,
            ) ==> moved_to_front(rows, k, now)[i].waiting_list_position != Some(0u64),
        forall|i: int|
            0 <= i < rows.len() && i != k ==> #[trigger] moved_to_front(rows, k, now)[i]
                == stepped_back(rows[i], rows[k].event_id, rows[k].waiting_list_position),
        waiting_list_count(moved_to_front(rows, k, now), rows[k].event_id) == waiting_list_count(
            rows,
            rows[k].event_id,
        ) + if rows[k].waiting_list_position is None {
            1int
        } else {
            0int
        },
        dense(moved_to_front(rows, k, now), rows[k].event_id),
{
    let e = rows[k].event_id;
    let after = moved_to_front(rows, k, now);
    lemma_move_to_front(rows, k, now, e);
    assert(queued_in(after[k], e));
    assert forall|i: int| 0 <= i < rows.len() && i != k && queued_in(
        #[trigger] after[i],
        e,
    ) implies after[i].waiting_list_position != Some(0u64) by {
        if i < k {
            assert(after[i].waiting_list_position != after[k].waiting_list_position);
        } else {
            assert(after[k].waiting_list_position != after[i].waiting_list_position);
        }
    }
    let stepped = Seq::new(
        rows.len(),
        |i: int| stepped_back(rows[i], e, rows[k].waiting_list_position),
    );
    let front = placed(promoted(rows[k]), 0, now);
    assert(after =~= stepped.update(k, front));
    lemma_count_pointwise(rows, stepped, e, true);
    lemma_count_update(stepped, k, front, e, true);
    assert(stepped[k] == rows[k]);
}

/// A registration that takes the tail of a dense waiting list stands behind
/// everybody who waits: it holds the length that the list has without it.
pub proof fn lemma_tail_is_behind_everybody(rows: Rows, k: int, now: i128, i: int)
    requires
        0 <= k < rows.len(),
        0 <= i < rows.len(),
        i != k,
        storable(rows),
        dense(rows, rows[k].event_id),
        queued_in(moved_to_tail(rows, k, now)[i], rows[k].event_id),
    ensures
        moved_to_tail(rows, k, now)[k].waiting_list_position is Some,
        moved_to_tail(rows, k, now)[i].waiting_list_position.unwrap() < moved_to_tail(
            rows,
            k,
            now,
        )[k].waiting_list_position.unwrap(),
        dense(moved_to_tail(rows, k, now), rows[k].event_id),
{
    let e = rows[k].event_id;
    let removed = removed_from_waiting_list(rows, k);
    if rows[k].waiting_list_position is Some {
        lemma_removal(rows, k, e);
    }
    lemma_count_bounded(removed, e, true);
    lemma_move_to_tail(rows, k, now, e);
    assert(queued_in(removed[i], e));
}

/// The front of a dense waiting list is never blocked: nobody on it waits
/// at the largest position that can be written.
pub proof fn lemma_dense_front_is_free(rows: Rows, k: int, new: Option<u64>)
    requires
        0 <= k < rows.len(),
        storable(rows),
        dense(rows, rows[k].event_id),
    ensures
        !front_blocked(rows, k, new),
{
    lemma_count_bounded(rows, rows[k].event_id, true);
}

} // verus!
