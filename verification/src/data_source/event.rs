//! The store of registrations and the operations on its waiting lists.
//!
//! Each operation does to the table what its contract says and keeps a
//! dense waiting list dense: leaving the list, taking its front or its tail,
//! and deleting. Writing a new registration does so for one that holds a
//! confirmed seat or joins at the tail, as `joins_at_tail` says.

use vstd::prelude::*;
use crate::clock::now_utc;
use crate::data_source::density::{
    lemma_deletion, lemma_push, lemma_removal, lemma_reposition, lemma_rewrite,
};
use crate::data_source::queue::{
    closed_up, count_in, deleted, dense, front_blocked, has_registration, head_promoted, index_of,
    joins_at_tail, lemma_deletion_keeps_ids, lemma_index_of, lemma_push_keeps_ids,
    lemma_removal_keeps_ids, lemma_same_ids, lemma_update_keeps_ids, may_reposition, moved_to_front,
    moved_to_tail, promoted, queued_in, registered_users, registered_with_user, registration_count,
    registrations_of_user, removed_from_waiting_list, repositioned, rewritten, stepped_back,
    unique_ids, updated_registration, waiting_list_count, with_head_promoted, Rows,
};
use crate::error::{AppResult, Error};
use crate::identifier::fresh_uuid;
use crate::wire::event::{
    answers_view, Event, EventContent, EventId, NewRegistration, Registration, RegistrationId,
    RegistrationView,
};
use crate::wire::user::UserId;

verus! {

/// The registrations of all events.
///
/// No two registrations of a store share an identity.
pub struct EventStore {
    registrations: Vec<Registration>,
}

/// A table of registrations as a mathematical value.
pub open spec fn rows_view(registrations: Seq<Registration>) -> Rows {
    Seq::new(registrations.len(), |i: int| registrations[i]@)
}

impl View for EventStore {
    type V = Rows;

    closed spec fn view(&self) -> Rows {
        rows_view(self.registrations@)
    }
}

/// The registration that [`EventStore::insert`] writes.
pub open spec fn new_row(
    registration_id: RegistrationId,
    event_id: EventId,
    user: Option<UserId>,
    new: NewRegistration,
    now: i128,
) -> RegistrationView {
    RegistrationView {
        registration_id,
        event_id,
        user,
        attended: None,
        waiting_list_position: new.waiting_list_position,
        answers: answers_view(new.answers@),
        created: now,
        updated: now,
    }
}

/// What writing a registration under the identity `registration_id` at the
/// instant `now` does to the table `before`: `after` is the table and `res`
/// the answer.
///
/// An identity that the table lacks is written at its end, with the event,
/// the user, the answers and the position given. One that the table holds is
/// refused with `Internal`, and the table stays as it is.
pub open spec fn inserts(
    before: Rows,
    after: Rows,
    res: AppResult<Registration>,
    registration_id: RegistrationId,
    event_id: EventId,
    user: Option<UserId>,
    new: NewRegistration,
    now: i128,
) -> bool {
    match res {
        Ok(created) => {
            &&& !has_registration(before, registration_id)
            &&& created@ == new_row(registration_id, event_id, user, new, now)
            &&& after == before.push(created@)
        },
        Err(e) => {
            &&& e == Error::Internal
            &&& has_registration(before, registration_id)
            &&& after == before
        },
    }
}

/// Gives the registration at index `k`, which is on the waiting list, a
/// confirmed seat and closes the gap it leaves.
fn leave_waiting_list(registrations: &mut Vec<Registration>, k: usize) -> (position: u64)
    requires
        k < old(registrations)@.len(),
        old(registrations)@[k as int].waiting_list_position is Some,
    ensures
        Some(position) == old(registrations)@[k as int].waiting_list_position,
        rows_view(final(registrations)@) == removed_from_waiting_list(
            rows_view(old(registrations)@),
            k as int,
        ),
{
    let ghost before = rows_view(registrations@);
    let p = registrations[k].waiting_list_position.unwrap();
    let event_id = registrations[k].event_id;
    registrations[k].waiting_list_position = None;
    let mut i: usize = 0;
    while i < registrations.len()
        invariant
            k < before.len(),
            before[k as int].event_id == event_id,
            registrations@.len() == before.len(),
            i <= registrations@.len(),
            forall|j: int|
                0 <= j < before.len() ==> (#[trigger] registrations@[j])@ == if j == k {
                    promoted(before[j])
                } else if j < i {
                    closed_up(before[j], event_id, p)
                } else {
                    before[j]
                },
        decreases registrations@.len() - i,
    {
        if i != k && registrations[i].event_id == event_id {
            match registrations[i].waiting_list_position {
                Some(q) => {
                    if q > p {
                        registrations[i].waiting_list_position = Some(q - 1);
                    }
                },
                None => {},
            }
        }
        i += 1;
    }
    assert(rows_view(registrations@) =~= removed_from_waiting_list(before, k as int));
    p
}

/// Gives the head of the waiting list of `event_id` a confirmed seat and
/// moves the rest of the list up by one.
fn promote_head(registrations: &mut Vec<Registration>, event_id: EventId)
    ensures
        rows_view(final(registrations)@) == with_head_promoted(
            rows_view(old(registrations)@),
            event_id,
        ),
{
    let ghost before = rows_view(registrations@);
    let mut i: usize = 0;
    while i < registrations.len()
        invariant
            registrations@.len() == before.len(),
            i <= registrations@.len(),
            forall|j: int|
                0 <= j < before.len() ==> (#[trigger] registrations@[j])@ == if j < i {
                    head_promoted(before[j], event_id)
                } else {
                    before[j]
                },
        decreases registrations@.len() - i,
    {
        if registrations[i].event_id == event_id {
            match registrations[i].waiting_list_position {
                Some(q) => {
                    if q == 0 {
                        registrations[i].waiting_list_position = None;
                    } else {
                        registrations[i].waiting_list_position = Some(q - 1);
                    }
                },
                None => {},
            }
        }
        i += 1;
    }
    assert(rows_view(registrations@) =~= with_head_promoted(before, event_id));
}

/// Counts the registrations of `event_id` that are on its waiting list
/// (`queued`) or hold a confirmed seat (`!queued`).
fn count_registrations(
    registrations: &Vec<Registration>,
    event_id: &EventId,
    queued: bool,
) -> (count: u64)
    ensures
        count == count_in(rows_view(registrations@), *event_id, queued),
{
    let ghost rows = rows_view(registrations@);
    let mut count: usize = 0;
    let mut i: usize = 0;
    while i < registrations.len()
        invariant
            rows == rows_view(registrations@),
            i <= registrations@.len(),
            count <= i,
            count == count_in(rows.take(i as int), *event_id, queued),
        decreases registrations@.len() - i,
    {
        assert(rows.take(i + 1).drop_last() =~= rows.take(i as int));
        assert(rows.take(i + 1).last() == rows[i as int]);
        let is_queued = registrations[i].waiting_list_position.is_some();
        if registrations[i].event_id == *event_id && is_queued == queued {
            count += 1;
        }
        i += 1;
    }
    assert(rows.take(i as int) =~= rows);
    count as u64
}

/// Why the store refuses to give the registration at index `k` the
/// position `new`, if it does: a position that [`may_reposition`] does not
/// admit is `CannotReorderArbitrarily`; a front that is blocked is
/// `Internal`.
pub open spec fn reposition_outcome(rows: Rows, k: int, new: Option<u64>) -> Result<(), Error> {
    if !may_reposition(rows, k, new) {
        Err(Error::CannotReorderArbitrarily)
    } else if front_blocked(rows, k, new) {
        Err(Error::Internal)
    } else {
        Ok(())
    }
}

/// What giving the registration with the identity `registration_id` the
/// position `new` at the instant `now` does to the table `before`: `after`
/// is the table and `res` the answer.
///
/// A table without the registration answers `NotFound`, a position that is
/// refused answers as [`reposition_outcome`] says, and both leave the table
/// as it is. Any other request succeeds, and the table is then
/// [`repositioned`].
pub open spec fn repositions(
    before: Rows,
    after: Rows,
    res: AppResult<()>,
    registration_id: RegistrationId,
    new: Option<u64>,
    now: i128,
) -> bool {
    let k = index_of(before, registration_id);
    if !has_registration(before, registration_id) {
        res == Err::<(), Error>(Error::NotFound) && after == before
    } else {
        match reposition_outcome(before, k, new) {
            Err(e) => res == Err::<(), Error>(e) && after == before,
            Ok(_) => res is Ok && after == repositioned(before, k, new, now),
        }
    }
}

/// What giving the registration with the identity `registration_id` the
/// answers, the attendance and the position of `updated` at the instant
/// `now` does to the table `before`: `after` is the table and `res` the
/// answer.
///
/// A table without the registration answers `NotFound`, a position that is
/// refused answers as [`reposition_outcome`] says, and both leave the table
/// as it is. Any other request succeeds: the registration is rewritten and
/// then repositioned, and `res` is the registration as it then stands.
pub open spec fn rewrites(
    before: Rows,
    after: Rows,
    res: AppResult<Registration>,
    registration_id: RegistrationId,
    updated: NewRegistration,
    now: i128,
) -> bool {
    let k = index_of(before, registration_id);
    if !has_registration(before, registration_id) {
        res == Err::<Registration, Error>(Error::NotFound) && after == before
    } else {
        match reposition_outcome(before, k, updated.waiting_list_position) {
            Err(e) => res == Err::<Registration, Error>(e) && after == before,
            Ok(_) => {
                &&& res matches Ok(written)
                &&& after == updated_registration(
                    before,
                    k,
                    answers_view(updated.answers@),
                    updated.attended,
                    updated.waiting_list_position,
                    now,
                )
                &&& written@ == after[k]
            },
        }
    }
}

/// Whether a registration of `event_id` waits at the largest position that
/// can be written.
fn holds_largest_position(registrations: &Vec<Registration>, event_id: &EventId) -> (found: bool)
    ensures
        found == exists|i: int|
            0 <= i < registrations@.len() && queued_in(
                #[trigger] rows_view(registrations@)[i],
                *event_id,
            ) && rows_view(registrations@)[i].waiting_list_position == Some(u64::MAX),
{
    let ghost rows = rows_view(registrations@);
    let mut i: usize = 0;
    while i < registrations.len()
        invariant
            rows == rows_view(registrations@),
            i <= registrations@.len(),
            forall|j: int|
                0 <= j < i ==> !(queued_in(#[trigger] rows[j], *event_id)
                    && rows[j].waiting_list_position == Some(u64::MAX)),
        decreases registrations@.len() - i,
    {
        if registrations[i].event_id == *event_id {
            match registrations[i].waiting_list_position {
                Some(q) => {
                    if q == u64::MAX {
                        assert(queued_in(rows[i as int], *event_id));
                        return true;
                    }
                },
                None => {},
            }
        }
        i += 1;
    }
    false
}

/// Why the registration at index `k` cannot be given the position `new`, if
/// it cannot: see [`reposition_outcome`].
fn reposition_refused(registrations: &Vec<Registration>, k: usize, new: Option<u64>) -> (refused:
    Option<Error>)
    requires
        k < registrations@.len(),
    ensures
        refused == match reposition_outcome(rows_view(registrations@), k as int, new) {
            Ok(_) => None::<Error>,
            Err(e) => Some(e),
        },
{
    let ghost rows = rows_view(registrations@);
    assert(rows[k as int] == registrations@[k as int]@);
    let current = registrations[k].waiting_list_position;
    match new {
        None => None,
        Some(position) => {
            let same = match current {
                Some(own) => own == position,
                None => false,
            };
            if same {
                return None;
            }
            let event_id = registrations[k].event_id;
            let count = count_registrations(registrations, &event_id, true);
            if !(position == 0 || (count > 0 && position == count - 1)) {
                return Some(Error::CannotReorderArbitrarily);
            }
            if position == 0 && current.is_none() && holds_largest_position(
                registrations,
                &event_id,
            ) {
                return Some(Error::Internal);
            }
            None
        },
    }
}

/// Moves back by one those that stand before the registration at index `k`
/// on the waiting list of its event: all who wait there, if it holds a
/// confirmed seat.
fn make_room_at_front(registrations: &mut Vec<Registration>, k: usize)
    requires
        k < old(registrations)@.len(),
        !front_blocked(rows_view(old(registrations)@), k as int, Some(0u64)),
    ensures
        final(registrations)@.len() == old(registrations)@.len(),
        forall|i: int|
            0 <= i < old(registrations)@.len() ==> (#[trigger] final(registrations)@[i])@ == if i
                == k {
                old(registrations)@[i]@
            } else {
                stepped_back(
                    old(registrations)@[i]@,
                    old(registrations)@[k as int].event_id,
                    old(registrations)@[k as int].waiting_list_position,
                )
            },
{
    let ghost before = rows_view(registrations@);
    assert(before[k as int] == registrations@[k as int]@);
    let event_id = registrations[k].event_id;
    let left = registrations[k].waiting_list_position;
    let mut i: usize = 0;
    while i < registrations.len()
        invariant
            k < before.len(),
            before[k as int].event_id == event_id,
            before[k as int].waiting_list_position == left,
            !front_blocked(before, k as int, Some(0u64)),
            registrations@.len() == before.len(),
            i <= registrations@.len(),
            forall|j: int|
                0 <= j < before.len() ==> (#[trigger] registrations@[j])@ == if j == k || j >= i {
                    before[j]
                } else {
                    stepped_back(before[j], event_id, left)
                },
        decreases registrations@.len() - i,
    {
        if i != k && registrations[i].event_id == event_id {
            match registrations[i].waiting_list_position {
                Some(q) => {
                    let before_it = match left {
                        Some(p) => q < p,
                        None => true,
                    };
                    if before_it {
                        assert(q < u64::MAX) by {
                            assert(registrations@[i as int]@ == before[i as int]);
                            if left is None {
                                assert(queued_in(before[i as int], event_id));
                            }
                        }
                        registrations[i].waiting_list_position = Some(q + 1);
                    }
                },
                None => {},
            }
        }
        i += 1;
    }
}

/// Gives the registration at index `k` the position `new` at the instant
/// `now`: see [`repositioned`].
fn apply_reposition(registrations: &mut Vec<Registration>, k: usize, new: Option<u64>, now: i128)
    requires
        k < old(registrations)@.len(),
        !front_blocked(rows_view(old(registrations)@), k as int, new),
    ensures
        final(registrations)@.len() == old(registrations)@.len(),
        rows_view(final(registrations)@) == repositioned(
            rows_view(old(registrations)@),
            k as int,
            new,
            now,
        ),
{
    let ghost before = rows_view(registrations@);
    assert(before[k as int] == registrations@[k as int]@);
    let current = registrations[k].waiting_list_position;
    match new {
        None => {
            if current.is_some() {
                leave_waiting_list(registrations, k);
            }
        },
        Some(position) => {
            let same = match current {
                Some(own) => own == position,
                None => false,
            };
            if same {
            } else if position == 0 {
                make_room_at_front(registrations, k);
                registrations[k].waiting_list_position = Some(0);
                registrations[k].updated = now;
                assert(rows_view(registrations@) =~= moved_to_front(before, k as int, now));
            } else {
                if current.is_some() {
                    leave_waiting_list(registrations, k);
                }
                let ghost removed = registrations@;
                assert(rows_view(removed) == removed_from_waiting_list(before, k as int));
                let event_id = registrations[k].event_id;
                let tail = count_registrations(registrations, &event_id, true);
                registrations[k].waiting_list_position = Some(tail);
                registrations[k].updated = now;
                proof {
                    let after = moved_to_tail(before, k as int, now);
                    assert(rows_view(removed)[k as int] == removed[k as int]@);
                    assert forall|j: int| 0 <= j < after.len() implies (
                    #[trigger] registrations@[j])@ == after[j] by {
                        assert(rows_view(removed)[j] == removed[j]@);
                    }
                    assert(rows_view(registrations@) =~= after);
                }
            }
        },
    }
}

impl EventStore {
    #[verifier::type_invariant]
    spec fn well_formed(&self) -> bool {
        unique_ids(self@)
    }

    /// A store without registrations.
    pub fn new() -> (store: EventStore)
        ensures
            store@ == Rows::empty(),
    {
        let store = EventStore { registrations: Vec::new() };
        assert(store@ =~= Rows::empty());
        store
    }

    /// A store of the given registrations, in their order; `None` if two of
    /// them share an identity.
    pub fn from_registrations(registrations: Vec<Registration>) -> (store: Option<EventStore>)
        ensures
            store is Some <==> unique_ids(rows_view(registrations@)),
            store matches Some(s) ==> s@ == rows_view(registrations@),
    {
        let ghost rows = rows_view(registrations@);
        let mut j: usize = 0;
        while j < registrations.len()
            invariant
                rows == rows_view(registrations@),
                j <= registrations@.len(),
                forall|a: int, b: int|
                    0 <= a < b < j ==> (#[trigger] rows[a]).registration_id != (
                    #[trigger] rows[b]).registration_id,
            decreases registrations@.len() - j,
        {
            let mut i: usize = 0;
            while i < j
                invariant
                    rows == rows_view(registrations@),
                    j < registrations@.len(),
                    i <= j,
                    forall|a: int|
                        0 <= a < i ==> (#[trigger] rows[a]).registration_id
                            != rows[j as int].registration_id,
                decreases j - i,
            {
                if registrations[i].registration_id == registrations[j].registration_id {
                    assert(rows[i as int].registration_id == rows[j as int].registration_id);
                    return None;
                }
                i += 1;
            }
            j += 1;
        }
        Some(EventStore { registrations })
    }

    /// The registrations of the store, in their order. No two of them share
    /// an identity.
    pub fn registrations(&self) -> (registrations: &Vec<Registration>)
        ensures
            rows_view(registrations@) == self@,
            unique_ids(self@),
    {
        proof {
            use_type_invariant(self);
        }
        &self.registrations
    }

    /// The number of confirmed registrations of an event.
    pub fn registration_count(&self, event_id: &EventId) -> (count: u64)
        ensures
            count == registration_count(self@, *event_id),
    {
        count_registrations(&self.registrations, event_id, false)
    }

    /// The length of the waiting list of an event.
    pub fn waiting_list_count(&self, event_id: &EventId) -> (count: u64)
        ensures
            count == waiting_list_count(self@, *event_id),
    {
        count_registrations(&self.registrations, event_id, true)
    }

    /// Reads an event with its counts: the content as it was stored at
    /// `created` and last changed at `updated`, the number of confirmed
    /// registrations and the length of the waiting list. An event that is not
    /// published is `NotFound` unless `display_hidden` is set.
    pub fn get_event(
        &self,
        id: &EventId,
        content: EventContent,
        created: i128,
        updated: i128,
        display_hidden: bool,
    ) -> (res: AppResult<Event>)
        ensures
            match res {
                Ok(event) => {
                    &&& content.is_published || display_hidden
                    &&& event.id == *id
                    &&& event.created == created
                    &&& event.updated == updated
                    &&& event.content == content
                    &&& event.registration_count == registration_count(self@, *id)
                    &&& event.waiting_list_count == waiting_list_count(self@, *id)
                },
                Err(e) => e == Error::NotFound && !content.is_published && !display_hidden,
            },
    {
        if !(content.is_published || display_hidden) {
            return Err(Error::NotFound);
        }
        Ok(
            Event {
                id: *id,
                created,
                updated,
                registration_count: self.registration_count(id),
                waiting_list_count: self.waiting_list_count(id),
                content,
            },
        )
    }

    /// The place of the registration with identity `registration_id`.
    fn find(&self, registration_id: &RegistrationId) -> (found: Option<usize>)
        ensures
            unique_ids(self@),
            self@ == rows_view(self.registrations@),
            match found {
                Some(k) => has_registration(self@, *registration_id) && k == index_of(
                    self@,
                    *registration_id,
                ) && k < self@.len() && self@[k as int].registration_id == *registration_id,
                None => !has_registration(self@, *registration_id),
            },
    {
        proof {
            use_type_invariant(self);
        }
        let mut i: usize = 0;
        while i < self.registrations.len()
            invariant
                unique_ids(self@),
                i <= self.registrations@.len(),
                self@ == rows_view(self.registrations@),
                forall|j: int|
                    0 <= j < i ==> (#[trigger] self@[j]).registration_id != *registration_id,
            decreases self.registrations@.len() - i,
        {
            if self.registrations[i].registration_id == *registration_id {
                proof {
                    lemma_index_of(self@, i as int);
                }
                return Some(i);
            }
            i += 1;
        }
        None
    }

    /// The registration with identity `registration_id`; `NotFound` if the
    /// store holds none.
    pub fn get_registration(&self, registration_id: &RegistrationId) -> (res: AppResult<
        Registration,
    >)
        ensures
            match res {
                Ok(registration) => has_registration(self@, *registration_id) && registration@
                    == self@[index_of(self@, *registration_id)],
                Err(e) => e == Error::NotFound && !has_registration(self@, *registration_id),
            },
    {
        match self.find(registration_id) {
            Some(k) => Ok(self.registrations[k].duplicate()),
            None => Err(Error::NotFound),
        }
    }

    /// The registrations of an event that are for a user, in the order in
    /// which they were made.
    pub fn get_registrations_detailed(&self, event_id: &EventId) -> (found: Vec<Registration>)
        ensures
            rows_view(found@) == registered_with_user(self@, *event_id),
    {
        let ghost rows = self@;
        let mut found: Vec<Registration> = Vec::new();
        let mut i: usize = 0;
        while i < self.registrations.len()
            invariant
                rows == rows_view(self.registrations@),
                i <= self.registrations@.len(),
                rows_view(found@) == registered_with_user(rows.take(i as int), *event_id),
            decreases self.registrations@.len() - i,
        {
            assert(rows.take(i + 1).drop_last() =~= rows.take(i as int));
            assert(rows.take(i + 1).last() == rows[i as int]);
            if self.registrations[i].event_id == *event_id && self.registrations[i].user.is_some() {
                let ghost before = rows_view(found@);
                found.push(self.registrations[i].duplicate());
                assert(rows_view(found@) =~= before.push(rows[i as int]));
            }
            i += 1;
        }
        assert(rows.take(i as int) =~= rows);
        found
    }

    /// The users that the registrations of an event are for, in the order in
    /// which the registrations were made.
    pub fn get_registered_users(&self, event_id: &EventId) -> (users: Vec<UserId>)
        ensures
            users@ == registered_users(self@, *event_id),
    {
        let ghost rows = self@;
        let mut users: Vec<UserId> = Vec::new();
        let mut i: usize = 0;
        while i < self.registrations.len()
            invariant
                rows == rows_view(self.registrations@),
                i <= self.registrations@.len(),
                users@ == registered_users(rows.take(i as int), *event_id),
            decreases self.registrations@.len() - i,
        {
            assert(rows.take(i + 1).drop_last() =~= rows.take(i as int));
            assert(rows.take(i + 1).last() == rows[i as int]);
            if self.registrations[i].event_id == *event_id {
                match self.registrations[i].user {
                    Some(user) => {
                        let ghost before = users@;
                        users.push(user);
                        assert(users@ =~= registered_users(rows.take(i + 1), *event_id));
                    },
                    None => {},
                }
            }
            i += 1;
        }
        assert(rows.take(i as int) =~= rows);
        users
    }

    /// The registrations of a user, in the order in which they were made.
    pub fn get_user_registrations(&self, user_id: &UserId) -> (found: Vec<Registration>)
        ensures
            rows_view(found@) == registrations_of_user(self@, *user_id),
    {
        let ghost rows = self@;
        let mut found: Vec<Registration> = Vec::new();
        let mut i: usize = 0;
        while i < self.registrations.len()
            invariant
                rows == rows_view(self.registrations@),
                i <= self.registrations@.len(),
                rows_view(found@) == registrations_of_user(rows.take(i as int), *user_id),
            decreases self.registrations@.len() - i,
        {
            assert(rows.take(i + 1).drop_last() =~= rows.take(i as int));
            assert(rows.take(i + 1).last() == rows[i as int]);
            let of_user = match self.registrations[i].user {
                Some(user) => user == *user_id,
                None => false,
            };
            if of_user {
                let ghost before = rows_view(found@);
                found.push(self.registrations[i].duplicate());
                assert(rows_view(found@) =~= before.push(rows[i as int]));
            }
            i += 1;
        }
        assert(rows.take(i as int) =~= rows);
        found
    }

    /// Writes a registration with the given identity at the end of the table
    /// and returns it. The store refuses an identity that it holds already,
    /// with `Internal`.
    ///
    /// The new registration carries the position that `new` asks for; one
    /// that holds a confirmed seat or joins at the tail of its event's
    /// waiting list keeps every waiting list dense.
    pub fn insert(
        &mut self,
        registration_id: RegistrationId,
        event_id: &EventId,
        user_id: Option<UserId>,
        new: NewRegistration,
        now: i128,
    ) -> (res: AppResult<Registration>)
        ensures
            match res {
                Ok(created) => {
                    &&& !has_registration(old(self)@, registration_id)
                    &&& created@ == new_row(registration_id, *event_id, user_id, new, now)
                    &&& final(self)@ == old(self)@.push(created@)
                },
                Err(e) => {
                    &&& e == Error::Internal
                    &&& has_registration(old(self)@, registration_id)
                    &&& final(self)@ == old(self)@
                },
            },
            res is Ok && joins_at_tail(
                old(self)@,
                new_row(registration_id, *event_id, user_id, new, now),
            ) ==> forall|e: EventId| dense(old(self)@, e) ==> dense(final(self)@, e),
    {
        if self.find(&registration_id).is_some() {
            return Err(Error::Internal);
        }
        let ghost before = self@;
        let registration = Registration {
            registration_id,
            event_id: *event_id,
            user: user_id,
            attended: None,
            waiting_list_position: new.waiting_list_position,
            answers: new.answers,
            created: now,
            updated: now,
        };
        let created = registration.duplicate();
        proof {
            lemma_push_keeps_ids(before, registration@);
            assert(rows_view(self.registrations@.push(registration)) =~= before.push(
                registration@,
            ));
            if joins_at_tail(before, registration@) {
                assert forall|e: EventId| dense(before, e) implies dense(
                    before.push(registration@),
                    e,
                ) by {
                    lemma_push(before, registration@, e);
                }
            }
        }
        let mut registrations: Vec<Registration> = Vec::new();
        std::mem::swap(&mut self.registrations, &mut registrations);
        registrations.push(registration);
        std::mem::swap(&mut self.registrations, &mut registrations);
        Ok(created)
    }

    /// Writes a new registration for an event under a new identity, at the
    /// present instant, and returns it.
    ///
    /// The identity and the instant come from outside; whatever they are, the
    /// store and the answer are what [`inserts`] says for them: the
    /// registration is appended with the event, the user, the answers and the
    /// position given, unless the store holds the identity already, which
    /// alone makes it answer `Internal` and stay as it was. A store without
    /// registrations holds no identity, so writing into it succeeds.
    pub fn new_registration(
        &mut self,
        event_id: &EventId,
        user_id: Option<UserId>,
        new: NewRegistration,
    ) -> (res: AppResult<Registration>)
        ensures
            exists|registration_id: RegistrationId, now: i128| #[trigger]
                inserts(
                    old(self)@,
                    final(self)@,
                    res,
                    registration_id,
                    *event_id,
                    user_id,
                    new,
                    now,
                ),
            res is Ok && (new.waiting_list_position matches Some(p) ==> p == waiting_list_count(
                old(self)@,
                *event_id,
            )) ==> forall|e: EventId| dense(old(self)@, e) ==> dense(final(self)@, e),
    {
        let registration_id = RegistrationId(fresh_uuid());
        let now = now_utc();
        let ghost before = self@;
        let res = self.insert(registration_id, event_id, user_id, new, now);
        assert(inserts(before, self@, res, registration_id, *event_id, user_id, new, now));
        res
    }

    /// Moves a registration from the waiting list to a confirmed seat and
    /// returns the position it had; `None` if it held a confirmed seat
    /// already. Every registration of the same event that stood behind it
    /// moves up by one, so a dense waiting list stays dense.
    pub fn remove_from_waiting_list(&mut self, registration_id: &RegistrationId) -> (res: AppResult<
        Option<u64>,
    >)
        ensures
            match res {
                Ok(position) => {
                    &&& has_registration(old(self)@, *registration_id)
                    &&& position == old(self)@[index_of(
                        old(self)@,
                        *registration_id,
                    )].waiting_list_position
                    &&& final(self)@ == removed_from_waiting_list(
                        old(self)@,
                        index_of(old(self)@, *registration_id),
                    )
                },
                Err(e) => {
                    &&& e == Error::NotFound
                    &&& !has_registration(old(self)@, *registration_id)
                    &&& final(self)@ == old(self)@
                },
            },
            forall|e: EventId| dense(old(self)@, e) ==> dense(final(self)@, e),
    {
        let k = match self.find(registration_id) {
            Some(k) => k,
            None => {
                return Err(Error::NotFound);
            },
        };
        match self.registrations[k].waiting_list_position {
            None => Ok(None),
            Some(_) => {
                proof {
                    lemma_removal_keeps_ids(self@, k as int);
                    assert forall|e: EventId| dense(self@, e) implies dense(
                        removed_from_waiting_list(self@, k as int),
                        e,
                    ) by {
                        lemma_removal(self@, k as int, e);
                    }
                }
                let mut registrations: Vec<Registration> = Vec::new();
                std::mem::swap(&mut self.registrations, &mut registrations);
                let p = leave_waiting_list(&mut registrations, k);
                std::mem::swap(&mut self.registrations, &mut registrations);
                Ok(Some(p))
            },
        }
    }

    /// Gives a registration the waiting-list position `new`, at the instant
    /// `now`: see [`repositions`].
    ///
    /// Nothing changes if `new` is the position it has. Without a position
    /// the registration gets a confirmed seat, whatever the capacity, and the
    /// list closes up behind it. With position 0 it takes the front, and
    /// those that stood before it move back by one. With the last position
    /// of the list it takes the tail: it leaves the list, which closes up,
    /// and takes the length that the list then has. Any other position is
    /// `CannotReorderArbitrarily`. A front for which a waiting registration
    /// would have to move back beyond the largest position that can be
    /// written is `Internal`; a dense list never asks for that. Whatever the
    /// position, a dense waiting list stays dense.
    pub fn update_waiting_list_position(
        &mut self,
        registration_id: &RegistrationId,
        new_waiting_list_pos: Option<u64>,
        now: i128,
    ) -> (res: AppResult<()>)
        ensures
            repositions(
                old(self)@,
                final(self)@,
                res,
                *registration_id,
                new_waiting_list_pos,
                now,
            ),
            forall|e: EventId| dense(old(self)@, e) ==> dense(final(self)@, e),
    {
        let k = match self.find(registration_id) {
            Some(k) => k,
            None => {
                return Err(Error::NotFound);
            },
        };
        let ghost before = self@;
        match reposition_refused(&self.registrations, k, new_waiting_list_pos) {
            Some(e) => {
                return Err(e);
            },
            None => {},
        }
        let size = self.registrations.len();
        proof {
            let after = repositioned(before, k as int, new_waiting_list_pos, now);
            lemma_same_ids(before, after);
            assert forall|e: EventId| dense(before, e) implies dense(after, e) by {
                lemma_reposition(before, k as int, new_waiting_list_pos, now, e);
            }
        }
        let mut registrations: Vec<Registration> = Vec::new();
        std::mem::swap(&mut self.registrations, &mut registrations);
        apply_reposition(&mut registrations, k, new_waiting_list_pos, now);
        std::mem::swap(&mut self.registrations, &mut registrations);
        Ok(())
    }

    /// Gives a registration new answers and attendance and the position that
    /// `updated` asks for, all at the instant `now`, and returns it as it
    /// then stands: see [`rewrites`]. A position that the store refuses
    /// leaves the whole registration as it was. A dense waiting list stays
    /// dense.
    pub fn update_registration_at(
        &mut self,
        registration_id: &RegistrationId,
        updated: NewRegistration,
        now: i128,
    ) -> (res: AppResult<Registration>)
        ensures
            rewrites(old(self)@, final(self)@, res, *registration_id, updated, now),
            forall|e: EventId| dense(old(self)@, e) ==> dense(final(self)@, e),
    {
        let k = match self.find(registration_id) {
            Some(k) => k,
            None => {
                return Err(Error::NotFound);
            },
        };
        let ghost before = self@;
        let ghost answers = answers_view(updated.answers@);
        let new_position = updated.waiting_list_position;
        match reposition_refused(&self.registrations, k, new_position) {
            Some(e) => {
                return Err(e);
            },
            None => {},
        }
        let size = self.registrations.len();
        let ghost written = before.update(
            k as int,
            rewritten(before[k as int], answers, updated.attended, now),
        );
        let ghost after = updated_registration(
            before,
            k as int,
            answers,
            updated.attended,
            new_position,
            now,
        );
        proof {
            lemma_update_keeps_ids(before, k as int, answers, updated.attended, new_position, now);
            assert(!front_blocked(written, k as int, new_position)) by {
                if front_blocked(written, k as int, new_position) {
                    let i = choose|i: int|
                        0 <= i < written.len() && queued_in(
                            #[trigger] written[i],
                            written[k as int].event_id,
                        ) && written[i].waiting_list_position == Some(u64::MAX);
                    assert(queued_in(before[i], before[k as int].event_id));
                }
            }
            assert forall|e: EventId| dense(before, e) implies dense(after, e) by {
                lemma_rewrite(before, k as int, answers, updated.attended, now, e);
                lemma_reposition(written, k as int, new_position, now, e);
            }
        }
        let mut registrations: Vec<Registration> = Vec::new();
        std::mem::swap(&mut self.registrations, &mut registrations);
        registrations[k].answers = updated.answers;
        registrations[k].attended = updated.attended;
        registrations[k].updated = now;
        assert(rows_view(registrations@) =~= written);
        apply_reposition(&mut registrations, k, new_position, now);
        let result = registrations[k].duplicate();
        std::mem::swap(&mut self.registrations, &mut registrations);
        Ok(result)
    }

    /// Gives a registration new answers and attendance and the position that
    /// `updated` asks for, at the present instant, and returns it as it then
    /// stands.
    ///
    /// The instant comes from outside; whatever it is, the store and the
    /// answer are what [`rewrites`] says for it, and a dense waiting list
    /// stays dense. No error depends on the instant.
    pub fn update_registration(
        &mut self,
        registration_id: &RegistrationId,
        updated: NewRegistration,
    ) -> (res: AppResult<Registration>)
        ensures
            exists|now: i128| #[trigger]
                rewrites(old(self)@, final(self)@, res, *registration_id, updated, now),
            forall|e: EventId| dense(old(self)@, e) ==> dense(final(self)@, e),
    {
        let now = now_utc();
        let ghost before = self@;
        let res = self.update_registration_at(registration_id, updated, now);
        assert(rewrites(before, self@, res, *registration_id, updated, now));
        res
    }

    /// Deletes a registration and rebalances the waiting list of its event.
    ///
    /// One that was on the waiting list leaves a gap, which closes. One that
    /// held a confirmed seat hands it to the head of the waiting list, and
    /// the rest of the list moves up by one. A dense waiting list stays dense.
    /// `NotFound` if the store holds no such registration; it then stays as
    /// it was.
    pub fn delete_registration(&mut self, registration_id: &RegistrationId) -> (res: AppResult<()>)
        ensures
            match res {
                Ok(_) => {
                    &&& has_registration(old(self)@, *registration_id)
                    &&& final(self)@ == deleted(old(self)@, index_of(old(self)@, *registration_id))
                },
                Err(e) => {
                    &&& e == Error::NotFound
                    &&& !has_registration(old(self)@, *registration_id)
                    &&& final(self)@ == old(self)@
                },
            },
            forall|e: EventId| dense(old(self)@, e) ==> dense(final(self)@, e),
    {
        let k = match self.find(registration_id) {
            Some(k) => k,
            None => {
                return Err(Error::NotFound);
            },
        };
        let ghost before = self@;
        proof {
            lemma_deletion_keeps_ids(before, k as int);
            assert forall|e: EventId| dense(before, e) implies dense(
                deleted(before, k as int),
                e,
            ) by {
                lemma_deletion(before, k as int, e);
            }
        }
        let mut registrations: Vec<Registration> = Vec::new();
        std::mem::swap(&mut self.registrations, &mut registrations);
        if registrations[k].waiting_list_position.is_some() {
            leave_waiting_list(&mut registrations, k);
        } else {
            let event_id = registrations[k].event_id;
            promote_head(&mut registrations, event_id);
        }
        let ghost rebalanced = rows_view(registrations@);
        registrations.remove(k);
        assert(rows_view(registrations@) =~= rebalanced.remove(k as int));
        std::mem::swap(&mut self.registrations, &mut registrations);
        Ok(())
    }
}

} // verus!
