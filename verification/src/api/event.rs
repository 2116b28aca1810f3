//! Registrations for events: who may make, change, delete and read them,
//! and where on the waiting list a registration comes to stand.

use vstd::prelude::*;
use crate::api::is_admin_or_board;
use crate::auth::gate::{tier, tier_of};
use crate::auth::role::{has_board_role, MembershipStatus};
use crate::auth::session::Session;
use crate::clock::now_utc;
use crate::data_source::event::{new_row, rows_view, EventStore};
use crate::data_source::queue::{
    deleted, dense, front_blocked, has_registration, index_of, lemma_count_positive, may_reposition,
    queued_in, registered_users, registered_with_user, registration_count, registrations_of_user,
    updated_registration, waiting_list_count, Rows,
};
use crate::error::{AppResult, Error};
use crate::identifier::{fresh_uuid, parse_uuid, parsed_uuid};
use crate::wire::committee::{chairs_committee, is_committee_chair, CommitteeId, UserCommittee};
use crate::wire::event::{
    answers_view, Answer, Date, Event, EventContent, EventId, NewRegistration, Question,
    Registration, RegistrationId,
};
use crate::wire::user::UserId;

verus! {

/// The session as a value, if there is one.
pub open spec fn session_value(session: Option<&Session>) -> Option<Session> {
    match session {
        Some(s) => Some(*s),
        None => None,
    }
}

/// Whether one of the answers is to the question `question_id`.
pub open spec fn answered(answers: Seq<Answer>, question_id: u128) -> bool {
    exists|j: int| 0 <= j < answers.len() && (#[trigger] answers[j]).question_id == question_id
}

/// Whether every required question has an answer.
pub open spec fn required_questions_answered(
    questions: Seq<Question>,
    answers: Seq<Answer>,
) -> bool {
    forall|i: int|
        0 <= i < questions.len() && (#[trigger] questions[i]).required ==> answered(
            answers,
            questions[i].id,
        )
}

/// Whether every question that is marked required has an answer with its
/// identity.
pub fn check_required_questions_answered(questions: &[Question], answers: &[Answer]) -> (complete:
    bool)
    ensures
        complete == required_questions_answered(questions@, answers@),
{
    let mut i: usize = 0;
    while i < questions.len()
        invariant
            i <= questions@.len(),
            forall|k: int|
                0 <= k < i && (#[trigger] questions@[k]).required ==> answered(
                    answers@,
                    questions@[k].id,
                ),
        decreases questions@.len() - i,
    {
        if questions[i].required {
            let mut found = false;
            let mut j: usize = 0;
            while j < answers.len() && !found
                invariant
                    i < questions@.len(),
                    j <= answers@.len(),
                    found ==> answered(answers@, questions@[i as int].id),
                    !found ==> forall|k: int|
                        0 <= k < j ==> (#[trigger] answers@[k]).question_id
                            != questions@[i as int].id,
                decreases answers@.len() - j + if found {
                    0int
                } else {
                    1int
                },
            {
                if answers[j].question_id == questions[i].id {
                    found = true;
                } else {
                    j += 1;
                }
            }
            if !found {
                return false;
            }
        }
        i += 1;
    }
    true
}

/// Whether the deadline for registrations has not passed at the instant
/// `now`. An event without a registration period has no deadline.
pub open spec fn signup_has_not_passed(period: Option<Date>, now: i128) -> bool {
    period matches Some(date) ==> date.end >= now
}

/// Whether registrations are open at the instant `now`: the event has a
/// registration period, and `now` lies within it.
pub open spec fn registration_open(period: Option<Date>, now: i128) -> bool {
    period matches Some(date) && date.start <= now <= date.end
}

/// Answers `WindowClosed` if the deadline for registrations has passed at
/// the instant `now`.
pub fn ensure_signup_has_not_passed_at(event: &EventContent, now: i128) -> (res: Result<(), Error>)
    ensures
        res is Ok <==> signup_has_not_passed(event.registration_period, now),
        res is Err ==> res == Err::<(), Error>(Error::WindowClosed),
{
    match event.registration_period {
        Some(date) => {
            if date.end < now {
                Err(Error::WindowClosed)
            } else {
                Ok(())
            }
        },
        None => Ok(()),
    }
}

/// Answers `WindowClosed` if the deadline for registrations has passed.
///
/// The present instant comes from outside. An event without a registration
/// period has no deadline and passes at any instant; for any other, the
/// answer is that of [`ensure_signup_has_not_passed_at`] at some instant.
pub fn ensure_signup_has_not_passed(event: &EventContent) -> (res: Result<(), Error>)
    ensures
        event.registration_period is None ==> res is Ok,
        res is Err ==> res == Err::<(), Error>(Error::WindowClosed),
        exists|now: i128| res is Ok <==> signup_has_not_passed(event.registration_period, now),
{
    let now = now_utc();
    let res = ensure_signup_has_not_passed_at(event, now);
    assert(res is Ok <==> signup_has_not_passed(event.registration_period, now));
    res
}

/// Answers `WindowClosed` unless registrations are open at the instant
/// `now`.
pub fn ensure_registration_open_at(event: &EventContent, now: i128) -> (res: Result<(), Error>)
    ensures
        res is Ok <==> registration_open(event.registration_period, now),
        res is Err ==> res == Err::<(), Error>(Error::WindowClosed),
{
    match event.registration_period {
        Some(date) => {
            if date.start <= now && now <= date.end {
                Ok(())
            } else {
                Err(Error::WindowClosed)
            }
        },
        None => Err(Error::WindowClosed),
    }
}

/// The position that the admission policy assigns, or why it rejects.
///
/// `current` is absent for a new registration and holds the registration's
/// position for an update. The rules, the first that applies:
///
/// - A privileged actor who asks for a position gets it if it is the tail
///   of the waiting list or the registration's own, and is rejected with
///   `InvalidPosition` for any other. One who asks for none gets a confirmed
///   seat, whatever the capacity.
/// - Any other actor who updates keeps the position the registration has.
/// - Any other actor who creates is rejected with `CapacityExceeded` if the
///   waiting list has a bound and has reached it, whether or not a seat is
///   free; joins the tail of the waiting list if the confirmed seats have a
///   bound and have reached it; and gets a confirmed seat otherwise.
pub open spec fn admitted_position(
    registration_max: Option<u64>,
    waiting_list_max: Option<u64>,
    confirmed_count: nat,
    queue_length: nat,
    privileged: bool,
    requested: Option<u64>,
    current: Option<Option<u64>>,
) -> Result<Option<u64>, Error> {
    if privileged {
        match requested {
            Some(position) => if position == queue_length || current == Some(requested) {
                Ok(requested)
            } else {
                Err(Error::InvalidPosition)
            },
            None => Ok(None),
        }
    } else if current is Some {
        Ok(current.unwrap())
    } else if waiting_list_max is Some && queue_length >= waiting_list_max.unwrap() {
        Err(Error::CapacityExceeded)
    } else if registration_max is Some && confirmed_count >= registration_max.unwrap() {
        Ok(Some(queue_length as u64))
    } else {
        Ok(None)
    }
}

/// The position of the registration that is being updated, if one is.
pub open spec fn current_position(current_registration: Option<&Registration>) -> Option<
    Option<u64>,
> {
    match current_registration {
        Some(registration) => Some(registration.waiting_list_position),
        None => None,
    }
}

/// Puts into `new_registration` the waiting-list position that the admission
/// policy assigns, or rejects the request and leaves it as it is: see
/// [`admitted_position`].
///
/// `registration_count` and `waiting_list_count` are the numbers of confirmed
/// and of queued registrations of the event; `current_registration` is the
/// registration that is being updated, absent for a new one.
pub fn ensure_correct_waiting_list_position(
    event: &EventContent,
    registration_count: u64,
    waiting_list_count: u64,
    new_registration: &mut NewRegistration,
    privileged: bool,
    current_registration: Option<&Registration>,
) -> (res: Result<(), Error>)
    ensures
        match admitted_position(
            event.registration_max,
            event.waiting_list_max,
            registration_count as nat,
            waiting_list_count as nat,
            privileged,
            old(new_registration).waiting_list_position,
            current_position(current_registration),
        ) {
            Ok(position) => res is Ok && *final(new_registration) == (NewRegistration {
                waiting_list_position: position,
                ..*old(new_registration)
            }),
            Err(e) => res == Err::<(), Error>(e) && *final(new_registration) == *old(
                new_registration,
            ),
        },
{
    if privileged {
        match new_registration.waiting_list_position {
            Some(position) => {
                let mut valid_pos = false;
                if position == waiting_list_count {
                    valid_pos = true;
                }
                match current_registration {
                    Some(current) => {
                        match current.waiting_list_position {
                            Some(own) => {
                                if own == position {
                                    valid_pos = true;
                                }
                            },
                            None => {},
                        }
                    },
                    None => {},
                }
                if !valid_pos {
                    return Err(Error::InvalidPosition);
                }
            },
            None => {},
        }
    } else {
        match current_registration {
            Some(registration) => {
                new_registration.waiting_list_position = registration.waiting_list_position;
            },
            None => {
                let full = match event.waiting_list_max {
                    Some(waiting_list_max) => waiting_list_max <= waiting_list_count,
                    None => false,
                };
                if full {
                    return Err(Error::CapacityExceeded);
                }
                let seats_taken = match event.registration_max {
                    Some(registration_max) => registration_max <= registration_count,
                    None => false,
                };
                if seats_taken {
                    new_registration.waiting_list_position = Some(waiting_list_count);
                } else {
                    new_registration.waiting_list_position = None;
                }
            },
        }
    }
    Ok(())
}

/// Keeps the attendance that the registration has unless the actor is
/// privileged: nobody marks their own attendance.
pub fn ensure_attendance_update_full_access_only(
    current_registration: &Registration,
    new_registration: &mut NewRegistration,
    privileged: bool,
)
    ensures
        *final(new_registration) == (NewRegistration {
            attended: if privileged {
                old(new_registration).attended
            } else {
                current_registration.attended
            },
            ..*old(new_registration)
        }),
{
    if !privileged {
        new_registration.attended = current_registration.attended;
    }
}

/// Lets those pass who may act on the registrations of `user_id`: the
/// administrator and the board, the user themself and, where an owning
/// committee is given, its chair. Everybody else is `Unauthorized`.
pub fn has_registration_access(
    user_id: &UserId,
    session: &Session,
    terms: &Vec<UserCommittee>,
    owner: Option<&CommitteeId>,
) -> (res: AppResult<()>)
    ensures
        res is Ok <==> {
            ||| has_board_role(session.roles@)
            ||| *user_id == session.user_id
            ||| (owner matches Some(committee) && chairs_committee(
                terms@,
                session.user_id,
                *committee,
            ))
        },
        res is Err ==> res == Err::<(), Error>(Error::Unauthorized),
{
    if is_admin_or_board(session).is_ok() || *user_id == session.user_id {
        return Ok(());
    }
    match owner {
        Some(committee) => {
            if is_committee_chair(terms, session.user_id, *committee) {
                return Ok(());
            }
        },
        None => {},
    }
    Err(Error::Unauthorized)
}

/// Whether the event lets the actor register at all: it needs no
/// membership, or the actor's membership status is one that it accepts.
pub open spec fn eligible(event: EventContent, session: Option<Session>) -> bool {
    event.accepts(MembershipStatus::NonMember) || (session matches Some(s) && event.accepts(
        s.membership_status,
    ))
}

/// What becomes of a request to create a registration: the waiting-list
/// position that it gets (none for a confirmed seat), or why it is rejected.
///
/// The checks, in their order: the actor may act for the user that the
/// registration is for, and an anonymous signup needs an event that asks for
/// no membership (`Unauthorized`); registrations are open, unless the actor
/// is privileged (`WindowClosed`); the actor is eligible (`Unauthorized`);
/// every required question has an answer (`MissingRequiredAnswer`); the
/// admission policy assigns a position (`InvalidPosition`,
/// `CapacityExceeded`).
pub open spec fn create_outcome(
    rows: Rows,
    session: Option<Session>,
    terms: Seq<UserCommittee>,
    event_id: EventId,
    event: EventContent,
    new: NewRegistration,
    now: i128,
) -> Result<Option<u64>, Error> {
    let actor = tier_of(session, terms, event.created_by, new.user_id);
    if new.user_id is Some && !actor.may_act_for(new.user_id) {
        Err(Error::Unauthorized)
    } else if new.user_id is None && !event.accepts(MembershipStatus::NonMember) {
        Err(Error::Unauthorized)
    } else if !actor.is_privileged() && !registration_open(event.registration_period, now) {
        Err(Error::WindowClosed)
    } else if !eligible(event, session) {
        Err(Error::Unauthorized)
    } else if !required_questions_answered(event.questions@, new.answers@) {
        Err(Error::MissingRequiredAnswer)
    } else {
        admitted_position(
            event.registration_max,
            event.waiting_list_max,
            registration_count(rows, event_id),
            waiting_list_count(rows, event_id),
            actor.is_privileged(),
            new.waiting_list_position,
            None,
        )
    }
}

/// What creating a registration under the identity `registration_id` at the
/// instant `now` does to the table `before`: `after` is the table and `res`
/// the answer.
///
/// A request that [`create_outcome`] rejects leaves the table as it is. One
/// that it admits is written at the end of the table, with the position that
/// the policy assigned; a store that holds the identity already refuses it
/// with `Internal` and stays as it is.
pub open spec fn creates(
    before: Rows,
    after: Rows,
    res: AppResult<Registration>,
    session: Option<Session>,
    terms: Seq<UserCommittee>,
    event_id: EventId,
    event: EventContent,
    new: NewRegistration,
    registration_id: RegistrationId,
    now: i128,
) -> bool {
    match create_outcome(before, session, terms, event_id, event, new, now) {
        Err(e) => res == Err::<Registration, Error>(e) && after == before,
        Ok(position) => if has_registration(before, registration_id) {
            res == Err::<Registration, Error>(Error::Internal) && after == before
        } else {
            &&& res matches Ok(created)
            &&& created@ == new_row(
                registration_id,
                event_id,
                new.user_id,
                NewRegistration { waiting_list_position: position, ..new },
                now,
            )
            &&& after == before.push(created@)
        },
    }
}

/// Creates a registration for an event under the identity `registration_id`
/// at the instant `now`: see [`creates`]. Every waiting list that was dense
/// stays dense.
pub fn create_registration_at(
    store: &mut EventStore,
    session: Option<&Session>,
    terms: &Vec<UserCommittee>,
    event_id: &EventId,
    event: &EventContent,
    new: NewRegistration,
    registration_id: RegistrationId,
    now: i128,
) -> (res: AppResult<Registration>)
    ensures
        creates(
            old(store)@,
            final(store)@,
            res,
            session_value(session),
            terms@,
            *event_id,
            *event,
            new,
            registration_id,
            now,
        ),
        forall|e: EventId| dense(old(store)@, e) ==> dense(final(store)@, e),
{
    let actor = tier(session, terms, &event.created_by, new.user_id);
    match new.user_id {
        Some(_) => {
            if !actor.may_act_for(new.user_id) {
                return Err(Error::Unauthorized);
            }
        },
        None => {
            if !event.accepts(MembershipStatus::NonMember) {
                return Err(Error::Unauthorized);
            }
        },
    }
    let privileged = actor.is_privileged();
    if !privileged {
        if ensure_registration_open_at(event, now).is_err() {
            return Err(Error::WindowClosed);
        }
    }
    let accepted = event.accepts(MembershipStatus::NonMember) || match session {
        Some(s) => event.accepts(s.membership_status()),
        None => false,
    };
    if !accepted {
        return Err(Error::Unauthorized);
    }
    if !check_required_questions_answered(event.questions.as_slice(), new.answers.as_slice()) {
        return Err(Error::MissingRequiredAnswer);
    }
    let registration_count = store.registration_count(event_id);
    let waiting_list_count = store.waiting_list_count(event_id);
    let user_id = new.user_id;
    let mut admitted = new;
    match ensure_correct_waiting_list_position(
        event,
        registration_count,
        waiting_list_count,
        &mut admitted,
        privileged,
        None,
    ) {
        Err(e) => {
            return Err(e);
        },
        Ok(_) => {},
    }
    store.insert(registration_id, event_id, user_id, admitted, now)
}

/// Creates a registration for an event, under a new identity and at the
/// present instant.
///
/// The identity and the instant come from outside; whatever they are, the
/// store and the answer are what [`creates`] says for them, and every waiting
/// list that was dense stays dense.
pub fn create_registration(
    store: &mut EventStore,
    session: Option<&Session>,
    terms: &Vec<UserCommittee>,
    event_id: &EventId,
    event: &EventContent,
    new: NewRegistration,
) -> (res: AppResult<Registration>)
    ensures
        exists|registration_id: RegistrationId, now: i128| #[trigger]
            creates(
                old(store)@,
                final(store)@,
                res,
                session_value(session),
                terms@,
                *event_id,
                *event,
                new,
                registration_id,
                now,
            ),
        forall|e: EventId| dense(old(store)@, e) ==> dense(final(store)@, e),
{
    let registration_id = RegistrationId(fresh_uuid());
    let now = now_utc();
    create_registration_at(store, session, terms, event_id, event, new, registration_id, now)
}

/// What becomes of a request to update a registration: the position and the
/// attendance that it gets, or why it is rejected.
///
/// The checks, in their order: the store holds the registration, and it is
/// one of the event (`NotFound`); the actor may act for the user that the
/// registration is for, and only a privileged actor for an anonymous one
/// (`Unauthorized`); registrations are open, unless the actor is privileged
/// (`WindowClosed`); the admission policy assigns a position
/// (`InvalidPosition`); the store can give the registration that position
/// (`CannotReorderArbitrarily`). An actor who is not privileged keeps the
/// position and the attendance that the registration has, whatever the
/// request says.
pub open spec fn update_outcome(
    rows: Rows,
    session: Session,
    terms: Seq<UserCommittee>,
    event_id: EventId,
    event: EventContent,
    registration_id: RegistrationId,
    updated: NewRegistration,
    now: i128,
) -> Result<(Option<u64>, Option<bool>), Error> {
    let k = index_of(rows, registration_id);
    let actor = tier_of(Some(session), terms, event.created_by, rows[k].user);
    if !has_registration(rows, registration_id) || rows[k].event_id != event_id {
        Err(Error::NotFound)
    } else if !actor.may_act_for(rows[k].user) {
        Err(Error::Unauthorized)
    } else if !actor.is_privileged() && !registration_open(event.registration_period, now) {
        Err(Error::WindowClosed)
    } else {
        match admitted_position(
            event.registration_max,
            event.waiting_list_max,
            registration_count(rows, event_id),
            waiting_list_count(rows, event_id),
            actor.is_privileged(),
            updated.waiting_list_position,
            Some(rows[k].waiting_list_position),
        ) {
            Err(e) => Err(e),
            Ok(position) => if !may_reposition(rows, k, position) {
                Err(Error::CannotReorderArbitrarily)
            } else {
                Ok(
                    (
                        position,
                        if actor.is_privileged() {
                            updated.attended
                        } else {
                            rows[k].attended
                        },
                    ),
                )
            },
        }
    }
}

/// What updating a registration at the instant `now` does to the table
/// `before`: `after` is the table and `res` the answer.
///
/// A request that [`update_outcome`] rejects leaves the table as it is. One
/// that it admits gives the registration the answers of the request and the
/// position and attendance that were decided; `res` is the registration as
/// it then stands.
pub open spec fn updates(
    before: Rows,
    after: Rows,
    res: AppResult<Registration>,
    session: Session,
    terms: Seq<UserCommittee>,
    event_id: EventId,
    event: EventContent,
    registration_id: RegistrationId,
    updated: NewRegistration,
    now: i128,
) -> bool {
    match update_outcome(before, session, terms, event_id, event, registration_id, updated, now) {
        Err(e) => res == Err::<Registration, Error>(e) && after == before,
        Ok((position, attended)) => {
            &&& res matches Ok(written)
            &&& after == updated_registration(
                before,
                index_of(before, registration_id),
                answers_view(updated.answers@),
                attended,
                position,
                now,
            )
            &&& written@ == after[index_of(before, registration_id)]
        },
    }
}

/// Updates a registration of an event at the instant `now`: see
/// [`updates`]. Every waiting list that was dense stays dense.
pub fn update_registration_at(
    store: &mut EventStore,
    session: &Session,
    terms: &Vec<UserCommittee>,
    event_id: &EventId,
    event: &EventContent,
    registration_id: &RegistrationId,
    updated: NewRegistration,
    now: i128,
) -> (res: AppResult<Registration>)
    ensures
        updates(
            old(store)@,
            final(store)@,
            res,
            *session,
            terms@,
            *event_id,
            *event,
            *registration_id,
            updated,
            now,
        ),
        forall|e: EventId| dense(old(store)@, e) ==> dense(final(store)@, e),
{
    let registration = match store.get_registration(registration_id) {
        Ok(registration) => registration,
        Err(_) => {
            return Err(Error::NotFound);
        },
    };
    if registration.event_id != *event_id {
        return Err(Error::NotFound);
    }
    let actor = tier(Some(session), terms, &event.created_by, registration.user);
    if !actor.may_act_for(registration.user) {
        return Err(Error::Unauthorized);
    }
    let privileged = actor.is_privileged();
    if !privileged {
        if ensure_registration_open_at(event, now).is_err() {
            return Err(Error::WindowClosed);
        }
    }
    let registration_count = store.registration_count(event_id);
    let waiting_list_count = store.waiting_list_count(event_id);
    let mut admitted = updated;
    ensure_attendance_update_full_access_only(&registration, &mut admitted, privileged);
    match ensure_correct_waiting_list_position(
        event,
        registration_count,
        waiting_list_count,
        &mut admitted,
        privileged,
        Some(&registration),
    ) {
        Err(e) => {
            return Err(e);
        },
        Ok(_) => {},
    }
    proof {
        let rows = store@;
        let k = index_of(rows, *registration_id);
        assert(!front_blocked(rows, k, admitted.waiting_list_position)) by {
            if front_blocked(rows, k, admitted.waiting_list_position) {
                let i = choose|i: int|
                    0 <= i < rows.len() && queued_in(#[trigger] rows[i], rows[k].event_id)
                        && rows[i].waiting_list_position == Some(u64::MAX);
                lemma_count_positive(rows, i, *event_id, true);
            }
        }
    }
    store.update_registration_at(registration_id, admitted, now)
}

/// Updates a registration of an event at the present instant.
///
/// The instant comes from outside; whatever it is, the store and the answer
/// are what [`updates`] says for it, and every waiting list that was dense
/// stays dense.
pub fn update_registration(
    store: &mut EventStore,
    session: &Session,
    terms: &Vec<UserCommittee>,
    event_id: &EventId,
    event: &EventContent,
    registration_id: &RegistrationId,
    updated: NewRegistration,
) -> (res: AppResult<Registration>)
    ensures
        exists|now: i128| #[trigger]
            updates(
                old(store)@,
                final(store)@,
                res,
                *session,
                terms@,
                *event_id,
                *event,
                *registration_id,
                updated,
                now,
            ),
        forall|e: EventId| dense(old(store)@, e) ==> dense(final(store)@, e),
{
    let now = now_utc();
    update_registration_at(store, session, terms, event_id, event, registration_id, updated, now)
}

/// What becomes of a request to delete a registration: nothing, if it is
/// granted, or why it is rejected.
///
/// The checks, in their order: the store holds the registration, and it is
/// one of the event (`NotFound`); the actor may act for the user that the
/// registration is for, and only a privileged actor for an anonymous one
/// (`Unauthorized`); registrations are open, unless the actor is privileged
/// (`WindowClosed`).
pub open spec fn delete_outcome(
    rows: Rows,
    session: Session,
    terms: Seq<UserCommittee>,
    event_id: EventId,
    event: EventContent,
    registration_id: RegistrationId,
    now: i128,
) -> Result<(), Error> {
    let k = index_of(rows, registration_id);
    let actor = tier_of(Some(session), terms, event.created_by, rows[k].user);
    if !has_registration(rows, registration_id) || rows[k].event_id != event_id {
        Err(Error::NotFound)
    } else if !actor.may_act_for(rows[k].user) {
        Err(Error::Unauthorized)
    } else if !actor.is_privileged() && !registration_open(event.registration_period, now) {
        Err(Error::WindowClosed)
    } else {
        Ok(())
    }
}

/// What deleting a registration at the instant `now` does to the table
/// `before`: `after` is the table and `res` the answer.
///
/// A request that [`delete_outcome`] rejects leaves the table as it is. One
/// that it grants takes the registration out and rebalances the waiting list
/// of its event.
pub open spec fn deletes(
    before: Rows,
    after: Rows,
    res: AppResult<()>,
    session: Session,
    terms: Seq<UserCommittee>,
    event_id: EventId,
    event: EventContent,
    registration_id: RegistrationId,
    now: i128,
) -> bool {
    match delete_outcome(before, session, terms, event_id, event, registration_id, now) {
        Err(e) => res == Err::<(), Error>(e) && after == before,
        Ok(_) => res is Ok && after == deleted(before, index_of(before, registration_id)),
    }
}

/// Deletes a registration of an event at the instant `now`: see
/// [`deletes`]. Every waiting list that was dense stays dense.
pub fn delete_registration_at(
    store: &mut EventStore,
    session: &Session,
    terms: &Vec<UserCommittee>,
    event_id: &EventId,
    event: &EventContent,
    registration_id: &RegistrationId,
    now: i128,
) -> (res: AppResult<()>)
    ensures
        deletes(
            old(store)@,
            final(store)@,
            res,
            *session,
            terms@,
            *event_id,
            *event,
            *registration_id,
            now,
        ),
        forall|e: EventId| dense(old(store)@, e) ==> dense(final(store)@, e),
{
    let registration = match store.get_registration(registration_id) {
        Ok(registration) => registration,
        Err(_) => {
            return Err(Error::NotFound);
        },
    };
    if registration.event_id != *event_id {
        return Err(Error::NotFound);
    }
    let actor = tier(Some(session), terms, &event.created_by, registration.user);
    if !actor.may_act_for(registration.user) {
        return Err(Error::Unauthorized);
    }
    if !actor.is_privileged() {
        if ensure_registration_open_at(event, now).is_err() {
            return Err(Error::WindowClosed);
        }
    }
    store.delete_registration(registration_id)
}

/// Deletes a registration of an event at the present instant.
///
/// The instant comes from outside; whatever it is, the store and the answer
/// are what [`deletes`] says for it, and every waiting list that was dense
/// stays dense.
pub fn delete_registration(
    store: &mut EventStore,
    session: &Session,
    terms: &Vec<UserCommittee>,
    event_id: &EventId,
    event: &EventContent,
    registration_id: &RegistrationId,
) -> (res: AppResult<()>)
    ensures
        exists|now: i128| #[trigger]
            deletes(
                old(store)@,
                final(store)@,
                res,
                *session,
                terms@,
                *event_id,
                *event,
                *registration_id,
                now,
            ),
        forall|e: EventId| dense(old(store)@, e) ==> dense(final(store)@, e),
{
    let now = now_utc();
    delete_registration_at(store, session, terms, event_id, event, registration_id, now)
}

/// Reads a registration. `NotFound` if the store holds none with the
/// identity. One that is for a user is shown to the administrator and the
/// board, to that user and to the chair of the committee `owner`, and is
/// `Unauthorized` for everybody else; an anonymous one is shown to anybody
/// with a session.
pub fn get_registration(
    store: &EventStore,
    session: &Session,
    terms: &Vec<UserCommittee>,
    owner: &CommitteeId,
    registration_id: &RegistrationId,
) -> (res: AppResult<Registration>)
    ensures
        match res {
            Ok(registration) => {
                &&& has_registration(store@, *registration_id)
                &&& registration@ == store@[index_of(store@, *registration_id)]
                &&& registration@.user matches Some(user) ==> {
                    ||| has_board_role(session.roles@)
                    ||| user == session.user_id
                    ||| chairs_committee(terms@, session.user_id, *owner)
                }
            },
            Err(e) => if has_registration(store@, *registration_id) {
                &&& e == Error::Unauthorized
                &&& store@[index_of(store@, *registration_id)].user matches Some(user)
                &&& !has_board_role(session.roles@)
                &&& user != session.user_id
                &&& !chairs_committee(terms@, session.user_id, *owner)
            } else {
                e == Error::NotFound
            },
        },
{
    let registration = match store.get_registration(registration_id) {
        Ok(registration) => registration,
        Err(_) => {
            return Err(Error::NotFound);
        },
    };
    match registration.user {
        Some(user) => {
            if has_registration_access(&user, session, terms, Some(owner)).is_err() {
                return Err(Error::Unauthorized);
            }
        },
        None => {},
    }
    Ok(registration)
}

/// Reads an event with its counts. The administrator and the board see
/// every event; to everybody else an event that is not published is
/// `NotFound`.
pub fn get_event(
    store: &EventStore,
    session: Option<&Session>,
    id: &EventId,
    content: EventContent,
    created: i128,
    updated: i128,
) -> (res: AppResult<Event>)
    ensures
        match res {
            Ok(event) => {
                &&& content.is_published || (session matches Some(s) && has_board_role(s.roles@))
                &&& event.id == *id
                &&& event.created == created
                &&& event.updated == updated
                &&& event.content == content
                &&& event.registration_count == registration_count(store@, *id)
                &&& event.waiting_list_count == waiting_list_count(store@, *id)
            },
            Err(e) => {
                &&& e == Error::NotFound
                &&& !content.is_published
                &&& !(session matches Some(s) && has_board_role(s.roles@))
            },
        },
{
    let display_hidden = match session {
        Some(s) => is_admin_or_board(s).is_ok(),
        None => false,
    };
    store.get_event(id, content, created, updated, display_hidden)
}

/// How much of the registrations of an event an actor gets to see.
#[derive(Clone, Copy, Debug, PartialEq, Eq, Structural)]
pub enum ListAccess {
    /// Every registration with all that it holds.
    Detailed,
    /// Only who registered.
    Names,
}

/// The registrations of an event as an actor gets to see them.
#[derive(Debug)]
pub enum RegistrationList {
    /// Every registration with all that it holds.
    Detailed(Vec<Registration>),
    /// Only who registered.
    Names(Vec<UserId>),
}

/// The user who organises the event on site, if the event names one by a
/// text that spells a UUID.
pub open spec fn organiser_of(event: EventContent) -> Option<u128> {
    match event.metadata.worga {
        Some(text) => parsed_uuid(text@),
        None => None,
    }
}

/// How much of the registrations of an event an actor gets to see, where
/// `organiser` is the user who organises the event on site.
///
/// The rules, the first that applies: a privileged actor sees the details,
/// which is the administrator, the board, and the chair of the committee that
/// owns the event, by a running term among `terms`; so does the organiser on
/// site; of an event that needs no membership everybody sees the names; of
/// any other, those whose membership status the event accepts; everybody
/// else is `Unauthorized`. A member of the owning committee who is not its
/// chair is treated like anybody else.
pub open spec fn list_access(
    session: Option<Session>,
    terms: Seq<UserCommittee>,
    event: EventContent,
    organiser: Option<u128>,
) -> Result<ListAccess, Error> {
    if tier_of(session, terms, event.created_by, None).is_privileged() {
        Ok(ListAccess::Detailed)
    } else if session matches Some(s) && organiser == Some(s.user_id.0) {
        Ok(ListAccess::Detailed)
    } else if event.accepts(MembershipStatus::NonMember) {
        Ok(ListAccess::Names)
    } else if session matches Some(s) && event.accepts(s.membership_status) {
        Ok(ListAccess::Names)
    } else {
        Err(Error::Unauthorized)
    }
}

/// How much of the registrations of an event an actor gets to see: see
/// [`list_access`].
pub fn registration_list_access(
    session: Option<&Session>,
    terms: &Vec<UserCommittee>,
    event: &EventContent,
    organiser: Option<u128>,
) -> (res: Result<ListAccess, Error>)
    ensures
        res == list_access(session_value(session), terms@, *event, organiser),
{
    if tier(session, terms, &event.created_by, None).is_privileged() {
        return Ok(ListAccess::Detailed);
    }
    match session {
        Some(s) => {
            let organises = match organiser {
                Some(user) => user == s.user_id.0,
                None => false,
            };
            if organises {
                return Ok(ListAccess::Detailed);
            }
        },
        None => {},
    }
    if event.accepts(MembershipStatus::NonMember) {
        return Ok(ListAccess::Names);
    }
    match session {
        Some(s) => {
            if event.accepts(s.membership_status()) {
                return Ok(ListAccess::Names);
            }
        },
        None => {},
    }
    Err(Error::Unauthorized)
}

/// The registrations of an event as the actor gets to see them: the
/// registrations that are for a user, with all they hold or by the user
/// only, as [`list_access`] decides for the organiser that the event names.
pub fn get_event_registrations(
    store: &EventStore,
    session: Option<&Session>,
    terms: &Vec<UserCommittee>,
    event_id: &EventId,
    event: &EventContent,
) -> (res: AppResult<RegistrationList>)
    ensures
        match list_access(session_value(session), terms@, *event, organiser_of(*event)) {
            Ok(ListAccess::Detailed) => res matches Ok(RegistrationList::Detailed(found))
                && rows_view(found@) == registered_with_user(store@, *event_id),
            Ok(ListAccess::Names) => res matches Ok(RegistrationList::Names(users)) && users@
                == registered_users(store@, *event_id),
            Err(e) => res matches Err(refused) && refused == e,
        },
{
    let organiser = match &event.metadata.worga {
        Some(text) => parse_uuid(text.as_str()),
        None => None,
    };
    match registration_list_access(session, terms, event, organiser) {
        Ok(ListAccess::Detailed) => Ok(
            RegistrationList::Detailed(store.get_registrations_detailed(event_id)),
        ),
        Ok(ListAccess::Names) => Ok(RegistrationList::Names(store.get_registered_users(event_id))),
        Err(e) => Err(e),
    }
}

/// The registrations of the acting user, for those who may act on the
/// registrations of the user `id`: the administrator, the board and the
/// user themself. Everybody else is `Unauthorized`.
pub fn get_user_registrations(
    store: &EventStore,
    id: &UserId,
    session: &Session,
) -> (res: AppResult<Vec<Registration>>)
    ensures
        match res {
            Ok(found) => {
                &&& has_board_role(session.roles@) || *id == session.user_id
                &&& rows_view(found@) == registrations_of_user(store@, session.user_id)
            },
            Err(e) => {
                &&& e == Error::Unauthorized
                &&& !has_board_role(session.roles@)
                &&& *id != session.user_id
            },
        },
{
    let terms: Vec<UserCommittee> = Vec::new();
    if has_registration_access(id, session, &terms, None).is_err() {
        return Err(Error::Unauthorized);
    }
    Ok(store.get_user_registrations(session.user_id()))
}

} // verus!
