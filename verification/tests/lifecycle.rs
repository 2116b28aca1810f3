use backend::api::event::{
    create_registration, create_registration_at, delete_registration, delete_registration_at,
    get_event, get_event_registrations, get_registration, get_user_registrations,
    has_registration_access, registration_list_access, update_registration,
    update_registration_at, ListAccess, RegistrationList,
};
use backend::auth::role::{MembershipStatus, Role};
use backend::auth::session::Session;
use backend::data_source::event::EventStore;
use backend::error::Error;
use backend::wire::committee::{CommitteeId, CommitteeRole, UserCommittee};
use backend::wire::event::{
    ActivityType, Answer, Date, EventContent, EventId, Metadata, NewRegistration, Question,
    QuestionType, Registration, RegistrationId,
};
use backend::wire::location::LocationId;
use backend::wire::user::UserId;
use backend::wire::Language;

const EVENT: EventId = EventId(7);
const OTHER: EventId = EventId(8);
const OWNER: CommitteeId = CommitteeId(70);
const OPEN: i128 = 50;
const LATE: i128 = 101;
const EARLY: i128 = -1;

fn text(s: &str) -> Language {
    Language { en: s.to_string(), nl: s.to_string() }
}

fn event(registration_max: Option<u64>, waiting_list_max: Option<u64>) -> EventContent {
    EventContent {
        name: text("Alpine course"),
        image: None,
        description: text(""),
        dates: vec![],
        registration_period: Some(Date { start: 0, end: 100 }),
        registration_max,
        waiting_list_max,
        is_published: true,
        required_membership_status: vec![MembershipStatus::Member, MembershipStatus::Affiliated],
        event_type: ActivityType::Course,
        questions: vec![],
        metadata: Metadata { worga: None },
        location: LocationId(1),
        created_by: OWNER,
    }
}

fn session(id: u128, roles: Vec<Role>, status: MembershipStatus) -> Session {
    Session::new(UserId(id), roles, status)
}

fn member(id: u128) -> Session {
    session(id, vec![], MembershipStatus::Member)
}

fn admin() -> Session {
    session(900, vec![Role::Secretary], MembershipStatus::Member)
}

fn chair_terms(user: u128) -> Vec<UserCommittee> {
    vec![UserCommittee {
        user_id: UserId(user),
        committee_id: OWNER,
        role: CommitteeRole::Chair,
        joined: 0,
        left: None,
    }]
}

fn signup(user: Option<u128>, position: Option<u64>) -> NewRegistration {
    NewRegistration { user_id: user.map(UserId), answers: vec![], attended: None, waiting_list_position: position }
}

fn none() -> Vec<UserCommittee> {
    vec![]
}

fn create(
    store: &mut EventStore,
    event: &EventContent,
    actor: Option<&Session>,
    user: Option<u128>,
    id: u128,
    now: i128,
) -> Result<Registration, Error> {
    create_registration_at(store, actor, &none(), &EVENT, event, signup(user, None), RegistrationId(id), now)
}

fn positions(store: &EventStore) -> Vec<(u128, Option<u64>)> {
    store.registrations().iter().map(|r| (r.registration_id.0, r.waiting_list_position)).collect()
}

fn is_dense(store: &EventStore, event: EventId) -> bool {
    let mut held: Vec<u64> = store
        .registrations()
        .iter()
        .filter(|r| r.event_id == event)
        .filter_map(|r| r.waiting_list_position)
        .collect();
    held.sort();
    held == (0..held.len() as u64).collect::<Vec<u64>>()
}

/// One confirmed registration and three on the waiting list.
fn filled(event: &EventContent) -> EventStore {
    let mut store = EventStore::new();
    for user in 1..=4u128 {
        create(&mut store, event, Some(&member(user)), Some(user), 100 + user, OPEN).unwrap();
    }
    store
}

#[test]
fn create_for_another_user_is_unauthorized() {
    let event = event(None, None);
    let mut store = EventStore::new();
    let res = create(&mut store, &event, Some(&member(1)), Some(2), 101, OPEN);
    assert_eq!(res.unwrap_err(), Error::Unauthorized);
    let res = create(&mut store, &event, None, Some(2), 101, OPEN);
    assert_eq!(res.unwrap_err(), Error::Unauthorized);
    assert!(store.registrations().is_empty());
}

#[test]
fn anonymous_signup_needs_an_event_without_membership() {
    let mut closed = event(None, None);
    let mut store = EventStore::new();
    assert_eq!(create(&mut store, &closed, None, None, 101, OPEN).unwrap_err(), Error::Unauthorized);
    assert_eq!(
        create(&mut store, &closed, Some(&member(1)), None, 101, OPEN).unwrap_err(),
        Error::Unauthorized
    );
    assert_eq!(
        create(&mut store, &closed, Some(&admin()), None, 101, OPEN).unwrap_err(),
        Error::Unauthorized
    );
    closed.required_membership_status = vec![MembershipStatus::NonMember];
    let created = create(&mut store, &closed, None, None, 101, OPEN).unwrap();
    assert_eq!(created.user, None);
    assert_eq!(created.waiting_list_position, None);
}

#[test]
fn membership_status_must_be_accepted() {
    let event = event(None, None);
    let mut store = EventStore::new();
    let donor = session(1, vec![], MembershipStatus::Donor);
    assert_eq!(create(&mut store, &event, Some(&donor), Some(1), 101, OPEN).unwrap_err(), Error::Unauthorized);
    let affiliated = session(2, vec![], MembershipStatus::Affiliated);
    assert!(create(&mut store, &event, Some(&affiliated), Some(2), 102, OPEN).is_ok());
    let mut open_to_all = event;
    open_to_all.required_membership_status.push(MembershipStatus::NonMember);
    assert!(create(&mut store, &open_to_all, Some(&donor), Some(1), 103, OPEN).is_ok());
}

#[test]
fn window_closes_for_those_without_privilege() {
    let event = event(None, None);
    let mut store = EventStore::new();
    assert_eq!(create(&mut store, &event, Some(&member(1)), Some(1), 101, LATE).unwrap_err(), Error::WindowClosed);
    assert_eq!(create(&mut store, &event, Some(&member(1)), Some(1), 101, EARLY).unwrap_err(), Error::WindowClosed);
    assert!(create(&mut store, &event, Some(&member(1)), Some(1), 101, 0).is_ok());
    assert!(create(&mut store, &event, Some(&member(2)), Some(2), 102, 100).is_ok());
    assert!(create(&mut store, &event, Some(&admin()), Some(3), 103, LATE).is_ok());
    let chair = member(5);
    let res = create_registration_at(
        &mut store, Some(&chair), &chair_terms(5), &EVENT, &event, signup(Some(4), None), RegistrationId(104), LATE,
    );
    assert!(res.is_ok());

    let mut never = event;
    never.registration_period = None;
    assert_eq!(create(&mut store, &never, Some(&member(6)), Some(6), 106, OPEN).unwrap_err(), Error::WindowClosed);
    assert!(create(&mut store, &never, Some(&admin()), Some(6), 106, OPEN).is_ok());
}

#[test]
fn authorization_is_checked_before_the_window() {
    let event = event(None, None);
    let mut store = EventStore::new();
    let res = create(&mut store, &event, Some(&member(1)), Some(2), 101, LATE);
    assert_eq!(res.unwrap_err(), Error::Unauthorized);
}

#[test]
fn window_is_checked_before_eligibility_and_answers() {
    let mut event = event(None, None);
    event.questions = vec![Question { id: 1, question: text("Diet?"), question_type: QuestionType::ShortText, required: true }];
    let mut store = EventStore::new();
    let donor = session(1, vec![], MembershipStatus::Donor);
    assert_eq!(create(&mut store, &event, Some(&donor), Some(1), 101, LATE).unwrap_err(), Error::WindowClosed);
    assert_eq!(create(&mut store, &event, Some(&donor), Some(1), 101, OPEN).unwrap_err(), Error::Unauthorized);
    assert_eq!(
        create(&mut store, &event, Some(&member(2)), Some(2), 102, OPEN).unwrap_err(),
        Error::MissingRequiredAnswer
    );
    assert_eq!(
        create(&mut store, &event, Some(&admin()), Some(2), 102, OPEN).unwrap_err(),
        Error::MissingRequiredAnswer
    );
    let mut answered = signup(Some(2), None);
    answered.answers = vec![Answer { question_id: 1, answer: "none".to_string() }];
    let created = create_registration_at(
        &mut store, Some(&member(2)), &none(), &EVENT, &event, answered, RegistrationId(102), OPEN,
    )
    .unwrap();
    assert_eq!(created.answers[0].answer, "none");
}

#[test]
fn answers_are_checked_before_the_capacity() {
    let mut event = event(Some(0), Some(0));
    event.questions = vec![Question { id: 1, question: text("Diet?"), question_type: QuestionType::ShortText, required: true }];
    let mut store = EventStore::new();
    assert_eq!(
        create(&mut store, &event, Some(&member(2)), Some(2), 102, OPEN).unwrap_err(),
        Error::MissingRequiredAnswer
    );
}

#[test]
fn known_identity_is_an_internal_error() {
    let event = event(None, None);
    let mut store = EventStore::new();
    create(&mut store, &event, Some(&member(1)), Some(1), 101, OPEN).unwrap();
    assert_eq!(create(&mut store, &event, Some(&member(2)), Some(2), 101, OPEN).unwrap_err(), Error::Internal);
    assert_eq!(store.registrations().len(), 1);
}

#[test]
fn confirmed_seats_stay_within_the_bound() {
    let event = event(Some(3), None);
    let mut store = EventStore::new();
    for user in 1..=10u128 {
        create(&mut store, &event, Some(&member(user)), Some(user), 100 + user, OPEN).unwrap();
        assert!(store.registration_count(&EVENT) <= 3);
        assert!(is_dense(&store, EVENT));
    }
    assert_eq!(store.registration_count(&EVENT), 3);
    assert_eq!(store.waiting_list_count(&EVENT), 7);
}

#[test]
fn privileged_create_may_exceed_the_bound() {
    let event = event(Some(1), Some(1));
    let mut store = EventStore::new();
    for user in 1..=3u128 {
        create(&mut store, &event, Some(&admin()), Some(user), 100 + user, OPEN).unwrap();
    }
    assert_eq!(store.registration_count(&EVENT), 3);
    let queued = create(&mut store, &event, Some(&member(4)), Some(4), 104, OPEN).unwrap();
    assert_eq!(queued.waiting_list_position, Some(0));
    assert_eq!(store.registration_count(&EVENT), 3);
}

#[test]
fn counts_of_other_events_do_not_matter() {
    let event = event(Some(1), Some(1));
    let mut store = EventStore::new();
    for user in 1..=3u128 {
        create_registration_at(
            &mut store, Some(&member(user)), &none(), &OTHER, &event, signup(Some(user), None), RegistrationId(user), OPEN,
        )
        .ok();
    }
    let created = create(&mut store, &event, Some(&member(9)), Some(9), 109, OPEN).unwrap();
    assert_eq!(created.waiting_list_position, None);
    assert_eq!(created.event_id, EVENT);
}

#[test]
fn self_update_changes_neither_position_nor_attendance() {
    let event = event(Some(1), None);
    let mut store = filled(&event);
    let before = positions(&store);
    for requested in [None, Some(0), Some(1), Some(2), Some(3), Some(17)] {
        let written = update_registration_at(
            &mut store,
            &member(3),
            &none(),
            &EVENT,
            &event,
            &RegistrationId(103),
            NewRegistration {
                user_id: None,
                answers: vec![Answer { question_id: 1, answer: "changed".to_string() }],
                attended: Some(true),
                waiting_list_position: requested,
            },
            OPEN + 1,
        )
        .unwrap();
        assert_eq!(written.waiting_list_position, Some(1));
        assert_eq!(written.attended, None);
        assert_eq!(written.answers[0].answer, "changed");
        assert_eq!(written.updated, OPEN + 1);
        assert_eq!(positions(&store), before);
    }
}

#[test]
fn update_checks_who_and_when() {
    let event = event(Some(1), None);
    let mut store = filled(&event);
    let update = |store: &mut EventStore, actor: &Session, event_id: &EventId, id: u128, now: i128| {
        update_registration_at(store, actor, &none(), event_id, &event, &RegistrationId(id), signup(None, None), now)
            .map(|r| r.waiting_list_position)
    };
    assert_eq!(update(&mut store, &member(3), &EVENT, 999, OPEN), Err(Error::NotFound));
    assert_eq!(update(&mut store, &member(3), &OTHER, 103, OPEN), Err(Error::NotFound));
    assert_eq!(update(&mut store, &member(2), &EVENT, 103, OPEN), Err(Error::Unauthorized));
    assert_eq!(update(&mut store, &member(3), &EVENT, 103, LATE), Err(Error::WindowClosed));
    assert_eq!(update(&mut store, &member(3), &EVENT, 103, OPEN), Ok(Some(1)));
    assert_eq!(update(&mut store, &admin(), &EVENT, 103, LATE), Ok(None));
    assert!(is_dense(&store, EVENT));
    assert_eq!(store.waiting_list_count(&EVENT), 2);
    assert_eq!(store.registration_count(&EVENT), 2);
}

#[test]
fn only_privileged_actors_touch_anonymous_registrations() {
    let mut event = event(None, None);
    event.required_membership_status = vec![MembershipStatus::NonMember];
    let mut store = EventStore::new();
    create(&mut store, &event, None, None, 101, OPEN).unwrap();
    let res = update_registration_at(
        &mut store, &member(1), &none(), &EVENT, &event, &RegistrationId(101), signup(None, None), OPEN,
    );
    assert_eq!(res.unwrap_err(), Error::Unauthorized);
    let res = delete_registration_at(&mut store, &member(1), &none(), &EVENT, &event, &RegistrationId(101), OPEN);
    assert_eq!(res, Err(Error::Unauthorized));
    let res = delete_registration_at(&mut store, &member(1), &chair_terms(1), &EVENT, &event, &RegistrationId(101), OPEN);
    assert_eq!(res, Ok(()));
    assert!(store.registrations().is_empty());
}

#[test]
fn privileged_update_reaches_only_what_policy_and_store_both_allow() {
    let event = event(Some(1), None);
    let mut store = filled(&event);
    let mut ask = |id: u128, position: Option<u64>| {
        update_registration_at(
            &mut store, &admin(), &none(), &EVENT, &event, &RegistrationId(id), signup(None, position), OPEN,
        )
        .map(|r| r.waiting_list_position)
    };
    assert_eq!(ask(103, Some(1)), Ok(Some(1)));
    assert_eq!(ask(103, Some(0)), Err(Error::InvalidPosition));
    assert_eq!(ask(103, Some(2)), Err(Error::InvalidPosition));
    assert_eq!(ask(103, Some(3)), Err(Error::CannotReorderArbitrarily));
    assert_eq!(ask(101, Some(3)), Err(Error::CannotReorderArbitrarily));
    assert_eq!(ask(103, None), Ok(None));
    assert_eq!(ask(102, None), Ok(None));
    assert_eq!(ask(104, None), Ok(None));
    assert_eq!(ask(101, Some(0)), Ok(Some(0)));
    assert_eq!(positions(&store), vec![(101, Some(0)), (102, None), (103, None), (104, None)]);
}

#[test]
fn privileged_update_marks_attendance() {
    let event = event(None, None);
    let mut store = filled(&event);
    let written = update_registration_at(
        &mut store,
        &admin(),
        &none(),
        &EVENT,
        &event,
        &RegistrationId(102),
        NewRegistration { user_id: None, answers: vec![], attended: Some(false), waiting_list_position: None },
        LATE,
    )
    .unwrap();
    assert_eq!(written.attended, Some(false));
    assert_eq!(store.get_registration(&RegistrationId(102)).unwrap().attended, Some(false));
    assert_eq!(store.get_registration(&RegistrationId(101)).unwrap().attended, None);
}

#[test]
fn delete_checks_who_and_when() {
    let event = event(Some(1), None);
    let mut store = filled(&event);
    let mut delete = |actor: &Session, event_id: &EventId, id: u128, now: i128| {
        delete_registration_at(&mut store, actor, &none(), event_id, &event, &RegistrationId(id), now)
    };
    assert_eq!(delete(&member(1), &EVENT, 999, OPEN), Err(Error::NotFound));
    assert_eq!(delete(&member(1), &OTHER, 101, OPEN), Err(Error::NotFound));
    assert_eq!(delete(&member(2), &EVENT, 101, OPEN), Err(Error::Unauthorized));
    assert_eq!(delete(&member(1), &EVENT, 101, LATE), Err(Error::WindowClosed));
    assert_eq!(delete(&member(1), &EVENT, 101, EARLY), Err(Error::WindowClosed));
    assert_eq!(delete(&admin(), &EVENT, 103, LATE), Ok(()));
    assert_eq!(delete(&member(1), &EVENT, 101, OPEN), Ok(()));
    assert_eq!(positions(&store), vec![(102, None), (104, Some(0))]);
}

#[test]
fn any_sequence_keeps_the_queue_dense() {
    let event = event(Some(2), Some(4));
    let mut store = EventStore::new();
    let mut next: u128 = 1;
    let mut seed: u64 = 12345;
    for step in 0..400 {
        seed = seed.wrapping_mul(6364136223846793005).wrapping_add(1442695040888963407);
        let pick = (seed >> 33) as usize;
        let now = OPEN;
        let ids: Vec<u128> = store.registrations().iter().map(|r| r.registration_id.0).collect();
        match pick % 5 {
            0 | 1 => {
                let actor = if pick % 7 == 0 { admin() } else { member(next) };
                let requested = if pick % 3 == 0 { Some((pick % 6) as u64) } else { None };
                create_registration_at(
                    &mut store, Some(&actor), &none(), &EVENT, &event, signup(Some(next), requested),
                    RegistrationId(next), now,
                )
                .ok();
                next += 1;
            }
            2 | 3 if !ids.is_empty() => {
                let id = ids[pick % ids.len()];
                let actor = if pick % 2 == 0 { admin() } else { member(id) };
                let requested = if pick % 3 == 0 { None } else { Some((pick % 6) as u64) };
                update_registration_at(
                    &mut store, &actor, &none(), &EVENT, &event, &RegistrationId(id), signup(None, requested), now,
                )
                .ok();
            }
            4 if !ids.is_empty() => {
                let id = ids[pick % ids.len()];
                let actor = if pick % 2 == 0 { admin() } else { member(id) };
                delete_registration_at(&mut store, &actor, &none(), &EVENT, &event, &RegistrationId(id), now).ok();
            }
            _ => {}
        }
        assert!(is_dense(&store, EVENT), "after step {}", step);
        assert!(store.waiting_list_count(&EVENT) <= 4 || store.registrations().len() > 6);
    }
    assert!(next > 50);
}

#[test]
fn create_update_delete_at_the_present_instant() {
    let mut event = event(Some(1), None);
    event.registration_period = Some(Date { start: 0, end: i128::MAX });
    let mut store = EventStore::new();
    let first = create_registration(&mut store, Some(&member(1)), &none(), &EVENT, &event, signup(Some(1), None)).unwrap();
    let second = create_registration(&mut store, Some(&member(2)), &none(), &EVENT, &event, signup(Some(2), None)).unwrap();
    assert_ne!(first.registration_id, second.registration_id);
    assert_eq!(first.waiting_list_position, None);
    assert_eq!(second.waiting_list_position, Some(0));
    assert!(first.created > 1_600_000_000_000_000_000);

    let written = update_registration(
        &mut store, &member(2), &none(), &EVENT, &event, &second.registration_id, signup(None, None),
    )
    .unwrap();
    assert_eq!(written.waiting_list_position, Some(0));
    assert!(written.updated >= second.created);

    assert_eq!(
        delete_registration(&mut store, &member(1), &none(), &EVENT, &event, &first.registration_id),
        Ok(())
    );
    assert_eq!(store.get_registration(&second.registration_id).unwrap().waiting_list_position, None);

    event.registration_period = Some(Date { start: 0, end: 1 });
    let late = create_registration(&mut store, Some(&member(3)), &none(), &EVENT, &event, signup(Some(3), None));
    assert_eq!(late.unwrap_err(), Error::WindowClosed);
    let late = delete_registration(&mut store, &member(2), &none(), &EVENT, &event, &second.registration_id);
    assert_eq!(late, Err(Error::WindowClosed));
}

#[test]
fn registration_is_shown_to_those_it_concerns() {
    let event = event(None, None);
    let store = filled(&event);
    let read = |actor: &Session, terms: &Vec<UserCommittee>, id: u128| {
        get_registration(&store, actor, terms, &OWNER, &RegistrationId(id)).map(|r| r.registration_id.0)
    };
    assert_eq!(read(&member(1), &none(), 101), Ok(101));
    assert_eq!(read(&member(2), &none(), 101), Err(Error::Unauthorized));
    assert_eq!(read(&admin(), &none(), 101), Ok(101));
    assert_eq!(read(&member(2), &chair_terms(2), 101), Ok(101));
    assert_eq!(read(&member(1), &none(), 999), Err(Error::NotFound));
}

#[test]
fn registration_access_names_who_may_act() {
    let chair = chair_terms(5);
    assert_eq!(has_registration_access(&UserId(1), &member(1), &none(), None), Ok(()));
    assert_eq!(has_registration_access(&UserId(1), &member(2), &none(), None), Err(Error::Unauthorized));
    assert_eq!(has_registration_access(&UserId(1), &admin(), &none(), None), Ok(()));
    assert_eq!(has_registration_access(&UserId(1), &member(5), &chair, Some(&OWNER)), Ok(()));
    assert_eq!(has_registration_access(&UserId(1), &member(5), &chair, None), Err(Error::Unauthorized));
    assert_eq!(
        has_registration_access(&UserId(1), &member(5), &chair, Some(&CommitteeId(71))),
        Err(Error::Unauthorized)
    );
}

#[test]
fn list_access_follows_the_rules_in_their_order() {
    let mut event = event(None, None);
    let member_term = vec![UserCommittee {
        user_id: UserId(3),
        committee_id: OWNER,
        role: CommitteeRole::Member,
        joined: 0,
        left: None,
    }];
    let ended_term = vec![UserCommittee {
        user_id: UserId(3),
        committee_id: OWNER,
        role: CommitteeRole::Member,
        joined: 0,
        left: Some(5),
    }];
    let donor = session(4, vec![], MembershipStatus::Donor);
    let donor_on_committee = session(3, vec![], MembershipStatus::Donor);
    assert_eq!(registration_list_access(Some(&admin()), &none(), &event, None), Ok(ListAccess::Detailed));
    assert_eq!(registration_list_access(Some(&donor), &none(), &event, Some(4)), Ok(ListAccess::Detailed));
    assert_eq!(registration_list_access(Some(&donor), &none(), &event, Some(5)), Err(Error::Unauthorized));
    assert_eq!(registration_list_access(Some(&donor), &chair_terms(4), &event, None), Ok(ListAccess::Detailed));
    assert_eq!(registration_list_access(Some(&donor), &chair_terms(5), &event, None), Err(Error::Unauthorized));
    assert_eq!(registration_list_access(Some(&member(3)), &member_term, &event, None), Ok(ListAccess::Names));
    assert_eq!(
        registration_list_access(Some(&donor_on_committee), &member_term, &event, None),
        Err(Error::Unauthorized)
    );
    assert_eq!(registration_list_access(Some(&member(3)), &ended_term, &event, None), Ok(ListAccess::Names));
    assert_eq!(registration_list_access(Some(&member(2)), &member_term, &event, None), Ok(ListAccess::Names));
    assert_eq!(registration_list_access(Some(&donor), &none(), &event, None), Err(Error::Unauthorized));
    assert_eq!(registration_list_access(None, &none(), &event, None), Err(Error::Unauthorized));
    event.required_membership_status = vec![MembershipStatus::NonMember];
    assert_eq!(registration_list_access(None, &none(), &event, None), Ok(ListAccess::Names));
    assert_eq!(registration_list_access(Some(&donor), &none(), &event, None), Ok(ListAccess::Names));
}

#[test]
fn organiser_on_site_is_read_from_the_text() {
    let mut event = event(None, None);
    let store = filled(&event);
    let organiser = session(0xa1a2a3a4b1b2c1c2d1d2d3d4d5d6d7d8, vec![], MembershipStatus::Donor);
    let list = |event: &EventContent| match get_event_registrations(&store, Some(&organiser), &none(), &EVENT, event) {
        Ok(RegistrationList::Detailed(found)) => Ok(found.len()),
        Ok(RegistrationList::Names(_)) => Ok(0),
        Err(e) => Err(e),
    };
    assert_eq!(list(&event), Err(Error::Unauthorized));
    event.metadata.worga = Some("a1a2a3a4-b1b2-c1c2-d1d2-d3d4d5d6d7d8".to_string());
    assert_eq!(list(&event), Ok(4));
    event.metadata.worga = Some("A1A2A3A4B1B2C1C2D1D2D3D4D5D6D7D8".to_string());
    assert_eq!(list(&event), Ok(4));
    event.metadata.worga = Some("a1a2a3a4-b1b2-c1c2-d1d2-d3d4d5d6d7d9".to_string());
    assert_eq!(list(&event), Err(Error::Unauthorized));
    event.metadata.worga = Some("the chair".to_string());
    assert_eq!(list(&event), Err(Error::Unauthorized));
}

#[test]
fn members_get_the_names() {
    let event = event(None, None);
    let store = filled(&event);
    match get_event_registrations(&store, Some(&member(50)), &none(), &EVENT, &event) {
        Ok(RegistrationList::Names(users)) => {
            assert_eq!(users, vec![UserId(1), UserId(2), UserId(3), UserId(4)])
        }
        other => panic!("expected the names, got {:?}", other),
    }
    match get_event_registrations(&store, Some(&admin()), &none(), &EVENT, &event) {
        Ok(RegistrationList::Detailed(found)) => {
            let ids: Vec<u128> = found.iter().map(|r| r.registration_id.0).collect();
            assert_eq!(ids, vec![101, 102, 103, 104]);
        }
        other => panic!("expected the details, got {:?}", other),
    }
}

#[test]
fn user_registrations_are_those_of_the_actor() {
    let event = event(None, None);
    let mut store = filled(&event);
    create_registration_at(
        &mut store, Some(&member(1)), &none(), &OTHER, &event, signup(Some(1), None), RegistrationId(201), OPEN,
    )
    .unwrap();
    let own: Vec<u128> = get_user_registrations(&store, &UserId(1), &member(1))
        .unwrap()
        .iter()
        .map(|r| r.registration_id.0)
        .collect();
    assert_eq!(own, vec![101, 201]);
    assert_eq!(get_user_registrations(&store, &UserId(1), &member(2)).unwrap_err(), Error::Unauthorized);
    assert!(get_user_registrations(&store, &UserId(1), &admin()).unwrap().is_empty());
}

#[test]
fn event_is_read_with_its_counts() {
    let content = event(Some(1), None);
    let store = filled(&content);
    let read = get_event(&store, None, &EVENT, event(Some(1), None), 10, 20).unwrap();
    assert_eq!(read.id, EVENT);
    assert_eq!(read.created, 10);
    assert_eq!(read.updated, 20);
    assert_eq!(read.registration_count, 1);
    assert_eq!(read.waiting_list_count, 3);
    assert_eq!(read.content.registration_max, Some(1));
    let elsewhere = get_event(&store, None, &OTHER, event(Some(1), None), 10, 20).unwrap();
    assert_eq!(elsewhere.registration_count, 0);
    assert_eq!(elsewhere.waiting_list_count, 0);
}

#[test]
fn hidden_event_is_for_the_board_only() {
    let mut hidden = event(None, None);
    hidden.is_published = false;
    let hide = || {
        let mut e = event(None, None);
        e.is_published = false;
        e
    };
    let store = filled(&hidden);
    assert_eq!(get_event(&store, None, &EVENT, hide(), 0, 0).unwrap_err(), Error::NotFound);
    assert_eq!(get_event(&store, Some(&member(1)), &EVENT, hide(), 0, 0).unwrap_err(), Error::NotFound);
    let seen = get_event(&store, Some(&admin()), &EVENT, hide(), 0, 0).unwrap();
    assert_eq!(seen.registration_count, 4);
    assert_eq!(store.get_event(&EVENT, hide(), 0, 0, false).unwrap_err(), Error::NotFound);
    assert_eq!(store.get_event(&EVENT, hide(), 0, 0, true).unwrap().waiting_list_count, 0);
    assert!(store.get_event(&EVENT, event(None, None), 0, 0, false).is_ok());
}
