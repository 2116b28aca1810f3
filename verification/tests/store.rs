use backend::data_source::event::EventStore;
use backend::error::Error;
use backend::wire::event::{Answer, EventId, NewRegistration, Registration, RegistrationId};
use backend::wire::user::UserId;

const A: EventId = EventId(1);
const B: EventId = EventId(2);

fn row(id: u128, event: EventId, user: Option<u128>, position: Option<u64>) -> Registration {
    Registration {
        registration_id: RegistrationId(id),
        event_id: event,
        user: user.map(UserId),
        attended: None,
        waiting_list_position: position,
        answers: vec![],
        created: 1,
        updated: 1,
    }
}

fn new(position: Option<u64>) -> NewRegistration {
    NewRegistration { user_id: None, answers: vec![], attended: None, waiting_list_position: position }
}

/// One confirmed and four queued registrations of event A, and one confirmed
/// and two queued registrations of event B, interleaved.
fn table() -> EventStore {
    EventStore::from_registrations(vec![
        row(10, A, Some(1), None),
        row(20, B, Some(1), Some(1)),
        row(11, A, Some(2), Some(2)),
        row(12, A, None, Some(0)),
        row(21, B, Some(3), None),
        row(13, A, Some(4), Some(3)),
        row(22, B, None, Some(0)),
        row(14, A, Some(5), Some(1)),
    ])
    .unwrap()
}

fn positions(store: &EventStore) -> Vec<(u128, Option<u64>)> {
    store
        .registrations()
        .iter()
        .map(|r| (r.registration_id.0, r.waiting_list_position))
        .collect()
}

fn is_dense(store: &EventStore, event: EventId) -> bool {
    let mut held: Vec<u64> = store
        .registrations()
        .iter()
        .filter(|r| r.event_id == event)
        .filter_map(|r| r.waiting_list_position)
        .collect();
    held.sort();
    held == (0..held.len() as u64).collect::<Vec<u64>>()
}

#[test]
fn empty_store_has_nothing() {
    let store = EventStore::new();
    assert!(store.registrations().is_empty());
    assert_eq!(store.registration_count(&A), 0);
    assert_eq!(store.waiting_list_count(&A), 0);
    assert_eq!(store.get_registration(&RegistrationId(1)).unwrap_err(), Error::NotFound);
}

#[test]
fn shared_identity_is_no_store() {
    assert!(EventStore::from_registrations(vec![row(1, A, None, None), row(1, B, None, None)]).is_none());
    assert!(EventStore::from_registrations(vec![
        row(1, A, None, None),
        row(2, A, None, None),
        row(3, A, None, None),
        row(2, B, None, Some(0)),
    ])
    .is_none());
    assert!(EventStore::from_registrations(vec![]).is_some());
    assert!(EventStore::from_registrations(vec![row(1, A, None, None), row(2, A, None, None)]).is_some());
}

#[test]
fn counts_are_per_event() {
    let store = table();
    assert_eq!(store.registration_count(&A), 1);
    assert_eq!(store.waiting_list_count(&A), 4);
    assert_eq!(store.registration_count(&B), 1);
    assert_eq!(store.waiting_list_count(&B), 2);
    assert_eq!(store.registration_count(&EventId(3)), 0);
    assert_eq!(store.waiting_list_count(&EventId(3)), 0);
}

#[test]
fn leaving_the_queue_closes_the_gap() {
    let mut store = table();
    assert_eq!(store.remove_from_waiting_list(&RegistrationId(14)), Ok(Some(1)));
    assert_eq!(
        positions(&store),
        vec![
            (10, None),
            (20, Some(1)),
            (11, Some(1)),
            (12, Some(0)),
            (21, None),
            (13, Some(2)),
            (22, Some(0)),
            (14, None),
        ]
    );
    assert!(is_dense(&store, A));
    assert!(is_dense(&store, B));
    assert_eq!(store.registration_count(&A), 2);
    assert_eq!(store.waiting_list_count(&A), 3);
}

#[test]
fn leaving_the_queue_twice_changes_nothing_more() {
    let mut store = table();
    assert_eq!(store.remove_from_waiting_list(&RegistrationId(10)), Ok(None));
    assert_eq!(positions(&store), positions(&table()));
    assert_eq!(store.remove_from_waiting_list(&RegistrationId(12)), Ok(Some(0)));
    let once = positions(&store);
    assert_eq!(store.remove_from_waiting_list(&RegistrationId(12)), Ok(None));
    assert_eq!(positions(&store), once);
}

#[test]
fn leaving_the_queue_of_a_missing_registration() {
    let mut store = table();
    assert_eq!(store.remove_from_waiting_list(&RegistrationId(99)), Err(Error::NotFound));
    assert_eq!(positions(&store), positions(&table()));
}

#[test]
fn reposition_to_the_current_position_is_a_no_op() {
    let mut store = table();
    assert_eq!(store.update_waiting_list_position(&RegistrationId(11), Some(2), 77), Ok(()));
    assert_eq!(store.update_waiting_list_position(&RegistrationId(10), None, 77), Ok(()));
    assert_eq!(positions(&store), positions(&table()));
    assert_eq!(store.get_registration(&RegistrationId(11)).unwrap().updated, 1);
}

#[test]
fn reposition_to_none_promotes() {
    let mut store = table();
    assert_eq!(store.update_waiting_list_position(&RegistrationId(12), None, 77), Ok(()));
    assert_eq!(
        positions(&store),
        vec![
            (10, None),
            (20, Some(1)),
            (11, Some(1)),
            (12, None),
            (21, None),
            (13, Some(2)),
            (22, Some(0)),
            (14, Some(0)),
        ]
    );
    assert_eq!(store.get_registration(&RegistrationId(12)).unwrap().updated, 1);
}

#[test]
fn reposition_to_the_tail() {
    let mut store = table();
    assert_eq!(store.update_waiting_list_position(&RegistrationId(12), Some(3), 77), Ok(()));
    assert_eq!(
        positions(&store),
        vec![
            (10, None),
            (20, Some(1)),
            (11, Some(1)),
            (12, Some(3)),
            (21, None),
            (13, Some(2)),
            (22, Some(0)),
            (14, Some(0)),
        ]
    );
    assert!(is_dense(&store, A));
    assert_eq!(store.get_registration(&RegistrationId(12)).unwrap().updated, 77);
    assert_eq!(store.get_registration(&RegistrationId(13)).unwrap().updated, 1);
}

#[test]
fn reposition_to_the_front_makes_room() {
    let mut store = table();
    assert_eq!(store.update_waiting_list_position(&RegistrationId(13), Some(0), 77), Ok(()));
    assert_eq!(
        positions(&store),
        vec![
            (10, None),
            (20, Some(1)),
            (11, Some(3)),
            (12, Some(1)),
            (21, None),
            (13, Some(0)),
            (22, Some(0)),
            (14, Some(2)),
        ]
    );
    assert!(is_dense(&store, A));
    assert!(is_dense(&store, B));
    assert_eq!(store.waiting_list_count(&A), 4);
    assert_eq!(store.get_registration(&RegistrationId(13)).unwrap().updated, 77);
    assert_eq!(store.get_registration(&RegistrationId(11)).unwrap().updated, 1);
}

#[test]
fn reposition_to_the_front_moves_only_those_that_stood_before() {
    let mut store = table();
    assert_eq!(store.update_waiting_list_position(&RegistrationId(14), Some(0), 77), Ok(()));
    assert_eq!(
        positions(&store),
        vec![
            (10, None),
            (20, Some(1)),
            (11, Some(2)),
            (12, Some(1)),
            (21, None),
            (13, Some(3)),
            (22, Some(0)),
            (14, Some(0)),
        ]
    );
    assert!(is_dense(&store, A));
}

#[test]
fn confirmed_registration_takes_the_front() {
    let mut store = table();
    assert_eq!(store.update_waiting_list_position(&RegistrationId(10), Some(0), 77), Ok(()));
    assert_eq!(
        positions(&store),
        vec![
            (10, Some(0)),
            (20, Some(1)),
            (11, Some(3)),
            (12, Some(1)),
            (21, None),
            (13, Some(4)),
            (22, Some(0)),
            (14, Some(2)),
        ]
    );
    assert!(is_dense(&store, A));
    assert!(is_dense(&store, B));
    assert_eq!(store.waiting_list_count(&A), 5);
    assert_eq!(store.registration_count(&A), 0);
}

#[test]
fn front_is_refused_where_nobody_can_move_back() {
    let rows = vec![row(1, A, None, None), row(2, A, None, Some(u64::MAX)), row(3, B, None, Some(0))];
    let mut store = EventStore::from_registrations(rows).unwrap();
    assert_eq!(store.update_waiting_list_position(&RegistrationId(1), Some(0), 77), Err(Error::Internal));
    assert_eq!(positions(&store), vec![(1, None), (2, Some(u64::MAX)), (3, Some(0))]);
    let refused = store.update_registration_at(&RegistrationId(1), new(Some(0)), 77);
    assert_eq!(refused.unwrap_err(), Error::Internal);
    assert_eq!(store.get_registration(&RegistrationId(1)).unwrap().updated, 1);
    assert_eq!(store.update_waiting_list_position(&RegistrationId(2), Some(0), 77), Ok(()));
    assert_eq!(positions(&store), vec![(1, None), (2, Some(0)), (3, Some(0))]);
}

#[test]
fn reposition_into_an_empty_queue() {
    let mut store = EventStore::from_registrations(vec![row(1, A, None, None), row(2, B, None, Some(0))]).unwrap();
    assert_eq!(store.update_waiting_list_position(&RegistrationId(1), Some(0), 5), Ok(()));
    assert_eq!(positions(&store), vec![(1, Some(0)), (2, Some(0))]);
    assert!(is_dense(&store, A));
    assert!(is_dense(&store, B));
}

#[test]
fn reposition_elsewhere_is_refused() {
    let mut store = table();
    for position in [1u64, 2, 4, 5, 100] {
        assert_eq!(
            store.update_waiting_list_position(&RegistrationId(12), Some(position), 77),
            Err(Error::CannotReorderArbitrarily)
        );
    }
    assert_eq!(
        store.update_waiting_list_position(&RegistrationId(10), Some(4), 77),
        Err(Error::CannotReorderArbitrarily)
    );
    assert_eq!(positions(&store), positions(&table()));
    assert_eq!(
        store.update_waiting_list_position(&RegistrationId(99), Some(0), 77),
        Err(Error::NotFound)
    );
}

#[test]
fn confirmed_registration_takes_the_tail_behind_everybody() {
    let mut store = table();
    assert_eq!(store.update_waiting_list_position(&RegistrationId(10), Some(3), 77), Ok(()));
    assert_eq!(store.get_registration(&RegistrationId(10)).unwrap().waiting_list_position, Some(4));
    assert_eq!(store.get_registration(&RegistrationId(13)).unwrap().waiting_list_position, Some(3));
    assert!(is_dense(&store, A));
    assert_eq!(store.waiting_list_count(&A), 5);
    assert_eq!(store.registration_count(&A), 0);
    assert_eq!(store.get_registration(&RegistrationId(10)).unwrap().updated, 77);
}

#[test]
fn every_accepted_reposition_keeps_the_queue_dense() {
    let ids = [10u128, 11, 12, 13, 14];
    for id in ids {
        for requested in [None, Some(0), Some(1), Some(2), Some(3), Some(4), Some(5)] {
            let mut store = table();
            let res = store.update_waiting_list_position(&RegistrationId(id), requested, 77);
            assert!(is_dense(&store, A), "{} to {:?}", id, requested);
            assert!(is_dense(&store, B), "{} to {:?}", id, requested);
            assert_eq!(store.registrations().len(), 8);
            if res.is_err() {
                assert_eq!(res, Err(Error::CannotReorderArbitrarily));
                assert_eq!(positions(&store), positions(&table()));
            }
        }
    }
}

#[test]
fn deleting_a_queued_registration_closes_the_gap() {
    let mut store = table();
    assert_eq!(store.delete_registration(&RegistrationId(11)), Ok(()));
    assert_eq!(
        positions(&store),
        vec![
            (10, None),
            (20, Some(1)),
            (12, Some(0)),
            (21, None),
            (13, Some(2)),
            (22, Some(0)),
            (14, Some(1)),
        ]
    );
    assert!(is_dense(&store, A));
    assert_eq!(store.registration_count(&A), 1);
}

#[test]
fn deleting_a_confirmed_registration_promotes_the_head() {
    let mut store = table();
    assert_eq!(store.delete_registration(&RegistrationId(10)), Ok(()));
    assert_eq!(
        positions(&store),
        vec![
            (20, Some(1)),
            (11, Some(1)),
            (12, None),
            (21, None),
            (13, Some(2)),
            (22, Some(0)),
            (14, Some(0)),
        ]
    );
    assert!(is_dense(&store, A));
    assert!(is_dense(&store, B));
    assert_eq!(store.registration_count(&A), 1);
    assert_eq!(store.waiting_list_count(&A), 3);
}

#[test]
fn deleting_the_last_confirmed_registration_of_an_empty_queue() {
    let mut store = EventStore::from_registrations(vec![row(1, A, None, None), row(2, B, None, Some(0))]).unwrap();
    assert_eq!(store.delete_registration(&RegistrationId(1)), Ok(()));
    assert_eq!(positions(&store), vec![(2, Some(0))]);
    assert_eq!(store.delete_registration(&RegistrationId(1)), Err(Error::NotFound));
    assert_eq!(positions(&store), vec![(2, Some(0))]);
}

#[test]
fn insert_appends_and_refuses_a_known_identity() {
    let mut store = EventStore::new();
    let answers = vec![Answer { question_id: 5, answer: "vegetarian".to_string() }];
    let created = store
        .insert(
            RegistrationId(1),
            &A,
            Some(UserId(9)),
            NewRegistration {
                user_id: Some(UserId(4)),
                answers,
                attended: Some(true),
                waiting_list_position: Some(0),
            },
            42,
        )
        .unwrap();
    assert_eq!(created.registration_id, RegistrationId(1));
    assert_eq!(created.event_id, A);
    assert_eq!(created.user, Some(UserId(9)));
    assert_eq!(created.attended, None);
    assert_eq!(created.waiting_list_position, Some(0));
    assert_eq!(created.answers.len(), 1);
    assert_eq!(created.answers[0].question_id, 5);
    assert_eq!(created.answers[0].answer, "vegetarian");
    assert_eq!(created.created, 42);
    assert_eq!(created.updated, 42);
    assert_eq!(store.registrations().len(), 1);
    assert_eq!(store.registrations()[0].answers[0].answer, "vegetarian");

    let again = store.insert(RegistrationId(1), &B, None, new(None), 43);
    assert_eq!(again.unwrap_err(), Error::Internal);
    assert_eq!(store.registrations().len(), 1);
    assert_eq!(store.registrations()[0].event_id, A);
}

#[test]
fn writing_into_an_empty_store_succeeds() {
    for _ in 0..50 {
        let mut store = EventStore::new();
        let created = store.new_registration(&A, None, new(Some(0))).unwrap();
        assert_eq!(store.registrations().len(), 1);
        assert_eq!(store.registrations()[0].registration_id, created.registration_id);
        assert_eq!(created.event_id, A);
        assert_eq!(created.waiting_list_position, Some(0));
    }
}

#[test]
fn new_registration_gets_an_identity_and_an_instant() {
    let mut store = EventStore::new();
    let first = store.new_registration(&A, Some(UserId(1)), new(None)).unwrap();
    let second = store.new_registration(&A, Some(UserId(2)), new(Some(0))).unwrap();
    assert_ne!(first.registration_id, second.registration_id);
    assert!(first.created > 1_600_000_000_000_000_000);
    assert_eq!(first.created, first.updated);
    assert!(second.created >= first.created);
    assert_eq!(second.waiting_list_position, Some(0));
    assert_eq!(second.user, Some(UserId(2)));
    assert_eq!(store.registrations().len(), 2);
    assert_eq!(store.get_registration(&first.registration_id).unwrap().user, Some(UserId(1)));
}

#[test]
fn update_writes_answers_attendance_and_position() {
    let mut store = table();
    let written = store
        .update_registration_at(
            &RegistrationId(12),
            NewRegistration {
                user_id: Some(UserId(77)),
                answers: vec![Answer { question_id: 3, answer: "late".to_string() }],
                attended: Some(true),
                waiting_list_position: Some(3),
            },
            90,
        )
        .unwrap();
    assert_eq!(written.registration_id, RegistrationId(12));
    assert_eq!(written.user, None);
    assert_eq!(written.attended, Some(true));
    assert_eq!(written.waiting_list_position, Some(3));
    assert_eq!(written.answers[0].answer, "late");
    assert_eq!(written.updated, 90);
    assert_eq!(written.created, 1);
    assert_eq!(store.get_registration(&RegistrationId(14)).unwrap().waiting_list_position, Some(0));
    assert!(is_dense(&store, A));
}

#[test]
fn refused_update_writes_nothing() {
    let mut store = table();
    let refused = store.update_registration_at(
        &RegistrationId(12),
        NewRegistration {
            user_id: None,
            answers: vec![Answer { question_id: 3, answer: "late".to_string() }],
            attended: Some(true),
            waiting_list_position: Some(2),
        },
        90,
    );
    assert_eq!(refused.unwrap_err(), Error::CannotReorderArbitrarily);
    let kept = store.get_registration(&RegistrationId(12)).unwrap();
    assert!(kept.answers.is_empty());
    assert_eq!(kept.attended, None);
    assert_eq!(kept.updated, 1);
    assert_eq!(positions(&store), positions(&table()));
    let missing = store.update_registration_at(&RegistrationId(99), new(None), 90);
    assert_eq!(missing.unwrap_err(), Error::NotFound);
}

#[test]
fn update_at_the_present_instant() {
    let mut store = table();
    let written = store.update_registration(&RegistrationId(10), new(None)).unwrap();
    assert!(written.updated > 1_600_000_000_000_000_000);
    assert_eq!(written.waiting_list_position, None);
}

#[test]
fn lists_leave_out_anonymous_registrations() {
    let store = table();
    let detailed = store.get_registrations_detailed(&A);
    let ids: Vec<u128> = detailed.iter().map(|r| r.registration_id.0).collect();
    assert_eq!(ids, vec![10, 11, 13, 14]);
    assert_eq!(
        store.get_registered_users(&A),
        vec![UserId(1), UserId(2), UserId(4), UserId(5)]
    );
    assert_eq!(store.get_registered_users(&B), vec![UserId(1), UserId(3)]);
    assert!(store.get_registered_users(&EventId(3)).is_empty());
    let of_user: Vec<u128> =
        store.get_user_registrations(&UserId(1)).iter().map(|r| r.registration_id.0).collect();
    assert_eq!(of_user, vec![10, 20]);
    assert!(store.get_user_registrations(&UserId(6)).is_empty());
}
