use backend::api::location::LocationFilter;
use backend::api::{Pagination, ValidatedJson, ValidatedQuery};
use backend::auth::role::{MembershipStatus, Role};
use backend::data_source::Count;
use backend::error::Error;
use backend::validate::{
    has_length_within, has_optional_length_within, is_optional_email, is_optional_number_within,
    verdict, Validate,
};
use backend::wire::committee::{CommitteeContent, CommitteeId};
use backend::wire::material::{Material, UserMaterial};
use backend::wire::event::{
    pair_dates, sorted_date_columns, split_dates, validate_date, ActivityType, Date, EventContent,
    Metadata, NewRegistration, Question, QuestionType,
};
use backend::wire::location::{LocationContent, LocationId};
use backend::wire::page::PageContent;
use backend::wire::user::{Password, RegisterNewUser, User, UserContent, UserCredentials, UserId};
use backend::wire::Language;

fn text(s: &str) -> Language {
    Language { en: s.to_string(), nl: s.to_string() }
}

fn user() -> UserContent {
    UserContent {
        first_name: "Ada".to_string(),
        infix: Some("van".to_string()),
        last_name: "Berg".to_string(),
        phone: "0612345678".to_string(),
        student_number: Some(1234567),
        nkbv_number: None,
        sportcard_number: Some(0),
        ice_contact_name: Some("Bo".to_string()),
        ice_contact_email: Some("bo@example.org".to_string()),
        ice_contact_phone: None,
        important_info: None,
        roles: vec![Role::Treasurer],
        status: MembershipStatus::Member,
        email: "ada@example.org".to_string(),
    }
}

fn registration() -> RegisterNewUser {
    RegisterNewUser {
        first_name: "Ada".to_string(),
        infix: None,
        last_name: "Berg".to_string(),
        email: "ada@example.org".to_string(),
        password: "correct horse".to_string(),
        phone: "0612345678".to_string(),
        student_number: None,
        nkbv_number: None,
        sportcard_number: None,
        ice_contact_name: None,
        ice_contact_email: None,
        ice_contact_phone: None,
        important_info: Some("asthma".to_string()),
        status: MembershipStatus::Member,
    }
}

#[test]
fn lengths_count_characters() {
    assert!(has_length_within("", 0, 0));
    assert!(!has_length_within("", 1, 5));
    assert!(has_length_within("abc", 1, 3));
    assert!(!has_length_within("abcd", 1, 3));
    assert!(has_length_within("äöü", 3, 3));
    assert!(!has_length_within("äöü", 4, 6));
    assert!(has_optional_length_within(&None, 1, 3));
    assert!(!has_optional_length_within(&Some(String::new()), 1, 3));
    assert!(is_optional_number_within(None, 0, 9));
    assert!(is_optional_number_within(Some(9), 0, 9));
    assert!(!is_optional_number_within(Some(10), 0, 9));
    assert!(!is_optional_number_within(Some(-1), 0, 9));
    assert_eq!(verdict(true), Ok(()));
    assert_eq!(verdict(false), Err(Error::Validation));
}

#[test]
fn pagination_rules() {
    assert_eq!(Pagination { limit: 1, offset: 0 }.validate(), Ok(()));
    assert_eq!(Pagination { limit: 50, offset: 1_000_000 }.validate(), Ok(()));
    assert_eq!(Pagination { limit: 0, offset: 0 }.validate(), Err(Error::Validation));
    assert_eq!(Pagination { limit: 51, offset: 0 }.validate(), Err(Error::Validation));
    assert_eq!(Pagination { limit: 10, offset: -1 }.validate(), Err(Error::Validation));
    let filter = LocationFilter { reusable: None, pagination: Pagination { limit: 51, offset: 0 } };
    assert_eq!(filter.validate(), Err(Error::Validation));
    let filter = LocationFilter { reusable: Some(true), pagination: Pagination { limit: 5, offset: 0 } };
    assert_eq!(filter.validate(), Ok(()));
}

#[test]
fn validated_values_passed_validation() {
    let page = Pagination { limit: 10, offset: 0 };
    assert_eq!(ValidatedQuery::new(page).unwrap().0, page);
    assert_eq!(ValidatedJson::new(page).unwrap().0, page);
    let bad = Pagination { limit: 100, offset: 0 };
    assert_eq!(ValidatedQuery::new(bad).unwrap_err(), Error::Validation);
    assert_eq!(ValidatedJson::new(bad).unwrap_err(), Error::Validation);
    assert_eq!(ValidatedJson::new(user()).unwrap().0.first_name, "Ada");
}

#[test]
fn language_rules() {
    assert_eq!(text("").validate(), Ok(()));
    assert_eq!(text(&"x".repeat(50000)).validate(), Ok(()));
    assert_eq!(text(&"x".repeat(50001)).validate(), Err(Error::Validation));
    let one_sided = Language { en: "ok".to_string(), nl: "é".repeat(50001) };
    assert_eq!(one_sided.validate(), Err(Error::Validation));
    let location =
        LocationContent { name: text("Hall"), reusable: true, description: text(&"x".repeat(50001)) };
    assert_eq!(location.validate(), Err(Error::Validation));
    let location = LocationContent { name: text("Hall"), reusable: false, description: text("") };
    assert_eq!(location.validate(), Ok(()));
    let page = PageContent { name: text(&"x".repeat(60000)), content: text(""), is_public: false };
    assert_eq!(page.validate(), Ok(()));
}

#[test]
fn email_addresses() {
    assert!(is_optional_email(&None));
    assert!(is_optional_email(&Some("ada@example.org".to_string())));
    assert!(is_optional_email(&Some("ada.l+climb@sub.example.org".to_string())));
    assert!(!is_optional_email(&Some(String::new())));
    assert!(!is_optional_email(&Some("ada".to_string())));
    assert!(!is_optional_email(&Some("ada@".to_string())));
    assert!(!is_optional_email(&Some("@example.org".to_string())));
    assert!(!is_optional_email(&Some("ada berg@example.org".to_string())));
}

#[test]
fn user_rules() {
    assert_eq!(user().validate(), Ok(()));
    assert!(user().is_valid_given(true, true));
    assert!(!user().is_valid_given(false, true));
    assert!(!user().is_valid_given(true, false));

    let mut u = user();
    u.first_name = String::new();
    assert_eq!(u.validate(), Err(Error::Validation));
    let mut u = user();
    u.last_name = "x".repeat(101);
    assert_eq!(u.validate(), Err(Error::Validation));
    let mut u = user();
    u.last_name = "x".repeat(100);
    assert_eq!(u.validate(), Ok(()));
    let mut u = user();
    u.infix = Some(String::new());
    assert_eq!(u.validate(), Err(Error::Validation));
    let mut u = user();
    u.student_number = Some(1_000_000_000);
    assert_eq!(u.validate(), Err(Error::Validation));
    let mut u = user();
    u.student_number = Some(999_999_999);
    assert_eq!(u.validate(), Ok(()));
    let mut u = user();
    u.nkbv_number = Some(-1);
    assert_eq!(u.validate(), Err(Error::Validation));
    let mut u = user();
    u.sportcard_number = Some(i32::MAX);
    assert_eq!(u.validate(), Err(Error::Validation));
    let mut u = user();
    u.email = "not an address".to_string();
    assert_eq!(u.validate(), Err(Error::Validation));
    let mut u = user();
    u.ice_contact_email = Some("nobody".to_string());
    assert_eq!(u.validate(), Err(Error::Validation));
    let mut u = user();
    u.important_info = Some("x".repeat(10001));
    assert_eq!(u.validate(), Err(Error::Validation));
    let mut u = user();
    u.phone = String::new();
    assert_eq!(u.validate(), Ok(()));

    let stored = User { id: UserId(1), created: 0, updated: 0, content: user() };
    assert_eq!(stored.validate(), Ok(()));
}

#[test]
fn password_rules() {
    assert_eq!(Password { password: "x".repeat(10) }.validate(), Ok(()));
    assert_eq!(Password { password: "x".repeat(128) }.validate(), Ok(()));
    assert_eq!(Password { password: "x".repeat(9) }.validate(), Err(Error::Validation));
    assert_eq!(Password { password: "x".repeat(129) }.validate(), Err(Error::Validation));

    let login = |email: &str, password: &str| {
        UserCredentials { email: email.to_string(), password: password.to_string() }.validate()
    };
    assert_eq!(login("ada@example.org", "x"), Ok(()));
    assert_eq!(login("ada@example.org", ""), Err(Error::Validation));
    assert_eq!(login("ada@example.org", &"x".repeat(129)), Err(Error::Validation));
    assert_eq!(login("ada", "secret"), Err(Error::Validation));

    assert_eq!(registration().validate(), Ok(()));
    let mut r = registration();
    r.password = "short".to_string();
    assert_eq!(r.validate(), Err(Error::Validation));
    let mut r = registration();
    r.email = "ada".to_string();
    assert_eq!(r.validate(), Err(Error::Validation));
    let mut r = registration();
    r.first_name = String::new();
    assert_eq!(r.validate(), Err(Error::Validation));
}

#[test]
fn new_users_start_pending_and_without_roles() {
    let content = registration().into_content();
    assert_eq!(content.status, MembershipStatus::Pending);
    assert!(content.roles.is_empty());
    assert_eq!(content.first_name, "Ada");
    assert_eq!(content.email, "ada@example.org");
    assert_eq!(content.important_info, Some("asthma".to_string()));
}

#[test]
fn self_update_keeps_name_roles_and_status() {
    let mut submitted = user();
    submitted.first_name = "Eve".to_string();
    submitted.infix = None;
    submitted.last_name = "Else".to_string();
    submitted.roles = vec![Role::Admin];
    submitted.status = MembershipStatus::Donor;
    submitted.phone = "0687654321".to_string();
    submitted.email = "new@example.org".to_string();
    submitted.student_number = None;
    submitted.important_info = Some("none".to_string());
    let updated = user().self_update(submitted);
    assert_eq!(updated.first_name, "Ada");
    assert_eq!(updated.infix, Some("van".to_string()));
    assert_eq!(updated.last_name, "Berg");
    assert_eq!(updated.roles, vec![Role::Treasurer]);
    assert_eq!(updated.status, MembershipStatus::Member);
    assert_eq!(updated.phone, "0687654321");
    assert_eq!(updated.email, "new@example.org");
    assert_eq!(updated.student_number, None);
    assert_eq!(updated.important_info, Some("none".to_string()));
    assert_eq!(updated.ice_contact_name, Some("Bo".to_string()));
}

fn event() -> EventContent {
    EventContent {
        name: text("Weekend"),
        image: None,
        description: text(""),
        dates: vec![Date { start: 1, end: 2 }, Date { start: 5, end: 5 }],
        registration_period: Some(Date { start: 9, end: 1 }),
        registration_max: Some(999),
        waiting_list_max: Some(0),
        is_published: false,
        required_membership_status: vec![],
        event_type: ActivityType::Weekend,
        questions: vec![Question {
            id: 1,
            question: text("Diet?"),
            question_type: QuestionType::MultipleChoice(vec!["vegan".to_string()]),
            required: false,
        }],
        metadata: Metadata { worga: None },
        location: LocationId(1),
        created_by: CommitteeId(1),
    }
}

#[test]
fn event_rules() {
    assert_eq!(event().validate(), Ok(()));
    let mut e = event();
    e.registration_max = Some(1000);
    assert_eq!(e.validate(), Err(Error::Validation));
    let mut e = event();
    e.waiting_list_max = Some(1000);
    assert_eq!(e.validate(), Err(Error::Validation));
    let mut e = event();
    e.registration_max = None;
    e.waiting_list_max = None;
    assert_eq!(e.validate(), Ok(()));
    let mut e = event();
    e.dates.push(Date { start: 3, end: 2 });
    assert_eq!(e.validate(), Err(Error::Validation));
    let mut e = event();
    e.name = text(&"x".repeat(50001));
    assert_eq!(e.validate(), Err(Error::Validation));
    let mut e = event();
    e.questions[0].question = text(&"x".repeat(50001));
    assert_eq!(e.validate(), Err(Error::Validation));
    let request = NewRegistration { user_id: None, answers: vec![], attended: None, waiting_list_position: Some(u64::MAX) };
    assert_eq!(request.validate(), Ok(()));
}

#[test]
fn dates_must_not_end_before_they_start() {
    assert_eq!(validate_date(&Date { start: 1, end: 1 }), Ok(()));
    assert_eq!(validate_date(&Date { start: -5, end: 1 }), Ok(()));
    assert_eq!(validate_date(&Date { start: 2, end: 1 }), Err(Error::Validation));
    assert_eq!(Date { start: 2, end: 1 }.validate(), Err(Error::Validation));
}

#[test]
fn date_columns() {
    let dates = vec![Date { start: 30, end: 31 }, Date { start: 10, end: 19 }, Date { start: 20, end: 25 }];
    assert_eq!(split_dates(&dates), (vec![30, 10, 20], vec![31, 19, 25]));
    assert_eq!(sorted_date_columns(dates), (vec![10, 20, 30], vec![19, 25, 31]));
    assert_eq!(sorted_date_columns(vec![]), (vec![], vec![]));
    let same_start = vec![
        Date { start: 5, end: 9 },
        Date { start: 1, end: 2 },
        Date { start: 5, end: 3 },
        Date { start: 1, end: 1 },
        Date { start: 5, end: 7 },
    ];
    assert_eq!(sorted_date_columns(same_start), (vec![1, 1, 5, 5, 5], vec![2, 1, 9, 3, 7]));
    assert_eq!(
        pair_dates(&vec![1, 2, 3], &vec![4, 5]),
        vec![Date { start: 1, end: 4 }, Date { start: 2, end: 5 }]
    );
    assert_eq!(pair_dates(&vec![1], &vec![4, 5]), vec![Date { start: 1, end: 4 }]);
    assert!(pair_dates(&vec![], &vec![4, 5]).is_empty());
}

#[test]
fn count_travels_in_a_header() {
    assert_eq!(Count { count: 17 }.as_header(), ("X-Total-Count", 17));
}

#[test]
fn material_rules() {
    let held = |amount: i32| UserMaterial { user_id: UserId(1), material_id: 2, material_amount: amount };
    assert_eq!(held(0).validate(), Ok(()));
    assert_eq!(held(999_999_999).validate(), Ok(()));
    assert_eq!(held(1_000_000_000).validate(), Err(Error::Validation));
    assert_eq!(held(-1).validate(), Err(Error::Validation));
    assert!(held(0).removes());
    assert!(held(-3).removes());
    assert!(!held(1).removes());
    assert!(!held(12).removes());

    let kind = |en: &str, nl: &str| Material { material_id: 1, name_en: en.to_string(), name_nl: nl.to_string() };
    assert_eq!(kind("Rope", "Touw").validate(), Ok(()));
    assert_eq!(kind("", "Touw").validate(), Err(Error::Validation));
    assert_eq!(kind("Rope", &"x".repeat(101)).validate(), Err(Error::Validation));
}

#[test]
fn committee_rules() {
    let committee = |description: &str| CommitteeContent {
        name: text("Activities"),
        description: text(description),
        image: None,
    };
    assert_eq!(committee("").validate(), Ok(()));
    assert_eq!(committee(&"x".repeat(50001)).validate(), Err(Error::Validation));
}
