//! Events and the registrations made for them.

use vstd::prelude::*;
use vstd::string::StringExecFns;
use crate::auth::role::MembershipStatus;
use crate::error::Error;
use crate::validate::Validate;
use crate::wire::committee::CommitteeId;
use crate::wire::file::FileId;
use crate::wire::location::LocationId;
use crate::wire::user::UserId;
use crate::wire::Language;

verus! {

/// The identity of an event: the 128 bits of its UUID.
#[derive(Clone, Copy, Debug, PartialEq, Eq, Structural)]
pub struct EventId(pub u128);

/// The identity of a registration: the 128 bits of its UUID.
#[derive(Clone, Copy, Debug, PartialEq, Eq, Structural)]
pub struct RegistrationId(pub u128);

/// An interval between two instants, each in nanoseconds since the Unix epoch.
#[derive(Clone, Copy, Debug, PartialEq, Eq, Structural)]
pub struct Date {
    pub start: i128,
    pub end: i128,
}

/// What kind of event it is.
#[derive(Clone, Copy, Debug, PartialEq, Eq, Structural)]
pub enum ActivityType {
    Activity,
    Course,
    Weekend,
    Training,
}

/// The text of `text` in lower case, as `str::to_lowercase` gives it.
pub uninterp spec fn lowercase_of(text: Seq<char>) -> Seq<char>;

/// The text in lower case.
///
/// Calls `str::to_lowercase` of the standard library, which maps every
/// character as Unicode's `Lowercase` property says and depends on the text
/// alone. The contract names the result and claims no more of it.
#[verifier::external_body]
pub(crate) fn to_lowercase(text: &str) -> (lower: String)
    ensures
        lower@ == lowercase_of(text@),
{
    text.to_lowercase()
}

/// The kind of event that a text in lower case names, if it names one.
pub open spec fn activity_type_named(lower: Seq<char>) -> Option<ActivityType> {
    if lower == "activity"@ {
        Some(ActivityType::Activity)
    } else if lower == "course"@ {
        Some(ActivityType::Course)
    } else if lower == "weekend"@ {
        Some(ActivityType::Weekend)
    } else if lower == "training"@ {
        Some(ActivityType::Training)
    } else {
        None
    }
}

impl ActivityType {
    /// The name of the kind.
    pub fn as_str(&self) -> (name: &'static str)
        ensures
            name@ == match *self {
                ActivityType::Activity => "Activity"@,
                ActivityType::Course => "Course"@,
                ActivityType::Weekend => "Weekend"@,
                ActivityType::Training => "Training"@,
            },
    {
        match self {
            ActivityType::Activity => "Activity",
            ActivityType::Course => "Course",
            ActivityType::Weekend => "Weekend",
            ActivityType::Training => "Training",
        }
    }

    /// The kind that a text in lower case names: `activity`, `course`,
    /// `weekend` or `training`. Any other text is an `InvalidEventType`.
    pub fn from_lowercase(lower: &String) -> (res: Result<ActivityType, Error>)
        ensures
            res == match activity_type_named(lower@) {
                Some(kind) => Ok::<ActivityType, Error>(kind),
                None => Err(Error::InvalidEventType),
            },
    {
        if *lower == String::from_str("activity") {
            Ok(ActivityType::Activity)
        } else if *lower == String::from_str("course") {
            Ok(ActivityType::Course)
        } else if *lower == String::from_str("weekend") {
            Ok(ActivityType::Weekend)
        } else if *lower == String::from_str("training") {
            Ok(ActivityType::Training)
        } else {
            Err(Error::InvalidEventType)
        }
    }

    /// The kind that a text names, whatever the case of its letters.
    pub fn parse(s: &str) -> (res: Result<ActivityType, Error>)
        ensures
            res == match activity_type_named(lowercase_of(s@)) {
                Some(kind) => Ok::<ActivityType, Error>(kind),
                None => Err(Error::InvalidEventType),
            },
    {
        let lower = to_lowercase(s);
        ActivityType::from_lowercase(&lower)
    }
}

impl std::str::FromStr for ActivityType {
    type Err = Error;

    /// The kind that a text names, whatever the case of its letters: see
    /// [`ActivityType::parse`].
    fn from_str(s: &str) -> (res: Result<ActivityType, Error>)
        ensures
            res == match activity_type_named(lowercase_of(s@)) {
                Some(kind) => Ok::<ActivityType, Error>(kind),
                None => Err(Error::InvalidEventType),
            },
    {
        ActivityType::parse(s)
    }
}

/// Whether the interval does not end before it starts.
pub open spec fn date_in_order(date: Date) -> bool {
    date.start <= date.end
}

/// `Validation` if the interval ends before it starts.
pub fn validate_date(date: &Date) -> (res: Result<(), Error>)
    ensures
        res is Ok <==> date_in_order(*date),
        res is Err ==> res == Err::<(), Error>(Error::Validation),
{
    if date.start > date.end {
        Err(Error::Validation)
    } else {
        Ok(())
    }
}

impl Validate for Date {
    /// The interval does not end before it starts.
    open spec fn valid(&self) -> bool {
        date_in_order(*self)
    }

    fn validate(&self) -> (res: Result<(), Error>) {
        validate_date(self)
    }
}

/// Whether the intervals stand in the order of their starts.
pub open spec fn ordered_by_start(dates: Seq<Date>) -> bool {
    forall|i: int, j: int| 0 <= i <= j < dates.len() ==> dates[i].start <= dates[j].start
}

/// The intervals that start at `start`, in their order.
pub open spec fn starting_at(dates: Seq<Date>, start: i128) -> Seq<Date>
    decreases dates.len(),
{
    if dates.len() == 0 {
        Seq::empty()
    } else if dates.last().start == start {
        starting_at(dates.drop_last(), start).push(dates.last())
    } else {
        starting_at(dates.drop_last(), start)
    }
}

/// Whether `sorted` holds the intervals of `dates` in the order of their
/// starts, those with the same start in the order they have in `dates`.
/// There is one such sequence: see [`lemma_sorted_by_start_is_one`].
pub open spec fn sorted_by_start(dates: Seq<Date>, sorted: Seq<Date>) -> bool {
    &&& ordered_by_start(sorted)
    &&& sorted.to_multiset() == dates.to_multiset()
    &&& forall|start: i128| #[trigger] starting_at(sorted, start) == starting_at(dates, start)
}

/// Where intervals start at `start`, one of them does.
pub proof fn lemma_starting_at_holds(dates: Seq<Date>, start: i128) -> (i: int)
    requires
        starting_at(dates, start).len() > 0,
    ensures
        0 <= i < dates.len(),
        dates[i].start == start,
    decreases dates.len(),
{
    if dates.last().start == start {
        dates.len() - 1
    } else {
        lemma_starting_at_holds(dates.drop_last(), start)
    }
}

/// Two sequences of equal length that stand in the order of their starts
/// and agree on the intervals of every start are one sequence.
pub proof fn lemma_ordered_groups_agree(a: Seq<Date>, b: Seq<Date>)
    requires
        a.len() == b.len(),
        ordered_by_start(a),
        ordered_by_start(b),
        forall|start: i128| #[trigger] starting_at(a, start) == starting_at(b, start),
    ensures
        a == b,
    decreases a.len(),
{
    if a.len() == 0 {
        assert(a =~= b);
    } else {
        let last = a.len() - 1;
        let m = a[last].start;
        let n = b[last].start;
        assert(starting_at(a, m) == starting_at(b, m));
        assert(starting_at(a, n) == starting_at(b, n));
        let i = lemma_starting_at_holds(b, m);
        let j = lemma_starting_at_holds(a, n);
        assert(b[i].start <= b[last].start);
        assert(a[j].start <= a[last].start);
        assert(m == n);
        assert(starting_at(a, m).last() == a.last());
        assert(starting_at(b, m).last() == b.last());
        let c = a.drop_last();
        let d = b.drop_last();
        assert forall|start: i128| #[trigger] starting_at(c, start) == starting_at(d, start) by {
            assert(starting_at(a, start) == starting_at(b, start));
            if start == m {
                assert(starting_at(a, m).drop_last() =~= starting_at(c, m));
                assert(starting_at(b, m).drop_last() =~= starting_at(d, m));
            }
        }
        assert forall|x: int, y: int| 0 <= x <= y < c.len() implies c[x].start <= c[y].start by {
            assert(c[x] == a[x] && c[y] == a[y]);
        }
        assert forall|x: int, y: int| 0 <= x <= y < d.len() implies d[x].start <= d[y].start by {
            assert(d[x] == b[x] && d[y] == b[y]);
        }
        lemma_ordered_groups_agree(c, d);
        assert(a =~= c.push(a.last()));
        assert(b =~= d.push(b.last()));
    }
}

/// The intervals of `dates` have one order by their starts that leaves
/// those of the same start as they stand: two sequences that are such an
/// order are one sequence.
pub proof fn lemma_sorted_by_start_is_one(dates: Seq<Date>, a: Seq<Date>, b: Seq<Date>)
    requires
        sorted_by_start(dates, a),
        sorted_by_start(dates, b),
    ensures
        a == b,
{
    a.to_multiset_ensures();
    b.to_multiset_ensures();
    assert forall|start: i128| #[trigger] starting_at(a, start) == starting_at(b, start) by {
        assert(starting_at(a, start) == starting_at(dates, start));
        assert(starting_at(b, start) == starting_at(dates, start));
    }
    lemma_ordered_groups_agree(a, b);
}

/// Puts the intervals in the order of their starts.
///
/// Calls `sort_by_key` of the standard library with the start as the key.
/// Its documentation promises that the slice is then sorted by the key, that
/// it holds the elements it held, and that the sort is stable: elements with
/// equal keys are not reordered. The contract says all three, the last as
/// that the intervals of any one start stand as they stood.
#[verifier::external_body]
pub(crate) fn sort_by_start(dates: &mut Vec<Date>)
    ensures
        sorted_by_start(old(dates)@, final(dates)@),
{
    dates.sort_by_key(|date| date.start)
}

/// The starts of the intervals, in their order.
pub open spec fn starts_of(dates: Seq<Date>) -> Seq<i128> {
    Seq::new(dates.len(), |i: int| dates[i].start)
}

/// The ends of the intervals, in their order.
pub open spec fn ends_of(dates: Seq<Date>) -> Seq<i128> {
    Seq::new(dates.len(), |i: int| dates[i].end)
}

/// The starts and the ends of the intervals, each in the order of the
/// intervals.
pub fn split_dates(dates: &Vec<Date>) -> (columns: (Vec<i128>, Vec<i128>))
    ensures
        columns.0@ == starts_of(dates@),
        columns.1@ == ends_of(dates@),
{
    let mut starts: Vec<i128> = Vec::new();
    let mut ends: Vec<i128> = Vec::new();
    let mut i: usize = 0;
    while i < dates.len()
        invariant
            i <= dates@.len(),
            starts@ == starts_of(dates@.take(i as int)),
            ends@ == ends_of(dates@.take(i as int)),
        decreases dates@.len() - i,
    {
        starts.push(dates[i].start);
        ends.push(dates[i].end);
        i += 1;
        assert(starts@ =~= starts_of(dates@.take(i as int)));
        assert(ends@ =~= ends_of(dates@.take(i as int)));
    }
    assert(dates@.take(i as int) =~= dates@);
    (starts, ends)
}

/// The dates of an event as they are stored: the starts and the ends of the
/// intervals, in the order of the starts, intervals with the same start in
/// the order they were given in. The two columns are as long as `dates`, and
/// together they hold the intervals that `dates` held.
pub fn sorted_date_columns(dates: Vec<Date>) -> (columns: (Vec<i128>, Vec<i128>))
    ensures
        exists|sorted: Seq<Date>|
            {
                &&& #[trigger] sorted_by_start(dates@, sorted)
                &&& columns.0@ == starts_of(sorted)
                &&& columns.1@ == ends_of(sorted)
            },
{
    let mut sorted = dates;
    sort_by_start(&mut sorted);
    let columns = split_dates(&sorted);
    assert(sorted_by_start(dates@, sorted@));
    columns
}

/// The intervals of the given starts and ends, pair by pair; as many as the
/// shorter of the two has.
pub fn pair_dates(starts: &Vec<i128>, ends: &Vec<i128>) -> (dates: Vec<Date>)
    ensures
        dates@.len() == if starts@.len() <= ends@.len() {
            starts@.len()
        } else {
            ends@.len()
        },
        forall|i: int|
            0 <= i < dates@.len() ==> #[trigger] dates@[i] == (Date {
                start: starts@[i],
                end: ends@[i],
            }),
{
    let mut dates: Vec<Date> = Vec::new();
    let mut i: usize = 0;
    while i < starts.len() && i < ends.len()
        invariant
            i <= starts@.len(),
            i <= ends@.len(),
            dates@.len() == i,
            forall|j: int|
                0 <= j < i ==> #[trigger] dates@[j] == (Date { start: starts@[j], end: ends@[j] }),
        decreases starts@.len() - i,
    {
        dates.push(Date { start: starts[i], end: ends[i] });
        i += 1;
    }
    dates
}

/// The form of the answer that a question asks for.
#[derive(Debug)]
pub enum QuestionType {
    ShortText,
    LongText,
    Number,
    Time,
    MultipleChoice(Vec<String>),
}

/// A question that an event asks of those who register.
#[derive(Debug)]
pub struct Question {
    pub id: u128,
    pub question: Language,
    pub question_type: QuestionType,
    /// Whether a registration must answer the question.
    pub required: bool,
}

/// What an event carries besides its fixed fields.
#[derive(Debug)]
pub struct Metadata {
    /// The text that names the user who organises the event on site, if the
    /// event names one.
    pub worga: Option<String>,
}

/// An event as its organisers describe it.
#[derive(Debug)]
pub struct EventContent {
    pub name: Language,
    pub image: Option<FileId>,
    pub description: Language,
    pub dates: Vec<Date>,
    /// When registrations may be made and changed; never, if absent.
    pub registration_period: Option<Date>,
    /// How many registrations may hold a confirmed seat; any number, if
    /// absent.
    pub registration_max: Option<u64>,
    /// How long the waiting list may grow; without bound, if absent.
    pub waiting_list_max: Option<u64>,
    pub is_published: bool,
    /// The membership statuses that may register. `NonMember` among them
    /// says that the event needs no membership.
    pub required_membership_status: Vec<MembershipStatus>,
    pub event_type: ActivityType,
    pub questions: Vec<Question>,
    pub metadata: Metadata,
    pub location: LocationId,
    /// The committee that owns the event.
    pub created_by: CommitteeId,
}

/// An event as it is read: what its organisers described, and how many
/// registrations hold a confirmed seat and how many wait.
#[derive(Debug)]
pub struct Event {
    pub id: EventId,
    pub created: i128,
    pub updated: i128,
    /// The number of registrations that hold a confirmed seat.
    pub registration_count: u64,
    /// The length of the waiting list.
    pub waiting_list_count: u64,
    pub content: EventContent,
}

impl Validate for Question {
    /// The text of the question keeps the rules of [`Language`].
    open spec fn valid(&self) -> bool {
        self.question.valid()
    }

    fn validate(&self) -> (res: Result<(), Error>) {
        self.question.validate()
    }
}

/// Whether every interval is in order.
pub open spec fn dates_valid(dates: Seq<Date>) -> bool {
    forall|i: int| 0 <= i < dates.len() ==> (#[trigger] dates[i]).valid()
}

/// Whether every question keeps its rules.
pub open spec fn questions_valid(questions: Seq<Question>) -> bool {
    forall|i: int| 0 <= i < questions.len() ==> (#[trigger] questions[i]).valid()
}

/// Whether the bound, if there is one, is at most 999.
pub open spec fn bound_valid(bound: Option<u64>) -> bool {
    bound matches Some(max) ==> max <= 999
}

impl Validate for EventContent {
    /// The name, the description, every date and every question keep their
    /// rules, and neither the confirmed seats nor the waiting list are
    /// bounded above 999.
    open spec fn valid(&self) -> bool {
        &&& self.name.valid()
        &&& self.description.valid()
        &&& dates_valid(self.dates@)
        &&& bound_valid(self.registration_max)
        &&& bound_valid(self.waiting_list_max)
        &&& questions_valid(self.questions@)
    }

    fn validate(&self) -> (res: Result<(), Error>) {
        if self.name.validate().is_err() || self.description.validate().is_err() {
            return Err(Error::Validation);
        }
        let mut i: usize = 0;
        while i < self.dates.len()
            invariant
                i <= self.dates@.len(),
                forall|j: int| 0 <= j < i ==> (#[trigger] self.dates@[j]).valid(),
            decreases self.dates@.len() - i,
        {
            if self.dates[i].validate().is_err() {
                return Err(Error::Validation);
            }
            i += 1;
        }
        let seats_bounded = match self.registration_max {
            Some(max) => max <= 999,
            None => true,
        };
        let waiting_bounded = match self.waiting_list_max {
            Some(max) => max <= 999,
            None => true,
        };
        if !seats_bounded || !waiting_bounded {
            return Err(Error::Validation);
        }
        let mut k: usize = 0;
        while k < self.questions.len()
            invariant
                k <= self.questions@.len(),
                forall|j: int| 0 <= j < k ==> (#[trigger] self.questions@[j]).valid(),
            decreases self.questions@.len() - k,
        {
            if self.questions[k].validate().is_err() {
                return Err(Error::Validation);
            }
            k += 1;
        }
        Ok(())
    }
}

impl EventContent {
    /// Whether the event lets users of the given status register.
    pub open spec fn spec_accepts(&self, status: MembershipStatus) -> bool {
        self.required_membership_status@.contains(status)
    }

    /// Whether the event lets users of the given status register.
    #[verifier::when_used_as_spec(spec_accepts)]
    pub fn accepts(&self, status: MembershipStatus) -> (accepted: bool)
        ensures
            accepted == self.spec_accepts(status),
    {
        let mut i: usize = 0;
        while i < self.required_membership_status.len()
            invariant
                i <= self.required_membership_status@.len(),
                forall|j: int| 0 <= j < i ==> self.required_membership_status@[j] != status,
            decreases self.required_membership_status@.len() - i,
        {
            if self.required_membership_status[i] == status {
                return true;
            }
            i += 1;
        }
        false
    }
}

/// The answer to one question of an event.
#[derive(Debug)]
pub struct Answer {
    pub question_id: u128,
    pub answer: String,
}

/// The mathematical value of an [`Answer`].
pub struct AnswerView {
    pub question_id: u128,
    pub answer: Seq<char>,
}

impl View for Answer {
    type V = AnswerView;

    open spec fn view(&self) -> AnswerView {
        AnswerView { question_id: self.question_id, answer: self.answer@ }
    }
}

impl Answer {
    /// A copy of the answer.
    pub fn duplicate(&self) -> (copy: Answer)
        ensures
            copy@ == self@,
    {
        Answer { question_id: self.question_id, answer: self.answer.clone() }
    }
}

/// The answers of a registration as mathematical values, in their order.
pub open spec fn answers_view(answers: Seq<Answer>) -> Seq<AnswerView> {
    Seq::new(answers.len(), |i: int| answers[i]@)
}

/// A copy of the answers, in their order.
pub fn duplicate_answers(answers: &Vec<Answer>) -> (copy: Vec<Answer>)
    ensures
        answers_view(copy@) == answers_view(answers@),
{
    let mut copy: Vec<Answer> = Vec::new();
    let mut i: usize = 0;
    while i < answers.len()
        invariant
            i <= answers@.len(),
            copy@.len() == i,
            forall|j: int| 0 <= j < i ==> (#[trigger] copy@[j])@ == answers@[j]@,
        decreases answers@.len() - i,
    {
        copy.push(answers[i].duplicate());
        i += 1;
    }
    assert(answers_view(copy@) =~= answers_view(answers@));
    copy
}

/// A registration as the store holds it.
///
/// A registration without a waiting-list position holds a confirmed seat.
#[derive(Debug)]
pub struct Registration {
    pub registration_id: RegistrationId,
    pub event_id: EventId,
    /// The user the registration is for; an anonymous signup has none.
    pub user: Option<UserId>,
    pub attended: Option<bool>,
    pub waiting_list_position: Option<u64>,
    pub answers: Vec<Answer>,
    pub created: i128,
    pub updated: i128,
}

/// The mathematical value of a [`Registration`].
pub struct RegistrationView {
    pub registration_id: RegistrationId,
    pub event_id: EventId,
    pub user: Option<UserId>,
    pub attended: Option<bool>,
    pub waiting_list_position: Option<u64>,
    pub answers: Seq<AnswerView>,
    pub created: i128,
    pub updated: i128,
}

impl View for Registration {
    type V = RegistrationView;

    open spec fn view(&self) -> RegistrationView {
        RegistrationView {
            registration_id: self.registration_id,
            event_id: self.event_id,
            user: self.user,
            attended: self.attended,
            waiting_list_position: self.waiting_list_position,
            answers: answers_view(self.answers@),
            created: self.created,
            updated: self.updated,
        }
    }
}

impl Registration {
    /// A copy of the registration.
    pub fn duplicate(&self) -> (copy: Registration)
        ensures
            copy@ == self@,
    {
        Registration {
            registration_id: self.registration_id,
            event_id: self.event_id,
            user: self.user,
            attended: self.attended,
            waiting_list_position: self.waiting_list_position,
            answers: duplicate_answers(&self.answers),
            created: self.created,
            updated: self.updated,
        }
    }
}

impl Validate for NewRegistration {
    /// A submission has no rules on size or range.
    open spec fn valid(&self) -> bool {
        true
    }

    fn validate(&self) -> (res: Result<(), Error>) {
        Ok(())
    }
}

/// What a caller submits to create or to update a registration.
#[derive(Debug)]
pub struct NewRegistration {
    /// The user the registration is for; none for an anonymous signup.
    pub user_id: Option<UserId>,
    pub answers: Vec<Answer>,
    pub attended: Option<bool>,
    /// The position on the waiting list that the caller asks for.
    pub waiting_list_position: Option<u64>,
}

} // verus!
