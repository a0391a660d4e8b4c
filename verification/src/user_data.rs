//! What a session knows of its user after a log-on, and the fetches that
//! gather it.

use crate::auth_data::AuthData;
use crate::json::StrNum;
use crate::schemas::Assignment;
use crate::web_clients::logged_in_web_client::LoggedInWebClient;
use crate::web_clients::request_builder::{Method, RequestBuilder};
use crate::web_clients::request_sender::SendingError;
use crate::web_clients::response::{settled, spec_settled, Body, Response, Shape};
use crate::web_clients::web_client_wrapper::{expecting, RequestError, WebClientWrapper};
use vstd::prelude::*;

verus! {

/// The names of the assignment types in `assignments`, by the number that is
/// their id. Where an id stands twice, the later entry is the one that counts.
pub open spec fn catalogue_of(assignments: Seq<Assignment>) -> Map<int, Seq<char>>
    decreases assignments.len(),
{
    if assignments.len() == 0 {
        Map::empty()
    } else {
        catalogue_of(assignments.drop_last()).insert(
            assignments.last().id.value(),
            assignments.last().name@,
        )
    }
}

/// An entry that no later entry shares its id with gives the id its name.
pub proof fn catalogue_holds_the_last_entry(assignments: Seq<Assignment>, at: int)
    requires
        0 <= at < assignments.len(),
        forall|later: int|
            at < later < assignments.len() ==> (#[trigger] assignments[later]).id.value()
                != assignments[at].id.value(),
    ensures
        catalogue_of(assignments).contains_key(assignments[at].id.value()),
        catalogue_of(assignments)[assignments[at].id.value()] == assignments[at].name@,
    decreases assignments.len(),
{
    if at < assignments.len() - 1 {
        let earlier = assignments.drop_last();
        assert(earlier[at] == assignments[at]);
        assert forall|later: int| at < later < earlier.len() implies (
        #[trigger] earlier[later]).id.value() != earlier[at].id.value() by {
            assert(earlier[later] == assignments[later]);
        }
        catalogue_holds_the_last_entry(earlier, at);
        let last = assignments[assignments.len() - 1];
        assert(last.id.value() != assignments[at].id.value());
    }
}

/// An id that no entry has is not in the catalogue.
pub proof fn catalogue_holds_only_entries(assignments: Seq<Assignment>, id: int)
    requires
        forall|at: int|
            0 <= at < assignments.len() ==> (#[trigger] assignments[at]).id.value() != id,
    ensures
        !catalogue_of(assignments).contains_key(id),
    decreases assignments.len(),
{
    if assignments.len() > 0 {
        let earlier = assignments.drop_last();
        assert forall|at: int| 0 <= at < earlier.len() implies (#[trigger] earlier[at]).id.value()
            != id by {
            assert(earlier[at] == assignments[at]);
        }
        catalogue_holds_only_entries(earlier, id);
        let last = assignments[assignments.len() - 1];
        assert(last.id.value() != id);
    }
}

/// The catalogue of assignment types: the name of each type, by the number
/// that is its id.
#[derive(Debug)]
pub struct AssignmentTypes {
    entries: Vec<Assignment>,
}

impl View for AssignmentTypes {
    type V = Map<int, Seq<char>>;

    closed spec fn view(&self) -> Map<int, Seq<char>> {
        catalogue_of(self.entries@)
    }
}

impl AssignmentTypes {
    /// The entries that the catalogue was made of, in their order.
    pub closed spec fn listed(&self) -> Seq<Assignment> {
        self.entries@
    }

    /// The catalogue that `assignments` make up, later entries overwriting
    /// earlier ones of the same id.
    pub fn new(assignments: Vec<Assignment>) -> (res: Self)
        ensures
            res.listed() == assignments@,
            res@ == catalogue_of(assignments@),
    {
        AssignmentTypes { entries: assignments }
    }

    /// The name of the assignment type with the id `id`, if there is one.
    pub fn get(&self, id: &StrNum) -> (res: Option<&String>)
        ensures
            match res {
                Some(name) => self@.contains_key(id.value()) && self@[id.value()] == name@,
                None => !self@.contains_key(id.value()),
            },
    {
        let mut i: usize = self.entries.len();
        while i > 0
            invariant
                i <= self.entries@.len(),
                forall|later: int|
                    i <= later < self.entries@.len() ==> (
                    #[trigger] self.entries@[later]).id.value() != id.value(),
            decreases i,
        {
            i = i - 1;
            if self.entries[i].id.same_as(id) {
                proof {
                    catalogue_holds_the_last_entry(self.entries@, i as int);
                }
                return Some(&self.entries[i].name);
            }
        }
        proof {
            catalogue_holds_only_entries(self.entries@, id.value());
        }
        None
    }

    /// The entries that the catalogue was made of, as the portal listed them.
    pub fn entries(&self) -> (res: &Vec<Assignment>)
        ensures
            res@ == self.listed(),
            catalogue_of(res@) == self@,
    {
        &self.entries
    }
}

#[derive(Debug)]
pub struct UserData {
    student_id: StrNum,
    year_id: StrNum,
    assignment_types: AssignmentTypes,
    auth_data: AuthData,
}

#[derive(Debug)]
pub enum MakingError {
    RequestError(SendingError),
    /// It's either the response is not JSON at all, or it does not match the
    /// expected structure.
    InvalidJsonInServerResponse,
}

/// What a making of user data waits for.
#[derive(Debug)]
pub enum MakingStage {
    /// The students and which of them is the current one.
    Diary,
    /// The current year.
    Year { student_id: StrNum },
    /// The catalogue of assignment types.
    AssignmentTypes { student_id: StrNum, year_id: StrNum },
}

/// A making of user data that waits for the answer to its last request.
#[derive(Debug)]
pub struct Making {
    auth_data: AuthData,
    stage: MakingStage,
}

/// Where a making of user data stands after a step.
#[derive(Debug)]
pub enum MakingStep {
    /// The request is to be sent, and its outcome handed to the making.
    Send(Making, Result<RequestBuilder, RequestError>),
    /// The making has ended: with the user data, or with the reason why there
    /// is none and the credentials that it was given.
    Finished(Result<UserData, (MakingError, AuthData)>),
}

/// Where the portal tells the students and the current one.
pub open spec fn diary_route() -> Seq<char> {
    "student/diary/init"@
}

/// Where the portal tells the current year.
pub open spec fn year_route() -> Seq<char> {
    "years/current"@
}

/// Where the portal tells the assignment types.
pub open spec fn assignment_types_route() -> Seq<char> {
    "grade/assignment/types"@
}

impl Making {
    /// The credentials that the making was given.
    pub closed spec fn spec_auth_data(&self) -> AuthData {
        self.auth_data
    }

    /// What the making waits for.
    pub closed spec fn spec_stage(&self) -> MakingStage {
        self.stage
    }

    /// Whether `step` ends the making with `error` and hands the credentials
    /// back.
    pub open spec fn fails_with(&self, step: MakingStep, error: MakingError) -> bool {
        step matches MakingStep::Finished(Err((reason, auth_data))) && reason == error && auth_data
            == self.spec_auth_data()
    }

    /// Whether `step` goes on with the same credentials to `stage`, asking
    /// `web_client` to get `url` and read the answer as `expects`.
    pub open spec fn goes_on_with<RequestSender>(
        &self,
        step: MakingStep,
        web_client: &WebClientWrapper<LoggedInWebClient, RequestSender>,
        stage: MakingStage,
        url: Seq<char>,
        expects: Shape,
    ) -> bool {
        &&& step matches MakingStep::Send(next, request)
        &&& next.spec_auth_data() == self.spec_auth_data()
        &&& next.spec_stage() == stage
        &&& web_client.asks(request, Method::Get, url, expects)
    }

    /// Whether `step` is where the making stands after `outcome`.
    ///
    /// A request that failed, or whose answer has a status that is no
    /// success, ends the making with that failure. A successful answer whose
    /// body is not of the shape that the stage waits for ends it as invalid
    /// JSON, and so does a current student that is no position in the list of
    /// students. Otherwise the making keeps what it needs of the body and
    /// goes on: from the students to the year, from the year to the
    /// assignment types, and from these to the user data.
    pub open spec fn resumes_into<RequestSender>(
        &self,
        web_client: &WebClientWrapper<LoggedInWebClient, RequestSender>,
        outcome: Result<Response, SendingError>,
        step: MakingStep,
    ) -> bool {
        match spec_settled(outcome) {
            Err(error) => self.fails_with(step, MakingError::RequestError(error)),
            Ok(response) => match (self.spec_stage(), response.body) {
                (MakingStage::Diary, Body::DiaryInfo(diary_info)) => {
                    let index = diary_info.current_student_id.value();
                    if 0 <= index < diary_info.students@.len() {
                        self.goes_on_with(
                            step,
                            web_client,
                            MakingStage::Year {
                                student_id: diary_info.students@[index].student_id,
                            },
                            year_route(),
                            Shape::CurrentYear,
                        )
                    } else {
                        self.fails_with(step, MakingError::InvalidJsonInServerResponse)
                    }
                },
                (MakingStage::Year { student_id }, Body::CurrentYear(current_year)) => {
                    self.goes_on_with(
                        step,
                        web_client,
                        MakingStage::AssignmentTypes { student_id, year_id: current_year.id },
                        assignment_types_route(),
                        Shape::Assignments,
                    )
                },
                (
                    MakingStage::AssignmentTypes { student_id, year_id },
                    Body::Assignments(assignments),
                ) => {
                    &&& step matches MakingStep::Finished(Ok(user_data))
                    &&& user_data.spec_student_id() == student_id
                    &&& user_data.spec_year_id() == year_id
                    &&& user_data.spec_assignment_types().listed() == assignments@
                    &&& user_data.spec_assignment_types()@ == catalogue_of(assignments@)
                    &&& user_data.spec_auth_data() == self.spec_auth_data()
                },
                _ => self.fails_with(step, MakingError::InvalidJsonInServerResponse),
            },
        }
    }

    /// Takes the outcome of the request that the making had sent, and says
    /// where the making stands then.
    pub fn resume<RequestSender>(
        self,
        web_client: &WebClientWrapper<LoggedInWebClient, RequestSender>,
        outcome: Result<Response, SendingError>,
    ) -> (step: MakingStep)
        ensures
            self.resumes_into(web_client, outcome, step),
    {
        let auth_data = self.auth_data;
        let response = match settled(outcome) {
            Ok(response) => response,
            Err(error) => {
                return MakingStep::Finished(Err((MakingError::RequestError(error), auth_data)));
            },
        };
        match (self.stage, response.body) {
            (MakingStage::Diary, Body::DiaryInfo(diary_info)) => {
                let mut students = diary_info.students;
                let student_index = match diary_info.current_student_id.to_usize() {
                    Some(index) => index,
                    None => {
                        return MakingStep::Finished(
                            Err((MakingError::InvalidJsonInServerResponse, auth_data)),
                        );
                    },
                };
                if student_index >= students.len() {
                    return MakingStep::Finished(
                        Err((MakingError::InvalidJsonInServerResponse, auth_data)),
                    );
                }
                let student = students.swap_remove(student_index);
                MakingStep::Send(
                    Making {
                        auth_data,
                        stage: MakingStage::Year { student_id: student.student_id },
                    },
                    expecting(web_client.get("years/current"), Shape::CurrentYear),
                )
            },
            (MakingStage::Year { student_id }, Body::CurrentYear(current_year)) => {
                MakingStep::Send(
                    Making {
                        auth_data,
                        stage: MakingStage::AssignmentTypes {
                            student_id,
                            year_id: current_year.id,
                        },
                    },
                    expecting(web_client.get("grade/assignment/types"), Shape::Assignments),
                )
            },
            (
                MakingStage::AssignmentTypes { student_id, year_id },
                Body::Assignments(assignments),
            ) => {
                MakingStep::Finished(
                    Ok(
                        UserData {
                            auth_data,
                            student_id,
                            assignment_types: AssignmentTypes::new(assignments),
                            year_id,
                        },
                    ),
                )
            },
            _ => MakingStep::Finished(Err((MakingError::InvalidJsonInServerResponse, auth_data))),
        }
    }
}

impl MakingStep {
    /// The credentials that the step holds, wherever it stands.
    pub open spec fn spec_auth_data(&self) -> AuthData {
        match self {
            MakingStep::Send(making, _) => making.spec_auth_data(),
            MakingStep::Finished(Ok(user_data)) => user_data.spec_auth_data(),
            MakingStep::Finished(Err((_, auth_data))) => *auth_data,
        }
    }
}

impl UserData {
    pub closed spec fn spec_student_id(&self) -> StrNum {
        self.student_id
    }

    pub closed spec fn spec_year_id(&self) -> StrNum {
        self.year_id
    }

    pub closed spec fn spec_assignment_types(&self) -> AssignmentTypes {
        self.assignment_types
    }

    pub closed spec fn spec_auth_data(&self) -> AuthData {
        self.auth_data
    }

    /// Starts the making of user data for the session of `web_client`: asks
    /// for the students first.
    pub fn make<RequestSender>(
        web_client: &WebClientWrapper<LoggedInWebClient, RequestSender>,
        auth_data: AuthData,
    ) -> (step: MakingStep)
        ensures
            step matches MakingStep::Send(making, request) && making.spec_auth_data() == auth_data
                && making.spec_stage() == MakingStage::Diary && web_client.asks(
                request,
                Method::Get,
                diary_route(),
                Shape::DiaryInfo,
            ),
    {
        MakingStep::Send(
            Making { auth_data, stage: MakingStage::Diary },
            expecting(web_client.get("student/diary/init"), Shape::DiaryInfo),
        )
    }

    pub fn student_id(&self) -> (res: &StrNum)
        ensures
            *res == self.spec_student_id(),
    {
        &self.student_id
    }

    pub fn year_id(&self) -> (res: &StrNum)
        ensures
            *res == self.spec_year_id(),
    {
        &self.year_id
    }

    pub fn assignment_types(&self) -> (res: &AssignmentTypes)
        ensures
            *res == self.spec_assignment_types(),
    {
        &self.assignment_types
    }

    pub fn auth_data(&self) -> (res: &AuthData)
        ensures
            *res == self.spec_auth_data(),
    {
        &self.auth_data
    }
}

impl From<UserData> for AuthData {
    fn from(user_data: UserData) -> (res: Self) {
        user_data.auth_data
    }
}

impl vstd::std_specs::convert::FromSpecImpl<UserData> for AuthData {
    open spec fn obeys_from_spec() -> bool {
        true
    }

    open spec fn from_spec(user_data: UserData) -> Self {
        user_data.spec_auth_data()
    }
}

/// The credentials stay what they are through every step of a making.
pub proof fn making_keeps_the_credentials<RequestSender>(
    making: Making,
    web_client: &WebClientWrapper<LoggedInWebClient, RequestSender>,
    outcome: Result<Response, SendingError>,
    step: MakingStep,
)
    requires
        making.resumes_into(web_client, outcome, step),
    ensures
        step.spec_auth_data() == making.spec_auth_data(),
{
}

} // verus!
