//! The session before a log-on, the log-on itself, and the directory of
//! schools.

use super::logged_in_client::{log_out_route, logged_out, LoggedInClient};
use crate::auth_data::AuthData;
use crate::digest::{digest, full_digest, trimmed_digest};
use crate::schemas::{AuthRequest, LoginType, PreAuthData, SchoolInfo};
use crate::user_data::{diary_route, Making, MakingError, MakingStage, MakingStep, UserData};
use crate::web_clients::logged_in_web_client::{is_header_value, AccessToken, LoggedInWebClient};
use crate::web_clients::logged_out_web_client::LoggedOutWebClient;
use crate::web_clients::request_builder::{Method, RequestBuilder};
use crate::web_clients::request_sender::SendingError;
use crate::web_clients::response::{settled, spec_settled, Body, Response, Shape};
use crate::web_clients::web_client_wrapper::{expecting, RequestError, WebClientWrapper};
use vstd::prelude::*;
use vstd::string::*;

verus! {

/// The status by which the portal refuses a username or a password.
pub const CONFLICT: u16 = 409;

/// A client that was never logged in.
#[derive(Debug)]
pub struct InactiveClient<RequestSender> {
    pub auth_data: AuthData,
    pub web_client: WebClientWrapper<LoggedOutWebClient, RequestSender>,
}

#[derive(Debug)]
pub enum AuthError {
    RequestError(SendingError),
    /// It's either the response is not JSON at all, or it does not match the
    /// expected structure.
    InvalidJsonInServerResponse,
    InvalidCharactersInPassword,
    InvalidCredentials(SendingError),
}

impl AuthError {
    /// The failure of a log-on that the failure of its making of user data
    /// brings: the same kind, with the same failure inside.
    pub open spec fn of_making(error: MakingError) -> AuthError {
        match error {
            MakingError::RequestError(error) => AuthError::RequestError(error),
            MakingError::InvalidJsonInServerResponse => AuthError::InvalidJsonInServerResponse,
        }
    }
}

impl From<MakingError> for AuthError {
    fn from(error: MakingError) -> (res: Self) {
        match error {
            MakingError::RequestError(error) => AuthError::RequestError(error),
            MakingError::InvalidJsonInServerResponse => AuthError::InvalidJsonInServerResponse,
        }
    }
}

impl vstd::std_specs::convert::FromSpecImpl<MakingError> for AuthError {
    open spec fn obeys_from_spec() -> bool {
        true
    }

    open spec fn from_spec(error: MakingError) -> Self {
        AuthError::of_making(error)
    }
}

#[derive(Debug)]
pub enum SchoolsGettingError {
    RequestError(SendingError),
    /// It's either the response is not JSON at all, or it does not match the
    /// expected structure.
    InvalidJsonInServerResponse,
}

#[derive(Debug)]
pub enum SchoolByNameGettingError {
    SchoolsGettingError(SchoolsGettingError),
    /// School with the specified name was not found.
    SchoolNotFound,
}

impl From<SchoolsGettingError> for SchoolByNameGettingError {
    fn from(error: SchoolsGettingError) -> (res: Self) {
        SchoolByNameGettingError::SchoolsGettingError(error)
    }
}

impl vstd::std_specs::convert::FromSpecImpl<SchoolsGettingError> for SchoolByNameGettingError {
    open spec fn obeys_from_spec() -> bool {
        true
    }

    open spec fn from_spec(error: SchoolsGettingError) -> Self {
        SchoolByNameGettingError::SchoolsGettingError(error)
    }
}

/// Where the portal hands out the cookies that a log-on needs.
pub open spec fn cookies_route() -> Seq<char> {
    "logindata"@
}

/// Where the portal hands out the salt for a log-on.
pub open spec fn pre_auth_data_route() -> Seq<char> {
    "auth/getdata"@
}

/// Where the portal takes a log-on.
pub open spec fn log_in_route() -> Seq<char> {
    "login"@
}

/// Where the portal lists its schools.
pub open spec fn schools_route() -> Seq<char> {
    "addresses/schools"@
}

/// The schools that the outcome of the request for them holds: a request
/// that failed, or whose answer has a status that is no success, is a request
/// error, and a successful answer with anything but a list of schools for its
/// body is invalid JSON.
pub open spec fn spec_schools(outcome: Result<Response, SendingError>) -> Result<
    Vec<SchoolInfo>,
    SchoolsGettingError,
> {
    match spec_settled(outcome) {
        Err(error) => Err(SchoolsGettingError::RequestError(error)),
        Ok(response) => match response.body {
            Body::Schools(schools) => Ok(schools),
            _ => Err(SchoolsGettingError::InvalidJsonInServerResponse),
        },
    }
}

/// The first of `schools` whose name is `name`, letter for letter.
pub open spec fn first_named(schools: Seq<SchoolInfo>, name: Seq<char>) -> Option<SchoolInfo>
    decreases schools.len(),
{
    if schools.len() == 0 {
        None
    } else if schools[0].name@ == name {
        Some(schools[0])
    } else {
        first_named(schools.drop_first(), name)
    }
}

/// The school named `name` that the outcome of the request for the schools
/// holds: the first of that name, the lack of one, or the reason why there
/// are no schools to look through.
pub open spec fn spec_school_by_name(
    name: Seq<char>,
    outcome: Result<Response, SendingError>,
) -> Result<SchoolInfo, SchoolByNameGettingError> {
    match spec_schools(outcome) {
        Err(error) => Err(SchoolByNameGettingError::SchoolsGettingError(error)),
        Ok(schools) => match first_named(schools@, name) {
            Some(school) => Ok(school),
            None => Err(SchoolByNameGettingError::SchoolNotFound),
        },
    }
}

/// A log-on that waits for the answer to its last request.
#[derive(Debug)]
pub enum LogInFlow<RequestSender> {
    /// Waits for the cookies that the next requests need.
    Cookies(InactiveClient<RequestSender>),
    /// Waits for the salt.
    PreAuthData(InactiveClient<RequestSender>),
    /// Waits for the portal's word on the credentials.
    LogIn(InactiveClient<RequestSender>),
    /// The portal took the credentials; waits for what the session is to
    /// know of its user.
    UserData {
        making: Making,
        web_client: WebClientWrapper<LoggedInWebClient, RequestSender>,
    },
    /// The user data could not be made; waits for the log-out that undoes the
    /// log-on.
    RollBack {
        error: MakingError,
        auth_data: AuthData,
        web_client: WebClientWrapper<LoggedInWebClient, RequestSender>,
    },
}

/// Where a log-on stands after a step.
#[derive(Debug)]
pub enum LogInStep<RequestSender> {
    /// The request is to be sent, and its outcome handed to the log-on.
    Send(LogInFlow<RequestSender>, Result<RequestBuilder, RequestError>),
    /// The log-on has ended: with the session logged on, or with the reason
    /// why it is not and the client that asked for it.
    Finished(Result<LoggedInClient<RequestSender>, (AuthError, InactiveClient<RequestSender>)>),
}

impl<RequestSender> LogInFlow<RequestSender> {
    /// The client that the log-on hands back if it fails from here.
    pub open spec fn client(self) -> InactiveClient<RequestSender> {
        match self {
            LogInFlow::Cookies(client) => client,
            LogInFlow::PreAuthData(client) => client,
            LogInFlow::LogIn(client) => client,
            LogInFlow::UserData { making, web_client } => InactiveClient {
                auth_data: making.spec_auth_data(),
                web_client: logged_out(web_client),
            },
            LogInFlow::RollBack { error, auth_data, web_client } => InactiveClient {
                auth_data,
                web_client: logged_out(web_client),
            },
        }
    }
}

impl<RequestSender> LogInFlow<RequestSender> {
    /// What sends the requests of the log-on.
    pub open spec fn spec_request_sender(&self) -> RequestSender {
        match self {
            LogInFlow::Cookies(client) => client.web_client.request_sender,
            LogInFlow::PreAuthData(client) => client.web_client.request_sender,
            LogInFlow::LogIn(client) => client.web_client.request_sender,
            LogInFlow::UserData { making, web_client } => web_client.request_sender,
            LogInFlow::RollBack { error, auth_data, web_client } => web_client.request_sender,
        }
    }

    /// What sends the requests of the log-on.
    pub fn request_sender(&self) -> (res: &RequestSender)
        ensures
            *res == self.spec_request_sender(),
            *res == self.client().web_client.request_sender,
    {
        match self {
            LogInFlow::Cookies(client) => &client.web_client.request_sender,
            LogInFlow::PreAuthData(client) => &client.web_client.request_sender,
            LogInFlow::LogIn(client) => &client.web_client.request_sender,
            LogInFlow::UserData { making, web_client } => &web_client.request_sender,
            LogInFlow::RollBack { error, auth_data, web_client } => &web_client.request_sender,
        }
    }
}

impl<RequestSender> LogInStep<RequestSender> {
    /// The client that the step holds, wherever it stands: the one that a
    /// failure hands back, or the one that the session becomes when it is
    /// logged out and made inactive.
    pub open spec fn client(self) -> InactiveClient<RequestSender> {
        match self {
            LogInStep::Send(flow, _) => flow.client(),
            LogInStep::Finished(Ok(logged_in)) => InactiveClient {
                auth_data: logged_in.user_data.spec_auth_data(),
                web_client: logged_out(logged_in.web_client),
            },
            LogInStep::Finished(Err((_, client))) => client,
        }
    }

    /// Whether the step ends the log-on with `error` and hands `client` back.
    pub open spec fn fails_with(
        self,
        error: AuthError,
        client: InactiveClient<RequestSender>,
    ) -> bool {
        self matches LogInStep::Finished(Err((reason, returned))) && reason == error && returned
            == client
    }
}

impl<RequestSender> InactiveClient<RequestSender> {
    /// Whether `request` is the log-on request of this client for the salt
    /// and the tokens of `pre_auth_data`: a post to the log-on route whose
    /// answer is read as an access token, and whose body holds the kind of
    /// log-on, the username, both forms of the encoded password, what the
    /// portal handed out before, and the school.
    pub open spec fn is_log_in_request(
        self,
        pre_auth_data: PreAuthData,
        request: Result<RequestBuilder, RequestError>,
    ) -> bool {
        &&& self.web_client.addresses(request, Method::Post, log_in_route(), Shape::AuthResponse)
        &&& request matches Ok(asked) ==> {
            &&& asked.json matches Some(body)
            &&& body.login_type == LoginType::Regular
            &&& body.username == self.auth_data.username
            &&& Some(body.full_encoded_password@) == full_digest(pre_auth_data.salt@)
            &&& body.trimmed_encoded_password@ == trimmed_digest(
                self.auth_data.password@,
                body.full_encoded_password@,
            )
            &&& body.pre_auth_data == pre_auth_data
            &&& body.school_info == self.auth_data.school_info
        }
    }

    /// Whether `step` is what `log_in` owes: the log-on waits for the
    /// cookies, and the request for them is to be sent.
    pub open spec fn begins(self, step: LogInStep<RequestSender>) -> bool {
        &&& step matches LogInStep::Send(LogInFlow::Cookies(client), request)
        &&& client == self
        &&& self.web_client.asks(request, Method::Get, cookies_route(), Shape::Nothing)
    }

    pub fn new(
        auth_data: AuthData,
        web_client: WebClientWrapper<LoggedOutWebClient, RequestSender>,
    ) -> (res: Self)
        ensures
            res == (InactiveClient { auth_data, web_client }),
    {
        InactiveClient { auth_data, web_client }
    }

    pub fn set_auth_data(&mut self, auth_data: AuthData)
        ensures
            *final(self) == (InactiveClient { auth_data, web_client: old(self).web_client }),
    {
        self.auth_data = auth_data;
    }

    /// The request for the portal's schools.
    pub fn schools_request(&self) -> (res: Result<RequestBuilder, RequestError>)
        ensures
            self.web_client.asks(res, Method::Get, schools_route(), Shape::Schools),
    {
        expecting(self.web_client.get("addresses/schools"), Shape::Schools)
    }

    /// The portal's schools, from the outcome of the request for them.
    pub fn schools(&self, outcome: Result<Response, SendingError>) -> (res: Result<
        Vec<SchoolInfo>,
        SchoolsGettingError,
    >)
        ensures
            res == spec_schools(outcome),
    {
        match settled(outcome) {
            Ok(response) => match response.body {
                Body::Schools(schools) => Ok(schools),
                _ => Err(SchoolsGettingError::InvalidJsonInServerResponse),
            },
            Err(error) => Err(SchoolsGettingError::RequestError(error)),
        }
    }

    /// The first school named `school_name`, from the outcome of the request
    /// for the portal's schools.
    pub fn school_by_name(
        &self,
        school_name: &str,
        outcome: Result<Response, SendingError>,
    ) -> (res: Result<SchoolInfo, SchoolByNameGettingError>)
        ensures
            res == spec_school_by_name(school_name@, outcome),
    {
        let mut schools = match self.schools(outcome) {
            Ok(schools) => schools,
            Err(error) => {
                return Err(SchoolByNameGettingError::SchoolsGettingError(error));
            },
        };
        let wanted = String::from_str(school_name);
        let ghost all = schools@;
        assert(all.skip(0) =~= all);
        let mut i: usize = 0;
        while i < schools.len()
            invariant
                i <= schools@.len(),
                schools@ == all,
                wanted@ == school_name@,
                spec_schools(outcome) matches Ok(listed) && listed@ == all,
                first_named(all, school_name@) == first_named(all.skip(i as int), school_name@),
            decreases schools@.len() - i,
        {
            let ghost rest = all.skip(i as int);
            assert(rest[0] == all[i as int]);
            assert(rest.drop_first() =~= all.skip(i + 1));
            if schools[i].name == wanted {
                return Ok(schools.swap_remove(i));
            }
            i = i + 1;
        }
        Err(SchoolByNameGettingError::SchoolNotFound)
    }

    /// Starts a log-on: asks for the cookies that the next requests need.
    pub fn log_in(self) -> (step: LogInStep<RequestSender>)
        ensures
            self.begins(step),
    {
        let request = self.web_client.get("logindata");
        LogInStep::Send(LogInFlow::Cookies(self), request)
    }
}

/// Where a log-on stands once its user data is made, is under way, or has
/// failed: logged on, on its way, or about to be undone by a log-out.
fn after_making<RequestSender>(
    step: MakingStep,
    web_client: WebClientWrapper<LoggedInWebClient, RequestSender>,
) -> (res: LogInStep<RequestSender>)
    ensures
        match step {
            MakingStep::Send(making, request) => res == LogInStep::Send(
                LogInFlow::UserData { making, web_client },
                request,
            ),
            MakingStep::Finished(Ok(user_data)) => res == LogInStep::<RequestSender>::Finished(
                Ok(LoggedInClient { user_data, web_client }),
            ),
            MakingStep::Finished(Err((error, auth_data))) => {
                &&& res matches LogInStep::Send(
                    LogInFlow::RollBack { error: kept, auth_data: held, web_client: same },
                    request,
                )
                &&& kept == error
                &&& held == auth_data
                &&& same == web_client
                &&& web_client.asks(request, Method::Post, log_out_route(), Shape::Nothing)
            },
        },
{
    match step {
        MakingStep::Send(making, request) => LogInStep::Send(
            LogInFlow::UserData { making, web_client },
            request,
        ),
        MakingStep::Finished(Ok(user_data)) => LogInStep::Finished(
            Ok(LoggedInClient::new(user_data, web_client)),
        ),
        MakingStep::Finished(Err((error, auth_data))) => {
            let request = web_client.post("auth/logout");
            LogInStep::Send(LogInFlow::RollBack { error, auth_data, web_client }, request)
        },
    }
}

impl<RequestSender> LogInFlow<RequestSender> {
    /// Whether `step` is where the log-on stands after `outcome`, the outcome
    /// of the request that it had sent.
    ///
    /// A request counts as failed where it brought no answer, and where the
    /// answer's status is no success. While the client is not logged on, a
    /// request that failed ends the log-on as a request error; the log-on
    /// request that failed with the status that refuses the credentials ends
    /// it as invalid credentials. A successful answer whose body is not what
    /// the log-on waits for ends it as invalid JSON, and so does an access
    /// token that no header can carry; a salt outside the code page ends it
    /// as invalid characters. Each of these hands the client back as it was.
    ///
    /// Once the portal took the credentials, the user data is made with the
    /// web client that carries the access token. When that fails, the log-out
    /// request is to be sent with that web client, and whatever comes of it
    /// the log-on ends with the failure of the making, and hands back the
    /// credentials with the web client logged out.
    pub open spec fn resumes_into(
        self,
        outcome: Result<Response, SendingError>,
        step: LogInStep<RequestSender>,
    ) -> bool {
        match self {
            LogInFlow::Cookies(client) => match spec_settled(outcome) {
                Err(error) => step.fails_with(AuthError::RequestError(error), client),
                Ok(_) => {
                    &&& step matches LogInStep::Send(LogInFlow::PreAuthData(next), request)
                    &&& next == client
                    &&& client.web_client.asks(
                        request,
                        Method::Post,
                        pre_auth_data_route(),
                        Shape::PreAuthData,
                    )
                },
            },
            LogInFlow::PreAuthData(client) => match spec_settled(outcome) {
                Err(error) => step.fails_with(AuthError::RequestError(error), client),
                Ok(response) => match response.body {
                    Body::PreAuthData(pre_auth_data) => if full_digest(pre_auth_data.salt@)
                        is Some {
                        &&& step matches LogInStep::Send(LogInFlow::LogIn(next), request)
                        &&& next == client
                        &&& client.is_log_in_request(pre_auth_data, request)
                    } else {
                        step.fails_with(AuthError::InvalidCharactersInPassword, client)
                    },
                    _ => step.fails_with(AuthError::InvalidJsonInServerResponse, client),
                },
            },
            LogInFlow::LogIn(client) => match spec_settled(outcome) {
                Err(error) => if error.spec_status() == Some(CONFLICT) {
                    step.fails_with(AuthError::InvalidCredentials(error), client)
                } else {
                    step.fails_with(AuthError::RequestError(error), client)
                },
                Ok(response) => match response.body {
                    Body::AuthResponse(auth_response) => if is_header_value(
                        auth_response.auth_token@,
                    ) {
                        &&& step matches LogInStep::Send(
                            LogInFlow::UserData { making, web_client },
                            request,
                        )
                        &&& making.spec_auth_data() == client.auth_data
                        &&& making.spec_stage() == MakingStage::Diary
                        &&& web_client.inner.base_url == client.web_client.inner.base_url
                        &&& web_client.inner.access_token@ == auth_response.auth_token@
                        &&& web_client.request_sender == client.web_client.request_sender
                        &&& web_client.asks(request, Method::Get, diary_route(), Shape::DiaryInfo)
                    } else {
                        step.fails_with(AuthError::InvalidJsonInServerResponse, client)
                    },
                    _ => step.fails_with(AuthError::InvalidJsonInServerResponse, client),
                },
            },
            LogInFlow::UserData { making, web_client } => match step {
                LogInStep::Send(LogInFlow::UserData { making: next, web_client: same }, request) => {
                    &&& same == web_client
                    &&& making.resumes_into(&web_client, outcome, MakingStep::Send(next, request))
                },
                LogInStep::Send(
                    LogInFlow::RollBack { error, auth_data, web_client: same },
                    request,
                ) => {
                    &&& same == web_client
                    &&& making.resumes_into(
                        &web_client,
                        outcome,
                        MakingStep::Finished(Err((error, auth_data))),
                    )
                    &&& web_client.asks(request, Method::Post, log_out_route(), Shape::Nothing)
                },
                LogInStep::Finished(Ok(logged_in)) => {
                    &&& logged_in.web_client == web_client
                    &&& making.resumes_into(
                        &web_client,
                        outcome,
                        MakingStep::Finished(Ok(logged_in.user_data)),
                    )
                },
                _ => false,
            },
            LogInFlow::RollBack { error, auth_data, web_client } => step.fails_with(
                AuthError::of_making(error),
                InactiveClient { auth_data, web_client: logged_out(web_client) },
            ),
        }
    }

    /// Takes the outcome of the request that the log-on had sent, and says
    /// where the log-on stands then.
    pub fn resume(self, outcome: Result<Response, SendingError>) -> (step: LogInStep<RequestSender>)
        ensures
            self.resumes_into(outcome, step),
    {
        match self {
            LogInFlow::Cookies(client) => match settled(outcome) {
                Err(error) => LogInStep::Finished(Err((AuthError::RequestError(error), client))),
                Ok(_) => {
                    let request = expecting(
                        client.web_client.post("auth/getdata"),
                        Shape::PreAuthData,
                    );
                    LogInStep::Send(LogInFlow::PreAuthData(client), request)
                },
            },
            LogInFlow::PreAuthData(client) => {
                let response = match settled(outcome) {
                    Ok(response) => response,
                    Err(error) => {
                        return LogInStep::Finished(
                            Err((AuthError::RequestError(error), client)),
                        );
                    },
                };
                let pre_auth_data = match response.body {
                    Body::PreAuthData(pre_auth_data) => pre_auth_data,
                    _ => {
                        return LogInStep::Finished(
                            Err((AuthError::InvalidJsonInServerResponse, client)),
                        );
                    },
                };
                let encoded = match digest(
                    client.auth_data.password.as_str(),
                    pre_auth_data.salt.as_str(),
                ) {
                    Ok(encoded) => encoded,
                    Err(_) => {
                        return LogInStep::Finished(
                            Err((AuthError::InvalidCharactersInPassword, client)),
                        );
                    },
                };
                let body = AuthRequest {
                    login_type: LoginType::Regular,
                    username: client.auth_data.username.clone(),
                    full_encoded_password: encoded.full,
                    trimmed_encoded_password: encoded.trimmed,
                    pre_auth_data,
                    school_info: client.auth_data.school_info.clone(),
                };
                let request = match client.web_client.post("login") {
                    Ok(asked) => Ok(asked.json(body).expecting(Shape::AuthResponse)),
                    Err(error) => Err(error),
                };
                LogInStep::Send(LogInFlow::LogIn(client), request)
            },
            LogInFlow::LogIn(client) => {
                let response = match settled(outcome) {
                    Ok(response) => response,
                    Err(error) => {
                        if let Some(status) = error.status() {
                            if status == CONFLICT {
                                return LogInStep::Finished(
                                    Err((AuthError::InvalidCredentials(error), client)),
                                );
                            }
                        }
                        return LogInStep::Finished(
                            Err((AuthError::RequestError(error), client)),
                        );
                    },
                };
                let auth_response = match response.body {
                    Body::AuthResponse(auth_response) => auth_response,
                    _ => {
                        return LogInStep::Finished(
                            Err((AuthError::InvalidJsonInServerResponse, client)),
                        );
                    },
                };
                let access_token = match AccessToken::new(auth_response.auth_token) {
                    Some(access_token) => access_token,
                    None => {
                        return LogInStep::Finished(
                            Err((AuthError::InvalidJsonInServerResponse, client)),
                        );
                    },
                };
                let logged_in_web_client = WebClientWrapper::new(
                    client.web_client.inner.log_in(access_token),
                    client.web_client.request_sender,
                );
                let making = UserData::make(&logged_in_web_client, client.auth_data);
                after_making(making, logged_in_web_client)
            },
            LogInFlow::UserData { making, web_client } => {
                let made = making.resume(&web_client, outcome);
                after_making(made, web_client)
            },
            LogInFlow::RollBack { error, auth_data, web_client } => {
                let web_client = WebClientWrapper::new(
                    web_client.inner.log_out(),
                    web_client.request_sender,
                );
                LogInStep::Finished(Err((error.into(), InactiveClient::new(auth_data, web_client))))
            },
        }
    }
}

/// Whether `steps` are the steps of a log-on of `client`: the first is the
/// one that `log_in` makes, and each of the others is where the log-on of the
/// step before stands after the outcome in that step's position.
pub open spec fn is_log_in_run<RequestSender>(
    client: InactiveClient<RequestSender>,
    outcomes: Seq<Result<Response, SendingError>>,
    steps: Seq<LogInStep<RequestSender>>,
) -> bool {
    &&& steps.len() == outcomes.len() + 1
    &&& client.begins(steps[0])
    &&& forall|i: int|
        0 <= i < outcomes.len() ==> ((#[trigger] steps[i]) matches LogInStep::Send(flow, _)
            && flow.resumes_into(outcomes[i], steps[i + 1]))
}

/// Every step of a log-on holds the client that asked for it: its
/// credentials, the address of its portal and its sender.
pub proof fn log_in_keeps_the_client<RequestSender>(
    client: InactiveClient<RequestSender>,
    outcomes: Seq<Result<Response, SendingError>>,
    steps: Seq<LogInStep<RequestSender>>,
    at: int,
)
    requires
        is_log_in_run(client, outcomes, steps),
        0 <= at < steps.len(),
    ensures
        steps[at].client() == client,
    decreases at,
{
    if at > 0 {
        log_in_keeps_the_client(client, outcomes, steps, at - 1);
        let before = steps[at - 1];
        assert(before matches LogInStep::Send(flow, _) && flow.resumes_into(
            outcomes[at - 1],
            steps[at - 1 + 1],
        ));
    }
}

/// A log-on that fails hands back the client that asked for it, with the
/// credentials that it had.
pub proof fn failed_log_in_returns_the_client<RequestSender>(
    client: InactiveClient<RequestSender>,
    outcomes: Seq<Result<Response, SendingError>>,
    steps: Seq<LogInStep<RequestSender>>,
)
    requires
        is_log_in_run(client, outcomes, steps),
        steps.last() is Finished,
        steps.last()->Finished_0 is Err,
    ensures
        steps.last()->Finished_0->Err_0.1 == client,
        steps.last()->Finished_0->Err_0.1.auth_data == client.auth_data,
{
    log_in_keeps_the_client(client, outcomes, steps, steps.len() - 1);
}

/// A session that a log-on made, logged out at once and made inactive, is
/// the client that asked for the log-on, with the credentials that it had.
/// This holds of `log_out`, where the outcome of the log-out request lets it
/// log the session out, and of `log_out_anyway`, whatever that outcome is.
pub proof fn log_in_then_log_out_returns_the_client<RequestSender>(
    client: InactiveClient<RequestSender>,
    outcomes: Seq<Result<Response, SendingError>>,
    steps: Seq<LogInStep<RequestSender>>,
    log_out_outcome: Result<Response, SendingError>,
)
    requires
        is_log_in_run(client, outcomes, steps),
        steps.last() is Finished,
        steps.last()->Finished_0 is Ok,
    ensures
        ({
            let logged_in = steps.last()->Finished_0->Ok_0;
            &&& logged_in.spec_logged_out().spec_into_inactive() == client
            &&& logged_in.spec_logged_out().spec_into_inactive().auth_data == client.auth_data
            &&& logged_in.spec_log_out(log_out_outcome) matches Ok(logged_out)
                ==> logged_out.spec_into_inactive() == client
        }),
{
    log_in_keeps_the_client(client, outcomes, steps, steps.len() - 1);
}

} // verus!
