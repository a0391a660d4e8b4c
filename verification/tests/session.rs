use netschool::auth_data::AuthData;
use netschool::json::StrNum;
use netschool::net_school_clients::inactive_client::{
    AuthError, InactiveClient, LogInFlow, LogInStep, SchoolByNameGettingError, SchoolsGettingError,
};
use netschool::net_school_clients::logged_in_client::LoggedInClient;
use netschool::schemas::{
    Assignment, AuthResponse, CurrentYear, DiaryInfo, EducationalInstitutionType, LoginType,
    PreAuthData, SchoolInfo, Student,
};
use netschool::user_data::{MakingError, MakingStep, UserData};
use netschool::web_clients::logged_in_web_client::{AccessToken, LoggedInWebClient};
use netschool::web_clients::logged_out_web_client::LoggedOutWebClient;
use netschool::web_clients::request_builder::{Method, RequestBuilder};
use netschool::web_clients::request_sender::SendingError;
use netschool::web_clients::response::{Body, Response, Shape};
use netschool::web_clients::url_ending_with_a_slash::UrlEndingWithASlash;
use netschool::web_clients::url_with_api_base_route::UrlWithApiBaseRoute;
use netschool::web_clients::web_client_wrapper::{RequestError, WebClientWrapper};

type Sender = &'static str;

fn number(text: &str) -> StrNum {
    StrNum::new(text.to_string()).unwrap()
}

fn school(id: &str, name: &str) -> SchoolInfo {
    SchoolInfo {
        country_id: number("2"),
        state_id: number("122"),
        pid: number("-1"),
        city_id: number("1"),
        educational_institution_type: EducationalInstitutionType::School,
        id: number(id),
        name: name.to_string(),
    }
}

fn credentials() -> AuthData {
    AuthData {
        username: "ivanov".to_string(),
        password: "test123".to_string(),
        school_info: school("389", "Lyceum 42"),
    }
}

fn api() -> UrlWithApiBaseRoute {
    UrlWithApiBaseRoute::try_from(UrlEndingWithASlash::try_from("https://school.example/").unwrap())
        .unwrap()
}

fn inactive() -> InactiveClient<Sender> {
    InactiveClient::new(
        credentials(),
        WebClientWrapper::new(LoggedOutWebClient::new(api()), "the sender"),
    )
}

fn answer(body: Body) -> Result<Response, SendingError> {
    Ok(Response { status: 200, body })
}

fn seed() -> PreAuthData {
    PreAuthData { lt: "abc".to_string(), ver: "1".to_string(), salt: "Привет".to_string() }
}

fn diary(current: &str, students: &[&str]) -> Body {
    Body::DiaryInfo(DiaryInfo {
        students: students.iter().map(|id| Student { student_id: number(id) }).collect(),
        current_student_id: number(current),
    })
}

fn headers_of(request: &RequestBuilder) -> Vec<(String, String)> {
    request.headers.iter().map(|header| (header.name.clone(), header.value.clone())).collect()
}

fn anonymous_headers() -> Vec<(String, String)> {
    vec![
        ("user-agent".to_string(), "NetSchoolAPI/5.0.3".to_string()),
        ("referer".to_string(), "https://school.example/webapi/".to_string()),
    ]
}

fn authenticated_headers(token: &str) -> Vec<(String, String)> {
    let mut headers = vec![("at".to_string(), token.to_string())];
    headers.extend(anonymous_headers());
    headers
}

fn sent(step: LogInStep<Sender>) -> (LogInFlow<Sender>, RequestBuilder) {
    match step {
        LogInStep::Send(flow, request) => (flow, request.unwrap()),
        LogInStep::Finished(result) => panic!("the log-on ended: {:?}", result),
    }
}

fn failed(step: LogInStep<Sender>) -> (AuthError, InactiveClient<Sender>) {
    match step {
        LogInStep::Finished(Err(failure)) => failure,
        other => panic!("the log-on did not fail: {:?}", other),
    }
}

fn logged_in(step: LogInStep<Sender>) -> LoggedInClient<Sender> {
    match step {
        LogInStep::Finished(Ok(client)) => client,
        other => panic!("the log-on did not succeed: {:?}", other),
    }
}

fn assert_as_it_was(client: &InactiveClient<Sender>) {
    assert_eq!(client.auth_data.username, "ivanov");
    assert_eq!(client.auth_data.password, "test123");
    assert_eq!(client.auth_data.school_info.name, "Lyceum 42");
    assert_eq!(client.auth_data.school_info.id.representation(), "389");
    assert_eq!(client.web_client.inner.base_url.inner(), "https://school.example/webapi/");
    assert_eq!(client.web_client.request_sender, "the sender");
}

/// Takes a log-on up to the request for the students.
fn up_to_the_diary(token: &str) -> (LogInFlow<Sender>, RequestBuilder) {
    let (flow, _) = sent(inactive().log_in());
    let (flow, _) = sent(flow.resume(answer(Body::Unread)));
    let (flow, _) = sent(flow.resume(answer(Body::PreAuthData(seed()))));
    sent(flow.resume(answer(Body::AuthResponse(AuthResponse { auth_token: token.to_string() }))))
}

/// Takes a log-on to its end, with two types of assignment.
fn session() -> LoggedInClient<Sender> {
    let (flow, _) = up_to_the_diary("token-1");
    let (flow, _) = sent(flow.resume(answer(diary("1", &["11", "12", "13"]))));
    let (flow, _) = sent(flow.resume(answer(Body::CurrentYear(CurrentYear { id: number("2024") }))));
    logged_in(flow.resume(answer(Body::Assignments(vec![
        Assignment { id: number("1"), name: "Homework".to_string() },
        Assignment { id: number("2"), name: "Test".to_string() },
    ]))))
}

#[test]
fn log_in_starts_with_the_cookies() {
    let (flow, request) = sent(inactive().log_in());
    assert!(matches!(flow, LogInFlow::Cookies(_)));
    assert_eq!(request.method, Method::Get);
    assert_eq!(request.url, "https://school.example/webapi/logindata");
    assert_eq!(headers_of(&request), anonymous_headers());
    assert!(request.json.is_none());
    assert_eq!(request.expects, Shape::Nothing);
}

#[test]
fn log_in_fails_when_the_cookies_cannot_be_had() {
    let (flow, _) = sent(inactive().log_in());
    let (error, client) =
        failed(flow.resume(Err(SendingError::SendingError("connection refused".to_string()))));
    match error {
        AuthError::RequestError(SendingError::SendingError(words)) => {
            assert_eq!(words, "connection refused")
        }
        other => panic!("{:?}", other),
    }
    assert_as_it_was(&client);
}

#[test]
fn log_in_fails_when_the_cookies_are_answered_without_success() {
    for status in [199, 300, 404, 409, 500] {
        let (flow, _) = sent(inactive().log_in());
        let (error, client) = failed(flow.resume(Ok(Response { status, body: Body::Unread })));
        match error {
            AuthError::RequestError(SendingError::ErrorStatus(carried)) => {
                assert_eq!(carried, status)
            }
            other => panic!("{:?}", other),
        }
        assert_as_it_was(&client);
    }
}

#[test]
fn log_in_asks_for_the_salt_after_the_cookies() {
    let (flow, _) = sent(inactive().log_in());
    let (flow, request) = sent(flow.resume(Ok(Response { status: 204, body: Body::Unread })));
    assert!(matches!(flow, LogInFlow::PreAuthData(_)));
    assert_eq!(request.method, Method::Post);
    assert_eq!(request.url, "https://school.example/webapi/auth/getdata");
    assert_eq!(headers_of(&request), anonymous_headers());
    assert!(request.json.is_none());
    assert_eq!(request.expects, Shape::PreAuthData);
}

#[test]
fn log_in_fails_when_the_salt_cannot_be_had() {
    let (flow, _) = sent(inactive().log_in());
    let (flow, _) = sent(flow.resume(answer(Body::Unread)));
    let (error, client) = failed(flow.resume(Err(SendingError::SenderSpecificError("busy".to_string()))));
    assert!(matches!(error, AuthError::RequestError(SendingError::SenderSpecificError(_))));
    assert_as_it_was(&client);
}

#[test]
fn log_in_fails_when_the_salt_is_answered_without_success() {
    let (flow, _) = sent(inactive().log_in());
    let (flow, _) = sent(flow.resume(answer(Body::Unread)));
    let outcome = Ok(Response { status: 409, body: Body::PreAuthData(seed()) });
    let (error, client) = failed(flow.resume(outcome));
    assert!(matches!(error, AuthError::RequestError(SendingError::ErrorStatus(409))));
    assert_as_it_was(&client);
}

#[test]
fn log_in_fails_when_the_salt_is_malformed() {
    for body in [Body::Malformed, Body::Unread, Body::CurrentYear(CurrentYear { id: number("1") })] {
        let (flow, _) = sent(inactive().log_in());
        let (flow, _) = sent(flow.resume(answer(Body::Unread)));
        let (error, client) = failed(flow.resume(answer(body)));
        assert!(matches!(error, AuthError::InvalidJsonInServerResponse));
        assert_as_it_was(&client);
    }
}

#[test]
fn log_in_fails_when_the_salt_is_outside_the_code_page() {
    let (flow, _) = sent(inactive().log_in());
    let (flow, _) = sent(flow.resume(answer(Body::Unread)));
    let emoji = PreAuthData { lt: "abc".to_string(), ver: "1".to_string(), salt: "🙂".to_string() };
    let (error, client) = failed(flow.resume(answer(Body::PreAuthData(emoji))));
    assert!(matches!(error, AuthError::InvalidCharactersInPassword));
    assert_as_it_was(&client);
}

#[test]
fn log_in_sends_both_forms_of_the_digest() {
    let (flow, _) = sent(inactive().log_in());
    let (flow, _) = sent(flow.resume(answer(Body::Unread)));
    let (flow, request) = sent(flow.resume(answer(Body::PreAuthData(seed()))));
    assert!(matches!(flow, LogInFlow::LogIn(_)));
    assert_eq!(request.method, Method::Post);
    assert_eq!(request.url, "https://school.example/webapi/login");
    assert_eq!(headers_of(&request), anonymous_headers());
    assert_eq!(request.expects, Shape::AuthResponse);
    let body = request.json.unwrap();
    assert_eq!(body.login_type, LoginType::Regular);
    assert_eq!(body.login_type.code(), 1);
    assert_eq!(body.username, "ivanov");
    assert_eq!(body.full_encoded_password, "ebb42d3670e35df3ecf72f6b286e5295");
    assert_eq!(body.trimmed_encoded_password, "ebb42d3");
    assert_eq!(body.pre_auth_data.lt, "abc");
    assert_eq!(body.pre_auth_data.ver, "1");
    assert_eq!(body.pre_auth_data.salt, "Привет");
    assert_eq!(body.school_info.country_id.representation(), "2");
    assert_eq!(body.school_info.state_id.representation(), "122");
    assert_eq!(body.school_info.pid.representation(), "-1");
    assert_eq!(body.school_info.city_id.representation(), "1");
    assert_eq!(body.school_info.educational_institution_type, EducationalInstitutionType::School);
    assert_eq!(body.school_info.id.representation(), "389");
}

#[test]
fn log_in_with_refused_credentials_fails_without_a_bootstrap() {
    let (flow, _) = sent(inactive().log_in());
    let (flow, _) = sent(flow.resume(answer(Body::Unread)));
    let (flow, _) = sent(flow.resume(answer(Body::PreAuthData(seed()))));
    let step = flow.resume(Ok(Response { status: 409, body: Body::Malformed }));
    let (error, client) = failed(step);
    assert!(matches!(error, AuthError::InvalidCredentials(SendingError::ErrorStatus(409))));
    assert_as_it_was(&client);
}

#[test]
fn log_in_with_a_conflict_from_the_sender_is_refused_credentials() {
    let (flow, _) = sent(inactive().log_in());
    let (flow, _) = sent(flow.resume(answer(Body::Unread)));
    let (flow, _) = sent(flow.resume(answer(Body::PreAuthData(seed()))));
    let (error, client) = failed(flow.resume(Err(SendingError::ErrorStatus(409))));
    assert!(matches!(error, AuthError::InvalidCredentials(SendingError::ErrorStatus(409))));
    assert_as_it_was(&client);
}

#[test]
fn log_in_with_another_bad_status_is_a_request_error() {
    for status in [100, 199, 300, 304, 400, 401, 404, 410, 500, 503, 600] {
        let (flow, _) = sent(inactive().log_in());
        let (flow, _) = sent(flow.resume(answer(Body::Unread)));
        let (flow, _) = sent(flow.resume(answer(Body::PreAuthData(seed()))));
        let body = Body::AuthResponse(AuthResponse { auth_token: "token".to_string() });
        let (error, client) = failed(flow.resume(Ok(Response { status, body })));
        match error {
            AuthError::RequestError(SendingError::ErrorStatus(carried)) => {
                assert_eq!(carried, status)
            }
            other => panic!("{:?}", other),
        }
        assert_as_it_was(&client);
    }
}

#[test]
fn log_in_with_a_failed_request_is_a_request_error() {
    for failure in [
        SendingError::SendingError("timed out".to_string()),
        SendingError::SenderSpecificError("busy".to_string()),
        SendingError::ErrorStatus(500),
    ] {
        let (flow, _) = sent(inactive().log_in());
        let (flow, _) = sent(flow.resume(answer(Body::Unread)));
        let (flow, _) = sent(flow.resume(answer(Body::PreAuthData(seed()))));
        let (error, client) = failed(flow.resume(Err(failure)));
        assert!(matches!(error, AuthError::RequestError(_)));
        assert_as_it_was(&client);
    }
}

#[test]
fn log_in_without_an_access_token_is_invalid_json() {
    let bodies = [
        Body::Malformed,
        Body::Unread,
        Body::PreAuthData(seed()),
        Body::AuthResponse(AuthResponse { auth_token: "two\nlines".to_string() }),
    ];
    for body in bodies {
        let (flow, _) = sent(inactive().log_in());
        let (flow, _) = sent(flow.resume(answer(Body::Unread)));
        let (flow, _) = sent(flow.resume(answer(Body::PreAuthData(seed()))));
        let (error, client) = failed(flow.resume(Ok(Response { status: 299, body })));
        assert!(matches!(error, AuthError::InvalidJsonInServerResponse));
        assert_as_it_was(&client);
    }
}

#[test]
fn log_in_asks_for_the_students_with_the_access_token() {
    let (flow, request) = up_to_the_diary("token-1");
    match &flow {
        LogInFlow::UserData { web_client, .. } => {
            assert_eq!(web_client.inner.access_token.as_str(), "token-1");
            assert_eq!(web_client.inner.base_url.inner(), "https://school.example/webapi/");
            assert_eq!(web_client.request_sender, "the sender");
        }
        other => panic!("{:?}", other),
    }
    assert_eq!(request.method, Method::Get);
    assert_eq!(request.url, "https://school.example/webapi/student/diary/init");
    assert_eq!(headers_of(&request), authenticated_headers("token-1"));
    assert!(request.json.is_none());
    assert_eq!(request.expects, Shape::DiaryInfo);
}

#[test]
fn log_in_gathers_the_user_data() {
    let (flow, _) = up_to_the_diary("token-1");
    let (flow, request) = sent(flow.resume(answer(diary("1", &["11", "12", "13"]))));
    assert_eq!(request.method, Method::Get);
    assert_eq!(request.url, "https://school.example/webapi/years/current");
    assert_eq!(headers_of(&request), authenticated_headers("token-1"));
    assert_eq!(request.expects, Shape::CurrentYear);
    let (flow, request) =
        sent(flow.resume(answer(Body::CurrentYear(CurrentYear { id: number("2024") }))));
    assert_eq!(request.method, Method::Get);
    assert_eq!(request.url, "https://school.example/webapi/grade/assignment/types");
    assert_eq!(headers_of(&request), authenticated_headers("token-1"));
    assert_eq!(request.expects, Shape::Assignments);
    let client = logged_in(flow.resume(answer(Body::Assignments(vec![
        Assignment { id: number("1"), name: "Homework".to_string() },
        Assignment { id: number("2"), name: "Test".to_string() },
        Assignment { id: number("1"), name: "Home work".to_string() },
    ]))));
    assert_eq!(client.user_data.student_id().representation(), "12");
    assert_eq!(client.user_data.year_id().representation(), "2024");
    let types = client.user_data.assignment_types();
    assert_eq!(types.get(&number("1")).map(String::as_str), Some("Home work"));
    assert_eq!(types.get(&number("2")).map(String::as_str), Some("Test"));
    assert_eq!(types.get(&number("3")), None);
    assert_eq!(client.user_data.auth_data().username, "ivanov");
    assert_eq!(client.user_data.auth_data().password, "test123");
    assert_eq!(client.web_client.inner.access_token.as_str(), "token-1");
    assert_eq!(client.web_client.request_sender, "the sender");
}

#[test]
fn log_in_takes_the_last_student_too() {
    let (flow, _) = up_to_the_diary("token-1");
    let (flow, _) = sent(flow.resume(answer(diary("2", &["11", "12", "13"]))));
    let (flow, _) = sent(flow.resume(answer(Body::CurrentYear(CurrentYear { id: number("7") }))));
    let client = logged_in(flow.resume(answer(Body::Assignments(Vec::new()))));
    assert_eq!(client.user_data.student_id().representation(), "13");
}

#[test]
fn log_in_with_a_student_index_out_of_bounds_rolls_back() {
    let (flow, _) = up_to_the_diary("token-1");
    let (flow, request) = sent(flow.resume(answer(diary("5", &["11", "12", "13"]))));
    assert!(matches!(
        flow,
        LogInFlow::RollBack { error: MakingError::InvalidJsonInServerResponse, .. }
    ));
    assert_eq!(request.method, Method::Post);
    assert_eq!(request.url, "https://school.example/webapi/auth/logout");
    assert_eq!(headers_of(&request), authenticated_headers("token-1"));
    assert!(request.json.is_none());
    assert_eq!(request.expects, Shape::Nothing);
    let (error, client) = failed(flow.resume(answer(Body::Unread)));
    assert!(matches!(error, AuthError::InvalidJsonInServerResponse));
    assert_as_it_was(&client);
}

#[test]
fn log_in_rolls_back_whatever_becomes_of_the_log_out() {
    for outcome in [
        Err(SendingError::SendingError("gone".to_string())),
        Err(SendingError::ErrorStatus(401)),
        Ok(Response { status: 500, body: Body::Malformed }),
    ] {
        let (flow, _) = up_to_the_diary("token-1");
        let (flow, _) = sent(flow.resume(answer(diary("3", &["11", "12", "13"]))));
        let (error, client) = failed(flow.resume(outcome));
        assert!(matches!(error, AuthError::InvalidJsonInServerResponse));
        assert_as_it_was(&client);
    }
}

#[test]
fn log_in_rolls_back_on_every_failure_of_the_bootstrap() {
    let indices = ["-1", "3", "18446744073709551616"];
    for index in indices {
        let (flow, _) = up_to_the_diary("t");
        let (flow, _) = sent(flow.resume(answer(diary(index, &["11", "12", "13"]))));
        assert!(matches!(flow, LogInFlow::RollBack { .. }));
    }
    let (flow, _) = up_to_the_diary("t");
    let (flow, _) = sent(flow.resume(answer(diary("0", &[]))));
    assert!(matches!(flow, LogInFlow::RollBack { .. }));

    let (flow, _) = up_to_the_diary("t");
    let (flow, request) = sent(flow.resume(Err(SendingError::SendingError("reset".to_string()))));
    assert_eq!(request.url, "https://school.example/webapi/auth/logout");
    let (error, client) = failed(flow.resume(answer(Body::Unread)));
    match error {
        AuthError::RequestError(SendingError::SendingError(words)) => assert_eq!(words, "reset"),
        other => panic!("{:?}", other),
    }
    assert_as_it_was(&client);

    let (flow, _) = up_to_the_diary("t");
    let (flow, _) = sent(flow.resume(Ok(Response { status: 403, body: diary("0", &["11"]) })));
    let (error, client) = failed(flow.resume(answer(Body::Unread)));
    assert!(matches!(error, AuthError::RequestError(SendingError::ErrorStatus(403))));
    assert_as_it_was(&client);

    let (flow, _) = up_to_the_diary("t");
    let (flow, _) = sent(flow.resume(answer(diary("0", &["11"]))));
    let (flow, request) = sent(flow.resume(answer(Body::Malformed)));
    assert_eq!(request.url, "https://school.example/webapi/auth/logout");
    assert_eq!(headers_of(&request), authenticated_headers("t"));
    let (error, client) = failed(flow.resume(answer(Body::Unread)));
    assert!(matches!(error, AuthError::InvalidJsonInServerResponse));
    assert_as_it_was(&client);

    let (flow, _) = up_to_the_diary("t");
    let (flow, _) = sent(flow.resume(answer(diary("0", &["11"]))));
    let (flow, _) = sent(flow.resume(answer(Body::CurrentYear(CurrentYear { id: number("1") }))));
    let (flow, _) = sent(flow.resume(Err(SendingError::ErrorStatus(502))));
    let (error, client) = failed(flow.resume(answer(Body::Unread)));
    assert!(matches!(error, AuthError::RequestError(SendingError::ErrorStatus(502))));
    assert_as_it_was(&client);
}

#[test]
fn bootstrap_hands_the_credentials_back_when_it_fails() {
    let web_client = WebClientWrapper::new(
        LoggedInWebClient::new(api(), AccessToken::new("t".to_string()).unwrap()),
        "the sender",
    );
    let making = match UserData::make(&web_client, credentials()) {
        MakingStep::Send(making, request) => {
            assert_eq!(request.unwrap().url, "https://school.example/webapi/student/diary/init");
            making
        }
        other => panic!("{:?}", other),
    };
    match making.resume(&web_client, answer(Body::Schools(Vec::new()))) {
        MakingStep::Finished(Err((MakingError::InvalidJsonInServerResponse, auth_data))) => {
            assert_eq!(auth_data.username, "ivanov");
            assert_eq!(auth_data.password, "test123");
        }
        other => panic!("{:?}", other),
    }
    let making = match UserData::make(&web_client, credentials()) {
        MakingStep::Send(making, _) => making,
        other => panic!("{:?}", other),
    };
    match making.resume(&web_client, Err(SendingError::ErrorStatus(500))) {
        MakingStep::Finished(Err((
            MakingError::RequestError(SendingError::ErrorStatus(500)),
            auth_data,
        ))) => {
            assert_eq!(auth_data.username, "ivanov");
        }
        other => panic!("{:?}", other),
    }
}

#[test]
fn log_in_hands_on_a_request_that_cannot_be_formed() {
    let broken = UrlWithApiBaseRoute::try_from(
        UrlEndingWithASlash::try_from("https://school.example/").unwrap(),
    )
    .unwrap();
    let client = InactiveClient::new(
        credentials(),
        WebClientWrapper::new(LoggedOutWebClient::new(broken), "the sender"),
    );
    match client.log_in() {
        LogInStep::Send(_, request) => assert!(request.is_ok()),
        other => panic!("{:?}", other),
    }
    let client = inactive();
    assert_eq!(
        client.web_client.get("http://[").unwrap_err(),
        RequestError::IllFormedUrl
    );
}

#[test]
fn log_out_request_carries_the_access_token() {
    let request = session().log_out_request().unwrap();
    assert_eq!(request.method, Method::Post);
    assert_eq!(request.url, "https://school.example/webapi/auth/logout");
    assert_eq!(headers_of(&request), authenticated_headers("token-1"));
    assert_eq!(request.expects, Shape::Nothing);
}

#[test]
fn log_out_answered_without_success_keeps_the_session() {
    for status in [199, 300, 403, 409, 500] {
        let outcome = Ok(Response { status, body: Body::Unread });
        let (error, client) = session().log_out(outcome).unwrap_err();
        assert_eq!(error.status(), Some(status));
        assert_eq!(client.user_data.student_id().representation(), "12");
        assert_eq!(client.web_client.inner.access_token.as_str(), "token-1");
    }
}

#[test]
fn log_out_after_a_successful_answer_logs_out() {
    for status in [200, 204, 299, 401] {
        let logged_out = session().log_out(Ok(Response { status, body: Body::Unread })).unwrap();
        assert_eq!(logged_out.user_data.student_id().representation(), "12");
        assert_eq!(logged_out.user_data.auth_data().username, "ivanov");
        assert_eq!(logged_out.web_client.inner.base_url.inner(), "https://school.example/webapi/");
        assert_eq!(logged_out.web_client.request_sender, "the sender");
    }
}

#[test]
fn log_out_of_an_expired_session_logs_out() {
    let logged_out = session().log_out(Err(SendingError::ErrorStatus(401))).unwrap();
    assert_eq!(logged_out.user_data.year_id().representation(), "2024");
}

#[test]
fn log_out_that_fails_keeps_the_session() {
    for failure in [
        SendingError::ErrorStatus(500),
        SendingError::ErrorStatus(409),
        SendingError::SendingError("timed out".to_string()),
        SendingError::SenderSpecificError("busy".to_string()),
    ] {
        let (error, client) = session().log_out(Err(failure)).unwrap_err();
        assert!(error.status() != Some(401));
        assert_eq!(client.user_data.student_id().representation(), "12");
        assert_eq!(client.web_client.inner.access_token.as_str(), "token-1");
    }
}

#[test]
fn log_out_anyway_logs_out_and_reports() {
    let (logged_out, outcome) =
        session().log_out_anyway(Err(SendingError::SendingError("timed out".to_string())));
    assert_eq!(logged_out.user_data.student_id().representation(), "12");
    assert!(matches!(outcome, Err(SendingError::SendingError(_))));
    let (logged_out, outcome) =
        session().log_out_anyway(Ok(Response { status: 200, body: Body::Unread }));
    assert_eq!(logged_out.user_data.auth_data().password, "test123");
    assert_eq!(outcome.unwrap().status, 200);
    let (logged_out, outcome) =
        session().log_out_anyway(Ok(Response { status: 500, body: Body::Unread }));
    assert_eq!(logged_out.user_data.auth_data().username, "ivanov");
    assert!(matches!(outcome, Err(SendingError::ErrorStatus(500))));
}

#[test]
fn log_in_then_log_out_gives_the_credentials_back() {
    let logged_out = session().log_out(answer(Body::Unread)).unwrap();
    let client = InactiveClient::from(logged_out);
    assert_as_it_was(&client);
    let (logged_out, _) = session().log_out_anyway(Err(SendingError::ErrorStatus(500)));
    let client: InactiveClient<Sender> = logged_out.into();
    assert_as_it_was(&client);
}

#[test]
fn inactive_client_can_log_in_again() {
    let client = InactiveClient::from(session().log_out(answer(Body::Unread)).unwrap());
    let (flow, request) = sent(client.log_in());
    assert!(matches!(flow, LogInFlow::Cookies(_)));
    assert_eq!(headers_of(&request), anonymous_headers());
}

#[test]
fn user_data_gives_its_credentials() {
    let auth_data = AuthData::from(session().user_data);
    assert_eq!(auth_data.username, "ivanov");
    assert_eq!(auth_data.password, "test123");
    assert_eq!(auth_data.school_info.name, "Lyceum 42");
}

#[test]
fn set_auth_data_replaces_the_credentials() {
    let mut client = inactive();
    client.set_auth_data(AuthData {
        username: "petrov".to_string(),
        password: "other".to_string(),
        school_info: school("1", "School 1"),
    });
    assert_eq!(client.auth_data.username, "petrov");
    assert_eq!(client.auth_data.password, "other");
    assert_eq!(client.auth_data.school_info.name, "School 1");
    assert_eq!(client.web_client.request_sender, "the sender");
}

#[test]
fn auth_error_comes_from_a_making_error() {
    assert!(matches!(
        AuthError::from(MakingError::InvalidJsonInServerResponse),
        AuthError::InvalidJsonInServerResponse
    ));
    assert!(matches!(
        AuthError::from(MakingError::RequestError(SendingError::ErrorStatus(500))),
        AuthError::RequestError(SendingError::ErrorStatus(500))
    ));
}

#[test]
fn schools_request_asks_for_the_directory() {
    let request = inactive().schools_request().unwrap();
    assert_eq!(request.method, Method::Get);
    assert_eq!(request.url, "https://school.example/webapi/addresses/schools");
    assert_eq!(headers_of(&request), anonymous_headers());
    assert_eq!(request.expects, Shape::Schools);
}

#[test]
fn schools_are_the_list_that_was_answered() {
    let listed = vec![school("1", "School 1"), school("42", "Lyceum 42")];
    let schools = inactive().schools(answer(Body::Schools(listed))).unwrap();
    assert_eq!(schools.len(), 2);
    assert_eq!(schools[0].name, "School 1");
    assert_eq!(schools[1].id.representation(), "42");
}

#[test]
fn schools_fail_with_the_request() {
    let error = inactive().schools(Err(SendingError::ErrorStatus(503))).unwrap_err();
    assert!(matches!(error, SchoolsGettingError::RequestError(SendingError::ErrorStatus(503))));
}

#[test]
fn schools_fail_with_an_answer_without_success() {
    let outcome = Ok(Response { status: 404, body: Body::Schools(vec![school("1", "School 1")]) });
    let error = inactive().schools(outcome).unwrap_err();
    assert!(matches!(error, SchoolsGettingError::RequestError(SendingError::ErrorStatus(404))));
}

#[test]
fn schools_fail_with_a_malformed_answer() {
    for body in [Body::Malformed, Body::Unread, Body::Assignments(Vec::new())] {
        let error = inactive().schools(answer(body)).unwrap_err();
        assert!(matches!(error, SchoolsGettingError::InvalidJsonInServerResponse));
    }
}

#[test]
fn school_by_name_finds_the_one_entry() {
    let listed = vec![school("42", "Lyceum 42")];
    let found = inactive().school_by_name("Lyceum 42", answer(Body::Schools(listed))).unwrap();
    assert_eq!(found.name, "Lyceum 42");
    assert_eq!(found.id.representation(), "42");
}

#[test]
fn school_by_name_finds_nothing_where_no_entry_matches() {
    let listed = vec![school("1", "School 1"), school("2", "lyceum 42"), school("3", "Lyceum 42 ")];
    let error = inactive().school_by_name("Lyceum 42", answer(Body::Schools(listed))).unwrap_err();
    assert!(matches!(error, SchoolByNameGettingError::SchoolNotFound));
    let error =
        inactive().school_by_name("Lyceum 42", answer(Body::Schools(Vec::new()))).unwrap_err();
    assert!(matches!(error, SchoolByNameGettingError::SchoolNotFound));
}

#[test]
fn school_by_name_takes_the_first_of_several() {
    let listed = vec![
        school("1", "School 1"),
        school("2", "Lyceum 42"),
        school("3", "Gymnasium"),
        school("4", "Lyceum 42"),
    ];
    let found = inactive().school_by_name("Lyceum 42", answer(Body::Schools(listed))).unwrap();
    assert_eq!(found.id.representation(), "2");
}

#[test]
fn school_by_name_hands_on_why_there_are_no_schools() {
    let error = inactive()
        .school_by_name("Lyceum 42", Err(SendingError::SendingError("down".to_string())))
        .unwrap_err();
    assert!(matches!(
        error,
        SchoolByNameGettingError::SchoolsGettingError(SchoolsGettingError::RequestError(_))
    ));
    let error = inactive().school_by_name("Lyceum 42", answer(Body::Malformed)).unwrap_err();
    assert!(matches!(
        error,
        SchoolByNameGettingError::SchoolsGettingError(
            SchoolsGettingError::InvalidJsonInServerResponse
        )
    ));
    assert!(matches!(
        SchoolByNameGettingError::from(SchoolsGettingError::InvalidJsonInServerResponse),
        SchoolByNameGettingError::SchoolsGettingError(_)
    ));
}

#[test]
fn sending_error_tells_its_status() {
    assert_eq!(SendingError::ErrorStatus(404).status(), Some(404));
    assert_eq!(SendingError::SendingError("x".to_string()).status(), None);
    assert_eq!(SendingError::SenderSpecificError("x".to_string()).status(), None);
}
