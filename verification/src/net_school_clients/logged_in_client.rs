//! The session while it is logged on.

use super::logged_out_client::LoggedOutClient;
use crate::user_data::UserData;
use crate::web_clients::logged_in_web_client::LoggedInWebClient;
use crate::web_clients::logged_out_web_client::LoggedOutWebClient;
use crate::web_clients::request_builder::{Method, RequestBuilder};
use crate::web_clients::request_sender::SendingError;
use crate::web_clients::response::{settled, spec_settled, Response, Shape};
use crate::web_clients::web_client_wrapper::{RequestError, WebClientWrapper};
use vstd::prelude::*;

verus! {

/// The status by which the portal says that it knows no such session.
pub const UNAUTHORIZED: u16 = 401;

/// Where the portal is told to end a session.
pub open spec fn log_out_route() -> Seq<char> {
    "auth/logout"@
}

/// The web client of `web_client`'s session once it is logged out: the same
/// portal and the same sender, and no access token.
pub open spec fn logged_out<RequestSender>(
    web_client: WebClientWrapper<LoggedInWebClient, RequestSender>,
) -> WebClientWrapper<LoggedOutWebClient, RequestSender> {
    WebClientWrapper {
        inner: web_client.inner.spec_log_out(),
        request_sender: web_client.request_sender,
    }
}

/// A client that is logged on.
#[derive(Debug)]
pub struct LoggedInClient<RequestSender> {
    pub user_data: UserData,
    pub web_client: WebClientWrapper<LoggedInWebClient, RequestSender>,
}

impl<RequestSender> LoggedInClient<RequestSender> {
    /// The session once it is logged out: it knows of its user what it knew,
    /// and its web client has no access token.
    pub open spec fn spec_logged_out(self) -> LoggedOutClient<RequestSender> {
        LoggedOutClient { user_data: self.user_data, web_client: logged_out(self.web_client) }
    }

    /// What `log_out` makes of the outcome of the log-out request: the
    /// session is logged out where the portal answered with success, and
    /// where the request failed, or was answered, with the status that says
    /// that the portal knows no such session; any other failure is handed
    /// back with the session as it was.
    pub open spec fn spec_log_out(self, outcome: Result<Response, SendingError>) -> Result<
        LoggedOutClient<RequestSender>,
        (SendingError, Self),
    > {
        match spec_settled(outcome) {
            Ok(_) => Ok(self.spec_logged_out()),
            Err(error) => if error.spec_status() == Some(UNAUTHORIZED) {
                Ok(self.spec_logged_out())
            } else {
                Err((error, self))
            },
        }
    }

    pub fn new(
        user_data: UserData,
        web_client: WebClientWrapper<LoggedInWebClient, RequestSender>,
    ) -> (res: Self)
        ensures
            res == (LoggedInClient { user_data, web_client }),
    {
        LoggedInClient { user_data, web_client }
    }

    /// The request that tells the portal to end the session.
    pub fn log_out_request(&self) -> (res: Result<RequestBuilder, RequestError>)
        ensures
            self.web_client.asks(res, Method::Post, log_out_route(), Shape::Nothing),
    {
        self.web_client.post("auth/logout")
    }

    fn into_logged_out(self) -> (res: LoggedOutClient<RequestSender>)
        ensures
            res == self.spec_logged_out(),
    {
        LoggedOutClient::new(
            self.user_data,
            WebClientWrapper::new(self.web_client.inner.log_out(), self.web_client.request_sender),
        )
    }

    /// Logs the session out, whatever became of the log-out request, and
    /// reports what became of it.
    pub fn log_out_anyway(self, outcome: Result<Response, SendingError>) -> (res: (
        LoggedOutClient<RequestSender>,
        Result<Response, SendingError>,
    ))
        ensures
            res == (self.spec_logged_out(), spec_settled(outcome)),
    {
        (self.into_logged_out(), settled(outcome))
    }

    /// Logs the session out if the outcome of the log-out request allows it.
    pub fn log_out(self, outcome: Result<Response, SendingError>) -> (res: Result<
        LoggedOutClient<RequestSender>,
        (SendingError, Self),
    >)
        ensures
            res == self.spec_log_out(outcome),
    {
        match settled(outcome) {
            Ok(_) => Ok(self.into_logged_out()),
            Err(error) => {
                if let Some(status) = error.status() {
                    if status == UNAUTHORIZED {
                        return Ok(self.into_logged_out());
                    }
                }
                Err((error, self))
            },
        }
    }
}

} // verus!
