//! The session after a log-out.

use super::inactive_client::InactiveClient;
use crate::user_data::UserData;
use crate::web_clients::logged_out_web_client::LoggedOutWebClient;
use crate::web_clients::web_client_wrapper::WebClientWrapper;
use vstd::prelude::*;

verus! {

/// A client that was logged in but is now logged out.
#[derive(Debug)]
pub struct LoggedOutClient<RequestSender> {
    pub user_data: UserData,
    pub web_client: WebClientWrapper<LoggedOutWebClient, RequestSender>,
}

impl<RequestSender> LoggedOutClient<RequestSender> {
    /// The inactive client that the session becomes: the credentials that it
    /// was logged on with, and its web client.
    pub open spec fn spec_into_inactive(self) -> InactiveClient<RequestSender> {
        InactiveClient { auth_data: self.user_data.spec_auth_data(), web_client: self.web_client }
    }

    pub fn new(
        user_data: UserData,
        web_client: WebClientWrapper<LoggedOutWebClient, RequestSender>,
    ) -> (res: Self)
        ensures
            res == (LoggedOutClient { user_data, web_client }),
    {
        LoggedOutClient { user_data, web_client }
    }
}

impl<RequestSender> From<LoggedOutClient<RequestSender>> for InactiveClient<RequestSender> {
    /// Lets go of what the session knew of its user, and keeps the
    /// credentials and the web client.
    fn from(logged_out_client: LoggedOutClient<RequestSender>) -> (res: Self) {
        InactiveClient::new(logged_out_client.user_data.into(), logged_out_client.web_client)
    }
}

impl<RequestSender> vstd::std_specs::convert::FromSpecImpl<LoggedOutClient<RequestSender>> for InactiveClient<RequestSender> {
    open spec fn obeys_from_spec() -> bool {
        true
    }

    open spec fn from_spec(logged_out_client: LoggedOutClient<RequestSender>) -> Self {
        logged_out_client.spec_into_inactive()
    }
}

} // verus!
