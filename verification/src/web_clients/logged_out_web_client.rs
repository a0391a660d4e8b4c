//! The client that sends requests without an access token.

use super::logged_in_web_client::{AccessToken, LoggedInWebClient};
use super::request_builder::{header_texts, RequestBuilder};
use super::url_with_api_base_route::UrlWithApiBaseRoute;
use super::web_client_trait::WebClient;
use vstd::prelude::*;

verus! {

#[derive(Debug)]
pub struct LoggedOutWebClient {
    pub base_url: UrlWithApiBaseRoute,
}

impl LoggedOutWebClient {
    pub fn new(base_url: UrlWithApiBaseRoute) -> (res: Self)
        ensures
            res == (LoggedOutWebClient { base_url }),
    {
        LoggedOutWebClient { base_url }
    }

    /// The client for the same portal that puts `access_token` on its
    /// requests.
    pub open spec fn spec_log_in(self, access_token: AccessToken) -> LoggedInWebClient {
        LoggedInWebClient { base_url: self.base_url, access_token }
    }

    /// The client for the same portal that puts `access_token` on its
    /// requests.
    pub fn log_in(self, access_token: AccessToken) -> (res: LoggedInWebClient)
        ensures
            res == self.spec_log_in(access_token),
    {
        LoggedInWebClient::new(self.base_url, access_token)
    }
}

impl WebClient for LoggedOutWebClient {
    open spec fn spec_access_token(&self) -> Option<Seq<char>> {
        None
    }

    open spec fn spec_base_url(&self) -> UrlWithApiBaseRoute {
        self.base_url
    }

    fn add_headers(&self, request_builder: RequestBuilder) -> (res: RequestBuilder) {
        assert(header_texts(request_builder.headers@) + Seq::<(Seq<char>, Seq<char>)>::empty()
            =~= header_texts(request_builder.headers@));
        request_builder
    }

    fn base_url(&self) -> (res: &UrlWithApiBaseRoute) {
        &self.base_url
    }
}

} // verus!
