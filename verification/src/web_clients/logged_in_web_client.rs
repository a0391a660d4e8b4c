//! The client that sends requests with an access token.

use super::logged_out_web_client::LoggedOutWebClient;
use super::request_builder::{header_texts, RequestBuilder};
use super::url_with_api_base_route::UrlWithApiBaseRoute;
use super::web_client_trait::WebClient;
use vstd::prelude::*;
use vstd::string::*;
use vstd::utf8::*;

verus! {

/// Whether a header's value may hold `byte`: a tab, or anything from the
/// space on but the delete character.
pub open spec fn is_header_byte(byte: u8) -> bool {
    byte >= 32 && byte != 127 || byte == 9
}

/// Whether `text` can be the value of a header: every byte of it may stand
/// in one.
pub open spec fn is_header_value(text: Seq<char>) -> bool {
    forall|i: int|
        0 <= i < encode_utf8(text).len() ==> is_header_byte(#[trigger] encode_utf8(text)[i])
}

/// The token by which the portal knows a session, fit to travel as the value
/// of a header.
#[derive(Debug)]
pub struct AccessToken {
    token: String,
}

impl View for AccessToken {
    type V = Seq<char>;

    closed spec fn view(&self) -> Seq<char> {
        self.token@
    }
}

impl AccessToken {
    #[verifier::type_invariant]
    spec fn well_formed(self) -> bool {
        is_header_value(self.token@)
    }

    /// Takes `token` where it can be the value of a header, and refuses it
    /// where it cannot.
    pub fn new(token: String) -> (res: Option<Self>)
        ensures
            res is Some <==> is_header_value(token@),
            res matches Some(made) ==> made@ == token@,
    {
        let bytes = token.as_str().as_bytes();
        let len = bytes.len();
        let mut i: usize = 0;
        while i < len
            invariant
                i <= len,
                len == bytes@.len(),
                bytes@ == encode_utf8(token@),
                forall|k: int| 0 <= k < i ==> is_header_byte(#[trigger] bytes@[k]),
            decreases len - i,
        {
            let byte = bytes[i];
            if !(byte >= 32 && byte != 127 || byte == 9) {
                return None;
            }
            i = i + 1;
        }
        Some(AccessToken { token })
    }

    /// The token's text.
    pub fn as_str(&self) -> (res: &str)
        ensures
            res@ == self@,
            is_header_value(res@),
    {
        proof {
            use_type_invariant(self);
        }
        self.token.as_str()
    }
}

#[derive(Debug)]
pub struct LoggedInWebClient {
    pub base_url: UrlWithApiBaseRoute,
    pub access_token: AccessToken,
}

impl LoggedInWebClient {
    pub fn new(base_url: UrlWithApiBaseRoute, access_token: AccessToken) -> (res: Self)
        ensures
            res == (LoggedInWebClient { base_url, access_token }),
    {
        LoggedInWebClient { base_url, access_token }
    }

    /// The client for the same portal that puts no access token on its
    /// requests.
    pub open spec fn spec_log_out(self) -> LoggedOutWebClient {
        LoggedOutWebClient { base_url: self.base_url }
    }

    /// The client for the same portal that puts no access token on its
    /// requests.
    pub fn log_out(self) -> (res: LoggedOutWebClient)
        ensures
            res == self.spec_log_out(),
    {
        LoggedOutWebClient::new(self.base_url)
    }
}

impl WebClient for LoggedInWebClient {
    open spec fn spec_access_token(&self) -> Option<Seq<char>> {
        Some(self.access_token@)
    }

    open spec fn spec_base_url(&self) -> UrlWithApiBaseRoute {
        self.base_url
    }

    fn add_headers(&self, request_builder: RequestBuilder) -> (res: RequestBuilder) {
        let ghost before = header_texts(request_builder.headers@);
        let res = request_builder.header("at", self.access_token.as_str());
        assert(header_texts(res.headers@) =~= before + seq![("at"@, self.access_token@)]);
        res
    }

    fn base_url(&self) -> (res: &UrlWithApiBaseRoute) {
        &self.base_url
    }
}

/// Logging a client in and out again gives the client that there was: the
/// same portal, and no access token.
pub proof fn log_in_then_log_out_is_the_same_client(
    client: LoggedOutWebClient,
    access_token: AccessToken,
)
    ensures
        client.spec_log_in(access_token).spec_log_out() == client,
{
}

} // verus!
