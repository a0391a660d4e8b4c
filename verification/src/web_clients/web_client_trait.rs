//! What a client of either kind gives to a request.

use super::request_builder::{header_texts, RequestBuilder};
use super::url_with_api_base_route::UrlWithApiBaseRoute;
use vstd::prelude::*;

verus! {

/// The name of the header that carries the access token.
pub open spec fn access_token_header() -> Seq<char> {
    "at"@
}

/// The headers that a client with the access token `access_token`, or with
/// none, puts on its requests.
pub open spec fn own_headers(access_token: Option<Seq<char>>) -> Seq<(Seq<char>, Seq<char>)> {
    match access_token {
        Some(token) => seq![(access_token_header(), token)],
        None => seq![],
    }
}

pub trait WebClient {
    /// The access token that the client puts on its requests, if it puts one.
    spec fn spec_access_token(&self) -> Option<Seq<char>>;

    /// The address of the portal's API.
    spec fn spec_base_url(&self) -> UrlWithApiBaseRoute;

    /// Puts the client's own headers behind those that the request has.
    fn add_headers(&self, request_builder: RequestBuilder) -> (res: RequestBuilder)
        ensures
            res.method == request_builder.method,
            res.url == request_builder.url,
            header_texts(res.headers@) == header_texts(request_builder.headers@) + own_headers(
                self.spec_access_token(),
            ),
            res.json == request_builder.json,
            res.expects == request_builder.expects,
    ;

    fn base_url(&self) -> (res: &UrlWithApiBaseRoute)
        ensures
            *res == self.spec_base_url(),
    ;
}

} // verus!
