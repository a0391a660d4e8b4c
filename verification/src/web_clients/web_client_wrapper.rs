//! Requests as a client of either kind makes them.

use super::request_builder::{header_texts, Method, RequestBuilder};
use super::response::Shape;
use super::url_ending_with_a_slash::{join_url, url_join};
use super::web_client_trait::{own_headers, WebClient};
use vstd::prelude::*;

verus! {

#[derive(Debug, Clone, Copy, PartialEq, Eq, Structural)]
pub enum RequestError {
    IllFormedUrl,
}

/// What every request says of who sends it.
pub open spec fn user_agent() -> Seq<char> {
    "NetSchoolAPI/5.0.3"@
}

/// The headers of every request of a client for the API at `base_url` with
/// the access token `access_token`, or with none: the client's own first,
/// then who sends the request, then where it comes from.
pub open spec fn request_headers(access_token: Option<Seq<char>>, base_url: Seq<char>) -> Seq<
    (Seq<char>, Seq<char>),
> {
    own_headers(access_token) + seq![("user-agent"@, user_agent()), ("referer"@, base_url)]
}

/// Wraps the web client to provide the necessary methods, and holds what
/// sends the requests.
#[derive(Debug)]
pub struct WebClientWrapper<Inner, RequestSender> {
    pub inner: Inner,
    pub request_sender: RequestSender,
}

impl<Inner: WebClient, RequestSender> WebClientWrapper<Inner, RequestSender> {
    /// Whether `res` is a request of the client to `url` by `method`, with an
    /// answer to be read as `expects`: the request to `url` resolved against
    /// the address of the API, with the client's headers; or the failure to
    /// resolve `url`.
    pub open spec fn addresses(
        &self,
        res: Result<RequestBuilder, RequestError>,
        method: Method,
        url: Seq<char>,
        expects: Shape,
    ) -> bool {
        match url_join(self.inner.spec_base_url()@, url) {
            Some(target) => {
                &&& res matches Ok(request)
                &&& request.method == method
                &&& request.url@ == target
                &&& header_texts(request.headers@) == request_headers(
                    self.inner.spec_access_token(),
                    self.inner.spec_base_url()@,
                )
                &&& request.expects == expects
            },
            None => res matches Err(RequestError::IllFormedUrl),
        }
    }

    /// Whether `res` is the request of the client to `url` by `method` that
    /// has no body, with an answer to be read as `expects`.
    pub open spec fn asks(
        &self,
        res: Result<RequestBuilder, RequestError>,
        method: Method,
        url: Seq<char>,
        expects: Shape,
    ) -> bool {
        &&& self.addresses(res, method, url, expects)
        &&& res matches Ok(request) ==> request.json is None
    }

    pub fn new(inner: Inner, request_sender: RequestSender) -> (res: Self)
        ensures
            res == (WebClientWrapper { inner, request_sender }),
    {
        WebClientWrapper { inner, request_sender }
    }

    /// The request to `url`, taken relative to the address of the API.
    pub fn request(&self, url: &str, method: Method) -> (res: Result<RequestBuilder, RequestError>)
        ensures
            self.asks(res, method, url@, Shape::Nothing),
    {
        let base = self.inner.base_url().inner();
        match join_url(base, url) {
            Ok(target) => {
                let request = self.inner.add_headers(RequestBuilder::new(method, target));
                let request = request.header("user-agent", "NetSchoolAPI/5.0.3").header(
                    "referer",
                    base,
                );
                assert(header_texts(request.headers@) =~= request_headers(
                    self.inner.spec_access_token(),
                    self.inner.spec_base_url()@,
                ));
                Ok(request)
            },
            Err(_) => Err(RequestError::IllFormedUrl),
        }
    }

    pub fn get(&self, url: &str) -> (res: Result<RequestBuilder, RequestError>)
        ensures
            self.asks(res, Method::Get, url@, Shape::Nothing),
    {
        self.request(url, Method::Get)
    }

    pub fn post(&self, url: &str) -> (res: Result<RequestBuilder, RequestError>)
        ensures
            self.asks(res, Method::Post, url@, Shape::Nothing),
    {
        self.request(url, Method::Post)
    }
}

/// The same request, whose answer is to be read as `shape`; the same failure
/// where there is no request.
pub fn expecting(request: Result<RequestBuilder, RequestError>, shape: Shape) -> (res: Result<
    RequestBuilder,
    RequestError,
>)
    ensures
        match request {
            Ok(asked) => res matches Ok(made) && made.method == asked.method && made.url
                == asked.url && made.headers == asked.headers && made.json == asked.json
                && made.expects == shape,
            Err(error) => res == Err::<RequestBuilder, RequestError>(error),
        },
{
    match request {
        Ok(asked) => Ok(asked.expecting(shape)),
        Err(error) => Err(error),
    }
}

} // verus!
