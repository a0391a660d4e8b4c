//! The address below which the portal's API lives.

use super::url_ending_with_a_slash::{
    ends_with_a_slash, join_url, url_join, ConversionError, UrlEndingWithASlash,
};
use vstd::prelude::*;

verus! {

/// The path of the API below a portal's address.
pub open spec fn api_route() -> Seq<char> {
    "webapi/"@
}

#[derive(Debug)]
pub struct UrlWithApiBaseRoute(UrlEndingWithASlash);

impl View for UrlWithApiBaseRoute {
    type V = Seq<char>;

    closed spec fn view(&self) -> Seq<char> {
        self.0@
    }
}

impl UrlWithApiBaseRoute {
    /// The URL's text.
    pub fn inner(&self) -> (res: &str)
        ensures
            res@ == self@,
            ends_with_a_slash(res@),
    {
        self.0.inner()
    }

    /// The address of the API of the portal at `url`: `webapi/` resolved
    /// against `url`.
    ///
    /// Fails where the two do not resolve to a URL, or to one that does not
    /// end with a slash.
    pub fn try_from(url: UrlEndingWithASlash) -> (res: Result<Self, ConversionError>)
        ensures
            match res {
                Ok(made) => url_join(url@, api_route()) == Some(made@),
                Err(ConversionError::ParseError(_)) => url_join(url@, api_route()) is None,
                Err(ConversionError::UrlDoesNotEndWithASlash) => url_join(url@, api_route())
                    is Some && !ends_with_a_slash(url_join(url@, api_route()).unwrap()),
            },
    {
        match join_url(url.inner(), "webapi/") {
            Ok(joined) => match UrlEndingWithASlash::new(joined) {
                Ok(made) => Ok(UrlWithApiBaseRoute(made)),
                Err(_) => Err(ConversionError::UrlDoesNotEndWithASlash),
            },
            Err(error) => Err(ConversionError::ParseError(error)),
        }
    }
}

} // verus!
