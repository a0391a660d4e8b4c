//! The address of a portal, always with a slash at its end, so that paths
//! resolve below it.

use vstd::prelude::*;
use vstd::string::*;

verus! {

/// The text of the URL that `url::Url::parse` makes of `text`, where it makes
/// one.
pub uninterp spec fn url_parse(text: Seq<char>) -> Option<Seq<char>>;

/// The text of the URL that `url::Url::join` makes of `reference`, taken
/// relative to the URL that `base` parses to, where both succeed.
pub uninterp spec fn url_join(base: Seq<char>, reference: Seq<char>) -> Option<Seq<char>>;

#[verifier::external_type_specification]
#[verifier::external_body]
pub struct ExParseError(url::ParseError);

/// Whether the last character of `text` is a slash.
pub open spec fn ends_with_a_slash(text: Seq<char>) -> bool {
    text.len() > 0 && text.last() == '/'
}

/// Calls `url::Url::parse` and hands out the URL as text.
#[verifier::external_body]
pub(crate) fn parse_url(text: &str) -> (res: Result<String, url::ParseError>)
    ensures
        match res {
            Ok(url) => url_parse(text@) == Some(url@),
            Err(_) => url_parse(text@) is None,
        },
{
    url::Url::parse(text).map(String::from)
}

/// Calls `url::Url::join` on the URL that `base` parses to and hands out the
/// result as text. Fails where `base` is no URL or the join fails.
#[verifier::external_body]
pub(crate) fn join_url(base: &str, reference: &str) -> (res: Result<String, url::ParseError>)
    ensures
        match res {
            Ok(url) => url_join(base@, reference@) == Some(url@),
            Err(_) => url_join(base@, reference@) is None,
        },
{
    url::Url::parse(base)?.join(reference).map(String::from)
}

/// Whether `text` ends with a slash.
pub(crate) fn has_final_slash(text: &str) -> (res: bool)
    ensures
        res == ends_with_a_slash(text@),
{
    let len = text.unicode_len();
    len > 0 && text.get_char(len - 1) == '/'
}

#[derive(Debug)]
pub struct UrlEndingWithASlash {
    url: String,
}

#[derive(Debug, Clone, Copy, PartialEq, Eq, Structural)]
pub enum CreationError {
    UrlDoesNotEndWithASlash,
}

#[derive(Debug)]
pub enum ConversionError {
    UrlDoesNotEndWithASlash,
    ParseError(url::ParseError),
}

impl View for UrlEndingWithASlash {
    type V = Seq<char>;

    closed spec fn view(&self) -> Seq<char> {
        self.url@
    }
}

impl UrlEndingWithASlash {
    #[verifier::type_invariant]
    spec fn well_formed(self) -> bool {
        ends_with_a_slash(self.url@)
    }

    /// Takes a URL's text where it ends with a slash, and hands it back where
    /// it does not.
    pub fn new(url: String) -> (res: Result<Self, (CreationError, String)>)
        ensures
            match res {
                Ok(made) => ends_with_a_slash(url@) && made@ == url@,
                Err((error, returned)) => !ends_with_a_slash(url@) && returned == url,
            },
    {
        if has_final_slash(url.as_str()) {
            Ok(UrlEndingWithASlash { url })
        } else {
            Err((CreationError::UrlDoesNotEndWithASlash, url))
        }
    }

    /// The URL's text.
    pub fn inner(&self) -> (res: &str)
        ensures
            res@ == self@,
            ends_with_a_slash(res@),
    {
        proof {
            use_type_invariant(self);
        }
        self.url.as_str()
    }

    /// Takes a URL's text as it is where it ends with a slash, and with a
    /// slash put behind it where it does not.
    pub fn from_url(url: String) -> (res: Self)
        ensures
            res@ == if ends_with_a_slash(url@) {
                url@
            } else {
                url@.push('/')
            },
    {
        if has_final_slash(url.as_str()) {
            UrlEndingWithASlash { url }
        } else {
            proof {
                reveal_strlit("/");
            }
            let ghost before = url@;
            let url = url.concat("/");
            assert(url@ =~= before.push('/'));
            UrlEndingWithASlash { url }
        }
    }

    /// Reads a URL from text that ends with a slash.
    ///
    /// Text without the slash is refused before it is read. Text with it is
    /// read as a URL, and the URL is taken where it still ends with a slash.
    pub fn try_from(string: &str) -> (res: Result<Self, ConversionError>)
        ensures
            match res {
                Ok(made) => ends_with_a_slash(string@) && url_parse(string@) == Some(made@),
                Err(ConversionError::ParseError(_)) => ends_with_a_slash(string@) && url_parse(
                    string@,
                ) is None,
                Err(ConversionError::UrlDoesNotEndWithASlash) => !ends_with_a_slash(string@) || (
                url_parse(string@) is Some && !ends_with_a_slash(url_parse(string@).unwrap())),
            },
    {
        if has_final_slash(string) {
            match parse_url(string) {
                Ok(url) => {
                    if has_final_slash(url.as_str()) {
                        Ok(UrlEndingWithASlash { url })
                    } else {
                        Err(ConversionError::UrlDoesNotEndWithASlash)
                    }
                },
                Err(error) => Err(ConversionError::ParseError(error)),
            }
        } else {
            Err(ConversionError::UrlDoesNotEndWithASlash)
        }
    }
}

} // verus!
