//! A request, written down for whoever sends it.

use super::response::Shape;
use crate::schemas::AuthRequest;
use vstd::prelude::*;
use vstd::string::*;

verus! {

#[derive(Clone, Copy, Debug, PartialEq, Eq, Structural)]
pub enum Method {
    Get,
    Post,
}

#[derive(Debug)]
pub struct Header {
    pub name: String,
    pub value: String,
}

/// The names and values of `headers`, as text, in their order.
pub open spec fn header_texts(headers: Seq<Header>) -> Seq<(Seq<char>, Seq<char>)> {
    Seq::new(headers.len(), |i: int| (headers[i].name@, headers[i].value@))
}

#[derive(Debug)]
pub struct RequestBuilder {
    pub method: Method,
    pub url: String,
    pub headers: Vec<Header>,
    /// The body, to be sent as JSON.
    pub json: Option<AuthRequest>,
    /// What the answer's body is to be read as.
    pub expects: Shape,
}

impl RequestBuilder {
    /// A request to `url` with no header and no body, whose answer is not
    /// read.
    pub fn new(method: Method, url: String) -> (res: Self)
        ensures
            res.method == method,
            res.url == url,
            res.headers@.len() == 0,
            res.json is None,
            res.expects == Shape::Nothing,
    {
        RequestBuilder { method, url, headers: Vec::new(), json: None, expects: Shape::Nothing }
    }

    /// The same request with one more header behind those it has.
    pub fn header(self, name: &str, value: &str) -> (res: Self)
        ensures
            res.method == self.method,
            res.url == self.url,
            header_texts(res.headers@) == header_texts(self.headers@).push((name@, value@)),
            res.json == self.json,
            res.expects == self.expects,
    {
        let mut headers = self.headers;
        let ghost before = headers@;
        headers.push(Header { name: String::from_str(name), value: String::from_str(value) });
        assert(header_texts(headers@) =~= header_texts(before).push((name@, value@)));
        RequestBuilder {
            method: self.method,
            url: self.url,
            headers,
            json: self.json,
            expects: self.expects,
        }
    }

    /// The same request with `json` as its body.
    pub fn json(self, json: AuthRequest) -> (res: Self)
        ensures
            res.method == self.method,
            res.url == self.url,
            res.headers == self.headers,
            res.json == Some(json),
            res.expects == self.expects,
    {
        RequestBuilder {
            method: self.method,
            url: self.url,
            headers: self.headers,
            json: Some(json),
            expects: self.expects,
        }
    }

    /// The same request, whose answer is to be read as `shape`.
    pub fn expecting(self, shape: Shape) -> (res: Self)
        ensures
            res.method == self.method,
            res.url == self.url,
            res.headers == self.headers,
            res.json == self.json,
            res.expects == shape,
    {
        RequestBuilder {
            method: self.method,
            url: self.url,
            headers: self.headers,
            json: self.json,
            expects: shape,
        }
    }
}

} // verus!
