//! HTTP requests as values: the poller says what is to be sent, its caller
//! sends it.

use vstd::prelude::*;

verus! {

/// The two methods that the poller uses.
#[derive(Clone, Copy, Debug, PartialEq, Eq, Structural)]
pub enum Method {
    Get,
    Post,
}

/// One header of a request.
#[derive(Clone, Debug)]
pub struct Header {
    pub name: String,
    pub value: String,
}

/// What a `Header` holds, as mathematical values.
pub struct HeaderView {
    pub name: Seq<char>,
    pub value: Seq<char>,
}

impl View for Header {
    type V = HeaderView;

    open spec fn view(&self) -> HeaderView {
        HeaderView { name: self.name@, value: self.value@ }
    }
}

/// One request: the method, the URL, the headers in order, and the body
/// where the request has one.
#[derive(Clone, Debug)]
pub struct Request {
    pub method: Method,
    pub url: String,
    pub headers: Vec<Header>,
    pub body: Option<String>,
}

/// What a `Request` holds, as mathematical values.
pub struct RequestView {
    pub method: Method,
    pub url: Seq<char>,
    pub headers: Seq<HeaderView>,
    pub body: Option<Seq<char>>,
}

/// What a list of headers holds, as mathematical values.
pub open spec fn headers_view(headers: Seq<Header>) -> Seq<HeaderView> {
    Seq::new(headers.len(), |i: int| headers[i]@)
}

impl View for Request {
    type V = RequestView;

    open spec fn view(&self) -> RequestView {
        RequestView {
            method: self.method,
            url: self.url@,
            headers: headers_view(self.headers@),
            body: match self.body {
                Some(text) => Some(text@),
                None => None,
            },
        }
    }
}

/// The header that asks for an answer in JSON.
pub open spec fn accept_json_spec() -> HeaderView {
    HeaderView { name: "Accept"@, value: "application/json"@ }
}

/// The header that says the body is plain text in UTF-8.
pub open spec fn plain_text_spec() -> HeaderView {
    HeaderView { name: "Content-Type"@, value: "text/plain; charset=utf-8"@ }
}

/// The header that authorises with a token.
pub open spec fn authorization_spec(token: Seq<char>) -> HeaderView {
    HeaderView { name: "Authorization"@, value: "Token "@ + token }
}

pub fn accept_json() -> (header: Header)
    ensures
        header@ == accept_json_spec(),
{
    Header { name: String::from_str("Accept"), value: String::from_str("application/json") }
}

pub fn plain_text() -> (header: Header)
    ensures
        header@ == plain_text_spec(),
{
    Header {
        name: String::from_str("Content-Type"),
        value: String::from_str("text/plain; charset=utf-8"),
    }
}

pub fn authorization(token: &str) -> (header: Header)
    ensures
        header@ == authorization_spec(token@),
{
    let mut value = String::from_str("Token ");
    value.append(token);
    Header { name: String::from_str("Authorization"), value }
}

} // verus!
