//! One quote: where it is asked for and how the request can end.

use vstd::prelude::*;
use crate::error::PollError;
use crate::price_type::{words_spelled, PriceType};
use crate::request::{
    accept_json, accept_json_spec, headers_view, Header, Method, Request, RequestView,
};

verus! {

/// The base of the quote API's URLs.
pub const API_BASE: &'static str = "https://api.coinbase.com";

/// The currency that quotes are asked in where none is chosen.
pub const DEFAULT_CURRENCY: &'static str = "GBP";

/// How the request for one quote ended.
#[derive(Clone, Debug)]
pub enum Quote {
    /// The API answered with an amount that is a number. The text is that
    /// number in single precision, as the output line will show it.
    Amount(String),
    /// The request failed in transit.
    Unreachable,
    /// The body was not a JSON object with an object `data` that holds an
    /// `amount`.
    Malformed,
    /// The body held an amount that is not a number.
    NotNumeric,
}

/// What a `Quote` holds, as mathematical values.
pub enum QuoteView {
    Amount(Seq<char>),
    Unreachable,
    Malformed,
    NotNumeric,
}

impl View for Quote {
    type V = QuoteView;

    open spec fn view(&self) -> QuoteView {
        match self {
            Quote::Amount(text) => QuoteView::Amount(text@),
            Quote::Unreachable => QuoteView::Unreachable,
            Quote::Malformed => QuoteView::Malformed,
            Quote::NotNumeric => QuoteView::NotNumeric,
        }
    }
}

impl QuoteView {
    /// The kind of failure that this outcome stands for, if it is one.
    pub open spec fn failure(self) -> Option<PollError> {
        match self {
            QuoteView::Amount(_) => None,
            QuoteView::Unreachable => Some(PollError::Fetch),
            QuoteView::Malformed => Some(PollError::Parse),
            QuoteView::NotNumeric => Some(PollError::Parse),
        }
    }

    /// Whether the request itself failed: no body came, or none of the
    /// expected shape.
    pub open spec fn failed_in_fetch(self) -> bool {
        self is Unreachable || self is Malformed
    }
}

/// The URL of one quote: the base, the path of the price type, the currency
/// as the query.
pub open spec fn price_url_spec(base: Seq<char>, typ: PriceType, currency: Seq<char>) -> Seq<char> {
    base + "/v2/prices/"@ + typ.word() + "?currency="@ + currency
}

/// Builds the URL of one quote under the given base. Nothing is escaped.
pub fn price_url_at(base: &str, typ: PriceType, currency: &str) -> (url: String)
    ensures
        url@ == price_url_spec(base@, typ, currency@),
{
    let mut url = String::from_str(base);
    url.append("/v2/prices/");
    url.append(typ.as_str());
    url.append("?currency=");
    url.append(currency);
    url
}

/// Builds the URL of one quote at the quote API.
pub fn price_url(typ: PriceType, currency: &str) -> (url: String)
    ensures
        url@ == price_url_spec(API_BASE@, typ, currency@),
{
    price_url_at(API_BASE, typ, currency)
}

/// The request for one quote: a GET of its URL that asks for JSON and has
/// no body.
pub open spec fn price_request_spec(typ: PriceType, currency: Seq<char>) -> RequestView {
    RequestView {
        method: Method::Get,
        url: price_url_spec(API_BASE@, typ, currency),
        headers: seq![accept_json_spec()],
        body: None,
    }
}

/// Builds the request for one quote.
pub fn price_request(typ: PriceType, currency: &str) -> (request: Request)
    ensures
        request@ == price_request_spec(typ, currency@),
{
    let mut headers: Vec<Header> = Vec::new();
    headers.push(accept_json());
    assert(headers_view(headers@) =~= seq![accept_json_spec()]);
    Request { method: Method::Get, url: price_url(typ, currency), headers, body: None }
}

/// The URLs of two quotes in one currency differ unless the price types are
/// the same.
pub proof fn price_urls_differ(base: Seq<char>, a: PriceType, b: PriceType, currency: Seq<char>)
    requires
        price_url_spec(base, a, currency) == price_url_spec(base, b, currency),
    ensures
        a == b,
{
    words_spelled(a);
    words_spelled(b);
    reveal_strlit("/v2/prices/");
    reveal_strlit("?currency=");
    let ua = price_url_spec(base, a, currency);
    let ub = price_url_spec(base, b, currency);
    let at: int = base.len() as int + 11;
    // the words start where the path ends; any two of them differ in their
    // second letter or, `sell` and `spot`, in their third
    assert(ua[at + 1] == a.word()[1] && ua[at + 2] == a.word()[2]);
    assert(ub[at + 1] == b.word()[1] && ub[at + 2] == b.word()[2]);
}

/// Every quote is asked for over TLS: its URL starts with `https://`.
pub proof fn quotes_go_over_tls(typ: PriceType, currency: Seq<char>)
    ensures
        price_url_spec(API_BASE@, typ, currency).len() >= 8,
        price_url_spec(API_BASE@, typ, currency).subrange(0, 8) == "https://"@,
{
    reveal_strlit("https://api.coinbase.com");
    reveal_strlit("https://");
}

} // verus!
