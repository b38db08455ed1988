//! What the providers' HTTP exchanges have in common: the request to send, and
//! what a refusal means.

use std::time::Duration;

use vstd::prelude::*;

use crate::error::{Error, ErrorView};
use crate::json::{self, Json};
use crate::text::{self, concat, parse_u64};

verus! {

/// A `POST` request that is ready to be sent.
#[derive(Debug, Clone)]
pub struct HttpRequest {
    pub url: String,
    /// Names and values, in the order in which they are set.
    pub headers: Vec<(String, String)>,
    pub body: serde_json::Value,
}

/// A request as mathematics sees it.
pub struct HttpRequestView {
    pub url: Seq<char>,
    pub headers: Seq<(Seq<char>, Seq<char>)>,
    pub body: Json,
}

/// Connection settings as mathematics sees them.
pub struct ConfigView {
    pub api_key: Seq<char>,
    pub base_url: Seq<char>,
}

/// What each header of a sequence is.
pub open spec fn headers_view(headers: Seq<(String, String)>) -> Seq<(Seq<char>, Seq<char>)> {
    headers.map_values(|h: (String, String)| (h.0@, h.1@))
}

impl View for HttpRequest {
    type V = HttpRequestView;

    open spec fn view(&self) -> HttpRequestView {
        HttpRequestView {
            url: self.url@,
            headers: headers_view(self.headers@),
            body: json::json_of(self.body),
        }
    }
}

/// The span that `Duration::from_secs` makes of a number of seconds.
pub uninterp spec fn duration_of_secs(secs: u64) -> Duration;

/// `Duration::from_secs`: a span of that many whole seconds, the same one for
/// the same number.
pub assume_specification[ std::time::Duration::from_secs ](secs: u64) -> (r: Duration)
    ensures
        r == duration_of_secs(secs),
;

/// The wait that a `retry-after` header asks for: a number of whole seconds;
/// any other text asks for none.
pub open spec fn retry_after_of(header: Option<Seq<char>>) -> Option<Duration> {
    match header {
        Some(text) => match text::u64_of(text) {
            Some(secs) => Some(duration_of_secs(secs)),
            None => None,
        },
        None => None,
    }
}

/// A status that reports success.
pub open spec fn success(status: u16) -> bool {
    200 <= status < 300
}

/// The error that a refused request comes back as.
pub open spec fn refusal(status: u16, message: Seq<char>, retry_after: Option<Duration>) -> ErrorView {
    if status == 401 || status == 403 {
        ErrorView::Auth
    } else if status == 429 {
        ErrorView::RateLimited { retry_after }
    } else if status == 400 {
        ErrorView::InvalidRequest(message)
    } else {
        ErrorView::Http { status, message }
    }
}

/// The error for an event stream that is broken below the level of events.
pub open spec fn framing_message(detail: Seq<char>) -> Seq<char> {
    "SSE framing error: "@ + detail
}

/// The wait that a `retry-after` header asks for, if it names one.
pub fn parse_retry_after(header: Option<&str>) -> (r: Option<Duration>)
    ensures
        r == retry_after_of(text::opt_str(header)),
{
    match header {
        Some(text) => match parse_u64(text) {
            Some(secs) => Some(Duration::from_secs(secs)),
            None => None,
        },
        None => None,
    }
}

/// Whether a status reports success.
pub fn is_success(status: u16) -> (r: bool)
    ensures
        r == success(status),
{
    200 <= status && status < 300
}

/// The error that a refused request comes back as.
pub fn classify(status: u16, message: String, retry_after: Option<Duration>) -> (r: Error)
    ensures
        r@ == refusal(status, message@, retry_after),
{
    match status {
        401 | 403 => Error::Auth,
        429 => Error::RateLimited { retry_after },
        400 => Error::InvalidRequest(message),
        _ => Error::Http { status, message },
    }
}

/// The error for an event stream that is broken below the level of events.
pub fn framing_error(detail: &str) -> (r: Error)
    ensures
        r@ == (ErrorView::Http { status: 0, message: framing_message(detail@) }),
{
    Error::Http { status: 0, message: concat("SSE framing error: ", detail) }
}

/// One more header.
pub(crate) fn push_header(headers: &mut Vec<(String, String)>, name: &str, value: &str)
    ensures
        headers_view(final(headers)@) == headers_view(old(headers)@).push((name@, value@)),
{
    headers.push((name.to_owned(), value.to_owned()));
    assert(headers_view(headers@) =~= headers_view(old(headers)@).push((name@, value@)));
}

/// Which statuses are told apart from a plain HTTP error: refused credentials,
/// a rate limit, a request that is not acceptable. A wait is reported with a
/// rate limit and only there.
pub proof fn refusals_are_told_apart(status: u16, message: Seq<char>, retry_after: Option<Duration>)
    ensures
        refusal(status, message, retry_after) is Auth <==> status == 401 || status == 403,
        refusal(status, message, retry_after) is RateLimited <==> status == 429,
        refusal(status, message, retry_after) is InvalidRequest <==> status == 400,
        refusal(429, message, retry_after) == (ErrorView::RateLimited { retry_after }),
{
}

/// A refusal reports what the provider says of it, with its status unless the
/// status says it all: a bad request by the message alone, a status that is told
/// apart by nothing else with both.
pub proof fn refusals_are_reported(status: u16, message: Seq<char>, retry_after: Option<Duration>)
    ensures
        status == 400 ==> refusal(status, message, retry_after) == ErrorView::InvalidRequest(
            message,
        ),
        status == 401 || status == 403 ==> refusal(status, message, retry_after)
            == ErrorView::Auth,
        status == 429 ==> refusal(status, message, retry_after) == (ErrorView::RateLimited {
            retry_after,
        }),
        status != 400 && status != 401 && status != 403 && status != 429 ==> refusal(
            status,
            message,
            retry_after,
        ) == (ErrorView::Http { status, message }),
{
}

/// The statuses that report success are the two hundreds.
pub proof fn two_hundreds_are_success(status: u16)
    ensures
        success(status) <==> status / 100 == 2,
{
}

/// A wait is a whole number of seconds, written out and nothing else; a header
/// that is missing or says anything else asks for none.
pub proof fn waits_are_whole_seconds(text: Seq<char>)
    ensures
        retry_after_of(None) is None,
        retry_after_of(Some(text)) is Some <==> text::u64_of(text) is Some,
        text::u64_of(text) matches Some(secs) ==> retry_after_of(Some(text)) == Some(
            duration_of_secs(secs),
        ),
{
}

/// A broken stream is reported by what is broken about it.
pub proof fn framing_errors_tell_the_detail(detail: Seq<char>)
    ensures
        framing_message(detail) == "SSE framing error: "@ + detail,
{
}

/// A request is seen by its address, its headers in order and its body.
pub proof fn requests_are_seen_whole(request: HttpRequest, i: int)
    ensures
        request@.url == request.url@,
        request@.body == json::json_of(request.body),
        request@.headers.len() == request.headers@.len(),
        0 <= i < request.headers@.len() ==> request@.headers[i] == (
            request.headers@[i].0@,
            request.headers@[i].1@,
        ),
{
}

} // verus!
