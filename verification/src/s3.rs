//! The object store client: one text object at a fixed place, written with a
//! PUT and read back with a GET.
//!
//! The client decides what is sent and what an outcome means. Sending is the
//! host's part: it is handed a request, and hands back what came of it.

use crate::clock::{is_time_stamp, now, rfc3339};
use crate::error::{text_result_view, Error, ErrorView};
use vstd::prelude::*;

verus! {

/// The bucket that holds the object.
pub const BUCKET_NAME: &'static str = "test-bucket";

/// The key of the object in its bucket.
pub const OBJECT_KEY: &'static str = "timestamp.txt";

/// Where the store is looked for when the host names no other place.
pub const DEFAULT_ENDPOINT_URL: &'static str = "http://localstack:4566";

/// The content type under which the object is stored.
pub const CONTENT_TYPE: &'static str = "text/plain";

/// What the status line of a response says after its number: the number again,
/// a space, and the reason phrase that belongs to it.
pub uninterp spec fn status_line(code: u16) -> Seq<char>;

/// `StatusCode::is_success` of the `http` crate, as `reqwest` hands it on: the
/// status is one of 200 to 299.
#[verifier::external_body]
fn status_is_success(code: u16) -> (success: bool)
    requires
        100 <= code <= 999,
    ensures
        success == (200 <= code <= 299),
{
    match reqwest::StatusCode::from_u16(code) {
        Ok(status) => status.is_success(),
        Err(_) => false,
    }
}

/// `Display` for `StatusCode` of the `http` crate, as `reqwest` hands it on:
/// the text depends on the code alone, and [`status_line`] is its name.
#[verifier::external_body]
fn status_to_string(code: u16) -> (line: String)
    requires
        100 <= code <= 999,
    ensures
        line@ == status_line(code),
{
    match reqwest::StatusCode::from_u16(code) {
        Ok(status) => status.to_string(),
        Err(_) => String::new(),
    }
}

/// The status code of an HTTP response: a number from 100 to 999.
#[derive(Clone, Copy, Debug, PartialEq, Eq)]
pub struct Status {
    code: u16,
}

impl View for Status {
    type V = u16;

    closed spec fn view(&self) -> u16 {
        self.code
    }
}

impl Status {
    #[verifier::type_invariant]
    spec fn three_digits(self) -> bool {
        100 <= self.code <= 999
    }

    /// The status with this code, if there is one.
    pub fn new(code: u16) -> (status: Option<Status>)
        ensures
            status is Some <==> 100 <= code <= 999,
            status matches Some(s) ==> s@ == code,
    {
        if 100 <= code && code <= 999 {
            Some(Status { code })
        } else {
            None
        }
    }

    pub fn code(&self) -> (code: u16)
        ensures
            code == self@,
            100 <= code <= 999,
    {
        proof {
            use_type_invariant(self);
        }
        self.code
    }

    /// The response tells of success.
    pub fn is_success(&self) -> (success: bool)
        ensures
            success == is_success_code(self@),
    {
        proof {
            use_type_invariant(self);
        }
        status_is_success(self.code)
    }

    /// The status as its line in a response shows it, such as `404 Not Found`.
    pub fn to_string(&self) -> (line: String)
        ensures
            line@ == status_line(self@),
    {
        proof {
            use_type_invariant(self);
        }
        status_to_string(self.code)
    }
}

/// The codes that tell of success.
pub open spec fn is_success_code(code: u16) -> bool {
    200 <= code <= 299
}

/// What came of sending a request: the status of the response, or, where no
/// response arrived, the cause in the words of the HTTP client.
pub open spec fn sent_view(sent: Result<Status, String>) -> Result<u16, Seq<char>> {
    match sent {
        Ok(status) => Ok(status@),
        Err(cause) => Err(cause@),
    }
}

/// What came of reading a response's body: the text, or the cause of the
/// failure in the words of the HTTP client.
pub open spec fn body_view(body: Result<String, String>) -> Result<Seq<char>, Seq<char>> {
    match body {
        Ok(text) => Ok(text@),
        Err(cause) => Err(cause@),
    }
}

/// The address of the store: the one that the host names, or the default.
pub open spec fn endpoint_url(configured: Option<Seq<char>>) -> Seq<char> {
    match configured {
        Some(url) => url,
        None => DEFAULT_ENDPOINT_URL@,
    }
}

/// The address of the object: the store's address, the bucket and the key,
/// with a slash between them.
pub open spec fn object_url(configured: Option<Seq<char>>) -> Seq<char> {
    endpoint_url(configured) + "/"@ + BUCKET_NAME@ + "/"@ + OBJECT_KEY@
}

/// The text that is stored for a time stamp.
pub open spec fn timestamp_content(timestamp: Seq<char>) -> Seq<char> {
    "Current timestamp: "@ + timestamp
}

/// A request that replaces the object.
#[derive(Debug, PartialEq, Eq)]
pub struct PutRequest {
    pub url: String,
    pub content_type: String,
    pub body: String,
}

/// What a [`PutRequest`] holds, as mathematical values.
pub struct PutRequestView {
    pub url: Seq<char>,
    pub content_type: Seq<char>,
    pub body: Seq<char>,
}

impl View for PutRequest {
    type V = PutRequestView;

    open spec fn view(&self) -> PutRequestView {
        PutRequestView { url: self.url@, content_type: self.content_type@, body: self.body@ }
    }
}

/// A request that fetches the object.
#[derive(Debug, PartialEq, Eq)]
pub struct GetRequest {
    pub url: String,
}

/// What a [`GetRequest`] holds, as mathematical values.
pub struct GetRequestView {
    pub url: Seq<char>,
}

impl View for GetRequest {
    type V = GetRequestView;

    open spec fn view(&self) -> GetRequestView {
        GetRequestView { url: self.url@ }
    }
}

/// The request that stores `timestamp`.
pub open spec fn timestamp_put(configured: Option<Seq<char>>, timestamp: Seq<char>)
    -> PutRequestView {
    PutRequestView {
        url: object_url(configured),
        content_type: CONTENT_TYPE@,
        body: timestamp_content(timestamp),
    }
}

/// The request that fetches what was stored last.
pub open spec fn timestamp_get(configured: Option<Seq<char>>) -> GetRequestView {
    GetRequestView { url: object_url(configured) }
}

/// What a write comes to once its request was sent: the bare time stamp if the
/// store told of success, else the failure.
pub open spec fn write_outcome(timestamp: Seq<char>, sent: Result<u16, Seq<char>>) -> Result<
    Seq<char>,
    ErrorView,
> {
    match sent {
        Ok(code) => if is_success_code(code) {
            Ok(timestamp)
        } else {
            Err(ErrorView::S3("HTTP error: "@ + status_line(code)))
        },
        Err(cause) => Err(ErrorView::S3(cause)),
    }
}

/// What a read comes to once its request was sent: nothing yet if the store
/// told of success, for then the body is still to be read; else the failure.
pub open spec fn read_answer(sent: Result<u16, Seq<char>>) -> Result<(), ErrorView> {
    match sent {
        Ok(code) => if is_success_code(code) {
            Ok(())
        } else {
            Err(ErrorView::S3("HTTP error: "@ + status_line(code)))
        },
        Err(cause) => Err(ErrorView::S3(cause)),
    }
}

/// What a read comes to once the body was read: the body as it is, or the
/// failure.
pub open spec fn read_outcome(body: Result<Seq<char>, Seq<char>>) -> Result<Seq<char>, ErrorView> {
    match body {
        Ok(content) => Ok(content),
        Err(cause) => Err(ErrorView::S3(cause)),
    }
}

fn object_address(endpoint: Option<String>) -> (url: String)
    ensures
        url@ == object_url(endpoint.deep_view()),
{
    let base = match endpoint {
        Some(url) => url,
        None => DEFAULT_ENDPOINT_URL.to_owned(),
    };
    base.concat("/").concat(BUCKET_NAME).concat("/").concat(OBJECT_KEY)
}

/// The failure that a response stands for whose status line reads `line`
/// behind the protocol version, such as `403 Forbidden`.
pub fn http_error_from(line: &str) -> (error: Error)
    ensures
        error@ == ErrorView::S3("HTTP error: "@ + line@),
{
    Error::S3("HTTP error: ".to_owned().concat(line))
}

/// The failure that a response with this status stands for.
fn http_error(status: &Status) -> (error: Error)
    ensures
        error@ == ErrorView::S3("HTTP error: "@ + status_line(status@)),
{
    let line = status.to_string();
    http_error_from(line.as_str())
}

/// The request that stores `timestamp` at the object's place, replacing what
/// was there. `endpoint` is the store's address where the host names one.
pub fn put_timestamp(endpoint: Option<String>, timestamp: &str) -> (request: PutRequest)
    ensures
        request@ == timestamp_put(endpoint.deep_view(), timestamp@),
{
    PutRequest {
        url: object_address(endpoint),
        content_type: CONTENT_TYPE.to_owned(),
        body: "Current timestamp: ".to_owned().concat(timestamp),
    }
}

/// Begins a write: reads the clock and hands back the time stamp, which is
/// the RFC 3339 text of the instant that was read, with the request that
/// stores it. The host sends the request and reports to
/// [`write_timestamp_sent`].
pub fn write_timestamp(endpoint: Option<String>) -> (begun: (String, PutRequest))
    ensures
        is_time_stamp(begun.0@),
        begun.1@ == timestamp_put(endpoint.deep_view(), begun.0@),
{
    let timestamp = rfc3339(&now()).unwrap();
    let request = put_timestamp(endpoint, timestamp.as_str());
    (timestamp, request)
}

/// Ends a write. The bare time stamp comes back exactly when a response
/// arrived whose status tells of success; the stored text is not repeated.
/// Nothing is tried a second time.
pub fn write_timestamp_sent(timestamp: String, sent: Result<Status, String>) -> (result: Result<
    String,
    Error,
>)
    ensures
        text_result_view(result) == write_outcome(timestamp@, sent_view(sent)),
{
    match sent {
        Ok(status) => {
            if status.is_success() {
                Ok(timestamp)
            } else {
                Err(http_error(&status))
            }
        },
        Err(cause) => Err(Error::S3(cause)),
    }
}

/// Begins a read: the request that fetches the object. The host sends it and
/// reports to [`read_timestamp_sent`].
pub fn read_timestamp(endpoint: Option<String>) -> (request: GetRequest)
    ensures
        request@ == timestamp_get(endpoint.deep_view()),
{
    GetRequest { url: object_address(endpoint) }
}

/// Goes on with a read once its request was sent. `Ok` asks the host to read
/// the response's body and to report to [`read_timestamp_body`]; it comes
/// exactly when a response arrived whose status tells of success.
pub fn read_timestamp_sent(sent: Result<Status, String>) -> (result: Result<(), Error>)
    ensures
        match result {
            Ok(_) => read_answer(sent_view(sent)) == Ok::<(), ErrorView>(()),
            Err(error) => read_answer(sent_view(sent)) == Err::<(), ErrorView>(error@),
        },
{
    match sent {
        Ok(status) => {
            if status.is_success() {
                Ok(())
            } else {
                Err(http_error(&status))
            }
        },
        Err(cause) => Err(Error::S3(cause)),
    }
}

/// Ends a read: the body as the store sent it, the template around the time
/// stamp included, or the failure to read it.
pub fn read_timestamp_body(body: Result<String, String>) -> (result: Result<String, Error>)
    ensures
        text_result_view(result) == read_outcome(body_view(body)),
{
    match body {
        Ok(content) => Ok(content),
        Err(cause) => Err(Error::S3(cause)),
    }
}

} // verus!
