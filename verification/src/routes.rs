//! The route dispatcher: which requests are served, by what, and with which
//! answer.
//!
//! A request is served in steps. [`dispatch`] looks the route up and either
//! answers at once or names an effect for the host to carry out; [`resume`]
//! takes the outcome of that effect and does the same again. No step waits,
//! and none touches anything outside its arguments but the clock.

use crate::clock::is_time_stamp;
use crate::db::{
    counted_view, get_messages, get_messages_counted, get_messages_selected, listing_begun,
    listing_counted, listing_selected, page_offset, selected_view, window_fits, Counting,
    Selecting,
};
use crate::error::{
    handle_rejection, rejection_reply, Error, ErrorView, Rejection, RejectionView,
};
use crate::models::{Message, MessageView, PaginatedMessagesView, PaginationParams};
use crate::reply::{error_word, ok_word, Body, BodyView, Reply, ReplyView, STATUS_OK};
use crate::s3::{
    body_view, is_success_code, read_answer, read_outcome, read_timestamp, read_timestamp_body,
    read_timestamp_sent, sent_view, timestamp_get, timestamp_put, write_outcome,
    write_timestamp, write_timestamp_sent, GetRequest, GetRequestView, PutRequest,
    PutRequestView, Status,
};
use vstd::prelude::*;

verus! {

/// The method of a request, as far as the routes tell methods apart.
#[derive(Clone, Copy, Debug, PartialEq, Eq, Structural)]
pub enum Method {
    Get,
    Post,
    /// Any method but `GET` and `POST`.
    Other,
}

/// What a request asks for, once a route has taken it.
#[derive(Clone, Copy, Debug, PartialEq, Eq, Structural)]
pub enum Endpoint {
    /// `GET /health`
    Health,
    /// `GET /messages`, with the page and the page size that it names or that
    /// stand in for what it leaves out.
    Messages { page: i64, per_page: i64 },
    /// `POST /timestamp`
    WriteTimestamp,
    /// `GET /timestamp`
    ReadTimestamp,
}

/// `path` is the one segment `name`: behind at most one leading slash stands
/// `name`, and behind it at most one closing slash.
pub open spec fn path_is(path: Seq<char>, name: Seq<char>) -> bool {
    let rest = if path.len() > 0 && path[0] == '/' {
        path.skip(1)
    } else {
        path
    };
    rest == name || rest == name.push('/')
}

/// A route takes requests with this method and this path.
pub open spec fn has_route(method: Method, path: Seq<char>) -> bool {
    ||| method is Get && path_is(path, "messages"@)
    ||| method is Post && path_is(path, "timestamp"@)
    ||| method is Get && path_is(path, "timestamp"@)
    ||| method is Get && path_is(path, "health"@)
}

/// The route table. A route is a method together with a path: a request
/// that no route takes is not found, be it for its path or, under a path
/// that a route has, for its method. The messages are listed only where
/// `query` could be read (`None` says that it could not).
pub open spec fn routed(method: Method, path: Seq<char>, query: Option<PaginationParams>) -> Result<
    Endpoint,
    RejectionView,
> {
    if path_is(path, "messages"@) {
        match (method, query) {
            (Method::Get, Some(params)) => Ok(
                Endpoint::Messages { page: params.page(), per_page: params.per_page() },
            ),
            (Method::Get, None) => Err(RejectionView::InvalidQuery),
            _ => Err(RejectionView::NotFound),
        }
    } else if path_is(path, "timestamp"@) {
        match method {
            Method::Post => Ok(Endpoint::WriteTimestamp),
            Method::Get => Ok(Endpoint::ReadTimestamp),
            Method::Other => Err(RejectionView::NotFound),
        }
    } else if path_is(path, "health"@) {
        match method {
            Method::Get => Ok(Endpoint::Health),
            _ => Err(RejectionView::NotFound),
        }
    } else {
        Err(RejectionView::NotFound)
    }
}

/// A routing result, seen as mathematical values.
pub open spec fn route_view(route: Result<Endpoint, Rejection>) -> Result<Endpoint, RejectionView> {
    match route {
        Ok(endpoint) => Ok(endpoint),
        Err(rejection) => Err(rejection@),
    }
}

fn same_text(left: &str, right: &str) -> (same: bool)
    ensures
        same == (left@ == right@),
{
    left.to_owned() == right.to_owned()
}

fn path_matches(path: &str, name: &str) -> (matches: bool)
    ensures
        matches == path_is(path@, name@),
{
    let length = path.unicode_len();
    let start: usize = if length > 0 && path.get_char(0) == '/' {
        1
    } else {
        0
    };
    let rest = path.substring_char(start, length);
    let wanted = name.unicode_len();
    let left = length - start;
    assert(rest@ == if path@.len() > 0 && path@[0] == '/' {
        path@.skip(1)
    } else {
        path@
    });
    if left == wanted {
        same_text(rest, name)
    } else if left > 0 && left - 1 == wanted {
        let closed = rest.get_char(wanted) == '/';
        let head = rest.substring_char(0, wanted);
        let same = same_text(head, name);
        proof {
            if closed && same {
                assert(rest@ =~= name@.push('/'));
            }
            if rest@ == name@.push('/') {
                assert(head@ =~= name@);
            }
        }
        closed && same
    } else {
        false
    }
}

/// Looks up the route of a request. `path` is the path of the request
/// without its query string; `query` holds the pagination parameters that the
/// query string gave, or `None` where it could not be read.
///
/// `POST /health`, or any request for `/messages` but a `GET`, finds no
/// route, as a request for an unknown path finds none.
pub fn api_routes(method: Method, path: &str, query: Option<PaginationParams>) -> (route: Result<
    Endpoint,
    Rejection,
>)
    ensures
        route_view(route) == routed(method, path@, query),
{
    if path_matches(path, "messages") {
        match (method, query) {
            (Method::Get, Some(params)) => Ok(
                Endpoint::Messages { page: params.page(), per_page: params.per_page() },
            ),
            (Method::Get, None) => Err(Rejection::InvalidQuery),
            _ => Err(Rejection::NotFound),
        }
    } else if path_matches(path, "timestamp") {
        match method {
            Method::Post => Ok(Endpoint::WriteTimestamp),
            Method::Get => Ok(Endpoint::ReadTimestamp),
            Method::Other => Err(Rejection::NotFound),
        }
    } else if path_matches(path, "health") {
        match method {
            Method::Get => Ok(Endpoint::Health),
            _ => Err(Rejection::NotFound),
        }
    } else {
        Err(Rejection::NotFound)
    }
}

/// The answer of the health check.
pub open spec fn health_reply() -> ReplyView {
    ReplyView { status: STATUS_OK, body: BodyView::Health { status: ok_word() } }
}

/// The answer that carries a page of messages.
pub open spec fn messages_reply(page: PaginatedMessagesView) -> ReplyView {
    ReplyView { status: STATUS_OK, body: BodyView::Messages(page) }
}

/// The answer that tells of a failure of the object store. The request as
/// such is answered in order; the failure stands in the body.
pub open spec fn failed_reply(error: ErrorView) -> ReplyView {
    ReplyView {
        status: STATUS_OK,
        body: BodyView::Failed { status: error_word(), message: error.text() },
    }
}

/// The answer to a write: the bare time stamp, or the failure.
pub open spec fn written_reply(result: Result<Seq<char>, ErrorView>) -> ReplyView {
    match result {
        Ok(timestamp) => ReplyView {
            status: STATUS_OK,
            body: BodyView::Written { status: ok_word(), timestamp },
        },
        Err(error) => failed_reply(error),
    }
}

/// The answer to a read: the stored text as it is, or the failure.
pub open spec fn read_reply(result: Result<Seq<char>, ErrorView>) -> ReplyView {
    match result {
        Ok(content) => ReplyView {
            status: STATUS_OK,
            body: BodyView::Read { status: ok_word(), content },
        },
        Err(error) => failed_reply(error),
    }
}

/// Answers the health check. The answer depends on nothing: neither store is
/// asked.
pub fn health_check() -> (reply: Reply)
    ensures
        reply@ == health_reply(),
{
    Reply { status: STATUS_OK, body: Body::Health { status: "ok".to_owned() } }
}

fn failed(error: &Error) -> (reply: Reply)
    ensures
        reply@ == failed_reply(error@),
{
    Reply {
        status: STATUS_OK,
        body: Body::Failed { status: "error".to_owned(), message: error.to_string() },
    }
}

/// Answers a write. A failure of the object store does not make the request
/// fail: it is told in the body of an answer with status 200.
pub fn write_timestamp_handler(result: Result<String, Error>) -> (reply: Reply)
    ensures
        reply@ == written_reply(crate::error::text_result_view(result)),
{
    match result {
        Ok(timestamp) => Reply {
            status: STATUS_OK,
            body: Body::Written { status: "ok".to_owned(), timestamp },
        },
        Err(error) => failed(&error),
    }
}

/// Answers a read, in the same way as [`write_timestamp_handler`] answers a
/// write. The text is handed on as the store returned it.
pub fn read_timestamp_handler(result: Result<String, Error>) -> (reply: Reply)
    ensures
        reply@ == read_reply(crate::error::text_result_view(result)),
{
    match result {
        Ok(content) => Reply {
            status: STATUS_OK,
            body: Body::Read { status: "ok".to_owned(), content },
        },
        Err(error) => failed(&error),
    }
}

/// What the dispatcher waits for while the host carries out an effect.
#[derive(Debug, PartialEq, Eq)]
pub enum Pending {
    /// The count of the message table.
    Count(Counting),
    /// The rows of one page.
    Select(Selecting),
    /// The store's word on a PUT that carries `timestamp`.
    Put { timestamp: String },
    /// The store's word on a GET.
    Get,
    /// The body of the store's response to a GET.
    Body,
}

/// What a [`Pending`] holds, as mathematical values.
pub enum PendingView {
    Count(Counting),
    Select(Selecting),
    Put { timestamp: Seq<char> },
    Get,
    Body,
}

impl View for Pending {
    type V = PendingView;

    open spec fn view(&self) -> PendingView {
        match self {
            Pending::Count(counting) => PendingView::Count(*counting),
            Pending::Select(selecting) => PendingView::Select(*selecting),
            Pending::Put { timestamp } => PendingView::Put { timestamp: timestamp@ },
            Pending::Get => PendingView::Get,
            Pending::Body => PendingView::Body,
        }
    }
}

/// What the host is asked to do.
#[derive(Debug, PartialEq, Eq)]
pub enum Effect {
    /// Run [`crate::db::COUNT_MESSAGES`] and report the number.
    CountMessages,
    /// Run [`crate::db::SELECT_MESSAGES`] with these parameters and report
    /// the rows in the order in which they come.
    SelectMessages { limit: i64, offset: i64 },
    /// Send the request and report the status of the response.
    Put(PutRequest),
    /// Send the request and report the status of the response.
    Get(GetRequest),
    /// Read the body of the response that was reported last.
    ReadBody,
}

/// What an [`Effect`] holds, as mathematical values.
pub enum EffectView {
    CountMessages,
    SelectMessages { limit: i64, offset: i64 },
    Put(PutRequestView),
    Get(GetRequestView),
    ReadBody,
}

impl View for Effect {
    type V = EffectView;

    open spec fn view(&self) -> EffectView {
        match self {
            Effect::CountMessages => EffectView::CountMessages,
            Effect::SelectMessages { limit, offset } => EffectView::SelectMessages {
                limit: *limit,
                offset: *offset,
            },
            Effect::Put(request) => EffectView::Put(request@),
            Effect::Get(request) => EffectView::Get(request@),
            Effect::ReadBody => EffectView::ReadBody,
        }
    }
}

/// What the host reports of an effect. A failure is reported with its cause,
/// in the words of the client that met it.
#[derive(Debug, PartialEq, Eq)]
pub enum Outcome {
    Counted(Result<i64, String>),
    Selected(Result<Vec<Message>, String>),
    Sent(Result<Status, String>),
    Body(Result<String, String>),
}

/// What an [`Outcome`] holds, as mathematical values.
pub enum OutcomeView {
    Counted(Result<i64, Seq<char>>),
    Selected(Result<Seq<MessageView>, Seq<char>>),
    Sent(Result<u16, Seq<char>>),
    Body(Result<Seq<char>, Seq<char>>),
}

impl View for Outcome {
    type V = OutcomeView;

    open spec fn view(&self) -> OutcomeView {
        match self {
            Outcome::Counted(counted) => OutcomeView::Counted(counted_view(*counted)),
            Outcome::Selected(selected) => OutcomeView::Selected(selected_view(*selected)),
            Outcome::Sent(sent) => OutcomeView::Sent(sent_view(*sent)),
            Outcome::Body(body) => OutcomeView::Body(body_view(*body)),
        }
    }
}

impl OutcomeView {
    /// The effect did not do what it was meant to: it failed on the way, or
    /// the object store answered with a status that tells of no success.
    pub open spec fn is_failure(self) -> bool {
        match self {
            OutcomeView::Counted(counted) => counted is Err,
            OutcomeView::Selected(selected) => selected is Err,
            OutcomeView::Sent(Ok(code)) => !is_success_code(code),
            OutcomeView::Sent(Err(_)) => true,
            OutcomeView::Body(body) => body is Err,
        }
    }
}

/// One step of the dispatcher: an effect for the host to carry out, with what
/// the dispatcher needs to go on afterwards, or the answer.
#[derive(Debug, PartialEq, Eq)]
pub enum Step {
    Perform { effect: Effect, pending: Pending },
    Reply(Reply),
}

/// What a [`Step`] holds, as mathematical values.
pub enum StepView {
    Perform { effect: EffectView, pending: PendingView },
    Reply(ReplyView),
}

impl View for Step {
    type V = StepView;

    open spec fn view(&self) -> StepView {
        match self {
            Step::Perform { effect, pending } => StepView::Perform {
                effect: effect@,
                pending: pending@,
            },
            Step::Reply(reply) => StepView::Reply(reply@),
        }
    }
}

impl StepView {
    /// The reading of the clock that the step carries: the time stamp of a
    /// write that has begun, and the empty text in every other step.
    pub open spec fn clock(self) -> Seq<char> {
        match self {
            StepView::Perform { pending: PendingView::Put { timestamp }, .. } => timestamp,
            _ => Seq::empty(),
        }
    }
}

/// The first step for a routed request. `endpoint` is the address of the
/// object store where the host names one, and `now` the reading of the clock.
///
/// A rejection is answered at once, and so is the health check. The messages
/// begin with the count, a write with the PUT of `now`, a read with the GET.
pub open spec fn started(
    route: Result<Endpoint, RejectionView>,
    endpoint: Option<Seq<char>>,
    now: Seq<char>,
) -> StepView {
    match route {
        Ok(Endpoint::Health) => StepView::Reply(health_reply()),
        Ok(Endpoint::Messages { page, per_page }) => StepView::Perform {
            effect: EffectView::CountMessages,
            pending: PendingView::Count(listing_begun(page, per_page)),
        },
        Ok(Endpoint::WriteTimestamp) => StepView::Perform {
            effect: EffectView::Put(timestamp_put(endpoint, now)),
            pending: PendingView::Put { timestamp: now },
        },
        Ok(Endpoint::ReadTimestamp) => StepView::Perform {
            effect: EffectView::Get(timestamp_get(endpoint)),
            pending: PendingView::Get,
        },
        Err(rejection) => StepView::Reply(rejection_reply(rejection)),
    }
}

/// The step that follows an outcome.
///
/// A failure of the relational store is rejected, and answered as every
/// rejection is. A failure of the object store is told in an answer with
/// status 200. An outcome that is not the one waited for is an unhandled
/// failure.
pub open spec fn resumed(pending: PendingView, outcome: OutcomeView) -> StepView {
    match (pending, outcome) {
        (PendingView::Count(counting), OutcomeView::Counted(counted)) => match listing_counted(
            counting,
            counted,
        ) {
            Ok(selecting) => StepView::Perform {
                effect: EffectView::SelectMessages {
                    limit: selecting.limit(),
                    offset: selecting.offset,
                },
                pending: PendingView::Select(selecting),
            },
            Err(error) => StepView::Reply(rejection_reply(RejectionView::Custom(error))),
        },
        (PendingView::Select(selecting), OutcomeView::Selected(selected)) => match listing_selected(
            selecting,
            selected,
        ) {
            Ok(page) => StepView::Reply(messages_reply(page)),
            Err(error) => StepView::Reply(rejection_reply(RejectionView::Custom(error))),
        },
        (PendingView::Put { timestamp }, OutcomeView::Sent(sent)) => StepView::Reply(
            written_reply(write_outcome(timestamp, sent)),
        ),
        (PendingView::Get, OutcomeView::Sent(sent)) => match read_answer(sent) {
            Ok(_) => StepView::Perform { effect: EffectView::ReadBody, pending: PendingView::Body },
            Err(error) => StepView::Reply(read_reply(Err(error))),
        },
        (PendingView::Body, OutcomeView::Body(body)) => StepView::Reply(
            read_reply(read_outcome(body)),
        ),
        _ => StepView::Reply(rejection_reply(RejectionView::Unhandled)),
    }
}

/// `now` can be the reading of the clock as a request with this route came
/// in: if the route writes the time stamp, `now` is the text of an instant.
pub open spec fn clock_read(route: Result<Endpoint, RejectionView>, now: Seq<char>) -> bool {
    route == Ok::<Endpoint, RejectionView>(Endpoint::WriteTimestamp) ==> is_time_stamp(now)
}

/// The route can be served: if it lists messages, the offset of its page can
/// be computed.
pub open spec fn can_start(route: Result<Endpoint, RejectionView>) -> bool {
    route matches Ok(Endpoint::Messages { page, per_page }) ==> window_fits(page, per_page)
}

fn rejected(error: Error) -> (step: Step)
    ensures
        step@ == StepView::Reply(rejection_reply(RejectionView::Custom(error@))),
{
    Step::Reply(handle_rejection(&Rejection::Custom(error)))
}

/// Takes the first step for a routed request. A write reads the clock here:
/// the time stamp that it stores is the one that the step carries.
pub fn start(route: Result<Endpoint, Rejection>, endpoint: Option<String>) -> (step: Step)
    requires
        can_start(route_view(route)),
    ensures
        step@ == started(route_view(route), endpoint.deep_view(), step@.clock()),
        clock_read(route_view(route), step@.clock()),
{
    match route {
        Ok(Endpoint::Health) => Step::Reply(health_check()),
        Ok(Endpoint::Messages { page, per_page }) => Step::Perform {
            effect: Effect::CountMessages,
            pending: Pending::Count(get_messages(page, per_page)),
        },
        Ok(Endpoint::WriteTimestamp) => {
            let (timestamp, request) = write_timestamp(endpoint);
            Step::Perform { effect: Effect::Put(request), pending: Pending::Put { timestamp } }
        },
        Ok(Endpoint::ReadTimestamp) => Step::Perform {
            effect: Effect::Get(read_timestamp(endpoint)),
            pending: Pending::Get,
        },
        Err(rejection) => Step::Reply(handle_rejection(&rejection)),
    }
}

/// Routes a request and takes its first step. `None` comes exactly when the
/// request lists messages and the offset of its page cannot be computed in
/// 64 bits; nothing is owed to such a request.
pub fn dispatch(
    method: Method,
    path: &str,
    query: Option<PaginationParams>,
    endpoint: Option<String>,
) -> (step: Option<Step>)
    ensures
        step is Some <==> can_start(routed(method, path@, query)),
        step matches Some(first) ==> first@ == started(
            routed(method, path@, query),
            endpoint.deep_view(),
            first@.clock(),
        ) && clock_read(routed(method, path@, query), first@.clock()),
{
    let route = api_routes(method, path, query);
    let fits = match &route {
        Ok(Endpoint::Messages { page, per_page }) => page_offset(*page, *per_page).is_some(),
        _ => true,
    };
    if fits {
        Some(start(route, endpoint))
    } else {
        None
    }
}

/// Takes the step that follows `outcome`.
pub fn resume(pending: Pending, outcome: Outcome) -> (step: Step)
    ensures
        step@ == resumed(pending@, outcome@),
{
    match (pending, outcome) {
        (Pending::Count(counting), Outcome::Counted(counted)) => {
            match get_messages_counted(counting, counted) {
                Ok(selecting) => Step::Perform {
                    effect: Effect::SelectMessages {
                        limit: selecting.limit(),
                        offset: selecting.offset,
                    },
                    pending: Pending::Select(selecting),
                },
                Err(error) => rejected(error),
            }
        },
        (Pending::Select(selecting), Outcome::Selected(selected)) => {
            match get_messages_selected(selecting, selected) {
                Ok(page) => Step::Reply(Reply { status: STATUS_OK, body: Body::Messages(page) }),
                Err(error) => rejected(error),
            }
        },
        (Pending::Put { timestamp }, Outcome::Sent(sent)) => Step::Reply(
            write_timestamp_handler(write_timestamp_sent(timestamp, sent)),
        ),
        (Pending::Get, Outcome::Sent(sent)) => {
            match read_timestamp_sent(sent) {
                Ok(_) => Step::Perform { effect: Effect::ReadBody, pending: Pending::Body },
                Err(error) => Step::Reply(read_timestamp_handler(Err(error))),
            }
        },
        (Pending::Body, Outcome::Body(body)) => Step::Reply(
            read_timestamp_handler(read_timestamp_body(body)),
        ),
        _ => Step::Reply(handle_rejection(&Rejection::Unhandled)),
    }
}

/// A failure ends the request. Whatever the dispatcher waited for, the step
/// that follows a failed effect is the answer: nothing is tried again, and
/// nothing else is tried in its place.
pub proof fn lemma_failure_is_final(pending: PendingView, outcome: OutcomeView)
    requires
        outcome.is_failure(),
    ensures
        resumed(pending, outcome) is Reply,
{
}

/// The three paths that have a route are three different paths.
pub proof fn lemma_routes_apart(path: Seq<char>)
    ensures
        !(path_is(path, "messages"@) && path_is(path, "timestamp"@)),
        !(path_is(path, "messages"@) && path_is(path, "health"@)),
        !(path_is(path, "timestamp"@) && path_is(path, "health"@)),
{
    reveal_strlit("messages");
    reveal_strlit("timestamp");
    reveal_strlit("health");
    if path_is(path, "messages"@) {
        assert("messages"@[0] == 'm' && "messages"@.push('/')[0] == 'm');
    }
    if path_is(path, "timestamp"@) {
        assert("timestamp"@[0] == 't' && "timestamp"@.push('/')[0] == 't');
    }
    if path_is(path, "health"@) {
        assert("health"@[0] == 'h' && "health"@.push('/')[0] == 'h');
    }
}

/// A request that no route takes is not found, whatever its query holds:
/// under an unknown path, and under a known path with a method that no
/// route has for it.
pub proof fn lemma_no_route_is_not_found(
    method: Method,
    path: Seq<char>,
    query: Option<PaginationParams>,
)
    ensures
        !has_route(method, path) ==> routed(method, path, query) == Err::<
            Endpoint,
            RejectionView,
        >(RejectionView::NotFound),
        has_route(method, path) ==> routed(method, path, query) != Err::<
            Endpoint,
            RejectionView,
        >(RejectionView::NotFound),
{
    lemma_routes_apart(path);
}

} // verus!
