//! A host that keeps both stores in memory.
//!
//! It carries out the effects that the dispatcher names as the two outside
//! services are expected to: the relational store counts its rows and returns
//! them newest first, a window at a time; the object store replaces its object
//! on a PUT and returns it on a GET. Either store can be switched off, to see
//! what the dispatcher makes of an outage.

use crate::db::{offset_of, window_fits};
use crate::models::{MessageView, PaginationParams};
use crate::reply::{ok_word, BodyView, Reply, ReplyView, STATUS_OK};
use crate::routes::{
    can_start, clock_read, dispatch, has_route, health_reply, lemma_routes_apart, path_is, resume, resumed,
    routed, started, Effect, EffectView, Method, Outcome, OutcomeView, PendingView, Step,
    StepView,
};
use crate::s3::{timestamp_content, Status};
use crate::table::{max_rows, newest_first, page_rows, MessageTable};
use vstd::prelude::*;

verus! {

/// What the relational store says when it is switched off.
pub const DATABASE_DOWN: &'static str = "the relational store is not available";

/// What the relational store says to a limit below zero.
pub const NEGATIVE_LIMIT: &'static str = "LIMIT must not be negative";

/// What the relational store says to an offset below zero.
pub const NEGATIVE_OFFSET: &'static str = "OFFSET must not be negative";

/// What the HTTP client says when the object store is switched off.
pub const STORE_DOWN: &'static str = "the object store is not available";

/// What the HTTP client says when it is asked for a body and holds no response.
pub const NO_RESPONSE: &'static str = "there is no response to read";

/// The body of the response to a GET that finds no object.
pub const NO_SUCH_KEY: &'static str = "NoSuchKey";

/// The status of a response that carries out what was asked.
pub const FOUND: u16 = 200;

/// The status of the response to a GET that finds no object.
pub const MISSING: u16 = 404;

/// The object that the store holds, and the address under which it was put.
#[derive(Debug, PartialEq, Eq)]
pub struct StoredObject {
    pub url: String,
    pub body: String,
}

/// What a [`StoredObject`] holds, as mathematical values.
pub struct StoredObjectView {
    pub url: Seq<char>,
    pub body: Seq<char>,
}

impl View for StoredObject {
    type V = StoredObjectView;

    open spec fn view(&self) -> StoredObjectView {
        StoredObjectView { url: self.url@, body: self.body@ }
    }
}

/// The host: both stores, and what it was told of its surroundings.
#[derive(Debug)]
pub struct Memory {
    /// The rows of the relational store.
    pub table: MessageTable,
    /// The one object of the object store, once it was written.
    pub object: Option<StoredObject>,
    /// The body of the response that the object store sent last, until it is
    /// read.
    pub response: Option<String>,
    /// The relational store answers.
    pub database_available: bool,
    /// The object store answers.
    pub store_available: bool,
    /// The address of the object store, where the surroundings name one.
    pub endpoint: Option<String>,
}

/// What a [`Memory`] holds, as mathematical values.
pub struct MemoryView {
    pub table: Seq<MessageView>,
    pub object: Option<StoredObjectView>,
    pub response: Option<Seq<char>>,
    pub database_available: bool,
    pub store_available: bool,
    pub endpoint: Option<Seq<char>>,
}

impl View for Memory {
    type V = MemoryView;

    open spec fn view(&self) -> MemoryView {
        MemoryView {
            table: self.table@,
            object: match self.object {
                Some(object) => Some(object@),
                None => None,
            },
            response: self.response.deep_view(),
            database_available: self.database_available,
            store_available: self.store_available,
            endpoint: self.endpoint.deep_view(),
        }
    }
}

impl MemoryView {
    /// The table is in order and can be counted.
    pub open spec fn valid(self) -> bool {
        &&& newest_first(self.table)
        &&& self.table.len() <= max_rows()
    }
}

/// What the relational store answers to a select.
pub open spec fn selected(world: MemoryView, limit: i64, offset: i64) -> Result<
    Seq<MessageView>,
    Seq<char>,
> {
    if !world.database_available {
        Err(DATABASE_DOWN@)
    } else if limit < 0 {
        Err(NEGATIVE_LIMIT@)
    } else if offset < 0 {
        Err(NEGATIVE_OFFSET@)
    } else {
        Ok(page_rows(world.table, limit as int, offset as int))
    }
}

/// What the object store holds under `url`.
pub open spec fn found(world: MemoryView, url: Seq<char>) -> Option<Seq<char>> {
    match world.object {
        Some(object) => if object.url == url {
            Some(object.body)
        } else {
            None
        },
        None => None,
    }
}

/// What carrying out `effect` makes of the host, and what is reported of it.
///
/// A PUT replaces the object, whatever was there. A GET finds the object
/// under the address under which it was put, and nothing under any other.
pub open spec fn performed(world: MemoryView, effect: EffectView) -> (MemoryView, OutcomeView) {
    match effect {
        EffectView::CountMessages => (
            world,
            OutcomeView::Counted(
                if world.database_available {
                    Ok(world.table.len() as i64)
                } else {
                    Err(DATABASE_DOWN@)
                },
            ),
        ),
        EffectView::SelectMessages { limit, offset } => (
            world,
            OutcomeView::Selected(selected(world, limit, offset)),
        ),
        EffectView::Put(request) => if world.store_available {
            (
                MemoryView {
                    object: Some(StoredObjectView { url: request.url, body: request.body }),
                    response: Some(Seq::empty()),
                    ..world
                },
                OutcomeView::Sent(Ok(FOUND)),
            )
        } else {
            (MemoryView { response: None, ..world }, OutcomeView::Sent(Err(STORE_DOWN@)))
        },
        EffectView::Get(request) => if !world.store_available {
            (MemoryView { response: None, ..world }, OutcomeView::Sent(Err(STORE_DOWN@)))
        } else {
            match found(world, request.url) {
                Some(body) => (
                    MemoryView { response: Some(body), ..world },
                    OutcomeView::Sent(Ok(FOUND)),
                ),
                None => (
                    MemoryView { response: Some(NO_SUCH_KEY@), ..world },
                    OutcomeView::Sent(Ok(MISSING)),
                ),
            }
        },
        EffectView::ReadBody => match world.response {
            Some(body) => (MemoryView { response: None, ..world }, OutcomeView::Body(Ok(body))),
            None => (world, OutcomeView::Body(Err(NO_RESPONSE@))),
        },
    }
}

/// The most effects that are still to come once `step` is taken.
pub open spec fn effects_left(step: StepView) -> nat {
    match step {
        StepView::Reply(_) => 0,
        StepView::Perform { pending: PendingView::Count(_), .. } => 2,
        StepView::Perform { pending: PendingView::Get, .. } => 2,
        StepView::Perform { .. } => 1,
    }
}

/// Where the host stands, and what is answered, once every effect from
/// `step` on was carried out.
pub open spec fn settled(world: MemoryView, step: StepView) -> (MemoryView, ReplyView)
    decreases effects_left(step),
{
    match step {
        StepView::Reply(reply) => (world, reply),
        StepView::Perform { effect, pending } => {
            let (next, outcome) = performed(world, effect);
            settled(next, resumed(pending, outcome))
        },
    }
}

/// Where the host stands, and what is answered, once a request was served.
/// `now` is the reading of the clock as the request came in.
pub open spec fn served(
    world: MemoryView,
    method: Method,
    path: Seq<char>,
    query: Option<PaginationParams>,
    now: Seq<char>,
) -> (MemoryView, ReplyView) {
    settled(world, started(routed(method, path, query), world.endpoint, now))
}

fn copy_of(text: &Option<String>) -> (copy: Option<String>)
    ensures
        copy.deep_view() == text.deep_view(),
{
    match text {
        Some(text) => Some(text.clone()),
        None => None,
    }
}

fn status(code: u16) -> (status: Status)
    requires
        100 <= code <= 999,
    ensures
        status@ == code,
{
    Status::new(code).unwrap()
}

impl Memory {
    /// A host with an empty table and an empty object store, both of which
    /// answer.
    pub fn new(endpoint: Option<String>) -> (memory: Memory)
        ensures
            memory@ == (MemoryView {
                table: Seq::empty(),
                object: None,
                response: None,
                database_available: true,
                store_available: true,
                endpoint: endpoint.deep_view(),
            }),
            memory@.valid(),
    {
        Memory {
            table: MessageTable::new(),
            object: None,
            response: None,
            database_available: true,
            store_available: true,
            endpoint,
        }
    }

    /// Carries out one effect.
    pub fn perform(&mut self, effect: Effect) -> (outcome: Outcome)
        ensures
            (final(self)@, outcome@) == performed(old(self)@, effect@),
            final(self)@.valid(),
    {
        proof {
            use_type_invariant(&self.table);
        }
        match effect {
            Effect::CountMessages => {
                if self.database_available {
                    Outcome::Counted(Ok(self.table.count()))
                } else {
                    Outcome::Counted(Err(DATABASE_DOWN.to_owned()))
                }
            },
            Effect::SelectMessages { limit, offset } => {
                if !self.database_available {
                    Outcome::Selected(Err(DATABASE_DOWN.to_owned()))
                } else if limit < 0 {
                    Outcome::Selected(Err(NEGATIVE_LIMIT.to_owned()))
                } else if offset < 0 {
                    Outcome::Selected(Err(NEGATIVE_OFFSET.to_owned()))
                } else {
                    Outcome::Selected(Ok(self.table.select(limit, offset)))
                }
            },
            Effect::Put(request) => {
                if self.store_available {
                    self.object = Some(StoredObject { url: request.url, body: request.body });
                    self.response = Some(String::new());
                    Outcome::Sent(Ok(status(FOUND)))
                } else {
                    self.response = None;
                    Outcome::Sent(Err(STORE_DOWN.to_owned()))
                }
            },
            Effect::Get(request) => {
                if !self.store_available {
                    self.response = None;
                    return Outcome::Sent(Err(STORE_DOWN.to_owned()));
                }
                let found = match &self.object {
                    Some(object) => {
                        if object.url == request.url {
                            Some(object.body.clone())
                        } else {
                            None
                        }
                    },
                    None => None,
                };
                match found {
                    Some(body) => {
                        self.response = Some(body);
                        Outcome::Sent(Ok(status(FOUND)))
                    },
                    None => {
                        self.response = Some(NO_SUCH_KEY.to_owned());
                        Outcome::Sent(Ok(status(MISSING)))
                    },
                }
            },
            Effect::ReadBody => {
                match self.response.take() {
                    Some(body) => Outcome::Body(Ok(body)),
                    None => Outcome::Body(Err(NO_RESPONSE.to_owned())),
                }
            },
        }
    }

    /// Carries out every effect from `step` on, and hands back the answer.
    pub fn settle(&mut self, step: Step) -> (reply: Reply)
        ensures
            (final(self)@, reply@) == settled(old(self)@, step@),
    {
        let mut current = step;
        loop
            invariant
                settled(self@, current@) == settled(old(self)@, step@),
            decreases effects_left(current@),
        {
            match current {
                Step::Reply(reply) => {
                    return reply;
                },
                Step::Perform { effect, pending } => {
                    let outcome = self.perform(effect);
                    current = resume(pending, outcome);
                },
            }
        }
    }

    /// Serves one request from beginning to end, as [`served`] says for
    /// the reading of the clock at which the request came in. `None` comes
    /// exactly when the request lists messages and the offset of its page
    /// cannot be computed in 64 bits; the host is then left as it was.
    pub fn serve(&mut self, method: Method, path: &str, query: Option<PaginationParams>) -> (reply:
        Option<Reply>)
        ensures
            reply is Some <==> can_start(routed(method, path@, query)),
            reply is None ==> final(self)@ == old(self)@,
            reply matches Some(answer) ==> exists|now: Seq<char>|
                (final(self)@, answer@) == #[trigger] served(
                    old(self)@,
                    method,
                    path@,
                    query,
                    now,
                ) && clock_read(routed(method, path@, query), now),
    {
        match dispatch(method, path, query, copy_of(&self.endpoint)) {
            Some(first) => {
                let ghost now = first@.clock();
                let reply = self.settle(first);
                assert((self@, reply@) == served(old(self)@, method, path@, query, now));
                Some(reply)
            },
            None => None,
        }
    }
}

/// The request that lists `page` in pages of `per_page`.
pub open spec fn listing_query(page: i64, per_page: i64) -> Option<PaginationParams> {
    Some(PaginationParams { page: Some(page), per_page: Some(per_page) })
}

/// A listing of page `page >= 1` in pages of `per_page >= 1` comes back
/// whenever the relational store answers. It holds at most `per_page` rows:
/// the rows that follow the first `(page - 1) * per_page` rows of the table
/// in its order, newest first, as far as there are any. Its total is the
/// number of rows of the whole table, and the host is left as it was.
pub proof fn lemma_listing_is_window(
    world: MemoryView,
    path: Seq<char>,
    page: i64,
    per_page: i64,
    now: Seq<char>,
)
    requires
        world.valid(),
        path_is(path, "messages"@),
        page >= 1,
        per_page >= 1,
        window_fits(page, per_page),
    ensures
        ({
            let (after, reply) = served(
                world,
                Method::Get,
                path,
                listing_query(page, per_page),
                now,
            );
            let offset = offset_of(page as int, per_page as int);
            &&& after == world
            &&& world.database_available <==> reply.body is Messages
            &&& reply.body matches BodyView::Messages(listing) ==> {
                &&& reply.status == STATUS_OK
                &&& listing.page == page
                &&& listing.per_page == per_page
                &&& listing.total == world.table.len()
                &&& listing.messages == page_rows(world.table, per_page as int, offset)
                &&& listing.messages.len() <= per_page
                &&& listing.messages.len() == if world.table.len() <= offset {
                    0
                } else if world.table.len() - offset < per_page {
                    world.table.len() - offset
                } else {
                    per_page as int
                }
                &&& forall|k: int|
                    0 <= k < listing.messages.len() ==> #[trigger] listing.messages[k]
                        == world.table[offset + k]
                &&& newest_first(listing.messages)
            }
        }),
{
    reveal_with_fuel(settled, 3);
    let offset = offset_of(page as int, per_page as int);
    assert(offset >= 0) by (nonlinear_arith)
        requires
            offset == (page - 1) * per_page,
            page >= 1,
            per_page >= 1,
    ;
}

/// The total of a listing is the number of rows of the whole table, whatever
/// page and page size were asked for.
pub proof fn lemma_total_is_row_count(
    world: MemoryView,
    method: Method,
    path: Seq<char>,
    query: Option<PaginationParams>,
    now: Seq<char>,
)
    requires
        world.valid(),
        can_start(routed(method, path, query)),
    ensures
        served(world, method, path, query, now).1.body matches BodyView::Messages(listing)
            ==> listing.total == world.table.len(),
{
    reveal_with_fuel(settled, 3);
}

/// What is read right after a write is the text that was written: the time
/// stamp that the write answered with, behind the words that are stored
/// before it. A write answers with its time stamp whenever the object store
/// answers, and with nothing else.
pub proof fn lemma_read_follows_write(
    world: MemoryView,
    write_path: Seq<char>,
    write_query: Option<PaginationParams>,
    now: Seq<char>,
    read_path: Seq<char>,
    read_query: Option<PaginationParams>,
    later: Seq<char>,
)
    requires
        path_is(write_path, "timestamp"@),
        path_is(read_path, "timestamp"@),
    ensures
        ({
            let (stored, written) = served(world, Method::Post, write_path, write_query, now);
            let (after, read) = served(stored, Method::Get, read_path, read_query, later);
            let content = timestamp_content(now);
            &&& world.store_available <==> written.body is Written
            &&& written.body is Written ==> {
                &&& written == (ReplyView {
                    status: STATUS_OK,
                    body: BodyView::Written { status: ok_word(), timestamp: now },
                })
                &&& read == (ReplyView {
                    status: STATUS_OK,
                    body: BodyView::Read { status: ok_word(), content },
                })
                &&& content.len() >= now.len()
                &&& content.skip(content.len() - now.len()) == now
            }
        }),
{
    reveal_with_fuel(settled, 3);
    lemma_routes_apart(write_path);
    lemma_routes_apart(read_path);
}

/// The health check is answered with status 200 and `{"status": "ok"}`,
/// whether the stores answer or not, and leaves the host as it was.
pub proof fn lemma_health_is_always_ok(
    world: MemoryView,
    path: Seq<char>,
    query: Option<PaginationParams>,
    now: Seq<char>,
)
    requires
        path_is(path, "health"@),
    ensures
        served(world, Method::Get, path, query, now) == (world, health_reply()),
        health_reply().status == 200,
        health_reply().body == (BodyView::Health { status: "ok"@ }),
{
    reveal_with_fuel(settled, 3);
    lemma_routes_apart(path);
}

/// A request that no route takes is answered with status 404 and
/// `{"code": 404, "message": "Not Found"}`, and the host is left as it was.
/// That holds of an unknown path under every method, and of a known path
/// under a method that no route has for it, such as `POST /health`.
pub proof fn lemma_unmapped_request_is_not_found(
    world: MemoryView,
    method: Method,
    path: Seq<char>,
    query: Option<PaginationParams>,
    now: Seq<char>,
)
    requires
        !has_route(method, path),
    ensures
        served(world, method, path, query, now) == (
            world,
            ReplyView {
                status: 404,
                body: BodyView::Error { code: 404, message: "Not Found"@ },
            },
        ),
{
    reveal_with_fuel(settled, 3);
}

/// While the relational store does not answer, every listing is answered
/// with status 500 and `{"code": 500, "message": "Database Error"}`. What
/// the store said of its failure stands nowhere in the answer.
pub proof fn lemma_outage_is_database_error(
    world: MemoryView,
    path: Seq<char>,
    params: PaginationParams,
    now: Seq<char>,
)
    requires
        !world.database_available,
        path_is(path, "messages"@),
        window_fits(params.page(), params.per_page()),
    ensures
        served(world, Method::Get, path, Some(params), now) == (
            world,
            ReplyView {
                status: 500,
                body: BodyView::Error { code: 500, message: "Database Error"@ },
            },
        ),
{
    reveal_with_fuel(settled, 3);
}

} // verus!
