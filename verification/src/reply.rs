//! What the dispatcher answers: a status code and a body that the host writes
//! out as one JSON object, field for field.

use crate::models::{PaginatedMessages, PaginatedMessagesView};
use vstd::prelude::*;

verus! {

/// The status of every answer that carries what was asked for.
pub const STATUS_OK: u16 = 200;

/// The status of the answer to a request that no route serves.
pub const STATUS_NOT_FOUND: u16 = 404;

/// The status of the answer to a request that failed on the way.
pub const STATUS_INTERNAL_SERVER_ERROR: u16 = 500;

/// The body of an answer. Each variant is one JSON object; its fields are the
/// object's members, under the same names.
#[derive(Debug, PartialEq, Eq)]
pub enum Body {
    /// The answer of the health check.
    Health { status: String },
    /// One page of the message table.
    Messages(PaginatedMessages),
    /// The time stamp that was stored.
    Written { status: String, timestamp: String },
    /// The text that the store holds.
    Read { status: String, content: String },
    /// A failure of the object store, told in an answer that is otherwise in order.
    Failed { status: String, message: String },
    /// A failure of the request as a whole; `code` repeats the status.
    Error { code: u16, message: String },
}

/// What a [`Body`] holds, as mathematical values.
pub enum BodyView {
    Health { status: Seq<char> },
    Messages(PaginatedMessagesView),
    Written { status: Seq<char>, timestamp: Seq<char> },
    Read { status: Seq<char>, content: Seq<char> },
    Failed { status: Seq<char>, message: Seq<char> },
    Error { code: u16, message: Seq<char> },
}

impl View for Body {
    type V = BodyView;

    open spec fn view(&self) -> BodyView {
        match self {
            Body::Health { status } => BodyView::Health { status: status@ },
            Body::Messages(page) => BodyView::Messages(page@),
            Body::Written { status, timestamp } => BodyView::Written {
                status: status@,
                timestamp: timestamp@,
            },
            Body::Read { status, content } => BodyView::Read { status: status@, content: content@ },
            Body::Failed { status, message } => BodyView::Failed {
                status: status@,
                message: message@,
            },
            Body::Error { code, message } => BodyView::Error { code: *code, message: message@ },
        }
    }
}

/// An answer to one request.
#[derive(Debug, PartialEq, Eq)]
pub struct Reply {
    pub status: u16,
    pub body: Body,
}

/// What a [`Reply`] holds, as mathematical values.
pub struct ReplyView {
    pub status: u16,
    pub body: BodyView,
}

impl View for Reply {
    type V = ReplyView;

    open spec fn view(&self) -> ReplyView {
        ReplyView { status: self.status, body: self.body@ }
    }
}

/// The word under `status` in a body that carries what was asked for.
pub open spec fn ok_word() -> Seq<char> {
    "ok"@
}

/// The word under `status` in a body that tells of a failure.
pub open spec fn error_word() -> Seq<char> {
    "error"@
}

/// The answer that tells of a failed request: `code` both as the status and in
/// the body, beside a short fixed message.
pub open spec fn error_reply(code: u16, message: Seq<char>) -> ReplyView {
    ReplyView { status: code, body: BodyView::Error { code, message } }
}

} // verus!
