//! The values that travel between the host, the repository and the clients.

use vstd::prelude::*;

verus! {

/// An instant on the UTC time line: the whole seconds since 1970-01-01T00:00:00Z
/// and the nanoseconds that have passed since that second began.
#[derive(Clone, Copy, Debug, PartialEq, Eq, Structural)]
pub struct Timestamp {
    pub seconds: i64,
    pub nanoseconds: u32,
}

impl Timestamp {
    /// `self` lies strictly earlier than `other`.
    pub open spec fn is_before(self, other: Timestamp) -> bool {
        self.seconds < other.seconds || (self.seconds == other.seconds && self.nanoseconds
            < other.nanoseconds)
    }

    pub fn before(&self, other: &Timestamp) -> (earlier: bool)
        ensures
            earlier == self.is_before(*other),
    {
        self.seconds < other.seconds || (self.seconds == other.seconds && self.nanoseconds
            < other.nanoseconds)
    }
}

/// One row of the message table. Rows are written elsewhere; this crate only
/// reads them.
#[derive(Debug, PartialEq, Eq)]
pub struct Message {
    pub id: i32,
    pub content: String,
    pub author: String,
    pub created_at: Timestamp,
}

/// What a [`Message`] holds, as mathematical values.
pub struct MessageView {
    pub id: i32,
    pub content: Seq<char>,
    pub author: Seq<char>,
    pub created_at: Timestamp,
}

impl View for Message {
    type V = MessageView;

    open spec fn view(&self) -> MessageView {
        MessageView {
            id: self.id,
            content: self.content@,
            author: self.author@,
            created_at: self.created_at,
        }
    }
}

impl Clone for Message {
    fn clone(&self) -> (copy: Message)
        ensures
            copy@ == self@,
    {
        Message {
            id: self.id,
            content: self.content.clone(),
            author: self.author.clone(),
            created_at: self.created_at,
        }
    }
}

/// The views of a sequence of messages, in the same order.
pub open spec fn message_views(rows: Seq<Message>) -> Seq<MessageView> {
    rows.map_values(|m: Message| m@)
}

/// The pagination parameters of a request, each of which may be absent.
#[derive(Clone, Copy, Debug, PartialEq, Eq, Structural)]
pub struct PaginationParams {
    pub page: Option<i64>,
    pub per_page: Option<i64>,
}

/// The page that is served when a request names none.
pub const DEFAULT_PAGE: i64 = 1;

/// The page size that is served when a request names none.
pub const DEFAULT_PER_PAGE: i64 = 10;

impl PaginationParams {
    /// The requested page, or the first page.
    pub open spec fn spec_page(&self) -> i64 {
        match self.page {
            Some(page) => page,
            None => DEFAULT_PAGE,
        }
    }

    /// The requested page size, or ten.
    pub open spec fn spec_per_page(&self) -> i64 {
        match self.per_page {
            Some(per_page) => per_page,
            None => DEFAULT_PER_PAGE,
        }
    }

    #[verifier::when_used_as_spec(spec_page)]
    pub fn page(&self) -> (page: i64)
        ensures
            page == self.spec_page(),
    {
        self.page.unwrap_or(DEFAULT_PAGE)
    }

    #[verifier::when_used_as_spec(spec_per_page)]
    pub fn per_page(&self) -> (per_page: i64)
        ensures
            per_page == self.spec_per_page(),
    {
        self.per_page.unwrap_or(DEFAULT_PER_PAGE)
    }
}

/// One page of messages together with the size of the whole table.
#[derive(Debug, PartialEq, Eq)]
pub struct PaginatedMessages {
    pub messages: Vec<Message>,
    pub total: i64,
    pub page: i64,
    pub per_page: i64,
}

/// What a [`PaginatedMessages`] holds, as mathematical values.
pub struct PaginatedMessagesView {
    pub messages: Seq<MessageView>,
    pub total: i64,
    pub page: i64,
    pub per_page: i64,
}

impl View for PaginatedMessages {
    type V = PaginatedMessagesView;

    open spec fn view(&self) -> PaginatedMessagesView {
        PaginatedMessagesView {
            messages: message_views(self.messages@),
            total: self.total,
            page: self.page,
            per_page: self.per_page,
        }
    }
}

/// A named record with an optional description and its two time stamps.
#[derive(Debug, PartialEq, Eq)]
pub struct Example {
    pub id: i32,
    pub name: String,
    pub description: Option<String>,
    pub created_at: Timestamp,
    pub updated_at: Timestamp,
}

/// What is needed to create an [`Example`].
#[derive(Debug, PartialEq, Eq)]
pub struct CreateExample {
    pub name: String,
    pub description: Option<String>,
}

/// A change to an [`Example`]: each field that is present replaces the old one.
#[derive(Debug, PartialEq, Eq)]
pub struct UpdateExample {
    pub name: Option<String>,
    pub description: Option<String>,
}

} // verus!
