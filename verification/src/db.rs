//! The message repository: a count of the whole table and one page of it,
//! newest row first.
//!
//! The repository decides which statements run, with which numbers, and what
//! their outcomes mean. Running a statement is the host's part.

use crate::error::{Error, ErrorView};
use crate::models::{message_views, Message, MessageView, PaginatedMessages, PaginatedMessagesView};
use crate::table::{newest_first, page_rows};
use vstd::prelude::*;

verus! {

/// The most connections that the host keeps open to the relational store.
pub const MAX_CONNECTIONS: u32 = 5;

/// The statement that counts the rows of the table.
pub const COUNT_MESSAGES: &'static str = "SELECT COUNT(*) FROM messages";

/// The statement that selects one page. Its first parameter is the most rows
/// to return, its second the number of rows to skip before them.
pub const SELECT_MESSAGES: &'static str =
    "SELECT id, content, author, created_at FROM messages ORDER BY created_at DESC LIMIT $1 OFFSET $2";

/// The number of rows that lie before `page`, counted in pages of `per_page`.
pub open spec fn offset_of(page: int, per_page: int) -> int {
    (page - 1) * per_page
}

/// The offset of the page can be computed in 64 bits: neither the step back
/// from `page` nor the product leaves the range.
pub open spec fn window_fits(page: i64, per_page: i64) -> bool {
    &&& page > i64::MIN
    &&& i64::MIN <= offset_of(page as int, per_page as int) <= i64::MAX
}

/// The offset of `page`, where it can be computed in 64 bits.
pub fn page_offset(page: i64, per_page: i64) -> (offset: Option<i64>)
    ensures
        offset is Some <==> window_fits(page, per_page),
        offset matches Some(rows) ==> rows == offset_of(page as int, per_page as int),
{
    match page.checked_sub(1) {
        Some(before) => before.checked_mul(per_page),
        None => None,
    }
}

/// A listing that waits for the count of the table.
#[derive(Clone, Copy, Debug, PartialEq, Eq, Structural)]
pub struct Counting {
    pub page: i64,
    pub per_page: i64,
    pub offset: i64,
}

/// A listing that knows the count and waits for the rows of its page.
#[derive(Clone, Copy, Debug, PartialEq, Eq, Structural)]
pub struct Selecting {
    pub page: i64,
    pub per_page: i64,
    pub offset: i64,
    pub total: i64,
}

impl Selecting {
    /// The first parameter of [`SELECT_MESSAGES`]: the most rows to return.
    pub open spec fn spec_limit(&self) -> i64 {
        self.per_page
    }

    #[verifier::when_used_as_spec(spec_limit)]
    pub fn limit(&self) -> (limit: i64)
        ensures
            limit == self.spec_limit(),
    {
        self.per_page
    }
}

/// What the host reports of the count: the number of rows, or the cause of
/// the failure in the words of the database driver.
pub open spec fn counted_view(counted: Result<i64, String>) -> Result<i64, Seq<char>> {
    match counted {
        Ok(total) => Ok(total),
        Err(cause) => Err(cause@),
    }
}

/// What the host reports of the select: the rows in the order in which the
/// store returned them, or the cause of the failure.
pub open spec fn selected_view(selected: Result<Vec<Message>, String>) -> Result<
    Seq<MessageView>,
    Seq<char>,
> {
    match selected {
        Ok(rows) => Ok(message_views(rows@)),
        Err(cause) => Err(cause@),
    }
}

/// A listing as it begins.
pub open spec fn listing_begun(page: i64, per_page: i64) -> Counting {
    Counting { page, per_page, offset: offset_of(page as int, per_page as int) as i64 }
}

/// A listing after the count: it goes on with the total, or ends with the
/// failure. No row is asked for once the count has failed.
pub open spec fn listing_counted(counting: Counting, counted: Result<i64, Seq<char>>) -> Result<
    Selecting,
    ErrorView,
> {
    match counted {
        Ok(total) => Ok(
            Selecting {
                page: counting.page,
                per_page: counting.per_page,
                offset: counting.offset,
                total,
            },
        ),
        Err(cause) => Err(ErrorView::Database(cause)),
    }
}

/// A listing after the select: the rows as they came, beside the total and
/// the page that was asked for, or the failure.
pub open spec fn listing_selected(
    selecting: Selecting,
    selected: Result<Seq<MessageView>, Seq<char>>,
) -> Result<PaginatedMessagesView, ErrorView> {
    match selected {
        Ok(rows) => Ok(
            PaginatedMessagesView {
                messages: rows,
                total: selecting.total,
                page: selecting.page,
                per_page: selecting.per_page,
            },
        ),
        Err(cause) => Err(ErrorView::Database(cause)),
    }
}

/// A page of messages or a failure, seen as mathematical values.
pub open spec fn page_result_view(result: Result<PaginatedMessages, Error>) -> Result<
    PaginatedMessagesView,
    ErrorView,
> {
    match result {
        Ok(page) => Ok(page@),
        Err(error) => Err(error@),
    }
}

/// A step of a listing or a failure, seen as mathematical values.
pub open spec fn selecting_result_view(result: Result<Selecting, Error>) -> Result<
    Selecting,
    ErrorView,
> {
    match result {
        Ok(selecting) => Ok(selecting),
        Err(error) => Err(error@),
    }
}

/// Begins the listing of `page` in pages of `per_page`. The host runs
/// [`COUNT_MESSAGES`] and reports to [`get_messages_counted`].
///
/// Neither number is checked against a lower bound: what a page below the
/// first, or a page size below one, comes to is for the store to say.
pub fn get_messages(page: i64, per_page: i64) -> (counting: Counting)
    requires
        window_fits(page, per_page),
    ensures
        counting == listing_begun(page, per_page),
{
    let offset = (page - 1) * per_page;
    Counting { page, per_page, offset }
}

/// Goes on with a listing once the table was counted. `Ok` asks the host to
/// run [`SELECT_MESSAGES`] with the limit and the offset of the step, and to
/// report to [`get_messages_selected`]. The count and the select need not see
/// the table at the same moment.
pub fn get_messages_counted(counting: Counting, counted: Result<i64, String>) -> (result: Result<
    Selecting,
    Error,
>)
    ensures
        selecting_result_view(result) == listing_counted(counting, counted_view(counted)),
{
    match counted {
        Ok(total) => Ok(
            Selecting {
                page: counting.page,
                per_page: counting.per_page,
                offset: counting.offset,
                total,
            },
        ),
        Err(cause) => Err(Error::Database(cause)),
    }
}

/// Ends a listing: the rows of the page, in the order in which the store
/// returned them, with the count of the whole table.
pub fn get_messages_selected(selecting: Selecting, selected: Result<Vec<Message>, String>) -> (result:
    Result<PaginatedMessages, Error>)
    ensures
        page_result_view(result) == listing_selected(selecting, selected_view(selected)),
{
    match selected {
        Ok(messages) => Ok(
            PaginatedMessages {
                messages,
                total: selecting.total,
                page: selecting.page,
                per_page: selecting.per_page,
            },
        ),
        Err(cause) => Err(Error::Database(cause)),
    }
}

/// What a listing comes to when both statements succeed against one state
/// of a table whose rows, newest first, are `table`: the count is the number
/// of rows, and the select returns the window that it was asked for.
pub open spec fn listed(table: Seq<MessageView>, page: i64, per_page: i64) -> Result<
    PaginatedMessagesView,
    ErrorView,
> {
    match listing_counted(listing_begun(page, per_page), Ok(table.len() as i64)) {
        Ok(selecting) => listing_selected(
            selecting,
            Ok(page_rows(table, selecting.limit() as int, selecting.offset as int)),
        ),
        Err(error) => Err(error),
    }
}

/// A listing of page `page >= 1` in pages of `per_page >= 1` holds at most
/// `per_page` rows. They are the rows of the table that follow its first
/// `(page - 1) * per_page` rows, in the table's order and with none left
/// out, as far as there are any. The total is the number of rows of the
/// whole table, also where the page is short or empty.
pub proof fn lemma_listing_is_page(table: Seq<MessageView>, page: i64, per_page: i64)
    requires
        table.len() <= i64::MAX,
        page >= 1,
        per_page >= 1,
        window_fits(page, per_page),
    ensures
        ({
            let rows = table.len() as int;
            let offset = offset_of(page as int, per_page as int);
            let start = if offset < rows {
                offset
            } else {
                rows
            };
            let end = if offset + per_page < rows {
                offset + per_page
            } else {
                rows
            };
            &&& listed(table, page, per_page) matches Ok(listing)
            &&& listing.messages.len() <= per_page
            &&& listing.messages == table.subrange(start, end)
            &&& forall|k: int|
                0 <= k < listing.messages.len() ==> #[trigger] listing.messages[k] == table[offset
                    + k]
            &&& listing.total == rows
            &&& listing.page == page
            &&& listing.per_page == per_page
            &&& newest_first(table) ==> newest_first(listing.messages)
        }),
{
    let offset = offset_of(page as int, per_page as int);
    assert(offset >= 0) by (nonlinear_arith)
        requires
            offset == (page - 1) * per_page,
            page >= 1,
            per_page >= 1,
    ;
}

/// Two listings of one table carry the same total, whatever their pages and
/// page sizes are.
pub proof fn lemma_listings_share_total(
    table: Seq<MessageView>,
    page: i64,
    per_page: i64,
    other_page: i64,
    other_per_page: i64,
)
    requires
        table.len() <= i64::MAX,
        window_fits(page, per_page),
        window_fits(other_page, other_per_page),
    ensures
        listed(table, page, per_page) matches Ok(listing) && listed(
            table,
            other_page,
            other_per_page,
        ) matches Ok(other) && listing.total == other.total && listing.total == table.len(),
{
}

/// A statement that fails ends the listing with the failure and its cause:
/// after a failed count no row is asked for, and after a failed select no
/// page is made, neither an empty one nor a part of one.
pub proof fn lemma_failed_statement_fails_listing(
    counting: Counting,
    selecting: Selecting,
    cause: Seq<char>,
)
    ensures
        listing_counted(counting, Err(cause)) == Err::<Selecting, ErrorView>(
            ErrorView::Database(cause),
        ),
        listing_selected(selecting, Err(cause)) == Err::<PaginatedMessagesView, ErrorView>(
            ErrorView::Database(cause),
        ),
{
}

} // verus!
