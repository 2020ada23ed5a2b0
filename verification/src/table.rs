//! The message table in memory: what the relational store is expected to do
//! with the two statements of the repository.

use crate::models::{message_views, Message, MessageView, Timestamp};
use vstd::prelude::*;

verus! {

/// No row stands before a newer one.
pub open spec fn newest_first(rows: Seq<MessageView>) -> bool {
    forall|i: int, j: int|
        0 <= i < j < rows.len() ==> !(#[trigger] rows[i]).created_at.is_before(
            (#[trigger] rows[j]).created_at,
        )
}

/// The rows of `ordering` that are left when `offset` rows are skipped from
/// its head and at most `limit` of the others are kept.
pub open spec fn page_rows(ordering: Seq<MessageView>, limit: int, offset: int) -> Seq<
    MessageView,
>
    recommends
        0 <= limit,
        0 <= offset,
{
    let start = if offset < ordering.len() {
        offset
    } else {
        ordering.len() as int
    };
    let end = if offset + limit < ordering.len() {
        offset + limit
    } else {
        ordering.len() as int
    };
    ordering.subrange(start, end)
}

/// The place at which a row with this time stamp is filed: behind every row
/// that is as new or newer, before the first that is older.
pub open spec fn filing_place(rows: Seq<MessageView>, created_at: Timestamp) -> int
    decreases rows.len(),
{
    if rows.len() == 0 || rows[0].created_at.is_before(created_at) {
        0
    } else {
        1 + filing_place(rows.skip(1), created_at)
    }
}

/// The message table: its rows, newest first. Rows with the same time stamp
/// stand in the order in which they were filed.
#[derive(Debug)]
pub struct MessageTable {
    rows: Vec<Message>,
}

impl View for MessageTable {
    type V = Seq<MessageView>;

    closed spec fn view(&self) -> Seq<MessageView> {
        message_views(self.rows@)
    }
}

/// The largest number of rows that a table can count.
pub open spec fn max_rows() -> int {
    i64::MAX as int
}

proof fn lemma_filing_place(rows: Seq<MessageView>, created_at: Timestamp, place: int)
    requires
        0 <= place <= rows.len(),
        forall|i: int| 0 <= i < place ==> !(#[trigger] rows[i]).created_at.is_before(created_at),
        place < rows.len() ==> rows[place].created_at.is_before(created_at),
    ensures
        filing_place(rows, created_at) == place,
    decreases rows.len(),
{
    if place > 0 {
        lemma_filing_place(rows.skip(1), created_at, place - 1);
    }
}

impl MessageTable {
    /// What holds of every table: no row stands before a newer one, and the
    /// rows can be counted.
    #[verifier::type_invariant]
    pub open spec fn ordered(self) -> bool {
        &&& newest_first(self@)
        &&& self@.len() <= max_rows()
    }

    /// A table without rows.
    pub fn new() -> (table: MessageTable)
        ensures
            table@ == Seq::<MessageView>::empty(),
    {
        MessageTable { rows: Vec::new() }
    }

    /// The number of rows.
    pub fn count(&self) -> (total: i64)
        ensures
            total == self@.len(),
    {
        proof {
            use_type_invariant(self);
        }
        self.rows.len() as i64
    }

    /// Files a row at its place. A table that holds as many rows as it can
    /// count takes no more: it is left as it was, and `false` comes back.
    pub fn insert(&mut self, message: Message) -> (filed: bool)
        ensures
            filed == (old(self)@.len() < max_rows()),
            filed ==> final(self)@ == old(self)@.insert(
                filing_place(old(self)@, message@.created_at),
                message@,
            ),
            !filed ==> final(self)@ == old(self)@,
    {
        proof {
            use_type_invariant(&*self);
        }
        let length = self.rows.len();
        if length as u64 >= i64::MAX as u64 {
            return false;
        }
        let ghost before = message_views(self.rows@);
        let mut place: usize = 0;
        while place < length && !self.rows[place].created_at.before(&message.created_at)
            invariant
                place <= length,
                length == self.rows@.len(),
                before == message_views(self.rows@),
                forall|i: int|
                    0 <= i < place ==> !(#[trigger] before[i]).created_at.is_before(
                        message.created_at,
                    ),
            decreases length - place,
        {
            place = place + 1;
        }
        proof {
            lemma_filing_place(before, message@.created_at, place as int);
        }
        let ghost filed_row = message@;
        let mut rows: Vec<Message> = Vec::new();
        std::mem::swap(&mut self.rows, &mut rows);
        rows.insert(place, message);
        proof {
            let after = message_views(rows@);
            assert forall|i: int, j: int| 0 <= i < j < after.len() implies !(#[trigger] after[i]).created_at.is_before(
                (#[trigger] after[j]).created_at,
            ) by {
                if i == place {
                    // The filed row stands before the first older row, and
                    // no row behind that one is newer than it.
                    assert(after[j] == before[j - 1]);
                    assert(before[place as int].created_at.is_before(filed_row.created_at));
                    assert(!before[place as int].created_at.is_before(before[j - 1].created_at));
                } else if j == place {
                    // Every row before the filed one is as new or newer.
                    assert(after[i] == before[i]);
                } else {
                    // Two rows of the table as it was, in their old order.
                    let was_i = if i < place { i } else { i - 1 };
                    let was_j = if j < place { j } else { j - 1 };
                    assert(after[i] == before[was_i] && after[j] == before[was_j]);
                }
            }
        }
        self.rows = rows;
        true
    }

    /// The rows of one window, newest first: `offset` rows are skipped from
    /// the head of the table, and at most `limit` of the others returned.
    pub fn select(&self, limit: i64, offset: i64) -> (rows: Vec<Message>)
        requires
            0 <= limit,
            0 <= offset,
        ensures
            message_views(rows@) == page_rows(self@, limit as int, offset as int),
    {
        proof {
            use_type_invariant(self);
        }
        let length = self.rows.len();
        let start: usize = if (offset as u64) < length as u64 {
            offset as usize
        } else {
            length
        };
        let wanted: usize = if (limit as u64) < (length - start) as u64 {
            limit as usize
        } else {
            length - start
        };
        let end = start + wanted;
        let mut rows: Vec<Message> = Vec::new();
        let mut index = start;
        while index < end
            invariant
                start <= index <= end <= length,
                length == self.rows@.len(),
                message_views(rows@) == message_views(self.rows@).subrange(
                    start as int,
                    index as int,
                ),
            decreases end - index,
        {
            let ghost so_far = message_views(rows@);
            rows.push(self.rows[index].clone());
            assert(message_views(rows@) =~= so_far.push(message_views(self.rows@)[index as int]));
            index = index + 1;
        }
        rows
    }
}

/// The first `pages` pages of `ordering`, in pages of `per_page`, one behind
/// the other.
pub open spec fn pages_joined(ordering: Seq<MessageView>, per_page: int, pages: nat) -> Seq<
    MessageView,
>
    decreases pages,
{
    if pages == 0 {
        Seq::empty()
    } else {
        pages_joined(ordering, per_page, (pages - 1) as nat) + page_rows(
            ordering,
            per_page,
            (pages - 1) * per_page,
        )
    }
}

/// A window and the window that begins where it ends are, together, the one
/// window that spans both.
pub proof fn lemma_windows_join(ordering: Seq<MessageView>, first: int, second: int, offset: int)
    requires
        0 <= first,
        0 <= second,
        0 <= offset,
    ensures
        page_rows(ordering, first, offset) + page_rows(ordering, second, offset + first)
            == page_rows(ordering, first + second, offset),
{
    assert(page_rows(ordering, first, offset) + page_rows(ordering, second, offset + first)
        =~= page_rows(ordering, first + second, offset));
}

/// The pages of a table, one behind the other, are the table from its head
/// on: no row is left out between two pages, and none comes twice. Once the
/// pages hold as many rows as the table has, they are the whole table.
pub proof fn lemma_pages_cover_table(ordering: Seq<MessageView>, per_page: int, pages: nat)
    requires
        per_page >= 1,
    ensures
        pages_joined(ordering, per_page, pages) == page_rows(ordering, pages * per_page, 0),
        pages * per_page >= ordering.len() ==> pages_joined(ordering, per_page, pages)
            == ordering,
    decreases pages,
{
    if pages == 0 {
        assert(page_rows(ordering, 0, 0) =~= Seq::<MessageView>::empty());
    } else {
        let before = (pages - 1) * per_page;
        assert(before >= 0 && before + per_page == pages * per_page) by (nonlinear_arith)
            requires
                before == (pages - 1) * per_page,
                pages >= 1,
                per_page >= 1,
        ;
        lemma_pages_cover_table(ordering, per_page, (pages - 1) as nat);
        lemma_windows_join(ordering, before, per_page, 0);
    }
    if pages * per_page >= ordering.len() {
        assert(page_rows(ordering, pages * per_page, 0) =~= ordering);
    }
}

} // verus!
