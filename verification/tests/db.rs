use backend::db::{
    get_messages, get_messages_counted, get_messages_selected, page_offset, Counting, Selecting,
    COUNT_MESSAGES, MAX_CONNECTIONS, SELECT_MESSAGES,
};
use backend::error::Error;
use backend::models::{Message, PaginatedMessages, PaginationParams, Timestamp};

fn message(id: i32, seconds: i64) -> Message {
    Message {
        id,
        content: format!("hello {}", id),
        author: "ann".to_string(),
        created_at: Timestamp { seconds, nanoseconds: 0 },
    }
}

#[test]
fn the_statements_read_the_message_table() {
    assert_eq!(COUNT_MESSAGES, "SELECT COUNT(*) FROM messages");
    assert_eq!(
        SELECT_MESSAGES,
        "SELECT id, content, author, created_at FROM messages ORDER BY created_at DESC LIMIT $1 OFFSET $2"
    );
    assert_eq!(MAX_CONNECTIONS, 5);
}

#[test]
fn the_first_page_has_no_offset() {
    assert_eq!(page_offset(1, 10), Some(0));
    assert_eq!(page_offset(1, 1), Some(0));
    assert_eq!(page_offset(1, i64::MAX), Some(0));
}

#[test]
fn the_offset_is_the_pages_before_times_the_page_size() {
    assert_eq!(page_offset(2, 5), Some(5));
    assert_eq!(page_offset(3, 10), Some(20));
    assert_eq!(page_offset(101, 25), Some(2500));
    assert_eq!(page_offset(7, 1), Some(6));
}

#[test]
fn the_offset_of_a_page_below_the_first_is_below_zero() {
    assert_eq!(page_offset(0, 10), Some(-10));
    assert_eq!(page_offset(-2, 4), Some(-12));
    assert_eq!(page_offset(0, -3), Some(3));
}

#[test]
fn the_offset_of_an_empty_page_is_zero() {
    assert_eq!(page_offset(9, 0), Some(0));
    assert_eq!(page_offset(i64::MAX, 0), Some(0));
}

#[test]
fn the_offset_is_none_where_64_bits_do_not_hold_it() {
    assert_eq!(page_offset(i64::MAX, 2), None);
    assert_eq!(page_offset(i64::MIN, 1), None);
    assert_eq!(page_offset(i64::MIN, 0), None);
    assert_eq!(page_offset(3_037_000_501, 3_037_000_500), None);
    assert_eq!(page_offset(i64::MIN + 1, 2), None);
}

#[test]
fn the_offset_reaches_both_ends_of_64_bits() {
    assert_eq!(page_offset(i64::MAX, 1), Some(i64::MAX - 1));
    assert_eq!(page_offset(i64::MIN + 1, 1), Some(i64::MIN));
    assert_eq!(page_offset(2, i64::MAX), Some(i64::MAX));
    assert_eq!(page_offset(2, i64::MIN), Some(i64::MIN));
}

#[test]
fn a_listing_begins_with_its_offset() {
    assert_eq!(get_messages(2, 5), Counting { page: 2, per_page: 5, offset: 5 });
    assert_eq!(get_messages(1, 10), Counting { page: 1, per_page: 10, offset: 0 });
    assert_eq!(get_messages(0, 10), Counting { page: 0, per_page: 10, offset: -10 });
}

#[test]
fn a_listing_begins_with_the_defaults_of_an_empty_query() {
    let params = PaginationParams { page: None, per_page: None };
    assert_eq!(params.page(), 1);
    assert_eq!(params.per_page(), 10);
    assert_eq!(get_messages(params.page(), params.per_page()), Counting { page: 1, per_page: 10, offset: 0 });
}

#[test]
fn a_counted_listing_keeps_the_total() {
    let counting = Counting { page: 2, per_page: 5, offset: 5 };
    let selecting = get_messages_counted(counting, Ok(12)).unwrap();
    assert_eq!(selecting, Selecting { page: 2, per_page: 5, offset: 5, total: 12 });
    assert_eq!(selecting.limit(), 5);
}

#[test]
fn a_failed_count_is_a_database_error() {
    let counting = Counting { page: 2, per_page: 5, offset: 5 };
    assert_eq!(
        get_messages_counted(counting, Err("pool timed out".to_string())),
        Err(Error::Database("pool timed out".to_string()))
    );
}

#[test]
fn a_listing_holds_the_rows_and_the_total() {
    let selecting = Selecting { page: 2, per_page: 2, offset: 2, total: 5 };
    let rows = vec![message(3, 30), message(4, 20)];
    assert_eq!(
        get_messages_selected(selecting, Ok(rows)),
        Ok(PaginatedMessages {
            messages: vec![message(3, 30), message(4, 20)],
            total: 5,
            page: 2,
            per_page: 2,
        })
    );
}

#[test]
fn a_listing_does_not_hold_the_total_against_the_rows() {
    let selecting = Selecting { page: 1, per_page: 10, offset: 0, total: 0 };
    let listing = get_messages_selected(selecting, Ok(vec![message(1, 1)])).unwrap();
    assert_eq!(listing.total, 0);
    assert_eq!(listing.messages.len(), 1);
}

#[test]
fn a_listing_beyond_the_table_is_empty() {
    let selecting = Selecting { page: 9, per_page: 10, offset: 80, total: 12 };
    assert_eq!(
        get_messages_selected(selecting, Ok(vec![])),
        Ok(PaginatedMessages { messages: vec![], total: 12, page: 9, per_page: 10 })
    );
}

#[test]
fn a_failed_select_is_a_database_error() {
    let selecting = Selecting { page: 1, per_page: 10, offset: 0, total: 12 };
    assert_eq!(
        get_messages_selected(selecting, Err("OFFSET must not be negative".to_string())),
        Err(Error::Database("OFFSET must not be negative".to_string()))
    );
}

#[test]
fn a_copy_of_a_message_is_the_same_message() {
    let first = message(7, 70);
    let copy = first.clone();
    assert_eq!(copy, first);
    assert_eq!(copy.content, "hello 7");
}

#[test]
fn time_stamps_are_ordered_by_seconds_and_then_nanoseconds() {
    let early = Timestamp { seconds: 10, nanoseconds: 999_999_999 };
    let late = Timestamp { seconds: 11, nanoseconds: 0 };
    let later = Timestamp { seconds: 11, nanoseconds: 1 };
    assert!(early.before(&late));
    assert!(late.before(&later));
    assert!(early.before(&later));
    assert!(!late.before(&early));
    assert!(!late.before(&late));
    let old = Timestamp { seconds: -1, nanoseconds: 5 };
    assert!(old.before(&Timestamp { seconds: 0, nanoseconds: 0 }));
}
