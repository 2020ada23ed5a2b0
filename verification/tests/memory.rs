use backend::memory::{
    Memory, StoredObject, DATABASE_DOWN, NEGATIVE_LIMIT, NEGATIVE_OFFSET, NO_RESPONSE, STORE_DOWN,
};
use backend::models::{Message, PaginatedMessages, PaginationParams, Timestamp};
use backend::reply::{Body, Reply};
use backend::routes::{Effect, Method, Outcome};
use backend::s3::{GetRequest, PutRequest, Status};
use backend::table::MessageTable;

fn message(id: i32, seconds: i64) -> Message {
    Message {
        id,
        content: format!("message {}", id),
        author: format!("author {}", id % 3),
        created_at: Timestamp { seconds, nanoseconds: 0 },
    }
}

fn ids(rows: &[Message]) -> Vec<i32> {
    rows.iter().map(|row| row.id).collect()
}

fn query(page: i64, per_page: i64) -> Option<PaginationParams> {
    Some(PaginationParams { page: Some(page), per_page: Some(per_page) })
}

fn error_body(code: u16, message: &str) -> Reply {
    Reply { status: code, body: Body::Error { code, message: message.to_string() } }
}

fn failed(message: &str) -> Reply {
    Reply {
        status: 200,
        body: Body::Failed { status: "error".to_string(), message: message.to_string() },
    }
}

/// Twelve rows, filed out of order. Row `n` is the `n`-th newest.
fn twelve_rows() -> Memory {
    let mut memory = Memory::new(None);
    for id in [5, 12, 1, 8, 3, 10, 7, 2, 11, 4, 9, 6] {
        assert!(memory.table.insert(message(id, 1_700_000_000 - 60 * id as i64)));
    }
    memory
}

fn listing(reply: Option<Reply>) -> PaginatedMessages {
    match reply {
        Some(Reply { status: 200, body: Body::Messages(listing) }) => listing,
        other => panic!("no listing: {:?}", other),
    }
}

#[test]
fn a_new_table_is_empty() {
    let table = MessageTable::new();
    assert_eq!(table.count(), 0);
    assert_eq!(table.select(10, 0), vec![]);
}

#[test]
fn rows_are_kept_newest_first() {
    let mut table = MessageTable::new();
    assert!(table.insert(message(1, 100)));
    assert!(table.insert(message(2, 300)));
    assert!(table.insert(message(3, 200)));
    assert!(table.insert(message(4, 50)));
    assert!(table.insert(message(5, 400)));
    assert_eq!(table.count(), 5);
    assert_eq!(ids(&table.select(5, 0)), vec![5, 2, 3, 1, 4]);
}

#[test]
fn rows_of_the_same_second_are_ordered_by_nanoseconds() {
    let mut table = MessageTable::new();
    let mut early = message(1, 100);
    early.created_at.nanoseconds = 1;
    let mut late = message(2, 100);
    late.created_at.nanoseconds = 999_999_999;
    table.insert(early);
    table.insert(late);
    table.insert(message(3, 100));
    assert_eq!(ids(&table.select(3, 0)), vec![2, 1, 3]);
}

#[test]
fn rows_of_the_same_instant_stay_in_the_order_of_filing() {
    let mut table = MessageTable::new();
    table.insert(message(1, 100));
    table.insert(message(2, 100));
    table.insert(message(3, 200));
    table.insert(message(4, 100));
    table.insert(message(5, 50));
    table.insert(message(6, 200));
    assert_eq!(ids(&table.select(6, 0)), vec![3, 6, 1, 2, 4, 5]);
}

#[test]
fn a_window_skips_the_offset_and_keeps_the_limit() {
    let memory = twelve_rows();
    assert_eq!(ids(&memory.table.select(5, 0)), vec![1, 2, 3, 4, 5]);
    assert_eq!(ids(&memory.table.select(5, 5)), vec![6, 7, 8, 9, 10]);
    assert_eq!(ids(&memory.table.select(5, 10)), vec![11, 12]);
    assert_eq!(ids(&memory.table.select(1, 11)), vec![12]);
    assert_eq!(ids(&memory.table.select(3, 4)), vec![5, 6, 7]);
}

#[test]
fn a_window_at_the_edges_of_the_table() {
    let memory = twelve_rows();
    assert_eq!(ids(&memory.table.select(0, 0)), Vec::<i32>::new());
    assert_eq!(ids(&memory.table.select(0, 5)), Vec::<i32>::new());
    assert_eq!(ids(&memory.table.select(5, 12)), Vec::<i32>::new());
    assert_eq!(ids(&memory.table.select(5, 13)), Vec::<i32>::new());
    assert_eq!(ids(&memory.table.select(i64::MAX, i64::MAX)), Vec::<i32>::new());
    assert_eq!(ids(&memory.table.select(i64::MAX, 10)), vec![11, 12]);
    assert_eq!(memory.table.select(100, 0).len(), 12);
    assert_eq!(memory.table.select(12, 0).len(), 12);
}

#[test]
fn page_two_of_five_out_of_twelve_rows() {
    let mut memory = twelve_rows();
    let page = listing(memory.serve(Method::Get, "/messages", query(2, 5)));
    assert_eq!(ids(&page.messages), vec![6, 7, 8, 9, 10]);
    assert_eq!(page.messages.len(), 5);
    assert_eq!(page.total, 12);
    assert_eq!(page.page, 2);
    assert_eq!(page.per_page, 5);
    assert_eq!(page.messages[0], message(6, 1_700_000_000 - 360));
}

#[test]
fn a_listing_never_holds_more_than_a_page() {
    let mut memory = twelve_rows();
    for per_page in 1..=14 {
        for page in 1..=14 {
            let listing = listing(memory.serve(Method::Get, "/messages", query(page, per_page)));
            assert!(listing.messages.len() as i64 <= per_page);
            let offset = (page - 1) * per_page;
            let expected: Vec<i32> =
                (1..=12).filter(|id| *id > offset && *id <= offset + per_page).map(|id| id as i32).collect();
            assert_eq!(ids(&listing.messages), expected, "page {} of {}", page, per_page);
        }
    }
}

#[test]
fn the_total_is_the_row_count_on_every_page() {
    let mut memory = twelve_rows();
    for (page, per_page) in [(1, 10), (2, 5), (3, 5), (4, 5), (1, 1), (12, 1), (13, 1), (1, 100), (50, 50), (1, 0)] {
        let listing = listing(memory.serve(Method::Get, "/messages", query(page, per_page)));
        assert_eq!(listing.total, 12);
        assert_eq!(listing.page, page);
        assert_eq!(listing.per_page, per_page);
    }
    assert_eq!(memory.table.count(), 12);
}

#[test]
fn the_last_page_holds_what_is_left() {
    let mut memory = twelve_rows();
    let page = listing(memory.serve(Method::Get, "/messages", query(3, 5)));
    assert_eq!(ids(&page.messages), vec![11, 12]);
    let beyond = listing(memory.serve(Method::Get, "/messages", query(4, 5)));
    assert_eq!(beyond.messages, vec![]);
    assert_eq!(beyond.total, 12);
}

#[test]
fn a_listing_without_parameters_is_the_first_page_of_ten() {
    let mut memory = twelve_rows();
    let params = Some(PaginationParams { page: None, per_page: None });
    let page = listing(memory.serve(Method::Get, "/messages", params));
    assert_eq!(ids(&page.messages), vec![1, 2, 3, 4, 5, 6, 7, 8, 9, 10]);
    assert_eq!((page.total, page.page, page.per_page), (12, 1, 10));
}

#[test]
fn a_listing_of_an_empty_table_is_empty() {
    let mut memory = Memory::new(None);
    let page = listing(memory.serve(Method::Get, "/messages/", query(1, 10)));
    assert_eq!(page, PaginatedMessages { messages: vec![], total: 0, page: 1, per_page: 10 });
}

#[test]
fn an_empty_page_size_lists_nothing() {
    let mut memory = twelve_rows();
    let page = listing(memory.serve(Method::Get, "/messages", query(1, 0)));
    assert_eq!(page.messages, vec![]);
    assert_eq!(page.total, 12);
}

#[test]
fn a_page_below_the_first_is_for_the_store_to_refuse() {
    let mut memory = twelve_rows();
    assert_eq!(
        memory.serve(Method::Get, "/messages", query(0, 10)),
        Some(error_body(500, "Database Error"))
    );
    assert_eq!(
        memory.serve(Method::Get, "/messages", query(1, -1)),
        Some(error_body(500, "Database Error"))
    );
    assert_eq!(
        memory.perform(Effect::SelectMessages { limit: 10, offset: -10 }),
        Outcome::Selected(Err(NEGATIVE_OFFSET.to_string()))
    );
    assert_eq!(
        memory.perform(Effect::SelectMessages { limit: -1, offset: 0 }),
        Outcome::Selected(Err(NEGATIVE_LIMIT.to_string()))
    );
}

#[test]
fn a_listing_that_cannot_be_computed_gets_no_answer() {
    let mut memory = twelve_rows();
    assert_eq!(memory.serve(Method::Get, "/messages", query(i64::MAX, 2)), None);
    assert_eq!(memory.table.count(), 12);
}

#[test]
fn an_outage_of_the_relational_store_is_a_database_error() {
    let mut memory = twelve_rows();
    memory.database_available = false;
    assert_eq!(
        memory.serve(Method::Get, "/messages", query(2, 5)),
        Some(error_body(500, "Database Error"))
    );
    assert_eq!(
        memory.serve(Method::Get, "/health", None),
        Some(Reply { status: 200, body: Body::Health { status: "ok".to_string() } })
    );
    assert_eq!(memory.perform(Effect::CountMessages), Outcome::Counted(Err(DATABASE_DOWN.to_string())));
    memory.database_available = true;
    assert_eq!(listing(memory.serve(Method::Get, "/messages", query(2, 5))).total, 12);
}

#[test]
fn health_is_ok_while_both_stores_are_out() {
    let mut memory = Memory::new(None);
    memory.database_available = false;
    memory.store_available = false;
    let ok = Some(Reply { status: 200, body: Body::Health { status: "ok".to_string() } });
    assert_eq!(memory.serve(Method::Get, "/health", None), ok);
    assert_eq!(memory.serve(Method::Get, "/health/", query(0, 0)), ok);
}

#[test]
fn an_unmapped_path_is_not_found() {
    let mut memory = twelve_rows();
    assert_eq!(memory.serve(Method::Get, "/users", None), Some(error_body(404, "Not Found")));
    assert_eq!(memory.serve(Method::Post, "/", None), Some(error_body(404, "Not Found")));
    assert_eq!(memory.serve(Method::Other, "/messages/2", None), Some(error_body(404, "Not Found")));
}

#[test]
fn a_known_path_under_another_method_is_served_as_not_found() {
    let mut memory = twelve_rows();
    let not_found = Some(error_body(404, "Not Found"));
    assert_eq!(memory.serve(Method::Post, "/health", None), not_found);
    assert_eq!(memory.serve(Method::Post, "/messages", query(1, 10)), not_found);
    assert_eq!(memory.serve(Method::Other, "/messages", query(1, 10)), not_found);
    assert_eq!(memory.serve(Method::Other, "/timestamp", None), not_found);
    assert_eq!(memory.object, None);
}

#[test]
fn an_unreadable_query_is_an_internal_server_error() {
    let mut memory = twelve_rows();
    assert_eq!(
        memory.serve(Method::Get, "/messages", None),
        Some(error_body(500, "Internal Server Error"))
    );
}

#[test]
fn the_pages_of_a_table_are_the_table() {
    let mut memory = twelve_rows();
    for per_page in 1..=13 {
        let mut joined = Vec::new();
        let mut page = 1;
        while (page - 1) * per_page < 12 {
            joined.extend(ids(&listing(memory.serve(Method::Get, "/messages", query(page, per_page))).messages));
            page += 1;
        }
        assert_eq!(joined, (1..=12).collect::<Vec<i32>>(), "pages of {}", per_page);
    }
}

#[test]
fn what_is_written_is_read_back() {
    let mut memory = Memory::new(None);
    let written = memory.serve(Method::Post, "/timestamp", None);
    let timestamp = match written {
        Some(Reply { status: 200, body: Body::Written { status, timestamp } }) => {
            assert_eq!(status, "ok");
            timestamp
        }
        other => panic!("no time stamp: {:?}", other),
    };
    assert!(chrono::DateTime::parse_from_rfc3339(&timestamp).is_ok());
    let read = memory.serve(Method::Get, "/timestamp", None);
    match read {
        Some(Reply { status: 200, body: Body::Read { status, content } }) => {
            assert_eq!(status, "ok");
            assert!(content.contains(&timestamp));
            assert_eq!(content, format!("Current timestamp: {}", timestamp));
        }
        other => panic!("nothing read: {:?}", other),
    }
}

#[test]
fn a_write_replaces_what_was_there() {
    let mut memory = Memory::new(Some("http://store:9000".to_string()));
    memory.object = Some(StoredObject {
        url: "http://store:9000/test-bucket/timestamp.txt".to_string(),
        body: "Current timestamp: 1999-12-31T23:59:59+00:00".to_string(),
    });
    let first = memory.serve(Method::Get, "/timestamp", None);
    assert_eq!(
        first,
        Some(Reply {
            status: 200,
            body: Body::Read {
                status: "ok".to_string(),
                content: "Current timestamp: 1999-12-31T23:59:59+00:00".to_string(),
            },
        })
    );
    assert!(memory.serve(Method::Post, "/timestamp", None).is_some());
    let stored = memory.object.as_ref().unwrap();
    assert_eq!(stored.url, "http://store:9000/test-bucket/timestamp.txt");
    assert_ne!(stored.body, "Current timestamp: 1999-12-31T23:59:59+00:00");
    assert!(stored.body.starts_with("Current timestamp: 2"));
}

#[test]
fn a_read_before_any_write_fails_in_the_body() {
    let mut memory = Memory::new(None);
    assert_eq!(
        memory.serve(Method::Get, "/timestamp", None),
        Some(failed("S3 error: HTTP error: 404 Not Found"))
    );
}

#[test]
fn a_read_finds_nothing_under_another_address() {
    let mut memory = Memory::new(None);
    assert!(memory.serve(Method::Post, "/timestamp", None).is_some());
    memory.endpoint = Some("http://elsewhere:4566".to_string());
    assert_eq!(
        memory.serve(Method::Get, "/timestamp", None),
        Some(failed("S3 error: HTTP error: 404 Not Found"))
    );
}

#[test]
fn an_outage_of_the_object_store_is_told_in_the_body() {
    let mut memory = Memory::new(None);
    memory.store_available = false;
    let down = format!("S3 error: {}", STORE_DOWN);
    assert_eq!(memory.serve(Method::Post, "/timestamp", None), Some(failed(&down)));
    assert_eq!(memory.serve(Method::Get, "/timestamp", None), Some(failed(&down)));
    assert_eq!(memory.object, None);
}

#[test]
fn the_host_puts_and_gets_one_object() {
    let mut memory = Memory::new(None);
    let put = PutRequest {
        url: "http://a/b".to_string(),
        content_type: "text/plain".to_string(),
        body: "first".to_string(),
    };
    assert_eq!(memory.perform(Effect::Put(put)), Outcome::Sent(Ok(Status::new(200).unwrap())));
    let get = GetRequest { url: "http://a/b".to_string() };
    assert_eq!(memory.perform(Effect::Get(get)), Outcome::Sent(Ok(Status::new(200).unwrap())));
    assert_eq!(memory.perform(Effect::ReadBody), Outcome::Body(Ok("first".to_string())));
    assert_eq!(memory.perform(Effect::ReadBody), Outcome::Body(Err(NO_RESPONSE.to_string())));
    let other = GetRequest { url: "http://a/c".to_string() };
    assert_eq!(memory.perform(Effect::Get(other)), Outcome::Sent(Ok(Status::new(404).unwrap())));
}
