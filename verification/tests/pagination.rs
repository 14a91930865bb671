use axiobot::keyboards::{all_messages, create_navigation_row};
use axiobot::pagination::{effective_page, page_window, total_pages};
use axiobot::records::{Message, MessageStatus};

fn msg(id: &str, text: &str) -> Message {
    Message {
        id: String::from(id),
        telegram_id: 7,
        text: String::from(text),
        status: MessageStatus::Pending,
        answer: None,
        created_at: String::from("2024-01-01 00:00:00 UTC"),
        updated_at: String::from("2024-01-01 00:00:00 UTC"),
    }
}

fn numbered(n: usize) -> Vec<Message> {
    let mut v = Vec::new();
    let mut i = 0;
    while i < n {
        v.push(msg(&format!("id{}", i), &format!("text {}", i)));
        i += 1;
    }
    v
}

#[test]
fn it_works() {
    let result = axiobot::records::add(2, 2);
    assert_eq!(result, 4);
}

#[test]
fn lib_it_works() {
    let result = axiobot::add(2, 2);
    assert_eq!(result, 4);
}

#[test]
fn total_pages_floor_is_one() {
    assert_eq!(total_pages(0), 1);
    assert_eq!(total_pages(1), 1);
    assert_eq!(total_pages(10), 1);
    assert_eq!(total_pages(11), 2);
    assert_eq!(total_pages(25), 3);
}

#[test]
fn effective_page_clamps() {
    assert_eq!(effective_page(0, 0), 0);
    assert_eq!(effective_page(9, 0), 0);
    assert_eq!(effective_page(5, 25), 2);
    assert_eq!(effective_page(2, 25), 2);
    assert_eq!(effective_page(1, 25), 1);
}

#[test]
fn empty_list_has_one_page_and_no_navigation() {
    // items = [] -> totalPages = 1, window = [], navigation omitted
    let kb = all_messages(Vec::new(), 0);
    assert_eq!(kb.rows.len(), 0);
    let window = page_window(&Vec::new(), 0);
    assert!(window.is_empty());
}

#[test]
fn page_past_end_clamps_to_last_window() {
    // items length 25, requestedPage = 5 -> effectivePage = 2, window = items[20..25],
    // navigation shows only "previous"
    let items = numbered(25);
    let window = page_window(&items, 5);
    assert_eq!(window.len(), 5);
    assert_eq!(window[0].id, "id20");
    assert_eq!(window[4].id, "id24");

    let kb = all_messages(numbered(25), 5);
    // five record rows and one navigation row
    assert_eq!(kb.rows.len(), 6);
    assert_eq!(kb.rows[0][0].payload, "msg_id20");
    let nav = &kb.rows[5];
    // "previous" and the indicator; no "next" on the last page
    assert_eq!(nav.len(), 2);
    assert_eq!(nav[0].payload, "page_1");
    assert_eq!(nav[1].label, "3/3");
    assert_eq!(nav[1].payload, "current_page");
}

#[test]
fn middle_page_has_both_directions() {
    let items = numbered(25);
    let kb = all_messages(items, 1);
    assert_eq!(kb.rows.len(), 11);
    let nav = &kb.rows[10];
    assert_eq!(nav.len(), 3);
    assert_eq!(nav[0].payload, "page_0");
    assert_eq!(nav[1].label, "2/3");
    assert_eq!(nav[2].payload, "page_2");
}

#[test]
fn first_page_has_no_previous() {
    let kb = all_messages(numbered(11), 0);
    let nav = &kb.rows[10];
    assert_eq!(nav.len(), 2);
    assert_eq!(nav[0].label, "1/2");
    assert_eq!(nav[1].payload, "page_1");
}

#[test]
fn pagination_is_idempotent() {
    // identical inputs give identical (window, navigation)
    let a = all_messages(numbered(25), 1);
    let b = all_messages(numbered(25), 1);
    assert_eq!(a.rows.len(), b.rows.len());
    for (ra, rb) in a.rows.iter().zip(b.rows.iter()) {
        assert_eq!(ra.len(), rb.len());
        for (ba, bb) in ra.iter().zip(rb.iter()) {
            assert_eq!(ba.label, bb.label);
            assert_eq!(ba.payload, bb.payload);
        }
    }
}

#[test]
fn long_texts_are_truncated_in_labels() {
    let items = vec![msg("a", "0123456789ABC")];
    let kb = all_messages(items, 0);
    assert_eq!(kb.rows[0][0].label, "0123456789...");
    let short = all_messages(vec![msg("b", "short")], 0);
    assert_eq!(short.rows[0][0].label, "short");
}

#[test]
fn navigation_row_shape() {
    let row = create_navigation_row(0, 3);
    assert_eq!(row.len(), 2);
    assert_eq!(row[0].label, "1/3");
    let row = create_navigation_row(2, 3);
    assert_eq!(row.len(), 2);
    assert_eq!(row[0].payload, "page_1");
    assert_eq!(row[1].label, "3/3");
}
