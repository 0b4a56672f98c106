use lemmy_federate::enums::CommunityVisibility;
use lemmy_federate::local_state::{Community, Post};
use lemmy_federate::pagination::{cursor_for, upper_bound_for_page, PostPaginationCursor, PostView};

fn view(id: i32) -> PostView {
    PostView {
        post: Post {
            id,
            community_id: 1,
            creator_id: 1,
            locked: false,
            removed: false,
            deleted: false,
        },
        community: Community {
            id: 1,
            local: true,
            removed: false,
            deleted: false,
            visibility: CommunityVisibility::Public,
        },
    }
}

fn cursor(text: &str) -> PostPaginationCursor {
    PostPaginationCursor(text.to_string())
}

#[test]
fn the_cursor_is_the_id_in_hexadecimal() {
    assert_eq!(PostPaginationCursor::after_post(&view(47)).0, "P2f");
    assert_eq!(PostPaginationCursor::after_post(&view(0)).0, "P0");
    assert_eq!(PostPaginationCursor::after_post(&view(15)).0, "Pf");
    assert_eq!(PostPaginationCursor::after_post(&view(16)).0, "P10");
    assert_eq!(PostPaginationCursor::after_post(&view(255)).0, "Pff");
    assert_eq!(PostPaginationCursor::after_post(&view(0x1234abc)).0, "P1234abc");
    assert_eq!(PostPaginationCursor::after_post(&view(i32::MAX)).0, "P7fffffff");
}

#[test]
fn the_cursor_agrees_with_the_formatter() {
    for id in [0, 1, 9, 10, 4095, 4096, 65_535, 1_000_000, i32::MAX, -1, -255, i32::MIN] {
        assert_eq!(cursor_for(id), format!("P{:x}", id));
    }
}

#[test]
fn a_negative_id_shows_its_bits() {
    assert_eq!(cursor_for(-1), "Pffffffff");
    assert_eq!(cursor_for(i32::MIN), "P80000000");
    assert_eq!(cursor("Pffffffff").post_id(), None);
}

#[test]
fn reading_gives_back_the_id() {
    for id in [0, 1, 47, 255, 256, 123_456_789, i32::MAX] {
        assert_eq!(PostPaginationCursor::after_post(&view(id)).post_id(), Some(id));
    }
}

#[test]
fn reading_agrees_with_the_parser_of_the_standard_library() {
    for text in [
        "", "P", "P0", "P2f", "P2F", "PfF", "Pg", "P 1", "P9 ", "P+", "P-", "P+1f", "P-1f", "P--1",
        "P+-1", "P7fffffff", "P80000000", "P-80000000", "P-80000001", "P000000000000000000001",
        "Pffffffffffffffffffffff", "X10", "110", "+10", "P0x10", "P9_0", "P\u{e9}", "P9\u{e9}",
    ] {
        let expected = text.get(1..).and_then(|rest| i32::from_str_radix(rest, 16).ok());
        assert_eq!(cursor(text).post_id(), expected, "cursor {:?}", text);
    }
    assert_eq!(cursor("\u{e9}10").post_id(), None);
    assert_eq!("\u{e9}10".get(1..), None);
}

#[test]
fn reading_takes_signs_and_both_cases() {
    assert_eq!(cursor("P2f").post_id(), Some(47));
    assert_eq!(cursor("P2F").post_id(), Some(47));
    assert_eq!(cursor("P+2f").post_id(), Some(47));
    assert_eq!(cursor("P-2f").post_id(), Some(-47));
    assert_eq!(cursor("P-80000000").post_id(), Some(i32::MIN));
    assert_eq!(cursor("P80000000").post_id(), None);
    assert_eq!(cursor("Q2f").post_id(), Some(47));
}

#[test]
fn a_full_page_bounds_the_next_query() {
    let page = vec![view(9), view(7), view(5)];
    assert_eq!(upper_bound_for_page(&page, 3, false), Some(view(5).post));
    assert_eq!(upper_bound_for_page(&page, 3, true), Some(view(9).post));
    assert_eq!(upper_bound_for_page(&page, 2, false), Some(view(5).post));
    assert_eq!(upper_bound_for_page(&page, 4, false), None);
    assert_eq!(upper_bound_for_page(&page, i64::MAX, true), None);
    assert_eq!(upper_bound_for_page(&page, 0, false), Some(view(5).post));
    assert_eq!(upper_bound_for_page(&page, -1, true), Some(view(9).post));
    assert_eq!(upper_bound_for_page(&Vec::new(), 0, false), None);
    assert_eq!(upper_bound_for_page(&Vec::new(), 10, false), None);
}
