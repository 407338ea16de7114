use at_tui::app::{ComposerKind, ComposerState, InputMode, Overlay};
use at_tui::ui::{
    ensure_selected_visible, location_label, position_label, status_left, status_text,
    visible_rows, wrap_text, SegmentStyle, StatusFacts,
};

fn facts(status: &str) -> StatusFacts {
    StatusFacts {
        handle: "alice.test".into(),
        location: "Following".into(),
        pending_new: 2,
        unread: 7,
        offline: false,
        busy: true,
        status: status.into(),
    }
}

fn text_of(segments: &[(String, SegmentStyle)]) -> String {
    segments.iter().map(|(text, _)| text.as_str()).collect()
}

#[test]
fn status_counter_is_separate_right_segment_and_narrow_left_drops_status() {
    let f = facts("Loaded a surprisingly long status message");
    let full = text_of(&status_left(&f, 200));
    assert!(full.contains("Loaded a surprisingly long status message"));
    assert_eq!(full, " @alice.test  Following  ↑ 2 new  ! 7  …  Loaded a surprisingly long status message ");

    let narrow = text_of(&status_left(&f, 30));
    assert!(!narrow.contains("Loaded a surprisingly long status message"));
    assert!(status_left(&f, 0).is_empty());

    assert_eq!(position_label(0, 1), "1/1");
    assert_eq!(position_label(0, 0), "0/0");
}

#[test]
fn status_location_replaces_feed_when_nested() {
    assert_eq!(location_label(1, "Thread @bob.test", Some("Following")), "Following");
    assert_eq!(location_label(2, "Thread @bob.test", Some("Following")), "Thread @bob.test");
    assert_eq!(location_label(1, "x", None), "Following");
}

#[test]
fn status_text_prefers_search_then_composer() {
    let search = InputMode::Search { buffer: "cats".into() };
    assert_eq!(status_text(&search, &None, Some("ignored"), None), "/cats");
    let composer = Some(Overlay::Composer(ComposerState { kind: ComposerKind::Post, buffer: String::new() }));
    assert_eq!(status_text(&InputMode::Normal, &composer, Some("x"), None), "New Post");
    assert_eq!(status_text(&InputMode::Normal, &None, None, Some("Loading feed")), "Loading feed");
    assert_eq!(status_text(&InputMode::Normal, &None, None, None), "");
}

#[test]
fn scrolls_when_selected_variable_height_item_is_below_viewport() {
    let heights = vec![3, 3, 3, 3];
    assert_eq!(ensure_selected_visible(2, 0, &heights, 7), (2, 1));
    assert_eq!(ensure_selected_visible(3, 0, &heights, 9), (3, 1));
}

#[test]
fn scrolls_selected_oversized_item_to_top() {
    let heights = vec![2, 20, 2];
    assert_eq!(ensure_selected_visible(1, 0, &heights, 5), (1, 1));
}

#[test]
fn scrolling_up_restores_selected_as_top_when_needed() {
    let heights = vec![1, 1, 1, 1];
    assert_eq!(ensure_selected_visible(0, 3, &heights, 10), (0, 0));
    assert_eq!(ensure_selected_visible(9, 9, &heights, 10), (3, 3));
    assert_eq!(ensure_selected_visible(5, 5, &Vec::new(), 10), (0, 0));
}

#[test]
fn renders_partial_next_item_instead_of_blank_space() {
    let counts = vec![2, 3, 4];
    assert_eq!(visible_rows(0, &counts, 6), vec![(0, 2), (1, 3), (2, 1)]);
    assert_eq!(visible_rows(1, &counts, 3), vec![(1, 3)]);
    assert_eq!(visible_rows(0, &counts, 0), vec![]);
}

#[test]
fn wraps_each_line_and_keeps_empty_text() {
    assert_eq!(wrap_text("", 40), vec![String::new()]);
    assert_eq!(wrap_text("one\r\ntwo\n", 40), vec!["one".to_owned(), "two".to_owned()]);
    assert_eq!(
        wrap_text("alpha beta gamma delta", 3),
        vec!["alpha".to_owned(), "beta gamma".to_owned(), "delta".to_owned()]
    );
}
