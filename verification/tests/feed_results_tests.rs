use at_tui::app::{
    account_switched_state, apply_feed_loaded, apply_feed_refresh_loaded, apply_page_loaded, is_active_source,
    is_timeline_at_top,
};
use at_tui::model::{FeedItem, FeedSource, FeedSourceKind, ViewItem};
use at_tui::navigation::{NavigationStack, ViewKind, ViewState};

fn post(uri: &str) -> FeedItem {
    FeedItem {
        uri: uri.into(),
        cid: None,
        viewer_like: None,
        viewer_repost: None,
        author_did: None,
        author_name: "Alice".into(),
        author_handle: "alice.test".into(),
        author_following: None,
        author_following_uri: None,
        avatar_url: None,
        text: uri.into(),
        indexed_at: None,
        reply_count: 0,
        repost_count: 0,
        like_count: 0,
        quote_count: 0,
        images: Vec::new(),
        videos: Vec::new(),
        external: None,
        links: Vec::new(),
        quote: None,
        reason: None,
        reply: None,
        reply_root: None,
        embed_status: None,
        depth: 0,
    }
}

fn uris(view: &ViewState) -> Vec<String> {
    view.items
        .iter()
        .map(|row| match row {
            ViewItem::Post(item) => item.uri.clone(),
            ViewItem::Notification(n) => n.uri.clone(),
        })
        .collect()
}

fn timeline(uris: &[&str]) -> ViewState {
    ViewState::new("Following", ViewKind::Timeline, uris.iter().map(|u| post(u)).collect())
}

#[test]
fn feed_load_replaces_the_stack_and_drops_pending_posts() {
    let mut nav = NavigationStack::new(timeline(&["a"]));
    nav.push(ViewState::new("Thread", ViewKind::Thread { root_uri: "a".into() }, vec![post("a")]));
    let mut pending = vec![post("p")];
    let status =
        apply_feed_loaded(&mut nav, &mut pending, "Discover", Ok((vec![post("x"), post("y")], Some("c2".into()))));
    assert_eq!(status, "Loaded Discover");
    assert_eq!(nav.depth(), 1);
    assert_eq!(nav.current().title, "Discover");
    assert_eq!(uris(nav.current()), vec!["x", "y"]);
    assert_eq!(nav.current().cursor.as_deref(), Some("c2"));
    assert!(pending.is_empty());
}

#[test]
fn failed_feed_load_keeps_the_view_with_its_error() {
    let mut nav = NavigationStack::new(timeline(&["a"]));
    nav.current_mut().loading = true;
    let mut pending = vec![post("p")];
    let status = apply_feed_loaded(&mut nav, &mut pending, "Discover", Err("offline".into()));
    assert_eq!(status, "Feed load failed");
    assert_eq!(uris(nav.current()), vec!["a"]);
    assert!(!nav.current().loading);
    assert_eq!(nav.current().error.as_deref(), Some("offline"));
    assert_eq!(pending.len(), 1);
}

#[test]
fn page_of_the_active_timeline_goes_below_its_posts() {
    let mut view = timeline(&["a", "b"]);
    view.loading = true;
    view.selected = 1;
    let status = apply_page_loaded(&mut view, true, Ok((vec![post("c")], None)));
    assert_eq!(status.as_deref(), Some("Loaded more timeline posts"));
    assert_eq!(uris(&view), vec!["a", "b", "c"]);
    assert_eq!(view.selected, 1);
    assert!(!view.loading);
    assert_eq!(view.cursor, None);
}

#[test]
fn page_of_another_feed_only_ends_loading() {
    let mut view = timeline(&["a"]);
    view.loading = true;
    let status = apply_page_loaded(&mut view, false, Ok((vec![post("c")], Some("next".into()))));
    assert_eq!(status, None);
    assert_eq!(uris(&view), vec!["a"]);
    assert!(!view.loading);

    let mut thread = ViewState::new("Thread", ViewKind::Thread { root_uri: "a".into() }, vec![post("a")]);
    thread.loading = true;
    assert_eq!(apply_page_loaded(&mut thread, true, Err("boom".into())), None);
    assert!(!thread.loading);
    assert_eq!(thread.error, None);
}

#[test]
fn failed_page_reports_pagination_failure() {
    let mut view = timeline(&["a"]);
    let status = apply_page_loaded(&mut view, true, Err("timeout".into()));
    assert_eq!(status.as_deref(), Some("Pagination failed"));
    assert_eq!(view.error.as_deref(), Some("timeout"));
}

#[test]
fn refresh_at_top_shows_new_posts_at_once() {
    let mut view = timeline(&["old"]);
    let mut pending = Vec::new();
    let status = apply_feed_refresh_loaded(&mut view, &mut pending, true, Ok(vec![post("new2"), post("new1"), post("old")]));
    assert_eq!(status.as_deref(), Some("Loaded 2 new posts"));
    assert_eq!(uris(&view), vec!["new2", "new1", "old"]);
    assert_eq!(view.selected, 0);
    assert!(pending.is_empty());
}

#[test]
fn refresh_below_top_keeps_new_posts_pending() {
    let mut view = timeline(&["old", "older"]);
    view.selected = 1;
    let mut pending = vec![post("p1")];
    let status = apply_feed_refresh_loaded(&mut view, &mut pending, true, Ok(vec![post("n1"), post("p1"), post("old")]));
    assert_eq!(status.as_deref(), Some("2 new posts pending"));
    assert_eq!(uris(&view), vec!["old", "older"]);
    assert_eq!(pending.iter().map(|p| p.uri.as_str()).collect::<Vec<_>>(), vec!["n1", "p1"]);
}

#[test]
fn refresh_without_new_posts_or_of_another_feed_changes_nothing() {
    let mut view = timeline(&["old"]);
    let mut pending = Vec::new();
    assert_eq!(apply_feed_refresh_loaded(&mut view, &mut pending, true, Ok(vec![post("old")])), None);
    assert_eq!(apply_feed_refresh_loaded(&mut view, &mut pending, false, Ok(vec![post("new")])), None);
    assert_eq!(uris(&view), vec!["old"]);
    assert!(pending.is_empty());
    let status = apply_feed_refresh_loaded(&mut view, &mut pending, true, Err("503".into()));
    assert_eq!(status.as_deref(), Some("Refresh check failed: 503"));
}

#[test]
fn active_source_compares_label_and_kind() {
    let feeds = vec![
        FeedSource::home(),
        FeedSource { label: "Discover".into(), kind: FeedSourceKind::Generator { uri: "at://d".into() } },
    ];
    let discover = FeedSource { label: "Discover".into(), kind: FeedSourceKind::Generator { uri: "at://d".into() } };
    let other = FeedSource { label: "Discover".into(), kind: FeedSourceKind::Generator { uri: "at://e".into() } };
    assert!(is_active_source(&feeds, 1, &discover));
    assert!(!is_active_source(&feeds, 0, &discover));
    assert!(!is_active_source(&feeds, 1, &other));
    assert!(!is_active_source(&feeds, 2, &discover));
    assert!(is_active_source(&feeds, 0, &FeedSource::home()));
}

#[test]
fn timeline_is_at_top_only_when_first_post_is_selected_and_unscrolled() {
    let mut view = timeline(&["a", "b"]);
    assert!(is_timeline_at_top(&view));
    view.selected = 1;
    assert!(!is_timeline_at_top(&view));
    let thread = ViewState::new("Thread", ViewKind::Thread { root_uri: "a".into() }, vec![post("a")]);
    assert!(!is_timeline_at_top(&thread));
}

#[test]
fn switched_account_starts_on_its_first_feed_or_home() {
    let (feeds, nav) = account_switched_state(Vec::new(), vec![post("h1")], Some("c".into()));
    assert_eq!(feeds, vec![FeedSource::home()]);
    assert_eq!(nav.depth(), 1);
    assert_eq!(nav.current().title, "Following");
    assert_eq!(uris(nav.current()), vec!["h1"]);
    assert_eq!(nav.current().cursor.as_deref(), Some("c"));

    let saved = vec![
        FeedSource { label: "Art".into(), kind: FeedSourceKind::Generator { uri: "at://art".into() } },
        FeedSource::home(),
    ];
    let (feeds, nav) = account_switched_state(saved.clone(), vec![post("a1"), post("a2")], None);
    assert_eq!(feeds, saved);
    assert_eq!(nav.current().title, "Art");
    assert_eq!(nav.current().kind, ViewKind::Timeline);
    assert_eq!(uris(nav.current()), vec!["a1", "a2"]);
}
