use at_tui::model::FeedItem;
use at_tui::navigation::{NavigationStack, ViewKind, ViewState};

fn item(uri: &str, text: &str) -> FeedItem {
    FeedItem {
        uri: uri.into(),
        cid: None,
        viewer_like: None,
        viewer_repost: None,
        author_did: None,
        author_name: "Alice".into(),
        author_handle: "alice.test".into(),
        author_following: None,
        author_following_uri: None,
        avatar_url: None,
        text: text.into(),
        indexed_at: None,
        reply_count: 0,
        repost_count: 0,
        like_count: 0,
        quote_count: 0,
        images: Vec::new(),
        videos: Vec::new(),
        external: None,
        links: Vec::new(),
        quote: None,
        reason: None,
        reply: None,
        reply_root: None,
        embed_status: None,
        depth: 0,
    }
}

#[test]
fn move_by_clamps_at_both_ends() {
    let mut view = ViewState::new(
        "Timeline",
        ViewKind::Timeline,
        vec![item("1", "one"), item("2", "two"), item("3", "three")],
    );

    view.move_by(10);
    assert_eq!(view.selected, 2);
    view.move_by(-1);
    assert_eq!(view.selected, 1);
    view.move_by(-10);
    assert_eq!(view.selected, 0);
}

#[test]
fn moves_up_and_down() {
    let mut view = ViewState::new(
        "Timeline",
        ViewKind::Timeline,
        vec![item("1", "one"), item("2", "two")],
    );
    view.move_down();
    view.move_down();
    assert_eq!(view.selected, 1);
    view.move_up();
    assert_eq!(view.selected, 0);
}

#[test]
fn replace_root_preserves_pushed_views() {
    let root = ViewState::new("Timeline", ViewKind::Timeline, vec![item("1", "one")]);
    let mut stack = NavigationStack::new(root);
    stack.push(ViewState::new(
        "Thread",
        ViewKind::Thread {
            root_uri: "1".into(),
        },
        vec![item("1", "one")],
    ));

    stack.replace_root(ViewState::new(
        "News",
        ViewKind::Timeline,
        vec![item("2", "two")],
    ));

    assert_eq!(stack.depth(), 2);
    assert_eq!(stack.current().title, "Thread");
    assert!(stack.pop());
    assert_eq!(stack.current().title, "News");
    assert_eq!(stack.current().items[0].uri(), "2");
}

#[test]
fn stack_pop_restores_parent_cursor() {
    let mut root = ViewState::new(
        "Timeline",
        ViewKind::Timeline,
        vec![item("1", "one"), item("2", "two")],
    );
    root.move_down();
    let mut stack = NavigationStack::new(root);
    stack.push(ViewState::new(
        "Thread",
        ViewKind::Thread {
            root_uri: "2".into(),
        },
        vec![item("2", "root")],
    ));
    assert_eq!(stack.depth(), 2);
    assert!(stack.pop());
    assert_eq!(stack.current().selected, 1);
}

#[test]
fn selects_opened_thread_uri() {
    let mut view = ViewState::new(
        "Thread",
        ViewKind::Thread {
            root_uri: "selected".into(),
        },
        vec![
            item("root", "root"),
            item("parent", "parent"),
            item("selected", "selected"),
            item("reply", "reply"),
        ],
    );

    assert!(view.select_uri("selected"));
    assert_eq!(view.selected, 2);
}

#[test]
fn replace_items_preserves_selected_uri() {
    let mut view = ViewState::new(
        "Thread",
        ViewKind::Thread {
            root_uri: "selected".into(),
        },
        vec![item("root", "root"), item("selected", "selected")],
    );
    view.select_uri("selected");

    view.replace_items_preserving_uri(
        vec![
            item("new-root", "new root"),
            item("selected", "selected"),
            item("reply", "reply"),
        ],
        Some("selected"),
        Some("new-root"),
    );

    assert_eq!(view.selected, 1);
}

#[test]
fn replace_items_falls_back_to_root_uri() {
    let mut view = ViewState::new(
        "Thread",
        ViewKind::Thread {
            root_uri: "root".into(),
        },
        vec![item("old", "old")],
    );

    view.replace_items_preserving_uri(
        vec![item("root", "root"), item("reply", "reply")],
        Some("missing"),
        Some("root"),
    );

    assert_eq!(view.selected, 0);
}

#[test]
fn search_wraps() {
    let mut view = ViewState::new(
        "Timeline",
        ViewKind::Timeline,
        vec![item("1", "one"), item("2", "needle"), item("3", "three")],
    );
    view.selected = 2;
    assert!(view.search_next("needle"));
    assert_eq!(view.selected, 1);
}

#[test]
fn search_ignores_case_and_blank_queries() {
    let mut view = ViewState::new(
        "Timeline",
        ViewKind::Timeline,
        vec![item("1", "one"), item("2", "Needle here"), item("3", "three")],
    );
    assert!(!view.search_next("   "));
    assert_eq!(view.search_query, None);
    assert!(view.search_next("NEEDLE"));
    assert_eq!(view.selected, 1);
    assert_eq!(view.search_query.as_deref(), Some("NEEDLE"));
    assert!(!view.search_next("absent"));
    assert_eq!(view.selected, 1);
}

#[test]
fn pop_at_root_keeps_the_root() {
    let mut stack = NavigationStack::new(ViewState::new("Timeline", ViewKind::Timeline, vec![]));
    assert!(!stack.pop());
    assert_eq!(stack.depth(), 1);
    stack.push(ViewState::new("A", ViewKind::Notifications, vec![]));
    stack.push(ViewState::new("B", ViewKind::Notifications, vec![]));
    assert_eq!(stack.breadcrumb(), "Timeline / A / B");
    assert!(stack.pop());
    assert_eq!(stack.breadcrumb(), "Timeline / A");
}

#[test]
fn jump_and_empty_views() {
    let mut view = ViewState::new(
        "Timeline",
        ViewKind::Timeline,
        vec![item("1", "one"), item("2", "two"), item("3", "three")],
    );
    view.jump_bottom();
    assert_eq!(view.selected, 2);
    view.scroll = 4;
    view.jump_top();
    assert_eq!((view.selected, view.scroll), (0, 0));
    let mut empty = ViewState::new("Empty", ViewKind::Timeline, vec![]);
    empty.move_down();
    empty.move_by(3);
    empty.jump_bottom();
    assert_eq!(empty.selected, 0);
    assert!(empty.selected_item().is_none());
    assert!(!empty.select_uri("1"));
}

#[test]
fn prepend_and_append_keep_order() {
    let mut view = ViewState::new("Timeline", ViewKind::Timeline, vec![item("2", "two")]);
    view.prepend_posts(vec![item("1", "one")]);
    let mut more = vec![item("3", "three")];
    view.append_posts(&mut more);
    assert!(more.is_empty());
    let uris: Vec<&str> = view.items.iter().map(|row| row.uri()).collect();
    assert_eq!(uris, vec!["1", "2", "3"]);
    assert_eq!(view.layout_cache.width, None);
}

#[test]
fn retain_items_drops_rows_and_clamps_the_selection() {
    let mut view = ViewState::new(
        "Timeline",
        ViewKind::Timeline,
        vec![item("one", "one"), item("two", "two"), item("three", "three")],
    );
    view.selected = 2;
    view.scroll = 4;
    let mut nav = NavigationStack::new(view);
    nav.push(ViewState::new("Thread", ViewKind::Thread { root_uri: "one".into() }, vec![item("one", "one")]));

    nav.retain_items(|row| row.uri() != "three");

    assert_eq!(nav.current().items.len(), 1);
    nav.pop();
    let root = nav.current();
    assert_eq!(root.items.len(), 2);
    assert_eq!(root.selected, 1);
    assert_eq!(root.scroll, 0);
}

#[test]
fn for_each_item_mut_updates_posts_in_every_view() {
    let mut nav = NavigationStack::new(ViewState::new("Timeline", ViewKind::Timeline, vec![item("one", "one")]));
    nav.push(ViewState::new("Thread", ViewKind::Thread { root_uri: "one".into() }, vec![item("one", "one")]));

    nav.for_each_item_mut(|mut post| {
        post.like_count += 1;
        post
    });

    assert_eq!(nav.current().items[0].as_post().unwrap().like_count, 1);
    nav.pop();
    assert_eq!(nav.current().items[0].as_post().unwrap().like_count, 1);
}

#[test]
fn for_each_profile_mut_updates_profile_headers() {
    let mut view = ViewState::new("Profile @bob.test", ViewKind::Profile { actor: "did:plc:bob".into() }, Vec::new());
    view.set_profile(at_tui::model::ProfileSummary {
        did: "did:plc:bob".into(),
        handle: "bob.test".into(),
        display_name: "Bob".into(),
        description: None,
        avatar_url: None,
        banner_url: None,
        viewer_following: None,
        followers_count: 1,
        follows_count: 2,
        posts_count: 3,
    });
    let mut nav = NavigationStack::new(view);

    nav.for_each_profile_mut(|mut profile| {
        profile.viewer_following = Some("at://follow".into());
        profile.followers_count += 1;
        profile
    });

    let profile = nav.current().profile.as_ref().unwrap();
    assert_eq!(profile.followers_count, 2);
    assert_eq!(profile.viewer_following.as_deref(), Some("at://follow"));
}
