use at_tui::app::{apply_notification_count, apply_follow, apply_profile_follow, delete_plan, follow_plan, FollowPlan};
use at_tui::app::{quote_plan, reload_plan, selected_target, toggle_plan, QuotePlan, ReloadPlan, SelectedTarget};
use at_tui::app::{handle_search_key, SearchStep};
use at_tui::app::{
    menu_tab_action, new_items_before_current, normal_action_for_key, normal_key_help_lines,
    post_ref_from_item, Action, ComposerKind, ComposerState, LinkPickerState, MediaOverlayState,
    MenuSection, MenuState, MenuTabAction, ThreadAction,
};
use at_tui::keymap::{KeyCode, KeyEvent, KeyModifiers};
use at_tui::media::{PreviewImage, PreviewImageSource, PreviewMedia};
use at_tui::model::{FeedItem, LinkRef, LinkSource, PostRef, ViewItem};
use at_tui::navigation::ViewKind;

fn item(uri: &str, text: &str) -> FeedItem {
    FeedItem {
        uri: uri.into(),
        cid: None,
        viewer_like: None,
        viewer_repost: None,
        author_did: None,
        author_name: "Alice".into(),
        author_handle: "alice.test".into(),
        author_following: None,
        author_following_uri: None,
        avatar_url: None,
        text: text.into(),
        indexed_at: None,
        reply_count: 0,
        repost_count: 0,
        like_count: 0,
        quote_count: 0,
        images: Vec::new(),
        videos: Vec::new(),
        external: None,
        links: Vec::new(),
        quote: None,
        reason: None,
        reply: None,
        reply_root: None,
        embed_status: None,
        depth: 0,
    }
}

fn image(url: &str) -> PreviewImage {
    PreviewImage {
        url: url.into(),
        thumb_url: None,
        alt: None,
        source: PreviewImageSource::Post,
    }
}

fn link(uri: &str) -> LinkRef {
    LinkRef {
        uri: uri.into(),
        label: uri.into(),
        source: LinkSource::Text,
    }
}

#[test]
fn media_overlay_navigation_stays_in_bounds() {
    let mut state = MediaOverlayState::new(vec![
        PreviewMedia::Image(image("one")),
        PreviewMedia::Image(image("two")),
    ]);

    assert!(
        matches!(state.selected_media(), Some(PreviewMedia::Image(image)) if image.url == "one")
    );
    state.previous();
    assert_eq!(state.selected, 0);
    state.next();
    state.next();
    assert_eq!(state.selected, 1);
    assert!(
        matches!(state.selected_media(), Some(PreviewMedia::Image(image)) if image.url == "two")
    );
}

#[test]
fn menu_state_cycles_sections() {
    let mut state = MenuState::default();

    assert_eq!(state.section, MenuSection::Keys);
    state.next();
    assert_eq!(state.section, MenuSection::Accounts);
    state.next();
    assert_eq!(state.section, MenuSection::Feeds);
    state.previous();
    assert_eq!(state.section, MenuSection::Accounts);
}

#[test]
fn menu_tab_maps_to_section_account_and_feed_actions() {
    assert_eq!(
        menu_tab_action(MenuSection::Keys, false),
        MenuTabAction::MoveSection(1)
    );
    assert_eq!(
        menu_tab_action(MenuSection::Settings, true),
        MenuTabAction::MoveSection(-1)
    );
    assert_eq!(
        menu_tab_action(MenuSection::Accounts, false),
        MenuTabAction::SwitchAccount(1)
    );
    assert_eq!(
        menu_tab_action(MenuSection::Feeds, true),
        MenuTabAction::SwitchFeed(-1)
    );
}

#[test]
fn pending_refresh_items_merge_only_when_requested() {
    let current = vec![ViewItem::from(item("old", "old"))];
    let refreshed = vec![item("new", "new"), item("old", "old")];

    let new_items = new_items_before_current(&current, &[], refreshed);

    assert_eq!(
        new_items
            .iter()
            .map(|item| item.uri.as_str())
            .collect::<Vec<_>>(),
        vec!["new"]
    );
}

#[test]
fn normal_action_registry_maps_profile_notifications_and_existing_keys() {
    let key = |code| KeyEvent::new(code, KeyModifiers::none());

    assert_eq!(
        normal_action_for_key(key(KeyCode::Char('P'))),
        Some(Action::OpenProfile)
    );
    assert_eq!(
        normal_action_for_key(key(KeyCode::Char('N'))),
        Some(Action::OpenNotifications)
    );
    assert_eq!(
        normal_action_for_key(key(KeyCode::Char('l'))),
        Some(Action::OpenSelected)
    );
    assert_eq!(
        normal_action_for_key(key(KeyCode::Char('h'))),
        Some(Action::Back)
    );
    assert_eq!(
        normal_action_for_key(key(KeyCode::Esc)),
        Some(Action::Escape)
    );
    assert_eq!(
        normal_action_for_key(KeyEvent::new(KeyCode::Char('c'), KeyModifiers::control())),
        Some(Action::Quit)
    );
    assert!(normal_key_help_lines()
        .iter()
        .any(|line| line.contains("P profile") && line.contains("N notifications")));
}

#[test]
fn menu_sections_wrap_in_both_directions() {
    let mut state = MenuState::settings();
    state.next();
    assert_eq!(state.section, MenuSection::Keys);
    state.previous();
    assert_eq!(state.section, MenuSection::Settings);
    assert_eq!(MenuSection::Feeds.label(), "Feeds");
}

#[test]
fn refresh_stops_at_the_current_top_and_skips_pending_posts() {
    let current = vec![ViewItem::from(item("top", "top"))];
    let pending = vec![item("a", "a")];
    let refreshed = vec![item("a", "a"), item("b", "b"), item("b", "b"), item("top", "top"), item("c", "c")];
    let new_items = new_items_before_current(&current, &pending, refreshed);
    assert_eq!(
        new_items.iter().map(|item| item.uri.as_str()).collect::<Vec<_>>(),
        vec!["b"]
    );
}

#[test]
fn link_picker_moves_within_its_links() {
    let mut picker = LinkPickerState::new(vec![link("https://one.test"), link("https://two.test")]);
    picker.previous();
    assert_eq!(picker.selected, 0);
    picker.next();
    picker.next();
    assert_eq!(picker.selected, 1);
    assert_eq!(picker.selected_link().map(|l| l.uri.as_str()), Some("https://two.test"));
    let empty = LinkPickerState::new(Vec::new());
    assert!(empty.selected_link().is_none());
}

#[test]
fn composer_titles_and_post_refs() {
    let post = ComposerState { kind: ComposerKind::Post, buffer: String::new() };
    assert_eq!(post.title(), "New Post");
    let quote = ComposerState {
        kind: ComposerKind::Quote {
            quote: PostRef { uri: "u".into(), cid: "c".into() },
            quote_handle: "bob.test".into(),
        },
        buffer: String::new(),
    };
    assert_eq!(quote.title(), "Quote Post");

    let mut with_cid = item("at://post", "x");
    assert_eq!(post_ref_from_item(&with_cid), None);
    with_cid.cid = Some("cid1".into());
    assert_eq!(
        post_ref_from_item(&with_cid),
        Some(PostRef { uri: "at://post".into(), cid: "cid1".into() })
    );
}

#[test]
fn thread_actions_name_their_root_and_status() {
    let open = ThreadAction::OpenThread {
        selected_uri: "at://x".into(),
        title: "Thread".into(),
        kind: ViewKind::Thread { root_uri: "at://x".into() },
    };
    assert_eq!(open.root_uri(), "at://x");
    assert_eq!(open.loading_status(), "Loading thread");
    let reload = ThreadAction::Reload { root_uri: "at://r".into(), selected_uri: None };
    assert_eq!(reload.root_uri(), "at://r");
    assert_eq!(reload.loading_status(), "Refreshing view");
}

fn notification(target: at_tui::model::NotificationTarget) -> at_tui::model::NotificationItem {
    at_tui::model::NotificationItem {
        uri: "at://did:plc:bob/app.bsky.notification/1".into(),
        cid: "cid".into(),
        author_did: Some("did:plc:bob".into()),
        author_name: "Bob".into(),
        author_handle: "bob.test".into(),
        author_following_uri: None,
        reason: at_tui::model::NotificationReason::Like,
        reason_subject: None,
        text: "notification text".into(),
        indexed_at: "2026-05-22T00:00:00Z".into(),
        is_read: false,
        target,
    }
}

fn nav_with_items(items: Vec<FeedItem>) -> at_tui::navigation::NavigationStack {
    at_tui::navigation::NavigationStack::new(at_tui::navigation::ViewState::new(
        "Following",
        ViewKind::Timeline,
        items,
    ))
}

#[test]
fn status_messages_expire() {
    let status = "Loaded 1 new post";
    let set_at = 1_000u64;
    let expires_at = Some(set_at + 2_000);

    assert_eq!(
        at_tui::app::visible_status(status, expires_at, set_at),
        Some("Loaded 1 new post")
    );
    assert_eq!(at_tui::app::visible_status(status, expires_at, set_at + 3_000), None);
    assert_eq!(at_tui::app::visible_status("", expires_at, set_at), None);
}

#[test]
fn selected_author_actor_prefers_did_for_profile_navigation() {
    let mut post = item("post", "hello");
    post.author_did = Some("did:plc:alice".into());
    post.author_handle = "alice.test".into();
    let nav = nav_with_items(vec![post]);

    assert_eq!(
        at_tui::app::selected_author_actor(nav.current()),
        Some(("did:plc:alice".into(), "alice.test".into()))
    );
}

#[test]
fn selected_author_actor_falls_back_to_handle() {
    let mut post = item("post", "hello");
    post.author_did = Some(String::new());
    let nav = nav_with_items(vec![post]);
    assert_eq!(
        at_tui::app::selected_author_actor(nav.current()),
        Some(("alice.test".into(), "alice.test".into()))
    );
}

#[test]
fn profile_loaded_pushes_profile_view_with_header_and_posts() {
    let mut nav = nav_with_items(vec![item("post", "hello")]);

    let status = at_tui::app::apply_profile_loaded(
        &mut nav,
        "did:plc:bob".into(),
        Ok(at_tui::app::ProfileLoadData {
            profile: at_tui::model::ProfileSummary {
                did: "did:plc:bob".into(),
                handle: "bob.test".into(),
                display_name: "Bob".into(),
                description: Some("profile text".into()),
                avatar_url: None,
                banner_url: None,
                viewer_following: None,
                followers_count: 1,
                follows_count: 2,
                posts_count: 3,
            },
            items: vec![item("bob-post", "bob text")],
            cursor: Some("next".into()),
        }),
    );

    assert!(matches!(
        nav.current().kind,
        ViewKind::Profile { ref actor } if actor == "did:plc:bob"
    ));
    assert_eq!(
        nav.current().profile.as_ref().map(|profile| profile.handle.as_str()),
        Some("bob.test")
    );
    assert_eq!(nav.current().items.len(), 1);
    assert_eq!(nav.current().cursor.as_deref(), Some("next"));
    assert_eq!(nav.current().title, "Profile @bob.test");
    assert_eq!(status, "Profile loaded");
    assert_eq!(nav.depth(), 2);

    let failed = at_tui::app::apply_profile_loaded(&mut nav, "x".into(), Err("offline".into()));
    assert_eq!(failed, "Profile load failed: offline");
    assert_eq!(nav.depth(), 2);
}

#[test]
fn notifications_loaded_pushes_view_and_clears_unread_after_seen_update() {
    let mut nav = nav_with_items(vec![item("post", "hello")]);
    let mut unread = 4u64;

    let (status, seen) = at_tui::app::apply_notifications_loaded(
        &mut nav,
        &mut unread,
        Ok(at_tui::app::NotificationsLoadData {
            items: vec![notification(at_tui::model::NotificationTarget::Post {
                uri: "post".into(),
            })],
            cursor: Some("next".into()),
            seen_updated: true,
            seen_error: None,
        }),
    );

    assert!(matches!(nav.current().kind, ViewKind::Notifications));
    assert_eq!(unread, 0);
    assert!(seen);
    assert_eq!(status, "Notifications loaded");
    assert_eq!(nav.current().cursor.as_deref(), Some("next"));
    assert!(matches!(nav.current().items.first(), Some(ViewItem::Notification(_))));
}

#[test]
fn notifications_seen_update_failure_leaves_unread_count() {
    let mut nav = nav_with_items(vec![item("post", "hello")]);
    let mut unread = 4u64;

    let (status, seen) = at_tui::app::apply_notifications_loaded(
        &mut nav,
        &mut unread,
        Ok(at_tui::app::NotificationsLoadData {
            items: vec![notification(at_tui::model::NotificationTarget::Profile {
                actor: "did:plc:bob".into(),
            })],
            cursor: None,
            seen_updated: false,
            seen_error: Some("network".into()),
        }),
    );

    assert!(matches!(nav.current().kind, ViewKind::Notifications));
    assert_eq!(unread, 4);
    assert!(!seen);
    assert!(status.contains("seen update failed"));
    assert_eq!(status, "Notifications loaded; seen update failed: network");
}

#[test]
fn search_keys_edit_submit_and_cancel_the_query() {
    let mut buffer = String::new();
    let press = |code: KeyCode| KeyEvent::new(code, KeyModifiers::none());

    assert_eq!(handle_search_key(&mut buffer, press(KeyCode::Char('n'))), SearchStep::Edit);
    assert_eq!(
        handle_search_key(&mut buffer, KeyEvent::new(KeyCode::Char('E'), KeyModifiers::shift())),
        SearchStep::Edit
    );
    assert_eq!(
        handle_search_key(&mut buffer, KeyEvent::new(KeyCode::Char('x'), KeyModifiers::control())),
        SearchStep::Edit
    );
    assert_eq!(buffer, "nE");
    assert_eq!(handle_search_key(&mut buffer, press(KeyCode::Backspace)), SearchStep::Edit);
    assert_eq!(buffer, "n");
    assert_eq!(handle_search_key(&mut buffer, press(KeyCode::Enter)), SearchStep::Submit("n".into()));
    assert_eq!(handle_search_key(&mut buffer, press(KeyCode::Esc)), SearchStep::Cancel);
}

#[test]
fn opening_the_selected_row_picks_a_thread_or_a_profile() {
    let nav = nav_with_items(vec![item("at://post/1", "hello")]);
    assert_eq!(
        selected_target(nav.current()),
        SelectedTarget::Thread(ThreadAction::OpenThread {
            selected_uri: "at://post/1".into(),
            title: "Thread @alice.test".into(),
            kind: ViewKind::Thread { root_uri: "at://post/1".into() },
        })
    );

    let rows = vec![
        ViewItem::Notification(Box::new(notification(at_tui::model::NotificationTarget::Profile {
            actor: "did:plc:bob".into(),
        }))),
        ViewItem::Notification(Box::new(notification(at_tui::model::NotificationTarget::NoTarget))),
    ];
    let mut view = at_tui::navigation::ViewState::from_rows("Notifications", ViewKind::Notifications, rows);
    assert_eq!(selected_target(&view), SelectedTarget::Profile("did:plc:bob".into()));
    view.selected = 1;
    assert_eq!(selected_target(&view), SelectedTarget::NoTarget);
    view.selected = 5;
    assert_eq!(selected_target(&view), SelectedTarget::Nothing);
}

#[test]
fn reloading_depends_on_the_view() {
    let nav = nav_with_items(vec![item("a", "a")]);
    assert_eq!(reload_plan(nav.current()), ReloadPlan::Feed);
    let thread = at_tui::navigation::ViewState::new(
        "Thread",
        ViewKind::Thread { root_uri: "root".into() },
        vec![item("root", "r"), item("reply", "x")],
    );
    assert_eq!(
        reload_plan(&thread),
        ReloadPlan::Thread(ThreadAction::Reload { root_uri: "root".into(), selected_uri: Some("root".into()) })
    );
    let profile =
        at_tui::navigation::ViewState::new("Profile", ViewKind::Profile { actor: "did:plc:bob".into() }, Vec::new());
    assert_eq!(reload_plan(&profile), ReloadPlan::Profile("did:plc:bob".into()));
}

#[test]
fn toggling_needs_a_post_with_a_cid_and_reuses_the_viewer_record() {
    assert_eq!(toggle_plan(None, false), Err("No selected post"));
    let mut post = item("at://post/1", "hello");
    assert_eq!(toggle_plan(Some(&post), true), Err("Selected post is missing a CID; cannot repost"));
    post.cid = Some("cid1".into());
    post.viewer_like = Some("at://like/1".into());
    let like = toggle_plan(Some(&post), false).unwrap();
    assert_eq!(like.subject, PostRef { uri: "at://post/1".into(), cid: "cid1".into() });
    assert_eq!(like.existing.as_deref(), Some("at://like/1"));
    assert_eq!(toggle_plan(Some(&post), true).unwrap().existing, None);
}

#[test]
fn a_quote_without_a_uri_is_shown_from_the_post() {
    let mut post = item("at://post/1", "hello");
    assert_eq!(quote_plan(Some(post.clone())), QuotePlan::NoQuote);
    let quote = at_tui::model::QuotePost {
        uri: String::new(),
        cid: None,
        author_name: "Bob".into(),
        author_handle: "bob.test".into(),
        text: "quoted".into(),
        indexed_at: None,
        images: Vec::new(),
        videos: Vec::new(),
        external: None,
        links: Vec::new(),
        nested_quote: None,
    };
    post.quote = Some(quote.clone());
    match quote_plan(Some(post.clone())) {
        QuotePlan::Preview(shown) => {
            assert_eq!(shown.text, "quoted");
            assert_eq!(shown.author_handle, "bob.test");
        }
        other => panic!("expected a preview, got {other:?}"),
    }
    let linked = at_tui::model::QuotePost { uri: "at://quoted/1".into(), ..quote };
    post.quote = Some(linked.clone());
    assert_eq!(quote_plan(Some(post)), QuotePlan::Load(ThreadAction::OpenQuote { quote: Box::new(linked) }));
}

#[test]
fn following_changes_only_posts_and_headers_of_that_account() {
    let mut bob_post = item("at://bob/1", "hi");
    bob_post.author_did = Some("did:plc:bob".into());
    let alice_post = item("at://alice/1", "hey");
    let record = Some("at://follow/1".to_owned());

    let followed = apply_follow(bob_post.clone(), "did:plc:bob", &record);
    assert_eq!(followed.author_following, Some(true));
    assert_eq!(followed.author_following_uri.as_deref(), Some("at://follow/1"));
    assert_eq!(apply_follow(alice_post.clone(), "did:plc:bob", &record), alice_post);
    let unfollowed = apply_follow(followed, "did:plc:bob", &None);
    assert_eq!(unfollowed.author_following, Some(false));
    assert_eq!(unfollowed.author_following_uri, None);

    let header = at_tui::model::ProfileSummary {
        did: "did:plc:bob".into(),
        handle: "bob.test".into(),
        display_name: "Bob".into(),
        description: None,
        avatar_url: None,
        banner_url: None,
        viewer_following: None,
        followers_count: 1,
        follows_count: 2,
        posts_count: 3,
    };
    assert_eq!(
        apply_profile_follow(header.clone(), "did:plc:bob", &record).viewer_following.as_deref(),
        Some("at://follow/1")
    );
    assert_eq!(apply_profile_follow(header.clone(), "did:plc:carol", &record), header);
}

#[test]
fn follow_and_delete_need_the_right_post() {
    assert_eq!(follow_plan(None), Err("No selected post"));
    let mut post = item("at://bob/1", "hi");
    assert_eq!(follow_plan(Some(&post)), Err("Selected author has no DID"));
    post.author_did = Some("did:plc:bob".into());
    post.author_following_uri = Some("at://follow/1".into());
    assert_eq!(
        follow_plan(Some(&post)),
        Ok(FollowPlan {
            did: "did:plc:bob".into(),
            handle: "alice.test".into(),
            existing: Some("at://follow/1".into()),
        })
    );

    assert_eq!(delete_plan(None, "did:plc:me"), Err("No selected post"));
    assert_eq!(delete_plan(Some(&post), "did:plc:me"), Err("You can only delete your own posts"));
    assert_eq!(delete_plan(Some(&post), "did:plc:bob"), Ok("at://bob/1".to_owned()));
}

#[test]
fn liking_then_unliking_and_reposting_then_unreposting_restore_the_post() {
    let mut post = item("at://post/1", "hello");
    post.like_count = 5;
    post.repost_count = 2;
    let liked = at_tui::app::apply_like(post.clone(), "at://post/1", true, &Some("at://like/1".into()));
    assert_eq!(liked.like_count, 6);
    assert_eq!(at_tui::app::apply_like(liked, "at://post/1", false, &None), post);
    let reposted = at_tui::app::apply_repost(post.clone(), "at://post/1", true, &Some("at://repost/1".into()));
    assert_eq!(reposted.repost_count, 3);
    assert_eq!(at_tui::app::apply_repost(reposted, "at://post/1", false, &None), post);
}

#[test]
fn normal_actions_follow_the_documented_keys() {
    let key = |c| KeyEvent::new(KeyCode::Char(c), KeyModifiers::none());
    assert_eq!(normal_action_for_key(key('u')), Some(Action::LoadPending));
    assert_eq!(normal_action_for_key(key('o')), Some(Action::OpenLinks));
    assert_eq!(normal_action_for_key(key('e')), Some(Action::OpenQuote));
    assert_eq!(normal_action_for_key(key('r')), Some(Action::ComposeReply));
    assert_eq!(normal_action_for_key(key('R')), Some(Action::Reload));
    assert_eq!(normal_action_for_key(key('f')), Some(Action::ToggleLike));
    assert_eq!(normal_action_for_key(key('b')), Some(Action::ToggleRepost));
    assert_eq!(normal_action_for_key(key('F')), Some(Action::ToggleFollow));
    assert_eq!(normal_action_for_key(key('q')), Some(Action::BackOrQuit));
    assert_eq!(normal_action_for_key(key('x')), None);
}

#[test]
fn notification_count_counts_only_for_the_asking_account() {
    let mut unread = 3u64;
    assert!(!apply_notification_count(&mut unread, "did:plc:a", "did:plc:b", Ok(9)));
    assert_eq!(unread, 3);
    assert!(apply_notification_count(&mut unread, "did:plc:a", "did:plc:a", Ok(9)));
    assert_eq!(unread, 9);
    assert!(apply_notification_count(&mut unread, "did:plc:a", "did:plc:a", Err("offline".into())));
    assert_eq!(unread, 0);
}
