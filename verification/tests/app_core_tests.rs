use at_tui::app::{
    apply_delete_completed, apply_event, apply_follow_completed, apply_thread_loaded, apply_write_result, ClientState, ViewEvent, check_post_text, cycle_index, handle_overlay_key,
    links_choice, media_overlay_for, merge_pending_new_items, quote_composer_for,
    reply_composer_for, should_load_more, ComposeError, ComposerKind, ComposerState,
    LinkPickerState, LinksChoice, MediaOverlayState, MenuSection, MenuState, Overlay,
    OverlayCommand, PendingRequests, RequestKind, ThreadAction, WriteResult,
};
use at_tui::keymap::{KeyCode, KeyEvent, KeyModifiers};
use at_tui::media::{PreviewImage, PreviewImageSource, PreviewMedia, PreviewVideo};
use at_tui::model::{FeedItem, FeedSource, ImageRef, LinkRef, LinkSource, PostRef, QuotePost};
use at_tui::navigation::{NavigationStack, ViewKind, ViewState};

fn item(uri: &str, text: &str) -> FeedItem {
    FeedItem {
        uri: uri.into(),
        cid: None,
        viewer_like: None,
        viewer_repost: None,
        author_did: None,
        author_name: "Alice".into(),
        author_handle: "alice.test".into(),
        author_following: None,
        author_following_uri: None,
        avatar_url: None,
        text: text.into(),
        indexed_at: None,
        reply_count: 0,
        repost_count: 0,
        like_count: 0,
        quote_count: 0,
        images: Vec::new(),
        videos: Vec::new(),
        external: None,
        links: Vec::new(),
        quote: None,
        reason: None,
        reply: None,
        reply_root: None,
        embed_status: None,
        depth: 0,
    }
}

fn key(code: KeyCode) -> KeyEvent {
    KeyEvent::new(code, KeyModifiers::none())
}

fn nav_with(items: Vec<FeedItem>) -> NavigationStack {
    NavigationStack::new(ViewState::new("Following", ViewKind::Timeline, items))
}

fn link(uri: &str) -> LinkRef {
    LinkRef { uri: uri.into(), label: uri.into(), source: LinkSource::Text }
}

fn client_state(items: Vec<FeedItem>) -> ClientState {
    ClientState {
        nav: nav_with(items),
        pending_new_items: Vec::new(),
        unread_notifications: 0,
        requests: PendingRequests::new(),
        feeds: vec![FeedSource::home()],
        active_feed: 0,
    }
}

#[test]
fn stale_pagination_event_is_ignored() {
    let mut state = client_state(vec![item("original", "hello")]);
    state.requests.pagination = Some(2);

    let outcome = apply_event(
        &mut state,
        "did:plc:alice",
        ViewEvent::PageLoaded {
            request_id: 1,
            source: FeedSource::home(),
            result: Ok((vec![item("stale", "stale")], None)),
        },
    );

    assert_eq!(state.nav.current().items.len(), 1);
    assert_eq!(state.nav.current().items[0].uri(), "original");
    assert_eq!(outcome.status, None);
    assert_eq!(state.requests.pagination, Some(2));
}

#[test]
fn stale_notification_count_events_are_ignored() {
    let mut state = client_state(vec![item("post", "hello")]);
    state.requests.notification_count = Some(2);

    apply_event(
        &mut state,
        "did:plc:alice",
        ViewEvent::NotificationCountLoaded { request_id: 1, account_did: "did:plc:alice".into(), result: Ok(5) },
    );

    assert_eq!(state.unread_notifications, 0);
    assert_eq!(state.requests.notification_count, Some(2));

    apply_event(
        &mut state,
        "did:plc:alice",
        ViewEvent::NotificationCountLoaded { request_id: 2, account_did: "did:plc:other".into(), result: Ok(5) },
    );

    assert_eq!(state.unread_notifications, 0);

    state.requests.notification_count = Some(3);
    apply_event(
        &mut state,
        "did:plc:alice",
        ViewEvent::NotificationCountLoaded { request_id: 3, account_did: "did:plc:alice".into(), result: Ok(7) },
    );

    assert_eq!(state.unread_notifications, 7);
}

#[test]
fn awaited_page_is_applied_and_no_longer_awaited() {
    let mut state = client_state(vec![item("a", "a")]);
    state.requests.pagination = Some(4);
    let outcome = apply_event(
        &mut state,
        "did:plc:alice",
        ViewEvent::PageLoaded { request_id: 4, source: FeedSource::home(), result: Ok((vec![item("b", "b")], None)) },
    );
    assert_eq!(outcome.status.as_deref(), Some("Loaded more timeline posts"));
    assert_eq!(state.nav.current().items.len(), 2);
    assert_eq!(state.requests.pagination, None);
}

#[test]
fn stale_feed_and_account_replies_change_nothing() {
    let mut state = client_state(vec![item("a", "a")]);
    state.requests.feed = Some(9);
    state.requests.account = Some(3);
    let outcome = apply_event(
        &mut state,
        "did:plc:alice",
        ViewEvent::FeedLoaded { request_id: 8, source: FeedSource::home(), result: Err("late".into()) },
    );
    assert_eq!(outcome.status, None);
    assert_eq!(outcome.network_ok, None);
    assert_eq!(state.nav.current().error, None);
    assert!(!apply_event(&mut state, "did:plc:alice", ViewEvent::AccountLoaded { request_id: 2 }).account_accepted);
    assert!(apply_event(&mut state, "did:plc:alice", ViewEvent::AccountLoaded { request_id: 3 }).account_accepted);
    assert_eq!(state.requests.account, None);
}

#[test]
fn pending_task_label_survives_expired_status() {
    let mut pending = PendingRequests::new();
    assert_eq!(pending.pending_task_label(), None);
    pending.feed = Some(1);
    assert_eq!(pending.pending_task_label(), Some("Loading feed"));
    pending.account = Some(2);
    assert_eq!(pending.pending_task_label(), Some("Switching account"));
    let mut writing = PendingRequests::new();
    writing.begin_write();
    assert_eq!(writing.pending_task_label(), Some("Writing"));
    assert!(writing.has_pending_tasks());
    writing.end_write();
    writing.end_write();
    assert_eq!(writing.writes, 0);
}

#[test]
fn composer_rejects_empty_post_without_closing() {
    assert_eq!(check_post_text("   "), Err(ComposeError::Empty));
    assert_eq!(ComposeError::Empty.message(), "Post text is empty");
    assert_eq!(check_post_text("  hello \n"), Ok("hello".to_owned()));
    let long = "x".repeat(301);
    assert_eq!(check_post_text(&long), Err(ComposeError::TooLong));
    assert_eq!(check_post_text(&"é".repeat(300)).map(|t| t.chars().count()), Ok(300));
}

#[test]
fn link_picker_opens_for_multiple_links() {
    let mut post = item("post", "hello");
    post.links = vec![link("https://one.test"), link("https://two.test")];
    match links_choice(Some(&post)) {
        LinksChoice::Pick(picker) => assert_eq!(picker.links.len(), 2),
        other => panic!("expected the picker, got {other:?}"),
    }
    post.links = vec![link("https://one.test")];
    match links_choice(Some(&post)) {
        LinksChoice::Open(l) => assert_eq!(l.uri, "https://one.test"),
        other => panic!("expected one link, got {other:?}"),
    }
}

#[test]
fn link_picker_reports_no_links() {
    assert!(matches!(links_choice(Some(&item("post", "hello"))), LinksChoice::NoLinks));
    assert!(matches!(links_choice(None), LinksChoice::NoPost));
}

#[test]
fn media_overlay_needs_media() {
    assert_eq!(media_overlay_for(None).unwrap_err(), "No selected post");
    assert_eq!(media_overlay_for(Some(&item("p", "x"))).unwrap_err(), "No media on selected post");
    let mut post = item("p", "x");
    post.images.push(ImageRef { thumb_url: "t".into(), fullsize_url: None, alt: None });
    let overlay = media_overlay_for(Some(&post)).unwrap();
    assert_eq!(overlay.media.len(), 1);
    assert_eq!(overlay.selected, 0);
}

#[test]
fn reply_and_quote_composers_need_a_cid() {
    let mut post = item("at://post", "x");
    assert_eq!(reply_composer_for(Some(&post)).unwrap_err(), "Selected post is missing a CID; cannot reply");
    assert_eq!(quote_composer_for(Some(&post)).unwrap_err(), "Selected post is missing a CID; cannot quote");
    post.cid = Some("cid".into());
    let reply = reply_composer_for(Some(&post)).unwrap();
    match reply.kind {
        ComposerKind::Reply { root, parent, parent_handle } => {
            assert_eq!(root, parent);
            assert_eq!(parent.uri, "at://post");
            assert_eq!(parent_handle, "alice.test");
        }
        other => panic!("unexpected {other:?}"),
    }
    post.reply_root = Some(PostRef { uri: "at://root".into(), cid: "rootcid".into() });
    match reply_composer_for(Some(&post)).unwrap().kind {
        ComposerKind::Reply { root, .. } => assert_eq!(root.uri, "at://root"),
        other => panic!("unexpected {other:?}"),
    }
    match quote_composer_for(Some(&post)).unwrap().kind {
        ComposerKind::Quote { quote, quote_handle } => {
            assert_eq!(quote.cid, "cid");
            assert_eq!(quote_handle, "alice.test");
        }
        other => panic!("unexpected {other:?}"),
    }
}

#[test]
fn menu_keys_close_move_and_switch() {
    let mut overlay = Some(Overlay::Menu(MenuState::default()));
    assert_eq!(handle_overlay_key(&mut overlay, key(KeyCode::Char('j'))), OverlayCommand::Nothing);
    assert_eq!(overlay, Some(Overlay::Menu(MenuState { section: MenuSection::Accounts })));
    assert_eq!(handle_overlay_key(&mut overlay, key(KeyCode::Tab)), OverlayCommand::SwitchAccount(1));
    assert_eq!(handle_overlay_key(&mut overlay, key(KeyCode::Char('['))), OverlayCommand::SwitchFeed(-1));
    assert_eq!(handle_overlay_key(&mut overlay, key(KeyCode::Esc)), OverlayCommand::Close);
    assert_eq!(overlay, None);
    assert_eq!(handle_overlay_key(&mut overlay, key(KeyCode::Esc)), OverlayCommand::Nothing);
}

#[test]
fn composer_keys_edit_and_submit() {
    let mut overlay = Some(Overlay::Composer(ComposerState { kind: ComposerKind::Post, buffer: String::new() }));
    handle_overlay_key(&mut overlay, key(KeyCode::Char('h')));
    handle_overlay_key(&mut overlay, KeyEvent::new(KeyCode::Char('I'), KeyModifiers::shift()));
    handle_overlay_key(&mut overlay, key(KeyCode::Enter));
    handle_overlay_key(&mut overlay, KeyEvent::new(KeyCode::Char('x'), KeyModifiers::control()));
    handle_overlay_key(&mut overlay, key(KeyCode::Char('!')));
    handle_overlay_key(&mut overlay, key(KeyCode::Backspace));
    let submitted = handle_overlay_key(&mut overlay, KeyEvent::new(KeyCode::Char('s'), KeyModifiers::control()));
    let expected = ComposerState { kind: ComposerKind::Post, buffer: "hI\n".into() };
    assert_eq!(submitted, OverlayCommand::SubmitComposer(Some(expected.clone())));
    assert_eq!(overlay, Some(Overlay::Composer(expected)));
}

#[test]
fn media_keys_play_videos_only() {
    let video = PreviewVideo {
        playlist_url: "https://v.test/p.m3u8".into(),
        thumb_url: None,
        alt: None,
        source: PreviewImageSource::Post,
        cid: None,
        aspect_ratio: None,
    };
    let image = PreviewImage { url: "https://i.test/a.png".into(), thumb_url: None, alt: None, source: PreviewImageSource::Post };
    let mut overlay = Some(Overlay::Media(MediaOverlayState::new(vec![
        PreviewMedia::Image(image),
        PreviewMedia::Video(video.clone()),
    ])));
    assert_eq!(handle_overlay_key(&mut overlay, key(KeyCode::Char('p'))), OverlayCommand::PlayVideo(None));
    assert_eq!(handle_overlay_key(&mut overlay, key(KeyCode::Char('u'))), OverlayCommand::OpenUri(None));
    handle_overlay_key(&mut overlay, key(KeyCode::Right));
    assert_eq!(handle_overlay_key(&mut overlay, key(KeyCode::Enter)), OverlayCommand::PlayVideo(Some(video)));
    match &overlay {
        Some(Overlay::Media(state)) => assert!(state.playing),
        other => panic!("unexpected {other:?}"),
    }
    assert_eq!(
        handle_overlay_key(&mut overlay, key(KeyCode::Char('u'))),
        OverlayCommand::OpenUri(Some("https://v.test/p.m3u8".into()))
    );
    assert_eq!(handle_overlay_key(&mut overlay, key(KeyCode::Char(' '))), OverlayCommand::Close);
}

#[test]
fn link_picker_keys_open_the_selected_link() {
    let mut overlay = Some(Overlay::Links(LinkPickerState::new(vec![link("https://a.test"), link("https://b.test")])));
    handle_overlay_key(&mut overlay, key(KeyCode::Down));
    assert_eq!(
        handle_overlay_key(&mut overlay, key(KeyCode::Enter)),
        OverlayCommand::OpenLink(Some(link("https://b.test")))
    );
}

#[test]
fn feed_switching_wraps_around() {
    assert_eq!(cycle_index(0, -1, 3), 2);
    assert_eq!(cycle_index(2, 1, 3), 0);
    assert_eq!(cycle_index(1, -7, 3), 0);
    assert_eq!(cycle_index(0, isize::MIN, 5), 2);
}

#[test]
fn loads_more_near_the_end_of_the_timeline() {
    let mut view = ViewState::new("Following", ViewKind::Timeline, vec![item("a", "a"), item("b", "b")]);
    assert!(!should_load_more(&view));
    view.cursor = Some("next".into());
    assert!(should_load_more(&view));
    view.loading = true;
    assert!(!should_load_more(&view));
}

#[test]
fn pending_posts_merge_on_top() {
    let mut view = ViewState::new("Following", ViewKind::Timeline, vec![item("old", "old")]);
    view.selected = 0;
    let mut pending = vec![item("new1", "n"), item("new2", "n")];
    assert_eq!(merge_pending_new_items(&mut view, &mut pending, true), Some("Loaded 2 new posts".to_owned()));
    assert!(pending.is_empty());
    assert_eq!(view.items.len(), 3);
    assert_eq!(view.items[0].uri(), "new1");
    assert_eq!(merge_pending_new_items(&mut view, &mut pending, true), Some("No pending posts".to_owned()));
    assert_eq!(merge_pending_new_items(&mut view, &mut pending, false), None);
}

#[test]
fn thread_loads_open_views() {
    let mut nav = nav_with(vec![item("post", "hello")]);
    let status = apply_thread_loaded(
        &mut nav,
        ThreadAction::OpenThread { selected_uri: "b".into(), title: "Thread".into(), kind: ViewKind::Thread { root_uri: "a".into() } },
        Ok(vec![item("a", "a"), item("b", "b")]),
    );
    assert_eq!(status, "Thread loaded");
    assert_eq!(nav.depth(), 2);
    assert_eq!(nav.current().selected, 1);

    let status = apply_thread_loaded(
        &mut nav,
        ThreadAction::OpenThread { selected_uri: "b".into(), title: "Thread".into(), kind: ViewKind::Thread { root_uri: "a".into() } },
        Ok(Vec::new()),
    );
    assert_eq!(status, "No replies available");
    assert_eq!(nav.depth(), 2);

    let quote = QuotePost {
        uri: "q".into(),
        cid: None,
        author_name: "Bob".into(),
        author_handle: "bob.test".into(),
        text: "quoted".into(),
        indexed_at: None,
        images: Vec::new(),
        videos: Vec::new(),
        external: None,
        links: Vec::new(),
        nested_quote: None,
    };
    let status = apply_thread_loaded(&mut nav, ThreadAction::OpenQuote { quote: Box::new(quote) }, Err("offline".into()));
    assert_eq!(status, "Quote preview only: offline");
    assert_eq!(nav.current().title, "Quote @bob.test");
    assert_eq!(nav.current().items[0].uri(), "q");

    let status = apply_thread_loaded(
        &mut nav,
        ThreadAction::Reload { root_uri: "r".into(), selected_uri: Some("y".into()) },
        Ok(vec![item("x", "x"), item("y", "y")]),
    );
    assert_eq!(status, "View refreshed");
    assert_eq!(nav.current().selected, 1);
    assert_eq!(nav.current().title, "Quote @bob.test");
}

#[test]
fn write_results_update_every_view() {
    let mut nav = nav_with(vec![item("post", "hello"), item("other", "x")]);
    nav.push(ViewState::new("Thread", ViewKind::Thread { root_uri: "post".into() }, vec![item("post", "hello")]));
    let (status, refresh) = apply_write_result(
        &mut nav,
        Ok(WriteResult::Like { target_uri: "post".into(), liked: true, record_uri: Some("at://like".into()) }),
    );
    assert_eq!(status, "Liked post");
    assert!(!refresh);
    assert_eq!(nav.current().items[0].as_post().unwrap().like_count, 1);
    assert_eq!(nav.current().items[0].as_post().unwrap().viewer_like.as_deref(), Some("at://like"));
    nav.pop();
    assert_eq!(nav.current().items[0].as_post().unwrap().like_count, 1);
    assert_eq!(nav.current().items[1].as_post().unwrap().like_count, 0);

    let (status, _) = apply_write_result(
        &mut nav,
        Ok(WriteResult::Like { target_uri: "post".into(), liked: false, record_uri: None }),
    );
    assert_eq!(status, "Removed like");
    assert_eq!(nav.current().items[0].as_post().unwrap().like_count, 0);

    let (status, _) = apply_write_result(
        &mut nav,
        Ok(WriteResult::Repost { target_uri: "other".into(), reposted: true, record_uri: Some("at://rp".into()) }),
    );
    assert_eq!(status, "Reposted");
    assert_eq!(nav.current().items[1].as_post().unwrap().repost_count, 1);

    let (status, refresh) = apply_write_result(&mut nav, Ok(WriteResult::Posted { uri: "at://new".into() }));
    assert_eq!(status, "Posted at://new");
    assert!(refresh);
    let (status, _) = apply_write_result(&mut nav, Err("boom".into()));
    assert_eq!(status, "Write failed: boom");
}

#[test]
fn completed_follow_marks_the_authors_posts() {
    let mut post = item("p", "hello");
    post.author_did = Some("did:plc:bob".into());
    let mut nav = nav_with(vec![post, item("q", "other")]);
    let status = apply_follow_completed(&mut nav, "did:plc:bob", "bob.test", Ok(Some("at://follow/1".into())));
    assert_eq!(status, "Followed @bob.test");
    let first = nav.current().selected_item().unwrap();
    assert_eq!(first.author_following, Some(true));
    assert_eq!(first.author_following_uri.as_deref(), Some("at://follow/1"));
    let status = apply_follow_completed(&mut nav, "did:plc:bob", "bob.test", Ok(None));
    assert_eq!(status, "Unfollowed @bob.test");
    assert_eq!(nav.current().selected_item().unwrap().author_following, Some(false));
    assert_eq!(apply_follow_completed(&mut nav, "did:plc:bob", "bob.test", Err("401".into())), "Follow failed: 401");
}

#[test]
fn completed_delete_removes_the_post_from_every_view() {
    let mut nav = nav_with(vec![item("a", "a"), item("gone", "b")]);
    nav.push(ViewState::new("Thread", ViewKind::Thread { root_uri: "gone".into() }, vec![item("gone", "b")]));
    assert_eq!(apply_delete_completed(&mut nav, "gone", Err("500".into())), "Delete failed: 500");
    assert_eq!(nav.current().items.len(), 1);
    assert_eq!(apply_delete_completed(&mut nav, "gone", Ok(())), "Post deleted");
    assert!(nav.current().items.is_empty());
    nav.pop();
    assert_eq!(nav.current().items.len(), 1);
    assert_eq!(nav.current().items[0].uri(), "a");
}
