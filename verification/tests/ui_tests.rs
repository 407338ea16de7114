use at_tui::row_text::SpanStyle;
use at_tui::model::{FeedItem, FeedReason};
use at_tui::navigation::ViewKind;
use at_tui::ui::{
    age_label, compact_time, empty_view_text, engagement_summary, media_title,
    normal_status_text, reason_text, reason_text_at, status_height, truncate,
};

fn item() -> FeedItem {
    FeedItem {
        uri: "post".into(),
        cid: None,
        viewer_like: None,
        viewer_repost: None,
        author_did: None,
        author_name: "Alice".into(),
        author_handle: "alice.test".into(),
        author_following: None,
        author_following_uri: None,
        avatar_url: None,
        text: "hello".into(),
        indexed_at: None,
        reply_count: 2,
        repost_count: 3,
        like_count: 5,
        quote_count: 7,
        images: Vec::new(),
        videos: Vec::new(),
        external: None,
        links: Vec::new(),
        quote: None,
        reason: None,
        reply: None,
        reply_root: None,
        embed_status: None,
        depth: 0,
    }
}

#[test]
fn renders_unicode_engagement_summary() {
    assert_eq!(engagement_summary(&item()), "↩ 2  ⟳ 3  ♡ 5  ❞ 7");

    let mut liked = item();
    liked.viewer_like = Some("at://did:plc:viewer/app.bsky.feed.like/1".into());
    assert_eq!(engagement_summary(&liked), "↩ 2  ⟳ 3  ♥ 5  ❞ 7");
}

#[test]
fn renders_repost_reason_text() {
    let reason = FeedReason::Repost {
        by_name: "Alice".into(),
        by_handle: "alice.test".into(),
        indexed_at: None,
    };
    assert_eq!(reason_text(&reason), "⟳ @alice.test reposted");
}

#[test]
fn status_line_is_compact_and_has_no_footer_controls() {
    let text = normal_status_text("alice.test", "Following", "Loaded");

    assert_eq!(text, " @alice.test  Following  Loaded ");
    assert!(!text.contains('/'));
    assert!(!text.contains("j/k"));
    assert!(!text.contains("replies"));
    assert!(!text.contains("img:"));
}

#[test]
fn status_height_is_always_one_row() {
    assert_eq!(status_height(), 1);
}

#[test]
fn truncates_with_an_ellipsis() {
    assert_eq!(truncate("hello", 5), "hello");
    assert_eq!(truncate("hello world", 5), "hell…");
    assert_eq!(truncate("héllo wörld", 3), "hé…");
    assert_eq!(truncate("abc", 0), "…");
}

#[test]
fn media_title_names_position_source_and_alt() {
    assert_eq!(
        media_title("Image", 0, 2, "post", Some("a cat")),
        "Image 1/2 · post · a cat"
    );
    assert_eq!(media_title("Video", 1, 2, "quote", None), "Video 2/2 · quote");
}

#[test]
fn empty_views_say_what_is_missing() {
    assert_eq!(empty_view_text(&ViewKind::Notifications), "No notifications.");
    assert_eq!(empty_view_text(&ViewKind::Timeline), "No posts in this view.");
}

#[test]
fn ages_step_from_minutes_to_dates() {
    let second: i128 = 1_000_000_000;
    assert_eq!(age_label(59 * second, "2024-01-01"), "now");
    assert_eq!(age_label(-5 * second, "2024-01-01"), "now");
    assert_eq!(age_label(60 * second, "2024-01-01"), "1m");
    assert_eq!(age_label(3 * 3600 * second, "2024-01-01"), "3h");
    assert_eq!(age_label(13 * 86400 * second, "2024-01-01"), "13d");
    assert_eq!(age_label(14 * 86400 * second, "2024-01-01"), "2024-01-01");
}

#[test]
fn compact_time_keeps_unparsable_text_and_dates_old_posts() {
    assert_eq!(compact_time(None), "");
    assert_eq!(compact_time(Some("yesterday")), "yesterday");
    assert_eq!(compact_time(Some("2001-02-03T04:05:06Z")), "2001-02-03");
}

#[test]
fn pinned_and_timed_reposts() {
    assert_eq!(reason_text(&FeedReason::Pin), "⚑ pinned");
    let reason = FeedReason::Repost {
        by_name: "Bob".into(),
        by_handle: "bob.test".into(),
        indexed_at: None,
    };
    assert_eq!(reason_text_at(&reason, "3h"), "⟳ @bob.test reposted 3h");
}

#[test]
fn renders_notification_row_with_unread_marker() {
    let item = at_tui::model::NotificationItem {
        uri: "notification".into(),
        cid: "cid".into(),
        author_did: Some("did:plc:bob".into()),
        author_name: "Bob".into(),
        author_handle: "bob.test".into(),
        author_following_uri: None,
        reason: at_tui::model::NotificationReason::Reply,
        reason_subject: Some("at://did:plc:alice/app.bsky.feed.post/1".into()),
        text: "reply text".into(),
        indexed_at: "2026-05-22T00:00:00Z".into(),
        is_read: false,
        target: at_tui::model::NotificationTarget::Post {
            uri: "at://did:plc:alice/app.bsky.feed.post/1".into(),
        },
    };

    let time = at_tui::ui::compact_time(Some(&item.indexed_at));
    let text = at_tui::ui::notification_header(&item, true, &time);

    assert!(text.contains("● Bob @bob.test replied to you"));
    assert!(text.starts_with("> ● Bob"));
    let read = at_tui::model::NotificationItem { is_read: true, ..item };
    assert_eq!(
        at_tui::ui::notification_header(&read, false, "1h"),
        "    Bob @bob.test replied to you 1h"
    );
}

fn alice_profile(
    description: Option<&str>,
    viewer_following: Option<&str>,
) -> at_tui::model::ProfileSummary {
    at_tui::model::ProfileSummary {
        did: "did:plc:alice".into(),
        handle: "alice.test".into(),
        display_name: "Alice".into(),
        description: description.map(Into::into),
        avatar_url: None,
        banner_url: None,
        viewer_following: viewer_following.map(Into::into),
        followers_count: 1,
        follows_count: 2,
        posts_count: 3,
    }
}

#[test]
fn renders_profile_header_summary() {
    let profile = alice_profile(
        Some("profile text"),
        Some("at://did:plc:viewer/app.bsky.graph.follow/1"),
    );

    assert!(at_tui::ui::profile_title(&profile).contains("Alice @alice.test"));
    assert!(at_tui::ui::profile_stats(&profile, "did:plc:viewer")
        .contains("1 followers  2 following  3 posts  · following"));
}

#[test]
fn omits_profile_follow_state_for_active_account() {
    let profile = alice_profile(None, None);

    let text = at_tui::ui::profile_stats(&profile, "did:plc:alice");
    assert!(text.contains("1 followers  2 following  3 posts"));
    assert!(!text.contains("not following"));
    assert_eq!(
        at_tui::ui::profile_stats(&profile, "did:plc:viewer"),
        "1 followers  2 following  3 posts  · not following"
    );
}

fn row_times_none() -> at_tui::row_text::RowTimes {
    at_tui::row_text::RowTimes { post: String::new(), reason: String::new(), quote: String::new() }
}

fn engagement_spans(post: &FeedItem) -> Vec<(String, at_tui::row_text::SpanStyle)> {
    let lines = at_tui::row_text::post_lines(post, false, 80, &row_times_none());
    lines[lines.len() - 2].clone()
}

#[test]
fn styles_reposted_counter() {
    let mut post = item();
    post.viewer_repost = Some("at://did:plc:viewer/app.bsky.feed.repost/1".into());

    let line = engagement_spans(&post);

    assert_eq!(line[2].1, SpanStyle::Reposted);
    assert_eq!(line[2].0, "⟳ 3");
}

#[test]
fn styles_liked_counter() {
    let mut post = item();
    post.viewer_like = Some("at://did:plc:viewer/app.bsky.feed.like/1".into());

    let line = engagement_spans(&post);

    assert_eq!(line[4].0, "♥ 5");
    assert_eq!(line[4].1, SpanStyle::Liked);
    assert_eq!(engagement_spans(&item())[4].1, SpanStyle::Plain);
}

#[test]
fn wraps_and_styles_media_and_link_summaries() {
    let mut post = item();
    post.images = vec![at_tui::model::ImageRef {
        thumb_url: "https://example.com/thumb.jpg".into(),
        fullsize_url: Some("https://example.com/full.jpg".into()),
        alt: Some("a long image alt text that wraps cleanly".into()),
    }];
    post.videos = vec![at_tui::model::VideoRef {
        playlist_url: "https://example.com/video.m3u8".into(),
        thumb_url: None,
        alt: Some("a long video alt text that wraps cleanly".into()),
        cid: None,
        aspect_ratio: None,
    }];
    post.external = Some(at_tui::model::ExternalRef {
        uri: "https://example.com/article".into(),
        title: "Article title".into(),
        description: Some("a long external description that wraps cleanly".into()),
        thumb_url: None,
    });
    use_summary_lines(&post);
}

fn use_summary_lines(post: &FeedItem) {
    let lines: Vec<_> = at_tui::row_text::post_lines(post, false, 28, &row_times_none())
        .into_iter()
        .filter(|line| line.iter().any(|(_, style)| *style == SpanStyle::Media || *style == SpanStyle::Link))
        .collect();

    assert!(lines.len() > 3);
    assert!(lines.iter().all(|line| line.iter().map(|(text, _)| text.chars().count()).sum::<usize>() <= 28));
    assert!(lines.iter().any(|line| line.iter().any(|(_, style)| *style == SpanStyle::Media)));
    assert!(lines.iter().any(|line| line.iter().any(|(_, style)| *style == SpanStyle::Link)));
}

#[test]
fn post_rows_show_reason_reply_header_body_and_counters() {
    let mut post = item();
    post.reason = Some(FeedReason::Pin);
    post.depth = 1;
    let times = at_tui::row_text::RowTimes { post: "5m".into(), reason: String::new(), quote: String::new() };
    let lines = at_tui::row_text::post_lines(&post, true, 80, &times);
    let texts: Vec<String> = lines.iter().map(|line| line.iter().map(|(t, _)| t.as_str()).collect()).collect();
    assert_eq!(texts[0], "    ⚑ pinned");
    assert_eq!(texts[1], ">   Alice @alice.test 5m");
    assert_eq!(lines[1][0].1, SpanStyle::SelectedHeader);
    assert_eq!(texts[2], "    hello");
    assert_eq!(texts[3], "    ↩ 2  ⟳ 3  ♡ 5  ❞ 7");
    assert_eq!(texts[4], "");
    assert_eq!(texts.len(), 5);
}

#[test]
fn notification_rows_show_header_body_and_subject() {
    let item = at_tui::model::NotificationItem {
        uri: "n".into(),
        cid: "c".into(),
        author_did: None,
        author_name: "Bob".into(),
        author_handle: "bob.test".into(),
        author_following_uri: None,
        reason: at_tui::model::NotificationReason::Follow,
        reason_subject: None,
        text: "   ".into(),
        indexed_at: "".into(),
        is_read: true,
        target: at_tui::model::NotificationTarget::NoTarget,
    };
    let lines = at_tui::row_text::notification_lines(&item, false, 40, "2h");
    let texts: Vec<String> = lines.iter().map(|line| line.iter().map(|(t, _)| t.as_str()).collect()).collect();
    assert_eq!(texts, vec!["    Bob @bob.test followed you 2h".to_owned(), "  [no openable target]".to_owned(), String::new()]);
    assert_eq!(lines[0][0].1, SpanStyle::ReadHeader);
}

fn item_with_text(text: &str) -> FeedItem {
    FeedItem { text: text.into(), ..item() }
}

#[test]
fn reuses_layout_cache_for_same_width() {
    let mut view = at_tui::navigation::ViewState::new(
        "Timeline",
        ViewKind::Timeline,
        vec![item_with_text("one"), item_with_text("two")],
    );

    let _ = at_tui::row_text::visible_feed_lines(&mut view, 80, 10);
    let first_builds = view.layout_cache.builds;
    let _ = at_tui::row_text::visible_feed_lines(&mut view, 80, 10);

    assert_eq!(first_builds, 1);
    assert_eq!(view.layout_cache.builds, first_builds);

    let _ = at_tui::row_text::visible_feed_lines(&mut view, 40, 10);
    assert_eq!(view.layout_cache.builds, first_builds + 1);
}

#[test]
fn visible_feed_lines_fill_the_space_from_the_scroll_row() {
    let mut view = at_tui::navigation::ViewState::new(
        "Timeline",
        ViewKind::Timeline,
        vec![item_with_text("one"), item_with_text("two"), item_with_text("three")],
    );
    // Each row takes four lines: author, text, counters, blank.
    let lines = at_tui::row_text::visible_feed_lines(&mut view, 80, 6);
    assert_eq!(lines.len(), 6);
    assert_eq!(lines[0][0].1, SpanStyle::SelectedHeader);
    assert_eq!(lines[4][0].1, SpanStyle::Header);

    view.selected = 2;
    let lines = at_tui::row_text::visible_feed_lines(&mut view, 80, 6);
    // Rows one and two together take eight lines, so the view scrolls to row two.
    assert_eq!(view.scroll, 2);
    assert_eq!(lines.len(), 4);
    assert_eq!(lines[0][0].1, SpanStyle::SelectedHeader);

    let mut empty = at_tui::navigation::ViewState::new("Notifications", ViewKind::Notifications, Vec::new());
    let lines = at_tui::row_text::visible_feed_lines(&mut empty, 80, 6);
    assert_eq!(lines, vec![vec![("No notifications.".to_owned(), SpanStyle::Plain)]]);
}

#[test]
fn profile_header_lines_show_name_description_and_counters() {
    let profile = alice_profile(Some("profile text"), None);
    let lines = at_tui::row_text::profile_header_lines(&profile, 80, "did:plc:viewer");
    assert_eq!(lines.len(), 4);
    assert_eq!(lines[0], vec![("Alice @alice.test".to_owned(), SpanStyle::Header)]);
    assert_eq!(lines[1], vec![("profile text".to_owned(), SpanStyle::Plain)]);
    assert_eq!(lines[2][0].0, "1 followers  2 following  3 posts  · not following");
    assert!(lines[3].is_empty());
}
