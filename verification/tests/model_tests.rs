use at_tui::json::Json;
use at_tui::model::{
    feed_item_from_feed_entry, feed_item_from_post, feed_sources_for_account,
    feed_sources_from_preferences, item_links, thread_items, timeline_items, FeedReason,
    FeedSource, HomeFeedPrefs, LinkSource, PostRef, ReplyParentStatus, VideoRef,
};

fn convert(value: serde_json::Value) -> Json {
    match value {
        serde_json::Value::Null => Json::Null,
        serde_json::Value::Bool(b) => Json::Bool(b),
        serde_json::Value::Number(n) => Json::Number(n.as_u64()),
        serde_json::Value::String(s) => Json::String(s),
        serde_json::Value::Array(items) => Json::Array(items.into_iter().map(convert).collect()),
        serde_json::Value::Object(map) => {
            Json::Object(map.into_iter().map(|(k, v)| (k, convert(v))).collect())
        }
    }
}

fn json(text: &str) -> Json {
    convert(serde_json::from_str(text).expect("test JSON parses"))
}

#[test]
fn parses_plain_timeline_post() {
    let root = json(r#"{
        "cursor": "next",
        "feed": [{
            "post": {
                "uri": "at://did:plc:alice/app.bsky.feed.post/1",
                "cid": "cid1",
                "viewer": {
                    "like": "at://did:plc:viewer/app.bsky.feed.like/1",
                    "repost": "at://did:plc:viewer/app.bsky.feed.repost/1"
                },
                "author": {"handle": "alice.test", "displayName": "Alice"},
                "record": {
                    "text": "hello terminal",
                    "createdAt": "2026-05-22T00:00:00Z",
                    "reply": {
                        "root": {"uri": "at://did:plc:root/app.bsky.feed.post/1", "cid": "rootcid"}
                    }
                },
                "replyCount": 2,
                "repostCount": 3,
                "likeCount": 5,
                "quoteCount": 1,
                "indexedAt": "2026-05-22T00:01:00Z"
            }
        }]
    }"#);

    let (items, cursor) = timeline_items(&root, &HomeFeedPrefs::default());
    assert_eq!(cursor.as_deref(), Some("next"));
    assert_eq!(items.len(), 1);
    assert_eq!(items[0].author_name, "Alice");
    assert_eq!(items[0].text, "hello terminal");
    assert_eq!(items[0].reply_count, 2);
    assert_eq!(
        items[0].viewer_like.as_deref(),
        Some("at://did:plc:viewer/app.bsky.feed.like/1")
    );
    assert_eq!(
        items[0].viewer_repost.as_deref(),
        Some("at://did:plc:viewer/app.bsky.feed.repost/1")
    );
    assert_eq!(
        items[0].reply_root,
        Some(PostRef {
            uri: "at://did:plc:root/app.bsky.feed.post/1".into(),
            cid: "rootcid".into()
        })
    );
}

#[test]
fn parses_repost_reason() {
    let root = json(r#"{
        "feed": [{
            "post": {
                "uri": "at://did:plc:bob/app.bsky.feed.post/1",
                "author": {"handle": "bob.test"},
                "record": {"text": "reposted text"}
            },
            "reason": {
                "$type": "app.bsky.feed.defs#reasonRepost",
                "by": {"handle": "alice.test", "displayName": "Alice"},
                "indexedAt": "2026-05-22T00:02:00Z"
            }
        }]
    }"#);

    let (items, _) = timeline_items(&root, &HomeFeedPrefs::default());
    assert_eq!(
        items[0].reason,
        Some(FeedReason::Repost {
            by_name: "Alice".into(),
            by_handle: "alice.test".into(),
            indexed_at: Some("2026-05-22T00:02:00Z".into())
        })
    );
}

#[test]
fn parses_pinned_reason() {
    let entry = json(r#"{
        "post": {
            "uri": "at://did:plc:alice/app.bsky.feed.post/1",
            "author": {"handle": "alice.test"},
            "record": {"text": "pinned text"}
        },
        "reason": {"$type": "app.bsky.feed.defs#reasonPin"}
    }"#);

    let item = feed_item_from_feed_entry(&entry).unwrap();
    assert_eq!(item.reason, Some(FeedReason::Pin));
}

#[test]
fn parses_reply_context_with_parent_preview() {
    let root = json(r#"{
        "feed": [{
            "post": {
                "uri": "at://did:plc:carol/app.bsky.feed.post/reply",
                "author": {"handle": "carol.test", "viewer": {"following": "at://did:viewer/follow/1"}},
                "record": {"text": "reply text"},
                "likeCount": 4
            },
            "reply": {
                "root": {
                    "uri": "at://did:plc:alice/app.bsky.feed.post/root",
                    "author": {"handle": "alice.test"},
                    "record": {"text": "root text"}
                },
                "parent": {
                    "uri": "at://did:plc:bob/app.bsky.feed.post/parent",
                    "author": {"handle": "bob.test", "displayName": "Bob"},
                    "record": {"text": "parent text"}
                },
                "grandparentAuthor": {"handle": "alice.test"}
            }
        }]
    }"#);

    let (items, _) = timeline_items(&root, &HomeFeedPrefs::default());
    let reply = items[0].reply.as_ref().unwrap();
    assert_eq!(reply.root_uri, "at://did:plc:alice/app.bsky.feed.post/root");
    assert_eq!(reply.parent_author_name, "Bob");
    assert_eq!(reply.parent_author_handle, "bob.test");
    assert_eq!(reply.parent_text, "parent text");
    assert_eq!(
        reply.grandparent_author_handle.as_deref(),
        Some("alice.test")
    );
    assert_eq!(items[0].author_following, Some(true));
}

#[test]
fn parses_reply_context_with_blocked_parent() {
    let entry = json(r#"{
        "post": {
            "uri": "at://did:plc:carol/app.bsky.feed.post/reply",
            "author": {"handle": "carol.test"},
            "record": {"text": "reply text"}
        },
        "reply": {
            "root": {"uri": "at://did:plc:alice/app.bsky.feed.post/root", "notFound": true},
            "parent": {
                "uri": "at://did:plc:bob/app.bsky.feed.post/parent",
                "blocked": true,
                "author": {"did": "did:plc:bob"}
            }
        }
    }"#);

    let item = feed_item_from_feed_entry(&entry).unwrap();
    let reply = item.reply.unwrap();
    assert_eq!(reply.parent_author_handle, "blocked");
    assert_eq!(reply.parent_text, "[blocked post]");
    assert_eq!(reply.parent_status, Some(ReplyParentStatus::Blocked));
}

#[test]
fn parses_home_feed_preferences() {
    let root = json(r#"{
        "preferences": [
            {"$type": "app.bsky.actor.defs#feedViewPref", "feed": "other", "hideReplies": true},
            {
                "$type": "app.bsky.actor.defs#feedViewPref",
                "feed": "home",
                "hideReplies": true,
                "hideRepliesByUnfollowed": true,
                "hideRepliesByLikeCount": 3,
                "hideReposts": true,
                "hideQuotePosts": true
            }
        ]
    }"#);

    let prefs = HomeFeedPrefs::from_preferences_response(&root);
    assert!(prefs.hide_replies);
    assert!(prefs.hide_replies_by_unfollowed);
    assert_eq!(prefs.hide_replies_by_like_count, Some(3));
    assert!(prefs.hide_reposts);
    assert!(prefs.hide_quote_posts);
}

#[test]
fn parses_saved_feeds_pref_v2_and_ignores_lists() {
    let root = json(r#"{
        "preferences": [{
            "$type": "app.bsky.actor.defs#savedFeedsPrefV2",
            "items": [
                {
                    "type": "feed",
                    "value": "at://did:plc:alice/app.bsky.feed.generator/for-you",
                    "pinned": true
                },
                {
                    "type": "list",
                    "value": "at://did:plc:alice/app.bsky.graph.list/news"
                },
                {
                    "type": "feed",
                    "value": "at://did:plc:alice/app.bsky.feed.generator/for-you"
                }
            ]
        }]
    }"#);

    let sources = feed_sources_from_preferences(&root);

    assert_eq!(sources.len(), 2);
    assert_eq!(sources[0], FeedSource::home());
    assert_eq!(sources[1].label, "for-you");
    assert_eq!(
        sources[1].uri(),
        Some("at://did:plc:alice/app.bsky.feed.generator/for-you")
    );
}

#[test]
fn adds_author_feed_for_active_account() {
    let root = json(r#"{
        "preferences": [{
            "$type": "app.bsky.actor.defs#savedFeedsPrefV2",
            "items": [{
                "type": "feed",
                "value": "at://did:plc:alice/app.bsky.feed.generator/for-you"
            }]
        }]
    }"#);

    let sources = feed_sources_for_account(&root, "alice.test", "did:plc:alice");

    assert_eq!(sources.len(), 3);
    assert_eq!(sources[0], FeedSource::home());
    assert_eq!(
        sources[1],
        FeedSource::author("alice.test", "did:plc:alice")
    );
    assert_eq!(sources[2].label, "for-you");
}

#[test]
fn parses_legacy_saved_feed_preferences() {
    let root = json(r#"{
        "preferences": [{
            "$type": "app.bsky.actor.defs#savedFeedsPref",
            "pinned": [
                "at://did:plc:alice/app.bsky.feed.generator/news",
                "at://did:plc:alice/app.bsky.graph.list/list"
            ],
            "saved": [
                "at://did:plc:bob/app.bsky.feed.generator/science"
            ]
        }]
    }"#);

    let sources = feed_sources_from_preferences(&root);
    let labels = sources
        .iter()
        .map(|source| source.label.as_str())
        .collect::<Vec<_>>();

    assert_eq!(labels, vec!["Following", "news", "science"]);
}

#[test]
fn filters_timeline_with_home_preferences() {
    let root = json(r#"{
        "feed": [
            {
                "post": {"uri": "repost", "author": {"handle": "bob.test"}, "record": {"text": "repost"}},
                "reason": {"$type": "app.bsky.feed.defs#reasonRepost", "by": {"handle": "alice.test"}, "indexedAt": "2026-05-22T00:00:00Z"}
            },
            {
                "post": {"uri": "reply", "author": {"handle": "bob.test"}, "record": {"text": "reply"}, "likeCount": 0},
                "reply": {
                    "root": {"uri": "root", "author": {"handle": "alice.test"}, "record": {"text": "root"}},
                    "parent": {"uri": "parent", "author": {"handle": "alice.test"}, "record": {"text": "parent"}}
                }
            },
            {
                "post": {
                    "uri": "quote",
                    "author": {"handle": "bob.test"},
                    "record": {"text": "quote"},
                    "embed": {
                        "$type": "app.bsky.embed.record#view",
                        "record": {
                            "$type": "app.bsky.embed.record#viewRecord",
                            "uri": "quoted",
                            "author": {"handle": "alice.test"},
                            "value": {"text": "quoted"}
                        }
                    }
                }
            },
            {
                "post": {"uri": "normal", "author": {"handle": "bob.test"}, "record": {"text": "normal"}}
            }
        ]
    }"#);
    let prefs = HomeFeedPrefs {
        hide_replies: true,
        hide_reposts: true,
        hide_quote_posts: true,
        ..HomeFeedPrefs::default()
    };

    let (items, _) = timeline_items(&root, &prefs);
    assert_eq!(items.len(), 1);
    assert_eq!(items[0].uri, "normal");
}

#[test]
fn filters_replies_by_like_count_and_follow_state() {
    let root = json(r#"{
        "feed": [
            {
                "post": {
                    "uri": "unfollowed",
                    "author": {"handle": "bob.test", "viewer": {"following": null}},
                    "record": {"text": "reply"},
                    "likeCount": 10
                },
                "reply": {
                    "root": {"uri": "root", "author": {"handle": "alice.test"}, "record": {"text": "root"}},
                    "parent": {"uri": "parent", "author": {"handle": "alice.test"}, "record": {"text": "parent"}}
                }
            },
            {
                "post": {
                    "uri": "low-like",
                    "author": {"handle": "carol.test", "viewer": {"following": "at://follow"}},
                    "record": {"text": "reply"},
                    "likeCount": 1
                },
                "reply": {
                    "root": {"uri": "root", "author": {"handle": "alice.test"}, "record": {"text": "root"}},
                    "parent": {"uri": "parent", "author": {"handle": "alice.test"}, "record": {"text": "parent"}}
                }
            },
            {
                "post": {
                    "uri": "kept",
                    "author": {"handle": "dana.test", "viewer": {"following": "at://follow"}},
                    "record": {"text": "reply"},
                    "likeCount": 5
                },
                "reply": {
                    "root": {"uri": "root", "author": {"handle": "alice.test"}, "record": {"text": "root"}},
                    "parent": {"uri": "parent", "author": {"handle": "alice.test"}, "record": {"text": "parent"}}
                }
            }
        ]
    }"#);
    let prefs = HomeFeedPrefs {
        hide_replies_by_unfollowed: true,
        hide_replies_by_like_count: Some(3),
        ..HomeFeedPrefs::default()
    };

    let (items, _) = timeline_items(&root, &prefs);
    assert_eq!(items.len(), 1);
    assert_eq!(items[0].uri, "kept");
}

#[test]
fn parses_quote_with_media() {
    let post = json(r#"{
        "uri": "at://did:plc:bob/app.bsky.feed.post/2",
        "author": {"handle": "bob.test"},
        "record": {"text": "look at this"},
        "embed": {
            "$type": "app.bsky.embed.recordWithMedia#view",
            "media": {
                "$type": "app.bsky.embed.images#view",
                "images": [{"thumb": "https://example.com/thumb.jpg", "fullsize": "https://example.com/full.jpg", "alt": "alt text"}]
            },
            "record": {
                "$type": "app.bsky.embed.record#viewRecord",
                "uri": "at://did:plc:alice/app.bsky.feed.post/1",
                "author": {"handle": "alice.test", "displayName": "Alice"},
                "value": {"text": "quoted text", "createdAt": "2026-05-22T00:00:00Z"}
            }
        }
    }"#);

    let item = feed_item_from_post(&post, 0);
    assert_eq!(item.images.len(), 1);
    let quote = item.quote.unwrap();
    assert_eq!(quote.author_name, "Alice");
    assert_eq!(quote.text, "quoted text");
}

#[test]
fn parses_video_embed() {
    let post = json(r#"{
        "uri": "at://did:plc:bob/app.bsky.feed.post/2",
        "author": {"handle": "bob.test"},
        "record": {"text": "watch"},
        "embed": {
            "$type": "app.bsky.embed.video#view",
            "playlist": "https://video.bsky.app/watch/playlist.m3u8",
            "thumbnail": "https://video.bsky.app/watch/thumb.jpg",
            "alt": "video alt",
            "cid": "videocid",
            "aspectRatio": {"width": 16, "height": 9}
        }
    }"#);

    let item = feed_item_from_post(&post, 0);

    assert_eq!(item.videos.len(), 1);
    assert_eq!(
        item.videos[0],
        VideoRef {
            playlist_url: "https://video.bsky.app/watch/playlist.m3u8".into(),
            thumb_url: Some("https://video.bsky.app/watch/thumb.jpg".into()),
            alt: Some("video alt".into()),
            cid: Some("videocid".into()),
            aspect_ratio: Some((16, 9))
        }
    );
}

#[test]
fn collects_external_facet_plain_and_quote_links_in_order() {
    let post = json(r#"{
        "uri": "at://did:plc:bob/app.bsky.feed.post/2",
        "author": {"handle": "bob.test"},
        "record": {
            "text": "go docs and https://plain.test",
            "facets": [{
                "index": {"byteStart": 3, "byteEnd": 7},
                "features": [{
                    "$type": "app.bsky.richtext.facet#link",
                    "uri": "https://docs.test"
                }]
            }]
        },
        "embed": {
            "$type": "app.bsky.embed.recordWithMedia#view",
            "media": {
                "$type": "app.bsky.embed.external#view",
                "external": {
                    "uri": "https://card.test",
                    "title": "Card"
                }
            },
            "record": {
                "$type": "app.bsky.embed.record#viewRecord",
                "uri": "at://did:plc:alice/app.bsky.feed.post/1",
                "author": {"handle": "alice.test", "displayName": "Alice"},
                "value": {
                    "text": "quote https://quote-text.test"
                },
                "embed": {
                    "$type": "app.bsky.embed.external#view",
                    "external": {
                        "uri": "https://quote-card.test",
                        "title": "Quote Card"
                    }
                }
            }
        }
    }"#);

    let item = feed_item_from_post(&post, 0);
    let links = item_links(&item);
    let uris = links
        .iter()
        .map(|link| link.uri.as_str())
        .collect::<Vec<_>>();
    let sources = links.iter().map(|link| link.source).collect::<Vec<_>>();

    assert_eq!(
        uris,
        vec![
            "https://card.test",
            "https://docs.test",
            "https://plain.test",
            "https://quote-card.test",
            "https://quote-text.test"
        ]
    );
    assert_eq!(
        sources,
        vec![
            LinkSource::External,
            LinkSource::Text,
            LinkSource::Text,
            LinkSource::QuoteExternal,
            LinkSource::QuoteText
        ]
    );
}

#[test]
fn skips_invalid_facet_byte_ranges() {
    let post = json(r#"{
        "uri": "at://did:plc:bob/app.bsky.feed.post/2",
        "author": {"handle": "bob.test"},
        "record": {
            "text": "héllo",
            "facets": [{
            "index": {"byteStart": 2, "byteEnd": 3},
                "features": [{
                    "$type": "app.bsky.richtext.facet#link",
                    "uri": "https://invalid.test"
                }]
            }]
        }
    }"#);

    let item = feed_item_from_post(&post, 0);

    assert!(item_links(&item).is_empty());
}

#[test]
fn handles_blocked_quote() {
    let post = json(r#"{
        "uri": "at://did:plc:bob/app.bsky.feed.post/2",
        "author": {"handle": "bob.test"},
        "record": {"text": "blocked quote"},
        "embed": {
            "$type": "app.bsky.embed.record#view",
            "record": {"$type": "app.bsky.embed.record#viewBlocked"}
        }
    }"#);

    let item = feed_item_from_post(&post, 0);
    assert!(item.quote.is_none());
    assert_eq!(item.embed_status.as_deref(), Some("[quoted post blocked]"));
}

#[test]
fn flattens_thread_replies() {
    let root = json(r#"{
        "thread": {
            "$type": "app.bsky.feed.defs#threadViewPost",
            "post": {"uri": "root", "author": {"handle": "alice.test"}, "record": {"text": "root"}},
            "replies": [{
                "$type": "app.bsky.feed.defs#threadViewPost",
                "post": {"uri": "reply", "author": {"handle": "bob.test"}, "record": {"text": "reply"}},
                "replies": []
            }]
        }
    }"#);

    let items = thread_items(&root);
    assert_eq!(items.len(), 2);
    assert_eq!(items[0].depth, 0);
    assert_eq!(items[1].depth, 1);
}

#[test]
fn flattens_thread_parent_chain_before_selected_post() {
    let root = json(r#"{
        "thread": {
            "$type": "app.bsky.feed.defs#threadViewPost",
            "post": {"uri": "selected", "author": {"handle": "carol.test"}, "record": {"text": "selected"}},
            "parent": {
                "$type": "app.bsky.feed.defs#threadViewPost",
                "post": {"uri": "parent", "author": {"handle": "bob.test"}, "record": {"text": "parent"}},
                "parent": {
                    "$type": "app.bsky.feed.defs#threadViewPost",
                    "post": {"uri": "root", "author": {"handle": "alice.test"}, "record": {"text": "root"}}
                }
            },
            "replies": [{
                "$type": "app.bsky.feed.defs#threadViewPost",
                "post": {"uri": "reply", "author": {"handle": "dana.test"}, "record": {"text": "reply"}}
            }]
        }
    }"#);

    let items = thread_items(&root);
    let uris = items
        .iter()
        .map(|item| (item.uri.as_str(), item.depth))
        .collect::<Vec<_>>();
    assert_eq!(
        uris,
        vec![("root", 0), ("parent", 1), ("selected", 2), ("reply", 3)]
    );
}

#[test]
fn skips_blocked_and_missing_thread_ancestors() {
    let root = json(r#"{
        "thread": {
            "$type": "app.bsky.feed.defs#threadViewPost",
            "post": {"uri": "selected", "author": {"handle": "carol.test"}, "record": {"text": "selected"}},
            "parent": {
                "$type": "app.bsky.feed.defs#blockedPost",
                "uri": "blocked-parent"
            },
            "replies": [{
                "$type": "app.bsky.feed.defs#notFoundPost",
                "uri": "missing-reply"
            }]
        }
    }"#);

    let items = thread_items(&root);
    assert_eq!(items.len(), 1);
    assert_eq!(items[0].uri, "selected");
    assert_eq!(items[0].depth, 0);
}

#[test]
fn nested_quotes_become_a_one_line_summary() {
    let post = json(r#"{
        "uri": "at://did:plc:bob/app.bsky.feed.post/3",
        "author": {"handle": "bob.test", "displayName": "   "},
        "record": {"text": "outer"},
        "embed": {
            "$type": "app.bsky.embed.record#view",
            "record": {
                "$type": "app.bsky.embed.record#viewRecord",
                "uri": "at://did:plc:alice/app.bsky.feed.post/1",
                "author": {"handle": "alice.test"},
                "value": {"text": "middle"},
                "embeds": [{
                    "$type": "app.bsky.embed.record#view",
                    "record": {
                        "$type": "app.bsky.embed.record#viewRecord",
                        "uri": "at://did:plc:carol/app.bsky.feed.post/9",
                        "author": {"handle": "carol.test"},
                        "value": {"text": "first line\r\nsecond line"}
                    }
                }]
            }
        }
    }"#);

    let item = feed_item_from_post(&post, 0);
    assert_eq!(item.author_name, "bob.test");
    let quote = item.quote.unwrap();
    assert_eq!(quote.nested_quote.as_deref(), Some("@carol.test: first line"));
}

#[test]
fn unknown_embeds_and_missing_videos_leave_a_status() {
    let post = json(r#"{
        "uri": "p",
        "embed": {"$type": "app.bsky.embed.poll#view"}
    }"#);
    let item = feed_item_from_post(&post, 4);
    assert_eq!(item.embed_status.as_deref(), Some("[unsupported embed: app.bsky.embed.poll#view]"));
    assert_eq!(item.author_handle, "unknown");
    assert_eq!(item.depth, 4);

    let video = json(r#"{"uri": "v", "embed": {"$type": "app.bsky.embed.video#view"}}"#);
    let item = feed_item_from_post(&video, 0);
    assert!(item.videos.is_empty());
    assert_eq!(item.embed_status.as_deref(), Some("[video embed unavailable]"));
}

#[test]
fn wrapped_records_are_unwrapped_and_unknown_ones_reported() {
    let post = json(r#"{
        "uri": "p",
        "embed": {
            "$type": "app.bsky.embed.record#view",
            "record": {"record": {"$type": "app.bsky.embed.record#viewNotFound"}}
        }
    }"#);
    let item = feed_item_from_post(&post, 0);
    assert_eq!(item.embed_status.as_deref(), Some("[quoted post not found]"));

    let other = json(r#"{
        "uri": "p",
        "embed": {"$type": "app.bsky.embed.record#view", "record": {"$type": "app.bsky.graph.defs#listView"}}
    }"#);
    let item = feed_item_from_post(&other, 0);
    assert_eq!(
        item.embed_status.as_deref(),
        Some("[unsupported quoted record: app.bsky.graph.defs#listView]")
    );
}

#[test]
fn links_are_deduplicated_by_uri() {
    let post = json(r#"{
        "uri": "p",
        "record": {
            "text": "see https://same.test",
            "facets": [{
                "index": {"byteStart": 4, "byteEnd": 21},
                "features": [{"$type": "app.bsky.richtext.facet#link", "uri": "https://same.test"}]
            }]
        }
    }"#);
    let item = feed_item_from_post(&post, 0);
    assert_eq!(item.links.len(), 1);
    assert_eq!(item.links[0].label, "https://same.test");
}

#[test]
fn feed_labels_and_generator_uris() {
    assert_eq!(at_tui::feed::short_feed_label("at://did:plc:a/app.bsky.feed.generator/news"), "news");
    assert_eq!(at_tui::feed::short_feed_label("at://did:plc:a/"), "at://did:plc:a/");
    assert_eq!(at_tui::feed::short_feed_label("plain"), "plain");
    assert!(at_tui::feed::is_feed_generator_uri("at://x/app.bsky.feed.generator/y"));
    assert!(!at_tui::feed::is_feed_generator_uri("at://x/app.bsky.graph.list/y"));
}

#[test]
fn preferences_without_a_home_entry_hide_nothing() {
    let root = json(r#"{"preferences": [{"$type": "app.bsky.actor.defs#feedViewPref", "feed": "other", "hideReplies": true}]}"#);
    assert_eq!(HomeFeedPrefs::from_preferences_response(&root), HomeFeedPrefs::default());
    let (items, cursor) = timeline_items(&json("{}"), &HomeFeedPrefs::default());
    assert!(items.is_empty());
    assert_eq!(cursor, None);
}

#[test]
fn parses_notifications_and_their_targets() {
    let root = json(
        r#"{
            "cursor": "next",
            "notifications": [
                {"uri": "at://did:plc:bob/app.bsky.feed.post/reply", "cid": "c1",
                 "author": {"did": "did:plc:bob", "handle": "bob.test", "displayName": "Bob"},
                 "reason": "reply", "reasonSubject": "at://did:plc:alice/app.bsky.feed.post/1",
                 "record": {"text": "reply text"}, "isRead": false, "indexedAt": "2026-05-22T00:00:00Z"},
                {"uri": "at://did:plc:carol/app.bsky.feed.like/1", "cid": "c2",
                 "author": {"did": "did:plc:carol", "handle": "carol.test"},
                 "reason": "like", "reasonSubject": "at://did:plc:alice/app.bsky.feed.post/1",
                 "isRead": true},
                {"uri": "at://did:plc:dana/app.bsky.graph.follow/1",
                 "author": {"handle": "dana.test"}, "reason": "follow"},
                {"uri": "x", "reason": "starterpack-joined"}
            ]
        }"#,
    );
    let (items, cursor) = at_tui::model::notification_items(&root);
    assert_eq!(cursor.as_deref(), Some("next"));
    assert_eq!(items.len(), 4);
    assert_eq!(items[0].reason, at_tui::model::NotificationReason::Reply);
    assert_eq!(items[0].author_name, "Bob");
    assert_eq!(items[0].text, "reply text");
    assert!(!items[0].is_read);
    assert_eq!(
        items[0].target,
        at_tui::model::NotificationTarget::Post { uri: "at://did:plc:bob/app.bsky.feed.post/reply".into() }
    );
    assert_eq!(
        items[1].target,
        at_tui::model::NotificationTarget::Post { uri: "at://did:plc:alice/app.bsky.feed.post/1".into() }
    );
    assert_eq!(items[1].author_name, "carol.test");
    assert!(items[1].is_read);
    assert_eq!(
        items[2].target,
        at_tui::model::NotificationTarget::Profile { actor: "dana.test".into() }
    );
    assert_eq!(items[3].reason, at_tui::model::NotificationReason::Other);
    assert_eq!(items[3].target, at_tui::model::NotificationTarget::NoTarget);
    assert_eq!(items[3].author_handle, "unknown");
}

#[test]
fn parses_profile_summary() {
    let root = json(
        r#"{"did": "did:plc:bob", "handle": "bob.test", "displayName": "  ",
            "description": "", "avatar": "https://cdn.test/a.jpg",
            "viewer": {"following": "at://did:plc:me/app.bsky.graph.follow/1"},
            "followersCount": 10, "postsCount": 3}"#,
    );
    let profile = at_tui::model::profile_summary(&root);
    assert_eq!(profile.did, "did:plc:bob");
    assert_eq!(profile.display_name, "bob.test");
    assert_eq!(profile.description, None);
    assert_eq!(profile.avatar_url.as_deref(), Some("https://cdn.test/a.jpg"));
    assert_eq!(
        profile.viewer_following.as_deref(),
        Some("at://did:plc:me/app.bsky.graph.follow/1")
    );
    assert_eq!(profile.followers_count, 10);
    assert_eq!(profile.follows_count, 0);
    assert_eq!(profile.posts_count, 3);
}
