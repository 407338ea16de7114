use at_tui::api::{
    actor_query, at_uri_parts, author_feed_query, feed_query, follow_record_json, is_handle_byte,
    is_plausible_handle, like_record_json, link_facets, mention_candidates, mention_facet,
    notification_query, post_record_json, refresh_still_needed, session_after_refresh, post_thread_query, repost_record_json,
    required_string, timeline_query, unread_notification_count, xrpc_url, AtUriError,
    AtUriParts, ResponseError, XrpcError,
};
use at_tui::json::Json;
use at_tui::model::PostRef;

fn from_value(value: serde_json::Value) -> Json {
    match value {
        serde_json::Value::Null => Json::Null,
        serde_json::Value::Bool(b) => Json::Bool(b),
        serde_json::Value::Number(n) => Json::Number(n.as_u64()),
        serde_json::Value::String(s) => Json::String(s),
        serde_json::Value::Array(items) => Json::Array(items.into_iter().map(from_value).collect()),
        serde_json::Value::Object(map) => {
            Json::Object(map.into_iter().map(|(k, v)| (k, from_value(v))).collect())
        }
    }
}

fn stamped_value(json: Option<Json>) -> serde_json::Value {
    to_value(json.expect("the clock reads a time after 1970"))
}

fn to_value(json: Json) -> serde_json::Value {
    match json {
        Json::Null => serde_json::Value::Null,
        Json::Bool(b) => serde_json::Value::Bool(b),
        Json::Number(Some(n)) => serde_json::Value::from(n),
        Json::Number(None) => serde_json::Value::Null,
        Json::String(s) => serde_json::Value::String(s),
        Json::Array(items) => serde_json::Value::Array(items.into_iter().map(to_value).collect()),
        Json::Object(members) => serde_json::Value::Object(
            members.into_iter().map(|(k, v)| (k, to_value(v))).collect(),
        ),
    }
}

fn json(text: &str) -> Json {
    from_value(serde_json::from_str(text).unwrap())
}

#[test]
fn builds_xrpc_url_without_double_slash() {
    assert_eq!(
        xrpc_url("https://bsky.social/", "app.bsky.feed.getTimeline"),
        "https://bsky.social/xrpc/app.bsky.feed.getTimeline"
    );
}

#[test]
fn post_thread_query_requests_parent_chain() {
    let query = post_thread_query("at://did:plc:alice/app.bsky.feed.post/1");
    assert!(query.contains(&("depth".into(), "8".into())));
    assert!(query.contains(&("parentHeight".into(), "80".into())));
}

#[test]
fn builds_home_timeline_query() {
    let query = timeline_query(Some("cursor"), 50);
    assert_eq!(
        query,
        vec![
            ("limit".into(), "50".into()),
            ("cursor".into(), "cursor".into())
        ]
    );
}

#[test]
fn builds_saved_feed_query() {
    let query = feed_query(
        "at://did:plc:alice/app.bsky.feed.generator/news",
        Some("cursor"),
        25,
    );
    assert_eq!(
        query,
        vec![
            (
                "feed".into(),
                "at://did:plc:alice/app.bsky.feed.generator/news".into()
            ),
            ("limit".into(), "25".into()),
            ("cursor".into(), "cursor".into())
        ]
    );
}

#[test]
fn builds_author_feed_query() {
    let query = author_feed_query("did:plc:alice", Some("cursor"), 25);
    assert_eq!(
        query,
        vec![
            ("actor".into(), "did:plc:alice".into()),
            ("filter".into(), "posts_with_replies".into()),
            ("limit".into(), "25".into()),
            ("cursor".into(), "cursor".into())
        ]
    );
}

#[test]
fn builds_profile_and_notification_queries() {
    assert_eq!(
        actor_query("alice.test"),
        vec![("actor".into(), "alice.test".into())]
    );
    assert_eq!(
        notification_query(Some("cursor"), 25),
        vec![
            ("limit".into(), "25".into()),
            ("cursor".into(), "cursor".into())
        ]
    );
}

#[test]
fn parses_record_at_uri_parts() {
    let parts = at_uri_parts("at://did:plc:alice/app.bsky.feed.like/3jz").unwrap();
    assert_eq!(
        parts,
        AtUriParts {
            repo: "did:plc:alice".into(),
            collection: "app.bsky.feed.like".into(),
            rkey: "3jz".into()
        }
    );
    assert!(at_uri_parts("https://example.com").is_err());
}

#[test]
fn mention_candidates_find_handles_and_skip_noise() {
    let text = "hi @alice.test and @bob.example.com. not@this.one @x @-bad.com";
    let candidates = mention_candidates(text);

    assert_eq!(
        candidates
            .iter()
            .map(|candidate| candidate.handle.as_str())
            .collect::<Vec<_>>(),
        vec!["alice.test", "bob.example.com"]
    );
    for candidate in &candidates {
        assert_eq!(
            &text[candidate.byte_start..candidate.byte_end],
            format!("@{}", candidate.handle)
        );
    }
}

#[test]
fn queries_without_cursor_stop_at_the_limit() {
    assert_eq!(
        timeline_query(None, 7),
        vec![("limit".to_string(), "7".to_string())]
    );
    assert_eq!(
        notification_query(None, 0),
        vec![("limit".to_string(), "0".to_string())]
    );
}

#[test]
fn xrpc_url_keeps_a_service_without_trailing_slash() {
    assert_eq!(
        xrpc_url("https://pds.example", "com.atproto.server.getSession"),
        "https://pds.example/xrpc/com.atproto.server.getSession"
    );
    assert_eq!(
        xrpc_url("https://pds.example///", "x"),
        "https://pds.example/xrpc/x"
    );
}

#[test]
fn at_uri_errors_name_the_missing_part() {
    assert_eq!(at_uri_parts("https://example.com"), Err(AtUriError::NotAtUri));
    assert_eq!(at_uri_parts("at://"), Err(AtUriError::MissingRepo));
    assert_eq!(at_uri_parts("at://did:plc:a"), Err(AtUriError::MissingCollection));
    assert_eq!(
        at_uri_parts("at://did:plc:a/app.bsky.feed.post"),
        Err(AtUriError::MissingRecordKey)
    );
    assert_eq!(
        AtUriError::MissingRecordKey.describe("at://x/y"),
        "AT URI is missing record key: at://x/y"
    );
}

#[test]
fn handle_plausibility_needs_two_clean_segments() {
    assert!(is_plausible_handle("alice.test"));
    assert!(!is_plausible_handle("x"));
    assert!(!is_plausible_handle("-bad.com"));
    assert!(!is_plausible_handle("bad-.com"));
    assert!(is_handle_byte(b'-'));
    assert!(!is_handle_byte(b'@'));
}

#[test]
fn requires_session_fields() {
    let value = json(r#"{"handle": "alice.test"}"#);
    assert!(required_string(&value, "accessJwt").is_err());
    assert_eq!(required_string(&value, "handle"), Ok("alice.test".to_owned()));
    assert_eq!(
        required_string(&value, "did").unwrap_err().message(),
        "Bluesky response did not include did"
    );
}

#[test]
fn builds_write_records() {
    let subject = PostRef {
        uri: "at://did:plc:bob/app.bsky.feed.post/1".into(),
        cid: "postcid".into(),
    };
    let like = stamped_value(like_record_json(&subject));
    assert_eq!(like["$type"], "app.bsky.feed.like");
    assert_eq!(like["subject"]["uri"].as_str(), Some(subject.uri.as_str()));

    let follow = stamped_value(follow_record_json("did:plc:alice"));
    assert_eq!(follow["$type"], "app.bsky.graph.follow");
    assert_eq!(follow["subject"].as_str(), Some("did:plc:alice"));
    assert!(follow["createdAt"].as_str().is_some());

    let reply = stamped_value(post_record_json(
        "reply text",
        Some((
            PostRef {
                uri: "root".into(),
                cid: "rootcid".into(),
            },
            subject.clone(),
        )),
        None,
        Vec::new(),
    ));
    assert_eq!(reply["reply"]["root"]["cid"], "rootcid");
    assert_eq!(reply["reply"]["parent"]["cid"], "postcid");
    assert!(reply.get("facets").is_none());

    let quote = stamped_value(post_record_json("quote text", None, Some(subject), Vec::new()));
    assert_eq!(quote["embed"]["$type"], "app.bsky.embed.record");
    assert_eq!(quote["embed"]["record"]["cid"], "postcid");
}

#[test]
fn link_facets_use_byte_offsets_after_multibyte_text() {
    let text = "🦋🦋 https://example.com done";
    let facets: Vec<serde_json::Value> = link_facets(text).into_iter().map(to_value).collect();

    assert_eq!(facets.len(), 1);
    let start = facets[0]["index"]["byteStart"].as_u64().unwrap() as usize;
    let end = facets[0]["index"]["byteEnd"].as_u64().unwrap() as usize;
    assert_eq!(&text[start..end], "https://example.com");
    assert_eq!(
        facets[0]["features"][0]["uri"].as_str(),
        Some("https://example.com")
    );
}

#[test]
fn post_record_includes_facets_when_present() {
    let text = "see https://example.com";
    let record = stamped_value(post_record_json(text, None, None, link_facets(text)));

    assert_eq!(
        record["facets"][0]["features"][0]["$type"],
        "app.bsky.richtext.facet#link"
    );
}

#[test]
fn parses_unread_notification_count() {
    assert_eq!(unread_notification_count(&json(r#"{"count": 4}"#)).unwrap(), 4);
    assert!(unread_notification_count(&json("{}")).is_err());
    assert_eq!(unread_notification_count(&json("{}")), Err(ResponseError::MissingCount));
}

#[test]
fn repost_records_and_mention_facets() {
    let subject = PostRef { uri: "at://x".into(), cid: "c".into() };
    let repost = stamped_value(repost_record_json(&subject));
    assert_eq!(repost["$type"], "app.bsky.feed.repost");
    assert_eq!(repost["subject"]["cid"], "c");

    let text = "hi @alice.test";
    let mention = &mention_candidates(text)[0];
    let facet = to_value(mention_facet(mention, "did:plc:alice"));
    assert_eq!(facet["index"]["byteStart"], 3);
    assert_eq!(facet["index"]["byteEnd"], 14);
    assert_eq!(facet["features"][0]["$type"], "app.bsky.richtext.facet#mention");
    assert_eq!(facet["features"][0]["did"], "did:plc:alice");
}

#[test]
fn xrpc_errors_describe_themselves_and_ask_for_refresh() {
    let body = json(r#"{"error": "ExpiredToken", "message": "Token has expired"}"#);
    let error = XrpcError::from_body(400, Some(&body));
    assert_eq!(error.status(), 400);
    assert_eq!(error.code(), Some("ExpiredToken"));
    assert!(error.requires_session_refresh());
    assert_eq!(
        error.describe("400 Bad Request"),
        "Bluesky API returned 400 Bad Request (ExpiredToken): Token has expired"
    );
    let plain = XrpcError::from_body(401, None);
    assert!(plain.requires_session_refresh());
    assert_eq!(plain.describe("401 Unauthorized"), "Bluesky API returned 401 Unauthorized");
    let other = XrpcError::from_body(400, Some(&json(r#"{"error": "InvalidRequest"}"#)));
    assert!(!other.requires_session_refresh());
}

#[test]
fn records_are_stamped_with_a_parsable_time_to_the_millisecond() {
    let subject = PostRef { uri: "at://did:plc:bob/app.bsky.feed.post/1".into(), cid: "cid".into() };
    for value in [
        stamped_value(like_record_json(&subject)),
        stamped_value(repost_record_json(&subject)),
        stamped_value(follow_record_json("did:plc:alice")),
        stamped_value(post_record_json("hi", None, None, Vec::new())),
    ] {
        let created = value["createdAt"].as_str().unwrap().to_owned();
        assert!(chrono::DateTime::parse_from_rfc3339(&created).is_ok(), "{created}");
        assert!(created.ends_with('Z'));
        assert_eq!(created.len(), "2024-01-02T03:04:05.678Z".len());
    }
}

fn session_for(access: &str) -> at_tui::config::Session {
    at_tui::config::Session {
        service: "https://bsky.social".into(),
        handle: "alice.test".into(),
        did: "did:plc:alice".into(),
        access_jwt: access.into(),
        refresh_jwt: "old-refresh".into(),
    }
}

#[test]
fn refresh_is_skipped_once_another_task_rotated_the_tokens() {
    let current = session_for("new-access");
    assert!(!refresh_still_needed(&current, "old-access"));
    assert!(refresh_still_needed(&current, "new-access"));
}

#[test]
fn refreshed_session_takes_new_tokens_and_named_identity() {
    let current = session_for("old-access");
    let reply = Json::Object(vec![
        ("accessJwt".into(), Json::String("new-access".into())),
        ("refreshJwt".into(), Json::String("new-refresh".into())),
        ("handle".into(), Json::String("alice2.test".into())),
    ]);
    let updated = session_after_refresh(&current, &reply).unwrap();
    assert_eq!(updated.access_jwt, "new-access");
    assert_eq!(updated.refresh_jwt, "new-refresh");
    assert_eq!(updated.handle, "alice2.test");
    assert_eq!(updated.did, "did:plc:alice");
    assert_eq!(updated.service, "https://bsky.social");

    let missing = Json::Object(vec![("accessJwt".into(), Json::String("a".into()))]);
    assert_eq!(
        session_after_refresh(&current, &missing).unwrap_err().message(),
        "Bluesky response did not include refreshJwt"
    );
}
