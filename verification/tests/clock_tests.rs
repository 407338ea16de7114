use at_tui::api::{follow_record_at, like_record_at, post_record_at, repost_record_at, stamp_at};
use at_tui::json::Json;
use at_tui::model::PostRef;
use at_tui::ui::compact_time_at;

const JAN_FIRST_2024: u64 = 1_704_067_200;

fn member<'a>(j: &'a Json, key: &str) -> &'a Json {
    match j {
        Json::Object(members) => &members.iter().find(|(k, _)| k == key).unwrap().1,
        _ => panic!("not an object"),
    }
}

#[test]
fn compact_time_counts_the_age_at_the_reading() {
    let t = Some("2024-01-01T00:00:00Z");
    assert_eq!(compact_time_at(t, Some((JAN_FIRST_2024 + 30, 0))), "now");
    assert_eq!(compact_time_at(t, Some((JAN_FIRST_2024 + 90, 0))), "1m");
    assert_eq!(compact_time_at(t, Some((JAN_FIRST_2024 + 7_200, 5))), "2h");
    assert_eq!(compact_time_at(t, Some((JAN_FIRST_2024 + 3 * 86_400, 0))), "3d");
    assert_eq!(compact_time_at(t, Some((JAN_FIRST_2024 + 20 * 86_400, 0))), "2024-01-01");
    assert_eq!(compact_time_at(t, Some((JAN_FIRST_2024 - 3_600, 0))), "now");
}

#[test]
fn compact_time_without_a_clock_shows_the_date() {
    assert_eq!(compact_time_at(Some("2024-01-01T12:30:00+02:00"), None), "2024-01-01");
    assert_eq!(compact_time_at(Some("yesterday"), None), "yesterday");
    assert_eq!(compact_time_at(None, Some((JAN_FIRST_2024, 0))), "");
}

#[test]
fn stamps_keep_whole_milliseconds_of_the_reading() {
    assert_eq!(stamp_at(Some((0, 5_678_999))).as_deref(), Some("1970-01-01T00:00:00.005Z"));
    assert_eq!(stamp_at(Some((JAN_FIRST_2024, 123_000_000))).as_deref(), Some("2024-01-01T00:00:00.123Z"));
    assert_eq!(stamp_at(None), None);
    assert_eq!(stamp_at(Some((u64::MAX, 0))), None);
}

#[test]
fn records_carry_the_given_creation_time() {
    let subject = PostRef { uri: "at://did:plc:bob/app.bsky.feed.post/1".into(), cid: "cid".into() };
    let at = "2024-01-01T00:00:00.000Z";
    for (record, kind) in [
        (like_record_at(&subject, at), "app.bsky.feed.like"),
        (repost_record_at(&subject, at), "app.bsky.feed.repost"),
        (follow_record_at("did:plc:alice", at), "app.bsky.graph.follow"),
        (post_record_at("hello", None, None, Vec::new(), at), "app.bsky.feed.post"),
    ] {
        assert_eq!(member(&record, "$type"), &Json::String(kind.into()));
        assert_eq!(member(&record, "createdAt"), &Json::String(at.into()));
    }
}
