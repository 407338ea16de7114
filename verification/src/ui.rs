//! Texts the terminal interface shows: the status line, counters, media titles,
//! relative times and wrapped paragraphs.
use vstd::prelude::*;

use crate::clock::epoch_elapsed;
use crate::api::is_reading;
use crate::model::{FeedItem, FeedReason, NotificationItem, NotificationReason, ProfileSummary};
use crate::navigation::ViewKind;
use crate::text::{chars_of, decimal, first_index, lemma_first_index, push_char, push_decimal, push_str, string_from_chars};
use crate::app::{InputMode, Overlay};

verus! {

/// The status bar is always one row high.
pub fn status_height() -> (r: u16)
    ensures
        r == 1,
{
    1
}

pub open spec fn spec_normal_status_text(handle: Seq<char>, feed: Seq<char>, status: Seq<char>) -> Seq<char> {
    " @"@ + handle + "  "@ + feed + "  "@ + status + " "@
}

/// The plain status line: handle, feed, status.
pub fn normal_status_text(handle: &str, feed: &str, status: &str) -> (r: String)
    ensures
        r@ == spec_normal_status_text(handle@, feed@, status@),
{
    let mut out = " @".to_owned();
    push_str(&mut out, handle);
    push_str(&mut out, "  ");
    push_str(&mut out, feed);
    push_str(&mut out, "  ");
    push_str(&mut out, status);
    push_str(&mut out, " ");
    out
}

/// `value` when it has at most `max` characters, else its first `max - 1`
/// characters and an ellipsis.
pub open spec fn spec_truncate(value: Seq<char>, max: nat) -> Seq<char> {
    if value.len() <= max {
        value
    } else {
        value.take(if max > 0 { max - 1 } else { 0 }).push('…')
    }
}

pub fn truncate(value: &str, max: usize) -> (r: String)
    ensures
        r@ == spec_truncate(value@, max as nat),
{
    let v = chars_of(value);
    if v.len() <= max {
        return string_from_chars(&v, 0, v.len());
    }
    let keep = if max > 0 {
        max - 1
    } else {
        0
    };
    let mut out = string_from_chars(&v, 0, keep);
    push_char(&mut out, '…');
    assert(v@.subrange(0, keep as int) =~= v@.take(keep as int));
    out
}

pub open spec fn spec_media_title(
    kind: Seq<char>,
    selected: nat,
    total: nat,
    source: Seq<char>,
    alt: Option<Seq<char>>,
) -> Seq<char> {
    kind + " "@ + decimal(selected + 1) + "/"@ + decimal(total) + " · "@ + source + match alt {
        Some(a) => " · "@ + spec_truncate(a, 40),
        None => Seq::empty(),
    }
}

/// The title of the media overlay: kind, position, source and the shortened alt text.
pub fn media_title(kind: &str, selected: usize, total: usize, source: &str, alt: Option<&str>) -> (r:
    String)
    requires
        selected < usize::MAX,
    ensures
        r@ == spec_media_title(
            kind@,
            selected as nat,
            total as nat,
            source@,
            match alt {
                Some(a) => Some(a@),
                None => None,
            },
        ),
{
    let mut out = kind.to_owned();
    push_str(&mut out, " ");
    push_decimal(&mut out, (selected + 1) as u64);
    push_str(&mut out, "/");
    push_decimal(&mut out, total as u64);
    push_str(&mut out, " · ");
    push_str(&mut out, source);
    if let Some(a) = alt {
        push_str(&mut out, " · ");
        let short = truncate(a, 40);
        push_str(&mut out, short.as_str());
    }
    out
}

pub open spec fn spec_empty_view_text(kind: ViewKind) -> Seq<char> {
    match kind {
        ViewKind::Notifications => "No notifications."@,
        ViewKind::Profile { .. } => "No posts for this profile."@,
        _ => "No posts in this view."@,
    }
}

/// What an empty view shows.
pub fn empty_view_text(kind: &ViewKind) -> (r: &'static str)
    ensures
        r@ == spec_empty_view_text(*kind),
{
    match kind {
        ViewKind::Notifications => "No notifications.",
        ViewKind::Profile { .. } => "No posts for this profile.",
        _ => "No posts in this view.",
    }
}

pub open spec fn spec_engagement_summary(item: FeedItem) -> Seq<char> {
    "↩ "@ + decimal(item.reply_count as nat) + "  ⟳ "@ + decimal(item.repost_count as nat) + "  "@
        + (if item.viewer_like is Some {
        "♥"@
    } else {
        "♡"@
    }) + " "@ + decimal(item.like_count as nat) + "  ❞ "@ + decimal(item.quote_count as nat)
}

/// The counters under a post; the heart is filled when the viewer liked it.
pub fn engagement_summary(item: &FeedItem) -> (r: String)
    ensures
        r@ == spec_engagement_summary(*item),
{
    let mut out = "↩ ".to_owned();
    push_decimal(&mut out, item.reply_count);
    push_str(&mut out, "  ⟳ ");
    push_decimal(&mut out, item.repost_count);
    push_str(&mut out, "  ");
    push_str(
        &mut out,
        if item.viewer_like.is_some() {
            "♥"
        } else {
            "♡"
        },
    );
    push_str(&mut out, " ");
    push_decimal(&mut out, item.like_count);
    push_str(&mut out, "  ❞ ");
    push_decimal(&mut out, item.quote_count);
    out
}

/// Why a post is in the feed, given the compact time of the repost.
pub open spec fn spec_reason_text(reason: FeedReason, time: Seq<char>) -> Seq<char> {
    match reason {
        FeedReason::Repost { by_handle, .. } => if time.len() == 0 {
            "⟳ @"@ + by_handle@ + " reposted"@
        } else {
            "⟳ @"@ + by_handle@ + " reposted "@ + time
        },
        FeedReason::Pin => "⚑ pinned"@,
    }
}

pub fn reason_text_at(reason: &FeedReason, time: &str) -> (r: String)
    ensures
        r@ == spec_reason_text(*reason, time@),
{
    match reason {
        FeedReason::Repost { by_handle, .. } => {
            let mut out = "⟳ @".to_owned();
            push_str(&mut out, by_handle.as_str());
            if time.is_empty() {
                push_str(&mut out, " reposted");
            } else {
                push_str(&mut out, " reposted ");
                push_str(&mut out, time);
            }
            out
        },
        FeedReason::Pin => "⚑ pinned".to_owned(),
    }
}

/// Why a post is in the feed: who reposted it and how long ago, or that it is pinned.
pub fn reason_text(reason: &FeedReason) -> (r: String)
    ensures
        match reason {
            FeedReason::Repost { indexed_at: None, .. } => r@ == spec_reason_text(*reason, Seq::empty()),
            FeedReason::Repost { indexed_at: Some(_), .. } => exists|time: Seq<char>| r@ == spec_reason_text(*reason, time),
            FeedReason::Pin => r@ == "⚑ pinned"@,
        },
{
    let time = match reason {
        FeedReason::Repost { indexed_at, .. } => match indexed_at {
            Some(value) => compact_time(Some(value.as_str())),
            None => compact_time(None),
        },
        FeedReason::Pin => String::new(),
    };
    reason_text_at(reason, time.as_str())
}

/// What `DateTime::parse_from_rfc3339` yields for a text: the instant as whole
/// seconds since the Unix epoch and the nanoseconds past them, or nothing.
pub uninterp spec fn rfc3339_instant(value: Seq<char>) -> Option<(i64, u32)>;

/// Calls `chrono::DateTime::parse_from_rfc3339` and reads the instant it names.
#[verifier::external_body]
fn parse_rfc3339(value: &str) -> (r: Option<(i64, u32)>)
    ensures
        r == rfc3339_instant(value@),
{
    chrono::DateTime::parse_from_rfc3339(value).ok().map(|t| (t.timestamp(), t.timestamp_subsec_nanos()))
}

/// What `DateTime::<Utc>::from_timestamp(..).format("%Y-%m-%d")` writes for an instant.
pub uninterp spec fn utc_calendar_date(secs: i64, nanos: u32) -> Option<Seq<char>>;

/// Calls `chrono::DateTime::<Utc>::from_timestamp` and formats the date it names.
#[verifier::external_body]
fn calendar_date(secs: i64, nanos: u32) -> (r: Option<String>)
    ensures
        match r {
            Some(s) => utc_calendar_date(secs, nanos) == Some(s@),
            None => utc_calendar_date(secs, nanos) is None,
        },
{
    chrono::DateTime::<chrono::Utc>::from_timestamp(secs, nanos).map(|t| t.format("%Y-%m-%d").to_string())
}

/// Integer division rounding toward zero, as Rust's `/` on signed integers.
pub open spec fn div_toward_zero(a: int, b: int) -> int {
    if a >= 0 {
        a / b
    } else {
        -((-a) / b)
    }
}

/// The age label of a post `age_nanos` old: "now", minutes, hours, days, or after two
/// weeks the calendar date.
pub open spec fn spec_age_label(age_nanos: int, date: Seq<char>) -> Seq<char> {
    let secs = div_toward_zero(age_nanos, 1_000_000_000);
    if secs < 60 {
        "now"@
    } else if secs / 60 < 60 {
        decimal((secs / 60) as nat) + "m"@
    } else if secs / 3600 < 24 {
        decimal((secs / 3600) as nat) + "h"@
    } else if secs / 86400 < 14 {
        decimal((secs / 86400) as nat) + "d"@
    } else {
        date
    }
}

/// The age label of a post of age `age_nanos`, with `date` its calendar date.
pub fn age_label(age_nanos: i128, date: &str) -> (r: String)
    ensures
        r@ == spec_age_label(age_nanos as int, date@),
{
    if age_nanos < 60_000_000_000 {
        assert(div_toward_zero(age_nanos as int, 1_000_000_000) < 60);
        return "now".to_owned();
    }
    let secs: u128 = (age_nanos as u128) / 1_000_000_000;
    assert(secs == div_toward_zero(age_nanos as int, 1_000_000_000));
    assert(secs >= 60);
    let mut out = String::new();
    if secs / 60 < 60 {
        push_decimal(&mut out, (secs / 60) as u64);
        push_str(&mut out, "m");
    } else if secs / 3600 < 24 {
        push_decimal(&mut out, (secs / 3600) as u64);
        push_str(&mut out, "h");
    } else if secs / 86400 < 14 {
        push_decimal(&mut out, (secs / 86400) as u64);
        push_str(&mut out, "d");
    } else {
        push_str(&mut out, date);
    }
    out
}

/// The calendar date shown for an old timestamp: its UTC date, or the text itself when
/// it has none.
pub open spec fn shown_date(v: Seq<char>) -> Seq<char> {
    match rfc3339_instant(v) {
        Some((secs, nanos)) => match utc_calendar_date(secs, nanos) {
            Some(d) => d,
            None => v,
        },
        None => v,
    }
}

/// The age in nanoseconds of the instant `secs`.`nanos` at the clock reading `now`;
/// without a reading the age is taken as two weeks, so the date is shown.
pub open spec fn age_at(now: Option<(u64, u32)>, secs: i64, nanos: u32) -> int {
    match now {
        Some((now_secs, now_nanos)) => (now_secs - secs) * 1_000_000_000 + (now_nanos - nanos),
        None => 14 * 86_400 * 1_000_000_000int,
    }
}

/// The compact time of `value` at the clock reading `now`: empty for no timestamp,
/// the text unchanged when it does not parse, and otherwise the label of its age with
/// its calendar date (or the text, when it has none) for old instants.
pub open spec fn spec_compact_time_at(value: Option<Seq<char>>, now: Option<(u64, u32)>) -> Seq<char> {
    match value {
        None => Seq::empty(),
        Some(v) => match rfc3339_instant(v) {
            None => v,
            Some((secs, nanos)) => spec_age_label(age_at(now, secs, nanos), shown_date(v)),
        },
    }
}

/// `r` is the compact time of `value` at some reading of the clock.
pub open spec fn is_compact_time(value: Option<Seq<char>>, r: Seq<char>) -> bool {
    exists|now: Option<(u64, u32)>| is_reading(now) && r == #[trigger] spec_compact_time_at(value, now)
}

/// A short relative time for an RFC 3339 timestamp at the clock reading `now`.
pub fn compact_time_at(value: Option<&str>, now: Option<(u64, u32)>) -> (r: String)
    ensures
        r@ == spec_compact_time_at(
            match value {
                Some(v) => Some(v@),
                None => None,
            },
            now,
        ),
{
    let value = match value {
        None => return String::new(),
        Some(v) => v,
    };
    let (secs, nanos) = match parse_rfc3339(value) {
        None => return value.to_owned(),
        Some(instant) => instant,
    };
    let date = match calendar_date(secs, nanos) {
        Some(d) => d,
        None => value.to_owned(),
    };
    let age: i128 = match now {
        Some((now_secs, now_nanos)) => (now_secs as i128 - secs as i128) * 1_000_000_000 + (now_nanos as i128
            - nanos as i128),
        None => 14 * 86_400 * 1_000_000_000,
    };
    let r = age_label(age, date.as_str());
    proof {
        let shown = match utc_calendar_date(secs, nanos) {
            Some(d) => d,
            None => value@,
        };
        assert(date@ == shown);
        assert(shown_date(value@) == shown);
        assert(age == age_at(now, secs, nanos));
    }
    r
}

/// A short relative time for an RFC 3339 timestamp, at the current time: empty for no
/// timestamp and the text unchanged when it does not parse.
pub fn compact_time(value: Option<&str>) -> (r: String)
    ensures
        is_compact_time(
            match value {
                Some(v) => Some(v@),
                None => None,
            },
            r@,
        ),
{
    let now = epoch_elapsed();
    let r = compact_time_at(value, now);
    assert(is_reading(now));
    r
}

// ---------------------------------------------------------------------------
// The status bar

/// How a status bar segment is drawn: bold black on a colour, or the plain grey
/// status text.
#[derive(Debug, Clone, Copy, PartialEq, Eq, Structural)]
pub enum SegmentStyle {
    Account,
    Location,
    NewPosts,
    Unread,
    Offline,
    Busy,
    Position,
    Status,
}

/// What the left part of the status bar shows.
pub struct StatusFacts {
    pub handle: String,
    pub location: String,
    pub pending_new: usize,
    pub unread: u64,
    pub offline: bool,
    pub busy: bool,
    pub status: String,
}

pub open spec fn segment_views(v: Seq<(String, SegmentStyle)>) -> Seq<(Seq<char>, SegmentStyle)> {
    v.map_values(|s: (String, SegmentStyle)| (s.0@, s.1))
}

/// The left segments: account, location, new posts, unread notifications, offline,
/// busy, and (when asked for and not empty) the status text.
pub open spec fn spec_left_segments(f: StatusFacts, include_status: bool) -> Seq<(Seq<char>, SegmentStyle)> {
    seq![(" @"@ + f.handle@ + " "@, SegmentStyle::Account), (" "@ + f.location@ + " "@, SegmentStyle::Location)]
        + (if f.pending_new > 0 {
        seq![(" ↑ "@ + decimal(f.pending_new as nat) + " new "@, SegmentStyle::NewPosts)]
    } else {
        Seq::empty()
    }) + (if f.unread > 0 {
        seq![(" ! "@ + decimal(f.unread as nat) + " "@, SegmentStyle::Unread)]
    } else {
        Seq::empty()
    }) + (if f.offline {
        seq![(" ⚠ offline "@, SegmentStyle::Offline)]
    } else {
        Seq::empty()
    }) + (if f.busy {
        seq![(" … "@, SegmentStyle::Busy)]
    } else {
        Seq::empty()
    }) + (if include_status && f.status@.len() > 0 {
        seq![(" "@ + f.status@ + " "@, SegmentStyle::Status)]
    } else {
        Seq::empty()
    })
}

fn segment(parts: &[&str], style: SegmentStyle) -> (r: (String, SegmentStyle))
    ensures
        r.0@ == concat_strs(parts@),
        r.1 == style,
{
    let mut text = String::new();
    let mut i: usize = 0;
    while i < parts.len()
        invariant
            i <= parts@.len(),
            text@ == concat_strs(parts@.take(i as int)),
        decreases parts@.len() - i,
    {
        assert(parts@.take(i + 1).drop_last() =~= parts@.take(i as int));
        push_str(&mut text, parts[i]);
        i += 1;
    }
    assert(parts@.take(parts@.len() as int) =~= parts@);
    (text, style)
}

pub open spec fn concat_strs(parts: Seq<&str>) -> Seq<char>
    decreases parts.len(),
{
    if parts.len() == 0 {
        Seq::empty()
    } else {
        concat_strs(parts.drop_last()) + parts.last()@
    }
}

/// The left segments of the status bar.
pub fn left_segments(f: &StatusFacts, include_status: bool) -> (r: Vec<(String, SegmentStyle)>)
    ensures
        segment_views(r@) == spec_left_segments(*f, include_status),
{
    let mut spans: Vec<(String, SegmentStyle)> = Vec::new();
    let ghost mut expected: Seq<(Seq<char>, SegmentStyle)> = Seq::empty();
    spans.push(segment(&[" @", f.handle.as_str(), " "], SegmentStyle::Account));
    spans.push(segment(&[" ", f.location.as_str(), " "], SegmentStyle::Location));
    proof {
        reveal_with_fuel(concat_strs, 4);
        expected = seq![(" @"@ + f.handle@ + " "@, SegmentStyle::Account), (" "@ + f.location@ + " "@, SegmentStyle::Location)];
        assert(segment_views(spans@) =~= expected);
    }
    if f.pending_new > 0 {
        let count = crate::text::decimal_string(f.pending_new as u64);
        spans.push(segment(&[" ↑ ", count.as_str(), " new "], SegmentStyle::NewPosts));
        proof {
            reveal_with_fuel(concat_strs, 4);
            expected = expected + seq![(" ↑ "@ + decimal(f.pending_new as nat) + " new "@, SegmentStyle::NewPosts)];
            assert(segment_views(spans@) =~= expected);
        }
    }
    let ghost after_new = expected;
    if f.unread > 0 {
        let count = crate::text::decimal_string(f.unread);
        spans.push(segment(&[" ! ", count.as_str(), " "], SegmentStyle::Unread));
        proof {
            reveal_with_fuel(concat_strs, 4);
            expected = expected + seq![(" ! "@ + decimal(f.unread as nat) + " "@, SegmentStyle::Unread)];
            assert(segment_views(spans@) =~= expected);
        }
    }
    if f.offline {
        spans.push(segment(&[" ⚠ offline "], SegmentStyle::Offline));
        proof {
            reveal_with_fuel(concat_strs, 2);
            expected = expected + seq![(" ⚠ offline "@, SegmentStyle::Offline)];
            assert(segment_views(spans@) =~= expected);
        }
    }
    if f.busy {
        spans.push(segment(&[" … "], SegmentStyle::Busy));
        proof {
            reveal_with_fuel(concat_strs, 2);
            expected = expected + seq![(" … "@, SegmentStyle::Busy)];
            assert(segment_views(spans@) =~= expected);
        }
    }
    if include_status && !f.status.as_str().is_empty() {
        spans.push(segment(&[" ", f.status.as_str(), " "], SegmentStyle::Status));
        proof {
            reveal_with_fuel(concat_strs, 4);
            expected = expected + seq![(" "@ + f.status@ + " "@, SegmentStyle::Status)];
            assert(segment_views(spans@) =~= expected);
        }
    }
    proof {
        assert(expected =~= spec_left_segments(*f, include_status));
    }
    spans
}

/// The width of segments, counted in characters.
pub open spec fn segments_width(v: Seq<(Seq<char>, SegmentStyle)>) -> int
    decreases v.len(),
{
    if v.len() == 0 {
        0
    } else {
        segments_width(v.drop_last()) + v.last().0.len()
    }
}

/// `line_width`.
pub fn line_width(spans: &Vec<(String, SegmentStyle)>) -> (r: usize)
    ensures
        r as int == segments_width(segment_views(spans@)) || (r == usize::MAX && segments_width(segment_views(spans@))
            >= usize::MAX),
{
    let mut total: usize = 0;
    let mut i: usize = 0;
    while i < spans.len()
        invariant
            i <= spans@.len(),
            total as int == segments_width(segment_views(spans@.take(i as int))) || (total == usize::MAX
                && segments_width(segment_views(spans@.take(i as int))) >= usize::MAX),
        decreases spans@.len() - i,
    {
        assert(segment_views(spans@.take(i + 1)).drop_last() =~= segment_views(spans@.take(i as int)));
        let n = chars_of(spans[i].0.as_str()).len();
        total = total.saturating_add(n);
        i += 1;
    }
    assert(spans@.take(spans@.len() as int) =~= spans@);
    total
}

/// Whether segments fit in `max_width` characters.
pub fn segments_fit(spans: &Vec<(String, SegmentStyle)>, max_width: usize) -> (r: bool)
    ensures
        r == (segments_width(segment_views(spans@)) <= max_width),
{
    let mut total: u128 = 0;
    let mut i: usize = 0;
    while i < spans.len()
        invariant
            i <= spans@.len(),
            total as int == segments_width(segment_views(spans@.take(i as int))),
            total <= i * (usize::MAX as int),
        decreases spans@.len() - i,
    {
        assert(segment_views(spans@.take(i + 1)).drop_last() =~= segment_views(spans@.take(i as int)));
        let n = chars_of(spans[i].0.as_str()).len();
        assert(total + n <= (i + 1) * (usize::MAX as int)) by (nonlinear_arith)
            requires
                total <= i * (usize::MAX as int),
                n <= usize::MAX,
        ;
        assert((i + 1) * (usize::MAX as int) <= (usize::MAX as int) * (usize::MAX as int)) by (nonlinear_arith)
            requires
                i < usize::MAX,
        ;
        total = total + n as u128;
        i += 1;
    }
    assert(spans@.take(spans@.len() as int) =~= spans@);
    total <= max_width as u128
}

/// The left segments, without the status text when they would not
/// fit in `max_width` characters with it; nothing in no room at all.
pub fn status_left(f: &StatusFacts, max_width: usize) -> (r: Vec<(String, SegmentStyle)>)
    ensures
        max_width == 0 ==> r@.len() == 0,
        max_width > 0 ==> segment_views(r@) == if segments_width(spec_left_segments(*f, true)) <= max_width {
            spec_left_segments(*f, true)
        } else {
            spec_left_segments(*f, false)
        },
{
    if max_width == 0 {
        return Vec::new();
    }
    let with_status = left_segments(f, true);
    if segments_fit(&with_status, max_width) {
        return with_status;
    }
    left_segments(f, false)
}

/// "selected/total" counted from one, "0/0" when empty.
pub fn position_label(selected: usize, total: usize) -> (r: String)
    requires
        selected < usize::MAX,
    ensures
        r@ == if total == 0 {
            "0/0"@
        } else {
            decimal((selected + 1) as nat) + "/"@ + decimal(total as nat)
        },
{
    if total == 0 {
        return "0/0".to_owned();
    }
    let mut out = crate::text::decimal_string((selected + 1) as u64);
    push_str(&mut out, "/");
    push_decimal(&mut out, total as u64);
    out
}

/// The search being typed, the composer's title, or else the visible
/// status, or else what is running.
pub fn status_text(mode: &InputMode, overlay: &Option<Overlay>, visible: Option<&str>, running: Option<&str>) -> (r: String)
    ensures
        r@ == match mode {
            InputMode::Search { buffer } => "/"@ + buffer@,
            InputMode::Normal => match overlay {
                Some(Overlay::Composer(c)) => c.spec_title(),
                _ => match visible {
                    Some(v) => v@,
                    None => match running {
                        Some(t) => t@,
                        None => Seq::empty(),
                    },
                },
            },
        },
{
    match mode {
        InputMode::Search { buffer } => {
            let mut out = "/".to_owned();
            push_str(&mut out, buffer.as_str());
            out
        },
        InputMode::Normal => match overlay {
            Some(Overlay::Composer(c)) => c.title().to_owned(),
            _ => match visible {
                Some(v) => v.to_owned(),
                None => match running {
                    Some(t) => t.to_owned(),
                    None => String::new(),
                },
            },
        },
    }
}

/// The title of a pushed view, or the active feed's label
/// at the root.
pub fn location_label(depth: usize, current_title: &str, feed_label: Option<&str>) -> (r: String)
    ensures
        r@ == if depth > 1 {
            current_title@
        } else {
            match feed_label {
                Some(l) => l@,
                None => "Following"@,
            }
        },
{
    if depth > 1 {
        current_title.to_owned()
    } else {
        match feed_label {
            Some(l) => l.to_owned(),
            None => "Following".to_owned(),
        }
    }
}

// ---------------------------------------------------------------------------
// Scrolling a view of rows of different heights

/// The lines that rows `a` to `b` (both included) take.
pub open spec fn range_height(h: Seq<usize>, a: int, b: int) -> int
    decreases b - a + 1,
{
    if a > b || a < 0 || b >= h.len() {
        0
    } else {
        h[a] + range_height(h, a + 1, b)
    }
}

fn range_height_of(h: &Vec<usize>, a: usize, b: usize) -> (r: u128)
    requires
        a <= b < h@.len(),
    ensures
        r as int == range_height(h@, a as int, b as int),
{
    let mut total: u128 = 0;
    let n = h.len();
    assert(b < n);
    let mut i: usize = b + 1;
    while i > a
        invariant
            a <= i <= b + 1,
            b < h@.len(),
            b < usize::MAX,
            total as int == range_height(h@, i as int, b as int),
            total <= (b + 1 - i) * (usize::MAX as int),
        decreases i,
    {
        assert(total + h@[i - 1] <= (b + 1 - (i - 1)) * (usize::MAX as int)) by (nonlinear_arith)
            requires
                total <= (b + 1 - i) * (usize::MAX as int),
                h@[i - 1] <= usize::MAX,
        ;
        assert((b + 1 - (i - 1)) * (usize::MAX as int) <= (usize::MAX as int) * (usize::MAX as int)) by (nonlinear_arith)
            requires
                b + 1 - (i - 1) <= usize::MAX,
        ;
        total = total + h[i - 1] as u128;
        i -= 1;
    }
    total
}

/// `r` (selection, scroll) is what `ensure_selected_visible` gives for these rows.
pub open spec fn keeps_selection_in_view(heights: Seq<usize>, selected: usize, scroll: usize, available: usize, r: (usize, usize)) -> bool {
    &&& heights.len() == 0 ==> r == (0usize, 0usize)
    &&& heights.len() > 0 ==> {
        let last = heights.len() - 1;
        let sel = if selected <= last { selected as int } else { last };
        let top = if scroll <= last { scroll as int } else { last };
        &&& r.0 == sel
        &&& sel < top ==> r.1 == sel
        &&& sel >= top && available == 0 ==> r.1 == top
        &&& sel >= top && available > 0 ==> {
            &&& top <= r.1 <= sel
            &&& (r.1 == sel || range_height(heights, r.1 as int, sel) <= available)
            &&& forall|s: int| top <= s < r.1 ==> #[trigger] range_height(heights, s, r.0 as int) > available
        }
    }
}

/// Keeping the selection in view never leaves it outside the rows shown: the
/// selection names a row, the view starts at or above it, and the rows from the top of
/// the view down to the selection fit in the lines available (unless the selection is
/// itself the top row); and the view scrolls no further than it must, so the row just
/// above the top would not have fitted with it.
pub proof fn law_selection_stays_visible(
    heights: Seq<usize>,
    selected: usize,
    scroll: usize,
    available: usize,
    r: (usize, usize),
)
    requires
        keeps_selection_in_view(heights, selected, scroll, available, r),
        heights.len() > 0,
        available > 0,
    ensures
        r.0 < heights.len(),
        r.1 <= r.0,
        r.1 == r.0 || range_height(heights, r.1 as int, r.0 as int) <= available,
        r.1 > scroll && r.1 > 0 ==> range_height(heights, r.1 - 1, r.0 as int) > available,
{
    let last = heights.len() - 1;
    let sel = if selected <= last { selected as int } else { last };
    let top = if scroll <= last { scroll as int } else { last };
    if r.1 > scroll && r.1 > 0 && sel >= top {
        let s = r.1 - 1;
        assert(top <= s < r.1);
        assert(range_height(heights, s, r.0 as int) > available);
    }
}

/// The selection and scroll offset after clamping both to
/// the rows, bringing a selection above the top into view, and scrolling down the
/// least that lets the rows from the top to the selection fit in `available` lines
/// (the selection may end at the top when it alone is too tall). `heights` gives the
/// lines of each row.
pub fn ensure_selected_visible(selected: usize, scroll: usize, heights: &Vec<usize>, available: usize) -> (r: (usize, usize))
    ensures
        keeps_selection_in_view(heights@, selected, scroll, available, r),
{
    if heights.len() == 0 {
        return (0, 0);
    }
    let last = heights.len() - 1;
    let sel = if selected <= last {
        selected
    } else {
        last
    };
    let mut top = if scroll <= last {
        scroll
    } else {
        last
    };
    if sel < top {
        return (sel, sel);
    }
    if available == 0 {
        return (sel, top);
    }
    let ghost start = top;
    while top < sel && range_height_of(heights, top, sel) > available as u128
        invariant
            start <= top <= sel <= last,
            last == heights@.len() - 1,
            forall|s: int| start <= s < top ==> range_height(heights@, s, sel as int) > available,
        decreases sel - top,
    {
        top += 1;
    }
    (sel, top)
}

/// Which lines of which rows show from the `scroll` row on, in `available` lines:
/// whole rows while they fit, then the first lines of the row that does not.
pub open spec fn spec_visible_rows(counts: Seq<usize>, i: int, room: int) -> Seq<(usize, usize)>
    decreases counts.len() - i,
{
    if i < 0 || i >= counts.len() || room <= 0 {
        Seq::empty()
    } else if counts[i] > room {
        seq![(i as usize, room as usize)]
    } else {
        seq![(i as usize, counts[i])] + spec_visible_rows(counts, i + 1, room - counts[i])
    }
}

/// The rows shown from `scroll`, each with how many of its lines
/// show. `counts` gives the lines of each row as drawn (the selected one as selected).
pub fn visible_rows(scroll: usize, counts: &Vec<usize>, available: usize) -> (r: Vec<(usize, usize)>)
    ensures
        r@ == spec_visible_rows(counts@, scroll as int, available as int),
{
    let mut out: Vec<(usize, usize)> = Vec::new();
    let mut room: usize = available;
    let mut i: usize = scroll;
    while i < counts.len() && room > 0
        invariant
            scroll <= i,
            room <= available,
            out@ + spec_visible_rows(counts@, i as int, room as int) == spec_visible_rows(counts@, scroll as int, available as int),
        decreases counts@.len() - i,
    {
        if counts[i] > room {
            out.push((i, room));
            assert(spec_visible_rows(counts@, i + 1, 0) =~= Seq::<(usize, usize)>::empty());
            assert(out@ =~= spec_visible_rows(counts@, scroll as int, available as int)) by {
                assert(spec_visible_rows(counts@, i as int, room as int) == seq![(i, room)]);
            }
            return out;
        }
        let ghost before = out@;
        out.push((i, counts[i]));
        room = room - counts[i];
        proof {
            assert(out@ + spec_visible_rows(counts@, i + 1, room as int) =~= before + spec_visible_rows(
                counts@,
                i as int,
                (room + counts@[i as int]) as int,
            ));
        }
        i += 1;
    }
    assert(spec_visible_rows(counts@, i as int, room as int) =~= Seq::<(usize, usize)>::empty());
    out
}

// ---------------------------------------------------------------------------
// Wrapping text

/// The lines of a text (`str::lines`): split at '\n', each without a '\r' just
/// before its '\n'; a final '\n' ends the last line rather than starting a new one.
pub open spec fn text_lines(s: Seq<char>) -> Seq<Seq<char>>
    decreases s.len(),
{
    if s.len() == 0 {
        Seq::empty()
    } else {
        match first_index(s, '\n') {
            None => seq![s],
            Some(i) => {
                let line = if i > 0 && s[i - 1] == '\r' {
                    s.take(i - 1)
                } else {
                    s.take(i)
                };
                proof {
                    crate::text::lemma_first_index(s, '\n');
                }
                seq![line] + text_lines(s.skip(i + 1))
            },
        }
    }
}

/// Lines put back together, a '\n' between each two.
pub open spec fn joined_lines(lines: Seq<Seq<char>>) -> Seq<char>
    decreases lines.len(),
{
    if lines.len() == 0 {
        Seq::empty()
    } else if lines.len() == 1 {
        lines[0]
    } else {
        lines[0] + seq!['\n'] + joined_lines(lines.drop_first())
    }
}

/// A text without carriage returns is its lines put back together, followed by the
/// final '\n' when it had one; no line holds a '\n', and a non-empty text has a line.
pub proof fn law_lines_rebuild_the_text(s: Seq<char>)
    requires
        forall|k: int| 0 <= k < s.len() ==> s[k] != '\r',
    ensures
        s.len() > 0 ==> text_lines(s).len() > 0,
        s == joined_lines(text_lines(s)) || s == joined_lines(text_lines(s)).push('\n'),
        forall|k: int, j: int| 0 <= k < text_lines(s).len() && 0 <= j < text_lines(s)[k].len() ==> text_lines(s)[k][j] != '\n',
    decreases s.len(),
{
    if s.len() > 0 {
        crate::text::lemma_first_index(s, '\n');
        match first_index(s, '\n') {
            None => {
                assert(text_lines(s) == seq![s]);
            },
            Some(i) => {
                let line = s.take(i);
                let rest = s.skip(i + 1);
                assert(text_lines(s) == seq![line] + text_lines(rest));
                law_lines_rebuild_the_text(rest);
                let tl = text_lines(rest);
                if rest.len() == 0 {
                    assert(text_lines(rest) =~= Seq::<Seq<char>>::empty());
                    assert(text_lines(s) =~= seq![line]);
                    assert(s =~= line.push('\n'));
                } else {
                    let lines = text_lines(s);
                    assert(lines.drop_first() =~= tl);
                    assert(joined_lines(lines) == line + seq!['\n'] + joined_lines(tl));
                    if rest == joined_lines(tl) {
                        assert(s =~= line + seq!['\n'] + rest);
                    } else {
                        assert(s =~= (line + seq!['\n'] + joined_lines(tl)).push('\n'));
                    }
                }
                assert forall|k: int, j: int| 0 <= k < text_lines(s).len() && 0 <= j < text_lines(s)[k].len() implies text_lines(s)[k][j] != '\n' by {
                    if k > 0 {
                        assert(text_lines(s)[k] == tl[k - 1]);
                    }
                }
            },
        }
    }
}

/// What `textwrap::wrap(line, width)` returns for a line: the wrapped lines.
pub uninterp spec fn wrapped_lines(line: Seq<char>, width: usize) -> Seq<Seq<char>>;

/// Calls `textwrap::wrap` with the default options for `width` columns (the library
/// never asks for fewer than ten).
#[verifier::external_body]
fn wrap_line(line: &str, width: usize) -> (r: Vec<String>)
    requires
        width >= 10,
    ensures
        r@.len() == wrapped_lines(line@, width).len(),
        forall|i: int| 0 <= i < r@.len() ==> r@[i]@ == wrapped_lines(line@, width)[i],
{
    textwrap::wrap(line, width).into_iter().map(|l| l.into_owned()).collect()
}

pub open spec fn wrap_all(lines: Seq<Seq<char>>, width: usize) -> Seq<Seq<char>>
    decreases lines.len(),
{
    if lines.len() == 0 {
        Seq::empty()
    } else {
        wrap_all(lines.drop_last(), width) + wrapped_lines(lines.last(), width)
    }
}

/// Each line of `text` wrapped to `width` columns (at least ten); an
/// empty text is one empty line.
pub open spec fn spec_wrap_text(text: Seq<char>, width: usize) -> Seq<Seq<char>> {
    if text.len() == 0 {
        seq![Seq::empty()]
    } else {
        wrap_all(text_lines(text), if width < 10 { 10 } else { width })
    }
}

/// Every line of `lines`, wrapped to `width`, each in turn.
pub open spec fn each_wrapped(lines: Seq<Seq<char>>, width: usize) -> Seq<Seq<Seq<char>>> {
    lines.map_values(|l: Seq<char>| wrapped_lines(l, width))
}

proof fn lemma_wrap_all_is_each_in_turn(lines: Seq<Seq<char>>, width: usize)
    ensures
        wrap_all(lines, width) == each_wrapped(lines, width).flatten_alt(),
    decreases lines.len(),
{
    if lines.len() > 0 {
        lemma_wrap_all_is_each_in_turn(lines.drop_last(), width);
        assert(each_wrapped(lines, width).drop_last() =~= each_wrapped(lines.drop_last(), width));
    }
}

/// Wrapping a text wraps each of its lines in turn and keeps every one of them, an
/// empty line included, whatever the wrapping makes of it; the width is at least ten
/// columns, and an empty text is one empty line.
pub proof fn law_wrap_keeps_every_line(text: Seq<char>, width: usize)
    ensures
        text.len() > 0 ==> spec_wrap_text(text, width) == each_wrapped(
            text_lines(text),
            if width < 10 { 10 } else { width },
        ).flatten(),
        text.len() == 0 ==> spec_wrap_text(text, width) == seq![Seq::<char>::empty()],
{
    let w: usize = if width < 10 { 10 } else { width };
    lemma_wrap_all_is_each_in_turn(text_lines(text), w);
    each_wrapped(text_lines(text), w).lemma_flatten_and_flatten_alt_are_equivalent();
}

pub open spec fn line_views(v: Seq<String>) -> Seq<Seq<char>> {
    v.map_values(|s: String| s@)
}

fn push_wrapped(out: &mut Vec<String>, line: &str, width: usize)
    requires
        width >= 10,
    ensures
        line_views(final(out)@) == line_views(old(out)@) + wrapped_lines(line@, width),
{
    let pieces = wrap_line(line, width);
    let ghost base = line_views(out@);
    let mut i: usize = 0;
    while i < pieces.len()
        invariant
            i <= pieces@.len(),
            pieces@.len() == wrapped_lines(line@, width).len(),
            forall|k: int| 0 <= k < pieces@.len() ==> pieces@[k]@ == wrapped_lines(line@, width)[k],
            line_views(out@) == base + wrapped_lines(line@, width).take(i as int),
        decreases pieces@.len() - i,
    {
        let ghost before = line_views(out@);
        out.push(pieces[i].clone());
        assert(line_views(out@) =~= before.push(pieces@[i as int]@));
        assert(wrapped_lines(line@, width).take(i + 1) =~= wrapped_lines(line@, width).take(i as int).push(wrapped_lines(line@, width)[i as int]));
        i += 1;
    }
    assert(wrapped_lines(line@, width).take(pieces@.len() as int) =~= wrapped_lines(line@, width));
}

/// `wrap_text`.
pub fn wrap_text(text: &str, width: usize) -> (r: Vec<String>)
    ensures
        line_views(r@) == spec_wrap_text(text@, width),
{
    let mut out: Vec<String> = Vec::new();
    let chars = chars_of(text);
    if chars.len() == 0 {
        out.push(String::new());
        assert(line_views(out@) =~= seq![Seq::<char>::empty()]);
        return out;
    }
    let w = if width < 10 {
        10
    } else {
        width
    };
    let mut start: usize = 0;
    let ghost mut done: Seq<Seq<char>> = Seq::empty();
    assert(chars@.skip(0) =~= chars@);
    while start < chars.len()
        invariant
            chars@ == text@,
            start <= chars@.len(),
            text_lines(text@) == done + text_lines(chars@.skip(start as int)),
            line_views(out@) == wrap_all(done, w),
            w >= 10,
        decreases chars@.len() - start,
    {
        let ghost rest = chars@.skip(start as int);
        let mut end = start;
        while end < chars.len() && chars[end] != '\n'
            invariant
                start <= end <= chars@.len(),
                forall|k: int| start <= k < end ==> chars@[k] != '\n',
            decreases chars@.len() - end,
        {
            end += 1;
        }
        proof {
            lemma_first_index(rest, '\n');
            assert forall|k: int| 0 <= k < end - start implies rest[k] != '\n' by {
                assert(rest[k] == chars@[start + k]);
            }
            if end < chars@.len() {
                assert(rest[end - start] == '\n');
                assert(first_index(rest, '\n') == Some((end - start) as int));
            } else {
                assert(first_index(rest, '\n') is None);
            }
        }
        let cut = if end > start && end < chars.len() && chars[end - 1] == '\r' {
            end - 1
        } else {
            end
        };
        let line = string_from_chars(&chars, start, cut);
        push_wrapped(&mut out, line.as_str(), w);
        let next = if end < chars.len() {
            end + 1
        } else {
            end
        };
        proof {
            assert(line@ =~= rest.take(cut - start));
            if end < chars@.len() {
                assert(rest.skip(end - start + 1) =~= chars@.skip(next as int));
                if end > start && chars@[end - 1] == '\r' {
                    assert(rest[end - start - 1] == '\r');
                }
                assert(text_lines(rest) == seq![line@] + text_lines(chars@.skip(next as int)));
            } else {
                assert(rest.take(cut - start) =~= rest);
                assert(chars@.skip(next as int) =~= Seq::<char>::empty());
                assert(text_lines(rest) == seq![line@]);
                assert(text_lines(chars@.skip(next as int)) == Seq::<Seq<char>>::empty());
            }
            let new_done = done.push(line@);
            assert(new_done.drop_last() =~= done);
            assert(done + text_lines(rest) =~= new_done + text_lines(chars@.skip(next as int)));
            done = new_done;
        }
        start = next;
    }
    assert(chars@.skip(start as int) =~= Seq::<char>::empty());
    assert(done + Seq::<Seq<char>>::empty() =~= done);
    out
}


/// What a notification says its author did.
pub open spec fn reason_label(reason: NotificationReason) -> Seq<char> {
    match reason {
        NotificationReason::Like => "liked your post"@,
        NotificationReason::Repost => "reposted your post"@,
        NotificationReason::Follow => "followed you"@,
        NotificationReason::Mention => "mentioned you"@,
        NotificationReason::Reply => "replied to you"@,
        NotificationReason::Quote => "quoted your post"@,
        NotificationReason::Other => "notified you"@,
    }
}

pub fn notification_reason_label(reason: NotificationReason) -> (r: &'static str)
    ensures
        r@ == reason_label(reason),
{
    match reason {
        NotificationReason::Like => "liked your post",
        NotificationReason::Repost => "reposted your post",
        NotificationReason::Follow => "followed you",
        NotificationReason::Mention => "mentioned you",
        NotificationReason::Reply => "replied to you",
        NotificationReason::Quote => "quoted your post",
        NotificationReason::Other => "notified you",
    }
}

pub open spec fn spec_notification_header(item: NotificationItem, selected: bool, time: Seq<char>) -> Seq<char> {
    (if selected { ">"@ } else { " "@ }) + " "@ + (if item.is_read { " "@ } else { "●"@ }) + " "@
        + item.author_name@ + " @"@ + item.author_handle@ + " "@ + reason_label(item.reason) + " "@ + time
}

/// The first line of a notification row: selection marker, unread dot, author, what
/// they did, and `time` (the row's compact time).
pub fn notification_header(item: &NotificationItem, selected: bool, time: &str) -> (r: String)
    ensures
        r@ == spec_notification_header(*item, selected, time@),
{
    let mut out = if selected { ">".to_owned() } else { " ".to_owned() };
    push_str(&mut out, " ");
    push_str(&mut out, if item.is_read { " " } else { "●" });
    push_str(&mut out, " ");
    push_str(&mut out, item.author_name.as_str());
    push_str(&mut out, " @");
    push_str(&mut out, item.author_handle.as_str());
    push_str(&mut out, " ");
    push_str(&mut out, notification_reason_label(item.reason));
    push_str(&mut out, " ");
    push_str(&mut out, time);
    out
}

/// The name line of a profile header.
pub fn profile_title(profile: &ProfileSummary) -> (r: String)
    ensures
        r@ == profile.display_name@ + " @"@ + profile.handle@,
{
    let mut out = profile.display_name.clone();
    push_str(&mut out, " @");
    push_str(&mut out, profile.handle.as_str());
    out
}

/// Whether the viewer follows a profile, said only of another account's profile.
pub open spec fn follow_state(profile: ProfileSummary, active_did: Seq<char>) -> Seq<char> {
    if profile.did@.len() > 0 && profile.did@ != active_did {
        if profile.viewer_following is Some {
            "  · following"@
        } else {
            "  · not following"@
        }
    } else {
        Seq::empty()
    }
}

pub open spec fn spec_profile_stats(profile: ProfileSummary, active_did: Seq<char>) -> Seq<char> {
    decimal(profile.followers_count as nat) + " followers  "@ + decimal(profile.follows_count as nat)
        + " following  "@ + decimal(profile.posts_count as nat) + " posts"@ + follow_state(profile, active_did)
}

/// The counters line of a profile header, with the follow state for another account.
pub fn profile_stats(profile: &ProfileSummary, active_did: &str) -> (r: String)
    ensures
        r@ == spec_profile_stats(*profile, active_did@),
{
    let mut out = String::new();
    push_decimal(&mut out, profile.followers_count);
    push_str(&mut out, " followers  ");
    push_decimal(&mut out, profile.follows_count);
    push_str(&mut out, " following  ");
    push_decimal(&mut out, profile.posts_count);
    push_str(&mut out, " posts");
    let other = profile.did.as_str().unicode_len() > 0 && !crate::text::strings_equal(profile.did.as_str(), active_did);
    if other {
        push_str(&mut out, if profile.viewer_following.is_some() { "  · following" } else { "  · not following" });
    }
    out
}

} // verus!
