//! The text of the rows of a view as they are drawn: each row is a list of lines,
//! each line a list of spans with the style they are drawn in. Turning the spans
//! into terminal cells is left to the caller.

use vstd::prelude::*;

use crate::api::is_reading;
use crate::clock::epoch_elapsed;

use crate::model::{ExternalRef, FeedItem, FeedReason, ImageRef, NotificationItem, NotificationTarget, QuotePost, ReplyContext, ReplyParentStatus, VideoRef};
use crate::text::{decimal, is_blank, push_decimal, push_str, str_is_blank};
use crate::model::{opt_view, ProfileSummary, ViewItem};
use crate::navigation::{CachedItemLines, LayoutCache, ViewKind, ViewState};
use crate::ui::{
    compact_time, compact_time_at, spec_compact_time_at, empty_view_text, profile_stats, profile_title, spec_profile_stats, ensure_selected_visible, is_compact_time, keeps_selection_in_view, line_views,
    spec_empty_view_text, spec_visible_rows, visible_rows, notification_header, reason_text_at, spec_notification_header, spec_reason_text, spec_wrap_text,
    wrap_text,
};

verus! {

/// How a span is drawn.
#[derive(Debug, Clone, Copy, PartialEq, Eq, Structural)]
pub enum SpanStyle {
    Plain,
    Dim,
    /// The author line of a post or of an unread notification.
    Header,
    /// The author line of a notification already read.
    ReadHeader,
    /// The author line of the selected row.
    SelectedHeader,
    Media,
    Link,
    QuoteHeader,
    /// The repost counter when the viewer reposted.
    Reposted,
    /// The like counter when the viewer liked.
    Liked,
    /// A warning, such as a post over the length limit.
    Alert,
    /// The key that confirms a destructive action.
    ConfirmKey,
}

pub open spec fn span_views(l: Seq<(String, SpanStyle)>) -> Seq<(Seq<char>, SpanStyle)> {
    l.map_values(|s: (String, SpanStyle)| (s.0@, s.1))
}

pub open spec fn lines_view(v: Seq<Vec<(String, SpanStyle)>>) -> Seq<Seq<(Seq<char>, SpanStyle)>> {
    v.map_values(|l: Vec<(String, SpanStyle)>| span_views(l@))
}

/// `n` pairs of spaces.
pub open spec fn spaces(n: nat) -> Seq<char>
    decreases n,
{
    if n == 0 {
        Seq::empty()
    } else {
        spaces((n - 1) as nat) + "  "@
    }
}

/// The indentation of a reply at `depth` in a thread: two spaces a level, six levels at most.
pub open spec fn indent_of(depth: usize) -> Seq<char> {
    spaces(if depth < 6 { depth as nat } else { 6 })
}

/// The width left for text after a prefix of `prefix_len` bytes; never under ten.
pub open spec fn text_width(width: usize, prefix_len: nat) -> usize {
    let w = if width >= prefix_len { (width - prefix_len) as usize } else { 0 };
    if w < 10 { 10 } else { w }
}

/// Each line drawn as one span, after `prefix`.
pub open spec fn prefixed(lines: Seq<Seq<char>>, prefix: Seq<char>, style: SpanStyle) -> Seq<Seq<(Seq<char>, SpanStyle)>> {
    lines.map_values(|l: Seq<char>| seq![(prefix + l, style)])
}

/// Each line drawn after a plain `prefix`, in `style`.
pub open spec fn summarised(lines: Seq<Seq<char>>, prefix: Seq<char>, style: SpanStyle) -> Seq<Seq<(Seq<char>, SpanStyle)>> {
    lines.map_values(|l: Seq<char>| seq![(prefix, SpanStyle::Plain), (l, style)])
}

pub open spec fn alt_suffix(alt: Option<String>) -> Seq<char> {
    match alt {
        Some(a) => ": "@ + a@,
        None => Seq::empty(),
    }
}

pub open spec fn count_label(n: nat, one: Seq<char>, many: Seq<char>, alt: Option<String>) -> Seq<char> {
    "["@ + decimal(n) + " "@ + (if n == 1 { one } else { many }) + alt_suffix(alt) + "]"@
}

pub open spec fn external_label(e: ExternalRef) -> Seq<char> {
    "[link] "@ + e.title@ + match e.description {
        Some(d) => " - "@ + d@,
        None => Seq::empty(),
    }
}

/// The summary of a post's images, videos and link card, after `prefix` (`prefix_len`
/// bytes long).
pub open spec fn spec_media_summary(
    prefix: Seq<char>,
    prefix_len: nat,
    width: usize,
    images: Seq<ImageRef>,
    videos: Seq<VideoRef>,
    external: Option<ExternalRef>,
) -> Seq<Seq<(Seq<char>, SpanStyle)>> {
    let w = text_width(width, prefix_len);
    (if images.len() > 0 {
        summarised(spec_wrap_text(count_label(images.len(), "image"@, "images"@, images[0].alt), w), prefix, SpanStyle::Media)
    } else {
        Seq::empty()
    }) + (if videos.len() > 0 {
        summarised(spec_wrap_text(count_label(videos.len(), "video"@, "videos"@, videos[0].alt), w), prefix, SpanStyle::Media)
    } else {
        Seq::empty()
    }) + match external {
        Some(e) => summarised(spec_wrap_text(external_label(e), w), prefix, SpanStyle::Link),
        None => Seq::empty(),
    }
}

/// What the line above a reply says it replies to.
pub open spec fn reply_label(reply: ReplyContext) -> Seq<char> {
    match reply.parent_status {
        Some(ReplyParentStatus::Blocked) => "↩ replying to blocked post"@,
        Some(ReplyParentStatus::NotFound) => "↩ replying to missing post"@,
        None => "↩ replying to @"@ + reply.parent_author_handle@ + match reply.grandparent_author_handle {
            Some(g) => " via @"@ + g@,
            None => Seq::empty(),
        },
    }
}

/// The reply context above a post: the label and up to two lines of the parent's text.
pub open spec fn spec_reply_preview(reply: ReplyContext, width: usize, prefix: Seq<char>, prefix_len: nat) -> Seq<Seq<(Seq<char>, SpanStyle)>> {
    let preview = spec_wrap_text(reply.parent_text@, text_width(width, prefix_len + 4));
    seq![seq![(prefix + reply_label(reply), SpanStyle::Dim)]] + prefixed(
        preview.take(if preview.len() < 2 { preview.len() as int } else { 2 }),
        prefix + "│ "@,
        SpanStyle::Dim,
    )
}

/// A quoted post inside a post: its author line, text, media and the post it quotes.
pub open spec fn spec_quote_lines(quote: QuotePost, width: usize, prefix: Seq<char>, prefix_len: nat, time: Seq<char>) -> Seq<Seq<(Seq<char>, SpanStyle)>> {
    let qprefix = prefix + "| "@;
    seq![seq![(prefix + "+-- quote "@ + quote.author_name@ + " @"@ + quote.author_handle@ + " "@ + time, SpanStyle::QuoteHeader)]]
        + prefixed(spec_wrap_text(quote.text@, text_width(width, prefix_len + 2)), qprefix, SpanStyle::Plain)
        + spec_media_summary(qprefix, prefix_len + 2, width, quote.images@, quote.videos@, quote.external)
        + nested_quote_lines(qprefix, quote.nested_quote)
}

/// The line naming the post a quoted post quotes in turn, if it does.
pub open spec fn nested_quote_lines(prefix: Seq<char>, nested: Option<String>) -> Seq<Seq<(Seq<char>, SpanStyle)>> {
    match nested {
        Some(n) => seq![seq![(prefix + "nested quote: "@ + n@, SpanStyle::Plain)]],
        None => Seq::empty(),
    }
}

/// The counters under a post; the repost and like counters stand out when the viewer
/// reposted or liked it.
pub open spec fn spec_engagement_line(item: FeedItem, prefix: Seq<char>) -> Seq<(Seq<char>, SpanStyle)> {
    seq![
        (prefix, SpanStyle::Plain),
        ("↩ "@ + decimal(item.reply_count as nat) + "  "@, SpanStyle::Plain),
        ("⟳ "@ + decimal(item.repost_count as nat), if item.viewer_repost is Some { SpanStyle::Reposted } else { SpanStyle::Plain }),
        ("  "@, SpanStyle::Plain),
        ((if item.viewer_like is Some { "♥ "@ } else { "♡ "@ }) + decimal(item.like_count as nat), if item.viewer_like is Some { SpanStyle::Liked } else { SpanStyle::Plain }),
        ("  ❞ "@ + decimal(item.quote_count as nat), SpanStyle::Plain),
    ]
}

/// The times shown in a post row: the post's own, its repost's and its quote's.
pub struct RowTimes {
    pub post: String,
    pub reason: String,
    pub quote: String,
}

/// The lines of a post row: why it is shown, what it replies to, the author line,
/// the text, the media summary, the quote, the embed status, the counters and a blank
/// line.
pub open spec fn spec_post_lines(item: FeedItem, selected: bool, width: usize, times: RowTimes) -> Seq<Seq<(Seq<char>, SpanStyle)>> {
    let indent = indent_of(item.depth);
    let prefix = "  "@ + indent;
    let plen = prefix.len();
    reason_lines(prefix, item.reason, times.reason@) + reply_lines(item.reply, width, prefix, plen) + seq![seq![(
        (if selected { ">"@ } else { " "@ }) + " "@ + indent + item.author_name@ + " @"@ + item.author_handle@ + " "@ + times.post@,
        if selected { SpanStyle::SelectedHeader } else { SpanStyle::Header },
    )]] + prefixed(spec_wrap_text(item.text@, text_width(width, plen)), prefix, SpanStyle::Plain)
        + spec_media_summary(prefix, plen, width, item.images@, item.videos@, item.external)
        + quote_part(item.quote, width, prefix, plen, times.quote@) + status_lines(prefix, item.embed_status)
        + seq![spec_engagement_line(item, prefix), Seq::empty()]
}

/// Why a post is shown, if it says.
pub open spec fn reason_lines(prefix: Seq<char>, reason: Option<FeedReason>, time: Seq<char>) -> Seq<Seq<(Seq<char>, SpanStyle)>> {
    match reason {
        Some(r) => seq![seq![(prefix + spec_reason_text(r, time), SpanStyle::Dim)]],
        None => Seq::empty(),
    }
}

/// The reply context of a post, if it replies.
pub open spec fn reply_lines(reply: Option<ReplyContext>, width: usize, prefix: Seq<char>, prefix_len: nat) -> Seq<Seq<(Seq<char>, SpanStyle)>> {
    match reply {
        Some(r) => spec_reply_preview(r, width, prefix, prefix_len),
        None => Seq::empty(),
    }
}

/// The quoted post inside a post, if it quotes one.
pub open spec fn quote_part(quote: Option<QuotePost>, width: usize, prefix: Seq<char>, prefix_len: nat, time: Seq<char>) -> Seq<Seq<(Seq<char>, SpanStyle)>> {
    match quote {
        Some(q) => spec_quote_lines(q, width, prefix, prefix_len, time),
        None => Seq::empty(),
    }
}

/// The line of a post's embed status, if it has one.
pub open spec fn status_lines(prefix: Seq<char>, status: Option<String>) -> Seq<Seq<(Seq<char>, SpanStyle)>> {
    match status {
        Some(s) => seq![seq![(prefix + s@, SpanStyle::Plain)]],
        None => Seq::empty(),
    }
}

/// The lines of a notification row: its header, up to three lines of its text, what it
/// is about (or that it opens nothing) and a blank line.
pub open spec fn spec_notification_lines(item: NotificationItem, selected: bool, width: usize, time: Seq<char>) -> Seq<Seq<(Seq<char>, SpanStyle)>> {
    let body = spec_wrap_text(item.text@, text_width(width, 2));
    seq![seq![(
        spec_notification_header(item, selected, time),
        if selected { SpanStyle::SelectedHeader } else if item.is_read { SpanStyle::ReadHeader } else { SpanStyle::Header },
    )]] + (if !is_blank(item.text@) {
        prefixed(body.take(if body.len() < 3 { body.len() as int } else { 3 }), "  "@, SpanStyle::Plain)
    } else {
        Seq::empty()
    }) + subject_lines(item.reason_subject, item.target) + seq![Seq::empty()]
}

/// What a notification is about, or that it opens nothing.
pub open spec fn subject_lines(subject: Option<String>, target: NotificationTarget) -> Seq<Seq<(Seq<char>, SpanStyle)>> {
    match subject {
        Some(s) => seq![seq![("  subject: "@ + s@, SpanStyle::Dim)]],
        None => if target is NoTarget {
            seq![seq![("  [no openable target]"@, SpanStyle::Dim)]]
        } else {
            Seq::empty()
        },
    }
}


fn line_of(text: String, style: SpanStyle) -> (r: Vec<(String, SpanStyle)>)
    ensures
        span_views(r@) == seq![(text@, style)],
{
    let mut line: Vec<(String, SpanStyle)> = Vec::new();
    line.push((text, style));
    assert(span_views(line@) =~= seq![(text@, style)]);
    line
}

fn joined(a: &str, b: &str) -> (r: String)
    ensures
        r@ == a@ + b@,
{
    let mut s = a.to_owned();
    push_str(&mut s, b);
    s
}

fn text_width_of(width: usize, prefix_len: usize) -> (r: usize)
    ensures
        r == text_width(width, prefix_len as nat),
{
    let w = width.saturating_sub(prefix_len);
    if w < 10 { 10 } else { w }
}

fn spaces_text(n: usize) -> (r: String)
    ensures
        r@ == spaces(n as nat),
{
    let mut s = String::new();
    let mut i: usize = 0;
    while i < n
        invariant
            i <= n,
            s@ == spaces(i as nat),
        decreases n - i,
    {
        push_str(&mut s, "  ");
        i += 1;
    }
    s
}

proof fn lemma_spaces_len(n: nat)
    ensures
        spaces(n).len() == 2 * n,
    decreases n,
{
    reveal_strlit("  ");
    if n > 0 {
        lemma_spaces_len((n - 1) as nat);
    }
}

/// Appends `lines` (at most `limit` of them), each as one span after `prefix`.
fn push_prefixed(out: &mut Vec<Vec<(String, SpanStyle)>>, lines: &Vec<String>, limit: usize, prefix: &str, style: SpanStyle)
    ensures
        lines_view(final(out)@) == lines_view(old(out)@) + prefixed(
            line_views(lines@).take(if lines@.len() < limit { lines@.len() as int } else { limit as int }),
            prefix@,
            style,
        ),
{
    let ghost base = lines_view(out@);
    let n = if lines.len() < limit { lines.len() } else { limit };
    let mut i: usize = 0;
    while i < n
        invariant
            n <= lines@.len(),
            i <= n,
            lines_view(out@) == base + prefixed(line_views(lines@).take(i as int), prefix@, style),
        decreases n - i,
    {
        let ghost before = lines_view(out@);
        out.push(line_of(joined(prefix, lines[i].as_str()), style));
        assert(lines_view(out@) =~= before.push(seq![(prefix@ + lines@[i as int]@, style)]));
        assert(line_views(lines@).take(i + 1) =~= line_views(lines@).take(i as int).push(lines@[i as int]@));
        assert(prefixed(line_views(lines@).take(i + 1), prefix@, style) =~= prefixed(line_views(lines@).take(i as int), prefix@, style).push(
            seq![(prefix@ + lines@[i as int]@, style)],
        ));
        i += 1;
    }
}

/// Appends `lines`, each drawn in `style` after a plain `prefix`.
fn push_summarised(out: &mut Vec<Vec<(String, SpanStyle)>>, lines: &Vec<String>, prefix: &str, style: SpanStyle)
    ensures
        lines_view(final(out)@) == lines_view(old(out)@) + summarised(line_views(lines@), prefix@, style),
{
    let ghost base = lines_view(out@);
    let mut i: usize = 0;
    while i < lines.len()
        invariant
            i <= lines@.len(),
            lines_view(out@) == base + summarised(line_views(lines@).take(i as int), prefix@, style),
        decreases lines@.len() - i,
    {
        let ghost before = lines_view(out@);
        let mut line: Vec<(String, SpanStyle)> = Vec::new();
        line.push((prefix.to_owned(), SpanStyle::Plain));
        line.push((lines[i].clone(), style));
        let ghost expected = seq![(prefix@, SpanStyle::Plain), (lines@[i as int]@, style)];
        assert(span_views(line@) =~= expected);
        out.push(line);
        assert(lines_view(out@) =~= before.push(expected));
        assert(line_views(lines@).take(i + 1) =~= line_views(lines@).take(i as int).push(lines@[i as int]@));
        assert(summarised(line_views(lines@).take(i + 1), prefix@, style) =~= summarised(line_views(lines@).take(i as int), prefix@, style).push(
            expected,
        ));
        i += 1;
    }
    assert(line_views(lines@).take(lines@.len() as int) =~= line_views(lines@));
}

fn count_text(n: usize, one: &str, many: &str, alt: &Option<String>) -> (r: String)
    ensures
        r@ == count_label(n as nat, one@, many@, *alt),
{
    let mut s = "[".to_owned();
    push_decimal(&mut s, n as u64);
    push_str(&mut s, " ");
    push_str(&mut s, if n == 1 { one } else { many });
    if let Some(a) = alt {
        push_str(&mut s, ": ");
        push_str(&mut s, a.as_str());
    }
    push_str(&mut s, "]");
    s
}

fn push_media_summary(
    out: &mut Vec<Vec<(String, SpanStyle)>>,
    prefix: &str,
    width: usize,
    images: &Vec<ImageRef>,
    videos: &Vec<VideoRef>,
    external: &Option<ExternalRef>,
)
    ensures
        lines_view(final(out)@) == lines_view(old(out)@) + spec_media_summary(prefix@, prefix@.len(), width, images@, videos@, *external),
{
    let ghost base = lines_view(out@);
    let plen = prefix.unicode_len();
    let w = text_width_of(width, plen);
    if images.len() > 0 {
        let label = count_text(images.len(), "image", "images", &images[0].alt);
        let wrapped = wrap_text(label.as_str(), w);
        push_summarised(out, &wrapped, prefix, SpanStyle::Media);
    }
    let ghost after_images = lines_view(out@);
    if videos.len() > 0 {
        let label = count_text(videos.len(), "video", "videos", &videos[0].alt);
        let wrapped = wrap_text(label.as_str(), w);
        push_summarised(out, &wrapped, prefix, SpanStyle::Media);
    }
    let ghost after_videos = lines_view(out@);
    if let Some(e) = external {
        let mut label = "[link] ".to_owned();
        push_str(&mut label, e.title.as_str());
        if let Some(d) = &e.description {
            push_str(&mut label, " - ");
            push_str(&mut label, d.as_str());
        }
        assert(label@ == external_label(*e));
        let wrapped = wrap_text(label.as_str(), w);
        push_summarised(out, &wrapped, prefix, SpanStyle::Link);
    }
    assert(lines_view(out@) =~= base + spec_media_summary(prefix@, prefix@.len(), width, images@, videos@, *external));
}

fn push_reply_preview(out: &mut Vec<Vec<(String, SpanStyle)>>, reply: &ReplyContext, width: usize, prefix: &str)
    requires
        prefix@.len() <= 16,
    ensures
        lines_view(final(out)@) == lines_view(old(out)@) + spec_reply_preview(*reply, width, prefix@, prefix@.len()),
{
    let ghost base = lines_view(out@);
    let mut label = prefix.to_owned();
    match reply.parent_status {
        Some(ReplyParentStatus::Blocked) => push_str(&mut label, "↩ replying to blocked post"),
        Some(ReplyParentStatus::NotFound) => push_str(&mut label, "↩ replying to missing post"),
        None => {
            push_str(&mut label, "↩ replying to @");
            push_str(&mut label, reply.parent_author_handle.as_str());
            if let Some(g) = &reply.grandparent_author_handle {
                push_str(&mut label, " via @");
                push_str(&mut label, g.as_str());
            }
        },
    }
    assert(label@ == prefix@ + reply_label(*reply));
    out.push(line_of(label, SpanStyle::Dim));
    let ghost mid = lines_view(out@);
    assert(mid =~= base + seq![seq![(prefix@ + reply_label(*reply), SpanStyle::Dim)]]);
    let plen = prefix.unicode_len();
    let preview = wrap_text(reply.parent_text.as_str(), text_width_of(width, plen + 4));
    let preview_prefix = joined(prefix, "│ ");
    push_prefixed(out, &preview, 2, preview_prefix.as_str(), SpanStyle::Dim);
    assert(lines_view(out@) =~= base + spec_reply_preview(*reply, width, prefix@, prefix@.len()));
}

fn push_quote_lines(out: &mut Vec<Vec<(String, SpanStyle)>>, quote: &QuotePost, width: usize, prefix: &str, time: &str)
    requires
        prefix@.len() <= 16,
    ensures
        lines_view(final(out)@) == lines_view(old(out)@) + spec_quote_lines(*quote, width, prefix@, prefix@.len(), time@),
{
    let ghost base = lines_view(out@);
    let mut header = prefix.to_owned();
    push_str(&mut header, "+-- quote ");
    push_str(&mut header, quote.author_name.as_str());
    push_str(&mut header, " @");
    push_str(&mut header, quote.author_handle.as_str());
    push_str(&mut header, " ");
    push_str(&mut header, time);
    let ghost header_view = header@;
    out.push(line_of(header, SpanStyle::QuoteHeader));
    let ghost s1 = seq![seq![(header_view, SpanStyle::QuoteHeader)]];
    assert(lines_view(out@) =~= base + s1);
    let qprefix = joined(prefix, "| ");
    proof {
        reveal_strlit("| ");
    }
    assert(qprefix@.len() == prefix@.len() + 2);
    let plen = prefix.unicode_len();
    let body = wrap_text(quote.text.as_str(), text_width_of(width, plen + 2));
    push_prefixed(out, &body, body.len(), qprefix.as_str(), SpanStyle::Plain);
    assert(line_views(body@).take(body@.len() as int) =~= line_views(body@));
    let ghost s2 = prefixed(spec_wrap_text(quote.text@, text_width(width, prefix@.len() + 2)), qprefix@, SpanStyle::Plain);
    assert(lines_view(out@) =~= base + s1 + s2);
    push_media_summary(out, qprefix.as_str(), width, &quote.images, &quote.videos, &quote.external);
    let ghost s3 = spec_media_summary(qprefix@, prefix@.len() + 2, width, quote.images@, quote.videos@, quote.external);
    assert(lines_view(out@) =~= base + s1 + s2 + s3);
    let ghost s4 = nested_quote_lines(qprefix@, quote.nested_quote);
    if let Some(n) = &quote.nested_quote {
        let mut line = qprefix.clone();
        push_str(&mut line, "nested quote: ");
        push_str(&mut line, n.as_str());
        out.push(line_of(line, SpanStyle::Plain));
    }
    assert(lines_view(out@) =~= base + s1 + s2 + s3 + s4);
    assert(s1 + s2 + s3 + s4 =~= spec_quote_lines(*quote, width, prefix@, prefix@.len(), time@));
    assert(lines_view(out@) =~= base + spec_quote_lines(*quote, width, prefix@, prefix@.len(), time@));
}

fn engagement_line(item: &FeedItem, prefix: &str) -> (r: Vec<(String, SpanStyle)>)
    ensures
        span_views(r@) == spec_engagement_line(*item, prefix@),
{
    let mut replies = "↩ ".to_owned();
    push_decimal(&mut replies, item.reply_count);
    push_str(&mut replies, "  ");
    let mut reposts = "⟳ ".to_owned();
    push_decimal(&mut reposts, item.repost_count);
    let mut likes = if item.viewer_like.is_some() { "♥ ".to_owned() } else { "♡ ".to_owned() };
    push_decimal(&mut likes, item.like_count);
    let mut quotes = "  ❞ ".to_owned();
    push_decimal(&mut quotes, item.quote_count);
    let mut line: Vec<(String, SpanStyle)> = Vec::new();
    line.push((prefix.to_owned(), SpanStyle::Plain));
    line.push((replies, SpanStyle::Plain));
    line.push((reposts, if item.viewer_repost.is_some() { SpanStyle::Reposted } else { SpanStyle::Plain }));
    line.push(("  ".to_owned(), SpanStyle::Plain));
    line.push((likes, if item.viewer_like.is_some() { SpanStyle::Liked } else { SpanStyle::Plain }));
    line.push((quotes, SpanStyle::Plain));
    assert(span_views(line@) =~= spec_engagement_line(*item, prefix@));
    line
}

/// The lines of a post row, with the times to show in it.
pub fn post_lines(item: &FeedItem, selected: bool, width: usize, times: &RowTimes) -> (r: Vec<Vec<(String, SpanStyle)>>)
    ensures
        lines_view(r@) == spec_post_lines(*item, selected, width, *times),
{
    let mut out: Vec<Vec<(String, SpanStyle)>> = Vec::new();
    let depth = if item.depth < 6 { item.depth } else { 6 };
    let indent = spaces_text(depth);
    let prefix = joined("  ", indent.as_str());
    proof {
        reveal_strlit("  ");
        lemma_spaces_len(depth as nat);
        assert(indent@ == indent_of(item.depth));
        assert(prefix@.len() <= 16);
    }
    let ghost p = prefix@;
    let ghost plen_spec = p.len();
    assert(lines_view(out@) =~= Seq::empty());
    let ghost s1 = reason_lines(p, item.reason, times.reason@);
    if let Some(reason) = &item.reason {
        let text = reason_text_at(reason, times.reason.as_str());
        out.push(line_of(joined(prefix.as_str(), text.as_str()), SpanStyle::Dim));
    }
    assert(lines_view(out@) =~= s1);
    let ghost s2 = reply_lines(item.reply, width, p, plen_spec);
    if let Some(reply) = &item.reply {
        push_reply_preview(&mut out, reply, width, prefix.as_str());
    }
    assert(lines_view(out@) =~= s1 + s2);
    let mut header = if selected { ">".to_owned() } else { " ".to_owned() };
    push_str(&mut header, " ");
    push_str(&mut header, indent.as_str());
    push_str(&mut header, item.author_name.as_str());
    push_str(&mut header, " @");
    push_str(&mut header, item.author_handle.as_str());
    push_str(&mut header, " ");
    push_str(&mut header, times.post.as_str());
    let ghost s3 = seq![seq![(header@, if selected { SpanStyle::SelectedHeader } else { SpanStyle::Header })]];
    out.push(line_of(header, if selected { SpanStyle::SelectedHeader } else { SpanStyle::Header }));
    assert(lines_view(out@) =~= s1 + s2 + s3);
    let plen = prefix.unicode_len();
    let body = wrap_text(item.text.as_str(), text_width_of(width, plen));
    push_prefixed(&mut out, &body, body.len(), prefix.as_str(), SpanStyle::Plain);
    assert(line_views(body@).take(body@.len() as int) =~= line_views(body@));
    let ghost s4 = prefixed(spec_wrap_text(item.text@, text_width(width, plen_spec)), p, SpanStyle::Plain);
    assert(lines_view(out@) =~= s1 + s2 + s3 + s4);
    push_media_summary(&mut out, prefix.as_str(), width, &item.images, &item.videos, &item.external);
    let ghost s5 = spec_media_summary(p, plen_spec, width, item.images@, item.videos@, item.external);
    assert(lines_view(out@) =~= s1 + s2 + s3 + s4 + s5);
    let ghost s6 = quote_part(item.quote, width, p, plen_spec, times.quote@);
    if let Some(q) = &item.quote {
        push_quote_lines(&mut out, q, width, prefix.as_str(), times.quote.as_str());
    }
    assert(lines_view(out@) =~= s1 + s2 + s3 + s4 + s5 + s6);
    let ghost s7 = status_lines(p, item.embed_status);
    if let Some(status) = &item.embed_status {
        out.push(line_of(joined(prefix.as_str(), status.as_str()), SpanStyle::Plain));
    }
    assert(lines_view(out@) =~= s1 + s2 + s3 + s4 + s5 + s6 + s7);
    out.push(engagement_line(item, prefix.as_str()));
    let blank: Vec<(String, SpanStyle)> = Vec::new();
    assert(span_views(blank@) =~= Seq::empty());
    out.push(blank);
    let ghost s8 = seq![spec_engagement_line(*item, p), Seq::<(Seq<char>, SpanStyle)>::empty()];
    assert(lines_view(out@) =~= s1 + s2 + s3 + s4 + s5 + s6 + s7 + s8);
    assert(s1 + s2 + s3 + s4 + s5 + s6 + s7 + s8 =~= spec_post_lines(*item, selected, width, *times));
    out
}

/// The lines of a notification row, with the time to show.
pub fn notification_lines(item: &NotificationItem, selected: bool, width: usize, time: &str) -> (r: Vec<Vec<(String, SpanStyle)>>)
    ensures
        lines_view(r@) == spec_notification_lines(*item, selected, width, time@),
{
    let mut out: Vec<Vec<(String, SpanStyle)>> = Vec::new();
    let style = if selected {
        SpanStyle::SelectedHeader
    } else if item.is_read {
        SpanStyle::ReadHeader
    } else {
        SpanStyle::Header
    };
    let header = notification_header(item, selected, time);
    let ghost s1 = seq![seq![(header@, style)]];
    out.push(line_of(header, style));
    assert(lines_view(out@) =~= s1);
    let ghost body_spec = spec_wrap_text(item.text@, text_width(width, 2));
    let ghost s2 = if !is_blank(item.text@) {
        prefixed(body_spec.take(if body_spec.len() < 3 { body_spec.len() as int } else { 3 }), "  "@, SpanStyle::Plain)
    } else {
        Seq::<Seq<(Seq<char>, SpanStyle)>>::empty()
    };
    if !str_is_blank(item.text.as_str()) {
        let body = wrap_text(item.text.as_str(), text_width_of(width, 2));
        push_prefixed(&mut out, &body, 3, "  ", SpanStyle::Plain);
    }
    assert(lines_view(out@) =~= s1 + s2);
    let ghost s3 = subject_lines(item.reason_subject, item.target);
    match &item.reason_subject {
        Some(s) => out.push(line_of(joined("  subject: ", s.as_str()), SpanStyle::Dim)),
        None => if let NotificationTarget::NoTarget = item.target {
            out.push(line_of("  [no openable target]".to_owned(), SpanStyle::Dim));
        },
    }
    assert(lines_view(out@) =~= s1 + s2 + s3);
    let blank: Vec<(String, SpanStyle)> = Vec::new();
    assert(span_views(blank@) =~= Seq::empty());
    out.push(blank);
    assert(lines_view(out@) =~= s1 + s2 + s3 + seq![Seq::<(Seq<char>, SpanStyle)>::empty()]);
    out
}


/// The timestamp of a post's repost, if it was reposted.
pub open spec fn repost_time(reason: Option<FeedReason>) -> Option<Seq<char>> {
    match reason {
        Some(FeedReason::Repost { indexed_at, .. }) => opt_view(indexed_at),
        _ => None,
    }
}

/// The timestamp of a post's quoted post, if it quotes one.
pub open spec fn quote_time(quote: Option<QuotePost>) -> Option<Seq<char>> {
    match quote {
        Some(q) => opt_view(q.indexed_at),
        None => None,
    }
}

fn time_at(value: &Option<String>, now: Option<(u64, u32)>) -> (r: String)
    ensures
        r@ == spec_compact_time_at(opt_view(*value), now),
{
    match value {
        Some(v) => compact_time_at(Some(v.as_str()), now),
        None => compact_time_at(None, now),
    }
}

/// The compact times of a post row at the clock reading `now`.
pub open spec fn spec_row_times_at(item: FeedItem, now: Option<(u64, u32)>) -> (Seq<char>, Seq<char>, Seq<char>) {
    (
        spec_compact_time_at(opt_view(item.indexed_at), now),
        spec_compact_time_at(repost_time(item.reason), now),
        spec_compact_time_at(quote_time(item.quote), now),
    )
}

/// The compact times of a post row at the clock reading `now`: of the post, of the
/// repost that brought it, and of the quoted post.
pub fn row_times_at(item: &FeedItem, now: Option<(u64, u32)>) -> (r: RowTimes)
    ensures
        (r.post@, r.reason@, r.quote@) == spec_row_times_at(*item, now),
{
    let post = time_at(&item.indexed_at, now);
    let reason = match &item.reason {
        Some(FeedReason::Repost { indexed_at, .. }) => time_at(indexed_at, now),
        _ => compact_time_at(None, now),
    };
    let quote = match &item.quote {
        Some(q) => time_at(&q.indexed_at, now),
        None => compact_time_at(None, now),
    };
    RowTimes { post, reason, quote }
}

/// The compact times of a post row, all at one reading of the clock taken now.
pub fn row_times(item: &FeedItem) -> (r: RowTimes)
    ensures
        exists|now: Option<(u64, u32)>| is_reading(now) && (r.post@, r.reason@, r.quote@) == #[trigger] spec_row_times_at(*item, now),
        is_compact_time(opt_view(item.indexed_at), r.post@),
        is_compact_time(repost_time(item.reason), r.reason@),
        is_compact_time(quote_time(item.quote), r.quote@),
{
    let now = epoch_elapsed();
    let r = row_times_at(item, now);
    proof {
        assert(is_reading(now));
        assert(r.post@ == spec_compact_time_at(opt_view(item.indexed_at), now));
        assert(r.reason@ == spec_compact_time_at(repost_time(item.reason), now));
        assert(r.quote@ == spec_compact_time_at(quote_time(item.quote), now));
    }
    r
}


/// The lines of a row, drawn selected or not, with the times `times`.
pub open spec fn spec_row_lines(row: ViewItem, selected: bool, width: usize, times: RowTimes) -> Seq<Seq<(Seq<char>, SpanStyle)>> {
    match row {
        ViewItem::Post(p) => spec_post_lines(*p, selected, width, times),
        ViewItem::Notification(n) => spec_notification_lines(*n, selected, width, times.post@),
    }
}

/// `times` are compact times of the row's timestamps (a notification uses the first).
pub open spec fn row_times_of(row: ViewItem, times: RowTimes) -> bool {
    match row {
        ViewItem::Post(p) => {
            &&& is_compact_time(opt_view(p.indexed_at), times.post@)
            &&& is_compact_time(repost_time(p.reason), times.reason@)
            &&& is_compact_time(quote_time(p.quote), times.quote@)
        },
        ViewItem::Notification(n) => is_compact_time(Some(n.indexed_at@), times.post@),
    }
}

/// `c` holds the lines of `row` at `width`, drawn selected and not, with times read
/// from the clock when they were built.
pub open spec fn caches_row(c: CachedItemLines, row: ViewItem, width: usize) -> bool {
    exists|t: RowTimes|
        #[trigger] row_times_of(row, t) && lines_view(c.selected@) == spec_row_lines(row, true, width, t) && lines_view(
            c.unselected@,
        ) == spec_row_lines(row, false, width, t)
}

/// The cache already holds the rows of the view at this width.
pub open spec fn cache_fresh(view: ViewState, width: usize) -> bool {
    view.layout_cache.width == Some(width) && view.layout_cache.items@.len() == view.items@.len()
}

fn cached_row(row: &ViewItem, width: usize) -> (r: CachedItemLines)
    ensures
        caches_row(r, *row, width),
{
    match row {
        ViewItem::Post(p) => {
            let times = row_times(p);
            let r = CachedItemLines { selected: post_lines(p, true, width, &times), unselected: post_lines(p, false, width, &times) };
            assert(row_times_of(*row, times));
            r
        },
        ViewItem::Notification(n) => {
            let time = compact_time(Some(n.indexed_at.as_str()));
            let r = CachedItemLines {
                selected: notification_lines(n, true, width, time.as_str()),
                unselected: notification_lines(n, false, width, time.as_str()),
            };
            let times = RowTimes { post: time, reason: String::new(), quote: String::new() };
            assert(row_times_of(*row, times));
            r
        },
    }
}

/// Builds the lines of every row at `width` unless the cache
/// already holds them, counting the builds.
pub fn ensure_layout_cache(view: &mut ViewState, width: usize)
    requires
        !cache_fresh(*old(view), width) ==> old(view).layout_cache.builds < usize::MAX,
    ensures
        cache_fresh(*old(view), width) ==> *final(view) == *old(view),
        !cache_fresh(*old(view), width) ==> {
            &&& *final(view) == (ViewState { layout_cache: final(view).layout_cache, ..*old(view) })
            &&& final(view).layout_cache.width == Some(width)
            &&& final(view).layout_cache.builds == old(view).layout_cache.builds + 1
            &&& final(view).layout_cache.items@.len() == old(view).items@.len()
            &&& forall|k: int| 0 <= k < old(view).items@.len() ==> caches_row(
                #[trigger] final(view).layout_cache.items@[k],
                old(view).items@[k],
                width,
            )
        },
{
    if view.layout_cache.width == Some(width) && view.layout_cache.items.len() == view.items.len() {
        return;
    }
    let mut rows: Vec<CachedItemLines> = Vec::new();
    let mut i: usize = 0;
    while i < view.items.len()
        invariant
            i <= view.items@.len(),
            rows@.len() == i,
            forall|k: int| 0 <= k < i ==> caches_row(#[trigger] rows@[k], view.items@[k], width),
        decreases view.items@.len() - i,
    {
        rows.push(cached_row(&view.items[i], width));
        i += 1;
    }
    view.layout_cache = LayoutCache { width: Some(width), items: rows, builds: view.layout_cache.builds + 1 };
}

/// The lines of a cached row, drawn selected or not.
pub open spec fn drawn(c: CachedItemLines, selected: bool) -> Seq<Seq<(Seq<char>, SpanStyle)>> {
    lines_view(if selected { c.selected@ } else { c.unselected@ })
}

/// The lines shown for `rows` (row and how many of its lines), the row `sel` drawn selected.
pub open spec fn shown_lines(items: Seq<CachedItemLines>, sel: int, rows: Seq<(usize, usize)>) -> Seq<Seq<(Seq<char>, SpanStyle)>>
    decreases rows.len(),
{
    if rows.len() == 0 {
        Seq::empty()
    } else {
        drawn(items[rows[0].0 as int], rows[0].0 == sel).take(rows[0].1 as int) + shown_lines(items, sel, rows.drop_first())
    }
}

/// How many lines each cached row takes when not selected.
pub open spec fn row_heights(items: Seq<CachedItemLines>) -> Seq<usize> {
    Seq::new(items.len(), |k: int| items[k].unselected@.len() as usize)
}

/// How many lines each cached row takes, the row `sel` drawn selected.
pub open spec fn drawn_counts(items: Seq<CachedItemLines>, sel: int) -> Seq<usize> {
    Seq::new(items.len(), |k: int| if k == sel { items[k].selected@.len() as usize } else { items[k].unselected@.len() as usize })
}

proof fn lemma_shown_lines_split(items: Seq<CachedItemLines>, sel: int, a: Seq<(usize, usize)>, b: Seq<(usize, usize)>)
    ensures
        shown_lines(items, sel, a + b) == shown_lines(items, sel, a) + shown_lines(items, sel, b),
    decreases a.len(),
{
    if a.len() > 0 {
        assert((a + b).drop_first() =~= a.drop_first() + b);
        lemma_shown_lines_split(items, sel, a.drop_first(), b);
        assert(shown_lines(items, sel, a) + shown_lines(items, sel, b) =~= drawn(items[a[0].0 as int], a[0].0 == sel).take(
            a[0].1 as int,
        ) + (shown_lines(items, sel, a.drop_first()) + shown_lines(items, sel, b)));
    } else {
        assert(a + b =~= b);
    }
}

proof fn lemma_visible_rows_bounded(counts: Seq<usize>, i: int, room: int)
    requires
        counts.len() <= usize::MAX,
    ensures
        forall|x: int| 0 <= x < spec_visible_rows(counts, i, room).len() ==> {
            let row = #[trigger] spec_visible_rows(counts, i, room)[x];
            row.0 < counts.len() && row.1 <= counts[row.0 as int]
        },
    decreases counts.len() - i,
{
    let all = spec_visible_rows(counts, i, room);
    if i < 0 || i >= counts.len() || room <= 0 {
    } else if counts[i] > room {
        assert(all[0] == (i as usize, room as usize));
        assert((i as usize) as int == i);
    } else {
        lemma_visible_rows_bounded(counts, i + 1, room - counts[i]);
        let rest = spec_visible_rows(counts, i + 1, room - counts[i]);
        assert((i as usize) as int == i);
        assert forall|x: int| 0 <= x < all.len() implies {
            let row = #[trigger] all[x];
            row.0 < counts.len() && row.1 <= counts[row.0 as int]
        } by {
            if x > 0 {
                assert(all[x] == rest[x - 1]);
            } else {
                assert(all[x] == (i as usize, counts[i]));
            }
        }
    }
}

fn copy_line(line: &Vec<(String, SpanStyle)>) -> (r: Vec<(String, SpanStyle)>)
    ensures
        span_views(r@) == span_views(line@),
{
    let mut out: Vec<(String, SpanStyle)> = Vec::new();
    let mut i: usize = 0;
    while i < line.len()
        invariant
            i <= line@.len(),
            span_views(out@) == span_views(line@.take(i as int)),
        decreases line@.len() - i,
    {
        out.push((line[i].0.clone(), line[i].1));
        assert(span_views(line@.take(i + 1)) =~= span_views(line@.take(i as int)).push((line@[i as int].0@, line@[i as int].1)));
        assert(span_views(out@) =~= span_views(line@.take(i as int)).push((line@[i as int].0@, line@[i as int].1)));
        i += 1;
    }
    assert(line@.take(line@.len() as int) =~= line@);
    out
}

/// Brings the layout cache up to date, keeps the selection in view,
/// and returns the lines that fit in `available` lines (or what an empty view says).
pub fn visible_feed_lines(view: &mut ViewState, width: usize, available: usize) -> (r: Vec<Vec<(String, SpanStyle)>>)
    requires
        !cache_fresh(*old(view), width) ==> old(view).layout_cache.builds < usize::MAX,
    ensures
        final(view).layout_cache.width == Some(width),
        final(view).layout_cache.items@.len() == old(view).items@.len(),
        final(view).items == old(view).items,
        cache_fresh(*old(view), width) ==> final(view).layout_cache == old(view).layout_cache,
        !cache_fresh(*old(view), width) ==> {
            &&& final(view).layout_cache.builds == old(view).layout_cache.builds + 1
            &&& forall|k: int| 0 <= k < old(view).items@.len() ==> caches_row(
                #[trigger] final(view).layout_cache.items@[k],
                old(view).items@[k],
                width,
            )
        },
        keeps_selection_in_view(
            row_heights(final(view).layout_cache.items@),
            old(view).selected,
            old(view).scroll,
            available,
            (final(view).selected, final(view).scroll),
        ),
        final(view).items@.len() == 0 ==> lines_view(r@) == seq![seq![(spec_empty_view_text(old(view).kind), SpanStyle::Plain)]],
        final(view).items@.len() > 0 ==> lines_view(r@) == shown_lines(
            final(view).layout_cache.items@,
            final(view).selected as int,
            spec_visible_rows(
                drawn_counts(final(view).layout_cache.items@, final(view).selected as int),
                final(view).scroll as int,
                available as int,
            ),
        ),
        *final(view) == (ViewState {
            layout_cache: final(view).layout_cache,
            selected: final(view).selected,
            scroll: final(view).scroll,
            ..*old(view)
        }),
{
    ensure_layout_cache(view, width);
    let mut heights: Vec<usize> = Vec::new();
    let mut i: usize = 0;
    while i < view.layout_cache.items.len()
        invariant
            i <= view.layout_cache.items@.len(),
            heights@ == row_heights(view.layout_cache.items@).take(i as int),
        decreases view.layout_cache.items@.len() - i,
    {
        heights.push(view.layout_cache.items[i].unselected.len());
        assert(row_heights(view.layout_cache.items@).take(i + 1) =~= heights@);
        i += 1;
    }
    assert(heights@ =~= row_heights(view.layout_cache.items@));
    let (selected, scroll) = ensure_selected_visible(view.selected, view.scroll, &heights, available);
    view.selected = selected;
    view.scroll = scroll;
    if view.items.len() == 0 {
        let mut out: Vec<Vec<(String, SpanStyle)>> = Vec::new();
        out.push(line_of(empty_view_text(&view.kind).to_owned(), SpanStyle::Plain));
        assert(lines_view(out@) =~= seq![seq![(spec_empty_view_text(old(view).kind), SpanStyle::Plain)]]);
        return out;
    }
    let ghost items = view.layout_cache.items@;
    let ghost settled = *view;
    let mut counts: Vec<usize> = Vec::new();
    let mut k: usize = 0;
    while k < view.layout_cache.items.len()
        invariant
            items == view.layout_cache.items@,
            *view == settled,
            k <= items.len(),
            counts@ == drawn_counts(items, view.selected as int).take(k as int),
        decreases items.len() - k,
    {
        let n = if k == view.selected { view.layout_cache.items[k].selected.len() } else { view.layout_cache.items[k].unselected.len() };
        counts.push(n);
        assert(counts@ =~= drawn_counts(items, view.selected as int).take(k + 1));
        k += 1;
    }
    assert(counts@ =~= drawn_counts(items, view.selected as int));
    let rows = visible_rows(view.scroll, &counts, available);
    proof {
        lemma_visible_rows_bounded(counts@, view.scroll as int, available as int);
    }
    let mut out: Vec<Vec<(String, SpanStyle)>> = Vec::new();
    let mut j: usize = 0;
    while j < rows.len()
        invariant
            items == view.layout_cache.items@,
            *view == settled,
            j <= rows@.len(),
            forall|x: int| 0 <= x < rows@.len() ==> (#[trigger] rows@[x]).0 < items.len() && rows@[x].1
                <= drawn_counts(items, view.selected as int)[rows@[x].0 as int],
            lines_view(out@) == shown_lines(items, view.selected as int, rows@.take(j as int)),
        decreases rows@.len() - j,
    {
        let (index, shown) = rows[j];
        assert(rows@[j as int].0 < items.len());
        let ghost before = lines_view(out@);
        let lines = if index == view.selected { &view.layout_cache.items[index].selected } else { &view.layout_cache.items[index].unselected };
        let limit = if shown < lines.len() { shown } else { lines.len() };
        let mut m: usize = 0;
        while m < limit
            invariant
                limit <= lines@.len(),
                m <= limit,
                lines_view(out@) == before + lines_view(lines@).take(m as int),
            decreases limit - m,
        {
            let ghost so_far = lines_view(out@);
            out.push(copy_line(&lines[m]));
            assert(lines_view(out@) =~= so_far.push(span_views(lines@[m as int]@)));
            assert(lines_view(lines@).take(m + 1) =~= lines_view(lines@).take(m as int).push(span_views(lines@[m as int]@)));
            m += 1;
        }
        proof {
            assert(lines_view(lines@).take(limit as int) =~= lines_view(lines@).take(shown as int));
            assert(rows@.take(j + 1) =~= rows@.take(j as int) + seq![rows@[j as int]]);
            lemma_shown_lines_split(items, view.selected as int, rows@.take(j as int), seq![rows@[j as int]]);
            let single = seq![rows@[j as int]];
            assert(single.drop_first() =~= Seq::<(usize, usize)>::empty());
            assert(shown_lines(items, view.selected as int, Seq::<(usize, usize)>::empty()) == Seq::<Seq<(Seq<char>, SpanStyle)>>::empty());
            assert(shown_lines(items, view.selected as int, single) == drawn(items[index as int], index == view.selected).take(
                shown as int,
            ) + shown_lines(items, view.selected as int, single.drop_first()));
            assert(shown_lines(items, view.selected as int, single) =~= drawn(items[index as int], index == view.selected).take(
                shown as int,
            ));
        }
        j += 1;
    }
    assert(rows@.take(rows@.len() as int) =~= rows@);
    out
}


/// The lines above a profile's posts: name, up to three lines of its description, the
/// counters (with the follow state for another account) and a blank line.
pub open spec fn spec_profile_header(profile: ProfileSummary, width: usize, active_did: Seq<char>) -> Seq<Seq<(Seq<char>, SpanStyle)>> {
    seq![seq![(profile.display_name@ + " @"@ + profile.handle@, SpanStyle::Header)]] + description_lines(
        profile.description,
        width,
    ) + seq![
        seq![(spec_profile_stats(profile, active_did), SpanStyle::Dim)],
        Seq::empty(),
    ]
}

/// Up to three lines of a profile's description, if it has one.
pub open spec fn description_lines(description: Option<String>, width: usize) -> Seq<Seq<(Seq<char>, SpanStyle)>> {
    match description {
        Some(d) => {
            let wrapped = spec_wrap_text(d@, width);
            prefixed(wrapped.take(if wrapped.len() < 3 { wrapped.len() as int } else { 3 }), Seq::empty(), SpanStyle::Plain)
        },
        None => Seq::empty(),
    }
}

/// The header of a profile view, wrapped to `width`.
pub fn profile_header_lines(profile: &ProfileSummary, width: usize, active_did: &str) -> (r: Vec<Vec<(String, SpanStyle)>>)
    ensures
        lines_view(r@) == spec_profile_header(*profile, width, active_did@),
{
    let mut out: Vec<Vec<(String, SpanStyle)>> = Vec::new();
    let title = profile_title(profile);
    let ghost s1 = seq![seq![(title@, SpanStyle::Header)]];
    out.push(line_of(title, SpanStyle::Header));
    assert(lines_view(out@) =~= s1);
    proof {
        reveal_strlit("");
    }
    if let Some(d) = &profile.description {
        let wrapped = wrap_text(d.as_str(), width);
        push_prefixed(&mut out, &wrapped, 3, "", SpanStyle::Plain);
    }
    assert(lines_view(out@) =~= s1 + description_lines(profile.description, width));
    let stats = profile_stats(profile, active_did);
    let ghost s3 = seq![seq![(stats@, SpanStyle::Dim)], Seq::<(Seq<char>, SpanStyle)>::empty()];
    out.push(line_of(stats, SpanStyle::Dim));
    let blank: Vec<(String, SpanStyle)> = Vec::new();
    assert(span_views(blank@) =~= Seq::empty());
    out.push(blank);
    assert(lines_view(out@) =~= s1 + description_lines(profile.description, width) + s3);
    out
}


proof fn lemma_shown_lines_fit(items: Seq<CachedItemLines>, sel: int, i: int, room: int)
    requires
        items.len() <= usize::MAX,
        forall|k: int| 0 <= k < items.len() ==> (#[trigger] items[k]).selected@.len() <= usize::MAX && items[k].unselected@.len() <= usize::MAX,
    ensures
        shown_lines(items, sel, spec_visible_rows(drawn_counts(items, sel), i, room)).len() <= if room > 0 { room } else { 0 },
    decreases items.len() - i,
{
    let counts = drawn_counts(items, sel);
    let rows = spec_visible_rows(counts, i, room);
    if i < 0 || i >= counts.len() || room <= 0 {
    } else {
        assert((i as usize) as int == i);
        let lines = drawn(items[i], i == sel);
        assert(lines.len() == counts[i]);
        if counts[i] > room {
            assert(rows == seq![(i as usize, room as usize)]);
            assert((room as usize) as int == room);
            assert(rows.drop_first() =~= Seq::<(usize, usize)>::empty());
            assert(shown_lines(items, sel, Seq::<(usize, usize)>::empty()) == Seq::<Seq<(Seq<char>, SpanStyle)>>::empty());
            assert(shown_lines(items, sel, rows) =~= lines.take(room));
        } else {
            lemma_shown_lines_fit(items, sel, i + 1, room - counts[i]);
            assert(rows == seq![(i as usize, counts[i])] + spec_visible_rows(counts, i + 1, room - counts[i]));
            assert(rows.drop_first() =~= spec_visible_rows(counts, i + 1, room - counts[i]));
            assert(lines.take(counts[i] as int) =~= lines);
        }
    }
}

/// The lines a view shows never take more than the space they are given.
pub proof fn law_visible_lines_fit(items: Seq<CachedItemLines>, sel: int, scroll: int, available: int)
    requires
        items.len() <= usize::MAX,
        forall|k: int| 0 <= k < items.len() ==> (#[trigger] items[k]).selected@.len() <= usize::MAX && items[k].unselected@.len() <= usize::MAX,
    ensures
        shown_lines(items, sel, spec_visible_rows(drawn_counts(items, sel), scroll, available)).len() <= if available > 0 {
            available
        } else {
            0
        },
{
    lemma_shown_lines_fit(items, sel, scroll, available);
}

} // verus!
