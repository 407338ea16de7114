//! Reading the service's JSON documents into the feed model: posts, their embeds,
//! reply and repost context, links, threads, saved feeds and feed preferences.
use vstd::prelude::*;

use crate::json::Json;
use crate::model::{
    items_view, sources_view, FeedSource, FeedSourceKind, FeedSourceView, HomeFeedPrefs, ItemView,
    SourceKindView,
    external_view, images_view, links_view, opt_view, quote_view, videos_view, ExternalRef, ExternalView,
    FeedItem, FeedReason, ImageRef, ImageView, LinkRef, LinkSource, PostRef, QuotePost, QuoteView,
    ReasonView, ReplyContext, ReplyParentStatus, ReplyView, VideoRef, VideoView,
    NotificationItem, NotificationReason, NotificationTarget, ProfileSummary,
};
use crate::text::{
    after_last_slash, after_last_slash_of, contains_seq, str_contains,
    ends_with, first_line, first_line_of, is_blank, push_str, str_ends_with, str_is_blank,
    strings_equal,
};
use vstd::string::StringSliceAdditionalSpecFns;
use vstd::utf8::{decode_utf8, encode_utf8, is_char_boundary};

verus! {

/// A link as the spec sees it: URI, label and where it was found.
pub open spec fn link_view(l: LinkRef) -> (Seq<char>, Seq<char>, LinkSource) {
    (l.uri@, l.label@, l.source)
}

pub open spec fn link_views(links: Seq<LinkRef>) -> Seq<(Seq<char>, Seq<char>, LinkSource)> {
    links.map_values(|l: LinkRef| link_view(l))
}

/// Some link of `links` has this URI.
pub open spec fn has_uri(links: Seq<(Seq<char>, Seq<char>, LinkSource)>, uri: Seq<char>) -> bool {
    exists|i: int| 0 <= i < links.len() && (#[trigger] links[i]).0 == uri
}

/// The links without those with an empty URI, each URI kept at its first place.
pub open spec fn dedupe(links: Seq<(Seq<char>, Seq<char>, LinkSource)>) -> Seq<(Seq<char>, Seq<char>, LinkSource)>
    decreases links.len(),
{
    if links.len() == 0 {
        Seq::empty()
    } else {
        let kept = dedupe(links.drop_last());
        let l = links.last();
        if l.0.len() == 0 || has_uri(kept, l.0) {
            kept
        } else {
            kept.push(l)
        }
    }
}

fn contains_uri(links: &Vec<LinkRef>, uri: &str) -> (r: bool)
    ensures
        r == has_uri(link_views(links@), uri@),
{
    let mut i: usize = 0;
    while i < links.len()
        invariant
            i <= links@.len(),
            forall|j: int| 0 <= j < i ==> (#[trigger] links@[j]).uri@ != uri@,
        decreases links@.len() - i,
    {
        if strings_equal(links[i].uri.as_str(), uri) {
            assert(link_views(links@)[i as int].0 == uri@);
            return true;
        }
        i += 1;
    }
    assert forall|j: int| 0 <= j < link_views(links@).len() implies (#[trigger] link_views(links@)[j]).0 != uri@ by {
        assert(link_views(links@)[j] == link_view(links@[j]));
    }
    false
}

/// Drops links without a URI and repeats of a URI.
pub fn dedupe_links(links: Vec<LinkRef>) -> (r: Vec<LinkRef>)
    ensures
        link_views(r@) == dedupe(link_views(links@)),
{
    let ghost all = links@;
    let mut kept: Vec<LinkRef> = Vec::new();
    for link in it: links
        invariant
            it.seq() == all,
            link_views(kept@) == dedupe(link_views(all.take(it.index() as int))),
    {
        let ghost prefix = all.take(it.index() as int);
        proof {
            assert(all.take(it.index() + 1).drop_last() =~= prefix);
            assert(link_views(all.take(it.index() + 1)).drop_last() =~= link_views(prefix));
            assert(link_views(all.take(it.index() + 1)).last() == link_view(link));
        }
        if !link.uri.as_str().is_empty() && !contains_uri(&kept, link.uri.as_str()) {
            kept.push(link);
            proof {
                assert(link_views(kept@) =~= link_views(kept@.drop_last()).push(link_view(link)));
            }
        }
    }
    assert(all.take(all.len() as int) =~= all);
    kept
}

/// A link found in a post's text, with the byte offset where it starts.
pub struct LinkCandidate {
    pub start: usize,
    pub link: LinkRef,
}

pub open spec fn candidate_view(c: LinkCandidate) -> (int, (Seq<char>, Seq<char>, LinkSource)) {
    (c.start as int, link_view(c.link))
}

pub open spec fn candidate_views(cs: Seq<LinkCandidate>) -> Seq<(int, (Seq<char>, Seq<char>, LinkSource))> {
    cs.map_values(|c: LinkCandidate| candidate_view(c))
}

/// `c` put into `sorted` after every candidate that starts no later.
pub open spec fn insert_by_start(
    sorted: Seq<(int, (Seq<char>, Seq<char>, LinkSource))>,
    c: (int, (Seq<char>, Seq<char>, LinkSource)),
) -> Seq<(int, (Seq<char>, Seq<char>, LinkSource))>
    decreases sorted.len(),
{
    if sorted.len() == 0 || sorted.last().0 <= c.0 {
        sorted.push(c)
    } else {
        insert_by_start(sorted.drop_last(), c).push(sorted.last())
    }
}

/// The candidates ordered by start offset; those that start at the same offset keep
/// their order (a stable sort).
pub open spec fn sort_by_start(cs: Seq<(int, (Seq<char>, Seq<char>, LinkSource))>) -> Seq<(int, (Seq<char>, Seq<char>, LinkSource))>
    decreases cs.len(),
{
    if cs.len() == 0 {
        Seq::empty()
    } else {
        insert_by_start(sort_by_start(cs.drop_last()), cs.last())
    }
}

fn insert_candidate(sorted: &mut Vec<LinkCandidate>, c: LinkCandidate)
    ensures
        candidate_views(final(sorted)@) == insert_by_start(candidate_views(old(sorted)@), candidate_view(c)),
    decreases old(sorted)@.len(),
{
    let ghost before = candidate_views(sorted@);
    let n = sorted.len();
    if n == 0 || sorted[n - 1].start <= c.start {
        sorted.push(c);
        assert(candidate_views(sorted@) =~= before.push(candidate_view(c)));
    } else {
        let last = sorted.pop().unwrap();
        assert(candidate_views(sorted@) =~= before.drop_last());
        insert_candidate(sorted, c);
        let ghost mid = candidate_views(sorted@);
        sorted.push(last);
        assert(candidate_views(sorted@) =~= mid.push(candidate_view(last)));
    }
}

/// `candidates.sort_by_key(|c| c.start)`.
pub fn sort_candidates(candidates: Vec<LinkCandidate>) -> (r: Vec<LinkCandidate>)
    ensures
        candidate_views(r@) == sort_by_start(candidate_views(candidates@)),
{
    let ghost all = candidates@;
    let mut sorted: Vec<LinkCandidate> = Vec::new();
    for c in it: candidates
        invariant
            it.seq() == all,
            candidate_views(sorted@) == sort_by_start(candidate_views(all.take(it.index() as int))),
    {
        proof {
            let next = all.take(it.index() + 1);
            assert(candidate_views(next).drop_last() =~= candidate_views(all.take(it.index() as int)));
            assert(candidate_views(next).last() == candidate_view(c));
        }
        insert_candidate(&mut sorted, c);
    }
    assert(all.take(all.len() as int) =~= all);
    sorted
}

/// What `linkify::LinkFinder` restricted to URLs finds in a text: the byte offsets
/// where each link starts and ends, and the link's text, in order.
pub uninterp spec fn url_links(text: Seq<char>) -> Seq<(usize, usize, Seq<char>)>;

/// Calls `linkify::LinkFinder::links` with only URL links enabled.
#[verifier::external_body]
pub(crate) fn find_urls(text: &str) -> (r: Vec<(usize, usize, String)>)
    ensures
        r@.len() == url_links(text@).len(),
        forall|i: int|
            0 <= i < r@.len() ==> r@[i].0 == url_links(text@)[i].0 && r@[i].1 == url_links(text@)[i].1 && r@[i].2@
                == url_links(text@)[i].2,
{
    let mut finder = linkify::LinkFinder::new();
    finder.kinds(&[linkify::LinkKind::Url]);
    finder.links(text).map(|link| (link.start(), link.end(), link.as_str().to_owned())).collect()
}

/// The URLs written in plain text, each labelled by itself.
pub open spec fn url_candidates(text: Seq<char>, source: LinkSource) -> Seq<(int, (Seq<char>, Seq<char>, LinkSource))> {
    url_links(text).map_values(|u: (usize, usize, Seq<char>)| (u.0 as int, (u.2, u.2, source)))
}

fn plain_text_links(text: &str, source: LinkSource) -> (r: Vec<LinkCandidate>)
    ensures
        candidate_views(r@) == url_candidates(text@, source),
{
    let found = find_urls(text);
    let mut out: Vec<LinkCandidate> = Vec::new();
    for pair in it: found
        invariant
            it.seq() == found@,
            found@.len() == url_links(text@).len(),
            forall|i: int|
                0 <= i < found@.len() ==> found@[i].0 == url_links(text@)[i].0 && found@[i].2@ == url_links(text@)[i].2,
            candidate_views(out@) == url_candidates(text@, source).take(it.index() as int),
    {
        let (start, _end, uri) = pair;
        let label = uri.clone();
        let ghost k = it.index() as int;
        let ghost before = candidate_views(out@);
        out.push(LinkCandidate { start, link: LinkRef { uri, label, source } });
        proof {
            assert(found@[k] == pair);
            assert(candidate_views(out@).last() == url_candidates(text@, source)[k]);
            assert(candidate_views(out@) =~= before.push(candidate_views(out@).last()));
            assert(k < url_links(text@).len());
            assert(url_candidates(text@, source).take(k + 1) =~= url_candidates(text@, source).take(k).push(url_candidates(text@, source)[k]));
        }
    }
    proof {
        assert(url_candidates(text@, source).take(found@.len() as int) =~= url_candidates(text@, source));
    }
    out
}

/// Calls `str::get` with a byte range: the text between two byte offsets, or nothing
/// when the range is reversed, runs past the end, or cuts through a character.
#[verifier::external_body]
fn text_between<'a>(text: &'a str, start: usize, end: usize) -> (r: Option<&'a str>)
    ensures
        r is Some <==> (start <= end && end <= text.spec_bytes().len() && is_char_boundary(
            text.spec_bytes(),
            start as int,
        ) && is_char_boundary(text.spec_bytes(), end as int)),
        r matches Some(s) ==> s.spec_bytes() == text.spec_bytes().subrange(start as int, end as int),
{
    text.get(start..end)
}

/// The URI of the first link feature of a facet.
pub open spec fn link_feature_uri(features: Seq<Json>) -> Option<Seq<char>>
    decreases features.len(),
{
    if features.len() == 0 {
        None
    } else if features[0].text_field("$type"@) == Some("app.bsky.richtext.facet#link"@)
        && features[0].text_field("uri"@) is Some {
        features[0].text_field("uri"@)
    } else {
        link_feature_uri(features.drop_first())
    }
}

fn first_link_feature(features: &Vec<Json>) -> (r: Option<String>)
    ensures
        match r {
            Some(u) => link_feature_uri(features@) == Some(u@),
            None => link_feature_uri(features@) is None,
        },
{
    let mut i: usize = 0;
    assert(features@.skip(0) =~= features@);
    while i < features.len()
        invariant
            i <= features@.len(),
            link_feature_uri(features@) == link_feature_uri(features@.skip(i as int)),
        decreases features@.len() - i,
    {
        assert(features@.skip(i as int).drop_first() =~= features@.skip(i + 1));
        assert(features@.skip(i as int)[0] == features@[i as int]);
        let is_link = match features[i].string_field("$type") {
            Some(t) => strings_equal(t.as_str(), "app.bsky.richtext.facet#link"),
            None => false,
        };
        if is_link {
            match features[i].string_field("uri") {
                Some(u) => {
                    return Some(u);
                },
                None => {},
            }
        }
        i += 1;
    }
    None
}

/// What one facet of a post's rich text contributes: its byte offset and link, when
/// it has a valid byte range and a link feature. The label is the text it covers.
pub open spec fn facet_candidate(text: Seq<char>, facet: Json, source: LinkSource) -> Option<(int, (Seq<char>, Seq<char>, LinkSource))> {
    let bytes = encode_utf8(text);
    match facet.field("index"@) {
        Some(index) => match (index.number_field("byteStart"@), index.number_field("byteEnd"@)) {
            (Some(s), Some(e)) => {
                let start = s as usize as int;
                let end = e as usize as int;
                if start <= end && end <= bytes.len() && is_char_boundary(bytes, start) && is_char_boundary(bytes, end) {
                    match facet.field("features"@) {
                        Some(Json::Array(features)) => match link_feature_uri(features@) {
                            Some(uri) => Some((start, (uri, decode_utf8(bytes.subrange(start, end)), source))),
                            None => None,
                        },
                        _ => None,
                    }
                } else {
                    None
                }
            },
            _ => None,
        },
        None => None,
    }
}

fn facet_candidate_of(text: &str, facet: &Json, source: LinkSource) -> (r: Option<LinkCandidate>)
    ensures
        match r {
            Some(c) => facet_candidate(text@, *facet, source) == Some(candidate_view(c)),
            None => facet_candidate(text@, *facet, source) is None,
        },
{
    let index = match facet.get("index") {
        Some(i) => i,
        None => return None,
    };
    let start = match index.number_member("byteStart") {
        Some(n) => n as usize,
        None => return None,
    };
    let end = match index.number_member("byteEnd") {
        Some(n) => n as usize,
        None => return None,
    };
    let covered = match text_between(text, start, end) {
        Some(t) => t,
        None => return None,
    };
    let features = match facet.get("features") {
        Some(f) => match f.as_array() {
            Some(a) => a,
            None => return None,
        },
        None => return None,
    };
    let uri = match first_link_feature(features) {
        Some(u) => u,
        None => return None,
    };
    proof {
        vstd::utf8::encode_utf8_decode_utf8(covered@);
    }
    Some(LinkCandidate { start, link: LinkRef { uri, label: covered.to_owned(), source } })
}

/// The candidates of every facet, in order.
pub open spec fn facet_candidates(text: Seq<char>, facets: Seq<Json>, source: LinkSource) -> Seq<(int, (Seq<char>, Seq<char>, LinkSource))>
    decreases facets.len(),
{
    if facets.len() == 0 {
        Seq::empty()
    } else {
        let before = facet_candidates(text, facets.drop_last(), source);
        match facet_candidate(text, facets.last(), source) {
            Some(c) => before.push(c),
            None => before,
        }
    }
}

/// The items of an optional JSON array.
pub open spec fn items_of(v: Option<&Json>) -> Seq<Json> {
    match v {
        Some(j) => match *j {
            Json::Array(items) => items@,
            _ => Seq::empty(),
        },
        None => Seq::empty(),
    }
}

fn facet_links(text: &str, facets: Option<&Json>, source: LinkSource) -> (r: Vec<LinkCandidate>)
    ensures
        candidate_views(r@) == facet_candidates(text@, items_of(facets), source),
{
    let mut out: Vec<LinkCandidate> = Vec::new();
    let list = match facets {
        Some(f) => match f.as_array() {
            Some(a) => a,
            None => return out,
        },
        None => return out,
    };
    let mut i: usize = 0;
    while i < list.len()
        invariant
            list@ == items_of(facets),
            i <= list@.len(),
            candidate_views(out@) == facet_candidates(text@, list@.take(i as int), source),
        decreases list@.len() - i,
    {
        assert(list@.take(i + 1).drop_last() =~= list@.take(i as int));
        let ghost before = candidate_views(out@);
        match facet_candidate_of(text, &list[i], source) {
            Some(c) => {
                out.push(c);
                assert(candidate_views(out@) =~= before.push(candidate_views(out@).last()));
            },
            None => {},
        }
        i += 1;
    }
    assert(list@.take(list@.len() as int) =~= list@);
    out
}

/// The links of a post's text: its link facets and the URLs written in it, ordered
/// by where they start (facets first among equals), without repeats.
pub open spec fn spec_text_links(text: Seq<char>, facets: Seq<Json>, source: LinkSource) -> Seq<(Seq<char>, Seq<char>, LinkSource)> {
    dedupe(
        sort_by_start(facet_candidates(text, facets, source) + url_candidates(text, source)).map_values(
            |c: (int, (Seq<char>, Seq<char>, LinkSource))| c.1,
        ),
    )
}

pub fn text_links(text: &str, facets: Option<&Json>, source: LinkSource) -> (r: Vec<LinkRef>)
    ensures
        link_views(r@) == spec_text_links(text@, items_of(facets), source),
{
    let mut candidates = facet_links(text, facets, source);
    let mut plain = plain_text_links(text, source);
    let ghost a = candidate_views(candidates@);
    let ghost b = candidate_views(plain@);
    candidates.append(&mut plain);
    assert(candidate_views(candidates@) =~= a + b);
    let sorted = sort_candidates(candidates);
    let ghost sv = candidate_views(sorted@);
    let ghost all = sorted@;
    let mut links: Vec<LinkRef> = Vec::new();
    for c in it: sorted
        invariant
            it.seq() == all,
            candidate_views(all) == sv,
            link_views(links@) == sv.take(it.index() as int).map_values(
                |c: (int, (Seq<char>, Seq<char>, LinkSource))| c.1,
            ),
    {
        let ghost k = it.index() as int;
        let ghost before = link_views(links@);
        links.push(c.link);
        proof {
            assert(candidate_views(all)[k] == candidate_view(c));
            assert(link_views(links@) =~= before.push(link_view(c.link)));
            assert(sv.take(k + 1).map_values(|c: (int, (Seq<char>, Seq<char>, LinkSource))| c.1) =~= sv.take(k).map_values(
                |c: (int, (Seq<char>, Seq<char>, LinkSource))| c.1,
            ).push(sv[k].1));
        }
    }
    assert(sv.take(sv.len() as int) =~= sv);
    dedupe_links(links)
}

/// The links of a post as the link picker lists them: its card, its own links, then
/// the quoted post's card and links, without repeats.
pub open spec fn card_link(e: Option<ExternalRef>, source: LinkSource) -> Seq<(Seq<char>, Seq<char>, LinkSource)> {
    match e {
        Some(x) => if x.uri@.len() > 0 {
            seq![(x.uri@, x.title@, source)]
        } else {
            Seq::empty()
        },
        None => Seq::empty(),
    }
}

pub open spec fn as_quote_text(links: Seq<LinkRef>) -> Seq<(Seq<char>, Seq<char>, LinkSource)> {
    links.map_values(|l: LinkRef| (l.uri@, l.label@, LinkSource::QuoteText))
}

pub open spec fn spec_item_links(item: FeedItem) -> Seq<(Seq<char>, Seq<char>, LinkSource)> {
    dedupe(card_link(item.external, LinkSource::External) + link_views(item.links@) + match item.quote {
        Some(q) => card_link(q.external, LinkSource::QuoteExternal) + as_quote_text(q.links@),
        None => Seq::empty(),
    })
}

fn push_card_link(links: &mut Vec<LinkRef>, external: &Option<ExternalRef>, source: LinkSource)
    ensures
        link_views(final(links)@) == link_views(old(links)@) + card_link(*external, source),
{
    let ghost before = link_views(links@);
    if let Some(x) = external {
        if !x.uri.as_str().is_empty() {
            links.push(LinkRef { uri: x.uri.clone(), label: x.title.clone(), source });
            assert(link_views(links@) =~= before + card_link(*external, source));
            return;
        }
    }
    assert(link_views(links@) =~= before + card_link(*external, source));
}

/// Every link of a post for the link picker.
pub fn item_links(item: &FeedItem) -> (r: Vec<LinkRef>)
    ensures
        link_views(r@) == spec_item_links(*item),
{
    let mut links: Vec<LinkRef> = Vec::new();
    push_card_link(&mut links, &item.external, LinkSource::External);
    let mut i: usize = 0;
    let ghost start = link_views(links@);
    while i < item.links.len()
        invariant
            i <= item.links@.len(),
            link_views(links@) == start + link_views(item.links@.take(i as int)),
        decreases item.links@.len() - i,
    {
        let ghost before = link_views(links@);
        links.push(item.links[i].duplicate());
        assert(link_views(links@) =~= before.push(link_view(item.links@[i as int])));
        assert(link_views(item.links@.take(i + 1)) =~= link_views(item.links@.take(i as int)).push(link_view(item.links@[i as int])));
        i += 1;
    }
    assert(item.links@.take(item.links@.len() as int) =~= item.links@);
    let ghost own = link_views(links@);
    if let Some(q) = &item.quote {
        push_card_link(&mut links, &q.external, LinkSource::QuoteExternal);
        let ghost mid = link_views(links@);
        let mut j: usize = 0;
        while j < q.links.len()
            invariant
                j <= q.links@.len(),
                link_views(links@) == mid + as_quote_text(q.links@.take(j as int)),
            decreases q.links@.len() - j,
        {
            let ghost before = link_views(links@);
            links.push(LinkRef { uri: q.links[j].uri.clone(), label: q.links[j].label.clone(), source: LinkSource::QuoteText });
            assert(link_views(links@) =~= before.push((q.links@[j as int].uri@, q.links@[j as int].label@, LinkSource::QuoteText)));
            assert(as_quote_text(q.links@.take(j + 1)) =~= as_quote_text(q.links@.take(j as int)).push((q.links@[j as int].uri@, q.links@[j as int].label@, LinkSource::QuoteText)));
            j += 1;
        }
        assert(q.links@.take(q.links@.len() as int) =~= q.links@);
        assert(link_views(links@) =~= own + (card_link(q.external, LinkSource::QuoteExternal) + as_quote_text(q.links@)));
    } else {
        assert(link_views(links@) =~= own + Seq::empty());
    }
    dedupe_links(links)
}

// ---------------------------------------------------------------------------
// Fields of the JSON documents

pub open spec fn or_empty(o: Option<Seq<char>>) -> Seq<char> {
    match o {
        Some(s) => s,
        None => Seq::empty(),
    }
}

pub open spec fn or_unknown(o: Option<Seq<char>>) -> Seq<char> {
    match o {
        Some(s) => s,
        None => "unknown"@,
    }
}

/// The text, unless it is empty.
pub open spec fn non_empty(o: Option<Seq<char>>) -> Option<Seq<char>> {
    match o {
        Some(s) => if s.len() > 0 {
            Some(s)
        } else {
            None
        },
        None => None,
    }
}

/// The member `key` of `v`, or JSON null.
pub open spec fn member_or_null(v: Json, key: Seq<char>) -> Json {
    match v.field(key) {
        Some(m) => m,
        None => Json::Null,
    }
}

fn text_or_empty(o: Option<String>) -> (r: String)
    ensures
        r@ == or_empty(opt_view(o)),
{
    match o {
        Some(s) => s,
        None => String::new(),
    }
}

fn text_or_unknown(o: Option<String>) -> (r: String)
    ensures
        r@ == or_unknown(opt_view(o)),
{
    match o {
        Some(s) => s,
        None => "unknown".to_owned(),
    }
}

fn drop_empty(o: Option<String>) -> (r: Option<String>)
    ensures
        opt_view(r) == non_empty(opt_view(o)),
{
    match o {
        Some(s) => if s.as_str().is_empty() {
            None
        } else {
            Some(s)
        },
        None => None,
    }
}

/// An author's display name, or the handle when the name is blank or missing.
pub open spec fn spec_display_name(author: Json) -> Seq<char> {
    match author.text_field("displayName"@) {
        Some(name) => if !is_blank(name) {
            name
        } else {
            or_unknown(author.text_field("handle"@))
        },
        None => or_unknown(author.text_field("handle"@)),
    }
}

fn display_name(author: &Json) -> (r: String)
    ensures
        r@ == spec_display_name(*author),
{
    match author.string_field("displayName") {
        Some(name) => if !str_is_blank(name.as_str()) {
            return name;
        },
        None => {},
    }
    text_or_unknown(author.string_field("handle"))
}

/// Whether the viewer follows the author: known when the author has a `viewer.following`
/// member, and true when that member is a non-empty string.
pub open spec fn spec_author_following(author: Json) -> Option<bool> {
    match author.field("viewer"@) {
        Some(viewer) => match viewer.field("following"@) {
            Some(f) => Some(f.as_text() matches Some(t) && t.len() > 0),
            None => None,
        },
        None => None,
    }
}

fn author_following(author: &Json) -> (r: Option<bool>)
    ensures
        r == spec_author_following(*author),
{
    match author.get("viewer") {
        Some(viewer) => match viewer.get("following") {
            Some(f) => Some(
                match f.as_str() {
                    Some(t) => !t.is_empty(),
                    None => false,
                },
            ),
            None => None,
        },
        None => None,
    }
}

/// The follow record of the viewer for the author, when it has one.
pub open spec fn spec_following_uri(author: Json) -> Option<Seq<char>> {
    match author.field("viewer"@) {
        Some(viewer) => non_empty(viewer.text_field("following"@)),
        None => None,
    }
}

fn following_uri(author: &Json) -> (r: Option<String>)
    ensures
        opt_view(r) == spec_following_uri(*author),
{
    match author.get("viewer") {
        Some(viewer) => drop_empty(viewer.string_field("following")),
        None => None,
    }
}

/// The string member `field` of a post's record.
pub open spec fn record_text(post: Json, field: Seq<char>) -> Option<Seq<char>> {
    match post.field("record"@) {
        Some(record) => record.text_field(field),
        None => None,
    }
}

fn record_text_field(post: &Json, field: &str) -> (r: Option<String>)
    ensures
        opt_view(r) == record_text(*post, field@),
{
    match post.get("record") {
        Some(record) => record.string_field(field),
        None => None,
    }
}

/// The string member `field` of an embedded record's `value`, or else of its `record`.
pub open spec fn record_value(record: Json, field: Seq<char>) -> Option<Seq<char>> {
    let from_value = match record.field("value"@) {
        Some(v) => v.text_field(field),
        None => None,
    };
    match from_value {
        Some(t) => Some(t),
        None => match record.field("record"@) {
            Some(v) => v.text_field(field),
            None => None,
        },
    }
}

fn record_value_field(record: &Json, field: &str) -> (r: Option<String>)
    ensures
        opt_view(r) == record_value(*record, field@),
{
    let from_value = match record.get("value") {
        Some(v) => v.string_field(field),
        None => None,
    };
    match from_value {
        Some(t) => Some(t),
        None => match record.get("record") {
            Some(v) => v.string_field(field),
            None => None,
        },
    }
}

/// The viewer's own like or repost record of a post.
pub open spec fn viewer_record(post: Json, field: Seq<char>) -> Option<Seq<char>> {
    match post.field("viewer"@) {
        Some(viewer) => viewer.text_field(field),
        None => None,
    }
}

fn viewer_record_uri(post: &Json, field: &str) -> (r: Option<String>)
    ensures
        opt_view(r) == viewer_record(*post, field@),
{
    match post.get("viewer") {
        Some(viewer) => viewer.string_field(field),
        None => None,
    }
}

/// The thread root a reply points at, when it names both URI and CID.
pub open spec fn spec_reply_root(post: Json) -> Option<(Seq<char>, Seq<char>)> {
    let root = match post.field("record"@) {
        Some(record) => match record.field("reply"@) {
            Some(reply) => reply.field("root"@),
            None => None,
        },
        None => None,
    };
    match root {
        Some(root) => match (root.text_field("uri"@), root.text_field("cid"@)) {
            (Some(uri), Some(cid)) => Some((uri, cid)),
            _ => None,
        },
        None => None,
    }
}

fn post_reply_root(post: &Json) -> (r: Option<PostRef>)
    ensures
        match r {
            Some(p) => spec_reply_root(*post) == Some((p.uri@, p.cid@)),
            None => spec_reply_root(*post) is None,
        },
{
    let record = match post.get("record") {
        Some(v) => v,
        None => return None,
    };
    let reply = match record.get("reply") {
        Some(v) => v,
        None => return None,
    };
    let root = match reply.get("root") {
        Some(v) => v,
        None => return None,
    };
    let uri = match root.string_field("uri") {
        Some(v) => v,
        None => return None,
    };
    let cid = match root.string_field("cid") {
        Some(v) => v,
        None => return None,
    };
    Some(PostRef { uri, cid })
}

// ---------------------------------------------------------------------------
// Embedded media

/// An image of an images embed: its thumbnail, full-size URL and non-empty alt text.
pub open spec fn spec_image(j: Json) -> ImageView {
    ImageView {
        thumb_url: or_empty(j.text_field("thumb"@)),
        fullsize_url: j.text_field("fullsize"@),
        alt: non_empty(j.text_field("alt"@)),
    }
}

/// The images of the entries that have a thumbnail, in order.
pub open spec fn spec_images(entries: Seq<Json>) -> Seq<ImageView>
    decreases entries.len(),
{
    if entries.len() == 0 {
        Seq::empty()
    } else {
        let before = spec_images(entries.drop_last());
        if entries.last().text_field("thumb"@) is Some {
            before.push(spec_image(entries.last()))
        } else {
            before
        }
    }
}

fn parse_images(embed: &Json) -> (r: Vec<ImageRef>)
    ensures
        images_view(r@) == spec_images(embed.items_field("images"@)),
{
    let mut out: Vec<ImageRef> = Vec::new();
    let entries = match embed.array_member("images") {
        Some(a) => a,
        None => return out,
    };
    let mut i: usize = 0;
    while i < entries.len()
        invariant
            entries@ == embed.items_field("images"@),
            i <= entries@.len(),
            images_view(out@) == spec_images(entries@.take(i as int)),
        decreases entries@.len() - i,
    {
        let ghost prefix = entries@.take(i + 1);
        assert(prefix.drop_last() =~= entries@.take(i as int));
        assert(prefix.last() == entries@[i as int]);
        let image = &entries[i];
        match image.string_field("thumb") {
            Some(thumb_url) => {
                let ghost before = images_view(out@);
                out.push(
                    ImageRef {
                        thumb_url,
                        fullsize_url: image.string_field("fullsize"),
                        alt: drop_empty(image.string_field("alt")),
                    },
                );
                assert(images_view(out@) =~= before.push(spec_image(entries@[i as int])));
            },
            None => {},
        }
        i += 1;
    }
    assert(entries@.take(entries@.len() as int) =~= entries@);
    out
}

/// The width and height of an aspect ratio, when both are whole numbers.
pub open spec fn aspect_of(embed: Json) -> Option<(u64, u64)> {
    match embed.field("aspectRatio"@) {
        Some(ratio) => match (ratio.number_field("width"@), ratio.number_field("height"@)) {
            (Some(w), Some(h)) => Some((w, h)),
            _ => None,
        },
        None => None,
    }
}

/// A video embed; it needs a playlist URL.
pub open spec fn spec_video(embed: Json) -> Option<VideoView> {
    match embed.text_field("playlist"@) {
        Some(playlist) => Some(
            VideoView {
                playlist_url: playlist,
                thumb_url: embed.text_field("thumbnail"@),
                alt: non_empty(embed.text_field("alt"@)),
                cid: embed.text_field("cid"@),
                aspect_ratio: aspect_of(embed),
            },
        ),
        None => None,
    }
}

fn parse_video(embed: &Json) -> (r: Option<VideoRef>)
    ensures
        match r {
            Some(v) => spec_video(*embed) == Some(v@),
            None => spec_video(*embed) is None,
        },
{
    let playlist_url = match embed.string_field("playlist") {
        Some(p) => p,
        None => return None,
    };
    let aspect_ratio = match embed.get("aspectRatio") {
        Some(ratio) => match (ratio.number_member("width"), ratio.number_member("height")) {
            (Some(w), Some(h)) => Some((w, h)),
            _ => None,
        },
        None => None,
    };
    Some(
        VideoRef {
            playlist_url,
            thumb_url: embed.string_field("thumbnail"),
            alt: drop_empty(embed.string_field("alt")),
            cid: embed.string_field("cid"),
            aspect_ratio,
        },
    )
}

/// The link card of an external embed, present when it has an `external` member.
pub open spec fn spec_external(embed: Json) -> Option<ExternalView> {
    match embed.field("external"@) {
        Some(x) => Some(
            ExternalView {
                uri: or_empty(x.text_field("uri"@)),
                title: match x.text_field("title"@) {
                    Some(t) => t,
                    None => "external link"@,
                },
                description: non_empty(x.text_field("description"@)),
                thumb_url: x.text_field("thumb"@),
            },
        ),
        None => None,
    }
}

fn parse_external(embed: &Json) -> (r: Option<ExternalRef>)
    ensures
        external_view(r) == spec_external(*embed),
{
    let x = match embed.get("external") {
        Some(x) => x,
        None => return None,
    };
    let title = match x.string_field("title") {
        Some(t) => t,
        None => "external link".to_owned(),
    };
    Some(
        ExternalRef {
            uri: text_or_empty(x.string_field("uri")),
            title,
            description: drop_empty(x.string_field("description")),
            thumb_url: x.string_field("thumb"),
        },
    )
}

// ---------------------------------------------------------------------------
// Repost and reply context

/// Why a feed entry appears: a repost (named as such, or having a reposter), a pin,
/// or nothing recognised.
pub open spec fn spec_reason(reason: Option<Json>) -> Option<ReasonView> {
    match reason {
        None => None,
        Some(j) => {
            let t = or_empty(j.text_field("$type"@));
            if ends_with(t, "#reasonRepost"@) || j.field("by"@) is Some {
                let by = member_or_null(j, "by"@);
                Some(
                    ReasonView::Repost {
                        by_name: spec_display_name(by),
                        by_handle: or_unknown(by.text_field("handle"@)),
                        indexed_at: j.text_field("indexedAt"@),
                    },
                )
            } else if ends_with(t, "#reasonPin"@) {
                Some(ReasonView::Pin)
            } else {
                None
            }
        },
    }
}

pub open spec fn reason_view(r: Option<FeedReason>) -> Option<ReasonView> {
    match r {
        Some(x) => Some(x@),
        None => None,
    }
}

pub open spec fn deref_json(v: Option<&Json>) -> Option<Json> {
    match v {
        Some(j) => Some(*j),
        None => None,
    }
}

fn parse_reason(reason: Option<&Json>) -> (r: Option<FeedReason>)
    ensures
        reason_view(r) == spec_reason(deref_json(reason)),
{
    let j = match reason {
        Some(j) => j,
        None => return None,
    };
    let t = text_or_empty(j.string_field("$type"));
    let by = j.get("by");
    if str_ends_with(t.as_str(), "#reasonRepost") || by.is_some() {
        let null = Json::Null;
        let by = match by {
            Some(b) => b,
            None => &null,
        };
        return Some(
            FeedReason::Repost {
                by_name: display_name(by),
                by_handle: text_or_unknown(by.string_field("handle")),
                indexed_at: j.string_field("indexedAt"),
            },
        );
    }
    if str_ends_with(t.as_str(), "#reasonPin") {
        return Some(FeedReason::Pin);
    }
    None
}

/// The text of a post's record.
pub open spec fn spec_post_text(post: Json) -> Seq<char> {
    or_empty(record_text(post, "text"@))
}

/// The reply context of a feed entry: the thread root, the parent as the reply line
/// shows it (a stand-in when it was deleted or blocked), and the grandparent's author.
/// It needs a parent.
pub open spec fn spec_reply(reply: Option<Json>) -> Option<ReplyView> {
    match reply {
        None => None,
        Some(j) => match j.field("parent"@) {
            None => None,
            Some(parent) => {
                let root_uri = or_empty(member_or_null(j, "root"@).text_field("uri"@));
                let parent_uri = or_empty(parent.text_field("uri"@));
                let grandparent = match j.field("grandparentAuthor"@) {
                    Some(a) => a.text_field("handle"@),
                    None => None,
                };
                let author = member_or_null(parent, "author"@);
                Some(
                    if parent.bool_field("notFound"@) == Some(true) {
                        ReplyView {
                            root_uri,
                            parent_uri,
                            parent_author_name: "Post not found"@,
                            parent_author_handle: "not-found"@,
                            parent_text: "[post not found]"@,
                            grandparent_author_handle: grandparent,
                            parent_status: Some(ReplyParentStatus::NotFound),
                        }
                    } else if parent.bool_field("blocked"@) == Some(true) {
                        ReplyView {
                            root_uri,
                            parent_uri,
                            parent_author_name: "Blocked post"@,
                            parent_author_handle: "blocked"@,
                            parent_text: "[blocked post]"@,
                            grandparent_author_handle: grandparent,
                            parent_status: Some(ReplyParentStatus::Blocked),
                        }
                    } else {
                        ReplyView {
                            root_uri,
                            parent_uri,
                            parent_author_name: spec_display_name(author),
                            parent_author_handle: or_unknown(author.text_field("handle"@)),
                            parent_text: spec_post_text(parent),
                            grandparent_author_handle: grandparent,
                            parent_status: None,
                        }
                    },
                )
            },
        },
    }
}

pub open spec fn reply_view(r: Option<ReplyContext>) -> Option<ReplyView> {
    match r {
        Some(x) => Some(x@),
        None => None,
    }
}

fn parse_reply_context(reply: Option<&Json>) -> (r: Option<ReplyContext>)
    ensures
        reply_view(r) == spec_reply(deref_json(reply)),
{
    let j = match reply {
        Some(j) => j,
        None => return None,
    };
    let parent = match j.get("parent") {
        Some(p) => p,
        None => return None,
    };
    let root_uri = match j.get("root") {
        Some(root) => text_or_empty(root.string_field("uri")),
        None => String::new(),
    };
    let grandparent_author_handle = match j.get("grandparentAuthor") {
        Some(a) => a.string_field("handle"),
        None => None,
    };
    let parent_uri = text_or_empty(parent.string_field("uri"));
    if parent.bool_member("notFound") == Some(true) {
        return Some(
            ReplyContext {
                root_uri,
                parent_uri,
                parent_author_name: "Post not found".to_owned(),
                parent_author_handle: "not-found".to_owned(),
                parent_text: "[post not found]".to_owned(),
                grandparent_author_handle,
                parent_status: Some(ReplyParentStatus::NotFound),
            },
        );
    }
    if parent.bool_member("blocked") == Some(true) {
        return Some(
            ReplyContext {
                root_uri,
                parent_uri,
                parent_author_name: "Blocked post".to_owned(),
                parent_author_handle: "blocked".to_owned(),
                parent_text: "[blocked post]".to_owned(),
                grandparent_author_handle,
                parent_status: Some(ReplyParentStatus::Blocked),
            },
        );
    }
    let null = Json::Null;
    let author = match parent.get("author") {
        Some(a) => a,
        None => &null,
    };
    Some(
        ReplyContext {
            root_uri,
            parent_uri,
            parent_author_name: display_name(author),
            parent_author_handle: text_or_unknown(author.string_field("handle")),
            parent_text: text_or_empty(record_text_field(parent, "text")),
            grandparent_author_handle,
            parent_status: None,
        },
    )
}

// ---------------------------------------------------------------------------
// Embeds, quoted records and quoted posts

/// What the embeds of a post have produced so far.
pub struct EmbedParts {
    pub images: Vec<ImageRef>,
    pub videos: Vec<VideoRef>,
    pub external: Option<ExternalRef>,
    pub quote: Option<QuotePost>,
    pub status: Option<String>,
}

pub struct PartsView {
    pub images: Seq<ImageView>,
    pub videos: Seq<VideoView>,
    pub external: Option<ExternalView>,
    pub quote: Option<QuoteView>,
    pub status: Option<Seq<char>>,
}

impl View for EmbedParts {
    type V = PartsView;

    open spec fn view(&self) -> PartsView {
        PartsView {
            images: images_view(self.images@),
            videos: videos_view(self.videos@),
            external: external_view(self.external),
            quote: quote_view(self.quote),
            status: opt_view(self.status),
        }
    }
}

pub open spec fn no_parts_view() -> PartsView {
    PartsView { images: Seq::empty(), videos: Seq::empty(), external: None, quote: None, status: None }
}

pub open spec fn type_of(j: Json) -> Seq<char> {
    or_empty(j.text_field("$type"@))
}

/// The status of an embed whose type this client does not show.
pub open spec fn unsupported_embed(t: Seq<char>) -> Seq<char> {
    "[unsupported embed: "@ + t + "]"@
}

pub open spec fn unsupported_record(t: Seq<char>) -> Seq<char> {
    "[unsupported quoted record: "@ + t + "]"@
}

/// What a quoted record resolves to: a quoted post, a status line for a missing,
/// blocked or unsupported record, or (for a record without a type) nothing.
pub open spec fn spec_record_result(record: Json) -> Option<(Option<QuoteView>, Option<Seq<char>>)>
    decreases record, 2int,
{
    let t = type_of(record);
    if ends_with(t, "#viewRecord"@) || record.field("author"@) is Some {
        Some((Some(spec_quote(record)), None))
    } else if ends_with(t, "#viewNotFound"@) {
        Some((None, Some("[quoted post not found]"@)))
    } else if ends_with(t, "#viewBlocked"@) {
        Some((None, Some("[quoted post blocked]"@)))
    } else if record.field("record"@) is Some {
        proof {
            record.lemma_field_decreases("record"@);
        }
        spec_record_result(record.field("record"@).unwrap())
    } else if t.len() == 0 {
        None
    } else {
        Some((None, Some(unsupported_record(t))))
    }
}

/// The `record` member of an embed sets the quote and the status.
pub open spec fn spec_record_step(embed: Json, before: PartsView) -> PartsView
    decreases embed, 1int,
{
    match embed.field("record"@) {
        Some(record) => {
            proof {
                embed.lemma_field_decreases("record"@);
            }
            match spec_record_result(record) {
                Some((q, st)) => PartsView {
                    images: before.images,
                    videos: before.videos,
                    external: before.external,
                    quote: q,
                    status: st,
                },
                None => before,
            }
        },
        None => before,
    }
}

/// The `media` member of a record-with-media embed.
pub open spec fn spec_media_step(embed: Json, before: PartsView) -> PartsView
    decreases embed, 1int,
{
    match embed.field("media"@) {
        Some(media) => {
            proof {
                embed.lemma_field_decreases("media"@);
            }
            spec_embed(media, before)
        },
        None => before,
    }
}

pub open spec fn with_status(p: PartsView, status: Seq<char>) -> PartsView {
    PartsView { images: p.images, videos: p.videos, external: p.external, quote: p.quote, status: Some(status) }
}

/// What one embed adds to the parts of a post: images, a link card, a quoted record,
/// media with a quoted record, a video, or a status line for what is not shown.
pub open spec fn spec_embed(embed: Json, before: PartsView) -> PartsView
    decreases embed, 2int,
{
    let t = type_of(embed);
    if t == "app.bsky.embed.images#view"@ {
        PartsView {
            images: before.images + spec_images(embed.items_field("images"@)),
            videos: before.videos,
            external: before.external,
            quote: before.quote,
            status: before.status,
        }
    } else if t == "app.bsky.embed.external#view"@ {
        PartsView {
            images: before.images,
            videos: before.videos,
            external: spec_external(embed),
            quote: before.quote,
            status: before.status,
        }
    } else if t == "app.bsky.embed.record#view"@ {
        spec_record_step(embed, before)
    } else if t == "app.bsky.embed.recordWithMedia#view"@ {
        spec_record_step(embed, spec_media_step(embed, before))
    } else if t == "app.bsky.embed.video#view"@ {
        match spec_video(embed) {
            Some(v) => PartsView {
                images: before.images,
                videos: before.videos.push(v),
                external: before.external,
                quote: before.quote,
                status: before.status,
            },
            None => with_status(before, "[video embed unavailable]"@),
        }
    } else if t.len() > 0 {
        with_status(before, unsupported_embed(t))
    } else {
        before
    }
}

/// The embed of a quoted record: the first of its `embeds`, or else its `embed`.
pub open spec fn quote_embed(record: Json) -> Option<Json> {
    match record.field("embeds"@) {
        Some(Json::Array(items)) => if items@.len() > 0 {
            Some(items@[0])
        } else {
            record.field("embed"@)
        },
        _ => record.field("embed"@),
    }
}

pub proof fn lemma_quote_embed_decreases(record: Json)
    ensures
        quote_embed(record) matches Some(e) ==> decreases_to!(record => e),
{
    record.lemma_field_decreases("embeds"@);
    record.lemma_field_decreases("embed"@);
    if let Some(Json::Array(items)) = record.field("embeds"@) {
        if items@.len() > 0 {
            record.lemma_items_decrease("embeds"@, 0);
        }
    }
}

/// What the embed of a quoted record shows.
pub open spec fn spec_quote_parts(record: Json) -> PartsView
    decreases record, 0int,
{
    match quote_embed(record) {
        Some(embed) => {
            proof {
                lemma_quote_embed_decreases(record);
            }
            spec_embed(embed, no_parts_view())
        },
        None => no_parts_view(),
    }
}

/// The one-line summary of a post quoted by a quoted post, or the embed's status.
pub open spec fn nested_summary(parts: PartsView) -> Option<Seq<char>> {
    match parts.quote {
        Some(inner) => Some("@"@ + inner.author_handle + ": "@ + first_line(inner.text)),
        None => parts.status,
    }
}

/// The links of a quoted record's text (its facets are read from its `value`).
pub open spec fn spec_quote_links(record: Json) -> Seq<(Seq<char>, Seq<char>, LinkSource)> {
    let text = or_empty(record_value(record, "text"@));
    if text.len() == 0 {
        Seq::empty()
    } else {
        spec_text_links(
            text,
            match record.field("value"@) {
                Some(v) => v.items_field("facets"@),
                None => Seq::empty(),
            },
            LinkSource::Text,
        )
    }
}

pub open spec fn first_some(a: Option<Seq<char>>, b: Option<Seq<char>>) -> Option<Seq<char>> {
    match a {
        Some(x) => Some(x),
        None => b,
    }
}

/// A quoted post read from an embedded record.
pub open spec fn spec_quote(record: Json) -> QuoteView
    decreases record, 1int,
{
    let author = member_or_null(record, "author"@);
    let parts = spec_quote_parts(record);
    QuoteView {
        uri: or_empty(record.text_field("uri"@)),
        cid: record.text_field("cid"@),
        author_name: spec_display_name(author),
        author_handle: or_unknown(author.text_field("handle"@)),
        text: or_empty(record_value(record, "text"@)),
        indexed_at: first_some(record.text_field("indexedAt"@), record_value(record, "createdAt"@)),
        images: parts.images,
        videos: parts.videos,
        external: parts.external,
        links: spec_quote_links(record),
        nested_quote: nested_summary(parts),
    }
}

pub open spec fn result_view(r: Option<(Option<QuotePost>, Option<String>)>) -> Option<(Option<QuoteView>, Option<Seq<char>>)> {
    match r {
        Some((q, st)) => Some((quote_view(q), opt_view(st))),
        None => None,
    }
}

fn no_parts() -> (r: EmbedParts)
    ensures
        r@ == no_parts_view(),
{
    let r = EmbedParts { images: Vec::new(), videos: Vec::new(), external: None, quote: None, status: None };
    assert(r@.images =~= Seq::<ImageView>::empty());
    assert(r@.videos =~= Seq::<VideoView>::empty());
    r
}

/// Adds what one embed shows to the parts of a post.
fn parse_embed(embed: &Json, parts: &mut EmbedParts)
    ensures
        final(parts)@ == spec_embed(*embed, old(parts)@),
    decreases *embed, 2int,
{
    let t = text_or_empty(embed.string_field("$type"));
    if strings_equal(t.as_str(), "app.bsky.embed.images#view") {
        let ghost before = parts@;
        let mut found = parse_images(embed);
        let ghost added = found@;
        parts.images.append(&mut found);
        assert(images_view(parts.images@) =~= before.images + images_view(added));
    } else if strings_equal(t.as_str(), "app.bsky.embed.external#view") {
        parts.external = parse_external(embed);
    } else if strings_equal(t.as_str(), "app.bsky.embed.record#view") {
        apply_record(embed, parts);
    } else if strings_equal(t.as_str(), "app.bsky.embed.recordWithMedia#view") {
        match embed.get("media") {
            Some(media) => {
                proof {
                    embed.lemma_field_decreases("media"@);
                }
                parse_embed(media, parts);
            },
            None => {},
        }
        apply_record(embed, parts);
    } else if strings_equal(t.as_str(), "app.bsky.embed.video#view") {
        match parse_video(embed) {
            Some(video) => {
                let ghost before = videos_view(parts.videos@);
                parts.videos.push(video);
                assert(videos_view(parts.videos@) =~= before.push(video@));
            },
            None => {
                parts.status = Some("[video embed unavailable]".to_owned());
            },
        }
    } else if !t.as_str().is_empty() {
        let mut status = "[unsupported embed: ".to_owned();
        push_str(&mut status, t.as_str());
        push_str(&mut status, "]");
        parts.status = Some(status);
    }
}

/// Applies the `record` member of an embed to the parts.
fn apply_record(embed: &Json, parts: &mut EmbedParts)
    ensures
        final(parts)@ == spec_record_step(*embed, old(parts)@),
    decreases *embed, 1int,
{
    match embed.get("record") {
        Some(record) => {
            proof {
                embed.lemma_field_decreases("record"@);
            }
            match parse_record_embed(record) {
                Some((q, st)) => {
                    parts.quote = q;
                    parts.status = st;
                },
                None => {},
            }
        },
        None => {},
    }
}

/// What a quoted record resolves to.
fn parse_record_embed(record: &Json) -> (r: Option<(Option<QuotePost>, Option<String>)>)
    ensures
        result_view(r) == spec_record_result(*record),
    decreases *record, 2int,
{
    let t = text_or_empty(record.string_field("$type"));
    if str_ends_with(t.as_str(), "#viewRecord") || record.get("author").is_some() {
        return Some((Some(quote_from_record(record)), None));
    }
    if str_ends_with(t.as_str(), "#viewNotFound") {
        return Some((None, Some("[quoted post not found]".to_owned())));
    }
    if str_ends_with(t.as_str(), "#viewBlocked") {
        return Some((None, Some("[quoted post blocked]".to_owned())));
    }
    match record.get("record") {
        Some(inner) => {
            proof {
                record.lemma_field_decreases("record"@);
            }
            return parse_record_embed(inner);
        },
        None => {},
    }
    if t.as_str().is_empty() {
        None
    } else {
        let mut status = "[unsupported quoted record: ".to_owned();
        push_str(&mut status, t.as_str());
        push_str(&mut status, "]");
        Some((None, Some(status)))
    }
}

fn quote_record_links(record: &Json) -> (r: Vec<LinkRef>)
    ensures
        link_views(r@) == spec_quote_links(*record),
{
    let text = text_or_empty(record_value_field(record, "text"));
    if text.as_str().is_empty() {
        return Vec::new();
    }
    let facets = match record.get("value") {
        Some(v) => v.get("facets"),
        None => None,
    };
    text_links(text.as_str(), facets, LinkSource::Text)
}

/// The quoted post an embedded record shows.
fn quote_from_record(record: &Json) -> (r: QuotePost)
    ensures
        r@ == spec_quote(*record),
    decreases *record, 1int,
{
    let null = Json::Null;
    let author = match record.get("author") {
        Some(a) => a,
        None => &null,
    };
    let mut parts = no_parts();
    let embed: Option<&Json> = match record.get("embeds") {
        Some(Json::Array(items)) => if items.len() > 0 {
            Some(&items[0])
        } else {
            record.get("embed")
        },
        _ => record.get("embed"),
    };
    match embed {
        Some(e) => {
            proof {
                lemma_quote_embed_decreases(*record);
            }
            parse_embed(e, &mut parts);
        },
        None => {},
    }
    let ghost pv = parts@;
    assert(pv == spec_quote_parts(*record));
    let nested_quote = match &parts.quote {
        Some(inner) => {
            let mut s = "@".to_owned();
            push_str(&mut s, inner.author_handle.as_str());
            push_str(&mut s, ": ");
            let line = first_line_of(inner.text.as_str());
            push_str(&mut s, line.as_str());
            Some(s)
        },
        None => parts.status.clone(),
    };
    let indexed_at = match record.string_field("indexedAt") {
        Some(t) => Some(t),
        None => record_value_field(record, "createdAt"),
    };
    let links = quote_record_links(record);
    let r = QuotePost {
        uri: text_or_empty(record.string_field("uri")),
        cid: record.string_field("cid"),
        author_name: display_name(author),
        author_handle: text_or_unknown(author.string_field("handle")),
        text: text_or_empty(record_value_field(record, "text")),
        indexed_at,
        images: parts.images,
        videos: parts.videos,
        external: parts.external,
        links,
        nested_quote,
    };
    assert(links_view(r.links@) =~= link_views(r.links@));
    r
}

// ---------------------------------------------------------------------------
// Posts and feed entries

/// The links of a post's record text.
pub open spec fn spec_post_links(post: Json, source: LinkSource) -> Seq<(Seq<char>, Seq<char>, LinkSource)> {
    match post.field("record"@) {
        Some(record) => match record.text_field("text"@) {
            Some(text) => spec_text_links(text, record.items_field("facets"@), source),
            None => Seq::empty(),
        },
        None => Seq::empty(),
    }
}

fn post_links(post: &Json, source: LinkSource) -> (r: Vec<LinkRef>)
    ensures
        link_views(r@) == spec_post_links(*post, source),
{
    let record = match post.get("record") {
        Some(r) => r,
        None => return Vec::new(),
    };
    let text = match record.string_field("text") {
        Some(t) => t,
        None => return Vec::new(),
    };
    text_links(text.as_str(), record.get("facets"), source)
}

pub open spec fn or_zero(n: Option<u64>) -> u64 {
    match n {
        Some(v) => v,
        None => 0,
    }
}

/// What the embed of a post shows.
pub open spec fn spec_post_parts(post: Json) -> PartsView {
    match post.field("embed"@) {
        Some(embed) => spec_embed(embed, no_parts_view()),
        None => no_parts_view(),
    }
}

/// A post view read into a feed item at `depth`, without feed context.
pub open spec fn spec_post_item(post: Json, depth: usize) -> ItemView {
    let author = member_or_null(post, "author"@);
    let parts = spec_post_parts(post);
    ItemView {
        uri: or_empty(post.text_field("uri"@)),
        cid: post.text_field("cid"@),
        viewer_like: viewer_record(post, "like"@),
        viewer_repost: viewer_record(post, "repost"@),
        author_did: author.text_field("did"@),
        author_name: spec_display_name(author),
        author_handle: or_unknown(author.text_field("handle"@)),
        author_following: spec_author_following(author),
        author_following_uri: spec_following_uri(author),
        avatar_url: author.text_field("avatar"@),
        text: spec_post_text(post),
        indexed_at: first_some(post.text_field("indexedAt"@), record_text(post, "createdAt"@)),
        reply_count: or_zero(post.number_field("replyCount"@)),
        repost_count: or_zero(post.number_field("repostCount"@)),
        like_count: or_zero(post.number_field("likeCount"@)),
        quote_count: or_zero(post.number_field("quoteCount"@)),
        images: parts.images,
        videos: parts.videos,
        external: parts.external,
        links: spec_post_links(post, LinkSource::Text),
        quote: parts.quote,
        reason: None,
        reply: None,
        reply_root: spec_reply_root(post),
        embed_status: parts.status,
        depth,
    }
}

/// A post view as a feed item at `depth`.
pub fn feed_item_from_post(post: &Json, depth: usize) -> (r: FeedItem)
    ensures
        r@ == spec_post_item(*post, depth),
{
    let null = Json::Null;
    let author = match post.get("author") {
        Some(a) => a,
        None => &null,
    };
    let mut parts = no_parts();
    match post.get("embed") {
        Some(embed) => parse_embed(embed, &mut parts),
        None => {},
    }
    let indexed_at = match post.string_field("indexedAt") {
        Some(t) => Some(t),
        None => record_text_field(post, "createdAt"),
    };
    let links = post_links(post, LinkSource::Text);
    let r = FeedItem {
        uri: text_or_empty(post.string_field("uri")),
        cid: post.string_field("cid"),
        viewer_like: viewer_record_uri(post, "like"),
        viewer_repost: viewer_record_uri(post, "repost"),
        author_did: author.string_field("did"),
        author_name: display_name(author),
        author_handle: text_or_unknown(author.string_field("handle")),
        author_following: author_following(author),
        author_following_uri: following_uri(author),
        avatar_url: author.string_field("avatar"),
        text: text_or_empty(record_text_field(post, "text")),
        indexed_at,
        reply_count: match post.number_member("replyCount") {
            Some(n) => n,
            None => 0,
        },
        repost_count: match post.number_member("repostCount") {
            Some(n) => n,
            None => 0,
        },
        like_count: match post.number_member("likeCount") {
            Some(n) => n,
            None => 0,
        },
        quote_count: match post.number_member("quoteCount") {
            Some(n) => n,
            None => 0,
        },
        images: parts.images,
        videos: parts.videos,
        external: parts.external,
        links,
        quote: parts.quote,
        reason: None,
        reply: None,
        reply_root: post_reply_root(post),
        embed_status: parts.status,
        depth,
    };
    assert(links_view(r.links@) =~= link_views(r.links@));
    r
}

/// A feed entry: its post, with the repost or pin reason and the reply context of the
/// entry. An entry without a post yields nothing.
pub open spec fn spec_entry_item(entry: Json) -> Option<ItemView> {
    match entry.field("post"@) {
        Some(post) => {
            let item = spec_post_item(post, 0);
            Some(
                ItemView {
                    reason: spec_reason(entry.field("reason"@)),
                    reply: spec_reply(entry.field("reply"@)),
                    ..item
                },
            )
        },
        None => None,
    }
}

/// `feed_item_from_feed_entry`.
pub fn feed_item_from_feed_entry(entry: &Json) -> (r: Option<FeedItem>)
    ensures
        match r {
            Some(item) => spec_entry_item(*entry) == Some(item@),
            None => spec_entry_item(*entry) is None,
        },
{
    let post = match entry.get("post") {
        Some(p) => p,
        None => return None,
    };
    let mut item = feed_item_from_post(post, 0);
    item.reason = parse_reason(entry.get("reason"));
    item.reply = parse_reply_context(entry.get("reply"));
    Some(item)
}

/// The items of a timeline page that the preferences let through.
pub open spec fn spec_timeline(entries: Seq<Json>, prefs: HomeFeedPrefs) -> Seq<ItemView>
    decreases entries.len(),
{
    if entries.len() == 0 {
        Seq::empty()
    } else {
        let before = spec_timeline(entries.drop_last(), prefs);
        match spec_entry_item(entries.last()) {
            Some(item) => if prefs.allows_view(item) {
                before.push(item)
            } else {
                before
            },
            None => before,
        }
    }
}

/// The posts of a feed page that the home preferences allow, and
/// the cursor of the next page.
pub fn timeline_items(root: &Json, prefs: &HomeFeedPrefs) -> (r: (Vec<FeedItem>, Option<String>))
    ensures
        items_view(r.0@) == spec_timeline(root.items_field("feed"@), *prefs),
        opt_view(r.1) == root.text_field("cursor"@),
{
    let mut items: Vec<FeedItem> = Vec::new();
    match root.array_member("feed") {
        Some(entries) => {
            let mut i: usize = 0;
            while i < entries.len()
                invariant
                    entries@ == root.items_field("feed"@),
                    i <= entries@.len(),
                    items_view(items@) == spec_timeline(entries@.take(i as int), *prefs),
                decreases entries@.len() - i,
            {
                assert(entries@.take(i + 1).drop_last() =~= entries@.take(i as int));
                assert(entries@.take(i + 1).last() == entries@[i as int]);
                match feed_item_from_feed_entry(&entries[i]) {
                    Some(item) => {
                        if prefs.allows(&item) {
                            let ghost before = items_view(items@);
                            items.push(item);
                            assert(items_view(items@) =~= before.push(item@));
                        }
                    },
                    None => {},
                }
                i += 1;
            }
            assert(entries@.take(entries@.len() as int) =~= entries@);
        },
        None => {},
    }
    (items, root.string_field("cursor"))
}

/// A quoted post shown as a feed item of its own; a post it
/// quotes in turn becomes its status line.
pub open spec fn spec_quote_item(q: QuoteView, depth: usize) -> ItemView {
    ItemView {
        uri: q.uri,
        cid: q.cid,
        viewer_like: None,
        viewer_repost: None,
        author_did: None,
        author_name: q.author_name,
        author_handle: q.author_handle,
        author_following: None,
        author_following_uri: None,
        avatar_url: None,
        text: q.text,
        indexed_at: q.indexed_at,
        reply_count: 0,
        repost_count: 0,
        like_count: 0,
        quote_count: 0,
        images: q.images,
        videos: q.videos,
        external: q.external,
        links: q.links,
        quote: None,
        reason: None,
        reply: None,
        reply_root: None,
        embed_status: q.nested_quote,
        depth,
    }
}

pub fn feed_item_from_quote(quote: QuotePost, depth: usize) -> (r: FeedItem)
    ensures
        r@ == spec_quote_item(quote@, depth),
{
    FeedItem {
        uri: quote.uri,
        cid: quote.cid,
        viewer_like: None,
        viewer_repost: None,
        author_did: None,
        author_name: quote.author_name,
        author_handle: quote.author_handle,
        author_following: None,
        author_following_uri: None,
        avatar_url: None,
        text: quote.text,
        indexed_at: quote.indexed_at,
        reply_count: 0,
        repost_count: 0,
        like_count: 0,
        quote_count: 0,
        images: quote.images,
        videos: quote.videos,
        external: quote.external,
        links: quote.links,
        quote: None,
        reason: None,
        reply: None,
        reply_root: None,
        embed_status: quote.nested_quote,
        depth,
    }
}

// ---------------------------------------------------------------------------
// Threads

/// The post of a thread node; deleted and blocked posts have none.
pub open spec fn spec_thread_post(node: Json) -> Option<Json> {
    let t = type_of(node);
    if ends_with(t, "#notFoundPost"@) || ends_with(t, "#blockedPost"@) {
        None
    } else {
        node.field("post"@)
    }
}

fn thread_post(node: &Json) -> (r: Option<&Json>)
    ensures
        deref_json(r) == spec_thread_post(*node),
{
    let t = text_or_empty(node.string_field("$type"));
    if str_ends_with(t.as_str(), "#notFoundPost") || str_ends_with(t.as_str(), "#blockedPost") {
        return None;
    }
    node.get("post")
}

/// The ancestors of a thread node, oldest first, each at its depth from the oldest
/// shown one; missing and blocked ancestors are skipped.
pub open spec fn spec_parents(node: Json) -> Seq<ItemView>
    decreases node,
{
    match node.field("parent"@) {
        None => Seq::empty(),
        Some(parent) => {
            proof {
                node.lemma_field_decreases("parent"@);
            }
            let above = spec_parents(parent);
            match spec_thread_post(parent) {
                Some(post) => above.push(spec_post_item(post, above.len() as usize)),
                None => above,
            }
        },
    }
}

/// Appends the ancestors of `node` and returns how many
/// there were, the depth of `node` itself.
fn flatten_thread_parents(node: &Json, items: &mut Vec<FeedItem>) -> (depth: usize)
    ensures
        items_view(final(items)@) == items_view(old(items)@) + spec_parents(*node),
        depth == spec_parents(*node).len(),
    decreases *node,
{
    let parent = match node.get("parent") {
        Some(p) => p,
        None => {
            assert(items_view(items@) =~= items_view(items@) + Seq::<ItemView>::empty());
            return 0;
        },
    };
    proof {
        node.lemma_field_decreases("parent"@);
    }
    let depth = flatten_thread_parents(parent, items);
    match thread_post(parent) {
        Some(post) => {
            let ghost before = items_view(items@);
            items.push(feed_item_from_post(post, depth));
            assert(items_view(items@) =~= before.push(spec_post_item(*post, depth)));
            let count = items.len();
            assert(count == old(items)@.len() + depth + 1) by {
                assert(items_view(items@).len() == items@.len());
                assert(items_view(old(items)@).len() == old(items)@.len());
            }
            depth + 1
        },
        None => depth,
    }
}

/// A thread node and its replies, depth first, each reply one level deeper.
pub open spec fn spec_flatten(node: Json, depth: int) -> Seq<ItemView>
    decreases node, 1int, 0int,
{
    match spec_thread_post(node) {
        None => Seq::empty(),
        Some(post) => seq![spec_post_item(post, depth as usize)] + spec_replies(
            node,
            node.items_field("replies"@).len() as int,
            depth + 1,
        ),
    }
}

/// The first `n` replies of a node, flattened at `depth`.
pub open spec fn spec_replies(node: Json, n: int, depth: int) -> Seq<ItemView>
    decreases node, 0int, n,
{
    if n <= 0 || n > node.items_field("replies"@).len() {
        Seq::empty()
    } else {
        proof {
            node.lemma_items_decrease("replies"@, n - 1);
        }
        spec_replies(node, n - 1, depth) + spec_flatten(node.items_field("replies"@)[n - 1], depth)
    }
}

/// How many posts a thread node shows: its own post, when it is neither missing nor
/// blocked, and then those of every reply below it, at any depth.
pub open spec fn shown_posts(node: Json) -> nat
    decreases node, 1int, 0int,
{
    match spec_thread_post(node) {
        None => 0,
        Some(_) => 1 + shown_in_replies(node, node.items_field("replies"@).len() as int),
    }
}

/// How many posts the first `n` replies of a node show.
pub open spec fn shown_in_replies(node: Json, n: int) -> nat
    decreases node, 0int, n,
{
    if n <= 0 || n > node.items_field("replies"@).len() {
        0
    } else {
        proof {
            node.lemma_items_decrease("replies"@, n - 1);
        }
        shown_in_replies(node, n - 1) + shown_posts(node.items_field("replies"@)[n - 1])
    }
}

proof fn lemma_flatten_len(node: Json, depth: int)
    ensures
        spec_flatten(node, depth).len() == shown_posts(node),
    decreases node, 1int, 0int,
{
    if spec_thread_post(node) is Some {
        lemma_replies_len(node, node.items_field("replies"@).len() as int, depth + 1);
    }
}

proof fn lemma_replies_len(node: Json, n: int, depth: int)
    ensures
        spec_replies(node, n, depth).len() == shown_in_replies(node, n),
    decreases node, 0int, n,
{
    if !(n <= 0 || n > node.items_field("replies"@).len()) {
        node.lemma_items_decrease("replies"@, n - 1);
        lemma_replies_len(node, n - 1, depth);
        lemma_flatten_len(node.items_field("replies"@)[n - 1], depth);
    }
}

proof fn lemma_reply_in_replies(node: Json, n: int, i: int, depth: int)
    requires
        0 <= i < n <= node.items_field("replies"@).len(),
    ensures
        shown_in_replies(node, i + 1) <= shown_in_replies(node, n),
        spec_replies(node, n, depth).subrange(shown_in_replies(node, i) as int, shown_in_replies(node, i + 1) as int)
            == spec_flatten(node.items_field("replies"@)[i], depth),
    decreases n,
{
    let r = node.items_field("replies"@);
    lemma_replies_len(node, n - 1, depth);
    lemma_flatten_len(r[n - 1], depth);
    if i == n - 1 {
        assert(spec_replies(node, n, depth) == spec_replies(node, n - 1, depth) + spec_flatten(r[n - 1], depth));
        assert(spec_replies(node, n, depth).subrange(shown_in_replies(node, i) as int, shown_in_replies(node, i + 1) as int)
            =~= spec_flatten(r[i], depth));
    } else {
        lemma_reply_in_replies(node, n - 1, i, depth);
        assert(spec_replies(node, n, depth) == spec_replies(node, n - 1, depth) + spec_flatten(r[n - 1], depth));
        assert(spec_replies(node, n, depth).subrange(shown_in_replies(node, i) as int, shown_in_replies(node, i + 1) as int)
            =~= spec_replies(node, n - 1, depth).subrange(shown_in_replies(node, i) as int, shown_in_replies(node, i + 1) as int));
    }
}

/// A flattened thread shows every post of the tree, at any depth: as many items as
/// there are posts that are neither missing nor blocked (below such a post nothing is
/// reached).
pub proof fn law_thread_shows_every_post(node: Json, depth: int)
    ensures
        spec_flatten(node, depth).len() == shown_posts(node),
{
    lemma_flatten_len(node, depth);
}

/// A shown post comes first, at its depth, and each of its replies follows it in
/// order, one level deeper, together with all the replies below that reply: the `i`th
/// reply's own flattening stands right after the posts of the replies before it.
pub proof fn law_replies_follow_their_post(node: Json, depth: int, i: int)
    requires
        spec_thread_post(node) is Some,
        0 <= i < node.items_field("replies"@).len(),
    ensures
        spec_flatten(node, depth)[0] == spec_post_item(spec_thread_post(node).unwrap(), depth as usize),
        1 + shown_in_replies(node, i + 1) <= spec_flatten(node, depth).len(),
        spec_flatten(node, depth).subrange(1 + shown_in_replies(node, i) as int, 1 + shown_in_replies(node, i + 1) as int)
            == spec_flatten(node.items_field("replies"@)[i], depth + 1),
{
    let n = node.items_field("replies"@).len() as int;
    lemma_reply_in_replies(node, n, i, depth + 1);
    lemma_replies_len(node, n, depth + 1);
    let post = spec_thread_post(node).unwrap();
    let rest = spec_replies(node, n, depth + 1);
    assert(spec_flatten(node, depth) == seq![spec_post_item(post, depth as usize)] + rest);
    assert(spec_flatten(node, depth).subrange(1 + shown_in_replies(node, i) as int, 1 + shown_in_replies(node, i + 1) as int)
        =~= rest.subrange(shown_in_replies(node, i) as int, shown_in_replies(node, i + 1) as int));
}

/// Appends `node` at `depth` and its replies below it.
fn flatten_thread(node: &Json, depth: usize, items: &mut Vec<FeedItem>)
    requires
        depth <= old(items)@.len(),
    ensures
        items_view(final(items)@) == items_view(old(items)@) + spec_flatten(*node, depth as int),
        final(items)@.len() >= old(items)@.len(),
    decreases *node,
{
    let post = match thread_post(node) {
        Some(p) => p,
        None => {
            assert(items_view(items@) =~= items_view(items@) + Seq::<ItemView>::empty());
            return;
        },
    };
    let ghost base = items_view(items@);
    items.push(feed_item_from_post(post, depth));
    let ghost head = items_view(items@);
    assert(head =~= base + seq![spec_post_item(*post, depth)]);
    let count = items.len();
    let child_depth = depth + 1;
    match node.array_member("replies") {
        Some(replies) => {
            let mut i: usize = 0;
            while i < replies.len()
                invariant
                    replies@ == node.items_field("replies"@),
                    i <= replies@.len(),
                    depth < items@.len(),
                    child_depth == depth + 1,
                    items_view(items@) == head + spec_replies(*node, i as int, depth + 1),
                decreases replies@.len() - i,
            {
                proof {
                    node.lemma_items_decrease("replies"@, i as int);
                }
                let ghost before = items_view(items@);
                flatten_thread(&replies[i], child_depth, items);
                assert(items_view(items@) =~= head + spec_replies(*node, i + 1, depth + 1));
                i += 1;
            }
        },
        None => {
            assert(spec_replies(*node, 0, depth + 1) =~= Seq::<ItemView>::empty());
        },
    }
    assert(items_view(items@) =~= base + spec_flatten(*node, depth as int));
}

/// The ancestors of the thread's post, the post, and its replies.
pub fn thread_items(root: &Json) -> (r: Vec<FeedItem>)
    ensures
        items_view(r@) == match root.field("thread"@) {
            Some(thread) => spec_parents(thread) + spec_flatten(thread, spec_parents(thread).len() as int),
            None => Seq::empty(),
        },
{
    let mut items: Vec<FeedItem> = Vec::new();
    match root.get("thread") {
        Some(thread) => {
            let depth = flatten_thread_parents(thread, &mut items);
            assert(items_view(items@) =~= spec_parents(*thread));
            flatten_thread(thread, depth, &mut items);
        },
        None => {
            assert(items_view(items@) =~= Seq::<ItemView>::empty());
        },
    }
    items
}

// ---------------------------------------------------------------------------
// Saved feeds and feed preferences

/// A feed generator's URI names its collection.
pub open spec fn spec_is_feed_generator_uri(uri: Seq<char>) -> bool {
    contains_seq(uri, "/app.bsky.feed.generator/"@)
}

pub fn is_feed_generator_uri(uri: &str) -> (r: bool)
    ensures
        r == spec_is_feed_generator_uri(uri@),
{
    str_contains(uri, "/app.bsky.feed.generator/")
}

/// The label of a saved feed: the last part of its URI, or the whole URI when that
/// part is empty.
pub open spec fn spec_short_feed_label(uri: Seq<char>) -> Seq<char> {
    let last = after_last_slash(uri);
    if last.len() > 0 {
        last
    } else {
        uri
    }
}

pub fn short_feed_label(uri: &str) -> (r: String)
    ensures
        r@ == spec_short_feed_label(uri@),
{
    let last = after_last_slash_of(uri);
    if last.as_str().is_empty() {
        uri.to_owned()
    } else {
        last
    }
}

/// The feed URIs of a `savedFeedsPrefV2` preference's items of type "feed".
pub open spec fn v2_feed_uris(items: Seq<Json>) -> Seq<Seq<char>>
    decreases items.len(),
{
    if items.len() == 0 {
        Seq::empty()
    } else {
        let before = v2_feed_uris(items.drop_last());
        let item = items.last();
        if item.text_field("type"@) == Some("feed"@) && item.text_field("value"@) is Some {
            before.push(item.text_field("value"@).unwrap())
        } else {
            before
        }
    }
}

/// The feed generator URIs in a legacy saved-feeds list.
pub open spec fn legacy_feed_uris(items: Seq<Json>) -> Seq<Seq<char>>
    decreases items.len(),
{
    if items.len() == 0 {
        Seq::empty()
    } else {
        let before = legacy_feed_uris(items.drop_last());
        match items.last().as_text() {
            Some(uri) => if spec_is_feed_generator_uri(uri) {
                before.push(uri)
            } else {
                before
            },
            None => before,
        }
    }
}

/// The saved feeds of one preference.
pub open spec fn pref_feed_uris(pref: Json) -> Seq<Seq<char>> {
    let t = pref.text_field("$type"@);
    if t == Some("app.bsky.actor.defs#savedFeedsPrefV2"@) {
        v2_feed_uris(pref.items_field("items"@))
    } else if t == Some("app.bsky.actor.defs#savedFeedsPref"@) {
        legacy_feed_uris(pref.items_field("pinned"@)) + legacy_feed_uris(pref.items_field("saved"@))
    } else {
        Seq::empty()
    }
}

/// The saved feeds of all preferences, in order.
pub open spec fn spec_saved_feed_uris(prefs: Seq<Json>) -> Seq<Seq<char>>
    decreases prefs.len(),
{
    if prefs.len() == 0 {
        Seq::empty()
    } else {
        spec_saved_feed_uris(prefs.drop_last()) + pref_feed_uris(prefs.last())
    }
}

pub open spec fn string_views(v: Seq<String>) -> Seq<Seq<char>> {
    v.map_values(|s: String| s@)
}

fn push_v2_uris(uris: &mut Vec<String>, items: &Vec<Json>)
    ensures
        string_views(final(uris)@) == string_views(old(uris)@) + v2_feed_uris(items@),
{
    let ghost base = string_views(uris@);
    let mut i: usize = 0;
    while i < items.len()
        invariant
            i <= items@.len(),
            string_views(uris@) == base + v2_feed_uris(items@.take(i as int)),
        decreases items@.len() - i,
    {
        assert(items@.take(i + 1).drop_last() =~= items@.take(i as int));
        assert(items@.take(i + 1).last() == items@[i as int]);
        let is_feed = match items[i].string_field("type") {
            Some(t) => strings_equal(t.as_str(), "feed"),
            None => false,
        };
        if is_feed {
            match items[i].string_field("value") {
                Some(uri) => {
                    let ghost before = string_views(uris@);
                    uris.push(uri);
                    assert(string_views(uris@) =~= before.push(uri@));
                },
                None => {},
            }
        }
        i += 1;
    }
    assert(items@.take(items@.len() as int) =~= items@);
}

fn push_legacy_uris(uris: &mut Vec<String>, items: Option<&Vec<Json>>)
    ensures
        string_views(final(uris)@) == string_views(old(uris)@) + legacy_feed_uris(
            match items {
                Some(v) => v@,
                None => Seq::empty(),
            },
        ),
{
    let ghost base = string_views(uris@);
    let items = match items {
        Some(v) => v,
        None => {
            assert(string_views(uris@) =~= base + Seq::<Seq<char>>::empty());
            return;
        },
    };
    let mut i: usize = 0;
    while i < items.len()
        invariant
            i <= items@.len(),
            string_views(uris@) == base + legacy_feed_uris(items@.take(i as int)),
        decreases items@.len() - i,
    {
        assert(items@.take(i + 1).drop_last() =~= items@.take(i as int));
        assert(items@.take(i + 1).last() == items@[i as int]);
        match items[i].as_str() {
            Some(uri) => {
                if is_feed_generator_uri(uri) {
                    let ghost before = string_views(uris@);
                    uris.push(uri.to_owned());
                    assert(string_views(uris@) =~= before.push(uri@));
                }
            },
            None => {},
        }
        i += 1;
    }
    assert(items@.take(items@.len() as int) =~= items@);
}

/// The saved feed generators of a preferences response.
pub fn saved_feed_uris(root: &Json) -> (r: Vec<String>)
    ensures
        string_views(r@) == spec_saved_feed_uris(root.items_field("preferences"@)),
{
    let mut uris: Vec<String> = Vec::new();
    let prefs = match root.array_member("preferences") {
        Some(p) => p,
        None => {
            assert(string_views(uris@) =~= Seq::<Seq<char>>::empty());
            return uris;
        },
    };
    let mut i: usize = 0;
    while i < prefs.len()
        invariant
            prefs@ == root.items_field("preferences"@),
            i <= prefs@.len(),
            string_views(uris@) == spec_saved_feed_uris(prefs@.take(i as int)),
        decreases prefs@.len() - i,
    {
        assert(prefs@.take(i + 1).drop_last() =~= prefs@.take(i as int));
        assert(prefs@.take(i + 1).last() == prefs@[i as int]);
        let pref = &prefs[i];
        let ghost before = string_views(uris@);
        let t = pref.string_field("$type");
        let is_v2 = match &t {
            Some(t) => strings_equal(t.as_str(), "app.bsky.actor.defs#savedFeedsPrefV2"),
            None => false,
        };
        let is_legacy = match &t {
            Some(t) => strings_equal(t.as_str(), "app.bsky.actor.defs#savedFeedsPref"),
            None => false,
        };
        if is_v2 {
            match pref.array_member("items") {
                Some(items) => push_v2_uris(&mut uris, items),
                None => {
                    assert(v2_feed_uris(Seq::empty()) =~= Seq::<Seq<char>>::empty());
                },
            }
            assert(string_views(uris@) =~= before + pref_feed_uris(*pref));
        } else if is_legacy {
            push_legacy_uris(&mut uris, pref.array_member("pinned"));
            push_legacy_uris(&mut uris, pref.array_member("saved"));
            assert(string_views(uris@) =~= before + pref_feed_uris(*pref));
        } else {
            assert(string_views(uris@) =~= before + pref_feed_uris(*pref));
        }
        i += 1;
    }
    assert(prefs@.take(prefs@.len() as int) =~= prefs@);
    uris
}

/// The URIs, each kept at its first place.
pub open spec fn first_occurrences(uris: Seq<Seq<char>>) -> Seq<Seq<char>>
    decreases uris.len(),
{
    if uris.len() == 0 {
        Seq::empty()
    } else {
        let kept = first_occurrences(uris.drop_last());
        if kept.contains(uris.last()) {
            kept
        } else {
            kept.push(uris.last())
        }
    }
}

/// A saved feed as a feed source.
pub open spec fn generator_source(uri: Seq<char>) -> FeedSourceView {
    FeedSourceView { label: spec_short_feed_label(uri), kind: SourceKindView::Generator { uri } }
}

pub open spec fn generator_sources(uris: Seq<Seq<char>>) -> Seq<FeedSourceView> {
    uris.map_values(|u: Seq<char>| generator_source(u))
}

fn seen_uri(sources: &Vec<FeedSource>, skip: usize, uri: &str) -> (r: bool)
    requires
        skip <= sources@.len(),
    ensures
        r == exists|k: int| skip <= k < sources@.len() && (#[trigger] sources@[k])@.kind == (SourceKindView::Generator { uri: uri@ }),
{
    let mut i: usize = skip;
    while i < sources.len()
        invariant
            skip <= i <= sources@.len(),
            forall|k: int| skip <= k < i ==> (#[trigger] sources@[k])@.kind != (SourceKindView::Generator { uri: uri@ }),
        decreases sources@.len() - i,
    {
        match &sources[i].kind {
            FeedSourceKind::Generator { uri: u } => {
                if strings_equal(u.as_str(), uri) {
                    return true;
                }
            },
            _ => {},
        }
        i += 1;
    }
    false
}

/// Appends a source for each saved feed not listed yet.
fn push_saved_sources(sources: &mut Vec<FeedSource>, root: &Json)
    requires
        forall|k: int| 0 <= k < old(sources)@.len() ==> !((#[trigger] old(sources)@[k])@.kind is Generator),
    ensures
        sources_view(final(sources)@) == sources_view(old(sources)@) + generator_sources(
            first_occurrences(spec_saved_feed_uris(root.items_field("preferences"@))),
        ),
{
    let uris = saved_feed_uris(root);
    let skip = sources.len();
    let ghost base = sources_view(sources@);
    let ghost all = string_views(uris@);
    let mut i: usize = 0;
    while i < uris.len()
        invariant
            skip == base.len(),
            all == string_views(uris@),
            i <= uris@.len(),
            sources@.len() >= skip,
            forall|k: int| 0 <= k < skip ==> !((#[trigger] sources@[k])@.kind is Generator),
            sources_view(sources@) == base + generator_sources(first_occurrences(all.take(i as int))),
        decreases uris@.len() - i,
    {
        assert(all.take(i + 1).drop_last() =~= all.take(i as int));
        assert(all.take(i + 1).last() == uris@[i as int]@);
        let ghost kept = first_occurrences(all.take(i as int));
        let uri = uris[i].as_str();
        let seen = seen_uri(sources, skip, uri);
        proof {
            assert(sources_view(sources@).len() == sources@.len());
            assert(sources@.len() == skip + kept.len());
            assert forall|k: int| skip <= k < sources@.len() implies (#[trigger] sources@[k])@ == generator_source(kept[k - skip]) by {
                assert(sources_view(sources@)[k] == sources@[k]@);
                assert((base + generator_sources(kept))[k] == generator_sources(kept)[k - skip]);
            }
            if seen {
                let k = choose|k: int| skip <= k < sources@.len() && (#[trigger] sources@[k])@.kind == (SourceKindView::Generator { uri: uri@ });
                assert(kept[k - skip] == uri@);
            } else {
                assert forall|j: int| 0 <= j < kept.len() implies kept[j] != uri@ by {
                    assert(sources@[j + skip]@ == generator_source(kept[j + skip - skip]));
                }
            }
        }
        if !seen {
            let label = short_feed_label(uri);
            let ghost before = sources_view(sources@);
            sources.push(FeedSource { label, kind: FeedSourceKind::Generator { uri: uri.to_owned() } });
            assert(sources_view(sources@) =~= before.push(generator_source(uri@)));
            assert(generator_sources(kept.push(uri@)) =~= generator_sources(kept).push(generator_source(uri@)));
        }
        i += 1;
    }
    assert(all.take(all.len() as int) =~= all);
}

/// The home feed, then each saved feed once.
pub fn feed_sources_from_preferences(root: &Json) -> (r: Vec<FeedSource>)
    ensures
        sources_view(r@) == seq![FeedSourceView { label: "Following"@, kind: SourceKindView::Home }]
            + generator_sources(first_occurrences(spec_saved_feed_uris(root.items_field("preferences"@)))),
{
    let mut sources = vec![FeedSource::home()];
    assert(sources_view(sources@) =~= seq![FeedSourceView { label: "Following"@, kind: SourceKindView::Home }]);
    push_saved_sources(&mut sources, root);
    sources
}

/// The home feed, the account's own posts, then each
/// saved feed once.
pub fn feed_sources_for_account(root: &Json, handle: &str, did: &str) -> (r: Vec<FeedSource>)
    ensures
        sources_view(r@) == seq![
            FeedSourceView { label: "Following"@, kind: SourceKindView::Home },
            FeedSourceView { label: "Your Posts"@, kind: SourceKindView::Author { handle: handle@, did: did@ } },
        ] + generator_sources(first_occurrences(spec_saved_feed_uris(root.items_field("preferences"@)))),
{
    let mut sources = vec![FeedSource::home(), FeedSource::author(handle, did)];
    assert(sources_view(sources@) =~= seq![
        FeedSourceView { label: "Following"@, kind: SourceKindView::Home },
        FeedSourceView { label: "Your Posts"@, kind: SourceKindView::Author { handle: handle@, did: did@ } },
    ]);
    push_saved_sources(&mut sources, root);
    sources
}

/// The home feed preferences of one `feedViewPref`; a missing setting hides nothing.
pub open spec fn spec_feed_view_pref(pref: Json) -> HomeFeedPrefs {
    HomeFeedPrefs {
        hide_replies: pref.bool_field("hideReplies"@) == Some(true),
        hide_replies_by_unfollowed: pref.bool_field("hideRepliesByUnfollowed"@) == Some(true),
        hide_replies_by_like_count: pref.number_field("hideRepliesByLikeCount"@),
        hide_reposts: pref.bool_field("hideReposts"@) == Some(true),
        hide_quote_posts: pref.bool_field("hideQuotePosts"@) == Some(true),
    }
}

pub open spec fn is_home_view_pref(pref: Json) -> bool {
    pref.text_field("$type"@) == Some("app.bsky.actor.defs#feedViewPref"@) && pref.text_field("feed"@) == Some("home"@)
}

/// The home feed preferences of a preferences response: the first home `feedViewPref`,
/// or preferences that hide nothing.
pub open spec fn spec_home_prefs(prefs: Seq<Json>) -> HomeFeedPrefs
    decreases prefs.len(),
{
    if prefs.len() == 0 {
        HomeFeedPrefs {
            hide_replies: false,
            hide_replies_by_unfollowed: false,
            hide_replies_by_like_count: None,
            hide_reposts: false,
            hide_quote_posts: false,
        }
    } else if is_home_view_pref(prefs[0]) {
        spec_feed_view_pref(prefs[0])
    } else {
        spec_home_prefs(prefs.drop_first())
    }
}

impl HomeFeedPrefs {
    fn from_feed_view_pref(pref: &Json) -> (r: HomeFeedPrefs)
        ensures
            r == spec_feed_view_pref(*pref),
    {
        HomeFeedPrefs {
            hide_replies: pref.bool_member("hideReplies") == Some(true),
            hide_replies_by_unfollowed: pref.bool_member("hideRepliesByUnfollowed") == Some(true),
            hide_replies_by_like_count: pref.number_member("hideRepliesByLikeCount"),
            hide_reposts: pref.bool_member("hideReposts") == Some(true),
            hide_quote_posts: pref.bool_member("hideQuotePosts") == Some(true),
        }
    }

    /// The home feed preferences of an `app.bsky.actor.getPreferences` response.
    pub fn from_preferences_response(root: &Json) -> (r: HomeFeedPrefs)
        ensures
            r == spec_home_prefs(root.items_field("preferences"@)),
    {
        let prefs = match root.array_member("preferences") {
            Some(p) => p,
            None => return HomeFeedPrefs::show_all(),
        };
        let mut i: usize = 0;
        assert(prefs@.skip(0) =~= prefs@);
        while i < prefs.len()
            invariant
                prefs@ == root.items_field("preferences"@),
                i <= prefs@.len(),
                spec_home_prefs(prefs@) == spec_home_prefs(prefs@.skip(i as int)),
            decreases prefs@.len() - i,
        {
            assert(prefs@.skip(i as int).drop_first() =~= prefs@.skip(i + 1));
            assert(prefs@.skip(i as int)[0] == prefs@[i as int]);
            let pref = &prefs[i];
            let is_view = match pref.string_field("$type") {
                Some(t) => strings_equal(t.as_str(), "app.bsky.actor.defs#feedViewPref"),
                None => false,
            };
            let is_home = match pref.string_field("feed") {
                Some(f) => strings_equal(f.as_str(), "home"),
                None => false,
            };
            if is_view && is_home {
                return HomeFeedPrefs::from_feed_view_pref(pref);
            }
            i += 1;
        }
        HomeFeedPrefs::show_all()
    }
}

// ---------------------------------------------------------------------------
// Laws

/// The links kept by `dedupe` have non-empty, distinct URIs, and each is one of the
/// links given.
pub proof fn law_dedupe_distinct(links: Seq<(Seq<char>, Seq<char>, LinkSource)>)
    ensures
        forall|i: int| 0 <= i < dedupe(links).len() ==> (#[trigger] dedupe(links)[i]).0.len() > 0,
        forall|i: int, j: int| 0 <= i < j < dedupe(links).len() ==> (#[trigger] dedupe(links)[i]).0 != (#[trigger] dedupe(links)[j]).0,
        forall|i: int| 0 <= i < dedupe(links).len() ==> links.contains(#[trigger] dedupe(links)[i]),
    decreases links.len(),
{
    if links.len() > 0 {
        let rest = links.drop_last();
        law_dedupe_distinct(rest);
        let kept = dedupe(rest);
        assert forall|i: int| 0 <= i < kept.len() implies links.contains(#[trigger] kept[i]) by {
            let k = choose|k: int| 0 <= k < rest.len() && rest[k] == kept[i];
            assert(links[k] == rest[k]);
        }
        let l = links.last();
        if !(l.0.len() == 0 || has_uri(kept, l.0)) {
            let d = kept.push(l);
            assert(links[links.len() - 1] == l);
            assert forall|i: int, j: int| 0 <= i < j < d.len() implies (#[trigger] d[i]).0 != (#[trigger] d[j]).0 by {
                if j == d.len() - 1 {
                    assert(d[i] == kept[i]);
                }
            }
        }
    }
}

/// Stable sorting by start keeps every candidate and orders them by start.
pub proof fn law_sort_by_start_ordered(cs: Seq<(int, (Seq<char>, Seq<char>, LinkSource))>)
    ensures
        sort_by_start(cs).len() == cs.len(),
        forall|i: int, j: int| 0 <= i <= j < sort_by_start(cs).len() ==> (#[trigger] sort_by_start(cs)[i]).0 <= (#[trigger] sort_by_start(cs)[j]).0,
    decreases cs.len(),
{
    if cs.len() > 0 {
        law_sort_by_start_ordered(cs.drop_last());
        lemma_insert_ordered(sort_by_start(cs.drop_last()), cs.last());
    }
}

proof fn lemma_insert_ordered(
    sorted: Seq<(int, (Seq<char>, Seq<char>, LinkSource))>,
    c: (int, (Seq<char>, Seq<char>, LinkSource)),
)
    requires
        forall|i: int, j: int| 0 <= i <= j < sorted.len() ==> (#[trigger] sorted[i]).0 <= (#[trigger] sorted[j]).0,
    ensures
        insert_by_start(sorted, c).len() == sorted.len() + 1,
        forall|i: int, j: int|
            0 <= i <= j < insert_by_start(sorted, c).len() ==> (#[trigger] insert_by_start(sorted, c)[i]).0
                <= (#[trigger] insert_by_start(sorted, c)[j]).0,
        forall|i: int| 0 <= i < insert_by_start(sorted, c).len() ==> (#[trigger] insert_by_start(sorted, c)[i]).0 <= sorted.last().0 || (#[trigger] insert_by_start(sorted, c)[i]).0 <= c.0 || sorted.len() == 0,
    decreases sorted.len(),
{
    if sorted.len() == 0 || sorted.last().0 <= c.0 {
        let r = sorted.push(c);
        assert forall|i: int, j: int| 0 <= i <= j < r.len() implies (#[trigger] r[i]).0 <= (#[trigger] r[j]).0 by {
            if j == r.len() - 1 && i < j {
                assert(sorted[i].0 <= sorted[sorted.len() - 1].0);
            }
        }
    } else {
        let rest = sorted.drop_last();
        assert forall|i: int, j: int| 0 <= i <= j < rest.len() implies (#[trigger] rest[i]).0 <= (#[trigger] rest[j]).0 by {
            assert(rest[i] == sorted[i] && rest[j] == sorted[j]);
        }
        lemma_insert_ordered(rest, c);
        let inner = insert_by_start(rest, c);
        let r = inner.push(sorted.last());
        assert forall|i: int| 0 <= i < inner.len() implies (#[trigger] inner[i]).0 <= sorted.last().0 by {
            if rest.len() > 0 {
                assert(rest.last() == sorted[sorted.len() - 2]);
                assert(sorted[sorted.len() - 2].0 <= sorted[sorted.len() - 1].0);
            }
        }
        assert forall|i: int, j: int| 0 <= i <= j < r.len() implies (#[trigger] r[i]).0 <= (#[trigger] r[j]).0 by {
            if j == r.len() - 1 && i < j {
                assert(inner[i].0 <= sorted.last().0);
            } else if j < r.len() - 1 {
                assert(r[i] == inner[i] && r[j] == inner[j]);
            }
        }
    }
}

/// Every post a timeline page shows is one the home preferences allow.
pub proof fn law_timeline_shows_only_allowed(entries: Seq<Json>, prefs: HomeFeedPrefs)
    ensures
        forall|i: int| 0 <= i < spec_timeline(entries, prefs).len() ==> prefs.allows_view(#[trigger] spec_timeline(entries, prefs)[i]),
    decreases entries.len(),
{
    if entries.len() > 0 {
        law_timeline_shows_only_allowed(entries.drop_last(), prefs);
        let before = spec_timeline(entries.drop_last(), prefs);
        assert forall|i: int| 0 <= i < spec_timeline(entries, prefs).len() implies prefs.allows_view(
            #[trigger] spec_timeline(entries, prefs)[i],
        ) by {
            if i < before.len() {
                assert(spec_timeline(entries, prefs)[i] == before[i]);
            }
        }
    }
}


// ---------------------------------------------------------------------------
// Notifications and profiles

/// The reason a notification names.
pub open spec fn spec_notification_reason(name: Option<Seq<char>>) -> NotificationReason {
    match name {
        Some(n) => if n == "like"@ {
            NotificationReason::Like
        } else if n == "repost"@ {
            NotificationReason::Repost
        } else if n == "follow"@ {
            NotificationReason::Follow
        } else if n == "mention"@ {
            NotificationReason::Mention
        } else if n == "reply"@ {
            NotificationReason::Reply
        } else if n == "quote"@ {
            NotificationReason::Quote
        } else {
            NotificationReason::Other
        },
        None => NotificationReason::Other,
    }
}

fn notification_reason(name: Option<&str>) -> (r: NotificationReason)
    ensures
        r == spec_notification_reason(match name {
            Some(n) => Some(n@),
            None => None,
        }),
{
    match name {
        Some(n) => if strings_equal(n, "like") {
            NotificationReason::Like
        } else if strings_equal(n, "repost") {
            NotificationReason::Repost
        } else if strings_equal(n, "follow") {
            NotificationReason::Follow
        } else if strings_equal(n, "mention") {
            NotificationReason::Mention
        } else if strings_equal(n, "reply") {
            NotificationReason::Reply
        } else if strings_equal(n, "quote") {
            NotificationReason::Quote
        } else {
            NotificationReason::Other
        },
        None => NotificationReason::Other,
    }
}

/// What opening a notification shows: a like or a repost opens the post it was about,
/// a reply, mention or quote opens the new post, a follow opens the follower's profile
/// (by DID, or handle when it has none), and anything else the post it names, if any.
pub open spec fn target_is(
    t: NotificationTarget,
    reason: NotificationReason,
    uri: Seq<char>,
    subject: Option<Seq<char>>,
    actor: Seq<char>,
) -> bool {
    match reason {
        NotificationReason::Reply | NotificationReason::Mention | NotificationReason::Quote => t matches NotificationTarget::Post {
            uri: u,
        } && u@ == uri,
        NotificationReason::Follow => t matches NotificationTarget::Profile { actor: a } && a@ == actor,
        _ => match subject {
            Some(s) => t matches NotificationTarget::Post { uri: u } && u@ == s,
            None => t is NoTarget,
        },
    }
}

/// `n` is the notification the service entry `entry` describes.
pub open spec fn is_notification_of(n: NotificationItem, entry: Json) -> bool {
    let author = member_or_null(entry, "author"@);
    let did = author.text_field("did"@);
    let handle = or_unknown(author.text_field("handle"@));
    let actor = match non_empty(did) {
        Some(d) => d,
        None => handle,
    };
    &&& n.uri@ == or_empty(entry.text_field("uri"@))
    &&& n.cid@ == or_empty(entry.text_field("cid"@))
    &&& opt_view(n.author_did) == did
    &&& n.author_name@ == spec_display_name(author)
    &&& n.author_handle@ == handle
    &&& opt_view(n.author_following_uri) == spec_following_uri(author)
    &&& n.reason == spec_notification_reason(entry.text_field("reason"@))
    &&& opt_view(n.reason_subject) == entry.text_field("reasonSubject"@)
    &&& n.text@ == or_empty(record_text(entry, "text"@))
    &&& n.indexed_at@ == or_empty(entry.text_field("indexedAt"@))
    &&& n.is_read == (entry.bool_field("isRead"@) == Some(true))
    &&& target_is(n.target, n.reason, n.uri@, opt_view(n.reason_subject), actor)
}

/// One entry of a notifications page.
pub fn notification_item(entry: &Json) -> (r: NotificationItem)
    ensures
        is_notification_of(r, *entry),
{
    let author = entry.get("author");
    let (author_did, author_name, author_handle, author_following_uri) = match author {
        Some(a) => (a.string_field("did"), display_name(a), text_or_unknown(a.string_field("handle")), following_uri(a)),
        None => {
            let null = Json::Null;
            (None, display_name(&null), "unknown".to_owned(), following_uri(&null))
        },
    };
    let uri = text_or_empty(entry.string_field("uri"));
    let reason_name = entry.string_field("reason");
    let reason = match &reason_name {
        Some(n) => notification_reason(Some(n.as_str())),
        None => notification_reason(None),
    };
    let reason_subject = entry.string_field("reasonSubject");
    let actor = match drop_empty(clone_opt(&author_did)) {
        Some(d) => d,
        None => author_handle.clone(),
    };
    let target = match reason {
        NotificationReason::Reply | NotificationReason::Mention | NotificationReason::Quote => NotificationTarget::Post {
            uri: uri.clone(),
        },
        NotificationReason::Follow => NotificationTarget::Profile { actor },
        _ => match &reason_subject {
            Some(s) => NotificationTarget::Post { uri: s.clone() },
            None => NotificationTarget::NoTarget,
        },
    };
    NotificationItem {
        uri,
        cid: text_or_empty(entry.string_field("cid")),
        author_did,
        author_name,
        author_handle,
        author_following_uri,
        reason,
        reason_subject,
        text: text_or_empty(record_text_field(entry, "text")),
        indexed_at: text_or_empty(entry.string_field("indexedAt")),
        is_read: entry.bool_member("isRead") == Some(true),
        target,
    }
}

fn clone_opt(o: &Option<String>) -> (r: Option<String>)
    ensures
        r == *o,
{
    match o {
        Some(s) => Some(s.clone()),
        None => None,
    }
}

/// The notifications of a page, in order, and the cursor of the
/// next page.
pub fn notification_items(root: &Json) -> (r: (Vec<NotificationItem>, Option<String>))
    ensures
        r.0@.len() == root.items_field("notifications"@).len(),
        forall|i: int| 0 <= i < r.0@.len() ==> is_notification_of(#[trigger] r.0@[i], root.items_field("notifications"@)[i]),
        opt_view(r.1) == root.text_field("cursor"@),
{
    let mut items: Vec<NotificationItem> = Vec::new();
    match root.array_member("notifications") {
        Some(entries) => {
            let mut i: usize = 0;
            while i < entries.len()
                invariant
                    entries@ == root.items_field("notifications"@),
                    i <= entries@.len(),
                    items@.len() == i,
                    forall|k: int| 0 <= k < i ==> is_notification_of(#[trigger] items@[k], entries@[k]),
                decreases entries@.len() - i,
            {
                items.push(notification_item(&entries[i]));
                i += 1;
            }
        },
        None => {},
    }
    (items, root.string_field("cursor"))
}

/// `p` is the profile the service document `root` describes.
pub open spec fn describes_profile(p: ProfileSummary, root: Json) -> bool {
    &&& p.did@ == or_empty(root.text_field("did"@))
    &&& p.handle@ == or_unknown(root.text_field("handle"@))
    &&& p.display_name@ == spec_display_name(root)
    &&& opt_view(p.description) == non_empty(root.text_field("description"@))
    &&& opt_view(p.avatar_url) == root.text_field("avatar"@)
    &&& opt_view(p.banner_url) == root.text_field("banner"@)
    &&& opt_view(p.viewer_following) == spec_following_uri(root)
    &&& p.followers_count == or_zero(root.number_field("followersCount"@))
    &&& p.follows_count == or_zero(root.number_field("followsCount"@))
    &&& p.posts_count == or_zero(root.number_field("postsCount"@))
}

fn count_or_zero(n: Option<u64>) -> (r: u64)
    ensures
        r == or_zero(n),
{
    match n {
        Some(v) => v,
        None => 0,
    }
}

/// The header of a profile, from the service's profile document.
pub fn profile_summary(root: &Json) -> (r: ProfileSummary)
    ensures
        describes_profile(r, *root),
{
    ProfileSummary {
        did: text_or_empty(root.string_field("did")),
        handle: text_or_unknown(root.string_field("handle")),
        display_name: display_name(root),
        description: drop_empty(root.string_field("description")),
        avatar_url: root.string_field("avatar"),
        banner_url: root.string_field("banner"),
        viewer_following: following_uri(root),
        followers_count: count_or_zero(root.number_member("followersCount")),
        follows_count: count_or_zero(root.number_member("followsCount")),
        posts_count: count_or_zero(root.number_member("postsCount")),
    }
}

} // verus!
