//! The parts of the Bluesky XRPC client that compute: endpoint URLs, query
//! parameters, AT URIs and the mentions found in a post's text.
use vstd::prelude::*;

use crate::text::{chars_of, decimal, push_char, push_decimal, push_str, string_from_chars, strings_equal};
use vstd::string::StringSliceAdditionalSpecFns;
use crate::feed::{find_urls, url_links};
use crate::json::Json;
use crate::model::PostRef;
use crate::config::Session;
use crate::clock::epoch_elapsed;
use crate::ui::rfc3339_instant;

verus! {

#[derive(Debug, Clone, PartialEq, Eq)]
pub struct CreatedRecord {
    pub uri: String,
    pub cid: String,
}

/// `s` without the trailing `c` characters.
pub open spec fn trim_end_char(s: Seq<char>, c: char) -> Seq<char>
    decreases s.len(),
{
    if s.len() > 0 && s.last() == c {
        trim_end_char(s.drop_last(), c)
    } else {
        s
    }
}

/// The XRPC endpoint `endpoint` of the service at `service`, without a doubled slash.
pub open spec fn spec_xrpc_url(service: Seq<char>, endpoint: Seq<char>) -> Seq<char> {
    trim_end_char(service, '/') + "/xrpc/"@ + endpoint
}

pub fn xrpc_url(service: &str, endpoint: &str) -> (r: String)
    ensures
        r@ == spec_xrpc_url(service@, endpoint@),
{
    let v = chars_of(service);
    let mut n = v.len();
    assert(v@.take(v@.len() as int) =~= v@);
    while n > 0 && v[n - 1] == '/'
        invariant
            n <= v@.len(),
            trim_end_char(v@, '/') == trim_end_char(v@.take(n as int), '/'),
        decreases n,
    {
        proof {
            assert(v@.take(n as int).drop_last() =~= v@.take(n - 1));
        }
        n -= 1;
    }
    let mut url = string_from_chars(&v, 0, n);
    push_str(&mut url, "/xrpc/");
    push_str(&mut url, endpoint);
    url
}

/// A query parameter as two character sequences.
pub open spec fn param_view(p: (String, String)) -> (Seq<char>, Seq<char>) {
    (p.0@, p.1@)
}

pub open spec fn query_view(q: Seq<(String, String)>) -> Seq<(Seq<char>, Seq<char>)> {
    q.map_values(|p: (String, String)| param_view(p))
}

pub open spec fn cursor_param(cursor: Option<&str>) -> Seq<(Seq<char>, Seq<char>)> {
    match cursor {
        Some(c) => seq![("cursor"@, c@)],
        None => Seq::empty(),
    }
}

fn param(name: &str, value: &str) -> (r: (String, String))
    ensures
        param_view(r) == (name@, value@),
{
    (name.to_owned(), value.to_owned())
}

fn limit_param(limit: u16) -> (r: (String, String))
    ensures
        param_view(r) == ("limit"@, decimal(limit as nat)),
{
    let mut value = String::new();
    push_decimal(&mut value, limit as u64);
    ("limit".to_owned(), value)
}

fn push_cursor(query: &mut Vec<(String, String)>, cursor: Option<&str>)
    ensures
        query_view(final(query)@) == query_view(old(query)@) + cursor_param(cursor),
{
    let ghost before = query@;
    if let Some(c) = cursor {
        query.push(param("cursor", c));
        assert(query_view(query@) =~= query_view(before) + cursor_param(cursor));
    } else {
        assert(query_view(query@) =~= query_view(before) + cursor_param(cursor));
    }
}

/// Parameters of the home timeline request.
pub fn timeline_query(cursor: Option<&str>, limit: u16) -> (r: Vec<(String, String)>)
    ensures
        query_view(r@) == seq![("limit"@, decimal(limit as nat))] + cursor_param(cursor),
{
    let mut query = vec![limit_param(limit)];
    assert(query_view(query@) =~= seq![("limit"@, decimal(limit as nat))]);
    push_cursor(&mut query, cursor);
    query
}

/// Parameters of a custom feed request.
pub fn feed_query(feed: &str, cursor: Option<&str>, limit: u16) -> (r: Vec<(String, String)>)
    ensures
        query_view(r@) == seq![("feed"@, feed@), ("limit"@, decimal(limit as nat))] + cursor_param(
            cursor,
        ),
{
    let mut query = vec![param("feed", feed), limit_param(limit)];
    assert(query_view(query@) =~= seq![("feed"@, feed@), ("limit"@, decimal(limit as nat))]);
    push_cursor(&mut query, cursor);
    query
}

/// Parameters of an author feed request; replies are included.
pub fn author_feed_query(actor: &str, cursor: Option<&str>, limit: u16) -> (r: Vec<(String, String)>)
    ensures
        query_view(r@) == seq![
            ("actor"@, actor@),
            ("filter"@, "posts_with_replies"@),
            ("limit"@, decimal(limit as nat)),
        ] + cursor_param(cursor),
{
    let mut query = vec![
        param("actor", actor),
        param("filter", "posts_with_replies"),
        limit_param(limit),
    ];
    assert(query_view(query@) =~= seq![
        ("actor"@, actor@),
        ("filter"@, "posts_with_replies"@),
        ("limit"@, decimal(limit as nat)),
    ]);
    push_cursor(&mut query, cursor);
    query
}

/// Parameters naming an actor.
pub fn actor_query(actor: &str) -> (r: Vec<(String, String)>)
    ensures
        query_view(r@) == seq![("actor"@, actor@)],
{
    let query = vec![param("actor", actor)];
    assert(query_view(query@) =~= seq![("actor"@, actor@)]);
    query
}

/// Parameters of a notification list request.
pub fn notification_query(cursor: Option<&str>, limit: u16) -> (r: Vec<(String, String)>)
    ensures
        query_view(r@) == seq![("limit"@, decimal(limit as nat))] + cursor_param(cursor),
{
    timeline_query(cursor, limit)
}

/// Parameters of a thread request: eight levels of replies and eighty parents.
pub fn post_thread_query(uri: &str) -> (r: Vec<(String, String)>)
    ensures
        query_view(r@) == seq![("uri"@, uri@), ("depth"@, "8"@), ("parentHeight"@, "80"@)],
{
    let query = vec![param("uri", uri), param("depth", "8"), param("parentHeight", "80")];
    assert(query_view(query@) =~= seq![("uri"@, uri@), ("depth"@, "8"@), ("parentHeight"@, "80"@)]);
    query
}

#[derive(Debug, Clone, PartialEq, Eq)]
pub struct AtUriParts {
    pub repo: String,
    pub collection: String,
    pub rkey: String,
}

#[derive(Debug, Clone, Copy, PartialEq, Eq)]
pub enum AtUriError {
    NotAtUri,
    MissingRepo,
    MissingCollection,
    MissingRecordKey,
}

impl AtUriError {
    /// The message shown for the error, naming the URI.
    pub fn describe(&self, uri: &str) -> (r: String)
        ensures
            r@ == match self {
                AtUriError::NotAtUri => "not an at:// URI: "@,
                AtUriError::MissingRepo => "AT URI is missing repo: "@,
                AtUriError::MissingCollection => "AT URI is missing collection: "@,
                AtUriError::MissingRecordKey => "AT URI is missing record key: "@,
            } + uri@,
    {
        let mut out = match self {
            AtUriError::NotAtUri => "not an at:// URI: ".to_owned(),
            AtUriError::MissingRepo => "AT URI is missing repo: ".to_owned(),
            AtUriError::MissingCollection => "AT URI is missing collection: ".to_owned(),
            AtUriError::MissingRecordKey => "AT URI is missing record key: ".to_owned(),
        };
        push_str(&mut out, uri);
        out
    }
}

/// The position of the first `c` in `s`.
pub open spec fn first_index_of(s: Seq<char>, c: char) -> Option<int>
    decreases s.len(),
{
    if s.len() == 0 {
        None
    } else {
        match first_index_of(s.drop_last(), c) {
            Some(i) => Some(i),
            None => if s.last() == c {
                Some(s.len() - 1)
            } else {
                None
            },
        }
    }
}

/// Splits an `at://repo/collection/rkey` URI; the record key may itself hold slashes,
/// and each part must be non-empty.
pub open spec fn spec_at_uri_parts(uri: Seq<char>) -> Result<(Seq<char>, Seq<char>, Seq<char>), AtUriError> {
    let prefix = "at://"@;
    if !(uri.len() >= prefix.len() && uri.take(prefix.len() as int) == prefix) {
        Err(AtUriError::NotAtUri)
    } else {
        let path = uri.skip(prefix.len() as int);
        match first_index_of(path, '/') {
            None => if path.len() == 0 {
                Err(AtUriError::MissingRepo)
            } else {
                Err(AtUriError::MissingCollection)
            },
            Some(i) => {
                let repo = path.take(i);
                let rest = path.skip(i + 1);
                if repo.len() == 0 {
                    Err(AtUriError::MissingRepo)
                } else {
                    match first_index_of(rest, '/') {
                        None => if rest.len() == 0 {
                            Err(AtUriError::MissingCollection)
                        } else {
                            Err(AtUriError::MissingRecordKey)
                        },
                        Some(j) => {
                            let collection = rest.take(j);
                            let rkey = rest.skip(j + 1);
                            if collection.len() == 0 {
                                Err(AtUriError::MissingCollection)
                            } else if rkey.len() == 0 {
                                Err(AtUriError::MissingRecordKey)
                            } else {
                                Ok((repo, collection, rkey))
                            }
                        },
                    }
                }
            },
        }
    }
}

fn find_char_from(v: &Vec<char>, from: usize, c: char) -> (r: Option<usize>)
    requires
        from <= v@.len(),
    ensures
        match r {
            Some(k) => from <= k < v@.len() && first_index_of(v@.skip(from as int), c) == Some(k - from),
            None => first_index_of(v@.skip(from as int), c) is None,
        },
{
    let mut k = from;
    while k < v.len()
        invariant
            from <= k <= v@.len(),
            first_index_of(v@.skip(from as int).take(k - from), c) is None,
        decreases v@.len() - k,
    {
        proof {
            assert(v@.skip(from as int).take(k + 1 - from).drop_last() =~= v@.skip(from as int).take(k - from));
        }
        if v[k] == c {
            proof {
                lemma_first_index_prefix(v@.skip(from as int), c, k + 1 - from);
            }
            return Some(k);
        }
        k += 1;
    }
    assert(v@.skip(from as int).take(k - from) =~= v@.skip(from as int));
    None
}

/// The first occurrence within a prefix is the first occurrence overall.
proof fn lemma_first_index_prefix(s: Seq<char>, c: char, n: int)
    requires
        0 <= n <= s.len(),
        first_index_of(s.take(n), c) is Some,
    ensures
        first_index_of(s, c) == first_index_of(s.take(n), c),
    decreases s.len() - n,
{
    if n < s.len() {
        assert(s.take(n + 1).drop_last() =~= s.take(n));
        lemma_first_index_prefix(s, c, n + 1);
    } else {
        assert(s.take(n) =~= s);
    }
}

pub fn at_uri_parts(uri: &str) -> (r: Result<AtUriParts, AtUriError>)
    ensures
        match spec_at_uri_parts(uri@) {
            Ok((repo, collection, rkey)) => r matches Ok(p) && p.repo@ == repo && p.collection@
                == collection && p.rkey@ == rkey,
            Err(e) => r == Err::<AtUriParts, AtUriError>(e),
        },
{
    let v = chars_of(uri);
    let prefix = chars_of("at://");
    proof {
        reveal_strlit("at://");
    }
    if v.len() < 5 || !(v[0] == 'a' && v[1] == 't' && v[2] == ':' && v[3] == '/' && v[4] == '/') {
        proof {
            if v@.len() >= 5 && v@.take(5) == "at://"@ {
                assert(v@[0] == v@.take(5)[0]);
                assert(v@[1] == v@.take(5)[1]);
                assert(v@[2] == v@.take(5)[2]);
                assert(v@[3] == v@.take(5)[3]);
                assert(v@[4] == v@.take(5)[4]);
            }
        }
        return Err(AtUriError::NotAtUri);
    }
    assert(v@.take(5) =~= "at://"@);
    let ghost path = v@.skip(5);
    let i = match find_char_from(&v, 5, '/') {
        None => {
            if v.len() == 5 {
                return Err(AtUriError::MissingRepo);
            }
            return Err(AtUriError::MissingCollection);
        },
        Some(i) => i,
    };
    if i == 5 {
        return Err(AtUriError::MissingRepo);
    }
    assert(path.skip(i - 5 + 1) =~= v@.skip(i + 1));
    let j = match find_char_from(&v, i + 1, '/') {
        None => {
            if v.len() == i + 1 {
                return Err(AtUriError::MissingCollection);
            }
            return Err(AtUriError::MissingRecordKey);
        },
        Some(j) => j,
    };
    if j == i + 1 {
        return Err(AtUriError::MissingCollection);
    }
    if j + 1 == v.len() {
        return Err(AtUriError::MissingRecordKey);
    }
    let repo = string_from_chars(&v, 5, i);
    let collection = string_from_chars(&v, i + 1, j);
    let rkey = string_from_chars(&v, j + 1, v.len());
    proof {
        assert(path.take(i - 5) =~= v@.subrange(5, i as int));
        assert(v@.skip(i + 1).take(j - (i + 1)) =~= v@.subrange(i + 1, j as int));
        assert(v@.skip(i + 1).skip(j - (i + 1) + 1) =~= v@.subrange(j + 1, v@.len() as int));
    }
    Ok(AtUriParts { repo, collection, rkey })
}

#[derive(Debug, Clone, PartialEq, Eq)]
pub struct MentionCandidate {
    pub byte_start: usize,
    pub byte_end: usize,
    pub handle: String,
}

/// Handles are made of ASCII letters, digits, dots and hyphens.
pub open spec fn spec_is_handle_byte(b: u8) -> bool {
    (48 <= b <= 57) || (65 <= b <= 90) || (97 <= b <= 122) || b == 46 || b == 45
}

pub fn is_handle_byte(byte: u8) -> (r: bool)
    ensures
        r == spec_is_handle_byte(byte),
{
    (48 <= byte && byte <= 57) || (65 <= byte && byte <= 90) || (97 <= byte && byte <= 122)
        || byte == 46 || byte == 45
}

pub open spec fn is_ascii_alpha(c: char) -> bool {
    ('a' <= c && c <= 'z') || ('A' <= c && c <= 'Z')
}

pub open spec fn is_ascii_alnum(c: char) -> bool {
    is_ascii_alpha(c) || ('0' <= c && c <= '9')
}

/// `s` split at every dot.
pub open spec fn dot_segments(s: Seq<char>) -> Seq<Seq<char>>
    decreases s.len(),
{
    if s.len() == 0 {
        seq![Seq::empty()]
    } else {
        let prev = dot_segments(s.drop_last());
        if s.last() == '.' {
            prev.push(Seq::empty())
        } else {
            prev.update(prev.len() - 1, prev.last().push(s.last()))
        }
    }
}

pub open spec fn segment_ok(seg: Seq<char>) -> bool {
    &&& seg.len() > 0
    &&& seg[0] != '-'
    &&& seg.last() != '-'
    &&& forall|i: int| 0 <= i < seg.len() ==> is_ascii_alnum(#[trigger] seg[i]) || seg[i] == '-'
}

/// A handle worth resolving: at least two dot-separated labels, each non-empty, of
/// letters, digits and inner hyphens, the last one alphabetic and two or more long.
pub open spec fn spec_is_plausible_handle(handle: Seq<char>) -> bool {
    let segs = dot_segments(handle);
    &&& segs.len() >= 2
    &&& segs.last().len() >= 2
    &&& forall|i: int| 0 <= i < segs.last().len() ==> is_ascii_alpha(#[trigger] segs.last()[i])
    &&& forall|k: int| 0 <= k < segs.len() ==> segment_ok(#[trigger] segs[k])
}

proof fn lemma_dot_segments_nonempty(s: Seq<char>)
    ensures
        dot_segments(s).len() >= 1,
    decreases s.len(),
{
    if s.len() > 0 {
        lemma_dot_segments_nonempty(s.drop_last());
    }
}

fn segments_of(v: &Vec<char>) -> (r: Vec<Vec<char>>)
    ensures
        r@.map_values(|x: Vec<char>| x@) == dot_segments(v@),
{
    let mut segs: Vec<Vec<char>> = Vec::new();
    segs.push(Vec::new());
    assert(segs@.map_values(|x: Vec<char>| x@) =~= dot_segments(v@.take(0)));
    let mut i: usize = 0;
    while i < v.len()
        invariant
            i <= v@.len(),
            segs@.len() >= 1,
            segs@.map_values(|x: Vec<char>| x@) == dot_segments(v@.take(i as int)),
        decreases v@.len() - i,
    {
        proof {
            assert(v@.take(i + 1).drop_last() =~= v@.take(i as int));
            lemma_dot_segments_nonempty(v@.take(i as int));
        }
        let ghost before = segs@.map_values(|x: Vec<char>| x@);
        if v[i] == '.' {
            segs.push(Vec::new());
            assert(segs@.map_values(|x: Vec<char>| x@) =~= before.push(Seq::empty()));
        } else {
            let last = segs.len() - 1;
            let mut seg = segs.pop().unwrap();
            seg.push(v[i]);
            segs.push(seg);
            assert(segs@.map_values(|x: Vec<char>| x@) =~= before.update(before.len() - 1, before.last().push(v@[i as int])));
        }
        i += 1;
    }
    assert(v@.take(v@.len() as int) =~= v@);
    segs
}

fn segment_ok_exec(seg: &Vec<char>) -> (r: bool)
    ensures
        r == segment_ok(seg@),
{
    if seg.len() == 0 || seg[0] == '-' || seg[seg.len() - 1] == '-' {
        return false;
    }
    let mut i: usize = 0;
    while i < seg.len()
        invariant
            i <= seg@.len(),
            forall|k: int| 0 <= k < i ==> is_ascii_alnum(#[trigger] seg@[k]) || seg@[k] == '-',
        decreases seg@.len() - i,
    {
        let c = seg[i];
        let ok = ('a' <= c && c <= 'z') || ('A' <= c && c <= 'Z') || ('0' <= c && c <= '9') || c
            == '-';
        if !ok {
            return false;
        }
        i += 1;
    }
    true
}

fn chars_plausible(v: &Vec<char>) -> (r: bool)
    ensures
        r == spec_is_plausible_handle(v@),
{
    let segs = segments_of(v);
    let ghost view = segs@.map_values(|x: Vec<char>| x@);
    if segs.len() < 2 {
        return false;
    }
    let tld = &segs[segs.len() - 1];
    assert(view.len() == segs@.len());
    assert(tld@ == view.last());
    assert(view == dot_segments(v@));
    if tld.len() < 2 {
        return false;
    }
    let mut i: usize = 0;
    while i < tld.len()
        invariant
            i <= tld@.len(),
            view == dot_segments(v@),
            tld@ == view.last(),
            view.len() >= 2,
            forall|k: int| 0 <= k < i ==> is_ascii_alpha(#[trigger] tld@[k]),
        decreases tld@.len() - i,
    {
        let c = tld[i];
        if !(('a' <= c && c <= 'z') || ('A' <= c && c <= 'Z')) {
            assert(!is_ascii_alpha(tld@[i as int]));
            return false;
        }
        i += 1;
    }
    let mut k: usize = 0;
    while k < segs.len()
        invariant
            k <= segs@.len(),
            view == segs@.map_values(|x: Vec<char>| x@),
            view == dot_segments(v@),
            forall|j: int| 0 <= j < k ==> segment_ok(#[trigger] view[j]),
        decreases segs@.len() - k,
    {
        if !segment_ok_exec(&segs[k]) {
            assert(view[k as int] == segs@[k as int]@);
            return false;
        }
        k += 1;
    }
    true
}

pub fn is_plausible_handle(handle: &str) -> (r: bool)
    ensures
        r == spec_is_plausible_handle(handle@),
{
    let v = chars_of(handle);
    chars_plausible(&v)
}

/// Bytes seen as characters (exact for the ASCII bytes of a handle).
pub open spec fn bytes_as_chars(b: Seq<u8>) -> Seq<char> {
    b.map_values(|x: u8| x as char)
}

/// The end of the run of handle bytes that starts at `from`.
pub open spec fn run_end(b: Seq<u8>, from: int) -> int
    decreases b.len() - from,
{
    if from < 0 || from >= b.len() || !spec_is_handle_byte(b[from]) {
        from
    } else {
        run_end(b, from + 1)
    }
}

/// `end` moved back over trailing dots, but not before `floor`.
pub open spec fn trim_dots(b: Seq<u8>, floor: int, end: int) -> int
    decreases end - floor,
{
    if end > floor && b[end - 1] == 46 {
        trim_dots(b, floor, end - 1)
    } else {
        end
    }
}

/// An '@' that starts a word may start a mention.
pub open spec fn mention_start(b: Seq<u8>, i: int) -> bool {
    0 <= i < b.len() && b[i] == 64 && (i == 0 || !spec_is_handle_byte(b[i - 1]))
}

/// The end of the mention that starts at `i`: the handle bytes that follow, less any
/// sentence-ending dots.
pub open spec fn mention_end(b: Seq<u8>, i: int) -> int {
    trim_dots(b, i + 1, run_end(b, i + 1))
}

pub open spec fn mention_at(b: Seq<u8>, i: int) -> bool {
    mention_start(b, i) && spec_is_plausible_handle(bytes_as_chars(b.subrange(i + 1, mention_end(b, i))))
}

/// Mentions found among the first `n` bytes' starting positions, in order.
pub open spec fn mentions_before(b: Seq<u8>, n: int) -> Seq<(int, int)>
    decreases n,
{
    if n <= 0 {
        Seq::empty()
    } else {
        let prev = mentions_before(b, n - 1);
        if mention_at(b, n - 1) {
            prev.push((n - 1, mention_end(b, n - 1)))
        } else {
            prev
        }
    }
}

pub open spec fn candidate_view(c: MentionCandidate) -> (int, int) {
    (c.byte_start as int, c.byte_end as int)
}

proof fn lemma_run_end_bounds(b: Seq<u8>, from: int)
    requires
        0 <= from <= b.len(),
    ensures
        from <= run_end(b, from) <= b.len(),
        forall|k: int| from <= k < run_end(b, from) ==> spec_is_handle_byte(#[trigger] b[k]),
    decreases b.len() - from,
{
    if from < b.len() && spec_is_handle_byte(b[from]) {
        lemma_run_end_bounds(b, from + 1);
    }
}

proof fn lemma_trim_dots_bounds(b: Seq<u8>, floor: int, end: int)
    requires
        floor <= end <= b.len(),
    ensures
        floor <= trim_dots(b, floor, end) <= end,
    decreases end - floor,
{
    if end > floor && b[end - 1] == 46 {
        lemma_trim_dots_bounds(b, floor, end - 1);
    }
}

/// The '@' mentions of `text` whose handle looks plausible, with their byte ranges
/// (the '@' included).
pub fn mention_candidates(text: &str) -> (r: Vec<MentionCandidate>)
    ensures
        r@.map_values(|c: MentionCandidate| candidate_view(c)) == mentions_before(text.spec_bytes(), text.spec_bytes().len() as int),
        forall|k: int| 0 <= k < r@.len() ==> (#[trigger] r@[k]).handle@ == bytes_as_chars(
            text.spec_bytes().subrange(r@[k].byte_start + 1, r@[k].byte_end as int),
        ),
{
    let bytes = text.as_bytes();
    let ghost b = bytes@;
    let mut candidates: Vec<MentionCandidate> = Vec::new();
    let mut index: usize = 0;
    while index < bytes.len()
        invariant
            bytes@ == b,
            b == text.spec_bytes(),
            index <= b.len(),
            candidates@.map_values(|c: MentionCandidate| candidate_view(c)) == mentions_before(b, index as int),
            forall|k: int| 0 <= k < candidates@.len() ==> (#[trigger] candidates@[k]).handle@ == bytes_as_chars(
                b.subrange(candidates@[k].byte_start + 1, candidates@[k].byte_end as int),
            ),
        decreases b.len() - index,
    {
        let starts = bytes[index] == 64 && (index == 0 || !is_handle_byte(bytes[index - 1]));
        let ghost before = candidates@;
        if starts {
            let mut end = index + 1;
            proof {
                lemma_run_end_bounds(b, index + 1);
            }
            while end < bytes.len() && is_handle_byte(bytes[end])
                invariant
                    bytes@ == b,
                    index + 1 <= end <= b.len(),
                    run_end(b, index + 1) == run_end(b, end as int),
                decreases b.len() - end,
            {
                end += 1;
            }
            let run = end;
            proof {
                lemma_trim_dots_bounds(b, index + 1, run as int);
            }
            while end > index + 1 && bytes[end - 1] == 46
                invariant
                    bytes@ == b,
                    index + 1 <= end <= run <= b.len(),
                    run == run_end(b, index + 1),
                    trim_dots(b, index + 1, run as int) == trim_dots(b, index + 1, end as int),
                decreases end,
            {
                end -= 1;
            }
            let mut handle_chars: Vec<char> = Vec::new();
            let mut k = index + 1;
            while k < end
                invariant
                    bytes@ == b,
                    index + 1 <= k <= end <= b.len(),
                    handle_chars@ == bytes_as_chars(b.subrange(index + 1, k as int)),
                decreases end - k,
            {
                handle_chars.push(bytes[k] as char);
                proof {
                    assert(bytes_as_chars(b.subrange(index + 1, k + 1)) =~= bytes_as_chars(b.subrange(index + 1, k as int)).push(b[k as int] as char));
                }
                k += 1;
            }
            if chars_plausible(&handle_chars) {
                let handle = string_from_chars(&handle_chars, 0, handle_chars.len());
                assert(handle_chars@.subrange(0, handle_chars@.len() as int) =~= handle_chars@);
                candidates.push(MentionCandidate { byte_start: index, byte_end: end, handle });
            }
            proof {
                assert(candidates@.map_values(|c: MentionCandidate| candidate_view(c)) =~= mentions_before(b, index + 1));
            }
        } else {
            proof {
                assert(!mention_at(b, index as int));
            }
        }
        index += 1;
    }
    candidates
}

// ---------------------------------------------------------------------------
// Responses and records

/// What a response lacked.
#[derive(Debug, Clone, PartialEq, Eq)]
pub enum ResponseError {
    MissingField(String),
    MissingCount,
}

impl ResponseError {
    pub fn message(&self) -> (r: String)
        ensures
            r@ == match self {
                ResponseError::MissingField(f) => "Bluesky response did not include "@ + f@,
                ResponseError::MissingCount => "Bluesky response did not include notification count"@,
            },
    {
        match self {
            ResponseError::MissingField(f) => {
                let mut s = "Bluesky response did not include ".to_owned();
                push_str(&mut s, f.as_str());
                s
            },
            ResponseError::MissingCount => "Bluesky response did not include notification count".to_owned(),
        }
    }
}

/// The string member `field` of a response, which must be there.
pub fn required_string(value: &Json, field: &str) -> (r: Result<String, ResponseError>)
    ensures
        match value.text_field(field@) {
            Some(t) => r matches Ok(s) && s@ == t,
            None => r matches Err(ResponseError::MissingField(f)) && f@ == field@,
        },
{
    match value.string_field(field) {
        Some(s) => Ok(s),
        None => Err(ResponseError::MissingField(field.to_owned())),
    }
}

/// A refresh is still to be made when the session holds the access token that was
/// seen to expire; otherwise another task refreshed it already, and its rotated
/// refresh token must not be used twice.
pub fn refresh_still_needed(current: &Session, observed_access: &str) -> (r: bool)
    ensures
        r == (current.access_jwt@ == observed_access@),
{
    strings_equal(current.access_jwt.as_str(), observed_access)
}

/// The session after a `com.atproto.server.refreshSession` reply: both new tokens,
/// which the reply must hold, and the handle and DID when the reply names them.
pub fn session_after_refresh(current: &Session, reply: &Json) -> (r: Result<Session, ResponseError>)
    ensures
        match (reply.text_field("accessJwt"@), reply.text_field("refreshJwt"@)) {
            (Some(access), Some(refresh)) => r matches Ok(s) && {
                &&& s.service == current.service
                &&& s.access_jwt@ == access
                &&& s.refresh_jwt@ == refresh
                &&& s.handle@ == match reply.text_field("handle"@) {
                    Some(h) => h,
                    None => current.handle@,
                }
                &&& s.did@ == match reply.text_field("did"@) {
                    Some(d) => d,
                    None => current.did@,
                }
            },
            (None, _) => r matches Err(ResponseError::MissingField(f)) && f@ == "accessJwt"@,
            (Some(_), None) => r matches Err(ResponseError::MissingField(f)) && f@ == "refreshJwt"@,
        },
{
    let access_jwt = match required_string(reply, "accessJwt") {
        Ok(t) => t,
        Err(e) => return Err(e),
    };
    let refresh_jwt = match required_string(reply, "refreshJwt") {
        Ok(t) => t,
        Err(e) => return Err(e),
    };
    let handle = match reply.string_field("handle") {
        Some(h) => h,
        None => current.handle.clone(),
    };
    let did = match reply.string_field("did") {
        Some(d) => d,
        None => current.did.clone(),
    };
    Ok(Session { service: current.service.clone(), handle, did, access_jwt, refresh_jwt })
}

/// The unread count of an `app.bsky.notification.getUnreadCount` response.
pub fn unread_notification_count(value: &Json) -> (r: Result<u64, ResponseError>)
    ensures
        match value.number_field("count"@) {
            Some(n) => r == Ok::<u64, ResponseError>(n),
            None => r == Err::<u64, ResponseError>(ResponseError::MissingCount),
        },
{
    match value.number_member("count") {
        Some(n) => Ok(n),
        None => Err(ResponseError::MissingCount),
    }
}

/// An error answer of the service: its HTTP status and the `error` and `message`
/// members of its body, when the body is a JSON object that has them.
#[derive(Debug, Clone, PartialEq, Eq)]
pub struct XrpcError {
    status: u16,
    code: Option<String>,
    message: Option<String>,
}

impl XrpcError {
    pub closed spec fn spec_status(&self) -> u16 {
        self.status
    }

    pub closed spec fn spec_code(&self) -> Option<Seq<char>> {
        match self.code {
            Some(c) => Some(c@),
            None => None,
        }
    }

    pub closed spec fn spec_message(&self) -> Option<Seq<char>> {
        match self.message {
            Some(m) => Some(m@),
            None => None,
        }
    }

    /// `from_body`, with the body already read as JSON (nothing when it is not JSON).
    pub fn from_body(status: u16, body: Option<&Json>) -> (r: XrpcError)
        ensures
            r.spec_status() == status,
            r.spec_code() == match body {
                Some(b) => b.text_field("error"@),
                None => None,
            },
            r.spec_message() == match body {
                Some(b) => b.text_field("message"@),
                None => None,
            },
    {
        match body {
            Some(b) => XrpcError { status, code: b.string_field("error"), message: b.string_field("message") },
            None => XrpcError { status, code: None, message: None },
        }
    }

    pub fn status(&self) -> (r: u16)
        ensures
            r == self.spec_status(),
    {
        self.status
    }

    pub fn code(&self) -> (r: Option<&str>)
        ensures
            match r {
                Some(c) => self.spec_code() == Some(c@),
                None => self.spec_code() is None,
            },
    {
        match &self.code {
            Some(c) => Some(c.as_str()),
            None => None,
        }
    }

    pub fn message(&self) -> (r: Option<&str>)
        ensures
            match r {
                Some(m) => self.spec_message() == Some(m@),
                None => self.spec_message() is None,
            },
    {
        match &self.message {
            Some(m) => Some(m.as_str()),
            None => None,
        }
    }

    /// An expired token or an unauthorised answer calls for a session refresh.
    pub fn requires_session_refresh(&self) -> (r: bool)
        ensures
            r == (self.spec_code() == Some("ExpiredToken"@) || self.spec_status() == 401),
    {
        let expired = match &self.code {
            Some(c) => strings_equal(c.as_str(), "ExpiredToken"),
            None => false,
        };
        expired || self.status == 401
    }

    /// The error's text, with the status written as `status_text` (for instance
    /// "401 Unauthorized"): "Bluesky API returned <status> (<code>): <message>", the
    /// parts in brackets only when present.
    pub fn describe(&self, status_text: &str) -> (r: String)
        ensures
            r@ == "Bluesky API returned "@ + status_text@ + match self.spec_code() {
                Some(c) => " ("@ + c + ")"@,
                None => Seq::empty(),
            } + match self.spec_message() {
                Some(m) => ": "@ + m,
                None => Seq::empty(),
            },
    {
        let mut out = "Bluesky API returned ".to_owned();
        push_str(&mut out, status_text);
        if let Some(c) = &self.code {
            push_str(&mut out, " (");
            push_str(&mut out, c.as_str());
            push_str(&mut out, ")");
        }
        if let Some(m) = &self.message {
            push_str(&mut out, ": ");
            push_str(&mut out, m.as_str());
        }
        out
    }
}

/// What `DateTime::<Utc>::from_timestamp(secs, nanos)` written with
/// `to_rfc3339_opts(SecondsFormat::Millis, true)` gives, or nothing when chrono has no
/// such instant.
pub uninterp spec fn rfc3339_millis_text(secs: i64, nanos: u32) -> Option<Seq<char>>;

/// Calls `chrono::DateTime::<Utc>::from_timestamp` and writes the instant with
/// `to_rfc3339_opts(SecondsFormat::Millis, true)`: `YYYY-MM-DDTHH:MM:SS.mmmZ`, the
/// milliseconds truncated. For an instant from 1970 up to the end of year 9999 there
/// is a text, its year has four digits, and it reads back (with
/// `DateTime::parse_from_rfc3339`) as the same second and whole milliseconds. Of
/// later instants (a signed year, while chrono can represent them) nothing more is
/// stated.
#[verifier::external_body]
fn rfc3339_millis(secs: i64, nanos: u32) -> (r: Option<String>)
    requires
        0 <= secs,
        nanos < 1_000_000_000,
    ensures
        match r {
            Some(t) => rfc3339_millis_text(secs, nanos) == Some(t@),
            None => rfc3339_millis_text(secs, nanos) is None,
        },
        secs < 253_402_300_800 ==> r is Some,
        r matches Some(t) ==> (secs < 253_402_300_800 ==> rfc3339_instant(t@) == Some(
            (secs, (nanos / 1_000_000 * 1_000_000) as u32),
        )),
{
    chrono::DateTime::<chrono::Utc>::from_timestamp(secs, nanos)
        .map(|t| t.to_rfc3339_opts(chrono::SecondsFormat::Millis, true))
}

/// A reading of the clock as `epoch_elapsed` gives it: nothing, or whole seconds and
/// the nanoseconds past them.
pub open spec fn is_reading(now: Option<(u64, u32)>) -> bool {
    now matches Some((_, n)) ==> n < 1_000_000_000
}

/// The `createdAt` text of a clock reading: RFC 3339 with whole milliseconds, none
/// without a reading or for a second count beyond a signed 64-bit one.
pub open spec fn spec_stamp(now: Option<(u64, u32)>) -> Option<Seq<char>> {
    match now {
        Some((secs, nanos)) => if secs <= i64::MAX {
            rfc3339_millis_text(secs as i64, nanos)
        } else {
            None
        },
        None => None,
    }
}

/// The `createdAt` text of a clock reading (seconds and nanoseconds since the Unix
/// epoch). A reading up to the end of year 9999 always has one, which reads back as
/// its second and whole milliseconds.
pub fn stamp_at(now: Option<(u64, u32)>) -> (r: Option<String>)
    requires
        is_reading(now),
    ensures
        match r {
            Some(t) => spec_stamp(now) == Some(t@),
            None => spec_stamp(now) is None,
        },
        now matches Some((s, n)) ==> (s < 253_402_300_800 ==> (r matches Some(t) && rfc3339_instant(t@) == Some(
            (s as i64, (n / 1_000_000 * 1_000_000) as u32),
        ))),
{
    match now {
        Some((secs, nanos)) => {
            if secs <= i64::MAX as u64 {
                rfc3339_millis(secs as i64, nanos)
            } else {
                None
            }
        },
        None => None,
    }
}

/// The stamp of the current time: `stamp_at` of a reading of the clock, together with
/// that reading.
fn now_timestamp() -> (r: (Option<String>, Ghost<Option<(u64, u32)>>))
    ensures
        is_reading(r.1@),
        match r.0 {
            Some(t) => spec_stamp(r.1@) == Some(t@),
            None => spec_stamp(r.1@) is None,
        },
{
    let now = epoch_elapsed();
    (stamp_at(now), Ghost(now))
}

pub open spec fn is_text(j: Json, t: Seq<char>) -> bool {
    j.as_text() == Some(t)
}

/// An object with exactly these members, in this order, each value satisfying its test.
pub open spec fn keys_of(j: Json) -> Seq<Seq<char>> {
    match j {
        Json::Object(m) => m@.map_values(|e: (String, Json)| e.0@),
        _ => Seq::empty(),
    }
}

pub open spec fn value_at(j: Json, i: int) -> Json {
    match j {
        Json::Object(m) => m@[i].1,
        _ => Json::Null,
    }
}

/// `{"uri": .., "cid": ..}` of a record reference.
pub open spec fn is_ref(j: Json, r: PostRef) -> bool {
    &&& keys_of(j) == seq!["uri"@, "cid"@]
    &&& is_text(value_at(j, 0), r.uri@)
    &&& is_text(value_at(j, 1), r.cid@)
}

fn text(s: &str) -> (r: Json)
    ensures
        is_text(r, s@),
{
    Json::String(s.to_owned())
}

fn ref_json(r: &PostRef) -> (j: Json)
    ensures
        is_ref(j, *r),
{
    let j = Json::Object(vec![("uri".to_owned(), text(r.uri.as_str())), ("cid".to_owned(), text(r.cid.as_str()))]);
    assert(keys_of(j) =~= seq!["uri"@, "cid"@]);
    j
}

/// A like or repost record of `subject`, made at `created_at`.
pub open spec fn is_subject_record(j: Json, record_type: Seq<char>, subject: PostRef, created_at: Seq<char>) -> bool {
    &&& keys_of(j) == seq!["$type"@, "subject"@, "createdAt"@]
    &&& is_text(value_at(j, 0), record_type)
    &&& is_ref(value_at(j, 1), subject)
    &&& is_text(value_at(j, 2), created_at)
}

/// A follow record of the account `subject_did`, made at `created_at`.
pub open spec fn is_follow_record(j: Json, subject_did: Seq<char>, created_at: Seq<char>) -> bool {
    &&& keys_of(j) == seq!["$type"@, "subject"@, "createdAt"@]
    &&& is_text(value_at(j, 0), "app.bsky.graph.follow"@)
    &&& is_text(value_at(j, 1), subject_did)
    &&& is_text(value_at(j, 2), created_at)
}

fn subject_record_at(record_type: &str, subject: &PostRef, created_at: &str) -> (j: Json)
    ensures
        is_subject_record(j, record_type@, *subject, created_at@),
{
    let j = Json::Object(
        vec![
            ("$type".to_owned(), text(record_type)),
            ("subject".to_owned(), ref_json(subject)),
            ("createdAt".to_owned(), text(created_at)),
        ],
    );
    assert(keys_of(j) =~= seq!["$type"@, "subject"@, "createdAt"@]);
    j
}

/// An `app.bsky.feed.like` record of `subject` made at `created_at`.
pub fn like_record_at(subject: &PostRef, created_at: &str) -> (j: Json)
    ensures
        is_subject_record(j, "app.bsky.feed.like"@, *subject, created_at@),
{
    subject_record_at("app.bsky.feed.like", subject, created_at)
}

/// An `app.bsky.feed.repost` record of `subject` made at `created_at`.
pub fn repost_record_at(subject: &PostRef, created_at: &str) -> (j: Json)
    ensures
        is_subject_record(j, "app.bsky.feed.repost"@, *subject, created_at@),
{
    subject_record_at("app.bsky.feed.repost", subject, created_at)
}

/// An `app.bsky.graph.follow` record of the account `subject_did` made at `created_at`.
pub fn follow_record_at(subject_did: &str, created_at: &str) -> (j: Json)
    ensures
        is_follow_record(j, subject_did@, created_at@),
{
    let j = Json::Object(
        vec![
            ("$type".to_owned(), text("app.bsky.graph.follow")),
            ("subject".to_owned(), text(subject_did)),
            ("createdAt".to_owned(), text(created_at)),
        ],
    );
    assert(keys_of(j) =~= seq!["$type"@, "subject"@, "createdAt"@]);
    j
}

/// An `app.bsky.feed.like` record of `subject` stamped with the current time: the
/// record made at the stamp of a reading of the clock, or none when that reading has
/// no stamp.
pub fn like_record_json(subject: &PostRef) -> (r: Option<Json>)
    ensures
        exists|now: Option<(u64, u32)>| #[trigger] is_reading(now) && match spec_stamp(now) {
            None => r is None,
            Some(t) => r matches Some(j) && is_subject_record(j, "app.bsky.feed.like"@, *subject, t),
        },
{
    let (stamp, Ghost(now)) = now_timestamp();
    match stamp {
        Some(t) => {
            let j = like_record_at(subject, t.as_str());
            assert(is_reading(now));
            Some(j)
        },
        None => {
            assert(is_reading(now));
            None
        },
    }
}

/// An `app.bsky.feed.repost` record of `subject` stamped with the current time, as a
/// like is.
pub fn repost_record_json(subject: &PostRef) -> (r: Option<Json>)
    ensures
        exists|now: Option<(u64, u32)>| #[trigger] is_reading(now) && match spec_stamp(now) {
            None => r is None,
            Some(t) => r matches Some(j) && is_subject_record(j, "app.bsky.feed.repost"@, *subject, t),
        },
{
    let (stamp, Ghost(now)) = now_timestamp();
    match stamp {
        Some(t) => {
            let j = repost_record_at(subject, t.as_str());
            assert(is_reading(now));
            Some(j)
        },
        None => {
            assert(is_reading(now));
            None
        },
    }
}

/// An `app.bsky.graph.follow` record of the account `subject_did` stamped with the
/// current time, as a like is.
pub fn follow_record_json(subject_did: &str) -> (r: Option<Json>)
    ensures
        exists|now: Option<(u64, u32)>| #[trigger] is_reading(now) && match spec_stamp(now) {
            None => r is None,
            Some(t) => r matches Some(j) && is_follow_record(j, subject_did@, t),
        },
{
    let (stamp, Ghost(now)) = now_timestamp();
    match stamp {
        Some(t) => {
            let j = follow_record_at(subject_did, t.as_str());
            assert(is_reading(now));
            Some(j)
        },
        None => {
            assert(is_reading(now));
            None
        },
    }
}

/// `{"byteStart": start, "byteEnd": end}`.
pub open spec fn is_byte_range(j: Json, start: u64, end: u64) -> bool {
    &&& keys_of(j) == seq!["byteStart"@, "byteEnd"@]
    &&& value_at(j, 0) == Json::Number(Some(start))
    &&& value_at(j, 1) == Json::Number(Some(end))
}

fn byte_range(start: usize, end: usize) -> (j: Json)
    ensures
        is_byte_range(j, start as u64, end as u64),
{
    let j = Json::Object(
        vec![
            ("byteStart".to_owned(), Json::Number(Some(start as u64))),
            ("byteEnd".to_owned(), Json::Number(Some(end as u64))),
        ],
    );
    assert(keys_of(j) =~= seq!["byteStart"@, "byteEnd"@]);
    j
}

/// A rich-text facet over bytes `[start, end)` with one feature of type
/// `feature_type` whose `key` member is `value`.
pub open spec fn is_facet(j: Json, start: u64, end: u64, feature_type: Seq<char>, key: Seq<char>, value: Seq<char>) -> bool {
    &&& keys_of(j) == seq!["index"@, "features"@]
    &&& is_byte_range(value_at(j, 0), start, end)
    &&& value_at(j, 1) matches Json::Array(features) && features@.len() == 1 && {
        let f = features@[0];
        &&& keys_of(f) == seq!["$type"@, key]
        &&& is_text(value_at(f, 0), feature_type)
        &&& is_text(value_at(f, 1), value)
    }
}

fn facet(start: usize, end: usize, feature_type: &str, key: &str, value: &str) -> (j: Json)
    ensures
        is_facet(j, start as u64, end as u64, feature_type@, key@, value@),
{
    let feature = Json::Object(vec![("$type".to_owned(), text(feature_type)), (key.to_owned(), text(value))]);
    assert(keys_of(feature) =~= seq!["$type"@, key@]);
    let j = Json::Object(vec![("index".to_owned(), byte_range(start, end)), ("features".to_owned(), Json::Array(vec![feature]))]);
    assert(keys_of(j) =~= seq!["index"@, "features"@]);
    j
}

/// A link facet for every URL written in `text`, at its byte offsets.
pub fn link_facets(text: &str) -> (r: Vec<Json>)
    ensures
        r@.len() == url_links(text@).len(),
        forall|i: int|
            0 <= i < r@.len() ==> is_facet(
                #[trigger] r@[i],
                url_links(text@)[i].0 as u64,
                url_links(text@)[i].1 as u64,
                "app.bsky.richtext.facet#link"@,
                "uri"@,
                url_links(text@)[i].2,
            ),
{
    let found = find_urls(text);
    let mut facets: Vec<Json> = Vec::new();
    let mut i: usize = 0;
    while i < found.len()
        invariant
            i <= found@.len(),
            found@.len() == url_links(text@).len(),
            forall|k: int|
                0 <= k < found@.len() ==> found@[k].0 == url_links(text@)[k].0 && found@[k].1 == url_links(text@)[k].1
                    && found@[k].2@ == url_links(text@)[k].2,
            facets@.len() == i,
            forall|k: int|
                0 <= k < i ==> is_facet(
                    #[trigger] facets@[k],
                    url_links(text@)[k].0 as u64,
                    url_links(text@)[k].1 as u64,
                    "app.bsky.richtext.facet#link"@,
                    "uri"@,
                    url_links(text@)[k].2,
                ),
        decreases found@.len() - i,
    {
        let f = facet(found[i].0, found[i].1, "app.bsky.richtext.facet#link", "uri", found[i].2.as_str());
        facets.push(f);
        i += 1;
    }
    facets
}

/// A mention facet over the candidate's bytes for the account `did`.
pub fn mention_facet(mention: &MentionCandidate, did: &str) -> (j: Json)
    ensures
        is_facet(j, mention.byte_start as u64, mention.byte_end as u64, "app.bsky.richtext.facet#mention"@, "did"@, did@),
{
    facet(mention.byte_start, mention.byte_end, "app.bsky.richtext.facet#mention", "did", did)
}

/// An `app.bsky.feed.post` record made at `created_at`: the text, its facets when
/// there are any, the reply's root and parent, and the quoted post as a record embed.
pub open spec fn is_post_record(
    j: Json,
    text_value: Seq<char>,
    reply: Option<(PostRef, PostRef)>,
    quote: Option<PostRef>,
    facets: Seq<Json>,
    created_at: Seq<char>,
) -> bool {
            let base = seq!["$type"@, "text"@, "createdAt"@];
            let with_facets = if facets.len() > 0 { base.push("facets"@) } else { base };
            let with_reply = if reply is Some { with_facets.push("reply"@) } else { with_facets };
            let all = if quote is Some { with_reply.push("embed"@) } else { with_reply };
            &&& keys_of(j) == all
            &&& is_text(value_at(j, 0), "app.bsky.feed.post"@)
            &&& is_text(value_at(j, 1), text_value)
            &&& is_text(value_at(j, 2), created_at)
            &&& facets.len() > 0 ==> (value_at(j, 3) matches Json::Array(v) && v@ == facets)
            &&& reply matches Some((root, parent)) ==> {
                let r = value_at(j, with_facets.len() as int);
                &&& keys_of(r) == seq!["root"@, "parent"@]
                &&& is_ref(value_at(r, 0), root)
                &&& is_ref(value_at(r, 1), parent)
            }
            &&& quote matches Some(q) ==> {
                let e = value_at(j, with_reply.len() as int);
                &&& keys_of(e) == seq!["$type"@, "record"@]
                &&& is_text(value_at(e, 0), "app.bsky.embed.record"@)
                &&& is_ref(value_at(e, 1), q)
            }
        }

/// An `app.bsky.feed.post` record made at `created_at`.
pub fn post_record_at(
    text_value: &str,
    reply: Option<(PostRef, PostRef)>,
    quote: Option<PostRef>,
    facets: Vec<Json>,
    created_at: &str,
) -> (j: Json)
    ensures
        is_post_record(j, text_value@, reply, quote, facets@, created_at@),
{
    let mut members: Vec<(String, Json)> = vec![
        ("$type".to_owned(), text("app.bsky.feed.post")),
        ("text".to_owned(), text(text_value)),
        ("createdAt".to_owned(), text(created_at)),
    ];
    let ghost base = seq!["$type"@, "text"@, "createdAt"@];
    assert(members@.map_values(|e: (String, Json)| e.0@) =~= base);
    let has_facets = facets.len() > 0;
    if has_facets {
        members.push(("facets".to_owned(), Json::Array(facets)));
    }
    let ghost with_facets = if facets@.len() > 0 { base.push("facets"@) } else { base };
    assert(members@.map_values(|e: (String, Json)| e.0@) =~= with_facets);
    let ghost n_facets = members@.len();
    if let Some((root, parent)) = reply {
        let r = Json::Object(vec![("root".to_owned(), ref_json(&root)), ("parent".to_owned(), ref_json(&parent))]);
        assert(keys_of(r) =~= seq!["root"@, "parent"@]);
        members.push(("reply".to_owned(), r));
    }
    let ghost with_reply = if reply is Some { with_facets.push("reply"@) } else { with_facets };
    assert(members@.map_values(|e: (String, Json)| e.0@) =~= with_reply);
    if let Some(q) = quote {
        let e = Json::Object(vec![("$type".to_owned(), text("app.bsky.embed.record")), ("record".to_owned(), ref_json(&q))]);
        assert(keys_of(e) =~= seq!["$type"@, "record"@]);
        members.push(("embed".to_owned(), e));
    }
    let ghost all = if quote is Some { with_reply.push("embed"@) } else { with_reply };
    assert(members@.map_values(|e: (String, Json)| e.0@) =~= all);
    Json::Object(members)
}

/// An `app.bsky.feed.post` record stamped with the current time, as a like is.
pub fn post_record_json(text_value: &str, reply: Option<(PostRef, PostRef)>, quote: Option<PostRef>, facets: Vec<Json>) -> (r: Option<Json>)
    ensures
        exists|now: Option<(u64, u32)>| #[trigger] is_reading(now) && match spec_stamp(now) {
            None => r is None,
            Some(t) => r matches Some(j) && is_post_record(j, text_value@, reply, quote, facets@, t),
        },
{
    let (stamp, Ghost(now)) = now_timestamp();
    match stamp {
        Some(t) => {
            let j = post_record_at(text_value, reply, quote, facets, t.as_str());
            assert(is_reading(now));
            Some(j)
        },
        None => {
            assert(is_reading(now));
            None
        },
    }
}

} // verus!
