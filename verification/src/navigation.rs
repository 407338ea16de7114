//! Views (a scrollable list of rows with a selection) and the stack of views
//! the user has opened.
use vstd::prelude::*;

use crate::model::{
    post_rows, rows_from_posts, FeedItem, NotificationItem, ProfileSummary, ViewItem,
};
use crate::row_text::SpanStyle;
use crate::text::{
    chars_of, contains_chars, contains_seq, is_blank, lowercase, push_str, str_is_blank,
    strings_equal, to_lowercase,
};

verus! {

#[derive(Debug, Clone, PartialEq, Eq)]
pub enum ViewKind {
    Timeline,
    Thread { root_uri: String },
    Quote { uri: String },
    Profile { actor: String },
    Notifications,
}

/// Rendered lines of every row, kept for one terminal width.
#[derive(Debug, Clone, Default)]
pub struct LayoutCache {
    pub width: Option<usize>,
    pub items: Vec<CachedItemLines>,
    pub builds: usize,
}

/// The lines of one row, drawn selected and not, each line a list of styled spans.
#[derive(Debug, Clone)]
pub struct CachedItemLines {
    pub selected: Vec<Vec<(String, SpanStyle)>>,
    pub unselected: Vec<Vec<(String, SpanStyle)>>,
}

impl LayoutCache {
    pub fn empty() -> (r: LayoutCache)
        ensures
            r.width is None,
            r.items@.len() == 0,
            r.builds == 0,
    {
        LayoutCache { width: None, items: Vec::new(), builds: 0 }
    }

    pub open spec fn is_cleared(&self) -> bool {
        self.width is None && self.items@.len() == 0
    }

    /// Drops the cached lines; the build counter is kept.
    pub fn clear(&mut self)
        ensures
            final(self).is_cleared(),
            final(self).builds == old(self).builds,
    {
        self.width = None;
        self.items.clear();
    }
}

#[derive(Debug, Clone)]
pub struct ViewState {
    pub title: String,
    pub kind: ViewKind,
    pub items: Vec<ViewItem>,
    pub profile: Option<ProfileSummary>,
    pub selected: usize,
    /// Zero-based rendered line at the top of the view buffer.
    pub scroll: usize,
    pub cursor: Option<String>,
    pub loading: bool,
    pub error: Option<String>,
    pub search_query: Option<String>,
    pub layout_cache: LayoutCache,
}

/// `rows[k]` is the first row whose URI is `uri`.
pub open spec fn is_first_uri(rows: Seq<ViewItem>, uri: Seq<char>, k: int) -> bool {
    &&& 0 <= k < rows.len()
    &&& rows[k].spec_uri() == uri
    &&& forall|j: int| 0 <= j < k ==> (#[trigger] rows[j]).spec_uri() != uri
}

/// Some row has URI `uri`.
pub open spec fn has_uri(rows: Seq<ViewItem>, uri: Seq<char>) -> bool {
    exists|k: int| 0 <= k < rows.len() && (#[trigger] rows[k]).spec_uri() == uri
}

/// A row matches a search when its searchable text, lowercased, contains `query`
/// (a query that was lowercased already).
pub open spec fn item_matches_spec(item: ViewItem, query: Seq<char>) -> bool {
    contains_seq(lowercase(item.spec_searchable_text()), query)
}

/// `k` is the first row in `[from, to)` that matches `query`.
pub open spec fn first_match_in(rows: Seq<ViewItem>, query: Seq<char>, from: int, to: int, k: int) -> bool {
    &&& from <= k < to
    &&& item_matches_spec(rows[k], query)
    &&& forall|j: int| from <= j < k ==> !item_matches_spec(#[trigger] rows[j], query)
}

pub open spec fn some_match_in(rows: Seq<ViewItem>, query: Seq<char>, from: int, to: int) -> bool {
    exists|k: int| from <= k < to && item_matches_spec(#[trigger] rows[k], query)
}

/// Clamps `value` into `[0, last]`.
pub open spec fn clamp(value: int, last: int) -> int {
    if value < 0 {
        0
    } else if value > last {
        last
    } else {
        value
    }
}

/// The first row whose URI equals `uri`.
pub fn position_of_uri(rows: &Vec<ViewItem>, uri: &str) -> (r: Option<usize>)
    ensures
        match r {
            Some(k) => is_first_uri(rows@, uri@, k as int),
            None => !has_uri(rows@, uri@),
        },
{
    let mut i: usize = 0;
    while i < rows.len()
        invariant
            i <= rows.len(),
            forall|j: int| 0 <= j < i ==> (#[trigger] rows@[j]).spec_uri() != uri@,
        decreases rows.len() - i,
    {
        if strings_equal(rows[i].uri(), uri) {
            return Some(i);
        }
        i += 1;
    }
    None
}

fn item_matches(item: &ViewItem, query: &Vec<char>) -> (r: bool)
    ensures
        r == item_matches_spec(*item, query@),
{
    let text = item.searchable_text();
    let lowered = to_lowercase(text.as_str());
    let chars = chars_of(lowered.as_str());
    contains_chars(&chars, query)
}

/// One row down, staying on the last row.
pub open spec fn moved_down(before: ViewState, after: ViewState) -> bool {
    &&& after == (ViewState { selected: after.selected, ..before })
    &&& after.selected == (if before.items@.len() == 0 {
        before.selected as int
    } else {
        clamp(before.selected + 1, before.items@.len() - 1)
    })
}

/// One row up, staying on the first row, which shows the top of the view.
pub open spec fn moved_up(before: ViewState, after: ViewState) -> bool {
    &&& after == (ViewState { selected: after.selected, scroll: after.scroll, ..before })
    &&& after.selected == (if before.selected == 0 { 0 } else { before.selected - 1 })
    &&& after.scroll == (if after.selected == 0 { 0 } else { before.scroll })
}

/// `delta` rows on, clamped to the rows that exist; nothing changes in an empty view.
pub open spec fn moved_by(before: ViewState, after: ViewState, delta: int) -> bool {
    &&& before.items@.len() == 0 ==> after == before
    &&& before.items@.len() > 0 ==> {
        &&& after == (ViewState { selected: after.selected, scroll: after.scroll, ..before })
        &&& after.selected == clamp(before.selected + delta, before.items@.len() - 1)
        &&& after.scroll == (if after.selected == 0 { 0 } else { before.scroll })
    }
}

impl ViewState {
    pub open spec fn fresh(&self, title: Seq<char>, kind: ViewKind, rows: Seq<ViewItem>) -> bool {
        &&& self.title@ == title
        &&& self.kind == kind
        &&& self.items@ == rows
        &&& self.profile is None
        &&& self.selected == 0
        &&& self.scroll == 0
        &&& self.cursor is None
        &&& !self.loading
        &&& self.error is None
        &&& self.search_query is None
        &&& self.layout_cache.is_cleared()
        &&& self.layout_cache.builds == 0
    }

    /// A view of posts, with the first row selected.
    pub fn new(title: &str, kind: ViewKind, items: Vec<FeedItem>) -> (r: ViewState)
        ensures
            r.fresh(title@, kind, post_rows(items@)),
    {
        ViewState::from_rows(title, kind, rows_from_posts(items))
    }

    /// A view of arbitrary rows, with the first row selected.
    pub fn from_rows(title: &str, kind: ViewKind, items: Vec<ViewItem>) -> (r: ViewState)
        ensures
            r.fresh(title@, kind, items@),
    {
        ViewState {
            title: title.to_owned(),
            kind,
            items,
            profile: None,
            selected: 0,
            scroll: 0,
            cursor: None,
            loading: false,
            error: None,
            search_query: None,
            layout_cache: LayoutCache::empty(),
        }
    }

    /// The selected row when it is a post.
    pub fn selected_item(&self) -> (r: Option<&FeedItem>)
        ensures
            r matches Some(item) ==> self.selected < self.items@.len() && self.items@[self.selected as int] == ViewItem::Post(Box::new(*item)),
            r is None ==> self.selected >= self.items@.len() || self.items@[self.selected as int] is Notification,
    {
        if self.selected < self.items.len() {
            self.items[self.selected].as_post()
        } else {
            None
        }
    }

    /// The selected row when it is a notification.
    pub fn selected_notification(&self) -> (r: Option<&NotificationItem>)
        ensures
            r matches Some(item) ==> self.selected < self.items@.len() && self.items@[self.selected as int] == ViewItem::Notification(Box::new(*item)),
            r is None ==> self.selected >= self.items@.len() || self.items@[self.selected as int] is Post,
    {
        if self.selected < self.items.len() {
            self.items[self.selected].as_notification()
        } else {
            None
        }
    }

    pub fn set_profile(&mut self, profile: ProfileSummary)
        ensures
            *final(self) == (ViewState { profile: Some(profile), ..*old(self) }),
    {
        self.profile = Some(profile);
    }

    /// Moves every post of `posts` to the end of the view.
    pub fn append_posts(&mut self, posts: &mut Vec<FeedItem>)
        ensures
            final(self).items@ == old(self).items@ + post_rows(old(posts)@),
            final(posts)@.len() == 0,
            final(self).layout_cache.is_cleared(),
            final(self).selected == old(self).selected,
            final(self).scroll == old(self).scroll,
            *final(self) == (ViewState { items: final(self).items, layout_cache: final(self).layout_cache, ..*old(self) }),
    {
        let mut taken: Vec<FeedItem> = Vec::new();
        std::mem::swap(&mut taken, posts);
        let mut rows = rows_from_posts(taken);
        self.items.append(&mut rows);
        self.layout_cache.clear();
    }

    pub fn append_rows(&mut self, rows: Vec<ViewItem>)
        ensures
            final(self).items@ == old(self).items@ + rows@,
            final(self).layout_cache.is_cleared(),
            final(self).selected == old(self).selected,
            final(self).scroll == old(self).scroll,
            *final(self) == (ViewState { items: final(self).items, layout_cache: final(self).layout_cache, ..*old(self) }),
    {
        let mut rows = rows;
        self.items.append(&mut rows);
        self.layout_cache.clear();
    }

    /// Puts `posts` in front of the current rows.
    pub fn prepend_posts(&mut self, posts: Vec<FeedItem>)
        ensures
            final(self).items@ == post_rows(posts@) + old(self).items@,
            final(self).layout_cache.is_cleared(),
            final(self).selected == old(self).selected,
            final(self).scroll == old(self).scroll,
            *final(self) == (ViewState { items: final(self).items, layout_cache: final(self).layout_cache, ..*old(self) }),
    {
        let mut rows = rows_from_posts(posts);
        let mut old_items: Vec<ViewItem> = Vec::new();
        std::mem::swap(&mut old_items, &mut self.items);
        rows.append(&mut old_items);
        self.items = rows;
        self.layout_cache.clear();
    }

    /// Selects the first row with URI `uri`; reports whether there is one.
    pub fn select_uri(&mut self, uri: &str) -> (r: bool)
        ensures
            r == has_uri(old(self).items@, uri@),
            *final(self) == (ViewState { selected: final(self).selected, scroll: final(self).scroll, ..*old(self) }),
            final(self).items == old(self).items,
            r ==> is_first_uri(old(self).items@, uri@, final(self).selected as int),
            !r ==> final(self).selected == old(self).selected,
            final(self).scroll == (if r && final(self).selected == 0 { 0 } else { old(self).scroll }),
            final(self).layout_cache == old(self).layout_cache,
            final(self).search_query == old(self).search_query,
    {
        match position_of_uri(&self.items, uri) {
            None => false,
            Some(index) => {
                self.selected = index;
                if self.selected == 0 {
                    self.scroll = 0;
                }
                true
            },
        }
    }

    /// Replaces the rows with `items`, keeping the selection on `preferred_uri`, else on
    /// `fallback_uri`, else on the first row.
    pub fn replace_items_preserving_uri(
        &mut self,
        items: Vec<FeedItem>,
        preferred_uri: Option<&str>,
        fallback_uri: Option<&str>,
    )
        ensures
            *final(self) == (ViewState {
                items: final(self).items,
                layout_cache: final(self).layout_cache,
                selected: final(self).selected,
                scroll: final(self).scroll,
                ..*old(self)
            }),
            final(self).items@ == post_rows(items@),
            final(self).layout_cache.is_cleared(),
            final(self).scroll == 0,
            ({
                let rows = post_rows(items@);
                let pref = preferred_uri matches Some(p) && has_uri(rows, p@);
                let fall = fallback_uri matches Some(f) && has_uri(rows, f@);
                &&& pref ==> is_first_uri(rows, preferred_uri.unwrap()@, final(self).selected as int)
                &&& !pref && fall ==> is_first_uri(rows, fallback_uri.unwrap()@, final(self).selected as int)
                &&& !pref && !fall ==> final(self).selected == 0
            }),
    {
        self.items = rows_from_posts(items);
        self.layout_cache.clear();
        let mut selected: usize = 0;
        let mut found = false;
        if let Some(uri) = preferred_uri {
            if let Some(index) = position_of_uri(&self.items, uri) {
                selected = index;
                found = true;
            }
        }
        if !found {
            if let Some(uri) = fallback_uri {
                if let Some(index) = position_of_uri(&self.items, uri) {
                    selected = index;
                }
            }
        }
        let last = if self.items.len() > 0 {
            self.items.len() - 1
        } else {
            0
        };
        self.selected = if selected < last {
            selected
        } else {
            last
        };
        self.scroll = 0;
    }

    pub fn move_down(&mut self)
        ensures
            moved_down(*old(self), *final(self)),
    {
        if self.items.len() == 0 {
            return;
        }
        let last = self.items.len() - 1;
        self.selected = if self.selected < last {
            self.selected + 1
        } else {
            last
        };
    }

    pub fn move_up(&mut self)
        ensures
            moved_up(*old(self), *final(self)),
    {
        if self.selected > 0 {
            self.selected = self.selected - 1;
        }
        if self.selected == 0 {
            self.scroll = 0;
        }
    }

    /// Moves the selection by `delta` rows, clamped to the rows that exist.
    pub fn move_by(&mut self, delta: isize)
        ensures
            moved_by(*old(self), *final(self), delta as int),
    {
        if self.items.len() == 0 {
            return;
        }
        let last = self.items.len() - 1;
        let target: i128 = self.selected as i128 + delta as i128;
        self.selected = if target < 0 {
            0
        } else if target > last as i128 {
            last
        } else {
            target as usize
        };
        if self.selected == 0 {
            self.scroll = 0;
        }
    }

    pub fn jump_top(&mut self)
        ensures
            *final(self) == (ViewState { selected: 0, scroll: 0, ..*old(self) }),
    {
        self.selected = 0;
        self.scroll = 0;
    }

    pub fn jump_bottom(&mut self)
        ensures
            old(self).items@.len() == 0 ==> *final(self) == *old(self),
            old(self).items@.len() > 0 ==> *final(self) == (ViewState {
                selected: (old(self).items@.len() - 1) as usize,
                ..*old(self)
            }),
    {
        if self.items.len() == 0 {
            return;
        }
        self.selected = self.items.len() - 1;
    }

    /// Moves to the next row after the selection whose text contains `query`
    /// (ignoring case), wrapping around to the top; reports whether one matched.
    pub fn search_next(&mut self, query: &str) -> (r: bool)
        ensures
            final(self).items == old(self).items,
            final(self).layout_cache == old(self).layout_cache,
            is_blank(query@) || old(self).items@.len() == 0 ==> !r && *final(self) == *old(self),
            !(is_blank(query@) || old(self).items@.len() == 0) ==> ({
                let rows = old(self).items@;
                let q = lowercase(query@);
                let sel = old(self).selected as int;
                let len = rows.len() as int;
                let wrap_end = if sel < len - 1 { sel } else { len - 1 };
                &&& final(self).search_query matches Some(s) && s@ == query@
                &&& r == some_match_in(rows, q, 0, len)
                &&& some_match_in(rows, q, sel + 1, len) ==> first_match_in(rows, q, sel + 1, len, final(self).selected as int)
                &&& !some_match_in(rows, q, sel + 1, len) && r ==> first_match_in(rows, q, 0, wrap_end + 1, final(self).selected as int)
                &&& !r ==> final(self).selected == old(self).selected && final(self).scroll == old(self).scroll
                &&& r ==> final(self).scroll == (if final(self).selected == 0 { 0 } else { old(self).scroll })
            }),
    {
        if str_is_blank(query) || self.items.len() == 0 {
            return false;
        }
        self.search_query = Some(query.to_owned());
        let lowered = to_lowercase(query);
        let q = chars_of(lowered.as_str());
        let len = self.items.len();
        let start = if self.selected < len {
            self.selected + 1
        } else {
            len
        };
        let mut index = start;
        while index < len
            invariant
                len == self.items@.len(),
                self.items == old(self).items,
                self.layout_cache == old(self).layout_cache,
                self.selected == old(self).selected,
                self.scroll == old(self).scroll,
                self.search_query matches Some(s) && s@ == query@,
                !is_blank(query@),
                start <= index <= len,
                start == (if self.selected < len { self.selected + 1 } else { len as int }),
                q@ == lowercase(query@),
                forall|j: int| start <= j < index ==> !item_matches_spec(#[trigger] self.items@[j], q@),
            decreases len - index,
        {
            if item_matches(&self.items[index], &q) {
                self.selected = index;
                if self.selected == 0 {
                    self.scroll = 0;
                }
                return true;
            }
            index += 1;
        }
        let end = if self.selected < len - 1 {
            self.selected
        } else {
            len - 1
        };
        let mut index: usize = 0;
        while index <= end
            invariant
                len == self.items@.len(),
                self.items == old(self).items,
                self.layout_cache == old(self).layout_cache,
                self.selected == old(self).selected,
                self.scroll == old(self).scroll,
                self.search_query matches Some(s) && s@ == query@,
                !is_blank(query@),
                end < len,
                end == (if self.selected < len - 1 { self.selected as int } else { len - 1 }),
                start == (if self.selected < len { self.selected + 1 } else { len as int }),
                forall|j: int| start <= j < len ==> !item_matches_spec(#[trigger] self.items@[j], q@),
                index <= end + 1,
                q@ == lowercase(query@),
                forall|j: int| 0 <= j < index ==> !item_matches_spec(#[trigger] self.items@[j], q@),
            decreases end + 1 - index,
        {
            if item_matches(&self.items[index], &q) {
                self.selected = index;
                if self.selected == 0 {
                    self.scroll = 0;
                }
                return true;
            }
            index += 1;
        }
        proof {
            assert forall|k: int| 0 <= k < len implies !item_matches_spec(#[trigger] self.items@[k], q@) by {
                if k > end {
                    assert(start <= k);
                }
            }
        }
        false
    }
}

/// The stack of open views; the bottom one (the feed) is never popped.
#[derive(Debug, Clone)]
pub struct NavigationStack {
    views: Vec<ViewState>,
}

/// Titles joined with `sep`.
pub open spec fn join_titles(views: Seq<ViewState>, sep: Seq<char>) -> Seq<char>
    decreases views.len(),
{
    if views.len() == 0 {
        Seq::empty()
    } else if views.len() == 1 {
        views[0].title@
    } else {
        join_titles(views.drop_last(), sep) + sep + views.last().title@
    }
}

impl NavigationStack {
    /// The views, bottom first.
    pub closed spec fn stack(&self) -> Seq<ViewState> {
        self.views@
    }

    /// There is always a bottom view.
    pub open spec fn wf(&self) -> bool {
        self.stack().len() >= 1
    }

    pub fn new(root: ViewState) -> (r: NavigationStack)
        ensures
            r.stack() == seq![root],
            r.wf(),
    {
        let mut views = Vec::new();
        views.push(root);
        proof {
            assert(views@ =~= seq![root]);
        }
        NavigationStack { views }
    }

    /// The view on top.
    pub fn current(&self) -> (r: &ViewState)
        requires
            self.wf(),
        ensures
            *r == self.stack().last(),
    {
        let last = self.views.len() - 1;
        &self.views[last]
    }

    /// The view on top, for changing it in place.
    pub fn current_mut(&mut self) -> (r: &mut ViewState)
        requires
            old(self).wf(),
        ensures
            *r == old(self).stack().last(),
            final(self).stack() == old(self).stack().update(old(self).stack().len() - 1, *final(r)),
            final(self).wf(),
    {
        let last = self.views.len() - 1;
        &mut self.views[last]
    }

    pub fn push(&mut self, view: ViewState)
        ensures
            final(self).stack() == old(self).stack().push(view),
            final(self).wf(),
    {
        self.views.push(view);
    }

    /// Swaps out the bottom view (the timeline) without touching anything the
    /// user has pushed on top of it.
    pub fn replace_root(&mut self, view: ViewState)
        requires
            old(self).wf(),
        ensures
            final(self).stack() == old(self).stack().update(0, view),
            final(self).wf(),
    {
        self.views.set(0, view);
    }

    /// The bottom view, for changing it in place.
    pub fn root_mut(&mut self) -> (r: &mut ViewState)
        requires
            old(self).wf(),
        ensures
            *r == old(self).stack()[0],
            final(self).stack() == old(self).stack().update(0, *final(r)),
            final(self).wf(),
    {
        &mut self.views[0]
    }

    /// Closes the top view unless it is the bottom one; reports whether it did.
    pub fn pop(&mut self) -> (r: bool)
        requires
            old(self).wf(),
        ensures
            r == (old(self).stack().len() > 1),
            r ==> final(self).stack() == old(self).stack().drop_last(),
            !r ==> final(self).stack() == old(self).stack(),
            final(self).wf(),
    {
        if self.views.len() <= 1 {
            return false;
        }
        self.views.pop();
        true
    }

    pub fn depth(&self) -> (r: usize)
        ensures
            r == self.stack().len(),
    {
        self.views.len()
    }

    /// The titles of the open views, bottom first, separated by " / ".
    pub fn breadcrumb(&self) -> (r: String)
        ensures
            r@ == join_titles(self.stack(), " / "@),
    {
        let mut out = String::new();
        let mut i: usize = 0;
        while i < self.views.len()
            invariant
                i <= self.views@.len(),
                out@ == join_titles(self.views@.take(i as int), " / "@),
            decreases self.views@.len() - i,
        {
            proof {
                assert(self.views@.take(i + 1).drop_last() =~= self.views@.take(i as int));
            }
            if i > 0 {
                push_str(&mut out, " / ");
            }
            push_str(&mut out, self.views[i].title.as_str());
            proof {
                if i == 0 {
                    assert(out@ =~= join_titles(self.views@.take(1), " / "@));
                }
            }
            i += 1;
        }
        assert(self.views@.take(self.views@.len() as int) =~= self.views@);
        out
    }
}

/// A row after `f` ran over its post: posts are replaced by what `f` returns for them;
/// notifications stay.
pub open spec fn row_mapped<F: Fn(FeedItem) -> FeedItem>(before: ViewItem, after: ViewItem, f: F) -> bool {
    match before {
        ViewItem::Post(p) => after matches ViewItem::Post(q) && call_ensures(f, (*p,), *q),
        ViewItem::Notification(_) => after == before,
    }
}

/// A view after `f` ran over its posts: the rows are mapped one for one, the layout
/// cache is dropped, and nothing else changes.
pub open spec fn view_mapped<F: Fn(FeedItem) -> FeedItem>(before: ViewState, after: ViewState, f: F) -> bool {
    &&& after == (ViewState { items: after.items, layout_cache: after.layout_cache, ..before })
    &&& after.layout_cache.is_cleared()
    &&& after.layout_cache.builds == before.layout_cache.builds
    &&& after.items@.len() == before.items@.len()
    &&& forall|k: int| 0 <= k < before.items@.len() ==> row_mapped(#[trigger] before.items@[k], after.items@[k], f)
}

fn map_rows<F: Fn(FeedItem) -> FeedItem>(view: &mut ViewState, f: &F)
    requires
        forall|item: FeedItem| call_requires(*f, (item,)),
    ensures
        view_mapped(*old(view), *final(view), *f),
{
    let mut rows: Vec<ViewItem> = Vec::new();
    std::mem::swap(&mut rows, &mut view.items);
    let ghost all = rows@;
    let mut mapped: Vec<ViewItem> = Vec::new();
    for row in it: rows
        invariant
            it.seq() == all,
            all == old(view).items@,
            forall|item: FeedItem| call_requires(*f, (item,)),
            mapped@.len() == it.index(),
            forall|k: int| 0 <= k < it.index() ==> row_mapped(#[trigger] all[k], mapped@[k], *f),
    {
        let ghost k = it.index() as int;
        let next = match row {
            ViewItem::Post(p) => ViewItem::Post(Box::new(f(*p))),
            ViewItem::Notification(n) => ViewItem::Notification(n),
        };
        mapped.push(next);
        proof {
            assert(all[k] == row);
            assert(mapped@[k] == next);
        }
    }
    view.items = mapped;
    view.layout_cache.clear();
}

impl NavigationStack {
    /// Runs `f` over every post of every open view.
    pub fn for_each_item_mut<F: Fn(FeedItem) -> FeedItem>(&mut self, f: F)
        requires
            old(self).wf(),
            forall|item: FeedItem| call_requires(f, (item,)),
        ensures
            final(self).wf(),
            final(self).stack().len() == old(self).stack().len(),
            forall|i: int| 0 <= i < old(self).stack().len() ==> view_mapped(#[trigger] old(self).stack()[i], final(self).stack()[i], f),
    {
        let mut i: usize = 0;
        while i < self.views.len()
            invariant
                old(self).views@.len() == self.views@.len(),
                i <= self.views@.len(),
                forall|item: FeedItem| call_requires(f, (item,)),
                forall|j: int| 0 <= j < i ==> view_mapped(#[trigger] old(self).views@[j], self.views@[j], f),
                forall|j: int| i <= j < self.views@.len() ==> self.views@[j] == old(self).views@[j],
            decreases self.views@.len() - i,
        {
            let mut view = self.views.remove(i);
            map_rows(&mut view, &f);
            self.views.insert(i, view);
            i += 1;
        }
    }
}


/// The rows of `rows` whose flag is set, in order.
pub open spec fn filter_by(rows: Seq<ViewItem>, flags: Seq<bool>) -> Seq<ViewItem>
    decreases rows.len(),
{
    if rows.len() == 0 {
        Seq::empty()
    } else {
        let kept = filter_by(rows.drop_last(), flags.drop_last());
        if flags.last() {
            kept.push(rows.last())
        } else {
            kept
        }
    }
}

/// `flags` are answers `keep` may give for the rows, one for each.
pub open spec fn answers<F: Fn(&ViewItem) -> bool>(keep: F, rows: Seq<ViewItem>, flags: Seq<bool>) -> bool {
    &&& flags.len() == rows.len()
    &&& forall|k: int| 0 <= k < rows.len() ==> call_ensures(keep, (&rows[k],), #[trigger] flags[k])
}

/// A view after its rows were filtered by `flags`: when a row went, the selection is
/// clamped to the rows left, the view scrolls back to the top and the layout cache is
/// dropped; otherwise nothing changes.
pub open spec fn view_filtered(before: ViewState, after: ViewState, flags: Seq<bool>) -> bool {
    let rows = filter_by(before.items@, flags);
    &&& after.items@ == rows
    &&& if rows.len() == before.items@.len() {
        after == (ViewState { items: after.items, ..before })
    } else {
        &&& after == (ViewState {
            items: after.items,
            layout_cache: after.layout_cache,
            selected: after.selected,
            scroll: 0,
            ..before
        })
        &&& after.layout_cache.is_cleared()
        &&& after.layout_cache.builds == before.layout_cache.builds
        &&& after.selected == if before.selected < rows.len() {
            before.selected as int
        } else if rows.len() > 0 {
            rows.len() - 1
        } else {
            0
        }
    }
}

pub open spec fn view_retained<F: Fn(&ViewItem) -> bool>(before: ViewState, after: ViewState, keep: F) -> bool {
    exists|flags: Seq<bool>| #[trigger] answers(keep, before.items@, flags) && view_filtered(before, after, flags)
}

fn retain_rows<F: Fn(&ViewItem) -> bool>(view: &mut ViewState, keep: &F)
    requires
        forall|row: &ViewItem| call_requires(*keep, (row,)),
    ensures
        view_retained(*old(view), *final(view), *keep),
{
    let mut rows: Vec<ViewItem> = Vec::new();
    std::mem::swap(&mut rows, &mut view.items);
    let before = rows.len();
    let ghost all = rows@;
    let ghost mut flags: Seq<bool> = Seq::empty();
    let mut kept: Vec<ViewItem> = Vec::new();
    for row in it: rows
        invariant
            it.seq() == all,
            all == old(view).items@,
            forall|row: &ViewItem| call_requires(*keep, (row,)),
            flags.len() == it.index(),
            forall|k: int| 0 <= k < it.index() ==> call_ensures(*keep, (&all[k],), #[trigger] flags[k]),
            kept@ == filter_by(all.take(it.index() as int), flags),
    {
        let ghost k = it.index() as int;
        let b = keep(&row);
        proof {
            assert(all[k] == row);
            let next = all.take(k + 1);
            assert(next.drop_last() =~= all.take(k));
            assert(flags.push(b).drop_last() =~= flags);
            flags = flags.push(b);
        }
        if b {
            kept.push(row);
        }
    }
    proof {
        assert(all.take(all.len() as int) =~= all);
    }
    view.items = kept;
    if view.items.len() != before {
        view.layout_cache.clear();
        let last = if view.items.len() > 0 { view.items.len() - 1 } else { 0 };
        if view.selected > last {
            view.selected = last;
        }
        view.scroll = 0;
    }
    assert(answers(*keep, old(view).items@, flags));
}

/// A notification row mapped by `f`; posts stay as they are.
pub open spec fn notification_mapped<F: Fn(NotificationItem) -> NotificationItem>(before: ViewItem, after: ViewItem, f: F) -> bool {
    match before {
        ViewItem::Notification(n) => after matches ViewItem::Notification(m) && call_ensures(f, (*n,), *m),
        ViewItem::Post(_) => after == before,
    }
}

/// A view after `f` ran over its notifications: the rows are mapped one for one and
/// nothing else changes.
pub open spec fn view_notifications_mapped<F: Fn(NotificationItem) -> NotificationItem>(before: ViewState, after: ViewState, f: F) -> bool {
    &&& after == (ViewState { items: after.items, ..before })
    &&& after.items@.len() == before.items@.len()
    &&& forall|k: int| 0 <= k < before.items@.len() ==> notification_mapped(#[trigger] before.items@[k], after.items@[k], f)
}

fn map_notifications<F: Fn(NotificationItem) -> NotificationItem>(view: &mut ViewState, f: &F)
    requires
        forall|n: NotificationItem| call_requires(*f, (n,)),
    ensures
        view_notifications_mapped(*old(view), *final(view), *f),
{
    let mut rows: Vec<ViewItem> = Vec::new();
    std::mem::swap(&mut rows, &mut view.items);
    let ghost all = rows@;
    let mut mapped: Vec<ViewItem> = Vec::new();
    for row in it: rows
        invariant
            it.seq() == all,
            all == old(view).items@,
            forall|n: NotificationItem| call_requires(*f, (n,)),
            mapped@.len() == it.index(),
            forall|k: int| 0 <= k < it.index() ==> notification_mapped(#[trigger] all[k], mapped@[k], *f),
    {
        let ghost k = it.index() as int;
        let next = match row {
            ViewItem::Notification(n) => ViewItem::Notification(Box::new(f(*n))),
            ViewItem::Post(p) => ViewItem::Post(p),
        };
        mapped.push(next);
        proof {
            assert(all[k] == row);
            assert(mapped@[k] == next);
        }
    }
    view.items = mapped;
}

impl NavigationStack {
    /// Keeps, in every open view, the rows `keep` accepts.
    pub fn retain_items<F: Fn(&ViewItem) -> bool>(&mut self, keep: F)
        requires
            old(self).wf(),
            forall|row: &ViewItem| call_requires(keep, (row,)),
        ensures
            final(self).wf(),
            final(self).stack().len() == old(self).stack().len(),
            forall|i: int| 0 <= i < old(self).stack().len() ==> view_retained(#[trigger] old(self).stack()[i], final(self).stack()[i], keep),
    {
        let mut i: usize = 0;
        while i < self.views.len()
            invariant
                old(self).views@.len() == self.views@.len(),
                i <= self.views@.len(),
                forall|row: &ViewItem| call_requires(keep, (row,)),
                forall|j: int| 0 <= j < i ==> view_retained(#[trigger] old(self).views@[j], self.views@[j], keep),
                forall|j: int| i <= j < self.views@.len() ==> self.views@[j] == old(self).views@[j],
            decreases self.views@.len() - i,
        {
            let mut view = self.views.remove(i);
            retain_rows(&mut view, &keep);
            self.views.insert(i, view);
            i += 1;
        }
    }

    /// Runs `f` over every notification of every open view.
    pub fn for_each_notification_mut<F: Fn(NotificationItem) -> NotificationItem>(&mut self, f: F)
        requires
            old(self).wf(),
            forall|n: NotificationItem| call_requires(f, (n,)),
        ensures
            final(self).wf(),
            final(self).stack().len() == old(self).stack().len(),
            forall|i: int| 0 <= i < old(self).stack().len() ==> view_notifications_mapped(#[trigger] old(self).stack()[i], final(self).stack()[i], f),
    {
        let mut i: usize = 0;
        while i < self.views.len()
            invariant
                old(self).views@.len() == self.views@.len(),
                i <= self.views@.len(),
                forall|n: NotificationItem| call_requires(f, (n,)),
                forall|j: int| 0 <= j < i ==> view_notifications_mapped(#[trigger] old(self).views@[j], self.views@[j], f),
                forall|j: int| i <= j < self.views@.len() ==> self.views@[j] == old(self).views@[j],
            decreases self.views@.len() - i,
        {
            let mut view = self.views.remove(i);
            map_notifications(&mut view, &f);
            self.views.insert(i, view);
            i += 1;
        }
    }

    /// Runs `f` over the profile header of every open view that has one.
    pub fn for_each_profile_mut<F: Fn(ProfileSummary) -> ProfileSummary>(&mut self, f: F)
        requires
            old(self).wf(),
            forall|p: ProfileSummary| call_requires(f, (p,)),
        ensures
            final(self).wf(),
            final(self).stack().len() == old(self).stack().len(),
            forall|i: int| 0 <= i < old(self).stack().len() ==> ({
                let before = #[trigger] old(self).stack()[i];
                let after = final(self).stack()[i];
                &&& after == (ViewState { profile: after.profile, ..before })
                &&& before.profile is None ==> after.profile is None
                &&& before.profile matches Some(p) ==> (after.profile matches Some(q) && call_ensures(f, (p,), q))
            }),
    {
        let mut i: usize = 0;
        while i < self.views.len()
            invariant
                old(self).views@.len() == self.views@.len(),
                i <= self.views@.len(),
                forall|p: ProfileSummary| call_requires(f, (p,)),
                forall|j: int| 0 <= j < i ==> ({
                    let before = #[trigger] old(self).views@[j];
                    let after = self.views@[j];
                    &&& after == (ViewState { profile: after.profile, ..before })
                    &&& before.profile is None ==> after.profile is None
                    &&& before.profile matches Some(p) ==> (after.profile matches Some(q) && call_ensures(f, (p,), q))
                }),
                forall|j: int| i <= j < self.views@.len() ==> self.views@[j] == old(self).views@[j],
            decreases self.views@.len() - i,
        {
            let mut view = self.views.remove(i);
            let profile = view.profile.take();
            view.profile = match profile {
                Some(p) => Some(f(p)),
                None => None,
            };
            self.views.insert(i, view);
            i += 1;
        }
    }
}

/// A view whose posts were each replaced by `g` of themselves; notifications stay, the
/// layout cache is dropped and nothing else changes.
pub open spec fn view_updated(before: ViewState, after: ViewState, g: spec_fn(FeedItem) -> FeedItem) -> bool {
    &&& after == (ViewState { items: after.items, layout_cache: after.layout_cache, ..before })
    &&& after.layout_cache.is_cleared()
    &&& after.layout_cache.builds == before.layout_cache.builds
    &&& after.items@.len() == before.items@.len()
    &&& forall|k: int| 0 <= k < before.items@.len() ==> (#[trigger] after.items@[k]) == match before.items@[k] {
        ViewItem::Post(p) => ViewItem::Post(Box::new(g(*p))),
        ViewItem::Notification(n) => ViewItem::Notification(n),
    }
}

/// Opening a view and then going back restores the stack as it was.
pub proof fn law_push_then_pop_restores(before: NavigationStack, view: ViewState, pushed: NavigationStack, popped: NavigationStack)
    requires
        before.wf(),
        pushed.stack() == before.stack().push(view),
        popped.stack() == if pushed.stack().len() > 1 {
            pushed.stack().drop_last()
        } else {
            pushed.stack()
        },
    ensures
        popped.stack() == before.stack(),
{
    assert(before.stack().push(view).drop_last() =~= before.stack());
}

/// Going back never closes the bottom view: a stack of one view stays as it is.
pub proof fn law_root_is_never_popped(nav: NavigationStack, popped: NavigationStack, r: bool)
    requires
        nav.wf(),
        nav.stack().len() == 1,
        r == (nav.stack().len() > 1),
        !r ==> popped.stack() == nav.stack(),
    ensures
        !r,
        popped.stack() == nav.stack(),
{
}

} // verus!
