//! What the media cache knows about each image or video URL: decoded, failed, or
//! being loaded, with a least-recently-used bound on the decoded entries. The
//! decoded pictures themselves are kept by the caller, keyed by the same URLs.
use vstd::prelude::*;

use crate::text::strings_equal;

verus! {

/// How many decoded images the cache keeps.
pub const IMAGE_CACHE_CAP: usize = 48;

/// How many decoded videos the cache keeps.
pub const VIDEO_CACHE_CAP: usize = 4;

/// The outcome of a load that the cache remembers.
#[derive(Debug, Clone, PartialEq, Eq)]
pub enum EntryState {
    Ready,
    Failed(String),
}

/// The entry kinds as the spec sees them.
pub enum EntryView {
    Ready,
    Failed(Seq<char>),
}

pub open spec fn entry_view(s: EntryState) -> EntryView {
    match s {
        EntryState::Ready => EntryView::Ready,
        EntryState::Failed(m) => EntryView::Failed(m@),
    }
}

/// The cache's bookkeeping: entries in order of use, least recently used first, and
/// the URLs being loaded.
pub struct MediaStore {
    enabled: bool,
    cap: usize,
    entries: Vec<(String, EntryState)>,
    loading: Vec<String>,
}

/// The entry for `url` among `entries`.
pub open spec fn entry_in(entries: Seq<(String, EntryState)>, url: Seq<char>) -> Option<EntryView>
    decreases entries.len(),
{
    if entries.len() == 0 {
        None
    } else if entries[0].0@ == url {
        Some(entry_view(entries[0].1))
    } else {
        entry_in(entries.drop_first(), url)
    }
}

pub open spec fn key_views(entries: Seq<(String, EntryState)>) -> Seq<Seq<char>> {
    entries.map_values(|e: (String, EntryState)| e.0@)
}

pub open spec fn url_views(urls: Seq<String>) -> Seq<Seq<char>> {
    urls.map_values(|u: String| u@)
}

pub proof fn lemma_entry_in(entries: Seq<(String, EntryState)>, url: Seq<char>)
    ensures
        entry_in(entries, url) is Some <==> key_views(entries).contains(url),
        key_views(entries).no_duplicates() ==> forall|i: int|
            0 <= i < entries.len() && #[trigger] entries[i].0@ == url ==> entry_in(entries, url) == Some(entry_view(entries[i].1)),
    decreases entries.len(),
{
    if entries.len() > 0 {
        assert(key_views(entries)[0] == entries[0].0@);
        lemma_entry_in(entries.drop_first(), url);
        assert(key_views(entries.drop_first()) =~= key_views(entries).drop_first());
        if key_views(entries).contains(url) && entries[0].0@ != url {
            let i = choose|i: int| 0 <= i < key_views(entries).len() && key_views(entries)[i] == url;
            assert(key_views(entries.drop_first())[i - 1] == url);
        }
        if key_views(entries.drop_first()).contains(url) {
            let i = choose|i: int| 0 <= i < key_views(entries.drop_first()).len() && key_views(entries.drop_first())[i] == url;
            assert(key_views(entries)[i + 1] == url);
        }
        assert forall|i: int|
            0 <= i < entries.len() && key_views(entries).no_duplicates() && #[trigger] entries[i].0@ == url implies entry_in(entries, url) == Some(entry_view(entries[i].1)) by {
            if i > 0 {
                assert(key_views(entries)[0] != key_views(entries)[i]);
                assert(entries.drop_first()[i - 1] == entries[i]);
                assert(key_views(entries.drop_first()).no_duplicates()) by {
                    assert forall|a: int, b: int| 0 <= a < b < key_views(entries.drop_first()).len() implies key_views(entries.drop_first())[a] != key_views(entries.drop_first())[b] by {
                        assert(key_views(entries)[a + 1] != key_views(entries)[b + 1]);
                    }
                }
            }
        }
    }
}

impl MediaStore {
    pub closed spec fn spec_enabled(&self) -> bool {
        self.enabled
    }

    pub closed spec fn capacity(&self) -> nat {
        self.cap as nat
    }

    /// The URLs with an entry, least recently used first.
    pub closed spec fn keys(&self) -> Seq<Seq<char>> {
        key_views(self.entries@)
    }

    pub closed spec fn entry(&self, url: Seq<char>) -> Option<EntryView> {
        entry_in(self.entries@, url)
    }

    pub closed spec fn loading_urls(&self) -> Seq<Seq<char>> {
        url_views(self.loading@)
    }

    pub open spec fn is_loading(&self, url: Seq<char>) -> bool {
        self.loading_urls().contains(url)
    }

    /// Each URL has at most one entry and is loaded at most once at a time, and no
    /// more entries are kept than the capacity.
    pub closed spec fn wf(&self) -> bool {
        &&& self.cap > 0
        &&& self.keys().no_duplicates()
        &&& self.loading_urls().no_duplicates()
        &&& self.entries@.len() <= self.cap
    }

    pub proof fn lemma_wf(&self)
        requires
            self.wf(),
        ensures
            self.keys().len() <= self.capacity(),
            self.capacity() > 0,
            forall|url: Seq<char>| #[trigger] self.entry(url) is Some <==> self.keys().contains(url),
    {
        assert forall|url: Seq<char>| #[trigger] self.entry(url) is Some <==> self.keys().contains(url) by {
            lemma_entry_in(self.entries@, url);
        }
    }

    /// An empty cache keeping at most `cap` entries; a disabled cache loads nothing.
    pub fn new(enabled: bool, cap: usize) -> (r: MediaStore)
        requires
            cap > 0,
        ensures
            r.wf(),
            r.spec_enabled() == enabled,
            r.capacity() == cap,
            r.keys().len() == 0,
            r.loading_urls().len() == 0,
            forall|url: Seq<char>| r.entry(url) is None,
    {
        let r = MediaStore { enabled, cap, entries: Vec::new(), loading: Vec::new() };
        assert(r.keys() =~= Seq::<Seq<char>>::empty());
        assert(r.loading_urls() =~= Seq::<Seq<char>>::empty());
        r
    }

    /// The number of entries.
    pub fn len(&self) -> (r: usize)
        ensures
            r == self.keys().len(),
    {
        self.entries.len()
    }

    pub fn enabled(&self) -> (r: bool)
        ensures
            r == self.spec_enabled(),
    {
        self.enabled
    }

    fn position(&self, url: &str) -> (r: Option<usize>)
        requires
            self.wf(),
        ensures
            match r {
                Some(i) => i < self.entries@.len() && self.entries@[i as int].0@ == url@ && self.entry(url@) == Some(
                    entry_view(self.entries@[i as int].1),
                ),
                None => self.entry(url@) is None && !self.keys().contains(url@),
            },
    {
        proof {
            lemma_entry_in(self.entries@, url@);
        }
        let mut i: usize = 0;
        while i < self.entries.len()
            invariant
                self.wf(),
                i <= self.entries@.len(),
                forall|j: int| 0 <= j < i ==> (#[trigger] self.entries@[j]).0@ != url@,
            decreases self.entries@.len() - i,
        {
            if strings_equal(self.entries[i].0.as_str(), url) {
                proof {
                    lemma_entry_in(self.entries@, url@);
                }
                return Some(i);
            }
            i += 1;
        }
        proof {
            if self.keys().contains(url@) {
                let k = choose|k: int| 0 <= k < self.keys().len() && self.keys()[k] == url@;
                assert(self.entries@[k].0@ == url@);
            }
        }
        None
    }

    fn loading_position(&self, url: &str) -> (r: Option<usize>)
        ensures
            match r {
                Some(i) => i < self.loading@.len() && self.loading@[i as int]@ == url@,
                None => !self.is_loading(url@),
            },
    {
        let mut i: usize = 0;
        while i < self.loading.len()
            invariant
                i <= self.loading@.len(),
                forall|j: int| 0 <= j < i ==> (#[trigger] self.loading@[j])@ != url@,
            decreases self.loading@.len() - i,
        {
            if strings_equal(self.loading[i].as_str(), url) {
                return Some(i);
            }
            i += 1;
        }
        proof {
            if self.is_loading(url@) {
                let k = choose|k: int| 0 <= k < self.loading_urls().len() && self.loading_urls()[k] == url@;
                assert(self.loading@[k]@ == url@);
            }
        }
        None
    }

    /// Whether `url` is being loaded.
    pub fn loading(&self, url: &str) -> (r: bool)
        ensures
            r == self.is_loading(url@),
    {
        match self.loading_position(url) {
            Some(i) => {
                assert(self.loading_urls()[i as int] == url@);
                true
            },
            None => false,
        }
    }

    /// The state the media overlay reports for `url`.
    pub open spec fn spec_state_name(&self, url: Seq<char>) -> Seq<char> {
        if self.is_loading(url) {
            "loading"@
        } else {
            match self.entry(url) {
                Some(EntryView::Ready) => "ready"@,
                Some(EntryView::Failed(_)) => "failed"@,
                None => "missing"@,
            }
        }
    }

    /// "loading", "ready", "failed" or "missing".
    pub fn state_name(&self, url: &str) -> (r: &'static str)
        requires
            self.wf(),
        ensures
            r@ == self.spec_state_name(url@),
    {
        if self.loading(url) {
            return "loading";
        }
        match self.position(url) {
            Some(i) => match self.entries[i].1 {
                EntryState::Ready => "ready",
                EntryState::Failed(_) => "failed",
            },
            None => "missing",
        }
    }
}

pub proof fn lemma_no_dup_remove(s: Seq<Seq<char>>, i: int)
    requires
        s.no_duplicates(),
        0 <= i < s.len(),
    ensures
        s.remove(i).no_duplicates(),
        forall|u: Seq<char>| s.remove(i).contains(u) <==> (s.contains(u) && u != s[i]),
{
    let r = s.remove(i);
    assert forall|a: int, b: int| 0 <= a < b < r.len() implies r[a] != r[b] by {
        let a2 = if a < i { a } else { a + 1 };
        let b2 = if b < i { b } else { b + 1 };
        assert(r[a] == s[a2] && r[b] == s[b2]);
    }
    assert forall|u: Seq<char>| r.contains(u) <==> (s.contains(u) && u != s[i]) by {
        if r.contains(u) {
            let a = choose|a: int| 0 <= a < r.len() && r[a] == u;
            let a2 = if a < i { a } else { a + 1 };
            assert(s[a2] == u);
        }
        if s.contains(u) && u != s[i] {
            let a = choose|a: int| 0 <= a < s.len() && s[a] == u;
            if a < i {
                assert(r[a] == u);
            } else {
                assert(r[a - 1] == u);
            }
        }
    }
}

impl MediaStore {
    /// A URL without an entry starts loading.
    pub fn mark_loading_url(&mut self, url: &str)
        requires
            old(self).wf(),
        ensures
            final(self).wf(),
            final(self).keys() == old(self).keys(),
            forall|u: Seq<char>| #[trigger] final(self).entry(u) == old(self).entry(u),
            final(self).spec_enabled() == old(self).spec_enabled(),
            final(self).capacity() == old(self).capacity(),
            forall|u: Seq<char>| #[trigger] final(self).is_loading(u) == (old(self).is_loading(u) || (u == url@
                && old(self).spec_enabled() && old(self).entry(url@) is None)),
    {
        if !self.enabled || self.position(url).is_some() || self.loading(url) {
            return;
        }
        let ghost before = self.loading_urls();
        self.loading.push(url.to_owned());
        assert(self.loading_urls() =~= before.push(url@));
        proof {
            assert forall|a: int, b: int| 0 <= a < b < self.loading_urls().len() implies self.loading_urls()[a] != self.loading_urls()[b] by {
                if b == before.len() {
                    assert(!before.contains(url@));
                    assert(before[a] == self.loading_urls()[a]);
                }
            }
            assert forall|u: Seq<char>| #[trigger] self.is_loading(u) == (before.contains(u) || u == url@) by {
                if self.is_loading(u) && u != url@ {
                    let k = choose|k: int| 0 <= k < self.loading_urls().len() && self.loading_urls()[k] == u;
                    assert(before[k] == u);
                }
                if before.contains(u) {
                    let k = choose|k: int| 0 <= k < before.len() && before[k] == u;
                    assert(self.loading_urls()[k] == u);
                }
                if u == url@ {
                    assert(self.loading_urls()[before.len() as int] == u);
                }
            }
        }
    }

    /// `url` is no longer being loaded.
    pub fn cancel_loading(&mut self, url: &str)
        requires
            old(self).wf(),
        ensures
            final(self).wf(),
            final(self).keys() == old(self).keys(),
            forall|u: Seq<char>| #[trigger] final(self).entry(u) == old(self).entry(u),
            final(self).spec_enabled() == old(self).spec_enabled(),
            final(self).capacity() == old(self).capacity(),
            forall|u: Seq<char>| #[trigger] final(self).is_loading(u) == (old(self).is_loading(u) && u != url@),
    {
        match self.loading_position(url) {
            Some(i) => {
                let ghost before = self.loading_urls();
                self.loading.remove(i);
                assert(self.loading_urls() =~= before.remove(i as int));
                proof {
                    lemma_no_dup_remove(before, i as int);
                }
            },
            None => {},
        }
    }

    /// Whether to start loading `url`. A URL already loaded,
    /// being loaded, or failed is not loaded again, unless a failure is to be retried,
    /// in which case it is forgotten first.
    pub fn prepare_load(&mut self, url: &str, retry_failed: bool) -> (r: bool)
        requires
            old(self).wf(),
        ensures
            final(self).wf(),
            r == (old(self).spec_enabled() && !old(self).is_loading(url@) && match old(self).entry(url@) {
                Some(EntryView::Ready) => false,
                Some(EntryView::Failed(_)) => retry_failed,
                None => true,
            }),
            r && old(self).entry(url@) is Some ==> {
                &&& exists|i: int| 0 <= i < old(self).keys().len() && old(self).keys()[i] == url@ && final(self).keys()
                    == old(self).keys().remove(i)
                &&& forall|u: Seq<char>| #[trigger] final(self).entry(u) == if u == url@ {
                    None
                } else {
                    old(self).entry(u)
                }
            },
            !(r && old(self).entry(url@) is Some) ==> {
                &&& final(self).keys() == old(self).keys()
                &&& forall|u: Seq<char>| #[trigger] final(self).entry(u) == old(self).entry(u)
            },
            final(self).loading_urls() == old(self).loading_urls(),
            final(self).spec_enabled() == old(self).spec_enabled(),
            final(self).capacity() == old(self).capacity(),
    {
        if !self.enabled || self.loading(url) {
            return false;
        }
        match self.position(url) {
            None => true,
            Some(i) => {
                let failed = match self.entries[i].1 {
                    EntryState::Ready => false,
                    EntryState::Failed(_) => true,
                };
                if failed && retry_failed {
                    let ghost old_entries = self.entries@;
                    let ghost old_keys = self.keys();
                    self.entries.remove(i);
                    proof {
                        assert(self.keys() =~= old_keys.remove(i as int));
                        lemma_no_dup_remove(old_keys, i as int);
                        assert(old_keys[i as int] == url@);
                        assert(self.keys() == old_keys.remove(i as int));
                        assert forall|u: Seq<char>| #[trigger] self.entry(u) == if u == url@ {
                            None
                        } else {
                            entry_in(old_entries, u)
                        } by {
                            lemma_entry_in(old_entries, u);
                            lemma_entry_in(self.entries@, u);
                            if u != url@ && old_keys.contains(u) {
                                let k = choose|k: int| 0 <= k < old_keys.len() && old_keys[k] == u;
                                assert(old_entries[k].0@ == u);
                                let k2 = if k < i { k } else { k - 1 };
                                assert(self.entries@[k2] == old_entries[k]);
                            }
                        }
                    }
                    true
                } else {
                    false
                }
            },
        }
    }
}

impl MediaStore {
    /// Records the outcome of loading `url`, which is no longer being
    /// loaded. An entry already there keeps its place; a new one is the most recently
    /// used, and when the cache is full the least recently used entry is evicted.
    /// Returns the evicted URLs (so their pictures can be dropped); a disabled cache
    /// records nothing.
    pub fn finish_load(&mut self, url: String, outcome: EntryState) -> (evicted: Vec<String>)
        requires
            old(self).wf(),
        ensures
            final(self).wf(),
            final(self).spec_enabled() == old(self).spec_enabled(),
            final(self).capacity() == old(self).capacity(),
            !old(self).spec_enabled() ==> {
                &&& final(self).keys() == old(self).keys()
                &&& final(self).loading_urls() == old(self).loading_urls()
                &&& forall|u: Seq<char>| #[trigger] final(self).entry(u) == old(self).entry(u)
                &&& evicted@.len() == 0
            },
            old(self).spec_enabled() ==> {
                &&& forall|u: Seq<char>| #[trigger] final(self).is_loading(u) == (old(self).is_loading(u) && u != url@)
                &&& final(self).entry(url@) == Some(entry_view(outcome))
                &&& old(self).entry(url@) is Some ==> {
                    &&& final(self).keys() == old(self).keys()
                    &&& evicted@.len() == 0
                }
                &&& old(self).entry(url@) is None && old(self).keys().len() < old(self).capacity() ==> {
                    &&& final(self).keys() == old(self).keys().push(url@)
                    &&& evicted@.len() == 0
                }
                &&& old(self).entry(url@) is None && old(self).keys().len() >= old(self).capacity() ==> {
                    &&& final(self).keys() == old(self).keys().push(url@).drop_first()
                    &&& url_views(evicted@) == seq![old(self).keys()[0]]
                }
                &&& forall|u: Seq<char>| u != url@ ==> #[trigger] final(self).entry(u) == if url_views(evicted@).contains(u) {
                    None
                } else {
                    old(self).entry(u)
                }
            },
    {
        let mut evicted: Vec<String> = Vec::new();
        if !self.enabled {
            assert(url_views(evicted@) =~= Seq::<Seq<char>>::empty());
            return evicted;
        }
        self.cancel_loading(url.as_str());
        let ghost mid = *self;
        proof {
            assert forall|u: Seq<char>| #[trigger] old(self).entry(u) == entry_in(mid.entries@, u) by {
                assert(mid.entry(u) == old(self).entry(u));
            }
            assert(mid.keys() == old(self).keys());
        }
        let ghost old_entries = self.entries@;
        let ghost old_keys = self.keys();
        proof {
            lemma_entry_in(old_entries, url@);
        }
        match self.position(url.as_str()) {
            Some(i) => {
                self.entries.set(i, (url, outcome));
                proof {
                    assert(self.keys() =~= old_keys);
                    assert forall|u: Seq<char>| #[trigger] self.entry(u) == if u == old_keys[i as int] {
                        Some(entry_view(outcome))
                    } else {
                        entry_in(old_entries, u)
                    } by {
                        lemma_entry_in(old_entries, u);
                        lemma_entry_in(self.entries@, u);
                        if old_keys.contains(u) {
                            let k = choose|k: int| 0 <= k < old_keys.len() && old_keys[k] == u;
                            assert(old_entries[k].0@ == u);
                            assert(self.entries@[k].0@ == u);
                        }
                        assert(self.entries@[i as int].0@ == old_keys[i as int]);
                    }
                    assert(url_views(evicted@) =~= Seq::<Seq<char>>::empty());
                }
            },
            None => {
                let key = url.clone();
                self.entries.push((url, outcome));
                let ghost pushed_entries = self.entries@;
                let ghost pushed_keys = self.keys();
                proof {
                    assert(pushed_keys =~= old_keys.push(key@));
                    assert forall|a: int, b: int| 0 <= a < b < pushed_keys.len() implies pushed_keys[a] != pushed_keys[b] by {
                        if b == old_keys.len() {
                            assert(old_keys[a] == pushed_keys[a]);
                        }
                    }
                    assert forall|u: Seq<char>| #[trigger] entry_in(pushed_entries, u) == if u == key@ {
                        Some(entry_view(outcome))
                    } else {
                        entry_in(old_entries, u)
                    } by {
                        lemma_entry_in(old_entries, u);
                        lemma_entry_in(pushed_entries, u);
                        assert(pushed_entries[old_entries.len() as int].0@ == key@);
                        if old_keys.contains(u) {
                            let k = choose|k: int| 0 <= k < old_keys.len() && old_keys[k] == u;
                            assert(old_entries[k].0@ == u);
                            assert(pushed_entries[k] == old_entries[k]);
                        }
                        if pushed_keys.contains(u) && u != key@ {
                            let k = choose|k: int| 0 <= k < pushed_keys.len() && pushed_keys[k] == u;
                            assert(k < old_keys.len());
                            assert(old_keys[k] == u);
                        }
                    }
                }
                if self.entries.len() > self.cap {
                    let (gone, _) = self.entries.remove(0);
                    evicted.push(gone);
                    proof {
                        assert(self.keys() =~= pushed_keys.remove(0));
                        assert(pushed_keys.remove(0) =~= pushed_keys.drop_first());
                        lemma_no_dup_remove(pushed_keys, 0);
                        assert(url_views(evicted@) =~= seq![old_keys[0]]);
                        assert(pushed_keys[0] == old_keys[0]);
                        assert forall|u: Seq<char>| #[trigger] self.entry(u) == if u == old_keys[0] {
                            None
                        } else {
                            entry_in(pushed_entries, u)
                        } by {
                            lemma_entry_in(pushed_entries, u);
                            lemma_entry_in(self.entries@, u);
                            if pushed_keys.contains(u) && u != old_keys[0] {
                                let k = choose|k: int| 0 <= k < pushed_keys.len() && pushed_keys[k] == u;
                                assert(k > 0);
                                assert(pushed_entries[k].0@ == u);
                                assert(self.entries@[k - 1] == pushed_entries[k]);
                            }
                        }
                        assert forall|u: Seq<char>| url_views(evicted@).contains(u) <==> u == old_keys[0] by {
                            if url_views(evicted@).contains(u) {
                                let k = choose|k: int| 0 <= k < url_views(evicted@).len() && url_views(evicted@)[k] == u;
                            }
                            if u == old_keys[0] {
                                assert(url_views(evicted@)[0] == u);
                            }
                        }
                        assert(key@ != old_keys[0]);
                    }
                } else {
                    proof {
                        assert(url_views(evicted@) =~= Seq::<Seq<char>>::empty());
                    }
                }
            },
        }
        proof {
            assert forall|u: Seq<char>| #[trigger] self.is_loading(u) == (old(self).is_loading(u) && u != url@) by {
                assert(mid.is_loading(u) == (old(self).is_loading(u) && u != url@));
                assert(self.loading_urls() == mid.loading_urls());
            }
        }
        evicted
    }

    /// `url` becomes the most recently used entry.
    pub fn touch(&mut self, url: &str)
        requires
            old(self).wf(),
        ensures
            final(self).wf(),
            final(self).spec_enabled() == old(self).spec_enabled(),
            final(self).capacity() == old(self).capacity(),
            final(self).loading_urls() == old(self).loading_urls(),
            forall|u: Seq<char>| #[trigger] final(self).entry(u) == old(self).entry(u),
            old(self).entry(url@) is None ==> final(self).keys() == old(self).keys(),
            old(self).entry(url@) is Some ==> exists|i: int|
                0 <= i < old(self).keys().len() && old(self).keys()[i] == url@ && final(self).keys()
                    == old(self).keys().remove(i).push(url@),
    {
        match self.position(url) {
            None => {},
            Some(i) => {
                let ghost old_entries = self.entries@;
                let ghost old_keys = self.keys();
                let e = self.entries.remove(i);
                let ghost removed = self.entries@;
                self.entries.push(e);
                proof {
                    assert(removed =~= old_entries.remove(i as int));
                    assert(key_views(removed) =~= old_keys.remove(i as int));
                    assert(old_keys[i as int] == url@);
                    lemma_no_dup_remove(old_keys, i as int);
                    assert(self.keys() =~= old_keys.remove(i as int).push(url@));
                    assert forall|a: int, b: int| 0 <= a < b < self.keys().len() implies self.keys()[a] != self.keys()[b] by {
                        if b == self.keys().len() - 1 {
                            assert(!old_keys.remove(i as int).contains(url@));
                            assert(old_keys.remove(i as int)[a] == self.keys()[a]);
                        }
                    }
                    assert(old_keys[i as int] == url@ && self.keys() == old_keys.remove(i as int).push(url@));
                    assert forall|u: Seq<char>| #[trigger] self.entry(u) == entry_in(old_entries, u) by {
                        lemma_entry_in(old_entries, u);
                        lemma_entry_in(self.entries@, u);
                        if old_keys.contains(u) {
                            let k = choose|k: int| 0 <= k < old_keys.len() && old_keys[k] == u;
                            assert(old_entries[k].0@ == u);
                            if k == i {
                                assert(self.entries@[self.entries@.len() - 1] == old_entries[k]);
                            } else if k < i {
                                assert(self.entries@[k] == old_entries[k]);
                            } else {
                                assert(self.entries@[k - 1] == old_entries[k]);
                            }
                        }
                    }
                }
            },
        }
    }

    /// What the overlay draws for an image: its full-size URL when that is decoded,
    /// else its thumbnail when that is, else a message: loading, the failure, or queued.
    pub open spec fn spec_render_key(&self, url: Seq<char>, thumb: Option<Seq<char>>) -> Result<Seq<char>, Seq<char>> {
        if self.entry(url) == Some(EntryView::Ready) {
            Ok(url)
        } else if thumb matches Some(t) && self.entry(t) == Some(EntryView::Ready) {
            Ok(thumb.unwrap())
        } else if self.is_loading(url) {
            Err("Image loading"@)
        } else {
            match self.entry(url) {
                Some(EntryView::Failed(m)) => Err(m),
                _ => Err("Image queued"@),
            }
        }
    }

    /// What to draw for `url`: its own picture when ready, else the ready picture of its
    /// thumbnail `thumb`; otherwise why nothing can be drawn yet.
    pub fn render_key(&self, url: &str, thumb: Option<&str>) -> (r: Result<String, String>)
        requires
            self.wf(),
        ensures
            match r {
                Ok(k) => self.spec_render_key(url@, thumb_view(thumb)) == Ok::<Seq<char>, Seq<char>>(k@),
                Err(m) => self.spec_render_key(url@, thumb_view(thumb)) == Err::<Seq<char>, Seq<char>>(m@),
            },
    {
        let own = self.position(url);
        if let Some(i) = own {
            if let EntryState::Ready = self.entries[i].1 {
                return Ok(url.to_owned());
            }
        }
        if let Some(t) = thumb {
            if let Some(j) = self.position(t) {
                if let EntryState::Ready = self.entries[j].1 {
                    return Ok(t.to_owned());
                }
            }
        }
        if self.loading(url) {
            return Err("Image loading".to_owned());
        }
        match own {
            Some(i) => match &self.entries[i].1 {
                EntryState::Failed(m) => Err(m.clone()),
                EntryState::Ready => Err("Image queued".to_owned()),
            },
            None => Err("Image queued".to_owned()),
        }
    }
}

pub open spec fn thumb_view(t: Option<&str>) -> Option<Seq<char>> {
    match t {
        Some(s) => Some(s@),
        None => None,
    }
}

/// A cache never keeps more entries than it may.
pub proof fn law_cache_is_bounded(store: MediaStore)
    requires
        store.wf(),
    ensures
        store.keys().len() <= store.capacity(),
{
    store.lemma_wf();
}

} // verus!
