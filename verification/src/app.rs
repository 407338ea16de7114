//! The interactive state of the client that does not depend on the terminal: the
//! overlays, the composer, the bookkeeping of background requests, and the rules the
//! event loop applies to their results.
use vstd::prelude::*;

use crate::keymap::{action_for_key, help_lines, spec_action_for_key, spec_help_lines, InputContext, KeyAction, KeyCode, KeyEvent, KeyModifiers, CONTROL_BITS, SHIFT_BITS};
use crate::media::{preview_media, spec_preview_media, PreviewMedia, PreviewVideo};
use crate::feed::{string_views, dedupe, feed_item_from_quote, item_links, link_views, spec_item_links, spec_quote_item};
use crate::model::{post_rows, FeedItem, FeedSource, FeedSourceKind, LinkRef, NotificationItem, NotificationTarget, PostRef, ProfileSummary, QuotePost, ViewItem};
use crate::navigation::{
    has_uri, is_first_uri, moved_by, moved_down, moved_up, view_mapped, view_updated, NavigationStack, ViewKind, ViewState,
};
use crate::text::{
    clone_text, pop_char, push_char, trim, trim_string,
    chars_of, decimal, is_whitespace, push_decimal, push_str, string_from_chars,
    char_is_whitespace,
};

verus! {

#[derive(Debug, Clone, PartialEq, Eq)]
pub enum InputMode {
    Normal,
    Search { buffer: String },
}

#[derive(Debug, Clone, PartialEq, Eq)]
pub enum Overlay {
    Menu(MenuState),
    Media(MediaOverlayState),
    Links(LinkPickerState),
    Composer(ComposerState),
}

#[derive(Debug, Clone, Copy, PartialEq, Eq, Structural)]
pub enum MenuSection {
    Keys,
    Accounts,
    Feeds,
    Settings,
}

impl MenuSection {
    pub open spec fn spec_label(self) -> Seq<char> {
        match self {
            MenuSection::Keys => "Keys"@,
            MenuSection::Accounts => "Accounts"@,
            MenuSection::Feeds => "Feeds"@,
            MenuSection::Settings => "Settings"@,
        }
    }

    pub fn label(self) -> (r: &'static str)
        ensures
            r@ == self.spec_label(),
    {
        match self {
            MenuSection::Keys => "Keys",
            MenuSection::Accounts => "Accounts",
            MenuSection::Feeds => "Feeds",
            MenuSection::Settings => "Settings",
        }
    }

    /// Sections cycle Keys → Accounts → Feeds → Settings → Keys.
    pub open spec fn spec_next(self) -> MenuSection {
        match self {
            MenuSection::Keys => MenuSection::Accounts,
            MenuSection::Accounts => MenuSection::Feeds,
            MenuSection::Feeds => MenuSection::Settings,
            MenuSection::Settings => MenuSection::Keys,
        }
    }

    pub open spec fn spec_previous(self) -> MenuSection {
        match self {
            MenuSection::Keys => MenuSection::Settings,
            MenuSection::Accounts => MenuSection::Keys,
            MenuSection::Feeds => MenuSection::Accounts,
            MenuSection::Settings => MenuSection::Feeds,
        }
    }

    pub fn next(self) -> (r: MenuSection)
        ensures
            r == self.spec_next(),
    {
        match self {
            MenuSection::Keys => MenuSection::Accounts,
            MenuSection::Accounts => MenuSection::Feeds,
            MenuSection::Feeds => MenuSection::Settings,
            MenuSection::Settings => MenuSection::Keys,
        }
    }

    pub fn previous(self) -> (r: MenuSection)
        ensures
            r == self.spec_previous(),
    {
        match self {
            MenuSection::Keys => MenuSection::Settings,
            MenuSection::Accounts => MenuSection::Keys,
            MenuSection::Feeds => MenuSection::Accounts,
            MenuSection::Settings => MenuSection::Feeds,
        }
    }
}

/// Moving to the next section and back again returns to where one started, and four
/// steps in one direction go all the way round.
pub proof fn law_menu_sections_cycle(section: MenuSection)
    ensures
        section.spec_next().spec_previous() == section,
        section.spec_previous().spec_next() == section,
        section.spec_next().spec_next().spec_next().spec_next() == section,
{
}

#[derive(Debug, Clone, PartialEq, Eq)]
pub struct MenuState {
    pub section: MenuSection,
}

impl Default for MenuState {
    fn default() -> (r: MenuState)
        ensures
            r.section == MenuSection::Keys,
    {
        MenuState { section: MenuSection::Keys }
    }
}

impl MenuState {
    pub fn settings() -> (r: MenuState)
        ensures
            r.section == MenuSection::Settings,
    {
        MenuState { section: MenuSection::Settings }
    }

    pub fn next(&mut self)
        ensures
            final(self).section == old(self).section.spec_next(),
    {
        self.section = self.section.next();
    }

    pub fn previous(&mut self)
        ensures
            final(self).section == old(self).section.spec_previous(),
    {
        self.section = self.section.previous();
    }
}

#[derive(Debug, Clone, Copy, PartialEq, Eq)]
pub enum MenuTabAction {
    MoveSection(isize),
    SwitchAccount(isize),
    SwitchFeed(isize),
}

/// What Tab (or Shift-Tab, `reverse`) does in a menu section.
pub fn menu_tab_action(section: MenuSection, reverse: bool) -> (r: MenuTabAction)
    ensures
        ({
            let delta = (if reverse { -1int } else { 1int }) as isize;
            match section {
                MenuSection::Accounts => r == MenuTabAction::SwitchAccount(delta),
                MenuSection::Feeds => r == MenuTabAction::SwitchFeed(delta),
                _ => r == MenuTabAction::MoveSection(delta),
            }
        }),
{
    let delta: isize = if reverse {
        -1
    } else {
        1
    };
    match section {
        MenuSection::Accounts => MenuTabAction::SwitchAccount(delta),
        MenuSection::Feeds => MenuTabAction::SwitchFeed(delta),
        MenuSection::Keys | MenuSection::Settings => MenuTabAction::MoveSection(delta),
    }
}

#[derive(Debug, Clone, Copy, PartialEq, Eq)]
pub enum Action {
    Quit,
    BackOrQuit,
    MoveDown,
    MoveUp,
    HalfPageDown,
    HalfPageUp,
    PageDown,
    PageUp,
    OpenMenu,
    PreviewMedia,
    OpenLinks,
    PreviousFeed,
    NextFeed,
    LoadPending,
    ToggleLike,
    ToggleRepost,
    ToggleFollow,
    DeleteOwnPost,
    ComposePost,
    ComposeReply,
    ComposeQuote,
    JumpTop,
    JumpBottom,
    StartSearch,
    SearchNext,
    Back,
    Escape,
    OpenSelected,
    OpenQuote,
    OpenProfile,
    OpenNotifications,
    Reload,
}

/// The browsing action a key binding stands for; the bindings of overlays, search and
/// confirmation have none.
pub open spec fn spec_browsing_action(a: KeyAction) -> Option<Action> {
    match a {
        KeyAction::Quit => Some(Action::Quit),
        KeyAction::BackOrQuit => Some(Action::BackOrQuit),
        KeyAction::MoveDown => Some(Action::MoveDown),
        KeyAction::MoveUp => Some(Action::MoveUp),
        KeyAction::HalfPageDown => Some(Action::HalfPageDown),
        KeyAction::HalfPageUp => Some(Action::HalfPageUp),
        KeyAction::PageDown => Some(Action::PageDown),
        KeyAction::PageUp => Some(Action::PageUp),
        KeyAction::OpenMenu => Some(Action::OpenMenu),
        KeyAction::PreviewMedia => Some(Action::PreviewMedia),
        KeyAction::OpenLinks => Some(Action::OpenLinks),
        KeyAction::PreviousFeed => Some(Action::PreviousFeed),
        KeyAction::NextFeed => Some(Action::NextFeed),
        KeyAction::LoadPending => Some(Action::LoadPending),
        KeyAction::ToggleLike => Some(Action::ToggleLike),
        KeyAction::ToggleRepost => Some(Action::ToggleRepost),
        KeyAction::ToggleFollow => Some(Action::ToggleFollow),
        KeyAction::DeleteOwnPost => Some(Action::DeleteOwnPost),
        KeyAction::ComposePost => Some(Action::ComposePost),
        KeyAction::ComposeReply => Some(Action::ComposeReply),
        KeyAction::ComposeQuote => Some(Action::ComposeQuote),
        KeyAction::JumpTop => Some(Action::JumpTop),
        KeyAction::JumpBottom => Some(Action::JumpBottom),
        KeyAction::StartSearch => Some(Action::StartSearch),
        KeyAction::SearchNext => Some(Action::SearchNext),
        KeyAction::Back => Some(Action::Back),
        KeyAction::Escape => Some(Action::Escape),
        KeyAction::OpenSelected => Some(Action::OpenSelected),
        KeyAction::OpenQuote => Some(Action::OpenQuote),
        KeyAction::OpenProfile => Some(Action::OpenProfile),
        KeyAction::OpenNotifications => Some(Action::OpenNotifications),
        KeyAction::Reload => Some(Action::Reload),
        _ => None,
    }
}

fn browsing_action(a: KeyAction) -> (r: Option<Action>)
    ensures
        r == spec_browsing_action(a),
{
    match a {
        KeyAction::Quit => Some(Action::Quit),
        KeyAction::BackOrQuit => Some(Action::BackOrQuit),
        KeyAction::MoveDown => Some(Action::MoveDown),
        KeyAction::MoveUp => Some(Action::MoveUp),
        KeyAction::HalfPageDown => Some(Action::HalfPageDown),
        KeyAction::HalfPageUp => Some(Action::HalfPageUp),
        KeyAction::PageDown => Some(Action::PageDown),
        KeyAction::PageUp => Some(Action::PageUp),
        KeyAction::OpenMenu => Some(Action::OpenMenu),
        KeyAction::PreviewMedia => Some(Action::PreviewMedia),
        KeyAction::OpenLinks => Some(Action::OpenLinks),
        KeyAction::PreviousFeed => Some(Action::PreviousFeed),
        KeyAction::NextFeed => Some(Action::NextFeed),
        KeyAction::LoadPending => Some(Action::LoadPending),
        KeyAction::ToggleLike => Some(Action::ToggleLike),
        KeyAction::ToggleRepost => Some(Action::ToggleRepost),
        KeyAction::ToggleFollow => Some(Action::ToggleFollow),
        KeyAction::DeleteOwnPost => Some(Action::DeleteOwnPost),
        KeyAction::ComposePost => Some(Action::ComposePost),
        KeyAction::ComposeReply => Some(Action::ComposeReply),
        KeyAction::ComposeQuote => Some(Action::ComposeQuote),
        KeyAction::JumpTop => Some(Action::JumpTop),
        KeyAction::JumpBottom => Some(Action::JumpBottom),
        KeyAction::StartSearch => Some(Action::StartSearch),
        KeyAction::SearchNext => Some(Action::SearchNext),
        KeyAction::Back => Some(Action::Back),
        KeyAction::Escape => Some(Action::Escape),
        KeyAction::OpenSelected => Some(Action::OpenSelected),
        KeyAction::OpenQuote => Some(Action::OpenQuote),
        KeyAction::OpenProfile => Some(Action::OpenProfile),
        KeyAction::OpenNotifications => Some(Action::OpenNotifications),
        KeyAction::Reload => Some(Action::Reload),
        _ => None,
    }
}

/// The action of a key in the normal (browsing) mode: Ctrl-C quits everywhere, and
/// every other key does what the key table binds it to in the normal mode.
pub open spec fn spec_normal_action_for_key(key: KeyEvent) -> Option<Action> {
    if spec_action_for_key(InputContext::Global, key) == Some(KeyAction::Quit) {
        Some(Action::Quit)
    } else {
        match spec_action_for_key(InputContext::Normal, key) {
            Some(a) => spec_browsing_action(a),
            None => None,
        }
    }
}

pub fn normal_action_for_key(key: KeyEvent) -> (r: Option<Action>)
    ensures
        r == spec_normal_action_for_key(key),
{
    if action_for_key(InputContext::Global, key) == Some(KeyAction::Quit) {
        return Some(Action::Quit);
    }
    match action_for_key(InputContext::Normal, key) {
        Some(a) => browsing_action(a),
        None => None,
    }
}

/// The help lines of the normal mode, one per group of keys.
pub fn normal_key_help_lines() -> (r: Vec<String>)
    ensures
        string_views(r@) == spec_help_lines(InputContext::Normal),
{
    help_lines(InputContext::Normal)
}

#[derive(Debug, Clone, PartialEq, Eq)]
pub struct MediaOverlayState {
    pub media: Vec<PreviewMedia>,
    pub selected: usize,
    pub playing: bool,
}

impl MediaOverlayState {
    pub fn new(media: Vec<PreviewMedia>) -> (r: MediaOverlayState)
        ensures
            r.media@ == media@,
            r.selected == 0,
            !r.playing,
    {
        MediaOverlayState { media, selected: 0, playing: false }
    }

    pub fn selected_media(&self) -> (r: Option<&PreviewMedia>)
        ensures
            self.selected < self.media@.len() ==> r == Some(&self.media@[self.selected as int]),
            self.selected >= self.media@.len() ==> r is None,
    {
        if self.selected < self.media.len() {
            Some(&self.media[self.selected])
        } else {
            None
        }
    }

    /// Moves to the next item, stopping at the last one; playback stops.
    pub fn next(&mut self)
        ensures
            final(self).media == old(self).media,
            old(self).media@.len() == 0 ==> *final(self) == *old(self),
            old(self).media@.len() > 0 ==> {
                &&& final(self).selected == (if old(self).selected + 1 < old(self).media@.len() {
                    old(self).selected + 1
                } else {
                    old(self).media@.len() - 1
                })
                &&& !final(self).playing
            },
    {
        if self.media.len() > 0 {
            let last = self.media.len() - 1;
            self.selected = if self.selected < last {
                self.selected + 1
            } else {
                last
            };
            self.playing = false;
        }
    }

    /// Moves to the previous item, stopping at the first one; playback stops.
    pub fn previous(&mut self)
        ensures
            final(self).media == old(self).media,
            final(self).selected == (if old(self).selected == 0 { 0 } else { old(self).selected - 1 }),
            !final(self).playing,
    {
        if self.selected > 0 {
            self.selected = self.selected - 1;
        }
        self.playing = false;
    }
}

#[derive(Debug, Clone, PartialEq, Eq)]
pub struct ComposerState {
    pub kind: ComposerKind,
    pub buffer: String,
}

#[derive(Debug, Clone, PartialEq, Eq)]
pub enum ComposerKind {
    Post,
    Reply { root: PostRef, parent: PostRef, parent_handle: String },
    Quote { quote: PostRef, quote_handle: String },
}

impl ComposerState {
    pub open spec fn spec_title(&self) -> Seq<char> {
        match self.kind {
            ComposerKind::Post => "New Post"@,
            ComposerKind::Reply { .. } => "Reply"@,
            ComposerKind::Quote { .. } => "Quote Post"@,
        }
    }

    pub fn title(&self) -> (r: &'static str)
        ensures
            r@ == self.spec_title(),
    {
        match self.kind {
            ComposerKind::Post => "New Post",
            ComposerKind::Reply { .. } => "Reply",
            ComposerKind::Quote { .. } => "Quote Post",
        }
    }
}

#[derive(Debug, Clone, PartialEq, Eq)]
pub struct LinkPickerState {
    pub links: Vec<LinkRef>,
    pub selected: usize,
}

impl LinkPickerState {
    pub fn new(links: Vec<LinkRef>) -> (r: LinkPickerState)
        ensures
            r.links@ == links@,
            r.selected == 0,
    {
        LinkPickerState { links, selected: 0 }
    }

    pub fn selected_link(&self) -> (r: Option<&LinkRef>)
        ensures
            self.selected < self.links@.len() ==> r == Some(&self.links@[self.selected as int]),
            self.selected >= self.links@.len() ==> r is None,
    {
        if self.selected < self.links.len() {
            Some(&self.links[self.selected])
        } else {
            None
        }
    }

    pub fn next(&mut self)
        ensures
            final(self).links == old(self).links,
            old(self).links@.len() == 0 ==> final(self).selected == old(self).selected,
            old(self).links@.len() > 0 ==> final(self).selected == (if old(self).selected + 1
                < old(self).links@.len() {
                old(self).selected + 1
            } else {
                old(self).links@.len() - 1
            }),
    {
        if self.links.len() > 0 {
            let last = self.links.len() - 1;
            self.selected = if self.selected < last {
                self.selected + 1
            } else {
                last
            };
        }
    }

    pub fn previous(&mut self)
        ensures
            final(self).links == old(self).links,
            final(self).selected == (if old(self).selected == 0 { 0 } else { old(self).selected - 1 }),
    {
        if self.selected > 0 {
            self.selected = self.selected - 1;
        }
    }
}

/// A thread (or quoted post) to load, and what to do with it once loaded.
#[derive(Debug, Clone, PartialEq, Eq)]
pub enum ThreadAction {
    OpenThread { selected_uri: String, title: String, kind: ViewKind },
    OpenQuote { quote: Box<QuotePost> },
    Reload { root_uri: String, selected_uri: Option<String> },
}

impl ThreadAction {
    pub open spec fn spec_root_uri(&self) -> Seq<char> {
        match self {
            ThreadAction::OpenThread { selected_uri, .. } => selected_uri@,
            ThreadAction::OpenQuote { quote } => quote.uri@,
            ThreadAction::Reload { root_uri, .. } => root_uri@,
        }
    }

    /// The post whose thread is fetched.
    pub fn root_uri(&self) -> (r: &str)
        ensures
            r@ == self.spec_root_uri(),
    {
        match self {
            ThreadAction::OpenThread { selected_uri, .. } => selected_uri.as_str(),
            ThreadAction::OpenQuote { quote } => quote.uri.as_str(),
            ThreadAction::Reload { root_uri, .. } => root_uri.as_str(),
        }
    }

    pub open spec fn spec_loading_status(&self) -> Seq<char> {
        match self {
            ThreadAction::OpenThread { .. } => "Loading thread"@,
            ThreadAction::OpenQuote { quote } => "Loading quoted post @"@ + quote.author_handle@
                + "..."@,
            ThreadAction::Reload { .. } => "Refreshing view"@,
        }
    }

    /// The status line shown while the load runs.
    pub fn loading_status(&self) -> (r: String)
        ensures
            r@ == self.spec_loading_status(),
    {
        match self {
            ThreadAction::OpenThread { .. } => "Loading thread".to_owned(),
            ThreadAction::OpenQuote { quote } => {
                let mut s = "Loading quoted post @".to_owned();
                push_str(&mut s, quote.author_handle.as_str());
                push_str(&mut s, "...");
                s
            },
            ThreadAction::Reload { .. } => "Refreshing view".to_owned(),
        }
    }
}

/// A reference to the post, usable for replies, quotes, likes and reposts; a post
/// without a content id has none.
pub fn post_ref_from_item(item: &FeedItem) -> (r: Option<PostRef>)
    ensures
        match item.cid {
            Some(cid) => r matches Some(p) && p.uri@ == item.uri@ && p.cid@ == cid@,
            None => r is None,
        },
{
    match &item.cid {
        Some(cid) => Some(PostRef { uri: item.uri.clone(), cid: cid.clone() }),
        None => None,
    }
}

/// The URI of the first post row, if any.
pub open spec fn first_post_uri(rows: Seq<ViewItem>) -> Option<Seq<char>>
    decreases rows.len(),
{
    if rows.len() == 0 {
        None
    } else {
        match rows[0] {
            ViewItem::Post(item) => Some(item.uri@),
            _ => first_post_uri(rows.drop_first()),
        }
    }
}

/// `uri` belongs to a post row of `rows` or to a pending post.
pub open spec fn is_known_uri(rows: Seq<ViewItem>, pending: Seq<FeedItem>, uri: Seq<char>) -> bool {
    (exists|i: int| 0 <= i < rows.len() && (#[trigger] rows[i]) is Post && rows[i].spec_uri() == uri)
        || (exists|j: int| 0 <= j < pending.len() && (#[trigger] pending[j]).uri@ == uri)
}

/// The posts of a refresh that come before the current top post and are not shown
/// or pending yet, each URI once, in refresh order.
pub open spec fn spec_new_items(
    rows: Seq<ViewItem>,
    pending: Seq<FeedItem>,
    refreshed: Seq<FeedItem>,
) -> Seq<FeedItem>
    decreases refreshed.len(),
{
    if refreshed.len() == 0 {
        Seq::empty()
    } else {
        let prev = spec_new_items(rows, pending, refreshed.drop_last());
        let item = refreshed.last();
        if stops_before(rows, refreshed.drop_last()) || Some(item.uri@) == first_post_uri(rows) {
            prev
        } else if is_known_uri(rows, pending, item.uri@) || (exists|j: int|
            0 <= j < prev.len() && (#[trigger] prev[j]).uri@ == item.uri@) {
            prev
        } else {
            prev.push(item)
        }
    }
}

/// The refresh reached the current top post somewhere in `seen`.
pub open spec fn stops_before(rows: Seq<ViewItem>, seen: Seq<FeedItem>) -> bool {
    exists|j: int| 0 <= j < seen.len() && Some((#[trigger] seen[j]).uri@) == first_post_uri(rows)
}

fn first_post_uri_exec(rows: &[ViewItem]) -> (r: Option<&str>)
    ensures
        match r {
            Some(s) => first_post_uri(rows@) == Some(s@),
            None => first_post_uri(rows@) is None,
        },
{
    let mut i: usize = 0;
    assert(rows@.skip(0) =~= rows@);
    while i < rows.len()
        invariant
            i <= rows@.len(),
            first_post_uri(rows@) == first_post_uri(rows@.skip(i as int)),
        decreases rows@.len() - i,
    {
        proof {
            assert(rows@.skip(i as int).drop_first() =~= rows@.skip(i + 1));
        }
        match &rows[i] {
            ViewItem::Post(item) => {
                return Some(item.uri.as_str());
            },
            _ => {},
        }
        i += 1;
    }
    assert(rows@.skip(i as int).len() == 0);
    None
}

fn uri_is_known(rows: &[ViewItem], pending: &[FeedItem], extra: &Vec<FeedItem>, uri: &str) -> (r:
    bool)
    ensures
        r == (is_known_uri(rows@, pending@, uri@) || exists|j: int|
            0 <= j < extra@.len() && (#[trigger] extra@[j]).uri@ == uri@),
{
    let mut i: usize = 0;
    while i < rows.len()
        invariant
            i <= rows@.len(),
            forall|k: int| 0 <= k < i ==> !((#[trigger] rows@[k]) is Post && rows@[k].spec_uri() == uri@),
        decreases rows@.len() - i,
    {
        match &rows[i] {
            ViewItem::Post(item) => {
                if crate::text::strings_equal(item.uri.as_str(), uri) {
                    return true;
                }
            },
            _ => {},
        }
        i += 1;
    }
    let mut j: usize = 0;
    while j < pending.len()
        invariant
            j <= pending@.len(),
            forall|k: int| 0 <= k < j ==> (#[trigger] pending@[k]).uri@ != uri@,
        decreases pending@.len() - j,
    {
        if crate::text::strings_equal(pending[j].uri.as_str(), uri) {
            return true;
        }
        j += 1;
    }
    let mut e: usize = 0;
    while e < extra.len()
        invariant
            e <= extra@.len(),
            forall|k: int| 0 <= k < e ==> (#[trigger] extra@[k]).uri@ != uri@,
        decreases extra@.len() - e,
    {
        if crate::text::strings_equal(extra[e].uri.as_str(), uri) {
            return true;
        }
        e += 1;
    }
    false
}

/// Position `j` of a refresh comes before the first occurrence of the shown top post.
pub open spec fn above_top(rows: Seq<ViewItem>, refreshed: Seq<FeedItem>, j: int) -> bool {
    forall|k: int| 0 <= k <= j ==> Some((#[trigger] refreshed[k]).uri@) != first_post_uri(rows)
}

proof fn lemma_above_top_prefix(rows: Seq<ViewItem>, refreshed: Seq<FeedItem>, j: int)
    requires
        0 <= j < refreshed.len() - 1,
    ensures
        above_top(rows, refreshed, j) == above_top(rows, refreshed.drop_last(), j),
{
    let init = refreshed.drop_last();
    assert forall|k: int| 0 <= k <= j implies refreshed[k] == init[k] by {}
    if above_top(rows, init, j) {
        assert forall|k: int| 0 <= k <= j implies Some((#[trigger] refreshed[k]).uri@) != first_post_uri(rows) by {
            assert(refreshed[k] == init[k]);
        }
    }
    if above_top(rows, refreshed, j) {
        assert forall|k: int| 0 <= k <= j implies Some((#[trigger] init[k]).uri@) != first_post_uri(rows) by {
            assert(refreshed[k] == init[k]);
        }
    }
}

/// The last post of a refresh is taken only while no earlier post was the top one.
proof fn lemma_last_above_top(rows: Seq<ViewItem>, refreshed: Seq<FeedItem>)
    requires
        refreshed.len() > 0,
    ensures
        above_top(rows, refreshed, refreshed.len() - 1) == !(stops_before(rows, refreshed.drop_last())
            || Some(refreshed.last().uri@) == first_post_uri(rows)),
{
    let init = refreshed.drop_last();
    let n = refreshed.len() - 1;
    if stops_before(rows, init) {
        let k = choose|k: int| 0 <= k < init.len() && Some((#[trigger] init[k]).uri@) == first_post_uri(rows);
        assert(refreshed[k] == init[k]);
    } else if Some(refreshed.last().uri@) != first_post_uri(rows) {
        assert forall|k: int| 0 <= k <= n implies Some((#[trigger] refreshed[k]).uri@) != first_post_uri(rows) by {
            if k < n {
                assert(refreshed[k] == init[k]);
                if Some(init[k].uri@) == first_post_uri(rows) {
                    assert(stops_before(rows, init));
                }
            }
        }
    }
}

/// Every new post of a refresh comes from above the current top post in the refresh
/// and is neither shown nor pending.
pub proof fn law_new_items_come_from_above_the_top(rows: Seq<ViewItem>, pending: Seq<FeedItem>, refreshed: Seq<FeedItem>)
    ensures
        forall|i: int| #![trigger spec_new_items(rows, pending, refreshed)[i]] 0 <= i < spec_new_items(rows, pending, refreshed).len() ==> exists|j: int|
            #![trigger refreshed[j]]
            0 <= j < refreshed.len() && refreshed[j] == spec_new_items(rows, pending, refreshed)[i]
                && above_top(rows, refreshed, j) && !is_known_uri(rows, pending, refreshed[j].uri@),
    decreases refreshed.len(),
{
    if refreshed.len() > 0 {
        let init = refreshed.drop_last();
        let n = refreshed.len() - 1;
        law_new_items_come_from_above_the_top(rows, pending, init);
        lemma_last_above_top(rows, refreshed);
        let prev = spec_new_items(rows, pending, init);
        let cur = spec_new_items(rows, pending, refreshed);
        assert forall|i: int| #![trigger cur[i]] 0 <= i < cur.len() implies exists|j: int|
            #![trigger refreshed[j]]
            0 <= j < refreshed.len() && refreshed[j] == cur[i]
                && above_top(rows, refreshed, j) && !is_known_uri(rows, pending, refreshed[j].uri@) by {
            if i < prev.len() {
                assert(cur[i] == prev[i]);
                let j = choose|j: int| #![trigger init[j]] 0 <= j < init.len() && init[j] == prev[i]
                    && above_top(rows, init, j) && !is_known_uri(rows, pending, init[j].uri@);
                assert(refreshed[j] == init[j]);
                lemma_above_top_prefix(rows, refreshed, j);
            } else {
                assert(cur[i] == refreshed[n]);
            }
        }
    }
}

/// No URI is among the new posts of a refresh twice.
pub proof fn law_new_items_are_distinct(rows: Seq<ViewItem>, pending: Seq<FeedItem>, refreshed: Seq<FeedItem>)
    ensures
        forall|a: int, b: int| 0 <= a < b < spec_new_items(rows, pending, refreshed).len() ==>
            (#[trigger] spec_new_items(rows, pending, refreshed)[a]).uri@
                != (#[trigger] spec_new_items(rows, pending, refreshed)[b]).uri@,
    decreases refreshed.len(),
{
    if refreshed.len() > 0 {
        let init = refreshed.drop_last();
        law_new_items_are_distinct(rows, pending, init);
        let prev = spec_new_items(rows, pending, init);
        let cur = spec_new_items(rows, pending, refreshed);
        assert forall|a: int, b: int| 0 <= a < b < cur.len() implies (#[trigger] cur[a]).uri@ != (#[trigger] cur[b]).uri@ by {
            assert(cur[a] == prev[a]);
            if b < prev.len() {
                assert(cur[b] == prev[b]);
            }
        }
    }
}

/// Every post of a refresh above the current top post that is neither shown nor
/// pending is among the new posts.
pub proof fn law_every_unknown_post_above_the_top_is_new(rows: Seq<ViewItem>, pending: Seq<FeedItem>, refreshed: Seq<FeedItem>)
    ensures
        forall|j: int| #![trigger refreshed[j]] 0 <= j < refreshed.len() && above_top(rows, refreshed, j)
            && !is_known_uri(rows, pending, refreshed[j].uri@) ==> exists|i: int|
                0 <= i < spec_new_items(rows, pending, refreshed).len()
                && (#[trigger] spec_new_items(rows, pending, refreshed)[i]).uri@ == refreshed[j].uri@,
    decreases refreshed.len(),
{
    if refreshed.len() > 0 {
        let init = refreshed.drop_last();
        let n = refreshed.len() - 1;
        law_every_unknown_post_above_the_top_is_new(rows, pending, init);
        lemma_last_above_top(rows, refreshed);
        let prev = spec_new_items(rows, pending, init);
        let cur = spec_new_items(rows, pending, refreshed);
        assert forall|j: int| #![trigger refreshed[j]] 0 <= j < refreshed.len() && above_top(rows, refreshed, j)
            && !is_known_uri(rows, pending, refreshed[j].uri@) implies exists|i: int|
                0 <= i < cur.len() && (#[trigger] cur[i]).uri@ == refreshed[j].uri@ by {
            if j < n {
                assert(refreshed[j] == init[j]);
                lemma_above_top_prefix(rows, refreshed, j);
                let i = choose|i: int| 0 <= i < prev.len() && (#[trigger] prev[i]).uri@ == init[j].uri@;
                assert(cur[i] == prev[i]);
            } else {
                let item = refreshed.last();
                if exists|i: int| 0 <= i < prev.len() && (#[trigger] prev[i]).uri@ == item.uri@ {
                    let i = choose|i: int| 0 <= i < prev.len() && (#[trigger] prev[i]).uri@ == item.uri@;
                    assert(cur[i] == prev[i]);
                } else {
                    assert(cur[prev.len() as int] == item);
                }
            }
        }
    }
}

/// The posts of a background refresh that are new: those above the current top post
/// that are neither shown nor already pending.
pub fn new_items_before_current(
    current_items: &[ViewItem],
    pending_items: &[FeedItem],
    refreshed_items: Vec<FeedItem>,
) -> (r: Vec<FeedItem>)
    ensures
        r@ == spec_new_items(current_items@, pending_items@, refreshed_items@),
{
    let first = first_post_uri_exec(current_items);
    let mut new_items: Vec<FeedItem> = Vec::new();
    let ghost all = refreshed_items@;
    let mut stopped = false;
    for item in it: refreshed_items
        invariant
            it.seq() == all,
            match first {
                Some(s) => first_post_uri(current_items@) == Some(s@),
                None => first_post_uri(current_items@) is None,
            },
            stopped == stops_before(current_items@, all.take(it.index() as int)),
            new_items@ == spec_new_items(current_items@, pending_items@, all.take(it.index() as int)),
    {
        let ghost prefix = all.take(it.index() as int);
        proof {
            assert(all.take(it.index() + 1).drop_last() =~= prefix);
            assert(all.take(it.index() + 1).last() == item);
        }
        let is_first = match first {
            Some(s) => crate::text::strings_equal(item.uri.as_str(), s),
            None => false,
        };
        if !stopped && !is_first {
            if !uri_is_known(current_items, pending_items, &new_items, item.uri.as_str()) {
                new_items.push(item);
            }
        }
        let ghost was_stopped = stopped;
        stopped = stopped || is_first;
        proof {
            let next = all.take(it.index() + 1);
            if is_first {
                assert(next[it.index() as int] == item);
                assert(stops_before(current_items@, next));
            } else if was_stopped {
                let j = choose|j: int| 0 <= j < prefix.len() && Some((#[trigger] prefix[j]).uri@) == first_post_uri(current_items@);
                assert(next[j] == prefix[j]);
            } else {
                assert forall|j: int| 0 <= j < next.len() implies Some((#[trigger] next[j]).uri@) != first_post_uri(current_items@) by {
                    if j < prefix.len() {
                        assert(next[j] == prefix[j]);
                    }
                }
            }
        }
    }
    assert(all.take(all.len() as int) =~= all);
    new_items
}

// ---------------------------------------------------------------------------
// Background requests

/// The kinds of background request of which at most one is awaited at a time; a
/// reply is applied only when it answers the request awaited for its kind.
#[derive(Debug, Clone, Copy, PartialEq, Eq, Structural)]
pub enum RequestKind {
    Feed,
    Pagination,
    Refresh,
    NotificationCount,
    Notifications,
    Thread,
    Profile,
    Account,
}

/// The requests in flight: the awaited request of each kind, the number of writes
/// in flight, and the id the next request gets.
#[derive(Debug, Clone, Copy, PartialEq, Eq, Structural)]
pub struct PendingRequests {
    pub next_request_id: u64,
    pub feed: Option<u64>,
    pub pagination: Option<u64>,
    pub refresh: Option<u64>,
    pub notification_count: Option<u64>,
    pub notifications: Option<u64>,
    pub thread: Option<u64>,
    pub profile: Option<u64>,
    pub account: Option<u64>,
    pub writes: usize,
}

impl PendingRequests {
    /// The request awaited for `kind`.
    pub open spec fn slot(self, kind: RequestKind) -> Option<u64> {
        match kind {
            RequestKind::Feed => self.feed,
            RequestKind::Pagination => self.pagination,
            RequestKind::Refresh => self.refresh,
            RequestKind::NotificationCount => self.notification_count,
            RequestKind::Notifications => self.notifications,
            RequestKind::Thread => self.thread,
            RequestKind::Profile => self.profile,
            RequestKind::Account => self.account,
        }
    }

    pub open spec fn with_slot(self, kind: RequestKind, v: Option<u64>) -> PendingRequests {
        match kind {
            RequestKind::Feed => PendingRequests { feed: v, ..self },
            RequestKind::Pagination => PendingRequests { pagination: v, ..self },
            RequestKind::Refresh => PendingRequests { refresh: v, ..self },
            RequestKind::NotificationCount => PendingRequests { notification_count: v, ..self },
            RequestKind::Notifications => PendingRequests { notifications: v, ..self },
            RequestKind::Thread => PendingRequests { thread: v, ..self },
            RequestKind::Profile => PendingRequests { profile: v, ..self },
            RequestKind::Account => PendingRequests { account: v, ..self },
        }
    }

    /// Starting a request of `kind`: it takes the next id (ids count up and stop at the
    /// largest `u64`) and becomes the awaited request of its kind.
    pub open spec fn spec_start(self, kind: RequestKind) -> (PendingRequests, u64) {
        let id = self.next_request_id;
        let next = if id < u64::MAX {
            (id + 1) as u64
        } else {
            id
        };
        (PendingRequests { next_request_id: next, ..self.with_slot(kind, Some(id)) }, id)
    }

    /// A reply to request `id` of `kind` is accepted when it is the awaited one, which
    /// then no longer is.
    pub open spec fn spec_finish(self, kind: RequestKind, id: u64) -> (PendingRequests, bool) {
        if self.slot(kind) == Some(id) {
            (self.with_slot(kind, None), true)
        } else {
            (self, false)
        }
    }

    pub open spec fn spec_has_pending_tasks(self) -> bool {
        self.feed is Some || self.pagination is Some || self.refresh is Some
            || self.notification_count is Some || self.notifications is Some || self.thread is Some
            || self.profile is Some || self.account is Some || self.writes > 0
    }

    /// Nothing in flight; the first request gets id 1.
    pub fn new() -> (r: PendingRequests)
        ensures
            r.next_request_id == 1,
            !r.spec_has_pending_tasks(),
    {
        PendingRequests {
            next_request_id: 1,
            feed: None,
            pagination: None,
            refresh: None,
            notification_count: None,
            notifications: None,
            thread: None,
            profile: None,
            account: None,
            writes: 0,
        }
    }

    fn set_slot(&mut self, kind: RequestKind, v: Option<u64>)
        ensures
            *final(self) == old(self).with_slot(kind, v),
    {
        match kind {
            RequestKind::Feed => self.feed = v,
            RequestKind::Pagination => self.pagination = v,
            RequestKind::Refresh => self.refresh = v,
            RequestKind::NotificationCount => self.notification_count = v,
            RequestKind::Notifications => self.notifications = v,
            RequestKind::Thread => self.thread = v,
            RequestKind::Profile => self.profile = v,
            RequestKind::Account => self.account = v,
        }
    }

    pub fn slot_of(&self, kind: RequestKind) -> (r: Option<u64>)
        ensures
            r == self.slot(kind),
    {
        match kind {
            RequestKind::Feed => self.feed,
            RequestKind::Pagination => self.pagination,
            RequestKind::Refresh => self.refresh,
            RequestKind::NotificationCount => self.notification_count,
            RequestKind::Notifications => self.notifications,
            RequestKind::Thread => self.thread,
            RequestKind::Profile => self.profile,
            RequestKind::Account => self.account,
        }
    }

    /// Starts a request of `kind` and returns its id.
    pub fn start(&mut self, kind: RequestKind) -> (id: u64)
        ensures
            (*final(self), id) == old(self).spec_start(kind),
    {
        let id = self.next_request_id;
        self.next_request_id = self.next_request_id.saturating_add(1);
        self.set_slot(kind, Some(id));
        id
    }

    /// Takes in the reply to request `id` of `kind`; reports whether it is to be applied.
    pub fn finish(&mut self, kind: RequestKind, id: u64) -> (accepted: bool)
        ensures
            (*final(self), accepted) == old(self).spec_finish(kind, id),
    {
        if self.slot_of(kind) == Some(id) {
            self.set_slot(kind, None);
            true
        } else {
            false
        }
    }

    /// A write (like, repost, post) starts.
    pub fn begin_write(&mut self)
        ensures
            *final(self) == (PendingRequests {
                writes: if old(self).writes < usize::MAX {
                    (old(self).writes + 1) as usize
                } else {
                    old(self).writes
                },
                ..*old(self)
            }),
    {
        self.writes = self.writes.saturating_add(1);
    }

    /// A write completes.
    pub fn end_write(&mut self)
        ensures
            *final(self) == (PendingRequests {
                writes: if old(self).writes > 0 {
                    (old(self).writes - 1) as usize
                } else {
                    0
                },
                ..*old(self)
            }),
    {
        self.writes = self.writes.saturating_sub(1);
    }

    pub fn has_pending_tasks(&self) -> (r: bool)
        ensures
            r == self.spec_has_pending_tasks(),
    {
        self.feed.is_some() || self.pagination.is_some() || self.refresh.is_some()
            || self.notification_count.is_some() || self.notifications.is_some()
            || self.thread.is_some() || self.profile.is_some() || self.account.is_some()
            || self.writes > 0
    }

    pub open spec fn spec_pending_task_label(self) -> Option<Seq<char>> {
        if self.account is Some {
            Some("Switching account"@)
        } else if self.feed is Some {
            Some("Loading feed"@)
        } else if self.thread is Some {
            Some("Loading thread"@)
        } else if self.profile is Some {
            Some("Loading profile"@)
        } else if self.notifications is Some {
            Some("Loading notifications"@)
        } else if self.pagination is Some {
            Some("Loading more"@)
        } else if self.writes > 0 {
            Some("Writing"@)
        } else if self.refresh is Some {
            Some("Refreshing"@)
        } else if self.notification_count is Some {
            Some("Checking notifications"@)
        } else {
            None
        }
    }

    /// What the status line says is running, the most important task first.
    pub fn pending_task_label(&self) -> (r: Option<&'static str>)
        ensures
            match r {
                Some(s) => self.spec_pending_task_label() == Some(s@),
                None => self.spec_pending_task_label() is None,
            },
    {
        if self.account.is_some() {
            Some("Switching account")
        } else if self.feed.is_some() {
            Some("Loading feed")
        } else if self.thread.is_some() {
            Some("Loading thread")
        } else if self.profile.is_some() {
            Some("Loading profile")
        } else if self.notifications.is_some() {
            Some("Loading notifications")
        } else if self.pagination.is_some() {
            Some("Loading more")
        } else if self.writes > 0 {
            Some("Writing")
        } else if self.refresh.is_some() {
            Some("Refreshing")
        } else if self.notification_count.is_some() {
            Some("Checking notifications")
        } else {
            None
        }
    }
}

/// The reply to a request just started is applied, and only once.
pub proof fn law_reply_applied_once(p: PendingRequests, kind: RequestKind)
    ensures
        ({
            let (started, id) = p.spec_start(kind);
            let (finished, accepted) = started.spec_finish(kind, id);
            &&& accepted
            &&& !finished.spec_finish(kind, id).1
        }),
{
}

/// A newer request of the same kind makes the reply to the older one stale, as long as
/// the ids have not run out.
pub proof fn law_newer_request_supersedes(p: PendingRequests, kind: RequestKind)
    requires
        p.next_request_id < u64::MAX,
    ensures
        ({
            let (first, old_id) = p.spec_start(kind);
            let (second, new_id) = first.spec_start(kind);
            &&& !second.spec_finish(kind, old_id).1
            &&& second.spec_finish(kind, new_id).1
        }),
{
}

/// Replies of one kind never touch the request awaited for another kind.
pub proof fn law_kinds_are_independent(p: PendingRequests, kind: RequestKind, other: RequestKind, id: u64)
    requires
        kind != other,
    ensures
        p.spec_finish(kind, id).0.slot(other) == p.slot(other),
        p.spec_start(kind).0.slot(other) == p.slot(other),
{
}

// ---------------------------------------------------------------------------
// Keys in an overlay

impl PostRef {
    /// A field-by-field copy.
    pub fn duplicate(&self) -> (r: PostRef)
        ensures
            r == *self,
    {
        PostRef { uri: self.uri.clone(), cid: self.cid.clone() }
    }
}

impl ComposerState {
    /// A field-by-field copy.
    pub fn duplicate(&self) -> (r: ComposerState)
        ensures
            r == *self,
    {
        let kind = match &self.kind {
            ComposerKind::Post => ComposerKind::Post,
            ComposerKind::Reply { root, parent, parent_handle } => ComposerKind::Reply {
                root: root.duplicate(),
                parent: parent.duplicate(),
                parent_handle: parent_handle.clone(),
            },
            ComposerKind::Quote { quote, quote_handle } => ComposerKind::Quote {
                quote: quote.duplicate(),
                quote_handle: quote_handle.clone(),
            },
        };
        ComposerState { kind, buffer: self.buffer.clone() }
    }
}

/// What the client does after a key in an overlay, besides the overlay's own change.
#[derive(Debug, Clone, PartialEq, Eq)]
pub enum OverlayCommand {
    Nothing,
    Close,
    SwitchAccount(isize),
    SwitchFeed(isize),
    OpenLink(Option<LinkRef>),
    OpenUri(Option<String>),
    PlayVideo(Option<PreviewVideo>),
    SubmitComposer(Option<ComposerState>),
}

impl MediaOverlayState {
    pub open spec fn spec_next(self) -> MediaOverlayState {
        if self.media@.len() == 0 {
            self
        } else {
            MediaOverlayState {
                selected: if self.selected + 1 < self.media@.len() {
                    (self.selected + 1) as usize
                } else {
                    (self.media@.len() - 1) as usize
                },
                playing: false,
                ..self
            }
        }
    }

    pub open spec fn spec_previous(self) -> MediaOverlayState {
        MediaOverlayState {
            selected: if self.selected == 0 {
                0
            } else {
                (self.selected - 1) as usize
            },
            playing: false,
            ..self
        }
    }

    /// The selected item when it is a video.
    pub open spec fn selected_video(self) -> Option<PreviewVideo> {
        if self.selected < self.media@.len() {
            match self.media@[self.selected as int] {
                PreviewMedia::Video(v) => Some(v),
                _ => None,
            }
        } else {
            None
        }
    }
}

impl LinkPickerState {
    pub open spec fn spec_next(self) -> LinkPickerState {
        if self.links@.len() == 0 {
            self
        } else {
            LinkPickerState {
                selected: if self.selected + 1 < self.links@.len() {
                    (self.selected + 1) as usize
                } else {
                    (self.links@.len() - 1) as usize
                },
                ..self
            }
        }
    }

    pub open spec fn spec_previous(self) -> LinkPickerState {
        LinkPickerState {
            selected: if self.selected == 0 {
                0
            } else {
                (self.selected - 1) as usize
            },
            ..self
        }
    }

    pub open spec fn spec_selected_link(self) -> Option<LinkRef> {
        if self.selected < self.links@.len() {
            Some(self.links@[self.selected as int])
        } else {
            None
        }
    }
}

/// The menu: Esc, ?, Enter and q close it; j/k (or arrows) change the section; Tab
/// and Shift-Tab switch account or feed in those sections and change the section
/// elsewhere; [ and ] switch feed.
pub open spec fn menu_key_rel(m: MenuState, key: KeyEvent, after: Option<Overlay>, cmd: OverlayCommand) -> bool {
    let same = after == Some(Overlay::Menu(m)) && cmd == OverlayCommand::Nothing;
    match key.code {
        KeyCode::Esc | KeyCode::Char('?') | KeyCode::Enter | KeyCode::Char('q') => after is None && cmd
            == OverlayCommand::Close,
        KeyCode::Char('j') | KeyCode::Down => after == Some(Overlay::Menu(MenuState { section: m.section.spec_next() }))
            && cmd == OverlayCommand::Nothing,
        KeyCode::Char('k') | KeyCode::Up => after == Some(Overlay::Menu(MenuState { section: m.section.spec_previous() }))
            && cmd == OverlayCommand::Nothing,
        KeyCode::Tab | KeyCode::BackTab => {
            let delta: isize = if key.code == KeyCode::BackTab { -1isize } else { 1isize };
            match m.section {
                MenuSection::Accounts => after == Some(Overlay::Menu(m)) && cmd == OverlayCommand::SwitchAccount(delta),
                MenuSection::Feeds => after == Some(Overlay::Menu(m)) && cmd == OverlayCommand::SwitchFeed(delta),
                _ => after == Some(
                    Overlay::Menu(
                        MenuState {
                            section: if delta > 0 {
                                m.section.spec_next()
                            } else {
                                m.section.spec_previous()
                            },
                        },
                    ),
                ) && cmd == OverlayCommand::Nothing,
            }
        },
        KeyCode::Char('[') => after == Some(Overlay::Menu(m)) && cmd == OverlayCommand::SwitchFeed(-1isize),
        KeyCode::Char(']') => after == Some(Overlay::Menu(m)) && cmd == OverlayCommand::SwitchFeed(1isize),
        _ => same,
    }
}

/// The media overlay: Esc, Space and q close it; h/l (or arrows) move; Enter and p
/// play the selected video; u opens its playlist externally.
pub open spec fn media_key_rel(m: MediaOverlayState, key: KeyEvent, after: Option<Overlay>, cmd: OverlayCommand) -> bool {
    match key.code {
        KeyCode::Esc | KeyCode::Char(' ') | KeyCode::Char('q') => after is None && cmd == OverlayCommand::Close,
        KeyCode::Char('h') | KeyCode::Left => after == Some(Overlay::Media(m.spec_previous())) && cmd
            == OverlayCommand::Nothing,
        KeyCode::Char('l') | KeyCode::Right => after == Some(Overlay::Media(m.spec_next())) && cmd
            == OverlayCommand::Nothing,
        KeyCode::Enter | KeyCode::Char('p') => match m.selected_video() {
            Some(v) => after == Some(Overlay::Media(MediaOverlayState { playing: true, ..m })) && cmd
                == OverlayCommand::PlayVideo(Some(v)),
            None => after == Some(Overlay::Media(m)) && cmd == OverlayCommand::PlayVideo(None),
        },
        KeyCode::Char('u') => after == Some(Overlay::Media(m)) && match m.selected_video() {
            Some(v) => cmd matches OverlayCommand::OpenUri(Some(u)) && u@ == v.playlist_url@,
            None => cmd == OverlayCommand::OpenUri(None),
        },
        _ => after == Some(Overlay::Media(m)) && cmd == OverlayCommand::Nothing,
    }
}

/// The link picker: Esc and q close it; j/k (or arrows) move; Enter and u open the
/// selected link.
pub open spec fn links_key_rel(l: LinkPickerState, key: KeyEvent, after: Option<Overlay>, cmd: OverlayCommand) -> bool {
    match key.code {
        KeyCode::Esc | KeyCode::Char('q') => after is None && cmd == OverlayCommand::Close,
        KeyCode::Char('j') | KeyCode::Down => after == Some(Overlay::Links(l.spec_next())) && cmd
            == OverlayCommand::Nothing,
        KeyCode::Char('k') | KeyCode::Up => after == Some(Overlay::Links(l.spec_previous())) && cmd
            == OverlayCommand::Nothing,
        KeyCode::Enter | KeyCode::Char('u') => after == Some(Overlay::Links(l)) && cmd
            == OverlayCommand::OpenLink(l.spec_selected_link()),
        _ => after == Some(Overlay::Links(l)) && cmd == OverlayCommand::Nothing,
    }
}

/// The composer: Esc cancels; Ctrl-S submits; Enter adds a newline; Backspace
/// deletes the last character; a character typed without modifiers, or with Shift
/// only, is added.
pub open spec fn composer_key_rel(c: ComposerState, key: KeyEvent, after: Option<Overlay>, cmd: OverlayCommand) -> bool {
    let edited = |buffer: Seq<char>|
        after matches Some(Overlay::Composer(c2)) && c2.kind == c.kind && c2.buffer@ == buffer && cmd
            == OverlayCommand::Nothing;
    match key.code {
        KeyCode::Esc => after is None && cmd == OverlayCommand::Close,
        KeyCode::Char('s') if key.modifiers.spec_contains(KeyModifiers { bits: CONTROL_BITS }) => after
            == Some(Overlay::Composer(c)) && cmd == OverlayCommand::SubmitComposer(Some(c)),
        KeyCode::Enter => edited(c.buffer@.push('\n')),
        KeyCode::Backspace => edited(
            if c.buffer@.len() == 0 {
                c.buffer@
            } else {
                c.buffer@.drop_last()
            },
        ),
        KeyCode::Char(ch) => if key.modifiers.bits == 0 || key.modifiers.bits == SHIFT_BITS {
            edited(c.buffer@.push(ch))
        } else {
            after == Some(Overlay::Composer(c)) && cmd == OverlayCommand::Nothing
        },
        _ => after == Some(Overlay::Composer(c)) && cmd == OverlayCommand::Nothing,
    }
}

pub open spec fn overlay_key_rel(before: Option<Overlay>, key: KeyEvent, after: Option<Overlay>, cmd: OverlayCommand) -> bool {
    match before {
        None => after is None && cmd == OverlayCommand::Nothing,
        Some(Overlay::Menu(m)) => menu_key_rel(m, key, after, cmd),
        Some(Overlay::Media(m)) => media_key_rel(m, key, after, cmd),
        Some(Overlay::Links(l)) => links_key_rel(l, key, after, cmd),
        Some(Overlay::Composer(c)) => composer_key_rel(c, key, after, cmd),
    }
}

fn menu_key(m: MenuState, key: KeyEvent) -> (r: (Option<Overlay>, OverlayCommand))
    ensures
        menu_key_rel(m, key, r.0, r.1),
{
    let mut m = m;
    match key.code {
        KeyCode::Esc | KeyCode::Char('?') | KeyCode::Enter | KeyCode::Char('q') => (None, OverlayCommand::Close),
        KeyCode::Char('j') | KeyCode::Down => {
            m.next();
            (Some(Overlay::Menu(m)), OverlayCommand::Nothing)
        },
        KeyCode::Char('k') | KeyCode::Up => {
            m.previous();
            (Some(Overlay::Menu(m)), OverlayCommand::Nothing)
        },
        KeyCode::Tab | KeyCode::BackTab => {
            let reverse = match key.code {
                KeyCode::BackTab => true,
                _ => false,
            };
            match menu_tab_action(m.section, reverse) {
                MenuTabAction::MoveSection(delta) => {
                    if delta > 0 {
                        m.next();
                    } else {
                        m.previous();
                    }
                    (Some(Overlay::Menu(m)), OverlayCommand::Nothing)
                },
                MenuTabAction::SwitchAccount(delta) => (Some(Overlay::Menu(m)), OverlayCommand::SwitchAccount(delta)),
                MenuTabAction::SwitchFeed(delta) => (Some(Overlay::Menu(m)), OverlayCommand::SwitchFeed(delta)),
            }
        },
        KeyCode::Char('[') => (Some(Overlay::Menu(m)), OverlayCommand::SwitchFeed(-1)),
        KeyCode::Char(']') => (Some(Overlay::Menu(m)), OverlayCommand::SwitchFeed(1)),
        _ => (Some(Overlay::Menu(m)), OverlayCommand::Nothing),
    }
}

fn media_key(m: MediaOverlayState, key: KeyEvent) -> (r: (Option<Overlay>, OverlayCommand))
    ensures
        media_key_rel(m, key, r.0, r.1),
{
    let mut m = m;
    match key.code {
        KeyCode::Esc | KeyCode::Char(' ') | KeyCode::Char('q') => (None, OverlayCommand::Close),
        KeyCode::Char('h') | KeyCode::Left => {
            m.previous();
            (Some(Overlay::Media(m)), OverlayCommand::Nothing)
        },
        KeyCode::Char('l') | KeyCode::Right => {
            m.next();
            (Some(Overlay::Media(m)), OverlayCommand::Nothing)
        },
        KeyCode::Enter | KeyCode::Char('p') => {
            let video = match m.selected_media() {
                Some(PreviewMedia::Video(v)) => Some(v.duplicate()),
                _ => None,
            };
            if video.is_some() {
                m.playing = true;
            }
            (Some(Overlay::Media(m)), OverlayCommand::PlayVideo(video))
        },
        KeyCode::Char('u') => {
            let uri = match m.selected_media() {
                Some(PreviewMedia::Video(v)) => Some(v.playlist_url.clone()),
                _ => None,
            };
            (Some(Overlay::Media(m)), OverlayCommand::OpenUri(uri))
        },
        _ => (Some(Overlay::Media(m)), OverlayCommand::Nothing),
    }
}

fn links_key(l: LinkPickerState, key: KeyEvent) -> (r: (Option<Overlay>, OverlayCommand))
    ensures
        links_key_rel(l, key, r.0, r.1),
{
    let mut l = l;
    match key.code {
        KeyCode::Esc | KeyCode::Char('q') => (None, OverlayCommand::Close),
        KeyCode::Char('j') | KeyCode::Down => {
            l.next();
            (Some(Overlay::Links(l)), OverlayCommand::Nothing)
        },
        KeyCode::Char('k') | KeyCode::Up => {
            l.previous();
            (Some(Overlay::Links(l)), OverlayCommand::Nothing)
        },
        KeyCode::Enter | KeyCode::Char('u') => {
            let link = match l.selected_link() {
                Some(link) => Some(link.duplicate()),
                None => None,
            };
            (Some(Overlay::Links(l)), OverlayCommand::OpenLink(link))
        },
        _ => (Some(Overlay::Links(l)), OverlayCommand::Nothing),
    }
}

fn composer_key(c: ComposerState, key: KeyEvent) -> (r: (Option<Overlay>, OverlayCommand))
    ensures
        composer_key_rel(c, key, r.0, r.1),
{
    let mut c = c;
    match key.code {
        KeyCode::Esc => (None, OverlayCommand::Close),
        KeyCode::Char('s') if key.modifiers.contains(KeyModifiers::control()) => {
            let submitted = c.duplicate();
            (Some(Overlay::Composer(c)), OverlayCommand::SubmitComposer(Some(submitted)))
        },
        KeyCode::Enter => {
            push_char(&mut c.buffer, '\n');
            (Some(Overlay::Composer(c)), OverlayCommand::Nothing)
        },
        KeyCode::Backspace => {
            let _ = pop_char(&mut c.buffer);
            (Some(Overlay::Composer(c)), OverlayCommand::Nothing)
        },
        KeyCode::Char(ch) => {
            if key.modifiers.is_empty() || key.modifiers == KeyModifiers::shift() {
                push_char(&mut c.buffer, ch);
            }
            (Some(Overlay::Composer(c)), OverlayCommand::Nothing)
        },
        _ => (Some(Overlay::Composer(c)), OverlayCommand::Nothing),
    }
}

/// Applies a key to the open overlay (closing it where the key
/// closes it) and returns what the client does next.
pub fn handle_overlay_key(overlay: &mut Option<Overlay>, key: KeyEvent) -> (cmd: OverlayCommand)
    ensures
        overlay_key_rel(*old(overlay), key, *final(overlay), cmd),
{
    let mut current: Option<Overlay> = None;
    std::mem::swap(&mut current, overlay);
    let (after, cmd) = match current {
        None => (None, OverlayCommand::Nothing),
        Some(Overlay::Menu(m)) => menu_key(m, key),
        Some(Overlay::Media(m)) => media_key(m, key),
        Some(Overlay::Links(l)) => links_key(l, key),
        Some(Overlay::Composer(c)) => composer_key(c, key),
    };
    *overlay = after;
    cmd
}

// ---------------------------------------------------------------------------
// Composing, paging and feed switching

/// Why a post cannot be sent.
#[derive(Debug, Clone, Copy, PartialEq, Eq, Structural)]
pub enum ComposeError {
    Empty,
    TooLong,
}

impl ComposeError {
    pub fn message(self) -> (r: &'static str)
        ensures
            r@ == match self {
                ComposeError::Empty => "Post text is empty"@,
                ComposeError::TooLong => "Post is over 300 characters"@,
            },
    {
        match self {
            ComposeError::Empty => "Post text is empty",
            ComposeError::TooLong => "Post is over 300 characters",
        }
    }
}

/// The text of a post to send: the composer's text without surrounding whitespace,
/// which must be present and at most 300 characters long.
pub fn check_post_text(buffer: &str) -> (r: Result<String, ComposeError>)
    ensures
        match r {
            Ok(text) => text@ == trim(buffer@) && 0 < text@.len() <= 300,
            Err(ComposeError::Empty) => trim(buffer@).len() == 0,
            Err(ComposeError::TooLong) => trim(buffer@).len() > 300,
        },
{
    let text = trim_string(buffer);
    let n = chars_of(text.as_str()).len();
    if n == 0 {
        Err(ComposeError::Empty)
    } else if n > 300 {
        Err(ComposeError::TooLong)
    } else {
        Ok(text)
    }
}

/// The reply and quote targets of a composed post.
pub fn post_targets(kind: ComposerKind) -> (r: (Option<(PostRef, PostRef)>, Option<PostRef>))
    ensures
        match kind {
            ComposerKind::Post => r.0 is None && r.1 is None,
            ComposerKind::Reply { root, parent, .. } => r.0 == Some((root, parent)) && r.1 is None,
            ComposerKind::Quote { quote, .. } => r.0 is None && r.1 == Some(quote),
        },
{
    match kind {
        ComposerKind::Post => (None, None),
        ComposerKind::Reply { root, parent, .. } => (Some((root, parent)), None),
        ComposerKind::Quote { quote, .. } => (None, Some(quote)),
    }
}

proof fn lemma_cycle_back(c: int, delta: int, len: int)
    requires
        len > 0,
        delta < 0,
        c >= 0,
    ensures
        (c % len + len - ((-delta) % len)) % len == (c + delta) % len,
{
    let d_all = -delta;
    let q = d_all / len;
    let d = d_all % len;
    let p = c / len;
    let c1 = c % len;
    vstd::arithmetic::div_mod::lemma_fundamental_div_mod(d_all, len);
    vstd::arithmetic::div_mod::lemma_fundamental_div_mod(c, len);
    assert(c + delta == len * (p - q - 1) + (c1 + len - d)) by (nonlinear_arith)
        requires
            d_all == len * q + d,
            c == len * p + c1,
            d_all == -delta,
    ;
    vstd::arithmetic::div_mod::lemma_mod_multiples_vanish(p - q - 1, c1 + len - d, len);
}

/// The position `delta` steps from `current` in a ring of `len` places
/// (`(current + delta).rem_euclid(len)`).
pub fn cycle_index(current: usize, delta: isize, len: usize) -> (r: usize)
    requires
        len > 0,
    ensures
        r == (current + delta) % (len as int),
{
    let m = len as u128;
    if delta >= 0 {
        let r = ((current as u128) + (delta as u128)) % m;
        r as usize
    } else {
        let back = ((-(delta as i128)) as u128) % m;
        let r = ((current as u128) % m + m - back) % m;
        proof {
            lemma_cycle_back(current as int, delta as int, len as int);
        }
        r as usize
    }
}

/// Whether scrolling has come near enough to the end of the timeline to load the next
/// page: it has a cursor, is not loading, and the selection is within five rows of
/// the end.
pub open spec fn spec_should_load_more(view: ViewState) -> bool {
    &&& view.kind == ViewKind::Timeline
    &&& view.cursor is Some
    &&& !view.loading
    &&& view.selected + 5 >= view.items@.len()
}

pub fn should_load_more(view: &ViewState) -> (r: bool)
    ensures
        r == spec_should_load_more(*view),
        r ==> view.selected + 5 >= view.items@.len(),
        r ==> view.kind == ViewKind::Timeline && view.cursor is Some && !view.loading,
        view.kind == ViewKind::Timeline && view.cursor is Some && !view.loading && view.selected + 5 >= view.items@.len() ==> r,
{
    let is_timeline = match view.kind {
        ViewKind::Timeline => true,
        _ => false,
    };
    is_timeline && view.cursor.is_some() && !view.loading && view.selected.saturating_add(5) >= view.items.len()
}

/// The next page is asked for only near the end of a timeline that has one, when
/// none is loading: the selection is within five rows of the last post. And it is asked
/// for whenever that holds.
pub proof fn law_load_more_only_near_the_end(view: ViewState)
    ensures
        spec_should_load_more(view) ==> view.selected + 5 >= view.items@.len(),
        spec_should_load_more(view) <==> (view.kind == ViewKind::Timeline && view.cursor is Some && !view.loading
            && view.selected + 5 >= view.items@.len()),
{
}


/// Puts the posts found by a background refresh on top of
/// the timeline and selects the first one; returns the status to show.
pub fn merge_pending_new_items(view: &mut ViewState, pending: &mut Vec<FeedItem>, explicit: bool) -> (status: Option<String>)
    ensures
        old(pending)@.len() == 0 || old(view).kind != ViewKind::Timeline ==> {
            &&& *final(view) == *old(view)
            &&& final(pending)@ == old(pending)@
            &&& if explicit {
                status matches Some(s) && s@ == "No pending posts"@
            } else {
                status is None
            }
        },
        old(pending)@.len() > 0 && old(view).kind == ViewKind::Timeline ==> {
            &&& final(view).items@ == post_rows(old(pending)@) + old(view).items@
            &&& final(view).selected == 0
            &&& final(view).scroll == 0
            &&& final(view).layout_cache.is_cleared()
            &&& *final(view) == (ViewState {
                items: final(view).items,
                layout_cache: final(view).layout_cache,
                selected: 0,
                scroll: 0,
                ..*old(view)
            })
            &&& final(pending)@.len() == 0
            &&& status matches Some(s) && s@ == "Loaded "@ + decimal(old(pending)@.len()) + " new posts"@
        },
{
    let is_timeline = match view.kind {
        ViewKind::Timeline => true,
        _ => false,
    };
    if pending.len() == 0 || !is_timeline {
        return if explicit {
            Some("No pending posts".to_owned())
        } else {
            None
        };
    }
    let count = pending.len();
    let mut taken: Vec<FeedItem> = Vec::new();
    std::mem::swap(&mut taken, pending);
    view.prepend_posts(taken);
    view.selected = 0;
    view.scroll = 0;
    let mut status = "Loaded ".to_owned();
    push_decimal(&mut status, count as u64);
    push_str(&mut status, " new posts");
    Some(status)
}

// ---------------------------------------------------------------------------
// Results of background work

/// A completed write.
#[derive(Debug, Clone, PartialEq, Eq)]
pub enum WriteResult {
    Like { target_uri: String, liked: bool, record_uri: Option<String> },
    Repost { target_uri: String, reposted: bool, record_uri: Option<String> },
    Posted { uri: String },
}

pub open spec fn sat_inc(n: u64) -> u64 {
    if n < u64::MAX {
        (n + 1) as u64
    } else {
        n
    }
}

pub open spec fn sat_dec(n: u64) -> u64 {
    if n > 0 {
        (n - 1) as u64
    } else {
        0
    }
}

/// A post after the viewer's like of `target` was made (`liked`, with its record) or
/// removed: the count follows when the viewer's like appears or disappears.
pub open spec fn like_applied(item: FeedItem, target: Seq<char>, liked: bool, record: Option<String>) -> FeedItem {
    if item.uri@ != target {
        item
    } else if liked {
        FeedItem {
            like_count: if item.viewer_like is None {
                sat_inc(item.like_count)
            } else {
                item.like_count
            },
            viewer_like: record,
            ..item
        }
    } else {
        FeedItem {
            like_count: if item.viewer_like is Some {
                sat_dec(item.like_count)
            } else {
                item.like_count
            },
            viewer_like: None,
            ..item
        }
    }
}

/// The same for a repost.
pub open spec fn repost_applied(item: FeedItem, target: Seq<char>, reposted: bool, record: Option<String>) -> FeedItem {
    if item.uri@ != target {
        item
    } else if reposted {
        FeedItem {
            repost_count: if item.viewer_repost is None {
                sat_inc(item.repost_count)
            } else {
                item.repost_count
            },
            viewer_repost: record,
            ..item
        }
    } else {
        FeedItem {
            repost_count: if item.viewer_repost is Some {
                sat_dec(item.repost_count)
            } else {
                item.repost_count
            },
            viewer_repost: None,
            ..item
        }
    }
}

pub fn apply_like(item: FeedItem, target: &str, liked: bool, record: &Option<String>) -> (r: FeedItem)
    ensures
        r == like_applied(item, target@, liked, *record),
{
    let mut item = item;
    if crate::text::strings_equal(item.uri.as_str(), target) {
        if liked {
            if item.viewer_like.is_none() {
                item.like_count = item.like_count.saturating_add(1);
            }
            item.viewer_like = clone_text(record);
        } else {
            if item.viewer_like.is_some() {
                item.like_count = item.like_count.saturating_sub(1);
            }
            item.viewer_like = None;
        }
    }
    item
}

pub fn apply_repost(item: FeedItem, target: &str, reposted: bool, record: &Option<String>) -> (r: FeedItem)
    ensures
        r == repost_applied(item, target@, reposted, *record),
{
    let mut item = item;
    if crate::text::strings_equal(item.uri.as_str(), target) {
        if reposted {
            if item.viewer_repost.is_none() {
                item.repost_count = item.repost_count.saturating_add(1);
            }
            item.viewer_repost = clone_text(record);
        } else {
            if item.viewer_repost.is_some() {
                item.repost_count = item.repost_count.saturating_sub(1);
            }
            item.viewer_repost = None;
        }
    }
    item
}

/// Shows a completed write in every open view and returns the
/// status to show and whether the feed is due for a refresh (after a new post).
pub fn apply_write_result(nav: &mut NavigationStack, result: Result<WriteResult, String>) -> (r: (String, bool))
    requires
        old(nav).wf(),
    ensures
        final(nav).wf(),
        match result {
            Ok(WriteResult::Like { target_uri, liked, record_uri }) => {
                &&& final(nav).stack().len() == old(nav).stack().len()
                &&& forall|i: int| 0 <= i < old(nav).stack().len() ==> view_updated(
                    #[trigger] old(nav).stack()[i],
                    final(nav).stack()[i],
                    |item: FeedItem| like_applied(item, target_uri@, liked, record_uri),
                )
                &&& r.0@ == if liked { "Liked post"@ } else { "Removed like"@ }
                &&& !r.1
            },
            Ok(WriteResult::Repost { target_uri, reposted, record_uri }) => {
                &&& final(nav).stack().len() == old(nav).stack().len()
                &&& forall|i: int| 0 <= i < old(nav).stack().len() ==> view_updated(
                    #[trigger] old(nav).stack()[i],
                    final(nav).stack()[i],
                    |item: FeedItem| repost_applied(item, target_uri@, reposted, record_uri),
                )
                &&& r.0@ == if reposted { "Reposted"@ } else { "Removed repost"@ }
                &&& !r.1
            },
            Ok(WriteResult::Posted { uri }) => {
                &&& final(nav).stack() == old(nav).stack()
                &&& r.0@ == "Posted "@ + uri@
                &&& r.1
            },
            Err(e) => {
                &&& final(nav).stack() == old(nav).stack()
                &&& r.0@ == "Write failed: "@ + e@
                &&& !r.1
            },
        },
{
    match result {
        Ok(WriteResult::Like { target_uri, liked, record_uri }) => {
            let target = target_uri.as_str();
            let record = &record_uri;
            let update = |item: FeedItem| -> (out: FeedItem)
                ensures
                    out == like_applied(item, target@, liked, *record),
                { apply_like(item, target, liked, record) };
            let ghost before = nav.stack();
            nav.for_each_item_mut(update);
            proof {
                let g = |item: FeedItem| like_applied(item, target_uri@, liked, record_uri);
                assert forall|i: int| 0 <= i < before.len() implies view_updated(#[trigger] before[i], nav.stack()[i], g) by {
                    assert(view_mapped(before[i], nav.stack()[i], update));
                    assert forall|k: int| 0 <= k < before[i].items@.len() implies (#[trigger] nav.stack()[i].items@[k]) == match before[i].items@[k] {
                        ViewItem::Post(p) => ViewItem::Post(Box::new(g(*p))),
                        ViewItem::Notification(n) => ViewItem::Notification(n),
                    } by {
                        assert(crate::navigation::row_mapped(before[i].items@[k], nav.stack()[i].items@[k], update));
                    }
                }
            }
            let status = if liked {
                "Liked post"
            } else {
                "Removed like"
            };
            (status.to_owned(), false)
        },
        Ok(WriteResult::Repost { target_uri, reposted, record_uri }) => {
            let target = target_uri.as_str();
            let record = &record_uri;
            let update = |item: FeedItem| -> (out: FeedItem)
                ensures
                    out == repost_applied(item, target@, reposted, *record),
                { apply_repost(item, target, reposted, record) };
            let ghost before = nav.stack();
            nav.for_each_item_mut(update);
            proof {
                let g = |item: FeedItem| repost_applied(item, target_uri@, reposted, record_uri);
                assert forall|i: int| 0 <= i < before.len() implies view_updated(#[trigger] before[i], nav.stack()[i], g) by {
                    assert(view_mapped(before[i], nav.stack()[i], update));
                    assert forall|k: int| 0 <= k < before[i].items@.len() implies (#[trigger] nav.stack()[i].items@[k]) == match before[i].items@[k] {
                        ViewItem::Post(p) => ViewItem::Post(Box::new(g(*p))),
                        ViewItem::Notification(n) => ViewItem::Notification(n),
                    } by {
                        assert(crate::navigation::row_mapped(before[i].items@[k], nav.stack()[i].items@[k], update));
                    }
                }
            }
            let status = if reposted {
                "Reposted"
            } else {
                "Removed repost"
            };
            (status.to_owned(), false)
        },
        Ok(WriteResult::Posted { uri }) => {
            let mut status = "Posted ".to_owned();
            push_str(&mut status, uri.as_str());
            (status, true)
        },
        Err(e) => {
            let mut status = "Write failed: ".to_owned();
            push_str(&mut status, e.as_str());
            (status, false)
        },
    }
}

/// A view just opened on `rows`, with the first row of URI `select` selected (the
/// first row when there is none).
pub open spec fn opened_view(v: ViewState, title: Seq<char>, kind: ViewKind, rows: Seq<ViewItem>, select: Seq<char>) -> bool {
    &&& v.title@ == title
    &&& v.kind == kind
    &&& v.items@ == rows
    &&& if has_uri(rows, select) {
        is_first_uri(rows, select, v.selected as int)
    } else {
        v.selected == 0
    }
    &&& v.profile is None
    &&& v.cursor is None
    &&& !v.loading
    &&& v.error is None
    &&& v.search_query is None
}

/// `stack` with one more view on top, which satisfies `top`.
pub open spec fn pushed(before: Seq<ViewState>, after: Seq<ViewState>) -> bool {
    after.len() == before.len() + 1 && after.drop_last() == before
}

pub open spec fn quote_title(quote: QuotePost) -> Seq<char> {
    "Quote @"@ + quote.author_handle@
}

fn open_view(title: &str, kind: ViewKind, items: Vec<FeedItem>, select: &str) -> (v: ViewState)
    ensures
        opened_view(v, title@, kind, post_rows(items@), select@),
{
    let mut view = ViewState::new(title, kind, items);
    view.select_uri(select);
    view
}

/// What a loaded (or failed) thread, quote or reload does to the views, and the status it shows.
pub open spec fn thread_loaded(before: NavigationStack, after: NavigationStack, action: ThreadAction, result: Result<Vec<FeedItem>, String>, status: Seq<char>) -> bool {
    &&& (match action {
        ThreadAction::OpenThread { selected_uri, title, kind } => match result {
            Ok(items) => if items@.len() == 0 {
                after.stack() == before.stack() && status == "No replies available"@
            } else {
                &&& pushed(before.stack(), after.stack())
                &&& opened_view(after.stack().last(), title@, kind, post_rows(items@), selected_uri@)
                &&& status == "Thread loaded"@
            },
            Err(e) => after.stack() == before.stack() && status == "Thread load failed: "@ + e@,
        },
        ThreadAction::OpenQuote { quote } => {
            let kind = ViewKind::Quote { uri: quote.uri };
            &&& pushed(before.stack(), after.stack())
            &&& match result {
                Ok(items) => {
                    &&& if items@.len() > 0 {
                        opened_view(after.stack().last(), quote_title(*quote), kind, post_rows(items@), quote.uri@)
                    } else {
                        &&& after.stack().last().items@.len() == 1
                        &&& after.stack().last().items@[0] matches ViewItem::Post(p) && p@ == spec_quote_item(quote@, 0)
                        &&& opened_view(after.stack().last(), quote_title(*quote), kind, after.stack().last().items@, quote.uri@)
                    }
                    &&& status == "Quote loaded"@
                },
                Err(e) => {
                    &&& after.stack().last().items@.len() == 1
                    &&& after.stack().last().items@[0] matches ViewItem::Post(p) && p@ == spec_quote_item(quote@, 0)
                    &&& opened_view(after.stack().last(), quote_title(*quote), kind, after.stack().last().items@, Seq::empty())
                    &&& status == "Quote preview only: "@ + e@
                },
            }
        },
        ThreadAction::Reload { root_uri, selected_uri } => match result {
            Ok(items) => {
                let top_before = before.stack().last();
                let top_after = after.stack().last();
                let rows = post_rows(items@);
                let pref = selected_uri matches Some(p) && has_uri(rows, p@);
                &&& after.stack().len() == before.stack().len()
                &&& after.stack().drop_last() == before.stack().drop_last()
                &&& top_after.items@ == rows
                &&& top_after.scroll == 0
                &&& top_after.layout_cache.is_cleared()
                &&& top_after.title == top_before.title
                &&& top_after.kind == top_before.kind
                &&& pref ==> is_first_uri(rows, selected_uri.unwrap()@, top_after.selected as int)
                &&& !pref && has_uri(rows, root_uri@) ==> is_first_uri(rows, root_uri@, top_after.selected as int)
                &&& !pref && !has_uri(rows, root_uri@) ==> top_after.selected == 0
                &&& status == "View refreshed"@
            },
            Err(e) => after.stack() == before.stack() && status == "Refresh failed: "@ + e@,
        },
    })
}

/// Opens (or refreshes) the view a thread load was for and
/// returns the status to show.
pub fn apply_thread_loaded(nav: &mut NavigationStack, action: ThreadAction, result: Result<Vec<FeedItem>, String>) -> (status: String)
    requires
        old(nav).wf(),
    ensures
        final(nav).wf(),
        thread_loaded(*old(nav), *final(nav), action, result, status@),
{
    let ghost before = nav.stack();
    match action {
        ThreadAction::OpenThread { selected_uri, title, kind } => match result {
            Ok(items) => {
                if items.len() == 0 {
                    return "No replies available".to_owned();
                }
                let view = open_view(title.as_str(), kind, items, selected_uri.as_str());
                nav.push(view);
                assert(nav.stack().drop_last() =~= before);
                "Thread loaded".to_owned()
            },
            Err(e) => {
                let mut status = "Thread load failed: ".to_owned();
                push_str(&mut status, e.as_str());
                status
            },
        },
        ThreadAction::OpenQuote { quote } => {
            let mut title = "Quote @".to_owned();
            push_str(&mut title, quote.author_handle.as_str());
            let uri = quote.uri.clone();
            let kind = ViewKind::Quote { uri: quote.uri.clone() };
            match result {
                Ok(items) => {
                    let mut items = items;
                    if items.len() == 0 {
                        items.push(feed_item_from_quote(*quote, 0));
                    }
                    let view = open_view(title.as_str(), kind, items, uri.as_str());
                    nav.push(view);
                    assert(nav.stack().drop_last() =~= before);
                    "Quote loaded".to_owned()
                },
                Err(e) => {
                    let view = ViewState::new(title.as_str(), kind, vec![feed_item_from_quote(*quote, 0)]);
                    nav.push(view);
                    assert(nav.stack().drop_last() =~= before);
                    let mut status = "Quote preview only: ".to_owned();
                    push_str(&mut status, e.as_str());
                    status
                },
            }
        },
        ThreadAction::Reload { root_uri, selected_uri } => match result {
            Ok(items) => {
                let preferred = match &selected_uri {
                    Some(s) => Some(s.as_str()),
                    None => None,
                };
                let current = nav.current_mut();
                current.replace_items_preserving_uri(items, preferred, Some(root_uri.as_str()));
                assert(nav.stack().drop_last() =~= before.drop_last());
                "View refreshed".to_owned()
            },
            Err(e) => {
                let mut status = "Refresh failed: ".to_owned();
                push_str(&mut status, e.as_str());
                status
            },
        },
    }
}

// ---------------------------------------------------------------------------
// Acting on the selected post

/// The media overlay for the selected post, or the status saying why there is none.
pub fn media_overlay_for(item: Option<&FeedItem>) -> (r: Result<MediaOverlayState, &'static str>)
    ensures
        match item {
            None => r == Err::<MediaOverlayState, &'static str>("No selected post"),
            Some(it) => if spec_preview_media(*it).len() == 0 {
                r == Err::<MediaOverlayState, &'static str>("No media on selected post")
            } else {
                r matches Ok(m) && m.media@ == spec_preview_media(*it) && m.selected == 0 && !m.playing
            },
        },
{
    let item = match item {
        Some(it) => it,
        None => return Err("No selected post"),
    };
    let media = preview_media(item);
    if media.len() == 0 {
        return Err("No media on selected post");
    }
    Ok(MediaOverlayState::new(media))
}

/// What the link key does for the selected post.
#[derive(Debug)]
pub enum LinksChoice {
    NoPost,
    NoLinks,
    Open(LinkRef),
    Pick(LinkPickerState),
}

/// No links is reported, one link is opened, several are
/// offered in the link picker.
pub fn links_choice(item: Option<&FeedItem>) -> (r: LinksChoice)
    ensures
        match item {
            None => r is NoPost,
            Some(it) => {
                let links = spec_item_links(*it);
                if links.len() == 0 {
                    r is NoLinks
                } else if links.len() == 1 {
                    r matches LinksChoice::Open(l) && link_views(seq![l]) == links
                } else {
                    r matches LinksChoice::Pick(p) && link_views(p.links@) == links && p.selected == 0
                }
            },
        },
{
    let item = match item {
        Some(it) => it,
        None => return LinksChoice::NoPost,
    };
    let mut links = item_links(item);
    if links.len() == 0 {
        LinksChoice::NoLinks
    } else if links.len() == 1 {
        let ghost all = links@;
        let link = links.pop().unwrap();
        assert(seq![link] =~= all);
        LinksChoice::Open(link)
    } else {
        LinksChoice::Pick(LinkPickerState::new(links))
    }
}

/// The reply composer for the selected post: the reply goes under it and into its
/// thread's root (itself when it is not a reply). A post without a CID cannot be
/// replied to.
pub fn reply_composer_for(item: Option<&FeedItem>) -> (r: Result<ComposerState, &'static str>)
    ensures
        match item {
            None => r == Err::<ComposerState, &'static str>("No selected post"),
            Some(it) => match it.cid {
                None => r == Err::<ComposerState, &'static str>("Selected post is missing a CID; cannot reply"),
                Some(cid) => r matches Ok(c) && (c.buffer@.len() == 0 && (c.kind matches ComposerKind::Reply {
                    root,
                    parent,
                    parent_handle,
                } && parent.uri@ == it.uri@ && parent.cid@ == cid@ && parent_handle@ == it.author_handle@ && match it.reply_root {
                    Some(rr) => root == rr,
                    None => root == parent,
                })),
            },
        },
{
    let item = match item {
        Some(it) => it,
        None => return Err("No selected post"),
    };
    let parent = match post_ref_from_item(item) {
        Some(p) => p,
        None => return Err("Selected post is missing a CID; cannot reply"),
    };
    let root = match &item.reply_root {
        Some(r) => r.duplicate(),
        None => parent.duplicate(),
    };
    Ok(
        ComposerState {
            kind: ComposerKind::Reply { root, parent, parent_handle: item.author_handle.clone() },
            buffer: String::new(),
        },
    )
}

/// The quote composer for the selected post; a post without a CID cannot be quoted.
pub fn quote_composer_for(item: Option<&FeedItem>) -> (r: Result<ComposerState, &'static str>)
    ensures
        match item {
            None => r == Err::<ComposerState, &'static str>("No selected post"),
            Some(it) => match it.cid {
                None => r == Err::<ComposerState, &'static str>("Selected post is missing a CID; cannot quote"),
                Some(cid) => r matches Ok(c) && (c.buffer@.len() == 0 && (c.kind matches ComposerKind::Quote {
                    quote,
                    quote_handle,
                } && quote.uri@ == it.uri@ && quote.cid@ == cid@ && quote_handle@ == it.author_handle@)),
            },
        },
{
    let item = match item {
        Some(it) => it,
        None => return Err("No selected post"),
    };
    let quote = match post_ref_from_item(item) {
        Some(p) => p,
        None => return Err("Selected post is missing a CID; cannot quote"),
    };
    Ok(
        ComposerState {
            kind: ComposerKind::Quote { quote, quote_handle: item.author_handle.clone() },
            buffer: String::new(),
        },
    )
}


/// A loaded profile: its header, its first page of posts and the next page's cursor.
pub struct ProfileLoadData {
    pub profile: ProfileSummary,
    pub items: Vec<FeedItem>,
    pub cursor: Option<String>,
}

/// A loaded page of notifications, and whether marking them seen succeeded.
pub struct NotificationsLoadData {
    pub items: Vec<NotificationItem>,
    pub cursor: Option<String>,
    pub seen_updated: bool,
    pub seen_error: Option<String>,
}

/// `v` is a freshly opened view of `rows` that carries `cursor` and `profile`.
pub open spec fn loaded_view(
    v: ViewState,
    title: Seq<char>,
    kind: ViewKind,
    rows: Seq<ViewItem>,
    cursor: Option<String>,
    profile: Option<ProfileSummary>,
) -> bool {
    &&& (ViewState { cursor: None, profile: None, ..v }).fresh(title, kind, rows)
    &&& v.cursor == cursor
    &&& v.profile == profile
}

/// The top of `after` is `view`: it took the place of the top of `before` when `replace`
/// holds, and was pushed on it otherwise.
pub open spec fn placed(before: Seq<ViewState>, after: Seq<ViewState>, view_ok: bool, replace: bool) -> bool {
    &&& view_ok
    &&& if replace {
        after.len() == before.len() && after.drop_last() == before.drop_last()
    } else {
        pushed(before, after)
    }
}

pub open spec fn is_profile_of(kind: ViewKind, actor: Seq<char>) -> bool {
    kind matches ViewKind::Profile { actor: a } && a@ == actor
}

fn shows_profile_of(kind: &ViewKind, actor: &str) -> (r: bool)
    ensures
        r == is_profile_of(*kind, actor@),
{
    match kind {
        ViewKind::Profile { actor: a } => crate::text::strings_equal(a.as_str(), actor),
        _ => false,
    }
}

/// Puts `view` on top of the stack: in place of the current view when `replace`,
/// pushed otherwise.
fn place_view(nav: &mut NavigationStack, view: ViewState, replace: bool)
    requires
        old(nav).wf(),
    ensures
        final(nav).wf(),
        final(nav).stack().last() == view,
        placed(old(nav).stack(), final(nav).stack(), true, replace),
{
    let ghost before = nav.stack();
    if replace {
        let current = nav.current_mut();
        *current = view;
        assert(nav.stack().drop_last() =~= before.drop_last());
    } else {
        nav.push(view);
        assert(nav.stack().drop_last() =~= before);
    }
}

/// What a loaded (or failed) profile does to the views, and the status it shows.
pub open spec fn profile_loaded(before: NavigationStack, after: NavigationStack, actor: String, result: Result<ProfileLoadData, String>, status: Seq<char>) -> bool {
    &&& (match result {
        Ok(data) => {
            &&& placed(
                before.stack(),
                after.stack(),
                loaded_view(
                    after.stack().last(),
                    "Profile @"@ + data.profile.handle@,
                    ViewKind::Profile { actor },
                    post_rows(data.items@),
                    data.cursor,
                    Some(data.profile),
                ),
                is_profile_of(before.stack().last().kind, actor@),
            )
            &&& status == "Profile loaded"@
        },
        Err(e) => after.stack() == before.stack() && status == "Profile load failed: "@ + e@,
    })
}

/// Shows a loaded profile (its header and posts), in place of
/// the current view when that already shows the same actor, and returns the status.
pub fn apply_profile_loaded(nav: &mut NavigationStack, actor: String, result: Result<ProfileLoadData, String>) -> (status: String)
    requires
        old(nav).wf(),
    ensures
        final(nav).wf(),
        profile_loaded(*old(nav), *final(nav), actor, result, status@),
{
    match result {
        Ok(data) => {
            let mut title = "Profile @".to_owned();
            push_str(&mut title, data.profile.handle.as_str());
            let replace = shows_profile_of(&nav.current().kind, actor.as_str());
            let mut view = ViewState::new(title.as_str(), ViewKind::Profile { actor }, data.items);
            view.cursor = data.cursor;
            view.set_profile(data.profile);
            place_view(nav, view, replace);
            "Profile loaded".to_owned()
        },
        Err(e) => {
            let mut status = "Profile load failed: ".to_owned();
            push_str(&mut status, e.as_str());
            status
        },
    }
}

/// Whether `source` is the active feed.
pub fn is_active_source(feeds: &Vec<FeedSource>, active: usize, source: &FeedSource) -> (r: bool)
    ensures
        r == (active < feeds@.len() && feeds@[active as int]@ == source@),
{
    if active >= feeds.len() {
        return false;
    }
    let a = &feeds[active];
    if !crate::text::strings_equal(a.label.as_str(), source.label.as_str()) {
        return false;
    }
    match (&a.kind, &source.kind) {
        (FeedSourceKind::Home, FeedSourceKind::Home) => true,
        (FeedSourceKind::Author { handle: h1, did: d1 }, FeedSourceKind::Author { handle: h2, did: d2 }) => {
            crate::text::strings_equal(h1.as_str(), h2.as_str()) && crate::text::strings_equal(d1.as_str(), d2.as_str())
        },
        (FeedSourceKind::Generator { uri: u1 }, FeedSourceKind::Generator { uri: u2 }) => {
            crate::text::strings_equal(u1.as_str(), u2.as_str())
        },
        _ => false,
    }
}

/// What a loaded (or failed) feed does to the views and the pending posts, and the status it shows.
pub open spec fn feed_loaded(before: NavigationStack, after: NavigationStack, pending_before: Seq<FeedItem>, pending_after: Seq<FeedItem>, label: Seq<char>, result: Result<(Vec<FeedItem>, Option<String>), String>, status: Seq<char>) -> bool {
    &&& (match result {
        Ok((items, cursor)) => {
            &&& after.stack().len() == 1
            &&& loaded_view(after.stack()[0], label, ViewKind::Timeline, post_rows(items@), cursor, None)
            &&& pending_after.len() == 0
            &&& status == "Loaded "@ + label
        },
        Err(e) => {
            &&& after.stack() =~= before.stack().update(
                before.stack().len() - 1,
                ViewState { loading: false, error: Some(e), ..before.stack().last() },
            )
            &&& pending_after =~= pending_before
            &&& status == "Feed load failed"@
        },
    })
}

/// A loaded feed becomes the only view, with the pending posts
/// dropped; a failed load leaves its error on the current view.
pub fn apply_feed_loaded(
    nav: &mut NavigationStack,
    pending: &mut Vec<FeedItem>,
    label: &str,
    result: Result<(Vec<FeedItem>, Option<String>), String>,
) -> (status: String)
    requires
        old(nav).wf(),
    ensures
        final(nav).wf(),
        feed_loaded(*old(nav), *final(nav), old(pending)@, final(pending)@, label@, result, status@),
{
    nav.current_mut().loading = false;
    match result {
        Ok((items, cursor)) => {
            let mut view = ViewState::new(label, ViewKind::Timeline, items);
            view.cursor = cursor;
            *nav = NavigationStack::new(view);
            pending.clear();
            let mut status = "Loaded ".to_owned();
            push_str(&mut status, label);
            status
        },
        Err(e) => {
            nav.current_mut().error = Some(e);
            "Feed load failed".to_owned()
        },
    }
}

/// What a loaded (or failed) page does to the view it was asked for, and the status it shows.
pub open spec fn page_loaded(before: ViewState, after: ViewState, active_matches: bool, result: Result<(Vec<FeedItem>, Option<String>), String>, status: Option<String>) -> bool {
    &&& (!active_matches || before.kind != ViewKind::Timeline ==> {
        &&& after == (ViewState { loading: false, ..before })
        &&& status is None
    })
    &&& (active_matches && before.kind == ViewKind::Timeline ==> match result {
        Ok((items, cursor)) => {
            &&& after.items@ == before.items@ + post_rows(items@)
            &&& after.layout_cache.is_cleared()
            &&& after == (ViewState {
                items: after.items,
                layout_cache: after.layout_cache,
                loading: false,
                cursor,
                ..before
            })
            &&& status matches Some(s) && s@ == "Loaded more timeline posts"@
        },
        Err(e) => {
            &&& after == (ViewState { loading: false, error: Some(e), ..before })
            &&& status matches Some(s) && s@ == "Pagination failed"@
        },
    })
}

/// The next page of the active timeline goes below its posts;
/// a page of another feed, or one that arrives when a timeline is no longer shown,
/// only ends the loading state.
pub fn apply_page_loaded(
    view: &mut ViewState,
    active_matches: bool,
    result: Result<(Vec<FeedItem>, Option<String>), String>,
) -> (status: Option<String>)
    ensures
        page_loaded(*old(view), *final(view), active_matches, result, status),
{
    view.loading = false;
    let is_timeline = match view.kind {
        ViewKind::Timeline => true,
        _ => false,
    };
    if !active_matches || !is_timeline {
        return None;
    }
    match result {
        Ok((items, cursor)) => {
            let mut items = items;
            view.append_posts(&mut items);
            view.cursor = cursor;
            Some("Loaded more timeline posts".to_owned())
        },
        Err(e) => {
            view.error = Some(e);
            Some("Pagination failed".to_owned())
        },
    }
}

/// The timeline is on top and scrolled to its first post.
pub open spec fn at_top(view: ViewState) -> bool {
    view.kind == ViewKind::Timeline && view.selected == 0 && view.scroll == 0
}

/// Whether new posts may be put in front without moving what
/// the reader is looking at.
pub fn is_timeline_at_top(view: &ViewState) -> (r: bool)
    ensures
        r == at_top(*view),
{
    let is_timeline = match view.kind {
        ViewKind::Timeline => true,
        _ => false,
    };
    is_timeline && view.selected == 0 && view.scroll == 0
}

/// What a background refresh does to the timeline and the pending posts, and the status it shows.
pub open spec fn feed_refreshed(before: ViewState, after: ViewState, pending_before: Seq<FeedItem>, pending_after: Seq<FeedItem>, active_matches: bool, result: Result<Vec<FeedItem>, String>, status: Option<String>) -> bool {
    &&& (!active_matches || before.kind != ViewKind::Timeline ==> {
        &&& after == before
        &&& pending_after == pending_before
        &&& status is None
    })
    &&& (active_matches && before.kind == ViewKind::Timeline ==> match result {
        Err(e) => {
            &&& after == before
            &&& pending_after == pending_before
            &&& status matches Some(s) && s@ == "Refresh check failed: "@ + e@
        },
        Ok(items) => {
            let fresh = spec_new_items(before.items@, pending_before, items@);
            let all = fresh + pending_before;
            if fresh.len() == 0 {
                &&& after == before
                &&& pending_after == pending_before
                &&& status is None
            } else if at_top(before) {
                &&& after.items@ == post_rows(all) + before.items@
                &&& after.layout_cache.is_cleared()
                &&& after == (ViewState {
                    items: after.items,
                    layout_cache: after.layout_cache,
                    ..before
                })
                &&& pending_after.len() == 0
                &&& status matches Some(s) && s@ == "Loaded "@ + decimal(all.len()) + " new posts"@
            } else {
                &&& after == before
                &&& pending_after == all
                &&& status matches Some(s) && s@ == decimal(all.len()) + " new posts pending"@
            }
        },
    })
}

/// The posts of a background refresh of the active
/// timeline that are new go before the pending ones; they are shown at once when the
/// timeline is at its top, and counted in the status otherwise.
pub fn apply_feed_refresh_loaded(
    view: &mut ViewState,
    pending: &mut Vec<FeedItem>,
    active_matches: bool,
    result: Result<Vec<FeedItem>, String>,
) -> (status: Option<String>)
    ensures
        feed_refreshed(*old(view), *final(view), old(pending)@, final(pending)@, active_matches, result, status),
{
    let is_timeline = match view.kind {
        ViewKind::Timeline => true,
        _ => false,
    };
    if !active_matches || !is_timeline {
        return None;
    }
    let refreshed = match result {
        Ok(items) => items,
        Err(e) => {
            let mut status = "Refresh check failed: ".to_owned();
            push_str(&mut status, e.as_str());
            return Some(status);
        },
    };
    let mut merged = new_items_before_current(view.items.as_slice(), pending.as_slice(), refreshed);
    if merged.len() == 0 {
        return None;
    }
    merged.append(pending);
    *pending = merged;
    if is_timeline_at_top(view) {
        merge_pending_new_items(view, pending, false)
    } else {
        let mut status = String::new();
        push_decimal(&mut status, pending.len() as u64);
        push_str(&mut status, " new posts pending");
        Some(status)
    }
}

/// What a switched account starts with: its saved feeds (the home timeline when it has
/// none) and a single view of the first feed's posts.
pub fn account_switched_state(
    feeds: Vec<FeedSource>,
    items: Vec<FeedItem>,
    cursor: Option<String>,
) -> (r: (Vec<FeedSource>, NavigationStack))
    ensures
        feeds@.len() == 0 ==> r.0@.len() == 1 && r.0@[0].label@ == "Following"@ && r.0@[0].kind == FeedSourceKind::Home,
        feeds@.len() > 0 ==> r.0@ == feeds@,
        r.1.wf(),
        r.1.stack().len() == 1,
        loaded_view(r.1.stack()[0], r.0@[0].label@, ViewKind::Timeline, post_rows(items@), cursor, None),
{
    let mut feeds = feeds;
    if feeds.len() == 0 {
        feeds.push(FeedSource::home());
    }
    let mut view = ViewState::new(feeds[0].label.as_str(), ViewKind::Timeline, items);
    view.cursor = cursor;
    (feeds, NavigationStack::new(view))
}

/// What a reply to the unread-count poll does to the unread count; `applied` tells whether it was for the account that asked.
pub open spec fn notification_count_applied(unread_before: u64, unread_after: u64, current_did: Seq<char>, account_did: Seq<char>, result: Result<u64, String>, applied: bool) -> bool {
    &&& (applied == (current_did == account_did))
    &&& (applied ==> unread_after == match result {
        Ok(n) => n,
        Err(_) => 0,
    })
    &&& (!applied ==> unread_after == unread_before)
}

/// A reply to the unread-count poll counts only for the account that asked: the count
/// it gives replaces the unread count, and a failed poll clears it. Returns whether the
/// reply was for the current account.
pub fn apply_notification_count(
    unread: &mut u64,
    current_did: &str,
    account_did: &str,
    result: Result<u64, String>,
) -> (applied: bool)
    ensures
        notification_count_applied(*old(unread), *final(unread), current_did@, account_did@, result, applied),
{
    if !crate::text::strings_equal(current_did, account_did) {
        return false;
    }
    *unread = match result {
        Ok(n) => n,
        Err(_) => 0,
    };
    true
}

/// The rows of a notifications view.
pub open spec fn notification_rows(items: Seq<NotificationItem>) -> Seq<ViewItem> {
    items.map_values(|n: NotificationItem| ViewItem::Notification(Box::new(n)))
}

fn rows_from_notifications(items: Vec<NotificationItem>) -> (r: Vec<ViewItem>)
    ensures
        r@ == notification_rows(items@),
{
    let mut rows: Vec<ViewItem> = Vec::new();
    let ghost all = items@;
    for n in it: items
        invariant
            it.seq() == all,
            rows@ == notification_rows(all.take(it.index() as int)),
    {
        proof {
            assert(all.take(it.index() + 1) =~= all.take(it.index() as int).push(n));
        }
        rows.push(ViewItem::Notification(Box::new(n)));
        proof {
            assert(rows@ =~= notification_rows(all.take(it.index() + 1)));
        }
    }
    assert(all.take(all.len() as int) =~= all);
    rows
}

/// The status after a notifications load whose seen marker could not be updated.
pub open spec fn seen_failed_status(error: Option<String>) -> Seq<char> {
    "Notifications loaded; seen update failed"@ + match error {
        Some(e) => ": "@ + e@,
        None => Seq::empty(),
    }
}

/// What loaded (or failed) notifications do to the views and the unread count, the status they show and whether the seen marker moved.
pub open spec fn notifications_loaded(before: NavigationStack, after: NavigationStack, unread_before: u64, unread_after: u64, result: Result<NotificationsLoadData, String>, r: (Seq<char>, bool)) -> bool {
    &&& (match result {
        Ok(data) => {
            &&& placed(
                before.stack(),
                after.stack(),
                loaded_view(
                    after.stack().last(),
                    "Notifications"@,
                    ViewKind::Notifications,
                    notification_rows(data.items@),
                    data.cursor,
                    None,
                ),
                before.stack().last().kind is Notifications,
            )
            &&& r.1 == data.seen_updated
            &&& data.seen_updated ==> unread_after == 0 && r.0 =~= "Notifications loaded"@
            &&& !data.seen_updated ==> unread_after == unread_before && r.0 =~= seen_failed_status(data.seen_error)
        },
        Err(e) => {
            &&& after.stack() =~= before.stack()
            &&& unread_after == unread_before
            &&& r.0 =~= "Notifications failed: "@ + e@
            &&& !r.1
        },
    })
}

/// Shows the notifications (in place of a notifications
/// view already on top), clears the unread count when the seen marker was updated, and
/// returns the status and whether it was updated.
pub fn apply_notifications_loaded(
    nav: &mut NavigationStack,
    unread: &mut u64,
    result: Result<NotificationsLoadData, String>,
) -> (r: (String, bool))
    requires
        old(nav).wf(),
    ensures
        final(nav).wf(),
        notifications_loaded(*old(nav), *final(nav), *old(unread), *final(unread), result, (r.0@, r.1)),
{
    match result {
        Ok(data) => {
            let rows = rows_from_notifications(data.items);
            let mut view = ViewState::from_rows("Notifications", ViewKind::Notifications, rows);
            view.cursor = data.cursor;
            let replace = match &nav.current().kind {
                ViewKind::Notifications => true,
                _ => false,
            };
            place_view(nav, view, replace);
            if data.seen_updated {
                *unread = 0;
                ("Notifications loaded".to_owned(), true)
            } else {
                let mut status = "Notifications loaded; seen update failed".to_owned();
                match &data.seen_error {
                    Some(e) => {
                        push_str(&mut status, ": ");
                        push_str(&mut status, e.as_str());
                    },
                    None => {},
                }
                (status, false)
            }
        },
        Err(e) => {
            let mut status = "Notifications failed: ".to_owned();
            push_str(&mut status, e.as_str());
            (status, false)
        },
    }
}

/// The actor to open a profile by: the DID when there is a non-empty one, the handle
/// otherwise.
pub open spec fn actor_of(did: Option<String>, handle: String) -> Seq<char> {
    match did {
        Some(d) => if d@.len() > 0 { d@ } else { handle@ },
        None => handle@,
    }
}

fn actor_text(did: &Option<String>, handle: &String) -> (r: String)
    ensures
        r@ == actor_of(*did, *handle),
{
    match did {
        Some(d) => if d.as_str().unicode_len() > 0 { d.clone() } else { handle.clone() },
        None => handle.clone(),
    }
}

/// The actor and handle of the author of the selected row,
/// post or notification.
pub fn selected_author_actor(view: &ViewState) -> (r: Option<(String, String)>)
    ensures
        match r {
            Some((actor, handle)) => view.selected < view.items@.len() && match view.items@[view.selected as int] {
                ViewItem::Post(p) => actor@ == actor_of(p.author_did, p.author_handle) && handle@ == p.author_handle@,
                ViewItem::Notification(n) => actor@ == actor_of(n.author_did, n.author_handle) && handle@ == n.author_handle@,
            },
            None => view.selected >= view.items@.len(),
        },
{
    if let Some(item) = view.selected_item() {
        return Some((actor_text(&item.author_did, &item.author_handle), item.author_handle.clone()));
    }
    match view.selected_notification() {
        Some(n) => Some((actor_text(&n.author_did, &n.author_handle), n.author_handle.clone())),
        None => None,
    }
}

/// The status message while it has not expired (`expires_at` and
/// `now` on one clock); an empty status is never shown.
pub fn visible_status(status: &str, expires_at: Option<u64>, now: u64) -> (r: Option<&str>)
    ensures
        r matches Some(t) ==> t@ == status@,
        r is Some <==> (status@.len() > 0 && (expires_at matches Some(e) && now <= e)),
{
    if status.unicode_len() == 0 {
        return None;
    }
    match expires_at {
        Some(e) => if now <= e { Some(status) } else { None },
        None => None,
    }
}


/// What a key does while the search query is typed.
#[derive(Debug, Clone, PartialEq, Eq)]
pub enum SearchStep {
    /// Leave search without searching.
    Cancel,
    /// Search for the query typed so far.
    Submit(String),
    /// Keep typing.
    Edit,
}

/// Esc cancels, Enter submits the query, Backspace deletes the
/// last character, and a character typed without a modifier (or with Shift only) is
/// added; other keys change nothing.
pub fn handle_search_key(buffer: &mut String, key: KeyEvent) -> (r: SearchStep)
    ensures
        match key.code {
            KeyCode::Esc => r == SearchStep::Cancel && final(buffer)@ == old(buffer)@,
            KeyCode::Enter => (r matches SearchStep::Submit(q) && q@ == old(buffer)@) && final(buffer)@ == old(buffer)@,
            KeyCode::Backspace => r == SearchStep::Edit && final(buffer)@ == if old(buffer)@.len() == 0 {
                old(buffer)@
            } else {
                old(buffer)@.drop_last()
            },
            KeyCode::Char(c) => r == SearchStep::Edit && final(buffer)@ == if key.modifiers.bits == 0
                || key.modifiers.bits == SHIFT_BITS {
                old(buffer)@.push(c)
            } else {
                old(buffer)@
            },
            _ => r == SearchStep::Edit && final(buffer)@ == old(buffer)@,
        },
{
    match key.code {
        KeyCode::Esc => SearchStep::Cancel,
        KeyCode::Enter => SearchStep::Submit(buffer.clone()),
        KeyCode::Backspace => {
            pop_char(buffer);
            SearchStep::Edit
        },
        KeyCode::Char(c) => {
            if key.modifiers.bits == 0 || key.modifiers.bits == SHIFT_BITS {
                push_char(buffer, c);
            }
            SearchStep::Edit
        },
        _ => SearchStep::Edit,
    }
}


/// What opening the selected row does.
#[derive(Debug, Clone, PartialEq, Eq)]
pub enum SelectedTarget {
    /// Load and show a thread.
    Thread(ThreadAction),
    /// Load and show the profile of this actor.
    Profile(String),
    /// The selected notification has nothing to open.
    NoTarget,
    /// Nothing is selected.
    Nothing,
}

/// `t` opens the thread of `uri` in a view titled `title`.
pub open spec fn opens_thread(t: SelectedTarget, uri: Seq<char>, title: Seq<char>) -> bool {
    match t {
        SelectedTarget::Thread(ThreadAction::OpenThread { selected_uri, title: shown, kind }) => {
            &&& selected_uri@ == uri
            &&& shown@ == title
            &&& match kind {
                ViewKind::Thread { root_uri } => root_uri@ == uri,
                _ => false,
            }
        },
        _ => false,
    }
}

/// A post opens its thread; a notification opens the thread
/// of the post it names or the profile it names.
pub fn selected_target(view: &ViewState) -> (r: SelectedTarget)
    ensures
        view.selected >= view.items@.len() ==> r == SelectedTarget::Nothing,
        view.selected < view.items@.len() ==> match view.items@[view.selected as int] {
            ViewItem::Post(p) => opens_thread(r, p.uri@, "Thread @"@ + p.author_handle@),
            ViewItem::Notification(n) => match n.target {
                NotificationTarget::Post { uri } => opens_thread(r, uri@, "Notification thread"@),
                NotificationTarget::Profile { actor } => r matches SelectedTarget::Profile(a) && a@ == actor@,
                NotificationTarget::NoTarget => r == SelectedTarget::NoTarget,
            },
        },
{
    if let Some(item) = view.selected_item() {
        let mut title = "Thread @".to_owned();
        push_str(&mut title, item.author_handle.as_str());
        return SelectedTarget::Thread(ThreadAction::OpenThread {
            selected_uri: item.uri.clone(),
            title,
            kind: ViewKind::Thread { root_uri: item.uri.clone() },
        });
    }
    match view.selected_notification() {
        Some(n) => match &n.target {
            NotificationTarget::Post { uri } => SelectedTarget::Thread(ThreadAction::OpenThread {
                selected_uri: uri.clone(),
                title: "Notification thread".to_owned(),
                kind: ViewKind::Thread { root_uri: uri.clone() },
            }),
            NotificationTarget::Profile { actor } => SelectedTarget::Profile(actor.clone()),
            NotificationTarget::NoTarget => SelectedTarget::NoTarget,
        },
        None => SelectedTarget::Nothing,
    }
}

/// What reloading the current view loads.
#[derive(Debug, Clone, PartialEq, Eq)]
pub enum ReloadPlan {
    /// The active feed, from its first page.
    Feed,
    Thread(ThreadAction),
    Profile(String),
    Notifications,
}

/// A timeline reloads its feed, a thread or quote reloads around the
/// selected post, a profile or the notifications load again.
pub fn reload_plan(view: &ViewState) -> (r: ReloadPlan)
    ensures
        match view.kind {
            ViewKind::Timeline => r == ReloadPlan::Feed,
            ViewKind::Thread { root_uri: root } | ViewKind::Quote { uri: root } => r matches ReloadPlan::Thread(
                ThreadAction::Reload { root_uri, selected_uri },
            ) && root_uri@ == root@ && if view.selected < view.items@.len() && view.items@[view.selected as int] is Post {
                selected_uri matches Some(s) && s@ == view.items@[view.selected as int].spec_uri()
            } else {
                selected_uri is None
            },
            ViewKind::Profile { actor } => r matches ReloadPlan::Profile(a) && a@ == actor@,
            ViewKind::Notifications => r == ReloadPlan::Notifications,
        },
{
    match &view.kind {
        ViewKind::Timeline => ReloadPlan::Feed,
        ViewKind::Thread { root_uri: root } | ViewKind::Quote { uri: root } => {
            let selected_uri = match view.selected_item() {
                Some(item) => Some(item.uri.clone()),
                None => None,
            };
            ReloadPlan::Thread(ThreadAction::Reload { root_uri: root.clone(), selected_uri })
        },
        ViewKind::Profile { actor } => ReloadPlan::Profile(actor.clone()),
        ViewKind::Notifications => ReloadPlan::Notifications,
    }
}

/// A like or repost to make or take back.
#[derive(Debug, Clone, PartialEq, Eq)]
pub struct WritePlan {
    /// The post it is about.
    pub subject: PostRef,
    /// The viewer's record to delete, when there is one; otherwise one is created.
    pub existing: Option<String>,
}

/// `toggle_like_selected` and `toggle_repost_selected`: the post and the viewer's
/// existing like (or repost) record, or why nothing can be done.
pub fn toggle_plan(item: Option<&FeedItem>, repost: bool) -> (r: Result<WritePlan, &'static str>)
    ensures
        match item {
            None => r == Err::<WritePlan, &'static str>("No selected post"),
            Some(it) => match it.cid {
                None => r == Err::<WritePlan, &'static str>(
                    if repost {
                        "Selected post is missing a CID; cannot repost"
                    } else {
                        "Selected post is missing a CID; cannot like"
                    },
                ),
                Some(cid) => r matches Ok(plan) && plan.subject.uri@ == it.uri@ && plan.subject.cid@ == cid@
                    && plan.existing == if repost {
                    it.viewer_repost
                } else {
                    it.viewer_like
                },
            },
        },
{
    let it = match item {
        None => return Err("No selected post"),
        Some(it) => it,
    };
    match post_ref_from_item(it) {
        None => Err(
            if repost {
                "Selected post is missing a CID; cannot repost"
            } else {
                "Selected post is missing a CID; cannot like"
            },
        ),
        Some(subject) => {
            let existing = if repost {
                clone_text(&it.viewer_repost)
            } else {
                clone_text(&it.viewer_like)
            };
            Ok(WritePlan { subject, existing })
        },
    }
}

/// What opening the selected post's quote does.
#[derive(Debug, Clone, PartialEq, Eq)]
pub enum QuotePlan {
    /// The selected row is not a post with a quote.
    NoQuote,
    /// The quote has no URI to load: show what the post carries of it.
    Preview(FeedItem),
    /// Load the quoted post's thread.
    Load(ThreadAction),
}

/// `open_quote_for_selected`, on (a copy of) the selected post.
pub fn quote_plan(item: Option<FeedItem>) -> (r: QuotePlan)
    ensures
        match item {
            Some(it) => match it.quote {
                Some(q) => if q.uri@.len() == 0 {
                    r matches QuotePlan::Preview(p) && p@ == spec_quote_item(q@, 0)
                } else {
                    r == QuotePlan::Load(ThreadAction::OpenQuote { quote: Box::new(q) })
                },
                None => r == QuotePlan::NoQuote,
            },
            None => r == QuotePlan::NoQuote,
        },
{
    match item {
        Some(it) => match it.quote {
            Some(quote) => {
                if quote.uri.as_str().unicode_len() == 0 {
                    QuotePlan::Preview(feed_item_from_quote(quote, 0))
                } else {
                    QuotePlan::Load(ThreadAction::OpenQuote { quote: Box::new(quote) })
                }
            },
            None => QuotePlan::NoQuote,
        },
        None => QuotePlan::NoQuote,
    }
}


/// A post after the viewer followed (with the record `record`) or unfollowed (`None`)
/// the account `did`: posts by that account show the new follow state.
pub open spec fn follow_applied(item: FeedItem, did: Seq<char>, record: Option<String>) -> FeedItem {
    if item.author_did matches Some(d) && d@ == did {
        FeedItem { author_following: Some(record is Some), author_following_uri: record, ..item }
    } else {
        item
    }
}

/// Records a follow change on a post by the followed account.
pub fn apply_follow(item: FeedItem, did: &str, record: &Option<String>) -> (r: FeedItem)
    ensures
        r == follow_applied(item, did@, *record),
{
    let mut item = item;
    let by_account = match &item.author_did {
        Some(d) => crate::text::strings_equal(d.as_str(), did),
        None => false,
    };
    if by_account {
        item.author_following = Some(record.is_some());
        item.author_following_uri = clone_text(record);
    }
    item
}

/// Records a follow change on the header of the followed account.
pub fn apply_profile_follow(profile: ProfileSummary, did: &str, record: &Option<String>) -> (r: ProfileSummary)
    ensures
        r == if profile.did@ == did@ {
            ProfileSummary { viewer_following: *record, ..profile }
        } else {
            profile
        },
{
    let mut profile = profile;
    if crate::text::strings_equal(profile.did.as_str(), did) {
        profile.viewer_following = clone_text(record);
    }
    profile
}

/// What following or unfollowing the selected post's author takes: the author's DID
/// and handle, and the viewer's follow record to delete when there is one.
#[derive(Debug, Clone, PartialEq, Eq)]
pub struct FollowPlan {
    pub did: String,
    pub handle: String,
    pub existing: Option<String>,
}

/// `toggle_follow_selected`.
pub fn follow_plan(item: Option<&FeedItem>) -> (r: Result<FollowPlan, &'static str>)
    ensures
        match item {
            None => r == Err::<FollowPlan, &'static str>("No selected post"),
            Some(it) => match it.author_did {
                Some(d) => if d@.len() > 0 {
                    r matches Ok(plan) && plan.did@ == d@ && plan.handle@ == it.author_handle@ && plan.existing
                        == it.author_following_uri
                } else {
                    r == Err::<FollowPlan, &'static str>("Selected author has no DID")
                },
                None => r == Err::<FollowPlan, &'static str>("Selected author has no DID"),
            },
        },
{
    let it = match item {
        None => return Err("No selected post"),
        Some(it) => it,
    };
    match &it.author_did {
        Some(d) => if d.as_str().unicode_len() > 0 {
            Ok(FollowPlan { did: d.clone(), handle: it.author_handle.clone(), existing: clone_text(&it.author_following_uri) })
        } else {
            Err("Selected author has no DID")
        },
        None => Err("Selected author has no DID"),
    }
}


/// The URI of the selected post when the viewer (`own_did`)
/// wrote it.
pub fn delete_plan(item: Option<&FeedItem>, own_did: &str) -> (r: Result<String, &'static str>)
    ensures
        match item {
            None => r == Err::<String, &'static str>("No selected post"),
            Some(it) => if it.author_did matches Some(d) && d@ == own_did@ {
                r matches Ok(uri) && uri@ == it.uri@
            } else {
                r == Err::<String, &'static str>("You can only delete your own posts")
            },
        },
{
    let it = match item {
        None => return Err("No selected post"),
        Some(it) => it,
    };
    let own = match &it.author_did {
        Some(d) => crate::text::strings_equal(d.as_str(), own_did),
        None => false,
    };
    if own {
        Ok(it.uri.clone())
    } else {
        Err("You can only delete your own posts")
    }
}


/// Liking a post the viewer had not liked and then taking the like back leaves the
/// post as it was (while its count is below the maximum).
pub proof fn law_like_then_unlike_restores(item: FeedItem, record: String)
    requires
        item.viewer_like is None,
        item.like_count < u64::MAX,
    ensures
        like_applied(like_applied(item, item.uri@, true, Some(record)), item.uri@, false, None) == item,
{
}

/// The same for a repost.
pub proof fn law_repost_then_unrepost_restores(item: FeedItem, record: String)
    requires
        item.viewer_repost is None,
        item.repost_count < u64::MAX,
    ensures
        repost_applied(repost_applied(item, item.uri@, true, Some(record)), item.uri@, false, None) == item,
{
}

/// Following an account and then unfollowing it leaves its posts knowing that the
/// viewer does not follow it, with no follow record.
pub proof fn law_follow_then_unfollow(item: FeedItem, did: Seq<char>, record: String)
    requires
        item.author_did matches Some(d) && d@ == did,
    ensures
        follow_applied(follow_applied(item, did, Some(record)), did, None) == (FeedItem {
            author_following: Some(false),
            author_following_uri: None,
            ..item
        }),
{
}

// ---------------------------------------------------------------------------
// Keys of the normal mode

/// What the client does after a key in the normal mode, besides what the key did to
/// the views.
#[derive(Debug, Clone, PartialEq, Eq)]
pub enum NormalStep {
    /// The key is not bound, or only moved the selection.
    Nothing,
    Quit,
    /// Show this status.
    Status(String),
    /// Open this overlay, and show the status when there is one.
    OpenOverlay(Overlay, Option<String>),
    /// Start typing a search of the current view.
    StartSearch,
    /// Work that needs the network, the account or the terminal: the event loop does it.
    Work(KeyAction),
}

/// The rows a page moves: what the terminal shows, at least two.
pub open spec fn page_size(page_rows: usize) -> int {
    if page_rows < 2 {
        2
    } else if page_rows > isize::MAX {
        isize::MAX as int
    } else {
        page_rows as int
    }
}

/// The top view changed and nothing below it did.
pub open spec fn top_replaced(before: Seq<ViewState>, after: Seq<ViewState>) -> bool {
    after.len() == before.len() && after.drop_last() == before.drop_last()
}

/// The views after the top one is closed, when there is one below it.
pub open spec fn closed_top(before: Seq<ViewState>, after: Seq<ViewState>) -> bool {
    if before.len() > 1 {
        after == before.drop_last()
    } else {
        after == before
    }
}

/// The work the normal mode leaves to the event loop.
pub open spec fn is_work(action: KeyAction) -> bool {
    match action {
        KeyAction::PreviewMedia | KeyAction::OpenLinks | KeyAction::PreviousFeed | KeyAction::NextFeed
        | KeyAction::ToggleLike | KeyAction::ToggleRepost | KeyAction::ToggleFollow | KeyAction::DeleteOwnPost
        | KeyAction::ComposeReply | KeyAction::ComposeQuote | KeyAction::SearchNext | KeyAction::OpenSelected
        | KeyAction::OpenQuote | KeyAction::OpenProfile | KeyAction::OpenNotifications | KeyAction::Reload => true,
        _ => false,
    }
}

fn move_top(nav: &mut NavigationStack, action: KeyAction, page: isize)
    requires
        old(nav).wf(),
        2 <= page,
        action == KeyAction::MoveDown || action == KeyAction::MoveUp || action == KeyAction::HalfPageDown
            || action == KeyAction::HalfPageUp || action == KeyAction::PageDown || action == KeyAction::PageUp,
    ensures
        final(nav).wf(),
        top_replaced(old(nav).stack(), final(nav).stack()),
        ({
            let before = old(nav).stack().last();
            let after = final(nav).stack().last();
            match action {
                KeyAction::MoveDown => moved_down(before, after),
                KeyAction::MoveUp => moved_up(before, after),
                KeyAction::HalfPageDown => moved_by(before, after, page / 2),
                KeyAction::HalfPageUp => moved_by(before, after, -(page / 2)),
                KeyAction::PageDown => moved_by(before, after, page as int),
                _ => moved_by(before, after, -page),
            }
        }),
{
    let ghost before = nav.stack();
    let view = nav.current_mut();
    match action {
        KeyAction::MoveDown => view.move_down(),
        KeyAction::MoveUp => view.move_up(),
        KeyAction::HalfPageDown => view.move_by(page / 2),
        KeyAction::HalfPageUp => view.move_by(-(page / 2)),
        KeyAction::PageDown => view.move_by(page),
        _ => view.move_by(-page),
    }
    assert(nav.stack().drop_last() =~= before.drop_last());
}

fn close_top(nav: &mut NavigationStack) -> (closed: bool)
    requires
        old(nav).wf(),
    ensures
        final(nav).wf(),
        closed == (old(nav).stack().len() > 1),
        closed_top(old(nav).stack(), final(nav).stack()),
{
    nav.pop()
}

/// What a key does in the normal mode. It moves the selection of
/// the current view by a row, half a page or a page of `page_rows` rows; closes the
/// current view (Escape opens the settings at the bottom view, `q` there quits); puts
/// the pending posts on top; opens the menu or the composer; and leaves what needs
/// the network, the account or the terminal to the event loop.
pub fn normal_key_step(
    nav: &mut NavigationStack,
    pending: &mut Vec<FeedItem>,
    page_rows: usize,
    key: KeyEvent,
) -> (step: NormalStep)
    requires
        old(nav).wf(),
    ensures
        final(nav).wf(),
        match spec_action_for_key(InputContext::Normal, key) {
            None => final(nav).stack() == old(nav).stack() && final(pending)@ == old(pending)@ && step == NormalStep::Nothing,
            Some(action) => match action {
                KeyAction::Quit => {
                    &&& final(nav).stack() == old(nav).stack()
                    &&& step == NormalStep::Quit
                },
                KeyAction::BackOrQuit => {
                    &&& closed_top(old(nav).stack(), final(nav).stack())
                    &&& if old(nav).stack().len() > 1 {
                        step matches NormalStep::Status(s) && s@ == "Back"@
                    } else {
                        step == NormalStep::Quit
                    }
                },
                KeyAction::Back => {
                    &&& closed_top(old(nav).stack(), final(nav).stack())
                    &&& step matches NormalStep::Status(s) && s@ == (if old(nav).stack().len() > 1 {
                        "Back"@
                    } else {
                        "Already at timeline"@
                    })
                },
                KeyAction::Escape => {
                    &&& closed_top(old(nav).stack(), final(nav).stack())
                    &&& if old(nav).stack().len() > 1 {
                        step matches NormalStep::Status(s) && s@ == "Back"@
                    } else {
                        step == NormalStep::OpenOverlay(Overlay::Menu(MenuState { section: MenuSection::Settings }), None)
                    }
                },
                KeyAction::MoveDown | KeyAction::MoveUp | KeyAction::HalfPageDown | KeyAction::HalfPageUp
                | KeyAction::PageDown | KeyAction::PageUp => {
                    let before = old(nav).stack().last();
                    let after = final(nav).stack().last();
                    let page = page_size(page_rows);
                    &&& top_replaced(old(nav).stack(), final(nav).stack())
                    &&& match action {
                        KeyAction::MoveDown => moved_down(before, after),
                        KeyAction::MoveUp => moved_up(before, after),
                        KeyAction::HalfPageDown => moved_by(before, after, page / 2),
                        KeyAction::HalfPageUp => moved_by(before, after, -(page / 2)),
                        KeyAction::PageDown => moved_by(before, after, page),
                        _ => moved_by(before, after, -page),
                    }
                    &&& step == NormalStep::Nothing
                },
                KeyAction::JumpTop => {
                    &&& final(nav).stack() == old(nav).stack().update(
                        old(nav).stack().len() - 1,
                        ViewState { selected: 0, scroll: 0, ..old(nav).stack().last() },
                    )
                    &&& step == NormalStep::Nothing
                },
                KeyAction::JumpBottom => {
                    let before = old(nav).stack().last();
                    &&& final(nav).stack() == old(nav).stack().update(
                        old(nav).stack().len() - 1,
                        if before.items@.len() == 0 {
                            before
                        } else {
                            ViewState { selected: (before.items@.len() - 1) as usize, ..before }
                        },
                    )
                    &&& step == NormalStep::Nothing
                },
                KeyAction::LoadPending => {
                    let top = ViewState { selected: 0, scroll: 0, ..old(nav).stack().last() };
                    let after = final(nav).stack().last();
                    &&& top_replaced(old(nav).stack(), final(nav).stack())
                    &&& if old(pending)@.len() == 0 || top.kind != ViewKind::Timeline {
                        &&& after == top
                        &&& final(pending)@ == old(pending)@
                        &&& step matches NormalStep::Status(s) && s@ == "No pending posts"@
                    } else {
                        &&& after.items@ == post_rows(old(pending)@) + top.items@
                        &&& after.layout_cache.is_cleared()
                        &&& after == (ViewState { items: after.items, layout_cache: after.layout_cache, ..top })
                        &&& final(pending)@.len() == 0
                        &&& step matches NormalStep::Status(s) && s@ == "Loaded "@ + decimal(old(pending)@.len())
                            + " new posts"@
                    }
                },
                KeyAction::OpenMenu => {
                    &&& final(nav).stack() == old(nav).stack()
                    &&& step == NormalStep::OpenOverlay(Overlay::Menu(MenuState { section: MenuSection::Keys }), None)
                },
                KeyAction::ComposePost => {
                    &&& final(nav).stack() == old(nav).stack()
                    &&& step matches NormalStep::OpenOverlay(Overlay::Composer(c), Some(s)) && c.kind == ComposerKind::Post
                        && c.buffer@.len() == 0 && s@ == "Compose post"@
                },
                KeyAction::StartSearch => final(nav).stack() == old(nav).stack() && step == NormalStep::StartSearch,
                _ => {
                    &&& final(nav).stack() == old(nav).stack()
                    &&& if is_work(action) {
                        step == NormalStep::Work(action)
                    } else {
                        step == NormalStep::Nothing
                    }
                },
            },
        },
        !(spec_action_for_key(InputContext::Normal, key) == Some(KeyAction::LoadPending)) ==> final(pending)@ == old(pending)@,
{
    let action = match action_for_key(InputContext::Normal, key) {
        Some(a) => a,
        None => return NormalStep::Nothing,
    };
    let page: isize = if page_rows < 2 {
        2
    } else if page_rows > isize::MAX as usize {
        isize::MAX
    } else {
        page_rows as isize
    };
    match action {
        KeyAction::Quit => NormalStep::Quit,
        KeyAction::BackOrQuit => {
            if close_top(nav) {
                NormalStep::Status("Back".to_owned())
            } else {
                NormalStep::Quit
            }
        },
        KeyAction::Back => {
            if close_top(nav) {
                NormalStep::Status("Back".to_owned())
            } else {
                NormalStep::Status("Already at timeline".to_owned())
            }
        },
        KeyAction::Escape => {
            if close_top(nav) {
                NormalStep::Status("Back".to_owned())
            } else {
                NormalStep::OpenOverlay(Overlay::Menu(MenuState::settings()), None)
            }
        },
        KeyAction::MoveDown | KeyAction::MoveUp | KeyAction::HalfPageDown | KeyAction::HalfPageUp
        | KeyAction::PageDown | KeyAction::PageUp => {
            move_top(nav, action, page);
            NormalStep::Nothing
        },
        KeyAction::JumpTop => {
            nav.current_mut().jump_top();
            NormalStep::Nothing
        },
        KeyAction::JumpBottom => {
            nav.current_mut().jump_bottom();
            NormalStep::Nothing
        },
        KeyAction::LoadPending => {
            let ghost before = nav.stack();
            let view = nav.current_mut();
            view.jump_top();
            let status = merge_pending_new_items(view, pending, true);
            proof {
                assert(nav.stack().drop_last() =~= before.drop_last());
            }
            match status {
                Some(s) => NormalStep::Status(s),
                None => NormalStep::Nothing,
            }
        },
        KeyAction::OpenMenu => NormalStep::OpenOverlay(Overlay::Menu(MenuState { section: MenuSection::Keys }), None),
        KeyAction::ComposePost => NormalStep::OpenOverlay(
            Overlay::Composer(ComposerState { kind: ComposerKind::Post, buffer: String::new() }),
            Some("Compose post".to_owned()),
        ),
        KeyAction::StartSearch => NormalStep::StartSearch,
        KeyAction::PreviewMedia | KeyAction::OpenLinks | KeyAction::PreviousFeed | KeyAction::NextFeed
        | KeyAction::ToggleLike | KeyAction::ToggleRepost | KeyAction::ToggleFollow | KeyAction::DeleteOwnPost
        | KeyAction::ComposeReply | KeyAction::ComposeQuote | KeyAction::SearchNext | KeyAction::OpenSelected
        | KeyAction::OpenQuote | KeyAction::OpenProfile | KeyAction::OpenNotifications | KeyAction::Reload => {
            NormalStep::Work(action)
        },
        _ => NormalStep::Nothing,
    }
}

// ---------------------------------------------------------------------------
// Replies of background work

/// A reply of background work, as the event loop hands it over, with the id of the
/// request it answers.
pub enum ViewEvent {
    FeedLoaded { request_id: u64, source: FeedSource, result: Result<(Vec<FeedItem>, Option<String>), String> },
    FeedRefreshLoaded { request_id: u64, source: FeedSource, result: Result<Vec<FeedItem>, String> },
    PageLoaded { request_id: u64, source: FeedSource, result: Result<(Vec<FeedItem>, Option<String>), String> },
    ThreadLoaded { request_id: u64, action: ThreadAction, result: Result<Vec<FeedItem>, String> },
    ProfileLoaded { request_id: u64, actor: String, result: Result<ProfileLoadData, String> },
    NotificationsLoaded { request_id: u64, account_did: String, result: Result<NotificationsLoadData, String> },
    NotificationCountLoaded { request_id: u64, account_did: String, result: Result<u64, String> },
    /// A switched account is ready; what it brings is applied by the event loop.
    AccountLoaded { request_id: u64 },
}

impl ViewEvent {
    /// The kind of request the event answers, and its id.
    pub open spec fn answers(self) -> (RequestKind, u64) {
        match self {
            ViewEvent::FeedLoaded { request_id, .. } => (RequestKind::Feed, request_id),
            ViewEvent::FeedRefreshLoaded { request_id, .. } => (RequestKind::Refresh, request_id),
            ViewEvent::PageLoaded { request_id, .. } => (RequestKind::Pagination, request_id),
            ViewEvent::ThreadLoaded { request_id, .. } => (RequestKind::Thread, request_id),
            ViewEvent::ProfileLoaded { request_id, .. } => (RequestKind::Profile, request_id),
            ViewEvent::NotificationsLoaded { request_id, .. } => (RequestKind::Notifications, request_id),
            ViewEvent::NotificationCountLoaded { request_id, .. } => (RequestKind::NotificationCount, request_id),
            ViewEvent::AccountLoaded { request_id } => (RequestKind::Account, request_id),
        }
    }
}

/// The part of the client's state that replies of background work change.
pub struct ClientState {
    pub nav: NavigationStack,
    pub pending_new_items: Vec<FeedItem>,
    pub unread_notifications: u64,
    pub requests: PendingRequests,
    pub feeds: Vec<FeedSource>,
    pub active_feed: usize,
}

/// What the event loop does after a reply, besides the change of state: the status to
/// show, whether the network answered (for replies that say so), whether a feed was
/// freshly loaded (so the next background refresh waits), whether the seen marker of
/// the notifications moved, and whether a switched account is to be taken on.
#[derive(Debug, Clone, PartialEq, Eq)]
pub struct EventOutcome {
    pub status: Option<String>,
    pub network_ok: Option<bool>,
    pub feed_loaded: bool,
    pub seen_updated: bool,
    pub account_accepted: bool,
}

pub open spec fn no_outcome(o: EventOutcome) -> bool {
    o.status is None && o.network_ok is None && !o.feed_loaded && !o.seen_updated && !o.account_accepted
}

fn nothing() -> (o: EventOutcome)
    ensures
        no_outcome(o),
{
    EventOutcome { status: None, network_ok: None, feed_loaded: false, seen_updated: false, account_accepted: false }
}

/// `after` is `before` with only the top view changed.
pub open spec fn top_changed_to(before: NavigationStack, after: NavigationStack, top: ViewState) -> bool {
    after.stack() == before.stack().update(before.stack().len() - 1, top)
}

/// What an accepted reply does: the state and the outcome, for each kind of reply, as
/// the function that applies that kind states it; `current_did` is the account shown.
pub open spec fn event_applied(
    before: ClientState,
    after: ClientState,
    current_did: Seq<char>,
    event: ViewEvent,
    o: EventOutcome,
) -> bool {
    &&& after.feeds == before.feeds
    &&& after.active_feed == before.active_feed
    &&& match event {
        ViewEvent::FeedLoaded { source, result, .. } => {
            &&& feed_loaded(before.nav, after.nav, before.pending_new_items@, after.pending_new_items@, source.label@, result, o.status->0@)
            &&& o.status is Some && o.network_ok == Some(result is Ok) && o.feed_loaded == (result is Ok)
            &&& !o.seen_updated && !o.account_accepted
            &&& after.unread_notifications == before.unread_notifications
        },
        ViewEvent::FeedRefreshLoaded { source, result, .. } => {
            let active = before.active_feed < before.feeds@.len() && before.feeds@[before.active_feed as int]@ == source@;
            &&& top_changed_to(before.nav, after.nav, after.nav.stack().last())
            &&& feed_refreshed(before.nav.stack().last(), after.nav.stack().last(), before.pending_new_items@, after.pending_new_items@, active, result, o.status)
            &&& o.network_ok == Some(result is Ok) && o.feed_loaded
            &&& !o.seen_updated && !o.account_accepted
            &&& after.unread_notifications == before.unread_notifications
        },
        ViewEvent::PageLoaded { source, result, .. } => {
            let active = before.active_feed < before.feeds@.len() && before.feeds@[before.active_feed as int]@ == source@;
            &&& top_changed_to(before.nav, after.nav, after.nav.stack().last())
            &&& page_loaded(before.nav.stack().last(), after.nav.stack().last(), active, result, o.status)
            &&& o.network_ok is None && !o.feed_loaded && !o.seen_updated && !o.account_accepted
            &&& after.pending_new_items@ == before.pending_new_items@
            &&& after.unread_notifications == before.unread_notifications
        },
        ViewEvent::ThreadLoaded { action, result, .. } => {
            &&& thread_loaded(before.nav, after.nav, action, result, o.status->0@)
            &&& o.status is Some && o.network_ok is None && !o.feed_loaded && !o.seen_updated && !o.account_accepted
            &&& after.pending_new_items@ == before.pending_new_items@
            &&& after.unread_notifications == before.unread_notifications
        },
        ViewEvent::ProfileLoaded { actor, result, .. } => {
            &&& profile_loaded(before.nav, after.nav, actor, result, o.status->0@)
            &&& o.status is Some && o.network_ok is None && !o.feed_loaded && !o.seen_updated && !o.account_accepted
            &&& after.pending_new_items@ == before.pending_new_items@
            &&& after.unread_notifications == before.unread_notifications
        },
        ViewEvent::NotificationsLoaded { account_did, result, .. } => {
            &&& after.pending_new_items@ == before.pending_new_items@
            &&& o.network_ok is None && !o.feed_loaded && !o.account_accepted
            &&& if account_did@ == current_did {
                &&& o.status is Some
                &&& notifications_loaded(before.nav, after.nav, before.unread_notifications, after.unread_notifications, result, (o.status->0@, o.seen_updated))
            } else {
                &&& after.nav == before.nav
                &&& after.unread_notifications == before.unread_notifications
                &&& o.status is None && !o.seen_updated
            }
        },
        ViewEvent::NotificationCountLoaded { account_did, result, .. } => {
            &&& after.nav == before.nav
            &&& after.pending_new_items@ == before.pending_new_items@
            &&& notification_count_applied(before.unread_notifications, after.unread_notifications, current_did, account_did@, result, current_did == account_did@)
            &&& no_outcome(o)
        },
        ViewEvent::AccountLoaded { .. } => {
            &&& after.nav == before.nav
            &&& after.pending_new_items@ == before.pending_new_items@
            &&& after.unread_notifications == before.unread_notifications
            &&& o.status is None && o.network_ok is None && !o.feed_loaded && !o.seen_updated && o.account_accepted
        },
    }
}

/// Applies a reply of background work. A reply to a request that is no longer
/// awaited (a newer one of its kind was started, or it was answered already) changes
/// nothing at all; an awaited one is no longer awaited and is applied.
pub fn apply_event(state: &mut ClientState, current_did: &str, event: ViewEvent) -> (o: EventOutcome)
    requires
        old(state).nav.wf(),
    ensures
        final(state).nav.wf(),
        old(state).requests.spec_finish(event.answers().0, event.answers().1).1 == false ==> {
            &&& *final(state) == *old(state)
            &&& no_outcome(o)
        },
        old(state).requests.spec_finish(event.answers().0, event.answers().1).1 ==> {
            &&& final(state).requests == old(state).requests.spec_finish(event.answers().0, event.answers().1).0
            &&& event_applied(*old(state), *final(state), current_did@, event, o)
        },
{
    let (kind, id) = match &event {
        ViewEvent::FeedLoaded { request_id, .. } => (RequestKind::Feed, *request_id),
        ViewEvent::FeedRefreshLoaded { request_id, .. } => (RequestKind::Refresh, *request_id),
        ViewEvent::PageLoaded { request_id, .. } => (RequestKind::Pagination, *request_id),
        ViewEvent::ThreadLoaded { request_id, .. } => (RequestKind::Thread, *request_id),
        ViewEvent::ProfileLoaded { request_id, .. } => (RequestKind::Profile, *request_id),
        ViewEvent::NotificationsLoaded { request_id, .. } => (RequestKind::Notifications, *request_id),
        ViewEvent::NotificationCountLoaded { request_id, .. } => (RequestKind::NotificationCount, *request_id),
        ViewEvent::AccountLoaded { request_id } => (RequestKind::Account, *request_id),
    };
    if !state.requests.finish(kind, id) {
        return nothing();
    }
    let mut out = nothing();
    match event {
        ViewEvent::FeedLoaded { source, result, .. } => {
            let ok = result.is_ok();
            let status = apply_feed_loaded(&mut state.nav, &mut state.pending_new_items, source.label.as_str(), result);
            out.status = Some(status);
            out.network_ok = Some(ok);
            out.feed_loaded = ok;
        },
        ViewEvent::FeedRefreshLoaded { source, result, .. } => {
            let ok = result.is_ok();
            let active = is_active_source(&state.feeds, state.active_feed, &source);
            let top = state.nav.current_mut();
            out.status = apply_feed_refresh_loaded(top, &mut state.pending_new_items, active, result);
            out.network_ok = Some(ok);
            out.feed_loaded = true;
        },
        ViewEvent::PageLoaded { source, result, .. } => {
            let active = is_active_source(&state.feeds, state.active_feed, &source);
            out.status = apply_page_loaded(state.nav.current_mut(), active, result);
        },
        ViewEvent::ThreadLoaded { action, result, .. } => {
            out.status = Some(apply_thread_loaded(&mut state.nav, action, result));
        },
        ViewEvent::ProfileLoaded { actor, result, .. } => {
            out.status = Some(apply_profile_loaded(&mut state.nav, actor, result));
        },
        ViewEvent::NotificationsLoaded { account_did, result, .. } => {
            if crate::text::strings_equal(account_did.as_str(), current_did) {
                let (status, seen) = apply_notifications_loaded(&mut state.nav, &mut state.unread_notifications, result);
                out.status = Some(status);
                out.seen_updated = seen;
            }
        },
        ViewEvent::NotificationCountLoaded { account_did, result, .. } => {
            apply_notification_count(&mut state.unread_notifications, current_did, account_did.as_str(), result);
        },
        ViewEvent::AccountLoaded { .. } => {
            out.account_accepted = true;
        },
    }
    out
}

/// A profile after the viewer followed (with the record) or unfollowed account `did`.
pub open spec fn profile_follow_applied(profile: ProfileSummary, did: Seq<char>, record: Option<String>) -> ProfileSummary {
    if profile.did@ == did {
        ProfileSummary { viewer_following: record, ..profile }
    } else {
        profile
    }
}

/// A view after a follow of `did` completed: its posts by that author and its profile
/// header, when it is that account's, show the new state.
pub open spec fn view_followed(before: ViewState, after: ViewState, did: Seq<char>, record: Option<String>) -> bool {
    &&& view_updated(
        before,
        ViewState { profile: before.profile, ..after },
        |item: FeedItem| follow_applied(item, did, record),
    )
    &&& after.profile == match before.profile {
        Some(p) => Some(profile_follow_applied(p, did, record)),
        None => None,
    }
}

/// Applies a completed follow or unfollow of the account `did` (`@handle`) to every
/// open view and returns the status: a follow record means followed, none unfollowed.
pub fn apply_follow_completed(
    nav: &mut NavigationStack,
    did: &str,
    handle: &str,
    result: Result<Option<String>, String>,
) -> (status: String)
    requires
        old(nav).wf(),
    ensures
        final(nav).wf(),
        match result {
            Ok(record) => {
                &&& final(nav).stack().len() == old(nav).stack().len()
                &&& forall|i: int| 0 <= i < old(nav).stack().len() ==> view_followed(
                    #[trigger] old(nav).stack()[i],
                    final(nav).stack()[i],
                    did@,
                    record,
                )
                &&& status@ == (if record is Some { "Followed @"@ } else { "Unfollowed @"@ }) + handle@
            },
            Err(e) => final(nav).stack() == old(nav).stack() && status@ == "Follow failed: "@ + e@,
        },
{
    match result {
        Ok(record) => {
            let followed = record.is_some();
            let rec = &record;
            let update = |item: FeedItem| -> (out: FeedItem)
                ensures
                    out == follow_applied(item, did@, *rec),
                { apply_follow(item, did, rec) };
            let ghost before = nav.stack();
            nav.for_each_item_mut(update);
            let ghost mid = nav.stack();
            let update_profile = |p: ProfileSummary| -> (out: ProfileSummary)
                ensures
                    out == profile_follow_applied(p, did@, *rec),
                { apply_profile_follow(p, did, rec) };
            nav.for_each_profile_mut(update_profile);
            proof {
                let g = |item: FeedItem| follow_applied(item, did@, record);
                assert forall|i: int| 0 <= i < before.len() implies view_followed(#[trigger] before[i], nav.stack()[i], did@, record) by {
                    assert(view_mapped(before[i], mid[i], update));
                    let after = nav.stack()[i];
                    assert(after == (ViewState { profile: after.profile, ..mid[i] }));
                    assert(ViewState { profile: before[i].profile, ..after } == ViewState { profile: before[i].profile, ..mid[i] });
                    assert forall|k: int| 0 <= k < before[i].items@.len() implies (#[trigger] mid[i].items@[k]) == match before[i].items@[k] {
                        ViewItem::Post(p) => ViewItem::Post(Box::new(g(*p))),
                        ViewItem::Notification(n) => ViewItem::Notification(n),
                    } by {
                        assert(crate::navigation::row_mapped(before[i].items@[k], mid[i].items@[k], update));
                    }
                    assert(view_updated(before[i], mid[i], g));
                }
            }
            let mut status = if followed { "Followed @".to_owned() } else { "Unfollowed @".to_owned() };
            push_str(&mut status, handle);
            status
        },
        Err(e) => {
            let mut status = "Follow failed: ".to_owned();
            push_str(&mut status, e.as_str());
            status
        },
    }
}

/// Which rows stay once the post `uri` is deleted: every row of another URI.
pub open spec fn rows_kept_after_delete(rows: Seq<ViewItem>, uri: Seq<char>) -> Seq<bool> {
    rows.map_values(|row: ViewItem| row.spec_uri() != uri)
}

/// Applies a completed deletion of the post `uri` to every open view and returns the
/// status.
pub fn apply_delete_completed(nav: &mut NavigationStack, uri: &str, result: Result<(), String>) -> (status: String)
    requires
        old(nav).wf(),
    ensures
        final(nav).wf(),
        match result {
            Ok(()) => {
                &&& final(nav).stack().len() == old(nav).stack().len()
                &&& forall|i: int| 0 <= i < old(nav).stack().len() ==> crate::navigation::view_filtered(
                    #[trigger] old(nav).stack()[i],
                    final(nav).stack()[i],
                    rows_kept_after_delete(old(nav).stack()[i].items@, uri@),
                )
                &&& status@ == "Post deleted"@
            },
            Err(e) => final(nav).stack() == old(nav).stack() && status@ == "Delete failed: "@ + e@,
        },
{
    match result {
        Ok(()) => {
            let keep = |row: &ViewItem| -> (r: bool)
                ensures
                    r == (row.spec_uri() != uri@),
                { !crate::text::strings_equal(row.uri(), uri) };
            let ghost before = nav.stack();
            nav.retain_items(keep);
            proof {
                assert forall|i: int| 0 <= i < before.len() implies crate::navigation::view_filtered(
                    #[trigger] before[i],
                    nav.stack()[i],
                    rows_kept_after_delete(before[i].items@, uri@),
                ) by {
                    assert(crate::navigation::view_retained(before[i], nav.stack()[i], keep));
                    let flags = choose|flags: Seq<bool>| #[trigger] crate::navigation::answers(keep, before[i].items@, flags)
                        && crate::navigation::view_filtered(before[i], nav.stack()[i], flags);
                    assert forall|k: int| 0 <= k < flags.len() implies flags[k] == rows_kept_after_delete(before[i].items@, uri@)[k] by {
                        assert(call_ensures(keep, (&before[i].items@[k],), flags[k]));
                    }
                    assert(flags =~= rows_kept_after_delete(before[i].items@, uri@));
                }
            }
            "Post deleted".to_owned()
        },
        Err(e) => {
            let mut status = "Delete failed: ".to_owned();
            push_str(&mut status, e.as_str());
            status
        },
    }
}

} // verus!
