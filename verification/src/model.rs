//! The post, notification and feed data that every view of the client shows.
use vstd::prelude::*;

use crate::text::push_str;

pub use crate::feed::{
    feed_item_from_feed_entry, feed_item_from_post, feed_item_from_quote, feed_sources_for_account,
    feed_sources_from_preferences, item_links, notification_items, profile_summary, thread_items, timeline_items,
};

verus! {

#[derive(Debug, Clone, PartialEq, Eq)]
pub struct FeedItem {
    pub uri: String,
    pub cid: Option<String>,
    pub viewer_like: Option<String>,
    pub viewer_repost: Option<String>,
    pub author_did: Option<String>,
    pub author_name: String,
    pub author_handle: String,
    pub author_following: Option<bool>,
    pub author_following_uri: Option<String>,
    pub avatar_url: Option<String>,
    pub text: String,
    pub indexed_at: Option<String>,
    pub reply_count: u64,
    pub repost_count: u64,
    pub like_count: u64,
    pub quote_count: u64,
    pub images: Vec<ImageRef>,
    pub videos: Vec<VideoRef>,
    pub external: Option<ExternalRef>,
    pub links: Vec<LinkRef>,
    pub quote: Option<QuotePost>,
    pub reason: Option<FeedReason>,
    pub reply: Option<ReplyContext>,
    pub reply_root: Option<PostRef>,
    pub embed_status: Option<String>,
    pub depth: usize,
}

#[derive(Debug, Clone, PartialEq, Eq)]
pub enum FeedReason {
    Repost { by_name: String, by_handle: String, indexed_at: Option<String> },
    Pin,
}

#[derive(Debug, Clone, PartialEq, Eq)]
pub struct ReplyContext {
    pub root_uri: String,
    pub parent_uri: String,
    pub parent_author_name: String,
    pub parent_author_handle: String,
    pub parent_text: String,
    pub grandparent_author_handle: Option<String>,
    pub parent_status: Option<ReplyParentStatus>,
}

#[derive(Debug, Clone, Copy, PartialEq, Eq)]
pub enum ReplyParentStatus {
    NotFound,
    Blocked,
}

#[derive(Debug, Clone, PartialEq, Eq)]
pub struct QuotePost {
    pub uri: String,
    pub cid: Option<String>,
    pub author_name: String,
    pub author_handle: String,
    pub text: String,
    pub indexed_at: Option<String>,
    pub images: Vec<ImageRef>,
    pub videos: Vec<VideoRef>,
    pub external: Option<ExternalRef>,
    pub links: Vec<LinkRef>,
    pub nested_quote: Option<String>,
}

#[derive(Debug, Clone, PartialEq, Eq)]
pub struct PostRef {
    pub uri: String,
    pub cid: String,
}

#[derive(Debug, Clone, PartialEq, Eq)]
pub struct ImageRef {
    pub thumb_url: String,
    pub fullsize_url: Option<String>,
    pub alt: Option<String>,
}

#[derive(Debug, Clone, PartialEq, Eq)]
pub struct VideoRef {
    pub playlist_url: String,
    pub thumb_url: Option<String>,
    pub alt: Option<String>,
    pub cid: Option<String>,
    pub aspect_ratio: Option<(u64, u64)>,
}

#[derive(Debug, Clone, PartialEq, Eq)]
pub struct ExternalRef {
    pub uri: String,
    pub title: String,
    pub description: Option<String>,
    pub thumb_url: Option<String>,
}

#[derive(Debug, Clone, PartialEq, Eq)]
pub struct LinkRef {
    pub uri: String,
    pub label: String,
    pub source: LinkSource,
}

impl LinkRef {
    /// A field-by-field copy.
    pub fn duplicate(&self) -> (r: LinkRef)
        ensures
            r == *self,
    {
        LinkRef { uri: self.uri.clone(), label: self.label.clone(), source: self.source }
    }
}

#[derive(Debug, Clone, Copy, PartialEq, Eq)]
pub enum LinkSource {
    External,
    Text,
    QuoteExternal,
    QuoteText,
}

impl LinkSource {
    pub open spec fn spec_label(self) -> Seq<char> {
        match self {
            LinkSource::External => "card"@,
            LinkSource::Text => "text"@,
            LinkSource::QuoteExternal => "quote card"@,
            LinkSource::QuoteText => "quote text"@,
        }
    }

    pub fn label(self) -> (r: &'static str)
        ensures
            r@ == self.spec_label(),
    {
        match self {
            LinkSource::External => "card",
            LinkSource::Text => "text",
            LinkSource::QuoteExternal => "quote card",
            LinkSource::QuoteText => "quote text",
        }
    }
}

#[derive(Debug, Clone, PartialEq, Eq)]
pub struct FeedSource {
    pub label: String,
    pub kind: FeedSourceKind,
}

#[derive(Debug, Clone, PartialEq, Eq)]
pub enum FeedSourceKind {
    Home,
    Author { handle: String, did: String },
    Generator { uri: String },
}

impl FeedSource {
    pub fn home() -> (r: FeedSource)
        ensures
            r.label@ == "Following"@,
            r.kind == FeedSourceKind::Home,
    {
        FeedSource { label: "Following".to_owned(), kind: FeedSourceKind::Home }
    }

    pub fn author(handle: &str, did: &str) -> (r: FeedSource)
        ensures
            r.label@ == "Your Posts"@,
            r.kind matches FeedSourceKind::Author { handle: h, did: d } && h@ == handle@ && d@
                == did@,
    {
        FeedSource {
            label: "Your Posts".to_owned(),
            kind: FeedSourceKind::Author { handle: handle.to_owned(), did: did.to_owned() },
        }
    }

    /// The generator URI of a custom feed; the home and author feeds have none.
    pub fn uri(&self) -> (r: Option<&str>)
        ensures
            match self.kind {
                FeedSourceKind::Generator { uri } => r matches Some(s) && s@ == uri@,
                _ => r is None,
            },
    {
        match &self.kind {
            FeedSourceKind::Home => None,
            FeedSourceKind::Author { .. } => None,
            FeedSourceKind::Generator { uri } => Some(uri.as_str()),
        }
    }
}

#[derive(Debug, Clone, Copy, Default, PartialEq, Eq)]
pub struct HomeFeedPrefs {
    pub hide_replies: bool,
    pub hide_replies_by_unfollowed: bool,
    pub hide_replies_by_like_count: Option<u64>,
    pub hide_reposts: bool,
    pub hide_quote_posts: bool,
}

impl HomeFeedPrefs {
    /// Preferences that hide nothing.
    pub fn show_all() -> (r: HomeFeedPrefs)
        ensures
            !r.hide_replies && !r.hide_replies_by_unfollowed && r.hide_replies_by_like_count is None
                && !r.hide_reposts && !r.hide_quote_posts,
    {
        HomeFeedPrefs {
            hide_replies: false,
            hide_replies_by_unfollowed: false,
            hide_replies_by_like_count: None,
            hide_reposts: false,
            hide_quote_posts: false,
        }
    }

    pub open spec fn replies_word(&self) -> Seq<char> {
        if self.hide_replies {
            "off"@
        } else if self.hide_replies_by_unfollowed || self.hide_replies_by_like_count is Some {
            "filtered"@
        } else {
            "on"@
        }
    }

    pub open spec fn spec_status_label(&self) -> Seq<char> {
        "Following · replies:"@ + self.replies_word() + " reposts:"@ + on_off(self.hide_reposts)
            + " quotes:"@ + on_off(self.hide_quote_posts)
    }

    pub fn status_label(&self) -> (r: String)
        ensures
            r@ == self.spec_status_label(),
    {
        let replies = if self.hide_replies {
            "off"
        } else if self.hide_replies_by_unfollowed || self.hide_replies_by_like_count.is_some() {
            "filtered"
        } else {
            "on"
        };
        let reposts = if self.hide_reposts {
            "off"
        } else {
            "on"
        };
        let quotes = if self.hide_quote_posts {
            "off"
        } else {
            "on"
        };
        let mut out = "Following · replies:".to_owned();
        push_str(&mut out, replies);
        push_str(&mut out, " reposts:");
        push_str(&mut out, reposts);
        push_str(&mut out, " quotes:");
        push_str(&mut out, quotes);
        out
    }

    /// Whether the home feed shows a post under these preferences: reposts and quote
    /// posts when they are not hidden, and replies unless hidden outright, hidden as
    /// replies to unfollowed authors, or below the like threshold.
    pub open spec fn allows_view(&self, item: ItemView) -> bool {
        &&& !(self.hide_reposts && item.reason matches Some(ReasonView::Repost { .. }))
        &&& !(self.hide_quote_posts && item.quote is Some)
        &&& item.reply is Some ==> {
            &&& !self.hide_replies
            &&& !(self.hide_replies_by_unfollowed && item.author_following == Some(false))
            &&& (self.hide_replies_by_like_count matches Some(min) ==> item.like_count >= min)
        }
    }

    pub open spec fn spec_allows(&self, item: &FeedItem) -> bool {
        self.allows_view(item@)
    }

    pub fn allows(&self, item: &FeedItem) -> (r: bool)
        ensures
            r == self.spec_allows(item),
    {
        if self.hide_reposts {
            if let Some(FeedReason::Repost { .. }) = &item.reason {
                return false;
            }
        }
        if self.hide_quote_posts && item.quote.is_some() {
            return false;
        }
        if item.reply.is_some() {
            if self.hide_replies {
                return false;
            }
            if self.hide_replies_by_unfollowed {
                if let Some(false) = item.author_following {
                    return false;
                }
            }
            if let Some(min_likes) = self.hide_replies_by_like_count {
                if item.like_count < min_likes {
                    return false;
                }
            }
        }
        true
    }
}


#[derive(Debug, Clone, Copy, PartialEq, Eq)]
pub enum NotificationReason {
    Like,
    Repost,
    Follow,
    Mention,
    Reply,
    Quote,
    Other,
}

#[derive(Debug, Clone, PartialEq, Eq)]
pub enum NotificationTarget {
    Post { uri: String },
    Profile { actor: String },
    NoTarget,
}

#[derive(Debug, Clone, PartialEq, Eq)]
pub struct NotificationItem {
    pub uri: String,
    pub cid: String,
    pub author_did: Option<String>,
    pub author_name: String,
    pub author_handle: String,
    pub author_following_uri: Option<String>,
    pub reason: NotificationReason,
    pub reason_subject: Option<String>,
    pub text: String,
    pub indexed_at: String,
    pub is_read: bool,
    pub target: NotificationTarget,
}

#[derive(Debug, Clone, PartialEq, Eq)]
pub struct ProfileSummary {
    pub did: String,
    pub handle: String,
    pub display_name: String,
    pub description: Option<String>,
    pub avatar_url: Option<String>,
    pub banner_url: Option<String>,
    pub viewer_following: Option<String>,
    pub followers_count: u64,
    pub follows_count: u64,
    pub posts_count: u64,
}

/// One row of a view: a post or a notification.
#[derive(Debug, Clone, PartialEq, Eq)]
pub enum ViewItem {
    Post(Box<FeedItem>),
    Notification(Box<NotificationItem>),
}

impl ViewItem {
    pub open spec fn spec_uri(self) -> Seq<char> {
        match self {
            ViewItem::Post(item) => item.uri@,
            ViewItem::Notification(item) => item.uri@,
        }
    }

    /// The text that search looks through: author name, handle and body.
    pub open spec fn spec_searchable_text(self) -> Seq<char> {
        match self {
            ViewItem::Post(item) => item.author_name@ + " @"@ + item.author_handle@ + " "@
                + item.text@,
            ViewItem::Notification(item) => item.author_name@ + " @"@ + item.author_handle@
                + " "@ + item.text@,
        }
    }

    pub open spec fn spec_as_post(self) -> Option<FeedItem> {
        match self {
            ViewItem::Post(item) => Some(*item),
            _ => None,
        }
    }

    pub fn uri(&self) -> (r: &str)
        ensures
            r@ == self.spec_uri(),
    {
        match self {
            ViewItem::Post(item) => item.uri.as_str(),
            ViewItem::Notification(item) => item.uri.as_str(),
        }
    }

    pub fn searchable_text(&self) -> (r: String)
        ensures
            r@ == self.spec_searchable_text(),
    {
        let (name, handle, text) = match self {
            ViewItem::Post(item) => (&item.author_name, &item.author_handle, &item.text),
            ViewItem::Notification(item) => (&item.author_name, &item.author_handle, &item.text),
        };
        let mut out = name.clone();
        push_str(&mut out, " @");
        push_str(&mut out, handle.as_str());
        push_str(&mut out, " ");
        push_str(&mut out, text.as_str());
        out
    }

    pub fn as_post(&self) -> (r: Option<&FeedItem>)
        ensures
            match self {
                ViewItem::Post(item) => r == Some(&**item),
                _ => r is None,
            },
    {
        match self {
            ViewItem::Post(item) => Some(&**item),
            _ => None,
        }
    }

    pub fn as_notification(&self) -> (r: Option<&NotificationItem>)
        ensures
            match self {
                ViewItem::Notification(item) => r == Some(&**item),
                _ => r is None,
            },
    {
        match self {
            ViewItem::Notification(item) => Some(&**item),
            _ => None,
        }
    }
}

impl From<FeedItem> for ViewItem {
    fn from(item: FeedItem) -> (r: ViewItem) {
        ViewItem::Post(Box::new(item))
    }
}

impl vstd::std_specs::convert::FromSpecImpl<FeedItem> for ViewItem {
    open spec fn obeys_from_spec() -> bool {
        true
    }

    open spec fn from_spec(item: FeedItem) -> ViewItem {
        ViewItem::Post(Box::new(item))
    }
}

/// Post rows for a list of posts.
pub open spec fn post_rows(items: Seq<FeedItem>) -> Seq<ViewItem> {
    items.map_values(|item: FeedItem| ViewItem::Post(Box::new(item)))
}

/// Wraps posts as view rows, keeping their order.
pub fn rows_from_posts(items: Vec<FeedItem>) -> (rows: Vec<ViewItem>)
    ensures
        rows@ == post_rows(items@),
{
    let mut rows: Vec<ViewItem> = Vec::new();
    let ghost all_items = items@;
    for item in it: items
        invariant
            it.seq() == all_items,
            rows@ == post_rows(all_items.take(it.index() as int)),
    {
        proof {
            assert(all_items.take(it.index() + 1) =~= all_items.take(it.index() as int).push(item));
        }
        rows.push(ViewItem::Post(Box::new(item)));
        proof {
            assert(rows@ =~= post_rows(all_items.take(it.index() + 1)));
        }
    }
    assert(all_items.take(all_items.len() as int) =~= all_items);
    rows
}

pub open spec fn on_off(hidden: bool) -> Seq<char> {
    if hidden {
        "off"@
    } else {
        "on"@
    }
}

// ---------------------------------------------------------------------------
// What the specifications see of the model: the same data with texts as character
// sequences.

pub open spec fn opt_view(o: Option<String>) -> Option<Seq<char>> {
    match o {
        Some(s) => Some(s@),
        None => None,
    }
}

pub struct ImageView {
    pub thumb_url: Seq<char>,
    pub fullsize_url: Option<Seq<char>>,
    pub alt: Option<Seq<char>>,
}

impl View for ImageRef {
    type V = ImageView;

    open spec fn view(&self) -> ImageView {
        ImageView { thumb_url: self.thumb_url@, fullsize_url: opt_view(self.fullsize_url), alt: opt_view(self.alt) }
    }
}

pub struct VideoView {
    pub playlist_url: Seq<char>,
    pub thumb_url: Option<Seq<char>>,
    pub alt: Option<Seq<char>>,
    pub cid: Option<Seq<char>>,
    pub aspect_ratio: Option<(u64, u64)>,
}

impl View for VideoRef {
    type V = VideoView;

    open spec fn view(&self) -> VideoView {
        VideoView {
            playlist_url: self.playlist_url@,
            thumb_url: opt_view(self.thumb_url),
            alt: opt_view(self.alt),
            cid: opt_view(self.cid),
            aspect_ratio: self.aspect_ratio,
        }
    }
}

pub struct ExternalView {
    pub uri: Seq<char>,
    pub title: Seq<char>,
    pub description: Option<Seq<char>>,
    pub thumb_url: Option<Seq<char>>,
}

impl View for ExternalRef {
    type V = ExternalView;

    open spec fn view(&self) -> ExternalView {
        ExternalView {
            uri: self.uri@,
            title: self.title@,
            description: opt_view(self.description),
            thumb_url: opt_view(self.thumb_url),
        }
    }
}

pub open spec fn external_view(e: Option<ExternalRef>) -> Option<ExternalView> {
    match e {
        Some(x) => Some(x@),
        None => None,
    }
}

impl View for LinkRef {
    type V = (Seq<char>, Seq<char>, LinkSource);

    open spec fn view(&self) -> (Seq<char>, Seq<char>, LinkSource) {
        (self.uri@, self.label@, self.source)
    }
}

pub open spec fn images_view(v: Seq<ImageRef>) -> Seq<ImageView> {
    v.map_values(|i: ImageRef| i@)
}

pub open spec fn videos_view(v: Seq<VideoRef>) -> Seq<VideoView> {
    v.map_values(|i: VideoRef| i@)
}

pub open spec fn links_view(v: Seq<LinkRef>) -> Seq<(Seq<char>, Seq<char>, LinkSource)> {
    v.map_values(|i: LinkRef| i@)
}

pub struct QuoteView {
    pub uri: Seq<char>,
    pub cid: Option<Seq<char>>,
    pub author_name: Seq<char>,
    pub author_handle: Seq<char>,
    pub text: Seq<char>,
    pub indexed_at: Option<Seq<char>>,
    pub images: Seq<ImageView>,
    pub videos: Seq<VideoView>,
    pub external: Option<ExternalView>,
    pub links: Seq<(Seq<char>, Seq<char>, LinkSource)>,
    pub nested_quote: Option<Seq<char>>,
}

impl View for QuotePost {
    type V = QuoteView;

    open spec fn view(&self) -> QuoteView {
        QuoteView {
            uri: self.uri@,
            cid: opt_view(self.cid),
            author_name: self.author_name@,
            author_handle: self.author_handle@,
            text: self.text@,
            indexed_at: opt_view(self.indexed_at),
            images: images_view(self.images@),
            videos: videos_view(self.videos@),
            external: external_view(self.external),
            links: links_view(self.links@),
            nested_quote: opt_view(self.nested_quote),
        }
    }
}

pub open spec fn quote_view(q: Option<QuotePost>) -> Option<QuoteView> {
    match q {
        Some(x) => Some(x@),
        None => None,
    }
}

pub enum ReasonView {
    Repost { by_name: Seq<char>, by_handle: Seq<char>, indexed_at: Option<Seq<char>> },
    Pin,
}

impl View for FeedReason {
    type V = ReasonView;

    open spec fn view(&self) -> ReasonView {
        match self {
            FeedReason::Repost { by_name, by_handle, indexed_at } => ReasonView::Repost {
                by_name: by_name@,
                by_handle: by_handle@,
                indexed_at: opt_view(*indexed_at),
            },
            FeedReason::Pin => ReasonView::Pin,
        }
    }
}

pub struct ReplyView {
    pub root_uri: Seq<char>,
    pub parent_uri: Seq<char>,
    pub parent_author_name: Seq<char>,
    pub parent_author_handle: Seq<char>,
    pub parent_text: Seq<char>,
    pub grandparent_author_handle: Option<Seq<char>>,
    pub parent_status: Option<ReplyParentStatus>,
}

impl View for ReplyContext {
    type V = ReplyView;

    open spec fn view(&self) -> ReplyView {
        ReplyView {
            root_uri: self.root_uri@,
            parent_uri: self.parent_uri@,
            parent_author_name: self.parent_author_name@,
            parent_author_handle: self.parent_author_handle@,
            parent_text: self.parent_text@,
            grandparent_author_handle: opt_view(self.grandparent_author_handle),
            parent_status: self.parent_status,
        }
    }
}

pub struct ItemView {
    pub uri: Seq<char>,
    pub cid: Option<Seq<char>>,
    pub viewer_like: Option<Seq<char>>,
    pub viewer_repost: Option<Seq<char>>,
    pub author_did: Option<Seq<char>>,
    pub author_name: Seq<char>,
    pub author_handle: Seq<char>,
    pub author_following: Option<bool>,
    pub author_following_uri: Option<Seq<char>>,
    pub avatar_url: Option<Seq<char>>,
    pub text: Seq<char>,
    pub indexed_at: Option<Seq<char>>,
    pub reply_count: u64,
    pub repost_count: u64,
    pub like_count: u64,
    pub quote_count: u64,
    pub images: Seq<ImageView>,
    pub videos: Seq<VideoView>,
    pub external: Option<ExternalView>,
    pub links: Seq<(Seq<char>, Seq<char>, LinkSource)>,
    pub quote: Option<QuoteView>,
    pub reason: Option<ReasonView>,
    pub reply: Option<ReplyView>,
    pub reply_root: Option<(Seq<char>, Seq<char>)>,
    pub embed_status: Option<Seq<char>>,
    pub depth: usize,
}

impl View for FeedItem {
    type V = ItemView;

    open spec fn view(&self) -> ItemView {
        ItemView {
            uri: self.uri@,
            cid: opt_view(self.cid),
            viewer_like: opt_view(self.viewer_like),
            viewer_repost: opt_view(self.viewer_repost),
            author_did: opt_view(self.author_did),
            author_name: self.author_name@,
            author_handle: self.author_handle@,
            author_following: self.author_following,
            author_following_uri: opt_view(self.author_following_uri),
            avatar_url: opt_view(self.avatar_url),
            text: self.text@,
            indexed_at: opt_view(self.indexed_at),
            reply_count: self.reply_count,
            repost_count: self.repost_count,
            like_count: self.like_count,
            quote_count: self.quote_count,
            images: images_view(self.images@),
            videos: videos_view(self.videos@),
            external: external_view(self.external),
            links: links_view(self.links@),
            quote: quote_view(self.quote),
            reason: match self.reason {
                Some(r) => Some(r@),
                None => None,
            },
            reply: match self.reply {
                Some(r) => Some(r@),
                None => None,
            },
            reply_root: match self.reply_root {
                Some(p) => Some((p.uri@, p.cid@)),
                None => None,
            },
            embed_status: opt_view(self.embed_status),
            depth: self.depth,
        }
    }
}

pub open spec fn items_view(v: Seq<FeedItem>) -> Seq<ItemView> {
    v.map_values(|i: FeedItem| i@)
}

pub enum SourceKindView {
    Home,
    Author { handle: Seq<char>, did: Seq<char> },
    Generator { uri: Seq<char> },
}

pub struct FeedSourceView {
    pub label: Seq<char>,
    pub kind: SourceKindView,
}

impl View for FeedSource {
    type V = FeedSourceView;

    open spec fn view(&self) -> FeedSourceView {
        FeedSourceView {
            label: self.label@,
            kind: match self.kind {
                FeedSourceKind::Home => SourceKindView::Home,
                FeedSourceKind::Author { handle, did } => SourceKindView::Author { handle: handle@, did: did@ },
                FeedSourceKind::Generator { uri } => SourceKindView::Generator { uri: uri@ },
            },
        }
    }
}

pub open spec fn sources_view(v: Seq<FeedSource>) -> Seq<FeedSourceView> {
    v.map_values(|s: FeedSource| s@)
}

} // verus!
