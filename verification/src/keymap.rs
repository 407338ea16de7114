//! The keyboard map: which key does what in each input context, and the help
//! text that is generated from it.
use vstd::prelude::*;

use crate::text::{concat_all, join, join_strings, push_str, string_views, trim_end, trim_end_string};

verus! {

#[derive(Debug, Clone, Copy, PartialEq, Eq, Hash, Structural)]
pub enum InputContext {
    Global,
    Normal,
    Search,
    Menu,
    Media,
    Links,
    Composer,
    Confirmation,
}

impl InputContext {
    pub open spec fn spec_readme_label(self) -> Seq<char> {
        match self {
            InputContext::Global => "Global"@,
            InputContext::Normal => "Normal"@,
            InputContext::Search => "Search"@,
            InputContext::Menu => "Menu"@,
            InputContext::Media => "Media overlay"@,
            InputContext::Links => "Link picker"@,
            InputContext::Composer => "Composer"@,
            InputContext::Confirmation => "Delete confirmation"@,
        }
    }

    pub fn readme_label(self) -> (r: &'static str)
        ensures
            r@ == self.spec_readme_label(),
    {
        match self {
            InputContext::Global => "Global",
            InputContext::Normal => "Normal",
            InputContext::Search => "Search",
            InputContext::Menu => "Menu",
            InputContext::Media => "Media overlay",
            InputContext::Links => "Link picker",
            InputContext::Composer => "Composer",
            InputContext::Confirmation => "Delete confirmation",
        }
    }
}

#[derive(Debug, Clone, Copy, PartialEq, Eq, Hash, Structural)]
pub enum KeyAction {
    Quit,
    BackOrQuit,
    MoveDown,
    MoveUp,
    HalfPageDown,
    HalfPageUp,
    PageDown,
    PageUp,
    OpenMenu,
    PreviewMedia,
    OpenLinks,
    PreviousFeed,
    NextFeed,
    LoadPending,
    ToggleLike,
    ToggleRepost,
    ToggleFollow,
    DeleteOwnPost,
    ComposePost,
    ComposeReply,
    ComposeQuote,
    JumpTop,
    JumpBottom,
    StartSearch,
    SearchNext,
    Back,
    Escape,
    OpenSelected,
    OpenQuote,
    OpenProfile,
    OpenNotifications,
    Reload,
    CloseOverlay,
    MenuNextSection,
    MenuPreviousSection,
    MenuTabNext,
    MenuTabPrevious,
    MediaPrevious,
    MediaNext,
    PlayVideo,
    OpenMediaExternally,
    LinkNext,
    LinkPrevious,
    OpenLink,
    ConfirmDelete,
    CancelDelete,
    SubmitComposer,
    InsertNewline,
    Backspace,
    SubmitSearch,
    CancelSearch,
}

/// A key, as the terminal reports it.
#[derive(Debug, Clone, Copy, PartialEq, Eq, Hash, Structural)]
pub enum KeyCode {
    Backspace,
    Enter,
    Left,
    Right,
    Up,
    Down,
    Home,
    End,
    PageUp,
    PageDown,
    Tab,
    BackTab,
    Delete,
    Insert,
    F(u8),
    Char(char),
    Null,
    Esc,
    /// Any other key; no binding uses it.
    Other,
}

/// Modifier keys held with a key, as bits: shift 1, control 2, alt 4, super 8,
/// hyper 16, meta 32.
#[derive(Debug, Clone, Copy, PartialEq, Eq, Hash, Structural)]
pub struct KeyModifiers {
    pub bits: u8,
}

pub const SHIFT_BITS: u8 = 1u8;

pub const CONTROL_BITS: u8 = 2u8;

impl KeyModifiers {
    pub fn none() -> (r: KeyModifiers)
        ensures
            r.bits == 0,
    {
        KeyModifiers { bits: 0 }
    }

    pub fn control() -> (r: KeyModifiers)
        ensures
            r.bits == CONTROL_BITS,
    {
        KeyModifiers { bits: CONTROL_BITS }
    }

    pub fn shift() -> (r: KeyModifiers)
        ensures
            r.bits == SHIFT_BITS,
    {
        KeyModifiers { bits: SHIFT_BITS }
    }

    pub open spec fn spec_contains(self, other: KeyModifiers) -> bool {
        self.bits & other.bits == other.bits
    }

    /// Whether every modifier of `other` is held.
    pub fn contains(self, other: KeyModifiers) -> (r: bool)
        ensures
            r == self.spec_contains(other),
    {
        self.bits & other.bits == other.bits
    }

    pub fn is_empty(self) -> (r: bool)
        ensures
            r == (self.bits == 0),
    {
        self.bits == 0
    }
}

#[derive(Debug, Clone, Copy, PartialEq, Eq, Hash, Structural)]
pub struct KeyEvent {
    pub code: KeyCode,
    pub modifiers: KeyModifiers,
}

impl KeyEvent {
    pub fn new(code: KeyCode, modifiers: KeyModifiers) -> (r: KeyEvent)
        ensures
            r.code == code,
            r.modifiers == modifiers,
    {
        KeyEvent { code, modifiers }
    }
}

#[derive(Debug, Clone, Copy, PartialEq, Eq, Hash, Structural)]
pub enum ModifierPattern {
    Any,
    Contains(KeyModifiers),
}

#[derive(Debug, Clone, Copy, PartialEq, Eq, Hash, Structural)]
pub struct KeyPattern {
    pub code: KeyCode,
    pub modifiers: ModifierPattern,
}

impl KeyPattern {
    pub open spec fn spec_matches(self, key: KeyEvent) -> bool {
        self.code == key.code && match self.modifiers {
            ModifierPattern::Any => true,
            ModifierPattern::Contains(m) => key.modifiers.spec_contains(m),
        }
    }

    pub fn matches(self, key: KeyEvent) -> (r: bool)
        ensures
            r == self.spec_matches(key),
    {
        self.code == key.code && match self.modifiers {
            ModifierPattern::Any => true,
            ModifierPattern::Contains(m) => key.modifiers.contains(m),
        }
    }
}

#[derive(Debug, Clone, Copy, PartialEq, Eq, PartialOrd, Ord, Structural)]
pub enum HelpGroup {
    Movement,
    Navigation,
    Surfaces,
    Actions,
    Writing,
    Feeds,
    Controls,
}

#[derive(Debug, Clone, Copy)]
pub struct Help {
    pub group: HelpGroup,
    pub keys: &'static str,
    pub description: &'static str,
    pub compact: Option<&'static str>,
}

#[derive(Debug, Clone, Copy)]
pub struct Binding {
    pub context: InputContext,
    pub pattern: KeyPattern,
    pub action: KeyAction,
    pub help: Option<Help>,
}

/// Every key binding, in priority order; global bindings apply in every context.
pub open spec fn binding_table() -> Seq<Binding> {
    seq![
        Binding { context: InputContext::Global, pattern: KeyPattern { code: KeyCode::Char('c'), modifiers: ModifierPattern::Contains(KeyModifiers { bits: 2u8 }) }, action: KeyAction::Quit, help: Some(Help { group: HelpGroup::Controls, keys: "Ctrl-C", description: "quit", compact: Some("Ctrl-C quit · ? menu") }) },
        Binding { context: InputContext::Normal, pattern: KeyPattern { code: KeyCode::Char('j'), modifiers: ModifierPattern::Any }, action: KeyAction::MoveDown, help: Some(Help { group: HelpGroup::Movement, keys: "j/k or arrows", description: "move", compact: Some("j/k/arrows move · Ctrl-d/u half page · PgUp/PgDn page") }) },
        Binding { context: InputContext::Normal, pattern: KeyPattern { code: KeyCode::Down, modifiers: ModifierPattern::Any }, action: KeyAction::MoveDown, help: None },
        Binding { context: InputContext::Normal, pattern: KeyPattern { code: KeyCode::Char('k'), modifiers: ModifierPattern::Any }, action: KeyAction::MoveUp, help: None },
        Binding { context: InputContext::Normal, pattern: KeyPattern { code: KeyCode::Up, modifiers: ModifierPattern::Any }, action: KeyAction::MoveUp, help: None },
        Binding { context: InputContext::Normal, pattern: KeyPattern { code: KeyCode::Char('d'), modifiers: ModifierPattern::Contains(KeyModifiers { bits: 2u8 }) }, action: KeyAction::HalfPageDown, help: Some(Help { group: HelpGroup::Movement, keys: "Ctrl-d/Ctrl-u", description: "half page", compact: None }) },
        Binding { context: InputContext::Normal, pattern: KeyPattern { code: KeyCode::Char('u'), modifiers: ModifierPattern::Contains(KeyModifiers { bits: 2u8 }) }, action: KeyAction::HalfPageUp, help: None },
        Binding { context: InputContext::Normal, pattern: KeyPattern { code: KeyCode::PageUp, modifiers: ModifierPattern::Any }, action: KeyAction::PageUp, help: Some(Help { group: HelpGroup::Movement, keys: "PgUp/PgDn", description: "page", compact: None }) },
        Binding { context: InputContext::Normal, pattern: KeyPattern { code: KeyCode::PageDown, modifiers: ModifierPattern::Any }, action: KeyAction::PageDown, help: None },
        Binding { context: InputContext::Normal, pattern: KeyPattern { code: KeyCode::Char('g'), modifiers: ModifierPattern::Any }, action: KeyAction::JumpTop, help: Some(Help { group: HelpGroup::Movement, keys: "g/G", description: "top/bottom", compact: None }) },
        Binding { context: InputContext::Normal, pattern: KeyPattern { code: KeyCode::Char('G'), modifiers: ModifierPattern::Any }, action: KeyAction::JumpBottom, help: None },
        Binding { context: InputContext::Normal, pattern: KeyPattern { code: KeyCode::Char('l'), modifiers: ModifierPattern::Any }, action: KeyAction::OpenSelected, help: Some(Help { group: HelpGroup::Navigation, keys: "l/Enter/Right", description: "open selected", compact: Some("l/Enter/Right open · h/Left/Esc back · q back/quit") }) },
        Binding { context: InputContext::Normal, pattern: KeyPattern { code: KeyCode::Enter, modifiers: ModifierPattern::Any }, action: KeyAction::OpenSelected, help: None },
        Binding { context: InputContext::Normal, pattern: KeyPattern { code: KeyCode::Right, modifiers: ModifierPattern::Any }, action: KeyAction::OpenSelected, help: None },
        Binding { context: InputContext::Normal, pattern: KeyPattern { code: KeyCode::Char('h'), modifiers: ModifierPattern::Any }, action: KeyAction::Back, help: Some(Help { group: HelpGroup::Navigation, keys: "h/Left", description: "back", compact: None }) },
        Binding { context: InputContext::Normal, pattern: KeyPattern { code: KeyCode::Left, modifiers: ModifierPattern::Any }, action: KeyAction::Back, help: None },
        Binding { context: InputContext::Normal, pattern: KeyPattern { code: KeyCode::Esc, modifiers: ModifierPattern::Any }, action: KeyAction::Escape, help: Some(Help { group: HelpGroup::Navigation, keys: "Esc", description: "back/settings", compact: None }) },
        Binding { context: InputContext::Normal, pattern: KeyPattern { code: KeyCode::Char('q'), modifiers: ModifierPattern::Any }, action: KeyAction::BackOrQuit, help: Some(Help { group: HelpGroup::Navigation, keys: "q", description: "back; quit at root", compact: None }) },
        Binding { context: InputContext::Normal, pattern: KeyPattern { code: KeyCode::Char('P'), modifiers: ModifierPattern::Any }, action: KeyAction::OpenProfile, help: Some(Help { group: HelpGroup::Surfaces, keys: "P", description: "profile", compact: Some("P profile · N notifications · Space media · o links · e quote") }) },
        Binding { context: InputContext::Normal, pattern: KeyPattern { code: KeyCode::Char('N'), modifiers: ModifierPattern::Any }, action: KeyAction::OpenNotifications, help: Some(Help { group: HelpGroup::Surfaces, keys: "N", description: "notifications", compact: None }) },
        Binding { context: InputContext::Normal, pattern: KeyPattern { code: KeyCode::Char(' '), modifiers: ModifierPattern::Any }, action: KeyAction::PreviewMedia, help: Some(Help { group: HelpGroup::Navigation, keys: "Space", description: "media", compact: None }) },
        Binding { context: InputContext::Normal, pattern: KeyPattern { code: KeyCode::Char('o'), modifiers: ModifierPattern::Any }, action: KeyAction::OpenLinks, help: Some(Help { group: HelpGroup::Navigation, keys: "o", description: "links", compact: None }) },
        Binding { context: InputContext::Normal, pattern: KeyPattern { code: KeyCode::Char('e'), modifiers: ModifierPattern::Any }, action: KeyAction::OpenQuote, help: Some(Help { group: HelpGroup::Navigation, keys: "e", description: "quoted post", compact: None }) },
        Binding { context: InputContext::Normal, pattern: KeyPattern { code: KeyCode::Char('f'), modifiers: ModifierPattern::Any }, action: KeyAction::ToggleLike, help: Some(Help { group: HelpGroup::Actions, keys: "f", description: "like", compact: Some("f/b/F like/repost/follow · p/r/Q post/reply/quote · d delete") }) },
        Binding { context: InputContext::Normal, pattern: KeyPattern { code: KeyCode::Char('b'), modifiers: ModifierPattern::Any }, action: KeyAction::ToggleRepost, help: Some(Help { group: HelpGroup::Actions, keys: "b", description: "repost", compact: None }) },
        Binding { context: InputContext::Normal, pattern: KeyPattern { code: KeyCode::Char('F'), modifiers: ModifierPattern::Any }, action: KeyAction::ToggleFollow, help: Some(Help { group: HelpGroup::Actions, keys: "F", description: "follow", compact: None }) },
        Binding { context: InputContext::Normal, pattern: KeyPattern { code: KeyCode::Char('d'), modifiers: ModifierPattern::Any }, action: KeyAction::DeleteOwnPost, help: Some(Help { group: HelpGroup::Actions, keys: "d", description: "delete", compact: None }) },
        Binding { context: InputContext::Normal, pattern: KeyPattern { code: KeyCode::Char('p'), modifiers: ModifierPattern::Any }, action: KeyAction::ComposePost, help: Some(Help { group: HelpGroup::Writing, keys: "p", description: "post", compact: None }) },
        Binding { context: InputContext::Normal, pattern: KeyPattern { code: KeyCode::Char('r'), modifiers: ModifierPattern::Any }, action: KeyAction::ComposeReply, help: Some(Help { group: HelpGroup::Writing, keys: "r", description: "reply", compact: None }) },
        Binding { context: InputContext::Normal, pattern: KeyPattern { code: KeyCode::Char('Q'), modifiers: ModifierPattern::Any }, action: KeyAction::ComposeQuote, help: Some(Help { group: HelpGroup::Writing, keys: "Q", description: "quote", compact: None }) },
        Binding { context: InputContext::Normal, pattern: KeyPattern { code: KeyCode::Char('['), modifiers: ModifierPattern::Any }, action: KeyAction::PreviousFeed, help: Some(Help { group: HelpGroup::Feeds, keys: "[/]", description: "previous/next feed", compact: Some("[/] feeds · / search · n next · R reload · u pending") }) },
        Binding { context: InputContext::Normal, pattern: KeyPattern { code: KeyCode::Char(']'), modifiers: ModifierPattern::Any }, action: KeyAction::NextFeed, help: None },
        Binding { context: InputContext::Normal, pattern: KeyPattern { code: KeyCode::Char('/'), modifiers: ModifierPattern::Any }, action: KeyAction::StartSearch, help: Some(Help { group: HelpGroup::Feeds, keys: "/", description: "search", compact: None }) },
        Binding { context: InputContext::Normal, pattern: KeyPattern { code: KeyCode::Char('n'), modifiers: ModifierPattern::Any }, action: KeyAction::SearchNext, help: Some(Help { group: HelpGroup::Feeds, keys: "n", description: "next match", compact: None }) },
        Binding { context: InputContext::Normal, pattern: KeyPattern { code: KeyCode::Char('R'), modifiers: ModifierPattern::Any }, action: KeyAction::Reload, help: Some(Help { group: HelpGroup::Feeds, keys: "R", description: "reload", compact: None }) },
        Binding { context: InputContext::Normal, pattern: KeyPattern { code: KeyCode::Char('u'), modifiers: ModifierPattern::Any }, action: KeyAction::LoadPending, help: Some(Help { group: HelpGroup::Feeds, keys: "u", description: "load pending", compact: None }) },
        Binding { context: InputContext::Normal, pattern: KeyPattern { code: KeyCode::Char('?'), modifiers: ModifierPattern::Any }, action: KeyAction::OpenMenu, help: Some(Help { group: HelpGroup::Controls, keys: "?", description: "menu", compact: None }) },
        Binding { context: InputContext::Search, pattern: KeyPattern { code: KeyCode::Esc, modifiers: ModifierPattern::Any }, action: KeyAction::CancelSearch, help: Some(Help { group: HelpGroup::Controls, keys: "Esc", description: "cancel", compact: None }) },
        Binding { context: InputContext::Search, pattern: KeyPattern { code: KeyCode::Enter, modifiers: ModifierPattern::Any }, action: KeyAction::SubmitSearch, help: Some(Help { group: HelpGroup::Controls, keys: "Enter", description: "search", compact: None }) },
        Binding { context: InputContext::Search, pattern: KeyPattern { code: KeyCode::Backspace, modifiers: ModifierPattern::Any }, action: KeyAction::Backspace, help: Some(Help { group: HelpGroup::Controls, keys: "Backspace", description: "delete character", compact: None }) },
        Binding { context: InputContext::Menu, pattern: KeyPattern { code: KeyCode::Esc, modifiers: ModifierPattern::Any }, action: KeyAction::CloseOverlay, help: Some(Help { group: HelpGroup::Controls, keys: "Esc/?/Enter/q", description: "close", compact: Some("j/k sections · Tab action · [/] feeds · Esc/?/Enter/q close") }) },
        Binding { context: InputContext::Menu, pattern: KeyPattern { code: KeyCode::Char('?'), modifiers: ModifierPattern::Any }, action: KeyAction::CloseOverlay, help: None },
        Binding { context: InputContext::Menu, pattern: KeyPattern { code: KeyCode::Enter, modifiers: ModifierPattern::Any }, action: KeyAction::CloseOverlay, help: None },
        Binding { context: InputContext::Menu, pattern: KeyPattern { code: KeyCode::Char('q'), modifiers: ModifierPattern::Any }, action: KeyAction::CloseOverlay, help: None },
        Binding { context: InputContext::Menu, pattern: KeyPattern { code: KeyCode::Char('j'), modifiers: ModifierPattern::Any }, action: KeyAction::MenuNextSection, help: Some(Help { group: HelpGroup::Movement, keys: "j/k or arrows", description: "change section", compact: None }) },
        Binding { context: InputContext::Menu, pattern: KeyPattern { code: KeyCode::Down, modifiers: ModifierPattern::Any }, action: KeyAction::MenuNextSection, help: None },
        Binding { context: InputContext::Menu, pattern: KeyPattern { code: KeyCode::Char('k'), modifiers: ModifierPattern::Any }, action: KeyAction::MenuPreviousSection, help: None },
        Binding { context: InputContext::Menu, pattern: KeyPattern { code: KeyCode::Up, modifiers: ModifierPattern::Any }, action: KeyAction::MenuPreviousSection, help: None },
        Binding { context: InputContext::Menu, pattern: KeyPattern { code: KeyCode::Tab, modifiers: ModifierPattern::Any }, action: KeyAction::MenuTabNext, help: Some(Help { group: HelpGroup::Navigation, keys: "Tab/Shift-Tab", description: "section action", compact: None }) },
        Binding { context: InputContext::Menu, pattern: KeyPattern { code: KeyCode::BackTab, modifiers: ModifierPattern::Any }, action: KeyAction::MenuTabPrevious, help: None },
        Binding { context: InputContext::Menu, pattern: KeyPattern { code: KeyCode::Char('['), modifiers: ModifierPattern::Any }, action: KeyAction::PreviousFeed, help: Some(Help { group: HelpGroup::Feeds, keys: "[/]", description: "previous/next feed", compact: None }) },
        Binding { context: InputContext::Menu, pattern: KeyPattern { code: KeyCode::Char(']'), modifiers: ModifierPattern::Any }, action: KeyAction::NextFeed, help: None },
        Binding { context: InputContext::Media, pattern: KeyPattern { code: KeyCode::Esc, modifiers: ModifierPattern::Any }, action: KeyAction::CloseOverlay, help: Some(Help { group: HelpGroup::Controls, keys: "Space/Esc/q", description: "close", compact: Some("h/l switch · Enter/p play · u open · Space/Esc/q close") }) },
        Binding { context: InputContext::Media, pattern: KeyPattern { code: KeyCode::Char(' '), modifiers: ModifierPattern::Any }, action: KeyAction::CloseOverlay, help: None },
        Binding { context: InputContext::Media, pattern: KeyPattern { code: KeyCode::Char('q'), modifiers: ModifierPattern::Any }, action: KeyAction::CloseOverlay, help: None },
        Binding { context: InputContext::Media, pattern: KeyPattern { code: KeyCode::Char('h'), modifiers: ModifierPattern::Any }, action: KeyAction::MediaPrevious, help: Some(Help { group: HelpGroup::Movement, keys: "h/l or arrows", description: "switch", compact: None }) },
        Binding { context: InputContext::Media, pattern: KeyPattern { code: KeyCode::Left, modifiers: ModifierPattern::Any }, action: KeyAction::MediaPrevious, help: None },
        Binding { context: InputContext::Media, pattern: KeyPattern { code: KeyCode::Char('l'), modifiers: ModifierPattern::Any }, action: KeyAction::MediaNext, help: None },
        Binding { context: InputContext::Media, pattern: KeyPattern { code: KeyCode::Right, modifiers: ModifierPattern::Any }, action: KeyAction::MediaNext, help: None },
        Binding { context: InputContext::Media, pattern: KeyPattern { code: KeyCode::Enter, modifiers: ModifierPattern::Any }, action: KeyAction::PlayVideo, help: Some(Help { group: HelpGroup::Actions, keys: "Enter/p", description: "play video", compact: None }) },
        Binding { context: InputContext::Media, pattern: KeyPattern { code: KeyCode::Char('p'), modifiers: ModifierPattern::Any }, action: KeyAction::PlayVideo, help: None },
        Binding { context: InputContext::Media, pattern: KeyPattern { code: KeyCode::Char('u'), modifiers: ModifierPattern::Any }, action: KeyAction::OpenMediaExternally, help: Some(Help { group: HelpGroup::Actions, keys: "u", description: "open externally", compact: None }) },
        Binding { context: InputContext::Links, pattern: KeyPattern { code: KeyCode::Esc, modifiers: ModifierPattern::Any }, action: KeyAction::CloseOverlay, help: Some(Help { group: HelpGroup::Controls, keys: "Esc/q", description: "close", compact: Some("j/k move · Enter/u open · Esc/q close") }) },
        Binding { context: InputContext::Links, pattern: KeyPattern { code: KeyCode::Char('q'), modifiers: ModifierPattern::Any }, action: KeyAction::CloseOverlay, help: None },
        Binding { context: InputContext::Links, pattern: KeyPattern { code: KeyCode::Char('j'), modifiers: ModifierPattern::Any }, action: KeyAction::LinkNext, help: Some(Help { group: HelpGroup::Movement, keys: "j/k or arrows", description: "move", compact: None }) },
        Binding { context: InputContext::Links, pattern: KeyPattern { code: KeyCode::Down, modifiers: ModifierPattern::Any }, action: KeyAction::LinkNext, help: None },
        Binding { context: InputContext::Links, pattern: KeyPattern { code: KeyCode::Char('k'), modifiers: ModifierPattern::Any }, action: KeyAction::LinkPrevious, help: None },
        Binding { context: InputContext::Links, pattern: KeyPattern { code: KeyCode::Up, modifiers: ModifierPattern::Any }, action: KeyAction::LinkPrevious, help: None },
        Binding { context: InputContext::Links, pattern: KeyPattern { code: KeyCode::Enter, modifiers: ModifierPattern::Any }, action: KeyAction::OpenLink, help: Some(Help { group: HelpGroup::Actions, keys: "Enter/u", description: "open", compact: None }) },
        Binding { context: InputContext::Links, pattern: KeyPattern { code: KeyCode::Char('u'), modifiers: ModifierPattern::Any }, action: KeyAction::OpenLink, help: None },
        Binding { context: InputContext::Composer, pattern: KeyPattern { code: KeyCode::Esc, modifiers: ModifierPattern::Any }, action: KeyAction::CloseOverlay, help: Some(Help { group: HelpGroup::Controls, keys: "Esc", description: "cancel", compact: Some("Text type · Enter newline · Ctrl-S send · Esc cancel") }) },
        Binding { context: InputContext::Composer, pattern: KeyPattern { code: KeyCode::Char('s'), modifiers: ModifierPattern::Contains(KeyModifiers { bits: 2u8 }) }, action: KeyAction::SubmitComposer, help: Some(Help { group: HelpGroup::Actions, keys: "Ctrl-S", description: "send", compact: None }) },
        Binding { context: InputContext::Composer, pattern: KeyPattern { code: KeyCode::Enter, modifiers: ModifierPattern::Any }, action: KeyAction::InsertNewline, help: Some(Help { group: HelpGroup::Writing, keys: "Enter", description: "newline", compact: None }) },
        Binding { context: InputContext::Composer, pattern: KeyPattern { code: KeyCode::Backspace, modifiers: ModifierPattern::Any }, action: KeyAction::Backspace, help: Some(Help { group: HelpGroup::Writing, keys: "Backspace", description: "delete character", compact: None }) },
        Binding { context: InputContext::Confirmation, pattern: KeyPattern { code: KeyCode::Char('y'), modifiers: ModifierPattern::Any }, action: KeyAction::ConfirmDelete, help: Some(Help { group: HelpGroup::Actions, keys: "y/Y", description: "delete", compact: Some("y/Y delete · any other key cancel") }) },
        Binding { context: InputContext::Confirmation, pattern: KeyPattern { code: KeyCode::Char('Y'), modifiers: ModifierPattern::Any }, action: KeyAction::ConfirmDelete, help: None },
    ]
}

/// Every key binding, in priority order.
pub fn bindings() -> (r: Vec<Binding>)
    ensures
        r@ == binding_table(),
{
    vec![
        Binding { context: InputContext::Global, pattern: KeyPattern { code: KeyCode::Char('c'), modifiers: ModifierPattern::Contains(KeyModifiers { bits: 2u8 }) }, action: KeyAction::Quit, help: Some(Help { group: HelpGroup::Controls, keys: "Ctrl-C", description: "quit", compact: Some("Ctrl-C quit · ? menu") }) },
        Binding { context: InputContext::Normal, pattern: KeyPattern { code: KeyCode::Char('j'), modifiers: ModifierPattern::Any }, action: KeyAction::MoveDown, help: Some(Help { group: HelpGroup::Movement, keys: "j/k or arrows", description: "move", compact: Some("j/k/arrows move · Ctrl-d/u half page · PgUp/PgDn page") }) },
        Binding { context: InputContext::Normal, pattern: KeyPattern { code: KeyCode::Down, modifiers: ModifierPattern::Any }, action: KeyAction::MoveDown, help: None },
        Binding { context: InputContext::Normal, pattern: KeyPattern { code: KeyCode::Char('k'), modifiers: ModifierPattern::Any }, action: KeyAction::MoveUp, help: None },
        Binding { context: InputContext::Normal, pattern: KeyPattern { code: KeyCode::Up, modifiers: ModifierPattern::Any }, action: KeyAction::MoveUp, help: None },
        Binding { context: InputContext::Normal, pattern: KeyPattern { code: KeyCode::Char('d'), modifiers: ModifierPattern::Contains(KeyModifiers { bits: 2u8 }) }, action: KeyAction::HalfPageDown, help: Some(Help { group: HelpGroup::Movement, keys: "Ctrl-d/Ctrl-u", description: "half page", compact: None }) },
        Binding { context: InputContext::Normal, pattern: KeyPattern { code: KeyCode::Char('u'), modifiers: ModifierPattern::Contains(KeyModifiers { bits: 2u8 }) }, action: KeyAction::HalfPageUp, help: None },
        Binding { context: InputContext::Normal, pattern: KeyPattern { code: KeyCode::PageUp, modifiers: ModifierPattern::Any }, action: KeyAction::PageUp, help: Some(Help { group: HelpGroup::Movement, keys: "PgUp/PgDn", description: "page", compact: None }) },
        Binding { context: InputContext::Normal, pattern: KeyPattern { code: KeyCode::PageDown, modifiers: ModifierPattern::Any }, action: KeyAction::PageDown, help: None },
        Binding { context: InputContext::Normal, pattern: KeyPattern { code: KeyCode::Char('g'), modifiers: ModifierPattern::Any }, action: KeyAction::JumpTop, help: Some(Help { group: HelpGroup::Movement, keys: "g/G", description: "top/bottom", compact: None }) },
        Binding { context: InputContext::Normal, pattern: KeyPattern { code: KeyCode::Char('G'), modifiers: ModifierPattern::Any }, action: KeyAction::JumpBottom, help: None },
        Binding { context: InputContext::Normal, pattern: KeyPattern { code: KeyCode::Char('l'), modifiers: ModifierPattern::Any }, action: KeyAction::OpenSelected, help: Some(Help { group: HelpGroup::Navigation, keys: "l/Enter/Right", description: "open selected", compact: Some("l/Enter/Right open · h/Left/Esc back · q back/quit") }) },
        Binding { context: InputContext::Normal, pattern: KeyPattern { code: KeyCode::Enter, modifiers: ModifierPattern::Any }, action: KeyAction::OpenSelected, help: None },
        Binding { context: InputContext::Normal, pattern: KeyPattern { code: KeyCode::Right, modifiers: ModifierPattern::Any }, action: KeyAction::OpenSelected, help: None },
        Binding { context: InputContext::Normal, pattern: KeyPattern { code: KeyCode::Char('h'), modifiers: ModifierPattern::Any }, action: KeyAction::Back, help: Some(Help { group: HelpGroup::Navigation, keys: "h/Left", description: "back", compact: None }) },
        Binding { context: InputContext::Normal, pattern: KeyPattern { code: KeyCode::Left, modifiers: ModifierPattern::Any }, action: KeyAction::Back, help: None },
        Binding { context: InputContext::Normal, pattern: KeyPattern { code: KeyCode::Esc, modifiers: ModifierPattern::Any }, action: KeyAction::Escape, help: Some(Help { group: HelpGroup::Navigation, keys: "Esc", description: "back/settings", compact: None }) },
        Binding { context: InputContext::Normal, pattern: KeyPattern { code: KeyCode::Char('q'), modifiers: ModifierPattern::Any }, action: KeyAction::BackOrQuit, help: Some(Help { group: HelpGroup::Navigation, keys: "q", description: "back; quit at root", compact: None }) },
        Binding { context: InputContext::Normal, pattern: KeyPattern { code: KeyCode::Char('P'), modifiers: ModifierPattern::Any }, action: KeyAction::OpenProfile, help: Some(Help { group: HelpGroup::Surfaces, keys: "P", description: "profile", compact: Some("P profile · N notifications · Space media · o links · e quote") }) },
        Binding { context: InputContext::Normal, pattern: KeyPattern { code: KeyCode::Char('N'), modifiers: ModifierPattern::Any }, action: KeyAction::OpenNotifications, help: Some(Help { group: HelpGroup::Surfaces, keys: "N", description: "notifications", compact: None }) },
        Binding { context: InputContext::Normal, pattern: KeyPattern { code: KeyCode::Char(' '), modifiers: ModifierPattern::Any }, action: KeyAction::PreviewMedia, help: Some(Help { group: HelpGroup::Navigation, keys: "Space", description: "media", compact: None }) },
        Binding { context: InputContext::Normal, pattern: KeyPattern { code: KeyCode::Char('o'), modifiers: ModifierPattern::Any }, action: KeyAction::OpenLinks, help: Some(Help { group: HelpGroup::Navigation, keys: "o", description: "links", compact: None }) },
        Binding { context: InputContext::Normal, pattern: KeyPattern { code: KeyCode::Char('e'), modifiers: ModifierPattern::Any }, action: KeyAction::OpenQuote, help: Some(Help { group: HelpGroup::Navigation, keys: "e", description: "quoted post", compact: None }) },
        Binding { context: InputContext::Normal, pattern: KeyPattern { code: KeyCode::Char('f'), modifiers: ModifierPattern::Any }, action: KeyAction::ToggleLike, help: Some(Help { group: HelpGroup::Actions, keys: "f", description: "like", compact: Some("f/b/F like/repost/follow · p/r/Q post/reply/quote · d delete") }) },
        Binding { context: InputContext::Normal, pattern: KeyPattern { code: KeyCode::Char('b'), modifiers: ModifierPattern::Any }, action: KeyAction::ToggleRepost, help: Some(Help { group: HelpGroup::Actions, keys: "b", description: "repost", compact: None }) },
        Binding { context: InputContext::Normal, pattern: KeyPattern { code: KeyCode::Char('F'), modifiers: ModifierPattern::Any }, action: KeyAction::ToggleFollow, help: Some(Help { group: HelpGroup::Actions, keys: "F", description: "follow", compact: None }) },
        Binding { context: InputContext::Normal, pattern: KeyPattern { code: KeyCode::Char('d'), modifiers: ModifierPattern::Any }, action: KeyAction::DeleteOwnPost, help: Some(Help { group: HelpGroup::Actions, keys: "d", description: "delete", compact: None }) },
        Binding { context: InputContext::Normal, pattern: KeyPattern { code: KeyCode::Char('p'), modifiers: ModifierPattern::Any }, action: KeyAction::ComposePost, help: Some(Help { group: HelpGroup::Writing, keys: "p", description: "post", compact: None }) },
        Binding { context: InputContext::Normal, pattern: KeyPattern { code: KeyCode::Char('r'), modifiers: ModifierPattern::Any }, action: KeyAction::ComposeReply, help: Some(Help { group: HelpGroup::Writing, keys: "r", description: "reply", compact: None }) },
        Binding { context: InputContext::Normal, pattern: KeyPattern { code: KeyCode::Char('Q'), modifiers: ModifierPattern::Any }, action: KeyAction::ComposeQuote, help: Some(Help { group: HelpGroup::Writing, keys: "Q", description: "quote", compact: None }) },
        Binding { context: InputContext::Normal, pattern: KeyPattern { code: KeyCode::Char('['), modifiers: ModifierPattern::Any }, action: KeyAction::PreviousFeed, help: Some(Help { group: HelpGroup::Feeds, keys: "[/]", description: "previous/next feed", compact: Some("[/] feeds · / search · n next · R reload · u pending") }) },
        Binding { context: InputContext::Normal, pattern: KeyPattern { code: KeyCode::Char(']'), modifiers: ModifierPattern::Any }, action: KeyAction::NextFeed, help: None },
        Binding { context: InputContext::Normal, pattern: KeyPattern { code: KeyCode::Char('/'), modifiers: ModifierPattern::Any }, action: KeyAction::StartSearch, help: Some(Help { group: HelpGroup::Feeds, keys: "/", description: "search", compact: None }) },
        Binding { context: InputContext::Normal, pattern: KeyPattern { code: KeyCode::Char('n'), modifiers: ModifierPattern::Any }, action: KeyAction::SearchNext, help: Some(Help { group: HelpGroup::Feeds, keys: "n", description: "next match", compact: None }) },
        Binding { context: InputContext::Normal, pattern: KeyPattern { code: KeyCode::Char('R'), modifiers: ModifierPattern::Any }, action: KeyAction::Reload, help: Some(Help { group: HelpGroup::Feeds, keys: "R", description: "reload", compact: None }) },
        Binding { context: InputContext::Normal, pattern: KeyPattern { code: KeyCode::Char('u'), modifiers: ModifierPattern::Any }, action: KeyAction::LoadPending, help: Some(Help { group: HelpGroup::Feeds, keys: "u", description: "load pending", compact: None }) },
        Binding { context: InputContext::Normal, pattern: KeyPattern { code: KeyCode::Char('?'), modifiers: ModifierPattern::Any }, action: KeyAction::OpenMenu, help: Some(Help { group: HelpGroup::Controls, keys: "?", description: "menu", compact: None }) },
        Binding { context: InputContext::Search, pattern: KeyPattern { code: KeyCode::Esc, modifiers: ModifierPattern::Any }, action: KeyAction::CancelSearch, help: Some(Help { group: HelpGroup::Controls, keys: "Esc", description: "cancel", compact: None }) },
        Binding { context: InputContext::Search, pattern: KeyPattern { code: KeyCode::Enter, modifiers: ModifierPattern::Any }, action: KeyAction::SubmitSearch, help: Some(Help { group: HelpGroup::Controls, keys: "Enter", description: "search", compact: None }) },
        Binding { context: InputContext::Search, pattern: KeyPattern { code: KeyCode::Backspace, modifiers: ModifierPattern::Any }, action: KeyAction::Backspace, help: Some(Help { group: HelpGroup::Controls, keys: "Backspace", description: "delete character", compact: None }) },
        Binding { context: InputContext::Menu, pattern: KeyPattern { code: KeyCode::Esc, modifiers: ModifierPattern::Any }, action: KeyAction::CloseOverlay, help: Some(Help { group: HelpGroup::Controls, keys: "Esc/?/Enter/q", description: "close", compact: Some("j/k sections · Tab action · [/] feeds · Esc/?/Enter/q close") }) },
        Binding { context: InputContext::Menu, pattern: KeyPattern { code: KeyCode::Char('?'), modifiers: ModifierPattern::Any }, action: KeyAction::CloseOverlay, help: None },
        Binding { context: InputContext::Menu, pattern: KeyPattern { code: KeyCode::Enter, modifiers: ModifierPattern::Any }, action: KeyAction::CloseOverlay, help: None },
        Binding { context: InputContext::Menu, pattern: KeyPattern { code: KeyCode::Char('q'), modifiers: ModifierPattern::Any }, action: KeyAction::CloseOverlay, help: None },
        Binding { context: InputContext::Menu, pattern: KeyPattern { code: KeyCode::Char('j'), modifiers: ModifierPattern::Any }, action: KeyAction::MenuNextSection, help: Some(Help { group: HelpGroup::Movement, keys: "j/k or arrows", description: "change section", compact: None }) },
        Binding { context: InputContext::Menu, pattern: KeyPattern { code: KeyCode::Down, modifiers: ModifierPattern::Any }, action: KeyAction::MenuNextSection, help: None },
        Binding { context: InputContext::Menu, pattern: KeyPattern { code: KeyCode::Char('k'), modifiers: ModifierPattern::Any }, action: KeyAction::MenuPreviousSection, help: None },
        Binding { context: InputContext::Menu, pattern: KeyPattern { code: KeyCode::Up, modifiers: ModifierPattern::Any }, action: KeyAction::MenuPreviousSection, help: None },
        Binding { context: InputContext::Menu, pattern: KeyPattern { code: KeyCode::Tab, modifiers: ModifierPattern::Any }, action: KeyAction::MenuTabNext, help: Some(Help { group: HelpGroup::Navigation, keys: "Tab/Shift-Tab", description: "section action", compact: None }) },
        Binding { context: InputContext::Menu, pattern: KeyPattern { code: KeyCode::BackTab, modifiers: ModifierPattern::Any }, action: KeyAction::MenuTabPrevious, help: None },
        Binding { context: InputContext::Menu, pattern: KeyPattern { code: KeyCode::Char('['), modifiers: ModifierPattern::Any }, action: KeyAction::PreviousFeed, help: Some(Help { group: HelpGroup::Feeds, keys: "[/]", description: "previous/next feed", compact: None }) },
        Binding { context: InputContext::Menu, pattern: KeyPattern { code: KeyCode::Char(']'), modifiers: ModifierPattern::Any }, action: KeyAction::NextFeed, help: None },
        Binding { context: InputContext::Media, pattern: KeyPattern { code: KeyCode::Esc, modifiers: ModifierPattern::Any }, action: KeyAction::CloseOverlay, help: Some(Help { group: HelpGroup::Controls, keys: "Space/Esc/q", description: "close", compact: Some("h/l switch · Enter/p play · u open · Space/Esc/q close") }) },
        Binding { context: InputContext::Media, pattern: KeyPattern { code: KeyCode::Char(' '), modifiers: ModifierPattern::Any }, action: KeyAction::CloseOverlay, help: None },
        Binding { context: InputContext::Media, pattern: KeyPattern { code: KeyCode::Char('q'), modifiers: ModifierPattern::Any }, action: KeyAction::CloseOverlay, help: None },
        Binding { context: InputContext::Media, pattern: KeyPattern { code: KeyCode::Char('h'), modifiers: ModifierPattern::Any }, action: KeyAction::MediaPrevious, help: Some(Help { group: HelpGroup::Movement, keys: "h/l or arrows", description: "switch", compact: None }) },
        Binding { context: InputContext::Media, pattern: KeyPattern { code: KeyCode::Left, modifiers: ModifierPattern::Any }, action: KeyAction::MediaPrevious, help: None },
        Binding { context: InputContext::Media, pattern: KeyPattern { code: KeyCode::Char('l'), modifiers: ModifierPattern::Any }, action: KeyAction::MediaNext, help: None },
        Binding { context: InputContext::Media, pattern: KeyPattern { code: KeyCode::Right, modifiers: ModifierPattern::Any }, action: KeyAction::MediaNext, help: None },
        Binding { context: InputContext::Media, pattern: KeyPattern { code: KeyCode::Enter, modifiers: ModifierPattern::Any }, action: KeyAction::PlayVideo, help: Some(Help { group: HelpGroup::Actions, keys: "Enter/p", description: "play video", compact: None }) },
        Binding { context: InputContext::Media, pattern: KeyPattern { code: KeyCode::Char('p'), modifiers: ModifierPattern::Any }, action: KeyAction::PlayVideo, help: None },
        Binding { context: InputContext::Media, pattern: KeyPattern { code: KeyCode::Char('u'), modifiers: ModifierPattern::Any }, action: KeyAction::OpenMediaExternally, help: Some(Help { group: HelpGroup::Actions, keys: "u", description: "open externally", compact: None }) },
        Binding { context: InputContext::Links, pattern: KeyPattern { code: KeyCode::Esc, modifiers: ModifierPattern::Any }, action: KeyAction::CloseOverlay, help: Some(Help { group: HelpGroup::Controls, keys: "Esc/q", description: "close", compact: Some("j/k move · Enter/u open · Esc/q close") }) },
        Binding { context: InputContext::Links, pattern: KeyPattern { code: KeyCode::Char('q'), modifiers: ModifierPattern::Any }, action: KeyAction::CloseOverlay, help: None },
        Binding { context: InputContext::Links, pattern: KeyPattern { code: KeyCode::Char('j'), modifiers: ModifierPattern::Any }, action: KeyAction::LinkNext, help: Some(Help { group: HelpGroup::Movement, keys: "j/k or arrows", description: "move", compact: None }) },
        Binding { context: InputContext::Links, pattern: KeyPattern { code: KeyCode::Down, modifiers: ModifierPattern::Any }, action: KeyAction::LinkNext, help: None },
        Binding { context: InputContext::Links, pattern: KeyPattern { code: KeyCode::Char('k'), modifiers: ModifierPattern::Any }, action: KeyAction::LinkPrevious, help: None },
        Binding { context: InputContext::Links, pattern: KeyPattern { code: KeyCode::Up, modifiers: ModifierPattern::Any }, action: KeyAction::LinkPrevious, help: None },
        Binding { context: InputContext::Links, pattern: KeyPattern { code: KeyCode::Enter, modifiers: ModifierPattern::Any }, action: KeyAction::OpenLink, help: Some(Help { group: HelpGroup::Actions, keys: "Enter/u", description: "open", compact: None }) },
        Binding { context: InputContext::Links, pattern: KeyPattern { code: KeyCode::Char('u'), modifiers: ModifierPattern::Any }, action: KeyAction::OpenLink, help: None },
        Binding { context: InputContext::Composer, pattern: KeyPattern { code: KeyCode::Esc, modifiers: ModifierPattern::Any }, action: KeyAction::CloseOverlay, help: Some(Help { group: HelpGroup::Controls, keys: "Esc", description: "cancel", compact: Some("Text type · Enter newline · Ctrl-S send · Esc cancel") }) },
        Binding { context: InputContext::Composer, pattern: KeyPattern { code: KeyCode::Char('s'), modifiers: ModifierPattern::Contains(KeyModifiers { bits: 2u8 }) }, action: KeyAction::SubmitComposer, help: Some(Help { group: HelpGroup::Actions, keys: "Ctrl-S", description: "send", compact: None }) },
        Binding { context: InputContext::Composer, pattern: KeyPattern { code: KeyCode::Enter, modifiers: ModifierPattern::Any }, action: KeyAction::InsertNewline, help: Some(Help { group: HelpGroup::Writing, keys: "Enter", description: "newline", compact: None }) },
        Binding { context: InputContext::Composer, pattern: KeyPattern { code: KeyCode::Backspace, modifiers: ModifierPattern::Any }, action: KeyAction::Backspace, help: Some(Help { group: HelpGroup::Writing, keys: "Backspace", description: "delete character", compact: None }) },
        Binding { context: InputContext::Confirmation, pattern: KeyPattern { code: KeyCode::Char('y'), modifiers: ModifierPattern::Any }, action: KeyAction::ConfirmDelete, help: Some(Help { group: HelpGroup::Actions, keys: "y/Y", description: "delete", compact: Some("y/Y delete · any other key cancel") }) },
        Binding { context: InputContext::Confirmation, pattern: KeyPattern { code: KeyCode::Char('Y'), modifiers: ModifierPattern::Any }, action: KeyAction::ConfirmDelete, help: None },
    ]
}

/// Help lines that belong to no single key.
pub open spec fn help_only_table() -> Seq<(InputContext, Help)> {
    seq![
        (InputContext::Composer, Help { group: HelpGroup::Writing, keys: "Text", description: "type normally", compact: None }),
        (InputContext::Confirmation, Help { group: HelpGroup::Controls, keys: "Any other key", description: "cancel", compact: None }),
        (InputContext::Search, Help { group: HelpGroup::Writing, keys: "Text", description: "type query", compact: None }),
    ]
}

fn help_only() -> (r: Vec<(InputContext, Help)>)
    ensures
        r@ == help_only_table(),
{
    vec![
        (InputContext::Composer, Help { group: HelpGroup::Writing, keys: "Text", description: "type normally", compact: None }),
        (InputContext::Confirmation, Help { group: HelpGroup::Controls, keys: "Any other key", description: "cancel", compact: None }),
        (InputContext::Search, Help { group: HelpGroup::Writing, keys: "Text", description: "type query", compact: None }),
    ]
}

/// The binding is in force in `context` and `key` triggers it.
pub open spec fn applies(b: Binding, context: InputContext, key: KeyEvent) -> bool {
    (b.context == InputContext::Global || b.context == context) && b.pattern.spec_matches(key)
}

/// The action of the first binding from position `i` on that applies.
pub open spec fn lookup_from(table: Seq<Binding>, context: InputContext, key: KeyEvent, i: int) -> Option<KeyAction>
    decreases table.len() - i,
{
    if i < 0 || i >= table.len() {
        None
    } else if applies(table[i], context, key) {
        Some(table[i].action)
    } else {
        lookup_from(table, context, key, i + 1)
    }
}

/// What `key` does in `context`: the first binding that applies, and in the delete
/// confirmation any other key cancels.
pub open spec fn spec_action_for_key(context: InputContext, key: KeyEvent) -> Option<KeyAction> {
    match lookup_from(binding_table(), context, key, 0) {
        Some(action) => Some(action),
        None => if context == InputContext::Confirmation {
            Some(KeyAction::CancelDelete)
        } else {
            None
        },
    }
}

pub fn action_for_key(context: InputContext, key: KeyEvent) -> (r: Option<KeyAction>)
    ensures
        r == spec_action_for_key(context, key),
{
    let table = bindings();
    let mut i: usize = 0;
    while i < table.len()
        invariant
            table@ == binding_table(),
            i <= table@.len(),
            lookup_from(binding_table(), context, key, 0) == lookup_from(binding_table(), context, key, i as int),
        decreases table@.len() - i,
    {
        let b = table[i];
        if (b.context == InputContext::Global || b.context == context) && b.pattern.matches(key) {
            return Some(b.action);
        }
        i += 1;
    }
    if context == InputContext::Confirmation {
        Some(KeyAction::CancelDelete)
    } else {
        None
    }
}

/// Control-C quits from every input context, whatever other modifiers are held.
pub proof fn law_control_c_quits_everywhere(context: InputContext, modifiers: KeyModifiers)
    requires
        modifiers.spec_contains(KeyModifiers { bits: CONTROL_BITS }),
    ensures
        spec_action_for_key(context, KeyEvent { code: KeyCode::Char('c'), modifiers }) == Some(
            KeyAction::Quit,
        ),
{
    let table = binding_table();
    assert(table[0].context == InputContext::Global);
    assert(table[0].pattern == KeyPattern {
        code: KeyCode::Char('c'),
        modifiers: ModifierPattern::Contains(KeyModifiers { bits: 2u8 }),
    });
}

/// The binding has help text shown in `context`.
pub open spec fn shown_for(b: Binding, context: InputContext) -> bool {
    (b.context == context || b.context == InputContext::Global) && b.help is Some
}

pub open spec fn context_help(table: Seq<Binding>, context: InputContext) -> Seq<Help>
    decreases table.len(),
{
    if table.len() == 0 {
        Seq::empty()
    } else {
        let prev = context_help(table.drop_last(), context);
        if shown_for(table.last(), context) {
            prev.push(table.last().help.unwrap())
        } else {
            prev
        }
    }
}

pub open spec fn extra_help(table: Seq<(InputContext, Help)>, context: InputContext) -> Seq<Help>
    decreases table.len(),
{
    if table.len() == 0 {
        Seq::empty()
    } else {
        let prev = extra_help(table.drop_last(), context);
        if table.last().0 == context {
            prev.push(table.last().1)
        } else {
            prev
        }
    }
}

/// The help entries shown in `context`, in table order, then the key-less ones.
pub open spec fn spec_help_for_context(context: InputContext) -> Seq<Help> {
    context_help(binding_table(), context) + extra_help(help_only_table(), context)
}

pub fn help_for_context(context: InputContext) -> (r: Vec<Help>)
    ensures
        r@ == spec_help_for_context(context),
{
    let table = bindings();
    let mut help: Vec<Help> = Vec::new();
    let mut i: usize = 0;
    while i < table.len()
        invariant
            table@ == binding_table(),
            i <= table@.len(),
            help@ == context_help(table@.take(i as int), context),
        decreases table@.len() - i,
    {
        proof {
            assert(table@.take(i + 1).drop_last() =~= table@.take(i as int));
        }
        let b = table[i];
        if b.context == context || b.context == InputContext::Global {
            if let Some(h) = b.help {
                help.push(h);
            }
        }
        i += 1;
    }
    assert(table@.take(table@.len() as int) =~= table@);
    let ghost first = help@;
    let extra = help_only();
    let mut j: usize = 0;
    while j < extra.len()
        invariant
            extra@ == help_only_table(),
            j <= extra@.len(),
            first == context_help(binding_table(), context),
            help@ == first + extra_help(extra@.take(j as int), context),
        decreases extra@.len() - j,
    {
        proof {
            assert(extra@.take(j + 1).drop_last() =~= extra@.take(j as int));
        }
        let (c, h) = extra[j];
        if c == context {
            help.push(h);
        }
        proof {
            assert(help@ =~= first + extra_help(extra@.take(j + 1), context));
        }
        j += 1;
    }
    assert(extra@.take(extra@.len() as int) =~= extra@);
    help
}

/// The compact texts of the help entries in `group`.
pub open spec fn group_compacts(helps: Seq<Help>, group: HelpGroup) -> Seq<Seq<char>>
    decreases helps.len(),
{
    if helps.len() == 0 {
        Seq::empty()
    } else {
        let prev = group_compacts(helps.drop_last(), group);
        let h = helps.last();
        if h.group == group && h.compact is Some {
            prev.push(h.compact.unwrap()@)
        } else {
            prev
        }
    }
}

pub open spec fn group_order() -> Seq<HelpGroup> {
    seq![
        HelpGroup::Movement,
        HelpGroup::Navigation,
        HelpGroup::Surfaces,
        HelpGroup::Actions,
        HelpGroup::Writing,
        HelpGroup::Feeds,
        HelpGroup::Controls,
    ]
}

/// One indented line per group that has compact entries, in group order.
pub open spec fn lines_for_groups(helps: Seq<Help>, groups: Seq<HelpGroup>) -> Seq<Seq<char>>
    decreases groups.len(),
{
    if groups.len() == 0 {
        Seq::empty()
    } else {
        let prev = lines_for_groups(helps, groups.drop_last());
        let entries = group_compacts(helps, groups.last());
        if entries.len() > 0 {
            prev.push("  "@ + join(entries, " · "@))
        } else {
            prev
        }
    }
}

pub open spec fn spec_help_lines(context: InputContext) -> Seq<Seq<char>> {
    lines_for_groups(spec_help_for_context(context), group_order())
}

fn compacts_of_group(helps: &Vec<Help>, group: HelpGroup) -> (r: Vec<String>)
    ensures
        string_views(r@) == group_compacts(helps@, group),
{
    let mut out: Vec<String> = Vec::new();
    let mut i: usize = 0;
    while i < helps.len()
        invariant
            i <= helps@.len(),
            string_views(out@) == group_compacts(helps@.take(i as int), group),
        decreases helps@.len() - i,
    {
        proof {
            assert(helps@.take(i + 1).drop_last() =~= helps@.take(i as int));
        }
        let h = helps[i];
        if h.group == group {
            if let Some(c) = h.compact {
                out.push(c.to_owned());
            }
        }
        proof {
            assert(string_views(out@) =~= group_compacts(helps@.take(i + 1), group));
        }
        i += 1;
    }
    assert(helps@.take(helps@.len() as int) =~= helps@);
    out
}

/// The menu's compact help for `context`, one line per group.
pub fn help_lines(context: InputContext) -> (r: Vec<String>)
    ensures
        string_views(r@) == spec_help_lines(context),
{
    let helps = help_for_context(context);
    let groups = vec![
        HelpGroup::Movement,
        HelpGroup::Navigation,
        HelpGroup::Surfaces,
        HelpGroup::Actions,
        HelpGroup::Writing,
        HelpGroup::Feeds,
        HelpGroup::Controls,
    ];
    let mut lines: Vec<String> = Vec::new();
    let mut g: usize = 0;
    while g < groups.len()
        invariant
            groups@ == group_order(),
            helps@ == spec_help_for_context(context),
            g <= groups@.len(),
            string_views(lines@) == lines_for_groups(helps@, groups@.take(g as int)),
        decreases groups@.len() - g,
    {
        proof {
            assert(groups@.take(g + 1).drop_last() =~= groups@.take(g as int));
        }
        let entries = compacts_of_group(&helps, groups[g]);
        if entries.len() > 0 {
            let joined = join_strings(&entries, " · ");
            let mut line = "  ".to_owned();
            push_str(&mut line, joined.as_str());
            lines.push(line);
        }
        proof {
            assert(string_views(lines@) =~= lines_for_groups(helps@, groups@.take(g + 1)));
        }
        g += 1;
    }
    assert(groups@.take(groups@.len() as int) =~= groups@);
    lines
}

pub open spec fn help_text(h: Help) -> Seq<char> {
    h.keys@ + " "@ + h.description@
}

pub open spec fn spec_help_line(context: InputContext) -> Seq<char> {
    join(spec_help_for_context(context).map_values(|h: Help| help_text(h)), " · "@)
}

/// Every help entry of `context` as "keys description", separated by " · ".
pub fn help_line(context: InputContext) -> (r: String)
    ensures
        r@ == spec_help_line(context),
{
    let helps = help_for_context(context);
    let mut texts: Vec<String> = Vec::new();
    let mut i: usize = 0;
    while i < helps.len()
        invariant
            i <= helps@.len(),
            string_views(texts@) == helps@.take(i as int).map_values(|h: Help| help_text(h)),
        decreases helps@.len() - i,
    {
        let h = helps[i];
        let mut t = h.keys.to_owned();
        push_str(&mut t, " ");
        push_str(&mut t, h.description);
        let ghost prev = texts@;
        assert(t@ == help_text(helps@[i as int]));
        texts.push(t);
        proof {
            assert(texts@ == prev.push(t));
            assert(string_views(texts@) =~= string_views(prev).push(t@));
            assert(helps@.take(i + 1).map_values(|h: Help| help_text(h)) =~= helps@.take(i as int).map_values(|h: Help| help_text(h)).push(help_text(helps@[i as int])));
            assert(string_views(texts@) =~= helps@.take(i + 1).map_values(|h: Help| help_text(h)));
        }
        i += 1;
    }
    assert(helps@.take(helps@.len() as int) =~= helps@);
    join_strings(&texts, " · ")
}

/// The compact text of the first binding of `context` (global ones excluded) that has one.
pub open spec fn first_compact(table: Seq<Binding>, context: InputContext, i: int) -> Option<Seq<char>>
    decreases table.len() - i,
{
    if i < 0 || i >= table.len() {
        None
    } else if table[i].context == context && table[i].help is Some && table[i].help.unwrap().compact is Some {
        Some(table[i].help.unwrap().compact.unwrap()@)
    } else {
        first_compact(table, context, i + 1)
    }
}

pub open spec fn spec_compact_help_line(context: InputContext) -> Seq<char> {
    match first_compact(binding_table(), context, 0) {
        Some(c) => c,
        None => spec_help_line(context),
    }
}

/// The one-line help for `context`: its compact summary, or the full help line.
pub fn compact_help_line(context: InputContext) -> (r: String)
    ensures
        r@ == spec_compact_help_line(context),
{
    let table = bindings();
    let mut i: usize = 0;
    while i < table.len()
        invariant
            table@ == binding_table(),
            i <= table@.len(),
            first_compact(binding_table(), context, 0) == first_compact(binding_table(), context, i as int),
        decreases table@.len() - i,
    {
        let b = table[i];
        if b.context == context {
            if let Some(h) = b.help {
                if let Some(c) = h.compact {
                    return c.to_owned();
                }
            }
        }
        i += 1;
    }
    help_line(context)
}

pub open spec fn readme_contexts() -> Seq<InputContext> {
    seq![
        InputContext::Normal,
        InputContext::Menu,
        InputContext::Media,
        InputContext::Composer,
        InputContext::Links,
        InputContext::Confirmation,
        InputContext::Search,
    ]
}

pub open spec fn readme_entry(h: Help) -> Seq<char> {
    "- `"@ + h.keys@ + "` — "@ + h.description@ + "\n"@
}

pub open spec fn readme_section(context: InputContext) -> Seq<char> {
    "### "@ + context.spec_readme_label() + "\n\n"@ + concat_all(
        spec_help_for_context(context).map_values(|h: Help| readme_entry(h)),
    ) + "\n"@
}

/// The keymap section of the README, generated from the bindings.
pub open spec fn spec_readme_keymap() -> Seq<char> {
    trim_end(concat_all(readme_contexts().map_values(|c: InputContext| readme_section(c))))
}

fn readme_section_text(context: InputContext) -> (r: String)
    ensures
        r@ == readme_section(context),
{
    let mut out = "### ".to_owned();
    push_str(&mut out, context.readme_label());
    push_str(&mut out, "\n\n");
    let ghost head = out@;
    let helps = help_for_context(context);
    let mut i: usize = 0;
    while i < helps.len()
        invariant
            i <= helps@.len(),
            helps@ == spec_help_for_context(context),
            out@ == head + concat_all(helps@.take(i as int).map_values(|h: Help| readme_entry(h))),
        decreases helps@.len() - i,
    {
        let h = helps[i];
        push_str(&mut out, "- `");
        push_str(&mut out, h.keys);
        push_str(&mut out, "` — ");
        push_str(&mut out, h.description);
        push_str(&mut out, "\n");
        proof {
            let m = helps@.take(i + 1).map_values(|h: Help| readme_entry(h));
            assert(m.drop_last() =~= helps@.take(i as int).map_values(|h: Help| readme_entry(h)));
            assert(out@ =~= head + concat_all(m));
        }
        i += 1;
    }
    assert(helps@.take(helps@.len() as int) =~= helps@);
    push_str(&mut out, "\n");
    out
}

/// The keymap section of the README.
pub fn readme_keymap() -> (r: String)
    ensures
        r@ == spec_readme_keymap(),
{
    let contexts = vec![
        InputContext::Normal,
        InputContext::Menu,
        InputContext::Media,
        InputContext::Composer,
        InputContext::Links,
        InputContext::Confirmation,
        InputContext::Search,
    ];
    let mut output = String::new();
    let mut i: usize = 0;
    while i < contexts.len()
        invariant
            contexts@ == readme_contexts(),
            i <= contexts@.len(),
            output@ == concat_all(contexts@.take(i as int).map_values(|c: InputContext| readme_section(c))),
        decreases contexts@.len() - i,
    {
        let section = readme_section_text(contexts[i]);
        push_str(&mut output, section.as_str());
        proof {
            let m = contexts@.take(i + 1).map_values(|c: InputContext| readme_section(c));
            assert(m.drop_last() =~= contexts@.take(i as int).map_values(|c: InputContext| readme_section(c)));
        }
        i += 1;
    }
    assert(contexts@.take(contexts@.len() as int) =~= contexts@);
    trim_end_string(output.as_str())
}

/// The keys of the normal mode do what the key list of the README says: j/k and the
/// arrows move, Ctrl-d/Ctrl-u move half a page and PgDn/PgUp a page, g/G jump to the
/// top and the bottom, l/Enter/Right open, h/Left go back, Esc goes back (or opens
/// the settings), q goes back (or quits), P/N open the profile and the
/// notifications, Space the media, o the links, e the quoted post, f/b/F like,
/// repost and follow, d deletes, p/r/Q write a post, reply or quote, [ and ] switch
/// feeds, / and n search, R reloads, u shows the pending posts, ? opens the menu and
/// Ctrl-C quits.
#[verifier::rlimit(100)]
pub proof fn law_normal_keys_follow_readme()
    ensures
        spec_action_for_key(InputContext::Normal, KeyEvent { code: KeyCode::Char('j'), modifiers: KeyModifiers { bits: 0u8 } }) == Some(KeyAction::MoveDown),
        spec_action_for_key(InputContext::Normal, KeyEvent { code: KeyCode::Down, modifiers: KeyModifiers { bits: 0u8 } }) == Some(KeyAction::MoveDown),
        spec_action_for_key(InputContext::Normal, KeyEvent { code: KeyCode::Char('k'), modifiers: KeyModifiers { bits: 0u8 } }) == Some(KeyAction::MoveUp),
        spec_action_for_key(InputContext::Normal, KeyEvent { code: KeyCode::Up, modifiers: KeyModifiers { bits: 0u8 } }) == Some(KeyAction::MoveUp),
        spec_action_for_key(InputContext::Normal, KeyEvent { code: KeyCode::PageDown, modifiers: KeyModifiers { bits: 0u8 } }) == Some(KeyAction::PageDown),
        spec_action_for_key(InputContext::Normal, KeyEvent { code: KeyCode::PageUp, modifiers: KeyModifiers { bits: 0u8 } }) == Some(KeyAction::PageUp),
        spec_action_for_key(InputContext::Normal, KeyEvent { code: KeyCode::Char('g'), modifiers: KeyModifiers { bits: 0u8 } }) == Some(KeyAction::JumpTop),
        spec_action_for_key(InputContext::Normal, KeyEvent { code: KeyCode::Char('G'), modifiers: KeyModifiers { bits: 0u8 } }) == Some(KeyAction::JumpBottom),
        spec_action_for_key(InputContext::Normal, KeyEvent { code: KeyCode::Char('l'), modifiers: KeyModifiers { bits: 0u8 } }) == Some(KeyAction::OpenSelected),
        spec_action_for_key(InputContext::Normal, KeyEvent { code: KeyCode::Enter, modifiers: KeyModifiers { bits: 0u8 } }) == Some(KeyAction::OpenSelected),
        spec_action_for_key(InputContext::Normal, KeyEvent { code: KeyCode::Right, modifiers: KeyModifiers { bits: 0u8 } }) == Some(KeyAction::OpenSelected),
        spec_action_for_key(InputContext::Normal, KeyEvent { code: KeyCode::Char('h'), modifiers: KeyModifiers { bits: 0u8 } }) == Some(KeyAction::Back),
        spec_action_for_key(InputContext::Normal, KeyEvent { code: KeyCode::Left, modifiers: KeyModifiers { bits: 0u8 } }) == Some(KeyAction::Back),
        spec_action_for_key(InputContext::Normal, KeyEvent { code: KeyCode::Esc, modifiers: KeyModifiers { bits: 0u8 } }) == Some(KeyAction::Escape),
        spec_action_for_key(InputContext::Normal, KeyEvent { code: KeyCode::Char('q'), modifiers: KeyModifiers { bits: 0u8 } }) == Some(KeyAction::BackOrQuit),
        spec_action_for_key(InputContext::Normal, KeyEvent { code: KeyCode::Char('P'), modifiers: KeyModifiers { bits: 0u8 } }) == Some(KeyAction::OpenProfile),
        spec_action_for_key(InputContext::Normal, KeyEvent { code: KeyCode::Char('N'), modifiers: KeyModifiers { bits: 0u8 } }) == Some(KeyAction::OpenNotifications),
        spec_action_for_key(InputContext::Normal, KeyEvent { code: KeyCode::Char(' '), modifiers: KeyModifiers { bits: 0u8 } }) == Some(KeyAction::PreviewMedia),
        spec_action_for_key(InputContext::Normal, KeyEvent { code: KeyCode::Char('o'), modifiers: KeyModifiers { bits: 0u8 } }) == Some(KeyAction::OpenLinks),
        spec_action_for_key(InputContext::Normal, KeyEvent { code: KeyCode::Char('e'), modifiers: KeyModifiers { bits: 0u8 } }) == Some(KeyAction::OpenQuote),
        spec_action_for_key(InputContext::Normal, KeyEvent { code: KeyCode::Char('f'), modifiers: KeyModifiers { bits: 0u8 } }) == Some(KeyAction::ToggleLike),
        spec_action_for_key(InputContext::Normal, KeyEvent { code: KeyCode::Char('b'), modifiers: KeyModifiers { bits: 0u8 } }) == Some(KeyAction::ToggleRepost),
        spec_action_for_key(InputContext::Normal, KeyEvent { code: KeyCode::Char('F'), modifiers: KeyModifiers { bits: 0u8 } }) == Some(KeyAction::ToggleFollow),
        spec_action_for_key(InputContext::Normal, KeyEvent { code: KeyCode::Char('d'), modifiers: KeyModifiers { bits: 0u8 } }) == Some(KeyAction::DeleteOwnPost),
        spec_action_for_key(InputContext::Normal, KeyEvent { code: KeyCode::Char('p'), modifiers: KeyModifiers { bits: 0u8 } }) == Some(KeyAction::ComposePost),
        spec_action_for_key(InputContext::Normal, KeyEvent { code: KeyCode::Char('r'), modifiers: KeyModifiers { bits: 0u8 } }) == Some(KeyAction::ComposeReply),
        spec_action_for_key(InputContext::Normal, KeyEvent { code: KeyCode::Char('Q'), modifiers: KeyModifiers { bits: 0u8 } }) == Some(KeyAction::ComposeQuote),
        spec_action_for_key(InputContext::Normal, KeyEvent { code: KeyCode::Char('['), modifiers: KeyModifiers { bits: 0u8 } }) == Some(KeyAction::PreviousFeed),
        spec_action_for_key(InputContext::Normal, KeyEvent { code: KeyCode::Char(']'), modifiers: KeyModifiers { bits: 0u8 } }) == Some(KeyAction::NextFeed),
        spec_action_for_key(InputContext::Normal, KeyEvent { code: KeyCode::Char('/'), modifiers: KeyModifiers { bits: 0u8 } }) == Some(KeyAction::StartSearch),
        spec_action_for_key(InputContext::Normal, KeyEvent { code: KeyCode::Char('n'), modifiers: KeyModifiers { bits: 0u8 } }) == Some(KeyAction::SearchNext),
        spec_action_for_key(InputContext::Normal, KeyEvent { code: KeyCode::Char('R'), modifiers: KeyModifiers { bits: 0u8 } }) == Some(KeyAction::Reload),
        spec_action_for_key(InputContext::Normal, KeyEvent { code: KeyCode::Char('u'), modifiers: KeyModifiers { bits: 0u8 } }) == Some(KeyAction::LoadPending),
        spec_action_for_key(InputContext::Normal, KeyEvent { code: KeyCode::Char('?'), modifiers: KeyModifiers { bits: 0u8 } }) == Some(KeyAction::OpenMenu),
        spec_action_for_key(InputContext::Normal, KeyEvent { code: KeyCode::Char('c'), modifiers: KeyModifiers { bits: 2u8 } }) == Some(KeyAction::Quit),
        spec_action_for_key(InputContext::Normal, KeyEvent { code: KeyCode::Char('d'), modifiers: KeyModifiers { bits: 2u8 } }) == Some(KeyAction::HalfPageDown),
        spec_action_for_key(InputContext::Normal, KeyEvent { code: KeyCode::Char('u'), modifiers: KeyModifiers { bits: 2u8 } }) == Some(KeyAction::HalfPageUp),
{
    assert(0u8 & 2u8 == 0u8) by (bit_vector);
    assert(0u8 & 1u8 == 0u8) by (bit_vector);
    assert(2u8 & 2u8 == 2u8) by (bit_vector);
    assert(2u8 & 1u8 == 0u8) by (bit_vector);
    assert(spec_action_for_key(InputContext::Normal, KeyEvent { code: KeyCode::Char('j'), modifiers: KeyModifiers { bits: 0u8 } }) == Some(KeyAction::MoveDown)) by {
        reveal_with_fuel(lookup_from, 80);
    }
    assert(spec_action_for_key(InputContext::Normal, KeyEvent { code: KeyCode::Down, modifiers: KeyModifiers { bits: 0u8 } }) == Some(KeyAction::MoveDown)) by {
        reveal_with_fuel(lookup_from, 80);
    }
    assert(spec_action_for_key(InputContext::Normal, KeyEvent { code: KeyCode::Char('k'), modifiers: KeyModifiers { bits: 0u8 } }) == Some(KeyAction::MoveUp)) by {
        reveal_with_fuel(lookup_from, 80);
    }
    assert(spec_action_for_key(InputContext::Normal, KeyEvent { code: KeyCode::Up, modifiers: KeyModifiers { bits: 0u8 } }) == Some(KeyAction::MoveUp)) by {
        reveal_with_fuel(lookup_from, 80);
    }
    assert(spec_action_for_key(InputContext::Normal, KeyEvent { code: KeyCode::PageDown, modifiers: KeyModifiers { bits: 0u8 } }) == Some(KeyAction::PageDown)) by {
        reveal_with_fuel(lookup_from, 80);
    }
    assert(spec_action_for_key(InputContext::Normal, KeyEvent { code: KeyCode::PageUp, modifiers: KeyModifiers { bits: 0u8 } }) == Some(KeyAction::PageUp)) by {
        reveal_with_fuel(lookup_from, 80);
    }
    assert(spec_action_for_key(InputContext::Normal, KeyEvent { code: KeyCode::Char('g'), modifiers: KeyModifiers { bits: 0u8 } }) == Some(KeyAction::JumpTop)) by {
        reveal_with_fuel(lookup_from, 80);
    }
    assert(spec_action_for_key(InputContext::Normal, KeyEvent { code: KeyCode::Char('G'), modifiers: KeyModifiers { bits: 0u8 } }) == Some(KeyAction::JumpBottom)) by {
        reveal_with_fuel(lookup_from, 80);
    }
    assert(spec_action_for_key(InputContext::Normal, KeyEvent { code: KeyCode::Char('l'), modifiers: KeyModifiers { bits: 0u8 } }) == Some(KeyAction::OpenSelected)) by {
        reveal_with_fuel(lookup_from, 80);
    }
    assert(spec_action_for_key(InputContext::Normal, KeyEvent { code: KeyCode::Enter, modifiers: KeyModifiers { bits: 0u8 } }) == Some(KeyAction::OpenSelected)) by {
        reveal_with_fuel(lookup_from, 80);
    }
    assert(spec_action_for_key(InputContext::Normal, KeyEvent { code: KeyCode::Right, modifiers: KeyModifiers { bits: 0u8 } }) == Some(KeyAction::OpenSelected)) by {
        reveal_with_fuel(lookup_from, 80);
    }
    assert(spec_action_for_key(InputContext::Normal, KeyEvent { code: KeyCode::Char('h'), modifiers: KeyModifiers { bits: 0u8 } }) == Some(KeyAction::Back)) by {
        reveal_with_fuel(lookup_from, 80);
    }
    assert(spec_action_for_key(InputContext::Normal, KeyEvent { code: KeyCode::Left, modifiers: KeyModifiers { bits: 0u8 } }) == Some(KeyAction::Back)) by {
        reveal_with_fuel(lookup_from, 80);
    }
    assert(spec_action_for_key(InputContext::Normal, KeyEvent { code: KeyCode::Esc, modifiers: KeyModifiers { bits: 0u8 } }) == Some(KeyAction::Escape)) by {
        reveal_with_fuel(lookup_from, 80);
    }
    assert(spec_action_for_key(InputContext::Normal, KeyEvent { code: KeyCode::Char('q'), modifiers: KeyModifiers { bits: 0u8 } }) == Some(KeyAction::BackOrQuit)) by {
        reveal_with_fuel(lookup_from, 80);
    }
    assert(spec_action_for_key(InputContext::Normal, KeyEvent { code: KeyCode::Char('P'), modifiers: KeyModifiers { bits: 0u8 } }) == Some(KeyAction::OpenProfile)) by {
        reveal_with_fuel(lookup_from, 80);
    }
    assert(spec_action_for_key(InputContext::Normal, KeyEvent { code: KeyCode::Char('N'), modifiers: KeyModifiers { bits: 0u8 } }) == Some(KeyAction::OpenNotifications)) by {
        reveal_with_fuel(lookup_from, 80);
    }
    assert(spec_action_for_key(InputContext::Normal, KeyEvent { code: KeyCode::Char(' '), modifiers: KeyModifiers { bits: 0u8 } }) == Some(KeyAction::PreviewMedia)) by {
        reveal_with_fuel(lookup_from, 80);
    }
    assert(spec_action_for_key(InputContext::Normal, KeyEvent { code: KeyCode::Char('o'), modifiers: KeyModifiers { bits: 0u8 } }) == Some(KeyAction::OpenLinks)) by {
        reveal_with_fuel(lookup_from, 80);
    }
    assert(spec_action_for_key(InputContext::Normal, KeyEvent { code: KeyCode::Char('e'), modifiers: KeyModifiers { bits: 0u8 } }) == Some(KeyAction::OpenQuote)) by {
        reveal_with_fuel(lookup_from, 80);
    }
    assert(spec_action_for_key(InputContext::Normal, KeyEvent { code: KeyCode::Char('f'), modifiers: KeyModifiers { bits: 0u8 } }) == Some(KeyAction::ToggleLike)) by {
        reveal_with_fuel(lookup_from, 80);
    }
    assert(spec_action_for_key(InputContext::Normal, KeyEvent { code: KeyCode::Char('b'), modifiers: KeyModifiers { bits: 0u8 } }) == Some(KeyAction::ToggleRepost)) by {
        reveal_with_fuel(lookup_from, 80);
    }
    assert(spec_action_for_key(InputContext::Normal, KeyEvent { code: KeyCode::Char('F'), modifiers: KeyModifiers { bits: 0u8 } }) == Some(KeyAction::ToggleFollow)) by {
        reveal_with_fuel(lookup_from, 80);
    }
    assert(spec_action_for_key(InputContext::Normal, KeyEvent { code: KeyCode::Char('d'), modifiers: KeyModifiers { bits: 0u8 } }) == Some(KeyAction::DeleteOwnPost)) by {
        reveal_with_fuel(lookup_from, 80);
    }
    assert(spec_action_for_key(InputContext::Normal, KeyEvent { code: KeyCode::Char('p'), modifiers: KeyModifiers { bits: 0u8 } }) == Some(KeyAction::ComposePost)) by {
        reveal_with_fuel(lookup_from, 80);
    }
    assert(spec_action_for_key(InputContext::Normal, KeyEvent { code: KeyCode::Char('r'), modifiers: KeyModifiers { bits: 0u8 } }) == Some(KeyAction::ComposeReply)) by {
        reveal_with_fuel(lookup_from, 80);
    }
    assert(spec_action_for_key(InputContext::Normal, KeyEvent { code: KeyCode::Char('Q'), modifiers: KeyModifiers { bits: 0u8 } }) == Some(KeyAction::ComposeQuote)) by {
        reveal_with_fuel(lookup_from, 80);
    }
    assert(spec_action_for_key(InputContext::Normal, KeyEvent { code: KeyCode::Char('['), modifiers: KeyModifiers { bits: 0u8 } }) == Some(KeyAction::PreviousFeed)) by {
        reveal_with_fuel(lookup_from, 80);
    }
    assert(spec_action_for_key(InputContext::Normal, KeyEvent { code: KeyCode::Char(']'), modifiers: KeyModifiers { bits: 0u8 } }) == Some(KeyAction::NextFeed)) by {
        reveal_with_fuel(lookup_from, 80);
    }
    assert(spec_action_for_key(InputContext::Normal, KeyEvent { code: KeyCode::Char('/'), modifiers: KeyModifiers { bits: 0u8 } }) == Some(KeyAction::StartSearch)) by {
        reveal_with_fuel(lookup_from, 80);
    }
    assert(spec_action_for_key(InputContext::Normal, KeyEvent { code: KeyCode::Char('n'), modifiers: KeyModifiers { bits: 0u8 } }) == Some(KeyAction::SearchNext)) by {
        reveal_with_fuel(lookup_from, 80);
    }
    assert(spec_action_for_key(InputContext::Normal, KeyEvent { code: KeyCode::Char('R'), modifiers: KeyModifiers { bits: 0u8 } }) == Some(KeyAction::Reload)) by {
        reveal_with_fuel(lookup_from, 80);
    }
    assert(spec_action_for_key(InputContext::Normal, KeyEvent { code: KeyCode::Char('u'), modifiers: KeyModifiers { bits: 0u8 } }) == Some(KeyAction::LoadPending)) by {
        reveal_with_fuel(lookup_from, 80);
    }
    assert(spec_action_for_key(InputContext::Normal, KeyEvent { code: KeyCode::Char('?'), modifiers: KeyModifiers { bits: 0u8 } }) == Some(KeyAction::OpenMenu)) by {
        reveal_with_fuel(lookup_from, 80);
    }
    assert(spec_action_for_key(InputContext::Normal, KeyEvent { code: KeyCode::Char('c'), modifiers: KeyModifiers { bits: 2u8 } }) == Some(KeyAction::Quit)) by {
        reveal_with_fuel(lookup_from, 80);
    }
    assert(spec_action_for_key(InputContext::Normal, KeyEvent { code: KeyCode::Char('d'), modifiers: KeyModifiers { bits: 2u8 } }) == Some(KeyAction::HalfPageDown)) by {
        reveal_with_fuel(lookup_from, 80);
    }
    assert(spec_action_for_key(InputContext::Normal, KeyEvent { code: KeyCode::Char('u'), modifiers: KeyModifiers { bits: 2u8 } }) == Some(KeyAction::HalfPageUp)) by {
        reveal_with_fuel(lookup_from, 80);
    }
}

} // verus!
