//! The text of the overlays drawn over a view: the menu, the link picker, the
//! composer and the deletion question, as lines of styled spans.

use vstd::prelude::*;

use crate::app::{ComposerKind, ComposerState, MenuSection};
use crate::config::AccountSession;
use crate::feed::string_views;
use crate::keymap::{help_lines, spec_help_lines, InputContext};
use crate::model::{FeedSource, LinkRef};
use crate::row_text::{lines_view, span_views, SpanStyle};
use crate::text::{chars_of, decimal, push_decimal, push_str, string_from_chars, strings_equal, trim, trim_string};
use crate::ui::{line_views, text_lines};

verus! {

fn line_of(text: String, style: SpanStyle) -> (r: Vec<(String, SpanStyle)>)
    ensures
        span_views(r@) == seq![(text@, style)],
{
    let mut line: Vec<(String, SpanStyle)> = Vec::new();
    line.push((text, style));
    assert(span_views(line@) =~= seq![(text@, style)]);
    line
}

fn blank() -> (r: Vec<(String, SpanStyle)>)
    ensures
        span_views(r@) == Seq::<(Seq<char>, SpanStyle)>::empty(),
{
    let line: Vec<(String, SpanStyle)> = Vec::new();
    assert(span_views(line@) =~= Seq::empty());
    line
}

/// Each text as one plain line.
pub open spec fn plain_lines(texts: Seq<Seq<char>>) -> Seq<Seq<(Seq<char>, SpanStyle)>> {
    texts.map_values(|t: Seq<char>| seq![(t, SpanStyle::Plain)])
}

fn push_plain_lines(out: &mut Vec<Vec<(String, SpanStyle)>>, texts: &Vec<String>)
    ensures
        lines_view(final(out)@) == lines_view(old(out)@) + plain_lines(string_views(texts@)),
{
    let ghost base = lines_view(out@);
    let mut i: usize = 0;
    while i < texts.len()
        invariant
            i <= texts@.len(),
            lines_view(out@) == base + plain_lines(string_views(texts@).take(i as int)),
        decreases texts@.len() - i,
    {
        let ghost before = lines_view(out@);
        out.push(line_of(texts[i].clone(), SpanStyle::Plain));
        assert(lines_view(out@) =~= before.push(seq![(texts@[i as int]@, SpanStyle::Plain)]));
        assert(string_views(texts@).take(i + 1) =~= string_views(texts@).take(i as int).push(texts@[i as int]@));
        assert(plain_lines(string_views(texts@).take(i + 1)) =~= plain_lines(string_views(texts@).take(i as int)).push(
            seq![(texts@[i as int]@, SpanStyle::Plain)],
        ));
        i += 1;
    }
    assert(string_views(texts@).take(texts@.len() as int) =~= string_views(texts@));
}

// ---------------------------------------------------------------------------
// The menu

pub open spec fn section_line(section: MenuSection, selected: MenuSection) -> Seq<(Seq<char>, SpanStyle)> {
    seq![(section.spec_label(), if section == selected { SpanStyle::SelectedHeader } else { SpanStyle::Header })]
}

/// A saved account's line: marked when it is the active one.
pub open spec fn account_line(account: AccountSession, active_did: Seq<char>) -> Seq<(Seq<char>, SpanStyle)> {
    seq![(
        "  "@ + (if account.session.did@ == active_did { "*"@ } else { " "@ }) + " "@ + account.label@ + " @"@
            + account.session.handle@,
        SpanStyle::Plain,
    )]
}

/// A feed's line: marked when it is the active one.
pub open spec fn feed_line(feed: FeedSource, active: bool) -> Seq<(Seq<char>, SpanStyle)> {
    seq![("  "@ + (if active { "*"@ } else { " "@ }) + " "@ + feed.label@, SpanStyle::Plain)]
}

pub open spec fn at_most(n: nat, limit: nat) -> int {
    if n < limit { n as int } else { limit as int }
}

/// The menu: the keys of the normal mode, the saved accounts (six at most), the feeds
/// (eight at most) and the settings, with the selected section highlighted.
pub open spec fn spec_menu_lines(
    selected: MenuSection,
    active_handle: Seq<char>,
    active_did: Seq<char>,
    accounts: Seq<AccountSession>,
    feeds: Seq<FeedSource>,
    active_feed: usize,
    protocol: Seq<char>,
) -> Seq<Seq<(Seq<char>, SpanStyle)>> {
    seq![section_line(MenuSection::Keys, selected)] + plain_lines(spec_help_lines(InputContext::Normal)) + seq![
        Seq::empty(),
        section_line(MenuSection::Accounts, selected),
        seq![("  active: @"@ + active_handle, SpanStyle::Plain)],
    ] + Seq::new(at_most(accounts.len(), 6) as nat, |k: int| account_line(accounts[k], active_did)) + seq![
        seq![("  Tab next account · Shift-Tab previous account"@, SpanStyle::Plain)],
        Seq::empty(),
        section_line(MenuSection::Feeds, selected),
    ] + Seq::new(at_most(feeds.len(), 8) as nat, |k: int| feed_line(feeds[k], k == active_feed)) + seq![
        seq![("  Tab next feed · Shift-Tab previous feed · [ and ] also switch feeds"@, SpanStyle::Plain)],
        Seq::empty(),
        section_line(MenuSection::Settings, selected),
        seq![("  images: "@ + protocol, SpanStyle::Plain)],
        seq![("  Esc, ?, Enter, or q closes this menu"@, SpanStyle::Plain)],
    ]
}

fn section_header(which: MenuSection, selected: MenuSection) -> (r: Vec<(String, SpanStyle)>)
    ensures
        span_views(r@) == section_line(which, selected),
{
    line_of(which.label().to_owned(), if which == selected { SpanStyle::SelectedHeader } else { SpanStyle::Header })
}

/// The lines of the menu.
pub fn menu_lines(
    selected: MenuSection,
    active_handle: &str,
    active_did: &str,
    accounts: &Vec<AccountSession>,
    feeds: &Vec<FeedSource>,
    active_feed: usize,
    protocol: &str,
) -> (r: Vec<Vec<(String, SpanStyle)>>)
    ensures
        lines_view(r@) == spec_menu_lines(selected, active_handle@, active_did@, accounts@, feeds@, active_feed, protocol@),
{
    let mut out: Vec<Vec<(String, SpanStyle)>> = Vec::new();
    out.push(section_header(MenuSection::Keys, selected));
    let help = help_lines(InputContext::Normal);
    push_plain_lines(&mut out, &help);
    let ghost part1 = lines_view(out@);
    assert(part1 =~= seq![section_line(MenuSection::Keys, selected)] + plain_lines(spec_help_lines(InputContext::Normal)));
    out.push(blank());
    out.push(section_header(MenuSection::Accounts, selected));
    let mut active = "  active: @".to_owned();
    push_str(&mut active, active_handle);
    out.push(line_of(active, SpanStyle::Plain));
    let ghost part2 = lines_view(out@);
    assert(part2 =~= part1 + seq![
        Seq::empty(),
        section_line(MenuSection::Accounts, selected),
        seq![("  active: @"@ + active_handle@, SpanStyle::Plain)],
    ]);
    let n = if accounts.len() < 6 { accounts.len() } else { 6 };
    let mut i: usize = 0;
    while i < n
        invariant
            n == at_most(accounts@.len(), 6),
            i <= n,
            lines_view(out@) == part2 + Seq::new(i as nat, |k: int| account_line(accounts@[k], active_did@)),
        decreases n - i,
    {
        let a = &accounts[i];
        let mut text = "  ".to_owned();
        push_str(&mut text, if strings_equal(a.session.did.as_str(), active_did) { "*" } else { " " });
        push_str(&mut text, " ");
        push_str(&mut text, a.label.as_str());
        push_str(&mut text, " @");
        push_str(&mut text, a.session.handle.as_str());
        let ghost before = lines_view(out@);
        out.push(line_of(text, SpanStyle::Plain));
        assert(lines_view(out@) =~= before.push(account_line(accounts@[i as int], active_did@)));
        assert(Seq::new((i + 1) as nat, |k: int| account_line(accounts@[k], active_did@)) =~= Seq::new(
            i as nat,
            |k: int| account_line(accounts@[k], active_did@),
        ).push(account_line(accounts@[i as int], active_did@)));
        i += 1;
    }
    let ghost part3 = lines_view(out@);
    out.push(line_of("  Tab next account · Shift-Tab previous account".to_owned(), SpanStyle::Plain));
    out.push(blank());
    out.push(section_header(MenuSection::Feeds, selected));
    let ghost part4 = lines_view(out@);
    assert(part4 =~= part3 + seq![
        seq![("  Tab next account · Shift-Tab previous account"@, SpanStyle::Plain)],
        Seq::empty(),
        section_line(MenuSection::Feeds, selected),
    ]);
    let m = if feeds.len() < 8 { feeds.len() } else { 8 };
    let mut j: usize = 0;
    while j < m
        invariant
            m == at_most(feeds@.len(), 8),
            j <= m,
            lines_view(out@) == part4 + Seq::new(j as nat, |k: int| feed_line(feeds@[k], k == active_feed)),
        decreases m - j,
    {
        let mut text = "  ".to_owned();
        push_str(&mut text, if j == active_feed { "*" } else { " " });
        push_str(&mut text, " ");
        push_str(&mut text, feeds[j].label.as_str());
        let ghost before = lines_view(out@);
        out.push(line_of(text, SpanStyle::Plain));
        assert(lines_view(out@) =~= before.push(feed_line(feeds@[j as int], j == active_feed)));
        assert(Seq::new((j + 1) as nat, |k: int| feed_line(feeds@[k], k == active_feed)) =~= Seq::new(
            j as nat,
            |k: int| feed_line(feeds@[k], k == active_feed),
        ).push(feed_line(feeds@[j as int], j == active_feed)));
        j += 1;
    }
    let ghost part5 = lines_view(out@);
    out.push(line_of("  Tab next feed · Shift-Tab previous feed · [ and ] also switch feeds".to_owned(), SpanStyle::Plain));
    out.push(blank());
    out.push(section_header(MenuSection::Settings, selected));
    let mut images = "  images: ".to_owned();
    push_str(&mut images, protocol);
    out.push(line_of(images, SpanStyle::Plain));
    out.push(line_of("  Esc, ?, Enter, or q closes this menu".to_owned(), SpanStyle::Plain));
    assert(lines_view(out@) =~= part5 + seq![
        seq![("  Tab next feed · Shift-Tab previous feed · [ and ] also switch feeds"@, SpanStyle::Plain)],
        Seq::empty(),
        section_line(MenuSection::Settings, selected),
        seq![("  images: "@ + protocol@, SpanStyle::Plain)],
        seq![("  Esc, ?, Enter, or q closes this menu"@, SpanStyle::Plain)],
    ]);
    assert(lines_view(out@) =~= spec_menu_lines(selected, active_handle@, active_did@, accounts@, feeds@, active_feed, protocol@));
    out
}

// ---------------------------------------------------------------------------
// The link picker

/// A link's two lines: number, where it was found and label (highlighted when
/// selected), then its address.
pub open spec fn link_lines(link: LinkRef, k: int, selected: bool) -> Seq<Seq<(Seq<char>, SpanStyle)>> {
    seq![
        seq![(
            decimal((k + 1) as nat) + " ["@ + link.source.spec_label() + "] "@ + link.label@,
            if selected { SpanStyle::SelectedHeader } else { SpanStyle::Plain },
        )],
        seq![("  "@ + link.uri@, SpanStyle::Dim)],
    ]
}

pub open spec fn links_from(links: Seq<LinkRef>, selected: usize, n: nat) -> Seq<Seq<(Seq<char>, SpanStyle)>>
    decreases n,
{
    if n == 0 {
        Seq::empty()
    } else {
        links_from(links, selected, (n - 1) as nat) + link_lines(links[n - 1], n - 1, n - 1 == selected)
    }
}

/// The link picker: every link, then how to use the picker.
pub open spec fn spec_link_picker_lines(links: Seq<LinkRef>, selected: usize) -> Seq<Seq<(Seq<char>, SpanStyle)>> {
    links_from(links, selected, links.len()) + seq![
        Seq::empty(),
        seq![("Enter/u open · j/k move · Esc close"@, SpanStyle::Plain)],
    ]
}

/// The lines of the link picker.
pub fn link_picker_lines(links: &Vec<LinkRef>, selected: usize) -> (r: Vec<Vec<(String, SpanStyle)>>)
    requires
        links@.len() < usize::MAX,
    ensures
        lines_view(r@) == spec_link_picker_lines(links@, selected),
{
    let mut out: Vec<Vec<(String, SpanStyle)>> = Vec::new();
    let mut i: usize = 0;
    while i < links.len()
        invariant
            links@.len() < usize::MAX,
            i <= links@.len(),
            lines_view(out@) == links_from(links@, selected, i as nat),
        decreases links@.len() - i,
    {
        let link = &links[i];
        let mut first = String::new();
        push_decimal(&mut first, (i + 1) as u64);
        push_str(&mut first, " [");
        push_str(&mut first, link.source.label());
        push_str(&mut first, "] ");
        push_str(&mut first, link.label.as_str());
        let mut second = "  ".to_owned();
        push_str(&mut second, link.uri.as_str());
        let ghost before = lines_view(out@);
        out.push(line_of(first, if i == selected { SpanStyle::SelectedHeader } else { SpanStyle::Plain }));
        out.push(line_of(second, SpanStyle::Dim));
        assert(lines_view(out@) =~= before + link_lines(links@[i as int], i as int, i == selected));
        i += 1;
    }
    out.push(blank());
    out.push(line_of("Enter/u open · j/k move · Esc close".to_owned(), SpanStyle::Plain));
    assert(lines_view(out@) =~= spec_link_picker_lines(links@, selected));
    out
}

// ---------------------------------------------------------------------------
// The composer

/// What the composer says it answers.
pub open spec fn composer_context(kind: ComposerKind) -> Seq<Seq<(Seq<char>, SpanStyle)>> {
    match kind {
        ComposerKind::Post => Seq::empty(),
        ComposerKind::Reply { parent_handle, .. } => seq![seq![("Replying to @"@ + parent_handle@, SpanStyle::Plain)], Seq::empty()],
        ComposerKind::Quote { quote_handle, .. } => seq![seq![("Quoting @"@ + quote_handle@, SpanStyle::Plain)], Seq::empty()],
    }
}

/// The composer: what it answers, the text typed so far (or a hint), and how many of
/// the 300 characters a post may have the text uses.
pub open spec fn spec_composer_lines(state: ComposerState) -> Seq<Seq<(Seq<char>, SpanStyle)>> {
    let count = trim(state.buffer@).len();
    composer_context(state.kind) + (if state.buffer@.len() == 0 {
        seq![seq![("Type your post..."@, SpanStyle::Dim)]]
    } else {
        plain_lines(text_lines(state.buffer@))
    }) + seq![
        Seq::empty(),
        seq![
            (decimal(count) + "/300"@, if count > 300 { SpanStyle::Alert } else { SpanStyle::Dim }),
            (" · Ctrl-S send · Esc cancel"@, SpanStyle::Plain),
        ],
    ]
}

/// `str::lines`.
fn split_lines(text: &str) -> (r: Vec<String>)
    ensures
        string_views(r@) == text_lines(text@),
{
    let chars = chars_of(text);
    let mut out: Vec<String> = Vec::new();
    let mut start: usize = 0;
    assert(chars@.skip(0) =~= chars@);
    while start < chars.len()
        invariant
            chars@ == text@,
            start <= chars@.len(),
            text_lines(text@) == string_views(out@) + text_lines(chars@.skip(start as int)),
        decreases chars@.len() - start,
    {
        let ghost rest = chars@.skip(start as int);
        let mut end = start;
        while end < chars.len() && chars[end] != '\n'
            invariant
                start <= end <= chars@.len(),
                forall|k: int| start <= k < end ==> chars@[k] != '\n',
            decreases chars@.len() - end,
        {
            end += 1;
        }
        proof {
            crate::text::lemma_first_index(rest, '\n');
            assert forall|k: int| 0 <= k < end - start implies rest[k] != '\n' by {
                assert(rest[k] == chars@[start + k]);
            }
        }
        let stop = if end > start && chars[end - 1] == '\r' && end < chars.len() { end - 1 } else { end };
        let line = string_from_chars(&chars, start, stop);
        let ghost before = string_views(out@);
        out.push(line);
        proof {
            if end < chars@.len() {
                assert(rest[end - start] == '\n');
                assert(crate::text::first_index(rest, '\n') == Some((end - start) as int));
                assert(rest.skip(end - start + 1) =~= chars@.skip(end + 1));
                assert(rest.take(end - start) =~= chars@.subrange(start as int, end as int));
                if end > start && chars@[end - 1] == '\r' {
                    assert(rest.take(end - start - 1) =~= chars@.subrange(start as int, end - 1));
                }
            } else {
                assert(crate::text::first_index(rest, '\n') is None);
                assert(rest =~= chars@.subrange(start as int, end as int));
            }
            assert(string_views(out@) =~= before.push(line@));
        }
        start = if end < chars.len() { end + 1 } else { end };
        proof {
            if end >= chars@.len() {
                assert(chars@.skip(start as int) =~= Seq::<char>::empty());
            }
        }
    }
    assert(chars@.skip(start as int) =~= Seq::<char>::empty());
    out
}

/// The lines of the composer.
pub fn composer_lines(state: &ComposerState) -> (r: Vec<Vec<(String, SpanStyle)>>)
    ensures
        lines_view(r@) == spec_composer_lines(*state),
{
    let mut out: Vec<Vec<(String, SpanStyle)>> = Vec::new();
    match &state.kind {
        ComposerKind::Post => {},
        ComposerKind::Reply { parent_handle, .. } => {
            let mut t = "Replying to @".to_owned();
            push_str(&mut t, parent_handle.as_str());
            out.push(line_of(t, SpanStyle::Plain));
            out.push(blank());
        },
        ComposerKind::Quote { quote_handle, .. } => {
            let mut t = "Quoting @".to_owned();
            push_str(&mut t, quote_handle.as_str());
            out.push(line_of(t, SpanStyle::Plain));
            out.push(blank());
        },
    }
    let ghost part1 = lines_view(out@);
    assert(part1 =~= composer_context(state.kind));
    if state.buffer.as_str().unicode_len() == 0 {
        out.push(line_of("Type your post...".to_owned(), SpanStyle::Dim));
        assert(lines_view(out@) =~= part1 + seq![seq![("Type your post..."@, SpanStyle::Dim)]]);
    } else {
        let lines = split_lines(state.buffer.as_str());
        push_plain_lines(&mut out, &lines);
    }
    let ghost part2 = lines_view(out@);
    assert(part2 =~= composer_context(state.kind) + (if state.buffer@.len() == 0 {
        seq![seq![("Type your post..."@, SpanStyle::Dim)]]
    } else {
        plain_lines(text_lines(state.buffer@))
    }));
    out.push(blank());
    let trimmed = trim_string(state.buffer.as_str());
    let count = trimmed.as_str().unicode_len();
    let mut counter = String::new();
    push_decimal(&mut counter, count as u64);
    push_str(&mut counter, "/300");
    let mut last: Vec<(String, SpanStyle)> = Vec::new();
    last.push((counter, if count > 300 { SpanStyle::Alert } else { SpanStyle::Dim }));
    last.push((" · Ctrl-S send · Esc cancel".to_owned(), SpanStyle::Plain));
    let ghost last_view = span_views(last@);
    assert(count == trim(state.buffer@).len());
    assert(last_view =~= seq![
        (decimal(count as nat) + "/300"@, if count > 300 { SpanStyle::Alert } else { SpanStyle::Dim }),
        (" · Ctrl-S send · Esc cancel"@, SpanStyle::Plain),
    ]);
    out.push(last);
    assert(lines_view(out@) =~= part2 + seq![Seq::empty(), last_view]);
    assert(lines_view(out@) =~= spec_composer_lines(*state));
    out
}

// ---------------------------------------------------------------------------
// Confirming a deletion

/// The question asked before a post is deleted.
pub open spec fn spec_confirm_delete_lines() -> Seq<Seq<(Seq<char>, SpanStyle)>> {
    seq![
        seq![("This permanently deletes the post from Bluesky."@, SpanStyle::Plain)],
        Seq::empty(),
        seq![("y"@, SpanStyle::ConfirmKey), (" delete · any other key cancels"@, SpanStyle::Plain)],
    ]
}

/// The lines of the deletion question.
pub fn confirm_delete_lines() -> (r: Vec<Vec<(String, SpanStyle)>>)
    ensures
        lines_view(r@) == spec_confirm_delete_lines(),
{
    let mut out: Vec<Vec<(String, SpanStyle)>> = Vec::new();
    out.push(line_of("This permanently deletes the post from Bluesky.".to_owned(), SpanStyle::Plain));
    out.push(blank());
    let mut last: Vec<(String, SpanStyle)> = Vec::new();
    last.push(("y".to_owned(), SpanStyle::ConfirmKey));
    last.push((" delete · any other key cancels".to_owned(), SpanStyle::Plain));
    let ghost last_view = span_views(last@);
    assert(last_view =~= seq![("y"@, SpanStyle::ConfirmKey), (" delete · any other key cancels"@, SpanStyle::Plain)]);
    let ghost before = lines_view(out@);
    out.push(last);
    assert(lines_view(out@) =~= before.push(last_view));
    assert(lines_view(out@) =~= spec_confirm_delete_lines());
    out
}

} // verus!
