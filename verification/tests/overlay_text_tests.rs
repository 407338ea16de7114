use at_tui::app::{ComposerKind, ComposerState, MenuSection};
use at_tui::config::{AccountSession, Session};
use at_tui::keymap::{help_lines, InputContext};
use at_tui::model::{FeedSource, FeedSourceKind, LinkRef, LinkSource, PostRef};
use at_tui::overlay_text::{composer_lines, confirm_delete_lines, link_picker_lines, menu_lines};
use at_tui::row_text::SpanStyle;

fn texts(line: &[(String, SpanStyle)]) -> String {
    line.iter().map(|(text, _)| text.as_str()).collect()
}

fn account(label: &str, handle: &str, did: &str) -> AccountSession {
    AccountSession {
        label: label.to_owned(),
        session: Session {
            service: "https://bsky.social".to_owned(),
            handle: handle.to_owned(),
            did: did.to_owned(),
            access_jwt: "a".to_owned(),
            refresh_jwt: "r".to_owned(),
        },
    }
}

fn feed(label: &str) -> FeedSource {
    FeedSource { label: label.to_owned(), kind: FeedSourceKind::Generator { uri: format!("at://{label}") } }
}

#[test]
fn menu_marks_active_account_and_feed_and_highlights_section() {
    let accounts = vec![account("main", "alice.test", "did:plc:a"), account("alt", "bob.test", "did:plc:b")];
    let feeds = vec![feed("Following"), feed("Discover")];
    let lines = menu_lines(MenuSection::Feeds, "alice.test", "did:plc:a", &accounts, &feeds, 1, "kitty");
    let keys = help_lines(InputContext::Normal);
    assert_eq!(lines[0], vec![("Keys".to_owned(), SpanStyle::Header)]);
    for (k, help) in keys.iter().enumerate() {
        assert_eq!(lines[1 + k], vec![(help.clone(), SpanStyle::Plain)]);
    }
    let rest: Vec<String> = lines[1 + keys.len()..].iter().map(|line| texts(line)).collect();
    assert_eq!(
        rest,
        vec![
            "",
            "Accounts",
            "  active: @alice.test",
            "  * main @alice.test",
            "    alt @bob.test",
            "  Tab next account · Shift-Tab previous account",
            "",
            "Feeds",
            "    Following",
            "  * Discover",
            "  Tab next feed · Shift-Tab previous feed · [ and ] also switch feeds",
            "",
            "Settings",
            "  images: kitty",
            "  Esc, ?, Enter, or q closes this menu",
        ]
    );
    let feeds_header = &lines[1 + keys.len() + 7];
    assert_eq!(feeds_header, &vec![("Feeds".to_owned(), SpanStyle::SelectedHeader)]);
}

#[test]
fn menu_lists_at_most_six_accounts_and_eight_feeds() {
    let accounts: Vec<AccountSession> =
        (0..9).map(|k| account(&format!("a{k}"), &format!("h{k}.test"), &format!("did:plc:{k}"))).collect();
    let feeds: Vec<FeedSource> = (0..11).map(|k| feed(&format!("f{k}"))).collect();
    let lines = menu_lines(MenuSection::Keys, "h0.test", "did:plc:0", &accounts, &feeds, 0, "halfblocks");
    let keys = help_lines(InputContext::Normal).len();
    let rest: Vec<String> = lines[1 + keys..].iter().map(|line| texts(line)).collect();
    let shown_accounts: Vec<String> = rest[3..9].to_vec();
    assert_eq!(
        shown_accounts,
        vec!["  * a0 @h0.test", "    a1 @h1.test", "    a2 @h2.test", "    a3 @h3.test", "    a4 @h4.test", "    a5 @h5.test"]
    );
    assert_eq!(rest[9], "  Tab next account · Shift-Tab previous account");
    let shown_feeds: Vec<String> = rest[12..20].to_vec();
    assert_eq!(
        shown_feeds,
        vec!["  * f0", "    f1", "    f2", "    f3", "    f4", "    f5", "    f6", "    f7"]
    );
    assert_eq!(rest[20], "  Tab next feed · Shift-Tab previous feed · [ and ] also switch feeds");
    assert_eq!(lines.len(), 1 + keys + 3 + 6 + 3 + 8 + 5);
}

#[test]
fn link_picker_numbers_links_and_highlights_selection() {
    let links = vec![
        LinkRef { uri: "https://example.com".to_owned(), label: "Example".to_owned(), source: LinkSource::External },
        LinkRef { uri: "https://rust-lang.org".to_owned(), label: "rust-lang.org".to_owned(), source: LinkSource::QuoteText },
    ];
    let lines = link_picker_lines(&links, 1);
    assert_eq!(lines.len(), 6);
    assert_eq!(lines[0], vec![("1 [card] Example".to_owned(), SpanStyle::Plain)]);
    assert_eq!(lines[1], vec![("  https://example.com".to_owned(), SpanStyle::Dim)]);
    assert_eq!(lines[2], vec![("2 [quote text] rust-lang.org".to_owned(), SpanStyle::SelectedHeader)]);
    assert_eq!(lines[3], vec![("  https://rust-lang.org".to_owned(), SpanStyle::Dim)]);
    assert!(lines[4].is_empty());
    assert_eq!(texts(&lines[5]), "Enter/u open · j/k move · Esc close");
}

#[test]
fn composer_shows_hint_for_empty_post() {
    let state = ComposerState { kind: ComposerKind::Post, buffer: String::new() };
    let lines = composer_lines(&state);
    assert_eq!(lines.len(), 3);
    assert_eq!(lines[0], vec![("Type your post...".to_owned(), SpanStyle::Dim)]);
    assert!(lines[1].is_empty());
    assert_eq!(
        lines[2],
        vec![("0/300".to_owned(), SpanStyle::Dim), (" · Ctrl-S send · Esc cancel".to_owned(), SpanStyle::Plain)]
    );
}

#[test]
fn composer_splits_reply_text_into_lines_and_counts_trimmed_chars() {
    let parent = PostRef { uri: "at://p".to_owned(), cid: "c".to_owned() };
    let state = ComposerState {
        kind: ComposerKind::Reply { root: parent.clone(), parent, parent_handle: "bob.test".to_owned() },
        buffer: "  héllo\r\nworld\n".to_owned(),
    };
    let lines = composer_lines(&state);
    let shown: Vec<String> = lines.iter().map(|line| texts(line)).collect();
    assert_eq!(
        shown,
        vec!["Replying to @bob.test", "", "  héllo", "world", "", "12/300 · Ctrl-S send · Esc cancel"]
    );
}

#[test]
fn composer_flags_text_over_the_limit() {
    let quote = PostRef { uri: "at://q".to_owned(), cid: "c".to_owned() };
    let state = ComposerState {
        kind: ComposerKind::Quote { quote, quote_handle: "carol.test".to_owned() },
        buffer: "x".repeat(301),
    };
    let lines = composer_lines(&state);
    assert_eq!(texts(&lines[0]), "Quoting @carol.test");
    let last = lines.last().unwrap();
    assert_eq!(last[0], ("301/300".to_owned(), SpanStyle::Alert));
}

#[test]
fn delete_question_names_the_confirming_key() {
    let lines = confirm_delete_lines();
    assert_eq!(lines.len(), 3);
    assert_eq!(texts(&lines[0]), "This permanently deletes the post from Bluesky.");
    assert!(lines[1].is_empty());
    assert_eq!(
        lines[2],
        vec![("y".to_owned(), SpanStyle::ConfirmKey), (" delete · any other key cancels".to_owned(), SpanStyle::Plain)]
    );
}
