use at_tui::app::{normal_key_step, MenuSection, MenuState, NormalStep, Overlay};
use at_tui::keymap::{KeyAction, KeyCode, KeyEvent, KeyModifiers};
use at_tui::model::FeedItem;
use at_tui::navigation::{NavigationStack, ViewKind, ViewState};

fn item(uri: &str) -> FeedItem {
    FeedItem {
        uri: uri.into(),
        cid: None,
        viewer_like: None,
        viewer_repost: None,
        author_did: None,
        author_name: "Alice".into(),
        author_handle: "alice.test".into(),
        author_following: None,
        author_following_uri: None,
        avatar_url: None,
        text: uri.into(),
        indexed_at: None,
        reply_count: 0,
        repost_count: 0,
        like_count: 0,
        quote_count: 0,
        images: Vec::new(),
        videos: Vec::new(),
        external: None,
        links: Vec::new(),
        quote: None,
        reason: None,
        reply: None,
        reply_root: None,
        embed_status: None,
        depth: 0,
    }
}

fn key(code: KeyCode) -> KeyEvent {
    KeyEvent::new(code, KeyModifiers::none())
}

fn timeline(n: usize) -> NavigationStack {
    let items = (0..n).map(|k| item(&format!("p{k}"))).collect();
    NavigationStack::new(ViewState::new("Following", ViewKind::Timeline, items))
}

#[test]
fn escape_pops_when_nested_and_opens_settings_at_root() {
    let mut nav = timeline(1);
    nav.push(ViewState::new("Thread @alice.test", ViewKind::Thread { root_uri: "post".into() }, vec![item("post")]));
    let mut pending = Vec::new();

    let step = normal_key_step(&mut nav, &mut pending, 20, key(KeyCode::Esc));
    assert_eq!(step, NormalStep::Status("Back".into()));
    assert_eq!(nav.depth(), 1);

    let step = normal_key_step(&mut nav, &mut pending, 20, key(KeyCode::Esc));
    assert_eq!(step, NormalStep::OpenOverlay(Overlay::Menu(MenuState { section: MenuSection::Settings }), None));
    assert_eq!(nav.depth(), 1);
}

#[test]
fn q_goes_back_then_quits_at_the_bottom_view() {
    let mut nav = timeline(1);
    nav.push(ViewState::new("Thread", ViewKind::Thread { root_uri: "p0".into() }, vec![item("p0")]));
    let mut pending = Vec::new();
    assert_eq!(normal_key_step(&mut nav, &mut pending, 20, key(KeyCode::Char('q'))), NormalStep::Status("Back".into()));
    assert_eq!(normal_key_step(&mut nav, &mut pending, 20, key(KeyCode::Char('q'))), NormalStep::Quit);
}

#[test]
fn moves_by_rows_and_pages_within_the_view() {
    let mut nav = timeline(30);
    let mut pending = Vec::new();
    assert_eq!(normal_key_step(&mut nav, &mut pending, 10, key(KeyCode::Char('j'))), NormalStep::Nothing);
    assert_eq!(nav.current().selected, 1);
    normal_key_step(&mut nav, &mut pending, 10, key(KeyCode::PageDown));
    assert_eq!(nav.current().selected, 11);
    normal_key_step(&mut nav, &mut pending, 10, KeyEvent::new(KeyCode::Char('d'), KeyModifiers::control()));
    assert_eq!(nav.current().selected, 16);
    normal_key_step(&mut nav, &mut pending, 10, key(KeyCode::PageDown));
    normal_key_step(&mut nav, &mut pending, 10, key(KeyCode::PageDown));
    assert_eq!(nav.current().selected, 29);
    normal_key_step(&mut nav, &mut pending, 0, key(KeyCode::PageUp));
    assert_eq!(nav.current().selected, 27);
    normal_key_step(&mut nav, &mut pending, 10, key(KeyCode::Char('k')));
    assert_eq!(nav.current().selected, 26);
}

#[test]
fn network_actions_are_left_to_the_event_loop() {
    let mut nav = timeline(2);
    let mut pending = Vec::new();
    assert_eq!(
        normal_key_step(&mut nav, &mut pending, 10, key(KeyCode::Char('l'))),
        NormalStep::Work(KeyAction::OpenSelected)
    );
    assert_eq!(normal_key_step(&mut nav, &mut pending, 10, key(KeyCode::F(9))), NormalStep::Nothing);
}
