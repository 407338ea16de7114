use std::collections::HashSet;

use at_tui::keymap::{
    action_for_key, bindings, compact_help_line, help_line, help_lines, readme_keymap,
    InputContext, KeyAction, KeyCode, KeyEvent, KeyModifiers,
};

const README_KEYMAP: &str = "### Normal

- `Ctrl-C` — quit
- `j/k or arrows` — move
- `Ctrl-d/Ctrl-u` — half page
- `PgUp/PgDn` — page
- `g/G` — top/bottom
- `l/Enter/Right` — open selected
- `h/Left` — back
- `Esc` — back/settings
- `q` — back; quit at root
- `P` — profile
- `N` — notifications
- `Space` — media
- `o` — links
- `e` — quoted post
- `f` — like
- `b` — repost
- `F` — follow
- `d` — delete
- `p` — post
- `r` — reply
- `Q` — quote
- `[/]` — previous/next feed
- `/` — search
- `n` — next match
- `R` — reload
- `u` — load pending
- `?` — menu

### Menu

- `Ctrl-C` — quit
- `Esc/?/Enter/q` — close
- `j/k or arrows` — change section
- `Tab/Shift-Tab` — section action
- `[/]` — previous/next feed

### Media overlay

- `Ctrl-C` — quit
- `Space/Esc/q` — close
- `h/l or arrows` — switch
- `Enter/p` — play video
- `u` — open externally

### Composer

- `Ctrl-C` — quit
- `Esc` — cancel
- `Ctrl-S` — send
- `Enter` — newline
- `Backspace` — delete character
- `Text` — type normally

### Link picker

- `Ctrl-C` — quit
- `Esc/q` — close
- `j/k or arrows` — move
- `Enter/u` — open

### Delete confirmation

- `Ctrl-C` — quit
- `y/Y` — delete
- `Any other key` — cancel

### Search

- `Ctrl-C` — quit
- `Esc` — cancel
- `Enter` — search
- `Backspace` — delete character
- `Text` — type query";

#[test]
fn bindings_do_not_conflict_within_a_context() {
    let mut seen = HashSet::new();
    for binding in bindings() {
        assert!(
            seen.insert((binding.context, binding.pattern)),
            "duplicate binding in {:?} for {:?}",
            binding.context,
            binding.pattern
        );
    }
}

#[test]
fn contextual_space_and_enter_resolve_differently() {
    let key = |code| KeyEvent::new(code, KeyModifiers::none());
    assert_eq!(
        action_for_key(InputContext::Normal, key(KeyCode::Char(' '))),
        Some(KeyAction::PreviewMedia)
    );
    assert_eq!(
        action_for_key(InputContext::Media, key(KeyCode::Char(' '))),
        Some(KeyAction::CloseOverlay)
    );
    assert_eq!(
        action_for_key(InputContext::Normal, key(KeyCode::Enter)),
        Some(KeyAction::OpenSelected)
    );
    assert_eq!(
        action_for_key(InputContext::Composer, key(KeyCode::Enter)),
        Some(KeyAction::InsertNewline)
    );
}

#[test]
fn global_quit_and_retired_normal_keys_are_preserved() {
    let key = |code| KeyEvent::new(code, KeyModifiers::none());
    let ctrl = |character| KeyEvent::new(KeyCode::Char(character), KeyModifiers::control());
    for context in [
        InputContext::Normal,
        InputContext::Menu,
        InputContext::Media,
        InputContext::Links,
        InputContext::Composer,
        InputContext::Confirmation,
        InputContext::Search,
    ] {
        assert_eq!(action_for_key(context, ctrl('c')), Some(KeyAction::Quit));
    }
    for retired in ['w', 'U', 'c'] {
        assert_eq!(
            action_for_key(InputContext::Normal, key(KeyCode::Char(retired))),
            None
        );
    }
}

#[test]
fn readme_keymap_is_generated_from_registry() {
    assert_eq!(README_KEYMAP, readme_keymap());
}

#[test]
fn shifted_letters_still_match_plain_bindings() {
    let shifted = KeyEvent::new(KeyCode::Char('G'), KeyModifiers::shift());
    assert_eq!(
        action_for_key(InputContext::Normal, shifted),
        Some(KeyAction::JumpBottom)
    );
    let plain_s = KeyEvent::new(KeyCode::Char('s'), KeyModifiers::none());
    assert_eq!(action_for_key(InputContext::Composer, plain_s), None);
    let ctrl_s = KeyEvent::new(KeyCode::Char('s'), KeyModifiers::control());
    assert_eq!(
        action_for_key(InputContext::Composer, ctrl_s),
        Some(KeyAction::SubmitComposer)
    );
}

#[test]
fn help_lines_follow_the_registry_order() {
    assert_eq!(
        help_line(InputContext::Links),
        "Ctrl-C quit · Esc/q close · j/k or arrows move · Enter/u open"
    );
    assert!(help_lines(InputContext::Normal)
        .iter()
        .all(|line| line.starts_with("  ")));
    assert_eq!(
        compact_help_line(InputContext::Confirmation),
        "y/Y delete · any other key cancel"
    );
}
