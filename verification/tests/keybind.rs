use chunk::input::{KeyCode, KeyEvent, KeyModifiers};
use chunk::keybind::{parse_action_name, BuiltinAction, BuiltinKey, KeybindMap, ACTION_COUNT};

#[test]
fn defaults_match_documented_keys() {
    let map = KeybindMap::defaults();
    for (action, key) in [
        (BuiltinAction::Quit, 'q'),
        (BuiltinAction::Help, '?'),
        (BuiltinAction::ToggleFiles, 'f'),
        (BuiltinAction::Search, '/'),
        (BuiltinAction::MoveDown, 'j'),
        (BuiltinAction::MoveUp, 'k'),
        (BuiltinAction::NextMatch, 'n'),
        (BuiltinAction::PrevMatch, 'N'),
        (BuiltinAction::Top, 'g'),
        (BuiltinAction::Bottom, 'G'),
        (BuiltinAction::ToggleStaging, ' '),
        (BuiltinAction::Discard, 'd'),
        (BuiltinAction::Editor, 'e'),
        (BuiltinAction::AskAi, 'a'),
        (BuiltinAction::ExplainCode, 'x'),
        (BuiltinAction::UnpublishedSummary, 'u'),
        (BuiltinAction::CopyFocused, 'y'),
        (BuiltinAction::CopyFileDiff, 'Y'),
        (BuiltinAction::ToggleReviewed, 'r'),
    ] {
        assert_eq!(map.key(action).character(), key);
    }
}

#[test]
fn display_renders_space_as_word() {
    let map = KeybindMap::defaults();
    assert_eq!(map.display(BuiltinAction::ToggleStaging), "Space");
    assert_eq!(map.display(BuiltinAction::Quit), "q");
    assert_eq!(map.display(BuiltinAction::PrevMatch), "N");
}

#[test]
fn action_for_resolves_bare_character_keys() {
    let map = KeybindMap::defaults();
    assert_eq!(
        map.action_for(KeyEvent::new(KeyCode::Char('q'), KeyModifiers::none())),
        Some(BuiltinAction::Quit)
    );
    assert_eq!(
        map.action_for(KeyEvent::new(KeyCode::Char('N'), KeyModifiers::shift())),
        Some(BuiltinAction::PrevMatch)
    );
}

#[test]
fn action_for_ignores_control_and_alt() {
    let map = KeybindMap::defaults();
    assert_eq!(
        map.action_for(KeyEvent::new(KeyCode::Char('d'), KeyModifiers::control())),
        None
    );
    assert_eq!(
        map.action_for(KeyEvent::new(KeyCode::Char('q'), KeyModifiers::alt())),
        None
    );
    assert_eq!(
        map.action_for(KeyEvent::new(KeyCode::Enter, KeyModifiers::none())),
        None
    );
}

#[test]
fn action_for_reflects_overrides() {
    let mut map = KeybindMap::defaults();
    map.set(BuiltinAction::Quit, key('Q'));
    assert_eq!(
        map.action_for(KeyEvent::new(KeyCode::Char('Q'), KeyModifiers::shift())),
        Some(BuiltinAction::Quit)
    );
    assert_eq!(
        map.action_for(KeyEvent::new(KeyCode::Char('q'), KeyModifiers::none())),
        None
    );
}

#[test]
fn contains_char_reports_reserved_characters() {
    let map = KeybindMap::defaults();
    assert!(map.contains_char('q'));
    assert!(map.contains_char('d'));
    assert!(map.contains_char(' '));
    assert!(!map.contains_char('C'));
}

#[test]
fn validate_accepts_key_swaps() {
    let mut map = KeybindMap::defaults();
    map.set(BuiltinAction::Quit, key('d'));
    map.set(BuiltinAction::Discard, key('q'));
    assert!(map.validate().is_ok());
}

#[test]
fn validate_rejects_shared_keys() {
    let mut map = KeybindMap::defaults();
    map.set(BuiltinAction::Quit, key('d'));
    let error = map.validate().unwrap_err();
    assert!(error.to_string().contains("bound to both"));
    assert!(error.to_string().contains("quit"));
    assert!(error.to_string().contains("discard"));
}

#[test]
fn parse_action_name_rejects_unknown_with_valid_list() {
    let error = parse_action_name("nuke").unwrap_err();
    assert!(error.to_string().contains("unknown keybind action `nuke`"));
    assert!(error.to_string().contains("quit"));
    assert!(error.to_string().contains("toggle_reviewed"));
}

#[test]
fn parse_key_rejects_empty_multi_and_control() {
    assert!(
        BuiltinKey::parse("")
            .unwrap_err()
            .to_string()
            .contains("cannot be empty")
    );
    assert!(
        BuiltinKey::parse("ab")
            .unwrap_err()
            .to_string()
            .contains("single character")
    );
    assert!(
        BuiltinKey::parse("\u{7f}")
            .unwrap_err()
            .to_string()
            .contains("control character")
    );
}

#[test]
fn all_actions_have_unique_default_keys() {
    let map = KeybindMap::defaults();
    map.validate().expect("default keybinds must not collide");
}

#[test]
fn action_config_names_are_unique() {
    let mut names: Vec<_> = (0..ACTION_COUNT)
        .map(|index| BuiltinAction::at(index).config_name())
        .collect();
    names.sort();
    let initial = names.len();
    names.dedup();
    assert_eq!(names.len(), initial);
}

fn key(value: char) -> BuiltinKey {
    BuiltinKey { value }
}
