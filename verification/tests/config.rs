use chunk::config::{self, config_path_from_env, AppConfig, RawCommand, RawConfig, RawKeybind};
use chunk::keybind::BuiltinAction;
use chunk::theme::ThemeName;

#[test]
fn parses_custom_commands() {
    let config = parse(
        r#"
        [[commands]]
        key = "C"
        label = "commit and push"
        command = "ga . && com && gP"
        "#,
    )
    .unwrap();

    assert_eq!(config.commands.len(), 1);
    assert_eq!(config.commands[0].key_display(), "C");
    assert_eq!(config.commands[0].label(), "commit and push");
    assert_eq!(config.commands[0].command(), "ga . && com && gP");
}

#[test]
fn parses_runtime_theme() {
    let github_dark = parse(r#"theme = "github-dark""#).unwrap();
    assert_eq!(github_dark.theme, ThemeName::GithubDark);

    let default_theme = parse("").unwrap();
    assert_eq!(default_theme.theme, ThemeName::Gruvbox);
}

#[test]
fn rejects_invalid_theme() {
    let error = parse(r#"theme = "solarized""#).unwrap_err();

    assert!(error.to_string().contains("invalid theme `solarized`"));
    assert!(error.to_string().contains("gruvbox, github-dark"));
}

#[test]
fn rejects_builtin_key_conflicts() {
    let error = parse(
        r#"
        [[commands]]
        key = "d"
        label = "danger"
        command = "true"
        "#,
    )
    .unwrap_err();

    assert!(
        error
            .to_string()
            .contains("conflicts with a built-in keybind")
    );
}

#[test]
fn rejects_duplicate_keys() {
    let error = parse(
        r#"
        [[commands]]
        key = "C"
        label = "one"
        command = "true"

        [[commands]]
        key = "C"
        label = "two"
        command = "true"
        "#,
    )
    .unwrap_err();

    assert!(error.to_string().contains("duplicate custom command key"));
}

#[test]
fn rejects_empty_command_fields() {
    let empty_label = parse(
        r#"
        [[commands]]
        key = "C"
        label = " "
        command = "true"
        "#,
    )
    .unwrap_err();
    assert!(empty_label.to_string().contains("label cannot be empty"));

    let empty_command = parse(
        r#"
        [[commands]]
        key = "C"
        label = "commit"
        command = " "
        "#,
    )
    .unwrap_err();
    assert!(
        empty_command
            .to_string()
            .contains("shell command cannot be empty")
    );
}

#[test]
fn parses_keybind_overlays_on_top_of_defaults() {
    let config = parse(
        r#"
        [keybinds]
        quit = "Q"
        discard = "D"
        "#,
    )
    .unwrap();

    assert_eq!(key_char(&config, BuiltinAction::Quit), 'Q');
    assert_eq!(key_char(&config, BuiltinAction::Discard), 'D');
    // Untouched actions keep their defaults.
    assert_eq!(key_char(&config, BuiltinAction::Help), '?');
}

#[test]
fn parses_keybind_space_token() {
    let config = parse(
        r#"
        [keybinds]
        toggle_staging = "S"
        quit = " "
        "#,
    )
    .unwrap();

    assert_eq!(key_char(&config, BuiltinAction::Quit), ' ');
    assert_eq!(key_char(&config, BuiltinAction::ToggleStaging), 'S');
}

#[test]
fn rejects_unknown_keybind_action() {
    let error = parse(
        r#"
        [keybinds]
        nuke = "Q"
        "#,
    )
    .unwrap_err();

    assert!(error.to_string().contains("unknown keybind action `nuke`"));
    assert!(error.to_string().contains("quit"));
    assert!(error.to_string().contains("toggle_reviewed"));
}

#[test]
fn rejects_invalid_keybind_keys() {
    let empty = parse(
        r#"
        [keybinds]
        quit = ""
        "#,
    )
    .unwrap_err();
    assert!(empty.to_string().contains("keybind key cannot be empty"));

    let multi = parse(
        r#"
        [keybinds]
        quit = "ab"
        "#,
    )
    .unwrap_err();
    assert!(multi.to_string().contains("single character"));

    let control = parse(
        r#"
        [keybinds]
        quit = "\u007F"
        "#,
    )
    .unwrap_err();
    assert!(control.to_string().contains("control character"));
}

#[test]
fn rejects_duplicate_keybind_keys() {
    let error = parse(
        r#"
        [keybinds]
        quit = "d"
        "#,
    )
    .unwrap_err();

    assert!(error.to_string().contains("bound to both"));
    assert!(error.to_string().contains("quit"));
    assert!(error.to_string().contains("discard"));
}

#[test]
fn accepts_keybind_swaps() {
    let config = parse(
        r#"
        [keybinds]
        quit = "d"
        discard = "q"
        "#,
    )
    .unwrap();

    assert_eq!(key_char(&config, BuiltinAction::Quit), 'd');
    assert_eq!(key_char(&config, BuiltinAction::Discard), 'q');
}

#[test]
fn custom_command_conflicts_with_configured_builtin_not_only_defaults() {
    // `quit` is remapped to `Q`, freeing `q` for custom commands.
    let freed = parse(
        r#"
        [keybinds]
        quit = "Q"

        [[commands]]
        key = "q"
        label = "quick"
        command = "true"
        "#,
    )
    .unwrap();
    assert_eq!(freed.commands.len(), 1);

    // `quit` is remapped to `Q`, so `Q` is now reserved for a built-in.
    let reserved = parse(
        r#"
        [keybinds]
        quit = "Q"

        [[commands]]
        key = "Q"
        label = "quick"
        command = "true"
        "#,
    )
    .unwrap_err();
    assert!(
        reserved
            .to_string()
            .contains("conflicts with a built-in keybind")
    );
}

#[test]
fn config_path_prefers_xdg_config_home_over_home() {
    assert_eq!(
        config_path_from_env(
            Some(String::from("/xdg")),
            Some(String::from("/home/user"))
        ),
        Some(String::from("/xdg/chunk/config.toml"))
    );
    assert_eq!(
        config_path_from_env(None, Some(String::from("/home/user"))),
        Some(String::from("/home/user/.config/chunk/config.toml"))
    );
    assert_eq!(
        config_path_from_env(Some(String::from("")), Some(String::from(""))),
        None
    );
}

fn key_char(config: &AppConfig, action: BuiltinAction) -> char {
    config.keybinds.key(action).character()
}

fn parse(source: &str) -> Result<AppConfig, String> {
    config::parse(raw_config(source))
}

fn raw_config(source: &str) -> RawConfig {
    let table = source.parse::<toml::Table>().expect("settings should be TOML");
    RawConfig {
        theme: table
            .get("theme")
            .map(|theme| theme.as_str().unwrap().to_string()),
        commands: table
            .get("commands")
            .map(|commands| {
                commands
                    .as_array()
                    .unwrap()
                    .iter()
                    .map(|command| RawCommand {
                        key: command["key"].as_str().unwrap().to_string(),
                        label: command["label"].as_str().unwrap().to_string(),
                        command: command["command"].as_str().unwrap().to_string(),
                    })
                    .collect()
            })
            .unwrap_or_default(),
        keybinds: table
            .get("keybinds")
            .map(|keybinds| {
                keybinds
                    .as_table()
                    .unwrap()
                    .iter()
                    .map(|(action, key)| RawKeybind {
                        action: action.clone(),
                        key: key.as_str().unwrap().to_string(),
                    })
                    .collect()
            })
            .unwrap_or_default(),
    }
}
