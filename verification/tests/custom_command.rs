use chunk::custom_command::{CommandKey, CustomCommandBinding, CustomCommandResult};
use chunk::input::{KeyCode, KeyEvent, KeyModifiers};
use chunk::process::ProcessOutput;

#[test]
fn parses_single_character_keys() {
    assert_eq!(CommandKey::parse("C").unwrap().display(), "C");
}

#[test]
fn rejects_multi_character_keys() {
    assert!(CommandKey::parse("Ctrl-C").is_err());
}

#[test]
fn rejects_empty_and_control_keys() {
    assert!(
        CommandKey::parse("")
            .unwrap_err()
            .to_string()
            .contains("cannot be empty")
    );
    assert!(
        CommandKey::parse("\u{7f}")
            .unwrap_err()
            .to_string()
            .contains("control character")
    );
}

#[test]
fn exposes_raw_key_char_for_conflict_checks() {
    // Built-in conflict checks now consult the configured KeybindMap; see
    // `config::tests` and `keybind::tests`. CommandKey only reports its char.
    assert_eq!(CommandKey::parse("d").unwrap().character(), 'd');
    assert_eq!(CommandKey::parse("C").unwrap().character(), 'C');
}

#[test]
fn key_matching_rejects_control_alt_and_different_keys() {
    let key = CommandKey::parse("C").unwrap();

    assert!(key.matches(KeyEvent::new(KeyCode::Char('C'), KeyModifiers::none())));
    assert!(key.matches(KeyEvent::new(KeyCode::Char('C'), KeyModifiers::shift())));
    assert!(!key.matches(KeyEvent::new(KeyCode::Char('C'), KeyModifiers::control())));
    assert!(!key.matches(KeyEvent::new(KeyCode::Char('C'), KeyModifiers::alt())));
    assert!(!key.matches(KeyEvent::new(KeyCode::Char('c'), KeyModifiers::none())));
}

#[test]
fn command_result_preserves_output_and_status() {
    let binding = binding();
    let cwd = "/repo".to_string();

    let success =
        CustomCommandResult::from_output(&binding, cwd.clone(), output_status(0, "done\n", ""));
    assert_eq!(success.label(), "commit");
    assert_eq!(success.command(), "true");
    assert_eq!(success.cwd(), Some("/repo"));
    assert_eq!(success.stdout(), "done\n");
    assert_eq!(success.stderr(), "");
    assert!(success.success());
    assert_eq!(success.status_text(), "exit 0");

    let failure =
        CustomCommandResult::from_output(&binding, cwd, output_status(7, "", "nope\n"));
    assert!(!failure.success());
    assert_eq!(failure.stderr(), "nope\n");
    assert_eq!(failure.status_text(), "exit 7");
}

#[test]
fn not_started_result_reports_start_error() {
    let binding = binding();
    let result = CustomCommandResult::not_started(&binding, None, "missing shell".to_string());

    assert!(!result.success());
    assert_eq!(result.label(), "commit");
    assert_eq!(result.command(), "true");
    assert_eq!(result.cwd(), None);
    assert_eq!(result.stdout(), "");
    assert_eq!(result.stderr(), "missing shell");
    assert_eq!(result.status_text(), "failed to start: missing shell");
}

fn binding() -> CustomCommandBinding {
    CustomCommandBinding::new(
        CommandKey::parse("C").unwrap(),
        "commit".to_string(),
        "true".to_string(),
    )
}

fn output_status(code: i32, stdout: &str, stderr: &str) -> ProcessOutput {
    ProcessOutput {
        stdout: stdout.as_bytes().to_vec(),
        stderr: stderr.as_bytes().to_vec(),
        success: code == 0,
        code: Some(code),
    }
}
