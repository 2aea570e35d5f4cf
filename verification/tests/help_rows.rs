use chunk::app::screen::line_width;
use chunk::custom_command::{CommandKey, CustomCommandBinding};
use chunk::keybind::KeybindMap;
use chunk::line::Line;
use chunk::rows::help::{help_command_style, help_overlay_lines, help_section_style};
use chunk::rows::status::keybind_bar_line;
use chunk::theme::Theme;

#[test]
fn help_overlay_lists_keymap_sections() {
    let help = help_text(true);

    for section in [
        "Global",
        "Sidebar",
        "Diff",
        "AI",
        "Mouse",
        "Worktree-only",
        "Custom commands",
    ] {
        assert!(help.contains(section), "missing {section} section: {help}");
    }
}

#[test]
fn help_overlay_reflects_staging_availability() {
    let worktree_help = help_text(true);
    let pr_help = help_text(false);

    assert!(worktree_help.contains("Space  stage/unstage focused file or hunk"));
    assert!(worktree_help.contains("d      discard focused file, folder, or hunk"));
    assert!(worktree_help.contains("e      open selected file in $EDITOR"));
    assert!(pr_help.contains("Worktree actions unavailable in PR mode"));
    assert!(!pr_help.contains("stage/unstage focused file or hunk"));
    assert!(!pr_help.contains("discard focused file, folder, or hunk"));
}

#[test]
fn help_overlay_groups_ai_actions_separately() {
    let help = help_text(true);

    assert!(help.contains("AI"));
    assert!(help.contains("a  Ask AI about focused file or hunk"));
    assert!(help.contains("x  Explain focused file or hunk with Ask AI"));
    assert!(help.contains("u  Summarize unpublished changes with Ask AI"));
}

#[test]
fn help_overlay_lists_review_toggle_in_sidebar_section() {
    let worktree_help = help_text(true);
    let pr_help = help_text(false);

    assert!(worktree_help.contains("r      toggle reviewed for selected file"));
    assert!(pr_help.contains("r      toggle reviewed for selected file"));
}

#[test]
fn help_overlay_uses_distinct_header_and_key_colors() {
    let theme = Theme::github_dark();

    assert_eq!(help_section_style(theme).fg, Some(theme.text));
    assert_eq!(help_command_style(theme).fg, Some(theme.accent));
    assert_ne!(help_section_style(theme).fg, help_command_style(theme).fg);
    assert!(
        help_section_style(theme)
            .underlined
    );
}

#[test]
fn help_overlay_aligns_descriptions_by_section() {
    let lines = help_lines(true, 80);
    let texts = lines.iter().map(line_text).collect::<Vec<_>>();

    let help_column = column_of(&texts, "help/dismiss");
    assert_eq!(column_of(&texts, "close help or quit"), help_column);
    assert_eq!(column_of(&texts, "focus panes"), help_column);

    let diff_column = column_of(&texts, "scroll row");
    assert_eq!(column_of(&texts, "page"), diff_column);
    assert_eq!(column_of(&texts, "copy selected file diff"), diff_column);
}

#[test]
fn help_overlay_aligns_custom_commands() {
    let commands = vec![
        custom_command("P", "publish", "git push"),
        custom_command("B", "build release", "cargo build --release"),
    ];
    let lines = help_overlay_lines(
        true,
        true,
        &commands,
        KeybindMap::defaults(),
        80,
        Theme::github_dark(),
    );
    let texts = lines.iter().map(line_text).collect::<Vec<_>>();

    let label_column = column_of(&texts, "publish");
    assert_eq!(column_of(&texts, "build release"), label_column);
    assert!(
        texts
            .iter()
            .any(|line| line.contains("P  publish  git push"))
    );
}

#[test]
fn help_overlay_wraps_cleanly_in_narrow_widths() {
    let lines = help_overlay_lines(
        true,
        true,
        &Vec::new(),
        KeybindMap::defaults(),
        24,
        Theme::github_dark(),
    );
    let help = lines.iter().map(line_text).collect::<Vec<_>>().join("\n");

    for line in &lines {
        assert!(
            line_width(line) <= 24,
            "line exceeded content width: {:?}",
            line_text(line)
        );
    }
    assert!(help.contains("help/dismiss"));
    assert!(help.contains("close help or quit"));
    assert!(help.contains("stage/unstage"));
    assert!(help.contains("focused file or hunk"));
}

#[test]
fn keybind_bar_colors_key_tokens_with_accent_fill() {
    let theme = Theme::github_dark();
    let line = keybind_bar_line(true, Some("stage file"), KeybindMap::defaults(), theme);
    let key_span = line
        .spans
        .iter()
        .find(|span| span.content.trim() == "f")
        .expect("footer should include f key");

    assert_eq!(key_span.style.fg, Some(theme.on_accent));
    assert_eq!(key_span.style.bg, Some(theme.accent));
    assert!(key_span.style.bold);
}

fn help_text(can_stage: bool) -> String {
    help_lines(can_stage, 80)
        .iter()
        .map(line_text)
        .collect::<Vec<_>>()
        .join("\n")
}

fn help_lines(can_stage: bool, content_width: usize) -> Vec<Line> {
    help_overlay_lines(
        can_stage,
        can_stage,
        &Vec::new(),
        KeybindMap::defaults(),
        content_width,
        Theme::github_dark(),
    )
}

fn custom_command(key: &str, label: &str, command: &str) -> CustomCommandBinding {
    CustomCommandBinding::new(
        CommandKey::parse(key).unwrap(),
        label.to_string(),
        command.to_string(),
    )
}

fn column_of(lines: &[String], needle: &str) -> usize {
    lines
        .iter()
        .find_map(|line| line.find(needle))
        .unwrap_or_else(|| panic!("missing {needle:?} in {lines:#?}"))
}

fn line_text(line: &Line) -> String {
    line.spans
        .iter()
        .map(|span| span.content.as_str())
        .collect()
}
