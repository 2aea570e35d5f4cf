use chunk::line::Line;
use chunk::rows::markdown::markdown_lines;
use chunk::theme::Theme;

#[test]
fn markdown_renders_common_answer_blocks() {
    let lines = markdown_lines(
        "# Summary\n\n- **Safe** change\n- Use `chunk`\n\n```rust\nfn main() {}\n```\n\n> note\n",
        80,
        Theme::github_dark(),
    );
    let text = lines.iter().map(line_text).collect::<Vec<_>>().join("\n");

    assert!(text.contains("# Summary"));
    assert!(text.contains("• Safe change"));
    assert!(text.contains("• Use chunk"));
    assert!(text.contains("```rust"));
    assert!(text.contains("  fn main() {}"));
    assert!(text.contains("│ note"));
    assert!(lines.iter().any(|line| {
        line.spans
            .iter()
            .any(|span| span.style.bold)
    }));
}

#[test]
fn markdown_wraps_long_styled_lines() {
    let lines = markdown_lines("**abcdef** ghijkl", 8, Theme::github_dark());

    assert_eq!(
        lines.iter().map(line_text).collect::<Vec<_>>(),
        ["abcdef ", "ghijkl"]
    );
    assert!(
        lines[0]
            .spans
            .iter()
            .any(|span| span.style.bold)
    );
}

fn line_text(line: &Line) -> String {
    line.spans
        .iter()
        .map(|span| span.content.as_str())
        .collect()
}
