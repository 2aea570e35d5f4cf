use chunk::app::screen::line_width;
use chunk::line::{Line, Span};
use chunk::model::{
    DiffFile, DiffHunk, DiffLine, DiffLineKind, FileStage, FileStatus, SourceSnapshot,
};
use chunk::rows::diff::{
    diff_layout_counts, diff_lines_until, render_file_header, DiffRenderOptions,
    DIFF_GUTTER_WIDTH,
};
use chunk::rows::file_summary::{file_icon, file_icon_color};
use chunk::syntax::Syntaxes;
use chunk::theme::Theme;

const RAIL_MARKER: &str = "\u{258c}";

#[test]
fn wraps_added_removed_context_and_meta_content() {
    for kind in [
        DiffLineKind::Added,
        DiffLineKind::Removed,
        DiffLineKind::Context,
        DiffLineKind::Meta,
    ] {
        let file =
            diff_file_with_line(kind, "alpha beta gamma delta epsilon zeta eta theta iota");
        let content_width = DIFF_GUTTER_WIDTH + 12;
        let lines = rendered_lines(&file, content_width, Theme::github_dark(), true, None);
        let diff_rows: Vec<&Line> = lines
            .iter()
            .filter(|line| line_text(line).starts_with(RAIL_MARKER))
            .collect();

        assert!(diff_rows.len() > 1, "{kind:?} did not wrap");
        assert!(
            diff_rows.iter().all(|line| line_width(line) <= content_width),
            "{kind:?} rendered wider than the diff pane"
        );
    }
}

#[test]
fn diff_line_count_matches_fully_rendered_rows() {
    let file = diff_file_with_line(
        DiffLineKind::Added,
        "alpha beta gamma delta epsilon zeta eta theta iota",
    );
    let content_width = DIFF_GUTTER_WIDTH + 12;
    let theme = Theme::github_dark();
    let lines = rendered_lines(&file, content_width, theme, true, None);

    assert_eq!(
        diff_layout_counts(&file, content_width, theme, true).total_rows,
        lines.len()
    );
}

#[test]
fn continuation_rows_align_under_diff_content() {
    let file = diff_file_with_line(
        DiffLineKind::Added,
        "alpha beta gamma delta epsilon zeta eta theta iota",
    );
    let content_width = DIFF_GUTTER_WIDTH + 12;
    let lines = rendered_lines(&file, content_width, Theme::github_dark(), true, None);
    let diff_rows: Vec<&Line> = lines
        .iter()
        .filter(|line| line_text(line).starts_with(RAIL_MARKER))
        .collect();

    let first_prefix = line_prefix(diff_rows[0], DIFF_GUTTER_WIDTH);
    assert!(first_prefix.contains('+'));

    let continuation_prefix = line_prefix(diff_rows[1], DIFF_GUTTER_WIDTH);
    assert_eq!(
        continuation_prefix,
        format!("{RAIL_MARKER}{}", " ".repeat(DIFF_GUTTER_WIDTH - 1))
    );

    let continuation_content = line_suffix(diff_rows[1], DIFF_GUTTER_WIDTH);
    assert!(!continuation_content.is_empty());
    assert!(!continuation_content.starts_with('+'));
}

#[test]
fn hunk_offsets_match_wrapped_rendered_rows() {
    let theme = Theme::github_dark();
    let file = diff_file_with_hunks(vec![
        (
            "@@ -1 +1 @@",
            vec![added_diff_line(
                "alpha beta gamma delta epsilon zeta eta theta iota",
            )],
        ),
        ("@@ -10 +10 @@", vec![added_diff_line("short")]),
    ]);
    let content_width = DIFF_GUTTER_WIDTH + 12;

    let offsets = diff_layout_counts(&file, content_width, theme, true).hunk_offsets;
    let lines = rendered_lines(&file, content_width, theme, true, None);

    assert_eq!(offsets.len(), 2);
    assert!(line_text(&lines[offsets[0]]).starts_with("  @@ -1 +1 @@"));
    assert!(line_text(&lines[offsets[1]]).starts_with("  @@ -10 +10 @@"));
    assert!(offsets[1] > offsets[0] + 2);
}

#[test]
fn selected_hunk_header_gets_marker() {
    let theme = Theme::github_dark();
    let file = diff_file_with_hunks(vec![
        ("@@ -1 +1 @@", vec![added_diff_line("one")]),
        ("@@ -10 +10 @@", vec![added_diff_line("two")]),
    ]);
    let content_width = DIFF_GUTTER_WIDTH + 40;

    let offsets = diff_layout_counts(&file, content_width, theme, true).hunk_offsets;
    let lines = rendered_lines(&file, content_width, theme, true, Some(1));

    assert!(line_text(&lines[offsets[0]]).starts_with("  @@ -1 +1 @@"));
    assert!(line_text(&lines[offsets[1]]).starts_with("> @@ -10 +10 @@"));
}

#[test]
fn intraline_highlights_inserted_spans() {
    let removed = r#"let title = format!("{} +{}", path, additions);"#;
    let added = r#"let title = format!("{} +{} -{}", path, additions, deletions);"#;
    let file = diff_file_with_lines(vec![removed_diff_line(removed), added_diff_line(added)]);
    let lines = rendered_lines(&file, DIFF_GUTTER_WIDTH + 120, Theme::github_dark(), true, None);
    let added_line = rendered_line_with_text(&lines, added);

    assert_bold_span(added_line, " -{}");
    assert_bold_span(added_line, ", deletions");
}

#[test]
fn intraline_highlights_replaced_spans_on_both_sides() {
    let removed = "let total = add(left, right);";
    let added = "let total = add(left, extra);";
    let file = diff_file_with_lines(vec![removed_diff_line(removed), added_diff_line(added)]);
    let lines = rendered_lines(&file, DIFF_GUTTER_WIDTH + 80, Theme::github_dark(), true, None);

    assert_bold_span(rendered_line_with_text(&lines, removed), "right");
    assert_bold_span(rendered_line_with_text(&lines, added), "extra");
}

#[test]
fn unrelated_changed_lines_skip_intraline_highlighting() {
    let removed = "fn alpha() -> bool { true }";
    let added = "struct Beta { value: usize }";
    let file = diff_file_with_lines(vec![removed_diff_line(removed), added_diff_line(added)]);
    let lines = rendered_lines(&file, DIFF_GUTTER_WIDTH + 80, Theme::github_dark(), true, None);

    assert_no_bold_spans(rendered_line_with_text(&lines, removed));
    assert_no_bold_spans(rendered_line_with_text(&lines, added));
}

#[test]
fn vue_hunks_use_source_context_before_the_hunk() {
    let theme = Theme::github_dark();
    let changed_line = "const getCurrentCursorPosition = () =>";
    let file = DiffFile {
        id: "0".to_string(),
        old_path: "src/App.vue".to_string(),
        path: "src/App.vue".to_string(),
        old_source: SourceSnapshot::Unloaded,
        new_source: SourceSnapshot::loaded(
            "<template>\n</template>\n<script setup lang=\"ts\">\n".to_string(),
        ),
        status: FileStatus::Modified,
        stage: FileStage::Unstaged,
        additions: 1,
        deletions: 0,
        hunks: vec![DiffHunk {
            header: "@@ -4 +4 @@".to_string(),
            old_start: 4,
            old_lines: 0,
            new_start: 4,
            new_lines: 1,
            stage: FileStage::Unstaged,
            lines: vec![DiffLine {
                kind: DiffLineKind::Added,
                old_line: None,
                new_line: Some(4),
                content: changed_line.to_string(),
            }],
        }],
        binary: false,
    };

    let lines =
        rendered_lines(&file, DIFF_GUTTER_WIDTH + 80, theme, true, None);
    let added_line = lines
        .iter()
        .find(|line| line_text(line).contains(changed_line))
        .expect("changed Vue script line should render");

    assert!(
        added_line
            .spans
            .iter()
            .any(|span| span.content.contains("const")
                && span.style.fg == Some(theme.syntax.keyword)),
        "{:?}",
        added_line.spans
    );
}

#[test]
fn review_mode_omits_diff_header_staging_affordance() {
    let file = diff_file_with_line(DiffLineKind::Context, "short");
    let header = render_file_header(&file, 80, false, Theme::github_dark());

    assert!(!line_text(&header).contains("[unstaged]"));
}

#[test]
fn diff_header_icon_uses_file_type_color() {
    let theme = Theme::github_dark();
    let mut file = diff_file_with_line(DiffLineKind::Context, "short");
    file.old_path = "src/main.rs".to_string();
    file.path = "src/main.rs".to_string();
    let header = render_file_header(&file, 80, false, theme);

    let icon = file_icon("src/main.rs");
    let icon_span = header
        .spans
        .iter()
        .find(|span| span.content.as_str() == icon)
        .expect("type icon span should render");
    assert_eq!(
        icon_span.style.fg,
        Some(file_icon_color("src/main.rs", theme))
    );
}

#[test]
fn review_mode_omits_hunk_staging_affordances() {
    let file = diff_file_with_line(DiffLineKind::Context, "short");
    let lines =
        rendered_lines(&file, 80, Theme::github_dark(), false, None);

    assert!(
        lines
            .iter()
            .all(|line| !line_text(line).contains("[unstaged]"))
    );
}

fn diff_file_with_line(kind: DiffLineKind, content: &str) -> DiffFile {
    DiffFile {
        id: "0".to_string(),
        old_path: "sample.unknown".to_string(),
        path: "sample.unknown".to_string(),
        old_source: SourceSnapshot::Unloaded,
        new_source: SourceSnapshot::Unloaded,
        status: FileStatus::Modified,
        stage: FileStage::Unstaged,
        additions: usize::from(matches!(kind, DiffLineKind::Added)),
        deletions: usize::from(matches!(kind, DiffLineKind::Removed)),
        hunks: vec![DiffHunk {
            header: "@@ -1 +1 @@".to_string(),
            old_start: 1,
            old_lines: 1,
            new_start: 1,
            new_lines: 1,
            stage: FileStage::Unstaged,
            lines: vec![DiffLine {
                kind,
                old_line: (!matches!(kind, DiffLineKind::Added)).then_some(1),
                new_line: (!matches!(kind, DiffLineKind::Removed)).then_some(1),
                content: content.to_string(),
            }],
        }],
        binary: false,
    }
}

fn diff_file_with_lines(lines: Vec<DiffLine>) -> DiffFile {
    let additions = lines
        .iter()
        .filter(|line| line.kind == DiffLineKind::Added)
        .count();
    let deletions = lines
        .iter()
        .filter(|line| line.kind == DiffLineKind::Removed)
        .count();
    let old_lines = lines
        .iter()
        .filter(|line| !matches!(line.kind, DiffLineKind::Added | DiffLineKind::Meta))
        .count() as u32;
    let new_lines = lines
        .iter()
        .filter(|line| !matches!(line.kind, DiffLineKind::Removed | DiffLineKind::Meta))
        .count() as u32;

    DiffFile {
        id: "0".to_string(),
        old_path: "sample.unknown".to_string(),
        path: "sample.unknown".to_string(),
        old_source: SourceSnapshot::Unloaded,
        new_source: SourceSnapshot::Unloaded,
        status: FileStatus::Modified,
        stage: FileStage::Unstaged,
        additions,
        deletions,
        hunks: vec![DiffHunk {
            header: "@@ -1 +1 @@".to_string(),
            old_start: 1,
            old_lines,
            new_start: 1,
            new_lines,
            stage: FileStage::Unstaged,
            lines,
        }],
        binary: false,
    }
}

fn diff_file_with_hunks(hunks: Vec<(&str, Vec<DiffLine>)>) -> DiffFile {
    let additions = hunks
        .iter()
        .flat_map(|(_, lines)| lines)
        .filter(|line| line.kind == DiffLineKind::Added)
        .count();
    let deletions = hunks
        .iter()
        .flat_map(|(_, lines)| lines)
        .filter(|line| line.kind == DiffLineKind::Removed)
        .count();
    let hunks = hunks
        .into_iter()
        .enumerate()
        .map(|(index, (header, lines))| DiffHunk {
            header: header.to_string(),
            old_start: index as u32 + 1,
            old_lines: 1,
            new_start: index as u32 + 1,
            new_lines: 1,
            stage: FileStage::Unstaged,
            lines,
        })
        .collect();

    DiffFile {
        id: "0".to_string(),
        old_path: "sample.unknown".to_string(),
        path: "sample.unknown".to_string(),
        old_source: SourceSnapshot::Unloaded,
        new_source: SourceSnapshot::Unloaded,
        status: FileStatus::Modified,
        stage: FileStage::Unstaged,
        additions,
        deletions,
        hunks,
        binary: false,
    }
}

fn removed_diff_line(content: &str) -> DiffLine {
    DiffLine {
        kind: DiffLineKind::Removed,
        old_line: Some(1),
        new_line: None,
        content: content.to_string(),
    }
}

fn added_diff_line(content: &str) -> DiffLine {
    DiffLine {
        kind: DiffLineKind::Added,
        old_line: None,
        new_line: Some(1),
        content: content.to_string(),
    }
}

fn line_prefix(line: &Line, width: usize) -> String {
    line_text(line).chars().take(width).collect()
}

fn line_suffix(line: &Line, width: usize) -> String {
    line_text(line).chars().skip(width).collect()
}

fn rendered_line_with_text<'a>(lines: &'a [Line], text: &str) -> &'a Line {
    lines
        .iter()
        .find(|line| line_text(line).contains(text))
        .expect("rendered diff line should exist")
}

fn assert_bold_span(line: &Line, text: &str) {
    assert!(
        line.spans.iter().any(|span| {
            span.content.as_str() == text && span.style.bold
        }),
        "expected bold span {text:?} in {:?}",
        line.spans
    );
}

fn assert_no_bold_spans(line: &Line) {
    assert!(
        !line
            .spans
            .iter()
            .any(|span| span.style.bold),
        "expected no bold spans in {:?}",
        line.spans
    );
}

fn line_text(line: &Line) -> String {
    spans_text(&line.spans)
}

fn spans_text(spans: &[Span]) -> String {
    spans
        .iter()
        .map(|span| span.content.as_str())
        .collect::<String>()
}

fn rendered_lines(
    file: &DiffFile,
    content_width: usize,
    theme: Theme,
    can_stage: bool,
    selected_hunk_index: Option<usize>,
) -> Vec<Line> {
    let options = DiffRenderOptions {
        content_width,
        theme,
        can_stage,
        selected_hunk_index,
    };
    diff_lines_until(file, options, usize::MAX, &Syntaxes::load()).lines
}
