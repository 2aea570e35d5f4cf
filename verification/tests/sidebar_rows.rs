use chunk::app::screen::line_width;
use chunk::line::Line;
use chunk::model::{
    DiffFile, DiffHunk, DiffLine, DiffLineKind, FileStage, FileStatus, SourceSnapshot,
};
use chunk::path_set::PathSet;
use chunk::rows::file_summary::reviewed_glyph;
use chunk::rows::sidebar::{
    render_file_entry, sidebar_row_counts, sidebar_rows, visible_sidebar_targets,
    FileEntryRenderInput, SidebarRowCountsInput, SidebarRowTarget, SidebarRowsInput,
};
use chunk::theme::Theme;

#[test]
fn long_sidebar_entries_truncate_to_one_row() {
    let files = vec![diff_file_with_path("extremely_long_file_name_component.rs")];
    let content_width = 16;
    let collapsed_dirs = PathSet::new();
    let row_counts = test_row_counts(&files, content_width, &collapsed_dirs);
    let rows = sidebar_rows(SidebarRowsInput {
        files: &files,
        empty_message: "No tracked changes",
        collapsed_dirs: &collapsed_dirs,
        selected_file_index: 0,
        sidebar_scroll: 0,
        row_counts: &row_counts,
        content_width,
        visible_height: 8,
        theme: Theme::github_dark(),
        reviewed_files: &PathSet::new(),
        active_target: None,
    });

    assert_eq!(rows.lines.len(), 1);
    assert!(rows.lines.iter().all(|line| line_width(line) <= content_width));
    assert_eq!(rows.row_records.len(), 1);
    assert_eq!(rows.row_records[0].target, SidebarRowTarget::File(0));
    assert_eq!(rows.row_records[0].row_count, 1);
}

#[test]
fn sidebar_scroll_keeps_selected_entry_visible() {
    let files = vec![
        diff_file_with_path("first_extremely_long_file_name.rs"),
        diff_file_with_path("second_extremely_long_file_name.rs"),
    ];
    let collapsed_dirs = PathSet::new();
    let row_counts = test_row_counts(&files, 14, &collapsed_dirs);
    let rows = sidebar_rows(SidebarRowsInput {
        files: &files,
        empty_message: "No tracked changes",
        collapsed_dirs: &collapsed_dirs,
        selected_file_index: 1,
        sidebar_scroll: 0,
        row_counts: &row_counts,
        content_width: 14,
        visible_height: 1,
        theme: Theme::github_dark(),
        reviewed_files: &PathSet::new(),
        active_target: None,
    });

    assert_eq!(rows.sidebar_scroll, 1);
    assert_eq!(rows.lines.len(), 1);
    assert_eq!(rows.row_records.len(), 1);
    assert_eq!(rows.row_records[0].target, SidebarRowTarget::File(1));
    assert_eq!(rows.row_records[0].row_count, 1);
}

#[test]
fn file_stats_stay_on_same_row_when_label_must_shrink() {
    let mut file = diff_file_with_path("src/rows/sidebar.rs");
    file.additions = 588;
    file.deletions = 63;
    let rows = render_file_entry(FileEntryRenderInput {
        file: &file,
        is_selected: true,
        content_width: 32,
        is_reviewed: false,
        depth: 2,
        theme: Theme::github_dark(),
    });
    let text = line_text(&rows[0]);

    assert_eq!(rows.len(), 1);
    assert!(line_width(&rows[0]) <= 32, "row was: {text}");
    assert!(text.contains("+588"), "row was: {text}");
    assert!(text.contains("-63"), "row was: {text}");
}

#[test]
fn review_mode_omits_sidebar_staging_affordances() {
    let file = diff_file_with_path("src/main.rs");
    let sidebar = render_test_file_entry(&file, 80, false, Theme::github_dark());

    assert!(!line_text(&sidebar[0]).contains("[ ]"));
}

#[test]
fn reviewed_files_render_with_check_glyph_and_muted_label() {
    let file = diff_file_with_path("src/main.rs");
    let theme = Theme::github_dark();
    let sidebar = render_test_file_entry(&file, 80, true, theme);

    let check_glyph = reviewed_glyph();
    let name_span = sidebar[0]
        .spans
        .iter()
        .find(|span| span.content.contains("main.rs"))
        .expect("file name span should render");
    let icon_span = sidebar[0]
        .spans
        .iter()
        .find(|span| span.content.as_str() == check_glyph)
        .expect("reviewed check glyph should render");

    assert_eq!(name_span.style.fg, Some(theme.muted));
    assert_eq!(icon_span.style.fg, Some(theme.added));
}

#[test]
fn unreviewed_files_keep_file_icon_and_text_color() {
    let file = diff_file_with_path("src/main.rs");
    let theme = Theme::github_dark();
    let sidebar = render_test_file_entry(&file, 80, false, theme);

    let check_glyph = reviewed_glyph();
    assert!(
        !sidebar[0]
            .spans
            .iter()
            .any(|span| span.content.as_str() == check_glyph)
    );

    let name_span = sidebar[0]
        .spans
        .iter()
        .find(|span| span.content.contains("main.rs"))
        .expect("file name span should render");
    assert_eq!(name_span.style.fg, Some(theme.text));
}

#[test]
fn staged_files_render_green_name_without_stage_marker() {
    let mut file = diff_file_with_path("src/main.rs");
    file.stage = FileStage::Staged;
    let theme = Theme::github_dark();
    let sidebar = render_test_file_entry(&file, 80, false, theme);
    let text = line_text(&sidebar[0]);

    assert!(!text.contains("\u{f058}"), "row was: {text}");
    assert!(!text.contains("\u{f10c}"), "row was: {text}");

    let name_span = sidebar[0]
        .spans
        .iter()
        .find(|span| span.content.contains("main.rs"))
        .expect("file name span should render");
    assert_eq!(name_span.style.fg, Some(theme.added));
}

#[test]
fn reviewed_row_count_matches_unreviewed_row_count() {
    let file = diff_file_with_path("src/components/extremely_long_file_name_component.rs");
    let content_width = 16;
    let theme = Theme::github_dark();
    let unreviewed = render_test_file_entry(&file, content_width, false, theme).len();
    let reviewed = render_test_file_entry(&file, content_width, true, theme).len();

    assert_eq!(unreviewed, reviewed);
}

#[test]
fn tree_rows_group_paths_and_record_click_targets() {
    let files = files_with_paths([
        "src/app.rs",
        "src/bin/chunk.rs",
        "src/config.rs",
        "README.md",
    ]);
    let collapsed_dirs = PathSet::new();
    let row_counts = test_row_counts(&files, 80, &collapsed_dirs);
    let rows = sidebar_rows(SidebarRowsInput {
        files: &files,
        empty_message: "No tracked changes",
        collapsed_dirs: &collapsed_dirs,
        selected_file_index: 1,
        sidebar_scroll: 0,
        row_counts: &row_counts,
        content_width: 80,
        visible_height: 8,
        theme: Theme::github_dark(),
        reviewed_files: &PathSet::new(),
        active_target: None,
    });

    let texts = rows.lines.iter().map(line_text).collect::<Vec<_>>();
    assert!(texts[0].starts_with("▾ "), "rows were: {texts:?}");
    assert!(texts[0].contains("src/"), "rows were: {texts:?}");
    assert!(texts[1].contains("bin/"), "rows were: {texts:?}");
    assert!(texts[2].contains("chunk.rs"), "rows were: {texts:?}");
    assert!(texts[3].contains("app.rs"), "rows were: {texts:?}");
    assert!(texts[4].contains("config.rs"), "rows were: {texts:?}");
    assert!(texts[5].contains("README.md"), "rows were: {texts:?}");

    assert_eq!(
        rows.row_records
            .iter()
            .map(|record| record.target.clone())
            .collect::<Vec<_>>(),
        vec![
            SidebarRowTarget::Folder("src".to_string()),
            SidebarRowTarget::Folder("src/bin".to_string()),
            SidebarRowTarget::File(1),
            SidebarRowTarget::File(0),
            SidebarRowTarget::File(2),
            SidebarRowTarget::File(3),
        ]
    );
}

#[test]
fn active_folder_row_uses_selected_background() {
    let files = files_with_paths([
        "src/app.rs",
        "src/bin/chunk.rs",
        "src/config.rs",
        "README.md",
    ]);
    let collapsed_dirs = PathSet::new();
    let active_target = SidebarRowTarget::Folder("src".to_string());
    let theme = Theme::github_dark();
    let row_counts = test_row_counts(&files, 80, &collapsed_dirs);
    let rows = sidebar_rows(SidebarRowsInput {
        files: &files,
        empty_message: "No tracked changes",
        collapsed_dirs: &collapsed_dirs,
        selected_file_index: 3,
        sidebar_scroll: 0,
        row_counts: &row_counts,
        content_width: 80,
        visible_height: 8,
        theme,
        reviewed_files: &PathSet::new(),
        active_target: Some(&active_target),
    });

    assert!(
        rows.lines[0]
            .spans
            .iter()
            .all(|span| span.style.bg == Some(theme.selected))
    );
    assert!(
        rows.lines[1]
            .spans
            .iter()
            .all(|span| span.style.bg != Some(theme.selected))
    );
}

#[test]
fn staged_folder_row_uses_staged_name_color() {
    let mut files = files_with_paths(["src/app.rs", "src/config.rs", "README.md"]);
    files[0].stage = FileStage::Staged;
    files[1].stage = FileStage::Staged;
    let collapsed_dirs = PathSet::new();
    let theme = Theme::github_dark();
    let row_counts = test_row_counts(&files, 80, &collapsed_dirs);
    let rows = sidebar_rows(SidebarRowsInput {
        files: &files,
        empty_message: "No tracked changes",
        collapsed_dirs: &collapsed_dirs,
        selected_file_index: 2,
        sidebar_scroll: 0,
        row_counts: &row_counts,
        content_width: 80,
        visible_height: 8,
        theme,
        reviewed_files: &PathSet::new(),
        active_target: None,
    });

    let folder_label = rows.lines[0].spans.last().expect("folder label span");
    assert_eq!(folder_label.content.as_str(), "src/");
    assert_eq!(folder_label.style.fg, Some(theme.added));
    assert!(folder_label.style.bold);
}

#[test]
fn mixed_folder_row_uses_mixed_name_color() {
    let mut files = files_with_paths(["src/app.rs", "src/config.rs", "README.md"]);
    files[0].stage = FileStage::Staged;
    let collapsed_dirs = PathSet::new();
    let theme = Theme::github_dark();
    let row_counts = test_row_counts(&files, 80, &collapsed_dirs);
    let rows = sidebar_rows(SidebarRowsInput {
        files: &files,
        empty_message: "No tracked changes",
        collapsed_dirs: &collapsed_dirs,
        selected_file_index: 2,
        sidebar_scroll: 0,
        row_counts: &row_counts,
        content_width: 80,
        visible_height: 8,
        theme,
        reviewed_files: &PathSet::new(),
        active_target: None,
    });

    let folder_label = rows.lines[0].spans.last().expect("folder label span");
    assert_eq!(folder_label.content.as_str(), "src/");
    assert_eq!(folder_label.style.fg, Some(theme.accent));
    assert!(folder_label.style.bold);
}

#[test]
fn collapsed_tree_rows_hide_descendants() {
    let files = files_with_paths([
        "src/app.rs",
        "src/bin/chunk.rs",
        "src/config.rs",
        "README.md",
    ]);
    let collapsed_dirs = path_set("src/bin");
    let row_counts = test_row_counts(&files, 80, &collapsed_dirs);
    let rows = sidebar_rows(SidebarRowsInput {
        files: &files,
        empty_message: "No tracked changes",
        collapsed_dirs: &collapsed_dirs,
        selected_file_index: 1,
        sidebar_scroll: 0,
        row_counts: &row_counts,
        content_width: 80,
        visible_height: 8,
        theme: Theme::github_dark(),
        reviewed_files: &PathSet::new(),
        active_target: None,
    });
    let joined = rows
        .lines
        .iter()
        .map(line_text)
        .collect::<Vec<_>>()
        .join("\n");

    assert!(joined.contains("bin/"));
    assert!(!joined.contains("chunk.rs"));
    assert_eq!(visible_file_indices(&files, &collapsed_dirs), vec![0, 2, 3]);
    assert_eq!(
        rows.row_records
            .iter()
            .map(|record| record.target.clone())
            .collect::<Vec<_>>(),
        vec![
            SidebarRowTarget::Folder("src".to_string()),
            SidebarRowTarget::Folder("src/bin".to_string()),
            SidebarRowTarget::File(0),
            SidebarRowTarget::File(2),
            SidebarRowTarget::File(3),
        ]
    );
}

fn test_row_counts(
    files: &Vec<DiffFile>,
    content_width: usize,
    collapsed_dirs: &PathSet,
) -> Vec<usize> {
    sidebar_row_counts(SidebarRowCountsInput {
        files,
        collapsed_dirs,
        content_width,
        theme: Theme::github_dark(),
    })
}

fn files_with_paths<const N: usize>(paths: [&str; N]) -> Vec<DiffFile> {
    paths.into_iter().map(diff_file_with_path).collect()
}

fn render_test_file_entry(
    file: &DiffFile,
    content_width: usize,
    is_reviewed: bool,
    theme: Theme,
) -> Vec<Line> {
    render_file_entry(FileEntryRenderInput {
        file,
        is_selected: true,
        content_width,
        is_reviewed,
        depth: 0,
        theme,
    })
}

fn diff_file_with_path(path: &str) -> DiffFile {
    DiffFile {
        id: path.to_string(),
        old_path: path.to_string(),
        path: path.to_string(),
        old_source: SourceSnapshot::Unloaded,
        new_source: SourceSnapshot::Unloaded,
        status: FileStatus::Modified,
        stage: FileStage::Unstaged,
        additions: 12,
        deletions: 3,
        hunks: vec![DiffHunk {
            header: "@@ -1 +1 @@".to_string(),
            old_start: 1,
            old_lines: 1,
            new_start: 1,
            new_lines: 1,
            stage: FileStage::Unstaged,
            lines: vec![DiffLine {
                kind: DiffLineKind::Context,
                old_line: Some(1),
                new_line: Some(1),
                content: "short".to_string(),
            }],
        }],
        binary: false,
    }
}

fn line_text(line: &Line) -> String {
    line.spans
        .iter()
        .map(|span| span.content.as_str())
        .collect::<String>()
}

fn path_set(path: &str) -> PathSet {
    let mut set = PathSet::new();
    set.insert(path);
    set
}

fn visible_file_indices(files: &Vec<DiffFile>, collapsed_dirs: &PathSet) -> Vec<usize> {
    visible_sidebar_targets(files, collapsed_dirs)
        .into_iter()
        .filter_map(|target| match target {
            SidebarRowTarget::File(index) => Some(index),
            SidebarRowTarget::Folder(_) => None,
        })
        .collect()
}
