use chunk::app::review_session::{ReviewSessionReplacement, ReviewSessionSnapshot};
use chunk::model::{
    Changeset, DiffFile, DiffHunk, DiffLine, DiffLineKind, FileStage, FileStatus, SourceSnapshot,
};
use chunk::rows::sidebar::SidebarRowTarget;

#[test]
fn replacement_preserves_file_hunk_scroll_and_folder_by_identity() {
    let current = changeset(vec![
        file("src/a.rs", vec![hunk(1, 1, 1, 1)]),
        file("src/b.rs", vec![hunk(4, 1, 8, 1), hunk(20, 2, 30, 2)]),
    ]);
    let snapshot = ReviewSessionSnapshot::capture(
        Some(&current.files[1]),
        1,
        Some(&current.files[1].hunks[1]),
        Some(1),
        12,
        Some(SidebarRowTarget::Folder("src".to_string())),
    );

    let replacement = ReviewSessionReplacement::plan(
        snapshot,
        changeset(vec![
            file("src/b.rs", vec![hunk(4, 1, 8, 1), hunk(20, 2, 30, 2)]),
            file("src/a.rs", vec![hunk(1, 1, 1, 1)]),
        ]),
        true,
    );

    assert_eq!(replacement.selected_file_index, 0);
    assert_eq!(replacement.selected_hunk_index, Some(1));
    assert_eq!(replacement.diff_scroll, 12);
    assert_eq!(
        replacement.sidebar_target,
        Some(SidebarRowTarget::Folder("src".to_string()))
    );
}

#[test]
fn replacement_resets_position_when_selected_file_disappears() {
    let current = changeset(vec![
        file("a.rs", vec![hunk(1, 1, 1, 1)]),
        file("b.rs", vec![hunk(5, 1, 5, 1)]),
    ]);
    let snapshot = ReviewSessionSnapshot::capture(
        Some(&current.files[1]),
        1,
        Some(&current.files[1].hunks[0]),
        Some(0),
        8,
        None,
    );

    let replacement =
        ReviewSessionReplacement::plan(snapshot, changeset(vec![file("a.rs", vec![])]), true);

    assert_eq!(replacement.selected_file_index, 0);
    assert_eq!(replacement.selected_hunk_index, None);
    assert_eq!(replacement.diff_scroll, 0);
}

#[test]
fn replacement_clamps_hunk_index_when_coordinates_disappear() {
    let current = changeset(vec![file(
        "sample.rs",
        vec![hunk(1, 1, 1, 1), hunk(10, 1, 10, 1), hunk(20, 1, 20, 1)],
    )]);
    let snapshot = ReviewSessionSnapshot::capture(
        Some(&current.files[0]),
        0,
        Some(&current.files[0].hunks[2]),
        Some(2),
        6,
        None,
    );

    let replacement = ReviewSessionReplacement::plan(
        snapshot,
        changeset(vec![file("sample.rs", vec![hunk(1, 1, 1, 1)])]),
        true,
    );

    assert_eq!(replacement.selected_file_index, 0);
    assert_eq!(replacement.selected_hunk_index, Some(0));
    assert_eq!(replacement.diff_scroll, 6);
}

#[test]
fn replacement_drops_folder_target_when_folder_disappears() {
    let current = changeset(vec![file("src/a.rs", vec![hunk(1, 1, 1, 1)])]);
    let snapshot = ReviewSessionSnapshot::capture(
        Some(&current.files[0]),
        0,
        Some(&current.files[0].hunks[0]),
        Some(0),
        2,
        Some(SidebarRowTarget::Folder("src".to_string())),
    );

    let replacement = ReviewSessionReplacement::plan(
        snapshot,
        changeset(vec![file("tests/a.rs", vec![hunk(1, 1, 1, 1)])]),
        true,
    );

    assert_eq!(replacement.sidebar_target, None);
}

fn changeset(files: Vec<DiffFile>) -> Changeset {
    Changeset {
        title: "Test".to_string(),
        source_label: "test".to_string(),
        files,
    }
}

fn file(path: &str, hunks: Vec<DiffHunk>) -> DiffFile {
    DiffFile {
        id: path.to_string(),
        old_path: path.to_string(),
        path: path.to_string(),
        old_source: SourceSnapshot::default(),
        new_source: SourceSnapshot::default(),
        status: FileStatus::Modified,
        stage: FileStage::Unstaged,
        additions: 0,
        deletions: 0,
        hunks,
        binary: false,
    }
}

fn hunk(old_start: u32, old_lines: u32, new_start: u32, new_lines: u32) -> DiffHunk {
    DiffHunk {
        header: format!("@@ -{old_start},{old_lines} +{new_start},{new_lines} @@"),
        old_start,
        old_lines,
        new_start,
        new_lines,
        stage: FileStage::Unstaged,
        lines: vec![DiffLine {
            kind: DiffLineKind::Context,
            old_line: Some(old_start),
            new_line: Some(new_start),
            content: "line".to_string(),
        }],
    }
}
