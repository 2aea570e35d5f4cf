use chunk::model::{
    DiffFile, DiffHunk, DiffLine, DiffLineKind, FileStage, FileStatus, SourceSnapshot,
};

#[test]
fn first_changed_line_skips_context_prefix() {
    let file = text_file(
        10,
        vec![
            diff_line(DiffLineKind::Context, Some(10), Some(10)),
            diff_line(DiffLineKind::Added, None, Some(11)),
        ],
    );

    assert_eq!(file.first_changed_line(), Some(11));
}

#[test]
fn first_changed_line_for_removal_uses_current_new_line() {
    let file = text_file(
        20,
        vec![
            diff_line(DiffLineKind::Context, Some(20), Some(20)),
            diff_line(DiffLineKind::Removed, Some(21), None),
        ],
    );

    assert_eq!(file.first_changed_line(), Some(21));
}

#[test]
fn first_changed_line_ignores_binary_files() {
    let mut file = text_file(1, vec![diff_line(DiffLineKind::Added, None, Some(1))]);
    file.binary = true;

    assert_eq!(file.first_changed_line(), None);
}

fn text_file(new_start: u32, lines: Vec<DiffLine>) -> DiffFile {
    DiffFile {
        id: "0".to_string(),
        old_path: "sample.txt".to_string(),
        path: "sample.txt".to_string(),
        old_source: SourceSnapshot::Unloaded,
        new_source: SourceSnapshot::Unloaded,
        status: FileStatus::Modified,
        stage: FileStage::Unstaged,
        additions: 0,
        deletions: 0,
        hunks: vec![DiffHunk {
            header: format!("@@ -{new_start} +{new_start} @@"),
            old_start: new_start,
            old_lines: 1,
            new_start,
            new_lines: 1,
            stage: FileStage::Unstaged,
            lines,
        }],
        binary: false,
    }
}

fn diff_line(kind: DiffLineKind, old_line: Option<u32>, new_line: Option<u32>) -> DiffLine {
    DiffLine {
        kind,
        old_line,
        new_line,
        content: "line".to_string(),
    }
}
