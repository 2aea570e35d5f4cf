use chunk::ask_ai::AskAiReviewMode;
use chunk::model::{
    DiffFile, DiffHunk, DiffLine, DiffLineKind, FileStage, FileStatus, SourceSnapshot,
};
use chunk::review_source::{
    editable_file_path, worktree_file_path, PullRequestReviewSource, ReviewSource,
    WorktreeMutation,
};

#[test]
fn pull_request_source_is_read_only_and_not_live_watched() {
    let source = pull_request_source();
    let file = diff_file(FileStatus::Modified, "src/lib.rs", "src/lib.rs");

    assert!(!source.has_worktree_mutations());
    assert!(!source.is_live_watched());
    assert!(
        source
            .editor_request(&file, None)
            .unwrap_err()
            .to_string()
            .contains("cannot open PR snapshot")
    );
    assert_eq!(source.empty_sidebar_message(), "No branch changes");
    assert_eq!(source.no_diff_message(), "No diff to review. Current branch has no changes against base.");
    assert_eq!(source.ask_ai_review_mode(), AskAiReviewMode::PullRequest);
}

#[test]
fn worktree_source_exposes_worktree_affordances() {
    let source = ReviewSource::worktree();

    assert!(source.has_worktree_mutations());
    assert_eq!(source.empty_sidebar_message(), "No tracked changes");
    assert_eq!(source.no_diff_message(), "No diff to review. Make a tracked change, then run chunk diff.");
    assert_eq!(source.ask_ai_review_mode(), AskAiReviewMode::Worktree);
}

#[test]
fn worktree_mutation_metadata_describes_reload_and_error_policy() {
    let file = diff_file(FileStatus::Modified, "src/lib.rs", "src/lib.rs");

    assert!(
        !WorktreeMutation::ToggleFileStaging {
            path: "src/lib.rs".to_string()
        }
        .preserve_scroll()
    );
    assert!(
        !WorktreeMutation::StageFiles {
            paths: vec!["src/lib.rs".to_string()]
        }
        .preserve_scroll()
    );
    assert!(
        WorktreeMutation::ToggleHunkStaging {
            file: file.clone(),
            hunk_index: 0,
        }
        .preserve_scroll()
    );
    assert!(
        WorktreeMutation::DiscardFile {
            path: "src/lib.rs".to_string()
        }
        .preserve_scroll()
    );
    assert_eq!(
        WorktreeMutation::ToggleHunkStaging {
            file,
            hunk_index: 0,
        }
        .failure_context(),
        "hunk staging failed"
    );
}

#[test]
fn editable_file_path_rejects_files_that_cannot_be_opened() {
    let valid = diff_file(FileStatus::Modified, "src/lib.rs", "src/lib.rs");
    assert_eq!(editable_file_path(&valid).unwrap(), "src/lib.rs");

    let deleted = diff_file(FileStatus::Deleted, "src/lib.rs", "");
    assert!(
        editable_file_path(&deleted)
            .unwrap_err()
            .to_string()
            .contains("cannot open deleted file")
    );

    let empty = diff_file(FileStatus::Modified, "", "");
    assert!(
        editable_file_path(&empty)
            .unwrap_err()
            .to_string()
            .contains("no worktree path")
    );
}

#[test]
fn worktree_file_path_rejects_paths_outside_root() {
    let root = "/repo";

    assert_eq!(
        worktree_file_path(root, "src/lib.rs").unwrap(),
        String::from("/repo/src/lib.rs")
    );
    for path in ["/tmp/lib.rs", "../lib.rs", "src/../lib.rs"] {
        assert!(
            worktree_file_path(root, path)
                .unwrap_err()
                .to_string()
                .contains("outside worktree"),
            "{path} should be rejected"
        );
    }
}

fn pull_request_source() -> ReviewSource {
    ReviewSource::PullRequest(PullRequestReviewSource {
        old_ref: "main".to_string(),
        new_ref: "HEAD".to_string(),
        title: "PR review feature into main".to_string(),
        source_label: "git diff main...HEAD".to_string(),
    })
}

fn diff_file(status: FileStatus, old_path: &str, path: &str) -> DiffFile {
    DiffFile {
        id: "0".to_string(),
        old_path: old_path.to_string(),
        path: path.to_string(),
        old_source: SourceSnapshot::Unloaded,
        new_source: SourceSnapshot::Unloaded,
        status,
        stage: FileStage::Unstaged,
        additions: 1,
        deletions: 1,
        hunks: vec![DiffHunk {
            header: "@@ -10,1 +10,1 @@".to_string(),
            old_start: 10,
            old_lines: 1,
            new_start: 10,
            new_lines: 1,
            stage: FileStage::Unstaged,
            lines: vec![DiffLine {
                kind: DiffLineKind::Added,
                old_line: None,
                new_line: Some(10),
                content: "new line".to_string(),
            }],
        }],
        binary: false,
    }
}
