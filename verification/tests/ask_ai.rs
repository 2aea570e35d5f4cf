use chunk::ask_ai::{
    build_prompt, session_title, AskAiContext, AskAiInvocation, AskAiRequest, AskAiResult,
    AskAiReviewMode, MAX_DIFF_CONTEXT_CHARS,
};
use chunk::model::{
    DiffFile, DiffHunk, DiffLine, DiffLineKind, FileStage, FileStatus, SourceSnapshot,
};
use chunk::process::ProcessOutput;

#[test]
fn prompt_includes_question_context_and_read_only_constraints() {
    let file = diff_file_with_hunk();
    let context = AskAiContext::focused(
        AskAiReviewMode::PullRequest,
        "PR review feature into main".to_string(),
        "git diff main...HEAD".to_string(),
        &file,
        Some(0),
        Some("selected code".to_string()),
    );
    let request = AskAiRequest::new("Why did this change?".to_string(), context);

    let prompt = build_prompt(&request, "/repo");

    assert!(prompt.contains("Why did this change?"));
    assert!(prompt.contains("Repository root: /repo"));
    assert!(prompt.contains("Review mode: pull request review"));
    assert!(prompt.contains("Focused file: src/lib.rs"));
    assert!(prompt.contains("Focused hunk: #1 @@ -1,2 +1,2 @@"));
    assert!(prompt.contains("selected code"));
    assert!(prompt.contains("+new line"));
    assert!(prompt.contains("Do not edit, write, patch, stage, commit, push"));
    assert!(prompt.contains("Internet lookup is allowed"));
    assert!(
        prompt.contains("edit, bash, task, skill, and external-directory permissions denied")
    );
}

#[test]
fn read_only_invocation_overrides_mutating_permissions() {
    let file = diff_file_with_hunk();
    let context = AskAiContext::focused(
        AskAiReviewMode::Worktree,
        "Tracked changes".to_string(),
        "git diff HEAD + untracked".to_string(),
        &file,
        Some(0),
        None,
    );
    let request = AskAiRequest::new("Explain this".to_string(), context);

    let invocation = AskAiInvocation::new(&request, "/repo");

    assert_eq!(invocation.program, "opencode");
    assert!(invocation.args.contains(&"run".to_string()));
    assert!(invocation.args.contains(&"--pure".to_string()));
    assert!(
        invocation
            .args
            .windows(2)
            .any(|args| args == ["--dir", "/repo"])
    );
    assert!(
        !invocation
            .args
            .iter()
            .any(|arg| arg == "--dangerously-skip-permissions")
    );

    let config = invocation
        .env
        .iter()
        .find(|(key, _)| key == "OPENCODE_CONFIG_CONTENT")
        .map(|(_, value)| value.as_str())
        .expect("inline config should be set");
    assert!(config.contains(r#""*":"deny""#));
    assert!(config.contains(r#""read":{"*":"allow""#));
    assert!(config.contains(r#""edit":"deny""#));
    assert!(config.contains(r#""bash":"deny""#));
    assert!(config.contains(r#""webfetch":"allow""#));
    assert!(config.contains(r#""websearch":"allow""#));
    assert!(config.contains(r#""external_directory":"deny""#));
    assert!(config.contains(r#""autoupdate":false"#));
}

#[test]
fn explain_code_prompt_is_review_oriented_and_uses_context() {
    let file = diff_file_with_hunk();
    let context = AskAiContext::focused(
        AskAiReviewMode::Worktree,
        "Tracked changes".to_string(),
        "git diff HEAD + untracked".to_string(),
        &file,
        Some(0),
        Some("selected code".to_string()),
    );
    let request = AskAiRequest::explain_code(context);

    let prompt = build_prompt(&request, "/repo");

    assert!(prompt.contains("Explain the selected or focused code"));
    assert!(prompt.contains("what the code does"));
    assert!(prompt.contains("why the changed code matters"));
    assert!(prompt.contains("assumptions or risks"));
    assert!(prompt.contains("Focused hunk: #1 @@ -1,2 +1,2 @@"));
    assert!(prompt.contains("selected code"));
    assert!(prompt.contains("+new line"));
    assert!(prompt.contains("read-only"));
}

#[test]
fn result_status_text_covers_completion_states() {
    let request = ask_request();
    let repo_root = "/repo".to_string();

    let success = AskAiResult::from_output(
        request.clone(),
        repo_root.clone(),
        output(0, "answer\n", ""),
    );
    assert!(success.success());
    assert_eq!(success.status_text(), "exit 0");
    assert_eq!(success.stdout(), "answer\n");
    assert_eq!(success.repo_root(), Some("/repo"));

    let failure =
        AskAiResult::from_output(request.clone(), repo_root.clone(), output(2, "", "nope\n"));
    assert!(!failure.success());
    assert_eq!(failure.status_text(), "exit 2");
    assert_eq!(failure.stderr(), "nope\n");

    let cancelled = AskAiResult::cancelled(
        request.clone(),
        repo_root.clone(),
        Some(output(143, "partial", "")),
    );
    assert!(cancelled.cancelled_status());
    assert_eq!(cancelled.status_text(), "cancelled");
    assert_eq!(cancelled.stdout(), "partial");

    let not_started = AskAiResult::not_started(request, Some(repo_root), "missing opencode".to_string());
    assert!(!not_started.success());
    assert_eq!(
        not_started.status_text(),
        "failed to start: missing opencode"
    );
    assert_eq!(not_started.stderr(), "missing opencode".to_string());
}

#[test]
fn prompt_describes_renamed_binary_files_without_selection() {
    let mut file = diff_file_with_hunk();
    file.old_path = "src/old.rs".to_string();
    file.path = "src/new.rs".to_string();
    file.binary = true;
    file.hunks.clear();
    let context = AskAiContext::focused(
        AskAiReviewMode::PullRequest,
        "PR review feature into main".to_string(),
        "git diff main...HEAD".to_string(),
        &file,
        None,
        Some("   ".to_string()),
    );
    let request = AskAiRequest::new("Review this".to_string(), context);

    let prompt = build_prompt(&request, "/repo");

    assert!(prompt.contains("Focused file: src/new.rs"));
    assert!(prompt.contains("Old file path: src/old.rs"));
    assert!(prompt.contains("Focused file is binary."));
    assert!(prompt.contains("Binary file changed"));
    assert!(!prompt.contains("Selected visible text"));
}

#[test]
fn prompt_describes_text_changes_without_hunks() {
    let mut file = diff_file_with_hunk();
    file.hunks.clear();
    let context = AskAiContext::focused(
        AskAiReviewMode::Worktree,
        "Tracked changes".to_string(),
        "git diff HEAD + untracked".to_string(),
        &file,
        None,
        None,
    );
    let request = AskAiRequest::new("What changed?".to_string(), context);

    let prompt = build_prompt(&request, "/repo");

    assert!(prompt.contains("File changed without textual hunks"));
    assert!(prompt.contains("Review mode: worktree diff"));
}

#[test]
fn diff_context_and_session_title_are_truncated() {
    let mut file = diff_file_with_hunk();
    file.hunks[0].lines[0].content = "x".repeat(MAX_DIFF_CONTEXT_CHARS + 100);
    let context = AskAiContext::focused(
        AskAiReviewMode::Worktree,
        "Tracked changes".to_string(),
        "git diff HEAD + untracked".to_string(),
        &file,
        Some(0),
        None,
    );
    let request = AskAiRequest::new("q".repeat(200), context);

    let prompt = build_prompt(&request, "/repo");
    let title = session_title(&request);

    assert!(prompt.contains("[diff context truncated]"));
    assert!(title.chars().count() <= 80);
    assert!(title.ends_with("..."));
}

fn ask_request() -> AskAiRequest {
    AskAiRequest::new(
        "Explain this".to_string(),
        AskAiContext::focused(
            AskAiReviewMode::Worktree,
            "Tracked changes".to_string(),
            "git diff HEAD + untracked".to_string(),
            &diff_file_with_hunk(),
            Some(0),
            None,
        ),
    )
}

fn output(code: i32, stdout: &str, stderr: &str) -> ProcessOutput {
    ProcessOutput {
        stdout: stdout.as_bytes().to_vec(),
        stderr: stderr.as_bytes().to_vec(),
        success: code == 0,
        code: Some(code),
    }
}

fn diff_file_with_hunk() -> DiffFile {
    DiffFile {
        id: "0".to_string(),
        old_path: "src/lib.rs".to_string(),
        path: "src/lib.rs".to_string(),
        old_source: SourceSnapshot::Unloaded,
        new_source: SourceSnapshot::Unloaded,
        status: FileStatus::Modified,
        stage: FileStage::Unstaged,
        additions: 1,
        deletions: 1,
        hunks: vec![DiffHunk {
            header: "@@ -1,2 +1,2 @@".to_string(),
            old_start: 1,
            old_lines: 2,
            new_start: 1,
            new_lines: 2,
            stage: FileStage::Unstaged,
            lines: vec![
                DiffLine {
                    kind: DiffLineKind::Removed,
                    old_line: Some(1),
                    new_line: None,
                    content: "old line".to_string(),
                },
                DiffLine {
                    kind: DiffLineKind::Added,
                    old_line: None,
                    new_line: Some(1),
                    content: "new line".to_string(),
                },
            ],
        }],
        binary: false,
    }
}
