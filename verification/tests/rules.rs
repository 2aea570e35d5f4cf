use chunk::ask_ai::{
    has_unpublished_changes, truncate_chars, AskAiContext, AskAiRequest, AskAiReviewMode, MAX_DIFF_CONTEXT_CHARS,
};
use chunk::custom_command::shell_program;
use chunk::editor::{EditorCommand, EditorRequest};
use chunk::git::{
    annotate_hunk_stage_states_from_diffs, annotate_stage_state, check_files_discard,
    check_hunk_discard, command_failure_text, current_branch_label, file_discard_action,
    git_apply_args, git_apply_context, git_diff_args, guarded_source_prefix, has_file_diff,
    matching_hunk_patch, merge_base_result, pr_source_label, pr_title, read_source_prefix,
    resolve_base_ref, source_context_lines, toggle_source, unpublished_base_ref, untracked_diff_args,
    untracked_diff_error, untracked_paths,
    with_untracked_patches, worktree_title, DiscardAction, DiscardCandidate, GitApplyTarget,
    HunkPatchSource, SourcePrefix,
};
use chunk::input::Rect;
use chunk::model::{DiffFile, FileStage, SourceSnapshot};
use chunk::patch::{file_patch, parse_unified_diff, selected_hunk_patch};
use chunk::process::{
    CaptureBudget, CapturedStream, ProcessOutcome, ProcessOutput, MAX_CAPTURED_OUTPUT_BYTES,
    TRUNCATED_OUTPUT_NOTICE_MAX_BYTES,
};
use chunk::review_source::{ReviewSource, WorktreeMutation};
use chunk::runtime::{
    is_relevant_worktree_path, ReloadTimer, TerminalAction, TerminalRestore,
};
use chunk::style::Color;
use chunk::syntax::{indexed_rgb, rgb};
use chunk::ui::{
    body_layout, centered_rect, help_overlay_height, help_overlay_width, help_scrollbar_area,
    keybind_content_area, scrollbar_thumb, BodyDirection,
};

const PATCH: &str = "diff --git a/one.txt b/one.txt\n\
    --- a/one.txt\n\
    +++ b/one.txt\n\
    @@ -1,3 +1,3 @@\n\
    \x20alpha\n\
    -beta\n\
    +gamma\n\
    \x20delta\n\
    @@ -20,2 +20,3 @@ fn tail\n\
    \x20epsilon\n\
    +zeta\n\
    \x20eta\n";

fn patched_file() -> DiffFile {
    parse_unified_diff(PATCH).files.remove(0)
}

fn strings(values: &[&str]) -> Vec<String> {
    values.iter().map(|value| value.to_string()).collect()
}

#[test]
fn parsed_lines_are_counted_and_numbered() {
    let file = patched_file();

    assert_eq!(file.additions, 2);
    assert_eq!(file.deletions, 1);
    assert_eq!(file.hunks.len(), 2);
    let numbers: Vec<_> = file.hunks[0]
        .lines
        .iter()
        .map(|line| (line.old_line, line.new_line))
        .collect();
    assert_eq!(
        numbers,
        [
            (Some(1), Some(1)),
            (Some(2), None),
            (None, Some(2)),
            (Some(3), Some(3)),
        ]
    );
    assert_eq!(file.hunks[1].new_start, 20);
    assert_eq!(file.hunks[1].new_lines, 3);
    assert_eq!(file.first_changed_line(), Some(2));
    assert_eq!(file.line_count(), 1 + 5 + 4);
}

#[test]
fn every_diff_header_starts_a_file() {
    let two = format!("{PATCH}diff --git a/two.bin b/two.bin\nBinary files differ\n");
    let changeset = parse_unified_diff(&two);

    assert_eq!(changeset.files.len(), 2);
    assert_eq!(changeset.files[1].path, "two.bin");
    assert!(changeset.files[1].binary);
    assert_eq!(parse_unified_diff("").files.len(), 0);
}

#[test]
fn copied_patches_parse_to_the_same_hunks() {
    let file = patched_file();

    let whole = file_patch(&file).unwrap();
    assert_eq!(parse_unified_diff(&whole).files[0].hunks, file.hunks);

    let second = selected_hunk_patch(&file, 1).unwrap();
    assert_eq!(parse_unified_diff(&second).files[0].hunks, [file.hunks[1].clone()]);
    assert!(second.contains("+zeta\n"));
    assert!(!second.contains("gamma"));
    assert!(selected_hunk_patch(&file, 2).is_none());
}

#[test]
fn git_arguments_and_contexts() {
    assert_eq!(
        git_diff_args(&strings(&["--cached"]), &strings(&["HEAD"])),
        [
            "diff",
            "--cached",
            "--no-color",
            "--patch",
            "--find-renames",
            "--default-prefix",
            "HEAD",
        ]
    );
    assert_eq!(
        git_apply_args(GitApplyTarget::Index, true),
        ["apply", "--cached", "--whitespace=nowarn", "--reverse"]
    );
    assert_eq!(
        git_apply_args(GitApplyTarget::Worktree, false),
        ["apply", "--whitespace=nowarn"]
    );
    assert_eq!(
        git_apply_context(GitApplyTarget::Index, false),
        "git apply --cached failed"
    );
}

#[test]
fn source_context_reaches_to_the_last_hunk() {
    let file = patched_file();

    assert_eq!(source_context_lines(&file), Some((19, 19)));
    let prefix = read_source_prefix("a\nb\nc\n", 2).unwrap();
    assert_eq!(prefix.content, "a\nb\n");
    assert!(prefix.line_limit_reached);
    let whole = read_source_prefix("a\nb", 5).unwrap();
    assert_eq!(whole.content, "a\nb");
    assert!(!whole.line_limit_reached);
    assert_eq!(
        guarded_source_prefix("a.txt", 0),
        Some(SourceSnapshot::loaded(String::new()))
    );
    assert_eq!(guarded_source_prefix("", 3), Some(SourceSnapshot::Unavailable));
    assert_eq!(guarded_source_prefix("a.txt", 3), None);
    let mut read = SourcePrefix::new();
    assert!(read.push_line("first\n"));
    assert_eq!(read.content, "first\n");
}

#[test]
fn stage_states_come_from_both_diffs() {
    let mut changeset = parse_unified_diff(PATCH);
    let staged = parse_unified_diff(
        "diff --git a/one.txt b/one.txt\n--- a/one.txt\n+++ b/one.txt\n@@ -1,3 +1,3 @@\n alpha\n-beta\n+gamma\n delta\n",
    );
    let unstaged = parse_unified_diff(
        "diff --git a/one.txt b/one.txt\n--- a/one.txt\n+++ b/one.txt\n@@ -20,2 +20,3 @@\n epsilon\n+zeta\n eta\n",
    );
    annotate_hunk_stage_states_from_diffs(&mut changeset, &staged, &unstaged, &Vec::new());

    assert_eq!(changeset.files[0].hunks[0].stage, FileStage::Staged);
    assert_eq!(changeset.files[0].hunks[1].stage, FileStage::Unstaged);

    let file = &mut changeset.files[0];
    annotate_stage_state(file, true, true, &Vec::new());
    assert_eq!(file.stage, FileStage::Mixed);
    annotate_stage_state(file, false, false, &strings(&["one.txt"]));
    assert_eq!(file.stage, FileStage::Unstaged);
    annotate_stage_state(file, true, false, &Vec::new());
    assert_eq!(file.stage, FileStage::Staged);
}

#[test]
fn hunk_staging_takes_the_matching_patch() {
    let mut file = patched_file();
    file.hunks[0].stage = FileStage::Staged;
    let source = parse_unified_diff(PATCH);

    assert_eq!(toggle_source(&file, 0), Ok(HunkPatchSource::Staged));
    assert_eq!(toggle_source(&file, 1), Ok(HunkPatchSource::Unstaged));
    assert_eq!(
        toggle_source(&file, 2),
        Err("hunk 3 does not exist in one.txt".to_string())
    );

    let patch = matching_hunk_patch(&file, &file.hunks[1], &source, HunkPatchSource::Unstaged);
    assert_eq!(patch.unwrap(), selected_hunk_patch(&file, 1).unwrap());

    let none = parse_unified_diff("");
    assert_eq!(
        matching_hunk_patch(&file, &file.hunks[1], &none, HunkPatchSource::Staged),
        Err("no staged hunk found for one.txt".to_string())
    );
    let other = parse_unified_diff(
        "diff --git a/one.txt b/one.txt\n--- a/one.txt\n+++ b/one.txt\n@@ -90 +90 @@\n-x\n+y\n",
    );
    assert_eq!(
        matching_hunk_patch(&file, &file.hunks[1], &other, HunkPatchSource::Unstaged),
        Err("no unstaged hunk overlaps selected hunk in one.txt".to_string())
    );
}

#[test]
fn discards_are_checked() {
    let file = patched_file();

    assert_eq!(check_hunk_discard(&file, 0, &Vec::new()), Ok(()));
    assert_eq!(
        check_hunk_discard(&file, 7, &Vec::new()),
        Err("hunk 8 does not exist in one.txt".to_string())
    );
    assert_eq!(
        check_hunk_discard(&file, 0, &strings(&["one.txt"])),
        Err(
            "cannot discard a single hunk from untracked file one.txt; discard the file from the sidebar"
                .to_string()
        )
    );
    assert_eq!(
        file_discard_action("a", true, false),
        Ok(DiscardAction::RemoveUntracked)
    );
    assert_eq!(
        file_discard_action("a", false, true),
        Ok(DiscardAction::RestoreWorktree)
    );
    assert_eq!(
        file_discard_action("a", false, false),
        Err("no unstaged changes to discard in a".to_string())
    );
    assert_eq!(
        check_files_discard(&Vec::new()),
        Err("no files to discard".to_string())
    );
    let candidate = |path: &str, unstaged: bool| DiscardCandidate {
        path: path.to_string(),
        untracked: false,
        unstaged,
    };
    assert_eq!(
        check_files_discard(&vec![candidate("a", true), candidate("b", false)]),
        Err("no unstaged changes to discard in b".to_string())
    );
    assert_eq!(check_files_discard(&vec![candidate("a", true)]), Ok(()));
}

#[test]
fn git_answers_are_read() {
    assert_eq!(untracked_paths("a b\0c/d\0"), ["a b", "c/d"]);
    assert_eq!(has_file_diff(Some(0), "a", true), Ok(false));
    assert_eq!(has_file_diff(Some(1), "a", true), Ok(true));
    assert_eq!(
        has_file_diff(Some(128), "a", true),
        Err("git diff --cached failed for a".to_string())
    );
    assert_eq!(
        has_file_diff(None, "a", false),
        Err("git diff failed for a".to_string())
    );
    assert_eq!(command_failure_text(" bad\n", "out\n", "x"), "bad\nout");
    assert_eq!(command_failure_text("", "", "7"), "exit status 7");
    assert_eq!(merge_base_result("abc\n", "main"), Ok("abc".to_string()));
    assert_eq!(
        merge_base_result("\n", "main"),
        Err("git merge-base returned no commit for main".to_string())
    );
    assert_eq!(
        resolve_base_ref(None, &[false, true, true]),
        Ok("main".to_string())
    );
    assert_eq!(
        resolve_base_ref(Some("topic".to_string()), &[true, true, true]),
        Ok("topic".to_string())
    );
    assert_eq!(
        resolve_base_ref(Some(" ".to_string()), &[false, false, false]),
        Err("could not determine base branch; pass one explicitly".to_string())
    );
    assert_eq!(
        unpublished_base_ref(None, None, &[false, false, true]),
        Some("master".to_string())
    );
    assert_eq!(
        current_branch_label(None, Some("abc".to_string())),
        Some("detached abc".to_string())
    );
    assert_eq!(
        worktree_title(Some("main".to_string())),
        "Working tree changes (main)"
    );
    assert_eq!(pr_title(None, "main"), "PR review HEAD into main");
    assert_eq!(pr_source_label("main"), "git diff main...HEAD");
    assert_eq!(
        with_untracked_patches("p\n".to_string(), &strings(&["one", "two\n"])),
        "p\none\ntwo\n"
    );
}

#[test]
fn captured_output_is_a_bounded_prefix() {
    let mut budget = CaptureBudget::new();
    let mut stream = CapturedStream::new();
    let chunk = vec![b'x'; 8192];
    let mut notices = 0;
    for _ in 0..(MAX_CAPTURED_OUTPUT_BYTES / 8192 + 3) {
        let decision = budget.take_chunk(chunk.len());
        stream.push_chunk(&chunk[..decision.keep]);
        if decision.first_truncated {
            notices += 1;
            stream.mark_truncated();
        }
    }
    let bytes = stream.into_bytes();

    assert_eq!(notices, 1);
    assert_eq!(budget.captured_len, MAX_CAPTURED_OUTPUT_BYTES);
    assert!(bytes.len() > MAX_CAPTURED_OUTPUT_BYTES);
    assert!(bytes.len() <= MAX_CAPTURED_OUTPUT_BYTES + TRUNCATED_OUTPUT_NOTICE_MAX_BYTES);
    assert!(bytes.ends_with(b"\n[chunk: output truncated after 1048576 bytes]\n"));
}

#[test]
fn output_that_is_not_text_is_replaced() {
    let outcome = ProcessOutcome::from_output(ProcessOutput {
        stdout: vec![b'a', 0xff, b'b'],
        stderr: "\u{e9}".as_bytes().to_vec(),
        success: false,
        code: None,
    });

    assert_eq!(outcome.stdout(), "a\u{fffd}b");
    assert_eq!(outcome.stderr(), "\u{e9}");
    assert_eq!(outcome.status_text(), "terminated by signal");
}

#[test]
fn diff_context_stays_within_its_bound() {
    let mut file = patched_file();
    file.hunks[0].lines[0].content = "y".repeat(3 * MAX_DIFF_CONTEXT_CHARS);
    let context = AskAiContext::focused(
        AskAiReviewMode::Worktree,
        "t".to_string(),
        "s".to_string(),
        &file,
        None,
        None,
    );

    let notice = "\n[diff context truncated]\n".len();
    assert_eq!(
        context.diff_text.chars().count(),
        MAX_DIFF_CONTEXT_CHARS + notice
    );
    let request = AskAiRequest::unpublished_summary("label".to_string(), "d".to_string());
    assert_eq!(request.context().summary(), "unpublished changes");
    assert!(!has_unpublished_changes(" \n"));
    assert!(has_unpublished_changes("diff"));
}

#[test]
fn editors_and_shells_come_from_settings() {
    let editor = EditorCommand::from_setting(Some("nvim -p".to_string())).unwrap();
    let request = EditorRequest {
        path: "/repo/a.rs".to_string(),
        line: Some(12),
    };
    assert_eq!(editor.display_name(), "nvim");
    assert_eq!(editor.arguments(&request), ["-p", "+12", "/repo/a.rs"]);
    let plain = EditorCommand::from_setting(Some("code".to_string())).unwrap();
    assert_eq!(plain.arguments(&request), ["/repo/a.rs"]);
    assert!(EditorCommand::from_setting(Some(" ".to_string())).is_err());
    assert!(EditorCommand::from_setting(None).is_err());
    assert_eq!(shell_program(Some("/bin/zsh".to_string())), "/bin/zsh");
    assert_eq!(shell_program(Some("  ".to_string())), "sh");
    assert_eq!(shell_program(None), "sh");
}

#[test]
fn opened_files_stay_in_the_worktree() {
    let source = ReviewSource::worktree();
    let mut file = patched_file();

    let request = source.editor_request(&file, Some(2)).unwrap();
    assert_eq!(request.path, "one.txt");
    assert_eq!(request.line, Some(2));
    for path in ["/etc/passwd", "a/../../b", ".."] {
        file.path = path.to_string();
        assert_eq!(
            source.editor_request(&file, None).unwrap_err(),
            format!("cannot open path outside worktree: {path}")
        );
    }
    assert_eq!(
        WorktreeMutation::StageFiles { paths: Vec::new() }.failure_context(),
        "staging failed"
    );
    assert_eq!(
        WorktreeMutation::DiscardFiles { paths: Vec::new() }.failure_context(),
        "discard failed"
    );
}

#[test]
fn reloads_keep_the_names_of_a_pull_request() {
    let mut first = parse_unified_diff(PATCH);
    first.title = "PR review a into b".to_string();
    first.source_label = "git diff b...HEAD".to_string();
    let source = ReviewSource::pull_request("abc".to_string(), "HEAD".to_string(), &first);

    let again = source.named(parse_unified_diff(PATCH));
    assert_eq!(again, first);
    let plain = ReviewSource::worktree().named(parse_unified_diff(PATCH));
    assert_eq!(plain.title, parse_unified_diff(PATCH).title);
}

#[test]
fn terminal_parts_that_fail_are_restored_again() {
    let mut restore = TerminalRestore::new();
    while let Some(action) = restore.next_setup_action() {
        restore.note_success(action);
    }
    restore.note_success(TerminalAction::DisableRawMode);
    restore.note_success(TerminalAction::DisableMouseCapture);

    assert_eq!(
        restore.restore_actions(),
        [
            TerminalAction::LeaveAlternateScreen,
            TerminalAction::ShowCursor
        ]
    );
    restore.note_success(TerminalAction::LeaveAlternateScreen);
    assert!(restore.restore_actions().is_empty());
}

#[test]
fn changes_put_a_reload_off() {
    let mut timer = ReloadTimer::new();
    assert_eq!(timer.next_event_poll_interval(0), 100);
    timer.note_change(1000);
    assert!(!timer.take_due(1249));
    timer.note_change(1200);
    assert!(!timer.take_due(1250));
    assert_eq!(timer.next_event_poll_interval(1400), 50);
    assert!(timer.take_due(1450));
    assert!(!timer.take_due(1450));
}

#[test]
fn paths_outside_the_root_matter() {
    assert!(is_relevant_worktree_path("/elsewhere/.git/logs", "/repo"));
    assert!(is_relevant_worktree_path("/repository/a", "/repo"));
    assert!(is_relevant_worktree_path("/repo/src/main.rs", "/repo/"));
    assert!(!is_relevant_worktree_path("/repo//.git/./logs/HEAD", "/repo"));
    assert!(is_relevant_worktree_path("/repo/.git/refs", "/repo"));
    assert!(!is_relevant_worktree_path("/repo/.git/HEAD/x", "/repo"));
}

#[test]
fn panes_and_overlays_are_laid_out() {
    let wide = Rect::new(0, 0, 120, 40);
    let narrow = Rect::new(0, 0, 80, 6);
    assert_eq!(body_layout(wide), (BodyDirection::Horizontal, 34));
    assert_eq!(body_layout(narrow), (BodyDirection::Vertical, 6));
    assert_eq!(help_overlay_width(wide), 78);
    assert_eq!(help_overlay_width(narrow), 76);
    assert_eq!(help_overlay_height(wide, 100), 24);
    assert_eq!(help_overlay_height(wide, 10), 12);
    assert_eq!(help_overlay_height(narrow, 100), 4);
    let place = centered_rect(wide, 78, 24);
    assert_eq!(place, Rect::new(21, 8, 78, 24));
    assert_eq!(help_scrollbar_area(place), Rect::new(97, 9, 1, 22));
    let row = Rect::new(0, 39, 120, 1);
    assert_eq!(keybind_content_area(row, 60, Some(8)), row);
    assert_eq!(
        keybind_content_area(row, 118, Some(8)),
        Rect::new(9, 39, 111, 1)
    );
    assert_eq!(keybind_content_area(row, 118, None), row);
}

#[test]
fn overlay_thumb_leaves_a_row_of_its_track() {
    let top = scrollbar_thumb(10, 100, 20, 0);
    assert_eq!((top.start, top.len), (0, 2));
    let bottom = scrollbar_thumb(10, 100, 20, 80);
    assert_eq!((bottom.start, bottom.len), (8, 2));
    let full = scrollbar_thumb(10, 10, 10, 0);
    assert_eq!((full.start, full.len), (0, 9));
}

#[test]
fn palette_colors_have_components() {
    assert_eq!(rgb(Color::Rgb(1, 2, 3)), (1, 2, 3));
    assert_eq!(rgb(Color::White), (255, 255, 255));
    assert_eq!(rgb(Color::Indexed(16)), (0, 0, 0));
    assert_eq!(indexed_rgb(231), (255, 255, 255));
    assert_eq!(indexed_rgb(232), (8, 8, 8));
}

#[test]
fn untracked_files_are_compared_with_nothing() {
    assert_eq!(
        untracked_diff_args("a b"),
        [
            "diff",
            "--no-color",
            "--patch",
            "--no-index",
            "--default-prefix",
            "--",
            "/dev/null",
            "a b",
        ]
    );
    assert_eq!(untracked_diff_error(true, Some(0), "a", "x"), None);
    assert_eq!(untracked_diff_error(false, Some(1), "a", "x"), None);
    assert_eq!(
        untracked_diff_error(false, Some(128), "a", " bad\n"),
        Some("git diff --no-index failed for a: bad".to_string())
    );
}

#[test]
fn shortened_texts_keep_their_dots() {
    assert_eq!(truncate_chars("\u{e9}\u{e9}\u{e9}\u{e9}\u{e9}", 4), "\u{e9}...");
    assert_eq!(truncate_chars("abcd", 4), "abcd");
    assert_eq!(truncate_chars("abcd", 3), "...");
    assert_eq!(truncate_chars("abcd", 0), "...");
    assert_eq!(truncate_chars("", 0), "");
}
