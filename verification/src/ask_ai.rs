//! Read-only assistant requests about the current diff.
//!
//! This module owns the construction of prompts and their context.

use vstd::prelude::*;
use vstd::string::*;

use crate::model::{
    hunk_views, line_views, DiffFile, DiffHunk, DiffLine, DiffLineKind, FileView, HunkView,
    LineView,
};
use crate::process::{lossy_text, OutcomeView, ProcessOutcome, ProcessOutput};
use crate::scroll_text::{greatest, least};
use crate::search::text_option;
use crate::text::{
    cat2, cat3, cat4, cat5, decimal, decimal_of, same, spaces, spaces_of, texts, trim, trimmed,
};

verus! {

/// Most characters of a diff that a prompt holds.
pub const MAX_DIFF_CONTEXT_CHARS: usize = 12_000;

/// Most characters of a session title.
pub const MAX_TITLE_CHARS: usize = 80;

/// Settings of the assistant that let it read and look things up, and nothing else.
pub open spec fn read_only_config() -> Seq<char> {
    "{\"$schema\":\"https://opencode.ai/config.json\",\"autoupdate\":false,\"share\":\"disabled\",\"permission\":{\"*\":\"deny\",\"read\":{\"*\":\"allow\",\"*.env\":\"deny\",\"*.env.*\":\"deny\",\"*.env.example\":\"allow\"},\"glob\":\"allow\",\"grep\":\"allow\",\"lsp\":\"allow\",\"edit\":\"deny\",\"bash\":\"deny\",\"task\":\"deny\",\"skill\":\"deny\",\"webfetch\":\"allow\",\"websearch\":\"allow\",\"external_directory\":\"deny\"}}"@
}

/// The question that asks for an explanation.
pub open spec fn explain_code_question() -> Seq<char> {
    "Explain the selected or focused code for a code review. Describe what the code does, why the changed code matters in this review context, and any assumptions or risks that affect review. Inspect surrounding repository context read-only if needed."@
}

/// The question that asks for a summary of what has not been published.
pub open spec fn unpublished_summary_question() -> Seq<char> {
    "Summarize the unpublished changes for a code review. Describe what changes, why it matters, and any risks that affect review."@
}

#[derive(Debug, PartialEq, Eq)]
pub struct AskAiRequest {
    pub question: String,
    pub context: AskAiContext,
}

#[derive(Debug, PartialEq, Eq)]
pub struct AskAiContext {
    pub review_mode: AskAiReviewMode,
    pub changeset_title: String,
    pub source_label: String,
    pub file_path: String,
    pub old_path: String,
    pub selected_text: Option<String>,
    pub focused_hunk: Option<AskAiHunkContext>,
    pub diff_text: String,
    pub binary: bool,
}

#[derive(Debug, Clone, Copy, PartialEq, Eq, Structural)]
pub enum AskAiReviewMode {
    Worktree,
    PullRequest,
}

#[derive(Debug, PartialEq, Eq)]
pub struct AskAiHunkContext {
    pub index: usize,
    pub header: String,
    pub old_start: u32,
    pub old_lines: u32,
    pub new_start: u32,
    pub new_lines: u32,
}

#[derive(Debug, PartialEq, Eq)]
pub struct AskAiResult {
    pub request: AskAiRequest,
    /// Root of the repository that the request was about.
    pub repo_root: Option<String>,
    pub outcome: ProcessOutcome,
}

/// A program to run, with its arguments, directory and environment.
#[derive(Debug, PartialEq, Eq)]
pub struct AskAiInvocation {
    pub program: String,
    pub args: Vec<String>,
    pub current_dir: String,
    pub env: Vec<(String, String)>,
}

/// What an [`AskAiRequest`] holds.
pub struct RequestView {
    pub question: Seq<char>,
    pub context: ContextView,
}

/// What an [`AskAiContext`] holds.
pub struct ContextView {
    pub review_mode: AskAiReviewMode,
    pub changeset_title: Seq<char>,
    pub source_label: Seq<char>,
    pub file_path: Seq<char>,
    pub old_path: Seq<char>,
    pub selected_text: Option<Seq<char>>,
    pub focused_hunk: Option<HunkContextView>,
    pub diff_text: Seq<char>,
    pub binary: bool,
}

/// What an [`AskAiHunkContext`] holds.
pub struct HunkContextView {
    pub index: int,
    pub header: Seq<char>,
    pub old_start: u32,
    pub old_lines: u32,
    pub new_start: u32,
    pub new_lines: u32,
}

/// What an [`AskAiResult`] holds.
pub struct ResultView {
    pub request: RequestView,
    pub repo_root: Option<Seq<char>>,
    pub outcome: OutcomeView,
}

impl View for AskAiHunkContext {
    type V = HunkContextView;

    open spec fn view(&self) -> HunkContextView {
        HunkContextView {
            index: self.index as int,
            header: self.header@,
            old_start: self.old_start,
            old_lines: self.old_lines,
            new_start: self.new_start,
            new_lines: self.new_lines,
        }
    }
}

impl View for AskAiContext {
    type V = ContextView;

    open spec fn view(&self) -> ContextView {
        ContextView {
            review_mode: self.review_mode,
            changeset_title: self.changeset_title@,
            source_label: self.source_label@,
            file_path: self.file_path@,
            old_path: self.old_path@,
            selected_text: text_option(self.selected_text),
            focused_hunk: match self.focused_hunk {
                Some(hunk) => Some(hunk@),
                None => None,
            },
            diff_text: self.diff_text@,
            binary: self.binary,
        }
    }
}

impl View for AskAiRequest {
    type V = RequestView;

    open spec fn view(&self) -> RequestView {
        RequestView { question: self.question@, context: self.context@ }
    }
}

impl View for AskAiResult {
    type V = ResultView;

    open spec fn view(&self) -> ResultView {
        ResultView {
            request: self.request@,
            repo_root: text_option(self.repo_root),
            outcome: self.outcome@,
        }
    }
}

impl Clone for AskAiHunkContext {
    fn clone(&self) -> (copy: Self)
        ensures
            copy@ == self@,
    {
        AskAiHunkContext {
            index: self.index,
            header: self.header.clone(),
            old_start: self.old_start,
            old_lines: self.old_lines,
            new_start: self.new_start,
            new_lines: self.new_lines,
        }
    }
}

impl Clone for AskAiContext {
    fn clone(&self) -> (copy: Self)
        ensures
            copy@ == self@,
    {
        AskAiContext {
            review_mode: self.review_mode,
            changeset_title: self.changeset_title.clone(),
            source_label: self.source_label.clone(),
            file_path: self.file_path.clone(),
            old_path: self.old_path.clone(),
            selected_text: match &self.selected_text {
                Some(text) => Some(text.clone()),
                None => None,
            },
            focused_hunk: match &self.focused_hunk {
                Some(hunk) => Some(hunk.clone()),
                None => None,
            },
            diff_text: self.diff_text.clone(),
            binary: self.binary,
        }
    }
}

impl Clone for AskAiRequest {
    fn clone(&self) -> (copy: Self)
        ensures
            copy@ == self@,
    {
        AskAiRequest { question: self.question.clone(), context: self.context.clone() }
    }
}

impl AskAiReviewMode {
    pub open spec fn name(self) -> Seq<char> {
        match self {
            AskAiReviewMode::Worktree => "worktree diff"@,
            AskAiReviewMode::PullRequest => "pull request review"@,
        }
    }

    pub open spec fn remark(self) -> Seq<char> {
        match self {
            AskAiReviewMode::Worktree =>
                "Worktree mode may refer to editable files, but this request is read-only."@,
            AskAiReviewMode::PullRequest =>
                "PR mode reviews a ref diff; do not assume files are editable snapshots."@,
        }
    }

    fn label(self) -> (label: &'static str)
        ensures
            label@ == self.name(),
    {
        match self {
            AskAiReviewMode::Worktree => "worktree diff",
            AskAiReviewMode::PullRequest => "pull request review",
        }
    }

    fn note(self) -> (note: &'static str)
        ensures
            note@ == self.remark(),
    {
        match self {
            AskAiReviewMode::Worktree =>
                "Worktree mode may refer to editable files, but this request is read-only.",
            AskAiReviewMode::PullRequest =>
                "PR mode reviews a ref diff; do not assume files are editable snapshots.",
        }
    }
}

/// A text of at most `max` characters: itself, or its start and three dots.
pub open spec fn shortened(text: Seq<char>, max: int) -> Seq<char> {
    if text.len() <= max { text } else { text.take(greatest(max - 3, 0)) + "..."@ }
}

/// A diff as far as a prompt holds it.
pub open spec fn bounded_context(text: Seq<char>) -> Seq<char> {
    if text.len() <= MAX_DIFF_CONTEXT_CHARS {
        text
    } else {
        shortened(text, MAX_DIFF_CONTEXT_CHARS as int) + "\n[diff context truncated]\n"@
    }
}

/// A column of four characters, filled up on the left.
pub open spec fn right_aligned(text: Seq<char>) -> Seq<char> {
    spaces(4 - text.len()) + text
}

pub open spec fn number_or_dash(line: Option<u32>) -> Seq<char> {
    match line {
        Some(number) => decimal(number as nat),
        None => "-"@,
    }
}

pub open spec fn context_marker(kind: DiffLineKind) -> Seq<char> {
    match kind {
        DiffLineKind::Context | DiffLineKind::Meta => " "@,
        DiffLineKind::Added => "+"@,
        DiffLineKind::Removed => "-"@,
    }
}

/// A line of a diff with its numbers in columns.
pub open spec fn numbered_line(line: LineView) -> Seq<char> {
    right_aligned(number_or_dash(line.old_line)) + " "@ + right_aligned(
        number_or_dash(line.new_line),
    ) + " "@ + context_marker(line.kind) + line.content
}

/// The first `n` lines of a hunk.
pub open spec fn numbered_lines(lines: Seq<LineView>, n: int) -> Seq<char>
    decreases n,
{
    if n <= 0 {
        seq![]
    } else {
        (numbered_lines(lines, n - 1) + numbered_line(lines[n - 1])).push('\n')
    }
}

pub open spec fn hunk_text(hunk: HunkView) -> Seq<char> {
    hunk.header.push('\n') + numbered_lines(hunk.lines, hunk.lines.len() as int)
}

/// The first `n` hunks of a file.
pub open spec fn hunks_text(hunks: Seq<HunkView>, n: int) -> Seq<char>
    decreases n,
{
    if n <= 0 { seq![] } else { hunks_text(hunks, n - 1) + hunk_text(hunks[n - 1]) }
}

pub open spec fn diff_header_text(file: FileView) -> Seq<char> {
    let before = if file.old_path.len() == 0 { file.shown_path() } else { file.old_path };
    let now = if file.path.len() == 0 { file.shown_path() } else { file.path };
    "diff --git a/"@ + before + " b/"@ + now + "\n--- a/"@ + before + "\n+++ b/"@ + now + "\n"@
}

/// The diff of a file.
pub open spec fn file_text(file: FileView) -> Seq<char> {
    diff_header_text(file) + if file.binary {
        "Binary file changed\n"@
    } else if file.hunks.len() == 0 {
        "File changed without textual hunks\n"@
    } else {
        hunks_text(file.hunks, file.hunks.len() as int)
    }
}

/// The text unless it is blank.
pub open spec fn unless_blank(text: Option<Seq<char>>) -> Option<Seq<char>> {
    match text {
        Some(inner) => if trimmed(inner).len() == 0 { None } else { Some(inner) },
        None => None,
    }
}

impl ContextView {
    /// The context of a file or one of its hunks.
    pub open spec fn of_file(
        review_mode: AskAiReviewMode,
        changeset_title: Seq<char>,
        source_label: Seq<char>,
        file: FileView,
        hunk_index: Option<usize>,
        selected_text: Option<Seq<char>>,
    ) -> ContextView {
        let focused = hunk_index is Some && hunk_index->0 < file.hunks.len();
        let hunk = file.hunks[hunk_index->0 as int];
        ContextView {
            review_mode,
            changeset_title,
            source_label,
            file_path: file.shown_path(),
            old_path: file.old_path,
            selected_text: unless_blank(selected_text),
            focused_hunk: if focused {
                Some(
                    HunkContextView {
                        index: hunk_index->0 as int,
                        header: hunk.header,
                        old_start: hunk.old_start,
                        old_lines: hunk.old_lines,
                        new_start: hunk.new_start,
                        new_lines: hunk.new_lines,
                    },
                )
            } else {
                None
            },
            diff_text: bounded_context(
                if focused { diff_header_text(file) + hunk_text(hunk) } else { file_text(file) },
            ),
            binary: file.binary,
        }
    }

    /// The file, and the number of the hunk.
    pub open spec fn short(self) -> Seq<char> {
        match self.focused_hunk {
            Some(hunk) => self.file_path + " hunk "@ + hunk.number(),
            None => self.file_path,
        }
    }
}

impl HunkContextView {
    /// The hunks are counted from one.
    pub open spec fn number(self) -> Seq<char> {
        decimal(least(self.index + 1, u64::MAX as int) as nat)
    }

    pub open spec fn description(self) -> Seq<char> {
        "Focused hunk: #"@ + self.number() + " "@ + self.header + "\nOld range: start "@
            + decimal(self.old_start as nat) + ", lines "@ + decimal(self.old_lines as nat)
            + "\nNew range: start "@ + decimal(self.new_start as nat) + ", lines "@ + decimal(
            self.new_lines as nat,
        )
    }
}

/// What every prompt starts with.
pub open spec fn prompt_rules() -> Seq<char> {
    "You are answering a question from chunk, a terminal diff review tool.\n"@
        + "Read-only enforcement:\n"@
        + "- Do not edit, write, patch, stage, commit, push, delete, install, or run mutating commands.\n"@
        + "- If more context is needed, inspect the repository with read-only tools only.\n"@
        + "- Internet lookup is allowed with read-only web fetch/search tools when useful.\n"@
        + "- The OpenCode process is launched with edit, bash, task, skill, and external-directory permissions denied.\n\n"@
}

/// The part of a prompt that describes what is in focus.
pub open spec fn focus_description(context: ContextView) -> Seq<char> {
    let moved = if context.old_path.len() > 0 && context.old_path != context.file_path {
        "Old file path: "@ + context.old_path + "\n"@
    } else {
        seq![]
    };
    let binary = if context.binary { "Focused file is binary.\n"@ } else { seq![] };
    let hunk = match context.focused_hunk {
        Some(hunk) => hunk.description() + "\n"@,
        None => seq![],
    };
    let selection = match context.selected_text {
        Some(text) => "\nSelected visible text:\n"@ + text + "\n"@,
        None => seq![],
    };
    "Focused file: "@ + context.file_path + "\n"@ + moved + binary + hunk + selection
}

/// The prompt of a request.
pub open spec fn prompt_text(request: RequestView, repo_root: Seq<char>) -> Seq<char> {
    let context = request.context;
    let line_end = if context.diff_text.len() > 0 && context.diff_text.last() == '\n' {
        seq![]
    } else {
        "\n"@
    };
    prompt_rules() + "User question:\n"@ + request.question
        + "\n\nStructured review context:\n"@ + "Repository root: "@ + repo_root
        + "\nReview mode: "@ + context.review_mode.name() + "\n"@ + context.review_mode.remark()
        + "\nChangeset title: "@ + context.changeset_title + "\nReview source: "@
        + context.source_label + "\n"@ + focus_description(context)
        + "\nDiff context with old/new line columns:\n```diff\n"@ + context.diff_text + line_end
        + "```\n"@
}

/// The title of a session.
pub open spec fn title_text(request: RequestView) -> Seq<char> {
    shortened(
        "chunk Ask AI: "@ + request.context.short() + ": "@ + request.question,
        MAX_TITLE_CHARS as int,
    )
}

/// The arguments of the assistant's program.
pub open spec fn invocation_args(request: RequestView, repo_root: Seq<char>) -> Seq<Seq<char>> {
    seq![
        "run"@,
        "--pure"@,
        "--format"@,
        "default"@,
        "--dir"@,
        repo_root,
        "--title"@,
        title_text(request),
        prompt_text(request, repo_root),
    ]
}

/// Whether there is anything to summarize in a diff.
pub fn has_unpublished_changes(diff_text: &str) -> (has: bool)
    ensures
        has == (trimmed(diff_text@).len() > 0),
{
    !trim(diff_text).is_empty()
}

impl AskAiRequest {
    pub fn new(question: String, context: AskAiContext) -> (request: Self)
        ensures
            request@ == (RequestView { question: question@, context: context@ }),
    {
        AskAiRequest { question, context }
    }

    pub fn explain_code(context: AskAiContext) -> (request: Self)
        ensures
            request@ == (RequestView { question: explain_code_question(), context: context@ }),
    {
        AskAiRequest {
            question: "Explain the selected or focused code for a code review. Describe what the code does, why the changed code matters in this review context, and any assumptions or risks that affect review. Inspect surrounding repository context read-only if needed.".to_owned(),
            context,
        }
    }

    /// A request about all unpublished changes of a worktree.
    pub fn unpublished_summary(source_label: String, diff_text: String) -> (request: Self)
        ensures
            request@ == (RequestView {
                question: unpublished_summary_question(),
                context: ContextView {
                    review_mode: AskAiReviewMode::Worktree,
                    changeset_title: "Unpublished changes"@,
                    source_label: source_label@,
                    file_path: "unpublished changes"@,
                    old_path: ""@,
                    selected_text: None,
                    focused_hunk: None,
                    diff_text: bounded_context(diff_text@),
                    binary: false,
                },
            }),
    {
        AskAiRequest {
            question:
                "Summarize the unpublished changes for a code review. Describe what changes, why it matters, and any risks that affect review.".to_owned(),
            context: AskAiContext {
                review_mode: AskAiReviewMode::Worktree,
                changeset_title: "Unpublished changes".to_owned(),
                source_label,
                file_path: "unpublished changes".to_owned(),
                old_path: "".to_owned(),
                selected_text: None,
                focused_hunk: None,
                diff_text: truncate_context(diff_text),
                binary: false,
            },
        }
    }

    pub fn question(&self) -> (question: &str)
        ensures
            question@ == self@.question,
    {
        self.question.as_str()
    }

    pub fn context(&self) -> (context: &AskAiContext)
        ensures
            context@ == self@.context,
    {
        &self.context
    }
}

impl AskAiContext {
    /// The context of a file or one of its hunks.
    pub fn focused(
        review_mode: AskAiReviewMode,
        changeset_title: String,
        source_label: String,
        file: &DiffFile,
        hunk_index: Option<usize>,
        selected_text: Option<String>,
    ) -> (context: Self)
        ensures
            context@ == ContextView::of_file(
                review_mode,
                changeset_title@,
                source_label@,
                file@,
                hunk_index,
                text_option(selected_text),
            ),
    {
        let focused_hunk = match hunk_index {
            Some(index) => if index < file.hunks.len() {
                assert(file@.hunks[index as int] == file.hunks@[index as int]@);
                Some(AskAiHunkContext::new(index, &file.hunks[index]))
            } else {
                None
            },
            None => None,
        };
        let diff_text = match &focused_hunk {
            Some(hunk) => hunk_diff_text(file, &file.hunks[hunk.index]),
            None => file_diff_text(file),
        };
        AskAiContext {
            review_mode,
            changeset_title,
            source_label,
            file_path: file.display_path().to_owned(),
            old_path: file.old_path.clone(),
            selected_text: non_empty_text(selected_text),
            focused_hunk,
            diff_text: truncate_context(diff_text),
            binary: file.binary,
        }
    }

    pub fn summary(&self) -> (summary: String)
        ensures
            summary@ == self@.short(),
    {
        match &self.focused_hunk {
            Some(hunk) => cat3(
                self.file_path.as_str(),
                " hunk ",
                hunk.number().as_str(),
            ),
            None => self.file_path.clone(),
        }
    }
}

impl AskAiHunkContext {
    fn new(index: usize, hunk: &DiffHunk) -> (context: Self)
        ensures
            context@ == (HunkContextView {
                index: index as int,
                header: hunk@.header,
                old_start: hunk@.old_start,
                old_lines: hunk@.old_lines,
                new_start: hunk@.new_start,
                new_lines: hunk@.new_lines,
            }),
    {
        AskAiHunkContext {
            index,
            header: hunk.header.clone(),
            old_start: hunk.old_start,
            old_lines: hunk.old_lines,
            new_start: hunk.new_start,
            new_lines: hunk.new_lines,
        }
    }

    fn number(&self) -> (number: String)
        ensures
            number@ == self@.number(),
    {
        decimal_of((self.index as u64).saturating_add(1))
    }

    fn prompt_lines(&self) -> (lines: String)
        ensures
            lines@ == self@.description(),
    {
        let mut lines = cat5(
            "Focused hunk: #",
            self.number().as_str(),
            " ",
            self.header.as_str(),
            "\nOld range: start ",
        );
        lines.append(decimal_of(self.old_start as u64).as_str());
        lines.append(", lines ");
        lines.append(decimal_of(self.old_lines as u64).as_str());
        lines.append("\nNew range: start ");
        lines.append(decimal_of(self.new_start as u64).as_str());
        lines.append(", lines ");
        lines.append(decimal_of(self.new_lines as u64).as_str());
        lines
    }
}

impl AskAiResult {
    pub fn from_output(request: AskAiRequest, repo_root: String, output: ProcessOutput) -> (result: Self)
        ensures
            result@.request == request@,
            result@.repo_root == Some(repo_root@),
            result@.outcome == (OutcomeView {
                stdout: lossy_text(output.stdout@),
                stderr: lossy_text(output.stderr@),
                success: output.success,
                code: output.code,
                cancelled: false,
                start_error: None,
            }),
    {
        AskAiResult {
            request,
            repo_root: Some(repo_root),
            outcome: ProcessOutcome::from_output(output),
        }
    }

    pub fn cancelled(
        request: AskAiRequest,
        repo_root: String,
        output: Option<ProcessOutput>,
    ) -> (result: Self)
        ensures
            result@.request == request@,
            result@.repo_root == Some(repo_root@),
            result@.outcome == (OutcomeView {
                stdout: match output {
                    Some(out) => lossy_text(out.stdout@),
                    None => seq![],
                },
                stderr: match output {
                    Some(out) => lossy_text(out.stderr@),
                    None => seq![],
                },
                success: false,
                code: match output {
                    Some(out) => out.code,
                    None => None,
                },
                cancelled: true,
                start_error: None,
            }),
    {
        AskAiResult {
            request,
            repo_root: Some(repo_root),
            outcome: ProcessOutcome::cancelled(output),
        }
    }

    pub fn not_started(request: AskAiRequest, repo_root: Option<String>, error: String) -> (result: Self)
        ensures
            result@.request == request@,
            result@.repo_root == text_option(repo_root),
            result@.outcome == (OutcomeView {
                stdout: seq![],
                stderr: error@,
                success: false,
                code: None,
                cancelled: false,
                start_error: Some(error@),
            }),
    {
        AskAiResult { request, repo_root, outcome: ProcessOutcome::not_started(error) }
    }

    /// A result for a request that needed no answer.
    pub fn answered(request: AskAiRequest, repo_root: Option<String>, answer: String) -> (result: Self)
        ensures
            result@.request == request@,
            result@.repo_root == text_option(repo_root),
            result@.outcome == (OutcomeView {
                stdout: answer@,
                stderr: seq![],
                success: true,
                code: Some(0i32),
                cancelled: false,
                start_error: None,
            }),
    {
        AskAiResult { request, repo_root, outcome: ProcessOutcome::successful_stdout(answer) }
    }

    pub fn question(&self) -> (question: &str)
        ensures
            question@ == self@.request.question,
    {
        self.request.question()
    }

    pub fn context_summary(&self) -> (summary: String)
        ensures
            summary@ == self@.request.context.short(),
    {
        self.request.context().summary()
    }

    pub fn repo_root(&self) -> (root: Option<&str>)
        ensures
            match root {
                Some(dir) => self@.repo_root == Some(dir@),
                None => self@.repo_root is None,
            },
    {
        match &self.repo_root {
            Some(dir) => Some(dir.as_str()),
            None => None,
        }
    }

    pub fn stdout(&self) -> (text: &str)
        ensures
            text@ == self@.outcome.stdout,
    {
        self.outcome.stdout()
    }

    pub fn stderr(&self) -> (text: &str)
        ensures
            text@ == self@.outcome.stderr,
    {
        self.outcome.stderr()
    }

    pub fn success(&self) -> (success: bool)
        ensures
            success == self@.outcome.success,
    {
        self.outcome.success()
    }

    pub fn cancelled_status(&self) -> (cancelled: bool)
        ensures
            cancelled == self@.outcome.cancelled,
    {
        self.outcome.cancelled_status()
    }

    pub fn status_text(&self) -> (text: String)
        ensures
            text@ == self@.outcome.ending(),
    {
        self.outcome.status_text()
    }
}

impl AskAiInvocation {
    /// How the assistant is asked: without plugins, in the repository, and with
    /// settings that keep it from changing anything.
    pub fn new(request: &AskAiRequest, repo_root: &str) -> (invocation: Self)
        ensures
            invocation.program@ == "opencode"@,
            texts(invocation.args@) == invocation_args(request@, repo_root@),
            invocation.current_dir@ == repo_root@,
            invocation.env@.len() == 2,
            (invocation.env@[0].0)@ == "OPENCODE_CONFIG_CONTENT"@,
            (invocation.env@[0].1)@ == read_only_config(),
            (invocation.env@[1].0)@ == "NO_COLOR"@,
            (invocation.env@[1].1)@ == "1"@,
    {
        let args = vec![
            "run".to_owned(),
            "--pure".to_owned(),
            "--format".to_owned(),
            "default".to_owned(),
            "--dir".to_owned(),
            repo_root.to_owned(),
            "--title".to_owned(),
            session_title(request),
            build_prompt(request, repo_root),
        ];
        assert(texts(args@) =~= invocation_args(request@, repo_root@));
        let env = vec![
            (
                "OPENCODE_CONFIG_CONTENT".to_owned(),
                "{\"$schema\":\"https://opencode.ai/config.json\",\"autoupdate\":false,\"share\":\"disabled\",\"permission\":{\"*\":\"deny\",\"read\":{\"*\":\"allow\",\"*.env\":\"deny\",\"*.env.*\":\"deny\",\"*.env.example\":\"allow\"},\"glob\":\"allow\",\"grep\":\"allow\",\"lsp\":\"allow\",\"edit\":\"deny\",\"bash\":\"deny\",\"task\":\"deny\",\"skill\":\"deny\",\"webfetch\":\"allow\",\"websearch\":\"allow\",\"external_directory\":\"deny\"}}".to_owned(),
            ),
            ("NO_COLOR".to_owned(), "1".to_owned()),
        ];
        AskAiInvocation {
            program: "opencode".to_owned(),
            args,
            current_dir: repo_root.to_owned(),
            env,
        }
    }
}

/// The prompt of a request.
pub fn build_prompt(request: &AskAiRequest, repo_root: &str) -> (prompt: String)
    ensures
        prompt@ == prompt_text(request@, repo_root@),
{
    let context = request.context();
    let mut prompt = prompt_rules_text();
    prompt.append("User question:\n");
    prompt.append(request.question());
    prompt.append("\n\nStructured review context:\n");
    prompt.append("Repository root: ");
    prompt.append(repo_root);
    prompt.append("\nReview mode: ");
    prompt.append(context.review_mode.label());
    prompt.append("\n");
    prompt.append(context.review_mode.note());
    prompt.append("\nChangeset title: ");
    prompt.append(context.changeset_title.as_str());
    prompt.append("\nReview source: ");
    prompt.append(context.source_label.as_str());
    prompt.append("\n");
    prompt.append(focus_text(context).as_str());
    prompt.append("\nDiff context with old/new line columns:\n```diff\n");
    prompt.append(context.diff_text.as_str());
    let ghost before = prompt@;
    if !ends_line(context.diff_text.as_str()) {
        prompt.append("\n");
    } else {
        assert(before + Seq::<char>::empty() =~= before);
    }
    prompt.append("```\n");
    prompt
}

fn ends_line(text: &str) -> (ends: bool)
    ensures
        ends == (text@.len() > 0 && text@.last() == '\n'),
{
    let count: usize = text.unicode_len();
    count > 0 && text.get_char(count - 1) == '\n'
}

fn prompt_rules_text() -> (rules: String)
    ensures
        rules@ == prompt_rules(),
{
    let mut rules = "You are answering a question from chunk, a terminal diff review tool.\n".to_owned();
    rules.append("Read-only enforcement:\n");
    rules.append(
        "- Do not edit, write, patch, stage, commit, push, delete, install, or run mutating commands.\n",
    );
    rules.append(
        "- If more context is needed, inspect the repository with read-only tools only.\n",
    );
    rules.append(
        "- Internet lookup is allowed with read-only web fetch/search tools when useful.\n",
    );
    rules.append(
        "- The OpenCode process is launched with edit, bash, task, skill, and external-directory permissions denied.\n\n",
    );
    rules
}

fn focus_text(context: &AskAiContext) -> (text: String)
    ensures
        text@ == focus_description(context@),
{
    let mut text = cat3("Focused file: ", context.file_path.as_str(), "\n");
    let ghost empty = Seq::<char>::empty();
    let ghost before = text@;
    if !context.old_path.as_str().is_empty() && !same(
        context.old_path.as_str(),
        context.file_path.as_str(),
    ) {
        text.append(cat3("Old file path: ", context.old_path.as_str(), "\n").as_str());
    } else {
        assert(before + empty =~= before);
    }
    let ghost before = text@;
    if context.binary {
        text.append("Focused file is binary.\n");
    } else {
        assert(before + empty =~= before);
    }
    let ghost before = text@;
    match &context.focused_hunk {
        Some(hunk) => text.append(cat2(hunk.prompt_lines().as_str(), "\n").as_str()),
        None => {
            assert(before + empty =~= before);
        },
    }
    let ghost before = text@;
    match &context.selected_text {
        Some(selection) => text.append(
            cat3("\nSelected visible text:\n", selection.as_str(), "\n").as_str(),
        ),
        None => {
            assert(before + empty =~= before);
        },
    }
    text
}

/// The title of a session.
pub fn session_title(request: &AskAiRequest) -> (title: String)
    ensures
        title@ == title_text(request@),
        title@.len() <= MAX_TITLE_CHARS,
{
    let title = cat4(
        "chunk Ask AI: ",
        request.context().summary().as_str(),
        ": ",
        request.question(),
    );
    truncate_chars(title.as_str(), MAX_TITLE_CHARS)
}

/// The diff of a file.
pub fn file_diff_text(file: &DiffFile) -> (text: String)
    ensures
        text@ == file_text(file@),
{
    let mut text = diff_header(file);
    if file.binary {
        text.append("Binary file changed\n");
        return text;
    }
    if file.hunks.len() == 0 {
        text.append("File changed without textual hunks\n");
        return text;
    }
    let ghost header = text@;
    let ghost hunks = file@.hunks;
    let mut i: usize = 0;
    assert(header + hunks_text(hunks, 0) =~= header);
    while i < file.hunks.len()
        invariant
            i <= file.hunks@.len(),
            hunks == hunk_views(file.hunks@),
            text@ == header + hunks_text(hunks, i as int),
        decreases file.hunks@.len() - i,
    {
        assert(hunks[i as int] == file.hunks@[i as int]@);
        let ghost before = text@;
        push_hunk_text(&mut text, &file.hunks[i]);
        assert(text@ =~= header + hunks_text(hunks, i + 1));
        i = i + 1;
    }
    text
}

/// The diff of one hunk of a file.
pub fn hunk_diff_text(file: &DiffFile, hunk: &DiffHunk) -> (text: String)
    ensures
        text@ == diff_header_text(file@) + hunk_text(hunk@),
{
    let mut text = diff_header(file);
    push_hunk_text(&mut text, hunk);
    text
}

fn diff_header(file: &DiffFile) -> (header: String)
    ensures
        header@ == diff_header_text(file@),
{
    let old_path = if file.old_path.as_str().is_empty() {
        file.display_path()
    } else {
        file.old_path.as_str()
    };
    let new_path = if file.path.as_str().is_empty() {
        file.display_path()
    } else {
        file.path.as_str()
    };
    let mut header = cat5("diff --git a/", old_path, " b/", new_path, "\n--- a/");
    header.append(old_path);
    header.append("\n+++ b/");
    header.append(new_path);
    header.append("\n");
    header
}

fn push_hunk_text(text: &mut String, hunk: &DiffHunk)
    ensures
        final(text)@ == old(text)@ + hunk_text(hunk@),
{
    let ghost before = text@;
    text.append(hunk.header.as_str());
    text.push('\n');
    let ghost lines = hunk@.lines;
    let ghost header = hunk@.header.push('\n');
    let mut i: usize = 0;
    assert(text@ =~= before + (header + numbered_lines(lines, 0)));
    while i < hunk.lines.len()
        invariant
            i <= hunk.lines@.len(),
            lines == line_views(hunk.lines@),
            text@ == before + (header + numbered_lines(lines, i as int)),
        decreases hunk.lines@.len() - i,
    {
        assert(lines[i as int] == hunk.lines@[i as int]@);
        text.append(format_diff_line(&hunk.lines[i]).as_str());
        text.push('\n');
        assert(text@ =~= before + (header + numbered_lines(lines, i + 1)));
        i = i + 1;
    }
}

fn format_diff_line(line: &DiffLine) -> (text: String)
    ensures
        text@ == numbered_line(line@),
{
    let old_number = line_number(line.old_line);
    let new_number = line_number(line.new_line);
    let mut text = align_right(old_number.as_str());
    text.append(" ");
    text.append(align_right(new_number.as_str()).as_str());
    text.append(" ");
    text.append(diff_marker(line.kind));
    text.append(line.content.as_str());
    text
}

fn align_right(text: &str) -> (column: String)
    ensures
        column@ == right_aligned(text@),
{
    let count: usize = text.unicode_len();
    let mut column = spaces_of(if count < 4 { 4 - count } else { 0 });
    assert(column@ =~= spaces(4 - text@.len()));
    column.append(text);
    column
}

fn line_number(line: Option<u32>) -> (text: String)
    ensures
        text@ == number_or_dash(line),
{
    match line {
        Some(number) => decimal_of(number as u64),
        None => "-".to_owned(),
    }
}

fn diff_marker(kind: DiffLineKind) -> (marker: &'static str)
    ensures
        marker@ == context_marker(kind),
{
    match kind {
        DiffLineKind::Context | DiffLineKind::Meta => " ",
        DiffLineKind::Added => "+",
        DiffLineKind::Removed => "-",
    }
}

fn truncate_context(text: String) -> (bounded: String)
    ensures
        bounded@ == bounded_context(text@),
{
    if text.as_str().unicode_len() <= MAX_DIFF_CONTEXT_CHARS {
        return text;
    }
    cat2(
        truncate_chars(text.as_str(), MAX_DIFF_CONTEXT_CHARS).as_str(),
        "\n[diff context truncated]\n",
    )
}

/// A text of at most `max_chars` characters, with dots in place of what is left out.
/// The dots themselves are never left out.
pub fn truncate_chars(text: &str, max_chars: usize) -> (short: String)
    ensures
        short@ == shortened(text@, max_chars as int),
        max_chars >= 3 ==> short@.len() <= max_chars,
{
    proof {
        reveal_strlit("...");
    }
    if text.unicode_len() <= max_chars {
        return text.to_owned();
    }
    let kept: usize = max_chars.saturating_sub(3);
    let start = text.substring_char(0, kept);
    assert(start@ =~= text@.take(kept as int));
    cat2(start, "...")
}

fn non_empty_text(text: Option<String>) -> (kept: Option<String>)
    ensures
        text_option(kept) == unless_blank(text_option(text)),
{
    match text {
        Some(inner) => if trim(inner.as_str()).is_empty() { None } else { Some(inner) },
        None => None,
    }
}

/// Whatever the diff, its part of a prompt is bounded.
pub proof fn diff_context_is_bounded(text: Seq<char>)
    ensures
        bounded_context(text).len() <= MAX_DIFF_CONTEXT_CHARS + 26,
{
    reveal_strlit("...");
    reveal_strlit("\n[diff context truncated]\n");
}

} // verus!
