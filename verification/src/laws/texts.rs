//! What is said, asked and run: texts hold what they are about.

use vstd::prelude::*;
use vstd::string::*;

use crate::app::overlay::DiscardView;
use crate::ask_ai::{
    context_marker, focus_description, hunk_text, invocation_args, number_or_dash, numbered_line,
    numbered_lines, prompt_rules, prompt_text, right_aligned, shortened, title_text,
    AskAiReviewMode, ContextView, RequestView,
};
use crate::custom_command::shell_of;
use crate::editor::{editor_args, plus_line_editor};
use crate::git::failure_text;
use crate::keybind::key_name;
use crate::model::{ChangesetView, DiffLineKind, FileStatus, FileView, HunkView, LineView};
use crate::process::OutcomeView;
use crate::rows::file_summary::{header_label, sidebar_label, stats_text};
use crate::rows::output::{added_total, removed_total, title_of};
use crate::rows::status::search_status_text;
use crate::search::SearchStatusView;
use crate::text::{base_name, decimal, file_name_of, spaces, stands_at, trimmed};

verus! {

/// Whether a text holds another.
pub open spec fn holds(text: Seq<char>, part: Seq<char>) -> bool {
    exists|at: int| #[trigger] stands_at(text, at, part)
}

pub broadcast proof fn holds_in_sum(a: Seq<char>, b: Seq<char>, part: Seq<char>)
    ensures
        holds(a, part) || holds(b, part) ==> #[trigger] holds(a + b, part),
{
    if holds(a, part) {
        let at = choose|at: int| #[trigger] stands_at(a, at, part);
        assert((a + b).subrange(at, at + part.len()) =~= part) by {
            assert(a.subrange(at, at + part.len()) =~= (a + b).subrange(at, at + part.len()));
        }
        assert(stands_at(a + b, at, part));
    }
    if holds(b, part) {
        let at = choose|at: int| #[trigger] stands_at(b, at, part);
        assert((a + b).subrange(a.len() + at, a.len() + at + part.len()) =~= b.subrange(
            at,
            at + part.len(),
        ));
        assert(stands_at(a + b, a.len() + at, part));
    }
}

pub broadcast proof fn holds_itself(text: Seq<char>)
    ensures
        #[trigger] holds(text, text),
{
    assert(text.subrange(0, text.len() as int) =~= text);
    assert(stands_at(text, 0, text));
}

/// A prompt holds the question, the repository, the file, the diff and the selected text
/// that it is about, and says that nothing may be changed.
pub proof fn prompt_holds_its_request(request: RequestView, repo_root: Seq<char>)
    ensures
        holds(prompt_text(request, repo_root), request.question),
        holds(prompt_text(request, repo_root), "Repository root: "@ + repo_root),
        holds(prompt_text(request, repo_root), request.context.diff_text),
        holds(prompt_text(request, repo_root), "Focused file: "@ + request.context.file_path),
        holds(prompt_text(request, repo_root), request.context.changeset_title),
        holds(prompt_text(request, repo_root), request.context.source_label),
        request.context.selected_text is Some ==> holds(
            prompt_text(request, repo_root),
            request.context.selected_text->0,
        ),
        request.context.focused_hunk is Some ==> holds(
            prompt_text(request, repo_root),
            request.context.focused_hunk->0.header,
        ),
        request.context.binary ==> holds(
            prompt_text(request, repo_root),
            "Focused file is binary.\n"@,
        ),
        request.context.old_path.len() > 0 && request.context.old_path
            != request.context.file_path ==> holds(
            prompt_text(request, repo_root),
            "Old file path: "@ + request.context.old_path,
        ),
        holds(
            prompt_text(request, repo_root),
            "- Do not edit, write, patch, stage, commit, push, delete, install, or run mutating commands.\n"@,
        ),
{
    broadcast use holds_in_sum, holds_itself;

    let context = request.context;
    let prompt = prompt_text(request, repo_root);
    let focus = focus_description(context);
    assert(holds(focus, "Focused file: "@ + context.file_path));
    if let Some(hunk) = context.focused_hunk {
        assert(holds(hunk.description(), hunk.header));
        assert(holds(focus, hunk.header));
    }
    if let Some(text) = context.selected_text {
        assert(holds(focus, text));
    }
    assert(holds(prompt, focus));
    let root = "Repository root: "@ + repo_root;
    let start = prompt_rules() + "User question:\n"@ + request.question
        + "\n\nStructured review context:\n"@;
    assert(start + "Repository root: "@ + repo_root =~= start + root);
    assert(holds(start + root, root));
    assert(holds(start + "Repository root: "@ + repo_root, root));
}

/// What is asked of the assistant: it runs in the repository, with the title and the prompt
/// of the request.
pub proof fn invocation_is_about_its_request(request: RequestView, repo_root: Seq<char>)
    ensures
        ({
            let args = invocation_args(request, repo_root);
            &&& args.len() > 0 && args.last() == prompt_text(request, repo_root)
            &&& exists|i: int|
                0 <= i < args.len() - 1 && #[trigger] args[i] == "--dir"@ && args[i + 1]
                    == repo_root
            &&& exists|i: int|
                0 <= i < args.len() - 1 && #[trigger] args[i] == "--title"@ && args[i + 1]
                    == title_text(request)
            &&& title_text(request).len() <= 80
        }),
{
    let args = invocation_args(request, repo_root);
    assert(args[4] == "--dir"@ && args[5] == repo_root);
    assert(args[6] == "--title"@ && args[7] == title_text(request));
    reveal_strlit("...");
}

/// A shortened text is the text where it fits; else it starts as the text does, ends with
/// dots, and has as many characters as fit.
pub proof fn shortened_text_is_a_start(text: Seq<char>, max: int)
    requires
        3 <= max,
    ensures
        text.len() <= max ==> shortened(text, max) == text,
        text.len() > max ==> shortened(text, max).len() == max && shortened(text, max).take(
            max - 3,
        ) == text.take(max - 3) && shortened(text, max).skip(max - 3) == "..."@,
{
    reveal_strlit("...");
    if text.len() > max {
        assert(shortened(text, max).take(max - 3) =~= text.take(max - 3));
        assert(shortened(text, max).skip(max - 3) =~= "..."@);
    }
}

/// The context of a question is about the hunk that is focused, where one is, and else about
/// the whole file.
pub proof fn context_is_about_the_focus(
    mode: AskAiReviewMode,
    title: Seq<char>,
    label: Seq<char>,
    file: FileView,
    hunk: Option<usize>,
    selected: Option<Seq<char>>,
)
    ensures
        ({
            let context = ContextView::of_file(mode, title, label, file, hunk, selected);
            let focused = hunk is Some && hunk->0 < file.hunks.len();
            &&& context.file_path == file.shown_path()
            &&& context.review_mode == mode
            &&& context.changeset_title == title && context.source_label == label
            &&& context.focused_hunk is Some <==> focused
            &&& focused ==> context.focused_hunk->0.index == hunk->0
                && context.focused_hunk->0.header == file.hunks[hunk->0 as int].header
                && context.focused_hunk->0.old_start == file.hunks[hunk->0 as int].old_start
                && context.focused_hunk->0.old_lines == file.hunks[hunk->0 as int].old_lines
                && context.focused_hunk->0.new_start == file.hunks[hunk->0 as int].new_start
                && context.focused_hunk->0.new_lines == file.hunks[hunk->0 as int].new_lines
            &&& selected is Some && trimmed(selected->0).len() > 0 ==> context.selected_text
                == selected
            &&& selected is None || trimmed(selected->0).len() == 0 ==> context.selected_text
                is None
        }),
{
}

proof fn numbered_lines_hold_each(lines: Seq<LineView>, n: int, i: int)
    requires
        0 <= i < n <= lines.len(),
    ensures
        holds(numbered_lines(lines, n), context_marker(lines[i].kind) + lines[i].content),
    decreases n,
{
    broadcast use holds_in_sum, holds_itself;

    let marked = context_marker(lines[i].kind) + lines[i].content;
    let before = numbered_lines(lines, n - 1);
    let line = numbered_line(lines[n - 1]);
    if i < n - 1 {
        numbered_lines_hold_each(lines, n - 1, i);
    } else {
        let start = right_aligned(number_or_dash(lines[i].old_line)) + " "@
            + right_aligned(number_or_dash(lines[i].new_line)) + " "@;
        assert(line =~= start + marked);
    }
    assert(numbered_lines(lines, n) =~= before + line + seq!['\n']);
    assert(holds(before + line, marked));
}

/// The text of a hunk holds its header and every line with the marker of its kind.
pub proof fn hunk_text_holds_its_lines(hunk: HunkView, i: int)
    requires
        0 <= i < hunk.lines.len(),
    ensures
        holds(hunk_text(hunk), hunk.header),
        holds(
            hunk_text(hunk),
            (match hunk.lines[i].kind {
                DiffLineKind::Added => "+"@,
                DiffLineKind::Removed => "-"@,
                DiffLineKind::Context | DiffLineKind::Meta => " "@,
            }) + hunk.lines[i].content,
        ),
{
    broadcast use holds_in_sum, holds_itself;

    numbered_lines_hold_each(hunk.lines, hunk.lines.len() as int, i);
    assert(hunk.header.push('\n') =~= hunk.header + seq!['\n']);
    assert(holds(hunk.header.push('\n'), hunk.header));
}

/// An outcome tells how a process ended: cancelled, not started, with a code, or by a
/// signal; different codes read differently.
pub proof fn outcome_tells_how_it_ended(outcome: OutcomeView)
    ensures
        outcome.cancelled ==> outcome.ending() == "cancelled"@,
        !outcome.cancelled && outcome.start_error is Some ==> outcome.ending()
            == "failed to start: "@ + outcome.start_error->0,
        !outcome.cancelled && outcome.start_error is None && outcome.code is None
            ==> outcome.ending() == "terminated by signal"@,
        !outcome.cancelled && outcome.start_error is None && outcome.code is Some
            && outcome.code->0 >= 0 ==> outcome.ending() == "exit "@ + decimal(
            outcome.code->0 as nat,
        ),
        !outcome.cancelled && outcome.start_error is None && outcome.code is Some
            && outcome.code->0 < 0 ==> outcome.ending() == "exit "@ + ("-"@ + decimal(
            (-outcome.code->0) as nat,
        )),
{
}

/// An editor is given the file last, and the line before it exactly where it takes one.
pub proof fn editor_is_given_the_file(
    program: Seq<char>,
    args: Seq<Seq<char>>,
    path: Seq<char>,
    line: Option<u32>,
)
    ensures
        ({
            let given = editor_args(program, args, path, line);
            let with_line = line is Some && plus_line_editor(program);
            &&& given.last() == path
            &&& given.len() == args.len() + if with_line { 2int } else { 1 }
            &&& given.take(args.len() as int) == args
            &&& with_line ==> given[args.len() as int] == "+"@ + decimal(line->0 as nat)
        }),
{
    let given = editor_args(program, args, path, line);
    assert(given.take(args.len() as int) =~= args);
}

/// The shell is the one of the settings, unless that is blank.
pub proof fn shell_is_the_configured_one(shell: Option<Seq<char>>)
    ensures
        shell is Some && trimmed(shell->0).len() > 0 ==> shell_of(shell) == shell->0,
        shell is None || trimmed(shell->0).len() == 0 ==> shell_of(shell) == "sh"@,
{
}

/// A failure is told by what the command wrote: errors first, then output; where it wrote
/// nothing, by its status.
pub proof fn failure_holds_what_was_written(stderr: Seq<char>, stdout: Seq<char>, status: Seq<char>)
    ensures
        holds(failure_text(stderr, stdout, status), trimmed(stderr)) || trimmed(stderr).len() == 0,
        holds(failure_text(stderr, stdout, status), trimmed(stdout)) || trimmed(stdout).len() == 0,
        trimmed(stderr).len() > 0 ==> failure_text(stderr, stdout, status).take(
            trimmed(stderr).len() as int,
        ) == trimmed(stderr),
        trimmed(stderr).len() == 0 && trimmed(stdout).len() == 0 ==> holds(
            failure_text(stderr, stdout, status),
            status,
        ),
{
    broadcast use holds_in_sum, holds_itself;

    let error = trimmed(stderr);
    let text = failure_text(stderr, stdout, status);
    if error.len() > 0 {
        assert(text.take(error.len() as int) =~= error);
    }
}

/// A discard is asked about with the path of what is discarded; for a folder with the
/// number of its files, for a hunk with its number, counted from one.
pub proof fn discard_question_names_its_target(target: DiscardView)
    ensures
        match target {
            DiscardView::File { path, .. } => holds(target.question(), path),
            DiscardView::Folder { path, file_paths } => holds(target.question(), path) && holds(
                target.question(),
                decimal(file_paths.len()),
            ),
            DiscardView::Hunk { hunk_index, path, .. } => holds(target.question(), path) && (0
                <= hunk_index < u64::MAX ==> holds(
                target.question(),
                "hunk "@ + decimal((hunk_index + 1) as nat),
            )),
        },
{
    broadcast use holds_in_sum, holds_itself;

    if let DiscardView::Hunk { hunk_index, path, .. } = target {
        reveal_strlit("Discard hunk ");
        reveal_strlit("Discard ");
        reveal_strlit("hunk ");
        if 0 <= hunk_index < u64::MAX {
            let number = decimal((hunk_index + 1) as nat);
            assert("Discard hunk "@ =~= "Discard "@ + "hunk "@);
            assert("Discard hunk "@ + number =~= "Discard "@ + ("hunk "@ + number));
            assert(holds("Discard hunk "@ + number, "hunk "@ + number));
        }
    }
}

/// The status of a search tells the query, which match is active and how many there are.
pub proof fn search_status_counts(query: Seq<char>, active: int, total: int, shown: Seq<char>)
    requires
        0 < active <= total,
    ensures
        holds(
            search_status_text(
                SearchStatusView::Active { query, active: Some(active), total },
                shown,
            ),
            decimal(active as nat) + "/"@ + decimal(total as nat),
        ),
        holds(
            search_status_text(
                SearchStatusView::Active { query, active: Some(active), total },
                shown,
            ),
            shown,
        ),
        holds(
            search_status_text(SearchStatusView::Active { query, active: None, total: 0 }, shown),
            "no matches"@,
        ),
{
    broadcast use holds_in_sum, holds_itself;

    let text = search_status_text(
        SearchStatusView::Active { query, active: Some(active), total },
        shown,
    );
    let counts = decimal(active as nat) + "/"@ + decimal(total as nat);
    let start = "Search: "@ + shown + "  "@;
    assert(start + decimal(active as nat) + "/"@ + decimal(total as nat) =~= start + counts);
    assert(holds(start + counts, counts));
    assert(text == start + decimal(active as nat) + "/"@ + decimal(total as nat)
        + "  [n/N] next/prev  [Esc] clear"@);
    reveal_strlit("  no matches");
    reveal_strlit("  ");
    reveal_strlit("no matches");
    assert("  no matches"@ =~= "  "@ + "no matches"@);
}

proof fn totals_grow(files: Seq<FileView>, n: int)
    requires
        0 <= n <= files.len(),
    ensures
        0 <= added_total(files, n),
        0 <= removed_total(files, n),
    decreases n,
{
    if n > 0 {
        totals_grow(files, n - 1);
    }
}

/// The title of a diff tells its name and how many lines are added and removed in all files.
pub proof fn title_counts_changed_lines(changeset: ChangesetView)
    requires
        added_total(changeset.files, changeset.files.len() as int) <= usize::MAX,
        removed_total(changeset.files, changeset.files.len() as int) <= usize::MAX,
    ensures
        changeset.title.len() > 0 ==> holds(title_of(changeset), changeset.title),
        holds(
            title_of(changeset),
            "  +"@ + decimal(
                added_total(changeset.files, changeset.files.len() as int) as nat,
            ) + "  -"@ + decimal(
                removed_total(changeset.files, changeset.files.len() as int) as nat,
            ),
        ),
{
    broadcast use holds_in_sum, holds_itself;

    let n = changeset.files.len() as int;
    totals_grow(changeset.files, n);
    let name = if changeset.title.len() == 0 { "changeset"@ } else { changeset.title };
    let (a, b) = (
        decimal(added_total(changeset.files, n) as nat),
        decimal(removed_total(changeset.files, n) as nat),
    );
    assert(title_of(changeset) =~= name + ("  +"@ + a + "  -"@ + b));
}

/// The totals of a diff are the sums over its files: one more file adds its own numbers.
pub proof fn totals_are_sums(files: Seq<FileView>, file: FileView)
    ensures
        added_total(files.push(file), files.len() as int + 1) == added_total(
            files,
            files.len() as int,
        ) + file.additions,
        removed_total(files.push(file), files.len() as int + 1) == removed_total(
            files,
            files.len() as int,
        ) + file.deletions,
        added_total(Seq::empty(), 0) == 0,
        removed_total(Seq::empty(), 0) == 0,
{
    totals_of_a_start(files, file, files.len() as int);
}

proof fn totals_of_a_start(files: Seq<FileView>, file: FileView, n: int)
    requires
        0 <= n <= files.len(),
    ensures
        added_total(files.push(file), n) == added_total(files, n),
        removed_total(files.push(file), n) == removed_total(files, n),
    decreases n,
{
    if n > 0 {
        totals_of_a_start(files, file, n - 1);
    }
}

/// The statistics of a file tell its added lines behind a plus and its removed lines behind
/// a minus, and nothing where there are none.
pub proof fn stats_count_changed_lines(file: FileView)
    ensures
        file.additions > 0 ==> holds(stats_text(file), "+"@ + decimal(file.additions)),
        file.deletions > 0 ==> holds(stats_text(file), "-"@ + decimal(file.deletions)),
        file.additions == 0 && file.deletions == 0 ==> stats_text(file).len() == 0,
        file.additions > 0 && file.deletions == 0 ==> stats_text(file) == "+"@ + decimal(
            file.additions,
        ),
        file.additions == 0 && file.deletions > 0 ==> stats_text(file) == "-"@ + decimal(
            file.deletions,
        ),
{
    broadcast use holds_in_sum, holds_itself;

    reveal_strlit(" -");
    reveal_strlit("-");
    reveal_strlit(" ");
    assert(" -"@ =~= " "@ + "-"@);
    let (a, b) = ("+"@ + decimal(file.additions), decimal(file.deletions));
    assert(a + " -"@ + b =~= a + " "@ + ("-"@ + b));
    assert(holds(a + " "@ + ("-"@ + b), "-"@ + b));
}

/// A file is labelled by its path; one that was moved by its old path and then its new one.
pub proof fn labels_name_the_file(file: FileView)
    ensures
        ({
            let moved = (file.status == FileStatus::Renamed || file.status == FileStatus::Copied)
                && file.old_path != file.path;
            &&& !moved ==> header_label(file) == file.shown_path() && sidebar_label(file)
                == base_name(file.shown_path())
            &&& moved ==> header_label(file) == file.old_path + " -> "@ + file.path
                && sidebar_label(file) == base_name(file.old_path) + " -> "@ + base_name(file.path)
        }),
{
}

/// A key is named by its character, and the blank by a word.
pub proof fn keys_are_named(value: char, other: char)
    ensures
        value != ' ' ==> key_name(value) == seq![value],
        key_name(' ') == "Space"@,
        key_name(value) == key_name(other) <==> value == other,
{
    reveal_strlit("Space");
    assert("Space"@.len() == 5);
    assert(seq![value].len() == 1 && seq![value][0] == value);
    assert(seq![other].len() == 1 && seq![other][0] == other);
}

/// Only the editors that take a line as an option behind a plus are given one, wherever
/// their program lies.
pub proof fn editors_with_lines(program: Seq<char>, name: Seq<char>)
    requires
        file_name_of(program) == Some(name),
    ensures
        name == "vim"@ || name == "nvim"@ || name == "vi"@ || name == "view"@ || name == "gvim"@
            || name == "nano"@ || name == "emacs"@ || name == "emacsclient"@ <==> plus_line_editor(
            program,
        ),
{
}

/// The title of a session tells what is asked about and the question, as far as they fit.
pub proof fn title_tells_the_question(request: RequestView)
    requires
        request.context.short().len() + request.question.len() + 16 <= 80,
    ensures
        holds(title_text(request), request.question),
        holds(title_text(request), request.context.short()),
{
    broadcast use holds_in_sum, holds_itself;

    reveal_strlit("chunk Ask AI: ");
    reveal_strlit(": ");
}

/// The numbers of a line stand before it in columns of four characters, a dash for none.
pub proof fn line_numbers_stand_in_columns(line: LineView)
    requires
        line.old_line is Some ==> line.old_line->0 < 10_000,
        line.new_line is Some ==> line.new_line->0 < 10_000,
    ensures
        ({
            let text = numbered_line(line);
            let old_number = match line.old_line {
                Some(number) => decimal(number as nat),
                None => "-"@,
            };
            let new_number = match line.new_line {
                Some(number) => decimal(number as nat),
                None => "-"@,
            };
            &&& text.len() >= 11
            &&& text.subrange(0, 4) == spaces(4 - old_number.len()) + old_number
            &&& text.subrange(5, 9) == spaces(4 - new_number.len()) + new_number
            &&& text.skip(11) == line.content
        }),
{
    reveal_strlit("-");
    reveal_strlit("+");
    reveal_strlit(" ");
    if let Some(number) = line.old_line {
        four_digits(number as nat);
    }
    if let Some(number) = line.new_line {
        four_digits(number as nat);
    }
    let a = right_aligned(number_or_dash(line.old_line));
    let b = right_aligned(number_or_dash(line.new_line));
    let text = numbered_line(line);
    assert(a.len() == 4 && b.len() == 4);
    assert(text.subrange(0, 4) =~= a);
    assert(text.subrange(5, 9) =~= b);
    assert(text.skip(11) =~= line.content);
}

proof fn four_digits(n: nat)
    requires
        n < 10_000,
    ensures
        1 <= decimal(n).len() <= 4,
{
    reveal_with_fuel(decimal, 5);
}

} // verus!
