//! Rows of finished commands and answers, and the title of a review.

use vstd::prelude::*;
use vstd::string::*;
use super::diff::append_lines;
use super::markdown::{empty_row, markdown_lines, markdown_rows};
use super::text::{wrap_line, wrapped_row};

use crate::ask_ai::{AskAiResult, ResultView};
use crate::custom_command::{CommandResultView, CustomCommandResult};
use crate::line::{group_line_views, row_views, styled_row, Line, RowView};
use crate::model::{file_views, Changeset, ChangesetView, FileView};
use crate::scroll_text::least;
use crate::style::{color_style, Color, Modifier, Style};
use crate::text::{cat2, cat3, cat5, decimal, decimal_of, lines, lines_of, texts};
use crate::theme::Theme;

verus! {

/// The wrapped rows of a text in a style.
pub open spec fn text_rows(text: Seq<char>, style: Style, width: int) -> Seq<RowView> {
    wrapped_row(styled_row(text, style), width)
}

fn push_output_text_line(lines: &mut Vec<Line>, text: &str, style: Style, content_width: usize)
    ensures
        row_views(final(lines)@) == row_views(old(lines)@) + text_rows(
            text@,
            style,
            content_width as int,
        ),
{
    append_lines(lines, wrap_line(Line::styled(text, style), content_width));
}

fn push_empty_line(lines: &mut Vec<Line>)
    ensures
        row_views(final(lines)@) == row_views(old(lines)@).push(empty_row()),
{
    broadcast use group_line_views;

    lines.push(Line::raw(""));
}

/// The first `n` rows of an output.
pub open spec fn output_rows(rows: Seq<Seq<char>>, style: Style, width: int, n: int) -> Seq<RowView>
    decreases n,
{
    if n <= 0 {
        seq![]
    } else {
        output_rows(rows, style, width, n - 1) + text_rows(rows[n - 1], style, width)
    }
}

pub open spec fn heading_rows(title: Seq<char>, width: int, theme: Theme) -> Seq<RowView> {
    text_rows(
        title,
        color_style(theme.accent, theme.background).add_modifier(Modifier::Bold),
        width,
    )
}

/// A heading and the lines of an output, or a remark that there are none.
pub open spec fn section_rows(
    title: Seq<char>,
    output: Seq<char>,
    style: Style,
    width: int,
    theme: Theme,
) -> Seq<RowView> {
    heading_rows(title, width, theme) + if output.len() == 0 {
        text_rows("(empty)"@, color_style(theme.muted, theme.background), width)
    } else {
        output_rows(lines_of(output), style, width, lines_of(output).len() as int)
    }
}

fn push_output_section(
    rows: &mut Vec<Line>,
    title: &str,
    output: &str,
    content_width: usize,
    output_style: Style,
    theme: Theme,
)
    ensures
        row_views(final(rows)@) == row_views(old(rows)@) + section_rows(
            title@,
            output@,
            output_style,
            content_width as int,
            theme,
        ),
{
    let ghost before = row_views(rows@);
    let ghost width = content_width as int;
    let ghost heading = heading_rows(title@, width, theme);
    push_output_section_heading(rows, title, content_width, theme);
    if output.is_empty() {
        push_output_text_line(
            rows,
            "(empty)",
            color_style(theme.muted, theme.background),
            content_width,
        );
        assert(row_views(rows@) =~= before + section_rows(
            title@,
            output@,
            output_style,
            width,
            theme,
        ));
        return;
    }
    let parts = lines(output);
    let ghost all = lines_of(output@);
    assert(parts@.len() == texts(parts@).len());
    let mut i: usize = 0;
    assert(before + heading + output_rows(all, output_style, width, 0) =~= before + heading);
    while i < parts.len()
        invariant
            i <= parts@.len(),
            texts(parts@) == all,
            width == content_width,
            row_views(rows@) == before + heading + output_rows(all, output_style, width, i as int),
        decreases parts@.len() - i,
    {
        assert(all[i as int] == parts@[i as int]@);
        push_output_text_line(rows, parts[i].as_str(), output_style, content_width);
        assert(row_views(rows@) =~= before + heading + output_rows(
            all,
            output_style,
            width,
            i + 1,
        ));
        i = i + 1;
    }
    assert(row_views(rows@) =~= before + section_rows(title@, output@, output_style, width, theme));
}

fn push_output_section_heading(lines: &mut Vec<Line>, title: &str, content_width: usize, theme: Theme)
    ensures
        row_views(final(lines)@) == row_views(old(lines)@) + heading_rows(
            title@,
            content_width as int,
            theme,
        ),
{
    push_output_text_line(
        lines,
        title,
        color_style(theme.accent, theme.background).add_modifier(Modifier::Bold),
        content_width,
    );
}

pub open spec fn status_color_of(success: bool, theme: Theme) -> Color {
    if success { theme.added } else { theme.removed }
}

/// A line with a label and a value.
pub open spec fn metadata_rows(
    label: Seq<char>,
    value: Seq<char>,
    color: Color,
    width: int,
    theme: Theme,
) -> Seq<RowView> {
    text_rows(label + ": "@ + value, color_style(color, theme.background), width)
}

fn push_output_metadata_line(
    lines: &mut Vec<Line>,
    label: &str,
    value: &str,
    color: Color,
    content_width: usize,
    theme: Theme,
)
    ensures
        row_views(final(lines)@) == row_views(old(lines)@) + metadata_rows(
            label@,
            value@,
            color,
            content_width as int,
            theme,
        ),
{
    push_output_text_line(
        lines,
        cat3(label, ": ", value).as_str(),
        color_style(color, theme.background),
        content_width,
    );
}

/// The label of how a process ended, and the description.
pub open spec fn ending_rows(
    label: Seq<char>,
    ending: Seq<char>,
    success: bool,
    width: int,
    theme: Theme,
) -> Seq<RowView> {
    text_rows(
        label + "  "@ + ending,
        color_style(status_color_of(success, theme), theme.background),
        width,
    )
}

fn push_output_status_line(
    lines: &mut Vec<Line>,
    label: &str,
    status_text: &str,
    success: bool,
    content_width: usize,
    theme: Theme,
)
    ensures
        row_views(final(lines)@) == row_views(old(lines)@) + ending_rows(
            label@,
            status_text@,
            success,
            content_width as int,
            theme,
        ),
{
    let color = if success { theme.added } else { theme.removed };
    push_output_text_line(
        lines,
        cat3(label, "  ", status_text).as_str(),
        color_style(color, theme.background),
        content_width,
    );
}

/// The rows of a finished command.
pub open spec fn command_output_rows(result: CommandResultView, width: int, theme: Theme) -> Seq<
    RowView,
> {
    let status = ending_rows(
        if result.outcome.success { "OK"@ } else { "FAIL"@ },
        result.outcome.ending(),
        result.outcome.success,
        width,
        theme,
    );
    let place = match result.cwd {
        Some(dir) => status + metadata_rows("cwd"@, dir, theme.muted, width, theme),
        None => status,
    };
    (place + text_rows(
        "$ "@ + result.command,
        color_style(theme.accent, theme.background),
        width,
    )).push(empty_row()) + section_rows(
        "stdout"@,
        result.outcome.stdout,
        color_style(theme.text, theme.background),
        width,
        theme,
    ) + seq![empty_row()] + section_rows(
        "stderr"@,
        result.outcome.stderr,
        color_style(theme.removed, theme.background),
        width,
        theme,
    )
}

pub fn custom_command_output_lines(
    result: &CustomCommandResult,
    content_width: usize,
    theme: Theme,
) -> (lines: Vec<Line>)
    ensures
        row_views(lines@) == command_output_rows(result@, content_width as int, theme),
{
    let mut lines: Vec<Line> = Vec::new();
    let ghost none = row_views(lines@);
    assert(none =~= seq![]);
    push_output_status_line(
        &mut lines,
        if result.success() { "OK" } else { "FAIL" },
        result.status_text().as_str(),
        result.success(),
        content_width,
        theme,
    );
    assert(row_views(lines@) =~= ending_rows(
        if result@.outcome.success { "OK"@ } else { "FAIL"@ },
        result@.outcome.ending(),
        result@.outcome.success,
        content_width as int,
        theme,
    ));
    if let Some(cwd) = result.cwd() {
        push_output_metadata_line(&mut lines, "cwd", cwd, theme.muted, content_width, theme);
    }
    push_output_text_line(
        &mut lines,
        cat2("$ ", result.command()).as_str(),
        color_style(theme.accent, theme.background),
        content_width,
    );
    push_empty_line(&mut lines);
    push_output_section(
        &mut lines,
        "stdout",
        result.stdout(),
        content_width,
        color_style(theme.text, theme.background),
        theme,
    );
    let ghost before = row_views(lines@);
    push_empty_line(&mut lines);
    assert(row_views(lines@) =~= before + seq![empty_row()]);
    push_output_section(
        &mut lines,
        "stderr",
        result.stderr(),
        content_width,
        color_style(theme.removed, theme.background),
        theme,
    );
    lines
}

/// The label of how a question was answered.
pub open spec fn answer_label(result: ResultView) -> Seq<char> {
    if result.outcome.cancelled {
        "CANCELLED"@
    } else if result.outcome.success {
        "OK"@
    } else {
        "FAIL"@
    }
}

fn ask_ai_status_label(result: &AskAiResult) -> (label: &'static str)
    ensures
        label@ == answer_label(result@),
{
    if result.cancelled_status() {
        "CANCELLED"
    } else if result.success() {
        "OK"
    } else {
        "FAIL"
    }
}

/// What stands above an answer.
pub open spec fn answer_head_rows(result: ResultView, width: int, theme: Theme) -> Seq<RowView> {
    let status = ending_rows(
        answer_label(result),
        result.outcome.ending(),
        result.outcome.success,
        width,
        theme,
    );
    let place = match result.repo_root {
        Some(dir) => status + metadata_rows("repo"@, dir, theme.muted, width, theme),
        None => status,
    };
    (place + metadata_rows("context"@, result.request.context.short(), theme.muted, width, theme)
        + metadata_rows("question"@, result.request.question, theme.accent, width, theme)).push(
        empty_row(),
    )
}

/// The rows of an answered question, where the rows of the answer are given.
pub open spec fn answer_rows(
    result: ResultView,
    answer: Seq<RowView>,
    width: int,
    theme: Theme,
) -> Seq<RowView> {
    let body = answer_head_rows(result, width, theme) + heading_rows("answer"@, width, theme)
        + answer;
    if result.outcome.stderr.len() == 0 {
        body
    } else {
        body.push(empty_row()) + section_rows(
            "diagnostics"@,
            result.outcome.stderr,
            color_style(theme.removed, theme.background),
            width,
            theme,
        )
    }
}

/// The rows of an answered question, where the rows of the answer are given.
pub fn answer_lines(
    result: &AskAiResult,
    answer: Vec<Line>,
    content_width: usize,
    theme: Theme,
) -> (lines: Vec<Line>)
    ensures
        row_views(lines@) == answer_rows(
            result@,
            row_views(answer@),
            content_width as int,
            theme,
        ),
{
    let mut lines = answer_head_lines(result, content_width, theme);
    push_output_section_heading(&mut lines, "answer", content_width, theme);
    append_lines(&mut lines, answer);
    if !result.stderr().is_empty() {
        push_empty_line(&mut lines);
        push_output_section(
            &mut lines,
            "diagnostics",
            result.stderr(),
            content_width,
            color_style(theme.removed, theme.background),
            theme,
        );
    }
    lines
}

fn answer_head_lines(result: &AskAiResult, content_width: usize, theme: Theme) -> (lines: Vec<Line>)
    ensures
        row_views(lines@) == answer_head_rows(result@, content_width as int, theme),
{
    let mut lines: Vec<Line> = Vec::new();
    assert(row_views(lines@) =~= seq![]);
    push_output_status_line(
        &mut lines,
        ask_ai_status_label(result),
        result.status_text().as_str(),
        result.success(),
        content_width,
        theme,
    );
    assert(row_views(lines@) =~= ending_rows(
        answer_label(result@),
        result@.outcome.ending(),
        result@.outcome.success,
        content_width as int,
        theme,
    ));
    if let Some(root) = result.repo_root() {
        push_output_metadata_line(&mut lines, "repo", root, theme.muted, content_width, theme);
    }
    push_output_metadata_line(
        &mut lines,
        "context",
        result.context_summary().as_str(),
        theme.muted,
        content_width,
        theme,
    );
    push_output_metadata_line(
        &mut lines,
        "question",
        result.question(),
        theme.accent,
        content_width,
        theme,
    );
    push_empty_line(&mut lines);
    lines
}

pub fn ask_ai_output_lines(result: &AskAiResult, content_width: usize, theme: Theme) -> (lines: Vec<
    Line,
>)
    ensures
        row_views(lines@) == answer_rows(
            result@,
            markdown_rows(result@.outcome.stdout, content_width as int, theme),
            content_width as int,
            theme,
        ),
{
    let answer = markdown_lines(result.stdout(), content_width, theme);
    answer_lines(result, answer, content_width, theme)
}

/// Added lines of the first `n` files.
pub open spec fn added_total(files: Seq<FileView>, n: int) -> int
    decreases n,
{
    if n <= 0 { 0 } else { added_total(files, n - 1) + files[n - 1].additions }
}

/// Removed lines of the first `n` files.
pub open spec fn removed_total(files: Seq<FileView>, n: int) -> int
    decreases n,
{
    if n <= 0 { 0 } else { removed_total(files, n - 1) + files[n - 1].deletions }
}

/// The title of a changeset and its totals of added and removed lines. A total
/// stays at the largest number that can be held.
pub open spec fn title_of(changeset: ChangesetView) -> Seq<char> {
    let count = changeset.files.len() as int;
    let most = usize::MAX as int;
    (if changeset.title.len() == 0 { "changeset"@ } else { changeset.title }) + "  +"@ + decimal(
        least(added_total(changeset.files, count), most) as nat,
    ) + "  -"@ + decimal(least(removed_total(changeset.files, count), most) as nat)
}

pub fn changeset_title(changeset: &Changeset) -> (title: String)
    ensures
        title@ == title_of(changeset@),
{
    let ghost files = changeset@.files;
    let mut additions: usize = 0;
    let mut deletions: usize = 0;
    let mut i: usize = 0;
    while i < changeset.files.len()
        invariant
            i <= changeset.files@.len(),
            files == file_views(changeset.files@),
            0 <= added_total(files, i as int),
            0 <= removed_total(files, i as int),
            additions == least(added_total(files, i as int), usize::MAX as int),
            deletions == least(removed_total(files, i as int), usize::MAX as int),
        decreases changeset.files@.len() - i,
    {
        assert(files[i as int] == changeset.files@[i as int]@);
        additions = additions.saturating_add(changeset.files[i].additions);
        deletions = deletions.saturating_add(changeset.files[i].deletions);
        i = i + 1;
    }
    let title = if changeset.title.as_str().is_empty() {
        "changeset"
    } else {
        changeset.title.as_str()
    };
    cat5(
        title,
        "  +",
        decimal_of(additions as u64).as_str(),
        "  -",
        decimal_of(deletions as u64).as_str(),
    )
}

} // verus!
