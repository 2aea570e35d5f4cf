//! What the rows of a diff tell.

use vstd::prelude::*;
use vstd::string::*;

use crate::laws::texts::{holds, holds_in_sum, holds_itself};
use crate::line::{piece, raw_pieces, spans_text, styled_row, RowView, SpanView};
use crate::model::{DiffLineKind, FileStage, FileStatus, FileView, HunkView, LineView};
use crate::rows::diff::{
    block_start, body_message, columns_for_content, continuation_gutter, file_header_row, gutter,
    gutter_rows, hunk_header_row, hunk_line_ranges, hunk_line_rows, hunk_parts, kind_content_style,
    kind_rail_style, line_numbers, line_row_count, number_column, rail, DiffRenderOptions, SideView,
    SidesView,
};
use crate::rows::file_summary::{header_label, stage_suffix, stat_pieces, FileKind};
use crate::rows::intraline::{block_end, changes_line};
use crate::rows::sidebar::{fitting, prefix_width, truncated};
use crate::rows::status::{
    ask_ai_prompt_rows, ask_ai_running_rows, command_running_rows, discard_status_rows,
    live_status_rows, spinner,
};
use crate::rows::text::{
    break_end, cells, cells_measured, cells_of_rows, columns, full_end, row_end, row_full,
    tabs_expanded, text_width, values, wrapped, wrapped_row, wrapping_keeps_characters, StyledChar,
};
use crate::style::{color_style, plain_style, Style};
use crate::text::{
    absent_is_not_found, after, decimal, decimal_is_its_number, is_digit, is_white, lines_of,
    parsed_u32, spaces, stands_at, trimmed, trimmed_end, trimmed_start, written_number_is_read,
};
use crate::theme::Theme;

verus! {

proof fn spaces_are_trimmed(text: Seq<char>, count: int)
    requires
        text.len() > 0,
        !is_white(text[0]),
        !is_white(text.last()),
        0 <= count,
    ensures
        trimmed_end(text + spaces(count)) == text,
    decreases count,
{
    let padded = text + spaces(count);
    if count == 0 {
        assert(padded =~= text);
    } else {
        assert(padded.last() == ' ');
        assert(padded.drop_last() =~= text + spaces(count - 1));
        spaces_are_trimmed(text, count - 1);
    }
}

/// The column of a line number reads as that number, whatever its size, and is three
/// columns wide at least.
pub proof fn number_column_reads_as_its_number(number: u32)
    ensures
        parsed_u32(trimmed(number_column(Some(number)))) == Some(number),
        number_column(Some(number)).len() >= 3,
        !is_white(number_column(Some(number))[0]),
{
    let digits = decimal(number as nat);
    decimal_is_its_number(number as nat);
    written_number_is_read(number);
    let gap = if digits.len() < 3 { 3 - digits.len() } else { 0 };
    let column = number_column(Some(number));
    assert(spaces(3 - digits.len()) =~= spaces(gap as int));
    assert(is_digit(digits[0]) && is_digit(digits[digits.len() - 1]));
    assert(column[0] == digits[0]);
    assert(trimmed_start(column) == column);
    spaces_are_trimmed(digits, gap as int);
}

/// Different line numbers have different columns.
pub proof fn number_columns_differ(a: Option<u32>, b: Option<u32>)
    ensures
        number_column(a) == number_column(b) <==> a == b,
{
    reveal_strlit("   ");
    if let Some(number) = a {
        number_column_reads_as_its_number(number);
    }
    if let Some(number) = b {
        number_column_reads_as_its_number(number);
    }
}

/// The column is blank exactly where a line has no number on that side.
pub proof fn number_column_is_blank_without_a_number(line: Option<u32>)
    ensures
        line is None <==> forall|i: int|
            0 <= i < number_column(line).len() ==> number_column(line)[i] == ' ',
        number_column(line).len() >= 3,
{
    reveal_strlit("   ");
    if let Some(number) = line {
        number_column_reads_as_its_number(number);
    }
}

/// The text of rows, one behind the other.
pub open spec fn shown_text(rows: Seq<RowView>) -> Seq<char> {
    values(cells_of_rows(rows.map_values(|shown: RowView| shown.spans)))
}

proof fn cells_spell_the_text(spans: Seq<SpanView>)
    ensures
        values(cells(spans)) == spans_text(spans),
    decreases spans.len(),
{
    if spans.len() > 0 {
        cells_spell_the_text(spans.drop_last());
        assert(values(cells(spans)) =~= spans_text(spans));
    } else {
        assert(values(cells(spans)) =~= spans_text(spans));
    }
}

/// Rows that a row was wrapped into show its text, however narrow they are.
pub proof fn wrapped_rows_show_the_text(line: RowView, width: int)
    ensures
        shown_text(wrapped_row(line, width)) == spans_text(line.spans),
{
    let rows = wrapped_row(line, width);
    assert(rows.map_values(|shown: RowView| shown.spans) =~= wrapped(line.spans, width));
    wrapping_keeps_characters(line.spans, width);
    cells_spell_the_text(line.spans);
}

proof fn one_line_is_one_piece(text: Seq<char>)
    requires
        text.len() > 0,
        !text.contains('\n'),
        text.last() != '\r',
    ensures
        raw_pieces(text) == seq![piece(text, plain_style())],
{
    assert forall|i: int| 0 <= i < text.len() implies #[trigger] text[i] != '\n' by {
        if text[i] == '\n' {
            assert(text.contains('\n'));
        }
    }
    absent_is_not_found(text, '\n', 0);
    assert(after(text, 0) =~= text);
    assert(lines_of(text) =~= seq![text]);
    assert(raw_pieces(text) =~= seq![piece(text, plain_style())]);
}

proof fn one_span_reads_as_its_text(text: Seq<char>, style: Style)
    ensures
        spans_text(seq![piece(text, style)]) == text,
{
    let spans = seq![piece(text, style)];
    assert(spans.drop_last() =~= seq![]);
    assert(spans_text(spans.drop_last()) =~= seq![]);
    assert(spans_text(spans) =~= text);
}

/// A message is shown as it is.
pub proof fn message_is_shown(text: Seq<char>, style: Style, width: int)
    requires
        text.len() > 0,
        !text.contains('\n'),
        text.last() != '\r',
    ensures
        shown_text(wrapped_row(styled_row(text, style), width)) == text,
{
    one_line_is_one_piece(text);
    one_span_reads_as_its_text(text, plain_style());
    wrapped_rows_show_the_text(styled_row(text, style), width);
}

/// The status line shows an error before a notice, each as it was given, and nothing
/// without them.
pub proof fn errors_are_shown_before_notices(
    error: Option<Seq<char>>,
    notice: Option<Seq<char>>,
    width: int,
    theme: Theme,
)
    ensures
        ({
            let rows = live_status_rows(error, notice, width, theme);
            &&& error is None && notice is None ==> rows.len() == 0
            &&& error is Some && error->0.len() > 0 && !error->0.contains('\n') && error->0.last()
                != '\r' ==> shown_text(rows) == "! "@ + error->0
            &&& error is None && notice is Some && notice->0.len() > 0 && !notice->0.contains('\n')
                && notice->0.last() != '\r' ==> shown_text(rows) == "ok "@ + notice->0
        }),
{
    reveal_strlit("! ");
    reveal_strlit("ok ");
    if let Some(text) = error {
        if text.len() > 0 && !text.contains('\n') && text.last() != '\r' {
            no_line_end_in_both("! "@, text);
            message_is_shown("! "@ + text, color_style(theme.removed, theme.background), width);
        }
    } else if let Some(text) = notice {
        if text.len() > 0 && !text.contains('\n') && text.last() != '\r' {
            no_line_end_in_both("ok "@, text);
            message_is_shown("ok "@ + text, color_style(theme.accent, theme.background), width);
        }
    }
}

proof fn no_line_end_in_both(a: Seq<char>, b: Seq<char>)
    requires
        !a.contains('\n'),
        !b.contains('\n'),
        b.len() > 0,
    ensures
        !(a + b).contains('\n'),
        (a + b).last() == b.last(),
{
    if (a + b).contains('\n') {
        let i = choose|i: int| 0 <= i < (a + b).len() && (a + b)[i] == '\n';
        if i < a.len() {
            assert(a[i] == '\n');
        } else {
            assert(b[i - a.len()] == '\n');
        }
    }
}

proof fn texts_of_both(a: Seq<SpanView>, b: Seq<SpanView>)
    ensures
        spans_text(a + b) == spans_text(a) + spans_text(b),
    decreases b.len(),
{
    if b.len() == 0 {
        assert(a + b =~= a);
        assert(spans_text(a + b) =~= spans_text(a) + spans_text(b));
    } else {
        texts_of_both(a, b.drop_last());
        assert((a + b).drop_last() =~= a + b.drop_last());
        assert(spans_text(a + b) =~= spans_text(a) + spans_text(b));
    }
}

proof fn text_of_seven(spans: Seq<SpanView>)
    requires
        spans.len() == 7,
    ensures
        spans_text(spans) == spans[0].content + spans[1].content + spans[2].content
            + spans[3].content + spans[4].content + spans[5].content + spans[6].content,
{
    reveal_with_fuel(spans_text, 8);
    assert(spans.take(0) =~= seq![]);
    assert(spans.drop_last() =~= spans.take(6));
    assert(spans.take(6).drop_last() =~= spans.take(5));
    assert(spans.take(5).drop_last() =~= spans.take(4));
    assert(spans.take(4).drop_last() =~= spans.take(3));
    assert(spans.take(3).drop_last() =~= spans.take(2));
    assert(spans.take(2).drop_last() =~= spans.take(1));
    assert(spans.take(1).drop_last() =~= spans.take(0));
    assert(spans_text(spans.take(1)) =~= spans[0].content);
}

/// The first row of a line of a diff tells its number on the old side, its number on the new
/// side and, by a plus or a minus, whether it was added or removed; the other rows tell
/// neither. The rows together show the content.
pub proof fn diff_rows_tell_the_line(
    line: LineView,
    content: Seq<SpanView>,
    width: int,
    theme: Theme,
)
    ensures
        ({
            let rows = gutter_rows(line, content, width, theme);
            let marker = match line.kind {
                DiffLineKind::Added => "+"@,
                DiffLineKind::Removed => "-"@,
                DiffLineKind::Context | DiffLineKind::Meta => " "@,
            };
            &&& rows.len() > 0
            &&& forall|i: int| 0 <= i < rows.len() ==> (#[trigger] rows[i]).spans.len() >= 7
            &&& spans_text(rows[0].spans.take(7)) == rail() + number_column(line.old_line) + " "@
                + number_column(line.new_line) + " "@ + marker + " "@
            &&& forall|i: int|
                1 <= i < rows.len() ==> spans_text((#[trigger] rows[i]).spans.take(7)) == rail()
                    + "   "@ + " "@ + "   "@ + " "@ + " "@ + " "@
            &&& values(
                cells_of_rows(rows.map_values(|shown: RowView| shown.spans.skip(7))),
            ) == spans_text(content)
        }),
{
    let rows = gutter_rows(line, content, width, theme);
    let parts = wrapped(content, columns_for_content(width));
    wrapping_keeps_characters(content, columns_for_content(width));
    cells_spell_the_text(content);
    let first = gutter(line, theme);
    let more = continuation_gutter(line.kind, theme);
    assert(parts.len() > 0) by {
        if cells(content).len() > 0 {
            cells_measured(content);
        }
    }
    assert forall|i: int| 0 <= i < rows.len() implies (#[trigger] rows[i]).spans.len() >= 7
        && rows[i].spans.take(7) == (if i == 0 { first } else { more }) && rows[i].spans.skip(7)
        == parts[i] by {
        assert(rows[i].spans.take(7) =~= if i == 0 { first } else { more });
        assert(rows[i].spans.skip(7) =~= parts[i]);
    }
    text_of_seven(first);
    text_of_seven(more);
    assert(rows.map_values(|shown: RowView| shown.spans.skip(7)) =~= parts);
}

/// Added lines stand on the color of added ones, removed lines on that of removed ones, and
/// all others on the color of unchanged ones.
pub proof fn changes_have_their_colors(kind: DiffLineKind, theme: Theme)
    ensures
        kind_content_style(kind, theme).bg == Some(
            match kind {
                DiffLineKind::Added => theme.added_bg,
                DiffLineKind::Removed => theme.removed_bg,
                DiffLineKind::Context | DiffLineKind::Meta => theme.context_bg,
            },
        ),
        kind_rail_style(kind, theme).bg == kind_content_style(kind, theme).bg,
        kind == DiffLineKind::Added ==> kind_content_style(kind, theme).fg == Some(theme.added),
        kind == DiffLineKind::Removed ==> kind_content_style(kind, theme).fg == Some(theme.removed),
{
}

/// The header of a hunk shows its header line, marked exactly where the hunk is selected,
/// and where it can be staged how far it is.
pub proof fn hunk_header_tells_the_hunk(
    hunk: HunkView,
    theme: Theme,
    can_stage: bool,
    selected: bool,
)
    ensures
        spans_text(hunk_header_row(hunk, theme, can_stage, selected).spans) == (if selected {
            ">"@
        } else {
            " "@
        }) + " "@ + hunk.header + (if can_stage { stage_suffix(hunk.stage) } else { seq![] }),
        holds(stage_suffix(FileStage::Staged), "staged"@),
        holds(stage_suffix(FileStage::Unstaged), "unstaged"@),
        holds(stage_suffix(FileStage::Mixed), "mixed"@),
        !holds(stage_suffix(FileStage::Staged), "unstaged"@),
{
    broadcast use holds_in_sum, holds_itself;

    let spans = hunk_header_row(hunk, theme, can_stage, selected).spans;
    reveal_with_fuel(spans_text, 3);
    let title = (if selected { ">"@ } else { " "@ }) + " "@ + hunk.header;
    if can_stage {
        assert(spans.drop_last() =~= seq![spans[0]]);
        one_span_reads_as_its_text(title, spans[0].style);
        assert(spans_text(spans) =~= title + stage_suffix(hunk.stage));
    } else {
        assert(spans =~= seq![spans[0]]);
        one_span_reads_as_its_text(title, spans[0].style);
        assert(title + Seq::<char>::empty() =~= title);
    }
    reveal_strlit("  \u{f10c} unstaged");
    reveal_strlit("  \u{f058} staged");
    reveal_strlit("  \u{f056} mixed");
    reveal_strlit("unstaged");
    reveal_strlit("staged");
    reveal_strlit("mixed");
    let unstaged = "  \u{f10c} unstaged"@;
    let staged = "  \u{f058} staged"@;
    let mixed = "  \u{f056} mixed"@;
    assert(unstaged.subrange(4, 12) =~= "unstaged"@);
    assert(stands_at(unstaged, 4, "unstaged"@));
    assert(staged.subrange(4, 10) =~= "staged"@);
    assert(stands_at(staged, 4, "staged"@));
    assert(mixed.subrange(4, 9) =~= "mixed"@);
    assert(stands_at(mixed, 4, "mixed"@));
    if holds(staged, "unstaged"@) {
        let at = choose|at: int| #[trigger] stands_at(staged, at, "unstaged"@);
        assert(staged.subrange(at, at + 8)[0] == staged[at]);
    }
}

/// A file without text to compare says so.
pub proof fn files_without_hunks_say_so(file: FileView)
    ensures
        file.binary ==> body_message(file) == Some("Binary file changed"@),
        !file.binary && file.hunks.len() == 0 ==> body_message(file) == Some(
            "File changed without textual hunks"@,
        ),
        !file.binary && file.hunks.len() > 0 ==> body_message(file) is None,
{
}

/// A hunk is one header and one part for each of its lines, in order.
pub proof fn hunk_has_a_part_for_each_line(
    hunk: HunkView,
    sides: SidesView,
    options: DiffRenderOptions,
    selected: bool,
    i: int,
)
    requires
        0 <= i < hunk.lines.len(),
    ensures
        ({
            let parts = hunk_parts(hunk, sides, options, selected);
            &&& parts.len() == hunk.lines.len() + 1
            &&& shown_text(parts[0]) == spans_text(
                hunk_header_row(hunk, options.theme, options.can_stage, selected).spans,
            )
            &&& parts[i + 1].len() > 0
            &&& spans_text(parts[i + 1][0].spans.take(7)) == rail() + number_column(
                hunk.lines[i].old_line,
            ) + " "@ + number_column(hunk.lines[i].new_line) + " "@ + (match hunk.lines[i].kind {
                DiffLineKind::Added => "+"@,
                DiffLineKind::Removed => "-"@,
                DiffLineKind::Context | DiffLineKind::Meta => " "@,
            }) + " "@
        }),
{
    let width = options.content_width as int;
    let ready = sides.before_hunk(hunk);
    let parts = hunk_parts(hunk, sides, options, selected);
    wrapped_rows_show_the_text(
        hunk_header_row(hunk, options.theme, options.can_stage, selected),
        width,
    );
    assert(parts[i + 1] == hunk_line_rows(hunk.lines, ready, i, width, options.theme));
    diff_rows_tell_the_line(
        hunk.lines[i],
        ready.behind_lines(hunk.lines, i).content(
            hunk.lines[i],
            hunk_line_ranges(hunk.lines, i),
            options.theme,
        ),
        width,
        options.theme,
    );
}

/// An added line counts on the new side only, a removed one on the old side only, an
/// unchanged one on both.
pub proof fn lines_pass_their_sides(sides: SidesView, line: LineView)
    ensures
        line.kind == DiffLineKind::Added ==> sides.behind_line(line).old == sides.old,
        line.kind == DiffLineKind::Removed ==> sides.behind_line(line).new == sides.new,
        line.kind == DiffLineKind::Meta ==> sides.behind_line(line) == sides,
        line.kind == DiffLineKind::Added || line.kind == DiffLineKind::Context
            ==> sides.new.next_line < u32::MAX ==> sides.behind_line(line).new.next_line
            == sides.new.next_line + 1,
        line.kind == DiffLineKind::Removed || line.kind == DiffLineKind::Context
            ==> sides.old.next_line < u32::MAX ==> sides.behind_line(line).old.next_line
            == sides.old.next_line + 1,
{
}

proof fn numbers_before(lines: Seq<LineView>, width: int, n: int, k: int)
    requires
        0 <= n <= lines.len(),
    ensures
        0 <= k < line_numbers(lines, width, n).len() ==> exists|i: int|
            0 <= i < n && #[trigger] lines[i].new_line == line_numbers(lines, width, n)[k],
    decreases n,
{
    if n > 0 && 0 <= k < line_numbers(lines, width, n).len() {
        let before = line_numbers(lines, width, n - 1);
        if k < before.len() {
            numbers_before(lines, width, n - 1, k);
        } else {
            assert(lines[n - 1].new_line == line_numbers(lines, width, n)[k]);
        }
    }
}

/// Every row of a hunk stands for a line of it, and every line has as many entries as it
/// has rows, one at least, in order.
pub proof fn rows_know_their_lines(lines: Seq<LineView>, width: int, i: int, k: int)
    requires
        0 <= i < lines.len(),
    ensures
        ({
            let all = line_numbers(lines, width, lines.len() as int);
            let before = line_numbers(lines, width, i).len() as int;
            &&& 0 <= k < all.len() ==> exists|j: int|
                0 <= j < lines.len() && #[trigger] lines[j].new_line == all[k]
            &&& line_row_count(lines[i], width) >= 1
            &&& before + line_row_count(lines[i], width) <= all.len()
            &&& before <= k < before + line_row_count(lines[i], width) ==> all[k]
                == lines[i].new_line
        }),
{
    numbers_before(lines, width, lines.len() as int, k);
    lines_have_rows(lines[i], width);
    numbers_stay(lines, width, i + 1, lines.len() as int, k);
}

proof fn lines_have_rows(line: LineView, width: int)
    ensures
        line_row_count(line, width) >= 1,
{
    let spans = seq![piece(tabs_expanded(line.content), plain_style())];
    if cells(spans).len() > 0 {
        cells_measured(spans);
    }
}

proof fn numbers_stay(lines: Seq<LineView>, width: int, n: int, m: int, k: int)
    requires
        0 <= n <= m <= lines.len(),
    ensures
        line_numbers(lines, width, n).len() <= line_numbers(lines, width, m).len(),
        0 <= k < line_numbers(lines, width, n).len() ==> line_numbers(lines, width, m)[k]
            == line_numbers(lines, width, n)[k],
    decreases m,
{
    if n < m {
        numbers_stay(lines, width, n, m - 1, k);
    }
}

/// Whether a text is one line that is shown as it is.
pub open spec fn is_one_line(text: Seq<char>) -> bool {
    text.len() > 0 && !text.contains('\n') && text.last() != '\r'
}

/// What runs is shown with its name, and whether it is being cancelled; what is typed is
/// shown as it is typed; and a discard is asked about with the keys that answer.
pub proof fn status_tells_what_goes_on(
    text: Seq<char>,
    frame: int,
    cancelling: bool,
    width: int,
    theme: Theme,
)
    requires
        is_one_line(text),
    ensures
        shown_text(command_running_rows(Some(text), frame, cancelling, width, theme)) == spinner(
            frame,
        ) + (if cancelling { " Cancelling command: "@ } else { " Running command: "@ }) + text,
        shown_text(ask_ai_running_rows(Some(text), frame, cancelling, width, theme)) == spinner(
            frame,
        ) + (if cancelling { " Cancelling Ask AI: "@ } else { " Asking AI: "@ }) + text,
        shown_text(ask_ai_prompt_rows(Some(text), width, theme)) == "Ask AI: "@ + text,
        holds(shown_text(discard_status_rows(Some(text), width, theme)), text),
        command_running_rows(None, frame, cancelling, width, theme).len() == 0,
        ask_ai_running_rows(None, frame, cancelling, width, theme).len() == 0,
        ask_ai_prompt_rows(None, width, theme).len() == 0,
        discard_status_rows(None, width, theme).len() == 0,
{
    broadcast use holds_in_sum, holds_itself;

    reveal_strlit(" Cancelling command: ");
    reveal_strlit(" Running command: ");
    reveal_strlit(" Cancelling Ask AI: ");
    reveal_strlit(" Asking AI: ");
    reveal_strlit("Ask AI: ");
    reveal_strlit("! ");
    reveal_strlit("  y/Enter confirm  Esc/n cancel");
    spinner_is_one_character(frame);
    let style = color_style(theme.accent, theme.background);
    let running = if cancelling { " Cancelling command: "@ } else { " Running command: "@ };
    let asking = if cancelling { " Cancelling Ask AI: "@ } else { " Asking AI: "@ };
    no_line_end_in_both(spinner(frame), running);
    no_line_end_in_both(spinner(frame) + running, text);
    message_is_shown(spinner(frame) + running + text, style, width);
    no_line_end_in_both(spinner(frame), asking);
    no_line_end_in_both(spinner(frame) + asking, text);
    message_is_shown(spinner(frame) + asking + text, style, width);
    no_line_end_in_both("Ask AI: "@, text);
    message_is_shown("Ask AI: "@ + text, style, width);
    let answer = "  y/Enter confirm  Esc/n cancel"@;
    no_line_end_in_both("! "@, text);
    no_line_end_in_both("! "@ + text, answer);
    assert(answer.last() == 'l');
    message_is_shown(
        "! "@ + text + answer,
        color_style(theme.removed, theme.background),
        width,
    );
}

proof fn spinner_is_one_character(frame: int)
    ensures
        spinner(frame).len() == 1,
        !spinner(frame).contains('\n'),
{
    reveal_strlit("\u{280b}");
    reveal_strlit("\u{2819}");
    reveal_strlit("\u{2839}");
    reveal_strlit("\u{2838}");
    reveal_strlit("\u{283c}");
    reveal_strlit("\u{2834}");
    reveal_strlit("\u{2826}");
    reveal_strlit("\u{2827}");
    reveal_strlit("\u{2807}");
    reveal_strlit("\u{280f}");
}

/// The spinner turns: two frames in a row differ, and it comes around in ten.
pub proof fn spinner_turns(frame: int)
    requires
        0 <= frame,
    ensures
        spinner(frame) != spinner(frame + 1),
        spinner(frame + 10) == spinner(frame),
{
    reveal_strlit("\u{280b}");
    reveal_strlit("\u{2819}");
    reveal_strlit("\u{2839}");
    reveal_strlit("\u{2838}");
    reveal_strlit("\u{283c}");
    reveal_strlit("\u{2834}");
    reveal_strlit("\u{2826}");
    reveal_strlit("\u{2827}");
    reveal_strlit("\u{2807}");
    reveal_strlit("\u{280f}");
    assert(spinner(frame)[0] != spinner(frame + 1)[0]);
}

/// The header of a file tells its path, its status and, where it can be staged, its stage,
/// with the numbers of its lines at the end.
pub proof fn file_header_tells_the_file(file: FileView, width: int, can_stage: bool, theme: Theme)
    ensures
        ({
            let spans = file_header_row(file, width, can_stage, theme).spans;
            let n = if can_stage { 5int } else { 4 };
            &&& spans.len() >= n
            &&& spans[0].content == FileKind::of_path(file.shown_path()).glyph()
            &&& spans[1].content == " "@ + header_label(file)
            &&& spans[2].content == match file.status {
                FileStatus::Added => " (new)"@,
                FileStatus::Deleted => " (deleted)"@,
                FileStatus::Copied => " (copied)"@,
                FileStatus::Renamed | FileStatus::Modified => ""@,
            }
            &&& can_stage ==> spans[3].content == stage_suffix(file.stage)
            &&& spans.skip(n) == stat_pieces(file, theme.background, theme)
        }),
{
    let spans = file_header_row(file, width, can_stage, theme).spans;
    let n = if can_stage { 5int } else { 4 };
    assert(spans.skip(n) =~= stat_pieces(file, theme.background, theme));
}

proof fn fitting_is_a_place(text: Seq<char>, available: int, from: int)
    requires
        0 <= from <= text.len(),
    ensures
        from <= fitting(text, available, from) <= text.len(),
    decreases text.len() - from,
{
    if from < text.len() && prefix_width(text, from + 1) <= available {
        fitting_is_a_place(text, available, from + 1);
    }
}

/// A text that does not fit is cut off at its end, and marked as such; one that fits is
/// shown as it is.
pub proof fn long_names_are_cut_off(text: Seq<char>, max: int)
    requires
        0 <= max,
    ensures
        text_width(text) <= max ==> truncated(text, max) == text,
        text_width(text) > max && max == 0 ==> truncated(text, max).len() == 0,
        text_width(text) > max && max > 0 ==> {
            let short = truncated(text, max);
            &&& short.len() > 0 && short.last() == '\u{2026}'
            &&& short.len() - 1 <= text.len() && short.drop_last() == text.take(short.len() - 1)
        },
{
    reveal_strlit("\u{2026}");
    let mark = "\u{2026}"@;
    let n = fitting(text, max - text_width(mark), 0);
    fitting_is_a_place(text, max - text_width(mark), 0);
    if text_width(text) > max && max > 0 {
        let short = truncated(text, max);
        if max <= text_width(mark) {
            assert(short.drop_last() =~= text.take(0));
        } else {
            assert(short.drop_last() =~= text.take(n));
        }
    }
}

proof fn break_is_behind_white_space(chars: Seq<StyledChar>, start: int, at: int, end: int)
    requires
        start <= at <= end,
    ensures
        ({
            let broken = break_end(chars, start, at, end);
            &&& broken < at ==> is_white(chars[broken - 1].value)
            &&& (exists|i: int| start <= i < at && is_white(#[trigger] chars[i].value))
                ==> start < broken <= at && is_white(chars[broken - 1].value) && forall|i: int|
                broken <= i < at ==> !is_white(#[trigger] chars[i].value)
            &&& (forall|i: int| start <= i < at ==> !is_white(#[trigger] chars[i].value))
                ==> broken == end
        }),
    decreases at - start,
{
    if at > start && !is_white(chars[at - 1].value) {
        break_is_behind_white_space(chars, start, at - 1, end);
        if exists|i: int| start <= i < at && is_white(#[trigger] chars[i].value) {
            let i = choose|i: int| start <= i < at && is_white(#[trigger] chars[i].value);
            assert(i < at - 1);
            assert(exists|j: int| start <= j < at - 1 && is_white(#[trigger] chars[j].value));
        }
    } else if at > start {
        assert(is_white(chars[at - 1].value));
    }
}

/// A row that is not the last is broken behind its last white space, if it holds any: words
/// are kept together where they fit.
pub proof fn rows_are_broken_between_words(chars: Seq<StyledChar>, start: int, max: int)
    requires
        0 <= start < chars.len(),
        max >= 1,
        ({
            let end = full_end(chars, start, start, max);
            end < chars.len() && columns(chars, start, end) <= max
        }),
    ensures
        ({
            let end = full_end(chars, start, start, max);
            let broken = row_end(chars, start, max);
            &&& (exists|i: int| start <= i < end && is_white(#[trigger] chars[i].value))
                ==> start < broken <= end && is_white(chars[broken - 1].value) && forall|i: int|
                broken <= i < end ==> !is_white(#[trigger] chars[i].value)
            &&& (forall|i: int| start <= i < end ==> !is_white(#[trigger] chars[i].value))
                ==> broken == end
        }),
{
    full_end_is_behind(chars, start, start, max);
    let end = full_end(chars, start, start, max);
    break_is_behind_white_space(chars, start, end, end);
}

proof fn full_end_is_behind(chars: Seq<StyledChar>, start: int, from: int, max: int)
    requires
        from <= chars.len(),
    ensures
        from <= full_end(chars, start, from, max),
    decreases chars.len() - from,
{
    if !row_full(chars, start, from, max) {
        full_end_is_behind(chars, start, from + 1, max);
    }
}

proof fn block_reaches(lines: Seq<LineView>, at: int)
    requires
        0 <= at <= lines.len(),
    ensures
        0 <= block_start(lines, at) <= at,
        forall|i: int| block_start(lines, at) <= i < at ==> changes_line((#[trigger] lines[i]).kind),
        block_start(lines, at) > 0 ==> !changes_line(lines[block_start(lines, at) - 1].kind),
    decreases at,
{
    if at > 0 && changes_line(lines[at - 1].kind) {
        block_reaches(lines, at - 1);
    }
}

proof fn block_ends(lines: Seq<LineView>, from: int)
    requires
        0 <= from <= lines.len(),
    ensures
        from <= block_end(lines, from) <= lines.len(),
        forall|i: int|
            from <= i < block_end(lines, from) ==> changes_line((#[trigger] lines[i]).kind),
        block_end(lines, from) < lines.len() ==> !changes_line(lines[block_end(lines, from)].kind),
    decreases lines.len() - from,
{
    if from < lines.len() && changes_line(lines[from].kind) {
        block_ends(lines, from + 1);
    }
}

/// Lines are compared within a block: all added and removed lines around a line, up to the
/// next line that is neither.
pub proof fn blocks_are_runs_of_changes(lines: Seq<LineView>, at: int, i: int)
    requires
        0 <= at < lines.len(),
        lines[at].kind == DiffLineKind::Added || lines[at].kind == DiffLineKind::Removed,
    ensures
        ({
            let (start, end) = (block_start(lines, at), block_end(lines, at));
            &&& 0 <= start <= at < end <= lines.len()
            &&& start <= i < end ==> lines[i].kind == DiffLineKind::Added || lines[i].kind
                == DiffLineKind::Removed
            &&& start > 0 ==> lines[start - 1].kind == DiffLineKind::Context || lines[start
                - 1].kind == DiffLineKind::Meta
            &&& end < lines.len() ==> lines[end].kind == DiffLineKind::Context || lines[end].kind
                == DiffLineKind::Meta
        }),
{
    block_reaches(lines, at);
    block_ends(lines, at);
}

/// The source of a side is passed up to the line that a hunk starts at, and no further.
pub proof fn sides_wait_for_their_hunk(side: SideView, target: u32)
    ensures
        side.next_line >= target ==> side.advanced_to(target) == side,
        side.next_line < target ==> side.advanced_to(target).next_line == target,
    decreases
            match side.source {
                Some(rest) => rest.len(),
                None => 0,
            },
{
    if side.next_line < target {
        if let Some(content) = side.source_line() {
            sides_wait_for_their_hunk(side.passed(content), target);
        }
    }
}

/// Each side waits for the line that a hunk starts at on that side.
pub proof fn hunk_starts_on_both_sides(sides: SidesView, hunk: HunkView)
    ensures
        sides.old.next_line < hunk.old_start ==> sides.before_hunk(hunk).old.next_line
            == hunk.old_start,
        sides.new.next_line < hunk.new_start ==> sides.before_hunk(hunk).new.next_line
            == hunk.new_start,
{
    sides_wait_for_their_hunk(sides.old, hunk.old_start);
    sides_wait_for_their_hunk(sides.new, hunk.new_start);
}

} // verus!
