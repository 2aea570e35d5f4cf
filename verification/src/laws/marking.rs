//! What is emphasized within a line, and what a selection takes.

use vstd::prelude::*;

use crate::app::navigation::{position_before, position_behind};
use crate::input::Rect;
use crate::line::{spans_text, RowView, SpanView};
use crate::model::{DiffLineKind, LineView};
use crate::rows::intraline::{
    all_char_count, changed_from, char_count, emphasized, in_ranges, kind_end, kind_positions,
    marked_from, pair_ranges, related, token_end, token_kind, tokens_from, CharRange,
    IntralineTokenKind, TokenFilter, TokenView,
};
use crate::rows::sidebar::TargetView;
use crate::rows::text::{
    cell, cells, cells_measured, char_width, joined, joined_keeps_cells, measured, StyledChar,
};
use crate::selection::{
    cell_columns, marked_row, selected_row, selected_rows, selected_style, sliced, styled_columns,
    SelectableView, SelectedColumns, SelectionDrag, SelectionPoint, SelectionRange, SelectionView,
};
use crate::style::{Modifier, Style};
use crate::theme::Theme;

verus! {

proof fn kind_end_is_the_end(s: Seq<char>, kind: IntralineTokenKind, from: int)
    requires
        0 <= from <= s.len(),
    ensures
        from <= kind_end(s, kind, from) <= s.len(),
        forall|i: int| from <= i < kind_end(s, kind, from) ==> token_kind(#[trigger] s[i]) == kind,
        kind_end(s, kind, from) < s.len() ==> token_kind(s[kind_end(s, kind, from)]) != kind,
    decreases s.len() - from,
{
    if from < s.len() && token_kind(s[from]) == kind {
        kind_end_is_the_end(s, kind, from + 1);
    }
}

proof fn tokens_are_of_one_kind(s: Seq<char>, start: int, k: int)
    requires
        0 <= start,
        0 <= k < tokens_from(s, start).len(),
    ensures
        ({
            let tokens = tokens_from(s, start);
            let token = tokens[k];
            &&& start <= token.start < token.end <= s.len()
            &&& forall|i: int|
                token.start <= i < token.end ==> token_kind(#[trigger] s[i]) == token.kind
            &&& token.kind == IntralineTokenKind::Punctuation ==> token.end == token.start + 1
            &&& token.kind != IntralineTokenKind::Punctuation && token.end < s.len() ==> token_kind(
                s[token.end],
            ) != token.kind
        }),
    decreases s.len() - start,
{
    if start < s.len() {
        let end = token_end(s, start);
        kind_end_is_the_end(s, token_kind(s[start]), start + 1);
        if k > 0 {
            tokens_are_of_one_kind(s, end, k - 1);
            assert(tokens_from(s, start)[k] == tokens_from(s, end)[k - 1]);
        }
    }
}

/// A token is a run of letters, digits and underscores, a run of white space, or a single
/// other character; runs are as long as they can be.
pub proof fn tokens_are_runs_of_one_kind(s: Seq<char>, k: int)
    requires
        0 <= k < tokens_from(s, 0).len(),
    ensures
        ({
            let token = tokens_from(s, 0)[k];
            &&& forall|i: int|
                token.start <= i < token.end ==> token_kind(#[trigger] s[i]) == token.kind
            &&& token.kind == IntralineTokenKind::Punctuation ==> token.end == token.start + 1
            &&& token.kind != IntralineTokenKind::Punctuation && token.end < s.len() ==> token_kind(
                s[token.end],
            ) != token.kind
        }),
        token_kind('_') == IntralineTokenKind::Word,
{
    tokens_are_of_one_kind(s, 0, k);
}

/// Whether tokens stand one behind the other.
pub open spec fn in_a_row(tokens: Seq<TokenView>) -> bool {
    &&& forall|k: int|
        0 <= k < tokens.len() ==> 0 <= (#[trigger] tokens[k]).start < tokens[k].end <= usize::MAX
    &&& forall|j: int, k: int|
        0 <= j < k < tokens.len() ==> (#[trigger] tokens[j]).end <= (#[trigger] tokens[k]).start
    &&& forall|j: int, k: int|
        0 <= j && k == j + 1 && k < tokens.len() ==> (#[trigger] tokens[j]).end == (
        #[trigger] tokens[k]).start
}

proof fn marked_is_next(marks: Seq<bool>, from: int)
    requires
        0 <= from <= marks.len(),
    ensures
        from <= marked_from(marks, from) <= marks.len(),
        forall|i: int| from <= i < marked_from(marks, from) ==> !(#[trigger] marks[i]),
        marked_from(marks, from) < marks.len() ==> marks[marked_from(marks, from)],
    decreases marks.len() - from,
{
    if from < marks.len() && !marks[from] {
        marked_is_next(marks, from + 1);
    }
}

proof fn ranges_from_are_the_changed_ones(
    tokens: Seq<TokenView>,
    marks: Seq<bool>,
    from: int,
    k: int,
    i: int,
)
    requires
        in_a_row(tokens),
        marks.len() == tokens.len(),
        0 <= from <= marks.len(),
        0 <= k < tokens.len(),
        tokens[k].start <= i < tokens[k].end,
    ensures
        in_ranges(changed_from(tokens, marks, from), i) <==> k >= from && !marks[k],
    decreases marks.len() - from,
{
    let ranges = changed_from(tokens, marks, from);
    if from < marks.len() {
        if marks[from] {
            ranges_from_are_the_changed_ones(tokens, marks, from + 1, k, i);
        } else {
            let end = marked_from(marks, from + 1);
            marked_is_next(marks, from + 1);
            ranges_from_are_the_changed_ones(tokens, marks, end, k, i);
            let rest = changed_from(tokens, marks, end);
            let first = CharRange {
                start: tokens[from].start as usize,
                end: tokens[end - 1].end as usize,
            };
            assert(ranges == seq![first] + rest);
            if in_ranges(ranges, i) {
                let r = choose|r: int|
                    0 <= r < ranges.len() && (#[trigger] ranges[r]).start <= i < ranges[r].end;
                if r > 0 {
                    assert(rest[r - 1] == ranges[r]);
                    assert(in_ranges(rest, i));
                } else {
                    if k < from {
                        assert(tokens[k].end <= tokens[from].start);
                    }
                    if k >= end {
                        assert(tokens[end - 1].end <= tokens[k].start);
                    }
                }
            }
            if k >= from && !marks[k] {
                if k < end {
                    if from < k {
                        assert(tokens[from].end <= tokens[k].start);
                    }
                    if k < end - 1 {
                        assert(tokens[k].end <= tokens[end - 1].start);
                    }
                    assert(ranges[0] == first);
                    assert(in_ranges(ranges, i));
                } else {
                    let r = choose|r: int|
                        0 <= r < rest.len() && (#[trigger] rest[r]).start <= i < rest[r].end;
                    assert(ranges[r + 1] == rest[r]);
                    assert(in_ranges(ranges, i));
                }
            }
        }
    }
}

/// The changed ranges of a line cover exactly the tokens that have no counterpart.
pub proof fn changed_ranges_cover_the_changed_tokens(
    tokens: Seq<TokenView>,
    marks: Seq<bool>,
    k: int,
    i: int,
)
    requires
        in_a_row(tokens),
        marks.len() == tokens.len(),
        0 <= k < tokens.len(),
        tokens[k].start <= i < tokens[k].end,
    ensures
        in_ranges(changed_from(tokens, marks, 0), i) <==> !marks[k],
{
    ranges_from_are_the_changed_ones(tokens, marks, 0, k, i);
}

/// Equal lines have nothing to emphasize.
pub proof fn equal_lines_are_not_emphasized(line: Seq<char>)
    ensures
        pair_ranges(line, line) is None,
{
}

/// Two lines are compared within where a good third of their word characters is common, or,
/// where they have no words, one half of all characters that are not white space.
pub proof fn compared_lines_have_much_in_common(
    a: Seq<TokenView>,
    b: Seq<TokenView>,
    left: Seq<bool>,
    right: Seq<bool>,
)
    ensures
        ({
            let words_a = all_char_count(a, TokenFilter::Words);
            let words_b = all_char_count(b, TokenFilter::Words);
            let words = if words_a > words_b { words_a } else { words_b };
            let common_a = char_count(a, left, TokenFilter::Words, a.len() as int);
            let common_b = char_count(b, right, TokenFilter::Words, b.len() as int);
            &&& words > 0 ==> (related(a, b, left, right) <==> 100 * common_a >= 35 * words && 100
                * common_b >= 35 * words)
        }),
        ({
            let all_a = all_char_count(a, TokenFilter::NonWhitespace);
            let all_b = all_char_count(b, TokenFilter::NonWhitespace);
            let all = if all_a > all_b { all_a } else { all_b };
            let common_a = char_count(a, left, TokenFilter::NonWhitespace, a.len() as int);
            let common_b = char_count(b, right, TokenFilter::NonWhitespace, b.len() as int);
            &&& all_char_count(a, TokenFilter::Words) == 0 && all_char_count(b, TokenFilter::Words)
                == 0 && all > 0 ==> (related(a, b, left, right) <==> 2 * common_a >= all && 2
                * common_b >= all)
        }),
{
}

proof fn restyled(chars: Seq<StyledChar>, marked: Seq<StyledChar>)
    requires
        measured(chars),
        marked.len() == chars.len(),
        forall|i: int|
            0 <= i < chars.len() ==> (#[trigger] marked[i]).value == chars[i].value
                && marked[i].width == chars[i].width,
    ensures
        cells(joined(marked)) == marked,
{
    assert forall|i: int| 0 <= i < marked.len() implies #[trigger] marked[i] == cell(
        marked[i].value,
        marked[i].style,
    ) by {
        assert(chars[i] == cell(chars[i].value, chars[i].style));
    }
    joined_keeps_cells(marked);
}

/// Emphasis makes exactly the characters in its ranges bold and changes nothing else.
pub proof fn emphasis_is_bold_in_its_ranges(spans: Seq<SpanView>, ranges: Seq<CharRange>, i: int)
    requires
        0 <= i < cells(spans).len(),
    ensures
        cells(emphasized(spans, ranges)).len() == cells(spans).len(),
        cells(emphasized(spans, ranges))[i].value == cells(spans)[i].value,
        in_ranges(ranges, i) ==> cells(emphasized(spans, ranges))[i].style == (Style {
            bold: true,
            ..cells(spans)[i].style
        }),
        !in_ranges(ranges, i) ==> cells(emphasized(spans, ranges))[i].style
            == cells(spans)[i].style,
{
    let chars = cells(spans);
    cells_measured(spans);
    if ranges.len() > 0 {
        let marked = Seq::new(
            chars.len(),
            |j: int|
                if in_ranges(ranges, j) {
                    StyledChar {
                        style: chars[j].style.add_modifier(Modifier::Bold),
                        ..chars[j]
                    }
                } else {
                    chars[j]
                },
        );
        restyled(chars, marked);
    }
}

proof fn positions_are_of_the_kind(lines: Seq<LineView>, kind: DiffLineKind, n: int)
    requires
        0 <= n <= lines.len() <= usize::MAX,
    ensures
        ({
            let found = kind_positions(lines, kind, n);
            &&& forall|r: int|
                0 <= r < found.len() ==> (#[trigger] found[r]) < n && lines[found[r] as int].kind
                    == kind
            &&& forall|q: int, r: int|
                0 <= q < r < found.len() ==> (#[trigger] found[q]) < (#[trigger] found[r])
            &&& forall|i: int|
                0 <= i < n && (#[trigger] lines[i]).kind == kind ==> found.contains(i as usize)
        }),
    decreases n,
{
    if n > 0 {
        positions_are_of_the_kind(lines, kind, n - 1);
        let before = kind_positions(lines, kind, n - 1);
        let found = kind_positions(lines, kind, n);
        assert forall|i: int| 0 <= i < n && (#[trigger] lines[i]).kind == kind implies found.contains(
            i as usize,
        ) by {
            if i < n - 1 {
                assert(before.contains(i as usize));
                let r = choose|r: int| 0 <= r < before.len() && before[r] == i as usize;
                assert(found[r] == i as usize);
            } else {
                assert(found[found.len() - 1] == i as usize);
            }
        }
    }
}

/// The removed lines of a block, and its added ones, are found each once and in order: the
/// ones that stand at the same place of the two lists are compared.
pub proof fn lines_of_a_kind_are_found_in_order(
    lines: Seq<LineView>,
    kind: DiffLineKind,
    i: int,
    q: int,
    r: int,
)
    requires
        lines.len() <= usize::MAX,
    ensures
        ({
            let found = kind_positions(lines, kind, lines.len() as int);
            &&& 0 <= r < found.len() ==> found[r] < lines.len() && lines[found[r] as int].kind
                == kind
            &&& 0 <= q < r < found.len() ==> found[q] < found[r]
            &&& 0 <= i < lines.len() && lines[i].kind == kind ==> found.contains(i as usize)
        }),
{
    positions_are_of_the_kind(lines, kind, lines.len() as int);
}

proof fn narrow_columns(text: Seq<char>, n: int)
    requires
        0 <= n <= text.len(),
        forall|i: int| 0 <= i < text.len() ==> char_width(#[trigger] text[i]) <= 1,
    ensures
        cell_columns(text, n) == n,
    decreases n,
{
    if n > 0 {
        narrow_columns(text, n - 1);
        assert(char_width(text[n - 1]) <= 1);
    }
}

proof fn sliced_start(text: Seq<char>, columns: SelectedColumns, n: int)
    requires
        0 <= n <= text.len(),
        columns.start_col <= columns.end_col,
        forall|i: int| 0 <= i < text.len() ==> char_width(#[trigger] text[i]) <= 1,
    ensures
        ({
            let start = if columns.start_col < n { columns.start_col as int } else { n };
            let end = if columns.end_col < n { columns.end_col as int } else { n };
            sliced(text, columns, n) == text.subrange(start, end)
        }),
    decreases n,
{
    let start = if columns.start_col < n { columns.start_col as int } else { n };
    let end = if columns.end_col < n { columns.end_col as int } else { n };
    if n > 0 {
        sliced_start(text, columns, n - 1);
        narrow_columns(text, n - 1);
        narrow_columns(text, n);
        assert(sliced(text, columns, n) =~= text.subrange(start, end));
    } else {
        assert(sliced(text, columns, n) =~= text.subrange(start, end));
    }
}

/// Of a row of ordinary characters a selection takes those in its columns.
pub proof fn selected_columns_are_taken(text: Seq<char>, columns: SelectedColumns)
    requires
        columns.start_col <= columns.end_col,
        forall|i: int| 0 <= i < text.len() ==> char_width(#[trigger] text[i]) <= 1,
    ensures
        columns.end_col <= text.len() ==> sliced(text, columns, text.len() as int)
            == text.subrange(columns.start_col as int, columns.end_col as int),
        columns.start_col <= text.len() < columns.end_col ==> sliced(
            text,
            columns,
            text.len() as int,
        ) == text.skip(columns.start_col as int),
        columns.start_col > text.len() ==> sliced(text, columns, text.len() as int).len() == 0,
{
    sliced_start(text, columns, text.len() as int);
    if columns.start_col <= text.len() < columns.end_col {
        assert(text.subrange(columns.start_col as int, text.len() as int) =~= text.skip(
            columns.start_col as int,
        ));
    }
}

/// A selection over several rows takes the first from where it starts, the last up to and
/// with where it ends, and those between whole; no other row is touched.
pub proof fn selection_takes_its_rows(range: SelectionRange, row: int, line_start: int)
    requires
        0 <= line_start < u16::MAX,
        range.start.row <= range.end.row,
        range.start.column < u16::MAX,
        range.end.column < u16::MAX,
        range.start.row == range.end.row ==> range.start.column <= range.end.column,
        line_start <= range.end.column,
    ensures
        row < range.start.row || row > range.end.row ==> range.row_columns(row, line_start) is None,
        row == range.start.row ==> (range.row_columns(row, line_start) matches Some(columns)
            && columns.start_col == range.start.column),
        row == range.end.row ==> (range.row_columns(row, line_start) matches Some(columns)
            && columns.end_col == range.end.column + 1),
        range.start.row < row < range.end.row ==> (range.row_columns(row, line_start) matches Some(
            columns,
        ) && columns.start_col == line_start && columns.end_col == u16::MAX),
{
}

/// The rows of a selection are taken one behind the other, each on a line of its own.
pub proof fn selected_rows_are_lines(lines: Seq<SelectableView>, range: SelectionRange, end: int)
    requires
        range.start.row <= end,
    ensures
        selected_rows(lines, range, range.start.row as int) == selected_row(
            lines,
            range,
            range.start.row as int,
        ),
        selected_rows(lines, range, end + 1) == selected_rows(lines, range, end) + seq!['\n']
            + selected_row(lines, range, end + 1),
{
    let before = selected_rows(lines, range, end);
    assert(before.push('\n') =~= before + seq!['\n']);
}

/// A press and release at the same place selects nothing and copies nothing; a drag selects
/// from where it began to where it ended, on the surface where it began.
pub proof fn drags_select_and_clicks_do_not(
    selection: SelectionView,
    drag: SelectionDrag,
    column: u16,
    row: u16,
)
    requires
        selection.drag == Some(drag),
    ensures
        ({
            let after = selection.drag_finished(column, row);
            let there = SelectionPoint { column, row };
            &&& after.drag is None
            &&& !drag.moved && drag.anchor == there ==> after.selected is None
                && after.clipboard_request == selection.clipboard_request
            &&& drag.anchor != there ==> after.selected is Some && after.selected->0.surface
                == drag.surface && (after.selected->0.start == drag.anchor
                && after.selected->0.end == there || after.selected->0.start == there
                && after.selected->0.end == drag.anchor)
            &&& after.selected is Some && selection.range_text(after.selected->0) is Some
                ==> after.clipboard_request == selection.range_text(after.selected->0)
            &&& after.lines == selection.lines
        }),
{
}

/// Marking a selection puts exactly the characters in its columns on the accent color.
pub proof fn selection_marks_its_columns(
    line: RowView,
    columns: SelectedColumns,
    theme: Theme,
    i: int,
)
    requires
        0 <= i < cells(line.spans).len(),
    ensures
        ({
            let chars = cells(line.spans);
            let after = cells(marked_row(line, columns, theme).spans);
            let inside = styled_columns(chars, i) < columns.end_col && styled_columns(chars, i + 1)
                > columns.start_col;
            &&& after.len() == chars.len() && after[i].value == chars[i].value
            &&& inside ==> after[i].style.bg == Some(theme.accent) && after[i].style.fg == Some(
                theme.on_accent,
            )
            &&& !inside ==> after[i].style == chars[i].style
        }),
{
    let chars = cells(line.spans);
    cells_measured(line.spans);
    let marked = Seq::new(
        chars.len(),
        |j: int|
            if columns.meets_columns(styled_columns(chars, j), styled_columns(chars, j + 1)) {
                StyledChar { style: selected_style(chars[j].style, theme), ..chars[j] }
            } else {
                chars[j]
            },
    );
    restyled(chars, marked);
}

/// Where the cursor is lost, moving down leads to the first file behind the selected one,
/// and moving up to the last before it.
pub proof fn lost_cursor_is_found_again(targets: Seq<TargetView>, selected: int, at: int)
    requires
        0 <= at < targets.len(),
        targets[at] is File,
    ensures
        targets[at]->File_0 > selected && (forall|i: int|
            0 <= i < at ==> !((#[trigger] targets[i]) is File && targets[i]->File_0 > selected))
            ==> position_behind(targets, selected, 0) == at,
        targets[at]->File_0 < selected && (forall|i: int|
            at < i < targets.len() ==> !((#[trigger] targets[i]) is File && targets[i]->File_0
                < selected)) ==> position_before(targets, selected, targets.len() as int) == at,
{
    if targets[at]->File_0 > selected && (forall|i: int|
        0 <= i < at ==> !((#[trigger] targets[i]) is File && targets[i]->File_0 > selected)) {
        first_behind(targets, selected, 0, at);
    }
    if targets[at]->File_0 < selected && (forall|i: int|
        at < i < targets.len() ==> !((#[trigger] targets[i]) is File && targets[i]->File_0
            < selected)) {
        last_before(targets, selected, targets.len() as int, at);
    }
}

proof fn first_behind(targets: Seq<TargetView>, selected: int, from: int, at: int)
    requires
        0 <= from <= at < targets.len(),
        targets[at] is File,
        targets[at]->File_0 > selected,
        forall|i: int|
            from <= i < at ==> !((#[trigger] targets[i]) is File && targets[i]->File_0 > selected),
    ensures
        position_behind(targets, selected, from) == at,
    decreases at - from,
{
    if from < at {
        assert(!(targets[from] is File && targets[from]->File_0 > selected));
        first_behind(targets, selected, from + 1, at);
    }
}

proof fn last_before(targets: Seq<TargetView>, selected: int, n: int, at: int)
    requires
        0 <= at < n <= targets.len(),
        targets[at] is File,
        targets[at]->File_0 < selected,
        forall|i: int|
            at < i < n ==> !((#[trigger] targets[i]) is File && targets[i]->File_0 < selected),
    ensures
        position_before(targets, selected, n) == at,
    decreases n,
{
    if at < n - 1 {
        assert(!(targets[n - 1] is File && targets[n - 1]->File_0 < selected));
        last_before(targets, selected, n - 1, at);
    }
}

/// Rows that are drawn can be selected where they are drawn: one row below the other, from
/// the left edge of their area on.
pub proof fn drawn_rows_can_be_selected(
    selection: SelectionView,
    area: Rect,
    rows: Seq<RowView>,
    i: int,
)
    requires
        0 <= i < rows.len(),
        area.y + i <= u16::MAX,
    ensures
        ({
            let lines = selection.recorded(area, rows).lines;
            let line = lines[selection.lines.len() + i];
            &&& lines.len() == selection.lines.len() + rows.len()
            &&& lines.take(selection.lines.len() as int) == selection.lines
            &&& line.surface == area && line.row == area.y + i
            &&& line.start_col == area.x && line.width == area.width
            &&& line.text == spans_text(rows[i].spans)
        }),
{
    let lines = selection.recorded(area, rows).lines;
    assert(lines.take(selection.lines.len() as int) =~= selection.lines);
}

/// A drag begins on the row that was drawn last where it begins; where there is none it
/// selects nothing.
pub proof fn drag_begins_on_the_row_on_top(
    selection: SelectionView,
    column: u16,
    row: u16,
    k: int,
)
    ensures
        0 <= k < selection.lines.len() && selection.lines[k].holds(column as int, row as int) && (
        forall|j: int|
            k < j < selection.lines.len() ==> !(#[trigger] selection.lines[j]).holds(
                column as int,
                row as int,
            )) ==> (selection.drag_begun(column, row).drag matches Some(drag) && drag.surface
            == selection.lines[k].surface && drag.anchor == (SelectionPoint { column, row })
            && !drag.moved),
        (forall|j: int|
            0 <= j < selection.lines.len() ==> !(#[trigger] selection.lines[j]).holds(
                column as int,
                row as int,
            )) ==> selection.drag_begun(column, row).drag is None,
        selection.drag_begun(column, row).selected is None,
{
    if 0 <= k < selection.lines.len() && selection.lines[k].holds(column as int, row as int) && (
    forall|j: int|
        k < j < selection.lines.len() ==> !(#[trigger] selection.lines[j]).holds(
            column as int,
            row as int,
        )) {
        row_on_top(selection, column as int, row as int, k, selection.lines.len() as int);
    }
    if forall|j: int|
        0 <= j < selection.lines.len() ==> !(#[trigger] selection.lines[j]).holds(
            column as int,
            row as int,
        ) {
        no_row_there(selection, column as int, row as int, selection.lines.len() as int);
    }
}

proof fn row_on_top(selection: SelectionView, column: int, row: int, k: int, n: int)
    requires
        0 <= k < n <= selection.lines.len(),
        selection.lines[k].holds(column, row),
        forall|j: int| k < j < n ==> !(#[trigger] selection.lines[j]).holds(column, row),
    ensures
        selection.row_at(column, row, n) == Some(selection.lines[k]),
    decreases n,
{
    if k < n - 1 {
        assert(!selection.lines[n - 1].holds(column, row));
        row_on_top(selection, column, row, k, n - 1);
    }
}

proof fn no_row_there(selection: SelectionView, column: int, row: int, n: int)
    requires
        0 <= n <= selection.lines.len(),
        forall|j: int|
            0 <= j < selection.lines.len() ==> !(#[trigger] selection.lines[j]).holds(column, row),
    ensures
        selection.row_at(column, row, n) is None,
    decreases n,
{
    if n > 0 {
        assert(!selection.lines[n - 1].holds(column, row));
        no_row_there(selection, column, row, n - 1);
    }
}

} // verus!
