//! Display widths, wrapping and joining of styled text.

use vstd::prelude::*;
use vstd::slice::slice_subrange;

use crate::line::{
    group_line_views, piece, row_views, span_views, styled_row, Line, RowView, Span, SpanView,
};
use crate::scroll_text::greatest;
use crate::style::{color_style, Style};
use crate::text::{chars_of, is_white};
use crate::theme::Theme;

verus! {

/// Number of terminal columns that a text takes, as `ratatui` measures it.
pub uninterp spec fn text_width(text: Seq<char>) -> usize;

/// Whether every character is a printable ASCII character.
pub open spec fn printable_ascii(text: Seq<char>) -> bool {
    forall|i: int| 0 <= i < text.len() ==> ' ' <= #[trigger] text[i] <= '~'
}

/// `ratatui::text::Span::width`: the Unicode width of the content of a span. It
/// depends on the content alone; each printable ASCII character takes one column.
#[verifier::external_body]
pub(crate) fn display_width(text: &str) -> (width: usize)
    ensures
        width == text_width(text@),
        printable_ascii(text@) ==> width == text@.len(),
{
    ratatui::text::Span::raw(text).width()
}

/// Number of terminal columns that a character takes on its own.
pub open spec fn char_width(c: char) -> usize {
    text_width(seq![c])
}

pub fn char_display_width(value: char) -> (width: usize)
    ensures
        width == char_width(value),
{
    let mut text = String::new();
    text.push(value);
    assert(text@ =~= seq![value]);
    display_width(text.as_str())
}

/// A character with its style and its width in columns.
#[derive(Debug, Clone, Copy, PartialEq, Eq, Structural)]
pub struct StyledChar {
    pub value: char,
    pub style: Style,
    pub width: usize,
}

/// A character in a style, with the width that it has on its own.
pub open spec fn cell(value: char, style: Style) -> StyledChar {
    StyledChar { value, style, width: char_width(value) }
}

/// The characters of a text in one style.
pub open spec fn text_cells(text: Seq<char>, style: Style) -> Seq<StyledChar> {
    text.map_values(|c: char| cell(c, style))
}

/// The characters of some spans, in order.
pub open spec fn cells(spans: Seq<SpanView>) -> Seq<StyledChar>
    decreases spans.len(),
{
    if spans.len() == 0 {
        seq![]
    } else {
        cells(spans.drop_last()) + text_cells(spans.last().content, spans.last().style)
    }
}

/// The values of some characters.
pub open spec fn values(chars: Seq<StyledChar>) -> Seq<char> {
    chars.map_values(|c: StyledChar| c.value)
}

pub fn styled_chars(spans: &Vec<Span>) -> (chars: Vec<StyledChar>)
    ensures
        chars@ == cells(span_views(spans@)),
{
    let mut chars: Vec<StyledChar> = Vec::new();
    let ghost all = span_views(spans@);
    let mut i: usize = 0;
    assert(all.take(0) =~= seq![]);
    while i < spans.len()
        invariant
            i <= spans@.len(),
            all == span_views(spans@),
            chars@ == cells(all.take(i as int)),
        decreases spans@.len() - i,
    {
        let style = spans[i].style;
        let content = chars_of(spans[i].content.as_str());
        let ghost done = chars@;
        let mut j: usize = 0;
        assert(done + text_cells(content@.take(0), style) =~= done);
        while j < content.len()
            invariant
                j <= content@.len(),
                chars@ == done + text_cells(content@.take(j as int), style),
            decreases content@.len() - j,
        {
            let value = content[j];
            let styled = StyledChar { value, style, width: char_display_width(value) };
            assert(styled == cell(value, style));
            assert(text_cells(content@.take(j + 1), style) =~= text_cells(
                content@.take(j as int),
                style,
            ).push(cell(value, style)));
            chars.push(styled);
            j = j + 1;
            assert(chars@ =~= done + text_cells(content@.take(j as int), style));
        }
        assert(content@.take(content@.len() as int) =~= content@);
        assert(all.take(i + 1).drop_last() =~= all.take(i as int));
        i = i + 1;
    }
    assert(all.take(all.len() as int) =~= all);
    chars
}

/// Columns that the characters `start..end` take.
pub open spec fn columns(chars: Seq<StyledChar>, start: int, end: int) -> int
    decreases end - start,
{
    if end <= start {
        0
    } else {
        columns(chars, start, end - 1) + chars[end - 1].width
    }
}

/// Whether a row that starts at `start` is full in front of `end`: nothing is
/// left, its columns are used up, or the next character does not fit any more.
pub open spec fn row_full(chars: Seq<StyledChar>, start: int, end: int, max: int) -> bool {
    let used = columns(chars, start, end);
    end >= chars.len() || used >= max || (used > 0 && used + chars[end].width > max)
}

/// The first position at or behind `from` at which the row is full.
pub open spec fn full_end(chars: Seq<StyledChar>, start: int, from: int, max: int) -> int
    decreases chars.len() - from,
{
    if row_full(chars, start, from, max) {
        from
    } else {
        full_end(chars, start, from + 1, max)
    }
}

/// The position behind the last white space in `start..end`, `end` without one.
pub open spec fn break_end(chars: Seq<StyledChar>, start: int, at: int, end: int) -> int
    decreases at - start,
{
    if at <= start {
        end
    } else if is_white(chars[at - 1].value) {
        at
    } else {
        break_end(chars, start, at - 1, end)
    }
}

/// Where a row that starts at `start` ends: at the end of the text, behind the
/// last white space that fits, or where the row is full. A character that is
/// wider than a row ends the row that it stands in.
pub open spec fn row_end(chars: Seq<StyledChar>, start: int, max: int) -> int {
    let end = full_end(chars, start, start, max);
    if end >= chars.len() {
        chars.len() as int
    } else if columns(chars, start, end) > max {
        end
    } else {
        break_end(chars, start, end, end)
    }
}

proof fn break_end_bounds(chars: Seq<StyledChar>, start: int, at: int, end: int)
    requires
        start < end,
        at <= end,
    ensures
        start < break_end(chars, start, at, end) <= end,
    decreases at - start,
{
    if at > start && !is_white(chars[at - 1].value) {
        break_end_bounds(chars, start, at - 1, end);
    }
}

proof fn full_end_bounds(chars: Seq<StyledChar>, start: int, from: int, max: int)
    requires
        from <= chars.len(),
    ensures
        from <= full_end(chars, start, from, max) <= chars.len(),
        row_full(chars, start, full_end(chars, start, from, max), max),
    decreases chars.len() - from,
{
    if !row_full(chars, start, from, max) {
        full_end_bounds(chars, start, from + 1, max);
    }
}

pub proof fn row_end_bounds(chars: Seq<StyledChar>, start: int, max: int)
    requires
        0 <= start < chars.len(),
        max >= 1,
    ensures
        start < row_end(chars, start, max) <= chars.len(),
{
    full_end_bounds(chars, start, start + 1, max);
    assert(columns(chars, start, start) == 0);
    let end = full_end(chars, start, start, max);
    assert(end == full_end(chars, start, start + 1, max));
    if end < chars.len() && columns(chars, start, end) <= max {
        break_end_bounds(chars, start, end, end);
    }
}

fn wrapped_row_end(chars: &Vec<StyledChar>, start: usize, max_width: usize) -> (end: usize)
    requires
        start < chars@.len(),
        max_width >= 1,
    ensures
        end == row_end(chars@, start as int, max_width as int),
        start < end <= chars@.len(),
{
    proof {
        row_end_bounds(chars@, start as int, max_width as int);
    }
    let mut width: usize = 0;
    let mut index: usize = start;
    let mut last_break: usize = start;
    while index < chars.len()
        invariant_except_break
            index > start ==> width < max_width,
            full_end(chars@, start as int, start as int, max_width as int) == full_end(
                chars@,
                start as int,
                index as int,
                max_width as int,
            ),
        invariant
            start <= index <= chars@.len(),
            start <= last_break <= index,
            max_width >= 1,
            width <= max_width,
            width == columns(chars@, start as int, index as int),
            last_break > start ==> is_white(chars@[last_break - 1].value),
            forall|p: int| last_break <= p < index ==> !is_white(#[trigger] chars@[p].value),
        ensures
            index == full_end(chars@, start as int, start as int, max_width as int),
        decreases chars@.len() - index,
    {
        let char_width = chars[index].width;
        if width > 0 && char_width > max_width - width {
            break;
        }
        if width == 0 && char_width > max_width {
            proof {
                full_end_steps(chars@, start as int, index as int, max_width as int);
                assert(columns(chars@, start as int, index + 1) == char_width);
                assert(full_end(chars@, start as int, index + 1, max_width as int) == index + 1);
            }
            return index + 1;
        }
        proof {
            full_end_steps(chars@, start as int, index as int, max_width as int);
        }
        width = width + char_width;
        index = index + 1;
        assert(width == columns(chars@, start as int, index as int));
        if chars[index - 1].value.is_whitespace() {
            last_break = index;
        }
        if width >= max_width {
            break;
        }
    }
    if index >= chars.len() {
        return chars.len();
    }
    proof {
        break_end_is(chars@, start as int, index as int, last_break as int, index as int);
    }
    if last_break > start {
        last_break
    } else {
        index
    }
}

/// A row that is not full goes on.
proof fn full_end_steps(chars: Seq<StyledChar>, start: int, from: int, max: int)
    requires
        !row_full(chars, start, from, max),
    ensures
        full_end(chars, start, from, max) == full_end(chars, start, from + 1, max),
{
}

/// The search for white space stops at the last one.
proof fn break_end_is(chars: Seq<StyledChar>, start: int, at: int, last: int, end: int)
    requires
        start <= last <= at,
        last > start ==> is_white(chars[last - 1].value),
        forall|p: int| last <= p < at ==> !is_white(#[trigger] chars[p].value),
    ensures
        break_end(chars, start, at, end) == if last > start { last } else { end },
    decreases at - start,
{
    if at > last {
        assert(!is_white(chars[at - 1].value));
        break_end_is(chars, start, at - 1, last, end);
    }
}

/// The characters as spans: neighbours of one style share a span.
pub open spec fn joined(chars: Seq<StyledChar>) -> Seq<SpanView>
    decreases chars.len(),
{
    if chars.len() == 0 {
        seq![]
    } else {
        with_char(joined(chars.drop_last()), chars.last().value, chars.last().style)
    }
}

/// The spans with one more character behind them.
pub open spec fn with_char(spans: Seq<SpanView>, value: char, style: Style) -> Seq<SpanView> {
    if spans.len() > 0 && spans.last().style == style {
        spans.drop_last().push(piece(spans.last().content.push(value), style))
    } else {
        spans.push(piece(seq![value], style))
    }
}

/// Appends a character, to the last span where that has its style.
pub fn push_styled_char(spans: &mut Vec<Span>, value: char, style: Style)
    ensures
        span_views(final(spans)@) == with_char(span_views(old(spans)@), value, style),
{
    broadcast use group_line_views;

    let count: usize = spans.len();
    if count > 0 && spans[count - 1].style == style {
        let ghost before = spans@;
        let ghost views = span_views(before);
        if let Some(last) = spans.pop() {
            assert(span_views(spans@) =~= views.drop_last());
            let mut span = last;
            span.content.push(value);
            spans.push(span);
        }
    } else {
        let mut content = String::new();
        content.push(value);
        assert(content@ =~= seq![value]);
        spans.push(Span { content, style });
    }
}

pub fn chars_to_spans(chars: &[StyledChar]) -> (spans: Vec<Span>)
    ensures
        span_views(spans@) == joined(chars@),
{
    broadcast use group_line_views;

    let mut spans: Vec<Span> = Vec::new();
    let mut i: usize = 0;
    assert(chars@.take(0) =~= seq![]);
    while i < chars.len()
        invariant
            i <= chars@.len(),
            span_views(spans@) == joined(chars@.take(i as int)),
        decreases chars@.len() - i,
    {
        push_styled_char(&mut spans, chars[i].value, chars[i].style);
        assert(chars@.take(i + 1).drop_last() =~= chars@.take(i as int));
        i = i + 1;
    }
    assert(chars@.take(chars@.len() as int) =~= chars@);
    spans
}

/// The rows of the characters from `start` on.
pub open spec fn rows_from(chars: Seq<StyledChar>, start: int, max: int) -> Seq<Seq<SpanView>>
    decreases chars.len() - start,
    via rows_from_decreases
{
    if start < 0 || start >= chars.len() || max < 1 {
        seq![]
    } else {
        let end = row_end(chars, start, max);
        seq![joined(chars.subrange(start, end))] + rows_from(chars, end, max)
    }
}

#[via_fn]
proof fn rows_from_decreases(chars: Seq<StyledChar>, start: int, max: int) {
    if 0 <= start < chars.len() && max >= 1 {
        row_end_bounds(chars, start, max);
    }
}

/// The rows of some spans wrapped at `max_width` columns, one column at least.
/// Text without characters is one empty row.
pub open spec fn wrapped(spans: Seq<SpanView>, max_width: int) -> Seq<Seq<SpanView>> {
    let chars = cells(spans);
    if chars.len() == 0 {
        seq![seq![]]
    } else {
        rows_from(chars, 0, greatest(max_width, 1))
    }
}

/// What some rows of spans hold.
pub open spec fn span_rows(rows: Seq<Vec<Span>>) -> Seq<Seq<SpanView>> {
    rows.map_values(|spans: Vec<Span>| span_views(spans@))
}

pub fn wrap_styled_spans(spans: &Vec<Span>, max_width: usize) -> (rows: Vec<Vec<Span>>)
    ensures
        span_rows(rows@) == wrapped(span_views(spans@), max_width as int),
        rows@.len() > 0,
{
    let max_width: usize = if max_width > 1 { max_width } else { 1 };
    let chars = styled_chars(spans);
    let mut rows: Vec<Vec<Span>> = Vec::new();
    if chars.len() == 0 {
        rows.push(Vec::new());
        assert(span_views(rows@[0]@) =~= seq![]);
        assert(span_rows(rows@) =~= seq![seq![]]);
        return rows;
    }
    let mut start: usize = 0;
    let ghost all = rows_from(chars@, 0, max_width as int);
    assert(span_rows(rows@) + all =~= all);
    while start < chars.len()
        invariant
            start <= chars@.len(),
            max_width >= 1,
            span_rows(rows@) + rows_from(chars@, start as int, max_width as int) == all,
            start > 0 ==> rows@.len() > 0,
        decreases chars@.len() - start,
    {
        let end: usize = wrapped_row_end(&chars, start, max_width);
        let ghost done = span_rows(rows@);
        rows.push(chars_to_spans(slice_subrange(chars.as_slice(), start, end)));
        proof {
            let first = joined(chars@.subrange(start as int, end as int));
            let rest = rows_from(chars@, end as int, max_width as int);
            assert(span_rows(rows@) =~= done.push(first));
            assert(done + (seq![first] + rest) =~= done.push(first) + rest);
        }
        start = end;
    }
    assert(span_rows(rows@) + rows_from(chars@, start as int, max_width as int) =~= span_rows(
        rows@,
    ));
    rows
}

/// A row for each of the given lists of spans, each in the given style.
pub open spec fn styled_rows(rows: Seq<Seq<SpanView>>, style: Style) -> Seq<RowView> {
    rows.map_values(|spans: Seq<SpanView>| RowView { spans, style })
}

/// A row wrapped at a width; each part keeps the style of the row.
pub open spec fn wrapped_row(line: RowView, width: int) -> Seq<RowView> {
    styled_rows(wrapped(line.spans, width), line.style)
}

pub fn wrap_line(line: Line, content_width: usize) -> (lines: Vec<Line>)
    ensures
        row_views(lines@) == wrapped_row(line@, content_width as int),
        lines@.len() > 0,
{
    broadcast use group_line_views;

    let style = line.style;
    let mut rows = wrap_styled_spans(&line.spans, content_width);
    let ghost all = span_rows(rows@);
    let ghost wanted = styled_rows(all, style);
    let mut lines: Vec<Line> = Vec::new();
    while rows.len() > 0
        invariant
            rows@.len() + lines@.len() == all.len(),
            all.len() > 0,
            wanted == styled_rows(all, style),
            span_rows(rows@) == all.take(rows@.len() as int),
            row_views(lines@) == wanted.skip(rows@.len() as int).reverse(),
        decreases rows@.len(),
    {
        let ghost before = rows@;
        if let Some(spans) = rows.pop() {
            assert(span_rows(rows@) =~= all.take(rows@.len() as int));
            assert(span_rows(before)[rows@.len() as int] == span_views(spans@));
            lines.push(Line { spans, style });
            assert(wanted.skip(rows@.len() as int).reverse() =~= wanted.skip(
                (rows@.len() + 1) as int,
            ).reverse().push(wanted[rows@.len() as int]));
        }
    }
    assert(wanted.skip(0) =~= wanted);
    reverse_lines(lines)
}

/// The lines in the opposite order.
fn reverse_lines(lines: Vec<Line>) -> (reversed: Vec<Line>)
    ensures
        row_views(reversed@) == row_views(lines@).reverse(),
        reversed@.len() == lines@.len(),
{
    broadcast use group_line_views;

    let mut lines = lines;
    let ghost all = row_views(lines@);
    let mut reversed: Vec<Line> = Vec::new();
    while lines.len() > 0
        invariant
            lines@.len() + reversed@.len() == all.len(),
            row_views(lines@) == all.take(lines@.len() as int),
            row_views(reversed@) == all.skip(lines@.len() as int).reverse(),
        decreases lines@.len(),
    {
        let ghost before = lines@;
        if let Some(line) = lines.pop() {
            assert(row_views(lines@) =~= all.take(lines@.len() as int));
            assert(row_views(before)[lines@.len() as int] == line@);
            reversed.push(line);
            assert(all.skip(lines@.len() as int).reverse() =~= all.skip(
                (lines@.len() + 1) as int,
            ).reverse().push(all[lines@.len() as int]));
        }
    }
    assert(all.skip(0) =~= all);
    reversed
}

/// A row of muted text.
pub fn muted_line(text: &str, theme: Theme) -> (line: Line)
    ensures
        line@ == styled_row(text@, color_style(theme.muted, theme.background)),
{
    Line::styled(text, color_style(theme.muted, theme.background))
}

/// A text with two spaces in place of each tab.
pub open spec fn tabs_expanded(text: Seq<char>) -> Seq<char>
    decreases text.len(),
{
    if text.len() == 0 {
        seq![]
    } else if text.last() == '\t' {
        tabs_expanded(text.drop_last()).push(' ').push(' ')
    } else {
        tabs_expanded(text.drop_last()).push(text.last())
    }
}

pub fn expand_tabs(text: &str) -> (expanded: String)
    ensures
        expanded@ == tabs_expanded(text@),
{
    let chars = chars_of(text);
    let mut expanded = String::new();
    let mut i: usize = 0;
    assert(chars@.take(0) =~= seq![]);
    while i < chars.len()
        invariant
            i <= chars@.len(),
            expanded@ == tabs_expanded(chars@.take(i as int)),
        decreases chars@.len() - i,
    {
        assert(chars@.take(i + 1).drop_last() =~= chars@.take(i as int));
        if chars[i] == '\t' {
            expanded.push(' ');
            expanded.push(' ');
        } else {
            expanded.push(chars[i]);
        }
        i = i + 1;
    }
    assert(chars@.take(chars@.len() as int) =~= chars@);
    expanded
}


/// Whether the characters have the widths that they have on their own.
pub open spec fn measured(chars: Seq<StyledChar>) -> bool {
    forall|i: int|
        0 <= i < chars.len() ==> #[trigger] chars[i] == cell(chars[i].value, chars[i].style)
}

/// The characters of spans are measured.
pub proof fn cells_measured(spans: Seq<SpanView>)
    ensures
        measured(cells(spans)),
    decreases spans.len(),
{
    if spans.len() > 0 {
        cells_measured(spans.drop_last());
    }
}

/// Joining characters into spans keeps each of them, with its style.
pub proof fn joined_keeps_cells(chars: Seq<StyledChar>)
    requires
        measured(chars),
    ensures
        cells(joined(chars)) == chars,
    decreases chars.len(),
{
    if chars.len() == 0 {
        assert(cells(joined(chars)) =~= chars);
    } else {
        let front = chars.drop_last();
        let spans = joined(front);
        let last = chars.last();
        assert forall|i: int| 0 <= i < front.len() implies #[trigger] front[i] == cell(
            front[i].value,
            front[i].style,
        ) by {
            assert(front[i] == chars[i]);
        }
        joined_keeps_cells(front);
        let grown = joined(chars);
        assert(last == cell(last.value, last.style)) by {
            assert(last == chars[chars.len() - 1]);
        }
        if spans.len() > 0 && spans.last().style == last.style {
            let content = spans.last().content;
            assert(grown.drop_last() =~= spans.drop_last());
            assert(text_cells(content.push(last.value), last.style) =~= text_cells(
                content,
                last.style,
            ).push(last));
            assert(cells(grown) =~= front.push(last));
        } else {
            assert(grown.drop_last() =~= spans);
            assert(text_cells(seq![last.value], last.style) =~= seq![last]);
            assert(cells(grown) =~= front.push(last));
        }
        assert(front.push(last) =~= chars);
    }
}

/// The characters of some rows, one row behind the other.
pub open spec fn cells_of_rows(rows: Seq<Seq<SpanView>>) -> Seq<StyledChar>
    decreases rows.len(),
{
    if rows.len() == 0 {
        seq![]
    } else {
        cells(rows[0]) + cells_of_rows(rows.skip(1))
    }
}

proof fn rows_from_keep_cells(chars: Seq<StyledChar>, start: int, max: int)
    requires
        measured(chars),
        0 <= start <= chars.len(),
        max >= 1,
    ensures
        cells_of_rows(rows_from(chars, start, max)) == chars.skip(start),
    decreases chars.len() - start,
{
    let rows = rows_from(chars, start, max);
    if start < chars.len() {
        let end = row_end(chars, start, max);
        row_end_bounds(chars, start, max);
        let part = chars.subrange(start, end);
        assert forall|i: int| 0 <= i < part.len() implies #[trigger] part[i] == cell(
            part[i].value,
            part[i].style,
        ) by {
            assert(part[i] == chars[start + i]);
        }
        joined_keeps_cells(part);
        rows_from_keep_cells(chars, end, max);
        assert(rows.skip(1) =~= rows_from(chars, end, max));
        assert(part + chars.skip(end) =~= chars.skip(start));
    } else {
        assert(cells_of_rows(rows) =~= chars.skip(start));
    }
}

/// Wrapping neither loses, adds, reorders nor restyles a character: the rows,
/// one behind the other, hold the characters of the spans.
pub proof fn wrapping_keeps_characters(spans: Seq<SpanView>, max_width: int)
    ensures
        cells_of_rows(wrapped(spans, max_width)) == cells(spans),
{
    let chars = cells(spans);
    cells_measured(spans);
    if chars.len() == 0 {
        let rows = wrapped(spans, max_width);
        assert(rows.skip(1) =~= seq![]);
        assert(cells_of_rows(rows.skip(1)) =~= seq![]);
        assert(cells(rows[0]) =~= seq![]);
        assert(cells_of_rows(rows) =~= chars);
    } else {
        rows_from_keep_cells(chars, 0, greatest(max_width, 1));
        assert(chars.skip(0) =~= chars);
    }
}

/// Whether characters fit into `max` columns. A character that is wider than the
/// row stands at its end, with nothing but characters of no width before it.
pub open spec fn fits(chars: Seq<StyledChar>, max: int) -> bool {
    let count = chars.len() as int;
    columns(chars, 0, count) <= max || (chars[count - 1].width > max && columns(
        chars,
        0,
        count - 1,
    ) == 0)
}

proof fn columns_of_part(chars: Seq<StyledChar>, start: int, end: int, n: int)
    requires
        0 <= start <= end <= chars.len(),
        0 <= n <= end - start,
    ensures
        columns(chars.subrange(start, end), 0, n) == columns(chars, start, start + n),
    decreases n,
{
    if n > 0 {
        columns_of_part(chars, start, end, n - 1);
    }
}

proof fn columns_grow(chars: Seq<StyledChar>, start: int, a: int, b: int)
    requires
        a <= b,
    ensures
        0 <= columns(chars, start, a) <= columns(chars, start, b),
    decreases b - start,
{
    if start < b {
        if a < b {
            columns_grow(chars, start, a, b - 1);
        } else {
            columns_grow(chars, start, a - 1, b - 1);
        }
    }
}

/// In front of the place where it is full a row has room for the next character,
/// unless that is the first one with a width.
proof fn full_end_room(chars: Seq<StyledChar>, start: int, from: int, max: int)
    requires
        0 <= start < from <= chars.len(),
        !row_full(chars, start, from - 1, max),
    ensures
        ({
            let end = full_end(chars, start, from, max);
            from <= end <= chars.len() && !row_full(chars, start, end - 1, max)
        }),
    decreases chars.len() - from,
{
    if !row_full(chars, start, from, max) {
        full_end_room(chars, start, from + 1, max);
    }
}

proof fn row_fits(chars: Seq<StyledChar>, start: int, max: int)
    requires
        0 <= start < chars.len(),
        max >= 1,
    ensures
        fits(chars.subrange(start, row_end(chars, start, max)), max),
{
    row_end_bounds(chars, start, max);
    let full = full_end(chars, start, start, max);
    let end = row_end(chars, start, max);
    assert(columns(chars, start, start) == 0);
    full_end_room(chars, start, start + 1, max);
    columns_grow(chars, start, start, full - 1);
    columns_of_part(chars, start, end, end - start);
    columns_of_part(chars, start, end, end - start - 1);
    if columns(chars, start, full) <= max {
        break_end_bounds(chars, start, full, full);
        columns_grow(chars, start, end, full);
    } else {
        assert(end == full);
    }
}

proof fn rows_from_fit(chars: Seq<StyledChar>, start: int, max: int, i: int)
    requires
        measured(chars),
        0 <= start <= chars.len(),
        max >= 1,
        0 <= i < rows_from(chars, start, max).len(),
    ensures
        fits(cells(rows_from(chars, start, max)[i]), max),
    decreases i,
{
    let end = row_end(chars, start, max);
    let part = chars.subrange(start, end);
    row_end_bounds(chars, start, max);
    if i == 0 {
        assert forall|k: int| 0 <= k < part.len() implies #[trigger] part[k] == cell(
            part[k].value,
            part[k].style,
        ) by {
            assert(part[k] == chars[start + k]);
        }
        joined_keeps_cells(part);
        row_fits(chars, start, max);
    } else {
        rows_from_fit(chars, end, max, i - 1);
    }
}

/// Every row of wrapped spans fits into the width, one column at least.
pub proof fn wrapped_rows_fit(spans: Seq<SpanView>, max_width: int, i: int)
    requires
        0 <= i < wrapped(spans, max_width).len(),
    ensures
        fits(cells(wrapped(spans, max_width)[i]), greatest(max_width, 1)),
{
    let chars = cells(spans);
    cells_measured(spans);
    if chars.len() == 0 {
        assert(wrapped(spans, max_width)[i] =~= seq![]);
        assert(cells(wrapped(spans, max_width)[i]) =~= seq![]);
    } else {
        rows_from_fit(chars, 0, greatest(max_width, 1), i);
    }
}

} // verus!
