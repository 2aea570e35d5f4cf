//! Mouse text selection over rendered terminal rows.
//!
//! The visible text surface is recorded after each draw. Mouse events then use
//! that surface for drag selection and copy text extraction.

use vstd::prelude::*;
use vstd::string::*;

use crate::input::{coordinate, Rect};
use crate::line::{row_views, spans_text, Line, RowView};
use crate::rows::text::{
    cell, cells, cells_measured, char_display_width, char_width, chars_to_spans, joined,
    joined_keeps_cells, styled_chars, values, StyledChar,
};
use crate::scroll_text::{greatest, least};
use crate::search::text_option;
use crate::style::{Modifier, Style};
use crate::text::{chars_of, push_spaces, spaces};
use crate::theme::Theme;

verus! {

#[derive(Debug)]
pub struct TextSelection {
    pub lines: Vec<SelectableLine>,
    pub drag: Option<SelectionDrag>,
    pub selected: Option<SelectionRange>,
    pub clipboard_request: Option<String>,
}

/// A recorded row of text on a surface.
#[derive(Debug, PartialEq, Eq)]
pub struct SelectableLine {
    pub surface: Rect,
    pub row: u16,
    pub start_col: u16,
    pub width: u16,
    pub text: String,
}

#[derive(Debug, Clone, Copy, PartialEq, Eq, Structural)]
pub struct SelectionPoint {
    pub column: u16,
    pub row: u16,
}

#[derive(Debug, Clone, Copy, PartialEq, Eq, Structural)]
pub struct SelectionDrag {
    pub surface: Rect,
    pub anchor: SelectionPoint,
    pub cursor: SelectionPoint,
    pub moved: bool,
}

#[derive(Debug, Clone, Copy, PartialEq, Eq, Structural)]
pub struct SelectionRange {
    pub surface: Rect,
    pub start: SelectionPoint,
    pub end: SelectionPoint,
}

/// Columns `start_col..end_col`.
#[derive(Debug, Clone, Copy, PartialEq, Eq, Structural)]
pub struct SelectedColumns {
    pub start_col: u16,
    pub end_col: u16,
}

/// What a [`TextSelection`] holds.
pub struct SelectionView {
    pub lines: Seq<SelectableView>,
    pub drag: Option<SelectionDrag>,
    pub selected: Option<SelectionRange>,
    pub clipboard_request: Option<Seq<char>>,
}

/// What a [`SelectableLine`] holds.
pub struct SelectableView {
    pub surface: Rect,
    pub row: u16,
    pub start_col: u16,
    pub width: u16,
    pub text: Seq<char>,
}

impl View for SelectableLine {
    type V = SelectableView;

    open spec fn view(&self) -> SelectableView {
        SelectableView {
            surface: self.surface,
            row: self.row,
            start_col: self.start_col,
            width: self.width,
            text: self.text@,
        }
    }
}

pub open spec fn selectable_views(lines: Seq<SelectableLine>) -> Seq<SelectableView> {
    lines.map_values(|line: SelectableLine| line@)
}

impl View for TextSelection {
    type V = SelectionView;

    open spec fn view(&self) -> SelectionView {
        SelectionView {
            lines: selectable_views(self.lines@),
            drag: self.drag,
            selected: self.selected,
            clipboard_request: text_option(self.clipboard_request),
        }
    }
}

/// Whether `a` stands before `b`, or they are the same: by row, then by column.
pub open spec fn not_behind(a: SelectionPoint, b: SelectionPoint) -> bool {
    a.row < b.row || (a.row == b.row && a.column <= b.column)
}

/// Columns from `start` to `end`, if there are any.
pub open spec fn columns_between(start: int, end: int) -> Option<SelectedColumns> {
    if start < end {
        Some(SelectedColumns { start_col: start as u16, end_col: end as u16 })
    } else {
        None
    }
}

impl SelectedColumns {
    pub open spec fn clipped(self, start: int, end: int) -> Option<SelectedColumns> {
        columns_between(greatest(self.start_col as int, start), least(self.end_col as int, end))
    }

    /// The columns counted from `start` on.
    pub open spec fn counted_from(self, start: int) -> SelectedColumns {
        SelectedColumns {
            start_col: greatest(self.start_col - start, 0) as u16,
            end_col: greatest(self.end_col - start, 0) as u16,
        }
    }

    pub open spec fn meets(self, other: SelectedColumns) -> bool {
        self.start_col < other.end_col && other.start_col < self.end_col
    }

    pub open spec fn meets_columns(self, start: int, end: int) -> bool {
        start < self.end_col && end > self.start_col
    }
}

impl SelectionRange {
    /// The range from the earlier of two points to the later one.
    pub open spec fn spanning(
        surface: Rect,
        a: SelectionPoint,
        b: SelectionPoint,
    ) -> SelectionRange {
        if not_behind(a, b) {
            SelectionRange { surface, start: a, end: b }
        } else {
            SelectionRange { surface, start: b, end: a }
        }
    }

    /// The selected columns of a row whose text starts at a column: all of them
    /// but for the first row, from the start point on, and for the last row, up
    /// to the end point.
    pub open spec fn row_columns(self, row: int, line_start: int) -> Option<SelectedColumns> {
        if row < self.start.row || row > self.end.row {
            None
        } else {
            columns_between(
                if row == self.start.row { self.start.column as int } else { line_start },
                if row == self.end.row {
                    coordinate(self.end.column + 1)
                } else {
                    u16::MAX as int
                },
            )
        }
    }

    /// The selected columns of a recorded row.
    pub open spec fn line_columns(self, row: int, line: SelectableView) -> Option<
        SelectedColumns,
    > {
        match self.row_columns(row, line.start_col as int) {
            Some(columns) => columns.clipped(line.start_col as int, line.end_col()),
            None => None,
        }
    }
}

/// Columns that the first `n` characters take where each takes one at least.
pub open spec fn cell_columns(text: Seq<char>, n: int) -> int
    decreases n,
{
    if n <= 0 {
        0
    } else {
        cell_columns(text, n - 1) + greatest(char_width(text[n - 1]) as int, 1)
    }
}

/// The characters among the first `n` that meet the columns.
pub open spec fn sliced(text: Seq<char>, columns: SelectedColumns, n: int) -> Seq<char>
    decreases n,
{
    if n <= 0 {
        seq![]
    } else {
        let before = sliced(text, columns, n - 1);
        if columns.meets_columns(cell_columns(text, n - 1), cell_columns(text, n)) {
            before.push(text[n - 1])
        } else {
            before
        }
    }
}

impl SelectableView {
    pub open spec fn end_col(self) -> int {
        coordinate(self.start_col + self.width)
    }

    pub open spec fn holds(self, column: int, row: int) -> bool {
        row == self.row && self.start_col <= column < self.end_col()
    }

    /// The characters of the row that meet the screen columns.
    pub open spec fn slice(self, columns: SelectedColumns) -> Seq<char> {
        sliced(self.text, columns.counted_from(self.start_col as int), self.text.len() as int)
    }
}

/// Whether the recorded row `k` shows selected text in a screen row: it has
/// selected columns there, and no row recorded later covers any of them.
pub open spec fn shows(
    lines: Seq<SelectableView>,
    range: SelectionRange,
    row: int,
    k: int,
) -> bool {
    &&& lines[k].surface == range.surface
    &&& lines[k].row == row
    &&& range.line_columns(row, lines[k]) is Some
    &&& !covered_later(lines, range, row, k)
}

pub open spec fn covered_later(
    lines: Seq<SelectableView>,
    range: SelectionRange,
    row: int,
    k: int,
) -> bool {
    exists|m: int| k < m < lines.len() && covers_selected(lines, range, row, k, m)
}

pub open spec fn covers_selected(
    lines: Seq<SelectableView>,
    range: SelectionRange,
    row: int,
    k: int,
    m: int,
) -> bool {
    &&& lines[m].surface == lines[k].surface
    &&& lines[m].row == lines[k].row
    &&& range.line_columns(row, lines[m]) is Some
    &&& range.line_columns(row, lines[k])->0.meets(range.line_columns(row, lines[m])->0)
}

/// Position among the first `n` of the given rows behind the last one that does
/// not start right of row `x`.
pub open spec fn place_of(
    lines: Seq<SelectableView>,
    shown: Seq<usize>,
    x: int,
    n: int,
) -> int
    decreases n,
{
    if n <= 0 {
        0
    } else if lines[shown[n - 1] as int].start_col <= lines[x].start_col {
        n
    } else {
        place_of(lines, shown, x, n - 1)
    }
}

/// The recorded rows before `n` that show selected text in a screen row, from
/// left to right, in the order of their recording where they start alike.
pub open spec fn shown_rows(
    lines: Seq<SelectableView>,
    range: SelectionRange,
    row: int,
    n: int,
) -> Seq<usize>
    decreases n,
{
    if n <= 0 {
        seq![]
    } else {
        let before = shown_rows(lines, range, row, n - 1);
        if shows(lines, range, row, n - 1) {
            before.insert(place_of(lines, before, n - 1, before.len() as int), (n - 1) as usize)
        } else {
            before
        }
    }
}

/// The selected text of the first `n` of the given rows, with spaces for the gaps
/// between them.
pub open spec fn shown_text(
    lines: Seq<SelectableView>,
    range: SelectionRange,
    row: int,
    shown: Seq<usize>,
    n: int,
) -> Seq<char>
    decreases n,
{
    if n <= 0 {
        seq![]
    } else {
        let line = lines[shown[n - 1] as int];
        let before = shown_text(lines, range, row, shown, n - 1);
        let gap = if n >= 2 {
            line.start_col - range.line_columns(row, lines[shown[n - 2] as int])->0.end_col
        } else {
            0
        };
        before + spaces(gap) + line.slice(range.line_columns(row, line)->0)
    }
}

/// The selected text of one screen row.
pub open spec fn selected_row(
    lines: Seq<SelectableView>,
    range: SelectionRange,
    row: int,
) -> Seq<char> {
    let shown = shown_rows(lines, range, row, lines.len() as int);
    shown_text(lines, range, row, shown, shown.len() as int)
}

/// The selected text of the screen rows from `start` to `end`, a line for each.
pub open spec fn selected_rows(
    lines: Seq<SelectableView>,
    range: SelectionRange,
    end: int,
) -> Seq<char>
    decreases end - range.start.row,
{
    if end <= range.start.row {
        selected_row(lines, range, range.start.row as int)
    } else {
        selected_rows(lines, range, end - 1).push('\n') + selected_row(lines, range, end)
    }
}

/// Whether any of the screen rows from the start of the range to `end` has
/// selected text.
pub open spec fn any_selected(
    lines: Seq<SelectableView>,
    range: SelectionRange,
    end: int,
) -> bool {
    exists|row: int|
        range.start.row <= row <= end && (#[trigger] selected_row(lines, range, row)).len() > 0
}

/// Columns that the first `n` styled characters take where each takes one at
/// least.
pub open spec fn styled_columns(chars: Seq<StyledChar>, n: int) -> int
    decreases n,
{
    if n <= 0 {
        0
    } else {
        styled_columns(chars, n - 1) + greatest(chars[n - 1].width as int, 1)
    }
}

/// The style of selected text.
pub open spec fn selected_style(base: Style, theme: Theme) -> Style {
    base.bg(theme.accent).fg(theme.on_accent).add_modifier(Modifier::Bold)
}

/// A row with the characters that meet the columns marked as selected.
pub open spec fn marked_row(line: RowView, columns: SelectedColumns, theme: Theme) -> RowView {
    let chars = cells(line.spans);
    RowView {
        spans: joined(
            Seq::new(
                chars.len(),
                |i: int|
                    if columns.meets_columns(
                        styled_columns(chars, i),
                        styled_columns(chars, i + 1),
                    ) {
                        StyledChar { style: selected_style(chars[i].style, theme), ..chars[i] }
                    } else {
                        chars[i]
                    },
            ),
        ),
        style: line.style,
    }
}

impl SelectionView {
    pub open spec fn initial() -> SelectionView {
        SelectionView { lines: seq![], drag: None, selected: None, clipboard_request: None }
    }

    /// The last recorded row before `n` that holds a cell.
    pub open spec fn row_at(self, column: int, row: int, n: int) -> Option<SelectableView>
        decreases n,
    {
        if n <= 0 {
            None
        } else if self.lines[n - 1].holds(column, row) {
            Some(self.lines[n - 1])
        } else {
            self.row_at(column, row, n - 1)
        }
    }

    pub open spec fn drag_begun(self, column: u16, row: u16) -> SelectionView {
        match self.row_at(column as int, row as int, self.lines.len() as int) {
            Some(line) => {
                let point = SelectionPoint { column, row };
                SelectionView {
                    drag: Some(
                        SelectionDrag {
                            surface: line.surface,
                            anchor: point,
                            cursor: point,
                            moved: false,
                        },
                    ),
                    selected: None,
                    ..self
                }
            },
            None => SelectionView { drag: None, selected: None, ..self },
        }
    }

    /// The drag with the cursor at a cell.
    pub open spec fn drag_to(drag: SelectionDrag, column: u16, row: u16) -> SelectionDrag {
        let cursor = SelectionPoint { column, row };
        SelectionDrag { moved: drag.moved || cursor != drag.anchor, cursor, ..drag }
    }

    pub open spec fn drag_finished(self, column: u16, row: u16) -> SelectionView {
        match self.drag {
            Some(drag) => {
                let done = SelectionView::drag_to(drag, column, row);
                let range = SelectionRange::spanning(done.surface, done.anchor, done.cursor);
                if done.moved {
                    SelectionView {
                        drag: None,
                        selected: Some(range),
                        clipboard_request: match self.range_text(range) {
                            Some(text) => Some(text),
                            None => self.clipboard_request,
                        },
                        ..self
                    }
                } else {
                    SelectionView { drag: None, selected: None, ..self }
                }
            },
            None => self,
        }
    }

    /// The text of a range, if there is any.
    pub open spec fn range_text(self, range: SelectionRange) -> Option<Seq<char>> {
        if range.start.row <= range.end.row && any_selected(
            self.lines,
            range,
            range.end.row as int,
        ) {
            Some(selected_rows(self.lines, range, range.end.row as int))
        } else {
            None
        }
    }

    /// The range that is marked: that of the drag once it has moved, else the
    /// finished one.
    pub open spec fn active_range(self) -> Option<SelectionRange> {
        match self.drag {
            Some(drag) if drag.moved => Some(
                SelectionRange::spanning(drag.surface, drag.anchor, drag.cursor),
            ),
            _ => self.selected,
        }
    }

    /// A visible row of a surface, marked as far as it is selected.
    pub open spec fn decorated(
        self,
        area: Rect,
        line: RowView,
        visible_row: int,
        theme: Theme,
    ) -> RowView {
        let row = coordinate(area.y + coordinate(visible_row));
        match self.active_range() {
            Some(range) if range.surface == area => match range.row_columns(row, area.x as int) {
                Some(columns) => match columns.clipped(
                    area.x as int,
                    coordinate(area.x + area.width),
                ) {
                    Some(inside) => marked_row(line, inside.counted_from(area.x as int), theme),
                    None => line,
                },
                None => line,
            },
            _ => line,
        }
    }

    /// The visible rows of a surface, recorded behind the earlier ones.
    pub open spec fn recorded(
        self,
        area: Rect,
        rows: Seq<RowView>,
    ) -> SelectionView {
        SelectionView {
            lines: self.lines + Seq::new(
                rows.len(),
                |i: int|
                    SelectableView {
                        surface: area,
                        row: coordinate(area.y + coordinate(i)) as u16,
                        start_col: area.x,
                        width: area.width,
                        text: spans_text(rows[i].spans),
                    },
            ),
            ..self
        }
    }

    /// With rows of a surface recorded as far as they are visible.
    pub open spec fn recorded_over(
        self,
        area: Rect,
        rows: Seq<RowView>,
        scroll: int,
        height: int,
    ) -> SelectionView {
        if area.width == 0 || area.height == 0 {
            self
        } else {
            self.recorded(area, seen(rows, scroll, least(height, area.height as int)))
        }
    }

    /// Rows of a surface with the selected text in them marked.
    pub open spec fn decorated_over(
        self,
        area: Rect,
        rows: Seq<RowView>,
        scroll: int,
        height: int,
        theme: Theme,
    ) -> Seq<RowView> {
        if area.width == 0 || area.height == 0 {
            rows
        } else {
            Seq::new(
                rows.len(),
                |i: int|
                    if scroll <= i < scroll + least(height, area.height as int) {
                        self.decorated(area, rows[i], i - scroll, theme)
                    } else {
                        rows[i]
                    },
            )
        }
    }
}

/// The rows from `scroll` on that a view of some height shows.
pub open spec fn seen(rows: Seq<RowView>, scroll: int, height: int) -> Seq<RowView> {
    rows.subrange(
        least(scroll, rows.len() as int),
        least(scroll + height, rows.len() as int),
    )
}

impl Default for TextSelection {
    fn default() -> (selection: Self)
        ensures
            selection@ == SelectionView::initial(),
    {
        let selection = TextSelection {
            lines: Vec::new(),
            drag: None,
            selected: None,
            clipboard_request: None,
        };
        assert(selection@.lines =~= seq![]);
        selection
    }
}

fn saturating_u16(value: usize) -> (small: u16)
    ensures
        small == coordinate(value as int),
{
    if value < u16::MAX as usize { value as u16 } else { u16::MAX }
}

impl TextSelection {
    pub fn begin_frame(&mut self)
        ensures
            final(self)@ == (SelectionView { lines: seq![], ..old(self)@ }),
    {
        self.lines.clear();
        assert(self@.lines =~= seq![]);
    }

    pub fn clear(&mut self)
        ensures
            final(self)@ == (SelectionView {
                drag: None,
                selected: None,
                clipboard_request: None,
                ..old(self)@
            }),
    {
        self.drag = None;
        self.selected = None;
        self.clipboard_request = None;
    }

    /// Records the visible rows of a surface and marks the selected text in them.
    pub fn decorate_visible_lines(
        &mut self,
        area: Rect,
        lines: Vec<Line>,
        line_scroll: usize,
        visible_height: usize,
        theme: Theme,
    ) -> (decorated: Vec<Line>)
        ensures
            area.width == 0 || area.height == 0 ==> final(self)@ == old(self)@ && decorated
                == lines,
            area.width > 0 && area.height > 0 ==> ({
                let height = least(visible_height as int, area.height as int);
                &&& final(self)@ == old(self)@.recorded(
                    area,
                    seen(row_views(lines@), line_scroll as int, height),
                )
                &&& decorated@.len() == lines@.len()
                &&& forall|i: int|
                    0 <= i < lines@.len() ==> (#[trigger] decorated@[i])@ == if line_scroll <= i
                        < line_scroll + height {
                        old(self)@.decorated(area, lines@[i]@, i - line_scroll, theme)
                    } else {
                        lines@[i]@
                    }
            }),
    {
        if area.width == 0 || area.height == 0 {
            return lines;
        }
        let height: usize = if visible_height < area.height as usize {
            visible_height
        } else {
            area.height as usize
        };
        self.record_visible_lines(area, &lines, line_scroll, height);
        self.highlight_visible_lines(area, lines, line_scroll, height, theme)
    }

    pub fn begin_drag(&mut self, column: u16, row: u16) -> (begun: bool)
        ensures
            final(self)@ == old(self)@.drag_begun(column, row),
            begun == (final(self)@.drag is Some),
    {
        match self.selectable_surface_at(column, row) {
            Some(surface) => {
                let point = SelectionPoint { column, row };
                self.drag = Some(
                    SelectionDrag { surface, anchor: point, cursor: point, moved: false },
                );
                self.selected = None;
                true
            },
            None => {
                self.drag = None;
                self.selected = None;
                false
            },
        }
    }

    pub fn update_drag(&mut self, column: u16, row: u16) -> (updated: bool)
        ensures
            updated == (old(self)@.drag is Some),
            final(self)@ == (match old(self)@.drag {
                Some(drag) => (SelectionView {
                    drag: Some(SelectionView::drag_to(drag, column, row)),
                    ..old(self)@
                }),
                None => old(self)@,
            }),
    {
        match self.drag {
            Some(drag) => {
                let cursor = SelectionPoint { column, row };
                let moved = drag.moved || cursor != drag.anchor;
                self.drag = Some(SelectionDrag { moved, cursor, ..drag });
                true
            },
            None => false,
        }
    }

    pub fn finish_drag(&mut self, column: u16, row: u16) -> (selected: bool)
        ensures
            final(self)@ == old(self)@.drag_finished(column, row),
            selected == (match old(self)@.drag {
                Some(drag) => SelectionView::drag_to(drag, column, row).moved,
                None => false,
            }),
    {
        match self.drag {
            Some(drag) => {
                self.drag = None;
                let cursor = SelectionPoint { column, row };
                let moved = drag.moved || cursor != drag.anchor;
                if !moved {
                    self.selected = None;
                    return false;
                }
                let range = SelectionRange::between(drag.surface, drag.anchor, cursor);
                self.selected = Some(range);
                if let Some(text) = self.text_for_range(range) {
                    self.clipboard_request = Some(text);
                }
                true
            },
            None => false,
        }
    }

    pub fn take_clipboard_request(&mut self) -> (request: Option<String>)
        ensures
            text_option(request) == old(self)@.clipboard_request,
            final(self)@ == (SelectionView { clipboard_request: None, ..old(self)@ }),
    {
        self.clipboard_request.take()
    }

    pub fn selected_text(&self) -> (text: Option<String>)
        ensures
            text_option(text) == (match self@.selected {
                Some(range) => self@.range_text(range),
                None => None,
            }),
    {
        match self.selected {
            Some(range) => self.text_for_range(range),
            None => None,
        }
    }

    fn record_visible_lines(
        &mut self,
        area: Rect,
        lines: &Vec<Line>,
        line_scroll: usize,
        visible_height: usize,
    )
        ensures
            final(self)@ == old(self)@.recorded(
                area,
                seen(row_views(lines@), line_scroll as int, visible_height as int),
            ),
    {
        let ghost rows = seen(row_views(lines@), line_scroll as int, visible_height as int);
        let ghost before = self@;
        let ghost wanted = before.recorded(area, rows);
        let mut visible_row: usize = 0;
        assert(before.lines =~= wanted.lines.take(before.lines.len() as int));
        while visible_row < visible_height && line_scroll < lines.len() && visible_row < lines.len()
            - line_scroll
            invariant
                visible_row <= rows.len(),
                wanted == before.recorded(area, rows),
                rows == seen(row_views(lines@), line_scroll as int, visible_height as int),
                self@.lines == wanted.lines.take(before.lines.len() + visible_row),
                self@ == (SelectionView { lines: self@.lines, ..before }),
            decreases visible_height - visible_row,
        {
            let line = SelectableLine {
                surface: area,
                row: area.y.saturating_add(saturating_u16(visible_row)),
                start_col: area.x,
                width: area.width,
                text: lines[line_scroll + visible_row].text(),
            };
            let ghost shown = self@.lines;
            assert(rows[visible_row as int] == lines@[line_scroll + visible_row]@);
            assert(wanted.lines[before.lines.len() + visible_row] == line@);
            self.lines.push(line);
            assert(self@.lines =~= shown.push(line@));
            visible_row = visible_row + 1;
            assert(self@.lines =~= wanted.lines.take(before.lines.len() + visible_row));
        }
        assert(visible_row == rows.len());
        assert(wanted.lines.take(wanted.lines.len() as int) =~= wanted.lines);
    }

    fn highlight_visible_lines(
        &self,
        area: Rect,
        lines: Vec<Line>,
        line_scroll: usize,
        visible_height: usize,
        theme: Theme,
    ) -> (decorated: Vec<Line>)
        ensures
            decorated@.len() == lines@.len(),
            forall|i: int|
                0 <= i < lines@.len() ==> (#[trigger] decorated@[i])@ == if line_scroll <= i
                    < line_scroll + visible_height {
                    self@.decorated(area, lines@[i]@, i - line_scroll, theme)
                } else {
                    lines@[i]@
                },
    {
        let range = match self.active_range() {
            Some(range) => range,
            None => {
                return lines;
            },
        };
        if range.surface != area {
            return lines;
        }
        let ghost plain = lines@;
        let mut lines = lines;
        let mut visible_row: usize = 0;
        while visible_row < visible_height && line_scroll < lines.len() && visible_row < lines.len()
            - line_scroll
            invariant
                visible_row <= visible_height,
                lines@.len() == plain.len(),
                visible_row == 0 || line_scroll + visible_row <= lines@.len(),
                self@.active_range() == Some(range),
                range.surface == area,
                forall|i: int|
                    0 <= i < plain.len() ==> (#[trigger] lines@[i])@ == if line_scroll <= i
                        < line_scroll + visible_row {
                        self@.decorated(area, plain[i]@, i - line_scroll, theme)
                    } else {
                        plain[i]@
                    },
            decreases visible_height - visible_row,
        {
            let index: usize = line_scroll + visible_row;
            let row: u16 = area.y.saturating_add(saturating_u16(visible_row));
            let columns = match range.columns_for_row(row, area.x) {
                Some(columns) => columns.relative_to(area.x, area.width),
                None => None,
            };
            assert(lines@[index as int]@ == plain[index as int]@);
            if let Some(columns) = columns {
                let marked = highlight_line_selection(&lines[index], columns, theme);
                lines.set(index, marked);
            }
            visible_row = visible_row + 1;
        }
        lines
    }

    fn active_range(&self) -> (range: Option<SelectionRange>)
        ensures
            range == self@.active_range(),
    {
        if let Some(drag) = self.drag {
            if drag.moved {
                return Some(SelectionRange::between(drag.surface, drag.anchor, drag.cursor));
            }
        }
        self.selected
    }

    /// Surface of the last recorded row that holds a cell.
    fn selectable_surface_at(&self, column: u16, row: u16) -> (surface: Option<Rect>)
        ensures
            surface == (match self@.row_at(column as int, row as int, self@.lines.len() as int) {
                Some(line) => Some(line.surface),
                None => None,
            }),
    {
        let mut n: usize = self.lines.len();
        while n > 0
            invariant
                n <= self.lines@.len(),
                self@.row_at(column as int, row as int, self@.lines.len() as int) == self@.row_at(
                    column as int,
                    row as int,
                    n as int,
                ),
            decreases n,
        {
            if self.lines[n - 1].contains(column, row) {
                return Some(self.lines[n - 1].surface);
            }
            n = n - 1;
        }
        None
    }

    fn text_for_range(&self, range: SelectionRange) -> (text: Option<String>)
        ensures
            text_option(text) == self@.range_text(range),
    {
        if range.start.row > range.end.row {
            return None;
        }
        let mut row: u16 = range.start.row;
        let mut text = self.selected_row_text(range, row);
        let mut has_text = !text.as_str().is_empty();
        assert(has_text ==> selected_row(self@.lines, range, row as int).len() > 0);
        while row < range.end.row
            invariant
                range.start.row <= row <= range.end.row,
                text@ == selected_rows(self@.lines, range, row as int),
                has_text == any_selected(self@.lines, range, row as int),
            decreases range.end.row - row,
        {
            row = row + 1;
            text.push('\n');
            let row_text = self.selected_row_text(range, row);
            if !row_text.as_str().is_empty() {
                assert(selected_row(self@.lines, range, row as int).len() > 0);
                has_text = true;
            }
            text.append(row_text.as_str());
        }
        if has_text { Some(text) } else { None }
    }

    fn selected_row_text(&self, range: SelectionRange, row: u16) -> (text: String)
        ensures
            text@ == selected_row(self@.lines, range, row as int),
    {
        let shown = self.visible_lines_for_row(row, range);
        let mut text = String::new();
        let mut last_end_col: u16 = 0;
        let mut n: usize = 0;
        while n < shown.len()
            invariant
                n <= shown@.len(),
                forall|i: int|
                    0 <= i < shown@.len() ==> #[trigger] shown@[i] < self.lines@.len()
                        && range.line_columns(row as int, self@.lines[shown@[i] as int]) is Some,
                text@ == shown_text(self@.lines, range, row as int, shown@, n as int),
                n > 0 ==> last_end_col == range.line_columns(
                    row as int,
                    self@.lines[shown@[n - 1] as int],
                )->0.end_col,
            decreases shown@.len() - n,
        {
            let line = &self.lines[shown[n]];
            assert(line@ == self@.lines[shown@[n as int] as int]);
            if let Some(columns) = range.columns_for_line(row, line) {
                let gap: u16 = if n > 0 { line.start_col.saturating_sub(last_end_col) } else { 0 };
                let ghost before = text@;
                push_spaces(&mut text, gap as usize);
                text.append(line.slice(columns).as_str());
                last_end_col = columns.end_col;
            }
            n = n + 1;
        }
        text
    }

    fn visible_lines_for_row(&self, row: u16, range: SelectionRange) -> (shown: Vec<usize>)
        ensures
            shown@ == shown_rows(self@.lines, range, row as int, self@.lines.len() as int),
            forall|i: int|
                0 <= i < shown@.len() ==> #[trigger] shown@[i] < self.lines@.len()
                    && range.line_columns(row as int, self@.lines[shown@[i] as int]) is Some,
    {
        let mut shown: Vec<usize> = Vec::new();
        let mut k: usize = 0;
        while k < self.lines.len()
            invariant
                k <= self.lines@.len(),
                shown@ == shown_rows(self@.lines, range, row as int, k as int),
                forall|i: int|
                    0 <= i < shown@.len() ==> #[trigger] shown@[i] < k && range.line_columns(
                        row as int,
                        self@.lines[shown@[i] as int],
                    ) is Some,
            decreases self.lines@.len() - k,
        {
            if self.line_shows(k, row, range) {
                let mut place: usize = shown.len();
                while place > 0 && self.lines[shown[place - 1]].start_col
                    > self.lines[k].start_col
                    invariant
                        place <= shown@.len(),
                        k < self.lines@.len(),
                        forall|i: int| 0 <= i < shown@.len() ==> #[trigger] shown@[i] < k,
                        place_of(self@.lines, shown@, k as int, shown@.len() as int) == place_of(
                            self@.lines,
                            shown@,
                            k as int,
                            place as int,
                        ),
                    decreases place,
                {
                    place = place - 1;
                }
                shown.insert(place, k);
            }
            k = k + 1;
        }
        shown
    }

    fn line_shows(&self, k: usize, row: u16, range: SelectionRange) -> (visible: bool)
        requires
            k < self.lines@.len(),
        ensures
            visible == shows(self@.lines, range, row as int, k as int),
    {
        let line = &self.lines[k];
        if line.surface != range.surface || line.row != row {
            return false;
        }
        match range.columns_for_line(row, line) {
            Some(columns) => !self.has_later_overlap(k, range, columns),
            None => false,
        }
    }

    fn has_later_overlap(
        &self,
        index: usize,
        range: SelectionRange,
        columns: SelectedColumns,
    ) -> (overlaps: bool)
        requires
            index < self.lines@.len(),
            range.line_columns(self@.lines[index as int].row as int, self@.lines[index as int])
                == Some(columns),
        ensures
            overlaps == covered_later(
                self@.lines,
                range,
                self@.lines[index as int].row as int,
                index as int,
            ),
    {
        let ghost row = self@.lines[index as int].row as int;
        let surface = self.lines[index].surface;
        let line_row: u16 = self.lines[index].row;
        let count: usize = self.lines.len();
        let mut m: usize = index + 1;
        while m < count
            invariant
                count == self.lines@.len(),
                index < m <= self.lines@.len(),
                index < self.lines@.len(),
                row == line_row,
                line_row == self@.lines[index as int].row,
                surface == self@.lines[index as int].surface,
                range.line_columns(row, self@.lines[index as int]) == Some(columns),
                forall|j: int|
                    index < j < m ==> !covers_selected(self@.lines, range, row, index as int, j),
            decreases self.lines@.len() - m,
        {
            let later = &self.lines[m];
            assert(later@ == self@.lines[m as int]);
            if later.surface == surface && later.row == line_row {
                if let Some(later_columns) = range.columns_for_line(line_row, later) {
                    if columns.overlaps(later_columns) {
                        assert(covers_selected(self@.lines, range, row, index as int, m as int));
                        return true;
                    }
                }
            }
            m = m + 1;
        }
        false
    }
}

impl SelectableLine {
    fn contains(&self, column: u16, row: u16) -> (inside: bool)
        ensures
            inside == self@.holds(column as int, row as int),
    {
        row == self.row && column >= self.start_col && column < self.start_col.saturating_add(
            self.width,
        )
    }

    fn end_col(&self) -> (end: u16)
        ensures
            end == self@.end_col(),
    {
        self.start_col.saturating_add(self.width)
    }

    fn slice(&self, columns: SelectedColumns) -> (text: String)
        ensures
            text@ == self@.slice(columns),
    {
        text_by_display_columns(self.text.as_str(), columns.offset_from(self.start_col))
    }
}

impl SelectedColumns {
    fn new(start_col: u16, end_col: u16) -> (columns: Option<Self>)
        ensures
            columns == columns_between(start_col as int, end_col as int),
    {
        if start_col < end_col { Some(SelectedColumns { start_col, end_col }) } else { None }
    }

    fn clipped_to(self, start_col: u16, end_col: u16) -> (columns: Option<Self>)
        ensures
            columns == self.clipped(start_col as int, end_col as int),
    {
        SelectedColumns::new(
            if self.start_col > start_col { self.start_col } else { start_col },
            if self.end_col < end_col { self.end_col } else { end_col },
        )
    }

    fn relative_to(self, start_col: u16, width: u16) -> (columns: Option<Self>)
        ensures
            columns == (match self.clipped(
                start_col as int,
                coordinate(start_col + width),
            ) {
                Some(inside) => Some(inside.counted_from(start_col as int)),
                None => None,
            }),
    {
        match self.clipped_to(start_col, start_col.saturating_add(width)) {
            Some(columns) => Some(columns.offset_from(start_col)),
            None => None,
        }
    }

    fn offset_from(self, start_col: u16) -> (columns: Self)
        ensures
            columns == self.counted_from(start_col as int),
    {
        SelectedColumns {
            start_col: self.start_col.saturating_sub(start_col),
            end_col: self.end_col.saturating_sub(start_col),
        }
    }

    fn overlaps(self, other: Self) -> (overlap: bool)
        ensures
            overlap == self.meets(other),
    {
        self.start_col < other.end_col && other.start_col < self.end_col
    }

    fn overlaps_display_range(self, start_col: usize, end_col: usize) -> (overlap: bool)
        ensures
            overlap == self.meets_columns(start_col as int, end_col as int),
    {
        start_col < self.end_col as usize && end_col > self.start_col as usize
    }
}

impl SelectionRange {
    fn between(surface: Rect, left: SelectionPoint, right: SelectionPoint) -> (range: Self)
        ensures
            range == SelectionRange::spanning(surface, left, right),
    {
        if left.row < right.row || (left.row == right.row && left.column <= right.column) {
            SelectionRange { surface, start: left, end: right }
        } else {
            SelectionRange { surface, start: right, end: left }
        }
    }

    fn columns_for_row(self, row: u16, line_start_col: u16) -> (columns: Option<SelectedColumns>)
        ensures
            columns == self.row_columns(row as int, line_start_col as int),
    {
        if row < self.start.row || row > self.end.row {
            return None;
        }
        let start_col: u16 = if row == self.start.row { self.start.column } else { line_start_col };
        let end_col: u16 = if row == self.end.row {
            self.end.column.saturating_add(1)
        } else {
            u16::MAX
        };
        SelectedColumns::new(start_col, end_col)
    }

    fn columns_for_line(self, row: u16, line: &SelectableLine) -> (columns: Option<
        SelectedColumns,
    >)
        ensures
            columns == self.line_columns(row as int, line@),
    {
        match self.columns_for_row(row, line.start_col) {
            Some(columns) => columns.clipped_to(line.start_col, line.end_col()),
            None => None,
        }
    }
}

/// A column count that stays at the largest value once it reached it meets the
/// same columns, which are small.
fn widen(column: usize, width: usize) -> (end: usize)
    ensures
        end == least(column + greatest(width as int, 1), usize::MAX as int),
{
    column.saturating_add(if width > 1 { width } else { 1 })
}

fn highlight_line_selection(line: &Line, columns: SelectedColumns, theme: Theme) -> (marked: Line)
    ensures
        marked@ == marked_row(line@, columns, theme),
{
    let mut chars = styled_chars(&line.spans);
    let ghost plain = chars@;
    let mut display_col: usize = 0;
    let mut i: usize = 0;
    while i < chars.len()
        invariant
            i <= chars@.len(),
            chars@.len() == plain.len(),
            display_col == least(styled_columns(plain, i as int), usize::MAX as int),
            forall|j: int| i <= j < plain.len() ==> chars@[j] == plain[j],
            forall|j: int|
                0 <= j < i ==> #[trigger] chars@[j] == if columns.meets_columns(
                    styled_columns(plain, j),
                    styled_columns(plain, j + 1),
                ) {
                    (StyledChar { style: selected_style(plain[j].style, theme), ..plain[j] })
                } else {
                    plain[j]
                },
        decreases chars@.len() - i,
    {
        let character = chars[i];
        let char_start: usize = display_col;
        let char_end: usize = widen(char_start, character.width);
        display_col = char_end;
        if columns.overlaps_display_range(char_start, char_end) {
            let style = character.style.bg(theme.accent).fg(theme.on_accent).add_modifier(
                Modifier::Bold,
            );
            chars.set(i, StyledChar { style, ..character });
        }
        i = i + 1;
    }
    assert(chars@ =~= Seq::new(
        plain.len(),
        |i: int|
            if columns.meets_columns(styled_columns(plain, i), styled_columns(plain, i + 1)) {
                StyledChar { style: selected_style(plain[i].style, theme), ..plain[i] }
            } else {
                plain[i]
            },
    ));
    Line { spans: chars_to_spans(chars.as_slice()), style: line.style }
}

fn text_by_display_columns(text: &str, columns: SelectedColumns) -> (slice: String)
    ensures
        slice@ == sliced(text@, columns, text@.len() as int),
{
    let chars = chars_of(text);
    let mut output = String::new();
    let mut display_col: usize = 0;
    let mut i: usize = 0;
    while i < chars.len()
        invariant
            i <= chars@.len(),
            chars@ == text@,
            display_col == least(cell_columns(text@, i as int), usize::MAX as int),
            output@ == sliced(text@, columns, i as int),
        decreases chars@.len() - i,
    {
        let char_start: usize = display_col;
        let char_end: usize = widen(char_start, char_display_width(chars[i]));
        display_col = char_end;
        if columns.overlaps_display_range(char_start, char_end) {
            output.push(chars[i]);
        }
        i = i + 1;
    }
    output
}


/// A selection is the same whichever end the drag began at.
pub proof fn selection_ignores_drag_direction(surface: Rect, a: SelectionPoint, b: SelectionPoint)
    ensures
        SelectionRange::spanning(surface, a, b) == SelectionRange::spanning(surface, b, a),
        not_behind(
            SelectionRange::spanning(surface, a, b).start,
            SelectionRange::spanning(surface, a, b).end,
        ),
{
}

/// Text of another surface than the one that the drag began on is never marked.
pub proof fn selection_stays_on_its_surface(
    selection: SelectionView,
    area: Rect,
    line: RowView,
    visible_row: int,
    theme: Theme,
)
    requires
        selection.active_range() is Some ==> selection.active_range()->0.surface != area,
    ensures
        selection.decorated(area, line, visible_row, theme) == line,
{
}

/// Marking selected text changes styles only: every character stays where it is.
pub proof fn marking_keeps_characters(line: RowView, columns: SelectedColumns, theme: Theme)
    ensures
        values(cells(marked_row(line, columns, theme).spans)) == values(cells(line.spans)),
{
    let chars = cells(line.spans);
    cells_measured(line.spans);
    let marked = Seq::new(
        chars.len(),
        |i: int|
            if columns.meets_columns(styled_columns(chars, i), styled_columns(chars, i + 1)) {
                StyledChar { style: selected_style(chars[i].style, theme), ..chars[i] }
            } else {
                chars[i]
            },
    );
    assert forall|i: int| 0 <= i < marked.len() implies #[trigger] marked[i] == cell(
        marked[i].value,
        marked[i].style,
    ) by {
        assert(chars[i] == cell(chars[i].value, chars[i].style));
    }
    joined_keeps_cells(marked);
    assert(values(marked) =~= values(chars));
}

} // verus!
