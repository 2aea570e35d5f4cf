//! Rows of a file's diff: its header, hunk headers and numbered, highlighted and
//! wrapped lines.

use vstd::prelude::*;
use vstd::slice::slice_subrange;
use vstd::string::*;
use super::file_summary::{
    file_header_label, file_icon, file_icon_color, file_status_suffix, format_file_stats,
    header_label, padding_before_stats, push_stat_spans, stage_display, stage_style, stage_suffix,
    stat_pieces, stats_padding, stats_text, stats_width, status_suffix, FileKind,
};
use super::intraline::{
    block_end, changes_line, emphasize_spans, emphasized, intraline_block_end,
    intraline_ranges_for_block, is_intraline_candidate, line_ranges, CharRange,
};
use super::sidebar::width_sum;
use super::text::{
    cell, cells, display_width, expand_tabs, muted_line, row_end, row_end_bounds, rows_from,
    span_rows, tabs_expanded, text_width, wrap_line, wrap_styled_spans, wrapped, wrapped_row,
    StyledChar,
};

use crate::line::{
    group_line_views, piece, row, row_views, span_views, spans_text, styled_row, Line, RowView,
    Span, SpanView,
};
use crate::model::{
    line_views, DiffFile, DiffHunk, DiffLine, DiffLineKind, FileView, HunkView, LineView,
    SourceSnapshot, SourceView,
};
use crate::patch::next_number;
use crate::scroll_text::greatest;
use crate::style::{color_style, plain_style, Modifier, Style};
use crate::syntax::{
    advanced, line_pieces, palette_theme, path_syntax, HighlightTrace, SyntaxHighlighter, Syntaxes,
};
use crate::text::{
    cat2, cat3, decimal, decimal_of, lines, lines_of, push_spaces, spaces, texts,
};
use crate::theme::Theme;

verus! {

/// Columns in front of the content of a diff line.
pub const DIFF_GUTTER_WIDTH: usize = 11;

/// The bar in front of a diff line.
pub open spec fn rail() -> Seq<char> {
    "\u{258c}"@
}

pub struct RenderedRows {
    pub lines: Vec<Line>,
    /// Whether the rows are all rows of the file.
    pub complete: bool,
}

pub struct DiffLayoutCounts {
    pub total_rows: usize,
    /// Row of each hunk header.
    pub hunk_offsets: Vec<usize>,
    /// Line of the new file that each row shows, if any.
    pub new_line_rows: Vec<Option<u32>>,
}

/// How the marker, the content and the bar of a diff line look.
#[derive(Debug, Clone, Copy)]
pub struct DiffLineStyle {
    pub marker: &'static str,
    pub content: Style,
    pub rail: Style,
}

/// The marker of a kind of line.
pub open spec fn kind_marker(kind: DiffLineKind) -> Seq<char> {
    match kind {
        DiffLineKind::Context | DiffLineKind::Meta => " "@,
        DiffLineKind::Added => "+"@,
        DiffLineKind::Removed => "-"@,
    }
}

/// The style of the content of a kind of line.
pub open spec fn kind_content_style(kind: DiffLineKind, theme: Theme) -> Style {
    match kind {
        DiffLineKind::Context => color_style(theme.text, theme.context_bg),
        DiffLineKind::Added => color_style(theme.added, theme.added_bg),
        DiffLineKind::Removed => color_style(theme.removed, theme.removed_bg),
        DiffLineKind::Meta => color_style(theme.muted, theme.context_bg),
    }
}

/// The style of the bar of a kind of line.
pub open spec fn kind_rail_style(kind: DiffLineKind, theme: Theme) -> Style {
    match kind {
        DiffLineKind::Context | DiffLineKind::Meta => color_style(
            theme.line_number_fg,
            theme.context_bg,
        ),
        DiffLineKind::Added => color_style(theme.added, theme.added_bg),
        DiffLineKind::Removed => color_style(theme.removed, theme.removed_bg),
    }
}

fn diff_line_style(kind: DiffLineKind, theme: Theme) -> (style: DiffLineStyle)
    ensures
        style.marker@ == kind_marker(kind),
        style.content == kind_content_style(kind, theme),
        style.rail == kind_rail_style(kind, theme),
{
    let (marker, text_color, background, rail_color) = match kind {
        DiffLineKind::Context => (" ", theme.text, theme.context_bg, theme.line_number_fg),
        DiffLineKind::Added => ("+", theme.added, theme.added_bg, theme.added),
        DiffLineKind::Removed => ("-", theme.removed, theme.removed_bg, theme.removed),
        DiffLineKind::Meta => (" ", theme.muted, theme.context_bg, theme.line_number_fg),
    };
    DiffLineStyle {
        marker,
        content: color_style(text_color, background),
        rail: color_style(rail_color, background),
    }
}

/// Columns left for the content of a diff line, one at least.
pub open spec fn columns_for_content(content_width: int) -> int {
    greatest(content_width - DIFF_GUTTER_WIDTH, 1)
}

pub fn diff_content_width(content_width: usize) -> (width: usize)
    ensures
        width == columns_for_content(content_width as int),
{
    let width: usize = content_width.saturating_sub(DIFF_GUTTER_WIDTH);
    if width > 1 { width } else { 1 }
}

/// A line number, filled up to three columns.
pub open spec fn number_column(line: Option<u32>) -> Seq<char> {
    match line {
        Some(number) => decimal(number as nat) + spaces(3 - decimal(number as nat).len()),
        None => "   "@,
    }
}

fn format_line_number(line: Option<u32>) -> (column: String)
    ensures
        column@ == number_column(line),
{
    match line {
        Some(number) => {
            let mut column = decimal_of(number as u64);
            let count: usize = column.as_str().unicode_len();
            let ghost digits = column@;
            let gap: usize = if count < 3 { 3 - count } else { 0 };
            push_spaces(&mut column, gap);
            assert(column@ =~= digits + spaces(3 - digits.len()));
            column
        },
        None => "   ".to_owned(),
    }
}

/// What stands in front of the first row of a diff line.
pub open spec fn gutter(line: LineView, theme: Theme) -> Seq<SpanView> {
    let number = color_style(theme.line_number_fg, theme.line_number_bg);
    let content = kind_content_style(line.kind, theme);
    seq![
        piece(rail(), kind_rail_style(line.kind, theme)),
        piece(number_column(line.old_line), number),
        piece(" "@, number),
        piece(number_column(line.new_line), number),
        piece(" "@, number),
        piece(kind_marker(line.kind), content),
        piece(" "@, content),
    ]
}

/// What stands in front of the further rows of a diff line.
pub open spec fn continuation_gutter(kind: DiffLineKind, theme: Theme) -> Seq<SpanView> {
    let number = color_style(theme.line_number_fg, theme.line_number_bg);
    let content = kind_content_style(kind, theme);
    seq![
        piece(rail(), kind_rail_style(kind, theme)),
        piece("   "@, number),
        piece(" "@, number),
        piece("   "@, number),
        piece(" "@, number),
        piece(" "@, content),
        piece(" "@, content),
    ]
}

fn diff_gutter_spans(line: &DiffLine, style: DiffLineStyle, theme: Theme) -> (spans: Vec<Span>)
    requires
        style.marker@ == kind_marker(line.kind),
        style.content == kind_content_style(line.kind, theme),
        style.rail == kind_rail_style(line.kind, theme),
    ensures
        span_views(spans@) == gutter(line@, theme),
{
    broadcast use group_line_views;

    let number_style = color_style(theme.line_number_fg, theme.line_number_bg);
    let mut spans: Vec<Span> = Vec::new();
    spans.push(Span::styled("\u{258c}", style.rail));
    spans.push(Span::styled(format_line_number(line.old_line).as_str(), number_style));
    spans.push(Span::styled(" ", number_style));
    spans.push(Span::styled(format_line_number(line.new_line).as_str(), number_style));
    spans.push(Span::styled(" ", number_style));
    spans.push(Span::styled(style.marker, style.content));
    spans.push(Span::styled(" ", style.content));
    assert(span_views(spans@) =~= gutter(line@, theme));
    spans
}

fn continuation_gutter_spans(kind: DiffLineKind, style: DiffLineStyle, theme: Theme) -> (spans: Vec<
    Span,
>)
    requires
        style.content == kind_content_style(kind, theme),
        style.rail == kind_rail_style(kind, theme),
    ensures
        span_views(spans@) == continuation_gutter(kind, theme),
{
    broadcast use group_line_views;

    let number_style = color_style(theme.line_number_fg, theme.line_number_bg);
    let mut spans: Vec<Span> = Vec::new();
    spans.push(Span::styled("\u{258c}", style.rail));
    spans.push(Span::styled("   ", number_style));
    spans.push(Span::styled(" ", number_style));
    spans.push(Span::styled("   ", number_style));
    spans.push(Span::styled(" ", number_style));
    spans.push(Span::styled(" ", style.content));
    spans.push(Span::styled(" ", style.content));
    assert(span_views(spans@) =~= continuation_gutter(kind, theme));
    spans
}

/// The rows of a diff line whose content is given: the content is wrapped behind
/// the gutter.
pub open spec fn gutter_rows(line: LineView, content: Seq<SpanView>, width: int, theme: Theme) -> Seq<
    RowView,
> {
    let rows = wrapped(content, columns_for_content(width));
    Seq::new(
        rows.len(),
        |i: int|
            row(
                (if i == 0 { gutter(line, theme) } else { continuation_gutter(line.kind, theme) })
                    + rows[i],
            ),
    )
}

fn wrap_diff_line(
    line: &DiffLine,
    content_spans: Vec<Span>,
    content_width: usize,
    theme: Theme,
) -> (lines: Vec<Line>)
    ensures
        row_views(lines@) == gutter_rows(
            line@,
            span_views(content_spans@),
            content_width as int,
            theme,
        ),
{
    broadcast use group_line_views;

    let style = diff_line_style(line.kind, theme);
    let ghost all = wrapped(
        span_views(content_spans@),
        columns_for_content(content_width as int),
    );
    let ghost wanted = gutter_rows(
        line@,
        span_views(content_spans@),
        content_width as int,
        theme,
    );
    let rows = wrap_styled_spans(&content_spans, diff_content_width(content_width));
    let mut lines: Vec<Line> = Vec::new();
    let mut i: usize = 0;
    while i < rows.len()
        invariant
            i <= rows@.len(),
            span_rows(rows@) == all,
            wanted.len() == all.len(),
            forall|j: int|
                0 <= j < all.len() ==> #[trigger] wanted[j] == row(
                    (if j == 0 {
                        gutter(line@, theme)
                    } else {
                        continuation_gutter(line.kind, theme)
                    }) + all[j],
                ),
            style.marker@ == kind_marker(line.kind),
            style.content == kind_content_style(line.kind, theme),
            style.rail == kind_rail_style(line.kind, theme),
            row_views(lines@) == wanted.take(i as int),
        decreases rows@.len() - i,
    {
        let mut spans = if i == 0 {
            diff_gutter_spans(line, style, theme)
        } else {
            continuation_gutter_spans(line.kind, style, theme)
        };
        let ghost front = span_views(spans@);
        append_spans(&mut spans, &rows[i]);
        assert(all[i as int] == span_views(rows@[i as int]@));
        assert(wanted.take(i + 1) =~= wanted.take(i as int).push(wanted[i as int]));
        lines.push(Line::of(spans));
        i = i + 1;
    }
    assert(wanted.take(wanted.len() as int) =~= wanted);
    lines
}

/// Appends copies of spans.
pub fn append_spans(spans: &mut Vec<Span>, more: &Vec<Span>)
    ensures
        span_views(final(spans)@) == span_views(old(spans)@) + span_views(more@),
{
    broadcast use group_line_views;

    let ghost before = span_views(spans@);
    let ghost all = span_views(more@);
    let mut i: usize = 0;
    assert(before + all.take(0) =~= before);
    while i < more.len()
        invariant
            i <= more@.len(),
            all == span_views(more@),
            span_views(spans@) == before + all.take(i as int),
        decreases more@.len() - i,
    {
        let copy = more[i].clone();
        spans.push(copy);
        assert(before + all.take(i + 1) =~= (before + all.take(i as int)).push(all[i as int]));
        i = i + 1;
    }
    assert(all.take(all.len() as int) =~= all);
}

/// Highlighting of one side of a diff: how far it is, the lines of the source
/// that have not been passed, and the number of the next one.
pub struct SideView {
    pub trace: Option<HighlightTrace>,
    pub source: Option<Seq<Seq<char>>>,
    pub next_line: u32,
}

impl SideView {
    /// The start of a side of a file.
    pub open spec fn start(path: Seq<char>, source: SourceView, theme: Theme) -> SideView {
        SideView {
            trace: if source is Unavailable {
                None
            } else {
                match path_syntax(path) {
                    Some(syntax) => Some(
                        HighlightTrace {
                            syntax,
                            theme: palette_theme(theme.syntax),
                            lines: seq![],
                        },
                    ),
                    None => None,
                }
            },
            source: match source {
                SourceView::Loaded(text) => Some(lines_of(text)),
                _ => None,
            },
            next_line: 1,
        }
    }

    /// The next line of the source, if there is one.
    pub open spec fn source_line(self) -> Option<Seq<char>> {
        match self.source {
            Some(rest) => if rest.len() > 0 { Some(rest[0]) } else { None },
            None => None,
        }
    }

    /// The side without the next line of the source.
    pub open spec fn source_passed(self) -> SideView {
        SideView {
            source: match self.source {
                Some(rest) => if rest.len() > 0 { Some(rest.skip(1)) } else { Some(rest) },
                None => None,
            },
            ..self
        }
    }

    /// The side behind a line of the diff or of the source.
    pub open spec fn passed(self, content: Seq<char>) -> SideView {
        SideView {
            trace: advanced(self.trace, tabs_expanded(content)),
            next_line: next_number(self.next_line),
            ..self.source_passed()
        }
    }

    /// The side in front of a line: the lines of the source before it are passed,
    /// as far as there are any.
    pub open spec fn advanced_to(self, target: u32) -> SideView
        decreases
            match self.source {
                Some(rest) => rest.len(),
                None => 0,
            },
    {
        if self.next_line < target {
            match self.source_line() {
                Some(content) => self.passed(content).advanced_to(target),
                None => SideView { next_line: target, ..self },
            }
        } else {
            self
        }
    }

    /// The pieces of a line of the diff.
    pub open spec fn pieces(self, content: Seq<char>, base: Style) -> Seq<SpanView> {
        line_pieces(self.trace, tabs_expanded(content), base)
    }
}

struct DiffSyntaxHighlighter {
    highlighter: SyntaxHighlighter,
    source_lines: Option<Vec<String>>,
    /// Number of source lines that have been passed.
    passed: usize,
    next_line: u32,
}

impl View for DiffSyntaxHighlighter {
    type V = SideView;

    closed spec fn view(&self) -> SideView {
        SideView {
            trace: self.highlighter@,
            source: match self.source_lines {
                Some(all) => Some(texts(all@).skip(self.passed as int)),
                None => None,
            },
            next_line: self.next_line,
        }
    }
}

impl DiffSyntaxHighlighter {
    spec fn wf(self) -> bool {
        self.source_lines is Some ==> self.passed <= self.source_lines->0@.len()
    }

    fn new(path: &str, source: &SourceSnapshot, theme: Theme, syntaxes: &Syntaxes) -> (side: Self)
        ensures
            side.wf(),
            side@ == SideView::start(path@, source@, theme),
    {
        let highlighter = match source {
            SourceSnapshot::Unavailable => SyntaxHighlighter::disabled(),
            SourceSnapshot::Loaded(_) | SourceSnapshot::Unloaded => SyntaxHighlighter::for_path(
                path,
                theme.syntax,
                syntaxes,
            ),
        };
        let source_lines = match source.as_str() {
            Some(text) => Some(lines(text)),
            None => None,
        };
        let side = DiffSyntaxHighlighter { highlighter, source_lines, passed: 0, next_line: 1 };
        proof {
            if side.source_lines is Some {
                let all = texts(side.source_lines->0@);
                assert(all.skip(0) =~= all);
            }
        }
        side
    }

    fn is_enabled(&self) -> (enabled: bool)
        ensures
            enabled == (self@.trace is Some),
    {
        self.highlighter.is_enabled()
    }

    fn advance_to(&mut self, target_line: u32)
        requires
            old(self).wf(),
        ensures
            final(self).wf(),
            final(self)@ == old(self)@.advanced_to(target_line),
    {
        while self.next_line < target_line
            invariant
                self.wf(),
                self@.advanced_to(target_line) == old(self)@.advanced_to(target_line),
            decreases
                    (match self@.source {
                        Some(rest) => rest.len(),
                        None => 0,
                    }), target_line - self.next_line,
        {
            match self.take_source_line() {
                Some(content) => {
                    let expanded = expand_tabs(content.as_str());
                    self.highlighter.advance_line(expanded.as_str());
                    self.next_line = self.next_line.wrapping_add(1);
                },
                None => {
                    self.next_line = target_line;
                },
            }
        }
    }

    fn highlight_line(&mut self, content: &str, base_style: Style) -> (spans: Vec<Span>)
        requires
            old(self).wf(),
        ensures
            final(self).wf(),
            final(self)@ == old(self)@.passed(content@),
            span_views(spans@) == old(self)@.pieces(content@, base_style),
            spans_text(span_views(spans@)) == tabs_expanded(content@),
    {
        let expanded = expand_tabs(content);
        let spans = self.highlighter.highlight_line(expanded.as_str(), base_style);
        self.advance_position();
        spans
    }

    fn advance_line(&mut self, content: &str)
        requires
            old(self).wf(),
        ensures
            final(self).wf(),
            final(self)@ == old(self)@.passed(content@),
    {
        let expanded = expand_tabs(content);
        self.highlighter.advance_line(expanded.as_str());
        self.advance_position();
    }

    fn advance_position(&mut self)
        requires
            old(self).wf(),
        ensures
            final(self).wf(),
            final(self)@ == (SideView {
                next_line: next_number(old(self)@.next_line),
                ..old(self)@.source_passed()
            }),
    {
        let _ = self.take_source_line();
        self.next_line = self.next_line.wrapping_add(1);
    }

    fn take_source_line(&mut self) -> (line: Option<String>)
        requires
            old(self).wf(),
        ensures
            final(self).wf(),
            final(self)@ == old(self)@.source_passed(),
            final(self).next_line == old(self).next_line,
            match line {
                Some(content) => old(self)@.source_line() == Some(content@),
                None => old(self)@.source_line() is None,
            },
            line is Some ==> final(self)@.source is Some && final(self)@.source->0.len()
                < old(self)@.source->0.len(),
    {
        let ghost before = *self;
        match &self.source_lines {
            Some(all) => {
                let ghost views = texts(all@);
                if self.passed < all.len() {
                    let line = all[self.passed].clone();
                    assert(views.skip(self.passed as int)[0] == line@);
                    assert(views.skip(self.passed as int).skip(1) =~= views.skip(
                        self.passed + 1,
                    ));
                    self.passed = self.passed + 1;
                    Some(line)
                } else {
                    None
                }
            },
            None => None,
        }
    }
}


/// Highlighting of both sides of a diff.
pub struct SidesView {
    pub old: SideView,
    pub new: SideView,
}

impl SidesView {
    /// The start of both sides of a file.
    pub open spec fn start(file: FileView, theme: Theme) -> SidesView {
        SidesView {
            old: SideView::start(
                if file.old_path.len() == 0 { file.shown_path() } else { file.old_path },
                file.old_source,
                theme,
            ),
            new: SideView::start(
                if file.path.len() == 0 { file.shown_path() } else { file.path },
                file.new_source,
                theme,
            ),
        }
    }

    /// Both sides in front of a hunk.
    pub open spec fn before_hunk(self, hunk: HunkView) -> SidesView {
        SidesView {
            old: self.old.advanced_to(hunk.old_start),
            new: self.new.advanced_to(hunk.new_start),
        }
    }

    /// Both sides behind a line: each that the line stands on has passed it.
    pub open spec fn behind_line(self, line: LineView) -> SidesView {
        match line.kind {
            DiffLineKind::Added => SidesView { new: self.new.passed(line.content), ..self },
            DiffLineKind::Removed => SidesView { old: self.old.passed(line.content), ..self },
            DiffLineKind::Context => SidesView {
                old: self.old.passed(line.content),
                new: self.new.passed(line.content),
            },
            DiffLineKind::Meta => self,
        }
    }

    /// Both sides behind the first `n` lines.
    pub open spec fn behind_lines(self, lines: Seq<LineView>, n: int) -> SidesView
        decreases n,
    {
        if n <= 0 {
            self
        } else {
            self.behind_lines(lines, n - 1).behind_line(lines[n - 1])
        }
    }

    /// Both sides behind the first `n` hunks.
    pub open spec fn behind_hunks(self, hunks: Seq<HunkView>, n: int) -> SidesView
        decreases n,
    {
        if n <= 0 {
            self
        } else {
            let hunk = hunks[n - 1];
            self.behind_hunks(hunks, n - 1).before_hunk(hunk).behind_lines(
                hunk.lines,
                hunk.lines.len() as int,
            )
        }
    }

    /// The styled content of a line: highlighted as the side that it stands on, a
    /// context line as the new side where that has a syntax; changed parts are
    /// emphasized.
    pub open spec fn content(self, line: LineView, ranges: Seq<CharRange>, theme: Theme) -> Seq<
        SpanView,
    > {
        let base = kind_content_style(line.kind, theme);
        match line.kind {
            DiffLineKind::Added => emphasized(self.new.pieces(line.content, base), ranges),
            DiffLineKind::Removed => emphasized(self.old.pieces(line.content, base), ranges),
            DiffLineKind::Context => if self.new.trace is Some {
                self.new.pieces(line.content, base)
            } else {
                self.old.pieces(line.content, base)
            },
            DiffLineKind::Meta => seq![piece(tabs_expanded(line.content), base)],
        }
    }
}

/// First line of the run of changed lines that a line stands in.
pub open spec fn block_start(lines: Seq<LineView>, at: int) -> int
    decreases at,
{
    if at <= 0 || !changes_line(lines[at - 1].kind) {
        at
    } else {
        block_start(lines, at - 1)
    }
}

/// The changed parts of a line of a hunk, within its run of changed lines.
pub open spec fn hunk_line_ranges(lines: Seq<LineView>, at: int) -> Seq<CharRange> {
    if changes_line(lines[at].kind) {
        let start = block_start(lines, at);
        line_ranges(lines.subrange(start, block_end(lines, at)), at - start)
    } else {
        seq![]
    }
}

/// The rows of a line of a hunk.
pub open spec fn hunk_line_rows(
    lines: Seq<LineView>,
    sides: SidesView,
    at: int,
    width: int,
    theme: Theme,
) -> Seq<RowView> {
    gutter_rows(
        lines[at],
        sides.behind_lines(lines, at).content(lines[at], hunk_line_ranges(lines, at), theme),
        width,
        theme,
    )
}

/// The header line of a hunk.
pub open spec fn hunk_header_row(hunk: HunkView, theme: Theme, can_stage: bool, selected: bool) -> RowView {
    let background = if selected { theme.selected } else { theme.background_alt };
    let foreground = if selected { theme.accent } else { theme.muted };
    let style = color_style(foreground, background).add_modifier(Modifier::Bold);
    let marker = if selected { ">"@ } else { " "@ };
    let title = piece(marker + " "@ + hunk.header, style);
    let stage = piece(stage_suffix(hunk.stage), stage_style(hunk.stage, background, theme));
    row(if can_stage { seq![title, stage] } else { seq![title] })
}

/// The wrapped header of a hunk.
pub open spec fn hunk_header_rows(
    hunk: HunkView,
    width: int,
    theme: Theme,
    can_stage: bool,
    selected: bool,
) -> Seq<RowView> {
    wrapped_row(hunk_header_row(hunk, theme, can_stage, selected), width)
}

/// How a diff is rendered.
#[derive(Debug, Clone, Copy)]
pub struct DiffRenderOptions {
    pub content_width: usize,
    pub theme: Theme,
    pub can_stage: bool,
    pub selected_hunk_index: Option<usize>,
}

impl DiffRenderOptions {
    pub open spec fn selects(self, index: int) -> bool {
        self.selected_hunk_index is Some && self.selected_hunk_index->0 == index
    }
}

/// The parts of a hunk that are rendered as a whole: its header and each line.
pub open spec fn hunk_parts(
    hunk: HunkView,
    sides: SidesView,
    options: DiffRenderOptions,
    selected: bool,
) -> Seq<Seq<RowView>> {
    let width = options.content_width as int;
    let ready = sides.before_hunk(hunk);
    seq![hunk_header_rows(hunk, width, options.theme, options.can_stage, selected)] + Seq::new(
        hunk.lines.len(),
        |i: int| hunk_line_rows(hunk.lines, ready, i, width, options.theme),
    )
}

/// The header line of a file.
pub open spec fn file_header_row(
    file: FileView,
    width: int,
    can_stage: bool,
    theme: Theme,
) -> RowView {
    let kind = FileKind::of_path(file.shown_path());
    let style = color_style(theme.text, theme.background);
    let label = " "@ + header_label(file);
    let suffix = status_suffix(file.status);
    let stage = stage_suffix(file.stage);
    let stats = text_width(stats_text(file)) as int;
    let used = width_sum(
        width_sum(
            width_sum(
                width_sum(text_width(kind.glyph()) as int, text_width(label) as int),
                text_width(suffix) as int,
            ),
            if can_stage { text_width(stage) as int } else { 0 },
        ),
        stats,
    );
    let title = seq![
        piece(kind.glyph(), color_style(kind.glyph_color(theme), theme.background)),
        piece(label, style),
        piece(suffix, color_style(theme.muted, theme.background)),
    ];
    let staged = if can_stage {
        title.push(piece(stage, stage_style(file.stage, theme.background, theme)))
    } else {
        title
    };
    row(
        staged.push(piece(stats_padding(width, used, stats), style)) + stat_pieces(
            file,
            theme.background,
            theme,
        ),
    )
}

pub open spec fn file_header_rows(
    file: FileView,
    width: int,
    can_stage: bool,
    theme: Theme,
) -> Seq<RowView> {
    wrapped_row(file_header_row(file, width, can_stage, theme), width)
}

/// What is said in place of the hunks of a file that has none to show.
pub open spec fn body_message(file: FileView) -> Option<Seq<char>> {
    if file.binary {
        Some("Binary file changed"@)
    } else if file.hunks.len() == 0 {
        Some("File changed without textual hunks"@)
    } else {
        None
    }
}

pub open spec fn message_rows(message: Seq<char>, width: int, theme: Theme) -> Seq<RowView> {
    wrapped_row(styled_row(message, color_style(theme.muted, theme.background)), width)
}

/// The parts of a file up to its `n`th hunk: its header and those of the hunks.
pub open spec fn file_parts(file: FileView, options: DiffRenderOptions, n: int) -> Seq<
    Seq<RowView>,
>
    decreases n,
{
    if n <= 0 {
        seq![
            file_header_rows(
                file,
                options.content_width as int,
                options.can_stage,
                options.theme,
            ),
        ]
    } else {
        file_parts(file, options, n - 1) + hunk_parts(
            file.hunks[n - 1],
            SidesView::start(file, options.theme).behind_hunks(file.hunks, n - 1),
            options,
            options.selects(n - 1),
        )
    }
}

/// The rows of some parts.
pub open spec fn part_rows(parts: Seq<Seq<RowView>>) -> Seq<RowView>
    decreases parts.len(),
{
    if parts.len() == 0 {
        seq![]
    } else {
        part_rows(parts.drop_last()) + parts.last()
    }
}

/// Number of parts, `from` at least, after which there are enough rows, all of
/// them where there are never enough.
pub open spec fn parts_needed(parts: Seq<Seq<RowView>>, target: int, from: int) -> int
    decreases parts.len() - from,
{
    if from >= parts.len() || part_rows(parts.take(from)).len() >= target {
        from
    } else {
        parts_needed(parts, target, from + 1)
    }
}

/// The rows of a file with hunks: as many of its parts as are needed, but for its
/// header and its first hunk header, which are always there.
pub open spec fn hunk_file_rows(file: FileView, options: DiffRenderOptions, target: int) -> Seq<
    RowView,
> {
    let parts = file_parts(file, options, file.hunks.len() as int);
    part_rows(parts.take(parts_needed(parts, target, 2)))
}

proof fn part_rows_push(parts: Seq<Seq<RowView>>, part: Seq<RowView>)
    ensures
        part_rows(parts.push(part)) == part_rows(parts) + part,
{
    assert(parts.push(part).drop_last() =~= parts);
}

proof fn part_rows_grow(parts: Seq<Seq<RowView>>, a: int, b: int)
    requires
        0 <= a <= b <= parts.len(),
    ensures
        part_rows(parts.take(a)).len() <= part_rows(parts.take(b)).len(),
        part_rows(parts.take(a)) == part_rows(parts.take(b)).take(
            part_rows(parts.take(a)).len() as int,
        ),
    decreases b - a,
{
    if a < b {
        part_rows_grow(parts, a, b - 1);
        assert(parts.take(b).drop_last() =~= parts.take(b - 1));
        let less = part_rows(parts.take(a));
        let mid = part_rows(parts.take(b - 1));
        let all = part_rows(parts.take(b));
        assert(all =~= mid + parts[b - 1]);
        assert(less =~= all.take(less.len() as int));
    } else {
        let all = part_rows(parts.take(a));
        assert(all =~= all.take(all.len() as int));
    }
}

/// Whether the first `k` parts have too few rows.
spec fn too_few(parts: Seq<Seq<RowView>>, target: int, k: int) -> bool {
    part_rows(parts.take(k)).len() < target
}

proof fn parts_needed_skips(parts: Seq<Seq<RowView>>, target: int, from: int, to: int)
    requires
        from <= to,
        to <= parts.len(),
        forall|k: int| from <= k < to ==> #[trigger] too_few(parts, target, k),
    ensures
        parts_needed(parts, target, from) == parts_needed(parts, target, to),
    decreases to - from,
{
    if from < to {
        assert(too_few(parts, target, from));
        parts_needed_skips(parts, target, from + 1, to);
    }
}

/// Rows of the content of a line, whatever its style.
pub open spec fn line_row_count(line: LineView, width: int) -> nat {
    wrapped(
        seq![piece(tabs_expanded(line.content), plain_style())],
        columns_for_content(width),
    ).len()
}

pub open spec fn repeated(line: Option<u32>, count: nat) -> Seq<Option<u32>> {
    Seq::new(count, |i: int| line)
}

/// The new-side lines that the rows of the first `n` lines of a hunk show.
pub open spec fn line_numbers(lines: Seq<LineView>, width: int, n: int) -> Seq<Option<u32>>
    decreases n,
{
    if n <= 0 {
        seq![]
    } else {
        line_numbers(lines, width, n - 1) + repeated(
            lines[n - 1].new_line,
            line_row_count(lines[n - 1], width),
        )
    }
}

/// The new-side lines that the rows of a hunk show: none in its header.
pub open spec fn hunk_numbers(hunk: HunkView, width: int, theme: Theme, can_stage: bool) -> Seq<
    Option<u32>,
> {
    repeated(None, hunk_header_rows(hunk, width, theme, can_stage, false).len()) + line_numbers(
        hunk.lines,
        width,
        hunk.lines.len() as int,
    )
}

/// The new-side lines that the rows of a file up to its `n`th hunk show.
pub open spec fn file_numbers(
    file: FileView,
    width: int,
    theme: Theme,
    can_stage: bool,
    n: int,
) -> Seq<Option<u32>>
    decreases n,
{
    if n <= 0 {
        repeated(None, file_header_rows(file, width, can_stage, theme).len())
    } else {
        file_numbers(file, width, theme, can_stage, n - 1) + hunk_numbers(
            file.hunks[n - 1],
            width,
            theme,
            can_stage,
        )
    }
}

/// Wrapping goes by the characters and their widths, not by their styles.
proof fn wrapping_ignores_styles(a: Seq<StyledChar>, b: Seq<StyledChar>, start: int, max: int)
    requires
        alike(a, b),
        0 <= start <= a.len(),
        max >= 1,
    ensures
        rows_from(a, start, max).len() == rows_from(b, start, max).len(),
    decreases a.len() - start,
{
    if start < a.len() {
        row_end_bounds(a, start, max);
        row_end_ignores_styles(a, b, start, max);
        wrapping_ignores_styles(a, b, row_end(a, start, max), max);
    }
}

spec fn alike(a: Seq<StyledChar>, b: Seq<StyledChar>) -> bool {
    a.len() == b.len() && forall|i: int|
        0 <= i < a.len() ==> (#[trigger] a[i]).value == b[i].value && a[i].width == b[i].width
}

proof fn row_end_ignores_styles(a: Seq<StyledChar>, b: Seq<StyledChar>, start: int, max: int)
    requires
        alike(a, b),
        0 <= start < a.len(),
        max >= 1,
    ensures
        row_end(a, start, max) == row_end(b, start, max),
{
    full_end_ignores_styles(a, b, start, start, max);
    super::text::row_end_bounds(a, start, max);
    let end = super::text::full_end(a, start, start, max);
    full_end_in_range(a, start, start, max);
    columns_ignore_styles(a, b, start, end);
    break_end_ignores_styles(a, b, start, end, end);
}

proof fn full_end_in_range(a: Seq<StyledChar>, start: int, from: int, max: int)
    requires
        0 <= start <= from <= a.len(),
    ensures
        from <= super::text::full_end(a, start, from, max) <= a.len(),
    decreases a.len() - from,
{
    if !super::text::row_full(a, start, from, max) {
        full_end_in_range(a, start, from + 1, max);
    }
}

proof fn columns_ignore_styles(a: Seq<StyledChar>, b: Seq<StyledChar>, start: int, end: int)
    requires
        alike(a, b),
        0 <= start,
        end <= a.len(),
    ensures
        super::text::columns(a, start, end) == super::text::columns(b, start, end),
    decreases end - start,
{
    if start < end {
        columns_ignore_styles(a, b, start, end - 1);
    }
}

proof fn full_end_ignores_styles(
    a: Seq<StyledChar>,
    b: Seq<StyledChar>,
    start: int,
    from: int,
    max: int,
)
    requires
        alike(a, b),
        0 <= start <= from <= a.len(),
    ensures
        super::text::full_end(a, start, from, max) == super::text::full_end(b, start, from, max),
    decreases a.len() - from,
{
    columns_ignore_styles(a, b, start, from);
    if !super::text::row_full(a, start, from, max) {
        full_end_ignores_styles(a, b, start, from + 1, max);
    }
}

proof fn break_end_ignores_styles(
    a: Seq<StyledChar>,
    b: Seq<StyledChar>,
    start: int,
    at: int,
    end: int,
)
    requires
        alike(a, b),
        0 <= start,
        at <= a.len(),
    ensures
        super::text::break_end(a, start, at, end) == super::text::break_end(b, start, at, end),
    decreases at - start,
{
    if at > start {
        break_end_ignores_styles(a, b, start, at - 1, end);
    }
}

proof fn cells_read_text(spans: Seq<SpanView>)
    ensures
        cells(spans).len() == spans_text(spans).len(),
        forall|i: int|
            0 <= i < cells(spans).len() ==> (#[trigger] cells(spans)[i]) == cell(
                spans_text(spans)[i],
                cells(spans)[i].style,
            ),
    decreases spans.len(),
{
    if spans.len() > 0 {
        cells_read_text(spans.drop_last());
    }
}

/// Spans with the same text wrap into the same number of rows.
pub proof fn row_count_goes_by_text(a: Seq<SpanView>, b: Seq<SpanView>, max: int)
    requires
        spans_text(a) == spans_text(b),
    ensures
        wrapped(a, max).len() == wrapped(b, max).len(),
{
    cells_read_text(a);
    cells_read_text(b);
    let (x, y) = (cells(a), cells(b));
    assert forall|i: int| 0 <= i < x.len() implies (#[trigger] x[i]).value == y[i].value
        && x[i].width == y[i].width by {
        assert(x[i] == cell(spans_text(a)[i], x[i].style));
        assert(y[i] == cell(spans_text(b)[i], y[i].style));
    }
    if x.len() > 0 {
        wrapping_ignores_styles(x, y, 0, greatest(max, 1));
    }
}


fn hunk_header_line(hunk: &DiffHunk, theme: Theme, can_stage: bool, selected: bool) -> (line: Line)
    ensures
        line@ == hunk_header_row(hunk@, theme, can_stage, selected),
{
    broadcast use group_line_views;

    let background = if selected { theme.selected } else { theme.background_alt };
    let foreground = if selected { theme.accent } else { theme.muted };
    let style = color_style(foreground, background).add_modifier(Modifier::Bold);
    let marker = if selected { ">" } else { " " };
    let mut spans: Vec<Span> = Vec::new();
    spans.push(Span::styled(cat3(marker, " ", hunk.header.as_str()).as_str(), style));
    if can_stage {
        let stage = stage_display(hunk.stage, background, theme);
        spans.push(Span::styled(stage.suffix, stage.style));
    }
    assert(span_views(spans@) =~= hunk_header_row(hunk@, theme, can_stage, selected).spans);
    Line::of(spans)
}

/// The wrapped header of a selected hunk.
pub fn selected_hunk_header_rows(
    hunk: &DiffHunk,
    content_width: usize,
    theme: Theme,
    can_stage: bool,
) -> (lines: Vec<Line>)
    ensures
        row_views(lines@) == hunk_header_rows(
            hunk@,
            content_width as int,
            theme,
            can_stage,
            true,
        ),
{
    wrap_line(hunk_header_line(hunk, theme, can_stage, true), content_width)
}

/// The header line of a file.
pub fn render_file_header(
    file: &DiffFile,
    content_width: usize,
    can_stage: bool,
    theme: Theme,
) -> (line: Line)
    ensures
        line@ == file_header_row(file@, content_width as int, can_stage, theme),
{
    broadcast use group_line_views;

    let icon = file_icon(file.display_path());
    let icon_style = color_style(file_icon_color(file.display_path(), theme), theme.background);
    let label = cat2(" ", file_header_label(file).as_str());
    let suffix = file_status_suffix(file.status);
    let stage = stage_display(file.stage, theme.background, theme);
    let stats = format_file_stats(file);
    let stats_columns: usize = stats_width(stats.as_str());
    let stage_columns: usize = if can_stage { display_width(stage.suffix) } else { 0 };
    let used: usize = display_width(icon).saturating_add(
        display_width(label.as_str()),
    ).saturating_add(display_width(suffix)).saturating_add(stage_columns).saturating_add(
        stats_columns,
    );
    let padding = padding_before_stats(content_width, used, stats_columns);
    let style = color_style(theme.text, theme.background);
    let muted_style = color_style(theme.muted, theme.background);
    let mut spans: Vec<Span> = Vec::new();
    spans.push(Span::styled(icon, icon_style));
    spans.push(Span::styled(label.as_str(), style));
    spans.push(Span::styled(suffix, muted_style));
    if can_stage {
        spans.push(Span::styled(stage.suffix, stage.style));
    }
    spans.push(Span::styled(padding.as_str(), style));
    proof {
        let title = seq![
            piece(icon@, icon_style),
            piece(label@, style),
            piece(suffix@, muted_style),
        ];
        let staged = if can_stage { title.push(piece(stage.suffix@, stage.style)) } else { title };
        assert(span_views(spans@) =~= staged.push(piece(padding@, style)));
    }
    push_stat_spans(&mut spans, file, theme.background, theme);
    Line::of(spans)
}

fn render_file_header_rows(
    file: &DiffFile,
    content_width: usize,
    can_stage: bool,
    theme: Theme,
) -> (lines: Vec<Line>)
    ensures
        row_views(lines@) == file_header_rows(file@, content_width as int, can_stage, theme),
        lines@.len() > 0,
{
    wrap_line(render_file_header(file, content_width, can_stage, theme), content_width)
}

fn file_body_message(file: &DiffFile) -> (message: Option<&'static str>)
    ensures
        match message {
            Some(text) => body_message(file@) == Some(text@),
            None => body_message(file@) is None,
        },
{
    if file.binary {
        Some("Binary file changed")
    } else if file.hunks.len() == 0 {
        Some("File changed without textual hunks")
    } else {
        None
    }
}

fn muted_body_rows(message: &str, content_width: usize, theme: Theme) -> (lines: Vec<Line>)
    ensures
        row_views(lines@) == message_rows(message@, content_width as int, theme),
{
    wrap_line(muted_line(message, theme), content_width)
}

fn diff_old_path(file: &DiffFile) -> (path: &str)
    ensures
        path@ == if file@.old_path.len() == 0 { file@.shown_path() } else { file@.old_path },
{
    if file.old_path.as_str().is_empty() { file.display_path() } else { file.old_path.as_str() }
}

fn diff_new_path(file: &DiffFile) -> (path: &str)
    ensures
        path@ == if file@.path.len() == 0 { file@.shown_path() } else { file@.path },
{
    if file.path.as_str().is_empty() { file.display_path() } else { file.path.as_str() }
}

proof fn one_piece_text(text: Seq<char>, style: Style)
    ensures
        spans_text(seq![piece(text, style)]) == text,
{
    let spans = seq![piece(text, style)];
    assert(spans.drop_last() =~= seq![]);
    assert(spans_text(spans.drop_last()) =~= seq![]);
    assert(spans_text(spans) =~= text);
}

/// Emphasis keeps the text.
proof fn emphasis_keeps_text(spans: Seq<SpanView>, ranges: Seq<CharRange>)
    ensures
        spans_text(emphasized(spans, ranges)) == spans_text(spans),
{
    if ranges.len() > 0 {
        let chars = cells(spans);
        super::text::cells_measured(spans);
        let shown = Seq::new(
            chars.len(),
            |i: int|
                if super::intraline::in_ranges(ranges, i) {
                    StyledChar { style: chars[i].style.add_modifier(Modifier::Bold), ..chars[i] }
                } else {
                    chars[i]
                },
        );
        assert forall|i: int| 0 <= i < shown.len() implies #[trigger] shown[i] == cell(
            shown[i].value,
            shown[i].style,
        ) by {
            assert(chars[i] == cell(chars[i].value, chars[i].style));
        }
        super::text::joined_keeps_cells(shown);
        cells_read_text(spans);
        cells_read_text(emphasized(spans, ranges));
        let result = emphasized(spans, ranges);
        assert(spans_text(result) =~= spans_text(spans)) by {
            assert forall|i: int| 0 <= i < chars.len() implies spans_text(result)[i]
                == spans_text(spans)[i] by {
                assert(cells(result)[i] == cell(spans_text(result)[i], cells(result)[i].style));
                assert(chars[i] == cell(spans_text(spans)[i], chars[i].style));
                assert(cells(result)[i] == shown[i]);
            }
        }
    }
}

/// The styled content of a diff line; both sides pass the line.
fn highlight_diff_content(
    line: &DiffLine,
    ranges: &Vec<CharRange>,
    old_side: &mut DiffSyntaxHighlighter,
    new_side: &mut DiffSyntaxHighlighter,
    theme: Theme,
) -> (spans: Vec<Span>)
    requires
        old(old_side).wf(),
        old(new_side).wf(),
    ensures
        final(old_side).wf(),
        final(new_side).wf(),
        ({
            let sides = SidesView { old: old(old_side)@, new: old(new_side)@ };
            &&& span_views(spans@) == sides.content(line@, ranges@, theme)
            &&& SidesView { old: final(old_side)@, new: final(new_side)@ } == sides.behind_line(
                line@,
            )
        }),
        spans_text(span_views(spans@)) == tabs_expanded(line@.content),
{
    let base = diff_line_style(line.kind, theme).content;
    let content = line.content.as_str();
    match line.kind {
        DiffLineKind::Added => {
            let spans = new_side.highlight_line(content, base);
            proof {
                emphasis_keeps_text(span_views(spans@), ranges@);
            }
            emphasize_spans(spans, ranges)
        },
        DiffLineKind::Removed => {
            let spans = old_side.highlight_line(content, base);
            proof {
                emphasis_keeps_text(span_views(spans@), ranges@);
            }
            emphasize_spans(spans, ranges)
        },
        DiffLineKind::Context => highlight_context_content(content, base, old_side, new_side),
        DiffLineKind::Meta => {
            let expanded = expand_tabs(content);
            let mut spans: Vec<Span> = Vec::new();
            spans.push(Span::styled(expanded.as_str(), base));
            proof {
                assert(span_views(spans@) =~= seq![piece(expanded@, base)]);
                one_piece_text(expanded@, base);
            }
            spans
        },
    }
}

fn highlight_context_content(
    content: &str,
    content_style: Style,
    old_side: &mut DiffSyntaxHighlighter,
    new_side: &mut DiffSyntaxHighlighter,
) -> (spans: Vec<Span>)
    requires
        old(old_side).wf(),
        old(new_side).wf(),
    ensures
        final(old_side).wf(),
        final(new_side).wf(),
        final(old_side)@ == old(old_side)@.passed(content@),
        final(new_side)@ == old(new_side)@.passed(content@),
        span_views(spans@) == if old(new_side)@.trace is Some {
            old(new_side)@.pieces(content@, content_style)
        } else {
            old(old_side)@.pieces(content@, content_style)
        },
        spans_text(span_views(spans@)) == tabs_expanded(content@),
{
    if new_side.is_enabled() {
        let spans = new_side.highlight_line(content, content_style);
        old_side.advance_line(content);
        spans
    } else {
        let spans = old_side.highlight_line(content, content_style);
        new_side.advance_line(content);
        spans
    }
}

/// Rows of a diff, and the parts that they are made of.
pub open spec fn made_of(rows: Seq<Line>, parts: Seq<Seq<RowView>>) -> bool {
    row_views(rows) == part_rows(parts)
}

/// Appends lines.
pub fn append_lines(lines: &mut Vec<Line>, more: Vec<Line>)
    ensures
        row_views(final(lines)@) == row_views(old(lines)@) + row_views(more@),
        final(lines)@.len() == old(lines)@.len() + more@.len(),
{
    broadcast use group_line_views;

    let mut more = more;
    lines.append(&mut more);
}

/// Appends the rows of a line of a hunk. Returns whether more rows are needed.
fn push_diff_line_until(
    lines: &mut Vec<Line>,
    line: &DiffLine,
    ranges: &Vec<CharRange>,
    old_side: &mut DiffSyntaxHighlighter,
    new_side: &mut DiffSyntaxHighlighter,
    options: DiffRenderOptions,
    target_rows: usize,
) -> (more: bool)
    requires
        old(old_side).wf(),
        old(new_side).wf(),
    ensures
        final(old_side).wf(),
        final(new_side).wf(),
        ({
            let sides = SidesView { old: old(old_side)@, new: old(new_side)@ };
            &&& row_views(final(lines)@) == row_views(old(lines)@) + gutter_rows(
                line@,
                sides.content(line@, ranges@, options.theme),
                options.content_width as int,
                options.theme,
            )
            &&& SidesView { old: final(old_side)@, new: final(new_side)@ } == sides.behind_line(
                line@,
            )
        }),
        final(lines)@.len() == old(lines)@.len() + line_row_count(
            line@,
            options.content_width as int,
        ),
        more == (final(lines)@.len() < target_rows),
{
    let spans = highlight_diff_content(line, ranges, old_side, new_side, options.theme);
    proof {
        one_piece_text(tabs_expanded(line@.content), plain_style());
        row_count_goes_by_text(
            span_views(spans@),
            seq![piece(tabs_expanded(line@.content), plain_style())],
            columns_for_content(options.content_width as int),
        );
    }
    let rows = wrap_diff_line(line, spans, options.content_width, options.theme);
    assert(rows@.len() == row_views(rows@).len());
    append_lines(lines, rows);
    lines.len() < target_rows
}

proof fn block_start_is(lines: Seq<LineView>, start: int, at: int)
    requires
        0 <= start <= at <= lines.len(),
        start == 0 || !changes_line(lines[start - 1].kind),
        forall|k: int| start <= k < at ==> changes_line((#[trigger] lines[k]).kind),
    ensures
        block_start(lines, at) == start,
    decreases at - start,
{
    if start < at {
        assert(changes_line(lines[at - 1].kind));
        block_start_is(lines, start, at - 1);
    }
}

proof fn block_end_is(lines: Seq<LineView>, at: int, end: int)
    requires
        0 <= at <= end <= lines.len(),
        end == block_end(lines, at),
    ensures
        forall|k: int| at <= k < end ==> changes_line((#[trigger] lines[k]).kind),
        forall|k: int| at <= k <= end ==> #[trigger] block_end(lines, k) == end,
        end < lines.len() ==> !changes_line(lines[end].kind),
    decreases lines.len() - at,
{
    if at < lines.len() && changes_line(lines[at].kind) {
        block_end_grows(lines, at + 1);
        block_end_is(lines, at + 1, end);
    }
}

proof fn block_end_grows(lines: Seq<LineView>, at: int)
    requires
        at <= lines.len(),
    ensures
        at <= block_end(lines, at) <= lines.len(),
    decreases lines.len() - at,
{
    if at < lines.len() && changes_line(lines[at].kind) {
        block_end_grows(lines, at + 1);
    }
}


/// Whether rows are made of the first `k` parts, which are the first ones behind
/// `from` with enough rows.
spec fn stopped_at(
    lines: Seq<Line>,
    parts: Seq<Seq<RowView>>,
    target: int,
    from: int,
    k: int,
) -> bool {
    &&& from < k <= parts.len()
    &&& made_of(lines, parts.take(k))
    &&& lines.len() >= target
    &&& forall|i: int| from < i < k ==> #[trigger] too_few(parts, target, i)
}

/// Whether rows are made of the first `k` parts, and no part behind `from` gave
/// enough rows.
spec fn going_on(
    lines: Seq<Line>,
    parts: Seq<Seq<RowView>>,
    target: int,
    from: int,
    k: int,
) -> bool {
    &&& from <= k <= parts.len()
    &&& made_of(lines, parts.take(k))
    &&& forall|i: int| from < i <= k ==> #[trigger] too_few(parts, target, i)
}

proof fn one_more_part(
    lines: Seq<Line>,
    grown: Seq<Line>,
    parts: Seq<Seq<RowView>>,
    target: int,
    from: int,
    k: int,
)
    requires
        going_on(lines, parts, target, from, k),
        0 <= from,
        k < parts.len(),
        row_views(grown) == row_views(lines) + parts[k],
    ensures
        grown.len() < target ==> going_on(grown, parts, target, from, k + 1),
        grown.len() >= target ==> stopped_at(grown, parts, target, from, k + 1),
{
    assert(parts.take(k + 1) =~= parts.take(k).push(parts[k]));
    part_rows_push(parts.take(k), parts[k]);
    assert(row_views(grown).len() == grown.len());
}

/// Appends the rows of a hunk until there are enough. Returns whether more rows
/// are needed.
fn push_hunk_lines_until(
    lines: &mut Vec<Line>,
    hunk: &DiffHunk,
    old_side: &mut DiffSyntaxHighlighter,
    new_side: &mut DiffSyntaxHighlighter,
    options: DiffRenderOptions,
    selected: bool,
    target_rows: usize,
    before: Ghost<Seq<Seq<RowView>>>,
) -> (more: bool)
    requires
        old(old_side).wf(),
        old(new_side).wf(),
        made_of(old(lines)@, before@),
    ensures
        final(old_side).wf(),
        final(new_side).wf(),
        ({
            let sides = SidesView { old: old(old_side)@, new: old(new_side)@ };
            let parts = before@ + hunk_parts(hunk@, sides, options, selected);
            let from = before@.len() as int;
            &&& more ==> going_on(
                final(lines)@,
                parts,
                target_rows as int,
                from,
                parts.len() as int,
            )
            &&& more ==> (SidesView { old: final(old_side)@, new: final(new_side)@ })
                == sides.before_hunk(hunk@).behind_lines(hunk@.lines, hunk@.lines.len() as int)
            &&& !more ==> exists|k: int|
                stopped_at(final(lines)@, parts, target_rows as int, from, k)
        }),
        more && !selected ==> final(lines)@.len() == old(lines)@.len() + hunk_numbers(
            hunk@,
            options.content_width as int,
            options.theme,
            options.can_stage,
        ).len(),
{
    let ghost sides = SidesView { old: old_side@, new: new_side@ };
    let ghost ready = sides.before_hunk(hunk@);
    let ghost parts = before@ + hunk_parts(hunk@, sides, options, selected);
    let ghost from = before@.len() as int;
    let ghost width = options.content_width as int;
    let ghost hunk_lines = hunk@.lines;
    let ghost start_rows = lines@;
    assert(parts.take(from) =~= before@);
    assert(going_on(lines@, parts, target_rows as int, from, from));
    old_side.advance_to(hunk.old_start);
    new_side.advance_to(hunk.new_start);
    let header = wrap_line(
        hunk_header_line(hunk, options.theme, options.can_stage, selected),
        options.content_width,
    );
    let ghost header_rows = row_views(header@);
    assert(header_rows.len() == header@.len());
    append_lines(lines, header);
    proof {
        assert(parts[from] == header_rows);
        one_more_part(start_rows, lines@, parts, target_rows as int, from, from);
    }
    if lines.len() >= target_rows {
        return false;
    }
    let ghost header_len = lines@.len();
    let ranges = hunk_intraline_ranges(&hunk.lines);
    let mut i: usize = 0;
    while i < hunk.lines.len()
        invariant
            i <= hunk.lines@.len(),
            hunk_lines == line_views(hunk.lines@),
            hunk_lines == hunk@.lines,
            ranges@.len() == hunk.lines@.len(),
            forall|k: int|
                0 <= k < hunk.lines@.len() ==> (#[trigger] ranges@[k])@ == hunk_line_ranges(
                    hunk_lines,
                    k,
                ),
            parts == before@ + hunk_parts(hunk@, sides, options, selected),
            sides == (SidesView { old: old(old_side)@, new: old(new_side)@ }),
            ready == sides.before_hunk(hunk@),
            from == before@.len(),
            width == options.content_width,
            old_side.wf(),
            new_side.wf(),
            (SidesView { old: old_side@, new: new_side@ }) == ready.behind_lines(
                hunk_lines,
                i as int,
            ),
            going_on(lines@, parts, target_rows as int, from, from + 1 + i),
            lines@.len() == header_len + line_numbers(hunk_lines, width, i as int).len(),
        decreases hunk.lines@.len() - i,
    {
        let line = &hunk.lines[i];
        assert(hunk_lines[i as int] == line@);
        let ghost rows_before = lines@;
        let more = push_diff_line_until(
            lines,
            line,
            &ranges[i],
            old_side,
            new_side,
            options,
            target_rows,
        );
        proof {
            assert(parts[from + 1 + i] == hunk_line_rows(
                hunk_lines,
                ready,
                i as int,
                width,
                options.theme,
            ));
            one_more_part(rows_before, lines@, parts, target_rows as int, from, from + 1 + i);
        }
        if !more {
            return false;
        }
        i = i + 1;
    }
    true
}

/// The changed parts of each line of a hunk.
fn hunk_intraline_ranges(lines: &Vec<DiffLine>) -> (ranges: Vec<Vec<CharRange>>)
    ensures
        ranges@.len() == lines@.len(),
        forall|k: int|
            0 <= k < lines@.len() ==> (#[trigger] ranges@[k])@ == hunk_line_ranges(
                line_views(lines@),
                k,
            ),
{
    let ghost views = line_views(lines@);
    let mut ranges: Vec<Vec<CharRange>> = Vec::new();
    let mut i: usize = 0;
    while i < lines.len()
        invariant
            i <= lines@.len(),
            views == line_views(lines@),
            ranges@.len() == i,
            forall|k: int|
                0 <= k < i ==> (#[trigger] ranges@[k])@ == hunk_line_ranges(views, k),
            i == 0 || i == lines@.len() || !changes_line(views[i - 1].kind) || !changes_line(
                views[i as int].kind,
            ),
        decreases lines@.len() - i,
    {
        assert(views[i as int] == lines@[i as int]@);
        if !is_intraline_candidate(lines[i].kind) {
            let none: Vec<CharRange> = Vec::new();
            assert(none@ =~= hunk_line_ranges(views, i as int));
            ranges.push(none);
            i = i + 1;
        } else {
            let end: usize = intraline_block_end(lines, i);
            let block = slice_subrange(lines.as_slice(), i, end);
            let mut block_ranges = intraline_ranges_for_block(block);
            proof {
                block_end_is(views, i as int, end as int);
                assert(line_views(block@) =~= views.subrange(i as int, end as int));
                assert forall|k: int| i <= k < end implies (#[trigger] block_ranges@[k - i])@
                    == hunk_line_ranges(views, k) by {
                    block_start_is(views, i as int, k);
                    assert(block_end(views, k) == end);
                    assert(changes_line(views[k].kind));
                }
            }
            let ghost before = ranges@;
            let ghost found = block_ranges@;
            ranges.append(&mut block_ranges);
            assert(end > i) by {
                assert(changes_line(views[i as int].kind));
                block_end_grows(views, i + 1);
            }
            assert forall|k: int| 0 <= k < end implies (#[trigger] ranges@[k])@
                == hunk_line_ranges(views, k) by {
                if k < i {
                    assert(ranges@[k] == before[k]);
                } else {
                    assert(ranges@[k] == found[k - i]);
                }
            }
            i = end;
        }
    }
    ranges
}


proof fn file_parts_extend(file: FileView, options: DiffRenderOptions, a: int, b: int)
    requires
        0 <= a <= b,
    ensures
        file_parts(file, options, a).len() <= file_parts(file, options, b).len(),
        file_parts(file, options, a) == file_parts(file, options, b).take(
            file_parts(file, options, a).len() as int,
        ),
    decreases b - a,
{
    let less = file_parts(file, options, a);
    if a < b {
        file_parts_extend(file, options, a, b - 1);
        let all = file_parts(file, options, b);
        assert(less =~= all.take(less.len() as int));
    } else {
        assert(less =~= less.take(less.len() as int));
    }
}

proof fn too_few_in_prefix(parts: Seq<Seq<RowView>>, n: int, target: int, k: int)
    requires
        0 <= k <= n <= parts.len(),
    ensures
        too_few(parts.take(n), target, k) == too_few(parts, target, k),
{
    assert(parts.take(n).take(k) =~= parts.take(k));
}

/// Whether the header of a hunk stands in the rows of a file where the layout says.
pub open spec fn header_stands_at_offset(
    rows: Seq<RowView>,
    file: FileView,
    options: DiffRenderOptions,
    j: int,
) -> bool {
    let width = options.content_width as int;
    let at = layout_offsets(file, width, options.theme, options.can_stage)[j];
    let header = hunk_header_rows(
        file.hunks[j],
        width,
        options.theme,
        options.can_stage,
        false,
    );
    at + header.len() <= rows.len() && rows.subrange(at, at + header.len()) == header
}

proof fn header_found_in_rows(file: FileView, options: DiffRenderOptions, j: int)
    requires
        0 <= j < file.hunks.len(),
        options.selected_hunk_index is None,
        body_message(file) is None,
        part_rows(file_parts(file, options, j)).len() == file_numbers(
            file,
            options.content_width as int,
            options.theme,
            options.can_stage,
            j,
        ).len(),
    ensures
        header_stands_at_offset(
            part_rows(file_parts(file, options, file.hunks.len() as int)),
            file,
            options,
            j,
        ),
{
    let count = file.hunks.len() as int;
    let all = file_parts(file, options, count);
    let before = file_parts(file, options, j);
    let after = file_parts(file, options, j + 1);
    file_parts_extend(file, options, j + 1, count);
    file_parts_extend(file, options, j, j + 1);
    let n = before.len() as int;
    let header = after[n];
    let rows = part_rows(all);
    assert(all.take(n + 1) =~= after.take(n).push(header));
    assert(after.take(n) =~= before);
    part_rows_push(before, header);
    part_rows_grow(all, n + 1, all.len() as int);
    assert(all.take(all.len() as int) =~= all);
    let at = part_rows(before).len() as int;
    let cut = part_rows(before) + header;
    assert(cut == rows.take(cut.len() as int));
    assert(rows.subrange(at, at + header.len()) =~= cut.subrange(at, at + header.len()));
    assert(cut.subrange(at, at + header.len()) =~= header);
}

/// The rows of a file's diff, until there are enough.
pub fn diff_lines_until(
    file: &DiffFile,
    options: DiffRenderOptions,
    target_rows: usize,
    syntaxes: &Syntaxes,
) -> (rows: RenderedRows)
    ensures
        body_message(file@) is Some ==> rows.complete && row_views(rows.lines@)
            == file_header_rows(
            file@,
            options.content_width as int,
            options.can_stage,
            options.theme,
        ) + message_rows(
            body_message(file@)->0,
            options.content_width as int,
            options.theme,
        ),
        body_message(file@) is None ==> row_views(rows.lines@) == hunk_file_rows(
            file@,
            options,
            target_rows as int,
        ) && rows.complete == (rows.lines@.len() < target_rows),
        rows.complete && options.selected_hunk_index is None ==> rows.lines@.len()
            == layout_numbers(
            file@,
            options.content_width as int,
            options.theme,
            options.can_stage,
        ).len(),
        rows.complete && options.selected_hunk_index is None && body_message(file@) is None
            ==> forall|j: int|
            0 <= j < file@.hunks.len() ==> #[trigger] header_stands_at_offset(
                row_views(rows.lines@),
                file@,
                options,
                j,
            ),
{
    let ghost width = options.content_width as int;
    let theme = options.theme;
    let can_stage = options.can_stage;
    let ghost count = file@.hunks.len() as int;
    let mut lines = render_file_header_rows(file, options.content_width, can_stage, theme);
    assert(row_views(lines@).len() == lines@.len());
    if let Some(message) = file_body_message(file) {
        let body = muted_body_rows(message, options.content_width, theme);
        assert(row_views(body@).len() == body@.len());
        append_lines(&mut lines, body);
        return RenderedRows { lines, complete: true };
    }
    let mut old_side = DiffSyntaxHighlighter::new(
        diff_old_path(file),
        &file.old_source,
        theme,
        syntaxes,
    );
    let mut new_side = DiffSyntaxHighlighter::new(
        diff_new_path(file),
        &file.new_source,
        theme,
        syntaxes,
    );
    let ghost start = SidesView::start(file@, theme);
    let ghost all = file_parts(file@, options, count);
    proof {
        let first = file_parts(file@, options, 0);
        assert(first.drop_last() =~= seq![]);
        assert(part_rows(first.drop_last()) =~= seq![]);
        assert(part_rows(first) =~= row_views(lines@));
    }
    let mut i: usize = 0;
    while i < file.hunks.len()
        invariant
            i <= file.hunks@.len(),
            count == file.hunks@.len(),
            count == file@.hunks.len(),
            width == options.content_width,
            theme == options.theme,
            can_stage == options.can_stage,
            all == file_parts(file@, options, count),
            body_message(file@) is None,
            start == SidesView::start(file@, theme),
            old_side.wf(),
            new_side.wf(),
            (SidesView { old: old_side@, new: new_side@ }) == start.behind_hunks(
                file@.hunks,
                i as int,
            ),
            made_of(lines@, file_parts(file@, options, i as int)),
            i > 0 ==> file_parts(file@, options, i as int).len() >= 2,
            forall|k: int|
                2 <= k <= file_parts(file@, options, i as int).len() ==> #[trigger] too_few(
                    all,
                    target_rows as int,
                    k,
                ),
            options.selected_hunk_index is None ==> forall|j: int|
                0 <= j <= i ==> #[trigger] part_rows(file_parts(file@, options, j)).len()
                    == file_numbers(file@, width, theme, can_stage, j).len(),
        decreases file.hunks@.len() - i,
    {
        assert(row_views(lines@).len() == lines@.len());
        let ghost before = file_parts(file@, options, i as int);
        let ghost after = file_parts(file@, options, i + 1);
        assert(file@.hunks[i as int] == file.hunks@[i as int]@);
        let selected = match options.selected_hunk_index {
            Some(index) => index == i,
            None => false,
        };
        let more = push_hunk_lines_until(
            &mut lines,
            &file.hunks[i],
            &mut old_side,
            &mut new_side,
            options,
            selected,
            target_rows,
            Ghost(before),
        );
        proof {
            file_parts_extend(file@, options, 0, i as int);
            file_parts_extend(file@, options, i + 1, count);
            assert(after == all.take(after.len() as int));
            assert forall|k: int| 0 <= k <= after.len() implies #[trigger] too_few(
                all,
                target_rows as int,
                k,
            ) == too_few(after, target_rows as int, k) by {
                too_few_in_prefix(all, after.len() as int, target_rows as int, k);
            }
        }
        if !more {
            proof {
                let from = before.len() as int;
                let k = choose|k: int|
                    stopped_at(lines@, after, target_rows as int, from, k);
                assert(stopped_at(lines@, after, target_rows as int, from, k));
                assert forall|m: int| 2 <= m < k implies #[trigger] too_few(
                    all,
                    target_rows as int,
                    m,
                ) by {
                    if m > from {
                        assert(too_few(after, target_rows as int, m));
                    }
                }
                assert(after.take(k) =~= all.take(k));
                assert(row_views(lines@).len() == lines@.len());
                parts_needed_skips(all, target_rows as int, 2, k);
                assert(parts_needed(all, target_rows as int, k) == k);
            }
            return RenderedRows { lines, complete: false };
        }
        assert(after.take(after.len() as int) =~= after);
        assert(row_views(lines@).len() == lines@.len());
        i = i + 1;
    }
    proof {
        if options.selected_hunk_index is None {
            assert forall|j: int| 0 <= j < count implies #[trigger] header_stands_at_offset(
                row_views(lines@),
                file@,
                options,
                j,
            ) by {
                assert(part_rows(file_parts(file@, options, j)).len() == file_numbers(
                    file@,
                    width,
                    theme,
                    can_stage,
                    j,
                ).len());
                header_found_in_rows(file@, options, j);
            }
        }
        assert(all.take(all.len() as int) =~= all);
        parts_needed_skips(all, target_rows as int, 2, all.len() as int);
        assert(too_few(all, target_rows as int, all.len() as int));
        assert(row_views(lines@).len() == lines@.len());
    }
    RenderedRows { lines, complete: true }
}

/// The new-side lines that the rows of a file show.
pub open spec fn layout_numbers(
    file: FileView,
    width: int,
    theme: Theme,
    can_stage: bool,
) -> Seq<Option<u32>> {
    match body_message(file) {
        Some(message) => repeated(
            None,
            file_header_rows(file, width, can_stage, theme).len() + message_rows(
                message,
                width,
                theme,
            ).len(),
        ),
        None => file_numbers(file, width, theme, can_stage, file.hunks.len() as int),
    }
}

/// The rows of the hunk headers of a file.
pub open spec fn layout_offsets(
    file: FileView,
    width: int,
    theme: Theme,
    can_stage: bool,
) -> Seq<int> {
    if body_message(file) is Some {
        seq![]
    } else {
        Seq::new(
            file.hunks.len(),
            |i: int| file_numbers(file, width, theme, can_stage, i).len() as int,
        )
    }
}

pub open spec fn offset_views(offsets: Seq<usize>) -> Seq<int> {
    offsets.map_values(|offset: usize| offset as int)
}

fn push_repeated(numbers: &mut Vec<Option<u32>>, line: Option<u32>, count: usize)
    ensures
        final(numbers)@ == old(numbers)@ + repeated(line, count as nat),
{
    let ghost before = numbers@;
    let mut i: usize = 0;
    assert(before + repeated(line, 0) =~= before);
    while i < count
        invariant
            i <= count,
            numbers@ == before + repeated(line, i as nat),
        decreases count - i,
    {
        numbers.push(line);
        i = i + 1;
        assert(numbers@ =~= before + repeated(line, i as nat));
    }
}

fn diff_line_row_count(line: &DiffLine, content_width: usize) -> (count: usize)
    ensures
        count == line_row_count(line@, content_width as int),
{
    let expanded = expand_tabs(line.content.as_str());
    let mut spans: Vec<Span> = Vec::new();
    spans.push(Span::raw(expanded.as_str()));
    assert(span_views(spans@) =~= seq![piece(expanded@, plain_style())]);
    let rows = wrap_styled_spans(&spans, diff_content_width(content_width));
    assert(span_rows(rows@).len() == rows@.len());
    rows.len()
}

/// Where the rows of a file's diff stand, without rendering them.
pub fn diff_layout_counts(
    file: &DiffFile,
    content_width: usize,
    theme: Theme,
    can_stage: bool,
) -> (counts: DiffLayoutCounts)
    ensures
        counts.new_line_rows@ == layout_numbers(file@, content_width as int, theme, can_stage),
        counts.total_rows == counts.new_line_rows@.len(),
        offset_views(counts.hunk_offsets@) == layout_offsets(
            file@,
            content_width as int,
            theme,
            can_stage,
        ),
{
    let ghost width = content_width as int;
    let header = render_file_header_rows(file, content_width, can_stage, theme);
    assert(row_views(header@).len() == header@.len());
    let mut numbers: Vec<Option<u32>> = Vec::new();
    push_repeated(&mut numbers, None, header.len());
    assert(numbers@ =~= file_numbers(file@, width, theme, can_stage, 0));
    let mut hunk_offsets: Vec<usize> = Vec::new();
    if let Some(message) = file_body_message(file) {
        let body = muted_body_rows(message, content_width, theme);
        assert(row_views(body@).len() == body@.len());
        push_repeated(&mut numbers, None, body.len());
        assert(numbers@ =~= layout_numbers(file@, width, theme, can_stage));
        assert(offset_views(hunk_offsets@) =~= layout_offsets(file@, width, theme, can_stage));
        return DiffLayoutCounts {
            total_rows: numbers.len(),
            hunk_offsets,
            new_line_rows: numbers,
        };
    }
    let mut i: usize = 0;
    while i < file.hunks.len()
        invariant
            i <= file.hunks@.len(),
            width == content_width,
            numbers@ == file_numbers(file@, width, theme, can_stage, i as int),
            hunk_offsets@.len() == i,
            forall|k: int|
                0 <= k < i ==> #[trigger] hunk_offsets@[k] == file_numbers(
                    file@,
                    width,
                    theme,
                    can_stage,
                    k,
                ).len(),
        decreases file.hunks@.len() - i,
    {
        let hunk = &file.hunks[i];
        assert(file@.hunks[i as int] == hunk@);
        hunk_offsets.push(numbers.len());
        let header = wrap_line(
            hunk_header_line(hunk, theme, can_stage, false),
            content_width,
        );
        assert(row_views(header@).len() == header@.len());
        let ghost before = numbers@;
        push_repeated(&mut numbers, None, header.len());
        let ghost with_header = numbers@;
        let ghost views = hunk@.lines;
        let mut j: usize = 0;
        assert(with_header + line_numbers(views, width, 0) =~= with_header);
        while j < hunk.lines.len()
            invariant
                j <= hunk.lines@.len(),
                width == content_width,
                views == line_views(hunk.lines@),
                numbers@ == with_header + line_numbers(views, width, j as int),
            decreases hunk.lines@.len() - j,
        {
            assert(views[j as int] == hunk.lines@[j as int]@);
            let ghost so_far = numbers@;
            let rows: usize = diff_line_row_count(&hunk.lines[j], content_width);
            push_repeated(&mut numbers, hunk.lines[j].new_line, rows);
            assert(numbers@ =~= with_header + line_numbers(views, width, j + 1));
            j = j + 1;
        }
        assert(numbers@ =~= before + hunk_numbers(hunk@, width, theme, can_stage));
        i = i + 1;
    }
    assert(offset_views(hunk_offsets@) =~= layout_offsets(file@, width, theme, can_stage));
    DiffLayoutCounts { total_rows: numbers.len(), hunk_offsets, new_line_rows: numbers }
}

} // verus!
