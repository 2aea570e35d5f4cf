//! The help overlay and the key hints on the screen.

use vstd::prelude::*;

use crate::app::overlay::OverlayView;
use crate::app::sidebar::{pane_text_area, text_area};
use crate::app::{App, AppView};
use crate::input::{coordinate, Rect};
use crate::line::{row_views, Line, RowView, SpanView};
use crate::rows::help::help_rows;
use crate::rows::text::{display_width, text_width};
use crate::scroll_text::{greatest, least, ScrollView};
use crate::theme::Theme;
use crate::ui::{
    centered, centered_rect, help_overlay_height, help_overlay_overflows, help_overlay_title,
    help_overlay_width, help_scrollbar_area, hints_area, keybind_content_area, overlay_height,
    overlay_thumb_len, overlay_thumb_start, overlay_title, overlay_width, scrollbar_lines,
    scrollbar_rows, scrollbar_thumb, HELP_SCROLLBAR_WIDTH, PANE_BORDER_WIDTH,
};

verus! {

/// The help overlay, ready to be drawn.
#[derive(Debug)]
pub struct HelpOverlayFrame {
    pub area: Rect,
    pub title: Line,
    pub lines: Vec<Line>,
    /// First line in view.
    pub scroll: usize,
    pub scrollbar: Option<HelpScrollbar>,
}

#[derive(Debug)]
pub struct HelpScrollbar {
    pub area: Rect,
    pub lines: Vec<Line>,
}

/// The key hints, ready to be drawn.
#[derive(Debug)]
pub struct KeybindBarFrame {
    pub area: Rect,
    pub lines: Vec<Line>,
    /// Tag at the left, and the columns that it has.
    pub tag: Option<(Line, u16)>,
}

/// The layout of the help overlay.
pub struct HelpPlan {
    pub place: Rect,
    pub width: int,
    pub height: int,
    pub rows: Seq<RowView>,
    pub scroll: ScrollView,
}

impl HelpPlan {
    pub open spec fn overflows(self) -> bool {
        self.rows.len() > self.height
    }

    /// The place of the text.
    pub open spec fn surface(self) -> Rect {
        text_area(self.place, self.width, self.height)
    }
}

/// Whether a scrollbar is that of a help overlay.
pub open spec fn is_help_scrollbar(scrollbar: HelpScrollbar, plan: HelpPlan, theme: Theme) -> bool {
    let height = greatest(plan.place.height - PANE_BORDER_WIDTH, 0);
    let total = plan.rows.len() as int;
    &&& scrollbar.area == (Rect {
        x: coordinate(plan.place.x + greatest(plan.place.width - 2, 0)) as u16,
        y: coordinate(plan.place.y + 1) as u16,
        width: HELP_SCROLLBAR_WIDTH,
        height: height as u16,
    })
    &&& row_views(scrollbar.lines@) == scrollbar_rows(
        height as nat,
        overlay_thumb_start(height, total, plan.height, plan.scroll.at),
        overlay_thumb_len(height, total, plan.height),
        theme.background_alt,
        theme,
    )
}

/// Columns of the text of a row.
pub open spec fn row_width(spans: Seq<SpanView>) -> int
    decreases spans.len(),
{
    if spans.len() == 0 {
        0
    } else {
        least(
            row_width(spans.drop_last()) + text_width(spans.last().content),
            usize::MAX as int,
        )
    }
}

impl AppView {
    pub open spec fn help_text(self, width: int, theme: Theme) -> Seq<RowView> {
        help_rows(
            self.can_mutate(),
            self.can_mutate(),
            self.commands,
            self.keybinds,
            width,
            theme,
        )
    }

    /// The layout of the help overlay: a column goes to the scrollbar where the text
    /// does not fit.
    pub open spec fn help_plan(self, area: Rect, scroll: ScrollView, theme: Theme) -> HelpPlan {
        let width = overlay_width(area);
        let wide = greatest(width - PANE_BORDER_WIDTH, 0);
        let first = self.help_text(wide, theme);
        let height = overlay_height(area, first.len() as int % 65536);
        let visible = greatest(height - PANE_BORDER_WIDTH, 0);
        let fits = first.len() <= visible;
        let narrow = greatest(width - PANE_BORDER_WIDTH - HELP_SCROLLBAR_WIDTH, 0);
        let rows = if fits { first } else { self.help_text(narrow, theme) };
        HelpPlan {
            place: centered(area, width, height),
            width: if fits { wide } else { narrow },
            height: visible,
            rows,
            scroll: scroll.synced(rows.len() as int, visible),
        }
    }

    /// With the help overlay drawn.
    pub open spec fn help_drawn(self, plan: HelpPlan) -> AppView {
        AppView {
            overlay: Some(OverlayView::Help { scroll: plan.scroll }),
            selection: self.selection.recorded_over(
                plan.surface(),
                plan.rows,
                plan.scroll.at,
                plan.height,
            ),
            ..self
        }
    }

}

/// Columns of the text of a line.
pub fn line_width(line: &Line) -> (width: usize)
    ensures
        width == row_width(line@.spans),
{
    let ghost spans = line@.spans;
    let mut width: usize = 0;
    let mut i: usize = 0;
    assert(spans.take(0) =~= seq![]);
    while i < line.spans.len()
        invariant
            i <= line.spans@.len(),
            spans == line@.spans,
            width == row_width(spans.take(i as int)),
        decreases line.spans@.len() - i,
    {
        assert(spans.take(i + 1).drop_last() =~= spans.take(i as int));
        assert(spans.take(i + 1).last() == line.spans@[i as int]@);
        width = width.saturating_add(display_width(line.spans[i].content.as_str()));
        i = i + 1;
    }
    assert(spans.take(spans.len() as int) =~= spans);
    width
}

impl App {
    /// Lays the help overlay out over an area, where it is open.
    pub fn help_overlay_frame(&mut self, area: Rect, theme: Theme) -> (frame: Option<
        HelpOverlayFrame,
    >)
        ensures
            old(self).wf() ==> final(self).wf(),
            match old(self)@.overlay {
                Some(OverlayView::Help { scroll }) => {
                    let plan = old(self)@.help_plan(area, scroll, theme);
                    &&& final(self)@ == old(self)@.help_drawn(plan)
                    &&& frame is Some
                    &&& frame->0.area == plan.place
                    &&& frame->0.title@ == overlay_title(
                        theme,
                        plan.overflows(),
                        old(self)@.keybinds,
                    )
                    &&& row_views(frame->0.lines@) == old(self)@.selection.decorated_over(
                        plan.surface(),
                        plan.rows,
                        plan.scroll.at,
                        plan.height,
                        theme,
                    )
                    &&& frame->0.scroll == plan.scroll.at
                    &&& frame->0.scrollbar is Some == plan.overflows()
                    &&& frame->0.scrollbar is Some ==> is_help_scrollbar(
                        frame->0.scrollbar->0,
                        plan,
                        theme,
                    )
                },
                _ => frame is None && final(self)@ == old(self)@,
            },
    {
        if !self.help_overlay_visible() {
            return None;
        }
        let ghost start = self@;
        let width: u16 = help_overlay_width(area);
        let wide: usize = width.saturating_sub(PANE_BORDER_WIDTH) as usize;
        let first = self.help_overlay_lines(wide, theme);
        assert(row_views(first@).len() == first@.len());
        let height: u16 = help_overlay_height(area, (first.len() % 65536) as u16);
        let visible: usize = height.saturating_sub(PANE_BORDER_WIDTH) as usize;
        let narrow: usize = width.saturating_sub(PANE_BORDER_WIDTH + HELP_SCROLLBAR_WIDTH) as usize;
        let fits = !help_overlay_overflows(first.len(), visible);
        let content_width: usize = if fits { wide } else { narrow };
        let lines = if fits { first } else { self.help_overlay_lines(narrow, theme) };
        assert(row_views(lines@).len() == lines@.len());
        let total_rows: usize = lines.len();
        let overflow = help_overlay_overflows(total_rows, visible);
        self.clamp_help_overlay_scroll(total_rows, visible);
        let scroll: usize = self.help_overlay_scroll();
        let place = centered_rect(area, width, height);
        let lines = self.selectable_lines(
            pane_text_area(place, content_width, visible),
            lines,
            scroll,
            visible,
            theme,
        );
        let scrollbar = if overflow {
            let bar = help_scrollbar_area(place);
            let thumb = scrollbar_thumb(bar.height as usize, total_rows, visible, scroll);
            Some(
                HelpScrollbar {
                    area: bar,
                    lines: scrollbar_lines(bar.height, thumb, theme.background_alt, theme),
                },
            )
        } else {
            None
        };
        Some(
            HelpOverlayFrame {
                area: place,
                title: help_overlay_title(theme, overflow, self.keybinds),
                lines,
                scroll,
                scrollbar,
            },
        )
    }

    /// Lays the key hints out over the last row of the screen.
    pub fn keybind_bar_frame(&mut self, area: Rect, theme: Theme) -> (frame: KeybindBarFrame)
        ensures
            old(self).wf() ==> final(self).wf(),
            ({
                let hints = old(self)@.hint_row(theme);
                let tag_width = match frame.tag {
                    Some((_, columns)) => Some(columns),
                    None => None,
                };
                &&& frame.tag is None == old(self)@.mode_hidden()
                &&& match frame.tag {
                    Some((tag, columns)) => tag@ == old(self)@.mode_tag(theme) && columns == least(
                        row_width(tag@.spans),
                        area.width as int,
                    ),
                    None => true,
                }
                &&& frame.area == hints_area(area, row_width(hints.spans), tag_width)
                &&& row_views(frame.lines@) == old(self)@.selection.decorated_over(
                    frame.area,
                    seq![hints],
                    0,
                    1,
                    theme,
                )
                &&& final(self)@ == (AppView {
                    selection: old(self)@.selection.recorded_over(frame.area, seq![hints], 0, 1),
                    ..old(self)@
                })
            }),
    {
        let line = self.keybind_bar_line(theme);
        let ghost hints = line@;
        let tag: Option<(Line, u16)> = match self.keybind_mode_tag_line(theme) {
            Some(tag) => {
                let width: usize = line_width(&tag);
                let columns: u16 = if width < area.width as usize {
                    width as u16
                } else {
                    area.width
                };
                Some((tag, columns))
            },
            None => None,
        };
        let tag_width: Option<u16> = match &tag {
            Some((_, columns)) => Some(*columns),
            None => None,
        };
        let place = keybind_content_area(area, line_width(&line), tag_width);
        let lines = vec![line];
        assert(row_views(lines@) =~= seq![hints]);
        let lines = self.selectable_lines(place, lines, 0, 1, theme);
        KeybindBarFrame { area: place, lines, tag }
    }
}

} // verus!
