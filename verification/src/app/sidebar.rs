//! The files panel, the key hints and the help text of the session.

use vstd::prelude::*;

use crate::app::overlay::OverlayView;
use crate::app::{App, AppView};
use crate::input::{coordinate, Rect};
use crate::line::{row, row_views, styled_row, Line, RowView};
use crate::model::file_views;
use crate::rows::help::{self, help_rows};
use crate::rows::sidebar::{
    self, entries_in_view, entry_row, record_views, scroll_showing, SidebarRowCountsInput,
    SidebarRowRecord, SidebarRowsInput, TargetView,
};
use crate::rows::status::{self, all_hints, output_hints, review_hints, tag_pieces, tagged_row};
use crate::rows::tree::{review_entries, EntryView};
use crate::scroll_text::least;
use crate::style::color_style;
use crate::theme::Theme;
use crate::ui::saturating_u16;
use crate::viewport::ViewportView;

verus! {

/// The place of the text inside the border of a pane.
pub open spec fn text_area(area: Rect, content_width: int, visible_height: int) -> Rect {
    Rect {
        x: coordinate(area.x + 1) as u16,
        y: coordinate(area.y + 1) as u16,
        width: coordinate(content_width) as u16,
        height: coordinate(visible_height) as u16,
    }
}

pub fn pane_text_area(area: Rect, content_width: usize, visible_height: usize) -> (place: Rect)
    ensures
        place == text_area(area, content_width as int, visible_height as int),
{
    Rect {
        x: area.x.saturating_add(1),
        y: area.y.saturating_add(1),
        width: saturating_u16(content_width),
        height: saturating_u16(visible_height),
    }
}

impl AppView {
    /// The file or folder that is marked in the files panel.
    pub open spec fn sidebar_mark(self) -> TargetView {
        match self.cursor {
            Some(target) => target,
            None => TargetView::File(least(self.selected, self.files().len() - 1)),
        }
    }

    /// With a files panel about to be drawn.
    pub open spec fn sidebar_begun(self, area: Rect, visible_height: int) -> AppView {
        AppView {
            viewport: ViewportView {
                sidebar_area: Some(area),
                sidebar_view_height: crate::scroll_text::greatest(visible_height, 1),
                sidebar_row_targets: seq![],
                ..self.viewport
            },
            ..self
        }.bounded()
    }

    /// The first entry of the files panel in view, such that the marked one is.
    pub open spec fn sidebar_first(self, visible_height: int) -> int {
        let entries = review_entries(self.files(), self.collapsed);
        if self.files().len() == 0 {
            0
        } else {
            scroll_showing(
                entries,
                entries.map_values(|entry: EntryView| 1usize),
                self.sidebar_scroll,
                self.sidebar_mark(),
                visible_height,
            )
        }
    }

    /// The entries of the files panel in view.
    pub open spec fn sidebar_entries(self, visible_height: int) -> Seq<EntryView> {
        if self.files().len() == 0 {
            seq![]
        } else {
            entries_in_view(
                review_entries(self.files(), self.collapsed),
                self.sidebar_first(visible_height),
                visible_height,
            )
        }
    }

    /// The rows of the files panel, with no text selected in them.
    pub open spec fn sidebar_rows(self, content_width: int, visible_height: int, theme: Theme) -> Seq<
        RowView,
    > {
        if self.files().len() == 0 {
            seq![
                styled_row(
                    self.source.sidebar_message(),
                    color_style(theme.muted, theme.background),
                ),
            ]
        } else {
            self.sidebar_entries(visible_height).map_values(
                |entry: EntryView|
                    entry_row(
                        entry,
                        self.files(),
                        self.reviewed,
                        self.sidebar_mark(),
                        content_width,
                        theme,
                    ),
            )
        }
    }

    /// With the files panel drawn.
    pub open spec fn sidebar_drawn(
        self,
        area: Rect,
        content_width: int,
        visible_height: int,
        theme: Theme,
    ) -> AppView {
        let begun = self.sidebar_begun(area, visible_height);
        AppView {
            sidebar_scroll: begun.sidebar_first(visible_height),
            viewport: ViewportView {
                sidebar_row_targets: begun.sidebar_entries(visible_height).map_values(
                    |entry: EntryView| entry.target(),
                ),
                ..begun.viewport
            },
            selection: self.selection.recorded_over(
                text_area(area, content_width, visible_height),
                begun.sidebar_rows(content_width, visible_height, theme),
                0,
                visible_height,
            ),
            ..begun
        }
    }

    /// The key hints at the bottom of the screen.
    pub open spec fn hint_row(self, theme: Theme) -> RowView {
        match self.overlay {
            Some(OverlayView::AskAiOutput { .. }) => tagged_row(
                " ASK AI "@,
                output_hints(true, self.keybinds),
                theme,
            ),
            Some(OverlayView::AskAiPrompt { .. }) => tagged_row(
                " ASK AI "@,
                seq![("Enter"@, "submit"@), ("Esc"@, "cancel"@)],
                theme,
            ),
            Some(OverlayView::AskAiRunning { .. }) => tagged_row(
                " ASK AI "@,
                seq![
                    (
                        "Esc/"@ + crate::keybind::key_name(
                            self.keybinds.bound(crate::keybind::BuiltinAction::Quit),
                        ),
                        "cancel"@,
                    ),
                    ("Ctrl-c"@, "quit"@),
                ],
                theme,
            ),
            Some(OverlayView::CommandRunning { .. }) => tagged_row(
                " COMMAND "@,
                seq![
                    (
                        "Esc/"@ + crate::keybind::key_name(
                            self.keybinds.bound(crate::keybind::BuiltinAction::Quit),
                        ) + "/Ctrl-c"@,
                        "cancel"@,
                    ),
                ],
                theme,
            ),
            Some(OverlayView::CommandOutput { .. }) => tagged_row(
                " COMMAND "@,
                output_hints(false, self.keybinds),
                theme,
            ),
            _ => row(
                all_hints(
                    review_hints(self.files_visible, self.stage_hint(), self.keybinds),
                    theme,
                ),
            ),
        }
    }

    pub open spec fn stage_hint(self) -> Option<Seq<char>> {
        if self.can_mutate() { self.focused().stage_hint() } else { None }
    }

    /// The tag of the kind of diff.
    pub open spec fn mode_tag(self, theme: Theme) -> RowView {
        row(tag_pieces(if self.can_mutate() { " DIFF "@ } else { " REVIEW "@ }, theme))
    }

    /// Whether the tag of the kind of diff gives way to that of an overlay.
    pub open spec fn mode_hidden(self) -> bool {
        match self.overlay {
            Some(OverlayView::AskAiOutput { .. }) => true,
            Some(OverlayView::AskAiPrompt { .. }) => true,
            Some(OverlayView::AskAiRunning { .. }) => true,
            Some(OverlayView::CommandOutput { .. }) => true,
            _ => false,
        }
    }
}

impl App {
    /// Records rows of a surface as selectable, and marks the selected text in them.
    pub fn selectable_lines(
        &mut self,
        area: Rect,
        lines: Vec<Line>,
        line_scroll: usize,
        visible_height: usize,
        theme: Theme,
    ) -> (decorated: Vec<Line>)
        ensures
            final(self)@ == (crate::app::AppView {
                selection: old(self)@.selection.recorded_over(
                    area,
                    row_views(lines@),
                    line_scroll as int,
                    visible_height as int,
                ),
                ..old(self)@
            }),
            row_views(decorated@) == old(self)@.selection.decorated_over(
                area,
                row_views(lines@),
                line_scroll as int,
                visible_height as int,
                theme,
            ),
            old(self).wf() ==> final(self).wf(),
    {
        let ghost before = self@.selection;
        let decorated = self.text_selection.decorate_visible_lines(
            area,
            lines,
            line_scroll,
            visible_height,
            theme,
        );
        assert(row_views(decorated@) =~= before.decorated_over(
            area,
            row_views(lines@),
            line_scroll as int,
            visible_height as int,
            theme,
        ));
        decorated
    }

    /// Draws the files panel.
    pub fn sidebar_rows(
        &mut self,
        area: Rect,
        content_width: usize,
        visible_height: usize,
        theme: Theme,
    ) -> (lines: Vec<Line>)
        requires
            old(self).wf(),
        ensures
            final(self).wf(),
            final(self)@ == old(self)@.sidebar_drawn(
                area,
                content_width as int,
                visible_height as int,
                theme,
            ),
            row_views(lines@) == old(self)@.selection.decorated_over(
                text_area(area, content_width as int, visible_height as int),
                old(self)@.sidebar_begun(area, visible_height as int).sidebar_rows(
                    content_width as int,
                    visible_height as int,
                    theme,
                ),
                0,
                visible_height as int,
                theme,
            ),
    {
        self.viewport.begin_sidebar(area, visible_height);
        self.ensure_scroll_bounds();
        let ghost begun = self@;
        let row_counts = sidebar::sidebar_row_counts(
            SidebarRowCountsInput {
                files: &self.changeset.files,
                collapsed_dirs: &self.collapsed_tree_dirs,
                content_width,
                theme,
            },
        );
        let rendered = sidebar::sidebar_rows(
            SidebarRowsInput {
                files: &self.changeset.files,
                empty_message: self.source.empty_sidebar_message(),
                collapsed_dirs: &self.collapsed_tree_dirs,
                selected_file_index: self.selected_file_index,
                sidebar_scroll: self.sidebar_scroll,
                row_counts: &row_counts,
                content_width,
                visible_height,
                theme,
                reviewed_files: &self.reviewed_files,
                active_target: self.sidebar_cursor_target.as_ref(),
            },
        );
        let ghost records = record_views(rendered.row_records@);
        proof {
            let entries = begun.sidebar_entries(visible_height as int);
            assert(file_views(self.changeset.files@) == begun.files());
            assert(row_views(rendered.lines@) =~= begun.sidebar_rows(
                content_width as int,
                visible_height as int,
                theme,
            ));
            assert(rendered.sidebar_scroll == begun.sidebar_first(visible_height as int));
            assert(records =~= entries.map_values(|entry: EntryView| (entry.target(), 1int)));
            assert(records.map_values(|record: (TargetView, int)| record.0)
                =~= entries.map_values(|entry: EntryView| entry.target()));
        }
        self.sidebar_scroll = rendered.sidebar_scroll;
        self.viewport.begin_sidebar_rows();
        self.record_rows(rendered.row_records);
        self.selectable_lines(
            pane_text_area(area, content_width, visible_height),
            rendered.lines,
            0,
            visible_height,
            theme,
        )
    }

    /// Records which entry of the files panel each row shows.
    fn record_rows(&mut self, records: Vec<SidebarRowRecord>)
        requires
            old(self)@.viewport.sidebar_row_targets.len() == 0,
            forall|i: int|
                0 <= i < records@.len() ==> (#[trigger] record_views(records@)[i]).1 == 1,
        ensures
            final(self)@ == (AppView {
                viewport: ViewportView {
                    sidebar_row_targets: record_views(records@).map_values(
                        |record: (TargetView, int)| record.0,
                    ),
                    ..old(self)@.viewport
                },
                ..old(self)@
            }),
            old(self).wf() ==> final(self).wf(),
    {
        let ghost before = self@;
        let ghost wanted = record_views(records@).map_values(|record: (TargetView, int)| record.0);
        let mut i: usize = 0;
        assert(self@.viewport.sidebar_row_targets =~= wanted.take(0));
        while i < records.len()
            invariant
                i <= records@.len(),
                wanted == record_views(records@).map_values(
                    |record: (TargetView, int)| record.0,
                ),
                forall|j: int|
                    0 <= j < records@.len() ==> (#[trigger] record_views(records@)[j]).1 == 1,
                self@ == (AppView {
                    viewport: ViewportView {
                        sidebar_row_targets: wanted.take(i as int),
                        ..before.viewport
                    },
                    ..before
                }),
                old(self).wf() ==> self.wf(),
            decreases records@.len() - i,
        {
            let record = &records[i];
            let ghost shown = self@.viewport.sidebar_row_targets;
            assert(record_views(records@)[i as int] == (
                record.target@,
                record.row_count as int,
            ));
            self.viewport.record_sidebar_rows(record.target.clone(), record.row_count);
            assert(self@.viewport.sidebar_row_targets =~= wanted.take(i + 1));
            i = i + 1;
        }
        assert(wanted.take(wanted.len() as int) =~= wanted);
    }

    pub fn keybind_bar_line(&self, theme: Theme) -> (line: Line)
        ensures
            line@ == self@.hint_row(theme),
    {
        if self.ask_ai_output().is_some() {
            return status::ask_ai_output_keybind_bar_line(self.keybinds, theme);
        }
        if self.ask_ai_prompt().is_some() {
            return status::ask_ai_prompt_keybind_bar_line(theme);
        }
        if self.ask_ai_running().is_some() {
            return status::ask_ai_running_keybind_bar_line(self.keybinds, theme);
        }
        if self.command_running().is_some() {
            return status::custom_command_running_keybind_bar_line(self.keybinds, theme);
        }
        if self.command_output().is_some() {
            return status::custom_command_output_keybind_bar_line(self.keybinds, theme);
        }
        status::keybind_bar_line(
            self.files_panel_visible,
            self.stage_keybind_hint(),
            self.keybinds,
            theme,
        )
    }

    /// The tag of the kind of diff.
    pub fn keybind_mode_tag_line(&self, theme: Theme) -> (tag: Option<Line>)
        ensures
            match tag {
                Some(line) => !self@.mode_hidden() && line@ == self@.mode_tag(theme),
                None => self@.mode_hidden(),
            },
    {
        if self.ask_ai_output().is_some() || self.ask_ai_prompt().is_some()
            || self.ask_ai_running().is_some() || self.command_output().is_some() {
            return None;
        }
        Some(status::keybind_mode_tag_line(self.can_mutate(), theme))
    }

    pub fn help_overlay_lines(&self, content_width: usize, theme: Theme) -> (lines: Vec<Line>)
        ensures
            row_views(lines@) == help_rows(
                self@.can_mutate(),
                self@.can_mutate(),
                self@.commands,
                self@.keybinds,
                content_width as int,
                theme,
            ),
    {
        help::help_overlay_lines(
            self.can_mutate(),
            self.can_mutate(),
            &self.custom_commands,
            self.keybinds,
            content_width,
            theme,
        )
    }

    pub fn stage_keybind_hint(&self) -> (hint: Option<&'static str>)
        ensures
            crate::diff_render::str_option(hint) == self@.stage_hint(),
    {
        if !self.can_mutate() {
            return None;
        }
        self.focused_review_target().stage_keybind_hint()
    }
}

} // verus!
