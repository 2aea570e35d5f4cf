//! Composition of the diff pane's rendered frame.
//!
//! `App` owns the state; this module owns the *ordering* that turns that state into
//! what the diff pane shows. One call stacks the live-status rows above the diff, runs
//! the two-pass search scroll (render and locate matches, then scroll the active match
//! into view), derives the content width and scrollbar geometry, renders the visible
//! diff rows, and decorates them for text selection.

use vstd::prelude::*;

use crate::app::overlay::{Overlay, OverlayView};
use crate::app::requests::usize_option;
use crate::app::sidebar::{pane_text_area, text_area};
use crate::app::{file_at, App, AppView};
use crate::diff_render::{rendered_state, shown_rows, str_option, SelectedDiffRenderRequest};
use crate::git::{context_lines, source_context_lines};
use crate::input::{coordinate, Rect};
use crate::line::{group_line_views, row_views, Line, RowView};
use crate::rows::diff::{append_lines, message_rows, DiffRenderOptions};
use crate::rows::output::{
    answer_rows, ask_ai_output_lines, changeset_title, command_output_rows,
    custom_command_output_lines, title_of,
};
use crate::rows::markdown::markdown_rows;
use crate::rows::status::{
    ask_ai_prompt_lines, ask_ai_prompt_rows, ask_ai_running_lines, ask_ai_running_rows,
    command_running_rows, custom_command_running_lines, discard_status_lines, discard_status_rows,
    live_status_lines, live_status_rows, no_diff_lines, search_status_lines, search_status_rows,
};
use crate::scroll_text::{greatest, least, ScrollView};
use crate::search::text_option;
use crate::selection::seen;
use crate::syntax::Syntaxes;
use crate::text::cat3;
use crate::theme::Theme;
use crate::ui::saturating_u16;
use crate::viewport::{scrollbar_view, DiffScrollbar, ScrollbarView, ViewportView};

verus! {

#[derive(Debug)]
pub struct DiffPaneRows {
    pub title: String,
    pub lines: Vec<Line>,
    pub scrollbar: Option<DiffScrollbar>,
}

/// The pane to fill.
#[derive(Debug, Clone, Copy)]
pub struct DiffFrameRequest {
    pub area: Rect,
    pub content_width: usize,
    pub visible_height: usize,
    pub theme: Theme,
}

/// What [`DiffPaneRows`] hold.
pub struct PaneRowsView {
    pub title: Seq<char>,
    pub rows: Seq<RowView>,
    pub scrollbar: Option<ScrollbarView>,
}

impl View for DiffPaneRows {
    type V = PaneRowsView;

    open spec fn view(&self) -> PaneRowsView {
        PaneRowsView {
            title: self.title@,
            rows: row_views(self.lines@),
            scrollbar: scrollbar_view(self.scrollbar),
        }
    }
}

/// A session on its way to a frame: the rows above the diff, and the place that is left
/// for the diff.
pub struct FramePlan {
    pub app: AppView,
    pub above: Seq<RowView>,
    pub height: int,
    pub width: int,
    pub total: int,
}

impl AppView {
    /// The rows above the diff, without those of a search.
    #[verifier::opaque]
    pub open spec fn status_rows(self, width: int, theme: Theme) -> Seq<RowView> {
        let command = match self.overlay {
            Some(OverlayView::CommandRunning { binding, spinner_frame, cancelling }) =>
                command_running_rows(
                Some(binding.label),
                spinner_frame as int,
                cancelling,
                width,
                theme,
            ),
            _ => seq![],
        };
        let prompt = match self.overlay {
            Some(OverlayView::AskAiPrompt { input, .. }) => ask_ai_prompt_rows(
                Some(input),
                width,
                theme,
            ),
            _ => seq![],
        };
        let question = match self.overlay {
            Some(OverlayView::AskAiRunning { question, spinner_frame, cancelling }) =>
                ask_ai_running_rows(
                Some(question),
                spinner_frame as int,
                cancelling,
                width,
                theme,
            ),
            _ => seq![],
        };
        live_status_rows(self.live_error, self.live_notice, width, theme) + command + prompt
            + question + discard_status_rows(self.discard_question(), width, theme)
    }

    /// The rows about a search.
    pub open spec fn search_rows(self, width: int, theme: Theme) -> Seq<RowView> {
        search_status_rows(self.pane.search.status(), width, theme)
    }

    /// With the layout of the selected file known.
    pub open spec fn laid_out(self, width: int, theme: Theme) -> AppView {
        match self.file() {
            Some(file) => AppView {
                render: self.render.with_layout(
                    self.selected,
                    file,
                    width,
                    theme,
                    self.can_mutate(),
                ),
                ..self
            },
            None => self,
        }
    }

    /// Rows of the selected file.
    pub open spec fn layout_rows(self, width: int, theme: Theme) -> int {
        match self.file() {
            Some(file) => match self.laid_out(width, theme).render.matching_layout(
                self.selected,
                file.id,
                width,
                self.can_mutate(),
            ) {
                Some(layout) => layout.new_line_rows.len() as int,
                None => 0,
            },
            None => 0,
        }
    }

    /// Whether it takes the layout to tell how wide the diff is.
    pub open spec fn width_by_layout(self, request: DiffFrameRequest, height: int) -> bool {
        request.content_width > 1 && height > 0
    }

    /// With what it takes to tell how wide the diff is.
    pub open spec fn measured(self, request: DiffFrameRequest, height: int) -> AppView {
        if self.width_by_layout(request, height) {
            self.laid_out(request.content_width as int, request.theme)
        } else {
            self
        }
    }

    /// Width of the diff: a column goes to the scrollbar where the rows do not fit.
    pub open spec fn diff_width(self, request: DiffFrameRequest, height: int) -> int {
        if self.width_by_layout(request, height) && self.layout_rows(
            request.content_width as int,
            request.theme,
        ) > height {
            request.content_width - 1
        } else {
            request.content_width as int
        }
    }

    pub open spec fn diff_begun(self, area: Rect, height: int) -> AppView {
        AppView {
            viewport: ViewportView {
                diff_area: Some(area),
                diff_view_height: greatest(height, 1),
                ..self.viewport
            },
            ..self
        }
    }

    pub open spec fn render_request(self, width: int, height: int, theme: Theme) -> SelectedDiffRenderRequest {
        SelectedDiffRenderRequest {
            file_index: self.selected as usize,
            content_width: width as usize,
            theme,
            can_stage: self.can_mutate(),
            requested_rows: self.pane.target_rows(height) as usize,
        }
    }

    /// With the rows of the selected file rendered as far as they are needed, and the
    /// matches in them found.
    #[verifier::opaque]
    pub open spec fn rendered(self, width: int, height: int, theme: Theme) -> AppView {
        let render = rendered_state(
            self.render,
            self.files(),
            self.render_request(width, height, theme),
        );
        AppView {
            render,
            pane: self.pane.refreshed(render, self.selected, self.file()),
            ..self
        }.bounded()
    }

    /// Whether rendering finds a match to be scrolled into view.
    #[verifier::opaque]
    pub open spec fn finds_match(self, width: int, height: int, theme: Theme) -> bool {
        self.pane.scrolls_to_match(
            rendered_state(self.render, self.files(), self.render_request(width, height, theme)),
            self.selected,
            self.file(),
        )
    }

    /// Height left below some rows.
    pub open spec fn height_below(self, request: DiffFrameRequest, rows: int) -> int {
        greatest(request.visible_height - rows, 0)
    }

    /// The height of the diff before the matches are counted.
    pub open spec fn first_height(self, request: DiffFrameRequest) -> int {
        let width = request.content_width as int;
        self.height_below(
            request,
            self.status_rows(width, request.theme).len() as int + self.search_rows(
                width,
                request.theme,
            ).len(),
        )
    }

    /// The session on which a first rendering for a search works.
    pub open spec fn first_begun(self, request: DiffFrameRequest) -> AppView {
        let height = self.first_height(request);
        self.measured(request, height).diff_begun(request.area, height).bounded()
    }

    /// With the matches of a search located.
    #[verifier::opaque]
    pub open spec fn located(self, request: DiffFrameRequest) -> AppView {
        let height = self.first_height(request);
        if self.pane.search.query.len() > 0 {
            self.first_begun(request).rendered(
                self.diff_width(request, height),
                height,
                request.theme,
            )
        } else {
            self.measured(request, height)
        }
    }

    /// Whether a match has been located that is to be scrolled into view.
    #[verifier::opaque]
    pub open spec fn locates(self, request: DiffFrameRequest) -> bool {
        let height = self.first_height(request);
        self.pane.search.query.len() > 0 && self.first_begun(request).finds_match(
            self.diff_width(request, height),
            height,
            request.theme,
        )
    }

    /// The scrollbar of the diff, where its rows do not fit.
    #[verifier::opaque]
    pub open spec fn scrollbar_for(
        self,
        request: DiffFrameRequest,
        height: int,
        total: int,
        status_rows: int,
    ) -> Option<ScrollbarView> {
        match self.file() {
            Some(file) => if request.content_width <= 1 || height == 0 || total <= height {
                None
            } else {
                Some(
                    ScrollbarView {
                        area: Rect {
                            x: coordinate(
                                request.area.x + greatest(request.area.width - 2, 0),
                            ) as u16,
                            y: coordinate(
                                coordinate(request.area.y + 1) + coordinate(status_rows),
                            ) as u16,
                            width: 1,
                            height: coordinate(height) as u16,
                        },
                        file_index: self.selected,
                        file_id: file.id,
                        total_rows: total,
                        visible_rows: height,
                        scroll: self.pane.scroll,
                    },
                )
            },
            None => None,
        }
    }

    pub open spec fn with_scrollbar(self, scrollbar: Option<ScrollbarView>) -> AppView {
        AppView {
            viewport: ViewportView { diff_scrollbar: scrollbar, ..self.viewport },
            ..self
        }
    }

    /// With the matches located, the rows above the diff counted and the diff begun.
    #[verifier::opaque]
    pub open spec fn planned(self, request: DiffFrameRequest) -> FramePlan {
        let located = self.located(request);
        let above = self.status_rows(request.content_width as int, request.theme)
            + located.search_rows(request.content_width as int, request.theme);
        let height = self.height_below(request, above.len() as int);
        let counted = AppView {
            viewport: ViewportView { diff_status_rows: above.len() as int, ..located.viewport },
            ..located
        };
        let measured = counted.measured(request, height);
        let width = counted.diff_width(request, height);
        let total = measured.layout_rows(width, request.theme);
        let begun = measured.laid_out(width, request.theme).diff_begun(request.area, height);
        let placed = begun.with_scrollbar(
            begun.scrollbar_for(request, height, total, above.len() as int),
        ).bounded();
        FramePlan {
            app: if self.locates(request) {
                AppView { pane: placed.pane.match_shown(placed.context()), ..placed }.bounded()
            } else {
                placed
            },
            above,
            height,
            width,
            total,
        }
    }

    /// The rows of the diff in view.
    #[verifier::opaque]
    pub open spec fn diff_rows(self, width: int, height: int, theme: Theme) -> Seq<RowView> {
        match self.file() {
            Some(file) => self.pane.marked(
                shown_rows(
                    self.render,
                    self.selected,
                    file,
                    self.pane.scroll,
                    height,
                    DiffRenderOptions {
                        content_width: width as usize,
                        theme,
                        can_stage: self.can_mutate(),
                        selected_hunk_index: usize_option(self.pane.hunk),
                    },
                ),
                theme,
            ),
            None => message_rows(self.source.diff_message(), width, theme),
        }
    }

    /// With text rows recorded as selectable.
    pub open spec fn recorded(self, request: DiffFrameRequest, rows: Seq<RowView>) -> AppView {
        let height = request.visible_height as int;
        AppView {
            selection: self.selection.recorded_over(
                text_area(request.area, request.content_width as int, height),
                rows,
                0,
                height,
            ),
            ..self
        }
    }

    /// Rows with the selected text marked.
    pub open spec fn selection_marked(self, request: DiffFrameRequest, rows: Seq<RowView>) -> Seq<
        RowView,
    > {
        let height = request.visible_height as int;
        self.selection.decorated_over(
            text_area(request.area, request.content_width as int, height),
            rows,
            0,
            height,
            request.theme,
        )
    }

    pub open spec fn pane_title(self) -> Seq<char> {
        " "@ + title_of(self.changeset) + " "@
    }
}

/// The first rows of a list.
pub open spec fn first_rows(rows: Seq<RowView>, height: int) -> Seq<RowView> {
    rows.take(least(rows.len() as int, height))
}

impl FramePlan {
    /// With the diff rendered.
    pub open spec fn rendered(self, request: DiffFrameRequest) -> AppView {
        let drawn = if self.height > 0 {
            self.app.rendered(self.width, self.height, request.theme)
        } else {
            self.app
        };
        drawn.with_scrollbar(
            drawn.scrollbar_for(request, self.height, self.total, self.above.len() as int),
        )
    }

    /// The rows of the pane.
    pub open spec fn rows(self, request: DiffFrameRequest) -> Seq<RowView> {
        first_rows(
            self.above + if self.height > 0 {
                self.rendered(request).diff_rows(self.width, self.height, request.theme)
            } else {
                seq![]
            },
            request.visible_height as int,
        )
    }

    pub open spec fn drawn(self, request: DiffFrameRequest) -> AppView {
        self.rendered(request).recorded(request, self.rows(request))
    }

    pub open spec fn shown(self, request: DiffFrameRequest) -> PaneRowsView {
        PaneRowsView {
            title: self.app.pane_title(),
            rows: self.rendered(request).selection_marked(request, self.rows(request)),
            scrollbar: self.rendered(request).viewport.diff_scrollbar,
        }
    }
}

impl AppView {
    /// The rows of a pane with output: the status above the visible part of the output.
    pub open spec fn output_frame_rows(
        self,
        request: DiffFrameRequest,
        output: Seq<RowView>,
        scroll: ScrollView,
    ) -> Seq<RowView> {
        let above = live_status_rows(
            self.live_error,
            self.live_notice,
            request.content_width as int,
            request.theme,
        );
        let height = self.height_below(request, above.len() as int);
        let synced = scroll.synced(output.len() as int, height);
        first_rows(
            above + seen(output, synced.at, synced.height),
            request.visible_height as int,
        )
    }

    /// With a pane of output drawn.
    pub open spec fn output_drawn(
        self,
        request: DiffFrameRequest,
        overlay: OverlayView,
        output: Seq<RowView>,
        scroll: ScrollView,
    ) -> AppView {
        let above = live_status_rows(
            self.live_error,
            self.live_notice,
            request.content_width as int,
            request.theme,
        );
        let height = self.height_below(request, above.len() as int);
        AppView {
            viewport: ViewportView {
                diff_area: Some(request.area),
                diff_view_height: greatest(request.visible_height as int, 1),
                diff_status_rows: above.len() as int,
                ..self.viewport
            },
            overlay: Some(overlay.with_scroll(scroll.synced(output.len() as int, height))),
            ..self
        }.recorded(request, self.output_frame_rows(request, output, scroll))
    }

    pub open spec fn output_shown(
        self,
        request: DiffFrameRequest,
        title: Seq<char>,
        output: Seq<RowView>,
        scroll: ScrollView,
    ) -> PaneRowsView {
        PaneRowsView {
            title,
            rows: self.selection_marked(
                request,
                self.output_frame_rows(request, output, scroll),
            ),
            scrollbar: None,
        }
    }

    /// The title, rows and scroll of the output that the diff pane shows, if any.
    pub open spec fn output(self, request: DiffFrameRequest) -> Option<
        (Seq<char>, Seq<RowView>, ScrollView),
    > {
        let width = request.content_width as int;
        match self.overlay {
            Some(OverlayView::AskAiOutput { result, scroll }) => Some(
                (
                    " Ask AI: "@ + result.request.context.short() + " "@,
                    answer_rows(
                        result,
                        markdown_rows(result.outcome.stdout, width, request.theme),
                        width,
                        request.theme,
                    ),
                    scroll,
                ),
            ),
            Some(OverlayView::CommandOutput { result, scroll }) => Some(
                (
                    " Command: "@ + result.label + " "@,
                    command_output_rows(result, width, request.theme),
                    scroll,
                ),
            ),
            _ => None,
        }
    }

    /// With the diff pane drawn.
    pub open spec fn frame_drawn(self, request: DiffFrameRequest) -> AppView {
        match self.output(request) {
            Some((_, rows, scroll)) => self.output_drawn(request, self.overlay->0, rows, scroll),
            None => self.planned(request).drawn(request),
        }
    }

    /// What the diff pane shows.
    pub open spec fn frame_shown(self, request: DiffFrameRequest) -> PaneRowsView {
        match self.output(request) {
            Some((title, rows, scroll)) => self.output_shown(request, title, rows, scroll),
            None => self.planned(request).shown(request),
        }
    }

    /// Whether sources are to be loaded before the diff is rendered: the selected file is
    /// shown, has hunks with source before them, and has a side that was not loaded yet.
    pub open spec fn wants_sources(self) -> bool {
        &&& !(self.overlay is Some && self.overlay->0 is AskAiOutput)
        &&& !(self.overlay is Some && self.overlay->0 is CommandOutput)
        &&& match self.file() {
            Some(file) => context_lines(file) is Some && (file.old_source is Unloaded
                || file.new_source is Unloaded),
            None => false,
        }
    }
}

impl App {
    /// Whether sources are to be loaded before the diff is rendered.
    pub fn wants_sources(&self) -> (wants: bool)
        ensures
            wants == self@.wants_sources(),
    {
        if self.ask_ai_output().is_some() || self.command_output().is_some() {
            return false;
        }
        match self.selected_file() {
            Some(file) => source_context_lines(file).is_some() && (file.old_source.is_unloaded()
                || file.new_source.is_unloaded()),
            None => false,
        }
    }

    fn status_lines(&self, content_width: usize, theme: Theme) -> (lines: Vec<Line>)
        ensures
            row_views(lines@) == self@.status_rows(content_width as int, theme),
    {
        reveal(AppView::status_rows);
        broadcast use group_line_views;

        let mut lines = live_status_lines(
            option_str(&self.live_error),
            option_str(&self.live_notice),
            content_width,
            theme,
        );
        let ghost live = row_views(lines@);
        if let Some((binding, spinner_frame, cancelling)) = self.command_running() {
            append_lines(
                &mut lines,
                custom_command_running_lines(
                    Some(binding),
                    spinner_frame,
                    cancelling,
                    content_width,
                    theme,
                ),
            );
        } else {
            assert(live + seq![] =~= live);
        }
        let ghost command = row_views(lines@);
        if let Some(prompt) = self.ask_ai_prompt() {
            append_lines(
                &mut lines,
                ask_ai_prompt_lines(Some(prompt.input.as_str()), content_width, theme),
            );
        } else {
            assert(command + seq![] =~= command);
        }
        let ghost prompt_rows = row_views(lines@);
        if let Some((question, spinner_frame, cancelling)) = self.ask_ai_running() {
            append_lines(
                &mut lines,
                ask_ai_running_lines(
                    Some(question),
                    spinner_frame,
                    cancelling,
                    content_width,
                    theme,
                ),
            );
        } else {
            assert(prompt_rows + seq![] =~= prompt_rows);
        }
        let question = self.discard_prompt();
        append_lines(
            &mut lines,
            discard_status_lines(option_str(&question), content_width, theme),
        );
        lines
    }

    fn search_lines(&self, content_width: usize, theme: Theme) -> (lines: Vec<Line>)
        requires
            self.wf(),
        ensures
            row_views(lines@) == self@.search_rows(content_width as int, theme),
    {
        search_status_lines(self.diff_pane.search_status(), content_width, theme)
    }

    fn selected_diff_line_count(&mut self, content_width: usize, theme: Theme) -> (rows: usize)
        requires
            old(self).wf(),
        ensures
            final(self)@ == old(self)@.laid_out(content_width as int, theme),
            rows == old(self)@.layout_rows(content_width as int, theme),
            final(self).wf(),
    {
        let can_stage = self.can_mutate();
        self.diff_render.total_rows(
            self.selected_file_index,
            file_at(&self.changeset, self.selected_file_index),
            content_width,
            theme,
            can_stage,
        )
    }

    fn diff_content_width(&mut self, request: DiffFrameRequest, height: usize) -> (width: usize)
        requires
            old(self).wf(),
        ensures
            final(self)@ == old(self)@.measured(request, height as int),
            width == old(self)@.diff_width(request, height as int),
            final(self).wf(),
    {
        if request.content_width > 1 && height > 0 {
            let rows: usize = self.selected_diff_line_count(request.content_width, request.theme);
            if rows > height {
                return request.content_width - 1;
            }
        }
        request.content_width
    }

    /// Renders the rows of the selected file as far as they are needed; tells whether a
    /// match is to be scrolled into view.
    pub fn ensure_selected_diff_cache(
        &mut self,
        content_width: usize,
        visible_height: usize,
        theme: Theme,
        syntaxes: &Syntaxes,
    ) -> (should_scroll: bool)
        requires
            old(self).wf(),
        ensures
            final(self)@ == old(self)@.rendered(
                content_width as int,
                visible_height as int,
                theme,
            ),
            should_scroll == old(self)@.finds_match(
                content_width as int,
                visible_height as int,
                theme,
            ),
            final(self).wf(),
    {
        reveal(AppView::rendered);
        reveal(AppView::finds_match);
        let request = SelectedDiffRenderRequest {
            file_index: self.selected_file_index,
            content_width,
            theme,
            can_stage: self.can_mutate(),
            requested_rows: self.diff_pane.render_target_rows(visible_height),
        };
        self.diff_render.ensure_selected_file(&self.changeset, request, syntaxes);
        let should_scroll = self.diff_pane.refresh_search_matches(
            &self.diff_render,
            self.selected_file_index,
            file_at(&self.changeset, self.selected_file_index),
        );
        self.ensure_scroll_bounds();
        should_scroll
    }

    fn diff_scrollbar(
        &self,
        request: DiffFrameRequest,
        height: usize,
        total_rows: usize,
        status_rows: usize,
    ) -> (scrollbar: Option<DiffScrollbar>)
        ensures
            scrollbar_view(scrollbar) == self@.scrollbar_for(
                request,
                height as int,
                total_rows as int,
                status_rows as int,
            ),
    {
        reveal(AppView::scrollbar_for);
        if request.content_width <= 1 || height == 0 || total_rows <= height {
            return None;
        }
        match self.selected_file() {
            Some(file) => {
                let area = Rect {
                    x: request.area.x.saturating_add(request.area.width.saturating_sub(2)),
                    y: request.area.y.saturating_add(1).saturating_add(
                        saturating_u16(status_rows),
                    ),
                    width: 1,
                    height: saturating_u16(height),
                };
                Some(
                    DiffScrollbar::new(
                        area,
                        self.selected_file_index,
                        file.id.clone(),
                        total_rows,
                        height,
                        self.diff_pane.scroll(),
                    ),
                )
            },
            None => None,
        }
    }

    fn visible_diff_lines(&self, content_width: usize, visible_height: usize, theme: Theme) -> (lines:
        Vec<Line>)
        ensures
            row_views(lines@) == self@.diff_rows(
                content_width as int,
                visible_height as int,
                theme,
            ),
    {
        reveal(AppView::diff_rows);
        match self.selected_file() {
            Some(file) => {
                let lines = self.diff_render.visible_selected_lines(
                    self.selected_file_index,
                    file,
                    self.diff_pane.scroll(),
                    visible_height,
                    DiffRenderOptions {
                        content_width,
                        theme,
                        can_stage: self.can_mutate(),
                        selected_hunk_index: self.diff_pane.selected_hunk_index(),
                    },
                );
                self.diff_pane.highlight_search_matches(lines, theme)
            },
            None => no_diff_lines(self.source.no_diff_message(), content_width, theme),
        }
    }

    /// Locates the matches of a search.
    fn locate_matches(&mut self, request: DiffFrameRequest, status_rows: usize, syntaxes: &Syntaxes) -> (found:
        bool)
        requires
            old(self).wf(),
            status_rows == old(self)@.status_rows(
                request.content_width as int,
                request.theme,
            ).len(),
        ensures
            final(self)@ == old(self)@.located(request),
            found == old(self)@.locates(request),
            final(self).wf(),
    {
        reveal(AppView::located);
        reveal(AppView::locates);
        let search_lines = self.search_lines(request.content_width, request.theme);
        assert(row_views(search_lines@).len() == search_lines@.len());
        let height: usize = request.visible_height.saturating_sub(status_rows).saturating_sub(
            search_lines.len(),
        );
        assert(height == self@.first_height(request));
        let width: usize = self.diff_content_width(request, height);
        if self.diff_pane.has_active_search() {
            self.viewport.begin_diff(request.area, height);
            self.ensure_scroll_bounds();
            self.ensure_selected_diff_cache(width, height, request.theme, syntaxes)
        } else {
            false
        }
    }

    /// Locates the matches of a search, and begins the diff below what is said above it.
    fn plan_frame(&mut self, request: DiffFrameRequest, syntaxes: &Syntaxes) -> (plan: (
        Vec<Line>,
        usize,
        usize,
        usize,
    ))
        requires
            old(self).wf(),
        ensures
            final(self).wf(),
            ({
                let wanted = old(self)@.planned(request);
                &&& final(self)@ == wanted.app
                &&& row_views(plan.0@) == wanted.above
                &&& plan.1 == wanted.height
                &&& plan.2 == wanted.width
                &&& plan.3 == wanted.total
            }),
    {
        reveal(AppView::planned);
        let mut lines = self.status_lines(request.content_width, request.theme);
        assert(row_views(lines@).len() == lines@.len());
        let found = self.locate_matches(request, lines.len(), syntaxes);
        append_lines(&mut lines, self.search_lines(request.content_width, request.theme));
        assert(row_views(lines@).len() == lines@.len());
        let (height, width, total) = self.place_diff(request, lines.len(), found);
        (lines, height, width, total)
    }

    /// Shows the diff with what is said above it.
    pub fn review_pane_rows(&mut self, request: DiffFrameRequest, syntaxes: &Syntaxes) -> (pane:
        DiffPaneRows)
        requires
            old(self).wf(),
        ensures
            final(self)@ == old(self)@.planned(request).drawn(request),
            pane@ == old(self)@.planned(request).shown(request),
            final(self).wf(),
    {
        let ghost plan = self@.planned(request);
        let (above, height, width, total) = self.plan_frame(request, syntaxes);
        let mut lines = above;
        assert(row_views(lines@).len() == lines@.len());
        let status_rows: usize = lines.len();
        let title = cat3(" ", changeset_title(&self.changeset).as_str(), " ");
        if height > 0 {
            self.ensure_selected_diff_cache(width, height, request.theme, syntaxes);
        }
        let scrollbar = self.diff_scrollbar(request, height, total, status_rows);
        self.viewport.set_diff_scrollbar(scrollbar);
        assert(self@ == plan.rendered(request));
        if height > 0 {
            append_lines(&mut lines, self.visible_diff_lines(width, height, request.theme));
        } else {
            assert(plan.above + seq![] =~= plan.above);
        }
        let ghost all = row_views(lines@);
        lines.truncate(request.visible_height);
        assert(row_views(lines@) =~= first_rows(all, request.visible_height as int));
        assert(row_views(lines@) == plan.rows(request));
        let scrollbar = match self.viewport.diff_scrollbar() {
            Some(bar) => Some(bar.clone()),
            None => None,
        };
        let lines = self.decorate_pane(request, lines);
        DiffPaneRows { title, lines, scrollbar }
    }

    /// Begins the diff below the rows about status; returns its height, its width and
    /// the number of its rows.
    fn place_diff(&mut self, request: DiffFrameRequest, status_rows: usize, found: bool) -> (place: (
        usize,
        usize,
        usize,
    ))
        requires
            old(self).wf(),
        ensures
            final(self).wf(),
            ({
                let located = old(self)@;
                let counted = AppView {
                    viewport: ViewportView {
                        diff_status_rows: status_rows as int,
                        ..located.viewport
                    },
                    ..located
                };
                let height = greatest(request.visible_height - status_rows, 0);
                let measured = counted.measured(request, height);
                let width = counted.diff_width(request, height);
                let total = measured.layout_rows(width, request.theme);
                let begun = measured.laid_out(width, request.theme).diff_begun(
                    request.area,
                    height,
                );
                let placed = begun.with_scrollbar(
                    begun.scrollbar_for(request, height, total, status_rows as int),
                ).bounded();
                &&& place.0 == height
                &&& place.1 == width
                &&& place.2 == total
                &&& final(self)@ == if found {
                    AppView { pane: placed.pane.match_shown(placed.context()), ..placed }.bounded()
                } else {
                    placed
                }
            }),
    {
        self.viewport.set_diff_status_rows(status_rows);
        let height: usize = request.visible_height.saturating_sub(status_rows);
        let width: usize = self.diff_content_width(request, height);
        let total: usize = self.selected_diff_line_count(width, request.theme);
        self.viewport.begin_diff(request.area, height);
        let scrollbar = self.diff_scrollbar(request, height, total, status_rows);
        self.viewport.set_diff_scrollbar(scrollbar);
        self.ensure_scroll_bounds();
        if found {
            self.diff_pane.scroll_active_search_match(
                &self.viewport,
                &self.diff_render,
                self.selected_file_index,
                file_at(&self.changeset, self.selected_file_index),
            );
            self.ensure_scroll_bounds();
        }
        (height, width, total)
    }

    fn decorate_pane(&mut self, request: DiffFrameRequest, lines: Vec<Line>) -> (decorated: Vec<
        Line,
    >)
        ensures
            final(self)@ == old(self)@.recorded(request, row_views(lines@)),
            row_views(decorated@) == old(self)@.selection_marked(request, row_views(lines@)),
            old(self).wf() ==> final(self).wf(),
    {
        self.selectable_lines(
            pane_text_area(request.area, request.content_width, request.visible_height),
            lines,
            0,
            request.visible_height,
            request.theme,
        )
    }

    /// Shows output in the place of the diff.
    fn output_pane_rows(
        &mut self,
        request: DiffFrameRequest,
        title: String,
        all_lines: Vec<Line>,
    ) -> (pane: DiffPaneRows)
        requires
            old(self).wf(),
            old(self)@.overlay is Some,
            old(self)@.overlay->0 is AskAiOutput || old(self)@.overlay->0 is CommandOutput,
        ensures
            final(self).wf(),
            final(self)@ == old(self)@.output_drawn(
                request,
                old(self)@.overlay->0,
                row_views(all_lines@),
                old(self)@.overlay->0.scroll()->0,
            ),
            pane@ == old(self)@.output_shown(
                request,
                title@,
                row_views(all_lines@),
                old(self)@.overlay->0.scroll()->0,
            ),
    {
        broadcast use group_line_views;

        let ghost start = self@;
        let ghost output = row_views(all_lines@);
        assert(output.len() == all_lines@.len());
        let ghost scroll = start.overlay->0.scroll()->0;
        let mut lines = live_status_lines(
            option_str(&self.live_error),
            option_str(&self.live_notice),
            request.content_width,
            request.theme,
        );
        let ghost above = row_views(lines@);
        assert(above.len() == lines@.len());
        let output_height: usize = request.visible_height.saturating_sub(lines.len());
        self.viewport.begin_diff(request.area, request.visible_height);
        self.viewport.set_diff_status_rows(lines.len());
        let visible = self.sync_output(all_lines, output_height);
        append_lines(&mut lines, visible);
        let ghost all = row_views(lines@);
        lines.truncate(request.visible_height);
        assert(row_views(lines@) =~= first_rows(all, request.visible_height as int));
        assert(row_views(lines@) == start.output_frame_rows(request, output, scroll));
        let lines = self.decorate_pane(request, lines);
        DiffPaneRows { title, lines, scrollbar: None }
    }

    /// Scrolls output within its bounds; returns the part of it in view.
    fn sync_output(&mut self, all_lines: Vec<Line>, output_height: usize) -> (visible: Vec<Line>)
        requires
            old(self).wf(),
            old(self)@.overlay is Some,
            old(self)@.overlay->0 is AskAiOutput || old(self)@.overlay->0 is CommandOutput,
        ensures
            final(self).wf(),
            ({
                let synced = old(self)@.overlay->0.scroll()->0.synced(
                    row_views(all_lines@).len() as int,
                    output_height as int,
                );
                &&& final(self)@ == old(self)@.overlaid(
                    Some(old(self)@.overlay->0.with_scroll(synced)),
                )
                &&& row_views(visible@) == seen(row_views(all_lines@), synced.at, synced.height)
            }),
    {
        let ghost rows = row_views(all_lines@);
        let ghost synced = self@.overlay->0.scroll()->0.synced(
            rows.len() as int,
            output_height as int,
        );
        let visible = match &mut self.overlay {
            Some(Overlay::AskAiOutput(output)) => {
                output.scroll.sync(all_lines.len(), output_height);
                output.scroll.visible(all_lines)
            },
            Some(Overlay::CommandOutput(output)) => {
                output.scroll.sync(all_lines.len(), output_height);
                output.scroll.visible(all_lines)
            },
            _ => all_lines,
        };
        assert(row_views(visible@) =~= seen(rows, synced.at, synced.height));
        visible
    }

    /// Draws the diff pane.
    pub fn diff_pane_rows(
        &mut self,
        area: Rect,
        content_width: usize,
        visible_height: usize,
        theme: Theme,
        syntaxes: &Syntaxes,
    ) -> (pane: DiffPaneRows)
        requires
            old(self).wf(),
        ensures
            final(self)@ == old(self)@.frame_drawn(
                (DiffFrameRequest { area, content_width, visible_height, theme }),
            ),
            pane@ == old(self)@.frame_shown(
                (DiffFrameRequest { area, content_width, visible_height, theme }),
            ),
            final(self).wf(),
    {
        let request = DiffFrameRequest { area, content_width, visible_height, theme };
        if let Some(output) = self.ask_ai_output() {
            let title = cat3(" Ask AI: ", output.result.context_summary().as_str(), " ");
            let all_lines = ask_ai_output_lines(&output.result, content_width, theme);
            return self.output_pane_rows(request, title, all_lines);
        }
        if let Some(output) = self.command_output() {
            let title = cat3(" Command: ", output.result.label(), " ");
            let all_lines = custom_command_output_lines(&output.result, content_width, theme);
            return self.output_pane_rows(request, title, all_lines);
        }
        self.review_pane_rows(request, syntaxes)
    }
}

fn option_str(text: &Option<String>) -> (inner: Option<&str>)
    ensures
        str_option(inner) == text_option(*text),
{
    match text {
        Some(inner) => Some(inner.as_str()),
        None => None,
    }
}

} // verus!
