//! Scroll, hunk selection and search of the diff pane.

use vstd::prelude::*;

use crate::diff_render::{int_option, DiffRenderState, LinesCacheView, RenderView};
use crate::input::KeyEvent;
use crate::line::{row_views, Line, RowView};
use crate::model::{Changeset, ChangesetView, DiffFile, DiffHunk, FileView};
use crate::rows::status::DIFF_PREFETCH_ROWS;
use crate::scroll_text::{greatest, least, VerticalDirection};
use crate::search::{highlighted_row, Search, SearchStatus, SearchView};
use crate::theme::Theme;
use crate::viewport::{RenderedViewport, ViewportScrollInput};

verus! {

#[derive(Debug)]
pub struct DiffPaneState {
    pub scroll: usize,
    pub selected_hunk_index: Option<usize>,
    pub search: Search,
}

/// What a [`DiffPaneState`] holds.
#[verifier::ext_equal]
pub struct PaneView {
    pub scroll: int,
    pub hunk: Option<int>,
    pub search: SearchView,
}

/// What moves in the diff pane go by: the rendered rows, the height of the view, and
/// the selected file.
pub struct PaneContext {
    pub render: RenderView,
    pub height: int,
    pub file_index: int,
    pub file: Option<FileView>,
}

impl View for DiffPaneState {
    type V = PaneView;

    open spec fn view(&self) -> PaneView {
        PaneView {
            scroll: self.scroll as int,
            hunk: int_option(self.selected_hunk_index),
            search: self.search@,
        }
    }
}

pub open spec fn file_option(file: Option<&DiffFile>) -> Option<FileView> {
    match file {
        Some(inner) => Some(inner@),
        None => None,
    }
}

/// A hunk of a file: the given one as far as there is one, else the first.
pub open spec fn bounded_hunk(file: FileView, hunk: Option<int>) -> Option<int> {
    if file.hunks.len() == 0 {
        None
    } else {
        let index = match hunk {
            Some(index) => index,
            None => 0,
        };
        Some(least(index, file.hunks.len() - 1))
    }
}

/// A hunk of a file, if there is a file.
pub open spec fn bounded_hunk_of(file: Option<FileView>, hunk: Option<int>) -> Option<int> {
    match file {
        Some(file) => bounded_hunk(file, hunk),
        None => None,
    }
}

impl PaneContext {
    /// The hunk that a row belongs to.
    pub open spec fn hunk_at(self, row: int) -> Option<int> {
        match self.file {
            Some(file) => self.render.hunk_at(
                self.file_index,
                file.id,
                row,
                file.hunks.len() as int,
            ),
            None => None,
        }
    }
}

impl PaneView {
    pub open spec fn start(changeset: ChangesetView) -> PaneView {
        PaneView {
            scroll: 0,
            hunk: if changeset.files.len() > 0 {
                bounded_hunk(changeset.files[0], None)
            } else {
                None
            },
            search: SearchView::initial(),
        }
    }

    /// With another file selected.
    pub open spec fn on_file(self, file: Option<FileView>) -> PaneView {
        PaneView {
            scroll: 0,
            hunk: bounded_hunk_of(file, None),
            search: self.search.invalidated(),
        }
    }

    /// Within the bounds of the selected file.
    pub open spec fn bounded(self, file: Option<FileView>, max_scroll: int) -> PaneView {
        PaneView {
            scroll: least(self.scroll, max_scroll),
            hunk: bounded_hunk_of(file, self.hunk),
            ..self
        }
    }

    /// Scrolled to a row, with the hunk of that row selected.
    pub open spec fn at_row(self, row: int, context: PaneContext) -> PaneView {
        PaneView { scroll: row, hunk: context.hunk_at(row), ..self }
    }

    pub open spec fn moved(
        self,
        direction: VerticalDirection,
        amount: int,
        context: PaneContext,
    ) -> PaneView {
        self.at_row(direction.shifted(self.scroll, amount), context)
    }

    pub open spec fn at_bottom(self, file: Option<FileView>) -> PaneView {
        PaneView {
            scroll: usize::MAX as int,
            hunk: match file {
                Some(file) => if file.hunks.len() > 0 { Some(file.hunks.len() - 1) } else { None },
                None => None,
            },
            ..self
        }
    }

    /// With the header of the selected hunk in the middle of the view.
    pub open spec fn centered(self, context: PaneContext) -> PaneView {
        match (self.hunk, context.file) {
            (Some(hunk), Some(file)) => if hunk < file.hunks.len() {
                match context.render.offset_of(context.file_index, file.id, hunk) {
                    Some(offset) => PaneView {
                        scroll: greatest(offset - context.height / 2, 0),
                        ..self
                    },
                    None => self,
                }
            } else {
                self
            },
            _ => self,
        }
    }

    /// On the next or previous hunk.
    pub open spec fn hunk_jumped(self, direction: VerticalDirection, context: PaneContext) -> PaneView {
        match context.file {
            Some(file) => if file.hunks.len() == 0 {
                PaneView { hunk: None, ..self }
            } else {
                let last = file.hunks.len() - 1;
                let at_scroll = match context.hunk_at(self.scroll) {
                    Some(hunk) => hunk,
                    None => 0,
                };
                let current = match self.hunk {
                    Some(hunk) => hunk,
                    None => at_scroll,
                };
                let target = least(direction.shifted(least(current, last), 1), last);
                PaneView { hunk: Some(target), ..self }.centered(context)
            },
            None => self,
        }
    }

    /// With the active match in the middle of the view.
    pub open spec fn match_shown(self, context: PaneContext) -> PaneView {
        match self.search.active_row() {
            Some(row) => self.at_row(greatest(row - context.height / 2, 0), context),
            None => self,
        }
    }

    /// On the next or previous match.
    pub open spec fn match_jumped(self, direction: VerticalDirection, context: PaneContext) -> PaneView {
        let advanced = PaneView {
            search: self.search.advanced(direction == VerticalDirection::Down),
            ..self
        };
        if self.search.matches.len() > 0 { advanced.match_shown(context) } else { advanced }
    }

    /// On the next or previous match while a search is active, else on the next or
    /// previous hunk.
    pub open spec fn jumped(self, direction: VerticalDirection, context: PaneContext) -> PaneView {
        if self.search.query.len() > 0 {
            self.match_jumped(direction, context)
        } else {
            self.hunk_jumped(direction, context)
        }
    }

    /// Rows to render: all of them for a search, else some more than are visible.
    pub open spec fn target_rows(self, visible_height: int) -> int {
        let most = usize::MAX as int;
        if self.search.query.len() > 0 {
            most
        } else {
            least(least(self.scroll + visible_height, most) + DIFF_PREFETCH_ROWS, most)
        }
    }

    /// With the matches in the rendered rows of a file.
    pub open spec fn refreshed(
        self,
        render: RenderView,
        file_index: int,
        file: Option<FileView>,
    ) -> PaneView {
        PaneView {
            search: match rendered_file(render, file_index, file) {
                Some(cache) => self.search.refreshed(file->0.id, cache.lines),
                None => self.search.without_matches(),
            },
            ..self
        }
    }

    /// Whether the first match found is to be scrolled into view.
    pub open spec fn scrolls_to_match(
        self,
        render: RenderView,
        file_index: int,
        file: Option<FileView>,
    ) -> bool {
        rendered_file(render, file_index, file) is Some && self.search.scroll_pending
            && self.refreshed(render, file_index, file).search.active_index is Some
    }

    /// Rows with the matches in them marked.
    pub open spec fn marked(self, rows: Seq<RowView>, theme: Theme) -> Seq<RowView> {
        if self.search.query.len() > 0 {
            Seq::new(
                rows.len(),
                |i: int|
                    highlighted_row(
                        self.search,
                        rows[i],
                        least(self.scroll + i, usize::MAX as int),
                        theme,
                    ),
            )
        } else {
            rows
        }
    }
}

/// The rendered rows of a file.
pub open spec fn rendered_file(
    render: RenderView,
    file_index: int,
    file: Option<FileView>,
) -> Option<LinesCacheView> {
    match file {
        Some(file) => render.lines_of(file_index, file.id),
        None => None,
    }
}

/// The context of moves in the diff pane.
pub open spec fn pane_context(
    render: DiffRenderState,
    viewport: RenderedViewport,
    file_index: usize,
    file: Option<&DiffFile>,
) -> PaneContext {
    PaneContext {
        render: render@,
        height: viewport@.diff_view_height,
        file_index: file_index as int,
        file: file_option(file),
    }
}

impl DiffPaneState {
    /// The active match is one of the matches.
    pub open spec fn wf(self) -> bool {
        self.search@.wf()
    }

    pub fn new(changeset: &Changeset) -> (pane: Self)
        ensures
            pane.wf(),
            pane@ == PaneView::start(changeset@),
    {
        DiffPaneState {
            scroll: 0,
            selected_hunk_index: initial_selected_hunk_index(changeset),
            search: Search::default(),
        }
    }

    pub fn scroll(&self) -> (scroll: usize)
        ensures
            scroll == self@.scroll,
    {
        self.scroll
    }

    pub fn set_scroll(&mut self, scroll: usize)
        ensures
            final(self)@ == (PaneView { scroll: scroll as int, ..old(self)@ }),
            old(self).wf() ==> final(self).wf(),
    {
        self.scroll = scroll;
    }

    pub fn selected_hunk_index(&self) -> (index: Option<usize>)
        ensures
            int_option(index) == self@.hunk,
    {
        self.selected_hunk_index
    }

    pub fn set_selected_hunk_index(&mut self, index: Option<usize>)
        ensures
            final(self)@ == (PaneView { hunk: int_option(index), ..old(self)@ }),
            old(self).wf() ==> final(self).wf(),
    {
        self.selected_hunk_index = index;
    }

    pub fn selected_hunk<'a>(&self, file: Option<&'a DiffFile>) -> (hunk: Option<&'a DiffHunk>)
        ensures
            match hunk {
                Some(found) => file is Some && self@.hunk is Some && self@.hunk->0
                    < file->0@.hunks.len() && found@ == file->0@.hunks[self@.hunk->0],
                None => file is None || self@.hunk is None || self@.hunk->0
                    >= file->0@.hunks.len(),
            },
    {
        match (file, self.selected_hunk_index) {
            (Some(file), Some(index)) => if index < file.hunks.len() {
                Some(&file.hunks[index])
            } else {
                None
            },
            _ => None,
        }
    }

    pub fn select_file(&mut self, file: Option<&DiffFile>)
        ensures
            final(self).wf(),
            final(self)@ == old(self)@.on_file(file_option(file)),
    {
        self.selected_hunk_index = match file {
            Some(file) => bounded_hunk_index(file, None),
            None => None,
        };
        self.scroll = 0;
        self.invalidate_search_matches();
    }

    /// Keeps hunk and scroll offsets in bounds; returns the scroll offset of the
    /// sidebar.
    pub fn ensure_bounds(
        &mut self,
        file: Option<&DiffFile>,
        viewport: &RenderedViewport,
        input: ViewportScrollInput,
    ) -> (sidebar_scroll: usize)
        ensures
            old(self).wf() ==> final(self).wf(),
            final(self)@ == (PaneView {
                scroll: input.diff_scroll as int,
                ..old(self)@
            }).bounded(file_option(file), input.diff_max_scroll as int),
            sidebar_scroll == if input.file_count == 0 { 0 } else { input.sidebar_scroll },
    {
        self.ensure_selected_hunk_bounds(file);
        let scrolls = viewport.clamped_scrolls(input);
        self.scroll = scrolls.diff_scroll;
        scrolls.sidebar_scroll
    }

    pub fn scroll_page(
        &mut self,
        direction: VerticalDirection,
        viewport: &RenderedViewport,
        render: &DiffRenderState,
        selected_file_index: usize,
        file: Option<&DiffFile>,
    )
        ensures
            old(self).wf() ==> final(self).wf(),
            final(self)@ == old(self)@.moved(
                direction,
                viewport@.diff_view_height,
                pane_context(*render, *viewport, selected_file_index, file),
            ),
    {
        self.scroll_by(
            direction,
            viewport.diff_view_height(),
            viewport,
            render,
            selected_file_index,
            file,
        );
    }

    pub fn scroll_by(
        &mut self,
        direction: VerticalDirection,
        amount: usize,
        viewport: &RenderedViewport,
        render: &DiffRenderState,
        selected_file_index: usize,
        file: Option<&DiffFile>,
    )
        ensures
            old(self).wf() ==> final(self).wf(),
            final(self)@ == old(self)@.moved(
                direction,
                amount as int,
                pane_context(*render, *viewport, selected_file_index, file),
            ),
    {
        let scroll: usize = direction.shift(self.scroll, amount);
        self.scroll_to(scroll, viewport, render, selected_file_index, file);
    }

    pub fn scroll_to(
        &mut self,
        scroll: usize,
        viewport: &RenderedViewport,
        render: &DiffRenderState,
        selected_file_index: usize,
        file: Option<&DiffFile>,
    )
        ensures
            old(self).wf() ==> final(self).wf(),
            final(self)@ == old(self)@.at_row(
                scroll as int,
                pane_context(*render, *viewport, selected_file_index, file),
            ),
    {
        self.scroll = scroll;
        self.select_hunk_at_scroll(viewport, render, selected_file_index, file);
    }

    pub fn scroll_to_top(
        &mut self,
        viewport: &RenderedViewport,
        render: &DiffRenderState,
        selected_file_index: usize,
        file: Option<&DiffFile>,
    )
        ensures
            old(self).wf() ==> final(self).wf(),
            final(self)@ == old(self)@.at_row(
                0,
                pane_context(*render, *viewport, selected_file_index, file),
            ),
    {
        self.scroll_to(0, viewport, render, selected_file_index, file);
    }

    pub fn scroll_to_bottom(&mut self, file: Option<&DiffFile>)
        ensures
            old(self).wf() ==> final(self).wf(),
            final(self)@ == old(self)@.at_bottom(file_option(file)),
    {
        self.scroll = usize::MAX;
        self.selected_hunk_index = match file {
            Some(file) => if file.hunks.len() > 0 { Some(file.hunks.len() - 1) } else { None },
            None => None,
        };
    }

    pub fn jump_by(
        &mut self,
        direction: VerticalDirection,
        viewport: &RenderedViewport,
        render: &DiffRenderState,
        selected_file_index: usize,
        file: Option<&DiffFile>,
    )
        ensures
            old(self).wf() ==> final(self).wf(),
            final(self)@ == old(self)@.jumped(
                direction,
                pane_context(*render, *viewport, selected_file_index, file),
            ),
    {
        if self.has_active_search() {
            self.jump_search_match(direction, viewport, render, selected_file_index, file);
        } else {
            self.jump_hunk(direction, viewport, render, selected_file_index, file);
        }
    }

    pub fn center_selected_hunk(
        &mut self,
        viewport: &RenderedViewport,
        render: &DiffRenderState,
        selected_file_index: usize,
        file: Option<&DiffFile>,
    )
        ensures
            old(self).wf() ==> final(self).wf(),
            final(self)@ == old(self)@.centered(
                pane_context(*render, *viewport, selected_file_index, file),
            ),
    {
        let index: usize = match self.selected_hunk_index {
            Some(index) => index,
            None => {
                return;
            },
        };
        let file = match file {
            Some(file) => file,
            None => {
                return;
            },
        };
        if index >= file.hunks.len() {
            return;
        }
        if let Some(offset) = render.hunk_offset(selected_file_index, file.id.as_str(), index) {
            self.scroll = offset.saturating_sub(viewport.diff_view_height() / 2);
        }
    }

    pub fn select_hunk_at_scroll(
        &mut self,
        viewport: &RenderedViewport,
        render: &DiffRenderState,
        selected_file_index: usize,
        file: Option<&DiffFile>,
    )
        ensures
            old(self).wf() ==> final(self).wf(),
            final(self)@ == old(self)@.at_row(
                old(self)@.scroll,
                pane_context(*render, *viewport, selected_file_index, file),
            ),
    {
        self.selected_hunk_index = self.hunk_index_at_rendered_row(
            viewport,
            render,
            selected_file_index,
            file,
            self.scroll,
        );
    }

    pub fn hunk_index_at_rendered_row(
        &self,
        viewport: &RenderedViewport,
        render: &DiffRenderState,
        selected_file_index: usize,
        file: Option<&DiffFile>,
        rendered_row: usize,
    ) -> (index: Option<usize>)
        ensures
            int_option(index) == pane_context(
                *render,
                *viewport,
                selected_file_index,
                file,
            ).hunk_at(rendered_row as int),
    {
        match file {
            Some(file) => render.hunk_index_at(
                selected_file_index,
                file.id.as_str(),
                rendered_row,
                file.hunks.len(),
            ),
            None => None,
        }
    }

    pub fn search_prompt_open(&self) -> (open: bool)
        ensures
            open == self@.search.prompt_open,
    {
        self.search.is_prompt_open()
    }

    pub fn has_active_search(&self) -> (active: bool)
        ensures
            active == (self@.search.query.len() > 0),
    {
        self.search.active_query().is_some()
    }

    pub fn search_status(&self) -> (status: Option<SearchStatus<'_>>)
        requires
            self.wf(),
        ensures
            match status {
                Some(shown) => self@.search.status() == Some(shown@),
                None => self@.search.status() is None,
            },
    {
        self.search.status()
    }

    pub fn open_search_prompt(&mut self)
        ensures
            old(self).wf() ==> final(self).wf(),
            final(self)@ == (PaneView { search: old(self)@.search.prompt_opened(), ..old(self)@ }),
    {
        self.search.open_prompt();
    }

    pub fn handle_search_prompt_key(&mut self, key: KeyEvent)
        ensures
            old(self).wf() ==> final(self).wf(),
            final(self)@ == (PaneView { search: old(self)@.search.after_key(key), ..old(self)@ }),
    {
        self.search.handle_prompt_key(key);
    }

    pub fn clear_search_query(&mut self)
        ensures
            final(self).wf(),
            final(self)@ == (PaneView { search: old(self)@.search.cleared(), ..old(self)@ }),
    {
        self.search.clear_query();
    }

    pub fn invalidate_search_matches(&mut self)
        ensures
            final(self).wf(),
            final(self)@ == (PaneView { search: old(self)@.search.invalidated(), ..old(self)@ }),
    {
        self.search.invalidate_matches();
    }

    pub fn render_target_rows(&self, visible_height: usize) -> (rows: usize)
        ensures
            rows == self@.target_rows(visible_height as int),
    {
        if self.has_active_search() {
            return usize::MAX;
        }
        self.scroll.saturating_add(visible_height).saturating_add(DIFF_PREFETCH_ROWS)
    }

    /// Finds the matches in the rendered rows of the selected file anew; tells whether
    /// the active match is to be scrolled into view.
    pub fn refresh_search_matches(
        &mut self,
        render: &DiffRenderState,
        selected_file_index: usize,
        file: Option<&DiffFile>,
    ) -> (should_scroll: bool)
        ensures
            final(self).wf(),
            final(self)@ == old(self)@.refreshed(
                render@,
                selected_file_index as int,
                file_option(file),
            ),
            should_scroll == old(self)@.scrolls_to_match(
                render@,
                selected_file_index as int,
                file_option(file),
            ),
    {
        render.refresh_search_matches(&mut self.search, selected_file_index, file)
    }

    pub fn highlight_search_matches(&self, lines: Vec<Line>, theme: Theme) -> (marked: Vec<Line>)
        ensures
            row_views(marked@) == self@.marked(row_views(lines@), theme),
    {
        let ghost rows = row_views(lines@);
        let marked = self.search.highlight(lines, self.scroll, theme);
        assert(row_views(marked@) =~= self@.marked(rows, theme));
        marked
    }

    pub fn scroll_active_search_match(
        &mut self,
        viewport: &RenderedViewport,
        render: &DiffRenderState,
        selected_file_index: usize,
        file: Option<&DiffFile>,
    )
        ensures
            old(self).wf() ==> final(self).wf(),
            final(self)@ == old(self)@.match_shown(
                pane_context(*render, *viewport, selected_file_index, file),
            ),
    {
        let active_row: usize = match self.search.active_match_row() {
            Some(row) => row,
            None => {
                return;
            },
        };
        let scroll: usize = active_row.saturating_sub(viewport.diff_view_height() / 2);
        self.scroll_to(scroll, viewport, render, selected_file_index, file);
    }

    fn ensure_selected_hunk_bounds(&mut self, file: Option<&DiffFile>)
        ensures
            old(self).wf() ==> final(self).wf(),
            final(self)@ == (PaneView {
                hunk: bounded_hunk_of(file_option(file), old(self)@.hunk),
                ..old(self)@
            }),
    {
        self.selected_hunk_index = match file {
            Some(file) => bounded_hunk_index(file, self.selected_hunk_index),
            None => None,
        };
    }

    fn jump_hunk(
        &mut self,
        direction: VerticalDirection,
        viewport: &RenderedViewport,
        render: &DiffRenderState,
        selected_file_index: usize,
        file: Option<&DiffFile>,
    )
        ensures
            old(self).wf() ==> final(self).wf(),
            final(self)@ == old(self)@.hunk_jumped(
                direction,
                pane_context(*render, *viewport, selected_file_index, file),
            ),
    {
        let selected = match file {
            Some(file) => file,
            None => {
                return;
            },
        };
        if selected.hunks.len() == 0 {
            self.selected_hunk_index = None;
            return;
        }
        let last: usize = selected.hunks.len() - 1;
        let index: usize = match self.selected_hunk_index {
            Some(index) => index,
            None => match self.hunk_index_at_rendered_row(
                viewport,
                render,
                selected_file_index,
                file,
                self.scroll,
            ) {
                Some(index) => index,
                None => 0,
            },
        };
        let current: usize = if index < last { index } else { last };
        self.selected_hunk_index = Some(direction.shift_clamped(current, 1, last));
        self.center_selected_hunk(viewport, render, selected_file_index, file);
    }

    fn jump_search_match(
        &mut self,
        direction: VerticalDirection,
        viewport: &RenderedViewport,
        render: &DiffRenderState,
        selected_file_index: usize,
        file: Option<&DiffFile>,
    )
        ensures
            old(self).wf() ==> final(self).wf(),
            final(self)@ == old(self)@.match_jumped(
                direction,
                pane_context(*render, *viewport, selected_file_index, file),
            ),
    {
        if self.search.advance_match(matches!(direction, VerticalDirection::Down)) {
            self.scroll_active_search_match(viewport, render, selected_file_index, file);
        }
    }
}

pub fn initial_selected_hunk_index(changeset: &Changeset) -> (index: Option<usize>)
    ensures
        int_option(index) == PaneView::start(changeset@).hunk,
{
    if changeset.files.len() > 0 {
        assert(changeset@.files[0] == changeset.files@[0]@);
        bounded_hunk_index(&changeset.files[0], None)
    } else {
        None
    }
}

pub fn bounded_hunk_index(file: &DiffFile, index: Option<usize>) -> (bounded: Option<usize>)
    ensures
        int_option(bounded) == bounded_hunk(file@, int_option(index)),
{
    if file.hunks.len() == 0 {
        return None;
    }
    let last: usize = file.hunks.len() - 1;
    let index: usize = match index {
        Some(index) => index,
        None => 0,
    };
    Some(if index < last { index } else { last })
}

/// The selected hunk is one of the file while the pane is kept within bounds.
pub proof fn bounded_pane_selects_a_hunk(pane: PaneView, file: FileView, max_scroll: int)
    requires
        pane.hunk is Some ==> 0 <= pane.hunk->0,
        file.hunks.len() > 0,
    ensures
        ({
            let bounded = pane.bounded(Some(file), max_scroll);
            &&& bounded.hunk is Some
            &&& 0 <= bounded.hunk->0 < file.hunks.len()
            &&& bounded.scroll <= max_scroll
        }),
{
}

/// A jump to the next hunk and one back lead to the same hunk, except from the last.
pub proof fn hunk_jumps_undo_each_other(pane: PaneView, context: PaneContext, hunk: int)
    requires
        context.file is Some,
        pane.search.query.len() == 0,
        pane.hunk == Some(hunk),
        0 <= hunk < context.file->0.hunks.len() - 1,
        context.file->0.hunks.len() <= usize::MAX,
    ensures
        pane.jumped(VerticalDirection::Down, context).hunk == Some(hunk + 1),
        pane.jumped(VerticalDirection::Down, context).jumped(VerticalDirection::Up, context).hunk
            == Some(hunk),
{
}

/// The active match is in view once it is scrolled to, also where the end of the rows
/// keeps it from the middle.
pub proof fn shown_match_is_in_view(pane: PaneView, context: PaneContext, row: usize, max_scroll: int)
    requires
        pane.search.active_row() == Some(row),
        context.height >= 1,
        row < max_scroll + context.height,
    ensures
        ({
            let shown = pane.match_shown(context).bounded(context.file, max_scroll);
            shown.scroll <= row < shown.scroll + context.height
        }),
{
}

/// The header of the selected hunk is in view once the hunk is centered, also where the
/// end of the rows keeps it from the middle.
pub proof fn centered_hunk_is_in_view(
    pane: PaneView,
    context: PaneContext,
    hunk: int,
    offset: int,
    max_scroll: int,
)
    requires
        pane.hunk == Some(hunk),
        context.file is Some,
        hunk < context.file->0.hunks.len(),
        context.render.offset_of(context.file_index, context.file->0.id, hunk) == Some(offset),
        0 <= offset < max_scroll + context.height,
        context.height >= 1,
    ensures
        ({
            let shown = pane.centered(context).bounded(context.file, max_scroll);
            shown.scroll <= offset < shown.scroll + context.height
        }),
{
}

} // verus!
