//! Rendered diff rows, layout metrics, and render cache state.
//!
//! This module owns the wrapped-row representation of a selected diff file: cache
//! growth, layout metrics, hunk row lookup, editor-line lookup, and feeding
//! rendered rows into search.

use vstd::prelude::*;

use crate::line::{row_views, Line, RowView};
use crate::model::{Changeset, DiffFile, FileView};
use crate::rows::diff::{
    body_message, diff_layout_counts, diff_lines_until, file_header_rows, hunk_file_rows,
    hunk_header_rows, layout_numbers, layout_offsets, message_rows, offset_views,
    selected_hunk_header_rows, DiffRenderOptions,
};
use crate::scroll_text::{greatest, last_page, least};
use crate::search::Search;
use crate::selection::seen;
use crate::syntax::Syntaxes;
use crate::text::same;
use crate::theme::{SyntaxPalette, Theme};

verus! {

#[derive(Debug)]
pub struct DiffRenderState {
    /// Cached wrapped and highlighted diff lines by file index.
    pub diff_lines_cache: Vec<Option<RenderedDiffLines>>,
    /// Cached full diff row metrics by file index.
    pub diff_layout_cache: Vec<Option<CachedDiffLayoutMetrics>>,
}

#[derive(Debug, Clone, Copy)]
pub struct SelectedDiffRenderRequest {
    pub file_index: usize,
    pub content_width: usize,
    pub theme: Theme,
    pub can_stage: bool,
    pub requested_rows: usize,
}

/// What cached rows have to match.
#[derive(Debug, Clone, Copy, PartialEq, Eq)]
pub struct DiffRenderRequest<'a> {
    pub file_index: usize,
    pub file_id: &'a str,
    pub content_width: usize,
    pub syntax_palette: SyntaxPalette,
    pub can_stage: bool,
    pub requested_rows: usize,
}

/// What cached metrics have to match.
#[derive(Debug, Clone, Copy, PartialEq, Eq)]
pub struct DiffLayoutRequest<'a> {
    pub file_index: usize,
    pub file_id: &'a str,
    pub content_width: usize,
    pub can_stage: bool,
}

#[derive(Debug, PartialEq, Eq)]
pub struct DiffLayoutMetrics {
    pub total_rows: usize,
    pub hunk_offsets: Vec<usize>,
    pub new_line_rows: Vec<Option<u32>>,
}

#[derive(Debug)]
pub struct RenderedDiffLines {
    /// `DiffFile::id` for the cached file.
    pub file_id: String,
    /// Width used to wrap cached lines.
    pub content_width: usize,
    /// Syntax palette used while highlighting cached lines.
    pub syntax_palette: SyntaxPalette,
    /// Whether staging controls were rendered in the cached header.
    pub can_stage: bool,
    /// Rendered, wrapped lines for the selected file.
    pub lines: Vec<Line>,
    /// Rendered row offsets for each hunk header under this cache layout.
    pub hunk_offsets: Vec<usize>,
    /// Whether `lines` contains every rendered row for the file.
    pub complete: bool,
}

#[derive(Debug)]
pub struct CachedDiffLayoutMetrics {
    pub file_id: String,
    pub content_width: usize,
    pub can_stage: bool,
    pub metrics: DiffLayoutMetrics,
}

/// What [`RenderedDiffLines`] hold.
pub struct LinesCacheView {
    pub file_id: Seq<char>,
    pub content_width: int,
    pub syntax_palette: SyntaxPalette,
    pub can_stage: bool,
    pub lines: Seq<RowView>,
    pub hunk_offsets: Seq<int>,
    pub complete: bool,
}

/// What [`CachedDiffLayoutMetrics`] hold.
pub struct LayoutCacheView {
    pub file_id: Seq<char>,
    pub content_width: int,
    pub can_stage: bool,
    pub hunk_offsets: Seq<int>,
    pub new_line_rows: Seq<Option<u32>>,
}

/// What a [`DiffRenderState`] holds.
pub struct RenderView {
    pub lines: Seq<Option<LinesCacheView>>,
    pub layouts: Seq<Option<LayoutCacheView>>,
}

impl View for RenderedDiffLines {
    type V = LinesCacheView;

    open spec fn view(&self) -> LinesCacheView {
        LinesCacheView {
            file_id: self.file_id@,
            content_width: self.content_width as int,
            syntax_palette: self.syntax_palette,
            can_stage: self.can_stage,
            lines: row_views(self.lines@),
            hunk_offsets: offset_views(self.hunk_offsets@),
            complete: self.complete,
        }
    }
}

impl View for CachedDiffLayoutMetrics {
    type V = LayoutCacheView;

    open spec fn view(&self) -> LayoutCacheView {
        LayoutCacheView {
            file_id: self.file_id@,
            content_width: self.content_width as int,
            can_stage: self.can_stage,
            hunk_offsets: offset_views(self.metrics.hunk_offsets@),
            new_line_rows: self.metrics.new_line_rows@,
        }
    }
}

pub open spec fn lines_cache_view(cache: Option<RenderedDiffLines>) -> Option<LinesCacheView> {
    match cache {
        Some(held) => Some(held@),
        None => None,
    }
}

pub open spec fn layout_cache_view(cache: Option<CachedDiffLayoutMetrics>) -> Option<
    LayoutCacheView,
> {
    match cache {
        Some(held) => Some(held@),
        None => None,
    }
}

impl View for DiffRenderState {
    type V = RenderView;

    open spec fn view(&self) -> RenderView {
        RenderView {
            lines: self.diff_lines_cache@.map_values(
                |cache: Option<RenderedDiffLines>| lines_cache_view(cache),
            ),
            layouts: self.diff_layout_cache@.map_values(
                |cache: Option<CachedDiffLayoutMetrics>| layout_cache_view(cache),
            ),
        }
    }
}

pub open spec fn nones<T>(count: nat) -> Seq<Option<T>> {
    Seq::new(count, |i: int| None)
}

/// A cache with at least `count` places.
pub open spec fn grown<T>(cache: Seq<Option<T>>, count: int) -> Seq<Option<T>> {
    if cache.len() < count { cache + nones((count - cache.len()) as nat) } else { cache }
}

/// What is cached at an index.
pub open spec fn cached<T>(cache: Seq<Option<T>>, index: int) -> Option<T> {
    if 0 <= index < cache.len() { cache[index] } else { None }
}

/// The rows that a partial cache grows to: what is asked for, twice what it has,
/// one more than it has.
pub open spec fn next_target(current: int, requested: int) -> int {
    greatest(
        greatest(requested, least(2 * current, usize::MAX as int)),
        least(current + 1, usize::MAX as int),
    )
}

/// The layout of a file.
pub open spec fn file_layout(
    file: FileView,
    content_width: int,
    theme: Theme,
    can_stage: bool,
) -> LayoutCacheView {
    LayoutCacheView {
        file_id: file.id,
        content_width,
        can_stage,
        hunk_offsets: layout_offsets(file, content_width, theme, can_stage),
        new_line_rows: layout_numbers(file, content_width, theme, can_stage),
    }
}

impl LayoutCacheView {
    pub open spec fn matches(self, file_id: Seq<char>, content_width: int, can_stage: bool) -> bool {
        self.file_id == file_id && self.content_width == content_width && self.can_stage
            == can_stage
    }
}

impl LinesCacheView {
    pub open spec fn matches(
        self,
        file_id: Seq<char>,
        content_width: int,
        palette: SyntaxPalette,
        can_stage: bool,
    ) -> bool {
        self.file_id == file_id && self.content_width == content_width && self.syntax_palette
            == palette && self.can_stage == can_stage
    }
}

/// Position of the last offset at or before a row among the first `n`.
pub open spec fn last_offset_at(offsets: Seq<int>, row: int, n: int) -> Option<int>
    decreases n,
{
    if n <= 0 {
        None
    } else if offsets[n - 1] <= row {
        Some(n - 1)
    } else {
        last_offset_at(offsets, row, n - 1)
    }
}

/// Visible rows with the header rows of a selected hunk over them.
pub open spec fn with_header(
    rows: Seq<RowView>,
    header: Seq<RowView>,
    hunk_offset: int,
    scroll: int,
) -> Seq<RowView> {
    Seq::new(
        rows.len(),
        |i: int|
            if hunk_offset <= scroll + i < hunk_offset + header.len() {
                header[scroll + i - hunk_offset]
            } else {
                rows[i]
            },
    )
}

impl RenderView {
    pub open spec fn empty(file_count: nat) -> RenderView {
        RenderView { lines: nones(file_count), layouts: nones(file_count) }
    }

    /// The caches for a number of files, emptied where the number has changed.
    pub open spec fn sized(self, file_count: nat) -> RenderView {
        RenderView {
            lines: if self.lines.len() == file_count { self.lines } else { nones(file_count) },
            layouts: if self.layouts.len() == file_count {
                self.layouts
            } else {
                nones(file_count)
            },
        }
    }

    /// The caches with a place for an index.
    pub open spec fn with_place(self, index: int) -> RenderView {
        let count = least(index + 1, usize::MAX as int);
        RenderView { lines: grown(self.lines, count), layouts: grown(self.layouts, count) }
    }

    /// The cached rows of a file.
    pub open spec fn lines_of(self, index: int, file_id: Seq<char>) -> Option<LinesCacheView> {
        match cached(self.lines, index) {
            Some(cache) => if cache.file_id == file_id { Some(cache) } else { None },
            None => None,
        }
    }

    /// The cached layout of a file.
    pub open spec fn layout_of(self, index: int, file_id: Seq<char>) -> Option<LayoutCacheView> {
        match cached(self.layouts, index) {
            Some(cache) => if cache.file_id == file_id { Some(cache) } else { None },
            None => None,
        }
    }

    /// The cached layout that matches a request.
    pub open spec fn matching_layout(
        self,
        index: int,
        file_id: Seq<char>,
        content_width: int,
        can_stage: bool,
    ) -> Option<LayoutCacheView> {
        match cached(self.layouts, index) {
            Some(cache) => if cache.matches(file_id, content_width, can_stage) {
                Some(cache)
            } else {
                None
            },
            None => None,
        }
    }

    /// The caches with the layout of a file in its place.
    pub open spec fn with_layout(
        self,
        index: int,
        file: FileView,
        content_width: int,
        theme: Theme,
        can_stage: bool,
    ) -> RenderView {
        let placed = self.with_place(index);
        if placed.matching_layout(index, file.id, content_width, can_stage) is Some || index
            >= placed.layouts.len() {
            placed
        } else {
            RenderView {
                layouts: placed.layouts.update(
                    index,
                    Some(file_layout(file, content_width, theme, can_stage)),
                ),
                ..placed
            }
        }
    }

    /// Rows to render for a request, `None` where the cached rows do.
    pub open spec fn render_target(
        self,
        index: int,
        file_id: Seq<char>,
        content_width: int,
        palette: SyntaxPalette,
        can_stage: bool,
        requested: int,
    ) -> Option<int> {
        match cached(self.lines, index) {
            Some(cache) => if !cache.matches(file_id, content_width, palette, can_stage) {
                Some(requested)
            } else if cache.complete || cache.lines.len() >= requested {
                None
            } else {
                Some(next_target(cache.lines.len() as int, requested))
            },
            None => Some(requested),
        }
    }

    /// Rows of a file as far as they are known.
    pub open spec fn known_rows(self, index: int, file_id: Option<Seq<char>>, fallback: int) -> int {
        match file_id {
            Some(id) => match self.lines_of(index, id) {
                Some(cache) => if cache.complete {
                    cache.lines.len() as int
                } else {
                    greatest(cache.lines.len() as int, fallback)
                },
                None => fallback,
            },
            None => fallback,
        }
    }

    /// The last scroll offset of a file: by its known rows, its layout, and the last
    /// hunk of rows that are not complete.
    pub open spec fn max_scroll(
        self,
        index: int,
        file_id: Option<Seq<char>>,
        fallback: int,
        height: int,
    ) -> int {
        let by_rows = last_page(self.known_rows(index, file_id, fallback), height);
        let by_layout = match file_id {
            Some(id) => match self.layout_of(index, id) {
                Some(layout) => last_page(layout.new_line_rows.len() as int, height),
                None => 0,
            },
            None => 0,
        };
        let by_hunk = match file_id {
            Some(id) => match self.lines_of(index, id) {
                Some(cache) => if !cache.complete && cache.hunk_offsets.len() > 0 {
                    cache.hunk_offsets.last()
                } else {
                    0
                },
                None => 0,
            },
            None => 0,
        };
        greatest(greatest(by_rows, by_layout), by_hunk)
    }

    /// Row of a hunk header in the cached rows of a file.
    pub open spec fn offset_of(self, index: int, file_id: Seq<char>, hunk: int) -> Option<int> {
        match self.lines_of(index, file_id) {
            Some(cache) => if hunk < cache.hunk_offsets.len() {
                Some(cache.hunk_offsets[hunk])
            } else {
                None
            },
            None => None,
        }
    }

    /// The hunk that a row belongs to, the first one where that is not known.
    pub open spec fn hunk_at(
        self,
        index: int,
        file_id: Seq<char>,
        row: int,
        hunk_count: int,
    ) -> Option<int> {
        if hunk_count == 0 {
            None
        } else {
            match self.lines_of(index, file_id) {
                Some(cache) => {
                    let count = cache.hunk_offsets.len() as int;
                    match last_offset_at(cache.hunk_offsets, row, count) {
                        Some(at) => Some(least(at, hunk_count - 1)),
                        None => Some(0),
                    }
                },
                None => Some(0),
            }
        }
    }

    /// The line of the new file that a row shows.
    pub open spec fn line_at(self, index: int, file_id: Seq<char>, row: int) -> Option<u32> {
        match self.layout_of(index, file_id) {
            Some(layout) => if row < layout.new_line_rows.len() {
                layout.new_line_rows[row]
            } else {
                None
            },
            None => None,
        }
    }
}

fn empty_lines_cache(file_count: usize) -> (cache: Vec<Option<RenderedDiffLines>>)
    ensures
        cache@.len() == file_count,
        forall|i: int| 0 <= i < file_count ==> #[trigger] cache@[i] is None,
{
    let mut cache: Vec<Option<RenderedDiffLines>> = Vec::new();
    grow_lines_cache(&mut cache, file_count);
    cache
}

fn grow_lines_cache(cache: &mut Vec<Option<RenderedDiffLines>>, count: usize)
    ensures
        final(cache)@ == grown(old(cache)@, count as int),
{
    let ghost before = cache@;
    assert(before + nones(0) =~= before);
    while cache.len() < count
        invariant
            before.len() <= cache@.len(),
            cache@.len() <= greatest(count as int, before.len() as int),
            cache@ == before + nones((cache@.len() - before.len()) as nat),
        decreases count - cache@.len(),
    {
        cache.push(None);
        assert(cache@ =~= before + nones((cache@.len() - before.len()) as nat));
    }
}

fn empty_layout_cache(file_count: usize) -> (cache: Vec<Option<CachedDiffLayoutMetrics>>)
    ensures
        cache@.len() == file_count,
        forall|i: int| 0 <= i < file_count ==> #[trigger] cache@[i] is None,
{
    let mut cache: Vec<Option<CachedDiffLayoutMetrics>> = Vec::new();
    grow_layout_cache(&mut cache, file_count);
    cache
}

fn grow_layout_cache(cache: &mut Vec<Option<CachedDiffLayoutMetrics>>, count: usize)
    ensures
        final(cache)@ == grown(old(cache)@, count as int),
{
    let ghost before = cache@;
    assert(before + nones(0) =~= before);
    while cache.len() < count
        invariant
            before.len() <= cache@.len(),
            cache@.len() <= greatest(count as int, before.len() as int),
            cache@ == before + nones((cache@.len() - before.len()) as nat),
        decreases count - cache@.len(),
    {
        cache.push(None);
        assert(cache@ =~= before + nones((cache@.len() - before.len()) as nat));
    }
}

impl DiffRenderState {
    /// Cached metrics count the rows that they have.
    pub open spec fn wf(self) -> bool {
        forall|i: int|
            0 <= i < self.diff_layout_cache@.len() && (
            #[trigger] self.diff_layout_cache@[i]) is Some ==> {
                let metrics = self.diff_layout_cache@[i]->0.metrics;
                metrics.total_rows == metrics.new_line_rows@.len()
            }
    }

    pub fn new(file_count: usize) -> (state: Self)
        ensures
            state.wf(),
            state@ == RenderView::empty(file_count as nat),
    {
        let state = DiffRenderState {
            diff_lines_cache: empty_lines_cache(file_count),
            diff_layout_cache: empty_layout_cache(file_count),
        };
        assert(state@.lines =~= nones(file_count as nat));
        assert(state@.layouts =~= nones(file_count as nat));
        state
    }

    pub fn clear(&mut self, file_count: usize)
        ensures
            final(self).wf(),
            final(self)@ == RenderView::empty(file_count as nat),
    {
        self.diff_lines_cache = empty_lines_cache(file_count);
        self.diff_layout_cache = empty_layout_cache(file_count);
        assert(self@.lines =~= nones(file_count as nat));
        assert(self@.layouts =~= nones(file_count as nat));
    }

    /// Number of rows of a file, zero where there is no file.
    pub fn total_rows(
        &mut self,
        file_index: usize,
        file: Option<&DiffFile>,
        content_width: usize,
        theme: Theme,
        can_stage: bool,
    ) -> (rows: usize)
        requires
            old(self).wf(),
        ensures
            final(self).wf(),
            match file {
                Some(file) => {
                    let after = old(self)@.with_layout(
                        file_index as int,
                        file@,
                        content_width as int,
                        theme,
                        can_stage,
                    );
                    &&& final(self)@ == after
                    &&& rows == (match after.matching_layout(
                        file_index as int,
                        file@.id,
                        content_width as int,
                        can_stage,
                    ) {
                        Some(layout) => layout.new_line_rows.len() as int,
                        None => 0,
                    })
                },
                None => rows == 0 && final(self)@ == old(self)@,
            },
    {
        match file {
            Some(file) => {
                let request = DiffLayoutRequest {
                    file_index,
                    file_id: file.id.as_str(),
                    content_width,
                    can_stage,
                };
                self.ensure_layout_metrics(file, request, theme);
                match self.diff_layout_metrics(request) {
                    Some(metrics) => metrics.total_rows,
                    None => 0,
                }
            },
            None => 0,
        }
    }

    pub fn max_scroll(
        &self,
        file_index: usize,
        file_id: Option<&str>,
        fallback_line_count: usize,
        view_height: usize,
    ) -> (scroll: usize)
        requires
            self.wf(),
        ensures
            scroll == self@.max_scroll(
                file_index as int,
                str_option(file_id),
                fallback_line_count as int,
                view_height as int,
            ),
    {
        let rendered_scroll: usize = self.rendered_diff_line_count(
            file_index,
            file_id,
            fallback_line_count,
        ).saturating_sub(view_height);
        let layout_scroll: usize = match file_id {
            Some(id) => match self.matching_diff_layout_cache(file_index, id) {
                Some(cache) => cache.metrics.total_rows.saturating_sub(view_height),
                None => 0,
            },
            None => 0,
        };
        let hunk_scroll: usize = self.partial_cache_hunk_scroll_target(file_index, file_id);
        let larger: usize = if rendered_scroll >= layout_scroll {
            rendered_scroll
        } else {
            layout_scroll
        };
        if larger >= hunk_scroll { larger } else { hunk_scroll }
    }

    /// The rows that the selected file has to be rendered to, `None` where the
    /// cached rows do. The layout of the file is known then.
    pub fn selected_file_target(
        &mut self,
        changeset: &Changeset,
        request: SelectedDiffRenderRequest,
    ) -> (target: Option<usize>)
        requires
            old(self).wf(),
        ensures
            final(self).wf(),
            ({
                let files = changeset@.files;
                let sized = old(self)@.sized(files.len());
                let index = request.file_index as int;
                let width = request.content_width as int;
                if index < files.len() {
                    let laid_out = sized.with_layout(
                        index,
                        files[index],
                        width,
                        request.theme,
                        request.can_stage,
                    );
                    &&& final(self)@ == laid_out
                    &&& int_option(target) == laid_out.render_target(
                        index,
                        files[index].id,
                        width,
                        request.theme.syntax,
                        request.can_stage,
                        request.requested_rows as int,
                    )
                } else {
                    final(self)@ == sized && target is None
                }
            }),
    {
        self.ensure_cache_len(changeset.files.len());
        assert(changeset@.files.len() == changeset.files@.len());
        if request.file_index >= changeset.files.len() {
            return None;
        }
        let file = &changeset.files[request.file_index];
        assert(changeset@.files[request.file_index as int] == file@);
        let layout_request = DiffLayoutRequest {
            file_index: request.file_index,
            file_id: file.id.as_str(),
            content_width: request.content_width,
            can_stage: request.can_stage,
        };
        self.ensure_layout_metrics(file, layout_request, request.theme);
        self.diff_lines_render_target(
            DiffRenderRequest {
                file_index: request.file_index,
                file_id: file.id.as_str(),
                content_width: request.content_width,
                syntax_palette: request.theme.syntax,
                can_stage: request.can_stage,
                requested_rows: request.requested_rows,
            },
        )
    }

    /// Renders the selected file as far as it is needed and not cached.
    pub fn ensure_selected_file(
        &mut self,
        changeset: &Changeset,
        request: SelectedDiffRenderRequest,
        syntaxes: &Syntaxes,
    )
        requires
            old(self).wf(),
        ensures
            final(self).wf(),
            final(self)@ == rendered_state(old(self)@, changeset@.files, request),
    {
        let target: usize = match self.selected_file_target(changeset, request) {
            Some(target) => target,
            None => {
                return;
            },
        };
        let file = &changeset.files[request.file_index];
        let ghost index = request.file_index as int;
        assert(changeset@.files[index] == file@);
        let ghost laid_out = self@;
        let layout_request = DiffLayoutRequest {
            file_index: request.file_index,
            file_id: file.id.as_str(),
            content_width: request.content_width,
            can_stage: request.can_stage,
        };
        let hunk_offsets = match self.diff_layout_metrics(layout_request) {
            Some(metrics) => copy_offsets(&metrics.hunk_offsets),
            None => Vec::new(),
        };
        let options = DiffRenderOptions {
            content_width: request.content_width,
            theme: request.theme,
            can_stage: request.can_stage,
            selected_hunk_index: None,
        };
        let rendered = diff_lines_until(file, options, target, syntaxes);
        let lines = RenderedDiffLines::new(
            file.id.clone(),
            request.content_width,
            request.theme.syntax,
            request.can_stage,
            rendered.lines,
            rendered.complete,
        ).with_hunk_offsets(hunk_offsets);
        let ghost entry = lines@;
        self.cache_diff_lines(request.file_index, lines);
        assert(self@.lines =~= laid_out.lines.update(index, Some(entry)));
        assert(self@.layouts =~= laid_out.layouts);
        proof {
            let expected = rendered_entry(laid_out, file@, request, target as int);
            assert(entry.hunk_offsets =~= expected.hunk_offsets);
            assert(entry == expected);
        }
    }

    /// Finds the matches of a search in the cached rows of a file. Returns whether
    /// the pane owes a scroll to the active match.
    pub fn refresh_search_matches(
        &self,
        search: &mut Search,
        file_index: usize,
        file: Option<&DiffFile>,
    ) -> (should_scroll: bool)
        ensures
            final(search)@.wf(),
            ({
                let rows = match file {
                    Some(file) => self@.lines_of(file_index as int, file@.id),
                    None => None,
                };
                match rows {
                    Some(cache) => final(search)@ == old(search)@.refreshed(
                        file->0@.id,
                        cache.lines,
                    ) && should_scroll == (old(search)@.scroll_pending
                        && final(search)@.active_index is Some),
                    None => final(search)@ == old(search)@.without_matches() && !should_scroll,
                }
            }),
    {
        match file {
            Some(file) => match self.matching_diff_lines_cache(file_index, file.id.as_str()) {
                Some(cache) => search.refresh_matches(file.id.as_str(), &cache.lines),
                None => {
                    search.clear_rendered_matches();
                    false
                },
            },
            None => {
                search.clear_rendered_matches();
                false
            },
        }
    }

    /// The visible rows of a file, with the header of the selected hunk marked.
    pub fn visible_selected_lines(
        &self,
        file_index: usize,
        file: &DiffFile,
        scroll: usize,
        visible_height: usize,
        options: DiffRenderOptions,
    ) -> (lines: Vec<Line>)
        ensures
            row_views(lines@) == shown_rows(
                self@,
                file_index as int,
                file@,
                scroll as int,
                visible_height as int,
                options,
            ),
    {
        let mut lines = self.visible_lines(file_index, scroll, visible_height);
        self.apply_selected_hunk_style(&mut lines, file_index, file, scroll, options);
        lines
    }

    /// Rendered row offset of `hunk_index` for the cached file, if known.
    pub fn hunk_offset(&self, file_index: usize, file_id: &str, hunk_index: usize) -> (offset: Option<
        usize,
    >)
        ensures
            int_option(offset) == self@.offset_of(file_index as int, file_id@, hunk_index as int),
    {
        match self.matching_diff_lines_cache(file_index, file_id) {
            Some(cache) => if hunk_index < cache.hunk_offsets.len() {
                assert(cache@.hunk_offsets[hunk_index as int]
                    == cache.hunk_offsets@[hunk_index as int]);
                Some(cache.hunk_offsets[hunk_index])
            } else {
                None
            },
            None => None,
        }
    }

    /// Hunk index occupying `rendered_row`, mapping a scroll position back to a
    /// hunk via the cached offsets. Falls back to the first hunk when offsets are
    /// not yet cached.
    pub fn hunk_index_at(
        &self,
        file_index: usize,
        file_id: &str,
        rendered_row: usize,
        hunk_count: usize,
    ) -> (hunk: Option<usize>)
        ensures
            int_option(hunk) == self@.hunk_at(
                file_index as int,
                file_id@,
                rendered_row as int,
                hunk_count as int,
            ),
    {
        if hunk_count == 0 {
            return None;
        }
        match self.matching_diff_lines_cache(file_index, file_id) {
            Some(cache) => {
                let ghost offsets = cache@.hunk_offsets;
                let mut n: usize = cache.hunk_offsets.len();
                while n > 0
                    invariant
                        n <= cache.hunk_offsets@.len(),
                        offsets == offset_views(cache.hunk_offsets@),
                        hunk_count > 0,
                        last_offset_at(offsets, rendered_row as int, offsets.len() as int)
                            == last_offset_at(offsets, rendered_row as int, n as int),
                        self@.lines_of(file_index as int, file_id@) == Some(cache@),
                        offsets == cache@.hunk_offsets,
                    decreases n,
                {
                    assert(offsets[n - 1] == cache.hunk_offsets@[n - 1]);
                    if cache.hunk_offsets[n - 1] <= rendered_row {
                        let at: usize = n - 1;
                        return Some(if at < hunk_count - 1 { at } else { hunk_count - 1 });
                    }
                    n = n - 1;
                }
                Some(0)
            },
            None => Some(0),
        }
    }

    /// New-file line corresponding to `rendered_row`, if layout metrics are cached
    /// for the selected file.
    pub fn new_line_at(&self, file_index: usize, file_id: &str, rendered_row: usize) -> (line: Option<
        u32,
    >)
        ensures
            line == self@.line_at(file_index as int, file_id@, rendered_row as int),
    {
        match self.matching_diff_layout_cache(file_index, file_id) {
            Some(cache) => cache.metrics.new_line_at(rendered_row),
            None => None,
        }
    }

    fn ensure_cache_len(&mut self, file_count: usize)
        requires
            old(self).wf(),
        ensures
            final(self).wf(),
            final(self)@ == old(self)@.sized(file_count as nat),
    {
        if self.diff_lines_cache.len() != file_count {
            self.diff_lines_cache = empty_lines_cache(file_count);
            assert(self@.lines =~= nones(file_count as nat));
        }
        if self.diff_layout_cache.len() != file_count {
            self.diff_layout_cache = empty_layout_cache(file_count);
            assert(self@.layouts =~= nones(file_count as nat));
        }
        assert(self@.lines =~= old(self)@.sized(file_count as nat).lines);
        assert(self@.layouts =~= old(self)@.sized(file_count as nat).layouts);
    }

    fn ensure_cache_index(&mut self, file_index: usize)
        requires
            old(self).wf(),
        ensures
            final(self).wf(),
            final(self)@ == old(self)@.with_place(file_index as int),
    {
        let count: usize = file_index.saturating_add(1);
        grow_lines_cache(&mut self.diff_lines_cache, count);
        grow_layout_cache(&mut self.diff_layout_cache, count);
        let ghost placed = old(self)@.with_place(file_index as int);
        assert(self@.lines =~= placed.lines);
        assert(self@.layouts =~= placed.layouts);
    }

    fn ensure_layout_metrics(
        &mut self,
        file: &DiffFile,
        request: DiffLayoutRequest<'_>,
        theme: Theme,
    )
        requires
            old(self).wf(),
            request.file_id@ == file@.id,
        ensures
            final(self).wf(),
            final(self)@ == old(self)@.with_layout(
                request.file_index as int,
                file@,
                request.content_width as int,
                theme,
                request.can_stage,
            ),
    {
        self.ensure_cache_index(request.file_index);
        let ghost placed = self@;
        let ghost index = request.file_index as int;
        if self.diff_layout_metrics(request).is_none() {
            let counts = diff_layout_counts(
                file,
                request.content_width,
                theme,
                request.can_stage,
            );
            let cache = CachedDiffLayoutMetrics {
                file_id: request.file_id.to_owned(),
                content_width: request.content_width,
                can_stage: request.can_stage,
                metrics: DiffLayoutMetrics::new(counts.hunk_offsets, counts.new_line_rows),
            };
            if request.file_index < self.diff_layout_cache.len() {
                let ghost entry = cache@;
                self.diff_layout_cache.set(request.file_index, Some(cache));
                assert(self@.layouts =~= placed.layouts.update(index, Some(entry)));
                assert(self@.lines =~= placed.lines);
            }
        }
    }

    fn diff_layout_metrics(&self, request: DiffLayoutRequest<'_>) -> (metrics: Option<
        &DiffLayoutMetrics,
    >)
        ensures
            match metrics {
                Some(found) => {
                    let layout = self@.matching_layout(
                        request.file_index as int,
                        request.file_id@,
                        request.content_width as int,
                        request.can_stage,
                    );
                    layout is Some && offset_views(found.hunk_offsets@) == layout->0.hunk_offsets
                        && found.new_line_rows@ == layout->0.new_line_rows && (self.wf()
                        ==> found.total_rows == found.new_line_rows@.len())
                },
                None => self@.matching_layout(
                    request.file_index as int,
                    request.file_id@,
                    request.content_width as int,
                    request.can_stage,
                ) is None,
            },
    {
        if request.file_index >= self.diff_layout_cache.len() {
            return None;
        }
        let ghost index = request.file_index as int;
        assert(self@.layouts[index] == layout_cache_view(self.diff_layout_cache@[index]));
        match &self.diff_layout_cache[request.file_index] {
            Some(cache) => if cache.matches(request) { Some(&cache.metrics) } else { None },
            None => None,
        }
    }

    /// Rows to render for a request, `None` where the cached rows do.
    pub fn diff_lines_render_target(&self, request: DiffRenderRequest<'_>) -> (target: Option<usize>)
        ensures
            int_option(target) == self@.render_target(
                request.file_index as int,
                request.file_id@,
                request.content_width as int,
                request.syntax_palette,
                request.can_stage,
                request.requested_rows as int,
            ),
    {
        if request.file_index >= self.diff_lines_cache.len() {
            return Some(request.requested_rows);
        }
        let ghost index = request.file_index as int;
        assert(self@.lines[index] == lines_cache_view(self.diff_lines_cache@[index]));
        match &self.diff_lines_cache[request.file_index] {
            Some(cache) => cache.render_target_if_needed(request),
            None => Some(request.requested_rows),
        }
    }

    /// Puts rows into the cache, where it has a place for the file.
    pub fn cache_diff_lines(&mut self, file_index: usize, lines: RenderedDiffLines)
        requires
            old(self).wf(),
        ensures
            final(self).wf(),
            final(self)@ == (if file_index < old(self)@.lines.len() {
                (RenderView {
                    lines: old(self)@.lines.update(file_index as int, Some(lines@)),
                    ..old(self)@
                })
            } else {
                old(self)@
            }),
    {
        if file_index < self.diff_lines_cache.len() {
            let ghost before = self@;
            let ghost entry = lines@;
            self.diff_lines_cache.set(file_index, Some(lines));
            assert(self@.lines =~= before.lines.update(file_index as int, Some(entry)));
            assert(self@.layouts =~= before.layouts);
        }
    }

    fn visible_lines(&self, file_index: usize, scroll: usize, visible_height: usize) -> (lines: Vec<
        Line,
    >)
        ensures
            row_views(lines@) == (match cached(self@.lines, file_index as int) {
                Some(cache) => seen(cache.lines, scroll as int, visible_height as int),
                None => seq![],
            }),
    {
        let ghost index = file_index as int;
        if file_index >= self.diff_lines_cache.len() {
            let none: Vec<Line> = Vec::new();
            assert(row_views(none@) =~= seq![]);
            return none;
        }
        assert(self@.lines[index] == lines_cache_view(self.diff_lines_cache@[index]));
        match &self.diff_lines_cache[file_index] {
            Some(cache) => cache.visible_lines(scroll, visible_height),
            None => {
                let none: Vec<Line> = Vec::new();
                assert(row_views(none@) =~= seq![]);
                none
            },
        }
    }

    fn matching_diff_lines_cache(&self, file_index: usize, file_id: &str) -> (cache: Option<
        &RenderedDiffLines,
    >)
        ensures
            match cache {
                Some(found) => self@.lines_of(file_index as int, file_id@) == Some(found@),
                None => self@.lines_of(file_index as int, file_id@) is None,
            },
    {
        if file_index >= self.diff_lines_cache.len() {
            return None;
        }
        let ghost index = file_index as int;
        assert(self@.lines[index] == lines_cache_view(self.diff_lines_cache@[index]));
        match &self.diff_lines_cache[file_index] {
            Some(cache) => if cache.matches_file(file_id) { Some(cache) } else { None },
            None => None,
        }
    }

    fn matching_diff_layout_cache(&self, file_index: usize, file_id: &str) -> (cache: Option<
        &CachedDiffLayoutMetrics,
    >)
        ensures
            match cache {
                Some(found) => self@.layout_of(file_index as int, file_id@) == Some(found@) && (
                self.wf() ==> found.metrics.total_rows == found.metrics.new_line_rows@.len()),
                None => self@.layout_of(file_index as int, file_id@) is None,
            },
    {
        if file_index >= self.diff_layout_cache.len() {
            return None;
        }
        let ghost index = file_index as int;
        assert(self@.layouts[index] == layout_cache_view(self.diff_layout_cache@[index]));
        match &self.diff_layout_cache[file_index] {
            Some(cache) => if same(cache.file_id.as_str(), file_id) { Some(cache) } else { None },
            None => None,
        }
    }

    fn rendered_diff_line_count(
        &self,
        file_index: usize,
        file_id: Option<&str>,
        fallback: usize,
    ) -> (count: usize)
        ensures
            count == self@.known_rows(file_index as int, str_option(file_id), fallback as int),
    {
        match file_id {
            Some(id) => match self.matching_diff_lines_cache(file_index, id) {
                Some(cache) => {
                    assert(cache@.lines.len() == cache.lines@.len());
                    if cache.complete || cache.lines.len() >= fallback {
                        cache.lines.len()
                    } else {
                        fallback
                    }
                },
                None => fallback,
            },
            None => fallback,
        }
    }

    fn partial_cache_hunk_scroll_target(&self, file_index: usize, file_id: Option<&str>) -> (row: usize)
        ensures
            row == (match str_option(file_id) {
                Some(id) => match self@.lines_of(file_index as int, id) {
                    Some(cache) => if !cache.complete && cache.hunk_offsets.len() > 0 {
                        cache.hunk_offsets.last()
                    } else {
                        0
                    },
                    None => 0,
                },
                None => 0,
            }),
    {
        match file_id {
            Some(id) => match self.matching_diff_lines_cache(file_index, id) {
                Some(cache) => if !cache.complete && cache.hunk_offsets.len() > 0 {
                    let last: usize = cache.hunk_offsets.len() - 1;
                    assert(cache@.hunk_offsets[last as int] == cache.hunk_offsets@[last as int]);
                    cache.hunk_offsets[last]
                } else {
                    0
                },
                None => 0,
            },
            None => 0,
        }
    }

    fn apply_selected_hunk_style(
        &self,
        lines: &mut Vec<Line>,
        file_index: usize,
        file: &DiffFile,
        scroll: usize,
        options: DiffRenderOptions,
    )
        ensures
            row_views(final(lines)@) == marked_rows(
                self@,
                row_views(old(lines)@),
                file_index as int,
                file@,
                scroll as int,
                options,
            ),
    {
        let selected: usize = match options.selected_hunk_index {
            Some(index) => index,
            None => {
                return;
            },
        };
        if selected >= file.hunks.len() {
            return;
        }
        let hunk = &file.hunks[selected];
        assert(file@.hunks[selected as int] == hunk@);
        let hunk_offset: usize = match self.hunk_offset(file_index, file.id.as_str(), selected) {
            Some(offset) => offset,
            None => {
                return;
            },
        };
        let header = selected_hunk_header_rows(
            hunk,
            options.content_width,
            options.theme,
            options.can_stage,
        );
        let ghost rows = row_views(lines@);
        let ghost header_rows = row_views(header@);
        let mut i: usize = 0;
        while i < lines.len()
            invariant
                i <= lines@.len(),
                lines@.len() == rows.len(),
                header_rows == row_views(header@),
                forall|j: int|
                    0 <= j < lines@.len() ==> (#[trigger] lines@[j])@ == if j < i && hunk_offset
                        <= scroll + j < hunk_offset + header_rows.len() {
                        header_rows[scroll + j - hunk_offset]
                    } else {
                        rows[j]
                    },
            decreases lines@.len() - i,
        {
            let above: usize = if scroll >= hunk_offset {
                0
            } else {
                hunk_offset - scroll
            };
            if i >= above {
                let behind: usize = if scroll >= hunk_offset { scroll - hunk_offset } else { 0 };
                let row_in_view: usize = i - above;
                if behind < header.len() && row_in_view < header.len() - behind {
                    let at: usize = behind + row_in_view;
                    assert(header_rows[at as int] == header@[at as int]@);
                    let copy = header[at].clone();
                    lines.set(i, copy);
                }
            }
            i = i + 1;
        }
        assert(row_views(lines@) =~= with_header(
            rows,
            header_rows,
            hunk_offset as int,
            scroll as int,
        ));
    }
}

pub open spec fn str_option(text: Option<&str>) -> Option<Seq<char>> {
    match text {
        Some(inner) => Some(inner@),
        None => None,
    }
}

pub open spec fn int_option(value: Option<usize>) -> Option<int> {
    match value {
        Some(inner) => Some(inner as int),
        None => None,
    }
}

/// Visible rows of a file with the header of the selected hunk, where it is known,
/// over them.
pub open spec fn marked_rows(
    state: RenderView,
    rows: Seq<RowView>,
    index: int,
    file: FileView,
    scroll: int,
    options: DiffRenderOptions,
) -> Seq<RowView> {
    match options.selected_hunk_index {
        Some(selected) => if selected < file.hunks.len() {
            match state.offset_of(index, file.id, selected as int) {
                Some(offset) => with_header(
                    rows,
                    hunk_header_rows(
                        file.hunks[selected as int],
                        options.content_width as int,
                        options.theme,
                        options.can_stage,
                        true,
                    ),
                    offset,
                    scroll,
                ),
                None => rows,
            }
        } else {
            rows
        },
        None => rows,
    }
}

/// The cached rows of a file that a view shows, with the header of the selected
/// hunk marked.
pub open spec fn shown_rows(
    state: RenderView,
    index: int,
    file: FileView,
    scroll: int,
    height: int,
    options: DiffRenderOptions,
) -> Seq<RowView> {
    let rows = match cached(state.lines, index) {
        Some(cache) => seen(cache.lines, scroll, height),
        None => seq![],
    };
    marked_rows(state, rows, index, file, scroll, options)
}

/// The rows of a file, rendered until there are enough.
pub open spec fn rendered_rows(file: FileView, options: DiffRenderOptions, target: int) -> Seq<
    RowView,
> {
    match body_message(file) {
        Some(message) => file_header_rows(
            file,
            options.content_width as int,
            options.can_stage,
            options.theme,
        ) + message_rows(message, options.content_width as int, options.theme),
        None => hunk_file_rows(file, options, target),
    }
}

/// The cache entry of a file rendered until there are enough rows.
pub open spec fn rendered_entry(
    state: RenderView,
    file: FileView,
    request: SelectedDiffRenderRequest,
    target: int,
) -> LinesCacheView {
    let options = DiffRenderOptions {
        content_width: request.content_width,
        theme: request.theme,
        can_stage: request.can_stage,
        selected_hunk_index: None,
    };
    let rows = rendered_rows(file, options, target);
    LinesCacheView {
        file_id: file.id,
        content_width: request.content_width as int,
        syntax_palette: request.theme.syntax,
        can_stage: request.can_stage,
        lines: rows,
        hunk_offsets: match state.matching_layout(
            request.file_index as int,
            file.id,
            request.content_width as int,
            request.can_stage,
        ) {
            Some(layout) => layout.hunk_offsets,
            None => seq![],
        },
        complete: body_message(file) is Some || rows.len() < target,
    }
}

/// The caches once the selected file is rendered as far as it is needed.
pub open spec fn rendered_state(
    state: RenderView,
    files: Seq<FileView>,
    request: SelectedDiffRenderRequest,
) -> RenderView {
    let index = request.file_index as int;
    let width = request.content_width as int;
    let sized = state.sized(files.len());
    if index < files.len() {
        let file = files[index];
        let laid_out = sized.with_layout(index, file, width, request.theme, request.can_stage);
        match laid_out.render_target(
            index,
            file.id,
            width,
            request.theme.syntax,
            request.can_stage,
            request.requested_rows as int,
        ) {
            Some(target) => RenderView {
                lines: laid_out.lines.update(
                    index,
                    Some(rendered_entry(laid_out, file, request, target)),
                ),
                ..laid_out
            },
            None => laid_out,
        }
    } else {
        sized
    }
}

fn copy_offsets(offsets: &Vec<usize>) -> (copy: Vec<usize>)
    ensures
        copy@ == offsets@,
{
    let mut copy: Vec<usize> = Vec::new();
    let mut i: usize = 0;
    assert(copy@ =~= offsets@.take(0));
    while i < offsets.len()
        invariant
            i <= offsets@.len(),
            copy@ == offsets@.take(i as int),
        decreases offsets@.len() - i,
    {
        copy.push(offsets[i]);
        i = i + 1;
        assert(copy@ =~= offsets@.take(i as int));
    }
    assert(offsets@.take(offsets@.len() as int) =~= offsets@);
    copy
}

impl RenderedDiffLines {
    pub fn new(
        file_id: String,
        content_width: usize,
        syntax_palette: SyntaxPalette,
        can_stage: bool,
        lines: Vec<Line>,
        complete: bool,
    ) -> (rendered: Self)
        ensures
            rendered@ == (LinesCacheView {
                file_id: file_id@,
                content_width: content_width as int,
                syntax_palette,
                can_stage,
                lines: row_views(lines@),
                hunk_offsets: seq![],
                complete,
            }),
    {
        let rendered = RenderedDiffLines {
            file_id,
            content_width,
            syntax_palette,
            can_stage,
            lines,
            hunk_offsets: Vec::new(),
            complete,
        };
        assert(rendered@.hunk_offsets =~= seq![]);
        rendered
    }

    pub fn with_hunk_offsets(self, hunk_offsets: Vec<usize>) -> (rendered: Self)
        ensures
            rendered@ == (LinesCacheView {
                hunk_offsets: offset_views(hunk_offsets@),
                ..self@
            }),
    {
        RenderedDiffLines { hunk_offsets, ..self }
    }

    fn matches_file(&self, file_id: &str) -> (matches: bool)
        ensures
            matches == (self@.file_id == file_id@),
    {
        same(self.file_id.as_str(), file_id)
    }

    fn render_target_if_needed(&self, request: DiffRenderRequest<'_>) -> (target: Option<usize>)
        ensures
            int_option(target) == (if !self@.matches(
                request.file_id@,
                request.content_width as int,
                request.syntax_palette,
                request.can_stage,
            ) {
                Some(request.requested_rows as int)
            } else if self@.complete || self@.lines.len() >= request.requested_rows {
                None
            } else {
                Some(next_target(self@.lines.len() as int, request.requested_rows as int))
            }),
    {
        assert(self@.lines.len() == self.lines@.len());
        if !self.matches_render_request(request) {
            return Some(request.requested_rows);
        }
        if self.complete || self.lines.len() >= request.requested_rows {
            return None;
        }
        Some(next_diff_cache_target(self.lines.len(), request.requested_rows))
    }

    fn matches_render_request(&self, request: DiffRenderRequest<'_>) -> (matches: bool)
        ensures
            matches == self@.matches(
                request.file_id@,
                request.content_width as int,
                request.syntax_palette,
                request.can_stage,
            ),
    {
        self.matches_file(request.file_id) && self.content_width == request.content_width
            && self.syntax_palette == request.syntax_palette && self.can_stage == request.can_stage
    }

    fn visible_lines(&self, scroll: usize, visible_height: usize) -> (lines: Vec<Line>)
        ensures
            row_views(lines@) == seen(self@.lines, scroll as int, visible_height as int),
    {
        let ghost all = self@.lines;
        let ghost shown = seen(all, scroll as int, visible_height as int);
        let mut lines: Vec<Line> = Vec::new();
        let mut i: usize = 0;
        assert(row_views(lines@) =~= shown.take(0));
        while i < visible_height && scroll < self.lines.len() && i < self.lines.len() - scroll
            invariant
                i <= shown.len(),
                all == row_views(self.lines@),
                shown == seen(all, scroll as int, visible_height as int),
                row_views(lines@) == shown.take(i as int),
            decreases visible_height - i,
        {
            let copy = self.lines[scroll + i].clone();
            let ghost before = row_views(lines@);
            assert(shown[i as int] == copy@);
            lines.push(copy);
            assert(row_views(lines@) =~= before.push(copy@));
            i = i + 1;
            assert(shown.take(i as int) =~= before.push(copy@));
        }
        assert(shown.take(shown.len() as int) =~= shown);
        lines
    }
}

impl DiffLayoutMetrics {
    fn new(hunk_offsets: Vec<usize>, new_line_rows: Vec<Option<u32>>) -> (metrics: Self)
        ensures
            metrics.total_rows == new_line_rows@.len(),
            metrics.hunk_offsets == hunk_offsets,
            metrics.new_line_rows == new_line_rows,
    {
        DiffLayoutMetrics { total_rows: new_line_rows.len(), hunk_offsets, new_line_rows }
    }

    fn new_line_at(&self, rendered_row: usize) -> (line: Option<u32>)
        ensures
            line == (if rendered_row < self.new_line_rows@.len() {
                self.new_line_rows@[rendered_row as int]
            } else {
                None
            }),
    {
        if rendered_row < self.new_line_rows.len() {
            self.new_line_rows[rendered_row]
        } else {
            None
        }
    }
}

impl CachedDiffLayoutMetrics {
    fn matches(&self, request: DiffLayoutRequest<'_>) -> (matches: bool)
        ensures
            matches == self@.matches(
                request.file_id@,
                request.content_width as int,
                request.can_stage,
            ),
    {
        same(self.file_id.as_str(), request.file_id) && self.content_width
            == request.content_width && self.can_stage == request.can_stage
    }
}

fn next_diff_cache_target(current_rows: usize, requested_rows: usize) -> (target: usize)
    ensures
        target == next_target(current_rows as int, requested_rows as int),
{
    let doubled: usize = current_rows.saturating_add(current_rows);
    let one_more: usize = current_rows.saturating_add(1);
    let larger: usize = if requested_rows >= doubled { requested_rows } else { doubled };
    if larger >= one_more { larger } else { one_more }
}

/// Cached rows serve only what they were rendered for: the same file, width, palette and
/// staging controls, and as many rows as are asked for.
pub proof fn cache_serves_what_it_was_rendered_for(
    state: RenderView,
    index: int,
    file_id: Seq<char>,
    content_width: int,
    palette: SyntaxPalette,
    can_stage: bool,
    requested: int,
)
    requires
        state.render_target(index, file_id, content_width, palette, can_stage, requested) is None,
    ensures
        cached(state.lines, index) is Some,
        cached(state.lines, index)->0.matches(file_id, content_width, palette, can_stage),
        cached(state.lines, index)->0.complete || cached(state.lines, index)->0.lines.len()
            >= requested,
{
}

/// What was rendered for a request is not rendered for it again.
pub proof fn rendered_rows_are_kept(
    state: RenderView,
    files: Seq<FileView>,
    request: SelectedDiffRenderRequest,
)
    requires
        request.file_index < files.len() <= usize::MAX,
    ensures
        rendered_state(state, files, request).render_target(
            request.file_index as int,
            files[request.file_index as int].id,
            request.content_width as int,
            request.theme.syntax,
            request.can_stage,
            request.requested_rows as int,
        ) is None,
{
}

} // verus!
