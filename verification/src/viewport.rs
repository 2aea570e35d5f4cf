//! Rendered viewport geometry for terminal panes.
//!
//! This module owns terminal geometry, row hit-testing, scroll clamping, and
//! scrollbar geometry.

use vstd::prelude::*;

use crate::input::{rect_contains, rect_inner_contains, Rect};
use crate::rows::sidebar::{target_views, SidebarRowTarget, TargetView};
use crate::scroll_text::{clamped, greatest, last_page, least};
use crate::text::same;

verus! {

#[derive(Debug)]
pub struct RenderedViewport {
    /// Current diff viewport height, updated by the renderer.
    pub diff_view_height: usize,
    /// Current sidebar viewport height, updated by the renderer.
    pub sidebar_view_height: usize,
    /// Last sidebar rectangle, used to map mouse events.
    pub sidebar_area: Option<Rect>,
    /// Last diff rectangle, used to map mouse events.
    pub diff_area: Option<Rect>,
    /// Last rendered diff scrollbar, used to draw and map mouse events.
    pub diff_scrollbar: Option<DiffScrollbar>,
    /// Live-status rows stacked above the diff rows, used to map mouse events
    /// back to diff rows.
    pub diff_status_rows: usize,
    /// Rendered sidebar row to file or folder target mapping for click handling.
    pub sidebar_row_targets: Vec<SidebarRowTarget>,
}

#[derive(Debug, Clone, Copy, PartialEq, Eq, Structural)]
pub struct ViewportScrollInput {
    pub diff_scroll: usize,
    pub sidebar_scroll: usize,
    pub file_count: usize,
    pub diff_max_scroll: usize,
}

#[derive(Debug, Clone, Copy, PartialEq, Eq, Structural)]
pub struct ViewportScrollState {
    pub diff_scroll: usize,
    pub sidebar_scroll: usize,
}

#[derive(Debug, PartialEq, Eq)]
pub struct DiffScrollbar {
    pub area: Rect,
    pub file_index: usize,
    pub file_id: String,
    pub total_rows: usize,
    pub visible_rows: usize,
    pub scroll: usize,
}

#[derive(Debug, Clone, Copy, PartialEq, Eq, Structural)]
pub struct DiffScrollbarThumb {
    pub start: usize,
    pub len: usize,
}

#[derive(Debug, Clone, Copy, PartialEq, Eq, Structural)]
pub struct DiffScrollbarDrag {
    pub thumb_offset: usize,
}

/// What a [`RenderedViewport`] holds.
pub struct ViewportView {
    pub diff_view_height: int,
    pub sidebar_view_height: int,
    pub sidebar_area: Option<Rect>,
    pub diff_area: Option<Rect>,
    pub diff_scrollbar: Option<ScrollbarView>,
    pub diff_status_rows: int,
    pub sidebar_row_targets: Seq<TargetView>,
}

/// What a [`DiffScrollbar`] holds.
pub struct ScrollbarView {
    pub area: Rect,
    pub file_index: int,
    pub file_id: Seq<char>,
    pub total_rows: int,
    pub visible_rows: int,
    pub scroll: int,
}

impl View for DiffScrollbar {
    type V = ScrollbarView;

    open spec fn view(&self) -> ScrollbarView {
        ScrollbarView {
            area: self.area,
            file_index: self.file_index as int,
            file_id: self.file_id@,
            total_rows: self.total_rows as int,
            visible_rows: self.visible_rows as int,
            scroll: self.scroll as int,
        }
    }
}

pub open spec fn scrollbar_view(scrollbar: Option<DiffScrollbar>) -> Option<ScrollbarView> {
    match scrollbar {
        Some(bar) => Some(bar@),
        None => None,
    }
}

impl View for RenderedViewport {
    type V = ViewportView;

    open spec fn view(&self) -> ViewportView {
        ViewportView {
            diff_view_height: self.diff_view_height as int,
            sidebar_view_height: self.sidebar_view_height as int,
            sidebar_area: self.sidebar_area,
            diff_area: self.diff_area,
            diff_scrollbar: scrollbar_view(self.diff_scrollbar),
            diff_status_rows: self.diff_status_rows as int,
            sidebar_row_targets: target_views(self.sidebar_row_targets@),
        }
    }
}

impl ViewportView {
    /// The sidebar row target under an inner cell of the sidebar.
    pub open spec fn target_at(self, column: int, row: int) -> Option<TargetView> {
        match self.sidebar_area {
            Some(area) => {
                let offset = row - area.y - 1;
                if area.holds_inside(column, row) && offset < self.sidebar_row_targets.len() {
                    Some(self.sidebar_row_targets[offset])
                } else {
                    None
                }
            },
            None => None,
        }
    }

    /// The row of the diff pane under an inner cell of the pane.
    pub open spec fn diff_row(self, column: int, row: int) -> Option<int> {
        match self.diff_area {
            Some(area) => if area.holds_inside(column, row) {
                Some(row - area.y - 1)
            } else {
                None
            },
            None => None,
        }
    }
}

/// `value * numerator / denominator`, rounded to the nearest integer, halves up.
pub open spec fn scaled_to_nearest(value: int, numerator: int, denominator: int) -> int {
    (value * numerator + denominator / 2) / denominator
}

/// `value * numerator / denominator`, rounded up.
pub open spec fn scaled_up(value: int, numerator: int, denominator: int) -> int {
    (value * numerator + denominator - 1) / denominator
}

impl ScrollbarView {
    /// The last scroll offset.
    pub open spec fn max_scroll(self) -> int {
        last_page(self.total_rows, self.visible_rows)
    }

    /// Rows of the track, one at least.
    pub open spec fn track(self) -> int {
        greatest(self.area.height as int, 1)
    }

    /// Length of the thumb: the visible share of the track, one row at least.
    pub open spec fn thumb_len(self) -> int {
        let share = if self.total_rows == 0 {
            0
        } else {
            scaled_up(self.visible_rows, self.track(), self.total_rows)
        };
        clamped(share, 1, self.track())
    }

    /// First row of the thumb: the share of the free track that is scrolled away.
    pub open spec fn thumb_start(self) -> int {
        let free = self.track() - self.thumb_len();
        if free == 0 || self.max_scroll() == 0 {
            0
        } else {
            scaled_to_nearest(least(self.scroll, self.max_scroll()), free, self.max_scroll())
        }
    }

    /// Row of the track that a screen row is on or nearest to.
    pub open spec fn track_row(self, row: int) -> int {
        clamped(row - self.area.y, 0, greatest(self.area.height - 1, 0))
    }

    /// The row of the thumb that a press at a screen row holds: the row under it,
    /// or the middle of the thumb where the press is off the thumb.
    pub open spec fn grip(self, row: int) -> int {
        let offset = self.track_row(row);
        if self.thumb_start() <= offset < self.thumb_start() + self.thumb_len() {
            offset - self.thumb_start()
        } else {
            self.thumb_len() / 2
        }
    }

    /// Scroll offset that puts the row `grip` of the thumb on a screen row, as far
    /// as the track reaches.
    pub open spec fn dragged_scroll(self, row: int, grip: int) -> int {
        let free = self.track() - self.thumb_len();
        if free == 0 || self.max_scroll() == 0 {
            0
        } else {
            scaled_to_nearest(
                clamped(self.track_row(row) - grip, 0, free),
                self.max_scroll(),
                free,
            )
        }
    }
}

impl RenderedViewport {
    pub fn new() -> (viewport: Self)
        ensures
            viewport@ == (ViewportView {
                diff_view_height: 1,
                sidebar_view_height: 1,
                sidebar_area: None,
                diff_area: None,
                diff_scrollbar: None,
                diff_status_rows: 0,
                sidebar_row_targets: seq![],
            }),
    {
        let viewport = RenderedViewport {
            diff_view_height: 1,
            sidebar_view_height: 1,
            sidebar_area: None,
            diff_area: None,
            diff_scrollbar: None,
            diff_status_rows: 0,
            sidebar_row_targets: Vec::new(),
        };
        assert(viewport@.sidebar_row_targets =~= seq![]);
        viewport
    }

    pub fn begin_frame(&mut self)
        ensures
            final(self)@ == (ViewportView {
                sidebar_area: None,
                diff_area: None,
                diff_scrollbar: None,
                sidebar_row_targets: seq![],
                ..old(self)@
            }),
    {
        self.sidebar_area = None;
        self.diff_area = None;
        self.diff_scrollbar = None;
        self.sidebar_row_targets.clear();
        assert(self@.sidebar_row_targets =~= seq![]);
    }

    pub fn clear_diff_geometry(&mut self)
        ensures
            final(self)@ == (ViewportView { diff_scrollbar: None, ..old(self)@ }),
    {
        self.diff_scrollbar = None;
    }

    pub fn diff_view_height(&self) -> (height: usize)
        ensures
            height == self@.diff_view_height,
    {
        self.diff_view_height
    }

    pub fn begin_sidebar(&mut self, area: Rect, height: usize)
        ensures
            final(self)@ == (ViewportView {
                sidebar_area: Some(area),
                sidebar_view_height: greatest(height as int, 1),
                sidebar_row_targets: seq![],
                ..old(self)@
            }),
    {
        self.sidebar_area = Some(area);
        self.sidebar_view_height = if height > 1 { height } else { 1 };
        self.sidebar_row_targets.clear();
        assert(self@.sidebar_row_targets =~= seq![]);
    }

    pub fn begin_diff(&mut self, area: Rect, height: usize)
        ensures
            final(self)@ == (ViewportView {
                diff_area: Some(area),
                diff_view_height: greatest(height as int, 1),
                ..old(self)@
            }),
    {
        self.diff_area = Some(area);
        self.diff_view_height = if height > 1 { height } else { 1 };
    }

    pub fn set_diff_scrollbar(&mut self, scrollbar: Option<DiffScrollbar>)
        ensures
            final(self)@ == (ViewportView {
                diff_scrollbar: scrollbar_view(scrollbar),
                ..old(self)@
            }),
    {
        self.diff_scrollbar = scrollbar;
    }

    pub fn diff_scrollbar(&self) -> (scrollbar: Option<&DiffScrollbar>)
        ensures
            match scrollbar {
                Some(bar) => self@.diff_scrollbar == Some(bar@),
                None => self@.diff_scrollbar is None,
            },
    {
        self.diff_scrollbar.as_ref()
    }

    pub fn set_diff_status_rows(&mut self, rows: usize)
        ensures
            final(self)@ == (ViewportView { diff_status_rows: rows as int, ..old(self)@ }),
    {
        self.diff_status_rows = rows;
    }

    pub fn diff_status_rows(&self) -> (rows: usize)
        ensures
            rows == self@.diff_status_rows,
    {
        self.diff_status_rows
    }

    pub fn begin_sidebar_rows(&mut self)
        ensures
            final(self)@ == (ViewportView { sidebar_row_targets: seq![], ..old(self)@ }),
    {
        self.sidebar_row_targets.clear();
        assert(self@.sidebar_row_targets =~= seq![]);
    }

    /// Records that the next `row_count` sidebar rows belong to `target`.
    pub fn record_sidebar_rows(&mut self, target: SidebarRowTarget, row_count: usize)
        ensures
            final(self)@ == (ViewportView {
                sidebar_row_targets: old(self)@.sidebar_row_targets + Seq::new(
                    row_count as nat,
                    |i: int| target@,
                ),
                ..old(self)@
            }),
    {
        let ghost before = self@;
        let mut i: usize = 0;
        assert(before.sidebar_row_targets + Seq::new(0, |i: int| target@)
            =~= before.sidebar_row_targets);
        while i < row_count
            invariant
                i <= row_count,
                self@ == (ViewportView {
                    sidebar_row_targets: before.sidebar_row_targets + Seq::new(
                        i as nat,
                        |i: int| target@,
                    ),
                    ..before
                }),
            decreases row_count - i,
        {
            let ghost shown = self@.sidebar_row_targets;
            let copy = target.clone();
            self.sidebar_row_targets.push(copy);
            assert(self@.sidebar_row_targets =~= shown.push(target@));
            i = i + 1;
            assert(self@.sidebar_row_targets =~= before.sidebar_row_targets + Seq::new(
                i as nat,
                |i: int| target@,
            ));
        }
    }

    pub fn sidebar_target_at(&self, column: u16, row: u16) -> (target: Option<SidebarRowTarget>)
        ensures
            match target {
                Some(found) => self@.target_at(column as int, row as int) == Some(found@),
                None => self@.target_at(column as int, row as int) is None,
            },
    {
        let area = self.sidebar_area?;
        if !rect_inner_contains(area, column, row) {
            return None;
        }
        let row_offset: usize = (row - area.y - 1) as usize;
        if row_offset < self.sidebar_row_targets.len() {
            Some(self.sidebar_row_targets[row_offset].clone())
        } else {
            None
        }
    }

    pub fn is_sidebar_at(&self, column: u16, row: u16) -> (inside: bool)
        ensures
            inside == (self@.sidebar_area is Some && self@.sidebar_area->0.holds(
                column as int,
                row as int,
            )),
    {
        match self.sidebar_area {
            Some(area) => rect_contains(area, column, row),
            None => false,
        }
    }

    pub fn is_diff_at(&self, column: u16, row: u16) -> (inside: bool)
        ensures
            inside == (self@.diff_area is Some && self@.diff_area->0.holds(
                column as int,
                row as int,
            )),
    {
        match self.diff_area {
            Some(area) => rect_contains(area, column, row),
            None => false,
        }
    }

    pub fn diff_row_at(&self, column: u16, row: u16) -> (pane_row: Option<usize>)
        ensures
            match pane_row {
                Some(found) => self@.diff_row(column as int, row as int) == Some(found as int),
                None => self@.diff_row(column as int, row as int) is None,
            },
    {
        let area = self.diff_area?;
        if !rect_inner_contains(area, column, row) {
            return None;
        }
        Some((row - area.y - 1) as usize)
    }

    pub fn clamped_scrolls(&self, input: ViewportScrollInput) -> (state: ViewportScrollState)
        ensures
            state.diff_scroll == least(input.diff_scroll as int, input.diff_max_scroll as int),
            state.sidebar_scroll == if input.file_count == 0 { 0 } else { input.sidebar_scroll },
    {
        let diff_scroll: usize = if input.diff_scroll <= input.diff_max_scroll {
            input.diff_scroll
        } else {
            input.diff_max_scroll
        };
        let sidebar_scroll: usize = if input.file_count == 0 { 0 } else { input.sidebar_scroll };
        ViewportScrollState { diff_scroll, sidebar_scroll }
    }

    /// Last scroll offset of the scrollbar of a file, zero where it is another
    /// file's or there is none.
    pub fn diff_scrollbar_max_scroll(&self, file_index: usize, file_id: &str) -> (max: usize)
        ensures
            max == (match self@.diff_scrollbar {
                Some(bar) if bar.file_index == file_index && bar.file_id == file_id@ =>
                    bar.max_scroll(),
                _ => 0,
            }),
    {
        match &self.diff_scrollbar {
            Some(scrollbar) => if scrollbar.matches_file(file_index, file_id) {
                scrollbar.max_scroll()
            } else {
                0
            },
            None => 0,
        }
    }
}

impl Clone for DiffScrollbar {
    fn clone(&self) -> (copy: Self)
        ensures
            copy@ == self@,
    {
        DiffScrollbar {
            area: self.area,
            file_index: self.file_index,
            file_id: self.file_id.clone(),
            total_rows: self.total_rows,
            visible_rows: self.visible_rows,
            scroll: self.scroll,
        }
    }
}

impl DiffScrollbar {
    pub fn new(
        area: Rect,
        file_index: usize,
        file_id: String,
        total_rows: usize,
        visible_rows: usize,
        scroll: usize,
    ) -> (scrollbar: Self)
        ensures
            scrollbar@ == (ScrollbarView {
                area,
                file_index: file_index as int,
                file_id: file_id@,
                total_rows: total_rows as int,
                visible_rows: visible_rows as int,
                scroll: scroll as int,
            }),
    {
        DiffScrollbar { area, file_index, file_id, total_rows, visible_rows, scroll }
    }

    pub fn area(&self) -> (area: Rect)
        ensures
            area == self@.area,
    {
        self.area
    }

    pub fn thumb(&self) -> (thumb: DiffScrollbarThumb)
        ensures
            thumb.start == self@.thumb_start(),
            thumb.len == self@.thumb_len(),
            thumb.start + thumb.len <= self@.track(),
    {
        let track_height: usize = self.track_height();
        let share: usize = ratio_ceil(self.visible_rows, track_height, self.total_rows);
        let at_least_one: usize = if share > 1 { share } else { 1 };
        let len: usize = if at_least_one < track_height { at_least_one } else { track_height };
        let track_range: usize = track_height - len;
        let scroll_range: usize = self.max_scroll();
        proof {
            thumb_stays_on_track(self@);
        }
        let start: usize = if track_range == 0 || scroll_range == 0 {
            0
        } else {
            let scrolled: usize = if self.scroll < scroll_range {
                self.scroll
            } else {
                scroll_range
            };
            ratio_round(scrolled, track_range, scroll_range)
        };
        DiffScrollbarThumb { start, len }
    }

    pub fn drag_at(&self, column: u16, row: u16) -> (drag: Option<DiffScrollbarDrag>)
        ensures
            match drag {
                Some(held) => self@.area.holds(column as int, row as int) && held.thumb_offset
                    == self@.grip(row as int),
                None => !self@.area.holds(column as int, row as int),
            },
    {
        if !rect_contains(self.area, column, row) {
            return None;
        }
        let row_offset: usize = self.row_offset(row);
        let thumb = self.thumb();
        let thumb_end: usize = thumb.start.saturating_add(thumb.len);
        let thumb_offset: usize = if row_offset >= thumb.start && row_offset < thumb_end {
            row_offset.saturating_sub(thumb.start)
        } else {
            thumb.len / 2
        };
        Some(DiffScrollbarDrag { thumb_offset })
    }

    pub fn scroll_for_drag(&self, row: u16, drag: DiffScrollbarDrag) -> (scroll: usize)
        ensures
            scroll == self@.dragged_scroll(row as int, drag.thumb_offset as int),
            scroll <= self@.max_scroll(),
    {
        let thumb = self.thumb();
        let track_range: usize = self.track_height().saturating_sub(thumb.len);
        let scroll_range: usize = self.max_scroll();
        if track_range == 0 || scroll_range == 0 {
            return 0;
        }
        let wanted: usize = self.row_offset(row).saturating_sub(drag.thumb_offset);
        let thumb_start: usize = if wanted < track_range { wanted } else { track_range };
        proof {
            scaled_to_nearest_bounds(thumb_start as int, scroll_range as int, track_range as int);
        }
        ratio_round(thumb_start, scroll_range, track_range)
    }

    fn matches_file(&self, file_index: usize, file_id: &str) -> (matches: bool)
        ensures
            matches == (self@.file_index == file_index && self@.file_id == file_id@),
    {
        self.file_index == file_index && same(self.file_id.as_str(), file_id)
    }

    fn max_scroll(&self) -> (max: usize)
        ensures
            max == self@.max_scroll(),
    {
        self.total_rows.saturating_sub(self.visible_rows)
    }

    fn row_offset(&self, row: u16) -> (offset: usize)
        ensures
            offset == self@.track_row(row as int),
    {
        let offset: u16 = row.saturating_sub(self.area.y);
        let last: u16 = self.area.height.saturating_sub(1);
        if offset < last { offset as usize } else { last as usize }
    }

    fn track_height(&self) -> (height: usize)
        ensures
            height == self@.track(),
    {
        if self.area.height > 1 { self.area.height as usize } else { 1 }
    }
}

proof fn product_fits(a: usize, b: usize)
    ensures
        0 <= a * b,
        a * b + usize::MAX <= u128::MAX,
{
    assert(0 <= a * b <= 0xffff_ffff_ffff_ffff * 0xffff_ffff_ffff_ffff) by (nonlinear_arith)
        requires
            0 <= a <= 0xffff_ffff_ffff_ffff,
            0 <= b <= 0xffff_ffff_ffff_ffff,
    ;
}

fn ratio_ceil(value: usize, numerator: usize, denominator: usize) -> (part: usize)
    ensures
        part == if denominator == 0 {
            0
        } else {
            least(
                scaled_up(value as int, numerator as int, denominator as int),
                usize::MAX as int,
            )
        },
{
    if denominator == 0 {
        return 0;
    }
    proof {
        product_fits(value, numerator);
    }
    let scaled: u128 = value as u128 * numerator as u128;
    let part: u128 = (scaled + (denominator as u128 - 1)) / (denominator as u128);
    if part < usize::MAX as u128 { part as usize } else { usize::MAX }
}

fn ratio_round(value: usize, numerator: usize, denominator: usize) -> (part: usize)
    ensures
        part == if denominator == 0 {
            0
        } else {
            least(
                scaled_to_nearest(value as int, numerator as int, denominator as int),
                usize::MAX as int,
            )
        },
{
    if denominator == 0 {
        return 0;
    }
    proof {
        product_fits(value, numerator);
    }
    let scaled: u128 = value as u128 * numerator as u128;
    let rounded: u128 = (scaled + (denominator as u128) / 2) / (denominator as u128);
    if rounded < usize::MAX as u128 { rounded as usize } else { usize::MAX }
}

proof fn scaled_to_nearest_bounds(value: int, numerator: int, denominator: int)
    requires
        0 <= value <= denominator,
        0 < denominator,
        0 <= numerator,
    ensures
        0 <= scaled_to_nearest(value, numerator, denominator) <= numerator,
{
    assert(0 <= value * numerator <= denominator * numerator) by (nonlinear_arith)
        requires
            0 <= value <= denominator,
            0 <= numerator,
    ;
    let sum = value * numerator + denominator / 2;
    assert(sum / denominator < numerator + 1) by (nonlinear_arith)
        requires
            0 <= sum < denominator * numerator + denominator,
            0 < denominator,
    ;
    assert(0 <= sum / denominator) by (nonlinear_arith)
        requires
            0 <= sum,
            0 < denominator,
    ;
}

/// The thumb never leaves the track, whatever the scroll offset.
pub proof fn thumb_stays_on_track(bar: ScrollbarView)
    requires
        0 <= bar.scroll,
    ensures
        1 <= bar.thumb_len() <= bar.track(),
        0 <= bar.thumb_start(),
        bar.thumb_start() + bar.thumb_len() <= bar.track(),
{
    let free = bar.track() - bar.thumb_len();
    if free != 0 && bar.max_scroll() != 0 {
        scaled_to_nearest_bounds(least(bar.scroll, bar.max_scroll()), free, bar.max_scroll());
    }
}

/// Unscrolled content puts the thumb at the top of the track; content scrolled
/// to its last page, where there is anything to scroll, at the bottom.
pub proof fn thumb_reaches_both_ends(bar: ScrollbarView)
    requires
        0 <= bar.scroll,
    ensures
        bar.scroll == 0 ==> bar.thumb_start() == 0,
        bar.scroll >= bar.max_scroll() > 0 ==> bar.thumb_start() + bar.thumb_len() == bar.track(),
{
    let free = bar.track() - bar.thumb_len();
    let max = bar.max_scroll();
    if free != 0 && max != 0 {
        assert(0 * free == 0);
        assert((max / 2) / max == 0) by (nonlinear_arith)
            requires
                max > 0,
        ;
        assert((max * free + max / 2) / max == free) by (nonlinear_arith)
            requires
                max > 0,
        ;
    }
}

/// Whatever row the mouse is dragged to, the scroll offset stays in range; the
/// top of the track leads to the first row and its bottom to the last page.
pub proof fn drag_stays_in_range(bar: ScrollbarView, row: int, grip: int)
    requires
        0 <= grip,
    ensures
        0 <= bar.dragged_scroll(row, grip) <= bar.max_scroll(),
        bar.track_row(row) <= grip ==> bar.dragged_scroll(row, grip) == 0,
        bar.track_row(row) - grip >= bar.track() - bar.thumb_len() > 0 ==> bar.dragged_scroll(
            row,
            grip,
        ) == bar.max_scroll(),
{
    let free = bar.track() - bar.thumb_len();
    let max = bar.max_scroll();
    if free != 0 && max != 0 {
        let start = clamped(bar.track_row(row) - grip, 0, free);
        scaled_to_nearest_bounds(start, max, free);
        assert(0 * max == 0);
        assert((free / 2) / free == 0) by (nonlinear_arith)
            requires
                free > 0,
        ;
        assert((free * max + free / 2) / free == max) by (nonlinear_arith)
            requires
                free > 0,
        ;
    }
}

} // verus!
