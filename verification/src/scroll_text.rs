//! A vertically scrollable block of rendered rows.
//!
//! [`ScrollText`] owns a scroll offset and the geometry captured at the last
//! render. The output panes and the help overlay each hold one.

use vstd::prelude::*;

verus! {

/// A vertical scroll direction, shared by every scrollable surface.
#[derive(Debug, Clone, Copy, PartialEq, Eq, Structural)]
pub enum VerticalDirection {
    Down,
    Up,
}

/// `value` clamped into `low..=high`.
pub open spec fn clamped(value: int, low: int, high: int) -> int {
    if value < low {
        low
    } else if value > high {
        high
    } else {
        value
    }
}

/// The smaller of two integers.
pub open spec fn least(a: int, b: int) -> int {
    if a <= b { a } else { b }
}

/// The larger of two integers.
pub open spec fn greatest(a: int, b: int) -> int {
    if a >= b { a } else { b }
}

impl VerticalDirection {
    /// `value` moved by `amount`, saturating at the bounds of the offset type.
    pub open spec fn shifted(self, value: int, amount: int) -> int {
        match self {
            VerticalDirection::Down => least(value + amount, usize::MAX as int),
            VerticalDirection::Up => greatest(value - amount, 0),
        }
    }

    pub fn shift(self, value: usize, amount: usize) -> (moved: usize)
        ensures
            moved == self.shifted(value as int, amount as int),
    {
        match self {
            VerticalDirection::Down => value.saturating_add(amount),
            VerticalDirection::Up => value.saturating_sub(amount),
        }
    }

    pub fn shift_clamped(self, value: usize, amount: usize, max: usize) -> (moved: usize)
        ensures
            moved == least(self.shifted(value as int, amount as int), max as int),
    {
        let moved: usize = self.shift(value, amount);
        if moved <= max { moved } else { max }
    }
}

/// Scroll offset and last-rendered geometry for one scrollable pane.
#[derive(Debug, Clone, Copy, PartialEq, Eq, Structural)]
pub struct ScrollText {
    offset: usize,
    rendered_row_count: usize,
    visible_height: usize,
}

/// First row of the last full page of `rows` rows seen through `height` rows.
pub open spec fn last_page(rows: int, height: int) -> int {
    greatest(rows - height, 0)
}

/// What a [`ScrollText`] holds.
#[verifier::ext_equal]
pub struct ScrollView {
    pub at: int,
    pub rows: int,
    pub height: int,
}

impl View for ScrollText {
    type V = ScrollView;

    open spec fn view(&self) -> ScrollView {
        ScrollView { at: self.at(), rows: self.rows(), height: self.height() }
    }
}

impl ScrollView {
    pub open spec fn start() -> ScrollView {
        ScrollView { at: 0, rows: 0, height: 0 }
    }

    /// The last offset.
    pub open spec fn last(self) -> int {
        last_page(self.rows, self.height)
    }

    /// Moved by some rows, as far as the last page.
    pub open spec fn moved(self, direction: VerticalDirection, amount: int) -> ScrollView {
        ScrollView { at: least(direction.shifted(self.at, amount), self.last()), ..self }
    }

    pub open spec fn to_top(self) -> ScrollView {
        ScrollView { at: 0, ..self }
    }

    pub open spec fn to_bottom(self) -> ScrollView {
        ScrollView { at: self.last(), ..self }
    }

    /// With the geometry of a render.
    pub open spec fn synced(self, rows: int, height: int) -> ScrollView {
        ScrollView { at: least(self.at, last_page(rows, height)), rows, height }
    }

    /// Rows of a page step.
    pub open spec fn page(self) -> int {
        greatest(self.height, 1)
    }
}

impl Default for ScrollText {
    fn default() -> (scroll: Self)
        ensures
            scroll.at() == 0,
            scroll.rows() == 0,
            scroll.height() == 0,
    {
        ScrollText { offset: 0, rendered_row_count: 0, visible_height: 0 }
    }
}

impl ScrollText {
    /// The scroll offset.
    pub closed spec fn at(self) -> int {
        self.offset as int
    }

    /// Number of rows of the last render.
    pub closed spec fn rows(self) -> int {
        self.rendered_row_count as int
    }

    /// Height of the view at the last render.
    pub closed spec fn height(self) -> int {
        self.visible_height as int
    }

    /// The offset never passes the last full page, and the geometry is natural.
    #[verifier::type_invariant]
    pub closed spec fn inv(self) -> bool {
        self.offset as int <= last_page(self.rendered_row_count as int, self.visible_height as int)
    }

    /// First visible row, already clamped to the latest [`sync`](Self::sync).
    pub fn offset(&self) -> (offset: usize)
        ensures
            offset == self.at(),
            offset <= last_page(self.rows(), self.height()),
    {
        proof {
            use_type_invariant(self);
        }
        self.offset
    }

    /// Records the geometry of the current render and clamps the offset to it.
    pub fn sync(&mut self, rendered_row_count: usize, visible_height: usize)
        ensures
            final(self).rows() == rendered_row_count,
            final(self).height() == visible_height,
            final(self).at() == least(
                old(self).at(),
                last_page(rendered_row_count as int, visible_height as int),
            ),
    {
        *self = Self::placed(self.offset, rendered_row_count, visible_height);
    }

    /// Page step for `PageUp`/`PageDown`: the last rendered visible height.
    pub fn page(&self) -> (page: usize)
        ensures
            page == greatest(self.height(), 1),
    {
        if self.visible_height > 1 { self.visible_height } else { 1 }
    }

    pub fn scroll_by(&mut self, direction: VerticalDirection, amount: usize)
        ensures
            final(self).rows() == old(self).rows(),
            final(self).height() == old(self).height(),
            final(self).at() == least(
                direction.shifted(old(self).at(), amount as int),
                last_page(old(self).rows(), old(self).height()),
            ),
    {
        let moved: usize = direction.shift(self.offset, amount);
        *self = Self::placed(moved, self.rendered_row_count, self.visible_height);
    }

    pub fn scroll_to_top(&mut self)
        ensures
            final(self).rows() == old(self).rows(),
            final(self).height() == old(self).height(),
            final(self).at() == 0,
    {
        *self = Self::placed(0, self.rendered_row_count, self.visible_height);
    }

    pub fn scroll_to_bottom(&mut self)
        ensures
            final(self).rows() == old(self).rows(),
            final(self).height() == old(self).height(),
            final(self).at() == last_page(old(self).rows(), old(self).height()),
    {
        *self = Self::placed(usize::MAX, self.rendered_row_count, self.visible_height);
    }

    /// The slice of `lines` visible at the current offset and height.
    pub fn visible<T>(&self, lines: Vec<T>) -> (shown: Vec<T>)
        ensures
            0 <= self.at(),
            0 <= self.height(),
            shown@ == lines@.subrange(
                least(self.at(), lines@.len() as int),
                least(self.at() + self.height(), lines@.len() as int),
            ),
    {
        let mut lines = lines;
        let start: usize = if self.offset <= lines.len() { self.offset } else { lines.len() };
        let mut shown = lines.split_off(start);
        shown.truncate(self.visible_height);
        shown
    }

    /// `offset` clamped to the last full page of the given geometry.
    fn placed(offset: usize, rendered_row_count: usize, visible_height: usize) -> (scroll: Self)
        ensures
            scroll.rows() == rendered_row_count,
            scroll.height() == visible_height,
            scroll.at() == least(
                offset as int,
                last_page(rendered_row_count as int, visible_height as int),
            ),
    {
        let last: usize = rendered_row_count.saturating_sub(visible_height);
        let offset: usize = if offset <= last { offset } else { last };
        ScrollText { offset, rendered_row_count, visible_height }
    }
}

} // verus!
