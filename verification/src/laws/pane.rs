//! Where the diff pane goes, and what its scroll bar shows.

use vstd::prelude::*;

use crate::app::diff_pane::{PaneContext, PaneView};
use crate::input::Rect;
use crate::model::FileView;
use crate::scroll_text::{clamped, least, ScrollView, VerticalDirection};
use crate::viewport::{
    scaled_to_nearest, scaled_up, thumb_stays_on_track, ScrollbarView, ViewportView,
};

verus! {

/// Another file is shown from its first row on, with its first hunk selected; the query of
/// the search stays, its matches do not.
pub proof fn file_is_shown_from_its_start(pane: PaneView, file: Option<FileView>)
    ensures
        ({
            let after = pane.on_file(file);
            &&& after.scroll == 0
            &&& file is Some && file->0.hunks.len() > 0 ==> after.hunk == Some(0int)
            &&& file is None || file->0.hunks.len() == 0 ==> after.hunk is None
            &&& after.search.query == pane.search.query
            &&& after.search.matches.len() == 0 && after.search.active_index is None
            &&& pane.search.query.len() > 0 ==> after.search.scroll_pending
        }),
{
}

/// Without a search the jump keys go through the hunks one by one and stop at the first and
/// the last; the query of a search sends them through its matches instead.
pub proof fn jumps_go_one_by_one(pane: PaneView, context: PaneContext, hunk: int)
    requires
        context.file is Some,
        0 <= hunk < context.file->0.hunks.len(),
        context.file->0.hunks.len() <= usize::MAX,
        pane.hunk == Some(hunk),
        pane.search.query.len() == 0,
    ensures
        ({
            let count = context.file->0.hunks.len() as int;
            let down = pane.jumped(VerticalDirection::Down, context);
            let up = pane.jumped(VerticalDirection::Up, context);
            &&& hunk + 1 < count ==> down.hunk == Some(hunk + 1)
            &&& hunk + 1 == count ==> down.hunk == Some(hunk)
            &&& hunk > 0 ==> up.hunk == Some(hunk - 1)
            &&& hunk == 0 ==> up.hunk == Some(0int)
            &&& down.search == pane.search && up.search == pane.search
        }),
{
}

/// The active match, and the header of the selected hunk, are brought to the middle of the
/// pane, as far as there are rows above them.
pub proof fn jumps_bring_to_the_middle(pane: PaneView, context: PaneContext, row: usize)
    ensures
        pane.search.active_row() == Some(row) ==> pane.match_shown(context).scroll == if row
            > context.height / 2 {
            row - context.height / 2
        } else {
            0
        },
        pane.search.active_row() is None ==> pane.match_shown(context) == pane,
        context.file is Some && pane.hunk is Some && 0 <= pane.hunk->0
            < context.file->0.hunks.len() && context.render.offset_of(
            context.file_index,
            context.file->0.id,
            pane.hunk->0,
        ) == Some(row as int) ==> pane.centered(context).scroll == if row > context.height / 2 {
            row - context.height / 2
        } else {
            0
        },
        pane.centered(context).hunk == pane.hunk,
{
}

/// Scrolling goes as many rows as asked for in its direction, and not past the ends.
pub proof fn scrolling_goes_its_way(value: int, amount: int)
    requires
        0 <= value,
        0 <= amount,
        value + amount <= usize::MAX,
    ensures
        VerticalDirection::Down.shifted(value, amount) == value + amount,
        amount <= value ==> VerticalDirection::Up.shifted(value, amount) == value - amount,
        amount > value ==> VerticalDirection::Up.shifted(value, amount) == 0,
        VerticalDirection::Up.shifted(VerticalDirection::Down.shifted(value, amount), amount)
            == value,
{
}

/// Text that is rendered anew stays where it was while that is not past its last page.
pub proof fn rendered_text_stays_in_place(view: ScrollView, rows: int, height: int)
    requires
        0 <= view.at,
    ensures
        ({
            let after = view.synced(rows, height);
            &&& view.at + height <= rows ==> after.at == view.at
            &&& rows <= height ==> after.at == 0
            &&& rows > height && view.at + height > rows ==> after.at + height == rows
        }),
{
}

proof fn quotient_bounds(value: int, d: int)
    requires
        0 < d,
    ensures
        d * (value / d) <= value < d * (value / d) + d,
{
    vstd::arithmetic::div_mod::lemma_fundamental_div_mod(value, d);
}

/// The thumb covers the share of the track that is in view, rounded up, and is one row at
/// least.
pub proof fn thumb_shows_the_share_in_view(bar: ScrollbarView)
    requires
        0 < bar.visible_rows <= bar.total_rows,
    ensures
        bar.thumb_len() * bar.total_rows >= bar.visible_rows * bar.track(),
        (bar.thumb_len() - 1) * bar.total_rows < bar.visible_rows * bar.track(),
        bar.visible_rows == bar.total_rows ==> bar.thumb_len() == bar.track(),
{
    let (v, t, n) = (bar.visible_rows, bar.track(), bar.total_rows);
    let share = scaled_up(v, t, n);
    quotient_bounds(v * t + n - 1, n);
    assert(v * t > 0) by (nonlinear_arith)
        requires
            v > 0,
            t > 0,
    ;
    assert(v * t <= n * t) by (nonlinear_arith)
        requires
            0 < v <= n,
            t > 0,
    ;
    assert(share >= 1) by {
        if share <= 0 {
            assert(n * share <= 0) by (nonlinear_arith)
                requires
                    share <= 0,
                    n > 0,
            ;
        }
    }
    assert(share <= t) by {
        if share >= t + 1 {
            assert(n * share >= n * t + n) by (nonlinear_arith)
                requires
                    share >= t + 1,
                    n > 0,
            ;
        }
    }
    assert(bar.thumb_len() == share);
    assert(share * n == n * share) by (nonlinear_arith);
    assert((share - 1) * n == n * share - n) by (nonlinear_arith);
    if v == n {
        assert(share >= t) by {
            if share <= t - 1 {
                assert(n * share <= n * t - n) by (nonlinear_arith)
                    requires
                        share <= t - 1,
                        n > 0,
                ;
            }
        }
    }
}

proof fn scaling_is_monotone(a: int, b: int, m: int, d: int)
    requires
        0 <= a <= b,
        0 <= m,
        0 < d,
    ensures
        scaled_to_nearest(a, m, d) <= scaled_to_nearest(b, m, d),
{
    assert(a * m <= b * m) by (nonlinear_arith)
        requires
            a <= b,
            0 <= m,
    ;
    vstd::arithmetic::div_mod::lemma_div_is_ordered(a * m + d / 2, b * m + d / 2, d);
}

/// Further down in the text the thumb is further down, and a thumb that is dragged further
/// down leads further down in the text.
pub proof fn thumb_and_text_go_together(
    bar: ScrollbarView,
    further: ScrollbarView,
    grip: int,
    low: int,
    high: int,
)
    requires
        0 <= bar.scroll <= further.scroll,
        further == (ScrollbarView { scroll: further.scroll, ..bar }),
        low <= high,
    ensures
        bar.thumb_start() <= further.thumb_start(),
        bar.dragged_scroll(low, grip) <= bar.dragged_scroll(high, grip),
{
    thumb_stays_on_track(bar);
    let free = bar.track() - bar.thumb_len();
    let most = bar.max_scroll();
    if free > 0 && most > 0 {
        scaling_is_monotone(
            least(bar.scroll, most),
            least(further.scroll, most),
            free,
            most,
        );
        let a = clamped(bar.track_row(low) - grip, 0, free);
        let b = clamped(bar.track_row(high) - grip, 0, free);
        scaling_is_monotone(a, b, most, free);
    }
}

/// The rows of the files panel stand below its upper border, in order; a click finds the
/// one that is shown there.
pub proof fn panel_rows_are_found_where_they_are(
    view: ViewportView,
    area: Rect,
    column: int,
    i: int,
)
    requires
        view.sidebar_area == Some(area),
        0 <= i < view.sidebar_row_targets.len(),
    ensures
        area.holds_inside(column, area.y + 1 + i) ==> view.target_at(column, area.y + 1 + i) == Some(
            view.sidebar_row_targets[i],
        ),
        !area.holds_inside(column, area.y + 1 + i) ==> view.target_at(column, area.y + 1 + i)
            is None,
{
}

/// The inside of an area leaves out its border.
pub proof fn inside_leaves_out_the_border(area: Rect, column: int, row: int)
    requires
        area.x + area.width <= u16::MAX,
        area.y + area.height <= u16::MAX,
    ensures
        area.holds(column, row) <==> area.x <= column < area.x + area.width && area.y <= row
            < area.y + area.height,
        area.holds_inside(column, row) <==> area.x < column < area.x + area.width - 1 && area.y
            < row < area.y + area.height - 1,
{
}

/// The thumb is held where it was taken hold of; a press beside it takes hold of its middle.
pub proof fn thumb_is_held_where_it_is_pressed(bar: ScrollbarView, row: int)
    requires
        0 <= bar.scroll,
        bar.area.y <= row < bar.area.y + bar.area.height,
    ensures
        ({
            let offset = row - bar.area.y;
            let start = bar.thumb_start();
            &&& start <= offset < start + bar.thumb_len() ==> start + bar.grip(row) == offset
            &&& !(start <= offset < start + bar.thumb_len()) ==> bar.grip(row) == bar.thumb_len()
                / 2
            &&& 0 <= bar.grip(row) < bar.thumb_len()
        }),
{
    thumb_stays_on_track(bar);
}

} // verus!
