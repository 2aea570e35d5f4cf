//! Geometry of the panes, the help overlay and the scrollbars.

use vstd::prelude::*;
use vstd::string::*;

use crate::input::{coordinate, Rect};
use crate::keybind::{key_name, BuiltinAction, KeybindMap};
use crate::line::{group_line_views, piece, row, row_views, span_views, Line, RowView, Span};
use crate::scroll_text::{greatest, last_page, least};
use crate::style::{color_style, Color, Modifier};
use crate::text::{cat5, trim, trimmed};
use crate::theme::Theme;

verus! {

pub const SIDEBAR_WIDTH: u16 = 34;

pub const MIN_SPLIT_WIDTH: u16 = 100;

pub const PANE_BORDER_WIDTH: u16 = 2;

pub const HELP_OVERLAY_WIDTH: u16 = 78;

pub const HELP_OVERLAY_MAX_HEIGHT: u16 = 24;

pub const HELP_SCROLLBAR_WIDTH: u16 = 1;

/// How the sidebar and the diff share the screen.
#[derive(Debug, Clone, Copy, PartialEq, Eq, Structural)]
pub enum BodyDirection {
    /// Side by side.
    Horizontal,
    /// One above the other.
    Vertical,
}

/// How the body is divided.
pub open spec fn divided(area: Rect) -> (BodyDirection, u16) {
    if area.width >= MIN_SPLIT_WIDTH {
        (BodyDirection::Horizontal, SIDEBAR_WIDTH)
    } else {
        (BodyDirection::Vertical, least(area.height as int, 9) as u16)
    }
}

/// The direction of the body and the size of the sidebar: at the left of a wide
/// screen, else above the diff.
pub fn body_layout(area: Rect) -> (layout: (BodyDirection, u16))
    ensures
        area.width >= MIN_SPLIT_WIDTH ==> layout == (BodyDirection::Horizontal, SIDEBAR_WIDTH),
        area.width < MIN_SPLIT_WIDTH ==> layout == (
            BodyDirection::Vertical,
            least(area.height as int, 9) as u16,
        ),
        layout == divided(area),
{
    if area.width >= MIN_SPLIT_WIDTH {
        let room: u16 = area.width.saturating_sub(40);
        let sidebar_width: u16 = if SIDEBAR_WIDTH < room { SIDEBAR_WIDTH } else { room };
        return (BodyDirection::Horizontal, sidebar_width);
    }
    (BodyDirection::Vertical, if area.height < 9 { area.height } else { 9 })
}

/// Rows inside the border of a pane, one at least.
pub fn pane_inner_height(area: Rect) -> (height: usize)
    ensures
        height == greatest(area.height - PANE_BORDER_WIDTH, 1),
{
    let height: u16 = area.height.saturating_sub(PANE_BORDER_WIDTH);
    if height > 1 { height as usize } else { 1 }
}

/// Columns inside the border of a pane.
pub fn pane_content_width(area: Rect) -> (width: usize)
    ensures
        width == greatest(area.width - PANE_BORDER_WIDTH, 0),
{
    area.width.saturating_sub(PANE_BORDER_WIDTH) as usize
}

/// The place of centered key hints beside a tag: where they would run into the tag
/// they are centered in what is left of the line.
pub open spec fn hints_area(area: Rect, line_width: int, tag_width: Option<u16>) -> Rect {
    match tag_width {
        Some(tag) => {
            let shown = least(line_width, area.width as int);
            if (area.width - shown) / 2 > tag {
                area
            } else {
                let offset = least(coordinate(tag + 1), area.width as int);
                Rect {
                    x: coordinate(area.x + offset) as u16,
                    width: (area.width - offset) as u16,
                    ..area
                }
            }
        },
        None => area,
    }
}

pub fn keybind_content_area(area: Rect, line_width: usize, tag_width: Option<u16>) -> (place: Rect)
    ensures
        place == hints_area(area, line_width as int, tag_width),
{
    let tag: u16 = match tag_width {
        Some(tag) => tag,
        None => {
            return area;
        },
    };
    let shown: u16 = if line_width < area.width as usize { line_width as u16 } else { area.width };
    let centered_start: u16 = area.width.saturating_sub(shown) / 2;
    if centered_start > tag {
        return area;
    }
    let behind: u16 = tag.saturating_add(1);
    let offset: u16 = if behind < area.width { behind } else { area.width };
    Rect {
        x: area.x.saturating_add(offset),
        y: area.y,
        width: area.width.saturating_sub(offset),
        height: area.height,
    }
}

/// Width of the help overlay: a fixed one, with room at both sides.
pub open spec fn overlay_width(area: Rect) -> int {
    if area.width <= 4 {
        area.width as int
    } else {
        least(HELP_OVERLAY_WIDTH as int, area.width - 4)
    }
}

pub fn help_overlay_width(area: Rect) -> (width: u16)
    ensures
        width == overlay_width(area),
{
    if area.width <= 4 {
        return area.width;
    }
    let room: u16 = area.width - 4;
    if HELP_OVERLAY_WIDTH < room { HELP_OVERLAY_WIDTH } else { room }
}

/// Height of the help overlay: that of its content, bounded, with room above and
/// below.
pub open spec fn overlay_height(area: Rect, content_height: int) -> int {
    if area.height <= 2 {
        area.height as int
    } else {
        least(
            least(coordinate(content_height + PANE_BORDER_WIDTH), HELP_OVERLAY_MAX_HEIGHT as int),
            area.height - 2,
        )
    }
}

pub fn help_overlay_height(area: Rect, content_height: u16) -> (height: u16)
    ensures
        height == overlay_height(area, content_height as int),
{
    if area.height <= 2 {
        return area.height;
    }
    let framed: u16 = content_height.saturating_add(PANE_BORDER_WIDTH);
    let bounded: u16 = if framed < HELP_OVERLAY_MAX_HEIGHT {
        framed
    } else {
        HELP_OVERLAY_MAX_HEIGHT
    };
    let room: u16 = area.height - 2;
    if bounded < room { bounded } else { room }
}

/// A rectangle of some size in the middle of an area.
pub open spec fn centered(area: Rect, width: int, height: int) -> Rect {
    let w = least(width, area.width as int);
    let h = least(height, area.height as int);
    Rect {
        x: coordinate(area.x + (area.width - w) / 2) as u16,
        y: coordinate(area.y + (area.height - h) / 2) as u16,
        width: w as u16,
        height: h as u16,
    }
}

pub fn centered_rect(area: Rect, width: u16, height: u16) -> (place: Rect)
    ensures
        place == centered(area, width as int, height as int),
{
    let width: u16 = if width < area.width { width } else { area.width };
    let height: u16 = if height < area.height { height } else { area.height };
    Rect {
        x: area.x.saturating_add(area.width.saturating_sub(width) / 2),
        y: area.y.saturating_add(area.height.saturating_sub(height) / 2),
        width,
        height,
    }
}

/// The place of the scrollbar inside the help overlay.
pub fn help_scrollbar_area(area: Rect) -> (place: Rect)
    ensures
        place.x == coordinate(area.x + greatest(area.width - 2, 0)),
        place.y == coordinate(area.y + 1),
        place.width == HELP_SCROLLBAR_WIDTH,
        place.height == greatest(area.height - PANE_BORDER_WIDTH, 0),
{
    Rect {
        x: area.x.saturating_add(area.width.saturating_sub(2)),
        y: area.y.saturating_add(1),
        width: HELP_SCROLLBAR_WIDTH,
        height: area.height.saturating_sub(PANE_BORDER_WIDTH),
    }
}

pub fn help_overlay_overflows(line_count: usize, visible_height: usize) -> (overflows: bool)
    ensures
        overflows == (line_count > visible_height),
{
    line_count > visible_height
}

pub fn saturating_u16(value: usize) -> (small: u16)
    ensures
        small == coordinate(value as int),
{
    if value < u16::MAX as usize { value as u16 } else { u16::MAX }
}

#[derive(Debug, Clone, Copy, PartialEq, Eq, Structural)]
pub struct ScrollbarThumb {
    pub start: usize,
    pub len: usize,
}

/// A product that stays at the largest value that can be held.
pub open spec fn bounded_product(a: int, b: int) -> int {
    least(a * b, usize::MAX as int)
}

/// Length of the thumb of a scrollbar that leaves a row of its track free.
pub open spec fn overlay_thumb_len(track: int, total: int, visible: int) -> int {
    let rows = greatest(track, 1);
    let share = if total == 0 {
        0
    } else {
        least(bounded_product(visible, rows) + total - 1, usize::MAX as int) / total
    };
    least(greatest(share, 1), greatest(rows - 1, 1))
}

/// First row of the thumb.
pub open spec fn overlay_thumb_start(track: int, total: int, visible: int, scroll: int) -> int {
    let free = greatest(track, 1) - overlay_thumb_len(track, total, visible);
    let range = last_page(total, visible);
    if free == 0 || range == 0 {
        0
    } else {
        least(bounded_product(least(scroll, range), free) + range / 2, usize::MAX as int) / range
    }
}

fn saturating_product(a: usize, b: usize) -> (product: usize)
    ensures
        product == bounded_product(a as int, b as int),
{
    assert(0 <= a * b <= 0xffff_ffff_ffff_ffff * 0xffff_ffff_ffff_ffff) by (nonlinear_arith)
        requires
            0 <= a <= 0xffff_ffff_ffff_ffff,
            0 <= b <= 0xffff_ffff_ffff_ffff,
    ;
    let product: u128 = a as u128 * b as u128;
    if product < usize::MAX as u128 { product as usize } else { usize::MAX }
}

fn ratio_ceil(value: usize, numerator: usize, denominator: usize) -> (part: usize)
    ensures
        part == if denominator == 0 {
            0
        } else {
            least(
                bounded_product(value as int, numerator as int) + denominator - 1,
                usize::MAX as int,
            ) / denominator as int
        },
{
    if denominator == 0 {
        return 0;
    }
    saturating_product(value, numerator).saturating_add(denominator - 1) / denominator
}

fn ratio_round(value: usize, numerator: usize, denominator: usize) -> (part: usize)
    ensures
        part == if denominator == 0 {
            0
        } else {
            least(
                bounded_product(value as int, numerator as int) + denominator / 2,
                usize::MAX as int,
            ) / denominator as int
        },
{
    if denominator == 0 {
        return 0;
    }
    saturating_product(value, numerator).saturating_add(denominator / 2) / denominator
}

pub fn scrollbar_thumb(
    track_height: usize,
    total_rows: usize,
    visible_rows: usize,
    scroll: usize,
) -> (thumb: ScrollbarThumb)
    ensures
        thumb.len == overlay_thumb_len(
            track_height as int,
            total_rows as int,
            visible_rows as int,
        ),
        thumb.start == overlay_thumb_start(
            track_height as int,
            total_rows as int,
            visible_rows as int,
            scroll as int,
        ),
{
    let track: usize = if track_height > 1 { track_height } else { 1 };
    let most: usize = if track > 2 { track - 1 } else { 1 };
    let share: usize = ratio_ceil(visible_rows, track, total_rows);
    let at_least_one: usize = if share > 1 { share } else { 1 };
    let len: usize = if at_least_one < most { at_least_one } else { most };
    let track_range: usize = track.saturating_sub(len);
    let scroll_range: usize = total_rows.saturating_sub(visible_rows);
    let start: usize = if track_range == 0 || scroll_range == 0 {
        0
    } else {
        ratio_round(
            if scroll < scroll_range { scroll } else { scroll_range },
            track_range,
            scroll_range,
        )
    };
    ScrollbarThumb { start, len }
}

/// The rows of a scrollbar.
pub open spec fn scrollbar_rows(
    height: nat,
    start: int,
    len: int,
    background: Color,
    theme: Theme,
) -> Seq<RowView> {
    Seq::new(
        height,
        |i: int|
            row(
                seq![
                    if start <= i < start + len {
                        piece("\u{2588}"@, color_style(theme.accent, background))
                    } else {
                        piece("\u{2502}"@, color_style(theme.muted, background))
                    },
                ],
            ),
    )
}

pub fn scrollbar_lines(
    height: u16,
    thumb: ScrollbarThumb,
    background: Color,
    theme: Theme,
) -> (lines: Vec<Line>)
    ensures
        row_views(lines@) == scrollbar_rows(
            height as nat,
            thumb.start as int,
            thumb.len as int,
            background,
            theme,
        ),
{
    broadcast use group_line_views;

    let ghost wanted = scrollbar_rows(
        height as nat,
        thumb.start as int,
        thumb.len as int,
        background,
        theme,
    );
    let mut lines: Vec<Line> = Vec::new();
    let mut i: u16 = 0;
    assert(row_views(lines@) =~= wanted.take(0));
    while i < height
        invariant
            i <= height,
            wanted == scrollbar_rows(
                height as nat,
                thumb.start as int,
                thumb.len as int,
                background,
                theme,
            ),
            row_views(lines@) == wanted.take(i as int),
        decreases height - i,
    {
        let at: usize = i as usize;
        let in_thumb = at >= thumb.start && at - thumb.start < thumb.len;
        let span = if in_thumb {
            Span::styled("\u{2588}", color_style(theme.accent, background))
        } else {
            Span::styled("\u{2502}", color_style(theme.muted, background))
        };
        let spans = vec![span];
        assert(span_views(spans@) =~= seq![span@]);
        let line = Line::of(spans);
        assert(line@ == wanted[i as int]);
        lines.push(line);
        assert(wanted.take(i + 1) =~= wanted.take(i as int).push(wanted[i as int]));
        i = i + 1;
    }
    assert(wanted.take(wanted.len() as int) =~= wanted);
    lines
}

/// The title of the help overlay.
pub open spec fn overlay_title(theme: Theme, scrollable: bool, keybinds: KeybindMap) -> RowView {
    let muted = color_style(theme.muted, theme.background_alt);
    let title = seq![
        piece("\u{2500} "@, color_style(theme.border_active, theme.background_alt)),
        piece(
            "Keymap"@,
            color_style(theme.accent, theme.background_alt).add_modifier(Modifier::Bold),
        ),
        piece(
            "  "@ + key_name(keybinds.bound(BuiltinAction::Help)) + "/Esc/"@ + key_name(
                keybinds.bound(BuiltinAction::Quit),
            ) + " closes "@,
            muted,
        ),
    ];
    row(
        if scrollable {
            title.push(
                piece(
                    " "@ + key_name(keybinds.bound(BuiltinAction::MoveDown)) + "/"@ + key_name(
                        keybinds.bound(BuiltinAction::MoveUp),
                    ) + " scroll "@,
                    muted,
                ),
            )
        } else {
            title
        },
    )
}

pub fn help_overlay_title(theme: Theme, scrollable: bool, keybinds: KeybindMap) -> (title: Line)
    ensures
        title@ == overlay_title(theme, scrollable, keybinds),
{
    broadcast use group_line_views;

    let muted = color_style(theme.muted, theme.background_alt);
    let mut spans: Vec<Span> = Vec::new();
    spans.push(
        Span::styled("\u{2500} ", color_style(theme.border_active, theme.background_alt)),
    );
    spans.push(
        Span::styled(
            "Keymap",
            color_style(theme.accent, theme.background_alt).add_modifier(Modifier::Bold),
        ),
    );
    let closes = cat5(
        "  ",
        keybinds.display(BuiltinAction::Help).as_str(),
        "/Esc/",
        keybinds.display(BuiltinAction::Quit).as_str(),
        " closes ",
    );
    spans.push(Span::styled(closes.as_str(), muted));
    if scrollable {
        let scrolls = cat5(
            " ",
            keybinds.display(BuiltinAction::MoveDown).as_str(),
            "/",
            keybinds.display(BuiltinAction::MoveUp).as_str(),
            " scroll ",
        );
        spans.push(Span::styled(scrolls.as_str(), muted));
    }
    assert(span_views(spans@) =~= overlay_title(theme, scrollable, keybinds).spans);
    Line::of(spans)
}

/// The color of the border of a pane.
pub open spec fn border_color(focused: bool, theme: Theme) -> Color {
    if focused { theme.border_active } else { theme.border }
}

pub fn pane_border_color(focused: bool, theme: Theme) -> (color: Color)
    ensures
        color == border_color(focused, theme),
{
    if focused { theme.border_active } else { theme.border }
}

/// The title of a pane.
pub open spec fn pane_title_row(title: Seq<char>, focused: bool, theme: Theme) -> RowView {
    let marker = color_style(border_color(focused, theme), theme.background);
    let style = if focused {
        color_style(theme.accent, theme.background).add_modifier(Modifier::Bold)
    } else {
        color_style(theme.muted, theme.background)
    };
    row(seq![piece("\u{2500} "@, marker), piece(trimmed(title), style), piece(" "@, marker)])
}

pub fn pane_title(title: &str, focused: bool, theme: Theme) -> (line: Line)
    ensures
        line@ == pane_title_row(title@, focused, theme),
{
    broadcast use group_line_views;

    let marker = color_style(pane_border_color(focused, theme), theme.background);
    let style = if focused {
        color_style(theme.accent, theme.background).add_modifier(Modifier::Bold)
    } else {
        color_style(theme.muted, theme.background)
    };
    let mut spans: Vec<Span> = Vec::new();
    spans.push(Span::styled("\u{2500} ", marker));
    spans.push(Span::styled(trim(title), style));
    spans.push(Span::styled(" ", marker));
    assert(span_views(spans@) =~= pane_title_row(title@, focused, theme).spans);
    Line::of(spans)
}

/// A centered rectangle lies in the area that it is centered in, as far as the
/// coordinates of the area can be held.
pub proof fn centered_rect_stays_inside(area: Rect, width: int, height: int)
    requires
        0 <= width,
        0 <= height,
        area.x + area.width <= u16::MAX,
        area.y + area.height <= u16::MAX,
    ensures
        ({
            let place = centered(area, width, height);
            &&& area.x <= place.x
            &&& place.x + place.width <= area.x + area.width
            &&& area.y <= place.y
            &&& place.y + place.height <= area.y + area.height
        }),
{
}

} // verus!
