use chunk::input::Rect;
use chunk::rows::sidebar::SidebarRowTarget;
use chunk::viewport::{DiffScrollbar, RenderedViewport, ViewportScrollInput};

#[test]
fn clamped_scrolls_leave_sidebar_scroll_for_sidebar_renderer() {
    let mut viewport = RenderedViewport::new();
    viewport.begin_sidebar(Rect::default(), 3);

    let scrolls = viewport.clamped_scrolls(ViewportScrollInput {
        diff_scroll: 0,
        sidebar_scroll: 0,
        file_count: 6,
        diff_max_scroll: 0,
    });
    assert_eq!(scrolls.sidebar_scroll, 0);

    let scrolls = viewport.clamped_scrolls(ViewportScrollInput {
        diff_scroll: 0,
        sidebar_scroll: 99,
        file_count: 6,
        diff_max_scroll: 0,
    });
    assert_eq!(scrolls.sidebar_scroll, 99);
}

#[test]
fn sidebar_row_mapping_records_visible_rows() {
    let mut viewport = RenderedViewport::new();
    viewport.begin_sidebar(Rect::new(0, 0, 12, 5), 3);
    viewport.record_sidebar_rows(SidebarRowTarget::File(2), 3);

    assert_eq!(
        viewport.sidebar_target_at(1, 1),
        Some(SidebarRowTarget::File(2))
    );
    assert_eq!(
        viewport.sidebar_target_at(1, 3),
        Some(SidebarRowTarget::File(2))
    );
    assert_eq!(viewport.sidebar_target_at(1, 4), None);
}

#[test]
fn diff_scrollbar_thumb_reflects_scroll_and_visible_rows() {
    let scrollbar =
        DiffScrollbar::new(Rect::new(0, 0, 1, 10), 0, "file".to_string(), 100, 20, 40);

    let thumb = scrollbar.thumb();
    assert_eq!(thumb.len, 2);
    assert_eq!(thumb.start, 4);

    let drag = scrollbar.drag_at(0, 9).unwrap();
    assert_eq!(scrollbar.scroll_for_drag(9, drag), 80);
}
