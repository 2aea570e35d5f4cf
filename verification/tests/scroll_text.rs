use chunk::scroll_text::{ScrollText, VerticalDirection};

fn synced(offset: usize, rows: usize, height: usize) -> ScrollText {
    let mut scroll = ScrollText::default();
    scroll.sync(rows, height);
    scroll.scroll_by(VerticalDirection::Down, offset);
    scroll
}

#[test]
fn sync_clamps_offset_to_last_full_page() {
    // Scrolled deep into tall content, then the content shrinks: the next
    // sync must pull the offset back to the last full page.
    let mut scroll = synced(100, 100, 4);
    assert_eq!(scroll.offset(), 96);
    scroll.sync(10, 4);
    assert_eq!(scroll.offset(), 6);
}

#[test]
fn content_within_view_pins_offset_to_top() {
    let scroll = synced(100, 3, 4);
    assert_eq!(scroll.offset(), 0);
}

#[test]
fn to_bottom_lands_on_last_full_page() {
    let mut scroll = synced(0, 10, 4);
    scroll.scroll_to_bottom();
    assert_eq!(scroll.offset(), 6);
}

#[test]
fn scroll_up_saturates_at_top() {
    let mut scroll = synced(2, 10, 4);
    scroll.scroll_by(VerticalDirection::Up, 9);
    assert_eq!(scroll.offset(), 0);
}

#[test]
fn visible_returns_rows_at_offset() {
    let scroll = synced(2, 10, 3);
    let rows: Vec<usize> = (0..10).collect();
    assert_eq!(scroll.visible(rows), vec![2, 3, 4]);
}
