use chunk::input::Rect;
use chunk::line::Line;
use chunk::selection::TextSelection;
use chunk::theme::Theme;

#[test]
fn drag_selects_visible_text_with_line_breaks() {
    let mut selection = TextSelection::default();
    let theme = Theme::github_dark();
    selection.begin_frame();
    let _ = selection.decorate_visible_lines(
        Rect::new(5, 10, 20, 2),
        vec![Line::raw("alpha beta"), Line::raw("gamma delta")],
        0,
        2,
        theme,
    );

    assert!(selection.begin_drag(8, 10));
    assert!(selection.update_drag(9, 11));
    assert!(selection.finish_drag(9, 11));

    assert_eq!(
        selection.take_clipboard_request().as_deref(),
        Some("ha beta\ngamma")
    );
}

#[test]
fn selection_highlights_visible_cells_only() {
    let mut selection = TextSelection::default();
    let theme = Theme::github_dark();
    selection.begin_frame();
    let _ = selection.decorate_visible_lines(
        Rect::new(0, 0, 8, 1),
        vec![Line::raw("abcdef")],
        0,
        1,
        theme,
    );

    assert!(selection.begin_drag(1, 0));
    assert!(selection.update_drag(3, 0));
    let lines = selection.decorate_visible_lines(
        Rect::new(0, 0, 8, 1),
        vec![Line::raw("abcdef")],
        0,
        1,
        theme,
    );

    let highlighted = lines[0]
        .spans
        .iter()
        .filter(|span| span.style.bg == Some(theme.accent))
        .map(|span| span.content.as_str())
        .collect::<String>();
    assert_eq!(highlighted, "bcd");
    assert!(
        lines[0]
            .spans
            .iter()
            .any(|span| span.content.as_str() == "a" && span.style.bg != Some(theme.accent))
    );
}

#[test]
fn drag_highlight_stays_on_origin_surface() {
    let mut selection = TextSelection::default();
    let theme = Theme::github_dark();
    let sidebar = Rect::new(0, 0, 10, 2);
    let diff = Rect::new(12, 0, 16, 2);

    selection.begin_frame();
    let _ = selection.decorate_visible_lines(
        sidebar,
        vec![Line::raw("file one"), Line::raw("file two")],
        0,
        2,
        theme,
    );
    let _ = selection.decorate_visible_lines(
        diff,
        vec![Line::raw("diff one"), Line::raw("diff two")],
        0,
        2,
        theme,
    );

    assert!(selection.begin_drag(17, 0));
    assert!(selection.update_drag(15, 1));

    selection.begin_frame();
    let sidebar_lines = selection.decorate_visible_lines(
        sidebar,
        vec![Line::raw("file one"), Line::raw("file two")],
        0,
        2,
        theme,
    );
    let diff_lines = selection.decorate_visible_lines(
        diff,
        vec![Line::raw("diff one"), Line::raw("diff two")],
        0,
        2,
        theme,
    );

    assert!(highlighted_text(&sidebar_lines).is_empty());
    assert_eq!(highlighted_text(&diff_lines), "onediff");
    assert!(selection.finish_drag(15, 1));
    assert_eq!(
        selection.take_clipboard_request().as_deref(),
        Some("one\ndiff")
    );
}

fn highlighted_text(lines: &[Line]) -> String {
    lines
        .iter()
        .flat_map(|line| line.spans.iter())
        .filter(|span| span.style.bg.is_some())
        .map(|span| span.content.as_str())
        .collect()
}
