use chunk::line::Span;
use chunk::rows::text::wrap_styled_spans;
use chunk::style::{plain_style, Color};

#[test]
fn wrapped_spans_preserve_styles_across_rows() {
    let red = plain_style().fg(Color::Red);
    let blue = plain_style().fg(Color::Blue);
    let rows = wrap_styled_spans(
        &vec![Span::styled("abcdef", red), Span::styled("gh", blue)],
        4,
    );

    assert_eq!(rows.len(), 2);
    assert_eq!(spans_text(&rows[0]), "abcd");
    assert_eq!(spans_text(&rows[1]), "efgh");
    assert_eq!(rows[1][0].style, red);
    assert_eq!(rows[1][1].style, blue);
}

fn spans_text(spans: &[Span]) -> String {
    spans
        .iter()
        .map(|span| span.content.as_str())
        .collect::<String>()
}
