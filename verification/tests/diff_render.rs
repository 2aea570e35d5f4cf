use chunk::diff_render::{DiffRenderRequest, DiffRenderState, RenderedDiffLines};
use chunk::line::Line;
use chunk::theme::Theme;

#[test]
fn render_target_grows_partial_cache_geometrically() {
    let mut render = DiffRenderState::new(1);
    let theme = Theme::github_dark();
    render.cache_diff_lines(
        0,
        RenderedDiffLines::new(
            "file".to_string(),
            80,
            theme.syntax,
            true,
            vec![Line::raw("row"); 100],
            false,
        ),
    );

    assert_eq!(
        render.diff_lines_render_target(DiffRenderRequest {
            file_index: 0,
            file_id: "file",
            content_width: 80,
            syntax_palette: theme.syntax,
            can_stage: true,
            requested_rows: 101,
        }),
        Some(200)
    );
    assert_eq!(
        render.diff_lines_render_target(DiffRenderRequest {
            file_index: 0,
            file_id: "file",
            content_width: 80,
            syntax_palette: theme.syntax,
            can_stage: true,
            requested_rows: 250,
        }),
        Some(250)
    );
}
