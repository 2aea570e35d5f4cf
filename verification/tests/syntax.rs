use chunk::style::{plain_style, Color};
use chunk::syntax::{syntax_name_for_path, SyntaxHighlighter, Syntaxes};
use chunk::theme::SyntaxPalette;

#[test]
fn detects_common_project_languages() {
    let syntaxes = Syntaxes::load();
    for path in [
        "src/main.rs",
        "src/app.js",
        "src/app.ts",
        "src/app.tsx",
        "src/App.vue",
        "src/App.svelte",
        "src/styles.scss",
        "src/styles.sass",
        "src/styles.less",
        "src/schema.graphql",
        "package.json",
        "README.md",
        "docker/Dockerfile.dev",
        "docker/Containerfile",
        ".env.local",
        "config/app.yaml",
        "queries/report.sql",
        "scripts/task.py",
        "cmd/server.go",
        "src/Main.kt",
        "src/App.swift",
        "src/plugin.lua",
        "script.sh",
        "Cargo.toml",
        "go.mod",
        "go.sum",
        ".gitignore",
        ".dockerignore",
        ".editorconfig",
        "package-lock.json",
        "pnpm-lock.yaml",
        "yarn.lock",
        "flake.lock",
    ] {
        assert!(syntax_name_for_path(path, &syntaxes).is_some(), "{path}");
    }
}

#[test]
fn detects_vue_single_file_components() {
    let syntaxes = Syntaxes::load();
    assert_eq!(
        syntax_name_for_path("src/App.vue", &syntaxes).as_deref(),
        Some("Vue Component")
    );
}

#[test]
fn vue_components_use_theme_token_colors() {
    let palette = SyntaxPalette::github_dark_on_matte();
    let base_style = plain_style().fg(Color::White).bg(Color::Black);
    let mut highlighter = SyntaxHighlighter::for_path("src/App.vue", palette, &Syntaxes::load());

    let spans = highlighter.highlight_line("<template>", base_style);

    assert!(highlighter.is_enabled());
    assert!(spans.iter().any(|span| span.style.fg == Some(palette.tag)));
    assert!(spans.iter().all(|span| span.style.bg == Some(Color::Black)));
}

#[test]
fn unknown_paths_fall_back_to_plain_spans() {
    let base_style = plain_style().fg(Color::White).bg(Color::Black);
    let mut highlighter = SyntaxHighlighter::for_path(
        "assets/blob.chunk-unknown",
        SyntaxPalette::github_dark_on_matte(),
        &Syntaxes::load(),
    );

    let spans = highlighter.highlight_line("let value = 1;", base_style);

    assert!(!highlighter.is_enabled());
    assert_eq!(spans.len(), 1);
    assert_eq!(spans[0].content, "let value = 1;");
    assert_eq!(spans[0].style, base_style);
}

#[test]
fn recognized_paths_use_theme_token_colors() {
    let palette = SyntaxPalette::github_dark_on_matte();
    let base_style = plain_style().fg(Color::White).bg(Color::Black);
    let mut highlighter = SyntaxHighlighter::for_path("src/main.rs", palette, &Syntaxes::load());

    let spans = highlighter.highlight_line("fn main() { \"hi\" }", base_style);

    assert!(
        spans
            .iter()
            .any(|span| span.style.fg == Some(palette.keyword))
    );
    assert!(
        spans
            .iter()
            .any(|span| span.style.fg == Some(palette.string))
    );
    assert!(spans.iter().all(|span| span.style.bg == Some(Color::Black)));
}

#[test]
fn maps_additional_token_classes_from_theme_palette() {
    let palette = SyntaxPalette {
        operator: Color::Rgb(1, 2, 3),
        punctuation: Color::Rgb(4, 5, 6),
        macro_call: Color::Rgb(7, 8, 9),
        property: Color::Rgb(10, 11, 12),
        ..SyntaxPalette::github_dark_on_matte()
    };
    let base_style = plain_style().fg(Color::White).bg(Color::Black);
    let mut highlighter = SyntaxHighlighter::for_path("src/main.rs", palette, &Syntaxes::load());

    let spans =
        highlighter.highlight_line("let value = foo::bar!(self.field + 1);", base_style);

    assert!(
        spans
            .iter()
            .any(|span| span.style.fg == Some(palette.operator))
    );
    assert!(
        spans
            .iter()
            .any(|span| span.style.fg == Some(palette.punctuation))
    );
}

#[test]
fn no_two_syntaxes_share_a_name() {
    let set = two_face::syntax::extra_no_newlines();
    let mut names: Vec<&str> = set
        .syntaxes()
        .iter()
        .map(|syntax| syntax.name.as_str())
        .collect();
    names.sort();
    let count = names.len();
    names.dedup();

    assert_eq!(names.len(), count);
}
