use chunk::rows::file_summary::{file_icon, file_icon_color, file_kind, FileKind};
use chunk::theme::Theme;

fn assert_file_kinds(cases: &[(&str, FileKind)]) {
    for &(path, kind) in cases {
        assert_eq!(file_kind(path), kind, "{path}");
    }
}

#[test]
fn common_file_types_map_to_distinct_kinds() {
    assert_file_kinds(&[
        ("src/main.rs", FileKind::Rust),
        ("app/index.ts", FileKind::TypeScript),
        ("ui/Button.tsx", FileKind::React),
        ("ui/Button.jsx", FileKind::React),
        ("script.js", FileKind::JavaScript),
        ("data.json", FileKind::Json),
        ("run.py", FileKind::Python),
        ("server.go", FileKind::Go),
        ("README.md", FileKind::Markdown),
        ("Cargo.toml", FileKind::Config),
        ("config.yaml", FileKind::Yaml),
        ("logo.png", FileKind::Image),
    ]);
}

#[test]
fn extension_matching_is_case_insensitive() {
    assert_file_kinds(&[("PHOTO.PNG", FileKind::Image), ("Main.RS", FileKind::Rust)]);
}

#[test]
fn lock_files_use_the_lock_kind_regardless_of_prefix() {
    assert_file_kinds(&[
        ("Cargo.lock", FileKind::Lock),
        ("yarn.lock", FileKind::Lock),
        ("deep/nested/poetry.lock", FileKind::Lock),
    ]);
}

#[test]
fn unknown_and_extensionless_files_fall_back_to_generic() {
    assert_file_kinds(&[
        ("Makefile", FileKind::Generic),
        ("LICENSE", FileKind::Generic),
        ("archive.unknownext", FileKind::Generic),
        ("", FileKind::Generic),
        (".gitignore", FileKind::Generic),
    ]);
}

#[test]
fn icon_matches_the_classified_kind() {
    assert_eq!(file_icon("src/main.rs"), FileKind::Rust.icon());
    assert_eq!(file_icon("Makefile"), FileKind::Generic.icon());
    assert_eq!(file_icon("Cargo.lock"), FileKind::Lock.icon());
}

#[test]
fn known_file_types_use_a_type_colored_icon_in_each_theme() {
    for theme in [Theme::gruvbox_dark_hard(), Theme::github_dark()] {
        // Rust and Markdown classify to different kinds, so their icon
        // colors must differ to make types scannable.
        assert_ne!(
            file_icon_color("src/main.rs", theme),
            file_icon_color("README.md", theme),
        );
    }
}

#[test]
fn generic_and_lock_files_fall_back_to_muted_color() {
    for theme in [Theme::gruvbox_dark_hard(), Theme::github_dark()] {
        assert_eq!(file_icon_color("Makefile", theme), theme.muted);
        assert_eq!(file_icon_color("Cargo.lock", theme), theme.muted);
    }
}
