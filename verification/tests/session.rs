use chunk::app::effects::AppEffect;
use chunk::app::events::{ClipboardWriteResult, EditorOutcome, RuntimeEvent};
use chunk::app::overlay::Overlay;
use chunk::app::{App, FocusPane};
use chunk::config::AppConfig;
use chunk::custom_command::{CommandKey, CustomCommandBinding, CustomCommandResult};
use chunk::diff_render::DiffRenderRequest;
use chunk::input::{
    KeyCode, KeyEvent, KeyModifiers, MouseButton, MouseEvent, MouseEventKind, Rect,
};
use chunk::model::Changeset;
use chunk::patch::parse_unified_diff;
use chunk::review_source::{LoadedReview, ReviewSource, WorktreeMutation};
use chunk::rows::sidebar::SidebarRowTarget;
use chunk::syntax::Syntaxes;
use chunk::theme::Theme;

const PATCH: &str = "diff --git a/src/a.rs b/src/a.rs\n\
    --- a/src/a.rs\n\
    +++ b/src/a.rs\n\
    @@ -1 +1 @@\n\
    -one\n\
    +two\n\
    @@ -30 +30 @@\n\
    -three\n\
    +four\n\
    diff --git a/z.txt b/z.txt\n\
    --- a/z.txt\n\
    +++ b/z.txt\n\
    @@ -4 +4 @@\n\
    -five\n\
    +six\n";

fn changeset() -> Changeset {
    parse_unified_diff(PATCH)
}

fn worktree_app() -> App {
    App::with_config(
        LoadedReview {
            source: ReviewSource::worktree(),
            changeset: changeset(),
        },
        AppConfig {
            commands: vec![command()],
            ..AppConfig::default()
        },
    )
}

fn pull_request_app() -> App {
    let changeset = changeset();
    App::with_config(
        LoadedReview {
            source: ReviewSource::pull_request("abc".to_string(), "HEAD".to_string(), &changeset),
            changeset,
        },
        AppConfig::default(),
    )
}

fn command() -> CustomCommandBinding {
    CustomCommandBinding::new(
        CommandKey::parse("C").unwrap(),
        "commit".to_string(),
        "git commit".to_string(),
    )
}

fn press(app: &mut App, value: char) -> bool {
    app.handle_key(KeyEvent::new(KeyCode::Char(value), KeyModifiers::none()))
}

fn press_code(app: &mut App, code: KeyCode) -> bool {
    app.handle_key(KeyEvent::new(code, KeyModifiers::none()))
}

fn mutations(app: &mut App) -> Vec<WorktreeMutation> {
    app.take_effects()
        .into_iter()
        .filter_map(|effect| match effect {
            AppEffect::ApplyMutation(mutation) => Some(mutation),
            _ => None,
        })
        .collect()
}

#[test]
fn staging_asks_for_the_focused_file_or_hunk() {
    let mut app = worktree_app();

    press(&mut app, ' ');
    assert_eq!(
        mutations(&mut app),
        [WorktreeMutation::ToggleFileStaging {
            path: "src/a.rs".to_string()
        }]
    );
    press_code(&mut app, KeyCode::Right);
    press(&mut app, 'n');
    press(&mut app, ' ');
    assert_eq!(
        mutations(&mut app),
        [WorktreeMutation::ToggleHunkStaging {
            file: changeset().files.remove(0),
            hunk_index: 1
        }]
    );
    app.sidebar_cursor_target = Some(SidebarRowTarget::Folder("src".to_string()));
    app.focus = FocusPane::Sidebar;
    press(&mut app, ' ');
    assert_eq!(
        mutations(&mut app),
        [WorktreeMutation::StageFiles {
            paths: vec!["src/a.rs".to_string()]
        }]
    );
}

#[test]
fn pull_request_keys_change_nothing_in_the_worktree() {
    let mut app = pull_request_app();

    for value in [' ', 'd', 'y', 'r', 'n', 'j', 'e'] {
        press(&mut app, value);
    }
    press_code(&mut app, KeyCode::Enter);
    assert!(app.overlay.is_none());
    assert!(mutations(&mut app).is_empty());
    assert_eq!(
        app.live_error.as_deref(),
        Some("edit failed: cannot open PR snapshot in editor; run `chunk diff` to edit worktree files")
    );
    let theme = Theme::github_dark();
    assert_eq!(
        app.keybind_mode_tag_line(theme).unwrap().text(),
        " REVIEW \u{e0b0}"
    );
}

#[test]
fn discard_needs_a_confirmation_that_still_fits() {
    let mut app = worktree_app();

    press(&mut app, 'd');
    assert_eq!(
        app.discard_prompt().as_deref(),
        Some("Discard worktree changes in src/a.rs?")
    );
    assert!(mutations(&mut app).is_empty());
    press(&mut app, 'y');
    assert_eq!(
        mutations(&mut app),
        [WorktreeMutation::DiscardFile {
            path: "src/a.rs".to_string()
        }]
    );

    press(&mut app, 'd');
    app.changeset.files[0].path = "src/b.rs".to_string();
    press_code(&mut app, KeyCode::Enter);
    assert!(mutations(&mut app).is_empty());
    assert_eq!(
        app.live_error.as_deref(),
        Some("discard failed: selected file changed before confirmation")
    );

    press(&mut app, 'd');
    app.changeset.files.clear();
    press(&mut app, 'y');
    assert_eq!(
        app.live_error.as_deref(),
        Some("discard failed: selected file no longer exists")
    );
}

#[test]
fn folder_discard_lists_its_files() {
    let mut app = worktree_app();
    app.sidebar_cursor_target = Some(SidebarRowTarget::Folder("src".to_string()));

    press(&mut app, 'd');
    assert_eq!(
        app.discard_prompt().as_deref(),
        Some("Discard worktree changes in src/ (1 file)?")
    );
    press(&mut app, 'n');
    assert!(app.overlay.is_none());
    press(&mut app, 'd');
    app.changeset.files[0].path = "src/b.rs".to_string();
    press(&mut app, 'y');
    assert_eq!(
        app.live_error.as_deref(),
        Some("discard failed: selected folder changed before confirmation")
    );
}

#[test]
fn mutation_results_replace_the_diff() {
    let mut app = worktree_app();
    app.select_file(1);
    let mut reloaded = changeset();
    reloaded.files.reverse();

    app.handle_runtime_event(RuntimeEvent::MutationFinished {
        preserve_scroll: true,
        failure_context: "staging failed",
        result: Ok(reloaded),
    });
    assert_eq!(app.selected_file_index, 0);
    assert_eq!(app.selected_file().unwrap().path, "z.txt");

    app.handle_runtime_event(RuntimeEvent::MutationFinished {
        preserve_scroll: true,
        failure_context: "staging failed",
        result: Err("no".to_string()),
    });
    assert_eq!(app.live_error.as_deref(), Some("staging failed: no"));
    app.handle_runtime_event(RuntimeEvent::ReviewSourceReloaded {
        preserve_scroll: true,
        result: Err("gone".to_string()),
    });
    assert_eq!(app.live_error.as_deref(), Some("reload failed: gone"));
}

#[test]
fn reviewed_marks_toggle_and_survive_reloads() {
    let mut app = worktree_app();

    press(&mut app, 'r');
    assert!(app.is_selected_file_reviewed());
    app.apply_reloaded_changeset(changeset(), true);
    assert!(app.is_selected_file_reviewed());
    press(&mut app, 'r');
    assert!(!app.is_selected_file_reviewed());
}

#[test]
fn folders_collapse_and_expand_by_click() {
    let mut app = worktree_app();
    let theme = Theme::github_dark();
    let area = Rect::new(0, 0, 30, 10);
    let lines = app.sidebar_rows(area, 28, 8, theme);
    assert_eq!(lines.len(), 3);

    app.handle_left_down(3, 1);
    app.handle_left_up(3, 1);
    assert!(app.collapsed_tree_dirs.contains("src"));
    assert_eq!(app.sidebar_rows(area, 28, 8, theme).len(), 2);
    app.handle_left_down(3, 2);
    app.handle_left_up(3, 2);
    assert_eq!(app.selected_file_index, 1);
    assert_eq!(app.focus(), FocusPane::Sidebar);
}

#[test]
fn sidebar_cursor_moves_over_folders_and_files() {
    let mut app = worktree_app();

    press(&mut app, 'k');
    assert_eq!(
        app.sidebar_cursor_target,
        Some(SidebarRowTarget::Folder("src".to_string()))
    );
    press(&mut app, 'j');
    press(&mut app, 'j');
    assert_eq!(app.selected_file_index, 1);
    press(&mut app, 'j');
    assert_eq!(app.selected_file_index, 1);
    app.sidebar_cursor_target = Some(SidebarRowTarget::Folder("gone".to_string()));
    press(&mut app, 'k');
    assert_eq!(app.selected_file_index, 0);
}

#[test]
fn queued_effects_replace_those_of_their_kind() {
    let mut app = worktree_app();

    press(&mut app, 'y');
    press(&mut app, 'Y');
    press(&mut app, 'C');
    press(&mut app, 'C');
    let effects = app.take_effects();
    assert_eq!(effects.len(), 2);
    assert!(matches!(
        &effects[0],
        AppEffect::CopyToClipboard(request)
            if request.text().contains("+four\n")
                && request.success_message() == "copied selected file diff"
    ));
    assert!(matches!(
        &effects[1],
        AppEffect::RunCustomCommand(command) if command.label() == "commit"
    ));
    assert!(app.take_effects().is_empty());
}

#[test]
fn copies_say_what_is_missing() {
    let mut app = worktree_app();
    press(&mut app, 'y');
    assert!(matches!(
        &app.take_effects()[0],
        AppEffect::CopyToClipboard(request) if request.text() == "src/a.rs"
    ));

    app.changeset.files.clear();
    press(&mut app, 'y');
    assert_eq!(app.live_error.as_deref(), Some("no selected file path to copy"));
    press(&mut app, 'Y');
    assert_eq!(app.live_error.as_deref(), Some("no selected file to copy"));
    press(&mut app, 'a');
    assert_eq!(app.live_error.as_deref(), Some("no selected file to ask about"));
    press(&mut app, 'x');
    assert_eq!(app.live_error.as_deref(), Some("no selected file to explain"));
    press(&mut app, 'e');
    assert_eq!(app.live_error.as_deref(), Some("no selected file to open"));
    press(&mut app, 'd');
    assert_eq!(app.live_error.as_deref(), Some("no selected file to discard"));
}

#[test]
fn editor_opens_near_the_first_change() {
    let mut app = worktree_app();
    app.select_file(1);

    press(&mut app, 'e');
    let effects = app.take_effects();
    assert!(matches!(
        &effects[0],
        AppEffect::OpenEditor(request) if request.path == "z.txt" && request.line == Some(4)
    ));
    app.handle_runtime_event(RuntimeEvent::EditorFinished(EditorOutcome::Failed(
        "no editor".to_string(),
    )));
    assert_eq!(app.live_error.as_deref(), Some("edit failed: no editor"));
    app.handle_runtime_event(RuntimeEvent::EditorFinished(EditorOutcome::Completed));
    assert!(matches!(
        app.take_effects()[0],
        AppEffect::ReloadReviewSource { preserve_scroll: true }
    ));
}

#[test]
fn running_command_hears_only_what_cancels_it() {
    let mut app = worktree_app();
    app.set_custom_command_running(&command());

    assert!(press(&mut app, 'j'));
    app.handle_mouse(MouseEvent {
        kind: MouseEventKind::Down(MouseButton::Left),
        column: 1,
        row: 1,
    });
    assert!(app.take_effects().is_empty());
    assert!(app.handle_key(KeyEvent::new(KeyCode::Char('c'), KeyModifiers::control())));
    assert!(press_code(&mut app, KeyCode::Esc));
    let effects = app.take_effects();
    assert_eq!(effects.len(), 1);
    assert!(matches!(effects[0], AppEffect::CancelCustomCommand));

    let result = CustomCommandResult::not_started(&command(), None, "stopped".to_string());
    app.handle_runtime_event(RuntimeEvent::CustomCommandFinished(result));
    assert!(matches!(app.overlay, Some(Overlay::CommandOutput(_))));
    assert!(matches!(
        app.take_effects()[0],
        AppEffect::ReloadReviewSource { .. }
    ));
}

#[test]
fn clipboard_and_watch_results_are_shown() {
    let mut app = worktree_app();
    press(&mut app, 'y');
    let request = match app.take_effects().remove(0) {
        AppEffect::CopyToClipboard(request) => request,
        other => panic!("unexpected effect {other:?}"),
    };
    app.handle_runtime_event(RuntimeEvent::ClipboardWriteFinished(
        ClipboardWriteResult::completed(request),
    ));
    assert_eq!(app.live_notice.as_deref(), Some("copied selected file path"));
    press(&mut app, 'y');
    let request = match app.take_effects().remove(0) {
        AppEffect::CopyToClipboard(request) => request,
        other => panic!("unexpected effect {other:?}"),
    };
    app.handle_runtime_event(RuntimeEvent::ClipboardWriteFinished(
        ClipboardWriteResult::failed(request, "busy".to_string()),
    ));
    assert_eq!(app.live_error.as_deref(), Some("copy failed: busy"));
    app.handle_runtime_event(RuntimeEvent::LiveWatchFailed("lost".to_string()));
    assert_eq!(app.live_error.as_deref(), Some("live watch failed: lost"));
}

#[test]
fn scrolling_stops_at_the_last_page() {
    let mut app = worktree_app();
    app.viewport.begin_diff(Rect::default(), 3);
    press_code(&mut app, KeyCode::Right);

    press_code(&mut app, KeyCode::End);
    assert_eq!(app.diff_pane.scroll(), app.max_scroll());
    assert_eq!(app.diff_pane.selected_hunk_index(), Some(1));
    press_code(&mut app, KeyCode::PageDown);
    assert_eq!(app.diff_pane.scroll(), app.max_scroll());
    press(&mut app, 'g');
    assert_eq!(app.diff_pane.scroll(), 0);
    press(&mut app, 'n');
    press(&mut app, 'N');
    assert_eq!(app.diff_pane.selected_hunk_index(), Some(0));
}

#[test]
fn help_overlay_is_laid_out_over_the_screen() {
    let mut app = worktree_app();
    let theme = Theme::github_dark();
    assert!(app.help_overlay_frame(Rect::new(0, 0, 100, 30), theme).is_none());

    press(&mut app, '?');
    let frame = app.help_overlay_frame(Rect::new(0, 0, 100, 30), theme).unwrap();
    assert_eq!(frame.area, Rect::new(11, 3, 78, 24));
    assert!(frame.scrollbar.is_some());
    assert!(frame.title.text().starts_with("\u{2500} Keymap  ?/Esc/q closes "));
    assert!(frame.title.text().ends_with(" j/k scroll "));
    assert!(frame
        .lines
        .iter()
        .any(|line| line.text().contains("C  commit  git commit")));
    assert_eq!(frame.scroll, 0);
    press(&mut app, 'j');
    let frame = app.help_overlay_frame(Rect::new(0, 0, 100, 30), theme).unwrap();
    assert_eq!(frame.scroll, 1);
    press(&mut app, '?');
    assert!(!app.help_overlay_visible());
}

#[test]
fn footer_names_keys_and_not_commands() {
    let mut app = worktree_app();
    let theme = Theme::github_dark();
    let frame = app.keybind_bar_frame(Rect::new(0, 29, 200, 1), theme);

    assert_eq!(frame.lines.len(), 1);
    let text = frame.lines[0].text();
    assert!(text.contains("hide files"));
    assert!(text.contains("stage file"));
    assert!(!text.contains("commit"));
    assert!(!text.contains("discard"));
    let (tag, width) = frame.tag.unwrap();
    assert_eq!(tag.text(), " DIFF \u{e0b0}");
    assert_eq!(width, 7);
    assert_eq!(frame.area, Rect::new(0, 29, 200, 1));
}

#[test]
fn empty_diff_shows_what_to_do() {
    let mut app = App::with_config(
        LoadedReview {
            source: ReviewSource::worktree(),
            changeset: parse_unified_diff(""),
        },
        AppConfig::default(),
    );
    let theme = Theme::github_dark();
    let area = Rect::new(0, 0, 100, 10);

    assert!(!app.wants_sources());
    let pane = app.diff_pane_rows(area, 98, 8, theme, &Syntaxes::load());
    assert_eq!(
        pane.lines[0].text(),
        "No diff to review. Make a tracked change, then run chunk diff."
    );
    assert!(pane.scrollbar.is_none());
    let rows = app.sidebar_rows(area, 98, 8, theme);
    assert_eq!(rows[0].text(), "No tracked changes");
}

#[test]
fn sources_are_wanted_until_they_are_loaded() {
    let mut app = worktree_app();
    assert!(app.wants_sources());
    app.changeset.files[0].old_source = chunk::model::SourceSnapshot::Unavailable;
    app.changeset.files[0].new_source =
        chunk::model::SourceSnapshot::loaded("one\n".to_string());
    assert!(!app.wants_sources());
}

#[test]
fn rendered_rows_are_not_rendered_again() {
    let mut app = worktree_app();
    let theme = Theme::github_dark();
    let request = |rows: usize, width: usize| DiffRenderRequest {
        file_index: 0,
        file_id: "0",
        content_width: width,
        syntax_palette: theme.syntax,
        can_stage: true,
        requested_rows: rows,
    };
    app.changeset.files[0].id = "0".to_string();

    assert_eq!(
        app.diff_render.diff_lines_render_target(request(50, 80)),
        Some(50)
    );
    let _ = app.diff_pane_rows(Rect::new(0, 0, 82, 20), 80, 18, theme, &Syntaxes::load());
    assert_eq!(app.diff_render.diff_lines_render_target(request(50, 80)), None);
    assert_eq!(
        app.diff_render.diff_lines_render_target(request(50, 60)),
        Some(50)
    );
}

#[test]
fn confirming_and_submitting_close_other_overlays() {
    let mut app = worktree_app();
    press(&mut app, '?');
    app.execute_pending_discard();
    assert!(app.overlay.is_none());
    press(&mut app, '?');
    app.submit_ask_ai_prompt();
    assert!(app.overlay.is_none());
    assert!(app.take_effects().is_empty());

    press(&mut app, 'a');
    press(&mut app, ' ');
    app.submit_ask_ai_prompt();
    assert!(matches!(app.overlay, Some(Overlay::AskAiPrompt(_))));
}

#[test]
fn binary_files_want_no_sources() {
    let mut app = worktree_app();
    app.changeset.files[0].binary = true;
    assert!(!app.wants_sources());
    app.changeset.files[0].binary = false;
    app.changeset.files[0].hunks.clear();
    assert!(!app.wants_sources());
}
