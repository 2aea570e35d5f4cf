//! What the mouse, overlays and results do.

use vstd::prelude::*;
use vstd::string::*;

use crate::app::{AppView, FocusPane};
use crate::app::effects::{without, EffectKind, EffectView};
use crate::app::events::{EditorOutcome, RuntimeEvent};
use crate::app::overlay::{DiscardView, OverlayView};
use crate::app::review_session::SnapshotView;
use crate::app::worktree::{discardable_paths, folder_paths, paths_below};
use crate::ask_ai::{ContextView, ResultView};
use crate::custom_command::BindingView;
use crate::input::{KeyCode, KeyEvent, MouseEvent, MouseEventKind, Rect};
use crate::keybind::{BuiltinAction, KeybindMap};
use crate::laws::keys::acts;
use crate::model::{ChangesetView, FileStage, FileView};
use crate::review_source::{MutationView, ReviewSource};
use crate::rows::sidebar::{below_folder, TargetView};
use crate::scroll_text::{ScrollView, VerticalDirection};
use crate::selection::SelectionView;
use crate::text::trimmed;
use crate::theme::ThemeName;
use crate::viewport::{DiffScrollbarDrag, ScrollbarView};

verus! {

/// Scrolling down never goes up and scrolling up never down; both stay on the text, and one
/// undoes the other where neither reaches an end.
pub proof fn text_scrolls_in_its_direction(scroll: ScrollView, amount: int)
    requires
        0 <= amount,
        0 <= scroll.at <= scroll.rows - scroll.height,
        scroll.rows <= usize::MAX,
        0 <= scroll.height,
    ensures
        ({
            let down = scroll.moved(VerticalDirection::Down, amount);
            let up = scroll.moved(VerticalDirection::Up, amount);
            let last = scroll.rows - scroll.height;
            &&& down.at == if scroll.at + amount <= last { scroll.at + amount } else { last }
            &&& up.at == if scroll.at >= amount { scroll.at - amount } else { 0 }
            &&& scroll.to_top().at == 0
            &&& scroll.to_bottom().at == last
            &&& scroll.at + amount <= last ==> down.moved(VerticalDirection::Up, amount) == scroll
            &&& down.rows == scroll.rows && down.height == scroll.height
        }),
{
}

/// In shown output Down and PageDown scroll down, Up and PageUp scroll up, by a row and by
/// the rows in view; Home and End go to the ends; Esc closes it.
pub proof fn output_is_scrolled_by_keys(app: AppView, key: KeyEvent, scroll: ScrollView)
    requires
        app.overlay is Some,
        app.overlay->0 is CommandOutput || app.overlay->0 is AskAiOutput,
        app.overlay->0.scroll() == Some(scroll),
        1 <= scroll.height,
        0 <= scroll.at <= scroll.rows - scroll.height,
        scroll.rows < usize::MAX,
        !key.modifiers.control,
    ensures
        ({
            let after = app.after_key(key);
            let at = after.overlay->0.scroll()->0.at;
            let last = scroll.rows - scroll.height;
            &&& key.code == KeyCode::Down ==> at == if scroll.at < last {
                scroll.at + 1
            } else {
                last
            }
            &&& key.code == KeyCode::Up ==> at == if scroll.at > 0 { scroll.at - 1 } else { 0 }
            &&& key.code == KeyCode::PageDown ==> at == if scroll.at + scroll.height <= last {
                scroll.at + scroll.height
            } else {
                last
            }
            &&& key.code == KeyCode::PageUp ==> at == if scroll.at >= scroll.height {
                scroll.at - scroll.height
            } else {
                0
            }
            &&& key.code == KeyCode::Home ==> at == 0
            &&& key.code == KeyCode::End ==> at == last
            &&& key.code == KeyCode::Esc ==> after.overlay is None
            &&& app.keybinds.action(key) == Some(BuiltinAction::Quit) ==> after.overlay is None
                && !app.ends(key)
            &&& app.keybinds.action(key) == Some(BuiltinAction::MoveDown) ==> at
                == if scroll.at < last { scroll.at + 1 } else { last }
            &&& app.keybinds.action(key) == Some(BuiltinAction::MoveUp) ==> at
                == if scroll.at > 0 { scroll.at - 1 } else { 0 }
            &&& app.keybinds.action(key) == Some(BuiltinAction::Top) ==> at == 0
            &&& app.keybinds.action(key) == Some(BuiltinAction::Bottom) ==> at == last
        }),
{
    reveal(AppView::asked);
    reveal(AppView::overlay_key);
}

/// Ctrl-d and Ctrl-u page through shown output.
pub proof fn output_is_paged_with_control(app: AppView, key: KeyEvent, scroll: ScrollView)
    requires
        app.overlay is Some,
        app.overlay->0 is CommandOutput || app.overlay->0 is AskAiOutput,
        app.overlay->0.scroll() == Some(scroll),
        1 <= scroll.height,
        0 <= scroll.at <= scroll.rows - scroll.height,
        scroll.rows < usize::MAX,
        key.modifiers.control,
    ensures
        ({
            let at = app.after_key(key).overlay->0.scroll()->0.at;
            let last = scroll.rows - scroll.height;
            &&& key.code == KeyCode::Char('d') ==> at == if scroll.at + scroll.height <= last {
                scroll.at + scroll.height
            } else {
                last
            }
            &&& key.code == KeyCode::Char('u') ==> at == if scroll.at >= scroll.height {
                scroll.at - scroll.height
            } else {
                0
            }
        }),
{
    reveal(AppView::asked);
    reveal(AppView::overlay_key);
}

/// While a discard is asked about, Enter and `y` confirm it, Esc and `n` drop it, and any
/// other key leaves it open.
pub proof fn discard_question_is_answered(app: AppView, key: KeyEvent, path: Seq<char>, index: int)
    requires
        app.source is Worktree,
        app.overlay == Some(
            OverlayView::Discard(DiscardView::File { file_index: index, path }),
        ),
        0 <= index < app.files().len(),
        app.files()[index].shown_path() == path,
        !key.modifiers.control,
        !key.modifiers.alt,
    ensures
        ({
            let after = app.after_key(key);
            let discard = EffectView::ApplyMutation(MutationView::DiscardFile { path });
            &&& key.code == KeyCode::Enter || key.code == KeyCode::Char('y') ==> after.effects
                == app.effects.push(discard) && after.overlay is None
            &&& key.code == KeyCode::Esc || key.code == KeyCode::Char('n') ==> after.effects
                == app.effects && after.overlay is None
            &&& key.code != KeyCode::Enter && key.code != KeyCode::Char('y') && key.code
                != KeyCode::Esc && key.code != KeyCode::Char('n') ==> after.effects == app.effects
                && after.overlay == app.overlay
        }),
{
    reveal(AppView::asked);
    reveal(AppView::overlay_key);
}

/// In the prompt for a question characters are added, Backspace takes one away, Esc gives
/// up, and Enter asks what was typed, without blanks around it.
pub proof fn question_is_typed_and_asked(
    app: AppView,
    key: KeyEvent,
    context: ContextView,
    input: Seq<char>,
)
    requires
        app.overlay == Some(OverlayView::AskAiPrompt { context, input }),
        !key.modifiers.control,
        !key.modifiers.alt,
    ensures
        ({
            let after = app.after_key(key);
            match key.code {
                KeyCode::Char(value) => after.overlay == Some(
                    OverlayView::AskAiPrompt { context, input: input.push(value) },
                ) && after.effects == app.effects,
                KeyCode::Backspace => after.effects == app.effects && (input.len() > 0
                    ==> after.overlay == Some(
                    OverlayView::AskAiPrompt { context, input: input.drop_last() },
                )),
                KeyCode::Esc => after.overlay is None && after.effects == app.effects,
                KeyCode::Enter => if trimmed(input).len() == 0 {
                    after.overlay == app.overlay && after.effects == app.effects
                } else {
                    after.overlay is None && after.effects.len() > 0 && after.effects.last()
                        is RunAskAi && after.effects.last()->RunAskAi_0.question == trimmed(input)
                        && after.effects.last()->RunAskAi_0.context == context
                },
                _ => true,
            }
        }),
{
    reveal(AppView::asked);
    reveal(AppView::overlay_key);
}

/// Esc and the quit key cancel what runs; the session goes on.
pub proof fn running_work_is_cancelled(app: AppView, key: KeyEvent)
    requires
        app.overlay is Some,
        key.code == KeyCode::Esc,
        match app.overlay->0 {
            OverlayView::CommandRunning { cancelling, .. } => !cancelling,
            OverlayView::AskAiRunning { cancelling, .. } => !cancelling,
            _ => false,
        },
    ensures
        ({
            let after = app.after_key(key);
            &&& after.effects.len() > 0
            &&& app.overlay->0 is CommandRunning ==> after.effects.last()
                == EffectView::CancelCustomCommand && after.overlay->0 is CommandRunning
                && after.overlay->0->CommandRunning_cancelling
            &&& app.overlay->0 is AskAiRunning ==> after.effects.last() == EffectView::CancelAskAi
                && after.overlay->0 is AskAiRunning && after.overlay->0->AskAiRunning_cancelling
            &&& !app.ends(key)
        }),
{
    reveal(AppView::asked);
    reveal(AppView::overlay_key);
}

/// Turning the wheel over the diff scrolls it by three rows in the direction of the turn.
pub proof fn wheel_scrolls_the_diff(app: AppView, mouse: MouseEvent)
    requires
        app.overlay is None,
        mouse.kind == MouseEventKind::ScrollDown || mouse.kind == MouseEventKind::ScrollUp,
        app.viewport.sidebar_area is Some ==> !app.viewport.sidebar_area->0.holds(
            mouse.column as int,
            mouse.row as int,
        ),
        0 <= app.pane.scroll <= app.max_scroll() <= usize::MAX - 3,
    ensures
        ({
            let after = app.after_mouse(mouse);
            &&& mouse.kind == MouseEventKind::ScrollDown ==> after.pane.scroll
                == if app.pane.scroll + 3 <= app.max_scroll() {
                app.pane.scroll + 3
            } else {
                app.max_scroll()
            }
            &&& mouse.kind == MouseEventKind::ScrollUp ==> after.pane.scroll
                == if app.pane.scroll >= 3 { app.pane.scroll - 3 } else { 0 }
            &&& after.focus == FocusPane::Diff
            &&& after.selected == app.selected
        }),
{
}

/// Moving the mouse over a pane focuses it.
pub proof fn hover_focuses_the_pane(app: AppView, mouse: MouseEvent)
    requires
        app.overlay is None,
        mouse.kind == MouseEventKind::Moved,
    ensures
        ({
            let (column, row) = (mouse.column as int, mouse.row as int);
            let on_files = app.viewport.sidebar_area is Some
                && app.viewport.sidebar_area->0.holds(column, row);
            let on_diff = app.viewport.diff_area is Some && app.viewport.diff_area->0.holds(
                column,
                row,
            );
            let after = app.after_mouse(mouse);
            &&& on_files ==> after.focus == FocusPane::Sidebar
            &&& !on_files && on_diff ==> after.focus == FocusPane::Diff
            &&& !on_files && !on_diff ==> after.focus == app.focus
            &&& after.selected == app.selected && after.effects == app.effects
        }),
{
}

/// A click on a hunk of the diff selects that hunk and focuses the diff.
pub proof fn click_selects_the_hunk(app: AppView, column: u16, row: u16, hunk: int)
    requires
        app.drag is None,
        !app.on_scrollbar(column as int, row as int),
        app.viewport.target_at(column as int, row as int) is None,
        app.viewport.diff_area is Some,
        app.viewport.diff_area->0.holds(column as int, row as int),
        app.hunk_under(column as int, row as int) == Some(hunk),
    ensures
        ({
            let after = app.left_down(column, row).left_up(column, row);
            after.pane.hunk == Some(hunk) && after.focus == FocusPane::Diff && after.selected
                == app.selected
        }),
{
    let pressed = app.left_down(column, row);
    match pressed.selection.drag {
        Some(drag) => {
            assert(drag.anchor == drag.cursor && !drag.moved);
            assert(!SelectionView::drag_to(drag, column, row).moved);
        },
        None => {},
    }
    assert(!pressed.drag_selects(column, row));
}

/// Results of commands and questions are shown, a finished command and a closed editor load
/// the diff again, and failures are said.
pub proof fn results_are_shown(app: AppView, event: RuntimeEvent)
    ensures
        ({
            let after = app.after_event(event);
            match event {
                RuntimeEvent::CustomCommandFinished(result) => after.overlay is Some
                    && after.overlay->0 is CommandOutput && after.overlay->0->CommandOutput_result
                    == result@ && after.effects.len() > 0 && after.effects.last()
                    is ReloadReviewSource && after.focus == FocusPane::Diff,
                RuntimeEvent::AskAiFinished(result) => after.overlay is Some && after.overlay->0
                    is AskAiOutput && after.overlay->0->AskAiOutput_result == result@
                    && after.effects == app.effects,
                RuntimeEvent::ClipboardWriteFinished(result) => if result.error is None {
                    after.live_notice == Some(result.request@.success_message)
                        && after.live_error is None
                } else {
                    after.live_error is Some && after.live_notice is None
                },
                RuntimeEvent::EditorFinished(EditorOutcome::Completed) => after.effects.len() > 0
                    && after.effects.last() is ReloadReviewSource && after.live_error is None,
                RuntimeEvent::EditorFinished(EditorOutcome::Failed(_)) => after.live_error is Some
                    && after.effects == app.effects,
                RuntimeEvent::LiveWatchFailed(_) => after.live_error is Some && after.effects
                    == app.effects,
                RuntimeEvent::ReloadReviewSource { preserve_scroll } => after.effects.len() > 0
                    && after.effects.last() == EffectView::ReloadReviewSource { preserve_scroll },
                RuntimeEvent::ReviewSourceReloaded { result, .. } => match result {
                    Ok(changeset) => after.changeset == changeset@ && after.live_error is None,
                    Err(_) => after.changeset == app.changeset && after.live_error is Some,
                },
                RuntimeEvent::MutationFinished { result, .. } => match result {
                    Ok(changeset) => after.changeset == changeset@ && after.live_error is None,
                    Err(_) => after.changeset == app.changeset && after.live_error is Some,
                },
            }
        }),
{
}

proof fn paths_are_below(
    files: Seq<FileView>,
    folder: Seq<char>,
    unstaged_only: bool,
    n: int,
    path: Seq<char>,
)
    requires
        0 <= n <= files.len(),
    ensures
        paths_below(files, folder, unstaged_only, n).contains(path) <==> exists|i: int|
            0 <= i < n && (#[trigger] files[i]).shown_path() == path && below_folder(path, folder)
                && (unstaged_only ==> files[i].stage != FileStage::Staged),
    decreases n,
{
    if n > 0 {
        paths_are_below(files, folder, unstaged_only, n - 1, path);
        let before = paths_below(files, folder, unstaged_only, n - 1);
        let all = paths_below(files, folder, unstaged_only, n);
        let file = files[n - 1];
        let taken = below_folder(file.shown_path(), folder) && (!unstaged_only || file.stage
            != FileStage::Staged);
        if taken {
            assert(all[before.len() as int] == file.shown_path());
        }
        if before.contains(path) {
            let i = choose|i: int| 0 <= i < before.len() && before[i] == path;
            assert(all[i] == path);
        }
        if all.contains(path) && !before.contains(path) {
            let i = choose|i: int| 0 <= i < all.len() && all[i] == path;
            if i < before.len() {
                assert(before[i] == path);
            }
            assert(file.shown_path() == path);
        }
        if exists|i: int|
            0 <= i < n && (#[trigger] files[i]).shown_path() == path && below_folder(path, folder)
                && (unstaged_only ==> files[i].stage != FileStage::Staged) {
            let i = choose|i: int|
                0 <= i < n && (#[trigger] files[i]).shown_path() == path && below_folder(
                    path,
                    folder,
                ) && (unstaged_only ==> files[i].stage != FileStage::Staged);
            if i == n - 1 {
                assert(all.contains(path));
            } else {
                assert(before.contains(path));
            }
        }
    }
}

/// Staging a folder is about all files below it and no others; it stages them unless all of
/// them are staged, and then takes them out again.
pub proof fn folder_staging_is_about_its_files(
    app: AppView,
    key: KeyEvent,
    folder: Seq<char>,
    path: Seq<char>,
)
    requires
        acts(app, key, BuiltinAction::ToggleStaging),
        app.source is Worktree,
        app.focus == FocusPane::Sidebar,
        app.files_visible,
        app.cursor == Some(TargetView::Folder(folder)),
        exists|i: int|
            0 <= i < app.files().len() && below_folder(
                (#[trigger] app.files()[i]).shown_path(),
                folder,
            ),
    ensures
        ({
            let files = app.files();
            let effects = app.after_key(key).effects;
            let asked = effects.last()->ApplyMutation_0;
            let below = exists|i: int|
                0 <= i < files.len() && (#[trigger] files[i]).shown_path() == path && below_folder(
                    path,
                    folder,
                );
            let all_staged = forall|i: int|
                0 <= i < files.len() && below_folder((#[trigger] files[i]).shown_path(), folder)
                    ==> files[i].stage == FileStage::Staged;
            &&& effects.len() == app.effects.len() + 1
            &&& effects.last() is ApplyMutation
            &&& all_staged <==> asked is UnstageFiles
            &&& !all_staged <==> asked is StageFiles
            &&& asked is UnstageFiles ==> (asked->UnstageFiles_paths.contains(path) <==> below)
            &&& asked is StageFiles ==> (asked->StageFiles_paths.contains(path) <==> below)
        }),
{
    reveal(AppView::asked);
    reveal(AppView::plain_key);
    reveal(AppView::view_key);
    reveal(AppView::acted);
    let files = app.files();
    let n = files.len() as int;
    paths_are_below(files, folder, false, n, path);
    let i = choose|i: int|
        0 <= i < files.len() && below_folder((#[trigger] files[i]).shown_path(), folder);
    paths_are_below(files, folder, false, n, files[i].shown_path());
    assert(folder_paths(files, folder).contains(files[i].shown_path()));
    assert(folder_paths(files, folder).len() > 0);
}

/// Discarding a folder asks about the files below it that have changes which are not
/// staged, and about no others.
pub proof fn folder_discard_spares_staged_files(
    files: Seq<FileView>,
    folder: Seq<char>,
    path: Seq<char>,
)
    ensures
        discardable_paths(files, folder).contains(path) <==> exists|i: int|
            0 <= i < files.len() && (#[trigger] files[i]).shown_path() == path && below_folder(
                path,
                folder,
            ) && files[i].stage != FileStage::Staged,
{
    paths_are_below(files, folder, true, files.len() as int, path);
}

/// A path lies below a folder exactly if it is the folder, a slash and more.
pub proof fn below_a_folder(folder: Seq<char>, rest: Seq<char>, path: Seq<char>)
    ensures
        below_folder(folder + seq!['/'] + rest, folder),
        !below_folder(folder, folder),
        below_folder(path, folder) ==> path.len() > folder.len() && path.take(
            folder.len() as int,
        ) == folder && path[folder.len() as int] == '/',
{
    let whole = folder + seq!['/'] + rest;
    assert(whole.subrange(0, folder.len() as int) =~= folder);
    assert(crate::text::after(whole, folder.len() as int)[0] == '/');
    assert(folder.subrange(0, folder.len() as int) =~= folder);
    if below_folder(path, folder) {
        assert(path.take(folder.len() as int) =~= path.subrange(0, folder.len() as int));
        assert(crate::text::after(path, folder.len() as int)[0] == path[folder.len() as int]);
    }
}

/// A session starts on the first file, at its top, with the files panel shown and focused;
/// nothing is reviewed, collapsed, asked for or said.
pub proof fn session_starts_on_the_first_file(
    source: ReviewSource,
    changeset: ChangesetView,
    theme: ThemeName,
    commands: Seq<BindingView>,
    keybinds: KeybindMap,
)
    ensures
        ({
            let app = AppView::start(source, changeset, theme, commands, keybinds);
            &&& app.selected == 0 && app.pane.scroll == 0
            &&& app.focus == FocusPane::Sidebar && app.files_visible
            &&& app.overlay is None && app.effects.len() == 0
            &&& app.live_error is None && app.live_notice is None
            &&& forall|path: Seq<char>|
                !(#[trigger] app.reviewed.contains(path)) && !app.collapsed.contains(path)
            &&& changeset.files.len() > 0 && changeset.files[0].hunks.len() > 0 ==> app.pane.hunk
                == Some(0int)
            &&& app.source == source && app.changeset == changeset && app.theme == theme
                && app.commands == commands && app.keybinds == keybinds
        }),
{
}

/// A press on the scroll bar takes hold of its thumb, dragging it scrolls the diff to where
/// it is dragged, and the release lets go; no text is selected on the way.
pub proof fn scroll_bar_is_dragged(
    app: AppView,
    column: u16,
    row: u16,
    further: u16,
    there: u16,
    bar: ScrollbarView,
)
    requires
        app.viewport.diff_scrollbar == Some(bar),
        bar.area.holds(column as int, row as int),
    ensures
        ({
            let pressed = app.left_down(column, row);
            let grip = bar.grip(row as int) as usize;
            let dragged = pressed.left_drag(further, there);
            &&& pressed.drag == Some(DiffScrollbarDrag { thumb_offset: grip })
            &&& pressed.focus == FocusPane::Diff && pressed.selection.selected is None
            &&& pressed.pane.scroll == bar.dragged_scroll(row as int, bar.grip(row as int))
            &&& dragged.pane.scroll == bar.dragged_scroll(there as int, grip as int)
            &&& dragged.selection == pressed.selection
            &&& dragged.left_up(further, there).drag is None
            &&& dragged.left_up(further, there).pane == dragged.pane
        }),
{
}

/// Selected text is copied once its selection is finished, unless something else is to be
/// copied already.
pub proof fn selected_text_is_copied(app: AppView, text: Seq<char>)
    requires
        app.selection.clipboard_request == Some(text),
    ensures
        (forall|i: int|
            0 <= i < app.effects.len() ==> !((#[trigger] app.effects[i]) is CopyToClipboard))
            ==> (app.due_effects().last() matches EffectView::CopyToClipboard(request)
            && request.text == text),
        (exists|i: int|
            0 <= i < app.effects.len() && (#[trigger] app.effects[i]) is CopyToClipboard)
            ==> app.due_effects() == app.effects,
{
}

/// Without a selection nothing is copied but what was asked for.
pub proof fn nothing_else_is_copied(app: AppView)
    requires
        app.selection.clipboard_request is None,
    ensures
        app.due_effects() == app.effects,
{
}

/// Rows above the diff belong to no hunk; below them the rows count from the one that is
/// scrolled to.
pub proof fn rows_of_the_diff_are_counted_below_the_status(
    app: AppView,
    area: Rect,
    column: int,
    row: int,
)
    requires
        app.viewport.diff_area == Some(area),
        area.holds_inside(column, row),
        0 <= app.pane.scroll,
        app.pane.scroll + row <= usize::MAX,
    ensures
        row - area.y - 1 < app.viewport.diff_status_rows ==> app.hunk_under(column, row) is None,
        0 <= app.viewport.diff_status_rows <= row - area.y - 1 ==> app.hunk_under(column, row)
            == app.context().hunk_at(
            app.pane.scroll + row - area.y - 1 - app.viewport.diff_status_rows,
        ),
{
}

/// A reload that fails leaves the diff as it is and says why.
pub proof fn failed_reload_keeps_the_diff(
    app: AppView,
    message: Seq<char>,
    preserve_scroll: bool,
    context: Seq<char>,
)
    ensures
        ({
            let after = app.load_finished(Err(message), preserve_scroll, context);
            &&& after.changeset == app.changeset && after.selected == app.selected && after.pane
                == app.pane
            &&& after.live_error == Some(context + ": "@ + message)
            &&& after.overlay == app.overlay
        }),
{
}

/// The answer of the assistant is copied as it was given; without one nothing is copied.
pub proof fn answer_is_copied_as_given(app: AppView, result: ResultView, scroll: ScrollView)
    requires
        app.overlay == Some(OverlayView::AskAiOutput { result, scroll }),
    ensures
        trimmed(result.outcome.stdout).len() > 0 ==> (app.answer_copied().effects.last()
            matches EffectView::CopyToClipboard(request) && request.text == result.outcome.stdout),
        trimmed(result.outcome.stdout).len() == 0 ==> app.answer_copied().live_error is Some
            && app.answer_copied().effects == without(app.effects, EffectKind::CopyToClipboard),
{
}

/// A reload keeps the mark on a folder that is still there, and else marks the selected
/// file.
pub proof fn reload_keeps_the_marked_folder(
    snapshot: SnapshotView,
    files: Seq<FileView>,
    preserve_scroll: bool,
    folder: Seq<char>,
    i: int,
)
    requires
        snapshot.target == Some(TargetView::Folder(folder)),
    ensures
        0 <= i < files.len() && below_folder(files[i].shown_path(), folder) ==> snapshot.planned(
            files,
            preserve_scroll,
        ).target == Some(TargetView::Folder(folder)),
        (forall|k: int|
            0 <= k < files.len() ==> !below_folder((#[trigger] files[k]).shown_path(), folder))
            ==> snapshot.planned(files, preserve_scroll).target is None,
{
}

/// The help pages by eight rows, goes to its ends with Home and End, and is closed by Esc and
/// by the keys for help and for quitting; closing it does not end the session.
pub proof fn help_is_scrolled_and_closed_by_keys(app: AppView, key: KeyEvent, scroll: ScrollView)
    requires
        app.overlay == Some(OverlayView::Help { scroll }),
        1 <= scroll.height,
        0 <= scroll.at <= scroll.rows - scroll.height,
        scroll.rows < usize::MAX - 8,
        !key.modifiers.control,
    ensures
        ({
            let after = app.after_key(key);
            let at = after.overlay->0.scroll()->0.at;
            let last = scroll.rows - scroll.height;
            &&& key.code == KeyCode::PageDown ==> at == if scroll.at + 8 <= last {
                scroll.at + 8
            } else {
                last
            }
            &&& key.code == KeyCode::PageUp ==> at == if scroll.at >= 8 { scroll.at - 8 } else { 0 }
            &&& key.code == KeyCode::Home ==> at == 0
            &&& key.code == KeyCode::End ==> at == last
            &&& key.code == KeyCode::Esc || app.keybinds.action(key) == Some(BuiltinAction::Help)
                || app.keybinds.action(key) == Some(BuiltinAction::Quit) ==> after.overlay is None
                && !app.ends(key)
            &&& after.selected == app.selected && after.pane == app.pane && after.effects
                == app.effects
        }),
{
    reveal(AppView::asked);
    reveal(AppView::overlay_key);
}

/// A running command keeps all keys to itself but those that cancel it.
pub proof fn running_command_takes_no_other_keys(app: AppView, key: KeyEvent)
    requires
        app.overlay is Some,
        app.overlay->0 is CommandRunning,
        key.code != KeyCode::Esc,
        app.keybinds.action(key) != Some(BuiltinAction::Quit),
        !(key.code == KeyCode::Char('c') && key.modifiers.control),
    ensures
        app.after_key(key) == app,
        !app.ends(key),
{
    reveal(AppView::asked);
    reveal(AppView::overlay_key);
}

} // verus!
