//! What keys do in the diff view.

use vstd::prelude::*;
use vstd::string::*;

use crate::app::{AppView, FocusPane};
use crate::app::effects::EffectView;
use crate::app::key_input::interrupts;
use crate::app::navigation::position_of;
use crate::app::overlay::{DiscardView, OverlayView};
use crate::app::requests::command_pressed;
use crate::custom_command::BindingView;
use crate::input::{KeyCode, KeyEvent};
use crate::keybind::BuiltinAction;
use crate::model::FileStatus;
use crate::patch::{hunk_patch, patch_header, whole_patch};
use crate::review_source::MutationView;
use crate::rows::sidebar::TargetView;
use crate::scroll_text::ScrollView;
use crate::text::pieces;

verus! {

/// Whether a key reaches the diff view and is not taken by a custom command.
pub open spec fn reaches_view(app: AppView, key: KeyEvent) -> bool {
    &&& app.overlay is None
    &&& !app.pane.search.prompt_open
    &&& !(key.code == KeyCode::Char('c') && key.modifiers.control)
    &&& app.command_for(key) is None
}

/// Whether a key is no character, or one with Ctrl held down.
pub open spec fn fixed_key(key: KeyEvent) -> bool {
    match key.code {
        KeyCode::Char(_) => key.modifiers.control,
        _ => true,
    }
}


/// PageUp and Ctrl-u scroll up by the rows in view, as far as the first row, and never down.
pub proof fn page_up_scrolls_up(app: AppView, key: KeyEvent)
    requires
        reaches_view(app, key),
        key.code == KeyCode::PageUp || (key.code == KeyCode::Char('u') && key.modifiers.control),
        0 <= app.pane.scroll <= usize::MAX,
        0 <= app.viewport.diff_view_height,
    ensures
        ({
            let after = app.after_key(key);
            let up = app.pane.scroll - app.viewport.diff_view_height;
            let limit = if up > 0 { up } else { 0 };
            &&& after.pane.scroll == if limit <= app.max_scroll() {
                limit
            } else {
                app.max_scroll()
            }
            &&& after.pane.scroll <= app.pane.scroll
            &&& after.selected == app.selected
            &&& after.effects == app.effects
        }),
{
    reveal(AppView::asked);
    reveal(AppView::plain_key);
    reveal(AppView::view_key);
}

/// PageDown and Ctrl-d scroll down by the rows in view, as far as the last page.
pub proof fn page_down_scrolls_down(app: AppView, key: KeyEvent)
    requires
        reaches_view(app, key),
        key.code == KeyCode::PageDown || (key.code == KeyCode::Char('d') && key.modifiers.control),
        0 <= app.pane.scroll <= usize::MAX,
        0 <= app.viewport.diff_view_height,
        app.max_scroll() <= usize::MAX,
    ensures
        ({
            let after = app.after_key(key);
            let down = app.pane.scroll + app.viewport.diff_view_height;
            &&& after.pane.scroll == if down <= app.max_scroll() { down } else { app.max_scroll() }
            &&& app.pane.scroll <= app.max_scroll() ==> after.pane.scroll >= app.pane.scroll
            &&& after.selected == app.selected
            &&& after.effects == app.effects
        }),
{
    reveal(AppView::asked);
    reveal(AppView::plain_key);
    reveal(AppView::view_key);
}

/// Home and the key for the top show the first row, End and the key for the bottom the last
/// page.
pub proof fn ends_of_the_diff_are_reached(app: AppView, key: KeyEvent)
    requires
        reaches_view(app, key),
        0 <= app.max_scroll() <= usize::MAX,
    ensures
        key.code == KeyCode::Home || (app.keybinds.action(key) == Some(BuiltinAction::Top)
            && !fixed_key(key)) ==> app.after_key(key).pane.scroll == 0,
        key.code == KeyCode::End || (app.keybinds.action(key) == Some(BuiltinAction::Bottom)
            && !fixed_key(key)) ==> app.after_key(key).pane.scroll == app.max_scroll(),
{
    reveal(AppView::asked);
    reveal(AppView::plain_key);
    reveal(AppView::view_key);
    reveal(AppView::acted);
}

/// The keys for down and up scroll the focused diff by one row.
pub proof fn move_keys_scroll_the_focused_diff(app: AppView, key: KeyEvent)
    requires
        reaches_view(app, key),
        !fixed_key(key),
        app.focus == FocusPane::Diff,
        0 <= app.pane.scroll <= app.max_scroll() < usize::MAX,
    ensures
        app.keybinds.action(key) == Some(BuiltinAction::MoveDown) ==> app.after_key(
            key,
        ).pane.scroll == if app.pane.scroll < app.max_scroll() {
            app.pane.scroll + 1
        } else {
            app.pane.scroll
        },
        app.keybinds.action(key) == Some(BuiltinAction::MoveUp) ==> app.after_key(key).pane.scroll
            == if app.pane.scroll > 0 { app.pane.scroll - 1 } else { 0 },
{
    reveal(AppView::asked);
    reveal(AppView::plain_key);
    reveal(AppView::view_key);
    reveal(AppView::acted);
}

/// Whether a key is one of an action, and not one with a fixed meaning.
pub open spec fn acts(app: AppView, key: KeyEvent, action: BuiltinAction) -> bool {
    reaches_view(app, key) && !fixed_key(key) && app.keybinds.action(key) == Some(action)
}

/// Whether two sessions show the same and ask for the same, but for what is selected on the
/// screen and for scroll offsets.
pub open spec fn same_but_scroll(a: AppView, b: AppView) -> bool {
    &&& a.source == b.source
    &&& a.changeset == b.changeset
    &&& a.live_notice == b.live_notice
    &&& a.live_error == b.live_error
    &&& a.selected == b.selected
    &&& a.focus == b.focus
    &&& a.files_visible == b.files_visible
    &&& a.overlay == b.overlay
    &&& a.effects == b.effects
    &&& a.collapsed == b.collapsed
    &&& a.cursor == b.cursor
    &&& a.reviewed == b.reviewed
    &&& a.keybinds == b.keybinds
    &&& a.commands == b.commands
    &&& a.theme == b.theme
}

/// Tab goes to the other pane, and to the diff while the files are hidden. Left goes to the
/// files, where they are shown; Right and Enter go to the diff.
pub proof fn focus_keys_move_the_focus(app: AppView, key: KeyEvent)
    requires
        reaches_view(app, key),
    ensures
        key.code == KeyCode::Tab && app.files_visible ==> app.after_key(key).focus != app.focus,
        key.code == KeyCode::Tab && !app.files_visible ==> app.after_key(key).focus
            == FocusPane::Diff,
        key.code == KeyCode::Left && app.files_visible ==> app.after_key(key).focus
            == FocusPane::Sidebar,
        key.code == KeyCode::Left && !app.files_visible ==> app.after_key(key).focus == app.focus,
        key.code == KeyCode::Right ==> app.after_key(key).focus == FocusPane::Diff,
        key.code == KeyCode::Enter ==> app.after_key(key).focus == FocusPane::Diff,
        key.code == KeyCode::Tab || key.code == KeyCode::Left || key.code == KeyCode::Right
            || key.code == KeyCode::Enter ==> same_but_scroll(
            AppView { focus: app.focus, ..app.after_key(key) },
            app,
        ),
{
    reveal(AppView::asked);
    reveal(AppView::plain_key);
    reveal(AppView::view_key);
}

/// Esc ends a search: no query and no matches are left.
pub proof fn escape_ends_a_search(app: AppView, key: KeyEvent)
    requires
        reaches_view(app, key),
        key.code == KeyCode::Esc,
    ensures
        ({
            let after = app.after_key(key);
            &&& after.pane.search.query.len() == 0
            &&& after.pane.search.input.len() == 0
            &&& after.pane.search.matches.len() == 0
            &&& after.pane.search.active_index is None
            &&& !after.pane.search.prompt_open
            &&& same_but_scroll(after, app)
        }),
{
    reveal(AppView::asked);
    reveal(AppView::plain_key);
    reveal(AppView::view_key);
}

/// The help key opens the help at its start, the files key shows or hides the files, the
/// search key opens the prompt with the query so far, and the quit key ends the session.
pub proof fn view_action_keys(app: AppView, key: KeyEvent)
    requires
        reaches_view(app, key),
        !fixed_key(key),
    ensures
        acts(app, key, BuiltinAction::Help) ==> app.after_key(key).overlay == Some(
            OverlayView::Help { scroll: ScrollView { at: 0, rows: 0, height: 0 } },
        ),
        acts(app, key, BuiltinAction::ToggleFiles) ==> app.after_key(key).files_visible
            != app.files_visible && (app.after_key(key).focus == FocusPane::Sidebar
            <==> app.after_key(key).files_visible),
        acts(app, key, BuiltinAction::Search) ==> {
            let search = app.after_key(key).pane.search;
            search.prompt_open && search.input == app.pane.search.query && search.query
                == app.pane.search.query && app.after_key(key).focus == FocusPane::Diff
        },
        app.ends(key) <==> app.keybinds.action(key) == Some(BuiltinAction::Quit),
        acts(app, key, BuiltinAction::Quit) ==> same_but_scroll(app.after_key(key), app),
{
    reveal(AppView::asked);
    reveal(AppView::plain_key);
    reveal(AppView::view_key);
    reveal(AppView::acted);
}

/// A key without a meaning changes nothing but the selected text and what was out of bounds.
pub proof fn other_keys_do_nothing(app: AppView, key: KeyEvent)
    requires
        reaches_view(app, key),
        app.keybinds.action(key) is None,
        match key.code {
            KeyCode::Char(value) => !key.modifiers.control || (value != 'd' && value != 'u'),
            KeyCode::Up | KeyCode::Down | KeyCode::Backspace | KeyCode::Other => true,
            _ => false,
        },
    ensures
        same_but_scroll(app.after_key(key), app),
        app.after_key(key).pane.search == app.pane.search,
        0 <= app.pane.scroll <= app.max_scroll() ==> app.after_key(key).pane.scroll
            == app.pane.scroll,
{
    reveal(AppView::asked);
    reveal(AppView::plain_key);
    reveal(AppView::view_key);
}

/// Without a search the keys for the next and the previous match select the next and the
/// previous hunk of the file, as far as there is one.
pub proof fn jump_keys_select_hunks(app: AppView, key: KeyEvent, hunk: int)
    requires
        reaches_view(app, key),
        !fixed_key(key),
        app.pane.search.query.len() == 0,
        app.file() is Some,
        app.pane.hunk == Some(hunk),
        0 <= hunk < app.file()->0.hunks.len() <= usize::MAX,
    ensures
        acts(app, key, BuiltinAction::NextMatch) ==> app.after_key(key).pane.hunk == Some(
            if hunk + 1 < app.file()->0.hunks.len() { hunk + 1 } else { hunk },
        ),
        acts(app, key, BuiltinAction::PrevMatch) ==> app.after_key(key).pane.hunk == Some(
            if hunk > 0 { hunk - 1 } else { 0 },
        ),
        acts(app, key, BuiltinAction::NextMatch) || acts(app, key, BuiltinAction::PrevMatch)
            ==> same_but_scroll(app.after_key(key), app),
{
    reveal(AppView::asked);
    reveal(AppView::plain_key);
    reveal(AppView::view_key);
    reveal(AppView::acted);
}

/// With matches the keys for the next and the previous match make the next and the previous
/// one active, around both ends.
pub proof fn jump_keys_visit_matches(app: AppView, key: KeyEvent, active: usize)
    requires
        reaches_view(app, key),
        !fixed_key(key),
        app.pane.search.query.len() > 0,
        app.pane.search.active_index == Some(active),
        active < app.pane.search.matches.len() <= usize::MAX,
    ensures
        acts(app, key, BuiltinAction::NextMatch) ==> app.after_key(key).pane.search.active_index
            == Some(
            (if active + 1 < app.pane.search.matches.len() { active + 1 } else { 0 }) as usize,
        ),
        acts(app, key, BuiltinAction::PrevMatch) ==> app.after_key(key).pane.search.active_index
            == Some(
            (if active > 0 { active - 1 } else { app.pane.search.matches.len() - 1 }) as usize,
        ),
{
    reveal(AppView::asked);
    reveal(AppView::plain_key);
    reveal(AppView::view_key);
    reveal(AppView::acted);
    let count = app.pane.search.matches.len() as int;
    assert((active + 1) % count == if active + 1 < count { active + 1 } else { 0 }) by (nonlinear_arith)
        requires
            0 <= active < count,
    ;
    assert((active - 1) % count == if active > 0 { active - 1 } else { count - 1 }) by (nonlinear_arith)
        requires
            0 <= active < count,
    ;
}

/// What the staging key asks for: with the files focused the selected file is staged or
/// unstaged, with the diff focused the selected hunk.
pub proof fn staging_key_asks_for_the_focused_change(app: AppView, key: KeyEvent, hunk: int)
    requires
        acts(app, key, BuiltinAction::ToggleStaging),
        app.source is Worktree,
        app.file() is Some,
        app.cursor is Some ==> app.cursor->0 is File,
        app.pane.hunk == Some(hunk),
        0 <= hunk < app.file()->0.hunks.len(),
    ensures
        app.focus == FocusPane::Sidebar && app.files_visible ==> app.after_key(key).effects
            == app.effects.push(
            EffectView::ApplyMutation(
                MutationView::ToggleFileStaging { path: app.file()->0.shown_path() },
            ),
        ),
        app.focus == FocusPane::Diff ==> app.after_key(key).effects == app.effects.push(
            EffectView::ApplyMutation(
                MutationView::ToggleHunkStaging { file: app.file()->0, hunk_index: hunk },
            ),
        ),
        app.focus == FocusPane::Sidebar && !app.files_visible ==> app.after_key(key).effects
            == app.effects,
{
    reveal(AppView::asked);
    reveal(AppView::plain_key);
    reveal(AppView::view_key);
    reveal(AppView::acted);
}

/// The discard key asks about the selected file or hunk before anything is discarded.
pub proof fn discard_key_asks_about_the_focused_change(app: AppView, key: KeyEvent, hunk: int)
    requires
        acts(app, key, BuiltinAction::Discard),
        app.source is Worktree,
        app.file() is Some,
        app.cursor is Some ==> app.cursor->0 is File,
        app.pane.hunk == Some(hunk),
        0 <= hunk < app.file()->0.hunks.len(),
    ensures
        app.focus == FocusPane::Sidebar && app.files_visible ==> app.after_key(key).overlay
            == Some(
            OverlayView::Discard(
                DiscardView::File {
                    file_index: app.selected,
                    path: app.file()->0.shown_path(),
                },
            ),
        ),
        app.focus == FocusPane::Diff ==> app.after_key(key).overlay == Some(
            OverlayView::Discard(
                DiscardView::Hunk {
                    file_index: app.selected,
                    hunk_index: hunk,
                    path: app.file()->0.shown_path(),
                },
            ),
        ),
        app.after_key(key).effects == app.effects,
{
    reveal(AppView::asked);
    reveal(AppView::plain_key);
    reveal(AppView::view_key);
    reveal(AppView::acted);
}

/// The reviewed key marks the selected file, and takes the mark away where it has one; no
/// other mark changes.
pub proof fn reviewed_key_marks_the_selected_file(app: AppView, key: KeyEvent, path: Seq<char>)
    requires
        acts(app, key, BuiltinAction::ToggleReviewed),
        app.file() is Some,
    ensures
        app.after_key(key).reviewed.contains(app.file()->0.shown_path())
            <==> !app.reviewed.contains(app.file()->0.shown_path()),
        path != app.file()->0.shown_path() ==> (app.after_key(key).reviewed.contains(path)
            <==> app.reviewed.contains(path)),
{
    reveal(AppView::asked);
    reveal(AppView::plain_key);
    reveal(AppView::view_key);
    reveal(AppView::acted);
}

/// The editor key asks to open the selected file of the worktree at its first change.
pub proof fn editor_key_opens_the_selected_file(app: AppView, key: KeyEvent)
    requires
        acts(app, key, BuiltinAction::Editor),
        app.source is Worktree,
        app.file() is Some,
        app.file()->0.status != FileStatus::Deleted,
        app.file()->0.path.len() > 0,
        app.file()->0.path[0] != '/',
        !pieces(app.file()->0.path, '/').contains(".."@),
    ensures
        app.after_key(key).effects.len() > 0,
        app.after_key(key).effects.last() == (EffectView::OpenEditor {
            path: app.file()->0.path,
            line: app.file()->0.first_change(),
        }),
        app.after_key(key).live_error is None,
{
    reveal(AppView::asked);
    reveal(AppView::plain_key);
    reveal(AppView::view_key);
    reveal(AppView::acted);
}

/// The copy keys copy the path of the focused file, the patch of the focused hunk, and the
/// patch of the selected file.
pub proof fn copy_keys_copy_what_is_selected(app: AppView, key: KeyEvent, hunk: int)
    requires
        app.overlay is None,
        !app.pane.search.prompt_open,
        !interrupts(key),
        app.file() is Some,
        app.pane.hunk == Some(hunk),
        0 <= hunk < app.file()->0.hunks.len(),
    ensures
        ({
            let after = app.after_key(key);
            let file = app.file()->0;
            let action = app.keybinds.action(key);
            let copied = after.effects.last()->CopyToClipboard_0;
            &&& action == Some(BuiltinAction::CopyFocused) && app.focus == FocusPane::Sidebar
                && app.files_visible ==> after.effects.len() > 0 && after.effects.last()
                is CopyToClipboard && copied.text == file.shown_path()
            &&& action == Some(BuiltinAction::CopyFocused) && app.focus == FocusPane::Diff
                ==> after.effects.len() > 0 && after.effects.last() is CopyToClipboard
                && copied.text == patch_header(file) + hunk_patch(file.hunks[hunk])
            &&& action == Some(BuiltinAction::CopyFileDiff) ==> after.effects.len() > 0
                && after.effects.last() is CopyToClipboard && copied.text == whole_patch(file)
        }),
{
    reveal(AppView::asked);
    reveal(AppView::plain_key);
}

proof fn pressed_command_is_one(commands: Seq<BindingView>, key: KeyEvent, from: int)
    requires
        0 <= from <= commands.len(),
    ensures
        match command_pressed(commands, key, from) {
            Some(command) => commands.contains(command) && key.code == KeyCode::Char(
                command.key.value,
            ) && !key.modifiers.control && !key.modifiers.alt,
            None => forall|i: int|
                from <= i < commands.len() ==> key.code != KeyCode::Char(
                    (#[trigger] commands[i]).key.value,
                ) || key.modifiers.control || key.modifiers.alt,
        },
    decreases commands.len() - from,
{
    if from < commands.len() {
        pressed_command_is_one(commands, key, from + 1);
        assert(commands.contains(commands[from]));
    }
}

/// A key of a custom command runs a configured command with that key.
pub proof fn command_keys_run_their_command(app: AppView, key: KeyEvent, i: int)
    requires
        app.overlay is None,
        !app.pane.search.prompt_open,
        0 <= i < app.commands.len(),
        key.code == KeyCode::Char(app.commands[i].key.value),
        !key.modifiers.control,
        !key.modifiers.alt,
        app.keybinds.action(key) is None,
    ensures
        ({
            let effects = app.after_key(key).effects;
            &&& effects.len() > 0
            &&& effects.last() is RunCustomCommand
            &&& app.commands.contains(effects.last()->RunCustomCommand_0)
            &&& effects.last()->RunCustomCommand_0.key == app.commands[i].key
            &&& !app.ends(key)
        }),
{
    reveal(AppView::asked);
    reveal(AppView::plain_key);
    pressed_command_is_one(app.commands, key, 0);
}

/// The Ask AI keys ask about the selected file: with the files focused about the file, else
/// about the selected hunk. The one for a question opens its prompt, the one for an
/// explanation asks at once.
pub proof fn question_keys_ask_about_what_is_focused(app: AppView, key: KeyEvent, hunk: usize)
    requires
        app.overlay is None,
        !app.pane.search.prompt_open,
        !interrupts(key),
        app.file() is Some,
        app.pane.hunk == Some(hunk as int),
        hunk < app.file()->0.hunks.len(),
    ensures
        ({
            let after = app.after_key(key);
            let file = app.file()->0;
            let action = app.keybinds.action(key);
            let on_files = app.focus == FocusPane::Sidebar && app.files_visible;
            let prompt = after.overlay->0->AskAiPrompt_context;
            let asked = after.effects.last()->RunAskAi_0;
            &&& action == Some(BuiltinAction::AskAi) ==> {
                &&& after.overlay is Some && after.overlay->0 is AskAiPrompt
                &&& after.overlay->0->AskAiPrompt_input.len() == 0
                &&& prompt.file_path == file.shown_path()
                &&& prompt.focused_hunk is None <==> on_files
                &&& !on_files ==> prompt.focused_hunk->0.index == hunk
                    && prompt.focused_hunk->0.header == file.hunks[hunk as int].header
                &&& after.effects == app.effects
            }
            &&& action == Some(BuiltinAction::ExplainCode) ==> {
                &&& after.effects.len() > 0 && after.effects.last() is RunAskAi
                &&& asked.context.file_path == file.shown_path()
                &&& asked.context.focused_hunk is None <==> on_files
                &&& after.overlay is None
            }
            &&& action == Some(BuiltinAction::UnpublishedSummary) ==> after.effects.len() > 0
                && after.effects.last() == EffectView::RunUnpublishedSummary
        }),
{
    reveal(AppView::asked);
}

/// While the search prompt is open characters are added to its text, Backspace takes the
/// last one away, Enter searches for it, and Esc gives the search up.
pub proof fn search_prompt_takes_keys(app: AppView, key: KeyEvent)
    requires
        app.overlay is None,
        app.pane.search.prompt_open,
        !interrupts(key),
    ensures
        ({
            let search = app.pane.search;
            let after = app.after_key(key).pane.search;
            &&& match key.code {
                KeyCode::Char(value) => if key.modifiers.control || key.modifiers.alt {
                    after == search
                } else {
                    after.input == search.input.push(value) && after.prompt_open && after.query
                        == search.query
                },
                KeyCode::Backspace => after.prompt_open && after.query == search.query && (
                search.input.len() > 0 ==> after.input == search.input.drop_last()),
                KeyCode::Enter => !after.prompt_open && after.query == search.input && (
                search.input.len() > 0 ==> after.scroll_pending),
                KeyCode::Esc => !after.prompt_open && after.query.len() == 0,
                _ => after == search,
            }
            &&& app.after_key(key).effects == app.effects
            &&& app.after_key(key).selected == app.selected
            &&& !app.ends(key)
        }),
{
    reveal(AppView::asked);
    reveal(AppView::search_key);
}

proof fn position_of_is_first(targets: Seq<TargetView>, target: TargetView, from: int)
    requires
        0 <= from <= targets.len(),
    ensures
        match position_of(targets, target, from) {
            Some(at) => from <= at < targets.len() && targets[at] == target,
            None => forall|i: int| from <= i < targets.len() ==> #[trigger] targets[i] != target,
        },
    decreases targets.len() - from,
{
    if from < targets.len() {
        position_of_is_first(targets, target, from + 1);
    }
}

/// The keys for down and up move the cursor of the focused files panel to the next and the
/// previous of its rows, and select the file there.
pub proof fn move_keys_go_through_the_files(app: AppView, key: KeyEvent, at: int)
    requires
        reaches_view(app, key),
        !fixed_key(key),
        app.focus == FocusPane::Sidebar,
        app.cursor_target() is Some,
        position_of(app.sidebar_targets(), app.cursor_target()->0, 0) == Some(at),
        app.sidebar_targets().len() <= usize::MAX,
        forall|i: int|
            0 <= i < app.sidebar_targets().len() ==> match #[trigger] app.sidebar_targets()[i] {
                TargetView::File(index) => 0 <= index < app.files().len(),
                TargetView::Folder(_) => true,
            },
    ensures
        ({
            let targets = app.sidebar_targets();
            let after = app.after_key(key);
            let down = if at + 1 < targets.len() { at + 1 } else { at };
            let up = if at > 0 { at - 1 } else { 0 };
            &&& acts(app, key, BuiltinAction::MoveDown) ==> after.cursor == Some(targets[down])
                && (targets[down] is File ==> after.selected == targets[down]->File_0)
            &&& acts(app, key, BuiltinAction::MoveUp) ==> after.cursor == Some(targets[up]) && (
            targets[up] is File ==> after.selected == targets[up]->File_0)
        }),
{
    reveal(AppView::asked);
    reveal(AppView::plain_key);
    reveal(AppView::view_key);
    reveal(AppView::acted);
    position_of_is_first(app.sidebar_targets(), app.cursor_target()->0, 0);
}

} // verus!
