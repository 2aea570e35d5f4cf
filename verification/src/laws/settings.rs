//! What the settings, the watched worktree and the geometry of the screen promise.

use vstd::prelude::*;
use vstd::string::*;

use crate::config::{
    command_error, config_error, config_place, first_command_error, first_keybind_error, key_of,
    keybind_error, theme_error, RawCommandView, RawConfigView, RawKeybindView,
};
use crate::input::{types_text, KeyCode, KeyEvent, Rect};
use crate::keybind::{clash_message, key_name, BuiltinAction, KeybindMap};
use crate::laws::texts::{holds, holds_in_sum, holds_itself};
use crate::review_source::WorktreeMutation;
use crate::runtime::{
    lies_below, names_below, relevant_path, ReloadTimer, TerminalAction, TerminalRestore,
    WorktreeEventKind,
};
use crate::style::Color;
use crate::text::{is_control_char, joined_path, trimmed};
use crate::theme::Theme;
use crate::ui::{
    border_color, divided, hints_area, overlay_height, overlay_thumb_len, overlay_thumb_start,
    overlay_width, pane_title_row, scrollbar_rows, BodyDirection,
};

verus! {

/// Every action has its default key and its name in the settings.
pub proof fn actions_have_their_keys_and_names(action: BuiltinAction)
    ensures
        match action {
            BuiltinAction::Quit => action.default_char() == 'q' && action.name() == "quit"@,
            BuiltinAction::Help => action.default_char() == '?' && action.name() == "help"@,
            BuiltinAction::ToggleFiles => action.default_char() == 'f' && action.name()
                == "toggle_files"@,
            BuiltinAction::Search => action.default_char() == '/' && action.name() == "search"@,
            BuiltinAction::MoveDown => action.default_char() == 'j' && action.name()
                == "move_down"@,
            BuiltinAction::MoveUp => action.default_char() == 'k' && action.name() == "move_up"@,
            BuiltinAction::NextMatch => action.default_char() == 'n' && action.name()
                == "next_match"@,
            BuiltinAction::PrevMatch => action.default_char() == 'N' && action.name()
                == "prev_match"@,
            BuiltinAction::Top => action.default_char() == 'g' && action.name() == "top"@,
            BuiltinAction::Bottom => action.default_char() == 'G' && action.name() == "bottom"@,
            BuiltinAction::ToggleStaging => action.default_char() == ' ' && action.name()
                == "toggle_staging"@,
            BuiltinAction::Discard => action.default_char() == 'd' && action.name()
                == "discard"@,
            BuiltinAction::Editor => action.default_char() == 'e' && action.name() == "editor"@,
            BuiltinAction::AskAi => action.default_char() == 'a' && action.name() == "ask_ai"@,
            BuiltinAction::ExplainCode => action.default_char() == 'x' && action.name()
                == "explain_code"@,
            BuiltinAction::UnpublishedSummary => action.default_char() == 'u' && action.name()
                == "unpublished_summary"@,
            BuiltinAction::CopyFocused => action.default_char() == 'y' && action.name()
                == "copy_focused"@,
            BuiltinAction::CopyFileDiff => action.default_char() == 'Y' && action.name()
                == "copy_file_diff"@,
            BuiltinAction::ToggleReviewed => action.default_char() == 'r' && action.name()
                == "toggle_reviewed"@,
        },
{
}

/// A key that the settings give an action is the key of that action; an action that they do
/// not name keeps its default key.
pub proof fn configured_keys_are_bound(keybinds: Seq<RawKeybindView>, action: BuiltinAction, i: int)
    ensures
        0 <= i < keybinds.len() && BuiltinAction::first_named(keybinds[i].action, 0) == Some(action)
            && (forall|j: int|
            i < j < keybinds.len() ==> BuiltinAction::first_named(
                (#[trigger] keybinds[j]).action,
                0,
            ) != Some(action)) ==> key_of(keybinds, action, keybinds.len() as int)
            == keybinds[i].key[0],
        (forall|j: int|
            0 <= j < keybinds.len() ==> BuiltinAction::first_named(
                (#[trigger] keybinds[j]).action,
                0,
            ) != Some(action)) ==> key_of(keybinds, action, keybinds.len() as int)
            == action.default_char(),
{
    if 0 <= i < keybinds.len() && BuiltinAction::first_named(keybinds[i].action, 0) == Some(action)
        && (forall|j: int|
        i < j < keybinds.len() ==> BuiltinAction::first_named((#[trigger] keybinds[j]).action, 0)
            != Some(action)) {
        last_key_counts(keybinds, action, i, keybinds.len() as int);
    }
    if forall|j: int|
        0 <= j < keybinds.len() ==> BuiltinAction::first_named((#[trigger] keybinds[j]).action, 0)
            != Some(action) {
        unnamed_keeps_default(keybinds, action, keybinds.len() as int);
    }
}

proof fn last_key_counts(keybinds: Seq<RawKeybindView>, action: BuiltinAction, i: int, n: int)
    requires
        0 <= i < n <= keybinds.len(),
        BuiltinAction::first_named(keybinds[i].action, 0) == Some(action),
        forall|j: int|
            i < j < n ==> BuiltinAction::first_named((#[trigger] keybinds[j]).action, 0) != Some(
                action,
            ),
    ensures
        key_of(keybinds, action, n) == keybinds[i].key[0],
    decreases n,
{
    if i < n - 1 {
        last_key_counts(keybinds, action, i, n - 1);
    }
}

proof fn unnamed_keeps_default(keybinds: Seq<RawKeybindView>, action: BuiltinAction, n: int)
    requires
        0 <= n <= keybinds.len(),
        forall|j: int|
            0 <= j < n ==> BuiltinAction::first_named((#[trigger] keybinds[j]).action, 0) != Some(
                action,
            ),
    ensures
        key_of(keybinds, action, n) == action.default_char(),
    decreases n,
{
    if n > 0 {
        unnamed_keeps_default(keybinds, action, n - 1);
    }
}

proof fn no_command_error(commands: Seq<RawCommandView>, keybinds: KeybindMap, from: int, i: int)
    requires
        0 <= from <= i < commands.len(),
        first_command_error(commands, keybinds, from) is None,
    ensures
        command_error(commands, keybinds, i) is None,
    decreases i - from,
{
    if from < i {
        no_command_error(commands, keybinds, from + 1, i);
    }
}

proof fn no_keybind_error(keybinds: Seq<RawKeybindView>, from: int, i: int)
    requires
        0 <= from <= i < keybinds.len(),
        first_keybind_error(keybinds, from) is None,
    ensures
        keybind_error(keybinds[i]) is None,
    decreases i - from,
{
    if from < i {
        no_keybind_error(keybinds, from + 1, i);
    }
}

/// In accepted settings the theme is one of the known ones, every command has a key of one
/// character, a label and something to run, and every key of an action is one character and
/// the action one that exists.
pub proof fn accepted_settings_are_complete(
    raw: RawConfigView,
    keybinds: KeybindMap,
    i: int,
    k: int,
)
    requires
        config_error(raw, keybinds) is None,
    ensures
        raw.theme is Some ==> raw.theme->0 == "gruvbox"@ || raw.theme->0 == "github-dark"@,
        0 <= i < raw.commands.len() ==> raw.commands[i].key.len() == 1 && !is_control_char(
            raw.commands[i].key[0],
        ) && trimmed(raw.commands[i].label).len() > 0 && trimmed(raw.commands[i].command).len()
            > 0,
        0 <= k < raw.keybinds.len() ==> raw.keybinds[k].key.len() == 1 && !is_control_char(
            raw.keybinds[k].key[0],
        ) && BuiltinAction::first_named(raw.keybinds[k].action, 0) is Some,
{
    if 0 <= i < raw.commands.len() {
        no_command_error(raw.commands, keybinds, 0, i);
    }
    if 0 <= k < raw.keybinds.len() {
        no_keybind_error(raw.keybinds, 0, k);
    }
}

/// A known theme, or none, is no error; any other is.
pub proof fn known_themes_are_accepted(theme: Option<Seq<char>>)
    ensures
        theme_error(theme) is None <==> (theme is None || theme->0 == "gruvbox"@ || theme->0
            == "github-dark"@),
{
}

/// A key without control and alt stands for the first action that it is bound to; any other
/// key stands for none.
pub proof fn keys_stand_for_bound_actions(map: KeybindMap, key: KeyEvent)
    ensures
        match map.action(key) {
            Some(action) => key.code is Char && types_text(key) && map.bound(action)
                == key.code->Char_0,
            None => !(key.code is Char) || !types_text(key) || !map.holds_char(key.code->Char_0),
        },
{
    if let KeyCode::Char(value) = key.code {
        bound_from(map, value, 0);
    }
}

proof fn bound_from(map: KeybindMap, value: char, from: int)
    requires
        0 <= from <= 19,
    ensures
        match map.first_bound(value, from) {
            Some(action) => map.bound(action) == value,
            None => forall|i: int| from <= i < 19 ==> (#[trigger] map.keys@[i]).value != value,
        },
        from == 0 && map.first_bound(value, from) is None ==> !map.holds_char(value),
    decreases 19 - from,
{
    if from < 19 {
        bound_from(map, value, from + 1);
        let action = BuiltinAction::nth(from);
        assert(action.index() == from);
    }
    if from == 0 && map.first_bound(value, from) is None && map.holds_char(value) {
        let action = choose|action: BuiltinAction| #[trigger] map.bound(action) == value;
        assert(0 <= action.index() < 19);
        assert(map.keys@[action.index()].value != value);
    }
}

/// Of what lies in the worktree everything is watched but the insides of `.git`, and of
/// those the index, the head and the references are watched.
pub proof fn worktree_and_its_state_are_watched(path: Seq<char>, root: Seq<char>)
    ensures
        !lies_below(path, root) ==> relevant_path(path, root),
        lies_below(path, root) ==> {
            let names = names_below(path, root);
            &&& names.len() == 0 ==> relevant_path(path, root)
            &&& names.len() > 0 && names[0] != ".git"@ ==> relevant_path(path, root)
            &&& names.len() == 1 && names[0] == ".git"@ ==> !relevant_path(path, root)
            &&& names.len() == 2 && names[0] == ".git"@ ==> (relevant_path(path, root) <==> (
            names[1] == "index"@ || names[1] == "HEAD"@ || names[1] == "packed-refs"@ || names[1]
                == "refs"@))
            &&& names.len() > 2 && names[0] == ".git"@ ==> (relevant_path(path, root) <==> names[1]
                == "refs"@)
        },
{
    let names = names_below(path, root);
    if names.len() >= 2 {
        assert(names.skip(1)[0] == names[1]);
        assert(names.skip(1).len() == names.len() - 1);
    }
}

/// Reading a file is no change of the worktree; creating, changing and removing one is.
pub proof fn changes_of_the_worktree(kind: WorktreeEventKind)
    ensures
        kind == WorktreeEventKind::Create || kind == WorktreeEventKind::Modify || kind
            == WorktreeEventKind::Remove ==> kind.changes(),
        kind == WorktreeEventKind::Access ==> !kind.changes(),
{
}

/// What was switched on in the terminal is switched off again, and nothing else; then the
/// cursor is shown.
pub proof fn terminal_is_put_back(restore: TerminalRestore)
    ensures
        restore.undoing().contains(TerminalAction::DisableRawMode) <==> restore.raw_mode_enabled,
        restore.undoing().contains(TerminalAction::LeaveAlternateScreen)
            <==> restore.alternate_screen_enabled,
        restore.undoing().contains(TerminalAction::DisableMouseCapture)
            <==> restore.mouse_capture_enabled,
        restore.is_set_up() ==> restore.undoing().last() == TerminalAction::ShowCursor,
        !restore.is_set_up() ==> restore.undoing().len() == 0,
{
    let raw = if restore.raw_mode_enabled {
        seq![TerminalAction::DisableRawMode]
    } else {
        seq![]
    };
    let screen = if restore.alternate_screen_enabled {
        seq![TerminalAction::LeaveAlternateScreen]
    } else {
        seq![]
    };
    let mouse = if restore.mouse_capture_enabled {
        seq![TerminalAction::DisableMouseCapture]
    } else {
        seq![]
    };
    let all = restore.undoing();
    if restore.raw_mode_enabled {
        assert(all[0] == TerminalAction::DisableRawMode);
    }
    if restore.alternate_screen_enabled {
        assert(all[raw.len() as int] == TerminalAction::LeaveAlternateScreen);
    }
    if restore.mouse_capture_enabled {
        assert(all[(raw + screen).len() as int] == TerminalAction::DisableMouseCapture);
    }
}

/// The help overlay fits into the screen, with a margin where the screen leaves room.
pub proof fn help_overlay_fits(area: Rect, content_height: int)
    requires
        0 <= content_height,
    ensures
        0 <= overlay_width(area) <= area.width,
        0 <= overlay_height(area, content_height) <= area.height,
        area.width > 4 ==> overlay_width(area) <= area.width - 4,
        area.width >= 82 ==> overlay_width(area) == 78,
        area.height > 2 ==> overlay_height(area, content_height) <= area.height - 2,
        area.height >= 26 && content_height + 2 <= 24 ==> overlay_height(area, content_height)
            == content_height + 2,
        area.height >= 26 && content_height + 2 > 24 ==> overlay_height(area, content_height) == 24,
{
}

/// The hints of the bottom line stay in it and leave the tag before them free.
pub proof fn hints_leave_the_tag_free(area: Rect, line_width: int, tag: u16)
    requires
        0 <= line_width,
        area.x + area.width <= u16::MAX,
    ensures
        ({
            let place = hints_area(area, line_width, Some(tag));
            &&& area.x <= place.x && place.x + place.width <= area.x + area.width
            &&& place.y == area.y && place.height == area.height
            &&& place.x == area.x || place.x >= area.x + tag + 1 || place.width == 0
            &&& place.x == area.x ==> area.width == 0 || (area.width - if line_width < area.width {
                line_width
            } else {
                area.width as int
            }) / 2 > tag
        }),
        hints_area(area, line_width, None) == area,
{
}

/// The thumb of the scroll bar marks as many rows as it is long, where it stands, and no
/// others.
pub proof fn scroll_bar_marks_its_thumb(
    height: nat,
    start: int,
    len: int,
    background: Color,
    theme: Theme,
    i: int,
)
    requires
        0 <= i < height,
    ensures
        ({
            let rows = scrollbar_rows(height, start, len, background, theme);
            &&& rows.len() == height
            &&& start <= i < start + len ==> rows[i].spans[0].content == "\u{2588}"@
                && rows[i].spans[0].style.fg == Some(theme.accent)
            &&& i < start || i >= start + len ==> rows[i].spans[0].content == "\u{2502}"@
                && rows[i].spans[0].style.fg == Some(theme.muted)
        }),
{
}

/// A focused pane has the active border and a title in the accent color; others have
/// neither.
pub proof fn focused_pane_stands_out(title: Seq<char>, focused: bool, theme: Theme)
    ensures
        border_color(focused, theme) == if focused { theme.border_active } else { theme.border },
        pane_title_row(title, focused, theme).spans[1].content == trimmed(title),
        focused ==> pane_title_row(title, focused, theme).spans[1].style.fg == Some(theme.accent),
        !focused ==> pane_title_row(title, focused, theme).spans[1].style.fg == Some(theme.muted),
{
}

proof fn scaled(part: int, whole: int, free: int)
    requires
        0 <= part <= whole,
        0 < whole,
        0 <= free,
    ensures
        0 <= (part * free + whole / 2) / whole <= free,
        part == 0 ==> (part * free + whole / 2) / whole == 0,
        part == whole ==> (part * free + whole / 2) / whole == free,
{
    let half = whole / 2;
    assert(0 <= half < whole);
    assert(part * free <= whole * free) by (nonlinear_arith)
        requires
            0 <= part <= whole,
            0 <= free,
    ;
    assert(0 <= part * free) by (nonlinear_arith)
        requires
            0 <= part,
            0 <= free,
    ;
    let value = part * free + half;
    let q = value / whole;
    vstd::arithmetic::div_mod::lemma_fundamental_div_mod(value, whole);
    assert(0 <= value % whole < whole);
    if q > free {
        assert(whole * q >= whole * (free + 1)) by (nonlinear_arith)
            requires
                q >= free + 1,
                whole > 0,
        ;
        assert(whole * (free + 1) == whole * free + whole) by (nonlinear_arith);
    }
    if q < 0 {
        assert(whole * q <= -whole) by (nonlinear_arith)
            requires
                q <= -1,
                whole > 0,
        ;
    }
    if part == whole && q < free {
        assert(whole * q <= whole * (free - 1)) by (nonlinear_arith)
            requires
                q <= free - 1,
                whole > 0,
        ;
        assert(whole * (free - 1) == whole * free - whole) by (nonlinear_arith);
    }
    if part == 0 {
        assert(part * free == 0) by (nonlinear_arith)
            requires
                part == 0,
        ;
        if q > 0 {
            assert(whole * q >= whole) by (nonlinear_arith)
                requires
                    q >= 1,
                    whole > 0,
            ;
        }
    }
}

/// The thumb of the help's scroll bar stays on its track, stands at the top while nothing is
/// scrolled, and at the bottom on the last page.
pub proof fn help_thumb_follows_the_scroll(track: int, total: int, visible: int, scroll: int)
    requires
        0 < track <= u16::MAX,
        0 <= visible < total <= u16::MAX,
        0 <= scroll,
    ensures
        ({
            let len = overlay_thumb_len(track, total, visible);
            let start = overlay_thumb_start(track, total, visible, scroll);
            &&& 1 <= len
            &&& 0 <= start && start + len <= if track > 1 { track } else { 1 }
            &&& scroll == 0 ==> start == 0
            &&& scroll >= total - visible ==> start + len == track
        }),
{
    let len = overlay_thumb_len(track, total, visible);
    let free = track - len;
    let range = total - visible;
    let at = if scroll < range { scroll } else { range };
    assert(0 <= len <= track);
    assert(at * free <= 0xffff * 0xffff) by (nonlinear_arith)
        requires
            0 <= at <= 0xffff,
            0 <= free <= 0xffff,
    ;
    assert(0 <= at * free) by (nonlinear_arith)
        requires
            0 <= at,
            0 <= free,
    ;
    scaled(at, range, free);
    let start = overlay_thumb_start(track, total, visible, scroll);
    assert(free > 0 ==> start == (at * free + range / 2) / range);
}

/// The settings are looked for in the directory for settings, and else below the home
/// directory; a blank directory counts as none.
pub proof fn settings_are_looked_for_in_order(
    config_home: Option<Seq<char>>,
    home: Option<Seq<char>>,
)
    ensures
        config_home is Some && config_home->0.len() > 0 ==> config_place(config_home, home) == Some(
            joined_path(config_home->0, "chunk/config.toml"@),
        ),
        (config_home is None || config_home->0.len() == 0) && home is Some && home->0.len() > 0
            ==> config_place(config_home, home) == Some(
            joined_path(home->0, ".config/chunk/config.toml"@),
        ),
        (config_home is None || config_home->0.len() == 0) && (home is None || home->0.len() == 0)
            ==> config_place(config_home, home) is None,
{
}

/// A reload comes a quarter of a second behind the last change, once, and events are waited
/// for a tenth of a second at most.
pub proof fn reload_waits_for_quiet(timer: ReloadTimer, change: u64, now: u64)
    requires
        change + 250 <= u64::MAX,
    ensures
        ({
            let changed = timer.changed(change);
            &&& changed.is_due(now) <==> now >= change + 250
            &&& !changed.looked_at(now).is_due(now)
            &&& now < change + 250 ==> changed.looked_at(now) == changed
            &&& 0 <= timer.wait(now) <= 100
            &&& change + 150 <= now < change + 250 ==> changed.wait(now) == change + 250 - now
        }),
        timer.deadline is None ==> !timer.is_due(now) && timer.wait(now) == 100,
{
}

/// A wide screen has the files at its left, a narrow one above the diff; the diff keeps most
/// of the screen.
pub proof fn files_stand_beside_or_above_the_diff(area: Rect)
    ensures
        area.width >= 100 ==> divided(area) == (BodyDirection::Horizontal, 34u16),
        area.width < 100 && area.height >= 9 ==> divided(area) == (BodyDirection::Vertical, 9u16),
        area.width < 100 && area.height < 9 ==> divided(area) == (
            BodyDirection::Vertical,
            area.height,
        ),
{
}

/// Staging whole files leads back to the top of the file; all other changes leave the view
/// in its place.
pub proof fn view_stays_but_for_staged_files(mutation: WorktreeMutation)
    ensures
        mutation.keeps_place() <==> !(mutation is ToggleFileStaging || mutation is StageFiles
            || mutation is UnstageFiles),
        mutation is DiscardFile || mutation is DiscardFiles || mutation is DiscardHunk
            ==> mutation.failure() == "discard failed"@,
        mutation is ToggleHunkStaging ==> mutation.failure() == "hunk staging failed"@,
        mutation is ToggleFileStaging || mutation is StageFiles || mutation is UnstageFiles
            ==> mutation.failure() == "staging failed"@,
{
}

/// A command is refused exactly where something of it is missing, or where its key is not
/// free; a key of an action is refused exactly where it is no single character, or where
/// there is no such action.
pub proof fn settings_are_refused_for_a_reason(
    commands: Seq<RawCommandView>,
    keybinds: KeybindMap,
    at: int,
    keybind: RawKeybindView,
)
    requires
        0 <= at < commands.len(),
    ensures
        command_error(commands, keybinds, at) is None <==> {
            let command = commands[at];
            &&& command.key.len() == 1 && !is_control_char(command.key[0])
            &&& !keybinds.holds_char(command.key[0])
            &&& forall|i: int| 0 <= i < at ==> (#[trigger] commands[i]).key != command.key
            &&& trimmed(command.label).len() > 0 && trimmed(command.command).len() > 0
        },
        keybind_error(keybind) is None <==> keybind.key.len() == 1 && !is_control_char(
            keybind.key[0],
        ) && BuiltinAction::first_named(keybind.action, 0) is Some,
{
}

/// A message about two actions that share a key names the key and both actions.
pub proof fn clash_is_named(map: KeybindMap, i: int, j: int)
    ensures
        holds(clash_message(map, i, j), key_name(map.keys@[i].value)),
        holds(clash_message(map, i, j), BuiltinAction::nth(i).name()),
        holds(clash_message(map, i, j), BuiltinAction::nth(j).name()),
{
    broadcast use holds_in_sum, holds_itself;
}

/// A name in the settings stands for the action that has it, and for no other.
pub proof fn names_stand_for_their_action(name: Seq<char>, from: int)
    requires
        0 <= from <= 19,
    ensures
        match BuiltinAction::first_named(name, from) {
            Some(action) => action.name() == name,
            None => forall|i: int| from <= i < 19 ==> #[trigger] BuiltinAction::nth(i).name()
                != name,
        },
    decreases 19 - from,
{
    if from < 19 {
        names_stand_for_their_action(name, from + 1);
    }
}

} // verus!
