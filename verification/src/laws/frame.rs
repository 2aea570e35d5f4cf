//! What a frame of the screen holds.

use vstd::prelude::*;
use vstd::string::*;

use crate::app::{AppView, FocusPane};
use crate::app::diff_frame::{DiffFrameRequest, FramePlan};
use crate::app::diff_pane::PaneView;
use crate::app::sidebar::text_area;
use crate::ask_ai::{
    diff_header_text, file_text, hunk_text, hunks_text, read_only_config, AskAiReviewMode,
    ContextView,
};
use crate::custom_command::BindingView;
use crate::diff_render::{last_offset_at, next_target, with_header, RenderView};
use crate::input::Rect;
use crate::keybind::{key_name, BuiltinAction, KeybindMap};
use crate::laws::texts::{holds, holds_in_sum, holds_itself};
use crate::line::RowView;
use crate::model::{FileView, HunkView};
use crate::rows::diff::{
    body_message, file_header_rows, file_numbers, hunk_header_rows, layout_numbers, layout_offsets,
};
use crate::rows::help::{
    action_help, all_columns, custom_help, widest_keys, worktree_help, HelpEntryView, SegmentView,
};
use crate::rows::status::{hint_pieces, output_hints, review_hints};
use crate::text::{decimal, stands_at};
use crate::theme::Theme;
use crate::ui::overlay_title;

verus! {

/// The hunk at a row is the last one whose header stands at that row or above it.
pub proof fn hunk_at_a_row_is_the_last_above(offsets: Seq<int>, row: int, n: int, k: int)
    requires
        0 <= k < n <= offsets.len(),
        offsets[k] <= row,
        forall|j: int| k < j < n ==> #[trigger] offsets[j] > row,
    ensures
        last_offset_at(offsets, row, n) == Some(k),
    decreases n,
{
    if k < n - 1 {
        assert(offsets[n - 1] > row);
        hunk_at_a_row_is_the_last_above(offsets, row, n - 1, k);
    }
}

/// Rows above the first hunk header belong to the first hunk.
pub proof fn rows_above_all_hunks_are_of_the_first(
    state: RenderView,
    index: int,
    file_id: Seq<char>,
    row: int,
    count: int,
)
    requires
        count > 0,
        state.lines_of(index, file_id) is Some,
        forall|j: int|
            0 <= j < state.lines_of(index, file_id)->0.hunk_offsets.len()
                ==> #[trigger] state.lines_of(index, file_id)->0.hunk_offsets[j] > row,
    ensures
        state.hunk_at(index, file_id, row, count) == Some(0int),
{
    let offsets = state.lines_of(index, file_id)->0.hunk_offsets;
    none_above(offsets, row, offsets.len() as int);
}

proof fn none_above(offsets: Seq<int>, row: int, n: int)
    requires
        0 <= n <= offsets.len(),
        forall|j: int| 0 <= j < offsets.len() ==> #[trigger] offsets[j] > row,
    ensures
        last_offset_at(offsets, row, n) is None,
    decreases n,
{
    if n > 0 {
        assert(offsets[n - 1] > row);
        none_above(offsets, row, n - 1);
    }
}

proof fn numbers_grow(file: FileView, width: int, theme: Theme, can_stage: bool, n: int, m: int)
    requires
        0 <= n <= m <= file.hunks.len(),
    ensures
        file_numbers(file, width, theme, can_stage, n).len() <= file_numbers(
            file,
            width,
            theme,
            can_stage,
            m,
        ).len(),
        forall|k: int|
            0 <= k < file_numbers(file, width, theme, can_stage, n).len()
                ==> #[trigger] file_numbers(file, width, theme, can_stage, m)[k] == file_numbers(
                file,
                width,
                theme,
                can_stage,
                n,
            )[k],
    decreases m,
{
    if n < m {
        numbers_grow(file, width, theme, can_stage, n, m - 1);
    }
}

/// The header of the first hunk stands right behind that of the file. From each hunk header
/// to the next there are the rows of the header and those of the lines of the hunk.
pub proof fn hunks_stand_one_behind_the_other(
    file: FileView,
    width: int,
    theme: Theme,
    can_stage: bool,
    i: int,
)
    requires
        body_message(file) is None,
        0 <= i < file.hunks.len(),
    ensures
        ({
            let offsets = layout_offsets(file, width, theme, can_stage);
            let numbers = layout_numbers(file, width, theme, can_stage);
            let header = hunk_header_rows(file.hunks[i], width, theme, can_stage, false).len();
            &&& offsets.len() == file.hunks.len()
            &&& offsets[0] == file_header_rows(file, width, can_stage, theme).len()
            &&& offsets[i] + header <= numbers.len()
            &&& forall|k: int|
                offsets[i] <= k < offsets[i] + header ==> (#[trigger] numbers[k]) is None
            &&& i + 1 < file.hunks.len() ==> offsets[i + 1] >= offsets[i] + header
        }),
{
    numbers_grow(file, width, theme, can_stage, i + 1, file.hunks.len() as int);
    let numbers = layout_numbers(file, width, theme, can_stage);
    let here = file_numbers(file, width, theme, can_stage, i + 1);
    let at = file_numbers(file, width, theme, can_stage, i).len() as int;
    let header = hunk_header_rows(file.hunks[i], width, theme, can_stage, false).len();
    assert forall|k: int| at <= k < at + header implies (#[trigger] numbers[k]) is None by {
        assert(numbers[k] == here[k]);
    }
}

/// The marked header of the selected hunk takes the place of the plain one; no other row
/// changes.
pub proof fn marked_header_takes_its_place(
    rows: Seq<RowView>,
    header: Seq<RowView>,
    offset: int,
    scroll: int,
    i: int,
)
    requires
        0 <= i < rows.len(),
    ensures
        with_header(rows, header, offset, scroll).len() == rows.len(),
        offset <= scroll + i < offset + header.len() ==> with_header(rows, header, offset, scroll)[i]
            == header[scroll + i - offset],
        scroll + i < offset || scroll + i >= offset + header.len() ==> with_header(
            rows,
            header,
            offset,
            scroll,
        )[i] == rows[i],
{
}

/// A frame holds no more rows than fit, and what stands above the diff comes first.
pub proof fn frame_fits(plan: FramePlan, request: DiffFrameRequest)
    ensures
        plan.rows(request).len() <= request.visible_height,
        plan.above.len() <= request.visible_height ==> plan.rows(request).len() >= plan.above.len()
            && plan.rows(request).take(plan.above.len() as int) == plan.above,
{
    let rows = plan.rows(request);
    if plan.above.len() <= request.visible_height {
        assert(rows.take(plan.above.len() as int) =~= plan.above);
    }
}

/// There is a scroll bar exactly where the file has more rows than fit and there is room for
/// it; it then tells how many there are and how far they are scrolled.
pub proof fn long_files_have_a_scroll_bar(
    app: AppView,
    request: DiffFrameRequest,
    height: int,
    total: int,
    above: int,
)
    requires
        app.file() is Some,
    ensures
        ({
            let bar = app.scrollbar_for(request, height, total, above);
            &&& bar is Some <==> request.content_width > 1 && height != 0 && total > height
            &&& bar is Some ==> bar->0.total_rows == total && bar->0.visible_rows == height
                && bar->0.scroll == app.pane.scroll && bar->0.file_index == app.selected
                && bar->0.area.width == 1
        }),
        app.width_by_layout(request, height) && app.layout_rows(
            request.content_width as int,
            request.theme,
        ) > height ==> app.diff_width(request, height) == request.content_width - 1,
        app.width_by_layout(request, height) && app.layout_rows(
            request.content_width as int,
            request.theme,
        ) <= height ==> app.diff_width(request, height) == request.content_width,
{
    reveal(AppView::scrollbar_for);
}

/// An action is listed in the help under the key that it is bound to.
pub proof fn help_lists_the_bound_keys(
    keybinds: KeybindMap,
    action: BuiltinAction,
    description: Seq<char>,
)
    ensures
        action_help(keybinds, action, description).keys[0] == SegmentView::Command(
            key_name(keybinds.bound(action)),
        ),
        action_help(keybinds, action, description).description[0] == SegmentView::Text(
            description,
        ),
{
}

/// Every command is listed in the help with its key, its label and what it runs.
pub proof fn help_lists_every_command(commands: Seq<BindingView>, i: int)
    requires
        0 <= i < commands.len(),
    ensures
        custom_help(commands).len() == commands.len(),
        custom_help(commands)[i].keys[0] == SegmentView::Command(key_name(commands[i].key.value)),
        custom_help(commands)[i].description[0] == SegmentView::Text(commands[i].label),
        custom_help(commands)[i].description[1] == SegmentView::Muted("  "@ + commands[i].command),
{
}

/// Staging is listed exactly where it can be done, and so is discarding.
pub proof fn help_lists_what_can_be_done(can_stage: bool, can_discard: bool, keybinds: KeybindMap)
    ensures
        ({
            let entries = worktree_help(can_stage, can_discard, keybinds);
            let staging = key_name(keybinds.bound(BuiltinAction::ToggleStaging));
            let discarding = key_name(keybinds.bound(BuiltinAction::Discard));
            let editing = key_name(keybinds.bound(BuiltinAction::Editor));
            &&& entries.len() == 1 + (if can_stage { 1int } else { 0 }) + (if can_discard {
                1int
            } else {
                0
            })
            &&& can_stage ==> entries[0].keys[0] == SegmentView::Command(staging)
            &&& can_discard ==> entries[entries.len() - 2].keys[0] == SegmentView::Command(
                discarding,
            )
            &&& entries.last().keys[0] == SegmentView::Command(editing)
        }),
{
}

/// The hints tell the keys of what can be done now: the files panel can be hidden where it is
/// shown and shown where it is hidden, and the focus moves only between panes that are shown.
pub proof fn hints_tell_what_can_be_done(
    visible: bool,
    stage: Option<Seq<char>>,
    keybinds: KeybindMap,
)
    ensures
        ({
            let hints = review_hints(visible, stage, keybinds);
            let n = hints.len() as int;
            &&& hints[0] == (
                key_name(keybinds.bound(BuiltinAction::ToggleFiles)),
                if visible { "hide files"@ } else { "show files"@ },
            )
            &&& visible ==> hints[1] == ("Tab"@, "focus"@)
            &&& stage is Some ==> hints.contains(
                (key_name(keybinds.bound(BuiltinAction::ToggleStaging)), stage->0),
            )
            &&& n == 5 + (if visible { 1int } else { 0 }) + (if stage is Some { 1int } else { 0 })
            &&& hints[n - 1] == (key_name(keybinds.bound(BuiltinAction::Quit)), "quit"@)
            &&& hints[n - 2] == (key_name(keybinds.bound(BuiltinAction::Help)), "help"@)
        }),
{
    let hints = review_hints(visible, stage, keybinds);
    if let Some(label) = stage {
        let at = if visible { 2int } else { 1 };
        assert(hints[at] == (key_name(keybinds.bound(BuiltinAction::ToggleStaging)), label));
    }
}

/// Staging is offered exactly in the review of a worktree, for a file where the files panel
/// is focused and for a hunk where the diff is.
pub proof fn staging_is_offered_for_the_focus(app: AppView)
    ensures
        app.source is PullRequest ==> app.stage_hint() is None,
        app.source is Worktree && app.focus == FocusPane::Diff ==> app.stage_hint()
            == Some("stage hunk"@),
        app.source is Worktree && app.focus == FocusPane::Sidebar && app.files_visible
            ==> app.stage_hint() == Some("stage file"@),
{
}

proof fn every_hunk_is_told(hunks: Seq<HunkView>, n: int, i: int)
    requires
        0 <= i < n <= hunks.len(),
    ensures
        holds(hunks_text(hunks, n), hunk_text(hunks[i])),
    decreases n,
{
    broadcast use holds_in_sum, holds_itself;

    if i < n - 1 {
        every_hunk_is_told(hunks, n - 1, i);
    }
}

/// The context of a question holds the diff that it is about: the focused hunk, or every
/// hunk of the file, as far as it is not too long.
pub proof fn context_holds_the_diff(
    mode: AskAiReviewMode,
    title: Seq<char>,
    label: Seq<char>,
    file: FileView,
    hunk: Option<usize>,
    selected: Option<Seq<char>>,
    i: int,
)
    ensures
        ({
            let context = ContextView::of_file(mode, title, label, file, hunk, selected);
            let focused = hunk is Some && hunk->0 < file.hunks.len();
            &&& focused && diff_header_text(file).len() + hunk_text(
                file.hunks[hunk->0 as int],
            ).len() <= 12_000 ==> holds(context.diff_text, hunk_text(file.hunks[hunk->0 as int]))
            &&& !focused && !file.binary && 0 <= i < file.hunks.len() && file_text(file).len()
                <= 12_000 ==> holds(context.diff_text, hunk_text(file.hunks[i]))
            &&& !focused && file.binary && file_text(file).len() <= 12_000 ==> holds(
                context.diff_text,
                "Binary file changed\n"@,
            )
        }),
{
    broadcast use holds_in_sum, holds_itself;

    let focused = hunk is Some && hunk->0 < file.hunks.len();
    if !focused && !file.binary && 0 <= i < file.hunks.len() {
        every_hunk_is_told(file.hunks, file.hunks.len() as int, i);
    }
}

/// The assistant may read and look things up, and may neither edit files nor run commands,
/// nor leave the repository.
pub proof fn assistant_only_reads()
    ensures
        holds(read_only_config(), "\"permission\":{\"*\":\"deny\""@),
        holds(read_only_config(), "\"edit\":\"deny\""@),
        holds(read_only_config(), "\"bash\":\"deny\""@),
        holds(read_only_config(), "\"external_directory\":\"deny\""@),
{
    let config = read_only_config();
    reveal_strlit("{\"$schema\":\"https://opencode.ai/config.json\",\"autoupdate\":false,\"share\":\"disabled\",\"permission\":{\"*\":\"deny\",\"read\":{\"*\":\"allow\",\"*.env\":\"deny\",\"*.env.*\":\"deny\",\"*.env.example\":\"allow\"},\"glob\":\"allow\",\"grep\":\"allow\",\"lsp\":\"allow\",\"edit\":\"deny\",\"bash\":\"deny\",\"task\":\"deny\",\"skill\":\"deny\",\"webfetch\":\"allow\",\"websearch\":\"allow\",\"external_directory\":\"deny\"}}");
    reveal_strlit("\"permission\":{\"*\":\"deny\"");
    reveal_strlit("\"edit\":\"deny\"");
    reveal_strlit("\"bash\":\"deny\"");
    reveal_strlit("\"external_directory\":\"deny\"");
    assert(config.subrange(83, 107) =~= "\"permission\":{\"*\":\"deny\""@);
    assert(stands_at(config, 83, "\"permission\":{\"*\":\"deny\""@));
    assert(config.subrange(229, 242) =~= "\"edit\":\"deny\""@);
    assert(stands_at(config, 229, "\"edit\":\"deny\""@));
    assert(config.subrange(243, 256) =~= "\"bash\":\"deny\""@);
    assert(stands_at(config, 243, "\"bash\":\"deny\""@));
    assert(config.subrange(325, 352) =~= "\"external_directory\":\"deny\""@);
    assert(stands_at(config, 325, "\"external_directory\":\"deny\""@));
}

/// The summary of a question names the file, and the hunk by its number, counted from one.
pub proof fn summary_names_the_focus(context: ContextView)
    ensures
        context.focused_hunk is None ==> context.short() == context.file_path,
        context.focused_hunk is Some && 0 <= context.focused_hunk->0.index < u64::MAX
            ==> context.short() == context.file_path + " hunk "@ + decimal(
            (context.focused_hunk->0.index + 1) as nat,
        ),
{
}

/// The mode tells a review of the worktree from one that is only read, and gives way to what
/// is asked or shown over it.
pub proof fn mode_tells_the_kind_of_review(app: AppView, theme: Theme)
    ensures
        app.source is Worktree ==> app.mode_tag(theme).spans[0].content == " DIFF "@,
        app.source is PullRequest ==> app.mode_tag(theme).spans[0].content == " REVIEW "@,
        app.overlay is None ==> !app.mode_hidden(),
        app.overlay is Some && (app.overlay->0 is AskAiOutput || app.overlay->0 is AskAiPrompt
            || app.overlay->0 is AskAiRunning || app.overlay->0 is CommandOutput)
            ==> app.mode_hidden(),
{
}

/// Output tells the keys that scroll and close it, and the key that copies it where it can
/// be copied.
pub proof fn output_tells_its_keys(with_copy: bool, keybinds: KeybindMap)
    ensures
        ({
            let hints = output_hints(with_copy, keybinds);
            let n = hints.len() as int;
            &&& n == if with_copy { 5int } else { 4 }
            &&& hints[0].0 == key_name(keybinds.bound(BuiltinAction::MoveDown)) + "/"@ + key_name(
                keybinds.bound(BuiltinAction::MoveUp),
            )
            &&& with_copy ==> hints[3] == (
                key_name(keybinds.bound(BuiltinAction::CopyFocused)),
                "copy"@,
            )
            &&& hints[n - 1] == (
                "Esc/"@ + key_name(keybinds.bound(BuiltinAction::Quit)),
                "close"@,
            )
        }),
{
}

/// A hint shows a key and behind it what the key does; the hints of a line stand in order.
pub proof fn hints_show_key_and_label(
    hints: Seq<(Seq<char>, Seq<char>)>,
    n: int,
    theme: Theme,
)
    requires
        0 < n <= hints.len(),
    ensures
        ({
            let all = hint_pieces(hints, n, theme);
            &&& all.len() == 3 * n - 1
            &&& all[3 * n - 3].content == " "@ + hints[n - 1].0 + " "@
            &&& all[3 * n - 2].content == " "@ + hints[n - 1].1
            &&& n > 1 ==> all.take(3 * n - 4) == hint_pieces(hints, n - 1, theme)
        }),
    decreases n,
{
    let all = hint_pieces(hints, n, theme);
    if n > 1 {
        hints_show_key_and_label(hints, n - 1, theme);
        assert(all.take(3 * n - 4) =~= hint_pieces(hints, n - 1, theme));
    } else {
        assert(hint_pieces(hints, 0, theme).len() == 0);
    }
}

/// Sources are wanted for the file that is shown, while a side of it is not loaded and has
/// context to show; never while output covers the diff.
pub proof fn sources_are_wanted_for_what_is_shown(app: AppView)
    ensures
        app.file() is None ==> !app.wants_sources(),
        app.overlay is Some && (app.overlay->0 is AskAiOutput || app.overlay->0 is CommandOutput)
            ==> !app.wants_sources(),
        app.file() is Some && app.file()->0.binary ==> !app.wants_sources(),
        app.overlay is None && app.file() is Some && !app.file()->0.binary
            && app.file()->0.hunks.len() > 0 ==> (app.wants_sources() <==> (
        app.file()->0.old_source is Unloaded || app.file()->0.new_source is Unloaded)),
{
}

/// A search looks through all rows of a file; without one only the rows in view and some
/// ahead are rendered.
pub proof fn search_needs_all_rows(pane: PaneView, height: int)
    requires
        0 <= pane.scroll,
        0 <= height,
    ensures
        pane.search.query.len() > 0 ==> pane.target_rows(height) == usize::MAX,
        pane.search.query.len() == 0 && pane.scroll + height + 120 <= usize::MAX
            ==> pane.target_rows(height) == pane.scroll + height + 120,
{
}

/// A file that is rendered to its end scrolls up to its last page.
pub proof fn rendered_file_scrolls_to_its_last_page(
    state: RenderView,
    index: int,
    id: Seq<char>,
    fallback: int,
    height: int,
)
    requires
        state.lines_of(index, id) is Some,
        state.lines_of(index, id)->0.complete,
        state.layout_of(index, id) is Some ==> state.layout_of(index, id)->0.new_line_rows.len()
            <= state.lines_of(index, id)->0.lines.len(),
    ensures
        ({
            let rows = state.lines_of(index, id)->0.lines.len();
            state.max_scroll(index, Some(id), fallback, height) == if rows > height {
                rows - height
            } else {
                0
            }
        }),
{
}

/// The title of the help tells the keys that close it.
pub proof fn help_tells_how_it_is_closed(theme: Theme, scrollable: bool, keybinds: KeybindMap)
    ensures
        ({
            let spans = overlay_title(theme, scrollable, keybinds).spans;
            &&& spans.len() == if scrollable { 4int } else { 3 }
            &&& spans[2].content == "  "@ + key_name(keybinds.bound(BuiltinAction::Help)) + "/Esc/"@
                + key_name(keybinds.bound(BuiltinAction::Quit)) + " closes "@
        }),
{
}

/// Keys of the help stand out from what they do.
pub proof fn keys_stand_out_in_the_help(segment: SegmentView, theme: Theme)
    ensures
        segment.styled(theme).content == segment.text(),
        segment is Command ==> segment.styled(theme).style.fg == Some(theme.accent)
            && segment.styled(theme).style.bold,
        segment is Text ==> segment.styled(theme).style.fg == Some(theme.text),
        segment is Muted ==> segment.styled(theme).style.fg == Some(theme.muted),
{
}

/// A file counts one row for its header, and one for each hunk header and each line; a file
/// without text to show counts its message.
pub proof fn rows_of_a_file_are_counted(file: FileView, hunk: HunkView)
    ensures
        file.binary || file.hunks.len() == 0 ==> file.row_count() == 2,
        !file.binary && file.hunks.len() > 0 ==> (FileView {
            hunks: file.hunks.push(hunk),
            ..file
        }).row_count() == file.row_count() + 1 + hunk.lines.len(),
        !file.binary && file.hunks.len() == 0 ==> (FileView {
            hunks: file.hunks.push(hunk),
            ..file
        }).row_count() == 2 + hunk.lines.len(),
{
    assert(file.hunks.push(hunk).drop_last() =~= file.hunks);
}

/// More rows are rendered than there are, and as many as are asked for.
pub proof fn rendering_goes_on(current: int, requested: int)
    requires
        0 <= current < usize::MAX,
        0 <= requested <= usize::MAX,
    ensures
        requested <= next_target(current, requested) <= usize::MAX,
        current < next_target(current, requested),
{
}

/// The text of a pane stands inside its border.
pub proof fn text_stands_inside_the_border(area: Rect, width: int, height: int)
    requires
        0 <= width,
        0 <= height,
        area.x + 1 + width < area.x + area.width <= u16::MAX,
        area.y + 1 + height < area.y + area.height <= u16::MAX,
    ensures
        ({
            let place = text_area(area, width, height);
            &&& place.x == area.x + 1 && place.y == area.y + 1
            &&& place.width == width && place.height == height
            &&& forall|column: int, row: int|
                #[trigger] place.holds(column, row) ==> area.holds_inside(column, row)
        }),
{
}

/// The keys of every entry fit into the column of the keys.
pub proof fn keys_fit_into_their_column(entries: Seq<HelpEntryView>, n: int, i: int)
    requires
        0 <= i < n <= entries.len(),
    ensures
        all_columns(entries[i].keys) <= widest_keys(entries, n),
    decreases n,
{
    if i < n - 1 {
        keys_fit_into_their_column(entries, n - 1, i);
    }
}

} // verus!
