//! How output and Markdown are shown.

use vstd::prelude::*;
use vstd::string::*;

use crate::ask_ai::ResultView;
use crate::custom_command::CommandResultView;
use crate::laws::rendering::{message_is_shown, shown_text, wrapped_rows_show_the_text};
use crate::line::{raw_pieces, row, spans_text, styled_row, RowView};
use crate::rows::markdown::{
    blank, copies, without_blank_end, EventKind, EventView, MarkdownView, TagKind,
};
use crate::rows::output::{
    answer_label, command_output_rows, ending_rows, metadata_rows, output_rows, status_color_of,
    text_rows,
};
use crate::rows::text::{cells, cells_measured, wrapped_row};
use crate::style::{color_style, Color, Style};
use crate::text::{decimal, spaces};
use crate::theme::Theme;

verus! {

/// Text outside of code is shown as it is, in the style that is open, behind what stands in
/// its row already.
pub proof fn text_is_shown_in_its_style(view: MarkdownView, text: EventView)
    requires
        text.kind == EventKind::Text,
        !view.in_code_block,
    ensures
        ({
            let after = view.handled(text);
            &&& after.current.len() > 0 && after.current.last().content == text.text
            &&& view.styles.len() > 0 ==> after.current.last().style == view.styles.last()
            &&& view.current.len() > 0 ==> after.current.drop_last() == view.current
            &&& after.lines == view.lines && after.styles == view.styles
        }),
{
    let after = view.handled(text);
    if view.current.len() > 0 {
        assert(after.current.drop_last() =~= view.current);
    }
}

/// Emphasized text is italic, strong text bold, and struck text crossed out, in addition to
/// what is open already; the end of each gives back the style before it.
pub proof fn emphasis_is_undone_at_its_end(view: MarkdownView, start: EventView, end: EventView)
    requires
        start.kind == EventKind::Start,
        end.kind == EventKind::End,
        start.tag == end.tag,
        view.styles.len() > 0,
    ensures
        ({
            let open = view.handled(start);
            let style = view.styles.last();
            &&& start.tag == TagKind::Emphasis ==> open.styles.last() == (Style {
                italic: true,
                ..style
            }) && open.handled(end).styles == view.styles
            &&& start.tag == TagKind::Strong ==> open.styles.last() == (Style {
                bold: true,
                ..style
            }) && open.handled(end).styles == view.styles
            &&& start.tag == TagKind::Strikethrough ==> open.styles.last() == (Style {
                crossed_out: true,
                ..style
            }) && open.handled(end).styles == view.styles
            &&& start.tag == TagKind::Link ==> open.styles.last().underlined
                && open.handled(end).styles == view.styles
            &&& start.tag == TagKind::Heading ==> open.styles.last().bold && open.handled(
                end,
            ).styles == view.styles
        }),
{
    let open = view.handled(start);
    if start.tag == TagKind::Emphasis || start.tag == TagKind::Strong || start.tag
        == TagKind::Strikethrough || start.tag == TagKind::Link || start.tag == TagKind::Heading {
        assert(open.styles.drop_last() =~= view.styles);
    }
}

proof fn one_for_each(text: Seq<char>, n: int)
    requires
        text.len() == 1,
        0 <= n,
    ensures
        copies(text, n).len() == n,
        forall|i: int| 0 <= i < n ==> (#[trigger] copies(text, n)[i]) == text[0],
    decreases n,
{
    if n > 0 {
        one_for_each(text, n - 1);
    }
}

/// A heading begins with as many hashes as its level says.
pub proof fn heading_shows_its_level(view: MarkdownView, start: EventView, level: u64)
    requires
        start.kind == EventKind::Start,
        start.tag == TagKind::Heading,
        start.number == Some(level),
    ensures
        ({
            let marker = view.handled(start).current.last().content;
            &&& marker.len() == level + 1
            &&& forall|i: int| 0 <= i < level ==> (#[trigger] marker[i]) == '#'
            &&& marker.last() == ' '
        }),
{
    reveal_strlit("#");
    reveal_strlit(" ");
    one_for_each("#"@, level as int);
    let marker = view.handled(start).current.last().content;
    assert(marker == copies("#"@, level as int) + " "@);
    assert forall|i: int| 0 <= i < level implies (#[trigger] marker[i]) == '#' by {
        assert(marker[i] == copies("#"@, level as int)[i]);
    }
}

/// The items of a numbered list count on from its first number; those of others have a
/// bullet. Each level is indented by two columns, and the further rows of an item start
/// below its text.
pub proof fn items_are_numbered_or_bulleted(view: MarkdownView, item: EventView)
    requires
        item.kind == EventKind::Start,
        item.tag == TagKind::Item,
        view.lists.len() > 0,
    ensures
        ({
            let after = view.handled(item);
            let marker = after.current.last().content;
            let indent = 2 * (view.lists.len() - 1);
            &&& view.lists.last() is Some ==> marker == spaces(indent) + decimal(
                view.lists.last()->0 as nat,
            ) + ". "@
            &&& view.lists.last() is None ==> marker == spaces(indent) + "\u{2022} "@
                && after.lists == view.lists
            &&& view.lists.last() is Some && view.lists.last()->0 < u64::MAX ==> after.lists.last()
                == Some((view.lists.last()->0 + 1) as u64) && after.lists.len()
                == view.lists.len()
            &&& after.continuation == Some(spaces(marker.len() as int))
        }),
{
}

/// A list begins with the number that it is given, and its end leads back to the list
/// around it.
pub proof fn list_ends_where_it_began(view: MarkdownView, start: EventView, end: EventView)
    requires
        start.kind == EventKind::Start,
        end.kind == EventKind::End,
        start.tag == TagKind::List,
        end.tag == TagKind::List,
    ensures
        view.handled(start).lists.last() == start.number,
        view.handled(start).lists.len() == view.lists.len() + 1,
        view.handled(start).handled(end).lists == view.lists,
{
    assert(view.handled(start).lists.drop_last() =~= view.lists);
}

/// Every row of a quotation starts with a bar for each quotation that is open.
pub proof fn quotations_have_bars(view: MarkdownView, start: EventView, end: EventView, i: int)
    requires
        start.kind == EventKind::Start,
        end.kind == EventKind::End,
        start.tag == TagKind::BlockQuote,
        end.tag == TagKind::BlockQuote,
        0 <= view.quote_depth < usize::MAX,
        view.continuation is None,
    ensures
        view.handled(start).quote_depth == view.quote_depth + 1,
        view.handled(start).handled(end).quote_depth == view.quote_depth,
        view.prefix().len() == view.quote_depth,
        0 <= i < view.quote_depth ==> view.prefix()[i].content == "\u{2502} "@,
{
}

/// A checked task is marked, an open one is not.
pub proof fn tasks_show_whether_they_are_done(view: MarkdownView, task: EventView)
    requires
        task.kind == EventKind::TaskListMarker,
    ensures
        task.number == Some(1u64) ==> view.handled(task).current.last().content == "[x] "@,
        task.number != Some(1u64) ==> view.handled(task).current.last().content == "[ ] "@,
{
}

/// The cells of a row of a table stand apart; nothing stands before the first.
pub proof fn cells_stand_apart(
    view: MarkdownView,
    line: EventView,
    first: EventView,
    next: EventView,
)
    requires
        line.kind == EventKind::Start,
        line.tag == TagKind::TableRow,
        first.kind == EventKind::Start,
        first.tag == TagKind::TableCell,
        next == first,
    ensures
        view.handled(line).handled(first).current == view.current,
        view.handled(line).handled(first).handled(next).current.last().content == " | "@,
{
}

/// A line break ends the row: what stood in it becomes a row of its own.
pub proof fn breaks_end_the_row(view: MarkdownView, event: EventView)
    requires
        event.kind == EventKind::HardBreak,
        view.current.len() > 0,
    ensures
        view.handled(event).current.len() == 0,
        view.handled(event).lines.len() > view.lines.len(),
        view.handled(event).lines.take(view.lines.len() as int) == view.lines,
        shown_text(view.handled(event).lines.skip(view.lines.len() as int)) == spans_text(
            view.current,
        ),
{
    let after = view.handled(event);
    let more = wrapped_row(row(view.current), view.content_width);
    assert(after.lines == view.lines + more);
    assert(after.lines.take(view.lines.len() as int) =~= view.lines);
    assert(after.lines.skip(view.lines.len() as int) =~= more);
    wrapped_rows_show_the_text(row(view.current), view.content_width);
    if cells(view.current).len() > 0 {
        cells_measured(view.current);
    }
    assert(more.len() > 0);
}

proof fn no_blank_end(lines: Seq<RowView>)
    ensures
        without_blank_end(lines).len() > 0 ==> !blank(without_blank_end(lines).last()),
        without_blank_end(lines).len() <= lines.len(),
        without_blank_end(lines) == lines.take(without_blank_end(lines).len() as int),
        forall|i: int|
            without_blank_end(lines).len() <= i < lines.len() ==> blank(#[trigger] lines[i]),
    decreases lines.len(),
{
    if lines.len() > 0 && blank(lines.last()) {
        no_blank_end(lines.drop_last());
        let kept = without_blank_end(lines);
        assert(kept =~= lines.take(kept.len() as int));
        assert forall|i: int| kept.len() <= i < lines.len() implies blank(#[trigger] lines[i]) by {
            if i < lines.len() - 1 {
                assert(lines.drop_last()[i] == lines[i]);
            }
        }
    } else {
        assert(lines.take(lines.len() as int) =~= lines);
    }
}

/// What is rendered never ends with a blank row, leaves out nothing but blank rows at its
/// end, and says so where it is empty.
pub proof fn rendering_has_no_blank_end(view: MarkdownView)
    ensures
        ({
            let all = view.flushed().lines;
            let rows = view.finished();
            let empty = forall|i: int| 0 <= i < all.len() ==> blank(#[trigger] all[i]);
            &&& !empty ==> rows.len() <= all.len() && rows == all.take(rows.len() as int)
                && !blank(rows.last()) && forall|i: int|
                rows.len() <= i < all.len() ==> blank(#[trigger] all[i])
            &&& empty ==> rows.len() == 1 && rows[0].spans == raw_pieces("(empty)"@)
        }),
{
    let all = view.flushed().lines;
    no_blank_end(all);
    let kept = without_blank_end(all);
    if kept.len() > 0 {
        assert(kept.last() == all[kept.len() - 1]);
    }
}

/// A command that ended well is shown as such, any other as a failure, in different colors,
/// with its ending behind.
pub proof fn endings_are_shown(
    label: Seq<char>,
    ending: Seq<char>,
    success: bool,
    width: int,
    theme: Theme,
)
    requires
        ending.len() > 0,
        !(label + "  "@ + ending).contains('\n'),
        ending.last() != '\r',
    ensures
        shown_text(ending_rows(label, ending, success, width, theme)) == label + "  "@ + ending,
        status_color_of(true, theme) == theme.added,
        status_color_of(false, theme) == theme.removed,
{
    let text = label + "  "@ + ending;
    assert(text.last() == ending.last());
    message_is_shown(
        text,
        color_style(status_color_of(success, theme), theme.background),
        width,
    );
}

/// A label stands before its value.
pub proof fn metadata_is_shown(
    label: Seq<char>,
    value: Seq<char>,
    color: Color,
    width: int,
    theme: Theme,
)
    requires
        value.len() > 0,
        !(label + ": "@ + value).contains('\n'),
        value.last() != '\r',
    ensures
        shown_text(metadata_rows(label, value, color, width, theme)) == label + ": "@ + value,
{
    let text = label + ": "@ + value;
    assert(text.last() == value.last());
    message_is_shown(text, color_style(color, theme.background), width);
}

/// Output is shown line by line, in order: the rows of one more line stand behind those of
/// the lines before it.
pub proof fn output_is_shown_line_by_line(rows: Seq<Seq<char>>, style: Style, width: int, n: int)
    requires
        0 < n <= rows.len(),
        rows[n - 1].len() > 0,
        !rows[n - 1].contains('\n'),
        rows[n - 1].last() != '\r',
    ensures
        ({
            let before = output_rows(rows, style, width, n - 1);
            let all = output_rows(rows, style, width, n);
            &&& all.take(before.len() as int) == before
            &&& shown_text(all.skip(before.len() as int)) == rows[n - 1]
        }),
{
    let before = output_rows(rows, style, width, n - 1);
    let all = output_rows(rows, style, width, n);
    assert(all.take(before.len() as int) =~= before);
    assert(all.skip(before.len() as int) =~= text_rows(rows[n - 1], style, width));
    message_is_shown(rows[n - 1], style, width);
}

/// An answer is labelled by how it ended.
pub proof fn answers_are_labelled(result: ResultView)
    ensures
        result.outcome.cancelled ==> answer_label(result) == "CANCELLED"@,
        !result.outcome.cancelled && result.outcome.success ==> answer_label(result) == "OK"@,
        !result.outcome.cancelled && !result.outcome.success ==> answer_label(result) == "FAIL"@,
{
}

/// Each line of a code block is a row of its own, indented by two columns.
pub proof fn code_is_shown_line_by_line(view: MarkdownView, rows: Seq<Seq<char>>, n: int)
    requires
        0 < n <= rows.len(),
        rows[n - 1].len() > 0,
        !rows[n - 1].contains('\n'),
        rows[n - 1].last() != '\r',
    ensures
        ({
            let before = view.with_code_rows(rows, n - 1).lines;
            let after = view.with_code_rows(rows, n).lines;
            &&& after.take(before.len() as int) == before
            &&& shown_text(after.skip(before.len() as int)) == "  "@ + rows[n - 1]
        }),
{
    reveal_strlit("  ");
    let before = view.with_code_rows(rows, n - 1);
    let after = view.with_code_rows(rows, n);
    let text = "  "@ + rows[n - 1];
    code_keeps_width(view, rows, n - 1);
    let more = wrapped_row(styled_row(text, view.code_style()), view.content_width);
    assert(after.lines == before.lines + more);
    assert(after.lines.take(before.lines.len() as int) =~= before.lines);
    assert(after.lines.skip(before.lines.len() as int) =~= more);
    if text.contains('\n') {
        let i = choose|i: int| 0 <= i < text.len() && text[i] == '\n';
        assert(i >= 2);
        assert(rows[n - 1][i - 2] == '\n');
    }
    assert(text.last() == rows[n - 1].last());
    message_is_shown(text, view.code_style(), view.content_width);
}

proof fn code_keeps_width(view: MarkdownView, rows: Seq<Seq<char>>, n: int)
    ensures
        view.with_code_rows(rows, n).content_width == view.content_width,
    decreases n,
{
    if n > 0 {
        code_keeps_width(view, rows, n - 1);
    }
}

/// The output of a command begins with how it ended.
pub proof fn output_begins_with_the_ending(result: CommandResultView, width: int, theme: Theme)
    ensures
        ({
            let first = ending_rows(
                if result.outcome.success { "OK"@ } else { "FAIL"@ },
                result.outcome.ending(),
                result.outcome.success,
                width,
                theme,
            );
            let rows = command_output_rows(result, width, theme);
            first.len() <= rows.len() && rows.take(first.len() as int) == first
        }),
{
    let first = ending_rows(
        if result.outcome.success { "OK"@ } else { "FAIL"@ },
        result.outcome.ending(),
        result.outcome.success,
        width,
        theme,
    );
    let rows = command_output_rows(result, width, theme);
    assert(rows.take(first.len() as int) =~= first);
}

} // verus!
