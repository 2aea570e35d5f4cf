//! Sidebar rows: the tree of changed files.

use vstd::prelude::*;
use vstd::string::*;
use super::file_summary::{
    color_of_status, file_icon, format_file_stats, push_stat_spans, reviewed_glyph,
    sidebar_file_label, sidebar_label, stat_pieces, stats_text, stats_width, status_color,
    FileKind,
};
use super::text::{char_display_width, char_width, display_width, muted_line, text_width};
use super::tree::{entry_views, review_entries, sidebar_entries, EntryView, SidebarEntry};

use crate::line::{
    group_line_views, piece, row, row_views, span_views, styled_row, Line, RowView, Span,
};
use crate::model::{file_views, DiffFile, FileStage, FileView};
use crate::path_set::PathSet;
use crate::scroll_text::{greatest, least};
use crate::style::{color_style, Color, Modifier, Style};
use crate::text::{cat2, chars_of, spaces, spaces_of, string_between, strip_prefix, without_prefix};
use crate::theme::Theme;

verus! {

/// What a sidebar row stands for.
#[derive(Debug, PartialEq, Eq)]
pub enum SidebarRowTarget {
    File(usize),
    Folder(String),
}

/// What a [`SidebarRowTarget`] holds.
pub enum TargetView {
    File(int),
    Folder(Seq<char>),
}

impl View for SidebarRowTarget {
    type V = TargetView;

    open spec fn view(&self) -> TargetView {
        match self {
            SidebarRowTarget::File(index) => TargetView::File(*index as int),
            SidebarRowTarget::Folder(path) => TargetView::Folder(path@),
        }
    }
}

pub open spec fn target_views(targets: Seq<SidebarRowTarget>) -> Seq<TargetView> {
    targets.map_values(|target: SidebarRowTarget| target@)
}

impl Clone for SidebarRowTarget {
    fn clone(&self) -> (copy: Self)
        ensures
            copy@ == self@,
    {
        match self {
            SidebarRowTarget::File(index) => SidebarRowTarget::File(*index),
            SidebarRowTarget::Folder(path) => SidebarRowTarget::Folder(path.clone()),
        }
    }
}


/// Sum of two widths, which stays at the largest one that can be held.
pub open spec fn width_sum(a: int, b: int) -> int {
    least(a + b, usize::MAX as int)
}

/// Columns that the first `n` characters take, one by one.
pub open spec fn prefix_width(text: Seq<char>, n: int) -> int
    decreases n,
{
    if n <= 0 { 0 } else { prefix_width(text, n - 1) + char_width(text[n - 1]) }
}

/// Number of characters, from `from` on, after which the next one does not fit.
pub open spec fn fitting(text: Seq<char>, available: int, from: int) -> int
    decreases text.len() - from,
{
    if from >= text.len() || prefix_width(text, from + 1) > available {
        from
    } else {
        fitting(text, available, from + 1)
    }
}

/// A text that fits into some columns: itself, or what fits of it in front of an
/// ellipsis.
pub open spec fn truncated(text: Seq<char>, max_width: int) -> Seq<char> {
    let mark = "\u{2026}"@;
    if text_width(text) <= max_width {
        text
    } else if max_width == 0 {
        seq![]
    } else if max_width <= text_width(mark) {
        mark
    } else {
        text.take(fitting(text, max_width - text_width(mark), 0)) + mark
    }
}

pub fn truncate_to_width(text: &str, max_width: usize) -> (short: String)
    ensures
        short@ == truncated(text@, max_width as int),
{
    if display_width(text) <= max_width {
        return text.to_owned();
    }
    if max_width == 0 {
        return String::new();
    }
    let ellipsis = "\u{2026}";
    let ellipsis_width: usize = display_width(ellipsis);
    if max_width <= ellipsis_width {
        return ellipsis.to_owned();
    }
    let available: usize = max_width - ellipsis_width;
    let chars = chars_of(text);
    let mut width: usize = 0;
    let mut count: usize = 0;
    while count < chars.len()
        invariant_except_break
            fitting(text@, available as int, 0) == fitting(text@, available as int, count as int),
        invariant
            count <= chars@.len(),
            chars@ == text@,
            width <= available,
            width == prefix_width(text@, count as int),
        ensures
            count == fitting(text@, available as int, 0),
        decreases chars@.len() - count,
    {
        let character_width: usize = char_display_width(chars[count]);
        if character_width > available - width {
            break;
        }
        width = width + character_width;
        count = count + 1;
    }
    let mut short = string_between(chars.as_slice(), 0, count);
    assert(short@ =~= text@.take(count as int));
    short.append(ellipsis);
    short
}

/// Whether a path lies below a folder.
pub open spec fn below_folder(path: Seq<char>, folder: Seq<char>) -> bool {
    match without_prefix(path, folder) {
        Some(rest) => rest.len() > 0 && rest[0] == '/',
        None => false,
    }
}

pub fn path_is_inside_folder(path: &str, folder_path: &str) -> (inside: bool)
    ensures
        inside == below_folder(path@, folder_path@),
{
    match strip_prefix(path, folder_path) {
        Some(rest) => !rest.is_empty() && rest.get_char(0) == '/',
        None => false,
    }
}

/// The stage of two parts taken together: mixed unless they agree.
pub open spec fn combined_stage(a: FileStage, b: FileStage) -> FileStage {
    if a == b { a } else { FileStage::Mixed }
}

/// The stage of the first `n` files that lie below a folder, taken together.
pub open spec fn stage_below(files: Seq<FileView>, folder: Seq<char>, n: int) -> Option<FileStage>
    decreases n,
{
    if n <= 0 {
        None
    } else {
        let before = stage_below(files, folder, n - 1);
        if below_folder(files[n - 1].shown_path(), folder) {
            match before {
                Some(stage) => Some(combined_stage(stage, files[n - 1].stage)),
                None => Some(files[n - 1].stage),
            }
        } else {
            before
        }
    }
}

/// The stage of a folder: that of its files where they agree, mixed where they do
/// not, unstaged where it has none.
pub open spec fn stage_of_folder(files: Seq<FileView>, folder: Seq<char>) -> FileStage {
    match stage_below(files, folder, files.len() as int) {
        Some(stage) => stage,
        None => FileStage::Unstaged,
    }
}

pub fn folder_stage(files: &Vec<DiffFile>, folder_path: &str) -> (stage: FileStage)
    ensures
        stage == stage_of_folder(file_views(files@), folder_path@),
{
    let ghost views = file_views(files@);
    let mut combined: Option<FileStage> = None;
    let mut i: usize = 0;
    while i < files.len()
        invariant
            i <= files@.len(),
            views == file_views(files@),
            combined == stage_below(views, folder_path@, i as int),
        decreases files@.len() - i,
    {
        assert(views[i as int] == files@[i as int]@);
        if path_is_inside_folder(files[i].display_path(), folder_path) {
            let stage = files[i].stage;
            combined = match combined {
                Some(before) => if before == stage {
                    Some(before)
                } else {
                    Some(FileStage::Mixed)
                },
                None => Some(stage),
            };
        }
        i = i + 1;
    }
    match combined {
        Some(stage) => stage,
        None => FileStage::Unstaged,
    }
}

/// The name of a file or folder is marked by its stage.
pub open spec fn name_style(stage: FileStage, plain: Style, background: Color, theme: Theme) -> Style {
    match stage {
        FileStage::Staged => color_style(theme.added, background).add_modifier(Modifier::Bold),
        FileStage::Mixed => color_style(theme.accent, background).add_modifier(Modifier::Bold),
        FileStage::Unstaged => plain,
    }
}

fn stage_name_style(
    stage: FileStage,
    plain: Style,
    background: Color,
    theme: Theme,
) -> (style: Style)
    ensures
        style == name_style(stage, plain, background, theme),
{
    match stage {
        FileStage::Staged => color_style(theme.added, background).add_modifier(Modifier::Bold),
        FileStage::Mixed => color_style(theme.accent, background).add_modifier(Modifier::Bold),
        FileStage::Unstaged => plain,
    }
}

pub open spec fn row_background(selected: bool, theme: Theme) -> Color {
    if selected { theme.selected } else { theme.background }
}

/// Two spaces for each level.
pub open spec fn indent(depth: int) -> Seq<char> {
    spaces(2 * depth)
}

fn indent_of(depth: usize) -> (text: String)
    ensures
        text@ == indent(depth as int),
{
    let mut text = spaces_of(depth);
    crate::text::push_spaces(&mut text, depth);
    assert(text@ =~= indent(depth as int));
    text
}

/// How a file entry of the sidebar is rendered.
#[derive(Clone, Copy)]
pub struct FileEntryRenderInput<'a> {
    pub file: &'a DiffFile,
    pub is_selected: bool,
    pub content_width: usize,
    pub is_reviewed: bool,
    pub depth: usize,
    pub theme: Theme,
}

/// The row of a file: the indentation, an icon, the name as far as it fits, and
/// the counts of changed lines at the right end.
pub open spec fn file_entry_row(
    file: FileView,
    is_selected: bool,
    content_width: int,
    is_reviewed: bool,
    depth: int,
    theme: Theme,
) -> RowView {
    let background = row_background(is_selected, theme);
    let base = color_style(theme.text, background);
    let label = if is_reviewed { color_style(theme.muted, background) } else { base };
    let name = if is_reviewed { label } else { name_style(file.stage, label, background, theme) };
    let icon = if is_reviewed {
        "\u{f00c}"@
    } else {
        FileKind::of_path(file.shown_path()).glyph()
    };
    let icon_style = if is_reviewed {
        color_style(theme.added, background)
    } else {
        color_style(color_of_status(file.status, theme), background)
    };
    let prefix = indent(depth) + "  "@;
    let lead = width_sum(width_sum(text_width(prefix) as int, text_width(icon) as int), 1);
    row(
        seq![
            piece(prefix, label),
            piece(icon, icon_style),
            piece(" "@, label),
            piece(entry_name(file, lead, content_width), name),
            piece(entry_padding(file, lead, content_width), label),
        ] + stat_pieces(file, background, theme),
    )
}

/// The name of a file as far as it fits between what leads the row and the counts
/// of changed lines, which a space sets off.
pub open spec fn entry_name(file: FileView, lead: int, content_width: int) -> Seq<char> {
    let stats = text_width(stats_text(file)) as int;
    let reserved = least(width_sum(stats, if stats > 0 { 1 } else { 0 }), content_width);
    truncated(sidebar_label(file), greatest(content_width - width_sum(lead, reserved), 0))
}

/// The spaces that push the counts to the right end of the row.
pub open spec fn entry_padding(file: FileView, lead: int, content_width: int) -> Seq<char> {
    let stats = text_width(stats_text(file)) as int;
    let name = text_width(entry_name(file, lead, content_width)) as int;
    if stats == 0 {
        seq![]
    } else {
        spaces(content_width - width_sum(width_sum(lead, name), stats))
    }
}

fn entry_name_and_padding(file: &DiffFile, lead: usize, content_width: usize) -> (fitted: (
    String,
    String,
))
    ensures
        fitted.0@ == entry_name(file@, lead as int, content_width as int),
        fitted.1@ == entry_padding(file@, lead as int, content_width as int),
{
    let label = sidebar_file_label(file);
    let stats = format_file_stats(file);
    let stats_columns: usize = stats_width(stats.as_str());
    let with_gap: usize = stats_columns.saturating_add(if stats_columns > 0 { 1 } else { 0 });
    let reserved: usize = if with_gap < content_width { with_gap } else { content_width };
    let fixed: usize = lead.saturating_add(reserved);
    let file_name = truncate_to_width(label.as_str(), content_width.saturating_sub(fixed));
    let used: usize = lead.saturating_add(display_width(file_name.as_str())).saturating_add(
        stats_columns,
    );
    if stats_columns == 0 {
        return (file_name, String::new());
    }
    let padding = spaces_of(content_width.saturating_sub(used));
    assert(padding@ =~= spaces(content_width - used));
    (file_name, padding)
}

pub fn render_file_entry(input: FileEntryRenderInput<'_>) -> (lines: Vec<Line>)
    ensures
        lines@.len() == 1,
        lines@[0]@ == file_entry_row(
            input.file@,
            input.is_selected,
            input.content_width as int,
            input.is_reviewed,
            input.depth as int,
            input.theme,
        ),
{
    broadcast use group_line_views;

    let file = input.file;
    let theme = input.theme;
    let content_width: usize = input.content_width;
    let background = if input.is_selected { theme.selected } else { theme.background };
    let base_style = color_style(theme.text, background);
    let label_style = if input.is_reviewed {
        color_style(theme.muted, background)
    } else {
        base_style
    };
    let file_name_style = if input.is_reviewed {
        label_style
    } else {
        stage_name_style(file.stage, label_style, background, theme)
    };
    let icon = if input.is_reviewed { reviewed_glyph() } else { file_icon(file.display_path()) };
    let icon_style = if input.is_reviewed {
        color_style(theme.added, background)
    } else {
        color_style(status_color(file.status, theme), background)
    };
    let tree_prefix = tree_file_prefix(input.depth);
    let lead: usize = display_width(tree_prefix.as_str()).saturating_add(
        display_width(icon),
    ).saturating_add(1);
    let (file_name, padding) = entry_name_and_padding(file, lead, content_width);
    let mut spans: Vec<Span> = Vec::new();
    spans.push(Span::styled(tree_prefix.as_str(), label_style));
    spans.push(Span::styled(icon, icon_style));
    spans.push(Span::styled(" ", label_style));
    spans.push(Span::styled(file_name.as_str(), file_name_style));
    spans.push(Span::styled(padding.as_str(), label_style));
    assert(span_views(spans@) =~= seq![
        piece(tree_prefix@, label_style),
        piece(icon@, icon_style),
        piece(" "@, label_style),
        piece(file_name@, file_name_style),
        piece(padding@, label_style),
    ]);
    push_stat_spans(&mut spans, file, background, theme);
    let mut lines: Vec<Line> = Vec::new();
    lines.push(Line::of(spans));
    lines
}

/// The row of a folder: the indentation, a chevron, an icon and the name as far as
/// it fits.
pub open spec fn folder_entry_row(
    name: Seq<char>,
    depth: int,
    expanded: bool,
    is_marked: bool,
    stage: FileStage,
    content_width: int,
    theme: Theme,
) -> RowView {
    let background = row_background(is_marked, theme);
    let label = color_style(theme.text, background);
    let muted = color_style(theme.muted, background);
    let icon = if expanded { "\u{e5fe}"@ } else { "\u{e5ff}"@ };
    let chevron = if expanded { "\u{25be}"@ } else { "\u{25b8}"@ };
    let fixed = width_sum(
        width_sum(
            width_sum(
                width_sum(text_width(indent(depth)) as int, text_width(chevron) as int),
                1,
            ),
            text_width(icon) as int,
        ),
        1,
    );
    row(
        seq![
            piece(indent(depth), muted),
            piece(chevron, color_style(theme.accent, background)),
            piece(" "@, muted),
            piece(icon, color_style(theme.file_renamed, background)),
            piece(" "@, muted),
            piece(
                truncated(name + "/"@, greatest(content_width - fixed, 0)),
                name_style(stage, label, background, theme),
            ),
        ],
    )
}

pub fn render_folder_entry(
    name: &str,
    depth: usize,
    expanded: bool,
    contains_hidden_selection: bool,
    stage: FileStage,
    content_width: usize,
    theme: Theme,
) -> (lines: Vec<Line>)
    ensures
        lines@.len() == 1,
        lines@[0]@ == folder_entry_row(
            name@,
            depth as int,
            expanded,
            contains_hidden_selection,
            stage,
            content_width as int,
            theme,
        ),
{
    broadcast use group_line_views;

    let background = if contains_hidden_selection { theme.selected } else { theme.background };
    let label_style = color_style(theme.text, background);
    let folder_name_style = stage_name_style(stage, label_style, background, theme);
    let muted_style = color_style(theme.muted, background);
    let folder_icon = if expanded { "\u{e5fe}" } else { "\u{e5ff}" };
    let chevron = if expanded { "\u{25be}" } else { "\u{25b8}" };
    let tree_prefix = tree_folder_prefix(depth);
    let fixed: usize = display_width(tree_prefix.as_str()).saturating_add(
        display_width(chevron),
    ).saturating_add(1).saturating_add(display_width(folder_icon)).saturating_add(1);
    let label = truncate_to_width(
        cat2(name, "/").as_str(),
        content_width.saturating_sub(fixed),
    );
    let mut spans: Vec<Span> = Vec::new();
    spans.push(Span::styled(tree_prefix.as_str(), muted_style));
    spans.push(Span::styled(chevron, color_style(theme.accent, background)));
    spans.push(Span::styled(" ", muted_style));
    spans.push(Span::styled(folder_icon, color_style(theme.file_renamed, background)));
    spans.push(Span::styled(" ", muted_style));
    spans.push(Span::styled(label.as_str(), folder_name_style));
    let ghost wanted = folder_entry_row(
        name@,
        depth as int,
        expanded,
        contains_hidden_selection,
        stage,
        content_width as int,
        theme,
    );
    assert(span_views(spans@) =~= wanted.spans);
    let mut lines: Vec<Line> = Vec::new();
    lines.push(Line::of(spans));
    lines
}

fn tree_file_prefix(depth: usize) -> (prefix: String)
    ensures
        prefix@ == indent(depth as int) + "  "@,
{
    cat2(indent_of(depth).as_str(), "  ")
}

fn tree_folder_prefix(depth: usize) -> (prefix: String)
    ensures
        prefix@ == indent(depth as int),
{
    indent_of(depth)
}

/// Whether a collapsed folder hides the active file.
pub open spec fn hides_active_file(
    files: Seq<FileView>,
    active: TargetView,
    folder: Seq<char>,
    expanded: bool,
) -> bool {
    match active {
        TargetView::File(index) => !expanded && index < files.len() && below_folder(
            files[index].shown_path(),
            folder,
        ),
        TargetView::Folder(_) => false,
    }
}

pub fn active_file_hidden_by_folder(
    files: &Vec<DiffFile>,
    active_target: &SidebarRowTarget,
    folder_path: &str,
    expanded: bool,
) -> (hidden: bool)
    ensures
        hidden == hides_active_file(
            file_views(files@),
            active_target@,
            folder_path@,
            expanded,
        ),
{
    if expanded {
        return false;
    }
    match active_target {
        SidebarRowTarget::File(index) => {
            if *index < files.len() {
                assert(file_views(files@)[*index as int] == files@[*index as int]@);
                path_is_inside_folder(files[*index].display_path(), folder_path)
            } else {
                false
            }
        },
        SidebarRowTarget::Folder(_) => false,
    }
}

/// The row of an entry of the tree.
pub open spec fn entry_row(
    entry: EntryView,
    files: Seq<FileView>,
    reviewed: Set<Seq<char>>,
    active: TargetView,
    content_width: int,
    theme: Theme,
) -> RowView {
    match entry {
        EntryView::File { index, depth } => file_entry_row(
            files[index],
            active == TargetView::File(index),
            content_width,
            reviewed.contains(files[index].shown_path()),
            depth,
            theme,
        ),
        EntryView::Folder { path, name, depth, expanded } => folder_entry_row(
            name,
            depth,
            expanded,
            active == TargetView::Folder(path) || hides_active_file(
                files,
                active,
                path,
                expanded,
            ),
            stage_of_folder(files, path),
            content_width,
            theme,
        ),
    }
}

/// What the rows of the sidebar are rendered from.
pub struct SidebarRenderContext<'a> {
    pub files: &'a Vec<DiffFile>,
    pub content_width: usize,
    pub reviewed_files: &'a PathSet,
    pub active_target: SidebarRowTarget,
    pub theme: Theme,
}

fn render_sidebar_entry(entry: &SidebarEntry, context: &SidebarRenderContext<'_>) -> (lines: Vec<
    Line,
>)
    requires
        entry@ is File ==> entry@->File_index < context.files@.len(),
    ensures
        lines@.len() == 1,
        lines@[0]@ == entry_row(
            entry@,
            file_views(context.files@),
            context.reviewed_files@,
            context.active_target@,
            context.content_width as int,
            context.theme,
        ),
{
    match entry {
        SidebarEntry::File { index, depth } => {
            let file = &context.files[*index];
            assert(file_views(context.files@)[*index as int] == file@);
            let is_reviewed = context.reviewed_files.contains(file.display_path());
            let is_selected = entry.matches_target(&context.active_target);
            render_file_entry(
                FileEntryRenderInput {
                    file,
                    is_selected,
                    content_width: context.content_width,
                    is_reviewed,
                    depth: *depth,
                    theme: context.theme,
                },
            )
        },
        SidebarEntry::Folder { path, name, depth, expanded } => {
            let stage = folder_stage(context.files, path.as_str());
            let is_selected = entry.matches_target(&context.active_target);
            let hides = active_file_hidden_by_folder(
                context.files,
                &context.active_target,
                path.as_str(),
                *expanded,
            );
            render_folder_entry(
                name.as_str(),
                *depth,
                *expanded,
                is_selected || hides,
                stage,
                context.content_width,
                context.theme,
            )
        },
    }
}


/// Rows of the entries `from..to`.
pub open spec fn rows_between(counts: Seq<usize>, from: int, to: int) -> int
    decreases to - from,
{
    if to <= from { 0 } else { rows_between(counts, from, to - 1) + counts[to - 1] }
}

/// Rows of an entry, one where they are not known.
pub open spec fn rows_of(counts: Seq<usize>, at: int) -> int {
    if 0 <= at < counts.len() { counts[at] as int } else { 1 }
}

/// Rows of the entries `from..to`, one for each where they are not known.
pub open spec fn known_rows(counts: Seq<usize>, from: int, to: int) -> int
    decreases to - from,
{
    if to <= from { 0 } else { rows_of(counts, from) + known_rows(counts, from + 1, to) }
}

/// Whether an entry is in view: it is the first one with any rows, or all of its
/// rows are.
pub open spec fn in_view(counts: Seq<usize>, scroll: int, selected: int, height: int) -> bool {
    &&& scroll <= selected < counts.len()
    &&& {
        ||| rows_between(counts, scroll, selected) == 0
        ||| rows_between(counts, scroll, selected) < greatest(height, 1) && rows_between(
            counts,
            scroll,
            selected,
        ) + counts[selected] <= greatest(height, 1)
    }
}

/// The first entry of a view that ends with the selected one and shows as many
/// entries before it as fit.
pub open spec fn scroll_to_show(counts: Seq<usize>, selected: int, scroll: int, height: int) -> int
    decreases scroll,
{
    if scroll > 0 && known_rows(counts, scroll - 1, selected + 1) <= greatest(height, 1) {
        scroll_to_show(counts, selected, scroll - 1, height)
    } else {
        scroll
    }
}

/// Position of the entry for a target, from a position on.
pub open spec fn entry_position(entries: Seq<EntryView>, target: TargetView, from: int) -> Option<
    int,
>
    decreases entries.len() - from,
{
    if from >= entries.len() {
        None
    } else if entries[from].target() == target {
        Some(from)
    } else {
        entry_position(entries, target, from + 1)
    }
}

/// The scroll offset, moved as little as needed to show the active entry.
pub open spec fn scroll_showing(
    entries: Seq<EntryView>,
    counts: Seq<usize>,
    scroll: int,
    active: TargetView,
    height: int,
) -> int {
    if entries.len() == 0 {
        0
    } else {
        let inside = least(scroll, entries.len() - 1);
        match entry_position(entries, active, 0) {
            Some(selected) => if selected < inside {
                selected
            } else if in_view(counts, inside, selected, height) {
                inside
            } else {
                scroll_to_show(counts, selected, selected, height)
            },
            None => inside,
        }
    }
}

pub fn visible_sidebar_scroll(
    entries: &Vec<SidebarEntry>,
    row_counts: &Vec<usize>,
    sidebar_scroll: usize,
    active_target: &SidebarRowTarget,
    visible_height: usize,
) -> (scroll: usize)
    ensures
        scroll == scroll_showing(
            entry_views(entries@),
            row_counts@,
            sidebar_scroll as int,
            active_target@,
            visible_height as int,
        ),
        entries@.len() > 0 ==> scroll < entries@.len(),
{
    let ghost views = entry_views(entries@);
    if entries.len() == 0 {
        return 0;
    }
    let clamped_scroll: usize = if sidebar_scroll < entries.len() - 1 {
        sidebar_scroll
    } else {
        entries.len() - 1
    };
    let selected: usize = match selected_sidebar_entry_index(entries, active_target) {
        Some(selected) => selected,
        None => {
            return clamped_scroll;
        },
    };
    if selected < clamped_scroll {
        return selected;
    }
    if sidebar_selection_visible(row_counts, clamped_scroll, selected, visible_height) {
        return clamped_scroll;
    }
    sidebar_scroll_for_selected(row_counts, selected, visible_height)
}

fn selected_sidebar_entry_index(
    entries: &Vec<SidebarEntry>,
    active_target: &SidebarRowTarget,
) -> (at: Option<usize>)
    ensures
        match at {
            Some(found) => found < entries@.len() && entry_position(
                entry_views(entries@),
                active_target@,
                0,
            ) == Some(found as int),
            None => entry_position(entry_views(entries@), active_target@, 0) is None,
        },
{
    let ghost views = entry_views(entries@);
    let mut i: usize = 0;
    while i < entries.len()
        invariant
            i <= entries@.len(),
            views == entry_views(entries@),
            entry_position(views, active_target@, 0) == entry_position(
                views,
                active_target@,
                i as int,
            ),
        decreases entries@.len() - i,
    {
        assert(views[i as int] == entries@[i as int]@);
        if entries[i].matches_target(active_target) {
            return Some(i);
        }
        i = i + 1;
    }
    None
}

fn sidebar_selection_visible(
    row_counts: &Vec<usize>,
    scroll: usize,
    selected_index: usize,
    visible_height: usize,
) -> (visible: bool)
    ensures
        visible == in_view(
            row_counts@,
            scroll as int,
            selected_index as int,
            visible_height as int,
        ),
{
    if selected_index < scroll || selected_index >= row_counts.len() {
        return false;
    }
    let height: usize = if visible_height > 1 { visible_height } else { 1 };
    let mut rows_above: usize = 0;
    let mut i: usize = scroll;
    while i < selected_index
        invariant
            scroll <= i <= selected_index < row_counts@.len(),
            rows_above == least(
                rows_between(row_counts@, scroll as int, i as int),
                usize::MAX as int,
            ),
            rows_between(row_counts@, scroll as int, i as int) >= 0,
        decreases selected_index - i,
    {
        rows_above = rows_above.saturating_add(row_counts[i]);
        i = i + 1;
    }
    if rows_above == 0 {
        return true;
    }
    if rows_above >= height {
        return false;
    }
    row_counts[selected_index] <= height - rows_above
}

fn rows_of_entry(row_counts: &Vec<usize>, at: usize) -> (rows: usize)
    ensures
        rows == rows_of(row_counts@, at as int),
{
    if at < row_counts.len() { row_counts[at] } else { 1 }
}

fn sidebar_scroll_for_selected(
    row_counts: &Vec<usize>,
    selected_index: usize,
    visible_height: usize,
) -> (scroll: usize)
    ensures
        scroll == scroll_to_show(
            row_counts@,
            selected_index as int,
            selected_index as int,
            visible_height as int,
        ),
        scroll <= selected_index,
{
    let height: usize = if visible_height > 1 { visible_height } else { 1 };
    let mut scroll: usize = selected_index;
    let mut row_total: usize = rows_of_entry(row_counts, selected_index);
    assert(known_rows(row_counts@, selected_index + 1, selected_index + 1) == 0);
    while scroll > 0
        invariant_except_break
            scroll_to_show(
                row_counts@,
                selected_index as int,
                selected_index as int,
                visible_height as int,
            ) == scroll_to_show(
                row_counts@,
                selected_index as int,
                scroll as int,
                visible_height as int,
            ),
        invariant
            scroll <= selected_index,
            height == greatest(visible_height as int, 1),
            row_total == known_rows(row_counts@, scroll as int, selected_index + 1),
        ensures
            scroll == scroll_to_show(
                row_counts@,
                selected_index as int,
                selected_index as int,
                visible_height as int,
            ),
        decreases scroll,
    {
        let previous_rows: usize = rows_of_entry(row_counts, scroll - 1);
        if row_total > height || previous_rows > height - row_total {
            break;
        }
        scroll = scroll - 1;
        row_total = row_total + previous_rows;
    }
    scroll
}

/// What the sidebar shows.
pub struct SidebarRowsInput<'a> {
    pub files: &'a Vec<DiffFile>,
    pub empty_message: &'static str,
    pub collapsed_dirs: &'a PathSet,
    pub selected_file_index: usize,
    pub sidebar_scroll: usize,
    pub row_counts: &'a Vec<usize>,
    pub content_width: usize,
    pub visible_height: usize,
    pub theme: Theme,
    pub reviewed_files: &'a PathSet,
    pub active_target: Option<&'a SidebarRowTarget>,
}

pub struct SidebarRowCountsInput<'a> {
    pub files: &'a Vec<DiffFile>,
    pub collapsed_dirs: &'a PathSet,
    pub content_width: usize,
    pub theme: Theme,
}

pub struct RenderedSidebarRows {
    pub lines: Vec<Line>,
    pub row_records: Vec<SidebarRowRecord>,
    pub sidebar_scroll: usize,
}

pub struct SidebarRowRecord {
    pub target: SidebarRowTarget,
    pub row_count: usize,
}

/// What a row record holds.
pub open spec fn record_views(records: Seq<SidebarRowRecord>) -> Seq<(TargetView, int)> {
    records.map_values(|record: SidebarRowRecord| (record.target@, record.row_count as int))
}

/// The target that is marked: the given one, else the selected file.
pub open spec fn marked_target(
    active: Option<&SidebarRowTarget>,
    selected_file: int,
    file_count: int,
) -> TargetView {
    match active {
        Some(target) => target@,
        None => TargetView::File(least(selected_file, file_count - 1)),
    }
}

/// The entries from `scroll` on that a view of some height shows.
pub open spec fn entries_in_view(entries: Seq<EntryView>, scroll: int, height: int) -> Seq<
    EntryView,
> {
    entries.subrange(scroll, least(scroll + height, entries.len() as int))
}

pub fn sidebar_rows(input: SidebarRowsInput<'_>) -> (rows: RenderedSidebarRows)
    ensures
        input.files@.len() == 0 ==> row_views(rows.lines@) == seq![
            styled_row(
                input.empty_message@,
                color_style(input.theme.muted, input.theme.background),
            ),
        ] && rows.row_records@.len() == 0 && rows.sidebar_scroll == 0,
        input.files@.len() > 0 ==> ({
            let files = file_views(input.files@);
            let entries = review_entries(files, input.collapsed_dirs@);
            let active = marked_target(
                input.active_target,
                input.selected_file_index as int,
                files.len() as int,
            );
            let shown = entries_in_view(
                entries,
                rows.sidebar_scroll as int,
                input.visible_height as int,
            );
            &&& rows.sidebar_scroll == scroll_showing(
                entries,
                input.row_counts@,
                input.sidebar_scroll as int,
                active,
                input.visible_height as int,
            )
            &&& row_views(rows.lines@) =~= shown.map_values(
                |entry: EntryView|
                    entry_row(
                        entry,
                        files,
                        input.reviewed_files@,
                        active,
                        input.content_width as int,
                        input.theme,
                    ),
            )
            &&& record_views(rows.row_records@) =~= shown.map_values(
                |entry: EntryView| (entry.target(), 1int),
            )
        }),
{
    broadcast use group_line_views;

    if input.files.len() == 0 {
        let mut lines: Vec<Line> = Vec::new();
        lines.push(muted_line(input.empty_message, input.theme));
        assert(row_views(lines@) =~= seq![
            styled_row(
                input.empty_message@,
                color_style(input.theme.muted, input.theme.background),
            ),
        ]);
        return RenderedSidebarRows { lines, row_records: Vec::new(), sidebar_scroll: 0 };
    }
    let entries = sidebar_entries(input.files, input.collapsed_dirs);
    let last: usize = input.files.len() - 1;
    let active_target = match input.active_target {
        Some(target) => target.clone(),
        None => SidebarRowTarget::File(
            if input.selected_file_index < last { input.selected_file_index } else { last },
        ),
    };
    let sidebar_scroll: usize = visible_sidebar_scroll(
        &entries,
        input.row_counts,
        input.sidebar_scroll,
        &active_target,
        input.visible_height,
    );
    let context = SidebarRenderContext {
        files: input.files,
        content_width: input.content_width,
        reviewed_files: input.reviewed_files,
        active_target,
        theme: input.theme,
    };
    let ghost files = file_views(input.files@);
    let ghost views = entry_views(entries@);
    let ghost active = context.active_target@;
    let mut lines: Vec<Line> = Vec::new();
    let mut row_records: Vec<SidebarRowRecord> = Vec::new();
    let mut i: usize = 0;
    while i < input.visible_height && sidebar_scroll < entries.len() && i < entries.len()
        - sidebar_scroll
        invariant
            i <= input.visible_height,
            i == 0 || sidebar_scroll + i <= entries@.len(),
            files == file_views(input.files@),
            views == entry_views(entries@),
            views == review_entries(files, input.collapsed_dirs@),
            active == context.active_target@,
            context.files == input.files,
            context.content_width == input.content_width,
            context.reviewed_files == input.reviewed_files,
            context.theme == input.theme,
            lines@.len() == i,
            row_records@.len() == i,
            forall|j: int|
                0 <= j < i ==> (#[trigger] lines@[j])@ == entry_row(
                    views[sidebar_scroll + j],
                    files,
                    input.reviewed_files@,
                    active,
                    input.content_width as int,
                    input.theme,
                ),
            forall|j: int|
                0 <= j < i ==> (#[trigger] row_records@[j]).target@
                    == views[sidebar_scroll + j].target() && row_records@[j].row_count == 1,
        decreases input.visible_height - i,
    {
        let entry = &entries[sidebar_scroll + i];
        proof {
            assert(views[sidebar_scroll + i] == entry@);
            if entry@ is File {
                super::tree::listed_files_exist(files, input.collapsed_dirs@, sidebar_scroll + i);
            }
        }
        let mut entry_lines = render_sidebar_entry(entry, &context);
        row_records.push(SidebarRowRecord { target: entry.target(), row_count: 1 });
        if let Some(line) = entry_lines.pop() {
            lines.push(line);
        }
        i = i + 1;
    }
    RenderedSidebarRows { lines, row_records, sidebar_scroll }
}

/// Number of rows of each entry of the tree.
pub fn sidebar_row_counts(input: SidebarRowCountsInput<'_>) -> (counts: Vec<usize>)
    ensures
        counts@ =~= review_entries(file_views(input.files@), input.collapsed_dirs@).map_values(
            |entry: EntryView| 1usize,
        ),
{
    let entries = sidebar_entries(input.files, input.collapsed_dirs);
    let ghost views = entry_views(entries@);
    assert(views.len() == entries@.len());
    let mut counts: Vec<usize> = Vec::new();
    while counts.len() < entries.len()
        invariant
            counts@.len() <= entries@.len(),
            forall|j: int| 0 <= j < counts@.len() ==> counts@[j] == 1,
        decreases entries@.len() - counts@.len(),
    {
        counts.push(1);
    }
    counts
}

/// What the rows of the tree stand for.
pub fn visible_sidebar_targets(files: &Vec<DiffFile>, collapsed_dirs: &PathSet) -> (targets: Vec<
    SidebarRowTarget,
>)
    ensures
        target_views(targets@) =~= review_entries(
            file_views(files@),
            collapsed_dirs@,
        ).map_values(|entry: EntryView| entry.target()),
{
    let entries = sidebar_entries(files, collapsed_dirs);
    let ghost views = entry_views(entries@);
    let mut targets: Vec<SidebarRowTarget> = Vec::new();
    let mut i: usize = 0;
    while i < entries.len()
        invariant
            i <= entries@.len(),
            views == entry_views(entries@),
            targets@.len() == i,
            forall|j: int| 0 <= j < i ==> (#[trigger] targets@[j])@ == views[j].target(),
        decreases entries@.len() - i,
    {
        assert(views[i as int] == entries@[i as int]@);
        targets.push(entries[i].target());
        i = i + 1;
    }
    targets
}

proof fn known_rows_match(counts: Seq<usize>, from: int, to: int)
    requires
        0 <= from <= to <= counts.len(),
    ensures
        known_rows(counts, from, to) == rows_between(counts, from, to),
    decreases to - from,
{
    if from < to {
        known_rows_match(counts, from + 1, to);
        rows_between_front(counts, from, to);
    }
}

proof fn rows_between_front(counts: Seq<usize>, from: int, to: int)
    requires
        0 <= from < to <= counts.len(),
    ensures
        rows_between(counts, from, to) == counts[from] + rows_between(counts, from + 1, to),
    decreases to - from,
{
    if from + 1 < to {
        rows_between_front(counts, from, to - 1);
    } else {
        assert(rows_between(counts, from, from) == 0);
    }
}

proof fn scroll_to_show_shows(counts: Seq<usize>, selected: int, scroll: int, height: int)
    requires
        0 <= scroll <= selected < counts.len(),
        scroll < selected ==> rows_between(counts, scroll, selected + 1) <= greatest(height, 1),
    ensures
        ({
            let at = scroll_to_show(counts, selected, scroll, height);
            0 <= at <= selected && (at < selected ==> rows_between(counts, at, selected + 1)
                <= greatest(height, 1))
        }),
    decreases scroll,
{
    if scroll > 0 && known_rows(counts, scroll - 1, selected + 1) <= greatest(height, 1) {
        known_rows_match(counts, scroll - 1, selected + 1);
        scroll_to_show_shows(counts, selected, scroll - 1, height);
    }
}

proof fn entry_position_found(entries: Seq<EntryView>, target: TargetView, from: int)
    requires
        0 <= from,
    ensures
        match entry_position(entries, target, from) {
            Some(at) => from <= at < entries.len() && entries[at].target() == target,
            None => true,
        },
    decreases entries.len() - from,
{
    if from < entries.len() && entries[from].target() != target {
        entry_position_found(entries, target, from + 1);
    }
}

/// Wherever the sidebar was scrolled to, the active entry ends up in view: it is
/// the first one with rows, or all of its rows fit behind those before it.
pub proof fn active_entry_stays_in_view(
    entries: Seq<EntryView>,
    counts: Seq<usize>,
    scroll: int,
    active: TargetView,
    height: int,
)
    requires
        counts.len() == entries.len(),
        0 <= scroll,
        entry_position(entries, active, 0) is Some,
    ensures
        ({
            let at = scroll_showing(entries, counts, scroll, active, height);
            let selected = entry_position(entries, active, 0)->0;
            0 <= at <= selected < entries.len() && (rows_between(counts, at, selected) == 0
                || rows_between(counts, at, selected + 1) <= greatest(height, 1))
        }),
{
    entry_position_found(entries, active, 0);
    let selected = entry_position(entries, active, 0)->0;
    let inside = least(scroll, entries.len() - 1);
    if selected < inside {
        assert(rows_between(counts, selected, selected) == 0);
    } else if !in_view(counts, inside, selected, height) {
        scroll_to_show_shows(counts, selected, selected, height);
        assert(rows_between(counts, selected, selected) == 0);
    }
}

} // verus!
