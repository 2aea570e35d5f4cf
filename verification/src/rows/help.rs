//! The help overlay: keys and what they do, in sections.

use vstd::prelude::*;
use vstd::string::*;
use super::diff::{append_lines, append_spans};
use super::sidebar::width_sum;
use super::text::{
    display_width, span_rows, text_width, wrap_line, wrap_styled_spans, wrapped, wrapped_row,
};

use crate::custom_command::{binding_views, BindingView, CustomCommandBinding};
use crate::keybind::{key_name, BuiltinAction, KeybindMap};
use crate::line::{
    group_line_views, piece, row, row_views, span_views, styled_row, Line, RowView, Span, SpanView,
};
use crate::scroll_text::greatest;
use crate::style::{color_style, Color, Modifier, Style};
use crate::text::{cat2, spaces, spaces_of};
use crate::theme::Theme;

verus! {

/// Columns between keys and descriptions.
pub const HELP_COLUMN_GAP: usize = 2;

/// Fewest columns for descriptions in a column of their own.
pub const HELP_MIN_DESCRIPTION_WIDTH: usize = 18;

/// A piece of a help entry.
#[derive(Debug, PartialEq, Eq)]
pub enum HelpSegment {
    Command(String),
    Text(String),
    Muted(String),
}

/// Keys and what they do.
#[derive(Debug, PartialEq, Eq)]
pub struct HelpEntry {
    pub keys: Vec<HelpSegment>,
    pub description: Vec<HelpSegment>,
}

/// What a [`HelpSegment`] holds.
pub enum SegmentView {
    Command(Seq<char>),
    Text(Seq<char>),
    Muted(Seq<char>),
}

/// What a [`HelpEntry`] holds.
pub struct HelpEntryView {
    pub keys: Seq<SegmentView>,
    pub description: Seq<SegmentView>,
}

impl View for HelpSegment {
    type V = SegmentView;

    open spec fn view(&self) -> SegmentView {
        match self {
            HelpSegment::Command(text) => SegmentView::Command(text@),
            HelpSegment::Text(text) => SegmentView::Text(text@),
            HelpSegment::Muted(text) => SegmentView::Muted(text@),
        }
    }
}

pub open spec fn segment_views(segments: Seq<HelpSegment>) -> Seq<SegmentView> {
    segments.map_values(|segment: HelpSegment| segment@)
}

impl View for HelpEntry {
    type V = HelpEntryView;

    open spec fn view(&self) -> HelpEntryView {
        HelpEntryView {
            keys: segment_views(self.keys@),
            description: segment_views(self.description@),
        }
    }
}

pub open spec fn help_entry_views(entries: Seq<HelpEntry>) -> Seq<HelpEntryView> {
    entries.map_values(|entry: HelpEntry| entry@)
}

impl SegmentView {
    pub open spec fn text(self) -> Seq<char> {
        match self {
            SegmentView::Command(text) => text,
            SegmentView::Text(text) => text,
            SegmentView::Muted(text) => text,
        }
    }

    pub open spec fn styled(self, theme: Theme) -> SpanView {
        match self {
            SegmentView::Command(text) => piece(text, help_command_style(theme)),
            SegmentView::Text(text) => piece(text, help_style(theme.text, theme)),
            SegmentView::Muted(text) => piece(text, help_style(theme.muted, theme)),
        }
    }
}

/// Text of the overlay.
#[verifier::allow_in_spec]
pub fn help_style(foreground: Color, theme: Theme) -> (style: Style)
    returns
        color_style(foreground, theme.background_alt),
{
    color_style(foreground, theme.background_alt)
}

/// A key in the overlay.
#[verifier::allow_in_spec]
pub fn help_command_style(theme: Theme) -> (style: Style)
    returns
        help_style(theme.accent, theme).add_modifier(Modifier::Bold),
{
    help_style(theme.accent, theme).add_modifier(Modifier::Bold)
}

/// The title of a section.
#[verifier::allow_in_spec]
pub fn help_section_style(theme: Theme) -> (style: Style)
    returns
        help_style(theme.text, theme).add_modifier(Modifier::Bold).add_modifier(
            Modifier::Underlined,
        ),
{
    help_style(theme.text, theme).add_modifier(Modifier::Bold).add_modifier(Modifier::Underlined)
}

pub open spec fn segment_pieces(segments: Seq<SegmentView>, theme: Theme) -> Seq<SpanView> {
    segments.map_values(|segment: SegmentView| segment.styled(theme))
}

/// Columns that the first `n` segments take.
pub open spec fn segments_columns(segments: Seq<SegmentView>, n: int) -> int
    decreases n,
{
    if n <= 0 {
        0
    } else {
        width_sum(segments_columns(segments, n - 1), text_width(segments[n - 1].text()) as int)
    }
}

pub open spec fn all_columns(segments: Seq<SegmentView>) -> int {
    segments_columns(segments, segments.len() as int)
}

/// Columns of the widest keys of the first `n` entries.
pub open spec fn widest_keys(entries: Seq<HelpEntryView>, n: int) -> int
    decreases n,
{
    if n <= 0 {
        0
    } else {
        greatest(widest_keys(entries, n - 1), all_columns(entries[n - 1].keys))
    }
}

/// The rows of an entry: its description behind its keys, or, where there is room
/// for it, in a column of its own.
pub open spec fn help_entry_rows(
    entry: HelpEntryView,
    key_width: int,
    aligned: bool,
    width: int,
    theme: Theme,
) -> Seq<RowView> {
    let text = help_style(theme.text, theme);
    let keys = segment_pieces(entry.keys, theme);
    let description = segment_pieces(entry.description, theme);
    if aligned {
        let column = width_sum(key_width, HELP_COLUMN_GAP as int);
        let rows = wrapped(description, greatest(width - column, 1));
        let padding = key_width - all_columns(entry.keys);
        let padded = if padding > 0 { keys.push(piece(spaces(padding), text)) } else { keys };
        Seq::new(
            rows.len(),
            |i: int|
                row(
                    (if i == 0 {
                        padded.push(piece(spaces(HELP_COLUMN_GAP as int), text))
                    } else {
                        seq![piece(spaces(column), text)]
                    }) + rows[i],
                ),
        )
    } else {
        wrapped_row(row(keys.push(piece(" "@, text)) + description), width)
    }
}

/// The rows of the first `n` entries.
pub open spec fn help_entries_rows(
    entries: Seq<HelpEntryView>,
    key_width: int,
    aligned: bool,
    width: int,
    theme: Theme,
    n: int,
) -> Seq<RowView>
    decreases n,
{
    if n <= 0 {
        seq![]
    } else {
        help_entries_rows(entries, key_width, aligned, width, theme, n - 1) + help_entry_rows(
            entries[n - 1],
            key_width,
            aligned,
            width,
            theme,
        )
    }
}

/// Rows with the title of one more section, behind an empty row where it is not
/// the first.
pub open spec fn with_section(rows: Seq<RowView>, title: Seq<char>, theme: Theme) -> Seq<RowView> {
    let apart = if rows.len() > 0 {
        rows.push(styled_row(""@, help_style(theme.text, theme)))
    } else {
        rows
    };
    apart.push(styled_row(title, help_section_style(theme)))
}

/// Rows with one more section.
pub open spec fn with_entries(
    rows: Seq<RowView>,
    title: Seq<char>,
    entries: Seq<HelpEntryView>,
    width: int,
    theme: Theme,
) -> Seq<RowView> {
    let key_width = widest_keys(entries, entries.len() as int);
    let aligned = width >= width_sum(
        width_sum(key_width, HELP_COLUMN_GAP as int),
        HELP_MIN_DESCRIPTION_WIDTH as int,
    );
    with_section(rows, title, theme) + help_entries_rows(
        entries,
        key_width,
        aligned,
        width,
        theme,
        entries.len() as int,
    )
}

/// Rows with one more section that holds a remark.
pub open spec fn with_remark(
    rows: Seq<RowView>,
    title: Seq<char>,
    remark: Seq<char>,
    width: int,
    theme: Theme,
) -> Seq<RowView> {
    with_section(rows, title, theme) + wrapped_row(
        row(segment_pieces(seq![SegmentView::Muted(remark)], theme)),
        width,
    )
}

pub open spec fn command(key: Seq<char>) -> Seq<SegmentView> {
    seq![SegmentView::Command(key)]
}

/// Two keys of which either will do.
pub open spec fn either(a: Seq<char>, b: Seq<char>) -> Seq<SegmentView> {
    seq![SegmentView::Command(a), SegmentView::Text(" / "@), SegmentView::Command(b)]
}

pub open spec fn help_entry(keys: Seq<SegmentView>, description: Seq<char>) -> HelpEntryView {
    HelpEntryView { keys, description: seq![SegmentView::Text(description)] }
}

pub open spec fn action_help(
    keybinds: KeybindMap,
    action: BuiltinAction,
    description: Seq<char>,
) -> HelpEntryView {
    help_entry(command(key_name(keybinds.bound(action))), description)
}

pub open spec fn pair_help(
    keybinds: KeybindMap,
    a: BuiltinAction,
    b: BuiltinAction,
    description: Seq<char>,
) -> HelpEntryView {
    help_entry(
        either(key_name(keybinds.bound(a)), key_name(keybinds.bound(b))),
        description,
    )
}

pub open spec fn global_help(keybinds: KeybindMap) -> Seq<HelpEntryView> {
    seq![
        action_help(keybinds, BuiltinAction::Help, "help/dismiss"@),
        action_help(keybinds, BuiltinAction::Quit, "close help or quit"@),
        help_entry(command("Ctrl-c"@), "quit"@),
        action_help(keybinds, BuiltinAction::ToggleFiles, "show or hide files"@),
        help_entry(
            either("Tab"@, "Left"@).push(SegmentView::Text(" / "@)).push(
                SegmentView::Command("Right"@),
            ).push(SegmentView::Text(" / "@)).push(SegmentView::Command("Enter"@)),
            "focus panes"@,
        ),
        action_help(keybinds, BuiltinAction::Search, "search"@),
        help_entry(command("Enter"@), "apply search"@),
        help_entry(command("Esc"@), "cancel or clear search"@),
        pair_help(
            keybinds,
            BuiltinAction::NextMatch,
            BuiltinAction::PrevMatch,
            "next or previous match/hunk"@,
        ),
        help_entry(either(key_name(keybinds.bound(BuiltinAction::Top)), "Home"@), "top"@),
        help_entry(either(key_name(keybinds.bound(BuiltinAction::Bottom)), "End"@), "bottom"@),
    ]
}

pub open spec fn custom_help(commands: Seq<BindingView>) -> Seq<HelpEntryView> {
    commands.map_values(
        |binding: BindingView|
            HelpEntryView {
                keys: command(key_name(binding.key.value)),
                description: seq![
                    SegmentView::Text(binding.label),
                    SegmentView::Muted("  "@ + binding.command),
                ],
            },
    )
}

pub open spec fn sidebar_help(keybinds: KeybindMap) -> Seq<HelpEntryView> {
    seq![
        pair_help(keybinds, BuiltinAction::MoveDown, BuiltinAction::MoveUp, "select file"@),
        action_help(
            keybinds,
            BuiltinAction::ToggleReviewed,
            "toggle reviewed for selected file"@,
        ),
        action_help(keybinds, BuiltinAction::CopyFocused, "copy selected file path"@),
    ]
}

pub open spec fn diff_help(keybinds: KeybindMap) -> Seq<HelpEntryView> {
    seq![
        pair_help(keybinds, BuiltinAction::MoveDown, BuiltinAction::MoveUp, "scroll row"@),
        help_entry(either("Ctrl-d"@, "Ctrl-u"@), "page"@),
        pair_help(
            keybinds,
            BuiltinAction::NextMatch,
            BuiltinAction::PrevMatch,
            "next or previous hunk"@,
        ),
        action_help(keybinds, BuiltinAction::CopyFocused, "copy selected hunk diff"@),
        action_help(keybinds, BuiltinAction::CopyFileDiff, "copy selected file diff"@),
    ]
}

pub open spec fn ai_help(keybinds: KeybindMap) -> Seq<HelpEntryView> {
    seq![
        HelpEntryView {
            keys: command(key_name(keybinds.bound(BuiltinAction::AskAi))),
            description: seq![
                SegmentView::Text("Ask AI about focused file or hunk; "@),
                SegmentView::Command("Enter"@),
                SegmentView::Text(" submit; "@),
                SegmentView::Command("Esc"@),
                SegmentView::Text(" cancel"@),
            ],
        },
        action_help(
            keybinds,
            BuiltinAction::ExplainCode,
            "Explain focused file or hunk with Ask AI"@,
        ),
        action_help(
            keybinds,
            BuiltinAction::UnpublishedSummary,
            "Summarize unpublished changes with Ask AI"@,
        ),
    ]
}

pub open spec fn mouse_help() -> Seq<HelpEntryView> {
    seq![
        help_entry(command("hover"@), "focus pane"@),
        help_entry(command("click file"@), "select file"@),
        help_entry(command("click hunk"@), "select hunk"@),
        help_entry(command("wheel"@), "scroll pointed pane"@),
        help_entry(command("drag text"@), "copy selection"@),
    ]
}

pub open spec fn worktree_help(can_stage: bool, can_discard: bool, keybinds: KeybindMap) -> Seq<
    HelpEntryView,
> {
    let staging = if can_stage {
        seq![
            action_help(
                keybinds,
                BuiltinAction::ToggleStaging,
                "stage/unstage focused file or hunk"@,
            ),
        ]
    } else {
        seq![]
    };
    let discarding = if can_discard {
        staging.push(
            HelpEntryView {
                keys: command(key_name(keybinds.bound(BuiltinAction::Discard))),
                description: seq![
                    SegmentView::Text("discard focused file, folder, or hunk; "@),
                    SegmentView::Command("y"@),
                    SegmentView::Text(" / "@),
                    SegmentView::Command("Enter"@),
                    SegmentView::Text(" confirm"@),
                ],
            },
        )
    } else {
        staging
    };
    discarding.push(
        action_help(keybinds, BuiltinAction::Editor, "open selected file in $EDITOR"@),
    )
}

/// The rows of the overlay.
pub open spec fn help_rows(
    can_stage: bool,
    can_discard: bool,
    commands: Seq<BindingView>,
    keybinds: KeybindMap,
    width: int,
    theme: Theme,
) -> Seq<RowView> {
    let global = with_entries(seq![], "Global"@, global_help(keybinds), width, theme);
    let custom = if commands.len() == 0 {
        with_remark(
            global,
            "Custom commands"@,
            "No custom commands configured"@,
            width,
            theme,
        )
    } else {
        with_entries(global, "Custom commands"@, custom_help(commands), width, theme)
    };
    let sidebar = with_entries(custom, "Sidebar"@, sidebar_help(keybinds), width, theme);
    let diff = with_entries(sidebar, "Diff"@, diff_help(keybinds), width, theme);
    let ai = with_entries(diff, "AI"@, ai_help(keybinds), width, theme);
    let mouse = with_entries(ai, "Mouse"@, mouse_help(), width, theme);
    if can_stage || can_discard {
        with_entries(
            mouse,
            "Worktree-only"@,
            worktree_help(can_stage, can_discard, keybinds),
            width,
            theme,
        )
    } else {
        with_remark(
            mouse,
            "Worktree-only"@,
            "Worktree actions unavailable in PR mode"@,
            width,
            theme,
        )
    }
}

fn command_key(key: &str) -> (keys: Vec<HelpSegment>)
    ensures
        segment_views(keys@) == command(key@),
{
    let keys = vec![HelpSegment::Command(key.to_owned())];
    assert(segment_views(keys@) =~= command(key@));
    keys
}

fn either_key(a: &str, b: &str) -> (keys: Vec<HelpSegment>)
    ensures
        segment_views(keys@) == either(a@, b@),
{
    let keys = vec![
        HelpSegment::Command(a.to_owned()),
        HelpSegment::Text(" / ".to_owned()),
        HelpSegment::Command(b.to_owned()),
    ];
    assert(segment_views(keys@) =~= either(a@, b@));
    keys
}

fn text_entry(keys: Vec<HelpSegment>, description: &str) -> (entry: HelpEntry)
    ensures
        entry@ == help_entry(segment_views(keys@), description@),
{
    let text = vec![HelpSegment::Text(description.to_owned())];
    assert(segment_views(text@) =~= seq![SegmentView::Text(description@)]);
    HelpEntry { keys, description: text }
}

fn action_entry(keybinds: KeybindMap, action: BuiltinAction, description: &str) -> (entry: HelpEntry)
    ensures
        entry@ == action_help(keybinds, action, description@),
{
    text_entry(command_key(keybinds.display(action).as_str()), description)
}

fn pair_entry(
    keybinds: KeybindMap,
    a: BuiltinAction,
    b: BuiltinAction,
    description: &str,
) -> (entry: HelpEntry)
    ensures
        entry@ == pair_help(keybinds, a, b, description@),
{
    text_entry(
        either_key(keybinds.display(a).as_str(), keybinds.display(b).as_str()),
        description,
    )
}

fn global_entries(keybinds: KeybindMap) -> (entries: Vec<HelpEntry>)
    ensures
        help_entry_views(entries@) == global_help(keybinds),
{
    let mut panes = either_key("Tab", "Left");
    panes.push(HelpSegment::Text(" / ".to_owned()));
    panes.push(HelpSegment::Command("Right".to_owned()));
    panes.push(HelpSegment::Text(" / ".to_owned()));
    panes.push(HelpSegment::Command("Enter".to_owned()));
    assert(segment_views(panes@) =~= either("Tab"@, "Left"@).push(
        SegmentView::Text(" / "@),
    ).push(SegmentView::Command("Right"@)).push(SegmentView::Text(" / "@)).push(
        SegmentView::Command("Enter"@),
    ));
    let top = either_key(keybinds.display(BuiltinAction::Top).as_str(), "Home");
    let bottom = either_key(keybinds.display(BuiltinAction::Bottom).as_str(), "End");
    let entries = vec![
        action_entry(keybinds, BuiltinAction::Help, "help/dismiss"),
        action_entry(keybinds, BuiltinAction::Quit, "close help or quit"),
        text_entry(command_key("Ctrl-c"), "quit"),
        action_entry(keybinds, BuiltinAction::ToggleFiles, "show or hide files"),
        text_entry(panes, "focus panes"),
        action_entry(keybinds, BuiltinAction::Search, "search"),
        text_entry(command_key("Enter"), "apply search"),
        text_entry(command_key("Esc"), "cancel or clear search"),
        pair_entry(
            keybinds,
            BuiltinAction::NextMatch,
            BuiltinAction::PrevMatch,
            "next or previous match/hunk",
        ),
        text_entry(top, "top"),
        text_entry(bottom, "bottom"),
    ];
    assert(help_entry_views(entries@) =~= global_help(keybinds));
    entries
}

fn custom_entries(commands: &Vec<CustomCommandBinding>) -> (entries: Vec<HelpEntry>)
    ensures
        help_entry_views(entries@) == custom_help(binding_views(commands@)),
{
    let ghost bindings = binding_views(commands@);
    let ghost wanted = custom_help(bindings);
    let mut entries: Vec<HelpEntry> = Vec::new();
    let mut i: usize = 0;
    assert(help_entry_views(entries@) =~= wanted.take(0));
    while i < commands.len()
        invariant
            i <= commands@.len(),
            bindings == binding_views(commands@),
            wanted == custom_help(bindings),
            help_entry_views(entries@) == wanted.take(i as int),
        decreases commands@.len() - i,
    {
        let binding = &commands[i];
        assert(bindings[i as int] == binding@);
        let description = vec![
            HelpSegment::Text(binding.label().to_owned()),
            HelpSegment::Muted(cat2("  ", binding.command())),
        ];
        assert(segment_views(description@) =~= seq![
            SegmentView::Text(binding@.label),
            SegmentView::Muted("  "@ + binding@.command),
        ]);
        let entry = HelpEntry {
            keys: command_key(binding.key_display().as_str()),
            description,
        };
        assert(entry@ == wanted[i as int]);
        let ghost before = entries@;
        entries.push(entry);
        assert(help_entry_views(entries@) =~= help_entry_views(before).push(entry@));
        assert(wanted.take(i + 1) =~= wanted.take(i as int).push(wanted[i as int]));
        i = i + 1;
    }
    assert(wanted.take(wanted.len() as int) =~= wanted);
    entries
}

fn sidebar_entries_help(keybinds: KeybindMap) -> (entries: Vec<HelpEntry>)
    ensures
        help_entry_views(entries@) == sidebar_help(keybinds),
{
    let entries = vec![
        pair_entry(keybinds, BuiltinAction::MoveDown, BuiltinAction::MoveUp, "select file"),
        action_entry(
            keybinds,
            BuiltinAction::ToggleReviewed,
            "toggle reviewed for selected file",
        ),
        action_entry(keybinds, BuiltinAction::CopyFocused, "copy selected file path"),
    ];
    assert(help_entry_views(entries@) =~= sidebar_help(keybinds));
    entries
}

fn diff_entries(keybinds: KeybindMap) -> (entries: Vec<HelpEntry>)
    ensures
        help_entry_views(entries@) == diff_help(keybinds),
{
    let entries = vec![
        pair_entry(keybinds, BuiltinAction::MoveDown, BuiltinAction::MoveUp, "scroll row"),
        text_entry(either_key("Ctrl-d", "Ctrl-u"), "page"),
        pair_entry(
            keybinds,
            BuiltinAction::NextMatch,
            BuiltinAction::PrevMatch,
            "next or previous hunk",
        ),
        action_entry(keybinds, BuiltinAction::CopyFocused, "copy selected hunk diff"),
        action_entry(keybinds, BuiltinAction::CopyFileDiff, "copy selected file diff"),
    ];
    assert(help_entry_views(entries@) =~= diff_help(keybinds));
    entries
}

fn ai_entries(keybinds: KeybindMap) -> (entries: Vec<HelpEntry>)
    ensures
        help_entry_views(entries@) == ai_help(keybinds),
{
    let description = vec![
        HelpSegment::Text("Ask AI about focused file or hunk; ".to_owned()),
        HelpSegment::Command("Enter".to_owned()),
        HelpSegment::Text(" submit; ".to_owned()),
        HelpSegment::Command("Esc".to_owned()),
        HelpSegment::Text(" cancel".to_owned()),
    ];
    assert(segment_views(description@) =~= ai_help(keybinds)[0].description);
    let ask = HelpEntry {
        keys: command_key(keybinds.display(BuiltinAction::AskAi).as_str()),
        description,
    };
    let entries = vec![
        ask,
        action_entry(
            keybinds,
            BuiltinAction::ExplainCode,
            "Explain focused file or hunk with Ask AI",
        ),
        action_entry(
            keybinds,
            BuiltinAction::UnpublishedSummary,
            "Summarize unpublished changes with Ask AI",
        ),
    ];
    assert(help_entry_views(entries@) =~= ai_help(keybinds));
    entries
}

fn mouse_entries() -> (entries: Vec<HelpEntry>)
    ensures
        help_entry_views(entries@) == mouse_help(),
{
    let entries = vec![
        text_entry(command_key("hover"), "focus pane"),
        text_entry(command_key("click file"), "select file"),
        text_entry(command_key("click hunk"), "select hunk"),
        text_entry(command_key("wheel"), "scroll pointed pane"),
        text_entry(command_key("drag text"), "copy selection"),
    ];
    assert(help_entry_views(entries@) =~= mouse_help());
    entries
}

fn push_entry(entries: &mut Vec<HelpEntry>, entry: HelpEntry)
    ensures
        help_entry_views(final(entries)@) == help_entry_views(old(entries)@).push(entry@),
{
    entries.push(entry);
    assert(help_entry_views(entries@) =~= help_entry_views(old(entries)@).push(entry@));
}

fn worktree_entries(can_stage: bool, can_discard: bool, keybinds: KeybindMap) -> (entries: Vec<
    HelpEntry,
>)
    ensures
        help_entry_views(entries@) == worktree_help(can_stage, can_discard, keybinds),
{
    let mut entries: Vec<HelpEntry> = Vec::new();
    assert(help_entry_views(entries@) =~= seq![]);
    if can_stage {
        push_entry(
            &mut entries,
            action_entry(
                keybinds,
                BuiltinAction::ToggleStaging,
                "stage/unstage focused file or hunk",
            ),
        );
        assert(help_entry_views(entries@) =~= seq![
            action_help(
                keybinds,
                BuiltinAction::ToggleStaging,
                "stage/unstage focused file or hunk"@,
            ),
        ]);
    }
    if can_discard {
        let description = vec![
            HelpSegment::Text("discard focused file, folder, or hunk; ".to_owned()),
            HelpSegment::Command("y".to_owned()),
            HelpSegment::Text(" / ".to_owned()),
            HelpSegment::Command("Enter".to_owned()),
            HelpSegment::Text(" confirm".to_owned()),
        ];
        assert(segment_views(description@) =~= seq![
            SegmentView::Text("discard focused file, folder, or hunk; "@),
            SegmentView::Command("y"@),
            SegmentView::Text(" / "@),
            SegmentView::Command("Enter"@),
            SegmentView::Text(" confirm"@),
        ]);
        push_entry(
            &mut entries,
            HelpEntry {
                keys: command_key(keybinds.display(BuiltinAction::Discard).as_str()),
                description,
            },
        );
    }
    push_entry(
        &mut entries,
        action_entry(keybinds, BuiltinAction::Editor, "open selected file in $EDITOR"),
    );
    entries
}

/// The rows of the help overlay.
pub fn help_overlay_lines(
    can_stage: bool,
    can_discard: bool,
    custom_commands: &Vec<CustomCommandBinding>,
    keybinds: KeybindMap,
    content_width: usize,
    theme: Theme,
) -> (lines: Vec<Line>)
    ensures
        row_views(lines@) == help_rows(
            can_stage,
            can_discard,
            binding_views(custom_commands@),
            keybinds,
            content_width as int,
            theme,
        ),
{
    let mut lines: Vec<Line> = Vec::new();
    assert(row_views(lines@) =~= seq![]);
    push_help_entries(&mut lines, "Global", &global_entries(keybinds), content_width, theme);
    assert(binding_views(custom_commands@).len() == custom_commands@.len());
    if custom_commands.len() == 0 {
        push_help_message(
            &mut lines,
            "Custom commands",
            "No custom commands configured",
            content_width,
            theme,
        );
    } else {
        push_help_entries(
            &mut lines,
            "Custom commands",
            &custom_entries(custom_commands),
            content_width,
            theme,
        );
    }
    push_help_entries(
        &mut lines,
        "Sidebar",
        &sidebar_entries_help(keybinds),
        content_width,
        theme,
    );
    push_help_entries(&mut lines, "Diff", &diff_entries(keybinds), content_width, theme);
    push_help_entries(&mut lines, "AI", &ai_entries(keybinds), content_width, theme);
    push_help_entries(&mut lines, "Mouse", &mouse_entries(), content_width, theme);
    if can_stage || can_discard {
        push_help_entries(
            &mut lines,
            "Worktree-only",
            &worktree_entries(can_stage, can_discard, keybinds),
            content_width,
            theme,
        );
    } else {
        push_help_message(
            &mut lines,
            "Worktree-only",
            "Worktree actions unavailable in PR mode",
            content_width,
            theme,
        );
    }
    lines
}

fn push_help_section(lines: &mut Vec<Line>, title: &str, theme: Theme)
    ensures
        row_views(final(lines)@) == with_section(row_views(old(lines)@), title@, theme),
{
    broadcast use group_line_views;

    if lines.len() > 0 {
        lines.push(Line::styled("", help_style(theme.text, theme)));
    }
    lines.push(Line::styled(title, help_section_style(theme)));
}

fn push_help_entries(
    lines: &mut Vec<Line>,
    title: &str,
    entries: &Vec<HelpEntry>,
    content_width: usize,
    theme: Theme,
)
    ensures
        row_views(final(lines)@) == with_entries(
            row_views(old(lines)@),
            title@,
            help_entry_views(entries@),
            content_width as int,
            theme,
        ),
{
    push_help_section(lines, title, theme);
    let ghost all = help_entry_views(entries@);
    let ghost width = content_width as int;
    let ghost before = row_views(lines@);
    let mut key_width: usize = 0;
    let mut i: usize = 0;
    while i < entries.len()
        invariant
            i <= entries@.len(),
            all == help_entry_views(entries@),
            key_width == widest_keys(all, i as int),
        decreases entries@.len() - i,
    {
        assert(all[i as int] == entries@[i as int]@);
        let columns: usize = segments_width(&entries[i].keys);
        if columns > key_width {
            key_width = columns;
        }
        i = i + 1;
    }
    let needed: usize = key_width.saturating_add(HELP_COLUMN_GAP).saturating_add(
        HELP_MIN_DESCRIPTION_WIDTH,
    );
    let align_columns = content_width >= needed;
    let mut j: usize = 0;
    assert(before + help_entries_rows(all, key_width as int, align_columns, width, theme, 0)
        =~= before);
    while j < entries.len()
        invariant
            j <= entries@.len(),
            all == help_entry_views(entries@),
            width == content_width,
            row_views(lines@) == before + help_entries_rows(
                all,
                key_width as int,
                align_columns,
                width,
                theme,
                j as int,
            ),
        decreases entries@.len() - j,
    {
        assert(all[j as int] == entries@[j as int]@);
        push_help_entry(lines, &entries[j], key_width, align_columns, content_width, theme);
        assert(row_views(lines@) =~= before + help_entries_rows(
            all,
            key_width as int,
            align_columns,
            width,
            theme,
            j + 1,
        ));
        j = j + 1;
    }
}

fn push_help_entry(
    lines: &mut Vec<Line>,
    entry: &HelpEntry,
    key_width: usize,
    align_columns: bool,
    content_width: usize,
    theme: Theme,
)
    ensures
        row_views(final(lines)@) == row_views(old(lines)@) + help_entry_rows(
            entry@,
            key_width as int,
            align_columns,
            content_width as int,
            theme,
        ),
{
    broadcast use group_line_views;

    let text_style = help_style(theme.text, theme);
    let description = help_spans(&entry.description, theme);
    if !align_columns {
        let mut spans = help_spans(&entry.keys, theme);
        spans.push(Span::styled(" ", text_style));
        append_spans(&mut spans, &description);
        append_lines(lines, wrap_line(Line::of(spans), content_width));
        return;
    }
    let column: usize = key_width.saturating_add(HELP_COLUMN_GAP);
    let room: usize = content_width.saturating_sub(column);
    let rows = wrap_styled_spans(&description, if room > 1 { room } else { 1 });
    let ghost before = row_views(lines@);
    let ghost wrapped_rows = span_rows(rows@);
    let ghost wanted = help_entry_rows(
        entry@,
        key_width as int,
        true,
        content_width as int,
        theme,
    );
    let ghost padded = padded_keys(entry@.keys, key_width as int, theme);
    let mut i: usize = 0;
    assert(before + wanted.take(0) =~= before);
    while i < rows.len()
        invariant
            i <= rows@.len(),
            wrapped_rows == span_rows(rows@),
            wanted.len() == wrapped_rows.len(),
            column == width_sum(key_width as int, HELP_COLUMN_GAP as int),
            text_style == help_style(theme.text, theme),
            padded == padded_keys(entry@.keys, key_width as int, theme),
            forall|k: int|
                0 <= k < wanted.len() ==> #[trigger] wanted[k] == row(
                    (if k == 0 {
                        padded.push(piece(spaces(HELP_COLUMN_GAP as int), text_style))
                    } else {
                        seq![piece(spaces(column as int), text_style)]
                    }) + wrapped_rows[k],
                ),
            row_views(lines@) == before + wanted.take(i as int),
        decreases rows@.len() - i,
    {
        let mut spans = if i == 0 {
            let mut keys = padded_help_key_spans(&entry.keys, key_width, theme);
            let gap = Span::styled(spaces_of(HELP_COLUMN_GAP).as_str(), text_style);
            keys.push(gap);
            assert(span_views(keys@) =~= padded.push(gap@));
            keys
        } else {
            let mut gap: Vec<Span> = Vec::new();
            gap.push(Span::styled(spaces_of(column).as_str(), text_style));
            assert(span_views(gap@) =~= seq![piece(spaces(column as int), text_style)]);
            gap
        };
        let ghost lead = span_views(spans@);
        append_spans(&mut spans, &rows[i]);
        assert(wrapped_rows[i as int] == span_views(rows@[i as int]@));
        assert(wanted[i as int] == row(lead + wrapped_rows[i as int]));
        let line = Line::of(spans);
        assert(line@ == wanted[i as int]);
        lines.push(line);
        assert(before + wanted.take(i + 1) =~= (before + wanted.take(i as int)).push(
            wanted[i as int],
        ));
        i = i + 1;
    }
    assert(wanted.take(wanted.len() as int) =~= wanted);
}

fn push_help_message(
    lines: &mut Vec<Line>,
    title: &str,
    remark: &str,
    content_width: usize,
    theme: Theme,
)
    ensures
        row_views(final(lines)@) == with_remark(
            row_views(old(lines)@),
            title@,
            remark@,
            content_width as int,
            theme,
        ),
{
    push_help_section(lines, title, theme);
    let segments = vec![HelpSegment::Muted(remark.to_owned())];
    assert(segment_views(segments@) =~= seq![SegmentView::Muted(remark@)]);
    append_lines(lines, wrap_line(Line::of(help_spans(&segments, theme)), content_width));
}

fn help_spans(segments: &Vec<HelpSegment>, theme: Theme) -> (spans: Vec<Span>)
    ensures
        span_views(spans@) == segment_pieces(segment_views(segments@), theme),
{
    let ghost all = segment_views(segments@);
    let ghost wanted = segment_pieces(all, theme);
    let mut spans: Vec<Span> = Vec::new();
    let mut i: usize = 0;
    assert(span_views(spans@) =~= wanted.take(0));
    while i < segments.len()
        invariant
            i <= segments@.len(),
            all == segment_views(segments@),
            wanted == segment_pieces(all, theme),
            span_views(spans@) == wanted.take(i as int),
        decreases segments@.len() - i,
    {
        assert(all[i as int] == segments@[i as int]@);
        let span = match &segments[i] {
            HelpSegment::Command(text) => Span::styled(text.as_str(), help_command_style(theme)),
            HelpSegment::Text(text) => Span::styled(text.as_str(), help_style(theme.text, theme)),
            HelpSegment::Muted(text) => Span::styled(text.as_str(), help_style(theme.muted, theme)),
        };
        assert(span@ == wanted[i as int]);
        let ghost before = spans@;
        spans.push(span);
        assert(span_views(spans@) =~= span_views(before).push(span@));
        assert(wanted.take(i + 1) =~= wanted.take(i as int).push(wanted[i as int]));
        i = i + 1;
    }
    assert(wanted.take(wanted.len() as int) =~= wanted);
    spans
}

/// Keys filled up to a width.
pub open spec fn padded_keys(keys: Seq<SegmentView>, key_width: int, theme: Theme) -> Seq<
    SpanView,
> {
    let padding = key_width - all_columns(keys);
    if padding > 0 {
        segment_pieces(keys, theme).push(piece(spaces(padding), help_style(theme.text, theme)))
    } else {
        segment_pieces(keys, theme)
    }
}

fn padded_help_key_spans(keys: &Vec<HelpSegment>, key_width: usize, theme: Theme) -> (spans: Vec<
    Span,
>)
    ensures
        span_views(spans@) == padded_keys(segment_views(keys@), key_width as int, theme),
{
    broadcast use group_line_views;

    let mut spans = help_spans(keys, theme);
    let padding: usize = key_width.saturating_sub(segments_width(keys));
    if padding > 0 {
        spans.push(Span::styled(spaces_of(padding).as_str(), help_style(theme.text, theme)));
    }
    spans
}

fn segments_width(segments: &Vec<HelpSegment>) -> (width: usize)
    ensures
        width == all_columns(segment_views(segments@)),
{
    let ghost all = segment_views(segments@);
    let mut width: usize = 0;
    let mut i: usize = 0;
    while i < segments.len()
        invariant
            i <= segments@.len(),
            all == segment_views(segments@),
            width == segments_columns(all, i as int),
        decreases segments@.len() - i,
    {
        assert(all[i as int] == segments@[i as int]@);
        let columns: usize = match &segments[i] {
            HelpSegment::Command(text) => display_width(text.as_str()),
            HelpSegment::Text(text) => display_width(text.as_str()),
            HelpSegment::Muted(text) => display_width(text.as_str()),
        };
        width = width.saturating_add(columns);
        i = i + 1;
    }
    width
}

} // verus!
