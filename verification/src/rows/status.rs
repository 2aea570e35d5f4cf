//! Status lines above the diff and the key hints below it.

use vstd::prelude::*;
use vstd::string::*;
use super::diff::message_rows;
use super::text::{muted_line, printable_ascii, wrap_line, wrapped_row};

use crate::custom_command::CustomCommandBinding;
use crate::diff_render::str_option;
use crate::keybind::{key_name, BuiltinAction, KeybindMap};
use crate::line::{
    group_line_views, piece, row, row_views, span_views, styled_row, Line, RowView, Span, SpanView,
};
use crate::search::{SearchStatus, SearchStatusView};
use crate::style::{color_style, Color, Modifier, Style};
use crate::text::{cat2, cat3, decimal, decimal_of};
use crate::theme::Theme;

verus! {

/// Rows rendered ahead of the visible ones.
pub const DIFF_PREFETCH_ROWS: usize = 120;

/// The text in quotes, with escapes, as `str` is debug-formatted.
pub uninterp spec fn quoted(text: Seq<char>) -> Seq<char>;

/// Whether debug formatting leaves every character of a text as it is.
pub open spec fn needs_no_escape(text: Seq<char>) -> bool {
    printable_ascii(text) && !text.contains('"') && !text.contains('\\')
}

/// `<str as Debug>::fmt`: the text in quotes, with escapes for quotes, backslashes
/// and what cannot be printed. It depends on the text alone; other printable ASCII
/// text stands between the quotes as it is.
#[verifier::external_body]
fn debug_quoted(text: &str) -> (shown: String)
    ensures
        shown@ == quoted(text@),
        needs_no_escape(text@) ==> shown@ == seq!['"'] + text@ + seq!['"'],
{
    format!("{text:?}")
}

/// Nothing where there is no text, else its wrapped rows in a color.
pub open spec fn colored_rows(text: Option<Seq<char>>, color: Color, width: int, theme: Theme) -> Seq<
    RowView,
> {
    match text {
        Some(inner) => wrapped_row(
            styled_row(inner, color_style(color, theme.background)),
            width,
        ),
        None => seq![],
    }
}

fn colored_lines(text: &str, color: Color, content_width: usize, theme: Theme) -> (lines: Vec<Line>)
    ensures
        row_views(lines@) == colored_rows(Some(text@), color, content_width as int, theme),
{
    wrap_line(Line::styled(text, color_style(color, theme.background)), content_width)
}

fn no_lines() -> (lines: Vec<Line>)
    ensures
        row_views(lines@) == Seq::<RowView>::empty(),
{
    let lines: Vec<Line> = Vec::new();
    assert(row_views(lines@) =~= Seq::<RowView>::empty());
    lines
}

/// What is shown where there is no diff.
pub fn no_diff_lines(message: &str, content_width: usize, theme: Theme) -> (lines: Vec<Line>)
    ensures
        row_views(lines@) == message_rows(message@, content_width as int, theme),
{
    wrap_line(muted_line(message, theme), content_width)
}

/// The error, else the notice.
pub fn live_status_lines(
    error: Option<&str>,
    notice: Option<&str>,
    content_width: usize,
    theme: Theme,
) -> (lines: Vec<Line>)
    ensures
        row_views(lines@) == live_status_rows(
            str_option(error),
            str_option(notice),
            content_width as int,
            theme,
        ),
{
    match (error, notice) {
        (Some(message), _) => colored_lines(
            cat2("! ", message).as_str(),
            theme.removed,
            content_width,
            theme,
        ),
        (None, Some(message)) => colored_lines(
            cat2("ok ", message).as_str(),
            theme.accent,
            content_width,
            theme,
        ),
        (None, None) => no_lines(),
    }
}

pub open spec fn live_status_rows(
    error: Option<Seq<char>>,
    notice: Option<Seq<char>>,
    width: int,
    theme: Theme,
) -> Seq<RowView> {
    match (error, notice) {
        (Some(message), _) => colored_rows(Some("! "@ + message), theme.removed, width, theme),
        (None, Some(message)) => colored_rows(Some("ok "@ + message), theme.accent, width, theme),
        (None, None) => seq![],
    }
}

pub open spec fn discard_status_rows(prompt: Option<Seq<char>>, width: int, theme: Theme) -> Seq<
    RowView,
> {
    match prompt {
        Some(text) => colored_rows(
            Some("! "@ + text + "  y/Enter confirm  Esc/n cancel"@),
            theme.removed,
            width,
            theme,
        ),
        None => seq![],
    }
}

/// The question whether to discard.
pub fn discard_status_lines(prompt: Option<&str>, content_width: usize, theme: Theme) -> (lines: Vec<
    Line,
>)
    ensures
        row_views(lines@) == discard_status_rows(
            str_option(prompt),
            content_width as int,
            theme,
        ),
{
    match prompt {
        Some(text) => colored_lines(
            cat3("! ", text, "  y/Enter confirm  Esc/n cancel").as_str(),
            theme.removed,
            content_width,
            theme,
        ),
        None => no_lines(),
    }
}

/// One of the ten pictures of a spinner.
pub open spec fn spinner(frame: int) -> Seq<char> {
    let at = frame % 10;
    if at == 0 {
        "\u{280b}"@
    } else if at == 1 {
        "\u{2819}"@
    } else if at == 2 {
        "\u{2839}"@
    } else if at == 3 {
        "\u{2838}"@
    } else if at == 4 {
        "\u{283c}"@
    } else if at == 5 {
        "\u{2834}"@
    } else if at == 6 {
        "\u{2826}"@
    } else if at == 7 {
        "\u{2827}"@
    } else if at == 8 {
        "\u{2807}"@
    } else {
        "\u{280f}"@
    }
}

fn spinner_picture(frame: usize) -> (picture: &'static str)
    ensures
        picture@ == spinner(frame as int),
{
    match frame % 10 {
        0 => "\u{280b}",
        1 => "\u{2819}",
        2 => "\u{2839}",
        3 => "\u{2838}",
        4 => "\u{283c}",
        5 => "\u{2834}",
        6 => "\u{2826}",
        7 => "\u{2827}",
        8 => "\u{2807}",
        _ => "\u{280f}",
    }
}

pub open spec fn command_running_rows(
    label: Option<Seq<char>>,
    frame: int,
    cancelling: bool,
    width: int,
    theme: Theme,
) -> Seq<RowView> {
    match label {
        Some(name) => colored_rows(
            Some(
                spinner(frame) + if cancelling {
                    " Cancelling command: "@
                } else {
                    " Running command: "@
                } + name,
            ),
            theme.accent,
            width,
            theme,
        ),
        None => seq![],
    }
}

/// The command that is running.
pub fn custom_command_running_lines(
    command: Option<&CustomCommandBinding>,
    spinner_frame: usize,
    cancelling: bool,
    content_width: usize,
    theme: Theme,
) -> (lines: Vec<Line>)
    ensures
        row_views(lines@) == command_running_rows(
            match command {
                Some(binding) => Some(binding@.label),
                None => None,
            },
            spinner_frame as int,
            cancelling,
            content_width as int,
            theme,
        ),
{
    match command {
        Some(binding) => {
            let status = if cancelling { " Cancelling command: " } else { " Running command: " };
            colored_lines(
                cat3(spinner_picture(spinner_frame), status, binding.label()).as_str(),
                theme.accent,
                content_width,
                theme,
            )
        },
        None => no_lines(),
    }
}

pub open spec fn ask_ai_prompt_rows(input: Option<Seq<char>>, width: int, theme: Theme) -> Seq<
    RowView,
> {
    match input {
        Some(text) => colored_rows(
            Some(
                if text.len() == 0 {
                    "Ask AI: type a question, Enter submit, Esc cancel"@
                } else {
                    "Ask AI: "@ + text
                },
            ),
            theme.accent,
            width,
            theme,
        ),
        None => seq![],
    }
}

/// The question that is being typed.
pub fn ask_ai_prompt_lines(input: Option<&str>, content_width: usize, theme: Theme) -> (lines: Vec<
    Line,
>)
    ensures
        row_views(lines@) == ask_ai_prompt_rows(str_option(input), content_width as int, theme),
{
    match input {
        Some(text) => {
            let shown = if text.is_empty() {
                "Ask AI: type a question, Enter submit, Esc cancel".to_owned()
            } else {
                cat2("Ask AI: ", text)
            };
            colored_lines(shown.as_str(), theme.accent, content_width, theme)
        },
        None => no_lines(),
    }
}

pub open spec fn ask_ai_running_rows(
    question: Option<Seq<char>>,
    frame: int,
    cancelling: bool,
    width: int,
    theme: Theme,
) -> Seq<RowView> {
    match question {
        Some(text) => colored_rows(
            Some(
                spinner(frame) + if cancelling { " Cancelling Ask AI: "@ } else { " Asking AI: "@ }
                    + text,
            ),
            theme.accent,
            width,
            theme,
        ),
        None => seq![],
    }
}

/// The question that is being answered.
pub fn ask_ai_running_lines(
    question: Option<&str>,
    spinner_frame: usize,
    cancelling: bool,
    content_width: usize,
    theme: Theme,
) -> (lines: Vec<Line>)
    ensures
        row_views(lines@) == ask_ai_running_rows(
            str_option(question),
            spinner_frame as int,
            cancelling,
            content_width as int,
            theme,
        ),
{
    match question {
        Some(text) => {
            let status = if cancelling { " Cancelling Ask AI: " } else { " Asking AI: " };
            colored_lines(
                cat3(spinner_picture(spinner_frame), status, text).as_str(),
                theme.accent,
                content_width,
                theme,
            )
        },
        None => no_lines(),
    }
}

/// The text about a search, where its query is shown as given.
pub open spec fn search_status_text(status: SearchStatusView, shown_query: Seq<char>) -> Seq<char> {
    match status {
        SearchStatusView::Prompt { input } => if input.len() == 0 {
            "/ type search, Enter to apply, Esc to cancel"@
        } else {
            "/ "@ + input
        },
        SearchStatusView::Active { query, active, total } => if total == 0 {
            "Search: "@ + shown_query + "  no matches"@
        } else {
            "Search: "@ + shown_query + "  "@ + decimal(
                match active {
                    Some(number) => number as nat,
                    None => 0,
                },
            ) + "/"@ + decimal(total as nat) + "  [n/N] next/prev  [Esc] clear"@
        },
    }
}

/// The query of a search that is shown.
pub open spec fn status_query(status: SearchStatusView) -> Seq<char> {
    match status {
        SearchStatusView::Prompt { input } => input,
        SearchStatusView::Active { query, .. } => query,
    }
}

/// The text about a search, where its query is shown as given.
pub fn search_status_message(status: SearchStatus<'_>, shown_query: &str) -> (text: String)
    ensures
        text@ == search_status_text(status@, shown_query@),
{
    match status {
        SearchStatus::Prompt { input } => if input.is_empty() {
            "/ type search, Enter to apply, Esc to cancel".to_owned()
        } else {
            cat2("/ ", input)
        },
        SearchStatus::Active { query: _, active, total } => if total == 0 {
            cat3("Search: ", shown_query, "  no matches")
        } else {
            let number: usize = match active {
                Some(number) => number,
                None => 0,
            };
            let mut text = cat3("Search: ", shown_query, "  ");
            text.append(decimal_of(number as u64).as_str());
            text.append("/");
            text.append(decimal_of(total as u64).as_str());
            text.append("  [n/N] next/prev  [Esc] clear");
            text
        },
    }
}

pub open spec fn search_status_rows(status: Option<SearchStatusView>, width: int, theme: Theme) -> Seq<
    RowView,
> {
    match status {
        Some(shown) => colored_rows(
            Some(search_status_text(shown, quoted(status_query(shown)))),
            theme.accent,
            width,
            theme,
        ),
        None => seq![],
    }
}

/// What is searched for, and how many matches there are.
pub fn search_status_lines(
    status: Option<SearchStatus<'_>>,
    content_width: usize,
    theme: Theme,
) -> (lines: Vec<Line>)
    ensures
        row_views(lines@) == search_status_rows(
            match status {
                Some(shown) => Some(shown@),
                None => None,
            },
            content_width as int,
            theme,
        ),
{
    match status {
        Some(shown) => {
            let query = match shown {
                SearchStatus::Prompt { input } => input,
                SearchStatus::Active { query, .. } => query,
            };
            let quoted_query = debug_quoted(query);
            colored_lines(
                search_status_message(shown, quoted_query.as_str()).as_str(),
                theme.accent,
                content_width,
                theme,
            )
        },
        None => no_lines(),
    }
}

/// Style of a key in a hint.
pub open spec fn key_style(theme: Theme) -> Style {
    color_style(theme.on_accent, theme.accent).add_modifier(Modifier::Bold)
}

pub open spec fn hint_label_style(theme: Theme) -> Style {
    color_style(theme.muted, theme.background)
}

/// A key and what it does.
pub open spec fn hint(key: Seq<char>, label: Seq<char>, theme: Theme) -> Seq<SpanView> {
    seq![
        piece(" "@ + key + " "@, key_style(theme)),
        piece(" "@ + label, hint_label_style(theme)),
    ]
}

pub open spec fn hint_separator(theme: Theme) -> SpanView {
    piece("  \u{b7}  "@, color_style(theme.border, theme.background))
}

/// The first `n` hints, with separators between them.
pub open spec fn hint_pieces(hints: Seq<(Seq<char>, Seq<char>)>, n: int, theme: Theme) -> Seq<
    SpanView,
>
    decreases n,
{
    if n <= 0 {
        seq![]
    } else {
        let before = hint_pieces(hints, n - 1, theme);
        let separated = if n > 1 { before.push(hint_separator(theme)) } else { before };
        separated + hint(hints[n - 1].0, hints[n - 1].1, theme)
    }
}

/// The tag of a mode.
pub open spec fn tag_pieces(tag: Seq<char>, theme: Theme) -> Seq<SpanView> {
    seq![
        piece(tag, key_style(theme)),
        piece("\u{e0b0}"@, color_style(theme.accent, theme.background)),
    ]
}

pub open spec fn pair_name(keybinds: KeybindMap, a: BuiltinAction, b: BuiltinAction) -> Seq<char> {
    key_name(keybinds.bound(a)) + "/"@ + key_name(keybinds.bound(b))
}

/// A key and what it does.
pub struct KeyHint {
    pub key: String,
    pub label: &'static str,
}

pub open spec fn hint_views(hints: Seq<KeyHint>) -> Seq<(Seq<char>, Seq<char>)> {
    hints.map_values(|hint: KeyHint| (hint.key@, hint.label@))
}

fn push_hint(hints: &mut Vec<KeyHint>, key: String, label: &'static str)
    ensures
        hint_views(final(hints)@) == hint_views(old(hints)@).push((key@, label@)),
{
    hints.push(KeyHint { key, label });
    assert(hint_views(hints@) =~= hint_views(old(hints)@).push((key@, label@)));
}

fn push_hints(spans: &mut Vec<Span>, hints: &Vec<KeyHint>, theme: Theme)
    ensures
        span_views(final(spans)@) == span_views(old(spans)@) + hint_pieces(
            hint_views(hints@),
            hints@.len() as int,
            theme,
        ),
{
    broadcast use group_line_views;

    let ghost before = span_views(spans@);
    let ghost all = hint_views(hints@);
    let separator_style = color_style(theme.border, theme.background);
    let mut i: usize = 0;
    assert(before + hint_pieces(all, 0, theme) =~= before);
    while i < hints.len()
        invariant
            i <= hints@.len(),
            all == hint_views(hints@),
            separator_style == color_style(theme.border, theme.background),
            span_views(spans@) == before + hint_pieces(all, i as int, theme),
        decreases hints@.len() - i,
    {
        let ghost start = span_views(spans@);
        if i > 0 {
            let separator = Span::styled("  \u{b7}  ", separator_style);
            spans.push(separator);
            assert(span_views(spans@) =~= start.push(separator@));
        }
        let ghost separated = span_views(spans@);
        push_key_hint(spans, hints[i].key.as_str(), hints[i].label, theme);
        proof {
            assert(all[i as int] == (hints@[i as int].key@, hints@[i as int].label@));
            let shown = hint_pieces(all, i as int, theme);
            let apart = if i > 0 { shown.push(hint_separator(theme)) } else { shown };
            let last = hint(all[i as int].0, all[i as int].1, theme);
            assert(hint_pieces(all, i + 1, theme) == apart + last);
            assert(separated =~= before + apart);
            assert(separated + last =~= before + (apart + last));
        }
        i = i + 1;
    }
}

fn push_key_hint(spans: &mut Vec<Span>, key: &str, label: &str, theme: Theme)
    ensures
        span_views(final(spans)@) == span_views(old(spans)@) + hint(key@, label@, theme),
{
    broadcast use group_line_views;

    let style = color_style(theme.on_accent, theme.accent).add_modifier(Modifier::Bold);
    spans.push(Span::styled(cat3(" ", key, " ").as_str(), style));
    spans.push(
        Span::styled(cat2(" ", label).as_str(), color_style(theme.muted, theme.background)),
    );
    assert(span_views(spans@) =~= span_views(old(spans)@) + hint(key@, label@, theme));
}

fn tag_spans(tag: &str, theme: Theme) -> (spans: Vec<Span>)
    ensures
        span_views(spans@) == tag_pieces(tag@, theme),
{
    broadcast use group_line_views;

    let mut spans: Vec<Span> = Vec::new();
    spans.push(
        Span::styled(
            tag,
            color_style(theme.on_accent, theme.accent).add_modifier(Modifier::Bold),
        ),
    );
    spans.push(Span::styled("\u{e0b0}", color_style(theme.accent, theme.background)));
    assert(span_views(spans@) =~= tag_pieces(tag@, theme));
    spans
}

fn key_pair(keybinds: KeybindMap, first: BuiltinAction, second: BuiltinAction) -> (names: String)
    ensures
        names@ == pair_name(keybinds, first, second),
{
    cat3(keybinds.display(first).as_str(), "/", keybinds.display(second).as_str())
}

/// The hints below a review.
pub open spec fn review_hints(
    files_visible: bool,
    stage_hint: Option<Seq<char>>,
    keybinds: KeybindMap,
) -> Seq<(Seq<char>, Seq<char>)> {
    let files = seq![
        (
            key_name(keybinds.bound(BuiltinAction::ToggleFiles)),
            if files_visible { "hide files"@ } else { "show files"@ },
        ),
    ];
    let focus = if files_visible { files.push(("Tab"@, "focus"@)) } else { files };
    let staged = match stage_hint {
        Some(label) => focus.push(
            (key_name(keybinds.bound(BuiltinAction::ToggleStaging)), label),
        ),
        None => focus,
    };
    staged.push((key_name(keybinds.bound(BuiltinAction::Search)), "search"@)).push(
        (pair_name(keybinds, BuiltinAction::MoveDown, BuiltinAction::MoveUp), "move"@),
    ).push((key_name(keybinds.bound(BuiltinAction::Help)), "help"@)).push(
        (key_name(keybinds.bound(BuiltinAction::Quit)), "quit"@),
    )
}

pub open spec fn all_hints(hints: Seq<(Seq<char>, Seq<char>)>, theme: Theme) -> Seq<SpanView> {
    hint_pieces(hints, hints.len() as int, theme)
}

/// The key hints below a review.
pub fn keybind_bar_line(
    files_panel_visible: bool,
    stage_hint: Option<&'static str>,
    keybinds: KeybindMap,
    theme: Theme,
) -> (line: Line)
    ensures
        line@ == row(
            all_hints(review_hints(files_panel_visible, str_option(stage_hint), keybinds), theme),
        ),
{
    let mut hints: Vec<KeyHint> = Vec::new();
    assert(hint_views(hints@) =~= seq![]);
    let files_label = if files_panel_visible { "hide files" } else { "show files" };
    push_hint(&mut hints, keybinds.display(BuiltinAction::ToggleFiles), files_label);
    if files_panel_visible {
        push_hint(&mut hints, "Tab".to_owned(), "focus");
    }
    if let Some(label) = stage_hint {
        push_hint(&mut hints, keybinds.display(BuiltinAction::ToggleStaging), label);
    }
    push_hint(&mut hints, keybinds.display(BuiltinAction::Search), "search");
    push_hint(
        &mut hints,
        key_pair(keybinds, BuiltinAction::MoveDown, BuiltinAction::MoveUp),
        "move",
    );
    push_hint(&mut hints, keybinds.display(BuiltinAction::Help), "help");
    push_hint(&mut hints, keybinds.display(BuiltinAction::Quit), "quit");
    let ghost wanted = review_hints(files_panel_visible, str_option(stage_hint), keybinds);
    assert(hint_views(hints@) =~= wanted);
    let mut spans: Vec<Span> = Vec::new();
    assert(span_views(spans@) =~= seq![]);
    assert(hints@.len() == wanted.len());
    push_hints(&mut spans, &hints, theme);
    assert(span_views(spans@) =~= all_hints(wanted, theme));
    Line::of(spans)
}

/// The tag of the review mode.
pub fn keybind_mode_tag_line(can_stage: bool, theme: Theme) -> (line: Line)
    ensures
        line@ == row(tag_pieces(if can_stage { " DIFF "@ } else { " REVIEW "@ }, theme)),
{
    Line::of(tag_spans(if can_stage { " DIFF " } else { " REVIEW " }, theme))
}

/// A row of a tag and hints.
pub open spec fn tagged_row(tag: Seq<char>, hints: Seq<(Seq<char>, Seq<char>)>, theme: Theme) -> RowView {
    row(tag_pieces(tag, theme).push(piece("  "@, hint_label_style(theme))) + all_hints(hints, theme))
}

fn tagged_keybind_bar_line(tag: &str, hints: &Vec<KeyHint>, theme: Theme) -> (line: Line)
    ensures
        line@ == tagged_row(tag@, hint_views(hints@), theme),
{
    broadcast use group_line_views;

    let mut spans = tag_spans(tag, theme);
    spans.push(Span::styled("  ", color_style(theme.muted, theme.background)));
    assert(hint_views(hints@).len() == hints@.len());
    push_hints(&mut spans, hints, theme);
    Line::of(spans)
}

/// The key hints below a question.
pub fn ask_ai_prompt_keybind_bar_line(theme: Theme) -> (line: Line)
    ensures
        line@ == tagged_row(
            " ASK AI "@,
            seq![("Enter"@, "submit"@), ("Esc"@, "cancel"@)],
            theme,
        ),
{
    let mut hints: Vec<KeyHint> = Vec::new();
    assert(hint_views(hints@) =~= seq![]);
    push_hint(&mut hints, "Enter".to_owned(), "submit");
    push_hint(&mut hints, "Esc".to_owned(), "cancel");
    assert(hint_views(hints@) =~= seq![("Enter"@, "submit"@), ("Esc"@, "cancel"@)]);
    tagged_keybind_bar_line(" ASK AI ", &hints, theme)
}

/// The key hints below a question that is being answered.
pub fn ask_ai_running_keybind_bar_line(keybinds: KeybindMap, theme: Theme) -> (line: Line)
    ensures
        line@ == tagged_row(
            " ASK AI "@,
            seq![
                ("Esc/"@ + key_name(keybinds.bound(BuiltinAction::Quit)), "cancel"@),
                ("Ctrl-c"@, "quit"@),
            ],
            theme,
        ),
{
    let mut hints: Vec<KeyHint> = Vec::new();
    assert(hint_views(hints@) =~= seq![]);
    let cancel = cat2("Esc/", keybinds.display(BuiltinAction::Quit).as_str());
    push_hint(&mut hints, cancel, "cancel");
    push_hint(&mut hints, "Ctrl-c".to_owned(), "quit");
    assert(hint_views(hints@) =~= seq![
        ("Esc/"@ + key_name(keybinds.bound(BuiltinAction::Quit)), "cancel"@),
        ("Ctrl-c"@, "quit"@),
    ]);
    tagged_keybind_bar_line(" ASK AI ", &hints, theme)
}

/// The key hints below a command that is running.
pub fn custom_command_running_keybind_bar_line(keybinds: KeybindMap, theme: Theme) -> (line: Line)
    ensures
        line@ == tagged_row(
            " COMMAND "@,
            seq![
                (
                    "Esc/"@ + key_name(keybinds.bound(BuiltinAction::Quit)) + "/Ctrl-c"@,
                    "cancel"@,
                ),
            ],
            theme,
        ),
{
    let mut hints: Vec<KeyHint> = Vec::new();
    assert(hint_views(hints@) =~= seq![]);
    let cancel = cat3("Esc/", keybinds.display(BuiltinAction::Quit).as_str(), "/Ctrl-c");
    push_hint(&mut hints, cancel, "cancel");
    assert(hint_views(hints@) =~= seq![
        ("Esc/"@ + key_name(keybinds.bound(BuiltinAction::Quit)) + "/Ctrl-c"@, "cancel"@),
    ]);
    tagged_keybind_bar_line(" COMMAND ", &hints, theme)
}

/// The hints below an output.
pub open spec fn output_hints(with_copy: bool, keybinds: KeybindMap) -> Seq<
    (Seq<char>, Seq<char>),
> {
    let scroll = seq![
        (pair_name(keybinds, BuiltinAction::MoveDown, BuiltinAction::MoveUp), "scroll"@),
        ("Ctrl-d/Ctrl-u"@, "page"@),
        (pair_name(keybinds, BuiltinAction::Top, BuiltinAction::Bottom), "top/bottom"@),
    ];
    let copy = if with_copy {
        scroll.push((key_name(keybinds.bound(BuiltinAction::CopyFocused)), "copy"@))
    } else {
        scroll
    };
    copy.push(("Esc/"@ + key_name(keybinds.bound(BuiltinAction::Quit)), "close"@))
}

fn output_keybind_bar_line(tag: &str, with_copy: bool, keybinds: KeybindMap, theme: Theme) -> (line: Line)
    ensures
        line@ == tagged_row(tag@, output_hints(with_copy, keybinds), theme),
{
    let mut hints: Vec<KeyHint> = Vec::new();
    assert(hint_views(hints@) =~= seq![]);
    push_hint(
        &mut hints,
        key_pair(keybinds, BuiltinAction::MoveDown, BuiltinAction::MoveUp),
        "scroll",
    );
    push_hint(&mut hints, "Ctrl-d/Ctrl-u".to_owned(), "page");
    push_hint(
        &mut hints,
        key_pair(keybinds, BuiltinAction::Top, BuiltinAction::Bottom),
        "top/bottom",
    );
    if with_copy {
        push_hint(&mut hints, keybinds.display(BuiltinAction::CopyFocused), "copy");
    }
    let close = cat2("Esc/", keybinds.display(BuiltinAction::Quit).as_str());
    push_hint(&mut hints, close, "close");
    assert(hint_views(hints@) =~= output_hints(with_copy, keybinds));
    tagged_keybind_bar_line(tag, &hints, theme)
}

/// The key hints below an answer.
pub fn ask_ai_output_keybind_bar_line(keybinds: KeybindMap, theme: Theme) -> (line: Line)
    ensures
        line@ == tagged_row(" ASK AI "@, output_hints(true, keybinds), theme),
{
    output_keybind_bar_line(" ASK AI ", true, keybinds, theme)
}

/// The key hints below the output of a command.
pub fn custom_command_output_keybind_bar_line(keybinds: KeybindMap, theme: Theme) -> (line: Line)
    ensures
        line@ == tagged_row(" COMMAND "@, output_hints(false, keybinds), theme),
{
    output_keybind_bar_line(" COMMAND ", false, keybinds, theme)
}

} // verus!
