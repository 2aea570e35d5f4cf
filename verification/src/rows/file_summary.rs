//! Labels, icons and statistics of changed files.

use vstd::prelude::*;
use vstd::string::*;
use super::text::{display_width, text_width};

use crate::line::{group_line_views, piece, span_views, Span, SpanView};
use crate::model::{DiffFile, FileStage, FileStatus, FileView};
use crate::scroll_text::greatest;
use crate::style::{color_style, plain_style, Color, Modifier, Style};
use crate::text::{
    ascii_lower_all, base_name, basename, cat2, cat3, cat4, decimal, decimal_of, extension,
    extension_of, lower_ascii_text, same, spaces, spaces_of,
};
use crate::theme::Theme;

verus! {

/// How a staging state is shown.
#[derive(Debug, Clone, Copy)]
pub struct StageDisplay {
    pub suffix: &'static str,
    pub style: Style,
}

/// The counts of added and removed lines, those that are not zero.
pub open spec fn stat_pieces(file: FileView, background: Color, theme: Theme) -> Seq<SpanView> {
    let added = piece("+"@ + decimal(file.additions), color_style(theme.added, background));
    let gap = piece(" "@, plain_style().bg(background));
    let removed = piece("-"@ + decimal(file.deletions), color_style(theme.removed, background));
    if file.additions > 0 && file.deletions > 0 {
        seq![added, gap, removed]
    } else if file.additions > 0 {
        seq![added]
    } else if file.deletions > 0 {
        seq![removed]
    } else {
        seq![]
    }
}

pub fn push_stat_spans(spans: &mut Vec<Span>, file: &DiffFile, background: Color, theme: Theme)
    ensures
        span_views(final(spans)@) == span_views(old(spans)@) + stat_pieces(
            file@,
            background,
            theme,
        ),
{
    broadcast use group_line_views;

    let has_additions = file.additions > 0;
    let has_deletions = file.deletions > 0;
    if has_additions {
        let count = cat2("+", decimal_of(file.additions as u64).as_str());
        spans.push(Span::styled(count.as_str(), color_style(theme.added, background)));
    }
    if has_additions && has_deletions {
        spans.push(Span::styled(" ", plain_style().bg(background)));
    }
    if has_deletions {
        let count = cat2("-", decimal_of(file.deletions as u64).as_str());
        spans.push(Span::styled(count.as_str(), color_style(theme.removed, background)));
    }
    assert(span_views(spans@) =~= span_views(old(spans)@) + stat_pieces(
        file@,
        background,
        theme,
    ));
}

/// Whether a file moved or was copied to another path.
pub open spec fn path_changed(file: FileView) -> bool {
    (file.status is Renamed || file.status is Copied) && file.old_path != file.path
}

/// The path of a file, both paths where they differ.
pub open spec fn header_label(file: FileView) -> Seq<char> {
    if path_changed(file) {
        file.old_path + " -> "@ + file.path
    } else {
        file.shown_path()
    }
}

/// The name of a file, both names where its paths differ.
pub open spec fn sidebar_label(file: FileView) -> Seq<char> {
    if path_changed(file) {
        base_name(file.old_path) + " -> "@ + base_name(file.path)
    } else {
        base_name(file.shown_path())
    }
}

pub fn file_header_label(file: &DiffFile) -> (label: String)
    ensures
        label@ == header_label(file@),
{
    if has_path_change_label(file) {
        cat3(file.old_path.as_str(), " -> ", file.path.as_str())
    } else {
        file.display_path().to_owned()
    }
}

pub fn sidebar_file_label(file: &DiffFile) -> (label: String)
    ensures
        label@ == sidebar_label(file@),
{
    if has_path_change_label(file) {
        cat3(
            basename(file.old_path.as_str()).as_str(),
            " -> ",
            basename(file.path.as_str()).as_str(),
        )
    } else {
        basename(file.display_path())
    }
}

fn has_path_change_label(file: &DiffFile) -> (changed: bool)
    ensures
        changed == path_changed(file@),
{
    matches!(file.status, FileStatus::Renamed | FileStatus::Copied) && !same(
        file.old_path.as_str(),
        file.path.as_str(),
    )
}

/// Word for the status of a file behind its name.
pub open spec fn status_suffix(status: FileStatus) -> Seq<char> {
    match status {
        FileStatus::Added => " (new)"@,
        FileStatus::Deleted => " (deleted)"@,
        FileStatus::Copied => " (copied)"@,
        FileStatus::Renamed | FileStatus::Modified => ""@,
    }
}

pub fn file_status_suffix(status: FileStatus) -> (suffix: &'static str)
    ensures
        suffix@ == status_suffix(status),
{
    match status {
        FileStatus::Added => " (new)",
        FileStatus::Deleted => " (deleted)",
        FileStatus::Copied => " (copied)",
        FileStatus::Renamed | FileStatus::Modified => "",
    }
}

/// Color for the status of a file.
pub open spec fn color_of_status(status: FileStatus, theme: Theme) -> Color {
    match status {
        FileStatus::Added => theme.file_new,
        FileStatus::Deleted => theme.file_deleted,
        FileStatus::Renamed | FileStatus::Copied => theme.file_renamed,
        FileStatus::Modified => theme.file_modified,
    }
}

pub fn status_color(status: FileStatus, theme: Theme) -> (color: Color)
    ensures
        color == color_of_status(status, theme),
{
    match status {
        FileStatus::Added => theme.file_new,
        FileStatus::Deleted => theme.file_deleted,
        FileStatus::Renamed | FileStatus::Copied => theme.file_renamed,
        FileStatus::Modified => theme.file_modified,
    }
}

/// Nerd Font glyph marking a file as reviewed in the sidebar.
pub fn reviewed_glyph() -> (glyph: &'static str)
    ensures
        glyph@ == "\u{f00c}"@,
{
    "\u{f00c}"
}

/// A file's language or type, inferred from its path. Drives both the sidebar
/// glyph and its color so the two stay in sync.
#[derive(Debug, Clone, Copy, PartialEq, Eq, Structural)]
pub enum FileKind {
    Rust,
    TypeScript,
    React,
    JavaScript,
    Json,
    Python,
    Go,
    Ruby,
    Java,
    C,
    CHeader,
    Cpp,
    CSharp,
    Markdown,
    Html,
    Css,
    Sass,
    Vue,
    Shell,
    Config,
    Yaml,
    Text,
    Image,
    Lock,
    Generic,
}

impl FileKind {
    /// Glyph of the kind.
    pub open spec fn glyph(self) -> Seq<char> {
        match self {
            FileKind::Rust => "\u{e7a8}"@,
            FileKind::TypeScript => "\u{e628}"@,
            FileKind::React => "\u{e7ba}"@,
            FileKind::JavaScript => "\u{e74e}"@,
            FileKind::Json => "\u{e60b}"@,
            FileKind::Python => "\u{e606}"@,
            FileKind::Go => "\u{e627}"@,
            FileKind::Ruby => "\u{e21e}"@,
            FileKind::Java => "\u{e256}"@,
            FileKind::C => "\u{e61e}"@,
            FileKind::CHeader => "\u{f0fd}"@,
            FileKind::Cpp => "\u{e61d}"@,
            FileKind::CSharp => "\u{e648}"@,
            FileKind::Markdown => "\u{e609}"@,
            FileKind::Html => "\u{e736}"@,
            FileKind::Css => "\u{e749}"@,
            FileKind::Sass => "\u{e603}"@,
            FileKind::Vue => "\u{fd42}"@,
            FileKind::Shell => "\u{e795}"@,
            FileKind::Config => "\u{f013}"@,
            FileKind::Yaml => "\u{e615}"@,
            FileKind::Text => "\u{f15c}"@,
            FileKind::Image => "\u{f1c5}"@,
            FileKind::Lock => "\u{f023}"@,
            FileKind::Generic => "\u{f15b}"@,
        }
    }

    /// Color of the glyph.
    pub open spec fn glyph_color(self, theme: Theme) -> Color {
        match self {
            FileKind::Rust => theme.syntax.keyword,
            FileKind::TypeScript => theme.syntax.property,
            FileKind::React => theme.syntax.support,
            FileKind::JavaScript => theme.syntax.named_type,
            FileKind::Json => theme.syntax.list_marker,
            FileKind::Python => theme.syntax.link,
            FileKind::Go => theme.syntax.tag,
            FileKind::Ruby => theme.syntax.invalid,
            FileKind::Java => theme.syntax.regex,
            FileKind::C => theme.syntax.property,
            FileKind::CHeader => theme.syntax.namespace,
            FileKind::Cpp => theme.syntax.markup,
            FileKind::CSharp => theme.syntax.function,
            FileKind::Markdown => theme.syntax.markup,
            FileKind::Html => theme.syntax.regex,
            FileKind::Css => theme.syntax.link,
            FileKind::Sass => theme.syntax.label,
            FileKind::Vue => theme.syntax.string,
            FileKind::Shell => theme.syntax.string,
            FileKind::Config => theme.syntax.comment,
            FileKind::Yaml => theme.syntax.constant,
            FileKind::Text => theme.text,
            FileKind::Image => theme.syntax.constant,
            FileKind::Lock => theme.muted,
            FileKind::Generic => theme.muted,
        }
    }

    /// The kind that an extension in lower case stands for.
    pub open spec fn of_extension(ext: Seq<char>) -> FileKind {
        if ext == "rs"@ {
            FileKind::Rust
        } else if ext == "ts"@ {
            FileKind::TypeScript
        } else if ext == "tsx"@ || ext == "jsx"@ {
            FileKind::React
        } else if ext == "js"@ || ext == "mjs"@ || ext == "cjs"@ {
            FileKind::JavaScript
        } else if ext == "json"@ {
            FileKind::Json
        } else if ext == "py"@ {
            FileKind::Python
        } else if ext == "go"@ {
            FileKind::Go
        } else if ext == "rb"@ {
            FileKind::Ruby
        } else if ext == "java"@ {
            FileKind::Java
        } else if ext == "c"@ {
            FileKind::C
        } else if ext == "h"@ || ext == "hpp"@ || ext == "hh"@ {
            FileKind::CHeader
        } else if ext == "cpp"@ || ext == "cc"@ || ext == "cxx"@ {
            FileKind::Cpp
        } else if ext == "cs"@ {
            FileKind::CSharp
        } else if ext == "md"@ || ext == "markdown"@ {
            FileKind::Markdown
        } else if ext == "html"@ || ext == "htm"@ {
            FileKind::Html
        } else if ext == "css"@ {
            FileKind::Css
        } else if ext == "scss"@ || ext == "sass"@ {
            FileKind::Sass
        } else if ext == "vue"@ {
            FileKind::Vue
        } else if ext == "sh"@ || ext == "bash"@ || ext == "zsh"@ {
            FileKind::Shell
        } else if ext == "toml"@ || ext == "ini"@ || ext == "cfg"@ || ext == "conf"@ {
            FileKind::Config
        } else if ext == "yaml"@ || ext == "yml"@ {
            FileKind::Yaml
        } else if ext == "txt"@ {
            FileKind::Text
        } else if ext == "png"@ || ext == "jpg"@ || ext == "jpeg"@ || ext == "gif"@ || ext == "svg"@ || ext == "webp"@ {
            FileKind::Image
        } else if ext == "lock"@ {
            FileKind::Lock
        } else {
            FileKind::Generic
        }
    }

    /// The kind of the file at a path, by its extension in any case.
    pub open spec fn of_path(path: Seq<char>) -> FileKind {
        match extension_of(ascii_lower_all(base_name(path))) {
            Some(ext) => FileKind::of_extension(ext),
            None => FileKind::Generic,
        }
    }

    /// Nerd Font glyph hinting at the file's language or type.
    pub fn icon(self) -> (glyph: &'static str)
        ensures
            glyph@ == self.glyph(),
    {
        match self {
            FileKind::Rust => "\u{e7a8}",
            FileKind::TypeScript => "\u{e628}",
            FileKind::React => "\u{e7ba}",
            FileKind::JavaScript => "\u{e74e}",
            FileKind::Json => "\u{e60b}",
            FileKind::Python => "\u{e606}",
            FileKind::Go => "\u{e627}",
            FileKind::Ruby => "\u{e21e}",
            FileKind::Java => "\u{e256}",
            FileKind::C => "\u{e61e}",
            FileKind::CHeader => "\u{f0fd}",
            FileKind::Cpp => "\u{e61d}",
            FileKind::CSharp => "\u{e648}",
            FileKind::Markdown => "\u{e609}",
            FileKind::Html => "\u{e736}",
            FileKind::Css => "\u{e749}",
            FileKind::Sass => "\u{e603}",
            FileKind::Vue => "\u{fd42}",
            FileKind::Shell => "\u{e795}",
            FileKind::Config => "\u{f013}",
            FileKind::Yaml => "\u{e615}",
            FileKind::Text => "\u{f15c}",
            FileKind::Image => "\u{f1c5}",
            FileKind::Lock => "\u{f023}",
            FileKind::Generic => "\u{f15b}",
        }
    }

    /// Theme-aware color for the file-type icon. Colors are sourced from the
    /// active theme's syntax palette (plus a couple of base colors) so icons stay
    /// readable in every supported theme.
    pub fn color(self, theme: Theme) -> (color: Color)
        ensures
            color == self.glyph_color(theme),
    {
        match self {
            FileKind::Rust => theme.syntax.keyword,
            FileKind::TypeScript => theme.syntax.property,
            FileKind::React => theme.syntax.support,
            FileKind::JavaScript => theme.syntax.named_type,
            FileKind::Json => theme.syntax.list_marker,
            FileKind::Python => theme.syntax.link,
            FileKind::Go => theme.syntax.tag,
            FileKind::Ruby => theme.syntax.invalid,
            FileKind::Java => theme.syntax.regex,
            FileKind::C => theme.syntax.property,
            FileKind::CHeader => theme.syntax.namespace,
            FileKind::Cpp => theme.syntax.markup,
            FileKind::CSharp => theme.syntax.function,
            FileKind::Markdown => theme.syntax.markup,
            FileKind::Html => theme.syntax.regex,
            FileKind::Css => theme.syntax.link,
            FileKind::Sass => theme.syntax.label,
            FileKind::Vue => theme.syntax.string,
            FileKind::Shell => theme.syntax.string,
            FileKind::Config => theme.syntax.comment,
            FileKind::Yaml => theme.syntax.constant,
            FileKind::Text => theme.text,
            FileKind::Image => theme.syntax.constant,
            FileKind::Lock => theme.muted,
            FileKind::Generic => theme.muted,
        }
    }
}

/// Classifies a file path into a [`FileKind`] from its name and extension.
pub fn file_kind(path: &str) -> (kind: FileKind)
    ensures
        kind == FileKind::of_path(path@),
{
    let lowercased = lower_ascii_text(basename(path).as_str());
    match extension(lowercased.as_str()) {
        Some(ext) => kind_of_extension(ext.as_str()),
        None => FileKind::Generic,
    }
}

fn kind_of_extension(ext: &str) -> (kind: FileKind)
    ensures
        kind == FileKind::of_extension(ext@),
{
    if same(ext, "rs") {
        FileKind::Rust
    } else if same(ext, "ts") {
        FileKind::TypeScript
    } else if same(ext, "tsx") || same(ext, "jsx") {
        FileKind::React
    } else if same(ext, "js") || same(ext, "mjs") || same(ext, "cjs") {
        FileKind::JavaScript
    } else if same(ext, "json") {
        FileKind::Json
    } else if same(ext, "py") {
        FileKind::Python
    } else if same(ext, "go") {
        FileKind::Go
    } else if same(ext, "rb") {
        FileKind::Ruby
    } else if same(ext, "java") {
        FileKind::Java
    } else if same(ext, "c") {
        FileKind::C
    } else if same(ext, "h") || same(ext, "hpp") || same(ext, "hh") {
        FileKind::CHeader
    } else if same(ext, "cpp") || same(ext, "cc") || same(ext, "cxx") {
        FileKind::Cpp
    } else if same(ext, "cs") {
        FileKind::CSharp
    } else if same(ext, "md") || same(ext, "markdown") {
        FileKind::Markdown
    } else if same(ext, "html") || same(ext, "htm") {
        FileKind::Html
    } else if same(ext, "css") {
        FileKind::Css
    } else if same(ext, "scss") || same(ext, "sass") {
        FileKind::Sass
    } else if same(ext, "vue") {
        FileKind::Vue
    } else if same(ext, "sh") || same(ext, "bash") || same(ext, "zsh") {
        FileKind::Shell
    } else if same(ext, "toml") || same(ext, "ini") || same(ext, "cfg") || same(ext, "conf") {
        FileKind::Config
    } else if same(ext, "yaml") || same(ext, "yml") {
        FileKind::Yaml
    } else if same(ext, "txt") {
        FileKind::Text
    } else if same(ext, "png") || same(ext, "jpg") || same(ext, "jpeg") || same(ext, "gif") || same(ext, "svg") || same(ext, "webp") {
        FileKind::Image
    } else if same(ext, "lock") {
        FileKind::Lock
    } else {
        FileKind::Generic
    }
}

/// Nerd Font glyph hinting at a file's language or type from its path.
pub fn file_icon(path: &str) -> (glyph: &'static str)
    ensures
        glyph@ == FileKind::of_path(path@).glyph(),
{
    file_kind(path).icon()
}

/// Theme-aware color for a file's type icon, inferred from its path.
pub fn file_icon_color(path: &str, theme: Theme) -> (color: Color)
    ensures
        color == FileKind::of_path(path@).glyph_color(theme),
{
    file_kind(path).color(theme)
}

/// Words for a staging state.
pub open spec fn stage_suffix(stage: FileStage) -> Seq<char> {
    match stage {
        FileStage::Unstaged => "  \u{f10c} unstaged"@,
        FileStage::Staged => "  \u{f058} staged"@,
        FileStage::Mixed => "  \u{f056} mixed"@,
    }
}

/// Style of the words for a staging state.
pub open spec fn stage_style(stage: FileStage, background: Color, theme: Theme) -> Style {
    match stage {
        FileStage::Unstaged => color_style(theme.muted, background),
        FileStage::Staged => color_style(theme.added, background).add_modifier(Modifier::Bold),
        FileStage::Mixed => color_style(theme.accent, background).add_modifier(Modifier::Bold),
    }
}

pub fn stage_display(stage: FileStage, background: Color, theme: Theme) -> (display: StageDisplay)
    ensures
        display.suffix@ == stage_suffix(stage),
        display.style == stage_style(stage, background, theme),
{
    match stage {
        FileStage::Unstaged => StageDisplay {
            suffix: "  \u{f10c} unstaged",
            style: color_style(theme.muted, background),
        },
        FileStage::Staged => StageDisplay {
            suffix: "  \u{f058} staged",
            style: color_style(theme.added, background).add_modifier(Modifier::Bold),
        },
        FileStage::Mixed => StageDisplay {
            suffix: "  \u{f056} mixed",
            style: color_style(theme.accent, background).add_modifier(Modifier::Bold),
        },
    }
}

/// The text of the counts of added and removed lines.
pub open spec fn stats_text(file: FileView) -> Seq<char> {
    if file.additions > 0 && file.deletions > 0 {
        "+"@ + decimal(file.additions) + " -"@ + decimal(file.deletions)
    } else if file.additions > 0 {
        "+"@ + decimal(file.additions)
    } else if file.deletions > 0 {
        "-"@ + decimal(file.deletions)
    } else {
        seq![]
    }
}

pub fn format_file_stats(file: &DiffFile) -> (stats: String)
    ensures
        stats@ == stats_text(file@),
{
    if file.additions > 0 && file.deletions > 0 {
        cat4(
            "+",
            decimal_of(file.additions as u64).as_str(),
            " -",
            decimal_of(file.deletions as u64).as_str(),
        )
    } else if file.additions > 0 {
        cat2("+", decimal_of(file.additions as u64).as_str())
    } else if file.deletions > 0 {
        cat2("-", decimal_of(file.deletions as u64).as_str())
    } else {
        String::new()
    }
}

/// The spaces that push the counts to the right end of a row: one at least,
/// none where there are no counts.
pub open spec fn stats_padding(content_width: int, used_width: int, stats_width: int) -> Seq<
    char,
> {
    if stats_width == 0 { seq![] } else { spaces(greatest(content_width - used_width, 1)) }
}

pub fn padding_before_stats(
    content_width: usize,
    used_width: usize,
    stats_width: usize,
) -> (padding: String)
    ensures
        padding@ == stats_padding(content_width as int, used_width as int, stats_width as int),
{
    if stats_width == 0 {
        String::new()
    } else {
        let gap: usize = content_width.saturating_sub(used_width);
        spaces_of(if gap > 1 { gap } else { 1 })
    }
}

pub fn stats_width(stats: &str) -> (width: usize)
    ensures
        width == text_width(stats@),
{
    display_width(stats)
}

} // verus!
