//! The data of a diff review session.

use vstd::prelude::*;

use crate::scroll_text::{greatest, least};

verus! {

/// A complete diff review session.
#[derive(Debug, PartialEq, Eq)]
pub struct Changeset {
    /// Human-readable title shown in the diff pane.
    pub title: String,
    /// Short description of the Git command or source refs behind the diff.
    pub source_label: String,
    /// Files in display order.
    pub files: Vec<DiffFile>,
}

/// One file entry in a parsed diff.
#[derive(Debug, PartialEq, Eq)]
pub struct DiffFile {
    /// Stable parser-assigned id used by the render cache.
    pub id: String,
    /// Path on the old side of the diff. Empty for additions when unavailable.
    pub old_path: String,
    /// Path on the new side of the diff. Empty for deletions when unavailable.
    pub path: String,
    /// Lazily loaded source prefix for the old side.
    pub old_source: SourceSnapshot,
    /// Lazily loaded source prefix for the new side.
    pub new_source: SourceSnapshot,
    pub status: FileStatus,
    pub stage: FileStage,
    pub additions: usize,
    pub deletions: usize,
    pub hunks: Vec<DiffHunk>,
    pub binary: bool,
}

/// Source text needed to seed syntax highlighting before a hunk.
#[derive(Debug, PartialEq, Eq)]
pub enum SourceSnapshot {
    /// Not requested yet.
    Unloaded,
    /// Requested, but Git or the filesystem could not provide it.
    Unavailable,
    /// Loaded source prefix.
    Loaded(String),
}

/// Git file status shown in the sidebar.
#[derive(Debug, Clone, Copy, PartialEq, Eq, Structural)]
pub enum FileStatus {
    Added,
    Deleted,
    Modified,
    Renamed,
    Copied,
}

/// Staging state for a worktree file.
#[derive(Debug, Clone, Copy, PartialEq, Eq, Structural)]
pub enum FileStage {
    Unstaged,
    Staged,
    Mixed,
}

/// A unified diff hunk.
#[derive(Debug, PartialEq, Eq)]
pub struct DiffHunk {
    pub header: String,
    pub old_start: u32,
    pub old_lines: u32,
    pub new_start: u32,
    pub new_lines: u32,
    pub stage: FileStage,
    pub lines: Vec<DiffLine>,
}

/// A single parsed line inside a diff hunk.
#[derive(Debug, PartialEq, Eq)]
pub struct DiffLine {
    pub kind: DiffLineKind,
    pub old_line: Option<u32>,
    pub new_line: Option<u32>,
    pub content: String,
}

/// Rendering and line-number semantics for a parsed hunk line.
#[derive(Debug, Clone, Copy, PartialEq, Eq, Structural)]
pub enum DiffLineKind {
    Context,
    Added,
    Removed,
    Meta,
}

/// What a [`Changeset`] holds.
pub struct ChangesetView {
    pub title: Seq<char>,
    pub source_label: Seq<char>,
    pub files: Seq<FileView>,
}

/// What a [`DiffFile`] holds.
pub struct FileView {
    pub id: Seq<char>,
    pub old_path: Seq<char>,
    pub path: Seq<char>,
    pub old_source: SourceView,
    pub new_source: SourceView,
    pub status: FileStatus,
    pub stage: FileStage,
    pub additions: nat,
    pub deletions: nat,
    pub hunks: Seq<HunkView>,
    pub binary: bool,
}

/// What a [`SourceSnapshot`] holds.
pub enum SourceView {
    Unloaded,
    Unavailable,
    Loaded(Seq<char>),
}

/// What a [`DiffHunk`] holds.
pub struct HunkView {
    pub header: Seq<char>,
    pub old_start: u32,
    pub old_lines: u32,
    pub new_start: u32,
    pub new_lines: u32,
    pub stage: FileStage,
    pub lines: Seq<LineView>,
}

/// What a [`DiffLine`] holds.
pub struct LineView {
    pub kind: DiffLineKind,
    pub old_line: Option<u32>,
    pub new_line: Option<u32>,
    pub content: Seq<char>,
}

impl View for DiffLine {
    type V = LineView;

    open spec fn view(&self) -> LineView {
        LineView {
            kind: self.kind,
            old_line: self.old_line,
            new_line: self.new_line,
            content: self.content@,
        }
    }
}

pub open spec fn line_views(lines: Seq<DiffLine>) -> Seq<LineView> {
    lines.map_values(|line: DiffLine| line@)
}

impl View for DiffHunk {
    type V = HunkView;

    open spec fn view(&self) -> HunkView {
        HunkView {
            header: self.header@,
            old_start: self.old_start,
            old_lines: self.old_lines,
            new_start: self.new_start,
            new_lines: self.new_lines,
            stage: self.stage,
            lines: line_views(self.lines@),
        }
    }
}

pub open spec fn hunk_views(hunks: Seq<DiffHunk>) -> Seq<HunkView> {
    hunks.map_values(|hunk: DiffHunk| hunk@)
}

impl View for SourceSnapshot {
    type V = SourceView;

    open spec fn view(&self) -> SourceView {
        match self {
            SourceSnapshot::Unloaded => SourceView::Unloaded,
            SourceSnapshot::Unavailable => SourceView::Unavailable,
            SourceSnapshot::Loaded(source) => SourceView::Loaded(source@),
        }
    }
}

impl View for DiffFile {
    type V = FileView;

    open spec fn view(&self) -> FileView {
        FileView {
            id: self.id@,
            old_path: self.old_path@,
            path: self.path@,
            old_source: self.old_source@,
            new_source: self.new_source@,
            status: self.status,
            stage: self.stage,
            additions: self.additions as nat,
            deletions: self.deletions as nat,
            hunks: hunk_views(self.hunks@),
            binary: self.binary,
        }
    }
}

pub open spec fn file_views(files: Seq<DiffFile>) -> Seq<FileView> {
    files.map_values(|file: DiffFile| file@)
}

impl View for Changeset {
    type V = ChangesetView;

    open spec fn view(&self) -> ChangesetView {
        ChangesetView {
            title: self.title@,
            source_label: self.source_label@,
            files: file_views(self.files@),
        }
    }
}

impl Clone for DiffLine {
    fn clone(&self) -> (copy: Self)
        ensures
            copy@ == self@,
    {
        DiffLine {
            kind: self.kind,
            old_line: self.old_line,
            new_line: self.new_line,
            content: self.content.clone(),
        }
    }
}

impl Clone for DiffHunk {
    fn clone(&self) -> (copy: Self)
        ensures
            copy@ == self@,
    {
        let copy = DiffHunk {
            header: self.header.clone(),
            old_start: self.old_start,
            old_lines: self.old_lines,
            new_start: self.new_start,
            new_lines: self.new_lines,
            stage: self.stage,
            lines: self.lines.clone(),
        };
        assert(line_views(copy.lines@) =~= line_views(self.lines@));
        copy
    }
}

impl Clone for SourceSnapshot {
    fn clone(&self) -> (copy: Self)
        ensures
            copy@ == self@,
    {
        match self {
            SourceSnapshot::Unloaded => SourceSnapshot::Unloaded,
            SourceSnapshot::Unavailable => SourceSnapshot::Unavailable,
            SourceSnapshot::Loaded(source) => SourceSnapshot::Loaded(source.clone()),
        }
    }
}

impl Clone for DiffFile {
    fn clone(&self) -> (copy: Self)
        ensures
            copy@ == self@,
    {
        let copy = DiffFile {
            id: self.id.clone(),
            old_path: self.old_path.clone(),
            path: self.path.clone(),
            old_source: self.old_source.clone(),
            new_source: self.new_source.clone(),
            status: self.status,
            stage: self.stage,
            additions: self.additions,
            deletions: self.deletions,
            hunks: self.hunks.clone(),
            binary: self.binary,
        };
        assert(hunk_views(copy.hunks@) =~= hunk_views(self.hunks@));
        copy
    }
}

impl Clone for Changeset {
    fn clone(&self) -> (copy: Self)
        ensures
            copy@ == self@,
    {
        let copy = Changeset {
            title: self.title.clone(),
            source_label: self.source_label.clone(),
            files: self.files.clone(),
        };
        assert(file_views(copy.files@) =~= file_views(self.files@));
        copy
    }
}

impl FileView {
    /// The new path, or the old one where the new one is empty.
    pub open spec fn shown_path(self) -> Seq<char> {
        if self.path.len() == 0 { self.old_path } else { self.path }
    }

    /// One row for the file header, one for each hunk header and one for each
    /// hunk line; a file without a text diff has one row of body.
    pub open spec fn row_count(self) -> nat {
        if self.binary || self.hunks.len() == 0 {
            2
        } else {
            1 + hunk_row_count(self.hunks)
        }
    }

    /// Line of the first change in the first hunk that changes anything.
    pub open spec fn first_change(self) -> Option<u32> {
        if self.binary { None } else { first_change_in_hunks(self.hunks) }
    }
}

/// Rows of the hunks: a header row and the lines of each.
pub open spec fn hunk_row_count(hunks: Seq<HunkView>) -> nat
    decreases hunks.len(),
{
    if hunks.len() == 0 {
        0
    } else {
        hunk_row_count(hunks.drop_last()) + hunks.last().lines.len() + 1
    }
}

/// New-side line of the first added or removed line among `lines`, where `next`
/// is the new-side line at which they start.
pub open spec fn first_change_in_lines(lines: Seq<LineView>, next: u32) -> Option<u32>
    decreases lines.len(),
{
    if lines.len() == 0 {
        None
    } else {
        let line = lines[0];
        let rest = lines.skip(1);
        match line.kind {
            DiffLineKind::Added => Some(
                match line.new_line {
                    Some(number) if number > 0 => number,
                    _ => next,
                },
            ),
            DiffLineKind::Removed => Some(next),
            DiffLineKind::Context => first_change_in_lines(
                rest,
                match line.new_line {
                    Some(number) => least(number + 1, u32::MAX as int) as u32,
                    None => next,
                },
            ),
            DiffLineKind::Meta => first_change_in_lines(rest, next),
        }
    }
}

/// New-side line of the first change in a hunk, counted from line one at least.
pub open spec fn first_change_in_hunk(hunk: HunkView) -> Option<u32> {
    first_change_in_lines(hunk.lines, greatest(hunk.new_start as int, 1) as u32)
}

pub open spec fn first_change_in_hunks(hunks: Seq<HunkView>) -> Option<u32>
    decreases hunks.len(),
{
    if hunks.len() == 0 {
        None
    } else {
        match first_change_in_hunk(hunks[0]) {
            Some(line) => Some(line),
            None => first_change_in_hunks(hunks.skip(1)),
        }
    }
}

impl DiffFile {
    /// User-facing path, falling back to the old path for deleted files.
    pub fn display_path(&self) -> (path: &str)
        ensures
            path@ == self@.shown_path(),
    {
        if self.path.as_str().is_empty() {
            self.old_path.as_str()
        } else {
            self.path.as_str()
        }
    }

    /// Number of unwrapped rows this diff would occupy, as far as it can be held.
    pub fn line_count(&self) -> (rows: usize)
        ensures
            rows == least(self@.row_count() as int, usize::MAX as int),
    {
        if self.binary || self.hunks.len() == 0 {
            return 2;
        }
        let ghost hunks = self@.hunks;
        let mut rows: usize = 1;
        let mut i: usize = 0;
        assert(hunks.take(0) =~= seq![]);
        while i < self.hunks.len()
            invariant
                i <= self.hunks@.len(),
                hunks == hunk_views(self.hunks@),
                rows == least(
                    1 + hunk_row_count(hunks.take(i as int)) as int,
                    usize::MAX as int,
                ),
            decreases self.hunks@.len() - i,
        {
            assert(hunks.take(i + 1).drop_last() =~= hunks.take(i as int));
            rows = rows.saturating_add(self.hunks[i].lines.len()).saturating_add(1);
            i = i + 1;
        }
        assert(hunks.take(hunks.len() as int) =~= hunks);
        rows
    }

    /// Best-effort line in the new file to place an external editor near.
    #[verifier::loop_isolation(false)]
    pub fn first_changed_line(&self) -> (line: Option<u32>)
        ensures
            line == self@.first_change(),
    {
        if self.binary {
            return None;
        }
        let ghost hunks = self@.hunks;
        let mut i: usize = 0;
        assert(hunks.skip(0) =~= hunks);
        while i < self.hunks.len()
            invariant
                i <= self.hunks@.len(),
                hunks == hunk_views(self.hunks@),
                first_change_in_hunks(hunks) == first_change_in_hunks(hunks.skip(i as int)),
            decreases self.hunks@.len() - i,
        {
            let line = first_changed_line_in_hunk(&self.hunks[i]);
            assert(hunks.skip(i as int)[0] == self.hunks@[i as int]@);
            assert(hunks.skip(i as int).skip(1) =~= hunks.skip(i + 1));
            if line.is_some() {
                return line;
            }
            i = i + 1;
        }
        None
    }
}

/// New-side line of the first change in a hunk.
#[verifier::loop_isolation(false)]
pub fn first_changed_line_in_hunk(hunk: &DiffHunk) -> (line: Option<u32>)
    ensures
        line == first_change_in_hunk(hunk@),
{
    let start: u32 = if hunk.new_start > 1 { hunk.new_start } else { 1 };
    let mut next_new_line: u32 = start;
    let ghost lines = hunk@.lines;
    let mut i: usize = 0;
    assert(lines.skip(0) =~= lines);
    while i < hunk.lines.len()
        invariant
            i <= hunk.lines@.len(),
            lines == line_views(hunk.lines@),
            first_change_in_lines(lines, start) == first_change_in_lines(
                lines.skip(i as int),
                next_new_line,
            ),
        decreases hunk.lines@.len() - i,
    {
        let line = &hunk.lines[i];
        assert(lines.skip(i as int)[0] == line@);
        assert(lines.skip(i as int).skip(1) =~= lines.skip(i + 1));
        match line.kind {
            DiffLineKind::Added => {
                return Some(valid_line_number(line.new_line, next_new_line));
            },
            DiffLineKind::Removed => {
                return Some(next_new_line);
            },
            DiffLineKind::Context => {
                if let Some(line_number) = line.new_line {
                    next_new_line = line_number.saturating_add(1);
                }
            },
            DiffLineKind::Meta => {},
        }
        i = i + 1;
    }
    None
}

fn valid_line_number(line: Option<u32>, fallback: u32) -> (number: u32)
    ensures
        number == (match line {
            Some(number) if number > 0 => number,
            _ => fallback,
        }),
{
    match line {
        Some(number) if number > 0 => number,
        _ => fallback,
    }
}

impl FileStage {
    /// Stage of a file with staged or unstaged changes.
    pub open spec fn of(staged: bool, unstaged: bool) -> FileStage {
        if staged && unstaged {
            FileStage::Mixed
        } else if staged {
            FileStage::Staged
        } else {
            FileStage::Unstaged
        }
    }

    pub fn from_staged_unstaged(staged: bool, unstaged: bool) -> (stage: Self)
        ensures
            stage == FileStage::of(staged, unstaged),
    {
        match (staged, unstaged) {
            (true, true) => FileStage::Mixed,
            (true, false) => FileStage::Staged,
            (false, _) => FileStage::Unstaged,
        }
    }
}

impl Default for SourceSnapshot {
    fn default() -> (snapshot: Self)
        ensures
            snapshot == SourceSnapshot::Unloaded,
    {
        SourceSnapshot::Unloaded
    }
}

impl SourceSnapshot {
    pub fn loaded(source: String) -> (snapshot: Self)
        ensures
            snapshot@ == SourceView::Loaded(source@),
    {
        SourceSnapshot::Loaded(source)
    }

    pub fn as_str(&self) -> (source: Option<&str>)
        ensures
            match self@ {
                SourceView::Loaded(text) => source is Some && source->0@ == text,
                _ => source is None,
            },
    {
        match self {
            SourceSnapshot::Loaded(source) => Some(source.as_str()),
            SourceSnapshot::Unloaded | SourceSnapshot::Unavailable => None,
        }
    }

    pub fn is_unloaded(&self) -> (unloaded: bool)
        ensures
            unloaded == (self@ is Unloaded),
    {
        matches!(self, SourceSnapshot::Unloaded)
    }
}

impl FileStatus {
    /// One-letter marker of the status.
    pub open spec fn letter(self) -> Seq<char> {
        match self {
            FileStatus::Added => "A"@,
            FileStatus::Deleted => "D"@,
            FileStatus::Modified => "M"@,
            FileStatus::Renamed => "R"@,
            FileStatus::Copied => "C"@,
        }
    }

    pub fn marker(self) -> (marker: &'static str)
        ensures
            marker@ == self.letter(),
    {
        match self {
            FileStatus::Added => "A",
            FileStatus::Deleted => "D",
            FileStatus::Modified => "M",
            FileStatus::Renamed => "R",
            FileStatus::Copied => "C",
        }
    }
}

} // verus!
