//! Unified diff parser.
//!
//! The parser accepts Git-style unified patch text and returns model values. It
//! does not run Git and does not perform terminal formatting.

use vstd::prelude::*;
use vstd::string::*;

use crate::model::{
    file_views, hunk_views, line_views, Changeset, ChangesetView, DiffFile, DiffHunk, DiffLine,
    DiffLineKind, FileStage, FileStatus, FileView, HunkView, LineView, SourceSnapshot, SourceView,
};
use crate::quoting::{
    needs_quotes, path_without_quotes, plain_path, quote_is_special, quote_path, quoted_path,
    quoted_text_is_read, quoted_words_are_words, quoting_is_undone, read_word, two_quoted_words,
    unquote, unquoted, word_end,
};
use crate::text::{
    after, cat2, cat3, cat5, chars_of, decimal, decimal_of, is_white, lines, lines_of,
    lines_of_both, nothing_to_trim, parse_u32, parsed_u32, pieces, pieces_of_one_or_two, same,
    split, stands_at, starts_with, string_between, strip_prefix, texts, trim, trim_matches,
    trimmed, unwrapped_end, unwrapped_start, white_from, without_prefix, words, words_of,
    written_number_is_read,
};

verus! {

/// Start and length of the two sides of a hunk.
#[derive(Debug, Clone, Copy, PartialEq, Eq, Structural)]
pub struct HunkRange {
    pub old_start: u32,
    pub old_lines: u32,
    pub new_start: u32,
    pub new_lines: u32,
}

/// Start and length of one side of a hunk.
#[derive(Debug, Clone, Copy, PartialEq, Eq, Structural)]
pub struct LineRange {
    pub start: u32,
    pub lines: u32,
}

/// A hunk while its lines are read, with the numbers of the next lines.
pub struct HunkDraft {
    pub header: Seq<char>,
    pub range: HunkRange,
    pub next_old_line: u32,
    pub next_new_line: u32,
    pub lines: Seq<LineView>,
}

/// A file while its part of the patch is read.
pub struct FileDraft {
    pub old_path: Seq<char>,
    pub path: Seq<char>,
    pub status: FileStatus,
    pub additions: nat,
    pub deletions: nat,
    pub hunks: Seq<HunkView>,
    pub open_hunk: Option<HunkDraft>,
    pub binary: bool,
}

/// A path without the prefix of the side that it stands on.
pub open spec fn without_side(path: Seq<char>) -> Seq<char> {
    if stands_at(path, 0, "a/"@) || stands_at(path, 0, "b/"@) || stands_at(path, 0, "1/"@)
        || stands_at(path, 0, "2/"@) {
        after(path, 2)
    } else {
        path
    }
}

/// A path of a patch without white space, quotes and side prefix. Escapes between quotes
/// are undone; quotes that are no proper pair are only taken off.
pub open spec fn cleaned_path(path: Seq<char>) -> Seq<char> {
    let given = trimmed(path);
    without_side(
        match unquoted(given) {
            Some(inner) => inner,
            None => unwrapped_end(unwrapped_start(given, '"'), '"'),
        },
    )
}

/// The first two words of a text, each whole where it is quoted. Where quotes leave less
/// than two words they do not count.
pub open spec fn title_words(text: Seq<char>) -> Option<(Seq<char>, Seq<char>)> {
    let quoted = two_quoted_words(text);
    let plain = words_of(text);
    if quoted is Some {
        quoted
    } else if plain.len() >= 2 {
        Some((plain[0], plain[1]))
    } else {
        None
    }
}

/// The old and new path of a `diff --git` line.
pub open spec fn diff_git_paths(line: Seq<char>) -> Option<(Seq<char>, Seq<char>)> {
    match without_prefix(line, "diff --git "@) {
        Some(rest) => match title_words(rest) {
            Some((first, second)) => Some((cleaned_path(first), cleaned_path(second))),
            None => None,
        },
        None => None,
    }
}

/// Whether a line opens a file: it starts as a `diff --git` line does, and two words
/// follow.
pub open spec fn opens_file(line: Seq<char>) -> bool {
    stands_at(line, 0, "diff --git "@) && words_of(after(line, 11)).len() >= 2
}

/// Exactly the `diff --git` lines with two words name the paths of a file.
pub proof fn header_has_two_words(line: Seq<char>)
    ensures
        (diff_git_paths(line) is Some) == (stands_at(line, 0, "diff --git "@) && words_of(
            after(line, 11),
        ).len() >= 2),
{
    reveal_strlit("diff --git ");
    if stands_at(line, 0, "diff --git "@) {
        let rest = after(line, 11);
        if two_quoted_words(rest) is Some {
            quoted_words_are_words(rest);
        }
    }
}

/// A start, and a length of one where none is given, behind a sign.
pub open spec fn line_range(input: Seq<char>, sign: char) -> Option<LineRange> {
    if input.len() > 0 && input[0] == sign {
        let parts = pieces(after(input, 1), ',');
        let length = if parts.len() > 1 { parsed_u32(parts[1]) } else { Some(1u32) };
        match (parsed_u32(parts[0]), length) {
            (Some(start), Some(lines)) => Some(LineRange { start, lines }),
            _ => None,
        }
    } else {
        None
    }
}

/// The ranges of a hunk header.
pub open spec fn hunk_range(header: Seq<char>) -> Option<HunkRange> {
    let parts = words_of(header);
    if parts.len() >= 3 && parts[0] == "@@"@ {
        match (line_range(parts[1], '-'), line_range(parts[2], '+')) {
            (Some(before), Some(now)) => Some(
                HunkRange {
                    old_start: before.start,
                    old_lines: before.lines,
                    new_start: now.start,
                    new_lines: now.lines,
                },
            ),
            _ => None,
        }
    } else {
        None
    }
}

/// The ranges of a hunk header, all zero where it gives none.
pub open spec fn hunk_range_or_zero(header: Seq<char>) -> HunkRange {
    match hunk_range(header) {
        Some(range) => range,
        None => HunkRange { old_start: 0, old_lines: 0, new_start: 0, new_lines: 0 },
    }
}

/// The kind of a line inside a hunk, by its first character.
pub open spec fn hunk_line_kind(line: Seq<char>) -> DiffLineKind {
    if line.len() > 0 && line[0] == '+' {
        DiffLineKind::Added
    } else if line.len() > 0 && line[0] == '-' {
        DiffLineKind::Removed
    } else if line.len() > 0 && line[0] == ' ' {
        DiffLineKind::Context
    } else {
        DiffLineKind::Meta
    }
}

/// What a line inside a hunk holds: all behind its marker, if it has one.
pub open spec fn hunk_line_content(line: Seq<char>) -> Seq<char> {
    if hunk_line_kind(line) is Meta { line } else { after(line, 1) }
}

/// The successor of a line number, which wraps around at the end of its type.
pub open spec fn next_number(line: u32) -> u32 {
    if line == u32::MAX { 0 } else { (line + 1) as u32 }
}

/// Whether lines of this kind stand on the old side.
pub open spec fn on_old_side(kind: DiffLineKind) -> bool {
    kind is Removed || kind is Context
}

/// Whether lines of this kind stand on the new side.
pub open spec fn on_new_side(kind: DiffLineKind) -> bool {
    kind is Added || kind is Context
}

impl HunkDraft {
    pub open spec fn opened(header: Seq<char>) -> HunkDraft {
        let range = hunk_range_or_zero(header);
        HunkDraft {
            header,
            range,
            next_old_line: range.old_start,
            next_new_line: range.new_start,
            lines: seq![],
        }
    }

    /// The hunk with one more line: each side that the line stands on numbers it
    /// and counts on.
    pub open spec fn with_line(self, kind: DiffLineKind, content: Seq<char>) -> HunkDraft {
        HunkDraft {
            next_old_line: if on_old_side(kind) {
                next_number(self.next_old_line)
            } else {
                self.next_old_line
            },
            next_new_line: if on_new_side(kind) {
                next_number(self.next_new_line)
            } else {
                self.next_new_line
            },
            lines: self.lines.push(
                LineView {
                    kind,
                    old_line: if on_old_side(kind) { Some(self.next_old_line) } else { None },
                    new_line: if on_new_side(kind) { Some(self.next_new_line) } else { None },
                    content,
                },
            ),
            ..self
        }
    }

    pub open spec fn finished(self) -> HunkView {
        HunkView {
            header: self.header,
            old_start: self.range.old_start,
            old_lines: self.range.old_lines,
            new_start: self.range.new_start,
            new_lines: self.range.new_lines,
            stage: FileStage::Unstaged,
            lines: self.lines,
        }
    }
}

/// The path that a `---` or `+++` line leaves in place of `path`.
pub open spec fn path_unless_dev_null(path: Seq<char>, named: Seq<char>) -> Seq<char> {
    if cleaned_path(named) == "/dev/null"@ { path } else { cleaned_path(named) }
}

impl FileDraft {
    pub open spec fn opened(old_path: Seq<char>, path: Seq<char>) -> FileDraft {
        FileDraft {
            old_path,
            path,
            status: FileStatus::Modified,
            additions: 0,
            deletions: 0,
            hunks: seq![],
            open_hunk: None,
            binary: false,
        }
    }

    /// The file behind a metadata line, `None` where the line is none.
    pub open spec fn with_metadata(self, line: Seq<char>) -> Option<FileDraft> {
        if stands_at(line, 0, "new file mode "@) {
            Some(FileDraft { status: FileStatus::Added, ..self })
        } else if stands_at(line, 0, "deleted file mode "@) {
            Some(FileDraft { status: FileStatus::Deleted, ..self })
        } else if let Some(path) = without_prefix(line, "copy from "@) {
            Some(FileDraft { status: FileStatus::Copied, old_path: plain_path(path), ..self })
        } else if let Some(path) = without_prefix(line, "copy to "@) {
            Some(FileDraft { status: FileStatus::Copied, path: plain_path(path), ..self })
        } else if let Some(path) = without_prefix(line, "rename from "@) {
            Some(FileDraft { status: FileStatus::Renamed, old_path: plain_path(path), ..self })
        } else if let Some(path) = without_prefix(line, "rename to "@) {
            Some(FileDraft { status: FileStatus::Renamed, path: plain_path(path), ..self })
        } else if stands_at(line, 0, "Binary files "@) {
            Some(FileDraft { binary: true, ..self })
        } else if let Some(path) = without_prefix(line, "--- "@) {
            Some(FileDraft { old_path: path_unless_dev_null(self.old_path, path), ..self })
        } else if let Some(path) = without_prefix(line, "+++ "@) {
            Some(FileDraft { path: path_unless_dev_null(self.path, path), ..self })
        } else {
            None
        }
    }

    /// The file with its open hunk, if any, among the finished ones.
    pub open spec fn with_hunk_closed(self) -> FileDraft {
        match self.open_hunk {
            Some(hunk) => FileDraft {
                hunks: self.hunks.push(hunk.finished()),
                open_hunk: None,
                ..self
            },
            None => self,
        }
    }

    /// The file with a line of the open hunk, unchanged where none is open.
    pub open spec fn with_hunk_line(self, line: Seq<char>) -> FileDraft {
        let kind = hunk_line_kind(line);
        match self.open_hunk {
            Some(hunk) => FileDraft {
                open_hunk: Some(hunk.with_line(kind, hunk_line_content(line))),
                additions: if kind is Added { self.additions + 1 } else { self.additions },
                deletions: if kind is Removed { self.deletions + 1 } else { self.deletions },
                ..self
            },
            None => self,
        }
    }

    /// The file behind one more line of its part of the patch.
    pub open spec fn with_patch_line(self, line: Seq<char>) -> FileDraft {
        match self.with_metadata(line) {
            Some(file) => file,
            None => if stands_at(line, 0, "@@ "@) {
                FileDraft { open_hunk: Some(HunkDraft::opened(line)), ..self.with_hunk_closed() }
            } else {
                self.with_hunk_line(line)
            },
        }
    }

    pub open spec fn finished(self, id: nat) -> FileView {
        let file = self.with_hunk_closed();
        FileView {
            id: decimal(id),
            old_path: file.old_path,
            path: file.path,
            old_source: SourceView::Unloaded,
            new_source: SourceView::Unloaded,
            status: file.status,
            stage: FileStage::Unstaged,
            additions: file.additions,
            deletions: file.deletions,
            hunks: file.hunks,
            binary: file.binary,
        }
    }
}

/// The files with the current one, if any, behind them.
pub open spec fn with_file_closed(
    files: Seq<FileView>,
    current: Option<FileDraft>,
) -> Seq<FileView> {
    match current {
        Some(file) => files.push(file.finished(files.len())),
        None => files,
    }
}

/// The finished files and the current one behind the given lines.
pub open spec fn patch_state(lines: Seq<Seq<char>>) -> (Seq<FileView>, Option<FileDraft>)
    decreases lines.len(),
{
    if lines.len() == 0 {
        (seq![], None)
    } else {
        let (files, current) = patch_state(lines.drop_last());
        let line = lines.last();
        match diff_git_paths(line) {
            Some((old_path, path)) => (
                with_file_closed(files, current),
                Some(FileDraft::opened(old_path, path)),
            ),
            None => (
                files,
                match current {
                    Some(file) => Some(file.with_patch_line(line)),
                    None => None,
                },
            ),
        }
    }
}

/// The files of a patch.
pub open spec fn patch_files(patch: Seq<char>) -> Seq<FileView> {
    let (files, current) = patch_state(lines_of(patch));
    with_file_closed(files, current)
}

#[derive(Debug)]
struct FileBuilder {
    old_path: String,
    path: String,
    status: FileStatus,
    additions: usize,
    deletions: usize,
    hunks: Vec<DiffHunk>,
    current_hunk: Option<HunkBuilder>,
    binary: bool,
}

#[derive(Debug)]
struct HunkBuilder {
    header: String,
    range: HunkRange,
    next_old_line: u32,
    next_new_line: u32,
    lines: Vec<DiffLine>,
}

impl View for HunkBuilder {
    type V = HunkDraft;

    closed spec fn view(&self) -> HunkDraft {
        HunkDraft {
            header: self.header@,
            range: self.range,
            next_old_line: self.next_old_line,
            next_new_line: self.next_new_line,
            lines: line_views(self.lines@),
        }
    }
}

impl View for FileBuilder {
    type V = FileDraft;

    closed spec fn view(&self) -> FileDraft {
        FileDraft {
            old_path: self.old_path@,
            path: self.path@,
            status: self.status,
            additions: self.additions as nat,
            deletions: self.deletions as nat,
            hunks: hunk_views(self.hunks@),
            open_hunk: match self.current_hunk {
                Some(hunk) => Some(hunk@),
                None => None,
            },
            binary: self.binary,
        }
    }
}

impl FileBuilder {
    fn new(old_path: String, path: String) -> (file: Self)
        ensures
            file@ == FileDraft::opened(old_path@, path@),
    {
        let file = FileBuilder {
            old_path,
            path,
            status: FileStatus::Modified,
            additions: 0,
            deletions: 0,
            hunks: Vec::new(),
            current_hunk: None,
            binary: false,
        };
        assert(file@.hunks =~= seq![]);
        file
    }

    fn finish_hunk(&mut self)
        ensures
            final(self)@ == old(self)@.with_hunk_closed(),
    {
        let ghost before = hunk_views(self.hunks@);
        if let Some(hunk) = self.current_hunk.take() {
            self.hunks.push(hunk.finish());
            assert(hunk_views(self.hunks@) =~= before.push(hunk@.finished()));
        }
    }

    fn push_patch_line(&mut self, line: &str)
        requires
            old(self)@.additions < usize::MAX,
            old(self)@.deletions < usize::MAX,
        ensures
            final(self)@ == old(self)@.with_patch_line(line@),
    {
        if apply_file_metadata(self, line) {
            return;
        }
        if starts_with(line, "@@ ") {
            self.start_hunk(line);
            return;
        }
        self.push_hunk_line(line);
    }

    fn start_hunk(&mut self, header: &str)
        ensures
            final(self)@ == (FileDraft {
                open_hunk: Some(HunkDraft::opened(header@)),
                ..old(self)@.with_hunk_closed()
            }),
    {
        self.finish_hunk();
        self.current_hunk = Some(HunkBuilder::new(header));
    }

    fn push_hunk_line(&mut self, line: &str)
        requires
            old(self)@.additions < usize::MAX,
            old(self)@.deletions < usize::MAX,
        ensures
            final(self)@ == old(self)@.with_hunk_line(line@),
    {
        if let Some(hunk) = self.current_hunk.take() {
            let mut hunk = hunk;
            let (kind, content) = parse_hunk_line(line);
            hunk.push_line(kind, content);
            self.current_hunk = Some(hunk);
            match kind {
                DiffLineKind::Added => {
                    self.additions = self.additions + 1;
                },
                DiffLineKind::Removed => {
                    self.deletions = self.deletions + 1;
                },
                DiffLineKind::Context | DiffLineKind::Meta => {},
            }
        }
    }

    fn finish(self, id: usize) -> (file: DiffFile)
        ensures
            file@ == self@.finished(id as nat),
    {
        let mut builder = self;
        builder.finish_hunk();
        DiffFile {
            id: decimal_of(id as u64),
            old_path: builder.old_path,
            path: builder.path,
            old_source: SourceSnapshot::Unloaded,
            new_source: SourceSnapshot::Unloaded,
            status: builder.status,
            stage: FileStage::Unstaged,
            additions: builder.additions,
            deletions: builder.deletions,
            hunks: builder.hunks,
            binary: builder.binary,
        }
    }
}

impl HunkBuilder {
    fn new(header: &str) -> (hunk: Self)
        ensures
            hunk@ == HunkDraft::opened(header@),
    {
        let range = match parse_hunk_range(header) {
            Some(range) => range,
            None => HunkRange { old_start: 0, old_lines: 0, new_start: 0, new_lines: 0 },
        };
        let hunk = HunkBuilder {
            header: header.to_owned(),
            range,
            next_old_line: range.old_start,
            next_new_line: range.new_start,
            lines: Vec::new(),
        };
        assert(hunk@.lines =~= seq![]);
        hunk
    }

    /// Appends a line, numbered on each side that it stands on.
    fn push_line(&mut self, kind: DiffLineKind, content: &str)
        ensures
            final(self)@ == old(self)@.with_line(kind, content@),
    {
        let ghost before = line_views(self.lines@);
        let old_side = matches!(kind, DiffLineKind::Removed | DiffLineKind::Context);
        let new_side = matches!(kind, DiffLineKind::Added | DiffLineKind::Context);
        let line = DiffLine {
            kind,
            old_line: if old_side { Some(self.next_old_line) } else { None },
            new_line: if new_side { Some(self.next_new_line) } else { None },
            content: content.to_owned(),
        };
        self.lines.push(line);
        assert(line_views(self.lines@) =~= before.push(line@));
        if old_side {
            self.next_old_line = self.next_old_line.wrapping_add(1);
        }
        if new_side {
            self.next_new_line = self.next_new_line.wrapping_add(1);
        }
    }

    fn finish(self) -> (hunk: DiffHunk)
        ensures
            hunk@ == self@.finished(),
    {
        DiffHunk {
            header: self.header,
            old_start: self.range.old_start,
            old_lines: self.range.old_lines,
            new_start: self.range.new_start,
            new_lines: self.range.new_lines,
            stage: FileStage::Unstaged,
            lines: self.lines,
        }
    }
}

/// Parses Git-style unified patch text. Lines before the first `diff --git` line
/// are skipped.
pub fn parse_unified_diff(input: &str) -> (changeset: Changeset)
    ensures
        changeset@ == (ChangesetView {
            title: seq![],
            source_label: seq![],
            files: patch_files(input@),
        }),
{
    let input_lines = lines(input);
    let mut files: Vec<DiffFile> = Vec::new();
    let mut current_file: Option<FileBuilder> = None;
    let ghost all = lines_of(input@);
    let mut i: usize = 0;
    assert(all.take(0) =~= seq![]);
    assert(file_views(files@) =~= seq![]);
    while i < input_lines.len()
        invariant
            i <= input_lines@.len(),
            texts(input_lines@) == all,
            (file_views(files@), draft_of(current_file)) == patch_state(all.take(i as int)),
            current_file is Some ==> current_file->0@.additions <= i,
            current_file is Some ==> current_file->0@.deletions <= i,
        decreases input_lines@.len() - i,
    {
        let line = input_lines[i].as_str();
        assert(all.take(i + 1).drop_last() =~= all.take(i as int));
        assert(all.take(i + 1).last() == line@);
        match parse_diff_git_line(line) {
            Some((old_path, path)) => {
                finish_current_file(&mut files, current_file);
                current_file = Some(FileBuilder::new(old_path, path));
            },
            None => {
                if let Some(file) = current_file {
                    let mut file = file;
                    file.push_patch_line(line);
                    current_file = Some(file);
                } else {
                    current_file = None;
                }
            },
        }
        i = i + 1;
    }
    assert(all.take(all.len() as int) =~= all);
    finish_current_file(&mut files, current_file);
    Changeset { title: String::new(), source_label: String::new(), files }
}

spec fn draft_of(file: Option<FileBuilder>) -> Option<FileDraft> {
    match file {
        Some(builder) => Some(builder@),
        None => None,
    }
}

fn finish_current_file(files: &mut Vec<DiffFile>, current_file: Option<FileBuilder>)
    ensures
        file_views(final(files)@) == with_file_closed(
            file_views(old(files)@),
            draft_of(current_file),
        ),
{
    if let Some(builder) = current_file {
        let id: usize = files.len();
        let file = builder.finish(id);
        files.push(file);
        assert(file_views(files@) =~= file_views(old(files)@).push(file@));
    }
}

fn apply_file_metadata(file: &mut FileBuilder, line: &str) -> (applied: bool)
    ensures
        applied == (old(file)@.with_metadata(line@) is Some),
        applied ==> final(file)@ == old(file)@.with_metadata(line@)->0,
        !applied ==> final(file)@ == old(file)@,
{
    if starts_with(line, "new file mode ") {
        file.status = FileStatus::Added;
        return true;
    }
    if starts_with(line, "deleted file mode ") {
        file.status = FileStatus::Deleted;
        return true;
    }
    if apply_path_change_metadata(file, line, "copy from ", "copy to ", FileStatus::Copied) {
        return true;
    }
    if apply_path_change_metadata(file, line, "rename from ", "rename to ", FileStatus::Renamed) {
        return true;
    }
    if starts_with(line, "Binary files ") {
        file.binary = true;
        return true;
    }
    if let Some(path) = strip_prefix(line, "--- ") {
        update_path_unless_dev_null(&mut file.old_path, path);
        return true;
    }
    if let Some(path) = strip_prefix(line, "+++ ") {
        update_path_unless_dev_null(&mut file.path, path);
        return true;
    }
    false
}

fn apply_path_change_metadata(
    file: &mut FileBuilder,
    line: &str,
    from_prefix: &str,
    to_prefix: &str,
    status: FileStatus,
) -> (applied: bool)
    ensures
        match (without_prefix(line@, from_prefix@), without_prefix(line@, to_prefix@)) {
            (Some(path), _) => applied && final(file)@ == (FileDraft {
                status,
                old_path: plain_path(path),
                ..old(file)@
            }),
            (None, Some(path)) => applied && final(file)@ == (FileDraft {
                status,
                path: plain_path(path),
                ..old(file)@
            }),
            (None, None) => !applied && final(file)@ == old(file)@,
        },
{
    if let Some(path) = strip_prefix(line, from_prefix) {
        file.status = status;
        file.old_path = path_without_quotes(path);
        return true;
    }
    if let Some(path) = strip_prefix(line, to_prefix) {
        file.status = status;
        file.path = path_without_quotes(path);
        return true;
    }
    false
}

fn update_path_unless_dev_null(target: &mut String, path: &str)
    ensures
        final(target)@ == path_unless_dev_null(old(target)@, path@),
{
    let path = clean_git_path(path);
    if !same(path.as_str(), "/dev/null") {
        *target = path;
    }
}

fn parse_diff_git_line(line: &str) -> (paths: Option<(String, String)>)
    ensures
        match diff_git_paths(line@) {
            Some((old_path, path)) => match paths {
                Some((first, second)) => first@ == old_path && second@ == path,
                None => false,
            },
            None => paths is None,
        },
{
    let rest = strip_prefix(line, "diff --git ")?;
    let (first, second) = read_title_words(rest)?;
    let old_path = clean_git_path(first.as_str());
    let new_path = clean_git_path(second.as_str());
    Some((old_path, new_path))
}

fn read_title_words(text: &str) -> (found: Option<(String, String)>)
    ensures
        match found {
            Some((first, second)) => title_words(text@) == Some((first@, second@)),
            None => title_words(text@) is None,
        },
{
    let chars = chars_of(text);
    if let Some((first_start, first_end)) = read_word(chars.as_slice(), 0) {
        if let Some((second_start, second_end)) = read_word(chars.as_slice(), first_end) {
            let first = string_between(chars.as_slice(), first_start, first_end);
            let second = string_between(chars.as_slice(), second_start, second_end);
            return Some((first, second));
        }
    }
    let parts = words(text);
    assert(texts(parts@).len() == parts@.len());
    if parts.len() < 2 {
        return None;
    }
    assert(texts(parts@)[0] == parts@[0]@);
    assert(texts(parts@)[1] == parts@[1]@);
    Some((parts[0].clone(), parts[1].clone()))
}

fn clean_git_path(path: &str) -> (cleaned: String)
    ensures
        cleaned@ == cleaned_path(path@),
{
    let given = trim(path);
    match unquote(given) {
        Some(inner) => strip_side(inner.as_str()),
        None => strip_side(trim_matches(given, '"')),
    }
}

fn strip_side(path: &str) -> (stripped: String)
    ensures
        stripped@ == without_side(path@),
{
    proof {
        reveal_strlit("a/");
        reveal_strlit("b/");
        reveal_strlit("1/");
        reveal_strlit("2/");
    }
    if let Some(rest) = strip_prefix(path, "a/") {
        return rest.to_owned();
    }
    if let Some(rest) = strip_prefix(path, "b/") {
        return rest.to_owned();
    }
    if let Some(rest) = strip_prefix(path, "1/") {
        return rest.to_owned();
    }
    if let Some(rest) = strip_prefix(path, "2/") {
        return rest.to_owned();
    }
    path.to_owned()
}

fn parse_hunk_range(header: &str) -> (range: Option<HunkRange>)
    ensures
        range == hunk_range(header@),
{
    let parts = words(header);
    assert(texts(parts@).len() == parts@.len());
    if parts.len() < 3 {
        return None;
    }
    assert(texts(parts@)[0] == parts@[0]@);
    assert(texts(parts@)[1] == parts@[1]@);
    assert(texts(parts@)[2] == parts@[2]@);
    if !same(parts[0].as_str(), "@@") {
        return None;
    }
    let old_range = parse_line_range(parts[1].as_str(), '-')?;
    let new_range = parse_line_range(parts[2].as_str(), '+')?;
    Some(
        HunkRange {
            old_start: old_range.start,
            old_lines: old_range.lines,
            new_start: new_range.start,
            new_lines: new_range.lines,
        },
    )
}

/// Reads a start, and a length of one where none is given, behind a sign.
pub fn parse_line_range(input: &str, sign: char) -> (range: Option<LineRange>)
    ensures
        range == line_range(input@, sign),
{
    if input.is_empty() || input.get_char(0) != sign {
        return None;
    }
    let without_sign = input.substring_char(1, input.unicode_len());
    let parts = split(without_sign, ',');
    assert(texts(parts@).len() == parts@.len());
    assert(texts(parts@)[0] == parts@[0]@);
    let start: u32 = parse_u32(parts[0].as_str())?;
    let lines: u32 = if parts.len() > 1 {
        assert(texts(parts@)[1] == parts@[1]@);
        parse_u32(parts[1].as_str())?
    } else {
        1
    };
    Some(LineRange { start, lines })
}

fn parse_hunk_line<'a>(line: &'a str) -> (parsed: (DiffLineKind, &'a str))
    ensures
        parsed.0 == hunk_line_kind(line@),
        parsed.1@ == hunk_line_content(line@),
{
    proof {
        reveal_strlit("+");
        reveal_strlit("-");
        reveal_strlit(" ");
    }
    if line.is_empty() {
        return (DiffLineKind::Meta, line);
    }
    let rest = line.substring_char(1, line.unicode_len());
    match line.get_char(0) {
        '+' => (DiffLineKind::Added, rest),
        '-' => (DiffLineKind::Removed, rest),
        ' ' => (DiffLineKind::Context, rest),
        _ => (DiffLineKind::Meta, line),
    }
}


/// Number of the lines that are of the given kind.
pub open spec fn kind_count(lines: Seq<LineView>, kind: DiffLineKind) -> nat
    decreases lines.len(),
{
    if lines.len() == 0 {
        0
    } else {
        kind_count(lines.drop_last(), kind) + if lines.last().kind == kind { 1nat } else { 0 }
    }
}

/// Number of the lines of the hunks that are of the given kind.
pub open spec fn kind_count_in_hunks(hunks: Seq<HunkView>, kind: DiffLineKind) -> nat
    decreases hunks.len(),
{
    if hunks.len() == 0 {
        0
    } else {
        kind_count_in_hunks(hunks.drop_last(), kind) + kind_count(hunks.last().lines, kind)
    }
}

/// The line number `count` lines behind `start`.
pub open spec fn number_behind(start: u32, count: nat) -> u32
    decreases count,
{
    if count == 0 {
        start
    } else {
        next_number(number_behind(start, (count - 1) as nat))
    }
}

/// Number of the lines that stand on the old side.
pub open spec fn old_side_count(lines: Seq<LineView>) -> nat {
    kind_count(lines, DiffLineKind::Removed) + kind_count(lines, DiffLineKind::Context)
}

/// Number of the lines that stand on the new side.
pub open spec fn new_side_count(lines: Seq<LineView>) -> nat {
    kind_count(lines, DiffLineKind::Added) + kind_count(lines, DiffLineKind::Context)
}

/// Whether the lines of a hunk are numbered from its starts on, without gaps: a
/// line has a number on each side that it stands on and on no other.
pub open spec fn consecutively_numbered(
    lines: Seq<LineView>,
    old_start: u32,
    new_start: u32,
) -> bool {
    forall|i: int|
        0 <= i < lines.len() ==> {
            &&& (#[trigger] lines[i]).old_line == if on_old_side(lines[i].kind) {
                Some(number_behind(old_start, old_side_count(lines.take(i))))
            } else {
                None
            }
            &&& lines[i].new_line == if on_new_side(lines[i].kind) {
                Some(number_behind(new_start, new_side_count(lines.take(i))))
            } else {
                None
            }
        }
}

spec fn hunk_numbered(hunk: HunkView) -> bool {
    consecutively_numbered(hunk.lines, hunk.old_start, hunk.new_start)
}

spec fn hunk_draft_sound(hunk: HunkDraft) -> bool {
    &&& consecutively_numbered(hunk.lines, hunk.range.old_start, hunk.range.new_start)
    &&& hunk.next_old_line == number_behind(hunk.range.old_start, old_side_count(hunk.lines))
    &&& hunk.next_new_line == number_behind(hunk.range.new_start, new_side_count(hunk.lines))
}

spec fn open_count(hunk: Option<HunkDraft>, kind: DiffLineKind) -> nat {
    match hunk {
        Some(draft) => kind_count(draft.lines, kind),
        None => 0,
    }
}

spec fn file_draft_sound(file: FileDraft) -> bool {
    &&& file.additions == kind_count_in_hunks(file.hunks, DiffLineKind::Added) + open_count(
        file.open_hunk,
        DiffLineKind::Added,
    )
    &&& file.deletions == kind_count_in_hunks(file.hunks, DiffLineKind::Removed) + open_count(
        file.open_hunk,
        DiffLineKind::Removed,
    )
    &&& forall|i: int| 0 <= i < file.hunks.len() ==> hunk_numbered(#[trigger] file.hunks[i])
    &&& file.open_hunk is Some ==> hunk_draft_sound(file.open_hunk->0)
}

/// Whether a parsed file counts the added and removed lines of its hunks, numbers
/// the lines of each hunk, and has neither a stage nor sources yet.
pub open spec fn file_sound(file: FileView) -> bool {
    &&& file.additions == kind_count_in_hunks(file.hunks, DiffLineKind::Added)
    &&& file.deletions == kind_count_in_hunks(file.hunks, DiffLineKind::Removed)
    &&& forall|i: int|
        0 <= i < file.hunks.len() ==> consecutively_numbered(
            (#[trigger] file.hunks[i]).lines,
            file.hunks[i].old_start,
            file.hunks[i].new_start,
        )
    &&& file.stage == FileStage::Unstaged
    &&& file.old_source == SourceView::Unloaded
    &&& file.new_source == SourceView::Unloaded
}

proof fn one_more_line_counts(lines: Seq<LineView>, line: LineView)
    ensures
        old_side_count(lines.push(line)) == old_side_count(lines) + if on_old_side(line.kind) {
            1nat
        } else {
            0
        },
        new_side_count(lines.push(line)) == new_side_count(lines) + if on_new_side(line.kind) {
            1nat
        } else {
            0
        },
{
    assert(lines.push(line).drop_last() =~= lines);
}

#[verifier::spinoff_prover]
proof fn hunk_line_keeps_sound(hunk: HunkDraft, kind: DiffLineKind, content: Seq<char>)
    requires
        hunk_draft_sound(hunk),
    ensures
        hunk_draft_sound(hunk.with_line(kind, content)),
{
    let longer = hunk.with_line(kind, content);
    let line = longer.lines.last();
    assert(longer.lines =~= hunk.lines.push(line));
    one_more_line_counts(hunk.lines, line);
    let (old_start, new_start) = (hunk.range.old_start, hunk.range.new_start);
    assert(number_behind(old_start, old_side_count(hunk.lines) + 1) == next_number(
        number_behind(old_start, old_side_count(hunk.lines)),
    ));
    assert(number_behind(new_start, new_side_count(hunk.lines) + 1) == next_number(
        number_behind(new_start, new_side_count(hunk.lines)),
    ));
    assert forall|i: int| 0 <= i < longer.lines.len() implies {
        &&& (#[trigger] longer.lines[i]).old_line == if on_old_side(longer.lines[i].kind) {
            Some(number_behind(old_start, old_side_count(longer.lines.take(i))))
        } else {
            None
        }
        &&& longer.lines[i].new_line == if on_new_side(longer.lines[i].kind) {
            Some(number_behind(new_start, new_side_count(longer.lines.take(i))))
        } else {
            None
        }
    } by {
        assert(longer.lines.take(i) =~= hunk.lines.take(i));
        if i == hunk.lines.len() {
            assert(hunk.lines.take(i) =~= hunk.lines);
        } else {
            assert(longer.lines[i] == hunk.lines[i]);
        }
    }
}

proof fn closing_keeps_sound(file: FileDraft)
    requires
        file_draft_sound(file),
    ensures
        file_draft_sound(file.with_hunk_closed()),
{
    if let Some(hunk) = file.open_hunk {
        let closed = file.with_hunk_closed();
        assert(closed.hunks.drop_last() =~= file.hunks);
        assert forall|i: int| 0 <= i < closed.hunks.len() implies hunk_numbered(
            #[trigger] closed.hunks[i],
        ) by {
            if i < file.hunks.len() {
                assert(closed.hunks[i] == file.hunks[i]);
            }
        }
    }
}

proof fn patch_line_keeps_sound(file: FileDraft, line: Seq<char>)
    requires
        file_draft_sound(file),
    ensures
        file_draft_sound(file.with_patch_line(line)),
{
    match file.with_metadata(line) {
        Some(_) => {},
        None => {
            if stands_at(line, 0, "@@ "@) {
                closing_keeps_sound(file);
            } else if let Some(hunk) = file.open_hunk {
                let kind = hunk_line_kind(line);
                let content = hunk_line_content(line);
                hunk_line_keeps_sound(hunk, kind, content);
                assert(hunk.with_line(kind, content).lines.drop_last() =~= hunk.lines);
            }
        },
    }
}

spec fn files_sound(files: Seq<FileView>) -> bool {
    forall|i: int|
        0 <= i < files.len() ==> file_sound(#[trigger] files[i]) && files[i].id == decimal(
            i as nat,
        )
}

proof fn closing_file_keeps_sound(files: Seq<FileView>, current: Option<FileDraft>)
    requires
        files_sound(files),
        current is Some ==> file_draft_sound(current->0),
    ensures
        files_sound(with_file_closed(files, current)),
{
    if let Some(file) = current {
        closing_keeps_sound(file);
        let closed = file.with_hunk_closed();
        assert forall|i: int| 0 <= i < closed.hunks.len() implies consecutively_numbered(
            (#[trigger] closed.hunks[i]).lines,
            closed.hunks[i].old_start,
            closed.hunks[i].new_start,
        ) by {
            assert(hunk_numbered(closed.hunks[i]));
        }
    }
}

proof fn patch_state_sound(lines: Seq<Seq<char>>)
    ensures
        files_sound(patch_state(lines).0),
        patch_state(lines).1 is Some ==> file_draft_sound(patch_state(lines).1->0),
    decreases lines.len(),
{
    if lines.len() > 0 {
        patch_state_sound(lines.drop_last());
        let (files, current) = patch_state(lines.drop_last());
        match diff_git_paths(lines.last()) {
            Some(_) => closing_file_keeps_sound(files, current),
            None => {
                if let Some(file) = current {
                    patch_line_keeps_sound(file, lines.last());
                }
            },
        }
    }
}

/// Every file of a parsed patch counts the added and removed lines of its hunks,
/// numbers the lines of each hunk from the starts in its header on without gaps,
/// and has its position among the files as its id.
pub proof fn parsed_files_count_and_number_their_lines(patch: Seq<char>, i: int)
    requires
        0 <= i < patch_files(patch).len(),
    ensures
        file_sound(patch_files(patch)[i]),
        patch_files(patch)[i].id == decimal(i as nat),
{
    let (files, current) = patch_state(lines_of(patch));
    patch_state_sound(lines_of(patch));
    closing_file_keeps_sound(files, current);
}

/// Number of the lines that open a file.
pub open spec fn header_count(lines: Seq<Seq<char>>) -> nat
    decreases lines.len(),
{
    if lines.len() == 0 {
        0
    } else {
        header_count(lines.drop_last()) + if opens_file(lines.last()) {
            1nat
        } else {
            0
        }
    }
}

/// A patch holds one file for each of its `diff --git` lines with two words.
pub proof fn parsed_files_match_headers(patch: Seq<char>)
    ensures
        patch_files(patch).len() == header_count(lines_of(patch)),
{
    header_count_counts_files(lines_of(patch));
}

proof fn header_count_counts_files(lines: Seq<Seq<char>>)
    ensures
        header_count(lines) == patch_state(lines).0.len() + if patch_state(lines).1 is Some {
            1int
        } else {
            0
        },
    decreases lines.len(),
{
    if lines.len() > 0 {
        header_count_counts_files(lines.drop_last());
        header_has_two_words(lines.last());
    }
}


/// Files with their ids counted on from a number.
pub open spec fn counted_on(files: Seq<FileView>, start: nat) -> Seq<FileView> {
    Seq::new(
        files.len(),
        |i: int| FileView { id: decimal((start + i) as nat), ..files[i] },
    )
}

proof fn state_of_both(first: Seq<Seq<char>>, second: Seq<Seq<char>>)
    requires
        second.len() > 0,
        diff_git_paths(second[0]) is Some,
    ensures
        ({
            let (files, current) = patch_state(first);
            let before = with_file_closed(files, current);
            &&& patch_state(first + second).0 == before + counted_on(
                patch_state(second).0,
                before.len(),
            )
            &&& patch_state(first + second).1 == patch_state(second).1
            &&& patch_state(second).1 is Some
        }),
    decreases second.len(),
{
    let all = first + second;
    let (files, current) = patch_state(first);
    let before = with_file_closed(files, current);
    assert(all.last() == second.last());
    assert(all.drop_last() =~= first + second.drop_last());
    if second.len() == 1 {
        assert(second.drop_last() =~= seq![]);
        assert(first + second.drop_last() =~= first);
        assert(patch_state(second).0 =~= seq![]);
        assert(patch_state(all).0 =~= before + counted_on(patch_state(second).0, before.len()));
    } else {
        state_of_both(first, second.drop_last());
        let (own, draft) = patch_state(second.drop_last());
        match diff_git_paths(second.last()) {
            Some(_) => {
                let closed = with_file_closed(own, draft);
                let joined = before + counted_on(own, before.len());
                assert(with_file_closed(joined, draft) =~= before + counted_on(
                    closed,
                    before.len(),
                ));
            },
            None => {},
        }
    }
}

/// The files of two patches, one behind the other, are the files of the first and then
/// those of the second with their ids counted on, where the first patch ends its last
/// line and the second begins with a `diff --git` line with two words.
pub proof fn patches_are_parsed_one_by_one(first: Seq<char>, second: Seq<char>)
    requires
        first.len() == 0 || first.last() == '\n',
        lines_of(second).len() > 0,
        opens_file(lines_of(second)[0]),
    ensures
        patch_files(first + second) == patch_files(first) + counted_on(
            patch_files(second),
            patch_files(first).len(),
        ),
{
    lines_of_both(first, second);
    header_has_two_words(lines_of(second)[0]);
    state_of_both(lines_of(first), lines_of(second));
    let before = patch_files(first);
    let (own, draft) = patch_state(lines_of(second));
    assert(with_file_closed(before + counted_on(own, before.len()), draft) =~= before
        + counted_on(with_file_closed(own, draft), before.len()));
}

/// A written range is read as it was written: a sign and a number are a start and one
/// line, a sign and two numbers with a comma are a start and a length. Nothing is read
/// that does not begin with the sign.
pub proof fn written_range_is_read(sign: char, start: u32, length: u32, input: Seq<char>)
    ensures
        line_range(seq![sign] + decimal(start as nat), sign) == Some(
            LineRange { start, lines: 1 },
        ),
        line_range(
            seq![sign] + decimal(start as nat) + ","@ + decimal(length as nat),
            sign,
        ) == Some(LineRange { start, lines: length }),
        input.len() == 0 || input[0] != sign ==> line_range(input, sign) is None,
{
    reveal_strlit(",");
    let (a, b) = (decimal(start as nat), decimal(length as nat));
    written_number_is_read(start);
    written_number_is_read(length);
    pieces_of_one_or_two(a, b, ',');
    assert(after(seq![sign] + a, 1) =~= a);
    assert(after(seq![sign] + a + ","@ + b, 1) =~= a.push(',') + b);
}

/// Whether a path can stand in the first line of a patch: white space in it is either
/// between quotes or not there.
pub open spec fn fits_title(side: Seq<char>, path: Seq<char>) -> bool {
    needs_quotes(side + path) || forall|i: int|
        0 <= i < path.len() ==> !is_white(#[trigger] path[i])
}

proof fn unquoted_side(side: Seq<char>, path: Seq<char>)
    requires
        side == "a/"@ || side == "b/"@,
    ensures
        without_side(side + path) == path,
        (side + path)[0] == side[0],
        side.len() == 2,
        !is_white(side[0]),
        !is_white(side[1]),
        side[0] != '"',
{
    reveal_strlit("a/");
    reveal_strlit("b/");
    let both = side + path;
    assert(both.subrange(0, 2) =~= side);
    assert(after(both, 2) =~= path);
}

proof fn no_quotes_to_unwrap(s: Seq<char>)
    requires
        !needs_quotes(s),
    ensures
        unwrapped_end(unwrapped_start(s, '"'), '"') == s,
{
    quote_is_special(s);
    if s.len() > 0 {
        assert(s[0] != '"');
        assert(s.last() != '"') by {
            assert(s[s.len() - 1] == s.last());
        }
    }
}

/// A path that is written on its side of a patch is read back, unless its unquoted end is
/// white space.
pub proof fn written_side_is_read(side: Seq<char>, path: Seq<char>)
    requires
        side == "a/"@ || side == "b/"@,
        needs_quotes(side + path) || path.len() == 0 || !is_white(path.last()),
    ensures
        cleaned_path(quoted_path(side + path)) == path,
{
    let both = side + path;
    let written = quoted_path(both);
    unquoted_side(side, path);
    quoting_is_undone(both);
    if !needs_quotes(both) {
        no_quotes_to_unwrap(both);
        assert(both.last() == if path.len() == 0 { side[1] } else { path.last() });
    }
    nothing_to_trim(written);
}

/// The first line of a written patch names the paths that it was written for.
pub proof fn written_title_is_read(before: Seq<char>, now: Seq<char>)
    requires
        fits_title("a/"@, before),
        fits_title("b/"@, now),
    ensures
        diff_git_paths(patch_title(before, now)) == Some((before, now)),
{
    let (a, b) = (quoted_path("a/"@ + before), quoted_path("b/"@ + now));
    let title = patch_title(before, now);
    let rest = a + " "@ + b;
    reveal_strlit(" ");
    assert(title =~= "diff --git "@ + rest);
    assert(title.subrange(0, "diff --git "@.len() as int) =~= "diff --git "@);
    assert(after(title, "diff --git "@.len() as int) =~= rest);
    unquoted_side("a/"@, before);
    unquoted_side("b/"@, now);
    assert(rest.subrange(0, a.len() as int) =~= a);
    assert(rest[a.len() as int] == ' ');
    written_word_is_read(rest, 0, "a/"@, before);
    assert(white_from(rest, false, 0) == 0);
    let next = a.len() as int + 1;
    assert(rest.subrange(next, next + b.len()) =~= b);
    written_word_is_read(rest, next, "b/"@, now);
    assert(white_from(rest, false, next) == next) by {
        assert(rest[next] == b[0]);
    }
    assert(white_from(rest, false, a.len() as int) == next);
    written_side_is_read("a/"@, before);
    written_side_is_read("b/"@, now);
}

proof fn written_word_is_read(rest: Seq<char>, at: int, side: Seq<char>, path: Seq<char>)
    requires
        side == "a/"@ || side == "b/"@,
        fits_title(side, path),
        0 <= at,
        at + quoted_path(side + path).len() <= rest.len(),
        rest.subrange(at, at + quoted_path(side + path).len()) == quoted_path(side + path),
        at + quoted_path(side + path).len() < rest.len() ==> is_white(
            rest[at + quoted_path(side + path).len()],
        ),
    ensures
        word_end(rest, at) == at + quoted_path(side + path).len(),
        quoted_path(side + path).len() > 0,
        !is_white(quoted_path(side + path)[0]),
        rest[at] == quoted_path(side + path)[0],
{
    let both = side + path;
    let word = quoted_path(both);
    unquoted_side(side, path);
    let shown = rest.subrange(at, at + word.len());
    assert forall|i: int| 0 <= i < word.len() implies rest[at + i] == #[trigger] word[i] by {
        assert(shown[i] == rest[at + i]);
    }
    assert(rest[at] == word[0]);
    if needs_quotes(both) {
        quoted_text_is_read(rest, at, both);
    } else {
        quote_is_special(both);
        assert forall|i: int| at <= i < at + word.len() implies !is_white(#[trigger] rest[i]) by {
            assert(rest[i] == word[i - at]);
            if i - at >= 2 {
                assert(both[i - at] == path[i - at - 2]);
            }
        }
        next_white(rest, at, at + word.len());
    }
}

proof fn next_white(s: Seq<char>, from: int, end: int)
    requires
        0 <= from <= end <= s.len(),
        forall|i: int| from <= i < end ==> !is_white(#[trigger] s[i]),
        end < s.len() ==> is_white(s[end]),
    ensures
        white_from(s, true, from) == end,
    decreases end - from,
{
    if from < end {
        next_white(s, from + 1, end);
    }
}

/// Whether two ranges of lines share a line. A range without lines stands for the
/// line that it starts at.
pub open spec fn ranges_meet(a_start: int, a_lines: int, b_start: int, b_lines: int) -> bool {
    let a_end = a_start + if a_lines > 0 { a_lines } else { 1 };
    let b_end = b_start + if b_lines > 0 { b_lines } else { 1 };
    a_start < b_end && b_start < a_end
}

/// Whether two hunks share a line on either side.
pub open spec fn hunks_meet(a: HunkView, b: HunkView) -> bool {
    ||| ranges_meet(
        a.old_start as int,
        a.old_lines as int,
        b.old_start as int,
        b.old_lines as int,
    )
    ||| ranges_meet(
        a.new_start as int,
        a.new_lines as int,
        b.new_start as int,
        b.new_lines as int,
    )
}

/// Whether a hunk shares a line with any hunk of a file.
pub open spec fn meets_file(hunk: HunkView, file: FileView) -> bool {
    exists|i: int| 0 <= i < file.hunks.len() && hunks_meet(hunk, #[trigger] file.hunks[i])
}

fn line_ranges_meet(a_start: u32, a_lines: u32, b_start: u32, b_lines: u32) -> (meet: bool)
    ensures
        meet == ranges_meet(a_start as int, a_lines as int, b_start as int, b_lines as int),
{
    let a_end: u64 = a_start as u64 + if a_lines > 0 { a_lines as u64 } else { 1 };
    let b_end: u64 = b_start as u64 + if b_lines > 0 { b_lines as u64 } else { 1 };
    (a_start as u64) < b_end && (b_start as u64) < a_end
}

fn hunks_overlap(a: &DiffHunk, b: &DiffHunk) -> (overlap: bool)
    ensures
        overlap == hunks_meet(a@, b@),
{
    line_ranges_meet(a.old_start, a.old_lines, b.old_start, b.old_lines) || line_ranges_meet(
        a.new_start,
        a.new_lines,
        b.new_start,
        b.new_lines,
    )
}

/// Whether a hunk shares a line with any hunk of a file.
pub fn hunk_overlaps_file(hunk: &DiffHunk, file: &DiffFile) -> (overlaps: bool)
    ensures
        overlaps == meets_file(hunk@, file@),
{
    let mut i: usize = 0;
    while i < file.hunks.len()
        invariant
            i <= file.hunks@.len(),
            forall|j: int| 0 <= j < i ==> !hunks_meet(hunk@, #[trigger] file@.hunks[j]),
        decreases file.hunks@.len() - i,
    {
        assert(file@.hunks[i as int] == file.hunks@[i as int]@);
        if hunks_overlap(hunk, &file.hunks[i]) {
            return true;
        }
        i = i + 1;
    }
    false
}

/// The path of a file on the old side of a patch.
pub open spec fn path_before(file: FileView) -> Seq<char> {
    if file.old_path.len() == 0 { file.shown_path() } else { file.old_path }
}

/// The path of a file on the new side of a patch.
pub open spec fn path_now(file: FileView) -> Seq<char> {
    if file.path.len() == 0 { file.shown_path() } else { file.path }
}

/// The first line of a file's patch.
pub open spec fn patch_title(before: Seq<char>, now: Seq<char>) -> Seq<char> {
    "diff --git "@ + quoted_path("a/"@ + before) + " "@ + quoted_path("b/"@ + now)
}

/// The header of a file's patch, with its paths between quotes where Git quotes them.
pub open spec fn patch_header(file: FileView) -> Seq<char> {
    let before = path_before(file);
    let now = path_now(file);
    let title = patch_title(before, now) + "\n"@;
    let old_line = "--- "@ + quoted_path("a/"@ + before) + "\n"@;
    let new_line = "+++ "@ + quoted_path("b/"@ + now) + "\n"@;
    match file.status {
        FileStatus::Added => title + "new file mode 100644\n--- /dev/null\n"@ + new_line,
        FileStatus::Deleted => title + "deleted file mode 100644\n"@ + old_line
            + "+++ /dev/null\n"@,
        FileStatus::Renamed => title + "rename from "@ + quoted_path(before) + "\nrename to "@
            + quoted_path(now) + "\n"@ + old_line + new_line,
        FileStatus::Copied | FileStatus::Modified => title + old_line + new_line,
    }
}

/// A line of a patch with its marker.
pub open spec fn patch_line(line: LineView) -> Seq<char> {
    let marker = match line.kind {
        DiffLineKind::Added => "+"@,
        DiffLineKind::Removed => "-"@,
        DiffLineKind::Context => " "@,
        DiffLineKind::Meta => ""@,
    };
    marker + line.content + "\n"@
}

/// The first `n` lines of a hunk in a patch.
pub open spec fn patch_lines(lines: Seq<LineView>, n: int) -> Seq<char>
    decreases n,
{
    if n <= 0 { seq![] } else { patch_lines(lines, n - 1) + patch_line(lines[n - 1]) }
}

pub open spec fn hunk_patch(hunk: HunkView) -> Seq<char> {
    hunk.header + "\n"@ + patch_lines(hunk.lines, hunk.lines.len() as int)
}

/// The first `n` hunks of a file in a patch.
pub open spec fn hunks_patch(hunks: Seq<HunkView>, n: int) -> Seq<char>
    decreases n,
{
    if n <= 0 { seq![] } else { hunks_patch(hunks, n - 1) + hunk_patch(hunks[n - 1]) }
}

/// Those of the first `n` hunks that share a line with a hunk, in a patch.
pub open spec fn meeting_hunks_patch(hunks: Seq<HunkView>, selected: HunkView, n: int) -> Seq<char>
    decreases n,
{
    if n <= 0 {
        seq![]
    } else if hunks_meet(selected, hunks[n - 1]) {
        meeting_hunks_patch(hunks, selected, n - 1) + hunk_patch(hunks[n - 1])
    } else {
        meeting_hunks_patch(hunks, selected, n - 1)
    }
}

/// The patch of a whole file.
pub open spec fn whole_patch(file: FileView) -> Seq<char> {
    patch_header(file) + hunks_patch(file.hunks, file.hunks.len() as int)
}

fn patch_header_text(file: &DiffFile) -> (header: String)
    ensures
        header@ == patch_header(file@),
{
    let before = if file.old_path.as_str().is_empty() {
        file.display_path()
    } else {
        file.old_path.as_str()
    };
    let now = if file.path.as_str().is_empty() {
        file.display_path()
    } else {
        file.path.as_str()
    };
    let old_side = quote_path(cat2("a/", before).as_str());
    let new_side = quote_path(cat2("b/", now).as_str());
    let mut header = cat5("diff --git ", old_side.as_str(), " ", new_side.as_str(), "\n");
    let old_line = cat3("--- ", old_side.as_str(), "\n");
    let new_line = cat3("+++ ", new_side.as_str(), "\n");
    match file.status {
        FileStatus::Added => {
            header.append("new file mode 100644\n--- /dev/null\n");
            header.append(new_line.as_str());
        },
        FileStatus::Deleted => {
            header.append("deleted file mode 100644\n");
            header.append(old_line.as_str());
            header.append("+++ /dev/null\n");
        },
        FileStatus::Renamed => {
            header.append("rename from ");
            header.append(quote_path(before).as_str());
            header.append("\nrename to ");
            header.append(quote_path(now).as_str());
            header.append("\n");
            header.append(old_line.as_str());
            header.append(new_line.as_str());
        },
        FileStatus::Copied | FileStatus::Modified => {
            header.append(old_line.as_str());
            header.append(new_line.as_str());
        },
    }
    header
}

fn push_hunk_patch(text: &mut String, hunk: &DiffHunk)
    ensures
        final(text)@ == old(text)@ + hunk_patch(hunk@),
{
    let ghost before = text@;
    let ghost title = hunk@.header + "\n"@;
    let ghost lines = hunk@.lines;
    text.append(hunk.header.as_str());
    text.append("\n");
    let mut i: usize = 0;
    assert(text@ =~= before + (title + patch_lines(lines, 0)));
    while i < hunk.lines.len()
        invariant
            i <= hunk.lines@.len(),
            lines == line_views(hunk.lines@),
            text@ == before + (title + patch_lines(lines, i as int)),
        decreases hunk.lines@.len() - i,
    {
        let line = &hunk.lines[i];
        assert(lines[i as int] == line@);
        let marker = match line.kind {
            DiffLineKind::Added => "+",
            DiffLineKind::Removed => "-",
            DiffLineKind::Context => " ",
            DiffLineKind::Meta => "",
        };
        let shown = cat3(marker, line.content.as_str(), "\n");
        let ghost so_far = text@;
        text.append(shown.as_str());
        assert(so_far + shown@ =~= before + (title + (patch_lines(lines, i as int) + shown@)));
        i = i + 1;
    }
}

/// The patch of a file with one of its hunks.
pub fn selected_hunk_patch(file: &DiffFile, hunk_index: usize) -> (patch: Option<String>)
    ensures
        match patch {
            Some(text) => hunk_index < file@.hunks.len() && text@ == patch_header(file@)
                + hunk_patch(file@.hunks[hunk_index as int]),
            None => hunk_index >= file@.hunks.len(),
        },
{
    if hunk_index >= file.hunks.len() {
        return None;
    }
    assert(file@.hunks[hunk_index as int] == file.hunks@[hunk_index as int]@);
    let mut text = patch_header_text(file);
    push_hunk_patch(&mut text, &file.hunks[hunk_index]);
    Some(text)
}

/// The patch of a whole file, if it has any hunks.
pub fn file_patch(file: &DiffFile) -> (patch: Option<String>)
    ensures
        match patch {
            Some(text) => file@.hunks.len() > 0 && text@ == whole_patch(file@),
            None => file@.hunks.len() == 0,
        },
{
    if file.hunks.len() == 0 {
        return None;
    }
    let mut text = patch_header_text(file);
    let ghost header = text@;
    let ghost hunks = file@.hunks;
    let mut i: usize = 0;
    assert(header + hunks_patch(hunks, 0) =~= header);
    while i < file.hunks.len()
        invariant
            i <= file.hunks@.len(),
            hunks == hunk_views(file.hunks@),
            text@ == header + hunks_patch(hunks, i as int),
        decreases file.hunks@.len() - i,
    {
        assert(hunks[i as int] == file.hunks@[i as int]@);
        push_hunk_patch(&mut text, &file.hunks[i]);
        assert(text@ =~= header + hunks_patch(hunks, i + 1));
        i = i + 1;
    }
    Some(text)
}

/// The patch of a file with those of its hunks that share a line with a hunk, if
/// any do.
pub fn overlapping_hunk_patch(file: &DiffFile, selected: &DiffHunk) -> (patch: Option<String>)
    ensures
        match patch {
            Some(text) => meets_file(selected@, file@) && text@ == patch_header(file@)
                + meeting_hunks_patch(file@.hunks, selected@, file@.hunks.len() as int),
            None => !meets_file(selected@, file@),
        },
{
    if !hunk_overlaps_file(selected, file) {
        return None;
    }
    let mut text = patch_header_text(file);
    let ghost header = text@;
    let ghost hunks = file@.hunks;
    let mut i: usize = 0;
    assert(header + meeting_hunks_patch(hunks, selected@, 0) =~= header);
    while i < file.hunks.len()
        invariant
            i <= file.hunks@.len(),
            hunks == hunk_views(file.hunks@),
            text@ == header + meeting_hunks_patch(hunks, selected@, i as int),
        decreases file.hunks@.len() - i,
    {
        assert(hunks[i as int] == file.hunks@[i as int]@);
        if hunks_overlap(selected, &file.hunks[i]) {
            push_hunk_patch(&mut text, &file.hunks[i]);
            assert(text@ =~= header + meeting_hunks_patch(hunks, selected@, i + 1));
        }
        i = i + 1;
    }
    Some(text)
}

} // verus!
