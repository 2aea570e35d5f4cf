//! Decisions around Git: which commands to run with which arguments, and what
//! their output means.

use vstd::prelude::*;
use vstd::string::*;
use vstd::utf8::*;

use crate::model::{
    file_views, hunk_views, Changeset, ChangesetView, DiffFile, DiffHunk, FileStage, FileView,
    HunkView, SourceSnapshot, SourceView,
};
use crate::patch::{
    hunk_overlaps_file, meeting_hunks_patch, meets_file, overlapping_hunk_patch, patch_header,
};
use crate::scroll_text::{greatest, least};
use crate::search::text_option;
use crate::text::{
    after, cat2, cat3, cat4, chars_of, decimal, decimal_of, find_from, pieces, position_from, same,
    split, string_between, texts, texts_push, trim, trimmed,
};

verus! {

/// Most bytes of source text read for the context of a hunk.
pub const MAX_SOURCE_CONTEXT_BYTES: usize = 512 * 1024;

/// The branches that a review may be based on, the preferred one first.
pub open spec fn default_base_refs() -> Seq<Seq<char>> {
    seq!["origin/HEAD"@, "main"@, "master"@]
}

pub fn default_base_ref(index: usize) -> (name: &'static str)
    requires
        index < 3,
    ensures
        name@ == default_base_refs()[index as int],
{
    match index {
        0 => "origin/HEAD",
        1 => "main",
        _ => "master",
    }
}

/// The arguments of `git diff` for a patch.
pub open spec fn diff_args(pre: Seq<Seq<char>>, post: Seq<Seq<char>>) -> Seq<Seq<char>> {
    seq!["diff"@] + pre + seq![
        "--no-color"@,
        "--patch"@,
        "--find-renames"@,
        "--default-prefix"@,
    ] + post
}

fn push_args(args: &mut Vec<String>, more: &Vec<String>)
    ensures
        texts(final(args)@) == texts(old(args)@) + texts(more@),
{
    let ghost before = texts(args@);
    let ghost all = texts(more@);
    let mut i: usize = 0;
    assert(before + all.take(0) =~= before);
    while i < more.len()
        invariant
            i <= more@.len(),
            all == texts(more@),
            texts(args@) == before + all.take(i as int),
        decreases more@.len() - i,
    {
        let copy = more[i].clone();
        let ghost so_far = args@;
        args.push(copy);
        assert(texts(args@) =~= texts(so_far).push(copy@));
        assert(before + all.take(i + 1) =~= (before + all.take(i as int)).push(all[i as int]));
        i = i + 1;
    }
    assert(all.take(all.len() as int) =~= all);
}

/// The arguments of `git diff` for a patch, with some before and some behind the
/// usual ones.
pub fn git_diff_args(pre_args: &Vec<String>, post_args: &Vec<String>) -> (args: Vec<String>)
    ensures
        texts(args@) == diff_args(texts(pre_args@), texts(post_args@)),
{
    let mut args = vec!["diff".to_owned()];
    assert(texts(args@) =~= seq!["diff"@]);
    push_args(&mut args, pre_args);
    let fixed = vec![
        "--no-color".to_owned(),
        "--patch".to_owned(),
        "--find-renames".to_owned(),
        "--default-prefix".to_owned(),
    ];
    assert(texts(fixed@) =~= seq![
        "--no-color"@,
        "--patch"@,
        "--find-renames"@,
        "--default-prefix"@,
    ]);
    push_args(&mut args, &fixed);
    push_args(&mut args, post_args);
    args
}

/// The arguments of `git diff` for the patch of a file that Git does not track.
pub open spec fn untracked_args(path: Seq<char>) -> Seq<Seq<char>> {
    seq![
        "diff"@,
        "--no-color"@,
        "--patch"@,
        "--no-index"@,
        "--default-prefix"@,
        "--"@,
        "/dev/null"@,
        path,
    ]
}

pub fn untracked_diff_args(path: &str) -> (args: Vec<String>)
    ensures
        texts(args@) == untracked_args(path@),
{
    let args = vec![
        "diff".to_owned(),
        "--no-color".to_owned(),
        "--patch".to_owned(),
        "--no-index".to_owned(),
        "--default-prefix".to_owned(),
        "--".to_owned(),
        "/dev/null".to_owned(),
        path.to_owned(),
    ];
    assert(texts(args@) =~= untracked_args(path@));
    args
}

/// Whether Git could compare an untracked file with nothing: it succeeds, or says by an
/// exit code of one that they differ.
pub open spec fn untracked_compared(success: bool, code: Option<i32>) -> bool {
    success || code == Some(1i32)
}

/// What is said where the diff of an untracked file failed. An exit code of one only says
/// that the file differs from nothing.
pub fn untracked_diff_error(
    success: bool,
    code: Option<i32>,
    path: &str,
    stderr: &str,
) -> (error: Option<String>)
    ensures
        text_option(error) == if success || code == Some(1i32) {
            None
        } else {
            Some("git diff --no-index failed for "@ + path@ + ": "@ + trimmed(stderr@))
        },
        error is None <==> untracked_compared(success, code),
{
    if success {
        return None;
    }
    if let Some(1) = code {
        return None;
    }
    Some(cat4("git diff --no-index failed for ", path, ": ", trim(stderr)))
}

/// The lines of source before the last hunk on each side, `None` for a file
/// without hunks to show.
pub open spec fn context_lines(file: FileView) -> Option<(u32, u32)> {
    if file.binary || file.hunks.len() == 0 {
        None
    } else {
        let count = file.hunks.len() as int;
        Some((old_context(file.hunks, count), new_context(file.hunks, count)))
    }
}

/// Largest number of old-side lines before any of the first `n` hunks.
pub open spec fn old_context(hunks: Seq<HunkView>, n: int) -> u32
    decreases n,
{
    if n <= 0 {
        0
    } else {
        greatest(
            old_context(hunks, n - 1) as int,
            greatest(hunks[n - 1].old_start - 1, 0),
        ) as u32
    }
}

/// Largest number of new-side lines before any of the first `n` hunks.
pub open spec fn new_context(hunks: Seq<HunkView>, n: int) -> u32
    decreases n,
{
    if n <= 0 {
        0
    } else {
        greatest(
            new_context(hunks, n - 1) as int,
            greatest(hunks[n - 1].new_start - 1, 0),
        ) as u32
    }
}

pub fn source_context_lines(file: &DiffFile) -> (lines: Option<(u32, u32)>)
    ensures
        lines == context_lines(file@),
{
    if file.binary || file.hunks.len() == 0 {
        return None;
    }
    let ghost hunks = file@.hunks;
    let mut old_line: u32 = 0;
    let mut new_line: u32 = 0;
    let mut i: usize = 0;
    while i < file.hunks.len()
        invariant
            i <= file.hunks@.len(),
            hunks == hunk_views(file.hunks@),
            old_line == old_context(hunks, i as int),
            new_line == new_context(hunks, i as int),
        decreases file.hunks@.len() - i,
    {
        assert(hunks[i as int] == file.hunks@[i as int]@);
        let old_before: u32 = file.hunks[i].old_start.saturating_sub(1);
        let new_before: u32 = file.hunks[i].new_start.saturating_sub(1);
        if old_before > old_line {
            old_line = old_before;
        }
        if new_before > new_line {
            new_line = new_before;
        }
        i = i + 1;
    }
    Some((old_line, new_line))
}

/// What is known of a source without reading it: nothing of it is wanted, or it has no path.
pub open spec fn known_source(path: Seq<char>, max_context_line: u32) -> Option<SourceView> {
    if max_context_line == 0 {
        Some(SourceView::Loaded(seq![]))
    } else if path.len() == 0 {
        Some(SourceView::Unavailable)
    } else {
        None
    }
}

/// The snapshot of a source that need not be read.
pub fn guarded_source_prefix(path: &str, max_context_line: u32) -> (snapshot: Option<SourceSnapshot>)
    ensures
        match snapshot {
            Some(known) => (max_context_line == 0 && known@ == SourceView::Loaded(seq![])) || (
            max_context_line > 0 && path@.len() == 0 && known@ == SourceView::Unavailable),
            None => max_context_line > 0 && path@.len() > 0,
        },
        match snapshot {
            Some(known) => known_source(path@, max_context_line) == Some(known@),
            None => known_source(path@, max_context_line) is None,
        },
{
    if max_context_line == 0 {
        let empty = String::new();
        assert(empty@ =~= seq![]);
        return Some(SourceSnapshot::loaded(empty));
    }
    if path.is_empty() { Some(SourceSnapshot::Unavailable) } else { None }
}

/// Source text read so far.
#[derive(Debug, PartialEq, Eq)]
pub struct SourcePrefix {
    pub content: String,
    pub line_limit_reached: bool,
}

/// Number of bytes of a text.
pub open spec fn byte_len(text: Seq<char>) -> int {
    encode_utf8(text).len() as int
}

/// The first `n` lines.
pub open spec fn joined_lines(lines: Seq<Seq<char>>, n: int) -> Seq<char>
    decreases n,
{
    if n <= 0 { seq![] } else { joined_lines(lines, n - 1) + lines[n - 1] }
}

/// Whether each of the first `n` lines fits behind those before it.
pub open spec fn lines_fit(lines: Seq<Seq<char>>, n: int) -> bool
    decreases n,
{
    n <= 0 || (lines_fit(lines, n - 1) && byte_len(joined_lines(lines, n - 1)) + byte_len(
        lines[n - 1],
    ) <= MAX_SOURCE_CONTEXT_BYTES)
}

/// A text cut behind each line feed, from a position on.
pub open spec fn cut_lines_from(s: Seq<char>, from: int) -> Seq<Seq<char>>
    decreases s.len() - from,
    via cut_lines_decreases
{
    if from < 0 || from >= s.len() {
        seq![]
    } else {
        let at = find_from(s, '\n', from);
        if at >= s.len() {
            seq![after(s, from)]
        } else {
            seq![s.subrange(from, at + 1)] + cut_lines_from(s, at + 1)
        }
    }
}

#[via_fn]
proof fn cut_lines_decreases(s: Seq<char>, from: int) {
    if 0 <= from < s.len() {
        find_from_reaches(s, '\n', from);
    }
}

proof fn find_from_reaches(s: Seq<char>, c: char, from: int)
    requires
        0 <= from <= s.len(),
    ensures
        from <= find_from(s, c, from) <= s.len(),
    decreases s.len() - from,
{
    if from < s.len() && s[from] != c {
        find_from_reaches(s, c, from + 1);
    }
}

impl SourcePrefix {
    pub fn new() -> (prefix: Self)
        ensures
            prefix.content@ == Seq::<char>::empty(),
            !prefix.line_limit_reached,
    {
        SourcePrefix { content: String::new(), line_limit_reached: false }
    }

    /// Appends a line with its line feed, unless the text would get too long.
    pub fn push_line(&mut self, line: &str) -> (fits: bool)
        ensures
            fits == (least(byte_len(old(self).content@), usize::MAX as int) + least(
                byte_len(line@),
                usize::MAX as int,
            ) <= MAX_SOURCE_CONTEXT_BYTES),
            final(self).line_limit_reached == old(self).line_limit_reached,
            fits ==> final(self).content@ == old(self).content@ + line@,
            !fits ==> final(self).content@ == old(self).content@,
    {
        let held: usize = self.content.as_str().as_bytes().len();
        let more: usize = line.as_bytes().len();
        if held.saturating_add(more) > MAX_SOURCE_CONTEXT_BYTES {
            return false;
        }
        self.content.append(line);
        true
    }
}

/// The text before a line, where that is not too long.
pub fn read_source_prefix(source: &str, max_context_line: u32) -> (prefix: Result<
    SourcePrefix,
    String,
>)
    ensures
        ({
            let lines = cut_lines_from(source@, 0);
            let wanted = least(max_context_line as int, lines.len() as int);
            match prefix {
                Ok(read) => lines_fit(lines, wanted) && read.content@ == joined_lines(
                    lines,
                    wanted,
                ) && read.line_limit_reached == (lines.len() >= max_context_line),
                Err(message) => !lines_fit(lines, wanted) && message@
                    == "source context exceeds byte cap"@,
            }
        }),
{
    let chars = chars_of(source);
    let ghost lines = cut_lines_from(source@, 0);
    let ghost wanted = least(max_context_line as int, lines.len() as int);
    let mut prefix = SourcePrefix::new();
    let mut count: u32 = 0;
    let mut from: usize = 0;
    assert(lines.skip(0) =~= lines);
    while count < max_context_line && from < chars.len()
        invariant
            count <= max_context_line,
            from <= chars@.len(),
            chars@ == source@,
            lines == cut_lines_from(source@, 0),
            wanted == least(max_context_line as int, lines.len() as int),
            count <= lines.len(),
            lines.skip(count as int) == cut_lines_from(source@, from as int),
            lines_fit(lines, count as int),
            prefix.content@ == joined_lines(lines, count as int),
            !prefix.line_limit_reached,
        decreases max_context_line - count,
    {
        let at: usize = position_from(chars.as_slice(), '\n', from);
        let end: usize = if at < chars.len() { at + 1 } else { at };
        let line = string_between(chars.as_slice(), from, end);
        proof {
            let rest = lines.skip(count as int);
            assert(rest.len() > 0);
            assert(rest[0] == line@);
            assert(lines[count as int] == rest[0]);
            assert(rest.skip(1) =~= lines.skip(count + 1));
            assert(rest.skip(1) =~= cut_lines_from(source@, end as int));
            fit_is_prefix(lines, count + 1, wanted);
        }
        if !prefix.push_line(line.as_str()) {
            assert(!lines_fit(lines, count + 1));
            return Err("source context exceeds byte cap".to_owned());
        }
        count = count + 1;
        from = end;
    }
    assert(lines.skip(count as int).len() == lines.len() - count);
    prefix.line_limit_reached = count == max_context_line;
    Ok(prefix)
}

proof fn fit_is_prefix(lines: Seq<Seq<char>>, a: int, b: int)
    requires
        a <= b,
    ensures
        lines_fit(lines, b) ==> lines_fit(lines, a),
    decreases b - a,
{
    if a < b {
        fit_is_prefix(lines, a, b - 1);
    }
}

/// The paths in a list with a zero character behind each.
pub open spec fn listed_paths(parts: Seq<Seq<char>>) -> Seq<Seq<char>>
    decreases parts.len(),
{
    if parts.len() == 0 {
        seq![]
    } else if parts.last().len() == 0 {
        listed_paths(parts.drop_last())
    } else {
        listed_paths(parts.drop_last()).push(parts.last())
    }
}

/// The paths in the output of `git ls-files -z`.
pub fn untracked_paths(output: &str) -> (paths: Vec<String>)
    ensures
        texts(paths@) == listed_paths(pieces(output@, '\0')),
{
    broadcast use texts_push;

    let parts = split(output, '\0');
    let ghost all = texts(parts@);
    let mut paths: Vec<String> = Vec::new();
    let mut i: usize = 0;
    assert(all.take(0) =~= seq![]);
    assert(texts(paths@) =~= seq![]);
    while i < parts.len()
        invariant
            i <= parts@.len(),
            all == texts(parts@),
            texts(paths@) == listed_paths(all.take(i as int)),
        decreases parts@.len() - i,
    {
        assert(all.take(i + 1).drop_last() =~= all.take(i as int));
        assert(all.take(i + 1).last() == parts@[i as int]@);
        if !parts[i].as_str().is_empty() {
            let copy = parts[i].clone();
            paths.push(copy);
        }
        i = i + 1;
    }
    assert(all.take(all.len() as int) =~= all);
    paths
}

pub fn is_untracked_path(untracked_paths: &Vec<String>, path: &str) -> (untracked: bool)
    ensures
        untracked == texts(untracked_paths@).contains(path@),
{
    let ghost all = texts(untracked_paths@);
    let mut i: usize = 0;
    while i < untracked_paths.len()
        invariant
            i <= untracked_paths@.len(),
            all == texts(untracked_paths@),
            forall|j: int| 0 <= j < i ==> #[trigger] all[j] != path@,
        decreases untracked_paths@.len() - i,
    {
        assert(all[i as int] == untracked_paths@[i as int]@);
        if same(untracked_paths[i].as_str(), path) {
            return true;
        }
        i = i + 1;
    }
    false
}

/// Whether two diffs are of one file: by the path that is shown, or by either of
/// their paths.
pub open spec fn one_file(a: FileView, b: FileView) -> bool {
    ||| a.shown_path() == b.shown_path()
    ||| a.path.len() > 0 && a.path == b.path
    ||| a.old_path.len() > 0 && a.old_path == b.old_path
}

/// Position of the first file, from a position on, that is the same as another.
pub open spec fn file_position(files: Seq<FileView>, target: FileView, from: int) -> Option<int>
    decreases files.len() - from,
{
    if from >= files.len() {
        None
    } else if one_file(files[from], target) {
        Some(from)
    } else {
        file_position(files, target, from + 1)
    }
}

/// The diff of the same file among others.
pub open spec fn counterpart(files: Seq<FileView>, target: FileView) -> Option<FileView> {
    match file_position(files, target, 0) {
        Some(at) => Some(files[at]),
        None => None,
    }
}

pub fn same_file_identity(left: &DiffFile, right: &DiffFile) -> (is: bool)
    ensures
        is == one_file(left@, right@),
{
    same(left.display_path(), right.display_path()) || non_empty_eq(
        left.path.as_str(),
        right.path.as_str(),
    ) || non_empty_eq(left.old_path.as_str(), right.old_path.as_str())
}

fn non_empty_eq(left: &str, right: &str) -> (is: bool)
    ensures
        is == (left@.len() > 0 && left@ == right@),
{
    !left.is_empty() && same(left, right)
}

pub fn matching_file<'a>(files: &'a Vec<DiffFile>, target: &DiffFile) -> (found: Option<
    &'a DiffFile,
>)
    ensures
        match found {
            Some(file) => counterpart(file_views(files@), target@) == Some(file@),
            None => counterpart(file_views(files@), target@) is None,
        },
{
    let ghost views = file_views(files@);
    let mut i: usize = 0;
    while i < files.len()
        invariant
            i <= files@.len(),
            views == file_views(files@),
            file_position(views, target@, 0) == file_position(views, target@, i as int),
        decreases files@.len() - i,
    {
        assert(views[i as int] == files@[i as int]@);
        if same_file_identity(&files[i], target) {
            return Some(&files[i]);
        }
        i = i + 1;
    }
    None
}

/// The stage of a hunk: staged where it meets the staged diff of its file, unstaged
/// where the file is untracked or it meets the unstaged one.
pub open spec fn stage_of_hunk(
    hunk: HunkView,
    staged: Option<FileView>,
    unstaged: Option<FileView>,
    untracked: bool,
) -> FileStage {
    FileStage::of(
        staged is Some && meets_file(hunk, staged->0),
        untracked || (unstaged is Some && meets_file(hunk, unstaged->0)),
    )
}

/// A file with the stages of its hunks.
pub open spec fn with_hunk_stages(
    file: FileView,
    staged: Seq<FileView>,
    unstaged: Seq<FileView>,
    untracked: Seq<Seq<char>>,
) -> FileView {
    FileView {
        hunks: Seq::new(
            file.hunks.len(),
            |i: int|
                HunkView {
                    stage: stage_of_hunk(
                        file.hunks[i],
                        counterpart(staged, file),
                        counterpart(unstaged, file),
                        untracked.contains(file.shown_path()),
                    ),
                    ..file.hunks[i]
                },
        ),
        ..file
    }
}

/// Sets the stages of all hunks from the staged and the unstaged diff.
pub fn annotate_hunk_stage_states_from_diffs(
    changeset: &mut Changeset,
    staged: &Changeset,
    unstaged: &Changeset,
    untracked_paths: &Vec<String>,
)
    ensures
        final(changeset)@ == (ChangesetView {
            files: Seq::new(
                old(changeset)@.files.len(),
                |i: int|
                    with_hunk_stages(
                        old(changeset)@.files[i],
                        staged@.files,
                        unstaged@.files,
                        texts(untracked_paths@),
                    ),
            ),
            ..old(changeset)@
        }),
{
    let ghost before = changeset@.files;
    let mut files: Vec<DiffFile> = Vec::new();
    core::mem::swap(&mut files, &mut changeset.files);
    let mut i: usize = 0;
    assert(file_views(files@) == before);
    while i < files.len()
        invariant
            i <= files@.len(),
            files@.len() == before.len(),
            forall|j: int| i <= j < before.len() ==> (#[trigger] files@[j])@ == before[j],
            forall|j: int|
                0 <= j < i ==> (#[trigger] files@[j])@ == with_hunk_stages(
                    before[j],
                    staged@.files,
                    unstaged@.files,
                    texts(untracked_paths@),
                ),
        decreases files@.len() - i,
    {
        assert(files@[i as int]@ == before[i as int]);
        let annotated = annotate_file_hunks(&files[i], staged, unstaged, untracked_paths);
        files.set(i, annotated);
        i = i + 1;
    }
    changeset.files = files;
    assert(changeset@.files =~= Seq::new(
        before.len(),
        |i: int|
            with_hunk_stages(
                before[i],
                staged@.files,
                unstaged@.files,
                texts(untracked_paths@),
            ),
    ));
}

fn annotate_file_hunks(
    file: &DiffFile,
    staged: &Changeset,
    unstaged: &Changeset,
    untracked_paths: &Vec<String>,
) -> (annotated: DiffFile)
    ensures
        annotated@ == with_hunk_stages(
            file@,
            staged@.files,
            unstaged@.files,
            texts(untracked_paths@),
        ),
{
    let staged_file = matching_file(&staged.files, file);
    let unstaged_file = matching_file(&unstaged.files, file);
    let untracked = is_untracked_path(untracked_paths, file.display_path());
    let mut hunks: Vec<DiffHunk> = Vec::new();
    let ghost views = file@.hunks;
    let ghost wanted = with_hunk_stages(
        file@,
        staged@.files,
        unstaged@.files,
        texts(untracked_paths@),
    );
    let mut i: usize = 0;
    assert(hunk_views(hunks@) =~= wanted.hunks.take(0));
    while i < file.hunks.len()
        invariant
            i <= file.hunks@.len(),
            views == hunk_views(file.hunks@),
            views == file@.hunks,
            wanted == with_hunk_stages(
                file@,
                staged@.files,
                unstaged@.files,
                texts(untracked_paths@),
            ),
            match staged_file {
                Some(found) => counterpart(staged@.files, file@) == Some(found@),
                None => counterpart(staged@.files, file@) is None,
            },
            match unstaged_file {
                Some(found) => counterpart(unstaged@.files, file@) == Some(found@),
                None => counterpart(unstaged@.files, file@) is None,
            },
            untracked == texts(untracked_paths@).contains(file@.shown_path()),
            hunk_views(hunks@) == wanted.hunks.take(i as int),
        decreases file.hunks@.len() - i,
    {
        let hunk = &file.hunks[i];
        assert(views[i as int] == hunk@);
        let in_staged = match staged_file {
            Some(found) => hunk_overlaps_file(hunk, found),
            None => false,
        };
        let in_unstaged = untracked || (match unstaged_file {
            Some(found) => hunk_overlaps_file(hunk, found),
            None => false,
        });
        let mut copy = hunk.clone();
        copy.stage = FileStage::from_staged_unstaged(in_staged, in_unstaged);
        assert(copy@ == wanted.hunks[i as int]);
        let ghost so_far = hunks@;
        hunks.push(copy);
        assert(hunk_views(hunks@) =~= hunk_views(so_far).push(copy@));
        assert(wanted.hunks.take(i + 1) =~= wanted.hunks.take(i as int).push(
            wanted.hunks[i as int],
        ));
        i = i + 1;
    }
    assert(wanted.hunks.take(wanted.hunks.len() as int) =~= wanted.hunks);
    let mut annotated = file.clone();
    annotated.hunks = hunks;
    annotated
}

/// Sets the stage of a file from what Git says about it.
pub fn annotate_stage_state(
    file: &mut DiffFile,
    staged: bool,
    unstaged: bool,
    untracked_paths: &Vec<String>,
)
    ensures
        final(file)@ == (FileView {
            stage: FileStage::of(
                staged,
                unstaged || texts(untracked_paths@).contains(old(file)@.shown_path()),
            ),
            ..old(file)@
        }),
{
    let changed = unstaged || is_untracked_path(untracked_paths, file.display_path());
    file.stage = FileStage::from_staged_unstaged(staged, changed);
}

/// Which diff the hunks of a patch come from.
#[derive(Debug, Clone, Copy, PartialEq, Eq, Structural)]
pub enum HunkPatchSource {
    Staged,
    Unstaged,
}

/// What a patch is applied to.
#[derive(Debug, Clone, Copy, PartialEq, Eq, Structural)]
pub enum GitApplyTarget {
    Index,
    Worktree,
}

impl HunkPatchSource {
    pub open spec fn name(self) -> Seq<char> {
        match self {
            HunkPatchSource::Staged => "staged"@,
            HunkPatchSource::Unstaged => "unstaged"@,
        }
    }

    pub fn label(self) -> (label: &'static str)
        ensures
            label@ == self.name(),
    {
        match self {
            HunkPatchSource::Staged => "staged",
            HunkPatchSource::Unstaged => "unstaged",
        }
    }

    /// Whether the patch is taken back.
    /// Whether the patch of a hunk is to be taken back.
    pub open spec fn taken_back(self) -> bool {
        match self {
            HunkPatchSource::Staged => true,
            HunkPatchSource::Unstaged => false,
        }
    }

    pub fn reverse(self) -> (reverse: bool)
        ensures
            reverse == self.taken_back(),
            reverse == (self is Staged),
    {
        matches!(self, HunkPatchSource::Staged)
    }
}

/// The message about a hunk that a file does not have.
pub open spec fn no_hunk_message(file: FileView, hunk_index: int) -> Seq<char> {
    "hunk "@ + decimal(least(hunk_index + 1, u64::MAX as int) as nat) + " does not exist in "@
        + file.shown_path()
}

fn missing_hunk(file: &DiffFile, hunk_index: usize) -> (message: String)
    ensures
        message@ == no_hunk_message(file@, hunk_index as int),
{
    cat4(
        "hunk ",
        decimal_of((hunk_index as u64).saturating_add(1)).as_str(),
        " does not exist in ",
        file.display_path(),
    )
}

/// The diff that a hunk is taken from to be staged or unstaged.
pub open spec fn source_for_stage(stage: FileStage) -> HunkPatchSource {
    match stage {
        FileStage::Unstaged => HunkPatchSource::Unstaged,
        FileStage::Staged | FileStage::Mixed => HunkPatchSource::Staged,
    }
}

/// Which diff a hunk is moved out of when its staging is toggled.
pub fn toggle_source(file: &DiffFile, hunk_index: usize) -> (source: Result<
    HunkPatchSource,
    String,
>)
    ensures
        source is Ok ==> source->Ok_0 == source_for_stage(file@.hunks[hunk_index as int].stage),
        match source {
            Ok(found) => hunk_index < file@.hunks.len() && found == (
            if file@.hunks[hunk_index as int].stage is Unstaged {
                HunkPatchSource::Unstaged
            } else {
                HunkPatchSource::Staged
            }),
            Err(message) => hunk_index >= file@.hunks.len() && message@ == no_hunk_message(
                file@,
                hunk_index as int,
            ),
        },
{
    if hunk_index >= file.hunks.len() {
        return Err(missing_hunk(file, hunk_index));
    }
    assert(file@.hunks[hunk_index as int] == file.hunks@[hunk_index as int]@);
    match file.hunks[hunk_index].stage {
        FileStage::Unstaged => Ok(HunkPatchSource::Unstaged),
        FileStage::Staged | FileStage::Mixed => Ok(HunkPatchSource::Staged),
    }
}

/// What becomes of a hunk: a patch, or a message why there is none.
pub open spec fn hunk_patch_outcome(
    file: FileView,
    selected: HunkView,
    source_files: Seq<FileView>,
    source: HunkPatchSource,
) -> Result<Seq<char>, Seq<char>> {
    match counterpart(source_files, file) {
        Some(found) => if meets_file(selected, found) {
            Ok(
                patch_header(found) + meeting_hunks_patch(
                    found.hunks,
                    selected,
                    found.hunks.len() as int,
                ),
            )
        } else {
            Err(
                "no "@ + source.name() + " hunk overlaps selected hunk in "@ + file.shown_path(),
            )
        },
        None => Err("no "@ + source.name() + " hunk found for "@ + file.shown_path()),
    }
}

/// The patch with the hunks of a diff that share a line with a hunk of a file.
pub fn matching_hunk_patch(
    file: &DiffFile,
    selected_hunk: &DiffHunk,
    source_changeset: &Changeset,
    source: HunkPatchSource,
) -> (patch: Result<String, String>)
    ensures
        ({
            let outcome = hunk_patch_outcome(
                file@,
                selected_hunk@,
                source_changeset@.files,
                source,
            );
            match patch {
                Ok(text) => outcome == Ok::<Seq<char>, Seq<char>>(text@),
                Err(message) => outcome == Err::<Seq<char>, Seq<char>>(message@),
            }
        }),
{
    match matching_file(&source_changeset.files, file) {
        Some(found) => match overlapping_hunk_patch(found, selected_hunk) {
            Some(text) => Ok(text),
            None => Err(
                cat4(
                    "no ",
                    source.label(),
                    " hunk overlaps selected hunk in ",
                    file.display_path(),
                ),
            ),
        },
        None => Err(cat4("no ", source.label(), " hunk found for ", file.display_path())),
    }
}

/// Why a single hunk of a file cannot be discarded, if it cannot.
pub open spec fn hunk_discard_error(file: FileView, hunk_index: int, untracked: Seq<Seq<char>>) -> Option<
    Seq<char>,
> {
    if hunk_index >= file.hunks.len() {
        Some(no_hunk_message(file, hunk_index))
    } else if untracked.contains(file.shown_path()) {
        Some(
            "cannot discard a single hunk from untracked file "@ + file.shown_path()
                + "; discard the file from the sidebar"@,
        )
    } else {
        None
    }
}

pub fn check_hunk_discard(file: &DiffFile, hunk_index: usize, untracked_paths: &Vec<String>) -> (result: Result<
    (),
    String,
>)
    ensures
        match result {
            Ok(()) => hunk_discard_error(file@, hunk_index as int, texts(untracked_paths@)) is None,
            Err(message) => hunk_discard_error(
                file@,
                hunk_index as int,
                texts(untracked_paths@),
            ) == Some(message@),
        },
{
    if hunk_index >= file.hunks.len() {
        return Err(missing_hunk(file, hunk_index));
    }
    if is_untracked_path(untracked_paths, file.display_path()) {
        return Err(
            cat3(
                "cannot discard a single hunk from untracked file ",
                file.display_path(),
                "; discard the file from the sidebar",
            ),
        );
    }
    Ok(())
}

/// How a file is discarded.
#[derive(Debug, Clone, Copy, PartialEq, Eq, Structural)]
pub enum DiscardAction {
    /// The file is deleted.
    RemoveUntracked,
    /// The file is restored from the index.
    RestoreWorktree,
}

/// How the changes of a file are discarded, if there are any.
pub open spec fn discard_of(untracked: bool, unstaged: bool) -> Option<DiscardAction> {
    if untracked {
        Some(DiscardAction::RemoveUntracked)
    } else if unstaged {
        Some(DiscardAction::RestoreWorktree)
    } else {
        None
    }
}

/// How a file is discarded, or why it cannot be.
pub fn file_discard_action(path: &str, untracked: bool, unstaged: bool) -> (action: Result<
    DiscardAction,
    String,
>)
    ensures
        match action {
            Ok(found) => discard_of(untracked, unstaged) == Some(found),
            Err(_) => discard_of(untracked, unstaged) is None,
        },
        match action {
            Ok(found) => (untracked || unstaged) && found == (if untracked {
                DiscardAction::RemoveUntracked
            } else {
                DiscardAction::RestoreWorktree
            }),
            Err(message) => !untracked && !unstaged && message@
                == "no unstaged changes to discard in "@ + path@,
        },
{
    if untracked {
        return Ok(DiscardAction::RemoveUntracked);
    }
    if !unstaged {
        return Err(cat2("no unstaged changes to discard in ", path));
    }
    Ok(DiscardAction::RestoreWorktree)
}

/// What is known of a file that is to be discarded.
#[derive(Debug)]
pub struct DiscardCandidate {
    pub path: String,
    pub untracked: bool,
    pub unstaged: bool,
}

/// The first file, from a position on, without anything to discard.
pub open spec fn nothing_to_discard(files: Seq<DiscardCandidate>, from: int) -> Option<Seq<char>>
    decreases files.len() - from,
{
    if from >= files.len() {
        None
    } else if !files[from].untracked && !files[from].unstaged {
        Some(files[from].path@)
    } else {
        nothing_to_discard(files, from + 1)
    }
}

/// Files are discarded together or, where one has nothing to discard, not at all.
pub fn check_files_discard(files: &Vec<DiscardCandidate>) -> (result: Result<(), String>)
    ensures
        match result {
            Ok(()) => files@.len() > 0 && nothing_to_discard(files@, 0) is None,
            Err(message) => {
                ||| files@.len() == 0 && message@ == "no files to discard"@
                ||| files@.len() > 0 && nothing_to_discard(files@, 0) is Some && message@
                    == "no unstaged changes to discard in "@ + nothing_to_discard(files@, 0)->0
            },
        },
{
    if files.len() == 0 {
        return Err("no files to discard".to_owned());
    }
    let mut i: usize = 0;
    while i < files.len()
        invariant
            i <= files@.len(),
            files@.len() > 0,
            nothing_to_discard(files@, 0) == nothing_to_discard(files@, i as int),
        decreases files@.len() - i,
    {
        let file = &files[i];
        if !file.untracked && !file.unstaged {
            return Err(cat2("no unstaged changes to discard in ", file.path.as_str()));
        }
        i = i + 1;
    }
    Ok(())
}

/// The arguments of `git apply`.
pub open spec fn apply_args(target: GitApplyTarget, reverse: bool) -> Seq<Seq<char>> {
    let start = if target is Index { seq!["apply"@, "--cached"@] } else { seq!["apply"@] };
    let quiet = start.push("--whitespace=nowarn"@);
    if reverse { quiet.push("--reverse"@) } else { quiet }
}

pub fn git_apply_args(target: GitApplyTarget, reverse: bool) -> (args: Vec<String>)
    ensures
        texts(args@) == apply_args(target, reverse),
{
    let mut args = vec!["apply".to_owned()];
    if target == GitApplyTarget::Index {
        args.push("--cached".to_owned());
    }
    args.push("--whitespace=nowarn".to_owned());
    if reverse {
        args.push("--reverse".to_owned());
    }
    assert(texts(args@) =~= apply_args(target, reverse));
    args
}

/// What is said when `git apply` fails.
pub open spec fn apply_failure(target: GitApplyTarget, reverse: bool) -> Seq<char> {
    match (target, reverse) {
        (GitApplyTarget::Index, true) => "git apply --cached --reverse failed"@,
        (GitApplyTarget::Index, false) => "git apply --cached failed"@,
        (GitApplyTarget::Worktree, true) => "git apply --reverse failed"@,
        (GitApplyTarget::Worktree, false) => "git apply failed"@,
    }
}

pub fn git_apply_context(target: GitApplyTarget, reverse: bool) -> (context: &'static str)
    ensures
        context@ == apply_failure(target, reverse),
{
    match (target, reverse) {
        (GitApplyTarget::Index, true) => "git apply --cached --reverse failed",
        (GitApplyTarget::Index, false) => "git apply --cached failed",
        (GitApplyTarget::Worktree, true) => "git apply --reverse failed",
        (GitApplyTarget::Worktree, false) => "git apply failed",
    }
}

/// Whether there is a diff, by the exit code of `git diff --quiet`; other codes say nothing.
pub open spec fn file_differs(code: Option<i32>) -> Option<bool> {
    if code == Some(0i32) {
        Some(false)
    } else if code == Some(1i32) {
        Some(true)
    } else {
        None
    }
}

/// What the exit code of `git diff --quiet` says: whether there is a diff.
pub fn has_file_diff(code: Option<i32>, path: &str, cached: bool) -> (result: Result<bool, String>)
    ensures
        match result {
            Ok(differs) => code == Some(if differs { 1i32 } else { 0i32 }),
            Err(message) => code != Some(0i32) && code != Some(1i32) && message@ == (if cached {
                "git diff --cached failed"@
            } else {
                "git diff failed"@
            }) + " for "@ + path@,
        },
        match result {
            Ok(differs) => file_differs(code) == Some(differs),
            Err(_) => file_differs(code) is None,
        },
{
    match code {
        Some(0) => Ok(false),
        Some(1) => Ok(true),
        _ => Err(
            cat3(
                if cached { "git diff --cached failed" } else { "git diff failed" },
                " for ",
                path,
            ),
        ),
    }
}

/// What a failed command left behind: its error output, its other output, else how
/// it ended.
pub open spec fn failure_text(stderr: Seq<char>, stdout: Seq<char>, status: Seq<char>) -> Seq<char> {
    let error = trimmed(stderr);
    let output = trimmed(stdout);
    if error.len() > 0 && output.len() > 0 {
        error + "\n"@ + output
    } else if error.len() > 0 {
        error
    } else if output.len() > 0 {
        output
    } else {
        "exit status "@ + status
    }
}

pub fn command_failure_text(stderr: &str, stdout: &str, status: &str) -> (text: String)
    ensures
        text@ == failure_text(stderr@, stdout@, status@),
{
    let error = trim(stderr);
    let output = trim(stdout);
    if !error.is_empty() && !output.is_empty() {
        cat3(error, "\n", output)
    } else if !error.is_empty() {
        error.to_owned()
    } else if !output.is_empty() {
        output.to_owned()
    } else {
        cat2("exit status ", status)
    }
}

/// The first of the default branches that exists.
pub open spec fn first_existing(exists: Seq<bool>) -> Option<Seq<char>> {
    if exists[0] {
        Some(default_base_refs()[0])
    } else if exists[1] {
        Some(default_base_refs()[1])
    } else if exists[2] {
        Some(default_base_refs()[2])
    } else {
        None
    }
}

fn first_existing_ref(exists: &[bool; 3]) -> (name: Option<String>)
    ensures
        text_option(name) == first_existing(exists@),
{
    if exists[0] {
        Some("origin/HEAD".to_owned())
    } else if exists[1] {
        Some("main".to_owned())
    } else if exists[2] {
        Some("master".to_owned())
    } else {
        None
    }
}

/// The branch that a review is based on, if there is one.
pub open spec fn chosen_base(base: Option<Seq<char>>, exists: Seq<bool>) -> Option<Seq<char>> {
    match base {
        Some(name) => if trimmed(name).len() > 0 { Some(name) } else { first_existing(exists) },
        None => first_existing(exists),
    }
}

/// The branch that a review is based on: the requested one, else the first of the
/// default ones that exists.
pub fn resolve_base_ref(base: Option<String>, exists: &[bool; 3]) -> (result: Result<String, String>)
    ensures
        ({
            let requested = match text_option(base) {
                Some(name) => if trimmed(name).len() > 0 { Some(name) } else { None },
                None => None,
            };
            match result {
                Ok(name) => (requested is Some && name@ == requested->0) || (requested is None
                    && first_existing(exists@) == Some(name@)),
                Err(message) => requested is None && first_existing(exists@) is None && message@
                    == "could not determine base branch; pass one explicitly"@,
            }
        }),
        match result {
            Ok(name) => chosen_base(text_option(base), exists@) == Some(name@),
            Err(_) => chosen_base(text_option(base), exists@) is None,
        },
{
    if let Some(name) = base {
        if !trim(name.as_str()).is_empty() {
            return Ok(name);
        }
    }
    match first_existing_ref(exists) {
        Some(name) => Ok(name),
        None => Err("could not determine base branch; pass one explicitly".to_owned()),
    }
}

/// The branch that unpublished changes are counted from, if there is one.
pub open spec fn chosen_upstream(
    upstream: Option<Seq<char>>,
    origin_branch: Option<Seq<char>>,
    exists: Seq<bool>,
) -> Option<Seq<char>> {
    if upstream is Some {
        upstream
    } else if origin_branch is Some {
        origin_branch
    } else {
        first_existing(exists)
    }
}

/// The branch that unpublished changes are told apart by: the upstream branch, the
/// branch of the same name at the origin, else the first of the default ones that
/// exists.
pub fn unpublished_base_ref(
    upstream: Option<String>,
    origin_branch: Option<String>,
    exists: &[bool; 3],
) -> (name: Option<String>)
    ensures
        text_option(name) == chosen_upstream(
            text_option(upstream),
            text_option(origin_branch),
            exists@,
        ),
        text_option(name) == (match (text_option(upstream), text_option(origin_branch)) {
            (Some(branch), _) => Some(branch),
            (None, Some(branch)) => Some(branch),
            (None, None) => first_existing(exists@),
        }),
{
    if upstream.is_some() {
        return upstream;
    }
    if origin_branch.is_some() {
        return origin_branch;
    }
    first_existing_ref(exists)
}

/// The commit among what `git merge-base` printed, if any.
pub open spec fn printed_commit(output: Seq<char>) -> Option<Seq<char>> {
    if trimmed(output).len() == 0 { None } else { Some(trimmed(output)) }
}

/// The commit that `git merge-base` printed.
pub fn merge_base_result(output: &str, base_ref: &str) -> (commit: Result<String, String>)
    ensures
        match commit {
            Ok(found) => found@ == trimmed(output@) && found@.len() > 0,
            Err(message) => trimmed(output@).len() == 0 && message@
                == "git merge-base returned no commit for "@ + base_ref@,
        },
        match commit {
            Ok(found) => printed_commit(output@) == Some(found@),
            Err(_) => printed_commit(output@) is None,
        },
{
    let commit = trim(output);
    if commit.is_empty() {
        return Err(cat2("git merge-base returned no commit for ", base_ref));
    }
    Ok(commit.to_owned())
}

/// What is checked out: the branch, else the commit.
pub open spec fn checked_out(branch: Option<Seq<char>>, commit: Option<Seq<char>>) -> Option<
    Seq<char>,
> {
    match (branch, commit) {
        (Some(name), _) => Some(name),
        (None, Some(sha)) => Some("detached "@ + sha),
        (None, None) => None,
    }
}

/// What is checked out: the branch, else the commit.
pub fn current_branch_label(branch: Option<String>, commit: Option<String>) -> (label: Option<String>)
    ensures
        text_option(label) == (match (text_option(branch), text_option(commit)) {
            (Some(name), _) => Some(name),
            (None, Some(sha)) => Some("detached "@ + sha),
            (None, None) => None,
        }),
        text_option(label) == checked_out(text_option(branch), text_option(commit)),
{
    if branch.is_some() {
        return branch;
    }
    match commit {
        Some(sha) => Some(cat2("detached ", sha.as_str())),
        None => None,
    }
}

/// The title of a worktree review.
pub open spec fn worktree_review(label: Option<Seq<char>>) -> Seq<char> {
    match label {
        Some(branch) => "Working tree changes ("@ + branch + ")"@,
        None => "Working tree changes"@,
    }
}

/// The title of a pull request review.
pub open spec fn branch_review(head: Option<Seq<char>>, base_ref: Seq<char>) -> Seq<char> {
    "PR review "@ + (match head {
        Some(branch) => branch,
        None => "HEAD"@,
    }) + " into "@ + base_ref
}

/// The title of a worktree review.
pub fn worktree_title(label: Option<String>) -> (title: String)
    ensures
        title@ == (match text_option(label) {
            Some(branch) => "Working tree changes ("@ + branch + ")"@,
            None => "Working tree changes"@,
        }),
        title@ == worktree_review(text_option(label)),
{
    match label {
        Some(branch) => cat3("Working tree changes (", branch.as_str(), ")"),
        None => "Working tree changes".to_owned(),
    }
}

/// The title of a pull request review.
pub fn pr_title(head: Option<String>, base_ref: &str) -> (title: String)
    ensures
        title@ == "PR review "@ + (match text_option(head) {
            Some(branch) => branch,
            None => "HEAD"@,
        }) + " into "@ + base_ref@,
        title@ == branch_review(text_option(head), base_ref@),
{
    let head = match head {
        Some(branch) => branch,
        None => "HEAD".to_owned(),
    };
    cat4("PR review ", head.as_str(), " into ", base_ref)
}

/// The command behind a pull request review.
pub fn pr_source_label(base_ref: &str) -> (label: String)
    ensures
        label@ == "git diff "@ + base_ref@ + "...HEAD"@,
{
    cat3("git diff ", base_ref, "...HEAD")
}

/// The patches of the first `n` files behind each other, each on a line of its own.
pub open spec fn joined_patches(patches: Seq<Seq<char>>, n: int) -> Seq<char>
    decreases n,
{
    if n <= 0 {
        seq![]
    } else {
        let before = joined_patches(patches, n - 1);
        let apart = if before.len() > 0 && before.last() != '\n' { before.push('\n') } else { before };
        apart + patches[n - 1]
    }
}

/// A patch with those of the untracked files behind it.
pub fn with_untracked_patches(patch: String, untracked: &Vec<String>) -> (all: String)
    ensures
        all@ == patch@ + joined_patches(texts(untracked@), untracked@.len() as int),
{
    let ghost patches = texts(untracked@);
    let mut joined = String::new();
    let mut i: usize = 0;
    assert(joined@ =~= joined_patches(patches, 0));
    while i < untracked.len()
        invariant
            i <= untracked@.len(),
            patches == texts(untracked@),
            joined@ == joined_patches(patches, i as int),
        decreases untracked@.len() - i,
    {
        assert(patches[i as int] == untracked@[i as int]@);
        let count: usize = joined.as_str().unicode_len();
        if count > 0 && joined.as_str().get_char(count - 1) != '\n' {
            joined.push('\n');
        }
        joined.append(untracked[i].as_str());
        i = i + 1;
    }
    cat2(patch.as_str(), joined.as_str())
}

} // verus!
