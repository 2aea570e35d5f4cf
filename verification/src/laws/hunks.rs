//! Which hunks a patch is made of, and which lines they cover.

use vstd::prelude::*;
use vstd::string::*;

use crate::laws::texts::{holds, holds_in_sum, holds_itself};
use crate::model::{
    first_change_in_hunk, first_change_in_hunks, first_change_in_lines, DiffLineKind, FileView,
    HunkView, LineView,
};
use crate::patch::{
    hunk_patch, hunk_range, hunks_meet, hunks_patch, meeting_hunks_patch, patch_header, patch_title,
    path_before, path_now, ranges_meet, written_range_is_read, written_side_is_read, FileDraft,
    HunkRange,
};
use crate::quoting::{quoted_path, quoting_is_undone};
use crate::scroll_text::least;
use crate::text::{
    after, decimal, decimal_is_its_number, first_white_is_first, is_digit, is_white, stands_at,
    white_from_bounds, without_prefix, words_from, words_of,
};

verus! {

/// Whether a range of lines covers a line.
pub open spec fn covers_line(start: int, lines: int, line: int) -> bool {
    start <= line < start + lines
}

/// Two ranges with lines meet exactly where some line lies in both; one without lines meets
/// those that cover the line that it starts at. Either may be named first.
pub proof fn ranges_meet_in_a_line(a_start: int, a_lines: int, b_start: int, b_lines: int)
    requires
        0 <= a_lines,
        0 <= b_lines,
    ensures
        a_lines > 0 && b_lines > 0 ==> (ranges_meet(a_start, a_lines, b_start, b_lines) <==> exists|
            line: int,
        |
            #[trigger] covers_line(a_start, a_lines, line) && covers_line(b_start, b_lines, line)),
        a_lines == 0 && b_lines > 0 ==> (ranges_meet(a_start, a_lines, b_start, b_lines)
            <==> covers_line(b_start, b_lines, a_start)),
        ranges_meet(a_start, a_lines, b_start, b_lines) == ranges_meet(
            b_start,
            b_lines,
            a_start,
            a_lines,
        ),
{
    if a_lines > 0 && b_lines > 0 && ranges_meet(a_start, a_lines, b_start, b_lines) {
        let line = if a_start < b_start { b_start } else { a_start };
        assert(covers_line(a_start, a_lines, line) && covers_line(b_start, b_lines, line));
    }
}

/// Two hunks meet where a line of the old side or one of the new side lies in both, and
/// nowhere else.
pub proof fn hunks_meet_in_a_line(a: HunkView, b: HunkView)
    requires
        a.old_lines > 0 && a.new_lines > 0 && b.old_lines > 0 && b.new_lines > 0,
    ensures
        hunks_meet(a, b) <==> exists|line: int|
            #![trigger covers_line(a.old_start as int, a.old_lines as int, line)]
            #![trigger covers_line(a.new_start as int, a.new_lines as int, line)]
            (covers_line(a.old_start as int, a.old_lines as int, line) && covers_line(
                b.old_start as int,
                b.old_lines as int,
                line,
            )) || (covers_line(a.new_start as int, a.new_lines as int, line) && covers_line(
                b.new_start as int,
                b.new_lines as int,
                line,
            )),
        hunks_meet(a, b) == hunks_meet(b, a),
        hunks_meet(a, a),
{
    ranges_meet_in_a_line(
        a.old_start as int,
        a.old_lines as int,
        b.old_start as int,
        b.old_lines as int,
    );
    ranges_meet_in_a_line(
        a.new_start as int,
        a.new_lines as int,
        b.new_start as int,
        b.new_lines as int,
    );
}

/// The patch for a selected hunk holds every hunk that shares a line with it, and a hunk
/// that shares none leaves no trace in it.
pub proof fn patch_is_of_the_meeting_hunks(hunks: Seq<HunkView>, selected: HunkView, i: int)
    requires
        0 <= i < hunks.len(),
    ensures
        hunks_meet(selected, hunks[i]) ==> holds(
            meeting_hunks_patch(hunks, selected, hunks.len() as int),
            hunk_patch(hunks[i]),
        ),
        !hunks_meet(selected, hunks[i]) ==> meeting_hunks_patch(
            hunks,
            selected,
            hunks.len() as int,
        ) == meeting_hunks_patch(hunks.remove(i), selected, hunks.len() - 1),
        (forall|j: int| 0 <= j < hunks.len() ==> hunks_meet(selected, #[trigger] hunks[j]))
            ==> meeting_hunks_patch(hunks, selected, hunks.len() as int) == hunks_patch(
            hunks,
            hunks.len() as int,
        ),
{
    if hunks_meet(selected, hunks[i]) {
        meeting_hunk_is_there(hunks, selected, i, hunks.len() as int);
    } else {
        other_hunk_is_not_there(hunks, selected, i, hunks.len() as int);
    }
    if forall|j: int| 0 <= j < hunks.len() ==> hunks_meet(selected, #[trigger] hunks[j]) {
        all_meeting_hunks(hunks, selected, hunks.len() as int);
    }
}

proof fn meeting_hunk_is_there(hunks: Seq<HunkView>, selected: HunkView, i: int, n: int)
    requires
        0 <= i < n <= hunks.len(),
        hunks_meet(selected, hunks[i]),
    ensures
        holds(meeting_hunks_patch(hunks, selected, n), hunk_patch(hunks[i])),
    decreases n,
{
    broadcast use holds_in_sum, holds_itself;

    if i < n - 1 {
        meeting_hunk_is_there(hunks, selected, i, n - 1);
    }
}

proof fn other_hunk_is_not_there(hunks: Seq<HunkView>, selected: HunkView, i: int, n: int)
    requires
        0 <= i < hunks.len(),
        0 <= n <= hunks.len(),
        !hunks_meet(selected, hunks[i]),
    ensures
        n <= i ==> meeting_hunks_patch(hunks, selected, n) == meeting_hunks_patch(
            hunks.remove(i),
            selected,
            n,
        ),
        n > i ==> meeting_hunks_patch(hunks, selected, n) == meeting_hunks_patch(
            hunks.remove(i),
            selected,
            n - 1,
        ),
    decreases n,
{
    if n > 0 {
        other_hunk_is_not_there(hunks, selected, i, n - 1);
        if n - 1 < i {
            assert(hunks.remove(i)[n - 1] == hunks[n - 1]);
        } else if n - 1 > i {
            assert(hunks.remove(i)[n - 2] == hunks[n - 1]);
        }
    }
}

proof fn all_meeting_hunks(hunks: Seq<HunkView>, selected: HunkView, n: int)
    requires
        0 <= n <= hunks.len(),
        forall|j: int| 0 <= j < hunks.len() ==> hunks_meet(selected, #[trigger] hunks[j]),
    ensures
        meeting_hunks_patch(hunks, selected, n) == hunks_patch(hunks, n),
    decreases n,
{
    if n > 0 {
        all_meeting_hunks(hunks, selected, n - 1);
    }
}

/// A `rename` or `copy` line names the path of its side and leaves the other, whether Git
/// quotes the path or not.
pub proof fn moves_name_their_paths(file: FileDraft, path: Seq<char>)
    ensures
        ({
            let from = file.with_patch_line("rename from "@ + quoted_path(path));
            let to = file.with_patch_line("rename to "@ + quoted_path(path));
            &&& from.old_path == path && from.path == file.path
            &&& to.path == path && to.old_path == file.old_path
        }),
        ({
            let from = file.with_patch_line("copy from "@ + quoted_path(path));
            let to = file.with_patch_line("copy to "@ + quoted_path(path));
            &&& from.old_path == path && from.path == file.path
            &&& to.path == path && to.old_path == file.old_path
        }),
{
    quoting_is_undone(path);
    let quoted = quoted_path(path);
    reveal_strlit("new file mode ");
    reveal_strlit("deleted file mode ");
    reveal_strlit("copy from ");
    reveal_strlit("copy to ");
    reveal_strlit("rename from ");
    reveal_strlit("rename to ");
    starts_and_rest("rename from "@, quoted);
    starts_and_rest("rename to "@, quoted);
    starts_and_rest("copy from "@, quoted);
    starts_and_rest("copy to "@, quoted);
    starts_otherwise("rename from "@ + quoted, "new file mode "@, 0);
    starts_otherwise("rename from "@ + quoted, "deleted file mode "@, 0);
    starts_otherwise("rename from "@ + quoted, "copy from "@, 0);
    starts_otherwise("rename from "@ + quoted, "copy to "@, 0);
    starts_otherwise("rename to "@ + quoted, "new file mode "@, 0);
    starts_otherwise("rename to "@ + quoted, "deleted file mode "@, 0);
    starts_otherwise("rename to "@ + quoted, "copy from "@, 0);
    starts_otherwise("rename to "@ + quoted, "copy to "@, 0);
    starts_otherwise("rename to "@ + quoted, "rename from "@, 7);
    starts_otherwise("copy from "@ + quoted, "new file mode "@, 0);
    starts_otherwise("copy from "@ + quoted, "deleted file mode "@, 0);
    starts_otherwise("copy to "@ + quoted, "new file mode "@, 0);
    starts_otherwise("copy to "@ + quoted, "deleted file mode "@, 0);
    starts_otherwise("copy to "@ + quoted, "copy from "@, 5);
}

proof fn starts_and_rest(start: Seq<char>, rest: Seq<char>)
    ensures
        stands_at(start + rest, 0, start),
        without_prefix(start + rest, start) == Some(rest),
{
    assert((start + rest).subrange(0, start.len() as int) =~= start);
    assert(after(start + rest, start.len() as int) =~= rest);
}

proof fn starts_otherwise(line: Seq<char>, start: Seq<char>, at: int)
    requires
        0 <= at < line.len(),
        at < start.len(),
        line[at] != start[at],
    ensures
        !stands_at(line, 0, start),
        without_prefix(line, start) is None,
{
    if stands_at(line, 0, start) {
        assert(line.subrange(0, start.len() as int)[at] == line[at]);
    }
}

/// A `---` line names the path of the old side, a `+++` line that of the new one; neither
/// touches the other path, and neither names `/dev/null`.
pub proof fn sides_name_their_paths(file: FileDraft, path: Seq<char>)
    requires
        path.len() > 0,
        !is_white(path.last()),
        path != "/dev/null"@,
    ensures
        ({
            let old_side = file.with_patch_line("--- "@ + quoted_path("a/"@ + path));
            let new_side = file.with_patch_line("+++ "@ + quoted_path("b/"@ + path));
            &&& old_side.old_path == path && old_side.path == file.path
            &&& new_side.path == path && new_side.old_path == file.old_path
            &&& old_side.status == file.status && new_side.status == file.status
        }),
{
    let a = quoted_path("a/"@ + path);
    let b = quoted_path("b/"@ + path);
    written_side_is_read("a/"@, path);
    written_side_is_read("b/"@, path);
    reveal_strlit("new file mode ");
    reveal_strlit("deleted file mode ");
    reveal_strlit("copy from ");
    reveal_strlit("copy to ");
    reveal_strlit("rename from ");
    reveal_strlit("rename to ");
    reveal_strlit("Binary files ");
    reveal_strlit("--- ");
    reveal_strlit("+++ ");
    starts_and_rest("--- "@, a);
    starts_and_rest("+++ "@, b);
    no_word_starts("--- "@ + a);
    no_word_starts("+++ "@ + b);
    starts_otherwise("+++ "@ + b, "--- "@, 0);
}

proof fn no_word_starts(line: Seq<char>)
    requires
        line.len() > 0,
        line[0] == '-' || line[0] == '+',
    ensures
        !stands_at(line, 0, "new file mode "@),
        !stands_at(line, 0, "deleted file mode "@),
        !stands_at(line, 0, "Binary files "@),
        without_prefix(line, "copy from "@) is None,
        without_prefix(line, "copy to "@) is None,
        without_prefix(line, "rename from "@) is None,
        without_prefix(line, "rename to "@) is None,
{
    reveal_strlit("new file mode ");
    reveal_strlit("deleted file mode ");
    reveal_strlit("copy from ");
    reveal_strlit("copy to ");
    reveal_strlit("rename from ");
    reveal_strlit("rename to ");
    reveal_strlit("Binary files ");
    starts_otherwise(line, "new file mode "@, 0);
    starts_otherwise(line, "deleted file mode "@, 0);
    starts_otherwise(line, "copy from "@, 0);
    starts_otherwise(line, "copy to "@, 0);
    starts_otherwise(line, "rename from "@, 0);
    starts_otherwise(line, "rename to "@, 0);
    starts_otherwise(line, "Binary files "@, 0);
}

/// A `Binary files` line makes a file binary and changes nothing else of it.
pub proof fn binary_line_makes_binary(file: FileDraft, rest: Seq<char>)
    ensures
        file.with_patch_line("Binary files "@ + rest) == (FileDraft { binary: true, ..file }),
{
    let line = "Binary files "@ + rest;
    reveal_strlit("new file mode ");
    reveal_strlit("deleted file mode ");
    reveal_strlit("copy from ");
    reveal_strlit("copy to ");
    reveal_strlit("rename from ");
    reveal_strlit("rename to ");
    reveal_strlit("Binary files ");
    starts_and_rest("Binary files "@, rest);
    starts_otherwise(line, "new file mode "@, 0);
    starts_otherwise(line, "deleted file mode "@, 0);
    starts_otherwise(line, "copy from "@, 0);
    starts_otherwise(line, "copy to "@, 0);
    starts_otherwise(line, "rename from "@, 0);
    starts_otherwise(line, "rename to "@, 0);
}

proof fn word_at(s: Seq<char>, from: int, start: int, end: int)
    requires
        0 <= from <= start < end <= s.len(),
        forall|i: int| from <= i < start ==> is_white(#[trigger] s[i]),
        forall|i: int| start <= i < end ==> !is_white(#[trigger] s[i]),
        end < s.len() ==> is_white(s[end]),
    ensures
        words_from(s, from) == seq![s.subrange(start, end)] + words_from(s, end),
{
    white_from_bounds(s, false, from);
    first_white_is_first(s, false, from, start);
    white_from_bounds(s, true, start);
    if end < s.len() {
        first_white_is_first(s, true, start, end);
    }
}

/// A hunk header is read as it was written, whatever stands behind it: the start and length
/// of the old side behind the minus, those of the new side behind the plus.
pub proof fn written_header_is_read(
    old_start: u32,
    old_lines: u32,
    new_start: u32,
    new_lines: u32,
    rest: Seq<char>,
)
    ensures
        hunk_range(
            "@@ "@ + (seq!['-'] + decimal(old_start as nat) + ","@ + decimal(old_lines as nat))
                + " "@ + (seq!['+'] + decimal(new_start as nat) + ","@ + decimal(
                new_lines as nat,
            )) + " @@"@ + rest,
        ) == Some(HunkRange { old_start, old_lines, new_start, new_lines }),
{
    let before = seq!['-'] + decimal(old_start as nat) + ","@ + decimal(old_lines as nat);
    let now = seq!['+'] + decimal(new_start as nat) + ","@ + decimal(new_lines as nat);
    let header = "@@ "@ + before + " "@ + now + " @@"@ + rest;
    reveal_strlit("@@ ");
    reveal_strlit(" ");
    reveal_strlit(" @@");
    reveal_strlit("@@");
    range_is_a_word('-', old_start, old_lines);
    range_is_a_word('+', new_start, new_lines);
    written_range_is_read('-', old_start, old_lines, before);
    written_range_is_read('+', new_start, new_lines, now);
    let first = 3 + before.len() as int;
    let second = first + 1 + now.len() as int;
    assert(header[0] == '@' && header[1] == '@' && header[2] == ' ');
    assert(header.subrange(0, 2) =~= "@@"@);
    assert(header.subrange(3, first) =~= before);
    assert(header[first] == ' ');
    assert(header.subrange(first + 1, second) =~= now);
    assert(header[second] == ' ');
    assert forall|i: int| 3 <= i < first implies !is_white(#[trigger] header[i]) by {
        assert(header[i] == before[i - 3]);
    }
    assert forall|i: int| first + 1 <= i < second implies !is_white(#[trigger] header[i]) by {
        assert(header[i] == now[i - first - 1]);
    }
    word_at(header, 0, 0, 2);
    word_at(header, 2, 3, first);
    word_at(header, first, first + 1, second);
    let words = words_of(header);
    assert(words == seq!["@@"@] + (seq![before] + (seq![now] + words_from(header, second))));
    assert(words[0] == "@@"@ && words[1] == before && words[2] == now);
}

proof fn range_is_a_word(sign: char, start: u32, lines: u32)
    requires
        sign == '-' || sign == '+',
    ensures
        ({
            let range = seq![sign] + decimal(start as nat) + ","@ + decimal(lines as nat);
            range.len() > 0 && forall|i: int|
                0 <= i < range.len() ==> !is_white(#[trigger] range[i])
        }),
{
    let (a, b) = (decimal(start as nat), decimal(lines as nat));
    let range = seq![sign] + a + ","@ + b;
    reveal_strlit(",");
    decimal_is_its_number(start as nat);
    decimal_is_its_number(lines as nat);
    assert forall|i: int| 0 <= i < range.len() implies !is_white(#[trigger] range[i]) by {
        if 1 <= i <= a.len() {
            assert(range[i] == a[i - 1]);
            assert(is_digit(a[i - 1]));
        } else if i > a.len() + 1 {
            assert(range[i] == b[i - a.len() - 2]);
            assert(is_digit(b[i - a.len() - 2]));
        }
    }
}

/// A hunk has a first change exactly where a line was added or removed. It is the number of
/// that line where it was added, and else the line behind the unchanged one before it.
pub proof fn first_change_is_where_it_is(lines: Seq<LineView>, next: u32, k: int)
    requires
        0 <= k < lines.len(),
        lines[k].kind == DiffLineKind::Added || lines[k].kind == DiffLineKind::Removed,
        forall|j: int|
            0 <= j < k ==> (#[trigger] lines[j]).kind == DiffLineKind::Context || lines[j].kind
                == DiffLineKind::Meta,
    ensures
        first_change_in_lines(lines, next) is Some,
        lines[k].kind == DiffLineKind::Added && lines[k].new_line is Some && lines[k].new_line->0
            > 0 ==> first_change_in_lines(lines, next) == lines[k].new_line,
        (k == 0 && lines[k].kind == DiffLineKind::Removed) ==> first_change_in_lines(lines, next)
            == Some(next),
        k > 0 && lines[k].kind == DiffLineKind::Removed && lines[k - 1].kind
            == DiffLineKind::Context && lines[k - 1].new_line is Some && lines[k - 1].new_line->0
            < u32::MAX ==> first_change_in_lines(lines, next) == Some(
            (lines[k - 1].new_line->0 + 1) as u32,
        ),
    decreases lines.len(),
{
    if k > 0 {
        let rest = lines.skip(1);
        let line = lines[0];
        let behind = match line.kind {
            DiffLineKind::Context => match line.new_line {
                Some(number) => least(number + 1, u32::MAX as int) as u32,
                None => next,
            },
            _ => next,
        };
        assert(rest[k - 1] == lines[k]);
        assert forall|j: int| 0 <= j < k - 1 implies (#[trigger] rest[j]).kind
            == DiffLineKind::Context || rest[j].kind == DiffLineKind::Meta by {
            assert(rest[j] == lines[j + 1]);
        }
        assert(k >= 2 ==> rest[k - 2] == lines[k - 1]);
        first_change_is_where_it_is(rest, behind, k - 1);
    }
}

/// A hunk without added and removed lines has no first change.
pub proof fn no_change_is_no_first_change(lines: Seq<LineView>, next: u32)
    requires
        forall|j: int|
            0 <= j < lines.len() ==> (#[trigger] lines[j]).kind == DiffLineKind::Context
                || lines[j].kind == DiffLineKind::Meta,
    ensures
        first_change_in_lines(lines, next) is None,
    decreases lines.len(),
{
    if lines.len() > 0 {
        let rest = lines.skip(1);
        assert forall|j: int| 0 <= j < rest.len() implies (#[trigger] rest[j]).kind
            == DiffLineKind::Context || rest[j].kind == DiffLineKind::Meta by {
            assert(rest[j] == lines[j + 1]);
        }
        let line = lines[0];
        no_change_is_no_first_change(rest, next);
        if let Some(number) = line.new_line {
            no_change_is_no_first_change(rest, least(number + 1, u32::MAX as int) as u32);
        }
    }
}

/// The first change of a file is that of the first hunk that has one; a binary file has
/// none.
pub proof fn first_change_of_a_file(file: FileView, k: int)
    requires
        0 <= k < file.hunks.len(),
        first_change_in_hunk(file.hunks[k]) is Some,
        forall|j: int| 0 <= j < k ==> first_change_in_hunk(#[trigger] file.hunks[j]) is None,
    ensures
        file.binary ==> file.first_change() is None,
        !file.binary ==> file.first_change() == first_change_in_hunk(file.hunks[k]),
{
    first_of_hunks(file.hunks, k);
}

proof fn first_of_hunks(hunks: Seq<HunkView>, k: int)
    requires
        0 <= k < hunks.len(),
        first_change_in_hunk(hunks[k]) is Some,
        forall|j: int| 0 <= j < k ==> first_change_in_hunk(#[trigger] hunks[j]) is None,
    ensures
        first_change_in_hunks(hunks) == first_change_in_hunk(hunks[k]),
    decreases k,
{
    if k > 0 {
        let rest = hunks.skip(1);
        assert(first_change_in_hunk(hunks[0]) is None);
        assert(rest[k - 1] == hunks[k]);
        assert forall|j: int| 0 <= j < k - 1 implies first_change_in_hunk(
            #[trigger] rest[j],
        ) is None by {
            assert(rest[j] == hunks[j + 1]);
        }
        first_of_hunks(rest, k - 1);
    }
}

/// A patch names the path of each side, and the shown path where a side has none.
pub proof fn patch_names_both_paths(file: FileView)
    ensures
        file.old_path.len() > 0 ==> path_before(file) == file.old_path,
        file.path.len() > 0 ==> path_now(file) == file.path,
        file.old_path.len() == 0 ==> path_before(file) == file.path,
        file.path.len() == 0 ==> path_now(file) == file.old_path,
        file.path.len() > 0 ==> file.shown_path() == file.path,
        file.path.len() == 0 ==> file.shown_path() == file.old_path,
        stands_at(patch_header(file), 0, patch_title(path_before(file), path_now(file)) + "\n"@),
{
    let title = patch_title(path_before(file), path_now(file)) + "\n"@;
    assert(patch_header(file).subrange(0, title.len() as int) =~= title);
}

} // verus!
