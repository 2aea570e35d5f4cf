//! What the lines of a patch say of its files.

use vstd::prelude::*;
use vstd::string::*;
use vstd::utf8::*;

use crate::model::{DiffLineKind, FileStatus, FileView, HunkView, LineView};
use crate::patch::{
    header_has_two_words, hunk_line_content, hunk_line_kind, hunk_patch, hunks_patch, opens_file,
    patch_files, patch_line, patch_lines, patch_state, patch_title, path_before, path_now,
    whole_patch, FileDraft,
};
use crate::quoting::{is_special, needs_quotes, quoted_path, written_byte, written_from};
use crate::text::{
    after, first_is_found, first_white_is_first, is_white, lines_from, lines_of, lines_of_both,
    stands_at, white_from, white_from_bounds, without_return, words_from, words_of,
};

verus! {

/// Whether a line says that a file is new.
pub open spec fn says_new(line: Seq<char>) -> bool {
    stands_at(line, 0, "new file mode "@)
}

/// Whether a line says that a file is deleted.
pub open spec fn says_deleted(line: Seq<char>) -> bool {
    stands_at(line, 0, "deleted file mode "@)
}

/// Whether a line says that a file is a copy.
pub open spec fn says_copied(line: Seq<char>) -> bool {
    stands_at(line, 0, "copy from "@) || stands_at(line, 0, "copy to "@)
}

/// Whether a line says that a file is renamed.
pub open spec fn says_renamed(line: Seq<char>) -> bool {
    stands_at(line, 0, "rename from "@) || stands_at(line, 0, "rename to "@)
}

/// Whether a line says anything of the status of a file, or opens one.
pub open spec fn says_status(line: Seq<char>) -> bool {
    says_new(line) || says_deleted(line) || says_copied(line) || says_renamed(line)
}

/// Whether lines are those of one file: the first opens it, no other does.
pub open spec fn one_section(lines: Seq<Seq<char>>) -> bool {
    &&& lines.len() > 0
    &&& opens_file(lines[0])
    &&& forall|i: int| 1 <= i < lines.len() ==> !opens_file(#[trigger] lines[i])
}

spec fn status_from(lines: Seq<Seq<char>>, status: FileStatus) -> bool {
    forall|i: int|
        1 <= i < lines.len() ==> {
            let line = #[trigger] lines[i];
            &&& says_new(line) ==> status == FileStatus::Added
            &&& says_deleted(line) ==> status == FileStatus::Deleted
            &&& says_copied(line) ==> status == FileStatus::Copied
            &&& says_renamed(line) ==> status == FileStatus::Renamed
        }
}

proof fn section_state(lines: Seq<Seq<char>>, status: FileStatus)
    requires
        one_section(lines),
        status_from(lines, status),
    ensures
        patch_state(lines).0.len() == 0,
        patch_state(lines).1 is Some,
        (exists|i: int| 1 <= i < lines.len() && says_status(#[trigger] lines[i]))
            ==> patch_state(lines).1->0.status == status,
        (forall|i: int| 1 <= i < lines.len() ==> !says_status(#[trigger] lines[i]))
            ==> patch_state(lines).1->0.status == FileStatus::Modified,
    decreases lines.len(),
{
    let before = lines.drop_last();
    header_has_two_words(lines.last());
    if lines.len() == 1 {
        assert(before =~= seq![]);
    } else {
        assert(before[0] == lines[0]);
        assert forall|i: int| 1 <= i < before.len() implies !opens_file(#[trigger] before[i]) by {
            assert(before[i] == lines[i]);
        }
        assert forall|i: int| 1 <= i < before.len() implies {
            let line = #[trigger] before[i];
            &&& says_new(line) ==> status == FileStatus::Added
            &&& says_deleted(line) ==> status == FileStatus::Deleted
            &&& says_copied(line) ==> status == FileStatus::Copied
            &&& says_renamed(line) ==> status == FileStatus::Renamed
        } by {
            assert(before[i] == lines[i]);
        }
        section_state(before, status);
        let last = lines[lines.len() - 1];
        let file = patch_state(before).1->0;
        if !says_status(last) {
            assert(file.with_patch_line(last).status == file.status);
            if exists|i: int| 1 <= i < lines.len() && says_status(#[trigger] lines[i]) {
                let i = choose|i: int| 1 <= i < lines.len() && says_status(#[trigger] lines[i]);
                assert(says_status(before[i]));
            } else {
                assert forall|i: int| 1 <= i < before.len() implies !says_status(
                    #[trigger] before[i],
                ) by {
                    assert(before[i] == lines[i]);
                }
            }
        } else {
            assert(file.with_patch_line(last).status == status);
        }
    }
}

/// The status of a file is what the lines of its section say, and nothing else: a section
/// with a `deleted file mode` line is of a deleted file, one with a `new file mode` line of
/// a new one, one with `rename` or `copy` lines of a renamed or copied one, and one without
/// any of these of a modified one.
pub proof fn status_is_what_the_section_says(patch: Seq<char>, status: FileStatus)
    requires
        one_section(lines_of(patch)),
        forall|i: int|
            1 <= i < lines_of(patch).len() ==> {
                let line = #[trigger] lines_of(patch)[i];
                &&& stands_at(line, 0, "new file mode "@) ==> status == FileStatus::Added
                &&& stands_at(line, 0, "deleted file mode "@) ==> status == FileStatus::Deleted
                &&& stands_at(line, 0, "copy from "@) || stands_at(line, 0, "copy to "@)
                    ==> status == FileStatus::Copied
                &&& stands_at(line, 0, "rename from "@) || stands_at(line, 0, "rename to "@)
                    ==> status == FileStatus::Renamed
            },
    ensures
        patch_files(patch).len() == 1,
        (exists|i: int| 1 <= i < lines_of(patch).len() && says_status(#[trigger] lines_of(patch)[i]))
            ==> patch_files(patch)[0].status == status,
        (forall|i: int|
            1 <= i < lines_of(patch).len() ==> !says_status(#[trigger] lines_of(patch)[i]))
            ==> patch_files(patch)[0].status == FileStatus::Modified,
{
    section_state(lines_of(patch), status);
}

proof fn line_alone(line: Seq<char>)
    requires
        !line.contains('\n'),
    ensures
        lines_of(line.push('\n')) == seq![without_return(line)],
{
    let text = line.push('\n');
    assert forall|i: int| 0 <= i < line.len() implies #[trigger] text[i] != '\n' by {
        if line[i] == '\n' {
            assert(line.contains('\n'));
        }
    }
    first_is_found(text, '\n', 0, line.len() as int);
    assert(text.subrange(0, line.len() as int) =~= line);
    assert(lines_from(text, line.len() as int + 1) =~= seq![]);
    assert(lines_of(text) =~= seq![without_return(line)]);
}

/// Whether every line of a text stays within a section and says nothing of a status.
spec fn quiet(text: Seq<char>) -> bool {
    &&& text.len() == 0 || text.last() == '\n'
    &&& forall|i: int|
        0 <= i < lines_of(text).len() ==> !opens_file(#[trigger] lines_of(text)[i])
            && !says_status(lines_of(text)[i])
}

proof fn quiet_both(a: Seq<char>, b: Seq<char>)
    requires
        quiet(a),
        quiet(b),
    ensures
        quiet(a + b),
{
    lines_of_both(a, b);
    let (x, y) = (lines_of(a), lines_of(b));
    let both = lines_of(a + b);
    if b.len() == 0 {
        assert(a + b =~= a);
    } else {
        assert((a + b).last() == b.last());
    }
    assert forall|i: int| 0 <= i < both.len() implies !opens_file(#[trigger] both[i])
        && !says_status(both[i]) by {
        if i < x.len() {
            assert(both[i] == x[i]);
        } else {
            assert(both[i] == y[i - x.len()]);
        }
    }
}

/// Whether a line of a patch could open a file or say something of its status: it starts
/// with one of the letters that such lines start with.
pub open spec fn may_be_metadata(line: Seq<char>) -> bool {
    line.len() > 0 && (line[0] == 'd' || line[0] == 'n' || line[0] == 'c' || line[0] == 'r')
}

proof fn first_letters(line: Seq<char>, prefix: Seq<char>)
    requires
        stands_at(line, 0, prefix),
        prefix.len() >= 2,
    ensures
        line.len() >= 2,
        line[0] == prefix[0],
        line[1] == prefix[1],
{
    assert(line.subrange(0, prefix.len() as int)[0] == line[0]);
    assert(line.subrange(0, prefix.len() as int)[1] == line[1]);
}

proof fn metadata_letters(line: Seq<char>)
    ensures
        opens_file(line) ==> line.len() >= 2 && line[0] == 'd' && line[1] == 'i',
        says_new(line) ==> line.len() >= 2 && line[0] == 'n',
        says_deleted(line) ==> line.len() >= 2 && line[0] == 'd' && line[1] == 'e',
        says_copied(line) ==> line.len() >= 2 && line[0] == 'c',
        says_renamed(line) ==> line.len() >= 2 && line[0] == 'r',
        opens_file(line) || says_status(line) ==> may_be_metadata(line),
{
    reveal_strlit("diff --git ");
    reveal_strlit("new file mode ");
    reveal_strlit("deleted file mode ");
    reveal_strlit("copy from ");
    reveal_strlit("copy to ");
    reveal_strlit("rename from ");
    reveal_strlit("rename to ");
    if opens_file(line) {
        first_letters(line, "diff --git "@);
    }
    if says_new(line) {
        first_letters(line, "new file mode "@);
    }
    if says_deleted(line) {
        first_letters(line, "deleted file mode "@);
    }
    if stands_at(line, 0, "copy from "@) {
        first_letters(line, "copy from "@);
    }
    if stands_at(line, 0, "copy to "@) {
        first_letters(line, "copy to "@);
    }
    if stands_at(line, 0, "rename from "@) {
        first_letters(line, "rename from "@);
    }
    if stands_at(line, 0, "rename to "@) {
        first_letters(line, "rename to "@);
    }
}

proof fn quiet_line(line: Seq<char>)
    requires
        !line.contains('\n'),
        !may_be_metadata(line),
    ensures
        quiet(line.push('\n')),
{
    line_alone(line);
    metadata_letters(without_return(line));
}

/// Whether a hunk can be written as lines of a patch: its header is one, no line of it
/// holds a line end, and a line without a marker is not one about files.
pub open spec fn writable(hunk: HunkView) -> bool {
    &&& stands_at(hunk.header, 0, "@@ "@)
    &&& !hunk.header.contains('\n')
    &&& forall|i: int|
        0 <= i < hunk.lines.len() ==> !(#[trigger] hunk.lines[i]).content.contains('\n') && (
        hunk.lines[i].kind == DiffLineKind::Meta ==> !may_be_metadata(hunk.lines[i].content))
}

proof fn written_line_is_quiet(line: LineView)
    requires
        !line.content.contains('\n'),
        line.kind == DiffLineKind::Meta ==> !may_be_metadata(line.content),
    ensures
        quiet(patch_line(line)),
{
    reveal_strlit("+");
    reveal_strlit("-");
    reveal_strlit(" ");
    reveal_strlit("");
    reveal_strlit("\n");
    let marker = match line.kind {
        DiffLineKind::Added => "+"@,
        DiffLineKind::Removed => "-"@,
        DiffLineKind::Context => " "@,
        DiffLineKind::Meta => ""@,
    };
    let whole = marker + line.content;
    assert(patch_line(line) =~= whole.push('\n'));
    if whole.contains('\n') {
        let i = choose|i: int| 0 <= i < whole.len() && whole[i] == '\n';
        if i >= marker.len() {
            assert(line.content[i - marker.len()] == '\n');
        }
    }
    if line.kind == DiffLineKind::Meta {
        assert(whole =~= line.content);
    }
    quiet_line(whole);
}

proof fn written_lines_are_quiet(lines: Seq<LineView>, n: int)
    requires
        0 <= n <= lines.len(),
        forall|i: int|
            0 <= i < lines.len() ==> !(#[trigger] lines[i]).content.contains('\n') && (
            lines[i].kind == DiffLineKind::Meta ==> !may_be_metadata(lines[i].content)),
    ensures
        quiet(patch_lines(lines, n)),
    decreases n,
{
    if n > 0 {
        written_lines_are_quiet(lines, n - 1);
        written_line_is_quiet(lines[n - 1]);
        quiet_both(patch_lines(lines, n - 1), patch_line(lines[n - 1]));
    } else {
        assert(lines_of(patch_lines(lines, n)) =~= seq![]);
    }
}

proof fn written_hunk_is_quiet(hunk: HunkView)
    requires
        writable(hunk),
    ensures
        quiet(hunk_patch(hunk)),
{
    reveal_strlit("\n");
    reveal_strlit("@@ ");
    assert(hunk.header.subrange(0, 3)[0] == hunk.header[0]);
    assert(hunk.header + "\n"@ =~= hunk.header.push('\n'));
    quiet_line(hunk.header);
    written_lines_are_quiet(hunk.lines, hunk.lines.len() as int);
    quiet_both(hunk.header + "\n"@, patch_lines(hunk.lines, hunk.lines.len() as int));
}

proof fn written_hunks_are_quiet(hunks: Seq<HunkView>, n: int)
    requires
        0 <= n <= hunks.len(),
        forall|i: int| 0 <= i < hunks.len() ==> writable(#[trigger] hunks[i]),
    ensures
        quiet(hunks_patch(hunks, n)),
    decreases n,
{
    if n > 0 {
        written_hunks_are_quiet(hunks, n - 1);
        written_hunk_is_quiet(hunks[n - 1]);
        quiet_both(hunks_patch(hunks, n - 1), hunk_patch(hunks[n - 1]));
    } else {
        assert(lines_of(hunks_patch(hunks, n)) =~= seq![]);
    }
}

/// A line end or a carriage return, which Git does not write as it is.
spec fn ends_line(c: char) -> bool {
    c == '\n' || c == '\r'
}

spec fn on_one_line(text: Seq<char>) -> bool {
    forall|i: int| 0 <= i < text.len() ==> !ends_line(#[trigger] text[i])
}

proof fn written_bytes_are_on_one_line(bytes: Seq<u8>, from: int)
    requires
        0 <= from <= bytes.len(),
    ensures
        on_one_line(written_from(bytes, from)),
    decreases bytes.len() - from,
{
    if from < bytes.len() {
        let byte = bytes[from];
        let first = written_byte(byte);
        let rest = written_from(bytes, from + 1);
        written_bytes_are_on_one_line(bytes, from + 1);
        let all = written_from(bytes, from);
        assert(byte as int / 64 <= 3 && byte as int / 8 % 8 <= 7 && byte as int % 8 <= 7);
        assert forall|i: int| 0 <= i < all.len() implies !ends_line(#[trigger] all[i]) by {
            if i < first.len() {
                assert(all[i] == first[i]);
            } else {
                assert(all[i] == rest[i - first.len()]);
            }
        }
    }
}

proof fn ascii_scalar(byte: u8)
    requires
        byte < 0x80,
    ensures
        encode_scalar((byte as char) as u32) == seq![byte],
{
    let one = seq![byte as char];
    assert(is_ascii_chars(one));
    is_ascii_chars_encode_utf8(one);
    assert(one.drop_first() =~= seq![]);
    assert(encode_utf8(one) =~= encode_scalar((byte as char) as u32));
    assert(encode_utf8(one) =~= seq![byte]);
}

proof fn plain_path_is_on_one_line(path: Seq<char>)
    requires
        !needs_quotes(path),
    ensures
        on_one_line(path),
    decreases path.len(),
{
    ascii_scalar(10u8);
    ascii_scalar(13u8);
    if path.len() > 0 {
        let first = encode_scalar(path[0] as u32);
        let rest = path.drop_first();
        assert(encode_utf8(path) == first + encode_utf8(rest));
        if needs_quotes(rest) {
            let tail = encode_utf8(rest);
            let i = choose|i: int| 0 <= i < tail.len() && is_special(#[trigger] tail[i]);
            assert(is_special(encode_utf8(path)[first.len() + i]));
        }
        plain_path_is_on_one_line(rest);
        if ends_line(path[0]) {
            assert(is_special(encode_utf8(path)[0]));
        }
        assert forall|i: int| 0 <= i < path.len() implies !ends_line(#[trigger] path[i]) by {
            if i > 0 {
                assert(path[i] == rest[i - 1]);
            }
        }
    }
}

proof fn quoted_path_is_on_one_line(path: Seq<char>)
    ensures
        on_one_line(quoted_path(path)),
{
    if needs_quotes(path) {
        let bytes = encode_utf8(path);
        written_bytes_are_on_one_line(bytes, 0);
        let text = quoted_path(path);
        let inner = written_from(bytes, 0);
        assert forall|i: int| 0 <= i < text.len() implies !ends_line(#[trigger] text[i]) by {
            if 0 < i < text.len() - 1 {
                assert(text[i] == inner[i - 1]);
            }
        }
    } else {
        plain_path_is_on_one_line(path);
    }
}

/// A path is written on one line, whatever it holds.
pub proof fn written_path_is_one_line(path: Seq<char>)
    ensures
        !quoted_path(path).contains('\n'),
{
    quoted_path_is_on_one_line(path);
}

proof fn one_line_joined(a: Seq<char>, b: Seq<char>)
    requires
        on_one_line(a),
        on_one_line(b),
    ensures
        on_one_line(a + b),
{
    assert forall|i: int| 0 <= i < (a + b).len() implies !ends_line(#[trigger] (a + b)[i]) by {
        if i < a.len() {
            assert((a + b)[i] == a[i]);
        } else {
            assert((a + b)[i] == b[i - a.len()]);
        }
    }
}

proof fn whole_line(line: Seq<char>)
    requires
        on_one_line(line),
    ensures
        lines_of(line + "\n"@) == seq![line],
        !line.contains('\n'),
{
    reveal_strlit("\n");
    assert(line + "\n"@ =~= line.push('\n'));
    line_alone(line);
    if line.len() > 0 {
        assert(!ends_line(line[line.len() - 1]));
    }
}

proof fn three_places_make_two_words(text: Seq<char>, gap: int, next: int)
    requires
        0 < gap < next < text.len(),
        !is_white(text[0]),
        is_white(text[gap]),
        !is_white(text[next]),
    ensures
        words_of(text).len() >= 2,
{
    white_from_bounds(text, false, 0);
    assert(white_from(text, false, 0) == 0);
    first_white_is_first(text, true, 0, gap);
    white_from_bounds(text, true, 0);
    let end = white_from(text, true, 0);
    first_white_is_first(text, false, end, next);
    white_from_bounds(text, false, end);
    assert(words_from(text, end).len() >= 1);
    assert(words_from(text, 0) == seq![text.subrange(0, end)] + words_from(text, end));
}

proof fn quoted_path_starts(side: Seq<char>, path: Seq<char>)
    requires
        side == "a/"@ || side == "b/"@,
    ensures
        quoted_path(side + path).len() > 0,
        !is_white(quoted_path(side + path)[0]),
{
    reveal_strlit("a/");
    reveal_strlit("b/");
    let both = side + path;
    assert(both[0] == side[0]);
}

proof fn written_title_opens_a_file(before: Seq<char>, now: Seq<char>)
    ensures
        opens_file(patch_title(before, now)),
        on_one_line(patch_title(before, now)),
{
    reveal_strlit("diff --git ");
    reveal_strlit(" ");
    let (a, b) = (quoted_path("a/"@ + before), quoted_path("b/"@ + now));
    let title = patch_title(before, now);
    let rest = a + " "@ + b;
    assert(title =~= "diff --git "@ + rest);
    assert(title.subrange(0, 11) =~= "diff --git "@);
    assert(after(title, 11) =~= rest);
    quoted_path_starts("a/"@, before);
    quoted_path_starts("b/"@, now);
    assert(rest[0] == a[0]);
    assert(rest[a.len() as int] == ' ');
    assert(rest[a.len() as int + 1] == b[0]);
    three_places_make_two_words(rest, a.len() as int, a.len() as int + 1);
    quoted_path_is_on_one_line("a/"@ + before);
    quoted_path_is_on_one_line("b/"@ + now);
    one_line_joined("diff --git "@, a);
    one_line_joined("diff --git "@ + a, " "@);
    one_line_joined("diff --git "@ + a + " "@, b);
}

proof fn written_side_line_is_quiet(start: Seq<char>, path: Seq<char>)
    requires
        start == "--- "@ || start == "+++ "@,
    ensures
        quiet(start + quoted_path(path) + "\n"@),
        on_one_line(start + quoted_path(path)),
{
    reveal_strlit("--- ");
    reveal_strlit("+++ ");
    let line = start + quoted_path(path);
    quoted_path_is_on_one_line(path);
    one_line_joined(start, quoted_path(path));
    whole_line(line);
    assert(line[0] == start[0]);
    reveal_strlit("\n");
    assert(line + "\n"@ =~= line.push('\n'));
    quiet_line(line);
}

/// Lines that say a status and open no file.
spec fn only_says(lines: Seq<Seq<char>>, status: FileStatus) -> bool {
    forall|i: int|
        0 <= i < lines.len() ==> {
            let line = #[trigger] lines[i];
            &&& !opens_file(line)
            &&& says_status(line)
            &&& says_new(line) ==> status == FileStatus::Added
            &&& says_deleted(line) ==> status == FileStatus::Deleted
            &&& says_copied(line) ==> status == FileStatus::Copied
            &&& says_renamed(line) ==> status == FileStatus::Renamed
        }
}

/// A section of a title, lines about the status, and others.
proof fn section_of_parts(title: Seq<char>, said: Seq<char>, rest: Seq<char>, status: FileStatus)
    requires
        opens_file(title),
        on_one_line(title),
        said.len() == 0 || said.last() == '\n',
        only_says(lines_of(said), status),
        quiet(rest),
        lines_of(said).len() == 0 ==> status == FileStatus::Modified,
    ensures
        patch_files(title + "\n"@ + said + rest).len() == 1,
        patch_files(title + "\n"@ + said + rest)[0].status == status,
{
    reveal_strlit("\n");
    let first = title + "\n"@;
    let (x, y) = (lines_of(said), lines_of(rest));
    whole_line(title);
    assert(first.last() == '\n');
    lines_of_both(first, said);
    if said.len() == 0 {
        assert(first + said =~= first);
    } else {
        assert((first + said).last() == said.last());
    }
    lines_of_both(first + said, rest);
    let text = first + said + rest;
    let all = lines_of(text);
    assert(all =~= seq![title] + x + y);
    assert forall|i: int| 1 <= i < all.len() implies !opens_file(#[trigger] all[i]) && (says_new(
        all[i],
    ) ==> status == FileStatus::Added) && (says_deleted(all[i]) ==> status
        == FileStatus::Deleted) && (says_copied(all[i]) ==> status == FileStatus::Copied) && (
    says_renamed(all[i]) ==> status == FileStatus::Renamed) && (says_status(all[i]) ==> i - 1
        < x.len()) by {
        if i - 1 < x.len() {
            assert(all[i] == x[i - 1]);
        } else {
            assert(all[i] == y[i - 1 - x.len()]);
        }
    }
    assert(all[0] == title);
    status_is_what_the_section_says(text, status);
    if x.len() > 0 {
        assert(all[1] == x[0]);
        assert(says_status(all[1]));
    } else {
        assert forall|i: int| 1 <= i < all.len() implies !says_status(#[trigger] all[i]) by {
            assert(all[i] == y[i - 1]);
        }
    }
}

proof fn mode_line(status: FileStatus)
    requires
        status == FileStatus::Added || status == FileStatus::Deleted,
    ensures
        only_says(
            lines_of(
                (if status == FileStatus::Added {
                    "new file mode 100644"@
                } else {
                    "deleted file mode 100644"@
                }) + "\n"@,
            ),
            status,
        ),
        lines_of(
            (if status == FileStatus::Added {
                "new file mode 100644"@
            } else {
                "deleted file mode 100644"@
            }) + "\n"@,
        ).len() == 1,
{
    reveal_strlit("new file mode 100644");
    reveal_strlit("deleted file mode 100644");
    reveal_strlit("new file mode ");
    reveal_strlit("deleted file mode ");
    let line = if status == FileStatus::Added {
        "new file mode 100644"@
    } else {
        "deleted file mode 100644"@
    };
    assert(on_one_line(line));
    whole_line(line);
    metadata_letters(line);
    if status == FileStatus::Added {
        assert(line.subrange(0, 14) =~= "new file mode "@);
    } else {
        assert(line.subrange(0, 18) =~= "deleted file mode "@);
    }
}

proof fn rename_line(start: Seq<char>, path: Seq<char>)
    requires
        start == "rename from "@ || start == "rename to "@,
    ensures
        lines_of(start + quoted_path(path) + "\n"@) == seq![start + quoted_path(path)],
        says_renamed(start + quoted_path(path)),
        !opens_file(start + quoted_path(path)),
        !says_new(start + quoted_path(path)),
        !says_deleted(start + quoted_path(path)),
        !says_copied(start + quoted_path(path)),
{
    reveal_strlit("rename from ");
    reveal_strlit("rename to ");
    let line = start + quoted_path(path);
    quoted_path_is_on_one_line(path);
    one_line_joined(start, quoted_path(path));
    whole_line(line);
    assert(line.subrange(0, start.len() as int) =~= start);
    assert(line[0] == start[0]);
    metadata_letters(line);
}

proof fn new_file_title()
    ensures
        "new file mode 100644\n--- /dev/null\n"@ == "new file mode 100644"@ + "\n"@ + (
        "--- /dev/null"@ + "\n"@),
        on_one_line("--- /dev/null"@),
        quiet("--- /dev/null"@ + "\n"@),
{
    reveal_strlit("new file mode 100644\n--- /dev/null\n");
    reveal_strlit("new file mode 100644");
    reveal_strlit("--- /dev/null");
    reveal_strlit("\n");
    assert("new file mode 100644\n--- /dev/null\n"@ =~= "new file mode 100644"@ + "\n"@ + (
    "--- /dev/null"@ + "\n"@));
    assert("--- /dev/null"@ + "\n"@ =~= "--- /dev/null"@.push('\n'));
    whole_line("--- /dev/null"@);
    quiet_line("--- /dev/null"@);
}

proof fn deleted_file_title()
    ensures
        "deleted file mode 100644\n"@ == "deleted file mode 100644"@ + "\n"@,
        quiet("+++ /dev/null\n"@),
{
    reveal_strlit("deleted file mode 100644\n");
    reveal_strlit("deleted file mode 100644");
    reveal_strlit("+++ /dev/null\n");
    reveal_strlit("+++ /dev/null");
    reveal_strlit("\n");
    assert("deleted file mode 100644\n"@ =~= "deleted file mode 100644"@ + "\n"@);
    assert("+++ /dev/null\n"@ =~= "+++ /dev/null"@.push('\n'));
    assert(on_one_line("+++ /dev/null"@));
    whole_line("+++ /dev/null"@);
    quiet_line("+++ /dev/null"@);
}

proof fn ends_with_line_end(text: Seq<char>)
    ensures
        (text + "\n"@).len() > 0,
        (text + "\n"@).last() == '\n',
{
    reveal_strlit("\n");
}

proof fn added_patch(title: Seq<char>, new_line: Seq<char>, hunks: Seq<char>)
    requires
        opens_file(title),
        on_one_line(title),
        quiet(new_line),
        quiet(hunks),
    ensures
        ({
            let text = title + "\n"@ + "new file mode 100644\n--- /dev/null\n"@ + new_line + hunks;
            patch_files(text).len() == 1 && patch_files(text)[0].status == FileStatus::Added
        }),
{
    let said = "new file mode 100644"@ + "\n"@;
    let null = "--- /dev/null"@ + "\n"@;
    new_file_title();
    mode_line(FileStatus::Added);
    ends_with_line_end("new file mode 100644"@);
    quiet_both(null, new_line);
    quiet_both(null + new_line, hunks);
    section_of_parts(title, said, null + new_line + hunks, FileStatus::Added);
    assert(title + "\n"@ + (said + null) + new_line + hunks =~= title + "\n"@ + said + (null
        + new_line + hunks));
}

proof fn deleted_patch(title: Seq<char>, old_line: Seq<char>, hunks: Seq<char>)
    requires
        opens_file(title),
        on_one_line(title),
        quiet(old_line),
        quiet(hunks),
    ensures
        ({
            let text = title + "\n"@ + "deleted file mode 100644\n"@ + old_line
                + "+++ /dev/null\n"@ + hunks;
            patch_files(text).len() == 1 && patch_files(text)[0].status == FileStatus::Deleted
        }),
{
    let said = "deleted file mode 100644"@ + "\n"@;
    let null = "+++ /dev/null\n"@;
    deleted_file_title();
    mode_line(FileStatus::Deleted);
    ends_with_line_end("deleted file mode 100644"@);
    quiet_both(old_line, null);
    quiet_both(old_line + null, hunks);
    section_of_parts(title, said, old_line + null + hunks, FileStatus::Deleted);
    assert(title + "\n"@ + said + old_line + null + hunks =~= title + "\n"@ + said + (old_line
        + null + hunks));
}

proof fn rename_title()
    ensures
        "\nrename to "@ == "\n"@ + "rename to "@,
{
    reveal_strlit("\nrename to ");
    reveal_strlit("rename to ");
    reveal_strlit("\n");
    assert("\nrename to "@ =~= "\n"@ + "rename to "@);
}

proof fn renamed_patch(
    title: Seq<char>,
    before: Seq<char>,
    now: Seq<char>,
    sides: Seq<char>,
    hunks: Seq<char>,
)
    requires
        opens_file(title),
        on_one_line(title),
        quiet(sides),
        quiet(hunks),
    ensures
        ({
            let text = title + "\n"@ + "rename from "@ + quoted_path(before) + "\nrename to "@
                + quoted_path(now) + "\n"@ + sides + hunks;
            patch_files(text).len() == 1 && patch_files(text)[0].status == FileStatus::Renamed
        }),
{
    rename_title();
    rename_line("rename from "@, before);
    rename_line("rename to "@, now);
    let (a, b) = (quoted_path(before), quoted_path(now));
    let from = "rename from "@ + a + "\n"@;
    let to = "rename to "@ + b + "\n"@;
    ends_with_line_end("rename from "@ + a);
    ends_with_line_end("rename to "@ + b);
    lines_of_both(from, to);
    assert(lines_of(from + to) =~= seq!["rename from "@ + a, "rename to "@ + b]);
    assert((from + to).last() == to.last());
    quiet_both(sides, hunks);
    section_of_parts(title, from + to, sides + hunks, FileStatus::Renamed);
    assert(title + "\n"@ + "rename from "@ + a + ("\n"@ + "rename to "@) + b + "\n"@ + sides
        + hunks =~= title + "\n"@ + (from + to) + (sides + hunks));
}

/// A written patch says the status of its file: parsing it gives that status back.
#[verifier::spinoff_prover]
pub proof fn written_status_is_read(file: FileView)
    requires
        file.status != FileStatus::Copied,
        forall|i: int| 0 <= i < file.hunks.len() ==> writable(#[trigger] file.hunks[i]),
    ensures
        patch_files(whole_patch(file)).len() == 1,
        patch_files(whole_patch(file))[0].status == file.status,
{
    let before = path_before(file);
    let now = path_now(file);
    let title = patch_title(before, now);
    let hunks = hunks_patch(file.hunks, file.hunks.len() as int);
    let old_line = "--- "@ + quoted_path("a/"@ + before) + "\n"@;
    let new_line = "+++ "@ + quoted_path("b/"@ + now) + "\n"@;
    written_title_opens_a_file(before, now);
    written_hunks_are_quiet(file.hunks, file.hunks.len() as int);
    written_side_line_is_quiet("--- "@, "a/"@ + before);
    written_side_line_is_quiet("+++ "@, "b/"@ + now);
    quiet_both(old_line, new_line);
    if file.status == FileStatus::Added {
        added_patch(title, new_line, hunks);
        assert(whole_patch(file) =~= title + "\n"@ + "new file mode 100644\n--- /dev/null\n"@
            + new_line + hunks);
    } else if file.status == FileStatus::Deleted {
        deleted_patch(title, old_line, hunks);
        assert(whole_patch(file) =~= title + "\n"@ + "deleted file mode 100644\n"@ + old_line
            + "+++ /dev/null\n"@ + hunks);
    } else if file.status == FileStatus::Renamed {
        renamed_patch(title, before, now, old_line + new_line, hunks);
        assert(whole_patch(file) =~= title + "\n"@ + "rename from "@ + quoted_path(before)
            + "\nrename to "@ + quoted_path(now) + "\n"@ + (old_line + new_line) + hunks);
    } else {
        let nothing = Seq::<char>::empty();
        assert(lines_of(nothing) =~= seq![]);
        quiet_both(old_line + new_line, hunks);
        section_of_parts(title, nothing, old_line + new_line + hunks, FileStatus::Modified);
        assert(whole_patch(file) =~= title + "\n"@ + nothing + (old_line + new_line + hunks));
    }
}

/// A line of a hunk is read as it was written: its marker gives its kind back, and what is
/// behind the marker its content.
pub proof fn written_line_is_read(line: LineView)
    requires
        line.kind != DiffLineKind::Meta,
    ensures
        ({
            let written = patch_line(line).drop_last();
            &&& patch_line(line).last() == '\n'
            &&& hunk_line_kind(written) == line.kind
            &&& hunk_line_content(written) == line.content
        }),
{
    reveal_strlit("+");
    reveal_strlit("-");
    reveal_strlit(" ");
    reveal_strlit("\n");
    let written = patch_line(line).drop_last();
    assert(after(written, 1) =~= line.content);
}

/// What a line of a hunk adds to the counts of its file: an added line one addition, a
/// removed line one deletion, any other neither.
pub proof fn hunk_lines_are_counted(file: FileDraft, line: Seq<char>)
    requires
        file.open_hunk is Some,
        file.with_metadata(line) is None,
        !stands_at(line, 0, "@@ "@),
    ensures
        ({
            let after = file.with_patch_line(line);
            let added = line.len() > 0 && line[0] == '+';
            let removed = line.len() > 0 && line[0] == '-';
            &&& after.additions == file.additions + if added { 1int } else { 0 }
            &&& after.deletions == file.deletions + if removed { 1int } else { 0 }
            &&& after.open_hunk is Some
            &&& after.open_hunk->0.lines.len() == file.open_hunk->0.lines.len() + 1
            &&& after.hunks == file.hunks
        }),
{
}

} // verus!
