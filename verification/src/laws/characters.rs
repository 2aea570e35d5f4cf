//! What the readers of texts and colors give.

use vstd::prelude::*;
use vstd::string::*;

use crate::model::{FileStatus, FileView};
use crate::review_source::ReviewSource;
use crate::rows::text::tabs_expanded;
use crate::style::Color;
use crate::syntax::color_rgb;
use crate::text::{
    after, ascii_lower, base_name, extension_of, find_from, first_is_found, is_white, joined_path,
    lines_from, lines_of, pieces, pieces_from, trimmed, trimmed_end, trimmed_start, white_from,
    white_from_bounds, without_return, words_from, words_of,
};

verus! {

proof fn start_is_trimmed(s: Seq<char>)
    ensures
        trimmed_start(s).len() <= s.len(),
        trimmed_start(s) == s.skip(s.len() - trimmed_start(s).len()),
        trimmed_start(s).len() > 0 ==> !is_white(trimmed_start(s)[0]),
        forall|i: int| 0 <= i < s.len() - trimmed_start(s).len() ==> is_white(#[trigger] s[i]),
    decreases s.len(),
{
    if s.len() > 0 && is_white(s[0]) {
        let rest = after(s, 1);
        start_is_trimmed(rest);
        let kept = trimmed_start(s);
        assert(kept =~= s.skip(s.len() - kept.len()));
        assert forall|i: int| 0 <= i < s.len() - kept.len() implies is_white(#[trigger] s[i]) by {
            if i > 0 {
                assert(rest[i - 1] == s[i]);
            }
        }
    } else {
        assert(s.skip(0) =~= s);
    }
}

proof fn end_is_trimmed(s: Seq<char>)
    ensures
        trimmed_end(s).len() <= s.len(),
        trimmed_end(s) == s.take(trimmed_end(s).len() as int),
        trimmed_end(s).len() > 0 ==> !is_white(trimmed_end(s).last()),
        forall|i: int| trimmed_end(s).len() <= i < s.len() ==> is_white(#[trigger] s[i]),
    decreases s.len(),
{
    if s.len() > 0 && is_white(s.last()) {
        let front = s.drop_last();
        end_is_trimmed(front);
        let kept = trimmed_end(s);
        assert(kept =~= s.take(kept.len() as int));
        assert forall|i: int| kept.len() <= i < s.len() implies is_white(#[trigger] s[i]) by {
            if i < s.len() - 1 {
                assert(front[i] == s[i]);
            }
        }
    } else {
        assert(s.take(s.len() as int) =~= s);
    }
}

/// Trimming takes off white space at both ends, all of it and nothing else.
pub proof fn trimming_takes_off_white_space(s: Seq<char>)
    ensures
        exists|from: int, to: int|
            0 <= from <= to <= s.len() && trimmed(s) == #[trigger] s.subrange(from, to) && (forall|
                i: int,
            |
                0 <= i < from || to <= i < s.len() ==> is_white(#[trigger] s[i])),
        trimmed(s).len() > 0 ==> !is_white(trimmed(s)[0]) && !is_white(trimmed(s).last()),
{
    start_is_trimmed(s);
    let rest = trimmed_start(s);
    end_is_trimmed(rest);
    let kept = trimmed(s);
    let from = s.len() - rest.len();
    let to = from + kept.len();
    assert(kept =~= s.subrange(from, to));
    assert forall|i: int| 0 <= i < from || to <= i < s.len() implies is_white(#[trigger] s[i]) by {
        if i >= from {
            assert(rest[i - from] == s[i]);
        }
    }
    if kept.len() > 0 {
        assert(kept[0] == rest[0]);
    }
}

/// Whether a text has no copy of a character.
pub open spec fn lacks(text: Seq<char>, c: char) -> bool {
    forall|i: int| 0 <= i < text.len() ==> #[trigger] text[i] != c
}

/// Pieces with a separator between them.
pub open spec fn joined_with(parts: Seq<Seq<char>>, c: char) -> Seq<char>
    decreases parts.len(),
{
    if parts.len() == 0 {
        seq![]
    } else if parts.len() == 1 {
        parts[0]
    } else {
        parts[0].push(c) + joined_with(parts.skip(1), c)
    }
}

proof fn found_first(s: Seq<char>, c: char, from: int)
    requires
        0 <= from <= s.len(),
    ensures
        from <= find_from(s, c, from) <= s.len(),
        forall|i: int| from <= i < find_from(s, c, from) ==> #[trigger] s[i] != c,
        find_from(s, c, from) < s.len() ==> s[find_from(s, c, from)] == c,
    decreases s.len() - from,
{
    if from < s.len() && s[from] != c {
        found_first(s, c, from + 1);
    }
}

proof fn pieces_make_up_the_rest(s: Seq<char>, c: char, from: int)
    requires
        0 <= from <= s.len(),
    ensures
        pieces_from(s, c, from).len() > 0,
        joined_with(pieces_from(s, c, from), c) == after(s, from),
        forall|i: int|
            0 <= i < pieces_from(s, c, from).len() ==> lacks(#[trigger] pieces_from(s, c, from)[i], c),
    decreases s.len() - from,
{
    found_first(s, c, from);
    let at = find_from(s, c, from);
    let all = pieces_from(s, c, from);
    if at < s.len() {
        pieces_make_up_the_rest(s, c, at + 1);
        let first = s.subrange(from, at);
        let rest = pieces_from(s, c, at + 1);
        assert(all == seq![first] + rest);
        assert(all.skip(1) =~= rest);
        assert(first.push(c) + after(s, at + 1) =~= after(s, from));
        assert forall|i: int| 0 <= i < first.len() implies #[trigger] first[i] != c by {
            assert(first[i] == s[from + i]);
        }
        assert forall|i: int| 0 <= i < all.len() implies lacks(#[trigger] all[i], c) by {
            if i > 0 {
                assert(all[i] == rest[i - 1]);
            }
        }
    } else {
        let only = after(s, from);
        assert forall|i: int| 0 <= i < only.len() implies #[trigger] only[i] != c by {
            assert(only[i] == s[from + i]);
        }
    }
}

/// A text is its pieces with the separator between them, and no piece holds a separator.
pub proof fn pieces_make_up_the_text(s: Seq<char>, c: char, i: int)
    requires
        0 <= i < pieces(s, c).len(),
    ensures
        joined_with(pieces(s, c), c) == s,
        lacks(pieces(s, c)[i], c),
{
    pieces_make_up_the_rest(s, c, 0);
    assert(after(s, 0) =~= s);
}

proof fn last_piece_ends_the_text(parts: Seq<Seq<char>>, c: char)
    requires
        parts.len() > 0,
    ensures
        ({
            let s = joined_with(parts, c);
            let last = parts.last();
            &&& last.len() <= s.len() && s.skip(s.len() - last.len()) == last
            &&& parts.len() > 1 ==> s.len() > last.len() && s[s.len() - last.len() - 1] == c
        }),
    decreases parts.len(),
{
    let s = joined_with(parts, c);
    let last = parts.last();
    if parts.len() > 1 {
        let rest = parts.skip(1);
        last_piece_ends_the_text(rest, c);
        let t = joined_with(rest, c);
        assert(rest.last() == last);
        assert(s.skip(s.len() - last.len()) =~= t.skip(t.len() - last.len()));
        if rest.len() > 1 {
            assert(s[s.len() - last.len() - 1] == t[t.len() - last.len() - 1]);
        } else {
            assert(t =~= last);
        }
    } else {
        assert(s.skip(0) =~= s);
    }
}

/// The name of a path is what stands behind its last slash, and all of it where it has none;
/// the extension of a name is what stands behind its last dot.
pub proof fn names_stand_behind_the_last_separator(path: Seq<char>)
    ensures
        ({
            let name = base_name(path);
            &&& lacks(name, '/')
            &&& name == path || (name.len() < path.len() && path[path.len() - name.len() - 1] == '/')
            &&& path.skip(path.len() - name.len()) == name
        }),
        match extension_of(path) {
            Some(extension) => lacks(extension, '.') && extension.len() < path.len() && path[
            path.len() - extension.len() - 1] == '.' && path.skip(path.len() - extension.len())
                == extension,
            None => lacks(path, '.'),
        },
{
    pieces_make_up_the_rest(path, '/', 0);
    pieces_make_up_the_rest(path, '.', 0);
    assert(after(path, 0) =~= path);
    last_piece_ends_the_text(pieces(path, '/'), '/');
    last_piece_ends_the_text(pieces(path, '.'), '.');
    let parts = pieces(path, '.');
    assert(lacks(parts[parts.len() - 1], '.'));
    let names = pieces(path, '/');
    assert(lacks(names[names.len() - 1], '/'));
    if names.len() == 1 {
        assert(joined_with(names, '/') == names[0]);
    }
    if parts.len() == 1 {
        assert(joined_with(parts, '.') == parts[0]);
    }
}

proof fn words_are_runs(s: Seq<char>, from: int, k: int)
    requires
        0 <= from <= s.len(),
        0 <= k < words_from(s, from).len(),
    ensures
        words_from(s, from)[k].len() > 0,
        forall|i: int|
            0 <= i < words_from(s, from)[k].len() ==> !is_white(#[trigger] words_from(s, from)[k][i]),
    decreases s.len() - from,
{
    white_from_bounds(s, false, from);
    let start = white_from(s, false, from);
    if start < s.len() {
        white_from_bounds(s, true, start);
        let end = white_from(s, true, start);
        nothing_white_before(s, start);
        if k > 0 {
            words_are_runs(s, end, k - 1);
            assert(words_from(s, from)[k] == words_from(s, end)[k - 1]);
        } else {
            let word = s.subrange(start, end);
            assert(words_from(s, from)[0] == word);
            assert forall|i: int| 0 <= i < word.len() implies !is_white(#[trigger] word[i]) by {
                assert(word[i] == s[start + i]);
            }
        }
    }
}

proof fn nothing_white_before(s: Seq<char>, from: int)
    requires
        0 <= from <= s.len(),
    ensures
        forall|i: int| from <= i < white_from(s, true, from) ==> !is_white(#[trigger] s[i]),
    decreases s.len() - from,
{
    if from < s.len() && !is_white(s[from]) {
        nothing_white_before(s, from + 1);
    }
}

/// Words are not empty and hold no white space.
pub proof fn words_hold_no_white_space(s: Seq<char>, k: int, i: int)
    requires
        0 <= k < words_of(s).len(),
        0 <= i < words_of(s)[k].len(),
    ensures
        words_of(s)[k].len() > 0,
        !is_white(words_of(s)[k][i]),
{
    words_are_runs(s, 0, k);
}

proof fn lines_have_no_ends(s: Seq<char>, from: int, k: int)
    requires
        0 <= from <= s.len(),
        0 <= k < lines_from(s, from).len(),
    ensures
        lacks(lines_from(s, from)[k], '\n'),
    decreases s.len() - from,
{
    if from < s.len() {
        found_first(s, '\n', from);
        let at = find_from(s, '\n', from);
        if at >= s.len() {
            let only = after(s, from);
            assert forall|i: int| 0 <= i < only.len() implies #[trigger] only[i] != '\n' by {
                assert(only[i] == s[from + i]);
            }
        } else if k == 0 {
            let whole = s.subrange(from, at);
            let line = without_return(whole);
            assert forall|i: int| 0 <= i < line.len() implies #[trigger] line[i] != '\n' by {
                assert(line[i] == s[from + i]);
            }
        } else {
            lines_have_no_ends(s, at + 1, k - 1);
            assert(lines_from(s, from)[k] == lines_from(s, at + 1)[k - 1]);
        }
    }
}

/// No line holds a line end, and a line that is written with its end is read without it,
/// with a carriage return or not.
pub proof fn lines_are_read_without_their_ends(s: Seq<char>, line: Seq<char>, k: int)
    requires
        lacks(line, '\n'),
        line.len() > 0 ==> line.last() != '\r',
    ensures
        0 <= k < lines_of(s).len() ==> lacks(lines_of(s)[k], '\n'),
        lines_of(line.push('\n')) == seq![line],
        lines_of(line.push('\r').push('\n')) == seq![line],
{
    if 0 <= k < lines_of(s).len() {
        lines_have_no_ends(s, 0, k);
    }
    one_line(line);
    let returned = line.push('\r');
    assert(lacks(returned, '\n'));
    one_line(returned);
    assert(returned.drop_last() =~= line);
}

proof fn one_line(line: Seq<char>)
    requires
        lacks(line, '\n'),
    ensures
        lines_of(line.push('\n')) == seq![without_return(line)],
{
    let s = line.push('\n');
    first_is_found(s, '\n', 0, line.len() as int);
    assert(s.subrange(0, line.len() as int) =~= line);
    assert(lines_from(s, line.len() as int + 1) =~= seq![]);
    assert(lines_of(s) =~= seq![without_return(line)]);
}

/// A path behind a directory is separated from it by exactly one slash.
pub proof fn joined_paths_have_one_slash(dir: Seq<char>, rest: Seq<char>)
    requires
        dir.len() > 0,
    ensures
        ({
            let path = joined_path(dir, rest);
            &&& path.take(dir.len() as int) == dir
            &&& path.skip(path.len() - rest.len()) == rest
            &&& path[path.len() - rest.len() - 1] == '/'
            &&& path.len() == dir.len() + rest.len() + if dir.last() == '/' { 0int } else { 1 }
        }),
{
    reveal_strlit("/");
    let path = joined_path(dir, rest);
    assert(path.take(dir.len() as int) =~= dir);
    assert(path.skip(path.len() - rest.len()) =~= rest);
}

/// Letters are compared in lower case, and no other character changes.
pub proof fn letters_are_lowered(c: char)
    ensures
        'A' <= c <= 'Z' ==> ascii_lower(c) as int == c as int + 32,
        !('A' <= c <= 'Z') ==> ascii_lower(c) == c,
{
}

proof fn tabs_count(text: Seq<char>)
    ensures
        lacks(tabs_expanded(text), '\t'),
        lacks(text, '\t') ==> tabs_expanded(text) == text,
    decreases text.len(),
{
    if text.len() > 0 {
        let front = text.drop_last();
        tabs_count(front);
        let shown = tabs_expanded(front);
        if text.last() == '\t' {
            assert(!lacks(text, '\t')) by {
                assert(text[text.len() - 1] == '\t');
            }
        } else if lacks(text, '\t') {
            assert forall|i: int| 0 <= i < front.len() implies #[trigger] front[i] != '\t' by {
                assert(front[i] == text[i]);
            }
            assert(shown.push(text.last()) =~= text);
        }
        assert forall|i: int| 0 <= i < tabs_expanded(text).len() implies #[trigger] tabs_expanded(
            text,
        )[i] != '\t' by {
            if i < shown.len() {
                assert(tabs_expanded(text)[i] == shown[i]);
            }
        }
    } else {
        assert(tabs_expanded(text) =~= text);
    }
}

proof fn tabs_of_both(a: Seq<char>, b: Seq<char>)
    ensures
        tabs_expanded(a + b) == tabs_expanded(a) + tabs_expanded(b),
    decreases b.len(),
{
    if b.len() > 0 {
        assert((a + b).drop_last() =~= a + b.drop_last());
        tabs_of_both(a, b.drop_last());
        assert(tabs_expanded(a + b) =~= tabs_expanded(a) + tabs_expanded(b));
    } else {
        assert(a + b =~= a);
        assert(tabs_expanded(a + b) =~= tabs_expanded(a) + tabs_expanded(b));
    }
}

/// A tab is shown as two spaces, wherever it stands; everything else is shown as it is.
pub proof fn tabs_are_shown_as_spaces(before: Seq<char>, behind: Seq<char>)
    ensures
        lacks(tabs_expanded(before), '\t'),
        lacks(before, '\t') ==> tabs_expanded(before) == before,
        tabs_expanded(before.push('\t') + behind) == tabs_expanded(before) + seq![' ', ' ']
            + tabs_expanded(behind),
{
    tabs_count(before);
    tabs_of_both(before.push('\t'), behind);
    assert(before.push('\t').drop_last() =~= before);
    assert(tabs_expanded(before).push(' ').push(' ') =~= tabs_expanded(before) + seq![' ', ' ']);
}

/// The letter of a status is the first of its name.
pub proof fn status_letters(status: FileStatus)
    ensures
        status.letter() == match status {
            FileStatus::Added => "A"@,
            FileStatus::Deleted => "D"@,
            FileStatus::Modified => "M"@,
            FileStatus::Renamed => "R"@,
            FileStatus::Copied => "C"@,
        },
{
}

/// A file can be opened from a worktree where it still is, at a path inside the worktree; a
/// pull request is never edited.
pub proof fn only_files_that_are_there_are_edited(source: ReviewSource, file: FileView)
    ensures
        source is PullRequest ==> source.edit_error(file) is Some,
        file.status == FileStatus::Deleted ==> source.edit_error(file) is Some,
        file.path.len() == 0 ==> source.edit_error(file) is Some,
        file.path.len() > 0 && file.path[0] == '/' ==> source.edit_error(file) is Some,
        pieces(file.path, '/').contains(".."@) ==> source.edit_error(file) is Some,
        source is Worktree && file.status != FileStatus::Deleted && file.path.len() > 0
            && file.path[0] != '/' && !pieces(file.path, '/').contains(".."@)
            ==> source.edit_error(file) is None,
{
}

/// An empty review says which changes there are none of.
pub proof fn empty_reviews_say_what_is_missing(source: ReviewSource)
    ensures
        source is Worktree ==> source.sidebar_message() == "No tracked changes"@,
        source is PullRequest ==> source.sidebar_message() == "No branch changes"@,
        source is Worktree ==> source.diff_message()
            == "No diff to review. Make a tracked change, then run chunk diff."@,
        source is PullRequest ==> source.diff_message()
            == "No diff to review. Current branch has no changes against base."@,
{
}

/// The steps of a color in the cube of indexed colors.
pub open spec fn cube_steps() -> Seq<u8> {
    seq![0u8, 95, 135, 175, 215, 255]
}

/// An indexed color is one of the sixteen named ones, one of a cube of six steps each for
/// red, green and blue, or a shade of gray that grows lighter with its index.
pub proof fn indexed_colors_are_the_usual_ones(index: u8, r: int, g: int, b: int)
    requires
        0 <= r < 6,
        0 <= g < 6,
        0 <= b < 6,
    ensures
        color_rgb(Color::Indexed((16 + 36 * r + 6 * g + b) as u8)) == (
            cube_steps()[r],
            cube_steps()[g],
            cube_steps()[b],
        ),
        232 <= index ==> color_rgb(Color::Indexed(index)) == (
            (8 + 10 * (index - 232)) as u8,
            (8 + 10 * (index - 232)) as u8,
            (8 + 10 * (index - 232)) as u8,
        ),
        color_rgb(Color::Indexed(0)) == color_rgb(Color::Black),
        color_rgb(Color::Indexed(1)) == color_rgb(Color::Red),
        color_rgb(Color::Indexed(2)) == color_rgb(Color::Green),
        color_rgb(Color::Indexed(3)) == color_rgb(Color::Yellow),
        color_rgb(Color::Indexed(4)) == color_rgb(Color::Blue),
        color_rgb(Color::Indexed(5)) == color_rgb(Color::Magenta),
        color_rgb(Color::Indexed(6)) == color_rgb(Color::Cyan),
        color_rgb(Color::Indexed(7)) == color_rgb(Color::Gray),
        color_rgb(Color::Indexed(8)) == color_rgb(Color::DarkGray),
        color_rgb(Color::Indexed(15)) == color_rgb(Color::White),
        color_rgb(Color::Rgb(index, 0, 255)) == (index, 0u8, 255u8),
        color_rgb(Color::LightRed) == (255u8, 0u8, 0u8),
        color_rgb(Color::LightGreen) == (0u8, 255u8, 0u8),
        color_rgb(Color::LightBlue) == (0u8, 0u8, 255u8),
{
    let step = 36 * r + 6 * g + b;
    assert(step / 36 == r);
    assert((step % 36) / 6 == g);
    assert(step % 6 == b);
    assert(0 <= 16 + step <= 231);
}

} // verus!
