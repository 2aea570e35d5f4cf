//! What staging, discarding and the choice of a base do.

use vstd::prelude::*;
use vstd::string::*;

use crate::git::{
    apply_args, apply_failure, branch_review, checked_out, chosen_base, chosen_upstream,
    context_lines, counterpart, cut_lines_from, default_base_refs, diff_args, discard_of,
    file_differs, file_position, hunk_discard_error, hunk_patch_outcome, joined_lines,
    joined_patches, known_source, listed_paths, new_context, nothing_to_discard, old_context,
    one_file, printed_commit, source_for_stage, untracked_args, untracked_compared,
    with_hunk_stages, worktree_review, DiscardAction, DiscardCandidate, GitApplyTarget,
    HunkPatchSource,
};
use crate::laws::texts::{holds, holds_in_sum, holds_itself};
use crate::model::{FileStage, FileView, HunkView, SourceView};
use crate::patch::{hunks_meet, meets_file, patch_header};
use crate::text::{after, find_from, is_white, stands_at, trimmed};

verus! {

/// A patch goes to the index exactly if the index is the target, and is taken back exactly
/// if that is asked for.
pub proof fn patch_goes_to_its_target(target: GitApplyTarget, reverse: bool)
    ensures
        apply_args(target, reverse).len() > 0,
        apply_args(target, reverse)[0] == "apply"@,
        apply_args(target, reverse).contains("--cached"@) <==> target == GitApplyTarget::Index,
        apply_args(target, reverse).contains("--reverse"@) <==> reverse,
{
    reveal_strlit("apply");
    reveal_strlit("--cached");
    reveal_strlit("--whitespace=nowarn");
    reveal_strlit("--reverse");
    let args = apply_args(target, reverse);
    assert("apply"@.len() == 5 && "--cached"@.len() == 8 && "--whitespace=nowarn"@.len() == 19
        && "--reverse"@.len() == 9);
    if target == GitApplyTarget::Index {
        assert(args[1] == "--cached"@);
    }
    if reverse {
        assert(args[args.len() - 1] == "--reverse"@);
    }
}

/// Each way to apply a patch fails with words of its own.
pub proof fn failures_tell_targets_apart(
    target: GitApplyTarget,
    reverse: bool,
    other: GitApplyTarget,
    other_reverse: bool,
)
    ensures
        apply_failure(target, reverse) == apply_failure(other, other_reverse) <==> target == other
            && reverse == other_reverse,
{
    reveal_strlit("git apply --cached --reverse failed");
    reveal_strlit("git apply --cached failed");
    reveal_strlit("git apply --reverse failed");
    reveal_strlit("git apply failed");
    assert("git apply --cached --reverse failed"@.len() == 35);
    assert("git apply --cached failed"@.len() == 25);
    assert("git apply --reverse failed"@.len() == 26);
    assert("git apply failed"@.len() == 16);
}

/// An unstaged hunk is staged: its patch from the unstaged diff goes forward. A hunk that
/// is staged, even in part, is unstaged: its patch from the staged diff is taken back.
pub proof fn staging_toggles_by_stage(stage: FileStage)
    ensures
        stage == FileStage::Unstaged <==> source_for_stage(stage) == HunkPatchSource::Unstaged,
        stage == FileStage::Unstaged <==> !source_for_stage(stage).taken_back(),
        source_for_stage(stage) == HunkPatchSource::Staged
            <==> source_for_stage(stage).taken_back(),
{
}

/// The base is the one asked for, unless that is blank.
pub proof fn requested_base_is_taken(name: Seq<char>, exists: Seq<bool>)
    requires
        trimmed(name).len() > 0,
    ensures
        chosen_base(Some(name), exists) == Some(name),
{
}

/// Without a requested base the first existing one of `origin/HEAD`, `main` and `master`
/// is taken: it exists, and none before it does. There is none exactly if none exists.
pub proof fn default_base_exists(base: Option<Seq<char>>, exists: Seq<bool>)
    requires
        exists.len() == 3,
        base is Some ==> trimmed(base->0).len() == 0,
    ensures
        chosen_base(base, exists) is Some <==> exists[0] || exists[1] || exists[2],
        chosen_base(base, exists) is Some ==> exists|i: int|
            {
                &&& 0 <= i < 3
                &&& #[trigger] exists[i]
                &&& forall|j: int| 0 <= j < i ==> !#[trigger] exists[j]
                &&& chosen_base(base, exists) == Some(
                    seq!["origin/HEAD"@, "main"@, "master"@][i],
                )
                &&& chosen_base(base, exists) == Some(default_base_refs()[i])
            },
{
    if exists[0] {
        assert(chosen_base(base, exists) == Some(seq!["origin/HEAD"@, "main"@, "master"@][0]));
    } else if exists[1] {
        assert(chosen_base(base, exists) == Some(seq!["origin/HEAD"@, "main"@, "master"@][1]));
    } else if exists[2] {
        assert(chosen_base(base, exists) == Some(seq!["origin/HEAD"@, "main"@, "master"@][2]));
    }
}

/// Unpublished changes are counted from the upstream branch, without one from the branch
/// of that name at the origin, and without both from an existing default base.
pub proof fn unpublished_changes_have_a_base(
    upstream: Option<Seq<char>>,
    origin_branch: Option<Seq<char>>,
    exists: Seq<bool>,
)
    requires
        exists.len() == 3,
    ensures
        upstream is Some ==> chosen_upstream(upstream, origin_branch, exists) == upstream,
        upstream is None && origin_branch is Some ==> chosen_upstream(
            upstream,
            origin_branch,
            exists,
        ) == origin_branch,
        upstream is None && origin_branch is None ==> chosen_upstream(
            upstream,
            origin_branch,
            exists,
        ) == chosen_base(None, exists),
{
}

/// What is not tracked is deleted, what is tracked is restored, and only changes that are
/// not staged are discarded.
pub proof fn discard_spares_the_index(untracked: bool, unstaged: bool)
    ensures
        discard_of(untracked, unstaged) == Some(DiscardAction::RemoveUntracked) <==> untracked,
        discard_of(untracked, unstaged) == Some(DiscardAction::RestoreWorktree) <==> !untracked
            && unstaged,
        discard_of(untracked, unstaged) is None <==> !untracked && !unstaged,
{
}

/// Files are discarded together only where each of them has something to discard; else the
/// first that has nothing is named.
pub proof fn files_are_checked_before_a_discard(files: Seq<DiscardCandidate>, from: int)
    requires
        0 <= from <= files.len(),
    ensures
        nothing_to_discard(files, from) is None <==> forall|i: int|
            from <= i < files.len() ==> (#[trigger] files[i]).untracked || files[i].unstaged,
        nothing_to_discard(files, from) is Some ==> exists|i: int|
            {
                &&& from <= i < files.len()
                &&& nothing_to_discard(files, from) == Some((#[trigger] files[i]).path@)
                &&& !files[i].untracked && !files[i].unstaged
                &&& forall|j: int|
                    from <= j < i ==> (#[trigger] files[j]).untracked || files[j].unstaged
            },
    decreases files.len() - from,
{
    if from < files.len() {
        files_are_checked_before_a_discard(files, from + 1);
        if !files[from].untracked && !files[from].unstaged {
            assert(nothing_to_discard(files, from) == Some(files[from].path@));
        } else if nothing_to_discard(files, from + 1) is Some {
            let i = choose|i: int|
                {
                    &&& from + 1 <= i < files.len()
                    &&& nothing_to_discard(files, from + 1) == Some((#[trigger] files[i]).path@)
                    &&& !files[i].untracked && !files[i].unstaged
                    &&& forall|j: int|
                        from + 1 <= j < i ==> (#[trigger] files[j]).untracked
                            || files[j].unstaged
                };
            assert(nothing_to_discard(files, from) == Some(files[i].path@));
        }
    }
}

/// A hunk can be discarded exactly if it exists and its file is tracked.
pub proof fn hunks_of_tracked_files_are_discarded(
    file: FileView,
    hunk: int,
    untracked: Seq<Seq<char>>,
)
    ensures
        hunk_discard_error(file, hunk, untracked) is None <==> hunk < file.hunks.len()
            && !untracked.contains(file.shown_path()),
{
}

/// The stage of a hunk tells which of the two diffs it has a part in.
pub proof fn hunk_stage_tells_where_it_is(
    file: FileView,
    staged: Seq<FileView>,
    unstaged: Seq<FileView>,
    untracked: Seq<Seq<char>>,
    i: int,
)
    requires
        0 <= i < file.hunks.len(),
    ensures
        ({
            let marked = with_hunk_stages(file, staged, unstaged, untracked);
            let hunk = file.hunks[i];
            let in_index = counterpart(staged, file) is Some && meets_file(
                hunk,
                counterpart(staged, file)->0,
            );
            let in_worktree = untracked.contains(file.shown_path()) || (counterpart(
                unstaged,
                file,
            ) is Some && meets_file(hunk, counterpart(unstaged, file)->0));
            &&& marked.hunks.len() == file.hunks.len()
            &&& marked.hunks[i].lines == hunk.lines
            &&& marked.hunks[i].header == hunk.header
            &&& marked.hunks[i].stage == FileStage::Staged <==> in_index && !in_worktree
            &&& marked.hunks[i].stage == FileStage::Mixed <==> in_index && in_worktree
            &&& marked.hunks[i].stage == FileStage::Unstaged <==> !in_index
        }),
{
}

/// A file is staged where only the index has changes of it, mixed where both have, and
/// unstaged where the index has none.
pub proof fn stage_tells_where_changes_are(staged: bool, unstaged: bool)
    ensures
        FileStage::of(staged, unstaged) == FileStage::Staged <==> staged && !unstaged,
        FileStage::of(staged, unstaged) == FileStage::Mixed <==> staged && unstaged,
        FileStage::of(staged, unstaged) == FileStage::Unstaged <==> !staged,
{
}

proof fn position_is_first(files: Seq<FileView>, target: FileView, from: int)
    requires
        0 <= from <= files.len(),
    ensures
        match file_position(files, target, from) {
            Some(at) => from <= at < files.len() && one_file(files[at], target) && forall|i: int|
                from <= i < at ==> !one_file(#[trigger] files[i], target),
            None => forall|i: int|
                from <= i < files.len() ==> !one_file(#[trigger] files[i], target),
        },
    decreases files.len() - from,
{
    if from < files.len() {
        position_is_first(files, target, from + 1);
    }
}

/// The counterpart of a file in another diff is one of its files, with the same shown path
/// or the same path on one side; there is none only if no file is like that.
pub proof fn counterpart_has_the_same_path(files: Seq<FileView>, target: FileView)
    ensures
        match counterpart(files, target) {
            Some(found) => files.contains(found) && (found.shown_path() == target.shown_path() || (
            found.path == target.path && found.path.len() > 0) || (found.old_path
                == target.old_path && found.old_path.len() > 0)),
            None => forall|i: int|
                0 <= i < files.len() ==> (#[trigger] files[i]).shown_path()
                    != target.shown_path(),
        },
{
    position_is_first(files, target, 0);
    if let Some(at) = file_position(files, target, 0) {
        assert(files[at] == counterpart(files, target)->0);
    }
}

/// A file is a counterpart of itself.
pub proof fn every_file_has_itself(files: Seq<FileView>, i: int)
    requires
        0 <= i < files.len(),
        forall|j: int| 0 <= j < i ==> !one_file(#[trigger] files[j], files[i]),
    ensures
        counterpart(files, files[i]) == Some(files[i]),
{
    position_is_first(files, files[i], 0);
}

proof fn contexts_reach_every_hunk(hunks: Seq<HunkView>, n: int)
    requires
        0 <= n <= hunks.len(),
    ensures
        forall|i: int|
            0 <= i < n ==> old_context(hunks, n) >= (#[trigger] hunks[i]).old_start - 1,
        forall|i: int|
            0 <= i < n ==> new_context(hunks, n) >= (#[trigger] hunks[i]).new_start - 1,
        old_context(hunks, n) == 0 || exists|i: int|
            0 <= i < n && old_context(hunks, n) == (#[trigger] hunks[i]).old_start - 1,
        new_context(hunks, n) == 0 || exists|i: int|
            0 <= i < n && new_context(hunks, n) == (#[trigger] hunks[i]).new_start - 1,
    decreases n,
{
    if n > 0 {
        contexts_reach_every_hunk(hunks, n - 1);
        let hunk = hunks[n - 1];
        if old_context(hunks, n) != 0 && old_context(hunks, n) == old_context(hunks, n - 1) {
            let i = choose|i: int|
                0 <= i < n - 1 && old_context(hunks, n - 1) == (#[trigger] hunks[i]).old_start - 1;
            assert(old_context(hunks, n) == hunks[i].old_start - 1);
        } else if old_context(hunks, n) != 0 {
            assert(old_context(hunks, n) == hunks[n - 1].old_start - 1);
        }
        if new_context(hunks, n) != 0 && new_context(hunks, n) == new_context(hunks, n - 1) {
            let i = choose|i: int|
                0 <= i < n - 1 && new_context(hunks, n - 1) == (#[trigger] hunks[i]).new_start - 1;
            assert(new_context(hunks, n) == hunks[i].new_start - 1);
        } else if new_context(hunks, n) != 0 {
            assert(new_context(hunks, n) == hunks[n - 1].new_start - 1);
        }
    }
}

/// The source is read up to the line before the last hunk of each side, and no further.
pub proof fn context_reaches_to_the_last_hunk(file: FileView)
    ensures
        context_lines(file) is None <==> file.binary || file.hunks.len() == 0,
        match context_lines(file) {
            Some((old_lines, new_lines)) => {
                &&& forall|i: int|
                    0 <= i < file.hunks.len() ==> old_lines >= (
                    #[trigger] file.hunks[i]).old_start - 1 && new_lines
                        >= file.hunks[i].new_start - 1
                &&& old_lines == 0 || exists|i: int|
                    0 <= i < file.hunks.len() && old_lines == (#[trigger] file.hunks[i]).old_start
                        - 1
                &&& new_lines == 0 || exists|i: int|
                    0 <= i < file.hunks.len() && new_lines == (#[trigger] file.hunks[i]).new_start
                        - 1
            },
            None => true,
        },
{
    contexts_reach_every_hunk(file.hunks, file.hunks.len() as int);
}

/// A diff is asked for as a patch without colors and with renames found; what comes before
/// and what comes behind is handed on in its place.
pub proof fn diff_is_asked_for_as_a_patch(pre: Seq<Seq<char>>, post: Seq<Seq<char>>)
    ensures
        ({
            let args = diff_args(pre, post);
            &&& args[0] == "diff"@
            &&& args.contains("--no-color"@) && args.contains("--patch"@) && args.contains(
                "--find-renames"@,
            ) && args.contains("--default-prefix"@)
            &&& args.subrange(1, pre.len() as int + 1) == pre
            &&& args.skip(args.len() - post.len()) == post
            &&& args.len() == pre.len() + post.len() + 5
        }),
{
    let args = diff_args(pre, post);
    let n = pre.len() as int;
    assert(args[n + 1] == "--no-color"@);
    assert(args[n + 2] == "--patch"@);
    assert(args[n + 3] == "--find-renames"@);
    assert(args[n + 4] == "--default-prefix"@);
    assert(args.subrange(1, n + 1) =~= pre);
    assert(args.skip(args.len() - post.len()) =~= post);
}

/// The patch of an untracked file compares nothing with the file, outside of the index; the
/// path is never taken for an option.
pub proof fn untracked_file_is_compared_with_nothing(path: Seq<char>)
    ensures
        ({
            let args = untracked_args(path);
            let n = args.len() as int;
            &&& args[0] == "diff"@
            &&& args.contains("--no-index"@) && args.contains("--no-color"@) && args.contains(
                "--patch"@,
            )
            &&& args[n - 1] == path && args[n - 2] == "/dev/null"@ && args[n - 3] == "--"@
        }),
{
    let args = untracked_args(path);
    assert(args[1] == "--no-color"@ && args[2] == "--patch"@ && args[3] == "--no-index"@);
}

/// A list of paths that each end with a zero is read back: every path, in order, and
/// nothing else.
pub proof fn listed_paths_are_the_names(parts: Seq<Seq<char>>, part: Seq<char>)
    ensures
        listed_paths(parts).contains(part) <==> parts.contains(part) && part.len() > 0,
        (forall|i: int| 0 <= i < parts.len() ==> (#[trigger] parts[i]).len() > 0) ==> listed_paths(
            parts,
        ) == parts,
        listed_paths(parts.push(seq![])) == listed_paths(parts),
    decreases parts.len(),
{
    assert(parts.push(seq![]).drop_last() =~= parts);
    if parts.len() > 0 {
        let front = parts.drop_last();
        let last = parts.last();
        listed_paths_are_the_names(front, part);
        assert(front.push(last) =~= parts);
        if listed_paths(parts).contains(part) {
            let i = choose|i: int|
                0 <= i < listed_paths(parts).len() && listed_paths(parts)[i] == part;
            if i < listed_paths(front).len() {
                assert(listed_paths(front)[i] == part);
                let k = choose|k: int| 0 <= k < front.len() && front[k] == part;
                assert(parts[k] == part);
            } else {
                assert(parts[parts.len() - 1] == part);
            }
        }
        if parts.contains(part) && part.len() > 0 {
            let i = choose|i: int| 0 <= i < parts.len() && parts[i] == part;
            if i < front.len() {
                assert(front[i] == part);
                let k = choose|k: int|
                    0 <= k < listed_paths(front).len() && listed_paths(front)[k] == part;
                assert(listed_paths(parts)[k] == part);
            } else {
                assert(listed_paths(parts).last() == part);
            }
        }
        if forall|i: int| 0 <= i < parts.len() ==> (#[trigger] parts[i]).len() > 0 {
            assert forall|i: int| 0 <= i < front.len() implies (#[trigger] front[i]).len() > 0 by {
                assert(parts[i].len() > 0);
            }
            assert(parts[parts.len() - 1].len() > 0);
        }
    } else {
        assert(listed_paths(parts) =~= parts);
    }
}

proof fn lines_make_up_the_rest(s: Seq<char>, from: int)
    requires
        0 <= from <= s.len(),
    ensures
        joined_lines(cut_lines_from(s, from), cut_lines_from(s, from).len() as int) == after(
            s,
            from,
        ),
        forall|i: int|
            0 <= i < cut_lines_from(s, from).len() ==> line_is_one(
                #[trigger] cut_lines_from(s, from)[i],
            ),
    decreases s.len() - from,
{
    if from < s.len() {
        find_from_is_first(s, '\n', from);
        let at = find_from(s, '\n', from);
        let all = cut_lines_from(s, from);
        if at >= s.len() {
            assert(all.len() == 1);
            assert(joined_lines(all, 0) =~= seq![]);
            assert(joined_lines(all, 1) =~= after(s, from));
            let line = after(s, from);
            assert forall|i: int| 0 <= i < line.len() - 1 implies #[trigger] line[i] != '\n' by {
                assert(line[i] == s[from + i]);
            }
        } else {
            lines_make_up_the_rest(s, at + 1);
            let rest = cut_lines_from(s, at + 1);
            let first = s.subrange(from, at + 1);
            assert(all =~= seq![first] + rest);
            joined_behind(first, rest, rest.len() as int);
            assert(first + after(s, at + 1) =~= after(s, from));
            assert forall|i: int| 0 <= i < first.len() - 1 implies #[trigger] first[i] != '\n' by {
                assert(first[i] == s[from + i]);
            }
            assert forall|i: int| 0 <= i < all.len() implies line_is_one(#[trigger] all[i]) by {
                if i > 0 {
                    assert(all[i] == rest[i - 1]);
                }
            }
        }
    } else {
        assert(joined_lines(cut_lines_from(s, from), 0) =~= after(s, from));
    }
}

proof fn find_from_is_first(s: Seq<char>, c: char, from: int)
    requires
        0 <= from <= s.len(),
    ensures
        from <= find_from(s, c, from) <= s.len(),
        forall|i: int| from <= i < find_from(s, c, from) ==> #[trigger] s[i] != c,
    decreases s.len() - from,
{
    if from < s.len() && s[from] != c {
        find_from_is_first(s, c, from + 1);
    }
}

proof fn joined_behind(first: Seq<char>, rest: Seq<Seq<char>>, n: int)
    requires
        0 <= n <= rest.len(),
    ensures
        joined_lines(seq![first] + rest, n + 1) == first + joined_lines(rest, n),
    decreases n,
{
    let all = seq![first] + rest;
    if n > 0 {
        joined_behind(first, rest, n - 1);
        assert(all[n] == rest[n - 1]);
        assert(joined_lines(all, n + 1) =~= first + joined_lines(rest, n));
    } else {
        assert(joined_lines(all, 0) =~= seq![]);
        assert(joined_lines(all, 1) =~= first + joined_lines(rest, 0));
    }
}

/// Whether a text is one line: a line end stands at its end, if anywhere.
pub open spec fn line_is_one(line: Seq<char>) -> bool {
    forall|i: int| 0 <= i < line.len() - 1 ==> #[trigger] line[i] != '\n'
}

proof fn joined_start(lines: Seq<Seq<char>>, n: int, m: int)
    requires
        0 <= n <= m <= lines.len(),
    ensures
        joined_lines(lines, n).len() <= joined_lines(lines, m).len(),
        joined_lines(lines, m).take(joined_lines(lines, n).len() as int) == joined_lines(lines, n),
    decreases m,
{
    if n < m {
        joined_start(lines, n, m - 1);
        let before = joined_lines(lines, m - 1);
        let start = joined_lines(lines, n);
        assert(joined_lines(lines, m).take(start.len() as int) =~= before.take(
            start.len() as int,
        ));
    } else {
        assert(joined_lines(lines, m).take(joined_lines(lines, n).len() as int) =~= joined_lines(
            lines,
            n,
        ));
    }
}

/// The lines that a source is cut into make up the source, and each is one line. The first
/// lines of a source are its start.
pub proof fn source_lines_make_up_the_source(source: Seq<char>, n: int, i: int)
    requires
        0 <= n <= cut_lines_from(source, 0).len(),
        0 <= i < cut_lines_from(source, 0).len(),
    ensures
        joined_lines(cut_lines_from(source, 0), cut_lines_from(source, 0).len() as int) == source,
        line_is_one(cut_lines_from(source, 0)[i]),
        source.take(joined_lines(cut_lines_from(source, 0), n).len() as int) == joined_lines(
            cut_lines_from(source, 0),
            n,
        ),
{
    lines_make_up_the_rest(source, 0);
    assert(after(source, 0) =~= source);
    joined_start(cut_lines_from(source, 0), n, cut_lines_from(source, 0).len() as int);
}

/// Whether a text stands in another at the start of a line.
pub open spec fn holds_on_a_line(text: Seq<char>, part: Seq<char>) -> bool {
    exists|at: int| #[trigger] stands_at(text, at, part) && (at == 0 || text[at - 1] == '\n')
}

/// The patches of untracked files stand one behind the other, each from the start of a line.
pub proof fn patches_stand_on_their_own_lines(patches: Seq<Seq<char>>, n: int, i: int)
    requires
        0 <= i < n <= patches.len(),
    ensures
        holds_on_a_line(joined_patches(patches, n), patches[i]),
    decreases n,
{
    let before = joined_patches(patches, n - 1);
    let apart = if before.len() > 0 && before.last() != '\n' {
        before.push('\n')
    } else {
        before
    };
    let all = joined_patches(patches, n);
    if i < n - 1 {
        patches_stand_on_their_own_lines(patches, n - 1, i);
        let at = choose|at: int|
            #[trigger] stands_at(before, at, patches[i]) && (at == 0 || before[at - 1] == '\n');
        assert(all.subrange(at, at + patches[i].len()) =~= before.subrange(
            at,
            at + patches[i].len(),
        ));
        assert(stands_at(all, at, patches[i]));
        if at > 0 {
            assert(all[at - 1] == before[at - 1]);
        }
    } else {
        let at = apart.len() as int;
        assert(all.subrange(at, at + patches[i].len()) =~= patches[i]);
        assert(stands_at(all, at, patches[i]));
        if at > 0 {
            assert(all[at - 1] == apart.last());
        }
    }
}

/// The patch that toggles a hunk is made of the hunks that share a line with it, under the
/// header of the file where they were found; where there are none, nothing is applied.
pub proof fn toggled_patch_is_of_the_counterpart(
    file: FileView,
    selected: HunkView,
    source_files: Seq<FileView>,
    source: HunkPatchSource,
)
    ensures
        match hunk_patch_outcome(file, selected, source_files, source) {
            Ok(patch) => exists|i: int, k: int|
                0 <= i < source_files.len() && 0 <= k < source_files[i].hunks.len() && one_file(
                    source_files[i],
                    file,
                ) && hunks_meet(selected, #[trigger] source_files[i].hunks[k]) && stands_at(
                    patch,
                    0,
                    patch_header(source_files[i]),
                ),
            Err(_) => forall|i: int|
                0 <= i < source_files.len() && one_file(#[trigger] source_files[i], file) ==> exists|
                    j: int,
                |
                    0 <= j <= i && one_file(#[trigger] source_files[j], file) && forall|k: int|
                        0 <= k < source_files[j].hunks.len() ==> !hunks_meet(
                            selected,
                            #[trigger] source_files[j].hunks[k],
                        ),
        },
{
    position_is_first(source_files, file, 0);
    match file_position(source_files, file, 0) {
        Some(at) => {
            let found = source_files[at];
            if meets_file(selected, found) {
                let k = choose|k: int|
                    0 <= k < found.hunks.len() && hunks_meet(selected, #[trigger] found.hunks[k]);
                let patch = hunk_patch_outcome(file, selected, source_files, source)->Ok_0;
                assert(patch.subrange(0, patch_header(found).len() as int) =~= patch_header(found));
                assert(hunks_meet(selected, source_files[at].hunks[k]));
            } else {
                assert forall|i: int|
                    0 <= i < source_files.len() && one_file(
                        #[trigger] source_files[i],
                        file,
                    ) implies exists|j: int|
                    0 <= j <= i && one_file(#[trigger] source_files[j], file) && forall|k: int|
                        0 <= k < source_files[j].hunks.len() ==> !hunks_meet(
                            selected,
                            #[trigger] source_files[j].hunks[k],
                        ) by {
                    assert(at <= i);
                    assert(one_file(source_files[at], file));
                }
            }
        },
        None => {},
    }
}

/// A difference is no failure: only other exit codes than zero and one are.
pub proof fn differences_are_no_failures(code: Option<i32>)
    ensures
        file_differs(Some(1)) == Some(true),
        file_differs(Some(0)) == Some(false),
        file_differs(code) is None <==> code != Some(0i32) && code != Some(1i32),
        untracked_compared(true, code),
        untracked_compared(false, code) <==> code == Some(1i32),
{
}

/// Nothing is read of a source that no line is wanted of, nor of one without a path.
pub proof fn sources_are_read_where_wanted(path: Seq<char>, lines: u32)
    ensures
        known_source(path, lines) is None <==> lines > 0 && path.len() > 0,
        lines == 0 ==> known_source(path, lines) == Some(SourceView::Loaded(seq![])),
        lines > 0 && path.len() == 0 ==> known_source(path, lines) == Some(
            SourceView::Unavailable,
        ),
{
}

/// A commit that was printed is taken without the white space around it; nothing printed is
/// no commit.
pub proof fn printed_commit_is_taken(commit: Seq<char>)
    requires
        commit.len() > 0,
        forall|i: int| 0 <= i < commit.len() ==> !is_white(#[trigger] commit[i]),
    ensures
        printed_commit(commit.push('\n')) == Some(commit),
        printed_commit(commit) == Some(commit),
        printed_commit(seq![]) is None,
{
    let printed = commit.push('\n');
    assert(printed[0] == commit[0]);
    assert(printed.drop_last() =~= commit);
    assert(trimmed(printed) == commit);
}

/// The title of a review names the branch; without a branch a worktree review has a plain
/// title, and the commit of a detached head stands for it.
pub proof fn titles_name_the_branch(branch: Seq<char>, commit: Seq<char>, base: Seq<char>)
    ensures
        checked_out(Some(branch), Some(commit)) == Some(branch),
        checked_out(Some(branch), None) == Some(branch),
        checked_out(None, Some(commit)) == Some("detached "@ + commit),
        checked_out(None, None) is None,
        holds(worktree_review(Some(branch)), branch),
        worktree_review(None) == "Working tree changes"@,
        holds(branch_review(Some(branch), base), branch),
        holds(branch_review(Some(branch), base), " into "@ + base),
        holds(branch_review(None, base), "HEAD"@),
{
    broadcast use holds_in_sum, holds_itself;

    let start = "PR review "@ + branch;
    assert(branch_review(Some(branch), base) =~= start + (" into "@ + base));
}

/// Every hunk keeps all but its stage when the stages are found, and its stage is that of
/// the counterparts of its own file.
pub proof fn stages_are_found_for_each_hunk(
    file: FileView,
    staged: Seq<FileView>,
    unstaged: Seq<FileView>,
    untracked: Seq<Seq<char>>,
    i: int,
)
    requires
        0 <= i < file.hunks.len(),
    ensures
        ({
            let after = with_hunk_stages(file, staged, unstaged, untracked);
            let hunk = file.hunks[i];
            let in_index = counterpart(staged, file) is Some && meets_file(
                hunk,
                counterpart(staged, file)->0,
            );
            let in_worktree = untracked.contains(file.shown_path()) || (counterpart(unstaged, file)
                is Some && meets_file(hunk, counterpart(unstaged, file)->0));
            &&& after.hunks.len() == file.hunks.len() && after.path == file.path
            &&& after.hunks[i].header == hunk.header && after.hunks[i].lines == hunk.lines
            &&& in_index && in_worktree ==> after.hunks[i].stage == FileStage::Mixed
            &&& in_index && !in_worktree ==> after.hunks[i].stage == FileStage::Staged
            &&& !in_index ==> after.hunks[i].stage == FileStage::Unstaged
        }),
{
}

} // verus!
