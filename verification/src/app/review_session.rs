//! Session replacement rules for preserving review position across reloads.

use vstd::prelude::*;

use crate::diff_render::int_option;
use crate::model::{Changeset, DiffFile, DiffHunk, FileView, HunkView};
use crate::rows::sidebar::{below_folder, path_is_inside_folder, SidebarRowTarget, TargetView};
use crate::scroll_text::{greatest, least};
use crate::search::text_option;
use crate::text::same;

verus! {

/// What a review looks at.
#[derive(Debug, PartialEq, Eq)]
pub struct ReviewSessionSnapshot {
    pub selected_file_identity: Option<String>,
    pub selected_file_index: usize,
    pub selected_hunk_identity: Option<HunkIdentity>,
    pub selected_hunk_index: Option<usize>,
    pub diff_scroll: usize,
    pub sidebar_target: Option<SidebarRowTarget>,
}

/// A newly loaded changeset and where to look at it.
#[derive(Debug, PartialEq, Eq)]
pub struct ReviewSessionReplacement {
    pub changeset: Changeset,
    pub selected_file_index: usize,
    pub selected_hunk_index: Option<usize>,
    pub diff_scroll: usize,
    pub sidebar_target: Option<SidebarRowTarget>,
}

#[derive(Debug, Clone, Copy, PartialEq, Eq, Structural)]
pub struct HunkIdentity {
    pub old_start: u32,
    pub old_lines: u32,
    pub new_start: u32,
    pub new_lines: u32,
}

/// What a [`ReviewSessionSnapshot`] holds.
pub struct SnapshotView {
    pub file: Option<Seq<char>>,
    pub file_index: int,
    pub hunk: Option<HunkIdentity>,
    pub hunk_index: Option<int>,
    pub scroll: int,
    pub target: Option<TargetView>,
}

/// Where to look at a newly loaded changeset.
pub struct PlaceView {
    pub file_index: int,
    pub hunk_index: Option<int>,
    pub scroll: int,
    pub target: Option<TargetView>,
}

pub open spec fn target_option(target: Option<SidebarRowTarget>) -> Option<TargetView> {
    match target {
        Some(inner) => Some(inner@),
        None => None,
    }
}

impl View for ReviewSessionSnapshot {
    type V = SnapshotView;

    open spec fn view(&self) -> SnapshotView {
        SnapshotView {
            file: text_option(self.selected_file_identity),
            file_index: self.selected_file_index as int,
            hunk: self.selected_hunk_identity,
            hunk_index: int_option(self.selected_hunk_index),
            scroll: self.diff_scroll as int,
            target: target_option(self.sidebar_target),
        }
    }
}

impl ReviewSessionReplacement {
    pub open spec fn place(self) -> PlaceView {
        PlaceView {
            file_index: self.selected_file_index as int,
            hunk_index: int_option(self.selected_hunk_index),
            scroll: self.diff_scroll as int,
            target: target_option(self.sidebar_target),
        }
    }
}

impl HunkView {
    /// The lines that a hunk covers.
    pub open spec fn identity(self) -> HunkIdentity {
        HunkIdentity {
            old_start: self.old_start,
            old_lines: self.old_lines,
            new_start: self.new_start,
            new_lines: self.new_lines,
        }
    }
}

/// The first file from an index on that is shown under a path.
pub open spec fn file_with_path(files: Seq<FileView>, path: Seq<char>, from: int) -> Option<int>
    decreases files.len() - from,
{
    if from >= files.len() {
        None
    } else if files[from].shown_path() == path {
        Some(from)
    } else {
        file_with_path(files, path, from + 1)
    }
}

/// The first hunk from an index on that covers the given lines.
pub open spec fn hunk_covering(
    hunks: Seq<HunkView>,
    identity: HunkIdentity,
    from: int,
) -> Option<int>
    decreases hunks.len() - from,
{
    if from >= hunks.len() {
        None
    } else if hunks[from].identity() == identity {
        Some(from)
    } else {
        hunk_covering(hunks, identity, from + 1)
    }
}

/// Whether any file lies below a folder.
pub open spec fn has_folder(files: Seq<FileView>, folder: Seq<char>) -> bool {
    exists|i: int| 0 <= i < files.len() && below_folder((#[trigger] files[i]).shown_path(), folder)
}

impl SnapshotView {
    /// The selected file in a new changeset.
    pub open spec fn kept_file(self, files: Seq<FileView>) -> Option<int> {
        match self.file {
            Some(path) => file_with_path(files, path, 0),
            None => None,
        }
    }

    /// The hunk to select in a file: the one that covers the same lines, else the one
    /// at the same place, else the first.
    pub open spec fn kept_hunk(self, file: FileView, kept_file: bool) -> Option<int> {
        let by_lines = match self.hunk {
            Some(identity) => hunk_covering(file.hunks, identity, 0),
            None => None,
        };
        if file.hunks.len() == 0 {
            None
        } else if !kept_file {
            Some(0)
        } else {
            match (by_lines, self.hunk_index) {
                (Some(index), _) => Some(index),
                (None, Some(index)) => Some(least(index, file.hunks.len() - 1)),
                (None, None) => Some(0),
            }
        }
    }

    /// Where to look at a new changeset.
    pub open spec fn planned(self, files: Seq<FileView>, preserve_scroll: bool) -> PlaceView {
        let kept = self.kept_file(files);
        let index = match kept {
            Some(index) => index,
            None => least(self.file_index, greatest(files.len() - 1, 0)),
        };
        PlaceView {
            file_index: index,
            hunk_index: if index < files.len() {
                self.kept_hunk(files[index], kept is Some)
            } else {
                None
            },
            scroll: if preserve_scroll && kept is Some { self.scroll } else { 0 },
            target: match self.target {
                Some(TargetView::Folder(path)) if has_folder(files, path) => self.target,
                _ => None,
            },
        }
    }
}

impl ReviewSessionSnapshot {
    pub fn capture(
        selected_file: Option<&DiffFile>,
        selected_file_index: usize,
        selected_hunk: Option<&DiffHunk>,
        selected_hunk_index: Option<usize>,
        diff_scroll: usize,
        sidebar_target: Option<SidebarRowTarget>,
    ) -> (snapshot: Self)
        ensures
            snapshot@ == (SnapshotView {
                file: match selected_file {
                    Some(file) => Some(file@.shown_path()),
                    None => None,
                },
                file_index: selected_file_index as int,
                hunk: match selected_hunk {
                    Some(hunk) => Some(hunk@.identity()),
                    None => None,
                },
                hunk_index: int_option(selected_hunk_index),
                scroll: diff_scroll as int,
                target: target_option(sidebar_target),
            }),
    {
        ReviewSessionSnapshot {
            selected_file_identity: match selected_file {
                Some(file) => Some(file.display_path().to_owned()),
                None => None,
            },
            selected_file_index,
            selected_hunk_identity: match selected_hunk {
                Some(hunk) => Some(hunk_identity(hunk)),
                None => None,
            },
            selected_hunk_index,
            diff_scroll,
            sidebar_target,
        }
    }
}

impl ReviewSessionReplacement {
    pub fn plan(
        snapshot: ReviewSessionSnapshot,
        changeset: Changeset,
        preserve_scroll: bool,
    ) -> (replacement: Self)
        ensures
            replacement.changeset == changeset,
            replacement.place() == snapshot@.planned(changeset@.files, preserve_scroll),
    {
        let reselected_file_index: Option<usize> = match &snapshot.selected_file_identity {
            Some(identity) => find_file_index(&changeset, identity.as_str()),
            None => None,
        };
        let kept_file_selection = reselected_file_index.is_some();
        let selected_file_index: usize = match reselected_file_index {
            Some(index) => index,
            None => {
                let last: usize = changeset.files.len().saturating_sub(1);
                if snapshot.selected_file_index < last {
                    snapshot.selected_file_index
                } else {
                    last
                }
            },
        };
        let selected_hunk_index: Option<usize> = if selected_file_index < changeset.files.len() {
            assert(changeset@.files[selected_file_index as int]
                == changeset.files@[selected_file_index as int]@);
            reloaded_hunk_index(
                &changeset.files[selected_file_index],
                kept_file_selection,
                snapshot.selected_hunk_identity,
                snapshot.selected_hunk_index,
            )
        } else {
            None
        };
        let diff_scroll: usize = if preserve_scroll && kept_file_selection {
            snapshot.diff_scroll
        } else {
            0
        };
        let sidebar_target = reloaded_sidebar_target(snapshot.sidebar_target, &changeset);
        ReviewSessionReplacement {
            changeset,
            selected_file_index,
            selected_hunk_index,
            diff_scroll,
            sidebar_target,
        }
    }
}

fn hunk_identity(hunk: &DiffHunk) -> (identity: HunkIdentity)
    ensures
        identity == hunk@.identity(),
{
    HunkIdentity {
        old_start: hunk.old_start,
        old_lines: hunk.old_lines,
        new_start: hunk.new_start,
        new_lines: hunk.new_lines,
    }
}

fn reloaded_hunk_index(
    file: &DiffFile,
    kept_file_selection: bool,
    previous_identity: Option<HunkIdentity>,
    previous_index: Option<usize>,
) -> (index: Option<usize>)
    ensures
        forall|snapshot: SnapshotView|
            snapshot.hunk == previous_identity && snapshot.hunk_index == int_option(previous_index)
                ==> int_option(index) == #[trigger] snapshot.kept_hunk(file@, kept_file_selection),
{
    if file.hunks.len() == 0 {
        return None;
    }
    if !kept_file_selection {
        return Some(0);
    }
    if let Some(identity) = previous_identity {
        if let Some(index) = find_hunk_index(file, identity) {
            return Some(index);
        }
    }
    match previous_index {
        Some(index) => {
            let last: usize = file.hunks.len() - 1;
            Some(if index < last { index } else { last })
        },
        None => Some(0),
    }
}

fn find_hunk_index(file: &DiffFile, identity: HunkIdentity) -> (index: Option<usize>)
    ensures
        int_option(index) == hunk_covering(file@.hunks, identity, 0),
{
    let mut i: usize = 0;
    while i < file.hunks.len()
        invariant
            i <= file.hunks@.len(),
            hunk_covering(file@.hunks, identity, 0) == hunk_covering(
                file@.hunks,
                identity,
                i as int,
            ),
        decreases file.hunks@.len() - i,
    {
        if hunk_identity(&file.hunks[i]) == identity {
            return Some(i);
        }
        i = i + 1;
    }
    None
}

fn find_file_index(changeset: &Changeset, identity: &str) -> (index: Option<usize>)
    ensures
        int_option(index) == file_with_path(changeset@.files, identity@, 0),
        index is Some ==> index->0 < changeset@.files.len(),
{
    let mut i: usize = 0;
    while i < changeset.files.len()
        invariant
            i <= changeset.files@.len(),
            file_with_path(changeset@.files, identity@, 0) == file_with_path(
                changeset@.files,
                identity@,
                i as int,
            ),
        decreases changeset.files@.len() - i,
    {
        assert(changeset@.files[i as int] == changeset.files@[i as int]@);
        if same(changeset.files[i].display_path(), identity) {
            return Some(i);
        }
        i = i + 1;
    }
    None
}

fn reloaded_sidebar_target(
    previous_target: Option<SidebarRowTarget>,
    changeset: &Changeset,
) -> (target: Option<SidebarRowTarget>)
    ensures
        target_option(target) == (match target_option(previous_target) {
            Some(TargetView::Folder(path)) if has_folder(changeset@.files, path) => target_option(
                previous_target,
            ),
            _ => None,
        }),
{
    match previous_target {
        Some(SidebarRowTarget::Folder(path)) => {
            if folder_exists(changeset, path.as_str()) {
                Some(SidebarRowTarget::Folder(path))
            } else {
                None
            }
        },
        _ => None,
    }
}

fn folder_exists(changeset: &Changeset, folder_path: &str) -> (exists_below: bool)
    ensures
        exists_below == has_folder(changeset@.files, folder_path@),
{
    let mut i: usize = 0;
    while i < changeset.files.len()
        invariant
            i <= changeset.files@.len(),
            forall|j: int|
                0 <= j < i ==> !below_folder(
                    (#[trigger] changeset@.files[j]).shown_path(),
                    folder_path@,
                ),
        decreases changeset.files@.len() - i,
    {
        assert(changeset@.files[i as int] == changeset.files@[i as int]@);
        if path_is_inside_folder(changeset.files[i].display_path(), folder_path) {
            return true;
        }
        i = i + 1;
    }
    false
}

proof fn file_with_path_is_a_file(files: Seq<FileView>, path: Seq<char>, from: int)
    requires
        0 <= from,
    ensures
        match file_with_path(files, path, from) {
            Some(index) => from <= index < files.len() && files[index].shown_path() == path,
            None => forall|i: int|
                from <= i < files.len() ==> (#[trigger] files[i]).shown_path() != path,
        },
    decreases files.len() - from,
{
    if from < files.len() {
        file_with_path_is_a_file(files, path, from + 1);
    }
}

proof fn hunk_covering_is_a_hunk(hunks: Seq<HunkView>, identity: HunkIdentity, from: int)
    requires
        0 <= from,
    ensures
        match hunk_covering(hunks, identity, from) {
            Some(index) => from <= index < hunks.len() && hunks[index].identity() == identity,
            None => forall|i: int|
                from <= i < hunks.len() ==> (#[trigger] hunks[i]).identity() != identity,
        },
    decreases hunks.len() - from,
{
    if from < hunks.len() {
        hunk_covering_is_a_hunk(hunks, identity, from + 1);
    }
}

/// A reload keeps the selected file by the path that it is shown under: while a file
/// with that path is left it stays selected, and with it the scroll offset where that
/// is asked for.
pub proof fn reload_keeps_the_selected_file(
    snapshot: SnapshotView,
    files: Seq<FileView>,
    preserve_scroll: bool,
    path: Seq<char>,
    index: int,
)
    requires
        snapshot.file == Some(path),
        0 <= index < files.len(),
        files[index].shown_path() == path,
    ensures
        ({
            let place = snapshot.planned(files, preserve_scroll);
            &&& 0 <= place.file_index < files.len()
            &&& files[place.file_index].shown_path() == path
            &&& place.scroll == if preserve_scroll { snapshot.scroll } else { 0 }
        }),
{
    file_with_path_is_a_file(files, path, 0);
}

/// The scroll offset starts anew where the selected file is gone.
pub proof fn reload_starts_anew_without_the_selected_file(
    snapshot: SnapshotView,
    files: Seq<FileView>,
    preserve_scroll: bool,
)
    requires
        forall|i: int|
            0 <= i < files.len() ==> Some((#[trigger] files[i]).shown_path()) != snapshot.file,
    ensures
        snapshot.planned(files, preserve_scroll).scroll == 0,
{
    if let Some(path) = snapshot.file {
        file_with_path_is_a_file(files, path, 0);
    }
}

/// What is selected after a reload exists: a file where there are files, and a hunk of
/// that file where it has hunks.
pub proof fn reload_selects_what_exists(
    snapshot: SnapshotView,
    files: Seq<FileView>,
    preserve_scroll: bool,
)
    requires
        0 <= snapshot.file_index,
        snapshot.hunk_index is Some ==> 0 <= snapshot.hunk_index->0,
    ensures
        ({
            let place = snapshot.planned(files, preserve_scroll);
            &&& files.len() > 0 ==> 0 <= place.file_index < files.len()
            &&& files.len() > 0 && files[place.file_index].hunks.len() > 0 ==> place.hunk_index
                is Some && 0 <= place.hunk_index->0 < files[place.file_index].hunks.len()
            &&& files.len() == 0 || files[place.file_index].hunks.len() == 0 ==> place.hunk_index
                is None
        }),
{
    if let Some(path) = snapshot.file {
        file_with_path_is_a_file(files, path, 0);
    }
    let place = snapshot.planned(files, preserve_scroll);
    if let Some(identity) = snapshot.hunk {
        if files.len() > 0 {
            hunk_covering_is_a_hunk(files[place.file_index].hunks, identity, 0);
        }
    }
}

/// A hunk that still covers the same lines of the selected file stays selected.
pub proof fn reload_keeps_the_selected_hunk(
    snapshot: SnapshotView,
    files: Seq<FileView>,
    preserve_scroll: bool,
    identity: HunkIdentity,
    hunk: int,
)
    requires
        snapshot.hunk == Some(identity),
        snapshot.kept_file(files) is Some,
        0 <= hunk < files[snapshot.kept_file(files)->0].hunks.len(),
        files[snapshot.kept_file(files)->0].hunks[hunk].identity() == identity,
    ensures
        ({
            let place = snapshot.planned(files, preserve_scroll);
            &&& place.hunk_index is Some
            &&& 0 <= place.hunk_index->0 < files[place.file_index].hunks.len()
            &&& files[place.file_index].hunks[place.hunk_index->0].identity() == identity
        }),
{
    if let Some(path) = snapshot.file {
        file_with_path_is_a_file(files, path, 0);
    }
    hunk_covering_is_a_hunk(files[snapshot.kept_file(files)->0].hunks, identity, 0);
}

} // verus!
