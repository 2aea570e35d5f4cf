//! Staging and discarding.

use vstd::prelude::*;

use crate::app::effects::{effect_views, AppEffect, EffectView};
use crate::app::focused_review_target::{FocusedMutationTarget, FocusedView};
use crate::app::overlay::{DiscardConfirmation, DiscardTarget, DiscardView, Overlay, OverlayView};
use crate::app::{file_at, App, AppView, FocusPane};
use crate::model::{DiffFile, FileStage, FileView};
use crate::review_source::{MutationView, WorktreeMutation};
use crate::rows::sidebar::{below_folder, path_is_inside_folder, SidebarRowTarget, TargetView};
use crate::text::{cat2, same, texts, texts_push};

verus! {

/// The shown paths of the files below a folder among the first `n`; of those that are
/// not fully staged where `unstaged_only` holds.
pub open spec fn paths_below(
    files: Seq<FileView>,
    folder: Seq<char>,
    unstaged_only: bool,
    n: int,
) -> Seq<Seq<char>>
    decreases n,
{
    if n <= 0 {
        seq![]
    } else {
        let before = paths_below(files, folder, unstaged_only, n - 1);
        let file = files[n - 1];
        if below_folder(file.shown_path(), folder) && (!unstaged_only || file.stage
            != FileStage::Staged) {
            before.push(file.shown_path())
        } else {
            before
        }
    }
}

/// All shown paths below a folder.
pub open spec fn folder_paths(files: Seq<FileView>, folder: Seq<char>) -> Seq<Seq<char>> {
    paths_below(files, folder, false, files.len() as int)
}

/// The shown paths below a folder that have changes which are not staged.
pub open spec fn discardable_paths(files: Seq<FileView>, folder: Seq<char>) -> Seq<Seq<char>> {
    paths_below(files, folder, true, files.len() as int)
}

/// Whether every file below a folder is staged.
pub open spec fn all_staged_below(files: Seq<FileView>, folder: Seq<char>) -> bool {
    forall|i: int|
        0 <= i < files.len() && below_folder((#[trigger] files[i]).shown_path(), folder)
            ==> files[i].stage == FileStage::Staged
}

/// Whether every path of a list is in another.
pub open spec fn all_among(paths: Seq<Seq<char>>, present: Seq<Seq<char>>) -> bool {
    forall|i: int| 0 <= i < paths.len() ==> present.contains(#[trigger] paths[i])
}

impl AppView {
    /// The folder that the cursor of the focused files panel is on.
    pub open spec fn marked_folder(self) -> Option<Seq<char>> {
        match self.cursor {
            Some(TargetView::Folder(path)) => if self.focus == FocusPane::Sidebar
                && self.files_visible {
                Some(path)
            } else {
                None
            },
            _ => None,
        }
    }

    /// With a change of the worktree asked for. A pull request is left alone.
    pub open spec fn mutating(self, mutation: MutationView) -> AppView {
        if self.can_mutate() {
            AppView { effects: self.effects.push(EffectView::ApplyMutation(mutation)), ..self }
        } else {
            self
        }
    }

    /// With the focused file or hunk staged or unstaged.
    pub open spec fn focused_staging(self) -> AppView {
        match self.focused().staging() {
            Ok(Some(FocusedView::File { file, .. })) => self.mutating(
                MutationView::ToggleFileStaging { path: file.shown_path() },
            ),
            Ok(Some(FocusedView::Hunk { file, hunk, .. })) => self.mutating(
                MutationView::ToggleHunkStaging { file, hunk_index: hunk },
            ),
            Ok(None) => self,
            Err(message) => self.failed(message),
        }
    }

    /// With the marked folder staged, or unstaged where all of it was staged; without
    /// a folder the focused file or hunk.
    pub open spec fn staging_toggled(self) -> AppView {
        if !self.can_mutate() {
            self
        } else {
            match self.marked_folder() {
                Some(folder) => {
                    let paths = folder_paths(self.files(), folder);
                    if paths.len() == 0 {
                        self.failed(
                            "no changed files in folder "@ + folder,
                        ).focused_staging()
                    } else if all_staged_below(self.files(), folder) {
                        self.mutating(MutationView::UnstageFiles { paths })
                    } else {
                        self.mutating(MutationView::StageFiles { paths })
                    }
                },
                None => self.focused_staging(),
            }
        }
    }

    /// With a confirmation asked for.
    pub open spec fn confirming(self, target: DiscardView) -> AppView {
        AppView { live_error: None, overlay: Some(OverlayView::Discard(target)), ..self }
    }

    /// With a confirmation asked for the focused file or hunk.
    pub open spec fn focused_discard(self) -> AppView {
        match self.focused().discard() {
            Ok(Some(FocusedView::File { index, file })) => self.confirming(
                DiscardView::File { file_index: index, path: file.shown_path() },
            ),
            Ok(Some(FocusedView::Hunk { index, file, hunk })) => self.confirming(
                DiscardView::Hunk {
                    file_index: index,
                    hunk_index: hunk,
                    path: file.shown_path(),
                },
            ),
            Ok(None) => self,
            Err(message) => self.failed(message),
        }
    }

    /// With a confirmation asked for what is to be discarded.
    pub open spec fn discard_requested(self) -> AppView {
        if !self.can_mutate() {
            self
        } else {
            match self.marked_folder() {
                Some(folder) => {
                    let paths = discardable_paths(self.files(), folder);
                    if paths.len() == 0 {
                        self.failed(
                            "no unstaged worktree changes in folder "@ + folder,
                        ).focused_discard()
                    } else {
                        self.confirming(DiscardView::Folder { path: folder, file_paths: paths })
                    }
                },
                None => self.focused_discard(),
            }
        }
    }

    /// Why a confirmed discard of a file cannot be done, if it cannot.
    pub open spec fn file_changed(self, index: int, path: Seq<char>) -> Option<Seq<char>> {
        if index >= self.files().len() {
            Some("discard failed: selected file no longer exists"@)
        } else if self.files()[index].shown_path() != path {
            Some("discard failed: selected file changed before confirmation"@)
        } else {
            None
        }
    }

    /// Why a confirmed discard of a folder cannot be done, if it cannot.
    pub open spec fn folder_changed(self, folder: Seq<char>, paths: Seq<Seq<char>>) -> Option<
        Seq<char>,
    > {
        if paths.len() == 0 {
            Some("discard failed: selected folder has no files"@)
        } else if !all_among(paths, folder_paths(self.files(), folder)) {
            Some("discard failed: selected folder changed before confirmation"@)
        } else {
            None
        }
    }

    /// With the overlay closed and the confirmed discard asked for, or an error where what
    /// was confirmed is no longer there.
    pub open spec fn discard_confirmed(self) -> AppView {
        let closed = AppView { overlay: None, ..self };
        match self.overlay {
            Some(OverlayView::Discard(DiscardView::File { file_index, path })) => {
                match self.file_changed(file_index, path) {
                    Some(message) => closed.failed(message),
                    None => closed.mutating(MutationView::DiscardFile { path }),
                }
            },
            Some(OverlayView::Discard(DiscardView::Folder { path, file_paths })) => {
                match self.folder_changed(path, file_paths) {
                    Some(message) => closed.failed(message),
                    None => closed.mutating(MutationView::DiscardFiles { paths: file_paths }),
                }
            },
            Some(OverlayView::Discard(DiscardView::Hunk { file_index, hunk_index, path })) => {
                match self.file_changed(file_index, path) {
                    Some(message) => closed.failed(message),
                    None => closed.mutating(
                        MutationView::DiscardHunk { file: self.files()[file_index], hunk_index },
                    ),
                }
            },
            _ => closed,
        }
    }
}

fn collect_paths_below(files: &Vec<DiffFile>, folder_path: &str, unstaged_only: bool) -> (paths: Vec<
    String,
>)
    ensures
        texts(paths@) == paths_below(
            crate::model::file_views(files@),
            folder_path@,
            unstaged_only,
            files@.len() as int,
        ),
{
    broadcast use texts_push;

    let ghost views = crate::model::file_views(files@);
    let mut paths: Vec<String> = Vec::new();
    assert(texts(paths@) =~= seq![]);
    let mut i: usize = 0;
    while i < files.len()
        invariant
            i <= files@.len(),
            views == crate::model::file_views(files@),
            texts(paths@) == paths_below(views, folder_path@, unstaged_only, i as int),
        decreases files@.len() - i,
    {
        let file = &files[i];
        assert(views[i as int] == file@);
        if path_is_inside_folder(file.display_path(), folder_path) && (!unstaged_only
            || file.stage != FileStage::Staged) {
            paths.push(file.display_path().to_owned());
        }
        i = i + 1;
    }
    paths
}

fn folder_is_staged(files: &Vec<DiffFile>, folder_path: &str) -> (staged: bool)
    ensures
        staged == all_staged_below(crate::model::file_views(files@), folder_path@),
{
    let ghost views = crate::model::file_views(files@);
    let mut i: usize = 0;
    while i < files.len()
        invariant
            i <= files@.len(),
            views == crate::model::file_views(files@),
            forall|j: int|
                0 <= j < i && below_folder((#[trigger] views[j]).shown_path(), folder_path@)
                    ==> views[j].stage == FileStage::Staged,
        decreases files@.len() - i,
    {
        assert(views[i as int] == files@[i as int]@);
        if path_is_inside_folder(files[i].display_path(), folder_path) && files[i].stage
            != FileStage::Staged {
            return false;
        }
        i = i + 1;
    }
    true
}

fn holds_text(list: &Vec<String>, text: &str) -> (holds: bool)
    ensures
        holds == texts(list@).contains(text@),
{
    let mut i: usize = 0;
    while i < list.len()
        invariant
            i <= list@.len(),
            forall|j: int| 0 <= j < i ==> #[trigger] texts(list@)[j] != text@,
        decreases list@.len() - i,
    {
        assert(texts(list@)[i as int] == list@[i as int]@);
        if same(list[i].as_str(), text) {
            return true;
        }
        i = i + 1;
    }
    false
}

fn all_present(paths: &Vec<String>, present: &Vec<String>) -> (all: bool)
    ensures
        all == all_among(texts(paths@), texts(present@)),
{
    let mut i: usize = 0;
    while i < paths.len()
        invariant
            i <= paths@.len(),
            forall|j: int|
                0 <= j < i ==> texts(present@).contains(#[trigger] texts(paths@)[j]),
        decreases paths@.len() - i,
    {
        assert(texts(paths@)[i as int] == paths@[i as int]@);
        if !holds_text(present, paths[i].as_str()) {
            return false;
        }
        i = i + 1;
    }
    true
}

impl App {
    fn marked_folder(&self) -> (folder: Option<String>)
        ensures
            crate::search::text_option(folder) == self@.marked_folder(),
    {
        if self.focus != FocusPane::Sidebar || !self.files_panel_visible {
            return None;
        }
        match &self.sidebar_cursor_target {
            Some(SidebarRowTarget::Folder(path)) => Some(path.clone()),
            _ => None,
        }
    }

    fn request_mutation(&mut self, mutation: WorktreeMutation)
        ensures
            final(self)@ == old(self)@.mutating(mutation@),
            old(self).wf() ==> final(self).wf(),
    {
        if !self.source.has_worktree_mutations() {
            return;
        }
        let ghost before = self.effects@;
        let effect = AppEffect::ApplyMutation(mutation);
        self.effects.push(effect);
        assert(effect_views(self.effects@) =~= effect_views(before).push(effect@));
    }

    pub fn toggle_selected_staging(&mut self)
        ensures
            final(self)@ == old(self)@.staging_toggled(),
            old(self).wf() ==> final(self).wf(),
    {
        if !self.can_mutate() {
            return;
        }
        if let Some(folder) = self.marked_folder() {
            let paths = collect_paths_below(&self.changeset.files, folder.as_str(), false);
            assert(texts(paths@).len() == paths@.len());
            if paths.len() > 0 {
                let mutation = if folder_is_staged(&self.changeset.files, folder.as_str()) {
                    WorktreeMutation::UnstageFiles { paths }
                } else {
                    WorktreeMutation::StageFiles { paths }
                };
                self.request_mutation(mutation);
                return;
            }
            self.live_error = Some(cat2("no changed files in folder ", folder.as_str()));
        }
        self.toggle_focused_staging();
    }

    fn toggle_focused_staging(&mut self)
        ensures
            final(self)@ == old(self)@.focused_staging(),
            old(self).wf() ==> final(self).wf(),
    {
        let mutation = match self.focused_review_target().staging() {
            Ok(Some(FocusedMutationTarget::File(target))) => WorktreeMutation::ToggleFileStaging {
                path: target.file.display_path().to_owned(),
            },
            Ok(Some(FocusedMutationTarget::Hunk(target))) => WorktreeMutation::ToggleHunkStaging {
                file: target.file.clone(),
                hunk_index: target.hunk_index,
            },
            Ok(None) => {
                return;
            },
            Err(error) => {
                self.live_error = Some(error.message().to_owned());
                return;
            },
        };
        self.request_mutation(mutation);
    }

    pub fn request_selected_discard(&mut self)
        ensures
            final(self)@ == old(self)@.discard_requested(),
            old(self).wf() ==> final(self).wf(),
    {
        if !self.can_mutate() {
            return;
        }
        if let Some(path) = self.marked_folder() {
            let file_paths = collect_paths_below(&self.changeset.files, path.as_str(), true);
            assert(texts(file_paths@).len() == file_paths@.len());
            if file_paths.len() > 0 {
                self.confirm_discard(DiscardTarget::Folder { path, file_paths });
                return;
            }
            self.live_error = Some(
                cat2("no unstaged worktree changes in folder ", path.as_str()),
            );
        }
        self.request_focused_discard();
    }

    fn confirm_discard(&mut self, target: DiscardTarget)
        ensures
            final(self)@ == old(self)@.confirming(target@),
            old(self).wf() ==> final(self).wf(),
    {
        self.live_error = None;
        self.overlay = Some(Overlay::Discard(DiscardConfirmation { target }));
    }

    fn request_focused_discard(&mut self)
        ensures
            final(self)@ == old(self)@.focused_discard(),
            old(self).wf() ==> final(self).wf(),
    {
        let target = match self.focused_review_target().discard() {
            Ok(Some(FocusedMutationTarget::File(target))) => DiscardTarget::File {
                file_index: target.file_index,
                path: target.file.display_path().to_owned(),
            },
            Ok(Some(FocusedMutationTarget::Hunk(target))) => DiscardTarget::Hunk {
                file_index: target.file_index,
                hunk_index: target.hunk_index,
                path: target.file.display_path().to_owned(),
            },
            Ok(None) => {
                return;
            },
            Err(error) => {
                self.live_error = Some(error.message().to_owned());
                return;
            },
        };
        self.confirm_discard(target);
    }

    pub fn execute_pending_discard(&mut self)
        ensures
            final(self)@ == old(self)@.discard_confirmed(),
            old(self).wf() ==> final(self).wf(),
    {
        let mut overlay: Option<Overlay> = None;
        core::mem::swap(&mut overlay, &mut self.overlay);
        let target = match overlay {
            Some(Overlay::Discard(confirmation)) => confirmation.target,
            _ => {
                return;
            },
        };
        let mutation = match target {
            DiscardTarget::File { file_index, path } => {
                if self.confirmed_file(file_index, path.as_str()).is_none() {
                    return;
                }
                WorktreeMutation::DiscardFile { path }
            },
            DiscardTarget::Folder { path, file_paths } => {
                if !self.confirmed_folder_paths(path.as_str(), &file_paths) {
                    return;
                }
                WorktreeMutation::DiscardFiles { paths: file_paths }
            },
            DiscardTarget::Hunk { file_index, hunk_index, path } => {
                match self.confirmed_file(file_index, path.as_str()) {
                    Some(file) => WorktreeMutation::DiscardHunk { file, hunk_index },
                    None => {
                        return;
                    },
                }
            },
        };
        self.request_mutation(mutation);
    }

    /// The file that a discard was confirmed for, where it is still there.
    fn confirmed_file(&mut self, file_index: usize, path: &str) -> (file: Option<DiffFile>)
        ensures
            match old(self)@.file_changed(file_index as int, path@) {
                Some(message) => file is None && final(self)@ == old(self)@.failed(message),
                None => file is Some && file->0@ == old(self)@.files()[file_index as int]
                    && final(self)@ == old(self)@,
            },
            old(self).wf() ==> final(self).wf(),
    {
        let message = match file_at(&self.changeset, file_index) {
            Some(file) => {
                if same(file.display_path(), path) {
                    return Some(file.clone());
                }
                "discard failed: selected file changed before confirmation"
            },
            None => "discard failed: selected file no longer exists",
        };
        self.live_error = Some(message.to_owned());
        None
    }

    fn confirmed_folder_paths(&mut self, path: &str, file_paths: &Vec<String>) -> (confirmed: bool)
        ensures
            match old(self)@.folder_changed(path@, texts(file_paths@)) {
                Some(message) => !confirmed && final(self)@ == old(self)@.failed(message),
                None => confirmed && final(self)@ == old(self)@,
            },
            old(self).wf() ==> final(self).wf(),
    {
        assert(texts(file_paths@).len() == file_paths@.len());
        if file_paths.len() == 0 {
            self.live_error = Some("discard failed: selected folder has no files".to_owned());
            return false;
        }
        let current_paths = collect_paths_below(&self.changeset.files, path, false);
        if !all_present(file_paths, &current_paths) {
            self.live_error = Some(
                "discard failed: selected folder changed before confirmation".to_owned(),
            );
            return false;
        }
        true
    }
}

/// A pull request is only read: neither staging nor discarding asks for anything, and a
/// confirmation does not either.
pub proof fn pull_request_is_read_only(app: AppView)
    requires
        app.source is PullRequest,
    ensures
        app.staging_toggled() == app,
        app.discard_requested() == app,
        app.discard_confirmed().effects == app.effects,
{
}

/// Nothing is discarded without a confirmation: asking to discard queues no change.
pub proof fn discard_waits_for_confirmation(app: AppView)
    ensures
        app.discard_requested().effects == app.effects,
{
}

/// A confirmed discard is about what the confirmation was about: it never touches a
/// file that has taken the place of the one confirmed.
pub proof fn discard_is_what_was_confirmed(app: AppView, mutation: MutationView)
    requires
        app.discard_confirmed().effects == app.effects.push(
            EffectView::ApplyMutation(mutation),
        ),
    ensures
        app.overlay is Some,
        match app.overlay->0 {
            OverlayView::Discard(DiscardView::File { file_index, path }) => mutation
                == (MutationView::DiscardFile { path }) && app.files()[file_index].shown_path()
                == path,
            OverlayView::Discard(DiscardView::Folder { path, file_paths }) => mutation
                == (MutationView::DiscardFiles { paths: file_paths }) && all_among(
                file_paths,
                folder_paths(app.files(), path),
            ),
            OverlayView::Discard(DiscardView::Hunk { file_index, hunk_index, path }) => mutation
                == (MutationView::DiscardHunk { file: app.files()[file_index], hunk_index })
                && app.files()[file_index].shown_path() == path,
            _ => false,
        },
{
    assert(app.effects.push(EffectView::ApplyMutation(mutation)).last()
        == EffectView::ApplyMutation(mutation));
    assert(app.effects.push(EffectView::ApplyMutation(mutation)).len() == app.effects.len() + 1);
}

} // verus!
