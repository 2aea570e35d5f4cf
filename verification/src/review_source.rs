//! What can be done with worktree and pull-request diffs, and what is said where
//! there is nothing to show.

use vstd::prelude::*;
use vstd::string::*;

use crate::ask_ai::AskAiReviewMode;
use crate::editor::EditorRequest;
use crate::model::{Changeset, ChangesetView, DiffFile, FileStatus, FileView};
use crate::search::text_option;
use crate::text::{cat2, join_path, joined_path, pieces, same, split, texts};

verus! {

/// A diff with the source that it comes from.
#[derive(Debug, PartialEq, Eq)]
pub struct LoadedReview {
    pub source: ReviewSource,
    pub changeset: Changeset,
}

#[derive(Debug, PartialEq, Eq)]
pub enum ReviewSource {
    Worktree,
    PullRequest(PullRequestReviewSource),
}

#[derive(Debug, PartialEq, Eq)]
pub struct PullRequestReviewSource {
    pub old_ref: String,
    pub new_ref: String,
    pub title: String,
    pub source_label: String,
}

/// A change of the worktree or the index.
#[derive(Debug, PartialEq, Eq)]
pub enum WorktreeMutation {
    ToggleFileStaging { path: String },
    StageFiles { paths: Vec<String> },
    UnstageFiles { paths: Vec<String> },
    ToggleHunkStaging { file: DiffFile, hunk_index: usize },
    DiscardFile { path: String },
    DiscardFiles { paths: Vec<String> },
    DiscardHunk { file: DiffFile, hunk_index: usize },
}

/// What a [`WorktreeMutation`] holds.
pub enum MutationView {
    ToggleFileStaging { path: Seq<char> },
    StageFiles { paths: Seq<Seq<char>> },
    UnstageFiles { paths: Seq<Seq<char>> },
    ToggleHunkStaging { file: FileView, hunk_index: int },
    DiscardFile { path: Seq<char> },
    DiscardFiles { paths: Seq<Seq<char>> },
    DiscardHunk { file: FileView, hunk_index: int },
}

impl View for WorktreeMutation {
    type V = MutationView;

    open spec fn view(&self) -> MutationView {
        match self {
            WorktreeMutation::ToggleFileStaging { path } => MutationView::ToggleFileStaging {
                path: path@,
            },
            WorktreeMutation::StageFiles { paths } => MutationView::StageFiles {
                paths: texts(paths@),
            },
            WorktreeMutation::UnstageFiles { paths } => MutationView::UnstageFiles {
                paths: texts(paths@),
            },
            WorktreeMutation::ToggleHunkStaging { file, hunk_index } =>
                MutationView::ToggleHunkStaging { file: file@, hunk_index: *hunk_index as int },
            WorktreeMutation::DiscardFile { path } => MutationView::DiscardFile { path: path@ },
            WorktreeMutation::DiscardFiles { paths } => MutationView::DiscardFiles {
                paths: texts(paths@),
            },
            WorktreeMutation::DiscardHunk { file, hunk_index } => MutationView::DiscardHunk {
                file: file@,
                hunk_index: *hunk_index as int,
            },
        }
    }
}

impl ReviewSource {
    pub fn worktree() -> (source: Self)
        ensures
            source is Worktree,
    {
        ReviewSource::Worktree
    }

    /// The source of a pull request review, named as its first diff is.
    pub fn pull_request(old_ref: String, new_ref: String, changeset: &Changeset) -> (source: Self)
        ensures
            source is PullRequest,
            source->PullRequest_0.old_ref@ == old_ref@,
            source->PullRequest_0.new_ref@ == new_ref@,
            source->PullRequest_0.title@ == changeset@.title,
            source->PullRequest_0.source_label@ == changeset@.source_label,
    {
        ReviewSource::PullRequest(
            PullRequestReviewSource {
                old_ref,
                new_ref,
                title: changeset.title.clone(),
                source_label: changeset.source_label.clone(),
            },
        )
    }

    /// Whether the worktree can be changed. A pull request is only read.
    pub fn has_worktree_mutations(&self) -> (has: bool)
        ensures
            has == (self is Worktree),
    {
        matches!(self, ReviewSource::Worktree)
    }

    /// Whether the review follows changes of the worktree.
    pub fn is_live_watched(&self) -> (watched: bool)
        ensures
            watched == (self is Worktree),
    {
        matches!(self, ReviewSource::Worktree)
    }

    /// A freshly loaded diff under the names of the review.
    pub fn named(&self, changeset: Changeset) -> (named: Changeset)
        ensures
            named@ == (match self {
                ReviewSource::Worktree => changeset@,
                ReviewSource::PullRequest(source) => (ChangesetView {
                    title: source.title@,
                    source_label: source.source_label@,
                    ..changeset@
                }),
            }),
    {
        match self {
            ReviewSource::Worktree => changeset,
            ReviewSource::PullRequest(source) => Changeset {
                title: source.title.clone(),
                source_label: source.source_label.clone(),
                files: changeset.files,
            },
        }
    }

    /// Why a file of the review cannot be opened in an editor, if it cannot.
    pub open spec fn edit_error(self, file: FileView) -> Option<Seq<char>> {
        match self {
            ReviewSource::Worktree => editor_error(file),
            ReviewSource::PullRequest(_) => Some(
                "cannot open PR snapshot in editor; run `chunk diff` to edit worktree files"@,
            ),
        }
    }

    /// The file of the review to open in an editor, by its path in the worktree.
    pub fn editor_request(&self, file: &DiffFile, line: Option<u32>) -> (request: Result<
        EditorRequest,
        String,
    >)
        ensures
            match request {
                Ok(request) => self.edit_error(file@) is None && request@ == (file@.path, line),
                Err(message) => self.edit_error(file@) == Some(message@),
            },
    {
        match self {
            ReviewSource::Worktree => {
                let path = match editable_file_path(file) {
                    Ok(path) => path,
                    Err(message) => {
                        return Err(message);
                    },
                };
                match worktree_path_error(path) {
                    Some(message) => Err(message),
                    None => Ok(EditorRequest { path: path.to_owned(), line }),
                }
            },
            ReviewSource::PullRequest(_) => Err(
                "cannot open PR snapshot in editor; run `chunk diff` to edit worktree files".to_owned(),
            ),
        }
    }

    pub open spec fn sidebar_message(self) -> Seq<char> {
        match self {
            ReviewSource::Worktree => "No tracked changes"@,
            ReviewSource::PullRequest(_) => "No branch changes"@,
        }
    }

    pub open spec fn diff_message(self) -> Seq<char> {
        match self {
            ReviewSource::Worktree =>
                "No diff to review. Make a tracked change, then run chunk diff."@,
            ReviewSource::PullRequest(_) =>
                "No diff to review. Current branch has no changes against base."@,
        }
    }

    pub open spec fn mode(self) -> AskAiReviewMode {
        match self {
            ReviewSource::Worktree => AskAiReviewMode::Worktree,
            ReviewSource::PullRequest(_) => AskAiReviewMode::PullRequest,
        }
    }

    pub fn empty_sidebar_message(&self) -> (message: &'static str)
        ensures
            message@ == self.sidebar_message(),
    {
        match self {
            ReviewSource::Worktree => "No tracked changes",
            ReviewSource::PullRequest(_) => "No branch changes",
        }
    }

    pub fn no_diff_message(&self) -> (message: &'static str)
        ensures
            message@ == self.diff_message(),
    {
        match self {
            ReviewSource::Worktree =>
                "No diff to review. Make a tracked change, then run chunk diff.",
            ReviewSource::PullRequest(_) =>
                "No diff to review. Current branch has no changes against base.",
        }
    }

    pub fn ask_ai_review_mode(&self) -> (mode: AskAiReviewMode)
        ensures
            mode == self.mode(),
    {
        match self {
            ReviewSource::Worktree => AskAiReviewMode::Worktree,
            ReviewSource::PullRequest(_) => AskAiReviewMode::PullRequest,
        }
    }
}

impl WorktreeMutation {
    /// Whether the view stays where it is behind a change.
    pub open spec fn keeps_place(self) -> bool {
        match self {
            WorktreeMutation::ToggleFileStaging { .. } | WorktreeMutation::StageFiles { .. }
            | WorktreeMutation::UnstageFiles { .. } => false,
            WorktreeMutation::ToggleHunkStaging { .. } | WorktreeMutation::DiscardFile { .. }
            | WorktreeMutation::DiscardFiles { .. } | WorktreeMutation::DiscardHunk { .. } => true,
        }
    }

    /// Whether the view stays where it is when the diff is reloaded.
    pub fn preserve_scroll(&self) -> (preserve: bool)
        ensures
            preserve == (self is ToggleHunkStaging || self is DiscardFile || self is DiscardFiles
                || self is DiscardHunk),
            preserve == self.keeps_place(),
    {
        matches!(
            self,
            WorktreeMutation::ToggleHunkStaging { .. }
            | WorktreeMutation::DiscardFile { .. }
            | WorktreeMutation::DiscardFiles { .. }
            | WorktreeMutation::DiscardHunk { .. }
        )
    }

    pub open spec fn failure(self) -> Seq<char> {
        match self {
            WorktreeMutation::ToggleHunkStaging { .. } => "hunk staging failed"@,
            WorktreeMutation::ToggleFileStaging { .. } | WorktreeMutation::StageFiles { .. }
            | WorktreeMutation::UnstageFiles { .. } => "staging failed"@,
            WorktreeMutation::DiscardFile { .. } | WorktreeMutation::DiscardFiles { .. }
            | WorktreeMutation::DiscardHunk { .. } => "discard failed"@,
        }
    }

    /// What is said when the change fails.
    pub fn failure_context(&self) -> (context: &'static str)
        ensures
            context@ == self.failure(),
    {
        match self {
            WorktreeMutation::ToggleHunkStaging { .. } => "hunk staging failed",
            WorktreeMutation::ToggleFileStaging { .. } | WorktreeMutation::StageFiles { .. }
            | WorktreeMutation::UnstageFiles { .. } => "staging failed",
            WorktreeMutation::DiscardFile { .. } | WorktreeMutation::DiscardFiles { .. }
            | WorktreeMutation::DiscardHunk { .. } => "discard failed",
        }
    }
}

/// Why a file has no path to edit, if it has none.
pub open spec fn not_editable(file: FileView) -> Option<Seq<char>> {
    if file.status == FileStatus::Deleted {
        Some("cannot open deleted file in editor: "@ + file.shown_path())
    } else if file.path.len() == 0 {
        Some("selected file has no worktree path to open"@)
    } else {
        None
    }
}

pub fn editable_file_path(file: &DiffFile) -> (path: Result<&str, String>)
    ensures
        match path {
            Ok(found) => not_editable(file@) is None && found@ == file@.path,
            Err(message) => not_editable(file@) == Some(message@),
        },
{
    if file.status == FileStatus::Deleted {
        return Err(cat2("cannot open deleted file in editor: ", file.display_path()));
    }
    if file.path.as_str().is_empty() {
        return Err("selected file has no worktree path to open".to_owned());
    }
    Ok(file.path.as_str())
}

/// Whether a path leads out of the directory that it is relative to: it starts at
/// the root or goes up anywhere.
pub open spec fn leaves_directory(path: Seq<char>) -> bool {
    (path.len() > 0 && path[0] == '/') || pieces(path, '/').contains(".."@)
}

/// Why a file cannot be opened in an editor, if it cannot.
pub open spec fn editor_error(file: FileView) -> Option<Seq<char>> {
    if let Some(message) = not_editable(file) {
        Some(message)
    } else {
        outside_worktree(file.path)
    }
}

/// Why a path is not one of the worktree, if it is not.
pub open spec fn outside_worktree(path: Seq<char>) -> Option<Seq<char>> {
    if leaves_directory(path) {
        Some("cannot open path outside worktree: "@ + path)
    } else {
        None
    }
}

fn worktree_path_error(path: &str) -> (error: Option<String>)
    ensures
        text_option(error) == outside_worktree(path@),
{
    let absolute = !path.is_empty() && path.get_char(0) == '/';
    let parts = split(path, '/');
    let ghost all = texts(parts@);
    let mut goes_up = false;
    let mut i: usize = 0;
    while i < parts.len()
        invariant
            i <= parts@.len(),
            all == texts(parts@),
            goes_up ==> all.contains(".."@),
            !goes_up ==> forall|j: int| 0 <= j < i ==> #[trigger] all[j] != ".."@,
        decreases parts@.len() - i,
    {
        assert(all[i as int] == parts@[i as int]@);
        if same(parts[i].as_str(), "..") {
            goes_up = true;
        }
        i = i + 1;
    }
    if absolute || goes_up {
        return Some(cat2("cannot open path outside worktree: ", path));
    }
    None
}

/// The place of a file of the worktree.
pub fn worktree_file_path(root: &str, path: &str) -> (place: Result<String, String>)
    ensures
        match place {
            Ok(found) => outside_worktree(path@) is None && found@ == joined_path(root@, path@),
            Err(message) => outside_worktree(path@) == Some(message@),
        },
{
    match worktree_path_error(path) {
        Some(message) => Err(message),
        None => Ok(join_path(root, path)),
    }
}

/// An opened file lies in the worktree: the path is the root's and goes nowhere up.
pub proof fn opened_files_lie_in_the_worktree(file: FileView, part: Seq<char>)
    requires
        editor_error(file) is None,
        pieces(file.path, '/').contains(part),
    ensures
        part != ".."@,
        file.path.len() > 0,
        file.path[0] != '/',
{
}

} // verus!
