//! What an action on the focused pane is about.

use vstd::prelude::*;

use crate::app::FocusPane;
use crate::diff_render::{int_option, str_option};
use crate::model::{file_views, DiffFile, FileView};
use crate::search::text_option;

verus! {

#[derive(Debug, Clone, Copy)]
pub struct FocusedReviewTargetError {
    message: &'static str,
}

impl FocusedReviewTargetError {
    pub closed spec fn text(self) -> Seq<char> {
        self.message@
    }

    fn new(message: &'static str) -> (error: Self)
        ensures
            error.text() == message@,
    {
        FocusedReviewTargetError { message }
    }

    pub fn message(self) -> (message: &'static str)
        ensures
            message@ == self.text(),
    {
        self.message
    }
}

#[derive(Debug, Clone, Copy)]
pub struct SelectedFile<'a> {
    pub file_index: usize,
    pub file: &'a DiffFile,
}

#[derive(Debug, Clone, Copy)]
pub struct SelectedHunk<'a> {
    pub file_index: usize,
    pub file: &'a DiffFile,
    pub hunk_index: usize,
}

#[derive(Debug)]
pub struct AskAiFocusedTarget<'a> {
    pub file: &'a DiffFile,
    pub hunk_index: Option<usize>,
    pub selected_text: Option<String>,
}

#[derive(Debug, Clone, Copy)]
pub enum FocusedCopyTarget<'a> {
    FilePath(SelectedFile<'a>),
    HunkDiff(SelectedHunk<'a>),
}

#[derive(Debug, Clone, Copy)]
pub enum FocusedMutationTarget<'a> {
    File(SelectedFile<'a>),
    Hunk(SelectedHunk<'a>),
}

#[derive(Debug, Clone, Copy)]
pub struct FocusedReviewTarget<'a> {
    pub files: &'a Vec<DiffFile>,
    pub selected_file_index: usize,
    pub selected_hunk_index: Option<usize>,
    pub focus: FocusPane,
    pub files_panel_visible: bool,
}

/// What a [`FocusedReviewTarget`] holds.
pub struct FocusView {
    pub files: Seq<FileView>,
    pub selected: int,
    pub hunk: Option<int>,
    pub focus: FocusPane,
    pub files_visible: bool,
}

/// A file, or a hunk of a file, that an action is about.
pub enum FocusedView {
    File { index: int, file: FileView },
    Hunk { index: int, file: FileView, hunk: int },
}

impl<'a> View for FocusedReviewTarget<'a> {
    type V = FocusView;

    open spec fn view(&self) -> FocusView {
        FocusView {
            files: file_views(self.files@),
            selected: self.selected_file_index as int,
            hunk: int_option(self.selected_hunk_index),
            focus: self.focus,
            files_visible: self.files_panel_visible,
        }
    }
}

impl<'a> View for SelectedFile<'a> {
    type V = FocusedView;

    open spec fn view(&self) -> FocusedView {
        FocusedView::File { index: self.file_index as int, file: self.file@ }
    }
}

impl<'a> View for SelectedHunk<'a> {
    type V = FocusedView;

    open spec fn view(&self) -> FocusedView {
        FocusedView::Hunk {
            index: self.file_index as int,
            file: self.file@,
            hunk: self.hunk_index as int,
        }
    }
}

impl<'a> View for FocusedCopyTarget<'a> {
    type V = FocusedView;

    open spec fn view(&self) -> FocusedView {
        match self {
            FocusedCopyTarget::FilePath(target) => target@,
            FocusedCopyTarget::HunkDiff(target) => target@,
        }
    }
}

impl<'a> View for FocusedMutationTarget<'a> {
    type V = FocusedView;

    open spec fn view(&self) -> FocusedView {
        match self {
            FocusedMutationTarget::File(target) => target@,
            FocusedMutationTarget::Hunk(target) => target@,
        }
    }
}

impl FocusView {
    /// The selected file.
    pub open spec fn file(self) -> Option<FocusedView> {
        if 0 <= self.selected < self.files.len() {
            Some(FocusedView::File { index: self.selected, file: self.files[self.selected] })
        } else {
            None
        }
    }

    /// The selected hunk of the selected file.
    pub open spec fn file_hunk(self) -> Option<FocusedView> {
        if 0 <= self.selected < self.files.len() && self.hunk is Some && self.hunk->0
            < self.files[self.selected].hunks.len() {
            Some(
                FocusedView::Hunk {
                    index: self.selected,
                    file: self.files[self.selected],
                    hunk: self.hunk->0,
                },
            )
        } else {
            None
        }
    }

    /// Whether actions are about files rather than hunks.
    pub open spec fn on_files(self) -> bool {
        self.focus == FocusPane::Sidebar && self.files_visible
    }

    pub open spec fn stage_hint(self) -> Option<Seq<char>> {
        match self.focus {
            FocusPane::Sidebar => if self.files_visible { Some("stage file"@) } else { None },
            FocusPane::Diff => Some("stage hunk"@),
        }
    }

    /// What is copied: the path of the file or the diff of the hunk.
    pub open spec fn copy(self) -> Result<FocusedView, Seq<char>> {
        if self.on_files() {
            demanded(self.file(), "no selected file path to copy"@)
        } else if self.focus == FocusPane::Diff {
            demanded(self.file_hunk(), "no selected hunk to copy"@)
        } else {
            Err("no visible file path to copy"@)
        }
    }

    /// What is staged or unstaged.
    pub open spec fn staging(self) -> Result<Option<FocusedView>, Seq<char>> {
        if self.on_files() {
            Ok(self.file())
        } else if self.focus == FocusPane::Diff {
            match self.file_hunk() {
                Some(hunk) => Ok(Some(hunk)),
                None => Err("no selected hunk to stage"@),
            }
        } else {
            Ok(None)
        }
    }

    /// What is discarded.
    pub open spec fn discard(self) -> Result<Option<FocusedView>, Seq<char>> {
        if self.on_files() {
            match self.file() {
                Some(file) => Ok(Some(file)),
                None => Err("no selected file to discard"@),
            }
        } else if self.focus == FocusPane::Diff {
            match self.file_hunk() {
                Some(hunk) => Ok(Some(hunk)),
                None => Err("no selected hunk to discard"@),
            }
        } else {
            Ok(None)
        }
    }
}

/// What there is, or what is said where there is nothing.
pub open spec fn demanded(found: Option<FocusedView>, message: Seq<char>) -> Result<
    FocusedView,
    Seq<char>,
> {
    match found {
        Some(target) => Ok(target),
        None => Err(message),
    }
}

impl<'a> FocusedReviewTarget<'a> {
    pub fn new(
        files: &'a Vec<DiffFile>,
        selected_file_index: usize,
        selected_hunk_index: Option<usize>,
        focus: FocusPane,
        files_panel_visible: bool,
    ) -> (target: Self)
        ensures
            target@ == (FocusView {
                files: file_views(files@),
                selected: selected_file_index as int,
                hunk: int_option(selected_hunk_index),
                focus,
                files_visible: files_panel_visible,
            }),
    {
        FocusedReviewTarget {
            files,
            selected_file_index,
            selected_hunk_index,
            focus,
            files_panel_visible,
        }
    }

    pub fn stage_keybind_hint(self) -> (hint: Option<&'static str>)
        ensures
            str_option(hint) == self@.stage_hint(),
    {
        match self.focus {
            FocusPane::Sidebar => if self.files_panel_visible {
                Some("stage file")
            } else {
                None
            },
            FocusPane::Diff => Some("stage hunk"),
        }
    }

    pub fn ask_ai(
        self,
        selected_text: Option<String>,
        missing_file_message: &'static str,
    ) -> (target: Result<AskAiFocusedTarget<'a>, FocusedReviewTargetError>)
        ensures
            match target {
                Ok(target) => {
                    &&& self@.selected < self@.files.len()
                    &&& target.file@ == self@.files[self@.selected]
                    &&& int_option(target.hunk_index) == if self@.on_files() {
                        None
                    } else {
                        self@.hunk
                    }
                    &&& text_option(target.selected_text) == if self@.on_files() {
                        None
                    } else {
                        text_option(selected_text)
                    }
                },
                Err(error) => self@.selected >= self@.files.len() && error.text()
                    == missing_file_message@,
            },
    {
        match self.require_selected_file(missing_file_message) {
            Ok(file) => {
                let file_context = matches!(self.focus, FocusPane::Sidebar)
                    && self.files_panel_visible;
                Ok(
                    AskAiFocusedTarget {
                        file: file.file,
                        hunk_index: if file_context { None } else { self.selected_hunk_index },
                        selected_text: if file_context { None } else { selected_text },
                    },
                )
            },
            Err(error) => Err(error),
        }
    }

    pub fn copy(self) -> (target: Result<FocusedCopyTarget<'a>, FocusedReviewTargetError>)
        ensures
            match target {
                Ok(target) => self@.copy() == Ok::<FocusedView, Seq<char>>(target@),
                Err(error) => self@.copy() == Err::<FocusedView, Seq<char>>(error.text()),
            },
    {
        match self.focus {
            FocusPane::Sidebar => if self.files_panel_visible {
                match self.require_selected_file("no selected file path to copy") {
                    Ok(file) => Ok(FocusedCopyTarget::FilePath(file)),
                    Err(error) => Err(error),
                }
            } else {
                Err(FocusedReviewTargetError::new("no visible file path to copy"))
            },
            FocusPane::Diff => match self.require_selected_hunk("no selected hunk to copy") {
                Ok(hunk) => Ok(FocusedCopyTarget::HunkDiff(hunk)),
                Err(error) => Err(error),
            },
        }
    }

    pub fn file_diff_copy(self) -> (target: Result<SelectedFile<'a>, FocusedReviewTargetError>)
        ensures
            match target {
                Ok(target) => self@.file() == Some(target@),
                Err(error) => self@.file() is None && error.text() == "no selected file to copy"@,
            },
    {
        self.require_selected_file("no selected file to copy")
    }

    pub fn staging(self) -> (target: Result<
        Option<FocusedMutationTarget<'a>>,
        FocusedReviewTargetError,
    >)
        ensures
            match target {
                Ok(Some(target)) => self@.staging() == Ok::<Option<FocusedView>, Seq<char>>(
                    Some(target@),
                ),
                Ok(None) => self@.staging() == Ok::<Option<FocusedView>, Seq<char>>(None),
                Err(error) => self@.staging() == Err::<Option<FocusedView>, Seq<char>>(
                    error.text(),
                ),
            },
    {
        match self.focus {
            FocusPane::Sidebar => if self.files_panel_visible {
                match self.selected_file() {
                    Some(file) => Ok(Some(FocusedMutationTarget::File(file))),
                    None => Ok(None),
                }
            } else {
                Ok(None)
            },
            FocusPane::Diff => match self.require_selected_hunk("no selected hunk to stage") {
                Ok(hunk) => Ok(Some(FocusedMutationTarget::Hunk(hunk))),
                Err(error) => Err(error),
            },
        }
    }

    pub fn discard(self) -> (target: Result<
        Option<FocusedMutationTarget<'a>>,
        FocusedReviewTargetError,
    >)
        ensures
            match target {
                Ok(Some(target)) => self@.discard() == Ok::<Option<FocusedView>, Seq<char>>(
                    Some(target@),
                ),
                Ok(None) => self@.discard() == Ok::<Option<FocusedView>, Seq<char>>(None),
                Err(error) => self@.discard() == Err::<Option<FocusedView>, Seq<char>>(
                    error.text(),
                ),
            },
    {
        match self.focus {
            FocusPane::Sidebar => if self.files_panel_visible {
                match self.require_selected_file("no selected file to discard") {
                    Ok(file) => Ok(Some(FocusedMutationTarget::File(file))),
                    Err(error) => Err(error),
                }
            } else {
                Ok(None)
            },
            FocusPane::Diff => match self.require_selected_hunk("no selected hunk to discard") {
                Ok(hunk) => Ok(Some(FocusedMutationTarget::Hunk(hunk))),
                Err(error) => Err(error),
            },
        }
    }

    pub fn editor(self) -> (target: Result<SelectedFile<'a>, FocusedReviewTargetError>)
        ensures
            match target {
                Ok(target) => self@.file() == Some(target@),
                Err(error) => self@.file() is None && error.text() == "no selected file to open"@,
            },
    {
        self.require_selected_file("no selected file to open")
    }

    fn selected_file(self) -> (target: Option<SelectedFile<'a>>)
        ensures
            match target {
                Some(target) => self@.file() == Some(target@),
                None => self@.file() is None,
            },
    {
        if self.selected_file_index < self.files.len() {
            let file = &self.files[self.selected_file_index];
            assert(self@.files[self@.selected] == file@);
            Some(SelectedFile { file_index: self.selected_file_index, file })
        } else {
            None
        }
    }

    fn require_selected_file(self, message: &'static str) -> (target: Result<
        SelectedFile<'a>,
        FocusedReviewTargetError,
    >)
        ensures
            match target {
                Ok(target) => self@.file() == Some(target@),
                Err(error) => self@.file() is None && error.text() == message@,
            },
    {
        match self.selected_file() {
            Some(file) => Ok(file),
            None => Err(FocusedReviewTargetError::new(message)),
        }
    }

    fn require_selected_hunk(self, message: &'static str) -> (target: Result<
        SelectedHunk<'a>,
        FocusedReviewTargetError,
    >)
        ensures
            match target {
                Ok(target) => self@.file_hunk() == Some(target@),
                Err(error) => self@.file_hunk() is None && error.text() == message@,
            },
    {
        let file = match self.selected_file() {
            Some(file) => file,
            None => {
                return Err(FocusedReviewTargetError::new(message));
            },
        };
        match self.selected_hunk_index {
            Some(hunk_index) => {
                if hunk_index < file.file.hunks.len() {
                    Ok(SelectedHunk { file_index: file.file_index, file: file.file, hunk_index })
                } else {
                    Err(FocusedReviewTargetError::new(message))
                }
            },
            None => Err(FocusedReviewTargetError::new(message)),
        }
    }
}

} // verus!
