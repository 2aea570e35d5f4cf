//! The modal overlays over the diff view.

use vstd::prelude::*;

use crate::ask_ai::{AskAiContext, AskAiResult, ContextView, ResultView};
use crate::custom_command::{
    BindingView, CommandResultView, CustomCommandBinding, CustomCommandResult,
};
use crate::scroll_text::{least, ScrollText, ScrollView};
use crate::text::{cat3, cat5, decimal, decimal_of, texts};

verus! {

#[derive(Debug)]
pub struct CommandOutputState {
    pub result: CustomCommandResult,
    pub scroll: ScrollText,
}

#[derive(Debug)]
pub struct AskAiPromptState {
    pub context: AskAiContext,
    pub input: String,
}

#[derive(Debug)]
pub struct AskAiOutputState {
    pub result: AskAiResult,
    pub scroll: ScrollText,
}

#[derive(Debug)]
pub struct DiscardConfirmation {
    pub target: DiscardTarget,
}

#[derive(Debug)]
pub enum DiscardTarget {
    File { file_index: usize, path: String },
    Folder { path: String, file_paths: Vec<String> },
    Hunk { file_index: usize, hunk_index: usize, path: String },
}

/// What a [`DiscardTarget`] holds.
pub enum DiscardView {
    File { file_index: int, path: Seq<char> },
    Folder { path: Seq<char>, file_paths: Seq<Seq<char>> },
    Hunk { file_index: int, hunk_index: int, path: Seq<char> },
}

impl View for DiscardTarget {
    type V = DiscardView;

    open spec fn view(&self) -> DiscardView {
        match self {
            DiscardTarget::File { file_index, path } => DiscardView::File {
                file_index: *file_index as int,
                path: path@,
            },
            DiscardTarget::Folder { path, file_paths } => DiscardView::Folder {
                path: path@,
                file_paths: texts(file_paths@),
            },
            DiscardTarget::Hunk { file_index, hunk_index, path } => DiscardView::Hunk {
                file_index: *file_index as int,
                hunk_index: *hunk_index as int,
                path: path@,
            },
        }
    }
}

impl DiscardView {
    /// The question before something is discarded.
    pub open spec fn question(self) -> Seq<char> {
        match self {
            DiscardView::File { path, .. } => "Discard worktree changes in "@ + path + "?"@,
            DiscardView::Folder { path, file_paths } => "Discard worktree changes in "@ + path
                + "/ ("@ + decimal(file_paths.len()) + if file_paths.len() == 1 {
                " file)?"@
            } else {
                " files)?"@
            },
            DiscardView::Hunk { hunk_index, path, .. } => "Discard hunk "@ + decimal(
                least(hunk_index + 1, u64::MAX as int) as nat,
            ) + " in "@ + path + "?"@,
        }
    }
}

impl DiscardConfirmation {
    pub fn prompt(&self) -> (prompt: String)
        ensures
            prompt@ == self.target@.question(),
    {
        match &self.target {
            DiscardTarget::File { path, .. } => cat3(
                "Discard worktree changes in ",
                path.as_str(),
                "?",
            ),
            DiscardTarget::Folder { path, file_paths } => {
                let count = decimal_of(file_paths.len() as u64);
                let noun = if file_paths.len() == 1 { " file)?" } else { " files)?" };
                cat5("Discard worktree changes in ", path.as_str(), "/ (", count.as_str(), noun)
            },
            DiscardTarget::Hunk { hunk_index, path, .. } => {
                let number = decimal_of((*hunk_index as u64).saturating_add(1));
                cat5("Discard hunk ", number.as_str(), " in ", path.as_str(), "?")
            },
        }
    }
}

/// The single modal overlay active over the diff view, if any.
///
/// At most one overlay can be active at a time. The search prompt is no overlay: it
/// captures keys only and leaves mouse handling as it is in the diff view.
#[derive(Debug)]
pub enum Overlay {
    /// Keymap help.
    Help { scroll: ScrollText },
    /// Pending discard that awaits confirmation.
    Discard(DiscardConfirmation),
    /// A custom command is running; only keys that cancel it are heard.
    CommandRunning { binding: CustomCommandBinding, spinner_frame: usize, cancelling: bool },
    /// Completed custom command output shown in the diff pane.
    CommandOutput(CommandOutputState),
    /// Free-form Ask AI prompt.
    AskAiPrompt(AskAiPromptState),
    /// Ask AI request is running in the background.
    AskAiRunning { question: String, spinner_frame: usize, cancelling: bool },
    /// Completed Ask AI answer shown in the diff pane.
    AskAiOutput(AskAiOutputState),
}

/// What an [`Overlay`] holds.
pub enum OverlayView {
    Help { scroll: ScrollView },
    Discard(DiscardView),
    CommandRunning { binding: BindingView, spinner_frame: usize, cancelling: bool },
    CommandOutput { result: CommandResultView, scroll: ScrollView },
    AskAiPrompt { context: ContextView, input: Seq<char> },
    AskAiRunning { question: Seq<char>, spinner_frame: usize, cancelling: bool },
    AskAiOutput { result: ResultView, scroll: ScrollView },
}

impl View for Overlay {
    type V = OverlayView;

    open spec fn view(&self) -> OverlayView {
        match self {
            Overlay::Help { scroll } => OverlayView::Help { scroll: scroll@ },
            Overlay::Discard(confirmation) => OverlayView::Discard(confirmation.target@),
            Overlay::CommandRunning { binding, spinner_frame, cancelling } =>
                OverlayView::CommandRunning {
                binding: binding@,
                spinner_frame: *spinner_frame,
                cancelling: *cancelling,
            },
            Overlay::CommandOutput(output) => OverlayView::CommandOutput {
                result: output.result@,
                scroll: output.scroll@,
            },
            Overlay::AskAiPrompt(prompt) => OverlayView::AskAiPrompt {
                context: prompt.context@,
                input: prompt.input@,
            },
            Overlay::AskAiRunning { question, spinner_frame, cancelling } =>
                OverlayView::AskAiRunning {
                question: question@,
                spinner_frame: *spinner_frame,
                cancelling: *cancelling,
            },
            Overlay::AskAiOutput(output) => OverlayView::AskAiOutput {
                result: output.result@,
                scroll: output.scroll@,
            },
        }
    }
}

pub open spec fn overlay_view(overlay: Option<Overlay>) -> Option<OverlayView> {
    match overlay {
        Some(inner) => Some(inner@),
        None => None,
    }
}

impl OverlayView {
    /// Scrollable text of the overlay, moved.
    pub open spec fn with_scroll(self, scroll: ScrollView) -> OverlayView {
        match self {
            OverlayView::Help { .. } => OverlayView::Help { scroll },
            OverlayView::CommandOutput { result, .. } => OverlayView::CommandOutput {
                result,
                scroll,
            },
            OverlayView::AskAiOutput { result, .. } => OverlayView::AskAiOutput { result, scroll },
            _ => self,
        }
    }

    pub open spec fn scroll(self) -> Option<ScrollView> {
        match self {
            OverlayView::Help { scroll } => Some(scroll),
            OverlayView::CommandOutput { scroll, .. } => Some(scroll),
            OverlayView::AskAiOutput { scroll, .. } => Some(scroll),
            _ => None,
        }
    }
}

} // verus!
