//! Questions, copies, commands and editors.

use vstd::prelude::*;

use crate::app::effects::{
    clear_effects, queue_effect, without, AppEffect, ClipboardRequest, ClipboardView, EffectKind,
    EffectView,
};
use crate::app::focused_review_target::{FocusedCopyTarget, FocusedView};
use crate::app::overlay::{AskAiPromptState, Overlay, OverlayView};
use crate::app::{App, AppView, FocusPane};
use crate::ask_ai::{explain_code_question, AskAiContext, AskAiRequest, ContextView, RequestView};
use crate::custom_command::{BindingView, CustomCommandBinding};
use crate::input::KeyEvent;
use crate::patch;
use crate::text::{cat2, trim, trimmed};

verus! {

/// The first of some commands from one on that a key runs.
pub open spec fn command_pressed(commands: Seq<BindingView>, key: KeyEvent, from: int) -> Option<
    BindingView,
>
    decreases commands.len() - from,
{
    if from >= commands.len() {
        None
    } else if commands[from].key.pressed(key) {
        Some(commands[from])
    } else {
        command_pressed(commands, key, from + 1)
    }
}

pub open spec fn usize_option(value: Option<int>) -> Option<usize> {
    match value {
        Some(inner) => Some(inner as usize),
        None => None,
    }
}

impl AppView {
    /// The text that is selected on the screen.
    pub open spec fn selected_text(self) -> Option<Seq<char>> {
        match self.selection.selected {
            Some(range) => self.selection.range_text(range),
            None => None,
        }
    }

    /// What a question is about: the selected file from the files panel, else the
    /// selected hunk and text.
    pub open spec fn question_context(self) -> Option<ContextView> {
        match self.file() {
            Some(file) => Some(
                ContextView::of_file(
                    self.source.mode(),
                    self.changeset.title,
                    self.changeset.source_label,
                    file,
                    if self.focused().on_files() { None } else { usize_option(self.pane.hunk) },
                    if self.focused().on_files() { None } else { self.selected_text() },
                ),
            ),
            None => None,
        }
    }

    /// With a prompt for a question.
    pub open spec fn question_opened(self) -> AppView {
        match self.question_context() {
            Some(context) => AppView {
                focus: FocusPane::Diff,
                live_error: None,
                overlay: Some(OverlayView::AskAiPrompt { context, input: seq![] }),
                ..self
            },
            None => self.failed("no selected file to ask about"@),
        }
    }

    /// With the overlay closed and the question of its prompt asked. A prompt with a blank
    /// question stays open.
    pub open spec fn question_submitted(self) -> AppView {
        match self.overlay {
            Some(OverlayView::AskAiPrompt { context, input }) => if trimmed(input).len() == 0 {
                self
            } else {
                AppView { overlay: None, ..self }.queued(
                    EffectView::RunAskAi(RequestView { question: trimmed(input), context }),
                )
            },
            _ => AppView { overlay: None, ..self },
        }
    }

    /// With an explanation asked for.
    pub open spec fn explanation_asked(self) -> AppView {
        match self.question_context() {
            Some(context) => AppView { focus: FocusPane::Diff, live_error: None, ..self }.queued(
                EffectView::RunAskAi(RequestView { question: explain_code_question(), context }),
            ),
            None => self.failed("no selected file to explain"@),
        }
    }

    /// With a summary of the unpublished changes asked for.
    pub open spec fn summary_asked(self) -> AppView {
        AppView { focus: FocusPane::Diff, live_error: None, ..self }.queued(
            EffectView::RunUnpublishedSummary,
        )
    }

    /// With a text on its way to the clipboard.
    pub open spec fn copying(self, text: Seq<char>, success_message: Seq<char>) -> AppView {
        AppView { live_error: None, live_notice: None, ..self }.queued(
            EffectView::CopyToClipboard(ClipboardView { text, success_message }),
        )
    }

    /// With nothing to copy.
    pub open spec fn copy_failed(self, message: Seq<char>) -> AppView {
        AppView {
            effects: without(self.effects, EffectKind::CopyToClipboard),
            live_notice: None,
            live_error: Some(message),
            ..self
        }
    }

    /// With the path of the focused file or the diff of the focused hunk copied.
    pub open spec fn focus_copied(self) -> AppView {
        match self.focused().copy() {
            Ok(FocusedView::File { file, .. }) => self.copying(
                file.shown_path(),
                "copied selected file path"@,
            ),
            Ok(FocusedView::Hunk { file, hunk, .. }) => self.copying(
                patch::patch_header(file) + patch::hunk_patch(file.hunks[hunk]),
                "copied selected hunk diff"@,
            ),
            Err(message) => self.copy_failed(message),
        }
    }

    /// With the diff of the selected file copied.
    pub open spec fn file_diff_copied(self) -> AppView {
        match self.file() {
            Some(file) => if file.hunks.len() > 0 {
                self.copying(patch::whole_patch(file), "copied selected file diff"@)
            } else {
                self.copy_failed("no selected file diff to copy"@)
            },
            None => self.copy_failed("no selected file to copy"@),
        }
    }

    /// With the shown answer copied.
    pub open spec fn answer_copied(self) -> AppView {
        match self.overlay {
            Some(OverlayView::AskAiOutput { result, .. }) if trimmed(result.outcome.stdout).len()
                > 0 => self.copying(result.outcome.stdout, "copied Ask AI answer"@),
            _ => self.copy_failed("no Ask AI answer to copy"@),
        }
    }

    /// The custom command that a key runs.
    pub open spec fn command_for(self, key: KeyEvent) -> Option<BindingView> {
        command_pressed(self.commands, key, 0)
    }

    /// With a custom command asked for.
    pub open spec fn commanding(self, command: BindingView) -> AppView {
        AppView { live_error: None, ..self }.queued(EffectView::RunCustomCommand(command))
    }

    /// With the selected file to be opened in the editor near its first change.
    pub open spec fn editing(self) -> AppView {
        let cleared = AppView {
            effects: without(self.effects, EffectKind::OpenEditor),
            ..self
        };
        match self.file() {
            Some(file) => match self.source.edit_error(file) {
                Some(message) => cleared.failed("edit failed: "@ + message),
                None => AppView { live_error: None, ..cleared }.queued(
                    EffectView::OpenEditor { path: file.path, line: file.first_change() },
                ),
            },
            None => cleared.failed("no selected file to open"@),
        }
    }
}

impl App {
    fn focused_ask_ai_context(&self, missing_file_message: &'static str) -> (context: Result<
        AskAiContext,
        &'static str,
    >)
        ensures
            match context {
                Ok(context) => self@.question_context() == Some(context@),
                Err(message) => self@.question_context() is None && message@
                    == missing_file_message@,
            },
    {
        let selected_text = self.text_selection.selected_text();
        match self.focused_review_target().ask_ai(selected_text, missing_file_message) {
            Ok(target) => Ok(
                AskAiContext::focused(
                    self.source.ask_ai_review_mode(),
                    self.changeset.title.clone(),
                    self.changeset.source_label.clone(),
                    target.file,
                    target.hunk_index,
                    target.selected_text,
                ),
            ),
            Err(error) => Err(error.message()),
        }
    }

    pub fn open_ask_ai_prompt(&mut self)
        ensures
            final(self)@ == old(self)@.question_opened(),
            old(self).wf() ==> final(self).wf(),
    {
        match self.focused_ask_ai_context("no selected file to ask about") {
            Ok(context) => {
                self.focus = FocusPane::Diff;
                self.live_error = None;
                let input = String::new();
                assert(input@ =~= seq![]);
                self.overlay = Some(Overlay::AskAiPrompt(AskAiPromptState { context, input }));
            },
            Err(message) => {
                self.live_error = Some(message.to_owned());
            },
        }
    }

    pub fn submit_ask_ai_prompt(&mut self)
        ensures
            final(self)@ == old(self)@.question_submitted(),
            old(self).wf() ==> final(self).wf(),
    {
        let question = match &self.overlay {
            Some(Overlay::AskAiPrompt(prompt)) => trim(prompt.input.as_str()).to_owned(),
            _ => {
                self.overlay = None;
                return;
            },
        };
        if question.as_str().is_empty() {
            return;
        }
        let mut overlay: Option<Overlay> = None;
        core::mem::swap(&mut overlay, &mut self.overlay);
        if let Some(Overlay::AskAiPrompt(prompt)) = overlay {
            let request = AskAiRequest::new(question, prompt.context);
            queue_effect(&mut self.effects, AppEffect::RunAskAi(request));
        }
    }

    pub fn queue_explain_code_request(&mut self)
        ensures
            final(self)@ == old(self)@.explanation_asked(),
            old(self).wf() ==> final(self).wf(),
    {
        match self.focused_ask_ai_context("no selected file to explain") {
            Ok(context) => {
                self.focus = FocusPane::Diff;
                self.live_error = None;
                let request = AskAiRequest::explain_code(context);
                queue_effect(&mut self.effects, AppEffect::RunAskAi(request));
            },
            Err(message) => {
                self.live_error = Some(message.to_owned());
            },
        }
    }

    pub fn queue_unpublished_summary_request(&mut self)
        ensures
            final(self)@ == old(self)@.summary_asked(),
            old(self).wf() ==> final(self).wf(),
    {
        self.focus = FocusPane::Diff;
        self.live_error = None;
        queue_effect(&mut self.effects, AppEffect::RunUnpublishedSummary);
    }

    pub fn queue_focused_target_copy(&mut self)
        ensures
            final(self)@ == old(self)@.focus_copied(),
            old(self).wf() ==> final(self).wf(),
    {
        let copy = match self.focused_review_target().copy() {
            Ok(FocusedCopyTarget::FilePath(target)) => Ok(
                (target.file.display_path().to_owned(), "copied selected file path"),
            ),
            Ok(FocusedCopyTarget::HunkDiff(target)) => match patch::selected_hunk_patch(
                target.file,
                target.hunk_index,
            ) {
                Some(text) => Ok((text, "copied selected hunk diff")),
                None => Err("no selected hunk diff to copy"),
            },
            Err(error) => Err(error.message()),
        };
        match copy {
            Ok((text, success_message)) => self.queue_clipboard_text(text, success_message),
            Err(message) => self.set_copy_error(message),
        }
    }

    pub fn queue_selected_file_diff_copy(&mut self)
        ensures
            final(self)@ == old(self)@.file_diff_copied(),
            old(self).wf() ==> final(self).wf(),
    {
        let copy = match self.focused_review_target().file_diff_copy() {
            Ok(target) => match patch::file_patch(target.file) {
                Some(text) => Ok(text),
                None => Err("no selected file diff to copy"),
            },
            Err(error) => Err(error.message()),
        };
        match copy {
            Ok(text) => self.queue_clipboard_text(text, "copied selected file diff"),
            Err(message) => self.set_copy_error(message),
        }
    }

    pub fn queue_ask_ai_answer_copy(&mut self)
        ensures
            final(self)@ == old(self)@.answer_copied(),
            old(self).wf() ==> final(self).wf(),
    {
        let answer: Option<String> = match &self.overlay {
            Some(Overlay::AskAiOutput(output)) => {
                let answer = output.result.stdout();
                if trim(answer).is_empty() { None } else { Some(answer.to_owned()) }
            },
            _ => None,
        };
        match answer {
            Some(answer) => self.queue_clipboard_text(answer, "copied Ask AI answer"),
            None => self.set_copy_error("no Ask AI answer to copy"),
        }
    }

    fn queue_clipboard_text(&mut self, text: String, success_message: &'static str)
        ensures
            final(self)@ == old(self)@.copying(text@, success_message@),
            old(self).wf() ==> final(self).wf(),
    {
        self.live_error = None;
        self.live_notice = None;
        let request = ClipboardRequest::new(text, success_message);
        queue_effect(&mut self.effects, AppEffect::CopyToClipboard(request));
    }

    fn set_copy_error(&mut self, message: &'static str)
        ensures
            final(self)@ == old(self)@.copy_failed(message@),
            old(self).wf() ==> final(self).wf(),
    {
        clear_effects(&mut self.effects, EffectKind::CopyToClipboard);
        self.live_notice = None;
        self.live_error = Some(message.to_owned());
    }

    fn find_command(&self, key: KeyEvent) -> (command: Option<CustomCommandBinding>)
        ensures
            match command {
                Some(found) => self@.command_for(key) == Some(found@),
                None => self@.command_for(key) is None,
            },
    {
        let mut i: usize = 0;
        while i < self.custom_commands.len()
            invariant
                i <= self.custom_commands@.len(),
                self@.command_for(key) == command_pressed(self@.commands, key, i as int),
            decreases self.custom_commands@.len() - i,
        {
            assert(self@.commands[i as int] == self.custom_commands@[i as int]@);
            if self.custom_commands[i].key().matches(key) {
                return Some(self.custom_commands[i].clone());
            }
            i = i + 1;
        }
        None
    }

    /// Queues the custom command that a key runs, if it runs one.
    pub fn queue_custom_command_for_key(&mut self, key: KeyEvent) -> (found: bool)
        ensures
            found == (old(self)@.command_for(key) is Some),
            final(self)@ == (match old(self)@.command_for(key) {
                Some(command) => old(self)@.commanding(command),
                None => old(self)@,
            }),
            old(self).wf() ==> final(self).wf(),
    {
        match self.find_command(key) {
            Some(command) => {
                self.live_error = None;
                queue_effect(&mut self.effects, AppEffect::RunCustomCommand(command));
                true
            },
            None => false,
        }
    }

    pub fn queue_selected_file_editor_request(&mut self)
        ensures
            final(self)@ == old(self)@.editing(),
            old(self).wf() ==> final(self).wf(),
    {
        clear_effects(&mut self.effects, EffectKind::OpenEditor);
        let request = match self.focused_review_target().editor() {
            Ok(target) => self.source.editor_request(
                target.file,
                target.file.first_changed_line(),
            ),
            Err(error) => {
                self.live_error = Some(error.message().to_owned());
                return;
            },
        };
        match request {
            Ok(request) => {
                self.live_error = None;
                queue_effect(&mut self.effects, AppEffect::OpenEditor(request));
            },
            Err(message) => {
                self.live_error = Some(cat2("edit failed: ", message.as_str()));
            },
        }
    }
}

} // verus!
