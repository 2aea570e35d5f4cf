//! What comes back from the outside world.

use vstd::prelude::*;

use crate::app::effects::{queue_effect, AppEffect, ClipboardRequest, EffectView};
use crate::app::overlay::OverlayView;
use crate::app::{App, AppView};
use crate::ask_ai::AskAiResult;
use crate::custom_command::CustomCommandResult;
use crate::model::{Changeset, ChangesetView};
use crate::scroll_text::ScrollView;
use crate::search::text_option;
use crate::text::{cat2, cat3};

verus! {

#[derive(Debug)]
pub enum EditorOutcome {
    Completed,
    Failed(String),
}

#[derive(Debug)]
pub struct ClipboardWriteResult {
    pub request: ClipboardRequest,
    pub error: Option<String>,
}

impl ClipboardWriteResult {
    pub fn completed(request: ClipboardRequest) -> (result: Self)
        ensures
            result.request == request,
            result.error is None,
    {
        ClipboardWriteResult { request, error: None }
    }

    pub fn failed(request: ClipboardRequest, error: String) -> (result: Self)
        ensures
            result.request == request,
            result.error == Some(error),
    {
        ClipboardWriteResult { request, error: Some(error) }
    }
}

#[derive(Debug)]
pub enum RuntimeEvent {
    CustomCommandFinished(CustomCommandResult),
    AskAiFinished(AskAiResult),
    ClipboardWriteFinished(ClipboardWriteResult),
    EditorFinished(EditorOutcome),
    LiveWatchFailed(String),
    /// The diff has changed.
    ReloadReviewSource { preserve_scroll: bool },
    /// The diff was loaded again.
    ReviewSourceReloaded { preserve_scroll: bool, result: Result<Changeset, String> },
    /// The worktree was changed, and the diff loaded again.
    MutationFinished {
        preserve_scroll: bool,
        failure_context: &'static str,
        result: Result<Changeset, String>,
    },
}

pub open spec fn loaded_view(result: Result<Changeset, String>) -> Result<
    ChangesetView,
    Seq<char>,
> {
    match result {
        Ok(changeset) => Ok(changeset@),
        Err(message) => Err(message@),
    }
}

impl AppView {
    /// With an error shown in the place of a notice.
    pub open spec fn alarmed(self, message: Seq<char>) -> AppView {
        AppView { live_notice: None, live_error: Some(message), ..self }
    }

    /// With a diff that was loaded again, or the error that came instead.
    pub open spec fn load_finished(
        self,
        result: Result<ChangesetView, Seq<char>>,
        preserve_scroll: bool,
        failure_context: Seq<char>,
    ) -> AppView {
        match result {
            Ok(changeset) => self.reloaded(changeset, preserve_scroll),
            Err(message) => self.failed(failure_context + ": "@ + message),
        }
    }

    /// With the diff to be loaded again.
    pub open spec fn reloading(self, preserve_scroll: bool) -> AppView {
        self.queued(EffectView::ReloadReviewSource { preserve_scroll })
    }

    /// After a write to the clipboard.
    pub open spec fn clipboard_written(self, notice: Seq<char>, error: Option<Seq<char>>) -> AppView {
        match error {
            Some(message) => self.alarmed("copy failed: "@ + message),
            None => AppView { live_error: None, live_notice: Some(notice), ..self },
        }
    }

    /// After an editor has closed.
    pub open spec fn editor_finished(self, error: Option<Seq<char>>) -> AppView {
        match error {
            Some(message) => self.alarmed("edit failed: "@ + message),
            None => AppView { live_error: None, ..self }.reloading(true),
        }
    }

    /// After an event.
    pub open spec fn after_event(self, event: RuntimeEvent) -> AppView {
        match event {
            RuntimeEvent::CustomCommandFinished(result) => self.showing(
                OverlayView::CommandOutput { result: result@, scroll: ScrollView::start() },
            ).reloading(true),
            RuntimeEvent::AskAiFinished(result) => self.showing(
                OverlayView::AskAiOutput { result: result@, scroll: ScrollView::start() },
            ),
            RuntimeEvent::ClipboardWriteFinished(result) => self.clipboard_written(
                result.request@.success_message,
                text_option(result.error),
            ),
            RuntimeEvent::EditorFinished(outcome) => self.editor_finished(
                match outcome {
                    EditorOutcome::Completed => None,
                    EditorOutcome::Failed(message) => Some(message@),
                },
            ),
            RuntimeEvent::LiveWatchFailed(message) => self.alarmed(
                "live watch failed: "@ + message@,
            ),
            RuntimeEvent::ReloadReviewSource { preserve_scroll } => self.reloading(
                preserve_scroll,
            ),
            RuntimeEvent::ReviewSourceReloaded { preserve_scroll, result } => self.load_finished(
                loaded_view(result),
                preserve_scroll,
                "reload failed"@,
            ),
            RuntimeEvent::MutationFinished { preserve_scroll, failure_context, result } =>
                self.load_finished(loaded_view(result), preserve_scroll, failure_context@),
        }
    }
}

impl App {
    pub fn handle_runtime_event(&mut self, event: RuntimeEvent)
        requires
            old(self).wf(),
        ensures
            final(self)@ == old(self)@.after_event(event),
            final(self).wf(),
    {
        match event {
            RuntimeEvent::CustomCommandFinished(result) => {
                self.set_custom_command_result(result);
                self.request_reload(true);
            },
            RuntimeEvent::AskAiFinished(result) => self.set_ask_ai_result(result),
            RuntimeEvent::ClipboardWriteFinished(result) => match result.error {
                Some(error) => self.set_live_error(cat2("copy failed: ", error.as_str())),
                None => self.set_live_notice(result.request.success_message),
            },
            RuntimeEvent::EditorFinished(EditorOutcome::Completed) => {
                self.live_error = None;
                self.request_reload(true);
            },
            RuntimeEvent::EditorFinished(EditorOutcome::Failed(error)) => self.set_live_error(
                cat2("edit failed: ", error.as_str()),
            ),
            RuntimeEvent::LiveWatchFailed(error) => self.set_live_error(
                cat2("live watch failed: ", error.as_str()),
            ),
            RuntimeEvent::ReloadReviewSource { preserve_scroll } => self.request_reload(
                preserve_scroll,
            ),
            RuntimeEvent::ReviewSourceReloaded { preserve_scroll, result } => self.finish_load(
                result,
                preserve_scroll,
                "reload failed",
            ),
            RuntimeEvent::MutationFinished { preserve_scroll, failure_context, result } =>
                self.finish_load(result, preserve_scroll, failure_context),
        }
    }

    fn request_reload(&mut self, preserve_scroll: bool)
        ensures
            final(self)@ == old(self)@.reloading(preserve_scroll),
            old(self).wf() ==> final(self).wf(),
    {
        queue_effect(&mut self.effects, AppEffect::ReloadReviewSource { preserve_scroll });
    }

    fn finish_load(
        &mut self,
        result: Result<Changeset, String>,
        preserve_scroll: bool,
        failure_context: &str,
    )
        requires
            old(self).wf(),
        ensures
            final(self)@ == old(self)@.load_finished(
                loaded_view(result),
                preserve_scroll,
                failure_context@,
            ),
            final(self).wf(),
    {
        match result {
            Ok(changeset) => self.apply_reloaded_changeset(changeset, preserve_scroll),
            Err(error) => {
                self.live_error = Some(cat3(failure_context, ": ", error.as_str()));
            },
        }
    }
}

} // verus!
