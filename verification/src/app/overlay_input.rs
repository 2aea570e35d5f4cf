//! Keys and mouse events while an overlay is open.

use vstd::prelude::*;

use crate::app::effects::{queue_effect, AppEffect, EffectView};
use crate::app::keys::{
    apply_scroll_key, closes_help, closes_help_overlay, closes_with_quit, quits, scrolled_by_key,
};
use crate::app::overlay::{
    AskAiOutputState, AskAiPromptState, CommandOutputState, Overlay, OverlayView,
};
use crate::app::{App, AppView, FocusPane};
use crate::ask_ai::{AskAiResult, ResultView};
use crate::custom_command::{
    BindingView, CommandResultView, CustomCommandBinding, CustomCommandResult,
};
use crate::input::{accepts_text_input, is_ctrl_c, types_text, KeyCode, KeyEvent};
use crate::keybind::BuiltinAction;
use crate::scroll_text::{ScrollText, ScrollView, VerticalDirection};

verus! {

pub const HELP_OVERLAY_SCROLL_PAGE: usize = 8;

impl AppView {
    /// With another overlay, or none.
    pub open spec fn overlaid(self, overlay: Option<OverlayView>) -> AppView {
        AppView { overlay, ..self }
    }

    /// With the text of the overlay scrolled.
    pub open spec fn overlay_scrolled(self, direction: VerticalDirection, amount: int) -> AppView {
        match self.overlay {
            Some(overlay) => match overlay.scroll() {
                Some(scroll) => self.overlaid(
                    Some(overlay.with_scroll(scroll.moved(direction, amount))),
                ),
                None => self,
            },
            None => self,
        }
    }

    pub open spec fn help_key(self, scroll: ScrollView, key: KeyEvent) -> AppView {
        if closes_help(key, self.keybinds) {
            self.overlaid(None)
        } else {
            self.overlaid(
                Some(
                    OverlayView::Help {
                        scroll: scrolled_by_key(
                            scroll,
                            key,
                            HELP_OVERLAY_SCROLL_PAGE as int,
                            self.keybinds,
                        ),
                    },
                ),
            )
        }
    }

    /// Enter and `y` discard, Esc and `n` do not.
    pub open spec fn discard_key(self, key: KeyEvent) -> AppView {
        if key.code == KeyCode::Enter || (key.code == KeyCode::Char('y') && types_text(key)) {
            self.discard_confirmed()
        } else if key.code == KeyCode::Esc || (key.code == KeyCode::Char('n') && types_text(
            key,
        )) {
            self.overlaid(None)
        } else {
            self
        }
    }

    pub open spec fn command_output_key(
        self,
        result: CommandResultView,
        scroll: ScrollView,
        key: KeyEvent,
    ) -> AppView {
        if quits(key, self.keybinds) {
            self.overlaid(None)
        } else {
            self.overlaid(
                Some(
                    OverlayView::CommandOutput {
                        result,
                        scroll: scrolled_by_key(scroll, key, scroll.page(), self.keybinds),
                    },
                ),
            )
        }
    }

    pub open spec fn answer_key(self, result: ResultView, scroll: ScrollView, key: KeyEvent) -> AppView {
        if quits(key, self.keybinds) {
            self.overlaid(None)
        } else if self.keybinds.action(key) == Some(BuiltinAction::CopyFocused) {
            self.answer_copied()
        } else {
            self.overlaid(
                Some(
                    OverlayView::AskAiOutput {
                        result,
                        scroll: scrolled_by_key(scroll, key, scroll.page(), self.keybinds),
                    },
                ),
            )
        }
    }

    pub open spec fn question_key(
        self,
        context: crate::ask_ai::ContextView,
        input: Seq<char>,
        key: KeyEvent,
    ) -> AppView {
        match key.code {
            KeyCode::Esc => self.overlaid(None),
            KeyCode::Enter => self.question_submitted(),
            KeyCode::Backspace => self.overlaid(
                Some(
                    OverlayView::AskAiPrompt {
                        context,
                        input: if input.len() > 0 { input.drop_last() } else { input },
                    },
                ),
            ),
            KeyCode::Char(value) => if types_text(key) {
                self.overlaid(Some(OverlayView::AskAiPrompt { context, input: input.push(value) }))
            } else {
                self
            },
            _ => self,
        }
    }

    /// Esc and the quit key cancel a running question, once.
    pub open spec fn question_running_key(
        self,
        question: Seq<char>,
        spinner_frame: usize,
        cancelling: bool,
        key: KeyEvent,
    ) -> AppView {
        if quits(key, self.keybinds) && !cancelling {
            self.overlaid(
                Some(OverlayView::AskAiRunning { question, spinner_frame, cancelling: true }),
            ).queued(EffectView::CancelAskAi)
        } else {
            self
        }
    }

    /// Esc, the quit key and Ctrl-c cancel a running command, once.
    pub open spec fn command_running_key(
        self,
        binding: BindingView,
        spinner_frame: usize,
        cancelling: bool,
        key: KeyEvent,
    ) -> AppView {
        if (quits(key, self.keybinds) || (key.code == KeyCode::Char('c')
            && key.modifiers.control)) && !cancelling {
            self.overlaid(
                Some(OverlayView::CommandRunning { binding, spinner_frame, cancelling: true }),
            ).queued(EffectView::CancelCustomCommand)
        } else {
            self
        }
    }

    /// After a key while an overlay is open.
    #[verifier::opaque]
    pub open spec fn overlay_key(self, key: KeyEvent) -> AppView {
        match self.overlay {
            Some(OverlayView::Help { scroll }) => self.help_key(scroll, key),
            Some(OverlayView::Discard(_)) => self.discard_key(key),
            Some(OverlayView::CommandOutput { result, scroll }) => self.command_output_key(
                result,
                scroll,
                key,
            ),
            Some(OverlayView::AskAiPrompt { context, input }) => self.question_key(
                context,
                input,
                key,
            ),
            Some(OverlayView::AskAiRunning { question, spinner_frame, cancelling }) =>
                self.question_running_key(question, spinner_frame, cancelling, key),
            Some(OverlayView::AskAiOutput { result, scroll }) => self.answer_key(
                result,
                scroll,
                key,
            ),
            Some(OverlayView::CommandRunning { binding, spinner_frame, cancelling }) =>
                self.command_running_key(binding, spinner_frame, cancelling, key),
            None => self,
        }
    }

    pub open spec fn help_toggled(self) -> AppView {
        self.overlaid(
            match self.overlay {
                Some(OverlayView::Help { .. }) => None,
                _ => Some(OverlayView::Help { scroll: ScrollView::start() }),
            },
        )
    }

    /// With an overlay that shows what goes on in the background.
    pub open spec fn showing(self, overlay: OverlayView) -> AppView {
        AppView {
            live_error: None,
            focus: FocusPane::Diff,
            overlay: Some(overlay),
            ..self.deselected()
        }
    }

    /// The question whether to discard, while it is open.
    pub open spec fn discard_question(self) -> Option<Seq<char>> {
        match self.overlay {
            Some(OverlayView::Discard(target)) => Some(target.question()),
            _ => None,
        }
    }
}

impl App {
    pub fn help_overlay_visible(&self) -> (visible: bool)
        ensures
            visible == (self@.overlay is Some && self@.overlay->0 is Help),
    {
        matches!(self.overlay, Some(Overlay::Help { .. }))
    }

    pub fn help_overlay_scroll(&self) -> (offset: usize)
        ensures
            offset == (match self@.overlay {
                Some(OverlayView::Help { scroll }) => scroll.at,
                _ => 0,
            }),
    {
        match &self.overlay {
            Some(Overlay::Help { scroll }) => scroll.offset(),
            _ => 0,
        }
    }

    pub fn clamp_help_overlay_scroll(&mut self, line_count: usize, visible_height: usize)
        ensures
            final(self)@ == (match old(self)@.overlay {
                Some(OverlayView::Help { scroll }) => old(self)@.overlaid(
                    Some(
                        OverlayView::Help {
                            scroll: scroll.synced(line_count as int, visible_height as int),
                        },
                    ),
                ),
                _ => old(self)@,
            }),
            old(self).wf() ==> final(self).wf(),
    {
        if let Some(Overlay::Help { scroll }) = &mut self.overlay {
            scroll.sync(line_count, visible_height);
        }
    }

    pub fn command_output(&self) -> (output: Option<&CommandOutputState>)
        ensures
            match output {
                Some(output) => self@.overlay == Some(
                    OverlayView::CommandOutput {
                        result: output.result@,
                        scroll: output.scroll@,
                    },
                ),
                None => !(self@.overlay is Some && self@.overlay->0 is CommandOutput),
            },
    {
        match &self.overlay {
            Some(Overlay::CommandOutput(output)) => Some(output),
            _ => None,
        }
    }

    pub fn command_running(&self) -> (running: Option<(&CustomCommandBinding, usize, bool)>)
        ensures
            match running {
                Some((binding, spinner_frame, cancelling)) => self@.overlay == Some(
                    OverlayView::CommandRunning { binding: binding@, spinner_frame, cancelling },
                ),
                None => !(self@.overlay is Some && self@.overlay->0 is CommandRunning),
            },
    {
        match &self.overlay {
            Some(Overlay::CommandRunning { binding, spinner_frame, cancelling }) => Some(
                (binding, *spinner_frame, *cancelling),
            ),
            _ => None,
        }
    }

    pub fn ask_ai_prompt(&self) -> (prompt: Option<&AskAiPromptState>)
        ensures
            match prompt {
                Some(prompt) => self@.overlay == Some(
                    OverlayView::AskAiPrompt { context: prompt.context@, input: prompt.input@ },
                ),
                None => !(self@.overlay is Some && self@.overlay->0 is AskAiPrompt),
            },
    {
        match &self.overlay {
            Some(Overlay::AskAiPrompt(prompt)) => Some(prompt),
            _ => None,
        }
    }

    pub fn ask_ai_running(&self) -> (running: Option<(&str, usize, bool)>)
        ensures
            match running {
                Some((question, spinner_frame, cancelling)) => self@.overlay == Some(
                    OverlayView::AskAiRunning { question: question@, spinner_frame, cancelling },
                ),
                None => !(self@.overlay is Some && self@.overlay->0 is AskAiRunning),
            },
    {
        match &self.overlay {
            Some(Overlay::AskAiRunning { question, spinner_frame, cancelling }) => Some(
                (question.as_str(), *spinner_frame, *cancelling),
            ),
            _ => None,
        }
    }

    pub fn ask_ai_output(&self) -> (output: Option<&AskAiOutputState>)
        ensures
            match output {
                Some(output) => self@.overlay == Some(
                    OverlayView::AskAiOutput { result: output.result@, scroll: output.scroll@ },
                ),
                None => !(self@.overlay is Some && self@.overlay->0 is AskAiOutput),
            },
    {
        match &self.overlay {
            Some(Overlay::AskAiOutput(output)) => Some(output),
            _ => None,
        }
    }

    pub fn discard_prompt(&self) -> (prompt: Option<String>)
        ensures
            crate::search::text_option(prompt) == self@.discard_question(),
    {
        match &self.overlay {
            Some(Overlay::Discard(confirmation)) => Some(confirmation.prompt()),
            _ => None,
        }
    }

    pub fn set_custom_command_running(&mut self, command: &CustomCommandBinding)
        ensures
            final(self)@ == old(self)@.showing(
                OverlayView::CommandRunning {
                    binding: command@,
                    spinner_frame: 0,
                    cancelling: false,
                },
            ),
            old(self).wf() ==> final(self).wf(),
    {
        self.live_error = None;
        self.focus = FocusPane::Diff;
        self.text_selection.clear();
        self.overlay = Some(
            Overlay::CommandRunning {
                binding: command.clone(),
                spinner_frame: 0,
                cancelling: false,
            },
        );
    }

    pub fn advance_custom_command_spinner(&mut self)
        ensures
            final(self)@ == (match old(self)@.overlay {
                Some(OverlayView::CommandRunning { binding, spinner_frame, cancelling }) => old(
                    self,
                )@.overlaid(
                    Some(
                        OverlayView::CommandRunning {
                            binding,
                            spinner_frame: next_frame(spinner_frame),
                            cancelling,
                        },
                    ),
                ),
                _ => old(self)@,
            }),
            old(self).wf() ==> final(self).wf(),
    {
        if let Some(Overlay::CommandRunning { spinner_frame, .. }) = &mut self.overlay {
            *spinner_frame = spinner_frame.wrapping_add(1);
        }
    }

    pub fn set_custom_command_result(&mut self, result: CustomCommandResult)
        ensures
            final(self)@ == old(self)@.showing(
                OverlayView::CommandOutput { result: result@, scroll: ScrollView::start() },
            ),
            old(self).wf() ==> final(self).wf(),
    {
        self.live_error = None;
        self.focus = FocusPane::Diff;
        self.text_selection.clear();
        self.overlay = Some(
            Overlay::CommandOutput(CommandOutputState { result, scroll: ScrollText::default() }),
        );
    }

    pub fn set_ask_ai_running(&mut self, question: &str)
        ensures
            final(self)@ == old(self)@.showing(
                OverlayView::AskAiRunning {
                    question: question@,
                    spinner_frame: 0,
                    cancelling: false,
                },
            ),
            old(self).wf() ==> final(self).wf(),
    {
        self.live_error = None;
        self.focus = FocusPane::Diff;
        self.text_selection.clear();
        self.overlay = Some(
            Overlay::AskAiRunning {
                question: question.to_owned(),
                spinner_frame: 0,
                cancelling: false,
            },
        );
    }

    pub fn advance_ask_ai_spinner(&mut self)
        ensures
            final(self)@ == (match old(self)@.overlay {
                Some(OverlayView::AskAiRunning { question, spinner_frame, cancelling }) => old(
                    self,
                )@.overlaid(
                    Some(
                        OverlayView::AskAiRunning {
                            question,
                            spinner_frame: next_frame(spinner_frame),
                            cancelling,
                        },
                    ),
                ),
                _ => old(self)@,
            }),
            old(self).wf() ==> final(self).wf(),
    {
        if let Some(Overlay::AskAiRunning { spinner_frame, .. }) = &mut self.overlay {
            *spinner_frame = spinner_frame.wrapping_add(1);
        }
    }

    pub fn set_ask_ai_result(&mut self, result: AskAiResult)
        ensures
            final(self)@ == old(self)@.showing(
                OverlayView::AskAiOutput { result: result@, scroll: ScrollView::start() },
            ),
            old(self).wf() ==> final(self).wf(),
    {
        self.live_error = None;
        self.focus = FocusPane::Diff;
        self.text_selection.clear();
        self.overlay = Some(
            Overlay::AskAiOutput(AskAiOutputState { result, scroll: ScrollText::default() }),
        );
    }

    pub fn toggle_help_overlay(&mut self)
        ensures
            final(self)@ == old(self)@.help_toggled(),
            old(self).wf() ==> final(self).wf(),
    {
        self.overlay = match self.overlay {
            Some(Overlay::Help { .. }) => None,
            _ => Some(Overlay::Help { scroll: ScrollText::default() }),
        };
    }

    pub fn handle_overlay_key(&mut self, key: KeyEvent)
        ensures
            final(self)@ == old(self)@.overlay_key(key),
            old(self).wf() ==> final(self).wf(),
    {
        reveal(AppView::overlay_key);
        match self.overlay {
            Some(Overlay::Help { .. }) => self.handle_help_overlay_key(key),
            Some(Overlay::Discard(_)) => self.handle_discard_confirmation_key(key),
            Some(Overlay::CommandOutput(_)) => self.handle_command_output_key(key),
            Some(Overlay::AskAiPrompt(_)) => self.handle_ask_ai_prompt_key(key),
            Some(Overlay::AskAiRunning { .. }) => self.handle_ask_ai_running_key(key),
            Some(Overlay::AskAiOutput(_)) => self.handle_ask_ai_output_key(key),
            Some(Overlay::CommandRunning { .. }) => self.handle_command_running_key(key),
            None => {},
        }
    }

    fn handle_help_overlay_key(&mut self, key: KeyEvent)
        requires
            old(self)@.overlay is Some,
            old(self)@.overlay->0 is Help,
        ensures
            final(self)@ == old(self)@.overlay_key(key),
            old(self).wf() ==> final(self).wf(),
    {
        reveal(AppView::overlay_key);
        if closes_help_overlay(key, self.keybinds) {
            self.overlay = None;
            return;
        }
        let keybinds = self.keybinds;
        if let Some(Overlay::Help { scroll }) = &mut self.overlay {
            apply_scroll_key(scroll, key, HELP_OVERLAY_SCROLL_PAGE, keybinds);
        }
    }

    fn handle_discard_confirmation_key(&mut self, key: KeyEvent)
        requires
            old(self)@.overlay is Some,
            old(self)@.overlay->0 is Discard,
        ensures
            final(self)@ == old(self)@.overlay_key(key),
            old(self).wf() ==> final(self).wf(),
    {
        reveal(AppView::overlay_key);
        let typed = accepts_text_input(key);
        match key.code {
            KeyCode::Enter => self.execute_pending_discard(),
            KeyCode::Esc => self.close_overlay(),
            KeyCode::Char(value) => if value == 'y' && typed {
                self.execute_pending_discard();
            } else if value == 'n' && typed {
                self.close_overlay();
            },
            _ => {},
        }
    }

    fn handle_command_output_key(&mut self, key: KeyEvent)
        requires
            old(self)@.overlay is Some,
            old(self)@.overlay->0 is CommandOutput,
        ensures
            final(self)@ == old(self)@.overlay_key(key),
            old(self).wf() ==> final(self).wf(),
    {
        reveal(AppView::overlay_key);
        if closes_with_quit(key, self.keybinds) {
            self.overlay = None;
            return;
        }
        let keybinds = self.keybinds;
        if let Some(Overlay::CommandOutput(output)) = &mut self.overlay {
            let page: usize = output.scroll.page();
            apply_scroll_key(&mut output.scroll, key, page, keybinds);
        }
    }

    fn handle_ask_ai_prompt_key(&mut self, key: KeyEvent)
        requires
            old(self)@.overlay is Some,
            old(self)@.overlay->0 is AskAiPrompt,
        ensures
            final(self)@ == old(self)@.overlay_key(key),
            old(self).wf() ==> final(self).wf(),
    {
        reveal(AppView::overlay_key);
        let typed = accepts_text_input(key);
        match key.code {
            KeyCode::Esc => self.close_overlay(),
            KeyCode::Enter => self.submit_ask_ai_prompt(),
            KeyCode::Backspace => self.erase_question_char(),
            KeyCode::Char(value) => if typed {
                self.type_question_char(value);
            },
            _ => {},
        }
    }

    fn close_overlay(&mut self)
        ensures
            final(self)@ == old(self)@.overlaid(None),
            old(self).wf() ==> final(self).wf(),
    {
        self.overlay = None;
    }

    fn erase_question_char(&mut self)
        ensures
            final(self)@ == (match old(self)@.overlay {
                Some(OverlayView::AskAiPrompt { context, input }) => old(self)@.overlaid(
                    Some(
                        OverlayView::AskAiPrompt {
                            context,
                            input: if input.len() > 0 { input.drop_last() } else { input },
                        },
                    ),
                ),
                _ => old(self)@,
            }),
            old(self).wf() ==> final(self).wf(),
    {
        if let Some(Overlay::AskAiPrompt(prompt)) = &mut self.overlay {
            prompt.input = without_last(prompt.input.as_str());
        }
    }

    fn type_question_char(&mut self, value: char)
        ensures
            final(self)@ == (match old(self)@.overlay {
                Some(OverlayView::AskAiPrompt { context, input }) => old(self)@.overlaid(
                    Some(OverlayView::AskAiPrompt { context, input: input.push(value) }),
                ),
                _ => old(self)@,
            }),
            old(self).wf() ==> final(self).wf(),
    {
        if let Some(Overlay::AskAiPrompt(prompt)) = &mut self.overlay {
            prompt.input.push(value);
        }
    }

    fn handle_ask_ai_running_key(&mut self, key: KeyEvent)
        requires
            old(self)@.overlay is Some,
            old(self)@.overlay->0 is AskAiRunning,
        ensures
            final(self)@ == old(self)@.overlay_key(key),
            old(self).wf() ==> final(self).wf(),
    {
        reveal(AppView::overlay_key);
        if !closes_with_quit(key, self.keybinds) {
            return;
        }
        if let Some(Overlay::AskAiRunning { cancelling, .. }) = &mut self.overlay {
            if *cancelling {
                return;
            }
            *cancelling = true;
            queue_effect(&mut self.effects, AppEffect::CancelAskAi);
        }
    }

    fn handle_command_running_key(&mut self, key: KeyEvent)
        requires
            old(self)@.overlay is Some,
            old(self)@.overlay->0 is CommandRunning,
        ensures
            final(self)@ == old(self)@.overlay_key(key),
            old(self).wf() ==> final(self).wf(),
    {
        reveal(AppView::overlay_key);
        if !closes_with_quit(key, self.keybinds) && !is_ctrl_c(key) {
            return;
        }
        if let Some(Overlay::CommandRunning { cancelling, .. }) = &mut self.overlay {
            if *cancelling {
                return;
            }
            *cancelling = true;
            queue_effect(&mut self.effects, AppEffect::CancelCustomCommand);
        }
    }

    fn handle_ask_ai_output_key(&mut self, key: KeyEvent)
        requires
            old(self)@.overlay is Some,
            old(self)@.overlay->0 is AskAiOutput,
        ensures
            final(self)@ == old(self)@.overlay_key(key),
            old(self).wf() ==> final(self).wf(),
    {
        reveal(AppView::overlay_key);
        let keybinds = self.keybinds;
        if closes_with_quit(key, keybinds) {
            self.overlay = None;
            return;
        }
        if let Some(BuiltinAction::CopyFocused) = keybinds.action_for(key) {
            self.queue_ask_ai_answer_copy();
            return;
        }
        if let Some(Overlay::AskAiOutput(output)) = &mut self.overlay {
            let page: usize = output.scroll.page();
            apply_scroll_key(&mut output.scroll, key, page, keybinds);
        }
    }

    /// Scrolls the text of the overlay, if it has any.
    pub fn scroll_overlay(&mut self, direction: VerticalDirection, amount: usize)
        ensures
            final(self)@ == old(self)@.overlay_scrolled(direction, amount as int),
            old(self).wf() ==> final(self).wf(),
    {
        match &mut self.overlay {
            Some(Overlay::Help { scroll }) => scroll.scroll_by(direction, amount),
            Some(Overlay::CommandOutput(output)) => output.scroll.scroll_by(direction, amount),
            Some(Overlay::AskAiOutput(output)) => output.scroll.scroll_by(direction, amount),
            _ => {},
        }
    }
}

/// The frame of a spinner after another.
pub open spec fn next_frame(frame: usize) -> usize {
    if frame == usize::MAX { 0 } else { (frame + 1) as usize }
}

fn without_last(text: &str) -> (shorter: String)
    ensures
        shorter@ == if text@.len() > 0 { text@.drop_last() } else { text@ },
{
    let chars = crate::text::chars_of(text);
    if chars.len() == 0 {
        return text.to_owned();
    }
    let shorter = crate::text::string_between(chars.as_slice(), 0, chars.len() - 1);
    assert(text@.subrange(0, text@.len() - 1) =~= text@.drop_last());
    shorter
}

/// Opening the help and closing it again changes nothing else.
pub proof fn help_toggles(app: AppView)
    requires
        app.overlay is None,
    ensures
        app.help_toggled().help_toggled() == app,
{
}

/// Esc closes every overlay that shows or asks something, and asks for nothing.
pub proof fn escape_closes_overlays(app: AppView, key: KeyEvent)
    requires
        app.overlay is Some,
        !(app.overlay->0 is CommandRunning),
        !(app.overlay->0 is AskAiRunning),
        key.code == KeyCode::Esc,
    ensures
        app.overlay_key(key) == app.overlaid(None),
{
    reveal(AppView::overlay_key);
}

/// A running command or question is cancelled once, however often a key asks for it.
pub proof fn cancelling_is_asked_once(app: AppView, first: KeyEvent, second: KeyEvent)
    requires
        app.overlay is Some,
        app.overlay->0 is CommandRunning || app.overlay->0 is AskAiRunning,
        app.overlay_key(first) != app,
    ensures
        app.overlay_key(first).overlay_key(second) == app.overlay_key(first),
{
    reveal(AppView::overlay_key);
}

} // verus!
