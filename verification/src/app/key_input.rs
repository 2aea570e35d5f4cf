//! Keys.

use vstd::prelude::*;

use crate::app::diff_pane::PaneView;
use crate::app::effects::{
    queued, queueing_replaces_its_kind, without, without_leaves_others, EffectKind, EffectView,
};
use crate::app::overlay::Overlay;
use crate::app::{App, AppView, FocusPane};
use crate::input::{is_ctrl_c, KeyCode, KeyEvent};
use crate::keybind::BuiltinAction;
use crate::review_source::MutationView;
use crate::scroll_text::VerticalDirection;

verus! {

/// Whether a key is Ctrl-c.
pub open spec fn interrupts(key: KeyEvent) -> bool {
    key.code == KeyCode::Char('c') && key.modifiers.control
}

impl AppView {
    /// Whether a key reaches neither an overlay nor the search prompt.
    pub open spec fn unobstructed(self) -> bool {
        self.overlay is None && !self.pane.search.prompt_open
    }

    pub open spec fn command_runs(self) -> bool {
        self.overlay is Some && self.overlay->0 is CommandRunning
    }

    /// What a key does that is bound to an action of the diff view.
    #[verifier::opaque]
    pub open spec fn acted(self, action: BuiltinAction) -> AppView {
        match action {
            BuiltinAction::Help => self.help_toggled(),
            BuiltinAction::ToggleFiles => self.files_toggled(),
            BuiltinAction::Search => self.search_opened(),
            BuiltinAction::MoveDown => self.moved(VerticalDirection::Down),
            BuiltinAction::MoveUp => self.moved(VerticalDirection::Up),
            BuiltinAction::NextMatch => self.jumped(VerticalDirection::Down),
            BuiltinAction::PrevMatch => self.jumped(VerticalDirection::Up),
            BuiltinAction::Top => self.diff_at(0),
            BuiltinAction::Bottom => self.diff_at_bottom(),
            BuiltinAction::ToggleStaging => self.staging_toggled(),
            BuiltinAction::Discard => self.discard_requested(),
            BuiltinAction::Editor => self.editing(),
            BuiltinAction::ToggleReviewed => self.reviewed_toggled(),
            _ => self,
        }
    }

    /// What a key does in the diff view, other than asking, copying, running a command
    /// and quitting.
    #[verifier::opaque]
    pub open spec fn view_key(self, key: KeyEvent) -> AppView {
        match key.code {
            KeyCode::Tab => self.focus_toggled(),
            KeyCode::Left => if self.files_visible {
                AppView { focus: FocusPane::Sidebar, ..self }
            } else {
                self
            },
            KeyCode::Right | KeyCode::Enter => AppView { focus: FocusPane::Diff, ..self },
            KeyCode::Esc => self.search_cleared(),
            KeyCode::PageDown => self.diff_paged(VerticalDirection::Down),
            KeyCode::PageUp => self.diff_paged(VerticalDirection::Up),
            KeyCode::Home => self.diff_at(0),
            KeyCode::End => self.diff_at_bottom(),
            KeyCode::Char(value) => if value == 'd' && key.modifiers.control {
                self.diff_paged(VerticalDirection::Down)
            } else if value == 'u' && key.modifiers.control {
                self.diff_paged(VerticalDirection::Up)
            } else {
                match self.keybinds.action(key) {
                    Some(action) => self.acted(action),
                    None => self,
                }
            },
            _ => self,
        }
    }

    /// Whether a key ends the session: Ctrl-c unless a command runs, and the quit key
    /// in the diff view unless it is bound to a command.
    pub open spec fn ends(self, key: KeyEvent) -> bool {
        ||| !self.command_runs() && interrupts(key)
        ||| self.unobstructed() && self.keybinds.action(key) == Some(BuiltinAction::Quit)
            && self.command_for(key) is None
    }

    /// After a key in the diff view, with no text selected any more.
    #[verifier::opaque]
    pub open spec fn plain_key(self, key: KeyEvent) -> AppView {
        let action = self.keybinds.action(key);
        if action == Some(BuiltinAction::CopyFocused) {
            self.focus_copied()
        } else if action == Some(BuiltinAction::CopyFileDiff) {
            self.file_diff_copied()
        } else if let Some(command) = self.command_for(key) {
            self.commanding(command)
        } else if action == Some(BuiltinAction::Quit) {
            self
        } else {
            self.view_key(key).bounded()
        }
    }

    /// What a key does that asks for answers.
    #[verifier::opaque]
    pub open spec fn asked(self, action: Option<BuiltinAction>) -> Option<AppView> {
        match action {
            Some(BuiltinAction::AskAi) => Some(self.question_opened().deselected().bounded()),
            Some(BuiltinAction::ExplainCode) => Some(
                self.explanation_asked().deselected().bounded(),
            ),
            Some(BuiltinAction::UnpublishedSummary) => Some(
                self.summary_asked().deselected().bounded(),
            ),
            _ => None,
        }
    }

    /// After a key.
    pub open spec fn after_key(self, key: KeyEvent) -> AppView {
        let asked = self.asked(self.keybinds.action(key));
        if self.command_runs() {
            self.overlay_key(key)
        } else if interrupts(key) {
            self
        } else if self.unobstructed() && asked is Some {
            asked->0
        } else if self.overlay is Some {
            self.deselected().overlay_key(key)
        } else if self.pane.search.prompt_open {
            self.deselected().search_key(key)
        } else {
            self.deselected().plain_key(key)
        }
    }

    /// After a key in the search prompt.
    #[verifier::opaque]
    pub open spec fn search_key(self, key: KeyEvent) -> AppView {
        AppView {
            pane: PaneView { search: self.pane.search.after_key(key), ..self.pane },
            ..self
        }.bounded()
    }
}

impl App {
    /// Handles a key; returns whether the session goes on.
    pub fn handle_key(&mut self, key: KeyEvent) -> (goes_on: bool)
        requires
            old(self).wf(),
        ensures
            final(self)@ == old(self)@.after_key(key),
            goes_on == !old(self)@.ends(key),
            final(self).wf(),
    {
        // A running command hears only what cancels it.
        if matches!(self.overlay, Some(Overlay::CommandRunning { .. })) {
            self.handle_overlay_key(key);
            return true;
        }
        if is_ctrl_c(key) {
            return false;
        }
        let action = self.keybinds.action_for(key);
        let prompt_open = self.diff_pane.search_prompt_open();
        if self.overlay.is_none() && !prompt_open {
            if self.handle_ask_ai_action(action) {
                return true;
            }
        }
        self.text_selection.clear();
        if self.overlay.is_some() {
            self.handle_overlay_key(key);
            return true;
        }
        if prompt_open {
            self.handle_search_prompt_key(key);
            return true;
        }
        self.handle_plain_key(key)
    }

    fn handle_ask_ai_action(&mut self, action: Option<BuiltinAction>) -> (handled: bool)
        requires
            old(self).wf(),
        ensures
            final(self).wf(),
            match old(self)@.asked(action) {
                Some(after) => handled && final(self)@ == after,
                None => !handled && final(self)@ == old(self)@,
            },
            handled ==> action != Some(BuiltinAction::Quit),
    {
        reveal(AppView::asked);
        match action {
            Some(BuiltinAction::AskAi) => self.open_ask_ai_prompt(),
            Some(BuiltinAction::ExplainCode) => self.queue_explain_code_request(),
            Some(BuiltinAction::UnpublishedSummary) => self.queue_unpublished_summary_request(),
            _ => {
                return false;
            },
        }
        self.text_selection.clear();
        self.ensure_scroll_bounds();
        true
    }

    fn handle_search_prompt_key(&mut self, key: KeyEvent)
        requires
            old(self).wf(),
        ensures
            final(self)@ == old(self)@.search_key(key),
            final(self).wf(),
    {
        reveal(AppView::search_key);
        self.diff_pane.handle_search_prompt_key(key);
        self.ensure_scroll_bounds();
    }

    fn handle_plain_key(&mut self, key: KeyEvent) -> (goes_on: bool)
        requires
            old(self).wf(),
        ensures
            final(self)@ == old(self)@.plain_key(key),
            goes_on == !(old(self)@.keybinds.action(key) == Some(BuiltinAction::Quit) && old(
                self,
            )@.command_for(key) is None),
            final(self).wf(),
    {
        reveal(AppView::plain_key);
        match self.keybinds.action_for(key) {
            Some(BuiltinAction::CopyFocused) => {
                self.queue_focused_target_copy();
                return true;
            },
            Some(BuiltinAction::CopyFileDiff) => {
                self.queue_selected_file_diff_copy();
                return true;
            },
            _ => {},
        }
        if self.queue_custom_command_for_key(key) {
            return true;
        }
        if let Some(BuiltinAction::Quit) = self.keybinds.action_for(key) {
            return false;
        }
        self.handle_view_key(key);
        self.ensure_scroll_bounds();
        true
    }

    fn handle_view_key(&mut self, key: KeyEvent)
        requires
            old(self).wf(),
        ensures
            final(self)@ == old(self)@.view_key(key),
            final(self).wf(),
    {
        reveal(AppView::view_key);
        match key.code {
            KeyCode::Tab => self.toggle_focus(),
            KeyCode::Left if self.files_panel_visible => {
                self.focus = FocusPane::Sidebar;
            },
            KeyCode::Right | KeyCode::Enter => {
                self.focus = FocusPane::Diff;
            },
            KeyCode::Esc => self.clear_search_query(),
            KeyCode::PageDown => self.scroll_diff_page(VerticalDirection::Down),
            KeyCode::PageUp => self.scroll_diff_page(VerticalDirection::Up),
            KeyCode::Home => self.scroll_diff_to_top(),
            KeyCode::End => self.scroll_diff_to_bottom(),
            KeyCode::Char('d') if key.modifiers.control => self.scroll_diff_page(
                VerticalDirection::Down,
            ),
            KeyCode::Char('u') if key.modifiers.control => self.scroll_diff_page(
                VerticalDirection::Up,
            ),
            _ => match self.keybinds.action_for(key) {
                Some(action) => self.act(action),
                None => {},
            },
        }
    }

    fn act(&mut self, action: BuiltinAction)
        requires
            old(self).wf(),
        ensures
            final(self)@ == old(self)@.acted(action),
            final(self).wf(),
    {
        reveal(AppView::acted);
        match action {
            BuiltinAction::Help => self.toggle_help_overlay(),
            BuiltinAction::ToggleFiles => self.toggle_files_panel(),
            BuiltinAction::Search => self.open_search_prompt(),
            BuiltinAction::MoveDown => self.move_by(VerticalDirection::Down),
            BuiltinAction::MoveUp => self.move_by(VerticalDirection::Up),
            BuiltinAction::NextMatch => self.jump_by(VerticalDirection::Down),
            BuiltinAction::PrevMatch => self.jump_by(VerticalDirection::Up),
            BuiltinAction::Top => self.scroll_diff_to_top(),
            BuiltinAction::Bottom => self.scroll_diff_to_bottom(),
            BuiltinAction::ToggleStaging => self.toggle_selected_staging(),
            BuiltinAction::Discard => self.request_selected_discard(),
            BuiltinAction::Editor => self.queue_selected_file_editor_request(),
            BuiltinAction::ToggleReviewed => self.toggle_selected_file_reviewed(),
            BuiltinAction::Quit
            | BuiltinAction::AskAi
            | BuiltinAction::ExplainCode
            | BuiltinAction::UnpublishedSummary
            | BuiltinAction::CopyFocused
            | BuiltinAction::CopyFileDiff => {},
        }
    }
}

/// Ctrl-c ends the session, whatever is open, unless a command runs; nothing else is
/// changed or asked for then.
pub proof fn interrupt_ends_the_session(app: AppView, key: KeyEvent)
    requires
        interrupts(key),
    ensures
        app.command_runs() ==> !app.ends(key),
        !app.command_runs() ==> app.ends(key) && app.after_key(key) == app,
{
}

/// A key leaves a file selected where there are files.
pub proof fn keys_keep_a_file_selected(app: AppView, key: KeyEvent)
    requires
        app.selects_a_file(),
    ensures
        app.after_key(key).selects_a_file(),
{
    reveal(AppView::overlay_key);
    reveal(AppView::asked);
    reveal(AppView::plain_key);
    reveal(AppView::view_key);
    reveal(AppView::acted);
    reveal(AppView::search_key);
}

/// After a key of the diff view that neither copies nor quits, the diff is scrolled no further than its last page, and the
/// selected hunk is one of the selected file.
pub proof fn keys_keep_within_bounds(app: AppView, key: KeyEvent)
    requires
        app.overlay is None,
        !app.pane.search.prompt_open,
        !interrupts(key),
        app.command_for(key) is None,
        app.keybinds.action(key) != Some(BuiltinAction::CopyFocused),
        app.keybinds.action(key) != Some(BuiltinAction::CopyFileDiff),
        app.keybinds.action(key) != Some(BuiltinAction::Quit),
    ensures
        app.after_key(key).pane.scroll <= app.after_key(key).max_scroll(),
        match (app.after_key(key).file(), app.after_key(key).pane.hunk) {
            (Some(file), Some(hunk)) => hunk < file.hunks.len(),
            (Some(file), None) => file.hunks.len() == 0,
            (None, hunk) => hunk is None,
        },
{
    reveal(AppView::asked);
    reveal(AppView::plain_key);
    reveal(AppView::view_key);
    if app.asked(app.keybinds.action(key)) is None {
        assert(app.after_key(key) == app.deselected().view_key(key).bounded());
    }
}

/// The hidden files panel is never focused by a key.
pub proof fn hidden_files_panel_is_not_focused(app: AppView, key: KeyEvent)
    requires
        app.files_visible || app.focus == FocusPane::Diff,
    ensures
        app.after_key(key).files_visible || app.after_key(key).focus == FocusPane::Diff,
{
    reveal(AppView::overlay_key);
    reveal(AppView::asked);
    reveal(AppView::plain_key);
    reveal(AppView::view_key);
    reveal(AppView::acted);
    reveal(AppView::search_key);
}

broadcast proof fn queueing_adds_no_mutation(
    effects: Seq<EffectView>,
    effect: EffectView,
    mutation: MutationView,
)
    requires
        effect.kind() != EffectKind::ApplyMutation,
    ensures
        (#[trigger] queued(effects, effect).contains(EffectView::ApplyMutation(mutation)))
            <==> effects.contains(EffectView::ApplyMutation(mutation)),
{
    queueing_replaces_its_kind(effects, effect, EffectView::ApplyMutation(mutation));
}

broadcast proof fn clearing_adds_no_mutation(
    effects: Seq<EffectView>,
    kind: EffectKind,
    mutation: MutationView,
)
    ensures
        (#[trigger] without(effects, kind).contains(EffectView::ApplyMutation(mutation)))
            ==> effects.contains(EffectView::ApplyMutation(mutation)),
{
    without_leaves_others(effects, kind, EffectView::ApplyMutation(mutation));
}

/// No key asks for a change of the worktree in a pull request review.
pub proof fn keys_leave_a_pull_request_alone(app: AppView, key: KeyEvent, mutation: MutationView)
    requires
        app.source is PullRequest,
        !app.effects.contains(EffectView::ApplyMutation(mutation)),
    ensures
        app.after_key(key).source == app.source,
        !app.after_key(key).effects.contains(EffectView::ApplyMutation(mutation)),
{
    broadcast use queueing_adds_no_mutation, clearing_adds_no_mutation;

    reveal(AppView::overlay_key);
    reveal(AppView::asked);
    reveal(AppView::plain_key);
    reveal(AppView::view_key);
    reveal(AppView::acted);
    reveal(AppView::search_key);
}

} // verus!
