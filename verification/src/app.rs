//! Terminal application session state.
//!
//! `App` owns selection, focus, scroll state, and live reload errors. What takes the
//! outside world (running Git, commands, editors) is queued as an effect, and comes
//! back as an event.

pub mod diff_frame;
pub mod diff_pane;
pub mod effects;
pub mod events;
pub mod focused_review_target;
pub mod key_input;
pub mod keys;
pub mod mouse_input;
pub mod navigation;
pub mod overlay;
pub mod overlay_input;
pub mod requests;
pub mod review_session;
pub mod screen;
pub mod sidebar;
pub mod worktree;

use vstd::prelude::*;

use crate::app::diff_pane::{DiffPaneState, PaneContext, PaneView};
use crate::app::effects::{effect_views, AppEffect, ClipboardRequest, ClipboardView, EffectView};
use crate::app::focused_review_target::{FocusView, FocusedReviewTarget};
use crate::app::overlay::{overlay_view, Overlay, OverlayView};
use crate::app::review_session::{
    target_option, ReviewSessionReplacement, ReviewSessionSnapshot, SnapshotView,
};
use crate::config::AppConfig;
use crate::custom_command::{binding_views, BindingView, CustomCommandBinding};
use crate::diff_render::{DiffRenderState, RenderView};
use crate::keybind::KeybindMap;
use crate::model::{Changeset, ChangesetView, DiffFile, DiffHunk, FileView};
use crate::path_set::PathSet;
use crate::review_source::{LoadedReview, ReviewSource};
use crate::rows::sidebar::{SidebarRowTarget, TargetView};
use crate::scroll_text::{greatest, least};
use crate::search::text_option;
use crate::selection::{SelectionView, TextSelection};
use crate::theme::{Theme, ThemeName};
use crate::viewport::{DiffScrollbarDrag, RenderedViewport, ViewportScrollInput, ViewportView};

verus! {

#[derive(Debug, Clone, Copy, PartialEq, Eq, Structural)]
pub enum FocusPane {
    Sidebar,
    Diff,
}

/// What a press of the left button does once it turns out to be a click.
#[derive(Debug)]
pub enum PendingLeftClick {
    Sidebar { target: SidebarRowTarget },
    Diff { hunk_index: Option<usize> },
}

#[derive(Debug)]
pub struct App {
    /// Where the diff comes from.
    pub source: ReviewSource,
    /// Current diff data being shown.
    pub changeset: Changeset,
    /// Last live reload/watch error, rendered above the diff when present.
    pub live_error: Option<String>,
    /// Last successful background/status event, rendered above the diff.
    pub live_notice: Option<String>,
    /// Index into `changeset.files`.
    pub selected_file_index: usize,
    /// Diff-pane scroll, hunk selection, and search state.
    pub diff_pane: DiffPaneState,
    /// Pane receiving keyboard and mouse wheel actions.
    pub focus: FocusPane,
    /// Whether the files sidebar is visible in the current session.
    pub files_panel_visible: bool,
    /// Active modal overlay; at most one at a time.
    pub overlay: Option<Overlay>,
    /// User-configured shell command bindings.
    pub custom_commands: Vec<CustomCommandBinding>,
    /// User-configured built-in keybindings.
    pub keybinds: KeybindMap,
    /// User-selected UI and syntax palette.
    pub theme: ThemeName,
    /// Deferred effects requested by application behavior.
    pub effects: Vec<AppEffect>,
    /// First entry considered for sidebar rendering.
    pub sidebar_scroll: usize,
    /// Collapsed tree directory paths in the current session.
    pub collapsed_tree_dirs: PathSet,
    /// Active Files-panel tree row, if it differs from the selected file fallback.
    pub sidebar_cursor_target: Option<SidebarRowTarget>,
    /// Rendered viewport geometry and row mapping.
    pub viewport: RenderedViewport,
    /// Rendered diff rows and layout metrics.
    pub diff_render: DiffRenderState,
    /// Visible text rows and active drag-to-copy selection.
    pub text_selection: TextSelection,
    /// Deferred plain click target, cancelled if the press becomes a drag.
    pub pending_left_click: Option<PendingLeftClick>,
    /// Active mouse drag against the rendered diff scrollbar.
    pub diff_scrollbar_drag: Option<DiffScrollbarDrag>,
    /// Display paths marked reviewed in this session. Keyed by `display_path` so that
    /// the mark survives reloads as long as file identity stays stable.
    pub reviewed_files: PathSet,
}

/// What a [`PendingLeftClick`] holds.
pub enum ClickView {
    Sidebar { target: TargetView },
    Diff { hunk: Option<int> },
}

impl View for PendingLeftClick {
    type V = ClickView;

    open spec fn view(&self) -> ClickView {
        match self {
            PendingLeftClick::Sidebar { target } => ClickView::Sidebar { target: target@ },
            PendingLeftClick::Diff { hunk_index } => ClickView::Diff {
                hunk: crate::diff_render::int_option(*hunk_index),
            },
        }
    }
}

pub open spec fn click_view(click: Option<PendingLeftClick>) -> Option<ClickView> {
    match click {
        Some(inner) => Some(inner@),
        None => None,
    }
}

/// What an [`App`] holds.
#[verifier::ext_equal]
pub struct AppView {
    pub source: ReviewSource,
    pub changeset: ChangesetView,
    pub live_error: Option<Seq<char>>,
    pub live_notice: Option<Seq<char>>,
    pub selected: int,
    pub pane: PaneView,
    pub focus: FocusPane,
    pub files_visible: bool,
    pub overlay: Option<OverlayView>,
    pub commands: Seq<BindingView>,
    pub keybinds: KeybindMap,
    pub theme: ThemeName,
    pub effects: Seq<EffectView>,
    pub sidebar_scroll: int,
    pub collapsed: Set<Seq<char>>,
    pub cursor: Option<TargetView>,
    pub viewport: ViewportView,
    pub render: RenderView,
    pub selection: SelectionView,
    pub click: Option<ClickView>,
    pub drag: Option<DiffScrollbarDrag>,
    pub reviewed: Set<Seq<char>>,
}

impl View for App {
    type V = AppView;

    open spec fn view(&self) -> AppView {
        AppView {
            source: self.source,
            changeset: self.changeset@,
            live_error: text_option(self.live_error),
            live_notice: text_option(self.live_notice),
            selected: self.selected_file_index as int,
            pane: self.diff_pane@,
            focus: self.focus,
            files_visible: self.files_panel_visible,
            overlay: overlay_view(self.overlay),
            commands: binding_views(self.custom_commands@),
            keybinds: self.keybinds,
            theme: self.theme,
            effects: effect_views(self.effects@),
            sidebar_scroll: self.sidebar_scroll as int,
            collapsed: self.collapsed_tree_dirs@,
            cursor: target_option(self.sidebar_cursor_target),
            viewport: self.viewport@,
            render: self.diff_render@,
            selection: self.text_selection@,
            click: click_view(self.pending_left_click),
            drag: self.diff_scrollbar_drag,
            reviewed: self.reviewed_files@,
        }
    }
}

impl AppView {
    /// The state in which a session starts.
    pub open spec fn start(
        source: ReviewSource,
        changeset: ChangesetView,
        theme: ThemeName,
        commands: Seq<BindingView>,
        keybinds: KeybindMap,
    ) -> AppView {
        AppView {
            source,
            changeset,
            live_error: None,
            live_notice: None,
            selected: 0,
            pane: PaneView::start(changeset),
            focus: FocusPane::Sidebar,
            files_visible: true,
            overlay: None,
            commands,
            keybinds,
            theme,
            effects: seq![],
            sidebar_scroll: 0,
            collapsed: Set::empty(),
            cursor: None,
            viewport: ViewportView {
                diff_view_height: 1,
                sidebar_view_height: 1,
                sidebar_area: None,
                diff_area: None,
                diff_scrollbar: None,
                diff_status_rows: 0,
                sidebar_row_targets: seq![],
            },
            render: RenderView::empty(changeset.files.len()),
            selection: SelectionView::initial(),
            click: None,
            drag: None,
            reviewed: Set::empty(),
        }
    }

    pub open spec fn files(self) -> Seq<FileView> {
        self.changeset.files
    }

    /// The selected file.
    pub open spec fn file(self) -> Option<FileView> {
        if 0 <= self.selected < self.files().len() {
            Some(self.files()[self.selected])
        } else {
            None
        }
    }

    /// Whether a file is selected, if there is any.
    pub open spec fn selects_a_file(self) -> bool {
        self.files().len() > 0 ==> self.selected < self.files().len()
    }

    /// Whether the worktree can be changed.
    pub open spec fn can_mutate(self) -> bool {
        self.source is Worktree
    }

    pub open spec fn context(self) -> PaneContext {
        PaneContext {
            render: self.render,
            height: self.viewport.diff_view_height,
            file_index: self.selected,
            file: self.file(),
        }
    }

    pub open spec fn focused(self) -> FocusView {
        FocusView {
            files: self.files(),
            selected: self.selected,
            hunk: self.pane.hunk,
            focus: self.focus,
            files_visible: self.files_visible,
        }
    }

    /// The last scroll offset of the diff, by the rows that are known and by the
    /// scrollbar.
    pub open spec fn max_scroll(self) -> int {
        match self.file() {
            Some(file) => greatest(
                self.render.max_scroll(
                    self.selected,
                    Some(file.id),
                    least(file.row_count() as int, usize::MAX as int),
                    self.viewport.diff_view_height,
                ),
                match self.viewport.diff_scrollbar {
                    Some(bar) if bar.file_index == self.selected && bar.file_id == file.id =>
                        bar.max_scroll(),
                    _ => 0,
                },
            ),
            None => self.render.max_scroll(
                self.selected,
                None,
                0,
                self.viewport.diff_view_height,
            ),
        }
    }

    /// With scroll offsets and the selected hunk within bounds.
    pub open spec fn bounded(self) -> AppView {
        AppView {
            pane: self.pane.bounded(self.file(), self.max_scroll()),
            sidebar_scroll: if self.files().len() == 0 { 0 } else { self.sidebar_scroll },
            ..self
        }
    }

    /// With an error shown.
    pub open spec fn failed(self, message: Seq<char>) -> AppView {
        AppView { live_error: Some(message), ..self }
    }

    /// With no text selected.
    pub open spec fn deselected(self) -> AppView {
        AppView {
            selection: SelectionView {
                drag: None,
                selected: None,
                clipboard_request: None,
                ..self.selection
            },
            ..self
        }
    }

    /// With an effect queued in the place of those of its kind.
    pub open spec fn queued(self, effect: EffectView) -> AppView {
        AppView { effects: effects::queued(self.effects, effect), ..self }
    }

    /// With nothing left of what was rendered.
    pub open spec fn rendered_anew(self) -> AppView {
        AppView {
            render: RenderView::empty(self.files().len()),
            viewport: ViewportView { diff_scrollbar: None, ..self.viewport },
            click: None,
            drag: None,
            ..self.deselected()
        }
    }

    pub open spec fn snapshot(self) -> SnapshotView {
        SnapshotView {
            file: match self.file() {
                Some(file) => Some(file.shown_path()),
                None => None,
            },
            file_index: self.selected,
            hunk: match (self.file(), self.pane.hunk) {
                (Some(file), Some(hunk)) => if hunk < file.hunks.len() {
                    Some(file.hunks[hunk].identity())
                } else {
                    None
                },
                _ => None,
            },
            hunk_index: self.pane.hunk,
            scroll: self.pane.scroll,
            target: self.cursor,
        }
    }

    /// With a newly loaded changeset.
    pub open spec fn reloaded(self, changeset: ChangesetView, preserve_scroll: bool) -> AppView {
        let place = self.snapshot().planned(changeset.files, preserve_scroll);
        AppView {
            changeset,
            live_error: None,
            overlay: if self.overlay is Some && self.overlay->0 is Discard {
                None
            } else {
                self.overlay
            },
            selected: place.file_index,
            cursor: place.target,
            pane: PaneView {
                scroll: place.scroll,
                hunk: place.hunk_index,
                search: self.pane.search.invalidated(),
            },
            ..self
        }.rendered_anew().bounded()
    }

    /// The effects that are due: what was queued, and the copy of the selected text
    /// unless another text is to be copied.
    pub open spec fn due_effects(self) -> Seq<EffectView> {
        match self.selection.clipboard_request {
            Some(text) if !copies(self.effects) => self.effects.push(
                EffectView::CopyToClipboard(
                    ClipboardView { text, success_message: "copied selected text"@ },
                ),
            ),
            _ => self.effects,
        }
    }
}

/// A reload leaves a file selected where there are files, scrolled no further than its
/// last page, and closes a question about a discard.
pub proof fn reload_keeps_a_file_selected(
    app: AppView,
    changeset: ChangesetView,
    preserve_scroll: bool,
)
    requires
        0 <= app.selected,
        app.pane.hunk is Some ==> 0 <= app.pane.hunk->0,
    ensures
        app.reloaded(changeset, preserve_scroll).selects_a_file(),
        app.reloaded(changeset, preserve_scroll).pane.scroll <= app.reloaded(
            changeset,
            preserve_scroll,
        ).max_scroll(),
        app.reloaded(changeset, preserve_scroll).discard_question() is None,
        app.reloaded(changeset, preserve_scroll).live_error is None,
{
    review_session::reload_selects_what_exists(app.snapshot(), changeset.files, preserve_scroll);
}

/// Whether any effect copies to the clipboard.
pub open spec fn copies(effects: Seq<EffectView>) -> bool {
    exists|i: int| 0 <= i < effects.len() && (#[trigger] effects[i]) is CopyToClipboard
}

pub fn file_at(changeset: &Changeset, index: usize) -> (file: Option<&DiffFile>)
    ensures
        match file {
            Some(found) => index < changeset@.files.len() && found@ == changeset@.files[
                index as int
            ],
            None => index >= changeset@.files.len(),
        },
{
    if index < changeset.files.len() {
        assert(changeset@.files[index as int] == changeset.files@[index as int]@);
        Some(&changeset.files[index])
    } else {
        None
    }
}

impl App {
    /// Rendered rows are counted, and the active search match is one of the matches.
    pub open spec fn wf(self) -> bool {
        self.diff_render.wf() && self.diff_pane.wf()
    }

    pub fn with_config(review: LoadedReview, config: AppConfig) -> (app: Self)
        ensures
            app.wf(),
            app@ == AppView::start(
                review.source,
                review.changeset@,
                config.theme,
                binding_views(config.commands@),
                config.keybinds,
            ),
    {
        let diff_pane = DiffPaneState::new(&review.changeset);
        let diff_render = DiffRenderState::new(review.changeset.files.len());
        let app = App {
            source: review.source,
            changeset: review.changeset,
            live_error: None,
            live_notice: None,
            selected_file_index: 0,
            diff_pane,
            focus: FocusPane::Sidebar,
            files_panel_visible: true,
            overlay: None,
            custom_commands: config.commands,
            keybinds: config.keybinds,
            theme: config.theme,
            effects: Vec::new(),
            sidebar_scroll: 0,
            collapsed_tree_dirs: PathSet::new(),
            sidebar_cursor_target: None,
            viewport: RenderedViewport::new(),
            diff_render,
            text_selection: TextSelection::default(),
            pending_left_click: None,
            diff_scrollbar_drag: None,
            reviewed_files: PathSet::new(),
        };
        assert(effect_views(app.effects@) =~= seq![]);
        app
    }

    pub fn begin_render_frame(&mut self)
        ensures
            final(self)@ == (AppView {
                viewport: ViewportView {
                    sidebar_area: None,
                    diff_area: None,
                    diff_scrollbar: None,
                    sidebar_row_targets: seq![],
                    ..old(self)@.viewport
                },
                selection: SelectionView { lines: seq![], ..old(self)@.selection },
                ..old(self)@
            }),
            old(self).wf() ==> final(self).wf(),
    {
        self.viewport.begin_frame();
        self.text_selection.begin_frame();
    }

    pub fn files_panel_visible(&self) -> (visible: bool)
        ensures
            visible == self@.files_visible,
    {
        self.files_panel_visible
    }

    pub fn focus(&self) -> (focus: FocusPane)
        ensures
            focus == self@.focus,
    {
        self.focus
    }

    pub fn theme(&self) -> (theme: Theme)
        ensures
            theme == self@.theme.palette(),
    {
        self.theme.theme()
    }

    pub fn keybinds(&self) -> (keybinds: KeybindMap)
        ensures
            keybinds == self@.keybinds,
    {
        self.keybinds
    }

    /// Whether files and hunks can be staged and discarded.
    pub fn can_mutate(&self) -> (can: bool)
        ensures
            can == self@.can_mutate(),
    {
        self.source.has_worktree_mutations()
    }

    pub fn selected_file(&self) -> (file: Option<&DiffFile>)
        ensures
            diff_pane::file_option(file) == self@.file(),
    {
        file_at(&self.changeset, self.selected_file_index)
    }

    pub fn selected_hunk(&self) -> (hunk: Option<&DiffHunk>)
        ensures
            match hunk {
                Some(found) => self@.file() is Some && self@.pane.hunk is Some
                    && self@.pane.hunk->0 < self@.file()->0.hunks.len() && found@
                    == self@.file()->0.hunks[self@.pane.hunk->0],
                None => self@.file() is None || self@.pane.hunk is None || self@.pane.hunk->0
                    >= self@.file()->0.hunks.len(),
            },
    {
        self.diff_pane.selected_hunk(self.selected_file())
    }

    pub fn focused_review_target(&self) -> (target: FocusedReviewTarget<'_>)
        ensures
            target@ == self@.focused(),
    {
        FocusedReviewTarget::new(
            &self.changeset.files,
            self.selected_file_index,
            self.diff_pane.selected_hunk_index(),
            self.focus,
            self.files_panel_visible,
        )
    }

    /// The last scroll offset of the diff.
    pub fn max_scroll(&self) -> (scroll: usize)
        requires
            self.wf(),
        ensures
            scroll == self@.max_scroll(),
    {
        let height: usize = self.viewport.diff_view_height();
        match self.selected_file() {
            Some(file) => {
                let rendered: usize = self.diff_render.max_scroll(
                    self.selected_file_index,
                    Some(file.id.as_str()),
                    file.line_count(),
                    height,
                );
                let by_bar: usize = self.viewport.diff_scrollbar_max_scroll(
                    self.selected_file_index,
                    file.id.as_str(),
                );
                if rendered >= by_bar { rendered } else { by_bar }
            },
            None => self.diff_render.max_scroll(self.selected_file_index, None, 0, height),
        }
    }

    pub fn ensure_scroll_bounds(&mut self)
        requires
            old(self).wf(),
        ensures
            final(self)@ == old(self)@.bounded(),
            final(self).wf(),
    {
        let input = ViewportScrollInput {
            diff_scroll: self.diff_pane.scroll(),
            sidebar_scroll: self.sidebar_scroll,
            file_count: self.changeset.files.len(),
            diff_max_scroll: self.max_scroll(),
        };
        self.sidebar_scroll = self.diff_pane.ensure_bounds(
            file_at(&self.changeset, self.selected_file_index),
            &self.viewport,
            input,
        );
    }

    pub fn set_live_error(&mut self, error: String)
        ensures
            final(self)@ == (AppView {
                live_notice: None,
                live_error: Some(error@),
                ..old(self)@
            }),
            old(self).wf() ==> final(self).wf(),
    {
        self.live_notice = None;
        self.live_error = Some(error);
    }

    pub fn set_live_notice(&mut self, notice: String)
        ensures
            final(self)@ == (AppView {
                live_error: None,
                live_notice: Some(notice@),
                ..old(self)@
            }),
            old(self).wf() ==> final(self).wf(),
    {
        self.live_error = None;
        self.live_notice = Some(notice);
    }

    /// Hands out the effects that are due.
    pub fn take_effects(&mut self) -> (due: Vec<AppEffect>)
        ensures
            effect_views(due@) == old(self)@.due_effects(),
            final(self)@ == (AppView {
                effects: seq![],
                selection: if copies(old(self)@.effects) {
                    old(self)@.selection
                } else {
                    SelectionView { clipboard_request: None, ..old(self)@.selection }
                },
                ..old(self)@
            }),
            old(self).wf() ==> final(self).wf(),
    {
        let mut has_clipboard_effect = false;
        let mut i: usize = 0;
        let ghost views = effect_views(self.effects@);
        while i < self.effects.len()
            invariant
                i <= self.effects@.len(),
                self@ == old(self)@,
                self.diff_render == old(self).diff_render,
                self.diff_pane == old(self).diff_pane,
                views == effect_views(self.effects@),
                has_clipboard_effect ==> copies(views),
                !has_clipboard_effect ==> forall|j: int|
                    0 <= j < i ==> !((#[trigger] views[j]) is CopyToClipboard),
            decreases self.effects@.len() - i,
        {
            assert(views[i as int] == self.effects@[i as int]@);
            if matches!(self.effects[i], AppEffect::CopyToClipboard(_)) {
                has_clipboard_effect = true;
            }
            i = i + 1;
        }
        let mut due: Vec<AppEffect> = Vec::new();
        core::mem::swap(&mut due, &mut self.effects);
        assert(effect_views(self.effects@) =~= seq![]);
        if !has_clipboard_effect {
            if let Some(text) = self.text_selection.take_clipboard_request() {
                let effect = AppEffect::CopyToClipboard(
                    ClipboardRequest::new(text, "copied selected text"),
                );
                due.push(effect);
                assert(effect_views(due@) =~= views.push(effect@));
            }
        }
        due
    }

    /// Replaces the changeset by one that was loaded again.
    pub fn apply_reloaded_changeset(&mut self, changeset: Changeset, preserve_scroll: bool)
        requires
            old(self).wf(),
        ensures
            final(self)@ == old(self)@.reloaded(changeset@, preserve_scroll),
            final(self).wf(),
    {
        let snapshot = ReviewSessionSnapshot::capture(
            self.selected_file(),
            self.selected_file_index,
            self.selected_hunk(),
            self.diff_pane.selected_hunk_index(),
            self.diff_pane.scroll(),
            match &self.sidebar_cursor_target {
                Some(target) => Some(target.clone()),
                None => None,
            },
        );
        assert(snapshot@ == self@.snapshot());
        let replacement = ReviewSessionReplacement::plan(snapshot, changeset, preserve_scroll);
        self.changeset = replacement.changeset;
        self.live_error = None;
        if matches!(self.overlay, Some(Overlay::Discard(_))) {
            self.overlay = None;
        }
        self.selected_file_index = replacement.selected_file_index;
        self.sidebar_cursor_target = replacement.sidebar_target;
        self.diff_pane.set_selected_hunk_index(replacement.selected_hunk_index);
        self.diff_pane.set_scroll(replacement.diff_scroll);
        self.diff_pane.invalidate_search_matches();
        self.clear_render_caches();
        self.ensure_scroll_bounds();
    }

    fn clear_render_caches(&mut self)
        requires
            old(self).wf(),
        ensures
            final(self)@ == old(self)@.rendered_anew(),
            final(self).wf(),
    {
        self.diff_render.clear(self.changeset.files.len());
        self.viewport.clear_diff_geometry();
        self.text_selection.clear();
        self.pending_left_click = None;
        self.diff_scrollbar_drag = None;
    }
}

} // verus!
