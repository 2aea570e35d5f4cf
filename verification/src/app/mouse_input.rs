//! Mouse events.

use vstd::prelude::*;

use crate::app::diff_pane::PaneView;
use crate::app::overlay::{Overlay, OverlayView};
use crate::app::{file_at, App, AppView, ClickView, FocusPane, PendingLeftClick};
use crate::diff_render::int_option;
use crate::input::{MouseButton, MouseEvent, MouseEventKind};
use crate::rows::sidebar::{SidebarRowTarget, TargetView};
use crate::scroll_text::{least, VerticalDirection};
use crate::selection::SelectionView;
use crate::viewport::DiffScrollbarDrag;

verus! {

pub const MOUSE_WHEEL_STEP: usize = 3;

impl AppView {
    /// The pane under a cell.
    pub open spec fn pane_at(self, column: int, row: int) -> Option<FocusPane> {
        if self.viewport.sidebar_area is Some && self.viewport.sidebar_area->0.holds(column, row) {
            Some(FocusPane::Sidebar)
        } else if self.viewport.diff_area is Some && self.viewport.diff_area->0.holds(column, row) {
            Some(FocusPane::Diff)
        } else {
            None
        }
    }

    /// The hunk under a cell of the diff pane.
    pub open spec fn hunk_under(self, column: int, row: int) -> Option<int> {
        match self.viewport.diff_row(column, row) {
            Some(visible) => if visible < self.viewport.diff_status_rows {
                None
            } else {
                self.context().hunk_at(
                    least(
                        self.pane.scroll + visible - self.viewport.diff_status_rows,
                        usize::MAX as int,
                    ),
                )
            },
            None => None,
        }
    }

    /// What a click on a cell selects.
    pub open spec fn click_at(self, column: int, row: int) -> Option<ClickView> {
        match self.viewport.target_at(column, row) {
            Some(target) => Some(ClickView::Sidebar { target }),
            None => if self.viewport.diff_area is Some && self.viewport.diff_area->0.holds(
                column,
                row,
            ) {
                Some(ClickView::Diff { hunk: self.hunk_under(column, row) })
            } else {
                None
            },
        }
    }

    /// Whether a cell is on the scrollbar of the diff.
    pub open spec fn on_scrollbar(self, column: int, row: int) -> bool {
        self.viewport.diff_scrollbar is Some && self.viewport.diff_scrollbar->0.area.holds(
            column,
            row,
        )
    }

    /// After a press of the left button: it holds the scrollbar, or begins what may be a
    /// click or a selection.
    pub open spec fn left_down(self, column: u16, row: u16) -> AppView {
        if self.on_scrollbar(column as int, row as int) {
            let bar = self.viewport.diff_scrollbar->0;
            let grip = bar.grip(row as int);
            AppView {
                click: None,
                focus: FocusPane::Diff,
                drag: Some(DiffScrollbarDrag { thumb_offset: grip as usize }),
                ..self
            }.deselected().diff_at(bar.dragged_scroll(row as int, grip))
        } else {
            AppView {
                drag: None,
                click: self.click_at(column as int, row as int),
                selection: self.selection.drag_begun(column, row),
                ..self
            }
        }
    }

    /// After a move with the left button down.
    pub open spec fn left_drag(self, column: u16, row: u16) -> AppView {
        match self.drag {
            Some(drag) => match self.viewport.diff_scrollbar {
                Some(bar) => AppView { focus: FocusPane::Diff, ..self }.diff_at(
                    bar.dragged_scroll(row as int, drag.thumb_offset as int),
                ),
                None => AppView { drag: None, ..self },
            },
            None => AppView { click: None, ..self }.drag_updated(column, row),
        }
    }

    pub open spec fn drag_updated(self, column: u16, row: u16) -> AppView {
        match self.selection.drag {
            Some(drag) => AppView {
                selection: SelectionView {
                    drag: Some(SelectionView::drag_to(drag, column, row)),
                    ..self.selection
                },
                ..self
            },
            None => self,
        }
    }

    /// Whether a drag that ends at a cell has selected text.
    pub open spec fn drag_selects(self, column: u16, row: u16) -> bool {
        match self.selection.drag {
            Some(drag) => SelectionView::drag_to(drag, column, row).moved,
            None => false,
        }
    }

    /// After the left button is let go: of the scrollbar, of a selection, or a click.
    pub open spec fn left_up(self, column: u16, row: u16) -> AppView {
        if self.drag is Some {
            AppView { drag: None, ..self }
        } else {
            let done = AppView {
                click: None,
                selection: self.selection.drag_finished(column, row),
                ..self
            };
            match self.click {
                Some(click) if !self.drag_selects(column, row) => done.clicked(click),
                _ => done,
            }
        }
    }

    /// After a click.
    pub open spec fn clicked(self, click: ClickView) -> AppView {
        match click {
            ClickView::Sidebar { target } => {
                let focused = AppView { focus: FocusPane::Sidebar, ..self };
                match target {
                    TargetView::File(index) => focused.file_selected(index),
                    TargetView::Folder(path) => focused.folder_toggled(path),
                }
            },
            ClickView::Diff { hunk } => AppView {
                focus: FocusPane::Diff,
                pane: match hunk {
                    Some(index) => PaneView { hunk: Some(index), ..self.pane }.centered(
                        self.context(),
                    ),
                    None => self.pane,
                },
                ..self
            },
        }
    }

    /// After a turn of the wheel over a cell.
    pub open spec fn wheeled(self, column: int, row: int, direction: VerticalDirection) -> AppView {
        let focus = match self.pane_at(column, row) {
            Some(focus) => focus,
            None => FocusPane::Diff,
        };
        let focused = AppView { focus, ..self };
        match focus {
            FocusPane::Sidebar => focused.cursor_moved(direction, MOUSE_WHEEL_STEP as int),
            FocusPane::Diff => focused.diff_moved(direction, MOUSE_WHEEL_STEP as int),
        }
    }

    pub open spec fn hovered(self, column: int, row: int) -> AppView {
        match self.pane_at(column, row) {
            Some(focus) => AppView { focus, ..self },
            None => self,
        }
    }

    /// After a mouse event over the text of an overlay.
    pub open spec fn text_mouse(self, mouse: MouseEvent) -> AppView {
        match mouse.kind {
            MouseEventKind::Down(MouseButton::Left) => AppView {
                click: None,
                selection: self.selection.drag_begun(mouse.column, mouse.row),
                ..self
            },
            MouseEventKind::Drag(MouseButton::Left) => self.drag_updated(mouse.column, mouse.row),
            MouseEventKind::Up(MouseButton::Left) => AppView {
                selection: self.selection.drag_finished(mouse.column, mouse.row),
                ..self
            },
            MouseEventKind::ScrollDown => self.deselected().overlay_scrolled(
                VerticalDirection::Down,
                MOUSE_WHEEL_STEP as int,
            ),
            MouseEventKind::ScrollUp => self.deselected().overlay_scrolled(
                VerticalDirection::Up,
                MOUSE_WHEEL_STEP as int,
            ),
            _ => self,
        }
    }

    /// After a mouse event while an overlay is open: only overlays with text to select
    /// hear it.
    pub open spec fn overlay_mouse(self, mouse: MouseEvent) -> AppView {
        match self.overlay {
            Some(OverlayView::Help { .. }) => self.text_mouse(mouse),
            Some(OverlayView::CommandOutput { .. }) => self.text_mouse(mouse),
            Some(OverlayView::AskAiOutput { .. }) => self.text_mouse(mouse),
            _ => self,
        }
    }

    /// After a mouse event over the diff view.
    pub open spec fn plain_mouse(self, mouse: MouseEvent) -> AppView {
        match mouse.kind {
            MouseEventKind::Down(MouseButton::Left) => self.left_down(mouse.column, mouse.row),
            MouseEventKind::Drag(MouseButton::Left) => self.left_drag(mouse.column, mouse.row),
            MouseEventKind::Up(MouseButton::Left) => self.left_up(mouse.column, mouse.row),
            MouseEventKind::ScrollDown => self.deselected().wheeled(
                mouse.column as int,
                mouse.row as int,
                VerticalDirection::Down,
            ),
            MouseEventKind::ScrollUp => self.deselected().wheeled(
                mouse.column as int,
                mouse.row as int,
                VerticalDirection::Up,
            ),
            MouseEventKind::Moved => self.hovered(mouse.column as int, mouse.row as int),
            _ => self,
        }
    }

    /// After a mouse event.
    pub open spec fn after_mouse(self, mouse: MouseEvent) -> AppView {
        if self.overlay is Some {
            self.overlay_mouse(mouse)
        } else {
            self.plain_mouse(mouse).bounded()
        }
    }
}

impl App {
    pub fn handle_mouse(&mut self, mouse: MouseEvent)
        requires
            old(self).wf(),
        ensures
            final(self)@ == old(self)@.after_mouse(mouse),
            final(self).wf(),
    {
        if self.overlay.is_some() {
            self.handle_overlay_mouse(mouse);
            return;
        }
        self.handle_plain_mouse(mouse);
        self.ensure_scroll_bounds();
    }

    fn handle_plain_mouse(&mut self, mouse: MouseEvent)
        requires
            old(self).wf(),
        ensures
            final(self)@ == old(self)@.plain_mouse(mouse),
            final(self).wf(),
    {
        match mouse.kind {
            MouseEventKind::Down(MouseButton::Left) => self.handle_left_down(
                mouse.column,
                mouse.row,
            ),
            MouseEventKind::Drag(MouseButton::Left) => self.handle_left_drag(
                mouse.column,
                mouse.row,
            ),
            MouseEventKind::Up(MouseButton::Left) => self.handle_left_up(mouse.column, mouse.row),
            MouseEventKind::ScrollDown => self.handle_wheel_after_clearing_selection(
                mouse.column,
                mouse.row,
                VerticalDirection::Down,
            ),
            MouseEventKind::ScrollUp => self.handle_wheel_after_clearing_selection(
                mouse.column,
                mouse.row,
                VerticalDirection::Up,
            ),
            MouseEventKind::Moved => self.handle_hover(mouse.column, mouse.row),
            _ => {},
        }
    }

    fn handle_overlay_mouse(&mut self, mouse: MouseEvent)
        ensures
            final(self)@ == old(self)@.overlay_mouse(mouse),
            old(self).wf() ==> final(self).wf(),
    {
        match self.overlay {
            Some(Overlay::Help { .. }) => self.handle_selectable_text_mouse(mouse),
            Some(Overlay::CommandOutput(_)) => self.handle_selectable_text_mouse(mouse),
            Some(Overlay::AskAiOutput(_)) => self.handle_selectable_text_mouse(mouse),
            _ => {},
        }
    }

    fn handle_selectable_text_mouse(&mut self, mouse: MouseEvent)
        ensures
            final(self)@ == old(self)@.text_mouse(mouse),
            old(self).wf() ==> final(self).wf(),
    {
        match mouse.kind {
            MouseEventKind::Down(MouseButton::Left) => {
                self.pending_left_click = None;
                self.text_selection.begin_drag(mouse.column, mouse.row);
            },
            MouseEventKind::Drag(MouseButton::Left) => {
                self.text_selection.update_drag(mouse.column, mouse.row);
            },
            MouseEventKind::Up(MouseButton::Left) => {
                self.text_selection.finish_drag(mouse.column, mouse.row);
            },
            MouseEventKind::ScrollDown => {
                self.text_selection.clear();
                self.scroll_overlay(VerticalDirection::Down, MOUSE_WHEEL_STEP);
            },
            MouseEventKind::ScrollUp => {
                self.text_selection.clear();
                self.scroll_overlay(VerticalDirection::Up, MOUSE_WHEEL_STEP);
            },
            _ => {},
        }
    }

    fn handle_wheel_after_clearing_selection(
        &mut self,
        column: u16,
        row: u16,
        direction: VerticalDirection,
    )
        ensures
            final(self)@ == old(self)@.deselected().wheeled(column as int, row as int, direction),
            old(self).wf() ==> final(self).wf(),
    {
        self.text_selection.clear();
        self.handle_wheel(column, row, direction);
    }

    pub fn handle_left_down(&mut self, column: u16, row: u16)
        ensures
            final(self)@ == old(self)@.left_down(column, row),
            old(self).wf() ==> final(self).wf(),
    {
        self.diff_scrollbar_drag = None;
        self.pending_left_click = None;
        match self.diff_scrollbar_drag_at(column, row) {
            Some((drag, scroll)) => {
                self.focus = FocusPane::Diff;
                self.text_selection.clear();
                self.diff_scrollbar_drag = Some(drag);
                self.scroll_diff_to(scroll);
            },
            None => {
                self.pending_left_click = self.pending_left_click_at(column, row);
                self.text_selection.begin_drag(column, row);
            },
        }
    }

    pub fn handle_left_up(&mut self, column: u16, row: u16)
        ensures
            final(self)@ == old(self)@.left_up(column, row),
            old(self).wf() ==> final(self).wf(),
    {
        if self.diff_scrollbar_drag.is_some() {
            self.diff_scrollbar_drag = None;
            return;
        }
        let mut click: Option<PendingLeftClick> = None;
        core::mem::swap(&mut click, &mut self.pending_left_click);
        if self.text_selection.finish_drag(column, row) {
            return;
        }
        if let Some(target) = click {
            self.apply_pending_left_click(target);
        }
    }

    fn apply_pending_left_click(&mut self, target: PendingLeftClick)
        ensures
            final(self)@ == old(self)@.clicked(target@),
            old(self).wf() ==> final(self).wf(),
    {
        match target {
            PendingLeftClick::Sidebar { target } => {
                self.focus = FocusPane::Sidebar;
                match target {
                    SidebarRowTarget::File(index) => self.select_file(index),
                    SidebarRowTarget::Folder(path) => self.toggle_tree_folder(path.as_str()),
                }
            },
            PendingLeftClick::Diff { hunk_index } => {
                self.focus = FocusPane::Diff;
                if hunk_index.is_some() {
                    self.diff_pane.set_selected_hunk_index(hunk_index);
                    self.diff_pane.center_selected_hunk(
                        &self.viewport,
                        &self.diff_render,
                        self.selected_file_index,
                        file_at(&self.changeset, self.selected_file_index),
                    );
                }
            },
        }
    }

    pub fn handle_left_drag(&mut self, column: u16, row: u16)
        ensures
            final(self)@ == old(self)@.left_drag(column, row),
            old(self).wf() ==> final(self).wf(),
    {
        match self.diff_scrollbar_drag {
            Some(drag) => {
                let scroll: Option<usize> = match self.viewport.diff_scrollbar() {
                    Some(scrollbar) => Some(scrollbar.scroll_for_drag(row, drag)),
                    None => None,
                };
                match scroll {
                    Some(scroll) => {
                        self.focus = FocusPane::Diff;
                        self.scroll_diff_to(scroll);
                    },
                    None => {
                        self.diff_scrollbar_drag = None;
                    },
                }
            },
            None => {
                self.pending_left_click = None;
                self.text_selection.update_drag(column, row);
            },
        }
    }

    fn pending_left_click_at(&self, column: u16, row: u16) -> (click: Option<PendingLeftClick>)
        ensures
            crate::app::click_view(click) == self@.click_at(column as int, row as int),
    {
        match self.viewport.sidebar_target_at(column, row) {
            Some(target) => Some(PendingLeftClick::Sidebar { target }),
            None => if self.viewport.is_diff_at(column, row) {
                Some(PendingLeftClick::Diff { hunk_index: self.diff_hunk_index_at(column, row) })
            } else {
                None
            },
        }
    }

    fn handle_hover(&mut self, column: u16, row: u16)
        ensures
            final(self)@ == old(self)@.hovered(column as int, row as int),
            old(self).wf() ==> final(self).wf(),
    {
        if let Some(focus) = self.pane_at(column, row) {
            self.focus = focus;
        }
    }

    fn handle_wheel(&mut self, column: u16, row: u16, direction: VerticalDirection)
        ensures
            final(self)@ == old(self)@.wheeled(column as int, row as int, direction),
            old(self).wf() ==> final(self).wf(),
    {
        let focus = match self.pane_at(column, row) {
            Some(focus) => focus,
            None => FocusPane::Diff,
        };
        self.focus = focus;
        match focus {
            FocusPane::Sidebar => self.move_sidebar_cursor_by(direction, MOUSE_WHEEL_STEP),
            FocusPane::Diff => self.scroll_diff_by(direction, MOUSE_WHEEL_STEP),
        }
    }

    fn pane_at(&self, column: u16, row: u16) -> (pane: Option<FocusPane>)
        ensures
            pane == self@.pane_at(column as int, row as int),
    {
        if self.viewport.is_sidebar_at(column, row) {
            Some(FocusPane::Sidebar)
        } else if self.viewport.is_diff_at(column, row) {
            Some(FocusPane::Diff)
        } else {
            None
        }
    }

    fn diff_hunk_index_at(&self, column: u16, row: u16) -> (hunk: Option<usize>)
        ensures
            int_option(hunk) == self@.hunk_under(column as int, row as int),
    {
        let visible_row: usize = match self.viewport.diff_row_at(column, row) {
            Some(row) => row,
            None => {
                return None;
            },
        };
        let status_rows: usize = self.viewport.diff_status_rows();
        if visible_row < status_rows {
            return None;
        }
        self.diff_pane.hunk_index_at_rendered_row(
            &self.viewport,
            &self.diff_render,
            self.selected_file_index,
            file_at(&self.changeset, self.selected_file_index),
            self.diff_pane.scroll().saturating_add(visible_row - status_rows),
        )
    }

    fn diff_scrollbar_drag_at(&self, column: u16, row: u16) -> (hit: Option<
        (DiffScrollbarDrag, usize),
    >)
        ensures
            match hit {
                Some((drag, scroll)) => {
                    let bar = self@.viewport.diff_scrollbar->0;
                    &&& self@.on_scrollbar(column as int, row as int)
                    &&& drag.thumb_offset == bar.grip(row as int)
                    &&& scroll == bar.dragged_scroll(row as int, bar.grip(row as int))
                },
                None => !self@.on_scrollbar(column as int, row as int),
            },
    {
        match self.viewport.diff_scrollbar() {
            Some(scrollbar) => match scrollbar.drag_at(column, row) {
                Some(drag) => Some((drag, scrollbar.scroll_for_drag(row, drag))),
                None => None,
            },
            None => None,
        }
    }
}

/// A mouse event leaves a file selected where there are files.
pub proof fn mouse_keeps_a_file_selected(app: AppView, mouse: MouseEvent)
    requires
        app.selects_a_file(),
    ensures
        app.after_mouse(mouse).selects_a_file(),
{
}

/// While a command runs the mouse does nothing.
pub proof fn running_command_blocks_the_mouse(app: AppView, mouse: MouseEvent)
    requires
        app.overlay is Some,
        app.overlay->0 is CommandRunning,
    ensures
        app.after_mouse(mouse) == app,
{
}

/// A press and release on the same cell of the files panel is a click: it selects the
/// file there, or collapses or expands the folder there.
pub proof fn click_selects_sidebar_row(app: AppView, column: u16, row: u16, target: TargetView)
    requires
        app.drag is None,
        !app.on_scrollbar(column as int, row as int),
        app.viewport.target_at(column as int, row as int) == Some(target),
    ensures
        ({
            let after = app.left_down(column, row).left_up(column, row);
            match target {
                TargetView::File(index) => after.selected == app.file_selected(index).selected
                    && after.focus == FocusPane::Sidebar,
                TargetView::Folder(path) => after.collapsed == app.folder_toggled(path).collapsed
                    && after.focus == FocusPane::Sidebar,
            }
        }),
{
    let pressed = app.left_down(column, row);
    assert(pressed.click == Some(ClickView::Sidebar { target }));
    match pressed.selection.drag {
        Some(drag) => {
            assert(drag.anchor == drag.cursor && !drag.moved);
            assert(!SelectionView::drag_to(drag, column, row).moved);
        },
        None => {},
    }
    assert(!pressed.drag_selects(column, row));
}

} // verus!
