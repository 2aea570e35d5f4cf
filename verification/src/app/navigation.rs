//! Moves between panes, files, folders, hunks and rows.

use vstd::prelude::*;

use crate::app::diff_pane::PaneView;
use crate::app::{file_at, App, AppView, FocusPane};
use crate::rows::sidebar::{
    target_views, visible_sidebar_targets, SidebarRowTarget, TargetView,
};
use crate::rows::tree::{review_entries, EntryView};
use crate::scroll_text::{least, VerticalDirection};
use crate::text::same;

verus! {

/// A set with an element added, or taken out where it was in.
pub open spec fn toggled(set: Set<Seq<char>>, element: Seq<char>) -> Set<Seq<char>> {
    if set.contains(element) { set.remove(element) } else { set.insert(element) }
}

/// The first position of a target from one on.
pub open spec fn position_of(targets: Seq<TargetView>, target: TargetView, from: int) -> Option<int>
    decreases targets.len() - from,
{
    if from >= targets.len() {
        None
    } else if targets[from] == target {
        Some(from)
    } else {
        position_of(targets, target, from + 1)
    }
}

/// The first position from one on of a file behind the selected one, else the last.
pub open spec fn position_behind(targets: Seq<TargetView>, selected: int, from: int) -> int
    decreases targets.len() - from,
{
    if from >= targets.len() {
        targets.len() - 1
    } else {
        match targets[from] {
            TargetView::File(index) if index > selected => from,
            _ => position_behind(targets, selected, from + 1),
        }
    }
}

/// The last position among the first `n` of a file before the selected one, else the
/// first.
pub open spec fn position_before(targets: Seq<TargetView>, selected: int, n: int) -> int
    decreases n,
{
    if n <= 0 {
        0
    } else {
        match targets[n - 1] {
            TargetView::File(index) if index < selected => n - 1,
            _ => position_before(targets, selected, n - 1),
        }
    }
}

/// Where the cursor goes when it is on none of the targets.
pub open spec fn fallback_position(
    targets: Seq<TargetView>,
    selected: int,
    direction: VerticalDirection,
) -> int {
    match direction {
        VerticalDirection::Down => position_behind(targets, selected, 0),
        VerticalDirection::Up => position_before(targets, selected, targets.len() as int),
    }
}

impl AppView {
    pub open spec fn focus_toggled(self) -> AppView {
        AppView {
            focus: if self.files_visible && self.focus == FocusPane::Diff {
                FocusPane::Sidebar
            } else {
                FocusPane::Diff
            },
            ..self
        }
    }

    /// With the files panel shown and focused, or hidden.
    pub open spec fn files_toggled(self) -> AppView {
        if self.files_visible {
            AppView { files_visible: false, cursor: None, focus: FocusPane::Diff, ..self }
        } else {
            AppView { files_visible: true, focus: FocusPane::Sidebar, ..self }
        }
    }

    /// With a folder collapsed or expanded.
    pub open spec fn folder_toggled(self, path: Seq<char>) -> AppView {
        AppView { collapsed: toggled(self.collapsed, path), ..self }
    }

    /// With the selected file marked reviewed, or no longer.
    pub open spec fn reviewed_toggled(self) -> AppView {
        match self.file() {
            Some(file) => AppView {
                reviewed: toggled(self.reviewed, file.shown_path()),
                ..self
            },
            None => self,
        }
    }

    /// With a file selected, as far as there is one.
    pub open spec fn file_selected(self, index: int) -> AppView {
        if self.files().len() == 0 {
            self
        } else {
            let selected = least(index, self.files().len() - 1);
            AppView {
                selected,
                cursor: Some(TargetView::File(selected)),
                pane: self.pane.on_file(Some(self.files()[selected])),
                ..self
            }
        }
    }

    /// The files and folders of the files panel.
    pub open spec fn sidebar_targets(self) -> Seq<TargetView> {
        review_entries(self.files(), self.collapsed).map_values(|entry: EntryView| entry.target())
    }

    /// The file or folder that the cursor of the files panel is on.
    pub open spec fn cursor_target(self) -> Option<TargetView> {
        match self.cursor {
            Some(target) => Some(target),
            None => if self.files().len() > 0 {
                Some(TargetView::File(self.selected))
            } else {
                None
            },
        }
    }

    /// The position that the cursor of the files panel moves to.
    pub open spec fn next_position(self, direction: VerticalDirection, amount: int) -> int {
        let targets = self.sidebar_targets();
        let current = match self.cursor_target() {
            Some(target) => position_of(targets, target, 0),
            None => None,
        };
        match current {
            Some(position) => least(direction.shifted(position, amount), targets.len() - 1),
            None => fallback_position(targets, self.selected, direction),
        }
    }

    /// With the cursor of the files panel on a target, and its file selected.
    pub open spec fn cursor_on(self, target: TargetView) -> AppView {
        let marked = AppView { cursor: Some(target), ..self };
        match target {
            TargetView::File(index) => marked.file_selected(index),
            TargetView::Folder(_) => marked,
        }
    }

    /// With the cursor of the files panel moved over some targets.
    pub open spec fn cursor_moved(self, direction: VerticalDirection, amount: int) -> AppView {
        if self.sidebar_targets().len() == 0 {
            self
        } else {
            self.cursor_on(self.sidebar_targets()[self.next_position(direction, amount)])
        }
    }

    /// With the diff scrolled by some rows.
    pub open spec fn diff_moved(self, direction: VerticalDirection, amount: int) -> AppView {
        AppView { pane: self.pane.moved(direction, amount, self.context()), ..self }
    }

    pub open spec fn diff_paged(self, direction: VerticalDirection) -> AppView {
        self.diff_moved(direction, self.viewport.diff_view_height)
    }

    pub open spec fn diff_at(self, row: int) -> AppView {
        AppView { pane: self.pane.at_row(row, self.context()), ..self }
    }

    pub open spec fn diff_at_bottom(self) -> AppView {
        AppView { pane: self.pane.at_bottom(self.file()), ..self }
    }

    /// Moved by one in the focused pane.
    pub open spec fn moved(self, direction: VerticalDirection) -> AppView {
        match self.focus {
            FocusPane::Sidebar => self.cursor_moved(direction, 1),
            FocusPane::Diff => self.diff_moved(direction, 1),
        }
    }

    /// On the next or previous match or hunk.
    pub open spec fn jumped(self, direction: VerticalDirection) -> AppView {
        AppView { pane: self.pane.jumped(direction, self.context()), ..self }
    }

    pub open spec fn search_opened(self) -> AppView {
        AppView {
            focus: FocusPane::Diff,
            pane: PaneView { search: self.pane.search.prompt_opened(), ..self.pane },
            ..self
        }
    }

    pub open spec fn search_cleared(self) -> AppView {
        AppView {
            pane: PaneView { search: self.pane.search.cleared(), ..self.pane },
            ..self
        }
    }
}

fn same_target(a: &SidebarRowTarget, b: &SidebarRowTarget) -> (equal: bool)
    ensures
        equal == (a@ == b@),
{
    match (a, b) {
        (SidebarRowTarget::File(i), SidebarRowTarget::File(j)) => *i == *j,
        (SidebarRowTarget::Folder(p), SidebarRowTarget::Folder(q)) => same(
            p.as_str(),
            q.as_str(),
        ),
        _ => false,
    }
}

fn find_target(targets: &Vec<SidebarRowTarget>, target: &SidebarRowTarget) -> (position: Option<
    usize,
>)
    ensures
        crate::diff_render::int_option(position) == position_of(
            target_views(targets@),
            target@,
            0,
        ),
        position is Some ==> position->0 < targets@.len(),
{
    let mut i: usize = 0;
    while i < targets.len()
        invariant
            i <= targets@.len(),
            position_of(target_views(targets@), target@, 0) == position_of(
                target_views(targets@),
                target@,
                i as int,
            ),
        decreases targets@.len() - i,
    {
        assert(target_views(targets@)[i as int] == targets@[i as int]@);
        if same_target(&targets[i], target) {
            return Some(i);
        }
        i = i + 1;
    }
    None
}

#[verifier::loop_isolation(false)]
fn fallback_sidebar_target_position(
    targets: &Vec<SidebarRowTarget>,
    selected_file_index: usize,
    direction: VerticalDirection,
) -> (position: usize)
    requires
        targets@.len() > 0,
    ensures
        position == fallback_position(
            target_views(targets@),
            selected_file_index as int,
            direction,
        ),
        position < targets@.len(),
{
    let ghost views = target_views(targets@);
    match direction {
        VerticalDirection::Down => {
            let mut i: usize = 0;
            while i < targets.len()
                invariant
                    i <= targets@.len(),
                    views == target_views(targets@),
                    position_behind(views, selected_file_index as int, 0) == position_behind(
                        views,
                        selected_file_index as int,
                        i as int,
                    ),
                decreases targets@.len() - i,
            {
                assert(views[i as int] == targets@[i as int]@);
                if let SidebarRowTarget::File(index) = &targets[i] {
                    if *index > selected_file_index {
                        return i;
                    }
                }
                i = i + 1;
            }
            targets.len() - 1
        },
        VerticalDirection::Up => {
            let mut n: usize = targets.len();
            while n > 0
                invariant
                    n <= targets@.len(),
                    views == target_views(targets@),
                    position_before(
                        views,
                        selected_file_index as int,
                        views.len() as int,
                    ) == position_before(views, selected_file_index as int, n as int),
                decreases n,
            {
                assert(views[n - 1] == targets@[n - 1]@);
                if let SidebarRowTarget::File(index) = &targets[n - 1] {
                    if *index < selected_file_index {
                        return n - 1;
                    }
                }
                n = n - 1;
            }
            0
        },
    }
}

impl App {
    pub fn toggle_focus(&mut self)
        ensures
            final(self)@ == old(self)@.focus_toggled(),
            old(self).wf() ==> final(self).wf(),
    {
        if !self.files_panel_visible {
            self.focus = FocusPane::Diff;
            return;
        }
        self.focus = match self.focus {
            FocusPane::Sidebar => FocusPane::Diff,
            FocusPane::Diff => FocusPane::Sidebar,
        };
    }

    pub fn toggle_files_panel(&mut self)
        ensures
            final(self)@ == old(self)@.files_toggled(),
            old(self).wf() ==> final(self).wf(),
    {
        self.files_panel_visible = !self.files_panel_visible;
        if !self.files_panel_visible {
            self.sidebar_cursor_target = None;
        }
        self.focus = if self.files_panel_visible { FocusPane::Sidebar } else { FocusPane::Diff };
    }

    pub fn toggle_tree_folder(&mut self, path: &str)
        ensures
            final(self)@ == old(self)@.folder_toggled(path@),
            old(self).wf() ==> final(self).wf(),
    {
        if !self.collapsed_tree_dirs.insert(path) {
            self.collapsed_tree_dirs.remove(path);
            assert(old(self)@.collapsed.insert(path@).remove(path@) =~= old(
                self,
            )@.collapsed.remove(path@));
        }
    }

    pub fn toggle_selected_file_reviewed(&mut self)
        ensures
            final(self)@ == old(self)@.reviewed_toggled(),
            old(self).wf() ==> final(self).wf(),
    {
        let path = match self.selected_file() {
            Some(file) => file.display_path().to_owned(),
            None => {
                return;
            },
        };
        if !self.reviewed_files.insert(path.as_str()) {
            self.reviewed_files.remove(path.as_str());
            assert(old(self)@.reviewed.insert(path@).remove(path@) =~= old(self)@.reviewed.remove(
                path@,
            ));
        }
    }

    pub fn is_selected_file_reviewed(&self) -> (reviewed: bool)
        ensures
            reviewed == (self@.file() is Some && self@.reviewed.contains(
                self@.file()->0.shown_path(),
            )),
    {
        match self.selected_file() {
            Some(file) => self.reviewed_files.contains(file.display_path()),
            None => false,
        }
    }

    pub fn select_file(&mut self, index: usize)
        ensures
            final(self)@ == old(self)@.file_selected(index as int),
            old(self).wf() ==> final(self).wf(),
    {
        if self.changeset.files.len() == 0 {
            return;
        }
        let last: usize = self.changeset.files.len() - 1;
        self.selected_file_index = if index < last { index } else { last };
        self.sidebar_cursor_target = Some(SidebarRowTarget::File(self.selected_file_index));
        self.diff_pane.select_file(file_at(&self.changeset, self.selected_file_index));
    }

    pub fn move_sidebar_cursor_by(&mut self, direction: VerticalDirection, amount: usize)
        ensures
            final(self)@ == old(self)@.cursor_moved(direction, amount as int),
            old(self).wf() ==> final(self).wf(),
    {
        let targets = visible_sidebar_targets(&self.changeset.files, &self.collapsed_tree_dirs);
        assert(target_views(targets@) == self@.sidebar_targets());
        if targets.len() == 0 {
            return;
        }
        let current: Option<usize> = match self.current_sidebar_target() {
            Some(target) => find_target(&targets, &target),
            None => None,
        };
        let position: usize = match current {
            Some(current) => direction.shift_clamped(current, amount, targets.len() - 1),
            None => fallback_sidebar_target_position(
                &targets,
                self.selected_file_index,
                direction,
            ),
        };
        assert(target_views(targets@)[position as int] == targets@[position as int]@);
        let target = targets[position].clone();
        self.apply_sidebar_cursor_target(target);
    }

    fn current_sidebar_target(&self) -> (target: Option<SidebarRowTarget>)
        ensures
            crate::app::review_session::target_option(target) == self@.cursor_target(),
    {
        match &self.sidebar_cursor_target {
            Some(target) => Some(target.clone()),
            None => if self.changeset.files.len() > 0 {
                Some(SidebarRowTarget::File(self.selected_file_index))
            } else {
                None
            },
        }
    }

    fn apply_sidebar_cursor_target(&mut self, target: SidebarRowTarget)
        ensures
            final(self)@ == old(self)@.cursor_on(target@),
            old(self).wf() ==> final(self).wf(),
    {
        match target {
            SidebarRowTarget::File(index) => {
                self.sidebar_cursor_target = Some(SidebarRowTarget::File(index));
                self.select_file(index);
            },
            SidebarRowTarget::Folder(path) => {
                self.sidebar_cursor_target = Some(SidebarRowTarget::Folder(path));
            },
        }
    }

    pub fn scroll_diff_page(&mut self, direction: VerticalDirection)
        ensures
            final(self)@ == old(self)@.diff_paged(direction),
            old(self).wf() ==> final(self).wf(),
    {
        self.diff_pane.scroll_page(
            direction,
            &self.viewport,
            &self.diff_render,
            self.selected_file_index,
            file_at(&self.changeset, self.selected_file_index),
        );
    }

    pub fn scroll_diff_by(&mut self, direction: VerticalDirection, amount: usize)
        ensures
            final(self)@ == old(self)@.diff_moved(direction, amount as int),
            old(self).wf() ==> final(self).wf(),
    {
        self.diff_pane.scroll_by(
            direction,
            amount,
            &self.viewport,
            &self.diff_render,
            self.selected_file_index,
            file_at(&self.changeset, self.selected_file_index),
        );
    }

    pub fn scroll_diff_to(&mut self, scroll: usize)
        ensures
            final(self)@ == old(self)@.diff_at(scroll as int),
            old(self).wf() ==> final(self).wf(),
    {
        self.diff_pane.scroll_to(
            scroll,
            &self.viewport,
            &self.diff_render,
            self.selected_file_index,
            file_at(&self.changeset, self.selected_file_index),
        );
    }

    pub fn scroll_diff_to_top(&mut self)
        ensures
            final(self)@ == old(self)@.diff_at(0),
            old(self).wf() ==> final(self).wf(),
    {
        self.diff_pane.scroll_to_top(
            &self.viewport,
            &self.diff_render,
            self.selected_file_index,
            file_at(&self.changeset, self.selected_file_index),
        );
    }

    pub fn scroll_diff_to_bottom(&mut self)
        ensures
            final(self)@ == old(self)@.diff_at_bottom(),
            old(self).wf() ==> final(self).wf(),
    {
        self.diff_pane.scroll_to_bottom(file_at(&self.changeset, self.selected_file_index));
    }

    pub fn move_by(&mut self, direction: VerticalDirection)
        ensures
            final(self)@ == old(self)@.moved(direction),
            old(self).wf() ==> final(self).wf(),
    {
        match self.focus {
            FocusPane::Sidebar => self.move_sidebar_cursor_by(direction, 1),
            FocusPane::Diff => self.scroll_diff_by(direction, 1),
        }
    }

    pub fn jump_by(&mut self, direction: VerticalDirection)
        ensures
            final(self)@ == old(self)@.jumped(direction),
            old(self).wf() ==> final(self).wf(),
    {
        self.diff_pane.jump_by(
            direction,
            &self.viewport,
            &self.diff_render,
            self.selected_file_index,
            file_at(&self.changeset, self.selected_file_index),
        );
    }

    pub fn open_search_prompt(&mut self)
        ensures
            final(self)@ == old(self)@.search_opened(),
            old(self).wf() ==> final(self).wf(),
    {
        self.focus = FocusPane::Diff;
        self.diff_pane.open_search_prompt();
    }

    pub fn clear_search_query(&mut self)
        ensures
            final(self)@ == old(self)@.search_cleared(),
            old(self).wf() ==> final(self).wf(),
    {
        self.diff_pane.clear_search_query();
    }
}

/// Marking a file reviewed twice changes nothing.
pub proof fn reviewed_mark_toggles(app: AppView)
    ensures
        app.reviewed_toggled().reviewed_toggled() == app,
{
    if let Some(file) = app.file() {
        let path = file.shown_path();
        assert(toggled(toggled(app.reviewed, path), path) =~= app.reviewed);
    }
}

/// Collapsing a folder and expanding it again changes nothing.
pub proof fn folder_toggles(app: AppView, path: Seq<char>)
    ensures
        app.folder_toggled(path).folder_toggled(path) == app,
{
    assert(toggled(toggled(app.collapsed, path), path) =~= app.collapsed);
}

/// Reviewed marks go by the path that a file is shown under and survive reloads.
pub proof fn reviewed_marks_survive_reloads(
    app: AppView,
    changeset: crate::model::ChangesetView,
    preserve_scroll: bool,
)
    ensures
        app.reloaded(changeset, preserve_scroll).reviewed == app.reviewed,
{
}

} // verus!
