//! Rules of the event loop: which changes reload the diff and when, and how the terminal
//! is set up and restored.

use vstd::prelude::*;

use crate::scroll_text::{greatest, least};
use crate::text::{pieces, same, split, texts, texts_push};

verus! {

/// Longest wait for an event, in milliseconds.
pub const EVENT_POLL_INTERVAL: u64 = 100;

/// Quiet time before changes reload the diff, in milliseconds.
pub const WORKTREE_RELOAD_DEBOUNCE: u64 = 250;

/// What has happened to a file.
#[derive(Debug, Clone, Copy, PartialEq, Eq, Structural)]
pub enum WorktreeEventKind {
    Any,
    Access,
    Create,
    Modify,
    Remove,
    Other,
}

impl WorktreeEventKind {
    pub open spec fn changes(self) -> bool {
        match self {
            WorktreeEventKind::Any | WorktreeEventKind::Create | WorktreeEventKind::Modify
            | WorktreeEventKind::Remove => true,
            WorktreeEventKind::Access | WorktreeEventKind::Other => false,
        }
    }
}

pub fn is_worktree_change_kind(kind: WorktreeEventKind) -> (changes: bool)
    ensures
        changes == kind.changes(),
{
    matches!(
        kind,
        WorktreeEventKind::Any
        | WorktreeEventKind::Create
        | WorktreeEventKind::Modify
        | WorktreeEventKind::Remove
    )
}

/// Whether a path starts at the root.
pub open spec fn is_absolute(path: Seq<char>) -> bool {
    path.len() > 0 && path[0] == '/'
}

/// The names on the first `n` pieces of a path: repeated separators and `.` do not count,
/// except a `.` at the start.
pub open spec fn names_among(parts: Seq<Seq<char>>, n: int) -> Seq<Seq<char>>
    decreases n,
{
    if n <= 0 {
        seq![]
    } else {
        let before = names_among(parts, n - 1);
        if parts[n - 1].len() == 0 || (parts[n - 1] == "."@ && n > 1) {
            before
        } else {
            before.push(parts[n - 1])
        }
    }
}

/// The names on a path.
pub open spec fn path_names(path: Seq<char>) -> Seq<Seq<char>> {
    names_among(pieces(path, '/'), pieces(path, '/').len() as int)
}

/// Whether a path lies at or below another.
pub open spec fn lies_below(path: Seq<char>, root: Seq<char>) -> bool {
    is_absolute(path) == is_absolute(root) && path_names(root).len() <= path_names(path).len()
        && path_names(path).take(path_names(root).len() as int) == path_names(root)
}

/// The names on a path below the root.
pub open spec fn names_below(path: Seq<char>, root: Seq<char>) -> Seq<Seq<char>> {
    path_names(path).skip(path_names(root).len() as int)
}

/// Whether names below `.git` are of a file that tells what is staged or checked out.
pub open spec fn names_git_state(names: Seq<Seq<char>>) -> bool {
    names.len() > 0 && (names[0] == "refs"@ || (names.len() == 1 && (names[0] == "index"@
        || names[0] == "HEAD"@ || names[0] == "packed-refs"@)))
}

/// Whether a change of a path can change the diff: of the files of Git, only a change of
/// what is staged or checked out does.
pub open spec fn relevant_path(path: Seq<char>, root: Seq<char>) -> bool {
    if lies_below(path, root) {
        let names = names_below(path, root);
        names.len() == 0 || names[0] != ".git"@ || names_git_state(names.skip(1))
    } else {
        true
    }
}

fn list_path_names(path: &str) -> (names: Vec<String>)
    ensures
        texts(names@) == path_names(path@),
{
    broadcast use texts_push;

    let parts = split(path, '/');
    let ghost all = texts(parts@);
    let mut names: Vec<String> = Vec::new();
    assert(texts(names@) =~= seq![]);
    let mut i: usize = 0;
    while i < parts.len()
        invariant
            i <= parts@.len(),
            all == texts(parts@),
            texts(names@) == names_among(all, i as int),
        decreases parts@.len() - i,
    {
        assert(all[i as int] == parts@[i as int]@);
        let part = parts[i].as_str();
        if !part.is_empty() && !(i > 0 && same(part, ".")) {
            names.push(part.to_owned());
        }
        i = i + 1;
    }
    names
}

fn starts_at_root(path: &str) -> (absolute: bool)
    ensures
        absolute == is_absolute(path@),
{
    !path.is_empty() && path.get_char(0) == '/'
}

pub fn is_relevant_worktree_path(path: &str, root: &str) -> (relevant: bool)
    ensures
        relevant == relevant_path(path@, root@),
{
    let names = list_path_names(path);
    let root_names = list_path_names(root);
    let ghost all = path_names(path@);
    let ghost top = path_names(root@);
    assert(texts(names@) == all && texts(root_names@) == top);
    assert(names@.len() == all.len() && root_names@.len() == top.len());
    if starts_at_root(path) != starts_at_root(root) || root_names.len() > names.len() {
        return true;
    }
    let mut i: usize = 0;
    while i < root_names.len()
        invariant
            i <= root_names@.len() <= names@.len(),
            texts(names@) == all,
            texts(root_names@) == top,
            all == path_names(path@),
            top == path_names(root@),
            forall|j: int| 0 <= j < i ==> #[trigger] all[j] == top[j],
        decreases root_names@.len() - i,
    {
        assert(all[i as int] == names@[i as int]@);
        assert(top[i as int] == root_names@[i as int]@);
        if !same(names[i].as_str(), root_names[i].as_str()) {
            assert(all.take(top.len() as int)[i as int] != top[i as int]);
            return true;
        }
        i = i + 1;
    }
    assert(all.take(top.len() as int) =~= top);
    let start: usize = root_names.len();
    let ghost below = names_below(path@, root@);
    assert(below =~= all.skip(start as int));
    if start == names.len() {
        return true;
    }
    assert(below[0] == names@[start as int]@);
    if !same(names[start].as_str(), ".git") {
        return true;
    }
    assert(below.skip(1) =~= all.skip(start + 1));
    is_relevant_git_metadata_path(&names, start + 1)
}

fn is_relevant_git_metadata_path(names: &Vec<String>, start: usize) -> (relevant: bool)
    requires
        start <= names@.len(),
    ensures
        relevant == names_git_state(texts(names@).skip(start as int)),
{
    let ghost rest = texts(names@).skip(start as int);
    if start == names.len() {
        return false;
    }
    assert(rest[0] == names@[start as int]@);
    let name = names[start].as_str();
    if same(name, "refs") {
        return true;
    }
    (same(name, "index") || same(name, "HEAD") || same(name, "packed-refs")) && start + 1
        == names.len()
}

/// Whether an event can change the diff: it changes a path that matters.
pub fn is_relevant_worktree_event(
    kind: WorktreeEventKind,
    paths: &Vec<String>,
    root: &str,
) -> (relevant: bool)
    ensures
        relevant == (kind.changes() && exists|i: int|
            0 <= i < paths@.len() && relevant_path((#[trigger] paths@[i])@, root@)),
{
    if !is_worktree_change_kind(kind) {
        return false;
    }
    let mut i: usize = 0;
    while i < paths.len()
        invariant
            i <= paths@.len(),
            kind.changes(),
            forall|j: int| 0 <= j < i ==> !relevant_path((#[trigger] paths@[j])@, root@),
        decreases paths@.len() - i,
    {
        if is_relevant_worktree_path(paths[i].as_str(), root) {
            return true;
        }
        i = i + 1;
    }
    false
}

/// When a reload is due. Times are in milliseconds on a clock that does not go back.
#[derive(Debug, Clone, Copy, PartialEq, Eq, Structural)]
pub struct ReloadTimer {
    pub deadline: Option<u64>,
}

impl ReloadTimer {
    /// The timer behind a change.
    pub open spec fn changed(self, now: u64) -> ReloadTimer {
        ReloadTimer { deadline: Some(least(now + WORKTREE_RELOAD_DEBOUNCE, u64::MAX as int) as u64) }
    }

    pub open spec fn is_due(self, now: u64) -> bool {
        self.deadline is Some && self.deadline->0 <= now
    }

    /// The timer behind a look at the time.
    pub open spec fn looked_at(self, now: u64) -> ReloadTimer {
        if self.is_due(now) { ReloadTimer { deadline: None } } else { self }
    }

    /// How long to wait for an event.
    pub open spec fn wait(self, now: u64) -> int {
        match self.deadline {
            Some(deadline) => least(greatest(deadline - now, 0), EVENT_POLL_INTERVAL as int),
            None => EVENT_POLL_INTERVAL as int,
        }
    }

    pub fn new() -> (timer: Self)
        ensures
            timer.deadline is None,
    {
        ReloadTimer { deadline: None }
    }

    /// Puts the reload off until changes have been quiet for a while.
    pub fn note_change(&mut self, now: u64)
        ensures
            final(self).deadline == Some(
                least(now + WORKTREE_RELOAD_DEBOUNCE, u64::MAX as int) as u64,
            ),
            *final(self) == old(self).changed(now),
    {
        self.deadline = Some(now.saturating_add(WORKTREE_RELOAD_DEBOUNCE));
    }

    /// Whether a reload is due now, which is then done with.
    pub fn take_due(&mut self, now: u64) -> (due: bool)
        ensures
            due == (old(self).deadline is Some && old(self).deadline->0 <= now),
            final(self).deadline == if due { None } else { old(self).deadline },
            due == old(self).is_due(now),
            *final(self) == old(self).looked_at(now),
    {
        match self.deadline {
            Some(deadline) => {
                if now < deadline {
                    return false;
                }
                self.deadline = None;
                true
            },
            None => false,
        }
    }

    /// How long to wait for an event.
    pub fn next_event_poll_interval(&self, now: u64) -> (wait: u64)
        ensures
            wait == (match self.deadline {
                Some(deadline) => least(
                    greatest(deadline - now, 0),
                    EVENT_POLL_INTERVAL as int,
                ),
                None => EVENT_POLL_INTERVAL as int,
            }),
            wait == self.wait(now),
    {
        match self.deadline {
            Some(deadline) => {
                let left: u64 = deadline.saturating_sub(now);
                if left < EVENT_POLL_INTERVAL { left } else { EVENT_POLL_INTERVAL }
            },
            None => EVENT_POLL_INTERVAL,
        }
    }
}

#[derive(Debug, Clone, Copy, PartialEq, Eq, Structural)]
pub enum TerminalAction {
    EnableRawMode,
    DisableRawMode,
    EnterAlternateScreen,
    LeaveAlternateScreen,
    EnableMouseCapture,
    DisableMouseCapture,
    ShowCursor,
}

/// What of the terminal has been set up and is to be restored.
#[derive(Debug, Clone, Copy, PartialEq, Eq, Structural)]
pub struct TerminalRestore {
    pub raw_mode_enabled: bool,
    pub alternate_screen_enabled: bool,
    pub mouse_capture_enabled: bool,
}

impl TerminalRestore {
    /// Whether anything is to be restored.
    pub open spec fn is_set_up(self) -> bool {
        self.raw_mode_enabled || self.alternate_screen_enabled || self.mouse_capture_enabled
    }

    /// The next step of the setup, if any is left.
    pub open spec fn next_step(self) -> Option<TerminalAction> {
        if !self.raw_mode_enabled {
            Some(TerminalAction::EnableRawMode)
        } else if !self.alternate_screen_enabled {
            Some(TerminalAction::EnterAlternateScreen)
        } else if !self.mouse_capture_enabled {
            Some(TerminalAction::EnableMouseCapture)
        } else {
            None
        }
    }

    /// What restores the terminal: each part that was set up, and the cursor with them.
    pub open spec fn undoing(self) -> Seq<TerminalAction> {
        (if self.raw_mode_enabled { seq![TerminalAction::DisableRawMode] } else { seq![] }) + (if
        self.alternate_screen_enabled {
            seq![TerminalAction::LeaveAlternateScreen]
        } else {
            seq![]
        }) + (if self.mouse_capture_enabled {
            seq![TerminalAction::DisableMouseCapture]
        } else {
            seq![]
        }) + (if self.is_set_up() { seq![TerminalAction::ShowCursor] } else { seq![] })
    }

    /// After an action that succeeded.
    pub open spec fn after(self, action: TerminalAction) -> TerminalRestore {
        match action {
            TerminalAction::EnableRawMode => TerminalRestore { raw_mode_enabled: true, ..self },
            TerminalAction::DisableRawMode => TerminalRestore { raw_mode_enabled: false, ..self },
            TerminalAction::EnterAlternateScreen => TerminalRestore {
                alternate_screen_enabled: true,
                ..self
            },
            TerminalAction::LeaveAlternateScreen => TerminalRestore {
                alternate_screen_enabled: false,
                ..self
            },
            TerminalAction::EnableMouseCapture => TerminalRestore {
                mouse_capture_enabled: true,
                ..self
            },
            TerminalAction::DisableMouseCapture => TerminalRestore {
                mouse_capture_enabled: false,
                ..self
            },
            TerminalAction::ShowCursor => self,
        }
    }

    pub fn new() -> (restore: Self)
        ensures
            !restore.is_set_up(),
    {
        TerminalRestore {
            raw_mode_enabled: false,
            alternate_screen_enabled: false,
            mouse_capture_enabled: false,
        }
    }

    pub fn next_setup_action(&self) -> (action: Option<TerminalAction>)
        ensures
            action == self.next_step(),
    {
        if !self.raw_mode_enabled {
            Some(TerminalAction::EnableRawMode)
        } else if !self.alternate_screen_enabled {
            Some(TerminalAction::EnterAlternateScreen)
        } else if !self.mouse_capture_enabled {
            Some(TerminalAction::EnableMouseCapture)
        } else {
            None
        }
    }

    pub fn restore_actions(&self) -> (actions: Vec<TerminalAction>)
        ensures
            actions@ == self.undoing(),
    {
        let mut actions: Vec<TerminalAction> = Vec::new();
        if self.raw_mode_enabled {
            actions.push(TerminalAction::DisableRawMode);
        }
        if self.alternate_screen_enabled {
            actions.push(TerminalAction::LeaveAlternateScreen);
        }
        if self.mouse_capture_enabled {
            actions.push(TerminalAction::DisableMouseCapture);
        }
        if actions.len() > 0 {
            actions.push(TerminalAction::ShowCursor);
        }
        assert(actions@ =~= self.undoing());
        actions
    }

    pub fn note_success(&mut self, action: TerminalAction)
        ensures
            *final(self) == old(self).after(action),
    {
        match action {
            TerminalAction::EnableRawMode => {
                self.raw_mode_enabled = true;
            },
            TerminalAction::DisableRawMode => {
                self.raw_mode_enabled = false;
            },
            TerminalAction::EnterAlternateScreen => {
                self.alternate_screen_enabled = true;
            },
            TerminalAction::LeaveAlternateScreen => {
                self.alternate_screen_enabled = false;
            },
            TerminalAction::EnableMouseCapture => {
                self.mouse_capture_enabled = true;
            },
            TerminalAction::DisableMouseCapture => {
                self.mouse_capture_enabled = false;
            },
            TerminalAction::ShowCursor => {},
        }
    }
}

/// The terminal after the first `n` actions, each of which succeeded.
pub open spec fn after_actions(
    restore: TerminalRestore,
    actions: Seq<TerminalAction>,
    n: int,
) -> TerminalRestore
    decreases n,
{
    if n <= 0 {
        restore
    } else {
        after_actions(restore, actions, n - 1).after(actions[n - 1])
    }
}

/// A terminal that was restored is not restored again.
pub proof fn terminal_is_restored_once(restore: TerminalRestore)
    ensures
        after_actions(restore, restore.undoing(), restore.undoing().len() as int).undoing()
            =~= seq![],
{
    reveal_with_fuel(after_actions, 6);
}

/// The setup takes three steps and then is complete.
pub proof fn setup_ends(restore: TerminalRestore)
    requires
        !restore.is_set_up(),
    ensures
        ({
            let raw = restore.after(restore.next_step()->0);
            let screen = raw.after(raw.next_step()->0);
            let mouse = screen.after(screen.next_step()->0);
            &&& raw.undoing() =~= seq![TerminalAction::DisableRawMode, TerminalAction::ShowCursor]
            &&& mouse.next_step() is None
            &&& mouse.raw_mode_enabled && mouse.alternate_screen_enabled
                && mouse.mouse_capture_enabled
        }),
{
}

} // verus!
