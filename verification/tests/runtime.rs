use chunk::runtime::{
    is_relevant_worktree_event, TerminalAction, TerminalRestore, WorktreeEventKind,
};

#[derive(Debug, Default)]
struct FakeTerminal {
    actions: Vec<TerminalAction>,
    fail_on: Option<TerminalAction>,
}

impl FakeTerminal {
    fn perform(&mut self, action: TerminalAction) -> Result<(), String> {
        self.actions.push(action);
        if self.fail_on == Some(action) {
            return Err(format!("{action:?} failed"));
        }
        Ok(())
    }

    fn enter(&mut self) -> Result<TerminalRestore, String> {
        let mut restore = TerminalRestore::new();
        while let Some(action) = restore.next_setup_action() {
            if let Err(error) = self.perform(action) {
                let _ = self.restore(&mut restore);
                return Err(error);
            }
            restore.note_success(action);
        }
        Ok(restore)
    }

    fn restore(&mut self, restore: &mut TerminalRestore) -> Result<(), String> {
        let mut first_error = None;
        for action in restore.restore_actions() {
            match self.perform(action) {
                Ok(()) => restore.note_success(action),
                Err(error) => first_error = first_error.or(Some(error)),
            }
        }
        first_error.map_or(Ok(()), Err)
    }
}

#[test]
fn terminal_mode_setup_restores_partial_state_when_mouse_capture_fails() {
    let mut terminal = FakeTerminal {
        actions: Vec::new(),
        fail_on: Some(TerminalAction::EnableMouseCapture),
    };

    let error = terminal.enter().unwrap_err();

    assert!(error.to_string().contains("EnableMouseCapture failed"));
    assert_eq!(
        terminal.actions,
        [
            TerminalAction::EnableRawMode,
            TerminalAction::EnterAlternateScreen,
            TerminalAction::EnableMouseCapture,
            TerminalAction::DisableRawMode,
            TerminalAction::LeaveAlternateScreen,
            TerminalAction::ShowCursor,
        ]
    );
}

#[test]
fn terminal_restore_cleans_up_successful_setup_once() {
    let mut terminal = FakeTerminal::default();
    let mut restore = terminal.enter().unwrap();

    terminal.restore(&mut restore).unwrap();
    terminal.restore(&mut restore).unwrap();

    assert_eq!(
        terminal.actions,
        [
            TerminalAction::EnableRawMode,
            TerminalAction::EnterAlternateScreen,
            TerminalAction::EnableMouseCapture,
            TerminalAction::DisableRawMode,
            TerminalAction::LeaveAlternateScreen,
            TerminalAction::DisableMouseCapture,
            TerminalAction::ShowCursor,
        ]
    );
}

#[test]
fn live_reload_treats_git_state_files_as_relevant() {
    for path in [
        ".git/index",
        ".git/HEAD",
        ".git/packed-refs",
        ".git/refs/heads/main",
        ".git/refs/remotes/origin/HEAD",
    ] {
        assert!(
            is_relevant_worktree_event(
                WorktreeEventKind::Modify,
                &vec![below_root(path)],
                ROOT
            ),
            "{path} should trigger live reload",
        );
    }
}

#[test]
fn live_reload_ignores_noisy_git_metadata() {
    for path in [
        ".git",
        ".git/objects/12/3456789",
        ".git/logs/HEAD",
        ".git/index.lock",
    ] {
        assert!(
            !is_relevant_worktree_event(
                WorktreeEventKind::Modify,
                &vec![below_root(path)],
                ROOT
            ),
            "{path} should not trigger live reload",
        );
    }
}

#[test]
fn live_reload_ignores_non_mutating_git_state_events() {
    assert!(!is_relevant_worktree_event(
        WorktreeEventKind::Access,
        &vec![below_root(".git/index")],
        ROOT
    ));
}

const ROOT: &str = "/tmp/chunk-worktree";

fn below_root(path: &str) -> String {
    format!("{ROOT}/{path}")
}
