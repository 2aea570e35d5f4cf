//! User-configured shell command bindings and their results.

use vstd::prelude::*;
use vstd::string::*;

use crate::input::{types_text, KeyCode, KeyEvent};
use crate::keybind::key_name;
use crate::process::{lossy_text, OutcomeView, ProcessOutcome, ProcessOutput};
use crate::search::text_option;
use crate::text::{cat3, chars_of, is_control_char, trim, trimmed};

verus! {

/// A key that runs a shell command.
#[derive(Debug, PartialEq, Eq)]
pub struct CustomCommandBinding {
    pub key: CommandKey,
    pub label: String,
    pub command: String,
}

/// A single non-control character bound to a shell command.
#[derive(Debug, Clone, Copy, PartialEq, Eq, Hash, Structural)]
pub struct CommandKey {
    pub value: char,
}

#[derive(Debug, PartialEq, Eq)]
pub struct CustomCommandResult {
    pub label: String,
    pub command: String,
    /// Directory that the command ran in.
    pub cwd: Option<String>,
    pub outcome: ProcessOutcome,
}

/// What a [`CustomCommandBinding`] holds.
pub struct BindingView {
    pub key: CommandKey,
    pub label: Seq<char>,
    pub command: Seq<char>,
}

/// What a [`CustomCommandResult`] holds.
pub struct CommandResultView {
    pub label: Seq<char>,
    pub command: Seq<char>,
    pub cwd: Option<Seq<char>>,
    pub outcome: OutcomeView,
}

impl View for CustomCommandBinding {
    type V = BindingView;

    open spec fn view(&self) -> BindingView {
        BindingView { key: self.key, label: self.label@, command: self.command@ }
    }
}

pub open spec fn binding_views(bindings: Seq<CustomCommandBinding>) -> Seq<BindingView> {
    bindings.map_values(|binding: CustomCommandBinding| binding@)
}

impl View for CustomCommandResult {
    type V = CommandResultView;

    open spec fn view(&self) -> CommandResultView {
        CommandResultView {
            label: self.label@,
            command: self.command@,
            cwd: text_option(self.cwd),
            outcome: self.outcome@,
        }
    }
}

impl Clone for CustomCommandBinding {
    fn clone(&self) -> (copy: Self)
        ensures
            copy@ == self@,
    {
        CustomCommandBinding {
            key: self.key,
            label: self.label.clone(),
            command: self.command.clone(),
        }
    }
}

impl Clone for CustomCommandResult {
    fn clone(&self) -> (copy: Self)
        ensures
            copy@ == self@,
    {
        CustomCommandResult {
            label: self.label.clone(),
            command: self.command.clone(),
            cwd: match &self.cwd {
                Some(dir) => Some(dir.clone()),
                None => None,
            },
            outcome: self.outcome.clone(),
        }
    }
}

impl CustomCommandBinding {
    pub fn new(key: CommandKey, label: String, command: String) -> (binding: Self)
        ensures
            binding@ == (BindingView { key, label: label@, command: command@ }),
    {
        CustomCommandBinding { key, label, command }
    }

    pub fn key(&self) -> (key: CommandKey)
        ensures
            key == self@.key,
    {
        self.key
    }

    pub fn key_display(&self) -> (name: String)
        ensures
            name@ == key_name(self@.key.value),
    {
        self.key.display()
    }

    pub fn label(&self) -> (label: &str)
        ensures
            label@ == self@.label,
    {
        self.label.as_str()
    }

    pub fn command(&self) -> (command: &str)
        ensures
            command@ == self@.command,
    {
        self.command.as_str()
    }
}

/// What is wrong with the text of a command key, if anything.
pub open spec fn command_key_error(raw: Seq<char>) -> Option<Seq<char>> {
    if raw.len() == 0 {
        Some("custom command key cannot be empty"@)
    } else if raw.len() > 1 {
        Some("custom command key `"@ + raw + "` must be a single character"@)
    } else if is_control_char(raw[0]) {
        Some("custom command key cannot be a control character"@)
    } else {
        None
    }
}

impl CommandKey {
    pub fn parse(raw: &str) -> (key: Result<Self, String>)
        ensures
            match key {
                Ok(key) => command_key_error(raw@) is None && key.value == raw@[0],
                Err(message) => command_key_error(raw@) == Some(message@),
            },
    {
        let chars = chars_of(raw);
        if chars.len() == 0 {
            return Err("custom command key cannot be empty".to_owned());
        }
        if chars.len() > 1 {
            return Err(cat3("custom command key `", raw, "` must be a single character"));
        }
        if chars[0].is_control() {
            return Err("custom command key cannot be a control character".to_owned());
        }
        Ok(CommandKey { value: chars[0] })
    }

    pub fn character(self) -> (value: char)
        ensures
            value == self.value,
    {
        self.value
    }

    /// Whether a key press runs the command.
    pub open spec fn pressed(self, key: KeyEvent) -> bool {
        key.code == KeyCode::Char(self.value) && types_text(key)
    }

    pub fn matches(self, key: KeyEvent) -> (matches: bool)
        ensures
            matches == self.pressed(key),
    {
        key.code == KeyCode::Char(self.value) && !(key.modifiers.control || key.modifiers.alt)
    }

    pub fn display(self) -> (name: String)
        ensures
            name@ == key_name(self.value),
    {
        if self.value == ' ' {
            "Space".to_owned()
        } else {
            let mut name = String::new();
            name.push(self.value);
            assert(name@ =~= seq![self.value]);
            name
        }
    }
}

impl CustomCommandResult {
    pub fn from_output(
        binding: &CustomCommandBinding,
        cwd: String,
        output: ProcessOutput,
    ) -> (result: Self)
        ensures
            result@.label == binding@.label,
            result@.command == binding@.command,
            result@.cwd == Some(cwd@),
            result@.outcome == (OutcomeView {
                stdout: lossy_text(output.stdout@),
                stderr: lossy_text(output.stderr@),
                success: output.success,
                code: output.code,
                cancelled: false,
                start_error: None,
            }),
    {
        CustomCommandResult {
            label: binding.label.clone(),
            command: binding.command.clone(),
            cwd: Some(cwd),
            outcome: ProcessOutcome::from_output(output),
        }
    }

    pub fn not_started(
        binding: &CustomCommandBinding,
        cwd: Option<String>,
        error: String,
    ) -> (result: Self)
        ensures
            result@.label == binding@.label,
            result@.command == binding@.command,
            result@.cwd == text_option(cwd),
            result@.outcome == (OutcomeView {
                stdout: seq![],
                stderr: error@,
                success: false,
                code: None,
                cancelled: false,
                start_error: Some(error@),
            }),
    {
        CustomCommandResult {
            label: binding.label.clone(),
            command: binding.command.clone(),
            cwd,
            outcome: ProcessOutcome::not_started(error),
        }
    }

    pub fn cancelled(
        binding: &CustomCommandBinding,
        cwd: String,
        output: Option<ProcessOutput>,
    ) -> (result: Self)
        ensures
            result@.label == binding@.label,
            result@.command == binding@.command,
            result@.cwd == Some(cwd@),
            result@.outcome == (OutcomeView {
                stdout: match output {
                    Some(out) => lossy_text(out.stdout@),
                    None => seq![],
                },
                stderr: match output {
                    Some(out) => lossy_text(out.stderr@),
                    None => seq![],
                },
                success: false,
                code: match output {
                    Some(out) => out.code,
                    None => None,
                },
                cancelled: true,
                start_error: None,
            }),
    {
        CustomCommandResult {
            label: binding.label.clone(),
            command: binding.command.clone(),
            cwd: Some(cwd),
            outcome: ProcessOutcome::cancelled(output),
        }
    }

    pub fn label(&self) -> (label: &str)
        ensures
            label@ == self@.label,
    {
        self.label.as_str()
    }

    pub fn command(&self) -> (command: &str)
        ensures
            command@ == self@.command,
    {
        self.command.as_str()
    }

    pub fn cwd(&self) -> (cwd: Option<&str>)
        ensures
            match cwd {
                Some(dir) => self@.cwd == Some(dir@),
                None => self@.cwd is None,
            },
    {
        match &self.cwd {
            Some(dir) => Some(dir.as_str()),
            None => None,
        }
    }

    pub fn stdout(&self) -> (text: &str)
        ensures
            text@ == self@.outcome.stdout,
    {
        self.outcome.stdout()
    }

    pub fn stderr(&self) -> (text: &str)
        ensures
            text@ == self@.outcome.stderr,
    {
        self.outcome.stderr()
    }

    pub fn success(&self) -> (success: bool)
        ensures
            success == self@.outcome.success,
    {
        self.outcome.success()
    }

    pub fn status_text(&self) -> (text: String)
        ensures
            text@ == self@.outcome.ending(),
    {
        self.outcome.status_text()
    }
}

/// The program that runs shell commands: the value of `$SHELL`, or `sh` where it
/// is unset or blank.
pub open spec fn shell_of(shell: Option<Seq<char>>) -> Seq<char> {
    match shell {
        Some(value) => if trimmed(value).len() == 0 { "sh"@ } else { value },
        None => "sh"@,
    }
}

pub fn shell_program(shell: Option<String>) -> (program: String)
    ensures
        program@ == shell_of(text_option(shell)),
{
    match shell {
        Some(value) => if trim(value.as_str()).is_empty() { "sh".to_owned() } else { value },
        None => "sh".to_owned(),
    }
}

} // verus!
