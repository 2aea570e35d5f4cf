//! External editor command resolution.

use vstd::prelude::*;
use vstd::string::*;

use crate::text::{cat2, decimal, decimal_of, file_name, file_name_of, is_one_of, texts, words, words_of};

verus! {

/// A file to open, near a line where one is known.
#[derive(Debug, PartialEq, Eq)]
pub struct EditorRequest {
    pub path: String,
    pub line: Option<u32>,
}

/// An editor program and its first arguments.
#[derive(Debug, PartialEq, Eq)]
pub struct EditorCommand {
    pub program: String,
    pub args: Vec<String>,
}

impl View for EditorRequest {
    type V = (Seq<char>, Option<u32>);

    open spec fn view(&self) -> (Seq<char>, Option<u32>) {
        (self.path@, self.line)
    }
}

impl Clone for EditorRequest {
    fn clone(&self) -> (copy: Self)
        ensures
            copy@ == self@,
    {
        EditorRequest { path: self.path.clone(), line: self.line }
    }
}

/// The message for a missing editor.
pub open spec fn no_editor_message() -> Seq<char> {
    "no editor configured; set $EDITOR to open files"@
}

/// Whether a program opens a file at a line given as `+LINE`.
pub open spec fn plus_line_editor(program: Seq<char>) -> bool {
    let name = match file_name_of(program) {
        Some(name) => name,
        None => program,
    };
    ||| name == "emacs"@
    ||| name == "emacsclient"@
    ||| name == "gvim"@
    ||| name == "nano"@
    ||| name == "nvim"@
    ||| name == "vi"@
    ||| name == "view"@
    ||| name == "vim"@
}

/// The arguments of the editor: those of its setting, the line, the file.
pub open spec fn editor_args(
    program: Seq<char>,
    args: Seq<Seq<char>>,
    path: Seq<char>,
    line: Option<u32>,
) -> Seq<Seq<char>> {
    match line {
        Some(number) if plus_line_editor(program) => args.push(
            "+"@ + decimal(number as nat),
        ).push(path),
        _ => args.push(path),
    }
}

impl EditorCommand {
    /// The command of a value of `$EDITOR`: its first word is the program.
    pub fn from_setting(setting: Option<String>) -> (command: Result<Self, String>)
        ensures
            match command {
                Ok(command) => setting is Some && words_of(setting->0@).len() > 0
                    && command.program@ == words_of(setting->0@)[0] && texts(command.args@)
                    == words_of(setting->0@).skip(1),
                Err(message) => (setting is Some ==> words_of(setting->0@).len() == 0) && message@
                    == no_editor_message(),
            },
    {
        let raw = match setting {
            Some(raw) => raw,
            None => {
                return Err("no editor configured; set $EDITOR to open files".to_owned());
            },
        };
        let mut parts = words(raw.as_str());
        assert(texts(parts@).len() == parts@.len());
        if parts.len() == 0 {
            return Err("no editor configured; set $EDITOR to open files".to_owned());
        }
        let ghost all = texts(parts@);
        let program = parts.remove(0);
        assert(all[0] == program@);
        assert(texts(parts@) =~= all.skip(1));
        Ok(EditorCommand { program, args: parts })
    }

    /// The arguments with which the program opens a file.
    pub fn arguments(&self, request: &EditorRequest) -> (args: Vec<String>)
        ensures
            texts(args@) == editor_args(
                self.program@,
                texts(self.args@),
                request.path@,
                request.line,
            ),
    {
        let mut args = self.args.clone();
        assert(texts(args@) =~= texts(self.args@));
        if supports_plus_line(self.program.as_str()) {
            if let Some(line) = request.line {
                let ghost before = args@;
                args.push(cat2("+", decimal_of(line as u64).as_str()));
                assert(texts(args@) =~= texts(before).push("+"@ + decimal(line as nat)));
            }
        }
        let ghost before = args@;
        args.push(request.path.clone());
        assert(texts(args@) =~= texts(before).push(request.path@));
        args
    }

    pub fn display_name(&self) -> (name: &str)
        ensures
            name@ == self.program@,
    {
        self.program.as_str()
    }
}

pub fn supports_plus_line(program: &str) -> (supports: bool)
    ensures
        supports == plus_line_editor(program@),
{
    let name = match file_name(program) {
        Some(name) => name,
        None => program.to_owned(),
    };
    let editors = ["emacs", "emacsclient", "gvim", "nano", "nvim", "vi", "view", "vim"];
    assert(editors@[0]@ == "emacs"@ && editors@[1]@ == "emacsclient"@ && editors@[2]@ == "gvim"@
        && editors@[3]@ == "nano"@ && editors@[4]@ == "nvim"@ && editors@[5]@ == "vi"@
        && editors@[6]@ == "view"@ && editors@[7]@ == "vim"@);
    is_one_of(name.as_str(), &editors)
}

} // verus!
