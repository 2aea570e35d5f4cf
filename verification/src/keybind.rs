//! Configurable built-in keybindings.
//!
//! This module owns the typed map for configurable single-character built-in
//! actions. Special keys, `Ctrl-*` combos, and modal dialog controls stay fixed.

use vstd::prelude::*;
use vstd::string::*;

use crate::input::{types_text, KeyCode, KeyEvent};
use crate::text::{cat3, chars_of, is_control_char, same};

verus! {

/// A built-in review/navigation action whose key can be configured in
/// `[keybinds]`.
#[derive(Debug, Clone, Copy, PartialEq, Eq, Hash, Structural)]
pub enum BuiltinAction {
    Quit,
    Help,
    ToggleFiles,
    Search,
    MoveDown,
    MoveUp,
    NextMatch,
    PrevMatch,
    Top,
    Bottom,
    ToggleStaging,
    Discard,
    Editor,
    AskAi,
    ExplainCode,
    UnpublishedSummary,
    CopyFocused,
    CopyFileDiff,
    ToggleReviewed,
}

/// Number of configurable actions.
pub const ACTION_COUNT: usize = 19;

impl BuiltinAction {
    /// Position of the action in the list of all actions.
    pub open spec fn index(self) -> int {
        match self {
            BuiltinAction::Quit => 0,
            BuiltinAction::Help => 1,
            BuiltinAction::ToggleFiles => 2,
            BuiltinAction::Search => 3,
            BuiltinAction::MoveDown => 4,
            BuiltinAction::MoveUp => 5,
            BuiltinAction::NextMatch => 6,
            BuiltinAction::PrevMatch => 7,
            BuiltinAction::Top => 8,
            BuiltinAction::Bottom => 9,
            BuiltinAction::ToggleStaging => 10,
            BuiltinAction::Discard => 11,
            BuiltinAction::Editor => 12,
            BuiltinAction::AskAi => 13,
            BuiltinAction::ExplainCode => 14,
            BuiltinAction::UnpublishedSummary => 15,
            BuiltinAction::CopyFocused => 16,
            BuiltinAction::CopyFileDiff => 17,
            BuiltinAction::ToggleReviewed => 18,
        }
    }

    /// The action at a position of the list of all actions.
    pub open spec fn nth(index: int) -> BuiltinAction {
        if index == 0 {
            BuiltinAction::Quit
        } else if index == 1 {
            BuiltinAction::Help
        } else if index == 2 {
            BuiltinAction::ToggleFiles
        } else if index == 3 {
            BuiltinAction::Search
        } else if index == 4 {
            BuiltinAction::MoveDown
        } else if index == 5 {
            BuiltinAction::MoveUp
        } else if index == 6 {
            BuiltinAction::NextMatch
        } else if index == 7 {
            BuiltinAction::PrevMatch
        } else if index == 8 {
            BuiltinAction::Top
        } else if index == 9 {
            BuiltinAction::Bottom
        } else if index == 10 {
            BuiltinAction::ToggleStaging
        } else if index == 11 {
            BuiltinAction::Discard
        } else if index == 12 {
            BuiltinAction::Editor
        } else if index == 13 {
            BuiltinAction::AskAi
        } else if index == 14 {
            BuiltinAction::ExplainCode
        } else if index == 15 {
            BuiltinAction::UnpublishedSummary
        } else if index == 16 {
            BuiltinAction::CopyFocused
        } else if index == 17 {
            BuiltinAction::CopyFileDiff
        } else {
            BuiltinAction::ToggleReviewed
        }
    }

    /// Snake-case name used as the TOML key in `[keybinds]`.
    pub open spec fn name(self) -> Seq<char> {
        match self {
            BuiltinAction::Quit => "quit"@,
            BuiltinAction::Help => "help"@,
            BuiltinAction::ToggleFiles => "toggle_files"@,
            BuiltinAction::Search => "search"@,
            BuiltinAction::MoveDown => "move_down"@,
            BuiltinAction::MoveUp => "move_up"@,
            BuiltinAction::NextMatch => "next_match"@,
            BuiltinAction::PrevMatch => "prev_match"@,
            BuiltinAction::Top => "top"@,
            BuiltinAction::Bottom => "bottom"@,
            BuiltinAction::ToggleStaging => "toggle_staging"@,
            BuiltinAction::Discard => "discard"@,
            BuiltinAction::Editor => "editor"@,
            BuiltinAction::AskAi => "ask_ai"@,
            BuiltinAction::ExplainCode => "explain_code"@,
            BuiltinAction::UnpublishedSummary => "unpublished_summary"@,
            BuiltinAction::CopyFocused => "copy_focused"@,
            BuiltinAction::CopyFileDiff => "copy_file_diff"@,
            BuiltinAction::ToggleReviewed => "toggle_reviewed"@,
        }
    }

    /// Default single-character key.
    pub open spec fn default_char(self) -> char {
        match self {
            BuiltinAction::Quit => 'q',
            BuiltinAction::Help => '?',
            BuiltinAction::ToggleFiles => 'f',
            BuiltinAction::Search => '/',
            BuiltinAction::MoveDown => 'j',
            BuiltinAction::MoveUp => 'k',
            BuiltinAction::NextMatch => 'n',
            BuiltinAction::PrevMatch => 'N',
            BuiltinAction::Top => 'g',
            BuiltinAction::Bottom => 'G',
            BuiltinAction::ToggleStaging => ' ',
            BuiltinAction::Discard => 'd',
            BuiltinAction::Editor => 'e',
            BuiltinAction::AskAi => 'a',
            BuiltinAction::ExplainCode => 'x',
            BuiltinAction::UnpublishedSummary => 'u',
            BuiltinAction::CopyFocused => 'y',
            BuiltinAction::CopyFileDiff => 'Y',
            BuiltinAction::ToggleReviewed => 'r',
        }
    }

    fn position(self) -> (index: usize)
        ensures
            index == self.index(),
            index < ACTION_COUNT,
    {
        match self {
            BuiltinAction::Quit => 0,
            BuiltinAction::Help => 1,
            BuiltinAction::ToggleFiles => 2,
            BuiltinAction::Search => 3,
            BuiltinAction::MoveDown => 4,
            BuiltinAction::MoveUp => 5,
            BuiltinAction::NextMatch => 6,
            BuiltinAction::PrevMatch => 7,
            BuiltinAction::Top => 8,
            BuiltinAction::Bottom => 9,
            BuiltinAction::ToggleStaging => 10,
            BuiltinAction::Discard => 11,
            BuiltinAction::Editor => 12,
            BuiltinAction::AskAi => 13,
            BuiltinAction::ExplainCode => 14,
            BuiltinAction::UnpublishedSummary => 15,
            BuiltinAction::CopyFocused => 16,
            BuiltinAction::CopyFileDiff => 17,
            BuiltinAction::ToggleReviewed => 18,
        }
    }

    /// The action at a position of the list of all actions.
    pub fn at(index: usize) -> (action: BuiltinAction)
        requires
            index < ACTION_COUNT,
        ensures
            action == BuiltinAction::nth(index as int),
            action.index() == index,
    {
        match index {
            0 => BuiltinAction::Quit,
            1 => BuiltinAction::Help,
            2 => BuiltinAction::ToggleFiles,
            3 => BuiltinAction::Search,
            4 => BuiltinAction::MoveDown,
            5 => BuiltinAction::MoveUp,
            6 => BuiltinAction::NextMatch,
            7 => BuiltinAction::PrevMatch,
            8 => BuiltinAction::Top,
            9 => BuiltinAction::Bottom,
            10 => BuiltinAction::ToggleStaging,
            11 => BuiltinAction::Discard,
            12 => BuiltinAction::Editor,
            13 => BuiltinAction::AskAi,
            14 => BuiltinAction::ExplainCode,
            15 => BuiltinAction::UnpublishedSummary,
            16 => BuiltinAction::CopyFocused,
            17 => BuiltinAction::CopyFileDiff,
            _ => BuiltinAction::ToggleReviewed,
        }
    }

    /// Snake-case name used as the TOML key in `[keybinds]`.
    pub fn config_name(self) -> (name: &'static str)
        ensures
            name@ == self.name(),
    {
        match self {
            BuiltinAction::Quit => "quit",
            BuiltinAction::Help => "help",
            BuiltinAction::ToggleFiles => "toggle_files",
            BuiltinAction::Search => "search",
            BuiltinAction::MoveDown => "move_down",
            BuiltinAction::MoveUp => "move_up",
            BuiltinAction::NextMatch => "next_match",
            BuiltinAction::PrevMatch => "prev_match",
            BuiltinAction::Top => "top",
            BuiltinAction::Bottom => "bottom",
            BuiltinAction::ToggleStaging => "toggle_staging",
            BuiltinAction::Discard => "discard",
            BuiltinAction::Editor => "editor",
            BuiltinAction::AskAi => "ask_ai",
            BuiltinAction::ExplainCode => "explain_code",
            BuiltinAction::UnpublishedSummary => "unpublished_summary",
            BuiltinAction::CopyFocused => "copy_focused",
            BuiltinAction::CopyFileDiff => "copy_file_diff",
            BuiltinAction::ToggleReviewed => "toggle_reviewed",
        }
    }

    /// The first action at or behind a position that has a name.
    pub open spec fn first_named(name: Seq<char>, from: int) -> Option<BuiltinAction>
        decreases ACTION_COUNT - from,
    {
        if from >= ACTION_COUNT {
            None
        } else if BuiltinAction::nth(from).name() == name {
            Some(BuiltinAction::nth(from))
        } else {
            BuiltinAction::first_named(name, from + 1)
        }
    }

    /// The action of a configuration name.
    pub fn from_config_name(name: &str) -> (action: Option<BuiltinAction>)
        ensures
            action == BuiltinAction::first_named(name@, 0),
            action is Some ==> action->0.name() == name@,
            action is None ==> forall|other: BuiltinAction| #[trigger] other.name() != name@,
    {
        let mut i: usize = 0;
        while i < ACTION_COUNT
            invariant
                i <= ACTION_COUNT,
                BuiltinAction::first_named(name@, 0) == BuiltinAction::first_named(
                    name@,
                    i as int,
                ),
                forall|j: int| 0 <= j < i ==> #[trigger] BuiltinAction::nth(j).name() != name@,
            decreases ACTION_COUNT - i,
        {
            let action = BuiltinAction::at(i);
            if same(action.config_name(), name) {
                return Some(action);
            }
            i = i + 1;
        }
        assert forall|other: BuiltinAction| #[trigger] other.name() != name@ by {
            assert(BuiltinAction::nth(other.index()) == other);
        }
        None
    }
}

/// A single non-control character bound to a built-in action.
#[derive(Debug, Clone, Copy, PartialEq, Eq, Hash, Structural)]
pub struct BuiltinKey {
    pub value: char,
}

/// The name of a key: the character, or a word for the space.
pub open spec fn key_name(value: char) -> Seq<char> {
    if value == ' ' { "Space"@ } else { seq![value] }
}

/// What is wrong with the text of a key, if anything.
pub open spec fn key_error(raw: Seq<char>) -> Option<Seq<char>> {
    if raw.len() == 0 {
        Some("keybind key cannot be empty"@)
    } else if raw.len() > 1 {
        Some("keybind key `"@ + raw + "` must be a single character"@)
    } else if is_control_char(raw[0]) {
        Some("keybind key cannot be a control character"@)
    } else {
        None
    }
}

impl BuiltinKey {
    pub fn parse(raw: &str) -> (key: Result<Self, String>)
        ensures
            match key {
                Ok(key) => key_error(raw@) is None && key.value == raw@[0],
                Err(message) => key_error(raw@) == Some(message@),
            },
    {
        let chars = chars_of(raw);
        if chars.len() == 0 {
            return Err("keybind key cannot be empty".to_owned());
        }
        if chars.len() > 1 {
            return Err(cat3("keybind key `", raw, "` must be a single character"));
        }
        if chars[0].is_control() {
            return Err("keybind key cannot be a control character".to_owned());
        }
        Ok(BuiltinKey { value: chars[0] })
    }

    pub fn character(self) -> (value: char)
        ensures
            value == self.value,
    {
        self.value
    }

    pub fn display(self) -> (name: String)
        ensures
            name@ == key_name(self.value),
    {
        if self.value == ' ' {
            "Space".to_owned()
        } else {
            let mut name = String::new();
            name.push(self.value);
            assert(name@ =~= seq![self.value]);
            name
        }
    }
}

/// Resolved map of built-in actions to configured keys.
#[derive(Debug, Clone, Copy, PartialEq, Eq)]
pub struct KeybindMap {
    pub keys: [BuiltinKey; 19],
}

impl KeybindMap {
    /// The character that an action is bound to.
    pub open spec fn bound(self, action: BuiltinAction) -> char {
        self.keys@[action.index()].value
    }

    /// The first action at or behind a position that a character is bound to.
    pub open spec fn first_bound(self, value: char, from: int) -> Option<BuiltinAction>
        decreases ACTION_COUNT - from,
    {
        if from >= ACTION_COUNT {
            None
        } else if self.keys@[from].value == value {
            Some(BuiltinAction::nth(from))
        } else {
            self.first_bound(value, from + 1)
        }
    }

    /// The action that a key press stands for.
    pub open spec fn action(self, key: KeyEvent) -> Option<BuiltinAction> {
        match key.code {
            KeyCode::Char(value) => if types_text(key) {
                self.first_bound(value, 0)
            } else {
                None
            },
            _ => None,
        }
    }

    /// Whether a character is bound to any action.
    pub open spec fn holds_char(self, value: char) -> bool {
        exists|action: BuiltinAction| #[trigger] self.bound(action) == value
    }

    /// Whether no two actions share a key.
    pub open spec fn distinct(self) -> bool {
        forall|a: BuiltinAction, b: BuiltinAction|
            #[trigger] self.bound(a) == #[trigger] self.bound(b) ==> a == b
    }

    /// Whether the actions at two positions are the first ones, in the order of
    /// the list of all actions, that share a key.
    pub open spec fn first_clash(self, i: int, j: int) -> bool {
        &&& 0 <= i < j < ACTION_COUNT
        &&& self.keys@[i] == self.keys@[j]
        &&& forall|a: int, b: int|
            0 <= a < b < ACTION_COUNT && (a < i || (a == i && b < j)) ==> #[trigger] self.keys@[a]
                != #[trigger] self.keys@[b]
    }
}

impl KeybindMap {
    /// The message about the first two actions that share a key, if any do.
    pub open spec fn clash_error(self) -> Option<Seq<char>> {
        if self.distinct() {
            None
        } else {
            let (i, j) = choose|i: int, j: int| self.first_clash(i, j);
            Some(clash_message(self, i, j))
        }
    }
}

proof fn first_clash_is_one(map: KeybindMap, i: int, j: int, a: int, b: int)
    requires
        map.first_clash(i, j),
        map.first_clash(a, b),
    ensures
        i == a,
        j == b,
{
}

/// The message about two actions that share a key.
pub open spec fn clash_message(map: KeybindMap, i: int, j: int) -> Seq<char> {
    "keybind key `"@ + key_name(map.keys@[i].value) + "` is bound to both `"@
        + BuiltinAction::nth(i).name() + "` and `"@ + BuiltinAction::nth(j).name() + "`"@
}

impl Default for KeybindMap {
    fn default() -> (map: Self)
        ensures
            forall|action: BuiltinAction| #[trigger] map.bound(action) == action.default_char(),
    {
        KeybindMap::defaults()
    }
}

impl KeybindMap {
    pub fn defaults() -> (map: Self)
        ensures
            forall|action: BuiltinAction| #[trigger] map.bound(action) == action.default_char(),
    {
        KeybindMap {
            keys: [
                BuiltinKey { value: 'q' },
                BuiltinKey { value: '?' },
                BuiltinKey { value: 'f' },
                BuiltinKey { value: '/' },
                BuiltinKey { value: 'j' },
                BuiltinKey { value: 'k' },
                BuiltinKey { value: 'n' },
                BuiltinKey { value: 'N' },
                BuiltinKey { value: 'g' },
                BuiltinKey { value: 'G' },
                BuiltinKey { value: ' ' },
                BuiltinKey { value: 'd' },
                BuiltinKey { value: 'e' },
                BuiltinKey { value: 'a' },
                BuiltinKey { value: 'x' },
                BuiltinKey { value: 'u' },
                BuiltinKey { value: 'y' },
                BuiltinKey { value: 'Y' },
                BuiltinKey { value: 'r' },
            ],
        }
    }

    pub fn key(self, action: BuiltinAction) -> (key: BuiltinKey)
        ensures
            key.value == self.bound(action),
    {
        let index: usize = action.position();
        self.keys[index]
    }

    pub fn set(&mut self, action: BuiltinAction, key: BuiltinKey)
        ensures
            final(self).keys@ == old(self).keys@.update(action.index(), key),
    {
        let index: usize = action.position();
        self.keys[index] = key;
    }

    pub fn display(self, action: BuiltinAction) -> (name: String)
        ensures
            name@ == key_name(self.bound(action)),
    {
        self.key(action).display()
    }

    /// Resolve a key event to its bound built-in action, if any.
    ///
    /// `Ctrl`/`Alt` modifiers never match: those are reserved for fixed aliases or
    /// are simply no-ops.
    #[verifier::loop_isolation(false)]
    pub fn action_for(self, key: KeyEvent) -> (action: Option<BuiltinAction>)
        ensures
            action == self.action(key),
    {
        if key.modifiers.control || key.modifiers.alt {
            return None;
        }
        let value = match key.code {
            KeyCode::Char(value) => value,
            _ => {
                return None;
            },
        };
        let mut i: usize = 0;
        while i < ACTION_COUNT
            invariant
                i <= ACTION_COUNT,
                self.first_bound(value, 0) == self.first_bound(value, i as int),
            decreases ACTION_COUNT - i,
        {
            if self.keys[i].value == value {
                return Some(BuiltinAction::at(i));
            }
            i = i + 1;
        }
        None
    }

    /// Whether a character is reserved by any configured built-in key.
    pub fn contains_char(self, value: char) -> (found: bool)
        ensures
            found == self.holds_char(value),
    {
        let mut i: usize = 0;
        while i < ACTION_COUNT
            invariant
                i <= ACTION_COUNT,
                forall|j: int| 0 <= j < i ==> (#[trigger] self.keys@[j]).value != value,
            decreases ACTION_COUNT - i,
        {
            if self.keys[i].value == value {
                assert(self.bound(BuiltinAction::nth(i as int)) == value);
                return true;
            }
            i = i + 1;
        }
        assert forall|action: BuiltinAction| #[trigger] self.bound(action) != value by {
            assert(0 <= action.index() < ACTION_COUNT);
        }
        false
    }

    /// Reject maps where two actions share the same key.
    ///
    /// Called after all config overrides are applied so that key swaps are
    /// permitted as long as the final set has no duplicates.
    pub fn validate(self) -> (result: Result<(), String>)
        ensures
            match result {
                Ok(()) => self.distinct() && self.clash_error() is None,
                Err(message) => !self.distinct() && self.clash_error() == Some(message@),
            },
    {
        let mut i: usize = 0;
        while i < ACTION_COUNT
            invariant
                i <= ACTION_COUNT,
                forall|a: int, b: int|
                    0 <= a < i && a < b < ACTION_COUNT ==> #[trigger] self.keys@[a]
                        != #[trigger] self.keys@[b],
            decreases ACTION_COUNT - i,
        {
            let mut j: usize = i + 1;
            while j < ACTION_COUNT
                invariant
                    i < ACTION_COUNT,
                    i < j <= ACTION_COUNT,
                    forall|a: int, b: int|
                        0 <= a < b < ACTION_COUNT && (a < i || (a == i && b < j))
                            ==> #[trigger] self.keys@[a] != #[trigger] self.keys@[b],
                decreases ACTION_COUNT - j,
            {
                if self.keys[i] == self.keys[j] {
                    let mut message = "keybind key `".to_owned();
                    message.append(self.keys[i].display().as_str());
                    message.append("` is bound to both `");
                    message.append(BuiltinAction::at(i).config_name());
                    message.append("` and `");
                    message.append(BuiltinAction::at(j).config_name());
                    message.append("`");
                    proof {
                        assert(self.first_clash(i as int, j as int));
                        let (a, b) = (BuiltinAction::nth(i as int), BuiltinAction::nth(j as int));
                        assert(self.bound(a) == self.bound(b));
                        assert(a.index() != b.index());
                        let (x, y) = choose|x: int, y: int| self.first_clash(x, y);
                        first_clash_is_one(self, i as int, j as int, x, y);
                    }
                    return Err(message);
                }
                j = j + 1;
            }
            i = i + 1;
        }
        assert forall|a: BuiltinAction, b: BuiltinAction|
            #[trigger] self.bound(a) == #[trigger] self.bound(b) implies a == b by {
            let (x, y) = (a.index(), b.index());
            assert(self.keys@[x] == self.keys@[y]);
            assert(BuiltinAction::nth(x) == a && BuiltinAction::nth(y) == b);
        }
        Ok(())
    }
}

/// The names of all actions from a position on, separated by commas.
pub open spec fn action_names(from: int) -> Seq<char>
    decreases ACTION_COUNT - from,
{
    if from >= ACTION_COUNT {
        seq![]
    } else if from + 1 == ACTION_COUNT {
        BuiltinAction::nth(from).name()
    } else {
        BuiltinAction::nth(from).name() + ", "@ + action_names(from + 1)
    }
}

/// The message about a name that no action has.
pub open spec fn unknown_action_message(name: Seq<char>) -> Seq<char> {
    "unknown keybind action `"@ + name + "`; expected one of: "@ + action_names(0)
}

/// Parse a `[keybinds]` action name, rejecting unknown actions with the list of
/// valid names.
pub fn parse_action_name(name: &str) -> (action: Result<BuiltinAction, String>)
    ensures
        match action {
            Ok(found) => found.name() == name@ && BuiltinAction::first_named(name@, 0) == Some(
                found,
            ),
            Err(message) => (forall|other: BuiltinAction| #[trigger] other.name() != name@)
                && BuiltinAction::first_named(name@, 0) is None && message@
                == unknown_action_message(name@),
        },
{
    match BuiltinAction::from_config_name(name) {
        Some(action) => Ok(action),
        None => {
            let mut message = cat3(
                "unknown keybind action `",
                name,
                "`; expected one of: ",
            );
            let ghost head = message@;
            let mut i: usize = 0;
            assert(head + action_names(0) =~= message@ + action_names(0));
            while i < ACTION_COUNT
                invariant
                    i <= ACTION_COUNT,
                    message@ + action_names(i as int) == head + action_names(0),
                decreases ACTION_COUNT - i,
            {
                let ghost before = message@;
                let ghost rest = action_names(i + 1);
                message.append(BuiltinAction::at(i).config_name());
                if i + 1 < ACTION_COUNT {
                    message.append(", ");
                    assert(before + action_names(i as int) =~= message@ + rest);
                } else {
                    assert(before + action_names(i as int) =~= message@ + rest);
                }
                i = i + 1;
            }
            assert(message@ + action_names(i as int) =~= message@);
            Err(message)
        },
    }
}

/// In a map without shared keys every action is found by its own key, pressed
/// without control and alt.
pub proof fn valid_map_finds_every_action(map: KeybindMap, action: BuiltinAction, key: KeyEvent)
    requires
        map.distinct(),
        key.code == KeyCode::Char(map.bound(action)),
        types_text(key),
    ensures
        map.action(key) == Some(action),
{
    first_bound_finds(map, action, 0);
}

proof fn first_bound_finds(map: KeybindMap, action: BuiltinAction, from: int)
    requires
        map.distinct(),
        0 <= from <= action.index(),
    ensures
        map.first_bound(map.bound(action), from) == Some(action),
    decreases action.index() - from,
{
    let here = BuiltinAction::nth(from);
    assert(here.index() == from);
    assert(map.keys@[from].value == map.bound(here));
    if from < action.index() {
        first_bound_finds(map, action, from + 1);
    }
}

/// The default keys are distinct.
pub proof fn default_keys_are_distinct(a: BuiltinAction, b: BuiltinAction)
    requires
        a.default_char() == b.default_char(),
    ensures
        a == b,
{
}

/// Two actions of a map without shared keys may swap their keys.
pub proof fn swapped_keys_stay_distinct(
    map: KeybindMap,
    swapped: KeybindMap,
    a: BuiltinAction,
    b: BuiltinAction,
)
    requires
        map.distinct(),
        swapped.bound(a) == map.bound(b),
        swapped.bound(b) == map.bound(a),
        forall|other: BuiltinAction|
            other != a && other != b ==> #[trigger] swapped.bound(other) == map.bound(other),
    ensures
        swapped.distinct(),
{
    assert forall|x: BuiltinAction, y: BuiltinAction|
        #[trigger] swapped.bound(x) == #[trigger] swapped.bound(y) implies x == y by {
        let fx = if x == a { b } else if x == b { a } else { x };
        let fy = if y == a { b } else if y == b { a } else { y };
        assert(map.bound(fx) == swapped.bound(x));
        assert(map.bound(fy) == swapped.bound(y));
    }
}

} // verus!
