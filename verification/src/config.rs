//! User configuration.

use vstd::prelude::*;
use vstd::string::*;

use crate::custom_command::{
    binding_views, command_key_error, BindingView, CommandKey, CustomCommandBinding,
};
use crate::keybind::{
    key_error, parse_action_name, unknown_action_message, BuiltinAction, BuiltinKey, KeybindMap,
};
use crate::search::text_option;
use crate::text::{cat3, join_path, joined_path, trim, trimmed};
use crate::theme::ThemeName;

verus! {

#[derive(Debug, PartialEq, Eq)]
pub struct AppConfig {
    pub theme: ThemeName,
    pub commands: Vec<CustomCommandBinding>,
    pub keybinds: KeybindMap,
}

/// Settings as they stand in the configuration file.
#[derive(Debug)]
pub struct RawConfig {
    pub theme: Option<String>,
    pub commands: Vec<RawCommand>,
    /// Action names and the keys that they are bound to, each name once.
    pub keybinds: Vec<RawKeybind>,
}

#[derive(Debug)]
pub struct RawCommand {
    pub key: String,
    pub label: String,
    pub command: String,
}

#[derive(Debug)]
pub struct RawKeybind {
    pub action: String,
    pub key: String,
}

/// What a [`RawCommand`] holds.
pub struct RawCommandView {
    pub key: Seq<char>,
    pub label: Seq<char>,
    pub command: Seq<char>,
}

/// What a [`RawKeybind`] holds.
pub struct RawKeybindView {
    pub action: Seq<char>,
    pub key: Seq<char>,
}

/// What a [`RawConfig`] holds.
pub struct RawConfigView {
    pub theme: Option<Seq<char>>,
    pub commands: Seq<RawCommandView>,
    pub keybinds: Seq<RawKeybindView>,
}

impl View for RawCommand {
    type V = RawCommandView;

    open spec fn view(&self) -> RawCommandView {
        RawCommandView { key: self.key@, label: self.label@, command: self.command@ }
    }
}

impl View for RawKeybind {
    type V = RawKeybindView;

    open spec fn view(&self) -> RawKeybindView {
        RawKeybindView { action: self.action@, key: self.key@ }
    }
}

impl View for RawConfig {
    type V = RawConfigView;

    open spec fn view(&self) -> RawConfigView {
        RawConfigView {
            theme: text_option(self.theme),
            commands: self.commands@.map_values(|command: RawCommand| command@),
            keybinds: self.keybinds@.map_values(|keybind: RawKeybind| keybind@),
        }
    }
}

/// What is wrong with the theme setting, if anything.
pub open spec fn theme_error(theme: Option<Seq<char>>) -> Option<Seq<char>> {
    match theme {
        Some(value) => if value == ThemeName::Gruvbox.setting() || value
            == ThemeName::GithubDark.setting() {
            None
        } else {
            Some("invalid theme `"@ + value + "`; expected one of: gruvbox, github-dark"@)
        },
        None => None,
    }
}

/// What is wrong with a keybind on its own, if anything.
pub open spec fn keybind_error(keybind: RawKeybindView) -> Option<Seq<char>> {
    if BuiltinAction::first_named(keybind.action, 0) is None {
        Some(unknown_action_message(keybind.action))
    } else {
        key_error(keybind.key)
    }
}

/// The first keybind at or behind a position that is wrong on its own.
pub open spec fn first_keybind_error(keybinds: Seq<RawKeybindView>, from: int) -> Option<Seq<char>>
    decreases keybinds.len() - from,
{
    if from >= keybinds.len() {
        None
    } else if let Some(message) = keybind_error(keybinds[from]) {
        Some(message)
    } else {
        first_keybind_error(keybinds, from + 1)
    }
}

/// The key of an action behind the first `n` keybinds: that of the last one that
/// names it, else the default.
pub open spec fn key_of(keybinds: Seq<RawKeybindView>, action: BuiltinAction, n: int) -> char
    decreases n,
{
    if n <= 0 {
        action.default_char()
    } else if BuiltinAction::first_named(keybinds[n - 1].action, 0) == Some(action) {
        keybinds[n - 1].key[0]
    } else {
        key_of(keybinds, action, n - 1)
    }
}

/// Whether a map binds every action as the keybinds say.
pub open spec fn bound_as(map: KeybindMap, keybinds: Seq<RawKeybindView>) -> bool {
    forall|action: BuiltinAction|
        #[trigger] map.bound(action) == key_of(keybinds, action, keybinds.len() as int)
}

/// Whether the command at a position uses the key of an earlier one.
pub open spec fn key_taken(commands: Seq<RawCommandView>, at: int) -> bool {
    exists|i: int| 0 <= i < at && (#[trigger] commands[i]).key == commands[at].key
}

/// What is wrong with the command at a position, given the built-in keys and the
/// commands before it, if anything.
pub open spec fn command_error(
    commands: Seq<RawCommandView>,
    keybinds: KeybindMap,
    at: int,
) -> Option<Seq<char>> {
    let command = commands[at];
    if let Some(message) = command_key_error(command.key) {
        Some(message)
    } else if keybinds.holds_char(command.key[0]) {
        Some(
            "custom command key `"@ + command.key + "` conflicts with a built-in keybind"@,
        )
    } else if key_taken(commands, at) {
        Some("duplicate custom command key `"@ + command.key + "`"@)
    } else if trimmed(command.label).len() == 0 {
        Some("custom command label cannot be empty"@)
    } else if trimmed(command.command).len() == 0 {
        Some("custom command `"@ + command.label + "` shell command cannot be empty"@)
    } else {
        None
    }
}

/// The first command at or behind a position that is wrong.
pub open spec fn first_command_error(
    commands: Seq<RawCommandView>,
    keybinds: KeybindMap,
    from: int,
) -> Option<Seq<char>>
    decreases commands.len() - from,
{
    if from >= commands.len() {
        None
    } else if let Some(message) = command_error(commands, keybinds, from) {
        Some(message)
    } else {
        first_command_error(commands, keybinds, from + 1)
    }
}

/// What is wrong with the settings, if anything, where `keybinds` is the map that
/// they describe: the theme, a keybind on its own, two keybinds, or a command.
pub open spec fn config_error(raw: RawConfigView, keybinds: KeybindMap) -> Option<Seq<char>> {
    if let Some(message) = theme_error(raw.theme) {
        Some(message)
    } else if let Some(message) = first_keybind_error(raw.keybinds, 0) {
        Some(message)
    } else if let Some(message) = keybinds.clash_error() {
        Some(message)
    } else {
        first_command_error(raw.commands, keybinds, 0)
    }
}

/// A command setting without errors as a binding.
pub open spec fn binding_of(command: RawCommandView) -> BindingView {
    BindingView {
        key: CommandKey { value: command.key[0] },
        label: command.label,
        command: command.command,
    }
}

impl Default for AppConfig {
    fn default() -> (config: Self)
        ensures
            config.theme == ThemeName::Gruvbox,
            config.commands@.len() == 0,
            bound_as(config.keybinds, seq![]),
    {
        AppConfig {
            theme: ThemeName::Gruvbox,
            commands: Vec::new(),
            keybinds: KeybindMap::defaults(),
        }
    }
}

/// Where the configuration file is looked for.
pub open spec fn config_place(config_home: Option<Seq<char>>, home: Option<Seq<char>>) -> Option<
    Seq<char>,
> {
    if config_home is Some && config_home->0.len() > 0 {
        Some(joined_path(config_home->0, "chunk/config.toml"@))
    } else if home is Some && home->0.len() > 0 {
        Some(joined_path(home->0, ".config/chunk/config.toml"@))
    } else {
        None
    }
}

/// Path of the configuration file, from the values of `$XDG_CONFIG_HOME` and
/// `$HOME`.
pub fn config_path_from_env(config_home: Option<String>, home: Option<String>) -> (path: Option<
    String,
>)
    ensures
        text_option(path) == (match (text_option(config_home), text_option(home)) {
            (Some(dir), _) if dir.len() > 0 => Some(joined_path(dir, "chunk/config.toml"@)),
            (_, Some(dir)) if dir.len() > 0 => Some(
                joined_path(dir, ".config/chunk/config.toml"@),
            ),
            _ => None,
        }),
        text_option(path) == config_place(text_option(config_home), text_option(home)),
{
    if let Some(dir) = config_home {
        if !dir.as_str().is_empty() {
            return Some(join_path(dir.as_str(), "chunk/config.toml"));
        }
    }
    if let Some(dir) = home {
        if !dir.as_str().is_empty() {
            return Some(join_path(dir.as_str(), ".config/chunk/config.toml"));
        }
    }
    None
}

/// Checks the settings.
pub fn parse(raw: RawConfig) -> (config: Result<AppConfig, String>)
    ensures
        match config {
            Ok(config) => {
                &&& bound_as(config.keybinds, raw@.keybinds)
                &&& config_error(raw@, config.keybinds) is None
                &&& raw@.theme is None ==> config.theme == ThemeName::Gruvbox
                &&& raw@.theme is Some ==> config.theme.setting() == raw@.theme->0
                &&& binding_views(config.commands@) =~= raw@.commands.map_values(
                    |command: RawCommandView| binding_of(command),
                )
            },
            Err(message) => {
                ||| theme_error(raw@.theme) == Some(message@)
                ||| theme_error(raw@.theme) is None && first_keybind_error(raw@.keybinds, 0)
                    == Some(message@)
                ||| exists|keybinds: KeybindMap| #[trigger]
                    bound_as(keybinds, raw@.keybinds) && config_error(raw@, keybinds) == Some(
                        message@,
                    )
            },
        },
{
    let theme = match parse_theme(&raw.theme) {
        Ok(theme) => theme,
        Err(message) => {
            return Err(message);
        },
    };
    let keybinds = match parse_keybinds(&raw.keybinds) {
        Ok(keybinds) => keybinds,
        Err(message) => {
            return Err(message);
        },
    };
    let ghost settings = raw@.commands;
    let mut commands: Vec<CustomCommandBinding> = Vec::new();
    let mut i: usize = 0;
    while i < raw.commands.len()
        invariant
            i <= raw.commands@.len(),
            settings == raw@.commands,
            theme_error(raw@.theme) is None,
            first_keybind_error(raw@.keybinds, 0) is None,
            keybinds.clash_error() is None,
            bound_as(keybinds, raw@.keybinds),
            first_command_error(settings, keybinds, 0) == first_command_error(
                settings,
                keybinds,
                i as int,
            ),
            commands@.len() == i,
            forall|j: int|
                0 <= j < i ==> (#[trigger] commands@[j])@ == binding_of(settings[j]) && settings[j].key.len()
                    == 1,
        decreases raw.commands@.len() - i,
    {
        let raw_command = &raw.commands[i];
        assert(settings[i as int] == raw_command@);
        let key = match CommandKey::parse(raw_command.key.as_str()) {
            Ok(key) => key,
            Err(message) => {
                return Err(message);
            },
        };
        assert(raw_command@.key =~= seq![key.value]);
        assert forall|j: int| 0 <= j < i implies ((#[trigger] settings[j]).key
            == raw_command@.key) == (commands@[j]@.key.value == key.value) by {
            assert(settings[j].key =~= seq![commands@[j]@.key.value]);
        }
        match validate_command(raw_command, key, &commands, &keybinds, Ghost(settings)) {
            Ok(()) => {},
            Err(message) => {
                return Err(message);
            },
        }
        commands.push(
            CustomCommandBinding::new(
                key,
                raw_command.label.clone(),
                raw_command.command.clone(),
            ),
        );
        i = i + 1;
    }
    Ok(AppConfig { theme, commands, keybinds })
}

fn parse_theme(theme: &Option<String>) -> (name: Result<ThemeName, String>)
    ensures
        match name {
            Ok(found) => theme_error(text_option(*theme)) is None && (match text_option(*theme) {
                Some(value) => found.setting() == value,
                None => found == ThemeName::Gruvbox,
            }),
            Err(message) => theme_error(text_option(*theme)) == Some(message@),
        },
{
    match theme {
        Some(value) => match ThemeName::from_config_value(value.as_str()) {
            Some(name) => Ok(name),
            None => {
                assert(ThemeName::Gruvbox.setting() != value@);
                assert(ThemeName::GithubDark.setting() != value@);
                Err(
                    cat3(
                        "invalid theme `",
                        value.as_str(),
                        "`; expected one of: gruvbox, github-dark",
                    ),
                )
            },
        },
        None => Ok(ThemeName::Gruvbox),
    }
}

fn parse_keybinds(raw: &Vec<RawKeybind>) -> (map: Result<KeybindMap, String>)
    ensures
        ({
            let keybinds = raw@.map_values(|keybind: RawKeybind| keybind@);
            match map {
                Ok(map) => bound_as(map, keybinds) && first_keybind_error(keybinds, 0) is None
                    && map.clash_error() is None,
                Err(message) => {
                    ||| first_keybind_error(keybinds, 0) == Some(message@)
                    ||| first_keybind_error(keybinds, 0) is None && exists|map: KeybindMap|
                        #[trigger] bound_as(map, keybinds) && map.clash_error() == Some(message@)
                },
            }
        }),
{
    let ghost keybinds = raw@.map_values(|keybind: RawKeybind| keybind@);
    let mut map = KeybindMap::defaults();
    let mut i: usize = 0;
    while i < raw.len()
        invariant
            i <= raw@.len(),
            keybinds == raw@.map_values(|keybind: RawKeybind| keybind@),
            first_keybind_error(keybinds, 0) == first_keybind_error(keybinds, i as int),
            forall|action: BuiltinAction|
                #[trigger] map.bound(action) == key_of(keybinds, action, i as int),
        decreases raw@.len() - i,
    {
        assert(keybinds[i as int] == raw@[i as int]@);
        let action = match parse_action_name(raw[i].action.as_str()) {
            Ok(action) => action,
            Err(message) => {
                return Err(message);
            },
        };
        let key = match BuiltinKey::parse(raw[i].key.as_str()) {
            Ok(key) => key,
            Err(message) => {
                return Err(message);
            },
        };
        let ghost before = map;
        map.set(action, key);
        assert forall|other: BuiltinAction| #[trigger] map.bound(other) == key_of(
            keybinds,
            other,
            i + 1,
        ) by {
            assert(before.bound(other) == key_of(keybinds, other, i as int));
            assert(BuiltinAction::nth(other.index()) == other);
            assert(BuiltinAction::nth(action.index()) == action);
        }
        i = i + 1;
    }
    assert(bound_as(map, keybinds));
    match map.validate() {
        Ok(()) => Ok(map),
        Err(message) => Err(message),
    }
}

fn validate_command(
    command: &RawCommand,
    key: CommandKey,
    earlier: &Vec<CustomCommandBinding>,
    keybinds: &KeybindMap,
    settings: Ghost<Seq<RawCommandView>>,
) -> (result: Result<(), String>)
    requires
        earlier@.len() < settings@.len(),
        settings@[earlier@.len() as int] == command@,
        command_key_error(command@.key) is None,
        key.value == command@.key[0],
        forall|j: int|
            0 <= j < earlier@.len() ==> ((#[trigger] settings@[j]).key == command@.key) == (
            earlier@[j]@.key.value == key.value),
    ensures
        match result {
            Ok(()) => command_error(settings@, *keybinds, earlier@.len() as int) is None,
            Err(message) => command_error(settings@, *keybinds, earlier@.len() as int) == Some(
                message@,
            ),
        },
{
    if keybinds.contains_char(key.character()) {
        return Err(
            cat3(
                "custom command key `",
                command.key.as_str(),
                "` conflicts with a built-in keybind",
            ),
        );
    }
    let mut j: usize = 0;
    while j < earlier.len()
        invariant
            j <= earlier@.len(),
            earlier@.len() < settings@.len(),
            settings@[earlier@.len() as int] == command@,
            command_key_error(command@.key) is None,
            key.value == command@.key[0],
            !keybinds.holds_char(key.value),
            forall|i: int|
                0 <= i < earlier@.len() ==> ((#[trigger] settings@[i]).key == command@.key) == (
                earlier@[i]@.key.value == key.value),
            forall|i: int| 0 <= i < j ==> (#[trigger] settings@[i]).key != command@.key,
        decreases earlier@.len() - j,
    {
        if earlier[j].key.value == key.value {
            assert(settings@[j as int].key == command@.key);
            assert(key_taken(settings@, earlier@.len() as int));
            return Err(cat3("duplicate custom command key `", command.key.as_str(), "`"));
        }
        assert(settings@[j as int].key != command@.key);
        j = j + 1;
    }
    if trim(command.label.as_str()).is_empty() {
        return Err("custom command label cannot be empty".to_owned());
    }
    if trim(command.command.as_str()).is_empty() {
        return Err(
            cat3(
                "custom command `",
                command.label.as_str(),
                "` shell command cannot be empty",
            ),
        );
    }
    Ok(())
}

proof fn no_command_error(commands: Seq<RawCommandView>, keybinds: KeybindMap, from: int, at: int)
    requires
        0 <= from <= at < commands.len(),
        first_command_error(commands, keybinds, from) is None,
    ensures
        command_error(commands, keybinds, at) is None,
    decreases commands.len() - from,
{
    if from < at {
        no_command_error(commands, keybinds, from + 1, at);
    }
}

/// In settings without errors every key has one meaning: no two built-in actions share
/// a key, no two commands do, and no command takes the key of a built-in action.
pub proof fn accepted_keys_have_one_meaning(
    raw: RawConfigView,
    keybinds: KeybindMap,
    i: int,
    j: int,
)
    requires
        config_error(raw, keybinds) is None,
        0 <= i < raw.commands.len(),
        0 <= j < raw.commands.len(),
    ensures
        keybinds.distinct(),
        !keybinds.holds_char(binding_of(raw.commands[i]).key.value),
        i != j ==> binding_of(raw.commands[i]).key != binding_of(raw.commands[j]).key,
{
    let commands = raw.commands;
    no_command_error(commands, keybinds, 0, i);
    no_command_error(commands, keybinds, 0, j);
    if binding_of(commands[i]).key == binding_of(commands[j]).key {
        assert(commands[i].key =~= commands[j].key);
        if i < j {
            assert(key_taken(commands, j));
        } else if j < i {
            assert(key_taken(commands, i));
        }
    }
}

} // verus!
