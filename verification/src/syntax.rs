//! Syntax highlighting adapter.
//!
//! Callers provide file paths and plain line content; the adapter returns styled
//! spans. Which syntax a path has and how scopes are colored is decided here; the
//! parsing itself is done by `syntect`.

use std::sync::Arc;
use syntect::highlighting::{
    Color as EngineColor, FontStyle, HighlightIterator, HighlightState, Highlighter, StyleModifier,
    Theme as EngineTheme, ThemeItem,
};
use syntect::parsing::{ParseState, ScopeStack, SyntaxReference, SyntaxSet};
use vstd::prelude::*;

use crate::line::{group_line_views, piece, span_views, spans_text, Span, SpanView};
use crate::style::{Color, Modifier, Style};
use crate::text::{
    ascii_lower_all, file_name, file_name_of, lower_ascii_text, pieces, same, split, strip_prefix,
    texts, trim, trimmed, without_prefix,
};
use crate::theme::SyntaxPalette;

verus! {

/// `syntect::parsing::SyntaxSet`, a set of syntax definitions.
#[verifier::external_type_specification]
#[verifier::external_body]
pub struct ExSyntaxSet(SyntaxSet);

/// `syntect::parsing::SyntaxReference`, one syntax of a set.
#[verifier::external_type_specification]
#[verifier::external_body]
pub struct ExSyntaxReference(SyntaxReference);

/// `syntect::highlighting::Theme`, the styles of scopes.
#[verifier::external_type_specification]
#[verifier::external_body]
pub struct ExTheme(EngineTheme);

/// `syntect::parsing::ParseState`, where the parser is in a file.
#[verifier::external_type_specification]
#[verifier::external_body]
pub struct ExParseState(ParseState);

/// `syntect::highlighting::HighlightState`, where the highlighter is in a file.
#[verifier::external_type_specification]
#[verifier::external_body]
pub struct ExHighlightState(HighlightState);

/// The syntax definitions that come with `two_face`.
pub struct Syntaxes {
    set: Arc<SyntaxSet>,
}

/// One of the syntaxes, with its name. No two of those that come with `two_face` share
/// a name.
pub struct Syntax {
    reference: SyntaxReference,
    name: String,
}

impl View for Syntax {
    type V = Seq<char>;

    closed spec fn view(&self) -> Seq<char> {
        self.name@
    }
}

/// The name of the syntax that `two_face` has for a file extension or a file name.
pub uninterp spec fn syntax_by_extension(extension: Seq<char>) -> Option<Seq<char>>;

/// The name of the syntax of a name that `two_face` has.
pub uninterp spec fn syntax_by_name(name: Seq<char>) -> Option<Seq<char>>;

/// What a syntax, if any, is called.
pub open spec fn name_of(syntax: Option<Syntax>) -> Option<Seq<char>> {
    match syntax {
        Some(found) => Some(found@),
        None => None,
    }
}

/// `two_face::syntax::extra_no_newlines`: the syntax definitions for lines without
/// their line ends. They are built into the crate, so every call gives the same
/// ones.
#[verifier::external_body]
fn built_in_syntaxes() -> SyntaxSet {
    two_face::syntax::extra_no_newlines()
}

impl Syntaxes {
    /// The syntax definitions, for use all over the program.
    pub fn load() -> (syntaxes: Syntaxes) {
        Syntaxes { set: Arc::new(built_in_syntaxes()) }
    }

    /// `SyntaxSet::find_syntax_by_extension`: the last syntax of the set with a
    /// file extension, in any ASCII case. It depends on the extension alone, since
    /// there is one set.
    #[verifier::external_body]
    fn find_by_extension(&self, extension: &str) -> (found: Option<Syntax>)
        ensures
            name_of(found) == syntax_by_extension(extension@),
    {
        let reference = self.set.find_syntax_by_extension(extension)?;
        Some(Syntax { reference: reference.clone(), name: reference.name.clone() })
    }

    /// `SyntaxSet::find_syntax_by_name`: the last syntax of the set with a name. It
    /// depends on the name alone, since there is one set, and has that name.
    #[verifier::external_body]
    fn find_by_name(&self, name: &str) -> (found: Option<Syntax>)
        ensures
            name_of(found) == syntax_by_name(name@),
            found is Some ==> found->0@ == name@,
    {
        let reference = self.set.find_syntax_by_name(name)?;
        Some(Syntax { reference: reference.clone(), name: reference.name.clone() })
    }
}

/// Font style bit for bold text.
pub const BOLD_BIT: u8 = 1;

/// Font style bit for italic text.
pub const ITALIC_BIT: u8 = 4;

/// Color and emphasis of the scopes that a selector matches.
#[derive(Debug, Clone, Copy)]
pub struct ThemeRule {
    pub scope: &'static str,
    pub color: (u8, u8, u8),
    /// Font style bits, where the rule sets any.
    pub font: Option<u8>,
}

/// What a [`ThemeRule`] holds.
pub struct RuleView {
    pub scope: Seq<char>,
    pub color: (u8, u8, u8),
    /// Font style bits, where the rule sets any.
    pub font: Option<u8>,
}

impl View for ThemeRule {
    type V = RuleView;

    open spec fn view(&self) -> RuleView {
        RuleView { scope: self.scope@, color: self.color, font: self.font }
    }
}

/// Colors of a highlighted file.
pub struct SyntaxTheme {
    pub foreground: (u8, u8, u8),
    pub background: (u8, u8, u8),
    pub caret: (u8, u8, u8),
    pub accent: (u8, u8, u8),
    pub selection: (u8, u8, u8),
    pub rules: Vec<ThemeRule>,
}

/// What a [`SyntaxTheme`] holds.
pub struct SyntaxThemeView {
    pub foreground: (u8, u8, u8),
    pub background: (u8, u8, u8),
    pub caret: (u8, u8, u8),
    pub accent: (u8, u8, u8),
    pub selection: (u8, u8, u8),
    pub rules: Seq<RuleView>,
}

impl View for SyntaxTheme {
    type V = SyntaxThemeView;

    open spec fn view(&self) -> SyntaxThemeView {
        SyntaxThemeView {
            foreground: self.foreground,
            background: self.background,
            caret: self.caret,
            accent: self.accent,
            selection: self.selection,
            rules: self.rules@.map_values(|rule: ThemeRule| rule@),
        }
    }
}

/// A piece of a line with its color.
#[derive(Debug)]
pub struct Token {
    pub text: String,
    pub color: (u8, u8, u8),
    pub bold: bool,
}

/// What a [`Token`] holds.
pub struct SyntaxTokenView {
    pub text: Seq<char>,
    pub color: (u8, u8, u8),
    pub bold: bool,
}

impl View for Token {
    type V = SyntaxTokenView;

    open spec fn view(&self) -> SyntaxTokenView {
        SyntaxTokenView { text: self.text@, color: self.color, bold: self.bold }
    }
}

pub open spec fn syntax_token_views(tokens: Seq<Token>) -> Seq<SyntaxTokenView> {
    tokens.map_values(|token: Token| token@)
}

/// The text of the first `n` tokens.
pub open spec fn tokens_text(tokens: Seq<SyntaxTokenView>, n: int) -> Seq<char>
    decreases n,
{
    if n <= 0 { seq![] } else { tokens_text(tokens, n - 1) + tokens[n - 1].text }
}

/// How far the highlighting of a file is: its syntax and colors, and the lines
/// that have been read.
pub struct HighlightTrace {
    pub syntax: Seq<char>,
    pub theme: SyntaxThemeView,
    pub lines: Seq<Seq<char>>,
}

/// The colored pieces that `syntect` makes of a line behind other lines, `None`
/// where its parser fails.
pub uninterp spec fn highlighted(trace: HighlightTrace, line: Seq<char>) -> Option<
    Seq<SyntaxTokenView>,
>;

struct SyntaxEngine {
    set: Arc<SyntaxSet>,
    theme: EngineTheme,
    parse_state: ParseState,
    highlight_state: HighlightState,
    trace: Ghost<HighlightTrace>,
}

/// The theme of an engine while its rules are added.
struct EngineColors {
    theme: EngineTheme,
    held: Ghost<SyntaxThemeView>,
}

/// `syntect::highlighting::Theme`: the settings of a theme without rules.
#[verifier::external_body]
fn engine_settings(theme: &SyntaxTheme) -> (colors: EngineColors)
    ensures
        colors.held@ == (SyntaxThemeView { rules: seq![], ..theme@ }),
{
    let color = |(r, g, b): (u8, u8, u8)| Some(EngineColor { r, g, b, a: 255 });
    let mut engine = EngineTheme::default();
    engine.settings.foreground = color(theme.foreground);
    engine.settings.background = color(theme.background);
    engine.settings.caret = color(theme.caret);
    engine.settings.accent = color(theme.accent);
    engine.settings.selection = color(theme.selection);
    EngineColors { theme: engine, held: Ghost(arbitrary()) }
}

impl EngineColors {
    /// `syntect::highlighting::ThemeItem`: appends a rule to the theme, with its
    /// selector as `ScopeSelectors::from_str` reads it.
    #[verifier::external_body]
    fn push_rule(&mut self, rule: &ThemeRule)
        ensures
            final(self).held@ == (SyntaxThemeView {
                rules: old(self).held@.rules.push(rule@),
                ..old(self).held@
            }),
    {
        let (r, g, b) = rule.color;
        let foreground = Some(EngineColor { r, g, b, a: 255 });
        let font_style = rule.font.and_then(FontStyle::from_bits);
        self.theme.scopes.push(ThemeItem {
            scope: rule.scope.parse().unwrap_or_default(),
            style: StyleModifier { foreground, background: None, font_style },
        });
    }
}

/// The theme in the types of the engine.
fn engine_colors(theme: &SyntaxTheme) -> (colors: EngineColors)
    ensures
        colors.held@ == theme@,
{
    let mut colors = engine_settings(theme);
    let ghost all = theme@.rules;
    let mut i: usize = 0;
    assert(all.take(0) =~= seq![]);
    while i < theme.rules.len()
        invariant
            i <= theme.rules@.len(),
            all == theme@.rules,
            colors.held@ == (SyntaxThemeView { rules: all.take(i as int), ..theme@ }),
        decreases theme.rules@.len() - i,
    {
        assert(all.take(i + 1) =~= all.take(i as int).push(theme.rules@[i as int]@));
        colors.push_rule(&theme.rules[i]);
        i = i + 1;
    }
    assert(all.take(all.len() as int) =~= all);
    colors
}

/// `ParseState::new` for a syntax, `Highlighter::new` and `HighlightState::new` for
/// a theme: the start of a file, of which no line has been read.
#[verifier::external_body]
fn start_engine(set: &Arc<SyntaxSet>, syntax: &Syntax, colors: EngineColors) -> (engine: SyntaxEngine)
    ensures
        engine.trace@ == (HighlightTrace {
            syntax: syntax@,
            theme: colors.held@,
            lines: seq![],
        }),
{
    let highlight_state = HighlightState::new(&Highlighter::new(&colors.theme), ScopeStack::new());
    SyntaxEngine {
        set: set.clone(),
        theme: colors.theme,
        parse_state: ParseState::new(&syntax.reference),
        highlight_state,
        trace: Ghost(arbitrary()),
    }
}

impl SyntaxEngine {
    /// Reads a line: `ParseState::parse_line` and `HighlightIterator`. What comes
    /// out depends on the syntax, the theme, the lines read before and the line.
    /// The texts of the pieces make up the line.
    #[verifier::external_body]
    fn read_line(&mut self, line: &str) -> (tokens: Option<Vec<Token>>)
        ensures
            final(self).trace@ == (HighlightTrace {
                lines: old(self).trace@.lines.push(line@),
                ..old(self).trace@
            }),
            match tokens {
                Some(list) => highlighted(old(self).trace@, line@) == Some(
                    syntax_token_views(list@),
                ) && tokens_text(syntax_token_views(list@), list@.len() as int) == line@,
                None => highlighted(old(self).trace@, line@) is None,
            },
    {
        let ops = self.parse_state.parse_line(line, &self.set).ok()?;
        let highlighter = Highlighter::new(&self.theme);
        let pieces = HighlightIterator::new(&mut self.highlight_state, &ops, line, &highlighter);
        Some(pieces.map(|(style, text)| Token {
            text: text.to_owned(),
            color: (style.foreground.r, style.foreground.g, style.foreground.b),
            bold: style.font_style.contains(FontStyle::BOLD),
        }).collect())
    }
}

/// Styles the lines of a file, from the first one on.
pub struct SyntaxHighlighter {
    engine: Option<SyntaxEngine>,
}

impl View for SyntaxHighlighter {
    type V = Option<HighlightTrace>;

    closed spec fn view(&self) -> Option<HighlightTrace> {
        match self.engine {
            Some(engine) => Some(engine.trace@),
            None => None,
        }
    }
}

/// The highlighting behind one more line.
pub open spec fn advanced(trace: Option<HighlightTrace>, line: Seq<char>) -> Option<
    HighlightTrace,
> {
    match trace {
        Some(before) => Some(HighlightTrace { lines: before.lines.push(line), ..before }),
        None => None,
    }
}

/// The style of a token on a base style.
pub open spec fn token_look(token: SyntaxTokenView, base: Style) -> Style {
    let (r, g, b) = token.color;
    let colored = base.fg(Color::Rgb(r, g, b));
    if token.bold { colored.add_modifier(Modifier::Bold) } else { colored }
}

/// Styled pieces for colored ones.
pub open spec fn token_pieces(tokens: Seq<SyntaxTokenView>, base: Style) -> Seq<SpanView> {
    tokens.map_values(|token: SyntaxTokenView| piece(token.text, token_look(token, base)))
}

/// The pieces of a highlighted line: the whole line in the base style where the
/// file has no syntax or the line cannot be parsed.
pub open spec fn line_pieces(
    trace: Option<HighlightTrace>,
    line: Seq<char>,
    base: Style,
) -> Seq<SpanView> {
    match trace {
        Some(before) => match highlighted(before, line) {
            Some(tokens) => token_pieces(tokens, base),
            None => seq![piece(line, base)],
        },
        None => seq![piece(line, base)],
    }
}

proof fn token_pieces_text(tokens: Seq<SyntaxTokenView>, base: Style, n: int)
    requires
        0 <= n <= tokens.len(),
    ensures
        spans_text(token_pieces(tokens, base).take(n)) == tokens_text(tokens, n),
    decreases n,
{
    let all = token_pieces(tokens, base);
    if n > 0 {
        token_pieces_text(tokens, base, n - 1);
        assert(all.take(n).drop_last() =~= all.take(n - 1));
    }
}

/// Styled spans for colored pieces of a line.
pub fn styled_tokens(tokens: &Vec<Token>, base_style: Style) -> (spans: Vec<Span>)
    ensures
        span_views(spans@) == token_pieces(syntax_token_views(tokens@), base_style),
{
    broadcast use group_line_views;

    let ghost wanted = token_pieces(syntax_token_views(tokens@), base_style);
    let mut spans: Vec<Span> = Vec::new();
    let mut i: usize = 0;
    while i < tokens.len()
        invariant
            i <= tokens@.len(),
            wanted == token_pieces(syntax_token_views(tokens@), base_style),
            span_views(spans@) == wanted.take(i as int),
        decreases tokens@.len() - i,
    {
        let token = &tokens[i];
        assert(syntax_token_views(tokens@)[i as int] == token@);
        assert(wanted.take(i + 1) =~= wanted.take(i as int).push(wanted[i as int]));
        spans.push(styled_token(token, base_style));
        i = i + 1;
    }
    assert(wanted.take(wanted.len() as int) =~= wanted);
    spans
}

fn styled_token(token: &Token, base_style: Style) -> (span: Span)
    ensures
        span@ == piece(token@.text, token_look(token@, base_style)),
{
    let (r, g, b) = token.color;
    let colored = base_style.fg(Color::Rgb(r, g, b));
    let style = if token.bold { colored.add_modifier(Modifier::Bold) } else { colored };
    Span::styled(token.text.as_str(), style)
}

fn plain_line(content: &str, style: Style) -> (spans: Vec<Span>)
    ensures
        span_views(spans@) == seq![piece(content@, style)],
{
    let mut spans: Vec<Span> = Vec::new();
    spans.push(Span::styled(content, style));
    assert(span_views(spans@) =~= seq![piece(content@, style)]);
    spans
}

impl SyntaxHighlighter {
    pub fn disabled() -> (highlighter: Self)
        ensures
            highlighter@ is None,
    {
        SyntaxHighlighter { engine: None }
    }

    /// The highlighter for the file at a path.
    pub fn for_path(path: &str, palette: SyntaxPalette, syntaxes: &Syntaxes) -> (highlighter: Self)
        ensures
            highlighter@ == (match path_syntax(path@) {
                Some(syntax) => Some(
                    HighlightTrace { syntax, theme: palette_theme(palette), lines: seq![] },
                ),
                None => None,
            }),
    {
        match syntax_for_path(path, syntaxes) {
            Some(syntax) => {
                let theme = syntax_theme(palette);
                let colors = engine_colors(&theme);
                SyntaxHighlighter { engine: Some(start_engine(&syntaxes.set, &syntax, colors)) }
            },
            None => SyntaxHighlighter::disabled(),
        }
    }

    pub fn is_enabled(&self) -> (enabled: bool)
        ensures
            enabled == (self@ is Some),
    {
        self.engine.is_some()
    }

    /// Styles the next line. No text is lost.
    pub fn highlight_line(&mut self, content: &str, base_style: Style) -> (spans: Vec<Span>)
        ensures
            final(self)@ == advanced(old(self)@, content@),
            span_views(spans@) == line_pieces(old(self)@, content@, base_style),
            spans_text(span_views(spans@)) == content@,
    {
        proof {
            let whole = seq![piece(content@, base_style)];
            assert(whole.drop_last() =~= seq![]);
            assert(spans_text(whole.drop_last()) =~= seq![]);
            assert(spans_text(whole) =~= content@);
        }
        match self.engine.take() {
            Some(engine) => {
                let mut engine = engine;
                let tokens = engine.read_line(content);
                self.engine = Some(engine);
                match tokens {
                    Some(tokens) => {
                        proof {
                            let views = syntax_token_views(tokens@);
                            let all = token_pieces(views, base_style);
                            token_pieces_text(views, base_style, views.len() as int);
                            assert(all.take(all.len() as int) =~= all);
                        }
                        styled_tokens(&tokens, base_style)
                    },
                    None => plain_line(content, base_style),
                }
            },
            None => plain_line(content, base_style),
        }
    }

    /// Reads the next line without styling it.
    pub fn advance_line(&mut self, content: &str)
        ensures
            final(self)@ == advanced(old(self)@, content@),
    {
        match self.engine.take() {
            Some(engine) => {
                let mut engine = engine;
                let _ = engine.read_line(content);
                self.engine = Some(engine);
            },
            None => {},
        }
    }
}

/// A file extension and a name by which a syntax may be found.
pub open spec fn candidate_views(candidates: Seq<(&'static str, &'static str)>) -> Seq<
    (Seq<char>, Seq<char>),
> {
    candidates.map_values(|c: (&'static str, &'static str)| (c.0@, c.1@))
}

/// The syntax of an extension, else of a name.
pub open spec fn by_extension_or_name(extension: Seq<char>, name: Seq<char>) -> Option<
    Seq<char>,
> {
    match syntax_by_extension(extension) {
        Some(found) => Some(found),
        None => syntax_by_name(name),
    }
}

/// The syntax of the first candidate, from a position on, that has one.
pub open spec fn first_syntax(candidates: Seq<(Seq<char>, Seq<char>)>, from: int) -> Option<
    Seq<char>,
>
    decreases candidates.len() - from,
{
    if from >= candidates.len() {
        None
    } else {
        match by_extension_or_name(candidates[from].0, candidates[from].1) {
            Some(found) => Some(found),
            None => first_syntax(candidates, from + 1),
        }
    }
}

/// What stands behind the last dot of the file name of a path. A dot at the start
/// of the name does not count.
pub open spec fn path_extension_of(path: Seq<char>) -> Option<Seq<char>> {
    match file_name_of(path) {
        Some(name) => {
            let parts = pieces(name, '.');
            if parts.len() < 2 || (parts.len() == 2 && parts[0].len() == 0) {
                None
            } else {
                Some(parts.last())
            }
        },
        None => None,
    }
}

pub fn path_extension(path: &str) -> (extension: Option<String>)
    ensures
        match extension {
            Some(text) => path_extension_of(path@) == Some(text@),
            None => path_extension_of(path@) is None,
        },
{
    let name = match file_name(path) {
        Some(name) => name,
        None => {
            return None;
        },
    };
    let mut parts = split(name.as_str(), '.');
    let ghost views = texts(parts@);
    assert(views.len() == parts@.len());
    assert(views[0] == parts@[0]@);
    if parts.len() < 2 || (parts.len() == 2 && parts[0].as_str().is_empty()) {
        return None;
    }
    let last: usize = parts.len() - 1;
    assert(views[views.len() - 1] == parts@[last as int]@);
    Some(parts.swap_remove(last))
}

/// Whether a file name is a known one, perhaps with something behind a dot.
pub open spec fn known_file(file_name: Seq<char>, known: Seq<char>) -> bool {
    file_name == known || (match without_prefix(file_name, known) {
        Some(rest) => rest.len() > 0 && rest[0] == '.',
        None => false,
    })
}

pub fn matches_known_file(file_name: &str, known_file_name: &str) -> (matches: bool)
    ensures
        matches == known_file(file_name@, known_file_name@),
{
    if same(file_name, known_file_name) {
        return true;
    }
    match strip_prefix(file_name, known_file_name) {
        Some(rest) => !rest.is_empty() && rest.get_char(0) == '.',
        None => false,
    }
}

pub open spec fn toml_candidates() -> Seq<(Seq<char>, Seq<char>)> {
    seq![("toml"@, "TOML"@), ("ini"@, "INI"@), ("yaml"@, "YAML"@), ("json"@, "JSON"@)]
}

/// The candidates for an extension in lower case.
pub open spec fn extension_candidates(ext: Seq<char>) -> Seq<(Seq<char>, Seq<char>)> {
    if ext == "rs"@ {
        seq![("rs"@, "Rust"@)]
    } else if ext == "vue"@ {
        seq![("vue"@, "Vue Component"@), ("vue"@, "Vue"@)]
    } else if ext == "svelte"@ {
        seq![("svelte"@, "Svelte"@)]
    } else if ext == "js"@ || ext == "jsx"@ || ext == "mjs"@ || ext == "cjs"@ {
        seq![("js"@, "JavaScript"@)]
    } else if ext == "ts"@ || ext == "mts"@ || ext == "cts"@ {
        seq![("ts"@, "TypeScript"@), ("js"@, "JavaScript"@)]
    } else if ext == "tsx"@ {
        seq![("tsx"@, "TypescriptReact"@), ("ts"@, "TypeScript"@), ("js"@, "JavaScript"@)]
    } else if ext == "json"@ || ext == "jsonc"@ || ext == "json5"@ {
        seq![("json"@, "JSON"@)]
    } else if ext == "md"@ || ext == "markdown"@ || ext == "mdx"@ {
        seq![("md"@, "Markdown"@)]
    } else if ext == "html"@ || ext == "htm"@ {
        seq![("html"@, "HTML"@)]
    } else if ext == "xml"@ || ext == "xhtml"@ || ext == "svg"@ {
        seq![("xml"@, "XML"@)]
    } else if ext == "css"@ {
        seq![("css"@, "CSS"@)]
    } else if ext == "scss"@ {
        seq![("scss"@, "SCSS"@)]
    } else if ext == "sass"@ {
        seq![("sass"@, "Sass"@), ("scss"@, "SCSS"@), ("css"@, "CSS"@)]
    } else if ext == "less"@ {
        seq![("less"@, "LESS"@)]
    } else if ext == "styl"@ || ext == "stylus"@ {
        seq![("styl"@, "Stylus"@)]
    } else if ext == "yaml"@ || ext == "yml"@ {
        seq![("yaml"@, "YAML"@)]
    } else if ext == "graphql"@ || ext == "gql"@ {
        seq![("graphql"@, "GraphQL"@)]
    } else if ext == "sql"@ || ext == "psql"@ || ext == "mysql"@ {
        seq![("sql"@, "SQL"@)]
    } else if ext == "sh"@ || ext == "bash"@ || ext == "zsh"@ {
        seq![("sh"@, "ShellScript"@)]
    } else if ext == "fish"@ {
        seq![("fish"@, "Fish"@)]
    } else if ext == "ps1"@ {
        seq![("ps1"@, "PowerShell"@)]
    } else if ext == "toml"@ {
        toml_candidates()
    } else if ext == "ini"@ {
        seq![("ini"@, "INI"@)]
    } else if ext == "py"@ || ext == "pyw"@ {
        seq![("py"@, "Python"@)]
    } else if ext == "go"@ {
        seq![("go"@, "Go"@)]
    } else if ext == "java"@ {
        seq![("java"@, "Java"@)]
    } else if ext == "kt"@ || ext == "kts"@ {
        seq![("kt"@, "Kotlin"@)]
    } else if ext == "swift"@ {
        seq![("swift"@, "Swift"@)]
    } else if ext == "php"@ {
        seq![("php"@, "PHP"@)]
    } else if ext == "rb"@ {
        seq![("rb"@, "Ruby"@)]
    } else if ext == "lua"@ {
        seq![("lua"@, "Lua"@)]
    } else if ext == "vim"@ {
        seq![("vim"@, "VimL"@)]
    } else if ext == "nix"@ {
        seq![("nix"@, "Nix"@)]
    } else if ext == "tf"@ || ext == "tfvars"@ {
        seq![("tf"@, "Terraform"@)]
    } else if ext == "c"@ || ext == "h"@ {
        seq![("c"@, "C"@)]
    } else if ext == "cc"@ || ext == "cpp"@ || ext == "cxx"@ || ext == "hpp"@ || ext == "hh"@ || ext == "hxx"@ {
        seq![("cpp"@, "C++"@)]
    } else if ext == "cs"@ {
        seq![("cs"@, "C#"@)]
    } else {
        seq![]
    }
}

/// The candidates for a path of a known name or extension.
pub open spec fn path_candidates(path: Seq<char>) -> Seq<(Seq<char>, Seq<char>)> {
    let name = ascii_lower_all(
        match file_name_of(path) {
            Some(name) => name,
            None => path,
        },
    );
    if known_file(name, "dockerfile"@) || known_file(name, "containerfile"@) {
        seq![("dockerfile"@, "Dockerfile"@)]
    } else if known_file(name, "makefile"@) {
        seq![("makefile"@, "Makefile"@)]
    } else if known_file(name, ".env"@) {
        seq![("env"@, "DotENV"@), ("sh"@, "Bash"@)]
    } else if name == ".gitignore"@ || name == ".dockerignore"@ {
        seq![("gitignore"@, "Git Ignore"@)]
    } else if name == ".editorconfig"@ || name == "cargo.lock"@ || name == "go.mod"@ || name
        == "go.sum"@ {
        toml_candidates()
    } else if name == "package-lock.json"@ || name == "flake.lock"@ {
        seq![("json"@, "JSON"@)]
    } else if name == "pnpm-lock.yaml"@ {
        seq![("yaml"@, "YAML"@)]
    } else if name == "yarn.lock"@ {
        seq![("yaml"@, "YAML"@), ("toml"@, "TOML"@)]
    } else {
        match path_extension_of(path) {
            Some(ext) => extension_candidates(ascii_lower_all(ext)),
            None => seq![],
        }
    }
}

/// The syntax of the file at a path: by its file name, by its extension, else by
/// what is known of such files.
pub open spec fn path_syntax(path: Seq<char>) -> Option<Seq<char>> {
    let path = trimmed(path);
    if path.len() == 0 {
        None
    } else {
        match path_parts_syntax(path) {
            Some(found) => Some(found),
            None => first_syntax(path_candidates(path), 0),
        }
    }
}

/// The syntax of a file name or, without one, of its extension.
pub open spec fn path_parts_syntax(path: Seq<char>) -> Option<Seq<char>> {
    match file_name_of(path) {
        Some(name) => match syntax_by_extension(name) {
            Some(found) => Some(found),
            None => match path_extension_of(path) {
                Some(ext) => syntax_by_extension(ext),
                None => None,
            },
        },
        None => None,
    }
}

fn list0() -> (list: Vec<(&'static str, &'static str)>)
    ensures
        candidate_views(list@) == Seq::<(Seq<char>, Seq<char>)>::empty(),
{
    let list: Vec<(&'static str, &'static str)> = Vec::new();
    assert(candidate_views(list@) =~= seq![]);
    list
}

fn list1(a: (&'static str, &'static str)) -> (list: Vec<(&'static str, &'static str)>)
    ensures
        candidate_views(list@) == seq![(a.0@, a.1@)],
{
    let list = vec![a];
    assert(candidate_views(list@) =~= seq![(a.0@, a.1@)]);
    list
}

fn list2(a: (&'static str, &'static str), b: (&'static str, &'static str)) -> (list: Vec<
    (&'static str, &'static str),
>)
    ensures
        candidate_views(list@) == seq![(a.0@, a.1@), (b.0@, b.1@)],
{
    let list = vec![a, b];
    assert(candidate_views(list@) =~= seq![(a.0@, a.1@), (b.0@, b.1@)]);
    list
}

fn list3(
    a: (&'static str, &'static str),
    b: (&'static str, &'static str),
    c: (&'static str, &'static str),
) -> (list: Vec<(&'static str, &'static str)>)
    ensures
        candidate_views(list@) == seq![(a.0@, a.1@), (b.0@, b.1@), (c.0@, c.1@)],
{
    let list = vec![a, b, c];
    assert(candidate_views(list@) =~= seq![(a.0@, a.1@), (b.0@, b.1@), (c.0@, c.1@)]);
    list
}

fn list_toml_candidates() -> (list: Vec<(&'static str, &'static str)>)
    ensures
        candidate_views(list@) == toml_candidates(),
{
    let list = vec![("toml", "TOML"), ("ini", "INI"), ("yaml", "YAML"), ("json", "JSON")];
    assert(candidate_views(list@) =~= toml_candidates());
    list
}

/// The candidates for an extension in lower case.
pub fn candidates_for_known_extension(ext: &str) -> (list: Vec<(&'static str, &'static str)>)
    ensures
        candidate_views(list@) == extension_candidates(ext@),
{
    if same(ext, "rs") {
        list1(("rs", "Rust"))
    } else if same(ext, "vue") {
        list2(("vue", "Vue Component"), ("vue", "Vue"))
    } else if same(ext, "svelte") {
        list1(("svelte", "Svelte"))
    } else if same(ext, "js") || same(ext, "jsx") || same(ext, "mjs") || same(ext, "cjs") {
        list1(("js", "JavaScript"))
    } else if same(ext, "ts") || same(ext, "mts") || same(ext, "cts") {
        list2(("ts", "TypeScript"), ("js", "JavaScript"))
    } else if same(ext, "tsx") {
        list3(("tsx", "TypescriptReact"), ("ts", "TypeScript"), ("js", "JavaScript"))
    } else if same(ext, "json") || same(ext, "jsonc") || same(ext, "json5") {
        list1(("json", "JSON"))
    } else if same(ext, "md") || same(ext, "markdown") || same(ext, "mdx") {
        list1(("md", "Markdown"))
    } else if same(ext, "html") || same(ext, "htm") {
        list1(("html", "HTML"))
    } else if same(ext, "xml") || same(ext, "xhtml") || same(ext, "svg") {
        list1(("xml", "XML"))
    } else if same(ext, "css") {
        list1(("css", "CSS"))
    } else if same(ext, "scss") {
        list1(("scss", "SCSS"))
    } else if same(ext, "sass") {
        list3(("sass", "Sass"), ("scss", "SCSS"), ("css", "CSS"))
    } else if same(ext, "less") {
        list1(("less", "LESS"))
    } else if same(ext, "styl") || same(ext, "stylus") {
        list1(("styl", "Stylus"))
    } else if same(ext, "yaml") || same(ext, "yml") {
        list1(("yaml", "YAML"))
    } else if same(ext, "graphql") || same(ext, "gql") {
        list1(("graphql", "GraphQL"))
    } else if same(ext, "sql") || same(ext, "psql") || same(ext, "mysql") {
        list1(("sql", "SQL"))
    } else if same(ext, "sh") || same(ext, "bash") || same(ext, "zsh") {
        list1(("sh", "ShellScript"))
    } else if same(ext, "fish") {
        list1(("fish", "Fish"))
    } else if same(ext, "ps1") {
        list1(("ps1", "PowerShell"))
    } else if same(ext, "toml") {
        list_toml_candidates()
    } else if same(ext, "ini") {
        list1(("ini", "INI"))
    } else if same(ext, "py") || same(ext, "pyw") {
        list1(("py", "Python"))
    } else if same(ext, "go") {
        list1(("go", "Go"))
    } else if same(ext, "java") {
        list1(("java", "Java"))
    } else if same(ext, "kt") || same(ext, "kts") {
        list1(("kt", "Kotlin"))
    } else if same(ext, "swift") {
        list1(("swift", "Swift"))
    } else if same(ext, "php") {
        list1(("php", "PHP"))
    } else if same(ext, "rb") {
        list1(("rb", "Ruby"))
    } else if same(ext, "lua") {
        list1(("lua", "Lua"))
    } else if same(ext, "vim") {
        list1(("vim", "VimL"))
    } else if same(ext, "nix") {
        list1(("nix", "Nix"))
    } else if same(ext, "tf") || same(ext, "tfvars") {
        list1(("tf", "Terraform"))
    } else if same(ext, "c") || same(ext, "h") {
        list1(("c", "C"))
    } else if same(ext, "cc") || same(ext, "cpp") || same(ext, "cxx") || same(ext, "hpp") || same(ext, "hh") || same(ext, "hxx") {
        list1(("cpp", "C++"))
    } else if same(ext, "cs") {
        list1(("cs", "C#"))
    } else {
        list0()
    }
}

/// The candidates for a path of a known name or extension.
pub fn candidates_for_known_path(path: &str) -> (list: Vec<(&'static str, &'static str)>)
    ensures
        candidate_views(list@) == path_candidates(path@),
{
    let name = match file_name(path) {
        Some(name) => lower_ascii_text(name.as_str()),
        None => lower_ascii_text(path),
    };
    let name = name.as_str();
    if matches_known_file(name, "dockerfile") || matches_known_file(name, "containerfile") {
        return list1(("dockerfile", "Dockerfile"));
    }
    if matches_known_file(name, "makefile") {
        return list1(("makefile", "Makefile"));
    }
    if matches_known_file(name, ".env") {
        return list2(("env", "DotENV"), ("sh", "Bash"));
    }
    if same(name, ".gitignore") || same(name, ".dockerignore") {
        return list1(("gitignore", "Git Ignore"));
    }
    if same(name, ".editorconfig") || same(name, "cargo.lock") || same(name, "go.mod") || same(
        name,
        "go.sum",
    ) {
        return list_toml_candidates();
    }
    if same(name, "package-lock.json") || same(name, "flake.lock") {
        return list1(("json", "JSON"));
    }
    if same(name, "pnpm-lock.yaml") {
        return list1(("yaml", "YAML"));
    }
    if same(name, "yarn.lock") {
        return list2(("yaml", "YAML"), ("toml", "TOML"));
    }
    match path_extension(path) {
        Some(ext) => candidates_for_known_extension(lower_ascii_text(ext.as_str()).as_str()),
        None => list0(),
    }
}

fn find_first_syntax(
    syntaxes: &Syntaxes,
    candidates: &Vec<(&'static str, &'static str)>,
) -> (found: Option<Syntax>)
    ensures
        name_of(found) == first_syntax(candidate_views(candidates@), 0),
{
    let ghost views = candidate_views(candidates@);
    let mut i: usize = 0;
    while i < candidates.len()
        invariant
            i <= candidates@.len(),
            views == candidate_views(candidates@),
            first_syntax(views, 0) == first_syntax(views, i as int),
        decreases candidates@.len() - i,
    {
        let (ext, name) = candidates[i];
        assert(views[i as int] == (ext@, name@));
        let found = find_by_extension_or_name(syntaxes, ext, name);
        if found.is_some() {
            return found;
        }
        i = i + 1;
    }
    None
}

fn find_by_extension_or_name(syntaxes: &Syntaxes, extension: &str, name: &str) -> (found: Option<
    Syntax,
>)
    ensures
        name_of(found) == by_extension_or_name(extension@, name@),
{
    let found = syntaxes.find_by_extension(extension);
    if found.is_some() {
        return found;
    }
    syntaxes.find_by_name(name)
}

fn syntax_for_path_parts(path: &str, syntaxes: &Syntaxes) -> (found: Option<Syntax>)
    ensures
        name_of(found) == path_parts_syntax(path@),
{
    let name = match file_name(path) {
        Some(name) => name,
        None => {
            return None;
        },
    };
    let found = syntaxes.find_by_extension(name.as_str());
    if found.is_some() {
        return found;
    }
    match path_extension(path) {
        Some(ext) => syntaxes.find_by_extension(ext.as_str()),
        None => None,
    }
}

/// The syntax of the file at a path.
pub fn syntax_for_path(path: &str, syntaxes: &Syntaxes) -> (found: Option<Syntax>)
    ensures
        name_of(found) == path_syntax(path@),
{
    let path = trim(path);
    if path.is_empty() {
        return None;
    }
    let found = syntax_for_path_parts(path, syntaxes);
    if found.is_some() {
        return found;
    }
    find_first_syntax(syntaxes, &candidates_for_known_path(path))
}

/// The name of the syntax of the file at a path.
pub fn syntax_name_for_path(path: &str, syntaxes: &Syntaxes) -> (name: Option<String>)
    ensures
        match name {
            Some(text) => path_syntax(path@) == Some(text@),
            None => path_syntax(path@) is None,
        },
{
    match syntax_for_path(path, syntaxes) {
        Some(syntax) => Some(syntax.name),
        None => None,
    }
}

pub open spec fn rule(scope: Seq<char>, color: Color, font: Option<u8>) -> RuleView {
    RuleView { scope, color: color_rgb(color), font }
}

/// The colors of scopes, the later ones over the earlier ones.
pub open spec fn palette_rules(palette: SyntaxPalette) -> Seq<RuleView> {
    seq![
        rule("comment"@, palette.comment, Some(ITALIC_BIT)),
        rule("comment.line.documentation, comment.block.documentation"@, palette.doc_comment, Some(ITALIC_BIT)),
        rule("punctuation.definition.comment"@, palette.comment, None),
        rule("string"@, palette.string, None),
        rule("constant.character.escape"@, palette.escape, None),
        rule("constant.numeric"@, palette.constant, None),
        rule("constant.language"@, palette.constant, None),
        rule("constant.other, constant.character"@, palette.constant, None),
        rule("variable.language"@, palette.constant, None),
        rule("keyword"@, palette.keyword, None),
        rule("keyword.control, keyword.other"@, palette.keyword, None),
        rule("keyword.operator"@, palette.operator, None),
        rule("storage, storage.type, storage.modifier"@, palette.keyword, None),
        rule("punctuation.separator, punctuation.terminator, punctuation.accessor"@, palette.punctuation, None),
        rule("punctuation.section, punctuation.definition, punctuation.delimiter"@, palette.punctuation, None),
        rule("support.type, entity.name.type, entity.name.class"@, palette.named_type, None),
        rule("entity.name.function, support.function"@, palette.function, Some(BOLD_BIT)),
        rule("entity.name.macro, support.macro, meta.macro"@, palette.macro_call, None),
        rule("entity.name.namespace, entity.name.module, entity.name.package"@, palette.namespace, None),
        rule("variable.parameter, variable.other.member"@, palette.variable, None),
        rule("variable.other.property, meta.property, support.type.property-name"@, palette.property, None),
        rule("meta.object-literal.key, string.unquoted, entity.name.label"@, palette.label, None),
        rule("support.constant, support.variable"@, palette.support, None),
        rule("entity.name.tag, punctuation.definition.tag"@, palette.tag, None),
        rule("entity.other.attribute-name"@, palette.attribute, None),
        rule("markup.heading"@, palette.markup, Some(BOLD_BIT)),
        rule("markup.bold"@, palette.markup, Some(BOLD_BIT)),
        rule("markup.italic"@, palette.constant, Some(ITALIC_BIT)),
        rule("markup.raw, markup.inline.raw"@, palette.string, None),
        rule("markup.quote"@, palette.comment, Some(ITALIC_BIT)),
        rule("markup.link, markup.underline.link, constant.other.reference.link"@, palette.link, None),
        rule("markup.list, punctuation.definition.list"@, palette.list_marker, None),
        rule("string.regexp, constant.other.character-class"@, palette.regex, None),
        rule("punctuation.definition.string"@, palette.string, None),
        rule("invalid"@, palette.invalid, None),
    ]
}

pub open spec fn palette_theme(palette: SyntaxPalette) -> SyntaxThemeView {
    SyntaxThemeView {
        foreground: color_rgb(palette.foreground),
        background: color_rgb(palette.background),
        caret: color_rgb(palette.foreground),
        accent: color_rgb(palette.support),
        selection: color_rgb(palette.selection),
        rules: palette_rules(palette),
    }
}

fn theme_item(scope: &'static str, color: Color) -> (item: ThemeRule)
    ensures
        item@ == rule(scope@, color, None),
{
    ThemeRule { scope, color: rgb(color), font: None }
}

fn italic_theme_item(scope: &'static str, color: Color) -> (item: ThemeRule)
    ensures
        item@ == rule(scope@, color, Some(ITALIC_BIT)),
{
    ThemeRule { scope, color: rgb(color), font: Some(ITALIC_BIT) }
}

fn bold_theme_item(scope: &'static str, color: Color) -> (item: ThemeRule)
    ensures
        item@ == rule(scope@, color, Some(BOLD_BIT)),
{
    ThemeRule { scope, color: rgb(color), font: Some(BOLD_BIT) }
}

/// The colors of highlighted files for a palette.
pub fn syntax_theme(palette: SyntaxPalette) -> (theme: SyntaxTheme)
    ensures
        theme@ == palette_theme(palette),
{
    let rules = vec![
        italic_theme_item("comment", palette.comment),
        italic_theme_item("comment.line.documentation, comment.block.documentation", palette.doc_comment),
        theme_item("punctuation.definition.comment", palette.comment),
        theme_item("string", palette.string),
        theme_item("constant.character.escape", palette.escape),
        theme_item("constant.numeric", palette.constant),
        theme_item("constant.language", palette.constant),
        theme_item("constant.other, constant.character", palette.constant),
        theme_item("variable.language", palette.constant),
        theme_item("keyword", palette.keyword),
        theme_item("keyword.control, keyword.other", palette.keyword),
        theme_item("keyword.operator", palette.operator),
        theme_item("storage, storage.type, storage.modifier", palette.keyword),
        theme_item("punctuation.separator, punctuation.terminator, punctuation.accessor", palette.punctuation),
        theme_item("punctuation.section, punctuation.definition, punctuation.delimiter", palette.punctuation),
        theme_item("support.type, entity.name.type, entity.name.class", palette.named_type),
        bold_theme_item("entity.name.function, support.function", palette.function),
        theme_item("entity.name.macro, support.macro, meta.macro", palette.macro_call),
        theme_item("entity.name.namespace, entity.name.module, entity.name.package", palette.namespace),
        theme_item("variable.parameter, variable.other.member", palette.variable),
        theme_item("variable.other.property, meta.property, support.type.property-name", palette.property),
        theme_item("meta.object-literal.key, string.unquoted, entity.name.label", palette.label),
        theme_item("support.constant, support.variable", palette.support),
        theme_item("entity.name.tag, punctuation.definition.tag", palette.tag),
        theme_item("entity.other.attribute-name", palette.attribute),
        bold_theme_item("markup.heading", palette.markup),
        bold_theme_item("markup.bold", palette.markup),
        italic_theme_item("markup.italic", palette.constant),
        theme_item("markup.raw, markup.inline.raw", palette.string),
        italic_theme_item("markup.quote", palette.comment),
        theme_item("markup.link, markup.underline.link, constant.other.reference.link", palette.link),
        theme_item("markup.list, punctuation.definition.list", palette.list_marker),
        theme_item("string.regexp, constant.other.character-class", palette.regex),
        theme_item("punctuation.definition.string", palette.string),
        theme_item("invalid", palette.invalid),
    ];
    assert(rules@.map_values(|rule: ThemeRule| rule@) =~= palette_rules(palette));
    SyntaxTheme {
        foreground: rgb(palette.foreground),
        background: rgb(palette.background),
        caret: rgb(palette.foreground),
        accent: rgb(palette.support),
        selection: rgb(palette.selection),
        rules,
    }
}

/// Red, green and blue of a color.
pub open spec fn color_rgb(color: Color) -> (u8, u8, u8) {
    match color {
        Color::Reset => (0xeb, 0xdb, 0xb2),
        Color::Black => (0x00, 0x00, 0x00),
        Color::Red => (0x80, 0x00, 0x00),
        Color::Green => (0x00, 0x80, 0x00),
        Color::Yellow => (0x80, 0x80, 0x00),
        Color::Blue => (0x00, 0x00, 0x80),
        Color::Magenta => (0x80, 0x00, 0x80),
        Color::Cyan => (0x00, 0x80, 0x80),
        Color::Gray => (0xc0, 0xc0, 0xc0),
        Color::DarkGray => (0x80, 0x80, 0x80),
        Color::LightRed => (0xff, 0x00, 0x00),
        Color::LightGreen => (0x00, 0xff, 0x00),
        Color::LightYellow => (0xff, 0xff, 0x00),
        Color::LightBlue => (0x00, 0x00, 0xff),
        Color::LightMagenta => (0xff, 0x00, 0xff),
        Color::LightCyan => (0x00, 0xff, 0xff),
        Color::White => (0xff, 0xff, 0xff),
        Color::Rgb(r, g, b) => (r, g, b),
        Color::Indexed(index) => indexed_color(index as int),
    }
}

/// The colors that the first sixteen indexes stand for.
pub open spec fn ansi_color(index: int) -> Color {
    if index == 0 {
        Color::Black
    } else if index == 1 {
        Color::Red
    } else if index == 2 {
        Color::Green
    } else if index == 3 {
        Color::Yellow
    } else if index == 4 {
        Color::Blue
    } else if index == 5 {
        Color::Magenta
    } else if index == 6 {
        Color::Cyan
    } else if index == 7 {
        Color::Gray
    } else if index == 8 {
        Color::DarkGray
    } else if index == 9 {
        Color::LightRed
    } else if index == 10 {
        Color::LightGreen
    } else if index == 11 {
        Color::LightYellow
    } else if index == 12 {
        Color::LightBlue
    } else if index == 13 {
        Color::LightMagenta
    } else if index == 14 {
        Color::LightCyan
    } else {
        Color::White
    }
}

/// Level of a step of the color cube.
pub open spec fn cube_level(step: int) -> u8 {
    if step == 0 { 0 } else { (55 + step * 40) as u8 }
}

/// Red, green and blue of an index: the named colors, a cube with six steps for
/// each color, and shades of gray.
pub open spec fn indexed_color(index: int) -> (u8, u8, u8) {
    if index < 16 {
        match ansi_color(index) {
            Color::Black => (0x00, 0x00, 0x00),
            Color::Red => (0x80, 0x00, 0x00),
            Color::Green => (0x00, 0x80, 0x00),
            Color::Yellow => (0x80, 0x80, 0x00),
            Color::Blue => (0x00, 0x00, 0x80),
            Color::Magenta => (0x80, 0x00, 0x80),
            Color::Cyan => (0x00, 0x80, 0x80),
            Color::Gray => (0xc0, 0xc0, 0xc0),
            Color::DarkGray => (0x80, 0x80, 0x80),
            Color::LightRed => (0xff, 0x00, 0x00),
            Color::LightGreen => (0x00, 0xff, 0x00),
            Color::LightYellow => (0xff, 0xff, 0x00),
            Color::LightBlue => (0x00, 0x00, 0xff),
            Color::LightMagenta => (0xff, 0x00, 0xff),
            Color::LightCyan => (0x00, 0xff, 0xff),
            _ => (0xff, 0xff, 0xff),
        }
    } else if index < 232 {
        let step = index - 16;
        (cube_level(step / 36), cube_level((step % 36) / 6), cube_level(step % 6))
    } else {
        let gray = (8 + (index - 232) * 10) as u8;
        (gray, gray, gray)
    }
}

pub fn rgb(color: Color) -> (parts: (u8, u8, u8))
    ensures
        parts == color_rgb(color),
{
    match color {
        Color::Reset => (0xeb, 0xdb, 0xb2),
        Color::Black => (0x00, 0x00, 0x00),
        Color::Red => (0x80, 0x00, 0x00),
        Color::Green => (0x00, 0x80, 0x00),
        Color::Yellow => (0x80, 0x80, 0x00),
        Color::Blue => (0x00, 0x00, 0x80),
        Color::Magenta => (0x80, 0x00, 0x80),
        Color::Cyan => (0x00, 0x80, 0x80),
        Color::Gray => (0xc0, 0xc0, 0xc0),
        Color::DarkGray => (0x80, 0x80, 0x80),
        Color::LightRed => (0xff, 0x00, 0x00),
        Color::LightGreen => (0x00, 0xff, 0x00),
        Color::LightYellow => (0xff, 0xff, 0x00),
        Color::LightBlue => (0x00, 0x00, 0xff),
        Color::LightMagenta => (0xff, 0x00, 0xff),
        Color::LightCyan => (0x00, 0xff, 0xff),
        Color::White => (0xff, 0xff, 0xff),
        Color::Rgb(r, g, b) => (r, g, b),
        Color::Indexed(index) => indexed_rgb(index),
    }
}

pub fn indexed_rgb(index: u8) -> (parts: (u8, u8, u8))
    ensures
        parts == indexed_color(index as int),
{
    if index < 16 {
        match index {
            0 => (0x00, 0x00, 0x00),
            1 => (0x80, 0x00, 0x00),
            2 => (0x00, 0x80, 0x00),
            3 => (0x80, 0x80, 0x00),
            4 => (0x00, 0x00, 0x80),
            5 => (0x80, 0x00, 0x80),
            6 => (0x00, 0x80, 0x80),
            7 => (0xc0, 0xc0, 0xc0),
            8 => (0x80, 0x80, 0x80),
            9 => (0xff, 0x00, 0x00),
            10 => (0x00, 0xff, 0x00),
            11 => (0xff, 0xff, 0x00),
            12 => (0x00, 0x00, 0xff),
            13 => (0xff, 0x00, 0xff),
            14 => (0x00, 0xff, 0xff),
            _ => (0xff, 0xff, 0xff),
        }
    } else if index < 232 {
        let value: u8 = index - 16;
        (xterm_level(value / 36), xterm_level((value % 36) / 6), xterm_level(value % 6))
    } else {
        let value: u8 = 8 + (index - 232) * 10;
        (value, value, value)
    }
}

fn xterm_level(value: u8) -> (level: u8)
    requires
        value <= 5,
    ensures
        level == cube_level(value as int),
{
    if value == 0 { 0 } else { 55 + value * 40 }
}

} // verus!
