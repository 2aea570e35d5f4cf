//! UI and syntax color palettes.

use vstd::prelude::*;

use crate::style::{color_style, Color, Style};
use crate::text::same;

verus! {

/// A named color scheme of the configuration.
#[derive(Debug, Clone, Copy, PartialEq, Eq, Structural)]
pub enum ThemeName {
    Gruvbox,
    GithubDark,
}

/// Colors of the user interface.
#[derive(Debug, Clone, Copy, PartialEq, Eq, Structural)]
pub struct Theme {
    pub background: Color,
    pub background_alt: Color,
    pub border: Color,
    pub border_active: Color,
    pub text: Color,
    pub muted: Color,
    pub accent: Color,
    /// Text on the accent color.
    pub on_accent: Color,
    pub added: Color,
    pub added_bg: Color,
    pub removed: Color,
    pub removed_bg: Color,
    pub selected: Color,
    pub file_new: Color,
    pub file_deleted: Color,
    pub file_renamed: Color,
    pub file_modified: Color,
    pub line_number_fg: Color,
    pub line_number_bg: Color,
    pub context_bg: Color,
    pub syntax: SyntaxPalette,
}

/// Colors of highlighted source text.
#[derive(Debug, Clone, Copy, PartialEq, Eq, Structural)]
pub struct SyntaxPalette {
    pub background: Color,
    pub foreground: Color,
    pub selection: Color,
    pub comment: Color,
    pub string: Color,
    pub escape: Color,
    pub constant: Color,
    pub keyword: Color,
    pub named_type: Color,
    pub function: Color,
    pub variable: Color,
    pub support: Color,
    pub tag: Color,
    pub attribute: Color,
    pub markup: Color,
    pub invalid: Color,
    pub operator: Color,
    pub punctuation: Color,
    pub namespace: Color,
    pub property: Color,
    pub macro_call: Color,
    pub label: Color,
    pub regex: Color,
    pub link: Color,
    pub doc_comment: Color,
    pub list_marker: Color,
}

impl SyntaxPalette {
    /// Gruvbox, dark.
    #[verifier::allow_in_spec]
    pub fn gruvbox_dark() -> (palette: Self)
        returns
            (SyntaxPalette {
                background: Color::Rgb(0x28, 0x28, 0x28),
                foreground: Color::Rgb(0xeb, 0xdb, 0xb2),
                selection: Color::Rgb(0x50, 0x49, 0x45),
                comment: Color::Rgb(0x92, 0x83, 0x74),
                string: Color::Rgb(0xb8, 0xbb, 0x26),
                escape: Color::Rgb(0xfe, 0x80, 0x19),
                constant: Color::Rgb(0xd3, 0x86, 0x9b),
                keyword: Color::Rgb(0xfb, 0x49, 0x34),
                named_type: Color::Rgb(0xfa, 0xbd, 0x2f),
                function: Color::Rgb(0xb8, 0xbb, 0x26),
                variable: Color::Rgb(0x83, 0xa5, 0x98),
                support: Color::Rgb(0x8e, 0xc0, 0x7c),
                tag: Color::Rgb(0x83, 0xa5, 0x98),
                attribute: Color::Rgb(0x8e, 0xc0, 0x7c),
                markup: Color::Rgb(0xfa, 0xbd, 0x2f),
                invalid: Color::Rgb(0xfb, 0x49, 0x34),
                operator: Color::Rgb(0xfe, 0x80, 0x19),
                punctuation: Color::Rgb(0xeb, 0xdb, 0xb2),
                namespace: Color::Rgb(0x83, 0xa5, 0x98),
                property: Color::Rgb(0x83, 0xa5, 0x98),
                macro_call: Color::Rgb(0x8e, 0xc0, 0x7c),
                label: Color::Rgb(0xd3, 0x86, 0x9b),
                regex: Color::Rgb(0xfe, 0x80, 0x19),
                link: Color::Rgb(0x8e, 0xc0, 0x7c),
                doc_comment: Color::Rgb(0x92, 0x83, 0x74),
                list_marker: Color::Rgb(0xfe, 0x80, 0x19),
            }),
    {
        SyntaxPalette {
            background: Color::Rgb(0x28, 0x28, 0x28),
            foreground: Color::Rgb(0xeb, 0xdb, 0xb2),
            selection: Color::Rgb(0x50, 0x49, 0x45),
            comment: Color::Rgb(0x92, 0x83, 0x74),
            string: Color::Rgb(0xb8, 0xbb, 0x26),
            escape: Color::Rgb(0xfe, 0x80, 0x19),
            constant: Color::Rgb(0xd3, 0x86, 0x9b),
            keyword: Color::Rgb(0xfb, 0x49, 0x34),
            named_type: Color::Rgb(0xfa, 0xbd, 0x2f),
            function: Color::Rgb(0xb8, 0xbb, 0x26),
            variable: Color::Rgb(0x83, 0xa5, 0x98),
            support: Color::Rgb(0x8e, 0xc0, 0x7c),
            tag: Color::Rgb(0x83, 0xa5, 0x98),
            attribute: Color::Rgb(0x8e, 0xc0, 0x7c),
            markup: Color::Rgb(0xfa, 0xbd, 0x2f),
            invalid: Color::Rgb(0xfb, 0x49, 0x34),
            operator: Color::Rgb(0xfe, 0x80, 0x19),
            punctuation: Color::Rgb(0xeb, 0xdb, 0xb2),
            namespace: Color::Rgb(0x83, 0xa5, 0x98),
            property: Color::Rgb(0x83, 0xa5, 0x98),
            macro_call: Color::Rgb(0x8e, 0xc0, 0x7c),
            label: Color::Rgb(0xd3, 0x86, 0x9b),
            regex: Color::Rgb(0xfe, 0x80, 0x19),
            link: Color::Rgb(0x8e, 0xc0, 0x7c),
            doc_comment: Color::Rgb(0x92, 0x83, 0x74),
            list_marker: Color::Rgb(0xfe, 0x80, 0x19),
        }
    }

    /// GitHub dark on a matte background.
    #[verifier::allow_in_spec]
    pub fn github_dark_on_matte() -> (palette: Self)
        returns
            (SyntaxPalette {
                background: Color::Rgb(0x0b, 0x0b, 0x0a),
                foreground: Color::Rgb(0xc9, 0xd1, 0xd9),
                selection: Color::Rgb(0x33, 0x33, 0x33),
                comment: Color::Rgb(0x8b, 0x94, 0x9e),
                string: Color::Rgb(0xa5, 0xd6, 0xff),
                escape: Color::Rgb(0xff, 0xa6, 0x57),
                constant: Color::Rgb(0xd2, 0xa8, 0xff),
                keyword: Color::Rgb(0xff, 0x7b, 0x72),
                named_type: Color::Rgb(0xd2, 0x99, 0x22),
                function: Color::Rgb(0xd2, 0x99, 0x22),
                variable: Color::Rgb(0xc9, 0xd1, 0xd9),
                support: Color::Rgb(0xd2, 0x99, 0x22),
                tag: Color::Rgb(0x3f, 0xb9, 0x50),
                attribute: Color::Rgb(0xd2, 0xa8, 0xff),
                markup: Color::Rgb(0x58, 0xa6, 0xff),
                invalid: Color::Rgb(0xf8, 0x51, 0x49),
                operator: Color::Rgb(0xff, 0x7b, 0x72),
                punctuation: Color::Rgb(0xc9, 0xd1, 0xd9),
                namespace: Color::Rgb(0xc9, 0xd1, 0xd9),
                property: Color::Rgb(0x79, 0xc0, 0xff),
                macro_call: Color::Rgb(0xd2, 0xa8, 0xff),
                label: Color::Rgb(0xd2, 0x99, 0x22),
                regex: Color::Rgb(0xff, 0xa6, 0x57),
                link: Color::Rgb(0x58, 0xa6, 0xff),
                doc_comment: Color::Rgb(0x8b, 0x94, 0x9e),
                list_marker: Color::Rgb(0xff, 0xa6, 0x57),
            }),
    {
        SyntaxPalette {
            background: Color::Rgb(0x0b, 0x0b, 0x0a),
            foreground: Color::Rgb(0xc9, 0xd1, 0xd9),
            selection: Color::Rgb(0x33, 0x33, 0x33),
            comment: Color::Rgb(0x8b, 0x94, 0x9e),
            string: Color::Rgb(0xa5, 0xd6, 0xff),
            escape: Color::Rgb(0xff, 0xa6, 0x57),
            constant: Color::Rgb(0xd2, 0xa8, 0xff),
            keyword: Color::Rgb(0xff, 0x7b, 0x72),
            named_type: Color::Rgb(0xd2, 0x99, 0x22),
            function: Color::Rgb(0xd2, 0x99, 0x22),
            variable: Color::Rgb(0xc9, 0xd1, 0xd9),
            support: Color::Rgb(0xd2, 0x99, 0x22),
            tag: Color::Rgb(0x3f, 0xb9, 0x50),
            attribute: Color::Rgb(0xd2, 0xa8, 0xff),
            markup: Color::Rgb(0x58, 0xa6, 0xff),
            invalid: Color::Rgb(0xf8, 0x51, 0x49),
            operator: Color::Rgb(0xff, 0x7b, 0x72),
            punctuation: Color::Rgb(0xc9, 0xd1, 0xd9),
            namespace: Color::Rgb(0xc9, 0xd1, 0xd9),
            property: Color::Rgb(0x79, 0xc0, 0xff),
            macro_call: Color::Rgb(0xd2, 0xa8, 0xff),
            label: Color::Rgb(0xd2, 0x99, 0x22),
            regex: Color::Rgb(0xff, 0xa6, 0x57),
            link: Color::Rgb(0x58, 0xa6, 0xff),
            doc_comment: Color::Rgb(0x8b, 0x94, 0x9e),
            list_marker: Color::Rgb(0xff, 0xa6, 0x57),
        }
    }
}

impl Theme {
    /// Muted colors on a matte background, with Gruvbox syntax colors.
    #[verifier::allow_in_spec]
    pub fn matte_box() -> (palette: Self)
        returns
            (Theme {
                background: Color::Rgb(0x0b, 0x0b, 0x0a),
                background_alt: Color::Rgb(0x33, 0x33, 0x33),
                border: Color::Rgb(0x51, 0x51, 0x51),
                border_active: Color::Rgb(0x7d, 0xae, 0xa3),
                text: Color::Rgb(0xe2, 0xd2, 0xab),
                muted: Color::Rgb(0x8b, 0x9b, 0xaa),
                accent: Color::Rgb(0x7d, 0xae, 0xa3),
                on_accent: Color::Rgb(0x0b, 0x0b, 0x0a),
                added: Color::Rgb(0x6a, 0xd1, 0x8f),
                added_bg: Color::Rgb(0x24, 0x22, 0x12),
                removed: Color::Rgb(0xd3, 0x5f, 0x5f),
                removed_bg: Color::Rgb(0x26, 0x13, 0x13),
                selected: Color::Rgb(0x33, 0x33, 0x33),
                file_new: Color::Rgb(0x6a, 0xd1, 0x8f),
                file_deleted: Color::Rgb(0xd3, 0x5f, 0x5f),
                file_renamed: Color::Rgb(0xf5, 0x9e, 0x0b),
                file_modified: Color::Rgb(0x7d, 0xae, 0xa3),
                line_number_fg: Color::Rgb(0x8a, 0x8a, 0x8d),
                line_number_bg: Color::Rgb(0x16, 0x16, 0x14),
                context_bg: Color::Rgb(0x0b, 0x0b, 0x0a),
                syntax: SyntaxPalette::gruvbox_dark(),
            }),
    {
        Theme {
            background: Color::Rgb(0x0b, 0x0b, 0x0a),
            background_alt: Color::Rgb(0x33, 0x33, 0x33),
            border: Color::Rgb(0x51, 0x51, 0x51),
            border_active: Color::Rgb(0x7d, 0xae, 0xa3),
            text: Color::Rgb(0xe2, 0xd2, 0xab),
            muted: Color::Rgb(0x8b, 0x9b, 0xaa),
            accent: Color::Rgb(0x7d, 0xae, 0xa3),
            on_accent: Color::Rgb(0x0b, 0x0b, 0x0a),
            added: Color::Rgb(0x6a, 0xd1, 0x8f),
            added_bg: Color::Rgb(0x24, 0x22, 0x12),
            removed: Color::Rgb(0xd3, 0x5f, 0x5f),
            removed_bg: Color::Rgb(0x26, 0x13, 0x13),
            selected: Color::Rgb(0x33, 0x33, 0x33),
            file_new: Color::Rgb(0x6a, 0xd1, 0x8f),
            file_deleted: Color::Rgb(0xd3, 0x5f, 0x5f),
            file_renamed: Color::Rgb(0xf5, 0x9e, 0x0b),
            file_modified: Color::Rgb(0x7d, 0xae, 0xa3),
            line_number_fg: Color::Rgb(0x8a, 0x8a, 0x8d),
            line_number_bg: Color::Rgb(0x16, 0x16, 0x14),
            context_bg: Color::Rgb(0x0b, 0x0b, 0x0a),
            syntax: SyntaxPalette::gruvbox_dark(),
        }
    }

    /// GitHub dark.
    #[verifier::allow_in_spec]
    pub fn github_dark() -> (palette: Self)
        returns
            (Theme {
                background: Color::Rgb(0x0b, 0x0b, 0x0a),
                background_alt: Color::Rgb(0x33, 0x33, 0x33),
                border: Color::Rgb(0x30, 0x36, 0x3d),
                border_active: Color::Rgb(0x58, 0xa6, 0xff),
                text: Color::Rgb(0xc9, 0xd1, 0xd9),
                muted: Color::Rgb(0x8b, 0x94, 0x9e),
                accent: Color::Rgb(0x58, 0xa6, 0xff),
                on_accent: Color::Rgb(0x0b, 0x0b, 0x0a),
                added: Color::Rgb(0x3f, 0xb9, 0x50),
                added_bg: Color::Rgb(0x0f, 0x2a, 0x1a),
                removed: Color::Rgb(0xf8, 0x51, 0x49),
                removed_bg: Color::Rgb(0x2a, 0x12, 0x16),
                selected: Color::Rgb(0x33, 0x33, 0x33),
                file_new: Color::Rgb(0x3f, 0xb9, 0x50),
                file_deleted: Color::Rgb(0xf8, 0x51, 0x49),
                file_renamed: Color::Rgb(0xd2, 0x99, 0x22),
                file_modified: Color::Rgb(0x58, 0xa6, 0xff),
                line_number_fg: Color::Rgb(0x8b, 0x94, 0x9e),
                line_number_bg: Color::Rgb(0x16, 0x16, 0x14),
                context_bg: Color::Rgb(0x0b, 0x0b, 0x0a),
                syntax: SyntaxPalette::github_dark_on_matte(),
            }),
    {
        Theme {
            background: Color::Rgb(0x0b, 0x0b, 0x0a),
            background_alt: Color::Rgb(0x33, 0x33, 0x33),
            border: Color::Rgb(0x30, 0x36, 0x3d),
            border_active: Color::Rgb(0x58, 0xa6, 0xff),
            text: Color::Rgb(0xc9, 0xd1, 0xd9),
            muted: Color::Rgb(0x8b, 0x94, 0x9e),
            accent: Color::Rgb(0x58, 0xa6, 0xff),
            on_accent: Color::Rgb(0x0b, 0x0b, 0x0a),
            added: Color::Rgb(0x3f, 0xb9, 0x50),
            added_bg: Color::Rgb(0x0f, 0x2a, 0x1a),
            removed: Color::Rgb(0xf8, 0x51, 0x49),
            removed_bg: Color::Rgb(0x2a, 0x12, 0x16),
            selected: Color::Rgb(0x33, 0x33, 0x33),
            file_new: Color::Rgb(0x3f, 0xb9, 0x50),
            file_deleted: Color::Rgb(0xf8, 0x51, 0x49),
            file_renamed: Color::Rgb(0xd2, 0x99, 0x22),
            file_modified: Color::Rgb(0x58, 0xa6, 0xff),
            line_number_fg: Color::Rgb(0x8b, 0x94, 0x9e),
            line_number_bg: Color::Rgb(0x16, 0x16, 0x14),
            context_bg: Color::Rgb(0x0b, 0x0b, 0x0a),
            syntax: SyntaxPalette::github_dark_on_matte(),
        }
    }

    /// The default scheme: dark Gruvbox with hard contrast.
    #[verifier::allow_in_spec]
    pub fn gruvbox_dark_hard() -> (palette: Self)
        returns
            Theme::matte_box(),
    {
        Theme::matte_box()
    }

    /// Text on the background of the theme.
    #[verifier::allow_in_spec]
    pub fn base_style(self) -> (style: Style)
        returns
            color_style(self.text, self.background),
    {
        color_style(self.text, self.background)
    }
}

impl Default for ThemeName {
    fn default() -> (name: Self)
        ensures
            name == ThemeName::Gruvbox,
    {
        ThemeName::Gruvbox
    }
}

impl ThemeName {
    /// The value of the `theme` setting that selects the scheme.
    pub open spec fn setting(self) -> Seq<char> {
        match self {
            ThemeName::Gruvbox => "gruvbox"@,
            ThemeName::GithubDark => "github-dark"@,
        }
    }

    /// The scheme that a value of the `theme` setting selects.
    pub fn from_config_value(value: &str) -> (name: Option<ThemeName>)
        ensures
            match name {
                Some(scheme) => scheme.setting() == value@,
                None => forall|scheme: ThemeName| #[trigger] scheme.setting() != value@,
            },
    {
        if same(value, "gruvbox") {
            Some(ThemeName::Gruvbox)
        } else if same(value, "github-dark") {
            Some(ThemeName::GithubDark)
        } else {
            None
        }
    }

    /// The colors of the scheme.
    pub fn theme(self) -> (theme: Theme)
        ensures
            theme == self.palette(),
    {
        match self {
            ThemeName::Gruvbox => Theme::gruvbox_dark_hard(),
            ThemeName::GithubDark => Theme::github_dark(),
        }
    }

    /// The colors of the scheme.
    pub open spec fn palette(self) -> Theme {
        match self {
            ThemeName::Gruvbox => Theme::gruvbox_dark_hard(),
            ThemeName::GithubDark => Theme::github_dark(),
        }
    }
}

} // verus!
