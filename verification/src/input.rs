//! Terminal input events and screen areas.

use vstd::prelude::*;

use crate::scroll_text::least;

verus! {

/// A key of the keyboard.
#[derive(Debug, Clone, Copy, PartialEq, Eq, Structural)]
pub enum KeyCode {
    Char(char),
    Enter,
    Esc,
    Backspace,
    Tab,
    Left,
    Right,
    Up,
    Down,
    Home,
    End,
    PageUp,
    PageDown,
    /// A key without a meaning of its own.
    Other,
}

/// Keys held down together with another key.
#[derive(Debug, Clone, Copy, PartialEq, Eq, Structural)]
pub struct KeyModifiers {
    pub control: bool,
    pub alt: bool,
    pub shift: bool,
    /// Any further modifier key.
    pub other: bool,
}

/// A key press.
#[derive(Debug, Clone, Copy, PartialEq, Eq, Structural)]
pub struct KeyEvent {
    pub code: KeyCode,
    pub modifiers: KeyModifiers,
}

/// A button of the mouse.
#[derive(Debug, Clone, Copy, PartialEq, Eq, Structural)]
pub enum MouseButton {
    Left,
    Right,
    Middle,
}

/// What the mouse did.
#[derive(Debug, Clone, Copy, PartialEq, Eq, Structural)]
pub enum MouseEventKind {
    Down(MouseButton),
    Up(MouseButton),
    Drag(MouseButton),
    Moved,
    ScrollDown,
    ScrollUp,
    ScrollLeft,
    ScrollRight,
}

/// A mouse event at a screen cell.
#[derive(Debug, Clone, Copy, PartialEq, Eq, Structural)]
pub struct MouseEvent {
    pub kind: MouseEventKind,
    pub column: u16,
    pub row: u16,
}

/// A rectangle of screen cells.
#[derive(Debug, Clone, Copy, PartialEq, Eq, Structural)]
pub struct Rect {
    pub x: u16,
    pub y: u16,
    pub width: u16,
    pub height: u16,
}

impl Default for Rect {
    fn default() -> (area: Self)
        ensures
            area == (Rect { x: 0, y: 0, width: 0, height: 0 }),
    {
        Rect { x: 0, y: 0, width: 0, height: 0 }
    }
}

/// The larger values that a 16 bit coordinate cannot hold become the largest one.
pub open spec fn coordinate(value: int) -> int {
    least(value, u16::MAX as int)
}

impl Rect {
    pub fn new(x: u16, y: u16, width: u16, height: u16) -> (area: Rect)
        ensures
            area == (Rect { x, y, width, height }),
    {
        Rect { x, y, width, height }
    }

    /// Column behind the last column.
    pub open spec fn right(self) -> int {
        coordinate(self.x + self.width)
    }

    /// Row behind the last row.
    pub open spec fn bottom(self) -> int {
        coordinate(self.y + self.height)
    }

    /// Whether a cell lies in the area.
    pub open spec fn holds(self, column: int, row: int) -> bool {
        self.x <= column < self.right() && self.y <= row < self.bottom()
    }

    /// Whether a cell lies in the area and not on its border.
    pub open spec fn holds_inside(self, column: int, row: int) -> bool {
        self.x < column < self.right() - 1 && self.y < row < self.bottom() - 1
    }
}

pub fn rect_contains(area: Rect, column: u16, row: u16) -> (inside: bool)
    ensures
        inside == area.holds(column as int, row as int),
{
    column >= area.x && column < area.x.saturating_add(area.width) && row >= area.y && row
        < area.y.saturating_add(area.height)
}

pub fn rect_inner_contains(area: Rect, column: u16, row: u16) -> (inside: bool)
    ensures
        inside == area.holds_inside(column as int, row as int),
{
    column > area.x && column < area.x.saturating_add(area.width).saturating_sub(1) && row > area.y
        && row < area.y.saturating_add(area.height).saturating_sub(1)
}

impl KeyModifiers {
    /// No key is held down.
    #[verifier::allow_in_spec]
    pub fn none() -> (modifiers: KeyModifiers)
        returns
            (KeyModifiers { control: false, alt: false, shift: false, other: false }),
    {
        KeyModifiers { control: false, alt: false, shift: false, other: false }
    }

    /// The control key is held down.
    #[verifier::allow_in_spec]
    pub fn control() -> (modifiers: KeyModifiers)
        returns
            (KeyModifiers { control: true, alt: false, shift: false, other: false }),
    {
        KeyModifiers { control: true, alt: false, shift: false, other: false }
    }

    /// The alt key is held down.
    #[verifier::allow_in_spec]
    pub fn alt() -> (modifiers: KeyModifiers)
        returns
            (KeyModifiers { control: false, alt: true, shift: false, other: false }),
    {
        KeyModifiers { control: false, alt: true, shift: false, other: false }
    }

    /// The shift key is held down.
    #[verifier::allow_in_spec]
    pub fn shift() -> (modifiers: KeyModifiers)
        returns
            (KeyModifiers { control: false, alt: false, shift: true, other: false }),
    {
        KeyModifiers { control: false, alt: false, shift: true, other: false }
    }
}

impl KeyEvent {
    pub fn new(code: KeyCode, modifiers: KeyModifiers) -> (key: KeyEvent)
        ensures
            key == (KeyEvent { code, modifiers }),
    {
        KeyEvent { code, modifiers }
    }
}

/// Whether a key with its modifiers types a character.
pub open spec fn types_text(key: KeyEvent) -> bool {
    !key.modifiers.control && !key.modifiers.alt
}

pub fn accepts_text_input(key: KeyEvent) -> (accepts: bool)
    ensures
        accepts == types_text(key),
{
    !(key.modifiers.control || key.modifiers.alt)
}

pub fn is_ctrl_c(key: KeyEvent) -> (is: bool)
    ensures
        is == (key.code == KeyCode::Char('c') && key.modifiers.control),
{
    key.code == KeyCode::Char('c') && key.modifiers.control
}

} // verus!
