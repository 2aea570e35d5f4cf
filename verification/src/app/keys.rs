//! Keys that close overlays and scroll text.

use vstd::prelude::*;

use crate::input::{KeyCode, KeyEvent};
use crate::keybind::{BuiltinAction, KeybindMap};
use crate::scroll_text::{ScrollText, ScrollView, VerticalDirection};

verus! {

#[derive(Debug, Clone, Copy, PartialEq, Eq, Structural)]
pub enum ScrollKeyAction {
    Line(VerticalDirection),
    Page(VerticalDirection),
    Top,
    Bottom,
}

/// Whether a key is Esc or bound to quitting.
pub open spec fn quits(key: KeyEvent, keybinds: KeybindMap) -> bool {
    key.code == KeyCode::Esc || keybinds.action(key) == Some(BuiltinAction::Quit)
}

/// Whether a key closes the help overlay.
pub open spec fn closes_help(key: KeyEvent, keybinds: KeybindMap) -> bool {
    quits(key, keybinds) || keybinds.action(key) == Some(BuiltinAction::Help)
}

pub fn closes_help_overlay(key: KeyEvent, keybinds: KeybindMap) -> (closes: bool)
    ensures
        closes == closes_help(key, keybinds),
{
    if closes_with_quit(key, keybinds) {
        return true;
    }
    match keybinds.action_for(key) {
        Some(BuiltinAction::Help) => true,
        _ => false,
    }
}

pub fn closes_with_quit(key: KeyEvent, keybinds: KeybindMap) -> (closes: bool)
    ensures
        closes == quits(key, keybinds),
{
    if key.code == KeyCode::Esc {
        return true;
    }
    match keybinds.action_for(key) {
        Some(BuiltinAction::Quit) => true,
        _ => false,
    }
}

/// What a key does to scrollable text.
pub open spec fn scroll_action(key: KeyEvent, keybinds: KeybindMap) -> Option<ScrollKeyAction> {
    if key.code == KeyCode::Down {
        Some(ScrollKeyAction::Line(VerticalDirection::Down))
    } else if key.code == KeyCode::Up {
        Some(ScrollKeyAction::Line(VerticalDirection::Up))
    } else if key.code == KeyCode::PageDown || (key.code == KeyCode::Char('d')
        && key.modifiers.control) {
        Some(ScrollKeyAction::Page(VerticalDirection::Down))
    } else if key.code == KeyCode::PageUp || (key.code == KeyCode::Char('u')
        && key.modifiers.control) {
        Some(ScrollKeyAction::Page(VerticalDirection::Up))
    } else if key.code == KeyCode::Home {
        Some(ScrollKeyAction::Top)
    } else if key.code == KeyCode::End {
        Some(ScrollKeyAction::Bottom)
    } else {
        match keybinds.action(key) {
            Some(BuiltinAction::MoveDown) => Some(ScrollKeyAction::Line(VerticalDirection::Down)),
            Some(BuiltinAction::MoveUp) => Some(ScrollKeyAction::Line(VerticalDirection::Up)),
            Some(BuiltinAction::Top) => Some(ScrollKeyAction::Top),
            Some(BuiltinAction::Bottom) => Some(ScrollKeyAction::Bottom),
            _ => None,
        }
    }
}

/// Text scrolled by an action, where a page has `page` rows.
pub open spec fn scrolled(scroll: ScrollView, action: ScrollKeyAction, page: int) -> ScrollView {
    match action {
        ScrollKeyAction::Line(direction) => scroll.moved(direction, 1),
        ScrollKeyAction::Page(direction) => scroll.moved(direction, page),
        ScrollKeyAction::Top => scroll.to_top(),
        ScrollKeyAction::Bottom => scroll.to_bottom(),
    }
}

/// Text scrolled by a key.
pub open spec fn scrolled_by_key(
    scroll: ScrollView,
    key: KeyEvent,
    page: int,
    keybinds: KeybindMap,
) -> ScrollView {
    match scroll_action(key, keybinds) {
        Some(action) => scrolled(scroll, action, page),
        None => scroll,
    }
}

pub fn apply_scroll_key(
    scroll: &mut ScrollText,
    key: KeyEvent,
    page: usize,
    keybinds: KeybindMap,
) -> (scrolls: bool)
    ensures
        final(scroll)@ == scrolled_by_key(old(scroll)@, key, page as int, keybinds),
        scrolls == (scroll_action(key, keybinds) is Some),
{
    match scroll_key_action(key, keybinds) {
        Some(action) => {
            apply_scroll_action(scroll, action, page);
            true
        },
        None => false,
    }
}

pub fn scroll_key_action(key: KeyEvent, keybinds: KeybindMap) -> (action: Option<ScrollKeyAction>)
    ensures
        action == scroll_action(key, keybinds),
{
    match key.code {
        KeyCode::Down => Some(ScrollKeyAction::Line(VerticalDirection::Down)),
        KeyCode::Up => Some(ScrollKeyAction::Line(VerticalDirection::Up)),
        KeyCode::PageDown => Some(ScrollKeyAction::Page(VerticalDirection::Down)),
        KeyCode::PageUp => Some(ScrollKeyAction::Page(VerticalDirection::Up)),
        KeyCode::Char('d') if key.modifiers.control => Some(
            ScrollKeyAction::Page(VerticalDirection::Down),
        ),
        KeyCode::Char('u') if key.modifiers.control => Some(
            ScrollKeyAction::Page(VerticalDirection::Up),
        ),
        KeyCode::Home => Some(ScrollKeyAction::Top),
        KeyCode::End => Some(ScrollKeyAction::Bottom),
        _ => match keybinds.action_for(key) {
            Some(BuiltinAction::MoveDown) => Some(ScrollKeyAction::Line(VerticalDirection::Down)),
            Some(BuiltinAction::MoveUp) => Some(ScrollKeyAction::Line(VerticalDirection::Up)),
            Some(BuiltinAction::Top) => Some(ScrollKeyAction::Top),
            Some(BuiltinAction::Bottom) => Some(ScrollKeyAction::Bottom),
            _ => None,
        },
    }
}

fn apply_scroll_action(scroll: &mut ScrollText, action: ScrollKeyAction, page: usize)
    ensures
        final(scroll)@ == scrolled(old(scroll)@, action, page as int),
{
    match action {
        ScrollKeyAction::Line(direction) => scroll.scroll_by(direction, 1),
        ScrollKeyAction::Page(direction) => scroll.scroll_by(direction, page),
        ScrollKeyAction::Top => scroll.scroll_to_top(),
        ScrollKeyAction::Bottom => scroll.scroll_to_bottom(),
    }
}

} // verus!
