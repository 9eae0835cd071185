//! Input handling: vim-style key bindings, mapped to actions according to
//! the current view mode (list, detail, search).

use vstd::prelude::*;
use crate::render::ViewMode;
use crate::vault::opt_string_text;

verus! {

/// A key on the keyboard, as the window layer reports it.
#[derive(Debug, Clone, Copy, PartialEq, Eq, Structural)]
pub enum KeyCode {
    Char(char),
    Enter,
    Escape,
    Backspace,
    Tab,
    Up,
    Down,
    Left,
    Right,
    Home,
    End,
    PageUp,
    PageDown,
    Delete,
    Space,
    F(u8),
    Other,
}

/// Modifier keys held with a key. The bindings do not depend on them.
#[derive(Debug, Clone, Copy, PartialEq, Eq, Structural)]
pub struct Modifiers {
    pub shift: bool,
    pub ctrl: bool,
    pub alt: bool,
    pub meta: bool,
}

impl Default for Modifiers {
    fn default() -> (r: Self)
        ensures
            !r.shift && !r.ctrl && !r.alt && !r.meta,
    {
        Modifiers { shift: false, ctrl: false, alt: false, meta: false }
    }
}

/// Actions that can be triggered by keyboard input.
#[derive(Debug, Clone, Copy, PartialEq, Eq, Structural)]
pub enum Action {
    /// Navigate items down.
    Down,
    /// Navigate items up.
    Up,
    /// Select / open item detail.
    Select,
    /// Copy password for selected item.
    CopyPassword,
    /// Copy username for selected item.
    CopyUsername,
    /// Copy TOTP for selected item.
    CopyTotp,
    /// Enter search mode.
    EnterSearch,
    /// Toggle favorites filter.
    ToggleFavorites,
    /// Switch to next vault.
    NextVault,
    /// Go back (detail -> list, search -> list).
    Back,
    /// Quit the application.
    Quit,
    /// Toggle hidden field visibility (in detail mode).
    ToggleHidden,
    /// Copy the currently selected field (in detail mode).
    CopyField,
    /// Insert character into search input.
    SearchInput(char),
    /// Delete character from search input (backspace).
    SearchBackspace,
    /// Submit search query.
    SearchSubmit,
    /// No action.
    NoAction,
}

/// Bindings of the vault and item lists.
pub open spec fn normal_action(key: KeyCode) -> Action {
    match key {
        KeyCode::Char(c) => if c == 'j' {
            Action::Down
        } else if c == 'k' {
            Action::Up
        } else if c == 'p' {
            Action::CopyPassword
        } else if c == 'u' {
            Action::CopyUsername
        } else if c == 't' {
            Action::CopyTotp
        } else if c == '/' {
            Action::EnterSearch
        } else if c == 'f' {
            Action::ToggleFavorites
        } else if c == 'q' {
            Action::Quit
        } else {
            Action::NoAction
        },
        KeyCode::Down => Action::Down,
        KeyCode::Up => Action::Up,
        KeyCode::Enter => Action::Select,
        KeyCode::Tab => Action::NextVault,
        KeyCode::Escape => Action::Back,
        _ => Action::NoAction,
    }
}

/// Bindings of the item detail view.
pub open spec fn detail_action(key: KeyCode) -> Action {
    match key {
        KeyCode::Char(c) => if c == 'j' {
            Action::Down
        } else if c == 'k' {
            Action::Up
        } else if c == 'y' {
            Action::CopyField
        } else if c == 'p' {
            Action::CopyPassword
        } else if c == 'u' {
            Action::CopyUsername
        } else if c == 't' {
            Action::CopyTotp
        } else if c == 'H' {
            Action::ToggleHidden
        } else if c == 'q' {
            Action::Back
        } else {
            Action::NoAction
        },
        KeyCode::Down => Action::Down,
        KeyCode::Up => Action::Up,
        KeyCode::Enter => Action::CopyField,
        KeyCode::Escape => Action::Back,
        _ => Action::NoAction,
    }
}

/// Bindings of the search view: editing keys and arrows act; any other key
/// types the first character of its text, or the key's own character.
pub open spec fn search_action(key: KeyCode, text: Option<Seq<char>>) -> Action {
    match key {
        KeyCode::Escape => Action::Back,
        KeyCode::Enter => Action::SearchSubmit,
        KeyCode::Backspace => Action::SearchBackspace,
        KeyCode::Down => Action::Down,
        KeyCode::Up => Action::Up,
        _ => if text matches Some(t) && t.len() > 0 {
            Action::SearchInput(text->0[0])
        } else {
            match key {
                KeyCode::Char(c) => Action::SearchInput(c),
                _ => Action::NoAction,
            }
        },
    }
}

/// The action of a key event in a view mode; releases do nothing.
pub open spec fn key_action(key: KeyCode, pressed: bool, text: Option<Seq<char>>, mode: ViewMode) -> Action {
    if !pressed {
        Action::NoAction
    } else {
        match mode {
            ViewMode::VaultList | ViewMode::ItemList => normal_action(key),
            ViewMode::ItemDetail => detail_action(key),
            ViewMode::Search => search_action(key, text),
        }
    }
}

/// Map a key event to an action based on the current view mode.
pub fn map_key(
    key: &KeyCode,
    pressed: bool,
    modifiers: &Modifiers,
    text: &Option<String>,
    mode: &ViewMode,
) -> (r: Action)
    ensures
        r == key_action(*key, pressed, opt_string_text(*text), *mode),
{
    if !pressed {
        return Action::NoAction;
    }
    match mode {
        ViewMode::VaultList | ViewMode::ItemList => map_normal(key, modifiers),
        ViewMode::ItemDetail => map_detail(key, modifiers),
        ViewMode::Search => map_search(key, text),
    }
}

fn map_normal(key: &KeyCode, _modifiers: &Modifiers) -> (r: Action)
    ensures
        r == normal_action(*key),
{
    match key {
        KeyCode::Char(c) => {
            let c = *c;
            if c == 'j' {
                Action::Down
            } else if c == 'k' {
                Action::Up
            } else if c == 'p' {
                Action::CopyPassword
            } else if c == 'u' {
                Action::CopyUsername
            } else if c == 't' {
                Action::CopyTotp
            } else if c == '/' {
                Action::EnterSearch
            } else if c == 'f' {
                Action::ToggleFavorites
            } else if c == 'q' {
                Action::Quit
            } else {
                Action::NoAction
            }
        },
        KeyCode::Down => Action::Down,
        KeyCode::Up => Action::Up,
        KeyCode::Enter => Action::Select,
        KeyCode::Tab => Action::NextVault,
        KeyCode::Escape => Action::Back,
        _ => Action::NoAction,
    }
}

fn map_detail(key: &KeyCode, _modifiers: &Modifiers) -> (r: Action)
    ensures
        r == detail_action(*key),
{
    match key {
        KeyCode::Char(c) => {
            let c = *c;
            if c == 'j' {
                Action::Down
            } else if c == 'k' {
                Action::Up
            } else if c == 'y' {
                Action::CopyField
            } else if c == 'p' {
                Action::CopyPassword
            } else if c == 'u' {
                Action::CopyUsername
            } else if c == 't' {
                Action::CopyTotp
            } else if c == 'H' {
                Action::ToggleHidden
            } else if c == 'q' {
                Action::Back
            } else {
                Action::NoAction
            }
        },
        KeyCode::Down => Action::Down,
        KeyCode::Up => Action::Up,
        KeyCode::Enter => Action::CopyField,
        KeyCode::Escape => Action::Back,
        _ => Action::NoAction,
    }
}

fn map_search(key: &KeyCode, text: &Option<String>) -> (r: Action)
    ensures
        r == search_action(*key, opt_string_text(*text)),
{
    match key {
        KeyCode::Escape => Action::Back,
        KeyCode::Enter => Action::SearchSubmit,
        KeyCode::Backspace => Action::SearchBackspace,
        KeyCode::Down => Action::Down,
        KeyCode::Up => Action::Up,
        _ => {
            // The character from the event's text, if it has one.
            if let Some(t) = text {
                let s = t.as_str();
                if s.unicode_len() > 0 {
                    return Action::SearchInput(s.get_char(0));
                }
            }
            // Otherwise the key's own character.
            if let KeyCode::Char(c) = key {
                Action::SearchInput(*c)
            } else {
                Action::NoAction
            }
        },
    }
}

} // verus!
