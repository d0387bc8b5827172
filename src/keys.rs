//! Keyboard input as the menu sees it, and the action that each key asks for.
use vstd::prelude::*;

verus! {

/// No modifier key held.
pub const MOD_NONE: u8 = 0b0000_0000;

/// Shift held.
pub const MOD_SHIFT: u8 = 0b0000_0001;

/// Control held.
pub const MOD_CONTROL: u8 = 0b0000_0010;

/// Alt held.
pub const MOD_ALT: u8 = 0b0000_0100;

/// Which key an event is about.
#[derive(Debug, Clone, Copy, PartialEq, Eq, Structural)]
pub enum KeyCode {
    Char(char),
    Up,
    Down,
    Enter,
    Esc,
    Other,
}

/// Whether a key went down, repeats while held, or went up.
#[derive(Debug, Clone, Copy, PartialEq, Eq, Structural)]
pub enum KeyKind {
    Press,
    Repeat,
    Release,
}

/// One key event: the key, the modifier keys held (one bit each) and its kind.
#[derive(Debug, Clone, Copy, PartialEq, Eq, Structural)]
pub struct KeyPress {
    pub code: KeyCode,
    pub modifiers: u8,
    pub kind: KeyKind,
}

/// An event read from the terminal.
#[derive(Debug, Clone, Copy, PartialEq, Eq, Structural)]
pub enum InputEvent {
    Key(KeyPress),
    Other,
}

/// What a key asks the menu to do.
#[derive(Debug, Clone, Copy, PartialEq, Eq, Structural)]
pub enum MenuAction {
    Next,
    Prev,
    Select,
    Exit,
    Ignore,
}

/// The action of a key: `j`, `s` and Down step forward; `k`, `w` and Up step
/// back; Ctrl+c, `q` and Escape leave; Enter, Space (whatever the modifiers)
/// and `l` choose. Apart from Ctrl+c and Space these count only with no
/// modifier held.
pub open spec fn action_of(code: KeyCode, modifiers: u8) -> MenuAction {
    let plain = modifiers == MOD_NONE;
    match code {
        KeyCode::Char(c) => {
            if plain && (c == 'j' || c == 's') {
                MenuAction::Next
            } else if plain && (c == 'k' || c == 'w') {
                MenuAction::Prev
            } else if (c == 'c' && modifiers == MOD_CONTROL) || (c == 'q' && plain) {
                MenuAction::Exit
            } else if c == ' ' || (c == 'l' && plain) {
                MenuAction::Select
            } else {
                MenuAction::Ignore
            }
        },
        KeyCode::Down => if plain { MenuAction::Next } else { MenuAction::Ignore },
        KeyCode::Up => if plain { MenuAction::Prev } else { MenuAction::Ignore },
        KeyCode::Esc => if plain { MenuAction::Exit } else { MenuAction::Ignore },
        KeyCode::Enter => if plain { MenuAction::Select } else { MenuAction::Ignore },
        KeyCode::Other => MenuAction::Ignore,
    }
}

impl MenuAction {
    /// The action that a key event asks for.
    pub fn from_key_event(event: KeyPress) -> (r: MenuAction)
        ensures
            r == action_of(event.code, event.modifiers),
    {
        let plain = event.modifiers == MOD_NONE;
        match event.code {
            KeyCode::Char(c) => {
                if plain && (c == 'j' || c == 's') {
                    MenuAction::Next
                } else if plain && (c == 'k' || c == 'w') {
                    MenuAction::Prev
                } else if (c == 'c' && event.modifiers == MOD_CONTROL) || (c == 'q' && plain) {
                    MenuAction::Exit
                } else if c == ' ' || (c == 'l' && plain) {
                    MenuAction::Select
                } else {
                    MenuAction::Ignore
                }
            },
            KeyCode::Down => if plain { MenuAction::Next } else { MenuAction::Ignore },
            KeyCode::Up => if plain { MenuAction::Prev } else { MenuAction::Ignore },
            KeyCode::Esc => if plain { MenuAction::Exit } else { MenuAction::Ignore },
            KeyCode::Enter => if plain { MenuAction::Select } else { MenuAction::Ignore },
            KeyCode::Other => MenuAction::Ignore,
        }
    }
}

/// The key press that an event carries, if it carries one: key releases and
/// other events give nothing, so that one key stroke acts once.
pub fn keypress_of(event: InputEvent) -> (r: Option<KeyPress>)
    ensures
        r == (match event {
            InputEvent::Key(k) => if k.kind != KeyKind::Release { Some(k) } else { None },
            InputEvent::Other => None,
        }),
{
    match event {
        InputEvent::Key(k) => {
            if k.kind != KeyKind::Release {
                Some(k)
            } else {
                None
            }
        },
        InputEvent::Other => None,
    }
}

} // verus!
