//! Gameplay input actions and their key bindings.
//!
//! Gameplay code asks an [`ActionMap`] whether an [`Action`] is held or was
//! just pressed; the map binds each action to any number of keys. Bindings
//! come from `input.yml` on top of the built-in defaults, and the key
//! configuration screen writes them back in the same format.
use vstd::prelude::*;
use vstd::string::*;

use crate::shared::text::str_eq;

verus! {

/// A gameplay input action. One action may be bound to several keys.
#[derive(Debug, Clone, Copy, PartialEq, Eq, Hash, Structural)]
pub enum Action {
    MoveLeft,
    MoveRight,
    MoveUp,
    MoveDown,
    Attack,
    DownAttack,
    Jump,
    Guard,
}

/// A menu input action (title and options scenes).
#[derive(Debug, Clone, Copy, PartialEq, Eq, Hash, Structural)]
pub enum MenuAction {
    Up,
    Down,
    Confirm,
    Cancel,
}

/// The keys that `input.yml` can name, each written as its variant name.
#[derive(Debug, Clone, Copy, PartialEq, Eq, Hash, Structural)]
pub enum KeyCode {
    KeyA,
    KeyB,
    KeyC,
    KeyD,
    KeyE,
    KeyF,
    KeyG,
    KeyH,
    KeyI,
    KeyJ,
    KeyK,
    KeyL,
    KeyM,
    KeyN,
    KeyO,
    KeyP,
    KeyQ,
    KeyR,
    KeyS,
    KeyT,
    KeyU,
    KeyV,
    KeyW,
    KeyX,
    KeyY,
    KeyZ,
    Digit0,
    Digit1,
    Digit2,
    Digit3,
    Digit4,
    Digit5,
    Digit6,
    Digit7,
    Digit8,
    Digit9,
    ArrowLeft,
    ArrowRight,
    ArrowUp,
    ArrowDown,
    F1,
    F2,
    F3,
    F4,
    F5,
    F6,
    F7,
    F8,
    F9,
    F10,
    F11,
    F12,
    ShiftLeft,
    ShiftRight,
    ControlLeft,
    ControlRight,
    AltLeft,
    AltRight,
    Space,
    Enter,
    Escape,
    Tab,
    Backspace,
    Delete,
}

/// Position of an action in declaration order.
pub open spec fn action_index(a: Action) -> int {
    match a {
        Action::MoveLeft => 0,
        Action::MoveRight => 1,
        Action::MoveUp => 2,
        Action::MoveDown => 3,
        Action::Attack => 4,
        Action::DownAttack => 5,
        Action::Jump => 6,
        Action::Guard => 7,
    }
}

/// The actions in declaration order.
pub open spec fn all_actions() -> Seq<Action> {
    seq![Action::MoveLeft, Action::MoveRight, Action::MoveUp, Action::MoveDown, Action::Attack, Action::DownAttack, Action::Jump, Action::Guard]
}

/// The snake_case name of an action, its key in `input.yml`.
pub open spec fn action_name(a: Action) -> Seq<char> {
    match a {
        Action::MoveLeft => "move_left"@,
        Action::MoveRight => "move_right"@,
        Action::MoveUp => "move_up"@,
        Action::MoveDown => "move_down"@,
        Action::Attack => "attack"@,
        Action::DownAttack => "down_attack"@,
        Action::Jump => "jump"@,
        Action::Guard => "guard"@,
    }
}

/// The name that `input.yml` uses for a key.
pub open spec fn key_code_name(k: KeyCode) -> Seq<char> {
    match k {
        KeyCode::KeyA => "KeyA"@,
        KeyCode::KeyB => "KeyB"@,
        KeyCode::KeyC => "KeyC"@,
        KeyCode::KeyD => "KeyD"@,
        KeyCode::KeyE => "KeyE"@,
        KeyCode::KeyF => "KeyF"@,
        KeyCode::KeyG => "KeyG"@,
        KeyCode::KeyH => "KeyH"@,
        KeyCode::KeyI => "KeyI"@,
        KeyCode::KeyJ => "KeyJ"@,
        KeyCode::KeyK => "KeyK"@,
        KeyCode::KeyL => "KeyL"@,
        KeyCode::KeyM => "KeyM"@,
        KeyCode::KeyN => "KeyN"@,
        KeyCode::KeyO => "KeyO"@,
        KeyCode::KeyP => "KeyP"@,
        KeyCode::KeyQ => "KeyQ"@,
        KeyCode::KeyR => "KeyR"@,
        KeyCode::KeyS => "KeyS"@,
        KeyCode::KeyT => "KeyT"@,
        KeyCode::KeyU => "KeyU"@,
        KeyCode::KeyV => "KeyV"@,
        KeyCode::KeyW => "KeyW"@,
        KeyCode::KeyX => "KeyX"@,
        KeyCode::KeyY => "KeyY"@,
        KeyCode::KeyZ => "KeyZ"@,
        KeyCode::Digit0 => "Digit0"@,
        KeyCode::Digit1 => "Digit1"@,
        KeyCode::Digit2 => "Digit2"@,
        KeyCode::Digit3 => "Digit3"@,
        KeyCode::Digit4 => "Digit4"@,
        KeyCode::Digit5 => "Digit5"@,
        KeyCode::Digit6 => "Digit6"@,
        KeyCode::Digit7 => "Digit7"@,
        KeyCode::Digit8 => "Digit8"@,
        KeyCode::Digit9 => "Digit9"@,
        KeyCode::ArrowLeft => "ArrowLeft"@,
        KeyCode::ArrowRight => "ArrowRight"@,
        KeyCode::ArrowUp => "ArrowUp"@,
        KeyCode::ArrowDown => "ArrowDown"@,
        KeyCode::F1 => "F1"@,
        KeyCode::F2 => "F2"@,
        KeyCode::F3 => "F3"@,
        KeyCode::F4 => "F4"@,
        KeyCode::F5 => "F5"@,
        KeyCode::F6 => "F6"@,
        KeyCode::F7 => "F7"@,
        KeyCode::F8 => "F8"@,
        KeyCode::F9 => "F9"@,
        KeyCode::F10 => "F10"@,
        KeyCode::F11 => "F11"@,
        KeyCode::F12 => "F12"@,
        KeyCode::ShiftLeft => "ShiftLeft"@,
        KeyCode::ShiftRight => "ShiftRight"@,
        KeyCode::ControlLeft => "ControlLeft"@,
        KeyCode::ControlRight => "ControlRight"@,
        KeyCode::AltLeft => "AltLeft"@,
        KeyCode::AltRight => "AltRight"@,
        KeyCode::Space => "Space"@,
        KeyCode::Enter => "Enter"@,
        KeyCode::Escape => "Escape"@,
        KeyCode::Tab => "Tab"@,
        KeyCode::Backspace => "Backspace"@,
        KeyCode::Delete => "Delete"@,
    }
}

/// Candidate key for a name, told apart by its length, first character and
/// last two characters.
pub open spec fn key_signature(n: int, first: char, last: char, before_last: char) -> Option<KeyCode> {
    if n == 4 && first == 'K' && last == 'A' && before_last == 'y' {
        Some(KeyCode::KeyA)
    } else if n == 4 && first == 'K' && last == 'B' && before_last == 'y' {
        Some(KeyCode::KeyB)
    } else if n == 4 && first == 'K' && last == 'C' && before_last == 'y' {
        Some(KeyCode::KeyC)
    } else if n == 4 && first == 'K' && last == 'D' && before_last == 'y' {
        Some(KeyCode::KeyD)
    } else if n == 4 && first == 'K' && last == 'E' && before_last == 'y' {
        Some(KeyCode::KeyE)
    } else if n == 4 && first == 'K' && last == 'F' && before_last == 'y' {
        Some(KeyCode::KeyF)
    } else if n == 4 && first == 'K' && last == 'G' && before_last == 'y' {
        Some(KeyCode::KeyG)
    } else if n == 4 && first == 'K' && last == 'H' && before_last == 'y' {
        Some(KeyCode::KeyH)
    } else if n == 4 && first == 'K' && last == 'I' && before_last == 'y' {
        Some(KeyCode::KeyI)
    } else if n == 4 && first == 'K' && last == 'J' && before_last == 'y' {
        Some(KeyCode::KeyJ)
    } else if n == 4 && first == 'K' && last == 'K' && before_last == 'y' {
        Some(KeyCode::KeyK)
    } else if n == 4 && first == 'K' && last == 'L' && before_last == 'y' {
        Some(KeyCode::KeyL)
    } else if n == 4 && first == 'K' && last == 'M' && before_last == 'y' {
        Some(KeyCode::KeyM)
    } else if n == 4 && first == 'K' && last == 'N' && before_last == 'y' {
        Some(KeyCode::KeyN)
    } else if n == 4 && first == 'K' && last == 'O' && before_last == 'y' {
        Some(KeyCode::KeyO)
    } else if n == 4 && first == 'K' && last == 'P' && before_last == 'y' {
        Some(KeyCode::KeyP)
    } else if n == 4 && first == 'K' && last == 'Q' && before_last == 'y' {
        Some(KeyCode::KeyQ)
    } else if n == 4 && first == 'K' && last == 'R' && before_last == 'y' {
        Some(KeyCode::KeyR)
    } else if n == 4 && first == 'K' && last == 'S' && before_last == 'y' {
        Some(KeyCode::KeyS)
    } else if n == 4 && first == 'K' && last == 'T' && before_last == 'y' {
        Some(KeyCode::KeyT)
    } else if n == 4 && first == 'K' && last == 'U' && before_last == 'y' {
        Some(KeyCode::KeyU)
    } else if n == 4 && first == 'K' && last == 'V' && before_last == 'y' {
        Some(KeyCode::KeyV)
    } else if n == 4 && first == 'K' && last == 'W' && before_last == 'y' {
        Some(KeyCode::KeyW)
    } else if n == 4 && first == 'K' && last == 'X' && before_last == 'y' {
        Some(KeyCode::KeyX)
    } else if n == 4 && first == 'K' && last == 'Y' && before_last == 'y' {
        Some(KeyCode::KeyY)
    } else if n == 4 && first == 'K' && last == 'Z' && before_last == 'y' {
        Some(KeyCode::KeyZ)
    } else if n == 6 && first == 'D' && last == '0' && before_last == 't' {
        Some(KeyCode::Digit0)
    } else if n == 6 && first == 'D' && last == '1' && before_last == 't' {
        Some(KeyCode::Digit1)
    } else if n == 6 && first == 'D' && last == '2' && before_last == 't' {
        Some(KeyCode::Digit2)
    } else if n == 6 && first == 'D' && last == '3' && before_last == 't' {
        Some(KeyCode::Digit3)
    } else if n == 6 && first == 'D' && last == '4' && before_last == 't' {
        Some(KeyCode::Digit4)
    } else if n == 6 && first == 'D' && last == '5' && before_last == 't' {
        Some(KeyCode::Digit5)
    } else if n == 6 && first == 'D' && last == '6' && before_last == 't' {
        Some(KeyCode::Digit6)
    } else if n == 6 && first == 'D' && last == '7' && before_last == 't' {
        Some(KeyCode::Digit7)
    } else if n == 6 && first == 'D' && last == '8' && before_last == 't' {
        Some(KeyCode::Digit8)
    } else if n == 6 && first == 'D' && last == '9' && before_last == 't' {
        Some(KeyCode::Digit9)
    } else if n == 9 && first == 'A' && last == 't' && before_last == 'f' {
        Some(KeyCode::ArrowLeft)
    } else if n == 10 && first == 'A' && last == 't' && before_last == 'h' {
        Some(KeyCode::ArrowRight)
    } else if n == 7 && first == 'A' && last == 'p' && before_last == 'U' {
        Some(KeyCode::ArrowUp)
    } else if n == 9 && first == 'A' && last == 'n' && before_last == 'w' {
        Some(KeyCode::ArrowDown)
    } else if n == 2 && first == 'F' && last == '1' && before_last == 'F' {
        Some(KeyCode::F1)
    } else if n == 2 && first == 'F' && last == '2' && before_last == 'F' {
        Some(KeyCode::F2)
    } else if n == 2 && first == 'F' && last == '3' && before_last == 'F' {
        Some(KeyCode::F3)
    } else if n == 2 && first == 'F' && last == '4' && before_last == 'F' {
        Some(KeyCode::F4)
    } else if n == 2 && first == 'F' && last == '5' && before_last == 'F' {
        Some(KeyCode::F5)
    } else if n == 2 && first == 'F' && last == '6' && before_last == 'F' {
        Some(KeyCode::F6)
    } else if n == 2 && first == 'F' && last == '7' && before_last == 'F' {
        Some(KeyCode::F7)
    } else if n == 2 && first == 'F' && last == '8' && before_last == 'F' {
        Some(KeyCode::F8)
    } else if n == 2 && first == 'F' && last == '9' && before_last == 'F' {
        Some(KeyCode::F9)
    } else if n == 3 && first == 'F' && last == '0' && before_last == '1' {
        Some(KeyCode::F10)
    } else if n == 3 && first == 'F' && last == '1' && before_last == '1' {
        Some(KeyCode::F11)
    } else if n == 3 && first == 'F' && last == '2' && before_last == '1' {
        Some(KeyCode::F12)
    } else if n == 9 && first == 'S' && last == 't' && before_last == 'f' {
        Some(KeyCode::ShiftLeft)
    } else if n == 10 && first == 'S' && last == 't' && before_last == 'h' {
        Some(KeyCode::ShiftRight)
    } else if n == 11 && first == 'C' && last == 't' && before_last == 'f' {
        Some(KeyCode::ControlLeft)
    } else if n == 12 && first == 'C' && last == 't' && before_last == 'h' {
        Some(KeyCode::ControlRight)
    } else if n == 7 && first == 'A' && last == 't' && before_last == 'f' {
        Some(KeyCode::AltLeft)
    } else if n == 8 && first == 'A' && last == 't' && before_last == 'h' {
        Some(KeyCode::AltRight)
    } else if n == 5 && first == 'S' && last == 'e' && before_last == 'c' {
        Some(KeyCode::Space)
    } else if n == 5 && first == 'E' && last == 'r' && before_last == 'e' {
        Some(KeyCode::Enter)
    } else if n == 6 && first == 'E' && last == 'e' && before_last == 'p' {
        Some(KeyCode::Escape)
    } else if n == 3 && first == 'T' && last == 'b' && before_last == 'a' {
        Some(KeyCode::Tab)
    } else if n == 9 && first == 'B' && last == 'e' && before_last == 'c' {
        Some(KeyCode::Backspace)
    } else if n == 6 && first == 'D' && last == 'e' && before_last == 't' {
        Some(KeyCode::Delete)
    } else {
        None
    }
}

/// Candidate key for a name.
pub open spec fn spec_key_candidate(s: Seq<char>) -> Option<KeyCode> {
    if s.len() < 2 {
        None
    } else {
        key_signature(s.len() as int, s[0], s.last(), s[s.len() - 2])
    }
}

/// Each key's name leads back to that key.
pub proof fn lemma_key_candidate(k: KeyCode)
    ensures
        spec_key_candidate(key_code_name(k)) == Some(k),
{
    match k {
        KeyCode::KeyA => {
            reveal_strlit("KeyA");
        },
        KeyCode::KeyB => {
            reveal_strlit("KeyB");
        },
        KeyCode::KeyC => {
            reveal_strlit("KeyC");
        },
        KeyCode::KeyD => {
            reveal_strlit("KeyD");
        },
        KeyCode::KeyE => {
            reveal_strlit("KeyE");
        },
        KeyCode::KeyF => {
            reveal_strlit("KeyF");
        },
        KeyCode::KeyG => {
            reveal_strlit("KeyG");
        },
        KeyCode::KeyH => {
            reveal_strlit("KeyH");
        },
        KeyCode::KeyI => {
            reveal_strlit("KeyI");
        },
        KeyCode::KeyJ => {
            reveal_strlit("KeyJ");
        },
        KeyCode::KeyK => {
            reveal_strlit("KeyK");
        },
        KeyCode::KeyL => {
            reveal_strlit("KeyL");
        },
        KeyCode::KeyM => {
            reveal_strlit("KeyM");
        },
        KeyCode::KeyN => {
            reveal_strlit("KeyN");
        },
        KeyCode::KeyO => {
            reveal_strlit("KeyO");
        },
        KeyCode::KeyP => {
            reveal_strlit("KeyP");
        },
        KeyCode::KeyQ => {
            reveal_strlit("KeyQ");
        },
        KeyCode::KeyR => {
            reveal_strlit("KeyR");
        },
        KeyCode::KeyS => {
            reveal_strlit("KeyS");
        },
        KeyCode::KeyT => {
            reveal_strlit("KeyT");
        },
        KeyCode::KeyU => {
            reveal_strlit("KeyU");
        },
        KeyCode::KeyV => {
            reveal_strlit("KeyV");
        },
        KeyCode::KeyW => {
            reveal_strlit("KeyW");
        },
        KeyCode::KeyX => {
            reveal_strlit("KeyX");
        },
        KeyCode::KeyY => {
            reveal_strlit("KeyY");
        },
        KeyCode::KeyZ => {
            reveal_strlit("KeyZ");
        },
        KeyCode::Digit0 => {
            reveal_strlit("Digit0");
        },
        KeyCode::Digit1 => {
            reveal_strlit("Digit1");
        },
        KeyCode::Digit2 => {
            reveal_strlit("Digit2");
        },
        KeyCode::Digit3 => {
            reveal_strlit("Digit3");
        },
        KeyCode::Digit4 => {
            reveal_strlit("Digit4");
        },
        KeyCode::Digit5 => {
            reveal_strlit("Digit5");
        },
        KeyCode::Digit6 => {
            reveal_strlit("Digit6");
        },
        KeyCode::Digit7 => {
            reveal_strlit("Digit7");
        },
        KeyCode::Digit8 => {
            reveal_strlit("Digit8");
        },
        KeyCode::Digit9 => {
            reveal_strlit("Digit9");
        },
        KeyCode::ArrowLeft => {
            reveal_strlit("ArrowLeft");
        },
        KeyCode::ArrowRight => {
            reveal_strlit("ArrowRight");
        },
        KeyCode::ArrowUp => {
            reveal_strlit("ArrowUp");
        },
        KeyCode::ArrowDown => {
            reveal_strlit("ArrowDown");
        },
        KeyCode::F1 => {
            reveal_strlit("F1");
        },
        KeyCode::F2 => {
            reveal_strlit("F2");
        },
        KeyCode::F3 => {
            reveal_strlit("F3");
        },
        KeyCode::F4 => {
            reveal_strlit("F4");
        },
        KeyCode::F5 => {
            reveal_strlit("F5");
        },
        KeyCode::F6 => {
            reveal_strlit("F6");
        },
        KeyCode::F7 => {
            reveal_strlit("F7");
        },
        KeyCode::F8 => {
            reveal_strlit("F8");
        },
        KeyCode::F9 => {
            reveal_strlit("F9");
        },
        KeyCode::F10 => {
            reveal_strlit("F10");
        },
        KeyCode::F11 => {
            reveal_strlit("F11");
        },
        KeyCode::F12 => {
            reveal_strlit("F12");
        },
        KeyCode::ShiftLeft => {
            reveal_strlit("ShiftLeft");
        },
        KeyCode::ShiftRight => {
            reveal_strlit("ShiftRight");
        },
        KeyCode::ControlLeft => {
            reveal_strlit("ControlLeft");
        },
        KeyCode::ControlRight => {
            reveal_strlit("ControlRight");
        },
        KeyCode::AltLeft => {
            reveal_strlit("AltLeft");
        },
        KeyCode::AltRight => {
            reveal_strlit("AltRight");
        },
        KeyCode::Space => {
            reveal_strlit("Space");
        },
        KeyCode::Enter => {
            reveal_strlit("Enter");
        },
        KeyCode::Escape => {
            reveal_strlit("Escape");
        },
        KeyCode::Tab => {
            reveal_strlit("Tab");
        },
        KeyCode::Backspace => {
            reveal_strlit("Backspace");
        },
        KeyCode::Delete => {
            reveal_strlit("Delete");
        },
    }
}

/// Different keys have different names.
pub proof fn lemma_key_code_name_injective(k1: KeyCode, k2: KeyCode)
    ensures
        key_code_name(k1) == key_code_name(k2) ==> k1 == k2,
{
    lemma_key_candidate(k1);
    lemma_key_candidate(k2);
}

fn key_candidate(s: &str) -> (r: Option<KeyCode>)
    ensures
        r == spec_key_candidate(s@),
{
    let n = s.unicode_len();
    if n < 2 {
        return None;
    }
    let first = s.get_char(0);
    let last = s.get_char(n - 1);
    let before_last = s.get_char(n - 2);
    if n == 4 && first == 'K' && last == 'A' && before_last == 'y' {
        Some(KeyCode::KeyA)
    } else if n == 4 && first == 'K' && last == 'B' && before_last == 'y' {
        Some(KeyCode::KeyB)
    } else if n == 4 && first == 'K' && last == 'C' && before_last == 'y' {
        Some(KeyCode::KeyC)
    } else if n == 4 && first == 'K' && last == 'D' && before_last == 'y' {
        Some(KeyCode::KeyD)
    } else if n == 4 && first == 'K' && last == 'E' && before_last == 'y' {
        Some(KeyCode::KeyE)
    } else if n == 4 && first == 'K' && last == 'F' && before_last == 'y' {
        Some(KeyCode::KeyF)
    } else if n == 4 && first == 'K' && last == 'G' && before_last == 'y' {
        Some(KeyCode::KeyG)
    } else if n == 4 && first == 'K' && last == 'H' && before_last == 'y' {
        Some(KeyCode::KeyH)
    } else if n == 4 && first == 'K' && last == 'I' && before_last == 'y' {
        Some(KeyCode::KeyI)
    } else if n == 4 && first == 'K' && last == 'J' && before_last == 'y' {
        Some(KeyCode::KeyJ)
    } else if n == 4 && first == 'K' && last == 'K' && before_last == 'y' {
        Some(KeyCode::KeyK)
    } else if n == 4 && first == 'K' && last == 'L' && before_last == 'y' {
        Some(KeyCode::KeyL)
    } else if n == 4 && first == 'K' && last == 'M' && before_last == 'y' {
        Some(KeyCode::KeyM)
    } else if n == 4 && first == 'K' && last == 'N' && before_last == 'y' {
        Some(KeyCode::KeyN)
    } else if n == 4 && first == 'K' && last == 'O' && before_last == 'y' {
        Some(KeyCode::KeyO)
    } else if n == 4 && first == 'K' && last == 'P' && before_last == 'y' {
        Some(KeyCode::KeyP)
    } else if n == 4 && first == 'K' && last == 'Q' && before_last == 'y' {
        Some(KeyCode::KeyQ)
    } else if n == 4 && first == 'K' && last == 'R' && before_last == 'y' {
        Some(KeyCode::KeyR)
    } else if n == 4 && first == 'K' && last == 'S' && before_last == 'y' {
        Some(KeyCode::KeyS)
    } else if n == 4 && first == 'K' && last == 'T' && before_last == 'y' {
        Some(KeyCode::KeyT)
    } else if n == 4 && first == 'K' && last == 'U' && before_last == 'y' {
        Some(KeyCode::KeyU)
    } else if n == 4 && first == 'K' && last == 'V' && before_last == 'y' {
        Some(KeyCode::KeyV)
    } else if n == 4 && first == 'K' && last == 'W' && before_last == 'y' {
        Some(KeyCode::KeyW)
    } else if n == 4 && first == 'K' && last == 'X' && before_last == 'y' {
        Some(KeyCode::KeyX)
    } else if n == 4 && first == 'K' && last == 'Y' && before_last == 'y' {
        Some(KeyCode::KeyY)
    } else if n == 4 && first == 'K' && last == 'Z' && before_last == 'y' {
        Some(KeyCode::KeyZ)
    } else if n == 6 && first == 'D' && last == '0' && before_last == 't' {
        Some(KeyCode::Digit0)
    } else if n == 6 && first == 'D' && last == '1' && before_last == 't' {
        Some(KeyCode::Digit1)
    } else if n == 6 && first == 'D' && last == '2' && before_last == 't' {
        Some(KeyCode::Digit2)
    } else if n == 6 && first == 'D' && last == '3' && before_last == 't' {
        Some(KeyCode::Digit3)
    } else if n == 6 && first == 'D' && last == '4' && before_last == 't' {
        Some(KeyCode::Digit4)
    } else if n == 6 && first == 'D' && last == '5' && before_last == 't' {
        Some(KeyCode::Digit5)
    } else if n == 6 && first == 'D' && last == '6' && before_last == 't' {
        Some(KeyCode::Digit6)
    } else if n == 6 && first == 'D' && last == '7' && before_last == 't' {
        Some(KeyCode::Digit7)
    } else if n == 6 && first == 'D' && last == '8' && before_last == 't' {
        Some(KeyCode::Digit8)
    } else if n == 6 && first == 'D' && last == '9' && before_last == 't' {
        Some(KeyCode::Digit9)
    } else if n == 9 && first == 'A' && last == 't' && before_last == 'f' {
        Some(KeyCode::ArrowLeft)
    } else if n == 10 && first == 'A' && last == 't' && before_last == 'h' {
        Some(KeyCode::ArrowRight)
    } else if n == 7 && first == 'A' && last == 'p' && before_last == 'U' {
        Some(KeyCode::ArrowUp)
    } else if n == 9 && first == 'A' && last == 'n' && before_last == 'w' {
        Some(KeyCode::ArrowDown)
    } else if n == 2 && first == 'F' && last == '1' && before_last == 'F' {
        Some(KeyCode::F1)
    } else if n == 2 && first == 'F' && last == '2' && before_last == 'F' {
        Some(KeyCode::F2)
    } else if n == 2 && first == 'F' && last == '3' && before_last == 'F' {
        Some(KeyCode::F3)
    } else if n == 2 && first == 'F' && last == '4' && before_last == 'F' {
        Some(KeyCode::F4)
    } else if n == 2 && first == 'F' && last == '5' && before_last == 'F' {
        Some(KeyCode::F5)
    } else if n == 2 && first == 'F' && last == '6' && before_last == 'F' {
        Some(KeyCode::F6)
    } else if n == 2 && first == 'F' && last == '7' && before_last == 'F' {
        Some(KeyCode::F7)
    } else if n == 2 && first == 'F' && last == '8' && before_last == 'F' {
        Some(KeyCode::F8)
    } else if n == 2 && first == 'F' && last == '9' && before_last == 'F' {
        Some(KeyCode::F9)
    } else if n == 3 && first == 'F' && last == '0' && before_last == '1' {
        Some(KeyCode::F10)
    } else if n == 3 && first == 'F' && last == '1' && before_last == '1' {
        Some(KeyCode::F11)
    } else if n == 3 && first == 'F' && last == '2' && before_last == '1' {
        Some(KeyCode::F12)
    } else if n == 9 && first == 'S' && last == 't' && before_last == 'f' {
        Some(KeyCode::ShiftLeft)
    } else if n == 10 && first == 'S' && last == 't' && before_last == 'h' {
        Some(KeyCode::ShiftRight)
    } else if n == 11 && first == 'C' && last == 't' && before_last == 'f' {
        Some(KeyCode::ControlLeft)
    } else if n == 12 && first == 'C' && last == 't' && before_last == 'h' {
        Some(KeyCode::ControlRight)
    } else if n == 7 && first == 'A' && last == 't' && before_last == 'f' {
        Some(KeyCode::AltLeft)
    } else if n == 8 && first == 'A' && last == 't' && before_last == 'h' {
        Some(KeyCode::AltRight)
    } else if n == 5 && first == 'S' && last == 'e' && before_last == 'c' {
        Some(KeyCode::Space)
    } else if n == 5 && first == 'E' && last == 'r' && before_last == 'e' {
        Some(KeyCode::Enter)
    } else if n == 6 && first == 'E' && last == 'e' && before_last == 'p' {
        Some(KeyCode::Escape)
    } else if n == 3 && first == 'T' && last == 'b' && before_last == 'a' {
        Some(KeyCode::Tab)
    } else if n == 9 && first == 'B' && last == 'e' && before_last == 'c' {
        Some(KeyCode::Backspace)
    } else if n == 6 && first == 'D' && last == 'e' && before_last == 't' {
        Some(KeyCode::Delete)
    } else {
        None
    }
}

/// The key named `s`, if any.
pub open spec fn spec_key_code_from_name(s: Seq<char>) -> Option<KeyCode> {
    match spec_key_candidate(s) {
        Some(k) => if key_code_name(k) == s {
            Some(k)
        } else {
            None
        },
        None => None,
    }
}

/// The `input.yml` name of a key. Every key of this type has one.
pub fn key_code_to_str(code: KeyCode) -> (r: Option<&'static str>)
    ensures
        r matches Some(s) && s@ == key_code_name(code),
        // Keys are written by their names: the keys of the default and menu
        // bindings, for instance, as follows.
        code == KeyCode::ArrowLeft ==> (r matches Some(s) && s@ == seq!['A', 'r', 'r', 'o', 'w', 'L', 'e', 'f', 't']),
        code == KeyCode::ArrowRight ==> (r matches Some(s) && s@ == seq!['A', 'r', 'r', 'o', 'w', 'R', 'i', 'g', 'h', 't']),
        code == KeyCode::ArrowUp ==> (r matches Some(s) && s@ == seq!['A', 'r', 'r', 'o', 'w', 'U', 'p']),
        code == KeyCode::ArrowDown ==> (r matches Some(s) && s@ == seq!['A', 'r', 'r', 'o', 'w', 'D', 'o', 'w', 'n']),
        code == KeyCode::KeyA ==> (r matches Some(s) && s@ == seq!['K', 'e', 'y', 'A']),
        code == KeyCode::KeyD ==> (r matches Some(s) && s@ == seq!['K', 'e', 'y', 'D']),
        code == KeyCode::KeyW ==> (r matches Some(s) && s@ == seq!['K', 'e', 'y', 'W']),
        code == KeyCode::KeyS ==> (r matches Some(s) && s@ == seq!['K', 'e', 'y', 'S']),
        code == KeyCode::KeyJ ==> (r matches Some(s) && s@ == seq!['K', 'e', 'y', 'J']),
        code == KeyCode::KeyK ==> (r matches Some(s) && s@ == seq!['K', 'e', 'y', 'K']),
        code == KeyCode::KeyI ==> (r matches Some(s) && s@ == seq!['K', 'e', 'y', 'I']),
        code == KeyCode::KeyL ==> (r matches Some(s) && s@ == seq!['K', 'e', 'y', 'L']),
        code == KeyCode::Space ==> (r matches Some(s) && s@ == seq!['S', 'p', 'a', 'c', 'e']),
        code == KeyCode::Enter ==> (r matches Some(s) && s@ == seq!['E', 'n', 't', 'e', 'r']),
        code == KeyCode::Escape ==> (r matches Some(s) && s@ == seq!['E', 's', 'c', 'a', 'p', 'e']),
{
    match code {
        KeyCode::KeyA => {
            proof {
                reveal_strlit("KeyA");
            }
            Some("KeyA")
        },
        KeyCode::KeyB => {
            proof {
                reveal_strlit("KeyB");
            }
            Some("KeyB")
        },
        KeyCode::KeyC => {
            proof {
                reveal_strlit("KeyC");
            }
            Some("KeyC")
        },
        KeyCode::KeyD => {
            proof {
                reveal_strlit("KeyD");
            }
            Some("KeyD")
        },
        KeyCode::KeyE => {
            proof {
                reveal_strlit("KeyE");
            }
            Some("KeyE")
        },
        KeyCode::KeyF => {
            proof {
                reveal_strlit("KeyF");
            }
            Some("KeyF")
        },
        KeyCode::KeyG => {
            proof {
                reveal_strlit("KeyG");
            }
            Some("KeyG")
        },
        KeyCode::KeyH => {
            proof {
                reveal_strlit("KeyH");
            }
            Some("KeyH")
        },
        KeyCode::KeyI => {
            proof {
                reveal_strlit("KeyI");
            }
            Some("KeyI")
        },
        KeyCode::KeyJ => {
            proof {
                reveal_strlit("KeyJ");
            }
            Some("KeyJ")
        },
        KeyCode::KeyK => {
            proof {
                reveal_strlit("KeyK");
            }
            Some("KeyK")
        },
        KeyCode::KeyL => {
            proof {
                reveal_strlit("KeyL");
            }
            Some("KeyL")
        },
        KeyCode::KeyM => {
            proof {
                reveal_strlit("KeyM");
            }
            Some("KeyM")
        },
        KeyCode::KeyN => {
            proof {
                reveal_strlit("KeyN");
            }
            Some("KeyN")
        },
        KeyCode::KeyO => {
            proof {
                reveal_strlit("KeyO");
            }
            Some("KeyO")
        },
        KeyCode::KeyP => {
            proof {
                reveal_strlit("KeyP");
            }
            Some("KeyP")
        },
        KeyCode::KeyQ => {
            proof {
                reveal_strlit("KeyQ");
            }
            Some("KeyQ")
        },
        KeyCode::KeyR => {
            proof {
                reveal_strlit("KeyR");
            }
            Some("KeyR")
        },
        KeyCode::KeyS => {
            proof {
                reveal_strlit("KeyS");
            }
            Some("KeyS")
        },
        KeyCode::KeyT => {
            proof {
                reveal_strlit("KeyT");
            }
            Some("KeyT")
        },
        KeyCode::KeyU => {
            proof {
                reveal_strlit("KeyU");
            }
            Some("KeyU")
        },
        KeyCode::KeyV => {
            proof {
                reveal_strlit("KeyV");
            }
            Some("KeyV")
        },
        KeyCode::KeyW => {
            proof {
                reveal_strlit("KeyW");
            }
            Some("KeyW")
        },
        KeyCode::KeyX => {
            proof {
                reveal_strlit("KeyX");
            }
            Some("KeyX")
        },
        KeyCode::KeyY => {
            proof {
                reveal_strlit("KeyY");
            }
            Some("KeyY")
        },
        KeyCode::KeyZ => {
            proof {
                reveal_strlit("KeyZ");
            }
            Some("KeyZ")
        },
        KeyCode::Digit0 => {
            proof {
                reveal_strlit("Digit0");
            }
            Some("Digit0")
        },
        KeyCode::Digit1 => {
            proof {
                reveal_strlit("Digit1");
            }
            Some("Digit1")
        },
        KeyCode::Digit2 => {
            proof {
                reveal_strlit("Digit2");
            }
            Some("Digit2")
        },
        KeyCode::Digit3 => {
            proof {
                reveal_strlit("Digit3");
            }
            Some("Digit3")
        },
        KeyCode::Digit4 => {
            proof {
                reveal_strlit("Digit4");
            }
            Some("Digit4")
        },
        KeyCode::Digit5 => {
            proof {
                reveal_strlit("Digit5");
            }
            Some("Digit5")
        },
        KeyCode::Digit6 => {
            proof {
                reveal_strlit("Digit6");
            }
            Some("Digit6")
        },
        KeyCode::Digit7 => {
            proof {
                reveal_strlit("Digit7");
            }
            Some("Digit7")
        },
        KeyCode::Digit8 => {
            proof {
                reveal_strlit("Digit8");
            }
            Some("Digit8")
        },
        KeyCode::Digit9 => {
            proof {
                reveal_strlit("Digit9");
            }
            Some("Digit9")
        },
        KeyCode::ArrowLeft => {
            proof {
                reveal_strlit("ArrowLeft");
            }
            Some("ArrowLeft")
        },
        KeyCode::ArrowRight => {
            proof {
                reveal_strlit("ArrowRight");
            }
            Some("ArrowRight")
        },
        KeyCode::ArrowUp => {
            proof {
                reveal_strlit("ArrowUp");
            }
            Some("ArrowUp")
        },
        KeyCode::ArrowDown => {
            proof {
                reveal_strlit("ArrowDown");
            }
            Some("ArrowDown")
        },
        KeyCode::F1 => {
            proof {
                reveal_strlit("F1");
            }
            Some("F1")
        },
        KeyCode::F2 => {
            proof {
                reveal_strlit("F2");
            }
            Some("F2")
        },
        KeyCode::F3 => {
            proof {
                reveal_strlit("F3");
            }
            Some("F3")
        },
        KeyCode::F4 => {
            proof {
                reveal_strlit("F4");
            }
            Some("F4")
        },
        KeyCode::F5 => {
            proof {
                reveal_strlit("F5");
            }
            Some("F5")
        },
        KeyCode::F6 => {
            proof {
                reveal_strlit("F6");
            }
            Some("F6")
        },
        KeyCode::F7 => {
            proof {
                reveal_strlit("F7");
            }
            Some("F7")
        },
        KeyCode::F8 => {
            proof {
                reveal_strlit("F8");
            }
            Some("F8")
        },
        KeyCode::F9 => {
            proof {
                reveal_strlit("F9");
            }
            Some("F9")
        },
        KeyCode::F10 => {
            proof {
                reveal_strlit("F10");
            }
            Some("F10")
        },
        KeyCode::F11 => {
            proof {
                reveal_strlit("F11");
            }
            Some("F11")
        },
        KeyCode::F12 => {
            proof {
                reveal_strlit("F12");
            }
            Some("F12")
        },
        KeyCode::ShiftLeft => {
            proof {
                reveal_strlit("ShiftLeft");
            }
            Some("ShiftLeft")
        },
        KeyCode::ShiftRight => {
            proof {
                reveal_strlit("ShiftRight");
            }
            Some("ShiftRight")
        },
        KeyCode::ControlLeft => {
            proof {
                reveal_strlit("ControlLeft");
            }
            Some("ControlLeft")
        },
        KeyCode::ControlRight => {
            proof {
                reveal_strlit("ControlRight");
            }
            Some("ControlRight")
        },
        KeyCode::AltLeft => {
            proof {
                reveal_strlit("AltLeft");
            }
            Some("AltLeft")
        },
        KeyCode::AltRight => {
            proof {
                reveal_strlit("AltRight");
            }
            Some("AltRight")
        },
        KeyCode::Space => {
            proof {
                reveal_strlit("Space");
            }
            Some("Space")
        },
        KeyCode::Enter => {
            proof {
                reveal_strlit("Enter");
            }
            Some("Enter")
        },
        KeyCode::Escape => {
            proof {
                reveal_strlit("Escape");
            }
            Some("Escape")
        },
        KeyCode::Tab => {
            proof {
                reveal_strlit("Tab");
            }
            Some("Tab")
        },
        KeyCode::Backspace => {
            proof {
                reveal_strlit("Backspace");
            }
            Some("Backspace")
        },
        KeyCode::Delete => {
            proof {
                reveal_strlit("Delete");
            }
            Some("Delete")
        },
    }
}

/// The key that `input.yml` names `s`, or `None` for an unsupported name.
pub fn key_code_from_str(s: &str) -> (r: Option<KeyCode>)
    ensures
        r == spec_key_code_from_name(s@),
        r matches Some(k) ==> key_code_name(k) == s@,
        r is None ==> forall|k: KeyCode| key_code_name(k) != s@,
{
    match key_candidate(s) {
        Some(k) => {
            let name = key_code_to_str(k).unwrap();
            if str_eq(s, name) {
                Some(k)
            } else {
                proof {
                    assert forall|k2: KeyCode| key_code_name(k2) != s@ by {
                        if key_code_name(k2) == s@ {
                            lemma_key_candidate(k2);
                        }
                    }
                }
                None
            }
        },
        None => {
            proof {
                assert forall|k2: KeyCode| key_code_name(k2) != s@ by {
                    if key_code_name(k2) == s@ {
                        lemma_key_candidate(k2);
                    }
                }
            }
            None
        },
    }
}

/// Looking a key up by the name it is written with gives that key back, and
/// a name that a lookup accepts is written back unchanged.
pub proof fn lemma_key_code_name_round_trip(k: KeyCode, s: Seq<char>)
    ensures
        forall|r: KeyCode| key_code_name(r) == key_code_name(k) ==> r == k,
        key_code_name(k) == s ==> spec_key_candidate(s) == Some(k),
{
    assert forall|r: KeyCode| key_code_name(r) == key_code_name(k) implies r == k by {
        lemma_key_code_name_injective(r, k);
    }
    lemma_key_candidate(k);
}

/// The action named `s`, if any.
pub open spec fn spec_action_from_name(s: Seq<char>) -> Option<Action> {
    if s == action_name(Action::MoveLeft) {
        Some(Action::MoveLeft)
    } else         if s == action_name(Action::MoveRight) {
        Some(Action::MoveRight)
    } else         if s == action_name(Action::MoveUp) {
        Some(Action::MoveUp)
    } else         if s == action_name(Action::MoveDown) {
        Some(Action::MoveDown)
    } else         if s == action_name(Action::Attack) {
        Some(Action::Attack)
    } else         if s == action_name(Action::DownAttack) {
        Some(Action::DownAttack)
    } else         if s == action_name(Action::Jump) {
        Some(Action::Jump)
    } else         if s == action_name(Action::Guard) {
        Some(Action::Guard)
    } else {
        None
    }
}

impl Action {
    /// The actions in declaration order.
    pub const ALL: [Action; 8] = [Action::MoveLeft, Action::MoveRight, Action::MoveUp, Action::MoveDown, Action::Attack, Action::DownAttack, Action::Jump, Action::Guard];

    /// The snake_case name that keys this action in `input.yml`.
    pub fn as_snake_case(self) -> (r: &'static str)
        ensures
            r@ == action_name(self),
    {
        match self {
            Action::MoveLeft => {
                proof {
                    reveal_strlit("move_left");
                }
                "move_left"
            },
            Action::MoveRight => {
                proof {
                    reveal_strlit("move_right");
                }
                "move_right"
            },
            Action::MoveUp => {
                proof {
                    reveal_strlit("move_up");
                }
                "move_up"
            },
            Action::MoveDown => {
                proof {
                    reveal_strlit("move_down");
                }
                "move_down"
            },
            Action::Attack => {
                proof {
                    reveal_strlit("attack");
                }
                "attack"
            },
            Action::DownAttack => {
                proof {
                    reveal_strlit("down_attack");
                }
                "down_attack"
            },
            Action::Jump => {
                proof {
                    reveal_strlit("jump");
                }
                "jump"
            },
            Action::Guard => {
                proof {
                    reveal_strlit("guard");
                }
                "guard"
            },
        }
    }

    /// The action named `s`, or `None` for an unknown name.
    pub fn from_snake_case(s: &str) -> (r: Option<Action>)
        ensures
            r == spec_action_from_name(s@),
            r matches Some(a) ==> action_name(a) == s@,
            r is None ==> forall|a: Action| action_name(a) != s@,
    {
        if str_eq(s, Action::MoveLeft.as_snake_case()) {
            return Some(Action::MoveLeft);
        }
        if str_eq(s, Action::MoveRight.as_snake_case()) {
            return Some(Action::MoveRight);
        }
        if str_eq(s, Action::MoveUp.as_snake_case()) {
            return Some(Action::MoveUp);
        }
        if str_eq(s, Action::MoveDown.as_snake_case()) {
            return Some(Action::MoveDown);
        }
        if str_eq(s, Action::Attack.as_snake_case()) {
            return Some(Action::Attack);
        }
        if str_eq(s, Action::DownAttack.as_snake_case()) {
            return Some(Action::DownAttack);
        }
        if str_eq(s, Action::Jump.as_snake_case()) {
            return Some(Action::Jump);
        }
        if str_eq(s, Action::Guard.as_snake_case()) {
            return Some(Action::Guard);
        }
        proof {
            assert forall|a: Action| action_name(a) != s@ by {
                match a {
                    Action::MoveLeft => {},
                    Action::MoveRight => {},
                    Action::MoveUp => {},
                    Action::MoveDown => {},
                    Action::Attack => {},
                    Action::DownAttack => {},
                    Action::Jump => {},
                    Action::Guard => {},
                }
            }
        }
        None
    }
}

/// Different actions have different names.
pub proof fn lemma_action_name_injective(a1: Action, a2: Action)
    ensures
        action_name(a1) == action_name(a2) ==> a1 == a2,
{
    reveal_strlit("move_left");
    reveal_strlit("move_right");
    reveal_strlit("move_up");
    reveal_strlit("move_down");
    reveal_strlit("attack");
    reveal_strlit("down_attack");
    reveal_strlit("jump");
    reveal_strlit("guard");
    if action_name(a1) == action_name(a2) {
        assert(action_name(a1).len() == action_name(a2).len());
        match a1 {
            Action::MoveLeft => {
                assert(action_name(a2)[8] == action_name(a1)[8]);
            },
            Action::MoveRight => {
                assert(action_name(a2)[9] == action_name(a1)[9]);
            },
            Action::MoveUp => {
                assert(action_name(a2)[6] == action_name(a1)[6]);
            },
            Action::MoveDown => {
                assert(action_name(a2)[8] == action_name(a1)[8]);
            },
            Action::Attack => {
                assert(action_name(a2)[5] == action_name(a1)[5]);
            },
            Action::DownAttack => {
                assert(action_name(a2)[10] == action_name(a1)[10]);
            },
            Action::Jump => {
                assert(action_name(a2)[3] == action_name(a1)[3]);
            },
            Action::Guard => {
                assert(action_name(a2)[4] == action_name(a1)[4]);
            },
        }
    }
}

/// The action at position `i` in declaration order.
pub fn action_at(i: usize) -> (r: Action)
    requires
        i < 8,
    ensures
        r == all_actions()[i as int],
        action_index(r) == i,
{
    match i {
        0 => Action::MoveLeft,
        1 => Action::MoveRight,
        2 => Action::MoveUp,
        3 => Action::MoveDown,
        4 => Action::Attack,
        5 => Action::DownAttack,
        6 => Action::Jump,
        _ => Action::Guard,
    }
}

/// Keys bound to each action when `input.yml` says nothing: arrows + WASD to
/// move, Space / J to attack, K for the low attack, I to jump, L to guard.
pub open spec fn default_keys(a: Action) -> Seq<KeyCode> {
    match a {
        Action::MoveLeft => seq![KeyCode::ArrowLeft, KeyCode::KeyA],
        Action::MoveRight => seq![KeyCode::ArrowRight, KeyCode::KeyD],
        Action::MoveUp => seq![KeyCode::ArrowUp, KeyCode::KeyW],
        Action::MoveDown => seq![KeyCode::ArrowDown, KeyCode::KeyS],
        Action::Attack => seq![KeyCode::Space, KeyCode::KeyJ],
        Action::DownAttack => seq![KeyCode::KeyK],
        Action::Jump => seq![KeyCode::KeyI],
        Action::Guard => seq![KeyCode::KeyL],
    }
}

/// No key is the default of two actions, and every action has one.
pub proof fn lemma_default_bindings_disjoint(a: Action, b: Action, i: int, j: int)
    requires
        a != b,
        0 <= i < default_keys(a).len(),
        0 <= j < default_keys(b).len(),
    ensures
        default_keys(a)[i] != default_keys(b)[j],
        default_keys(a).len() > 0,
{
}

fn default_keys_vec(a: Action) -> (r: Vec<KeyCode>)
    ensures
        r@ == default_keys(a),
        a == Action::MoveLeft ==> r@ == seq![KeyCode::ArrowLeft, KeyCode::KeyA],
        a == Action::MoveRight ==> r@ == seq![KeyCode::ArrowRight, KeyCode::KeyD],
        a == Action::MoveUp ==> r@ == seq![KeyCode::ArrowUp, KeyCode::KeyW],
        a == Action::MoveDown ==> r@ == seq![KeyCode::ArrowDown, KeyCode::KeyS],
        a == Action::Attack ==> r@ == seq![KeyCode::Space, KeyCode::KeyJ],
        a == Action::DownAttack ==> r@ == seq![KeyCode::KeyK],
        a == Action::Jump ==> r@ == seq![KeyCode::KeyI],
        a == Action::Guard ==> r@ == seq![KeyCode::KeyL],
{
    match a {
        Action::MoveLeft => vec![KeyCode::ArrowLeft, KeyCode::KeyA],
        Action::MoveRight => vec![KeyCode::ArrowRight, KeyCode::KeyD],
        Action::MoveUp => vec![KeyCode::ArrowUp, KeyCode::KeyW],
        Action::MoveDown => vec![KeyCode::ArrowDown, KeyCode::KeyS],
        Action::Attack => vec![KeyCode::Space, KeyCode::KeyJ],
        Action::DownAttack => vec![KeyCode::KeyK],
        Action::Jump => vec![KeyCode::KeyI],
        Action::Guard => vec![KeyCode::KeyL],
    }
}

/// Action → keys. Every action has a (possibly empty) list of keys.
#[derive(Debug, Clone)]
pub struct ActionMap {
    bindings: [Vec<KeyCode>; 8],
}

/// Keys bound to `a` after the assignments of `bs` in order (the last one
/// for `a` wins), or `dflt` when none assigns `a`.
pub open spec fn assigned_keys(bs: Seq<(Action, Seq<KeyCode>)>, a: Action, dflt: Seq<KeyCode>) -> Seq<KeyCode>
    decreases bs.len(),
{
    if bs.len() == 0 {
        dflt
    } else if bs.last().0 == a {
        bs.last().1
    } else {
        assigned_keys(bs.drop_last(), a, dflt)
    }
}

/// The keys that a list of `input.yml` key names binds: unknown names are
/// skipped.
pub open spec fn parse_key_names(names: Seq<Seq<char>>) -> Seq<KeyCode>
    decreases names.len(),
{
    if names.len() == 0 {
        Seq::empty()
    } else {
        let rest = parse_key_names(names.drop_last());
        match spec_key_code_from_name(names.last()) {
            Some(k) => rest.push(k),
            None => rest,
        }
    }
}

/// The `(action, keys)` assignments that a raw `bindings:` table makes:
/// entries with an unknown action name are skipped.
pub open spec fn raw_assignments(raw: Seq<(Seq<char>, Seq<Seq<char>>)>) -> Seq<(Action, Seq<KeyCode>)>
    decreases raw.len(),
{
    if raw.len() == 0 {
        Seq::empty()
    } else {
        let rest = raw_assignments(raw.drop_last());
        match spec_action_from_name(raw.last().0) {
            Some(a) => rest.push((a, parse_key_names(raw.last().1))),
            None => rest,
        }
    }
}

/// Character views of a raw `bindings:` table.
pub open spec fn raw_view(raw: Seq<(String, Vec<String>)>) -> Seq<(Seq<char>, Seq<Seq<char>>)> {
    raw.map_values(|e: (String, Vec<String>)| (e.0@, e.1@.map_values(|k: String| k@)))
}

/// Whether some key is both bound in `bound` and present in `keys`.
pub open spec fn any_key_in(bound: Seq<KeyCode>, keys: Seq<KeyCode>) -> bool {
    exists|i: int| 0 <= i < bound.len() && keys.contains(#[trigger] bound[i])
}

/// Whether some key occurs in both lists.
pub open spec fn key_shared(a: Seq<KeyCode>, b: Seq<KeyCode>) -> bool {
    exists|i: int, j: int| 0 <= i < a.len() && 0 <= j < b.len() && #[trigger] a[i] == #[trigger] b[j]
}

proof fn lemma_any_key_in_shared(a: Seq<KeyCode>, b: Seq<KeyCode>)
    ensures
        any_key_in(a, b) == key_shared(a, b),
{
    if any_key_in(a, b) {
        let i = choose|i: int| 0 <= i < a.len() && b.contains(#[trigger] a[i]);
        let j = choose|j: int| 0 <= j < b.len() && b[j] == a[i];
        assert(a[i] == b[j]);
    }
    if key_shared(a, b) {
        let (i, j) = choose|i: int, j: int| 0 <= i < a.len() && 0 <= j < b.len() && #[trigger] a[i] == #[trigger] b[j];
        assert(b.contains(a[i]));
    }
}

fn any_key_in_exec(bound: &Vec<KeyCode>, keys: &[KeyCode]) -> (r: bool)
    ensures
        r == any_key_in(bound@, keys@),
        r == key_shared(bound@, keys@),
{
    proof {
        lemma_any_key_in_shared(bound@, keys@);
    }
    let mut i: usize = 0;
    while i < bound.len()
        invariant
            i <= bound.len(),
            forall|j: int| 0 <= j < i ==> !keys@.contains(#[trigger] bound@[j]),
        decreases bound.len() - i,
    {
        let k = bound[i];
        let mut j: usize = 0;
        while j < keys.len()
            invariant
                j <= keys.len(),
                i < bound.len(),
                k == bound@[i as int],
                forall|m: int| 0 <= m < j ==> keys@[m] != k,
            decreases keys.len() - j,
        {
            if keys[j] == k {
                assert(keys@[j as int] == bound@[i as int]);
                assert(keys@.contains(bound@[i as int]));
                return true;
            }
            j = j + 1;
        }
        i = i + 1;
    }
    false
}

impl ActionMap {
    /// Keys bound to `a`.
    pub closed spec fn bound_keys(&self, a: Action) -> Seq<KeyCode> {
        self.bindings@[action_index(a)]@
    }

    /// A map with every action unbound.
    fn unbound() -> (r: ActionMap)
        ensures
            forall|a: Action| #[trigger] r.bound_keys(a) == Seq::<KeyCode>::empty(),
    {
        let r = ActionMap {
            bindings: [Vec::new(), Vec::new(), Vec::new(), Vec::new(), Vec::new(), Vec::new(), Vec::new(), Vec::new()],
        };
        assert forall|a: Action| #[trigger] r.bound_keys(a) == Seq::<KeyCode>::empty() by {
            assert(0 <= action_index(a) < 8);
        }
        r
    }

    /// Keys bound to `action`; empty when it has none.
    pub fn bindings_for(&self, action: Action) -> (r: &[KeyCode])
        ensures
            r@ == self.bound_keys(action),
    {
        self.bindings[action_index_exec(action)].as_slice()
    }

    /// Replaces the keys bound to `action`; an empty list unbinds it.
    pub fn set_binding(&mut self, action: Action, codes: Vec<KeyCode>)
        ensures
            final(self).bound_keys(action) == codes@,
            forall|a: Action| a != action ==> #[trigger] final(self).bound_keys(a) == old(self).bound_keys(a),
    {
        let i = action_index_exec(action);
        self.bindings[i] = codes;
        proof {
            assert forall|a: Action| a != action implies #[trigger] self.bound_keys(a) == old(self).bound_keys(a) by {
                lemma_action_index_injective(a, action);
            }
        }
    }

    /// A map with the bindings of `bindings`; an action that it does not
    /// mention has no key (a later entry for the same action wins).
    pub fn from_bindings(bindings: Vec<(Action, Vec<KeyCode>)>) -> (r: ActionMap)
        ensures
            forall|a: Action|
                #[trigger] r.bound_keys(a) == assigned_keys(binding_view(bindings@), a, Seq::empty()),
    {
        let ghost bs = binding_view(bindings@);
        let mut map = ActionMap::unbound();
        let mut i: usize = 0;
        while i < bindings.len()
            invariant
                i <= bindings.len(),
                bs == binding_view(bindings@),
                forall|a: Action| #[trigger] map.bound_keys(a) == assigned_keys(bs.take(i as int), a, Seq::empty()),
            decreases bindings.len() - i,
        {
            let a = bindings[i].0;
            let codes = copy_keys(&bindings[i].1);
            map.set_binding(a, codes);
            proof {
                assert(bs.take(i + 1).drop_last() =~= bs.take(i as int));
            }
            i = i + 1;
        }
        proof {
            assert(bs.take(bindings.len() as int) =~= bs);
        }
        map
    }

    /// Whether a key bound to `action` is among the `held` keys. An action
    /// without keys is never held.
    pub fn pressed(&self, held: &[KeyCode], action: Action) -> (r: bool)
        ensures
            r == any_key_in(self.bound_keys(action), held@),
            // Held exactly when one of the action's keys is among the held keys.
            r == key_shared(self.bound_keys(action), held@),
    {
        any_key_in_exec(&self.bindings[action_index_exec(action)], held)
    }

    /// Whether a key bound to `action` is among the keys pressed this frame.
    pub fn just_pressed(&self, just: &[KeyCode], action: Action) -> (r: bool)
        ensures
            r == any_key_in(self.bound_keys(action), just@),
            // Pressed exactly when one of the action's keys is among this
            // frame's presses.
            r == key_shared(self.bound_keys(action), just@),
    {
        any_key_in_exec(&self.bindings[action_index_exec(action)], just)
    }

    /// The defaults with the entries of a raw `bindings:` table laid over
    /// them: a known action takes the known key names listed for it (an
    /// empty list unbinds it); unknown action and key names are skipped; an
    /// action the table does not mention keeps its default keys.
    pub fn from_raw_with_default_fallback(raw: &Vec<(String, Vec<String>)>) -> (r: ActionMap)
        ensures
            forall|a: Action|
                #[trigger] r.bound_keys(a) == assigned_keys(raw_assignments(raw_view(raw@)), a, default_keys(a)),
    {
        let ghost rv = raw_view(raw@);
        let mut map = ActionMap::default();
        let mut i: usize = 0;
        while i < raw.len()
            invariant
                i <= raw.len(),
                rv == raw_view(raw@),
                forall|a: Action|
                    #[trigger] map.bound_keys(a) == assigned_keys(raw_assignments(rv.take(i as int)), a, default_keys(a)),
            decreases raw.len() - i,
        {
            proof {
                assert(rv.take(i + 1).drop_last() =~= rv.take(i as int));
                assert(rv.take(i + 1).last() == rv[i as int]);
            }
            let ghost prev = raw_assignments(rv.take(i as int));
            match Action::from_snake_case(raw[i].0.as_str()) {
                Some(action) => {
                    let codes = parse_keys(&raw[i].1);
                    proof {
                        assert(rv[i as int].1 =~= raw@[i as int].1@.map_values(|k: String| k@));
                        assert(raw_assignments(rv.take(i + 1)) == prev.push((action, codes@)));
                    }
                    map.set_binding(action, codes);
                    proof {
                        assert forall|a: Action|
                            #[trigger] map.bound_keys(a) == assigned_keys(
                                prev.push((action, codes@)),
                                a,
                                default_keys(a),
                            ) by {
                            assert(prev.push((action, codes@)).drop_last() =~= prev);
                        }
                    }
                },
                None => {
                    proof {
                        assert(raw_assignments(rv.take(i + 1)) == prev);
                    }
                },
            }
            i = i + 1;
        }
        proof {
            assert(rv.take(raw.len() as int) =~= rv);
        }
        map
    }
}

impl Default for ActionMap {
    /// The built-in bindings (see [`default_keys`]).
    fn default() -> (r: ActionMap)
        ensures
            forall|a: Action| #[trigger] r.bound_keys(a) == default_keys(a),
            r.bound_keys(Action::MoveLeft) == seq![KeyCode::ArrowLeft, KeyCode::KeyA],
            r.bound_keys(Action::MoveRight) == seq![KeyCode::ArrowRight, KeyCode::KeyD],
            r.bound_keys(Action::MoveUp) == seq![KeyCode::ArrowUp, KeyCode::KeyW],
            r.bound_keys(Action::MoveDown) == seq![KeyCode::ArrowDown, KeyCode::KeyS],
            r.bound_keys(Action::Attack) == seq![KeyCode::Space, KeyCode::KeyJ],
            r.bound_keys(Action::DownAttack) == seq![KeyCode::KeyK],
            r.bound_keys(Action::Jump) == seq![KeyCode::KeyI],
            r.bound_keys(Action::Guard) == seq![KeyCode::KeyL],
            // Every action has a default key, and no key is the default of two actions.
            forall|a: Action| #[trigger] r.bound_keys(a).len() > 0,
            forall|a: Action, b: Action, i: int, j: int|
                a != b && 0 <= i < r.bound_keys(a).len() && 0 <= j < r.bound_keys(b).len() ==> #[trigger] r.bound_keys(a)[i]
                    != #[trigger] r.bound_keys(b)[j],
    {
        let mut map = ActionMap::unbound();
        let mut i: usize = 0;
        while i < 8
            invariant
                i <= 8,
                forall|a: Action|
                    #[trigger] map.bound_keys(a) == if action_index(a) < i {
                        default_keys(a)
                    } else {
                        Seq::<KeyCode>::empty()
                    },
            decreases 8 - i,
        {
            let a = action_at(i);
            map.set_binding(a, default_keys_vec(a));
            proof {
                assert forall|b: Action| #[trigger] map.bound_keys(b) == if action_index(b) < i + 1 {
                    default_keys(b)
                } else {
                    Seq::<KeyCode>::empty()
                } by {
                    lemma_action_index_injective(a, b);
                }
            }
            i = i + 1;
        }
        proof {
            assert forall|a: Action| #[trigger] map.bound_keys(a) == default_keys(a) by {
                assert(action_index(a) < 8);
            }
            assert forall|a: Action, b: Action, x: int, y: int|
                a != b && 0 <= x < map.bound_keys(a).len() && 0 <= y < map.bound_keys(b).len() implies #[trigger] map.bound_keys(a)[x]
                    != #[trigger] map.bound_keys(b)[y] by {
                lemma_default_bindings_disjoint(a, b, x, y);
            }
            assert forall|a: Action| #[trigger] map.bound_keys(a).len() > 0 by {
                assert(map.bound_keys(a) == default_keys(a));
            }
        }
        map
    }
}

/// `(action, keys)` views of a binding list.
pub open spec fn binding_view(bs: Seq<(Action, Vec<KeyCode>)>) -> Seq<(Action, Seq<KeyCode>)> {
    bs.map_values(|b: (Action, Vec<KeyCode>)| (b.0, b.1@))
}

fn copy_keys(v: &Vec<KeyCode>) -> (r: Vec<KeyCode>)
    ensures
        r@ == v@,
{
    let mut out: Vec<KeyCode> = Vec::new();
    let mut i: usize = 0;
    while i < v.len()
        invariant
            i <= v.len(),
            out@ == v@.take(i as int),
        decreases v.len() - i,
    {
        out.push(v[i]);
        proof {
            assert(v@.take(i + 1) =~= v@.take(i as int).push(v@[i as int]));
        }
        i = i + 1;
    }
    assert(v@.take(v.len() as int) =~= v@);
    out
}

fn parse_keys(names: &Vec<String>) -> (r: Vec<KeyCode>)
    ensures
        r@ == parse_key_names(names@.map_values(|k: String| k@)),
{
    let ghost nv = names@.map_values(|k: String| k@);
    let mut out: Vec<KeyCode> = Vec::new();
    let mut i: usize = 0;
    while i < names.len()
        invariant
            i <= names.len(),
            nv == names@.map_values(|k: String| k@),
            out@ == parse_key_names(nv.take(i as int)),
        decreases names.len() - i,
    {
        proof {
            assert(nv.take(i + 1).drop_last() =~= nv.take(i as int));
            assert(nv.take(i + 1).last() == names@[i as int]@);
        }
        match key_code_from_str(names[i].as_str()) {
            Some(k) => out.push(k),
            None => {},
        }
        i = i + 1;
    }
    assert(nv.take(names.len() as int) =~= nv);
    out
}

/// Position of an action in declaration order.
pub fn action_index_exec(a: Action) -> (r: usize)
    ensures
        r == action_index(a),
        r < 8,
{
    match a {
        Action::MoveLeft => 0,
        Action::MoveRight => 1,
        Action::MoveUp => 2,
        Action::MoveDown => 3,
        Action::Attack => 4,
        Action::DownAttack => 5,
        Action::Jump => 6,
        Action::Guard => 7,
    }
}

/// Different actions sit at different positions.
pub proof fn lemma_action_index_injective(a: Action, b: Action)
    ensures
        action_index(a) == action_index(b) ==> a == b,
{
}

/// Fixed keys of a menu action (besides the gameplay keys it follows).
pub open spec fn menu_fixed_keys(action: MenuAction) -> Seq<KeyCode> {
    match action {
        MenuAction::Up => seq![KeyCode::ArrowUp, KeyCode::KeyW],
        MenuAction::Down => seq![KeyCode::ArrowDown, KeyCode::KeyS],
        MenuAction::Confirm => seq![KeyCode::Enter, KeyCode::Space],
        MenuAction::Cancel => seq![KeyCode::Escape],
    }
}

/// The gameplay action whose keys a menu action also follows: Up/Down follow
/// MoveUp/MoveDown, Confirm follows Attack and Cancel follows Jump.
pub open spec fn spec_menu_action_gameplay(action: MenuAction) -> Action {
    match action {
        MenuAction::Up => Action::MoveUp,
        MenuAction::Down => Action::MoveDown,
        MenuAction::Confirm => Action::Attack,
        MenuAction::Cancel => Action::Jump,
    }
}

/// Fixed keys of a menu action.
pub fn menu_action_keys(action: MenuAction) -> (r: Vec<KeyCode>)
    ensures
        r@ == menu_fixed_keys(action),
        // Arrows or W/S move, Enter or Space confirm, Escape cancels.
        action == MenuAction::Up ==> r@ == seq![KeyCode::ArrowUp, KeyCode::KeyW],
        action == MenuAction::Down ==> r@ == seq![KeyCode::ArrowDown, KeyCode::KeyS],
        action == MenuAction::Confirm ==> r@ == seq![KeyCode::Enter, KeyCode::Space],
        action == MenuAction::Cancel ==> r@ == seq![KeyCode::Escape],
{
    match action {
        MenuAction::Up => vec![KeyCode::ArrowUp, KeyCode::KeyW],
        MenuAction::Down => vec![KeyCode::ArrowDown, KeyCode::KeyS],
        MenuAction::Confirm => vec![KeyCode::Enter, KeyCode::Space],
        MenuAction::Cancel => vec![KeyCode::Escape],
    }
}

/// The gameplay action that a menu action follows.
pub fn menu_action_gameplay(action: MenuAction) -> (r: Action)
    ensures
        r == spec_menu_action_gameplay(action),
        // Menus also follow the gameplay keys: up and down moves, attack
        // confirms, jump cancels.
        action == MenuAction::Up ==> r == Action::MoveUp,
        action == MenuAction::Down ==> r == Action::MoveDown,
        action == MenuAction::Confirm ==> r == Action::Attack,
        action == MenuAction::Cancel ==> r == Action::Jump,
{
    match action {
        MenuAction::Up => Action::MoveUp,
        MenuAction::Down => Action::MoveDown,
        MenuAction::Confirm => Action::Attack,
        MenuAction::Cancel => Action::Jump,
    }
}

/// Whether a menu action is held: one of its fixed keys, or a key bound to
/// the gameplay action it follows, is among the `held` keys.
pub fn menu_action_pressed(held: &[KeyCode], action_map: &ActionMap, action: MenuAction) -> (r: bool)
    ensures
        r == (any_key_in(menu_fixed_keys(action), held@) || any_key_in(
            action_map.bound_keys(spec_menu_action_gameplay(action)),
            held@,
        )),
        // One of the menu action's own keys, or a key of the gameplay action
        // it follows, is among the keys.
        r == (key_shared(menu_fixed_keys(action), held@) || key_shared(
            action_map.bound_keys(spec_menu_action_gameplay(action)),
            held@,
        )),
{
    proof {
        lemma_any_key_in_shared(menu_fixed_keys(action), held@);
        lemma_any_key_in_shared(action_map.bound_keys(spec_menu_action_gameplay(action)), held@);
    }
    let fixed = menu_action_keys(action);
    any_key_in_exec(&fixed, held) || action_map.pressed(held, menu_action_gameplay(action))
}

/// Whether a menu action was pressed this frame (same rule as
/// [`menu_action_pressed`] on the keys pressed this frame).
pub fn menu_action_just_pressed(just: &[KeyCode], action_map: &ActionMap, action: MenuAction) -> (r: bool)
    ensures
        r == (any_key_in(menu_fixed_keys(action), just@) || any_key_in(
            action_map.bound_keys(spec_menu_action_gameplay(action)),
            just@,
        )),
        // One of the menu action's own keys, or a key of the gameplay action
        // it follows, is among the keys.
        r == (key_shared(menu_fixed_keys(action), just@) || key_shared(
            action_map.bound_keys(spec_menu_action_gameplay(action)),
            just@,
        )),
{
    proof {
        lemma_any_key_in_shared(menu_fixed_keys(action), just@);
        lemma_any_key_in_shared(action_map.bound_keys(spec_menu_action_gameplay(action)), just@);
    }
    let fixed = menu_action_keys(action);
    any_key_in_exec(&fixed, just) || action_map.just_pressed(just, menu_action_gameplay(action))
}

/// The comment block at the top of every `input.yml` that the engine writes.
pub const INPUT_YML_HEADER: &'static str = "# Engine の gameplay 入力バインド (ADR-0016)。
#
# このファイルが置き場の規定 path:
#   env BEATEMUP_INPUT_CONFIG > packages/engine/config/input.yml
#
# fail-soft: ファイル不在やパース失敗時は内部のハードコード default に落ちる
# (`packages/engine/src/shared/input.rs` の `ActionMap::default`)。
#
# 未知の action 名や KeyCode 名は warn を出して skip される。yml に書かれなかった
# action は default のバインドがそのまま残る。空 vec ([]) は「この action を unbind
# したい」を表現する (= 入力を完全に無効化)。
#
# サポートする KeyCode 名 (Bevy `KeyCode` の variant 名にそのまま揃える):
#   - 英字: KeyA - KeyZ
#   - 数字: Digit0 - Digit9
#   - 矢印: ArrowLeft / ArrowRight / ArrowUp / ArrowDown
#   - F1 - F12
#   - 修飾: ShiftLeft / ShiftRight / ControlLeft / ControlRight / AltLeft / AltRight
#   - 特殊: Space / Enter / Escape / Tab / Backspace / Delete
#
# このファイルはキーコンフィグ画面 (Options scene) の Back 確定で自動上書きされる。
# 手で編集した場合はその内容を尊重するが、コメント以外の余計な書式はキー設定画面
# からの save 時に整列形式に揃え直される。
";

/// Key names joined with `", "`.
pub open spec fn join_key_names(ks: Seq<KeyCode>) -> Seq<char>
    decreases ks.len(),
{
    if ks.len() == 0 {
        Seq::empty()
    } else if ks.len() == 1 {
        key_code_name(ks[0])
    } else {
        join_key_names(ks.drop_last()) + ", "@ + key_code_name(ks.last())
    }
}

/// `n` spaces.
pub open spec fn spaces(n: nat) -> Seq<char> {
    Seq::new(n, |i: int| ' ')
}

/// One `bindings:` line: the action name and a colon left-aligned in a
/// 12-column field, then the key names in flow style.
pub open spec fn yml_binding_line(a: Action, ks: Seq<KeyCode>) -> Seq<char> {
    let label = action_name(a) + ":"@;
    "  "@ + label + spaces((12 - label.len()) as nat) + " ["@ + join_key_names(ks) + "]
"@
}

/// The binding lines of the first `n` actions, in declaration order.
pub open spec fn yml_binding_lines(map: ActionMap, n: nat) -> Seq<char>
    decreases n,
{
    if n == 0 {
        Seq::empty()
    } else {
        let a = all_actions()[n - 1];
        yml_binding_lines(map, (n - 1) as nat) + yml_binding_line(a, map.bound_keys(a))
    }
}

/// The text of `input.yml` for a map: header, `bindings:`, then one line per
/// action in declaration order.
pub open spec fn spec_input_yml(map: ActionMap) -> Seq<char> {
    INPUT_YML_HEADER@ + "bindings:
"@ + yml_binding_lines(map, 8)
}

pub(crate) fn append_key_names(out: &mut String, ks: &[KeyCode])
    ensures
        final(out)@ == old(out)@ + join_key_names(ks@),
{
    let mut i: usize = 0;
    proof {
        reveal_strlit(", ");
        assert(old(out)@ + join_key_names(ks@.take(0)) =~= old(out)@);
    }
    while i < ks.len()
        invariant
            i <= ks.len(),
            out@ == old(out)@ + join_key_names(ks@.take(i as int)),
        decreases ks.len() - i,
    {
        if i > 0 {
            out.append(", ");
        }
        let name = key_code_to_str(ks[i]).unwrap();
        out.append(name);
        proof {
            let t = ks@.take(i + 1);
            assert(t.drop_last() =~= ks@.take(i as int));
            assert(t.last() == ks@[i as int]);
            if i == 0 {
                assert(t.len() == 1);
            }
        }
        i = i + 1;
    }
    proof {
        assert(ks@.take(ks.len() as int) =~= ks@);
    }
}

/// The text that `input.yml` is written with for `map`.
pub fn render_input_yml(map: &ActionMap) -> (r: String)
    ensures
        r@ == spec_input_yml(*map),
{
    let mut text = String::from_str(INPUT_YML_HEADER);
    text.append("bindings:
");
    let ghost base = text@;
    let mut i: usize = 0;
    proof {
        reveal_strlit("  ");
        reveal_strlit(":");
        reveal_strlit(" ");
        reveal_strlit(" [");
        reveal_strlit("]
");
        assert(base + yml_binding_lines(*map, 0) =~= base);
    }
    while i < 8
        invariant
            i <= 8,
            text@ == base + yml_binding_lines(*map, i as nat),
        decreases 8 - i,
    {
        let a = action_at(i);
        let name = a.as_snake_case();
        let ghost before = text@;
        text.append("  ");
        text.append(name);
        text.append(":");
        proof {
            action_name_fits(a);
        }
        let width = name.unicode_len() + 1;
        let mut pad: usize = width;
        while pad < 12
            invariant
                width <= pad <= 12,
                text@ == before + "  "@ + action_name(a) + ":"@ + spaces((pad - width) as nat),
            decreases 12 - pad,
        {
            text.append(" ");
            proof {
                reveal_strlit(" ");
                assert(spaces((pad + 1 - width) as nat) =~= spaces((pad - width) as nat) + " "@);
            }
            pad = pad + 1;
        }
        text.append(" [");
        append_key_names(&mut text, map.bindings_for(a));
        text.append("]
");
        proof {
            reveal_strlit("  ");
            reveal_strlit(":");
            reveal_strlit(" [");
            reveal_strlit("]
");
            assert(pad == 12);
            assert((action_name(a) + ":"@).len() == width);
            assert(text@ =~= before + yml_binding_line(a, map.bound_keys(a)));
            assert(all_actions()[i as int] == a);
        }
        i = i + 1;
    }
    text
}

/// Action names fit the 12-column label field.
proof fn action_name_fits(a: Action)
    ensures
        action_name(a).len() + 1 <= 12,
{
    reveal_strlit("move_left");
    reveal_strlit("move_right");
    reveal_strlit("move_up");
    reveal_strlit("move_down");
    reveal_strlit("attack");
    reveal_strlit("down_attack");
    reveal_strlit("jump");
    reveal_strlit("guard");
}

/// The `bindings:` table that `input.yml` holds for `map`: each action's
/// name with the names of its keys.
pub open spec fn yml_entries(map: ActionMap, n: nat) -> Seq<(Seq<char>, Seq<Seq<char>>)>
    decreases n,
{
    if n == 0 {
        Seq::empty()
    } else {
        let a = all_actions()[n - 1];
        yml_entries(map, (n - 1) as nat).push((action_name(a), map.bound_keys(a).map_values(|k: KeyCode| key_code_name(k))))
    }
}

proof fn lemma_parse_key_names_of_names(ks: Seq<KeyCode>)
    ensures
        parse_key_names(ks.map_values(|k: KeyCode| key_code_name(k))) == ks,
    decreases ks.len(),
{
    let names = ks.map_values(|k: KeyCode| key_code_name(k));
    if ks.len() > 0 {
        assert(names.drop_last() =~= ks.drop_last().map_values(|k: KeyCode| key_code_name(k)));
        lemma_parse_key_names_of_names(ks.drop_last());
        lemma_key_candidate(ks.last());
        assert(ks.drop_last().push(ks.last()) =~= ks);
    }
}

proof fn lemma_action_from_own_name(a: Action)
    ensures
        spec_action_from_name(action_name(a)) == Some(a),
{
    reveal_strlit("move_left");
    reveal_strlit("move_right");
    reveal_strlit("move_up");
    reveal_strlit("move_down");
    reveal_strlit("attack");
    reveal_strlit("down_attack");
    reveal_strlit("jump");
    reveal_strlit("guard");
    assert forall|b: Action| action_name(b) == action_name(a) implies b == a by {
        lemma_action_name_injective(a, b);
    }
}

/// Reading back the `bindings:` table that is written for a map gives every
/// action exactly the keys it had: action names and key names both lead back
/// to what they name, and each action appears once.
pub proof fn lemma_yml_bindings_round_trip(map: ActionMap, a: Action)
    ensures
        assigned_keys(raw_assignments(yml_entries(map, 8)), a, default_keys(a)) == map.bound_keys(a),
{
    assert forall|n: nat| n <= 8 implies #[trigger] raw_assignments(yml_entries(map, n)) == Seq::new(
        n,
        |i: int| (all_actions()[i], map.bound_keys(all_actions()[i])),
    ) by {
        lemma_raw_assignments_prefix(map, n);
    }
    let full = Seq::new(8, |i: int| (all_actions()[i], map.bound_keys(all_actions()[i])));
    lemma_assigned_in_table(full, a, default_keys(a), map);
}

proof fn lemma_raw_assignments_prefix(map: ActionMap, n: nat)
    requires
        n <= 8,
    ensures
        raw_assignments(yml_entries(map, n)) == Seq::new(
            n,
            |i: int| (all_actions()[i], map.bound_keys(all_actions()[i])),
        ),
    decreases n,
{
    if n > 0 {
        lemma_raw_assignments_prefix(map, (n - 1) as nat);
        let a = all_actions()[n - 1];
        lemma_action_from_own_name(a);
        lemma_parse_key_names_of_names(map.bound_keys(a));
        let e = yml_entries(map, n);
        assert(e.drop_last() == yml_entries(map, (n - 1) as nat));
        assert(raw_assignments(e) =~= Seq::new(
            n,
            |i: int| (all_actions()[i], map.bound_keys(all_actions()[i])),
        ));
    }
}

proof fn lemma_assigned_in_table(t: Seq<(Action, Seq<KeyCode>)>, a: Action, d: Seq<KeyCode>, map: ActionMap)
    requires
        t.len() <= 8,
        forall|i: int| 0 <= i < t.len() ==> #[trigger] t[i] == (all_actions()[i], map.bound_keys(all_actions()[i])),
        t.len() == 8 || action_index(a) < t.len(),
    ensures
        assigned_keys(t, a, d) == map.bound_keys(a),
    decreases t.len(),
{
    if t.len() > 0 {
        let last = t.last();
        if last.0 != a {
            assert(action_index(a) < t.len() - 1) by {
                assert(all_actions()[action_index(a)] == a);
            }
            lemma_assigned_in_table(t.drop_last(), a, d, map);
        }
    } else {
        assert(all_actions()[action_index(a)] == a);
    }
}

} // verus!
