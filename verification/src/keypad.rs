//! The hexadecimal keypad on a host keyboard.
//!
//! The sixteen keys are laid out on the four rows that start with `1`, `q`,
//! `a` and `z`, four keys each, in the arrangement of the COSMAC VIP keypad:
//!
//! ```text
//! 1 2 3 C        1 2 3 4
//! 4 5 6 D   on   q w e r
//! 7 8 9 E        a s d f
//! A 0 B F        z x c v
//! ```

use vstd::prelude::*;

verus! {

/// Whether a button went down or came up.
#[derive(Clone, Copy, Debug, PartialEq, Eq, Structural)]
pub enum ButtonState {
    /// The button was pressed.
    Press,
    /// The button was released.
    Release,
}

/// A change of state of a button of the host.
#[derive(Clone, Copy, Debug)]
pub struct ButtonArgs {
    /// New state of the button.
    pub state: ButtonState,
    /// The character on the button, for a keyboard key that has one.
    pub symbol: Option<char>,
}

/// The keypad key that the keyboard key marked `symbol` stands for.
pub open spec fn hex_key(symbol: char) -> Option<u8> {
    if symbol == '1' {
        Some(0x1u8)
    } else if symbol == '2' {
        Some(0x2u8)
    } else if symbol == '3' {
        Some(0x3u8)
    } else if symbol == '4' {
        Some(0xCu8)
    } else if symbol == 'q' {
        Some(0x4u8)
    } else if symbol == 'w' {
        Some(0x5u8)
    } else if symbol == 'e' {
        Some(0x6u8)
    } else if symbol == 'r' {
        Some(0xDu8)
    } else if symbol == 'a' {
        Some(0x7u8)
    } else if symbol == 's' {
        Some(0x8u8)
    } else if symbol == 'd' {
        Some(0x9u8)
    } else if symbol == 'f' {
        Some(0xEu8)
    } else if symbol == 'z' {
        Some(0xAu8)
    } else if symbol == 'x' {
        Some(0x0u8)
    } else if symbol == 'c' {
        Some(0xBu8)
    } else if symbol == 'v' {
        Some(0xFu8)
    } else {
        None
    }
}

/// What [`key_translator`] gives for `button`: the keypad key and 1 for a
/// press or 0 for a release, or nothing where the button is no keypad key.
pub open spec fn keypad_event(button: ButtonArgs) -> Option<(u8, u8)> {
    match button.symbol {
        Some(symbol) => match hex_key(symbol) {
            Some(key) => Some(
                (
                    key,
                    if button.state == ButtonState::Press {
                        1u8
                    } else {
                        0u8
                    },
                ),
            ),
            None => None,
        },
        None => None,
    }
}

/// Maps a button event of the host to a keypad key and its new
/// state, 1 for down and 0 for up. A button that is no keypad key gives the
/// error `Unknown key`.
pub fn key_translator(button: ButtonArgs) -> (result: Result<(u8, u8), String>)
    ensures
        match keypad_event(button) {
            Some(pair) => result == Ok::<(u8, u8), String>(pair),
            None => result is Err && result->Err_0@ == "Unknown key"@,
        },
        result matches Ok(pair) ==> pair.0 < 16 && pair.1 <= 1,
{
    let state: u8 = match button.state {
        ButtonState::Press => 1,
        ButtonState::Release => 0,
    };
    let key: u8 = match button.symbol {
        Some('1') => 0x1,
        Some('2') => 0x2,
        Some('3') => 0x3,
        Some('4') => 0xC,
        Some('q') => 0x4,
        Some('w') => 0x5,
        Some('e') => 0x6,
        Some('r') => 0xD,
        Some('a') => 0x7,
        Some('s') => 0x8,
        Some('d') => 0x9,
        Some('f') => 0xE,
        Some('z') => 0xA,
        Some('x') => 0x0,
        Some('c') => 0xB,
        Some('v') => 0xF,
        _ => 255,
    };
    if key == 255 {
        return Err("Unknown key".to_owned());
    }
    Ok((key, state))
}

/// The keyboard key that stands for keypad key `key`.
pub open spec fn symbol_of(key: u8) -> char
    recommends
        key < 16,
{
    if key == 0x0 {
        'x'
    } else if key == 0x1 {
        '1'
    } else if key == 0x2 {
        '2'
    } else if key == 0x3 {
        '3'
    } else if key == 0x4 {
        'q'
    } else if key == 0x5 {
        'w'
    } else if key == 0x6 {
        'e'
    } else if key == 0x7 {
        'a'
    } else if key == 0x8 {
        's'
    } else if key == 0x9 {
        'd'
    } else if key == 0xA {
        'z'
    } else if key == 0xB {
        'c'
    } else if key == 0xC {
        '4'
    } else if key == 0xD {
        'r'
    } else if key == 0xE {
        'f'
    } else {
        'v'
    }
}

/// Every key of the keypad is on the keyboard, and no two keyboard keys
/// stand for the same one: the two tables are inverse to each other.
pub proof fn law_keypad_layout(key: u8, symbol: char)
    ensures
        key < 16 ==> hex_key(symbol_of(key)) == Some(key),
        hex_key(symbol) matches Some(found) ==> found < 16 && symbol_of(found) == symbol,
{
}

} // verus!
