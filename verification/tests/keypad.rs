use chip8::display::lit;
use chip8::keypad::{key_translator, ButtonArgs, ButtonState};

fn press(symbol: char) -> ButtonArgs {
    ButtonArgs { state: ButtonState::Press, symbol: Some(symbol) }
}

#[test]
fn keyboard_block_maps_onto_the_keypad() {
    let layout = [
        ('1', 0x1), ('2', 0x2), ('3', 0x3), ('4', 0xC),
        ('q', 0x4), ('w', 0x5), ('e', 0x6), ('r', 0xD),
        ('a', 0x7), ('s', 0x8), ('d', 0x9), ('f', 0xE),
        ('z', 0xA), ('x', 0x0), ('c', 0xB), ('v', 0xF),
    ];
    for (symbol, key) in layout {
        assert_eq!(key_translator(press(symbol)), Ok((key, 1)));
        let release = ButtonArgs { state: ButtonState::Release, symbol: Some(symbol) };
        assert_eq!(key_translator(release), Ok((key, 0)));
    }
}

#[test]
fn every_keypad_key_is_reachable_exactly_once() {
    let mut seen = [0u8; 16];
    for code in 0..=0x7Fu8 {
        if let Ok((key, _)) = key_translator(press(code as char)) {
            seen[key as usize] += 1;
        }
    }
    assert_eq!(seen, [1u8; 16]);
}

#[test]
fn other_keys_are_unknown() {
    for symbol in ['5', 'Q', ' ', 'g', '\0', '\u{1F600}'] {
        assert_eq!(key_translator(press(symbol)), Err(String::from("Unknown key")));
    }
}

#[test]
fn a_button_without_a_character_is_unknown() {
    let button = ButtonArgs { state: ButtonState::Release, symbol: None };
    assert_eq!(key_translator(button), Err(String::from("Unknown key")));
}

#[test]
fn lit_lists_cells_in_reading_order() {
    let mut screen = [0u8; 2048];
    screen[61] = 1;
    screen[0] = 1;
    screen[64] = 1;
    screen[2047] = 1;
    assert_eq!(lit(&screen), vec![(0, 0), (61, 0), (0, 1), (63, 31)]);
}

#[test]
fn lit_of_a_blank_and_of_a_full_display() {
    assert!(lit(&[0u8; 2048]).is_empty());
    let all = lit(&[1u8; 2048]);
    assert_eq!(all.len(), 2048);
    assert_eq!(all[0], (0, 0));
    assert_eq!(all[64], (0, 1));
    assert_eq!(all[2047], (63, 31));
}

#[test]
fn lit_counts_only_cells_that_hold_one() {
    let mut screen = [0u8; 2048];
    screen[5] = 2;
    screen[6] = 1;
    assert_eq!(lit(&screen), vec![(6, 0)]);
}
