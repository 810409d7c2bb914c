use gameboy_core::hardware::{Button, ButtonState, Hardware, Joypad};

const ALL: [Button; 8] = [
    Button::Up,
    Button::Down,
    Button::Left,
    Button::Right,
    Button::Start,
    Button::Select,
    Button::A,
    Button::B,
];

#[test]
fn new_joypad_has_every_button_released() {
    let joypad = Joypad::new();
    for button in ALL {
        assert!(!joypad.pressed(button));
    }
}

#[test]
fn set_changes_one_button() {
    for button in ALL {
        let mut joypad = Joypad::new();
        joypad.set(button, ButtonState::Down);
        for other in ALL {
            assert_eq!(joypad.pressed(other), other == button);
        }
        joypad.set(button, ButtonState::Up);
        for other in ALL {
            assert!(!joypad.pressed(other));
        }
    }
}

#[test]
fn set_keeps_the_other_buttons() {
    let mut joypad = Joypad::new();
    joypad.set(Button::A, ButtonState::Down);
    joypad.set(Button::Left, ButtonState::Down);
    joypad.set(Button::Start, ButtonState::Down);
    joypad.set(Button::Left, ButtonState::Up);
    joypad.set(Button::B, ButtonState::Up);
    assert!(joypad.pressed(Button::A));
    assert!(joypad.pressed(Button::Start));
    assert!(!joypad.pressed(Button::Left));
    assert!(!joypad.pressed(Button::B));
    assert!(!joypad.pressed(Button::Up));
}

#[test]
fn hardware_can_be_made() {
    let _first = Hardware::new();
    let _second = Hardware::default();
}
