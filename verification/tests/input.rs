use barrier::input::{
    button_to_ev_key, DeviceType, Enable, Error, InputEvent, Keyboard, Mouse, MouseButton, ABS_X,
    ABS_Y, BTN_LEFT, DEVICE_NAME, EV_ABS, EV_KEY, EV_SYN, KEYBOARD_KEYS, SYN_REPORT,
};

const SYN: InputEvent = InputEvent {
    event_type: EV_SYN,
    event_code: SYN_REPORT,
    value: 0,
};

#[test]
fn buttons_one_to_four() {
    assert_eq!(MouseButton::from(1), MouseButton::Left);
    assert_eq!(MouseButton::from(2), MouseButton::Middle);
    assert_eq!(MouseButton::from(3), MouseButton::Right);
    assert_eq!(MouseButton::from(4), MouseButton::Extra);
    for id in 1..=4u8 {
        assert!(MouseButton::is_mapped(id));
    }
}

#[test]
fn any_other_button_is_the_left_one() {
    for id in (0..=255u8).filter(|id| !(1..=4).contains(id)) {
        assert_eq!(MouseButton::from(id), MouseButton::Left);
        assert!(!MouseButton::is_mapped(id));
    }
}

#[test]
fn button_codes() {
    assert_eq!(MouseButton::Left.code(), 0x110);
    assert_eq!(MouseButton::Right.code(), 0x111);
    assert_eq!(MouseButton::Middle.code(), 0x112);
    assert_eq!(MouseButton::Side.code(), 0x113);
    assert_eq!(MouseButton::Extra.code(), 0x114);
    assert_eq!(MouseButton::Forward.code(), 0x115);
    assert_eq!(MouseButton::Back.code(), 0x116);
    assert_eq!(MouseButton::Task.code(), 0x117);
    assert_eq!(BTN_LEFT, 272);
}

#[test]
fn button_38_is_the_key_a() {
    assert_eq!(button_to_ev_key(38), Ok(30));
    assert_eq!(KEYBOARD_KEYS[29], 30);
}

#[test]
fn observed_keys() {
    // escape, s, left control, left alt, c
    assert_eq!(button_to_ev_key(9), Ok(1));
    assert_eq!(button_to_ev_key(39), Ok(31));
    assert_eq!(button_to_ev_key(37), Ok(29));
    assert_eq!(button_to_ev_key(64), Ok(56));
    assert_eq!(button_to_ev_key(54), Ok(46));
}

#[test]
fn button_out_of_range_is_a_mapping_error() {
    let error = Err(Error::MapKey {
        device_type: DeviceType::Keyboard,
    });
    assert_eq!(button_to_ev_key(3), error);
    assert_eq!(button_to_ev_key(0), error);
    assert_eq!(button_to_ev_key(7), error);
    assert_eq!(button_to_ev_key(8), error);
    assert_eq!(button_to_ev_key(92), error);
    assert_eq!(button_to_ev_key(249), error);
    assert_eq!(button_to_ev_key(u16::MAX), error);
    assert_eq!(button_to_ev_key(248), Ok(240));
}

#[test]
fn a_key_maps_exactly_when_the_table_holds_it() {
    let mut mapped = 0;
    for button in 0..=u16::MAX {
        match button_to_ev_key(button) {
            Ok(code) => {
                assert_eq!(code, button - 8);
                assert!(KEYBOARD_KEYS.contains(&code));
                mapped += 1;
            }
            Err(error) => {
                assert_eq!(
                    error,
                    Error::MapKey {
                        device_type: DeviceType::Keyboard
                    }
                );
                assert!(button < 8 || !KEYBOARD_KEYS.contains(&(button - 8)));
            }
        }
    }
    assert_eq!(mapped, 146);
}

#[test]
fn the_table_is_in_increasing_order() {
    assert_eq!(KEYBOARD_KEYS.len(), 146);
    assert_eq!(KEYBOARD_KEYS[0], 1);
    assert_eq!(KEYBOARD_KEYS[145], 240);
    for pair in KEYBOARD_KEYS.windows(2) {
        assert!(pair[0] < pair[1]);
    }
}

#[test]
fn move_abs_passes_the_position_on() {
    let mouse = Mouse::new(1920, 1080);
    assert_eq!(
        mouse.move_abs(315, 664),
        vec![
            InputEvent {
                event_type: EV_ABS,
                event_code: ABS_X,
                value: 315
            },
            InputEvent {
                event_type: EV_ABS,
                event_code: ABS_Y,
                value: 664
            },
            SYN,
        ]
    );
    assert_eq!(mouse.move_abs(5000, -1)[0].value, 5000);
    assert_eq!(mouse.move_abs(5000, -1)[1].value, -1);
}

#[test]
fn button_down_and_up() {
    let mouse = Mouse::new(1920, 1080);
    assert_eq!(
        mouse.button_down(MouseButton::Right),
        vec![
            InputEvent {
                event_type: EV_KEY,
                event_code: 0x111,
                value: 1
            },
            SYN,
        ]
    );
    assert_eq!(
        mouse.button_up(MouseButton::Middle),
        vec![
            InputEvent {
                event_type: EV_KEY,
                event_code: 0x112,
                value: 0
            },
            SYN,
        ]
    );
}

#[test]
fn key_down_and_up() {
    let keyboard = Keyboard::new();
    assert_eq!(
        keyboard.key_down(38),
        Ok(vec![
            InputEvent {
                event_type: EV_KEY,
                event_code: 30,
                value: 1
            },
            SYN,
        ])
    );
    assert_eq!(
        keyboard.key_up(38),
        Ok(vec![
            InputEvent {
                event_type: EV_KEY,
                event_code: 30,
                value: 0
            },
            SYN,
        ])
    );
    assert_eq!(
        keyboard.key_down(3),
        Err(Error::MapKey {
            device_type: DeviceType::Keyboard
        })
    );
    assert_eq!(
        keyboard.key_up(3),
        Err(Error::MapKey {
            device_type: DeviceType::Keyboard
        })
    );
}

#[test]
fn mouse_setup() {
    let mouse = Mouse::new(1920, 1080);
    assert_eq!(mouse.x_maximum, 1920);
    assert_eq!(mouse.y_maximum, 1080);
    assert_eq!(
        mouse.setup(),
        vec![
            Enable::Code {
                event_type: EV_KEY,
                event_code: BTN_LEFT
            },
            Enable::Type { event_type: EV_ABS },
            Enable::Axis {
                event_code: ABS_X,
                maximum: 1920
            },
            Enable::Axis {
                event_code: ABS_Y,
                maximum: 1080
            },
        ]
    );
}

#[test]
fn keyboard_setup() {
    let steps = Keyboard::new().setup();
    assert_eq!(steps.len(), 146);
    for (step, key) in steps.iter().zip(KEYBOARD_KEYS.iter()) {
        assert_eq!(
            *step,
            Enable::Code {
                event_type: EV_KEY,
                event_code: *key
            }
        );
    }
}

#[test]
fn names() {
    assert_eq!(DeviceType::Mouse.name(), "Mouse");
    assert_eq!(DeviceType::Keyboard.name(), "Keyboard");
    assert_eq!(DEVICE_NAME, "barrier-rust");
}
