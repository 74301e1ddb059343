use crusty_handmade::input::{
    has_bitflag, keyboard_button, win32_process_key_message, win32_process_keyboard_message,
    win32_process_x_input_buttons, win32_process_x_input_digital_button, Button, ButtonInput,
    ControllerButtons, KeyOutcome, RunState, XInputGamepad, XInputVibration, XinputState,
    KEY_ALT_IS_DOWN_FLAG, KEY_IS_UP_FLAG, KEY_PREVIOUS_DOWN_FLAG, FAKE_BUTTON_LEFT,
    FAKE_BUTTON_UP, VK_F4, VK_SPACE, VK_W, XINPUT_GAMEPAD, XINPUT_GAMEPAD_A, XINPUT_GAMEPAD_B,
    XINPUT_GAMEPAD_BACK, XINPUT_GAMEPAD_LEFT_SHOULDER, XINPUT_GAMEPAD_Y, XINPUT_STATE,
    XINPUT_VIBRATION, XUSER_MAX_COUNT,
};

#[test]
fn bitflag_needs_every_bit() {
    assert!(has_bitflag(0x1001, XINPUT_GAMEPAD_A));
    assert!(!has_bitflag(0x0001, XINPUT_GAMEPAD_A));
    assert!(has_bitflag(0x3000, 0x3000));
    assert!(!has_bitflag(0x1000, 0x3000));
    assert!(has_bitflag(0, 0));
}

#[test]
fn digital_button_pressed() {
    let pad = XInputGamepad { wButtons: XINPUT_GAMEPAD_A | XINPUT_GAMEPAD_Y, ..Default::default() };
    let old = ButtonInput { button_is_down: false, half_transitions: 5 };
    let mut new = ButtonInput::default();
    win32_process_x_input_digital_button(&pad, XINPUT_GAMEPAD_A, &old, &mut new);
    assert_eq!(new, ButtonInput { button_is_down: true, half_transitions: 1 });
}

#[test]
fn digital_button_held_and_released() {
    let pad = XInputGamepad { wButtons: XINPUT_GAMEPAD_A, ..Default::default() };
    let old = ButtonInput { button_is_down: true, half_transitions: 1 };
    let mut new = ButtonInput { button_is_down: false, half_transitions: 9 };
    win32_process_x_input_digital_button(&pad, XINPUT_GAMEPAD_A, &old, &mut new);
    assert_eq!(new, ButtonInput { button_is_down: true, half_transitions: 0 });
    win32_process_x_input_digital_button(&pad, XINPUT_GAMEPAD_B, &old, &mut new);
    assert_eq!(new, ButtonInput { button_is_down: false, half_transitions: 1 });
}

#[test]
fn keyboard_message_counts_a_transition() {
    let mut state = ButtonInput { button_is_down: false, half_transitions: 2 };
    win32_process_keyboard_message(&mut state, true);
    assert_eq!(state, ButtonInput { button_is_down: true, half_transitions: 3 });
    win32_process_keyboard_message(&mut state, false);
    assert_eq!(state, ButtonInput { button_is_down: false, half_transitions: 4 });
}

#[test]
fn keys_stand_for_buttons() {
    assert_eq!(keyboard_button(VK_W), Some(Button::MoveUp));
    assert_eq!(keyboard_button(0x41), Some(Button::MoveLeft));
    assert_eq!(keyboard_button(0x53), Some(Button::MoveDown));
    assert_eq!(keyboard_button(0x44), Some(Button::MoveRight));
    assert_eq!(keyboard_button(0x51), Some(Button::ShoulderLeft));
    assert_eq!(keyboard_button(0x45), Some(Button::ShoulderRight));
    assert_eq!(keyboard_button(0x26), Some(Button::ActionUp));
    assert_eq!(keyboard_button(0x28), Some(Button::ActionDown));
    assert_eq!(keyboard_button(0x25), Some(Button::ActionLeft));
    assert_eq!(keyboard_button(0x27), Some(Button::ActionRight));
    assert_eq!(keyboard_button(0x1B), Some(Button::Start));
    assert_eq!(keyboard_button(VK_SPACE), Some(Button::Back));
    assert_eq!(keyboard_button(VK_F4), None);
    assert_eq!(keyboard_button(0), None);
}

#[test]
fn key_press_toggles_its_button() {
    assert_eq!(
        win32_process_key_message(VK_W, 0),
        KeyOutcome { toggled: Some((Button::MoveUp, true)), stop: false }
    );
}

#[test]
fn key_release_toggles_its_button() {
    assert_eq!(
        win32_process_key_message(VK_SPACE, KEY_PREVIOUS_DOWN_FLAG | KEY_IS_UP_FLAG),
        KeyOutcome { toggled: Some((Button::Back, false)), stop: false }
    );
}

#[test]
fn key_repeat_toggles_nothing() {
    assert_eq!(
        win32_process_key_message(VK_W, KEY_PREVIOUS_DOWN_FLAG),
        KeyOutcome { toggled: None, stop: false }
    );
    assert_eq!(
        win32_process_key_message(VK_W, KEY_IS_UP_FLAG),
        KeyOutcome { toggled: None, stop: false }
    );
}

#[test]
fn unmapped_key_toggles_nothing() {
    assert_eq!(win32_process_key_message(0x5A, 0), KeyOutcome { toggled: None, stop: false });
}

#[test]
fn alt_f4_asks_to_stop() {
    assert_eq!(
        win32_process_key_message(VK_F4, KEY_ALT_IS_DOWN_FLAG),
        KeyOutcome { toggled: None, stop: true }
    );
    assert_eq!(
        win32_process_key_message(VK_F4, KEY_ALT_IS_DOWN_FLAG | KEY_PREVIOUS_DOWN_FLAG),
        KeyOutcome { toggled: None, stop: true }
    );
    assert_eq!(win32_process_key_message(VK_F4, 0), KeyOutcome { toggled: None, stop: false });
    assert_eq!(
        win32_process_key_message(VK_W, KEY_ALT_IS_DOWN_FLAG),
        KeyOutcome { toggled: Some((Button::MoveUp, true)), stop: false }
    );
}

#[test]
fn key_flags_are_the_top_bits() {
    assert_eq!(KEY_ALT_IS_DOWN_FLAG, 1 << 29);
    assert_eq!(KEY_PREVIOUS_DOWN_FLAG, 1 << 30);
    assert_eq!(KEY_IS_UP_FLAG, 1 << 31);
}

#[test]
fn plain_data_defaults() {
    let state = XinputState::default();
    assert_eq!(state.dwPacketNumber, 0);
    assert_eq!(state.Gamepad, XInputGamepad::default());
    assert_eq!(state.Gamepad.wButtons, 0);
    assert_eq!(XInputVibration::default().wLeftMotorSpeed, 0);
    assert_eq!(XUSER_MAX_COUNT, 4);
    assert_ne!(RunState::Starting, RunState::Running);
    assert_ne!(RunState::Running, RunState::Stopping);
}

#[test]
fn system_names_are_the_same_types() {
    let state: XINPUT_STATE = XinputState::default();
    let gamepad: XINPUT_GAMEPAD = state.Gamepad;
    let vibration: XINPUT_VIBRATION = XInputVibration { wLeftMotorSpeed: 1, wRightMotorSpeed: 2 };
    assert_eq!(gamepad, XInputGamepad::default());
    assert_eq!(vibration.wRightMotorSpeed, 2);
}

fn down(half_transitions: u32) -> ButtonInput {
    ButtonInput { button_is_down: true, half_transitions }
}

fn up(half_transitions: u32) -> ButtonInput {
    ButtonInput { button_is_down: false, half_transitions }
}

#[test]
fn buttons_come_in_the_order_of_their_names() {
    let mut buttons = ControllerButtons::default();
    for (count, button) in buttons.buttons_mut().into_iter().enumerate() {
        button.half_transitions = count as u32;
    }
    let order = [
        Button::MoveUp,
        Button::MoveDown,
        Button::MoveLeft,
        Button::MoveRight,
        Button::ActionUp,
        Button::ActionDown,
        Button::ActionLeft,
        Button::ActionRight,
        Button::ShoulderLeft,
        Button::ShoulderRight,
        Button::Start,
        Button::Back,
    ];
    for (count, which) in order.into_iter().enumerate() {
        assert_eq!(buttons.button_mut(which).half_transitions, count as u32);
        assert_eq!(buttons.buttons()[count].half_transitions, count as u32);
    }
    assert_eq!(buttons.move_up, up(0));
    assert_eq!(buttons.action_right, up(7));
    assert_eq!(buttons.back, up(11));
}

#[test]
fn button_mut_changes_one_button() {
    let mut buttons = ControllerButtons::default();
    *buttons.button_mut(Button::ShoulderLeft) = down(3);
    assert_eq!(buttons, ControllerButtons { shoulder_left: down(3), ..Default::default() });
}

#[test]
fn held_over_keeps_down_and_clears_transitions() {
    let old = ControllerButtons {
        move_up: down(4),
        action_left: up(2),
        back: down(0),
        ..Default::default()
    };
    let new = ControllerButtons::held_over(&old);
    assert_eq!(
        new,
        ControllerButtons { move_up: down(0), back: down(0), ..Default::default() }
    );
}

#[test]
fn gamepad_buttons_are_read_from_both_words() {
    let gamepad = XInputGamepad {
        wButtons: XINPUT_GAMEPAD_Y | XINPUT_GAMEPAD_BACK | XINPUT_GAMEPAD_LEFT_SHOULDER,
        ..Default::default()
    };
    let old = ControllerButtons {
        action_up: down(1),
        start: down(0),
        move_left: up(5),
        move_right: down(0),
        ..Default::default()
    };
    let new =
        win32_process_x_input_buttons(&gamepad, FAKE_BUTTON_UP | FAKE_BUTTON_LEFT, &old);
    assert_eq!(
        new,
        ControllerButtons {
            move_up: down(1),
            move_down: up(0),
            move_left: down(1),
            move_right: up(1),
            action_up: down(0),
            action_down: up(0),
            action_left: up(0),
            action_right: up(0),
            shoulder_left: down(1),
            shoulder_right: up(0),
            start: up(1),
            back: down(1),
        }
    );
}
