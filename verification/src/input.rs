use vstd::prelude::*;

verus! {

/// One digital button over one frame.
#[derive(Default, Debug, Clone, Copy, PartialEq, Eq)]
pub struct ButtonInput {
    pub button_is_down: bool,
    pub half_transitions: u32,
}

/// State of one controller as the XInput interface reports it.
#[allow(non_snake_case)]
#[derive(Default, Debug, Clone, Copy, PartialEq, Eq)]
pub struct XinputState {
    pub dwPacketNumber: u32,
    pub Gamepad: XInputGamepad,
}

/// Buttons, triggers and thumb sticks of one controller.
#[allow(non_snake_case)]
#[derive(Default, Debug, Clone, Copy, PartialEq, Eq)]
pub struct XInputGamepad {
    pub wButtons: u16,
    pub bLeftTrigger: u8,
    pub bRightTrigger: u8,
    pub sThumbLX: i16,
    pub sThumbLY: i16,
    pub sThumbRX: i16,
    pub sThumbRY: i16,
}

/// Speeds of the two rumble motors of one controller.
#[allow(non_snake_case)]
#[derive(Default, Debug, Clone, Copy, PartialEq, Eq)]
pub struct XInputVibration {
    pub wLeftMotorSpeed: u16,
    pub wRightMotorSpeed: u16,
}

/// The controller state under the name of the system headers.
#[allow(non_camel_case_types)]
pub type XINPUT_STATE = XinputState;

/// The gamepad under the name of the system headers.
#[allow(non_camel_case_types)]
pub type XINPUT_GAMEPAD = XInputGamepad;

/// The rumble speeds under the name of the system headers.
#[allow(non_camel_case_types)]
pub type XINPUT_VIBRATION = XInputVibration;

pub const XINPUT_GAMEPAD_DPAD_UP: u16 = 0x0001;

pub const XINPUT_GAMEPAD_DPAD_DOWN: u16 = 0x0002;

pub const XINPUT_GAMEPAD_DPAD_LEFT: u16 = 0x0004;

pub const XINPUT_GAMEPAD_DPAD_RIGHT: u16 = 0x0008;

pub const XINPUT_GAMEPAD_START: u16 = 0x0010;

pub const XINPUT_GAMEPAD_BACK: u16 = 0x0020;

pub const XINPUT_GAMEPAD_LEFT_THUMB: u16 = 0x0040;

pub const XINPUT_GAMEPAD_RIGHT_THUMB: u16 = 0x0080;

pub const XINPUT_GAMEPAD_LEFT_SHOULDER: u16 = 0x0100;

pub const XINPUT_GAMEPAD_RIGHT_SHOULDER: u16 = 0x0200;

pub const XINPUT_GAMEPAD_A: u16 = 0x1000;

pub const XINPUT_GAMEPAD_B: u16 = 0x2000;

pub const XINPUT_GAMEPAD_X: u16 = 0x4000;

pub const XINPUT_GAMEPAD_Y: u16 = 0x8000;

pub const XUSER_MAX_COUNT: u32 = 4;

/// Bit 29 of a key message's parameter: the ALT key is held.
pub const KEY_ALT_IS_DOWN_FLAG: u32 = 0x2000_0000;

/// Bit 30 of a key message's parameter: the key was down before the message.
pub const KEY_PREVIOUS_DOWN_FLAG: u32 = 0x4000_0000;

/// Bit 31 of a key message's parameter: the key is being released.
pub const KEY_IS_UP_FLAG: u32 = 0x8000_0000;

pub const VK_ESCAPE: u16 = 0x1B;

pub const VK_SPACE: u16 = 0x20;

pub const VK_LEFT: u16 = 0x25;

pub const VK_UP: u16 = 0x26;

pub const VK_RIGHT: u16 = 0x27;

pub const VK_DOWN: u16 = 0x28;

pub const VK_A: u16 = 0x41;

pub const VK_D: u16 = 0x44;

pub const VK_E: u16 = 0x45;

pub const VK_Q: u16 = 0x51;

pub const VK_S: u16 = 0x53;

pub const VK_W: u16 = 0x57;

pub const VK_F4: u16 = 0x73;

/// Where the platform's main loop stands.
#[derive(Eq, PartialEq, Copy, Clone, Debug)]
pub enum RunState {
    Starting,
    Running,
    Stopping,
}

/// The twelve digital buttons of a controller.
#[derive(Eq, PartialEq, Copy, Clone, Debug)]
pub enum Button {
    MoveUp,
    MoveDown,
    MoveLeft,
    MoveRight,
    ActionUp,
    ActionDown,
    ActionLeft,
    ActionRight,
    ShoulderLeft,
    ShoulderRight,
    Start,
    Back,
}

/// The digital buttons of one controller over one frame.
#[derive(Default, Debug, Clone, Copy, PartialEq, Eq)]
pub struct ControllerButtons {
    pub move_up: ButtonInput,
    pub move_down: ButtonInput,
    pub move_left: ButtonInput,
    pub move_right: ButtonInput,
    pub action_up: ButtonInput,
    pub action_down: ButtonInput,
    pub action_left: ButtonInput,
    pub action_right: ButtonInput,
    pub shoulder_left: ButtonInput,
    pub shoulder_right: ButtonInput,
    pub start: ButtonInput,
    pub back: ButtonInput,
}

/// Bit of the button word made up from a stick: the stick is pushed up.
pub const FAKE_BUTTON_UP: u16 = 1;

/// Bit of the button word made up from a stick: the stick is pushed down.
pub const FAKE_BUTTON_DOWN: u16 = 2;

/// Bit of the button word made up from a stick: the stick is pushed left.
pub const FAKE_BUTTON_LEFT: u16 = 4;

/// Bit of the button word made up from a stick: the stick is pushed right.
pub const FAKE_BUTTON_RIGHT: u16 = 8;

/// What one key message asks of the platform loop.
#[derive(Eq, PartialEq, Copy, Clone, Debug)]
pub struct KeyOutcome {
    /// The button whose state flips, with its new state.
    pub toggled: Option<(Button, bool)>,
    /// Whether the message is the request to quit (ALT+F4).
    pub stop: bool,
}

/// Whether every bit of `flag` is set in `value`.
pub open spec fn has_flag(value: u16, flag: u16) -> bool {
    flag & value == flag
}

/// Whether every bit of `flag` is set in `value`, for the parameter of a
/// key message.
pub open spec fn has_key_flag(value: u32, flag: u32) -> bool {
    flag & value == flag
}

/// The button that a key of the keyboard stands for, if any.
pub open spec fn key_button(vk_code: u16) -> Option<Button> {
    if vk_code == VK_W {
        Some(Button::MoveUp)
    } else if vk_code == VK_A {
        Some(Button::MoveLeft)
    } else if vk_code == VK_S {
        Some(Button::MoveDown)
    } else if vk_code == VK_D {
        Some(Button::MoveRight)
    } else if vk_code == VK_Q {
        Some(Button::ShoulderLeft)
    } else if vk_code == VK_E {
        Some(Button::ShoulderRight)
    } else if vk_code == VK_UP {
        Some(Button::ActionUp)
    } else if vk_code == VK_DOWN {
        Some(Button::ActionDown)
    } else if vk_code == VK_LEFT {
        Some(Button::ActionLeft)
    } else if vk_code == VK_RIGHT {
        Some(Button::ActionRight)
    } else if vk_code == VK_ESCAPE {
        Some(Button::Start)
    } else if vk_code == VK_SPACE {
        Some(Button::Back)
    } else {
        None
    }
}

/// A button at the start of a frame: as far down as at the end of the
/// frame before, with no transition counted yet.
pub open spec fn held(old_state: ButtonInput) -> ButtonInput {
    ButtonInput { button_is_down: old_state.button_is_down, half_transitions: 0 }
}

/// A digital button as read from a button word: down where `button` is set
/// in `word`, with one half transition where that differs from `old_state`.
pub open spec fn digital_button(word: u16, button: u16, old_state: ButtonInput) -> ButtonInput {
    ButtonInput {
        button_is_down: has_flag(word, button),
        half_transitions: if old_state.button_is_down != has_flag(word, button) {
            1
        } else {
            0
        },
    }
}

impl ControllerButtons {
    /// The button that `which` names.
    pub open spec fn button(self, which: Button) -> ButtonInput {
        match which {
            Button::MoveUp => self.move_up,
            Button::MoveDown => self.move_down,
            Button::MoveLeft => self.move_left,
            Button::MoveRight => self.move_right,
            Button::ActionUp => self.action_up,
            Button::ActionDown => self.action_down,
            Button::ActionLeft => self.action_left,
            Button::ActionRight => self.action_right,
            Button::ShoulderLeft => self.shoulder_left,
            Button::ShoulderRight => self.shoulder_right,
            Button::Start => self.start,
            Button::Back => self.back,
        }
    }

    /// These buttons with the one that `which` names replaced by `state`.
    pub open spec fn with_button(self, which: Button, state: ButtonInput) -> Self {
        match which {
            Button::MoveUp => ControllerButtons { move_up: state, ..self },
            Button::MoveDown => ControllerButtons { move_down: state, ..self },
            Button::MoveLeft => ControllerButtons { move_left: state, ..self },
            Button::MoveRight => ControllerButtons { move_right: state, ..self },
            Button::ActionUp => ControllerButtons { action_up: state, ..self },
            Button::ActionDown => ControllerButtons { action_down: state, ..self },
            Button::ActionLeft => ControllerButtons { action_left: state, ..self },
            Button::ActionRight => ControllerButtons { action_right: state, ..self },
            Button::ShoulderLeft => ControllerButtons { shoulder_left: state, ..self },
            Button::ShoulderRight => ControllerButtons { shoulder_right: state, ..self },
            Button::Start => ControllerButtons { start: state, ..self },
            Button::Back => ControllerButtons { back: state, ..self },
        }
    }

    /// The twelve buttons in the order of `Button`.
    pub fn buttons(&self) -> (all: [&ButtonInput; 12])
        ensures
            *all[0] == self.move_up,
            *all[1] == self.move_down,
            *all[2] == self.move_left,
            *all[3] == self.move_right,
            *all[4] == self.action_up,
            *all[5] == self.action_down,
            *all[6] == self.action_left,
            *all[7] == self.action_right,
            *all[8] == self.shoulder_left,
            *all[9] == self.shoulder_right,
            *all[10] == self.start,
            *all[11] == self.back,
    {
        [
            &self.move_up,
            &self.move_down,
            &self.move_left,
            &self.move_right,
            &self.action_up,
            &self.action_down,
            &self.action_left,
            &self.action_right,
            &self.shoulder_left,
            &self.shoulder_right,
            &self.start,
            &self.back,
        ]
    }

    /// The twelve buttons in the order of `Button`, to change them in place.
    pub fn buttons_mut(&mut self) -> (all: [&mut ButtonInput; 12])
        ensures
            *all[0] == old(self).move_up,
            *all[1] == old(self).move_down,
            *all[2] == old(self).move_left,
            *all[3] == old(self).move_right,
            *all[4] == old(self).action_up,
            *all[5] == old(self).action_down,
            *all[6] == old(self).action_left,
            *all[7] == old(self).action_right,
            *all[8] == old(self).shoulder_left,
            *all[9] == old(self).shoulder_right,
            *all[10] == old(self).start,
            *all[11] == old(self).back,
            final(self).move_up == *final(all[0]),
            final(self).move_down == *final(all[1]),
            final(self).move_left == *final(all[2]),
            final(self).move_right == *final(all[3]),
            final(self).action_up == *final(all[4]),
            final(self).action_down == *final(all[5]),
            final(self).action_left == *final(all[6]),
            final(self).action_right == *final(all[7]),
            final(self).shoulder_left == *final(all[8]),
            final(self).shoulder_right == *final(all[9]),
            final(self).start == *final(all[10]),
            final(self).back == *final(all[11]),
    {
        [
            &mut self.move_up,
            &mut self.move_down,
            &mut self.move_left,
            &mut self.move_right,
            &mut self.action_up,
            &mut self.action_down,
            &mut self.action_left,
            &mut self.action_right,
            &mut self.shoulder_left,
            &mut self.shoulder_right,
            &mut self.start,
            &mut self.back,
        ]
    }

    /// The button that `which` names, to change it in place.
    pub fn button_mut(&mut self, which: Button) -> (button: &mut ButtonInput)
        ensures
            *button == old(self).button(which),
            *final(self) == old(self).with_button(which, *final(button)),
    {
        match which {
            Button::MoveUp => &mut self.move_up,
            Button::MoveDown => &mut self.move_down,
            Button::MoveLeft => &mut self.move_left,
            Button::MoveRight => &mut self.move_right,
            Button::ActionUp => &mut self.action_up,
            Button::ActionDown => &mut self.action_down,
            Button::ActionLeft => &mut self.action_left,
            Button::ActionRight => &mut self.action_right,
            Button::ShoulderLeft => &mut self.shoulder_left,
            Button::ShoulderRight => &mut self.shoulder_right,
            Button::Start => &mut self.start,
            Button::Back => &mut self.back,
        }
    }

    /// The keyboard's buttons at the start of a frame: each as far down as
    /// `old_buttons` left it, with no transition counted yet.
    pub fn held_over(old_buttons: &ControllerButtons) -> (new_buttons: ControllerButtons)
        ensures
            forall|which: Button| #[trigger]
                new_buttons.button(which) == held(old_buttons.button(which)),
    {
        ControllerButtons {
            move_up: ButtonInput { button_is_down: old_buttons.move_up.button_is_down, half_transitions: 0 },
            move_down: ButtonInput { button_is_down: old_buttons.move_down.button_is_down, half_transitions: 0 },
            move_left: ButtonInput { button_is_down: old_buttons.move_left.button_is_down, half_transitions: 0 },
            move_right: ButtonInput { button_is_down: old_buttons.move_right.button_is_down, half_transitions: 0 },
            action_up: ButtonInput { button_is_down: old_buttons.action_up.button_is_down, half_transitions: 0 },
            action_down: ButtonInput { button_is_down: old_buttons.action_down.button_is_down, half_transitions: 0 },
            action_left: ButtonInput { button_is_down: old_buttons.action_left.button_is_down, half_transitions: 0 },
            action_right: ButtonInput { button_is_down: old_buttons.action_right.button_is_down, half_transitions: 0 },
            shoulder_left: ButtonInput { button_is_down: old_buttons.shoulder_left.button_is_down, half_transitions: 0 },
            shoulder_right: ButtonInput { button_is_down: old_buttons.shoulder_right.button_is_down, half_transitions: 0 },
            start: ButtonInput { button_is_down: old_buttons.start.button_is_down, half_transitions: 0 },
            back: ButtonInput { button_is_down: old_buttons.back.button_is_down, half_transitions: 0 },
        }
    }
}

/// Reads all twelve buttons of a controller: the four move buttons from the
/// stick's button word, the others from the gamepad's own.
pub fn win32_process_x_input_buttons(
    gamepad: &XInputGamepad,
    stick_buttons: u16,
    old_buttons: &ControllerButtons,
) -> (new_buttons: ControllerButtons)
    ensures
        new_buttons.move_up == digital_button(stick_buttons, FAKE_BUTTON_UP, old_buttons.move_up),
        new_buttons.move_down == digital_button(
            stick_buttons,
            FAKE_BUTTON_DOWN,
            old_buttons.move_down,
        ),
        new_buttons.move_left == digital_button(
            stick_buttons,
            FAKE_BUTTON_LEFT,
            old_buttons.move_left,
        ),
        new_buttons.move_right == digital_button(
            stick_buttons,
            FAKE_BUTTON_RIGHT,
            old_buttons.move_right,
        ),
        new_buttons.start == digital_button(
            gamepad.wButtons,
            XINPUT_GAMEPAD_START,
            old_buttons.start,
        ),
        new_buttons.back == digital_button(gamepad.wButtons, XINPUT_GAMEPAD_BACK, old_buttons.back),
        new_buttons.action_up == digital_button(
            gamepad.wButtons,
            XINPUT_GAMEPAD_Y,
            old_buttons.action_up,
        ),
        new_buttons.action_down == digital_button(
            gamepad.wButtons,
            XINPUT_GAMEPAD_A,
            old_buttons.action_down,
        ),
        new_buttons.action_left == digital_button(
            gamepad.wButtons,
            XINPUT_GAMEPAD_X,
            old_buttons.action_left,
        ),
        new_buttons.action_right == digital_button(
            gamepad.wButtons,
            XINPUT_GAMEPAD_B,
            old_buttons.action_right,
        ),
        new_buttons.shoulder_left == digital_button(
            gamepad.wButtons,
            XINPUT_GAMEPAD_LEFT_SHOULDER,
            old_buttons.shoulder_left,
        ),
        new_buttons.shoulder_right == digital_button(
            gamepad.wButtons,
            XINPUT_GAMEPAD_RIGHT_SHOULDER,
            old_buttons.shoulder_right,
        ),
{
    let stick = XInputGamepad {
        wButtons: stick_buttons,
        bLeftTrigger: 0,
        bRightTrigger: 0,
        sThumbLX: 0,
        sThumbLY: 0,
        sThumbRX: 0,
        sThumbRY: 0,
    };
    let idle = ButtonInput { button_is_down: false, half_transitions: 0 };
    let mut new_buttons = ControllerButtons {
        move_up: idle,
        move_down: idle,
        move_left: idle,
        move_right: idle,
        action_up: idle,
        action_down: idle,
        action_left: idle,
        action_right: idle,
        shoulder_left: idle,
        shoulder_right: idle,
        start: idle,
        back: idle,
    };
    win32_process_x_input_digital_button(
        &stick,
        FAKE_BUTTON_UP,
        &old_buttons.move_up,
        &mut new_buttons.move_up,
    );
    win32_process_x_input_digital_button(
        &stick,
        FAKE_BUTTON_DOWN,
        &old_buttons.move_down,
        &mut new_buttons.move_down,
    );
    win32_process_x_input_digital_button(
        &stick,
        FAKE_BUTTON_LEFT,
        &old_buttons.move_left,
        &mut new_buttons.move_left,
    );
    win32_process_x_input_digital_button(
        &stick,
        FAKE_BUTTON_RIGHT,
        &old_buttons.move_right,
        &mut new_buttons.move_right,
    );
    win32_process_x_input_digital_button(
        gamepad,
        XINPUT_GAMEPAD_START,
        &old_buttons.start,
        &mut new_buttons.start,
    );
    win32_process_x_input_digital_button(
        gamepad,
        XINPUT_GAMEPAD_BACK,
        &old_buttons.back,
        &mut new_buttons.back,
    );
    win32_process_x_input_digital_button(
        gamepad,
        XINPUT_GAMEPAD_Y,
        &old_buttons.action_up,
        &mut new_buttons.action_up,
    );
    win32_process_x_input_digital_button(
        gamepad,
        XINPUT_GAMEPAD_A,
        &old_buttons.action_down,
        &mut new_buttons.action_down,
    );
    win32_process_x_input_digital_button(
        gamepad,
        XINPUT_GAMEPAD_X,
        &old_buttons.action_left,
        &mut new_buttons.action_left,
    );
    win32_process_x_input_digital_button(
        gamepad,
        XINPUT_GAMEPAD_B,
        &old_buttons.action_right,
        &mut new_buttons.action_right,
    );
    win32_process_x_input_digital_button(
        gamepad,
        XINPUT_GAMEPAD_LEFT_SHOULDER,
        &old_buttons.shoulder_left,
        &mut new_buttons.shoulder_left,
    );
    win32_process_x_input_digital_button(
        gamepad,
        XINPUT_GAMEPAD_RIGHT_SHOULDER,
        &old_buttons.shoulder_right,
        &mut new_buttons.shoulder_right,
    );
    new_buttons
}

/// Whether every bit of `flag` is set in `value`.
pub fn has_bitflag(value: u16, flag: u16) -> (set: bool)
    ensures
        set == has_flag(value, flag),
{
    flag & value == flag
}

/// Reads one digital button of a gamepad: it is down where `button` is set
/// in the gamepad's button word, and counts one half transition where that
/// differs from `old_state`.
pub fn win32_process_x_input_digital_button(
    input: &XInputGamepad,
    button: u16,
    old_state: &ButtonInput,
    new_state: &mut ButtonInput,
)
    ensures
        *final(new_state) == digital_button(input.wButtons, button, *old_state),
{
    new_state.button_is_down = has_bitflag(input.wButtons, button);
    new_state.half_transitions = if old_state.button_is_down != new_state.button_is_down {
        1
    } else {
        0
    };
}

/// Records that a key changed to `key_is_down`: one more half transition.
pub fn win32_process_keyboard_message(new_button_state: &mut ButtonInput, key_is_down: bool)
    requires
        old(new_button_state).button_is_down != key_is_down,
        old(new_button_state).half_transitions < u32::MAX,
    ensures
        final(new_button_state).button_is_down == key_is_down,
        final(new_button_state).half_transitions == old(new_button_state).half_transitions + 1,
{
    new_button_state.button_is_down = key_is_down;
    new_button_state.half_transitions = new_button_state.half_transitions + 1;
}

/// Decides what a key message means: the button to flip, where the key
/// changed state and stands for one, and whether it asks to quit.
pub fn win32_process_key_message(vk_code: u16, l_param: u32) -> (outcome: KeyOutcome)
    ensures
        outcome.stop == (vk_code == VK_F4 && has_key_flag(l_param, KEY_ALT_IS_DOWN_FLAG)),
        outcome.toggled == (if has_key_flag(l_param, KEY_PREVIOUS_DOWN_FLAG) == has_key_flag(
            l_param,
            KEY_IS_UP_FLAG,
        ) {
            match key_button(vk_code) {
                Some(button) => Some((button, !has_key_flag(l_param, KEY_IS_UP_FLAG))),
                None => None,
            }
        } else {
            None
        }),
{
    let key_was_down: bool = KEY_PREVIOUS_DOWN_FLAG & l_param == KEY_PREVIOUS_DOWN_FLAG;
    let key_is_down: bool = !(KEY_IS_UP_FLAG & l_param == KEY_IS_UP_FLAG);
    let key_alt_is_down: bool = KEY_ALT_IS_DOWN_FLAG & l_param == KEY_ALT_IS_DOWN_FLAG;
    let toggled: Option<(Button, bool)> = if key_is_down != key_was_down {
        match keyboard_button(vk_code) {
            Some(button) => Some((button, key_is_down)),
            None => None,
        }
    } else {
        None
    };
    KeyOutcome { toggled, stop: vk_code == VK_F4 && key_alt_is_down }
}

/// The button that a key of the keyboard stands for, if any.
pub fn keyboard_button(vk_code: u16) -> (button: Option<Button>)
    ensures
        button == key_button(vk_code),
{
    if vk_code == VK_W {
        Some(Button::MoveUp)
    } else if vk_code == VK_A {
        Some(Button::MoveLeft)
    } else if vk_code == VK_S {
        Some(Button::MoveDown)
    } else if vk_code == VK_D {
        Some(Button::MoveRight)
    } else if vk_code == VK_Q {
        Some(Button::ShoulderLeft)
    } else if vk_code == VK_E {
        Some(Button::ShoulderRight)
    } else if vk_code == VK_UP {
        Some(Button::ActionUp)
    } else if vk_code == VK_DOWN {
        Some(Button::ActionDown)
    } else if vk_code == VK_LEFT {
        Some(Button::ActionLeft)
    } else if vk_code == VK_RIGHT {
        Some(Button::ActionRight)
    } else if vk_code == VK_ESCAPE {
        Some(Button::Start)
    } else if vk_code == VK_SPACE {
        Some(Button::Back)
    } else {
        None
    }
}

} // verus!
