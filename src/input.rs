use vstd::prelude::*;
use crate::wire::FlightInput;

verus! {

/// Size in bytes of the gamepad's input report.
pub const HID_REPORT_SIZE: usize = 8;

/// One input report of the gamepad, field by field.
#[derive(Clone, Copy, Debug, PartialEq, Eq, Structural)]
pub struct GamepadState {
    pub dpad: u8,
    pub left_stick_x: u8,
    pub left_stick_y: u8,
    pub right_stick_x: u8,
    pub right_stick_y: u8,
    pub right_trigger: u8,
    pub left_trigger: u8,
    pub buttons: u8,
}

/// The buttons of the gamepad that its report carries as bits.
#[derive(Clone, Copy, Debug, PartialEq, Eq, Structural)]
pub enum GamepadButton {
    A,
    B,
    X,
    Y,
    LB,
    RB,
    L4,
    R4,
}

/// The bit of the report's button byte that a button sets.
pub open spec fn button_mask(button: GamepadButton) -> u8 {
    match button {
        GamepadButton::A => 1,
        GamepadButton::B => 2,
        GamepadButton::L4 => 4,
        GamepadButton::X => 8,
        GamepadButton::Y => 16,
        GamepadButton::R4 => 32,
        GamepadButton::LB => 64,
        GamepadButton::RB => 128,
    }
}

/// The gamepad state that a report of at least `HID_REPORT_SIZE` bytes holds.
pub open spec fn gamepad_state_of(report: Seq<u8>) -> GamepadState {
    GamepadState {
        dpad: report[0],
        left_stick_x: report[1],
        left_stick_y: report[2],
        right_stick_x: report[3],
        right_stick_y: report[4],
        right_trigger: report[5],
        left_trigger: report[6],
        buttons: report[7],
    }
}

impl GamepadState {
    /// Whether the report shows `button` held down.
    pub fn button_pressed(&self, button: GamepadButton) -> (r: bool)
        ensures
            r == (self.buttons & button_mask(button) != 0),
    {
        match button {
            GamepadButton::A => (self.buttons & 1) != 0,
            GamepadButton::B => (self.buttons & 2) != 0,
            GamepadButton::X => (self.buttons & 8) != 0,
            GamepadButton::Y => (self.buttons & 16) != 0,
            GamepadButton::LB => (self.buttons & 64) != 0,
            GamepadButton::RB => (self.buttons & 128) != 0,
            GamepadButton::L4 => (self.buttons & 4) != 0,
            GamepadButton::R4 => (self.buttons & 32) != 0,
        }
    }

    /// Decodes a raw input report; one shorter than `HID_REPORT_SIZE` bytes is
    /// rejected, and bytes past it are ignored.
    pub fn from_hid_report(report: &[u8]) -> (r: Option<GamepadState>)
        ensures
            r == (if report@.len() >= HID_REPORT_SIZE {
                Some(gamepad_state_of(report@))
            } else {
                None::<GamepadState>
            }),
    {
        if report.len() < HID_REPORT_SIZE {
            return None;
        }
        Some(
            GamepadState {
                dpad: report[0],
                left_stick_x: report[1],
                left_stick_y: report[2],
                right_stick_x: report[3],
                right_stick_y: report[4],
                right_trigger: report[5],
                left_trigger: report[6],
                buttons: report[7],
            },
        )
    }
}

/// The normalised pilot command that the input task publishes.
#[derive(Clone, Copy, Debug, PartialEq, Eq, Structural)]
pub struct ControllerInput {
    pub left_stick_x: u8,
    pub left_stick_y: u8,
    pub right_stick_x: u8,
    pub right_stick_y: u8,
    pub left_trigger: u8,
    pub right_trigger: u8,
    pub buttons: u8,
}

/// Sticks centred, triggers released, no button down.
pub open spec fn neutral_input() -> ControllerInput {
    ControllerInput {
        left_stick_x: 0x7F,
        left_stick_y: 0x7F,
        right_stick_x: 0x7F,
        right_stick_y: 0x7F,
        left_trigger: 0,
        right_trigger: 0,
        buttons: 0,
    }
}

impl Default for ControllerInput {
    fn default() -> (r: Self)
        ensures
            r == neutral_input(),
    {
        ControllerInput {
            left_stick_x: 0x7F,
            left_stick_y: 0x7F,
            right_stick_x: 0x7F,
            right_stick_y: 0x7F,
            left_trigger: 0x00,
            right_trigger: 0x00,
            buttons: 0x00,
        }
    }
}

impl ControllerInput {
    /// The command that a gamepad report stands for: its sticks, triggers and
    /// buttons; the direction pad is not part of a command.
    pub open spec fn from_gamepad_spec(state: GamepadState) -> ControllerInput {
        ControllerInput {
            left_stick_x: state.left_stick_x,
            left_stick_y: state.left_stick_y,
            right_stick_x: state.right_stick_x,
            right_stick_y: state.right_stick_y,
            left_trigger: state.left_trigger,
            right_trigger: state.right_trigger,
            buttons: state.buttons,
        }
    }

    /// The command that a gamepad report stands for.
    pub fn from_gamepad(state: &GamepadState) -> (r: ControllerInput)
        ensures
            r == Self::from_gamepad_spec(*state),
    {
        ControllerInput {
            left_stick_x: state.left_stick_x,
            left_stick_y: state.left_stick_y,
            right_stick_x: state.right_stick_x,
            right_stick_y: state.right_stick_y,
            left_trigger: state.left_trigger,
            right_trigger: state.right_trigger,
            buttons: state.buttons,
        }
    }

    /// The wire command with the same fields.
    pub fn to_flight_input(&self) -> (r: FlightInput)
        ensures
            r == (FlightInput {
                left_stick_x: self.left_stick_x,
                left_stick_y: self.left_stick_y,
                right_stick_x: self.right_stick_x,
                right_stick_y: self.right_stick_y,
                left_trigger: self.left_trigger,
                right_trigger: self.right_trigger,
                buttons: self.buttons,
            }),
    {
        FlightInput {
            left_stick_x: self.left_stick_x,
            left_stick_y: self.left_stick_y,
            right_stick_x: self.right_stick_x,
            right_stick_y: self.right_stick_y,
            left_trigger: self.left_trigger,
            right_trigger: self.right_trigger,
            buttons: self.buttons,
        }
    }
}

/// Battery level of the gamepad, as it reports it.
#[derive(Clone, Copy, Debug, PartialEq, Eq, Structural)]
pub struct ControllerBattery {
    pub level: u8,
}

impl Default for ControllerBattery {
    fn default() -> (r: Self)
        ensures
            r.level == 0,
    {
        ControllerBattery { level: 0 }
    }
}

/// The latest input of the pilot, field by field, with the buttons latch: the
/// buttons pressed since the latch was last cleared.
#[derive(Clone, Copy, Debug, PartialEq, Eq, Structural)]
pub struct PilotInputState {
    pub left_stick_x: u8,
    pub left_stick_y: u8,
    pub right_stick_x: u8,
    pub right_stick_y: u8,
    pub left_trigger: u8,
    pub right_trigger: u8,
    pub buttons: u8,
    pub buttons_latch: u8,
}

impl Default for PilotInputState {
    fn default() -> (r: Self)
        ensures
            r == (PilotInputState {
                left_stick_x: 127,
                left_stick_y: 127,
                right_stick_x: 127,
                right_stick_y: 127,
                left_trigger: 0,
                right_trigger: 0,
                buttons: 0,
                buttons_latch: 0,
            }),
    {
        PilotInputState {
            left_stick_x: 127,
            left_stick_y: 127,
            right_stick_x: 127,
            right_stick_y: 127,
            left_trigger: 0,
            right_trigger: 0,
            buttons: 0,
            buttons_latch: 0,
        }
    }
}

impl PilotInputState {
    /// The command to transmit: the live sticks and triggers, and every button
    /// latched since the last confirmed delivery.
    pub fn to_flight_input(&self) -> (r: FlightInput)
        ensures
            r == (FlightInput {
                left_stick_x: self.left_stick_x,
                left_stick_y: self.left_stick_y,
                right_stick_x: self.right_stick_x,
                right_stick_y: self.right_stick_y,
                left_trigger: self.left_trigger,
                right_trigger: self.right_trigger,
                buttons: self.buttons_latch,
            }),
    {
        FlightInput {
            left_stick_x: self.left_stick_x,
            left_stick_y: self.left_stick_y,
            right_stick_x: self.right_stick_x,
            right_stick_y: self.right_stick_y,
            left_trigger: self.left_trigger,
            right_trigger: self.right_trigger,
            buttons: self.buttons_latch,
        }
    }
}

/// Connection and battery of the gamepad.
#[derive(Clone, Copy, Debug, PartialEq, Eq, Structural)]
pub struct ControllerState {
    pub connected: bool,
    pub battery: u8,
}

/// A snapshot of the pilot input.
pub fn get_input_state(state: &PilotInputState) -> (r: PilotInputState)
    ensures
        r == *state,
{
    *state
}

/// Clears the buttons latch, once the latched buttons were delivered.
pub fn reset_buttons_latch(state: &mut PilotInputState)
    ensures
        *final(state) == (PilotInputState { buttons_latch: 0, ..*old(state) }),
{
    state.buttons_latch = 0;
}

/// A snapshot of the gamepad's connection and battery.
pub fn get_controller_state(state: &ControllerState) -> (r: ControllerState)
    ensures
        r == *state,
{
    *state
}

/// Takes in a gamepad report: the live fields follow it, and its buttons are
/// added to the latch so that a press is kept until it is delivered.
pub fn update_from_hid_report(state: &mut PilotInputState, report: &GamepadState)
    ensures
        *final(state) == (PilotInputState {
            left_stick_x: report.left_stick_x,
            left_stick_y: report.left_stick_y,
            right_stick_x: report.right_stick_x,
            right_stick_y: report.right_stick_y,
            left_trigger: report.left_trigger,
            right_trigger: report.right_trigger,
            buttons: report.buttons,
            buttons_latch: old(state).buttons_latch | report.buttons,
        }),
{
    state.left_stick_x = report.left_stick_x;
    state.left_stick_y = report.left_stick_y;
    state.right_stick_x = report.right_stick_x;
    state.right_stick_y = report.right_stick_y;
    state.left_trigger = report.left_trigger;
    state.right_trigger = report.right_trigger;
    state.buttons = report.buttons;
    state.buttons_latch = state.buttons_latch | report.buttons;
}

/// Records the gamepad's battery level.
pub fn update_battery(state: &mut ControllerState, battery: u8)
    ensures
        *final(state) == (ControllerState { battery, ..*old(state) }),
{
    state.battery = battery;
}

/// Records whether the gamepad is connected.
pub fn update_connected(state: &mut ControllerState, connected: bool)
    ensures
        *final(state) == (ControllerState { connected, ..*old(state) }),
{
    state.connected = connected;
}

} // verus!
