use vstd::prelude::*;
use crate::input::{gamepad_state_of, ControllerBattery, ControllerInput, GamepadState, HID_REPORT_SIZE};

verus! {

/// Short UUID of the HID report characteristic.
pub const HID_REPORT_UUID: u16 = 0x2A4D;

/// Short UUID of the report reference descriptor.
pub const REPORT_REFERENCE_UUID: u16 = 0x2908;

/// Where the connection to the gamepad stands.
#[derive(Clone, Copy, Debug, PartialEq, Eq, Structural)]
pub enum GamepadPhase {
    Disconnected,
    Scanning,
    Connecting,
    ServiceDiscovery,
    Subscribed,
}

/// What the wireless link reported.
#[derive(Clone, Copy, Debug, PartialEq, Eq, Structural)]
pub enum GamepadEvent {
    /// A new connection attempt begins.
    Start,
    /// The scan saw the gamepad.
    TargetFound,
    /// The connection is up.
    Connected,
    /// The scan or the connection failed.
    ConnectFailed,
    /// Service discovery finished, with or without the input report characteristic.
    Discovered { report_found: bool },
    /// The liveness monitor saw the link drop.
    LinkLost,
}

/// What the input task is to do next.
#[derive(Clone, Copy, Debug, PartialEq, Eq, Structural)]
pub enum GamepadAction {
    /// Nothing: the event did not apply in this phase.
    Ignore,
    Scan,
    Connect,
    DiscoverServices,
    /// Read the battery once, then subscribe to reports and battery notifications.
    ReadBatteryAndSubscribe,
    /// Give up this attempt; the next one starts from scanning.
    EndAttempt,
    /// Cancel every sub-task of the connection; the next attempt starts from scanning.
    CancelAll,
}

/// One step of the connection state machine: the next phase, what to do,
/// and the connection state to publish (with `emit_if_changed`), if any.
pub struct GamepadStep {
    pub phase: GamepadPhase,
    pub action: GamepadAction,
    pub connected: Option<bool>,
}

/// The transition table of the connection state machine.
pub open spec fn gamepad_step(phase: GamepadPhase, event: GamepadEvent) -> GamepadStep {
    match (phase, event) {
        (GamepadPhase::Disconnected, GamepadEvent::Start) => GamepadStep {
            phase: GamepadPhase::Scanning,
            action: GamepadAction::Scan,
            connected: None,
        },
        (GamepadPhase::Scanning, GamepadEvent::TargetFound) => GamepadStep {
            phase: GamepadPhase::Connecting,
            action: GamepadAction::Connect,
            connected: None,
        },
        (GamepadPhase::Scanning, GamepadEvent::ConnectFailed) => GamepadStep {
            phase: GamepadPhase::Disconnected,
            action: GamepadAction::EndAttempt,
            connected: None,
        },
        (GamepadPhase::Connecting, GamepadEvent::Connected) => GamepadStep {
            phase: GamepadPhase::ServiceDiscovery,
            action: GamepadAction::DiscoverServices,
            connected: None,
        },
        (GamepadPhase::Connecting, GamepadEvent::ConnectFailed) => GamepadStep {
            phase: GamepadPhase::Disconnected,
            action: GamepadAction::EndAttempt,
            connected: None,
        },
        (GamepadPhase::ServiceDiscovery, GamepadEvent::Discovered { report_found }) => if report_found {
            GamepadStep {
                phase: GamepadPhase::Subscribed,
                action: GamepadAction::ReadBatteryAndSubscribe,
                connected: Some(true),
            }
        } else {
            GamepadStep {
                phase: GamepadPhase::Disconnected,
                action: GamepadAction::EndAttempt,
                connected: None,
            }
        },
        (GamepadPhase::Connecting, GamepadEvent::LinkLost)
        | (GamepadPhase::ServiceDiscovery, GamepadEvent::LinkLost)
        | (GamepadPhase::Subscribed, GamepadEvent::LinkLost) => GamepadStep {
            phase: GamepadPhase::Disconnected,
            action: GamepadAction::CancelAll,
            connected: Some(false),
        },
        _ => GamepadStep { phase, action: GamepadAction::Ignore, connected: None },
    }
}

/// The input task's connection to the gamepad.
pub struct GamepadLink {
    phase: GamepadPhase,
}

impl View for GamepadLink {
    type V = GamepadPhase;

    closed spec fn view(&self) -> GamepadPhase {
        self.phase
    }
}

impl GamepadLink {
    /// A link that has not tried to connect yet.
    pub fn new() -> (r: Self)
        ensures
            r@ == GamepadPhase::Disconnected,
    {
        GamepadLink { phase: GamepadPhase::Disconnected }
    }

    /// The current phase.
    pub fn phase(&self) -> (r: GamepadPhase)
        ensures
            r == self@,
    {
        self.phase
    }

    /// Takes one event and moves to the next phase.
    pub fn on_event(&mut self, event: GamepadEvent) -> (r: GamepadStep)
        ensures
            r == gamepad_step(old(self)@, event),
            final(self)@ == r.phase,
    {
        let step = match (self.phase, event) {
            (GamepadPhase::Disconnected, GamepadEvent::Start) => GamepadStep {
                phase: GamepadPhase::Scanning,
                action: GamepadAction::Scan,
                connected: None,
            },
            (GamepadPhase::Scanning, GamepadEvent::TargetFound) => GamepadStep {
                phase: GamepadPhase::Connecting,
                action: GamepadAction::Connect,
                connected: None,
            },
            (GamepadPhase::Scanning, GamepadEvent::ConnectFailed)
            | (GamepadPhase::Connecting, GamepadEvent::ConnectFailed) => GamepadStep {
                phase: GamepadPhase::Disconnected,
                action: GamepadAction::EndAttempt,
                connected: None,
            },
            (GamepadPhase::Connecting, GamepadEvent::Connected) => GamepadStep {
                phase: GamepadPhase::ServiceDiscovery,
                action: GamepadAction::DiscoverServices,
                connected: None,
            },
            (GamepadPhase::ServiceDiscovery, GamepadEvent::Discovered { report_found }) => {
                if report_found {
                    GamepadStep {
                        phase: GamepadPhase::Subscribed,
                        action: GamepadAction::ReadBatteryAndSubscribe,
                        connected: Some(true),
                    }
                } else {
                    GamepadStep {
                        phase: GamepadPhase::Disconnected,
                        action: GamepadAction::EndAttempt,
                        connected: None,
                    }
                }
            },
            (GamepadPhase::Connecting, GamepadEvent::LinkLost)
            | (GamepadPhase::ServiceDiscovery, GamepadEvent::LinkLost)
            | (GamepadPhase::Subscribed, GamepadEvent::LinkLost) => GamepadStep {
                phase: GamepadPhase::Disconnected,
                action: GamepadAction::CancelAll,
                connected: Some(false),
            },
            _ => GamepadStep { phase: self.phase, action: GamepadAction::Ignore, connected: None },
        };
        self.phase = step.phase;
        step
    }

    /// Decodes an input report notification into the command to publish (with
    /// an unconditional emit). Outside the subscribed phase, or for a report
    /// too short to decode, there is nothing to publish.
    pub fn on_report(&self, report: &[u8]) -> (r: Option<ControllerInput>)
        ensures
            r == (if self@ == GamepadPhase::Subscribed && report@.len() >= HID_REPORT_SIZE {
                Some(ControllerInput::from_gamepad_spec(gamepad_state_of(report@)))
            } else {
                None::<ControllerInput>
            }),
    {
        if self.phase != GamepadPhase::Subscribed {
            return None;
        }
        match GamepadState::from_hid_report(report) {
            Some(state) => Some(ControllerInput::from_gamepad(&state)),
            None => None,
        }
    }

    /// Reads a battery level notification, or the first read of it: its first
    /// byte. Outside the subscribed phase, or for an empty payload, there is
    /// nothing to publish.
    pub fn on_battery(&self, payload: &[u8]) -> (r: Option<ControllerBattery>)
        ensures
            r == (if self@ == GamepadPhase::Subscribed && payload@.len() > 0 {
                Some(ControllerBattery { level: payload@[0] })
            } else {
                None::<ControllerBattery>
            }),
    {
        if self.phase != GamepadPhase::Subscribed || payload.len() == 0 {
            return None;
        }
        Some(ControllerBattery { level: payload[0] })
    }
}

/// A characteristic found by discovery: its UUID, if it has a short form, and its handle.
#[derive(Clone, Copy, Debug, PartialEq, Eq, Structural)]
pub struct CharacteristicRef {
    pub short_uuid: Option<u16>,
    pub handle: u16,
}

/// The handles of the descriptors of the `i`-th characteristic, if it is a
/// HID report with a characteristic after it: from just past its handle to
/// just before the next one's. An empty or impossible range gives `None`.
pub open spec fn report_descriptor_range_of(chars: Seq<CharacteristicRef>, i: int) -> Option<(u16, u16)> {
    if chars[i].short_uuid == Some(HID_REPORT_UUID) && i + 1 < chars.len() && chars[i].handle
        < u16::MAX && chars[i + 1].handle > 0 {
        Some(((chars[i].handle + 1) as u16, (chars[i + 1].handle - 1) as u16))
    } else {
        None
    }
}

/// Where to look for the report reference of the `i`-th characteristic.
pub fn report_descriptor_range(chars: &[CharacteristicRef], i: usize) -> (r: Option<(u16, u16)>)
    requires
        i < chars@.len(),
    ensures
        r == report_descriptor_range_of(chars@, i as int),
{
    let c = chars[i];
    if c.short_uuid == Some(HID_REPORT_UUID) && i + 1 < chars.len() && c.handle < u16::MAX
        && chars[i + 1].handle > 0 {
        Some((c.handle + 1, chars[i + 1].handle - 1))
    } else {
        None
    }
}

/// Whether a descriptor is a report reference.
pub fn is_report_reference(short_uuid: Option<u16>) -> (r: bool)
    ensures
        r == (short_uuid == Some(REPORT_REFERENCE_UUID)),
{
    match short_uuid {
        Some(u) => u == REPORT_REFERENCE_UUID,
        None => false,
    }
}

/// Whether a report reference's value names input report 1: report id 1
/// and report type 1 (input). A value shorter than two bytes names none.
pub fn is_input_report_reference(value: &[u8]) -> (r: bool)
    ensures
        r == (value@.len() >= 2 && value@[0] == 1 && value@[1] == 1),
{
    value.len() >= 2 && value[0] == 1 && value[1] == 1
}

} // verus!
