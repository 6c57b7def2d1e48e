use fc_link::graphic::Graphic;
use fc_link::input::{
    get_controller_state, get_input_state, reset_buttons_latch, update_battery, update_connected,
    update_from_hid_report, ControllerBattery, ControllerInput, ControllerState, GamepadButton, GamepadState,
    PilotInputState,
};
use fc_link::vehicle::{
    battery_power_on_self_test, calibrated_vdda, vehicle_status, BatteryCalibration, BatteryLevel, BatteryStatus,
    SelfTestError,
};
use fc_link::wire::{DroneStatus, FlightInput, DRONE_STATUS_SIZE, FLIGHT_INPUT_SIZE};

#[test]
fn flight_input_wire_record() {
    let f = FlightInput {
        left_stick_x: 1,
        left_stick_y: 2,
        right_stick_x: 3,
        right_stick_y: 4,
        left_trigger: 5,
        right_trigger: 6,
        buttons: 7,
    };
    let bytes = f.as_bytes();
    assert_eq!(bytes, vec![1, 2, 3, 4, 5, 6, 7]);
    assert_eq!(bytes.len(), FLIGHT_INPUT_SIZE);
    assert_eq!(FlightInput::read_from_bytes(&bytes), Some(f));
    assert_eq!(FlightInput::read_from_bytes(&bytes[..6]), None);
    assert_eq!(FlightInput::read_from_bytes(&[0; 8]), None);
}

#[test]
fn drone_status_wire_record() {
    let d = DroneStatus { battery_level: 90, altitude: 8, temp: 21 };
    assert_eq!(d.as_bytes(), vec![90, 8, 21]);
    assert_eq!(DRONE_STATUS_SIZE, 3);
    assert_eq!(DroneStatus::read_from_bytes(&[90, 8, 21]), Some(d));
    assert_eq!(DroneStatus::read_from_bytes(&[1, 2, 3, 4, 5]), None);
    assert_eq!(DroneStatus::read_from_bytes(&[]), None);
}

#[test]
fn hid_report_decodes_in_field_order() {
    let report = [9u8, 11, 12, 13, 14, 15, 16, 0b1000_0001, 99];
    let state = GamepadState::from_hid_report(&report).unwrap();
    assert_eq!(state.dpad, 9);
    assert_eq!(state.left_stick_x, 11);
    assert_eq!(state.right_trigger, 15);
    assert_eq!(state.left_trigger, 16);
    assert_eq!(state.buttons, 0b1000_0001);
    assert!(state.button_pressed(GamepadButton::A));
    assert!(state.button_pressed(GamepadButton::RB));
    assert!(!state.button_pressed(GamepadButton::B));
    assert!(GamepadState::from_hid_report(&report[..7]).is_none());
}

#[test]
fn each_button_has_its_bit() {
    let cases = [
        (GamepadButton::A, 1u8),
        (GamepadButton::B, 2),
        (GamepadButton::L4, 4),
        (GamepadButton::X, 8),
        (GamepadButton::Y, 16),
        (GamepadButton::R4, 32),
        (GamepadButton::LB, 64),
        (GamepadButton::RB, 128),
    ];
    for (button, bit) in cases {
        let mut report = [0u8; 8];
        report[7] = bit;
        let state = GamepadState::from_hid_report(&report).unwrap();
        assert!(state.button_pressed(button));
        report[7] = !bit;
        let state = GamepadState::from_hid_report(&report).unwrap();
        assert!(!state.button_pressed(button));
    }
}

#[test]
fn controller_input_from_gamepad_and_default() {
    let state = GamepadState::from_hid_report(&[0, 1, 2, 3, 4, 5, 6, 7]).unwrap();
    let input = ControllerInput::from_gamepad(&state);
    assert_eq!(input.right_trigger, 5);
    assert_eq!(input.left_trigger, 6);
    let f = input.to_flight_input();
    assert_eq!(f.as_bytes(), vec![1, 2, 3, 4, 6, 5, 7]);
    let neutral = ControllerInput::default();
    assert_eq!(neutral.left_stick_x, 0x7F);
    assert_eq!(neutral.buttons, 0);
    assert_eq!(ControllerBattery::default().level, 0);
}

#[test]
fn pilot_input_latch_keeps_presses_until_reset() {
    let mut state = PilotInputState::default();
    assert_eq!(state.left_stick_x, 127);
    let press = GamepadState::from_hid_report(&[0, 1, 2, 3, 4, 5, 6, 0b01]).unwrap();
    let release = GamepadState::from_hid_report(&[0, 9, 9, 9, 9, 9, 9, 0b10]).unwrap();
    update_from_hid_report(&mut state, &press);
    update_from_hid_report(&mut state, &release);
    let snapshot = get_input_state(&state);
    assert_eq!(snapshot.buttons, 0b10);
    assert_eq!(snapshot.buttons_latch, 0b11);
    assert_eq!(snapshot.to_flight_input().buttons, 0b11);
    assert_eq!(snapshot.to_flight_input().left_stick_x, 9);
    reset_buttons_latch(&mut state);
    assert_eq!(get_input_state(&state).buttons_latch, 0);
    assert_eq!(get_input_state(&state).buttons, 0b10);
}

#[test]
fn controller_state_updates() {
    let mut state = ControllerState { connected: false, battery: 0 };
    update_battery(&mut state, 64);
    update_connected(&mut state, true);
    assert_eq!(get_controller_state(&state), ControllerState { connected: true, battery: 64 });
}

#[test]
fn battery_readings() {
    let c = BatteryCalibration::two_cell_lipo();
    assert_eq!(c.battery_millivolts(3276), 7920);
    assert_eq!(c.battery_millivolts(0), 7000);
    let mv = 8000;
    assert_eq!(c.battery_level(mv), BatteryLevel(72));
    assert_eq!(c.battery_level(7700), BatteryLevel(50));
    assert_eq!(c.battery_level(7000), BatteryLevel(0));
    assert_eq!(c.battery_level(9000), BatteryLevel(100));
    assert_eq!(c.battery_status(7000), BatteryStatus::Cutoff);
    assert_eq!(c.battery_status(7300), BatteryStatus::Critical);
    assert_eq!(c.battery_status(7301), BatteryStatus::Low);
    assert_eq!(c.battery_status(7500), BatteryStatus::Low);
    assert_eq!(c.battery_status(7501), BatteryStatus::Normal);
    assert_eq!(BatteryStatus::default(), BatteryStatus::Critical);
}

#[test]
fn self_test_outcomes() {
    assert_eq!(battery_power_on_self_test(None), Err(SelfTestError::Timeout));
    assert_eq!(battery_power_on_self_test(Some(BatteryStatus::Critical)), Err(SelfTestError::Critical));
    assert_eq!(battery_power_on_self_test(Some(BatteryStatus::Normal)), Ok(()));
    assert_eq!(battery_power_on_self_test(Some(BatteryStatus::Cutoff)), Ok(()));
}

#[test]
fn vdda_and_vehicle_status() {
    assert_eq!(calibrated_vdda(3300, 1500, 1650), 3000);
    let s = vehicle_status(&BatteryLevel(55), 130);
    assert_eq!(s, DroneStatus { battery_level: 55, altitude: 5, temp: 0 });
    assert_eq!(vehicle_status(&BatteryLevel(1), 6400).altitude, 0);
}

#[test]
fn graphic_keeps_its_fields() {
    let g = Graphic::new(2, 1, [1u8, 2, 3, 4]);
    assert_eq!((g.width, g.height, g.data), (2, 1, [1, 2, 3, 4]));
}
