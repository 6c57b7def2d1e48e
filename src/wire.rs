use vstd::prelude::*;

verus! {

/// Number of bytes in the wire record of a pilot command.
pub const FLIGHT_INPUT_SIZE: usize = 7;

/// Number of bytes in the wire record of a vehicle status.
pub const DRONE_STATUS_SIZE: usize = 3;

/// A pilot command as it travels over the radio: seven bytes, in field order.
#[derive(Clone, Copy, Debug, PartialEq, Eq, Structural)]
pub struct FlightInput {
    pub left_stick_x: u8,
    pub left_stick_y: u8,
    pub right_stick_x: u8,
    pub right_stick_y: u8,
    pub left_trigger: u8,
    pub right_trigger: u8,
    pub buttons: u8,
}

/// The vehicle status carried back in a radio acknowledgement: three bytes, in field order.
#[derive(Clone, Copy, Debug, PartialEq, Eq, Structural, Default)]
pub struct DroneStatus {
    pub battery_level: u8,
    /// Altitude in quarter-meter steps: 1 is 25 cm, 2 is 50 cm, and so on.
    pub altitude: u8,
    pub temp: u8,
}

/// The wire record of a pilot command.
pub open spec fn flight_input_bytes(f: FlightInput) -> Seq<u8> {
    seq![
        f.left_stick_x,
        f.left_stick_y,
        f.right_stick_x,
        f.right_stick_y,
        f.left_trigger,
        f.right_trigger,
        f.buttons,
    ]
}

/// The pilot command that a wire record of the right size holds.
pub open spec fn flight_input_of(b: Seq<u8>) -> FlightInput {
    FlightInput {
        left_stick_x: b[0],
        left_stick_y: b[1],
        right_stick_x: b[2],
        right_stick_y: b[3],
        left_trigger: b[4],
        right_trigger: b[5],
        buttons: b[6],
    }
}

/// The wire record of a vehicle status.
pub open spec fn drone_status_bytes(d: DroneStatus) -> Seq<u8> {
    seq![d.battery_level, d.altitude, d.temp]
}

/// The vehicle status that a wire record of the right size holds.
pub open spec fn drone_status_of(b: Seq<u8>) -> DroneStatus {
    DroneStatus { battery_level: b[0], altitude: b[1], temp: b[2] }
}

impl FlightInput {
    /// Serialises the command into its fixed-width wire record.
    pub fn as_bytes(&self) -> (r: Vec<u8>)
        ensures
            r@ == flight_input_bytes(*self),
            r@.len() == FLIGHT_INPUT_SIZE,
    {
        let r = vec![
            self.left_stick_x,
            self.left_stick_y,
            self.right_stick_x,
            self.right_stick_y,
            self.left_trigger,
            self.right_trigger,
            self.buttons,
        ];
        proof {
            assert(r@ =~= flight_input_bytes(*self));
        }
        r
    }

    /// Reads a command from a wire record; a record of any other size than
    /// `FLIGHT_INPUT_SIZE` is rejected without being read.
    pub fn read_from_bytes(bytes: &[u8]) -> (r: Option<FlightInput>)
        ensures
            r == (if bytes@.len() == FLIGHT_INPUT_SIZE {
                Some(flight_input_of(bytes@))
            } else {
                None::<FlightInput>
            }),
    {
        if bytes.len() != FLIGHT_INPUT_SIZE {
            return None;
        }
        Some(
            FlightInput {
                left_stick_x: bytes[0],
                left_stick_y: bytes[1],
                right_stick_x: bytes[2],
                right_stick_y: bytes[3],
                left_trigger: bytes[4],
                right_trigger: bytes[5],
                buttons: bytes[6],
            },
        )
    }
}

impl DroneStatus {
    /// Serialises the status into its fixed-width wire record.
    pub fn as_bytes(&self) -> (r: Vec<u8>)
        ensures
            r@ == drone_status_bytes(*self),
            r@.len() == DRONE_STATUS_SIZE,
    {
        let r = vec![self.battery_level, self.altitude, self.temp];
        proof {
            assert(r@ =~= drone_status_bytes(*self));
        }
        r
    }

    /// Reads a status from a wire record; a record of any other size than
    /// `DRONE_STATUS_SIZE` is rejected without being read.
    pub fn read_from_bytes(bytes: &[u8]) -> (r: Option<DroneStatus>)
        ensures
            r == (if bytes@.len() == DRONE_STATUS_SIZE {
                Some(drone_status_of(bytes@))
            } else {
                None::<DroneStatus>
            }),
    {
        if bytes.len() != DRONE_STATUS_SIZE {
            return None;
        }
        Some(DroneStatus { battery_level: bytes[0], altitude: bytes[1], temp: bytes[2] })
    }
}

/// Decoding the wire record of a command gives back the command.
pub proof fn lemma_flight_input_round_trip(f: FlightInput)
    ensures
        flight_input_bytes(f).len() == FLIGHT_INPUT_SIZE,
        flight_input_of(flight_input_bytes(f)) == f,
{
}

/// Decoding the wire record of a status gives back the status.
pub proof fn lemma_drone_status_round_trip(d: DroneStatus)
    ensures
        drone_status_bytes(d).len() == DRONE_STATUS_SIZE,
        drone_status_of(drone_status_bytes(d)) == d,
{
}

} // verus!
