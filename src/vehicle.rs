use vstd::prelude::*;
use crate::wire::DroneStatus;

verus! {

/// Charge of the vehicle battery in percent.
#[derive(Clone, Copy, Debug, PartialEq, Eq, Structural)]
pub struct BatteryLevel(pub u8);

/// Health of the vehicle battery, from its voltage.
#[derive(Clone, Copy, Debug, PartialEq, Eq, Structural)]
pub enum BatteryStatus {
    Normal,
    Low,
    Critical,
    Cutoff,
}

impl Default for BatteryStatus {
    /// A battery not yet measured counts as critical.
    fn default() -> (r: Self)
        ensures
            r == BatteryStatus::Critical,
    {
        BatteryStatus::Critical
    }
}

/// How raw samples of the battery's voltage divider map to a voltage, a
/// charge and a health status.
#[derive(Clone, Copy, Debug, PartialEq, Eq, Structural)]
pub struct BatteryCalibration {
    /// The largest raw sample of the converter.
    pub adc_max: u32,
    /// The converter's reference voltage, in millivolts.
    pub vdda_mv: u32,
    /// Upper resistor of the divider, in ohms.
    pub r_top: u32,
    /// Lower resistor of the divider, in ohms.
    pub r_bot: u32,
    /// At or below this voltage the battery must not be drawn on.
    pub cutoff_mv: u32,
    /// At or below this voltage the battery is critical.
    pub critical_mv: u32,
    /// At or below this voltage the battery is low.
    pub low_mv: u32,
    /// The voltage of a full battery.
    pub max_mv: u32,
}

impl BatteryCalibration {
    pub open spec fn valid(self) -> bool {
        &&& self.adc_max > 0
        &&& self.r_bot > 0
        &&& self.cutoff_mv < self.max_mv
    }

    /// The battery voltage that a raw sample stands for, and never below the cutoff.
    pub open spec fn millivolts_of(self, raw: u16) -> int {
        let pin_mv = (raw as int * self.vdda_mv as int) / self.adc_max as int;
        let battery_mv = (pin_mv * (self.r_top as int + self.r_bot as int)) / self.r_bot as int;
        if battery_mv < self.cutoff_mv {
            self.cutoff_mv as int
        } else {
            battery_mv
        }
    }

    /// The charge in percent at `mv`: the share of the range from cutoff to
    /// full, rounded up, and kept within 0 to 100.
    pub open spec fn percent_of(self, mv: int) -> int {
        if mv <= self.cutoff_mv {
            0
        } else if mv >= self.max_mv {
            100
        } else {
            let range = self.max_mv - self.cutoff_mv;
            ((mv - self.cutoff_mv) * 100 + range - 1) / range
        }
    }

    /// The health status at `mv`.
    pub open spec fn status_of(self, mv: int) -> BatteryStatus {
        if mv <= self.cutoff_mv {
            BatteryStatus::Cutoff
        } else if mv <= self.critical_mv {
            BatteryStatus::Critical
        } else if mv <= self.low_mv {
            BatteryStatus::Low
        } else {
            BatteryStatus::Normal
        }
    }

    /// A 2-cell lithium-polymer pack behind a 20k/10k divider, sampled by a
    /// 12-bit converter at 3.3 V.
    pub fn two_cell_lipo() -> (r: Self)
        ensures
            r.valid(),
            r.adc_max == 4095 && r.vdda_mv == 3300 && r.r_top == 20_000 && r.r_bot == 10_000,
            r.cutoff_mv == 7_000 && r.critical_mv == 7_300 && r.low_mv == 7_500 && r.max_mv
                == 8_400,
    {
        BatteryCalibration {
            adc_max: 4095,
            vdda_mv: 3300,
            r_top: 20_000,
            r_bot: 10_000,
            cutoff_mv: 7_000,
            critical_mv: 7_300,
            low_mv: 7_500,
            max_mv: 8_400,
        }
    }

    /// The battery voltage in millivolts that a raw sample stands for.
    pub fn battery_millivolts(&self, raw: u16) -> (r: u128)
        requires
            self.valid(),
        ensures
            r as int == self.millivolts_of(raw),
    {
        proof {
            lemma_mul_bounded(raw as int, self.vdda_mv as int, 0xFFFF, 0xFFFF_FFFF);
        }
        let product: u128 = raw as u128 * self.vdda_mv as u128;
        let pin_mv: u128 = product / self.adc_max as u128;
        proof {
            assert(pin_mv <= product) by (nonlinear_arith)
                requires
                    pin_mv == product / self.adc_max as u128,
                    self.adc_max > 0,
            ;
            lemma_mul_bounded(
                pin_mv as int,
                self.r_top as int + self.r_bot as int,
                0xFFFF_FFFE_FFFF_0001int,
                0x1_FFFF_FFFEint,
            );
        }
        let battery_mv: u128 = (pin_mv * (self.r_top as u128 + self.r_bot as u128)) / self.r_bot as u128;
        if battery_mv < self.cutoff_mv as u128 {
            self.cutoff_mv as u128
        } else {
            battery_mv
        }
    }

    /// The charge of the battery at `mv` millivolts.
    pub fn battery_level(&self, mv: u128) -> (r: BatteryLevel)
        requires
            self.valid(),
        ensures
            r.0 as int == self.percent_of(mv as int),
            r.0 <= 100,
    {
        if mv <= self.cutoff_mv as u128 {
            return BatteryLevel(0);
        }
        if mv >= self.max_mv as u128 {
            return BatteryLevel(100);
        }
        let range: u128 = (self.max_mv - self.cutoff_mv) as u128;
        let above: u128 = mv - self.cutoff_mv as u128;
        proof {
            let a = above as int;
            let g = range as int;
            assert((a * 100 + g - 1) / g <= 100) by (nonlinear_arith)
                requires
                    0 < a < g,
            {
                assert(a * 100 + g - 1 < 101 * g) by (nonlinear_arith)
                    requires a < g;
            }
        }
        BatteryLevel(((above * 100 + range - 1) / range) as u8)
    }

    /// The health status of the battery at `mv` millivolts.
    pub fn battery_status(&self, mv: u128) -> (r: BatteryStatus)
        ensures
            r == self.status_of(mv as int),
    {
        if mv <= self.cutoff_mv as u128 {
            BatteryStatus::Cutoff
        } else if mv <= self.critical_mv as u128 {
            BatteryStatus::Critical
        } else if mv <= self.low_mv as u128 {
            BatteryStatus::Low
        } else {
            BatteryStatus::Normal
        }
    }
}

proof fn lemma_mul_bounded(a: int, b: int, x: int, y: int)
    requires
        0 <= a <= x,
        0 <= b <= y,
    ensures
        a * b <= x * y,
{
    assert(a * b <= x * y) by (nonlinear_arith)
        requires
            0 <= a <= x,
            0 <= b <= y,
    ;
}

/// Why the battery check at power-on failed.
#[derive(Clone, Copy, Debug, PartialEq, Eq, Structural)]
pub enum SelfTestError {
    /// No battery status was published in time.
    Timeout,
    /// The battery is critical.
    Critical,
}

/// The battery check at power-on, on the first status published, or `None`
/// if none came in time. Only a missing status or a critical battery fail it.
pub fn battery_power_on_self_test(status: Option<BatteryStatus>) -> (r: Result<(), SelfTestError>)
    ensures
        r == (match status {
            None => Err(SelfTestError::Timeout),
            Some(BatteryStatus::Critical) => Err(SelfTestError::Critical),
            Some(_) => Ok(()),
        }),
{
    match status {
        None => Err(SelfTestError::Timeout),
        Some(BatteryStatus::Critical) => Err(SelfTestError::Critical),
        Some(_) => Ok(()),
    }
}

/// The converter's reference voltage in millivolts, from its factory
/// calibration: the reference reads `vref_cal` at `vref_calib_mv` and reads
/// `vref_raw` now.
pub fn calibrated_vdda(vref_calib_mv: u32, vref_cal: u16, vref_raw: u16) -> (r: u64)
    requires
        vref_raw > 0,
    ensures
        r as int == (vref_calib_mv as int * vref_cal as int) / vref_raw as int,
{
    proof {
        lemma_mul_bounded(vref_calib_mv as int, vref_cal as int, 0xFFFF_FFFF, 0xFFFF);
    }
    (vref_calib_mv as u64 * vref_cal as u64) / vref_raw as u64
}

/// The status record that the vehicle returns with each acknowledgement:
/// its battery level and its altitude in quarter-meter steps (kept to the
/// low 8 bits), with no temperature.
pub fn vehicle_status(battery: &BatteryLevel, altitude_cm: u32) -> (r: DroneStatus)
    ensures
        r == (DroneStatus {
            battery_level: battery.0,
            altitude: (altitude_cm / 25) as u8,
            temp: 0,
        }),
{
    DroneStatus { battery_level: battery.0, altitude: (altitude_cm / 25) as u8, temp: 0 }
}

} // verus!
