use vstd::prelude::*;

verus! {

/// The voltage at or below which the battery counts as low.
pub const LOW_VOLTAGE: u16 = 2700;

/// The voltage at or above which the battery counts as fully charged.
pub const MAX_VOLTAGE: u16 = 3100;

/// The step to which a raw ADC voltage reading is rounded down.
pub const ROUND_UP: u16 = 50;

/// What is known of the battery: its voltage and whether external power is present.
#[derive(Copy, Clone, Debug, PartialEq, Eq, Structural)]
pub struct BatteryState {
    pub voltage: Option<u16>,
    pub powered: Option<bool>,
}

/// The voltage clamped into `[LOW_VOLTAGE, MAX_VOLTAGE]`.
pub open spec fn clamped_voltage(voltage: u16) -> int {
    if voltage < LOW_VOLTAGE {
        LOW_VOLTAGE as int
    } else if voltage > MAX_VOLTAGE {
        MAX_VOLTAGE as int
    } else {
        voltage as int
    }
}

/// The charge, in percent, that a voltage stands for: linear between
/// `LOW_VOLTAGE` (0%) and `MAX_VOLTAGE` (100%), rounded down.
pub open spec fn charge_percentage(voltage: u16) -> int {
    (clamped_voltage(voltage) - LOW_VOLTAGE) * 100 / ((MAX_VOLTAGE - LOW_VOLTAGE) as int)
}

impl BatteryState {
    /// The state in which nothing is known yet.
    pub fn new() -> (s: Self)
        ensures
            s.voltage is None,
            s.powered is None,
    {
        BatteryState { voltage: None, powered: None }
    }

    /// The charge in percent, where the voltage is known.
    pub fn percentage(&self) -> (p: Option<u8>)
        ensures
            match self.voltage {
                Some(v) => p == Some(charge_percentage(v) as u8),
                None => p is None,
            },
            p matches Some(x) ==> x <= 100,
    {
        match self.voltage {
            Some(voltage) => {
                let v = if voltage < LOW_VOLTAGE {
                    LOW_VOLTAGE
                } else if voltage > MAX_VOLTAGE {
                    MAX_VOLTAGE
                } else {
                    voltage
                };
                let p = (v - LOW_VOLTAGE) * 100 / (MAX_VOLTAGE - LOW_VOLTAGE);
                Some(p as u8)
            },
            None => None,
        }
    }

    /// Whether the battery is low and nothing else powers the device: the
    /// condition on which the valve is closed to be safe.
    pub fn is_low_and_unpowered(&self) -> (b: bool)
        ensures
            b == ((self.voltage matches Some(v) && v <= LOW_VOLTAGE) && !(self.powered
                == Some(true))),
    {
        let battery_low = match self.voltage {
            Some(voltage) => voltage <= LOW_VOLTAGE,
            None => false,
        };
        let powered = match self.powered {
            Some(p) => p,
            None => false,
        };
        battery_low && !powered
    }
}

impl Default for BatteryState {
    fn default() -> (s: Self)
        ensures
            s.voltage is None,
            s.powered is None,
    {
        BatteryState::new()
    }
}

/// A raw voltage reading rounded down to a multiple of `ROUND_UP`.
pub fn round_voltage(raw: u16) -> (v: u16)
    ensures
        v == raw / ROUND_UP * ROUND_UP,
        v <= raw,
        v % ROUND_UP == 0,
        raw - v < ROUND_UP,
{
    raw / ROUND_UP * ROUND_UP
}

/// The battery state sampled from one ADC reading (absent where the read
/// failed) and one reading of the power pin (absent where it failed, which
/// counts as unpowered).
pub fn sample(adc_reading: Option<u16>, power_pin_high: Option<bool>) -> (s: BatteryState)
    ensures
        s.voltage == (match adc_reading {
            Some(raw) => Some((raw / ROUND_UP * ROUND_UP) as u16),
            None => None,
        }),
        s.powered == Some(power_pin_high == Some(true)),
{
    let voltage = match adc_reading {
        Some(raw) => Some(round_voltage(raw)),
        None => None,
    };
    let powered = match power_pin_high {
        Some(high) => high,
        None => false,
    };
    BatteryState { voltage, powered: Some(powered) }
}

/// Law: the charge is a percentage that never drops as the voltage rises;
/// it is 0 at and below `LOW_VOLTAGE` and 100 at and above `MAX_VOLTAGE`.
pub proof fn law_percentage_monotone(v1: u16, v2: u16)
    ensures
        0 <= charge_percentage(v1) <= 100,
        v1 <= v2 ==> charge_percentage(v1) <= charge_percentage(v2),
        v1 <= LOW_VOLTAGE ==> charge_percentage(v1) == 0,
        v1 >= MAX_VOLTAGE ==> charge_percentage(v1) == 100,
{
    let c1 = clamped_voltage(v1) - LOW_VOLTAGE;
    let c2 = clamped_voltage(v2) - LOW_VOLTAGE;
    assert(0 <= c1 * 100 / 400 <= 100) by (nonlinear_arith)
        requires
            0 <= c1 <= 400,
    ;
    if v1 <= v2 {
        assert(c1 * 100 / 400 <= c2 * 100 / 400) by (nonlinear_arith)
            requires
                0 <= c1 <= c2 <= 400,
        ;
    }
}

/// Law: between the thresholds the charge rises linearly from 0% at 2700 mV
/// to 100% at 3100 mV, rounded down, so it is below 100% under 3100 mV; below
/// 2700 mV it is 0% and above 3100 mV it is 100%.
pub proof fn law_percentage_linear(v: u16)
    ensures
        2700 <= v <= 3100 ==> charge_percentage(v) == (v - 2700) * 100 / 400,
        v < 3100 ==> charge_percentage(v) < 100,
        v < 2700 ==> charge_percentage(v) == 0,
        v > 3100 ==> charge_percentage(v) == 100,
{
    if v < 3100 {
        let c = clamped_voltage(v) - 2700;
        assert(c * 100 / 400 < 100) by (nonlinear_arith)
            requires
                0 <= c < 400,
        ;
    }
}

} // verus!
