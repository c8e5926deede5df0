//! One telemetry reading and the predicates derived from it.

use vstd::prelude::*;

verus! {

/// One decoded reading of the unit. Voltages are in mV, currents in mA, the
/// temperature in tenths of a degree Celsius, the uptime in seconds.
#[derive(Clone, Copy, Debug, PartialEq, Eq, Structural)]
pub struct UpsData {
    /// Uptime of the unit.
    pub up: u32,
    /// Power-delivery status.
    pub pd: u8,
    /// Power-delivery object in use.
    pub pdo: u8,
    /// State of the CC line.
    pub cc: u8,
    /// Temperature.
    pub t: u32,
    /// Source voltage.
    pub vs: u32,
    /// Source current.
    pub is: u32,
    /// Rail voltage.
    pub vr: u32,
    /// Rail current.
    pub ir: u32,
    /// State of charge shown to people, in percent.
    pub soc: u8,
    /// State of charge that the shutdown decision goes by, in percent.
    pub sd: u8,
    /// Battery voltage.
    pub bv: u32,
    /// Battery current, negative while the battery discharges.
    pub ba: i32,
    /// Charging state as the unit numbers it.
    pub cs: u8,
    /// Power-good flag, 1 when the supply is good.
    pub pg: u8,
    /// Input voltage.
    pub vi: u32,
    /// Input current.
    pub ii: u32,
    /// Charge current.
    pub ci: u32,
    /// Charge flag.
    pub cf: u8,
}

/// What the charger is doing.
#[derive(Clone, Copy, Debug, PartialEq, Eq, Structural)]
pub enum ChargingState {
    NotCharging,
    PreCharge,
    Charging,
    Complete,
    Unknown,
}

/// Whether an input voltage lies outside the valid supply range, which means
/// that the host runs from the battery.
pub open spec fn on_battery(vi: u32, min_valid_voltage: u32, max_valid_voltage: u32) -> bool {
    vi < min_valid_voltage || vi > max_valid_voltage
}

/// Whether a reading asks for a shutdown countdown: the decision charge is
/// under the threshold while the host runs from the battery.
pub open spec fn shutdown_trigger(
    sd: u8,
    vi: u32,
    shutdown_threshold: u8,
    min_valid_voltage: u32,
    max_valid_voltage: u32,
) -> bool {
    sd < shutdown_threshold && on_battery(vi, min_valid_voltage, max_valid_voltage)
}

/// The charging state that the number `cs` stands for.
pub open spec fn charging_state_of(cs: u8) -> ChargingState {
    if cs == 0 {
        ChargingState::NotCharging
    } else if cs == 1 {
        ChargingState::PreCharge
    } else if cs == 2 {
        ChargingState::Charging
    } else if cs == 3 {
        ChargingState::Complete
    } else {
        ChargingState::Unknown
    }
}

/// The words shown for a charging state.
pub open spec fn charging_label(state: ChargingState) -> Seq<char> {
    match state {
        ChargingState::NotCharging => "Not charging"@,
        ChargingState::PreCharge => "Pre-charge"@,
        ChargingState::Charging => "Charging"@,
        ChargingState::Complete => "Charge complete"@,
        ChargingState::Unknown => "Unknown"@,
    }
}

impl UpsData {
    /// Both percentages are at most 100.
    pub open spec fn well_formed(&self) -> bool {
        self.soc <= 100 && self.sd <= 100
    }

    /// Tells whether both percentages are at most 100.
    pub fn is_well_formed(&self) -> (b: bool)
        ensures
            b == self.well_formed(),
    {
        self.soc <= 100 && self.sd <= 100
    }

    /// A reading with every field zero.
    pub fn zeroed() -> (s: UpsData)
        ensures
            s == (UpsData {
                up: 0,
                pd: 0,
                pdo: 0,
                cc: 0,
                t: 0,
                vs: 0,
                is: 0,
                vr: 0,
                ir: 0,
                soc: 0,
                sd: 0,
                bv: 0,
                ba: 0,
                cs: 0,
                pg: 0,
                vi: 0,
                ii: 0,
                ci: 0,
                cf: 0,
            }),
            s.well_formed(),
    {
        UpsData {
            up: 0,
            pd: 0,
            pdo: 0,
            cc: 0,
            t: 0,
            vs: 0,
            is: 0,
            vr: 0,
            ir: 0,
            soc: 0,
            sd: 0,
            bv: 0,
            ba: 0,
            cs: 0,
            pg: 0,
            vi: 0,
            ii: 0,
            ci: 0,
            cf: 0,
        }
    }

    /// Tells whether the host runs from the battery: the input voltage is
    /// outside `min_valid_voltage ..= max_valid_voltage`.
    pub fn is_on_battery(&self, min_valid_voltage: u32, max_valid_voltage: u32) -> (b: bool)
        ensures
            b <==> self.vi < min_valid_voltage || self.vi > max_valid_voltage,
    {
        is_on_battery(self.vi, min_valid_voltage, max_valid_voltage)
    }

    /// The charging state that `cs` stands for; any number above 3 is
    /// `Unknown`.
    pub fn charging_state(&self) -> (state: ChargingState)
        ensures
            state == charging_state_of(self.cs),
    {
        match self.cs {
            0 => ChargingState::NotCharging,
            1 => ChargingState::PreCharge,
            2 => ChargingState::Charging,
            3 => ChargingState::Complete,
            _ => ChargingState::Unknown,
        }
    }

    /// The words shown for the charging state.
    pub fn charging_state_str(&self) -> (label: &'static str)
        ensures
            label@ == charging_label(charging_state_of(self.cs)),
    {
        match self.charging_state() {
            ChargingState::NotCharging => "Not charging",
            ChargingState::PreCharge => "Pre-charge",
            ChargingState::Charging => "Charging",
            ChargingState::Complete => "Charge complete",
            ChargingState::Unknown => "Unknown",
        }
    }
}

/// Tells whether the input voltage `vi` is outside
/// `min_valid_voltage ..= max_valid_voltage`.
pub fn is_on_battery(vi: u32, min_valid_voltage: u32, max_valid_voltage: u32) -> (b: bool)
    ensures
        b <==> vi < min_valid_voltage || vi > max_valid_voltage,
{
    vi < min_valid_voltage || vi > max_valid_voltage
}

/// Tells whether a reading asks for a shutdown countdown: its decision charge
/// `sd` is under `shutdown_threshold` and the host runs from the battery.
pub fn should_shutdown(
    ups_data: &UpsData,
    shutdown_threshold: u8,
    min_valid_voltage: u32,
    max_valid_voltage: u32,
) -> (b: bool)
    ensures
        b <==> ups_data.sd < shutdown_threshold && (ups_data.vi < min_valid_voltage || ups_data.vi
            > max_valid_voltage),
{
    let low_battery = ups_data.sd < shutdown_threshold;
    let on_battery = is_on_battery(ups_data.vi, min_valid_voltage, max_valid_voltage);
    low_battery && on_battery
}

} // verus!
