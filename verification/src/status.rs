//! The one-shot status report.
//!
//! The caller fetches one line from the daemon and prints. What the report
//! says is worked out here.

use crate::config::Config;
use crate::ups_data::{charging_label, charging_state_of, on_battery, UpsData};
use crate::wire::{decode, decoded_line, ParseError};
use vstd::prelude::*;

verus! {

/// What the status report says.
#[derive(Clone, Copy, Debug)]
pub struct StatusReport {
    /// State of charge in percent.
    pub soc: u8,
    /// Battery voltage in mV.
    pub battery_millivolts: u32,
    /// Battery current in mA.
    pub battery_milliamps: i32,
    /// The charging state in words.
    pub charging: &'static str,
    /// `Battery` or `Grid/USB-C`.
    pub power_source: &'static str,
    /// Input voltage in mV.
    pub input_millivolts: u32,
    /// `Yes` or `No`.
    pub power_good: &'static str,
    /// Temperature in tenths of a degree Celsius.
    pub temperature_tenths: u32,
    /// Uptime in seconds.
    pub uptime_seconds: u32,
}

/// The words for the power source.
pub open spec fn power_source_label(on_battery: bool) -> Seq<char> {
    if on_battery {
        "Battery"@
    } else {
        "Grid/USB-C"@
    }
}

/// Whether `report` is the report on `ups`.
pub open spec fn reports(
    report: StatusReport,
    ups: UpsData,
    min_valid_voltage: u32,
    max_valid_voltage: u32,
) -> bool {
    &&& report.soc == ups.soc
    &&& report.battery_millivolts == ups.bv
    &&& report.battery_milliamps == ups.ba
    &&& report.charging@ == charging_label(charging_state_of(ups.cs))
    &&& report.power_source@ == power_source_label(
        on_battery(ups.vi, min_valid_voltage, max_valid_voltage),
    )
    &&& report.input_millivolts == ups.vi
    &&& report.power_good@ == if ups.pg == 1 {
        "Yes"@
    } else {
        "No"@
    }
    &&& report.temperature_tenths == ups.t
    &&& report.uptime_seconds == ups.up
}

/// Works out the report on a reading.
pub fn status_report(ups: &UpsData, min_valid_voltage: u32, max_valid_voltage: u32) -> (report:
    StatusReport)
    ensures
        reports(report, *ups, min_valid_voltage, max_valid_voltage),
{
    StatusReport {
        soc: ups.soc,
        battery_millivolts: ups.bv,
        battery_milliamps: ups.ba,
        charging: ups.charging_state_str(),
        power_source: if ups.is_on_battery(min_valid_voltage, max_valid_voltage) {
            "Battery"
        } else {
            "Grid/USB-C"
        },
        input_millivolts: ups.vi,
        power_good: if ups.pg == 1 {
            "Yes"
        } else {
            "No"
        },
        temperature_tenths: ups.t,
        uptime_seconds: ups.up,
    }
}

/// Works out the status report from one line of the telemetry stream, or
/// says why the line holds no reading.
pub fn run_status(config: &Config, line: &str) -> (r: Result<StatusReport, ParseError>)
    ensures
        match r {
            Ok(report) => decoded_line(line@) matches Ok(ups) && reports(
                report,
                ups,
                config.battery.min_valid_voltage,
                config.battery.max_valid_voltage,
            ),
            Err(reason) => decoded_line(line@) == Err::<UpsData, ParseError>(reason),
        },
{
    match decode(line) {
        Ok(ups) => Ok(
            status_report(
                &ups,
                config.battery.min_valid_voltage,
                config.battery.max_valid_voltage,
            ),
        ),
        Err(reason) => Err(reason),
    }
}

} // verus!
