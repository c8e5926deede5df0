//! The settings that the daemon runs with, and their defaults.

use crate::text::{ascii_lower, same_text, same_text_ignoring_ascii_case};
use vstd::prelude::*;

verus! {

/// Where the settings are looked for when no path is given.
pub const DEFAULT_CONFIG_PATH: &'static str = "/etc/w3p-ups/config.toml";

/// Where observers find the telemetry stream when no path is given.
pub const DEFAULT_SOCKET_PATH: &'static str = "/var/run/w3p-ups/ups.sock";

/// The port name that asks for the unit to be looked for among the serial
/// devices.
pub const AUTO_PORT: &'static str = "auto";

/// The settings of the daemon.
#[derive(Clone, Debug)]
pub struct Config {
    pub serial: SerialConfig,
    pub battery: BatteryConfig,
    pub shutdown: ShutdownConfig,
    pub logging: LoggingConfig,
    pub ipc: IpcConfig,
}

/// The serial link to the unit.
#[derive(Clone, Debug)]
pub struct SerialConfig {
    /// A device path, or `auto`.
    pub port: String,
    pub baud_rate: u32,
}

/// When the battery counts as low and the supply as lost.
#[derive(Clone, Copy, Debug, PartialEq, Eq, Structural)]
pub struct BatteryConfig {
    /// A countdown starts under this decision charge, in percent.
    pub shutdown_threshold: u8,
    /// A running countdown is called off once the decision charge has
    /// recovered to the threshold plus this margin.
    pub shutdown_cancel_margin: u8,
    /// Lowest input voltage (mV) of a working supply.
    pub min_valid_voltage: u32,
    /// Highest input voltage (mV) of a working supply.
    pub max_valid_voltage: u32,
}

/// How the host is shut down.
#[derive(Clone, Debug)]
pub struct ShutdownConfig {
    pub script_path: String,
    /// Seconds a countdown runs before the host is shut down.
    pub delay_seconds: u64,
}

/// Where and how much is logged.
#[derive(Clone, Debug)]
pub struct LoggingConfig {
    pub level: String,
    pub file_path: Option<String>,
}

/// Where observers find the telemetry stream.
#[derive(Clone, Debug)]
pub struct IpcConfig {
    pub socket_path: String,
}

/// How much is logged.
#[derive(Clone, Copy, Debug, PartialEq, Eq, Structural)]
pub enum LogLevel {
    Trace,
    Debug,
    Info,
    Warn,
    Error,
}

/// The level that a name stands for, whatever the case of its letters; a name
/// that is none of the five stands for `Info`.
pub open spec fn log_level_of(name: Seq<char>) -> LogLevel {
    let lower = ascii_lower(name);
    if lower == ascii_lower("trace"@) {
        LogLevel::Trace
    } else if lower == ascii_lower("debug"@) {
        LogLevel::Debug
    } else if lower == ascii_lower("info"@) {
        LogLevel::Info
    } else if lower == ascii_lower("warn"@) {
        LogLevel::Warn
    } else if lower == ascii_lower("error"@) {
        LogLevel::Error
    } else {
        LogLevel::Info
    }
}

/// The margin used when the settings name none.
pub fn default_cancel_margin() -> (margin: u8)
    ensures
        margin == 5,
{
    5
}

/// The level that `level` names, whatever the case of its letters; `Info`
/// where it names none.
pub fn parse_log_level(level: &str) -> (parsed: LogLevel)
    ensures
        parsed == log_level_of(level@),
{
    if same_text_ignoring_ascii_case(level, "trace") {
        LogLevel::Trace
    } else if same_text_ignoring_ascii_case(level, "debug") {
        LogLevel::Debug
    } else if same_text_ignoring_ascii_case(level, "info") {
        LogLevel::Info
    } else if same_text_ignoring_ascii_case(level, "warn") {
        LogLevel::Warn
    } else if same_text_ignoring_ascii_case(level, "error") {
        LogLevel::Error
    } else {
        LogLevel::Info
    }
}

impl SerialConfig {
    /// Tells whether the unit is to be looked for among the serial devices.
    pub fn is_auto(&self) -> (b: bool)
        ensures
            b == (self.port@ == AUTO_PORT@),
    {
        same_text(self.port.as_str(), AUTO_PORT)
    }
}

impl LoggingConfig {
    /// The level that these settings name.
    pub fn level_filter(&self) -> (parsed: LogLevel)
        ensures
            parsed == log_level_of(self.level@),
    {
        parse_log_level(self.level.as_str())
    }

    /// The file to log to: the configured path unless it is empty.
    pub fn log_file(&self) -> (file: Option<&String>)
        ensures
            file == match self.file_path {
                Some(path) => if path@.len() == 0 {
                    None
                } else {
                    Some(&path)
                },
                None => None,
            },
    {
        match &self.file_path {
            Some(path) => if path.as_str().is_empty() {
                None
            } else {
                Some(path)
            },
            None => None,
        }
    }
}

impl Default for IpcConfig {
    fn default() -> (c: IpcConfig)
        ensures
            c.socket_path@ == DEFAULT_SOCKET_PATH@,
    {
        IpcConfig { socket_path: DEFAULT_SOCKET_PATH.to_owned() }
    }
}

impl Default for BatteryConfig {
    fn default() -> (c: BatteryConfig)
        ensures
            c == (BatteryConfig {
                shutdown_threshold: 10,
                shutdown_cancel_margin: 5,
                min_valid_voltage: 8000,
                max_valid_voltage: 26000,
            }),
    {
        BatteryConfig {
            shutdown_threshold: 10,
            shutdown_cancel_margin: default_cancel_margin(),
            min_valid_voltage: 8000,
            max_valid_voltage: 26000,
        }
    }
}

impl Default for Config {
    fn default() -> (c: Config)
        ensures
            c.serial.port@ == AUTO_PORT@,
            c.serial.baud_rate == 115200,
            c.battery == (BatteryConfig {
                shutdown_threshold: 10,
                shutdown_cancel_margin: 5,
                min_valid_voltage: 8000,
                max_valid_voltage: 26000,
            }),
            c.shutdown.script_path@ == "/etc/w3p-ups/shutdown.sh"@,
            c.shutdown.delay_seconds == 30,
            c.logging.level@ == "info"@,
            c.logging.file_path is None,
            c.ipc.socket_path@ == DEFAULT_SOCKET_PATH@,
    {
        Config {
            serial: SerialConfig { port: AUTO_PORT.to_owned(), baud_rate: 115200 },
            battery: BatteryConfig::default(),
            shutdown: ShutdownConfig {
                script_path: "/etc/w3p-ups/shutdown.sh".to_owned(),
                delay_seconds: 30,
            },
            logging: LoggingConfig { level: "info".to_owned(), file_path: None },
            ipc: IpcConfig::default(),
        }
    }
}

} // verus!
