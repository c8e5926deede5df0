//! What the terminal display shows for a reading, and which keys end it.
//!
//! The caller draws and reads the keyboard. What is drawn, short of the
//! decimal fractions of the voltages, is worked out here.

use crate::ups_data::{on_battery, UpsData};
use vstd::prelude::*;

verus! {

/// The width of the charge bar in characters.
pub const BAR_WIDTH: usize = 30;

/// A colour of the display.
#[derive(Clone, Copy, Debug, PartialEq, Eq, Structural)]
pub enum Colour {
    Red,
    Yellow,
    Green,
}

/// What the display shows for one reading.
#[derive(Clone, Copy, Debug)]
pub struct MonitorView {
    /// Whether the host runs from the battery.
    pub on_battery: bool,
    /// `BATTERY` or `GRID`.
    pub power_label: &'static str,
    pub power_colour: Colour,
    /// The note after the percentage, with its leading space, or nothing.
    pub charging_status: &'static str,
    /// How many characters of the bar are filled.
    pub bar_filled: usize,
    /// How many characters of the bar are empty.
    pub bar_empty: usize,
    pub bar_colour: Colour,
    /// `OK` or `NO`.
    pub power_good_label: &'static str,
    pub power_good_colour: Colour,
}

/// The code of a key.
#[derive(Clone, Copy, Debug, PartialEq, Eq, Structural)]
pub enum KeyCode {
    Char(char),
    Esc,
    Other,
}

/// A key that was pressed.
#[derive(Clone, Copy, Debug, PartialEq, Eq, Structural)]
pub struct KeyPress {
    pub code: KeyCode,
    /// Whether it was pressed alone, with no modifier key.
    pub plain: bool,
}

/// What a key does to the display.
#[derive(Clone, Copy, Debug, PartialEq, Eq, Structural)]
pub enum KeyDecision {
    /// The display ends.
    Quit,
    /// The display ends if the next key confirms.
    AwaitConfirmation,
    /// Nothing.
    Ignore,
}

/// The word for the power source.
pub open spec fn power_label(on_battery: bool) -> Seq<char> {
    if on_battery {
        "BATTERY"@
    } else {
        "GRID"@
    }
}

/// The note on charging: the charging state decides where it says charging
/// or complete, else the sign of the battery current.
pub open spec fn charging_note(cs: u8, ba: i32) -> Seq<char> {
    if cs == 2 {
        " [CHARGING]"@
    } else if cs == 3 {
        " [FULL]"@
    } else if ba > 0 {
        " [CHARGING]"@
    } else if ba < 0 {
        " [DISCHARGING]"@
    } else {
        ""@
    }
}

/// How many of the `BAR_WIDTH` characters of the bar are filled at a charge
/// of `soc` percent. A charge above 100 fills the bar.
pub open spec fn bar_fill(soc: u8) -> int {
    if soc >= 100 {
        BAR_WIDTH as int
    } else {
        soc * BAR_WIDTH / 100
    }
}

/// The colour of the bar: red up to 20 percent, yellow up to 50, green above.
pub open spec fn bar_colour(soc: u8) -> Colour {
    if soc <= 20 {
        Colour::Red
    } else if soc <= 50 {
        Colour::Yellow
    } else {
        Colour::Green
    }
}

/// Whether `view` is what the display shows for `ups`.
pub open spec fn shows(
    view: MonitorView,
    ups: UpsData,
    min_valid_voltage: u32,
    max_valid_voltage: u32,
) -> bool {
    &&& view.on_battery == on_battery(ups.vi, min_valid_voltage, max_valid_voltage)
    &&& view.power_label@ == power_label(view.on_battery)
    &&& view.power_colour == if view.on_battery {
        Colour::Yellow
    } else {
        Colour::Green
    }
    &&& view.charging_status@ == charging_note(ups.cs, ups.ba)
    &&& view.bar_filled == bar_fill(ups.soc)
    &&& view.bar_empty == BAR_WIDTH - bar_fill(ups.soc)
    &&& view.bar_colour == bar_colour(ups.soc)
    &&& view.power_good_label@ == if ups.pg == 1 {
        "OK"@
    } else {
        "NO"@
    }
    &&& view.power_good_colour == if ups.pg == 1 {
        Colour::Green
    } else {
        Colour::Red
    }
}

/// What a key does: `q`, `Q` and escape end the display, `c` asks for a
/// confirmation, any other key does nothing.
pub open spec fn decision_of(key: KeyPress) -> KeyDecision {
    match key.code {
        KeyCode::Char(c) => if c == 'q' || c == 'Q' {
            KeyDecision::Quit
        } else if c == 'c' {
            KeyDecision::AwaitConfirmation
        } else {
            KeyDecision::Ignore
        },
        KeyCode::Esc => KeyDecision::Quit,
        KeyCode::Other => KeyDecision::Ignore,
    }
}

/// Works out what the display shows for a reading.
pub fn monitor_view(ups: &UpsData, min_valid_voltage: u32, max_valid_voltage: u32) -> (view:
    MonitorView)
    ensures
        shows(view, *ups, min_valid_voltage, max_valid_voltage),
        view.bar_filled + view.bar_empty == BAR_WIDTH,
{
    let on_battery = ups.is_on_battery(min_valid_voltage, max_valid_voltage);
    let charging_status = if ups.cs == 2 {
        " [CHARGING]"
    } else if ups.cs == 3 {
        " [FULL]"
    } else if ups.ba > 0 {
        " [CHARGING]"
    } else if ups.ba < 0 {
        " [DISCHARGING]"
    } else {
        ""
    };
    let filled: usize = if ups.soc >= 100 {
        BAR_WIDTH
    } else {
        (ups.soc as usize) * BAR_WIDTH / 100
    };
    let bar_colour = if ups.soc <= 20 {
        Colour::Red
    } else if ups.soc <= 50 {
        Colour::Yellow
    } else {
        Colour::Green
    };
    MonitorView {
        on_battery,
        power_label: if on_battery {
            "BATTERY"
        } else {
            "GRID"
        },
        power_colour: if on_battery {
            Colour::Yellow
        } else {
            Colour::Green
        },
        charging_status,
        bar_filled: filled,
        bar_empty: BAR_WIDTH - filled,
        bar_colour,
        power_good_label: if ups.pg == 1 {
            "OK"
        } else {
            "NO"
        },
        power_good_colour: if ups.pg == 1 {
            Colour::Green
        } else {
            Colour::Red
        },
    }
}

/// Decides what a key does to the display.
pub fn key_decision(key: &KeyPress) -> (decision: KeyDecision)
    ensures
        decision == decision_of(*key),
{
    match key.code {
        KeyCode::Char(c) => if c == 'q' || c == 'Q' {
            KeyDecision::Quit
        } else if c == 'c' {
            KeyDecision::AwaitConfirmation
        } else {
            KeyDecision::Ignore
        },
        KeyCode::Esc => KeyDecision::Quit,
        KeyCode::Other => KeyDecision::Ignore,
    }
}

/// Tells whether the key after a `c` confirms the end of the display: it
/// does if it is a `c` pressed alone.
pub fn confirms_quit(next: &KeyPress) -> (b: bool)
    ensures
        b == (next.code == KeyCode::Char('c') && next.plain),
{
    match next.code {
        KeyCode::Char(c) => c == 'c' && next.plain,
        _ => false,
    }
}

} // verus!
