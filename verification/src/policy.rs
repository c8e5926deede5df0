//! The shutdown decision: when a countdown starts, when it is called off, and
//! when the host is shut down.
//!
//! The policy is a state machine. Each reading takes it from one state to the
//! next and yields one action. Time is a count of whole seconds on a clock
//! that does not run backwards.

use crate::config::BatteryConfig;
use crate::ups_data::{is_on_battery, on_battery, shutdown_trigger, UpsData};
use vstd::prelude::*;

verus! {

/// The state of the policy between two readings.
#[derive(Clone, Copy, Debug, PartialEq, Eq, Structural)]
pub enum PolicyState {
    /// No countdown runs.
    Idle,
    /// A countdown runs since the second `started_at`.
    Counting { started_at: u64 },
    /// The shutdown was ordered. Nothing follows.
    Terminal,
}

/// Why a countdown was called off.
#[derive(Clone, Copy, Debug, PartialEq, Eq, Structural)]
pub enum CancelReason {
    /// The input voltage is back in the valid range.
    PowerRestored,
    /// The decision charge reached the threshold plus the margin.
    BatteryRecovered,
}

/// What a reading made the policy do.
#[derive(Clone, Copy, Debug, PartialEq, Eq, Structural)]
pub enum PolicyAction {
    /// Nothing to do or to report.
    NoAction,
    /// A countdown began with this reading.
    CountdownStarted,
    /// The countdown goes on; so many seconds are left of it.
    CountdownRunning { remaining_seconds: u64 },
    /// The countdown was called off.
    CountdownCancelled { reason: CancelReason },
    /// The host is to be shut down now.
    Shutdown,
}

/// The outcome of one evaluation: the next state and the action.
#[derive(Clone, Copy, Debug, PartialEq, Eq, Structural)]
pub struct Evaluation {
    pub state: PolicyState,
    pub action: PolicyAction,
}

/// What the policy reads of one sample, and when it was read.
pub struct Reading {
    pub sd: u8,
    pub vi: u32,
    pub now: u64,
}

/// The decision charge from which a running countdown is called off: the
/// threshold plus the margin, and 255 where the sum is larger.
pub open spec fn cancel_threshold(battery: BatteryConfig) -> int {
    if battery.shutdown_threshold + battery.shutdown_cancel_margin > 255 {
        255
    } else {
        battery.shutdown_threshold + battery.shutdown_cancel_margin
    }
}

/// The whole seconds from `started_at` to `now`; none where `now` is the
/// earlier.
pub open spec fn elapsed_seconds(started_at: u64, now: u64) -> int {
    if now >= started_at {
        now - started_at
    } else {
        0
    }
}

/// Whether a reading calls a running countdown off: the supply is back, or the
/// decision charge has reached the cancel threshold.
pub open spec fn cancels(sd: u8, vi: u32, battery: BatteryConfig) -> bool {
    !on_battery(vi, battery.min_valid_voltage, battery.max_valid_voltage) || sd
        >= cancel_threshold(battery)
}

/// The reason given when a reading calls a countdown off. A restored supply
/// is named before a recovered battery.
pub open spec fn cancel_reason(vi: u32, battery: BatteryConfig) -> CancelReason {
    if !on_battery(vi, battery.min_valid_voltage, battery.max_valid_voltage) {
        CancelReason::PowerRestored
    } else {
        CancelReason::BatteryRecovered
    }
}

/// One step of the policy.
///
/// - Idle: a reading under the threshold on battery starts the countdown at
///   `now`; any other reading changes nothing.
/// - Counting, with `delay_seconds` or more elapsed: shutdown, and the policy
///   is terminal.
/// - Counting, with less elapsed: the countdown is called off if the reading
///   cancels it, else it goes on and the seconds left are reported.
/// - Terminal: nothing, ever.
pub open spec fn transition(
    state: PolicyState,
    sd: u8,
    vi: u32,
    battery: BatteryConfig,
    delay_seconds: u64,
    now: u64,
) -> Evaluation {
    match state {
        PolicyState::Idle => if shutdown_trigger(
            sd,
            vi,
            battery.shutdown_threshold,
            battery.min_valid_voltage,
            battery.max_valid_voltage,
        ) {
            Evaluation {
                state: PolicyState::Counting { started_at: now },
                action: PolicyAction::CountdownStarted,
            }
        } else {
            Evaluation { state: PolicyState::Idle, action: PolicyAction::NoAction }
        },
        PolicyState::Counting { started_at } => if elapsed_seconds(started_at, now)
            >= delay_seconds {
            Evaluation { state: PolicyState::Terminal, action: PolicyAction::Shutdown }
        } else if cancels(sd, vi, battery) {
            Evaluation {
                state: PolicyState::Idle,
                action: PolicyAction::CountdownCancelled { reason: cancel_reason(vi, battery) },
            }
        } else {
            Evaluation {
                state: PolicyState::Counting { started_at },
                action: PolicyAction::CountdownRunning {
                    remaining_seconds: (delay_seconds - elapsed_seconds(started_at, now)) as u64,
                },
            }
        },
        PolicyState::Terminal => Evaluation {
            state: PolicyState::Terminal,
            action: PolicyAction::NoAction,
        },
    }
}

/// The state that a run of readings leaves the policy in.
pub open spec fn state_after(
    state: PolicyState,
    battery: BatteryConfig,
    delay_seconds: u64,
    readings: Seq<Reading>,
) -> PolicyState
    decreases readings.len(),
{
    if readings.len() == 0 {
        state
    } else {
        let before = state_after(state, battery, delay_seconds, readings.drop_last());
        let last = readings.last();
        transition(before, last.sd, last.vi, battery, delay_seconds, last.now).state
    }
}

/// The action that the reading at index `i` of a run yields.
pub open spec fn action_at(
    state: PolicyState,
    battery: BatteryConfig,
    delay_seconds: u64,
    readings: Seq<Reading>,
    i: int,
) -> PolicyAction
    recommends
        0 <= i < readings.len(),
{
    let before = state_after(state, battery, delay_seconds, readings.take(i));
    transition(before, readings[i].sd, readings[i].vi, battery, delay_seconds, readings[i].now).action
}

/// How many readings of a run yield `Shutdown`.
pub open spec fn shutdown_count(
    state: PolicyState,
    battery: BatteryConfig,
    delay_seconds: u64,
    readings: Seq<Reading>,
) -> nat
    decreases readings.len(),
{
    if readings.len() == 0 {
        0
    } else {
        let earlier = shutdown_count(state, battery, delay_seconds, readings.drop_last());
        let fired = action_at(state, battery, delay_seconds, readings, readings.len() - 1)
            == PolicyAction::Shutdown;
        if fired {
            earlier + 1
        } else {
            earlier
        }
    }
}

impl PolicyState {
    /// The state that a policy begins in.
    pub fn new() -> (state: PolicyState)
        ensures
            state == PolicyState::Idle,
    {
        PolicyState::Idle
    }

    /// Tells whether the shutdown was ordered.
    pub fn is_terminal(&self) -> (b: bool)
        ensures
            b == (*self == PolicyState::Terminal),
    {
        match self {
            PolicyState::Terminal => true,
            _ => false,
        }
    }
}

/// The decision charge from which a running countdown is called off.
pub fn cancel_threshold_of(battery: &BatteryConfig) -> (threshold: u8)
    ensures
        threshold == cancel_threshold(*battery),
{
    battery.shutdown_threshold.saturating_add(battery.shutdown_cancel_margin)
}

/// Takes the policy one step: from `state`, with the reading `sample` taken
/// at the second `now`.
pub fn evaluate(
    state: PolicyState,
    sample: &UpsData,
    battery: &BatteryConfig,
    delay_seconds: u64,
    now: u64,
) -> (e: Evaluation)
    ensures
        e == transition(state, sample.sd, sample.vi, *battery, delay_seconds, now),
{
    let on_battery = is_on_battery(
        sample.vi,
        battery.min_valid_voltage,
        battery.max_valid_voltage,
    );
    match state {
        PolicyState::Idle => {
            if sample.sd < battery.shutdown_threshold && on_battery {
                Evaluation {
                    state: PolicyState::Counting { started_at: now },
                    action: PolicyAction::CountdownStarted,
                }
            } else {
                Evaluation { state: PolicyState::Idle, action: PolicyAction::NoAction }
            }
        },
        PolicyState::Counting { started_at } => {
            let elapsed: u64 = if now >= started_at {
                now - started_at
            } else {
                0
            };
            if elapsed >= delay_seconds {
                Evaluation { state: PolicyState::Terminal, action: PolicyAction::Shutdown }
            } else if !on_battery {
                Evaluation {
                    state: PolicyState::Idle,
                    action: PolicyAction::CountdownCancelled {
                        reason: CancelReason::PowerRestored,
                    },
                }
            } else if sample.sd >= cancel_threshold_of(battery) {
                Evaluation {
                    state: PolicyState::Idle,
                    action: PolicyAction::CountdownCancelled {
                        reason: CancelReason::BatteryRecovered,
                    },
                }
            } else {
                Evaluation {
                    state: PolicyState::Counting { started_at },
                    action: PolicyAction::CountdownRunning {
                        remaining_seconds: delay_seconds - elapsed,
                    },
                }
            }
        },
        PolicyState::Terminal => Evaluation {
            state: PolicyState::Terminal,
            action: PolicyAction::NoAction,
        },
    }
}

/// An idle policy that meets a reading under the threshold on battery is
/// counting after that very reading, from the time of the reading.
pub proof fn law_trigger_starts_countdown(
    sd: u8,
    vi: u32,
    battery: BatteryConfig,
    delay_seconds: u64,
    now: u64,
)
    requires
        sd < battery.shutdown_threshold,
        vi < battery.min_valid_voltage || vi > battery.max_valid_voltage,
    ensures
        transition(PolicyState::Idle, sd, vi, battery, delay_seconds, now) == (Evaluation {
            state: PolicyState::Counting { started_at: now },
            action: PolicyAction::CountdownStarted,
        }),
{
}

/// A countdown that has run for the delay or longer ends in a shutdown,
/// whatever the reading says, and leaves the policy terminal.
pub proof fn law_elapsed_countdown_shuts_down(
    started_at: u64,
    sd: u8,
    vi: u32,
    battery: BatteryConfig,
    delay_seconds: u64,
    now: u64,
)
    requires
        now - started_at >= delay_seconds,
    ensures
        transition(PolicyState::Counting { started_at }, sd, vi, battery, delay_seconds, now) == (
        Evaluation { state: PolicyState::Terminal, action: PolicyAction::Shutdown }),
{
}

/// A shutdown is ordered by a countdown that has run out and by nothing else,
/// and the policy is terminal exactly after a shutdown or when it was
/// terminal before.
pub proof fn law_shutdown_only_when_countdown_ran_out(
    state: PolicyState,
    sd: u8,
    vi: u32,
    battery: BatteryConfig,
    delay_seconds: u64,
    now: u64,
)
    ensures
        transition(state, sd, vi, battery, delay_seconds, now).action == PolicyAction::Shutdown
            <==> (state matches PolicyState::Counting { started_at } && elapsed_seconds(
            started_at,
            now,
        ) >= delay_seconds),
        transition(state, sd, vi, battery, delay_seconds, now).state == PolicyState::Terminal
            <==> (state == PolicyState::Terminal || transition(
            state,
            sd,
            vi,
            battery,
            delay_seconds,
            now,
        ).action == PolicyAction::Shutdown),
{
}

/// A running countdown that has not run out is called off if and only if the
/// supply is back or the decision charge has reached the threshold plus the
/// margin. In every other case it goes on from the same start.
pub proof fn law_countdown_cancels_iff(
    started_at: u64,
    sd: u8,
    vi: u32,
    battery: BatteryConfig,
    delay_seconds: u64,
    now: u64,
)
    requires
        elapsed_seconds(started_at, now) < delay_seconds,
    ensures
        ({
            let next = transition(
                PolicyState::Counting { started_at },
                sd,
                vi,
                battery,
                delay_seconds,
                now,
            );
            let called_off = !(vi < battery.min_valid_voltage || vi > battery.max_valid_voltage)
                || sd >= cancel_threshold(battery);
            &&& next.state == PolicyState::Idle <==> called_off
            &&& next.action is CountdownCancelled <==> called_off
            &&& !called_off ==> next.state == PolicyState::Counting { started_at }
        }),
{
}

/// A reading on battery whose decision charge lies from the threshold up to,
/// but not at, the threshold plus the margin does not start a countdown and
/// does not call a running one off.
pub proof fn law_band_neither_starts_nor_cancels(
    started_at: u64,
    sd: u8,
    vi: u32,
    battery: BatteryConfig,
    delay_seconds: u64,
    now: u64,
)
    requires
        vi < battery.min_valid_voltage || vi > battery.max_valid_voltage,
        battery.shutdown_threshold <= sd,
        sd < cancel_threshold(battery),
        elapsed_seconds(started_at, now) < delay_seconds,
    ensures
        transition(PolicyState::Idle, sd, vi, battery, delay_seconds, now).state
            == PolicyState::Idle,
        transition(
            PolicyState::Counting { started_at },
            sd,
            vi,
            battery,
            delay_seconds,
            now,
        ).state == (PolicyState::Counting { started_at }),
{
}

/// Once terminal, the policy stays terminal through any run of readings.
proof fn lemma_terminal_stays(
    battery: BatteryConfig,
    delay_seconds: u64,
    readings: Seq<Reading>,
)
    ensures
        state_after(PolicyState::Terminal, battery, delay_seconds, readings)
            == PolicyState::Terminal,
    decreases readings.len(),
{
    if readings.len() > 0 {
        lemma_terminal_stays(battery, delay_seconds, readings.drop_last());
    }
}

/// A run that leaves the policy in a state other than terminal has ordered no
/// shutdown; one that leaves it terminal, from a start that was not, has
/// ordered exactly one.
proof fn lemma_shutdown_count_by_state(
    state: PolicyState,
    battery: BatteryConfig,
    delay_seconds: u64,
    readings: Seq<Reading>,
)
    requires
        state != PolicyState::Terminal,
    ensures
        shutdown_count(state, battery, delay_seconds, readings) == (if state_after(
            state,
            battery,
            delay_seconds,
            readings,
        ) == PolicyState::Terminal {
            1nat
        } else {
            0nat
        }),
    decreases readings.len(),
{
    if readings.len() > 0 {
        let front = readings.drop_last();
        lemma_shutdown_count_by_state(state, battery, delay_seconds, front);
        assert(readings.take(readings.len() - 1) == front);
    }
}

/// Whatever the readings and wherever the policy starts, it orders at most
/// one shutdown, and after the shutdown every reading yields no action.
pub proof fn law_at_most_one_shutdown(
    state: PolicyState,
    battery: BatteryConfig,
    delay_seconds: u64,
    readings: Seq<Reading>,
)
    ensures
        shutdown_count(state, battery, delay_seconds, readings) <= 1,
        forall|i: int, j: int|
            #![trigger action_at(state, battery, delay_seconds, readings, i), action_at(state, battery, delay_seconds, readings, j)]
            0 <= i < j < readings.len() && action_at(state, battery, delay_seconds, readings, i)
                == PolicyAction::Shutdown ==> action_at(state, battery, delay_seconds, readings, j)
                == PolicyAction::NoAction,
{
    if state == PolicyState::Terminal {
        lemma_no_shutdown_from_terminal(battery, delay_seconds, readings);
    } else {
        lemma_shutdown_count_by_state(state, battery, delay_seconds, readings);
    }
    assert forall|i: int, j: int|
        #![trigger action_at(state, battery, delay_seconds, readings, i), action_at(state, battery, delay_seconds, readings, j)]
        0 <= i < j < readings.len() && action_at(state, battery, delay_seconds, readings, i)
            == PolicyAction::Shutdown implies action_at(state, battery, delay_seconds, readings, j)
        == PolicyAction::NoAction by {
        let upto = readings.take(i + 1);
        assert(upto.drop_last() == readings.take(i));
        assert(upto.last() == readings[i]);
        assert(state_after(state, battery, delay_seconds, upto) == PolicyState::Terminal);
        lemma_state_after_split(state, battery, delay_seconds, readings.take(j), i + 1);
        assert(readings.take(j).take(i + 1) == upto);
        lemma_terminal_stays(battery, delay_seconds, readings.take(j).skip(i + 1));
    }
}

/// A terminal policy orders no shutdown.
proof fn lemma_no_shutdown_from_terminal(
    battery: BatteryConfig,
    delay_seconds: u64,
    readings: Seq<Reading>,
)
    ensures
        shutdown_count(PolicyState::Terminal, battery, delay_seconds, readings) == 0,
    decreases readings.len(),
{
    if readings.len() > 0 {
        let front = readings.drop_last();
        lemma_no_shutdown_from_terminal(battery, delay_seconds, front);
        assert(readings.take(readings.len() - 1) == front);
        lemma_terminal_stays(battery, delay_seconds, front);
    }
}

/// Running the first `k` readings and then the rest is running them all.
proof fn lemma_state_after_split(
    state: PolicyState,
    battery: BatteryConfig,
    delay_seconds: u64,
    readings: Seq<Reading>,
    k: int,
)
    requires
        0 <= k <= readings.len(),
    ensures
        state_after(state, battery, delay_seconds, readings) == state_after(
            state_after(state, battery, delay_seconds, readings.take(k)),
            battery,
            delay_seconds,
            readings.skip(k),
        ),
    decreases readings.len(),
{
    if k == readings.len() {
        assert(readings.take(k) == readings);
        assert(readings.skip(k).len() == 0);
    } else {
        let front = readings.drop_last();
        lemma_state_after_split(state, battery, delay_seconds, front, k);
        assert(front.take(k) == readings.take(k));
        assert(readings.skip(k).drop_last() == front.skip(k));
        assert(readings.skip(k).last() == readings.last());
    }
}

} // verus!
