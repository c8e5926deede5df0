//! The monitor loop as a state machine.
//!
//! The caller reads the serial link, writes to the observers, logs, sleeps
//! and shuts the host down. What is to be done after each read is decided
//! here, from the state of the monitor and what the read gave.

use crate::config::Config;
use crate::policy::{evaluate, transition, PolicyAction, PolicyState};
use crate::ups_data::UpsData;
use crate::wire::{decode, decoded_line, ParseError};
use vstd::prelude::*;

verus! {

/// Seconds between two status summaries.
pub const STATUS_INTERVAL_SECONDS: u64 = 60;

/// Seconds to wait after the serial link gave nothing.
pub const EOF_PAUSE_SECONDS: u64 = 1;

/// Seconds that a read of the serial link may take.
pub const READ_TIMEOUT_SECONDS: u64 = 10;

/// Seconds to wait before a session that failed is begun again.
pub const RESTART_DELAY_SECONDS: u64 = 5;

/// Why a read of the serial link failed.
#[derive(Clone, Copy, Debug, PartialEq, Eq, Structural)]
pub enum ReadFailure {
    /// Nothing came within the time allowed.
    TimedOut,
    /// Any other failure of the link.
    Broken,
}

/// How the loop goes on after a step.
#[derive(Clone, Copy, Debug, PartialEq, Eq, Structural)]
pub enum Flow {
    /// Read again at once.
    Continue,
    /// Wait `EOF_PAUSE_SECONDS`, then read again.
    Pause,
    /// End the session with a failure, for the supervisor to begin a new one.
    Fail,
    /// End the loop for good: the shutdown was ordered.
    Finished,
}

/// What the caller is to do after one read.
#[derive(Clone, Copy, Debug, PartialEq, Eq, Structural)]
pub struct Step {
    /// How the loop goes on.
    pub flow: Flow,
    /// The reading to send to the observers, if the line held one.
    pub sample: Option<UpsData>,
    /// Why the line held no reading, if it held none.
    pub rejected: Option<ParseError>,
    /// Whether a status summary is due for the log.
    pub status_due: bool,
    /// What the shutdown policy decided. On `Shutdown` the caller shuts the
    /// host down.
    pub action: PolicyAction,
}

/// The state of the monitor loop between two reads.
#[derive(Clone, Copy, Debug, PartialEq, Eq, Structural)]
pub struct Monitor {
    /// The state of the shutdown policy.
    pub policy: PolicyState,
    /// The second of the last status summary, or of the start.
    pub last_status_at: u64,
    /// How many lines were decoded into a reading. Stops at `u64::MAX`.
    pub decoded: u64,
}

/// How a session ended.
#[derive(Clone, Copy, Debug, PartialEq, Eq, Structural)]
pub enum SessionEnd {
    /// The loop ended by itself: the shutdown was ordered, or it was told to
    /// stop.
    Completed,
    /// The session failed.
    Failed,
}

/// What the supervisor does after a session.
#[derive(Clone, Copy, Debug, PartialEq, Eq, Structural)]
pub enum Supervision {
    /// End the program.
    Stop,
    /// Begin a new session after so many seconds.
    RestartAfter { seconds: u64 },
}

/// The command that shuts the host down.
#[derive(Clone, Debug)]
pub struct ShutdownCommand {
    pub program: String,
    pub args: Vec<String>,
}

/// A step that does nothing but say how the loop goes on.
pub open spec fn bare_step(flow: Flow) -> Step {
    Step { flow, sample: None, rejected: None, status_due: false, action: PolicyAction::NoAction }
}

/// Whether a status summary is due: `STATUS_INTERVAL_SECONDS` or more have
/// passed since the last one.
pub open spec fn status_is_due(last_status_at: u64, now: u64) -> bool {
    now >= last_status_at && now - last_status_at >= STATUS_INTERVAL_SECONDS
}

/// The count after one more line was decoded.
pub open spec fn counted(decoded: u64) -> u64 {
    if decoded < u64::MAX {
        (decoded + 1) as u64
    } else {
        decoded
    }
}

/// The monitor and the step after a reading was decoded at the second `now`.
///
/// The reading is sent on. A status summary is due once a minute. The policy
/// is taken one step, and the loop is finished once the policy is terminal.
pub open spec fn after_sample(monitor: Monitor, sample: UpsData, config: Config, now: u64) -> (
    Monitor,
    Step,
) {
    let due = status_is_due(monitor.last_status_at, now);
    let evaluation = transition(
        monitor.policy,
        sample.sd,
        sample.vi,
        config.battery,
        config.shutdown.delay_seconds,
        now,
    );
    (
        Monitor {
            policy: evaluation.state,
            last_status_at: if due {
                now
            } else {
                monitor.last_status_at
            },
            decoded: counted(monitor.decoded),
        },
        Step {
            flow: if evaluation.state == PolicyState::Terminal {
                Flow::Finished
            } else {
                Flow::Continue
            },
            sample: Some(sample),
            rejected: None,
            status_due: due,
            action: evaluation.action,
        },
    )
}

/// The monitor and the step after a line was read, given what the line
/// decodes to.
///
/// A line that holds no reading changes nothing and does not end the loop.
pub open spec fn after_line(
    monitor: Monitor,
    outcome: Result<UpsData, ParseError>,
    config: Config,
    now: u64,
) -> (Monitor, Step) {
    match outcome {
        Ok(sample) => after_sample(monitor, sample, config, now),
        Err(reason) => (
            monitor,
            Step {
                flow: Flow::Continue,
                sample: None,
                rejected: Some(reason),
                status_due: false,
                action: PolicyAction::NoAction,
            },
        ),
    }
}

/// The monitor and the step after one read of the serial link.
///
/// - Nothing read: pause, then read again.
/// - A line read: see `after_line`.
/// - Timed out: read again.
/// - Any other failure: the session fails.
pub open spec fn after_read(
    monitor: Monitor,
    read: Result<usize, ReadFailure>,
    line: Seq<char>,
    config: Config,
    now: u64,
) -> (Monitor, Step) {
    match read {
        Ok(bytes) => if bytes == 0 {
            (monitor, bare_step(Flow::Pause))
        } else {
            after_line(monitor, decoded_line(line), config, now)
        },
        Err(ReadFailure::TimedOut) => (monitor, bare_step(Flow::Continue)),
        Err(ReadFailure::Broken) => (monitor, bare_step(Flow::Fail)),
    }
}

/// What the supervisor does after a session: it stops after a session that
/// completed, and after any session once it was told to stop; else it begins
/// a new session after `RESTART_DELAY_SECONDS`.
pub open spec fn supervision(end: SessionEnd, stop_requested: bool) -> Supervision {
    if end == SessionEnd::Completed || stop_requested {
        Supervision::Stop
    } else {
        Supervision::RestartAfter { seconds: RESTART_DELAY_SECONDS }
    }
}

impl Monitor {
    /// A monitor that starts at the second `now`, with an idle policy.
    pub fn new(now: u64) -> (monitor: Monitor)
        ensures
            monitor == (Monitor { policy: PolicyState::Idle, last_status_at: now, decoded: 0 }),
    {
        Monitor { policy: PolicyState::Idle, last_status_at: now, decoded: 0 }
    }

    /// Tells whether the loop goes on to another read: it does unless it was
    /// told to stop or the shutdown was ordered.
    pub fn keeps_running(&self, stop_requested: bool) -> (b: bool)
        ensures
            b == (!stop_requested && self.policy != PolicyState::Terminal),
    {
        !stop_requested && !self.policy.is_terminal()
    }

    /// Takes in a reading decoded at the second `now`.
    pub fn on_sample(&mut self, sample: &UpsData, config: &Config, now: u64) -> (step: Step)
        ensures
            (*final(self), step) == after_sample(*old(self), *sample, *config, now),
            final(self).decoded >= old(self).decoded,
            step.action == PolicyAction::Shutdown ==> step.flow == Flow::Finished,
            old(self).policy == PolicyState::Terminal ==> step.action == PolicyAction::NoAction,
    {
        let due = now >= self.last_status_at && now - self.last_status_at
            >= STATUS_INTERVAL_SECONDS;
        if due {
            self.last_status_at = now;
        }
        if self.decoded < u64::MAX {
            self.decoded = self.decoded + 1;
        }
        let evaluation = evaluate(
            self.policy,
            sample,
            &config.battery,
            config.shutdown.delay_seconds,
            now,
        );
        self.policy = evaluation.state;
        Step {
            flow: if evaluation.state.is_terminal() {
                Flow::Finished
            } else {
                Flow::Continue
            },
            sample: Some(*sample),
            rejected: None,
            status_due: due,
            action: evaluation.action,
        }
    }

    /// Takes in what one line decoded to, at the second `now`.
    pub fn on_line(
        &mut self,
        outcome: Result<UpsData, ParseError>,
        config: &Config,
        now: u64,
    ) -> (step: Step)
        ensures
            (*final(self), step) == after_line(*old(self), outcome, *config, now),
            final(self).decoded >= old(self).decoded,
            outcome is Err ==> step.flow == Flow::Continue && *final(self) == *old(self),
    {
        match outcome {
            Ok(sample) => self.on_sample(&sample, config, now),
            Err(reason) => Step {
                flow: Flow::Continue,
                sample: None,
                rejected: Some(reason),
                status_due: false,
                action: PolicyAction::NoAction,
            },
        }
    }

    /// Takes in one read of the serial link, made at the second `now`: what
    /// the read returned, and the line that it filled.
    pub fn on_read(
        &mut self,
        read: Result<usize, ReadFailure>,
        line: &str,
        config: &Config,
        now: u64,
    ) -> (step: Step)
        ensures
            (*final(self), step) == after_read(*old(self), read, line@, *config, now),
            final(self).decoded >= old(self).decoded,
            step.flow == Flow::Fail <==> read == Err::<usize, ReadFailure>(ReadFailure::Broken),
    {
        match read {
            Ok(bytes) => {
                if bytes == 0 {
                    Step {
                        flow: Flow::Pause,
                        sample: None,
                        rejected: None,
                        status_due: false,
                        action: PolicyAction::NoAction,
                    }
                } else {
                    self.on_line(decode(line), config, now)
                }
            },
            Err(ReadFailure::TimedOut) => Step {
                flow: Flow::Continue,
                sample: None,
                rejected: None,
                status_due: false,
                action: PolicyAction::NoAction,
            },
            Err(ReadFailure::Broken) => Step {
                flow: Flow::Fail,
                sample: None,
                rejected: None,
                status_due: false,
                action: PolicyAction::NoAction,
            },
        }
    }
}

/// Decides what follows a session.
pub fn supervise(end: SessionEnd, stop_requested: bool) -> (next: Supervision)
    ensures
        next == supervision(end, stop_requested),
{
    match end {
        SessionEnd::Completed => Supervision::Stop,
        SessionEnd::Failed => if stop_requested {
            Supervision::Stop
        } else {
            Supervision::RestartAfter { seconds: RESTART_DELAY_SECONDS }
        },
    }
}

/// The command that shuts the host down: the shell with the script where the
/// script is there, else `shutdown -h now`.
pub fn shutdown_command(script_path: &str, script_present: bool) -> (command: ShutdownCommand)
    ensures
        script_present ==> command.program@ == "sh"@ && command.args@.len() == 1
            && command.args@[0]@ == script_path@,
        !script_present ==> command.program@ == "shutdown"@ && command.args@.len() == 2
            && command.args@[0]@ == "-h"@ && command.args@[1]@ == "now"@,
{
    let mut args: Vec<String> = Vec::new();
    if script_present {
        args.push(script_path.to_owned());
        ShutdownCommand { program: "sh".to_owned(), args }
    } else {
        args.push("-h".to_owned());
        args.push("now".to_owned());
        ShutdownCommand { program: "shutdown".to_owned(), args }
    }
}

/// Whatever is read, the count of decoded lines does not go down, and a line
/// that holds no reading neither changes the monitor nor ends the loop.
pub proof fn law_bad_lines_change_nothing(
    monitor: Monitor,
    read: Result<usize, ReadFailure>,
    line: Seq<char>,
    config: Config,
    now: u64,
)
    ensures
        after_read(monitor, read, line, config, now).0.decoded >= monitor.decoded,
        (read matches Ok(bytes) && bytes > 0 && decoded_line(line) is Err) ==> after_read(
            monitor,
            read,
            line,
            config,
            now,
        ) == (
            monitor,
            Step {
                flow: Flow::Continue,
                sample: None,
                rejected: Some(decoded_line(line)->Err_0),
                status_due: false,
                action: PolicyAction::NoAction,
            },
        ),
{
}

/// The count of decoded lines goes up by one with each line that holds a
/// reading, until it stands at `u64::MAX`.
pub proof fn law_decoded_lines_are_counted(
    monitor: Monitor,
    sample: UpsData,
    config: Config,
    now: u64,
)
    ensures
        after_sample(monitor, sample, config, now).0.decoded == if monitor.decoded < u64::MAX {
            monitor.decoded + 1
        } else {
            u64::MAX as int
        },
{
}

/// The loop is finished exactly when the policy is terminal, and the caller
/// is told to shut the host down only on the way there: a monitor whose
/// policy is terminal yields no action.
pub proof fn law_finished_iff_terminal(monitor: Monitor, sample: UpsData, config: Config, now: u64)
    ensures
        ({
            let (next, step) = after_sample(monitor, sample, config, now);
            &&& step.flow == Flow::Finished <==> next.policy == PolicyState::Terminal
            &&& step.action == PolicyAction::Shutdown ==> next.policy == PolicyState::Terminal
                && monitor.policy != PolicyState::Terminal
            &&& monitor.policy == PolicyState::Terminal ==> step.action == PolicyAction::NoAction
                && next.policy == PolicyState::Terminal
        }),
{
}

} // verus!
