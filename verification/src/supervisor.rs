//! The device session state machine: discovery, configuration, steady
//! polling with periodic reassertion of the mapping-clear command, and
//! bounded backoff after any failure.
//!
//! The machine is pure: each step maps the current state and the event
//! the transport produced to the next state, and each state prescribes
//! one action for the driving loop to perform.  The loop that performs
//! the I/O lives outside the library and re-checks the session's run
//! flag between steps, so shutdown latency is bounded by a single read
//! timeout or sleep increment.

use vstd::prelude::*;

verus! {

/// Read timeout of one poll iteration, in milliseconds.
pub const POLL_READ_TIMEOUT_MS: u64 = 16;

/// Successful polls between reassertions of the mapping-clear command:
/// firmware periodically re-enables its default emulation, so the
/// command is resent about every 3.2 s at the poll timeout.
pub const LIZARD_REASSERT_POLLS: u32 = 200;

/// Number of sleep increments making up one backoff period.
pub const BACKOFF_INCREMENTS: u32 = 100;

/// Length of one backoff sleep increment, in milliseconds.
pub const BACKOFF_INCREMENT_MS: u64 = 16;

/// Where the session stands with respect to the device.
#[derive(Copy, Clone, Debug, PartialEq, Eq, Structural)]
pub enum SupervisorState {
    /// No device is open; the next step is a scan.
    Disconnected,
    /// A device was just opened; the mapping-clear command that releases
    /// it from its default emulation has yet to succeed.
    Configuring,
    /// Steady state: reading reports, counting polls since the last
    /// mapping-clear so it can be reasserted periodically.
    Polling { polls_since_clear: u32 },
    /// Steady polling interrupted to resend the mapping-clear command.
    Reasserting,
    /// After a failure or device loss: sleeping in small increments
    /// before discovery starts over.
    BackingOff { increments_left: u32 },
}

/// What the transport reported back for the last action.
#[derive(Copy, Clone, Debug, PartialEq, Eq, Structural)]
pub enum SupervisorEvent {
    /// A scan found the device and opened it.
    Opened,
    /// A scan found no matching device; benign, not a failure.
    Absent,
    /// The transport failed (open, send or read error).
    Failed,
    /// A feature report was sent successfully.
    Sent,
    /// A full-size report was read and decoded.
    ReadValid,
    /// A full-size report was read but failed to decode; transient
    /// noise, tolerated.
    ReadInvalid,
    /// A read returned zero bytes: a wrong-size protocol error that
    /// forces a reconnect.
    ReadEmpty,
    /// One backoff sleep increment elapsed.
    Slept,
}

/// What the driving loop must do next in a given state.
#[derive(Copy, Clone, Debug, PartialEq, Eq, Structural)]
pub enum SupervisorAction {
    /// Enumerate the transport and open the matching device.
    Scan,
    /// Send the mapping-clear feature report.
    SendClearMappings,
    /// Read one input report with the poll timeout.
    ReadReport,
    /// Sleep for one backoff increment.
    SleepIncrement,
}

/// A device handle is open exactly in the configuring, polling and
/// reasserting states.
pub open spec fn spec_device_present(s: SupervisorState) -> bool {
    s is Configuring || s is Polling || s is Reasserting
}

/// The action prescribed for each state.
pub open spec fn spec_action_of(s: SupervisorState) -> SupervisorAction {
    match s {
        SupervisorState::Disconnected => SupervisorAction::Scan,
        SupervisorState::Configuring => SupervisorAction::SendClearMappings,
        SupervisorState::Polling { .. } => SupervisorAction::ReadReport,
        SupervisorState::Reasserting => SupervisorAction::SendClearMappings,
        SupervisorState::BackingOff { .. } => SupervisorAction::SleepIncrement,
    }
}

/// The transition relation of the session state machine.
///
/// - Discovery: an opened device moves to configuring; absence and
///   transport failure both start a fresh backoff period.
/// - Configuring and reasserting: a successful send (re)enters steady
///   polling with the poll counter reset; a failed send backs off.
/// - Polling: a completed read advances the poll counter, and once the
///   reassertion interval has passed the machine interposes a resend of
///   the mapping-clear command.  A decode failure is treated exactly
///   like a valid read here: it never leaves the steady cycle.  A
///   zero-length read or a transport failure forces a reconnect.
/// - Backing off: each elapsed increment counts down; after the last
///   one discovery starts over.
///
/// An event that cannot occur in a state leaves the state unchanged.
pub open spec fn spec_step(s: SupervisorState, e: SupervisorEvent) -> SupervisorState {
    match (s, e) {
        (SupervisorState::Disconnected, SupervisorEvent::Opened) => SupervisorState::Configuring,
        (SupervisorState::Disconnected, SupervisorEvent::Absent) => SupervisorState::BackingOff {
            increments_left: BACKOFF_INCREMENTS,
        },
        (SupervisorState::Disconnected, SupervisorEvent::Failed) => SupervisorState::BackingOff {
            increments_left: BACKOFF_INCREMENTS,
        },
        (SupervisorState::Configuring, SupervisorEvent::Sent) => SupervisorState::Polling {
            polls_since_clear: 0,
        },
        (SupervisorState::Configuring, SupervisorEvent::Failed) => SupervisorState::BackingOff {
            increments_left: BACKOFF_INCREMENTS,
        },
        (SupervisorState::Polling { polls_since_clear }, SupervisorEvent::ReadValid) => {
            if polls_since_clear >= LIZARD_REASSERT_POLLS {
                SupervisorState::Reasserting
            } else {
                SupervisorState::Polling { polls_since_clear: (polls_since_clear + 1) as u32 }
            }
        },
        (SupervisorState::Polling { polls_since_clear }, SupervisorEvent::ReadInvalid) => {
            if polls_since_clear >= LIZARD_REASSERT_POLLS {
                SupervisorState::Reasserting
            } else {
                SupervisorState::Polling { polls_since_clear: (polls_since_clear + 1) as u32 }
            }
        },
        (SupervisorState::Polling { .. }, SupervisorEvent::ReadEmpty) => SupervisorState::BackingOff {
            increments_left: BACKOFF_INCREMENTS,
        },
        (SupervisorState::Polling { .. }, SupervisorEvent::Failed) => SupervisorState::BackingOff {
            increments_left: BACKOFF_INCREMENTS,
        },
        (SupervisorState::Reasserting, SupervisorEvent::Sent) => SupervisorState::Polling {
            polls_since_clear: 0,
        },
        (SupervisorState::Reasserting, SupervisorEvent::Failed) => SupervisorState::BackingOff {
            increments_left: BACKOFF_INCREMENTS,
        },
        (SupervisorState::BackingOff { increments_left }, SupervisorEvent::Slept) => {
            if increments_left <= 1 {
                SupervisorState::Disconnected
            } else {
                SupervisorState::BackingOff { increments_left: (increments_left - 1) as u32 }
            }
        },
        _ => s,
    }
}

/// One step of the session state machine.
pub fn supervisor_step(s: SupervisorState, e: SupervisorEvent) -> (next: SupervisorState)
    ensures
        next == spec_step(s, e),
{
    match (s, e) {
        (SupervisorState::Disconnected, SupervisorEvent::Opened) => SupervisorState::Configuring,
        (SupervisorState::Disconnected, SupervisorEvent::Absent) => SupervisorState::BackingOff {
            increments_left: BACKOFF_INCREMENTS,
        },
        (SupervisorState::Disconnected, SupervisorEvent::Failed) => SupervisorState::BackingOff {
            increments_left: BACKOFF_INCREMENTS,
        },
        (SupervisorState::Configuring, SupervisorEvent::Sent) => SupervisorState::Polling {
            polls_since_clear: 0,
        },
        (SupervisorState::Configuring, SupervisorEvent::Failed) => SupervisorState::BackingOff {
            increments_left: BACKOFF_INCREMENTS,
        },
        (SupervisorState::Polling { polls_since_clear }, SupervisorEvent::ReadValid) => {
            if polls_since_clear >= LIZARD_REASSERT_POLLS {
                SupervisorState::Reasserting
            } else {
                SupervisorState::Polling { polls_since_clear: polls_since_clear + 1 }
            }
        },
        (SupervisorState::Polling { polls_since_clear }, SupervisorEvent::ReadInvalid) => {
            if polls_since_clear >= LIZARD_REASSERT_POLLS {
                SupervisorState::Reasserting
            } else {
                SupervisorState::Polling { polls_since_clear: polls_since_clear + 1 }
            }
        },
        (SupervisorState::Polling { .. }, SupervisorEvent::ReadEmpty) => SupervisorState::BackingOff {
            increments_left: BACKOFF_INCREMENTS,
        },
        (SupervisorState::Polling { .. }, SupervisorEvent::Failed) => SupervisorState::BackingOff {
            increments_left: BACKOFF_INCREMENTS,
        },
        (SupervisorState::Reasserting, SupervisorEvent::Sent) => SupervisorState::Polling {
            polls_since_clear: 0,
        },
        (SupervisorState::Reasserting, SupervisorEvent::Failed) => SupervisorState::BackingOff {
            increments_left: BACKOFF_INCREMENTS,
        },
        (SupervisorState::BackingOff { increments_left }, SupervisorEvent::Slept) => {
            if increments_left <= 1 {
                SupervisorState::Disconnected
            } else {
                SupervisorState::BackingOff { increments_left: increments_left - 1 }
            }
        },
        (other, _) => other,
    }
}

/// The action to perform in the current state.
pub fn supervisor_action(s: &SupervisorState) -> (a: SupervisorAction)
    ensures
        a == spec_action_of(*s),
{
    match s {
        SupervisorState::Disconnected => SupervisorAction::Scan,
        SupervisorState::Configuring => SupervisorAction::SendClearMappings,
        SupervisorState::Polling { .. } => SupervisorAction::ReadReport,
        SupervisorState::Reasserting => SupervisorAction::SendClearMappings,
        SupervisorState::BackingOff { .. } => SupervisorAction::SleepIncrement,
    }
}

/// Whether a device handle is open in the current state; this is what
/// the session publishes as its presence flag.
pub fn device_present(s: &SupervisorState) -> (r: bool)
    ensures
        r == spec_device_present(*s),
{
    match s {
        SupervisorState::Configuring => true,
        SupervisorState::Polling { .. } => true,
        SupervisorState::Reasserting => true,
        SupervisorState::Disconnected => false,
        SupervisorState::BackingOff { .. } => false,
    }
}

/// A malformed report never drops an otherwise healthy connection: the
/// machine treats a decode failure exactly like a valid read, so the
/// device stays present and the steady polling cycle goes on (passing
/// through the periodic reassert step at the interval boundary, as any
/// read does).
pub proof fn lemma_decode_error_keeps_polling(c: u32)
    ensures
        spec_step(
            SupervisorState::Polling { polls_since_clear: c },
            SupervisorEvent::ReadInvalid,
        ) == spec_step(SupervisorState::Polling { polls_since_clear: c }, SupervisorEvent::ReadValid),
        spec_device_present(
            spec_step(SupervisorState::Polling { polls_since_clear: c }, SupervisorEvent::ReadInvalid),
        ),
{
}

/// Backoff is bounded and live: every sleep increment makes progress,
/// and the counter never leaves the machine stuck.
pub proof fn lemma_backoff_progress(k: u32)
    ensures
        k > 1 ==> spec_step(SupervisorState::BackingOff { increments_left: k }, SupervisorEvent::Slept)
            == (SupervisorState::BackingOff { increments_left: (k - 1) as u32 }),
        k <= 1 ==> spec_step(SupervisorState::BackingOff { increments_left: k }, SupervisorEvent::Slept)
            is Disconnected,
{
}

} // verus!
