//! The phase tracker: a small composite state machine, driven by control
//! markers, that gates when classified lines are recorded.

use vstd::prelude::*;

use crate::classify::ClassificationEvent;

verus! {

/// Where the run stands with respect to the telemetry block.
#[derive(Clone, Copy, Debug, PartialEq, Eq, Structural)]
pub enum TelemetryState {
    /// No "telemetry begin" marker has been seen yet.
    NotSeen,
    /// Inside the telemetry block: recording is suppressed.
    InBlock,
    /// The separator closed the block; the idle clock is armed.
    Complete,
}

/// The composite validation phase: two independent flags.
#[derive(Clone, Copy, Debug, PartialEq, Eq, Structural)]
pub struct ValidationPhase {
    /// Has the "server ready" marker been observed?
    pub started: bool,
    /// Where the run stands with respect to the telemetry block.
    pub telemetry: TelemetryState,
}

impl ValidationPhase {
    /// The phase before any line has been processed.
    pub fn initial() -> (p: ValidationPhase)
        ensures
            p == initial_phase(),
    {
        ValidationPhase { started: false, telemetry: TelemetryState::NotSeen }
    }
}

/// The phase before any line has been processed.
pub open spec fn initial_phase() -> ValidationPhase {
    ValidationPhase { started: false, telemetry: TelemetryState::NotSeen }
}

/// How one classification event moves the phase.  `telemetry` is
/// monotonic: once `Complete` it never returns to an earlier state.
pub open spec fn phase_step(p: ValidationPhase, ev: ClassificationEvent) -> ValidationPhase {
    match ev {
        ClassificationEvent::ServerStarted => ValidationPhase { started: true, telemetry: p.telemetry },
        ClassificationEvent::TelemetryBegin => ValidationPhase {
            started: p.started,
            telemetry: if p.telemetry is Complete {
                TelemetryState::Complete
            } else {
                TelemetryState::InBlock
            },
        },
        ClassificationEvent::TelemetryEnd => ValidationPhase {
            started: p.started,
            telemetry: TelemetryState::Complete,
        },
        _ => p,
    }
}

/// The recording condition for findings: a severity line is recorded
/// exactly when the server is started and the run is not inside the
/// telemetry block.
pub open spec fn recording_open(p: ValidationPhase) -> bool {
    p.started && !(p.telemetry is InBlock)
}

/// Both phase flags are monotonic: `started` never falls back to false,
/// and `telemetry` never leaves `Complete`.
pub proof fn lemma_phase_monotonic(p: ValidationPhase, ev: ClassificationEvent)
    ensures
        p.started ==> phase_step(p, ev).started,
        p.telemetry is Complete ==> phase_step(p, ev).telemetry is Complete,
{
}

} // verus!
