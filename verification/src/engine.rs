//! The validation engine: the state owned by the run loop — phase,
//! accumulated findings and idle clock — together with the transition
//! applied for each console line, the idle-expiry test, and a
//! deterministic driver that runs the engine over a scripted sequence of
//! timed lines.  The laws the engine obeys are stated and proved at the
//! bottom of the module.

use vstd::prelude::*;

use crate::classify::classify;
use crate::classify::classify_spec;
use crate::classify::finding_of;
use crate::classify::make_finding;
use crate::classify::server_ready_marker;
use crate::classify::ClassificationEvent;
use crate::classify::Finding;
use crate::classify::FindingModel;
use crate::classify::Severity;
use crate::phase::initial_phase;
use crate::phase::phase_step;
use crate::phase::recording_open;
use crate::phase::TelemetryState;
use crate::phase::ValidationPhase;
use crate::text::contains_seq;
use crate::text::trim_spec;
use crate::text::trim_str;
use vstd::string::StrSliceExecFns;

verus! {

/// The findings of one validation run, one ordered bucket per severity.
pub struct ValidationResult {
    pub errors: Vec<Finding>,
    pub warnings: Vec<Finding>,
    pub info: Vec<Finding>,
}

/// The mathematical value of a `ValidationResult`.
#[verifier::ext_equal]
pub struct ResultModel {
    pub errors: Seq<FindingModel>,
    pub warnings: Seq<FindingModel>,
    pub info: Seq<FindingModel>,
}

/// The findings of a sequence of `Finding`s, as mathematical values.
pub open spec fn views_of(v: Seq<Finding>) -> Seq<FindingModel> {
    v.map_values(|f: Finding| f@)
}

impl View for ValidationResult {
    type V = ResultModel;

    open spec fn view(&self) -> ResultModel {
        ResultModel {
            errors: views_of(self.errors@),
            warnings: views_of(self.warnings@),
            info: views_of(self.info@),
        }
    }
}

/// A result with every bucket empty.
pub open spec fn empty_result() -> ResultModel {
    ResultModel { errors: Seq::empty(), warnings: Seq::empty(), info: Seq::empty() }
}

impl ValidationResult {
    /// A fresh result with every bucket empty.
    pub fn new() -> (r: ValidationResult)
        ensures
            r@ == empty_result(),
    {
        let r = ValidationResult { errors: Vec::new(), warnings: Vec::new(), info: Vec::new() };
        proof {
            assert(r@ =~= empty_result());
        }
        r
    }
}

/// The bucket of `r` that holds findings of severity `sev`.
pub open spec fn bucket(r: ResultModel, sev: Severity) -> Seq<FindingModel> {
    match sev {
        Severity::Error => r.errors,
        Severity::Warning => r.warnings,
        Severity::Info => r.info,
    }
}

/// `r` with `f` appended to the bucket of its severity.
pub open spec fn record(r: ResultModel, f: FindingModel) -> ResultModel {
    match f.severity {
        Severity::Error => ResultModel { errors: r.errors.push(f), warnings: r.warnings, info: r.info },
        Severity::Warning => ResultModel { errors: r.errors, warnings: r.warnings.push(f), info: r.info },
        Severity::Info => ResultModel { errors: r.errors, warnings: r.warnings, info: r.info.push(f) },
    }
}

/// The state owned by the run loop while it monitors a server.
pub struct LogMonitor {
    /// The gating phase driven by control markers.
    pub phase: ValidationPhase,
    /// The findings recorded so far.
    pub findings: ValidationResult,
    /// The idle clock: when the last activity was seen, in the caller's
    /// milliseconds.  Meaningful once the telemetry block is complete.
    pub last_activity: u64,
}

/// The mathematical value of a `LogMonitor`.
#[verifier::ext_equal]
pub struct MonitorModel {
    pub phase: ValidationPhase,
    pub findings: ResultModel,
    pub last_activity: u64,
}

impl View for LogMonitor {
    type V = MonitorModel;

    open spec fn view(&self) -> MonitorModel {
        MonitorModel {
            phase: self.phase,
            findings: self.findings@,
            last_activity: self.last_activity,
        }
    }
}

/// The monitor before any line has been processed.
pub open spec fn initial_model() -> MonitorModel {
    MonitorModel { phase: initial_phase(), findings: empty_result(), last_activity: 0 }
}

/// Which events reset the idle clock: the telemetry markers always do,
/// and a severity line does exactly when it is recorded.
pub open spec fn resets_clock(p: ValidationPhase, ev: ClassificationEvent) -> bool {
    match ev {
        ClassificationEvent::TelemetryBegin => true,
        ClassificationEvent::TelemetryEnd => true,
        ClassificationEvent::Severity(_) => recording_open(p),
        _ => false,
    }
}

/// The monitor after applying one classified event for a trimmed,
/// non-empty line that arrived at time `now`.
pub open spec fn apply_event(
    m: MonitorModel,
    ev: ClassificationEvent,
    line: Seq<char>,
    now: u64,
) -> MonitorModel {
    MonitorModel {
        phase: phase_step(m.phase, ev),
        findings: match ev {
            ClassificationEvent::Severity(sev) => if recording_open(m.phase) {
                record(m.findings, finding_of(line, sev))
            } else {
                m.findings
            },
            _ => m.findings,
        },
        last_activity: if resets_clock(m.phase, ev) {
            now
        } else {
            m.last_activity
        },
    }
}

/// The monitor after one raw line: the line is trimmed, an empty line is
/// discarded, and any other line is classified and applied.
pub open spec fn step_model(m: MonitorModel, line: Seq<char>, now: u64) -> MonitorModel {
    let t = trim_spec(line);
    if t.len() == 0 {
        m
    } else {
        apply_event(m, classify_spec(t, m.phase.telemetry is InBlock), t, now)
    }
}

/// The idle countdown has elapsed: the clock is armed and at least
/// `timeout` has passed since the last activity.
pub open spec fn idle_expired(m: MonitorModel, now: u64, timeout: u64) -> bool {
    m.phase.telemetry is Complete && now >= m.last_activity && now - m.last_activity >= timeout
}

proof fn lemma_views_of_push(v: Seq<Finding>, f: Finding)
    ensures
        views_of(v.push(f)) == views_of(v).push(f@),
{
    assert(views_of(v.push(f)) =~= views_of(v).push(f@));
}

impl LogMonitor {
    /// A fresh monitor, before any line has been processed.
    pub fn new() -> (m: LogMonitor)
        ensures
            m@ == initial_model(),
    {
        let m = LogMonitor {
            phase: ValidationPhase::initial(),
            findings: ValidationResult::new(),
            last_activity: 0,
        };
        m
    }

    /// Process one raw console line that arrived at time `now`.
    pub fn process_line(&mut self, line: &str, now: u64)
        ensures
            final(self)@ == step_model(old(self)@, line@, now),
    {
        let t = trim_str(line);
        if t.unicode_len() == 0 {
            return;
        }
        let in_block = matches!(self.phase.telemetry, TelemetryState::InBlock);
        let ev = classify(t, in_block);
        match ev {
            ClassificationEvent::ServerStarted => {
                self.phase.started = true;
            },
            ClassificationEvent::TelemetryBegin => {
                self.phase.telemetry = if matches!(self.phase.telemetry, TelemetryState::Complete) {
                    TelemetryState::Complete
                } else {
                    TelemetryState::InBlock
                };
                self.last_activity = now;
            },
            ClassificationEvent::TelemetryEnd => {
                self.phase.telemetry = TelemetryState::Complete;
                self.last_activity = now;
            },
            ClassificationEvent::Severity(sev) => {
                if self.phase.started && !matches!(self.phase.telemetry, TelemetryState::InBlock) {
                    let f = make_finding(t, sev);
                    match sev {
                        Severity::Error => {
                            proof {
                                lemma_views_of_push(self.findings.errors@, f);
                            }
                            self.findings.errors.push(f);
                        },
                        Severity::Warning => {
                            proof {
                                lemma_views_of_push(self.findings.warnings@, f);
                            }
                            self.findings.warnings.push(f);
                        },
                        Severity::Info => {
                            proof {
                                lemma_views_of_push(self.findings.info@, f);
                            }
                            self.findings.info.push(f);
                        },
                    }
                    self.last_activity = now;
                }
            },
            ClassificationEvent::Ignored => {},
        }
        proof {
            assert(self@ =~= step_model(old(self)@, line@, now));
        }
    }

    /// Has the idle countdown elapsed at time `now`?
    pub fn should_stop(&self, now: u64, timeout: u64) -> (b: bool)
        ensures
            b == idle_expired(self@, now, timeout),
    {
        matches!(self.phase.telemetry, TelemetryState::Complete) && now >= self.last_activity
            && now - self.last_activity >= timeout
    }
}

/// One console line together with its arrival time in milliseconds.
pub struct TimedLine {
    pub at: u64,
    pub text: String,
}

/// The mathematical value of a `TimedLine`.
pub struct TimedLineModel {
    pub at: u64,
    pub text: Seq<char>,
}

impl View for TimedLine {
    type V = TimedLineModel;

    open spec fn view(&self) -> TimedLineModel {
        TimedLineModel { at: self.at, text: self.text@ }
    }
}

/// The timed lines of a sequence of `TimedLine`s, as mathematical values.
pub open spec fn timed_views(v: Seq<TimedLine>) -> Seq<TimedLineModel> {
    v.map_values(|l: TimedLine| l@)
}

/// Why a run ended.
#[derive(Clone, Copy, Debug, PartialEq, Eq, Structural)]
pub enum TerminationCause {
    /// The idle countdown elapsed with no recorded activity.
    IdleTimeout,
    /// Both output streams were exhausted before the countdown elapsed.
    StreamsClosed,
}

/// How a run ends once its input is exhausted: by idle expiry if the
/// clock is armed — with no further input the countdown must elapse —
/// and by stream exhaustion otherwise.
pub open spec fn end_cause(m: MonitorModel) -> TerminationCause {
    if m.phase.telemetry is Complete {
        TerminationCause::IdleTimeout
    } else {
        TerminationCause::StreamsClosed
    }
}

/// The run of the engine over a scripted sequence of timed lines,
/// starting from monitor state `m`: before each line the idle countdown
/// is checked against the line's arrival time, and expiry stops the run
/// at once.
pub open spec fn run_from(
    m: MonitorModel,
    lines: Seq<TimedLineModel>,
    timeout: u64,
) -> (MonitorModel, TerminationCause)
    decreases lines.len(),
{
    if lines.len() == 0 {
        (m, end_cause(m))
    } else if idle_expired(m, lines[0].at, timeout) {
        (m, TerminationCause::IdleTimeout)
    } else {
        run_from(step_model(m, lines[0].text, lines[0].at), lines.drop_first(), timeout)
    }
}

/// The run of the engine over a scripted sequence of timed lines from a
/// fresh monitor.
pub open spec fn run_model(lines: Seq<TimedLineModel>, timeout: u64) -> (
    MonitorModel,
    TerminationCause,
) {
    run_from(initial_model(), lines, timeout)
}

/// The fold of the engine over `lines` with the idle check disabled:
/// the state after every line has been processed.
pub open spec fn fold_state(m: MonitorModel, lines: Seq<TimedLineModel>) -> MonitorModel
    decreases lines.len(),
{
    if lines.len() == 0 {
        m
    } else {
        fold_state(step_model(m, lines[0].text, lines[0].at), lines.drop_first())
    }
}

/// Run a fresh engine over a scripted sequence of timed lines.  This is
/// the deterministic core of the run loop: callers that watch a live
/// process feed lines one at a time through `LogMonitor` instead and
/// make the same idle check with `should_stop`.
pub fn run_lines(lines: &Vec<TimedLine>, timeout: u64) -> (r: (ValidationResult, TerminationCause))
    ensures
        r.0@ == run_model(timed_views(lines@), timeout).0.findings,
        r.1 == run_model(timed_views(lines@), timeout).1,
{
    let mut monitor = LogMonitor::new();
    let n = lines.len();
    let mut i: usize = 0;
    proof {
        assert(timed_views(lines@).skip(0) =~= timed_views(lines@));
    }
    while i < n
        invariant
            n == lines@.len(),
            i <= n,
            run_from(monitor@, timed_views(lines@).skip(i as int), timeout) == run_model(
                timed_views(lines@),
                timeout,
            ),
        decreases n - i,
    {
        let at = lines[i].at;
        proof {
            assert(timed_views(lines@).skip(i as int)[0] == lines@[i as int]@);
        }
        if monitor.should_stop(at, timeout) {
            return (monitor.findings, TerminationCause::IdleTimeout);
        }
        monitor.process_line(lines[i].text.as_str(), at);
        proof {
            assert(timed_views(lines@).skip(i as int).drop_first() =~= timed_views(lines@).skip(
                i + 1,
            ));
        }
        i += 1;
    }
    proof {
        assert(timed_views(lines@).skip(n as int) =~= Seq::<TimedLineModel>::empty());
    }
    if matches!(monitor.phase.telemetry, TelemetryState::Complete) {
        (monitor.findings, TerminationCause::IdleTimeout)
    } else {
        (monitor.findings, TerminationCause::StreamsClosed)
    }
}

/// Each bucket of `r` holds only findings of its own severity.
pub open spec fn result_wf(r: ResultModel) -> bool {
    &&& forall|i: int| 0 <= i < r.errors.len() ==> r.errors[i].severity == Severity::Error
    &&& forall|i: int| 0 <= i < r.warnings.len() ==> r.warnings[i].severity == Severity::Warning
    &&& forall|i: int| 0 <= i < r.info.len() ==> r.info[i].severity == Severity::Info
}

/// Processing a line keeps the buckets sorted by severity: a recorded
/// finding always lands in the bucket of its own severity.
pub proof fn lemma_step_preserves_wf(m: MonitorModel, line: Seq<char>, now: u64)
    requires
        result_wf(m.findings),
    ensures
        result_wf(step_model(m, line, now).findings),
{
}

/// A whole run from a well-formed accumulator leaves every bucket
/// holding only findings of its own severity.
pub proof fn lemma_run_preserves_wf(m: MonitorModel, lines: Seq<TimedLineModel>, timeout: u64)
    requires
        result_wf(m.findings),
    ensures
        result_wf(run_from(m, lines, timeout).0.findings),
    decreases lines.len(),
{
    if lines.len() == 0 {
    } else if idle_expired(m, lines[0].at, timeout) {
    } else {
        lemma_step_preserves_wf(m, lines[0].text, lines[0].at);
        lemma_run_preserves_wf(
            step_model(m, lines[0].text, lines[0].at),
            lines.drop_first(),
            timeout,
        );
    }
}

/// Law: when the recording gate is open — the server has started and the
/// run is not inside the telemetry block — a line classified with
/// severity `sev` appends exactly one entry, the parsed finding of the
/// line, to the bucket for `sev`; no other bucket changes, the phase is
/// unchanged, and the idle clock is reset to the arrival time.
pub proof fn lemma_severity_recorded(m: MonitorModel, line: Seq<char>, now: u64, sev: Severity)
    requires
        trim_spec(line).len() > 0,
        classify_spec(trim_spec(line), m.phase.telemetry is InBlock)
            == ClassificationEvent::Severity(sev),
        recording_open(m.phase),
    ensures
        bucket(step_model(m, line, now).findings, sev) == bucket(m.findings, sev).push(
            finding_of(trim_spec(line), sev),
        ),
        forall|other: Severity|
            other != sev ==> bucket(step_model(m, line, now).findings, other) == bucket(
                m.findings,
                other,
            ),
        step_model(m, line, now).phase == m.phase,
        step_model(m, line, now).last_activity == now,
{
}

/// Law: before the "server ready" marker has been observed, no line is
/// recorded, whatever it contains.
pub proof fn lemma_not_started_not_recorded(m: MonitorModel, line: Seq<char>, now: u64)
    requires
        !m.phase.started,
    ensures
        step_model(m, line, now).findings == m.findings,
{
}

/// Law: over a whole script none of whose lines carries the "server
/// ready" marker, a monitor that has not seen the marker records
/// nothing.
pub proof fn lemma_no_ready_marker_no_findings(
    m: MonitorModel,
    lines: Seq<TimedLineModel>,
    timeout: u64,
)
    requires
        !m.phase.started,
        forall|i: int|
            0 <= i < lines.len() ==> !contains_seq(
                trim_spec(#[trigger] lines[i].text),
                server_ready_marker(),
            ),
    ensures
        run_from(m, lines, timeout).0.findings == m.findings,
    decreases lines.len(),
{
    if lines.len() == 0 {
    } else if idle_expired(m, lines[0].at, timeout) {
    } else {
        let m2 = step_model(m, lines[0].text, lines[0].at);
        assert(!m2.phase.started);
        assert(m2.findings == m.findings);
        assert forall|i: int| 0 <= i < lines.drop_first().len() implies !contains_seq(
            trim_spec(#[trigger] lines.drop_first()[i].text),
            server_ready_marker(),
        ) by {
            assert(lines.drop_first()[i] == lines[i + 1]);
        }
        lemma_no_ready_marker_no_findings(m2, lines.drop_first(), timeout);
    }
}

/// Law: between the "telemetry begin" marker and the separator that ends
/// the block, no line is recorded, severity keywords included.
pub proof fn lemma_in_block_not_recorded(m: MonitorModel, line: Seq<char>, now: u64)
    requires
        m.phase.telemetry is InBlock,
    ensures
        step_model(m, line, now).findings == m.findings,
{
}

/// Law: the countdown never fires early — while strictly less than
/// `timeout` has passed since the last recorded activity, the idle check
/// is quiet.
pub proof fn lemma_idle_quiet_within_timeout(m: MonitorModel, now: u64, timeout: u64)
    requires
        now < m.last_activity + timeout,
    ensures
        !idle_expired(m, now, timeout),
{
}

/// Law: recording a finding resets the idle clock to the arrival time of
/// the recorded line.
pub proof fn lemma_recording_resets_clock(m: MonitorModel, line: Seq<char>, now: u64)
    ensures
        step_model(m, line, now).findings != m.findings ==> step_model(
            m,
            line,
            now,
        ).last_activity == now,
{
}

/// Law: while every arriving line comes strictly less than `timeout`
/// after the last reset of the idle clock — in particular while recorded
/// findings follow one another with gaps under the timeout — the run
/// never stops by idle expiry: every line of the script is processed,
/// and the cause of termination is decided only once the input ends.
pub proof fn lemma_no_expiry_while_active(
    m: MonitorModel,
    lines: Seq<TimedLineModel>,
    timeout: u64,
)
    requires
        forall|i: int|
            0 <= i < lines.len() ==> !idle_expired(
                fold_state(m, lines.take(i)),
                #[trigger] lines[i].at,
                timeout,
            ),
    ensures
        run_from(m, lines, timeout).0 == fold_state(m, lines),
        run_from(m, lines, timeout).1 == end_cause(fold_state(m, lines)),
    decreases lines.len(),
{
    if lines.len() == 0 {
    } else {
        assert(lines.take(0) =~= Seq::<TimedLineModel>::empty());
        assert(!idle_expired(m, lines[0].at, timeout));
        let m2 = step_model(m, lines[0].text, lines[0].at);
        assert forall|i: int| 0 <= i < lines.drop_first().len() implies !idle_expired(
            fold_state(m2, lines.drop_first().take(i)),
            #[trigger] lines.drop_first()[i].at,
            timeout,
        ) by {
            assert(lines.take(i + 1).drop_first() =~= lines.drop_first().take(i));
            assert(lines.take(i + 1)[0] == lines[0]);
            assert(fold_state(m, lines.take(i + 1)) == fold_state(
                m2,
                lines.drop_first().take(i),
            ));
            assert(lines.drop_first()[i] == lines[i + 1]);
        }
        lemma_no_expiry_while_active(m2, lines.drop_first(), timeout);
    }
}

/// Some line at or after position `i` resets the idle clock — it is
/// recorded, or it is a telemetry marker, arming included — and it
/// arrives strictly less than `timeout` after the reset the clock held
/// before line `i`.
#[verifier::opaque]
pub open spec fn next_reset_within(
    m: MonitorModel,
    lines: Seq<TimedLineModel>,
    timeout: u64,
    i: int,
) -> bool {
    exists|k: int|
        i <= k < lines.len() && fold_state(m, lines.take(k + 1)).last_activity == lines[k].at
            && lines[k].at < fold_state(m, lines.take(i)).last_activity + timeout
}

/// Law, in terms of recorded findings: with arrival times in order, as
/// long as the next clock-resetting line — a recorded finding, or the
/// telemetry marker and separator, arming included — always arrives
/// strictly less than `timeout` after the previous reset, the run never
/// stops by idle expiry: every line of the script is processed.  (The
/// countdown is armed only once the telemetry block is complete, so
/// nothing is demanded of the lines before that point.)
pub proof fn lemma_finding_gaps_keep_run_alive(
    m: MonitorModel,
    lines: Seq<TimedLineModel>,
    timeout: u64,
)
    requires
        forall|i: int, j: int| 0 <= i <= j < lines.len() ==> lines[i].at <= lines[j].at,
        forall|i: int|
            0 <= i < lines.len() && fold_state(m, lines.take(i)).phase.telemetry is Complete
                ==> #[trigger] next_reset_within(m, lines, timeout, i),
    ensures
        run_from(m, lines, timeout).0 == fold_state(m, lines),
        run_from(m, lines, timeout).1 == end_cause(fold_state(m, lines)),
{
    assert forall|i: int| 0 <= i < lines.len() implies !idle_expired(
        fold_state(m, lines.take(i)),
        #[trigger] lines[i].at,
        timeout,
    ) by {
        let st = fold_state(m, lines.take(i));
        if st.phase.telemetry is Complete {
            assert(next_reset_within(m, lines, timeout, i));
            reveal(next_reset_within);
            let k = choose|k: int|
                i <= k < lines.len() && fold_state(m, lines.take(k + 1)).last_activity
                    == lines[k].at && lines[k].at < fold_state(m, lines.take(i)).last_activity
                    + timeout;
            assert(lines[i].at <= lines[k].at);
        }
    }
    lemma_no_expiry_while_active(m, lines, timeout);
}

/// Law: once the telemetry block is complete, the first arrival that
/// finds an idle gap of at least `timeout` since the last recorded
/// activity stops the run, exactly once, with the idle-timeout cause and
/// with the findings exactly as they stood at that moment.  (A script
/// that simply ends while the clock is armed ends with the same cause:
/// see `end_cause`.)
pub proof fn lemma_idle_expiry_stops(
    m: MonitorModel,
    lines: Seq<TimedLineModel>,
    timeout: u64,
    i: int,
)
    requires
        0 <= i < lines.len(),
        forall|j: int|
            0 <= j < i ==> !idle_expired(
                fold_state(m, lines.take(j)),
                #[trigger] lines[j].at,
                timeout,
            ),
        idle_expired(fold_state(m, lines.take(i)), lines[i].at, timeout),
    ensures
        run_from(m, lines, timeout) == (fold_state(m, lines.take(i)), TerminationCause::IdleTimeout),
    decreases i,
{
    assert(lines.take(0) =~= Seq::<TimedLineModel>::empty());
    if i == 0 {
    } else {
        assert(!idle_expired(m, lines[0].at, timeout));
        let m2 = step_model(m, lines[0].text, lines[0].at);
        assert forall|j: int| 0 <= j < i - 1 implies !idle_expired(
            fold_state(m2, lines.drop_first().take(j)),
            #[trigger] lines.drop_first()[j].at,
            timeout,
        ) by {
            assert(lines.take(j + 1).drop_first() =~= lines.drop_first().take(j));
            assert(lines.take(j + 1)[0] == lines[0]);
            assert(fold_state(m, lines.take(j + 1)) == fold_state(
                m2,
                lines.drop_first().take(j),
            ));
            assert(lines.drop_first()[j] == lines[j + 1]);
        }
        assert(lines.take(i).drop_first() =~= lines.drop_first().take(i - 1));
        assert(lines.take(i)[0] == lines[0]);
        assert(fold_state(m, lines.take(i)) == fold_state(m2, lines.drop_first().take(i - 1)));
        assert(lines.drop_first()[i - 1] == lines[i]);
        lemma_idle_expiry_stops(m2, lines.drop_first(), timeout, i - 1);
    }
}

/// Law: the classifier and phase tracker are deterministic — two runs
/// over the same scripted lines with the same timeout produce the same
/// findings.  (`run_lines` guarantees its result equals `run_model` of
/// its input, so two calls on equal inputs return equal results.)
pub proof fn lemma_run_deterministic(
    lines: Seq<TimedLineModel>,
    timeout: u64,
    r1: ResultModel,
    r2: ResultModel,
)
    requires
        r1 == run_model(lines, timeout).0.findings,
        r2 == run_model(lines, timeout).0.findings,
    ensures
        r1 == r2,
{
}

} // verus!
