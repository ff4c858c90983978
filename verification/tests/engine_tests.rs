use bedrockci::engine::run_lines;
use bedrockci::engine::LogMonitor;
use bedrockci::engine::TerminationCause;
use bedrockci::engine::TimedLine;
use bedrockci::phase::TelemetryState;
use bedrockci::verdict::verdict;
use bedrockci::verdict::VerdictPolicy;

fn line(at: u64, text: &str) -> TimedLine {
    TimedLine { at, text: text.to_string() }
}

// The separator line of the end-to-end scenario: 52 `=` characters.
fn separator() -> String {
    "====================================================".to_string()
}

#[test]
fn end_to_end_scenario() {
    let sep = separator();
    let script = vec![
        line(0, "Starting Server"),
        line(1, "Server started."),
        line(2, "TELEMETRY MESSAGE xyz"),
        line(3, "junk line"),
        line(4, sep.as_str()),
        line(5, "[INFO] [General] all good"),
        line(6, "[ERROR] [PackLoader] bad manifest"),
    ];
    let (result, cause) = run_lines(&script, 5000);
    assert_eq!(result.errors.len(), 1);
    assert_eq!(result.errors[0].raw, "[ERROR] [PackLoader] bad manifest");
    assert_eq!(result.warnings.len(), 0);
    assert_eq!(result.info.len(), 1);
    assert_eq!(result.info[0].raw, "[INFO] [General] all good");
    assert_eq!(cause, TerminationCause::IdleTimeout);
    assert_eq!(verdict(&result, VerdictPolicy::Normal), false);
}

#[test]
fn nothing_recorded_before_server_started() {
    let script = vec![
        line(0, "[ERROR] [Early] too soon"),
        line(1, "WARN early warning"),
        line(2, "Server started."),
        line(3, "[ERROR] [Late] counted"),
    ];
    let (result, _) = run_lines(&script, 100);
    assert_eq!(result.errors.len(), 1);
    assert_eq!(result.errors[0].raw, "[ERROR] [Late] counted");
    assert_eq!(result.warnings.len(), 0);
}

#[test]
fn nothing_recorded_inside_telemetry_block() {
    let sep = separator();
    let script = vec![
        line(0, "Server started."),
        line(1, "TELEMETRY MESSAGE"),
        line(2, "[ERROR] [Hidden] inside the block"),
        line(3, "INFO also hidden"),
        line(4, sep.as_str()),
        line(5, "[ERROR] [Seen] after the block"),
    ];
    let (result, _) = run_lines(&script, 100);
    assert_eq!(result.errors.len(), 1);
    assert_eq!(result.errors[0].raw, "[ERROR] [Seen] after the block");
    assert_eq!(result.info.len(), 0);
}

#[test]
fn findings_are_recorded_without_a_telemetry_block() {
    // Recording needs only the ready marker; `NotSeen` does not suppress.
    let script = vec![line(0, "Server started."), line(1, "WARN a warning")];
    let (result, cause) = run_lines(&script, 100);
    assert_eq!(result.warnings.len(), 1);
    assert_eq!(cause, TerminationCause::StreamsClosed);
}

#[test]
fn close_findings_keep_the_run_alive() {
    let sep = separator();
    let script = vec![
        line(0, "Server started."),
        line(1, "TELEMETRY MESSAGE"),
        line(2, sep.as_str()),
        line(9, "INFO one"),
        line(17, "INFO two"),
        line(25, "INFO three"),
    ];
    // Every gap since the last recorded activity stays under the timeout,
    // so every line is processed and the run ends only with the script.
    let (result, cause) = run_lines(&script, 10);
    assert_eq!(result.info.len(), 3);
    assert_eq!(cause, TerminationCause::IdleTimeout);
}

#[test]
fn idle_expiry_stops_the_run() {
    let sep = separator();
    let script = vec![
        line(0, "Server started."),
        line(1, "TELEMETRY MESSAGE"),
        line(2, sep.as_str()),
        line(5, "INFO in time"),
        line(40, "[ERROR] [TooLate] never seen"),
    ];
    // The gap before the last line is at least the timeout: the run stops
    // by idle expiry and the late line is not recorded.
    let (result, cause) = run_lines(&script, 10);
    assert_eq!(cause, TerminationCause::IdleTimeout);
    assert_eq!(result.info.len(), 1);
    assert_eq!(result.errors.len(), 0);
}

#[test]
fn unarmed_run_never_expires() {
    let script = vec![
        line(0, "Server started."),
        line(1_000_000, "INFO long after"),
    ];
    // Without a completed telemetry block the idle clock is not armed.
    let (result, cause) = run_lines(&script, 10);
    assert_eq!(result.info.len(), 1);
    assert_eq!(cause, TerminationCause::StreamsClosed);
}

#[test]
fn empty_and_blank_lines_are_discarded() {
    let script = vec![
        line(0, "Server started."),
        line(1, ""),
        line(2, "   \t  "),
        line(3, "INFO kept"),
    ];
    let (result, _) = run_lines(&script, 100);
    assert_eq!(result.info.len(), 1);
    assert_eq!(result.info[0].raw, "INFO kept");
}

#[test]
fn lines_are_trimmed_before_classification() {
    let script = vec![line(0, "  Server started.  "), line(1, "\t[ERROR] [A] x \r\n")];
    let (result, _) = run_lines(&script, 100);
    assert_eq!(result.errors.len(), 1);
    assert_eq!(result.errors[0].raw, "[ERROR] [A] x");
}

#[test]
fn telemetry_state_is_monotonic() {
    let sep = separator();
    let script = vec![
        line(0, "Server started."),
        line(1, "TELEMETRY MESSAGE"),
        line(2, sep.as_str()),
        line(3, "TELEMETRY MESSAGE again"),
        line(4, "[ERROR] [Still] recorded"),
    ];
    // Once complete, a later telemetry marker does not suppress recording again.
    let (result, _) = run_lines(&script, 100);
    assert_eq!(result.errors.len(), 1);
}

#[test]
fn round_trip_runs_are_identical() {
    let sep = separator();
    let make_script = || {
        vec![
            line(0, "Server started."),
            line(1, "TELEMETRY MESSAGE"),
            line(2, sep.as_str()),
            line(3, "[ERROR] [A] one"),
            line(4, "[WARN] [B] two"),
            line(5, "INFO three"),
        ]
    };
    let (r1, c1) = run_lines(&make_script(), 50);
    let (r2, c2) = run_lines(&make_script(), 50);
    assert_eq!(r1.errors, r2.errors);
    assert_eq!(r1.warnings, r2.warnings);
    assert_eq!(r1.info, r2.info);
    assert_eq!(c1, c2);
}

#[test]
fn monitor_should_stop_boundary() {
    let sep = separator();
    let mut monitor = LogMonitor::new();
    monitor.process_line("Server started.", 0);
    monitor.process_line("TELEMETRY MESSAGE", 1);
    monitor.process_line(sep.as_str(), 2);
    assert_eq!(monitor.phase.telemetry, TelemetryState::Complete);
    assert_eq!(monitor.last_activity, 2);
    assert!(!monitor.should_stop(11, 10));
    assert!(monitor.should_stop(12, 10));
    // A recorded finding resets the countdown.
    monitor.process_line("INFO activity", 8);
    assert_eq!(monitor.last_activity, 8);
    assert!(!monitor.should_stop(12, 10));
    assert!(monitor.should_stop(18, 10));
}

#[test]
fn monitor_before_arming_never_stops() {
    let monitor = LogMonitor::new();
    assert!(!monitor.should_stop(1_000_000, 1));
}
