use bedrockci::classify::classify;
use bedrockci::classify::make_finding;
use bedrockci::classify::ClassificationEvent;
use bedrockci::classify::Severity;

// The separator line of the end-to-end scenario: 52 `=` characters.
const SEPARATOR: &str = "====================================================";

#[test]
fn classify_server_started_marker() {
    let ev = classify("[2024-05-01 INFO] Server started.", false);
    assert_eq!(ev, ClassificationEvent::ServerStarted);
}

#[test]
fn classify_marker_beats_severity() {
    // The ready marker short-circuits the severity keywords.
    let ev = classify("ERROR noise before the marker Server started.", false);
    assert_eq!(ev, ClassificationEvent::ServerStarted);
}

#[test]
fn classify_telemetry_begin() {
    let ev = classify("TELEMETRY MESSAGE xyz", false);
    assert_eq!(ev, ClassificationEvent::TelemetryBegin);
    let ev = classify("TELEMETRY MESSAGE xyz", true);
    assert_eq!(ev, ClassificationEvent::TelemetryBegin);
}

#[test]
fn classify_separator_only_inside_block() {
    assert_eq!(classify(SEPARATOR, true), ClassificationEvent::TelemetryEnd);
    assert_eq!(classify(SEPARATOR, false), ClassificationEvent::Ignored);
}

#[test]
fn classify_any_all_equals_line_is_a_separator() {
    // The separator's length is not fixed: any line of repeated `=` counts.
    assert_eq!(classify("==", true), ClassificationEvent::TelemetryEnd);
    let long = "=".repeat(80);
    assert_eq!(classify(long.as_str(), true), ClassificationEvent::TelemetryEnd);
}

#[test]
fn classify_mixed_line_is_not_a_separator() {
    // A lone `=` is not a repeated run, and text around `=` is no separator.
    assert_eq!(classify("=", true), ClassificationEvent::Ignored);
    assert_eq!(classify("== header ==", true), ClassificationEvent::Ignored);
}

#[test]
fn classify_severity_priority() {
    assert_eq!(
        classify("ERROR and WARN on one line", false),
        ClassificationEvent::Severity(Severity::Error)
    );
    assert_eq!(
        classify("WARN and INFO on one line", false),
        ClassificationEvent::Severity(Severity::Warning)
    );
    assert_eq!(
        classify("just INFO here", false),
        ClassificationEvent::Severity(Severity::Info)
    );
}

#[test]
fn classify_unmarked_line_is_ignored() {
    assert_eq!(classify("a perfectly ordinary line", false), ClassificationEvent::Ignored);
}

#[test]
fn finding_extracts_category_and_message() {
    let f = make_finding("[ERROR] [PackLoader] bad manifest", Severity::Error);
    assert_eq!(f.severity, Severity::Error);
    assert_eq!(f.raw, "[ERROR] [PackLoader] bad manifest");
    assert_eq!(f.category, Some("PackLoader".to_string()));
    assert_eq!(f.message, "bad manifest");
}

#[test]
fn finding_without_two_segments_has_no_category() {
    let f = make_finding("ERROR something bad happened", Severity::Error);
    assert_eq!(f.category, None);
    assert_eq!(f.message, "ERROR something bad happened");

    let g = make_finding("[ERROR] only one segment", Severity::Error);
    assert_eq!(g.category, None);
    assert_eq!(g.message, "[ERROR] only one segment");
}

#[test]
fn finding_message_keeps_later_brackets() {
    let f = make_finding("[W] [Scripts] value [x] is odd", Severity::Warning);
    assert_eq!(f.category, Some("Scripts".to_string()));
    assert_eq!(f.message, "value [x] is odd");
}
