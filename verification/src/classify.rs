//! The line classifier: a pure map from one trimmed console line to the
//! event it means to the validation engine, and the extraction of a
//! category tag and message from a bracketed line.

use vstd::prelude::*;
use vstd::string::StrSliceExecFns;

use crate::text::contains_seq;
use crate::text::find_char_from;
use crate::text::find_from;
use crate::text::lemma_find_from_props;
use crate::text::str_contains;
use crate::text::strip_back;
use crate::text::strip_front;
use crate::text::strip_leading;
use crate::text::strip_trailing;
use crate::text::trim_spec;
use crate::text::trim_str;

verus! {

/// How severe a recorded log line is.
#[derive(Clone, Copy, Debug, PartialEq, Eq, Structural)]
pub enum Severity {
    Error,
    Warning,
    Info,
}

/// What a single trimmed console line means to the validation engine.
#[derive(Clone, Copy, Debug, PartialEq, Eq, Structural)]
pub enum ClassificationEvent {
    /// The line carries the "server ready" marker.
    ServerStarted,
    /// The line carries the "telemetry begin" marker.
    TelemetryBegin,
    /// The line is the separator that closes the telemetry block.
    TelemetryEnd,
    /// The line carries a severity keyword and may become a finding.
    Severity(Severity),
    /// The line carries no marker and no severity keyword.
    Ignored,
}

/// The marker that says the server finished starting up.
pub open spec fn server_ready_marker() -> Seq<char> {
    "Server started."@
}

/// The marker that opens the telemetry block.
pub open spec fn telemetry_begin_marker() -> Seq<char> {
    "TELEMETRY MESSAGE"@
}

/// The keyword that classifies a line as an error.
pub open spec fn error_marker() -> Seq<char> {
    "ERROR"@
}

/// The keyword that classifies a line as a warning.
pub open spec fn warn_marker() -> Seq<char> {
    "WARN"@
}

/// The keyword that classifies a line as informational.
pub open spec fn info_marker() -> Seq<char> {
    "INFO"@
}

/// The separator that closes the telemetry block: a line consisting of
/// nothing but repeated `=` characters, whatever its length.
pub open spec fn has_separator(line: Seq<char>) -> bool {
    line.len() >= 2 && (forall|i: int| 0 <= i < line.len() ==> line[i] == '=')
}

/// Is this trimmed line a block-end separator?
fn separator_line(line: &str) -> (b: bool)
    ensures
        b == has_separator(line@),
{
    let n = line.unicode_len();
    if n < 2 {
        return false;
    }
    let mut i: usize = 0;
    while i < n
        invariant
            n == line@.len(),
            i <= n,
            forall|k: int| 0 <= k < i ==> line@[k] == '=',
        decreases n - i,
    {
        if line.get_char(i) != '=' {
            return false;
        }
        i += 1;
    }
    true
}

/// Classification of one trimmed line.  Control markers are checked in a
/// fixed order and short-circuit the severity keywords; the separator
/// counts only while the tracker is inside the telemetry block.
pub open spec fn classify_spec(line: Seq<char>, in_block: bool) -> ClassificationEvent {
    if contains_seq(line, server_ready_marker()) {
        ClassificationEvent::ServerStarted
    } else if contains_seq(line, telemetry_begin_marker()) {
        ClassificationEvent::TelemetryBegin
    } else if in_block && has_separator(line) {
        ClassificationEvent::TelemetryEnd
    } else if contains_seq(line, error_marker()) {
        ClassificationEvent::Severity(Severity::Error)
    } else if contains_seq(line, warn_marker()) {
        ClassificationEvent::Severity(Severity::Warning)
    } else if contains_seq(line, info_marker()) {
        ClassificationEvent::Severity(Severity::Info)
    } else {
        ClassificationEvent::Ignored
    }
}

/// Classify one trimmed, non-empty console line.
pub fn classify(line: &str, in_block: bool) -> (ev: ClassificationEvent)
    ensures
        ev == classify_spec(line@, in_block),
{
    if str_contains(line, "Server started.") {
        ClassificationEvent::ServerStarted
    } else if str_contains(line, "TELEMETRY MESSAGE") {
        ClassificationEvent::TelemetryBegin
    } else if in_block && separator_line(line) {
        ClassificationEvent::TelemetryEnd
    } else if str_contains(line, "ERROR") {
        ClassificationEvent::Severity(Severity::Error)
    } else if str_contains(line, "WARN") {
        ClassificationEvent::Severity(Severity::Warning)
    } else if str_contains(line, "INFO") {
        ClassificationEvent::Severity(Severity::Info)
    } else {
        ClassificationEvent::Ignored
    }
}

/// One classified, severity-tagged line of server output.
#[derive(Clone, Debug, PartialEq, Eq)]
pub struct Finding {
    /// Which severity keyword the line carried.
    pub severity: Severity,
    /// The trimmed line exactly as it was read.
    pub raw: String,
    /// The category tag from a `[x] [Category] rest` prefix, if any.
    pub category: Option<String>,
    /// The message after the category tag, or the whole line without one.
    pub message: String,
}

/// The mathematical value of a `Finding`.
pub struct FindingModel {
    pub severity: Severity,
    pub raw: Seq<char>,
    pub category: Option<Seq<char>>,
    pub message: Seq<char>,
}

impl View for Finding {
    type V = FindingModel;

    open spec fn view(&self) -> FindingModel {
        FindingModel {
            severity: self.severity,
            raw: self.raw@,
            category: match self.category {
                Some(c) => Some(c@),
                None => None,
            },
            message: self.message@,
        }
    }
}

/// The finding built from one trimmed line.  When the line has at least
/// two `]`-delimited segments, the category is the second segment with
/// surrounding whitespace and brackets stripped and the message is what
/// follows the second `]`; otherwise there is no category and the whole
/// line is the message.
pub open spec fn finding_of(line: Seq<char>, severity: Severity) -> FindingModel {
    match find_from(line, 0, ']') {
        Some(p1) => match find_from(line, p1 + 1, ']') {
            Some(p2) => FindingModel {
                severity: severity,
                raw: line,
                category: Some(
                    strip_back(strip_front(trim_spec(line.subrange(p1 + 1, p2)), '['), ']'),
                ),
                message: trim_spec(line.subrange(p2 + 1, line.len() as int)),
            },
            None => FindingModel { severity: severity, raw: line, category: None, message: line },
        },
        None => FindingModel { severity: severity, raw: line, category: None, message: line },
    }
}

/// Build the finding for one trimmed line that carried a severity keyword.
pub fn make_finding(line: &str, severity: Severity) -> (f: Finding)
    ensures
        f@ == finding_of(line@, severity),
{
    let n = line.unicode_len();
    let raw = line.to_owned();
    match find_char_from(line, 0, ']') {
        Some(p1) => {
            proof {
                lemma_find_from_props(line@, 0, ']');
            }
            match find_char_from(line, p1 + 1, ']') {
                Some(p2) => {
                    proof {
                        lemma_find_from_props(line@, p1 + 1, ']');
                    }
                    let seg = line.substring_char(p1 + 1, p2);
                    let cat = strip_trailing(strip_leading(trim_str(seg), '['), ']');
                    let msg = trim_str(line.substring_char(p2 + 1, n));
                    Finding {
                        severity,
                        raw,
                        category: Some(cat.to_owned()),
                        message: msg.to_owned(),
                    }
                },
                None => Finding { severity, raw, category: None, message: line.to_owned() },
            }
        },
        None => Finding { severity, raw, category: None, message: line.to_owned() },
    }
}

} // verus!
