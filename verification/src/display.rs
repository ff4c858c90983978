//! Presentation decisions for the interactive server console: given one
//! trimmed line and the current flags, decide whether the line is shown,
//! in which style, and whether the "server started" flag flips.  The
//! actual printing and colouring stay with the caller.

use vstd::prelude::*;

use crate::classify::error_marker;
use crate::classify::info_marker;
use crate::classify::server_ready_marker;
use crate::classify::warn_marker;
use crate::text::contains_seq;
use crate::text::str_contains;

verus! {

/// The style a shown console line is rendered in.
#[derive(Clone, Copy, Debug, PartialEq, Eq, Structural)]
pub enum DisplayStyle {
    Red,
    Yellow,
    Blue,
    Dimmed,
}

/// What to do with one console line.
#[derive(Clone, Copy, Debug, PartialEq, Eq, Structural)]
pub enum ConsoleAction {
    /// Announce that the server finished starting up.
    AnnounceStarted,
    /// Print the line in the given style.
    Show(DisplayStyle),
    /// Print nothing.
    Suppress,
}

/// Startup progress messages worth showing before the server is ready.
pub open spec fn startup_notice(line: Seq<char>) -> bool {
    ||| contains_seq(line, "Starting Server"@)
    ||| contains_seq(line, "IPv4 supported"@)
    ||| contains_seq(line, "IPv6 supported"@)
    ||| contains_seq(line, "Level Name:"@)
    ||| contains_seq(line, "Game mode:"@)
    ||| contains_seq(line, "Difficulty:"@)
    ||| contains_seq(line, "opening worlds"@)
}

/// Routine world-saving chatter that is still worth showing.
pub open spec fn routine_save_info(line: Seq<char>) -> bool {
    ||| contains_seq(line, "Running AutoCompaction"@)
    ||| contains_seq(line, "AutoCompaction took"@)
    ||| contains_seq(line, "Saving..."@)
    ||| contains_seq(line, "Changes to the level are resumed"@)
}

/// Player activity, chat, and the informational lines shown even
/// without the verbose flag.
pub open spec fn notable_activity(line: Seq<char>) -> bool {
    ||| contains_seq(line, "Player connected:"@)
    ||| contains_seq(line, "Player disconnected:"@)
    ||| contains_seq(line, "Player Spawned:"@)
    ||| contains_seq(line, "[Chat]"@)
    ||| (contains_seq(line, info_marker()) && routine_save_info(line))
}

/// The action for one trimmed console line, and the new value of the
/// "server started" flag.
pub open spec fn console_action_spec(line: Seq<char>, started: bool, verbose: bool) -> (
    ConsoleAction,
    bool,
) {
    if contains_seq(line, server_ready_marker()) {
        (ConsoleAction::AnnounceStarted, true)
    } else if !started && startup_notice(line) {
        (ConsoleAction::Show(DisplayStyle::Blue), started)
    } else if verbose {
        if contains_seq(line, error_marker()) {
            (ConsoleAction::Show(DisplayStyle::Red), started)
        } else if contains_seq(line, warn_marker()) {
            (ConsoleAction::Show(DisplayStyle::Yellow), started)
        } else if contains_seq(line, info_marker()) {
            (ConsoleAction::Show(DisplayStyle::Blue), started)
        } else {
            (ConsoleAction::Show(DisplayStyle::Dimmed), started)
        }
    } else {
        if contains_seq(line, error_marker()) {
            (ConsoleAction::Show(DisplayStyle::Red), started)
        } else if contains_seq(line, warn_marker()) {
            (ConsoleAction::Show(DisplayStyle::Yellow), started)
        } else if notable_activity(line) {
            (ConsoleAction::Show(DisplayStyle::Blue), started)
        } else {
            (ConsoleAction::Suppress, started)
        }
    }
}

/// Decide what to do with one trimmed console line.
pub fn console_action(line: &str, started: bool, verbose: bool) -> (r: (ConsoleAction, bool))
    ensures
        r == console_action_spec(line@, started, verbose),
{
    if str_contains(line, "Server started.") {
        (ConsoleAction::AnnounceStarted, true)
    } else if !started && (str_contains(line, "Starting Server") || str_contains(
        line,
        "IPv4 supported",
    ) || str_contains(line, "IPv6 supported") || str_contains(line, "Level Name:") || str_contains(
        line,
        "Game mode:",
    ) || str_contains(line, "Difficulty:") || str_contains(line, "opening worlds")) {
        (ConsoleAction::Show(DisplayStyle::Blue), started)
    } else if verbose {
        if str_contains(line, "ERROR") {
            (ConsoleAction::Show(DisplayStyle::Red), started)
        } else if str_contains(line, "WARN") {
            (ConsoleAction::Show(DisplayStyle::Yellow), started)
        } else if str_contains(line, "INFO") {
            (ConsoleAction::Show(DisplayStyle::Blue), started)
        } else {
            (ConsoleAction::Show(DisplayStyle::Dimmed), started)
        }
    } else {
        if str_contains(line, "ERROR") {
            (ConsoleAction::Show(DisplayStyle::Red), started)
        } else if str_contains(line, "WARN") {
            (ConsoleAction::Show(DisplayStyle::Yellow), started)
        } else if str_contains(line, "Player connected:") || str_contains(
            line,
            "Player disconnected:",
        ) || str_contains(line, "Player Spawned:") || str_contains(line, "[Chat]") || (str_contains(
            line,
            "INFO",
        ) && (str_contains(line, "Running AutoCompaction") || str_contains(
            line,
            "AutoCompaction took",
        ) || str_contains(line, "Saving...") || str_contains(
            line,
            "Changes to the level are resumed",
        ))) {
            (ConsoleAction::Show(DisplayStyle::Blue), started)
        } else {
            (ConsoleAction::Suppress, started)
        }
    }
}

} // verus!
