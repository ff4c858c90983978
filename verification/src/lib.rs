//! A continuous-integration gate for Minecraft Bedrock content packs.
//!
//! The heart of the library is a log-driven validation engine: server
//! console lines are classified into control markers and severities, a
//! phase tracker gates when classified lines are recorded, an idle clock
//! decides when a server that never exits on its own is done talking, and
//! a verdict engine reduces the recorded findings to a pass/fail result
//! under a configurable policy.  Every step of that pipeline is specified
//! and verified here; process spawning and stream plumbing live with the
//! callers.

use vstd::prelude::*;

pub mod classify;
pub mod display;
pub mod download;
pub mod engine;
pub mod errors;
pub mod phase;
pub mod server;
pub mod text;
pub mod verdict;

verus! {

/// Version suffix that the command-line front end appends to its name.
pub fn format_version_message() -> (m: &'static str)
    ensures
        m@ == " v0.1.0"@,
{
    " v0.1.0"
}

/// True when the contents of an os-release file describe an Ubuntu system.
pub fn is_ubuntu_os_release(contents: &str) -> (b: bool)
    ensures
        b == crate::text::contains_seq(contents@, "Ubuntu"@),
{
    crate::text::str_contains(contents, "Ubuntu")
}

} // verus!
