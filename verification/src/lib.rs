//! Verified task-orchestration core for a daily virtual-farm routine.
//!
//! The library holds the decisions of the routine: how one POST exchange
//! is folded into a uniform response envelope, how raw payloads decode
//! into snapshots, which calls each task still owes and in what order,
//! and how the run walks its fixed sequence of steps.  An unverified
//! driver performs the transport, the pacing sleeps and the logging, and
//! hands every observation back in as plain values.

pub mod envelope;
pub mod model;
pub mod actions;
pub mod handlers;
pub mod orchestrator;

use vstd::prelude::*;

verus! {

/// The local hour of day in the fixed UTC+8 zone the service operates in,
/// computed from milliseconds since the Unix epoch.
pub open spec fn hour_utc8_spec(now_ms: u64) -> int {
    ((now_ms as int / 3_600_000) + 8) % 24
}

/// Executable counterpart of `hour_utc8_spec`.
pub fn hour_utc8(now_ms: u64) -> (h: u8)
    ensures
        h == hour_utc8_spec(now_ms),
        h < 24,
{
    let hours_since_epoch: u64 = now_ms / 3_600_000;
    ((hours_since_epoch + 8) % 24) as u8
}

} // verus!

