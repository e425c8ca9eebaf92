//! Health probing: what a probe asks of an upstream, and how its outcome
//! updates a descriptor.

use vstd::prelude::*;

use crate::proxy::{Proxy, ProxyView};
use crate::upstream::{dial_plan, plans, DialPlan};

verus! {

/// The deadline of one probe, in milliseconds; a probe that takes longer
/// has failed.
pub const PROBE_DEADLINE_MS: u64 = 5_000;

/// Seconds between two sweeps of the background prober.
pub const PROBE_INTERVAL_SECS: u64 = 30;

/// The target every probe opens a tunnel to.
pub open spec fn probe_target_text() -> Seq<char> {
    "1.1.1.1:443"@
}

/// The target every probe opens a tunnel to.
pub fn probe_target() -> (r: &'static str)
    ensures
        r@ == probe_target_text(),
{
    "1.1.1.1:443"
}

/// How to probe the upstream `p`: a tunnel to the probe target.
pub fn probe_plan(p: &Proxy) -> (r: DialPlan)
    ensures
        plans(p@, probe_target_text(), r),
{
    dial_plan(p, probe_target())
}

/// Whether a probe that reported `succeeded` after `elapsed_ms` counts as a
/// success: it must have finished within the deadline.
pub open spec fn probe_passed(succeeded: bool, elapsed_ms: u64) -> bool {
    succeeded && elapsed_ms <= PROBE_DEADLINE_MS
}

/// A descriptor after a probe: alive with the measured latency on success,
/// dead with no latency on failure; its other fields unchanged.
pub open spec fn probed(p: ProxyView, succeeded: bool, elapsed_ms: u64) -> ProxyView {
    let ok = probe_passed(succeeded, elapsed_ms);
    ProxyView {
        id: p.id,
        protocol: p.protocol,
        host: p.host,
        port: p.port,
        user: p.user,
        pass: p.pass,
        latency_ms: if ok {
            Some(elapsed_ms)
        } else {
            None
        },
        is_alive: ok,
    }
}

/// After a passed probe the descriptor is alive with a latency within the
/// deadline; after a failed one it is dead with no latency.
pub proof fn lemma_probe_outcome(p: ProxyView, succeeded: bool, elapsed_ms: u64)
    ensures
        probe_passed(succeeded, elapsed_ms) ==> probed(p, succeeded, elapsed_ms).is_alive && (probed(
            p,
            succeeded,
            elapsed_ms,
        ).latency_ms matches Some(l) && 0 <= l <= PROBE_DEADLINE_MS),
        !probe_passed(succeeded, elapsed_ms) ==> !probed(p, succeeded, elapsed_ms).is_alive
            && probed(p, succeeded, elapsed_ms).latency_ms is None,
{
}

} // verus!
