//! Waiting for the local node to finish catching up with the chain's head.
//!
//! The waiter polls the node's status subsystem on a fixed interval and
//! returns exactly once a response reports `syncing == false`. A probe that
//! fails is not evidence that the node is unhealthy, only that this one probe
//! failed: every failure is swallowed and the loop goes on.

use vstd::prelude::*;

verus! {

/// How long the waiter suspends before each status probe, in milliseconds:
/// coarse enough to bound status-channel load, fine enough to keep
/// sync-completion latency low.
pub const POLL_INTERVAL_MS: u64 = 500;

/// The one field of a status response that the waiter consumes.
#[derive(Clone, Copy, Debug, PartialEq, Eq, Structural)]
pub struct SyncStatus {
    pub syncing: bool,
}

/// A probe outcome that ends the wait: the probe succeeded and the response
/// reports that the node is no longer syncing.
pub open spec fn probe_reports_synced(outcome: Option<SyncStatus>) -> bool {
    outcome matches Some(status) && !status.syncing
}

/// One decision of the wait loop. A failed probe (`None`) never ends the
/// wait; a successful probe ends it exactly when its response reports
/// `syncing == false`.
pub fn sync_step(outcome: &Option<SyncStatus>) -> (done: bool)
    ensures
        done == probe_reports_synced(*outcome),
{
    match outcome {
        Some(status) => !status.syncing,
        None => false,
    }
}

/// The index of the first outcome in a probe script that reports the node
/// synced, if any does.
pub open spec fn first_synced_index(script: Seq<Option<SyncStatus>>) -> Option<int>
    decreases script.len(),
{
    if script.len() == 0 {
        None
    } else if probe_reports_synced(script[0]) {
        Some(0)
    } else {
        match first_synced_index(script.subrange(1, script.len() as int)) {
            Some(i) => Some(i + 1),
            None => None,
        }
    }
}

/// `first_synced_index` finds exactly the first synced outcome: where it
/// answers `Some(i)`, outcome `i` reports the node synced and no earlier one
/// does; where it answers `None`, no outcome in the script does.
proof fn lemma_first_synced_index_characterized(script: Seq<Option<SyncStatus>>)
    ensures
        match first_synced_index(script) {
            Some(i) => 0 <= i < script.len() && probe_reports_synced(script[i])
                && (forall|j: int| 0 <= j < i ==> !probe_reports_synced(script[j])),
            None => forall|j: int| 0 <= j < script.len() ==> !probe_reports_synced(script[j]),
        },
    decreases script.len(),
{
    if script.len() == 0 {
    } else if probe_reports_synced(script[0]) {
    } else {
        let rest = script.subrange(1, script.len() as int);
        lemma_first_synced_index_characterized(rest);
        match first_synced_index(rest) {
            Some(i) => {
                assert(probe_reports_synced(script[i + 1])) by {
                    assert(rest[i] == script[i + 1]);
                }
                assert forall|j: int| 0 <= j < i + 1 implies !probe_reports_synced(
                    script[j],
                ) by {
                    if j >= 1 {
                        assert(rest[j - 1] == script[j]);
                        assert(!probe_reports_synced(rest[j - 1]));
                    }
                }
            },
            None => {
                assert forall|j: int| 0 <= j < script.len() implies !probe_reports_synced(
                    script[j],
                ) by {
                    if j >= 1 {
                        assert(rest[j - 1] == script[j]);
                        assert(!probe_reports_synced(rest[j - 1]));
                    }
                }
            },
        }
    }
}

/// Run the wait loop against a finite script of probe outcomes, as a test
/// harness does: the result is the position of the probe on which the waiter
/// returns, or `None` when the script runs out first — the bounded-time
/// image of a wait that never ends. Exactly the outcomes up to and including
/// the returned position are probed, one probe per outcome.
pub fn run_probe_script(script: &Vec<Option<SyncStatus>>) -> (r: Option<usize>)
    ensures
        match r {
            Some(i) => first_synced_index(script@) == Some(i as int),
            None => first_synced_index(script@) is None,
        },
        r matches Some(i) ==> i < script.len() && probe_reports_synced(script@[i as int])
            && (forall|j: int| 0 <= j < i ==> !probe_reports_synced(script@[j])),
        r is None ==> forall|j: int| 0 <= j < script@.len() ==> !probe_reports_synced(script@[j]),
{
    let mut k: usize = 0;
    while k < script.len()
        invariant
            k <= script.len(),
            forall|j: int| 0 <= j < k ==> !probe_reports_synced(script@[j]),
        decreases script.len() - k,
    {
        let outcome = script[k];
        if sync_step(&outcome) {
            proof {
                lemma_first_synced_index_characterized(script@);
            }
            return Some(k);
        }
        k += 1;
    }
    proof {
        lemma_first_synced_index_characterized(script@);
    }
    None
}

/// Sync-wait termination: a probe script that ends with a response reporting
/// the node synced makes the waiter return — on the first synced outcome, no
/// later than the script's last entry — after issuing one probe for each
/// earlier outcome, failed probes and `syncing == true` responses alike.
pub proof fn lemma_sync_wait_terminates(script: Seq<Option<SyncStatus>>)
    requires
        script.len() > 0,
        probe_reports_synced(script.last()),
    ensures
        first_synced_index(script) is Some,
        first_synced_index(script) matches Some(i) ==> 0 <= i < script.len()
            && probe_reports_synced(script[i])
            && (forall|j: int| 0 <= j < i ==> !probe_reports_synced(script[j])),
{
    lemma_first_synced_index_characterized(script);
    if first_synced_index(script) is None {
        assert(!probe_reports_synced(script[script.len() - 1]));
    }
}

/// Sync-wait non-termination: while every probe fails or every response
/// reports the node still syncing — in any interleaving — no outcome ends
/// the wait, so the waiter keeps looping for the whole script.
pub proof fn lemma_sync_wait_starves(script: Seq<Option<SyncStatus>>)
    requires
        forall|j: int| 0 <= j < script.len() ==>
            script[j] is None || (script[j] matches Some(status) && status.syncing),
    ensures
        first_synced_index(script) is None,
{
    lemma_first_synced_index_characterized(script);
    match first_synced_index(script) {
        Some(i) => {
            assert(script[i] is None || (script[i] matches Some(status) && status.syncing));
        },
        None => {},
    }
}

} // verus!
