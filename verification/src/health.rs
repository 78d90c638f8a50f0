//! The health monitor: classifies single probes of the backend's health
//! endpoint, decides the bounded wait-until-ready retry loop, and
//! detects edges for the continuous monitor. The network work — one
//! HTTP GET per probe, with its own short timeout — happens outside;
//! everything here is a function of the observed probe outcomes, so a
//! health check can only ever report, never fail its caller.
//!
//! Timing model: the wait loop polls once per half second and gives up
//! once the elapsed whole seconds reach the timeout, so a timeout of `t`
//! seconds allows exactly `2 * t` probes.

use vstd::prelude::*;

verus! {

/// Health as last observed. `Unknown` only ever describes the state
/// before the first observation; a probe itself never yields it.
#[derive(Clone, Copy, PartialEq, Eq, Structural)]
pub enum HealthStatus {
    Unknown,
    Healthy,
    Unhealthy,
}

/// What one probe of the health endpoint observed: a response with its
/// status code, or no response at all (connection refused, timeout,
/// resolution failure).
#[derive(Clone, Copy, PartialEq, Eq, Structural)]
pub enum ProbeOutcome {
    Response(u16),
    TransportFailure,
}

/// A probe is healthy exactly on a success status code; every other
/// code and every transport failure is unhealthy — never an error.
pub open spec fn spec_classify(p: ProbeOutcome) -> HealthStatus {
    match p {
        ProbeOutcome::Response(code) => if 200 <= code < 300 {
            HealthStatus::Healthy
        } else {
            HealthStatus::Unhealthy
        },
        ProbeOutcome::TransportFailure => HealthStatus::Unhealthy,
    }
}

/// Classifies one probe of the health endpoint. Total: whatever the
/// endpoint did, the caller gets a status, never an error.
pub fn check_grpc_health(probe: ProbeOutcome) -> (r: HealthStatus)
    ensures
        r == spec_classify(probe),
        !(r is Unknown),
{
    match probe {
        ProbeOutcome::Response(code) => if 200 <= code && code < 300 {
            HealthStatus::Healthy
        } else {
            HealthStatus::Unhealthy
        },
        ProbeOutcome::TransportFailure => HealthStatus::Unhealthy,
    }
}

/// What the bounded wait reports.
pub struct WaitReport {
    pub ready: bool,
    pub polls: usize,
}

/// Runs the bounded wait-until-ready loop over the probe outcomes it
/// would observe, in order: probe `i` is what the endpoint answers at
/// elapsed time `i / 2` seconds. Returns ready on the first healthy
/// probe; gives up once the timeout has elapsed, after exactly
/// `2 * timeout_secs` unhealthy probes.
pub fn wait_for_grpc_ready(probes: &Vec<ProbeOutcome>, timeout_secs: u64) -> (r: WaitReport)
    requires
        probes@.len() >= 2 * timeout_secs,
    ensures
        r.ready <==> exists|i: int|
            0 <= i < 2 * timeout_secs && spec_classify(probes@[i]) is Healthy,
        !r.ready ==> r.polls == 2 * timeout_secs,
        r.ready ==> 0 < r.polls <= 2 * timeout_secs && spec_classify(
            probes@[r.polls - 1],
        ) is Healthy,
        forall|j: int| 0 <= j < r.polls - 1 ==> !(spec_classify(#[trigger] probes@[j]) is Healthy),
    {
        let mut i: usize = 0;
        loop
            invariant
                probes@.len() >= 2 * timeout_secs,
                i <= 2 * timeout_secs,
                forall|j: int| 0 <= j < i ==> !(spec_classify(#[trigger] probes@[j]) is Healthy),
            decreases 2 * timeout_secs - i,
        {
            if (i as u64) / 2 >= timeout_secs {
                proof {
                    assert(i >= 2 * timeout_secs);
                }
                return WaitReport { ready: false, polls: i };
            }
            proof {
                broadcast use vstd::std_specs::vec::axiom_spec_len;
                assert(probes.len() == probes@.len());
            }
            let status = check_grpc_health(probes[i]);
            i = i + 1;
            if matches!(status, HealthStatus::Healthy) {
                return WaitReport { ready: true, polls: i };
            }
        }
    }

/// One step of the bounded wait's give-up decision: whether another
/// probe is still due, given the milliseconds elapsed since the wait
/// began. The wait keeps polling while the elapsed whole seconds are
/// below the timeout, exactly as `wait_for_grpc_ready` counts its
/// probes; a caller that polls in real time replays this decision
/// between probes.
pub fn wait_should_poll(elapsed_ms: u64, timeout_secs: u64) -> (r: bool)
    ensures
        r == (elapsed_ms / 1000 < timeout_secs),
{
    elapsed_ms / 1000 < timeout_secs
}

/// The continuous monitor's memory: the health status last observed.
pub struct HealthMonitor {
    pub last: HealthStatus,
}

/// An edge: health flipped between the two observed states. A first
/// observation (out of `Unknown`) is not an edge.
pub open spec fn spec_edge(last: HealthStatus, current: HealthStatus) -> bool {
    ||| (last is Healthy && current is Unhealthy)
    ||| (last is Unhealthy && current is Healthy)
}

/// The statuses a monitor starting from `last` would notify for the
/// given probe outcomes: one notification per edge, none otherwise.
pub open spec fn spec_notifications(last: HealthStatus, probes: Seq<ProbeOutcome>) -> Seq<
    HealthStatus,
>
    decreases probes.len(),
{
    if probes.len() == 0 {
        Seq::empty()
    } else {
        let current = spec_classify(probes.first());
        let rest = spec_notifications(current, probes.drop_first());
        if spec_edge(last, current) {
            seq![current] + rest
        } else {
            rest
        }
    }
}

impl HealthMonitor {
    /// A monitor that has not observed anything yet.
    pub fn new() -> (r: HealthMonitor)
        ensures
            r.last is Unknown,
    {
        HealthMonitor { last: HealthStatus::Unknown }
    }

    /// Feeds one observation. Reports whether to notify: exactly on an
    /// edge between the last and the current status, so a stable status
    /// is never reported twice and the first observation is silent.
    pub fn observe(&mut self, current: HealthStatus) -> (fire: bool)
        requires
            !(current is Unknown),
        ensures
            fire == spec_edge(old(self).last, current),
            final(self).last == current,
    {
        let fire = match (&self.last, &current) {
            (HealthStatus::Healthy, HealthStatus::Unhealthy) => true,
            (HealthStatus::Unhealthy, HealthStatus::Healthy) => true,
            _ => false,
        };
        self.last = current;
        fire
    }
}

/// Runs the continuous monitor over the probe outcomes it would
/// observe, in order, collecting the status changes it would notify:
/// one per edge, in observation order.
pub fn monitor_grpc_health(probes: &Vec<ProbeOutcome>) -> (notifications: Vec<HealthStatus>)
    ensures
        notifications@ == spec_notifications(HealthStatus::Unknown, probes@),
{
    let mut monitor = HealthMonitor::new();
    let mut notifications: Vec<HealthStatus> = Vec::new();
    let mut i: usize = 0;
    proof {
        assert(probes@.skip(0) =~= probes@);
    }
    loop
        invariant
            i <= probes@.len(),
            !(i > 0) ==> monitor.last is Unknown,
            spec_notifications(HealthStatus::Unknown, probes@) == notifications@
                + spec_notifications(monitor.last, probes@.skip(i as int)),
        decreases probes@.len() - i,
    {
        if i >= probes.len() {
            proof {
                assert(probes@.skip(i as int) =~= Seq::<ProbeOutcome>::empty());
                assert(notifications@ + Seq::<HealthStatus>::empty() =~= notifications@);
            }
            return notifications;
        }
        proof {
            assert(probes@.skip(i as int).first() == probes@[i as int]);
            assert(probes@.skip(i as int).drop_first() =~= probes@.skip(i as int + 1));
        }
        let status = check_grpc_health(probes[i]);
        let fired = monitor.observe(status);
        if fired {
            notifications.push(status);
            proof {
                assert(notifications@ =~= notifications@.drop_last().push(status));
            }
        }
        i = i + 1;
    }
}

} // verus!
