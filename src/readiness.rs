//! Readiness probing of the sidecar, as a state machine: the caller performs
//! the connection attempts and the sleeps, and reports what it observed.
use vstd::prelude::*;

use crate::endpoint::{frontend_url, frontend_url_spec};

verus! {

/// Per-attempt connect timeout, in milliseconds.
pub const CONNECT_TIMEOUT_MS: u64 = 400;

/// Pause between two attempts, in milliseconds.
pub const RETRY_DELAY_MS: u64 = 200;

/// How long the sidecar is given to accept connections, in milliseconds.
pub const READY_TIMEOUT_MS: u64 = 15000;

/// Where a probe stands.
#[derive(PartialEq, Eq, Structural, Clone, Copy, Debug)]
pub enum ProbeState {
    /// No connection has succeeded and the deadline has not been observed.
    Waiting,
    /// A connection attempt succeeded.
    Connected,
    /// The deadline passed before any connection succeeded.
    Expired,
}

/// What the caller does next.
#[derive(PartialEq, Eq, Structural, Clone, Copy, Debug)]
pub enum ProbeAction {
    /// Attempt one connection, with `CONNECT_TIMEOUT_MS`, and report it.
    Connect,
    /// Sleep `RETRY_DELAY_MS`, then report the time.
    Sleep,
    /// The probe is over.
    Finish,
}

/// A readiness probe with a wall-clock deadline.
#[derive(Clone, Copy, Debug)]
pub struct Prober {
    pub deadline_ms: u64,
    /// The latest time the caller reported.
    pub last_seen_ms: u64,
    pub state: ProbeState,
}

impl Prober {
    /// A probe that has expired has seen its deadline pass.
    pub open spec fn wf(&self) -> bool {
        self.state is Expired ==> self.last_seen_ms >= self.deadline_ms
    }

    /// A probe started at `now_ms` that gives up `timeout_ms` later (at the
    /// largest representable time if that overflows).
    pub fn start(now_ms: u64, timeout_ms: u64) -> (r: Prober)
        ensures
            r.wf(),
            r.state is Waiting,
            r.last_seen_ms == now_ms,
            r.deadline_ms == if now_ms + timeout_ms <= u64::MAX {
                (now_ms + timeout_ms) as u64
            } else {
                u64::MAX
            },
    {
        Prober { deadline_ms: now_ms.saturating_add(timeout_ms), last_seen_ms: now_ms, state: ProbeState::Waiting }
    }

    /// The caller reports the time before an attempt: a waiting probe asks
    /// for an attempt while the deadline lies ahead, and expires otherwise.
    pub fn on_tick(&mut self, now_ms: u64) -> (r: ProbeAction)
        requires
            old(self).wf(),
        ensures
            final(self).wf(),
            final(self).deadline_ms == old(self).deadline_ms,
            old(self).state is Waiting && now_ms < old(self).deadline_ms ==> r is Connect
                && final(self).state is Waiting && final(self).last_seen_ms == now_ms,
            old(self).state is Waiting && now_ms >= old(self).deadline_ms ==> r is Finish
                && final(self).state is Expired && final(self).last_seen_ms == now_ms,
            !(old(self).state is Waiting) ==> r is Finish && *final(self) == *old(self),
    {
        if self.state != ProbeState::Waiting {
            return ProbeAction::Finish;
        }
        self.last_seen_ms = now_ms;
        if now_ms < self.deadline_ms {
            ProbeAction::Connect
        } else {
            self.state = ProbeState::Expired;
            ProbeAction::Finish
        }
    }

    /// The caller reports an attempt: success ends the probe, failure asks
    /// for a pause before the next attempt.
    pub fn on_attempt(&mut self, connected: bool) -> (r: ProbeAction)
        requires
            old(self).wf(),
        ensures
            final(self).wf(),
            final(self).deadline_ms == old(self).deadline_ms,
            final(self).last_seen_ms == old(self).last_seen_ms,
            old(self).state is Waiting && connected ==> r is Finish && final(self).state is Connected,
            old(self).state is Waiting && !connected ==> r is Sleep && final(self).state is Waiting,
            !(old(self).state is Waiting) ==> r is Finish && final(self).state == old(self).state,
    {
        if self.state != ProbeState::Waiting {
            return ProbeAction::Finish;
        }
        if connected {
            self.state = ProbeState::Connected;
            ProbeAction::Finish
        } else {
            ProbeAction::Sleep
        }
    }

    /// Whether a connection succeeded.
    pub fn is_ready(&self) -> (r: bool)
        ensures
            r == (self.state is Connected),
    {
        self.state == ProbeState::Connected
    }
}

/// Whether the window may be pointed at the sidecar: not in a debug build,
/// and only once the sidecar was launched and its probe is over.
pub open spec fn may_navigate(debug: bool, probe: Option<Prober>) -> bool {
    !debug && probe is Some && !(probe->Some_0.state is Waiting)
}

/// Where the window is to be pointed, given the build mode and the probe of
/// the launched sidecar (`None` when no sidecar was launched): the sidecar's
/// URL once the probe saw a connection or its deadline pass, else nowhere.
pub fn navigation_target(debug: bool, probe: &Option<Prober>) -> (r: Option<String>)
    requires
        probe matches Some(p) ==> p.wf(),
    ensures
        r is Some <==> may_navigate(debug, *probe),
        r is Some ==> r->Some_0@ == frontend_url_spec(),
        r is Some ==> (probe->Some_0.state is Connected || probe->Some_0.last_seen_ms
            >= probe->Some_0.deadline_ms),
{
    if debug {
        return None;
    }
    match probe {
        Some(p) => {
            if p.state == ProbeState::Waiting {
                None
            } else {
                Some(frontend_url())
            }
        },
        None => None,
    }
}

/// Navigation waits for readiness: whenever the window may be pointed at the
/// sidecar, its probe either saw a connection succeed or saw the deadline
/// pass.
pub proof fn lemma_navigation_gated(debug: bool, probe: Option<Prober>)
    requires
        probe matches Some(p) ==> p.wf(),
    ensures
        may_navigate(debug, probe) ==> probe->Some_0.state is Connected
            || probe->Some_0.last_seen_ms >= probe->Some_0.deadline_ms,
{
}

} // verus!
