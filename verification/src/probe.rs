//! The health probe: a liveness check polled at a fixed interval under a
//! bounded wait.
//!
//! The probe holds the bookkeeping of the bounded wait; the HTTP call
//! against the liveness endpoint stays outside the library, which is handed
//! the observed status (or the absence of a reply) before each decision.
//! A transport failure counts as "not yet ready", never as fatal: that
//! tolerates the window in which the child process has forked but has not
//! bound its port yet.

use vstd::prelude::*;

verus! {

/// What one poll decides: the endpoint is ready, the caller should wait
/// one interval and poll again, or the bounded wait has elapsed.
#[derive(Debug, Clone, Copy, PartialEq, Eq, Structural)]
pub enum ProbeVerdict {
    Ready,
    RetryAfterInterval,
    TimedOut,
}

/// Whether one observed reply signals health: exactly a 200 status does; a
/// different status, or no reply at all, does not.
pub open spec fn spec_healthy_reply(status: Option<u16>) -> bool {
    status == Some(200u16)
}

/// Decides whether one observed reply of the liveness endpoint signals
/// health.
pub fn health_verdict(status: Option<u16>) -> (r: bool)
    ensures
        r == spec_healthy_reply(status),
{
    match status {
        Some(s) => s == 200,
        None => false,
    }
}

/// The bounded wait of one readiness poll loop.  Not reusable: a fresh
/// probe starts a fresh wait.
pub struct HealthProbe {
    max_wait_ms: u64,
    interval_ms: u64,
    waited_ms: u64,
}

impl HealthProbe {
    /// The bounded wait in milliseconds.
    pub closed spec fn spec_max_wait_ms(&self) -> u64 {
        self.max_wait_ms
    }

    /// The polling interval in milliseconds.
    pub closed spec fn spec_interval_ms(&self) -> u64 {
        self.interval_ms
    }

    /// How much of the wait has elapsed.
    pub closed spec fn spec_waited_ms(&self) -> u64 {
        self.waited_ms
    }

    /// How much of the bounded wait is left; polls retry only while this
    /// is positive, and it shrinks with every retry.
    pub open spec fn spec_remaining_ms(&self) -> int {
        self.spec_max_wait_ms() - self.spec_waited_ms()
    }

    /// Well-formedness: the interval is positive and the elapsed count
    /// cannot overflow when one more interval is added.
    pub closed spec fn wf(&self) -> bool {
        &&& self.interval_ms >= 1
        &&& self.max_wait_ms <= u64::MAX - self.interval_ms
        &&& self.waited_ms <= self.max_wait_ms + self.interval_ms
    }

    /// A fresh probe with the given bounded wait and interval.
    pub fn new(max_wait_ms: u64, interval_ms: u64) -> (r: HealthProbe)
        requires
            interval_ms >= 1,
            max_wait_ms <= u64::MAX - interval_ms,
        ensures
            r.wf(),
            r.spec_max_wait_ms() == max_wait_ms,
            r.spec_interval_ms() == interval_ms,
            r.spec_waited_ms() == 0,
    {
        HealthProbe { max_wait_ms, interval_ms, waited_ms: 0 }
    }

    /// Decides one poll from the observed liveness reply.  Before the
    /// deadline a healthy reply is `Ready` and anything else asks for one
    /// more interval of waiting; at or past the deadline the wait has
    /// failed, whatever the reply.  Every retry strictly shrinks the
    /// remaining wait, so a probe cannot retry forever.
    pub fn poll(&mut self, status: Option<u16>) -> (r: ProbeVerdict)
        requires
            old(self).wf(),
        ensures
            final(self).wf(),
            final(self).spec_max_wait_ms() == old(self).spec_max_wait_ms(),
            final(self).spec_interval_ms() == old(self).spec_interval_ms(),
            old(self).spec_waited_ms() >= old(self).spec_max_wait_ms() ==> r
                == ProbeVerdict::TimedOut && *final(self) == *old(self),
            old(self).spec_waited_ms() < old(self).spec_max_wait_ms() && spec_healthy_reply(status)
                ==> r == ProbeVerdict::Ready && *final(self) == *old(self),
            old(self).spec_waited_ms() < old(self).spec_max_wait_ms() && !spec_healthy_reply(
                status,
            ) ==> {
                &&& r == ProbeVerdict::RetryAfterInterval
                &&& final(self).spec_waited_ms() == old(self).spec_waited_ms() + old(
                    self,
                ).spec_interval_ms()
                &&& final(self).spec_remaining_ms() < old(self).spec_remaining_ms()
            },
    {
        if self.waited_ms >= self.max_wait_ms {
            return ProbeVerdict::TimedOut;
        }
        if health_verdict(status) {
            return ProbeVerdict::Ready;
        }
        self.waited_ms = self.waited_ms + self.interval_ms;
        ProbeVerdict::RetryAfterInterval
    }
}

} // verus!
