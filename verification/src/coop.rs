//! The cooperative-task variant: a level-triggered motion awaiter, the
//! quiescent-interval gate in front of the sensor read, and the heartbeat
//! schedule.
//!
//! Here there is no interrupt context: a single cooperative task polls the
//! motion pin's level, and once the pin reads high it must let a fixed
//! quiescent interval pass — the sensor's own minimum sampling interval —
//! before issuing the read, even if motion re-triggers sooner. Timestamps
//! are milliseconds from one monotonically non-decreasing clock, supplied
//! by the caller.

use vstd::prelude::*;

verus! {

/// Minimum quiescent interval between observing motion and starting the
/// sensor read, in milliseconds.
pub const QUIESCENT_INTERVAL_MS: u64 = 2000;

/// Period of the heartbeat task's liveness message, in milliseconds.
pub const HEARTBEAT_PERIOD_MS: u64 = 1000;

/// Whether, at `now_ms`, the quiescent interval has fully elapsed since the
/// motion observation at `resolved_at_ms`.
pub open spec fn quiescent_elapsed(resolved_at_ms: u64, now_ms: u64) -> bool {
    now_ms >= resolved_at_ms + QUIESCENT_INTERVAL_MS
}

/// Where the cooperative sampler stands.
#[derive(Clone, Copy, Debug, PartialEq, Eq, Structural)]
pub enum CoopPhase {
    /// Waiting for the motion pin to read high.
    Armed,
    /// Motion was observed at `resolved_at_ms`; the read may only start once
    /// the quiescent interval has elapsed.
    Resolved {
        /// When the motion pin was observed high, milliseconds.
        resolved_at_ms: u64,
    },
}

/// The cooperative sampling task's event state: a motion awaiter that
/// resolves on pin level, plus the quiescent gate in front of the read.
///
/// The awaiter is level-triggered, not edge-latching: after each read it is
/// re-armed, and a motion pin still held high resolves again immediately on
/// the next poll. There is no debounce beyond the quiescent interval itself.
pub struct CoopSampler {
    phase: CoopPhase,
}

impl CoopSampler {
    /// Where the sampler stands.
    pub closed spec fn phase(self) -> CoopPhase {
        self.phase
    }

    /// True once motion has been observed and the read is still owed.
    pub open spec fn is_resolved(self) -> bool {
        self.phase() is Resolved
    }

    /// When the motion pin was observed high; meaningful only while
    /// resolved.
    pub open spec fn resolved_at(self) -> u64
        recommends
            self.is_resolved(),
    {
        match self.phase() {
            CoopPhase::Resolved { resolved_at_ms } => resolved_at_ms,
            CoopPhase::Armed => 0,
        }
    }

    /// A fresh sampler, armed and waiting for motion.
    pub fn new() -> (sampler: CoopSampler)
        ensures
            sampler.phase() == CoopPhase::Armed,
    {
        CoopSampler { phase: CoopPhase::Armed }
    }

    /// Whether the sampler is armed, i.e. waiting for the next motion
    /// observation.
    pub fn is_armed(&self) -> (armed: bool)
        ensures
            armed == (self.phase() == CoopPhase::Armed),
    {
        match self.phase {
            CoopPhase::Armed => true,
            CoopPhase::Resolved { .. } => false,
        }
    }

    /// One poll of the motion pin while armed. The awaiter resolves exactly
    /// when the pin reads high, recording the observation time; a low pin
    /// leaves the sampler armed.
    pub fn observe_level(&mut self, level_high: bool, now_ms: u64) -> (resolved: bool)
        requires
            old(self).phase() == CoopPhase::Armed,
        ensures
            resolved == level_high,
            level_high ==> final(self).phase() == (CoopPhase::Resolved { resolved_at_ms: now_ms }),
            !level_high ==> final(self).phase() == CoopPhase::Armed,
    {
        if level_high {
            self.phase = CoopPhase::Resolved { resolved_at_ms: now_ms };
            true
        } else {
            false
        }
    }

    /// How much longer the task must wait before the read may start: zero
    /// exactly when the quiescent interval has elapsed, and otherwise the
    /// remainder of it, so that waiting this long always completes the
    /// interval.
    pub fn wait_remaining_ms(&self, now_ms: u64) -> (wait: u64)
        requires
            self.is_resolved(),
            now_ms >= self.resolved_at(),
        ensures
            wait == 0 <==> quiescent_elapsed(self.resolved_at(), now_ms),
            now_ms + wait == if quiescent_elapsed(self.resolved_at(), now_ms) {
                now_ms as int
            } else {
                self.resolved_at() + QUIESCENT_INTERVAL_MS
            },
    {
        match self.phase {
            CoopPhase::Resolved { resolved_at_ms } => {
                let elapsed: u64 = now_ms - resolved_at_ms;
                if elapsed >= QUIESCENT_INTERVAL_MS {
                    0
                } else {
                    QUIESCENT_INTERVAL_MS - elapsed
                }
            },
            CoopPhase::Armed => 0,
        }
    }

    /// Start the sensor read: allowed only once the quiescent interval has
    /// elapsed since the motion observation. Re-arms the awaiter, so the
    /// next observation is a fresh, independent event — whatever the read
    /// then returns, nothing here is left to re-trigger on.
    pub fn begin_read(&mut self, now_ms: u64)
        requires
            old(self).is_resolved(),
            quiescent_elapsed(old(self).resolved_at(), now_ms),
        ensures
            final(self).phase() == CoopPhase::Armed,
    {
        self.phase = CoopPhase::Armed;
    }
}

/// Once `wait_remaining_ms` returns zero, and whenever `begin_read` is
/// allowed to run, at least `QUIESCENT_INTERVAL_MS` milliseconds have
/// passed since the motion observation: a read never starts early, however
/// fast motion re-triggers.
pub proof fn lemma_quiescent_interval(resolved_at_ms: u64, now_ms: u64)
    requires
        now_ms >= resolved_at_ms,
        quiescent_elapsed(resolved_at_ms, now_ms),
    ensures
        now_ms - resolved_at_ms >= QUIESCENT_INTERVAL_MS,
{
}

/// Whether the heartbeat task's liveness message is due: at least one full
/// period has passed since the last one.
pub fn heartbeat_due(last_beat_ms: u64, now_ms: u64) -> (due: bool)
    requires
        now_ms >= last_beat_ms,
    ensures
        due == (now_ms - last_beat_ms >= HEARTBEAT_PERIOD_MS),
{
    now_ms - last_beat_ms >= HEARTBEAT_PERIOD_MS
}

} // verus!
