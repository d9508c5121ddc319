//! Frame-advance timing: a fixed interval paced against a monotonic clock.
//!
//! Instants are plain unsigned ticks of whatever unit the caller measures
//! time in (the driver uses milliseconds); only differences matter.

use vstd::prelude::*;

verus! {

/// The idle-wait decision: whether the caller should request a redraw
/// right away (an advance is due), and the instant at which the platform
/// should wake the process — always the next scheduled advance, so the
/// loop never busy-polls and never misses a frame boundary.
#[derive(Clone, Copy, Debug, PartialEq, Eq, Structural)]
pub struct IdleWake {
    pub request_redraw: bool,
    pub wake_at: u64,
}

/// Timing state: the instant of the last frame advance and the fixed
/// interval between advances. The interval never changes after construction.
pub struct FrameTimer {
    last_advance: u64,
    interval: u64,
}

impl FrameTimer {
    /// Instant of the most recent frame advance.
    pub closed spec fn spec_last_advance(self) -> u64 {
        self.last_advance
    }

    /// Fixed interval between frame advances.
    pub closed spec fn spec_interval(self) -> u64 {
        self.interval
    }

    /// Whether a frame advance is due at instant `now`: at least one full
    /// interval has elapsed since the last advance. An earlier `now` counts
    /// as zero elapsed time, as a monotonic clock's difference does.
    pub open spec fn due(self, now: u64) -> bool {
        if now >= self.spec_last_advance() {
            now - self.spec_last_advance() >= self.spec_interval()
        } else {
            self.spec_interval() == 0
        }
    }

    pub fn new(now: u64, interval: u64) -> (r: FrameTimer)
        ensures
            r.spec_last_advance() == now,
            r.spec_interval() == interval,
    {
        FrameTimer { last_advance: now, interval }
    }

    pub fn last_advance(&self) -> (r: u64)
        ensures
            r == self.spec_last_advance(),
    {
        self.last_advance
    }

    pub fn interval(&self) -> (r: u64)
        ensures
            r == self.spec_interval(),
    {
        self.interval
    }

    /// One scheduler wake at instant `now`: reports whether an advance is
    /// due, and if so records `now` as the new last-advance instant. However
    /// many intervals have elapsed, a single tick yields a single advance;
    /// an early tick changes nothing.
    pub fn tick(&mut self, now: u64) -> (advanced: bool)
        ensures
            advanced == old(self).due(now),
            final(self).spec_interval() == old(self).spec_interval(),
            advanced ==> final(self).spec_last_advance() == now,
            !advanced ==> *final(self) == *old(self),
    {
        let elapsed: u64 = if now >= self.last_advance {
            now - self.last_advance
        } else {
            0
        };
        if elapsed >= self.interval {
            self.last_advance = now;
            true
        } else {
            false
        }
    }

    /// Idle-wait decision at instant `now` (the clock is monotonic, so
    /// `now` is never before the recorded last advance). When an advance is
    /// already due, the caller should request a redraw at once and expect
    /// the advance that follows it, so the next wake is one interval from
    /// now. When none is due, no redraw is needed and the platform is asked
    /// to wake the process at exactly the next scheduled advance,
    /// `last_advance + interval`.
    pub fn wake_deadline(&self, now: u64) -> (r: IdleWake)
        requires
            self.spec_last_advance() <= now,
            now + self.spec_interval() <= u64::MAX,
        ensures
            self.due(now) ==> r == (IdleWake {
                request_redraw: true,
                wake_at: (now + self.spec_interval()) as u64,
            }),
            !self.due(now) ==> r == (IdleWake {
                request_redraw: false,
                wake_at: (self.spec_last_advance() + self.spec_interval()) as u64,
            }),
    {
        let elapsed: u64 = now - self.last_advance;
        if elapsed >= self.interval {
            IdleWake { request_redraw: true, wake_at: now + self.interval }
        } else {
            IdleWake { request_redraw: false, wake_at: self.last_advance + self.interval }
        }
    }
}

/// Law: advances are rate-limited. After a tick advances at instant `now`
/// — however many intervals had elapsed before it, the advance was a
/// single one and recorded `now` — no tick strictly before
/// `now + interval` is due again.
pub proof fn lemma_no_double_advance(t: FrameTimer, now: u64, later: u64)
    requires
        t.spec_last_advance() == now,
        t.spec_interval() > 0,
        now <= later < now + t.spec_interval(),
    ensures
        !t.due(later),
{
}

} // verus!
