//! Event-loop decisions: pacing frame advances and sizing the window.
//!
//! The unverified shell owns the platform event loop; on every wake it asks
//! these functions what to do and carries the answer out (bind an index,
//! request a redraw, schedule a wake).

use vstd::prelude::*;

use crate::selector::FrameSelector;
use crate::timing::{FrameTimer, IdleWake};

verus! {

/// Animation state for the event loop: which frame is current, and when the
/// last advance happened.
pub struct AnimationState {
    pub selector: FrameSelector,
    pub timer: FrameTimer,
}

impl AnimationState {
    pub open spec fn wf(self) -> bool {
        self.selector.wf()
    }

    pub fn new(frame_count: usize, now: u64, interval: u64) -> (r: AnimationState)
        ensures
            r.wf(),
            r.selector.spec_count() == frame_count,
            r.selector.spec_current() == 0,
            r.timer.spec_last_advance() == now,
            r.timer.spec_interval() == interval,
    {
        AnimationState {
            selector: FrameSelector::new(frame_count),
            timer: FrameTimer::new(now, interval),
        }
    }

    /// One redraw-driven update at instant `now`. If a full interval has
    /// elapsed since the last advance, the advance is taken (exactly one,
    /// however many intervals have passed) and the new frame index to bind
    /// is returned; otherwise nothing changes and there is nothing to bind.
    pub fn update(&mut self, now: u64) -> (r: Option<usize>)
        requires
            old(self).wf(),
        ensures
            final(self).wf(),
            final(self).selector.spec_count() == old(self).selector.spec_count(),
            final(self).timer.spec_interval() == old(self).timer.spec_interval(),
            old(self).timer.due(now) && old(self).selector.spec_count() > 0 ==> {
                &&& final(self).selector.spec_current()
                    == (old(self).selector.spec_current() + 1)
                        % (old(self).selector.spec_count() as int)
                &&& r == Some(final(self).selector.spec_current())
                &&& final(self).timer.spec_last_advance() == now
            },
            old(self).timer.due(now) && old(self).selector.spec_count() == 0 ==> {
                &&& r is None
                &&& final(self).selector == old(self).selector
                &&& final(self).timer.spec_last_advance() == now
            },
            !old(self).timer.due(now) ==> r is None && final(self).selector
                == old(self).selector && final(self).timer == old(self).timer,
    {
        if self.timer.tick(now) {
            if self.selector.count() > 0 {
                self.selector.advance();
                return Some(self.selector.current());
            }
        }
        None
    }

    /// The idle-wait decision when the loop is about to sleep at instant
    /// `now`: whether to request a redraw (an advance is due), and the
    /// instant the platform should wake the process — the next scheduled
    /// advance, so wakeups are frame-accurate without busy-polling.
    pub fn idle_wake(&self, now: u64) -> (r: IdleWake)
        requires
            self.timer.spec_last_advance() <= now,
            now + self.timer.spec_interval() <= u64::MAX,
        ensures
            self.timer.due(now) ==> r == (IdleWake {
                request_redraw: true,
                wake_at: (now + self.timer.spec_interval()) as u64,
            }),
            !self.timer.due(now) ==> r == (IdleWake {
                request_redraw: false,
                wake_at: (self.timer.spec_last_advance() + self.timer.spec_interval()) as u64,
            }),
    {
        self.timer.wake_deadline(now)
    }
}

/// The window is created at the first frame's pixel size; with no frames
/// loaded it falls back to 800 by 600.
pub fn initial_window_size(frame_size: Option<(u32, u32)>) -> (r: (u32, u32))
    ensures
        frame_size matches Some(d) ==> r == d,
        frame_size is None ==> r.0 == 800 && r.1 == 600,
{
    match frame_size {
        Some(d) => d,
        None => (800, 600),
    }
}

} // verus!
