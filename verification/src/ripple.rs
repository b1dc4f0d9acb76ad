//! Ripples: circles that spread from where the user presses.

use vstd::prelude::*;

verus! {

/// How long a ripple lasts, in microseconds: it spreads for half a second and
/// fades for another two fifths of one beyond the time it holds its colour.
pub const RIPPLE_TOTAL_US: i64 = 700_000;

/// The ripple of a widget.
#[derive(Debug, Clone, Copy, PartialEq, Eq, Structural)]
pub struct RippleHandle {
    /// When the last ripple began, in microseconds of the frame clock.
    pub start_time: Option<i64>,
    pub active: bool,
    /// Counts ripples, so that the ticks of an earlier one are known.
    pub generation: u64,
}

/// What a tick leads to.
#[derive(Debug, Clone, Copy, PartialEq, Eq, Structural)]
pub enum RippleTick {
    /// The tick ends and nothing is drawn.
    Stale,
    /// The ripple is drawn and the tick goes on.
    Continue,
    /// The ripple is over: what is left of it is wiped and the tick ends.
    Over,
}

pub open spec fn next_ripple(generation: u64) -> u64 {
    if generation == u64::MAX {
        0
    } else {
        (generation + 1) as u64
    }
}

pub open spec fn triggered(h: RippleHandle, enabled: bool, frame_time: Option<i64>) -> (
    RippleHandle,
    Option<u64>,
) {
    match frame_time {
        Some(t) => if enabled {
            let g = next_ripple(h.generation);
            (RippleHandle { start_time: Some(t), active: true, generation: g }, Some(g))
        } else {
            (h, None)
        },
        None => (h, None),
    }
}

pub open spec fn rippled(h: RippleHandle, generation: u64, now: i64) -> (RippleHandle, RippleTick) {
    if h.generation != generation {
        (h, RippleTick::Stale)
    } else {
        match h.start_time {
            Some(t) => if !h.active {
                (h, RippleTick::Stale)
            } else if now - t < RIPPLE_TOTAL_US {
                (h, RippleTick::Continue)
            } else {
                (RippleHandle { active: false, ..h }, RippleTick::Over)
            },
            None => (h, RippleTick::Over),
        }
    }
}

impl RippleHandle {
    pub fn new() -> (h: Self)
        ensures
            h == (RippleHandle { start_time: None, active: false, generation: 0 }),
    {
        RippleHandle { start_time: None, active: false, generation: 0 }
    }

    /// A press. A widget that is not on the screen has no frame clock, and no
    /// ripple. Gives the generation of the ripple that begins.
    pub fn trigger_ripple(&mut self, enabled: bool, frame_time: Option<i64>) -> (r: Option<u64>)
        ensures
            (*final(self), r) == triggered(*old(self), enabled, frame_time),
    {
        if !enabled {
            return None;
        }
        match frame_time {
            Some(t) => {
                let generation: u64 = if self.generation == u64::MAX {
                    0
                } else {
                    self.generation + 1
                };
                *self = RippleHandle { start_time: Some(t), active: true, generation };
                Some(generation)
            },
            None => None,
        }
    }

    /// A tick of a ripple.
    pub fn on_tick(&mut self, generation: u64, now: i64) -> (r: RippleTick)
        requires
            old(self).start_time matches Some(t) ==> i64::MIN <= now - t <= i64::MAX,
        ensures
            (*final(self), r) == rippled(*old(self), generation, now),
    {
        if self.generation != generation {
            return RippleTick::Stale;
        }
        match self.start_time {
            Some(t) => {
                if !self.active {
                    return RippleTick::Stale;
                }
                if now - t < RIPPLE_TOTAL_US {
                    return RippleTick::Continue;
                }
                self.active = false;
                RippleTick::Over
            },
            None => RippleTick::Over,
        }
    }
}

/// A new ripple ends the one before it: the ticks of that one change nothing.
pub proof fn law_new_ripple_ends_the_last(h: RippleHandle, frame_time: i64, now: i64)
    ensures
        ({
            let after = triggered(h, true, Some(frame_time)).0;
            after.active && rippled(after, h.generation, now) == (after, RippleTick::Stale)
        }),
{
}

} // verus!
