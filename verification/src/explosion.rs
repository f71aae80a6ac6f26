//! The explosion animation: a finite, forward-only frame machine.
//!
//! A destroyed entity leaves a transient explosion request at its last
//! position. Within the next tick the request is consumed into an
//! animated entity bound to a sixteen-frame sprite sheet and a repeating
//! timer. Each time the timer elapses the frame index advances by one;
//! when it reaches the frame count the entity is despawned, so frame
//! sixteen is never drawn.

use vstd::prelude::*;

use crate::geom::Vec2i;

verus! {

/// Frames on the explosion sprite sheet (a four-by-four grid).
pub const EXPLOSION_FRAMES: u32 = 16;

/// Period of the explosion's repeating timer, in milliseconds.
pub const EXPLOSION_PERIOD_MS: u32 = 50;

/// A repeating timer measured in whole milliseconds: it elapses each time
/// the accumulated time passes its period, keeping the remainder.
#[derive(Clone, Copy, PartialEq, Eq, Structural, Debug)]
pub struct FrameTimer {
    /// Time accumulated since the timer last elapsed.
    pub elapsed_ms: u32,
    /// The repeat period.
    pub period_ms: u32,
}

impl FrameTimer {
    /// The accumulated time never reaches the period between ticks.
    pub open spec fn wf(self) -> bool {
        self.period_ms > 0 && self.elapsed_ms < self.period_ms
    }

    /// A fresh repeating timer with the given period.
    pub fn new(period_ms: u32) -> (t: FrameTimer)
        requires
            period_ms > 0,
        ensures
            t == (FrameTimer { elapsed_ms: 0u32, period_ms }),
            t.wf(),
    {
        FrameTimer { elapsed_ms: 0, period_ms }
    }

    /// Advance the timer by this tick's duration. It reports whether it
    /// elapsed; having elapsed, it keeps the remainder and runs on.
    pub fn tick(&mut self, delta_ms: u32) -> (finished: bool)
        requires
            old(self).wf(),
            old(self).elapsed_ms + delta_ms <= u32::MAX,
        ensures
            finished == (old(self).elapsed_ms + delta_ms >= old(self).period_ms),
            final(self).period_ms == old(self).period_ms,
            finished ==> final(self).elapsed_ms == (old(self).elapsed_ms + delta_ms) % (old(
                self,
            ).period_ms as int),
            !finished ==> final(self).elapsed_ms == old(self).elapsed_ms + delta_ms,
            final(self).wf(),
    {
        let total: u32 = self.elapsed_ms + delta_ms;
        if total >= self.period_ms {
            self.elapsed_ms = total % self.period_ms;
            true
        } else {
            self.elapsed_ms = total;
            false
        }
    }
}

/// A transient marker left where an entity was destroyed; the animator
/// consumes it within one tick.
#[derive(Clone, Copy, PartialEq, Eq, Structural, Debug)]
pub struct ExplosionRequest {
    /// Where the destroyed entity last stood.
    pub pos: Vec2i,
}

/// A live explosion animation: a position on screen, the sprite-sheet
/// frame being drawn, and the timer that paces the frames.
#[derive(Clone, Copy, PartialEq, Eq, Structural, Debug)]
pub struct Explosion {
    pub pos: Vec2i,
    /// Index of the sprite-sheet frame being drawn.
    pub frame: u32,
    pub timer: FrameTimer,
}

/// The frame index after one tick: it advances exactly when the timer
/// elapsed.
pub open spec fn advance_frame(frame: nat, timer_elapsed: bool) -> nat {
    if timer_elapsed {
        frame + 1
    } else {
        frame
    }
}

/// The frame index after `k` timer elapses, starting from frame zero.
pub open spec fn frame_after(k: nat) -> nat
    decreases k,
{
    if k == 0 {
        0
    } else {
        advance_frame(frame_after((k - 1) as nat), true)
    }
}

impl Explosion {
    /// A live explosion is somewhere short of the last frame, with its
    /// timer consistent; at the frame count it has been despawned.
    pub open spec fn wf(self) -> bool {
        self.frame < EXPLOSION_FRAMES && self.timer.wf()
    }

    /// Consume an explosion request: the animation starts at the
    /// request's position, on frame zero, with a fresh repeating timer.
    pub fn new(request: ExplosionRequest) -> (e: Explosion)
        ensures
            e == (Explosion {
                pos: request.pos,
                frame: 0u32,
                timer: FrameTimer { elapsed_ms: 0u32, period_ms: EXPLOSION_PERIOD_MS },
            }),
            e.wf(),
    {
        Explosion { pos: request.pos, frame: 0, timer: FrameTimer::new(EXPLOSION_PERIOD_MS) }
    }

    /// One animation tick: advance the timer by this tick's duration; if
    /// it elapsed, move to the next frame. The result says whether the
    /// animation has passed its last frame and the entity is to be
    /// despawned.
    pub fn animate(&mut self, delta_ms: u32) -> (despawn: bool)
        requires
            old(self).wf(),
            old(self).timer.elapsed_ms + delta_ms <= u32::MAX,
        ensures
            final(self).pos == old(self).pos,
            final(self).frame == advance_frame(
                old(self).frame as nat,
                old(self).timer.elapsed_ms + delta_ms >= old(self).timer.period_ms,
            ),
            final(self).timer.wf(),
            final(self).timer.period_ms == old(self).timer.period_ms,
            despawn == (final(self).frame == EXPLOSION_FRAMES),
            !despawn ==> final(self).wf(),
    {
        let elapsed = self.timer.tick(delta_ms);
        if elapsed {
            self.frame = self.frame + 1;
        }
        self.frame == EXPLOSION_FRAMES
    }
}

/// The animation terminates: started on frame zero, the explosion stands
/// on frame `k` after `k` timer elapses, is still live before the
/// sixteenth, is despawned exactly at the sixteenth, and no frame past
/// the sheet is ever drawn.
pub proof fn lemma_animation_terminates(k: nat)
    requires
        k <= EXPLOSION_FRAMES,
    ensures
        frame_after(k) == k,
        k < EXPLOSION_FRAMES ==> frame_after(k) < EXPLOSION_FRAMES,
        (frame_after(k) == EXPLOSION_FRAMES) <==> (k == EXPLOSION_FRAMES),
    decreases k,
{
    if k > 0 {
        lemma_animation_terminates((k - 1) as nat);
    }
}

} // verus!
