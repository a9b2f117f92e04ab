use crate::mapper::{SimPoint, SUBPIXELS_PER_PIXEL};
use vstd::prelude::*;

verus! {

/// How far to the right of the firing entity a flare appears, in simulation
/// sub-pixel steps.
pub const FLARE_OFFSET_X: i64 = 30 * SUBPIXELS_PER_PIXEL as i64;

/// Whether frame `i` presses the key anew: held now, released the frame
/// before (`held` stands for the frame before the first).
pub open spec fn rises_at(held: bool, frames: Seq<bool>, i: int) -> bool {
    frames[i] && !(if i == 0 {
        held
    } else {
        frames[i - 1]
    })
}

/// The number of fresh presses among the first `n` frames.
pub open spec fn presses_in(held: bool, frames: Seq<bool>, n: nat) -> nat
    decreases n,
{
    if n == 0 {
        0
    } else {
        presses_in(held, frames, (n - 1) as nat) + if rises_at(held, frames, n - 1) {
            1nat
        } else {
            0nat
        }
    }
}

/// Turns the held state of the fire key, sampled once per frame, into
/// discrete fire events: one on each frame where the key goes down.
#[derive(Clone, Copy, Debug, PartialEq, Eq, Structural)]
pub struct FireTrigger {
    /// Whether the key was held on the previous frame.
    pub held: bool,
}

impl FireTrigger {
    /// A trigger whose key starts released.
    pub fn new() -> (r: FireTrigger)
        ensures
            !r.held,
    {
        FireTrigger { held: false }
    }

    /// Takes this frame's key state; returns whether to spawn a flare.
    pub fn step(&mut self, pressed: bool) -> (fire: bool)
        ensures
            fire == (pressed && !old(self).held),
            final(self).held == pressed,
    {
        let fire = pressed && !self.held;
        self.held = pressed;
        fire
    }

    /// Takes this frame's key state together with whether a press began
    /// during the frame, so that a tap released before the frame ends still
    /// fires; returns whether to spawn a flare. A key that went down since
    /// the last frame and is still held counts as a press too.
    pub fn step_frame(&mut self, held: bool, pressed_during_frame: bool) -> (fire: bool)
        ensures
            fire == (pressed_during_frame || (held && !old(self).held)),
            final(self).held == held,
    {
        let fire = pressed_during_frame || (held && !self.held);
        self.held = held;
        fire
    }

    /// Runs the trigger over a sequence of frames; returns how many flares
    /// they spawn.
    pub fn run(&mut self, frames: &Vec<bool>) -> (count: u64)
        requires
            frames@.len() <= u64::MAX,
        ensures
            count == presses_in(old(self).held, frames@, frames@.len()),
            final(self).held == if frames@.len() == 0 {
                old(self).held
            } else {
                frames@.last()
            },
    {
        let mut count: u64 = 0;
        let mut i: usize = 0;
        while i < frames.len()
            invariant
                0 <= i <= frames@.len(),
                frames@.len() <= u64::MAX,
                count == presses_in(old(self).held, frames@, i as nat),
                count <= i,
                self.held == if i == 0 {
                    old(self).held
                } else {
                    frames@[i - 1]
                },
            decreases frames@.len() - i,
        {
            if self.step(frames[i]) {
                count = count + 1;
            }
            i = i + 1;
        }
        count
    }
}

/// Frames that all hold the key, from a released key, press it once.
pub proof fn lemma_holding_fires_once(frames: Seq<bool>)
    requires
        frames.len() >= 1,
        forall|i: int| 0 <= i < frames.len() ==> frames[i],
    ensures
        presses_in(false, frames, frames.len()) == 1,
{
    lemma_held_prefix_fires_once(frames, frames.len());
}

proof fn lemma_held_prefix_fires_once(frames: Seq<bool>, n: nat)
    requires
        1 <= n <= frames.len(),
        forall|i: int| 0 <= i < frames.len() ==> frames[i],
    ensures
        presses_in(false, frames, n) == 1,
    decreases n,
{
    if n > 1 {
        lemma_held_prefix_fires_once(frames, (n - 1) as nat);
        assert(frames[n - 2]);
        assert(!rises_at(false, frames, n - 1));
    } else {
        assert(frames[0]);
        assert(rises_at(false, frames, 0));
        assert(presses_in(false, frames, 0) == 0);
    }
}

/// The number of flares never exceeds the number of frames.
pub proof fn lemma_presses_bounded(held: bool, frames: Seq<bool>, n: nat)
    ensures
        presses_in(held, frames, n) <= n,
    decreases n,
{
    if n > 0 {
        lemma_presses_bounded(held, frames, (n - 1) as nat);
    }
}

/// Where a flare fired by an entity at `origin` appears.
pub fn flare_position(origin: SimPoint) -> (r: SimPoint)
    requires
        origin.x + FLARE_OFFSET_X <= i64::MAX,
    ensures
        r.x == origin.x + FLARE_OFFSET_X,
        r.y == origin.y,
{
    SimPoint { x: origin.x + FLARE_OFFSET_X, y: origin.y }
}

} // verus!
