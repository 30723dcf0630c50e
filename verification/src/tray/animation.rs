//! The tray's "connecting" animation, as a small state machine: whether it
//! runs, whether its loop was started, and which frame comes next. The
//! loop itself (sleeping between frames, painting on the main thread) runs
//! around it.
use vstd::prelude::*;

verus! {

/// The animation state: on/off, whether the loop exists, the next frame
/// and how many frames the cycle has.
pub struct ConnectingAnimator {
    active: bool,
    spawned: bool,
    frame: usize,
    frames: usize,
}

/// The mathematical content of the animator.
pub struct AnimatorView {
    pub active: bool,
    pub spawned: bool,
    pub frame: nat,
    pub frames: nat,
}

impl View for ConnectingAnimator {
    type V = AnimatorView;

    closed spec fn view(&self) -> AnimatorView {
        AnimatorView {
            active: self.active,
            spawned: self.spawned,
            frame: self.frame as nat,
            frames: self.frames as nat,
        }
    }
}

/// What one turn of the animation loop does.
#[derive(Debug, Clone, Copy, PartialEq, Eq, Structural)]
pub enum AnimationStep {
    /// Paint this frame, then wait one frame interval (or a wake-up).
    Paint(usize),
    /// Not active: park until woken.
    Park,
}

impl ConnectingAnimator {
    #[verifier::type_invariant]
    spec fn frame_in_cycle(self) -> bool {
        0 < self.frames && self.frame < self.frames
    }

    /// An inactive animator over a cycle of `frames` frames, loop not
    /// started, at the first frame.
    pub fn new(frames: usize) -> (r: ConnectingAnimator)
        requires
            frames > 0,
        ensures
            r@ == (AnimatorView { active: false, spawned: false, frame: 0, frames: frames as nat }),
    {
        ConnectingAnimator { active: false, spawned: false, frame: 0, frames }
    }

    /// Whether the animation should currently run.
    pub fn is_active(&self) -> (r: bool)
        ensures
            r == self@.active,
    {
        self.active
    }

    /// Claim the single animation loop: true exactly on the first call (the
    /// caller starts the loop), false afterwards.
    pub fn spawn(&mut self) -> (r: bool)
        ensures
            r == !old(self)@.spawned,
            final(self)@ == (AnimatorView { spawned: true, ..old(self)@ }),
    {
        proof {
            use_type_invariant(&*self);
        }
        let first = !self.spawned;
        self.spawned = true;
        first
    }

    /// Turn the animation on or off; true iff that changed it (the caller
    /// then wakes the loop).
    pub fn set_active(&mut self, active: bool) -> (r: bool)
        ensures
            r == (old(self)@.active != active),
            final(self)@ == (AnimatorView { active, ..old(self)@ }),
    {
        proof {
            use_type_invariant(&*self);
        }
        let changed = self.active != active;
        self.active = active;
        changed
    }

    /// One turn of the loop: while active, paint the next frame and advance
    /// around the cycle; while inactive, rewind to the first frame and park.
    pub fn tick(&mut self) -> (r: AnimationStep)
        ensures
            old(self)@.active ==> r == AnimationStep::Paint(old(self)@.frame as usize)
                && final(self)@ == (AnimatorView {
                frame: (old(self)@.frame + 1) % old(self)@.frames,
                ..old(self)@
            }),
            !old(self)@.active ==> r == AnimationStep::Park && final(self)@ == (AnimatorView {
                frame: 0,
                ..old(self)@
            }),
            final(self)@.frame < final(self)@.frames,
    {
        proof {
            use_type_invariant(&*self);
        }
        if !self.active {
            self.frame = 0;
            return AnimationStep::Park;
        }
        let f = self.frame;
        proof {
            if f + 1 < self.frames {
                vstd::arithmetic::div_mod::lemma_small_mod((f + 1) as nat, self.frames as nat);
            } else {
                vstd::arithmetic::div_mod::lemma_mod_self_0(self.frames as int);
            }
        }
        self.frame = if f + 1 == self.frames {
            0
        } else {
            f + 1
        };
        AnimationStep::Paint(f)
    }
}

/// Starting from the first frame, `k` turns of an active animation paint
/// frames `0, 1, ...` around the cycle: the frame painted at turn `k` is
/// `k mod frames`.
pub open spec fn frame_after(k: nat, frames: nat) -> nat
    decreases k,
{
    if k == 0 {
        0
    } else {
        (frame_after((k - 1) as nat, frames) + 1) % frames
    }
}

/// The frame painted at turn `k` of an active animation started at the first
/// frame is `k mod frames`: the cycle never skips or repeats a frame.
pub proof fn law_frames_cycle(k: nat, frames: nat)
    requires
        frames > 0,
    ensures
        frame_after(k, frames) == k % frames,
    decreases k,
{
    if k > 0 {
        law_frames_cycle((k - 1) as nat, frames);
        let p = (k - 1) as nat;
        vstd::arithmetic::div_mod::lemma_add_mod_noop_right(1, p as int, frames as int);
        assert(frame_after(p, frames) == p % frames);
        assert(frame_after(k, frames) == (frame_after(p, frames) + 1) % frames);
        assert((1 + (p as int) % (frames as int)) % (frames as int) == (1 + p as int) % (
        frames as int));
        assert(k as int == 1 + p as int);
    } else {
        vstd::arithmetic::div_mod::lemma_small_mod(0, frames);
    }
}

} // verus!
