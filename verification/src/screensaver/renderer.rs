//! Playback state of a screensaver animation.

use super::animations::{Animation, SpinningClock};
use crate::calendar::clock_millis;
use vstd::prelude::*;

verus! {

/// Manages the playback of an animation: which frame is shown and when it was shown.
pub struct AnimationPlayer {
    animation: Box<dyn Animation>,
    /// Index of the frame being shown.
    pub current_frame: usize,
    /// Clock reading in milliseconds when the current frame was first shown.
    pub last_frame_time: u64,
}

/// Milliseconds from `start` to `now`; a clock reading earlier than `start` counts as
/// no time passed.
pub open spec fn elapsed_ms(now: u64, start: u64) -> int {
    if now >= start { now - start } else { 0 }
}

/// The frame that follows frame `index` in an animation with `count` frames, wrapping
/// around to the first one.
pub open spec fn next_frame(index: int, count: int) -> int {
    (index + 1) % count
}

/// The player `after` is `before` updated at the clock reading `now`: it plays the same
/// animation; once at least the frame delay has passed between the current frame's
/// time and `now` it shows the next frame (wrapping around), stamped with `now`, and
/// otherwise it is left as it was. A reading earlier than the frame's time counts as
/// no time passed.
pub open spec fn updated_at(before: AnimationPlayer, after: AnimationPlayer, now: u64) -> bool {
    &&& after.wf()
    &&& after.same_animation(&before)
    &&& if elapsed_ms(now, before.frame_time()) >= before.spec_delay() {
        &&& after.frame_index() == next_frame(before.frame_index() as int, before.frame_count() as int)
        &&& after.frame_time() == now
    } else {
        &&& after.frame_index() == before.frame_index()
        &&& after.frame_time() == before.frame_time()
    }
}

impl AnimationPlayer {
    /// Name of the animation being played.
    pub closed spec fn spec_name(&self) -> Seq<char> {
        self.animation.spec_name()
    }

    /// Frames of the animation being played.
    pub closed spec fn spec_frames(&self) -> Seq<&'static str> {
        self.animation.spec_frames()
    }

    /// Delay between frames of the animation being played.
    pub closed spec fn spec_delay(&self) -> u64 {
        self.animation.spec_frame_delay_ms()
    }

    /// Width of the animation being played.
    pub closed spec fn spec_width(&self) -> u16 {
        self.animation.spec_width()
    }

    /// Height of the animation being played.
    pub closed spec fn spec_height(&self) -> u16 {
        self.animation.spec_height()
    }

    /// Index of the frame being shown: the field `current_frame`.
    pub closed spec fn frame_index(&self) -> nat {
        self.current_frame as nat
    }

    /// Clock reading when the current frame was first shown: the field
    /// `last_frame_time`.
    pub closed spec fn frame_time(&self) -> u64 {
        self.last_frame_time
    }

    /// Number of frames of the animation.
    pub open spec fn frame_count(&self) -> nat {
        self.spec_frames().len()
    }

    /// The animation has frames and the frame index points at one of them.
    pub open spec fn wf(&self) -> bool {
        &&& self.frame_count() > 0
        &&& self.frame_index() < self.frame_count()
    }

    /// The player holds an animation with this name, frames, delay and size.
    pub open spec fn plays(&self, name: Seq<char>, frames: Seq<&'static str>, delay: u64, width: u16, height: u16) -> bool {
        &&& self.spec_name() == name
        &&& self.spec_frames() == frames
        &&& self.spec_delay() == delay
        &&& self.spec_width() == width
        &&& self.spec_height() == height
    }

    /// Both players play the same animation.
    pub open spec fn same_animation(&self, other: &AnimationPlayer) -> bool {
        &&& self.spec_name() == other.spec_name()
        &&& self.spec_frames() == other.spec_frames()
        &&& self.spec_delay() == other.spec_delay()
        &&& self.spec_width() == other.spec_width()
        &&& self.spec_height() == other.spec_height()
    }

    /// Creates a player for the animation in `slot`, which it takes out of the slot
    /// (leaving the spinning clock there); it starts at the first frame, shown at `now`.
    /// A boxed trait object handed over by value reaches the callee as a coerced copy
    /// that Verus knows nothing of, so the constructors below hand it over through a
    /// mutable reference and move it with a swap.
    pub(crate) fn take_from(slot: &mut Box<dyn Animation>, now: u64) -> (r: Self)
        ensures
            r.wf(),
            r.plays(old(slot).spec_name(), old(slot).spec_frames(), old(slot).spec_frame_delay_ms(), old(slot).spec_width(), old(slot).spec_height()),
            r.frame_index() == 0,
            r.frame_time() == now,
    {
        // Learns that the animation has frames.
        let _ = slot.frames();
        let mut r = AnimationPlayer { animation: Box::new(SpinningClock), current_frame: 0, last_frame_time: now };
        std::mem::swap(&mut r.animation, slot);
        r
    }

    /// Creates a player for `animation` that starts at its first frame, with `now`
    /// as the time that frame was shown.
    pub fn new_at(animation: Box<dyn Animation>, now: u64) -> (r: Self)
        ensures
            r.wf(),
            r.plays(animation.spec_name(), animation.spec_frames(), animation.spec_frame_delay_ms(), animation.spec_width(), animation.spec_height()),
            r.frame_index() == 0,
            r.frame_time() == now,
    {
        let mut animation = animation;
        Self::take_from(&mut animation, now)
    }

    /// Creates a new animation player with the given animation, starting at its first frame.
    pub fn new(animation: Box<dyn Animation>) -> (r: Self)
        ensures
            r.wf(),
            r.plays(animation.spec_name(), animation.spec_frames(), animation.spec_frame_delay_ms(), animation.spec_width(), animation.spec_height()),
            r.frame_index() == 0,
    {
        let mut animation = animation;
        let now = clock_millis();
        Self::take_from(&mut animation, now)
    }

    /// Advances to the next frame (wrapping around) once at least the frame delay has
    /// passed between the current frame's time and `now`; the advanced frame is stamped
    /// with `now`. A clock reading earlier than the frame's time counts as no time passed.
    pub fn update_at(&mut self, now: u64)
        requires
            old(self).wf(),
        ensures
            updated_at(*old(self), *final(self), now),
    {
        let elapsed: u64 = if now >= self.last_frame_time {
            now - self.last_frame_time
        } else {
            0
        };
        if elapsed >= self.animation.frame_delay_ms() {
            let count = self.animation.frames().len();
            self.current_frame = (self.current_frame + 1) % count;
            self.last_frame_time = now;
        }
    }

    /// Updates the animation state with the current clock reading.
    pub fn update(&mut self)
        requires
            old(self).wf(),
        ensures
            exists|now: u64| #[trigger] updated_at(*old(self), *final(self), now),
    {
        let now = clock_millis();
        self.update_at(now);
        assert(updated_at(*old(self), *self, now));
    }

    /// Returns the frame being shown.
    pub fn current_frame(&self) -> (r: &'static str)
        requires
            self.wf(),
        ensures
            r == self.spec_frames()[self.frame_index() as int],
    {
        let frames = self.animation.frames();
        frames[self.current_frame]
    }

    /// Returns the animation being played.
    pub fn animation(&self) -> (r: &Box<dyn Animation>)
        ensures
            r.spec_name() == self.spec_name(),
            r.spec_frames() == self.spec_frames(),
            r.spec_frame_delay_ms() == self.spec_delay(),
            r.spec_width() == self.spec_width(),
            r.spec_height() == self.spec_height(),
    {
        &self.animation
    }

    /// Returns the width of the animation in characters.
    pub fn width(&self) -> (r: u16)
        ensures
            r == self.spec_width(),
    {
        self.animation.width()
    }

    /// Returns the height of the animation in lines.
    pub fn height(&self) -> (r: u16)
        ensures
            r == self.spec_height(),
    {
        self.animation.height()
    }

    /// Resets the animation to the first frame, shown from `now` on.
    pub fn reset_at(&mut self, now: u64)
        ensures
            final(self).wf() == (old(self).frame_count() > 0),
            final(self).same_animation(old(self)),
            final(self).frame_index() == 0,
            final(self).frame_time() == now,
    {
        self.current_frame = 0;
        self.last_frame_time = now;
    }

    /// Resets the animation to the first frame.
    pub fn reset(&mut self)
        ensures
            final(self).wf() == (old(self).frame_count() > 0),
            final(self).same_animation(old(self)),
            final(self).frame_index() == 0,
    {
        let now = clock_millis();
        self.reset_at(now);
    }
}

/// Stepping through the frames of an animation with `count` frames comes back to the
/// frame one started from after exactly a multiple of `count` steps.
pub proof fn frames_cycle(start: int, count: int, steps: int)
    requires
        count > 0,
        0 <= start < count,
        steps >= 0,
    ensures
        ((start + steps) % count == start) <==> steps % count == 0,
{
    let q = steps / count;
    let m = steps % count;
    vstd::arithmetic::div_mod::lemma_fundamental_div_mod(steps, count);
    vstd::arithmetic::div_mod::lemma_mod_multiples_vanish(q, start + m, count);
    assert(start + steps == count * q + (start + m));
    if m == 0 {
        vstd::arithmetic::div_mod::lemma_small_mod(start as nat, count as nat);
    } else {
        if start + m < count {
            vstd::arithmetic::div_mod::lemma_small_mod((start + m) as nat, count as nat);
        } else {
            vstd::arithmetic::div_mod::lemma_mod_multiples_vanish(1, start + m - count, count);
            vstd::arithmetic::div_mod::lemma_small_mod((start + m - count) as nat, count as nat);
        }
    }
}

/// A fullscreen screensaver that shows one animation.
pub struct ScreensaverScreen {
    player: AnimationPlayer,
}

impl ScreensaverScreen {
    /// The player of the screen.
    pub closed spec fn spec_player(&self) -> AnimationPlayer {
        self.player
    }

    /// Creates a new screensaver screen playing `animation` from its first frame.
    pub fn new(animation: Box<dyn Animation>) -> (r: Self)
        ensures
            r.spec_player().wf(),
            r.spec_player().plays(animation.spec_name(), animation.spec_frames(), animation.spec_frame_delay_ms(), animation.spec_width(), animation.spec_height()),
            r.spec_player().frame_index() == 0,
    {
        let mut animation = animation;
        Self::take_from(&mut animation)
    }

    /// Creates a screensaver screen playing the animation in `slot` from its first
    /// frame; the animation is taken out of the slot, which is left with the spinning
    /// clock.
    pub(crate) fn take_from(slot: &mut Box<dyn Animation>) -> (r: Self)
        ensures
            r.spec_player().wf(),
            r.spec_player().plays(old(slot).spec_name(), old(slot).spec_frames(), old(slot).spec_frame_delay_ms(), old(slot).spec_width(), old(slot).spec_height()),
            r.spec_player().frame_index() == 0,
    {
        let now = clock_millis();
        ScreensaverScreen { player: AnimationPlayer::take_from(slot, now) }
    }

    /// Updates the animation state.
    pub fn update(&mut self)
        requires
            old(self).spec_player().wf(),
        ensures
            exists|now: u64| #[trigger] updated_at(old(self).spec_player(), final(self).spec_player(), now),
    {
        let ghost before = self.player;
        self.player.update();
        proof {
            let now = choose|now: u64| updated_at(before, self.player, now);
            assert(updated_at(old(self).spec_player(), self.spec_player(), now));
        }
    }

    /// Returns a reference to the animation player.
    pub fn player(&self) -> (r: &AnimationPlayer)
        ensures
            *r == self.spec_player(),
    {
        &self.player
    }

    /// Returns a mutable reference to the animation player.
    pub fn player_mut(&mut self) -> (r: &mut AnimationPlayer)
        ensures
            *r == old(self).spec_player(),
            final(self).spec_player() == *final(r),
    {
        &mut self.player
    }

    /// Replaces the animation, starting again at its first frame.
    pub fn set_animation(&mut self, animation: Box<dyn Animation>)
        ensures
            final(self).spec_player().wf(),
            final(self).spec_player().plays(animation.spec_name(), animation.spec_frames(), animation.spec_frame_delay_ms(), animation.spec_width(), animation.spec_height()),
            final(self).spec_player().frame_index() == 0,
    {
        let mut animation = animation;
        let now = clock_millis();
        self.player = AnimationPlayer::take_from(&mut animation, now);
    }
}

impl Default for ScreensaverScreen {
    /// A screensaver showing the spinning clock.
    fn default() -> (r: Self)
        ensures
            r.spec_player().wf(),
            r.spec_player().spec_name() == "Spinning Clock"@,
            r.spec_player().frame_index() == 0,
    {
        ScreensaverScreen::new(Box::new(SpinningClock))
    }
}

} // verus!
