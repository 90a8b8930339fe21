//! Screensaver: ASCII animations that take over the screen after a period of
//! inactivity.

pub mod animations;
pub mod renderer;

pub use animations::{Animation, BouncingBox, LoadingSpinner, MatrixRain, SpinningClock, WavingText};
pub use renderer::{AnimationPlayer, ScreensaverScreen};

use crate::calendar::clock_nanos;
use animations::builtin_names;
use vstd::prelude::*;

verus! {

/// Position among the built-in animations that a clock reading of `nanos` picks: the
/// reading modulo 5.
pub fn animation_index_for_seed(nanos: u128) -> (r: usize)
    ensures
        r == nanos % 5,
        r < 5,
{
    (nanos % 5) as usize
}

/// Puts into `slot` the built-in animation that a clock reading of `nanos` picks: the
/// one at position (`nanos` modulo 5) of `all_animations`. It has frames, the first of
/// them not empty, a positive frame delay and a positive size.
pub fn animation_for_seed(nanos: u128, slot: &mut Box<dyn Animation>)
    ensures
        final(slot).spec_name() == builtin_names()[(nanos % 5) as int],
        final(slot).spec_frames().len() > 0,
        final(slot).spec_frames()[0]@.len() > 0,
        final(slot).spec_frame_delay_ms() > 0,
        final(slot).spec_width() > 0,
        final(slot).spec_height() > 0,
{
    let index = animation_index_for_seed(nanos);
    if index == 0 {
        *slot = Box::new(SpinningClock);
        proof {
            reveal_strlit("🕐");
        }
    } else if index == 1 {
        *slot = Box::new(BouncingBox);
        proof {
            reveal_strlit(r"┌─────────────┐
│             │
│   ┌───┐     │
│   │ ■ │     │
│   └───┘     │
│             │
└─────────────┘");
        }
    } else if index == 2 {
        *slot = Box::new(MatrixRain);
        proof {
            reveal_strlit(r"  1   0     1  
    0   1     0
  1       0    
      1       1
0       1      
    1       0  
        0   1  
  1   1        ");
        }
    } else if index == 3 {
        *slot = Box::new(LoadingSpinner);
        proof {
            reveal_strlit(r"╔════════════╗
║ ⠋ Loading  ║
╚════════════╝");
        }
    } else {
        *slot = Box::new(WavingText);
        proof {
            reveal_strlit(r"╔═══════════════════════╗
║                       ║
║ Schließfach-Manager   ║
║                       ║
╚═══════════════════════╝");
        }
    }
}

/// Returns a pseudo-random built-in animation, chosen by the system clock: the one that
/// `animation_for_seed` puts in place for the clock reading in nanoseconds. Verus
/// refuses a `requires` or `ensures` on a function whose result is a boxed trait
/// object, so what is returned is stated on `animation_for_seed`, which does the
/// choosing.
pub fn get_random_animation() -> Box<dyn Animation> {
    let mut animation: Box<dyn Animation> = Box::new(SpinningClock);
    animation_for_seed(clock_nanos(), &mut animation);
    animation
}

} // verus!
