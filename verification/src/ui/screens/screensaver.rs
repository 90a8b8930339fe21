//! The screensaver screen: a random animation, drawn centred on the whole terminal.

use crate::calendar::clock_nanos;
use crate::screensaver::animations::builtin_names;
use crate::screensaver::animations::SpinningClock;
use crate::screensaver::{animation_for_seed, Animation, ScreensaverScreen};
use vstd::prelude::*;

verus! {

/// A rectangle of terminal cells.
#[derive(Debug, Clone, Copy, PartialEq, Eq, Structural)]
pub struct Area {
    /// Column of the left edge.
    pub x: u16,
    /// Row of the top edge.
    pub y: u16,
    /// Number of columns.
    pub width: u16,
    /// Number of rows.
    pub height: u16,
}

/// `a - b`, or 0 where `b` is larger.
pub open spec fn sat_sub(a: u16, b: u16) -> int {
    if a >= b { a - b } else { 0 }
}

/// Where an animation of `width` × `height` cells is drawn inside `area`: centred in
/// both directions (rounding towards the top left), and cut to the area's size.
pub open spec fn spec_centered(area: Area, width: u16, height: u16) -> Area {
    Area {
        x: (area.x + sat_sub(area.width, width) / 2) as u16,
        y: (area.y + sat_sub(area.height, height) / 2) as u16,
        width: if width < area.width { width } else { area.width },
        height: if height < area.height { height } else { area.height },
    }
}

/// The area in which an animation of `width` × `height` cells is drawn (see
/// `spec_centered`).
pub fn centered_area(area: Area, width: u16, height: u16) -> (r: Area)
    requires
        area.x + sat_sub(area.width, width) / 2 <= u16::MAX,
        area.y + sat_sub(area.height, height) / 2 <= u16::MAX,
    ensures
        r == spec_centered(area, width, height),
{
    let free_w: u16 = if area.width >= width { area.width - width } else { 0 };
    let free_h: u16 = if area.height >= height { area.height - height } else { 0 };
    Area {
        x: area.x + free_w / 2,
        y: area.y + free_h / 2,
        width: if width < area.width { width } else { area.width },
        height: if height < area.height { height } else { area.height },
    }
}

/// Creates a new screensaver screen with a random animation, at its first frame: the
/// built-in animation at position (clock reading in nanoseconds modulo 5), whose first
/// frame is not empty.
pub fn create_screensaver_screen() -> (r: ScreensaverScreen)
    ensures
        r.spec_player().wf(),
        r.spec_player().frame_index() == 0,
        exists|nanos: u128| r.spec_player().spec_name() == #[trigger] builtin_names()[(nanos % 5) as int],
        r.spec_player().spec_frames()[r.spec_player().frame_index() as int]@.len() > 0,
{
    let nanos = clock_nanos();
    let mut animation: Box<dyn Animation> = Box::new(SpinningClock);
    animation_for_seed(nanos, &mut animation);
    let r = ScreensaverScreen::take_from(&mut animation);
    assert(r.spec_player().spec_name() == builtin_names()[(nanos % 5) as int]);
    r
}

/// The centred area lies inside the terminal area it was computed for.
pub proof fn centered_area_fits(area: Area, width: u16, height: u16)
    requires
        area.x + area.width <= u16::MAX,
        area.y + area.height <= u16::MAX,
    ensures
        area.x <= spec_centered(area, width, height).x,
        spec_centered(area, width, height).x + spec_centered(area, width, height).width <= area.x + area.width,
        area.y <= spec_centered(area, width, height).y,
        spec_centered(area, width, height).y + spec_centered(area, width, height).height <= area.y + area.height,
{
}

} // verus!
