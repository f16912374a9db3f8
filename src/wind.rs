//! Wind in the grass: grass sprites drift along their sprite sheet on a timer.
use vstd::prelude::*;

use crate::timer::Timer;

verus! {

/// Milliseconds between gusts.
pub const WIND_MILLIS: u64 = 200;

/// The repeating timer between gusts over a patch of grass.
#[derive(Clone, Copy, Debug, PartialEq, Eq, Hash, Structural)]
pub struct WindTimer(pub Timer);

impl Default for WindTimer {
    fn default() -> (r: WindTimer)
        ensures
            r.0 == Timer::new_spec(WIND_MILLIS, true),
    {
        WindTimer(Timer::new(WIND_MILLIS, true))
    }
}

/// Which way a gust pushes the grass.
#[derive(Clone, Copy, Debug, PartialEq, Eq, Hash, Structural)]
pub enum Gust {
    /// One frame further along the sheet.
    Forward,
    /// One frame back.
    Back,
    /// No change.
    Calm,
}

/// The frame after a gust, kept within `0..atlas_len`.
pub open spec fn gust_frame(sprite_index: usize, atlas_len: usize, gust: Gust) -> usize {
    match gust {
        Gust::Forward => if sprite_index + 1 < atlas_len - 1 { (sprite_index + 1) as usize } else { (atlas_len - 1) as usize },
        Gust::Back => if sprite_index > 0 { (sprite_index - 1) as usize } else { 0 },
        Gust::Calm => sprite_index,
    }
}

/// Advances the wind timer by `delta_millis`; when a gust is due, returns the grass sprite's
/// new frame for `gust`, else its frame unchanged.
pub fn animate_grass_system(timer: &mut WindTimer, sprite_index: usize, atlas_len: usize, gust: Gust, delta_millis: u64) -> (r: usize)
    requires
        atlas_len > 0,
    ensures
        final(timer).0 == old(timer).0.ticked(delta_millis),
        r == (if final(timer).0.finished { gust_frame(sprite_index, atlas_len, gust) } else { sprite_index }),
{
    timer.0.tick(delta_millis);
    if !timer.0.finished() {
        return sprite_index;
    }
    match gust {
        Gust::Forward => if sprite_index < atlas_len - 1 && sprite_index + 1 < atlas_len - 1 {
            sprite_index + 1
        } else {
            atlas_len - 1
        },
        Gust::Back => if sprite_index > 0 {
            sprite_index - 1
        } else {
            0
        },
        Gust::Calm => sprite_index,
    }
}

} // verus!
