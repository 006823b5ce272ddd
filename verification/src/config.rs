//! Fixed numeric configuration and the units in which quantities are counted.
//!
//! Time is counted in units of which a second holds [`TIME_UNITS_PER_SECOND`],
//! chosen so that one fixed step is a whole number of them. A velocity counts
//! thousandths of a world unit per second, and a position counts the distance
//! covered at velocity one during one time unit, so that `velocity * dt` is
//! exact. Angles count millionths of a radian.

use vstd::prelude::*;

verus! {

/// Whether the scene is drawn as a wireframe.
pub const WIREFRAME_MODE: bool = false;

/// Time units in one second.
pub const TIME_UNITS_PER_SECOND: u64 = 3_000_000;

/// Velocity counts in one world unit per second.
pub const VELOCITY_SCALE: i64 = 1_000;

/// Position counts in one world unit.
pub const POSITION_SCALE: i64 = 3_000_000_000;

/// Angle counts in one radian.
pub const ANGLE_SCALE: i64 = 1_000_000;

/// Cursor counts in one pixel.
pub const CURSOR_SCALE: i64 = 1_000;

/// Length of a unit direction vector.
pub const DIRECTION_SCALE: i64 = 100_000_000;

/// Counts in one for the plain numbers handed to the shaders.
pub const UNIFORM_SCALE: i32 = 1_000;

/// The camera look speed: angle counts per cursor count, a thousandth of a
/// radian per pixel.
pub const CAM_LOOK_SPEED: i64 = 1;

/// The camera fly speed: position counts per count of the forward vector, a
/// tenth of a world unit per frame along a unit vector.
pub const CAM_FLY_SPEED: i64 = 3;

/// The width of the window.
pub const WINDOW_WIDTH: u32 = 1024 * 2;

/// The height of the window.
pub const WINDOW_HEIGHT: u32 = 768 * 2;

/// The fixed update frequency, in steps per second.
pub const FIXED_UPDATE: u64 = 30;

/// The fixed update target time, in time units.
pub const FIXED_UPDATE_TIME: u64 = 100_000;

/// The render width.
pub const RENDER_WIDTH: i32 = 320;

/// The render height.
pub const RENDER_HEIGHT: i32 = 240;

/// The render aspect ratio, as numerator and denominator.
pub const RENDER_ASPECT: (u32, u32) = (4, 3);

/// The fog color, the same in each channel, in thousandths.
pub const FOG_COLOR: i32 = 50;

/// Where the fog starts and where it is complete, in thousandths of a world
/// unit.
pub const FOG_DIST: (i32, i32) = (7_500, 15_000);

/// The vertical field of view, in degrees.
pub const FIELD_OF_VIEW: i32 = 60;

/// The near and far clipping planes, in thousandths of a world unit.
pub const CLIP_PLANES: (i32, i32) = (10, 20_000);

/// The units fit together: a fixed step is a whole number of time units, a
/// position count is a velocity count held for one time unit, and the camera
/// speeds are the thousandth of a radian per pixel and the tenth of a world
/// unit that they are named for.
pub proof fn lemma_units()
    ensures
        FIXED_UPDATE_TIME * FIXED_UPDATE == TIME_UNITS_PER_SECOND,
        POSITION_SCALE == VELOCITY_SCALE * TIME_UNITS_PER_SECOND,
        CAM_LOOK_SPEED * CURSOR_SCALE * 1_000 == ANGLE_SCALE,
        CAM_FLY_SPEED * DIRECTION_SCALE * 10 == POSITION_SCALE,
        WINDOW_WIDTH == 2048,
        WINDOW_HEIGHT == 1536,
{
}

} // verus!
