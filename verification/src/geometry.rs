//! The layout of the window: the panel in which the particle lives, the
//! clickable regions, and the test that decides whether a click lands in one.

use vstd::prelude::*;

verus! {

/// Units per pixel, and per whole of a visual attribute.
pub const UNIT: i32 = 1000;

/// Width of the window.
pub const WIDTH: i32 = 800 * UNIT;

/// Height of the window.
pub const HEIGHT: i32 = 800 * UNIT;

/// Left edge of the panel (inclusive).
pub const X_MIN: i32 = 355 * UNIT;

/// Right edge of the panel (exclusive for random draws).
pub const X_MAX: i32 = 445 * UNIT;

/// Top edge of the panel (inclusive).
pub const Y_MIN: i32 = 270 * UNIT;

/// Bottom edge of the panel. Fresh particles appear on this row.
pub const Y_MAX: i32 = 585 * UNIT;

/// Half the side of the square around the particle in which a click finds
/// it. The disc that shows a particle has a radius of less than four pixels,
/// so the square holds every disc with room to spare.
pub const PARTICLE_MARGIN: i32 = 5 * UNIT;

/// A point of the window.
#[derive(Clone, Copy, Debug, PartialEq, Eq, Structural)]
pub struct Position {
    pub x: i32,
    pub y: i32,
}

impl Position {
    /// The point lies in the panel: between its sides, the right one left
    /// out, and between its top and its bottom row, both included.
    pub open spec fn in_panel(self) -> bool {
        X_MIN <= self.x < X_MAX && Y_MIN <= self.y <= Y_MAX
    }

    /// The point is one that a spin can draw: in the panel, but not on its
    /// bottom row.
    pub open spec fn in_draw_area(self) -> bool {
        X_MIN <= self.x < X_MAX && Y_MIN <= self.y < Y_MAX
    }
}

/// What a click can land on.
#[derive(Clone, Copy, Debug, PartialEq, Eq, Structural)]
pub enum Target {
    Particle,
    Spin,
    Reset,
}

/// An axis-aligned rectangle given by its centre and half its extents. Its
/// border does not belong to it.
#[derive(Clone, Copy, Debug, PartialEq, Eq, Structural)]
pub struct HitRegion {
    pub anchor_x: i32,
    pub anchor_y: i32,
    pub half_width: i32,
    pub half_height: i32,
}

/// `probe` is strictly closer to `point` than `margin`.
pub open spec fn within_margin(point: int, probe: int, margin: int) -> bool {
    point - margin < probe < point + margin
}

impl HitRegion {
    /// The point `(x, y)` lies strictly inside the rectangle.
    pub open spec fn covers(self, x: int, y: int) -> bool {
        &&& within_margin(self.anchor_x as int, x, self.half_width as int)
        &&& within_margin(self.anchor_y as int, y, self.half_height as int)
    }

    /// Tests whether the point `(x, y)` lies strictly inside the rectangle.
    pub fn contains(&self, x: i32, y: i32) -> (hit: bool)
        ensures
            hit == self.covers(x as int, y as int),
    {
        check_coords(self.anchor_x, self.anchor_y, x, y, self.half_width, self.half_height)
    }
}

/// The square around a particle at `centre` in which a click finds it.
pub open spec fn particle_region(centre: Position) -> HitRegion {
    HitRegion {
        anchor_x: centre.x,
        anchor_y: centre.y,
        half_width: PARTICLE_MARGIN,
        half_height: PARTICLE_MARGIN,
    }
}

/// The spin button: 57 pixels wide and 28 high, its centre 263.5 pixels left
/// of the window's and 288 above it.
pub open spec fn spin_region() -> HitRegion {
    HitRegion { anchor_x: 136_500, anchor_y: 112_000, half_width: 28_500, half_height: 14_000 }
}

/// The reset button: 72 pixels wide and 28 high, its centre 151 pixels right
/// of the window's and 374 below it.
pub open spec fn reset_region() -> HitRegion {
    HitRegion { anchor_x: 551_000, anchor_y: 774_000, half_width: 36_000, half_height: 14_000 }
}

/// The region of each target, the particle's being centred on `particle`.
pub open spec fn region_of(target: Target, particle: Position) -> HitRegion {
    match target {
        Target::Particle => particle_region(particle),
        Target::Spin => spin_region(),
        Target::Reset => reset_region(),
    }
}

/// Looks up the region of `target`, the particle's being centred on
/// `particle`.
pub fn hit_region(target: Target, particle: Position) -> (region: HitRegion)
    ensures
        region == region_of(target, particle),
{
    match target {
        Target::Particle => HitRegion {
            anchor_x: particle.x,
            anchor_y: particle.y,
            half_width: PARTICLE_MARGIN,
            half_height: PARTICLE_MARGIN,
        },
        Target::Spin => HitRegion {
            anchor_x: 136_500,
            anchor_y: 112_000,
            half_width: 28_500,
            half_height: 14_000,
        },
        Target::Reset => HitRegion {
            anchor_x: 551_000,
            anchor_y: 774_000,
            half_width: 36_000,
            half_height: 14_000,
        },
    }
}

/// Tests whether the mouse is strictly within `margin_x` of `point_x` and
/// strictly within `margin_y` of `point_y`. A margin that is zero or negative
/// admits no point.
pub fn check_coords(
    point_x: i32,
    point_y: i32,
    mouse_x: i32,
    mouse_y: i32,
    margin_x: i32,
    margin_y: i32,
) -> (hit: bool)
    ensures
        hit == (within_margin(point_x as int, mouse_x as int, margin_x as int) && within_margin(
            point_y as int,
            mouse_y as int,
            margin_y as int,
        )),
{
    let lower_x: i64 = point_x as i64 - margin_x as i64;
    let upper_x: i64 = point_x as i64 + margin_x as i64;
    let lower_y: i64 = point_y as i64 - margin_y as i64;
    let upper_y: i64 = point_y as i64 + margin_y as i64;
    (mouse_x as i64) > lower_x && (mouse_x as i64) < upper_x && (mouse_y as i64) > lower_y && (
    mouse_y as i64) < upper_y
}

} // verus!
