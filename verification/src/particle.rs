//! The particle's looks: three fractions that are drawn afresh whenever a new
//! particle appears.

use crate::geometry::UNIT;
use crate::random::rand_fraction;
use vstd::prelude::*;

verus! {

/// The opacity with which a fully transparent particle is still drawn.
pub const ALPHA_FLOOR: i32 = 300;

/// The visual attributes of the current particle, each a fraction of the
/// whole in thousandths.
#[derive(Clone, Copy, Debug, PartialEq, Eq, Structural)]
pub struct Particle {
    pub hue: i32,
    pub size: i32,
    pub opacity: i32,
}

impl Particle {
    /// Every attribute is a proper fraction: at least zero, less than one
    /// whole.
    pub open spec fn wf(self) -> bool {
        &&& 0 <= self.hue < UNIT
        &&& 0 <= self.size < UNIT
        &&& 0 <= self.opacity < UNIT
    }

    /// Tests whether every attribute is a proper fraction.
    pub fn is_wf(&self) -> (ok: bool)
        ensures
            ok == self.wf(),
    {
        0 <= self.hue && self.hue < UNIT && 0 <= self.size && self.size < UNIT && 0
            <= self.opacity && self.opacity < UNIT
    }

    /// The radius of the disc that shows the particle: one pixel, and three
    /// more for a particle of full size.
    pub fn radius(&self) -> (radius: i32)
        requires
            self.wf(),
        ensures
            radius == 3 * self.size + UNIT,
            UNIT <= radius < 4 * UNIT,
    {
        3 * self.size + UNIT
    }

    /// The opacity with which the particle is drawn: half its own, rounded
    /// down to a thousandth, above a floor of three tenths.
    pub fn alpha(&self) -> (alpha: i32)
        requires
            self.wf(),
        ensures
            alpha == self.opacity / 2 + ALPHA_FLOOR,
            ALPHA_FLOOR <= alpha < UNIT,
    {
        self.opacity / 2 + ALPHA_FLOOR
    }
}

/// Draws the looks of a new particle: hue, size and opacity, in this order.
pub fn new_particle() -> (particle: Particle)
    ensures
        particle.wf(),
{
    let hue: i32 = rand_fraction();
    let size: i32 = rand_fraction();
    let opacity: i32 = rand_fraction();
    Particle { hue, size, opacity }
}

} // verus!
