//! The random draws of the game. All of them go through one call into the
//! `rand` crate; the rest of the library only relies on the range of a draw.

use crate::geometry::{Position, UNIT};
use rand::Rng;
use vstd::prelude::*;

verus! {

/// Calls `rand::thread_rng()` and, on the generator it returns,
/// `Rng::gen_range(low..high)`.
///
/// Trusted, not proved: for integers `gen_range` returns a value of the
/// half-open range it is given and panics on an empty range, which the
/// precondition leaves out. Which value comes back is up to the generator, so
/// nothing else is claimed, and two calls may differ. The generator takes its
/// seed from the operating system, on a thread's first draw and again
/// whenever it reseeds itself, and either time it panics if the system has
/// no randomness to give. No precondition can leave that out.
#[verifier::external_body]
fn uniform(low: i32, high: i32) -> (drawn: i32)
    requires
        low < high,
    ensures
        low <= drawn < high,
{
    rand::thread_rng().gen_range(low..high)
}

/// Draws a coordinate from `x_min..x_max`.
pub fn rand_coord_gen_low(x_min: i32, x_max: i32) -> (x: i32)
    requires
        x_min < x_max,
    ensures
        x_min <= x < x_max,
{
    uniform(x_min, x_max)
}

/// Draws a point whose coordinates come from `x_min..x_max` and
/// `y_min..y_max`, the horizontal one first.
pub fn rand_coord_gen(x_min: i32, x_max: i32, y_min: i32, y_max: i32) -> (point: Position)
    requires
        x_min < x_max,
        y_min < y_max,
    ensures
        x_min <= point.x < x_max,
        y_min <= point.y < y_max,
{
    let x_pos: i32 = uniform(x_min, x_max);
    let y_pos: i32 = uniform(y_min, y_max);
    Position { x: x_pos, y: y_pos }
}

/// Draws a fraction of the whole: a number of thousandths from zero up to,
/// but not including, one whole.
pub fn rand_fraction() -> (fraction: i32)
    ensures
        0 <= fraction < UNIT,
{
    uniform(0, UNIT)
}

} // verus!
