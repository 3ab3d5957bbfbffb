//! Proportional mapping from a horizontal pixel offset to a signed rotation
//! command.

use vstd::prelude::*;

verus! {

/// Sense of rotation about the vehicle's vertical axis.
#[derive(Clone, Copy, PartialEq, Eq, Structural, Debug)]
pub enum Direction {
    ClockWise,
    CounterClockWise,
}

/// Denominator of the proportional gain: a pixel offset is attenuated to one
/// twentieth (gain 1/20) so that a single command never attempts a rotation
/// large enough to sweep the target out of the frame.
pub const GAIN_DIVISOR: u64 = 20;

/// Conversion from the planner's working angular unit (degrees) to the
/// vehicle's native unit (tenths of a degree).
pub const UNIT_SCALE: u64 = 10;

/// Integer division of `a` by `b` rounding toward zero, for `b > 0`.
pub open spec fn div_trunc(a: int, b: int) -> int
    recommends
        b > 0,
{
    if a >= 0 {
        a / b
    } else {
        -((-a) / b)
    }
}

/// Signed rotation, in native units, planned for the offset `delta`:
/// the offset attenuated by the gain (truncating toward zero), then scaled
/// to native units.
pub open spec fn plan_raw(delta: int) -> int {
    div_trunc(delta, GAIN_DIVISOR as int) * (UNIT_SCALE as int)
}

/// Direction planned for the offset `delta`: a non-positive signed rotation
/// turns counter-clockwise, a positive one clockwise.
pub open spec fn plan_direction(delta: int) -> Direction {
    if plan_raw(delta) <= 0 {
        Direction::CounterClockWise
    } else {
        Direction::ClockWise
    }
}

/// Magnitude, always non-negative, planned for the offset `delta`.
pub open spec fn plan_magnitude(delta: int) -> int {
    if plan_raw(delta) <= 0 {
        -plan_raw(delta)
    } else {
        plan_raw(delta)
    }
}

/// Division by the gain divisor, truncating toward zero, on a wide signed
/// offset.
fn div_gain(delta: i64) -> (q: i64)
    requires
        delta > i64::MIN,
    ensures
        q == div_trunc(delta as int, GAIN_DIVISOR as int),
{
    if delta >= 0 {
        ((delta as u64) / (GAIN_DIVISOR as u64)) as i64
    } else {
        let m: u64 = (-delta) as u64;
        -((m / (GAIN_DIVISOR as u64)) as i64)
    }
}

/// Plans a rotation for a wide offset, as `calc_rotation` does for an `i32`
/// one; the control loop forms offsets that can exceed the `i32` range.
pub(crate) fn plan_wide(delta: i64) -> (r: (Direction, i64))
    requires
        delta > i64::MIN,
    ensures
        r.0 == plan_direction(delta as int),
        r.1 == plan_magnitude(delta as int),
        r.1 >= 0,
{
    let q: i64 = div_gain(delta);
    proof {
        if delta >= 0 {
            vstd::arithmetic::div_mod::lemma_div_pos_is_pos(delta as int, GAIN_DIVISOR as int);
            vstd::arithmetic::div_mod::lemma_div_is_ordered(
                delta as int,
                i64::MAX as int,
                GAIN_DIVISOR as int,
            );
        } else {
            vstd::arithmetic::div_mod::lemma_div_pos_is_pos(-(delta as int), GAIN_DIVISOR as int);
            vstd::arithmetic::div_mod::lemma_div_is_ordered(
                -(delta as int),
                i64::MAX as int,
                GAIN_DIVISOR as int,
            );
        }
    }
    let raw: i64 = q * 10;
    if raw <= 0 {
        (Direction::CounterClockWise, -raw)
    } else {
        (Direction::ClockWise, raw)
    }
}

/// Maps the horizontal offset `delta_x` (frame centre minus target x) to a
/// rotation command: the offset is attenuated by the gain, truncating toward
/// zero, scaled to native units, and split into a direction and a
/// non-negative magnitude, a non-positive signed rotation going
/// counter-clockwise.
pub fn calc_rotation(delta_x: i32) -> (r: (Direction, i32))
    ensures
        r.0 == plan_direction(delta_x as int),
        r.1 == plan_magnitude(delta_x as int),
        r.1 >= 0,
{
    let (direction, magnitude) = plan_wide(delta_x as i64);
    proof {
        if delta_x >= 0 {
            vstd::arithmetic::div_mod::lemma_div_is_ordered(
                delta_x as int,
                i32::MAX as int,
                GAIN_DIVISOR as int,
            );
        } else {
            vstd::arithmetic::div_mod::lemma_div_is_ordered(
                -(delta_x as int),
                0x8000_0000int,
                GAIN_DIVISOR as int,
            );
        }
    }
    (direction, magnitude as i32)
}

/// For any offset of at least one full gain step to the positive side, the
/// planned command is clockwise, with magnitude exactly the gain-attenuated,
/// truncated offset in native units.
pub proof fn lemma_plan_positive(delta: int)
    requires
        delta >= GAIN_DIVISOR as int,
    ensures
        plan_direction(delta) == Direction::ClockWise,
        plan_magnitude(delta) == div_trunc(delta, GAIN_DIVISOR as int) * (UNIT_SCALE as int),
{
    vstd::arithmetic::div_mod::lemma_div_is_ordered(
        GAIN_DIVISOR as int,
        delta,
        GAIN_DIVISOR as int,
    );
    assert(GAIN_DIVISOR as int / (GAIN_DIVISOR as int) == 1);
}

/// For any negative offset, the planned command is counter-clockwise, with
/// magnitude the negation of the gain-attenuated, truncated offset in native
/// units; the magnitude is again non-negative.
pub proof fn lemma_plan_negative(delta: int)
    requires
        delta < 0,
    ensures
        plan_direction(delta) == Direction::CounterClockWise,
        plan_magnitude(delta) == -(div_trunc(delta, GAIN_DIVISOR as int) * (UNIT_SCALE as int)),
        plan_magnitude(delta) >= 0,
{
    vstd::arithmetic::div_mod::lemma_div_pos_is_pos(-delta, GAIN_DIVISOR as int);
}

/// The planned magnitude is non-negative for every offset.
pub proof fn lemma_plan_magnitude_nonneg(delta: int)
    ensures
        plan_magnitude(delta) >= 0,
{
}

} // verus!
