//! Reduction of the detected faces of one frame to a single steering
//! reference point.

use vstd::prelude::*;
use crate::planner::div_trunc;

verus! {

/// Axis-aligned rectangle marking a detected face's extent, in image pixel
/// coordinates with top-left origin.
#[derive(Clone, Copy, PartialEq, Eq, Structural, Debug)]
pub struct BoundingBox {
    pub x: i32,
    pub y: i32,
    pub width: u32,
    pub height: u32,
}

/// Sum of the top-left x coordinates of a sequence of boxes.
pub open spec fn sum_x(boxes: Seq<BoundingBox>) -> int
    decreases boxes.len(),
{
    if boxes.len() == 0 {
        0
    } else {
        sum_x(boxes.drop_last()) + boxes.last().x
    }
}

/// Sum of the top-left y coordinates of a sequence of boxes.
pub open spec fn sum_y(boxes: Seq<BoundingBox>) -> int
    decreases boxes.len(),
{
    if boxes.len() == 0 {
        0
    } else {
        sum_y(boxes.drop_last()) + boxes.last().y
    }
}

/// The target owed for `boxes`: nothing when no face was detected, else the
/// truncating integer mean of the top-left x and y coordinates
/// independently.
pub open spec fn centroid(boxes: Seq<BoundingBox>) -> Option<(int, int)> {
    if boxes.len() == 0 {
        None
    } else {
        Some(
            (
                div_trunc(sum_x(boxes), boxes.len() as int),
                div_trunc(sum_y(boxes), boxes.len() as int),
            ),
        )
    }
}

proof fn lemma_sum_take_step(s: Seq<BoundingBox>, i: int)
    requires
        0 <= i < s.len(),
    ensures
        sum_x(s.take(i + 1)) == sum_x(s.take(i)) + s[i].x,
        sum_y(s.take(i + 1)) == sum_y(s.take(i)) + s[i].y,
{
    assert(s.take(i + 1).drop_last() =~= s.take(i));
    assert(s.take(i + 1).last() == s[i]);
}

proof fn lemma_sum_bounds(s: Seq<BoundingBox>)
    ensures
        (i32::MIN as int) * s.len() <= sum_x(s) <= (i32::MAX as int) * s.len(),
        (i32::MIN as int) * s.len() <= sum_y(s) <= (i32::MAX as int) * s.len(),
    decreases s.len(),
{
    if s.len() > 0 {
        lemma_sum_bounds(s.drop_last());
    }
}

/// Division of a wide sum by a positive count, truncating toward zero.
fn div_count(a: i128, n: u128) -> (q: i128)
    requires
        n > 0,
        a > i128::MIN,
    ensures
        q == div_trunc(a as int, n as int),
{
    if a >= 0 {
        proof {
            vstd::arithmetic::div_mod::lemma_div_pos_is_pos(a as int, n as int);
            vstd::arithmetic::div_mod::lemma_div_nonincreasing(a as int, n as int);
        }
        ((a as u128) / n) as i128
    } else {
        let m: u128 = (-a) as u128;
        proof {
            vstd::arithmetic::div_mod::lemma_div_pos_is_pos(m as int, n as int);
            vstd::arithmetic::div_mod::lemma_div_nonincreasing(m as int, n as int);
        }
        -((m / n) as i128)
    }
}

/// Estimates the steering target for one frame: `None` when `boxes` is
/// empty, else the truncating integer mean of the boxes' top-left x and y
/// coordinates independently, so that the vehicle orients toward the
/// centroid of the whole group of faces.
pub fn estimate(boxes: &Vec<BoundingBox>) -> (r: Option<(i32, i32)>)
    ensures
        boxes@.len() == 0 ==> r is None,
        boxes@.len() > 0 ==> (r matches Some(t) && centroid(boxes@) == Some(
            (t.0 as int, t.1 as int),
        )),
{
    let n: usize = boxes.len();
    if n == 0 {
        return None;
    }
    let mut sx: i128 = 0;
    let mut sy: i128 = 0;
    let mut i: usize = 0;
    while i < n
        invariant
            n == boxes@.len(),
            0 < n <= usize::MAX,
            i <= n,
            sx == sum_x(boxes@.take(i as int)),
            sy == sum_y(boxes@.take(i as int)),
            (i32::MIN as int) * (i as int) <= sx <= (i32::MAX as int) * (i as int),
            (i32::MIN as int) * (i as int) <= sy <= (i32::MAX as int) * (i as int),
        decreases n - i,
    {
        let b = boxes[i];
        proof {
            lemma_sum_take_step(boxes@, i as int);
        }
        sx = sx + (b.x as i128);
        sy = sy + (b.y as i128);
        i = i + 1;
    }
    proof {
        assert(boxes@.take(n as int) =~= boxes@);
        lemma_sum_bounds(boxes@);
    }
    let mx: i128 = div_count(sx, n as u128);
    let my: i128 = div_count(sy, n as u128);
    proof {
        lemma_mean_in_coordinate_range(sx as int, n as int);
        lemma_mean_in_coordinate_range(sy as int, n as int);
    }
    Some((mx as i32, my as i32))
}

/// A truncating mean of values drawn from the signed 32-bit coordinate
/// range lies in that range itself.
proof fn lemma_mean_in_coordinate_range(s: int, n: int)
    requires
        n > 0,
        (i32::MIN as int) * n <= s <= (i32::MAX as int) * n,
    ensures
        i32::MIN as int <= div_trunc(s, n) <= i32::MAX as int,
{
    if s >= 0 {
        vstd::arithmetic::div_mod::lemma_div_pos_is_pos(s, n);
        vstd::arithmetic::div_mod::lemma_div_is_ordered(s, (i32::MAX as int) * n, n);
        vstd::arithmetic::div_mod::lemma_div_multiples_vanish(i32::MAX as int, n);
        assert((i32::MAX as int) * n == n * (i32::MAX as int));
    } else {
        vstd::arithmetic::div_mod::lemma_div_pos_is_pos(-s, n);
        vstd::arithmetic::div_mod::lemma_div_is_ordered(-s, (0x8000_0000) * n, n);
        vstd::arithmetic::div_mod::lemma_div_multiples_vanish(0x8000_0000, n);
        assert((0x8000_0000) * n == n * (0x8000_0000));
    }
}

} // verus!
