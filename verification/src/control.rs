//! The control loop's decision core: a state-free step function from each
//! event the host shell observes to the next action it must perform.
//!
//! The shell owns the vehicle link and the detection engine; it waits on the
//! video channel, runs detection and issues rotation commands, and feeds
//! every outcome back here. All decisions stand in this module.

use vstd::prelude::*;
use crate::decoder::decode;
use crate::decoder::gray_decode;
use crate::decoder::gray_decode_valid;
use crate::decoder::DecodedImage;
use crate::estimator::estimate;
use crate::estimator::centroid;
use crate::estimator::BoundingBox;
use crate::planner::plan_wide;
use crate::planner::plan_direction;
use crate::planner::plan_magnitude;
use crate::planner::Direction;
use crate::planner::GAIN_DIVISOR;

verus! {

/// What the host shell must do next.
#[derive(Debug)]
pub enum LoopAction {
    /// Wait for the next frame on the video channel.
    AwaitFrame,
    /// Run face detection on this decoded luminance image, then hand the
    /// resulting boxes to `on_detections`.
    RunDetection(DecodedImage),
    /// Issue this rotation command to the vehicle, then report the outcome
    /// to `on_actuation`.
    Rotate(Direction, i32),
}

/// One more failure, saturating at the counter's top instead of wrapping.
pub open spec fn count_one_more(c: u64) -> u64 {
    if c == u64::MAX {
        c
    } else {
        (c + 1) as u64
    }
}

/// The controller: fixed frame geometry and diagnostic counters. No other
/// state persists across loop iterations.
pub struct ControlLoop {
    /// Width of the video frames in pixels; the steering error is measured
    /// against its horizontal centre.
    pub frame_width: u32,
    /// Frames dropped because their bytes did not decode.
    pub decode_failures: u64,
    /// Rotation commands the vehicle failed to take; each is dropped and
    /// the loop continues with the next frame.
    pub actuation_failures: u64,
}

impl ControlLoop {
    /// The frame width is positive and small enough that every offset from
    /// centre stays representable.
    pub open spec fn wf(self) -> bool {
        0 < self.frame_width <= i32::MAX as u32
    }

    /// A controller for frames of the given width, with clear counters.
    pub fn new(frame_width: u32) -> (r: ControlLoop)
        requires
            0 < frame_width <= i32::MAX as u32,
        ensures
            r.wf(),
            r == (ControlLoop { frame_width, decode_failures: 0u64, actuation_failures: 0u64 }),
    {
        ControlLoop { frame_width, decode_failures: 0, actuation_failures: 0 }
    }

    /// Decides on one receive from the video channel. An empty receive asks
    /// the shell to wait again. A buffer that does not decode is dropped,
    /// counted, and the shell waits for the next frame: no retry of the
    /// same bytes. A buffer that decodes goes on to detection unchanged.
    pub fn on_frame(&mut self, frame: &Option<Vec<u8>>) -> (a: LoopAction)
        requires
            old(self).wf(),
        ensures
            final(self).wf(),
            final(self).frame_width == old(self).frame_width,
            final(self).actuation_failures == old(self).actuation_failures,
            frame is None ==> (a matches LoopAction::AwaitFrame && *final(self) == *old(self)),
            frame matches Some(bytes) ==> ({
                &&& gray_decode_valid(bytes@) ==> (a matches LoopAction::RunDetection(img)
                    && img.wf() && gray_decode(bytes@) == Some(
                    (img.width, img.height, img.pixels@),
                ) && *final(self) == *old(self))
                &&& !gray_decode_valid(bytes@) ==> (a matches LoopAction::AwaitFrame
                    && final(self).decode_failures == count_one_more(old(self).decode_failures))
            }),
    {
        match frame {
            None => LoopAction::AwaitFrame,
            Some(bytes) => {
                match decode(bytes) {
                    Ok(img) => LoopAction::RunDetection(img),
                    Err(_) => {
                        if self.decode_failures < u64::MAX {
                            self.decode_failures = self.decode_failures + 1;
                        }
                        LoopAction::AwaitFrame
                    },
                }
            },
        }
    }

    /// Decides on the detections of one frame. No faces: the frame is
    /// dropped, nothing is planned, the shell waits again. Otherwise the
    /// steering target is the centroid of the boxes, and the planned
    /// rotation for the offset of the frame's horizontal centre from the
    /// target is issued.
    pub fn on_detections(&self, boxes: &Vec<BoundingBox>) -> (a: LoopAction)
        requires
            self.wf(),
        ensures
            boxes@.len() == 0 ==> a matches LoopAction::AwaitFrame,
            boxes@.len() > 0 ==> (centroid(boxes@) matches Some(t) && ({
                let delta = self.frame_width as int / 2 - t.0;
                a matches LoopAction::Rotate(d, m) && d == plan_direction(delta) && m
                    == plan_magnitude(delta) && m >= 0
            })),
    {
        match estimate(boxes) {
            None => LoopAction::AwaitFrame,
            Some((target_x, _target_y)) => {
                let half: u32 = self.frame_width / 2;
                let delta: i64 = (half as i64) - (target_x as i64);
                let (direction, magnitude) = plan_wide(delta);
                proof {
                    if delta >= 0 {
                        vstd::arithmetic::div_mod::lemma_div_pos_is_pos(
                            delta as int,
                            GAIN_DIVISOR as int,
                        );
                        vstd::arithmetic::div_mod::lemma_div_is_ordered(
                            delta as int,
                            0xC000_0000_0int,
                            GAIN_DIVISOR as int,
                        );
                    } else {
                        vstd::arithmetic::div_mod::lemma_div_pos_is_pos(
                            -(delta as int),
                            GAIN_DIVISOR as int,
                        );
                        vstd::arithmetic::div_mod::lemma_div_is_ordered(
                            -(delta as int),
                            0xC000_0000_0int,
                            GAIN_DIVISOR as int,
                        );
                    }
                }
                LoopAction::Rotate(direction, magnitude as i32)
            },
        }
    }

    /// Takes the outcome of one rotation command. Losing a single command
    /// is recoverable on the next frame, so the policy is to count the
    /// failure and continue — a failed actuation never ends the loop.
    pub fn on_actuation(&mut self, delivered: bool) -> (a: LoopAction)
        requires
            old(self).wf(),
        ensures
            final(self).wf(),
            a matches LoopAction::AwaitFrame,
            final(self).frame_width == old(self).frame_width,
            final(self).decode_failures == old(self).decode_failures,
            delivered ==> *final(self) == *old(self),
            !delivered ==> final(self).actuation_failures == count_one_more(
                old(self).actuation_failures,
            ),
    {
        if !delivered {
            if self.actuation_failures < u64::MAX {
                self.actuation_failures = self.actuation_failures + 1;
            }
        }
        LoopAction::AwaitFrame
    }
}

} // verus!
