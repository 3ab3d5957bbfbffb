//! Tuning of the face-detection capability: fixed at startup, immutable for
//! the process lifetime.
//!
//! The detection engine itself is an external collaborator reached through a
//! trait object, which stays in the host shell around this library; the
//! shell applies this configuration to it once, at startup, and hands every
//! frame's detections back as plain bounding boxes.

use vstd::prelude::*;

verus! {

/// Detector tuning knobs. Fractional knobs are carried in hundredths so
/// that the configuration is exact integer data; the host shell converts
/// them to the engine's floating-point setters.
#[derive(Clone, Copy, PartialEq, Eq, Structural, Debug)]
pub struct DetectorConfig {
    /// Minimum face size in pixels on a side: smaller candidates are
    /// ignored. The engine constrains it to no smaller than 20.
    pub min_face_size: u32,
    /// Minimum confidence to report a candidate, in hundredths; the engine
    /// demands a positive threshold.
    pub score_thresh_centi: u32,
    /// Factor between adjacent scales of the engine's image pyramid, in
    /// hundredths; the engine accepts 0.01 through 0.99.
    pub pyramid_scale_centi: u32,
    /// Horizontal sliding-window step in pixels; must be positive.
    pub window_step_x: u32,
    /// Vertical sliding-window step in pixels; must be positive.
    pub window_step_y: u32,
}

impl DetectorConfig {
    /// The ranges the detection engine accepts without panicking.
    pub open spec fn wf(self) -> bool {
        &&& self.min_face_size >= 20
        &&& self.score_thresh_centi > 0
        &&& 1 <= self.pyramid_scale_centi <= 99
        &&& self.window_step_x > 0
        &&& self.window_step_y > 0
    }

    /// Validates the knobs against the engine's accepted ranges: a
    /// configuration comes out exactly when every knob is in range, and
    /// carries the given values unchanged.
    pub fn new(
        min_face_size: u32,
        score_thresh_centi: u32,
        pyramid_scale_centi: u32,
        window_step_x: u32,
        window_step_y: u32,
    ) -> (r: Option<DetectorConfig>)
        ensures
            r is Some <==> (min_face_size >= 20 && score_thresh_centi > 0 && 1
                <= pyramid_scale_centi <= 99 && window_step_x > 0 && window_step_y > 0),
            r matches Some(c) ==> c == (DetectorConfig {
                min_face_size,
                score_thresh_centi,
                pyramid_scale_centi,
                window_step_x,
                window_step_y,
            }) && c.wf(),
    {
        if min_face_size >= 20 && score_thresh_centi > 0 && 1 <= pyramid_scale_centi
            && pyramid_scale_centi <= 99 && window_step_x > 0 && window_step_y > 0 {
            Some(
                DetectorConfig {
                    min_face_size,
                    score_thresh_centi,
                    pyramid_scale_centi,
                    window_step_x,
                    window_step_y,
                },
            )
        } else {
            None
        }
    }

    /// The tuning this controller starts with: faces of at least 20 by 20
    /// pixels, to cut false positives from noise; score threshold 2.00;
    /// pyramid scale 0.80; sliding-window step 15 in both directions.
    pub fn recommended() -> (r: DetectorConfig)
        ensures
            r == (DetectorConfig {
                min_face_size: 20u32,
                score_thresh_centi: 200u32,
                pyramid_scale_centi: 80u32,
                window_step_x: 15u32,
                window_step_y: 15u32,
            }),
            r.wf(),
    {
        DetectorConfig {
            min_face_size: 20,
            score_thresh_centi: 200,
            pyramid_scale_centi: 80,
            window_step_x: 15,
            window_step_y: 15,
        }
    }
}

} // verus!
