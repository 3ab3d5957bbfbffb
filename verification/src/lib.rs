//! Core logic of a closed-loop visual servoing controller: it reduces the
//! faces detected in a video frame to a single target point and maps the
//! target's horizontal offset from the frame centre to a bounded rotation
//! command for a single-axis vehicle heading.

pub mod control;
pub mod decoder;
pub mod locator;
pub mod estimator;
pub mod planner;
