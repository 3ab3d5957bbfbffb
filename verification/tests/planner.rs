use face_servo::planner::calc_rotation;
use face_servo::planner::Direction;

#[test]
fn plan_zero_offset_is_counter_clockwise_zero() {
    assert_eq!(calc_rotation(0), (Direction::CounterClockWise, 0));
}

#[test]
fn plan_positive_offset_is_clockwise() {
    // 640 / 20 = 32, scaled to native units: 320
    assert_eq!(calc_rotation(640), (Direction::ClockWise, 320));
}

#[test]
fn plan_negative_offset_is_counter_clockwise() {
    assert_eq!(calc_rotation(-640), (Direction::CounterClockWise, 320));
}

#[test]
fn plan_small_positive_offset_ties_to_counter_clockwise() {
    // 10 / 20 truncates to 0; a zero rotation goes counter-clockwise.
    assert_eq!(calc_rotation(10), (Direction::CounterClockWise, 0));
}

#[test]
fn plan_small_negative_offset_is_zero() {
    assert_eq!(calc_rotation(-19), (Direction::CounterClockWise, 0));
}

#[test]
fn plan_truncates_toward_zero() {
    // 39 / 20 truncates to 1; -39 / 20 truncates to -1.
    assert_eq!(calc_rotation(39), (Direction::ClockWise, 10));
    assert_eq!(calc_rotation(-39), (Direction::CounterClockWise, 10));
}

#[test]
fn plan_handles_extreme_offsets() {
    assert_eq!(calc_rotation(i32::MAX), (Direction::ClockWise, 1073741820));
    assert_eq!(calc_rotation(i32::MIN), (Direction::CounterClockWise, 1073741820));
}
