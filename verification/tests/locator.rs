use face_servo::locator::DetectorConfig;

#[test]
fn config_in_range_is_accepted_unchanged() {
    let config = DetectorConfig::new(20, 200, 80, 15, 15).unwrap();
    assert_eq!(config.min_face_size, 20);
    assert_eq!(config.score_thresh_centi, 200);
    assert_eq!(config.pyramid_scale_centi, 80);
    assert_eq!(config.window_step_x, 15);
    assert_eq!(config.window_step_y, 15);
}

#[test]
fn config_out_of_range_is_rejected() {
    // the engine accepts no face size under 20 pixels
    assert_eq!(DetectorConfig::new(19, 200, 80, 15, 15), None);
    // a zero score threshold is rejected
    assert_eq!(DetectorConfig::new(20, 0, 80, 15, 15), None);
    // the pyramid scale must stay within 0.01 through 0.99
    assert_eq!(DetectorConfig::new(20, 200, 0, 15, 15), None);
    assert_eq!(DetectorConfig::new(20, 200, 100, 15, 15), None);
    // sliding-window steps must be positive
    assert_eq!(DetectorConfig::new(20, 200, 80, 0, 15), None);
    assert_eq!(DetectorConfig::new(20, 200, 80, 15, 0), None);
}

#[test]
fn recommended_config_matches_the_startup_tuning() {
    let config = DetectorConfig::recommended();
    assert_eq!(config, DetectorConfig::new(20, 200, 80, 15, 15).unwrap());
}
