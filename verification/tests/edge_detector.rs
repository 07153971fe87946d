use bot_control::utils::EdgeDetector;

#[test]
fn edge_detector_starts_released() {
    let d = EdgeDetector::new();
    assert!(!d.previous());
}

#[test]
fn edge_detector_pulses_once_for_a_held_press() {
    let mut d = EdgeDetector::new();
    assert!(d.test(true));
    assert!(!d.test(true));
    assert!(!d.test(true));
    assert!(d.previous());
}

#[test]
fn edge_detector_is_armed_again_by_one_released_reading() {
    let mut d = EdgeDetector::new();
    assert!(d.test(true));
    assert!(!d.test(false));
    assert!(!d.previous());
    assert!(d.test(true));
}

#[test]
fn edge_detector_answers_only_false_to_true() {
    let readings = [false, false, true, true, false, true, false, false, true, true, true];
    let expected = [false, false, true, false, false, true, false, false, true, false, false];
    let mut d = EdgeDetector::new();
    for (reading, pulse) in readings.iter().zip(expected.iter()) {
        assert_eq!(d.test(*reading), *pulse);
        assert_eq!(d.previous(), *reading);
    }
}

#[test]
fn edge_detector_never_pulses_while_released() {
    let mut d = EdgeDetector::new();
    for _ in 0..5 {
        assert!(!d.test(false));
    }
}
