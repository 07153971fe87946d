use bot_control::utils::Dampener;

#[test]
fn dampener_starts_at_rest() {
    let d = Dampener::new(400);
    assert_eq!(d.current(), 0);
    assert_eq!(d.max_step(), 400);
}

#[test]
fn dampener_moves_by_at_most_one_step() {
    let mut d = Dampener::new(400);
    assert_eq!(d.advance(1000), 400);
    assert_eq!(d.current(), 400);
    assert_eq!(d.advance(1000), 800);
    assert_eq!(d.advance(1000), 1000);
    assert_eq!(d.advance(1000), 1000);
    assert_eq!(d.max_step(), 400);
}

#[test]
fn dampener_moves_down_as_well_as_up() {
    let mut d = Dampener::new(400);
    d.advance(1000);
    d.advance(1000);
    d.advance(1000);
    let seen: Vec<i64> = (0..6).map(|_| d.advance(-1000)).collect();
    assert_eq!(seen, vec![600, 200, -200, -600, -1000, -1000]);
}

#[test]
fn dampener_snaps_to_a_target_within_one_step() {
    let mut d = Dampener::new(400);
    assert_eq!(d.advance(399), 399);
    let mut d = Dampener::new(400);
    assert_eq!(d.advance(400), 400);
    let mut d = Dampener::new(400);
    assert_eq!(d.advance(401), 400);
    assert_eq!(d.advance(401), 401);
    let mut d = Dampener::new(400);
    assert_eq!(d.advance(-399), -399);
    assert_eq!(d.advance(-800), -799);
}

#[test]
fn dampener_step_is_bounded_for_a_changing_target() {
    let targets: [i64; 8] = [1000, -1000, 250, 251, -7, 9000, -9000, 0];
    let mut d = Dampener::new(300);
    let mut previous = d.current();
    for target in targets {
        let next = d.advance(target);
        assert!((next - previous).abs() <= 300);
        if (target - previous).abs() <= 300 {
            assert_eq!(next, target);
        } else {
            assert_ne!(next, target);
            assert_eq!((target - next).abs(), (target - previous).abs() - 300);
        }
        previous = next;
    }
}

#[test]
fn dampener_converges_monotonically_to_a_held_target() {
    let mut d = Dampener::new(7);
    let mut previous_gap: i64 = 100;
    for step in 1..=20i64 {
        let current = d.advance(100);
        let gap = 100 - current;
        assert!(gap <= previous_gap);
        assert_eq!(gap, (100 - 7 * step).max(0));
        previous_gap = gap;
    }
    assert_eq!(d.current(), 100);
}

#[test]
fn dampener_with_no_step_never_moves() {
    let mut d = Dampener::new(0);
    assert_eq!(d.advance(5), 0);
    assert_eq!(d.advance(-5), 0);
    assert_eq!(d.advance(0), 0);
}

#[test]
fn dampener_spans_the_whole_range() {
    let mut d = Dampener::new(u64::MAX);
    assert_eq!(d.advance(i64::MAX), i64::MAX);
    assert_eq!(d.advance(i64::MIN), i64::MIN);
    assert_eq!(d.advance(i64::MAX), i64::MAX);
    let mut d = Dampener::new(1);
    assert_eq!(d.advance(i64::MIN), -1);
    assert_eq!(d.advance(i64::MAX), 0);
    let mut d = Dampener::new(i64::MAX as u64);
    assert_eq!(d.advance(i64::MIN), -i64::MAX);
    assert_eq!(d.advance(i64::MIN), i64::MIN);
    assert_eq!(d.advance(i64::MAX), -1);
}
