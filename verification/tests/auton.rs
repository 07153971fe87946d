use bot_control::auton::{score_discs, DiscScorer, ScoreCommand, SCORING_INDEXER_DURATION};
use bot_control::FlywheelReading;

const MS: u64 = 1000;

fn measured(velocity: i64, regulated: i64) -> FlywheelReading {
    FlywheelReading::Measured { velocity, regulated }
}

#[test]
fn scorer_starts_below_speed() {
    let scorer = DiscScorer::new(3_000_000);
    assert!(!scorer.at_speed());
    assert_eq!(scorer.speed_target(), 3_000_000);
    assert_eq!(SCORING_INDEXER_DURATION, 300_000);
}

#[test]
fn scoring_passes_on_a_regulator_answer_that_is_not_negative() {
    let mut scorer = DiscScorer::new(3_000_000);
    let command = score_discs(&mut scorer, measured(0, 11_500), 0);
    assert_eq!(command, ScoreCommand { flywheel_voltage: Some(11_500), indexer: None });
    let command = score_discs(&mut scorer, measured(10, 0), 50 * MS);
    assert_eq!(command.flywheel_voltage, Some(0));
    let command = score_discs(&mut scorer, measured(10, -1), 100 * MS);
    assert_eq!(command.flywheel_voltage, None);
}

#[test]
fn scoring_commands_zero_on_a_sensor_fault() {
    let mut scorer = DiscScorer::new(3_000_000);
    let command = score_discs(&mut scorer, FlywheelReading::Fault, 0);
    assert_eq!(command, ScoreCommand { flywheel_voltage: Some(0), indexer: None });
    assert!(!scorer.at_speed());
}

#[test]
fn scoring_leaves_the_piston_alone_until_at_speed() {
    let mut scorer = DiscScorer::new(3_000_000);
    for k in 0..50u64 {
        let command = score_discs(&mut scorer, measured(2_999_999, 12_000), k * 50 * MS);
        assert_eq!(command.indexer, None);
        assert!(!scorer.at_speed());
    }
}

#[test]
fn scoring_latch_outlasts_a_drop_in_velocity() {
    let mut scorer = DiscScorer::new(3_000_000);
    for k in 0..10u64 {
        score_discs(&mut scorer, measured(1_000_000, 12_000), k * 50 * MS);
    }
    let command = score_discs(&mut scorer, measured(3_000_000, 2_000), 500 * MS);
    assert_eq!(command, ScoreCommand { flywheel_voltage: Some(2_000), indexer: Some(false) });
    assert!(scorer.at_speed());
    let levels: Vec<Option<bool>> = (11..=22u64)
        .map(|k| score_discs(&mut scorer, measured(2_000_000, 12_000), k * 50 * MS).indexer)
        .collect();
    let expected: Vec<Option<bool>> = vec![
        Some(false),
        Some(false),
        Some(false),
        Some(false),
        Some(true),
        Some(false),
        Some(false),
        Some(false),
        Some(false),
        Some(false),
        Some(true),
        Some(false),
    ];
    assert_eq!(levels, expected);
    assert!(scorer.at_speed());
    let command = score_discs(&mut scorer, FlywheelReading::Fault, 1150 * MS);
    assert_eq!(command, ScoreCommand { flywheel_voltage: Some(0), indexer: Some(false) });
    assert!(scorer.at_speed());
}

#[test]
fn scoring_at_speed_from_the_start_pulses_once_per_window() {
    let mut scorer = DiscScorer::new(1);
    let first = score_discs(&mut scorer, measured(1, 0), 50 * MS);
    assert_eq!(first.indexer, Some(false));
    let extended = (2..=60u64)
        .filter(|k| score_discs(&mut scorer, measured(1, 0), k * 50 * MS).indexer == Some(true))
        .count();
    assert_eq!(extended as u64, 59 * 50 / 300);
}

#[test]
fn scoring_starts_retracted_however_late_its_first_tick() {
    for first in [0u64, 299 * MS, 300 * MS, 301 * MS, 5_000 * MS, u64::MAX - 400 * MS] {
        let mut scorer = DiscScorer::new(3_000_000);
        let command = score_discs(&mut scorer, measured(3_000_000, 100), first);
        assert_eq!(command, ScoreCommand { flywheel_voltage: Some(100), indexer: Some(false) });
        assert!(scorer.at_speed());
        for k in 1..6u64 {
            let command = score_discs(&mut scorer, measured(0, 100), first + k * 50 * MS);
            assert_eq!(command.indexer, Some(false));
        }
        let command = score_discs(&mut scorer, measured(0, 100), first + 300 * MS);
        assert_eq!(command.indexer, Some(true));
        let command = score_discs(&mut scorer, measured(0, 100), first + 350 * MS);
        assert_eq!(command.indexer, Some(false));
    }
}

#[test]
fn scoring_after_a_long_gap_below_speed_starts_retracted() {
    let mut scorer = DiscScorer::new(3_000_000);
    assert_eq!(score_discs(&mut scorer, measured(0, 100), 0).indexer, None);
    assert_eq!(score_discs(&mut scorer, measured(3_000_000, 100), 1_000 * MS).indexer, Some(false));
    assert_eq!(score_discs(&mut scorer, measured(0, 100), 1_299 * MS).indexer, Some(false));
    assert_eq!(score_discs(&mut scorer, measured(0, 100), 1_300 * MS).indexer, Some(true));
}

#[test]
fn scoring_one_window_after_the_last_tick_below_speed_starts_retracted() {
    let mut scorer = DiscScorer::new(3_000_000);
    assert_eq!(score_discs(&mut scorer, measured(0, 100), 100 * MS).indexer, None);
    assert_eq!(score_discs(&mut scorer, measured(3_000_000, 100), 400 * MS).indexer, Some(false));
    assert_eq!(score_discs(&mut scorer, measured(0, 100), 699 * MS).indexer, Some(false));
    assert_eq!(score_discs(&mut scorer, measured(0, 100), 700 * MS).indexer, Some(true));
}
