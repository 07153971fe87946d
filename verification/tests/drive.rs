use bot_control::controller::saturate;
use bot_control::drive_system::{DriveCommand, DriveMode, DRIVE_MAX_STEP};
use bot_control::{Controller, DriveSystem, DriverControlHandler, FlywheelReading, TickSnapshot};

fn sticks(left_y: i64, right_y: i64) -> Controller {
    Controller { left_y, right_y, ..Controller::neutral() }
}

fn tick(drive: &mut DriveSystem, controller: Controller) -> (i64, i64) {
    let snapshot = TickSnapshot { controller, now: 0, flywheel: FlywheelReading::Fault };
    let command = drive.driver_control_cycle(&snapshot);
    assert_eq!(command, drive.command());
    (command.left, command.right)
}

#[test]
fn saturate_cuts_off_at_full_scale() {
    assert_eq!(saturate(0), 0);
    assert_eq!(saturate(1000), 1000);
    assert_eq!(saturate(1001), 1000);
    assert_eq!(saturate(-1000), -1000);
    assert_eq!(saturate(-1001), -1000);
    assert_eq!(saturate(i64::MAX), 1000);
    assert_eq!(saturate(i64::MIN), -1000);
    assert_eq!(saturate(-37), -37);
}

#[test]
fn neutral_controller_touches_nothing() {
    let c = Controller::neutral();
    assert_eq!((c.left_x, c.left_y, c.right_x, c.right_y), (0, 0, 0, 0));
    assert!(!(c.l1 || c.l2 || c.r1 || c.r2));
    assert!(!(c.up || c.down || c.left || c.right));
    assert!(!(c.x || c.y || c.a || c.b));
}

#[test]
fn drive_starts_at_rest_and_forward() {
    let drive = DriveSystem::new();
    assert_eq!(drive.mode(), DriveMode::Forward);
    assert_eq!(drive.command(), DriveCommand { left: 0, right: 0 });
    assert_eq!(DRIVE_MAX_STEP, 400);
}

#[test]
fn drive_forward_follows_its_own_stick() {
    let mut drive = DriveSystem::new();
    assert_eq!(tick(&mut drive, sticks(500, -200)), (400, -200));
    assert_eq!(tick(&mut drive, sticks(500, -200)), (500, -200));
    assert_eq!(tick(&mut drive, sticks(500, -200)), (500, -200));
    assert_eq!(drive.mode(), DriveMode::Forward);
}

#[test]
fn drive_reversal_swaps_and_negates() {
    let mut drive = DriveSystem::new();
    tick(&mut drive, sticks(500, -200));
    tick(&mut drive, sticks(500, -200));
    let reversed = Controller { down: true, ..sticks(500, -200) };
    let command = tick(&mut drive, reversed);
    assert_eq!(command, (200, -500));
    assert_ne!(command, (-500, 200));
    assert_eq!(drive.mode(), DriveMode::Reversed);
    assert_eq!(tick(&mut drive, sticks(500, -200)), (200, -500));
}

#[test]
fn drive_reversal_from_rest_is_rate_limited() {
    let mut drive = DriveSystem::new();
    let reversed = Controller { down: true, ..sticks(500, -200) };
    assert_eq!(tick(&mut drive, reversed), (200, -400));
    assert_eq!(tick(&mut drive, sticks(500, -200)), (200, -500));
}

#[test]
fn drive_mode_is_sticky() {
    let mut drive = DriveSystem::new();
    tick(&mut drive, Controller { down: true, ..Controller::neutral() });
    assert_eq!(drive.mode(), DriveMode::Reversed);
    let other = Controller {
        l1: true,
        l2: true,
        r1: true,
        r2: true,
        up: true,
        left: true,
        right: true,
        x: true,
        y: true,
        a: true,
        left_x: 700,
        right_x: -700,
        ..Controller::neutral()
    };
    tick(&mut drive, other);
    tick(&mut drive, Controller::neutral());
    assert_eq!(drive.mode(), DriveMode::Reversed);
    tick(&mut drive, Controller { b: true, ..Controller::neutral() });
    assert_eq!(drive.mode(), DriveMode::Forward);
    tick(&mut drive, other);
    assert_eq!(drive.mode(), DriveMode::Forward);
}

#[test]
fn drive_reverse_button_wins_over_restore() {
    let mut drive = DriveSystem::new();
    tick(&mut drive, Controller { down: true, b: true, ..Controller::neutral() });
    assert_eq!(drive.mode(), DriveMode::Reversed);
    tick(&mut drive, Controller { down: true, b: true, ..Controller::neutral() });
    assert_eq!(drive.mode(), DriveMode::Reversed);
}

#[test]
fn drive_cannot_snap_direction_on_a_mode_switch() {
    let mut drive = DriveSystem::new();
    for _ in 0..3 {
        tick(&mut drive, sticks(1000, 1000));
    }
    assert_eq!(drive.command(), DriveCommand { left: 1000, right: 1000 });
    let reversed = Controller { down: true, ..sticks(1000, 1000) };
    assert_eq!(tick(&mut drive, reversed), (600, 600));
    assert_eq!(tick(&mut drive, sticks(1000, 1000)), (200, 200));
    assert_eq!(tick(&mut drive, sticks(1000, 1000)), (-200, -200));
    assert_eq!(tick(&mut drive, sticks(1000, 1000)), (-600, -600));
    assert_eq!(tick(&mut drive, sticks(1000, 1000)), (-1000, -1000));
    assert_eq!(tick(&mut drive, sticks(1000, 1000)), (-1000, -1000));
}

#[test]
fn drive_sides_are_limited_independently() {
    let mut drive = DriveSystem::new();
    assert_eq!(tick(&mut drive, sticks(1000, 100)), (400, 100));
    assert_eq!(tick(&mut drive, sticks(1000, -1000)), (800, -300));
    assert_eq!(tick(&mut drive, sticks(0, -1000)), (400, -700));
}

#[test]
fn drive_cuts_sticks_off_at_full_scale() {
    let mut drive = DriveSystem::new();
    for _ in 0..5 {
        tick(&mut drive, sticks(i64::MAX, i64::MIN));
    }
    assert_eq!(drive.command(), DriveCommand { left: 1000, right: -1000 });
    tick(&mut drive, Controller { down: true, ..sticks(i64::MAX, i64::MIN) });
    for _ in 0..5 {
        tick(&mut drive, sticks(i64::MAX, i64::MIN));
    }
    assert_eq!(drive.command(), DriveCommand { left: 1000, right: -1000 });
    for _ in 0..5 {
        tick(&mut drive, sticks(i64::MIN, i64::MIN));
    }
    assert_eq!(drive.command(), DriveCommand { left: 1000, right: 1000 });
}

#[test]
fn drive_initialize_changes_nothing() {
    let mut drive = DriveSystem::new();
    tick(&mut drive, Controller { down: true, ..sticks(300, -300) });
    let before = (drive.mode(), drive.command());
    drive.driver_control_initialize();
    assert_eq!((drive.mode(), drive.command()), before);
}
