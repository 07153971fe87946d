use bot_control::bot::{
    ActuatorCommands, LoopAction, LoopEvent, MotionCommand, AUTONOMOUS_TURN, TICK_PERIOD,
};
use bot_control::drive_system::DriveCommand;
use bot_control::shooter_system::ShooterCommand;
use bot_control::{Bot, Controller, FlywheelReading, TickSnapshot};

fn tick(bot: &mut Bot, controller: Controller, k: u64, flywheel: FlywheelReading) -> LoopAction {
    bot.opcontrol(&LoopEvent::Tick(TickSnapshot { controller, now: k * TICK_PERIOD, flywheel }))
}

fn commands(action: LoopAction) -> ActuatorCommands {
    match action {
        LoopAction::Actuate(commands) => commands,
        LoopAction::Exit => panic!("the loop left on a tick"),
    }
}

#[test]
fn tick_period_is_fifty_milliseconds() {
    assert_eq!(TICK_PERIOD, 50_000);
}

#[test]
fn autonomous_is_a_quarter_turn() {
    let bot = Bot::new();
    assert_eq!(bot.autonomous(), MotionCommand::RotateAngle { millidegrees: -90_000 });
    assert_eq!(AUTONOMOUS_TURN, -90_000);
}

#[test]
fn idle_tick_commands_everything_off() {
    let mut bot = Bot::new();
    assert!(bot.is_running());
    let action = tick(&mut bot, Controller::neutral(), 0, FlywheelReading::Fault);
    let expected = ActuatorCommands {
        drive: DriveCommand { left: 0, right: 0 },
        intake: 0,
        shooter: ShooterCommand { flywheel_voltage: 0, indexer: false },
        expansion: false,
    };
    assert_eq!(action, LoopAction::Actuate(expected));
    assert!(bot.is_running());
}

#[test]
fn every_sub_controller_sees_the_same_snapshot() {
    let mut bot = Bot::new();
    let controller = Controller {
        left_y: 500,
        right_y: -200,
        l2: true,
        r1: true,
        r2: true,
        ..Controller::neutral()
    };
    let reading = FlywheelReading::Measured { velocity: 360_000, regulated: 4_200 };
    let first = commands(tick(&mut bot, controller, 1, reading));
    let expected = ActuatorCommands {
        drive: DriveCommand { left: 400, right: -200 },
        intake: -1000,
        shooter: ShooterCommand { flywheel_voltage: 4_200, indexer: false },
        expansion: false,
    };
    assert_eq!(first, expected);
}

#[test]
fn session_runs_a_whole_scenario() {
    let mut bot = Bot::new();
    tick(&mut bot, Controller::neutral(), 0, FlywheelReading::Fault);
    let feeding = Controller { r1: true, r2: true, left_y: 1000, ..Controller::neutral() };
    let reading = FlywheelReading::Measured { velocity: 400_000, regulated: 6_000 };
    let seen: Vec<ActuatorCommands> =
        (1..=10u64).map(|k| commands(tick(&mut bot, feeding, k, reading))).collect();
    let extended: Vec<bool> = seen.iter().map(|c| c.shooter.indexer).collect();
    assert_eq!(
        extended,
        vec![false, false, false, false, false, false, false, false, false, true]
    );
    let left: Vec<i64> = seen.iter().map(|c| c.drive.left).collect();
    assert_eq!(left, vec![400, 800, 1000, 1000, 1000, 1000, 1000, 1000, 1000, 1000]);
    assert!(seen.iter().all(|c| c.shooter.flywheel_voltage == 6_000));
    assert!(seen.iter().all(|c| c.intake == 0 && !c.expansion && c.drive.right == 0));
    let trigger =
        Controller { down: true, right: true, y: true, b: true, ..Controller::neutral() };
    let fired = commands(tick(&mut bot, trigger, 11, FlywheelReading::Fault));
    assert!(fired.expansion);
    assert_eq!(fired.shooter, ShooterCommand { flywheel_voltage: 0, indexer: false });
    assert_eq!(fired.drive, DriveCommand { left: 600, right: 0 });
    let after = commands(tick(&mut bot, Controller::neutral(), 12, FlywheelReading::Fault));
    assert!(after.expansion);
    assert_eq!(after.drive, DriveCommand { left: 200, right: 0 });
}

#[test]
fn cancellation_ends_the_session() {
    let mut bot = Bot::new();
    tick(&mut bot, Controller::neutral(), 0, FlywheelReading::Fault);
    assert_eq!(bot.opcontrol(&LoopEvent::Cancelled), LoopAction::Exit);
    assert!(!bot.is_running());
    let held = Controller { l1: true, left_y: 1000, ..Controller::neutral() };
    for k in 1..5u64 {
        assert_eq!(tick(&mut bot, held, k, FlywheelReading::Fault), LoopAction::Exit);
        assert!(!bot.is_running());
    }
    assert_eq!(bot.opcontrol(&LoopEvent::Cancelled), LoopAction::Exit);
}

#[test]
fn cancellation_before_the_first_tick_commands_nothing() {
    let mut bot = Bot::new();
    assert_eq!(bot.opcontrol(&LoopEvent::Cancelled), LoopAction::Exit);
    assert_eq!(tick(&mut bot, Controller::neutral(), 1, FlywheelReading::Fault), LoopAction::Exit);
}
