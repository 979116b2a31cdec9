//! Commands of the terminal application and what comes of them.

use robstride_sandbox::bilateral::BilateralMethod;
use robstride_sandbox::cli::{run_robstride_command, MotorCommand, Step};
use robstride_sandbox::driver::{DamiaoModel, MotorSpec};
use robstride_sandbox::protocol::{MotorFeedback, MotorModel, MotorStatusBits, ParamIndex, RunMode};
use robstride_sandbox::text::split_words;
use robstride_sandbox::tui::commands::{
    parse_motor_kind, parse_param_name, parse_run_mode, scan_countable, scan_range, Job,
    MitValues, Number, DEFAULT_SPEED,
};
use robstride_sandbox::tui::config::AppConfig;
use robstride_sandbox::tui::fields::{params_for_command, Command, MOTOR_KIND_CHOICES};
use robstride_sandbox::tui::outcomes::{motion_steps, Motion, Shown};
use robstride_sandbox::tui::session::{
    chrono_like_timestamp, help_lines, parse_args, AssistShown, BilateralShown,
};
use robstride_sandbox::tui::state::{App, LOG_MAX};

const NOW: &str = "12:00:00.000";

fn app() -> App {
    App::new("can0", 0xFD, MotorModel::Rs05, AppConfig::new())
}

fn rs(id: u8) -> MotorSpec {
    MotorSpec::robstride(0xFD, id, MotorModel::Rs05)
}

fn dm(id: u8) -> MotorSpec {
    MotorSpec::damiao(id, 0, DamiaoModel::DmJ4310)
}

fn with_motor(motor: MotorSpec) -> App {
    let mut app = app();
    app.insert_motor(motor, None);
    app
}

fn numbers(input: &str) -> Vec<Number> {
    split_words(input)
        .iter()
        .map(|w| Number {
            single: w.parse::<f32>().ok().map(f32::to_bits),
            double: w.parse::<f64>().ok().map(f64::to_bits),
            bare: w.trim_start_matches('+').parse::<f64>().ok().map(f64::to_bits),
        })
        .collect()
}

fn run(app: &mut App, command: Command, input: &str) -> Job {
    app.try_command(command, input, &numbers(input), NOW).unwrap()
}

fn last(app: &App) -> &str {
    app.log.last().unwrap().strip_prefix("[12:00:00.000] ").unwrap()
}

fn feedback() -> MotorFeedback {
    MotorFeedback {
        motor_id: 5,
        position: 1,
        velocity: 2,
        torque: 3,
        temperature: 4,
        status: MotorStatusBits { mode: 2, ..MotorStatusBits::default() },
    }
}

fn shown() -> Shown {
    let text = |s: &str| s.to_string();
    Shown { position: text("1.000"), velocity: text("2.000"), torque: text("3.000"), temperature: text("4.0") }
}

#[test]
fn names_of_parameters_and_modes() {
    assert_eq!(parse_param_name("Mech_Pos"), Some(ParamIndex::MechPos));
    assert_eq!(parse_param_name("iq_ref"), Some(ParamIndex::IqRef));
    assert_eq!(parse_param_name("x"), None);
    assert_eq!(parse_run_mode("VEL"), Some(RunMode::Velocity));
    assert_eq!(parse_run_mode("3"), Some(RunMode::Torque));
    assert_eq!(parse_run_mode("4"), None);
}

#[test]
fn every_choice_is_known() {
    for kind in MOTOR_KIND_CHOICES.split('|') {
        assert!(parse_motor_kind(kind, "1", 10, 0xFD, MotorModel::Rs05).1.is_none());
    }
    for command in [Command::ReadParam, Command::WriteParam] {
        for name in params_for_command(command)[0].choices.unwrap().split('|') {
            assert!(parse_param_name(name).is_some());
        }
    }
    for mode in params_for_command(Command::SetRunMode)[0].choices.unwrap().split('|') {
        assert!(parse_run_mode(mode).is_some());
    }
}

#[test]
fn kinds_of_motors() {
    assert_eq!(parse_motor_kind("RS05", "7", 10, 0xFD, MotorModel::Rs00), (rs(7), None));
    assert_eq!(parse_motor_kind("dm4310", "x", 10, 0xFD, MotorModel::Rs00), (dm(10), None));
    let (motor, warning) = parse_motor_kind("XX", "300", 10, 0xFD, MotorModel::Rs05);
    assert_eq!(motor, rs(10));
    assert_eq!(
        warning.unwrap(),
        "Unknown motor kind 'XX', falling back to Robstride RS-05 (choices: \
         rs00|rs01|rs02|rs03|rs04|rs05|rs06|dm4310)"
    );
}

#[test]
fn scan_ranges() {
    let range = |s: &str| scan_range(&split_words(s));
    assert_eq!(range(""), (1, 127, "rs".to_string()));
    assert_eq!(range("5 10 DM"), (5, 10, "dm".to_string()));
    assert_eq!(range("0 255"), (1, 254, "rs".to_string()));
    assert_eq!(range("20 10"), (20, 20, "rs".to_string()));
    assert_eq!(range("x y"), (1, 127, "rs".to_string()));
    assert_eq!(range("255"), (255, 254, "rs".to_string()));
    assert!(!scan_countable("255"));
    assert!(scan_countable("254"));
    assert!(scan_countable("255 255 dm"));
}

#[test]
fn scans_start() {
    let mut app = app();
    assert_eq!(run(&mut app, Command::Scan, "1 3 both"), Job::ScanRobstride { from: 1, to: 3 });
    assert_eq!(last(&app), "Scanning CAN bus (Robstride) ID 1..=3...");
    assert!(app.scanning);
    assert_eq!(app.scan_progress, (0, 3));
    assert_eq!(app.dm_scan_after, Some((1, 3)));
    assert_eq!(run(&mut app, Command::Scan, "1 3 rs"), Job::Nothing);
    assert_eq!(last(&app), "Scan already in progress.");

    let mut app = self::app();
    assert_eq!(run(&mut app, Command::Scan, "1 3 dm"), Job::ScanDamiao { from: 1, to: 3 });
    assert_eq!(last(&app), "Scanning CAN bus (DAMIAO) ID 1..=3 (probe takes ~10 ms/ID)...");
    assert!(!app.scanning);
    assert_eq!(run(&mut app, Command::Scan, "1 3 XY"), Job::Nothing);
    assert_eq!(last(&app), "Unknown vendor 'xy'. Use rs, dm, or both.");
}

#[test]
fn commands_that_cannot_be_run_change_nothing() {
    let mut app = app();
    let before = app.log.len();
    assert_eq!(app.try_command(Command::Scan, "255", &numbers("255"), NOW), None);
    assert_eq!(app.try_command(Command::Scan, "1 2", &numbers("1"), NOW), None);
    assert!(!app.scanning);
    assert_eq!(app.log.len(), before);
    // A scan that is running already is not started again, whatever its range.
    assert_eq!(run(&mut app, Command::Scan, "1 2"), Job::ScanRobstride { from: 1, to: 2 });
    assert_eq!(run(&mut app, Command::Scan, "255"), Job::Nothing);
    assert_eq!(last(&app), "Scan already in progress.");
    // A DAMIAO scan over no ID at all is a scan.
    let mut app = self::app();
    assert_eq!(
        run(&mut app, Command::Scan, "255 255 dm"),
        Job::ScanDamiao { from: 255, to: 254 }
    );
    assert_eq!(app.execute_command(Command::Scan, "1 2", &numbers("1 2"), NOW), Job::ScanRobstride { from: 1, to: 2 });
}

#[test]
fn scans_end() {
    let mut app = app();
    run(&mut app, Command::Scan, "1 9 both");
    app.scan_update(4, 9, true);
    assert!(!app.scan_finished());
    app.scan_update(9, 9, false);
    assert!(app.scan_finished());
    let results = vec![(7, Some(vec![0xAB, 1])), (3, None), (7, None)];
    assert_eq!(app.check_scan_complete(results, NOW), Job::ScanDamiao { from: 1, to: 9 });
    assert!(!app.scan_finished());
    let ids: Vec<u8> = app.motors.iter().map(|m| m.motor.can_id()).collect();
    assert_eq!(ids, vec![3, 7]);
    assert_eq!(app.motors[1].uuid, Some(vec![0xAB, 1]));
    let n = app.log.len();
    assert!(app.log[n - 4].ends_with("Found 3 motor(s)."));
    assert!(app.log[n - 3].ends_with("  Motor ID=7 discovered (data=Some(\"AB 01\"))"));
    assert!(app.log[n - 2].ends_with("  Motor ID=3 discovered (data=None)"));

    // A DAMIAO motor with the ID of a Robstride motor is another motor.
    app.run_damiao_scan(Ok(vec![7, 7]), NOW);
    assert_eq!(last(&app), "Found 2 DAMIAO motor(s): 7 (0x07), 7 (0x07)");
    assert_eq!(app.motors.len(), 3);
    assert!(app.lists(&dm(7)) && app.lists(&rs(7)) && !app.lists(&dm(3)));
    app.run_damiao_scan(Ok(vec![]), NOW);
    assert_eq!(last(&app), "No DAMIAO motors found.");
    app.run_damiao_scan(Err("down".to_string()), NOW);
    assert_eq!(last(&app), "DAMIAO scan error: down");

    let mut app = self::app();
    assert_eq!(app.check_scan_complete(vec![], NOW), Job::Nothing);
    assert_eq!(last(&app), "No motors found.");
}

#[test]
fn commands_need_a_motor() {
    let commands = [
        Command::Ping,
        Command::Enable,
        Command::Disable,
        Command::SetZero,
        Command::ReadStatus,
        Command::ReadParam,
        Command::WriteParam,
        Command::SetRunMode,
        Command::MoveTo,
        Command::Spin,
        Command::Torque,
        Command::MitControl,
    ];
    for command in commands {
        let mut app = app();
        assert_eq!(run(&mut app, command, "1.0"), Job::Nothing);
        assert_eq!(last(&app), "No motor selected.");
        assert_eq!(app.selected_motor_id(), None);
        assert!(app.selected_motor_entry().is_none());
    }
}

#[test]
fn jobs_of_simple_commands() {
    let mut app = with_motor(rs(5));
    assert_eq!(app.selected_motor_id(), Some(5));
    assert_eq!(app.selected_motor_entry(), Some((rs(5), false)));
    assert_eq!(run(&mut app, Command::Ping, ""), Job::Ping(rs(5)));
    assert_eq!(run(&mut app, Command::Enable, ""), Job::Enable(rs(5)));
    assert_eq!(run(&mut app, Command::Disable, ""), Job::Disable(rs(5)));
    assert_eq!(run(&mut app, Command::ReadStatus, ""), Job::ReadStatus(rs(5)));
    assert_eq!(run(&mut app, Command::SetZero, ""), Job::SetZero(rs(5)));
    let vbus = Job::ReadParam(rs(5), ParamIndex::Vbus);
    assert_eq!(run(&mut app, Command::ReadParam, " VBUS "), vbus);
    assert_eq!(run(&mut app, Command::ReadParam, "x"), Job::Nothing);
    assert!(last(&app).starts_with("Unknown param: 'x'. Available: mech_pos"));
    assert_eq!(
        run(&mut app, Command::SetRunMode, "vel"),
        Job::SetRunMode(rs(5), RunMode::Velocity)
    );
    assert_eq!(run(&mut app, Command::SetRunMode, "x"), Job::Nothing);
    assert_eq!(last(&app), "Unknown mode. Use: mit, position, velocity, torque");
}

#[test]
fn jobs_with_numbers() {
    let mut app = with_motor(rs(5));
    let bits = |v: f32| v.to_bits();
    assert_eq!(
        run(&mut app, Command::WriteParam, "limit_spd 10.0"),
        Job::WriteParam(rs(5), ParamIndex::LimitSpd, bits(10.0))
    );
    assert_eq!(run(&mut app, Command::WriteParam, "limit_spd"), Job::Nothing);
    assert_eq!(last(&app), "Usage: name value (e.g. limit_spd 10.0)");
    assert_eq!(run(&mut app, Command::WriteParam, "x 1"), Job::Nothing);
    assert_eq!(last(&app), "Unknown param: 'x'");
    assert_eq!(run(&mut app, Command::WriteParam, "limit_spd y"), Job::Nothing);
    assert_eq!(last(&app), "Invalid value: 'y'");
    assert_eq!(
        run(&mut app, Command::MoveTo, "1.5 2"),
        Job::MoveTo(rs(5), bits(1.5), bits(2.0))
    );
    assert_eq!(run(&mut app, Command::MoveTo, "1.5"), Job::MoveTo(rs(5), bits(1.5), DEFAULT_SPEED));
    assert_eq!(DEFAULT_SPEED, bits(5.0));
    assert_eq!(run(&mut app, Command::Spin, "-2"), Job::Spin(rs(5), bits(-2.0)));
    assert_eq!(run(&mut app, Command::Spin, "1 2"), Job::Nothing);
    assert_eq!(last(&app), "Invalid velocity value.");
    assert_eq!(run(&mut app, Command::Torque, "0.5"), Job::Torque(rs(5), bits(0.5)));
    assert_eq!(run(&mut app, Command::Torque, ""), Job::Nothing);
    assert_eq!(last(&app), "Invalid torque value.");
    let values = MitValues {
        position: 1.0f64.to_bits(),
        velocity: 2.0f64.to_bits(),
        kp: 3.0f64.to_bits(),
        kd: 4.0f64.to_bits(),
        torque: 5.0f64.to_bits(),
    };
    assert_eq!(run(&mut app, Command::MitControl, "1 2 3 4 5"), Job::Mit(rs(5), true, values));
    assert_eq!(run(&mut app, Command::MitControl, "1 a 2 3 4 5"), Job::Mit(rs(5), true, values));
    assert_eq!(run(&mut app, Command::MitControl, "1 2 3"), Job::Nothing);
    assert_eq!(last(&app), "Usage: pos vel kp kd torque (5 values)");
}

#[test]
fn damiao_motors_know_the_mit_mode_only() {
    let mut app = with_motor(dm(5));
    assert_eq!(run(&mut app, Command::SetRunMode, "mit"), Job::Nothing);
    assert_eq!(last(&app), "DAMIAO uses MIT mode only (already active).");
    assert_eq!(run(&mut app, Command::SetRunMode, "pos"), Job::Nothing);
    assert_eq!(last(&app), "DAMIAO supports MIT mode only in this TUI.");
    assert_eq!(run(&mut app, Command::WriteParam, "limit_spd 1"), Job::Nothing);
    assert_eq!(last(&app), "DAMIAO write-param 'limit_spd' is not supported in MIT-only mode");
    assert!(!app.may_read_status(NOW));
    assert!(last(&app).starts_with("DAMIAO Read Status needs the motor enabled"));
    app.enable_done(Ok(None), NOW);
    assert!(app.may_read_status(NOW));
}

#[test]
fn bilateral_jobs() {
    let mut app = app();
    let input = "rs05 10 1 dm4310 1 0 force 2.5";
    match run(&mut app, Command::Bilateral, input) {
        Job::Bilateral(leader, follower, method, gains) => {
            assert_eq!(leader, rs(10).with_invert(true));
            assert_eq!(follower, dm(1));
            assert_eq!(method, BilateralMethod::ForceReflecting);
            assert_eq!(gains.kp, Some(2.5f64.to_bits()));
            assert_eq!(gains.kd, None);
        }
        other => panic!("unexpected: {:?}", other),
    }
    assert_eq!(run(&mut app, Command::Bilateral, "rs05 10 0 rs05 1 0 ondemand"), Job::Nothing);
    assert_eq!(
        last(&app),
        "Unknown method 'ondemand'. Use: pos, force, coupling, mode, ondemand, ondemand_emu, coupling_mit"
    );
    run(&mut app, Command::Bilateral, "xx");
    assert!(last(&app).starts_with("Leader: Unknown motor kind 'xx'"));

    app.bilateral_started(Ok(()), NOW);
    assert!(app.bilateral_active());
    assert_eq!(run(&mut app, Command::Bilateral, input), Job::StopBilateral);
    assert_eq!(run(&mut app, Command::AssistTest, "rs05 10"), Job::StopBilateral);
    assert_eq!(run(&mut app, Command::ZeroPair, "rs05 10 rs05 1"), Job::Nothing);
    assert_eq!(last(&app), "Bilateral loop is running; stop it first.");
    app.bilateral_stopping(NOW);
    assert_eq!(last(&app), "Bilateral control stopping...");
    app.stop_bilateral(NOW);
    assert_eq!(last(&app), "Bilateral control stopped.");
    assert!(!app.bilateral_active());
    let before = app.log.len();
    app.bilateral_stopping(NOW);
    assert_eq!(app.log.len(), before);
    app.bilateral_started(Err("down".to_string()), NOW);
    assert_eq!(last(&app), "Bilateral start failed: down");
}

#[test]
fn the_opening_direction_may_have_a_plus_sign() {
    let mut app = app();
    let mut words = vec!["rs05", "10", "0", "rs05", "1", "0", "pos"];
    words.extend(["1"; 13]);
    words.push("++1");
    match run(&mut app, Command::Bilateral, &words.join(" ")) {
        Job::Bilateral(_, _, _, gains) => {
            assert_eq!(gains.open_sign, Some(1.0f64.to_bits()));
            assert_eq!(gains.force_threshold, Some(1.0f64.to_bits()));
            assert_eq!(gains.safety_radius, None);
        }
        other => panic!("unexpected: {:?}", other),
    }
}

#[test]
fn starting_in_words() {
    let text = |s: &str| s.to_string();
    let mut app = app();
    let shown = BilateralShown {
        kp: text("5.0"),
        kd: text("0.3"),
        coulomb: text("0.05"),
        viscous: text("0.01"),
        safety_radius: text("3.14"),
        safety_jump: text("0.50"),
    };
    app.bilateral_starting(BilateralMethod::ModeSpace, &shown, &rs(10), &dm(1), NOW);
    let n = app.log.len();
    assert!(app.log[n - 2].ends_with(
        "Starting bilateral control: Mode Space (4ch) (Kp=5.0, Kd=0.3, Cf=0.05, Vf=0.01, safety_rad=3.14, safety_jump=0.50)"
    ));
    assert_eq!(
        last(&app),
        "  Leader=Robstride RS-05 ID:10, Follower=DAMIAO DM-J4310 ID:1  Press Esc to stop."
    );
    let shown = AssistShown {
        assist_kd: text("a"),
        vel_ahead: text("b"),
        max_assist: text("c"),
        coulomb: text("d"),
        viscous: text("e"),
        inertia: text("f"),
        inertia_comp: text("g"),
        accel_cutoff: text("h"),
    };
    app.assist_starting(&rs(10), &shown, NOW);
    assert_eq!(last(&app), "Press Esc to stop.");
    let n = app.log.len();
    assert!(app.log[n - 2].ends_with(
        "Starting Assist Test: Robstride RS-05 ID:10, kd=a, vel_ah=b, maxA=c, Cf=d, Vf=e, J=f, IC=g, AC=h"
    ));
    app.assist_started(Err(text("down")), NOW);
    assert_eq!(last(&app), "Assist test start failed: down");
    app.assist_started(Ok(()), NOW);
    assert!(app.bilateral_active());
}

#[test]
fn zero_offsets_are_kept_for_their_motor() {
    let mut app = with_motor(dm(5));
    let offset = 0.25f64.to_bits();
    assert_eq!(run(&mut app, Command::ZeroPair, "dm4310 5 rs05 1"), Job::ZeroPair(dm(5), rs(1)));
    app.soft_zero_done(&dm(5), Ok((offset, "0.2500".to_string())), NOW);
    assert_eq!(
        last(&app),
        "Soft zero set: DAMIAO DM-J4310 ID:5 (offset = 0.2500 rad, in-memory only)"
    );
    assert_eq!(app.apply_saved_offset(dm(5)), dm(5).with_soft_zero(offset));
    assert_eq!(app.apply_saved_offset(rs(5)), rs(5));
    assert_eq!(run(&mut app, Command::Ping, ""), Job::Ping(dm(5).with_soft_zero(offset)));
    app.set_zero_done(Ok(()), NOW);
    assert_eq!(
        last(&app),
        "  Cleared cached soft_zero for DAMIAO DM-J4310 ID:5 (no longer needed)."
    );
    assert_eq!(app.apply_saved_offset(dm(5)), dm(5));
    app.soft_zero_done(&dm(5), Err("late".to_string()), NOW);
    assert_eq!(last(&app), "Soft zero DAMIAO DM-J4310 ID:5 failed: late");
    app.set_zero_done(Ok(()), NOW);
    assert_eq!(last(&app), "DAMIAO DM-J4310 ID:5 zero saved to NVM.");
    app.set_zero_done(Err("late".to_string()), NOW);
    assert_eq!(last(&app), "Set zero failed: late");
    app.read_timeout_failed("x", NOW);
    assert_eq!(last(&app), "Set read timeout failed: x");
}

#[test]
fn what_comes_of_commands() {
    let late = || "late".to_string();
    let mut app = with_motor(rs(5));
    app.open_failed("down", NOW);
    assert_eq!(last(&app), "CAN open error: down");
    app.ping_done(Ok((5, vec![0xAB])), NOW);
    assert_eq!(last(&app), "Ping OK: motor=5 device_id=0x0005 UUID=[AB]");
    assert_eq!(app.motors[0].uuid, Some(vec![0xAB]));
    app.ping_done(Err(late()), NOW);
    assert_eq!(last(&app), "Ping failed: late");
    app.damiao_ping_done(Ok((feedback(), shown())), NOW);
    assert_eq!(last(&app), "Ping OK (DAMIAO): pos=1.000 vel=2.000 torque=3.000");
    app.enable_done(Err(late()), NOW);
    assert_eq!(last(&app), "Enable failed: late");
    assert!(!app.motors[0].enabled);
    app.enable_done(Ok(Some(feedback())), NOW);
    assert_eq!(last(&app), "Robstride RS-05 ID:5 enabled.");
    assert!(app.motors[0].enabled);
    assert_eq!(app.motors[0].feedback, Some(feedback()));
    app.read_status_done(Err(late()), NOW);
    assert_eq!(last(&app), "Read status failed: late");
    assert_eq!(app.motors[0].error, Some(late()));
    app.read_status_done(Ok((feedback(), shown())), NOW);
    assert_eq!(last(&app), "Status: pos=1.000 vel=2.000 torque=3.000 temp=4.0°C mode=2");
    assert_eq!(app.motors[0].error, None);
    app.disable_done(Err(late()), NOW);
    assert_eq!(last(&app), "Disable failed: late");
    assert!(app.motors[0].enabled);
    app.disable_done(Ok(()), NOW);
    assert_eq!(last(&app), "Robstride RS-05 ID:5 disabled.");
    assert!(!app.motors[0].enabled);
}

#[test]
fn what_comes_of_parameters_and_motions() {
    let late = || "late".to_string();
    let mut app = with_motor(rs(5));
    app.read_param_done(" vbus ", Ok("24.0".to_string()), NOW);
    assert_eq!(last(&app), "vbus = 24.0");
    app.read_param_done("vbus", Err(late()), NOW);
    assert_eq!(last(&app), "Read param failed: late");
    app.write_param_done("limit_spd", "10", Ok(()), NOW);
    assert_eq!(last(&app), "limit_spd = 10 (written)");
    app.write_param_done("limit_spd", "10", Err(late()), NOW);
    assert_eq!(last(&app), "Write param failed: late");
    app.run_mode_done(RunMode::Torque, Ok(()), NOW);
    assert_eq!(last(&app), "Run mode set to Torque");
    app.run_mode_done(RunMode::Torque, Err(late()), NOW);
    assert_eq!(last(&app), "Set run mode failed: late");
    app.motion_done(Motion::Move, "1.0", "5.0", Err(late()), NOW);
    assert_eq!(last(&app), "Move to failed: late");
    assert!(!app.motors[0].enabled);
    app.motion_done(Motion::Move, "1.0", "5.0", Ok(None), NOW);
    assert_eq!(last(&app), "Moving to 1.0 rad (speed limit=5.0)");
    assert!(app.motors[0].enabled);
    app.motion_done(Motion::Spin, "1.0", "", Ok(None), NOW);
    assert_eq!(last(&app), "Spinning at 1.0 rad/s");
    app.motion_done(Motion::Torque, "1.0", "", Ok(None), NOW);
    assert_eq!(last(&app), "Applying torque 1.0 Nm");
    app.mit_done(false, Ok((feedback(), shown())), NOW);
    assert_eq!(last(&app), "MIT: pos=1.000 vel=2.000 torque=3.000");
    app.mit_done(true, Err(late()), NOW);
    assert_eq!(last(&app), "MIT control failed: late");

    let mut app = with_motor(dm(5));
    let values = || Ok(("1.0".to_string(), "2.0".to_string()));
    app.damiao_param_done("Position", values(), NOW);
    assert_eq!(last(&app), "Position = 1.0");
    app.damiao_param_done("mech_vel", values(), NOW);
    assert_eq!(last(&app), "mech_vel = 2.0");
    app.damiao_param_done("mode", values(), NOW);
    assert_eq!(last(&app), "mode = mit");
    app.damiao_param_done("vbus", values(), NOW);
    assert_eq!(last(&app), "DAMIAO read-param 'vbus' is not available in MIT-only mode");
    app.motion_done(Motion::Spin, "1.0", "", Ok(Some(feedback())), NOW);
    assert_eq!(last(&app), "DAMIAO velocity target sent: 1.0 rad/s");
    assert_eq!(app.motors[0].feedback, Some(feedback()));
    app.mit_done(true, Err(late()), NOW);
    assert!(app.motors[0].enabled);
}

#[test]
fn a_motion_begins_as_from_the_command_line() {
    let bits = |v: f32| v.to_bits();
    let motions = [
        (Motion::Move, MotorCommand::MoveTo { position: bits(1.0), speed: bits(5.0) }),
        (Motion::Spin, MotorCommand::Spin { velocity: bits(1.0), duration: 0 }),
        (Motion::Torque, MotorCommand::Torque { torque: bits(1.0), duration: bits(2.0) }),
    ];
    for (motion, command) in motions {
        let steps = motion_steps(motion, bits(1.0), bits(5.0));
        assert_eq!(steps[0], Step::Disable);
        assert!(matches!(steps[1], Step::SetRunMode(_)));
        assert_eq!(run_robstride_command(&command, false).unwrap()[..steps.len()], steps[..]);
    }
    assert_eq!(motion_steps(Motion::Move, 1, 2)[2], Step::SetSpeedLimit(2));
}

#[test]
fn motors_stay_in_order() {
    let mut app = app();
    for id in [9, 3, 7, 3] {
        app.insert_motor(rs(id), None);
    }
    app.insert_motor(dm(5), None);
    let ids: Vec<u8> = app.motors.iter().map(|m| m.motor.can_id()).collect();
    assert_eq!(ids, vec![3, 3, 5, 7, 9]);
}

#[test]
fn enabled_motors_are_refreshed_and_disabled() {
    let mut app = app();
    for id in [1, 2, 3] {
        app.insert_motor(rs(id), None);
    }
    app.motors[0].enabled = true;
    app.motors[2].enabled = true;
    assert_eq!(app.refresh_targets(), vec![(0, rs(1)), (2, rs(3))]);
    assert_eq!(app.motors_to_disable(), vec![rs(1), rs(3)]);
    app.refresh_motor_status(2, Err("late".to_string()));
    assert_eq!(app.motors[2].error, Some("late".to_string()));
    app.refresh_motor_status(2, Ok(feedback()));
    assert_eq!(app.motors[2].error, None);
    assert_eq!(app.motors[2].feedback, Some(feedback()));
    assert_eq!(app.motors[0].feedback, None);
}

#[test]
fn the_log_keeps_the_last_messages() {
    let mut app = app();
    for i in 0..(LOG_MAX + 10) {
        app.log_msg(NOW, &format!("message {}", i));
    }
    assert_eq!(app.log.len(), LOG_MAX);
    assert_eq!(last(&app), format!("message {}", LOG_MAX + 9));
    assert_eq!(app.log[0], "[12:00:00.000] message 10");
}

#[test]
fn arguments() {
    let args = |list: &[&str]| parse_args(&list.iter().map(|s| s.to_string()).collect());
    let parsed = args(&["tui"]).unwrap();
    assert_eq!((parsed.interface.as_str(), parsed.host_id, parsed.model.as_str()), ("can0", 253, "rs-05"));
    let parsed = args(&["tui", "-i", "can1", "--host-id", "7", "x", "--model", "rs-03"]).unwrap();
    assert_eq!((parsed.interface.as_str(), parsed.host_id, parsed.model.as_str()), ("can1", 7, "rs-03"));
    let parsed = args(&["tui", "--host-id", "0x10", "--interface"]).unwrap();
    assert_eq!((parsed.interface.as_str(), parsed.host_id), ("can0", 253));
    assert!(args(&["tui", "-i", "can1", "--help"]).is_none());
    assert!(args(&["tui", "-h"]).is_none());
    // An option takes the next argument whatever it is.
    assert_eq!(args(&["tui", "-i", "-h"]).unwrap().interface, "-h");
    assert_eq!(help_lines().len(), 8);
}

#[test]
fn times_of_day() {
    assert_eq!(chrono_like_timestamp(0, 0), "00:00:00.000");
    assert_eq!(chrono_like_timestamp(86_400 * 3 + 3_723, 7), "01:02:03.007");
    assert_eq!(chrono_like_timestamp(86_399, 999), "23:59:59.999");
}

#[test]
fn scans_keep_what_is_listed() {
    let mut app = with_motor(dm(3));
    app.insert_motor(rs(9), Some(vec![1, 2]));
    app.check_scan_complete(vec![(3, None), (9, Some(vec![7])), (1, Some(vec![8]))], NOW);
    app.run_damiao_scan(Ok(vec![3, 2]), NOW);
    let listed: Vec<(bool, u8)> =
        app.motors.iter().map(|m| (m.motor.is_damiao(), m.motor.can_id())).collect();
    assert_eq!(listed, vec![(false, 1), (true, 2), (true, 3), (false, 3), (false, 9)]);
    // The entry of a motor that was listed before is as it was.
    assert_eq!(app.motors[4].uuid, Some(vec![1, 2]));
}
