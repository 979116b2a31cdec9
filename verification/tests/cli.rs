//! Commands of the command line tool and what it prints.

use robstride_sandbox::cli::{
    banner, check_serial, closing_steps, damiao_report, dump_header, dump_row, dump_rule, no_motor_help,
    parse_read_param_name, parse_write_param_name, ping_line, print_feedback, resolve_motor,
    run_damiao_command, run_robstride_command, scan_heading, scan_report, scan_vendors,
    serial_scan_heading, serial_scan_summary, MotorCommand, Note, SelectedMotor, Step, Vendor,
};
use robstride_sandbox::driver::DamiaoModel;
use robstride_sandbox::motor::Motor;
use robstride_sandbox::protocol::{MotorModel, MotorStatusBits, ParamIndex, RunMode};

fn bits(value: f32) -> u32 {
    value.to_bits()
}

#[test]
fn motors_are_resolved() {
    let rs05 = SelectedMotor::Robstride(MotorModel::Rs05);
    let dm = SelectedMotor::Damiao(DamiaoModel::DmJ4310);
    assert_eq!(resolve_motor(Vendor::Auto, "RS05"), Ok(rs05));
    assert_eq!(resolve_motor(Vendor::Auto, "dm4310"), Ok(dm));
    assert_eq!(resolve_motor(Vendor::Robstride, "rs-05"), Ok(rs05));
    assert_eq!(resolve_motor(Vendor::Damiao, "rs-05"), Ok(dm));
    assert_eq!(
        resolve_motor(Vendor::Auto, "XX"),
        Err("unknown model 'XX'; Robstride: rs-00..rs-06, DAMIAO: dm-j4310-2ec".to_string())
    );
    assert_eq!(
        resolve_motor(Vendor::Robstride, "dm4310"),
        Err("unknown Robstride model 'dm4310'; use rs-00..rs-06".to_string())
    );
    assert_eq!(
        resolve_motor(Vendor::Both, "rs05"),
        Err("--vendor both is only valid with the scan command".to_string())
    );
    assert_eq!(rs05.description(), "Robstride RS-05");
    assert_eq!(dm.description(), "DAMIAO DM-J4310");
    assert_eq!(
        banner("can0", 7, 0xFD, rs05),
        "Connected to CAN 'can0', motor ID=7, host=0xFD, target=Robstride RS-05"
    );
}

#[test]
fn vendors_of_scans_and_adapters() {
    assert_eq!(scan_vendors(Vendor::Auto), (true, true));
    assert_eq!(scan_vendors(Vendor::Robstride), (true, false));
    assert_eq!(scan_vendors(Vendor::Damiao), (false, true));
    assert_eq!(scan_vendors(Vendor::Both), (true, true));
    assert_eq!(check_serial(Vendor::Auto, "serial-scan"), Ok(()));
    assert_eq!(check_serial(Vendor::Robstride, "serial-scan"), Ok(()));
    assert_eq!(
        check_serial(Vendor::Both, "serial-scan"),
        Err("serial-scan currently supports Robstride adapters only".to_string())
    );
}

#[test]
fn parameter_names() {
    assert_eq!(parse_read_param_name("Position"), Ok(ParamIndex::MechPos));
    assert_eq!(parse_read_param_name("VOLTAGE"), Ok(ParamIndex::Vbus));
    assert_eq!(parse_write_param_name("Loc_Ref"), Ok(ParamIndex::LocRef));
    assert!(parse_read_param_name("loc_ref").unwrap_err().starts_with(
        "Unknown parameter 'loc_ref'. Available: mech_pos, "
    ));
    assert!(parse_write_param_name("vbus").unwrap_err().starts_with(
        "Unknown writable parameter 'vbus'. Available: limit_torque, "
    ));
    // A name that both reads and writes means one parameter.
    for name in ["limit_torque", "limit_spd", "limit_cur", "loc_kp", "spd_kp", "spd_ki"] {
        assert_eq!(parse_read_param_name(name), parse_write_param_name(name));
    }
}

#[test]
fn simple_commands_to_a_robstride_motor() {
    let steps = |command: MotorCommand| run_robstride_command(&command, false).unwrap();
    assert_eq!(steps(MotorCommand::Ping), vec![Step::Ping]);
    assert_eq!(steps(MotorCommand::Status), vec![Step::ReadStatus, Step::ShowFeedback]);
    assert_eq!(
        steps(MotorCommand::Enable),
        vec![
            Step::Enable,
            Step::Say(Note::MotorEnabled),
            Step::ShowFeedback,
            Step::DisableQuietly,
        ]
    );
    assert_eq!(
        steps(MotorCommand::Disable),
        vec![Step::Disable, Step::Say(Note::MotorDisabled), Step::ShowFeedback]
    );
    assert_eq!(steps(MotorCommand::SetZero), vec![Step::SetZero, Step::Say(Note::ZeroSet)]);
    assert_eq!(
        steps(MotorCommand::Monitor { interval_ms: 100 }),
        vec![Step::Announce, Step::WatchTable(100)]
    );
    assert_eq!(
        steps(MotorCommand::Mit),
        vec![Step::Enable, Step::Mit, Step::ShowFeedback, Step::DisableQuietly]
    );
    assert_eq!(
        run_robstride_command(&MotorCommand::Mit, true).unwrap(),
        vec![Step::Mit, Step::ShowFeedback, Step::DisableQuietly]
    );
    assert_eq!(Note::MotorEnabled.text(), "Motor enabled.");
    assert_eq!(Note::BreakStopped.text(), "\nStopped.");
}

#[test]
fn motions_of_a_robstride_motor() {
    let to = MotorCommand::MoveTo { position: bits(1.0), speed: bits(5.0) };
    assert_eq!(
        run_robstride_command(&to, false).unwrap(),
        vec![
            Step::Disable,
            Step::SetRunMode(RunMode::Position),
            Step::SetSpeedLimit(bits(5.0)),
            Step::Enable,
            Step::SetPosition(bits(1.0)),
            Step::Announce,
            Step::TrackTarget,
            Step::DisableQuietly,
        ]
    );
    let spin = MotorCommand::Spin { velocity: bits(2.0), duration: bits(1.5) };
    assert_eq!(
        run_robstride_command(&spin, false).unwrap(),
        vec![
            Step::Disable,
            Step::SetRunMode(RunMode::Velocity),
            Step::Enable,
            Step::SetVelocity(bits(2.0)),
            Step::Announce,
            Step::Sleep(bits(1.5)),
            Step::SetVelocity(bits(0.0)),
            Step::SleepMs(500),
            Step::Disable,
            Step::Say(Note::Stopped),
        ]
    );
    let torque = MotorCommand::Torque { torque: bits(0.5), duration: bits(1.5) };
    let steps = run_robstride_command(&torque, false).unwrap();
    assert_eq!(steps[3], Step::SetTorque(bits(0.5)));
    assert_eq!(steps[steps.len() - 2..], [Step::Disable, Step::Say(Note::Stopped)]);
}

#[test]
fn frames_of_a_move() {
    let motor = Motor::new(5, 0xFD, MotorModel::Rs05);
    let to = MotorCommand::MoveTo { position: bits(1.0), speed: bits(2.0) };
    let steps = run_robstride_command(&to, false).unwrap();
    let frames: Vec<(u32, Vec<u8>)> =
        steps.iter().filter_map(|step| motor.step_frame(*step)).collect();
    let expected = vec![
        (0x0400_FD05, vec![0; 8]),
        (0x1200_FD05, vec![0x05, 0x70, 0, 0, 1, 0, 0, 0]),
        (0x1200_FD05, vec![0x17, 0x70, 0, 0, 0, 0, 0, 0x40]),
        (0x0300_FD05, vec![0; 8]),
        (0x1200_FD05, vec![0x16, 0x70, 0, 0, 0, 0, 0x80, 0x3F]),
        motor.status_request(),
        (0x0400_FD05, vec![0; 8]),
    ];
    assert_eq!(frames, expected);
}

#[test]
fn commands_that_enable_end_with_a_disable_frame() {
    let motor = Motor::new(5, 0xFD, MotorModel::Rs05);
    let commands = [
        MotorCommand::Enable,
        MotorCommand::Mit,
        MotorCommand::MoveTo { position: 0, speed: 0 },
        MotorCommand::Spin { velocity: bits(1.0), duration: bits(1.0) },
        MotorCommand::Torque { torque: bits(1.0), duration: bits(1.0) },
    ];
    for command in commands {
        let steps = run_robstride_command(&command, false).unwrap();
        assert!(steps.contains(&Step::Enable));
        let last = steps.iter().filter_map(|step| motor.step_frame(*step)).last();
        assert_eq!(last, Some((0x0400_FD05, vec![0; 8])));
    }
    assert_eq!(closing_steps(true), vec![Step::DisableQuietly]);
    assert!(closing_steps(false).is_empty());
}

#[test]
fn frames_of_the_steps() {
    let motor = Motor::new(5, 0xFD, MotorModel::Rs05);
    let id = |step: Step| motor.step_frame(step).map(|f| f.0);
    assert_eq!(id(Step::Ping), Some(0x0000_FD05));
    assert_eq!(id(Step::ReadStatus), Some(0x017F_FF05));
    assert_eq!(motor.step_frame(Step::Watch), Some(motor.status_request()));
    assert_eq!(motor.step_frame(Step::WatchTable(5)), Some(motor.status_request()));
    assert_eq!(motor.step_frame(Step::SetZero), Some((0x0600_FD05, vec![1, 0, 0, 0, 0, 0, 0, 0])));
    assert_eq!(motor.step_frame(Step::SetVelocity(1)).unwrap().1[..5], [0x0A, 0x70, 0, 0, 1]);
    assert_eq!(motor.step_frame(Step::SetTorque(1)).unwrap().1[..5], [0x06, 0x70, 0, 0, 1]);
    assert_eq!(
        motor.step_frame(Step::ReadParam(ParamIndex::Vbus)),
        Some((0x1100_FD05, vec![0x1C, 0x70, 0, 0, 0, 0, 0, 0]))
    );
    assert_eq!(
        motor.step_frame(Step::WriteParam(ParamIndex::SpdKi, 0x0403_0201)),
        Some((0x1200_FD05, vec![0x20, 0x70, 0, 0, 1, 2, 3, 4]))
    );
    for step in [Step::Mit, Step::Announce, Step::ShowFeedback, Step::SleepMs(1), Step::Drive] {
        assert_eq!(motor.step_frame(step), None);
    }
}

#[test]
fn a_time_that_is_not_above_zero_means_for_ever() {
    for duration in [0.0f32, -0.0, -1.0, f32::NAN, f32::NEG_INFINITY] {
        let spin = MotorCommand::Spin { velocity: bits(2.0), duration: bits(duration) };
        let steps = run_robstride_command(&spin, false).unwrap();
        assert_eq!(steps[5..], [Step::Say(Note::PressCtrlC), Step::Watch]);
    }
    for duration in [f32::MIN_POSITIVE, 1e-45, f32::INFINITY] {
        let torque = MotorCommand::Torque { torque: bits(2.0), duration: bits(duration) };
        let steps = run_robstride_command(&torque, false).unwrap();
        assert_eq!(steps[5], Step::Sleep(bits(duration)));
    }
}

#[test]
fn run_modes_change_while_disabled() {
    let commands = [
        MotorCommand::MoveTo { position: 0, speed: 0 },
        MotorCommand::Spin { velocity: 0, duration: 0 },
        MotorCommand::Torque { torque: 0, duration: 0 },
    ];
    for command in commands {
        let steps = run_robstride_command(&command, true).unwrap();
        let at = steps.iter().position(|s| matches!(s, Step::SetRunMode(_))).unwrap();
        assert_eq!(steps[at - 1], Step::Disable);
    }
}

#[test]
fn parameters_of_a_robstride_motor() {
    let read = MotorCommand::ReadParam { name: "VBUS".to_string() };
    assert_eq!(
        run_robstride_command(&read, false).unwrap(),
        vec![Step::ReadParam(ParamIndex::Vbus), Step::ShowParam]
    );
    let write = MotorCommand::WriteParam { name: "spd_ki".to_string(), value: bits(0.1) };
    assert_eq!(
        run_robstride_command(&write, false).unwrap(),
        vec![Step::WriteParam(ParamIndex::SpdKi, bits(0.1)), Step::ShowParam]
    );
    let unknown = MotorCommand::ReadParam { name: "x".to_string() };
    assert!(run_robstride_command(&unknown, false).is_err());
    let readonly = MotorCommand::WriteParam { name: "vbus".to_string(), value: 0 };
    assert!(run_robstride_command(&readonly, false).is_err());
}

#[test]
fn commands_to_a_damiao_motor() {
    let steps = |command: MotorCommand| run_damiao_command(&command).unwrap();
    assert_eq!(
        steps(MotorCommand::Status),
        vec![Step::Enable, Step::MitRest, Step::DisableQuietly, Step::ShowFeedback]
    );
    assert_eq!(steps(MotorCommand::Disable), vec![Step::Disable, Step::Say(Note::MotorDisabled)]);
    assert_eq!(steps(MotorCommand::SetZero), vec![Step::SetZero, Step::Say(Note::ZeroSaved)]);
    assert_eq!(steps(MotorCommand::Ping)[3], Step::Say(Note::Responded));
    assert_eq!(
        steps(MotorCommand::Mit),
        vec![Step::Enable, Step::Mit, Step::DisableQuietly, Step::ShowFeedback]
    );
    assert_eq!(
        steps(MotorCommand::MoveTo { position: 0, speed: 0 }),
        vec![Step::Enable, Step::Announce, Step::TrackTarget, Step::DisableQuietly]
    );
    assert_eq!(
        steps(MotorCommand::Spin { velocity: 0, duration: bits(1.0) }),
        vec![
            Step::Enable,
            Step::Announce,
            Step::Drive,
            Step::StopQuietly,
            Step::DisableQuietly,
            Step::Say(Note::BreakStopped),
        ]
    );
    assert_eq!(
        steps(MotorCommand::Torque { torque: 0, duration: 0 })[2],
        Step::Say(Note::PressCtrlC)
    );
    assert_eq!(
        steps(MotorCommand::ReadParam { name: "Velocity".to_string() })[3],
        Step::ShowVelocity
    );
    assert_eq!(
        steps(MotorCommand::ReadParam { name: "mode".to_string() }),
        vec![Step::ShowMitMode]
    );
    assert_eq!(
        run_damiao_command(&MotorCommand::ReadParam { name: "vbus".to_string() }),
        Err("DAMIAO read-param 'vbus' is not available via the MIT-only protocol implemented in this CLI"
            .to_string())
    );
    assert_eq!(
        run_damiao_command(&MotorCommand::WriteParam { name: "vbus".to_string(), value: 0 }),
        Err("DAMIAO write-param 'vbus' is not supported by the MIT-only protocol implemented in this CLI"
            .to_string())
    );
}

#[test]
fn pings_in_words() {
    assert_eq!(
        ping_line(&Ok((5, vec![0xAB, 0x01]))),
        "Motor responded! device_id=0x0005 UUID=[AB 01]"
    );
    assert_eq!(ping_line(&Err("late".to_string())), "No response from motor: late");
}

#[test]
fn scans_in_words() {
    assert_eq!(
        scan_heading(false, "can0", 1, 127, 50, 0xFD),
        "Scanning Robstride motors on 'can0' (ID 1..=127, timeout 50ms/id, host=0xFD)..."
    );
    assert_eq!(
        scan_heading(true, "can0", 1, 127, 50, 0xFD),
        "Scanning DAMIAO motors on 'can0' (ID 1..=127, timeout 50ms/id)..."
    );
    assert_eq!(
        scan_report(&vec![(1, Some(vec![0xAB])), (9, None)]),
        vec![
            "  Found 2 Robstride motor(s):",
            "    ID=1: data=[AB]",
            "    ID=9: (responded, no data)"
        ]
    );
    assert_eq!(scan_report(&vec![]), vec!["  No Robstride motors found."]);
    assert_eq!(damiao_report(&vec![3]), vec!["  Found 1 DAMIAO motor(s):", "    ID=3"]);
    assert_eq!(damiao_report(&vec![]), vec!["  No DAMIAO motors found."]);
    let help = no_motor_help("can1");
    assert_eq!(help.len(), 7);
    assert_eq!(help[2], "  1. Is the CAN interface up?  ip link show can1");
    assert_eq!(help[6], "  5. Try passive listen: cargo run -- -i can1 dump");
}

#[test]
fn bus_dumps_in_columns() {
    assert_eq!(dump_header(), "  Fmt       CAN ID    Type    Extra  Dev  Payload");
    assert_eq!(dump_rule().len(), 72);
    assert_eq!(
        dump_row(true, 0x0200_05FD, &[0xDE, 0xAD]),
        "  EXT  0x020005FD       2  0x0005  253  [DE AD]"
    );
    assert_eq!(
        dump_row(false, 0x123, &[]),
        "  STD  0x00000123       -        -    -  []"
    );
}

#[test]
fn serial_scans_in_words() {
    assert_eq!(
        serial_scan_heading("/dev/ttyACM0", 921600, 1_000_000, 1, 10),
        "Serial scan: /dev/ttyACM0 @ 921600baud, CAN 1000000bps, ID 1..=10"
    );
    assert_eq!(serial_scan_summary(0), "\nNo motors found via serial.");
    assert_eq!(serial_scan_summary(2), "\nFound 2 motor(s):");
}

#[test]
fn feedback_in_words() {
    let quiet = MotorStatusBits { mode: 2, ..MotorStatusBits::default() };
    assert_eq!(
        print_feedback(5, "1.0000", "0.0000", "0.0000", "25.6", &quiet),
        vec![
            "--- Motor Feedback ---",
            "  Motor ID:    5",
            "  Position:    1.0000 rad",
            "  Velocity:    0.0000 rad/s",
            "  Torque:      0.0000 Nm",
            "  Temperature: 25.6 C",
            "  Mode:        2",
        ]
    );
    let loud = MotorStatusBits {
        mode: 0,
        uncalibrated: true,
        stall: true,
        magnetic_encoder_fault: true,
        overtemperature: true,
        overcurrent: true,
        undervoltage: true,
        device_id: 5,
    };
    let lines = print_feedback(5, "", "", "", "", &loud);
    assert_eq!(
        lines[7..],
        [
            "  WARNING: Encoder uncalibrated",
            "  WARNING: Motor stall detected",
            "  WARNING: Magnetic encoder fault",
            "  WARNING: Over-temperature",
            "  WARNING: Over-current",
            "  WARNING: Under-voltage",
        ]
    );
}
