//! Single motors, scans of the bus and the errors that come up.

use robstride_sandbox::error::{Result, RobstrideError};
use robstride_sandbox::motor::{
    id_range, is_ping_answer, read_answer, recv_step, BusEvent, Motor, Received, RecvStep,
    ScanEvent, DEFAULT_TIMEOUT_MS,
};
use robstride_sandbox::protocol::{
    build_can_id, CommType, MitScales, MitWords, MotorModel, ParamIndex, RunMode,
};
use robstride_sandbox::transport::RxFrame;

fn frame(comm_type: CommType, extra: u16, device: u8, data: &[u8]) -> RxFrame {
    RxFrame { extended: true, raw_id: build_can_id(comm_type, extra, device), data: data.to_vec() }
}

fn status(id: u8) -> Received {
    Received {
        comm_type: 2,
        extra_data: 0x8000 + id as u16,
        device_id: 0xFD,
        data: vec![0x80, 0, 0x7F, 0xFF, 0x7F, 0xFF, 1, 0],
    }
}

fn timeout(motor_id: u8) -> RobstrideError {
    RobstrideError::Timeout { motor_id }
}

#[test]
fn ranges_of_ids() {
    assert_eq!(id_range(3, 5), vec![3, 4, 5]);
    assert_eq!(id_range(5, 5), vec![5]);
    assert_eq!(id_range(6, 5), Vec::<u8>::new());
    assert_eq!(id_range(0, 255).len(), 256);
    assert_eq!(id_range(254, 255), vec![254, 255]);
}

#[test]
fn waiting_for_an_answer() {
    assert!(matches!(
        recv_step(7, BusEvent::Expired),
        RecvStep::Failed(RobstrideError::Timeout { motor_id: 7 })
    ));
    assert!(matches!(recv_step(7, BusEvent::WouldBlock), RecvStep::Again));
    match recv_step(7, BusEvent::Failed("gone".to_string())) {
        RecvStep::Failed(RobstrideError::CanSocket(text)) => assert_eq!(text, "gone"),
        other => panic!("unexpected: {:?}", other),
    }
    // Frames with short identifiers are passed over.
    let short = RxFrame { extended: false, raw_id: 7, data: vec![] };
    assert!(matches!(recv_step(7, BusEvent::Frame(short)), RecvStep::Again));
    let long = frame(CommType::OperationStatus, 0x8007, 0xFD, &[1, 2, 3]);
    match Motor::new(7, 0xFD, MotorModel::Rs05).recv_frame(BusEvent::Frame(long)) {
        RecvStep::Done(r) => {
            assert_eq!((r.comm_type, r.extra_data, r.device_id), (2, 0x8007, 0xFD));
            assert_eq!(r.data, vec![1, 2, 3]);
        }
        other => panic!("unexpected: {:?}", other),
    }
}

#[test]
fn answers_are_read() {
    let feedback = read_answer(&status(5), 5).unwrap();
    assert_eq!(feedback.motor_id, 5);
    assert_eq!(feedback.temperature, 256);

    let fault = Received { comm_type: 21, ..status(5) };
    assert!(matches!(read_answer(&fault, 5), Err(RobstrideError::MotorFault { code: 21 })));

    let other = Received { comm_type: 17, ..status(5) };
    match read_answer(&other, 5) {
        Err(RobstrideError::InvalidResponse { msg }) => {
            assert_eq!(msg, "Expected OperationStatus (type=2), got type=17 from device=253")
        }
        other => panic!("unexpected: {:?}", other),
    }

    match read_answer(&status(6), 5) {
        Err(RobstrideError::InvalidResponse { msg }) => {
            assert_eq!(msg, "Expected the status of motor 5, got that of motor 6")
        }
        other => panic!("unexpected: {:?}", other),
    }

    let short = Received { data: vec![0; 7], ..status(5) };
    match read_answer(&short, 5) {
        Err(RobstrideError::InvalidResponse { msg }) => {
            assert_eq!(msg, "Failed to parse status frame")
        }
        other => panic!("unexpected: {:?}", other),
    }
}

#[test]
fn a_new_motor() {
    let mut motor = Motor::new(10, 0xFD, MotorModel::Rs03);
    assert_eq!(motor.motor_id(), 10);
    assert_eq!(motor.model(), MotorModel::Rs03);
    assert_eq!(*motor.scales(), MitScales::for_model(MotorModel::Rs03));
    assert!(!motor.is_enabled());
    assert_eq!(motor.current_run_mode(), RunMode::Mit);
    assert_eq!(motor.timeout_ms, DEFAULT_TIMEOUT_MS);
    motor.set_timeout(5);
    assert_eq!(motor.timeout_ms, 5);
}

#[test]
fn enabling_and_disabling_take_an_answer() {
    let mut motor = Motor::new(5, 0xFD, MotorModel::Rs05);
    assert_eq!(motor.enable_request(), (0x0300_FD05, vec![0; 8]));
    assert!(motor.release_request().is_none());
    assert!(motor.enable(Err(timeout(5))).is_err());
    assert!(!motor.is_enabled());
    // The status of another motor says nothing of this one.
    assert!(motor.enable(Ok(status(6))).is_err());
    assert!(!motor.is_enabled());
    assert!(motor.enable(Ok(status(5))).is_ok());
    assert!(motor.is_enabled());
    assert_eq!(motor.release_request().unwrap().0, 0x0400_FD05);
    assert_eq!(motor.disable_request(), (0x0400_FD05, vec![0; 8]));
    assert!(motor.disable(Err(timeout(5))).is_err());
    assert!(motor.is_enabled());
    assert!(motor.disable(Ok(status(5))).is_ok());
    assert!(!motor.is_enabled());
}

#[test]
fn mit_commands_take_an_enabled_motor() {
    let mut motor = Motor::new(5, 0xFD, MotorModel::Rs05);
    assert!(matches!(
        motor.mit_request(MitWords::zero()),
        Err(RobstrideError::NotEnabled { motor_id: 5 })
    ));
    motor.enable(Ok(status(5))).unwrap();
    assert_eq!(motor.mit_request(MitWords::zero()).unwrap().0, 0x017F_FF05);
    assert_eq!(motor.mit_control(Ok(status(5))).unwrap().motor_id, 5);
    assert!(motor.mit_control(Err(timeout(5))).is_err());
}

#[test]
fn run_modes_change_once_sent() {
    let mut motor = Motor::new(5, 0xFD, MotorModel::Rs05);
    assert_eq!(
        motor.run_mode_request(RunMode::Velocity),
        (0x1200_FD05, vec![0x05, 0x70, 0, 0, 2, 0, 0, 0])
    );
    let failed: Result<()> = Err(RobstrideError::CanSocket("busy".to_string()));
    assert!(motor.set_run_mode(RunMode::Velocity, failed).is_err());
    assert_eq!(motor.current_run_mode(), RunMode::Mit);
    assert!(motor.set_run_mode(RunMode::Velocity, Ok(())).is_ok());
    assert_eq!(motor.current_run_mode(), RunMode::Velocity);
}

#[test]
fn set_points_are_parameters() {
    let motor = Motor::new(5, 0xFD, MotorModel::Rs05);
    let bits = 1.0f32.to_bits();
    let payload = |low: u8| vec![low, 0x70, 0, 0, 0, 0, 0x80, 0x3F];
    assert_eq!(motor.set_position(bits), (0x1200_FD05, payload(0x16)));
    assert_eq!(motor.set_position_speed_limit(bits), (0x1200_FD05, payload(0x17)));
    assert_eq!(motor.set_torque_limit(bits), (0x1200_FD05, payload(0x0B)));
    assert_eq!(motor.set_current_limit(bits), (0x1200_FD05, payload(0x18)));
    assert_eq!(motor.set_velocity(bits), (0x1200_FD05, payload(0x0A)));
    assert_eq!(motor.set_torque(bits), (0x1200_FD05, payload(0x06)));
    assert_eq!(motor.write_param_f32(ParamIndex::LocKp, bits), (0x1200_FD05, payload(0x1E)));
    assert_eq!(motor.set_zero().0, 0x0600_FD05);
}

#[test]
fn parameters_are_read() {
    let motor = Motor::new(5, 0xFD, MotorModel::Rs05);
    let request = |low: u8| (0x1100_FD05, vec![low, 0x70, 0, 0, 0, 0, 0, 0]);
    assert_eq!(motor.param_request(ParamIndex::LimitSpd), request(0x17));
    assert_eq!(motor.read_position(), request(0x19));
    assert_eq!(motor.read_velocity(), request(0x1B));
    assert_eq!(motor.read_current(), request(0x1A));
    assert_eq!(motor.read_vbus(), request(0x1C));
    let reply = Received {
        comm_type: 17,
        extra_data: 5,
        device_id: 0xFD,
        data: vec![0x17, 0x70, 0, 0, 0, 0, 0x20, 0x41],
    };
    assert_eq!(motor.read_param(ParamIndex::LimitSpd, Ok(reply)).unwrap(), 10.0f32.to_bits());
    let other = |comm_type: u8, low: u8| Received {
        comm_type,
        extra_data: 5,
        device_id: 0xFD,
        data: vec![low, 0x70, 0, 0, 0, 0, 0x20, 0x41],
    };
    match motor.read_param(ParamIndex::LimitSpd, Ok(other(17, 0x18))) {
        Err(RobstrideError::InvalidResponse { msg }) => {
            assert_eq!(msg, "Expected parameter 0x7017, got 0x7018")
        }
        other => panic!("unexpected: {:?}", other),
    }
    match motor.read_param(ParamIndex::LimitSpd, Ok(other(2, 0x17))) {
        Err(RobstrideError::InvalidResponse { msg }) => {
            assert_eq!(msg, "Expected ReadParameter (type=17), got type=2 from device=253")
        }
        other => panic!("unexpected: {:?}", other),
    }
    let short = Received { comm_type: 17, extra_data: 5, device_id: 0xFD, data: vec![0; 4] };
    match motor.read_param(ParamIndex::LimitSpd, Ok(short)) {
        Err(RobstrideError::InvalidResponse { msg }) => {
            assert_eq!(msg, "Failed to parse parameter response")
        }
        other => panic!("unexpected: {:?}", other),
    }
    assert!(motor.read_param(ParamIndex::LimitSpd, Err(timeout(5))).is_err());
}

#[test]
fn pings_and_status_requests() {
    let motor = Motor::new(5, 0xFD, MotorModel::Rs05);
    assert_eq!(motor.ping_request(), (0x0000_FD05, vec![0; 8]));
    let (id, uuid) = motor.ping(Ok(status(5))).unwrap();
    assert_eq!(id, 0x8005);
    assert_eq!(uuid.len(), 8);
    assert!(motor.ping(Err(timeout(5))).is_err());
    match motor.ping(Ok(status(6))) {
        Err(RobstrideError::InvalidResponse { msg }) => {
            assert_eq!(msg, "Expected an answer of motor 5, got type=2 from device=253")
        }
        other => panic!("unexpected: {:?}", other),
    }
    let echo = Received { comm_type: 0, extra_data: 0xFD, device_id: 5, data: vec![0; 8] };
    assert!(motor.ping(Ok(echo)).is_err());
    assert!(motor.read_status(Ok(status(5))).is_ok());
    assert!(motor.read_status(Ok(status(6))).is_err());
    assert!(motor.mit_control(Ok(status(6))).is_err());
}

#[test]
fn what_answers_a_ping() {
    // The motor answers with its own ID in the extra data and the host as device.
    assert!(is_ping_answer(&frame(CommType::GetDeviceId, 5, 0xFE, &[]), 5));
    assert!(is_ping_answer(&frame(CommType::OperationStatus, 0, 5, &[]), 5));
    // The echo of the ping, another motor and a short identifier do not.
    assert!(!is_ping_answer(&frame(CommType::GetDeviceId, 0xFD, 5, &[]), 5));
    assert!(!is_ping_answer(&frame(CommType::OperationStatus, 6, 0xFD, &[]), 5));
    assert!(!is_ping_answer(&RxFrame { extended: false, raw_id: 5, data: vec![] }, 5));
}

#[test]
fn a_scan_of_the_bus() {
    let mut scan = Motor::scan_bus(0xFD, 4, 6);
    assert_eq!(scan.progress(), (0, 3, 4));
    assert_eq!(scan.request().unwrap(), (0x0000_FD04, vec![0; 8]));
    assert!(!scan.step(ScanEvent::Unsent));
    assert_eq!(scan.progress(), (1, 3, 5));
    // The echo is passed over, the answer is noted.
    assert!(scan.step(ScanEvent::Frame(frame(CommType::GetDeviceId, 0xFD, 5, &[]))));
    assert!(!scan.step(ScanEvent::Frame(frame(CommType::GetDeviceId, 5, 0xFE, &[1, 2]))));
    assert_eq!(scan.request().unwrap().0, 0x0000_FD06);
    assert!(!scan.step(ScanEvent::Over));
    assert!(scan.request().is_none());
    assert_eq!(scan.progress(), (3, 3, 0));
    assert_eq!(scan.found, vec![(5, Some(vec![1, 2]))]);
}

#[test]
fn a_passive_dump() {
    let mut frames = Vec::new();
    assert!(Motor::dump_bus(&mut frames, BusEvent::WouldBlock));
    let seen = frame(CommType::Enable, 0xFD, 5, &[1]);
    assert!(Motor::dump_bus(&mut frames, BusEvent::Frame(seen)));
    assert!(!Motor::dump_bus(&mut frames, BusEvent::Expired));
    assert!(!Motor::dump_bus(&mut frames, BusEvent::Failed("gone".to_string())));
    assert_eq!(frames, vec![(0x0300_FD05, vec![1])]);
}

#[test]
fn error_messages() {
    let text = |s: &str| s.to_string();
    assert_eq!(RobstrideError::CanSocket(text("down")).message(), "CAN socket error: down");
    assert_eq!(timeout(7).message(), "Timeout waiting for motor response (motor_id=7)");
    assert_eq!(
        RobstrideError::InvalidResponse { msg: text("short") }.message(),
        "Invalid response from motor: short"
    );
    assert_eq!(
        RobstrideError::MotorFault { code: 0x15 }.message(),
        "Motor fault detected: code=0x15"
    );
    let range = RobstrideError::OutOfRange {
        param: text("kp"),
        value: text("600"),
        min: text("0"),
        max: text("500"),
    };
    assert_eq!(range.message(), "Parameter value out of range: kp = 600 (expected 0..500)");
    assert_eq!(
        RobstrideError::NotEnabled { motor_id: 3 }.message(),
        "Motor not enabled (motor_id=3)"
    );
    assert_eq!(RobstrideError::SerialPort(text("x")).message(), "Serial port error: x");
    assert_eq!(RobstrideError::Other(text("locked")).message(), "locked");
}

#[test]
fn a_status_frame_is_read_as_its_sender() {
    let sent = frame(
        CommType::OperationStatus,
        0x8007,
        0xFD,
        &[0x80, 0, 0x7F, 0xFF, 0x12, 0x34, 0x01, 0x2C],
    );
    let received = match recv_step(7, BusEvent::Frame(sent)) {
        RecvStep::Done(received) => received,
        other => panic!("unexpected: {:?}", other),
    };
    let feedback = read_answer(&received, 7).unwrap();
    assert_eq!(feedback.motor_id, 7);
    assert_eq!(feedback.status.device_id, 7);
    assert_eq!((feedback.position, feedback.velocity, feedback.torque), (0x8000, 0x7FFF, 0x1234));
    assert_eq!(feedback.temperature, 300);
}
