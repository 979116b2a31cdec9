//! Identifiers, frames and responses.

use robstride_sandbox::protocol::{
    build_can_id, build_can_id_raw, build_disable_frame, build_enable_frame, build_mit_frame,
    build_ping_frame, build_read_param_frame, build_run_mode_frame, build_set_zero_frame,
    build_write_param_f32_frame, build_write_param_i8_frame, parse_can_id, parse_param_response,
    parse_status_bits, parse_status_frame, CommType, MitScales, MitWords, MotorModel, ParamIndex,
    RunMode, DEFAULT_HOST_ID, MAX_EXTENDED_ID,
};

const MODELS: [MotorModel; 7] = [
    MotorModel::Rs00,
    MotorModel::Rs01,
    MotorModel::Rs02,
    MotorModel::Rs03,
    MotorModel::Rs04,
    MotorModel::Rs05,
    MotorModel::Rs06,
];

#[test]
fn test_can_id_roundtrip() {
    let id = build_can_id(CommType::OperationControl, 0x7FFF, 0x01);
    let (ct, extra, dev) = parse_can_id(id);
    assert_eq!(ct, CommType::OperationControl.code());
    assert_eq!(extra, 0x7FFF);
    assert_eq!(dev, 0x01);
}

#[test]
fn test_can_id_enable() {
    // Enable motor ID 1 from host 0xFF
    let id = build_can_id(CommType::Enable, 0xFF, 0x01);
    assert_eq!(id, (3 << 24) | (0xFF << 8) | 1);
    let (ct, extra, dev) = parse_can_id(id);
    assert_eq!(ct, 3);
    assert_eq!(extra, 0xFF);
    assert_eq!(dev, 1);
}

#[test]
fn test_status_bits_parsing() {
    // Example extra_data with device_id=1, undervoltage set
    let extra = (1 << 8) | 1; // undervoltage + device_id=1
    let bits = parse_status_bits(extra);
    assert!(bits.undervoltage);
    assert_eq!(bits.device_id, 1);
    assert!(!bits.overcurrent);
}

#[test]
fn identifiers_keep_their_fields_apart() {
    assert_eq!(build_can_id(CommType::SetProtocol, 0xFFFF, 0xFF), 0x19FF_FFFF);
    assert!(build_can_id(CommType::SetProtocol, 0xFFFF, 0xFF) <= MAX_EXTENDED_ID);
    assert_eq!(build_can_id_raw(31, 0x1234, 0x56), 0x1F12_3456);
    // The type has five bits: what stands above them is no part of it.
    assert_eq!(parse_can_id(0xFF12_3456), (31, 0x1234, 0x56));
    assert_eq!(parse_can_id(0), (0, 0, 0));
}

#[test]
fn identifiers_are_rebuilt_from_their_fields() {
    for id in [0u32, 1, 0x0300_FF01, 0x1280_7FFF, 0x1FFF_FFFF] {
        let (comm_type, extra, device) = parse_can_id(id);
        assert_eq!(build_can_id_raw(comm_type, extra, device), id);
    }
}

#[test]
fn communication_types_have_their_numbers() {
    assert_eq!(CommType::GetDeviceId.code(), 0);
    assert_eq!(CommType::OperationControl.code(), 1);
    assert_eq!(CommType::OperationStatus.code(), 2);
    assert_eq!(CommType::Enable.code(), 3);
    assert_eq!(CommType::Disable.code(), 4);
    assert_eq!(CommType::SetZeroPosition.code(), 6);
    assert_eq!(CommType::SetDeviceId.code(), 7);
    assert_eq!(CommType::ReadParameter.code(), 17);
    assert_eq!(CommType::WriteParameter.code(), 18);
    assert_eq!(CommType::FaultReport.code(), 21);
    assert_eq!(CommType::SaveParameters.code(), 22);
    assert_eq!(CommType::SetBaudrate.code(), 23);
    assert_eq!(CommType::ActiveReport.code(), 24);
    assert_eq!(CommType::SetProtocol.code(), 25);
    assert_eq!(DEFAULT_HOST_ID, 0xFF);
}

#[test]
fn run_modes_and_parameters_have_their_numbers() {
    assert_eq!(RunMode::Mit.code(), 0);
    assert_eq!(RunMode::Position.code(), 1);
    assert_eq!(RunMode::Velocity.code(), 2);
    assert_eq!(RunMode::Torque.code(), 3);
    assert_eq!(RunMode::Velocity.name(), "Velocity");
    assert_eq!(ParamIndex::RunMode.code(), 0x7005);
    assert_eq!(ParamIndex::MechPos.code(), 0x7019);
    assert_eq!(ParamIndex::ZeroState.code(), 0x7029);
    assert_eq!(ParamIndex::MechOffset.code(), 0x2005);
}

#[test]
fn models_are_found_by_name_in_any_case() {
    assert_eq!(MotorModel::from_str("rs00"), Some(MotorModel::Rs00));
    assert_eq!(MotorModel::from_str("RS-03"), Some(MotorModel::Rs03));
    assert_eq!(MotorModel::from_str("EduLite05"), Some(MotorModel::Rs05));
    assert_eq!(MotorModel::from_str("edulite01"), Some(MotorModel::Rs01));
    assert_eq!(MotorModel::from_str("edulite03"), None);
    assert_eq!(MotorModel::from_str(""), None);
    // A letter outside ASCII has a lowercase form of its own: the Kelvin sign becomes a `k`.
    assert_eq!(MotorModel::from_str("rs0\u{212A}"), None);
}

#[test]
fn model_names_lead_back_to_the_model() {
    for model in MODELS {
        assert_eq!(MotorModel::from_str(model.name()), Some(model));
    }
    assert_eq!(MotorModel::Rs05.name(), "RS-05");
}

#[test]
fn scales_of_the_models() {
    let small = MitScales::for_model(MotorModel::Rs05);
    assert_eq!(small, MitScales { position: 4, velocity: 30, torque: 12, kp: 500, kd: 5 });
    let large = MitScales::for_model(MotorModel::Rs04);
    assert_eq!(large, MitScales { position: 4, velocity: 15, torque: 120, kp: 5000, kd: 100 });
}

#[test]
fn request_frames() {
    let eight = vec![0u8; 8];
    assert_eq!(build_ping_frame(0xFD, 5), (0x0000_FD05, eight.clone()));
    assert_eq!(build_enable_frame(0xFD, 5), (0x0300_FD05, eight.clone()));
    assert_eq!(build_disable_frame(0xFD, 5), (0x0400_FD05, eight));
    assert_eq!(build_set_zero_frame(0xFD, 5), (0x0600_FD05, vec![1, 0, 0, 0, 0, 0, 0, 0]));
    for data in [
        build_mit_frame(0xFD, 5, MitWords::zero()).1,
        build_read_param_frame(0xFD, 5, ParamIndex::Vbus).1,
        build_write_param_f32_frame(0xFD, 5, ParamIndex::SpdRef, 1).1,
        build_run_mode_frame(0xFD, 5, RunMode::Torque).1,
    ] {
        assert_eq!(data.len(), 8);
    }
}

#[test]
fn mit_frame_carries_the_torque_in_its_identifier() {
    let words =
        MitWords { position: 0x1234, velocity: 0x5678, kp: 0x9ABC, kd: 0xDEF0, torque: 0x8001 };
    let (id, data) = build_mit_frame(0xFD, 7, words);
    assert_eq!(id, 0x0180_0107);
    assert_eq!(data, vec![0x12, 0x34, 0x56, 0x78, 0x9A, 0xBC, 0xDE, 0xF0]);
    let rest = MitWords::zero();
    assert_eq!(build_mit_frame(0xFD, 7, rest), (0x017F_FF07, vec![0x7F, 0xFF, 0x7F, 0xFF, 0, 0, 0, 0]));
}

#[test]
fn parameter_frames() {
    assert_eq!(
        build_read_param_frame(0xFD, 1, ParamIndex::MechPos),
        (0x1100_FD01, vec![0x19, 0x70, 0, 0, 0, 0, 0, 0])
    );
    // The bits of 1.5 in single precision
    assert_eq!(
        build_write_param_f32_frame(0xFD, 1, ParamIndex::LocRef, 0x3FC0_0000),
        (0x1200_FD01, vec![0x16, 0x70, 0, 0, 0x00, 0x00, 0xC0, 0x3F])
    );
    assert_eq!(
        build_write_param_i8_frame(0xFD, 1, ParamIndex::RunMode, -2),
        (0x1200_FD01, vec![0x05, 0x70, 0, 0, 0xFE, 0, 0, 0])
    );
    assert_eq!(
        build_run_mode_frame(0xFD, 1, RunMode::Torque),
        (0x1200_FD01, vec![0x05, 0x70, 0, 0, 3, 0, 0, 0])
    );
}

#[test]
fn written_parameters_are_read_back() {
    let bits = 1.25f32.to_bits();
    let (_, data) = build_write_param_f32_frame(0xFD, 1, ParamIndex::LimitSpd, bits);
    assert_eq!(parse_param_response(&data), Some((ParamIndex::LimitSpd.code(), bits)));
    assert_eq!(parse_param_response(&data[..7]), None);
    assert_eq!(parse_param_response(&[]), None);
}

#[test]
fn status_bits_one_by_one() {
    let bits = parse_status_bits(0xFFFF);
    assert_eq!(bits.mode, 3);
    assert!(bits.uncalibrated && bits.stall && bits.magnetic_encoder_fault);
    assert!(bits.overtemperature && bits.overcurrent && bits.undervoltage);
    assert_eq!(bits.device_id, 0xFF);
    assert!(parse_status_bits(0x2000).uncalibrated);
    assert!(parse_status_bits(0x1000).stall);
    assert!(parse_status_bits(0x0800).magnetic_encoder_fault);
    assert!(parse_status_bits(0x0400).overtemperature);
    assert!(parse_status_bits(0x0200).overcurrent);
    assert_eq!(parse_status_bits(0x8000).mode, 2);
}

#[test]
fn status_frames() {
    let data = [0x80, 0x00, 0x7F, 0xFF, 0x12, 0x34, 0x01, 0x2C, 0xEE];
    let id = build_can_id(CommType::OperationStatus, 0x8105, 0xFD);
    let feedback = parse_status_frame(id, &data).unwrap();
    assert_eq!(feedback.motor_id, 5);
    assert_eq!(feedback.position, 0x8000);
    assert_eq!(feedback.velocity, 0x7FFF);
    assert_eq!(feedback.torque, 0x1234);
    assert_eq!(feedback.temperature, 300);
    assert_eq!(feedback.status.mode, 2);
    assert!(feedback.status.undervoltage);
    // Fault reports carry the same fields; other types and short payloads carry none.
    let fault = build_can_id(CommType::FaultReport, 0x8105, 0xFD);
    assert_eq!(parse_status_frame(fault, &data), Some(feedback));
    let enable = build_can_id(CommType::Enable, 0x8105, 0xFD);
    assert_eq!(parse_status_frame(enable, &data), None);
    assert_eq!(parse_status_frame(id, &data[..7]), None);
}
