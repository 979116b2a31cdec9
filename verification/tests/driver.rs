//! Drivers, motors by vendor, locks and the bilateral loop.

use robstride_sandbox::bilateral::{
    loop_error, pause_us, torque_command, AxisState, BilateralConfig, BilateralLoop,
    BilateralMethod, LoopAction, LoopPhase, Role,
};
use robstride_sandbox::can_lock::{in_use_error, lock_path, open_error, read_pid, stamp};
use robstride_sandbox::driver::{
    pick_status, wait_left, DamiaoModel, MotorSpec, RobstrideDriver,
};
use robstride_sandbox::error::RobstrideError;
use robstride_sandbox::motor::Received;
use robstride_sandbox::protocol::{
    MitWords, MotorFeedback, MotorModel, MotorStatusBits, ParamIndex,
};

fn status(id: u8) -> Received {
    Received {
        comm_type: 2,
        extra_data: 0x8000 + id as u16,
        device_id: 0xFD,
        data: vec![0x80, 0, 0x7F, 0xFF, 0x12, 0x34, 1, 0],
    }
}

fn feedback(motor_id: u8, position: u16, torque: u16) -> MotorFeedback {
    MotorFeedback {
        motor_id,
        position,
        velocity: 0x7FFF,
        torque,
        temperature: 250,
        status: MotorStatusBits::default(),
    }
}

#[test]
fn waits_never_fall_below_a_millisecond() {
    assert_eq!(wait_left(10_000, 4_000), 6_000);
    assert_eq!(wait_left(10_000, 9_500), 1_000);
    assert_eq!(wait_left(10_000, 20_000), 1_000);
}

#[test]
fn a_driver_builds_frames_and_picks_answers() {
    let driver = RobstrideDriver::new(0xFD, 5, MotorModel::Rs03);
    assert_eq!(driver.motor_id(), 5);
    assert_eq!(driver.model(), MotorModel::Rs03);
    assert_eq!(driver.enable().0, 0x0300_FD05);
    assert_eq!(driver.disable().0, 0x0400_FD05);
    assert_eq!(driver.mit_exchange(MitWords::zero()).0, 0x017F_FF05);
    assert_eq!(driver.read_position().1[..2], [0x19, 0x70]);
    assert_eq!(driver.read_velocity().1[..2], [0x1B, 0x70]);
    assert_eq!(driver.read_param(ParamIndex::Vbus).1[..2], [0x1C, 0x70]);
    assert_eq!(driver.torque_limit(), 300);
    assert_eq!(driver.description(), "Robstride RS-03 ID:5");
    assert_eq!(driver.mit_reply(&status(5)).unwrap().torque, 0x1234);
    assert!(driver.mit_reply(&status(6)).is_none());
    let reply = Received { data: vec![0x19, 0x70, 0, 0, 0, 0, 0x80, 0x3F], ..status(5) };
    assert_eq!(driver.param_reply(&reply), Some(1.0f32.to_bits()));
    assert_eq!(driver.param_reply(&Received { data: vec![], ..status(5) }), None);
}

#[test]
fn an_answer_belongs_to_one_driver() {
    let answer = status(5);
    let takers: Vec<u8> = (0..=255u8).filter(|id| pick_status(&answer, *id).is_some()).collect();
    assert_eq!(takers, vec![5]);
    assert!(pick_status(&Received { comm_type: 21, ..status(5) }, 5).is_none());
    assert!(pick_status(&Received { data: vec![0; 7], ..status(5) }, 5).is_none());
}

#[test]
fn motors_by_vendor() {
    assert_eq!(DamiaoModel::from_str_ci("DM4310"), Some(DamiaoModel::DmJ4310));
    assert_eq!(DamiaoModel::from_str_ci("dm-j4310-2EC"), Some(DamiaoModel::DmJ4310));
    assert_eq!(DamiaoModel::from_str_ci("rs05"), None);
    let rs = MotorSpec::robstride(0xFD, 7, MotorModel::Rs05);
    let dm = MotorSpec::damiao(7, 0, DamiaoModel::DmJ4310);
    assert_eq!(rs.can_id(), 7);
    assert_eq!(dm.can_id(), 7);
    assert!(!rs.is_damiao());
    assert!(dm.is_damiao());
    assert_eq!(rs.description(), "Robstride RS-05 ID:7");
    assert_eq!(rs.model_label(), "RS-05");
    assert_eq!(dm.model_label(), "DM-J4310");
    // Motors of different vendors with the same ID have different keys.
    assert_ne!(rs.key(), dm.key());
    assert_eq!(rs.key(), MotorSpec::robstride(1, 7, MotorModel::Rs00).key());
    // Offsets and polarity change neither the ID nor the key.
    assert_eq!(rs.with_soft_zero(1.5f64.to_bits()).with_invert(true).key(), rs.key());
}

#[test]
fn lock_files_are_named_after_the_interface() {
    assert_eq!(lock_path("can0"), "/tmp/robstride-can0.lock");
    assert_eq!(lock_path("vcan-1_a"), "/tmp/robstride-vcan-1_a.lock");
    assert_eq!(lock_path("../etc/x y"), "/tmp/robstride-___etc_x_y.lock");
    assert_eq!(lock_path("é0"), "/tmp/robstride-é0.lock");
    assert_eq!(lock_path(""), "/tmp/robstride-.lock");
    assert_ne!(lock_path("can0"), lock_path("can1"));
}

#[test]
fn a_stamp_names_the_holder() {
    assert_eq!(stamp(4711, "can0"), "4711 can0\n");
    assert_eq!(read_pid(Some(stamp(4711, "can 0").as_str())), "4711");
    assert_eq!(read_pid(Some("  12\u{2003}x")), "12");
    assert_eq!(read_pid(Some(" \n")), "<unknown>");
    assert_eq!(read_pid(None), "<unknown>");
}

#[test]
fn lock_errors() {
    assert_eq!(
        open_error("can0", "denied").message(),
        "failed to open lock file /tmp/robstride-can0.lock: denied"
    );
    assert_eq!(
        in_use_error("can0", Some("12 can0"), "EAGAIN").message(),
        "CAN interface 'can0' is already in use by PID 12 (lock /tmp/robstride-can0.lock). \
         Stop the other process or use a different interface. (errno: EAGAIN)"
    );
}

#[test]
fn methods_and_their_names() {
    assert_eq!(BilateralMethod::from_short("POS"), Some(BilateralMethod::PositionMirroring));
    assert_eq!(BilateralMethod::from_short("position"), Some(BilateralMethod::PositionMirroring));
    assert_eq!(BilateralMethod::from_short("2"), Some(BilateralMethod::ForceReflecting));
    assert_eq!(BilateralMethod::from_short("virtual"), Some(BilateralMethod::VirtualCoupling));
    assert_eq!(BilateralMethod::from_short("4ch"), Some(BilateralMethod::ModeSpace));
    assert_eq!(BilateralMethod::from_short("ondemand"), None);
    assert_eq!(BilateralMethod::ModeSpace.label(), "Mode Space (4ch)");
    assert_eq!(BilateralMethod::all().len(), 4);
    for method in BilateralMethod::all() {
        assert_eq!(BilateralMethod::from_short(method.short()), Some(method));
    }
}

fn running(method: BilateralMethod) -> BilateralLoop {
    let config = BilateralConfig { method, ..BilateralConfig::default() };
    let mut control = BilateralLoop::new(&config);
    assert_eq!(control.action(), LoopAction::Enable(10));
    control.enabled(Ok(())).unwrap();
    assert_eq!(control.action(), LoopAction::Enable(1));
    control.enabled(Ok(())).unwrap();
    assert_eq!(control.action(), LoopAction::Read(10));
    control.read(Ok(feedback(10, 100, 0))).unwrap();
    assert_eq!(control.action(), LoopAction::Read(1));
    control.read(Ok(feedback(1, 200, 0))).unwrap();
    assert_eq!(control.action(), LoopAction::CheckStop);
    control
}

#[test]
fn the_loop_addresses_the_motors_in_turn() {
    let eight = vec![0u8; 8];
    let rest = vec![0x7F, 0xFF, 0x7F, 0xFF, 0, 0, 0, 0];
    let mut control = BilateralLoop::new(&BilateralConfig::default());
    assert_eq!(control.request(5), Some((0x0300_FD0A, eight.clone())));
    assert_eq!(control.reply(&status(10)), None);
    control.enabled(Ok(())).unwrap();
    assert_eq!(control.request(5), Some((0x0300_FD01, eight)));
    control.enabled(Ok(())).unwrap();
    assert_eq!(control.request(5), Some((0x017F_FF0A, rest.clone())));
    // Only the status of the motor that was asked is its answer.
    assert_eq!(control.reply(&status(1)), None);
    control.read(Ok(control.reply(&status(10)).unwrap())).unwrap();
    assert_eq!(control.request(5), Some((0x017F_FF01, rest.clone())));
    control.read(Ok(control.reply(&status(1)).unwrap())).unwrap();
    assert_eq!(control.request(5), None);
    control.begin(false);
    assert_eq!(control.request(0x8123), Some((0x0181_230A, rest.clone())));
    let answer = control.reply(&status(10));
    assert_eq!(answer.unwrap().motor_id, 10);
    control.driven(answer);
    assert_eq!(control.request(0x8123), Some((0x0181_2301, rest)));
    assert_eq!(control.reply(&status(10)), None);
    assert!(control.driven(control.reply(&status(1))).is_some());
    control.begin(true);
    assert_eq!(control.request(5), None);
}

#[test]
fn the_loop_reads_before_it_drives() {
    let control = running(BilateralMethod::VirtualCoupling);
    assert_eq!(control.leader, AxisState { position: 100, velocity: 0x7FFF });
    assert_eq!(control.follower, AxisState { position: 200, velocity: 0x7FFF });
    assert_eq!(control.follower_torque, None);
}

#[test]
fn complete_cycles_are_reported() {
    let mut control = running(BilateralMethod::ForceReflecting);
    for cycle in 0..11u64 {
        control.begin(false);
        assert_eq!(control.action(), LoopAction::Drive(10, Role::Leader));
        assert!(control.driven(Some(feedback(10, 300, 1))).is_none());
        assert_eq!(control.action(), LoopAction::Drive(1, Role::Follower));
        let report = control.driven(Some(feedback(1, 400, 77))).unwrap();
        assert_eq!(report.cycle, cycle);
        assert_eq!(report.publish, cycle == 0 || cycle == 10);
        assert_eq!((report.leader.position, report.follower.position), (300, 400));
    }
    assert_eq!(control.follower_torque, Some(77));
    assert_eq!(control.cycle, 11);
}

#[test]
fn only_force_reflection_keeps_the_torque() {
    let mut control = running(BilateralMethod::PositionMirroring);
    control.begin(false);
    control.driven(Some(feedback(10, 300, 1)));
    control.driven(Some(feedback(1, 400, 77)));
    assert_eq!(control.follower_torque, None);
}

#[test]
fn a_lost_answer_costs_the_cycle_only() {
    let before = running(BilateralMethod::VirtualCoupling);
    let mut leader_lost = before;
    leader_lost.begin(false);
    assert!(leader_lost.driven(None).is_none());
    let mut follower_lost = before;
    follower_lost.begin(false);
    follower_lost.driven(Some(feedback(10, 999, 1)));
    assert!(follower_lost.driven(None).is_none());
    assert_eq!(leader_lost, follower_lost);
    assert_eq!(leader_lost, BilateralLoop { cycle: 1, ..before });
}

#[test]
fn the_loop_ends_by_disabling_both_motors() {
    let mut control = running(BilateralMethod::VirtualCoupling);
    control.begin(true);
    assert_eq!(control.action(), LoopAction::Finish);
    let ids: Vec<u32> = control.finish().into_iter().map(|f| f.0).collect();
    assert_eq!(ids, vec![0x0400_FD0A, 0x0400_FD01]);
}

#[test]
fn a_failed_start_is_handed_on() {
    let mut control = BilateralLoop::new(&BilateralConfig::default());
    assert!(control.enabled(Err(RobstrideError::CanSocket("down".to_string()))).is_err());
    assert_eq!(control.phase, LoopPhase::EnableLeader);
    control.enabled(Ok(())).unwrap();
    control.enabled(Ok(())).unwrap();
    assert!(control.read(Err(RobstrideError::Timeout { motor_id: 10 })).is_err());
    assert_eq!(control.phase, LoopPhase::ReadLeader);
    assert_eq!(
        loop_error(&RobstrideError::Timeout { motor_id: 10 }),
        "Loop error: Timeout waiting for motor response (motor_id=10)"
    );
}

#[test]
fn torques_and_pauses() {
    assert_eq!(torque_command(0x8123), MitWords { torque: 0x8123, ..MitWords::zero() });
    assert_eq!(pause_us(2000, 500), 1500);
    assert_eq!(pause_us(2000, 2000), 0);
    assert_eq!(pause_us(2000, 9000), 0);
}
