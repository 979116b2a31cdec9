//! Bilateral control of two motors: a leader that is moved by hand and a follower.
//!
//! Four methods are known:
//!
//! 1. Position mirroring: the follower tracks the leader, without force feedback.
//! 2. Force reflecting: the follower tracks the leader, which feels the follower's force.
//! 3. Virtual coupling: a symmetric virtual spring and damper between the two.
//! 4. Mode space (4ch): differential and common mode with observers.
//!
//! The control loop is a state machine here: which motor is addressed next, what is kept of
//! its answer and when the loop reports. The torques that the methods command are computed
//! where the loop runs.

use vstd::prelude::*;

use crate::driver::pick_status;
use crate::error::{Result, RobstrideError};
use crate::motor::Received;
use crate::protocol::{
    build_disable_frame, build_enable_frame, build_mit_frame, CommType, MitWords, MotorFeedback,
    MotorModel,
};
use crate::text::{same_text, to_lowercase};

verus! {

// ---------------------------------------------------------------------------
// Methods
// ---------------------------------------------------------------------------

/// Which bilateral control method to use.
#[derive(Debug, Clone, Copy, PartialEq, Eq, Structural)]
pub enum BilateralMethod {
    /// The follower mirrors the leader's position. The leader runs free (low damping).
    PositionMirroring,
    /// The follower tracks the leader; the leader receives the reflected force.
    ForceReflecting,
    /// Virtual spring-damper coupling between the two motors.
    VirtualCoupling,
    /// Mode space (4ch) with observer-based force estimation.
    ModeSpace,
}

impl BilateralMethod {
    /// All methods, in order.
    pub fn all() -> (methods: Vec<BilateralMethod>)
        ensures
            methods@ == seq![
                BilateralMethod::PositionMirroring,
                BilateralMethod::ForceReflecting,
                BilateralMethod::VirtualCoupling,
                BilateralMethod::ModeSpace,
            ],
            forall|method: BilateralMethod| #[trigger] methods@.contains(method),
    {
        let methods = vec![
            BilateralMethod::PositionMirroring,
            BilateralMethod::ForceReflecting,
            BilateralMethod::VirtualCoupling,
            BilateralMethod::ModeSpace,
        ];
        proof {
            assert forall|method: BilateralMethod| #[trigger] methods@.contains(method) by {
                match method {
                    BilateralMethod::PositionMirroring => assert(methods@[0] == method),
                    BilateralMethod::ForceReflecting => assert(methods@[1] == method),
                    BilateralMethod::VirtualCoupling => assert(methods@[2] == method),
                    BilateralMethod::ModeSpace => assert(methods@[3] == method),
                }
            }
        }
        methods
    }

    /// The name of the method.
    pub open spec fn spec_label(self) -> Seq<char> {
        match self {
            BilateralMethod::PositionMirroring => "Position Mirroring"@,
            BilateralMethod::ForceReflecting => "Force Reflecting"@,
            BilateralMethod::VirtualCoupling => "Virtual Coupling"@,
            BilateralMethod::ModeSpace => "Mode Space (4ch)"@,
        }
    }

    /// The name of the method.
    pub fn label(&self) -> (label: &'static str)
        ensures
            label@ == self.spec_label(),
    {
        match self {
            BilateralMethod::PositionMirroring => "Position Mirroring",
            BilateralMethod::ForceReflecting => "Force Reflecting",
            BilateralMethod::VirtualCoupling => "Virtual Coupling",
            BilateralMethod::ModeSpace => "Mode Space (4ch)",
        }
    }

    /// The short name of the method.
    pub open spec fn spec_short(self) -> Seq<char> {
        match self {
            BilateralMethod::PositionMirroring => "pos"@,
            BilateralMethod::ForceReflecting => "force"@,
            BilateralMethod::VirtualCoupling => "coupling"@,
            BilateralMethod::ModeSpace => "mode"@,
        }
    }

    /// The short name of the method.
    pub fn short(&self) -> (short: &'static str)
        ensures
            short@ == self.spec_short(),
    {
        match self {
            BilateralMethod::PositionMirroring => "pos",
            BilateralMethod::ForceReflecting => "force",
            BilateralMethod::VirtualCoupling => "coupling",
            BilateralMethod::ModeSpace => "mode",
        }
    }

    /// The method that a lowercase short name stands for.
    pub open spec fn named(name: Seq<char>) -> Option<BilateralMethod> {
        if name == "pos"@ || name == "position"@ || name == "1"@ {
            Some(BilateralMethod::PositionMirroring)
        } else if name == "force"@ || name == "2"@ {
            Some(BilateralMethod::ForceReflecting)
        } else if name == "coupling"@ || name == "virtual"@ || name == "3"@ {
            Some(BilateralMethod::VirtualCoupling)
        } else if name == "mode"@ || name == "4ch"@ || name == "4"@ {
            Some(BilateralMethod::ModeSpace)
        } else {
            None
        }
    }

    /// Looks a method up by its short name, in any case.
    pub fn from_short(s: &str) -> (method: Option<BilateralMethod>)
        ensures
            method == BilateralMethod::named(crate::text::lowercase(s@)),
    {
        let lower = to_lowercase(s);
        let name = lower.as_str();
        if same_text(name, "pos") || same_text(name, "position") || same_text(name, "1") {
            Some(BilateralMethod::PositionMirroring)
        } else if same_text(name, "force") || same_text(name, "2") {
            Some(BilateralMethod::ForceReflecting)
        } else if same_text(name, "coupling") || same_text(name, "virtual") || same_text(
            name,
            "3",
        ) {
            Some(BilateralMethod::VirtualCoupling)
        } else if same_text(name, "mode") || same_text(name, "4ch") || same_text(name, "4") {
            Some(BilateralMethod::ModeSpace)
        } else {
            None
        }
    }
}

/// A short name, looked up again, gives the method that it came from.
pub proof fn law_short_roundtrip(method: BilateralMethod)
    ensures
        BilateralMethod::named(crate::text::lowercase(method.spec_short())) == Some(method),
{
    reveal_strlit("pos");
    reveal_strlit("position");
    reveal_strlit("1");
    reveal_strlit("force");
    reveal_strlit("2");
    reveal_strlit("coupling");
    reveal_strlit("virtual");
    reveal_strlit("3");
    reveal_strlit("mode");
    let short = method.spec_short();
    assert(vstd::utf8::is_ascii_chars(short));
    assert(crate::text::lowercase(short) =~= short);
    assert("coupling"@[0] != "position"@[0]);
}

/// Configuration of a bilateral control loop, without its gains.
#[derive(Debug)]
pub struct BilateralConfig {
    pub interface: String,
    pub host_id: u8,
    pub leader_id: u8,
    pub follower_id: u8,
    pub model: MotorModel,
    pub method: BilateralMethod,
    /// Target loop period [us]
    pub loop_period_us: u64,
}

impl Default for BilateralConfig {
    fn default() -> (config: BilateralConfig)
        ensures
            config.interface@ == "can0"@,
            config.host_id == 0xFD,
            config.leader_id == 10,
            config.follower_id == 1,
            config.model == MotorModel::Rs05,
            config.method == BilateralMethod::VirtualCoupling,
            config.loop_period_us == 2000,
    {
        BilateralConfig {
            interface: "can0".to_owned(),
            host_id: 0xFD,
            leader_id: 10,
            follower_id: 1,
            model: MotorModel::Rs05,
            method: BilateralMethod::VirtualCoupling,
            loop_period_us: 2000,
        }
    }
}

// ---------------------------------------------------------------------------
// The loop
// ---------------------------------------------------------------------------

/// Where the control loop stands.
#[derive(Debug, Clone, Copy, PartialEq, Eq, Structural)]
pub enum LoopPhase {
    /// The leader is to be enabled.
    EnableLeader,
    /// The follower is to be enabled.
    EnableFollower,
    /// The leader is to report where it is.
    ReadLeader,
    /// The follower is to report where it is.
    ReadFollower,
    /// A control cycle is to begin.
    Begin,
    /// The leader is to get its torque.
    DriveLeader,
    /// The follower is to get its torque. What the leader answered is kept until then.
    DriveFollower(MotorFeedback),
    /// Both motors are to be disabled.
    Finish,
}

/// What the controller goes by: where a motor was last seen.
#[derive(Debug, Clone, Copy, PartialEq, Eq, Structural)]
pub struct AxisState {
    /// Position word
    pub position: u16,
    /// Velocity word
    pub velocity: u16,
}

impl AxisState {
    /// What of a feedback the controller goes by.
    pub open spec fn of(feedback: MotorFeedback) -> AxisState {
        AxisState { position: feedback.position, velocity: feedback.velocity }
    }

    /// What of a feedback the controller goes by.
    pub fn from_feedback(feedback: &MotorFeedback) -> (axis: AxisState)
        ensures
            axis == AxisState::of(*feedback),
    {
        AxisState { position: feedback.position, velocity: feedback.velocity }
    }
}

/// What one control cycle achieved.
#[derive(Debug, Clone, Copy, PartialEq, Eq, Structural)]
pub struct CycleReport {
    pub leader: MotorFeedback,
    pub follower: MotorFeedback,
    /// Number of the cycle
    pub cycle: u64,
    /// Whether the telemetry is due in this cycle
    pub publish: bool,
}

/// The state of a control loop.
#[derive(Debug, Clone, Copy, PartialEq, Eq, Structural)]
pub struct BilateralLoop {
    pub host_id: u8,
    pub leader_id: u8,
    pub follower_id: u8,
    pub method: BilateralMethod,
    pub phase: LoopPhase,
    pub leader: AxisState,
    pub follower: AxisState,
    /// Torque word that stands for the force on the follower, once there is one
    pub follower_torque: Option<u16>,
    /// Control cycles executed
    pub cycle: u64,
}

/// The part of a motor in bilateral control.
#[derive(Debug, Clone, Copy, PartialEq, Eq, Structural)]
pub enum Role {
    Leader,
    Follower,
}

/// What the loop asks for next.
#[derive(Debug, Clone, Copy, PartialEq, Eq, Structural)]
pub enum LoopAction {
    /// Enable a motor, and pause shortly.
    Enable(u8),
    /// Ask a motor where it is.
    Read(u8),
    /// Look whether the loop is to stop.
    CheckStop,
    /// Command a motor the torque of its part.
    Drive(u8, Role),
    /// Disable both motors and end.
    Finish,
}

/// The identifier and the payload of a MIT command.
pub open spec fn mit_frame(motor_id: u8, words: MitWords) -> (u32, Seq<u8>) {
    (
        crate::protocol::can_id(CommType::OperationControl.spec_code(), words.torque, motor_id),
        crate::protocol::mit_payload(words),
    )
}

impl BilateralLoop {
    /// What the loop asks for next.
    pub open spec fn spec_action(self) -> LoopAction {
        match self.phase {
            LoopPhase::EnableLeader => LoopAction::Enable(self.leader_id),
            LoopPhase::EnableFollower => LoopAction::Enable(self.follower_id),
            LoopPhase::ReadLeader => LoopAction::Read(self.leader_id),
            LoopPhase::ReadFollower => LoopAction::Read(self.follower_id),
            LoopPhase::Begin => LoopAction::CheckStop,
            LoopPhase::DriveLeader => LoopAction::Drive(self.leader_id, Role::Leader),
            LoopPhase::DriveFollower(_) => LoopAction::Drive(self.follower_id, Role::Follower),
            LoopPhase::Finish => LoopAction::Finish,
        }
    }

    /// The frame that the next action sends: the enable frame, a MIT command for nothing, which
    /// a motor answers with where it is, or the MIT command of a torque, given by its word.
    pub open spec fn spec_request(self, torque: u16) -> Option<(u32, Seq<u8>)> {
        match self.spec_action() {
            LoopAction::Enable(id) => Some(
                (
                    crate::protocol::can_id(
                        CommType::Enable.spec_code(),
                        self.host_id as u16,
                        id,
                    ),
                    crate::protocol::no_payload(),
                ),
            ),
            LoopAction::Read(id) => Some(mit_frame(id, MitWords::rest())),
            LoopAction::Drive(id, _) => Some(
                mit_frame(id, MitWords { torque, ..MitWords::rest() }),
            ),
            _ => None,
        }
    }

    /// The feedback in a frame, if it is the answer that the next action waits for: the status
    /// of the motor that it addresses.
    pub open spec fn spec_reply(self, received: Received) -> Option<MotorFeedback> {
        match self.spec_action() {
            LoopAction::Read(id) => crate::driver::status_from(received, id),
            LoopAction::Drive(id, _) => crate::driver::status_from(received, id),
            _ => None,
        }
    }

    /// A cycle in which a motor did not answer: the last values are kept, the cycle counts.
    pub open spec fn lost(self) -> BilateralLoop {
        BilateralLoop { phase: LoopPhase::Begin, cycle: (self.cycle + 1) as u64, ..self }
    }

    /// A cycle in which both motors answered. With force reflection the follower's torque is
    /// kept as the force on it.
    pub open spec fn done(self, leader: MotorFeedback, follower: MotorFeedback) -> BilateralLoop {
        BilateralLoop {
            phase: LoopPhase::Begin,
            leader: AxisState::of(leader),
            follower: AxisState::of(follower),
            follower_torque: if self.method == BilateralMethod::ForceReflecting {
                Some(follower.torque)
            } else {
                self.follower_torque
            },
            cycle: (self.cycle + 1) as u64,
            ..self
        }
    }

    /// A loop that has not begun.
    pub fn new(config: &BilateralConfig) -> (control: BilateralLoop)
        ensures
            control == (BilateralLoop {
                host_id: config.host_id,
                leader_id: config.leader_id,
                follower_id: config.follower_id,
                method: config.method,
                phase: LoopPhase::EnableLeader,
                leader: AxisState { position: 0x7FFF, velocity: 0x7FFF },
                follower: AxisState { position: 0x7FFF, velocity: 0x7FFF },
                follower_torque: None,
                cycle: 0,
            }),
    {
        let unknown = AxisState { position: 0x7FFF, velocity: 0x7FFF };
        BilateralLoop {
            host_id: config.host_id,
            leader_id: config.leader_id,
            follower_id: config.follower_id,
            method: config.method,
            phase: LoopPhase::EnableLeader,
            leader: unknown,
            follower: unknown,
            follower_torque: None,
            cycle: 0,
        }
    }

    /// What the loop asks for next.
    pub fn action(&self) -> (action: LoopAction)
        ensures
            action == self.spec_action(),
    {
        match self.phase {
            LoopPhase::EnableLeader => LoopAction::Enable(self.leader_id),
            LoopPhase::EnableFollower => LoopAction::Enable(self.follower_id),
            LoopPhase::ReadLeader => LoopAction::Read(self.leader_id),
            LoopPhase::ReadFollower => LoopAction::Read(self.follower_id),
            LoopPhase::Begin => LoopAction::CheckStop,
            LoopPhase::DriveLeader => LoopAction::Drive(self.leader_id, Role::Leader),
            LoopPhase::DriveFollower(_) => LoopAction::Drive(self.follower_id, Role::Follower),
            LoopPhase::Finish => LoopAction::Finish,
        }
    }

    /// Builds the frame that the next action sends. Only a torque command takes the torque.
    pub fn request(&self, torque: u16) -> (frame: Option<(u32, Vec<u8>)>)
        ensures
            match frame {
                Some(f) => self.spec_request(torque) == Some((f.0, f.1@)),
                None => self.spec_request(torque) is None,
            },
    {
        match self.action() {
            LoopAction::Enable(id) => Some(build_enable_frame(self.host_id, id)),
            LoopAction::Read(id) => Some(build_mit_frame(self.host_id, id, MitWords::zero())),
            LoopAction::Drive(id, _) => Some(
                build_mit_frame(self.host_id, id, torque_command(torque)),
            ),
            _ => None,
        }
    }

    /// Reads the feedback in a frame, if it is the answer that the next action waits for.
    /// Echoes and the frames of other motors are passed over.
    pub fn reply(&self, received: &Received) -> (feedback: Option<MotorFeedback>)
        ensures
            feedback == self.spec_reply(*received),
    {
        match self.action() {
            LoopAction::Read(id) => pick_status(received, id),
            LoopAction::Drive(id, _) => pick_status(received, id),
            _ => None,
        }
    }

    /// Takes whether the enable request could be sent. A failure ends the loop.
    pub fn enabled(&mut self, sent: Result<()>) -> (result: Result<()>)
        requires
            old(self).spec_action() is Enable,
        ensures
            result == sent,
            *final(self) == (if sent is Err {
                *old(self)
            } else if old(self).phase == LoopPhase::EnableLeader {
                BilateralLoop { phase: LoopPhase::EnableFollower, ..*old(self) }
            } else {
                BilateralLoop { phase: LoopPhase::ReadLeader, ..*old(self) }
            }),
    {
        if sent.is_ok() {
            match self.phase {
                LoopPhase::EnableLeader => {
                    self.phase = LoopPhase::EnableFollower;
                },
                _ => {
                    self.phase = LoopPhase::ReadLeader;
                },
            }
        }
        sent
    }

    /// Takes where a motor is. A failure ends the loop.
    pub fn read(&mut self, reply: Result<MotorFeedback>) -> (result: Result<()>)
        requires
            old(self).spec_action() is Read,
        ensures
            match reply {
                Err(e) => result == Err::<(), RobstrideError>(e) && *final(self) == *old(self),
                Ok(feedback) => result is Ok && *final(self) == (if old(self).phase
                    == LoopPhase::ReadLeader {
                    BilateralLoop {
                        phase: LoopPhase::ReadFollower,
                        leader: AxisState::of(feedback),
                        ..*old(self)
                    }
                } else {
                    BilateralLoop {
                        phase: LoopPhase::Begin,
                        follower: AxisState::of(feedback),
                        ..*old(self)
                    }
                }),
            },
    {
        match reply {
            Err(e) => Err(e),
            Ok(feedback) => {
                let axis = AxisState::from_feedback(&feedback);
                match self.phase {
                    LoopPhase::ReadLeader => {
                        self.leader = axis;
                        self.phase = LoopPhase::ReadFollower;
                    },
                    _ => {
                        self.follower = axis;
                        self.phase = LoopPhase::Begin;
                    },
                }
                Ok(())
            },
        }
    }

    /// Begins a control cycle, unless the loop is to stop.
    pub fn begin(&mut self, stop: bool)
        requires
            old(self).phase == LoopPhase::Begin,
        ensures
            *final(self) == (BilateralLoop {
                phase: if stop {
                    LoopPhase::Finish
                } else {
                    LoopPhase::DriveLeader
                },
                ..*old(self)
            }),
    {
        self.phase = if stop {
            LoopPhase::Finish
        } else {
            LoopPhase::DriveLeader
        };
    }

    /// Takes the answer of a motor to its torque, if it came in time. When both motors have
    /// answered, reports the cycle; the telemetry is due in every tenth.
    pub fn driven(&mut self, answer: Option<MotorFeedback>) -> (report: Option<CycleReport>)
        requires
            old(self).spec_action() is Drive,
            old(self).cycle < u64::MAX,
        ensures
            match (old(self).phase, answer) {
                (LoopPhase::DriveFollower(leader), Some(follower)) => *final(self) == old(
                    self,
                ).done(leader, follower) && final(self).leader.position == leader.position
                    && final(self).leader.velocity == leader.velocity
                    && final(self).follower.position == follower.position
                    && final(self).follower.velocity == follower.velocity && report == Some(
                    CycleReport {
                        leader,
                        follower,
                        cycle: old(self).cycle,
                        publish: old(self).cycle % 10 == 0,
                    },
                ),
                (LoopPhase::DriveLeader, Some(leader)) => *final(self) == (BilateralLoop {
                    phase: LoopPhase::DriveFollower(leader),
                    ..*old(self)
                }) && report is None,
                _ => *final(self) == old(self).lost() && report is None,
            },
    {
        match answer {
            None => {
                self.cycle = self.cycle + 1;
                self.phase = LoopPhase::Begin;
                None
            },
            Some(feedback) => match self.phase {
                LoopPhase::DriveFollower(leader) => {
                    let report = CycleReport {
                        leader,
                        follower: feedback,
                        cycle: self.cycle,
                        publish: self.cycle % 10 == 0,
                    };
                    self.leader = AxisState::from_feedback(&leader);
                    self.follower = AxisState::from_feedback(&feedback);
                    if self.method == BilateralMethod::ForceReflecting {
                        self.follower_torque = Some(feedback.torque);
                    }
                    self.cycle = self.cycle + 1;
                    self.phase = LoopPhase::Begin;
                    Some(report)
                },
                _ => {
                    self.phase = LoopPhase::DriveFollower(feedback);
                    None
                },
            },
        }
    }

    /// The frames that disable both motors, the leader first.
    pub fn finish(&self) -> (frames: Vec<(u32, Vec<u8>)>)
        ensures
            frames@.len() == 2,
            frames@[0].0 == crate::protocol::can_id(
                CommType::Disable.spec_code(),
                self.host_id as u16,
                self.leader_id,
            ),
            frames@[1].0 == crate::protocol::can_id(
                CommType::Disable.spec_code(),
                self.host_id as u16,
                self.follower_id,
            ),
            frames@[0].1@ == crate::protocol::no_payload(),
            frames@[1].1@ == crate::protocol::no_payload(),
    {
        vec![
            build_disable_frame(self.host_id, self.leader_id),
            build_disable_frame(self.host_id, self.follower_id),
        ]
    }
}

/// The command of a torque alone, given by its word.
pub fn torque_command(torque: u16) -> (words: MitWords)
    ensures
        words == (MitWords { torque, ..MitWords::rest() }),
{
    let rest = MitWords::zero();
    MitWords { position: rest.position, velocity: rest.velocity, kp: rest.kp, kd: rest.kd, torque }
}

/// How long to sleep after a cycle to keep the loop period, in microseconds.
pub fn pause_us(period: u64, work: u64) -> (pause: u64)
    ensures
        pause == (if work < period {
            period - work
        } else {
            0
        }),
{
    if work < period {
        period - work
    } else {
        0
    }
}

/// The message in the telemetry of a loop that ended with an error.
pub fn loop_error(error: &RobstrideError) -> (text: String)
    ensures
        text@ == "Loop error: "@ + error.spec_message(),
{
    "Loop error: ".to_owned().concat(error.message().as_str())
}

/// A motor that misses its turn costs the cycle and nothing else: the controller goes on with
/// the values of the last complete cycle, whichever of the two motors did not answer.
pub proof fn law_lost_cycle(control: BilateralLoop, leader: MotorFeedback)
    requires
        control.phase == LoopPhase::DriveLeader,
        control.cycle < u64::MAX,
    ensures
        (BilateralLoop { phase: LoopPhase::DriveFollower(leader), ..control }).lost()
            == control.lost(),
        control.lost().leader == control.leader,
        control.lost().follower == control.follower,
        control.lost().follower_torque == control.follower_torque,
        control.lost().cycle == control.cycle + 1,
        control.lost().spec_action() == LoopAction::CheckStop,
{
}

/// What the names of the methods mean: a method goes by its number in the list, by its short
/// name and by a longer one. A name means one method at most.
pub proof fn law_method_names(name: Seq<char>)
    ensures
        name == "pos"@ || name == "position"@ || name == "1"@
            <==> BilateralMethod::named(name) == Some(BilateralMethod::PositionMirroring),
        name == "force"@ || name == "2"@
            <==> BilateralMethod::named(name) == Some(BilateralMethod::ForceReflecting),
        name == "coupling"@ || name == "virtual"@ || name == "3"@
            <==> BilateralMethod::named(name) == Some(BilateralMethod::VirtualCoupling),
        name == "mode"@ || name == "4ch"@ || name == "4"@
            <==> BilateralMethod::named(name) == Some(BilateralMethod::ModeSpace),
{
    reveal_strlit("pos");
    reveal_strlit("position");
    reveal_strlit("1");
    reveal_strlit("force");
    reveal_strlit("2");
    reveal_strlit("coupling");
    reveal_strlit("virtual");
    reveal_strlit("3");
    reveal_strlit("mode");
    reveal_strlit("4ch");
    reveal_strlit("4");
    assert("pos"@[0] != "4ch"@[0]);
    assert("position"@[0] != "coupling"@[0]);
    assert("1"@[0] != "2"@[0]);
    assert("1"@[0] != "3"@[0]);
    assert("1"@[0] != "4"@[0]);
    assert("2"@[0] != "3"@[0]);
    assert("2"@[0] != "4"@[0]);
    assert("3"@[0] != "4"@[0]);
    assert("pos"@.len() == 3);
    assert("position"@.len() == 8);
    assert("1"@.len() == 1);
    assert("force"@.len() == 5);
    assert("2"@.len() == 1);
    assert("coupling"@.len() == 8);
    assert("virtual"@.len() == 7);
    assert("3"@.len() == 1);
    assert("mode"@.len() == 4);
    assert("4ch"@.len() == 3);
    assert("4"@.len() == 1);
}

/// When both motors have answered, the leader is known by the words of the leader's answer and
/// the follower by those of the follower's. The torque of the follower is kept as the force on
/// it with force reflection, and only then. Nothing else changes but the count.
pub proof fn law_cycle_kept(control: BilateralLoop, leader: MotorFeedback, follower: MotorFeedback)
    requires
        control.cycle < u64::MAX,
    ensures
        ({
            let after = control.done(leader, follower);
            &&& after.leader.position == leader.position
            &&& after.leader.velocity == leader.velocity
            &&& after.follower.position == follower.position
            &&& after.follower.velocity == follower.velocity
            &&& control.method == BilateralMethod::ForceReflecting ==> after.follower_torque == Some(
                follower.torque,
            )
            &&& control.method != BilateralMethod::ForceReflecting ==> after.follower_torque
                == control.follower_torque
            &&& after.cycle == control.cycle + 1
            &&& after.phase == LoopPhase::Begin
            &&& after.host_id == control.host_id && after.leader_id == control.leader_id
            &&& after.follower_id == control.follower_id && after.method == control.method
        }),
{
}

/// The controller goes by the position and the velocity of a feedback, each as it is.
pub proof fn law_axis_words(feedback: MotorFeedback)
    ensures
        AxisState::of(feedback).position == feedback.position,
        AxisState::of(feedback).velocity == feedback.velocity,
{
}

/// The leader is addressed in its phases and the follower in its own, and only torques are
/// commanded in the phases of driving.
pub proof fn law_motors_in_turn(control: BilateralLoop)
    ensures
        match control.phase {
            LoopPhase::EnableLeader => control.spec_action() == LoopAction::Enable(
                control.leader_id,
            ),
            LoopPhase::EnableFollower => control.spec_action() == LoopAction::Enable(
                control.follower_id,
            ),
            LoopPhase::ReadLeader => control.spec_action() == LoopAction::Read(control.leader_id),
            LoopPhase::ReadFollower => control.spec_action() == LoopAction::Read(
                control.follower_id,
            ),
            LoopPhase::DriveLeader => control.spec_action() == LoopAction::Drive(
                control.leader_id,
                Role::Leader,
            ),
            LoopPhase::DriveFollower(_) => control.spec_action() == LoopAction::Drive(
                control.follower_id,
                Role::Follower,
            ),
            LoopPhase::Begin => control.spec_action() == LoopAction::CheckStop,
            LoopPhase::Finish => control.spec_action() == LoopAction::Finish,
        },
{
}

/// The frames of the loop in numbers. The low byte of the identifier is the motor of the phase.
/// An enable frame is of type 3, with the host as extra data and zero throughout. A request for
/// the position and a torque are of type 1 with zero gains, at rest but for the torque, which is
/// the extra data.
pub proof fn law_loop_frames(control: BilateralLoop, torque: u16)
    ensures
        ({
            let request = control.spec_request(torque);
            let first = control.phase == LoopPhase::EnableLeader || control.phase
                == LoopPhase::ReadLeader || control.phase == LoopPhase::DriveLeader;
            let motor: int = if first { control.leader_id as int } else { control.follower_id as int };
            let rest = seq![0x7Fu8, 0xFF, 0x7F, 0xFF, 0, 0, 0, 0];
            match control.phase {
                LoopPhase::EnableLeader | LoopPhase::EnableFollower => {
                    request matches Some(f) && f.0 == 3 * 16777216 + control.host_id * 256 + motor
                        && f.1 == seq![0u8, 0, 0, 0, 0, 0, 0, 0]
                },
                LoopPhase::ReadLeader | LoopPhase::ReadFollower => {
                    request matches Some(f) && f.0 == 16777216 + 0x7FFF * 256 + motor && f.1 == rest
                },
                LoopPhase::DriveLeader | LoopPhase::DriveFollower(_) => {
                    request matches Some(f) && f.0 == 16777216 + torque * 256 + motor && f.1 == rest
                },
                LoopPhase::Begin | LoopPhase::Finish => request is None,
            }
        }),
{
    let rest = MitWords::rest();
    assert(crate::protocol::mit_payload(rest) =~= seq![0x7Fu8, 0xFF, 0x7F, 0xFF, 0, 0, 0, 0]);
    assert(crate::protocol::mit_payload(MitWords { torque, ..rest }) =~= seq![
        0x7Fu8,
        0xFF,
        0x7F,
        0xFF,
        0,
        0,
        0,
        0,
    ]);
    assert(crate::protocol::no_payload() =~= seq![0u8, 0, 0, 0, 0, 0, 0, 0]);
}

/// An answer that counts is a status (type 2) of the motor that was addressed, and every such
/// status of eight bytes counts. While nothing is awaited, nothing counts.
pub proof fn law_loop_answers(control: BilateralLoop, received: Received)
    ensures
        ({
            let first = control.phase == LoopPhase::ReadLeader || control.phase
                == LoopPhase::DriveLeader;
            let second = control.phase == LoopPhase::ReadFollower || control.phase is DriveFollower;
            let motor: int = if first { control.leader_id as int } else { control.follower_id as int };
            let reply = control.spec_reply(received);
            &&& reply is Some <==> (first || second) && received.comm_type == 2
                && received.data@.len() >= 8 && received.extra_data as int % 256 == motor
            &&& reply matches Some(f) ==> f.motor_id == motor && f.position == received.data@[0] * 256
                + received.data@[1] && f.velocity == received.data@[2] * 256 + received.data@[3]
                && f.torque == received.data@[4] * 256 + received.data@[5]
        }),
{
    crate::driver::law_status_taken(received, control.leader_id);
    crate::driver::law_status_taken(received, control.follower_id);
}

/// Each method is shown under the name of that method.
pub proof fn law_method_labels(method: BilateralMethod)
    ensures
        method == BilateralMethod::PositionMirroring ==> method.spec_label()
            == "Position Mirroring"@,
        method == BilateralMethod::ForceReflecting ==> method.spec_label() == "Force Reflecting"@,
        method == BilateralMethod::VirtualCoupling ==> method.spec_label() == "Virtual Coupling"@,
        method == BilateralMethod::ModeSpace ==> method.spec_label() == "Mode Space (4ch)"@,
{
}

} // verus!
