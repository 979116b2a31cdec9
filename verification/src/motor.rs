//! A Robstride motor on the bus: what to send it, what to make of its answers, and how to
//! look for motors.
//!
//! Nothing here sends or waits. A method returns the frame to send, or takes the answer to
//! it; the frames travel as a 29-bit identifier and a payload.

use vstd::prelude::*;

use crate::error::{Result, RobstrideError};
use crate::protocol::{
    build_can_id_raw, build_disable_frame, build_enable_frame, build_mit_frame, build_ping_frame,
    build_read_param_frame, build_run_mode_frame, build_set_zero_frame,
    build_write_param_f32_frame, parse_can_id, parse_param_response, parse_status_frame, CommType,
    MitScales, MitWords, MotorFeedback, MotorModel, ParamIndex, RunMode,
};
use crate::text::{decimal_text, hex_text};
use crate::transport::RxFrame;

verus! {

// ---------------------------------------------------------------------------
// Ranges of IDs
// ---------------------------------------------------------------------------

/// The IDs from `from` to `to`, none if `from` is greater.
pub open spec fn id_seq(from: u8, to: u8) -> Seq<u8> {
    if from <= to {
        Seq::new((to - from + 1) as nat, |i: int| (from + i) as u8)
    } else {
        Seq::empty()
    }
}

/// Lists the IDs from `from` to `to`, none if `from` is greater.
pub fn id_range(from: u8, to: u8) -> (ids: Vec<u8>)
    ensures
        ids@ == id_seq(from, to),
        forall|i: int, j: int| 0 <= i < j < ids@.len() ==> ids@[i] < ids@[j],
{
    let mut ids: Vec<u8> = Vec::new();
    let mut next: u16 = from as u16;
    while next <= to as u16
        invariant
            from <= to ==> from <= next <= to + 1,
            from > to ==> next == from,
            ids@.len() == next - from,
            forall|i: int| 0 <= i < ids@.len() ==> #[trigger] ids@[i] == from + i,
        decreases to + 1 - next,
    {
        ids.push(next as u8);
        next = next + 1;
    }
    assert(ids@ =~= id_seq(from, to));
    ids
}

// ---------------------------------------------------------------------------
// Receiving
// ---------------------------------------------------------------------------

/// What came of waiting for a frame.
#[derive(Debug)]
pub enum BusEvent {
    /// The time to wait is over.
    Expired,
    /// A frame arrived.
    Frame(RxFrame),
    /// Nothing to read at the moment.
    WouldBlock,
    /// Reading failed, for the reason given.
    Failed(String),
}

/// A frame with a 29-bit identifier, taken apart.
#[derive(Debug)]
pub struct Received {
    pub comm_type: u8,
    pub extra_data: u16,
    pub device_id: u8,
    pub data: Vec<u8>,
}

/// What to do after an event.
#[derive(Debug)]
pub enum RecvStep {
    /// Go on waiting.
    Again,
    /// Take this frame.
    Done(Received),
    /// Give up.
    Failed(RobstrideError),
}

impl Received {
    /// Whether this is a given frame, taken apart.
    pub open spec fn is_of(self, frame: RxFrame) -> bool {
        &&& crate::protocol::id_fields(frame.raw_id) == (
            self.comm_type,
            self.extra_data,
            self.device_id,
        )
        &&& self.data@ == frame.data@
    }
}

/// Decides what to do after an event while waiting for the answer of a motor. Frames with
/// 11-bit identifiers, which a motor may send when it reconnects, are passed over.
pub fn recv_step(motor_id: u8, event: BusEvent) -> (step: RecvStep)
    ensures
        match event {
            BusEvent::Expired => step matches RecvStep::Failed(
                RobstrideError::Timeout { motor_id: id },
            ) && id == motor_id,
            BusEvent::Frame(frame) => if frame.extended {
                step matches RecvStep::Done(received) && received.is_of(frame)
            } else {
                step is Again
            },
            BusEvent::WouldBlock => step is Again,
            BusEvent::Failed(text) => step matches RecvStep::Failed(
                RobstrideError::CanSocket(reason),
            ) && reason@ == text@,
        },
{
    match event {
        BusEvent::Expired => RecvStep::Failed(RobstrideError::Timeout { motor_id }),
        BusEvent::Frame(frame) => {
            if !frame.extended {
                return RecvStep::Again;
            }
            let (comm_type, extra_data, device_id) = parse_can_id(frame.raw_id);
            RecvStep::Done(Received { comm_type, extra_data, device_id, data: frame.data })
        },
        BusEvent::WouldBlock => RecvStep::Again,
        BusEvent::Failed(text) => RecvStep::Failed(RobstrideError::CanSocket(text)),
    }
}

/// The type and the device of a frame in a message.
pub open spec fn origin_text(received: Received) -> Seq<char> {
    "got type="@ + crate::text::decimal(received.comm_type as nat) + " from device="@
        + crate::text::decimal(received.device_id as nat)
}

fn origin(received: &Received) -> (text: String)
    ensures
        text@ == origin_text(*received),
{
    "got type=".to_owned().concat(decimal_text(received.comm_type as u64).as_str()).concat(
        " from device=",
    ).concat(decimal_text(received.device_id as u64).as_str())
}

/// What an answer says of the status of a motor: a fault report is a fault; an answer of
/// another type, one that is too short and the status of another motor are not valid; the rest
/// is the motor's feedback.
pub open spec fn status_result(
    received: Received,
    motor_id: u8,
    result: Result<MotorFeedback>,
) -> bool {
    let sender = crate::protocol::low_byte(received.extra_data);
    if received.comm_type == CommType::FaultReport.spec_code() {
        result matches Err(RobstrideError::MotorFault { code }) && code == received.comm_type
    } else if received.comm_type != CommType::OperationStatus.spec_code() {
        result matches Err(RobstrideError::InvalidResponse { msg }) && msg@
            == "Expected OperationStatus (type=2), "@ + origin_text(received)
    } else if received.data@.len() < 8 {
        result matches Err(RobstrideError::InvalidResponse { msg }) && msg@
            == "Failed to parse status frame"@
    } else if sender != motor_id {
        result matches Err(RobstrideError::InvalidResponse { msg }) && msg@
            == "Expected the status of motor "@ + crate::text::decimal(motor_id as nat)
            + ", got that of motor "@ + crate::text::decimal(sender as nat)
    } else {
        result matches Ok(feedback) && feedback.motor_id == motor_id && crate::protocol::status_frame(
            crate::protocol::can_id(
                received.comm_type,
                received.extra_data,
                received.device_id,
            ),
            received.data@,
        ) == Some(feedback)
    }
}

/// Reads the status of a motor in an answer.
pub fn read_answer(received: &Received, motor_id: u8) -> (result: Result<MotorFeedback>)
    ensures
        status_result(*received, motor_id, result),
        result matches Ok(feedback) ==> feedback.motor_id == motor_id,
{
    if received.comm_type == CommType::FaultReport.code() {
        return Err(RobstrideError::MotorFault { code: received.comm_type });
    }
    if received.comm_type != CommType::OperationStatus.code() {
        return Err(
            RobstrideError::InvalidResponse {
                msg: "Expected OperationStatus (type=2), ".to_owned().concat(
                    origin(received).as_str(),
                ),
            },
        );
    }
    let id = build_can_id_raw(received.comm_type, received.extra_data, received.device_id);
    proof {
        crate::protocol::lemma_id_fields(
            received.comm_type,
            received.extra_data,
            received.device_id,
        );
    }
    match parse_status_frame(id, received.data.as_slice()) {
        Some(feedback) => {
            if feedback.motor_id == motor_id {
                Ok(feedback)
            } else {
                Err(
                    RobstrideError::InvalidResponse {
                        msg: "Expected the status of motor ".to_owned().concat(
                            decimal_text(motor_id as u64).as_str(),
                        ).concat(", got that of motor ").concat(
                            decimal_text(feedback.motor_id as u64).as_str(),
                        ),
                    },
                )
            }
        },
        None => Err(
            RobstrideError::InvalidResponse { msg: "Failed to parse status frame".to_owned() },
        ),
    }
}

/// What an answer says of a parameter: a read response that is about this parameter holds its
/// float bits; an answer of another type, one that is too short and one about another parameter
/// are not valid.
pub open spec fn param_result(
    received: Received,
    param: ParamIndex,
    result: Result<u32>,
) -> bool {
    if received.comm_type != CommType::ReadParameter.spec_code() {
        result matches Err(RobstrideError::InvalidResponse { msg }) && msg@
            == "Expected ReadParameter (type=17), "@ + origin_text(received)
    } else {
        match crate::protocol::param_response(received.data@) {
            Some(response) => if response.0 == param.spec_code() {
                result == Ok::<u32, RobstrideError>(response.1)
            } else {
                result matches Err(RobstrideError::InvalidResponse { msg }) && msg@
                    == "Expected parameter 0x"@ + crate::text::hex(param.spec_code() as nat, 4)
                    + ", got 0x"@ + crate::text::hex(response.0 as nat, 4)
            },
            None => result matches Err(RobstrideError::InvalidResponse { msg }) && msg@
                == "Failed to parse parameter response"@,
        }
    }
}

// ---------------------------------------------------------------------------
// Motor
// ---------------------------------------------------------------------------

/// How long to wait for an answer, in milliseconds, unless told otherwise.
pub const DEFAULT_TIMEOUT_MS: u64 = 100;

/// What is known of a single motor.
#[derive(Debug)]
pub struct Motor {
    /// CAN ID of the motor (1-254)
    pub motor_id: u8,
    /// CAN ID of the host
    pub host_id: u8,
    /// Motor model
    pub model: MotorModel,
    /// MIT scaling of the model
    pub scales: MitScales,
    /// Whether the motor is currently enabled
    pub enabled: bool,
    /// Current run mode
    pub run_mode: RunMode,
    /// How long to wait for an answer, in milliseconds
    pub timeout_ms: u64,
}

impl Motor {
    /// Whether a frame is a parameter write to this motor.
    pub open spec fn writes_param(
        self,
        frame: (u32, Vec<u8>),
        param: ParamIndex,
        value: Seq<u8>,
    ) -> bool {
        &&& frame.0 == crate::protocol::can_id(
            CommType::WriteParameter.spec_code(),
            self.host_id as u16,
            self.motor_id,
        )
        &&& frame.1@ == crate::protocol::param_payload(param, value)
    }

    /// A motor that is not enabled and in MIT mode.
    pub fn new(motor_id: u8, host_id: u8, model: MotorModel) -> (motor: Motor)
        ensures
            motor == (Motor {
                motor_id,
                host_id,
                model,
                scales: MitScales::of(model),
                enabled: false,
                run_mode: RunMode::Mit,
                timeout_ms: DEFAULT_TIMEOUT_MS,
            }),
    {
        Motor {
            motor_id,
            host_id,
            model,
            scales: MitScales::for_model(model),
            enabled: false,
            run_mode: RunMode::Mit,
            timeout_ms: DEFAULT_TIMEOUT_MS,
        }
    }

    /// Sets how long to wait for an answer.
    pub fn set_timeout(&mut self, timeout_ms: u64)
        ensures
            *final(self) == (Motor { timeout_ms, ..*old(self) }),
    {
        self.timeout_ms = timeout_ms;
    }

    /// The motor CAN ID.
    pub fn motor_id(&self) -> (id: u8)
        ensures
            id == self.motor_id,
    {
        self.motor_id
    }

    /// The motor model.
    pub fn model(&self) -> (model: MotorModel)
        ensures
            model == self.model,
    {
        self.model
    }

    /// The MIT scaling.
    pub fn scales(&self) -> (scales: &MitScales)
        ensures
            *scales == self.scales,
    {
        &self.scales
    }

    /// Whether the motor is enabled.
    pub fn is_enabled(&self) -> (enabled: bool)
        ensures
            enabled == self.enabled,
    {
        self.enabled
    }

    /// The current run mode.
    pub fn current_run_mode(&self) -> (mode: RunMode)
        ensures
            mode == self.run_mode,
    {
        self.run_mode
    }

    /// Decides what to do after an event while waiting for this motor's answer.
    pub fn recv_frame(&self, event: BusEvent) -> (step: RecvStep)
        ensures
            match event {
                BusEvent::Expired => step matches RecvStep::Failed(
                    RobstrideError::Timeout { motor_id },
                ) && motor_id == self.motor_id,
                BusEvent::Frame(frame) => if frame.extended {
                    step matches RecvStep::Done(received) && received.is_of(frame)
                } else {
                    step is Again
                },
                BusEvent::WouldBlock => step is Again,
                BusEvent::Failed(text) => step matches RecvStep::Failed(
                    RobstrideError::CanSocket(reason),
                ) && reason@ == text@,
            },
    {
        recv_step(self.motor_id, event)
    }

    /// The status of this motor in an answer, or why there was none.
    pub fn recv_status(&self, reply: Result<Received>) -> (result: Result<MotorFeedback>)
        ensures
            match reply {
                Ok(received) => status_result(received, self.motor_id, result),
                Err(e) => result == Err::<MotorFeedback, RobstrideError>(e),
            },
    {
        match reply {
            Ok(received) => read_answer(&received, self.motor_id),
            Err(e) => Err(e),
        }
    }

    /// The frame that asks the motor to identify itself.
    pub fn ping_request(&self) -> (frame: (u32, Vec<u8>))
        ensures
            frame.0 == crate::protocol::can_id(
                CommType::GetDeviceId.spec_code(),
                self.host_id as u16,
                self.motor_id,
            ),
            frame.1@ == crate::protocol::no_payload(),
    {
        build_ping_frame(self.host_id, self.motor_id)
    }

    /// The device ID and the unique identifier in the answer to a ping. The echo of the ping
    /// and the frames of other motors are no answer.
    pub fn ping(&self, reply: Result<Received>) -> (result: Result<(u16, Vec<u8>)>)
        ensures
            match reply {
                Ok(received) => if from_pinged(
                    (received.comm_type, received.extra_data, received.device_id),
                    self.motor_id,
                ) {
                    result matches Ok(r) && r.0 == received.extra_data && r.1@ == received.data@
                } else {
                    result matches Err(RobstrideError::InvalidResponse { msg }) && msg@
                        == "Expected an answer of motor "@ + crate::text::decimal(
                        self.motor_id as nat,
                    ) + ", "@ + origin_text(received)
                },
                Err(e) => result == Err::<(u16, Vec<u8>), RobstrideError>(e),
            },
    {
        match reply {
            Ok(received) => {
                let fields = (received.comm_type, received.extra_data, received.device_id);
                if is_from_pinged(fields, self.motor_id) {
                    Ok((received.extra_data, received.data))
                } else {
                    Err(
                        RobstrideError::InvalidResponse {
                            msg: "Expected an answer of motor ".to_owned().concat(
                                decimal_text(self.motor_id as u64).as_str(),
                            ).concat(", ").concat(origin(&received).as_str()),
                        },
                    )
                }
            },
            Err(e) => Err(e),
        }
    }

    /// The frame that enables the motor.
    pub fn enable_request(&self) -> (frame: (u32, Vec<u8>))
        ensures
            frame.0 == crate::protocol::can_id(
                CommType::Enable.spec_code(),
                self.host_id as u16,
                self.motor_id,
            ),
            frame.1@ == crate::protocol::no_payload(),
    {
        build_enable_frame(self.host_id, self.motor_id)
    }

    /// Takes the answer to an enable request. The motor counts as enabled once it has
    /// answered with its status.
    pub fn enable(&mut self, reply: Result<Received>) -> (result: Result<MotorFeedback>)
        ensures
            match reply {
                Ok(received) => status_result(received, old(self).motor_id, result),
                Err(e) => result == Err::<MotorFeedback, RobstrideError>(e),
            },
            *final(self) == (Motor { enabled: old(self).enabled || result is Ok, ..*old(self) }),
    {
        let result = self.recv_status(reply);
        if result.is_ok() {
            self.enabled = true;
        }
        result
    }

    /// The frame that disables the motor, which then coasts to a stop.
    pub fn disable_request(&self) -> (frame: (u32, Vec<u8>))
        ensures
            frame.0 == crate::protocol::can_id(
                CommType::Disable.spec_code(),
                self.host_id as u16,
                self.motor_id,
            ),
            frame.1@ == crate::protocol::no_payload(),
    {
        build_disable_frame(self.host_id, self.motor_id)
    }

    /// Takes the answer to a disable request. The motor counts as disabled once it has
    /// answered with its status.
    pub fn disable(&mut self, reply: Result<Received>) -> (result: Result<MotorFeedback>)
        ensures
            match reply {
                Ok(received) => status_result(received, old(self).motor_id, result),
                Err(e) => result == Err::<MotorFeedback, RobstrideError>(e),
            },
            *final(self) == (Motor { enabled: old(self).enabled && result is Err, ..*old(self) }),
    {
        let result = self.recv_status(reply);
        if result.is_ok() {
            self.enabled = false;
        }
        result
    }

    /// The frame to send before this motor is let go: it is disabled if it is enabled.
    pub fn release_request(&self) -> (frame: Option<(u32, Vec<u8>)>)
        ensures
            match frame {
                Some(f) => self.enabled && f.0 == crate::protocol::can_id(
                    CommType::Disable.spec_code(),
                    self.host_id as u16,
                    self.motor_id,
                ) && f.1@ == crate::protocol::no_payload(),
                None => !self.enabled,
            },
    {
        if self.enabled {
            Some(self.disable_request())
        } else {
            None
        }
    }

    /// The frame that makes the current position the mechanical zero.
    pub fn set_zero(&self) -> (frame: (u32, Vec<u8>))
        ensures
            frame.0 == crate::protocol::can_id(
                CommType::SetZeroPosition.spec_code(),
                self.host_id as u16,
                self.motor_id,
            ),
            frame.1@ == crate::protocol::no_payload().update(0, 1),
    {
        build_set_zero_frame(self.host_id, self.motor_id)
    }

    /// The frame that changes the run mode. The motor should be disabled before.
    pub fn run_mode_request(&self, mode: RunMode) -> (frame: (u32, Vec<u8>))
        ensures
            self.writes_param(
                frame,
                ParamIndex::RunMode,
                seq![crate::protocol::signed_byte(mode.spec_code()), 0, 0, 0],
            ),
    {
        build_run_mode_frame(self.host_id, self.motor_id, mode)
    }

    /// Takes whether a run mode request could be sent. The motor does not answer it.
    pub fn set_run_mode(&mut self, mode: RunMode, sent: Result<()>) -> (result: Result<()>)
        ensures
            result == sent,
            *final(self) == (if sent is Ok {
                Motor { run_mode: mode, ..*old(self) }
            } else {
                *old(self)
            }),
    {
        if sent.is_ok() {
            self.run_mode = mode;
        }
        sent
    }

    /// The frame of a MIT command, which takes an enabled motor.
    pub fn mit_request(&self, words: MitWords) -> (frame: Result<(u32, Vec<u8>)>)
        ensures
            match frame {
                Ok(f) => self.enabled && f.0 == crate::protocol::can_id(
                    CommType::OperationControl.spec_code(),
                    words.torque,
                    self.motor_id,
                ) && f.1@ == crate::protocol::mit_payload(words),
                Err(e) => !self.enabled && e == (RobstrideError::NotEnabled {
                    motor_id: self.motor_id,
                }),
            },
    {
        if !self.enabled {
            return Err(RobstrideError::NotEnabled { motor_id: self.motor_id });
        }
        Ok(build_mit_frame(self.host_id, self.motor_id, words))
    }

    /// The status in the answer to a MIT command.
    pub fn mit_control(&self, reply: Result<Received>) -> (result: Result<MotorFeedback>)
        ensures
            match reply {
                Ok(received) => status_result(received, self.motor_id, result),
                Err(e) => result == Err::<MotorFeedback, RobstrideError>(e),
            },
    {
        self.recv_status(reply)
    }

    /// The frame that sets the target position (in position mode), given by its float bits.
    pub fn set_position(&self, position: u32) -> (frame: (u32, Vec<u8>))
        ensures
            self.writes_param(frame, ParamIndex::LocRef, crate::protocol::le_bytes(position)),
    {
        self.write_param_f32(ParamIndex::LocRef, position)
    }

    /// The frame that sets the speed limit of position mode [rad/s].
    pub fn set_position_speed_limit(&self, speed: u32) -> (frame: (u32, Vec<u8>))
        ensures
            self.writes_param(frame, ParamIndex::LimitSpd, crate::protocol::le_bytes(speed)),
    {
        self.write_param_f32(ParamIndex::LimitSpd, speed)
    }

    /// The frame that sets the torque limit [Nm].
    pub fn set_torque_limit(&self, torque: u32) -> (frame: (u32, Vec<u8>))
        ensures
            self.writes_param(frame, ParamIndex::LimitTorque, crate::protocol::le_bytes(torque)),
    {
        self.write_param_f32(ParamIndex::LimitTorque, torque)
    }

    /// The frame that sets the current limit [A].
    pub fn set_current_limit(&self, current: u32) -> (frame: (u32, Vec<u8>))
        ensures
            self.writes_param(frame, ParamIndex::LimitCur, crate::protocol::le_bytes(current)),
    {
        self.write_param_f32(ParamIndex::LimitCur, current)
    }

    /// The frame that sets the target velocity (in velocity mode).
    pub fn set_velocity(&self, velocity: u32) -> (frame: (u32, Vec<u8>))
        ensures
            self.writes_param(frame, ParamIndex::SpdRef, crate::protocol::le_bytes(velocity)),
    {
        self.write_param_f32(ParamIndex::SpdRef, velocity)
    }

    /// The frame that sets the target torque or current (in torque mode).
    pub fn set_torque(&self, iq: u32) -> (frame: (u32, Vec<u8>))
        ensures
            self.writes_param(frame, ParamIndex::IqRef, crate::protocol::le_bytes(iq)),
    {
        self.write_param_f32(ParamIndex::IqRef, iq)
    }

    /// The frame that asks for a parameter.
    pub fn param_request(&self, param: ParamIndex) -> (frame: (u32, Vec<u8>))
        ensures
            frame.0 == crate::protocol::can_id(
                CommType::ReadParameter.spec_code(),
                self.host_id as u16,
                self.motor_id,
            ),
            frame.1@ == crate::protocol::param_payload(param, seq![0, 0, 0, 0]),
    {
        build_read_param_frame(self.host_id, self.motor_id, param)
    }

    /// The float bits in the answer to a request for a parameter.
    pub fn read_param(&self, param: ParamIndex, reply: Result<Received>) -> (result: Result<u32>)
        ensures
            match reply {
                Ok(received) => param_result(received, param, result),
                Err(e) => result == Err::<u32, RobstrideError>(e),
            },
    {
        let received = match reply {
            Ok(received) => received,
            Err(e) => return Err(e),
        };
        if received.comm_type != CommType::ReadParameter.code() {
            return Err(
                RobstrideError::InvalidResponse {
                    msg: "Expected ReadParameter (type=17), ".to_owned().concat(
                        origin(&received).as_str(),
                    ),
                },
            );
        }
        match parse_param_response(received.data.as_slice()) {
            Some(response) => {
                if response.0 == param.code() {
                    Ok(response.1)
                } else {
                    Err(
                        RobstrideError::InvalidResponse {
                            msg: "Expected parameter 0x".to_owned().concat(
                                hex_text(param.code() as u64, 4).as_str(),
                            ).concat(", got 0x").concat(hex_text(response.0 as u64, 4).as_str()),
                        },
                    )
                }
            },
            None => Err(
                RobstrideError::InvalidResponse {
                    msg: "Failed to parse parameter response".to_owned(),
                },
            ),
        }
    }

    /// The frame that writes a float parameter.
    pub fn write_param_f32(&self, param: ParamIndex, value: u32) -> (frame: (u32, Vec<u8>))
        ensures
            self.writes_param(frame, param, crate::protocol::le_bytes(value)),
    {
        build_write_param_f32_frame(self.host_id, self.motor_id, param, value)
    }

    /// The frame that asks for the status: a MIT command for nothing, which also a motor that
    /// is not enabled takes.
    pub fn status_request(&self) -> (frame: (u32, Vec<u8>))
        ensures
            frame.0 == crate::protocol::can_id(
                CommType::OperationControl.spec_code(),
                MitWords::rest().torque,
                self.motor_id,
            ),
            frame.1@ == crate::protocol::mit_payload(MitWords::rest()),
    {
        build_mit_frame(self.host_id, self.motor_id, MitWords::zero())
    }

    /// The status in the answer to a status request.
    pub fn read_status(&self, reply: Result<Received>) -> (result: Result<MotorFeedback>)
        ensures
            match reply {
                Ok(received) => status_result(received, self.motor_id, result),
                Err(e) => result == Err::<MotorFeedback, RobstrideError>(e),
            },
    {
        self.recv_status(reply)
    }

    /// The frame that asks for the mechanical position.
    pub fn read_position(&self) -> (frame: (u32, Vec<u8>))
        ensures
            frame.0 == crate::protocol::can_id(
                CommType::ReadParameter.spec_code(),
                self.host_id as u16,
                self.motor_id,
            ),
            frame.1@ == crate::protocol::param_payload(ParamIndex::MechPos, seq![0, 0, 0, 0]),
    {
        self.param_request(ParamIndex::MechPos)
    }

    /// The frame that asks for the mechanical velocity.
    pub fn read_velocity(&self) -> (frame: (u32, Vec<u8>))
        ensures
            frame.0 == crate::protocol::can_id(
                CommType::ReadParameter.spec_code(),
                self.host_id as u16,
                self.motor_id,
            ),
            frame.1@ == crate::protocol::param_payload(ParamIndex::MechVel, seq![0, 0, 0, 0]),
    {
        self.param_request(ParamIndex::MechVel)
    }

    /// The frame that asks for the filtered current.
    pub fn read_current(&self) -> (frame: (u32, Vec<u8>))
        ensures
            frame.0 == crate::protocol::can_id(
                CommType::ReadParameter.spec_code(),
                self.host_id as u16,
                self.motor_id,
            ),
            frame.1@ == crate::protocol::param_payload(ParamIndex::IqFilt, seq![0, 0, 0, 0]),
    {
        self.param_request(ParamIndex::IqFilt)
    }

    /// The frame that asks for the bus voltage.
    pub fn read_vbus(&self) -> (frame: (u32, Vec<u8>))
        ensures
            frame.0 == crate::protocol::can_id(
                CommType::ReadParameter.spec_code(),
                self.host_id as u16,
                self.motor_id,
            ),
            frame.1@ == crate::protocol::param_payload(ParamIndex::Vbus, seq![0, 0, 0, 0]),
    {
        self.param_request(ParamIndex::Vbus)
    }
}

// ---------------------------------------------------------------------------
// Scanning
// ---------------------------------------------------------------------------

/// Whether the type, the extra data and the device ID are those of an answer to a ping of
/// `motor_id`.
///
/// A motor answers with the host's ID as device and its own in the low byte of the extra
/// data. Some adapters echo the ping itself, which is no answer.
pub open spec fn from_pinged(fields: (u8, u16, u8), motor_id: u8) -> bool {
    let (comm_type, extra_data, device_id) = fields;
    &&& !(device_id == motor_id && comm_type == CommType::GetDeviceId.spec_code())
    &&& crate::protocol::low_byte(extra_data) == motor_id || device_id == motor_id
}

/// Decides whether an identifier with these fields answers a ping of `motor_id`.
fn is_from_pinged(fields: (u8, u16, u8), motor_id: u8) -> (answer: bool)
    ensures
        answer == from_pinged(fields, motor_id),
{
    let (comm_type, extra_data, device_id) = fields;
    if device_id == motor_id && comm_type == CommType::GetDeviceId.code() {
        return false;
    }
    (extra_data % 0x100) as u8 == motor_id || device_id == motor_id
}

/// Whether a frame answers a ping of `motor_id`.
pub open spec fn answers_ping(frame: RxFrame, motor_id: u8) -> bool {
    frame.extended && from_pinged(crate::protocol::id_fields(frame.raw_id), motor_id)
}

/// The state of a scan, in mathematical terms.
pub struct BusScanSpec {
    pub host_id: u8,
    pub ids: Seq<u8>,
    pub at: nat,
    pub found: Seq<(u8, Option<Seq<u8>>)>,
}

/// What came of pinging a motor.
#[derive(Debug)]
pub enum ScanEvent {
    /// The ping could not be sent.
    Unsent,
    /// A frame arrived.
    Frame(RxFrame),
    /// Nothing more to read, or the time to wait is over.
    Over,
}

impl BusScanSpec {
    /// The scan has come to one of its IDs or to the end, and every motor found so far was
    /// pinged before, in ascending order and none of them twice.
    pub open spec fn valid(self) -> bool {
        &&& self.at <= self.ids.len()
        &&& forall|i: int, j: int| 0 <= i < j < self.ids.len() ==> self.ids[i] < self.ids[j]
        &&& forall|i: int, j: int|
            0 <= i < j < self.found.len() ==> (#[trigger] self.found[i]).0 < (
            #[trigger] self.found[j]).0
        &&& forall|i: int|
            0 <= i < self.found.len() ==> self.ids.contains((#[trigger] self.found[i]).0)
        &&& self.at < self.ids.len() ==> forall|i: int|
            0 <= i < self.found.len() ==> (#[trigger] self.found[i]).0 < self.ids[self.at as int]
    }

    /// The scan after an event. The answer of the pinged motor is noted with its payload;
    /// other frames are passed over.
    pub open spec fn stepped(self, event: ScanEvent) -> BusScanSpec {
        let motor_id = self.ids[self.at as int];
        match event {
            ScanEvent::Frame(frame) => if answers_ping(frame, motor_id) {
                BusScanSpec {
                    at: self.at + 1,
                    found: self.found.push((motor_id, Some(frame.data@))),
                    ..self
                }
            } else {
                self
            },
            _ => BusScanSpec { at: self.at + 1, ..self },
        }
    }
}

/// A scan of the bus for motors.
#[derive(Debug)]
pub struct BusScan {
    pub host_id: u8,
    /// The IDs to ping, in ascending order.
    pub ids: Vec<u8>,
    /// The ID that the scan has come to.
    pub at: usize,
    /// The motors that answered, with the payload of the answer.
    pub found: Vec<(u8, Option<Vec<u8>>)>,
}

/// An entry of a list of motors, in mathematical terms.
pub open spec fn found_entry(entry: (u8, Option<Vec<u8>>)) -> (u8, Option<Seq<u8>>) {
    (
        entry.0,
        match entry.1 {
            Some(data) => Some(data@),
            None => None,
        },
    )
}

impl View for BusScan {
    type V = BusScanSpec;

    open spec fn view(&self) -> BusScanSpec {
        BusScanSpec {
            host_id: self.host_id,
            ids: self.ids@,
            at: self.at as nat,
            found: self.found@.map_values(|e: (u8, Option<Vec<u8>>)| found_entry(e)),
        }
    }
}

impl Motor {
    /// Starts a scan of all IDs from `from` to `to`.
    pub fn scan_bus(host_id: u8, from: u8, to: u8) -> (scan: BusScan)
        ensures
            scan@.valid(),
            scan@ == (BusScanSpec { host_id, ids: id_seq(from, to), at: 0, found: Seq::empty() }),
    {
        let scan = BusScan { host_id, ids: id_range(from, to), at: 0, found: Vec::new() };
        assert(scan@.found =~= Seq::empty());
        scan
    }

    /// Notes a frame in a passive dump of the bus. Says whether to go on listening.
    pub fn dump_bus(frames: &mut Vec<(u32, Vec<u8>)>, event: BusEvent) -> (more: bool)
        ensures
            more == (event is Frame || event is WouldBlock),
            match event {
                BusEvent::Frame(frame) => final(frames)@.len() == old(frames)@.len() + 1
                    && final(frames)@.drop_last() == old(frames)@ && final(frames)@.last().0
                    == frame.raw_id && final(frames)@.last().1@ == frame.data@,
                _ => final(frames)@ == old(frames)@,
            },
    {
        match event {
            BusEvent::Frame(frame) => {
                frames.push((frame.raw_id, frame.data));
                assert(frames@.drop_last() =~= old(frames)@);
                true
            },
            BusEvent::WouldBlock => true,
            _ => false,
        }
    }
}

/// Decides whether a frame answers a ping of `motor_id`.
pub fn is_ping_answer(frame: &RxFrame, motor_id: u8) -> (answer: bool)
    ensures
        answer == answers_ping(*frame, motor_id),
{
    frame.extended && is_from_pinged(parse_can_id(frame.raw_id), motor_id)
}

impl BusScan {
    /// The ping to send next, or nothing when all IDs have been pinged.
    pub fn request(&self) -> (frame: Option<(u32, Vec<u8>)>)
        requires
            self@.valid(),
        ensures
            match frame {
                Some(f) => self.at < self.ids@.len() && f.0 == crate::protocol::can_id(
                    CommType::GetDeviceId.spec_code(),
                    self.host_id as u16,
                    self.ids@[self.at as int],
                ) && f.1@ == crate::protocol::no_payload(),
                None => self.at == self.ids@.len(),
            },
    {
        if self.at == self.ids.len() {
            None
        } else {
            Some(build_ping_frame(self.host_id, self.ids[self.at]))
        }
    }

    /// How many IDs have been pinged, of how many, and the ID that comes next (0 at the end).
    pub fn progress(&self) -> (progress: (usize, usize, u8))
        requires
            self@.valid(),
        ensures
            progress.0 == self.at,
            progress.1 == self.ids@.len(),
            progress.2 == (if self.at < self.ids@.len() {
                self.ids@[self.at as int]
            } else {
                0
            }),
    {
        if self.at < self.ids.len() {
            (self.at, self.ids.len(), self.ids[self.at])
        } else {
            (self.at, self.ids.len(), 0)
        }
    }

    /// Takes what came of the last ping. Says whether to read on for the same motor.
    pub fn step(&mut self, event: ScanEvent) -> (read_on: bool)
        requires
            old(self)@.valid(),
            old(self).at < old(self).ids@.len(),
        ensures
            final(self)@.valid(),
            final(self)@ == old(self)@.stepped(event),
            read_on == (final(self).at == old(self).at),
    {
        let ghost before = self@;
        assert(before.ids.contains(before.ids[before.at as int]));
        assert(self.at < self.ids.len());
        let motor_id: u8 = self.ids[self.at];
        match event {
            ScanEvent::Frame(frame) => {
                if is_ping_answer(&frame, motor_id) {
                    self.found.push((motor_id, Some(frame.data)));
                    self.at = self.at + 1;
                    assert(self@.found =~= before.found.push((motor_id, Some(frame.data@))));
                    false
                } else {
                    true
                }
            },
            _ => {
                self.at = self.at + 1;
                false
            },
        }
    }
}

/// An adapter's echo of a ping is no answer to it, and a frame of the pinged motor is one.
pub proof fn law_echo_no_answer(
    echo: RxFrame,
    answer: RxFrame,
    host_id: u8,
    motor_id: u8,
    comm_type: u8,
    extra_data: u16,
)
    requires
        host_id != motor_id,
        comm_type < 32,
        crate::protocol::low_byte(extra_data) == motor_id,
        echo.raw_id == crate::protocol::can_id(
            CommType::GetDeviceId.spec_code(),
            host_id as u16,
            motor_id,
        ),
        answer.extended,
        answer.raw_id == crate::protocol::can_id(comm_type, extra_data, host_id),
    ensures
        !answers_ping(echo, motor_id),
        answers_ping(answer, motor_id),
{
    crate::protocol::lemma_id_fields(CommType::GetDeviceId.spec_code(), host_id as u16, motor_id);
    crate::protocol::lemma_id_fields(comm_type, extra_data, host_id);
}

/// A complete status frame is read as the status of the motor that sent it, and is not valid
/// where the status of another motor is expected.
pub proof fn law_status_read(
    frame: RxFrame,
    received: Received,
    motor_id: u8,
    result: Result<MotorFeedback>,
    extra_data: u16,
    device_id: u8,
)
    requires
        frame.raw_id == crate::protocol::can_id(
            CommType::OperationStatus.spec_code(),
            extra_data,
            device_id,
        ),
        frame.data@.len() >= 8,
        received.is_of(frame),
        status_result(received, motor_id, result),
    ensures
        if crate::protocol::low_byte(extra_data) == motor_id {
            result matches Ok(feedback) && crate::protocol::status_frame(
                frame.raw_id,
                frame.data@,
            ) == Some(feedback) && feedback.motor_id == motor_id
        } else {
            result matches Err(e) && e is InvalidResponse
        },
{
    crate::protocol::lemma_id_fields(
        CommType::OperationStatus.spec_code(),
        extra_data,
        device_id,
    );
    crate::protocol::law_status_sender(
        CommType::OperationStatus,
        extra_data,
        device_id,
        frame.data@,
    );
}

/// A motor that answers the request for a parameter with its value is read as that value. The
/// same answer to the request for another parameter is not valid.
pub proof fn law_param_read(
    received: Received,
    asked: ParamIndex,
    answered: ParamIndex,
    value: u32,
    result: Result<u32>,
)
    requires
        received.comm_type == CommType::ReadParameter.spec_code(),
        received.data@ == crate::protocol::param_payload(
            answered,
            crate::protocol::le_bytes(value),
        ),
        param_result(received, asked, result),
    ensures
        asked == answered ==> result == Ok::<u32, RobstrideError>(value),
        asked != answered ==> result is Err && result->Err_0 is InvalidResponse,
{
    crate::protocol::law_param_roundtrip(answered, value);
}

/// A range of IDs holds each ID from the first to the last once, in ascending order.
pub proof fn law_id_range(from: u8, to: u8, id: u8)
    ensures
        id_seq(from, to).contains(id) <==> from <= id <= to,
        forall|i: int, j: int|
            0 <= i < j < id_seq(from, to).len() ==> id_seq(from, to)[i] < id_seq(from, to)[j],
        from <= to ==> id_seq(from, to).len() == to - from + 1,
{
    let ids = id_seq(from, to);
    if from <= id <= to {
        assert(ids[id - from] == id);
    }
}

/// A ping is answered by an extended frame with the pinged ID in one of the two low bytes of
/// its identifier, unless it is the ping itself (type 0 to that device).
pub proof fn law_ping_answer(frame: RxFrame, motor_id: u8)
    ensures
        answers_ping(frame, motor_id) <==> {
            let raw = frame.raw_id as int;
            &&& frame.extended
            &&& (raw / 256) % 256 == motor_id || raw % 256 == motor_id
            &&& !(raw % 256 == motor_id && (raw / 16777216) % 32 == 0)
        },
{
    let raw = frame.raw_id as int;
    let (comm_type, extra_data, device_id) = crate::protocol::id_fields(frame.raw_id);
    assert(extra_data == (raw / 0x100) % 0x1_0000);
    assert(extra_data as int % 0x100 == (raw / 0x100) % 0x100);
    assert(crate::protocol::low_byte(extra_data) == (raw / 0x100) % 0x100);
}

/// A scan notes the motor that it pinged, and no other, when that motor answers, with the
/// payload of the answer. It goes on to the next ID after an answer, after a ping that could
/// not be sent and when the time is over, and waits on after any other frame.
pub proof fn law_scan_stepped(scan: BusScanSpec, event: ScanEvent)
    requires
        scan.valid(),
        scan.at < scan.ids.len(),
    ensures
        ({
            let id = scan.ids[scan.at as int];
            let after = scan.stepped(event);
            let answer = event is Frame && answers_ping(event->Frame_0, id);
            &&& after.ids == scan.ids && after.host_id == scan.host_id
            &&& after.at == if event is Frame && !answer {
                scan.at
            } else {
                scan.at + 1
            }
            &&& !answer ==> after.found == scan.found
            &&& answer ==> after.found.len() == scan.found.len() + 1 && after.found.drop_last()
                == scan.found && after.found.last().0 == id && after.found.last().1 == Some(
                event->Frame_0.data@,
            )
        }),
{
    let after = scan.stepped(event);
    if event is Frame && answers_ping(event->Frame_0, scan.ids[scan.at as int]) {
        assert(after.found.drop_last() =~= scan.found);
    }
}

/// What an answer is taken for, by numbers: a status only if it has type 2 and eight bytes, a
/// parameter only if it has type 17 and names the parameter. The value of a parameter is in the
/// last four bytes, the lowest first.
pub proof fn law_answer_taken(
    received: Received,
    motor_id: u8,
    status: Result<MotorFeedback>,
    param: ParamIndex,
    value: Result<u32>,
)
    requires
        status_result(received, motor_id, status),
        param_result(received, param, value),
    ensures
        status is Ok ==> received.comm_type == 2 && received.data@.len() >= 8,
        value is Ok ==> received.comm_type == 17 && received.data@.len() >= 8 && received.data@[0]
            + 256 * received.data@[1] == param.spec_code(),
        value is Ok ==> value->Ok_0 == received.data@[4] + 256 * received.data@[5] + 65536
            * received.data@[6] + 16777216 * received.data@[7],
{
}

/// Whether a result is the error of an answer that is not valid, with the given reason.
pub open spec fn not_valid<T>(result: Result<T>, reason: Seq<char>) -> bool {
    result matches Err(RobstrideError::InvalidResponse { msg }) && msg@ == reason
}

/// An answer that is not taken is answered with an error that tells what came: the type and the
/// device of a frame of another type, the sender of another motor's status, the number of
/// another parameter. A fault report is told as a fault, with its type for a code.
pub proof fn law_answer_refused(
    received: Received,
    motor_id: u8,
    status: Result<MotorFeedback>,
    param: ParamIndex,
    value: Result<u32>,
)
    requires
        status_result(received, motor_id, status),
        param_result(received, param, value),
    ensures
        ({
            let origin = "got type="@ + crate::text::decimal(received.comm_type as nat)
                + " from device="@ + crate::text::decimal(received.device_id as nat);
            let sender = (received.extra_data % 256) as nat;
            &&& received.comm_type == 21 ==> status == Err::<MotorFeedback, RobstrideError>(
                RobstrideError::MotorFault { code: 21 },
            )
            &&& received.comm_type != 21 && received.comm_type != 2 ==> not_valid(
                status,
                "Expected OperationStatus (type=2), "@ + origin,
            )
            &&& received.comm_type == 2 && received.data@.len() < 8 ==> not_valid(
                status,
                "Failed to parse status frame"@,
            )
            &&& received.comm_type == 2 && received.data@.len() >= 8 && sender != motor_id
                ==> not_valid(
                status,
                "Expected the status of motor "@ + crate::text::decimal(motor_id as nat)
                    + ", got that of motor "@ + crate::text::decimal(sender),
            )
            &&& received.comm_type == 2 && received.data@.len() >= 8 && sender == motor_id
                ==> status is Ok
            &&& received.comm_type != 17 ==> not_valid(
                value,
                "Expected ReadParameter (type=17), "@ + origin,
            )
            &&& received.comm_type == 17 && received.data@.len() < 8 ==> not_valid(
                value,
                "Failed to parse parameter response"@,
            )
        }),
{
}

/// A write goes to the motor itself, from its host, as a frame of type 18: the number of the
/// parameter, two zero bytes, and the value.
pub proof fn law_write_addressed(
    motor: Motor,
    frame: (u32, Vec<u8>),
    param: ParamIndex,
    value: Seq<u8>,
)
    requires
        motor.writes_param(frame, param, value),
        value.len() == 4,
    ensures
        frame.0 == 18 * 16777216 + motor.host_id * 256 + motor.motor_id,
        frame.1@.len() == 8,
        frame.1@[0] + 256 * frame.1@[1] == param.spec_code(),
        frame.1@[2] == 0 && frame.1@[3] == 0,
        frame.1@.skip(4) == value,
{
    crate::protocol::law_id_arithmetic(18, motor.host_id as u16, motor.motor_id, 0);
    assert(frame.1@.skip(4) =~= value);
}

} // verus!
