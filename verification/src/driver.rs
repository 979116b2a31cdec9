//! Motors by vendor, and the exchange with a Robstride motor over a shared bus.
//!
//! The bilateral controller talks to two motors at once. A driver builds the frames for one
//! of them and picks its answers out of everything that arrives.

use vstd::prelude::*;

use crate::motor::Received;
use crate::protocol::{
    build_can_id_raw, build_disable_frame, build_enable_frame, build_mit_frame,
    build_read_param_frame, parse_param_response, parse_status_frame, CommType, MitScales,
    MitWords, MotorFeedback, MotorModel, ParamIndex,
};
use crate::text::{decimal_text, same_text, to_lowercase};

verus! {

/// How long to wait for the answer to enabling or disabling a motor, in milliseconds.
pub const SWITCH_WAIT_MS: u64 = 50;

/// How long to wait for the answer to a MIT command, in milliseconds.
pub const MIT_WAIT_MS: u64 = 10;

/// How long to wait for the answer to a parameter request, in milliseconds.
pub const PARAM_WAIT_MS: u64 = 20;

/// How long to wait for the next frame, in microseconds: until the deadline, but for one
/// millisecond at least.
pub fn wait_left(deadline: u64, now: u64) -> (left: u64)
    ensures
        left == (if now + 1000 <= deadline {
            deadline - now
        } else {
            1000
        }),
{
    if now < deadline && deadline - now >= 1000 {
        deadline - now
    } else {
        1000
    }
}

// ---------------------------------------------------------------------------
// Robstride
// ---------------------------------------------------------------------------

/// Builds the frames for one Robstride motor and picks its answers.
#[derive(Debug)]
pub struct RobstrideDriver {
    pub host_id: u8,
    pub motor_id: u8,
    pub model: MotorModel,
    pub scales: MitScales,
}

/// The name of a Robstride motor in messages.
pub open spec fn robstride_label(model: MotorModel, id: u8) -> Seq<char> {
    "Robstride "@ + model.spec_name() + " ID:"@ + crate::text::decimal(id as nat)
}

/// The feedback in a frame, if it is the status of the given motor.
pub open spec fn status_from(received: Received, motor_id: u8) -> Option<MotorFeedback> {
    if received.comm_type == CommType::OperationStatus.spec_code() && received.data@.len() >= 8
        && crate::protocol::low_byte(received.extra_data) == motor_id {
        crate::protocol::status_frame(
            crate::protocol::can_id(
                received.comm_type,
                received.extra_data,
                received.device_id,
            ),
            received.data@,
        )
    } else {
        None
    }
}

/// Reads the feedback in a frame, if it is the status of the given motor. Echoes and the
/// frames of other motors are passed over.
pub fn pick_status(received: &Received, motor_id: u8) -> (feedback: Option<MotorFeedback>)
    ensures
        feedback == status_from(*received, motor_id),
        feedback matches Some(f) ==> f.motor_id == motor_id,
        received.comm_type == CommType::OperationStatus.spec_code() && received.data@.len() >= 8
            && crate::protocol::low_byte(received.extra_data) == motor_id ==> feedback is Some,
{
    if received.comm_type != CommType::OperationStatus.code() {
        return None;
    }
    let id = build_can_id_raw(received.comm_type, received.extra_data, received.device_id);
    proof {
        crate::protocol::lemma_id_fields(
            received.comm_type,
            received.extra_data,
            received.device_id,
        );
    }
    match parse_status_frame(id, received.data.as_slice()) {
        Some(feedback) => {
            if feedback.motor_id == motor_id {
                Some(feedback)
            } else {
                None
            }
        },
        None => None,
    }
}

impl RobstrideDriver {
    /// A driver for one motor.
    pub fn new(host_id: u8, motor_id: u8, model: MotorModel) -> (driver: RobstrideDriver)
        ensures
            driver == (RobstrideDriver { host_id, motor_id, model, scales: MitScales::of(model) }),
    {
        RobstrideDriver { host_id, motor_id, model, scales: MitScales::for_model(model) }
    }

    /// The motor CAN ID.
    pub fn motor_id(&self) -> (id: u8)
        ensures
            id == self.motor_id,
    {
        self.motor_id
    }

    /// The motor model.
    pub fn model(&self) -> (model: MotorModel)
        ensures
            model == self.model,
    {
        self.model
    }

    /// The frame that enables the motor.
    pub fn enable(&self) -> (frame: (u32, Vec<u8>))
        ensures
            frame.0 == crate::protocol::can_id(
                CommType::Enable.spec_code(),
                self.host_id as u16,
                self.motor_id,
            ),
            frame.1@ == crate::protocol::no_payload(),
    {
        build_enable_frame(self.host_id, self.motor_id)
    }

    /// The frame that disables the motor.
    pub fn disable(&self) -> (frame: (u32, Vec<u8>))
        ensures
            frame.0 == crate::protocol::can_id(
                CommType::Disable.spec_code(),
                self.host_id as u16,
                self.motor_id,
            ),
            frame.1@ == crate::protocol::no_payload(),
    {
        build_disable_frame(self.host_id, self.motor_id)
    }

    /// The frame of a MIT command.
    pub fn mit_exchange(&self, words: MitWords) -> (frame: (u32, Vec<u8>))
        ensures
            frame.0 == crate::protocol::can_id(
                CommType::OperationControl.spec_code(),
                words.torque,
                self.motor_id,
            ),
            frame.1@ == crate::protocol::mit_payload(words),
    {
        build_mit_frame(self.host_id, self.motor_id, words)
    }

    /// The feedback in a frame, if it is this motor's answer to a MIT command.
    pub fn mit_reply(&self, received: &Received) -> (feedback: Option<MotorFeedback>)
        ensures
            feedback == status_from(*received, self.motor_id),
    {
        pick_status(received, self.motor_id)
    }

    /// The frame that asks for a parameter.
    pub fn read_param(&self, param: ParamIndex) -> (frame: (u32, Vec<u8>))
        ensures
            frame.0 == crate::protocol::can_id(
                CommType::ReadParameter.spec_code(),
                self.host_id as u16,
                self.motor_id,
            ),
            frame.1@ == crate::protocol::param_payload(param, seq![0, 0, 0, 0]),
    {
        build_read_param_frame(self.host_id, self.motor_id, param)
    }

    /// The float bits in a frame, if it can be the answer to a parameter request.
    pub fn param_reply(&self, received: &Received) -> (bits: Option<u32>)
        ensures
            bits == (match crate::protocol::param_response(received.data@) {
                Some(response) => Some(response.1),
                None => None,
            }),
    {
        match parse_param_response(received.data.as_slice()) {
            Some(response) => Some(response.1),
            None => None,
        }
    }

    /// The frame that asks for the mechanical position. A disabled motor answers it too.
    pub fn read_position(&self) -> (frame: (u32, Vec<u8>))
        ensures
            frame.0 == crate::protocol::can_id(
                CommType::ReadParameter.spec_code(),
                self.host_id as u16,
                self.motor_id,
            ),
            frame.1@ == crate::protocol::param_payload(ParamIndex::MechPos, seq![0, 0, 0, 0]),
    {
        self.read_param(ParamIndex::MechPos)
    }

    /// The frame that asks for the mechanical velocity. A disabled motor answers it too.
    pub fn read_velocity(&self) -> (frame: (u32, Vec<u8>))
        ensures
            frame.0 == crate::protocol::can_id(
                CommType::ReadParameter.spec_code(),
                self.host_id as u16,
                self.motor_id,
            ),
            frame.1@ == crate::protocol::param_payload(ParamIndex::MechVel, seq![0, 0, 0, 0]),
    {
        self.read_param(ParamIndex::MechVel)
    }

    /// The safe output torque in tenths of a newton metre: half of the torque scale.
    pub fn torque_limit(&self) -> (tenths: u64)
        ensures
            tenths == self.scales.torque * 5,
    {
        (self.scales.torque as u64) * 5
    }

    /// The name of the motor in messages.
    pub fn description(&self) -> (text: String)
        ensures
            text@ == robstride_label(self.model, self.motor_id),
    {
        "Robstride ".to_owned().concat(self.model.name()).concat(" ID:").concat(
            decimal_text(self.motor_id as u64).as_str(),
        )
    }
}

// ---------------------------------------------------------------------------
// Motors of either vendor
// ---------------------------------------------------------------------------

/// Models of DAMIAO motors.
#[derive(Debug, Clone, Copy, PartialEq, Eq, Structural)]
pub enum DamiaoModel {
    DmJ4310,
}

impl DamiaoModel {
    /// The model that a lowercase name stands for.
    pub open spec fn named(name: Seq<char>) -> Option<DamiaoModel> {
        if name == "dm4310"@ || name == "dm-j4310-2ec"@ {
            Some(DamiaoModel::DmJ4310)
        } else {
            None
        }
    }

    /// Looks a model up by its name, in any case.
    pub fn from_str_ci(s: &str) -> (model: Option<DamiaoModel>)
        ensures
            model == DamiaoModel::named(crate::text::lowercase(s@)),
    {
        let lower = to_lowercase(s);
        if same_text(lower.as_str(), "dm4310") || same_text(lower.as_str(), "dm-j4310-2ec") {
            Some(DamiaoModel::DmJ4310)
        } else {
            None
        }
    }

    /// The display name.
    pub open spec fn spec_name(self) -> Seq<char> {
        match self {
            DamiaoModel::DmJ4310 => "DM-J4310"@,
        }
    }

    /// The display name.
    pub fn name(&self) -> (name: &'static str)
        ensures
            name@ == self.spec_name(),
    {
        match self {
            DamiaoModel::DmJ4310 => "DM-J4310",
        }
    }
}

/// A motor on the bus: vendor, ID and model, where its zero lies and which way it turns.
#[allow(inconsistent_fields)]
#[derive(Debug, Clone, Copy, PartialEq, Eq, Structural)]
pub enum MotorSpec {
    Robstride {
        host_id: u8,
        can_id: u8,
        model: MotorModel,
        /// Zero offset [rad], as float bits
        soft_zero: u64,
        /// Whether positions and torques change their sign
        invert: bool,
    },
    Damiao {
        can_id: u8,
        /// ID that the motor answers with, 0 for any
        master_id: u16,
        model: DamiaoModel,
        /// Zero offset [rad], as float bits
        soft_zero: u64,
        /// Whether positions and torques change their sign
        invert: bool,
    },
}

impl MotorSpec {
    /// The CAN ID.
    pub open spec fn id(self) -> u8 {
        match self {
            MotorSpec::Robstride { can_id, .. } => can_id,
            MotorSpec::Damiao { can_id, .. } => can_id,
        }
    }

    /// The number that tells a motor from all others on the bus. The vendors do not share
    /// identifiers, so that a DAMIAO motor may have the ID of a Robstride motor.
    pub open spec fn spec_key(self) -> u16 {
        match self {
            MotorSpec::Robstride { can_id, .. } => can_id as u16,
            MotorSpec::Damiao { can_id, .. } => (0x100 + can_id) as u16,
        }
    }

    /// The name of the motor in messages.
    pub open spec fn spec_description(self) -> Seq<char> {
        match self {
            MotorSpec::Robstride { can_id, model, .. } => robstride_label(model, can_id),
            MotorSpec::Damiao { can_id, model, .. } => "DAMIAO "@ + model.spec_name() + " ID:"@
                + crate::text::decimal(can_id as nat),
        }
    }

    /// The name of the model.
    pub open spec fn spec_label(self) -> Seq<char> {
        match self {
            MotorSpec::Robstride { model, .. } => model.spec_name(),
            MotorSpec::Damiao { model, .. } => model.spec_name(),
        }
    }

    /// The same motor with another zero offset.
    pub open spec fn zeroed(self, offset: u64) -> MotorSpec {
        match self {
            MotorSpec::Robstride { host_id, can_id, model, invert, .. } => MotorSpec::Robstride {
                host_id,
                can_id,
                model,
                soft_zero: offset,
                invert,
            },
            MotorSpec::Damiao { can_id, master_id, model, invert, .. } => MotorSpec::Damiao {
                can_id,
                master_id,
                model,
                soft_zero: offset,
                invert,
            },
        }
    }

    /// The same motor, turning the other way or not.
    pub open spec fn turned(self, inverted: bool) -> MotorSpec {
        match self {
            MotorSpec::Robstride { host_id, can_id, model, soft_zero, .. } =>
                MotorSpec::Robstride { host_id, can_id, model, soft_zero, invert: inverted },
            MotorSpec::Damiao { can_id, master_id, model, soft_zero, .. } => MotorSpec::Damiao {
                can_id,
                master_id,
                model,
                soft_zero,
                invert: inverted,
            },
        }
    }

    /// A Robstride motor with its zero where the encoder has it.
    pub open spec fn robstride_motor(host_id: u8, can_id: u8, model: MotorModel) -> MotorSpec {
        MotorSpec::Robstride { host_id, can_id, model, soft_zero: 0, invert: false }
    }

    /// A DAMIAO motor with its zero where the encoder has it.
    pub open spec fn damiao_motor(can_id: u8, master_id: u16, model: DamiaoModel) -> MotorSpec {
        MotorSpec::Damiao { can_id, master_id, model, soft_zero: 0, invert: false }
    }

    /// A Robstride motor with its zero where the encoder has it.
    pub fn robstride(host_id: u8, can_id: u8, model: MotorModel) -> (spec_: MotorSpec)
        ensures
            spec_ == MotorSpec::robstride_motor(host_id, can_id, model),
    {
        MotorSpec::Robstride { host_id, can_id, model, soft_zero: 0, invert: false }
    }

    /// A DAMIAO motor with its zero where the encoder has it.
    pub fn damiao(can_id: u8, master_id: u16, model: DamiaoModel) -> (spec_: MotorSpec)
        ensures
            spec_ == MotorSpec::damiao_motor(can_id, master_id, model),
    {
        MotorSpec::Damiao { can_id, master_id, model, soft_zero: 0, invert: false }
    }

    /// The CAN ID.
    pub fn can_id(&self) -> (id: u8)
        ensures
            id == self.id(),
    {
        match self {
            MotorSpec::Robstride { can_id, .. } => *can_id,
            MotorSpec::Damiao { can_id, .. } => *can_id,
        }
    }

    /// The number that tells a motor from all others on the bus.
    pub fn key(&self) -> (key: u16)
        ensures
            key == self.spec_key(),
    {
        match self {
            MotorSpec::Robstride { can_id, .. } => *can_id as u16,
            MotorSpec::Damiao { can_id, .. } => 0x100 + *can_id as u16,
        }
    }

    /// Whether this is a DAMIAO motor.
    pub fn is_damiao(&self) -> (damiao: bool)
        ensures
            damiao == (*self is Damiao),
    {
        match self {
            MotorSpec::Robstride { .. } => false,
            MotorSpec::Damiao { .. } => true,
        }
    }

    /// The name of the motor in messages.
    pub fn description(&self) -> (text: String)
        ensures
            text@ == self.spec_description(),
    {
        match self {
            MotorSpec::Robstride { can_id, model, .. } => "Robstride ".to_owned().concat(
                model.name(),
            ).concat(" ID:").concat(decimal_text(*can_id as u64).as_str()),
            MotorSpec::Damiao { can_id, model, .. } => "DAMIAO ".to_owned().concat(
                model.name(),
            ).concat(" ID:").concat(decimal_text(*can_id as u64).as_str()),
        }
    }

    /// The name of the model.
    pub fn model_label(&self) -> (label: String)
        ensures
            label@ == self.spec_label(),
    {
        match self {
            MotorSpec::Robstride { model, .. } => model.name().to_owned(),
            MotorSpec::Damiao { model, .. } => model.name().to_owned(),
        }
    }

    /// The same motor with another zero offset.
    pub fn with_soft_zero(self, offset: u64) -> (spec_: MotorSpec)
        ensures
            spec_ == self.zeroed(offset),
    {
        match self {
            MotorSpec::Robstride { host_id, can_id, model, invert, .. } => MotorSpec::Robstride {
                host_id,
                can_id,
                model,
                soft_zero: offset,
                invert,
            },
            MotorSpec::Damiao { can_id, master_id, model, invert, .. } => MotorSpec::Damiao {
                can_id,
                master_id,
                model,
                soft_zero: offset,
                invert,
            },
        }
    }

    /// The same motor, turning the other way or not.
    pub fn with_invert(self, inverted: bool) -> (spec_: MotorSpec)
        ensures
            spec_ == self.turned(inverted),
    {
        match self {
            MotorSpec::Robstride { host_id, can_id, model, soft_zero, .. } =>
                MotorSpec::Robstride { host_id, can_id, model, soft_zero, invert: inverted },
            MotorSpec::Damiao { can_id, master_id, model, soft_zero, .. } => MotorSpec::Damiao {
                can_id,
                master_id,
                model,
                soft_zero,
                invert: inverted,
            },
        }
    }
}

/// Two motors share a key exactly if they are of one vendor and share their ID. Moving the
/// zero or turning the motor round does not change the key.
pub proof fn law_key_identifies(a: MotorSpec, b: MotorSpec, offset: u64, inverted: bool)
    ensures
        a.spec_key() == b.spec_key() <==> (a is Damiao) == (b is Damiao) && a.id() == b.id(),
        a.zeroed(offset).spec_key() == a.spec_key(),
        a.turned(inverted).spec_key() == a.spec_key(),
{
}

/// A driver takes the status of its own motor and of no other: a frame that one driver takes,
/// a driver for another ID passes over.
pub proof fn law_one_driver_takes(received: Received, a: u8, b: u8)
    requires
        a != b,
        status_from(received, a) is Some,
    ensures
        status_from(received, b) is None,
{
}

/// A driver takes a frame exactly if it is a status (type 2) of eight bytes or more with the ID of
/// its motor in the low byte of the extra data, and reads the words in pairs of bytes.
pub proof fn law_status_taken(received: Received, motor_id: u8)
    ensures
        status_from(received, motor_id) is Some <==> received.comm_type == 2
            && received.data@.len() >= 8 && received.extra_data as int % 256 == motor_id,
        status_from(received, motor_id) matches Some(f) ==> f.motor_id == motor_id && f.position
            == received.data@[0] * 256 + received.data@[1] && f.velocity == received.data@[2] * 256
            + received.data@[3] && f.torque == received.data@[4] * 256 + received.data@[5]
            && f.temperature == received.data@[6] * 256 + received.data@[7],
{
    if received.comm_type == 2 {
        crate::protocol::lemma_id_fields(
            received.comm_type,
            received.extra_data,
            received.device_id,
        );
    }
}

/// A motor is made of what it is given: a Robstride motor of the host, the ID and the model, a
/// DAMIAO motor of the ID, the master and the model. Both stand at the zero of their encoders and
/// turn the way they are built.
pub proof fn law_motor_made(
    host_id: u8,
    can_id: u8,
    master_id: u16,
    model: MotorModel,
    other: DamiaoModel,
)
    ensures
        MotorSpec::robstride_motor(host_id, can_id, model) == (MotorSpec::Robstride {
            host_id,
            can_id,
            model,
            soft_zero: 0,
            invert: false,
        }),
        MotorSpec::damiao_motor(can_id, master_id, other) == (MotorSpec::Damiao {
            can_id,
            master_id,
            model: other,
            soft_zero: 0,
            invert: false,
        }),
        MotorSpec::robstride_motor(host_id, can_id, model).id() == can_id,
        MotorSpec::damiao_motor(can_id, master_id, other).id() == can_id,
{
}

/// Another zero offset changes the offset alone, another polarity the polarity alone: the vendor,
/// the ID, the model and the rest stay. The last offset and the last polarity count.
pub proof fn law_offset_and_polarity(motor: MotorSpec, a: u64, b: u64, inverted: bool)
    ensures
        match (motor.zeroed(a).turned(inverted), motor) {
            (
                MotorSpec::Robstride { host_id: h, can_id: c, model: m, soft_zero, invert },
                MotorSpec::Robstride { host_id, can_id, model, .. },
            ) => h == host_id && c == can_id && m == model && soft_zero == a && invert == inverted,
            (
                MotorSpec::Damiao { can_id: c, master_id: h, model: m, soft_zero, invert },
                MotorSpec::Damiao { can_id, master_id, model, .. },
            ) => c == can_id && h == master_id && m == model && soft_zero == a && invert == inverted,
            _ => false,
        },
        motor.zeroed(a).zeroed(b) == motor.zeroed(b),
        motor.turned(inverted).zeroed(a) == motor.zeroed(a).turned(inverted),
        motor.turned(!inverted).turned(inverted) == motor.turned(inverted),
{
}

/// DAMIAO motors go by two names, and no name stands for motors of both vendors.
pub proof fn law_damiao_names(name: Seq<char>)
    ensures
        DamiaoModel::named(name) is Some <==> name == "dm4310"@ || name == "dm-j4310-2ec"@,
        DamiaoModel::named(name) is Some ==> MotorModel::named(name) is None,
{
    reveal_strlit("dm4310");
    reveal_strlit("dm-j4310-2ec");
    crate::protocol::law_model_names(name);
    assert("dm4310"@.len() == 6 && "dm-j4310-2ec"@.len() == 12);
    assert("dm4310"@[4] == '1' && "dm-j4310-2ec"@[10] == 'e');
}

/// A motor is told by its vendor, its model and its ID, in messages and by its number: a
/// Robstride motor has its ID for a number, a DAMIAO motor one that no ID reaches.
pub proof fn law_motor_words(motor: MotorSpec)
    ensures
        motor matches MotorSpec::Robstride { can_id, model, .. } ==> motor.spec_description()
            == "Robstride "@ + model.spec_name() + " ID:"@ + crate::text::decimal(can_id as nat)
            && motor.spec_label() == model.spec_name() && motor.id() == can_id && motor.spec_key()
            == can_id,
        motor matches MotorSpec::Damiao { can_id, model, .. } ==> motor.spec_description()
            == "DAMIAO "@ + model.spec_name() + " ID:"@ + crate::text::decimal(can_id as nat)
            && motor.spec_label() == model.spec_name() && motor.id() == can_id && motor.spec_key()
            == 256 + can_id,
        DamiaoModel::DmJ4310.spec_name() == "DM-J4310"@,
{
}

} // verus!
