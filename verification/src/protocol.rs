//! Robstride CAN protocol: identifiers, frame builders and response parsing.
//!
//! Every frame is addressed by a 29-bit extended CAN identifier:
//!
//! | Bits 28-24 (5)     | Bits 23-8 (16) | Bits 7-0 (8) |
//! |--------------------|----------------|--------------|
//! | communication type | extra data     | device ID    |
//!
//! Physical values never appear here. A position, a velocity or a gain is the 16-bit word
//! that travels on the wire, a float parameter the 32 bits of its encoding; scaling them is
//! left to whoever shows or computes with them.

use vstd::prelude::*;

use crate::text::{same_text, to_lowercase};

verus! {

/// Default host ID. Must be greater than any motor ID for optimal performance.
pub const DEFAULT_HOST_ID: u8 = 0xFF;

/// The largest 29-bit identifier.
pub const MAX_EXTENDED_ID: u32 = 0x1FFF_FFFF;

// ---------------------------------------------------------------------------
// Codes
// ---------------------------------------------------------------------------

/// Communication types of the Robstride CAN protocol.
#[derive(Debug, Clone, Copy, PartialEq, Eq, Structural)]
pub enum CommType {
    /// Get device ID and 64-bit MCU unique identifier
    GetDeviceId,
    /// MIT mode operation control (position, velocity, gains and torque feedforward)
    OperationControl,
    /// Motor status feedback
    OperationStatus,
    /// Enable the motor
    Enable,
    /// Disable the motor
    Disable,
    /// Set the current position as mechanical zero
    SetZeroPosition,
    /// Set the device CAN ID
    SetDeviceId,
    /// Read a parameter
    ReadParameter,
    /// Write a parameter
    WriteParameter,
    /// Fault report
    FaultReport,
    /// Save all parameters to flash
    SaveParameters,
    /// Set the CAN baudrate
    SetBaudrate,
    /// Motor active report
    ActiveReport,
    /// Set the protocol type
    SetProtocol,
}

impl CommType {
    /// The number of the type on the wire.
    pub open spec fn spec_code(self) -> u8 {
        match self {
            CommType::GetDeviceId => 0,
            CommType::OperationControl => 1,
            CommType::OperationStatus => 2,
            CommType::Enable => 3,
            CommType::Disable => 4,
            CommType::SetZeroPosition => 6,
            CommType::SetDeviceId => 7,
            CommType::ReadParameter => 17,
            CommType::WriteParameter => 18,
            CommType::FaultReport => 21,
            CommType::SaveParameters => 22,
            CommType::SetBaudrate => 23,
            CommType::ActiveReport => 24,
            CommType::SetProtocol => 25,
        }
    }

    /// The number of the type on the wire.
    pub fn code(&self) -> (code: u8)
        ensures
            code == self.spec_code(),
    {
        match self {
            CommType::GetDeviceId => 0,
            CommType::OperationControl => 1,
            CommType::OperationStatus => 2,
            CommType::Enable => 3,
            CommType::Disable => 4,
            CommType::SetZeroPosition => 6,
            CommType::SetDeviceId => 7,
            CommType::ReadParameter => 17,
            CommType::WriteParameter => 18,
            CommType::FaultReport => 21,
            CommType::SaveParameters => 22,
            CommType::SetBaudrate => 23,
            CommType::ActiveReport => 24,
            CommType::SetProtocol => 25,
        }
    }
}

/// Motor run modes.
#[derive(Debug, Clone, Copy, PartialEq, Eq, Structural)]
pub enum RunMode {
    /// MIT mode (position, velocity and torque with gains)
    Mit,
    /// Position mode
    Position,
    /// Velocity mode
    Velocity,
    /// Torque (current) mode
    Torque,
}

impl RunMode {
    /// The value of the run mode parameter.
    pub open spec fn spec_code(self) -> i8 {
        match self {
            RunMode::Mit => 0,
            RunMode::Position => 1,
            RunMode::Velocity => 2,
            RunMode::Torque => 3,
        }
    }

    /// The value of the run mode parameter.
    pub fn code(&self) -> (code: i8)
        ensures
            code == self.spec_code(),
    {
        match self {
            RunMode::Mit => 0,
            RunMode::Position => 1,
            RunMode::Velocity => 2,
            RunMode::Torque => 3,
        }
    }

    /// The name of the mode.
    pub open spec fn spec_name(self) -> Seq<char> {
        match self {
            RunMode::Mit => "Mit"@,
            RunMode::Position => "Position"@,
            RunMode::Velocity => "Velocity"@,
            RunMode::Torque => "Torque"@,
        }
    }

    /// The name of the mode.
    pub fn name(&self) -> (name: &'static str)
        ensures
            name@ == self.spec_name(),
    {
        match self {
            RunMode::Mit => "Mit",
            RunMode::Position => "Position",
            RunMode::Velocity => "Velocity",
            RunMode::Torque => "Torque",
        }
    }
}

/// Parameters that a motor lets one read or write.
#[derive(Debug, Clone, Copy, PartialEq, Eq, Structural)]
pub enum ParamIndex {
    MechOffset,
    MeasuredPosition,
    MeasuredVelocity,
    MeasuredTorque,
    RunMode,
    IqRef,
    SpdRef,
    LimitTorque,
    CurKp,
    CurKi,
    CurFiltGain,
    LocRef,
    LimitSpd,
    LimitCur,
    MechPos,
    IqFilt,
    MechVel,
    Vbus,
    LocKp,
    SpdKp,
    SpdKi,
    SpdFiltGain,
    AccRad,
    VelMax,
    AccSet,
    CanTimeout,
    ZeroState,
}

impl ParamIndex {
    /// The index of the parameter on the wire.
    pub open spec fn spec_code(self) -> u16 {
        match self {
            ParamIndex::MechOffset => 0x2005,
            ParamIndex::MeasuredPosition => 0x3016,
            ParamIndex::MeasuredVelocity => 0x3017,
            ParamIndex::MeasuredTorque => 0x302C,
            ParamIndex::RunMode => 0x7005,
            ParamIndex::IqRef => 0x7006,
            ParamIndex::SpdRef => 0x700A,
            ParamIndex::LimitTorque => 0x700B,
            ParamIndex::CurKp => 0x7010,
            ParamIndex::CurKi => 0x7011,
            ParamIndex::CurFiltGain => 0x7014,
            ParamIndex::LocRef => 0x7016,
            ParamIndex::LimitSpd => 0x7017,
            ParamIndex::LimitCur => 0x7018,
            ParamIndex::MechPos => 0x7019,
            ParamIndex::IqFilt => 0x701A,
            ParamIndex::MechVel => 0x701B,
            ParamIndex::Vbus => 0x701C,
            ParamIndex::LocKp => 0x701E,
            ParamIndex::SpdKp => 0x701F,
            ParamIndex::SpdKi => 0x7020,
            ParamIndex::SpdFiltGain => 0x7021,
            ParamIndex::AccRad => 0x7022,
            ParamIndex::VelMax => 0x7024,
            ParamIndex::AccSet => 0x7025,
            ParamIndex::CanTimeout => 0x7028,
            ParamIndex::ZeroState => 0x7029,
        }
    }

    /// The index of the parameter on the wire.
    pub fn code(&self) -> (code: u16)
        ensures
            code == self.spec_code(),
    {
        match self {
            ParamIndex::MechOffset => 0x2005,
            ParamIndex::MeasuredPosition => 0x3016,
            ParamIndex::MeasuredVelocity => 0x3017,
            ParamIndex::MeasuredTorque => 0x302C,
            ParamIndex::RunMode => 0x7005,
            ParamIndex::IqRef => 0x7006,
            ParamIndex::SpdRef => 0x700A,
            ParamIndex::LimitTorque => 0x700B,
            ParamIndex::CurKp => 0x7010,
            ParamIndex::CurKi => 0x7011,
            ParamIndex::CurFiltGain => 0x7014,
            ParamIndex::LocRef => 0x7016,
            ParamIndex::LimitSpd => 0x7017,
            ParamIndex::LimitCur => 0x7018,
            ParamIndex::MechPos => 0x7019,
            ParamIndex::IqFilt => 0x701A,
            ParamIndex::MechVel => 0x701B,
            ParamIndex::Vbus => 0x701C,
            ParamIndex::LocKp => 0x701E,
            ParamIndex::SpdKp => 0x701F,
            ParamIndex::SpdKi => 0x7020,
            ParamIndex::SpdFiltGain => 0x7021,
            ParamIndex::AccRad => 0x7022,
            ParamIndex::VelMax => 0x7024,
            ParamIndex::AccSet => 0x7025,
            ParamIndex::CanTimeout => 0x7028,
            ParamIndex::ZeroState => 0x7029,
        }
    }
}

// ---------------------------------------------------------------------------
// Motor models
// ---------------------------------------------------------------------------

/// Motor models.
#[derive(Debug, Clone, Copy, PartialEq, Eq, Structural)]
pub enum MotorModel {
    Rs00,
    Rs01,
    Rs02,
    Rs03,
    Rs04,
    Rs05,
    Rs06,
}

impl MotorModel {
    /// The model that a lowercase name stands for.
    pub open spec fn named(name: Seq<char>) -> Option<MotorModel> {
        if name == "rs-00"@ || name == "rs00"@ {
            Some(MotorModel::Rs00)
        } else if name == "rs-01"@ || name == "rs01"@ || name == "edulite01"@ {
            Some(MotorModel::Rs01)
        } else if name == "rs-02"@ || name == "rs02"@ || name == "edulite02"@ {
            Some(MotorModel::Rs02)
        } else if name == "rs-03"@ || name == "rs03"@ {
            Some(MotorModel::Rs03)
        } else if name == "rs-04"@ || name == "rs04"@ {
            Some(MotorModel::Rs04)
        } else if name == "rs-05"@ || name == "rs05"@ || name == "edulite05"@ {
            Some(MotorModel::Rs05)
        } else if name == "rs-06"@ || name == "rs06"@ {
            Some(MotorModel::Rs06)
        } else {
            None
        }
    }

    /// Looks a model up by its name, in any case.
    pub fn from_str(s: &str) -> (model: Option<MotorModel>)
        ensures
            model == MotorModel::named(crate::text::lowercase(s@)),
    {
        let lower = to_lowercase(s);
        let name = lower.as_str();
        if same_text(name, "rs-00") || same_text(name, "rs00") {
            Some(MotorModel::Rs00)
        } else if same_text(name, "rs-01") || same_text(name, "rs01") || same_text(name, "edulite01") {
            Some(MotorModel::Rs01)
        } else if same_text(name, "rs-02") || same_text(name, "rs02") || same_text(name, "edulite02") {
            Some(MotorModel::Rs02)
        } else if same_text(name, "rs-03") || same_text(name, "rs03") {
            Some(MotorModel::Rs03)
        } else if same_text(name, "rs-04") || same_text(name, "rs04") {
            Some(MotorModel::Rs04)
        } else if same_text(name, "rs-05") || same_text(name, "rs05") || same_text(name, "edulite05") {
            Some(MotorModel::Rs05)
        } else if same_text(name, "rs-06") || same_text(name, "rs06") {
            Some(MotorModel::Rs06)
        } else {
            None
        }
    }

    /// The display name.
    pub open spec fn spec_name(self) -> Seq<char> {
        match self {
            MotorModel::Rs00 => "RS-00"@,
            MotorModel::Rs01 => "RS-01"@,
            MotorModel::Rs02 => "RS-02"@,
            MotorModel::Rs03 => "RS-03"@,
            MotorModel::Rs04 => "RS-04"@,
            MotorModel::Rs05 => "RS-05"@,
            MotorModel::Rs06 => "RS-06"@,
        }
    }

    /// The display name.
    pub fn name(&self) -> (name: &'static str)
        ensures
            name@ == self.spec_name(),
    {
        match self {
            MotorModel::Rs00 => "RS-00",
            MotorModel::Rs01 => "RS-01",
            MotorModel::Rs02 => "RS-02",
            MotorModel::Rs03 => "RS-03",
            MotorModel::Rs04 => "RS-04",
            MotorModel::Rs05 => "RS-05",
            MotorModel::Rs06 => "RS-06",
        }
    }
}

/// A display name, looked up again, gives the model that it came from.
pub proof fn law_model_name_roundtrip(model: MotorModel)
    ensures
        MotorModel::named(crate::text::lowercase(model.spec_name())) == Some(model),
{
    reveal_strlit("RS-00");
    reveal_strlit("RS-01");
    reveal_strlit("RS-02");
    reveal_strlit("RS-03");
    reveal_strlit("RS-04");
    reveal_strlit("RS-05");
    reveal_strlit("RS-06");
    reveal_strlit("rs-00");
    reveal_strlit("rs00");
    reveal_strlit("rs-01");
    reveal_strlit("rs01");
    reveal_strlit("edulite01");
    reveal_strlit("rs-02");
    reveal_strlit("rs02");
    reveal_strlit("edulite02");
    reveal_strlit("rs-03");
    reveal_strlit("rs03");
    reveal_strlit("rs-04");
    reveal_strlit("rs04");
    reveal_strlit("rs-05");
    reveal_strlit("rs05");
    reveal_strlit("edulite05");
    reveal_strlit("rs-06");
    reveal_strlit("rs06");
    let name = model.spec_name();
    let lower = crate::text::lowercase(name);
    assert(vstd::utf8::is_ascii_chars(name));
    assert(lower.len() == 5);
    assert(lower[0] == 'r' && lower[1] == 's' && lower[2] == '-' && lower[3] == '0');
    assert(lower[4] == name[4]);
    match model {
        MotorModel::Rs00 => assert(lower =~= "rs-00"@),
        MotorModel::Rs01 => assert(lower =~= "rs-01"@),
        MotorModel::Rs02 => assert(lower =~= "rs-02"@),
        MotorModel::Rs03 => assert(lower =~= "rs-03"@),
        MotorModel::Rs04 => assert(lower =~= "rs-04"@),
        MotorModel::Rs05 => assert(lower =~= "rs-05"@),
        MotorModel::Rs06 => assert(lower =~= "rs-06"@),
    }
}

/// MIT mode scaling of a motor model, in whole units.
///
/// A signed value runs from `-scale` to `+scale`, a gain from 0 to `scale`.
#[derive(Debug, Clone, Copy, PartialEq, Eq, Structural)]
pub struct MitScales {
    /// Position scale, as a multiple of pi [rad]
    pub position: u32,
    /// Velocity scale [rad/s]
    pub velocity: u32,
    /// Torque scale [Nm]
    pub torque: u32,
    /// Position gain scale
    pub kp: u32,
    /// Velocity gain scale
    pub kd: u32,
}

impl MitScales {
    /// The scaling table.
    pub open spec fn of(model: MotorModel) -> MitScales {
        match model {
            MotorModel::Rs00 => (MitScales {
                position: 4,
                velocity: 50,
                torque: 17,
                kp: 500,
                kd: 5,
            }),
            MotorModel::Rs01 => (MitScales {
                position: 4,
                velocity: 44,
                torque: 17,
                kp: 500,
                kd: 5,
            }),
            MotorModel::Rs02 => (MitScales {
                position: 4,
                velocity: 44,
                torque: 17,
                kp: 500,
                kd: 5,
            }),
            MotorModel::Rs03 => (MitScales {
                position: 4,
                velocity: 50,
                torque: 60,
                kp: 5000,
                kd: 100,
            }),
            MotorModel::Rs04 => (MitScales {
                position: 4,
                velocity: 15,
                torque: 120,
                kp: 5000,
                kd: 100,
            }),
            MotorModel::Rs05 => (MitScales {
                position: 4,
                velocity: 30,
                torque: 12,
                kp: 500,
                kd: 5,
            }),
            MotorModel::Rs06 => (MitScales {
                position: 4,
                velocity: 20,
                torque: 60,
                kp: 5000,
                kd: 100,
            }),
        }
    }

    /// Gets the MIT scaling of a motor model.
    pub fn for_model(model: MotorModel) -> (scales: MitScales)
        ensures
            scales == MitScales::of(model),
    {
        match model {
            MotorModel::Rs00 => MitScales { position: 4, velocity: 50, torque: 17, kp: 500, kd: 5 },
            MotorModel::Rs01 => MitScales { position: 4, velocity: 44, torque: 17, kp: 500, kd: 5 },
            MotorModel::Rs02 => MitScales { position: 4, velocity: 44, torque: 17, kp: 500, kd: 5 },
            MotorModel::Rs03 => MitScales { position: 4, velocity: 50, torque: 60, kp: 5000, kd: 100 },
            MotorModel::Rs04 => MitScales { position: 4, velocity: 15, torque: 120, kp: 5000, kd: 100 },
            MotorModel::Rs05 => MitScales { position: 4, velocity: 30, torque: 12, kp: 500, kd: 5 },
            MotorModel::Rs06 => MitScales { position: 4, velocity: 20, torque: 60, kp: 5000, kd: 100 },
        }
    }
}
// ---------------------------------------------------------------------------
// CAN identifiers
// ---------------------------------------------------------------------------

/// The identifier that holds a communication type, extra data and a device ID.
pub open spec fn can_id(comm_type: u8, extra_data: u16, device_id: u8) -> u32 {
    (comm_type * 0x100_0000 + extra_data * 0x100 + device_id) as u32
}

/// The communication type, the extra data and the device ID of an identifier.
pub open spec fn id_fields(id: u32) -> (u8, u16, u8) {
    (
        ((id as int / 0x100_0000) % 32) as u8,
        ((id as int / 0x100) % 0x1_0000) as u16,
        (id as int % 0x100) as u8,
    )
}

/// Builds a 29-bit extended CAN identifier.
///
/// - `comm_type`: communication type (bits 28-24)
/// - `extra_data`: secondary data (bits 23-8), typically the host ID or a torque
/// - `device_id`: target motor ID (bits 7-0)
pub fn build_can_id(comm_type: CommType, extra_data: u16, device_id: u8) -> (id: u32)
    ensures
        id == can_id(comm_type.spec_code(), extra_data, device_id),
        id <= MAX_EXTENDED_ID,
{
    build_can_id_raw(comm_type.code(), extra_data, device_id)
}

/// Builds an identifier from the number of a communication type.
pub fn build_can_id_raw(comm_type: u8, extra_data: u16, device_id: u8) -> (id: u32)
    ensures
        id == can_id(comm_type, extra_data, device_id),
        id == comm_type * 0x100_0000 + extra_data * 0x100 + device_id,
{
    (comm_type as u32) * 0x100_0000 + (extra_data as u32) * 0x100 + (device_id as u32)
}

/// Decodes a 29-bit extended CAN identifier into the communication type, the extra data and
/// the device ID.
pub fn parse_can_id(id: u32) -> (fields: (u8, u16, u8))
    ensures
        fields == id_fields(id),
{
    let comm_type: u8 = ((id / 0x100_0000) % 32) as u8;
    let extra_data: u16 = ((id / 0x100) % 0x1_0000) as u16;
    let device_id: u8 = (id % 0x100) as u8;
    (comm_type, extra_data, device_id)
}

/// Decoding an identifier gives back what it was built from, and an identifier never needs
/// more than 29 bits.
pub proof fn law_can_id_roundtrip(comm_type: CommType, extra_data: u16, device_id: u8)
    ensures
        id_fields(can_id(comm_type.spec_code(), extra_data, device_id)) == (
            comm_type.spec_code(),
            extra_data,
            device_id,
        ),
        can_id(comm_type.spec_code(), extra_data, device_id) <= MAX_EXTENDED_ID,
{
    lemma_id_fields(comm_type.spec_code(), extra_data, device_id);
}

/// Every 29-bit identifier is the one that its fields build.
pub proof fn law_can_id_rebuild(id: u32)
    requires
        id <= MAX_EXTENDED_ID,
    ensures
        can_id(id_fields(id).0, id_fields(id).1, id_fields(id).2) == id,
{
}

pub(crate) proof fn lemma_id_fields(comm_type: u8, extra_data: u16, device_id: u8)
    requires
        comm_type < 32,
    ensures
        id_fields(can_id(comm_type, extra_data, device_id)) == (comm_type, extra_data, device_id),
        can_id(comm_type, extra_data, device_id) <= MAX_EXTENDED_ID,
{
    let id = comm_type * 0x100_0000 + extra_data * 0x100 + device_id;
    assert(id / 0x100_0000 == comm_type);
    assert(id / 0x100 == comm_type * 0x1_0000 + extra_data);
    assert((comm_type * 0x1_0000 + extra_data) % 0x1_0000 == extra_data as int);
    assert(id % 0x100 == device_id);
}

// ---------------------------------------------------------------------------
// Frame builders
// ---------------------------------------------------------------------------

/// The five 16-bit words of a MIT command.
///
/// Position, velocity and torque are centred on `0x7FFF`, the gains start at 0.
#[derive(Debug, Clone, Copy, PartialEq, Eq, Structural)]
pub struct MitWords {
    pub position: u16,
    pub velocity: u16,
    pub kp: u16,
    pub kd: u16,
    pub torque: u16,
}

impl MitWords {
    /// The command for zero position, velocity and torque with both gains at zero.
    pub open spec fn rest() -> MitWords {
        MitWords { position: 0x7FFF, velocity: 0x7FFF, kp: 0, kd: 0, torque: 0x7FFF }
    }

    /// The command for zero position, velocity and torque with both gains at zero.
    pub fn zero() -> (words: MitWords)
        ensures
            words == MitWords::rest(),
    {
        MitWords { position: 0x7FFF, velocity: 0x7FFF, kp: 0, kd: 0, torque: 0x7FFF }
    }
}

/// The high byte of a word.
pub open spec fn high_byte(word: u16) -> u8 {
    (word / 0x100) as u8
}

/// The low byte of a word.
pub open spec fn low_byte(word: u16) -> u8 {
    (word % 0x100) as u8
}

/// The word made of two bytes.
pub open spec fn word_of(high: u8, low: u8) -> u16 {
    (high * 0x100 + low) as u16
}

/// The bytes of 32 bits, least significant first.
pub open spec fn le_bytes(bits: u32) -> Seq<u8> {
    seq![
        (bits as int % 0x100) as u8,
        (bits as int / 0x100 % 0x100) as u8,
        (bits as int / 0x1_0000 % 0x100) as u8,
        (bits as int / 0x100_0000) as u8,
    ]
}

/// The 32 bits made of four bytes, least significant first.
pub open spec fn le_bits(b0: u8, b1: u8, b2: u8, b3: u8) -> u32 {
    (b0 + b1 * 0x100 + b2 * 0x1_0000 + b3 * 0x100_0000) as u32
}

/// An `i8` as the byte with the same bits.
pub open spec fn signed_byte(value: i8) -> u8 {
    if value < 0 {
        (value + 0x100) as u8
    } else {
        value as u8
    }
}

/// Eight zero bytes.
pub open spec fn no_payload() -> Seq<u8> {
    seq![0u8, 0, 0, 0, 0, 0, 0, 0]
}

/// The payload of a MIT command: four words, high byte first. The torque travels in the
/// identifier.
pub open spec fn mit_payload(words: MitWords) -> Seq<u8> {
    seq![
        high_byte(words.position),
        low_byte(words.position),
        high_byte(words.velocity),
        low_byte(words.velocity),
        high_byte(words.kp),
        low_byte(words.kp),
        high_byte(words.kd),
        low_byte(words.kd),
    ]
}

/// The payload that names a parameter and carries four bytes of value.
pub open spec fn param_payload(param: ParamIndex, value: Seq<u8>) -> Seq<u8> {
    seq![low_byte(param.spec_code()), high_byte(param.spec_code()), 0, 0] + value
}

/// Builds a GET_DEVICE_ID (ping) frame, used to probe whether a motor is present on the bus.
pub fn build_ping_frame(host_id: u8, device_id: u8) -> (frame: (u32, Vec<u8>))
    ensures
        frame.0 == can_id(CommType::GetDeviceId.spec_code(), host_id as u16, device_id),
        frame.0 <= MAX_EXTENDED_ID,
        frame.1@ == no_payload(),
{
    let id = build_can_id(CommType::GetDeviceId, host_id as u16, device_id);
    (id, vec![0u8, 0, 0, 0, 0, 0, 0, 0])
}

/// Builds a motor enable frame.
pub fn build_enable_frame(host_id: u8, device_id: u8) -> (frame: (u32, Vec<u8>))
    ensures
        frame.0 == can_id(CommType::Enable.spec_code(), host_id as u16, device_id),
        frame.0 <= MAX_EXTENDED_ID,
        frame.1@ == no_payload(),
{
    let id = build_can_id(CommType::Enable, host_id as u16, device_id);
    (id, vec![0u8, 0, 0, 0, 0, 0, 0, 0])
}

/// Builds a motor disable frame.
pub fn build_disable_frame(host_id: u8, device_id: u8) -> (frame: (u32, Vec<u8>))
    ensures
        frame.0 == can_id(CommType::Disable.spec_code(), host_id as u16, device_id),
        frame.0 <= MAX_EXTENDED_ID,
        frame.1@ == no_payload(),
{
    let id = build_can_id(CommType::Disable, host_id as u16, device_id);
    (id, vec![0u8, 0, 0, 0, 0, 0, 0, 0])
}

/// Builds a "set zero position" frame.
pub fn build_set_zero_frame(host_id: u8, device_id: u8) -> (frame: (u32, Vec<u8>))
    ensures
        frame.0 == can_id(CommType::SetZeroPosition.spec_code(), host_id as u16, device_id),
        frame.0 <= MAX_EXTENDED_ID,
        frame.1@ == no_payload().update(0, 1),
{
    let id = build_can_id(CommType::SetZeroPosition, host_id as u16, device_id);
    let data = vec![1u8, 0, 0, 0, 0, 0, 0, 0];
    assert(data@ =~= no_payload().update(0, 1));
    (id, data)
}

/// Builds a MIT-mode operation control frame.
///
/// The payload holds position, velocity and the gains, high byte first. The torque stands in
/// the extra data of the identifier, where other frames carry the host ID.
pub fn build_mit_frame(_host_id: u8, device_id: u8, words: MitWords) -> (frame: (u32, Vec<u8>))
    ensures
        frame.0 == can_id(CommType::OperationControl.spec_code(), words.torque, device_id),
        frame.0 <= MAX_EXTENDED_ID,
        frame.1@ == mit_payload(words),
{
    let id = build_can_id(CommType::OperationControl, words.torque, device_id);
    let data = vec![
        (words.position / 0x100) as u8,
        (words.position % 0x100) as u8,
        (words.velocity / 0x100) as u8,
        (words.velocity % 0x100) as u8,
        (words.kp / 0x100) as u8,
        (words.kp % 0x100) as u8,
        (words.kd / 0x100) as u8,
        (words.kd % 0x100) as u8,
    ];
    assert(data@ =~= mit_payload(words));
    (id, data)
}

/// Builds a read parameter frame.
pub fn build_read_param_frame(host_id: u8, device_id: u8, param: ParamIndex) -> (frame: (
    u32,
    Vec<u8>,
))
    ensures
        frame.0 == can_id(CommType::ReadParameter.spec_code(), host_id as u16, device_id),
        frame.0 <= MAX_EXTENDED_ID,
        frame.1@ == param_payload(param, seq![0, 0, 0, 0]),
{
    let id = build_can_id(CommType::ReadParameter, host_id as u16, device_id);
    let index: u16 = param.code();
    let data = vec![(index % 0x100) as u8, (index / 0x100) as u8, 0, 0, 0, 0, 0, 0];
    assert(data@ =~= param_payload(param, seq![0, 0, 0, 0]));
    (id, data)
}

/// Builds a write parameter frame for a float value, given by its 32 bits.
pub fn build_write_param_f32_frame(
    host_id: u8,
    device_id: u8,
    param: ParamIndex,
    value: u32,
) -> (frame: (u32, Vec<u8>))
    ensures
        frame.0 == can_id(CommType::WriteParameter.spec_code(), host_id as u16, device_id),
        frame.0 <= MAX_EXTENDED_ID,
        frame.1@ == param_payload(param, le_bytes(value)),
{
    let id = build_can_id(CommType::WriteParameter, host_id as u16, device_id);
    let index: u16 = param.code();
    let data = vec![
        (index % 0x100) as u8,
        (index / 0x100) as u8,
        0,
        0,
        (value % 0x100) as u8,
        (value / 0x100 % 0x100) as u8,
        (value / 0x1_0000 % 0x100) as u8,
        (value / 0x100_0000) as u8,
    ];
    assert(data@ =~= param_payload(param, le_bytes(value)));
    (id, data)
}

/// Builds a write parameter frame for a one-byte value, such as the run mode.
pub fn build_write_param_i8_frame(
    host_id: u8,
    device_id: u8,
    param: ParamIndex,
    value: i8,
) -> (frame: (u32, Vec<u8>))
    ensures
        frame.0 == can_id(CommType::WriteParameter.spec_code(), host_id as u16, device_id),
        frame.0 <= MAX_EXTENDED_ID,
        frame.1@ == param_payload(param, seq![signed_byte(value), 0, 0, 0]),
{
    let id = build_can_id(CommType::WriteParameter, host_id as u16, device_id);
    let index: u16 = param.code();
    let byte: u8 = if value < 0 {
        (value as i16 + 0x100) as u8
    } else {
        value as u8
    };
    let data = vec![(index % 0x100) as u8, (index / 0x100) as u8, 0, 0, byte, 0, 0, 0];
    assert(data@ =~= param_payload(param, seq![signed_byte(value), 0, 0, 0]));
    (id, data)
}

/// Builds a run mode change frame.
pub fn build_run_mode_frame(host_id: u8, device_id: u8, mode: RunMode) -> (frame: (u32, Vec<u8>))
    ensures
        frame.0 == can_id(CommType::WriteParameter.spec_code(), host_id as u16, device_id),
        frame.0 <= MAX_EXTENDED_ID,
        frame.1@ == param_payload(
            ParamIndex::RunMode,
            seq![signed_byte(mode.spec_code()), 0, 0, 0],
        ),
{
    build_write_param_i8_frame(host_id, device_id, ParamIndex::RunMode, mode.code())
}

// ---------------------------------------------------------------------------
// Responses
// ---------------------------------------------------------------------------

/// Status bits decoded from the extra data of a status response.
#[derive(Debug, Clone, Copy, PartialEq, Eq, Structural, Default)]
pub struct MotorStatusBits {
    /// Motor mode (2 bits)
    pub mode: u8,
    /// Encoder uncalibrated
    pub uncalibrated: bool,
    /// Motor stalled
    pub stall: bool,
    /// Magnetic encoder fault
    pub magnetic_encoder_fault: bool,
    /// Over-temperature
    pub overtemperature: bool,
    /// Over-current
    pub overcurrent: bool,
    /// Under-voltage
    pub undervoltage: bool,
    /// Device ID of the motor that answered
    pub device_id: u8,
}

/// Motor feedback as it stands in a status response.
#[derive(Debug, Clone, Copy, PartialEq, Eq, Structural)]
pub struct MotorFeedback {
    /// Motor CAN ID
    pub motor_id: u8,
    /// Position word, centred on `0x7FFF`
    pub position: u16,
    /// Velocity word, centred on `0x7FFF`
    pub velocity: u16,
    /// Torque word, centred on `0x7FFF`
    pub torque: u16,
    /// Motor temperature in tenths of a degree Celsius
    pub temperature: u16,
    /// Status bits
    pub status: MotorStatusBits,
}

/// Whether the bit of a given weight is set in a word.
pub open spec fn has_bit(word: u16, weight: int) -> bool {
    (word as int / weight) % 2 == 1
}

/// The status bits that stand in the extra data of a response.
pub open spec fn status_bits(extra_data: u16) -> MotorStatusBits {
    MotorStatusBits {
        mode: (extra_data as int / 0x4000) as u8,
        uncalibrated: has_bit(extra_data, 0x2000),
        stall: has_bit(extra_data, 0x1000),
        magnetic_encoder_fault: has_bit(extra_data, 0x800),
        overtemperature: has_bit(extra_data, 0x400),
        overcurrent: has_bit(extra_data, 0x200),
        undervoltage: has_bit(extra_data, 0x100),
        device_id: (extra_data as int % 0x100) as u8,
    }
}

/// Decodes the extra data of a status response.
pub fn parse_status_bits(extra_data: u16) -> (bits: MotorStatusBits)
    ensures
        bits == status_bits(extra_data),
{
    MotorStatusBits {
        mode: (extra_data / 0x4000) as u8,
        uncalibrated: (extra_data / 0x2000) % 2 == 1,
        stall: (extra_data / 0x1000) % 2 == 1,
        magnetic_encoder_fault: (extra_data / 0x800) % 2 == 1,
        overtemperature: (extra_data / 0x400) % 2 == 1,
        overcurrent: (extra_data / 0x200) % 2 == 1,
        undervoltage: (extra_data / 0x100) % 2 == 1,
        device_id: (extra_data % 0x100) as u8,
    }
}

/// The feedback that a frame carries. Status and fault reports of at least eight bytes do,
/// as four words, high byte first.
pub open spec fn status_frame(id: u32, data: Seq<u8>) -> Option<MotorFeedback> {
    let fields = id_fields(id);
    if data.len() >= 8 && (fields.0 == CommType::OperationStatus.spec_code() || fields.0
        == CommType::FaultReport.spec_code()) {
        let status = status_bits(fields.1);
        Some(
            MotorFeedback {
                motor_id: status.device_id,
                position: word_of(data[0], data[1]),
                velocity: word_of(data[2], data[3]),
                torque: word_of(data[4], data[5]),
                temperature: word_of(data[6], data[7]),
                status,
            },
        )
    } else {
        None
    }
}

fn word(high: u8, low: u8) -> (w: u16)
    ensures
        w == word_of(high, low),
{
    (high as u16) * 0x100 + (low as u16)
}

/// Parses a motor status feedback frame.
pub fn parse_status_frame(id: u32, data: &[u8]) -> (feedback: Option<MotorFeedback>)
    ensures
        feedback == status_frame(id, data@),
{
    if data.len() < 8 {
        return None;
    }
    let (comm_type, extra_data, _device_id) = parse_can_id(id);
    if comm_type != CommType::OperationStatus.code() && comm_type != CommType::FaultReport.code() {
        return None;
    }
    let status = parse_status_bits(extra_data);
    Some(
        MotorFeedback {
            motor_id: status.device_id,
            position: word(data[0], data[1]),
            velocity: word(data[2], data[3]),
            torque: word(data[4], data[5]),
            temperature: word(data[6], data[7]),
            status,
        },
    )
}

/// The parameter index and the 32 bits of value in a parameter response of at least eight
/// bytes.
pub open spec fn param_response(data: Seq<u8>) -> Option<(u16, u32)> {
    if data.len() >= 8 {
        Some((word_of(data[1], data[0]), le_bits(data[4], data[5], data[6], data[7])))
    } else {
        None
    }
}

/// Parses a parameter read response into the parameter index and the bits of its float value.
pub fn parse_param_response(data: &[u8]) -> (response: Option<(u16, u32)>)
    ensures
        response == param_response(data@),
{
    if data.len() < 8 {
        return None;
    }
    let index = word(data[1], data[0]);
    let bits: u32 = (data[4] as u32) + (data[5] as u32) * 0x100 + (data[6] as u32) * 0x1_0000 + (
    data[7] as u32) * 0x100_0000;
    Some((index, bits))
}

/// A word is the one that its two bytes make.
pub proof fn law_word_bytes(word: u16)
    ensures
        word_of(high_byte(word), low_byte(word)) == word,
{
}

/// The payload of a parameter write, read as a parameter response, gives back the parameter
/// and the value.
pub proof fn law_param_roundtrip(param: ParamIndex, value: u32)
    ensures
        param_response(param_payload(param, le_bytes(value))) == Some((param.spec_code(), value)),
{
    let data = param_payload(param, le_bytes(value));
    let v = value as int;
    assert(data[4] == v % 0x100);
    assert(data[5] == v / 0x100 % 0x100);
    assert(data[6] == v / 0x1_0000 % 0x100);
    assert(data[7] == v / 0x100_0000);
    assert(v / 0x1_0000 == (v / 0x100) / 0x100);
    assert(v / 0x100_0000 == (v / 0x1_0000) / 0x100);
}

/// The words of a MIT command can all be read back from its frame.
pub proof fn law_mit_roundtrip(words: MitWords, device_id: u8)
    ensures
        ({
            let id = can_id(CommType::OperationControl.spec_code(), words.torque, device_id);
            let data = mit_payload(words);
            words == MitWords {
                position: word_of(data[0], data[1]),
                velocity: word_of(data[2], data[3]),
                kp: word_of(data[4], data[5]),
                kd: word_of(data[6], data[7]),
                torque: id_fields(id).1,
            }
        }),
{
    lemma_id_fields(CommType::OperationControl.spec_code(), words.torque, device_id);
}

/// Status frames report the motor that sent them: the low byte of the extra data is both
/// the motor ID and the device ID of the feedback.
pub proof fn law_status_sender(comm_type: CommType, extra_data: u16, device_id: u8, data: Seq<u8>)
    requires
        data.len() >= 8,
        comm_type == CommType::OperationStatus || comm_type == CommType::FaultReport,
    ensures
        status_frame(can_id(comm_type.spec_code(), extra_data, device_id), data) matches Some(fb)
            && fb.motor_id == low_byte(extra_data) && fb.status.device_id == low_byte(extra_data),
{
    lemma_id_fields(comm_type.spec_code(), extra_data, device_id);
}

/// Every command has a payload of eight bytes: those without values, the zero command, those
/// that read a parameter or write a number or a byte to it, and the MIT command.
pub proof fn law_payload_eight(param: ParamIndex, value: u32, byte: u8, words: MitWords)
    ensures
        no_payload().len() == 8,
        no_payload().update(0, 1).len() == 8,
        param_payload(param, seq![0, 0, 0, 0]).len() == 8,
        param_payload(param, le_bytes(value)).len() == 8,
        param_payload(param, seq![byte, 0, 0, 0]).len() == 8,
        mit_payload(words).len() == 8,
{
}

// ---------------------------------------------------------------------------
// What the numbers and the bytes are
// ---------------------------------------------------------------------------

/// The scaling of every model in numbers. All models turn two revolutions either way. The
/// large ones (RS-03, RS-04 and RS-06) have gains ten and twenty times as large as the small
/// ones.
pub proof fn law_scales(model: MotorModel)
    ensures
        ({
            let s = MitScales::of(model);
            let large = model == MotorModel::Rs03 || model == MotorModel::Rs04 || model
                == MotorModel::Rs06;
            &&& s.position == 4
            &&& s.kp == (if large { 5000int } else { 500 })
            &&& s.kd == (if large { 100int } else { 5 })
            &&& s.torque == 120 <==> model == MotorModel::Rs04
            &&& s.torque == 60 <==> model == MotorModel::Rs03 || model == MotorModel::Rs06
            &&& s.torque == 17 <==> model == MotorModel::Rs00 || model == MotorModel::Rs01 || model
                == MotorModel::Rs02
            &&& s.torque == 12 <==> model == MotorModel::Rs05
            &&& s.velocity == 50 <==> model == MotorModel::Rs00 || model == MotorModel::Rs03
            &&& s.velocity == 44 <==> model == MotorModel::Rs01 || model == MotorModel::Rs02
            &&& s.velocity == 30 <==> model == MotorModel::Rs05
            &&& s.velocity == 20 <==> model == MotorModel::Rs06
            &&& s.velocity == 15 <==> model == MotorModel::Rs04
        }),
{
}

/// The number in the name of a model.
pub open spec fn model_number(model: MotorModel) -> int {
    match model {
        MotorModel::Rs00 => 0,
        MotorModel::Rs01 => 1,
        MotorModel::Rs02 => 2,
        MotorModel::Rs03 => 3,
        MotorModel::Rs04 => 4,
        MotorModel::Rs05 => 5,
        MotorModel::Rs06 => 6,
    }
}

/// A model is known by its number: a name that stands for a model ends in the number of that
/// model, behind a zero, and the name `rs` or `rs-` with the number stands for it. The models 1, 2
/// and 5 are also known by the name `edulite`.
pub proof fn law_model_names(name: Seq<char>)
    ensures
        MotorModel::named(name) matches Some(model) ==> name.len() >= 4 && name[name.len() - 1] as int
            == 48 + model_number(model) && name[name.len() - 2] == '0',
        name == "rs-00"@ ==> MotorModel::named(name) == Some(MotorModel::Rs00),
        name == "rs00"@ ==> MotorModel::named(name) == Some(MotorModel::Rs00),
        name == "rs-01"@ ==> MotorModel::named(name) == Some(MotorModel::Rs01),
        name == "rs01"@ ==> MotorModel::named(name) == Some(MotorModel::Rs01),
        name == "edulite01"@ ==> MotorModel::named(name) == Some(MotorModel::Rs01),
        name == "rs-02"@ ==> MotorModel::named(name) == Some(MotorModel::Rs02),
        name == "rs02"@ ==> MotorModel::named(name) == Some(MotorModel::Rs02),
        name == "edulite02"@ ==> MotorModel::named(name) == Some(MotorModel::Rs02),
        name == "rs-03"@ ==> MotorModel::named(name) == Some(MotorModel::Rs03),
        name == "rs03"@ ==> MotorModel::named(name) == Some(MotorModel::Rs03),
        name == "rs-04"@ ==> MotorModel::named(name) == Some(MotorModel::Rs04),
        name == "rs04"@ ==> MotorModel::named(name) == Some(MotorModel::Rs04),
        name == "rs-05"@ ==> MotorModel::named(name) == Some(MotorModel::Rs05),
        name == "rs05"@ ==> MotorModel::named(name) == Some(MotorModel::Rs05),
        name == "edulite05"@ ==> MotorModel::named(name) == Some(MotorModel::Rs05),
        name == "rs-06"@ ==> MotorModel::named(name) == Some(MotorModel::Rs06),
        name == "rs06"@ ==> MotorModel::named(name) == Some(MotorModel::Rs06),
{
    reveal_strlit("rs-00");
    reveal_strlit("rs00");
    reveal_strlit("rs-01");
    reveal_strlit("rs01");
    reveal_strlit("edulite01");
    reveal_strlit("rs-02");
    reveal_strlit("rs02");
    reveal_strlit("edulite02");
    reveal_strlit("rs-03");
    reveal_strlit("rs03");
    reveal_strlit("rs-04");
    reveal_strlit("rs04");
    reveal_strlit("rs-05");
    reveal_strlit("rs05");
    reveal_strlit("edulite05");
    reveal_strlit("rs-06");
    reveal_strlit("rs06");
    assert("rs-00"@[4] != "rs-01"@[4]);
    assert("rs-00"@[4] != "rs-02"@[4]);
    assert("rs-00"@[4] != "rs-03"@[4]);
    assert("rs-00"@[4] != "rs-04"@[4]);
    assert("rs-00"@[4] != "rs-05"@[4]);
    assert("rs-00"@[4] != "rs-06"@[4]);
    assert("rs00"@[3] != "rs01"@[3]);
    assert("rs00"@[3] != "rs02"@[3]);
    assert("rs00"@[3] != "rs03"@[3]);
    assert("rs00"@[3] != "rs04"@[3]);
    assert("rs00"@[3] != "rs05"@[3]);
    assert("rs00"@[3] != "rs06"@[3]);
    assert("rs-01"@[4] != "rs-02"@[4]);
    assert("rs-01"@[4] != "rs-03"@[4]);
    assert("rs-01"@[4] != "rs-04"@[4]);
    assert("rs-01"@[4] != "rs-05"@[4]);
    assert("rs-01"@[4] != "rs-06"@[4]);
    assert("rs01"@[3] != "rs02"@[3]);
    assert("rs01"@[3] != "rs03"@[3]);
    assert("rs01"@[3] != "rs04"@[3]);
    assert("rs01"@[3] != "rs05"@[3]);
    assert("rs01"@[3] != "rs06"@[3]);
    assert("edulite01"@[8] != "edulite02"@[8]);
    assert("edulite01"@[8] != "edulite05"@[8]);
    assert("rs-02"@[4] != "rs-03"@[4]);
    assert("rs-02"@[4] != "rs-04"@[4]);
    assert("rs-02"@[4] != "rs-05"@[4]);
    assert("rs-02"@[4] != "rs-06"@[4]);
    assert("rs02"@[3] != "rs03"@[3]);
    assert("rs02"@[3] != "rs04"@[3]);
    assert("rs02"@[3] != "rs05"@[3]);
    assert("rs02"@[3] != "rs06"@[3]);
    assert("edulite02"@[8] != "edulite05"@[8]);
    assert("rs-03"@[4] != "rs-04"@[4]);
    assert("rs-03"@[4] != "rs-05"@[4]);
    assert("rs-03"@[4] != "rs-06"@[4]);
    assert("rs03"@[3] != "rs04"@[3]);
    assert("rs03"@[3] != "rs05"@[3]);
    assert("rs03"@[3] != "rs06"@[3]);
    assert("rs-04"@[4] != "rs-05"@[4]);
    assert("rs-04"@[4] != "rs-06"@[4]);
    assert("rs04"@[3] != "rs05"@[3]);
    assert("rs04"@[3] != "rs06"@[3]);
    assert("rs-05"@[4] != "rs-06"@[4]);
    assert("rs05"@[3] != "rs06"@[3]);
    assert("rs-00"@.len() == 5);
    assert("rs00"@.len() == 4);
    assert("rs-01"@.len() == 5);
    assert("rs01"@.len() == 4);
    assert("edulite01"@.len() == 9);
    assert("rs-02"@.len() == 5);
    assert("rs02"@.len() == 4);
    assert("edulite02"@.len() == 9);
    assert("rs-03"@.len() == 5);
    assert("rs03"@.len() == 4);
    assert("rs-04"@.len() == 5);
    assert("rs04"@.len() == 4);
    assert("rs-05"@.len() == 5);
    assert("rs05"@.len() == 4);
    assert("edulite05"@.len() == 9);
    assert("rs-06"@.len() == 5);
    assert("rs06"@.len() == 4);
    if let Some(model) = MotorModel::named(name) {
        assert("rs-00"@[4] == '0' && "rs-00"@[3] == '0');
        assert("rs00"@[3] == '0' && "rs00"@[2] == '0');
        assert("rs-01"@[4] == '1' && "rs-01"@[3] == '0');
        assert("rs01"@[3] == '1' && "rs01"@[2] == '0');
        assert("edulite01"@[8] == '1' && "edulite01"@[7] == '0');
        assert("rs-02"@[4] == '2' && "rs-02"@[3] == '0');
        assert("rs02"@[3] == '2' && "rs02"@[2] == '0');
        assert("edulite02"@[8] == '2' && "edulite02"@[7] == '0');
        assert("rs-03"@[4] == '3' && "rs-03"@[3] == '0');
        assert("rs03"@[3] == '3' && "rs03"@[2] == '0');
        assert("rs-04"@[4] == '4' && "rs-04"@[3] == '0');
        assert("rs04"@[3] == '4' && "rs04"@[2] == '0');
        assert("rs-05"@[4] == '5' && "rs-05"@[3] == '0');
        assert("rs05"@[3] == '5' && "rs05"@[2] == '0');
        assert("edulite05"@[8] == '5' && "edulite05"@[7] == '0');
        assert("rs-06"@[4] == '6' && "rs-06"@[3] == '0');
        assert("rs06"@[3] == '6' && "rs06"@[2] == '0');
    }
}


/// The numbers of the parameters on the wire.
pub proof fn law_param_numbers()
    ensures
        ParamIndex::MechOffset.spec_code() == 8197,
        ParamIndex::MeasuredPosition.spec_code() == 12310,
        ParamIndex::MeasuredVelocity.spec_code() == 12311,
        ParamIndex::MeasuredTorque.spec_code() == 12332,
        ParamIndex::RunMode.spec_code() == 28677,
        ParamIndex::IqRef.spec_code() == 28678,
        ParamIndex::SpdRef.spec_code() == 28682,
        ParamIndex::LimitTorque.spec_code() == 28683,
        ParamIndex::CurKp.spec_code() == 28688,
        ParamIndex::CurKi.spec_code() == 28689,
        ParamIndex::CurFiltGain.spec_code() == 28692,
        ParamIndex::LocRef.spec_code() == 28694,
        ParamIndex::LimitSpd.spec_code() == 28695,
        ParamIndex::LimitCur.spec_code() == 28696,
        ParamIndex::MechPos.spec_code() == 28697,
        ParamIndex::IqFilt.spec_code() == 28698,
        ParamIndex::MechVel.spec_code() == 28699,
        ParamIndex::Vbus.spec_code() == 28700,
        ParamIndex::LocKp.spec_code() == 28702,
        ParamIndex::SpdKp.spec_code() == 28703,
        ParamIndex::SpdKi.spec_code() == 28704,
        ParamIndex::SpdFiltGain.spec_code() == 28705,
        ParamIndex::AccRad.spec_code() == 28706,
        ParamIndex::VelMax.spec_code() == 28708,
        ParamIndex::AccSet.spec_code() == 28709,
        ParamIndex::CanTimeout.spec_code() == 28712,
        ParamIndex::ZeroState.spec_code() == 28713,
{
}

/// The numbers of the communication types on the wire: the requests to a motor, its answers, and
/// the rest.
pub proof fn law_type_numbers()
    ensures
        CommType::GetDeviceId.spec_code() == 0,
        CommType::OperationControl.spec_code() == 1,
        CommType::OperationStatus.spec_code() == 2,
        CommType::Enable.spec_code() == 3,
        CommType::Disable.spec_code() == 4,
        CommType::SetZeroPosition.spec_code() == 6,
        CommType::SetDeviceId.spec_code() == 7,
        CommType::ReadParameter.spec_code() == 17,
        CommType::WriteParameter.spec_code() == 18,
        CommType::FaultReport.spec_code() == 21,
        CommType::SaveParameters.spec_code() == 22,
        CommType::SetBaudrate.spec_code() == 23,
        CommType::ActiveReport.spec_code() == 24,
        CommType::SetProtocol.spec_code() == 25,
{
}

/// The run modes are numbered from 0 to 3: MIT, position, velocity, torque.
pub proof fn law_mode_numbers(mode: RunMode)
    ensures
        mode.spec_code() == 0 <==> mode == RunMode::Mit,
        mode.spec_code() == 1 <==> mode == RunMode::Position,
        mode.spec_code() == 2 <==> mode == RunMode::Velocity,
        mode.spec_code() == 3 <==> mode == RunMode::Torque,
{
}

/// An identifier in arithmetic: the type weighs 2^24, the extra data 2^8, the device ID 1, and
/// that is how it is taken apart again.
pub proof fn law_id_arithmetic(comm_type: u8, extra_data: u16, device_id: u8, id: u32)
    requires
        comm_type < 32,
    ensures
        can_id(comm_type, extra_data, device_id) == comm_type * 16777216 + extra_data * 256
            + device_id,
        id <= 536870911 ==> id_fields(id).0 * 16777216 + id_fields(id).1 * 256 + id_fields(id).2
            == id,
{
}

/// The status bits account for every bit of the extra data: the mode weighs 16384, the six
/// flags weigh 8192 down to 256, and the device ID is the rest.
pub proof fn law_status_bits_whole(extra_data: u16)
    ensures
        ({
            let b = status_bits(extra_data);
            let weight = |flag: bool, w: int| if flag { w } else { 0int };
            &&& b.mode < 4
            &&& extra_data == b.mode * 16384 + weight(b.uncalibrated, 8192) + weight(b.stall, 4096)
                + weight(b.magnetic_encoder_fault, 2048) + weight(b.overtemperature, 1024)
                + weight(b.overcurrent, 512) + weight(b.undervoltage, 256) + b.device_id
        }),
{
    let e = extra_data as int;
    assert(e / 0x2000 == 2 * (e / 0x4000) + (e / 0x2000) % 2);
    assert(e / 0x1000 == 2 * (e / 0x2000) + (e / 0x1000) % 2);
    assert(e / 0x800 == 2 * (e / 0x1000) + (e / 0x800) % 2);
    assert(e / 0x400 == 2 * (e / 0x800) + (e / 0x400) % 2);
    assert(e / 0x200 == 2 * (e / 0x400) + (e / 0x200) % 2);
    assert(e / 0x100 == 2 * (e / 0x200) + (e / 0x100) % 2);
    assert(e == 0x100 * (e / 0x100) + e % 0x100);
}

/// A frame is a status exactly if it has eight bytes or more and is of type 2 or 21. Its bytes
/// are, in pairs and high byte first, the position, the velocity, the torque and the
/// temperature; the bytes behind them and the device ID of the identifier do not matter.
pub proof fn law_status_words(id: u32, data: Seq<u8>)
    ensures
        ({
            let kind = (id as int / 16777216) % 32;
            status_frame(id, data) is Some <==> data.len() >= 8 && (kind == 2 || kind == 21)
        }),
        status_frame(id, data) matches Some(fb) ==> {
            &&& fb.motor_id == (id as int / 256) % 256
            &&& fb.position == data[0] * 256 + data[1]
            &&& fb.velocity == data[2] * 256 + data[3]
            &&& fb.torque == data[4] * 256 + data[5]
            &&& fb.temperature == data[6] * 256 + data[7]
            &&& fb.status == status_bits(((id as int / 256) % 65536) as u16)
        },
{
    let e = (id as int / 0x100) % 0x1_0000;
    assert(e % 0x100 == (id as int / 0x100) % 0x100) by {
        let q = id as int / 0x100;
        assert(q == 0x1_0000 * (q / 0x1_0000) + q % 0x1_0000);
        assert(q % 0x100 == (q % 0x1_0000) % 0x100);
    }
}

/// The payloads in bytes. A parameter stands in the first two bytes, low byte first, and its
/// value in the last four, lowest byte first. A MIT command holds the position, the velocity
/// and the gains in this order, high byte first. A command without values is zero throughout.
pub proof fn law_payload_bytes(param: ParamIndex, value: u32, words: MitWords, byte: i8, i: int)
    requires
        0 <= i < 8,
    ensures
        ({
            let p = param_payload(param, le_bytes(value));
            &&& p.len() == 8
            &&& p[0] + 256 * p[1] == param.spec_code()
            &&& p[2] == 0 && p[3] == 0
            &&& p[4] + 256 * p[5] + 65536 * p[6] + 16777216 * p[7] == value
        }),
        ({
            let p = param_payload(param, seq![signed_byte(byte), 0, 0, 0]);
            &&& p.len() == 8
            &&& p[0] + 256 * p[1] == param.spec_code()
            &&& p[4] == byte || p[4] == byte + 256
            &&& p[2] == 0 && p[3] == 0 && p[5] == 0 && p[6] == 0 && p[7] == 0
        }),
        ({
            let p = mit_payload(words);
            &&& p.len() == 8
            &&& p[0] * 256 + p[1] == words.position
            &&& p[2] * 256 + p[3] == words.velocity
            &&& p[4] * 256 + p[5] == words.kp
            &&& p[6] * 256 + p[7] == words.kd
        }),
        no_payload()[i] == 0,
        MitWords::rest().position == 32767,
        MitWords::rest().velocity == 32767,
        MitWords::rest().torque == 32767,
        MitWords::rest().kp == 0,
        MitWords::rest().kd == 0,
{
    law_param_roundtrip(param, value);
    let p = param_payload(param, le_bytes(value));
    assert(p[0] == low_byte(param.spec_code()) && p[1] == high_byte(param.spec_code()));
    assert(le_bits(p[4], p[5], p[6], p[7]) == value);
    let q = param_payload(param, seq![signed_byte(byte), 0, 0, 0]);
    assert(q[4] == signed_byte(byte));
}

/// A parameter response of eight bytes or more is read as it was written: the parameter in the
/// first two bytes, low byte first, the value in the fifth to the eighth, lowest byte first.
pub proof fn law_response_bytes(data: Seq<u8>)
    ensures
        param_response(data) is Some <==> data.len() >= 8,
        param_response(data) matches Some(r) ==> r.0 == data[0] + 256 * data[1] && r.1 == data[4]
            + 256 * data[5] + 65536 * data[6] + 16777216 * data[7],
{
}

/// Each run mode is shown under the name of that mode.
pub proof fn law_mode_words(mode: RunMode)
    ensures
        mode == RunMode::Mit ==> mode.spec_name() == "Mit"@,
        mode == RunMode::Position ==> mode.spec_name() == "Position"@,
        mode == RunMode::Velocity ==> mode.spec_name() == "Velocity"@,
        mode == RunMode::Torque ==> mode.spec_name() == "Torque"@,
{
}

} // verus!
