//! What the command line tool does: which motor is meant, the steps of each command, and the
//! lines it prints.
//!
//! A command becomes a list of steps. Whoever runs them stops at the first that fails.

use vstd::prelude::*;

use crate::driver::DamiaoModel;
use crate::motor::Motor;
use crate::protocol::{
    parse_can_id, CommType, MitWords, MotorModel, MotorStatusBits, ParamIndex, RunMode,
};
use crate::text::{
    align_right, decimal_text, hex_str, hex_text, repeat_char, same_text, to_lowercase,
};

verus! {

// ---------------------------------------------------------------------------
// Which motor
// ---------------------------------------------------------------------------

/// Motor vendor, as asked for.
#[derive(Debug, Clone, Copy, PartialEq, Eq, Structural)]
pub enum Vendor {
    /// Whichever the model name belongs to.
    Auto,
    Robstride,
    Damiao,
    /// Both vendors, for scans only.
    Both,
}

/// The motor that a command addresses.
#[derive(Debug, Clone, Copy, PartialEq, Eq, Structural)]
pub enum SelectedMotor {
    Robstride(MotorModel),
    Damiao(DamiaoModel),
}

impl SelectedMotor {
    /// The vendor and the model.
    pub open spec fn spec_description(self) -> Seq<char> {
        match self {
            SelectedMotor::Robstride(model) => "Robstride "@ + model.spec_name(),
            SelectedMotor::Damiao(model) => "DAMIAO "@ + model.spec_name(),
        }
    }

    /// The vendor and the model.
    pub fn description(&self) -> (text: String)
        ensures
            text@ == self.spec_description(),
    {
        match self {
            SelectedMotor::Robstride(model) => "Robstride ".to_owned().concat(model.name()),
            SelectedMotor::Damiao(model) => "DAMIAO ".to_owned().concat(model.name()),
        }
    }
}

/// The motor that a vendor and a model name stand for, or why there is none.
pub open spec fn motor_choice(vendor: Vendor, model: Seq<char>) -> std::result::Result<
    SelectedMotor,
    Seq<char>,
> {
    let lower = crate::text::lowercase(model);
    match vendor {
        Vendor::Both => Err("--vendor both is only valid with the scan command"@),
        Vendor::Robstride => match MotorModel::named(lower) {
            Some(m) => Ok(SelectedMotor::Robstride(m)),
            None => Err("unknown Robstride model '"@ + model + "'; use rs-00..rs-06"@),
        },
        Vendor::Damiao => match DamiaoModel::named(lower) {
            Some(m) => Ok(SelectedMotor::Damiao(m)),
            None => Ok(SelectedMotor::Damiao(DamiaoModel::DmJ4310)),
        },
        Vendor::Auto => match (MotorModel::named(lower), DamiaoModel::named(lower)) {
            (Some(m), _) => Ok(SelectedMotor::Robstride(m)),
            (None, Some(m)) => Ok(SelectedMotor::Damiao(m)),
            (None, None) => Err(
                "unknown model '"@ + model
                    + "'; Robstride: rs-00..rs-06, DAMIAO: dm-j4310-2ec"@,
            ),
        },
    }
}

/// Whether a result is a given one, with the texts of errors compared by their characters.
pub open spec fn same_result<T>(
    result: std::result::Result<T, String>,
    expected: std::result::Result<T, Seq<char>>,
) -> bool {
    match (result, expected) {
        (Ok(a), Ok(b)) => a == b,
        (Err(a), Err(b)) => a@ == b,
        _ => false,
    }
}

/// Finds the motor that a vendor and a model name stand for. A DAMIAO motor of an unknown
/// model is taken for a DM-J4310.
pub fn resolve_motor(vendor: Vendor, model: &str) -> (motor: std::result::Result<
    SelectedMotor,
    String,
>)
    ensures
        same_result(motor, motor_choice(vendor, model@)),
{
    match vendor {
        Vendor::Both => Err("--vendor both is only valid with the scan command".to_owned()),
        Vendor::Robstride => match MotorModel::from_str(model) {
            Some(m) => Ok(SelectedMotor::Robstride(m)),
            None => Err(
                "unknown Robstride model '".to_owned().concat(model).concat(
                    "'; use rs-00..rs-06",
                ),
            ),
        },
        Vendor::Damiao => match DamiaoModel::from_str_ci(model) {
            Some(m) => Ok(SelectedMotor::Damiao(m)),
            None => Ok(SelectedMotor::Damiao(DamiaoModel::DmJ4310)),
        },
        Vendor::Auto => match MotorModel::from_str(model) {
            Some(m) => Ok(SelectedMotor::Robstride(m)),
            None => match DamiaoModel::from_str_ci(model) {
                Some(m) => Ok(SelectedMotor::Damiao(m)),
                None => Err(
                    "unknown model '".to_owned().concat(model).concat(
                        "'; Robstride: rs-00..rs-06, DAMIAO: dm-j4310-2ec",
                    ),
                ),
            },
        },
    }
}

/// The line that says which motor is addressed.
pub fn banner(interface: &str, motor_id: u8, host_id: u8, target: SelectedMotor) -> (line: String)
    ensures
        line@ == "Connected to CAN '"@ + interface@ + "', motor ID="@ + crate::text::decimal(
            motor_id as nat,
        ) + ", host=0x"@ + crate::text::hex(host_id as nat, 2) + ", target="@
            + target.spec_description(),
{
    "Connected to CAN '".to_owned().concat(interface).concat("', motor ID=").concat(
        decimal_text(motor_id as u64).as_str(),
    ).concat(", host=0x").concat(hex_text(host_id as u64, 2).as_str()).concat(", target=").concat(
        target.description().as_str(),
    )
}

/// Refuses a command that goes through a serial adapter to a vendor without one.
pub fn check_serial(vendor: Vendor, command: &str) -> (result: std::result::Result<(), String>)
    ensures
        same_result(
            result,
            if vendor == Vendor::Damiao || vendor == Vendor::Both {
                Err(command@ + " currently supports Robstride adapters only"@)
            } else {
                Ok(())
            },
        ),
{
    match vendor {
        Vendor::Damiao | Vendor::Both => Err(
            command.to_owned().concat(" currently supports Robstride adapters only"),
        ),
        _ => Ok(()),
    }
}

/// Which vendors a scan looks for: Robstride, DAMIAO.
pub fn scan_vendors(vendor: Vendor) -> (vendors: (bool, bool))
    ensures
        vendors.0 == (vendor != Vendor::Damiao),
        vendors.1 == (vendor != Vendor::Robstride),
{
    match vendor {
        Vendor::Auto => (true, true),
        Vendor::Robstride => (true, false),
        Vendor::Damiao => (false, true),
        Vendor::Both => (true, true),
    }
}

// ---------------------------------------------------------------------------
// Parameter names
// ---------------------------------------------------------------------------

/// The parameter that a lowercase name reads.
pub open spec fn readable_param(name: Seq<char>) -> Option<ParamIndex> {
    if name == "mech_pos"@ || name == "position"@ {
        Some(ParamIndex::MechPos)
    } else if name == "mech_vel"@ || name == "velocity"@ {
        Some(ParamIndex::MechVel)
    } else if name == "iq_filt"@ || name == "current"@ {
        Some(ParamIndex::IqFilt)
    } else if name == "vbus"@ || name == "voltage"@ {
        Some(ParamIndex::Vbus)
    } else if name == "limit_torque"@ {
        Some(ParamIndex::LimitTorque)
    } else if name == "limit_spd"@ {
        Some(ParamIndex::LimitSpd)
    } else if name == "limit_cur"@ {
        Some(ParamIndex::LimitCur)
    } else if name == "run_mode"@ || name == "mode"@ {
        Some(ParamIndex::RunMode)
    } else if name == "loc_kp"@ {
        Some(ParamIndex::LocKp)
    } else if name == "spd_kp"@ {
        Some(ParamIndex::SpdKp)
    } else if name == "spd_ki"@ {
        Some(ParamIndex::SpdKi)
    } else {
        None
    }
}

/// The parameter that a lowercase name writes.
pub open spec fn writable_param(name: Seq<char>) -> Option<ParamIndex> {
    if name == "limit_torque"@ {
        Some(ParamIndex::LimitTorque)
    } else if name == "limit_spd"@ {
        Some(ParamIndex::LimitSpd)
    } else if name == "limit_cur"@ {
        Some(ParamIndex::LimitCur)
    } else if name == "loc_kp"@ {
        Some(ParamIndex::LocKp)
    } else if name == "spd_kp"@ {
        Some(ParamIndex::SpdKp)
    } else if name == "spd_ki"@ {
        Some(ParamIndex::SpdKi)
    } else if name == "iq_ref"@ {
        Some(ParamIndex::IqRef)
    } else if name == "spd_ref"@ {
        Some(ParamIndex::SpdRef)
    } else if name == "loc_ref"@ {
        Some(ParamIndex::LocRef)
    } else {
        None
    }
}

/// Looks up a lowercase name among the readable parameters.
pub(crate) fn find_readable(name: &str) -> (param: Option<ParamIndex>)
    ensures
        param == readable_param(name@),
{
    if same_text(name, "mech_pos") || same_text(name, "position") {
        Some(ParamIndex::MechPos)
    } else if same_text(name, "mech_vel") || same_text(name, "velocity") {
        Some(ParamIndex::MechVel)
    } else if same_text(name, "iq_filt") || same_text(name, "current") {
        Some(ParamIndex::IqFilt)
    } else if same_text(name, "vbus") || same_text(name, "voltage") {
        Some(ParamIndex::Vbus)
    } else if same_text(name, "limit_torque") {
        Some(ParamIndex::LimitTorque)
    } else if same_text(name, "limit_spd") {
        Some(ParamIndex::LimitSpd)
    } else if same_text(name, "limit_cur") {
        Some(ParamIndex::LimitCur)
    } else if same_text(name, "run_mode") || same_text(name, "mode") {
        Some(ParamIndex::RunMode)
    } else if same_text(name, "loc_kp") {
        Some(ParamIndex::LocKp)
    } else if same_text(name, "spd_kp") {
        Some(ParamIndex::SpdKp)
    } else if same_text(name, "spd_ki") {
        Some(ParamIndex::SpdKi)
    } else {
        None
    }
}

/// The parameter that a name reads, in any case.
pub fn parse_read_param_name(name: &str) -> (param: std::result::Result<ParamIndex, String>)
    ensures
        same_result(
            param,
            match readable_param(crate::text::lowercase(name@)) {
                Some(p) => Ok(p),
                None => Err(
                    "Unknown parameter '"@ + name@
                        + "'. Available: mech_pos, mech_vel, iq_filt, vbus, limit_torque, limit_spd, limit_cur, run_mode, loc_kp, spd_kp, spd_ki"@,
                ),
            },
        ),
{
    let lower = to_lowercase(name);
    match find_readable(lower.as_str()) {
        Some(p) => Ok(p),
        None => Err(
            "Unknown parameter '".to_owned().concat(name).concat(
                "'. Available: mech_pos, mech_vel, iq_filt, vbus, limit_torque, limit_spd, limit_cur, run_mode, loc_kp, spd_kp, spd_ki",
            ),
        ),
    }
}

/// The parameter that a name writes, in any case.
pub fn parse_write_param_name(name: &str) -> (param: std::result::Result<ParamIndex, String>)
    ensures
        same_result(
            param,
            match writable_param(crate::text::lowercase(name@)) {
                Some(p) => Ok(p),
                None => Err(
                    "Unknown writable parameter '"@ + name@
                        + "'. Available: limit_torque, limit_spd, limit_cur, loc_kp, spd_kp, spd_ki, iq_ref, spd_ref, loc_ref"@,
                ),
            },
        ),
{
    let lower = to_lowercase(name);
    let n = lower.as_str();
    if same_text(n, "limit_torque") {
        Ok(ParamIndex::LimitTorque)
    } else if same_text(n, "limit_spd") {
        Ok(ParamIndex::LimitSpd)
    } else if same_text(n, "limit_cur") {
        Ok(ParamIndex::LimitCur)
    } else if same_text(n, "loc_kp") {
        Ok(ParamIndex::LocKp)
    } else if same_text(n, "spd_kp") {
        Ok(ParamIndex::SpdKp)
    } else if same_text(n, "spd_ki") {
        Ok(ParamIndex::SpdKi)
    } else if same_text(n, "iq_ref") {
        Ok(ParamIndex::IqRef)
    } else if same_text(n, "spd_ref") {
        Ok(ParamIndex::SpdRef)
    } else if same_text(n, "loc_ref") {
        Ok(ParamIndex::LocRef)
    } else {
        Err(
            "Unknown writable parameter '".to_owned().concat(name).concat(
                "'. Available: limit_torque, limit_spd, limit_cur, loc_kp, spd_kp, spd_ki, iq_ref, spd_ref, loc_ref",
            ),
        )
    }
}

/// A name that both reads and writes means the same parameter either way.
pub proof fn law_param_names_agree(name: Seq<char>)
    requires
        readable_param(name) is Some,
        writable_param(name) is Some,
    ensures
        readable_param(name) == writable_param(name),
{
    reveal_strlit("mech_pos");
    reveal_strlit("position");
    reveal_strlit("mech_vel");
    reveal_strlit("velocity");
    reveal_strlit("iq_filt");
    reveal_strlit("current");
    reveal_strlit("vbus");
    reveal_strlit("voltage");
    reveal_strlit("limit_torque");
    reveal_strlit("limit_spd");
    reveal_strlit("limit_cur");
    reveal_strlit("run_mode");
    reveal_strlit("mode");
    reveal_strlit("loc_kp");
    reveal_strlit("spd_kp");
    reveal_strlit("spd_ki");
    reveal_strlit("iq_ref");
    reveal_strlit("spd_ref");
    reveal_strlit("loc_ref");
    if name == "limit_torque"@ {
        assert(name.len() == 12);
    } else if name == "limit_spd"@ || name == "limit_cur"@ {
        assert(name.len() == 9);
        assert("limit_spd"@[6] == 's' && "limit_cur"@[6] == 'c');
    } else if name.len() == 6 {
        assert("loc_kp"@[0] == 'l' && "loc_kp"@[5] == 'p');
        assert("spd_kp"@[0] == 's' && "spd_kp"@[5] == 'p');
        assert("spd_ki"@[0] == 's' && "spd_ki"@[5] == 'i');
        assert("iq_ref"@[0] == 'i');
    } else {
        assert(name.len() == 7);
        assert("loc_ref"@[0] == 'l' && "spd_ref"@[0] == 's');
        assert("iq_filt"@[0] == 'i' && "current"@[0] == 'c' && "voltage"@[0] == 'v');
    }
}

// ---------------------------------------------------------------------------
// Commands and their steps
// ---------------------------------------------------------------------------

/// A command to a motor. Floats are given by their bits, angles in radians, times in seconds.
#[derive(Debug)]
pub enum MotorCommand {
    Ping,
    Status,
    Enable,
    Disable,
    SetZero,
    MoveTo { position: u32, speed: u32 },
    Spin { velocity: u32, duration: u32 },
    Torque { torque: u32, duration: u32 },
    Mit,
    ReadParam { name: String },
    WriteParam { name: String, value: u32 },
    Monitor { interval_ms: u64 },
}

/// A line that is always the same.
#[derive(Debug, Clone, Copy, PartialEq, Eq, Structural)]
pub enum Note {
    Responded,
    MotorEnabled,
    MotorDisabled,
    ZeroSet,
    ZeroSaved,
    PressCtrlC,
    Stopped,
    /// The same behind a line that is being rewritten.
    BreakStopped,
}

impl Note {
    /// The text of the line.
    pub open spec fn spec_text(self) -> Seq<char> {
        match self {
            Note::Responded => "Motor responded."@,
            Note::MotorEnabled => "Motor enabled."@,
            Note::MotorDisabled => "Motor disabled."@,
            Note::ZeroSet => "Mechanical zero set at current position."@,
            Note::ZeroSaved => "DAMIAO hardware zero saved to NVM."@,
            Note::PressCtrlC => "Press Ctrl+C to stop."@,
            Note::Stopped => "Stopped."@,
            Note::BreakStopped => "\nStopped."@,
        }
    }

    /// The text of the line.
    pub fn text(&self) -> (text: &'static str)
        ensures
            text@ == self.spec_text(),
    {
        match self {
            Note::Responded => "Motor responded.",
            Note::MotorEnabled => "Motor enabled.",
            Note::MotorDisabled => "Motor disabled.",
            Note::ZeroSet => "Mechanical zero set at current position.",
            Note::ZeroSaved => "DAMIAO hardware zero saved to NVM.",
            Note::PressCtrlC => "Press Ctrl+C to stop.",
            Note::Stopped => "Stopped.",
            Note::BreakStopped => "\nStopped.",
        }
    }
}

/// One step of a command.
#[derive(Debug, Clone, Copy, PartialEq, Eq, Structural)]
pub enum Step {
    /// Ask the motor to identify itself and print the answer, or that there was none.
    Ping,
    /// Read the status of the motor.
    ReadStatus,
    Enable,
    Disable,
    /// Disable the motor, and go on if that fails.
    DisableQuietly,
    SetZero,
    SetRunMode(RunMode),
    SetSpeedLimit(u32),
    SetPosition(u32),
    SetVelocity(u32),
    SetTorque(u32),
    /// Send the MIT command as it was given.
    Mit,
    /// Send a MIT command for nothing.
    MitRest,
    /// Send the MIT command that ends a motion, and go on if that fails.
    StopQuietly,
    ReadParam(ParamIndex),
    WriteParam(ParamIndex, u32),
    /// Print a line.
    Say(Note),
    /// Print what the command is about to do, with its values.
    Announce,
    /// Print the feedback of the step before.
    ShowFeedback,
    /// Print the parameter that was read or written.
    ShowParam,
    /// Print the position or the velocity of the step before as the parameter.
    ShowPosition,
    ShowVelocity,
    /// Print MIT as the run mode.
    ShowMitMode,
    /// Print the status until the target is reached.
    TrackTarget,
    /// Print the status for ever.
    Watch,
    /// Repeat the MIT command of the command until its time is over, or for ever.
    Drive,
    /// Print the status in a table for ever.
    WatchTable(u64),
    /// Sleep for a number of seconds.
    Sleep(u32),
    /// Sleep for a number of milliseconds.
    SleepMs(u64),
}

/// Whether float bits stand for a number above zero: the sign is off, some other bit is on,
/// and it is not a NaN.
pub open spec fn above_zero(bits: u32) -> bool {
    0 < bits <= 0x7F80_0000
}

/// The steps of a command to a Robstride motor, or why there are none. A motor that a command
/// has enabled is disabled when the command is over. A step that fails ends the command: the
/// steps of [`closing_steps`] come in place of the rest.
pub open spec fn robstride_steps(command: MotorCommand, enabled: bool) -> std::result::Result<
    Seq<Step>,
    Seq<char>,
> {
    match command {
        MotorCommand::Ping => Ok(seq![Step::Ping]),
        MotorCommand::Status => Ok(seq![Step::ReadStatus, Step::ShowFeedback]),
        MotorCommand::Enable => Ok(
            seq![
                Step::Enable,
                Step::Say(Note::MotorEnabled),
                Step::ShowFeedback,
                Step::DisableQuietly,
            ],
        ),
        MotorCommand::Disable => Ok(
            seq![Step::Disable, Step::Say(Note::MotorDisabled), Step::ShowFeedback],
        ),
        MotorCommand::SetZero => Ok(seq![Step::SetZero, Step::Say(Note::ZeroSet)]),
        MotorCommand::MoveTo { position, speed } => Ok(
            seq![
                Step::Disable,
                Step::SetRunMode(RunMode::Position),
                Step::SetSpeedLimit(speed),
                Step::Enable,
                Step::SetPosition(position),
                Step::Announce,
                Step::TrackTarget,
                Step::DisableQuietly,
            ],
        ),
        MotorCommand::Spin { velocity, duration } => Ok(
            seq![
                Step::Disable,
                Step::SetRunMode(RunMode::Velocity),
                Step::Enable,
                Step::SetVelocity(velocity),
                Step::Announce,
            ] + if above_zero(duration) {
                seq![
                    Step::Sleep(duration),
                    Step::SetVelocity(0),
                    Step::SleepMs(500),
                    Step::Disable,
                    Step::Say(Note::Stopped),
                ]
            } else {
                seq![Step::Say(Note::PressCtrlC), Step::Watch]
            },
        ),
        MotorCommand::Torque { torque, duration } => Ok(
            seq![
                Step::Disable,
                Step::SetRunMode(RunMode::Torque),
                Step::Enable,
                Step::SetTorque(torque),
                Step::Announce,
            ] + if above_zero(duration) {
                seq![
                    Step::Sleep(duration),
                    Step::SetTorque(0),
                    Step::Disable,
                    Step::Say(Note::Stopped),
                ]
            } else {
                seq![Step::Say(Note::PressCtrlC), Step::Watch]
            },
        ),
        MotorCommand::Mit => Ok(
            if enabled {
                seq![Step::Mit, Step::ShowFeedback, Step::DisableQuietly]
            } else {
                seq![Step::Enable, Step::Mit, Step::ShowFeedback, Step::DisableQuietly]
            },
        ),
        MotorCommand::ReadParam { name } => match readable_param(crate::text::lowercase(name@)) {
            Some(param) => Ok(seq![Step::ReadParam(param), Step::ShowParam]),
            None => Err(
                "Unknown parameter '"@ + name@
                    + "'. Available: mech_pos, mech_vel, iq_filt, vbus, limit_torque, limit_spd, limit_cur, run_mode, loc_kp, spd_kp, spd_ki"@,
            ),
        },
        MotorCommand::WriteParam { name, value } => match writable_param(
            crate::text::lowercase(name@),
        ) {
            Some(param) => Ok(seq![Step::WriteParam(param, value), Step::ShowParam]),
            None => Err(
                "Unknown writable parameter '"@ + name@
                    + "'. Available: limit_torque, limit_spd, limit_cur, loc_kp, spd_kp, spd_ki, iq_ref, spd_ref, loc_ref"@,
            ),
        },
        MotorCommand::Monitor { interval_ms } => Ok(
            seq![Step::Announce, Step::WatchTable(interval_ms)],
        ),
    }
}

/// Whether the steps are the expected ones, with the texts of errors compared by their
/// characters.
pub open spec fn same_steps(
    steps: std::result::Result<Vec<Step>, String>,
    expected: std::result::Result<Seq<Step>, Seq<char>>,
) -> bool {
    match (steps, expected) {
        (Ok(a), Ok(b)) => a@ == b,
        (Err(a), Err(b)) => a@ == b,
        _ => false,
    }
}

/// Lays out what is left to do with a Robstride motor after a step has failed: it is disabled
/// if it is enabled.
pub fn closing_steps(enabled: bool) -> (steps: Vec<Step>)
    ensures
        steps@ == (if enabled {
            seq![Step::DisableQuietly]
        } else {
            seq![]
        }),
{
    if enabled {
        vec![Step::DisableQuietly]
    } else {
        Vec::new()
    }
}

/// Lays out the steps of a command to a Robstride motor.
pub fn run_robstride_command(command: &MotorCommand, enabled: bool) -> (steps: std::result::Result<
    Vec<Step>,
    String,
>)
    ensures
        same_steps(steps, robstride_steps(*command, enabled)),
{
    let ghost expected = robstride_steps(*command, enabled);
    let steps: Vec<Step> = match command {
        MotorCommand::Ping => vec![Step::Ping],
        MotorCommand::Status => vec![Step::ReadStatus, Step::ShowFeedback],
        MotorCommand::Enable => vec![
            Step::Enable,
            Step::Say(Note::MotorEnabled),
            Step::ShowFeedback,
            Step::DisableQuietly,
        ],
        MotorCommand::Disable => vec![
            Step::Disable,
            Step::Say(Note::MotorDisabled),
            Step::ShowFeedback,
        ],
        MotorCommand::SetZero => vec![Step::SetZero, Step::Say(Note::ZeroSet)],
        MotorCommand::MoveTo { position, speed } => vec![
            Step::Disable,
            Step::SetRunMode(RunMode::Position),
            Step::SetSpeedLimit(*speed),
            Step::Enable,
            Step::SetPosition(*position),
            Step::Announce,
            Step::TrackTarget,
            Step::DisableQuietly,
        ],
        MotorCommand::Spin { velocity, duration } => {
            let mut list = vec![
                Step::Disable,
                Step::SetRunMode(RunMode::Velocity),
                Step::Enable,
                Step::SetVelocity(*velocity),
                Step::Announce,
            ];
            if 0 < *duration && *duration <= 0x7F80_0000 {
                list.push(Step::Sleep(*duration));
                list.push(Step::SetVelocity(0));
                list.push(Step::SleepMs(500));
                list.push(Step::Disable);
                list.push(Step::Say(Note::Stopped));
            } else {
                list.push(Step::Say(Note::PressCtrlC));
                list.push(Step::Watch);
            }
            list
        },
        MotorCommand::Torque { torque, duration } => {
            let mut list = vec![
                Step::Disable,
                Step::SetRunMode(RunMode::Torque),
                Step::Enable,
                Step::SetTorque(*torque),
                Step::Announce,
            ];
            if 0 < *duration && *duration <= 0x7F80_0000 {
                list.push(Step::Sleep(*duration));
                list.push(Step::SetTorque(0));
                list.push(Step::Disable);
                list.push(Step::Say(Note::Stopped));
            } else {
                list.push(Step::Say(Note::PressCtrlC));
                list.push(Step::Watch);
            }
            list
        },
        MotorCommand::Mit => {
            if enabled {
                vec![Step::Mit, Step::ShowFeedback, Step::DisableQuietly]
            } else {
                vec![Step::Enable, Step::Mit, Step::ShowFeedback, Step::DisableQuietly]
            }
        },
        MotorCommand::ReadParam { name } => match parse_read_param_name(name.as_str()) {
            Ok(param) => vec![Step::ReadParam(param), Step::ShowParam],
            Err(e) => return Err(e),
        },
        MotorCommand::WriteParam { name, value } => match parse_write_param_name(name.as_str()) {
            Ok(param) => vec![Step::WriteParam(param, *value), Step::ShowParam],
            Err(e) => return Err(e),
        },
        MotorCommand::Monitor { interval_ms } => vec![
            Step::Announce,
            Step::WatchTable(*interval_ms),
        ],
    };
    assert(expected is Ok);
    assert(steps@ =~= expected->Ok_0);
    Ok(steps)
}

/// The steps of a command to a DAMIAO motor, or why there are none. These motors know the MIT
/// mode only and answer only while they are enabled.
pub open spec fn damiao_steps(command: MotorCommand) -> std::result::Result<Seq<Step>, Seq<char>> {
    match command {
        MotorCommand::Ping => Ok(
            seq![
                Step::Enable,
                Step::MitRest,
                Step::DisableQuietly,
                Step::Say(Note::Responded),
                Step::ShowFeedback,
            ],
        ),
        MotorCommand::Status => Ok(
            seq![Step::Enable, Step::MitRest, Step::DisableQuietly, Step::ShowFeedback],
        ),
        MotorCommand::Enable => Ok(
            seq![Step::Enable, Step::Say(Note::MotorEnabled), Step::MitRest, Step::ShowFeedback],
        ),
        MotorCommand::Disable => Ok(seq![Step::Disable, Step::Say(Note::MotorDisabled)]),
        MotorCommand::SetZero => Ok(seq![Step::SetZero, Step::Say(Note::ZeroSaved)]),
        MotorCommand::MoveTo { .. } => Ok(
            seq![Step::Enable, Step::Announce, Step::TrackTarget, Step::DisableQuietly],
        ),
        MotorCommand::Spin { duration, .. } => Ok(damiao_drive(duration)),
        MotorCommand::Torque { duration, .. } => Ok(damiao_drive(duration)),
        MotorCommand::Mit => Ok(
            seq![Step::Enable, Step::Mit, Step::DisableQuietly, Step::ShowFeedback],
        ),
        MotorCommand::ReadParam { name } => {
            let lower = crate::text::lowercase(name@);
            if lower == "mech_pos"@ || lower == "position"@ {
                Ok(seq![Step::Enable, Step::MitRest, Step::DisableQuietly, Step::ShowPosition])
            } else if lower == "mech_vel"@ || lower == "velocity"@ {
                Ok(seq![Step::Enable, Step::MitRest, Step::DisableQuietly, Step::ShowVelocity])
            } else if lower == "run_mode"@ || lower == "mode"@ {
                Ok(seq![Step::ShowMitMode])
            } else {
                Err(
                    "DAMIAO read-param '"@ + name@
                        + "' is not available via the MIT-only protocol implemented in this CLI"@,
                )
            }
        },
        MotorCommand::WriteParam { name, .. } => Err(
            "DAMIAO write-param '"@ + name@
                + "' is not supported by the MIT-only protocol implemented in this CLI"@,
        ),
        MotorCommand::Monitor { interval_ms } => Ok(
            seq![Step::Enable, Step::Announce, Step::WatchTable(interval_ms)],
        ),
    }
}

/// The steps that keep a DAMIAO motor going for a time, or for ever.
pub open spec fn damiao_drive(duration: u32) -> Seq<Step> {
    seq![Step::Enable, Step::Announce] + if above_zero(duration) {
        seq![]
    } else {
        seq![Step::Say(Note::PressCtrlC)]
    } + seq![
        Step::Drive,
        Step::StopQuietly,
        Step::DisableQuietly,
        Step::Say(Note::BreakStopped),
    ]
}

fn drive_list(duration: u32) -> (steps: Vec<Step>)
    ensures
        steps@ == damiao_drive(duration),
{
    let mut steps = vec![Step::Enable, Step::Announce];
    if !(0 < duration && duration <= 0x7F80_0000) {
        steps.push(Step::Say(Note::PressCtrlC));
    }
    steps.push(Step::Drive);
    steps.push(Step::StopQuietly);
    steps.push(Step::DisableQuietly);
    steps.push(Step::Say(Note::BreakStopped));
    assert(steps@ =~= damiao_drive(duration));
    steps
}

/// Lays out the steps of a command to a DAMIAO motor.
pub fn run_damiao_command(command: &MotorCommand) -> (steps: std::result::Result<
    Vec<Step>,
    String,
>)
    ensures
        same_steps(steps, damiao_steps(*command)),
{
    let ghost expected = damiao_steps(*command);
    let steps: Vec<Step> = match command {
        MotorCommand::Ping => vec![
            Step::Enable,
            Step::MitRest,
            Step::DisableQuietly,
            Step::Say(Note::Responded),
            Step::ShowFeedback,
        ],
        MotorCommand::Status => vec![
            Step::Enable,
            Step::MitRest,
            Step::DisableQuietly,
            Step::ShowFeedback,
        ],
        MotorCommand::Enable => vec![
            Step::Enable,
            Step::Say(Note::MotorEnabled),
            Step::MitRest,
            Step::ShowFeedback,
        ],
        MotorCommand::Disable => vec![Step::Disable, Step::Say(Note::MotorDisabled)],
        MotorCommand::SetZero => vec![Step::SetZero, Step::Say(Note::ZeroSaved)],
        MotorCommand::MoveTo { .. } => vec![
            Step::Enable,
            Step::Announce,
            Step::TrackTarget,
            Step::DisableQuietly,
        ],
        MotorCommand::Spin { duration, .. } => drive_list(*duration),
        MotorCommand::Torque { duration, .. } => drive_list(*duration),
        MotorCommand::Mit => vec![
            Step::Enable,
            Step::Mit,
            Step::DisableQuietly,
            Step::ShowFeedback,
        ],
        MotorCommand::ReadParam { name } => {
            let lower = to_lowercase(name.as_str());
            let n = lower.as_str();
            if same_text(n, "mech_pos") || same_text(n, "position") {
                vec![Step::Enable, Step::MitRest, Step::DisableQuietly, Step::ShowPosition]
            } else if same_text(n, "mech_vel") || same_text(n, "velocity") {
                vec![Step::Enable, Step::MitRest, Step::DisableQuietly, Step::ShowVelocity]
            } else if same_text(n, "run_mode") || same_text(n, "mode") {
                vec![Step::ShowMitMode]
            } else {
                return Err(
                    "DAMIAO read-param '".to_owned().concat(name.as_str()).concat(
                        "' is not available via the MIT-only protocol implemented in this CLI",
                    ),
                );
            }
        },
        MotorCommand::WriteParam { name, .. } => return Err(
            "DAMIAO write-param '".to_owned().concat(name.as_str()).concat(
                "' is not supported by the MIT-only protocol implemented in this CLI",
            ),
        ),
        MotorCommand::Monitor { interval_ms } => vec![
            Step::Enable,
            Step::Announce,
            Step::WatchTable(*interval_ms),
        ],
    };
    assert(expected is Ok);
    assert(steps@ =~= expected->Ok_0);
    Ok(steps)
}

/// No command changes the run mode of a motor that may be enabled: the step before disables it.
pub proof fn law_mode_change_disabled(command: MotorCommand, enabled: bool, i: int)
    requires
        robstride_steps(command, enabled) matches Ok(steps) && 0 <= i < steps.len()
            && steps[i] is SetRunMode,
    ensures
        ({
            let steps = robstride_steps(command, enabled)->Ok_0;
            i > 0 && steps[i - 1] == Step::Disable
        }),
{
}

// ---------------------------------------------------------------------------
// What the steps send
// ---------------------------------------------------------------------------

impl Motor {
    /// The frame that a step sends to this motor. A step that goes on for a while sends it again
    /// and again. What the MIT command of the command line sends depends on values that the step
    /// does not hold: see [`Motor::mit_request`].
    pub open spec fn step_request(self, step: Step) -> Option<(u32, Seq<u8>)> {
        let to_motor = |kind: CommType|
            crate::protocol::can_id(kind.spec_code(), self.host_id as u16, self.motor_id);
        let write = |param: ParamIndex, bits: u32|
            Some(
                (
                    to_motor(CommType::WriteParameter),
                    crate::protocol::param_payload(param, crate::protocol::le_bytes(bits)),
                ),
            );
        match step {
            Step::Ping => Some((to_motor(CommType::GetDeviceId), crate::protocol::no_payload())),
            Step::ReadStatus
            | Step::MitRest
            | Step::TrackTarget
            | Step::Watch
            | Step::WatchTable(_) => Some(
                (
                    crate::protocol::can_id(
                        CommType::OperationControl.spec_code(),
                        MitWords::rest().torque,
                        self.motor_id,
                    ),
                    crate::protocol::mit_payload(MitWords::rest()),
                ),
            ),
            Step::Enable => Some((to_motor(CommType::Enable), crate::protocol::no_payload())),
            Step::Disable | Step::DisableQuietly => Some(
                (to_motor(CommType::Disable), crate::protocol::no_payload()),
            ),
            Step::SetZero => Some(
                (to_motor(CommType::SetZeroPosition), crate::protocol::no_payload().update(0, 1)),
            ),
            Step::SetRunMode(mode) => Some(
                (
                    to_motor(CommType::WriteParameter),
                    crate::protocol::param_payload(
                        ParamIndex::RunMode,
                        seq![crate::protocol::signed_byte(mode.spec_code()), 0, 0, 0],
                    ),
                ),
            ),
            Step::SetSpeedLimit(bits) => write(ParamIndex::LimitSpd, bits),
            Step::SetPosition(bits) => write(ParamIndex::LocRef, bits),
            Step::SetVelocity(bits) => write(ParamIndex::SpdRef, bits),
            Step::SetTorque(bits) => write(ParamIndex::IqRef, bits),
            Step::ReadParam(param) => Some(
                (
                    to_motor(CommType::ReadParameter),
                    crate::protocol::param_payload(param, seq![0, 0, 0, 0]),
                ),
            ),
            Step::WriteParam(param, bits) => write(param, bits),
            _ => None,
        }
    }

    /// Builds the frame that a step sends to this motor.
    pub fn step_frame(&self, step: Step) -> (frame: Option<(u32, Vec<u8>)>)
        ensures
            match frame {
                Some(f) => self.step_request(step) == Some((f.0, f.1@)) && f.1@.len() == 8,
                None => self.step_request(step) is None,
            },
    {
        match step {
            Step::Ping => Some(self.ping_request()),
            Step::ReadStatus
            | Step::MitRest
            | Step::TrackTarget
            | Step::Watch
            | Step::WatchTable(_) => Some(self.status_request()),
            Step::Enable => Some(self.enable_request()),
            Step::Disable | Step::DisableQuietly => Some(self.disable_request()),
            Step::SetZero => Some(self.set_zero()),
            Step::SetRunMode(mode) => Some(self.run_mode_request(mode)),
            Step::SetSpeedLimit(bits) => Some(self.set_position_speed_limit(bits)),
            Step::SetPosition(bits) => Some(self.set_position(bits)),
            Step::SetVelocity(bits) => Some(self.set_velocity(bits)),
            Step::SetTorque(bits) => Some(self.set_torque(bits)),
            Step::ReadParam(param) => Some(self.param_request(param)),
            Step::WriteParam(param, bits) => Some(self.write_param_f32(param, bits)),
            _ => None,
        }
    }
}

/// The frames that a list of steps sends to a motor, in this order. Those that a step sends
/// again are listed once.
pub open spec fn sent(motor: Motor, steps: Seq<Step>) -> Seq<(u32, Seq<u8>)>
    decreases steps.len(),
{
    if steps.len() == 0 {
        Seq::empty()
    } else {
        match motor.step_request(steps.last()) {
            Some(frame) => sent(motor, steps.drop_last()).push(frame),
            None => sent(motor, steps.drop_last()),
        }
    }
}

proof fn lemma_sent_one(motor: Motor, steps: Seq<Step>, step: Step)
    ensures
        sent(motor, steps.push(step)) == (match motor.step_request(step) {
            Some(frame) => sent(motor, steps).push(frame),
            None => sent(motor, steps),
        }),
{
    assert(steps.push(step).drop_last() =~= steps);
}

/// A move disables the motor, picks the position mode, sets the speed limit, enables the motor
/// and sets the target. It then asks for the status until the target is reached, and disables
/// the motor: that is the last frame.
pub proof fn law_move_frames(motor: Motor, position: u32, speed: u32, enabled: bool)
    ensures
        robstride_steps(MotorCommand::MoveTo { position, speed }, enabled) matches Ok(steps)
            && sent(motor, steps) == seq![
            motor.step_request(Step::Disable)->Some_0,
            motor.step_request(Step::SetRunMode(RunMode::Position))->Some_0,
            motor.step_request(Step::SetSpeedLimit(speed))->Some_0,
            motor.step_request(Step::Enable)->Some_0,
            motor.step_request(Step::SetPosition(position))->Some_0,
            motor.step_request(Step::ReadStatus)->Some_0,
            motor.step_request(Step::Disable)->Some_0,
        ],
{
    let s0 = Seq::<Step>::empty();
    let s1 = s0.push(Step::Disable);
    let s2 = s1.push(Step::SetRunMode(RunMode::Position));
    let s3 = s2.push(Step::SetSpeedLimit(speed));
    let s4 = s3.push(Step::Enable);
    let s5 = s4.push(Step::SetPosition(position));
    let s6 = s5.push(Step::Announce);
    let s7 = s6.push(Step::TrackTarget);
    lemma_sent_one(motor, s0, Step::Disable);
    lemma_sent_one(motor, s1, Step::SetRunMode(RunMode::Position));
    lemma_sent_one(motor, s2, Step::SetSpeedLimit(speed));
    lemma_sent_one(motor, s3, Step::Enable);
    lemma_sent_one(motor, s4, Step::SetPosition(position));
    lemma_sent_one(motor, s5, Step::Announce);
    lemma_sent_one(motor, s6, Step::TrackTarget);
    lemma_sent_one(motor, s7, Step::DisableQuietly);
    let steps = robstride_steps(MotorCommand::MoveTo { position, speed }, enabled)->Ok_0;
    assert(s7.push(Step::DisableQuietly) =~= steps);
}

/// A command that enables the motor and comes to an end disables it: that is the last frame.
pub proof fn law_enabled_then_disabled(motor: Motor, command: MotorCommand, enabled: bool)
    requires
        robstride_steps(command, enabled) matches Ok(steps) && steps.contains(Step::Enable)
            && !steps.contains(Step::Watch),
    ensures
        robstride_steps(command, enabled) matches Ok(steps) && sent(motor, steps).len() > 0 && Some(
            sent(motor, steps).last(),
        ) == motor.step_request(Step::Disable),
{
    let steps = robstride_steps(command, enabled)->Ok_0;
    if steps.last() == Step::Say(Note::Stopped) {
        assert(steps.drop_last().last() == Step::Disable);
        reveal_with_fuel(sent, 3);
    } else {
        assert(steps.last() == Step::DisableQuietly) by {
            assert(command is Spin || command is Torque ==> steps[steps.len() - 1]
                == Step::Watch);
            assert(steps[steps.len() - 1] == steps.last());
        }
    }
}

/// A move, and a motion for a given time, leaves the motor disabled: nothing but a closing line
/// comes after that.
pub proof fn law_motion_ends(command: MotorCommand, enabled: bool)
    requires
        match command {
            MotorCommand::MoveTo { .. } => true,
            MotorCommand::Spin { duration, .. } => above_zero(duration),
            MotorCommand::Torque { duration, .. } => above_zero(duration),
            _ => false,
        },
    ensures
        robstride_steps(command, enabled) matches Ok(steps) && steps.len() > 2 && if command
            is MoveTo {
            steps.last() == Step::DisableQuietly
        } else {
            steps[steps.len() - 2] == Step::Disable && steps.last() == Step::Say(Note::Stopped)
        },
        damiao_steps(command) matches Ok(steps) && steps.len() > 2 && if command is MoveTo {
            steps.last() == Step::DisableQuietly
        } else {
            steps[steps.len() - 2] == Step::DisableQuietly && steps.last() == Step::Say(
                Note::BreakStopped,
            )
        },
{
}

// ---------------------------------------------------------------------------
// Printed lines
// ---------------------------------------------------------------------------

/// The outcome of a ping in words.
pub fn ping_line(answer: &std::result::Result<(u16, Vec<u8>), String>) -> (line: String)
    ensures
        line@ == (match answer {
            Ok(a) => "Motor responded! device_id=0x"@ + crate::text::hex(a.0 as nat, 4)
                + " UUID=["@ + crate::text::hex_list(a.1@) + "]"@,
            Err(e) => "No response from motor: "@ + e@,
        }),
{
    match answer {
        Ok(a) => "Motor responded! device_id=0x".to_owned().concat(
            hex_text(a.0 as u64, 4).as_str(),
        ).concat(" UUID=[").concat(hex_str(a.1.as_slice()).as_str()).concat("]"),
        Err(e) => "No response from motor: ".to_owned().concat(e.as_str()),
    }
}

/// The line above the results of a scan.
pub fn scan_heading(
    damiao: bool,
    interface: &str,
    from: u8,
    to: u8,
    timeout_ms: u64,
    host_id: u8,
) -> (line: String)
    ensures
        line@ == (if damiao {
            "Scanning DAMIAO motors on '"@
        } else {
            "Scanning Robstride motors on '"@
        }) + interface@ + "' (ID "@ + crate::text::decimal(from as nat) + "..="@
            + crate::text::decimal(to as nat) + ", timeout "@ + crate::text::decimal(
            timeout_ms as nat,
        ) + (if damiao {
            "ms/id)..."@
        } else {
            "ms/id, host=0x"@ + crate::text::hex(host_id as nat, 2) + ")..."@
        }),
{
    let start = if damiao {
        "Scanning DAMIAO motors on '"
    } else {
        "Scanning Robstride motors on '"
    };
    let end = if damiao {
        "ms/id)...".to_owned()
    } else {
        "ms/id, host=0x".to_owned().concat(hex_text(host_id as u64, 2).as_str()).concat(")...")
    };
    start.to_owned().concat(interface).concat("' (ID ").concat(
        decimal_text(from as u64).as_str(),
    ).concat("..=").concat(decimal_text(to as u64).as_str()).concat(", timeout ").concat(
        decimal_text(timeout_ms).as_str(),
    ).concat(end.as_str())
}

/// A motor in the results of a scan.
pub open spec fn scan_entry(id: u8, data: Option<Seq<u8>>) -> Seq<char> {
    "    ID="@ + crate::text::decimal(id as nat) + match data {
        Some(bytes) => ": data=["@ + crate::text::hex_list(bytes) + "]"@,
        None => ": (responded, no data)"@,
    }
}

/// The lines below the heading of a scan for Robstride motors.
pub open spec fn scan_lines(found: Seq<(u8, Option<Seq<u8>>)>) -> Seq<Seq<char>> {
    if found.len() == 0 {
        seq!["  No Robstride motors found."@]
    } else {
        seq!["  Found "@ + crate::text::decimal(found.len()) + " Robstride motor(s):"@]
            + found.map_values(|e: (u8, Option<Seq<u8>>)| scan_entry(e.0, e.1))
    }
}

/// Lists the Robstride motors that a scan found.
pub fn scan_report(found: &Vec<(u8, Option<Vec<u8>>)>) -> (lines: Vec<String>)
    ensures
        crate::text::texts(lines@) == scan_lines(
            found@.map_values(|e: (u8, Option<Vec<u8>>)| crate::motor::found_entry(e)),
        ),
{
    let ghost plain = found@.map_values(
        |e: (u8, Option<Vec<u8>>)| crate::motor::found_entry(e),
    );
    let mut lines: Vec<String> = Vec::new();
    if found.len() == 0 {
        lines.push("  No Robstride motors found.".to_owned());
        assert(crate::text::texts(lines@) =~= scan_lines(plain));
        return lines;
    }
    lines.push(
        "  Found ".to_owned().concat(decimal_text(found.len() as u64).as_str()).concat(
            " Robstride motor(s):",
        ),
    );
    let ghost head = crate::text::texts(lines@);
    let mut i: usize = 0;
    assert(crate::text::texts(lines@) =~= head + plain.take(0).map_values(
        |e: (u8, Option<Seq<u8>>)| scan_entry(e.0, e.1),
    ));
    while i < found.len()
        invariant
            i <= found@.len(),
            plain == found@.map_values(
                |e: (u8, Option<Vec<u8>>)| crate::motor::found_entry(e),
            ),
            crate::text::texts(lines@) == head + plain.take(i as int).map_values(
                |e: (u8, Option<Seq<u8>>)| scan_entry(e.0, e.1),
            ),
        decreases found@.len() - i,
    {
        let ghost before = crate::text::texts(lines@);
        let entry = &found[i];
        let start = "    ID=".to_owned().concat(decimal_text(entry.0 as u64).as_str());
        let end = match &entry.1 {
            Some(bytes) => ": data=[".to_owned().concat(
                hex_str(bytes.as_slice()).as_str(),
            ).concat("]"),
            None => ": (responded, no data)".to_owned(),
        };
        lines.push(start.concat(end.as_str()));
        assert(crate::text::texts(lines@) =~= before.push(
            scan_entry(plain[i as int].0, plain[i as int].1),
        ));
        assert(plain.take(i + 1) =~= plain.take(i as int).push(plain[i as int]));
        assert(plain.take(i + 1).map_values(|e: (u8, Option<Seq<u8>>)| scan_entry(e.0, e.1))
            =~= plain.take(i as int).map_values(
            |e: (u8, Option<Seq<u8>>)| scan_entry(e.0, e.1),
        ).push(scan_entry(plain[i as int].0, plain[i as int].1)));
        i = i + 1;
    }
    assert(plain.take(i as int) =~= plain);
    assert(crate::text::texts(lines@) =~= scan_lines(plain));
    lines
}

/// Lists the DAMIAO motors that a scan found.
pub open spec fn damiao_lines(ids: Seq<u8>) -> Seq<Seq<char>> {
    if ids.len() == 0 {
        seq!["  No DAMIAO motors found."@]
    } else {
        seq!["  Found "@ + crate::text::decimal(ids.len()) + " DAMIAO motor(s):"@]
            + ids.map_values(|id: u8| "    ID="@ + crate::text::decimal(id as nat))
    }
}

/// Lists the DAMIAO motors that a scan found.
pub fn damiao_report(ids: &Vec<u8>) -> (lines: Vec<String>)
    ensures
        crate::text::texts(lines@) == damiao_lines(ids@),
{
    let mut lines: Vec<String> = Vec::new();
    if ids.len() == 0 {
        lines.push("  No DAMIAO motors found.".to_owned());
        assert(crate::text::texts(lines@) =~= damiao_lines(ids@));
        return lines;
    }
    lines.push(
        "  Found ".to_owned().concat(decimal_text(ids.len() as u64).as_str()).concat(
            " DAMIAO motor(s):",
        ),
    );
    let ghost head = crate::text::texts(lines@);
    let mut i: usize = 0;
    while i < ids.len()
        invariant
            i <= ids@.len(),
            crate::text::texts(lines@) == head + ids@.take(i as int).map_values(
                |id: u8| "    ID="@ + crate::text::decimal(id as nat),
            ),
        decreases ids@.len() - i,
    {
        let ghost before = crate::text::texts(lines@);
        lines.push("    ID=".to_owned().concat(decimal_text(ids[i] as u64).as_str()));
        assert(crate::text::texts(lines@) =~= before.push(
            "    ID="@ + crate::text::decimal(ids@[i as int] as nat),
        ));
        assert(head + ids@.take(i + 1).map_values(
            |id: u8| "    ID="@ + crate::text::decimal(id as nat),
        ) =~= before.push("    ID="@ + crate::text::decimal(ids@[i as int] as nat)));
        i = i + 1;
    }
    assert(ids@.take(i as int) =~= ids@);
    assert(crate::text::texts(lines@) =~= damiao_lines(ids@));
    lines
}

/// What to check when a scan found no motor at all.
pub fn no_motor_help(interface: &str) -> (lines: Vec<String>)
    ensures
        crate::text::texts(lines@) == seq![
            "\nNo motors found."@,
            "\nTroubleshooting:"@,
            "  1. Is the CAN interface up?  ip link show "@ + interface@,
            "  2. Is the bitrate correct?   (Robstride default: 1Mbps)"@,
            "  3. Is the motor powered on?"@,
            "  4. Check wiring (CAN-H, CAN-L, GND)"@,
            "  5. Try passive listen: cargo run -- -i "@ + interface@ + " dump"@,
        ],
{
    let lines = vec![
        "\nNo motors found.".to_owned(),
        "\nTroubleshooting:".to_owned(),
        "  1. Is the CAN interface up?  ip link show ".to_owned().concat(interface),
        "  2. Is the bitrate correct?   (Robstride default: 1Mbps)".to_owned(),
        "  3. Is the motor powered on?".to_owned(),
        "  4. Check wiring (CAN-H, CAN-L, GND)".to_owned(),
        "  5. Try passive listen: cargo run -- -i ".to_owned().concat(interface).concat(" dump"),
    ];
    assert(crate::text::texts(lines@) =~= seq![
        "\nNo motors found."@,
        "\nTroubleshooting:"@,
        "  1. Is the CAN interface up?  ip link show "@ + interface@,
        "  2. Is the bitrate correct?   (Robstride default: 1Mbps)"@,
        "  3. Is the motor powered on?"@,
        "  4. Check wiring (CAN-H, CAN-L, GND)"@,
        "  5. Try passive listen: cargo run -- -i "@ + interface@ + " dump"@,
    ]);
    lines
}

/// The column heads of a bus dump.
pub fn dump_header() -> (line: String)
    ensures
        line@ == crate::text::right_aligned("Fmt"@, 5) + " "@ + crate::text::right_aligned(
            "CAN ID"@,
            12,
        ) + "  "@ + crate::text::right_aligned("Type"@, 6) + " "@ + crate::text::right_aligned(
            "Extra"@,
            8,
        ) + " "@ + crate::text::right_aligned("Dev"@, 4) + "  Payload"@,
{
    align_right("Fmt", 5).concat(" ").concat(align_right("CAN ID", 12).as_str()).concat(
        "  ",
    ).concat(align_right("Type", 6).as_str()).concat(" ").concat(
        align_right("Extra", 8).as_str(),
    ).concat(" ").concat(align_right("Dev", 4).as_str()).concat("  Payload")
}

/// The rule below the column heads of a bus dump.
pub fn dump_rule() -> (line: String)
    ensures
        line@ == crate::text::repeated('-', 72),
{
    repeat_char('-', 72)
}

/// A frame in a bus dump.
pub open spec fn dump_row_text(extended: bool, can_id: u32, data: Seq<u8>) -> Seq<char> {
    let (comm_type, extra_data, device_id) = crate::protocol::id_fields(can_id);
    let payload = "  ["@ + crate::text::hex_list(data) + "]"@;
    if extended {
        crate::text::right_aligned("EXT"@, 5) + "  0x"@ + crate::text::hex(can_id as nat, 8)
            + "  "@ + crate::text::right_aligned(crate::text::decimal(comm_type as nat), 6)
            + "  0x"@ + crate::text::hex(extra_data as nat, 4) + " "@
            + crate::text::right_aligned(crate::text::decimal(device_id as nat), 4) + payload
    } else {
        crate::text::right_aligned("STD"@, 5) + "  0x"@ + crate::text::hex(can_id as nat, 8)
            + "  "@ + crate::text::right_aligned("-"@, 6) + " "@ + crate::text::right_aligned(
            "-"@,
            8,
        ) + " "@ + crate::text::right_aligned("-"@, 4) + payload
    }
}

/// Shows a frame in a bus dump.
pub fn dump_row(extended: bool, can_id: u32, data: &[u8]) -> (line: String)
    ensures
        line@ == dump_row_text(extended, can_id, data@),
{
    let payload = "  [".to_owned().concat(hex_str(data).as_str()).concat("]");
    if extended {
        let (comm_type, extra_data, device_id) = parse_can_id(can_id);
        align_right("EXT", 5).concat("  0x").concat(hex_text(can_id as u64, 8).as_str()).concat(
            "  ",
        ).concat(align_right(decimal_text(comm_type as u64).as_str(), 6).as_str()).concat(
            "  0x",
        ).concat(hex_text(extra_data as u64, 4).as_str()).concat(" ").concat(
            align_right(decimal_text(device_id as u64).as_str(), 4).as_str(),
        ).concat(payload.as_str())
    } else {
        align_right("STD", 5).concat("  0x").concat(hex_text(can_id as u64, 8).as_str()).concat(
            "  ",
        ).concat(align_right("-", 6).as_str()).concat(" ").concat(
            align_right("-", 8).as_str(),
        ).concat(" ").concat(align_right("-", 4).as_str()).concat(payload.as_str())
    }
}

/// The line above a scan through a serial adapter.
pub fn serial_scan_heading(
    device: &str,
    baud: u32,
    can_bitrate: u32,
    from: u8,
    to: u8,
) -> (line: String)
    ensures
        line@ == "Serial scan: "@ + device@ + " @ "@ + crate::text::decimal(baud as nat)
            + "baud, CAN "@ + crate::text::decimal(can_bitrate as nat) + "bps, ID "@
            + crate::text::decimal(from as nat) + "..="@ + crate::text::decimal(to as nat),
{
    "Serial scan: ".to_owned().concat(device).concat(" @ ").concat(
        decimal_text(baud as u64).as_str(),
    ).concat("baud, CAN ").concat(decimal_text(can_bitrate as u64).as_str()).concat(
        "bps, ID ",
    ).concat(decimal_text(from as u64).as_str()).concat("..=").concat(
        decimal_text(to as u64).as_str(),
    )
}

/// The line that says how many motors answered through a serial adapter.
pub fn serial_scan_summary(count: usize) -> (line: String)
    ensures
        line@ == (if count == 0 {
            "\nNo motors found via serial."@
        } else {
            "\nFound "@ + crate::text::decimal(count as nat) + " motor(s):"@
        }),
{
    if count == 0 {
        "\nNo motors found via serial.".to_owned()
    } else {
        "\nFound ".to_owned().concat(decimal_text(count as u64).as_str()).concat(" motor(s):")
    }
}

/// A warning, if there is reason for it.
pub open spec fn warning(on: bool, line: Seq<char>) -> Seq<Seq<char>> {
    if on {
        seq![line]
    } else {
        seq![]
    }
}

/// The warnings that status bits give rise to, in the order of the bits.
pub open spec fn warning_lines(status: MotorStatusBits) -> Seq<Seq<char>> {
    warning(
        status.uncalibrated,
        "  WARNING: Encoder uncalibrated"@,
    ) + warning(
        status.stall,
        "  WARNING: Motor stall detected"@,
    ) + warning(
        status.magnetic_encoder_fault,
        "  WARNING: Magnetic encoder fault"@,
    ) + warning(
        status.overtemperature,
        "  WARNING: Over-temperature"@,
    ) + warning(
        status.overcurrent,
        "  WARNING: Over-current"@,
    ) + warning(
        status.undervoltage,
        "  WARNING: Under-voltage"@,
    )
}

/// Adds a warning to a list of lines, if there is reason for it.
fn warn(lines: &mut Vec<String>, on: bool, line: &str)
    ensures
        crate::text::texts(final(lines)@) == crate::text::texts(old(lines)@) + warning(on, line@),
{
    if on {
        lines.push(line.to_owned());
    }
    assert(crate::text::texts(lines@) =~= crate::text::texts(old(lines)@) + warning(on, line@));
}

/// The values of the feedback of a motor in words.
pub open spec fn feedback_lines(
    motor_id: u8,
    position: Seq<char>,
    velocity: Seq<char>,
    torque: Seq<char>,
    temperature: Seq<char>,
    mode: u8,
) -> Seq<Seq<char>> {
    seq![
        "--- Motor Feedback ---"@,
        "  Motor ID:    "@ + crate::text::decimal(motor_id as nat),
        "  Position:    "@ + position + " rad"@,
        "  Velocity:    "@ + velocity + " rad/s"@,
        "  Torque:      "@ + torque + " Nm"@,
        "  Temperature: "@ + temperature + " C"@,
        "  Mode:        "@ + crate::text::decimal(mode as nat),
    ]
}

fn feedback_values(
    motor_id: u8,
    position: &str,
    velocity: &str,
    torque: &str,
    temperature: &str,
    mode: u8,
) -> (lines: Vec<String>)
    ensures
        crate::text::texts(lines@) == feedback_lines(
            motor_id,
            position@,
            velocity@,
            torque@,
            temperature@,
            mode,
        ),
{
    let lines = vec![
        "--- Motor Feedback ---".to_owned(),
        "  Motor ID:    ".to_owned().concat(decimal_text(motor_id as u64).as_str()),
        "  Position:    ".to_owned().concat(position).concat(" rad"),
        "  Velocity:    ".to_owned().concat(velocity).concat(" rad/s"),
        "  Torque:      ".to_owned().concat(torque).concat(" Nm"),
        "  Temperature: ".to_owned().concat(temperature).concat(" C"),
        "  Mode:        ".to_owned().concat(decimal_text(mode as u64).as_str()),
    ];
    assert(crate::text::texts(lines@) =~= feedback_lines(
        motor_id,
        position@,
        velocity@,
        torque@,
        temperature@,
        mode,
    ));
    lines
}

/// Shows the feedback of a motor. The physical values are given as texts.
pub fn print_feedback(
    motor_id: u8,
    position: &str,
    velocity: &str,
    torque: &str,
    temperature: &str,
    status: &MotorStatusBits,
) -> (lines: Vec<String>)
    ensures
        crate::text::texts(lines@) == feedback_lines(
            motor_id,
            position@,
            velocity@,
            torque@,
            temperature@,
            status.mode,
        ) + warning_lines(*status),
{
    let mut lines = feedback_values(motor_id, position, velocity, torque, temperature, status.mode);
    let ghost values = crate::text::texts(lines@);
    warn(&mut lines, status.uncalibrated, "  WARNING: Encoder uncalibrated");
    warn(&mut lines, status.stall, "  WARNING: Motor stall detected");
    warn(&mut lines, status.magnetic_encoder_fault, "  WARNING: Magnetic encoder fault");
    warn(&mut lines, status.overtemperature, "  WARNING: Over-temperature");
    warn(&mut lines, status.overcurrent, "  WARNING: Over-current");
    warn(&mut lines, status.undervoltage, "  WARNING: Under-voltage");
    assert(crate::text::texts(lines@) =~= values + warning_lines(*status));
    lines
}

// ---------------------------------------------------------------------------
// What commands come to
// ---------------------------------------------------------------------------

/// The names that read a parameter, by the number of the parameter on the wire. A name reads
/// the parameter of its number and no other, and other names read none.
pub proof fn law_read_names(name: Seq<char>)
    ensures
        name == "mech_pos"@ || name == "position"@ <==> readable_param(name) is Some
            && readable_param(name)->0.spec_code() == 0x7019,
        name == "mech_vel"@ || name == "velocity"@ <==> readable_param(name) is Some
            && readable_param(name)->0.spec_code() == 0x701B,
        name == "iq_filt"@ || name == "current"@ <==> readable_param(name) is Some
            && readable_param(name)->0.spec_code() == 0x701A,
        name == "vbus"@ || name == "voltage"@ <==> readable_param(name) is Some
            && readable_param(name)->0.spec_code() == 0x701C,
        name == "limit_torque"@ <==> readable_param(name) is Some
            && readable_param(name)->0.spec_code() == 0x700B,
        name == "limit_spd"@ <==> readable_param(name) is Some
            && readable_param(name)->0.spec_code() == 0x7017,
        name == "limit_cur"@ <==> readable_param(name) is Some
            && readable_param(name)->0.spec_code() == 0x7018,
        name == "run_mode"@ || name == "mode"@ <==> readable_param(name) is Some
            && readable_param(name)->0.spec_code() == 0x7005,
        name == "loc_kp"@ <==> readable_param(name) is Some
            && readable_param(name)->0.spec_code() == 0x701E,
        name == "spd_kp"@ <==> readable_param(name) is Some
            && readable_param(name)->0.spec_code() == 0x701F,
        name == "spd_ki"@ <==> readable_param(name) is Some
            && readable_param(name)->0.spec_code() == 0x7020,
        readable_param(name) is Some ==> name == "mech_pos"@ || name == "position"@
            || name == "mech_vel"@ || name == "velocity"@ || name == "iq_filt"@
            || name == "current"@ || name == "vbus"@ || name == "voltage"@
            || name == "limit_torque"@ || name == "limit_spd"@ || name == "limit_cur"@
            || name == "run_mode"@ || name == "mode"@ || name == "loc_kp"@ || name == "spd_kp"@
            || name == "spd_ki"@,
{
    reveal_strlit("mech_pos");
    reveal_strlit("position");
    reveal_strlit("mech_vel");
    reveal_strlit("velocity");
    reveal_strlit("iq_filt");
    reveal_strlit("current");
    reveal_strlit("vbus");
    reveal_strlit("voltage");
    reveal_strlit("limit_torque");
    reveal_strlit("limit_spd");
    reveal_strlit("limit_cur");
    reveal_strlit("run_mode");
    reveal_strlit("mode");
    reveal_strlit("loc_kp");
    reveal_strlit("spd_kp");
    reveal_strlit("spd_ki");
    assert("mech_pos"@[0] != "position"@[0]);
    assert("mech_pos"@[5] != "mech_vel"@[5]);
    assert("mech_pos"@[0] != "velocity"@[0]);
    assert("mech_pos"@[0] != "run_mode"@[0]);
    assert("position"@[0] != "mech_vel"@[0]);
    assert("position"@[0] != "velocity"@[0]);
    assert("position"@[0] != "run_mode"@[0]);
    assert("mech_vel"@[0] != "velocity"@[0]);
    assert("mech_vel"@[0] != "run_mode"@[0]);
    assert("velocity"@[0] != "run_mode"@[0]);
    assert("iq_filt"@[0] != "current"@[0]);
    assert("iq_filt"@[0] != "voltage"@[0]);
    assert("current"@[0] != "voltage"@[0]);
    assert("vbus"@[0] != "mode"@[0]);
    assert("limit_spd"@[6] != "limit_cur"@[6]);
    assert("loc_kp"@[0] != "spd_kp"@[0]);
    assert("loc_kp"@[0] != "spd_ki"@[0]);
    assert("spd_kp"@[5] != "spd_ki"@[5]);
    assert("mech_pos"@.len() == 8);
    assert("position"@.len() == 8);
    assert("mech_vel"@.len() == 8);
    assert("velocity"@.len() == 8);
    assert("iq_filt"@.len() == 7);
    assert("current"@.len() == 7);
    assert("vbus"@.len() == 4);
    assert("voltage"@.len() == 7);
    assert("limit_torque"@.len() == 12);
    assert("limit_spd"@.len() == 9);
    assert("limit_cur"@.len() == 9);
    assert("run_mode"@.len() == 8);
    assert("mode"@.len() == 4);
    assert("loc_kp"@.len() == 6);
    assert("spd_kp"@.len() == 6);
    assert("spd_ki"@.len() == 6);
}

/// The names that write a parameter, by the number of the parameter on the wire. Measured values
/// and the run mode cannot be written by name.
pub proof fn law_write_names(name: Seq<char>)
    ensures
        name == "limit_torque"@ <==> writable_param(name) is Some
            && writable_param(name)->0.spec_code() == 0x700B,
        name == "limit_spd"@ <==> writable_param(name) is Some
            && writable_param(name)->0.spec_code() == 0x7017,
        name == "limit_cur"@ <==> writable_param(name) is Some
            && writable_param(name)->0.spec_code() == 0x7018,
        name == "loc_kp"@ <==> writable_param(name) is Some
            && writable_param(name)->0.spec_code() == 0x701E,
        name == "spd_kp"@ <==> writable_param(name) is Some
            && writable_param(name)->0.spec_code() == 0x701F,
        name == "spd_ki"@ <==> writable_param(name) is Some
            && writable_param(name)->0.spec_code() == 0x7020,
        name == "iq_ref"@ <==> writable_param(name) is Some
            && writable_param(name)->0.spec_code() == 0x7006,
        name == "spd_ref"@ <==> writable_param(name) is Some
            && writable_param(name)->0.spec_code() == 0x700A,
        name == "loc_ref"@ <==> writable_param(name) is Some
            && writable_param(name)->0.spec_code() == 0x7016,
        writable_param(name) is Some ==> name == "limit_torque"@ || name == "limit_spd"@
            || name == "limit_cur"@ || name == "loc_kp"@ || name == "spd_kp"@ || name == "spd_ki"@
            || name == "iq_ref"@ || name == "spd_ref"@ || name == "loc_ref"@,
{
    reveal_strlit("limit_torque");
    reveal_strlit("limit_spd");
    reveal_strlit("limit_cur");
    reveal_strlit("loc_kp");
    reveal_strlit("spd_kp");
    reveal_strlit("spd_ki");
    reveal_strlit("iq_ref");
    reveal_strlit("spd_ref");
    reveal_strlit("loc_ref");
    assert("limit_spd"@[6] != "limit_cur"@[6]);
    assert("loc_kp"@[0] != "spd_kp"@[0]);
    assert("loc_kp"@[0] != "spd_ki"@[0]);
    assert("loc_kp"@[0] != "iq_ref"@[0]);
    assert("spd_kp"@[5] != "spd_ki"@[5]);
    assert("spd_kp"@[0] != "iq_ref"@[0]);
    assert("spd_ki"@[0] != "iq_ref"@[0]);
    assert("spd_ref"@[0] != "loc_ref"@[0]);
    assert("limit_torque"@.len() == 12);
    assert("limit_spd"@.len() == 9);
    assert("limit_cur"@.len() == 9);
    assert("loc_kp"@.len() == 6);
    assert("spd_kp"@.len() == 6);
    assert("spd_ki"@.len() == 6);
    assert("iq_ref"@.len() == 6);
    assert("spd_ref"@.len() == 7);
    assert("loc_ref"@.len() == 7);
}

/// The frame of each step in numbers: the type weighs 2^24, the host 2^8, and the motor is the
/// low byte. A parameter is named by its number in the first two bytes, low byte first, and its
/// value stands in the last four, lowest byte first.
pub proof fn law_step_frames(motor: Motor, step: Step)
    ensures
        ({
            let request = motor.step_request(step);
            let to = |kind: int| kind * 16777216 + motor.host_id * 256 + motor.motor_id;
            let zeros = seq![0u8, 0, 0, 0, 0, 0, 0, 0];
            let writes = |number: int, bits: u32|
                {
                    &&& request matches Some(f)
                    &&& f.0 == to(18)
                    &&& f.1.len() == 8
                    &&& f.1[0] + 256 * f.1[1] == number && f.1[2] == 0 && f.1[3] == 0
                    &&& f.1[4] + 256 * f.1[5] + 65536 * f.1[6] + 16777216 * f.1[7] == bits
                };
            match step {
                Step::Ping => request matches Some(f) && f.0 == to(0) && f.1 == zeros,
                Step::Enable => request matches Some(f) && f.0 == to(3) && f.1 == zeros,
                Step::Disable | Step::DisableQuietly => request matches Some(f) && f.0 == to(4) && f.1
                    == zeros,
                Step::SetZero => request matches Some(f) && f.0 == to(6) && f.1 == seq![
                    1u8, 0, 0, 0, 0, 0, 0, 0,
                ],
                Step::ReadStatus | Step::MitRest | Step::TrackTarget | Step::Watch
                | Step::WatchTable(_) => request matches Some(f) && f.0 == 16777216 + 0x7FFF * 256
                    + motor.motor_id && f.1 == seq![0x7Fu8, 0xFF, 0x7F, 0xFF, 0, 0, 0, 0],
                Step::SetRunMode(mode) => writes(
                    0x7005,
                    match mode {
                        RunMode::Mit => 0,
                        RunMode::Position => 1,
                        RunMode::Velocity => 2,
                        RunMode::Torque => 3,
                    },
                ),
                Step::SetSpeedLimit(bits) => writes(0x7017, bits),
                Step::SetPosition(bits) => writes(0x7016, bits),
                Step::SetVelocity(bits) => writes(0x700A, bits),
                Step::SetTorque(bits) => writes(0x7006, bits),
                Step::WriteParam(param, bits) => writes(param.spec_code() as int, bits),
                Step::ReadParam(param) => request matches Some(f) && f.0 == to(17) && f.1.len() == 8
                    && f.1[0] + 256 * f.1[1] == param.spec_code() && forall|i: int|
                    2 <= i < 8 ==> #[trigger] f.1[i] == 0,
                _ => request is None,
            }
        }),
{
    let rest = MitWords::rest();
    assert(crate::protocol::mit_payload(rest) =~= seq![0x7Fu8, 0xFF, 0x7F, 0xFF, 0, 0, 0, 0]);
    assert(crate::protocol::no_payload() =~= seq![0u8, 0, 0, 0, 0, 0, 0, 0]);
    assert(crate::protocol::no_payload().update(0, 1) =~= seq![1u8, 0, 0, 0, 0, 0, 0, 0]);
    match step {
        Step::SetSpeedLimit(bits) => lemma_written(ParamIndex::LimitSpd, bits),
        Step::SetPosition(bits) => lemma_written(ParamIndex::LocRef, bits),
        Step::SetVelocity(bits) => lemma_written(ParamIndex::SpdRef, bits),
        Step::SetTorque(bits) => lemma_written(ParamIndex::IqRef, bits),
        Step::WriteParam(param, bits) => lemma_written(param, bits),
        _ => {},
    }
}

proof fn lemma_written(param: ParamIndex, bits: u32)
    ensures
        ({
            let p = crate::protocol::param_payload(param, crate::protocol::le_bytes(bits));
            &&& p.len() == 8
            &&& p[0] + 256 * p[1] == param.spec_code() && p[2] == 0 && p[3] == 0
            &&& p[4] + 256 * p[5] + 65536 * p[6] + 16777216 * p[7] == bits
        }),
{
    crate::protocol::law_payload_bytes(param, bits, MitWords::rest(), 0, 0);
}

/// A target is set in the mode that it belongs to: before a position, a velocity or a torque
/// the run mode is set to that mode, and to no other.
pub proof fn law_target_mode(command: MotorCommand, enabled: bool, i: int)
    requires
        robstride_steps(command, enabled) matches Ok(steps) && 0 <= i < steps.len() && (steps[i]
            is SetPosition || steps[i] is SetVelocity || steps[i] is SetTorque),
    ensures
        ({
            let steps = robstride_steps(command, enabled)->Ok_0;
            let mode = if steps[i] is SetPosition {
                RunMode::Position
            } else if steps[i] is SetVelocity {
                RunMode::Velocity
            } else {
                RunMode::Torque
            };
            &&& exists|j: int| 0 <= j < i && #[trigger] steps[j] == Step::SetRunMode(mode)
            &&& forall|j: int|
                0 <= j < steps.len() && (#[trigger] steps[j]) is SetRunMode ==> steps[j]
                    == Step::SetRunMode(mode)
            &&& exists|j: int| 0 <= j < i && #[trigger] steps[j] == Step::Enable
        }),
{
    let steps = robstride_steps(command, enabled)->Ok_0;
    assert(steps[1] is SetRunMode);
    assert(steps[2] == Step::Enable || steps[3] == Step::Enable);
}

/// The values of a command reach the motor as they were given. The first target is the one of
/// the command, a move goes with its own speed limit, a motion for a time sleeps for that time
/// and sets the target to zero after it, and a parameter is written with its value.
pub proof fn law_values_sent(command: MotorCommand, enabled: bool)
    ensures
        match (command, robstride_steps(command, enabled)) {
            (MotorCommand::MoveTo { position, speed }, Ok(steps)) => {
                &&& steps.contains(Step::SetPosition(position))
                &&& steps.contains(Step::SetSpeedLimit(speed))
                &&& forall|i: int|
                    0 <= i < steps.len() ==> {
                        let step = #[trigger] steps[i];
                        &&& step is SetPosition ==> step == Step::SetPosition(position)
                        &&& step is SetSpeedLimit ==> step == Step::SetSpeedLimit(speed)
                        &&& !(step is SetVelocity) && !(step is SetTorque)
                    }
            },
            (MotorCommand::Spin { velocity, duration }, Ok(steps)) => {
                let timed = 0 < duration <= 0x7F80_0000;
                &&& steps.contains(Step::SetVelocity(velocity))
                &&& timed ==> steps.contains(Step::Sleep(duration)) && !steps.contains(Step::Watch)
                &&& !timed ==> steps.last() == Step::Watch
                &&& forall|i: int, j: int|
                    0 <= i < j < steps.len() && #[trigger] steps[i] is Sleep && #[trigger] steps[j]
                        is SetVelocity ==> steps[j] == Step::SetVelocity(0)
                &&& forall|i: int, j: int|
                    0 <= i < j < steps.len() && #[trigger] steps[j] is Sleep && #[trigger] steps[i]
                        is SetVelocity ==> steps[i] == Step::SetVelocity(velocity)
                &&& timed ==> steps.contains(Step::SetVelocity(0))
            },
            (MotorCommand::Torque { torque, duration }, Ok(steps)) => {
                let timed = 0 < duration <= 0x7F80_0000;
                &&& steps.contains(Step::SetTorque(torque))
                &&& timed ==> steps.contains(Step::Sleep(duration)) && !steps.contains(Step::Watch)
                &&& !timed ==> steps.last() == Step::Watch
                &&& forall|i: int, j: int|
                    0 <= i < j < steps.len() && #[trigger] steps[i] is Sleep && #[trigger] steps[j]
                        is SetTorque ==> steps[j] == Step::SetTorque(0)
                &&& forall|i: int, j: int|
                    0 <= i < j < steps.len() && #[trigger] steps[j] is Sleep && #[trigger] steps[i]
                        is SetTorque ==> steps[i] == Step::SetTorque(torque)
                &&& timed ==> steps.contains(Step::SetTorque(0))
            },
            (MotorCommand::WriteParam { name, value }, result) => match writable_param(
                crate::text::lowercase(name@),
            ) {
                Some(param) => result matches Ok(steps) && steps[0] == Step::WriteParam(param, value)
                    && forall|i: int| 0 < i < steps.len() ==> !((#[trigger] steps[i]) is WriteParam),
                None => result is Err,
            },
            (MotorCommand::ReadParam { name }, result) => match readable_param(
                crate::text::lowercase(name@),
            ) {
                Some(param) => result matches Ok(steps) && steps[0] == Step::ReadParam(param)
                    && steps.contains(Step::ShowParam),
                None => result is Err,
            },
            (MotorCommand::Monitor { interval_ms }, Ok(steps)) => steps.last() == Step::WatchTable(
                interval_ms,
            ),
            (_, Ok(_)) => true,
            (_, Err(_)) => false,
        },
{
    if let Ok(steps) = robstride_steps(command, enabled) {
        match command {
            MotorCommand::MoveTo { position, speed } => {
                assert(steps[4] == Step::SetPosition(position));
                assert(steps[2] == Step::SetSpeedLimit(speed));
            },
            MotorCommand::Spin { velocity, duration } => {
                assert(steps[3] == Step::SetVelocity(velocity));
                if above_zero(duration) {
                    assert(steps[5] == Step::Sleep(duration));
                    assert(steps[6] == Step::SetVelocity(0));
                }
            },
            MotorCommand::Torque { torque, duration } => {
                assert(steps[3] == Step::SetTorque(torque));
                if above_zero(duration) {
                    assert(steps[5] == Step::Sleep(duration));
                    assert(steps[6] == Step::SetTorque(0));
                }
            },
            MotorCommand::ReadParam { name } => {
                assert(steps[1] == Step::ShowParam);
            },
            _ => {},
        }
    }
}

/// What each command without values sends: a ping and a status send their request and no other,
/// an enable enables and says so, a disable disables, and a zero sets the zero. A MIT command
/// goes to a motor that is enabled by then.
pub proof fn law_plain_commands(motor: Motor, enabled: bool)
    ensures
        robstride_steps(MotorCommand::Ping, enabled) matches Ok(s) && s == seq![Step::Ping],
        robstride_steps(MotorCommand::Status, enabled) matches Ok(s) && s[0] == Step::ReadStatus
            && s.len() == 2 && s[1] == Step::ShowFeedback,
        robstride_steps(MotorCommand::Enable, enabled) matches Ok(s) && s[0] == Step::Enable
            && s.contains(Step::Say(Note::MotorEnabled)) && !s.contains(Step::Disable),
        robstride_steps(MotorCommand::Disable, enabled) matches Ok(s) && s[0] == Step::Disable
            && s.contains(Step::Say(Note::MotorDisabled)) && !s.contains(Step::Enable),
        robstride_steps(MotorCommand::SetZero, enabled) matches Ok(s) && s[0] == Step::SetZero
            && s.contains(Step::Say(Note::ZeroSet)) && s.len() == 2,
        robstride_steps(MotorCommand::Mit, enabled) matches Ok(s) && s.contains(Step::Mit) && (
        !enabled ==> s[0] == Step::Enable && s[1] == Step::Mit) && (enabled ==> s[0] == Step::Mit),
{
    let e = robstride_steps(MotorCommand::Enable, enabled)->Ok_0;
    assert(e[1] == Step::Say(Note::MotorEnabled));
    let d = robstride_steps(MotorCommand::Disable, enabled)->Ok_0;
    assert(d[1] == Step::Say(Note::MotorDisabled));
    let z = robstride_steps(MotorCommand::SetZero, enabled)->Ok_0;
    assert(z[1] == Step::Say(Note::ZeroSet));
    let m = robstride_steps(MotorCommand::Mit, enabled)->Ok_0;
    assert(m[0] == Step::Mit || m[1] == Step::Mit);
}

proof fn lemma_spin_frames(motor: Motor, value: u32, duration: u32, enabled: bool)
    requires
        0 < duration <= 0x7F80_0000,
    ensures
        robstride_steps(MotorCommand::Spin { velocity: value, duration }, enabled) matches Ok(steps)
            && sent(motor, steps) == seq![
            motor.step_request(Step::Disable)->Some_0,
            motor.step_request(Step::SetRunMode(RunMode::Velocity))->Some_0,
            motor.step_request(Step::Enable)->Some_0,
            motor.step_request(Step::SetVelocity(value))->Some_0,
            motor.step_request(Step::SetVelocity(0))->Some_0,
            motor.step_request(Step::Disable)->Some_0,
        ],
{
    let s0 = Seq::<Step>::empty();
    let s1 = s0.push(Step::Disable);
    let v2 = s1.push(Step::SetRunMode(RunMode::Velocity));
    let v3 = v2.push(Step::Enable);
    let v4 = v3.push(Step::SetVelocity(value));
    let v5 = v4.push(Step::Announce);
    let v6 = v5.push(Step::Sleep(duration));
    let v7 = v6.push(Step::SetVelocity(0));
    let v8 = v7.push(Step::SleepMs(500));
    let v9 = v8.push(Step::Disable);
    lemma_sent_one(motor, s0, Step::Disable);
    lemma_sent_one(motor, s1, Step::SetRunMode(RunMode::Velocity));
    lemma_sent_one(motor, v2, Step::Enable);
    lemma_sent_one(motor, v3, Step::SetVelocity(value));
    lemma_sent_one(motor, v4, Step::Announce);
    lemma_sent_one(motor, v5, Step::Sleep(duration));
    lemma_sent_one(motor, v6, Step::SetVelocity(0));
    lemma_sent_one(motor, v7, Step::SleepMs(500));
    lemma_sent_one(motor, v8, Step::Disable);
    lemma_sent_one(motor, v9, Step::Say(Note::Stopped));
    let spin = robstride_steps(MotorCommand::Spin { velocity: value, duration }, enabled)->Ok_0;
    assert(v9.push(Step::Say(Note::Stopped)) =~= spin);
}

proof fn lemma_torque_frames(motor: Motor, value: u32, duration: u32, enabled: bool)
    requires
        0 < duration <= 0x7F80_0000,
    ensures
        robstride_steps(MotorCommand::Torque { torque: value, duration }, enabled) matches Ok(steps)
            && sent(motor, steps) == seq![
            motor.step_request(Step::Disable)->Some_0,
            motor.step_request(Step::SetRunMode(RunMode::Torque))->Some_0,
            motor.step_request(Step::Enable)->Some_0,
            motor.step_request(Step::SetTorque(value))->Some_0,
            motor.step_request(Step::SetTorque(0))->Some_0,
            motor.step_request(Step::Disable)->Some_0,
        ],
{
    let s0 = Seq::<Step>::empty();
    let s1 = s0.push(Step::Disable);
    lemma_sent_one(motor, s0, Step::Disable);
    let t2 = s1.push(Step::SetRunMode(RunMode::Torque));
    let t3 = t2.push(Step::Enable);
    let t4 = t3.push(Step::SetTorque(value));
    let t5 = t4.push(Step::Announce);
    let t6 = t5.push(Step::Sleep(duration));
    let t7 = t6.push(Step::SetTorque(0));
    let t8 = t7.push(Step::Disable);
    lemma_sent_one(motor, s1, Step::SetRunMode(RunMode::Torque));
    lemma_sent_one(motor, t2, Step::Enable);
    lemma_sent_one(motor, t3, Step::SetTorque(value));
    lemma_sent_one(motor, t4, Step::Announce);
    lemma_sent_one(motor, t5, Step::Sleep(duration));
    lemma_sent_one(motor, t6, Step::SetTorque(0));
    lemma_sent_one(motor, t7, Step::Disable);
    lemma_sent_one(motor, t8, Step::Say(Note::Stopped));
    let torque = robstride_steps(MotorCommand::Torque { torque: value, duration }, enabled)->Ok_0;
    assert(t8.push(Step::Say(Note::Stopped)) =~= torque);
}

/// A spin and a torque for a time, frame by frame: disable, run mode, enable, target, zero,
/// disable. What the frames hold is said by [`law_step_frames`].
pub proof fn law_timed_frames(motor: Motor, value: u32, duration: u32, enabled: bool)
    requires
        0 < duration <= 0x7F80_0000,
    ensures
        robstride_steps(MotorCommand::Spin { velocity: value, duration }, enabled) matches Ok(steps)
            && sent(motor, steps) == seq![
            motor.step_request(Step::Disable)->Some_0,
            motor.step_request(Step::SetRunMode(RunMode::Velocity))->Some_0,
            motor.step_request(Step::Enable)->Some_0,
            motor.step_request(Step::SetVelocity(value))->Some_0,
            motor.step_request(Step::SetVelocity(0))->Some_0,
            motor.step_request(Step::Disable)->Some_0,
        ],
        robstride_steps(MotorCommand::Torque { torque: value, duration }, enabled) matches Ok(steps)
            && sent(motor, steps) == seq![
            motor.step_request(Step::Disable)->Some_0,
            motor.step_request(Step::SetRunMode(RunMode::Torque))->Some_0,
            motor.step_request(Step::Enable)->Some_0,
            motor.step_request(Step::SetTorque(value))->Some_0,
            motor.step_request(Step::SetTorque(0))->Some_0,
            motor.step_request(Step::Disable)->Some_0,
        ],
{
    lemma_spin_frames(motor, value, duration, enabled);
    lemma_torque_frames(motor, value, duration, enabled);
}

/// Float bits are above zero exactly if the sign bit (2^31) is off, they are not zero, and they
/// are no NaN: with all exponent bits on, the fraction is zero.
pub proof fn law_above_zero(bits: u32)
    ensures
        above_zero(bits) <==> bits as int / 0x8000_0000 == 0 && bits != 0 && !((bits as int
            / 0x80_0000) % 256 == 255 && bits as int % 0x80_0000 != 0),
{
}

/// The vendor that is asked for is the vendor that is addressed. With either vendor allowed, a
/// name decides: a DAMIAO name means a DAMIAO motor, a Robstride name a Robstride motor of the
/// model of that name, and any other name none.
pub proof fn law_vendor_addressed(vendor: Vendor, model: Seq<char>)
    ensures
        ({
            let name = crate::text::lowercase(model);
            let choice = motor_choice(vendor, model);
            &&& vendor == Vendor::Robstride ==> (choice is Ok <==> MotorModel::named(name) is Some)
            &&& vendor == Vendor::Damiao ==> choice is Ok && choice->Ok_0 is Damiao
            &&& vendor == Vendor::Auto && (name == "dm4310"@ || name == "dm-j4310-2ec"@)
                ==> choice is Ok && choice->Ok_0 is Damiao
            &&& vendor == Vendor::Auto ==> (choice is Ok <==> MotorModel::named(name) is Some || name
                == "dm4310"@ || name == "dm-j4310-2ec"@)
            &&& vendor == Vendor::Both ==> choice is Err
            &&& choice matches Ok(SelectedMotor::Robstride(m)) ==> MotorModel::named(name) == Some(m)
                && vendor != Vendor::Damiao
        }),
{
    crate::driver::law_damiao_names(crate::text::lowercase(model));
}

/// A DAMIAO motor answers only while it is enabled, so that every command that hears it enables
/// it first. A command that ends disables it again, but for the one that enables.
pub proof fn law_damiao_commands(command: MotorCommand, i: int)
    requires
        damiao_steps(command) matches Ok(steps) && 0 <= i < steps.len() && (steps[i] is MitRest
            || steps[i] is Mit || steps[i] is TrackTarget || steps[i] is Drive || steps[i]
            is WatchTable),
    ensures
        ({
            let steps = damiao_steps(command)->Ok_0;
            &&& steps[0] == Step::Enable && i > 0
            &&& command is Enable || command is Monitor || exists|j: int|
                i < j < steps.len() && #[trigger] steps[j] == Step::DisableQuietly
            &&& forall|j: int| 0 <= j < steps.len() ==> !((#[trigger] steps[j]) is SetRunMode)
            &&& command is Monitor <==> steps[i] is WatchTable
            &&& command is MoveTo <==> steps[i] is TrackTarget
            &&& command is Spin || command is Torque <==> steps[i] is Drive
            &&& command is Mit <==> steps[i] is Mit
        }),
{
    let steps = damiao_steps(command)->Ok_0;
    match command {
        MotorCommand::Spin { duration, .. } => {
            let n = steps.len() as int;
            assert(steps[n - 2] == Step::DisableQuietly);
            assert(i == n - 4);
        },
        MotorCommand::Torque { duration, .. } => {
            let n = steps.len() as int;
            assert(steps[n - 2] == Step::DisableQuietly);
            assert(i == n - 4);
        },
        MotorCommand::MoveTo { .. } => assert(steps[3] == Step::DisableQuietly),
        MotorCommand::Ping | MotorCommand::Status | MotorCommand::Mit => assert(steps[2]
            == Step::DisableQuietly),
        MotorCommand::ReadParam { name } => assert(steps[2] == Step::DisableQuietly),
        _ => {},
    }
}

/// A DAMIAO motor shows its position under the names of the position and its velocity under those
/// of the velocity, and its mode is the MIT mode. No other parameter can be read, and none can be
/// written.
pub proof fn law_damiao_params(name: String, value: u32)
    ensures
        ({
            let lower = crate::text::lowercase(name@);
            let result = damiao_steps(MotorCommand::ReadParam { name });
            &&& lower == "mech_pos"@ || lower == "position"@ <==> result is Ok
                && result->Ok_0.contains(Step::ShowPosition)
            &&& lower == "mech_vel"@ || lower == "velocity"@ <==> result is Ok
                && result->Ok_0.contains(Step::ShowVelocity)
            &&& lower == "run_mode"@ || lower == "mode"@ <==> result is Ok
                && result->Ok_0.contains(Step::ShowMitMode)
            &&& result is Ok ==> lower == "mech_pos"@ || lower == "position"@ || lower == "mech_vel"@
                || lower == "velocity"@ || lower == "run_mode"@ || lower == "mode"@
        }),
        damiao_steps(MotorCommand::WriteParam { name, value }) is Err,
{
    reveal_strlit("mech_pos");
    reveal_strlit("position");
    reveal_strlit("mech_vel");
    reveal_strlit("velocity");
    reveal_strlit("run_mode");
    reveal_strlit("mode");
    assert("mech_pos"@[0] != "position"@[0]);
    assert("mech_pos"@[5] != "mech_vel"@[5]);
    assert("mech_pos"@[0] != "velocity"@[0]);
    assert("mech_pos"@[0] != "run_mode"@[0]);
    assert("position"@[0] != "mech_vel"@[0]);
    assert("position"@[0] != "velocity"@[0]);
    assert("position"@[0] != "run_mode"@[0]);
    assert("mech_vel"@[0] != "velocity"@[0]);
    assert("mech_vel"@[0] != "run_mode"@[0]);
    assert("velocity"@[0] != "run_mode"@[0]);
    assert("mech_pos"@.len() == 8);
    assert("position"@.len() == 8);
    assert("mech_vel"@.len() == 8);
    assert("velocity"@.len() == 8);
    assert("run_mode"@.len() == 8);
    assert("mode"@.len() == 4);
    let lower = crate::text::lowercase(name@);
    if let Ok(s) = damiao_steps(MotorCommand::ReadParam { name }) {
        if s.len() == 4 {
            assert(s[3] == Step::ShowPosition || s[3] == Step::ShowVelocity);
        } else {
            assert(s[0] == Step::ShowMitMode);
        }
    }
}

proof fn lemma_contains_sum(a: Seq<Seq<char>>, b: Seq<Seq<char>>, line: Seq<char>)
    ensures
        (a + b).contains(line) <==> a.contains(line) || b.contains(line),
{
    if a.contains(line) {
        let k = choose|k: int| 0 <= k < a.len() && a[k] == line;
        assert((a + b)[k] == line);
    }
    if b.contains(line) {
        let k = choose|k: int| 0 <= k < b.len() && b[k] == line;
        assert((a + b)[a.len() + k] == line);
    }
}

proof fn lemma_warned(status: MotorStatusBits, line: Seq<char>)
    ensures
        warning_lines(status).contains(line) <==> {
            ||| status.uncalibrated && line == "  WARNING: Encoder uncalibrated"@
            ||| status.stall && line == "  WARNING: Motor stall detected"@
            ||| status.magnetic_encoder_fault && line == "  WARNING: Magnetic encoder fault"@
            ||| status.overtemperature && line == "  WARNING: Over-temperature"@
            ||| status.overcurrent && line == "  WARNING: Over-current"@
            ||| status.undervoltage && line == "  WARNING: Under-voltage"@
        },
{
    let a = warning(status.uncalibrated, "  WARNING: Encoder uncalibrated"@);
    let b = warning(status.stall, "  WARNING: Motor stall detected"@);
    let c = warning(status.magnetic_encoder_fault, "  WARNING: Magnetic encoder fault"@);
    let d = warning(status.overtemperature, "  WARNING: Over-temperature"@);
    let e = warning(status.overcurrent, "  WARNING: Over-current"@);
    let f = warning(status.undervoltage, "  WARNING: Under-voltage"@);
    lemma_contains_sum(a, b, line);
    lemma_contains_sum(a + b, c, line);
    lemma_contains_sum(a + b + c, d, line);
    lemma_contains_sum(a + b + c + d, e, line);
    lemma_contains_sum(a + b + c + d + e, f, line);
    assert forall|on: bool, text: Seq<char>| (#[trigger] warning(on, text)).contains(line) == (on
        && text == line) by {
        if on {
            assert(warning(on, text)[0] == text);
        }
    }
}

proof fn lemma_warnings_differ()
    ensures
        "  WARNING: Encoder uncalibrated"@ != "  WARNING: Motor stall detected"@,
        "  WARNING: Encoder uncalibrated"@ != "  WARNING: Magnetic encoder fault"@,
        "  WARNING: Encoder uncalibrated"@ != "  WARNING: Over-temperature"@,
        "  WARNING: Encoder uncalibrated"@ != "  WARNING: Over-current"@,
        "  WARNING: Encoder uncalibrated"@ != "  WARNING: Under-voltage"@,
        "  WARNING: Motor stall detected"@ != "  WARNING: Magnetic encoder fault"@,
        "  WARNING: Motor stall detected"@ != "  WARNING: Over-temperature"@,
        "  WARNING: Motor stall detected"@ != "  WARNING: Over-current"@,
        "  WARNING: Motor stall detected"@ != "  WARNING: Under-voltage"@,
        "  WARNING: Magnetic encoder fault"@ != "  WARNING: Over-temperature"@,
        "  WARNING: Magnetic encoder fault"@ != "  WARNING: Over-current"@,
        "  WARNING: Magnetic encoder fault"@ != "  WARNING: Under-voltage"@,
        "  WARNING: Over-temperature"@ != "  WARNING: Over-current"@,
        "  WARNING: Over-temperature"@ != "  WARNING: Under-voltage"@,
        "  WARNING: Over-current"@ != "  WARNING: Under-voltage"@,
{
    reveal_strlit("  WARNING: Encoder uncalibrated");
    reveal_strlit("  WARNING: Motor stall detected");
    reveal_strlit("  WARNING: Magnetic encoder fault");
    reveal_strlit("  WARNING: Over-temperature");
    reveal_strlit("  WARNING: Over-current");
    reveal_strlit("  WARNING: Under-voltage");
    assert("  WARNING: Encoder uncalibrated"@[11] != "  WARNING: Motor stall detected"@[11]);
    assert("  WARNING: Encoder uncalibrated"@.len() == 31);
    assert("  WARNING: Motor stall detected"@.len() == 31);
    assert("  WARNING: Magnetic encoder fault"@.len() == 33);
    assert("  WARNING: Over-temperature"@.len() == 27);
    assert("  WARNING: Over-current"@.len() == 23);
    assert("  WARNING: Under-voltage"@.len() == 24);
}

/// There is a warning for each fault that is reported and for no other.
pub proof fn law_warnings(status: MotorStatusBits)
    ensures
        warning_lines(status).contains("  WARNING: Encoder uncalibrated"@) <==> status.uncalibrated,
        warning_lines(status).contains("  WARNING: Motor stall detected"@) <==> status.stall,
        warning_lines(status).contains("  WARNING: Magnetic encoder fault"@)
            <==> status.magnetic_encoder_fault,
        warning_lines(status).contains("  WARNING: Over-temperature"@) <==> status.overtemperature,
        warning_lines(status).contains("  WARNING: Over-current"@) <==> status.overcurrent,
        warning_lines(status).contains("  WARNING: Under-voltage"@) <==> status.undervoltage,
{
    lemma_warnings_differ();
    lemma_warned(status, "  WARNING: Encoder uncalibrated"@);
    lemma_warned(status, "  WARNING: Motor stall detected"@);
    lemma_warned(status, "  WARNING: Magnetic encoder fault"@);
    lemma_warned(status, "  WARNING: Over-temperature"@);
    lemma_warned(status, "  WARNING: Over-current"@);
    lemma_warned(status, "  WARNING: Under-voltage"@);
}

/// A motor is described by its vendor and its model. A model that cannot be addressed is told
/// with the name as it was given.
pub proof fn law_choice_said(vendor: Vendor, model: Seq<char>, rs: MotorModel, dm: DamiaoModel)
    ensures
        SelectedMotor::Robstride(rs).spec_description() == "Robstride "@ + rs.spec_name(),
        SelectedMotor::Damiao(dm).spec_description() == "DAMIAO "@ + dm.spec_name(),
        ({
            let choice = motor_choice(vendor, model);
            &&& vendor == Vendor::Both ==> choice == Err::<SelectedMotor, Seq<char>>(
                "--vendor both is only valid with the scan command"@,
            )
            &&& vendor == Vendor::Robstride && choice is Err ==> choice->Err_0
                == "unknown Robstride model '"@ + model + "'; use rs-00..rs-06"@
            &&& vendor == Vendor::Auto && choice is Err ==> choice->Err_0 == "unknown model '"@
                + model + "'; Robstride: rs-00..rs-06, DAMIAO: dm-j4310-2ec"@
        }),
{
}

/// What is said at a step is what the step has done.
pub proof fn law_notes(note: Note)
    ensures
        note == Note::Responded ==> note.spec_text() == "Motor responded."@,
        note == Note::MotorEnabled ==> note.spec_text() == "Motor enabled."@,
        note == Note::MotorDisabled ==> note.spec_text() == "Motor disabled."@,
        note == Note::ZeroSet ==> note.spec_text() == "Mechanical zero set at current position."@,
        note == Note::ZeroSaved ==> note.spec_text() == "DAMIAO hardware zero saved to NVM."@,
        note == Note::PressCtrlC ==> note.spec_text() == "Press Ctrl+C to stop."@,
        note == Note::Stopped ==> note.spec_text() == "Stopped."@,
        note == Note::BreakStopped ==> note.spec_text() == "\nStopped."@,
{
}

/// Two results are the same exactly if both succeed with the same value or both fail for the
/// same reason.
pub proof fn law_same_results<T>(
    result: std::result::Result<T, String>,
    expected: std::result::Result<T, Seq<char>>,
    steps: std::result::Result<Vec<Step>, String>,
    plan: std::result::Result<Seq<Step>, Seq<char>>,
)
    ensures
        same_result(result, expected) ==> (result is Ok <==> expected is Ok),
        same_result(result, expected) && result is Ok ==> result->Ok_0 == expected->Ok_0,
        same_result(result, expected) && result is Err ==> result->Err_0@ == expected->Err_0,
        same_steps(steps, plan) ==> (steps is Ok <==> plan is Ok),
        same_steps(steps, plan) && steps is Ok ==> steps->Ok_0@ == plan->Ok_0,
        same_steps(steps, plan) && steps is Err ==> steps->Err_0@ == plan->Err_0,
{
}

/// A scan lists how many motors it found and then each of them, in the order of the scan, with
/// its ID and what it sent; without any it says so.
pub proof fn law_scan_listed(found: Seq<(u8, Option<Seq<u8>>)>, ids: Seq<u8>)
    ensures
        found.len() == 0 ==> scan_lines(found) == seq!["  No Robstride motors found."@],
        found.len() > 0 ==> scan_lines(found).len() == found.len() + 1 && scan_lines(found)[0]
            == "  Found "@ + crate::text::decimal(found.len()) + " Robstride motor(s):"@,
        forall|i: int|
            0 <= i < found.len() ==> scan_lines(found)[i + 1] == "    ID="@ + crate::text::decimal(
                (#[trigger] found[i]).0 as nat,
            ) + match found[i].1 {
                Some(bytes) => ": data=["@ + crate::text::hex_list(bytes) + "]"@,
                None => ": (responded, no data)"@,
            },
        ids.len() == 0 ==> damiao_lines(ids) == seq!["  No DAMIAO motors found."@],
        ids.len() > 0 ==> damiao_lines(ids).len() == ids.len() + 1 && damiao_lines(ids)[0]
            == "  Found "@ + crate::text::decimal(ids.len()) + " DAMIAO motor(s):"@,
        forall|i: int|
            0 <= i < ids.len() ==> damiao_lines(ids)[i + 1] == "    ID="@ + crate::text::decimal(
                #[trigger] ids[i] as nat,
            ),
{
}

/// Feedback is shown with each value in its own line, with its unit.
pub proof fn law_feedback_shown(
    motor_id: u8,
    position: Seq<char>,
    velocity: Seq<char>,
    torque: Seq<char>,
    temperature: Seq<char>,
    mode: u8,
)
    ensures
        ({
            let lines = feedback_lines(motor_id, position, velocity, torque, temperature, mode);
            &&& lines.len() == 7
            &&& lines[0] == "--- Motor Feedback ---"@
            &&& lines[1] == "  Motor ID:    "@ + crate::text::decimal(motor_id as nat)
            &&& lines[2] == "  Position:    "@ + position + " rad"@
            &&& lines[3] == "  Velocity:    "@ + velocity + " rad/s"@
            &&& lines[4] == "  Torque:      "@ + torque + " Nm"@
            &&& lines[5] == "  Temperature: "@ + temperature + " C"@
            &&& lines[6] == "  Mode:        "@ + crate::text::decimal(mode as nat)
        }),
{
}

/// A row of a dump shows the number of the frame in hexadecimal and its payload. An extended
/// number is also shown taken apart: its bits from 2^24 on, the 16 bits from 2^8 on, and the
/// lowest byte. Dashes stand there for a standard one.
pub proof fn law_dump_row(can_id: u32, data: Seq<u8>)
    ensures
        ({
            let id = can_id as int;
            let number = "  0x"@ + crate::text::hex(can_id as nat, 8) + "  "@;
            let payload = "  ["@ + crate::text::hex_list(data) + "]"@;
            let column = |n: int, width: nat|
                crate::text::right_aligned(crate::text::decimal(n as nat), width);
            &&& dump_row_text(true, can_id, data) == crate::text::right_aligned("EXT"@, 5) + number
                + column((id / 16777216) % 32, 6) + "  0x"@ + crate::text::hex(
                ((id / 256) % 65536) as nat,
                4,
            ) + " "@ + column(id % 256, 4) + payload
            &&& dump_row_text(false, can_id, data) == crate::text::right_aligned("STD"@, 5)
                + number + crate::text::right_aligned("-"@, 6) + " "@
                + crate::text::right_aligned("-"@, 8) + " "@ + crate::text::right_aligned("-"@, 4)
                + payload
        }),
{
    let id = can_id as int;
    let number = "  0x"@ + crate::text::hex(can_id as nat, 8) + "  "@;
    let payload = "  ["@ + crate::text::hex_list(data) + "]"@;
    let column = |n: int, width: nat|
        crate::text::right_aligned(crate::text::decimal(n as nat), width);
    assert(dump_row_text(true, can_id, data) =~= crate::text::right_aligned("EXT"@, 5) + number
        + column((id / 16777216) % 32, 6) + "  0x"@ + crate::text::hex(
        ((id / 256) % 65536) as nat,
        4,
    ) + " "@ + column(id % 256, 4) + payload);
    assert(dump_row_text(false, can_id, data) =~= crate::text::right_aligned("STD"@, 5) + number
        + crate::text::right_aligned("-"@, 6) + " "@ + crate::text::right_aligned("-"@, 8) + " "@
        + crate::text::right_aligned("-"@, 4) + payload);
}

} // verus!
