//! What commands do before a motor is addressed: which motor is meant, whether the input makes
//! sense, and what is to be sent.

use vstd::prelude::*;

use crate::bilateral::BilateralMethod;
use crate::cli::find_readable;
use crate::driver::{DamiaoModel, MotorSpec};
use crate::protocol::{MotorModel, ParamIndex, RunMode};
use crate::text::{decimal_text, parse_u8, same_text, split_words, to_lowercase, trim};
use crate::tui::fields::{Command, MOTOR_KIND_CHOICES};
use crate::tui::state::{App, AppSpec, EntrySpec, LOG_MAX};

verus! {

// ---------------------------------------------------------------------------
// Log
// ---------------------------------------------------------------------------

impl AppSpec {
    /// The state with one more log message. Of too many, the oldest is dropped.
    pub open spec fn logged(self, stamp: Seq<char>, message: Seq<char>) -> AppSpec {
        let log = self.log.push("["@ + stamp + "] "@ + message);
        let kept = if log.len() > LOG_MAX {
            log.drop_first()
        } else {
            log
        };
        AppSpec { log: kept, log_scroll: kept.len() - 1, ..self }
    }
}

impl App {
    /// Adds a message to the log, with the time.
    pub fn log_msg(&mut self, stamp: &str, message: &str)
        requires
            old(self).valid(),
        ensures
            final(self).valid(),
            final(self)@ == old(self)@.logged(stamp@, message@),
    {
        let ghost start = self@;
        assert(start.log.len() == self.log@.len());
        self.log.push("[".to_owned().concat(stamp).concat("] ").concat(message));
        let ghost longer = start.log.push("["@ + stamp@ + "] "@ + message@);
        assert(crate::text::texts(self.log@) =~= longer);
        if self.log.len() > LOG_MAX {
            let _ = self.log.remove(0);
            assert(crate::text::texts(self.log@) =~= longer.drop_first());
        }
        assert(crate::text::texts(self.log@).len() == self.log@.len());
        self.log_scroll = (self.log.len() - 1) as u16;
    }
}

/// A message in the log is the last one, and all others are still there in their order but
/// for the oldest, which may have had to go.
pub proof fn law_log_keeps(app: AppSpec, stamp: Seq<char>, message: Seq<char>)
    requires
        app.valid(),
    ensures
        ({
            let after = app.logged(stamp, message);
            &&& after.log.last() == "["@ + stamp + "] "@ + message
            &&& after.log.drop_last() == app.log || after.log.drop_last() == app.log.drop_first()
                && app.log.len() == LOG_MAX
            &&& after.log.len() <= LOG_MAX
        }),
{
    let after = app.logged(stamp, message);
    if app.log.len() < LOG_MAX {
        assert(after.log.drop_last() =~= app.log);
    } else {
        assert(after.log.drop_last() =~= app.log.drop_first());
    }
}

// ---------------------------------------------------------------------------
// Names
// ---------------------------------------------------------------------------

/// The parameter that a lowercase name means.
pub open spec fn param_named(name: Seq<char>) -> Option<ParamIndex> {
    match crate::cli::readable_param(name) {
        Some(param) => Some(param),
        None => if name == "loc_ref"@ {
            Some(ParamIndex::LocRef)
        } else if name == "spd_ref"@ {
            Some(ParamIndex::SpdRef)
        } else if name == "iq_ref"@ {
            Some(ParamIndex::IqRef)
        } else {
            None
        },
    }
}

/// The parameter that a name means, in any case.
pub fn parse_param_name(name: &str) -> (param: Option<ParamIndex>)
    ensures
        param == param_named(crate::text::lowercase(name@)),
{
    let lower = to_lowercase(name);
    let n = lower.as_str();
    match find_readable(n) {
        Some(param) => Some(param),
        None => if same_text(n, "loc_ref") {
            Some(ParamIndex::LocRef)
        } else if same_text(n, "spd_ref") {
            Some(ParamIndex::SpdRef)
        } else if same_text(n, "iq_ref") {
            Some(ParamIndex::IqRef)
        } else {
            None
        },
    }
}

/// The run mode that a lowercase name means.
pub open spec fn mode_named(name: Seq<char>) -> Option<RunMode> {
    if name == "mit"@ || name == "0"@ {
        Some(RunMode::Mit)
    } else if name == "position"@ || name == "pos"@ || name == "1"@ {
        Some(RunMode::Position)
    } else if name == "velocity"@ || name == "vel"@ || name == "2"@ {
        Some(RunMode::Velocity)
    } else if name == "torque"@ || name == "cur"@ || name == "3"@ {
        Some(RunMode::Torque)
    } else {
        None
    }
}

/// The run mode that a name means, in any case.
pub fn parse_run_mode(name: &str) -> (mode: Option<RunMode>)
    ensures
        mode == mode_named(crate::text::lowercase(name@)),
{
    let lower = to_lowercase(name);
    let n = lower.as_str();
    if same_text(n, "mit") || same_text(n, "0") {
        Some(RunMode::Mit)
    } else if same_text(n, "position") || same_text(n, "pos") || same_text(n, "1") {
        Some(RunMode::Position)
    } else if same_text(n, "velocity") || same_text(n, "vel") || same_text(n, "2") {
        Some(RunMode::Velocity)
    } else if same_text(n, "torque") || same_text(n, "cur") || same_text(n, "3") {
        Some(RunMode::Torque)
    } else {
        None
    }
}

/// A small number, or a default if the text is none.
pub open spec fn id_or(text: Seq<char>, default: u8) -> u8 {
    match crate::text::number(vstd::utf8::encode_utf8(text), 10, 255) {
        Some(n) => n as u8,
        None => default,
    }
}

fn parse_id_or(text: &str, default: u8) -> (id: u8)
    ensures
        id == id_or(text@, default),
{
    match parse_u8(text) {
        Some(n) => n,
        None => default,
    }
}

/// The motor that a kind and an ID mean, and a warning if the kind is unknown.
pub open spec fn motor_of_kind(
    kind: Seq<char>,
    id: Seq<char>,
    default_id: u8,
    host_id: u8,
    default_model: MotorModel,
) -> (MotorSpec, Option<Seq<char>>) {
    let can_id = id_or(id, default_id);
    let lower = crate::text::lowercase(kind);
    match (MotorModel::named(lower), DamiaoModel::named(lower)) {
        (Some(model), _) => (MotorSpec::robstride_motor(host_id, can_id, model), None),
        (None, Some(model)) => (MotorSpec::damiao_motor(can_id, 0, model), None),
        (None, None) => (
            MotorSpec::robstride_motor(host_id, can_id, default_model),
            Some(
                "Unknown motor kind '"@ + kind + "', falling back to Robstride "@
                    + default_model.spec_name() + " (choices: "@ + MOTOR_KIND_CHOICES@ + ")"@,
            ),
        ),
    }
}

/// Finds the motor that a kind and an ID mean. With an unknown kind it is a Robstride motor of
/// the default model, and there is a warning to show.
pub fn parse_motor_kind(
    kind: &str,
    id: &str,
    default_id: u8,
    host_id: u8,
    default_model: MotorModel,
) -> (result: (MotorSpec, Option<String>))
    ensures
        ({
            let (motor, warning) = motor_of_kind(kind@, id@, default_id, host_id, default_model);
            result.0 == motor && match result.1 {
                Some(text) => warning == Some(text@),
                None => warning is None,
            }
        }),
{
    let can_id = parse_id_or(id, default_id);
    match MotorModel::from_str(kind) {
        Some(model) => (MotorSpec::robstride(host_id, can_id, model), None),
        None => match DamiaoModel::from_str_ci(kind) {
            Some(model) => (MotorSpec::damiao(can_id, 0, model), None),
            None => (
                MotorSpec::robstride(host_id, can_id, default_model),
                Some(
                    "Unknown motor kind '".to_owned().concat(kind).concat(
                        "', falling back to Robstride ",
                    ).concat(default_model.name()).concat(" (choices: ").concat(
                        MOTOR_KIND_CHOICES,
                    ).concat(")"),
                ),
            ),
        },
    }
}

/// A word of the input, or a default if there are not so many.
pub open spec fn word_or(list: Seq<Seq<char>>, i: int, default: Seq<char>) -> Seq<char> {
    if i < list.len() {
        list[i]
    } else {
        default
    }
}

fn word_at<'a>(list: &'a Vec<String>, i: usize, default: &'a str) -> (word: &'a str)
    ensures
        word@ == word_or(crate::text::texts(list@), i as int, default@),
{
    assert(crate::text::texts(list@).len() == list@.len());
    if i < list.len() {
        assert(crate::text::texts(list@)[i as int] == list@[i as int]@);
        list[i].as_str()
    } else {
        default
    }
}

/// Whether a word switches something on.
pub open spec fn is_on(word: Seq<char>) -> bool {
    word == "1"@ || word == "true"@ || word == "yes"@ || word == "on"@
}

fn bool_flag(word: &str) -> (on: bool)
    ensures
        on == is_on(word@),
{
    same_text(word, "1") || same_text(word, "true") || same_text(word, "yes") || same_text(
        word,
        "on",
    )
}

// ---------------------------------------------------------------------------
// Jobs
// ---------------------------------------------------------------------------

/// What a word of the input is worth as a number, by the bits of the float.
#[derive(Debug, Clone, Copy, PartialEq, Eq, Structural)]
pub struct Number {
    /// In single precision
    pub single: Option<u32>,
    /// In double precision
    pub double: Option<u64>,
    /// In double precision, without leading plus signs
    pub bare: Option<u64>,
}

/// The values of a MIT command, by the bits of the floats.
#[derive(Debug, Clone, Copy, PartialEq, Eq, Structural)]
pub struct MitValues {
    pub position: u64,
    pub velocity: u64,
    pub kp: u64,
    pub kd: u64,
    pub torque: u64,
}

/// The numbers of a bilateral command that were given, by the bits of the floats.
#[derive(Debug, Clone, Copy, PartialEq, Eq, Structural)]
pub struct GainValues {
    pub kp: Option<u64>,
    pub kd: Option<u64>,
    pub coulomb: Option<u64>,
    pub viscous: Option<u64>,
    pub force_scale: Option<u64>,
    pub inertia: Option<u64>,
    pub dob_cutoff: Option<u64>,
    pub inertia_comp: Option<u64>,
    pub accel_cutoff: Option<u64>,
    pub assist_kd: Option<u64>,
    pub vel_ahead: Option<u64>,
    pub max_assist: Option<u64>,
    pub force_threshold: Option<u64>,
    pub open_sign: Option<u64>,
    pub safety_radius: Option<u64>,
    pub safety_max_jump: Option<u64>,
    pub vel_cutoff: Option<u64>,
    pub tau_slew: Option<u64>,
}

/// The numbers of an assist test that were given, by the bits of the floats.
#[derive(Debug, Clone, Copy, PartialEq, Eq, Structural)]
pub struct AssistValues {
    pub assist_kd: Option<u64>,
    pub vel_ahead: Option<u64>,
    pub max_assist: Option<u64>,
    pub coulomb: Option<u64>,
    pub viscous: Option<u64>,
    pub inertia: Option<u64>,
    pub inertia_comp: Option<u64>,
    pub accel_cutoff: Option<u64>,
}

/// What is to be done on the bus for a command.
#[derive(Debug, Clone, Copy, PartialEq, Eq, Structural)]
pub enum Job {
    Nothing,
    StopBilateral,
    ScanRobstride { from: u8, to: u8 },
    ScanDamiao { from: u8, to: u8 },
    Ping(MotorSpec),
    Enable(MotorSpec),
    Disable(MotorSpec),
    SetZero(MotorSpec),
    ReadStatus(MotorSpec),
    ReadParam(MotorSpec, ParamIndex),
    WriteParam(MotorSpec, ParamIndex, u32),
    SetRunMode(MotorSpec, RunMode),
    /// Position and speed limit
    MoveTo(MotorSpec, u32, u32),
    Spin(MotorSpec, u32),
    Torque(MotorSpec, u32),
    /// Whether the motor is to be enabled before
    Mit(MotorSpec, bool, MitValues),
    Bilateral(MotorSpec, MotorSpec, BilateralMethod, GainValues),
    ZeroPair(MotorSpec, MotorSpec),
    AssistTest(MotorSpec, AssistValues),
}

/// The bits of the speed limit of 5 rad/s.
pub const DEFAULT_SPEED: u32 = 0x40A0_0000;

impl AppSpec {
    /// The selected motor, if there is one.
    pub open spec fn selected(self) -> Option<EntrySpec> {
        if self.selected_motor < self.motors.len() {
            Some(self.motors[self.selected_motor])
        } else {
            None
        }
    }

    /// A motor with the zero offset that is known of it.
    pub open spec fn offset_applied(self, motor: MotorSpec) -> MotorSpec {
        if self.soft_zero_offsets.contains_key(motor.spec_key()) {
            motor.zeroed(self.soft_zero_offsets[motor.spec_key()])
        } else {
            motor
        }
    }

    /// A motor as it is addressed for most commands: a DAMIAO motor with its zero offset, a
    /// Robstride motor by its own zero.
    pub open spec fn addressed(self, motor: MotorSpec) -> MotorSpec {
        if motor is Damiao {
            self.offset_applied(motor)
        } else {
            motor
        }
    }

    /// What comes of a command that needs a motor if none is selected.
    pub open spec fn no_motor(self, stamp: Seq<char>) -> (AppSpec, Job) {
        (self.logged(stamp, "No motor selected."@), Job::Nothing)
    }

    /// The first ID, the last ID and the vendor that a scan is for.
    pub open spec fn scan_request(list: Seq<Seq<char>>) -> (u8, u8, Seq<char>) {
        let from = if list.len() > 0 {
            id_or(list[0], 1)
        } else {
            1
        };
        let to = if list.len() > 1 {
            id_or(list[1], 127)
        } else {
            127
        };
        let first = if from < 1 {
            1
        } else {
            from
        };
        let last = if to < first {
            first
        } else {
            to
        };
        (
            first,
            if last > 254 {
                254
            } else {
                last
            },
            crate::text::lowercase(word_or(list, 2, "rs"@)),
        )
    }

    /// Whether a scan is for Robstride motors, among others.
    pub open spec fn scans_robstride(list: Seq<Seq<char>>) -> bool {
        let vendor = AppSpec::scan_request(list).2;
        vendor == "rs"@ || vendor == "both"@
    }

    /// Starting a scan. A DAMIAO scan that was asked for too follows a Robstride scan.
    pub open spec fn scan_cmd(self, list: Seq<Seq<char>>, stamp: Seq<char>) -> (AppSpec, Job) {
        let (from, to, vendor) = AppSpec::scan_request(list);
        let damiao = vendor == "dm"@ || vendor == "both"@;
        let range = crate::text::decimal(from as nat) + "..="@ + crate::text::decimal(to as nat);
        if self.scanning {
            (self.logged(stamp, "Scan already in progress."@), Job::Nothing)
        } else if AppSpec::scans_robstride(list) {
            (
                AppSpec {
                    scan_progress: (0, (to - from + 1) as usize),
                    scanning: true,
                    dm_scan_after: if damiao {
                        Some((from, to))
                    } else {
                        None
                    },
                    ..self.logged(
                        stamp,
                        "Scanning CAN bus (Robstride) ID "@ + range + "..."@,
                    )
                },
                Job::ScanRobstride { from, to },
            )
        } else if damiao {
            (self.damiao_scan(from, to, stamp), Job::ScanDamiao { from, to })
        } else {
            (
                self.logged(
                    stamp,
                    "Unknown vendor '"@ + vendor + "'. Use rs, dm, or both."@,
                ),
                Job::Nothing,
            )
        }
    }

    /// Announcing a scan for DAMIAO motors.
    pub open spec fn damiao_scan(self, from: u8, to: u8, stamp: Seq<char>) -> AppSpec {
        self.logged(
            stamp,
            "Scanning CAN bus (DAMIAO) ID "@ + crate::text::decimal(from as nat) + "..="@
                + crate::text::decimal(to as nat) + " (probe takes ~10 ms/ID)..."@,
        )
    }

    /// Writing the zero of the selected motor, with a warning.
    pub open spec fn set_zero_cmd(self, stamp: Seq<char>) -> (AppSpec, Job) {
        match self.selected() {
            None => self.no_motor(stamp),
            Some(entry) => (
                self.logged(
                    stamp,
                    "WARNING: writing zero to NVM for "@ + entry.motor.spec_description()
                        + " (flash wear — use Zero Pair for routine recalibration)"@,
                ),
                Job::SetZero(entry.motor),
            ),
        }
    }

    /// Reading a parameter of the selected motor.
    pub open spec fn read_param_cmd(self, input: Seq<char>, stamp: Seq<char>) -> (AppSpec, Job) {
        let name = crate::text::lowercase(crate::text::trimmed(input));
        match (self.selected(), param_named(crate::text::lowercase(name))) {
            (None, _) => self.no_motor(stamp),
            (Some(_), None) => (
                self.logged(
                    stamp,
                    "Unknown param: '"@ + input
                        + "'. Available: mech_pos, mech_vel, iq_filt, vbus, limit_torque, limit_spd, limit_cur, run_mode, loc_kp, spd_kp, spd_ki"@,
                ),
                Job::Nothing,
            ),
            (Some(entry), Some(param)) => (
                self,
                Job::ReadParam(self.addressed(entry.motor), param),
            ),
        }
    }

    /// Writing a parameter of the selected motor.
    pub open spec fn write_param_cmd(
        self,
        list: Seq<Seq<char>>,
        numbers: Seq<Number>,
        stamp: Seq<char>,
    ) -> (AppSpec, Job) {
        match self.selected() {
            None => self.no_motor(stamp),
            Some(entry) => if list.len() != 2 {
                (
                    self.logged(stamp, "Usage: name value (e.g. limit_spd 10.0)"@),
                    Job::Nothing,
                )
            } else {
                match (param_named(crate::text::lowercase(list[0])), numbers[1].single) {
                    (None, _) => (
                        self.logged(stamp, "Unknown param: '"@ + list[0] + "'"@),
                        Job::Nothing,
                    ),
                    (Some(_), None) => (
                        self.logged(stamp, "Invalid value: '"@ + list[1] + "'"@),
                        Job::Nothing,
                    ),
                    (Some(param), Some(value)) => if entry.motor is Damiao {
                        (
                            self.logged(
                                stamp,
                                "DAMIAO write-param '"@ + list[0]
                                    + "' is not supported in MIT-only mode"@,
                            ),
                            Job::Nothing,
                        )
                    } else {
                        (self, Job::WriteParam(entry.motor, param, value))
                    },
                }
            },
        }
    }

    /// Changing the run mode of the selected motor.
    pub open spec fn run_mode_cmd(self, input: Seq<char>, stamp: Seq<char>) -> (AppSpec, Job) {
        match (self.selected(), mode_named(crate::text::lowercase(crate::text::trimmed(input)))) {
            (None, _) => self.no_motor(stamp),
            (Some(_), None) => (
                self.logged(
                    stamp,
                    "Unknown mode. Use: mit, position, velocity, torque"@,
                ),
                Job::Nothing,
            ),
            (Some(entry), Some(mode)) => if entry.motor is Robstride {
                (self, Job::SetRunMode(entry.motor, mode))
            } else if mode == RunMode::Mit {
                (
                    self.logged(stamp, "DAMIAO uses MIT mode only (already active)."@),
                    Job::Nothing,
                )
            } else {
                (
                    self.logged(stamp, "DAMIAO supports MIT mode only in this TUI."@),
                    Job::Nothing,
                )
            },
        }
    }

    /// Moving the selected motor. A speed limit that is missing or no number is the default.
    pub open spec fn move_to_cmd(self, numbers: Seq<Number>, stamp: Seq<char>) -> (AppSpec, Job) {
        match self.selected() {
            None => self.no_motor(stamp),
            Some(entry) => if numbers.len() == 0 {
                (self.logged(stamp, "Usage: position_rad [speed_limit]"@), Job::Nothing)
            } else {
                match numbers[0].single {
                    None => (self.logged(stamp, "Invalid position value."@), Job::Nothing),
                    Some(position) => (
                        self,
                        Job::MoveTo(
                            self.addressed(entry.motor),
                            position,
                            match (numbers.len() > 1, numbers[1].single) {
                                (true, Some(speed)) => speed,
                                _ => DEFAULT_SPEED,
                            },
                        ),
                    ),
                }
            },
        }
    }

    /// The one number that a line of input is, in single precision.
    pub open spec fn only_number(numbers: Seq<Number>) -> Option<u32> {
        if numbers.len() == 1 {
            numbers[0].single
        } else {
            None
        }
    }

    /// Turning the selected motor.
    pub open spec fn spin_cmd(self, numbers: Seq<Number>, stamp: Seq<char>) -> (AppSpec, Job) {
        match (self.selected(), AppSpec::only_number(numbers)) {
            (None, _) => self.no_motor(stamp),
            (Some(_), None) => (self.logged(stamp, "Invalid velocity value."@), Job::Nothing),
            (Some(entry), Some(velocity)) => (
                self,
                Job::Spin(self.addressed(entry.motor), velocity),
            ),
        }
    }

    /// Putting a torque on the selected motor.
    pub open spec fn torque_cmd(self, numbers: Seq<Number>, stamp: Seq<char>) -> (AppSpec, Job) {
        match (self.selected(), AppSpec::only_number(numbers)) {
            (None, _) => self.no_motor(stamp),
            (Some(_), None) => (self.logged(stamp, "Invalid torque value."@), Job::Nothing),
            (Some(entry), Some(torque)) => (
                self,
                Job::Torque(self.addressed(entry.motor), torque),
            ),
        }
    }

    /// The words that are numbers, in double precision.
    pub open spec fn doubles(numbers: Seq<Number>) -> Seq<u64>
        decreases numbers.len(),
    {
        if numbers.len() == 0 {
            Seq::empty()
        } else {
            let before = AppSpec::doubles(numbers.drop_last());
            match numbers.last().double {
                Some(value) => before.push(value),
                None => before,
            }
        }
    }

    /// A MIT command to the selected motor: five numbers, with other words passed over.
    pub open spec fn mit_cmd(self, numbers: Seq<Number>, stamp: Seq<char>) -> (AppSpec, Job) {
        let given = AppSpec::doubles(numbers);
        match self.selected() {
            None => self.no_motor(stamp),
            Some(entry) => if given.len() != 5 {
                (
                    self.logged(stamp, "Usage: pos vel kp kd torque (5 values)"@),
                    Job::Nothing,
                )
            } else {
                (
                    self,
                    Job::Mit(
                        self.addressed(entry.motor),
                        !entry.enabled,
                        MitValues {
                            position: given[0],
                            velocity: given[1],
                            kp: given[2],
                            kd: given[3],
                            torque: given[4],
                        },
                    ),
                )
            },
        }
    }

    /// The motor that two words of the input mean, with a warning in the log if the kind is
    /// unknown.
    pub open spec fn named_motor(
        self,
        list: Seq<Seq<char>>,
        at: int,
        default_id: u8,
        role: Seq<char>,
        stamp: Seq<char>,
    ) -> (AppSpec, MotorSpec) {
        let (motor, warning) = motor_of_kind(
            word_or(list, at, "rs05"@),
            word_or(list, at + 1, crate::text::decimal(default_id as nat)),
            default_id,
            self.host_id,
            self.default_model,
        );
        match warning {
            Some(text) => (self.logged(stamp, role + text), motor),
            None => (self, motor),
        }
    }

    /// A number of the input, if there is one at that place.
    pub open spec fn double_at(numbers: Seq<Number>, i: int) -> Option<u64> {
        if i < numbers.len() {
            numbers[i].double
        } else {
            None
        }
    }

    /// The numbers of a bilateral command.
    pub open spec fn gain_values(numbers: Seq<Number>) -> GainValues {
        GainValues {
            kp: AppSpec::double_at(numbers, 7),
            kd: AppSpec::double_at(numbers, 8),
            coulomb: AppSpec::double_at(numbers, 9),
            viscous: AppSpec::double_at(numbers, 10),
            force_scale: AppSpec::double_at(numbers, 11),
            inertia: AppSpec::double_at(numbers, 12),
            dob_cutoff: AppSpec::double_at(numbers, 13),
            inertia_comp: AppSpec::double_at(numbers, 14),
            accel_cutoff: AppSpec::double_at(numbers, 15),
            assist_kd: AppSpec::double_at(numbers, 16),
            vel_ahead: AppSpec::double_at(numbers, 17),
            max_assist: AppSpec::double_at(numbers, 18),
            force_threshold: AppSpec::double_at(numbers, 19),
            open_sign: if 20 < numbers.len() {
                numbers[20].bare
            } else {
                None
            },
            safety_radius: AppSpec::double_at(numbers, 21),
            safety_max_jump: AppSpec::double_at(numbers, 22),
            vel_cutoff: AppSpec::double_at(numbers, 23),
            tau_slew: AppSpec::double_at(numbers, 24),
        }
    }

    /// Starting bilateral control, or stopping it if it is running.
    pub open spec fn bilateral_cmd(
        self,
        list: Seq<Seq<char>>,
        numbers: Seq<Number>,
        stamp: Seq<char>,
    ) -> (AppSpec, Job) {
        if self.bilateral {
            (self, Job::StopBilateral)
        } else {
            let (one, leader) = self.named_motor(list, 0, 10, "Leader: "@, stamp);
            let (two, follower) = one.named_motor(list, 3, 1, "Follower: "@, stamp);
            let name = word_or(list, 6, "coupling"@);
            match BilateralMethod::named(crate::text::lowercase(name)) {
                None => (
                    two.logged(
                        stamp,
                        "Unknown method '"@ + name
                            + "'. Use: pos, force, coupling, mode, ondemand, ondemand_emu, coupling_mit"@,
                    ),
                    Job::Nothing,
                ),
                Some(method) => (
                    two,
                    Job::Bilateral(
                        self.offset_applied(leader).turned(is_on(word_or(list, 2, "0"@))),
                        self.offset_applied(follower).turned(is_on(word_or(list, 5, "0"@))),
                        method,
                        AppSpec::gain_values(numbers),
                    ),
                ),
            }
        }
    }

    /// Zeroing a pair of motors where they are.
    pub open spec fn zero_pair_cmd(self, list: Seq<Seq<char>>, stamp: Seq<char>) -> (AppSpec, Job) {
        if self.bilateral {
            (
                self.logged(stamp, "Bilateral loop is running; stop it first."@),
                Job::Nothing,
            )
        } else {
            let (one, leader) = self.named_motor(list, 0, 10, "Leader: "@, stamp);
            let (two, follower) = one.named_motor(list, 2, 1, "Follower: "@, stamp);
            (two, Job::ZeroPair(leader, follower))
        }
    }

    /// Starting an assist test, or stopping what is running.
    pub open spec fn assist_cmd(
        self,
        list: Seq<Seq<char>>,
        numbers: Seq<Number>,
        stamp: Seq<char>,
    ) -> (AppSpec, Job) {
        if self.bilateral {
            (self, Job::StopBilateral)
        } else {
            let (one, motor) = self.named_motor(list, 0, 10, ""@, stamp);
            (
                one,
                Job::AssistTest(
                    self.offset_applied(motor),
                    AssistValues {
                        assist_kd: AppSpec::double_at(numbers, 2),
                        vel_ahead: AppSpec::double_at(numbers, 3),
                        max_assist: AppSpec::double_at(numbers, 4),
                        coulomb: AppSpec::double_at(numbers, 5),
                        viscous: AppSpec::double_at(numbers, 6),
                        inertia: AppSpec::double_at(numbers, 7),
                        inertia_comp: AppSpec::double_at(numbers, 8),
                        accel_cutoff: AppSpec::double_at(numbers, 9),
                    },
                ),
            )
        }
    }

    /// Whether a command can be run on a line of input: there is a number for each of its
    /// words, and a Robstride scan that starts does not begin above ID 254.
    pub open spec fn accepts(self, command: Command, input: Seq<char>, numbers: nat) -> bool {
        let list = crate::text::words(input);
        let (from, to, _) = AppSpec::scan_request(list);
        &&& numbers == list.len()
        &&& command == Command::Scan && !self.scanning && AppSpec::scans_robstride(list) ==> from
            <= to
    }

    /// What a command comes to, before a motor is addressed.
    pub open spec fn command_run(
        self,
        command: Command,
        input: Seq<char>,
        numbers: Seq<Number>,
        stamp: Seq<char>,
    ) -> (AppSpec, Job) {
        let list = crate::text::words(input);
        match command {
            Command::Scan => self.scan_cmd(list, stamp),
            Command::Ping => match self.selected() {
                None => self.no_motor(stamp),
                Some(entry) => (self, Job::Ping(self.addressed(entry.motor))),
            },
            Command::Enable => match self.selected() {
                None => self.no_motor(stamp),
                Some(entry) => (self, Job::Enable(self.offset_applied(entry.motor))),
            },
            Command::Disable => match self.selected() {
                None => self.no_motor(stamp),
                Some(entry) => (self, Job::Disable(self.offset_applied(entry.motor))),
            },
            Command::SetZero => self.set_zero_cmd(stamp),
            Command::ReadStatus => match self.selected() {
                None => self.no_motor(stamp),
                Some(entry) => (self, Job::ReadStatus(self.offset_applied(entry.motor))),
            },
            Command::ReadParam => self.read_param_cmd(input, stamp),
            Command::WriteParam => self.write_param_cmd(list, numbers, stamp),
            Command::SetRunMode => self.run_mode_cmd(input, stamp),
            Command::MoveTo => self.move_to_cmd(numbers, stamp),
            Command::Spin => self.spin_cmd(numbers, stamp),
            Command::Torque => self.torque_cmd(numbers, stamp),
            Command::MitControl => self.mit_cmd(numbers, stamp),
            Command::Bilateral => self.bilateral_cmd(list, numbers, stamp),
            Command::ZeroPair => self.zero_pair_cmd(list, stamp),
            Command::AssistTest => self.assist_cmd(list, numbers, stamp),
        }
    }
}

// ---------------------------------------------------------------------------
// Running commands
// ---------------------------------------------------------------------------

fn double_of(numbers: &Vec<Number>, i: usize) -> (value: Option<u64>)
    ensures
        value == AppSpec::double_at(numbers@, i as int),
{
    if i < numbers.len() {
        numbers[i].double
    } else {
        None
    }
}

fn collect_doubles(numbers: &Vec<Number>) -> (values: Vec<u64>)
    ensures
        values@ == AppSpec::doubles(numbers@),
{
    let mut values: Vec<u64> = Vec::new();
    let mut i: usize = 0;
    assert(numbers@.take(0) =~= Seq::<Number>::empty());
    while i < numbers.len()
        invariant
            i <= numbers@.len(),
            values@ == AppSpec::doubles(numbers@.take(i as int)),
        decreases numbers@.len() - i,
    {
        assert(numbers@.take(i + 1).drop_last() =~= numbers@.take(i as int));
        assert(numbers@.take(i + 1).last() == numbers@[i as int]);
        match numbers[i].double {
            Some(value) => values.push(value),
            None => {},
        }
        i = i + 1;
    }
    assert(numbers@.take(i as int) =~= numbers@);
    values
}

fn read_gains(numbers: &Vec<Number>) -> (gains: GainValues)
    ensures
        gains == AppSpec::gain_values(numbers@),
{
    GainValues {
        kp: double_of(numbers, 7),
        kd: double_of(numbers, 8),
        coulomb: double_of(numbers, 9),
        viscous: double_of(numbers, 10),
        force_scale: double_of(numbers, 11),
        inertia: double_of(numbers, 12),
        dob_cutoff: double_of(numbers, 13),
        inertia_comp: double_of(numbers, 14),
        accel_cutoff: double_of(numbers, 15),
        assist_kd: double_of(numbers, 16),
        vel_ahead: double_of(numbers, 17),
        max_assist: double_of(numbers, 18),
        force_threshold: double_of(numbers, 19),
        open_sign: if 20 < numbers.len() {
            numbers[20].bare
        } else {
            None
        },
        safety_radius: double_of(numbers, 21),
        safety_max_jump: double_of(numbers, 22),
        vel_cutoff: double_of(numbers, 23),
        tau_slew: double_of(numbers, 24),
    }
}

/// The first ID, the last ID and the vendor that a scan is for.
pub fn scan_range(list: &Vec<String>) -> (range: (u8, u8, String))
    ensures
        ({
            let (from, to, vendor) = AppSpec::scan_request(crate::text::texts(list@));
            range.0 == from && range.1 == to && range.2@ == vendor
        }),
{
    let ghost specs = crate::text::texts(list@);
    assert(specs.len() == list@.len());
    let from: u8 = if list.len() > 0 {
        assert(specs[0] == list@[0]@);
        parse_id_or(list[0].as_str(), 1)
    } else {
        1
    };
    let to: u8 = if list.len() > 1 {
        assert(specs[1] == list@[1]@);
        parse_id_or(list[1].as_str(), 127)
    } else {
        127
    };
    let first: u8 = if from < 1 {
        1
    } else {
        from
    };
    let last: u8 = if to < first {
        first
    } else {
        to
    };
    let vendor = to_lowercase(word_at(list, 2, "rs"));
    (
        first,
        if last > 254 {
            254
        } else {
            last
        },
        vendor,
    )
}

/// Whether a line of input asks for a scan whose range can be counted: the first ID of a
/// Robstride scan must not be above 254.
pub fn scan_countable(input: &str) -> (countable: bool)
    ensures
        countable == ({
            let list = crate::text::words(input@);
            let (from, to, _) = AppSpec::scan_request(list);
            AppSpec::scans_robstride(list) ==> from <= to
        }),
{
    let list = split_words(input);
    let (from, to, vendor) = scan_range(&list);
    from <= to || !(same_text(vendor.as_str(), "rs") || same_text(vendor.as_str(), "both"))
}

impl App {
    /// The selected motor and whether it is enabled.
    pub fn selected_motor_entry(&self) -> (entry: Option<(MotorSpec, bool)>)
        ensures
            entry == (match self@.selected() {
                Some(e) => Some((e.motor, e.enabled)),
                None => None,
            }),
    {
        assert(self@.motors.len() == self.motors@.len());
        if self.selected_motor < self.motors.len() {
            let entry = &self.motors[self.selected_motor];
            assert(self@.motors[self.selected_motor as int] == entry@);
            Some((entry.motor, entry.enabled))
        } else {
            None
        }
    }

    /// The ID of the selected motor.
    pub fn selected_motor_id(&self) -> (id: Option<u8>)
        ensures
            id == (match self@.selected() {
                Some(e) => Some(e.motor.id()),
                None => None,
            }),
    {
        match self.selected_motor_entry() {
            Some(entry) => Some(entry.0.can_id()),
            None => None,
        }
    }

    /// A motor with the zero offset that is known of it.
    pub fn apply_saved_offset(&self, motor: MotorSpec) -> (result: MotorSpec)
        ensures
            result == self@.offset_applied(motor),
    {
        broadcast use vstd::std_specs::hash::group_hash_axioms;

        match self.soft_zero_offsets.get(&motor.key()) {
            Some(offset) => motor.with_soft_zero(*offset),
            None => motor,
        }
    }

    fn address(&self, motor: MotorSpec) -> (result: MotorSpec)
        ensures
            result == self@.addressed(motor),
    {
        if motor.is_damiao() {
            self.apply_saved_offset(motor)
        } else {
            motor
        }
    }

    fn refuse(&mut self, stamp: &str) -> (job: Job)
        requires
            old(self).valid(),
        ensures
            final(self).valid(),
            (final(self)@, job) == old(self)@.no_motor(stamp@),
    {
        self.log_msg(stamp, "No motor selected.");
        Job::Nothing
    }

    /// Announces a scan for DAMIAO motors.
    pub fn announce_damiao_scan(&mut self, from: u8, to: u8, stamp: &str)
        requires
            old(self).valid(),
        ensures
            final(self).valid(),
            final(self)@ == old(self)@.damiao_scan(from, to, stamp@),
    {
        self.log_msg(
            stamp,
            "Scanning CAN bus (DAMIAO) ID ".to_owned().concat(
                decimal_text(from as u64).as_str(),
            ).concat("..=").concat(decimal_text(to as u64).as_str()).concat(
                " (probe takes ~10 ms/ID)...",
            ).as_str(),
        );
    }

    fn execute_scan(&mut self, list: &Vec<String>, stamp: &str) -> (job: Job)
        requires
            old(self).valid(),
            !old(self).scanning ==> {
                let specs = crate::text::texts(list@);
                let (from, to, _) = AppSpec::scan_request(specs);
                AppSpec::scans_robstride(specs) ==> from <= to
            },
        ensures
            final(self).valid(),
            (final(self)@, job) == old(self)@.scan_cmd(crate::text::texts(list@), stamp@),
    {
        if self.scanning {
            self.log_msg(stamp, "Scan already in progress.");
            return Job::Nothing;
        }
        let (from, to, vendor) = scan_range(list);
        let both = same_text(vendor.as_str(), "both");
        let do_rs = same_text(vendor.as_str(), "rs") || both;
        let do_dm = same_text(vendor.as_str(), "dm") || both;
        if do_rs {
            let range = decimal_text(from as u64).concat("..=").concat(
                decimal_text(to as u64).as_str(),
            );
            self.log_msg(
                stamp,
                "Scanning CAN bus (Robstride) ID ".to_owned().concat(range.as_str()).concat(
                    "...",
                ).as_str(),
            );
            self.scan_progress = (0, (to - from) as usize + 1);
            self.scanning = true;
            self.dm_scan_after = if do_dm {
                Some((from, to))
            } else {
                None
            };
            Job::ScanRobstride { from, to }
        } else if do_dm {
            self.announce_damiao_scan(from, to, stamp);
            Job::ScanDamiao { from, to }
        } else {
            self.log_msg(
                stamp,
                "Unknown vendor '".to_owned().concat(vendor.as_str()).concat(
                    "'. Use rs, dm, or both.",
                ).as_str(),
            );
            Job::Nothing
        }
    }

    fn execute_set_zero(&mut self, stamp: &str) -> (job: Job)
        requires
            old(self).valid(),
        ensures
            final(self).valid(),
            (final(self)@, job) == old(self)@.set_zero_cmd(stamp@),
    {
        match self.selected_motor_entry() {
            None => self.refuse(stamp),
            Some((motor, _)) => {
                self.log_msg(
                    stamp,
                    "WARNING: writing zero to NVM for ".to_owned().concat(
                        motor.description().as_str(),
                    ).concat(
                        " (flash wear — use Zero Pair for routine recalibration)",
                    ).as_str(),
                );
                Job::SetZero(motor)
            },
        }
    }

    fn execute_read_param(&mut self, input: &str, stamp: &str) -> (job: Job)
        requires
            old(self).valid(),
        ensures
            final(self).valid(),
            (final(self)@, job) == old(self)@.read_param_cmd(input@, stamp@),
    {
        let (motor, _) = match self.selected_motor_entry() {
            None => return self.refuse(stamp),
            Some(entry) => entry,
        };
        let name = to_lowercase(trim(input).as_str());
        match parse_param_name(name.as_str()) {
            None => {
                self.log_msg(
                    stamp,
                    "Unknown param: '".to_owned().concat(input).concat(
                        "'. Available: mech_pos, mech_vel, iq_filt, vbus, limit_torque, limit_spd, limit_cur, run_mode, loc_kp, spd_kp, spd_ki",
                    ).as_str(),
                );
                Job::Nothing
            },
            Some(param) => Job::ReadParam(self.address(motor), param),
        }
    }

    fn execute_write_param(
        &mut self,
        list: &Vec<String>,
        numbers: &Vec<Number>,
        stamp: &str,
    ) -> (job: Job)
        requires
            old(self).valid(),
            numbers@.len() == list@.len(),
        ensures
            final(self).valid(),
            (final(self)@, job) == old(self)@.write_param_cmd(
                crate::text::texts(list@),
                numbers@,
                stamp@,
            ),
    {
        let ghost specs = crate::text::texts(list@);
        assert(specs.len() == list@.len());
        let (motor, _) = match self.selected_motor_entry() {
            None => return self.refuse(stamp),
            Some(entry) => entry,
        };
        if list.len() != 2 {
            self.log_msg(stamp, "Usage: name value (e.g. limit_spd 10.0)");
            return Job::Nothing;
        }
        assert(specs[0] == list@[0]@ && specs[1] == list@[1]@);
        let param = match parse_param_name(list[0].as_str()) {
            None => {
                self.log_msg(
                    stamp,
                    "Unknown param: '".to_owned().concat(list[0].as_str()).concat("'").as_str(),
                );
                return Job::Nothing;
            },
            Some(param) => param,
        };
        let value = match numbers[1].single {
            None => {
                self.log_msg(
                    stamp,
                    "Invalid value: '".to_owned().concat(list[1].as_str()).concat("'").as_str(),
                );
                return Job::Nothing;
            },
            Some(value) => value,
        };
        if motor.is_damiao() {
            self.log_msg(
                stamp,
                "DAMIAO write-param '".to_owned().concat(list[0].as_str()).concat(
                    "' is not supported in MIT-only mode",
                ).as_str(),
            );
            Job::Nothing
        } else {
            Job::WriteParam(motor, param, value)
        }
    }

    fn execute_set_run_mode(&mut self, input: &str, stamp: &str) -> (job: Job)
        requires
            old(self).valid(),
        ensures
            final(self).valid(),
            (final(self)@, job) == old(self)@.run_mode_cmd(input@, stamp@),
    {
        let (motor, _) = match self.selected_motor_entry() {
            None => return self.refuse(stamp),
            Some(entry) => entry,
        };
        let mode = match parse_run_mode(trim(input).as_str()) {
            None => {
                self.log_msg(stamp, "Unknown mode. Use: mit, position, velocity, torque");
                return Job::Nothing;
            },
            Some(mode) => mode,
        };
        if !motor.is_damiao() {
            Job::SetRunMode(motor, mode)
        } else if mode == RunMode::Mit {
            self.log_msg(stamp, "DAMIAO uses MIT mode only (already active).");
            Job::Nothing
        } else {
            self.log_msg(stamp, "DAMIAO supports MIT mode only in this TUI.");
            Job::Nothing
        }
    }

    fn execute_move_to(&mut self, numbers: &Vec<Number>, stamp: &str) -> (job: Job)
        requires
            old(self).valid(),
        ensures
            final(self).valid(),
            (final(self)@, job) == old(self)@.move_to_cmd(numbers@, stamp@),
    {
        let (motor, _) = match self.selected_motor_entry() {
            None => return self.refuse(stamp),
            Some(entry) => entry,
        };
        if numbers.len() == 0 {
            self.log_msg(stamp, "Usage: position_rad [speed_limit]");
            return Job::Nothing;
        }
        match numbers[0].single {
            None => {
                self.log_msg(stamp, "Invalid position value.");
                Job::Nothing
            },
            Some(position) => {
                let speed: u32 = if numbers.len() > 1 {
                    match numbers[1].single {
                        Some(speed) => speed,
                        None => DEFAULT_SPEED,
                    }
                } else {
                    DEFAULT_SPEED
                };
                Job::MoveTo(self.address(motor), position, speed)
            },
        }
    }

    fn execute_spin(&mut self, numbers: &Vec<Number>, stamp: &str) -> (job: Job)
        requires
            old(self).valid(),
        ensures
            final(self).valid(),
            (final(self)@, job) == old(self)@.spin_cmd(numbers@, stamp@),
    {
        let (motor, _) = match self.selected_motor_entry() {
            None => return self.refuse(stamp),
            Some(entry) => entry,
        };
        if numbers.len() == 1 {
            match numbers[0].single {
                Some(velocity) => return Job::Spin(self.address(motor), velocity),
                None => {},
            }
        }
        self.log_msg(stamp, "Invalid velocity value.");
        Job::Nothing
    }

    fn execute_torque(&mut self, numbers: &Vec<Number>, stamp: &str) -> (job: Job)
        requires
            old(self).valid(),
        ensures
            final(self).valid(),
            (final(self)@, job) == old(self)@.torque_cmd(numbers@, stamp@),
    {
        let (motor, _) = match self.selected_motor_entry() {
            None => return self.refuse(stamp),
            Some(entry) => entry,
        };
        if numbers.len() == 1 {
            match numbers[0].single {
                Some(torque) => return Job::Torque(self.address(motor), torque),
                None => {},
            }
        }
        self.log_msg(stamp, "Invalid torque value.");
        Job::Nothing
    }

    fn execute_mit(&mut self, numbers: &Vec<Number>, stamp: &str) -> (job: Job)
        requires
            old(self).valid(),
        ensures
            final(self).valid(),
            (final(self)@, job) == old(self)@.mit_cmd(numbers@, stamp@),
    {
        let (motor, enabled) = match self.selected_motor_entry() {
            None => return self.refuse(stamp),
            Some(entry) => entry,
        };
        let given = collect_doubles(numbers);
        if given.len() != 5 {
            self.log_msg(stamp, "Usage: pos vel kp kd torque (5 values)");
            return Job::Nothing;
        }
        Job::Mit(
            self.address(motor),
            !enabled,
            MitValues {
                position: given[0],
                velocity: given[1],
                kp: given[2],
                kd: given[3],
                torque: given[4],
            },
        )
    }

    fn name_motor(
        &mut self,
        list: &Vec<String>,
        at: usize,
        default_id: u8,
        role: &str,
        stamp: &str,
    ) -> (motor: MotorSpec)
        requires
            old(self).valid(),
            at < 100,
        ensures
            final(self).valid(),
            (final(self)@, motor) == old(self)@.named_motor(
                crate::text::texts(list@),
                at as int,
                default_id,
                role@,
                stamp@,
            ),
    {
        let default_text = decimal_text(default_id as u64);
        let (motor, warning) = parse_motor_kind(
            word_at(list, at, "rs05"),
            word_at(list, at + 1, default_text.as_str()),
            default_id,
            self.host_id,
            self.default_model,
        );
        match warning {
            Some(text) => self.log_msg(stamp, role.to_owned().concat(text.as_str()).as_str()),
            None => {},
        }
        motor
    }

    fn execute_bilateral(
        &mut self,
        list: &Vec<String>,
        numbers: &Vec<Number>,
        stamp: &str,
    ) -> (job: Job)
        requires
            old(self).valid(),
        ensures
            final(self).valid(),
            (final(self)@, job) == old(self)@.bilateral_cmd(
                crate::text::texts(list@),
                numbers@,
                stamp@,
            ),
    {
        if self.bilateral {
            return Job::StopBilateral;
        }
        let leader = self.name_motor(list, 0, 10, "Leader: ", stamp);
        let follower = self.name_motor(list, 3, 1, "Follower: ", stamp);
        let lead_invert = bool_flag(word_at(list, 2, "0"));
        let foll_invert = bool_flag(word_at(list, 5, "0"));
        let name = word_at(list, 6, "coupling");
        match BilateralMethod::from_short(name) {
            None => {
                self.log_msg(
                    stamp,
                    "Unknown method '".to_owned().concat(name).concat(
                        "'. Use: pos, force, coupling, mode, ondemand, ondemand_emu, coupling_mit",
                    ).as_str(),
                );
                Job::Nothing
            },
            Some(method) => Job::Bilateral(
                self.apply_saved_offset(leader).with_invert(lead_invert),
                self.apply_saved_offset(follower).with_invert(foll_invert),
                method,
                read_gains(numbers),
            ),
        }
    }

    fn execute_zero_pair(&mut self, list: &Vec<String>, stamp: &str) -> (job: Job)
        requires
            old(self).valid(),
        ensures
            final(self).valid(),
            (final(self)@, job) == old(self)@.zero_pair_cmd(crate::text::texts(list@), stamp@),
    {
        if self.bilateral {
            self.log_msg(stamp, "Bilateral loop is running; stop it first.");
            return Job::Nothing;
        }
        let leader = self.name_motor(list, 0, 10, "Leader: ", stamp);
        let follower = self.name_motor(list, 2, 1, "Follower: ", stamp);
        Job::ZeroPair(leader, follower)
    }

    fn execute_assist_test(
        &mut self,
        list: &Vec<String>,
        numbers: &Vec<Number>,
        stamp: &str,
    ) -> (job: Job)
        requires
            old(self).valid(),
        ensures
            final(self).valid(),
            (final(self)@, job) == old(self)@.assist_cmd(
                crate::text::texts(list@),
                numbers@,
                stamp@,
            ),
    {
        if self.bilateral {
            return Job::StopBilateral;
        }
        let motor = self.name_motor(list, 0, 10, "", stamp);
        Job::AssistTest(
            self.apply_saved_offset(motor),
            AssistValues {
                assist_kd: double_of(numbers, 2),
                vel_ahead: double_of(numbers, 3),
                max_assist: double_of(numbers, 4),
                coulomb: double_of(numbers, 5),
                viscous: double_of(numbers, 6),
                inertia: double_of(numbers, 7),
                inertia_comp: double_of(numbers, 8),
                accel_cutoff: double_of(numbers, 9),
            },
        )
    }

    /// Runs a command on a line of input. `numbers` says what each word of the input is worth
    /// as a number.
    ///
    /// A Robstride scan that starts must not begin above ID 254.
    pub fn execute_command(
        &mut self,
        command: Command,
        input: &str,
        numbers: &Vec<Number>,
        stamp: &str,
    ) -> (job: Job)
        requires
            old(self).valid(),
            old(self)@.accepts(command, input@, numbers@.len()),
        ensures
            final(self).valid(),
            (final(self)@, job) == old(self)@.command_run(command, input@, numbers@, stamp@),
    {
        let list = split_words(input);
        assert(crate::text::texts(list@).len() == list@.len());
        match command {
            Command::Scan => self.execute_scan(&list, stamp),
            Command::Ping => match self.selected_motor_entry() {
                None => self.refuse(stamp),
                Some((motor, _)) => Job::Ping(self.address(motor)),
            },
            Command::Enable => match self.selected_motor_entry() {
                None => self.refuse(stamp),
                Some((motor, _)) => Job::Enable(self.apply_saved_offset(motor)),
            },
            Command::Disable => match self.selected_motor_entry() {
                None => self.refuse(stamp),
                Some((motor, _)) => Job::Disable(self.apply_saved_offset(motor)),
            },
            Command::SetZero => self.execute_set_zero(stamp),
            Command::ReadStatus => match self.selected_motor_entry() {
                None => self.refuse(stamp),
                Some((motor, _)) => Job::ReadStatus(self.apply_saved_offset(motor)),
            },
            Command::ReadParam => self.execute_read_param(input, stamp),
            Command::WriteParam => self.execute_write_param(&list, numbers, stamp),
            Command::SetRunMode => self.execute_set_run_mode(input, stamp),
            Command::MoveTo => self.execute_move_to(numbers, stamp),
            Command::Spin => self.execute_spin(numbers, stamp),
            Command::Torque => self.execute_torque(numbers, stamp),
            Command::MitControl => self.execute_mit(numbers, stamp),
            Command::Bilateral => self.execute_bilateral(&list, numbers, stamp),
            Command::ZeroPair => self.execute_zero_pair(&list, stamp),
            Command::AssistTest => self.execute_assist_test(&list, numbers, stamp),
        }
    }

    /// Runs a command on a line of input if that can be done, and changes nothing otherwise.
    pub fn try_command(
        &mut self,
        command: Command,
        input: &str,
        numbers: &Vec<Number>,
        stamp: &str,
    ) -> (job: Option<Job>)
        requires
            old(self).valid(),
        ensures
            final(self).valid(),
            match job {
                Some(j) => old(self)@.accepts(command, input@, numbers@.len()) && (final(self)@, j)
                    == old(self)@.command_run(command, input@, numbers@, stamp@),
                None => !old(self)@.accepts(command, input@, numbers@.len()) && final(self)@
                    == old(self)@,
            },
    {
        let list = split_words(input);
        assert(crate::text::texts(list@).len() == list@.len());
        let counted = self.scanning || command != Command::Scan || scan_countable(input);
        if numbers.len() == list.len() && counted {
            Some(self.execute_command(command, input, numbers, stamp))
        } else {
            None
        }
    }
}

// ---------------------------------------------------------------------------
// What commands come to
// ---------------------------------------------------------------------------

/// The names of the run modes: a mode goes by its number on the wire, by its name and by a short
/// form of it. A name means one mode at most.
pub proof fn law_mode_names(name: Seq<char>)
    ensures
        name == "mit"@ || name == "0"@ <==> mode_named(name) is Some
            && mode_named(name)->0.spec_code() == 0,
        name == "position"@ || name == "pos"@ || name == "1"@ <==> mode_named(name) is Some
            && mode_named(name)->0.spec_code() == 1,
        name == "velocity"@ || name == "vel"@ || name == "2"@ <==> mode_named(name) is Some
            && mode_named(name)->0.spec_code() == 2,
        name == "torque"@ || name == "cur"@ || name == "3"@ <==> mode_named(name) is Some
            && mode_named(name)->0.spec_code() == 3,
{
    reveal_strlit("mit");
    reveal_strlit("0");
    reveal_strlit("position");
    reveal_strlit("pos");
    reveal_strlit("1");
    reveal_strlit("velocity");
    reveal_strlit("vel");
    reveal_strlit("2");
    reveal_strlit("torque");
    reveal_strlit("cur");
    reveal_strlit("3");
    assert("mit"@[0] != "pos"@[0]);
    assert("mit"@[0] != "vel"@[0]);
    assert("mit"@[0] != "cur"@[0]);
    assert("0"@[0] != "1"@[0]);
    assert("0"@[0] != "2"@[0]);
    assert("0"@[0] != "3"@[0]);
    assert("position"@[0] != "velocity"@[0]);
    assert("pos"@[0] != "vel"@[0]);
    assert("pos"@[0] != "cur"@[0]);
    assert("1"@[0] != "2"@[0]);
    assert("1"@[0] != "3"@[0]);
    assert("vel"@[0] != "cur"@[0]);
    assert("2"@[0] != "3"@[0]);
    assert("mit"@.len() == 3);
    assert("0"@.len() == 1);
    assert("position"@.len() == 8);
    assert("pos"@.len() == 3);
    assert("1"@.len() == 1);
    assert("velocity"@.len() == 8);
    assert("vel"@.len() == 3);
    assert("2"@.len() == 1);
    assert("torque"@.len() == 6);
    assert("cur"@.len() == 3);
    assert("3"@.len() == 1);
}

/// A parameter has the same number whether it is read or written, in the application or from the
/// command line: names that read or write there mean the same here, and no other name does.
pub proof fn law_names_as_command_line(name: Seq<char>)
    ensures
        crate::cli::readable_param(name) is Some ==> param_named(name) == crate::cli::readable_param(
            name,
        ),
        crate::cli::writable_param(name) is Some ==> param_named(name) == crate::cli::writable_param(
            name,
        ),
        param_named(name) is Some ==> crate::cli::readable_param(name) is Some
            || crate::cli::writable_param(name) is Some,
{
    if crate::cli::readable_param(name) is Some && crate::cli::writable_param(name) is Some {
        crate::cli::law_param_names_agree(name);
    }
    crate::cli::law_write_names(name);
    crate::cli::law_read_names(name);
}

/// A scan covers the IDs that were asked for. From a first to a last ID between 1 and 254 it
/// covers exactly those, without a last ID up to 127, without a first from 1. No scan covers ID
/// 0 or 255, and the vendor is Robstride unless it is said.
pub proof fn law_scan_range(list: Seq<Seq<char>>, a: int, b: int)
    ensures
        ({
            let (from, to, vendor) = AppSpec::scan_request(list);
            let first = crate::text::number(vstd::utf8::encode_utf8(list[0]), 10, 255);
            let last = crate::text::number(vstd::utf8::encode_utf8(list[1]), 10, 255);
            &&& 1 <= from && to <= 254
            &&& list.len() == 0 ==> from == 1 && to == 127
            &&& list.len() >= 1 && first == Some(a) && 1 <= a ==> from == a
            &&& list.len() == 1 && first == Some(a) && 1 <= a <= 127 ==> to == 127
            &&& list.len() >= 2 && first == Some(a) && last == Some(b) && 1 <= a <= b <= 254
                ==> to == b
            &&& list.len() >= 2 && first == Some(a) && last == Some(b) && b < a <= 254 && 1 <= a
                ==> to == a
            &&& list.len() < 3 ==> vendor == crate::text::lowercase("rs"@)
            &&& list.len() >= 3 ==> vendor == crate::text::lowercase(list[2])
        }),
{
    lemma_number_range(vstd::utf8::encode_utf8(list[0]));
    lemma_number_range(vstd::utf8::encode_utf8(list[1]));
}

/// A scan looks for the motors of the vendor that it was asked for: `rs` for Robstride motors,
/// `dm` for DAMIAO motors, and `both` for Robstride motors with DAMIAO motors behind them, over the
/// same IDs. A scan that is running goes on undisturbed, and an unknown vendor starts none.
pub proof fn law_scan_vendors(app: AppSpec, list: Seq<Seq<char>>, stamp: Seq<char>)
    requires
        AppSpec::scan_request(list).0 <= AppSpec::scan_request(list).1,
    ensures
        ({
            let (from, to, vendor) = AppSpec::scan_request(list);
            let (after, job) = app.scan_cmd(list, stamp);
            if app.scanning {
                job == Job::Nothing && after.scan_progress == app.scan_progress && after.scanning
                    && after.dm_scan_after == app.dm_scan_after
            } else if vendor == "rs"@ {
                job == (Job::ScanRobstride { from, to }) && after.scanning && after.scan_progress.0
                    == 0 && after.scan_progress.1 == to - from + 1 && after.dm_scan_after is None
            } else if vendor == "both"@ {
                job == (Job::ScanRobstride { from, to }) && after.scanning && after.scan_progress.0
                    == 0 && after.scan_progress.1 == to - from + 1 && after.dm_scan_after == Some(
                    (from, to),
                )
            } else if vendor == "dm"@ {
                job == (Job::ScanDamiao { from, to }) && !after.scanning && after.dm_scan_after
                    == app.dm_scan_after
            } else {
                job == Job::Nothing && !after.scanning && after.dm_scan_after == app.dm_scan_after
            }
        }),
        ({
            let (after, job) = app.scan_cmd(list, stamp);
            after.motors == app.motors && after.fd == app.fd && after.bilateral == app.bilateral
        }),
{
    reveal_strlit("rs");
    reveal_strlit("dm");
    reveal_strlit("both");
    assert("rs"@[0] == 'r' && "dm"@[0] == 'd' && "both"@.len() == 4 && "rs"@.len() == 2);
}

/// The motor that a kind and an ID mean, field by field. A Robstride name means a Robstride motor
/// of that model with the host's ID, a DAMIAO name a DAMIAO motor of any master, and any other
/// name a Robstride motor of the default model, with a warning then and only then. The ID is the
/// number that was given if it is one up to 255, and the default otherwise.
pub proof fn law_kind_of_motor(
    kind: Seq<char>,
    id: Seq<char>,
    default_id: u8,
    host: u8,
    default_model: MotorModel,
)
    ensures
        ({
            let (motor, warning) = motor_of_kind(kind, id, default_id, host, default_model);
            let name = crate::text::lowercase(kind);
            let damiao = name == "dm4310"@ || name == "dm-j4310-2ec"@;
            let given = crate::text::number(vstd::utf8::encode_utf8(id), 10, 255);
            let expected: int = match given {
                Some(n) => n,
                None => default_id as int,
            };
            &&& warning is None <==> MotorModel::named(name) is Some || damiao
            &&& match motor {
                MotorSpec::Robstride { host_id, can_id, model, soft_zero, invert } => !damiao
                    && host_id == host && can_id == expected && soft_zero == 0 && !invert && model
                    == (match MotorModel::named(name) {
                    Some(m) => m,
                    None => default_model,
                }),
                MotorSpec::Damiao { can_id, master_id, soft_zero, invert, .. } => damiao && can_id
                    == expected && master_id == 0 && soft_zero == 0 && !invert,
            }
        }),
{
    crate::driver::law_damiao_names(crate::text::lowercase(kind));
    lemma_number_range(vstd::utf8::encode_utf8(id));
}

proof fn lemma_number_range(bytes: Seq<u8>)
    ensures
        crate::text::number(bytes, 10, 255) matches Some(n) ==> 0 <= n <= 255,
{
    let digits = crate::text::without_plus(bytes);
    if crate::text::all_digits(digits, 10) {
        lemma_digits_positive(digits);
    }
}

proof fn lemma_digits_positive(digits: Seq<u8>)
    requires
        crate::text::all_digits(digits, 10),
    ensures
        crate::text::digits_value(digits, 10) >= 0,
    decreases digits.len(),
{
    if digits.len() > 0 {
        let before = digits.drop_last();
        assert forall|i: int| 0 <= i < before.len() implies (
        #[trigger] crate::text::digit_value(before[i], 10)) is Some by {
            assert(before[i] == digits[i]);
            assert(crate::text::digit_value(digits[i], 10) is Some);
        }
        lemma_digits_positive(before);
        assert(crate::text::digit_value(digits[digits.len() - 1], 10) is Some);
    }
}

/// Four words switch a thing on, and `0` is none of them.
pub proof fn law_switch_words(word: Seq<char>)
    ensures
        word == "1"@ || word == "true"@ || word == "yes"@ || word == "on"@ <==> is_on(word),
        word == "0"@ || word == "false"@ || word == "no"@ || word == "off"@ ==> !is_on(word),
{
    reveal_strlit("1");
    reveal_strlit("true");
    reveal_strlit("yes");
    reveal_strlit("on");
    reveal_strlit("0");
    reveal_strlit("false");
    reveal_strlit("no");
    reveal_strlit("off");
    assert("1"@[0] != "0"@[0]);
    assert("yes"@[0] != "off"@[0]);
    assert("on"@[0] != "no"@[0]);
    assert("1"@.len() == 1);
    assert("true"@.len() == 4);
    assert("yes"@.len() == 3);
    assert("on"@.len() == 2);
    assert("0"@.len() == 1);
    assert("false"@.len() == 5);
    assert("no"@.len() == 2);
    assert("off"@.len() == 3);
}

/// A command goes to the selected motor and does what it says: whatever comes of it on the bus is
/// the job of that command, for a motor of the same vendor, ID and model. Without a selected motor
/// nothing is done.
pub proof fn law_command_and_motor(
    app: AppSpec,
    command: Command,
    input: Seq<char>,
    numbers: Seq<Number>,
    stamp: Seq<char>,
)
    ensures
        ({
            let job = app.command_run(command, input, numbers, stamp).1;
            let own = |motor: MotorSpec|
                app.selected_motor < app.motors.len() && same_motor(
                    motor,
                    app.motors[app.selected_motor].motor,
                );
            match job {
                Job::Nothing => true,
                Job::StopBilateral => (command == Command::Bilateral || command == Command::AssistTest)
                    && app.bilateral,
                Job::ScanRobstride { .. } | Job::ScanDamiao { .. } => command == Command::Scan,
                Job::Ping(m) => command == Command::Ping && own(m),
                Job::Enable(m) => command == Command::Enable && own(m),
                Job::Disable(m) => command == Command::Disable && own(m),
                Job::SetZero(m) => command == Command::SetZero && own(m),
                Job::ReadStatus(m) => command == Command::ReadStatus && own(m),
                Job::ReadParam(m, _) => command == Command::ReadParam && own(m),
                Job::WriteParam(m, _, _) => command == Command::WriteParam && own(m) && m is Robstride,
                Job::SetRunMode(m, _) => command == Command::SetRunMode && own(m) && m is Robstride,
                Job::MoveTo(m, _, _) => command == Command::MoveTo && own(m),
                Job::Spin(m, _) => command == Command::Spin && own(m),
                Job::Torque(m, _) => command == Command::Torque && own(m),
                Job::Mit(m, _, _) => command == Command::MitControl && own(m),
                Job::Bilateral(..) => command == Command::Bilateral && !app.bilateral,
                Job::ZeroPair(..) => command == Command::ZeroPair && !app.bilateral,
                Job::AssistTest(..) => command == Command::AssistTest && !app.bilateral,
            }
        }),
{
    let motor = app.motors[app.selected_motor].motor;
    lemma_same_motor(app, motor);
    match command {
        Command::Scan => {},
        Command::Ping | Command::Enable | Command::Disable | Command::ReadStatus => {},
        Command::SetZero => {},
        Command::ReadParam => {},
        Command::WriteParam => {},
        Command::SetRunMode => {},
        Command::MoveTo => {},
        Command::Spin => {},
        Command::Torque => {},
        Command::MitControl => {},
        Command::Bilateral => {},
        Command::ZeroPair => {},
        Command::AssistTest => {},
    }
}

/// Whether two motors are the same but for their zero offsets.
pub open spec fn same_motor(a: MotorSpec, b: MotorSpec) -> bool {
    match (a, b) {
        (
            MotorSpec::Robstride { host_id: h, can_id: c, model: m, invert: i, .. },
            MotorSpec::Robstride { host_id, can_id, model, invert, .. },
        ) => h == host_id && c == can_id && m == model && i == invert,
        (
            MotorSpec::Damiao { master_id: h, can_id: c, model: m, invert: i, .. },
            MotorSpec::Damiao { master_id, can_id, model, invert, .. },
        ) => h == master_id && c == can_id && m == model && i == invert,
        _ => false,
    }
}

proof fn lemma_same_motor(app: AppSpec, motor: MotorSpec)
    ensures
        same_motor(motor, motor),
        same_motor(app.addressed(motor), motor),
        same_motor(app.offset_applied(motor), motor),
{
}

/// A command with a selected motor is carried out if its input makes sense: the commands without
/// input always, a read for a known name, and a motion for a number. A parameter is written to a
/// Robstride motor alone, and its run mode changes alone.
pub proof fn law_command_carried_out(
    app: AppSpec,
    input: Seq<char>,
    numbers: Seq<Number>,
    stamp: Seq<char>,
)
    requires
        0 <= app.selected_motor < app.motors.len(),
    ensures
        ({
            let run = |command: Command| app.command_run(command, input, numbers, stamp).1;
            let motor = app.motors[app.selected_motor].motor;
            let list = crate::text::words(input);
            let trimmed = crate::text::lowercase(crate::text::trimmed(input));
            &&& run(Command::Ping) is Ping && run(Command::Enable) is Enable && run(Command::Disable)
                is Disable
            &&& run(Command::SetZero) is SetZero && run(Command::ReadStatus) is ReadStatus
            &&& match param_named(crate::text::lowercase(trimmed)) {
                Some(param) => run(Command::ReadParam) matches Job::ReadParam(_, p) && p == param,
                None => run(Command::ReadParam) == Job::Nothing,
            }
            &&& match mode_named(trimmed) {
                Some(mode) if motor is Robstride => run(Command::SetRunMode) == Job::SetRunMode(
                    motor,
                    mode,
                ),
                _ => run(Command::SetRunMode) == Job::Nothing,
            }
            &&& if list.len() == 2 && motor is Robstride && param_named(
                crate::text::lowercase(list[0]),
            ) is Some && numbers[1].single is Some {
                run(Command::WriteParam) == Job::WriteParam(
                    motor,
                    param_named(crate::text::lowercase(list[0]))->0,
                    numbers[1].single->0,
                )
            } else {
                run(Command::WriteParam) == Job::Nothing
            }
            &&& numbers.len() == 1 && numbers[0].single is Some ==> run(Command::Spin)
                == Job::Spin(app.addressed(motor), numbers[0].single->0)
            &&& numbers.len() == 1 && numbers[0].single is Some ==> run(Command::Torque)
                == Job::Torque(app.addressed(motor), numbers[0].single->0)
            &&& numbers.len() != 1 ==> run(Command::Spin) == Job::Nothing && run(Command::Torque)
                == Job::Nothing
            &&& numbers.len() >= 1 && numbers[0].single is Some ==> run(Command::MoveTo)
                == Job::MoveTo(
                app.addressed(motor),
                numbers[0].single->0,
                if numbers.len() > 1 && numbers[1].single is Some {
                    numbers[1].single->0
                } else {
                    0x40A0_0000
                },
            )
        }),
{
}

/// The five numbers of a MIT command are, in this order, its position, its velocity, its gains and
/// its torque. The motor is enabled before if it is not.
pub proof fn law_mit_values(app: AppSpec, numbers: Seq<Number>, stamp: Seq<char>)
    requires
        0 <= app.selected_motor < app.motors.len(),
        numbers.len() == 5,
        forall|i: int| 0 <= i < 5 ==> (#[trigger] numbers[i]).double is Some,
    ensures
        app.mit_cmd(numbers, stamp).1 matches Job::Mit(_, enable, values) && enable
            == !app.motors[app.selected_motor].enabled && Some(values.position) == numbers[0].double
            && Some(values.velocity) == numbers[1].double && Some(values.kp) == numbers[2].double
            && Some(values.kd) == numbers[3].double && Some(values.torque) == numbers[4].double,
{
    lemma_doubles_all(numbers);
}

proof fn lemma_doubles_all(numbers: Seq<Number>)
    requires
        forall|i: int| 0 <= i < numbers.len() ==> (#[trigger] numbers[i]).double is Some,
    ensures
        AppSpec::doubles(numbers).len() == numbers.len(),
        forall|i: int|
            0 <= i < numbers.len() ==> Some(#[trigger] AppSpec::doubles(numbers)[i])
                == numbers[i].double,
    decreases numbers.len(),
{
    if numbers.len() > 0 {
        let before = numbers.drop_last();
        assert forall|i: int| 0 <= i < before.len() implies (
        #[trigger] before[i]).double is Some by {
            assert(before[i] == numbers[i]);
        }
        lemma_doubles_all(before);
        assert(numbers[numbers.len() - 1].double is Some);
        let after = AppSpec::doubles(numbers);
        assert forall|i: int| 0 <= i < numbers.len() implies Some(#[trigger] after[i])
            == numbers[i].double by {
            if i < before.len() {
                assert(after[i] == AppSpec::doubles(before)[i]);
                assert(before[i] == numbers[i]);
            }
        }
    }
}

/// Each gain of bilateral control is the number at the place of the parameter of that name, and
/// so is each value of an assist test.
pub proof fn law_gains_by_name(numbers: Seq<Number>, app: AppSpec, list: Seq<Seq<char>>, stamp: Seq<char>)
    requires
        numbers.len() == 25,
    ensures
        ({
            let fields = crate::tui::fields::command_fields(Command::Bilateral);
            let g = AppSpec::gain_values(numbers);
            &&& fields.len() == 25
            &&& fields[0].name == "lead_kind"@
            &&& fields[1].name == "lead_id"@
            &&& fields[2].name == "lead_inv"@
            &&& fields[3].name == "foll_kind"@
            &&& fields[4].name == "foll_id"@
            &&& fields[5].name == "foll_inv"@
            &&& fields[6].name == "method"@
            &&& fields[7].name == "kp"@ && g.kp == numbers[7].double
            &&& fields[8].name == "kd"@ && g.kd == numbers[8].double
            &&& fields[9].name == "coulomb"@ && g.coulomb == numbers[9].double
            &&& fields[10].name == "viscous"@ && g.viscous == numbers[10].double
            &&& fields[11].name == "force_sc"@ && g.force_scale == numbers[11].double
            &&& fields[12].name == "inertia"@ && g.inertia == numbers[12].double
            &&& fields[13].name == "dob_cut"@ && g.dob_cutoff == numbers[13].double
            &&& fields[14].name == "iner_comp"@ && g.inertia_comp == numbers[14].double
            &&& fields[15].name == "acc_cut"@ && g.accel_cutoff == numbers[15].double
            &&& fields[16].name == "assist_kd"@ && g.assist_kd == numbers[16].double
            &&& fields[17].name == "vel_ahead"@ && g.vel_ahead == numbers[17].double
            &&& fields[18].name == "max_assist"@ && g.max_assist == numbers[18].double
            &&& fields[19].name == "f_thresh"@ && g.force_threshold == numbers[19].double
            &&& fields[20].name == "open_sign"@ && g.open_sign == numbers[20].bare
            &&& fields[21].name == "safety_rad"@ && g.safety_radius == numbers[21].double
            &&& fields[22].name == "safety_jump"@ && g.safety_max_jump == numbers[22].double
            &&& fields[23].name == "vel_cut"@ && g.vel_cutoff == numbers[23].double
            &&& fields[24].name == "tau_slew"@ && g.tau_slew == numbers[24].double
        }),
        ({
            let fields = crate::tui::fields::command_fields(Command::AssistTest);
            let job = app.assist_cmd(list, numbers, stamp).1;
            !app.bilateral ==> {
                let a = job->AssistTest_1;
                &&& job is AssistTest
                &&& fields.len() == 10
                &&& fields[2].name == "assist_kd"@ && a.assist_kd == numbers[2].double
                &&& fields[3].name == "vel_ahead"@ && a.vel_ahead == numbers[3].double
                &&& fields[4].name == "max_assist"@ && a.max_assist == numbers[4].double
                &&& fields[5].name == "coulomb"@ && a.coulomb == numbers[5].double
                &&& fields[6].name == "viscous"@ && a.viscous == numbers[6].double
                &&& fields[7].name == "inertia"@ && a.inertia == numbers[7].double
                &&& fields[8].name == "iner_comp"@ && a.inertia_comp == numbers[8].double
                &&& fields[9].name == "acc_cut"@ && a.accel_cutoff == numbers[9].double
            }
        }),
{
}

/// A parameter that was not given has no value.
pub proof fn law_gains_missing(numbers: Seq<Number>, i: int)
    requires
        i >= numbers.len(),
    ensures
        AppSpec::double_at(numbers, i) is None,
        numbers.len() <= 20 ==> AppSpec::gain_values(numbers).open_sign is None,
{
}

/// Bilateral control is for the leader of the first three words and the follower of the next
/// three: each with its own kind, ID and polarity, and with the zero offset that is known of it.
/// The method is the seventh word.
pub proof fn law_bilateral_pair(
    app: AppSpec,
    list: Seq<Seq<char>>,
    numbers: Seq<Number>,
    stamp: Seq<char>,
)
    requires
        !app.bilateral,
        list.len() >= 7,
    ensures
        ({
            let leader = motor_of_kind(list[0], list[1], 10, app.host_id, app.default_model).0;
            let follower = motor_of_kind(list[3], list[4], 1, app.host_id, app.default_model).0;
            let job = app.bilateral_cmd(list, numbers, stamp).1;
            match BilateralMethod::named(crate::text::lowercase(list[6])) {
                Some(method) => job matches Job::Bilateral(l, f, m, g) && m == method && g
                    == AppSpec::gain_values(numbers) && l == app.offset_applied(leader).turned(
                    is_on(list[2]),
                ) && f == app.offset_applied(follower).turned(is_on(list[5])),
                None => job == Job::Nothing,
            }
        }),
{
}

/// A pair is zeroed as the motors that the words name, the leader first, without the offsets and
/// polarities that were known of them. Both are named by a kind and an ID.
pub proof fn law_zeroed_pair(app: AppSpec, list: Seq<Seq<char>>, stamp: Seq<char>)
    requires
        list.len() >= 4,
    ensures
        ({
            let job = app.zero_pair_cmd(list, stamp).1;
            if app.bilateral {
                job == Job::Nothing
            } else {
                job == Job::ZeroPair(
                    motor_of_kind(list[0], list[1], 10, app.host_id, app.default_model).0,
                    motor_of_kind(list[2], list[3], 1, app.host_id, app.default_model).0,
                )
            }
        }),
{
}

/// Without words, bilateral control and zeroing are for the RS-05 motors 10 and 1, by virtual
/// coupling.
pub proof fn law_bilateral_defaults(app: AppSpec, stamp: Seq<char>)
    requires
        !app.bilateral,
    ensures
        ({
            let none = Seq::<Seq<char>>::empty();
            let leader = MotorSpec::Robstride {
                host_id: app.host_id,
                can_id: 10,
                model: MotorModel::Rs05,
                soft_zero: 0,
                invert: false,
            };
            let follower = MotorSpec::Robstride {
                host_id: app.host_id,
                can_id: 1,
                model: MotorModel::Rs05,
                soft_zero: 0,
                invert: false,
            };
            &&& app.zero_pair_cmd(none, stamp).1 == Job::ZeroPair(leader, follower)
            &&& app.bilateral_cmd(none, Seq::empty(), stamp).1 matches Job::Bilateral(l, f, m, _) && m
                == BilateralMethod::VirtualCoupling && l.id() == 10 && f.id() == 1
        }),
{
    lemma_defaults_named();
    law_kind_of_motor("rs05"@, crate::text::decimal(10), 10, app.host_id, app.default_model);
    law_kind_of_motor("rs05"@, crate::text::decimal(1), 1, app.host_id, app.default_model);
    crate::text::law_decimal_number(10, 255);
    crate::text::law_decimal_number(1, 255);
    crate::protocol::law_model_names("rs05"@);
    crate::bilateral::law_method_names("coupling"@);
    law_switch_words("0"@);
    let leader = motor_of_kind("rs05"@, crate::text::decimal(10), 10, app.host_id, app.default_model).0;
    let follower = motor_of_kind("rs05"@, crate::text::decimal(1), 1, app.host_id, app.default_model).0;
    assert(leader.id() == 10);
    assert(follower.id() == 1);
}

proof fn lemma_defaults_named()
    ensures
        crate::text::lowercase("rs05"@) == "rs05"@,
        crate::text::lowercase("coupling"@) == "coupling"@,
        "rs05"@ != "dm4310"@,
        "rs05"@ != "dm-j4310-2ec"@,
{
    reveal_strlit("rs05");
    reveal_strlit("coupling");
    reveal_strlit("dm4310");
    reveal_strlit("dm-j4310-2ec");
    assert(crate::text::lowercase("rs05"@) =~= "rs05"@);
    assert(crate::text::lowercase("coupling"@) =~= "coupling"@);
    assert("rs05"@.len() == 4 && "dm4310"@.len() == 6 && "dm-j4310-2ec"@.len() == 12);
}

/// A Robstride motor is addressed by its own zero for most commands and a DAMIAO motor from the
/// zero that was set; enabling, disabling and reading the status take the offset of either.
pub proof fn law_addressed(app: AppSpec, motor: MotorSpec)
    ensures
        motor is Robstride ==> app.addressed(motor) == motor,
        motor is Damiao ==> app.addressed(motor) == app.offset_applied(motor),
        !app.soft_zero_offsets.contains_key(motor.spec_key()) ==> app.offset_applied(motor) == motor,
        app.soft_zero_offsets.contains_key(motor.spec_key()) ==> app.offset_applied(motor)
            == motor.zeroed(app.soft_zero_offsets[motor.spec_key()]),
{
}

// ---------------------------------------------------------------------------
// What a command says
// ---------------------------------------------------------------------------

/// Whether all that became of a state is a message at the end of its log.
pub open spec fn said(
    before: AppSpec,
    after: AppSpec,
    stamp: Seq<char>,
    message: Seq<char>,
) -> bool {
    &&& after.log.len() > 0 && after.log.last() == "["@ + stamp + "] "@ + message
    &&& after == (AppSpec { log: after.log, log_scroll: after.log_scroll, ..before })
}

proof fn lemma_said(app: AppSpec, stamp: Seq<char>, message: Seq<char>)
    ensures
        said(app, app.logged(stamp, message), stamp, message),
{
    let log = app.log.push("["@ + stamp + "] "@ + message);
    if log.len() > LOG_MAX {
        assert(log.drop_first().last() == log.last());
    }
}

/// Without a motor, every command that is for a motor says so and does nothing else.
pub proof fn law_no_motor(
    app: AppSpec,
    command: Command,
    input: Seq<char>,
    numbers: Seq<Number>,
    stamp: Seq<char>,
)
    requires
        app.motors.len() == 0,
        app.selected_motor == 0,
        command != Command::Scan,
        command != Command::Bilateral,
        command != Command::ZeroPair,
        command != Command::AssistTest,
    ensures
        app.command_run(command, input, numbers, stamp).1 == Job::Nothing,
        said(
            app,
            app.command_run(command, input, numbers, stamp).0,
            stamp,
            "No motor selected."@,
        ),
{
    lemma_said(app, stamp, "No motor selected."@);
}

/// A parameter that is to be read or written, or a mode that is to be set, and that cannot be:
/// what is said names what was wrong.
pub proof fn law_settings_refused(
    app: AppSpec,
    input: Seq<char>,
    numbers: Seq<Number>,
    stamp: Seq<char>,
)
    requires
        0 <= app.selected_motor < app.motors.len(),
    ensures
        ({
            let after = |command: Command| app.command_run(command, input, numbers, stamp).0;
            let motor = app.motors[app.selected_motor].motor;
            let list = crate::text::words(input);
            let name = crate::text::lowercase(crate::text::trimmed(input));
            &&& if param_named(crate::text::lowercase(name)) is Some {
                after(Command::ReadParam) == app
            } else {
                said(
                    app,
                    after(Command::ReadParam),
                    stamp,
                    "Unknown param: '"@ + input
                        + "'. Available: mech_pos, mech_vel, iq_filt, vbus, limit_torque, limit_spd, limit_cur, run_mode, loc_kp, spd_kp, spd_ki"@,
                )
            }
            &&& match mode_named(name) {
                None => said(
                    app,
                    after(Command::SetRunMode),
                    stamp,
                    "Unknown mode. Use: mit, position, velocity, torque"@,
                ),
                Some(mode) => if motor is Robstride {
                    after(Command::SetRunMode) == app
                } else if mode == RunMode::Mit {
                    said(
                        app,
                        after(Command::SetRunMode),
                        stamp,
                        "DAMIAO uses MIT mode only (already active)."@,
                    )
                } else {
                    said(
                        app,
                        after(Command::SetRunMode),
                        stamp,
                        "DAMIAO supports MIT mode only in this TUI."@,
                    )
                },
            }
            &&& if list.len() != 2 {
                said(
                    app,
                    after(Command::WriteParam),
                    stamp,
                    "Usage: name value (e.g. limit_spd 10.0)"@,
                )
            } else if param_named(crate::text::lowercase(list[0])) is None {
                said(
                    app,
                    after(Command::WriteParam),
                    stamp,
                    "Unknown param: '"@ + list[0] + "'"@,
                )
            } else if numbers[1].single is None {
                said(
                    app,
                    after(Command::WriteParam),
                    stamp,
                    "Invalid value: '"@ + list[1] + "'"@,
                )
            } else if motor is Damiao {
                said(
                    app,
                    after(Command::WriteParam),
                    stamp,
                    "DAMIAO write-param '"@ + list[0] + "' is not supported in MIT-only mode"@,
                )
            } else {
                after(Command::WriteParam) == app
            }
        }),
{
    let list = crate::text::words(input);
    lemma_said(
        app,
        stamp,
        "Unknown param: '"@ + input
            + "'. Available: mech_pos, mech_vel, iq_filt, vbus, limit_torque, limit_spd, limit_cur, run_mode, loc_kp, spd_kp, spd_ki"@,
    );
    lemma_said(app, stamp, "Unknown mode. Use: mit, position, velocity, torque"@);
    lemma_said(app, stamp, "DAMIAO uses MIT mode only (already active)."@);
    lemma_said(app, stamp, "DAMIAO supports MIT mode only in this TUI."@);
    lemma_said(app, stamp, "Usage: name value (e.g. limit_spd 10.0)"@);
    lemma_said(app, stamp, "Unknown param: '"@ + list[0] + "'"@);
    lemma_said(app, stamp, "Invalid value: '"@ + list[1] + "'"@);
    lemma_said(
        app,
        stamp,
        "DAMIAO write-param '"@ + list[0] + "' is not supported in MIT-only mode"@,
    );
}

/// A motion without the numbers that it needs is not begun, and what is said tells what is
/// missing. With them nothing is said before the motor has answered.
pub proof fn law_motions_refused(
    app: AppSpec,
    input: Seq<char>,
    numbers: Seq<Number>,
    stamp: Seq<char>,
)
    requires
        0 <= app.selected_motor < app.motors.len(),
    ensures
        ({
            let run = |command: Command| app.command_run(command, input, numbers, stamp);
            let one = numbers.len() == 1 && numbers[0].single is Some;
            &&& one ==> run(Command::Spin).0 == app && run(Command::Torque).0 == app
            &&& !one ==> run(Command::Spin).1 == Job::Nothing && said(
                app,
                run(Command::Spin).0,
                stamp,
                "Invalid velocity value."@,
            )
            &&& !one ==> run(Command::Torque).1 == Job::Nothing && said(
                app,
                run(Command::Torque).0,
                stamp,
                "Invalid torque value."@,
            )
            &&& numbers.len() == 0 ==> run(Command::MoveTo).1 == Job::Nothing && said(
                app,
                run(Command::MoveTo).0,
                stamp,
                "Usage: position_rad [speed_limit]"@,
            )
            &&& numbers.len() > 0 && numbers[0].single is None ==> run(Command::MoveTo).1
                == Job::Nothing && said(
                app,
                run(Command::MoveTo).0,
                stamp,
                "Invalid position value."@,
            )
            &&& numbers.len() > 0 && numbers[0].single is Some ==> run(Command::MoveTo).0 == app
            &&& if AppSpec::doubles(numbers).len() == 5 {
                run(Command::MitControl).0 == app
            } else {
                run(Command::MitControl).1 == Job::Nothing && said(
                    app,
                    run(Command::MitControl).0,
                    stamp,
                    "Usage: pos vel kp kd torque (5 values)"@,
                )
            }
            &&& run(Command::Ping).0 == app && run(Command::Enable).0 == app && run(
                Command::Disable,
            ).0 == app && run(Command::ReadStatus).0 == app
            &&& said(
                app,
                run(Command::SetZero).0,
                stamp,
                "WARNING: writing zero to NVM for "@
                    + app.motors[app.selected_motor].motor.spec_description()
                    + " (flash wear — use Zero Pair for routine recalibration)"@,
            )
        }),
{
    lemma_said(app, stamp, "Invalid velocity value."@);
    lemma_said(app, stamp, "Invalid torque value."@);
    lemma_said(app, stamp, "Usage: position_rad [speed_limit]"@);
    lemma_said(app, stamp, "Invalid position value."@);
    lemma_said(app, stamp, "Usage: pos vel kp kd torque (5 values)"@);
    lemma_said(
        app,
        stamp,
        "WARNING: writing zero to NVM for "@
            + app.motors[app.selected_motor].motor.spec_description()
            + " (flash wear — use Zero Pair for routine recalibration)"@,
    );
}

/// While bilateral control is running, starting it or a test again stops it, and no pair is
/// zeroed.
pub proof fn law_while_bilateral(
    app: AppSpec,
    list: Seq<Seq<char>>,
    numbers: Seq<Number>,
    stamp: Seq<char>,
)
    requires
        app.bilateral,
    ensures
        app.bilateral_cmd(list, numbers, stamp) == (app, Job::StopBilateral),
        app.assist_cmd(list, numbers, stamp) == (app, Job::StopBilateral),
        app.zero_pair_cmd(list, stamp).1 == Job::Nothing,
        said(
            app,
            app.zero_pair_cmd(list, stamp).0,
            stamp,
            "Bilateral loop is running; stop it first."@,
        ),
{
    lemma_said(app, stamp, "Bilateral loop is running; stop it first."@);
}

/// A test is of the motor that is named first, at its known zero, and takes its values in the
/// order in which they are shown.
pub proof fn law_assist_values(
    app: AppSpec,
    list: Seq<Seq<char>>,
    numbers: Seq<Number>,
    stamp: Seq<char>,
)
    requires
        !app.bilateral,
        list.len() >= 2,
        numbers.len() >= 10,
    ensures
        app.assist_cmd(list, numbers, stamp).1 matches Job::AssistTest(motor, values) && motor
            == app.offset_applied(
            motor_of_kind(list[0], list[1], 10, app.host_id, app.default_model).0,
        ) && values.assist_kd == numbers[2].double && values.vel_ahead == numbers[3].double
            && values.max_assist == numbers[4].double && values.coulomb == numbers[5].double
            && values.viscous == numbers[6].double && values.inertia == numbers[7].double
            && values.inertia_comp == numbers[8].double && values.accel_cutoff
            == numbers[9].double,
{
}

/// What is said of a scan names the vendor and the range that is asked for. A second scan is
/// not begun, nor one of a vendor that is not known.
pub proof fn law_scan_said(app: AppSpec, list: Seq<Seq<char>>, stamp: Seq<char>, from: u8, to: u8)
    ensures
        ({
            let (first, last, vendor) = AppSpec::scan_request(list);
            let (after, job) = app.scan_cmd(list, stamp);
            let range = crate::text::decimal(first as nat) + "..="@ + crate::text::decimal(
                last as nat,
            );
            &&& app.scanning ==> job == Job::Nothing && said(
                app,
                after,
                stamp,
                "Scan already in progress."@,
            )
            &&& !app.scanning && vendor == "rs"@ ==> after.scanning && after.log.last() == "["@
                + stamp + "] "@ + ("Scanning CAN bus (Robstride) ID "@ + range + "..."@)
            &&& !app.scanning && !AppSpec::scans_robstride(list) && vendor == "dm"@ ==> said(
                app,
                after,
                stamp,
                "Scanning CAN bus (DAMIAO) ID "@ + crate::text::decimal(first as nat) + "..="@
                    + crate::text::decimal(last as nat) + " (probe takes ~10 ms/ID)..."@,
            )
            &&& !app.scanning && !AppSpec::scans_robstride(list) && vendor != "dm"@ && vendor
                != "both"@ ==> job == Job::Nothing && said(
                app,
                after,
                stamp,
                "Unknown vendor '"@ + vendor + "'. Use rs, dm, or both."@,
            )
            &&& said(
                app,
                app.damiao_scan(from, to, stamp),
                stamp,
                "Scanning CAN bus (DAMIAO) ID "@ + crate::text::decimal(from as nat) + "..="@
                    + crate::text::decimal(to as nat) + " (probe takes ~10 ms/ID)..."@,
            )
        }),
{
    let (first, last, vendor) = AppSpec::scan_request(list);
    let range = crate::text::decimal(first as nat) + "..="@ + crate::text::decimal(last as nat);
    lemma_said(app, stamp, "Scan already in progress."@);
    lemma_said(app, stamp, "Scanning CAN bus (Robstride) ID "@ + range + "..."@);
    lemma_said(app, stamp, "Unknown vendor '"@ + vendor + "'. Use rs, dm, or both."@);
    lemma_said(
        app,
        stamp,
        "Scanning CAN bus (DAMIAO) ID "@ + crate::text::decimal(first as nat) + "..="@
            + crate::text::decimal(last as nat) + " (probe takes ~10 ms/ID)..."@,
    );
    lemma_said(
        app,
        stamp,
        "Scanning CAN bus (DAMIAO) ID "@ + crate::text::decimal(from as nat) + "..="@
            + crate::text::decimal(to as nat) + " (probe takes ~10 ms/ID)..."@,
    );
}

/// What can be run: any command on a line with a number or none for each word, but no scan for
/// Robstride motors whose range is empty.
pub proof fn law_accepted(app: AppSpec, command: Command, input: Seq<char>, numbers: nat)
    ensures
        app.accepts(command, input, numbers) <==> {
            let list = crate::text::words(input);
            let (from, to, _) = AppSpec::scan_request(list);
            &&& numbers == list.len()
            &&& command != Command::Scan || app.scanning || from <= to
                || !AppSpec::scans_robstride(list)
        },
{
}

} // verus!
