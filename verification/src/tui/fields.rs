//! The commands of the application and the parameters they take.

use vstd::prelude::*;

verus! {

/// Commands of the application.
#[derive(Debug, Clone, Copy, PartialEq, Eq, Structural)]
pub enum Command {
    Scan,
    Ping,
    Enable,
    Disable,
    SetZero,
    ReadStatus,
    ReadParam,
    WriteParam,
    SetRunMode,
    MoveTo,
    Spin,
    Torque,
    MitControl,
    Bilateral,
    ZeroPair,
    AssistTest,
}

/// The kinds of motor that a parameter can name.
pub const MOTOR_KIND_CHOICES: &'static str = "rs00|rs01|rs02|rs03|rs04|rs05|rs06|dm4310";

impl Command {
    /// The commands in the order of the list.
    pub open spec fn list() -> Seq<Command> {
        seq![
            Command::Scan,
            Command::Ping,
            Command::Enable,
            Command::Disable,
            Command::SetZero,
            Command::ReadStatus,
            Command::ReadParam,
            Command::WriteParam,
            Command::SetRunMode,
            Command::MoveTo,
            Command::Spin,
            Command::Torque,
            Command::MitControl,
            Command::Bilateral,
            Command::ZeroPair,
            Command::AssistTest,
        ]
    }

    /// The commands in the order of the list.
    pub fn all() -> (commands: Vec<Command>)
        ensures
            commands@ == Command::list(),
    {
        let commands = vec![
            Command::Scan,
            Command::Ping,
            Command::Enable,
            Command::Disable,
            Command::SetZero,
            Command::ReadStatus,
            Command::ReadParam,
            Command::WriteParam,
            Command::SetRunMode,
            Command::MoveTo,
            Command::Spin,
            Command::Torque,
            Command::MitControl,
            Command::Bilateral,
            Command::ZeroPair,
            Command::AssistTest,
        ];
        assert(commands@ =~= Command::list());
        commands
    }

    /// The command at a place of the list.
    pub fn at(index: usize) -> (command: Command)
        requires
            index < Command::list().len(),
        ensures
            command == Command::list()[index as int],
    {
        Command::all()[index]
    }

    /// The name of the command in the list.
    pub open spec fn spec_label(self) -> Seq<char> {
        match self {
            Command::Scan => "Scan Bus"@,
            Command::Ping => "Ping"@,
            Command::Enable => "Enable"@,
            Command::Disable => "Disable"@,
            Command::SetZero => "Set Zero"@,
            Command::ReadStatus => "Read Status"@,
            Command::ReadParam => "Read Param"@,
            Command::WriteParam => "Write Param"@,
            Command::SetRunMode => "Set Run Mode"@,
            Command::MoveTo => "Move To Pos"@,
            Command::Spin => "Spin (Vel)"@,
            Command::Torque => "Torque"@,
            Command::MitControl => "MIT Control"@,
            Command::Bilateral => "Bilateral Ctrl"@,
            Command::ZeroPair => "Zero Pair"@,
            Command::AssistTest => "Assist Test"@,
        }
    }

    /// The name of the command in the list.
    pub fn label(&self) -> (label: &'static str)
        ensures
            label@ == self.spec_label(),
    {
        match self {
            Command::Scan => "Scan Bus",
            Command::Ping => "Ping",
            Command::Enable => "Enable",
            Command::Disable => "Disable",
            Command::SetZero => "Set Zero",
            Command::ReadStatus => "Read Status",
            Command::ReadParam => "Read Param",
            Command::WriteParam => "Write Param",
            Command::SetRunMode => "Set Run Mode",
            Command::MoveTo => "Move To Pos",
            Command::Spin => "Spin (Vel)",
            Command::Torque => "Torque",
            Command::MitControl => "MIT Control",
            Command::Bilateral => "Bilateral Ctrl",
            Command::ZeroPair => "Zero Pair",
            Command::AssistTest => "Assist Test",
        }
    }

    /// Whether the command takes parameters.
    pub open spec fn takes_params(self) -> bool {
        command_fields(self).len() > 0
    }

    /// Whether the command takes parameters.
    pub fn has_params(&self) -> (has: bool)
        ensures
            has == self.takes_params(),
    {
        let fields = params_for_command(*self);
        assert(field_specs(fields@).len() == fields@.len());
        fields.len() > 0
    }
}

/// A parameter as it is shown and edited.
#[derive(Debug)]
pub struct ParamField {
    /// Name
    pub name: &'static str,
    /// Current value
    pub value: String,
    /// Default value
    pub default: String,
    /// Description
    pub desc: &'static str,
    /// The values to choose from, separated by bars, if there is such a list
    pub choices: Option<&'static str>,
}

/// A parameter in mathematical terms.
#[verifier::ext_equal]
pub struct FieldSpec {
    pub name: Seq<char>,
    pub value: Seq<char>,
    pub default: Seq<char>,
    pub desc: Seq<char>,
    pub choices: Option<Seq<char>>,
}

impl View for ParamField {
    type V = FieldSpec;

    open spec fn view(&self) -> FieldSpec {
        FieldSpec {
            name: self.name@,
            value: self.value@,
            default: self.default@,
            desc: self.desc@,
            choices: match self.choices {
                Some(list) => Some(list@),
                None => None,
            },
        }
    }
}

/// A list of parameters in mathematical terms.
pub open spec fn field_specs(fields: Seq<ParamField>) -> Seq<FieldSpec> {
    fields.map_values(|f: ParamField| f@)
}

/// A parameter with any value.
pub open spec fn plain(name: Seq<char>, value: Seq<char>, desc: Seq<char>) -> FieldSpec {
    FieldSpec { name, value, default: value, desc, choices: None }
}

/// A parameter with a list of values to choose from.
pub open spec fn chosen(
    name: Seq<char>,
    value: Seq<char>,
    desc: Seq<char>,
    choices: Seq<char>,
) -> FieldSpec {
    FieldSpec { name, value, default: value, desc, choices: Some(choices) }
}

impl ParamField {
    /// A parameter at its default value.
    pub fn new(name: &'static str, value: &str, desc: &'static str) -> (field: ParamField)
        ensures
            field@ == plain(name@, value@, desc@),
    {
        ParamField {
            name,
            value: value.to_owned(),
            default: value.to_owned(),
            desc,
            choices: None,
        }
    }

    /// A parameter at its default value, with a list of values to choose from.
    pub fn with_choices(
        name: &'static str,
        value: &str,
        desc: &'static str,
        choices: &'static str,
    ) -> (field: ParamField)
        ensures
            field@ == chosen(name@, value@, desc@, choices@),
    {
        ParamField {
            name,
            value: value.to_owned(),
            default: value.to_owned(),
            desc,
            choices: Some(choices),
        }
    }

    /// A copy of the parameter.
    pub fn copy(&self) -> (field: ParamField)
        ensures
            field@ == self@,
    {
        ParamField {
            name: self.name,
            value: self.value.clone(),
            default: self.default.clone(),
            desc: self.desc,
            choices: self.choices,
        }
    }
}

/// The parameters of a command, at their default values.
pub open spec fn command_fields(command: Command) -> Seq<FieldSpec> {
    match command {
        Command::Scan => seq![
            plain("from"@, "1"@, "Start ID [1-254]"@),
            plain("to"@, "127"@, "End ID [1-254]"@),
            chosen(
                "vendor"@,
                "rs"@,
                "Vendor to probe (rs=Robstride, dm=DAMIAO, both)"@,
                "rs|dm|both"@,
            ),
        ],
        Command::ReadParam => seq![
            chosen(
                "param"@,
                "mech_pos"@,
                "Parameter name"@,
                "mech_pos|mech_vel|iq_filt|vbus|limit_torque|limit_spd|limit_cur|run_mode|loc_kp|spd_kp|spd_ki"@,
            ),
        ],
        Command::WriteParam => seq![
            chosen(
                "param"@,
                "limit_spd"@,
                "Parameter name"@,
                "limit_torque|limit_spd|limit_cur|loc_kp|spd_kp|spd_ki"@,
            ),
            plain("value"@, "10.0"@, "Float value to write"@),
        ],
        Command::SetRunMode => seq![
            chosen(
                "mode"@,
                "mit"@,
                "Motor run mode"@,
                "mit|position|velocity|torque"@,
            ),
        ],
        Command::MoveTo => seq![
            plain("position"@, "0.0"@, "Target position [rad]"@),
            plain("speed"@, "5.0"@, "Speed limit [rad/s]"@),
        ],
        Command::Spin => seq![
            plain("velocity"@, "1.0"@, "Target velocity [rad/s]"@),
        ],
        Command::Torque => seq![
            plain("torque"@, "0.0"@, "Target torque [Nm]"@),
        ],
        Command::MitControl => seq![
            plain("pos"@, "0.0"@, "Position ref [rad]"@),
            plain("vel"@, "0.0"@, "Velocity ref [rad/s]"@),
            plain("kp"@, "10.0"@, "Proportional gain"@),
            plain("kd"@, "0.5"@, "Derivative gain"@),
            plain("torque"@, "0.0"@, "Torque FF [Nm]"@),
        ],
        Command::Bilateral => seq![
            chosen(
                "lead_kind"@,
                "rs05"@,
                "Leader motor kind"@,
                MOTOR_KIND_CHOICES@,
            ),
            plain("lead_id"@, "10"@, "Leader CAN ID"@),
            chosen(
                "lead_inv"@,
                "0"@,
                "Leader polarity flip (1 to invert sign)"@,
                "0|1"@,
            ),
            chosen(
                "foll_kind"@,
                "rs05"@,
                "Follower motor kind"@,
                MOTOR_KIND_CHOICES@,
            ),
            plain("foll_id"@, "1"@, "Follower CAN ID"@),
            chosen(
                "foll_inv"@,
                "0"@,
                "Follower polarity flip (1 to invert sign)"@,
                "0|1"@,
            ),
            chosen(
                "method"@,
                "coupling"@,
                "Control method"@,
                "pos|force|coupling|mode|ondemand|ondemand_emu|coupling_mit"@,
            ),
            plain("kp"@, "5.0"@, "Spring stiffness [Nm/rad]"@),
            plain("kd"@, "0.3"@, "Damping [Nm·s/rad]"@),
            plain("coulomb"@, "0.05"@, "Coulomb friction comp [Nm]"@),
            plain("viscous"@, "0.01"@, "Viscous friction comp [Nm·s/rad]"@),
            plain("force_sc"@, "0.5"@, "Force refl scale (force/ondemand)"@),
            plain("inertia"@, "0.005"@, "Motor inertia [kg·m²]"@),
            plain("dob_cut"@, "100.0"@, "DOB cutoff [rad/s] (mode method)"@),
            plain("iner_comp"@, "0.0"@, "Leader inertia FF comp [0-1]"@),
            plain("acc_cut"@, "50.0"@, "Accel LPF cutoff [rad/s]"@),
            plain("assist_kd"@, "0.0"@, "Leader motor-internal kd assist (0=off; CAUTION: low-friction motors)"@),
            plain("vel_ahead"@, "2.0"@, "Vel ref lookahead (1=off, 2-3 typ)"@),
            plain("max_assist"@, "0.05"@, "Max assist torque [Nm] (safety limit)"@),
            plain("f_thresh"@, "0.3"@, "Force threshold [Nm] (ondemand mode)"@),
            chosen(
                "open_sign"@,
                "0"@,
                "Opening dir (ondemand: 0=off, +1/-1)"@,
                "-1|0|+1"@,
            ),
            plain("safety_rad"@, "3.14"@, "Disable both motors if |pos|>this [rad] (0=off)"@),
            plain("safety_jump"@, "0.5"@, "Disable if Δpos/cycle > this [rad] (0=off)"@),
            plain("vel_cut"@, "0.0"@, "Velocity LPF cutoff [rad/s] for kd (0=raw motor vel, recommended for DAMIAO)"@),
            plain("tau_slew"@, "0.0"@, "Torque slew limit [Nm/cycle] (0=off)"@),
        ],
        Command::ZeroPair => seq![
            chosen(
                "lead_kind"@,
                "rs05"@,
                "Leader motor kind"@,
                MOTOR_KIND_CHOICES@,
            ),
            plain("lead_id"@, "10"@, "Leader CAN ID"@),
            chosen(
                "foll_kind"@,
                "rs05"@,
                "Follower motor kind"@,
                MOTOR_KIND_CHOICES@,
            ),
            plain("foll_id"@, "1"@, "Follower CAN ID"@),
        ],
        Command::AssistTest => seq![
            chosen(
                "motor_kind"@,
                "rs05"@,
                "Motor kind"@,
                MOTOR_KIND_CHOICES@,
            ),
            plain("motor_id"@, "10"@, "Motor CAN ID to test"@),
            plain("assist_kd"@, "0.0"@, "Motor-internal kd assist [Nm·s/rad] (0=off)"@),
            plain("vel_ahead"@, "2.0"@, "Vel ref lookahead (1=off, 2-3 typ)"@),
            plain("max_assist"@, "0.05"@, "Max assist torque [Nm] (safety limit)"@),
            plain("coulomb"@, "0.0"@, "Coulomb friction comp [Nm] (0=off)"@),
            plain("viscous"@, "0.0"@, "Viscous friction comp [Nm·s/rad] (0=off)"@),
            plain("inertia"@, "0.005"@, "Motor inertia [kg·m²]"@),
            plain("iner_comp"@, "0.0"@, "Inertia FF comp ratio [0-1] (0=off)"@),
            plain("acc_cut"@, "50.0"@, "Accel LPF cutoff [rad/s]"@),
        ],
        _ => seq![],
    }
}

/// The parameters of a command, at their default values.
pub fn params_for_command(command: Command) -> (fields: Vec<ParamField>)
    ensures
        field_specs(fields@) == command_fields(command),
{
    let fields: Vec<ParamField> = match command {
        Command::Scan => vec![
            ParamField::new("from", "1", "Start ID [1-254]"),
            ParamField::new("to", "127", "End ID [1-254]"),
            ParamField::with_choices(
                "vendor",
                "rs",
                "Vendor to probe (rs=Robstride, dm=DAMIAO, both)",
                "rs|dm|both",
            ),
        ],
        Command::ReadParam => vec![
            ParamField::with_choices(
                "param",
                "mech_pos",
                "Parameter name",
                "mech_pos|mech_vel|iq_filt|vbus|limit_torque|limit_spd|limit_cur|run_mode|loc_kp|spd_kp|spd_ki",
            ),
        ],
        Command::WriteParam => vec![
            ParamField::with_choices(
                "param",
                "limit_spd",
                "Parameter name",
                "limit_torque|limit_spd|limit_cur|loc_kp|spd_kp|spd_ki",
            ),
            ParamField::new("value", "10.0", "Float value to write"),
        ],
        Command::SetRunMode => vec![
            ParamField::with_choices(
                "mode",
                "mit",
                "Motor run mode",
                "mit|position|velocity|torque",
            ),
        ],
        Command::MoveTo => vec![
            ParamField::new("position", "0.0", "Target position [rad]"),
            ParamField::new("speed", "5.0", "Speed limit [rad/s]"),
        ],
        Command::Spin => vec![
            ParamField::new("velocity", "1.0", "Target velocity [rad/s]"),
        ],
        Command::Torque => vec![
            ParamField::new("torque", "0.0", "Target torque [Nm]"),
        ],
        Command::MitControl => vec![
            ParamField::new("pos", "0.0", "Position ref [rad]"),
            ParamField::new("vel", "0.0", "Velocity ref [rad/s]"),
            ParamField::new("kp", "10.0", "Proportional gain"),
            ParamField::new("kd", "0.5", "Derivative gain"),
            ParamField::new("torque", "0.0", "Torque FF [Nm]"),
        ],
        Command::Bilateral => vec![
            ParamField::with_choices(
                "lead_kind",
                "rs05",
                "Leader motor kind",
                MOTOR_KIND_CHOICES,
            ),
            ParamField::new("lead_id", "10", "Leader CAN ID"),
            ParamField::with_choices(
                "lead_inv",
                "0",
                "Leader polarity flip (1 to invert sign)",
                "0|1",
            ),
            ParamField::with_choices(
                "foll_kind",
                "rs05",
                "Follower motor kind",
                MOTOR_KIND_CHOICES,
            ),
            ParamField::new("foll_id", "1", "Follower CAN ID"),
            ParamField::with_choices(
                "foll_inv",
                "0",
                "Follower polarity flip (1 to invert sign)",
                "0|1",
            ),
            ParamField::with_choices(
                "method",
                "coupling",
                "Control method",
                "pos|force|coupling|mode|ondemand|ondemand_emu|coupling_mit",
            ),
            ParamField::new("kp", "5.0", "Spring stiffness [Nm/rad]"),
            ParamField::new("kd", "0.3", "Damping [Nm·s/rad]"),
            ParamField::new("coulomb", "0.05", "Coulomb friction comp [Nm]"),
            ParamField::new("viscous", "0.01", "Viscous friction comp [Nm·s/rad]"),
            ParamField::new("force_sc", "0.5", "Force refl scale (force/ondemand)"),
            ParamField::new("inertia", "0.005", "Motor inertia [kg·m²]"),
            ParamField::new("dob_cut", "100.0", "DOB cutoff [rad/s] (mode method)"),
            ParamField::new("iner_comp", "0.0", "Leader inertia FF comp [0-1]"),
            ParamField::new("acc_cut", "50.0", "Accel LPF cutoff [rad/s]"),
            ParamField::new("assist_kd", "0.0", "Leader motor-internal kd assist (0=off; CAUTION: low-friction motors)"),
            ParamField::new("vel_ahead", "2.0", "Vel ref lookahead (1=off, 2-3 typ)"),
            ParamField::new("max_assist", "0.05", "Max assist torque [Nm] (safety limit)"),
            ParamField::new("f_thresh", "0.3", "Force threshold [Nm] (ondemand mode)"),
            ParamField::with_choices(
                "open_sign",
                "0",
                "Opening dir (ondemand: 0=off, +1/-1)",
                "-1|0|+1",
            ),
            ParamField::new("safety_rad", "3.14", "Disable both motors if |pos|>this [rad] (0=off)"),
            ParamField::new("safety_jump", "0.5", "Disable if Δpos/cycle > this [rad] (0=off)"),
            ParamField::new("vel_cut", "0.0", "Velocity LPF cutoff [rad/s] for kd (0=raw motor vel, recommended for DAMIAO)"),
            ParamField::new("tau_slew", "0.0", "Torque slew limit [Nm/cycle] (0=off)"),
        ],
        Command::ZeroPair => vec![
            ParamField::with_choices(
                "lead_kind",
                "rs05",
                "Leader motor kind",
                MOTOR_KIND_CHOICES,
            ),
            ParamField::new("lead_id", "10", "Leader CAN ID"),
            ParamField::with_choices(
                "foll_kind",
                "rs05",
                "Follower motor kind",
                MOTOR_KIND_CHOICES,
            ),
            ParamField::new("foll_id", "1", "Follower CAN ID"),
        ],
        Command::AssistTest => vec![
            ParamField::with_choices(
                "motor_kind",
                "rs05",
                "Motor kind",
                MOTOR_KIND_CHOICES,
            ),
            ParamField::new("motor_id", "10", "Motor CAN ID to test"),
            ParamField::new("assist_kd", "0.0", "Motor-internal kd assist [Nm·s/rad] (0=off)"),
            ParamField::new("vel_ahead", "2.0", "Vel ref lookahead (1=off, 2-3 typ)"),
            ParamField::new("max_assist", "0.05", "Max assist torque [Nm] (safety limit)"),
            ParamField::new("coulomb", "0.0", "Coulomb friction comp [Nm] (0=off)"),
            ParamField::new("viscous", "0.0", "Viscous friction comp [Nm·s/rad] (0=off)"),
            ParamField::new("inertia", "0.005", "Motor inertia [kg·m²]"),
            ParamField::new("iner_comp", "0.0", "Inertia FF comp ratio [0-1] (0=off)"),
            ParamField::new("acc_cut", "50.0", "Accel LPF cutoff [rad/s]"),
        ],
        _ => Vec::new(),
    };
    assert(field_specs(fields@) =~= command_fields(command));
    fields
}

/// The parameters of each command by name, with the values that they begin with.
pub proof fn law_first_values(command: Command)
    ensures
        command_fields(command).map_values(|f: FieldSpec| (f.name, f.value)) == (match command {
            Command::Scan => seq![
                ("from"@, "1"@),
                ("to"@, "127"@),
                ("vendor"@, "rs"@),
            ],
            Command::ReadParam => seq![("param"@, "mech_pos"@)],
            Command::WriteParam => seq![
                ("param"@, "limit_spd"@),
                ("value"@, "10.0"@),
            ],
            Command::SetRunMode => seq![("mode"@, "mit"@)],
            Command::MoveTo => seq![
                ("position"@, "0.0"@),
                ("speed"@, "5.0"@),
            ],
            Command::Spin => seq![("velocity"@, "1.0"@)],
            Command::Torque => seq![("torque"@, "0.0"@)],
            Command::MitControl => seq![
                ("pos"@, "0.0"@),
                ("vel"@, "0.0"@),
                ("kp"@, "10.0"@),
                ("kd"@, "0.5"@),
                ("torque"@, "0.0"@),
            ],
            Command::Bilateral => seq![
                ("lead_kind"@, "rs05"@),
                ("lead_id"@, "10"@),
                ("lead_inv"@, "0"@),
                ("foll_kind"@, "rs05"@),
                ("foll_id"@, "1"@),
                ("foll_inv"@, "0"@),
                ("method"@, "coupling"@),
                ("kp"@, "5.0"@),
                ("kd"@, "0.3"@),
                ("coulomb"@, "0.05"@),
                ("viscous"@, "0.01"@),
                ("force_sc"@, "0.5"@),
                ("inertia"@, "0.005"@),
                ("dob_cut"@, "100.0"@),
                ("iner_comp"@, "0.0"@),
                ("acc_cut"@, "50.0"@),
                ("assist_kd"@, "0.0"@),
                ("vel_ahead"@, "2.0"@),
                ("max_assist"@, "0.05"@),
                ("f_thresh"@, "0.3"@),
                ("open_sign"@, "0"@),
                ("safety_rad"@, "3.14"@),
                ("safety_jump"@, "0.5"@),
                ("vel_cut"@, "0.0"@),
                ("tau_slew"@, "0.0"@),
            ],
            Command::ZeroPair => seq![
                ("lead_kind"@, "rs05"@),
                ("lead_id"@, "10"@),
                ("foll_kind"@, "rs05"@),
                ("foll_id"@, "1"@),
            ],
            Command::AssistTest => seq![
                ("motor_kind"@, "rs05"@),
                ("motor_id"@, "10"@),
                ("assist_kd"@, "0.0"@),
                ("vel_ahead"@, "2.0"@),
                ("max_assist"@, "0.05"@),
                ("coulomb"@, "0.0"@),
                ("viscous"@, "0.0"@),
                ("inertia"@, "0.005"@),
                ("iner_comp"@, "0.0"@),
                ("acc_cut"@, "50.0"@),
            ],
            _ => seq![],
        }),
{
    let pairs = command_fields(command).map_values(|f: FieldSpec| (f.name, f.value));
    assert(pairs.len() == command_fields(command).len());
}

/// A parameter begins with its default value.
pub proof fn law_begins_with_default(command: Command, i: int)
    requires
        0 <= i < command_fields(command).len(),
    ensures
        command_fields(command)[i].value == command_fields(command)[i].default,
{
}

/// What can be chosen: a motor kind for a leader, a follower and the motor of a test, a sign
/// switch for a flip of polarity, and the vendors, run modes, methods and opening directions
/// where these are asked for. Parameters with numbers have no choices.
pub proof fn law_choices_offered(command: Command, i: int)
    requires
        0 <= i < command_fields(command).len(),
        command != Command::ReadParam,
        command != Command::WriteParam,
    ensures
        command_fields(command)[i].choices == (match command {
            Command::Scan => if i == 2 {
                Some("rs|dm|both"@)
            } else {
                None
            },
            Command::SetRunMode => Some("mit|position|velocity|torque"@),
            Command::Bilateral => if i == 0 || i == 3 {
                Some(MOTOR_KIND_CHOICES@)
            } else if i == 2 || i == 5 {
                Some("0|1"@)
            } else if i == 6 {
                Some("pos|force|coupling|mode|ondemand|ondemand_emu|coupling_mit"@)
            } else if i == 20 {
                Some("-1|0|+1"@)
            } else {
                None
            },
            Command::ZeroPair => if i == 0 || i == 2 {
                Some(MOTOR_KIND_CHOICES@)
            } else {
                None
            },
            Command::AssistTest => if i == 0 {
                Some(MOTOR_KIND_CHOICES@)
            } else {
                None
            },
            _ => None,
        }),
        MOTOR_KIND_CHOICES@ == "rs00|rs01|rs02|rs03|rs04|rs05|rs06|dm4310"@,
{
}

} // verus!
