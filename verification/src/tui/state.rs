//! The state of the application, and what keys do to it.

use std::collections::HashMap;

use vstd::prelude::*;

use crate::driver::MotorSpec;
use crate::protocol::{MotorFeedback, MotorModel};
use crate::text::{join, same_text};
use crate::tui::config::AppConfig;
use crate::tui::fields::{params_for_command, Command, FieldSpec, ParamField};

verus! {

// ---------------------------------------------------------------------------
// Model
// ---------------------------------------------------------------------------

/// A motor in the list.
#[derive(Debug)]
pub struct MotorEntry {
    /// Vendor, ID and model
    pub motor: MotorSpec,
    pub enabled: bool,
    pub feedback: Option<MotorFeedback>,
    /// What the motor answered when it was found
    pub uuid: Option<Vec<u8>>,
    /// Why its status could not be read
    pub error: Option<String>,
}

/// A motor in the list, in mathematical terms.
#[verifier::ext_equal]
pub struct EntrySpec {
    pub motor: MotorSpec,
    pub enabled: bool,
    pub feedback: Option<MotorFeedback>,
    pub uuid: Option<Seq<u8>>,
    pub error: Option<Seq<char>>,
}

impl View for MotorEntry {
    type V = EntrySpec;

    open spec fn view(&self) -> EntrySpec {
        EntrySpec {
            motor: self.motor,
            enabled: self.enabled,
            feedback: self.feedback,
            uuid: match self.uuid {
                Some(data) => Some(data@),
                None => None,
            },
            error: match self.error {
                Some(text) => Some(text@),
                None => None,
            },
        }
    }
}

/// A list of motors in mathematical terms.
pub open spec fn entry_specs(motors: Seq<MotorEntry>) -> Seq<EntrySpec> {
    motors.map_values(|m: MotorEntry| m@)
}

/// Which panel has the focus.
#[derive(Debug, Clone, Copy, PartialEq, Eq, Structural)]
pub enum Focus {
    Motors,
    Commands,
    Params,
    Input,
}

/// The key that was pressed.
#[derive(Debug, Clone, Copy, PartialEq, Eq, Structural)]
pub enum KeyCode {
    Char(char),
    Enter,
    Esc,
    Backspace,
    Tab,
    BackTab,
    Up,
    Down,
    Left,
    Right,
    Other,
}

/// A key press.
#[derive(Debug, Clone, Copy, PartialEq, Eq, Structural)]
pub struct Key {
    pub code: KeyCode,
    /// Whether the control key was held.
    pub control: bool,
}

/// What is to be done after a key press.
#[derive(Debug)]
pub enum Effect {
    Nothing,
    /// Keep the configuration on disk.
    Save,
    /// Stop bilateral control.
    StopBilateral,
    /// Run a command on a line of input.
    Run(Command, String),
}

/// What is to be done after a key press, in mathematical terms.
pub enum EffectSpec {
    Nothing,
    Save,
    StopBilateral,
    Run(Command, Seq<char>),
}

impl View for Effect {
    type V = EffectSpec;

    open spec fn view(&self) -> EffectSpec {
        match self {
            Effect::Nothing => EffectSpec::Nothing,
            Effect::Save => EffectSpec::Save,
            Effect::StopBilateral => EffectSpec::StopBilateral,
            Effect::Run(command, input) => EffectSpec::Run(*command, input@),
        }
    }
}

/// The state of the application.
#[derive(Debug)]
pub struct App {
    /// CAN interface name
    pub interface: String,
    /// Host ID for new motors
    pub host_id: u8,
    /// Model of new motors
    pub default_model: MotorModel,
    /// Whether the bus is used with CAN FD frames
    pub fd: bool,
    /// The motors found so far, by ID
    pub motors: Vec<MotorEntry>,
    /// Selected place in the list of motors
    pub selected_motor: usize,
    /// Which panel has the focus
    pub focus: Focus,
    /// Selected place in the list of commands
    pub selected_cmd: usize,
    /// Log messages
    pub log: Vec<String>,
    /// Log message that is scrolled to
    pub log_scroll: u16,
    /// Line of input, when one is asked for
    pub input_buf: String,
    /// Whether a line of input is asked for
    pub input_mode: bool,
    /// The command that the line is for
    pub pending_cmd: Option<Command>,
    /// Whether the application is to end
    pub quit: bool,
    /// IDs scanned so far, and IDs to scan
    pub scan_progress: (usize, usize),
    /// Whether a scan is running
    pub scanning: bool,
    /// Whether bilateral control is running
    pub bilateral: bool,
    /// Parameters of the selected command
    pub params: Vec<ParamField>,
    /// Selected place in the list of parameters
    pub selected_param: usize,
    /// Whether the selected parameter is being edited
    pub editing_param: bool,
    /// The value being edited
    pub param_edit_buf: String,
    /// Saved values
    pub config: AppConfig,
    /// Zero offsets of motors, by their keys, as float bits. Never written to a motor or to
    /// disk.
    pub soft_zero_offsets: HashMap<u16, u64>,
    /// The IDs of a DAMIAO scan that is to follow the running scan
    pub dm_scan_after: Option<(u8, u8)>,
}

/// The state of the application in mathematical terms.
#[verifier::ext_equal]
pub struct AppSpec {
    pub interface: Seq<char>,
    pub host_id: u8,
    pub default_model: MotorModel,
    pub fd: bool,
    pub motors: Seq<EntrySpec>,
    pub selected_motor: int,
    pub focus: Focus,
    pub selected_cmd: int,
    pub log: Seq<Seq<char>>,
    pub log_scroll: int,
    pub input_buf: Seq<char>,
    pub input_mode: bool,
    pub pending_cmd: Option<Command>,
    pub quit: bool,
    pub scan_progress: (usize, usize),
    pub scanning: bool,
    pub bilateral: bool,
    pub params: Seq<FieldSpec>,
    pub selected_param: int,
    pub editing_param: bool,
    pub param_edit_buf: Seq<char>,
    pub config: Map<(Seq<char>, Seq<char>), Seq<char>>,
    pub soft_zero_offsets: Map<u16, u64>,
    pub dm_scan_after: Option<(u8, u8)>,
}

impl View for App {
    type V = AppSpec;

    open spec fn view(&self) -> AppSpec {
        AppSpec {
            interface: self.interface@,
            host_id: self.host_id,
            default_model: self.default_model,
            fd: self.fd,
            motors: entry_specs(self.motors@),
            selected_motor: self.selected_motor as int,
            focus: self.focus,
            selected_cmd: self.selected_cmd as int,
            log: crate::text::texts(self.log@),
            log_scroll: self.log_scroll as int,
            input_buf: self.input_buf@,
            input_mode: self.input_mode,
            pending_cmd: self.pending_cmd,
            quit: self.quit,
            scan_progress: self.scan_progress,
            scanning: self.scanning,
            bilateral: self.bilateral,
            params: crate::tui::fields::field_specs(self.params@),
            selected_param: self.selected_param as int,
            editing_param: self.editing_param,
            param_edit_buf: self.param_edit_buf@,
            config: self.config@,
            soft_zero_offsets: self.soft_zero_offsets@,
            dm_scan_after: self.dm_scan_after,
        }
    }
}

/// The most log messages that are kept.
pub const LOG_MAX: usize = 500;

/// Whether two parameters are the same but for their values.
pub open spec fn same_field(
    a: FieldSpec,
    b: FieldSpec,
) -> bool {
    a.name == b.name && a.default == b.default && a.desc == b.desc && a.choices == b.choices
}

impl AppSpec {
    /// The selected command.
    pub open spec fn command(self) -> Command {
        Command::list()[self.selected_cmd]
    }

    /// Whether motors are in the order of their IDs.
    pub open spec fn in_order(self) -> bool {
        forall|i: int, j: int|
            0 <= i < j < self.motors.len() ==> (#[trigger] self.motors[i]).motor.id() <= (
            #[trigger] self.motors[j]).motor.id()
    }

    /// What always holds: a selection is a place in its list, the parameters shown are those
    /// of the selected command, the panel of parameters has the focus only if there are some
    /// and only then is one of them edited, motors are in the order of their IDs, and the log
    /// is neither empty nor too long.
    pub open spec fn valid(self) -> bool {
        &&& 0 <= self.selected_cmd < Command::list().len()
        &&& 0 <= self.selected_motor && (self.selected_motor == 0 || self.selected_motor
            < self.motors.len())
        &&& 0 <= self.selected_param && (self.selected_param == 0 || self.selected_param
            < self.params.len())
        &&& self.params.len() == crate::tui::fields::command_fields(self.command()).len()
        &&& forall|i: int|
            0 <= i < self.params.len() ==> same_field(
                #[trigger] self.params[i],
                crate::tui::fields::command_fields(self.command())[i],
            )
        &&& self.focus == Focus::Params ==> self.params.len() > 0
        &&& self.editing_param ==> self.focus == Focus::Params
        &&& self.in_order()
        &&& 0 < self.log.len() <= LOG_MAX
        &&& 0 <= self.log_scroll < self.log.len()
    }
}

// ---------------------------------------------------------------------------
// Parameters of the selected command
// ---------------------------------------------------------------------------

/// The value of the first parameter with a given name.
pub open spec fn value_of(
    params: Seq<FieldSpec>,
    name: Seq<char>,
) -> Option<Seq<char>>
    decreases params.len(),
{
    if params.len() == 0 {
        None
    } else if params[0].name == name {
        Some(params[0].value)
    } else {
        value_of(params.drop_first(), name)
    }
}

/// A parameter that keeps the value of one with the same name.
pub open spec fn kept_field(
    field: FieldSpec,
    earlier: Seq<FieldSpec>,
) -> FieldSpec {
    match value_of(earlier, field.name) {
        Some(value) => FieldSpec { value, ..field },
        None => field,
    }
}

/// A parameter with its saved value, if there is one.
pub open spec fn saved_field(
    field: FieldSpec,
    label: Seq<char>,
    config: Map<(Seq<char>, Seq<char>), Seq<char>>,
) -> FieldSpec {
    if config.contains_key((label, field.name)) {
        FieldSpec { value: config[(label, field.name)], ..field }
    } else {
        field
    }
}

/// Parameters with their saved values.
pub open spec fn with_saved(
    params: Seq<FieldSpec>,
    label: Seq<char>,
    config: Map<(Seq<char>, Seq<char>), Seq<char>>,
) -> Seq<FieldSpec> {
    params.map_values(|f: FieldSpec| saved_field(f, label, config))
}

/// The parameters of a command: saved values first, then what other parameters of the same
/// name hold, then the defaults.
pub open spec fn synced_params(
    command: Command,
    earlier: Seq<FieldSpec>,
    config: Map<(Seq<char>, Seq<char>), Seq<char>>,
) -> Seq<FieldSpec> {
    with_saved(
        crate::tui::fields::command_fields(command).map_values(
            |f: FieldSpec| kept_field(f, earlier),
        ),
        command.spec_label(),
        config,
    )
}

/// A configuration with the values of all parameters saved.
pub open spec fn params_saved(
    config: Map<(Seq<char>, Seq<char>), Seq<char>>,
    label: Seq<char>,
    params: Seq<FieldSpec>,
) -> Map<(Seq<char>, Seq<char>), Seq<char>>
    decreases params.len(),
{
    if params.len() == 0 {
        config
    } else {
        params_saved(config, label, params.drop_last()).insert(
            (label, params.last().name),
            params.last().value,
        )
    }
}

/// The values of parameters.
pub open spec fn values(params: Seq<FieldSpec>) -> Seq<Seq<char>> {
    params.map_values(|f: FieldSpec| f.value)
}

/// The choice after the one being edited, from the beginning again after the last. Anything
/// that is no choice counts as the first.
pub open spec fn next_choice(choices: Seq<char>, current: Seq<char>) -> Seq<char> {
    let list = crate::text::pieces(choices, '|');
    let at = match list.index_of_first(crate::text::trimmed(current)) {
        Some(i) => i,
        None => 0,
    };
    list[(at + 1) % (list.len() as int)]
}

impl App {
    /// What always holds of the state.
    pub open spec fn valid(self) -> bool {
        self@.valid() && self.config.valid()
    }

    /// The values of the parameters as a line of input.
    pub fn params_as_input(&self) -> (input: String)
        ensures
            input@ == crate::text::joined(values(self@.params), " "@),
    {
        let mut list: Vec<String> = Vec::new();
        let mut i: usize = 0;
        while i < self.params.len()
            invariant
                i <= self.params@.len(),
                crate::text::texts(list@) == values(self@.params).take(i as int),
            decreases self.params@.len() - i,
        {
            let ghost before = crate::text::texts(list@);
            list.push(self.params[i].value.clone());
            assert(crate::text::texts(list@) =~= before.push(self.params@[i as int].value@));
            assert(values(self@.params)[i as int] == self.params@[i as int].value@);
            assert(values(self@.params).take(i + 1) =~= before.push(
                self.params@[i as int].value@,
            ));
            i = i + 1;
        }
        assert(values(self@.params).take(i as int) =~= values(self@.params));
        join(&list, " ")
    }
}

/// The value of the first parameter with a given name.
fn find_value(params: &Vec<ParamField>, name: &str) -> (value: Option<String>)
    ensures
        match value {
            Some(v) => value_of(crate::tui::fields::field_specs(params@), name@) == Some(v@),
            None => value_of(crate::tui::fields::field_specs(params@), name@) is None,
        },
{
    let ghost specs = crate::tui::fields::field_specs(params@);
    let mut i: usize = 0;
    assert(specs.skip(0) =~= specs);
    while i < params.len()
        invariant
            i <= params@.len(),
            specs == crate::tui::fields::field_specs(params@),
            value_of(specs, name@) == value_of(specs.skip(i as int), name@),
        decreases params@.len() - i,
    {
        assert(specs.skip(i as int)[0] == params@[i as int]@);
        if same_text(params[i].name, name) {
            return Some(params[i].value.clone());
        }
        assert(specs.skip(i as int).drop_first() =~= specs.skip(i + 1));
        i = i + 1;
    }
    None
}

/// Puts saved values in the place of the values of parameters.
pub fn apply_config_to_params(
    params: &Vec<ParamField>,
    label: &str,
    config: &AppConfig,
) -> (fields: Vec<ParamField>)
    requires
        config.valid(),
    ensures
        crate::tui::fields::field_specs(fields@) == with_saved(
            crate::tui::fields::field_specs(params@),
            label@,
            config@,
        ),
{
    let ghost specs = crate::tui::fields::field_specs(params@);
    let mut fields: Vec<ParamField> = Vec::new();
    let mut i: usize = 0;
    while i < params.len()
        invariant
            i <= params@.len(),
            config.valid(),
            specs == crate::tui::fields::field_specs(params@),
            crate::tui::fields::field_specs(fields@) == with_saved(specs, label@, config@).take(
                i as int,
            ),
        decreases params@.len() - i,
    {
        let ghost before = crate::tui::fields::field_specs(fields@);
        let mut field = params[i].copy();
        match config.get_param(label, field.name) {
            Some(saved) => {
                field.value = saved.clone();
            },
            None => {},
        }
        let ghost now = saved_field(specs[i as int], label@, config@);
        assert(field@ == now);
        fields.push(field);
        assert(crate::tui::fields::field_specs(fields@) =~= before.push(now));
        assert(with_saved(specs, label@, config@).take(i + 1) =~= before.push(now));
        i = i + 1;
    }
    assert(with_saved(specs, label@, config@).take(i as int) =~= with_saved(
        specs,
        label@,
        config@,
    ));
    fields
}

impl App {
    /// Shows the parameters of the selected command, keeping values by their names and
    /// preferring saved ones.
    pub fn sync_params_to_cmd(&mut self)
        requires
            old(self).config.valid(),
            old(self).selected_cmd < Command::list().len(),
        ensures
            final(self)@ == (AppSpec {
                params: synced_params(
                    old(self)@.command(),
                    old(self)@.params,
                    old(self)@.config,
                ),
                selected_param: 0,
                ..old(self)@
            }),
            final(self).config == old(self).config,
    {
        let command = Command::at(self.selected_cmd);
        let mut merged = params_for_command(command);
        let ghost fresh = crate::tui::fields::command_fields(command);
        let ghost earlier = self@.params;
        let ghost goal = fresh.map_values(|f: FieldSpec| kept_field(f, earlier));
        let mut i: usize = 0;
        while i < merged.len()
            invariant
                i <= merged@.len() == fresh.len(),
                earlier == self@.params,
                goal == fresh.map_values(|f: FieldSpec| kept_field(f, earlier)),
                forall|k: int| 0 <= k < i ==> (#[trigger] merged@[k])@ == goal[k],
                forall|k: int| i <= k < fresh.len() ==> (#[trigger] merged@[k])@ == fresh[k],
            decreases merged@.len() - i,
        {
            let mut field = merged[i].copy();
            match find_value(&self.params, field.name) {
                Some(value) => {
                    field.value = value;
                },
                None => {},
            }
            merged.set(i, field);
            i = i + 1;
        }
        assert(crate::tui::fields::field_specs(merged@) =~= goal);
        self.params = apply_config_to_params(&merged, command.label(), &self.config);
        self.selected_param = 0;
    }

    /// Saves the values of the parameters shown.
    pub fn save_current_params(&mut self)
        requires
            old(self).config.valid(),
            old(self).selected_cmd < Command::list().len(),
        ensures
            final(self)@ == (AppSpec {
                config: params_saved(
                    old(self)@.config,
                    old(self)@.command().spec_label(),
                    old(self)@.params,
                ),
                ..old(self)@
            }),
            final(self).config.valid(),
    {
        let label = Command::at(self.selected_cmd).label();
        let ghost start = self@;
        let mut i: usize = 0;
        assert(start.params.take(0) =~= Seq::<FieldSpec>::empty());
        while i < self.params.len()
            invariant
                i <= self.params@.len(),
                self.config.valid(),
                start.params.len() == self.params@.len(),
                self@ == (AppSpec {
                    config: params_saved(start.config, label@, start.params.take(i as int)),
                    ..start
                }),
            decreases self.params@.len() - i,
        {
            assert(start.params.take(i + 1).drop_last() =~= start.params.take(i as int));
            assert(start.params.take(i + 1).last() == self.params@[i as int]@);
            self.config.set_param(label, self.params[i].name, self.params[i].value.as_str());
            i = i + 1;
        }
        assert(start.params.take(i as int) =~= start.params);
    }
}

} // verus!
