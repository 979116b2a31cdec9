//! The course of a session: its start, scans, bilateral control and the periodic refresh.

use std::collections::HashMap;

use vstd::prelude::*;

use crate::bilateral::BilateralMethod;
use crate::driver::{DamiaoModel, MotorSpec};
use crate::protocol::{MotorFeedback, MotorModel};
use crate::text::{
    decimal_text, hex_str, hex_text, join, padded_text, parse_u8, same_text,
};
use crate::tui::commands::Job;
use crate::tui::config::AppConfig;
use crate::tui::fields::{params_for_command, Command};
use crate::tui::state::{apply_config_to_params, App, AppSpec, EntrySpec, Focus, MotorEntry};

verus! {

// ---------------------------------------------------------------------------
// Start
// ---------------------------------------------------------------------------

/// What the application was started with, in mathematical terms.
pub struct ArgsSpec {
    pub interface: Seq<char>,
    pub host_id: u8,
    pub model: Seq<char>,
}

/// What the application was started with.
#[derive(Debug)]
pub struct TuiArgs {
    pub interface: String,
    pub host_id: u8,
    /// Name of the motor model
    pub model: String,
}

impl View for TuiArgs {
    type V = ArgsSpec;

    open spec fn view(&self) -> ArgsSpec {
        ArgsSpec { interface: self.interface@, host_id: self.host_id, model: self.model@ }
    }
}

/// The arguments from the `i`th on, or nothing if help is asked for. An option takes the next
/// argument if there is one; what is unknown is passed over.
pub open spec fn args_from(args: Seq<Seq<char>>, i: int, so_far: ArgsSpec) -> Option<ArgsSpec>
    decreases args.len() - i,
{
    if i >= args.len() {
        Some(so_far)
    } else if args[i] == "-h"@ || args[i] == "--help"@ {
        None
    } else if i + 1 < args.len() && (args[i] == "-i"@ || args[i] == "--interface"@) {
        args_from(args, i + 2, ArgsSpec { interface: args[i + 1], ..so_far })
    } else if i + 1 < args.len() && args[i] == "--host-id"@ {
        args_from(
            args,
            i + 2,
            ArgsSpec { host_id: crate::tui::commands::id_or(args[i + 1], 0xFD), ..so_far },
        )
    } else if i + 1 < args.len() && args[i] == "--model"@ {
        args_from(args, i + 2, ArgsSpec { model: args[i + 1], ..so_far })
    } else {
        args_from(args, i + 1, so_far)
    }
}

/// Reads the arguments of the program, of which the first is its name. Nothing comes back if
/// help is asked for.
pub fn parse_args(args: &Vec<String>) -> (parsed: Option<TuiArgs>)
    ensures
        ({
            let start = ArgsSpec { interface: "can0"@, host_id: 0xFD, model: "rs-05"@ };
            match parsed {
                Some(a) => args_from(crate::text::texts(args@), 1, start) == Some(a@),
                None => args_from(crate::text::texts(args@), 1, start) is None,
            }
        }),
{
    let ghost specs = crate::text::texts(args@);
    let ghost goal = args_from(
        specs,
        1,
        ArgsSpec { interface: "can0"@, host_id: 0xFD, model: "rs-05"@ },
    );
    let mut parsed = TuiArgs {
        interface: "can0".to_owned(),
        host_id: 0xFD,
        model: "rs-05".to_owned(),
    };
    let mut i: usize = 1;
    while i < args.len()
        invariant
            specs == crate::text::texts(args@),
            specs.len() == args@.len(),
            1 <= i,
            args_from(specs, i as int, parsed@) == goal,
            goal == args_from(
                specs,
                1,
                ArgsSpec { interface: "can0"@, host_id: 0xFD, model: "rs-05"@ },
            ),
        decreases args@.len() - i,
    {
        let arg = args[i].as_str();
        assert(specs[i as int] == arg@);
        if same_text(arg, "-h") || same_text(arg, "--help") {
            return None;
        }
        assert(args@.len() == args.len());
        let more = i < args.len() - 1;
        if more {
            assert(specs[i + 1] == args@[i + 1]@);
        }
        if more && (same_text(arg, "-i") || same_text(arg, "--interface")) {
            parsed.interface = args[i + 1].clone();
            i = i + 1;
        } else if more && same_text(arg, "--host-id") {
            parsed.host_id = match parse_u8(args[i + 1].as_str()) {
                Some(id) => id,
                None => 0xFD,
            };
            i = i + 1;
        } else if more && same_text(arg, "--model") {
            parsed.model = args[i + 1].clone();
            i = i + 1;
        }
        i = i + 1;
    }
    Some(parsed)
}

/// The lines that help consists of.
pub fn help_lines() -> (lines: Vec<String>)
    ensures
        crate::text::texts(lines@) == seq![
            "Usage: robstride_tui [-i can0] [--host-id 253] [--model rs-05]"@,
            ""@,
            "TUI Controls:"@,
            "  Tab        Switch panel (Motors / Commands)"@,
            "  Up/Down    Navigate list"@,
            "  Enter      Execute command / Read status"@,
            "  Esc        Cancel input"@,
            "  q / Ctrl-C Quit"@,
        ],
{
    let lines = vec![
        "Usage: robstride_tui [-i can0] [--host-id 253] [--model rs-05]".to_owned(),
        "".to_owned(),
        "TUI Controls:".to_owned(),
        "  Tab        Switch panel (Motors / Commands)".to_owned(),
        "  Up/Down    Navigate list".to_owned(),
        "  Enter      Execute command / Read status".to_owned(),
        "  Esc        Cancel input".to_owned(),
        "  q / Ctrl-C Quit".to_owned(),
    ];
    assert(crate::text::texts(lines@) =~= seq![
        "Usage: robstride_tui [-i can0] [--host-id 253] [--model rs-05]"@,
        ""@,
        "TUI Controls:"@,
        "  Tab        Switch panel (Motors / Commands)"@,
        "  Up/Down    Navigate list"@,
        "  Enter      Execute command / Read status"@,
        "  Esc        Cancel input"@,
        "  q / Ctrl-C Quit"@,
    ]);
    lines
}

/// The state that a session starts in.
pub open spec fn initial(
    interface: Seq<char>,
    host_id: u8,
    model: MotorModel,
    config: Map<(Seq<char>, Seq<char>), Seq<char>>,
) -> AppSpec {
    AppSpec {
        interface,
        host_id,
        default_model: model,
        fd: false,
        motors: Seq::empty(),
        selected_motor: 0,
        focus: Focus::Commands,
        selected_cmd: 0,
        log: seq!["Robstride TUI started. Press Tab to switch panels."@],
        log_scroll: 0,
        input_buf: Seq::empty(),
        input_mode: false,
        pending_cmd: None,
        quit: false,
        scan_progress: (0, 0),
        scanning: false,
        bilateral: false,
        params: crate::tui::state::with_saved(
            crate::tui::fields::command_fields(Command::Scan),
            Command::Scan.spec_label(),
            config,
        ),
        selected_param: 0,
        editing_param: false,
        param_edit_buf: Seq::empty(),
        config,
        soft_zero_offsets: Map::empty(),
        dm_scan_after: None,
    }
}

impl App {
    /// The state that a session starts in, with the saved values it goes by.
    pub fn new(interface: &str, host_id: u8, model: MotorModel, config: AppConfig) -> (app: App)
        requires
            config.valid(),
        ensures
            app.valid(),
            app@ == initial(interface@, host_id, model, config@),
    {
        broadcast use vstd::std_specs::hash::group_hash_axioms;

        let fresh = params_for_command(Command::Scan);
        let params = apply_config_to_params(&fresh, Command::Scan.label(), &config);
        let app = App {
            interface: interface.to_owned(),
            host_id,
            default_model: model,
            fd: false,
            motors: Vec::new(),
            selected_motor: 0,
            focus: Focus::Commands,
            selected_cmd: 0,
            log: vec!["Robstride TUI started. Press Tab to switch panels.".to_owned()],
            log_scroll: 0,
            input_buf: String::new(),
            input_mode: false,
            pending_cmd: None,
            quit: false,
            scan_progress: (0, 0),
            scanning: false,
            bilateral: false,
            params,
            selected_param: 0,
            editing_param: false,
            param_edit_buf: String::new(),
            config,
            soft_zero_offsets: HashMap::new(),
            dm_scan_after: None,
        };
        proof {
            let goal = initial(interface@, host_id, model, config@);
            assert(app@.motors =~= goal.motors);
            assert(app@.log =~= goal.log);
            assert(app@.soft_zero_offsets =~= goal.soft_zero_offsets);
            assert(app@.input_buf =~= goal.input_buf);
            assert(app@.param_edit_buf =~= goal.param_edit_buf);
        }
        app
    }

    /// Whether bilateral control is running.
    pub fn bilateral_active(&self) -> (active: bool)
        ensures
            active == self@.bilateral,
    {
        self.bilateral
    }
}

/// The time of day from the seconds since the epoch and the milliseconds of the second.
pub fn chrono_like_timestamp(secs: u64, millis: u64) -> (text: String)
    requires
        millis < 1000,
    ensures
        ({
            let day = secs % 86400;
            text@ == crate::text::padded((day / 3600) as nat, 10, 2) + ":"@ + crate::text::padded(
                (day % 3600 / 60) as nat,
                10,
                2,
            ) + ":"@ + crate::text::padded((day % 60) as nat, 10, 2) + "."@
                + crate::text::padded(millis as nat, 10, 3)
        }),
{
    let day: u64 = secs % 86400;
    padded_text(day / 3600, 10, 2).concat(":").concat(
        padded_text(day % 3600 / 60, 10, 2).as_str(),
    ).concat(":").concat(padded_text(day % 60, 10, 2).as_str()).concat(".").concat(
        padded_text(millis, 10, 3).as_str(),
    )
}

// ---------------------------------------------------------------------------
// Scans
// ---------------------------------------------------------------------------

/// The payload of an answer as it is shown in the log.
pub open spec fn data_text(data: Option<Seq<u8>>) -> Seq<char> {
    match data {
        Some(bytes) => "Some(\""@ + crate::text::hex_list(bytes) + "\")"@,
        None => "None"@,
    }
}

/// Whether no motor is listed twice.
pub open spec fn listed_once(motors: Seq<EntrySpec>) -> bool {
    forall|i: int, j: int|
        0 <= i < j < motors.len() ==> (#[trigger] motors[i]).motor.spec_key() != (
        #[trigger] motors[j]).motor.spec_key()
}

impl AppSpec {
    /// A Robstride motor has answered a scan. It is listed unless it is listed already; a
    /// DAMIAO motor with the same ID is another one.
    pub open spec fn motor_found(
        self,
        id: u8,
        data: Option<Seq<u8>>,
        stamp: Seq<char>,
    ) -> AppSpec {
        let motor = MotorSpec::robstride_motor(self.host_id, id, self.default_model);
        if crate::tui::outcomes::is_listed(self.motors, motor) {
            self
        } else {
            let told = self.logged(
                stamp,
                "  Motor ID="@ + crate::text::decimal(id as nat) + " discovered (data="@
                    + data_text(data) + ")"@,
            );
            AppSpec {
                motors: crate::tui::outcomes::inserted(
                    told.motors,
                    crate::tui::outcomes::new_entry(motor, data),
                ),
                ..told
            }
        }
    }

    /// Motors have answered a scan.
    pub open spec fn motors_found(
        self,
        found: Seq<(u8, Option<Seq<u8>>)>,
        stamp: Seq<char>,
    ) -> AppSpec
        decreases found.len(),
    {
        if found.len() == 0 {
            self
        } else {
            self.motors_found(found.drop_last(), stamp).motor_found(
                found.last().0,
                found.last().1,
                stamp,
            )
        }
    }

    /// A scan for Robstride motors is complete. A DAMIAO scan that was to follow it follows.
    pub open spec fn scan_done(
        self,
        found: Seq<(u8, Option<Seq<u8>>)>,
        stamp: Seq<char>,
    ) -> (AppSpec, Job) {
        let reset = AppSpec { scan_progress: (0, 0), scanning: false, ..self };
        let told = if found.len() == 0 {
            reset.logged(stamp, "No motors found."@)
        } else {
            reset.logged(
                stamp,
                "Found "@ + crate::text::decimal(found.len()) + " motor(s)."@,
            ).motors_found(found, stamp)
        };
        match self.dm_scan_after {
            Some((from, to)) => (
                (AppSpec { dm_scan_after: None, ..told }).damiao_scan(from, to, stamp),
                Job::ScanDamiao { from, to },
            ),
            None => (told, Job::Nothing),
        }
    }

    /// A DAMIAO motor has answered a scan.
    pub open spec fn damiao_found(self, id: u8) -> AppSpec {
        let motor = MotorSpec::damiao_motor(id, 0, DamiaoModel::DmJ4310);
        if crate::tui::outcomes::is_listed(self.motors, motor) {
            self
        } else {
            AppSpec {
                motors: crate::tui::outcomes::inserted(
                    self.motors,
                    crate::tui::outcomes::new_entry(motor, None),
                ),
                ..self
            }
        }
    }

    /// DAMIAO motors have answered a scan.
    pub open spec fn damiaos_found(self, ids: Seq<u8>) -> AppSpec
        decreases ids.len(),
    {
        if ids.len() == 0 {
            self
        } else {
            self.damiaos_found(ids.drop_last()).damiao_found(ids.last())
        }
    }
}

/// A DAMIAO motor in the log: its ID in decimal and in hexadecimal.
pub open spec fn damiao_text(id: u8) -> Seq<char> {
    crate::text::decimal(id as nat) + " (0x"@ + crate::text::hex(id as nat, 2) + ")"@
}

/// What is in a list with one more motor.
proof fn lemma_inserted_elements(motors: Seq<EntrySpec>, entry: EntrySpec)
    ensures
        forall|i: int|
            0 <= i < crate::tui::outcomes::inserted(motors, entry).len() ==> {
                let e = #[trigger] crate::tui::outcomes::inserted(motors, entry)[i];
                e == entry || motors.contains(e)
            },
    decreases motors.len(),
{
    let after = crate::tui::outcomes::inserted(motors, entry);
    if motors.len() == 0 || motors.last().motor.id() <= entry.motor.id() {
        assert forall|i: int| 0 <= i < after.len() implies {
            let e = #[trigger] after[i];
            e == entry || motors.contains(e)
        } by {
            if i < motors.len() {
                assert(after[i] == motors[i]);
            }
        }
    } else {
        let before = motors.drop_last();
        lemma_inserted_elements(before, entry);
        let rest = crate::tui::outcomes::inserted(before, entry);
        assert forall|i: int| 0 <= i < after.len() implies {
            let e = #[trigger] after[i];
            e == entry || motors.contains(e)
        } by {
            if i < rest.len() {
                assert(after[i] == rest[i]);
                if rest[i] != entry {
                    let k = choose|k: int| 0 <= k < before.len() && before[k] == rest[i];
                    assert(motors[k] == rest[i]);
                }
            } else {
                assert(motors[motors.len() - 1] == after[i]);
            }
        }
    }
}

proof fn lemma_inserted_once(motors: Seq<EntrySpec>, entry: EntrySpec)
    requires
        listed_once(motors),
        !crate::tui::outcomes::is_listed(motors, entry.motor),
    ensures
        listed_once(crate::tui::outcomes::inserted(motors, entry)),
    decreases motors.len(),
{
    let after = crate::tui::outcomes::inserted(motors, entry);
    if motors.len() == 0 || motors.last().motor.id() <= entry.motor.id() {
        assert forall|i: int, j: int| 0 <= i < j < after.len() implies (
        #[trigger] after[i]).motor.spec_key() != (#[trigger] after[j]).motor.spec_key() by {
            assert(after[i] == motors[i]);
            if j < motors.len() {
                assert(after[j] == motors[j]);
            }
        }
    } else {
        let before = motors.drop_last();
        let rest = crate::tui::outcomes::inserted(before, entry);
        assert(listed_once(before)) by {
            assert forall|i: int, j: int| 0 <= i < j < before.len() implies (
            #[trigger] before[i]).motor.spec_key() != (
            #[trigger] before[j]).motor.spec_key() by {
                assert(before[i] == motors[i] && before[j] == motors[j]);
            }
        }
        assert(!crate::tui::outcomes::is_listed(before, entry.motor)) by {
            assert forall|i: int| 0 <= i < before.len() implies (
            #[trigger] before[i]).motor.spec_key() != entry.motor.spec_key() by {
                assert(before[i] == motors[i]);
            }
        }
        lemma_inserted_once(before, entry);
        lemma_inserted_elements(before, entry);
        let last = motors[motors.len() - 1];
        assert forall|i: int, j: int| 0 <= i < j < after.len() implies (
        #[trigger] after[i]).motor.spec_key() != (#[trigger] after[j]).motor.spec_key() by {
            assert(after[i] == rest[i]);
            if j < rest.len() {
                assert(after[j] == rest[j]);
            } else {
                assert(after[j] == last);
                if rest[i] != entry {
                    let k = choose|k: int| 0 <= k < before.len() && before[k] == rest[i];
                    assert(motors[k] == rest[i]);
                    assert(motors[k].motor.spec_key() != last.motor.spec_key());
                }
            }
        }
    }
}

/// A motor that has been inserted is listed, and so are those that were listed before.
proof fn lemma_inserted_keeps(motors: Seq<EntrySpec>, entry: EntrySpec)
    ensures
        crate::tui::outcomes::inserted(motors, entry).contains(entry),
        forall|i: int|
            0 <= i < motors.len() ==> crate::tui::outcomes::inserted(motors, entry).contains(
                #[trigger] motors[i],
            ),
    decreases motors.len(),
{
    let after = crate::tui::outcomes::inserted(motors, entry);
    if motors.len() == 0 || motors.last().motor.id() <= entry.motor.id() {
        assert(after[motors.len() as int] == entry);
        assert forall|i: int| 0 <= i < motors.len() implies after.contains(
            #[trigger] motors[i],
        ) by {
            assert(after[i] == motors[i]);
        }
    } else {
        let before = motors.drop_last();
        let rest = crate::tui::outcomes::inserted(before, entry);
        lemma_inserted_keeps(before, entry);
        let k = choose|k: int| 0 <= k < rest.len() && rest[k] == entry;
        assert(after[k] == entry);
        assert forall|i: int| 0 <= i < motors.len() implies after.contains(
            #[trigger] motors[i],
        ) by {
            if i < before.len() {
                assert(rest.contains(before[i]));
                let m = choose|m: int| 0 <= m < rest.len() && rest[m] == before[i];
                assert(after[m] == motors[i]);
            } else {
                assert(after[rest.len() as int] == motors[i]);
            }
        }
    }
}

/// After a scan for Robstride motors every one that answered is listed, and every motor that
/// was listed before still is, as it was.
pub proof fn law_scan_lists_all(
    app: AppSpec,
    found: Seq<(u8, Option<Seq<u8>>)>,
    stamp: Seq<char>,
)
    ensures
        app.motors_found(found, stamp).host_id == app.host_id,
        app.motors_found(found, stamp).default_model == app.default_model,
        forall|i: int|
            0 <= i < found.len() ==> crate::tui::outcomes::is_listed(
                app.motors_found(found, stamp).motors,
                MotorSpec::robstride_motor(
                    app.host_id,
                    (#[trigger] found[i]).0,
                    app.default_model,
                ),
            ),
        forall|i: int|
            0 <= i < app.motors.len() ==> app.motors_found(found, stamp).motors.contains(
                #[trigger] app.motors[i],
            ),
    decreases found.len(),
{
    let after = app.motors_found(found, stamp);
    if found.len() == 0 {
        assert forall|i: int| 0 <= i < app.motors.len() implies after.motors.contains(
            #[trigger] app.motors[i],
        ) by {}
    } else {
        let prefix = found.drop_last();
        let before = app.motors_found(prefix, stamp);
        law_scan_lists_all(app, prefix, stamp);
        let motor = MotorSpec::robstride_motor(app.host_id, found.last().0, app.default_model);
        let entry = crate::tui::outcomes::new_entry(motor, found.last().1);
        lemma_inserted_keeps(before.motors, entry);
        assert forall|e: EntrySpec| #[trigger] before.motors.contains(e) implies
            after.motors.contains(e) by {
            let k = choose|k: int| 0 <= k < before.motors.len() && before.motors[k] == e;
            assert(before.motors[k] == e);
        }
        assert forall|i: int| 0 <= i < found.len() implies crate::tui::outcomes::is_listed(
            after.motors,
            MotorSpec::robstride_motor(app.host_id, (#[trigger] found[i]).0, app.default_model),
        ) by {
            if i < prefix.len() {
                let m = MotorSpec::robstride_motor(app.host_id, prefix[i].0, app.default_model);
                assert(crate::tui::outcomes::is_listed(before.motors, m));
                let k = choose|k: int|
                    0 <= k < before.motors.len() && (
                    #[trigger] before.motors[k]).motor.spec_key() == m.spec_key();
                assert(before.motors.contains(before.motors[k]));
                assert(after.motors.contains(before.motors[k]));
            } else if !crate::tui::outcomes::is_listed(before.motors, motor) {
                assert(after.motors.contains(entry));
            }
        }
        assert forall|i: int| 0 <= i < app.motors.len() implies after.motors.contains(
            #[trigger] app.motors[i],
        ) by {
            assert(before.motors.contains(app.motors[i]));
        }
    }
}

/// After a scan for DAMIAO motors every one that answered is listed, and every motor that was
/// listed before still is, as it was.
pub proof fn law_damiao_scan_lists_all(app: AppSpec, ids: Seq<u8>)
    ensures
        forall|i: int|
            0 <= i < ids.len() ==> crate::tui::outcomes::is_listed(
                app.damiaos_found(ids).motors,
                MotorSpec::damiao_motor(#[trigger] ids[i], 0, DamiaoModel::DmJ4310),
            ),
        forall|i: int|
            0 <= i < app.motors.len() ==> app.damiaos_found(ids).motors.contains(
                #[trigger] app.motors[i],
            ),
    decreases ids.len(),
{
    let after = app.damiaos_found(ids);
    if ids.len() == 0 {
        assert forall|i: int| 0 <= i < app.motors.len() implies after.motors.contains(
            #[trigger] app.motors[i],
        ) by {}
    } else {
        let prefix = ids.drop_last();
        let before = app.damiaos_found(prefix);
        law_damiao_scan_lists_all(app, prefix);
        let motor = MotorSpec::damiao_motor(ids.last(), 0, DamiaoModel::DmJ4310);
        let entry = crate::tui::outcomes::new_entry(motor, None);
        lemma_inserted_keeps(before.motors, entry);
        assert forall|e: EntrySpec| #[trigger] before.motors.contains(e) implies
            after.motors.contains(e) by {
            let k = choose|k: int| 0 <= k < before.motors.len() && before.motors[k] == e;
            assert(before.motors[k] == e);
        }
        assert forall|i: int| 0 <= i < ids.len() implies crate::tui::outcomes::is_listed(
            after.motors,
            MotorSpec::damiao_motor(#[trigger] ids[i], 0, DamiaoModel::DmJ4310),
        ) by {
            if i < prefix.len() {
                let m = MotorSpec::damiao_motor(prefix[i], 0, DamiaoModel::DmJ4310);
                assert(crate::tui::outcomes::is_listed(before.motors, m));
                let k = choose|k: int|
                    0 <= k < before.motors.len() && (
                    #[trigger] before.motors[k]).motor.spec_key() == m.spec_key();
                assert(before.motors.contains(before.motors[k]));
                assert(after.motors.contains(before.motors[k]));
            } else if !crate::tui::outcomes::is_listed(before.motors, motor) {
                assert(after.motors.contains(entry));
            }
        }
        assert forall|i: int| 0 <= i < app.motors.len() implies after.motors.contains(
            #[trigger] app.motors[i],
        ) by {
            assert(before.motors.contains(app.motors[i]));
        }
    }
}

/// However often a bus is scanned, no motor is listed twice.
pub proof fn law_scan_lists_once(
    app: AppSpec,
    found: Seq<(u8, Option<Seq<u8>>)>,
    ids: Seq<u8>,
    stamp: Seq<char>,
)
    requires
        listed_once(app.motors),
    ensures
        listed_once(app.motors_found(found, stamp).motors),
        listed_once(app.damiaos_found(ids).motors),
    decreases found.len() + ids.len(),
{
    if found.len() > 0 {
        let before = app.motors_found(found.drop_last(), stamp);
        law_scan_lists_once(app, found.drop_last(), Seq::empty(), stamp);
        let motor = MotorSpec::robstride_motor(
            before.host_id,
            found.last().0,
            before.default_model,
        );
        if !crate::tui::outcomes::is_listed(before.motors, motor) {
            lemma_inserted_once(
                before.motors,
                crate::tui::outcomes::new_entry(motor, found.last().1),
            );
        }
    }
    if ids.len() > 0 {
        let before = app.damiaos_found(ids.drop_last());
        law_scan_lists_once(app, Seq::empty(), ids.drop_last(), stamp);
        let motor = MotorSpec::damiao_motor(ids.last(), 0, DamiaoModel::DmJ4310);
        if !crate::tui::outcomes::is_listed(before.motors, motor) {
            lemma_inserted_once(before.motors, crate::tui::outcomes::new_entry(motor, None));
        }
    }
}

impl App {
    /// Notes how far a scan has come, and whether it is still running.
    pub fn scan_update(&mut self, current: usize, total: usize, running: bool)
        requires
            old(self).valid(),
        ensures
            final(self).valid(),
            final(self)@ == (AppSpec {
                scan_progress: (current, total),
                scanning: running,
                ..old(self)@
            }),
    {
        self.scan_progress = (current, total);
        self.scanning = running;
    }

    /// Whether a scan has just been completed.
    pub fn scan_finished(&self) -> (finished: bool)
        ensures
            finished == (!self@.scanning && self@.scan_progress.0 > 0 && self@.scan_progress.0
                == self@.scan_progress.1),
    {
        !self.scanning && self.scan_progress.0 > 0 && self.scan_progress.0
            == self.scan_progress.1
    }

    fn find_motor(&mut self, id: u8, data: Option<Vec<u8>>, stamp: &str)
        requires
            old(self).valid(),
        ensures
            final(self).valid(),
            final(self)@ == old(self)@.motor_found(
                id,
                match data {
                    Some(d) => Some(d@),
                    None => None,
                },
                stamp@,
            ),
    {
        let motor = MotorSpec::robstride(self.host_id, id, self.default_model);
        if self.lists(&motor) {
            return;
        }
        let shown = match &data {
            Some(bytes) => "Some(\"".to_owned().concat(
                hex_str(bytes.as_slice()).as_str(),
            ).concat("\")"),
            None => "None".to_owned(),
        };
        let line = "  Motor ID=".to_owned().concat(decimal_text(id as u64).as_str()).concat(
            " discovered (data=",
        ).concat(shown.as_str()).concat(")");
        self.log_msg(stamp, line.as_str());
        self.insert_motor(motor, data);
    }

    /// Takes the results of a complete scan for Robstride motors.
    pub fn check_scan_complete(
        &mut self,
        results: Vec<(u8, Option<Vec<u8>>)>,
        stamp: &str,
    ) -> (job: Job)
        requires
            old(self).valid(),
        ensures
            final(self).valid(),
            (final(self)@, job) == old(self)@.scan_done(
                results@.map_values(|e: (u8, Option<Vec<u8>>)| crate::motor::found_entry(e)),
                stamp@,
            ),
    {
        let ghost found = results@.map_values(
            |e: (u8, Option<Vec<u8>>)| crate::motor::found_entry(e),
        );
        let ghost after = self.dm_scan_after;
        self.scan_progress = (0, 0);
        self.scanning = false;
        if results.len() == 0 {
            self.log_msg(stamp, "No motors found.");
        } else {
            let line = "Found ".to_owned().concat(
                decimal_text(results.len() as u64).as_str(),
            ).concat(" motor(s).");
            self.log_msg(stamp, line.as_str());
            let ghost told = self@;
            let mut i: usize = 0;
            assert(found.take(0) =~= Seq::<(u8, Option<Seq<u8>>)>::empty());
            while i < results.len()
                invariant
                    i <= results@.len(),
                    self.valid(),
                    found == results@.map_values(
                        |e: (u8, Option<Vec<u8>>)| crate::motor::found_entry(e),
                    ),
                    self@ == told.motors_found(found.take(i as int), stamp@),
                decreases results@.len() - i,
            {
                assert(found.take(i + 1).drop_last() =~= found.take(i as int));
                assert(found.take(i + 1).last() == crate::motor::found_entry(results@[i as int]));
                let data = match &results[i].1 {
                    Some(bytes) => {
                        let copy = bytes.clone();
                        assert(copy@ =~= bytes@);
                        Some(copy)
                    },
                    None => None,
                };
                self.find_motor(results[i].0, data, stamp);
                i = i + 1;
            }
            assert(found.take(i as int) =~= found);
        }
        proof {
            lemma_found_keeps(
                (AppSpec { scan_progress: (0, 0), scanning: false, ..old(self)@ }).logged(
                    stamp@,
                    "Found "@ + crate::text::decimal(found.len()) + " motor(s)."@,
                ),
                found,
                stamp@,
            );
        }
        match self.dm_scan_after {
            Some((from, to)) => {
                self.dm_scan_after = None;
                self.announce_damiao_scan(from, to, stamp);
                Job::ScanDamiao { from, to }
            },
            None => Job::Nothing,
        }
    }

    /// Takes the results of a scan for DAMIAO motors.
    pub fn run_damiao_scan(&mut self, result: std::result::Result<Vec<u8>, String>, stamp: &str)
        requires
            old(self).valid(),
        ensures
            final(self).valid(),
            final(self)@ == (match result {
                Ok(ids) => if ids@.len() == 0 {
                    old(self)@.logged(stamp@, "No DAMIAO motors found."@)
                } else {
                    old(self)@.logged(
                        stamp@,
                        "Found "@ + crate::text::decimal(ids@.len()) + " DAMIAO motor(s): "@
                            + crate::text::joined(
                            ids@.map_values(|id: u8| damiao_text(id)),
                            ", "@,
                        ),
                    ).damiaos_found(ids@)
                },
                Err(e) => old(self)@.logged(stamp@, "DAMIAO scan error: "@ + e@),
            }),
    {
        let ids = match result {
            Ok(ids) => ids,
            Err(e) => {
                self.log_msg(
                    stamp,
                    "DAMIAO scan error: ".to_owned().concat(e.as_str()).as_str(),
                );
                return;
            },
        };
        if ids.len() == 0 {
            self.log_msg(stamp, "No DAMIAO motors found.");
            return;
        }
        let mut pretty: Vec<String> = Vec::new();
        let mut n: usize = 0;
        while n < ids.len()
            invariant
                n <= ids@.len(),
                crate::text::texts(pretty@) == ids@.take(n as int).map_values(
                    |id: u8| damiao_text(id),
                ),
            decreases ids@.len() - n,
        {
            let ghost before = crate::text::texts(pretty@);
            let id: u8 = ids[n];
            pretty.push(
                decimal_text(id as u64).concat(" (0x").concat(
                    hex_text(id as u64, 2).as_str(),
                ).concat(")"),
            );
            assert(crate::text::texts(pretty@) =~= before.push(damiao_text(id)));
            assert(ids@.take(n + 1).map_values(|id: u8| damiao_text(id)) =~= before.push(
                damiao_text(id),
            ));
            n = n + 1;
        }
        assert(ids@.take(n as int) =~= ids@);
        let line = "Found ".to_owned().concat(decimal_text(ids.len() as u64).as_str()).concat(
            " DAMIAO motor(s): ",
        ).concat(join(&pretty, ", ").as_str());
        self.log_msg(stamp, line.as_str());
        let ghost told = self@;
        let mut i: usize = 0;
        assert(ids@.take(0) =~= Seq::<u8>::empty());
        while i < ids.len()
            invariant
                i <= ids@.len(),
                self.valid(),
                self@ == told.damiaos_found(ids@.take(i as int)),
            decreases ids@.len() - i,
        {
            assert(ids@.take(i + 1).drop_last() =~= ids@.take(i as int));
            assert(ids@.take(i + 1).last() == ids@[i as int]);
            let motor = MotorSpec::damiao(ids[i], 0, DamiaoModel::DmJ4310);
            if !self.lists(&motor) {
                self.insert_motor(motor, None);
            }
            i = i + 1;
        }
        assert(ids@.take(i as int) =~= ids@);
    }
}

/// What motors answer does not touch what is to follow a scan.
proof fn lemma_found_keeps(app: AppSpec, found: Seq<(u8, Option<Seq<u8>>)>, stamp: Seq<char>)
    ensures
        app.motors_found(found, stamp).dm_scan_after == app.dm_scan_after,
    decreases found.len(),
{
    if found.len() > 0 {
        lemma_found_keeps(app, found.drop_last(), stamp);
    }
}

// ---------------------------------------------------------------------------
// Bilateral control and zero offsets
// ---------------------------------------------------------------------------

/// Values of a bilateral command as they are shown.
#[derive(Debug)]
pub struct BilateralShown {
    pub kp: String,
    pub kd: String,
    pub coulomb: String,
    pub viscous: String,
    pub safety_radius: String,
    pub safety_jump: String,
}

/// Values of an assist test as they are shown.
#[derive(Debug)]
pub struct AssistShown {
    pub assist_kd: String,
    pub vel_ahead: String,
    pub max_assist: String,
    pub coulomb: String,
    pub viscous: String,
    pub inertia: String,
    pub inertia_comp: String,
    pub accel_cutoff: String,
}

/// What is said when bilateral control starts.
pub open spec fn bilateral_text(method: BilateralMethod, shown: BilateralShown) -> Seq<char> {
    "Starting bilateral control: "@ + method.spec_label() + " (Kp="@ + shown.kp@ + ", Kd="@
        + shown.kd@ + ", Cf="@ + shown.coulomb@ + ", Vf="@ + shown.viscous@ + ", safety_rad="@
        + shown.safety_radius@ + ", safety_jump="@ + shown.safety_jump@ + ")"@
}

/// What is said when an assist test starts.
pub open spec fn assist_text(motor: MotorSpec, shown: AssistShown) -> Seq<char> {
    "Starting Assist Test: "@ + motor.spec_description() + ", kd="@ + shown.assist_kd@
        + ", vel_ah="@ + shown.vel_ahead@ + ", maxA="@ + shown.max_assist@ + ", Cf="@
        + shown.coulomb@ + ", Vf="@ + shown.viscous@ + ", J="@ + shown.inertia@ + ", IC="@
        + shown.inertia_comp@ + ", AC="@ + shown.accel_cutoff@
}

impl App {
    /// Says that bilateral control is about to start.
    pub fn bilateral_starting(
        &mut self,
        method: BilateralMethod,
        shown: &BilateralShown,
        leader: &MotorSpec,
        follower: &MotorSpec,
        stamp: &str,
    )
        requires
            old(self).valid(),
        ensures
            final(self).valid(),
            final(self)@ == old(self)@.logged(stamp@, bilateral_text(method, *shown)).logged(
                stamp@,
                "  Leader="@ + leader.spec_description() + ", Follower="@
                    + follower.spec_description() + "  Press Esc to stop."@,
            ),
    {
        let line = "Starting bilateral control: ".to_owned().concat(method.label()).concat(
            " (Kp=",
        ).concat(shown.kp.as_str()).concat(", Kd=").concat(shown.kd.as_str()).concat(
            ", Cf=",
        ).concat(shown.coulomb.as_str()).concat(", Vf=").concat(shown.viscous.as_str()).concat(
            ", safety_rad=",
        ).concat(shown.safety_radius.as_str()).concat(", safety_jump=").concat(
            shown.safety_jump.as_str(),
        ).concat(")");
        self.log_msg(stamp, line.as_str());
        let motors = "  Leader=".to_owned().concat(leader.description().as_str()).concat(
            ", Follower=",
        ).concat(follower.description().as_str()).concat("  Press Esc to stop.");
        self.log_msg(stamp, motors.as_str());
    }

    /// Bilateral control was started.
    pub fn bilateral_started(&mut self, result: std::result::Result<(), String>, stamp: &str)
        requires
            old(self).valid(),
        ensures
            final(self).valid(),
            final(self)@ == (match result {
                Ok(_) => AppSpec { bilateral: true, ..old(self)@ },
                Err(e) => old(self)@.logged(stamp@, "Bilateral start failed: "@ + e@),
            }),
    {
        match result {
            Ok(_) => {
                self.bilateral = true;
            },
            Err(e) => self.log_msg(
                stamp,
                "Bilateral start failed: ".to_owned().concat(e.as_str()).as_str(),
            ),
        }
    }

    /// Says that an assist test is about to start.
    pub fn assist_starting(&mut self, motor: &MotorSpec, shown: &AssistShown, stamp: &str)
        requires
            old(self).valid(),
        ensures
            final(self).valid(),
            final(self)@ == old(self)@.logged(stamp@, assist_text(*motor, *shown)).logged(
                stamp@,
                "Press Esc to stop."@,
            ),
    {
        let line = "Starting Assist Test: ".to_owned().concat(
            motor.description().as_str(),
        ).concat(", kd=").concat(shown.assist_kd.as_str()).concat(", vel_ah=").concat(
            shown.vel_ahead.as_str(),
        ).concat(", maxA=").concat(shown.max_assist.as_str()).concat(", Cf=").concat(
            shown.coulomb.as_str(),
        ).concat(", Vf=").concat(shown.viscous.as_str()).concat(", J=").concat(
            shown.inertia.as_str(),
        ).concat(", IC=").concat(shown.inertia_comp.as_str()).concat(", AC=").concat(
            shown.accel_cutoff.as_str(),
        );
        self.log_msg(stamp, line.as_str());
        self.log_msg(stamp, "Press Esc to stop.");
    }

    /// An assist test was started.
    pub fn assist_started(&mut self, result: std::result::Result<(), String>, stamp: &str)
        requires
            old(self).valid(),
        ensures
            final(self).valid(),
            final(self)@ == (match result {
                Ok(_) => AppSpec { bilateral: true, ..old(self)@ },
                Err(e) => old(self)@.logged(stamp@, "Assist test start failed: "@ + e@),
            }),
    {
        match result {
            Ok(_) => {
                self.bilateral = true;
            },
            Err(e) => self.log_msg(
                stamp,
                "Assist test start failed: ".to_owned().concat(e.as_str()).as_str(),
            ),
        }
    }

    /// Bilateral control was asked to stop.
    pub fn bilateral_stopping(&mut self, stamp: &str)
        requires
            old(self).valid(),
        ensures
            final(self).valid(),
            final(self)@ == (if old(self)@.bilateral {
                old(self)@.logged(stamp@, "Bilateral control stopping..."@)
            } else {
                old(self)@
            }),
    {
        if self.bilateral {
            self.log_msg(stamp, "Bilateral control stopping...");
        }
    }

    /// Bilateral control has had the time to stop.
    pub fn stop_bilateral(&mut self, stamp: &str)
        requires
            old(self).valid(),
        ensures
            final(self).valid(),
            final(self)@ == (AppSpec { bilateral: false, ..old(self)@ }).logged(
                stamp@,
                "Bilateral control stopped."@,
            ),
    {
        self.bilateral = false;
        self.log_msg(stamp, "Bilateral control stopped.");
    }

    /// The time to wait for an answer could not be set while zeroing a pair of motors.
    pub fn read_timeout_failed(&mut self, reason: &str, stamp: &str)
        requires
            old(self).valid(),
        ensures
            final(self).valid(),
            final(self)@ == old(self)@.logged(stamp@, "Set read timeout failed: "@ + reason@),
    {
        self.log_msg(stamp, "Set read timeout failed: ".to_owned().concat(reason).as_str());
    }

    /// A motor was zeroed where it is: the offset is kept, as float bits and as it is shown.
    pub fn soft_zero_done(
        &mut self,
        motor: &MotorSpec,
        result: std::result::Result<(u64, String), String>,
        stamp: &str,
    )
        requires
            old(self).valid(),
        ensures
            final(self).valid(),
            final(self)@ == (match result {
                Ok((offset, shown)) => (AppSpec {
                    soft_zero_offsets: old(self)@.soft_zero_offsets.insert(
                        motor.spec_key(),
                        offset,
                    ),
                    ..old(self)@
                }).logged(
                    stamp@,
                    "Soft zero set: "@ + motor.spec_description() + " (offset = "@ + shown@
                        + " rad, in-memory only)"@,
                ),
                Err(e) => old(self)@.logged(
                    stamp@,
                    "Soft zero "@ + motor.spec_description() + " failed: "@ + e@,
                ),
            }),
    {
        broadcast use vstd::std_specs::hash::group_hash_axioms;

        match result {
            Ok((offset, shown)) => {
                self.soft_zero_offsets.insert(motor.key(), offset);
                let line = "Soft zero set: ".to_owned().concat(
                    motor.description().as_str(),
                ).concat(" (offset = ").concat(shown.as_str()).concat(" rad, in-memory only)");
                self.log_msg(stamp, line.as_str());
            },
            Err(e) => {
                let line = "Soft zero ".to_owned().concat(motor.description().as_str()).concat(
                    " failed: ",
                ).concat(e.as_str());
                self.log_msg(stamp, line.as_str());
            },
        }
    }
}

/// A zero offset that was kept is applied to its motor from then on and to no other, and one
/// that was dropped is not applied any more.
pub proof fn law_offset_applied(app: AppSpec, motor: MotorSpec, other: MotorSpec, offset: u64)
    requires
        other.spec_key() != motor.spec_key(),
    ensures
        ({
            let kept = AppSpec {
                soft_zero_offsets: app.soft_zero_offsets.insert(motor.spec_key(), offset),
                ..app
            };
            let dropped = AppSpec {
                soft_zero_offsets: app.soft_zero_offsets.remove(motor.spec_key()),
                ..app
            };
            &&& kept.offset_applied(motor) == motor.zeroed(offset)
            &&& kept.offset_applied(other) == app.offset_applied(other)
            &&& dropped.offset_applied(motor) == motor
            &&& dropped.offset_applied(other) == app.offset_applied(other)
        }),
{
}

// ---------------------------------------------------------------------------
// Refresh and end
// ---------------------------------------------------------------------------

/// The places of the enabled motors among the first `n` of a list.
pub open spec fn enabled_places(motors: Seq<EntrySpec>, n: int) -> Seq<int>
    decreases n,
{
    if n <= 0 {
        Seq::empty()
    } else if motors[n - 1].enabled {
        enabled_places(motors, n - 1).push(n - 1)
    } else {
        enabled_places(motors, n - 1)
    }
}

/// The enabled motors are all there and nothing else is: each place once and in order.
pub proof fn law_enabled_places(motors: Seq<EntrySpec>, n: int)
    requires
        0 <= n <= motors.len(),
    ensures
        forall|i: int|
            0 <= i < n ==> (#[trigger] motors[i]).enabled == enabled_places(motors, n).contains(i),
        forall|k: int|
            0 <= k < enabled_places(motors, n).len() ==> 0 <= #[trigger] enabled_places(
                motors,
                n,
            )[k] < n,
        forall|k: int, m: int|
            0 <= k < m < enabled_places(motors, n).len() ==> enabled_places(motors, n)[k]
                < enabled_places(motors, n)[m],
    decreases n,
{
    if n > 0 {
        law_enabled_places(motors, n - 1);
        let before = enabled_places(motors, n - 1);
        let after = enabled_places(motors, n);
        assert forall|i: int| 0 <= i < n implies (#[trigger] motors[i]).enabled == after.contains(
            i,
        ) by {
            if before.contains(i) {
                let k = choose|k: int| 0 <= k < before.len() && before[k] == i;
                assert(after[k] == i);
            }
            if after.contains(i) {
                let k = choose|k: int| 0 <= k < after.len() && after[k] == i;
                if k < before.len() {
                    assert(before[k] == i);
                }
            }
            if i == n - 1 && motors[n - 1].enabled {
                assert(after[after.len() - 1] == n - 1);
            }
        }
    }
}

impl App {
    /// The enabled motors, whose status is to be read again, with their places in the list.
    pub fn refresh_targets(&self) -> (targets: Vec<(usize, MotorSpec)>)
        ensures
            targets@.len() == enabled_places(self@.motors, self@.motors.len() as int).len(),
            forall|k: int|
                0 <= k < targets@.len() ==> {
                    let place = enabled_places(self@.motors, self@.motors.len() as int)[k];
                    (#[trigger] targets@[k]).0 == place && targets@[k].1 == self@.offset_applied(
                        self@.motors[place].motor,
                    )
                },
    {
        let mut targets: Vec<(usize, MotorSpec)> = Vec::new();
        let mut i: usize = 0;
        assert(self@.motors.len() == self.motors@.len());
        while i < self.motors.len()
            invariant
                i <= self.motors@.len() == self@.motors.len(),
                targets@.len() == enabled_places(self@.motors, i as int).len(),
                forall|k: int|
                    0 <= k < targets@.len() ==> {
                        let place = enabled_places(self@.motors, i as int)[k];
                        (#[trigger] targets@[k]).0 == place && targets@[k].1
                            == self@.offset_applied(self@.motors[place].motor)
                    },
            decreases self.motors@.len() - i,
        {
            assert(self@.motors[i as int] == self.motors@[i as int]@);
            if self.motors[i].enabled {
                targets.push((i, self.apply_saved_offset(self.motors[i].motor)));
            }
            i = i + 1;
        }
        targets
    }

    /// The status of the motor at a place of the list was read again.
    pub fn refresh_motor_status(
        &mut self,
        place: usize,
        result: std::result::Result<MotorFeedback, String>,
    )
        requires
            old(self).valid(),
            place < old(self).motors@.len(),
        ensures
            final(self).valid(),
            final(self)@ == (AppSpec {
                motors: old(self)@.motors.update(
                    place as int,
                    match result {
                        Ok(feedback) => EntrySpec {
                            feedback: Some(feedback),
                            error: None,
                            ..old(self)@.motors[place as int]
                        },
                        Err(e) => EntrySpec {
                            error: Some(e@),
                            ..old(self)@.motors[place as int]
                        },
                    },
                ),
                ..old(self)@
            }),
    {
        let ghost start = self@;
        let entry = &self.motors[place];
        let ghost before = entry@;
        assert(start.motors[place as int] == before);
        let motor = entry.motor;
        let enabled = entry.enabled;
        let earlier = entry.feedback;
        let uuid = match &entry.uuid {
            Some(data) => {
                let copy = data.clone();
                assert(copy@ =~= data@);
                Some(copy)
            },
            None => None,
        };
        let updated = match result {
            Ok(feedback) => MotorEntry {
                motor,
                enabled,
                feedback: Some(feedback),
                uuid,
                error: None,
            },
            Err(e) => MotorEntry { motor, enabled, feedback: earlier, uuid, error: Some(e) },
        };
        self.motors.set(place, updated);
        proof {
            let after = start.motors.update(place as int, updated@);
            assert(crate::tui::state::entry_specs(self.motors@) =~= after);
            assert forall|i: int, j: int| 0 <= i < j < after.len() implies (
            #[trigger] after[i]).motor.id() <= (#[trigger] after[j]).motor.id() by {
                assert(after[i].motor == start.motors[i].motor);
                assert(after[j].motor == start.motors[j].motor);
                assert(start.motors[i].motor.id() <= start.motors[j].motor.id());
            }
        }
    }

    /// The enabled motors, which are to be disabled before the session ends.
    pub fn motors_to_disable(&self) -> (motors: Vec<MotorSpec>)
        ensures
            motors@.len() == enabled_places(self@.motors, self@.motors.len() as int).len(),
            forall|k: int|
                0 <= k < motors@.len() ==> #[trigger] motors@[k] == self@.motors[enabled_places(
                    self@.motors,
                    self@.motors.len() as int,
                )[k]].motor,
    {
        let mut motors: Vec<MotorSpec> = Vec::new();
        let mut i: usize = 0;
        assert(self@.motors.len() == self.motors@.len());
        while i < self.motors.len()
            invariant
                i <= self.motors@.len() == self@.motors.len(),
                motors@.len() == enabled_places(self@.motors, i as int).len(),
                forall|k: int|
                    0 <= k < motors@.len() ==> #[trigger] motors@[k]
                        == self@.motors[enabled_places(self@.motors, i as int)[k]].motor,
            decreases self.motors@.len() - i,
        {
            assert(self@.motors[i as int] == self.motors@[i as int]@);
            if self.motors[i].enabled {
                motors.push(self.motors[i].motor);
            }
            i = i + 1;
        }
        motors
    }
}

/// A scan for Robstride motors adds what it found and nothing else: an entry that was not there
/// before is a Robstride motor with the host ID and the default model of the application, an ID
/// that answered and the payload of an answer from that ID. It is neither enabled nor known
/// otherwise.
pub proof fn law_scan_adds_found(
    app: AppSpec,
    found: Seq<(u8, Option<Seq<u8>>)>,
    stamp: Seq<char>,
    entry: EntrySpec,
)
    requires
        app.motors_found(found, stamp).motors.contains(entry),
        !app.motors.contains(entry),
    ensures
        exists|i: int|
            0 <= i < found.len() && entry == (EntrySpec {
                motor: MotorSpec::Robstride {
                    host_id: app.host_id,
                    can_id: (#[trigger] found[i]).0,
                    model: app.default_model,
                    soft_zero: 0,
                    invert: false,
                },
                enabled: false,
                feedback: None,
                uuid: found[i].1,
                error: None,
            }),
    decreases found.len(),
{
    if found.len() > 0 {
        let prefix = found.drop_last();
        let before = app.motors_found(prefix, stamp);
        let after = app.motors_found(found, stamp);
        law_scan_lists_all(app, prefix, stamp);
        let last = MotorSpec::robstride_motor(before.host_id, found.last().0, before.default_model);
        lemma_inserted_elements(
            before.motors,
            crate::tui::outcomes::new_entry(last, found.last().1),
        );
        let k = choose|k: int| 0 <= k < after.motors.len() && after.motors[k] == entry;
        if before.motors.contains(entry) {
            law_scan_adds_found(app, prefix, stamp, entry);
            let i = choose|i: int|
                0 <= i < prefix.len() && entry == (EntrySpec {
                    motor: MotorSpec::Robstride {
                        host_id: app.host_id,
                        can_id: (#[trigger] prefix[i]).0,
                        model: app.default_model,
                        soft_zero: 0,
                        invert: false,
                    },
                    enabled: false,
                    feedback: None,
                    uuid: prefix[i].1,
                    error: None,
                });
            assert(found[i] == prefix[i]);
        } else {
            assert(after.motors[k] == entry);
            if crate::tui::outcomes::is_listed(before.motors, last) {
                assert(before.motors.contains(entry));
            }
            assert(found[found.len() - 1] == found.last());
        }
    }
}

/// A Robstride motor that answers a scan and was not in the list is listed with the host ID and
/// the default model of the application, its ID and the payload of its first answer.
pub proof fn law_scan_entry(
    app: AppSpec,
    found: Seq<(u8, Option<Seq<u8>>)>,
    stamp: Seq<char>,
    i: int,
)
    requires
        0 <= i < found.len(),
        forall|j: int| 0 <= j < i ==> (#[trigger] found[j]).0 != found[i].0,
        forall|k: int|
            0 <= k < app.motors.len() ==> !((#[trigger] app.motors[k]).motor is Robstride
                && app.motors[k].motor.id() == found[i].0),
    ensures
        app.motors_found(found, stamp).motors.contains(
            EntrySpec {
                motor: MotorSpec::Robstride {
                    host_id: app.host_id,
                    can_id: found[i].0,
                    model: app.default_model,
                    soft_zero: 0,
                    invert: false,
                },
                enabled: false,
                feedback: None,
                uuid: found[i].1,
                error: None,
            },
        ),
    decreases found.len(),
{
    let prefix = found.drop_last();
    let before = app.motors_found(prefix, stamp);
    let after = app.motors_found(found, stamp);
    law_scan_lists_all(app, prefix, stamp);
    let last = MotorSpec::robstride_motor(before.host_id, found.last().0, before.default_model);
    let added = crate::tui::outcomes::new_entry(last, found.last().1);
    lemma_inserted_keeps(before.motors, added);
    let entry = EntrySpec {
        motor: MotorSpec::Robstride {
            host_id: app.host_id,
            can_id: found[i].0,
            model: app.default_model,
            soft_zero: 0,
            invert: false,
        },
        enabled: false,
        feedback: None,
        uuid: found[i].1,
        error: None,
    };
    if i < prefix.len() {
        assert forall|j: int| 0 <= j < i implies (#[trigger] prefix[j]).0 != prefix[i].0 by {
            assert(prefix[j] == found[j]);
        }
        law_scan_entry(app, prefix, stamp, i);
        let k = choose|k: int| 0 <= k < before.motors.len() && before.motors[k] == entry;
        assert(before.motors[k] == entry);
        assert(after.motors.contains(before.motors[k]));
    } else {
        if crate::tui::outcomes::is_listed(before.motors, last) {
            let k = choose|k: int|
                0 <= k < before.motors.len() && (#[trigger] before.motors[k]).motor.spec_key()
                    == last.spec_key();
            let e = before.motors[k];
            if app.motors.contains(e) {
                let m = choose|m: int| 0 <= m < app.motors.len() && app.motors[m] == e;
                assert(app.motors[m].motor.spec_key() == last.spec_key());
            } else {
                law_scan_adds_found(app, prefix, stamp, e);
                let j = choose|j: int|
                    0 <= j < prefix.len() && e == (EntrySpec {
                        motor: MotorSpec::Robstride {
                            host_id: app.host_id,
                            can_id: (#[trigger] prefix[j]).0,
                            model: app.default_model,
                            soft_zero: 0,
                            invert: false,
                        },
                        enabled: false,
                        feedback: None,
                        uuid: prefix[j].1,
                        error: None,
                    });
                assert(found[j] == prefix[j]);
            }
        }
        assert(added == entry);
        assert(after.motors.contains(added));
    }
}

/// A scan for DAMIAO motors adds what it found and nothing else: an entry that was not there before
/// is a DM-J4310 with an ID that answered, any master, and is neither enabled nor known otherwise.
pub proof fn law_damiao_scan_adds_found(app: AppSpec, ids: Seq<u8>, entry: EntrySpec)
    requires
        app.damiaos_found(ids).motors.contains(entry),
        !app.motors.contains(entry),
    ensures
        entry.motor is Damiao,
        ids.contains(entry.motor.id()),
        entry == (EntrySpec {
            motor: MotorSpec::Damiao {
                can_id: entry.motor.id(),
                master_id: 0,
                model: DamiaoModel::DmJ4310,
                soft_zero: 0,
                invert: false,
            },
            enabled: false,
            feedback: None,
            uuid: None,
            error: None,
        }),
    decreases ids.len(),
{
    if ids.len() > 0 {
        let prefix = ids.drop_last();
        let before = app.damiaos_found(prefix);
        let after = app.damiaos_found(ids);
        let last = MotorSpec::damiao_motor(ids.last(), 0, DamiaoModel::DmJ4310);
        lemma_inserted_elements(before.motors, crate::tui::outcomes::new_entry(last, None));
        let k = choose|k: int| 0 <= k < after.motors.len() && after.motors[k] == entry;
        if before.motors.contains(entry) {
            law_damiao_scan_adds_found(app, prefix, entry);
            let j = choose|j: int| 0 <= j < prefix.len() && prefix[j] == entry.motor.id();
            assert(ids[j] == entry.motor.id());
        } else {
            assert(after.motors[k] == entry);
            if crate::tui::outcomes::is_listed(before.motors, last) {
                assert(before.motors.contains(entry));
            }
            assert(ids[ids.len() - 1] == ids.last());
        }
    }
}

/// A scan that ends is over, whatever it found, and the log says how many motors answered. A scan
/// for DAMIAO motors that was to follow does, with the same IDs and once only; without one there
/// is nothing more to do.
pub proof fn law_scan_over(app: AppSpec, found: Seq<(u8, Option<Seq<u8>>)>, stamp: Seq<char>)
    ensures
        ({
            let (after, job) = app.scan_done(found, stamp);
            &&& !after.scanning && after.scan_progress == (0usize, 0usize)
            &&& after.dm_scan_after is None
            &&& match app.dm_scan_after {
                Some((from, to)) => job == (Job::ScanDamiao { from, to }),
                None => job == Job::Nothing,
            }
            &&& after.motors == app.motors_found(found, stamp).motors
            &&& after.bilateral == app.bilateral && after.soft_zero_offsets == app.soft_zero_offsets
            &&& after.selected_motor == app.selected_motor && after.fd == app.fd
        }),
{
    let reset = AppSpec { scan_progress: (0, 0), scanning: false, ..app };
    let told = if found.len() == 0 {
        reset.logged(stamp, "No motors found."@)
    } else {
        reset.logged(
            stamp,
            "Found "@ + crate::text::decimal(found.len()) + " motor(s)."@,
        )
    };
    lemma_found_frame(told, app, found, stamp);
}

/// What a scan adds to the list depends on the list, the host ID and the default model alone, and
/// it changes nothing but the list and the log.
proof fn lemma_found_frame(
    a: AppSpec,
    b: AppSpec,
    found: Seq<(u8, Option<Seq<u8>>)>,
    stamp: Seq<char>,
)
    requires
        a.motors == b.motors,
        a.host_id == b.host_id,
        a.default_model == b.default_model,
    ensures
        a.motors_found(found, stamp).motors == b.motors_found(found, stamp).motors,
        ({
            let after = a.motors_found(found, stamp);
            after == AppSpec { motors: after.motors, log: after.log, log_scroll: after.log_scroll, ..a }
        }),
        ({
            let after = b.motors_found(found, stamp);
            after == AppSpec { motors: after.motors, log: after.log, log_scroll: after.log_scroll, ..b }
        }),
    decreases found.len(),
{
    if found.len() > 0 {
        lemma_found_frame(a, b, found.drop_last(), stamp);
    }
}

/// A session starts with what it was given: the interface, the host ID and the model. Nothing is
/// listed, selected, running or being typed, frames are classic, and the first command is ready.
pub proof fn law_session_start(
    interface: Seq<char>,
    host_id: u8,
    model: MotorModel,
    config: Map<(Seq<char>, Seq<char>), Seq<char>>,
)
    ensures
        ({
            let app = initial(interface, host_id, model, config);
            &&& app.interface == interface && app.host_id == host_id && app.default_model == model
            &&& app.config == config
            &&& app.motors.len() == 0 && app.selected_motor == 0 && app.selected_cmd == 0
            &&& app.command() == Command::Scan && app.focus == Focus::Commands
            &&& !app.fd && !app.quit && !app.scanning && !app.bilateral && !app.editing_param
            &&& !app.input_mode && app.pending_cmd is None && app.dm_scan_after is None
            &&& forall|key: u16| !(#[trigger] app.soft_zero_offsets.contains_key(key))
            &&& app.log.len() == 1
        }),
{
}

/// An option takes the argument behind it, whatever that is, and leaves the rest as it was. A
/// host ID that is no number up to 255 is the default, and help comes before everything behind
/// it.
pub proof fn law_options(program: Seq<char>, value: Seq<char>, start: ArgsSpec)
    ensures
        args_from(seq![program, "-i"@, value], 1, start) == Some(
            ArgsSpec { interface: value, ..start },
        ),
        args_from(seq![program, "--interface"@, value], 1, start) == Some(
            ArgsSpec { interface: value, ..start },
        ),
        args_from(seq![program, "--model"@, value], 1, start) == Some(
            ArgsSpec { model: value, ..start },
        ),
        args_from(seq![program, "--host-id"@, value], 1, start) == Some(
            ArgsSpec {
                host_id: match crate::text::number(vstd::utf8::encode_utf8(value), 10, 255) {
                    Some(n) => n as u8,
                    None => 253,
                },
                ..start
            },
        ),
        args_from(seq![program, "-h"@, value], 1, start) is None,
        args_from(seq![program, "--help"@, value], 1, start) is None,
        args_from(seq![program], 1, start) == Some(start),
{
    lemma_options_differ();
    lemma_args_end(seq![program, "-i"@, value], 3, ArgsSpec { interface: value, ..start });
    lemma_args_end(seq![program, "--interface"@, value], 3, ArgsSpec { interface: value, ..start });
    lemma_args_end(seq![program, "--model"@, value], 3, ArgsSpec { model: value, ..start });
    let host_id = match crate::text::number(vstd::utf8::encode_utf8(value), 10, 255) {
        Some(n) => n as u8,
        None => 253u8,
    };
    lemma_args_end(seq![program, "--host-id"@, value], 3, ArgsSpec { host_id, ..start });
    lemma_args_end(seq![program], 1, start);
    let a = seq![program, "-i"@, value];
    assert(a[1] == "-i"@ && a[2] == value && a.len() == 3);
    let b = seq![program, "--interface"@, value];
    assert(b[1] == "--interface"@ && b[2] == value && b.len() == 3);
    let c = seq![program, "--model"@, value];
    assert(c[1] == "--model"@ && c[2] == value && c.len() == 3);
    let d = seq![program, "--host-id"@, value];
    assert(d[1] == "--host-id"@ && d[2] == value && d.len() == 3);
    let h = seq![program, "-h"@, value];
    assert(h[1] == "-h"@);
    let l = seq![program, "--help"@, value];
    assert(l[1] == "--help"@);
}

proof fn lemma_args_end(args: Seq<Seq<char>>, i: int, so_far: ArgsSpec)
    requires
        i >= args.len(),
    ensures
        args_from(args, i, so_far) == Some(so_far),
{
}

proof fn lemma_options_differ()
    ensures
        "-i"@ != "--interface"@,
        "-i"@ != "--model"@,
        "-i"@ != "--host-id"@,
        "-i"@ != "-h"@,
        "-i"@ != "--help"@,
        "--interface"@ != "--model"@,
        "--interface"@ != "--host-id"@,
        "--interface"@ != "-h"@,
        "--interface"@ != "--help"@,
        "--model"@ != "--host-id"@,
        "--model"@ != "-h"@,
        "--model"@ != "--help"@,
        "--host-id"@ != "-h"@,
        "--host-id"@ != "--help"@,
        "-h"@ != "--help"@,
{
    reveal_strlit("-i");
    reveal_strlit("--interface");
    reveal_strlit("--model");
    reveal_strlit("--host-id");
    reveal_strlit("-h");
    reveal_strlit("--help");
    assert("-i"@[1] != "-h"@[1]);
    assert("-i"@.len() == 2);
    assert("--interface"@.len() == 11);
    assert("--model"@.len() == 7);
    assert("--host-id"@.len() == 9);
    assert("-h"@.len() == 2);
    assert("--help"@.len() == 6);
}

// ---------------------------------------------------------------------------
// What is said
// ---------------------------------------------------------------------------

/// The application starts with nothing found, nothing running, nothing being typed and all
/// selections at the top, in the list of commands.
pub proof fn law_start_at_rest(
    interface: Seq<char>,
    host_id: u8,
    model: MotorModel,
    config: Map<(Seq<char>, Seq<char>), Seq<char>>,
)
    ensures
        ({
            let app = initial(interface, host_id, model, config);
            &&& app.interface == interface && app.host_id == host_id && app.default_model == model
                && app.config == config
            &&& app.motors.len() == 0 && app.soft_zero_offsets.dom().is_empty()
            &&& app.selected_motor == 0 && app.selected_cmd == 0 && app.selected_param == 0
            &&& app.focus == Focus::Commands && app.command() == Command::Scan
            &&& !app.fd && !app.quit && !app.scanning && !app.bilateral && !app.editing_param
                && !app.input_mode
            &&& app.pending_cmd is None && app.dm_scan_after is None && app.scan_progress == (
                0usize,
                0usize,
            )
            &&& app.input_buf.len() == 0 && app.param_edit_buf.len() == 0
            &&& app.log == seq!["Robstride TUI started. Press Tab to switch panels."@]
                && app.log_scroll == 0
        }),
{
}

/// A motor that is found is told by its ID and what it sent, in hexadecimal.
pub proof fn law_found_said(app: AppSpec, id: u8, data: Option<Seq<u8>>, stamp: Seq<char>)
    ensures
        ({
            let after = app.motor_found(id, data, stamp);
            let known = crate::tui::outcomes::is_listed(
                app.motors,
                MotorSpec::robstride_motor(app.host_id, id, app.default_model),
            );
            &&& known ==> after.log == app.log
            &&& !known ==> after.log.last() == "["@ + stamp + "] "@ + ("  Motor ID="@
                + crate::text::decimal(id as nat) + " discovered (data="@ + match data {
                Some(bytes) => "Some(\""@ + crate::text::hex_list(bytes) + "\")"@,
                None => "None"@,
            } + ")"@)
        }),
{
    let log = app.log.push(
        "["@ + stamp + "] "@ + ("  Motor ID="@ + crate::text::decimal(id as nat)
            + " discovered (data="@ + data_text(data) + ")"@),
    );
    assert(log.len() > 1 ==> log.drop_first().last() == log.last());
}

/// A DAMIAO motor is told by its ID, in decimal and in hexadecimal. A loop is told by its
/// method or its motor, and by its values, each under its own name.
pub proof fn law_starts_said(
    id: u8,
    method: BilateralMethod,
    shown: BilateralShown,
    motor: MotorSpec,
    test: AssistShown,
)
    ensures
        damiao_text(id) == crate::text::decimal(id as nat) + " (0x"@ + crate::text::hex(
            id as nat,
            2,
        ) + ")"@,
        bilateral_text(method, shown) == "Starting bilateral control: "@ + method.spec_label()
            + " (Kp="@ + shown.kp@ + ", Kd="@ + shown.kd@ + ", Cf="@ + shown.coulomb@ + ", Vf="@
            + shown.viscous@ + ", safety_rad="@ + shown.safety_radius@ + ", safety_jump="@
            + shown.safety_jump@ + ")"@,
        assist_text(motor, test) == "Starting Assist Test: "@ + motor.spec_description() + ", kd="@
            + test.assist_kd@ + ", vel_ah="@ + test.vel_ahead@ + ", maxA="@ + test.max_assist@
            + ", Cf="@ + test.coulomb@ + ", Vf="@ + test.viscous@ + ", J="@ + test.inertia@
            + ", IC="@ + test.inertia_comp@ + ", AC="@ + test.accel_cutoff@,
{
}

} // verus!
