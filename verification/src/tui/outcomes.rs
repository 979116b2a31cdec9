//! What becomes of the state when the bus has answered.
//!
//! Numbers that are shown with a fixed number of decimals come in as texts.

use vstd::prelude::*;

use crate::cli::{MotorCommand, Step};
use crate::driver::MotorSpec;
use crate::protocol::{MotorFeedback, RunMode};
use crate::text::{decimal_text, hex_str, hex_text, same_text, to_lowercase, trim};
use crate::tui::state::{App, AppSpec, EntrySpec, MotorEntry};

verus! {

// ---------------------------------------------------------------------------
// The list of motors
// ---------------------------------------------------------------------------

/// A motor that has just been found.
pub open spec fn new_entry(motor: MotorSpec, uuid: Option<Seq<u8>>) -> EntrySpec {
    EntrySpec { motor, enabled: false, feedback: None, uuid, error: None }
}

/// A list of motors with one more, in the order of their IDs: behind those with the same ID.
pub open spec fn inserted(motors: Seq<EntrySpec>, entry: EntrySpec) -> Seq<EntrySpec>
    decreases motors.len(),
{
    if motors.len() == 0 || motors.last().motor.id() <= entry.motor.id() {
        motors.push(entry)
    } else {
        inserted(motors.drop_last(), entry).push(motors.last())
    }
}

/// Whether a motor of the same vendor with the same ID is in the list.
pub open spec fn is_listed(motors: Seq<EntrySpec>, motor: MotorSpec) -> bool {
    exists|i: int|
        0 <= i < motors.len() && (#[trigger] motors[i]).motor.spec_key() == motor.spec_key()
}

proof fn lemma_inserted(motors: Seq<EntrySpec>, entry: EntrySpec, k: int)
    requires
        0 <= k <= motors.len(),
        forall|i: int|
            k <= i < motors.len() ==> (#[trigger] motors[i]).motor.id() > entry.motor.id(),
        k > 0 ==> motors[k - 1].motor.id() <= entry.motor.id(),
    ensures
        inserted(motors, entry) == motors.insert(k, entry),
    decreases motors.len(),
{
    if motors.len() > k {
        let before = motors.drop_last();
        assert(motors[motors.len() - 1].motor.id() > entry.motor.id());
        assert forall|i: int| k <= i < before.len() implies (#[trigger] before[i]).motor.id()
            > entry.motor.id() by {
            assert(before[i] == motors[i]);
        }
        lemma_inserted(before, entry, k);
        assert(before.insert(k, entry).push(motors.last()) =~= motors.insert(k, entry));
    } else {
        assert(motors.push(entry) =~= motors.insert(k, entry));
    }
}

/// A list in order is in order with one more motor, and loses none.
pub proof fn law_inserted_in_order(app: AppSpec, entry: EntrySpec)
    requires
        app.in_order(),
    ensures
        (AppSpec { motors: inserted(app.motors, entry), ..app }).in_order(),
        inserted(app.motors, entry).len() == app.motors.len() + 1,
        inserted(app.motors, entry).to_multiset() =~= app.motors.to_multiset().insert(entry),
    decreases app.motors.len(),
{
    broadcast use vstd::seq_lib::group_to_multiset_ensures;

    let motors = app.motors;
    let after = inserted(motors, entry);
    if motors.len() == 0 || motors.last().motor.id() <= entry.motor.id() {
        assert forall|i: int, j: int| 0 <= i < j < after.len() implies (
        #[trigger] after[i]).motor.id() <= (#[trigger] after[j]).motor.id() by {
            if i < motors.len() {
                assert(after[i] == motors[i]);
                assert(motors[motors.len() - 1].motor.id() <= entry.motor.id());
                if j < motors.len() {
                    assert(after[j] == motors[j]);
                }
                if i < motors.len() - 1 {
                    assert(motors[i].motor.id() <= motors[motors.len() - 1].motor.id());
                }
            }
        }
    } else {
        let before = motors.drop_last();
        let last = motors.last();
        let smaller = AppSpec { motors: before, ..app };
        assert(smaller.in_order()) by {
            assert forall|i: int, j: int| 0 <= i < j < before.len() implies (
            #[trigger] before[i]).motor.id() <= (#[trigger] before[j]).motor.id() by {
                assert(before[i] == motors[i] && before[j] == motors[j]);
            }
        }
        law_inserted_in_order(smaller, entry);
        let rest = inserted(before, entry);
        assert(before.push(last) =~= motors);
        assert(motors.to_multiset() =~= before.to_multiset().insert(last));
        assert(after.to_multiset() =~= rest.to_multiset().insert(last));
        assert forall|i: int, j: int| 0 <= i < j < after.len() implies (
        #[trigger] after[i]).motor.id() <= (#[trigger] after[j]).motor.id() by {
            if j < rest.len() {
                let r = AppSpec { motors: rest, ..app };
                assert(r.in_order());
                assert(r.motors[i].motor.id() <= r.motors[j].motor.id());
                assert(after[i] == rest[i] && after[j] == rest[j]);
            } else {
                assert(after[j] == last);
                assert(after[i] == rest[i]);
                assert(rest.to_multiset().contains(rest[i]));
                assert(before.to_multiset().insert(entry).contains(rest[i]));
                if rest[i] != entry {
                    assert(before.to_multiset().contains(rest[i]));
                    assert(before.contains(rest[i]));
                    let k = choose|k: int| 0 <= k < before.len() && before[k] == rest[i];
                    assert(motors[k] == rest[i]);
                    assert(motors[k].motor.id() <= motors[motors.len() - 1].motor.id());
                }
            }
        }
    }
}

impl App {
    /// Whether a motor of the same vendor with the same ID is in the list.
    pub fn lists(&self, motor: &MotorSpec) -> (listed: bool)
        ensures
            listed == is_listed(self@.motors, *motor),
    {
        let mut i: usize = 0;
        assert(self@.motors.len() == self.motors@.len());
        while i < self.motors.len()
            invariant
                i <= self.motors@.len() == self@.motors.len(),
                forall|k: int|
                    0 <= k < i ==> (#[trigger] self@.motors[k]).motor.spec_key()
                        != motor.spec_key(),
            decreases self.motors@.len() - i,
        {
            assert(self@.motors[i as int] == self.motors@[i as int]@);
            if self.motors[i].motor.key() == motor.key() {
                return true;
            }
            i = i + 1;
        }
        false
    }

    /// Adds a motor to the list.
    pub fn insert_motor(&mut self, motor: MotorSpec, uuid: Option<Vec<u8>>)
        requires
            old(self).valid(),
        ensures
            final(self).valid(),
            final(self)@ == (AppSpec {
                motors: inserted(
                    old(self)@.motors,
                    new_entry(
                        motor,
                        match uuid {
                            Some(data) => Some(data@),
                            None => None,
                        },
                    ),
                ),
                ..old(self)@
            }),
    {
        let ghost start = self@;
        let entry = MotorEntry { motor, enabled: false, feedback: None, uuid, error: None };
        let ghost spec_entry = entry@;
        let id: u8 = motor.can_id();
        let mut k: usize = self.motors.len();
        while k > 0 && self.motors[k - 1].motor.can_id() > id
            invariant
                k <= self.motors@.len(),
                id == spec_entry.motor.id(),
                self@ == start,
                start.motors.len() == self.motors@.len(),
                forall|i: int|
                    k <= i < start.motors.len() ==> (#[trigger] start.motors[i]).motor.id() > id,
            decreases k,
        {
            assert(start.motors[k - 1] == self.motors@[k - 1]@);
            k = k - 1;
        }
        if k > 0 {
            assert(start.motors[k - 1] == self.motors@[k - 1]@);
        }
        let ghost before = self.motors@;
        self.motors.insert(k, entry);
        proof {
            lemma_inserted(start.motors, spec_entry, k as int);
            assert(crate::tui::state::entry_specs(self.motors@) =~= start.motors.insert(
                k as int,
                spec_entry,
            ));
            law_inserted_in_order(start, spec_entry);
        }
    }
}

// ---------------------------------------------------------------------------
// Single motors
// ---------------------------------------------------------------------------

impl AppSpec {
    /// The state with another entry for the selected motor.
    pub open spec fn updated(self, entry: EntrySpec) -> AppSpec {
        AppSpec { motors: self.motors.update(self.selected_motor, entry), ..self }
    }

    /// The entry of the selected motor.
    pub open spec fn entry(self) -> EntrySpec {
        self.motors[self.selected_motor]
    }

    /// The selected motor has given feedback.
    pub open spec fn seen(self, feedback: MotorFeedback) -> AppSpec {
        self.updated(EntrySpec { feedback: Some(feedback), error: None, ..self.entry() })
    }

    /// The selected motor is enabled or not.
    pub open spec fn switched(self, enabled: bool) -> AppSpec {
        self.updated(EntrySpec { enabled, ..self.entry() })
    }
}

/// Feedback as it is shown: with the precision of the place where it is shown.
#[derive(Debug)]
pub struct Shown {
    pub position: String,
    pub velocity: String,
    pub torque: String,
    pub temperature: String,
}

/// Position, velocity and torque in a message.
pub open spec fn shown_text(shown: Shown) -> Seq<char> {
    "pos="@ + shown.position@ + " vel="@ + shown.velocity@ + " torque="@ + shown.torque@
}

fn show(shown: &Shown) -> (text: String)
    ensures
        text@ == shown_text(*shown),
{
    "pos=".to_owned().concat(shown.position.as_str()).concat(" vel=").concat(
        shown.velocity.as_str(),
    ).concat(" torque=").concat(shown.torque.as_str())
}

/// What a motor was told to do.
#[derive(Debug, Clone, Copy, PartialEq, Eq, Structural)]
pub enum Motion {
    Move,
    Spin,
    Torque,
}

/// The steps that set a Robstride motor in motion, with the bits of the target and of the
/// speed limit. The run mode changes while the motor is disabled.
pub open spec fn motion_plan(motion: Motion, value: u32, limit: u32) -> Seq<Step> {
    match motion {
        Motion::Move => seq![
            Step::Disable,
            Step::SetRunMode(RunMode::Position),
            Step::SetSpeedLimit(limit),
            Step::Enable,
            Step::SetPosition(value),
        ],
        Motion::Spin => seq![
            Step::Disable,
            Step::SetRunMode(RunMode::Velocity),
            Step::Enable,
            Step::SetVelocity(value),
        ],
        Motion::Torque => seq![
            Step::Disable,
            Step::SetRunMode(RunMode::Torque),
            Step::Enable,
            Step::SetTorque(value),
        ],
    }
}

/// Lays out the steps that set a Robstride motor in motion.
pub fn motion_steps(motion: Motion, value: u32, limit: u32) -> (steps: Vec<Step>)
    ensures
        steps@ == motion_plan(motion, value, limit),
{
    let steps: Vec<Step> = match motion {
        Motion::Move => vec![
            Step::Disable,
            Step::SetRunMode(RunMode::Position),
            Step::SetSpeedLimit(limit),
            Step::Enable,
            Step::SetPosition(value),
        ],
        Motion::Spin => vec![
            Step::Disable,
            Step::SetRunMode(RunMode::Velocity),
            Step::Enable,
            Step::SetVelocity(value),
        ],
        Motion::Torque => vec![
            Step::Disable,
            Step::SetRunMode(RunMode::Torque),
            Step::Enable,
            Step::SetTorque(value),
        ],
    };
    assert(steps@ =~= motion_plan(motion, value, limit));
    steps
}

/// A motion begins the same way from the application as from the command line.
pub proof fn law_motion_as_command(motion: Motion, value: u32, limit: u32, duration: u32)
    ensures
        ({
            let command = match motion {
                Motion::Move => MotorCommand::MoveTo { position: value, speed: limit },
                Motion::Spin => MotorCommand::Spin { velocity: value, duration },
                Motion::Torque => MotorCommand::Torque { torque: value, duration },
            };
            let plan = motion_plan(motion, value, limit);
            crate::cli::robstride_steps(command, false) matches Ok(steps) && plan.is_prefix_of(
                steps,
            )
        }),
{
    let command = match motion {
        Motion::Move => MotorCommand::MoveTo { position: value, speed: limit },
        Motion::Spin => MotorCommand::Spin { velocity: value, duration },
        Motion::Torque => MotorCommand::Torque { torque: value, duration },
    };
    let plan = motion_plan(motion, value, limit);
    let steps = crate::cli::robstride_steps(command, false)->Ok_0;
    assert(steps.take(plan.len() as int) =~= plan);
}

/// What is said of a motion that was started, with its values.
pub open spec fn motion_text(
    motion: Motion,
    damiao: bool,
    value: Seq<char>,
    limit: Seq<char>,
) -> Seq<char> {
    match (motion, damiao) {
        (Motion::Move, false) => "Moving to "@ + value + " rad (speed limit="@ + limit + ")"@,
        (Motion::Move, true) => "DAMIAO move target sent: pos="@ + value + " (vel clamp="@ + limit
            + ")"@,
        (Motion::Spin, false) => "Spinning at "@ + value + " rad/s"@,
        (Motion::Spin, true) => "DAMIAO velocity target sent: "@ + value + " rad/s"@,
        (Motion::Torque, false) => "Applying torque "@ + value + " Nm"@,
        (Motion::Torque, true) => "DAMIAO torque target sent: "@ + value + " Nm"@,
    }
}

/// What is said of a motion that failed.
pub open spec fn motion_failure(motion: Motion, reason: Seq<char>) -> Seq<char> {
    match motion {
        Motion::Move => "Move to failed: "@ + reason,
        Motion::Spin => "Spin failed: "@ + reason,
        Motion::Torque => "Torque failed: "@ + reason,
    }
}

fn motion_line(motion: Motion, damiao: bool, value: &str, limit: &str) -> (text: String)
    ensures
        text@ == motion_text(motion, damiao, value@, limit@),
{
    match motion {
        Motion::Move => if damiao {
            "DAMIAO move target sent: pos=".to_owned().concat(value).concat(
                " (vel clamp=",
            ).concat(limit).concat(")")
        } else {
            "Moving to ".to_owned().concat(value).concat(" rad (speed limit=").concat(
                limit,
            ).concat(")")
        },
        Motion::Spin => if damiao {
            "DAMIAO velocity target sent: ".to_owned().concat(value).concat(" rad/s")
        } else {
            "Spinning at ".to_owned().concat(value).concat(" rad/s")
        },
        Motion::Torque => if damiao {
            "DAMIAO torque target sent: ".to_owned().concat(value).concat(" Nm")
        } else {
            "Applying torque ".to_owned().concat(value).concat(" Nm")
        },
    }
}

fn motion_failure_line(motion: Motion, reason: &str) -> (text: String)
    ensures
        text@ == motion_failure(motion, reason@),
{
    match motion {
        Motion::Move => "Move to failed: ".to_owned().concat(reason),
        Motion::Spin => "Spin failed: ".to_owned().concat(reason),
        Motion::Torque => "Torque failed: ".to_owned().concat(reason),
    }
}

/// What a DAMIAO motor says of a parameter, given its position and its velocity.
pub open spec fn damiao_param_text(
    input: Seq<char>,
    position: Seq<char>,
    velocity: Seq<char>,
) -> Seq<char> {
    let shown = crate::text::trimmed(input);
    let name = crate::text::lowercase(shown);
    if name == "mech_pos"@ || name == "position"@ {
        shown + " = "@ + position
    } else if name == "mech_vel"@ || name == "velocity"@ {
        shown + " = "@ + velocity
    } else if name == "run_mode"@ || name == "mode"@ {
        shown + " = mit"@
    } else {
        "DAMIAO read-param '"@ + shown + "' is not available in MIT-only mode"@
    }
}

impl App {
    /// Whether a motor is selected.
    pub open spec fn has_selection(self) -> bool {
        self@.selected_motor < self@.motors.len()
    }

    fn set_entry(&mut self, entry: MotorEntry)
        requires
            old(self).valid(),
            old(self).has_selection(),
            entry.motor == old(self)@.entry().motor,
        ensures
            final(self).valid(),
            final(self)@ == old(self)@.updated(entry@),
            final(self).has_selection(),
    {
        let ghost start = self@;
        assert(start.motors.len() == self.motors@.len());
        self.motors.set(self.selected_motor, entry);
        proof {
            let after = start.motors.update(start.selected_motor, entry@);
            assert(crate::tui::state::entry_specs(self.motors@) =~= after);
            assert forall|i: int, j: int| 0 <= i < j < after.len() implies (
            #[trigger] after[i]).motor.id() <= (#[trigger] after[j]).motor.id() by {
                assert(after[i].motor == start.motors[i].motor);
                assert(after[j].motor == start.motors[j].motor);
                assert(start.motors[i].motor.id() <= start.motors[j].motor.id());
            }
        }
    }

    fn copy_entry(&self) -> (entry: MotorEntry)
        requires
            self.has_selection(),
        ensures
            entry@ == self@.entry(),
    {
        let entry = &self.motors[self.selected_motor];
        assert(self@.motors[self.selected_motor as int] == entry@);
        let uuid = match &entry.uuid {
            Some(data) => {
                let copy = data.clone();
                assert(copy@ =~= data@);
                Some(copy)
            },
            None => None,
        };
        let error = match &entry.error {
            Some(text) => Some(text.clone()),
            None => None,
        };
        MotorEntry {
            motor: entry.motor,
            enabled: entry.enabled,
            feedback: entry.feedback,
            uuid,
            error,
        }
    }

    fn see(&mut self, feedback: MotorFeedback)
        requires
            old(self).valid(),
            old(self).has_selection(),
        ensures
            final(self).valid(),
            final(self).has_selection(),
            final(self)@ == old(self)@.seen(feedback),
    {
        let mut entry = self.copy_entry();
        entry.feedback = Some(feedback);
        entry.error = None;
        self.set_entry(entry);
    }

    fn switch(&mut self, enabled: bool)
        requires
            old(self).valid(),
            old(self).has_selection(),
        ensures
            final(self).valid(),
            final(self).has_selection(),
            final(self)@ == old(self)@.switched(enabled),
    {
        let mut entry = self.copy_entry();
        entry.enabled = enabled;
        self.set_entry(entry);
    }

    /// The bus could not be opened.
    pub fn open_failed(&mut self, reason: &str, stamp: &str)
        requires
            old(self).valid(),
        ensures
            final(self).valid(),
            final(self)@ == old(self)@.logged(stamp@, "CAN open error: "@ + reason@),
    {
        self.log_msg(stamp, "CAN open error: ".to_owned().concat(reason).as_str());
    }

    /// A Robstride motor was pinged.
    pub fn ping_done(
        &mut self,
        result: std::result::Result<(u16, Vec<u8>), String>,
        stamp: &str,
    )
        requires
            old(self).valid(),
            old(self).has_selection(),
        ensures
            final(self).valid(),
            final(self)@ == (match result {
                Ok(answer) => {
                    let app = old(self)@.logged(
                        stamp@,
                        "Ping OK: motor="@ + crate::text::decimal(
                            old(self)@.entry().motor.id() as nat,
                        ) + " device_id=0x"@ + crate::text::hex(answer.0 as nat, 4) + " UUID=["@
                            + crate::text::hex_list(answer.1@) + "]"@,
                    );
                    app.updated(EntrySpec { uuid: Some(answer.1@), ..app.entry() })
                },
                Err(e) => old(self)@.logged(stamp@, "Ping failed: "@ + e@),
            }),
    {
        match result {
            Ok((device_id, uuid)) => {
                let mut entry = self.copy_entry();
                let line = "Ping OK: motor=".to_owned().concat(
                    decimal_text(entry.motor.can_id() as u64).as_str(),
                ).concat(" device_id=0x").concat(
                    hex_text(device_id as u64, 4).as_str(),
                ).concat(" UUID=[").concat(hex_str(uuid.as_slice()).as_str()).concat("]");
                self.log_msg(stamp, line.as_str());
                entry.uuid = Some(uuid);
                self.set_entry(entry);
            },
            Err(e) => self.log_msg(stamp, "Ping failed: ".to_owned().concat(e.as_str()).as_str()),
        }
    }

    /// A DAMIAO motor was pinged.
    pub fn damiao_ping_done(
        &mut self,
        result: std::result::Result<(MotorFeedback, Shown), String>,
        stamp: &str,
    )
        requires
            old(self).valid(),
            old(self).has_selection(),
        ensures
            final(self).valid(),
            final(self)@ == (match result {
                Ok((feedback, shown)) => old(self)@.logged(
                    stamp@,
                    "Ping OK (DAMIAO): "@ + shown_text(shown),
                ).seen(feedback),
                Err(e) => old(self)@.logged(stamp@, "Ping failed: "@ + e@),
            }),
    {
        match result {
            Ok((feedback, shown)) => {
                let line = "Ping OK (DAMIAO): ".to_owned().concat(show(&shown).as_str());
                self.log_msg(stamp, line.as_str());
                self.see(feedback);
            },
            Err(e) => self.log_msg(stamp, "Ping failed: ".to_owned().concat(e.as_str()).as_str()),
        }
    }

    /// The selected motor was enabled, and perhaps gave feedback.
    pub fn enable_done(
        &mut self,
        result: std::result::Result<Option<MotorFeedback>, String>,
        stamp: &str,
    )
        requires
            old(self).valid(),
            old(self).has_selection(),
        ensures
            final(self).valid(),
            final(self)@ == (match result {
                Ok(feedback) => {
                    let app = old(self)@.switched(true).logged(
                        stamp@,
                        old(self)@.entry().motor.spec_description() + " enabled."@,
                    );
                    match feedback {
                        Some(f) => app.seen(f),
                        None => app,
                    }
                },
                Err(e) => old(self)@.logged(stamp@, "Enable failed: "@ + e@),
            }),
    {
        match result {
            Ok(feedback) => {
                let label = self.copy_entry().motor.description();
                self.switch(true);
                self.log_msg(stamp, label.concat(" enabled.").as_str());
                match feedback {
                    Some(f) => self.see(f),
                    None => {},
                }
            },
            Err(e) => self.log_msg(
                stamp,
                "Enable failed: ".to_owned().concat(e.as_str()).as_str(),
            ),
        }
    }

    /// The selected motor was disabled.
    pub fn disable_done(&mut self, result: std::result::Result<(), String>, stamp: &str)
        requires
            old(self).valid(),
            old(self).has_selection(),
        ensures
            final(self).valid(),
            final(self)@ == (match result {
                Ok(_) => old(self)@.switched(false).logged(
                    stamp@,
                    old(self)@.entry().motor.spec_description() + " disabled."@,
                ),
                Err(e) => old(self)@.logged(stamp@, "Disable failed: "@ + e@),
            }),
    {
        match result {
            Ok(_) => {
                let label = self.copy_entry().motor.description();
                self.switch(false);
                self.log_msg(stamp, label.concat(" disabled.").as_str());
            },
            Err(e) => self.log_msg(
                stamp,
                "Disable failed: ".to_owned().concat(e.as_str()).as_str(),
            ),
        }
    }

    /// The zero of the selected motor was written. What was known of its zero and its
    /// position holds no longer.
    pub fn set_zero_done(&mut self, result: std::result::Result<(), String>, stamp: &str)
        requires
            old(self).valid(),
            old(self).has_selection(),
        ensures
            final(self).valid(),
            final(self)@ == (match result {
                Ok(_) => {
                    let motor = old(self)@.entry().motor;
                    let label = motor.spec_description();
                    let saved = old(self)@.logged(stamp@, label + " zero saved to NVM."@);
                    let cleared = if saved.soft_zero_offsets.contains_key(motor.spec_key()) {
                        (AppSpec {
                            soft_zero_offsets: saved.soft_zero_offsets.remove(motor.spec_key()),
                            ..saved
                        }).logged(
                            stamp@,
                            "  Cleared cached soft_zero for "@ + label + " (no longer needed)."@,
                        )
                    } else {
                        saved
                    };
                    cleared.updated(EntrySpec { feedback: None, ..cleared.entry() })
                },
                Err(e) => old(self)@.logged(stamp@, "Set zero failed: "@ + e@),
            }),
    {
        broadcast use vstd::std_specs::hash::group_hash_axioms;

        match result {
            Ok(_) => {
                let motor = self.copy_entry().motor;
                let label = motor.description();
                let line = label.clone().concat(" zero saved to NVM.");
                self.log_msg(stamp, line.as_str());
                let ghost saved = self@;
                if self.soft_zero_offsets.remove(&motor.key()).is_some() {
                    let cleared = "  Cleared cached soft_zero for ".to_owned().concat(
                        label.as_str(),
                    ).concat(" (no longer needed).");
                    self.log_msg(stamp, cleared.as_str());
                } else {
                    assert(self@.soft_zero_offsets =~= saved.soft_zero_offsets);
                }
                let mut entry = self.copy_entry();
                entry.feedback = None;
                self.set_entry(entry);
            },
            Err(e) => self.log_msg(
                stamp,
                "Set zero failed: ".to_owned().concat(e.as_str()).as_str(),
            ),
        }
    }

    /// Whether the status of the selected motor can be read. A DAMIAO motor has to be enabled
    /// for that, and it is said so if it is not.
    pub fn may_read_status(&mut self, stamp: &str) -> (may: bool)
        requires
            old(self).valid(),
            old(self).has_selection(),
        ensures
            final(self).valid(),
            may == (old(self)@.entry().motor is Robstride || old(self)@.entry().enabled),
            final(self)@ == (if may {
                old(self)@
            } else {
                old(self)@.logged(
                    stamp@,
                    "DAMIAO Read Status needs the motor enabled (DM MIT mode does not respond while disabled). Run Enable first."@,
                )
            }),
            final(self).has_selection(),
    {
        let entry = self.copy_entry();
        if entry.motor.is_damiao() && !entry.enabled {
            self.log_msg(
                stamp,
                "DAMIAO Read Status needs the motor enabled (DM MIT mode does not respond while disabled). Run Enable first.",
            );
            false
        } else {
            true
        }
    }

    /// The status of the selected motor was read.
    pub fn read_status_done(
        &mut self,
        result: std::result::Result<(MotorFeedback, Shown), String>,
        stamp: &str,
    )
        requires
            old(self).valid(),
            old(self).has_selection(),
        ensures
            final(self).valid(),
            final(self)@ == (match result {
                Ok((feedback, shown)) => old(self)@.logged(
                    stamp@,
                    "Status: "@ + shown_text(shown) + " temp="@ + shown.temperature@ + "°C mode="@
                        + crate::text::decimal(feedback.status.mode as nat),
                ).seen(feedback),
                Err(e) => {
                    let app = old(self)@.logged(stamp@, "Read status failed: "@ + e@);
                    app.updated(EntrySpec { error: Some(e@), ..app.entry() })
                },
            }),
    {
        match result {
            Ok((feedback, shown)) => {
                let line = "Status: ".to_owned().concat(show(&shown).as_str()).concat(
                    " temp=",
                ).concat(shown.temperature.as_str()).concat("°C mode=").concat(
                    decimal_text(feedback.status.mode as u64).as_str(),
                );
                self.log_msg(stamp, line.as_str());
                self.see(feedback);
            },
            Err(e) => {
                self.log_msg(
                    stamp,
                    "Read status failed: ".to_owned().concat(e.as_str()).as_str(),
                );
                let mut entry = self.copy_entry();
                entry.error = Some(e);
                self.set_entry(entry);
            },
        }
    }

    /// A parameter of a Robstride motor was read.
    pub fn read_param_done(
        &mut self,
        input: &str,
        result: std::result::Result<String, String>,
        stamp: &str,
    )
        requires
            old(self).valid(),
        ensures
            final(self).valid(),
            final(self)@ == (match result {
                Ok(value) => old(self)@.logged(
                    stamp@,
                    crate::text::trimmed(input@) + " = "@ + value@,
                ),
                Err(e) => old(self)@.logged(stamp@, "Read param failed: "@ + e@),
            }),
    {
        match result {
            Ok(value) => self.log_msg(
                stamp,
                trim(input).concat(" = ").concat(value.as_str()).as_str(),
            ),
            Err(e) => self.log_msg(
                stamp,
                "Read param failed: ".to_owned().concat(e.as_str()).as_str(),
            ),
        }
    }

    /// A DAMIAO motor gave its position and velocity for a parameter.
    pub fn damiao_param_done(
        &mut self,
        input: &str,
        result: std::result::Result<(String, String), String>,
        stamp: &str,
    )
        requires
            old(self).valid(),
        ensures
            final(self).valid(),
            final(self)@ == (match result {
                Ok((position, velocity)) => old(self)@.logged(
                    stamp@,
                    damiao_param_text(input@, position@, velocity@),
                ),
                Err(e) => old(self)@.logged(stamp@, "Read param failed: "@ + e@),
            }),
    {
        match result {
            Ok((position, velocity)) => {
                let shown = trim(input);
                let lower = to_lowercase(shown.as_str());
                let name = lower.as_str();
                let line = if same_text(name, "mech_pos") || same_text(name, "position") {
                    shown.concat(" = ").concat(position.as_str())
                } else if same_text(name, "mech_vel") || same_text(name, "velocity") {
                    shown.concat(" = ").concat(velocity.as_str())
                } else if same_text(name, "run_mode") || same_text(name, "mode") {
                    shown.concat(" = mit")
                } else {
                    "DAMIAO read-param '".to_owned().concat(shown.as_str()).concat(
                        "' is not available in MIT-only mode",
                    )
                };
                self.log_msg(stamp, line.as_str());
            },
            Err(e) => self.log_msg(
                stamp,
                "Read param failed: ".to_owned().concat(e.as_str()).as_str(),
            ),
        }
    }

    /// A parameter was written.
    pub fn write_param_done(
        &mut self,
        name: &str,
        value: &str,
        result: std::result::Result<(), String>,
        stamp: &str,
    )
        requires
            old(self).valid(),
        ensures
            final(self).valid(),
            final(self)@ == (match result {
                Ok(_) => old(self)@.logged(stamp@, name@ + " = "@ + value@ + " (written)"@),
                Err(e) => old(self)@.logged(stamp@, "Write param failed: "@ + e@),
            }),
    {
        match result {
            Ok(_) => self.log_msg(
                stamp,
                name.to_owned().concat(" = ").concat(value).concat(" (written)").as_str(),
            ),
            Err(e) => self.log_msg(
                stamp,
                "Write param failed: ".to_owned().concat(e.as_str()).as_str(),
            ),
        }
    }

    /// The run mode was set.
    pub fn run_mode_done(
        &mut self,
        mode: RunMode,
        result: std::result::Result<(), String>,
        stamp: &str,
    )
        requires
            old(self).valid(),
        ensures
            final(self).valid(),
            final(self)@ == (match result {
                Ok(_) => old(self)@.logged(stamp@, "Run mode set to "@ + mode.spec_name()),
                Err(e) => old(self)@.logged(stamp@, "Set run mode failed: "@ + e@),
            }),
    {
        match result {
            Ok(_) => self.log_msg(
                stamp,
                "Run mode set to ".to_owned().concat(mode.name()).as_str(),
            ),
            Err(e) => self.log_msg(
                stamp,
                "Set run mode failed: ".to_owned().concat(e.as_str()).as_str(),
            ),
        }
    }

    /// The selected motor was set in motion, and perhaps gave feedback. It is enabled from
    /// then on.
    pub fn motion_done(
        &mut self,
        motion: Motion,
        value: &str,
        limit: &str,
        result: std::result::Result<Option<MotorFeedback>, String>,
        stamp: &str,
    )
        requires
            old(self).valid(),
            old(self).has_selection(),
        ensures
            final(self).valid(),
            final(self)@ == (match result {
                Ok(feedback) => {
                    let app = old(self)@.logged(
                        stamp@,
                        motion_text(
                            motion,
                            old(self)@.entry().motor is Damiao,
                            value@,
                            limit@,
                        ),
                    ).switched(true);
                    match feedback {
                        Some(f) => app.seen(f),
                        None => app,
                    }
                },
                Err(e) => old(self)@.logged(stamp@, motion_failure(motion, e@)),
            }),
    {
        match result {
            Ok(feedback) => {
                let damiao = self.copy_entry().motor.is_damiao();
                let line = motion_line(motion, damiao, value, limit);
                self.log_msg(stamp, line.as_str());
                self.switch(true);
                match feedback {
                    Some(f) => self.see(f),
                    None => {},
                }
            },
            Err(e) => {
                let line = motion_failure_line(motion, e.as_str());
                self.log_msg(stamp, line.as_str());
            },
        }
    }

    /// A MIT command was sent to the selected motor. If it had to be enabled before and that
    /// worked, it is enabled whatever came of the command.
    pub fn mit_done(
        &mut self,
        enabled_now: bool,
        result: std::result::Result<(MotorFeedback, Shown), String>,
        stamp: &str,
    )
        requires
            old(self).valid(),
            old(self).has_selection(),
        ensures
            final(self).valid(),
            final(self)@ == ({
                let app = if enabled_now {
                    old(self)@.switched(true)
                } else {
                    old(self)@
                };
                match result {
                    Ok((feedback, shown)) => {
                        let told = app.logged(stamp@, "MIT: "@ + shown_text(shown));
                        if app.entry().motor is Damiao {
                            told.seen(feedback)
                        } else {
                            told.updated(
                                EntrySpec { feedback: Some(feedback), ..told.entry() },
                            )
                        }
                    },
                    Err(e) => app.logged(stamp@, "MIT control failed: "@ + e@),
                }
            }),
    {
        if enabled_now {
            self.switch(true);
        }
        match result {
            Ok((feedback, shown)) => {
                let line = "MIT: ".to_owned().concat(show(&shown).as_str());
                self.log_msg(stamp, line.as_str());
                let mut entry = self.copy_entry();
                if entry.motor.is_damiao() {
                    self.see(feedback);
                } else {
                    entry.feedback = Some(feedback);
                    self.set_entry(entry);
                }
            },
            Err(e) => self.log_msg(
                stamp,
                "MIT control failed: ".to_owned().concat(e.as_str()).as_str(),
            ),
        }
    }
}

/// Feedback of the selected motor is kept with that motor and clears its error. Its identity
/// and its state stay, and so does everything else: other motors, selections, values and log.
pub proof fn law_feedback_kept(app: AppSpec, feedback: MotorFeedback)
    requires
        0 <= app.selected_motor < app.motors.len(),
    ensures
        ({
            let after = app.seen(feedback);
            let at = app.selected_motor;
            &&& after.motors.len() == app.motors.len()
            &&& after.motors[at].feedback == Some(feedback) && after.motors[at].error is None
            &&& after.motors[at].motor == app.motors[at].motor && after.motors[at].uuid
                == app.motors[at].uuid && after.motors[at].enabled == app.motors[at].enabled
            &&& forall|i: int|
                0 <= i < app.motors.len() && i != at ==> #[trigger] after.motors[i]
                    == app.motors[i]
            &&& after == (AppSpec { motors: after.motors, ..app })
        }),
{
}

/// Enabling or disabling the selected motor changes whether that motor counts as enabled, and
/// nothing else.
pub proof fn law_switch_kept(app: AppSpec, enabled: bool)
    requires
        0 <= app.selected_motor < app.motors.len(),
    ensures
        ({
            let after = app.switched(enabled);
            let at = app.selected_motor;
            &&& after.motors.len() == app.motors.len()
            &&& after.motors[at].enabled == enabled
            &&& after.motors[at].motor == app.motors[at].motor && after.motors[at].uuid
                == app.motors[at].uuid && after.motors[at].feedback == app.motors[at].feedback
                && after.motors[at].error == app.motors[at].error
            &&& forall|i: int|
                0 <= i < app.motors.len() && i != at ==> #[trigger] after.motors[i]
                    == app.motors[i]
            &&& after == (AppSpec { motors: after.motors, ..app })
        }),
{
}

/// A motor that was just found has the identity it was found with, counts as disabled, and
/// nothing else is known of it.
pub proof fn law_found_unknown(motor: MotorSpec, uuid: Option<Seq<u8>>)
    ensures
        new_entry(motor, uuid).motor == motor,
        new_entry(motor, uuid).uuid == uuid,
        !new_entry(motor, uuid).enabled,
        new_entry(motor, uuid).feedback is None,
        new_entry(motor, uuid).error is None,
{
}

/// A motor is inserted behind all motors whose IDs are not above its own, and those with IDs
/// above it follow: nothing else moves.
pub proof fn law_inserted_place(motors: Seq<EntrySpec>, entry: EntrySpec, k: int)
    requires
        0 <= k <= motors.len(),
        forall|i: int|
            0 <= i < k ==> (#[trigger] motors[i]).motor.id() <= entry.motor.id(),
        forall|i: int|
            k <= i < motors.len() ==> (#[trigger] motors[i]).motor.id() > entry.motor.id(),
    ensures
        inserted(motors, entry).len() == motors.len() + 1,
        inserted(motors, entry)[k] == entry,
        forall|i: int| 0 <= i < k ==> #[trigger] inserted(motors, entry)[i] == motors[i],
        forall|i: int|
            k <= i < motors.len() ==> inserted(motors, entry)[i + 1] == #[trigger] motors[i],
{
    lemma_inserted(motors, entry, k);
}

/// Setting a motor in motion: it is disabled first, the run mode is the one that the target is
/// for, it is enabled, and the target comes last. The speed limit is set for a move alone.
pub proof fn law_motion_order(motion: Motion, value: u32, limit: u32)
    ensures
        ({
            let plan = motion_plan(motion, value, limit);
            let n = plan.len() as int;
            &&& plan[0] == Step::Disable
            &&& plan[n - 2] == Step::Enable
            &&& motion == Motion::Move ==> n == 5 && plan[1] == Step::SetRunMode(RunMode::Position)
                && plan[2] == Step::SetSpeedLimit(limit) && plan[4] == Step::SetPosition(value)
            &&& motion == Motion::Spin ==> n == 4 && plan[1] == Step::SetRunMode(RunMode::Velocity)
                && plan[3] == Step::SetVelocity(value)
            &&& motion == Motion::Torque ==> n == 4 && plan[1] == Step::SetRunMode(RunMode::Torque)
                && plan[3] == Step::SetTorque(value)
        }),
{
}

/// What is said of a motion ends with its value and the unit of that value: radians for a
/// move, radians per second for a spin, newton metres for a torque. A move tells its limit too.
pub proof fn law_motion_said(damiao: bool, value: Seq<char>, limit: Seq<char>)
    ensures
        motion_text(Motion::Spin, damiao, value, limit) == (if damiao {
            "DAMIAO velocity target sent: "@
        } else {
            "Spinning at "@
        }) + value + " rad/s"@,
        motion_text(Motion::Torque, damiao, value, limit) == (if damiao {
            "DAMIAO torque target sent: "@
        } else {
            "Applying torque "@
        }) + value + " Nm"@,
        motion_text(Motion::Move, damiao, value, limit) == (if damiao {
            "DAMIAO move target sent: pos="@ + value + " (vel clamp="@
        } else {
            "Moving to "@ + value + " rad (speed limit="@
        }) + limit + ")"@,
        motion_failure(Motion::Move, value) == "Move to failed: "@ + value,
        motion_failure(Motion::Spin, value) == "Spin failed: "@ + value,
        motion_failure(Motion::Torque, value) == "Torque failed: "@ + value,
{
}

/// A DAMIAO motor tells its position under the names of the position, its velocity under the
/// names of the velocity, and its one mode under the names of the mode. Under any other name
/// it tells neither.
pub proof fn law_damiao_param_said(input: Seq<char>, position: Seq<char>, velocity: Seq<char>)
    ensures
        ({
            let shown = crate::text::trimmed(input);
            let name = crate::text::lowercase(shown);
            let text = damiao_param_text(input, position, velocity);
            &&& name == "mech_pos"@ || name == "position"@ ==> text == shown + " = "@ + position
            &&& name == "mech_vel"@ || name == "velocity"@ ==> text == shown + " = "@ + velocity
            &&& name == "run_mode"@ || name == "mode"@ ==> text == shown + " = mit"@
            &&& !seq![
                "mech_pos"@,
                "position"@,
                "mech_vel"@,
                "velocity"@,
                "run_mode"@,
                "mode"@,
            ].contains(name) ==> text == "DAMIAO read-param '"@ + shown
                + "' is not available in MIT-only mode"@
        }),
{
    reveal_strlit("mech_pos");
    reveal_strlit("position");
    reveal_strlit("mech_vel");
    reveal_strlit("velocity");
    reveal_strlit("run_mode");
    reveal_strlit("mode");
    assert("mech_pos"@[0] != "position"@[0]);
    assert("mech_pos"@[5] != "mech_vel"@[5]);
    assert("mech_pos"@[0] != "velocity"@[0]);
    assert("mech_pos"@[0] != "run_mode"@[0]);
    assert("position"@[0] != "mech_vel"@[0]);
    assert("position"@[0] != "velocity"@[0]);
    assert("position"@[0] != "run_mode"@[0]);
    assert("mech_vel"@[0] != "velocity"@[0]);
    assert("mech_vel"@[0] != "run_mode"@[0]);
    assert("velocity"@[0] != "run_mode"@[0]);
    assert("mech_pos"@.len() == 8);
    assert("position"@.len() == 8);
    assert("mech_vel"@.len() == 8);
    assert("velocity"@.len() == 8);
    assert("run_mode"@.len() == 8);
    assert("mode"@.len() == 4);
    let names = seq!["mech_pos"@, "position"@, "mech_vel"@, "velocity"@, "run_mode"@, "mode"@];
    assert(names[0] == "mech_pos"@ && names[1] == "position"@ && names[2] == "mech_vel"@
        && names[3] == "velocity"@ && names[4] == "run_mode"@ && names[5] == "mode"@);
}

/// A motor is listed exactly if the list has a motor of the same vendor with the same ID.
pub proof fn law_listed(motors: Seq<EntrySpec>, motor: MotorSpec)
    ensures
        is_listed(motors, motor) <==> exists|i: int|
            0 <= i < motors.len() && (#[trigger] motors[i]).motor.id() == motor.id() && (
            motors[i].motor is Damiao <==> motor is Damiao),
{
    if is_listed(motors, motor) {
        let i = choose|i: int|
            0 <= i < motors.len() && (#[trigger] motors[i]).motor.spec_key() == motor.spec_key();
        crate::driver::law_key_identifies(motors[i].motor, motor, 0, false);
    }
    if exists|i: int|
        0 <= i < motors.len() && (#[trigger] motors[i]).motor.id() == motor.id() && (
        motors[i].motor is Damiao <==> motor is Damiao) {
        let i = choose|i: int|
            0 <= i < motors.len() && (#[trigger] motors[i]).motor.id() == motor.id() && (
            motors[i].motor is Damiao <==> motor is Damiao);
        crate::driver::law_key_identifies(motors[i].motor, motor, 0, false);
    }
}

/// Feedback is told with each value behind its own name.
pub proof fn law_feedback_said(shown: Shown)
    ensures
        shown_text(shown) == "pos="@ + shown.position@ + " vel="@ + shown.velocity@ + " torque="@
            + shown.torque@,
{
}

/// A motor is selected exactly if the selection is a place in the list, and a list with motors
/// always has one that is.
pub proof fn law_has_selection(app: App)
    requires
        app.valid(),
    ensures
        app.has_selection() <==> app.motors@.len() > 0,
        app.has_selection() <==> app@.selected() is Some,
{
    assert(app@.motors.len() == app.motors@.len());
}

} // verus!
