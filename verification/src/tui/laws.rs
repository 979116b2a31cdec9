//! What holds of the application across key presses.

use vstd::prelude::*;

use crate::protocol::MotorModel;
use crate::tui::fields::{Command, FieldSpec, MOTOR_KIND_CHOICES};
use crate::tui::state::{AppSpec, EffectSpec, Focus, Key, KeyCode};

verus! {

/// The application after a series of key presses.
pub open spec fn keys_pressed(app: AppSpec, keys: Seq<Key>) -> AppSpec
    decreases keys.len(),
{
    if keys.len() == 0 {
        app
    } else {
        keys_pressed(app, keys.drop_last()).key_pressed(keys.last()).0
    }
}

/// Whether a key neither ends the editing of a value nor the application.
pub open spec fn goes_on(key: Key) -> bool {
    key.code != KeyCode::Enter && key.code != KeyCode::Esc && !(key.control && key.code
        == KeyCode::Char('c'))
}

/// Ctrl+C ends the application wherever it is, and changes nothing else. No other key ends it
/// while a value is being typed or bilateral control is running, and elsewhere only `q` does.
pub proof fn law_quit_keys(app: AppSpec, key: Key)
    requires
        !app.quit,
    ensures
        key.control && key.code == KeyCode::Char('c') ==> app.key_pressed(key).0 == (AppSpec {
            quit: true,
            ..app
        }),
        app.key_pressed(key).0.quit <==> key.control && key.code == KeyCode::Char('c') || key.code
            == KeyCode::Char('q') && !app.editing_param && !app.input_mode && !app.bilateral,
{
}

/// Shift+Tab goes back to the panel that Tab came from.
pub proof fn law_tab_back(app: AppSpec)
    requires
        app.valid(),
        app.focus != Focus::Input,
    ensures
        app.panel_key(KeyCode::Tab).0.panel_key(KeyCode::BackTab).0 == app,
{
    assert(app.focus == Focus::Params ==> app.command().takes_params()) by {
        assert(app.params.len() == crate::tui::fields::command_fields(app.command()).len());
    }
}

/// Switching between classic CAN and CAN FD twice changes nothing.
pub proof fn law_fd_twice(app: AppSpec)
    ensures
        app.panel_key(KeyCode::Char('f')).0.panel_key(KeyCode::Char('f')).0 == app,
{
}

/// While a value is being edited, a key that does not end the editing changes nothing but the
/// value as typed so far.
proof fn lemma_typing(app: AppSpec, keys: Seq<Key>)
    requires
        app.editing_param,
        forall|i: int| 0 <= i < keys.len() ==> goes_on(#[trigger] keys[i]),
    ensures
        keys_pressed(app, keys) == (AppSpec {
            param_edit_buf: keys_pressed(app, keys).param_edit_buf,
            ..app
        }),
    decreases keys.len(),
{
    if keys.len() > 0 {
        let before = keys.drop_last();
        assert forall|i: int| 0 <= i < before.len() implies goes_on(#[trigger] before[i]) by {
            assert(before[i] == keys[i]);
        }
        lemma_typing(app, before);
        assert(goes_on(keys[keys.len() - 1]));
    }
}

/// Editing a value and then pressing Esc changes nothing, whatever was typed.
pub proof fn law_edit_dropped(app: AppSpec, keys: Seq<Key>, enter: Key, esc: Key)
    requires
        app.valid(),
        app.focus == Focus::Params,
        !app.editing_param,
        !app.input_mode,
        app.param_edit_buf.len() == 0,
        enter.code == KeyCode::Enter,
        esc.code == KeyCode::Esc,
        forall|i: int| 0 <= i < keys.len() ==> goes_on(#[trigger] keys[i]),
    ensures
        keys_pressed(app.key_pressed(enter).0, keys).key_pressed(esc).0 == app,
{
    lemma_typing(app.key_pressed(enter).0, keys);
    assert(app.param_edit_buf =~= Seq::empty());
}

/// Editing a value and then pressing Enter changes that value and no other, and asks for the
/// values to be saved.
pub proof fn law_edit_taken(app: AppSpec, keys: Seq<Key>, enter: Key)
    requires
        app.valid(),
        app.focus == Focus::Params,
        !app.editing_param,
        !app.input_mode,
        enter.code == KeyCode::Enter,
        forall|i: int| 0 <= i < keys.len() ==> goes_on(#[trigger] keys[i]),
    ensures
        ({
            let typed = keys_pressed(app.key_pressed(enter).0, keys);
            let (after, effect) = typed.key_pressed(enter);
            &&& effect == EffectSpec::Save
            &&& after.params.len() == app.params.len()
            &&& after.params[app.selected_param] == (FieldSpec {
                value: typed.param_edit_buf,
                ..app.params[app.selected_param]
            })
            &&& forall|i: int|
                0 <= i < app.params.len() && i != app.selected_param ==> #[trigger] after.params[i]
                    == app.params[i]
            &&& !after.editing_param
        }),
{
    lemma_typing(app.key_pressed(enter).0, keys);
}

// ---------------------------------------------------------------------------
// Saved values
// ---------------------------------------------------------------------------

/// Whether no two parameters have the same name.
pub open spec fn distinct_names(params: Seq<FieldSpec>) -> bool {
    forall|i: int, j: int|
        0 <= i < j < params.len() ==> (#[trigger] params[i]).name != (#[trigger] params[j]).name
}

/// A number made of the length of a text, its first character and its last.
spec fn digest(text: Seq<char>) -> int {
    (text.len() * 256 + text[0] as int) * 256 + text.last() as int
}

proof fn lemma_bilateral_names()
    ensures
        distinct_names(crate::tui::fields::command_fields(Command::Bilateral)),
{
    let fields = crate::tui::fields::command_fields(Command::Bilateral);
    let digests: Seq<int> = seq![
        617572, 486500, 552054, 616036, 484964, 550518, 421220, 158576, 158564,
        484194, 489075, 550499, 485729, 484468, 616816, 483700, 614756, 620132,
        683380, 550504, 618350, 684900, 750448, 489076, 554103,
    ];
    reveal_strlit("lead_kind");
    reveal_strlit("lead_id");
    reveal_strlit("lead_inv");
    reveal_strlit("foll_kind");
    reveal_strlit("foll_id");
    reveal_strlit("foll_inv");
    reveal_strlit("method");
    reveal_strlit("kp");
    reveal_strlit("kd");
    reveal_strlit("coulomb");
    reveal_strlit("viscous");
    reveal_strlit("force_sc");
    reveal_strlit("inertia");
    reveal_strlit("dob_cut");
    reveal_strlit("iner_comp");
    reveal_strlit("acc_cut");
    reveal_strlit("assist_kd");
    reveal_strlit("vel_ahead");
    reveal_strlit("max_assist");
    reveal_strlit("f_thresh");
    reveal_strlit("open_sign");
    reveal_strlit("safety_rad");
    reveal_strlit("safety_jump");
    reveal_strlit("vel_cut");
    reveal_strlit("tau_slew");
    assert(fields.len() == 25 && digests.len() == 25);
    assert(forall|i: int| 0 <= i < 25 ==> digest((#[trigger] fields[i]).name) == digests[i]);
    assert(forall|i: int, j: int|
        0 <= i < j < 25 ==> #[trigger] digests[i] != #[trigger] digests[j]);
}

proof fn lemma_assist_names()
    ensures
        distinct_names(crate::tui::fields::command_fields(Command::AssistTest)),
{
    let fields = crate::tui::fields::command_fields(Command::AssistTest);
    let digests: Seq<int> = seq![
        683364, 552292, 614756, 620132, 683380,
        484194, 489075, 485729, 616816, 483700,
    ];
    reveal_strlit("motor_kind");
    reveal_strlit("motor_id");
    reveal_strlit("assist_kd");
    reveal_strlit("vel_ahead");
    reveal_strlit("max_assist");
    reveal_strlit("coulomb");
    reveal_strlit("viscous");
    reveal_strlit("inertia");
    reveal_strlit("iner_comp");
    reveal_strlit("acc_cut");
    assert(fields.len() == 10 && digests.len() == 10);
    assert(forall|i: int| 0 <= i < 10 ==> digest((#[trigger] fields[i]).name) == digests[i]);
    assert(forall|i: int, j: int|
        0 <= i < j < 10 ==> #[trigger] digests[i] != #[trigger] digests[j]);
}

/// No two parameters of a command have the same name.
pub proof fn law_names_distinct(command: Command)
    ensures
        distinct_names(crate::tui::fields::command_fields(command)),
{
    match command {
        Command::Bilateral => {
            lemma_bilateral_names();
        },
        Command::Scan => {
            reveal_strlit("from");
            reveal_strlit("to");
            reveal_strlit("vendor");
            assert("from"@.len() == 4 && "to"@.len() == 2 && "vendor"@.len() == 6);
        },
        Command::WriteParam => {
            reveal_strlit("param");
            reveal_strlit("value");
            assert("param"@[0] != "value"@[0]);
        },
        Command::MoveTo => {
            reveal_strlit("position");
            reveal_strlit("speed");
            assert("position"@.len() == 8 && "speed"@.len() == 5);
        },
        Command::MitControl => {
            reveal_strlit("pos");
            reveal_strlit("vel");
            reveal_strlit("kp");
            reveal_strlit("kd");
            reveal_strlit("torque");
            assert("pos"@[0] != "vel"@[0]);
            assert("kp"@[1] != "kd"@[1]);
        },
        Command::ZeroPair => {
            reveal_strlit("lead_kind");
            reveal_strlit("lead_id");
            reveal_strlit("foll_kind");
            reveal_strlit("foll_id");
            assert("lead_kind"@.len() == 9 && "foll_kind"@.len() == 9);
            assert("lead_id"@.len() == 7 && "foll_id"@.len() == 7);
            assert("lead_kind"@[0] != "foll_kind"@[0]);
            assert("lead_id"@[0] != "foll_id"@[0]);
        },
        Command::AssistTest => {
            lemma_assist_names();
        },
        _ => {},
    }
}

/// What is saved of parameters is their values, and nothing else changes.
proof fn lemma_params_saved(
    config: Map<(Seq<char>, Seq<char>), Seq<char>>,
    label: Seq<char>,
    params: Seq<FieldSpec>,
)
    requires
        distinct_names(params),
    ensures
        forall|i: int|
            0 <= i < params.len() ==> crate::tui::state::params_saved(
                config,
                label,
                params,
            ).contains_pair((label, (#[trigger] params[i]).name), params[i].value),
    decreases params.len(),
{
    if params.len() > 0 {
        let before = params.drop_last();
        assert forall|i: int, j: int| 0 <= i < j < before.len() implies (
        #[trigger] before[i]).name != (#[trigger] before[j]).name by {
            assert(before[i] == params[i] && before[j] == params[j]);
        }
        lemma_params_saved(config, label, before);
        let saved = crate::tui::state::params_saved(config, label, params);
        assert forall|i: int| 0 <= i < params.len() implies saved.contains_pair(
            (label, (#[trigger] params[i]).name),
            params[i].value,
        ) by {
            if i < params.len() - 1 {
                assert(before[i] == params[i]);
                assert(params[i].name != params[params.len() - 1].name);
            }
        }
    }
}

/// The values that were saved for a command come back whenever it is selected again: as long
/// as the configuration is that after the editing, they do not depend on what happened in
/// between.
pub proof fn law_saved_values_return(app: AppSpec, later: AppSpec)
    requires
        app.valid(),
        app.editing_param,
        later.config == app.edit_key(KeyCode::Enter).0.config,
    ensures
        later.select_command(app.selected_cmd).params == app.edit_key(KeyCode::Enter).0.params,
{
    let command = app.command();
    let fields = crate::tui::fields::command_fields(command);
    let after = app.edit_key(KeyCode::Enter).0;
    law_names_distinct(command);
    assert forall|i: int| 0 <= i < after.params.len() implies #[trigger] after.params[i]
        == (FieldSpec { value: after.params[i].value, ..fields[i] }) by {
        assert(crate::tui::state::same_field(app.params[i], fields[i]));
    }
    assert forall|i: int, j: int| 0 <= i < j < after.params.len() implies (
    #[trigger] after.params[i]).name != (#[trigger] after.params[j]).name by {
        assert(after.params[i].name == fields[i].name);
        assert(after.params[j].name == fields[j].name);
    }
    lemma_params_saved(app.config, command.spec_label(), after.params);
    let back = later.select_command(app.selected_cmd).params;
    assert forall|i: int| 0 <= i < back.len() implies #[trigger] back[i] == after.params[i] by {
        assert(after.params[i].name == fields[i].name);
        assert(after.config.contains_pair(
            (command.spec_label(), after.params[i].name),
            after.params[i].value,
        ));
    }
    assert(back =~= after.params);
}

/// Running a command hands it the values of its parameters, one word for each, as long as
/// each value is one word.
pub proof fn law_run_on_values(app: AppSpec)
    requires
        forall|i: int|
            0 <= i < app.params.len() ==> crate::text::is_word((#[trigger] app.params[i]).value),
    ensures
        app.run_selected() matches EffectSpec::Run(command, input) && command == app.command()
            && crate::text::words(input) == crate::tui::state::values(app.params),
{
    let values = crate::tui::state::values(app.params);
    assert forall|i: int| 0 <= i < values.len() implies crate::text::is_word(
        #[trigger] values[i],
    ) by {
        assert(values[i] == app.params[i].value);
    }
    crate::text::law_join_words(values);
}

// ---------------------------------------------------------------------------
// Choices
// ---------------------------------------------------------------------------

/// A text of small letters, digits and underscores is its own lowercase form.
proof fn lemma_lowercase(text: Seq<char>)
    requires
        forall|i: int|
            0 <= i < text.len() ==> ('a' <= #[trigger] text[i] <= 'z' || '0' <= text[i] <= '9'
                || text[i] == '_'),
    ensures
        crate::text::lowercase(text) == text,
{
    assert(vstd::utf8::is_ascii_chars(text));
    assert(crate::text::lowercase(text) =~= text);
}

/// One more choice of a list of choices.
proof fn lemma_join_step(parts: Seq<Seq<char>>, text: Seq<char>, k: int, n: int)
    requires
        0 < k < parts.len(),
        0 <= n,
        n + 1 + parts[k].len() <= text.len(),
        crate::text::joined(parts.take(k), seq!['|']) == text.take(n),
        text[n] == '|',
        forall|j: int| 0 <= j < parts[k].len() ==> #[trigger] parts[k][j] == text[n + 1 + j],
    ensures
        crate::text::joined(parts.take(k + 1), seq!['|']) == text.take(
            n + 1 + parts[k].len(),
        ),
{
    let more = parts.take(k + 1);
    assert(more.drop_last() =~= parts.take(k));
    assert(more.last() == parts[k]);
    assert(text.take(n) + seq!['|'] + parts[k] =~= text.take(n + 1 + parts[k].len()));
}

/// The kinds of motors that can be chosen.
proof fn lemma_kinds()
    ensures
        crate::text::pieces(MOTOR_KIND_CHOICES@, '|') == seq!["rs00"@, "rs01"@, "rs02"@, "rs03"@, "rs04"@, "rs05"@, "rs06"@, "dm4310"@],
{
    let text = MOTOR_KIND_CHOICES@;
    let kinds: Seq<Seq<char>> = seq!["rs00"@, "rs01"@, "rs02"@, "rs03"@, "rs04"@, "rs05"@, "rs06"@, "dm4310"@];
    reveal_strlit("rs00|rs01|rs02|rs03|rs04|rs05|rs06|dm4310");
    reveal_strlit("rs00");
    reveal_strlit("rs01");
    reveal_strlit("rs02");
    reveal_strlit("rs03");
    reveal_strlit("rs04");
    reveal_strlit("rs05");
    reveal_strlit("rs06");
    reveal_strlit("dm4310");
    assert(kinds.take(1) =~= seq![kinds[0]]);
    assert(text.take(4) =~= kinds[0]);
    lemma_join_step(kinds, text, 1, 4);
    lemma_join_step(kinds, text, 2, 9);
    lemma_join_step(kinds, text, 3, 14);
    lemma_join_step(kinds, text, 4, 19);
    lemma_join_step(kinds, text, 5, 24);
    lemma_join_step(kinds, text, 6, 29);
    lemma_join_step(kinds, text, 7, 34);
    assert(kinds.take(8) =~= kinds);
    assert(text.take(41) =~= text);
    crate::text::law_join_pieces(kinds, '|');
}

/// Every kind of motor that can be chosen is a known one: choosing it gives no warning.
pub proof fn law_kinds_known(
    i: int,
    id: Seq<char>,
    default_id: u8,
    host_id: u8,
    default_model: MotorModel,
)
    requires
        0 <= i < crate::text::pieces(MOTOR_KIND_CHOICES@, '|').len(),
    ensures
        crate::tui::commands::motor_of_kind(
            crate::text::pieces(MOTOR_KIND_CHOICES@, '|')[i],
            id,
            default_id,
            host_id,
            default_model,
        ).1 is None,
{
    lemma_kinds();
    reveal_strlit("rs00");
    reveal_strlit("rs01");
    reveal_strlit("rs02");
    reveal_strlit("rs03");
    reveal_strlit("rs04");
    reveal_strlit("rs05");
    reveal_strlit("rs06");
    reveal_strlit("dm4310");
    lemma_lowercase(crate::text::pieces(MOTOR_KIND_CHOICES@, '|')[i]);
}

/// The parameters that can be chosen for reading.
proof fn lemma_read_choices()
    ensures
        crate::text::pieces("mech_pos|mech_vel|iq_filt|vbus|limit_torque|limit_spd|limit_cur|run_mode|loc_kp|spd_kp|spd_ki"@, '|') == seq!["mech_pos"@, "mech_vel"@, "iq_filt"@, "vbus"@, "limit_torque"@, "limit_spd"@, "limit_cur"@, "run_mode"@, "loc_kp"@, "spd_kp"@, "spd_ki"@],
{
    let text = "mech_pos|mech_vel|iq_filt|vbus|limit_torque|limit_spd|limit_cur|run_mode|loc_kp|spd_kp|spd_ki"@;
    let kinds: Seq<Seq<char>> = seq!["mech_pos"@, "mech_vel"@, "iq_filt"@, "vbus"@, "limit_torque"@, "limit_spd"@, "limit_cur"@, "run_mode"@, "loc_kp"@, "spd_kp"@, "spd_ki"@];
    reveal_strlit("mech_pos|mech_vel|iq_filt|vbus|limit_torque|limit_spd|limit_cur|run_mode|loc_kp|spd_kp|spd_ki");
    reveal_strlit("mech_pos");
    reveal_strlit("mech_vel");
    reveal_strlit("iq_filt");
    reveal_strlit("vbus");
    reveal_strlit("limit_torque");
    reveal_strlit("limit_spd");
    reveal_strlit("limit_cur");
    reveal_strlit("run_mode");
    reveal_strlit("loc_kp");
    reveal_strlit("spd_kp");
    reveal_strlit("spd_ki");
    assert(kinds.take(1) =~= seq![kinds[0]]);
    assert(text.take(8) =~= kinds[0]);
    lemma_join_step(kinds, text, 1, 8);
    lemma_join_step(kinds, text, 2, 17);
    lemma_join_step(kinds, text, 3, 25);
    lemma_join_step(kinds, text, 4, 30);
    lemma_join_step(kinds, text, 5, 43);
    lemma_join_step(kinds, text, 6, 53);
    lemma_join_step(kinds, text, 7, 63);
    lemma_join_step(kinds, text, 8, 72);
    lemma_join_step(kinds, text, 9, 79);
    lemma_join_step(kinds, text, 10, 86);
    assert(kinds.take(11) =~= kinds);
    assert(text.take(93) =~= text);
    crate::text::law_join_pieces(kinds, '|');
}

/// The parameters that can be chosen for writing.
proof fn lemma_write_choices()
    ensures
        crate::text::pieces("limit_torque|limit_spd|limit_cur|loc_kp|spd_kp|spd_ki"@, '|') == seq!["limit_torque"@, "limit_spd"@, "limit_cur"@, "loc_kp"@, "spd_kp"@, "spd_ki"@],
{
    let text = "limit_torque|limit_spd|limit_cur|loc_kp|spd_kp|spd_ki"@;
    let kinds: Seq<Seq<char>> = seq!["limit_torque"@, "limit_spd"@, "limit_cur"@, "loc_kp"@, "spd_kp"@, "spd_ki"@];
    reveal_strlit("limit_torque|limit_spd|limit_cur|loc_kp|spd_kp|spd_ki");
    reveal_strlit("limit_torque");
    reveal_strlit("limit_spd");
    reveal_strlit("limit_cur");
    reveal_strlit("loc_kp");
    reveal_strlit("spd_kp");
    reveal_strlit("spd_ki");
    assert(kinds.take(1) =~= seq![kinds[0]]);
    assert(text.take(12) =~= kinds[0]);
    lemma_join_step(kinds, text, 1, 12);
    lemma_join_step(kinds, text, 2, 22);
    lemma_join_step(kinds, text, 3, 32);
    lemma_join_step(kinds, text, 4, 39);
    lemma_join_step(kinds, text, 5, 46);
    assert(kinds.take(6) =~= kinds);
    assert(text.take(53) =~= text);
    crate::text::law_join_pieces(kinds, '|');
}

/// Every parameter that can be chosen for reading or writing is a known one.
pub proof fn law_params_known(command: Command, choices: Seq<char>, i: int)
    requires
        command == Command::ReadParam || command == Command::WriteParam,
        crate::tui::fields::command_fields(command)[0].choices == Some(choices),
        0 <= i < crate::text::pieces(choices, '|').len(),
    ensures
        crate::tui::commands::param_named(
            crate::text::lowercase(crate::text::pieces(choices, '|')[i]),
        ) is Some,
{
    lemma_read_choices();
    lemma_write_choices();
    reveal_strlit("mech_pos");
    reveal_strlit("mech_vel");
    reveal_strlit("iq_filt");
    reveal_strlit("vbus");
    reveal_strlit("limit_torque");
    reveal_strlit("limit_spd");
    reveal_strlit("limit_cur");
    reveal_strlit("run_mode");
    reveal_strlit("loc_kp");
    reveal_strlit("spd_kp");
    reveal_strlit("spd_ki");
    lemma_lowercase(crate::text::pieces(choices, '|')[i]);
}

/// The run modes that can be chosen.
proof fn lemma_mode_choices()
    ensures
        crate::text::pieces("mit|position|velocity|torque"@, '|') == seq!["mit"@, "position"@, "velocity"@, "torque"@],
{
    let text = "mit|position|velocity|torque"@;
    let kinds: Seq<Seq<char>> = seq!["mit"@, "position"@, "velocity"@, "torque"@];
    reveal_strlit("mit|position|velocity|torque");
    reveal_strlit("mit");
    reveal_strlit("position");
    reveal_strlit("velocity");
    reveal_strlit("torque");
    assert(kinds.take(1) =~= seq![kinds[0]]);
    assert(text.take(3) =~= kinds[0]);
    lemma_join_step(kinds, text, 1, 3);
    lemma_join_step(kinds, text, 2, 12);
    lemma_join_step(kinds, text, 3, 21);
    assert(kinds.take(4) =~= kinds);
    assert(text.take(28) =~= text);
    crate::text::law_join_pieces(kinds, '|');
}

/// Every run mode that can be chosen is a known one.
pub proof fn law_modes_known(choices: Seq<char>, i: int)
    requires
        crate::tui::fields::command_fields(Command::SetRunMode)[0].choices == Some(choices),
        0 <= i < crate::text::pieces(choices, '|').len(),
    ensures
        crate::tui::commands::mode_named(
            crate::text::lowercase(crate::text::pieces(choices, '|')[i]),
        ) is Some,
{
    lemma_mode_choices();
    reveal_strlit("mit");
    reveal_strlit("position");
    reveal_strlit("velocity");
    reveal_strlit("torque");
    lemma_lowercase(crate::text::pieces(choices, '|')[i]);
}

// ---------------------------------------------------------------------------
// Selections
// ---------------------------------------------------------------------------

/// Down and `j` go to the next place of the list that has the focus, Up and `k` to the one
/// before, and both stop at the ends. Nothing runs, and of the motors, the log, the focus and
/// the other lists' selections nothing changes.
pub proof fn law_selection_moves(app: AppSpec, down: KeyCode, up: KeyCode)
    requires
        app.valid(),
        app.focus != Focus::Input,
        down == KeyCode::Down || down == KeyCode::Char('j'),
        up == KeyCode::Up || up == KeyCode::Char('k'),
    ensures
        ({
            let (lower, low_effect) = app.panel_key(down);
            let (upper, up_effect) = app.panel_key(up);
            let n = if app.focus == Focus::Motors {
                app.motors.len() as int
            } else if app.focus == Focus::Commands {
                16
            } else {
                app.params.len() as int
            };
            let at = place(app);
            &&& low_effect == EffectSpec::Nothing && up_effect == EffectSpec::Nothing
            &&& place(lower) == if at + 1 < n {
                at + 1
            } else {
                at
            }
            &&& place(upper) == if at > 0 {
                at - 1
            } else {
                at
            }
            &&& only_moved(app, lower) && only_moved(app, upper)
        }),
{
}

/// The selection of the list that has the focus.
pub open spec fn place(app: AppSpec) -> int {
    if app.focus == Focus::Motors {
        app.selected_motor
    } else if app.focus == Focus::Commands {
        app.selected_cmd
    } else {
        app.selected_param
    }
}

/// Whether nothing but the selection of the list that has the focus has changed, and with
/// another command its parameters.
pub open spec fn only_moved(before: AppSpec, after: AppSpec) -> bool {
    &&& after.focus == before.focus && after.motors == before.motors && after.log == before.log
    &&& after.config == before.config && after.fd == before.fd && after.quit == before.quit
    &&& after.editing_param == before.editing_param && after.input_mode == before.input_mode
    &&& before.focus != Focus::Motors ==> after.selected_motor == before.selected_motor
    &&& before.focus != Focus::Commands ==> after.selected_cmd == before.selected_cmd
        && after.params == before.params
    &&& before.focus == Focus::Motors ==> after.selected_param == before.selected_param
    &&& before.focus == Focus::Commands ==> after.selected_param == 0 || after == before
}

/// Down and then Up is back at the same place, and so is Up and then Down.
pub proof fn law_selection_back(app: AppSpec)
    requires
        app.valid(),
        app.focus != Focus::Input,
    ensures
        app.panel_key(KeyCode::Down).0 != app ==> place(
            app.panel_key(KeyCode::Down).0.panel_key(KeyCode::Up).0,
        ) == place(app),
        app.panel_key(KeyCode::Up).0 != app ==> place(
            app.panel_key(KeyCode::Up).0.panel_key(KeyCode::Down).0,
        ) == place(app),
{
    law_selection_moves(app, KeyCode::Down, KeyCode::Up);
}

/// The list of commands has every command, and each once.
pub proof fn law_each_command_once(command: Command)
    ensures
        Command::list().len() == 16,
        exists|i: int|
            0 <= i < Command::list().len() && #[trigger] Command::list()[i] == command && forall|
                j: int,
            |
                0 <= j < Command::list().len() && #[trigger] Command::list()[j] == command ==> j
                    == i,
{
    let list = Command::list();
    let i: int = choose|i: int| 0 <= i < 16 && #[trigger] list[i] == command;
    assert(list[0] == list[0] && list[1] == list[1] && list[2] == list[2] && list[3] == list[3]
        && list[4] == list[4] && list[5] == list[5] && list[6] == list[6] && list[7] == list[7]
        && list[8] == list[8] && list[9] == list[9] && list[10] == list[10] && list[11]
        == list[11] && list[12] == list[12] && list[13] == list[13] && list[14] == list[14]
        && list[15] == list[15]);
    assert(0 <= i < 16 && list[i] == command);
}

/// Another command comes with its own parameters, each with the value that was saved for the
/// command under that name, else with the value of the parameter of the same name that was
/// shown before, else with its default.
pub proof fn law_values_of_selected(app: AppSpec, index: int, i: int)
    requires
        app.valid(),
        0 <= index < Command::list().len(),
        0 <= i < crate::tui::fields::command_fields(Command::list()[index]).len(),
    ensures
        ({
            let field = crate::tui::fields::command_fields(Command::list()[index])[i];
            let after = app.select_command(index);
            let label = Command::list()[index].spec_label();
            &&& after.params.len() == crate::tui::fields::command_fields(
                Command::list()[index],
            ).len()
            &&& after.params[i].name == field.name && after.params[i].desc == field.desc
                && after.params[i].choices == field.choices
            &&& app.config.contains_key((label, field.name)) ==> after.params[i].value
                == app.config[(label, field.name)]
            &&& !app.config.contains_key((label, field.name)) ==> {
                ||| exists|j: int|
                    0 <= j < app.params.len() && #[trigger] app.params[j].name == field.name
                        && after.params[i].value == app.params[j].value
                ||| after.params[i].value == field.value && forall|j: int|
                    0 <= j < app.params.len() ==> #[trigger] app.params[j].name != field.name
            }
        }),
{
    let field = crate::tui::fields::command_fields(Command::list()[index])[i];
    lemma_value_of(app.params, field.name);
}

proof fn lemma_value_of(params: Seq<FieldSpec>, name: Seq<char>)
    ensures
        match crate::tui::state::value_of(params, name) {
            Some(value) => exists|j: int|
                0 <= j < params.len() && #[trigger] params[j].name == name && params[j].value
                    == value,
            None => forall|j: int|
                0 <= j < params.len() ==> #[trigger] params[j].name != name,
        },
    decreases params.len(),
{
    if params.len() > 0 && params[0].name != name {
        let rest = params.drop_first();
        lemma_value_of(rest, name);
        match crate::tui::state::value_of(rest, name) {
            Some(value) => {
                let j = choose|j: int|
                    0 <= j < rest.len() && #[trigger] rest[j].name == name && rest[j].value == value;
                assert(params[j + 1].name == name);
            },
            None => {
                assert forall|j: int| 0 <= j < params.len() implies #[trigger] params[j].name
                    != name by {
                    if j > 0 {
                        assert(rest[j - 1].name != name);
                    }
                }
            },
        }
    }
}

// ---------------------------------------------------------------------------
// Panels and typing
// ---------------------------------------------------------------------------

/// Tab goes from the motors to the commands, on to the parameters if the command has some, and
/// back to the motors. Right and `l` go from the commands to the parameters, Left and `h` back.
/// No key changes the panel otherwise.
pub proof fn law_panels(app: AppSpec, code: KeyCode)
    requires
        app.valid(),
        app.focus != Focus::Input,
    ensures
        ({
            let after = app.panel_key(code).0.focus;
            let some = app.params.len() > 0;
            if code == KeyCode::Tab {
                &&& app.focus == Focus::Motors ==> after == Focus::Commands
                &&& app.focus == Focus::Commands && some ==> after == Focus::Params
                &&& app.focus == Focus::Commands && !some ==> after == Focus::Motors
                &&& app.focus == Focus::Params ==> after == Focus::Motors
            } else if code == KeyCode::BackTab {
                &&& app.focus == Focus::Commands ==> after == Focus::Motors
                &&& app.focus == Focus::Params ==> after == Focus::Commands
                &&& app.focus == Focus::Motors && some ==> after == Focus::Params
                &&& app.focus == Focus::Motors && !some ==> after == Focus::Commands
            } else if app.focus == Focus::Commands && (code == KeyCode::Right || code
                == KeyCode::Char('l')) {
                after == if some {
                    Focus::Params
                } else {
                    Focus::Commands
                }
            } else if app.focus == Focus::Params && (code == KeyCode::Left || code
                == KeyCode::Char('h')) {
                after == Focus::Commands
            } else {
                after == app.focus
            }
        }),
{
    assert(app.command().takes_params() <==> app.params.len() > 0);
}

/// What runs, and when. Enter on a motor reads its status, Enter on a command and `x` on a
/// parameter run the selected command, and bilateral control is ended by Esc and `q` while it
/// is running. No other key runs or ends anything.
pub proof fn law_what_runs(app: AppSpec, code: KeyCode)
    requires
        app.valid(),
        app.focus != Focus::Input,
    ensures
        ({
            let effect = app.panel_key(code).1;
            &&& effect is StopBilateral <==> app.bilateral && (code == KeyCode::Esc || code
                == KeyCode::Char('q'))
            &&& effect is Run <==> code == KeyCode::Enter && app.focus != Focus::Params || code
                == KeyCode::Char('x') && app.focus == Focus::Params
            &&& effect is Run ==> effect->Run_0 == if app.focus == Focus::Motors {
                Command::ReadStatus
            } else {
                Command::list()[app.selected_cmd]
            }
            &&& effect is Run && app.focus == Focus::Motors ==> effect->Run_1.len() == 0
            &&& !(effect is Save)
        }),
{
}

/// A character is added at the end of what is being typed, and Backspace takes it away again.
/// On an empty text Backspace does nothing.
pub proof fn law_typed(app: AppSpec, c: char)
    ensures
        app.edit_key(KeyCode::Char(c)).0.param_edit_buf == app.param_edit_buf + seq![c],
        app.edit_key(KeyCode::Char(c)).0.edit_key(KeyCode::Backspace).0 == app,
        app.input_key(KeyCode::Char(c)).0.input_buf == app.input_buf + seq![c],
        app.input_key(KeyCode::Char(c)).0.input_key(KeyCode::Backspace).0 == app,
        app.param_edit_buf.len() == 0 ==> app.edit_key(KeyCode::Backspace).0 == app,
        app.input_buf.len() == 0 ==> app.input_key(KeyCode::Backspace).0 == app,
{
    assert(app.param_edit_buf.push(c) =~= app.param_edit_buf + seq![c]);
    assert(app.param_edit_buf.push(c).drop_last() =~= app.param_edit_buf);
    assert(app.input_buf.push(c) =~= app.input_buf + seq![c]);
    assert(app.input_buf.push(c).drop_last() =~= app.input_buf);
}

/// Editing begins with the value that the parameter has, so taking it at once changes no value.
pub proof fn law_edit_begins(app: AppSpec)
    requires
        app.valid(),
        app.focus == Focus::Params,
    ensures
        app.panel_key(KeyCode::Enter).0.editing_param,
        app.panel_key(KeyCode::Enter).0.param_edit_buf == app.params[app.selected_param].value,
        app.panel_key(KeyCode::Enter).0.edit_key(KeyCode::Enter).0.params == app.params,
{
    let after = app.panel_key(KeyCode::Enter).0.edit_key(KeyCode::Enter).0;
    assert(after.params =~= app.params);
}

/// A line of input goes, as it was typed, to the command that asked for it, and only with
/// Enter. With Enter and with Esc the input is over and nothing of it is left.
pub proof fn law_input_line(app: AppSpec, code: KeyCode)
    ensures
        ({
            let (after, effect) = app.input_key(code);
            let ends = code == KeyCode::Enter || code == KeyCode::Esc;
            &&& effect is Run <==> code == KeyCode::Enter && app.pending_cmd is Some
            &&& effect is Run ==> Some(effect->Run_0) == app.pending_cmd && effect->Run_1
                == app.input_buf
            &&& ends ==> !after.input_mode && after.pending_cmd is None && after.input_buf.len()
                == 0 && after.focus == Focus::Commands
            &&& !ends ==> after.input_mode == app.input_mode && after.pending_cmd
                == app.pending_cmd && after.focus == app.focus
            &&& after.motors == app.motors && after.params == app.params && after.config
                == app.config && after.quit == app.quit && after.fd == app.fd
        }),
{
}

/// Tab on a choice goes to the next choice of the list, on the last to the first, and from
/// anything that is no choice to the second (the first, if there is but one).
pub proof fn law_choices_in_turn(choices: Seq<char>, current: Seq<char>)
    ensures
        ({
            let list = crate::text::pieces(choices, '|');
            let next = crate::tui::state::next_choice(choices, current);
            let typed = crate::text::trimmed(current);
            &&& list.len() > 0
            &&& forall|i: int|
                0 <= i < list.len() && #[trigger] list[i] == typed && (forall|j: int|
                    0 <= j < i ==> #[trigger] list[j] != typed) ==> next == if i + 1 < list.len() {
                    list[i + 1]
                } else {
                    list[0]
                }
            &&& !list.contains(typed) ==> next == if list.len() > 1 {
                list[1]
            } else {
                list[0]
            }
        }),
{
    let list = crate::text::pieces(choices, '|');
    let typed = crate::text::trimmed(current);
    lemma_pieces_some(choices);
    lemma_in_turn(0, list.len() as int);
    list.index_of_first_ensures(typed);
    assert forall|i: int|
        0 <= i < list.len() && #[trigger] list[i] == typed && (forall|j: int|
            0 <= j < i ==> #[trigger] list[j] != typed) implies crate::tui::state::next_choice(
        choices,
        current,
    ) == if i + 1 < list.len() {
        list[i + 1]
    } else {
        list[0]
    } by {
        assert(list.contains(typed));
        let k = list.index_of_first(typed)->0;
        assert(k == i) by {
            if k < i {
                assert(list[k] != typed);
            }
        }
        lemma_in_turn(i, list.len() as int);
    }
}

proof fn lemma_in_turn(i: int, n: int)
    requires
        0 <= i < n,
    ensures
        (i + 1) % n == if i + 1 < n {
            i + 1
        } else {
            0
        },
{
    if i + 1 < n {
        vstd::arithmetic::div_mod::lemma_small_mod((i + 1) as nat, n as nat);
    } else {
        vstd::arithmetic::div_mod::lemma_mod_self_0(n);
    }
}

proof fn lemma_pieces_some(text: Seq<char>)
    ensures
        crate::text::pieces(text, '|').len() > 0,
    decreases text.len(),
{
    if text.len() > 0 {
        lemma_pieces_some(text.drop_last());
    }
}

} // verus!
