//! What key presses do.

use vstd::prelude::*;

use crate::text::{same_text, split_pieces, trim};
use crate::tui::fields::{Command, FieldSpec};
use crate::tui::state::{App, AppSpec, Effect, EffectSpec, Focus, Key, KeyCode};

verus! {

impl AppSpec {
    /// A text without its last character.
    pub open spec fn shortened(text: Seq<char>) -> Seq<char> {
        if text.len() > 0 {
            text.drop_last()
        } else {
            text
        }
    }

    /// A key press while a parameter is being edited. Enter takes the value and saves all
    /// values, Esc drops it, and Tab goes through the choices if there are any.
    pub open spec fn edit_key(self, code: KeyCode) -> (AppSpec, EffectSpec) {
        match code {
            KeyCode::Enter => {
                let field = FieldSpec {
                    value: self.param_edit_buf,
                    ..self.params[self.selected_param]
                };
                let params = self.params.update(self.selected_param, field);
                (
                    AppSpec {
                        params,
                        config: crate::tui::state::params_saved(
                            self.config,
                            self.command().spec_label(),
                            params,
                        ),
                        editing_param: false,
                        param_edit_buf: Seq::empty(),
                        ..self
                    },
                    EffectSpec::Save,
                )
            },
            KeyCode::Esc => (
                AppSpec { editing_param: false, param_edit_buf: Seq::empty(), ..self },
                EffectSpec::Nothing,
            ),
            KeyCode::Char(c) => (
                AppSpec { param_edit_buf: self.param_edit_buf.push(c), ..self },
                EffectSpec::Nothing,
            ),
            KeyCode::Backspace => (
                AppSpec { param_edit_buf: AppSpec::shortened(self.param_edit_buf), ..self },
                EffectSpec::Nothing,
            ),
            KeyCode::Tab => match self.params[self.selected_param].choices {
                Some(choices) => (
                    AppSpec {
                        param_edit_buf: crate::tui::state::next_choice(
                            choices,
                            self.param_edit_buf,
                        ),
                        ..self
                    },
                    EffectSpec::Nothing,
                ),
                None => (self, EffectSpec::Nothing),
            },
            _ => (self, EffectSpec::Nothing),
        }
    }

    /// A key press while a line of input is asked for. Enter runs the command that asked for
    /// it, and Esc calls it off.
    pub open spec fn input_key(self, code: KeyCode) -> (AppSpec, EffectSpec) {
        let over = AppSpec {
            input_mode: false,
            pending_cmd: None,
            input_buf: Seq::empty(),
            focus: Focus::Commands,
            ..self
        };
        match code {
            KeyCode::Enter => (
                over,
                match self.pending_cmd {
                    Some(command) => EffectSpec::Run(command, self.input_buf),
                    None => EffectSpec::Nothing,
                },
            ),
            KeyCode::Esc => (over, EffectSpec::Nothing),
            KeyCode::Char(c) => (
                AppSpec { input_buf: self.input_buf.push(c), ..self },
                EffectSpec::Nothing,
            ),
            KeyCode::Backspace => (
                AppSpec { input_buf: AppSpec::shortened(self.input_buf), ..self },
                EffectSpec::Nothing,
            ),
            _ => (self, EffectSpec::Nothing),
        }
    }

    /// The panel that Tab goes to. The parameters are passed over if there are none.
    pub open spec fn next_focus(self) -> Focus {
        match self.focus {
            Focus::Motors => Focus::Commands,
            Focus::Commands => if self.command().takes_params() {
                Focus::Params
            } else {
                Focus::Motors
            },
            Focus::Params => Focus::Motors,
            Focus::Input => Focus::Commands,
        }
    }

    /// The panel that Shift+Tab goes to.
    pub open spec fn previous_focus(self) -> Focus {
        match self.focus {
            Focus::Motors => if self.command().takes_params() {
                Focus::Params
            } else {
                Focus::Commands
            },
            Focus::Commands => Focus::Motors,
            Focus::Params => Focus::Commands,
            Focus::Input => Focus::Commands,
        }
    }

    /// Another selected command, with its parameters.
    pub open spec fn select_command(self, index: int) -> AppSpec {
        AppSpec {
            selected_cmd: index,
            params: crate::tui::state::synced_params(
                Command::list()[index],
                self.params,
                self.config,
            ),
            selected_param: 0,
            ..self
        }
    }

    /// Running the selected command on the values of its parameters.
    pub open spec fn run_selected(self) -> EffectSpec {
        EffectSpec::Run(
            self.command(),
            crate::text::joined(crate::tui::state::values(self.params), " "@),
        )
    }

    /// A key press in the list of motors. Enter reads the status of the selected motor.
    pub open spec fn motor_key(self, code: KeyCode) -> (AppSpec, EffectSpec) {
        match code {
            KeyCode::Up | KeyCode::Char('k') => (
                if self.selected_motor > 0 {
                    AppSpec { selected_motor: self.selected_motor - 1, ..self }
                } else {
                    self
                },
                EffectSpec::Nothing,
            ),
            KeyCode::Down | KeyCode::Char('j') => (
                if self.selected_motor + 1 < self.motors.len() {
                    AppSpec { selected_motor: self.selected_motor + 1, ..self }
                } else {
                    self
                },
                EffectSpec::Nothing,
            ),
            KeyCode::Enter => (self, EffectSpec::Run(Command::ReadStatus, Seq::empty())),
            _ => (self, EffectSpec::Nothing),
        }
    }

    /// A key press in the list of commands. Enter runs the selected command.
    pub open spec fn command_key(self, code: KeyCode) -> (AppSpec, EffectSpec) {
        match code {
            KeyCode::Up | KeyCode::Char('k') => (
                if self.selected_cmd > 0 {
                    self.select_command(self.selected_cmd - 1)
                } else {
                    self
                },
                EffectSpec::Nothing,
            ),
            KeyCode::Down | KeyCode::Char('j') => (
                if self.selected_cmd + 1 < Command::list().len() {
                    self.select_command(self.selected_cmd + 1)
                } else {
                    self
                },
                EffectSpec::Nothing,
            ),
            KeyCode::Enter => (self, self.run_selected()),
            KeyCode::Right | KeyCode::Char('l') => (
                if self.command().takes_params() {
                    AppSpec { focus: Focus::Params, ..self }
                } else {
                    self
                },
                EffectSpec::Nothing,
            ),
            _ => (self, EffectSpec::Nothing),
        }
    }

    /// A key press in the list of parameters. Enter edits the selected one, and `x` runs the
    /// command.
    pub open spec fn param_key(self, code: KeyCode) -> (AppSpec, EffectSpec) {
        match code {
            KeyCode::Up | KeyCode::Char('k') => (
                if self.selected_param > 0 {
                    AppSpec { selected_param: self.selected_param - 1, ..self }
                } else {
                    self
                },
                EffectSpec::Nothing,
            ),
            KeyCode::Down | KeyCode::Char('j') => (
                if self.selected_param + 1 < self.params.len() {
                    AppSpec { selected_param: self.selected_param + 1, ..self }
                } else {
                    self
                },
                EffectSpec::Nothing,
            ),
            KeyCode::Enter => (
                AppSpec {
                    editing_param: true,
                    param_edit_buf: self.params[self.selected_param].value,
                    ..self
                },
                EffectSpec::Nothing,
            ),
            KeyCode::Left | KeyCode::Char('h') => (
                AppSpec { focus: Focus::Commands, ..self },
                EffectSpec::Nothing,
            ),
            KeyCode::Char('x') => (self, self.run_selected()),
            _ => (self, EffectSpec::Nothing),
        }
    }

    /// A key press while nothing is being typed. `q` ends bilateral control if it is running
    /// and the application otherwise, Esc ends bilateral control, `f` switches between classic
    /// CAN and CAN FD, and Tab and Shift+Tab change the panel.
    pub open spec fn panel_key(self, code: KeyCode) -> (AppSpec, EffectSpec) {
        match code {
            KeyCode::Char('q') => if self.bilateral {
                (self, EffectSpec::StopBilateral)
            } else {
                (AppSpec { quit: true, ..self }, EffectSpec::Nothing)
            },
            KeyCode::Esc => if self.bilateral {
                (self, EffectSpec::StopBilateral)
            } else {
                (self, EffectSpec::Nothing)
            },
            KeyCode::Char('f') => (AppSpec { fd: !self.fd, ..self }, EffectSpec::Nothing),
            KeyCode::Tab => (AppSpec { focus: self.next_focus(), ..self }, EffectSpec::Nothing),
            KeyCode::BackTab => (
                AppSpec { focus: self.previous_focus(), ..self },
                EffectSpec::Nothing,
            ),
            _ => match self.focus {
                Focus::Motors => self.motor_key(code),
                Focus::Commands => self.command_key(code),
                Focus::Params => self.param_key(code),
                Focus::Input => (self, EffectSpec::Nothing),
            },
        }
    }

    /// A key press. Ctrl+C ends the application wherever it is.
    pub open spec fn key_pressed(self, key: Key) -> (AppSpec, EffectSpec) {
        if key.control && key.code == KeyCode::Char('c') {
            (AppSpec { quit: true, ..self }, EffectSpec::Nothing)
        } else if self.editing_param {
            self.edit_key(key.code)
        } else if self.input_mode {
            self.input_key(key.code)
        } else {
            self.panel_key(key.code)
        }
    }
}

/// The first place of a text in a list.
fn position(list: &Vec<String>, text: &str) -> (place: Option<usize>)
    ensures
        match place {
            Some(i) => crate::text::texts(list@).index_of_first(text@) == Some(i as int) && i
                < list@.len(),
            None => crate::text::texts(list@).index_of_first(text@) is None,
        },
{
    let ghost specs = crate::text::texts(list@);
    let mut i: usize = 0;
    proof {
        specs.index_of_first_ensures(text@);
    }
    while i < list.len()
        invariant
            i <= list@.len(),
            specs == crate::text::texts(list@),
            forall|k: int| 0 <= k < i ==> #[trigger] specs[k] != text@,
            match specs.index_of_first(text@) {
                Some(k) => 0 <= k < specs.len() && specs[k] == text@ && forall|j: int|
                    0 <= j < k < specs.len() ==> specs[j] != text@,
                None => forall|j: int| 0 <= j < specs.len() ==> specs[j] != text@,
            },
        decreases list@.len() - i,
    {
        assert(specs[i as int] == list@[i as int]@);
        if same_text(list[i].as_str(), text) {
            return Some(i);
        }
        i = i + 1;
    }
    None
}

/// The choice after the one being edited.
fn choose_next(choices: &str, current: &str) -> (choice: String)
    ensures
        choice@ == crate::tui::state::next_choice(choices@, current@),
{
    let list = split_pieces(choices, '|');
    let text = trim(current);
    let ghost specs = crate::text::texts(list@);
    assert(specs.len() == list@.len());
    let at: usize = match position(&list, text.as_str()) {
        Some(i) => i,
        None => 0,
    };
    assert(at < list.len());
    let next: usize = if at + 1 < list.len() {
        at + 1
    } else {
        0
    };
    assert(next == (at + 1) % (list@.len() as int)) by {
        if at + 1 < list@.len() {
            vstd::arithmetic::div_mod::lemma_small_mod((at + 1) as nat, list@.len());
        } else {
            assert(at + 1 == list@.len());
            vstd::arithmetic::div_mod::lemma_mod_self_0(list@.len() as int);
        }
    }
    assert(specs[next as int] == list@[next as int]@);
    list[next].clone()
}

/// The parameters that come with another command are that command's.
proof fn lemma_select_valid(app: AppSpec, index: int)
    requires
        app.valid(),
        0 <= index < Command::list().len(),
        app.focus != Focus::Params,
    ensures
        app.select_command(index).valid(),
{
    let next = app.select_command(index);
    let fresh = crate::tui::fields::command_fields(Command::list()[index]);
    assert(next.params.len() == fresh.len());
    assert forall|i: int| 0 <= i < next.params.len() implies crate::tui::state::same_field(
        #[trigger] next.params[i],
        fresh[i],
    ) by {
        let kept = crate::tui::state::kept_field(fresh[i], app.params);
        assert(next.params[i] == crate::tui::state::saved_field(
            kept,
            Command::list()[index].spec_label(),
            app.config,
        ));
    }
    assert(next.in_order()) by {
        assert(next.motors == app.motors);
    }
}

impl App {
    fn edit_key(&mut self, code: KeyCode) -> (effect: Effect)
        requires
            old(self).valid(),
            old(self).editing_param,
        ensures
            final(self).valid(),
            (final(self)@, effect@) == old(self)@.edit_key(code),
    {
        let ghost start = self@;
        assert(start.params.len() == self.params@.len());
        match code {
            KeyCode::Enter => {
                let mut field = self.params[self.selected_param].copy();
                field.value = self.param_edit_buf.clone();
                self.params.set(self.selected_param, field);
                proof {
                    let after = start.params.update(start.selected_param, field@);
                    assert(crate::tui::fields::field_specs(self.params@) =~= after);
                }
                self.save_current_params();
                self.editing_param = false;
                self.param_edit_buf = String::new();
                Effect::Save
            },
            KeyCode::Esc => {
                self.editing_param = false;
                self.param_edit_buf = String::new();
                Effect::Nothing
            },
            KeyCode::Char(c) => {
                self.param_edit_buf.push(c);
                Effect::Nothing
            },
            KeyCode::Backspace => {
                let _ = self.param_edit_buf.pop();
                Effect::Nothing
            },
            KeyCode::Tab => {
                match self.params[self.selected_param].choices {
                    Some(choices) => {
                        self.param_edit_buf = choose_next(choices, self.param_edit_buf.as_str());
                    },
                    None => {},
                }
                Effect::Nothing
            },
            _ => Effect::Nothing,
        }
    }

    fn end_input(&mut self)
        requires
            old(self).valid(),
            !old(self).editing_param,
        ensures
            final(self).valid(),
            final(self)@ == (AppSpec {
                input_mode: false,
                pending_cmd: None,
                input_buf: Seq::empty(),
                focus: Focus::Commands,
                ..old(self)@
            }),
    {
        self.input_mode = false;
        self.pending_cmd = None;
        self.input_buf = String::new();
        self.focus = Focus::Commands;
    }

    fn input_key(&mut self, code: KeyCode) -> (effect: Effect)
        requires
            old(self).valid(),
            !old(self).editing_param,
        ensures
            final(self).valid(),
            (final(self)@, effect@) == old(self)@.input_key(code),
    {
        match code {
            KeyCode::Enter => {
                let effect = match self.pending_cmd {
                    Some(command) => Effect::Run(command, self.input_buf.clone()),
                    None => Effect::Nothing,
                };
                self.end_input();
                effect
            },
            KeyCode::Esc => {
                self.end_input();
                Effect::Nothing
            },
            KeyCode::Char(c) => {
                self.input_buf.push(c);
                Effect::Nothing
            },
            KeyCode::Backspace => {
                let _ = self.input_buf.pop();
                Effect::Nothing
            },
            _ => Effect::Nothing,
        }
    }

    fn motor_key(&mut self, code: KeyCode) -> (effect: Effect)
        requires
            old(self).valid(),
            !old(self).editing_param,
        ensures
            final(self).valid(),
            (final(self)@, effect@) == old(self)@.motor_key(code),
    {
        assert(self@.motors.len() == self.motors@.len());
        match code {
            KeyCode::Up | KeyCode::Char('k') => {
                if self.selected_motor > 0 {
                    self.selected_motor = self.selected_motor - 1;
                }
                Effect::Nothing
            },
            KeyCode::Down | KeyCode::Char('j') => {
                if self.selected_motor < self.motors.len() && self.selected_motor + 1
                    < self.motors.len() {
                    self.selected_motor = self.selected_motor + 1;
                }
                Effect::Nothing
            },
            KeyCode::Enter => {
                let input = String::new();
                assert(input@ =~= Seq::<char>::empty());
                Effect::Run(Command::ReadStatus, input)
            },
            _ => Effect::Nothing,
        }
    }

    fn command_key(&mut self, code: KeyCode) -> (effect: Effect)
        requires
            old(self).valid(),
            !old(self).editing_param,
            old(self).focus == Focus::Commands,
        ensures
            final(self).valid(),
            (final(self)@, effect@) == old(self)@.command_key(code),
    {
        let ghost start = self@;
        match code {
            KeyCode::Up | KeyCode::Char('k') => {
                if self.selected_cmd > 0 {
                    self.selected_cmd = self.selected_cmd - 1;
                    self.sync_params_to_cmd();
                    proof {
                        lemma_select_valid(start, start.selected_cmd - 1);
                    }
                }
                Effect::Nothing
            },
            KeyCode::Down | KeyCode::Char('j') => {
                if self.selected_cmd + 1 < Command::all().len() {
                    self.selected_cmd = self.selected_cmd + 1;
                    self.sync_params_to_cmd();
                    proof {
                        lemma_select_valid(start, start.selected_cmd + 1);
                    }
                }
                Effect::Nothing
            },
            KeyCode::Enter => Effect::Run(
                Command::at(self.selected_cmd),
                self.params_as_input(),
            ),
            KeyCode::Right | KeyCode::Char('l') => {
                if Command::at(self.selected_cmd).has_params() {
                    self.focus = Focus::Params;
                }
                Effect::Nothing
            },
            _ => Effect::Nothing,
        }
    }

    fn param_key(&mut self, code: KeyCode) -> (effect: Effect)
        requires
            old(self).valid(),
            !old(self).editing_param,
            old(self).focus == Focus::Params,
        ensures
            final(self).valid(),
            (final(self)@, effect@) == old(self)@.param_key(code),
    {
        assert(self@.params.len() == self.params@.len());
        match code {
            KeyCode::Up | KeyCode::Char('k') => {
                if self.selected_param > 0 {
                    self.selected_param = self.selected_param - 1;
                }
                Effect::Nothing
            },
            KeyCode::Down | KeyCode::Char('j') => {
                if self.selected_param + 1 < self.params.len() {
                    self.selected_param = self.selected_param + 1;
                }
                Effect::Nothing
            },
            KeyCode::Enter => {
                self.editing_param = true;
                self.param_edit_buf = self.params[self.selected_param].value.clone();
                Effect::Nothing
            },
            KeyCode::Left | KeyCode::Char('h') => {
                self.focus = Focus::Commands;
                Effect::Nothing
            },
            KeyCode::Char('x') => Effect::Run(
                Command::at(self.selected_cmd),
                self.params_as_input(),
            ),
            _ => Effect::Nothing,
        }
    }

    fn panel_key(&mut self, code: KeyCode) -> (effect: Effect)
        requires
            old(self).valid(),
            !old(self).editing_param,
        ensures
            final(self).valid(),
            (final(self)@, effect@) == old(self)@.panel_key(code),
    {
        match code {
            KeyCode::Char('q') => {
                if self.bilateral {
                    Effect::StopBilateral
                } else {
                    self.quit = true;
                    Effect::Nothing
                }
            },
            KeyCode::Esc => {
                if self.bilateral {
                    Effect::StopBilateral
                } else {
                    Effect::Nothing
                }
            },
            KeyCode::Char('f') => {
                self.fd = !self.fd;
                Effect::Nothing
            },
            KeyCode::Tab => {
                let has_params = Command::at(self.selected_cmd).has_params();
                self.focus = match self.focus {
                    Focus::Motors => Focus::Commands,
                    Focus::Commands => if has_params {
                        Focus::Params
                    } else {
                        Focus::Motors
                    },
                    Focus::Params => Focus::Motors,
                    Focus::Input => Focus::Commands,
                };
                Effect::Nothing
            },
            KeyCode::BackTab => {
                let has_params = Command::at(self.selected_cmd).has_params();
                self.focus = match self.focus {
                    Focus::Motors => if has_params {
                        Focus::Params
                    } else {
                        Focus::Commands
                    },
                    Focus::Commands => Focus::Motors,
                    Focus::Params => Focus::Commands,
                    Focus::Input => Focus::Commands,
                };
                Effect::Nothing
            },
            _ => match self.focus {
                Focus::Motors => self.motor_key(code),
                Focus::Commands => self.command_key(code),
                Focus::Params => self.param_key(code),
                Focus::Input => Effect::Nothing,
            },
        }
    }

    /// Takes a key press.
    pub fn handle_key(&mut self, key: Key) -> (effect: Effect)
        requires
            old(self).valid(),
        ensures
            final(self).valid(),
            (final(self)@, effect@) == old(self)@.key_pressed(key),
    {
        if key.control && key.code == KeyCode::Char('c') {
            self.quit = true;
            return Effect::Nothing;
        }
        if self.editing_param {
            self.edit_key(key.code)
        } else if self.input_mode {
            self.input_key(key.code)
        } else {
            self.panel_key(key.code)
        }
    }
}

} // verus!
