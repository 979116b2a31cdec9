//! Keys, parameters and saved values of the terminal application.

use robstride_sandbox::protocol::MotorModel;
use robstride_sandbox::tui::config::AppConfig;
use robstride_sandbox::tui::fields::{params_for_command, Command, ParamField, MOTOR_KIND_CHOICES};
use robstride_sandbox::tui::state::{App, Effect, Focus, Key, KeyCode};

fn app() -> App {
    App::new("can0", 0xFD, MotorModel::Rs05, AppConfig::new())
}

fn press(app: &mut App, code: KeyCode) -> Effect {
    app.handle_key(Key { code, control: false })
}

fn type_text(app: &mut App, text: &str) {
    for c in text.chars() {
        press(app, KeyCode::Char(c));
    }
}

fn select(app: &mut App, command: Command) {
    while Command::all()[app.selected_cmd] != command {
        let before = app.selected_cmd;
        press(app, KeyCode::Down);
        assert_ne!(app.selected_cmd, before);
    }
}

fn values(app: &App) -> Vec<String> {
    app.params.iter().map(|p| p.value.clone()).collect()
}

#[test]
fn a_session_starts_at_the_first_command() {
    let app = app();
    assert_eq!(app.focus, Focus::Commands);
    assert_eq!(app.selected_cmd, 0);
    assert_eq!(app.log, vec!["Robstride TUI started. Press Tab to switch panels."]);
    assert_eq!(values(&app), vec!["1", "127", "rs"]);
    assert!(!app.quit && !app.fd && !app.bilateral_active());
}

#[test]
fn tab_and_back_tab() {
    let mut app = app();
    for focus in [Focus::Params, Focus::Motors, Focus::Commands] {
        press(&mut app, KeyCode::Tab);
        assert_eq!(app.focus, focus);
    }
    for focus in [Focus::Motors, Focus::Params, Focus::Commands] {
        press(&mut app, KeyCode::BackTab);
        assert_eq!(app.focus, focus);
    }
    // A command without parameters has no panel for them.
    select(&mut app, Command::Ping);
    assert!(!Command::Ping.has_params());
    press(&mut app, KeyCode::Tab);
    assert_eq!(app.focus, Focus::Motors);
    press(&mut app, KeyCode::BackTab);
    assert_eq!(app.focus, Focus::Commands);
    press(&mut app, KeyCode::Right);
    assert_eq!(app.focus, Focus::Commands);
}

#[test]
fn lists_end_at_both_ends() {
    let mut app = app();
    press(&mut app, KeyCode::Up);
    assert_eq!(app.selected_cmd, 0);
    for _ in 0..40 {
        press(&mut app, KeyCode::Char('j'));
    }
    assert_eq!(app.selected_cmd, Command::all().len() - 1);
    press(&mut app, KeyCode::Char('k'));
    assert_eq!(app.selected_cmd, Command::all().len() - 2);
    app.focus = Focus::Motors;
    press(&mut app, KeyCode::Down);
    assert_eq!(app.selected_motor, 0);
}

#[test]
fn quitting() {
    let mut app = app();
    press(&mut app, KeyCode::Char('q'));
    assert!(app.quit);
    let mut app = self::app();
    app.handle_key(Key { code: KeyCode::Char('c'), control: true });
    assert!(app.quit);
    let mut app = self::app();
    app.bilateral = true;
    assert!(matches!(press(&mut app, KeyCode::Char('q')), Effect::StopBilateral));
    assert!(!app.quit);
    assert!(matches!(press(&mut app, KeyCode::Esc), Effect::StopBilateral));
}

#[test]
fn flexible_data_rate_is_switched_twice() {
    let mut app = app();
    press(&mut app, KeyCode::Char('f'));
    assert!(app.fd);
    press(&mut app, KeyCode::Char('f'));
    assert!(!app.fd);
}

#[test]
fn editing_a_value() {
    let mut app = app();
    press(&mut app, KeyCode::Right);
    press(&mut app, KeyCode::Down);
    assert!(matches!(press(&mut app, KeyCode::Enter), Effect::Nothing));
    assert!(app.editing_param);
    assert_eq!(app.param_edit_buf, "127");
    press(&mut app, KeyCode::Backspace);
    type_text(&mut app, "0q");
    // While a value is being edited, `q` is a letter.
    assert!(!app.quit);
    press(&mut app, KeyCode::Backspace);
    assert!(matches!(press(&mut app, KeyCode::Enter), Effect::Save));
    assert_eq!(values(&app), vec!["1", "120", "rs"]);
    assert!(!app.editing_param);
    assert_eq!(app.config.get_param("Scan Bus", "to").unwrap(), "120");
    assert_eq!(app.config.get_param("Scan Bus", "from").unwrap(), "1");
}

#[test]
fn a_value_that_is_dropped_changes_nothing() {
    let mut app = app();
    press(&mut app, KeyCode::Right);
    press(&mut app, KeyCode::Enter);
    type_text(&mut app, "99");
    press(&mut app, KeyCode::Tab);
    press(&mut app, KeyCode::Esc);
    assert_eq!(values(&app), vec!["1", "127", "rs"]);
    assert!(!app.editing_param);
    assert_eq!(app.param_edit_buf, "");
    assert!(app.config.get_param("Scan Bus", "from").is_none());
}

#[test]
fn tab_goes_through_the_choices() {
    let mut app = app();
    press(&mut app, KeyCode::Right);
    press(&mut app, KeyCode::Down);
    press(&mut app, KeyCode::Down);
    press(&mut app, KeyCode::Enter);
    for choice in ["dm", "both", "rs", "dm"] {
        press(&mut app, KeyCode::Tab);
        assert_eq!(app.param_edit_buf, choice);
    }
    // Anything else counts as the first choice, and white space around a choice does not.
    app.param_edit_buf = "xyz".to_string();
    press(&mut app, KeyCode::Tab);
    assert_eq!(app.param_edit_buf, "dm");
    app.param_edit_buf = " both ".to_string();
    press(&mut app, KeyCode::Tab);
    assert_eq!(app.param_edit_buf, "rs");
}

#[test]
fn saved_values_return_with_their_command() {
    let mut app = app();
    press(&mut app, KeyCode::Right);
    press(&mut app, KeyCode::Enter);
    type_text(&mut app, "0");
    press(&mut app, KeyCode::Enter);
    assert_eq!(values(&app), vec!["10", "127", "rs"]);
    press(&mut app, KeyCode::Left);
    for _ in 0..5 {
        press(&mut app, KeyCode::Down);
    }
    for _ in 0..5 {
        press(&mut app, KeyCode::Up);
    }
    assert_eq!(values(&app), vec!["10", "127", "rs"]);
}

#[test]
fn a_session_starts_with_the_saved_values() {
    let mut config = AppConfig::new();
    config.set_param("Scan Bus", "to", "20");
    config.set_param("Scan Bus", "nothing", "20");
    let app = App::new("can0", 0xFD, MotorModel::Rs05, config);
    assert_eq!(values(&app), vec!["1", "20", "rs"]);
    assert_eq!(app.params[1].default, "127");
}

#[test]
fn a_value_is_kept_where_the_name_is_the_same() {
    let mut app = app();
    select(&mut app, Command::Torque);
    app.params[0].value = "0.7".to_string();
    press(&mut app, KeyCode::Down);
    assert_eq!(Command::all()[app.selected_cmd], Command::MitControl);
    assert_eq!(values(&app), vec!["0.0", "0.0", "10.0", "0.5", "0.7"]);
}

#[test]
fn running_hands_the_values_on() {
    let mut app = app();
    match press(&mut app, KeyCode::Enter) {
        Effect::Run(command, input) => {
            assert_eq!(command, Command::Scan);
            assert_eq!(input, "1 127 rs");
            assert_eq!(input, app.params_as_input());
        }
        other => panic!("unexpected: {:?}", other),
    }
    press(&mut app, KeyCode::Right);
    assert!(matches!(press(&mut app, KeyCode::Char('x')), Effect::Run(Command::Scan, _)));
    app.focus = Focus::Motors;
    match press(&mut app, KeyCode::Enter) {
        Effect::Run(command, input) => {
            assert_eq!(command, Command::ReadStatus);
            assert_eq!(input, "");
        }
        other => panic!("unexpected: {:?}", other),
    }
}

#[test]
fn a_line_of_input() {
    let mut app = app();
    app.input_mode = true;
    app.pending_cmd = Some(Command::Spin);
    type_text(&mut app, "1.5q");
    press(&mut app, KeyCode::Backspace);
    match press(&mut app, KeyCode::Enter) {
        Effect::Run(command, input) => {
            assert_eq!(command, Command::Spin);
            assert_eq!(input, "1.5");
        }
        other => panic!("unexpected: {:?}", other),
    }
    assert!(!app.input_mode && app.pending_cmd.is_none());
    assert_eq!(app.input_buf, "");
    app.input_mode = true;
    app.pending_cmd = Some(Command::Spin);
    type_text(&mut app, "2");
    assert!(matches!(press(&mut app, KeyCode::Esc), Effect::Nothing));
    assert_eq!(app.input_buf, "");
    assert!(!app.input_mode);
}

#[test]
fn what_is_set_in_a_configuration_is_read_back() {
    let mut config = AppConfig::new();
    assert!(config.get_param("Scan Bus", "to").is_none());
    config.set_param("Scan Bus", "to", "10");
    config.set_param("Spin", "to", "11");
    config.set_param("Scan Bus", "to", "12");
    assert_eq!(config.get_param("Scan Bus", "to").unwrap(), "12");
    assert_eq!(config.get_param("Spin", "to").unwrap(), "11");
    assert!(config.get_param("Scan Bus", "from").is_none());
    assert_eq!(config.entries.len(), 2);
}

#[test]
fn parameters_of_the_commands() {
    assert_eq!(Command::all().len(), 16);
    for command in Command::all() {
        let fields = params_for_command(command);
        assert_eq!(command.has_params(), !fields.is_empty());
        for (i, field) in fields.iter().enumerate() {
            assert_eq!(field.value, field.default);
            assert!(fields[..i].iter().all(|f| f.name != field.name));
            if let Some(choices) = field.choices {
                assert!(choices.split('|').any(|c| c == field.value));
            }
        }
    }
    assert_eq!(params_for_command(Command::Bilateral).len(), 25);
    assert_eq!(params_for_command(Command::Bilateral)[3].choices, Some(MOTOR_KIND_CHOICES));
    let field = ParamField::with_choices("mode", "mit", "Motor run mode", "mit|position");
    assert_eq!(field.choices, Some("mit|position"));
    let field = ParamField::new("kp", "1", "Gain").copy();
    assert_eq!((field.name, field.value.as_str(), field.choices), ("kp", "1", None));
}
