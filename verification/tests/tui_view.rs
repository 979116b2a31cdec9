//! What the terminal application shows.

use robstride_sandbox::bilateral::BilateralMethod;
use robstride_sandbox::driver::{DamiaoModel, MotorSpec};
use robstride_sandbox::protocol::{MotorFeedback, MotorModel, MotorStatusBits};
use robstride_sandbox::tui::config::AppConfig;
use robstride_sandbox::tui::fields::Command;
use robstride_sandbox::tui::outcomes::Shown;
use robstride_sandbox::tui::state::{App, Focus};
use robstride_sandbox::tui::view::{
    overlay_area, overlay_kind, overlay_title, render_bilateral_overlay, scan_bar_area, Area,
    Color, OverlayKind, Span, Telemetry, TextStyle,
};

fn app() -> App {
    App::new("can0", 0xFD, MotorModel::Rs05, AppConfig::new())
}

fn text(s: &str) -> String {
    s.to_string()
}

fn shown() -> Shown {
    Shown { position: text("1.234"), velocity: text("-0.5"), torque: text("0"), temperature: text("25.6") }
}

fn plain_text(line: &[Span]) -> String {
    line.iter().map(|s| s.text.as_str()).collect()
}

fn telemetry(method: Option<BilateralMethod>) -> Telemetry {
    Telemetry {
        method,
        loop_hz: text("500"),
        cycle_count: 12,
        leader_pos: text("1.000"),
        leader_vel: text("2.000"),
        leader_torque: text("3.000"),
        follower_pos: text("4.000"),
        follower_vel: text("5.000"),
        follower_torque: text("6.000"),
        position_error: text("0.6000"),
        far: true,
        leader_friction: text("0.100"),
        follower_friction: text("0.200"),
        inertia_comp: text("0.300"),
        vel_assist: text("0.400"),
        last_error: None,
    }
}

#[test]
fn rows_of_motors() {
    let mut app = app();
    assert!(app.render_motors(&vec![]).is_empty());
    app.insert_motor(MotorSpec::robstride(0xFD, 5, MotorModel::Rs05), None);
    app.insert_motor(MotorSpec::damiao(9, 0, DamiaoModel::DmJ4310), None);
    app.motors[0].enabled = true;
    app.motors[0].feedback = Some(MotorFeedback {
        motor_id: 5,
        position: 0,
        velocity: 0,
        torque: 0,
        temperature: 256,
        status: MotorStatusBits { mode: 2, ..MotorStatusBits::default() },
    });
    let rows = app.render_motors(&vec![shown(), shown()]);
    assert_eq!(
        rows[0].cells,
        vec!["5", "RS-05", "ON", "   1.234", "    -0.5", "       0", " 25.6", "2"]
    );
    assert_eq!(rows[0].state_style, TextStyle::color(Color::Green));
    assert!(rows[0].row_style.underlined);
    assert_eq!(rows[1].cells, vec!["9", "DM-J4310", "OFF", "---", "---", "---", "---", "-"]);
    assert_eq!(rows[1].row_style, TextStyle::plain());
    app.focus = Focus::Motors;
    let rows = app.render_motors(&vec![shown(), shown()]);
    assert_eq!(rows[0].row_style, TextStyle::plain().on(Color::DarkGray));
    assert_eq!(app.border(Focus::Motors), Color::Cyan);
    assert_eq!(app.border(Focus::Commands), Color::White);
}

#[test]
fn the_list_of_commands() {
    let mut app = app();
    let items = app.render_commands();
    assert_eq!(items.len(), Command::all().len());
    assert_eq!(items[0].text, " Scan Bus ");
    assert_eq!(items[0].style, TextStyle::color(Color::Black).on(Color::Cyan).strong());
    assert_eq!(items[1].style, TextStyle::plain());
    app.focus = Focus::Motors;
    assert_eq!(app.render_commands()[0].style, TextStyle::color(Color::Cyan));
}

#[test]
fn the_panel_of_parameters() {
    let mut app = app();
    assert_eq!(app.params_title(), " Scan Bus Params ");
    let lines = app.render_params(10);
    assert_eq!(lines.len(), 3);
    assert_eq!(plain_text(&lines[0].line), "   from 1 ");
    assert_eq!(plain_text(&lines[2].line), " vendor rs ▼");
    assert_eq!(lines[0].line[0].style, TextStyle::color(Color::Yellow));

    app.focus = Focus::Params;
    app.selected_param = 2;
    app.params[2].value = text("dm");
    let lines = app.render_params(10);
    assert_eq!(plain_text(&lines[2].line), " vendor dm ▼ (def:rs)");
    assert_eq!(lines[2].line[0].style, TextStyle::color(Color::Cyan).strong());
    assert_eq!(lines[3].y, 3);
    assert_eq!(
        plain_text(&lines[3].line),
        " → Vendor to probe (rs=Robstride, dm=DAMIAO, both)"
    );
    assert!(lines[3].line[0].style.italic);
    assert_eq!(lines[4].y, 4);
    assert_eq!(plain_text(&lines[4].line), "   [rs|dm|both]");
    // What does not fit is left out.
    assert_eq!(app.render_params(4).len(), 4);
    assert_eq!(app.render_params(3).len(), 3);
    assert_eq!(app.render_params(2).len(), 2);
    assert_eq!(app.render_params(0).len(), 0);

    app.editing_param = true;
    app.param_edit_buf = text("bo");
    let lines = app.render_params(10);
    assert_eq!(lines.len(), 3);
    assert_eq!(lines[2].line[1].text, "bo_");
    assert_eq!(lines[2].line[1].style, TextStyle::color(Color::White).on(Color::DarkGray));
}

#[test]
fn a_command_without_parameters() {
    let mut app = app();
    app.selected_cmd = 1;
    app.sync_params_to_cmd();
    assert_eq!(app.params_title(), " Ping Params ");
    assert!(app.render_params(10).is_empty());
}

#[test]
fn the_end_of_the_log() {
    let mut app = app();
    app.log_msg("t", "Ping OK: x");
    app.log_msg("t", "Ping failed: OK");
    app.log_msg("t", "Found 1");
    app.log_msg("t", "x enabled.");
    app.log_msg("t", "ERROR");
    let lines = app.render_log(7);
    assert_eq!(lines.len(), 5);
    let colors: Vec<Option<Color>> = lines.iter().map(|l| l.style.fg).collect();
    assert_eq!(
        colors,
        vec![
            Some(Color::Green),
            Some(Color::Red),
            Some(Color::Green),
            Some(Color::Green),
            Some(Color::Red)
        ]
    );
    assert_eq!(lines[0].text, "[t] Ping OK: x");
    assert_eq!(app.render_log(100).len(), 6);
    assert_eq!(app.render_log(100)[0].style, TextStyle::color(Color::White));
    assert_eq!(app.render_log(2).len(), 0);
    assert_eq!(app.render_log(1).len(), 0);
}

#[test]
fn the_line_of_input() {
    let mut app = app();
    assert_eq!(app.ui().input_height, 0);
    app.input_mode = true;
    app.input_buf = text("1.5");
    assert_eq!(app.render_input(), (text(" Input: ? "), text("1.5_")));
    app.pending_cmd = Some(Command::Spin);
    assert_eq!(app.render_input().0, " Input: Spin (Vel) ");
    assert_eq!(app.ui().input_height, 3);
    assert!(!app.ui().overlay && !app.ui().scan_bar);
    app.bilateral = true;
    app.scanning = true;
    assert!(app.ui().overlay && app.ui().scan_bar);
}

#[test]
fn the_overlay_of_two_motors() {
    let method = Some(BilateralMethod::VirtualCoupling);
    assert_eq!(overlay_kind(method), OverlayKind::Bilateral);
    assert_eq!(overlay_title(OverlayKind::Bilateral), " Bilateral Control ");
    let lines = render_bilateral_overlay(OverlayKind::Bilateral, &telemetry(method));
    let texts: Vec<String> = lines.iter().map(|l| plain_text(l)).collect();
    assert_eq!(
        texts,
        vec![
            " Mode: Virtual Coupling    Loop: 500 Hz    Cycles: 12",
            " Leader  (10): pos=   1.000  vel=   2.000  τcmd=  3.000",
            " Follow  ( 1): pos=   4.000  vel=   5.000  τcmd=  6.000",
            " Δpos:   0.6000 rad   FrComp: L= 0.100 F= 0.200  InrComp:  0.300  VelAst:  0.400",
            " OK",
            " Press Esc or q to stop ",
        ]
    );
    assert_eq!(lines[3][1].style, TextStyle::color(Color::Red));
    assert_eq!(lines[4][1].style, TextStyle::color(Color::Green));
}

#[test]
fn the_overlay_of_an_assist_test() {
    assert_eq!(overlay_kind(None), OverlayKind::AssistTest);
    assert_eq!(overlay_title(OverlayKind::AssistTest), " Assist Test ");
    let t = Telemetry { last_error: Some(text("late")), ..telemetry(None) };
    let lines = render_bilateral_overlay(OverlayKind::AssistTest, &t);
    let texts: Vec<String> = lines.iter().map(|l| plain_text(l)).collect();
    assert_eq!(
        texts,
        vec![
            " Mode: Assist Test    Loop: 500 Hz    Cycles: 12",
            " Motor:       pos=   1.000  vel=   2.000  τcmd=  3.000",
            " FrComp:  0.100  InrComp:  0.300  VelAst:  0.400",
            " ERR: late",
            " Press Esc or q to stop ",
        ]
    );
    assert_eq!(lines[3][1].style, TextStyle::color(Color::Red));
}

#[test]
fn the_overlay_of_a_leader_on_demand() {
    let t = Telemetry { far: false, ..telemetry(Some(BilateralMethod::ForceReflecting)) };
    let on = render_bilateral_overlay(OverlayKind::OnDemand { leader_on: true }, &t);
    assert_eq!(
        plain_text(&on[1]),
        " Leader  (10): pos=   1.000  vel=   2.000  τcmd=  3.000  ● ON "
    );
    assert_eq!(plain_text(&on[3]), " Δpos:   0.6000 rad   Force:  0.400 Nm  FrComp:  0.200");
    assert_eq!(on[3][1].style, TextStyle::color(Color::White));
    assert_eq!(on[3][4].style, TextStyle::color(Color::Yellow));
    let off = render_bilateral_overlay(OverlayKind::OnDemand { leader_on: false }, &t);
    assert_eq!(off[1][2].text, "○ OFF");
    assert_eq!(off[3][4].style, TextStyle::color(Color::White));
    assert_eq!(overlay_title(OverlayKind::OnDemand { leader_on: true }), " Bilateral Control ");
}

#[test]
fn places_on_the_screen() {
    let screen = Area { x: 0, y: 0, width: 100, height: 40 };
    assert_eq!(overlay_area(screen, 6), Area { x: 15, y: 31, width: 70, height: 8 });
    assert_eq!(scan_bar_area(screen), Area { x: 16, y: 36, width: 66, height: 3 });
    let small = Area { x: 0, y: 0, width: 30, height: 5 };
    assert_eq!(overlay_area(small, 6), Area { x: 2, y: 0, width: 26, height: 8 });
    let tiny = Area { x: 0, y: 0, width: 3, height: 0 };
    assert_eq!(overlay_area(tiny, 6), Area { x: 1, y: 0, width: 0, height: 8 });
}
