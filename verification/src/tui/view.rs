//! What the application shows: texts, styles and places, without a terminal.
//!
//! Numbers with a fixed number of decimals come in as texts and are put into their columns
//! here.

use vstd::prelude::*;

use crate::bilateral::BilateralMethod;
use crate::text::{align_right, contains, decimal_text, same_text};
use crate::tui::fields::{Command, FieldSpec, ParamField};
use crate::tui::outcomes::Shown;
use crate::tui::state::{App, AppSpec, EntrySpec, Focus, MotorEntry};

verus! {

// ---------------------------------------------------------------------------
// Styles
// ---------------------------------------------------------------------------

/// Colors.
#[derive(Debug, Clone, Copy, PartialEq, Eq, Structural)]
pub enum Color {
    Black,
    Cyan,
    DarkGray,
    Green,
    Magenta,
    Red,
    White,
    Yellow,
}

/// How a text looks.
#[derive(Debug, Clone, Copy, PartialEq, Eq, Structural)]
pub struct TextStyle {
    pub fg: Option<Color>,
    pub bg: Option<Color>,
    pub bold: bool,
    pub underlined: bool,
    pub italic: bool,
}

impl TextStyle {
    /// The look of the terminal.
    pub open spec fn spec_plain() -> TextStyle {
        TextStyle { fg: None, bg: None, bold: false, underlined: false, italic: false }
    }

    /// A color.
    pub open spec fn spec_color(color: Color) -> TextStyle {
        TextStyle { fg: Some(color), ..TextStyle::spec_plain() }
    }

    /// The look of the terminal.
    pub fn plain() -> (style: TextStyle)
        ensures
            style == TextStyle::spec_plain(),
    {
        TextStyle { fg: None, bg: None, bold: false, underlined: false, italic: false }
    }

    /// A color.
    pub fn color(color: Color) -> (style: TextStyle)
        ensures
            style == TextStyle::spec_color(color),
    {
        TextStyle { fg: Some(color), bg: None, bold: false, underlined: false, italic: false }
    }

    /// The same in bold.
    pub fn strong(self) -> (style: TextStyle)
        ensures
            style == (TextStyle { bold: true, ..self }),
    {
        TextStyle {
            fg: self.fg,
            bg: self.bg,
            bold: true,
            underlined: self.underlined,
            italic: self.italic,
        }
    }

    /// The same on a background.
    pub fn on(self, color: Color) -> (style: TextStyle)
        ensures
            style == (TextStyle { bg: Some(color), ..self }),
    {
        TextStyle {
            fg: self.fg,
            bg: Some(color),
            bold: self.bold,
            underlined: self.underlined,
            italic: self.italic,
        }
    }

    /// The same in italics.
    pub fn slanted(self) -> (style: TextStyle)
        ensures
            style == (TextStyle { italic: true, ..self }),
    {
        TextStyle {
            fg: self.fg,
            bg: self.bg,
            bold: self.bold,
            underlined: self.underlined,
            italic: true,
        }
    }
}

/// A text with its look.
#[derive(Debug)]
pub struct Span {
    pub text: String,
    pub style: TextStyle,
}

/// A text with its look, in mathematical terms.
#[verifier::ext_equal]
pub struct SpanSpec {
    pub text: Seq<char>,
    pub style: TextStyle,
}

impl View for Span {
    type V = SpanSpec;

    open spec fn view(&self) -> SpanSpec {
        SpanSpec { text: self.text@, style: self.style }
    }
}

/// A line in mathematical terms.
pub open spec fn span_specs(line: Seq<Span>) -> Seq<SpanSpec> {
    line.map_values(|s: Span| s@)
}

/// Lines in mathematical terms.
pub open spec fn line_specs(lines: Seq<Vec<Span>>) -> Seq<Seq<SpanSpec>> {
    lines.map_values(|l: Vec<Span>| span_specs(l@))
}

/// A text with its look.
pub open spec fn styled(text: Seq<char>, style: TextStyle) -> SpanSpec {
    SpanSpec { text, style }
}

/// A text in a color.
pub open spec fn colored(text: Seq<char>, color: Color) -> SpanSpec {
    SpanSpec { text, style: TextStyle::spec_color(color) }
}

/// A text in a color and in bold.
pub open spec fn colored_bold(text: Seq<char>, color: Color) -> SpanSpec {
    SpanSpec { text, style: TextStyle { bold: true, ..TextStyle::spec_color(color) } }
}

/// A text as it is.
pub open spec fn raw(text: Seq<char>) -> SpanSpec {
    SpanSpec { text, style: TextStyle::spec_plain() }
}

impl Span {
    /// A text with its look.
    pub fn new(text: String, style: TextStyle) -> (span: Span)
        ensures
            span@ == styled(text@, style),
    {
        Span { text, style }
    }

    fn colored(text: &str, color: Color) -> (span: Span)
        ensures
            span@ == colored(text@, color),
    {
        Span { text: text.to_owned(), style: TextStyle::color(color) }
    }

    fn colored_bold(text: &str, color: Color) -> (span: Span)
        ensures
            span@ == colored_bold(text@, color),
    {
        Span { text: text.to_owned(), style: TextStyle::color(color).strong() }
    }

    fn raw(text: &str) -> (span: Span)
        ensures
            span@ == raw(text@),
    {
        Span { text: text.to_owned(), style: TextStyle::plain() }
    }
}

/// The border of a panel, which tells whether it has the focus.
pub open spec fn border_color(focused: bool) -> Color {
    if focused {
        Color::Cyan
    } else {
        Color::White
    }
}

// ---------------------------------------------------------------------------
// Motors and commands
// ---------------------------------------------------------------------------

/// A row in the table of motors.
#[derive(Debug)]
pub struct MotorRow {
    /// ID, model, state, position, velocity, torque, temperature and mode
    pub cells: Vec<String>,
    /// The look of the state
    pub state_style: TextStyle,
    /// The look of the row
    pub row_style: TextStyle,
}

/// A row in the table of motors, in mathematical terms.
#[verifier::ext_equal]
pub struct RowSpec {
    pub cells: Seq<Seq<char>>,
    pub state_style: TextStyle,
    pub row_style: TextStyle,
}

impl View for MotorRow {
    type V = RowSpec;

    open spec fn view(&self) -> RowSpec {
        RowSpec {
            cells: crate::text::texts(self.cells@),
            state_style: self.state_style,
            row_style: self.row_style,
        }
    }
}

/// The look of a row in the table of motors.
pub open spec fn row_look(selected: bool, focused: bool) -> TextStyle {
    if selected && focused {
        TextStyle { bg: Some(Color::DarkGray), ..TextStyle::spec_plain() }
    } else if selected {
        TextStyle { underlined: true, ..TextStyle::spec_plain() }
    } else {
        TextStyle::spec_plain()
    }
}

/// A motor in the table. Dashes stand for what is not known of it.
pub open spec fn motor_row(
    entry: EntrySpec,
    shown: Shown,
    selected: bool,
    focused: bool,
) -> RowSpec {
    RowSpec {
        cells: seq![
            crate::text::decimal(entry.motor.id() as nat),
            entry.motor.spec_label(),
            if entry.enabled {
                "ON"@
            } else {
                "OFF"@
            },
        ] + match entry.feedback {
            Some(feedback) => seq![
                crate::text::right_aligned(shown.position@, 8),
                crate::text::right_aligned(shown.velocity@, 8),
                crate::text::right_aligned(shown.torque@, 8),
                crate::text::right_aligned(shown.temperature@, 5),
                crate::text::decimal(feedback.status.mode as nat),
            ],
            None => seq!["---"@, "---"@, "---"@, "---"@, "-"@],
        },
        state_style: TextStyle::spec_color(
            if entry.enabled {
                Color::Green
            } else {
                Color::DarkGray
            },
        ),
        row_style: row_look(selected, focused),
    }
}

fn show_motor(entry: &MotorEntry, shown: &Shown, selected: bool, focused: bool) -> (row: MotorRow)
    ensures
        row@ == motor_row(entry@, *shown, selected, focused),
{
    let mut cells = vec![
        decimal_text(entry.motor.can_id() as u64),
        entry.motor.model_label(),
        if entry.enabled {
            "ON".to_owned()
        } else {
            "OFF".to_owned()
        },
    ];
    match &entry.feedback {
        Some(feedback) => {
            cells.push(align_right(shown.position.as_str(), 8));
            cells.push(align_right(shown.velocity.as_str(), 8));
            cells.push(align_right(shown.torque.as_str(), 8));
            cells.push(align_right(shown.temperature.as_str(), 5));
            cells.push(decimal_text(feedback.status.mode as u64));
        },
        None => {
            cells.push("---".to_owned());
            cells.push("---".to_owned());
            cells.push("---".to_owned());
            cells.push("---".to_owned());
            cells.push("-".to_owned());
        },
    }
    let state_style = TextStyle::color(
        if entry.enabled {
            Color::Green
        } else {
            Color::DarkGray
        },
    );
    let row_style = if selected && focused {
        TextStyle::plain().on(Color::DarkGray)
    } else if selected {
        TextStyle { fg: None, bg: None, bold: false, underlined: true, italic: false }
    } else {
        TextStyle::plain()
    };
    let row = MotorRow { cells, state_style, row_style };
    assert(row@.cells =~= motor_row(entry@, *shown, selected, focused).cells);
    row
}

/// The look of an entry in the list of commands.
pub open spec fn command_look(selected: bool, focused: bool) -> TextStyle {
    if selected && focused {
        TextStyle {
            fg: Some(Color::Black),
            bg: Some(Color::Cyan),
            bold: true,
            underlined: false,
            italic: false,
        }
    } else if selected {
        TextStyle::spec_color(Color::Cyan)
    } else {
        TextStyle::spec_plain()
    }
}

impl App {
    /// The rows in the table of motors, given their feedback as it is shown. Without motors
    /// there are none, and a hint takes their place.
    pub fn render_motors(&self, shown: &Vec<Shown>) -> (rows: Vec<MotorRow>)
        requires
            shown@.len() == self.motors@.len(),
        ensures
            rows@.len() == self@.motors.len(),
            forall|i: int|
                0 <= i < rows@.len() ==> (#[trigger] rows@[i])@ == motor_row(
                    self@.motors[i],
                    shown@[i],
                    i == self@.selected_motor,
                    self@.focus == Focus::Motors,
                ),
    {
        let focused = self.focus == Focus::Motors;
        let mut rows: Vec<MotorRow> = Vec::new();
        let mut i: usize = 0;
        while i < self.motors.len()
            invariant
                i <= self.motors@.len() == shown@.len(),
                focused == (self.focus == Focus::Motors),
                rows@.len() == i,
                forall|k: int|
                    0 <= k < i ==> (#[trigger] rows@[k])@ == motor_row(
                        self@.motors[k],
                        shown@[k],
                        k == self@.selected_motor,
                        self@.focus == Focus::Motors,
                    ),
            decreases self.motors@.len() - i,
        {
            assert(self@.motors[i as int] == self.motors@[i as int]@);
            rows.push(show_motor(&self.motors[i], &shown[i], i == self.selected_motor, focused));
            i = i + 1;
        }
        rows
    }

    /// The entries in the list of commands.
    pub fn render_commands(&self) -> (items: Vec<Span>)
        ensures
            items@.len() == Command::list().len(),
            forall|i: int|
                0 <= i < items@.len() ==> (#[trigger] items@[i])@ == styled(
                    " "@ + Command::list()[i].spec_label() + " "@,
                    command_look(i == self@.selected_cmd, self@.focus == Focus::Commands),
                ),
    {
        let focused = self.focus == Focus::Commands;
        let commands = Command::all();
        let mut items: Vec<Span> = Vec::new();
        let mut i: usize = 0;
        while i < commands.len()
            invariant
                i <= commands@.len(),
                commands@ == Command::list(),
                focused == (self.focus == Focus::Commands),
                items@.len() == i,
                forall|k: int|
                    0 <= k < i ==> (#[trigger] items@[k])@ == styled(
                        " "@ + Command::list()[k].spec_label() + " "@,
                        command_look(k == self@.selected_cmd, self@.focus == Focus::Commands),
                    ),
            decreases commands@.len() - i,
        {
            let selected = i == self.selected_cmd;
            let style = if selected && focused {
                TextStyle::color(Color::Black).on(Color::Cyan).strong()
            } else if selected {
                TextStyle::color(Color::Cyan)
            } else {
                TextStyle::plain()
            };
            let text = " ".to_owned().concat(commands[i].label()).concat(" ");
            items.push(Span::new(text, style));
            i = i + 1;
        }
        items
    }

    /// The color of the border of a panel.
    pub fn border(&self, panel: Focus) -> (color: Color)
        ensures
            color == border_color(self@.focus == panel),
    {
        if self.focus == panel {
            Color::Cyan
        } else {
            Color::White
        }
    }
}

// ---------------------------------------------------------------------------
// Parameters
// ---------------------------------------------------------------------------

/// A line at a place below the top of a panel.
#[derive(Debug)]
pub struct PlacedLine {
    pub y: u16,
    pub line: Vec<Span>,
}

/// A line at a place, in mathematical terms.
pub open spec fn placed(lines: Seq<PlacedLine>) -> Seq<(int, Seq<SpanSpec>)> {
    lines.map_values(|l: PlacedLine| (l.y as int, span_specs(l.line@)))
}

/// The width of the column of names: that of the longest, and six at least.
pub open spec fn name_width(params: Seq<FieldSpec>) -> nat
    decreases params.len(),
{
    if params.len() == 0 {
        6
    } else {
        let before = name_width(params.drop_last());
        if params.last().name.len() > before {
            params.last().name.len()
        } else {
            before
        }
    }
}

/// The line of a parameter: its name, its value or what is being typed, whether it has
/// choices, and its default if the value is another one.
pub open spec fn param_line(
    field: FieldSpec,
    width: nat,
    selected: bool,
    editing: Option<Seq<char>>,
) -> Seq<SpanSpec> {
    seq![
        if selected {
            colored_bold(
                " "@ + crate::text::right_aligned(field.name, width) + " "@,
                Color::Cyan,
            )
        } else {
            colored(" "@ + crate::text::right_aligned(field.name, width) + " "@, Color::Yellow)
        },
        match editing {
            Some(typed) => styled(
                typed + "_"@,
                TextStyle {
                    fg: Some(Color::White),
                    bg: Some(Color::DarkGray),
                    bold: false,
                    underlined: false,
                    italic: false,
                },
            ),
            None => if selected {
                colored_bold(field.value, Color::White)
            } else {
                colored(field.value, Color::White)
            },
        },
        colored(
            " "@ + (if field.choices is Some {
                "▼"@
            } else {
                ""@
            }) + (if field.value != field.default {
                " (def:"@ + field.default + ")"@
            } else {
                ""@
            }),
            Color::DarkGray,
        ),
    ]
}

/// The line that describes a parameter.
pub open spec fn desc_line(field: FieldSpec) -> Seq<SpanSpec> {
    seq![
        styled(
            " → "@ + field.desc,
            TextStyle { italic: true, ..TextStyle::spec_color(Color::DarkGray) },
        ),
    ]
}

/// The line that lists the choices of a parameter.
pub open spec fn choices_line(choices: Seq<char>) -> Seq<SpanSpec> {
    seq![colored("   ["@ + choices + "]"@, Color::DarkGray)]
}

impl AppSpec {
    /// Whether a parameter is the selected one in a panel with the focus.
    pub open spec fn param_selected(self, i: int) -> bool {
        i == self.selected_param && self.focus == Focus::Params
    }

    /// The lines of the first `n` parameters.
    pub open spec fn param_rows(self, n: int) -> Seq<(int, Seq<SpanSpec>)> {
        Seq::new(
            n as nat,
            |i: int|
                (
                    i,
                    param_line(
                        self.params[i],
                        name_width(self.params),
                        self.param_selected(i),
                        if self.param_selected(i) && self.editing_param {
                            Some(self.param_edit_buf)
                        } else {
                            None
                        },
                    ),
                ),
        )
    }

    /// The description of the selected parameter and its choices, as far as there is room for
    /// them below the parameters. While a parameter is being edited they are not shown.
    pub open spec fn param_hints(self, height: int) -> Seq<(int, Seq<SpanSpec>)> {
        let n = self.params.len() as int;
        if self.focus == Focus::Params && !self.editing_param && self.selected_param < n && n
            < height {
            let field = self.params[self.selected_param];
            let desc = seq![(n, desc_line(field))];
            match field.choices {
                Some(choices) => if n + 1 < height {
                    desc.push((n + 1, choices_line(choices)))
                } else {
                    desc
                },
                None => desc,
            }
        } else {
            Seq::empty()
        }
    }

    /// The lines of a panel of parameters with room for `height` lines.
    pub open spec fn param_panel(self, height: int) -> Seq<(int, Seq<SpanSpec>)> {
        let n = self.params.len() as int;
        self.param_rows(
            if n <= height {
                n
            } else {
                height
            },
        ) + self.param_hints(height)
    }
}

fn widest(params: &Vec<ParamField>) -> (width: usize)
    ensures
        width == name_width(crate::tui::fields::field_specs(params@)),
{
    let ghost specs = crate::tui::fields::field_specs(params@);
    let mut width: usize = 6;
    let mut i: usize = 0;
    assert(specs.take(0) =~= Seq::<FieldSpec>::empty());
    while i < params.len()
        invariant
            i <= params@.len(),
            specs == crate::tui::fields::field_specs(params@),
            width == name_width(specs.take(i as int)),
        decreases params@.len() - i,
    {
        assert(specs.take(i + 1).drop_last() =~= specs.take(i as int));
        assert(specs.take(i + 1).last() == params@[i as int]@);
        let len: usize = params[i].name.unicode_len();
        if len > width {
            width = len;
        }
        i = i + 1;
    }
    assert(specs.take(i as int) =~= specs);
    width
}

fn show_param(
    field: &ParamField,
    width: usize,
    selected: bool,
    editing: Option<&String>,
) -> (line: Vec<Span>)
    ensures
        span_specs(line@) == param_line(
            field@,
            width as nat,
            selected,
            match editing {
                Some(typed) => Some(typed@),
                None => None,
            },
        ),
{
    let name = " ".to_owned().concat(align_right(field.name, width).as_str()).concat(" ");
    let name_span = if selected {
        Span::colored_bold(name.as_str(), Color::Cyan)
    } else {
        Span::colored(name.as_str(), Color::Yellow)
    };
    let value_span = match editing {
        Some(typed) => Span::new(
            typed.clone().concat("_"),
            TextStyle::color(Color::White).on(Color::DarkGray),
        ),
        None => if selected {
            Span::colored_bold(field.value.as_str(), Color::White)
        } else {
            Span::colored(field.value.as_str(), Color::White)
        },
    };
    let marker = match field.choices {
        Some(_) => "▼",
        None => "",
    };
    let hint = if same_text(field.value.as_str(), field.default.as_str()) {
        "".to_owned()
    } else {
        " (def:".to_owned().concat(field.default.as_str()).concat(")")
    };
    let tail = " ".to_owned().concat(marker).concat(hint.as_str());
    let line = vec![name_span, value_span, Span::colored(tail.as_str(), Color::DarkGray)];
    assert(span_specs(line@) =~= param_line(
        field@,
        width as nat,
        selected,
        match editing {
            Some(typed) => Some(typed@),
            None => None,
        },
    ));
    line
}

impl App {
    /// The title of the panel of parameters.
    pub fn params_title(&self) -> (title: String)
        requires
            self.selected_cmd < Command::list().len(),
        ensures
            title@ == " "@ + self@.command().spec_label() + " Params "@,
    {
        " ".to_owned().concat(Command::at(self.selected_cmd).label()).concat(" Params ")
    }

    /// The lines of the panel of parameters, for a panel with room for `height` lines.
    pub fn render_params(&self, height: u16) -> (lines: Vec<PlacedLine>)
        requires
            self.valid(),
        ensures
            placed(lines@) == self@.param_panel(height as int),
    {
        let ghost app = self@;
        assert(app.params.len() == self.params@.len());
        let width = widest(&self.params);
        let total: usize = self.params.len();
        let shown: usize = if total <= height as usize {
            total
        } else {
            height as usize
        };
        let mut lines: Vec<PlacedLine> = Vec::new();
        let mut i: usize = 0;
        while i < shown
            invariant
                i <= shown <= self.params@.len(),
                shown <= height,
                app == self@,
                app.params.len() == self.params@.len(),
                width == name_width(app.params),
                placed(lines@) == app.param_rows(i as int),
            decreases shown - i,
        {
            let selected = i == self.selected_param && self.focus == Focus::Params;
            let editing = if selected && self.editing_param {
                Some(&self.param_edit_buf)
            } else {
                None
            };
            assert(app.params[i as int] == self.params@[i as int]@);
            let line = show_param(&self.params[i], width, selected, editing);
            let ghost before = placed(lines@);
            lines.push(PlacedLine { y: i as u16, line });
            assert(placed(lines@) =~= before.push((i as int, span_specs(line@))));
            assert(app.param_rows(i + 1) =~= before.push((i as int, span_specs(line@))));
            i = i + 1;
        }
        let ghost rows = app.param_rows(shown as int);
        let ghost hints = app.param_hints(height as int);
        if self.focus == Focus::Params && !self.editing_param && self.selected_param < total
            && total < height as usize {
            let field = &self.params[self.selected_param];
            assert(app.params[self.selected_param as int] == field@);
            let text = " → ".to_owned().concat(field.desc);
            let desc = vec![Span::new(text, TextStyle::color(Color::DarkGray).slanted())];
            assert(span_specs(desc@) =~= desc_line(field@));
            lines.push(PlacedLine { y: total as u16, line: desc });
            match field.choices {
                Some(choices) => {
                    if total + 1 < height as usize {
                        let listed = "   [".to_owned().concat(choices).concat("]");
                        let line = vec![Span::colored(listed.as_str(), Color::DarkGray)];
                        assert(span_specs(line@) =~= choices_line(choices@));
                        lines.push(PlacedLine { y: (total + 1) as u16, line });
                    }
                },
                None => {},
            }
        }
        assert(placed(lines@) =~= rows + hints);
        lines
    }
}

// ---------------------------------------------------------------------------
// Log and input
// ---------------------------------------------------------------------------

/// The color of a message in the log.
pub open spec fn log_color(message: Seq<char>) -> Color {
    if crate::text::has_part(message, "ERROR"@) || crate::text::has_part(message, "failed"@) {
        Color::Red
    } else if crate::text::has_part(message, "OK"@) || crate::text::has_part(message, "enabled"@)
        || crate::text::has_part(message, "Found"@) {
        Color::Green
    } else {
        Color::White
    }
}

impl App {
    /// The messages of the log that fit a panel of the given height with its border: the last
    /// ones.
    pub fn render_log(&self, height: u16) -> (lines: Vec<Span>)
        ensures
            ({
                let log = self@.log;
                let room = if height >= 2 {
                    height - 2
                } else {
                    0
                };
                let shown = if log.len() > room {
                    log.skip(log.len() - room)
                } else {
                    log
                };
                span_specs(lines@) == shown.map_values(
                    |m: Seq<char>| colored(m, log_color(m)),
                )
            }),
    {
        let ghost log = self@.log;
        assert(log.len() == self.log@.len());
        let room: usize = if height >= 2 {
            (height - 2) as usize
        } else {
            0
        };
        let start: usize = if self.log.len() > room {
            self.log.len() - room
        } else {
            0
        };
        let mut lines: Vec<Span> = Vec::new();
        let mut i: usize = start;
        let ghost shown = log.skip(start as int);
        assert(start == 0 ==> shown =~= log);
        while i < self.log.len()
            invariant
                start <= i <= self.log@.len(),
                log == self@.log,
                log.len() == self.log@.len(),
                shown == log.skip(start as int),
                span_specs(lines@) == shown.take(i - start).map_values(
                    |m: Seq<char>| colored(m, log_color(m)),
                ),
            decreases self.log@.len() - i,
        {
            let message = self.log[i].as_str();
            assert(log[i as int] == message@);
            let color = if contains(message, "ERROR") || contains(message, "failed") {
                Color::Red
            } else if contains(message, "OK") || contains(message, "enabled") || contains(
                message,
                "Found",
            ) {
                Color::Green
            } else {
                Color::White
            };
            let ghost before = span_specs(lines@);
            lines.push(Span::colored(message, color));
            assert(span_specs(lines@) =~= before.push(colored(message@, log_color(message@))));
            assert(shown.take(i + 1 - start).map_values(
                |m: Seq<char>| colored(m, log_color(m)),
            ) =~= before.push(colored(message@, log_color(message@))));
            i = i + 1;
        }
        assert(shown.take(i - start) =~= shown);
        lines
    }

    /// The title and the text of the line of input.
    pub fn render_input(&self) -> (parts: (String, String))
        ensures
            parts.0@ == " Input: "@ + (match self@.pending_cmd {
                Some(command) => command.spec_label(),
                None => "?"@,
            }) + " "@,
            parts.1@ == self@.input_buf + "_"@,
    {
        let label = match self.pending_cmd {
            Some(command) => command.label(),
            None => "?",
        };
        (
            " Input: ".to_owned().concat(label).concat(" "),
            self.input_buf.clone().concat("_"),
        )
    }
}

// ---------------------------------------------------------------------------
// Overlays
// ---------------------------------------------------------------------------

/// A rectangle on the screen.
#[derive(Debug, Clone, Copy, PartialEq, Eq, Structural)]
pub struct Area {
    pub x: u16,
    pub y: u16,
    pub width: u16,
    pub height: u16,
}

/// What the overlay is about.
#[derive(Debug, Clone, Copy, PartialEq, Eq, Structural)]
pub enum OverlayKind {
    /// An assist test with one motor.
    AssistTest,
    /// Two motors, the leader of which is switched on when there is a force.
    OnDemand {
        /// Whether it is on
        leader_on: bool,
    },
    /// Two motors under control all the time.
    Bilateral,
}

/// What a control loop reports, as it is shown but not yet in columns.
#[derive(Debug)]
pub struct Telemetry {
    pub method: Option<BilateralMethod>,
    pub loop_hz: String,
    pub cycle_count: u64,
    pub leader_pos: String,
    pub leader_vel: String,
    pub leader_torque: String,
    pub follower_pos: String,
    pub follower_vel: String,
    pub follower_torque: String,
    pub position_error: String,
    /// Whether the position error is large
    pub far: bool,
    pub leader_friction: String,
    pub follower_friction: String,
    pub inertia_comp: String,
    pub vel_assist: String,
    pub last_error: Option<String>,
}

/// A loop without a method is an assist test.
pub fn overlay_kind(method: Option<BilateralMethod>) -> (kind: OverlayKind)
    ensures
        kind == (if method is None {
            OverlayKind::AssistTest
        } else {
            OverlayKind::Bilateral
        }),
{
    match method {
        None => OverlayKind::AssistTest,
        Some(_) => OverlayKind::Bilateral,
    }
}

/// The title of the overlay.
pub fn overlay_title(kind: OverlayKind) -> (title: &'static str)
    ensures
        title@ == (if kind is AssistTest {
            " Assist Test "@
        } else {
            " Bilateral Control "@
        }),
{
    match kind {
        OverlayKind::AssistTest => " Assist Test ",
        _ => " Bilateral Control ",
    }
}

/// Position, velocity and commanded torque of a motor, in columns.
pub open spec fn motor_columns(pos: Seq<char>, vel: Seq<char>, torque: Seq<char>) -> Seq<char> {
    "pos="@ + crate::text::right_aligned(pos, 8) + "  vel="@ + crate::text::right_aligned(vel, 8)
        + "  τcmd="@ + crate::text::right_aligned(torque, 7)
}

fn columns(pos: &str, vel: &str, torque: &str) -> (text: String)
    ensures
        text@ == motor_columns(pos@, vel@, torque@),
{
    "pos=".to_owned().concat(align_right(pos, 8).as_str()).concat("  vel=").concat(
        align_right(vel, 8).as_str(),
    ).concat("  τcmd=").concat(align_right(torque, 7).as_str())
}

/// The line of the overlay with the method and the pace of the loop.
pub open spec fn mode_line(t: Telemetry) -> Seq<SpanSpec> {
    seq![
        colored(" Mode: "@, Color::Yellow),
        colored_bold(
            match t.method {
                Some(method) => method.spec_label(),
                None => "Assist Test"@,
            },
            Color::White,
        ),
        raw("    "@),
        colored("Loop: "@ + t.loop_hz@ + " Hz"@, Color::Cyan),
        raw("    "@),
        colored("Cycles: "@ + crate::text::decimal(t.cycle_count as nat), Color::DarkGray),
    ]
}

/// The line of the overlay with the follower.
pub open spec fn follower_line(t: Telemetry) -> Seq<SpanSpec> {
    seq![
        colored_bold(" Follow  ( 1): "@, Color::Magenta),
        raw(motor_columns(t.follower_pos@, t.follower_vel@, t.follower_torque@)),
    ]
}

/// The position error, in red if it is large.
pub open spec fn error_span(t: Telemetry) -> SpanSpec {
    colored(
        crate::text::right_aligned(t.position_error@, 8) + " rad"@,
        if t.far {
            Color::Red
        } else {
            Color::White
        },
    )
}

/// The lines of the overlay between the first and the last two.
pub open spec fn motor_lines(kind: OverlayKind, t: Telemetry) -> Seq<Seq<SpanSpec>> {
    let leader = raw(motor_columns(t.leader_pos@, t.leader_vel@, t.leader_torque@));
    let friction = crate::text::right_aligned(t.follower_friction@, 6);
    match kind {
        OverlayKind::OnDemand { leader_on } => seq![
            seq![
                colored_bold(" Leader  (10): "@, Color::Green),
                raw(
                    motor_columns(t.leader_pos@, t.leader_vel@, t.leader_torque@) + "  "@,
                ),
                if leader_on {
                    colored_bold("● ON "@, Color::Red)
                } else {
                    colored("○ OFF"@, Color::DarkGray)
                },
            ],
            follower_line(t),
            seq![
                colored(" Δpos: "@, Color::Yellow),
                error_span(t),
                raw("   "@),
                colored("Force: "@, Color::DarkGray),
                colored(
                    crate::text::right_aligned(t.vel_assist@, 6) + " Nm"@,
                    if leader_on {
                        Color::Yellow
                    } else {
                        Color::White
                    },
                ),
                raw("  "@),
                colored("FrComp: "@, Color::DarkGray),
                raw(friction),
            ],
        ],
        OverlayKind::Bilateral => seq![
            seq![colored_bold(" Leader  (10): "@, Color::Green), leader],
            follower_line(t),
            seq![
                colored(" Δpos: "@, Color::Yellow),
                error_span(t),
                raw("   "@),
                colored("FrComp: "@, Color::DarkGray),
                raw(
                    "L="@ + crate::text::right_aligned(t.leader_friction@, 6) + " F="@ + friction,
                ),
                raw("  "@),
                colored("InrComp: "@, Color::DarkGray),
                raw(crate::text::right_aligned(t.inertia_comp@, 6)),
                raw("  "@),
                colored("VelAst: "@, Color::DarkGray),
                raw(crate::text::right_aligned(t.vel_assist@, 6)),
            ],
        ],
        OverlayKind::AssistTest => seq![
            seq![colored_bold(" Motor:       "@, Color::Green), leader],
            seq![
                colored(" FrComp: "@, Color::DarkGray),
                raw(crate::text::right_aligned(t.leader_friction@, 6)),
                raw("  "@),
                colored("InrComp: "@, Color::DarkGray),
                raw(crate::text::right_aligned(t.inertia_comp@, 6)),
                raw("  "@),
                colored("VelAst: "@, Color::DarkGray),
                raw(crate::text::right_aligned(t.vel_assist@, 6)),
            ],
        ],
    }
}

/// The last two lines of the overlay: how the loop fares and how to stop it.
pub open spec fn closing_lines(t: Telemetry) -> Seq<Seq<SpanSpec>> {
    seq![
        seq![
            raw(" "@),
            match t.last_error {
                Some(e) => colored("ERR: "@ + e@, Color::Red),
                None => colored("OK"@, Color::Green),
            },
        ],
        seq![
            styled(
                " Press Esc or q to stop "@,
                TextStyle { italic: true, ..TextStyle::spec_color(Color::DarkGray) },
            ),
        ],
    ]
}

/// The lines of the overlay.
pub open spec fn overlay_lines(kind: OverlayKind, t: Telemetry) -> Seq<Seq<SpanSpec>> {
    seq![mode_line(t)] + motor_lines(kind, t) + closing_lines(t)
}

fn show_mode(t: &Telemetry) -> (line: Vec<Span>)
    ensures
        span_specs(line@) == mode_line(*t),
{
    let method = match t.method {
        Some(method) => method.label(),
        None => "Assist Test",
    };
    let pace = "Loop: ".to_owned().concat(t.loop_hz.as_str()).concat(" Hz");
    let cycles = "Cycles: ".to_owned().concat(decimal_text(t.cycle_count).as_str());
    let line = vec![
        Span::colored(" Mode: ", Color::Yellow),
        Span::colored_bold(method, Color::White),
        Span::raw("    "),
        Span::colored(pace.as_str(), Color::Cyan),
        Span::raw("    "),
        Span::colored(cycles.as_str(), Color::DarkGray),
    ];
    assert(span_specs(line@) =~= mode_line(*t));
    line
}

fn show_follower(t: &Telemetry) -> (line: Vec<Span>)
    ensures
        span_specs(line@) == follower_line(*t),
{
    let text = columns(
        t.follower_pos.as_str(),
        t.follower_vel.as_str(),
        t.follower_torque.as_str(),
    );
    let line = vec![
        Span::colored_bold(" Follow  ( 1): ", Color::Magenta),
        Span::raw(text.as_str()),
    ];
    assert(span_specs(line@) =~= follower_line(*t));
    line
}

fn show_error(t: &Telemetry) -> (span: Span)
    ensures
        span@ == error_span(*t),
{
    let text = align_right(t.position_error.as_str(), 8).concat(" rad");
    Span::colored(
        text.as_str(),
        if t.far {
            Color::Red
        } else {
            Color::White
        },
    )
}

fn show_leader(t: &Telemetry) -> (text: String)
    ensures
        text@ == motor_columns(t.leader_pos@, t.leader_vel@, t.leader_torque@),
{
    columns(t.leader_pos.as_str(), t.leader_vel.as_str(), t.leader_torque.as_str())
}

fn show_on_demand(t: &Telemetry, leader_on: bool) -> (lines: Vec<Vec<Span>>)
    ensures
        line_specs(lines@) == motor_lines(OverlayKind::OnDemand { leader_on }, *t),
{
    let leader = show_leader(t).concat("  ");
    let first = vec![
        Span::colored_bold(" Leader  (10): ", Color::Green),
        Span::raw(leader.as_str()),
        if leader_on {
            Span::colored_bold("● ON ", Color::Red)
        } else {
            Span::colored("○ OFF", Color::DarkGray)
        },
    ];
    let force = align_right(t.vel_assist.as_str(), 6).concat(" Nm");
    let third = vec![
        Span::colored(" Δpos: ", Color::Yellow),
        show_error(t),
        Span::raw("   "),
        Span::colored("Force: ", Color::DarkGray),
        Span::colored(
            force.as_str(),
            if leader_on {
                Color::Yellow
            } else {
                Color::White
            },
        ),
        Span::raw("  "),
        Span::colored("FrComp: ", Color::DarkGray),
        Span::raw(align_right(t.follower_friction.as_str(), 6).as_str()),
    ];
    let lines = vec![first, show_follower(t), third];
    let ghost goal = motor_lines(OverlayKind::OnDemand { leader_on }, *t);
    assert(span_specs(first@) =~= goal[0]);
    assert(span_specs(third@) =~= goal[2]);
    assert(line_specs(lines@) =~= goal);
    lines
}

fn show_bilateral(t: &Telemetry) -> (lines: Vec<Vec<Span>>)
    ensures
        line_specs(lines@) == motor_lines(OverlayKind::Bilateral, *t),
{
    let first = vec![
        Span::colored_bold(" Leader  (10): ", Color::Green),
        Span::raw(show_leader(t).as_str()),
    ];
    let friction = "L=".to_owned().concat(
        align_right(t.leader_friction.as_str(), 6).as_str(),
    ).concat(" F=").concat(align_right(t.follower_friction.as_str(), 6).as_str());
    let third = vec![
        Span::colored(" Δpos: ", Color::Yellow),
        show_error(t),
        Span::raw("   "),
        Span::colored("FrComp: ", Color::DarkGray),
        Span::raw(friction.as_str()),
        Span::raw("  "),
        Span::colored("InrComp: ", Color::DarkGray),
        Span::raw(align_right(t.inertia_comp.as_str(), 6).as_str()),
        Span::raw("  "),
        Span::colored("VelAst: ", Color::DarkGray),
        Span::raw(align_right(t.vel_assist.as_str(), 6).as_str()),
    ];
    let lines = vec![first, show_follower(t), third];
    let ghost goal = motor_lines(OverlayKind::Bilateral, *t);
    assert(span_specs(first@) =~= goal[0]);
    assert(span_specs(third@) =~= goal[2]);
    assert(line_specs(lines@) =~= goal);
    lines
}

fn show_assist(t: &Telemetry) -> (lines: Vec<Vec<Span>>)
    ensures
        line_specs(lines@) == motor_lines(OverlayKind::AssistTest, *t),
{
    let first = vec![
        Span::colored_bold(" Motor:       ", Color::Green),
        Span::raw(show_leader(t).as_str()),
    ];
    let second = vec![
        Span::colored(" FrComp: ", Color::DarkGray),
        Span::raw(align_right(t.leader_friction.as_str(), 6).as_str()),
        Span::raw("  "),
        Span::colored("InrComp: ", Color::DarkGray),
        Span::raw(align_right(t.inertia_comp.as_str(), 6).as_str()),
        Span::raw("  "),
        Span::colored("VelAst: ", Color::DarkGray),
        Span::raw(align_right(t.vel_assist.as_str(), 6).as_str()),
    ];
    let lines = vec![first, second];
    let ghost goal = motor_lines(OverlayKind::AssistTest, *t);
    assert(span_specs(first@) =~= goal[0]);
    assert(span_specs(second@) =~= goal[1]);
    assert(line_specs(lines@) =~= goal);
    lines
}

/// The lines of the overlay that shows a running control loop.
pub fn render_bilateral_overlay(kind: OverlayKind, t: &Telemetry) -> (lines: Vec<Vec<Span>>)
    ensures
        line_specs(lines@) == overlay_lines(kind, *t),
{
    let mut lines: Vec<Vec<Span>> = vec![show_mode(t)];
    let mut middle = match kind {
        OverlayKind::OnDemand { leader_on } => show_on_demand(t, leader_on),
        OverlayKind::Bilateral => show_bilateral(t),
        OverlayKind::AssistTest => show_assist(t),
    };
    let ghost first = line_specs(lines@);
    let ghost between = line_specs(middle@);
    assert(first =~= seq![mode_line(*t)]);
    lines.append(&mut middle);
    assert(line_specs(lines@) =~= first + between);
    let fares = match &t.last_error {
        Some(e) => Span::colored("ERR: ".to_owned().concat(e.as_str()).as_str(), Color::Red),
        None => Span::colored("OK", Color::Green),
    };
    let status = vec![Span::raw(" "), fares];
    let hint = vec![
        Span::new(
            " Press Esc or q to stop ".to_owned(),
            TextStyle::color(Color::DarkGray).slanted(),
        ),
    ];
    assert(span_specs(status@) =~= closing_lines(*t)[0]);
    assert(span_specs(hint@) =~= closing_lines(*t)[1]);
    lines.push(status);
    lines.push(hint);
    assert(line_specs(lines@) =~= first + between + closing_lines(*t));
    lines
}

/// Where the overlay goes: at the bottom of the screen, in the middle, at most 70 columns wide.
/// On a screen that is high enough it lies on the screen.
pub fn overlay_area(screen: Area, lines: u16) -> (area: Area)
    requires
        lines <= 0xFFFC,
    ensures
        ({
            let margin: int = if screen.width >= 4 {
                screen.width - 4
            } else {
                0
            };
            let width: int = if margin < 70 {
                margin
            } else {
                70
            };
            let height: int = lines + 2;
            &&& area.width == width
            &&& area.height == height
            &&& area.x == (screen.width - width) / 2
            &&& area.y == (if screen.height >= height + 1 {
                screen.height - height - 1
            } else {
                0
            })
        }),
        area.x + area.width <= screen.width,
        screen.height >= lines + 3 ==> area.y + area.height < screen.height,
{
    let margin: u16 = if screen.width >= 4 {
        screen.width - 4
    } else {
        0
    };
    let width: u16 = if margin < 70 {
        margin
    } else {
        70
    };
    let height: u16 = lines + 2;
    let y: u16 = if screen.height >= height + 1 {
        screen.height - height - 1
    } else {
        0
    };
    Area { x: (screen.width - width) / 2, y, width, height }
}

/// Where the progress of a scan goes: above the bottom of the screen, two thirds of it wide.
/// The screen must have room for it.
pub fn scan_bar_area(screen: Area) -> (area: Area)
    requires
        screen.x + screen.width / 6 <= 0xFFFF,
        4 <= screen.y + screen.height <= 0xFFFF,
        screen.width * 2 <= 0xFFFF,
    ensures
        area.x == screen.x + screen.width / 6,
        area.y == screen.y + screen.height - 4,
        area.width == screen.width * 2 / 3,
        area.height == 3,
{
    Area {
        x: screen.x + screen.width / 6,
        y: screen.y + screen.height - 4,
        width: screen.width * 2 / 3,
        height: 3,
    }
}

/// What the screen holds besides the panels that are always there.
#[derive(Debug, Clone, Copy, PartialEq, Eq, Structural)]
pub struct Extras {
    /// Height of the line of input with its border
    pub input_height: u16,
    /// Whether the overlay of the control loop is shown
    pub overlay: bool,
    /// Whether the progress of a scan is shown
    pub scan_bar: bool,
}

impl App {
    /// What the screen holds besides the panels that are always there.
    pub fn ui(&self) -> (extras: Extras)
        ensures
            extras == (Extras {
                input_height: if self@.input_mode {
                    3
                } else {
                    0
                },
                overlay: self@.bilateral,
                scan_bar: self@.scanning,
            }),
    {
        Extras {
            input_height: if self.input_mode {
                3
            } else {
                0
            },
            overlay: self.bilateral_active(),
            scan_bar: self.scanning,
        }
    }
}

// ---------------------------------------------------------------------------
// What the views show
// ---------------------------------------------------------------------------

/// The cells of a motor: its ID, its model, whether it is on, then what it has told, each value
/// at the right end of its column. While it has told nothing, dashes stand there. Which row is
/// selected changes the look of the row and no cell.
pub proof fn law_motor_cells(entry: EntrySpec, shown: Shown, selected: bool, focused: bool)
    ensures
        ({
            let row = motor_row(entry, shown, selected, focused);
            &&& row.cells.len() == 8
            &&& row.cells[0] == crate::text::decimal(entry.motor.id() as nat)
            &&& row.cells[1] == entry.motor.spec_label()
            &&& row.cells[2] == "ON"@ <==> entry.enabled
            &&& row.cells[2] == "OFF"@ <==> !entry.enabled
            &&& row.state_style.fg == Some(Color::Green) <==> entry.enabled
            &&& entry.feedback is None ==> row.cells.skip(3) == seq![
                "---"@,
                "---"@,
                "---"@,
                "---"@,
                "-"@,
            ]
            &&& entry.feedback is Some ==> {
                &&& at_right(row.cells[3], shown.position@, 8)
                &&& at_right(row.cells[4], shown.velocity@, 8)
                &&& at_right(row.cells[5], shown.torque@, 8)
                &&& at_right(row.cells[6], shown.temperature@, 5)
                &&& row.cells[7] == crate::text::decimal(entry.feedback->0.status.mode as nat)
            }
            &&& row.cells == motor_row(entry, shown, !selected, !focused).cells
        }),
{
    let row = motor_row(entry, shown, selected, focused);
    reveal_strlit("ON");
    reveal_strlit("OFF");
    assert("ON"@.len() == 2 && "OFF"@.len() == 3);
    assert(entry.feedback is None ==> row.cells.skip(3) =~= seq![
        "---"@,
        "---"@,
        "---"@,
        "---"@,
        "-"@,
    ]);
    crate::text::law_right_aligned(shown.position@, 8);
    crate::text::law_right_aligned(shown.velocity@, 8);
    crate::text::law_right_aligned(shown.torque@, 8);
    crate::text::law_right_aligned(shown.temperature@, 5);
}

/// Whether a text stands at the right end of a column.
pub open spec fn at_right(cell: Seq<char>, text: Seq<char>, width: nat) -> bool {
    &&& cell.len() == if text.len() < width {
        width
    } else {
        text.len()
    }
    &&& cell.skip(cell.len() - text.len()) == text
}

/// A selected entry is told from the others in a panel with the focus and in one without, and
/// a panel with the focus from one without. Entries that are not selected are plain.
pub proof fn law_selected_seen(focused: bool)
    ensures
        row_look(true, focused) != row_look(false, focused),
        command_look(true, focused) != command_look(false, focused),
        row_look(true, true) != row_look(true, false),
        command_look(true, true) != command_look(true, false),
        border_color(true) != border_color(false),
        row_look(false, focused) == row_look(false, !focused),
        command_look(false, focused) == command_look(false, !focused),
        row_look(false, focused).fg is None && row_look(false, focused).bg is None,
        command_look(false, focused).fg is None && command_look(false, focused).bg is None,
        row_look(true, true).bg == Some(Color::DarkGray),
        row_look(true, false).underlined,
        command_look(true, true).bg == Some(Color::Cyan),
        command_look(true, false).fg == Some(Color::Cyan),
        border_color(true) == Color::Cyan,
{
}

/// A message is red exactly if it tells of an error or a failure, whatever else it tells, and
/// green exactly if it tells of none and of something that went well or was found.
pub proof fn law_message_colors(message: Seq<char>)
    ensures
        log_color(message) == Color::Red <==> crate::text::has_part(message, "ERROR"@)
            || crate::text::has_part(message, "failed"@),
        log_color(message) == Color::Green <==> !crate::text::has_part(message, "ERROR"@)
            && !crate::text::has_part(message, "failed"@) && (crate::text::has_part(message, "OK"@)
            || crate::text::has_part(message, "enabled"@) || crate::text::has_part(
            message,
            "Found"@,
        )),
        log_color(message) == Color::Red || log_color(message) == Color::Green || log_color(
            message,
        ) == Color::White,
{
}

/// The column of names has room for every name and for six characters, and no more than that.
pub proof fn law_name_column(params: Seq<FieldSpec>)
    ensures
        name_width(params) >= 6,
        forall|i: int| 0 <= i < params.len() ==> (#[trigger] params[i]).name.len() <= name_width(params),
        name_width(params) == 6 || exists|i: int|
            0 <= i < params.len() && (#[trigger] params[i]).name.len() == name_width(params),
    decreases params.len(),
{
    if params.len() > 0 {
        let before = params.drop_last();
        law_name_column(before);
        assert forall|i: int| 0 <= i < params.len() implies (#[trigger] params[i]).name.len()
            <= name_width(params) by {
            if i < before.len() {
                assert(before[i] == params[i]);
            }
        }
        if name_width(before) == name_width(params) && name_width(before) != 6 {
            let i = choose|i: int|
                0 <= i < before.len() && (#[trigger] before[i]).name.len() == name_width(before);
            assert(params[i].name.len() == name_width(params));
        } else if name_width(params) != 6 {
            assert(params[params.len() - 1].name.len() == name_width(params));
        }
    }
}

/// A line of parameters tells the name and the value, or what is being typed with a cursor
/// behind it. It tells the default exactly if the value is another one, and marks the selected
/// parameter.
pub proof fn law_param_shown(field: FieldSpec, width: nat, selected: bool, typed: Seq<char>)
    ensures
        ({
            let line = param_line(field, width, selected, None);
            let edited = param_line(field, width, selected, Some(typed));
            &&& line.len() == 3 && edited.len() == 3
            &&& line[0].text == " "@ + crate::text::right_aligned(field.name, width) + " "@
            &&& line[1].text == field.value
            &&& edited[0] == line[0] && edited[2] == line[2]
            &&& edited[1].text == typed + "_"@
            &&& line[0].style.bold == selected && line[1].style.bold == selected
            &&& field.value == field.default && field.choices is None ==> line[2].text == " "@
            &&& field.value == field.default && field.choices is Some ==> line[2].text == " ▼"@
            &&& field.value != field.default ==> line[2].text.len() > 7 + field.default.len()
                && line[2].text.subrange(
                line[2].text.len() - field.default.len() - 1,
                line[2].text.len() - 1,
            ) == field.default
        }),
{
    let line = param_line(field, width, selected, None);
    reveal_strlit("");
    reveal_strlit(" ");
    reveal_strlit("▼");
    reveal_strlit(" ▼");
    reveal_strlit(" (def:");
    reveal_strlit(")");
    assert(field.value == field.default && field.choices is None ==> line[2].text =~= " "@);
    assert(field.value == field.default && field.choices is Some ==> line[2].text =~= " ▼"@);
    assert(field.value != field.default ==> line[2].text.subrange(
        line[2].text.len() - field.default.len() - 1,
        line[2].text.len() - 1,
    ) =~= field.default);
}

/// The panel of parameters has a line for each parameter that there is room for, in order and
/// one below the other, and no line below its last. Below the parameters it describes the
/// selected one, unless that one is being edited or the panel does not have the focus.
pub proof fn law_param_panel(app: AppSpec, height: int)
    requires
        app.valid(),
        0 <= height,
    ensures
        ({
            let panel = app.param_panel(height);
            let n = app.params.len() as int;
            let rows = if n <= height {
                n
            } else {
                height
            };
            &&& panel.len() <= height
            &&& panel.len() >= rows
            &&& forall|i: int| 0 <= i < panel.len() ==> (#[trigger] panel[i]).0 == i
            &&& forall|i: int|
                0 <= i < rows ==> (#[trigger] panel[i]).1[0].text == " "@
                    + crate::text::right_aligned(app.params[i].name, name_width(app.params)) + " "@
            &&& forall|i: int|
                0 <= i < rows && !(app.editing_param && i == app.selected_param) ==> (
                #[trigger] panel[i]).1[1].text == app.params[i].value
            &&& app.editing_param && app.selected_param < rows ==> panel[app.selected_param].1[1].text
                == app.param_edit_buf + "_"@
            &&& panel.len() > rows <==> app.focus == Focus::Params && !app.editing_param && n < height
            &&& panel.len() > n && n <= height ==> panel[n].1[0].text == " → "@
                + app.params[app.selected_param].desc
        }),
{
}

/// The overlay tells of each motor its own values: the leader's in the line of the leader, the
/// follower's in the line of the follower, each in its column.
pub proof fn law_overlay_motors(kind: OverlayKind, t: Telemetry)
    ensures
        ({
            let lines = overlay_lines(kind, t);
            let leader = "pos="@ + crate::text::right_aligned(t.leader_pos@, 8) + "  vel="@
                + crate::text::right_aligned(t.leader_vel@, 8) + "  τcmd="@
                + crate::text::right_aligned(t.leader_torque@, 7);
            let follower = "pos="@ + crate::text::right_aligned(t.follower_pos@, 8) + "  vel="@
                + crate::text::right_aligned(t.follower_vel@, 8) + "  τcmd="@
                + crate::text::right_aligned(t.follower_torque@, 7);
            &&& lines.len() == if kind is AssistTest {
                5int
            } else {
                6
            }
            &&& lines[1][1].text == if kind is OnDemand {
                leader + "  "@
            } else {
                leader
            }
            &&& kind is AssistTest || lines[2][1].text == follower
            &&& lines[0][1].text == match t.method {
                Some(method) => method.spec_label(),
                None => "Assist Test"@,
            }
            &&& lines[0][3].text == "Loop: "@ + t.loop_hz@ + " Hz"@
            &&& lines[0][5].text == "Cycles: "@ + crate::text::decimal(t.cycle_count as nat)
        }),
{
}

/// The position error is shown while two motors are coupled, in red exactly if it is large.
/// Friction and inertia compensation and the assist are shown under their own names.
pub proof fn law_overlay_values(t: Telemetry, leader_on: bool)
    ensures
        ({
            let coupled = overlay_lines(OverlayKind::Bilateral, t);
            let demand = overlay_lines(OverlayKind::OnDemand { leader_on }, t);
            let assist = overlay_lines(OverlayKind::AssistTest, t);
            let error = crate::text::right_aligned(t.position_error@, 8) + " rad"@;
            &&& coupled[3][1].text == error && demand[3][1].text == error
            &&& coupled[3][1].style.fg == Some(Color::Red) <==> t.far
            &&& demand[3][1].style.fg == Some(Color::Red) <==> t.far
            &&& coupled[3][4].text == "L="@ + crate::text::right_aligned(t.leader_friction@, 6)
                + " F="@ + crate::text::right_aligned(t.follower_friction@, 6)
            &&& coupled[3][7].text == crate::text::right_aligned(t.inertia_comp@, 6)
            &&& coupled[3][10].text == crate::text::right_aligned(t.vel_assist@, 6)
            &&& demand[3][4].text == crate::text::right_aligned(t.vel_assist@, 6) + " Nm"@
            &&& demand[3][7].text == crate::text::right_aligned(t.follower_friction@, 6)
            &&& demand[1][2].style.fg == Some(Color::Red) <==> leader_on
            &&& assist[2][1].text == crate::text::right_aligned(t.leader_friction@, 6)
            &&& assist[2][4].text == crate::text::right_aligned(t.inertia_comp@, 6)
            &&& assist[2][7].text == crate::text::right_aligned(t.vel_assist@, 6)
        }),
{
}

/// The overlay ends with how the loop fares, in red exactly if there was an error, and with how
/// to stop it.
pub proof fn law_overlay_end(kind: OverlayKind, t: Telemetry)
    ensures
        ({
            let lines = overlay_lines(kind, t);
            let n = lines.len() as int;
            &&& n >= 2
            &&& lines[n - 2][1].style.fg == Some(Color::Red) <==> t.last_error is Some
            &&& t.last_error is Some ==> lines[n - 2][1].text == "ERR: "@ + t.last_error->0@
            &&& t.last_error is None ==> lines[n - 2][1].text == "OK"@
                && lines[n - 2][1].style.fg == Some(Color::Green)
            &&& lines[n - 1][0].text == " Press Esc or q to stop "@
        }),
{
    let lines = overlay_lines(kind, t);
    let n = lines.len() as int;
    assert(lines[n - 2] == closing_lines(t)[0]);
    assert(lines[n - 1] == closing_lines(t)[1]);
}

/// Below the parameters stand the description of the selected one and, if it has choices, these
/// in brackets one line further down, as far as there is room.
pub proof fn law_hints_placed(app: AppSpec, height: int)
    requires
        app.valid(),
        app.focus == Focus::Params,
        !app.editing_param,
    ensures
        ({
            let hints = app.param_hints(height);
            let n = app.params.len() as int;
            let field = app.params[app.selected_param];
            &&& n < height ==> hints.len() > 0 && hints[0].0 == n && hints[0].1[0].text == " → "@
                + field.desc && hints[0].1[0].style.italic
            &&& n + 1 < height && field.choices is Some ==> hints.len() == 2 && hints[1].0 == n + 1
                && hints[1].1[0].text == "   ["@ + field.choices->0 + "]"@
            &&& field.choices is None || n + 1 >= height ==> hints.len() <= 1
            &&& n >= height ==> hints.len() == 0
        }),
{
}

/// Names are cyan where they are selected and yellow elsewhere, values white, what is being
/// typed white on gray, and remarks gray.
pub proof fn law_param_colors(field: FieldSpec, width: nat, selected: bool, typed: Seq<char>)
    ensures
        ({
            let line = param_line(field, width, selected, None);
            let edited = param_line(field, width, selected, Some(typed));
            &&& line[0].style.fg == Some(
                if selected {
                    Color::Cyan
                } else {
                    Color::Yellow
                },
            )
            &&& line[1].style.fg == Some(Color::White) && line[1].style.bg is None
            &&& edited[1].style.fg == Some(Color::White) && edited[1].style.bg == Some(
                Color::DarkGray,
            )
            &&& line[2].style.fg == Some(Color::DarkGray)
        }),
{
}

/// In the overlay the leader's line is headed in green and the follower's in magenta, the
/// method is bold and white, the pace cyan and the count of cycles gray.
pub proof fn law_overlay_colors(kind: OverlayKind, t: Telemetry)
    ensures
        ({
            let lines = overlay_lines(kind, t);
            &&& lines[0][0].text == " Mode: "@ && lines[0][0].style.fg == Some(Color::Yellow)
            &&& lines[0][1].style.fg == Some(Color::White) && lines[0][1].style.bold
            &&& lines[0][3].style.fg == Some(Color::Cyan)
            &&& lines[0][5].style.fg == Some(Color::DarkGray)
            &&& lines[1][0].style.fg == Some(Color::Green) && lines[1][0].style.bold
            &&& lines[1][0].text == if kind is AssistTest {
                " Motor:       "@
            } else {
                " Leader  (10): "@
            }
            &&& !(kind is AssistTest) ==> lines[2][0].text == " Follow  ( 1): "@
                && lines[2][0].style.fg == Some(Color::Magenta) && lines[2][0].style.bold
            &&& !(kind is AssistTest) ==> lines[3][0].text == " Δpos: "@
        }),
{
}

} // verus!
