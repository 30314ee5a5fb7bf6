//! What the terminal tool shows, as texts. Numbers with fractions come in
//! already written out.
use crate::feedback::{ErrorFlags, RunMode};
use crate::text;
use crate::tui::app;
use crate::tui::app::{App, Focus, ScanInProgress};
use crate::tui::commands;
use crate::tui::commands::{Command, ParamField};
use crate::tui::factory::DriverKind;
use vstd::prelude::*;
use vstd::string::*;

verus! {

/// How a piece of text is shown.
#[derive(Debug, Clone, Copy, PartialEq, Eq, Structural)]
pub enum Tone {
    Plain,
    /// A measured value.
    Value,
    /// Less important.
    Dim,
    /// Calls for attention.
    Notice,
    /// Under the cursor.
    Cursor,
    /// The name of a parameter under the cursor.
    Field,
    /// The value of a parameter under the cursor.
    CursorValue,
    /// A warning.
    Alert,
}

/// A piece of text and how it is shown.
#[derive(Debug)]
pub struct Piece {
    pub text: String,
    pub tone: Tone,
}

/// A piece of text by its characters.
pub struct PieceView {
    pub text: Seq<char>,
    pub tone: Tone,
}

impl View for Piece {
    type V = PieceView;

    open spec fn view(&self) -> PieceView {
        PieceView { text: self.text@, tone: self.tone }
    }
}

/// A line of pieces.
pub type Line = Vec<Piece>;

/// A line by its characters.
pub open spec fn line_view(line: Line) -> Seq<PieceView> {
    line@.map_values(|p: Piece| p@)
}

/// Lines by their characters.
pub open spec fn lines_view(lines: Seq<Line>) -> Seq<Seq<PieceView>> {
    lines.map_values(|l: Line| line_view(l))
}

/// A piece of text.
pub open spec fn piece(text: Seq<char>, tone: Tone) -> PieceView {
    PieceView { text, tone }
}

/// A piece of text.
fn make(text: String, tone: Tone) -> (r: Piece)
    ensures
        r@ == piece(text@, tone),
{
    Piece { text, tone }
}

/// `head`, `body` and `tail` in one text.
fn join(head: &str, body: &str, tail: &str) -> (r: String)
    ensures
        r@ == head@ + body@ + tail@,
{
    let mut out: String = String::new();
    out.append(head);
    out.append(body);
    out.append(tail);
    assert(out@ =~= head@ + body@ + tail@);
    out
}

/// The name of a motor family.
pub open spec fn kind_text(kind: DriverKind) -> Seq<char> {
    match kind {
        DriverKind::Robstride => "Robstride"@,
        DriverKind::Lkmotor => "Lkmotor"@,
        DriverKind::Damiao => "Damiao"@,
    }
}

/// The name of a run mode; a question mark for none.
pub open spec fn run_mode_text(mode: Option<RunMode>) -> Seq<char> {
    match mode {
        Some(RunMode::Mit) => "Mit"@,
        Some(RunMode::Position) => "Position"@,
        Some(RunMode::Velocity) => "Velocity"@,
        Some(RunMode::Torque) => "Torque"@,
        None => "?"@,
    }
}

/// The title over the live values.
pub open spec fn title_text(
    kind: DriverKind,
    interface: Seq<char>,
    motor_id: u8,
    mode: Option<RunMode>,
    enabled: bool,
) -> Seq<char> {
    " misa-actuator-tui — driver="@ + kind_text(kind) + " iface="@ + interface + " id="@
        + text::dec(motor_id as nat) + "  mode="@ + run_mode_text(mode) + "  enabled="@ + (
    if enabled {
        "YES"@
    } else {
        "no"@
    }) + " "@
}

/// The title over the live values.
pub fn header_title(
    kind: DriverKind,
    interface: &str,
    motor_id: u8,
    mode: Option<RunMode>,
    enabled: bool,
) -> (r: String)
    ensures
        r@ == title_text(kind, interface@, motor_id, mode, enabled),
{
    let mut out: String = String::new();
    out.append(" misa-actuator-tui — driver=");
    match kind {
        DriverKind::Robstride => out.append("Robstride"),
        DriverKind::Lkmotor => out.append("Lkmotor"),
        DriverKind::Damiao => out.append("Damiao"),
    }
    out.append(" iface=");
    out.append(interface);
    out.append(" id=");
    text::push_dec(&mut out, motor_id as u64);
    out.append("  mode=");
    match mode {
        Some(RunMode::Mit) => out.append("Mit"),
        Some(RunMode::Position) => out.append("Position"),
        Some(RunMode::Velocity) => out.append("Velocity"),
        Some(RunMode::Torque) => out.append("Torque"),
        None => out.append("?"),
    }
    out.append("  enabled=");
    if enabled {
        out.append("YES");
    } else {
        out.append("no");
    }
    out.append(" ");
    assert(out@ =~= title_text(kind, interface@, motor_id, mode, enabled));
    out
}

/// The last measurement, written out.
pub struct LiveValues {
    pub position: String,
    pub velocity: String,
    pub torque: String,
    pub current: String,
    pub temperature: String,
    /// How old the measurement is.
    pub age_ms: u64,
}

/// The last status, with its voltage written out.
pub struct LiveStatus {
    pub voltage: String,
    pub error: ErrorFlags,
}

/// The lines of the last measurement.
pub open spec fn live_lines(live: Option<LiveValues>) -> Seq<Seq<PieceView>> {
    match live {
        Some(v) => seq![
            seq![
                piece("pos="@, Tone::Plain),
                piece(""@ + v.position@ + " rad"@, Tone::Value),
                piece("  vel="@, Tone::Plain),
                piece(""@ + v.velocity@ + " rad/s"@, Tone::Value),
            ],
            seq![
                piece("τ="@, Tone::Plain),
                piece(""@ + v.torque@ + " Nm"@, Tone::Value),
                piece("  iq="@, Tone::Plain),
                piece(""@ + v.current@ + " A"@, Tone::Value),
                piece("  T="@ + v.temperature@ + "°C"@, Tone::Plain),
                piece("  ("@ + text::dec(v.age_ms as nat) + " ms ago)"@, Tone::Dim),
            ],
        ],
        None => seq![seq![piece("no feedback yet — press Enter on Measure"@, Tone::Dim)]],
    }
}

/// The line of the last status.
pub open spec fn status_lines(status: Option<LiveStatus>) -> Seq<Seq<PieceView>> {
    match status {
        Some(s) => seq![
            seq![
                piece(
                    "Vbus="@ + s.voltage@ + " V  raw_err=0x"@ + text::hex(
                        s.error.raw_bits() as nat,
                        8,
                    ) + (if s.error.common_bits() != 0 {
                        "  ⚠"@
                    } else {
                        ""@
                    }),
                    Tone::Plain,
                ),
            ],
        ],
        None => Seq::empty(),
    }
}

/// The line about polling.
pub open spec fn poll_line(auto_poll: bool, interval_ms: u64) -> Seq<PieceView> {
    seq![
        piece(
            "auto-poll "@ + (if auto_poll {
                "ON"@
            } else {
                "OFF"@
            }) + " (toggle: p) — interval="@ + text::dec(interval_ms as nat) + " ms"@,
            Tone::Dim,
        ),
    ]
}

/// The lines of the last measurement.
fn live_part(live: &Option<LiveValues>) -> (r: Vec<Line>)
    ensures
        lines_view(r@) == live_lines(*live),
{
    let mut lines: Vec<Line> = Vec::new();
    match live {
        Some(v) => {
            let mut a: Line = Vec::new();
            a.push(make("pos=".to_owned(), Tone::Plain));
            a.push(make(join("", v.position.as_str(), " rad"), Tone::Value));
            a.push(make("  vel=".to_owned(), Tone::Plain));
            a.push(make(join("", v.velocity.as_str(), " rad/s"), Tone::Value));
            let mut b: Line = Vec::new();
            b.push(make("τ=".to_owned(), Tone::Plain));
            b.push(make(join("", v.torque.as_str(), " Nm"), Tone::Value));
            b.push(make("  iq=".to_owned(), Tone::Plain));
            b.push(make(join("", v.current.as_str(), " A"), Tone::Value));
            b.push(make(join("  T=", v.temperature.as_str(), "°C"), Tone::Plain));
            b.push(
                make(
                    join("  (", text::dec_string(v.age_ms).as_str(), " ms ago)"),
                    Tone::Dim,
                ),
            );
            assert(line_view(a) =~= live_lines(*live)[0]);
            assert(line_view(b) =~= live_lines(*live)[1]);
            lines.push(a);
            lines.push(b);
        },
        None => {
            let mut a: Line = Vec::new();
            a.push(make("no feedback yet — press Enter on Measure".to_owned(), Tone::Dim));
            assert(line_view(a) =~= live_lines(*live)[0]);
            lines.push(a);
        },
    }
    assert(lines_view(lines@) =~= live_lines(*live));
    lines
}

/// The lines of the live values: the last measurement, the last status where
/// there is one, and whether polling is on.
pub fn header_lines(
    live: &Option<LiveValues>,
    status: &Option<LiveStatus>,
    auto_poll: bool,
    interval_ms: u64,
) -> (r: Vec<Line>)
    ensures
        lines_view(r@) == live_lines(*live) + status_lines(*status) + seq![
            poll_line(auto_poll, interval_ms),
        ],
{
    let mut lines: Vec<Line> = live_part(live);
    let ghost first = lines@;
    if let Some(s) = status {
        let mut out: String = String::new();
        out.append("Vbus=");
        out.append(s.voltage.as_str());
        out.append(" V  raw_err=0x");
        text::push_hex(&mut out, s.error.raw() as u64, 8);
        if s.error.any() {
            out.append("  ⚠");
        } else {
            out.append("");
        }
        assert(out@ =~= status_lines(*status)[0][0].text);
        let mut a: Line = Vec::new();
        a.push(make(out, Tone::Plain));
        assert(line_view(a) =~= status_lines(*status)[0]);
        lines.push(a);
    }
    let ghost second = lines@;
    assert(lines_view(second) =~= live_lines(*live) + status_lines(*status));
    let mut out: String = String::new();
    out.append("auto-poll ");
    if auto_poll {
        out.append("ON");
    } else {
        out.append("OFF");
    }
    out.append(" (toggle: p) — interval=");
    text::push_dec(&mut out, interval_ms);
    out.append(" ms");
    assert(out@ =~= poll_line(auto_poll, interval_ms)[0].text);
    let mut a: Line = Vec::new();
    a.push(make(out, Tone::Dim));
    assert(line_view(a) =~= poll_line(auto_poll, interval_ms));
    lines.push(a);
    assert(lines_view(lines@) =~= lines_view(second).push(poll_line(auto_poll, interval_ms)));
    lines
}

/// The line of a listed motor: the active one is marked.
pub open spec fn motor_label(id: u8, active: bool) -> Seq<char> {
    if active {
        "● id="@ + text::left_aligned(text::dec(id as nat), 3) + " (active)"@
    } else {
        "○ id="@ + text::dec(id as nat)
    }
}

/// The line of the listed motor at `i`.
pub open spec fn motor_piece(v: app::AppView, i: int) -> PieceView {
    piece(
        motor_label(v.motors[i], v.motors[i] == v.motor_id),
        if v.focus == Focus::Motors && i == v.selected_motor {
            Tone::Cursor
        } else {
            Tone::Plain
        },
    )
}

/// The title over the listed motors.
pub fn motors_title(app: &App) -> (r: String)
    ensures
        r@ == " motors ("@ + text::dec(app@.motors.len()) + ") "@,
{
    join(" motors (", text::dec_string(app.discovered_motors().len() as u64).as_str(), ") ")
}

/// The lines of the listed motors.
pub fn motor_items(app: &App) -> (r: Vec<Piece>)
    ensures
        r.len() == app@.motors.len(),
        forall|i: int| 0 <= i < r.len() ==> (#[trigger] r@[i])@ == motor_piece(app@, i),
{
    let motors = app.discovered_motors();
    let mut items: Vec<Piece> = Vec::new();
    let mut i: usize = 0;
    while i < motors.len()
        invariant
            i <= motors.len(),
            motors@ == app@.motors,
            items.len() == i,
            forall|j: int| 0 <= j < i ==> (#[trigger] items@[j])@ == motor_piece(app@, j),
        decreases motors.len() - i,
    {
        let id: u8 = motors[i];
        let active: bool = id == app.motor_id();
        let mut out: String = String::new();
        if active {
            out.append("● id=");
            text::push_left_aligned(&mut out, text::dec_string(id as u64).as_str(), 3);
            out.append(" (active)");
        } else {
            out.append("○ id=");
            text::push_dec(&mut out, id as u64);
        }
        assert(out@ =~= motor_label(id, active));
        let cursor: bool = app.focus() == Focus::Motors && i == app.selected_motor();
        items.push(
            make(
                out,
                if cursor {
                    Tone::Cursor
                } else {
                    Tone::Plain
                },
            ),
        );
        i = i + 1;
    }
    items
}

/// The line of the command at `i` of the list.
pub open spec fn command_piece(v: app::AppView, i: int) -> PieceView {
    piece(
        commands::all_commands()[i].label_text(),
        if i == v.selected_cmd {
            Tone::Cursor
        } else {
            Tone::Plain
        },
    )
}

/// The lines of the commands, in the order of the list; the selected one is marked.
pub fn command_items(app: &App) -> (r: Vec<Piece>)
    ensures
        r.len() == Command::COUNT,
        forall|i: int| 0 <= i < r.len() ==> (#[trigger] r@[i])@ == command_piece(app@, i),
{
    let mut items: Vec<Piece> = Vec::new();
    let mut i: usize = 0;
    while i < Command::COUNT
        invariant
            i <= Command::COUNT,
            items.len() == i,
            forall|j: int| 0 <= j < i ==> (#[trigger] items@[j])@ == command_piece(app@, j),
        decreases Command::COUNT - i,
    {
        let tone = if i == app.selected_command() {
            Tone::Cursor
        } else {
            Tone::Plain
        };
        items.push(make(Command::at(i).label().to_owned(), tone));
        i = i + 1;
    }
    items
}

/// The title over the parameters.
pub fn params_title(app: &App) -> (r: String)
    requires
        app@.wf(),
    ensures
        r@ == " params: "@ + app@.command().label_text() + " "@,
{
    join(" params: ", app.current_command().label(), " ")
}

/// The line of the parameter at `i`: while it is edited, it shows what is typed.
pub open spec fn param_line(v: app::AppView, i: int) -> Seq<PieceView> {
    let p = v.current_params()[i];
    let selected = v.focus == Focus::Params && i == v.selected_param;
    let shown = if selected && v.editing {
        v.edit_buf + "_"@
    } else {
        p.value
    };
    seq![
        piece(
            "  "@ + text::left_aligned(p.name, 10) + " = "@,
            if selected {
                Tone::Field
            } else {
                Tone::Plain
            },
        ),
        piece(
            text::left_aligned(shown, 14),
            if selected {
                Tone::CursorValue
            } else {
                Tone::Value
            },
        ),
        piece("  "@ + p.desc + ""@, Tone::Dim),
    ] + (match p.choices {
        Some(c) => seq![piece("  ["@ + c + "]"@, Tone::Dim)],
        None => Seq::empty(),
    })
}

/// The line of one parameter.
fn param_pieces(p: &ParamField, selected: bool, editing: bool, edit_text: &str) -> (r: Line)
    ensures
        line_view(r) == ({
            let shown = if selected && editing {
                edit_text@ + "_"@
            } else {
                p@.value
            };
            seq![
                piece(
                    "  "@ + text::left_aligned(p@.name, 10) + " = "@,
                    if selected {
                        Tone::Field
                    } else {
                        Tone::Plain
                    },
                ),
                piece(
                    text::left_aligned(shown, 14),
                    if selected {
                        Tone::CursorValue
                    } else {
                        Tone::Value
                    },
                ),
                piece("  "@ + p@.desc + ""@, Tone::Dim),
            ] + (match p@.choices {
                Some(c) => seq![piece("  ["@ + c + "]"@, Tone::Dim)],
                None => Seq::empty(),
            })
        }),
{
    let mut line: Line = Vec::new();
    let mut name: String = String::new();
    name.append("  ");
    text::push_left_aligned(&mut name, p.name, 10);
    name.append(" = ");
    assert(name@ =~= "  "@ + text::left_aligned(p@.name, 10) + " = "@);
    line.push(
        make(
            name,
            if selected {
                Tone::Field
            } else {
                Tone::Plain
            },
        ),
    );
    let mut value: String = String::new();
    let ghost shown = if selected && editing {
        edit_text@ + "_"@
    } else {
        p@.value
    };
    if selected && editing {
        let mut typed: String = String::new();
        typed.append(edit_text);
        typed.append("_");
        assert(typed@ =~= shown);
        text::push_left_aligned(&mut value, typed.as_str(), 14);
    } else {
        text::push_left_aligned(&mut value, p.value.as_str(), 14);
    }
    assert(value@ =~= text::left_aligned(shown, 14));
    line.push(
        make(
            value,
            if selected {
                Tone::CursorValue
            } else {
                Tone::Value
            },
        ),
    );
    line.push(make(join("  ", p.desc, ""), Tone::Dim));
    if let Some(c) = p.choices {
        line.push(make(join("  [", c, "]"), Tone::Dim));
    }
    assert(line_view(line) =~= seq![
        piece(
            "  "@ + text::left_aligned(p@.name, 10) + " = "@,
            if selected {
                Tone::Field
            } else {
                Tone::Plain
            },
        ),
        piece(
            text::left_aligned(shown, 14),
            if selected {
                Tone::CursorValue
            } else {
                Tone::Value
            },
        ),
        piece("  "@ + p@.desc + ""@, Tone::Dim),
    ] + (match p@.choices {
        Some(c) => seq![piece("  ["@ + c + "]"@, Tone::Dim)],
        None => Seq::empty(),
    }));
    line
}

/// What is shown of a command without parameters.
pub open spec fn no_params_line() -> Seq<PieceView> {
    seq![piece("(no parameters — press Enter on Commands pane to run)"@, Tone::Dim)]
}

/// The lines of the parameters of the selected command, or that it has none.
/// While one is edited, how to end that.
pub open spec fn params_view(v: app::AppView) -> Seq<Seq<PieceView>> {
    let n = v.current_params().len();
    let lines = Seq::new(n, |i: int| param_line(v, i));
    if n == 0 {
        seq![no_params_line()]
    } else if v.editing {
        lines + seq![
            seq![piece(""@, Tone::Plain)],
            seq![piece("  Editing — Enter to commit, Esc to cancel"@, Tone::Notice)],
        ]
    } else {
        lines
    }
}

/// The lines of the parameters of the selected command.
pub fn param_lines(app: &App) -> (r: Vec<Line>)
    requires
        app@.wf(),
    ensures
        lines_view(r@) == params_view(app@),
{
    let params = app.current_params();
    let ghost v = app@;
    let mut lines: Vec<Line> = Vec::new();
    let mut i: usize = 0;
    assert(params@.len() == v.current_params().len());
    if params.len() == 0 {
        let mut a: Line = Vec::new();
        a.push(
            make("(no parameters — press Enter on Commands pane to run)".to_owned(), Tone::Dim),
        );
        assert(line_view(a) =~= no_params_line());
        lines.push(a);
        assert(lines_view(lines@) =~= params_view(v));
        return lines;
    }
    while i < params.len()
        invariant
            i <= params.len(),
            v == app@,
            commands::fields(params@) == v.current_params(),
            lines.len() == i,
            forall|j: int| 0 <= j < i ==> line_view(#[trigger] lines@[j]) == param_line(v, j),
        decreases params.len() - i,
    {
        let selected: bool = app.focus() == Focus::Params && i == app.selected_param();
        assert(commands::fields(params@)[i as int] == params@[i as int]@);
        let line = param_pieces(&params[i], selected, app.is_editing(), app.edit_text());
        assert(line_view(line) == param_line(v, i as int));
        lines.push(line);
        i = i + 1;
    }
    if app.is_editing() {
        let mut a: Line = Vec::new();
        a.push(make("".to_owned(), Tone::Plain));
        assert(line_view(a) =~= seq![piece(""@, Tone::Plain)]);
        lines.push(a);
        let mut b: Line = Vec::new();
        b.push(make("  Editing — Enter to commit, Esc to cancel".to_owned(), Tone::Notice));
        assert(line_view(b) =~= seq![
            piece("  Editing — Enter to commit, Esc to cancel"@, Tone::Notice),
        ]);
        lines.push(b);
    }
    assert(lines_view(lines@) =~= params_view(v));
    lines
}

/// A part of the screen.
#[derive(Debug, Clone, Copy, PartialEq, Eq, Structural)]
pub struct Area {
    pub x: u16,
    pub y: u16,
    pub width: u16,
    pub height: u16,
}

/// `a - b`, or 0 where that is negative.
pub open spec fn less(a: int, b: int) -> int {
    if a < b {
        0
    } else {
        a - b
    }
}

/// The smaller of two.
pub open spec fn lesser(a: int, b: int) -> int {
    if a < b {
        a
    } else {
        b
    }
}

/// The width of the scan dialog on a screen of this width.
pub open spec fn dialog_width(width: u16) -> int {
    lesser(60, less(width as int, 4))
}

/// The height of the scan dialog on a screen of this height.
pub open spec fn dialog_height(height: u16) -> int {
    lesser(9, less(height as int, 2))
}

/// Where the scan dialog goes: 60 by 9 in the middle of the screen, smaller where
/// the screen is.
pub fn dialog_area(screen: Area) -> (r: Area)
    requires
        screen.x + (screen.width - dialog_width(screen.width)) / 2 <= u16::MAX,
        screen.y + (screen.height - dialog_height(screen.height)) / 2 <= u16::MAX,
    ensures
        r.width == dialog_width(screen.width),
        r.height == dialog_height(screen.height),
        r.x == screen.x + (screen.width - r.width) / 2,
        r.y == screen.y + (screen.height - r.height) / 2,
{
    let room_w: u16 = if screen.width < 4 {
        0
    } else {
        screen.width - 4
    };
    let room_h: u16 = if screen.height < 2 {
        0
    } else {
        screen.height - 2
    };
    let width: u16 = if room_w < 60 {
        room_w
    } else {
        60
    };
    let height: u16 = if room_h < 9 {
        room_h
    } else {
        9
    };
    Area {
        x: screen.x + (screen.width - width) / 2,
        y: screen.y + (screen.height - height) / 2,
        width,
        height,
    }
}

/// The dialog never sticks out of the screen.
pub proof fn law_dialog_fits_the_screen(screen: Area, w: int, h: int)
    requires
        w == dialog_width(screen.width),
        h == dialog_height(screen.height),
    ensures
        screen.x <= screen.x + (screen.width - w) / 2,
        screen.x + (screen.width - w) / 2 + w <= screen.x + screen.width,
        screen.y <= screen.y + (screen.height - h) / 2,
        screen.y + (screen.height - h) / 2 + h <= screen.y + screen.height,
{
}

/// The first line of the scan dialog.
pub open spec fn dialog_range(s: app::ScanView, elapsed: Seq<char>) -> Seq<char> {
    "Range: "@ + text::dec(s.from as nat) + "..="@ + text::dec(s.to as nat) + "   Probing id="@
        + text::dec(
        if s.current < s.to {
            s.current as nat
        } else {
            s.to as nat
        },
    ) + "   Elapsed: "@ + elapsed + "s"@
}

/// The second line of the scan dialog.
pub open spec fn dialog_found(s: app::ScanView) -> Seq<char> {
    "Found so far: "@ + text::dec(s.found.len()) + "   Probed: "@ + text::dec(s.done() as nat) + "/"@
        + text::dec(s.total() as nat)
}

/// The lines of the scan dialog: the range, what was found, and how to cancel.
/// `elapsed` is how long the scan has taken, in seconds.
pub fn dialog_lines(scan: &ScanInProgress, elapsed: &str) -> (r: (String, String, Piece))
    requires
        scan@.wf(),
    ensures
        r.0@ == dialog_range(scan@, elapsed@),
        r.1@ == dialog_found(scan@),
        r.2@ == (if scan@.cancelled {
            piece("cancelling…"@, Tone::Alert)
        } else {
            piece("Esc to cancel"@, Tone::Dim)
        }),
{
    let mut a: String = String::new();
    a.append("Range: ");
    text::push_dec(&mut a, scan.from() as u64);
    a.append("..=");
    text::push_dec(&mut a, scan.to() as u64);
    a.append("   Probing id=");
    text::push_dec(&mut a, scan.probing() as u64);
    a.append("   Elapsed: ");
    a.append(elapsed);
    a.append("s");
    assert(a@ =~= dialog_range(scan@, elapsed@));
    let mut b: String = String::new();
    b.append("Found so far: ");
    text::push_dec(&mut b, scan.found_count() as u64);
    b.append("   Probed: ");
    text::push_dec(&mut b, scan.done_count() as u64);
    b.append("/");
    text::push_dec(&mut b, scan.total() as u64);
    assert(b@ =~= dialog_found(scan@));
    let c = if scan.is_cancelled() {
        make("cancelling…".to_owned(), Tone::Alert)
    } else {
        make("Esc to cancel".to_owned(), Tone::Dim)
    };
    (a, b, c)
}

/// Where the log starts on a screen with `height` rows for it, two of them taken
/// by the frame: the last lines are shown.
pub fn log_start(lines: usize, height: u16) -> (r: usize)
    ensures
        r == less(lines as int, less(height as int, 2)),
{
    let rows: usize = if height < 2 {
        0
    } else {
        (height - 2) as usize
    };
    if lines < rows {
        0
    } else {
        lines - rows
    }
}

/// The hint at the bottom.
pub fn hint(editing: bool) -> (r: &'static str)
    ensures
        r@ == (if editing {
            "EDIT  Enter=commit  Esc=cancel  Backspace=delete"@
        } else {
            "↑/↓ select | Tab cycle Motors→Commands→Params | Enter switch/run/edit | p auto-poll | q quit"@
        }),
{
    if editing {
        "EDIT  Enter=commit  Esc=cancel  Backspace=delete"
    } else {
        "↑/↓ select | Tab cycle Motors→Commands→Params | Enter switch/run/edit | p auto-poll | q quit"
    }
}

/// The title names the driver, the interface, the motor, its mode and whether it is
/// enabled, in this order, and modes and drivers by their own names.
pub proof fn law_title_names_the_motor(
    kind: DriverKind,
    interface: Seq<char>,
    motor_id: u8,
    mode: Option<RunMode>,
    enabled: bool,
)
    ensures
        title_text(kind, interface, motor_id, mode, enabled) == " misa-actuator-tui — driver="@
            + kind_text(kind) + " iface="@ + interface + " id="@ + text::dec(motor_id as nat)
            + "  mode="@ + run_mode_text(mode) + "  enabled="@ + (if enabled {
            "YES"@
        } else {
            "no"@
        }) + " "@,
        kind_text(kind) == (if kind is Robstride {
            "Robstride"@
        } else if kind is Lkmotor {
            "Lkmotor"@
        } else {
            "Damiao"@
        }),
        mode is None ==> run_mode_text(mode) == "?"@,
        mode == Some(RunMode::Mit) ==> run_mode_text(mode) == "Mit"@,
        mode == Some(RunMode::Position) ==> run_mode_text(mode) == "Position"@,
        mode == Some(RunMode::Velocity) ==> run_mode_text(mode) == "Velocity"@,
        mode == Some(RunMode::Torque) ==> run_mode_text(mode) == "Torque"@,
{
}

/// Each measured value is shown after its own name and before its own unit.
pub proof fn law_live_values_under_their_names(v: LiveValues)
    ensures
        ({
            let lines = live_lines(Some(v));
            &&& lines.len() == 2
            &&& lines[0][0].text == "pos="@ && lines[0][1].text == v.position@ + " rad"@
            &&& lines[0][2].text == "  vel="@ && lines[0][3].text == v.velocity@ + " rad/s"@
            &&& lines[1][0].text == "τ="@ && lines[1][1].text == v.torque@ + " Nm"@
            &&& lines[1][2].text == "  iq="@ && lines[1][3].text == v.current@ + " A"@
            &&& lines[1][4].text == "  T="@ + v.temperature@ + "°C"@
            &&& lines[1][5].text == "  ("@ + text::dec(v.age_ms as nat) + " ms ago)"@
        }),
{
    reveal_strlit("");
    assert(""@ + v.position@ =~= v.position@);
    assert(""@ + v.velocity@ =~= v.velocity@);
    assert(""@ + v.torque@ =~= v.torque@);
    assert(""@ + v.current@ =~= v.current@);
}

/// The warning sign is shown if and only if a common flag is set.
pub proof fn law_warning_shows_a_fault(s: LiveStatus)
    ensures
        status_lines(None).len() == 0,
        status_lines(Some(s)).len() == 1,
        status_lines(Some(s))[0][0].text == "Vbus="@ + s.voltage@ + " V  raw_err=0x"@ + text::hex(
            s.error.raw_bits() as nat,
            8,
        ) + (if s.error.common_bits() == 0 {
            ""@
        } else {
            "  ⚠"@
        }),
{
}

/// The active motor alone has the filled mark, whatever its place; every motor is named
/// by its id. The cursor is on the selected motor, while the motors are in focus.
pub proof fn law_marks_of_the_motors(v: app::AppView, i: int)
    requires
        0 <= i < v.motors.len(),
    ensures
        motor_piece(v, i).text[0] == (if v.motors[i] == v.motor_id {
            '●'
        } else {
            '○'
        }),
        v.motors[i] != v.motor_id ==> motor_piece(v, i).text.skip(5) == text::dec(
            v.motors[i] as nat,
        ),
        v.motors[i] == v.motor_id ==> motor_piece(v, i).text.skip(5) == text::left_aligned(
            text::dec(v.motors[i] as nat),
            3,
        ) + " (active)"@,
        motor_piece(v, i).tone is Cursor <==> v.focus == Focus::Motors && i == v.selected_motor,
        motor_piece(v, i).tone is Cursor || motor_piece(v, i).tone is Plain,
{
    reveal_strlit("● id=");
    reveal_strlit("○ id=");
    if v.motors[i] != v.motor_id {
        assert(motor_piece(v, i).text.skip(5) =~= text::dec(v.motors[i] as nat));
    } else {
        assert(motor_piece(v, i).text.skip(5) =~= text::left_aligned(
            text::dec(v.motors[i] as nat),
            3,
        ) + " (active)"@);
    }
}

/// Commands are shown in the order of the list, the selected one under the cursor.
pub proof fn law_marks_of_the_commands(v: app::AppView, i: int)
    requires
        0 <= i < Command::COUNT,
    ensures
        command_piece(v, i).text == commands::all_commands()[i].label_text(),
        command_piece(v, i).tone is Cursor <==> i == v.selected_cmd,
        command_piece(v, i).tone is Cursor || command_piece(v, i).tone is Plain,
{
}

/// A parameter is shown with its name and its value, but the one that is edited with
/// what was typed so far and a cursor behind it.
pub proof fn law_parameters_are_shown(v: app::AppView, i: int)
    requires
        0 <= i < v.current_params().len(),
        v.current_params()[i].name.len() <= 10,
    ensures
        ({
            let p = v.current_params()[i];
            let line = param_line(v, i);
            let edited = v.focus == Focus::Params && i == v.selected_param && v.editing;
            &&& line[0].text.subrange(2, 2 + p.name.len() as int) == p.name
            &&& !edited ==> p.value.is_prefix_of(line[1].text)
            &&& edited ==> v.edit_buf.push('_').is_prefix_of(line[1].text)
            &&& line[0].text.len() == 15
            &&& !edited ==> line[1].text.len() == (if p.value.len() < 14 {
                14
            } else {
                p.value.len()
            })
            &&& line[2].text == "  "@ + p.desc
            &&& line[1].tone is CursorValue <==> v.focus == Focus::Params && i == v.selected_param
            &&& line[0].tone is Field <==> v.focus == Focus::Params && i == v.selected_param
        }),
{
    reveal_strlit("  ");
    reveal_strlit("_");
    reveal_strlit(" = ");
    reveal_strlit("");
    let p = v.current_params()[i];
    let line = param_line(v, i);
    assert(line[0].text.subrange(2, 2 + p.name.len() as int) =~= p.name);
    assert("  "@ + p.desc + ""@ =~= "  "@ + p.desc);
    assert(v.edit_buf + "_"@ =~= v.edit_buf.push('_'));
    assert(p.value.is_prefix_of(text::left_aligned(p.value, 14)));
    assert((v.edit_buf + "_"@).is_prefix_of(text::left_aligned(v.edit_buf + "_"@, 14)));
}

/// One line is shown for each parameter, in order; a note where there is none, and
/// another below while a value is edited.
pub proof fn law_lines_of_the_parameters(v: app::AppView, i: int)
    ensures
        v.current_params().len() == 0 ==> params_view(v).len() == 1,
        v.current_params().len() > 0 ==> params_view(v).len() == v.current_params().len() + (
        if v.editing {
            2int
        } else {
            0
        }),
        0 <= i < v.current_params().len() ==> params_view(v)[i] == param_line(v, i),
        v.current_params().len() > 0 && v.editing ==> params_view(v).last()[0].tone is Notice,
        v.current_params().len() == 0 ==> params_view(v)[0][0].tone is Dim,
{
}

/// The log shows its last lines: as many as fit between the borders, or all.
pub proof fn law_log_shows_the_end(lines: nat, height: u16)
    ensures
        ({
            let start = less(lines as int, less(height as int, 2));
            &&& 0 <= start <= lines
            &&& height >= 2 && lines >= height - 2 ==> lines - start == height - 2
            &&& lines <= height - 2 ==> start == 0
        }),
{
}

/// The dialog is 60 by 9 where the screen has room for that and a margin, and otherwise
/// all of the screen but the margin.
pub proof fn law_size_of_the_dialog(width: u16, height: u16)
    ensures
        width >= 64 ==> dialog_width(width) == 60,
        4 <= width < 64 ==> dialog_width(width) == width - 4,
        width < 4 ==> dialog_width(width) == 0,
        height >= 11 ==> dialog_height(height) == 9,
        2 <= height < 11 ==> dialog_height(height) == height - 2,
        height < 2 ==> dialog_height(height) == 0,
{
}

/// The dialog tells the range, the id that is probed, the time, how many motors were
/// found, and how many ids of how many were probed.
pub proof fn law_dialog_tells_the_scan(s: app::ScanView, elapsed: Seq<char>)
    requires
        s.wf(),
    ensures
        dialog_range(s, elapsed) == "Range: "@ + text::dec(s.from as nat) + "..="@ + text::dec(
            s.to as nat,
        ) + "   Probing id="@ + text::dec(s.next_id() as nat) + "   Elapsed: "@ + elapsed + "s"@,
        dialog_found(s) == "Found so far: "@ + text::dec(s.found.len()) + "   Probed: "@
            + text::dec((s.current - s.from) as nat) + "/"@ + text::dec(
            (s.to - s.from + 1) as nat,
        ),
{
}

} // verus!
