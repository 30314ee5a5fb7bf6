//! State of the terminal tool: what keys, ticks and finished work do to it.
//!
//! The actuator, the clock and the screen are not held here. Whoever owns them
//! hands in keys and times, carries out the [`Effect`]s and [`TickAction`]s that
//! come back, and reports how they went.
use crate::ids;
use crate::text;
use crate::tui::commands;
use crate::tui::commands::{params_for, scan_range, Command, Dispatch, ParamField};
use vstd::prelude::*;
use vstd::string::*;

verus! {

/// How many lines the log keeps.
pub const LOG_MAX: usize = 256;

/// The pane that keys act on.
#[derive(Debug, Clone, Copy, PartialEq, Eq, Structural)]
pub enum Focus {
    Motors,
    Commands,
    Params,
}

/// A key of the keyboard.
#[derive(Debug, Clone, Copy, PartialEq, Eq, Structural)]
pub enum Key {
    Char(char),
    Esc,
    Enter,
    Tab,
    Up,
    Down,
    Backspace,
    Other,
}

/// What is left to do after a key.
#[derive(Debug, Clone, Copy, PartialEq, Eq, Structural)]
pub enum Effect {
    Nothing,
    /// Open the driver for this motor, then report to [`App::switched`].
    SwitchTo(u8),
    /// Carry out the selected command, then report to [`App::finished`].
    Run(Command),
}

/// What is left to do after a tick.
#[derive(Debug, Clone, Copy, PartialEq, Eq, Structural)]
pub enum TickAction {
    Nothing,
    /// Probe this id, then report to [`App::probed`].
    Probe { id: u8, timeout_ms: u64 },
    /// Measure, then report to [`App::polled`].
    Poll,
}

/// A bus scan under way: one id per tick.
#[derive(Debug)]
pub struct ScanInProgress {
    from: u8,
    to: u8,
    /// The next id, which is past the last one once all were probed.
    current: u16,
    found: Vec<u8>,
    timeout_ms: u64,
    cancelled: bool,
}

/// A scan by its values.
pub struct ScanView {
    pub from: u8,
    pub to: u8,
    pub current: u16,
    pub found: Seq<u8>,
    pub timeout_ms: u64,
    pub cancelled: bool,
}

impl View for ScanInProgress {
    type V = ScanView;

    closed spec fn view(&self) -> ScanView {
        ScanView {
            from: self.from,
            to: self.to,
            current: self.current,
            found: self.found@,
            timeout_ms: self.timeout_ms,
            cancelled: self.cancelled,
        }
    }
}

impl ScanView {
    /// Whether the scan is one that can be under way.
    pub open spec fn wf(self) -> bool {
        &&& 1 <= self.from <= self.to
        &&& self.from <= self.current
        &&& self.current <= self.to + 1
        &&& forall|i: int|
            0 <= i < self.found.len() ==> self.from <= #[trigger] self.found[i] <= self.to
    }

    /// How many ids there are to probe.
    pub open spec fn total(self) -> int {
        self.to + 1 - self.from
    }

    /// How many were probed.
    pub open spec fn done(self) -> int {
        self.current - self.from
    }

    /// Whether nothing is left to probe.
    pub open spec fn complete(self) -> bool {
        self.cancelled || self.current > self.to
    }

    /// The id that is probed: the next one, or the last where there is none.
    pub open spec fn next_id(self) -> int {
        if self.current < self.to {
            self.current as int
        } else {
            self.to as int
        }
    }

    /// The scan after its next id was handed out.
    pub open spec fn advanced(self) -> ScanView {
        ScanView { current: (self.current + 1) as u16, ..self }
    }

    /// The scan after an answer to the probe of `id`.
    pub open spec fn heard(self, id: u8, answered: bool) -> ScanView {
        if answered {
            ScanView { found: self.found.push(id), ..self }
        } else {
            self
        }
    }
}

impl ScanInProgress {
    pub fn from(&self) -> (r: u8)
        ensures
            r == self@.from,
    {
        self.from
    }

    pub fn to(&self) -> (r: u8)
        ensures
            r == self@.to,
    {
        self.to
    }

    /// The id that is probed: the next one, or the last where there is none.
    pub fn probing(&self) -> (r: u8)
        ensures
            r == self@.next_id(),
    {
        if self.current < self.to as u16 {
            self.current as u8
        } else {
            self.to
        }
    }

    pub fn found_count(&self) -> (r: usize)
        ensures
            r == self@.found.len(),
    {
        self.found.len()
    }

    pub fn is_cancelled(&self) -> (r: bool)
        ensures
            r == self@.cancelled,
    {
        self.cancelled
    }

    /// How many ids there are to probe.
    pub fn total(&self) -> (r: u32)
        requires
            self@.wf(),
        ensures
            r == self@.total(),
    {
        self.to as u32 + 1 - self.from as u32
    }

    /// How many were probed.
    pub fn done_count(&self) -> (r: u32)
        requires
            self@.wf(),
        ensures
            r == self@.done(),
    {
        self.current as u32 - self.from as u32
    }

    /// Whether nothing is left to probe.
    pub fn is_complete(&self) -> (r: bool)
        ensures
            r == self@.complete(),
    {
        self.cancelled || self.current > self.to as u16
    }
}

/// State of the tool.
pub struct App {
    motor_id: u8,
    discovered_motors: Vec<u8>,
    selected_motor_idx: usize,
    selected_cmd: usize,
    params_by_cmd: Vec<Vec<ParamField>>,
    selected_param: usize,
    editing_param: bool,
    edit_buf: String,
    focus: Focus,
    log: Vec<String>,
    log_scroll: u16,
    quit: bool,
    auto_poll_enabled: bool,
    scan_state: Option<ScanInProgress>,
}

/// State of the tool by its values.
pub struct AppView {
    /// The active motor.
    pub motor_id: u8,
    /// The motors that are listed.
    pub motors: Seq<u8>,
    pub selected_motor: int,
    pub selected_cmd: int,
    /// The parameters of every command, in the order of the list.
    pub params: Seq<Seq<commands::FieldView>>,
    pub selected_param: int,
    pub editing: bool,
    pub edit_buf: Seq<char>,
    pub focus: Focus,
    pub log: Seq<Seq<char>>,
    pub log_scroll: int,
    pub quit: bool,
    pub auto_poll: bool,
    pub scan: Option<ScanView>,
}

/// The parameters of every command by their texts.
pub open spec fn all_fields(params: Seq<Vec<ParamField>>) -> Seq<Seq<commands::FieldView>> {
    params.map_values(|p: Vec<ParamField>| commands::fields(p@))
}

impl View for App {
    type V = AppView;

    closed spec fn view(&self) -> AppView {
        AppView {
            motor_id: self.motor_id,
            motors: self.discovered_motors@,
            selected_motor: self.selected_motor_idx as int,
            selected_cmd: self.selected_cmd as int,
            params: all_fields(self.params_by_cmd@),
            selected_param: self.selected_param as int,
            editing: self.editing_param,
            edit_buf: self.edit_buf@,
            focus: self.focus,
            log: text::texts(self.log@),
            log_scroll: self.log_scroll as int,
            quit: self.quit,
            auto_poll: self.auto_poll_enabled,
            scan: match self.scan_state {
                Some(s) => Some(s@),
                None => None,
            },
        }
    }
}

/// That some parameters are those of a command, with whatever values.
pub open spec fn are_params_of(cmd: Command, params: Seq<commands::FieldView>) -> bool {
    &&& params.len() == commands::fields_for(cmd).len()
    &&& forall|i: int|
        0 <= i < params.len() ==> (#[trigger] params[i]).name == commands::fields_for(cmd)[i].name
}

impl AppView {
    /// What holds at all times: the active motor is listed, every selection is on
    /// something that is there, every command has its parameters, and the log is
    /// not empty and never too long.
    pub open spec fn wf(self) -> bool {
        &&& self.motors.contains(self.motor_id)
        &&& 0 <= self.selected_motor < self.motors.len()
        &&& 0 <= self.selected_cmd < Command::COUNT
        &&& self.params.len() == Command::COUNT
        &&& forall|c: int|
            0 <= c < Command::COUNT ==> are_params_of(
                commands::all_commands()[c],
                #[trigger] self.params[c],
            )
        &&& 0 <= self.selected_param
        &&& self.selected_param == 0 || self.selected_param < self.params[self.selected_cmd].len()
        &&& 0 < self.log.len() <= LOG_MAX
        &&& self.log_scroll == self.log.len() - 1
        &&& self.scan matches Some(s) ==> s.wf()
    }

    /// The selected command.
    pub open spec fn command(self) -> Command {
        commands::all_commands()[self.selected_cmd]
    }

    /// The parameters of the selected command.
    pub open spec fn current_params(self) -> Seq<commands::FieldView> {
        self.params[self.selected_cmd]
    }
}

/// A time of day, `hh:mm:ss`, from seconds.
pub open spec fn clock_text(secs: nat) -> Seq<char> {
    text::dec_padded(secs / 3600 % 24, 2) + ":"@ + text::dec_padded(secs / 60 % 60, 2) + ":"@
        + text::dec_padded(secs % 60, 2)
}

/// A log with one more line, the oldest dropped where there are too many.
pub open spec fn log_with(log: Seq<Seq<char>>, line: Seq<char>) -> Seq<Seq<char>> {
    if log.len() >= LOG_MAX {
        log.push(line).skip(1)
    } else {
        log.push(line)
    }
}

/// The tool after logging `msg` at time `now`.
pub open spec fn with_line(v: AppView, now: nat, msg: Seq<char>) -> AppView {
    let log = log_with(v.log, "["@ + clock_text(now) + "] "@ + msg);
    AppView { log, log_scroll: log.len() - 1, ..v }
}

/// The tool after logging several lines.
pub open spec fn with_lines(v: AppView, now: nat, msgs: Seq<Seq<char>>) -> AppView
    decreases msgs.len(),
{
    if msgs.len() == 0 {
        v
    } else {
        with_line(with_lines(v, now, msgs.drop_last()), now, msgs.last())
    }
}

/// The first line of the log.
pub open spec fn welcome() -> Seq<char> {
    "misa-actuator-tui started — Tab cycles focus, Enter runs/edits/switches, q quits"@
}

/// The tool as it starts.
pub open spec fn started(motor_id: u8) -> AppView {
    AppView {
        motor_id,
        motors: seq![motor_id],
        selected_motor: 0,
        selected_cmd: 0,
        params: commands::all_commands().map_values(|c: Command| commands::fields_for(c)),
        selected_param: 0,
        editing: false,
        edit_buf: Seq::empty(),
        focus: Focus::Commands,
        log: seq![welcome()],
        log_scroll: 0,
        quit: false,
        auto_poll: false,
        scan: None,
    }
}

/// The tool after the command selection moved: the parameter selection starts
/// over where it would point nowhere, and no edit is under way.
pub open spec fn command_changed(v: AppView) -> AppView {
    AppView {
        selected_param: if v.selected_param >= v.current_params().len() {
            0
        } else {
            v.selected_param
        },
        editing: false,
        edit_buf: Seq::empty(),
        ..v
    }
}

/// The tool after a step up (`delta` -1) or down (1): selections go round.
pub open spec fn moved(v: AppView, delta: int) -> AppView {
    match v.focus {
        Focus::Motors => AppView {
            selected_motor: (v.selected_motor + delta) % (v.motors.len() as int),
            ..v
        },
        Focus::Commands => command_changed(
            AppView { selected_cmd: (v.selected_cmd + delta) % (Command::COUNT as int), ..v },
        ),
        Focus::Params => if v.current_params().len() == 0 {
            v
        } else {
            AppView {
                selected_param: (v.selected_param + delta) % (v.current_params().len() as int),
                ..v
            }
        },
    }
}

/// The tool after a scan was asked for.
pub open spec fn scan_started(v: AppView, now: nat) -> AppView {
    if v.scan is Some {
        with_line(v, now, "Scan already in progress"@)
    } else {
        let lo = commands::scan_lo(v.params[0]);
        let hi = commands::scan_hi(v.params[0]);
        let timeout = commands::scan_timeout(v.params[0]);
        AppView {
            scan: Some(
                ScanView {
                    from: lo as u8,
                    to: hi as u8,
                    current: lo as u16,
                    found: Seq::empty(),
                    timeout_ms: timeout as u64,
                    cancelled: false,
                },
            ),
            ..with_line(
                v,
                now,
                "Scanning "@ + text::dec(lo) + "..="@ + text::dec(hi) + " (timeout "@ + text::dec(
                    timeout,
                ) + " ms/id)…  Esc to cancel"@,
            )
        }
    }
}

/// The tool after Enter, and what is left to do.
pub open spec fn activated(v: AppView, now: nat) -> (AppView, Effect) {
    match v.focus {
        Focus::Motors => {
            let id = v.motors[v.selected_motor];
            if id == v.motor_id {
                (
                    with_line(v, now, "motor "@ + text::dec(id as nat) + " already active"@),
                    Effect::Nothing,
                )
            } else {
                (v, Effect::SwitchTo(id))
            }
        },
        Focus::Commands => if v.command() == Command::Scan {
            (scan_started(v, now), Effect::Nothing)
        } else {
            (v, Effect::Run(v.command()))
        },
        Focus::Params => if v.selected_param < v.current_params().len() {
            (
                AppView {
                    editing: true,
                    edit_buf: v.current_params()[v.selected_param].value,
                    ..v
                },
                Effect::Nothing,
            )
        } else {
            (v, Effect::Nothing)
        },
    }
}

/// The tool after an edit was ended.
pub open spec fn edit_ended(v: AppView) -> AppView {
    AppView { editing: false, edit_buf: Seq::empty(), ..v }
}

/// The parameters after an edit was committed.
pub open spec fn committed(v: AppView) -> Seq<Seq<commands::FieldView>> {
    let params = v.current_params();
    if v.selected_param < params.len() {
        v.params.update(
            v.selected_cmd,
            params.update(
                v.selected_param,
                commands::FieldView { value: v.edit_buf, ..params[v.selected_param] },
            ),
        )
    } else {
        v.params
    }
}

/// The tool after a key during an edit.
pub open spec fn edit_keyed(v: AppView, key: Key) -> AppView {
    match key {
        Key::Esc => edit_ended(v),
        Key::Enter => edit_ended(AppView { params: committed(v), ..v }),
        Key::Backspace => AppView {
            edit_buf: if v.edit_buf.len() == 0 {
                v.edit_buf
            } else {
                v.edit_buf.drop_last()
            },
            ..v
        },
        Key::Char(c) => AppView { edit_buf: v.edit_buf.push(c), ..v },
        _ => v,
    }
}

/// The pane after this one.
pub open spec fn next_focus(f: Focus) -> Focus {
    match f {
        Focus::Motors => Focus::Commands,
        Focus::Commands => Focus::Params,
        Focus::Params => Focus::Motors,
    }
}

/// The tool after a key, and what is left to do. Ctrl-C always quits. During a
/// scan nothing but Esc counts; during an edit the key edits.
pub open spec fn keyed(v: AppView, key: Key, ctrl: bool, now: nat) -> (AppView, Effect) {
    if ctrl && key == Key::Char('c') {
        (AppView { quit: true, ..v }, Effect::Nothing)
    } else if let Some(scan) = v.scan {
        if key == Key::Esc {
            (
                AppView { scan: Some(ScanView { cancelled: true, ..scan }), ..v },
                Effect::Nothing,
            )
        } else {
            (v, Effect::Nothing)
        }
    } else if v.editing {
        (edit_keyed(v, key), Effect::Nothing)
    } else {
        match key {
            Key::Esc => (AppView { quit: true, ..v }, Effect::Nothing),
            Key::Tab => (AppView { focus: next_focus(v.focus), ..v }, Effect::Nothing),
            Key::Up => (moved(v, -1), Effect::Nothing),
            Key::Down => (moved(v, 1), Effect::Nothing),
            Key::Enter => activated(v, now),
            Key::Char(c) => if c == 'q' {
                (AppView { quit: true, ..v }, Effect::Nothing)
            } else if c == 'p' {
                (
                    with_line(
                        AppView { auto_poll: !v.auto_poll, ..v },
                        now,
                        if v.auto_poll {
                            "auto-poll OFF"@
                        } else {
                            "auto-poll ON"@
                        },
                    ),
                    Effect::Nothing,
                )
            } else {
                (v, Effect::Nothing)
            },
            _ => (v, Effect::Nothing),
        }
    }
}

/// Where `id` stands first in `ids`.
pub open spec fn first_index(ids: Seq<u8>, id: u8) -> int
    decreases ids.len(),
{
    if ids.len() == 0 || ids[0] == id {
        0
    } else {
        1 + first_index(ids.skip(1), id)
    }
}

/// The motors that are listed after a scan: those found, the active one before
/// them where it was not among them.
pub open spec fn listed(found: Seq<u8>, active: u8) -> Seq<u8> {
    if found.contains(active) {
        found
    } else {
        seq![active] + found
    }
}

/// The log line of a listed motor.
pub open spec fn listed_line(id: u8, active: u8) -> Seq<char> {
    "  id="@ + text::dec(id as nat) + (if id == active {
        "  (active)"@
    } else {
        ""@
    })
}

/// The tool after a scan ended. `elapsed` is how long it took, in seconds.
pub open spec fn scan_ended(v: AppView, scan: ScanView, now: nat, elapsed: Seq<char>) -> AppView {
    let idle = AppView { scan: None, ..v };
    if scan.cancelled {
        with_line(
            idle,
            now,
            "Scan cancelled after "@ + text::dec(scan.done() as nat) + " of "@ + text::dec(
                scan.total() as nat,
            ) + " probes ("@ + elapsed + " s)"@,
        )
    } else {
        let motors = listed(scan.found, v.motor_id);
        let shown = with_line(
            AppView { motors, selected_motor: first_index(motors, v.motor_id), ..idle },
            now,
            "Scan complete: "@ + text::dec(motors.len()) + " motor(s) in "@ + elapsed + " s"@,
        );
        AppView {
            focus: Focus::Motors,
            ..with_line(
                with_lines(shown, now, motors.map_values(|id: u8| listed_line(id, v.motor_id))),
                now,
                "Tab → Motors → ↑/↓ → Enter to switch"@,
            )
        }
    }
}

/// The line that ends a cancelled scan.
fn cancelled_line(scan: &ScanInProgress, elapsed: &str) -> (line: String)
    requires
        scan@.wf(),
    ensures
        line@ == "Scan cancelled after "@ + text::dec(scan@.done() as nat) + " of "@ + text::dec(
            scan@.total() as nat,
        ) + " probes ("@ + elapsed@ + " s)"@,
{
    let mut line: String = String::new();
    line.append("Scan cancelled after ");
    text::push_dec(&mut line, scan.done_count() as u64);
    line.append(" of ");
    text::push_dec(&mut line, scan.total() as u64);
    line.append(" probes (");
    line.append(elapsed);
    line.append(" s)");
    assert(line@ =~= "Scan cancelled after "@ + text::dec(scan@.done() as nat) + " of "@
        + text::dec(scan@.total() as nat) + " probes ("@ + elapsed@ + " s)"@);
    line
}

/// The line that ends a complete scan.
fn complete_line(count: usize, elapsed: &str) -> (line: String)
    ensures
        line@ == "Scan complete: "@ + text::dec(count as nat) + " motor(s) in "@ + elapsed@
            + " s"@,
{
    let mut line: String = String::new();
    line.append("Scan complete: ");
    text::push_dec(&mut line, count as u64);
    line.append(" motor(s) in ");
    line.append(elapsed);
    line.append(" s");
    assert(line@ =~= "Scan complete: "@ + text::dec(count as nat) + " motor(s) in "@ + elapsed@
        + " s"@);
    line
}

/// The lines that list motors.
fn listing(motors: &Vec<u8>, current: u8) -> (lines: Vec<String>)
    ensures
        text::texts(lines@) == motors@.map_values(|id: u8| listed_line(id, current)),
{
    let mut lines: Vec<String> = Vec::new();
    let mut i: usize = 0;
    let ghost wanted = motors@.map_values(|id: u8| listed_line(id, current));
    while i < motors.len()
        invariant
            i <= motors.len(),
            wanted == motors@.map_values(|id: u8| listed_line(id, current)),
            lines.len() == i,
            text::texts(lines@) == wanted.take(i as int),
        decreases motors.len() - i,
    {
        let id: u8 = motors[i];
        let mut line: String = String::new();
        line.append("  id=");
        text::push_dec(&mut line, id as u64);
        if id == current {
            line.append("  (active)");
        } else {
            line.append("");
        }
        assert(line@ =~= listed_line(id, current));
        let ghost before = lines@;
        lines.push(line);
        assert(text::texts(lines@) =~= text::texts(before).push(line@));
        assert(text::texts(lines@) =~= wanted.take(i + 1));
        i = i + 1;
    }
    assert(wanted.take(i as int) =~= wanted);
    lines
}

/// The tool after a tick, and what is left to do: the next probe of a scan, or
/// its end; a measurement, where polling is on and due.
pub open spec fn ticked(v: AppView, now: nat, elapsed: Seq<char>, poll_due: bool) -> (
    AppView,
    TickAction,
) {
    match v.scan {
        Some(scan) => if scan.complete() {
            (scan_ended(v, scan, now, elapsed), TickAction::Nothing)
        } else {
            (
                AppView { scan: Some(scan.advanced()), ..v },
                TickAction::Probe { id: scan.current as u8, timeout_ms: scan.timeout_ms },
            )
        },
        None => if v.auto_poll && poll_due {
            (v, TickAction::Poll)
        } else {
            (v, TickAction::Nothing)
        },
    }
}

/// Whatever was typed, a scan starts out sound.
proof fn lemma_scan_started_wf(v: AppView, now: nat)
    requires
        v.wf(),
    ensures
        scan_started(v, now).wf(),
{
    commands::law_scan_range_is_sound(v.params[0]);
}

/// Logging keeps what holds at all times.
proof fn lemma_with_lines_wf(v: AppView, now: nat, msgs: Seq<Seq<char>>)
    requires
        v.wf(),
    ensures
        with_lines(v, now, msgs).wf(),
        with_lines(v, now, msgs).motors == v.motors,
        with_lines(v, now, msgs).motor_id == v.motor_id,
    decreases msgs.len(),
{
    if msgs.len() > 0 {
        lemma_with_lines_wf(v, now, msgs.drop_last());
    }
}

/// A motor that is listed is found where the search says.
proof fn lemma_first_index(ids: Seq<u8>, id: u8)
    requires
        ids.contains(id),
    ensures
        0 <= first_index(ids, id) < ids.len(),
        ids[first_index(ids, id)] == id,
    decreases ids.len(),
{
    if ids[0] != id {
        let i = choose|i: int| 0 <= i < ids.len() && ids[i] == id;
        assert(ids.skip(1)[i - 1] == id);
        lemma_first_index(ids.skip(1), id);
    }
}

/// The end of a scan keeps what holds at all times.
proof fn lemma_scan_ended_wf(v: AppView, scan: ScanView, now: nat, elapsed: Seq<char>)
    requires
        v.wf(),
    ensures
        scan_ended(v, scan, now, elapsed).wf(),
{
    if !scan.cancelled {
        let motors = listed(scan.found, v.motor_id);
        if !scan.found.contains(v.motor_id) {
            assert(motors[0] == v.motor_id);
        }
        lemma_first_index(motors, v.motor_id);
        let shown = with_line(
            AppView {
                motors,
                selected_motor: first_index(motors, v.motor_id),
                scan: None,
                ..v
            },
            now,
            "Scan complete: "@ + text::dec(motors.len()) + " motor(s) in "@ + elapsed + " s"@,
        );
        lemma_with_lines_wf(
            shown,
            now,
            motors.map_values(|id: u8| listed_line(id, v.motor_id)),
        );
    }
}

/// Whatever happens, the active motor stays listed, every selection points at
/// something, every command keeps its parameters and the log its bound.
pub proof fn law_keys_and_ticks_keep_the_invariant(
    v: AppView,
    key: Key,
    ctrl: bool,
    now: nat,
    elapsed: Seq<char>,
    poll_due: bool,
)
    requires
        v.wf(),
    ensures
        keyed(v, key, ctrl, now).0.wf(),
        ticked(v, now, elapsed, poll_due).0.wf(),
{
    lemma_scan_started_wf(v, now);
    lemma_moved_wf(v, -1);
    lemma_moved_wf(v, 1);
    if let Some(scan) = v.scan {
        lemma_scan_ended_wf(v, scan, now, elapsed);
    }
    let c = committed(v);
    assert forall|k: int| 0 <= k < Command::COUNT implies are_params_of(
        commands::all_commands()[k],
        #[trigger] c[k],
    ) by {
        assert(are_params_of(commands::all_commands()[k], v.params[k]));
    }
}

/// Moving a selection keeps what holds at all times.
proof fn lemma_moved_wf(v: AppView, delta: int)
    requires
        v.wf(),
        delta == 1 || delta == -1,
    ensures
        moved(v, delta).wf(),
{
    assert(0 <= (v.selected_cmd + delta) % (Command::COUNT as int) < Command::COUNT);
    assert(are_params_of(v.command(), v.params[v.selected_cmd]));
}

/// Going up undoes going down, and the other way round, in every pane: nothing
/// but the selection has changed.
pub proof fn law_up_undoes_down(v: AppView)
    requires
        v.wf(),
        v.focus != Focus::Commands,
    ensures
        moved(moved(v, 1), -1) == v,
        moved(moved(v, -1), 1) == v,
{
    match v.focus {
        Focus::Motors => {
            lemma_round_trip(v.selected_motor, v.motors.len() as int);
        },
        Focus::Params => {
            if v.current_params().len() > 0 {
                lemma_round_trip(v.selected_param, v.current_params().len() as int);
            }
        },
        Focus::Commands => {},
    }
}

/// In the list of commands, going up and down again comes back to the same
/// command.
pub proof fn law_up_undoes_down_for_commands(v: AppView)
    requires
        v.wf(),
        v.focus == Focus::Commands,
    ensures
        moved(moved(v, 1), -1).selected_cmd == v.selected_cmd,
        moved(moved(v, -1), 1).selected_cmd == v.selected_cmd,
{
    lemma_round_trip(v.selected_cmd, Command::COUNT as int);
}

/// One step round a circle and one back.
proof fn lemma_round_trip(i: int, n: int)
    requires
        0 <= i < n,
    ensures
        ((i + 1) % n - 1) % n == i,
        ((i - 1) % n + 1) % n == i,
        (i + 1) % n == (if i == n - 1 {
            0
        } else {
            i + 1
        }),
        (i - 1) % n == (if i == 0 {
            n - 1
        } else {
            i - 1
        }),
{
    if i + 1 == n {
        assert((i + 1) % n == 0) by (nonlinear_arith)
            requires
                i + 1 == n,
                n > 0,
        ;
        assert((-1int) % n == n - 1) by (nonlinear_arith)
            requires
                n > 0,
        ;
    } else {
        assert((i + 1) % n == i + 1) by (nonlinear_arith)
            requires
                0 <= i + 1 < n,
        ;
        assert(i % n == i) by (nonlinear_arith)
            requires
                0 <= i < n,
        ;
    }
    if i == 0 {
        assert((-1int) % n == n - 1) by (nonlinear_arith)
            requires
                n > 0,
        ;
        assert(n % n == 0) by (nonlinear_arith)
            requires
                n > 0,
        ;
    } else {
        assert((i - 1) % n == i - 1) by (nonlinear_arith)
            requires
                0 <= i - 1 < n,
        ;
        assert(i % n == i) by (nonlinear_arith)
            requires
                0 <= i < n,
        ;
    }
}

/// Tab goes through the three panes and comes back.
pub proof fn law_tab_cycles(f: Focus)
    ensures
        next_focus(next_focus(next_focus(f))) == f,
        next_focus(f) != f,
{
}

/// While a scan is under way no key starts anything: the only thing a key can do
/// is cancel the scan, or quit.
pub proof fn law_scan_blocks_keys(v: AppView, key: Key, ctrl: bool, now: nat)
    requires
        v.scan is Some,
    ensures
        keyed(v, key, ctrl, now).1 == Effect::Nothing,
        keyed(v, key, ctrl, now).0 == (AppView {
            quit: keyed(v, key, ctrl, now).0.quit,
            scan: keyed(v, key, ctrl, now).0.scan,
            ..v
        }),
        key != Key::Esc && !ctrl ==> keyed(v, key, ctrl, now).0 == v,
{
}

/// An edit that is cancelled leaves every parameter as it was.
pub proof fn law_cancelled_edit_changes_nothing(v: AppView)
    ensures
        edit_keyed(v, Key::Esc).params == v.params,
        !edit_keyed(v, Key::Esc).editing,
{
}

/// An edit that is committed gives the selected parameter the text that was
/// typed, and changes no other.
pub proof fn law_committed_edit_sets_the_value(v: AppView, c: int, i: int)
    requires
        v.wf(),
        v.selected_param < v.current_params().len(),
        0 <= c < Command::COUNT,
        0 <= i < v.params[c].len(),
    ensures
        ({
            let w = edit_keyed(v, Key::Enter);
            &&& w.current_params()[v.selected_param].value == v.edit_buf
            &&& c != v.selected_cmd || i != v.selected_param ==> w.params[c][i] == v.params[c][i]
        }),
{
}

/// The tool after `n` ticks without a key, where each probe is answered as
/// `answers` says. `at` gives what tick number `k` is told: the time, how long the
/// scan has taken, and whether a measurement is due.
pub open spec fn after_ticks(
    v: AppView,
    at: spec_fn(nat) -> (nat, Seq<char>, bool),
    answers: spec_fn(u8) -> bool,
    n: nat,
) -> AppView
    decreases n,
{
    if n == 0 {
        v
    } else {
        let k = (n - 1) as nat;
        let w = after_ticks(v, at, answers, k);
        let t = ticked(w, at(k).0, at(k).1, at(k).2);
        match (t.1, t.0.scan) {
            (TickAction::Probe { id, .. }, Some(s)) => AppView {
                scan: Some(s.heard(id, answers(id))),
                ..t.0
            },
            _ => t.0,
        }
    }
}

/// Those of the first `n` ids from `from` on that answer, in order.
pub open spec fn answering(from: u8, answers: spec_fn(u8) -> bool, n: nat) -> Seq<u8>
    decreases n,
{
    if n == 0 {
        Seq::empty()
    } else {
        let id = (from + n - 1) as u8;
        let before = answering(from, answers, (n - 1) as nat);
        if answers(id) {
            before.push(id)
        } else {
            before
        }
    }
}

/// A scan that was just started probes every id of its range once, in order, one
/// per tick, and nothing is measured meanwhile. The tick after the last probe
/// probes nothing and ends the scan, with the motors that answered.
pub proof fn law_scan_probes_each_id_once(
    v: AppView,
    scan: ScanView,
    at: spec_fn(nat) -> (nat, Seq<char>, bool),
    answers: spec_fn(u8) -> bool,
    n: nat,
)
    requires
        v.wf(),
        v.scan == Some(scan),
        scan.current == scan.from,
        scan.found.len() == 0,
        !scan.cancelled,
        n <= scan.total(),
    ensures
        ({
            let reached = ScanView {
                current: (scan.from + n) as u16,
                found: answering(scan.from, answers, n),
                ..scan
            };
            let w = after_ticks(v, at, answers, n);
            let t = ticked(w, at(n).0, at(n).1, at(n).2);
            &&& w == (AppView { scan: Some(reached), ..v })
            &&& if n < scan.total() {
                t.1 == (TickAction::Probe {
                    id: (scan.from + n) as u8,
                    timeout_ms: scan.timeout_ms,
                })
            } else {
                &&& t.1 == TickAction::Nothing
                &&& t.0 == scan_ended(w, reached, at(n).0, at(n).1)
            }
        }),
    decreases n,
{
    if n > 0 {
        law_scan_probes_each_id_once(v, scan, at, answers, (n - 1) as nat);
    } else {
        assert(scan.found =~= answering(scan.from, answers, 0));
    }
}

/// After a scan that was not cancelled, all motors that answered are listed, in
/// order, with the active one before them if it is not among them; it stays
/// selected.
pub proof fn law_scan_lists_what_it_found(
    v: AppView,
    scan: ScanView,
    now: nat,
    elapsed: Seq<char>,
    id: u8,
)
    requires
        v.wf(),
        !scan.cancelled,
    ensures
        ({
            let w = scan_ended(v, scan, now, elapsed);
            &&& w.motors == (if scan.found.contains(v.motor_id) {
                scan.found
            } else {
                seq![v.motor_id] + scan.found
            })
            &&& w.motors.contains(id) <==> scan.found.contains(id) || id == v.motor_id
            &&& w.motors[w.selected_motor] == v.motor_id
            &&& w.focus == Focus::Motors
        }),
{
    let motors = listed(scan.found, v.motor_id);
    if !scan.found.contains(v.motor_id) {
        assert(motors[0] == v.motor_id);
        if scan.found.contains(id) {
            let i = choose|i: int| 0 <= i < scan.found.len() && scan.found[i] == id;
            assert(motors[i + 1] == id);
        }
        if motors.contains(id) && id != v.motor_id {
            let i = choose|i: int| 0 <= i < motors.len() && motors[i] == id;
            assert(scan.found[i - 1] == id);
        }
    }
    lemma_first_index(motors, v.motor_id);
    let shown = with_line(
        AppView { motors, selected_motor: first_index(motors, v.motor_id), scan: None, ..v },
        now,
        "Scan complete: "@ + text::dec(motors.len()) + " motor(s) in "@ + elapsed + " s"@,
    );
    lemma_lines_keep_selection(
        shown,
        now,
        motors.map_values(|id: u8| listed_line(id, v.motor_id)),
    );
}

/// Logging moves no selection.
proof fn lemma_lines_keep_selection(v: AppView, now: nat, msgs: Seq<Seq<char>>)
    ensures
        with_lines(v, now, msgs).motors == v.motors,
        with_lines(v, now, msgs).selected_motor == v.selected_motor,
    decreases msgs.len(),
{
    if msgs.len() > 0 {
        lemma_lines_keep_selection(v, now, msgs.drop_last());
    }
}

/// A time of day, `hh:mm:ss`, from seconds since midnight of any day.
pub fn chrono_like_ts(secs: u64) -> (r: String)
    ensures
        r@ == clock_text(secs as nat),
{
    let mut out: String = String::new();
    text::push_dec_padded(&mut out, secs / 3600 % 24, 2);
    out.append(":");
    text::push_dec_padded(&mut out, secs / 60 % 60, 2);
    out.append(":");
    text::push_dec_padded(&mut out, secs % 60, 2);
    assert(out@ =~= clock_text(secs as nat));
    out
}

/// One step round a circle of `n`.
fn step(i: usize, down: bool, n: usize) -> (r: usize)
    requires
        i < n,
    ensures
        r == (i + (if down {
            1int
        } else {
            -1
        })) % (n as int),
{
    if down {
        if i + 1 == n {
            assert((n as int) % (n as int) == 0) by (nonlinear_arith)
                requires
                    n > 0,
            ;
            0
        } else {
            assert((i + 1) % (n as int) == i + 1) by (nonlinear_arith)
                requires
                    0 <= i + 1 < n,
            ;
            i + 1
        }
    } else {
        if i == 0 {
            assert((-1int) % (n as int) == n - 1) by (nonlinear_arith)
                requires
                    n > 0,
            ;
            n - 1
        } else {
            assert((i - 1) % (n as int) == i - 1) by (nonlinear_arith)
                requires
                    0 <= i - 1 < n,
            ;
            i - 1
        }
    }
}

impl App {
    /// The tool as it starts, with this motor active.
    pub fn new(motor_id: u8) -> (r: Self)
        ensures
            r@ == started(motor_id),
            r@.wf(),
    {
        let mut params: Vec<Vec<ParamField>> = Vec::new();
        let mut i: usize = 0;
        while i < Command::COUNT
            invariant
                i <= Command::COUNT,
                params.len() == i,
                forall|j: int|
                    0 <= j < i ==> commands::fields(#[trigger] params@[j]@) == commands::fields_for(
                        commands::all_commands()[j],
                    ),
            decreases Command::COUNT - i,
        {
            params.push(params_for(Command::at(i)));
            i = i + 1;
        }
        let mut motors: Vec<u8> = Vec::new();
        motors.push(motor_id);
        let mut log: Vec<String> = Vec::new();
        log.push(
            "misa-actuator-tui started — Tab cycles focus, Enter runs/edits/switches, q quits".to_owned(),
        );
        let r = App {
            motor_id,
            discovered_motors: motors,
            selected_motor_idx: 0,
            selected_cmd: 0,
            params_by_cmd: params,
            selected_param: 0,
            editing_param: false,
            edit_buf: String::new(),
            focus: Focus::Commands,
            log,
            log_scroll: 0,
            quit: false,
            auto_poll_enabled: false,
            scan_state: None,
        };
        proof {
            let v = r@;
            assert(v.motors =~= seq![motor_id]);
            assert(v.motors[0] == motor_id);
            assert(v.params =~= started(motor_id).params);
            assert(v.edit_buf =~= Seq::<char>::empty());
            assert(v.log =~= started(motor_id).log);
        }
        r
    }

    /// Whether the tool is done.
    pub fn is_quit(&self) -> (r: bool)
        ensures
            r == self@.quit,
    {
        self.quit
    }

    /// The active motor.
    pub fn motor_id(&self) -> (r: u8)
        ensures
            r == self@.motor_id,
    {
        self.motor_id
    }

    /// The motors that are listed.
    pub fn discovered_motors(&self) -> (r: &Vec<u8>)
        ensures
            r@ == self@.motors,
    {
        &self.discovered_motors
    }

    pub fn selected_motor(&self) -> (r: usize)
        ensures
            r == self@.selected_motor,
    {
        self.selected_motor_idx
    }

    pub fn selected_command(&self) -> (r: usize)
        ensures
            r == self@.selected_cmd,
    {
        self.selected_cmd
    }

    pub fn selected_param(&self) -> (r: usize)
        ensures
            r == self@.selected_param,
    {
        self.selected_param
    }

    pub fn is_editing(&self) -> (r: bool)
        ensures
            r == self@.editing,
    {
        self.editing_param
    }

    pub fn edit_text(&self) -> (r: &str)
        ensures
            r@ == self@.edit_buf,
    {
        self.edit_buf.as_str()
    }

    pub fn focus(&self) -> (r: Focus)
        ensures
            r == self@.focus,
    {
        self.focus
    }

    pub fn log(&self) -> (r: &Vec<String>)
        ensures
            text::texts(r@) == self@.log,
    {
        &self.log
    }

    pub fn is_auto_polling(&self) -> (r: bool)
        ensures
            r == self@.auto_poll,
    {
        self.auto_poll_enabled
    }

    /// The scan under way.
    pub fn scan(&self) -> (r: Option<&ScanInProgress>)
        ensures
            match r {
                Some(s) => self@.scan == Some(s@),
                None => self@.scan is None,
            },
    {
        match &self.scan_state {
            Some(s) => Some(s),
            None => None,
        }
    }

    /// The selected command.
    pub fn current_command(&self) -> (r: Command)
        requires
            self@.wf(),
        ensures
            r == self@.command(),
    {
        Command::at(self.selected_cmd)
    }

    /// The parameters of the selected command.
    pub fn current_params(&self) -> (r: &[ParamField])
        requires
            self@.wf(),
        ensures
            commands::fields(r@) == self@.current_params(),
    {
        self.params_by_cmd[self.selected_cmd].as_slice()
    }

    /// What follows a moved command selection.
    fn on_command_changed(&mut self)
        requires
            0 <= old(self)@.selected_cmd < old(self)@.params.len(),
        ensures
            final(self)@ == command_changed(old(self)@),
    {
        let len: usize = self.params_by_cmd[self.selected_cmd].len();
        if self.selected_param >= len {
            self.selected_param = 0;
        }
        self.editing_param = false;
        self.edit_buf = String::new();
        assert(self@.edit_buf =~= Seq::<char>::empty());
    }

    /// Logs a line.
    pub fn log_msg(&mut self, now: u64, msg: &str)
        requires
            old(self)@.wf(),
        ensures
            final(self)@ == with_line(old(self)@, now as nat, msg@),
            final(self)@.wf(),
    {
        let mut line: String = String::new();
        line.append("[");
        line.append(chrono_like_ts(now).as_str());
        line.append("] ");
        line.append(msg);
        let ghost text = "["@ + clock_text(now as nat) + "] "@ + msg@;
        assert(line@ =~= text);
        let ghost before = self.log@;
        self.log.push(line);
        assert(text::texts(self.log@) =~= text::texts(before).push(text));
        if self.log.len() > LOG_MAX {
            let ghost full = self.log@;
            let _ = self.log.remove(0);
            assert(text::texts(self.log@) =~= text::texts(full).skip(1));
        }
        self.log_scroll = (self.log.len() - 1) as u16;
        assert(self@.log =~= log_with(old(self)@.log, text));
    }

    /// Logs several lines.
    fn log_all(&mut self, now: u64, msgs: &Vec<String>)
        requires
            old(self)@.wf(),
        ensures
            final(self)@ == with_lines(old(self)@, now as nat, text::texts(msgs@)),
            final(self)@.wf(),
    {
        let ghost all = text::texts(msgs@);
        let mut i: usize = 0;
        assert(all.take(0) =~= Seq::<Seq<char>>::empty());
        while i < msgs.len()
            invariant
                i <= msgs.len(),
                all == text::texts(msgs@),
                self@ == with_lines(old(self)@, now as nat, all.take(i as int)),
                self@.wf(),
            decreases msgs.len() - i,
        {
            self.log_msg(now, msgs[i].as_str());
            assert(all.take(i + 1).drop_last() =~= all.take(i as int));
            i = i + 1;
        }
        assert(all.take(i as int) =~= all);
    }

    /// Handles a tick: `elapsed` is how long the scan under way has taken, in
    /// seconds; `poll_due` whether it is time to measure again.
    pub fn tick(&mut self, now: u64, elapsed: &str, poll_due: bool) -> (r: TickAction)
        requires
            old(self)@.wf(),
        ensures
            (final(self)@, r) == ticked(old(self)@, now as nat, elapsed@, poll_due),
            final(self)@.wf(),
    {
        proof {
            law_keys_and_ticks_keep_the_invariant(
                self@,
                Key::Other,
                false,
                now as nat,
                elapsed@,
                poll_due,
            );
        }
        match self.scan_state.take() {
            Some(scan) => {
                if scan.is_complete() {
                    self.finalize_scan(scan, now, elapsed);
                    TickAction::Nothing
                } else {
                    let id: u8 = scan.current as u8;
                    let timeout_ms: u64 = scan.timeout_ms;
                    let mut scan = scan;
                    scan.current = scan.current + 1;
                    self.scan_state = Some(scan);
                    TickAction::Probe { id, timeout_ms }
                }
            },
            None => {
                if self.auto_poll_enabled && poll_due {
                    TickAction::Poll
                } else {
                    TickAction::Nothing
                }
            },
        }
    }

    /// Takes the answer to a probe in.
    pub fn probed(&mut self, id: u8, answered: bool)
        requires
            old(self)@.wf(),
            old(self)@.scan matches Some(s) ==> s.from <= id <= s.to,
        ensures
            final(self)@ == probe_answered(old(self)@, id, answered),
            final(self)@.wf(),
    {
        if answered {
            match self.scan_state.take() {
                Some(scan) => {
                    let mut scan = scan;
                    scan.found.push(id);
                    self.scan_state = Some(scan);
                },
                None => {},
            }
        }
    }

    /// Takes the outcome of an automatic measurement in: a failure, with its
    /// message, ends the polling.
    pub fn polled(&mut self, now: u64, failure: Option<&str>)
        requires
            old(self)@.wf(),
        ensures
            final(self)@ == poll_answered(old(self)@, now as nat, failure),
            final(self)@.wf(),
    {
        if let Some(e) = failure {
            let mut line: String = String::new();
            line.append("auto-poll failed: ");
            line.append(e);
            assert(line@ =~= "auto-poll failed: "@ + e@);
            self.log_msg(now, line.as_str());
            self.auto_poll_enabled = false;
        }
    }

    /// Ends a scan.
    fn finalize_scan(&mut self, scan: ScanInProgress, now: u64, elapsed: &str)
        requires
            old(self)@.wf(),
            old(self)@.scan is None,
            scan@.wf(),
        ensures
            final(self)@ == scan_ended(old(self)@, scan@, now as nat, elapsed@),
            final(self)@.wf(),
    {
        let ghost v = self@;
        let current: u8 = self.motor_id;
        if scan.cancelled {
            let line = cancelled_line(&scan, elapsed);
            self.log_msg(now, line.as_str());
            return;
        }
        let mut found: Vec<u8> = scan.found;
        if !ids::contains(&found, current) {
            found.insert(0, current);
            assert(found@ =~= seq![current] + scan@.found);
        }
        let ghost motors = listed(scan@.found, current);
        assert(found@ == motors);
        proof {
            if !scan@.found.contains(current) {
                assert(motors[0] == current);
            }
            lemma_first_index(motors, current);
        }
        let place: usize = position(&found, current);
        let lines = listing(&found, current);
        let line = complete_line(found.len(), elapsed);
        self.discovered_motors = found;
        self.selected_motor_idx = place;
        let ghost placed = AppView {
            motors,
            selected_motor: first_index(motors, current),
            scan: None,
            ..v
        };
        assert(self@ == placed);
        assert(self@.wf());
        self.log_msg(now, line.as_str());
        let ghost shown = with_line(
            placed,
            now as nat,
            "Scan complete: "@ + text::dec(motors.len()) + " motor(s) in "@ + elapsed@ + " s"@,
        );
        assert(self@ == shown);
        self.log_all(now, &lines);
        let ghost listed_all = with_lines(
            shown,
            now as nat,
            motors.map_values(|id: u8| listed_line(id, current)),
        );
        assert(self@ == listed_all);
        self.log_msg(now, "Tab → Motors → ↑/↓ → Enter to switch");
        let ghost hinted = with_line(
            listed_all,
            now as nat,
            "Tab → Motors → ↑/↓ → Enter to switch"@,
        );
        assert(self@ == hinted);
        self.focus = Focus::Motors;
        assert(self@ == (AppView { focus: Focus::Motors, ..hinted }));
    }

    /// Handles a key.
    pub fn handle_key(&mut self, key: Key, ctrl: bool, now: u64) -> (r: Effect)
        requires
            old(self)@.wf(),
        ensures
            (final(self)@, r) == keyed(old(self)@, key, ctrl, now as nat),
            final(self)@.wf(),
    {
        proof {
            law_keys_and_ticks_keep_the_invariant(
                self@,
                key,
                ctrl,
                now as nat,
                Seq::empty(),
                false,
            );
        }
        if ctrl && key == Key::Char('c') {
            self.quit = true;
            return Effect::Nothing;
        }
        if self.scan_state.is_some() {
            if key == Key::Esc {
                if let Some(scan) = self.scan_state.take() {
                    let mut scan = scan;
                    scan.cancelled = true;
                    self.scan_state = Some(scan);
                }
            }
            return Effect::Nothing;
        }
        if self.editing_param {
            self.handle_edit_key(key);
            return Effect::Nothing;
        }
        match key {
            Key::Esc => {
                self.quit = true;
                Effect::Nothing
            },
            Key::Tab => {
                self.focus = match self.focus {
                    Focus::Motors => Focus::Commands,
                    Focus::Commands => Focus::Params,
                    Focus::Params => Focus::Motors,
                };
                Effect::Nothing
            },
            Key::Up => {
                self.move_selection(false);
                Effect::Nothing
            },
            Key::Down => {
                self.move_selection(true);
                Effect::Nothing
            },
            Key::Enter => self.activate(now),
            Key::Char(c) => {
                if c == 'q' {
                    self.quit = true;
                } else if c == 'p' {
                    self.auto_poll_enabled = !self.auto_poll_enabled;
                    if self.auto_poll_enabled {
                        self.log_msg(now, "auto-poll ON");
                    } else {
                        self.log_msg(now, "auto-poll OFF");
                    }
                }
                Effect::Nothing
            },
            _ => Effect::Nothing,
        }
    }

    /// Handles a key during an edit.
    fn handle_edit_key(&mut self, key: Key)
        requires
            old(self)@.wf(),
        ensures
            final(self)@ == edit_keyed(old(self)@, key),
    {
        match key {
            Key::Esc => {
                self.editing_param = false;
                self.edit_buf = String::new();
                assert(self@.edit_buf =~= Seq::<char>::empty());
            },
            Key::Enter => {
                let cmd: usize = self.selected_cmd;
                let idx: usize = self.selected_param;
                if idx < self.params_by_cmd[cmd].len() {
                    let ghost before = self.params_by_cmd@;
                    let value: String = self.edit_buf.clone();
                    let params = &mut self.params_by_cmd[cmd];
                    let field = &mut params[idx];
                    field.value = value;
                    proof {
                        let after = self.params_by_cmd@;
                        assert(commands::fields(after[cmd as int]@) =~= commands::fields(
                            before[cmd as int]@,
                        ).update(
                            idx as int,
                            commands::FieldView {
                                value: self.edit_buf@,
                                ..commands::fields(before[cmd as int]@)[idx as int]
                            },
                        ));
                        assert(all_fields(after) =~= committed(old(self)@));
                    }
                }
                self.editing_param = false;
                self.edit_buf = String::new();
                assert(self@.edit_buf =~= Seq::<char>::empty());
            },
            Key::Backspace => {
                let _ = self.edit_buf.pop();
            },
            Key::Char(c) => {
                self.edit_buf.push(c);
            },
            _ => {},
        }
    }

    /// Moves the selection of the pane in focus.
    fn move_selection(&mut self, down: bool)
        requires
            old(self)@.wf(),
        ensures
            final(self)@ == moved(
                old(self)@,
                if down {
                    1
                } else {
                    -1
                },
            ),
    {
        match self.focus {
            Focus::Motors => {
                self.selected_motor_idx = step(
                    self.selected_motor_idx,
                    down,
                    self.discovered_motors.len(),
                );
            },
            Focus::Commands => {
                self.selected_cmd = step(self.selected_cmd, down, Command::COUNT);
                self.on_command_changed();
            },
            Focus::Params => {
                let len: usize = self.params_by_cmd[self.selected_cmd].len();
                if len > 0 {
                    self.selected_param = step(self.selected_param, down, len);
                }
            },
        }
    }

    /// Handles Enter.
    fn activate(&mut self, now: u64) -> (r: Effect)
        requires
            old(self)@.wf(),
        ensures
            (final(self)@, r) == activated(old(self)@, now as nat),
    {
        match self.focus {
            Focus::Motors => {
                let id: u8 = self.discovered_motors[self.selected_motor_idx];
                if id == self.motor_id {
                    let mut line: String = String::new();
                    line.append("motor ");
                    text::push_dec(&mut line, id as u64);
                    line.append(" already active");
                    assert(line@ =~= "motor "@ + text::dec(id as nat) + " already active"@);
                    self.log_msg(now, line.as_str());
                    Effect::Nothing
                } else {
                    Effect::SwitchTo(id)
                }
            },
            Focus::Commands => {
                let cmd = self.current_command();
                if cmd == Command::Scan {
                    self.start_scan(now);
                    Effect::Nothing
                } else {
                    Effect::Run(cmd)
                }
            },
            Focus::Params => {
                let params = &self.params_by_cmd[self.selected_cmd];
                if self.selected_param < params.len() {
                    self.edit_buf = params[self.selected_param].value.clone();
                    self.editing_param = true;
                }
                Effect::Nothing
            },
        }
    }

    /// Starts a scan with the parameters of the scan command.
    fn start_scan(&mut self, now: u64)
        requires
            old(self)@.wf(),
        ensures
            final(self)@ == scan_started(old(self)@, now as nat),
    {
        if self.scan_state.is_some() {
            self.log_msg(now, "Scan already in progress");
            return;
        }
        let (lo, hi, timeout_ms) = scan_range(self.params_by_cmd[0].as_slice());
        let mut line: String = String::new();
        line.append("Scanning ");
        text::push_dec(&mut line, lo as u64);
        line.append("..=");
        text::push_dec(&mut line, hi as u64);
        line.append(" (timeout ");
        text::push_dec(&mut line, timeout_ms);
        line.append(" ms/id)…  Esc to cancel");
        assert(line@ =~= "Scanning "@ + text::dec(lo as nat) + "..="@ + text::dec(hi as nat)
            + " (timeout "@ + text::dec(timeout_ms as nat) + " ms/id)…  Esc to cancel"@);
        self.log_msg(now, line.as_str());
        self.scan_state = Some(
            ScanInProgress {
                from: lo,
                to: hi,
                current: lo as u16,
                found: Vec::new(),
                timeout_ms,
                cancelled: false,
            },
        );
        assert(self@.scan.unwrap().found =~= Seq::<u8>::empty());
    }

    /// Takes the outcome of a switch to motor `id` in: that motor is then the
    /// active one, and polling is off; where it failed, nothing changes.
    pub fn switched(&mut self, now: u64, id: u8, failure: Option<&str>)
        requires
            old(self)@.wf(),
            old(self)@.motors.contains(id),
        ensures
            final(self)@ == motor_switched(old(self)@, now as nat, id, failure),
            final(self)@.wf(),
    {
        let mut line: String = String::new();
        match failure {
            None => {
                self.motor_id = id;
                self.auto_poll_enabled = false;
                line.append("switched to motor ");
                text::push_dec(&mut line, id as u64);
                assert(line@ =~= "switched to motor "@ + text::dec(id as nat));
            },
            Some(e) => {
                line.append("switch to motor ");
                text::push_dec(&mut line, id as u64);
                line.append(" FAILED: ");
                line.append(e);
                assert(line@ =~= "switch to motor "@ + text::dec(id as nat) + " FAILED: "@ + e@);
            },
        }
        self.log_msg(now, line.as_str());
    }

    /// Logs what came of a command.
    pub fn finished(&mut self, now: u64, dispatch: &Dispatch)
        requires
            old(self)@.wf(),
        ensures
            final(self)@ == with_lines(
                with_line(old(self)@, now as nat, dispatch.log_line@),
                now as nat,
                text::texts(dispatch.extra_log_lines@),
            ),
            final(self)@.wf(),
    {
        self.log_msg(now, dispatch.log_line.as_str());
        self.log_all(now, &dispatch.extra_log_lines);
    }
}

/// Where `id` stands first in `ids`.
fn position(ids: &Vec<u8>, id: u8) -> (r: usize)
    requires
        ids@.contains(id),
    ensures
        r == first_index(ids@, id),
{
    let mut i: usize = 0;
    assert(ids@.skip(0) =~= ids@);
    while i < ids.len()
        invariant
            i <= ids.len(),
            ids@.contains(id),
            forall|j: int| 0 <= j < i ==> ids@[j] != id,
            first_index(ids@, id) == i + first_index(ids@.skip(i as int), id),
        decreases ids.len() - i,
    {
        if ids[i] == id {
            return i;
        }
        assert(ids@.skip(i as int).skip(1) =~= ids@.skip(i + 1));
        i = i + 1;
    }
    proof {
        let j = choose|j: int| 0 <= j < ids@.len() && ids@[j] == id;
        assert(ids@[j] != id);
    }
    0
}

/// The state once the probed id answered or did not.
pub open spec fn probe_answered(v: AppView, id: u8, answered: bool) -> AppView {
    match v.scan {
        Some(s) => AppView { scan: Some(s.heard(id, answered)), ..v },
        None => v,
    }
}

/// The state after an automatic measurement.
pub open spec fn poll_answered(v: AppView, now: nat, failure: Option<&str>) -> AppView {
    match failure {
        Some(e) => AppView {
            auto_poll: false,
            ..with_line(v, now, "auto-poll failed: "@ + e@)
        },
        None => v,
    }
}

/// The state after the driver of another motor was opened.
pub open spec fn motor_switched(v: AppView, now: nat, id: u8, failure: Option<&str>) -> AppView {
    match failure {
        None => with_line(
            AppView { motor_id: id, auto_poll: false, ..v },
            now,
            "switched to motor "@ + text::dec(id as nat),
        ),
        Some(e) => with_line(
            v,
            now,
            "switch to motor "@ + text::dec(id as nat) + " FAILED: "@ + e@,
        ),
    }
}

/// Hours, minutes and seconds make up the seconds of the day.
proof fn lemma_time_of_day(secs: nat)
    ensures
        3600 * (secs / 3600 % 24) + 60 * (secs / 60 % 60) + secs % 60 == secs % 86_400,
{
    let minutes = secs / 60;
    let hours = minutes / 60;
    assert(hours == secs / 3600);
    assert(secs == 60 * minutes + secs % 60);
    assert(minutes == 60 * hours + minutes % 60);
    assert(hours == 24 * (hours / 24) + hours % 24);
}

/// The time of a line is that of the day: hours, minutes and seconds of two digits each,
/// which make up the seconds since midnight.
pub proof fn law_clock_shows_the_time_of_day(secs: nat)
    ensures
        clock_text(secs).len() == 8,
        clock_text(secs)[2] == ':',
        clock_text(secs)[5] == ':',
        ({
            let h = text::digits_value(clock_text(secs).subrange(0, 2));
            let m = text::digits_value(clock_text(secs).subrange(3, 5));
            let s = text::digits_value(clock_text(secs).subrange(6, 8));
            &&& h < 24
            &&& m < 60
            &&& s < 60
            &&& 3600 * h + 60 * m + s == secs % 86_400
        }),
{
    reveal_strlit(":");
    let h = secs / 3600 % 24;
    let m = secs / 60 % 60;
    let s = secs % 60;
    text::law_padded_decimal_reads_back(h, 2);
    text::law_padded_decimal_reads_back(m, 2);
    text::law_padded_decimal_reads_back(s, 2);
    lemma_time_of_day(secs);
    assert(clock_text(secs).subrange(0, 2) =~= text::dec_padded(h, 2));
    assert(clock_text(secs).subrange(3, 5) =~= text::dec_padded(m, 2));
    assert(clock_text(secs).subrange(6, 8) =~= text::dec_padded(s, 2));
}

/// The log keeps the newest 256 lines in order; a new line is the last one, and is what
/// is shown.
pub proof fn law_log_keeps_the_newest_lines(v: AppView, now: nat, msg: Seq<char>, i: int)
    requires
        v.log.len() <= 256,
    ensures
        ({
            let w = with_line(v, now, msg);
            let n = v.log.len();
            &&& w.log.len() == (if n == 256 {
                256
            } else {
                n + 1
            })
            &&& w.log.last() == "["@ + clock_text(now) + "] "@ + msg
            &&& w.log_scroll == w.log.len() - 1
            &&& n < 256 && 0 <= i < n ==> w.log[i] == v.log[i]
            &&& n == 256 && 0 <= i < 255 ==> w.log[i] == v.log[i + 1]
            &&& w == (AppView { log: w.log, log_scroll: w.log_scroll, ..v })
        }),
{
}

/// Tab goes from the motors to the commands, from there to their parameters, and back.
pub proof fn law_tab_order()
    ensures
        next_focus(Focus::Motors) == Focus::Commands,
        next_focus(Focus::Commands) == Focus::Params,
        next_focus(Focus::Params) == Focus::Motors,
{
}

/// What the tool starts with: the one motor it was given, which is active; no command
/// run, no edit, scan or polling under way; every command with its starting values.
pub proof fn law_start(motor_id: u8, c: int)
    requires
        0 <= c < Command::COUNT,
    ensures
        started(motor_id).motor_id == motor_id,
        started(motor_id).motors == seq![motor_id],
        started(motor_id).motors[started(motor_id).selected_motor] == motor_id,
        started(motor_id).command() == Command::Scan,
        started(motor_id).params[c] == commands::fields_for(commands::all_commands()[c]),
        !started(motor_id).editing,
        !started(motor_id).quit,
        !started(motor_id).auto_poll,
        started(motor_id).scan is None,
        started(motor_id).focus == Focus::Commands,
{
}

/// Down goes to the next entry of the pane in focus and from the last to the first; up
/// goes the other way. Nothing else moves, but that another command brings its own
/// parameters.
pub proof fn law_moving_goes_one_entry(v: AppView)
    requires
        v.wf(),
    ensures
        v.focus == Focus::Motors ==> {
            let n = v.motors.len();
            &&& moved(v, 1).selected_motor == (if v.selected_motor == n - 1 {
                0
            } else {
                v.selected_motor + 1
            })
            &&& moved(v, -1).selected_motor == (if v.selected_motor == 0 {
                n - 1
            } else {
                v.selected_motor - 1
            })
            &&& moved(v, 1) == (AppView { selected_motor: moved(v, 1).selected_motor, ..v })
        },
        v.focus == Focus::Commands ==> {
            &&& moved(v, 1).selected_cmd == (if v.selected_cmd == 13 {
                0
            } else {
                v.selected_cmd + 1
            })
            &&& moved(v, -1).selected_cmd == (if v.selected_cmd == 0 {
                13
            } else {
                v.selected_cmd - 1
            })
            &&& moved(v, 1).params == v.params
            &&& moved(v, 1).motors == v.motors
            &&& moved(v, 1).motor_id == v.motor_id
            &&& moved(v, 1).selected_motor == v.selected_motor
        },
        v.focus == Focus::Params && v.current_params().len() > 0 ==> {
            let n = v.current_params().len();
            &&& moved(v, 1).selected_param == (if v.selected_param == n - 1 {
                0
            } else {
                v.selected_param + 1
            })
            &&& moved(v, -1).selected_param == (if v.selected_param == 0 {
                n - 1
            } else {
                v.selected_param - 1
            })
            &&& moved(v, 1) == (AppView { selected_param: moved(v, 1).selected_param, ..v })
        },
        v.focus == Focus::Params && v.current_params().len() == 0 ==> moved(v, 1) == v,
{
    lemma_round_trip(v.selected_motor, v.motors.len() as int);
    if v.current_params().len() > 0 {
        lemma_round_trip(v.selected_param, v.current_params().len() as int);
    }
}

/// Something is left to do after a key only where it is Enter, outside of edits and
/// scans: then it is to switch to the motor that is selected and not active, or to run
/// the command that is selected, by the pane in focus.
pub proof fn law_only_enter_acts(v: AppView, key: Key, ctrl: bool, now: nat)
    ensures
        keyed(v, key, ctrl, now).1 matches Effect::Run(cmd) ==> key == Key::Enter && !v.editing
            && v.scan is None && v.focus == Focus::Commands && cmd
            == commands::all_commands()[v.selected_cmd] && cmd != Command::Scan,
        keyed(v, key, ctrl, now).1 matches Effect::SwitchTo(id) ==> key == Key::Enter && !v.editing
            && v.scan is None && v.focus == Focus::Motors && id == v.motors[v.selected_motor] && id
            != v.motor_id,
{
}

/// And Enter does act: on a motor that is not active, on a command, and on a parameter,
/// which is then edited from the value that it has. The scan command starts a scan
/// instead.
pub proof fn law_enter_acts(v: AppView, ctrl: bool, now: nat)
    requires
        v.wf(),
        !v.editing,
        v.scan is None,
    ensures
        ({
            let k = keyed(v, Key::Enter, ctrl, now);
            match v.focus {
                Focus::Motors => if v.motors[v.selected_motor] != v.motor_id {
                    k == (v, Effect::SwitchTo(v.motors[v.selected_motor]))
                } else {
                    k.1 == Effect::Nothing && k.0.motor_id == v.motor_id && k.0.scan is None
                },
                Focus::Commands => if v.selected_cmd == 0 {
                    k.1 == Effect::Nothing && k.0.scan is Some
                } else {
                    k == (v, Effect::Run(commands::all_commands()[v.selected_cmd]))
                },
                Focus::Params => if v.current_params().len() > 0 {
                    &&& k.1 == Effect::Nothing
                    &&& k.0.editing
                    &&& k.0.edit_buf == v.current_params()[v.selected_param].value
                    &&& k.0.params == v.params
                } else {
                    k == (v, Effect::Nothing)
                },
            }
        }),
{
}

/// The tool ends on Ctrl-C at any time, and on q or Esc outside of edits and scans; on
/// nothing else.
pub proof fn law_what_quits(v: AppView, key: Key, ctrl: bool, now: nat)
    requires
        !v.quit,
    ensures
        keyed(v, key, ctrl, now).0.quit <==> (ctrl && key == Key::Char('c')) || (v.scan is None
            && !v.editing && (key == Key::Char('q') || key == Key::Esc)),
{
}

/// Polling is switched by p alone, outside of edits and scans.
pub proof fn law_what_switches_polling(v: AppView, key: Key, ctrl: bool, now: nat)
    ensures
        keyed(v, key, ctrl, now).0.auto_poll != v.auto_poll <==> v.scan is None && !v.editing && key
            == Key::Char('p'),
{
}

/// While a value is edited, a character is appended and Backspace takes the last one
/// off again; no other key but Enter and Esc does anything.
pub proof fn law_typing(v: AppView, c: char, key: Key)
    ensures
        edit_keyed(v, Key::Char(c)) == (AppView { edit_buf: v.edit_buf.push(c), ..v }),
        edit_keyed(edit_keyed(v, Key::Char(c)), Key::Backspace) == v,
        v.edit_buf.len() == 0 ==> edit_keyed(v, Key::Backspace) == v,
        key == Key::Up || key == Key::Down || key == Key::Tab || key == Key::Other ==> edit_keyed(
            v,
            key,
        ) == v,
        !edit_keyed(v, Key::Enter).editing,
        edit_keyed(v, Key::Enter).edit_buf.len() == 0,
{
    assert(v.edit_buf.push(c).drop_last() =~= v.edit_buf);
}

/// Keys reach the edit while a value is edited, and the scan while there is one: there
/// only Esc counts, which cancels it.
pub proof fn law_edits_and_scans_take_the_keys(v: AppView, key: Key, now: nat)
    ensures
        v.scan is None && v.editing ==> keyed(v, key, false, now).0 == edit_keyed(v, key),
        v.scan matches Some(s) ==> keyed(v, Key::Esc, false, now).0.scan == Some(
            ScanView { cancelled: true, ..s },
        ),
{
}

/// A scan starts at the first id of its range with nothing found, takes range and
/// timeout from the parameters of the scan command, and none starts while one is under
/// way.
pub proof fn law_scan_starts_at_its_first_id(v: AppView, now: nat)
    requires
        v.wf(),
    ensures
        v.scan is Some ==> scan_started(v, now).scan == v.scan,
        v.scan is None ==> (scan_started(v, now).scan matches Some(s)
            && commands::call_for(Command::Scan, v.params[0]) matches commands::CallView::Scan {
            lo,
            hi,
            timeout_ms,
        } && s.from == lo && s.to == hi && s.timeout_ms == timeout_ms && s.current == s.from
            && s.found.len() == 0 && !s.cancelled),
        scan_started(v, now).motors == v.motors,
        scan_started(v, now).motor_id == v.motor_id,
{
    commands::law_scan_range_is_sound(v.params[0]);
}

/// A tick probes the next id of a scan that has one, with its timeout; it ends a scan
/// that has none; without a scan it polls where polling is on and due, and does nothing
/// otherwise.
pub proof fn law_what_a_tick_does(v: AppView, now: nat, elapsed: Seq<char>, poll_due: bool)
    requires
        v.wf(),
    ensures
        ({
            let t = ticked(v, now, elapsed, poll_due);
            match v.scan {
                None => t.0 == v && t.1 == (if v.auto_poll && poll_due {
                    TickAction::Poll
                } else {
                    TickAction::Nothing
                }),
                Some(s) => if !s.cancelled && s.current <= s.to {
                    &&& t.1 == (TickAction::Probe {
                        id: s.current as u8,
                        timeout_ms: s.timeout_ms,
                    })
                    &&& t.0.scan matches Some(after) && after.current == s.current + 1
                        && after.found == s.found && after.to == s.to && after.from == s.from
                } else {
                    t.1 == TickAction::Nothing && t.0.scan is None
                },
            }
        }),
{
    if v.scan matches Some(s) && s.complete() && !s.cancelled {
        let s = v.scan->Some_0;
        let motors = listed(s.found, v.motor_id);
        let idle = AppView { scan: None, ..v };
        let shown = with_line(
            AppView { motors, selected_motor: first_index(motors, v.motor_id), ..idle },
            now,
            "Scan complete: "@ + text::dec(motors.len()) + " motor(s) in "@ + elapsed + " s"@,
        );
        lemma_lines_keep_the_rest(
            shown,
            now,
            motors.map_values(|id: u8| listed_line(id, v.motor_id)),
        );
    }
}

/// Logging changes nothing but the log.
proof fn lemma_lines_keep_the_rest(v: AppView, now: nat, msgs: Seq<Seq<char>>)
    ensures
        with_lines(v, now, msgs) == (AppView {
            log: with_lines(v, now, msgs).log,
            log_scroll: with_lines(v, now, msgs).log_scroll,
            ..v
        }),
    decreases msgs.len(),
{
    if msgs.len() > 0 {
        lemma_lines_keep_the_rest(v, now, msgs.drop_last());
    }
}

/// A scan that was cancelled leaves the motors, the selection and the focus as they
/// were.
pub proof fn law_cancelled_scan_changes_no_motors(
    v: AppView,
    scan: ScanView,
    now: nat,
    elapsed: Seq<char>,
)
    requires
        scan.cancelled,
    ensures
        ({
            let w = scan_ended(v, scan, now, elapsed);
            w == (AppView { scan: None, log: w.log, log_scroll: w.log_scroll, ..v })
        }),
{
}

/// A probe that was answered adds its id to what was found, after all others; one that
/// was not adds nothing.
pub proof fn law_answers_are_collected(v: AppView, id: u8, s: ScanView)
    requires
        v.scan == Some(s),
    ensures
        probe_answered(v, id, true).scan == Some(ScanView { found: s.found.push(id), ..s }),
        probe_answered(v, id, false) == v,
        probe_answered(v, id, true).motors == v.motors,
{
}

/// A failed measurement ends the polling and is logged; one that succeeded changes
/// nothing.
pub proof fn law_failed_poll_ends_polling(v: AppView, now: nat, failure: Option<&str>)
    ensures
        failure is None ==> poll_answered(v, now, failure) == v,
        failure matches Some(e) ==> !poll_answered(v, now, failure).auto_poll && poll_answered(
            v,
            now,
            failure,
        ).log.last() == "["@ + clock_text(now) + "] "@ + ("auto-poll failed: "@ + e@),
        poll_answered(v, now, failure).motor_id == v.motor_id,
{
}

/// A switch that succeeded makes the motor the active one and ends the polling; one that
/// failed leaves both.
pub proof fn law_switching(v: AppView, now: nat, id: u8, failure: Option<&str>)
    ensures
        ({
            let w = motor_switched(v, now, id, failure);
            &&& failure is None ==> w.motor_id == id && !w.auto_poll
            &&& failure is Some ==> w.motor_id == v.motor_id && w.auto_poll == v.auto_poll
            &&& w.motors == v.motors
            &&& w.selected_motor == v.selected_motor
            &&& w.params == v.params
            &&& w.scan == v.scan
        }),
{
}

/// The place of an id is the first at which it stands.
pub proof fn law_place_of_an_id(ids: Seq<u8>, id: u8, j: int)
    requires
        ids.contains(id),
    ensures
        0 <= first_index(ids, id) < ids.len(),
        ids[first_index(ids, id)] == id,
        0 <= j < first_index(ids, id) ==> ids[j] != id,
    decreases ids.len(),
{
    if ids[0] != id {
        let rest = ids.skip(1);
        let k = choose|k: int| 0 <= k < ids.len() && ids[k] == id;
        assert(rest[k - 1] == id);
        law_place_of_an_id(rest, id, j - 1);
        assert(rest[first_index(rest, id)] == ids[first_index(rest, id) + 1]);
        if 0 < j < first_index(ids, id) {
            assert(rest[j - 1] == ids[j]);
        }
    }
}

/// A scan counts what it probed and what there is to probe, and shows the id that it
/// probes next, or its last.
pub proof fn law_scan_counts(s: ScanView)
    requires
        s.wf(),
    ensures
        0 <= s.done() <= s.total(),
        s.from + s.done() == s.current,
        s.from + s.total() == s.to + 1,
        s.complete() <==> s.cancelled || s.done() == s.total(),
        s.done() < s.total() ==> s.next_id() == s.current,
        s.done() == s.total() ==> s.next_id() == s.to,
{
}

/// In the list after a scan every motor is named by its id, and the active one alone is
/// marked.
pub proof fn law_listed_motors_are_marked(id: u8, active: u8)
    ensures
        id == active ==> listed_line(id, active) == "  id="@ + text::dec(id as nat)
            + "  (active)"@,
        id != active ==> listed_line(id, active) == "  id="@ + text::dec(id as nat),
{
    reveal_strlit("");
    if id != active {
        assert(listed_line(id, active) =~= "  id="@ + text::dec(id as nat));
    }
}

} // verus!
