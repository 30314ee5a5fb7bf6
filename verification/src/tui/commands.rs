//! The commands of the terminal tool: their parameters, what each asks of the
//! actuator, and what is logged of the outcome.
use crate::feedback::RunMode;
use crate::text;
use vstd::prelude::*;
use vstd::string::*;

verus! {

/// Everything that the tool can do to an actuator.
#[derive(Debug, Clone, Copy, PartialEq, Eq, Hash, Structural)]
pub enum Command {
    Scan,
    Enable,
    Disable,
    SetZero,
    SetModeMit,
    SetModePosition,
    SetModeVelocity,
    SetModeTorque,
    Measure,
    ReadStatus,
    SetPosition,
    SetVelocity,
    SetTorque,
    MitControl,
}

/// The commands in the order in which they are listed.
pub open spec fn all_commands() -> Seq<Command> {
    seq![
        Command::Scan,
        Command::Enable,
        Command::Disable,
        Command::SetZero,
        Command::SetModeMit,
        Command::SetModePosition,
        Command::SetModeVelocity,
        Command::SetModeTorque,
        Command::Measure,
        Command::ReadStatus,
        Command::SetPosition,
        Command::SetVelocity,
        Command::SetTorque,
        Command::MitControl,
    ]
}

impl Command {
    /// How many commands there are.
    pub const COUNT: usize = 14;

    /// The command at a place of the list.
    pub fn at(i: usize) -> (r: Self)
        requires
            i < Self::COUNT,
        ensures
            r == all_commands()[i as int],
    {
        match i {
            0 => Command::Scan,
            1 => Command::Enable,
            2 => Command::Disable,
            3 => Command::SetZero,
            4 => Command::SetModeMit,
            5 => Command::SetModePosition,
            6 => Command::SetModeVelocity,
            7 => Command::SetModeTorque,
            8 => Command::Measure,
            9 => Command::ReadStatus,
            10 => Command::SetPosition,
            11 => Command::SetVelocity,
            12 => Command::SetTorque,
            _ => Command::MitControl,
        }
    }

    /// What the list calls the command.
    pub open spec fn label_text(self) -> Seq<char> {
        match self {
            Command::Scan => "Scan Bus"@,
            Command::Enable => "Enable"@,
            Command::Disable => "Disable"@,
            Command::SetZero => "Set Zero (anchor position)"@,
            Command::SetModeMit => "Set Mode → MIT"@,
            Command::SetModePosition => "Set Mode → Position"@,
            Command::SetModeVelocity => "Set Mode → Velocity"@,
            Command::SetModeTorque => "Set Mode → Torque"@,
            Command::Measure => "Measure (poll feedback)"@,
            Command::ReadStatus => "Read Status (Vbus / temp / errors)"@,
            Command::SetPosition => "Set Position"@,
            Command::SetVelocity => "Set Velocity"@,
            Command::SetTorque => "Set Torque"@,
            Command::MitControl => "MIT Control"@,
        }
    }

    /// What the list calls the command.
    pub fn label(self) -> (r: &'static str)
        ensures
            r@ == self.label_text(),
    {
        match self {
            Command::Scan => "Scan Bus",
            Command::Enable => "Enable",
            Command::Disable => "Disable",
            Command::SetZero => "Set Zero (anchor position)",
            Command::SetModeMit => "Set Mode → MIT",
            Command::SetModePosition => "Set Mode → Position",
            Command::SetModeVelocity => "Set Mode → Velocity",
            Command::SetModeTorque => "Set Mode → Torque",
            Command::Measure => "Measure (poll feedback)",
            Command::ReadStatus => "Read Status (Vbus / temp / errors)",
            Command::SetPosition => "Set Position",
            Command::SetVelocity => "Set Velocity",
            Command::SetTorque => "Set Torque",
            Command::MitControl => "MIT Control",
        }
    }
}

/// The list holds every command, each once.
pub proof fn law_every_command_is_listed_once(c: Command)
    ensures
        all_commands().len() == Command::COUNT,
        exists|i: int| 0 <= i < all_commands().len() && #[trigger] all_commands()[i] == c,
        forall|i: int, j: int|
            0 <= i < j < all_commands().len() ==> #[trigger] all_commands()[i]
                != #[trigger] all_commands()[j],
{
    let s = all_commands();
    assert(s[0] == Command::Scan && s[1] == Command::Enable && s[2] == Command::Disable && s[3]
        == Command::SetZero && s[4] == Command::SetModeMit && s[5] == Command::SetModePosition
        && s[6] == Command::SetModeVelocity && s[7] == Command::SetModeTorque && s[8]
        == Command::Measure && s[9] == Command::ReadStatus && s[10] == Command::SetPosition
        && s[11] == Command::SetVelocity && s[12] == Command::SetTorque && s[13]
        == Command::MitControl);
}

/// One parameter of a command, as the user sees and edits it.
#[derive(Debug, Clone)]
pub struct ParamField {
    pub name: &'static str,
    pub value: String,
    pub desc: &'static str,
    pub choices: Option<&'static str>,
}

/// A parameter by its texts.
pub struct FieldView {
    pub name: Seq<char>,
    pub value: Seq<char>,
    pub desc: Seq<char>,
    pub choices: Option<Seq<char>>,
}

impl View for ParamField {
    type V = FieldView;

    open spec fn view(&self) -> FieldView {
        FieldView {
            name: self.name@,
            value: self.value@,
            desc: self.desc@,
            choices: match self.choices {
                Some(c) => Some(c@),
                None => None,
            },
        }
    }
}

/// Parameters by their texts.
pub open spec fn fields(params: Seq<ParamField>) -> Seq<FieldView> {
    params.map_values(|p: ParamField| p@)
}

/// A parameter without a list of choices.
pub open spec fn plain_field(name: Seq<char>, value: Seq<char>, desc: Seq<char>) -> FieldView {
    FieldView { name, value, desc, choices: None }
}

/// The parameters of a command, with the values they start with.
pub open spec fn fields_for(cmd: Command) -> Seq<FieldView> {
    match cmd {
        Command::Scan => seq![
            plain_field("from"@, "1"@, "Start motor ID"@),
            plain_field("to"@, "32"@, "End motor ID (lkmotor max=32, robstride max=127)"@),
            plain_field("timeout_ms"@, "50"@, "Per-ID timeout [ms]"@),
        ],
        Command::SetPosition => seq![
            plain_field("pos"@, "0.0"@, "Target position [rad]"@),
            plain_field("max_speed"@, "5.0"@, "Max speed [rad/s]"@),
        ],
        Command::SetVelocity => seq![
            plain_field("vel"@, "1.0"@, "Target velocity [rad/s]"@),
        ],
        Command::SetTorque => seq![plain_field("torque"@, "0.1"@, "Target torque [Nm]"@)],
        Command::MitControl => seq![
            plain_field("pos"@, "0.0"@, "Position ref [rad]"@),
            plain_field("vel"@, "0.0"@, "Velocity ref [rad/s]"@),
            plain_field("kp"@, "10.0"@, "Stiffness [Nm/rad]"@),
            plain_field("kd"@, "0.5"@, "Damping [Nm·s/rad]"@),
            plain_field("torque_ff"@, "0.0"@, "Torque feed-forward [Nm]"@),
        ],
        _ => seq![],
    }
}

impl ParamField {
    /// A parameter without a list of choices.
    fn new(name: &'static str, default: &'static str, desc: &'static str) -> (r: Self)
        ensures
            r@ == plain_field(name@, default@, desc@),
    {
        ParamField { name, value: default.to_owned(), desc, choices: None }
    }
}

/// The parameters of a command, with the values they start with.
pub fn params_for(cmd: Command) -> (r: Vec<ParamField>)
    ensures
        fields(r@) == fields_for(cmd),
{
    let mut v: Vec<ParamField> = Vec::new();
    match cmd {
        Command::Scan => {
            v.push(ParamField::new("from", "1", "Start motor ID"));
            v.push(
                ParamField::new("to", "32", "End motor ID (lkmotor max=32, robstride max=127)"),
            );
            v.push(ParamField::new("timeout_ms", "50", "Per-ID timeout [ms]"));
        },
        Command::SetPosition => {
            v.push(ParamField::new("pos", "0.0", "Target position [rad]"));
            v.push(ParamField::new("max_speed", "5.0", "Max speed [rad/s]"));
        },
        Command::SetVelocity => {
            v.push(ParamField::new("vel", "1.0", "Target velocity [rad/s]"));
        },
        Command::SetTorque => {
            v.push(ParamField::new("torque", "0.1", "Target torque [Nm]"));
        },
        Command::MitControl => {
            v.push(ParamField::new("pos", "0.0", "Position ref [rad]"));
            v.push(ParamField::new("vel", "0.0", "Velocity ref [rad/s]"));
            v.push(ParamField::new("kp", "10.0", "Stiffness [Nm/rad]"));
            v.push(ParamField::new("kd", "0.5", "Damping [Nm·s/rad]"));
            v.push(ParamField::new("torque_ff", "0.0", "Torque feed-forward [Nm]"));
        },
        _ => {},
    }
    assert(fields(v@) =~= fields_for(cmd));
    v
}

/// The value of the first parameter with this name.
pub open spec fn value_of(params: Seq<FieldView>, name: Seq<char>) -> Option<Seq<char>>
    decreases params.len(),
{
    if params.len() == 0 {
        None
    } else if params[0].name == name {
        Some(params[0].value)
    } else {
        value_of(params.skip(1), name)
    }
}

/// Where the first parameter with this name stands.
fn find(params: &[ParamField], name: &str) -> (r: Option<usize>)
    ensures
        match r {
            Some(i) => i < params.len() && value_of(fields(params@), name@) == Some(
                params@[i as int].value@,
            ),
            None => value_of(fields(params@), name@) is None,
        },
{
    let ghost all = fields(params@);
    let mut i: usize = 0;
    assert(all.skip(0) =~= all);
    while i < params.len()
        invariant
            i <= params.len(),
            all == fields(params@),
            value_of(all, name@) == value_of(all.skip(i as int), name@),
        decreases params.len() - i,
    {
        if text::same(params[i].name, name) {
            return Some(i);
        }
        assert(all.skip(i as int).skip(1) =~= all.skip(i + 1));
        i = i + 1;
    }
    assert(all.skip(i as int).len() == 0);
    None
}

/// A number among the parameters: the default where it is missing, is not a
/// number, or is above `max`.
pub open spec fn number_in(
    params: Seq<FieldView>,
    name: Seq<char>,
    max: nat,
    default: nat,
) -> nat {
    match value_of(params, name) {
        Some(v) => match text::unsigned_in(v, max) {
            Some(n) => n,
            None => default,
        },
        None => default,
    }
}

/// A small number among the parameters.
pub fn pf_u8(params: &[ParamField], name: &str, default: u8) -> (r: u8)
    ensures
        r == number_in(fields(params@), name@, 255, default as nat),
{
    match find(params, name) {
        Some(i) => match text::parse_unsigned(params[i].value.as_str(), 255) {
            Some(n) => n as u8,
            None => default,
        },
        None => default,
    }
}

/// A number among the parameters.
pub fn pf_u64(params: &[ParamField], name: &str, default: u64) -> (r: u64)
    ensures
        r == number_in(fields(params@), name@, u64::MAX as nat, default as nat),
{
    match find(params, name) {
        Some(i) => match text::parse_unsigned(params[i].value.as_str(), u64::MAX) {
            Some(n) => n,
            None => default,
        },
        None => default,
    }
}

/// A quantity among the parameters: its text, if there is one, and the number
/// that stands in where that is missing or no number.
pub struct Quantity {
    pub text: Option<String>,
    pub default: &'static str,
}

/// A [`Quantity`] by its texts.
pub struct QuantityView {
    pub text: Option<Seq<char>>,
    pub default: Seq<char>,
}

impl View for Quantity {
    type V = QuantityView;

    open spec fn view(&self) -> QuantityView {
        QuantityView {
            text: match self.text {
                Some(t) => Some(t@),
                None => None,
            },
            default: self.default@,
        }
    }
}

/// A quantity among the parameters.
pub open spec fn quantity_in(
    params: Seq<FieldView>,
    name: Seq<char>,
    default: Seq<char>,
) -> QuantityView {
    QuantityView { text: value_of(params, name), default }
}

/// A quantity among the parameters.
pub fn pf(params: &[ParamField], name: &str, default: &'static str) -> (r: Quantity)
    ensures
        r@ == quantity_in(fields(params@), name@, default@),
{
    match find(params, name) {
        Some(i) => Quantity { text: Some(params[i].value.clone()), default },
        None => Quantity { text: None, default },
    }
}

/// What a command asks of the actuator.
pub enum Call {
    Scan { lo: u8, hi: u8, timeout_ms: u64 },
    Enable,
    Disable,
    SetZero,
    SetRunMode(RunMode),
    Measure,
    ReadStatus,
    SetPosition { pos: Quantity, max_speed: Quantity },
    SetVelocity { vel: Quantity },
    SetTorque { torque: Quantity },
    MitControl { pos: Quantity, vel: Quantity, kp: Quantity, kd: Quantity, torque_ff: Quantity },
}

/// A [`Call`] by its texts.
pub enum CallView {
    Scan { lo: nat, hi: nat, timeout_ms: nat },
    Enable,
    Disable,
    SetZero,
    SetRunMode(RunMode),
    Measure,
    ReadStatus,
    SetPosition { pos: QuantityView, max_speed: QuantityView },
    SetVelocity { vel: QuantityView },
    SetTorque { torque: QuantityView },
    MitControl {
        pos: QuantityView,
        vel: QuantityView,
        kp: QuantityView,
        kd: QuantityView,
        torque_ff: QuantityView,
    },
}

impl View for Call {
    type V = CallView;

    open spec fn view(&self) -> CallView {
        match self {
            Call::Scan { lo, hi, timeout_ms } => CallView::Scan {
                lo: *lo as nat,
                hi: *hi as nat,
                timeout_ms: *timeout_ms as nat,
            },
            Call::Enable => CallView::Enable,
            Call::Disable => CallView::Disable,
            Call::SetZero => CallView::SetZero,
            Call::SetRunMode(m) => CallView::SetRunMode(*m),
            Call::Measure => CallView::Measure,
            Call::ReadStatus => CallView::ReadStatus,
            Call::SetPosition { pos, max_speed } => CallView::SetPosition {
                pos: pos@,
                max_speed: max_speed@,
            },
            Call::SetVelocity { vel } => CallView::SetVelocity { vel: vel@ },
            Call::SetTorque { torque } => CallView::SetTorque { torque: torque@ },
            Call::MitControl { pos, vel, kp, kd, torque_ff } => CallView::MitControl {
                pos: pos@,
                vel: vel@,
                kp: kp@,
                kd: kd@,
                torque_ff: torque_ff@,
            },
        }
    }
}

/// The first id of a scan: 0 is no address.
pub open spec fn scan_lo(params: Seq<FieldView>) -> nat {
    let from = number_in(params, "from"@, 255, 1);
    if from < 1 {
        1
    } else {
        from
    }
}

/// The last id of a scan, never below the first.
pub open spec fn scan_hi(params: Seq<FieldView>) -> nat {
    let to = number_in(params, "to"@, 255, 32);
    if to < scan_lo(params) {
        scan_lo(params)
    } else {
        to
    }
}

/// The time given to each id of a scan, in milliseconds.
pub open spec fn scan_timeout(params: Seq<FieldView>) -> nat {
    number_in(params, "timeout_ms"@, u64::MAX as nat, 50)
}

/// What a command asks of the actuator, with these parameters.
pub open spec fn call_for(cmd: Command, params: Seq<FieldView>) -> CallView {
    match cmd {
        Command::Scan => CallView::Scan {
            lo: scan_lo(params),
            hi: scan_hi(params),
            timeout_ms: scan_timeout(params),
        },
        Command::Enable => CallView::Enable,
        Command::Disable => CallView::Disable,
        Command::SetZero => CallView::SetZero,
        Command::SetModeMit => CallView::SetRunMode(RunMode::Mit),
        Command::SetModePosition => CallView::SetRunMode(RunMode::Position),
        Command::SetModeVelocity => CallView::SetRunMode(RunMode::Velocity),
        Command::SetModeTorque => CallView::SetRunMode(RunMode::Torque),
        Command::Measure => CallView::Measure,
        Command::ReadStatus => CallView::ReadStatus,
        Command::SetPosition => CallView::SetPosition {
            pos: quantity_in(params, "pos"@, "0.0"@),
            max_speed: quantity_in(params, "max_speed"@, "5.0"@),
        },
        Command::SetVelocity => CallView::SetVelocity {
            vel: quantity_in(params, "vel"@, "0.0"@),
        },
        Command::SetTorque => CallView::SetTorque {
            torque: quantity_in(params, "torque"@, "0.0"@),
        },
        Command::MitControl => CallView::MitControl {
            pos: quantity_in(params, "pos"@, "0.0"@),
            vel: quantity_in(params, "vel"@, "0.0"@),
            kp: quantity_in(params, "kp"@, "0.0"@),
            kd: quantity_in(params, "kd"@, "0.0"@),
            torque_ff: quantity_in(params, "torque_ff"@, "0.0"@),
        },
    }
}

/// A scan is never asked for address 0 nor for an empty range, whatever the user
/// typed.
pub proof fn law_scan_range_is_sound(params: Seq<FieldView>)
    ensures
        1 <= scan_lo(params) <= scan_hi(params) <= 255,
{
}

/// The range and timeout of a scan, from the parameters of the scan command.
pub fn scan_range(params: &[ParamField]) -> (r: (u8, u8, u64))
    ensures
        r.0 == scan_lo(fields(params@)),
        r.1 == scan_hi(fields(params@)),
        r.2 == scan_timeout(fields(params@)),
{
    let from: u8 = pf_u8(params, "from", 1);
    let to: u8 = pf_u8(params, "to", 32);
    let timeout_ms: u64 = pf_u64(params, "timeout_ms", 50);
    let lo: u8 = if from < 1 {
        1
    } else {
        from
    };
    let hi: u8 = if to < lo {
        lo
    } else {
        to
    };
    (lo, hi, timeout_ms)
}

/// What a command asks of the actuator, with these parameters.
pub fn dispatch(cmd: Command, params: &[ParamField]) -> (r: Call)
    ensures
        r@ == call_for(cmd, fields(params@)),
{
    match cmd {
        Command::Scan => {
            let (lo, hi, timeout_ms) = scan_range(params);
            Call::Scan { lo, hi, timeout_ms }
        },
        Command::Enable => Call::Enable,
        Command::Disable => Call::Disable,
        Command::SetZero => Call::SetZero,
        Command::SetModeMit => Call::SetRunMode(RunMode::Mit),
        Command::SetModePosition => Call::SetRunMode(RunMode::Position),
        Command::SetModeVelocity => Call::SetRunMode(RunMode::Velocity),
        Command::SetModeTorque => Call::SetRunMode(RunMode::Torque),
        Command::Measure => Call::Measure,
        Command::ReadStatus => Call::ReadStatus,
        Command::SetPosition => Call::SetPosition {
            pos: pf(params, "pos", "0.0"),
            max_speed: pf(params, "max_speed", "5.0"),
        },
        Command::SetVelocity => Call::SetVelocity { vel: pf(params, "vel", "0.0") },
        Command::SetTorque => Call::SetTorque { torque: pf(params, "torque", "0.0") },
        Command::MitControl => Call::MitControl {
            pos: pf(params, "pos", "0.0"),
            vel: pf(params, "vel", "0.0"),
            kp: pf(params, "kp", "0.0"),
            kd: pf(params, "kd", "0.0"),
            torque_ff: pf(params, "torque_ff", "0.0"),
        },
    }
}

/// A measurement as it is logged: each quantity already written as a number.
pub struct FeedbackTexts {
    pub position: String,
    pub velocity: String,
    pub torque: String,
    pub temperature: String,
}

/// What the actuator answered.
pub enum Outcome {
    /// Success, with nothing to show.
    Done,
    /// Success, with a measurement.
    Feedback(FeedbackTexts),
    /// The ids that a scan of `lo..=hi` found.
    Found { lo: u8, hi: u8, ids: Vec<u8> },
    /// A failure, with its message.
    Failed(String),
}

/// What is logged of a command.
pub struct Dispatch {
    pub log_line: String,
    pub extra_log_lines: Vec<String>,
}

/// The log line of a command.
pub open spec fn outcome_line(cmd: Command, outcome: Outcome) -> Seq<char> {
    match outcome {
        Outcome::Done | Outcome::Found { .. } => cmd.label_text() + " OK"@,
        Outcome::Feedback(f) => cmd.label_text() + " OK  pos="@ + f.position@ + " rad  vel="@
            + f.velocity@ + " rad/s  τ="@ + f.torque@ + " Nm  T="@ + f.temperature@ + "°C"@,
        Outcome::Failed(e) => cmd.label_text() + " FAILED: "@ + e@,
    }
}

/// The lines that follow it: what a scan found.
pub open spec fn outcome_extra(outcome: Outcome) -> Seq<Seq<char>> {
    match outcome {
        Outcome::Found { lo, hi, ids } => if ids@.len() == 0 {
            seq![
                "  no motors found in "@ + text::dec(lo as nat) + "..="@ + text::dec(hi as nat),
            ]
        } else {
            seq!["  found "@ + text::dec(ids@.len()) + " motor(s):"@] + ids@.map_values(
                |id: u8| "    id="@ + text::dec(id as nat),
            )
        },
        _ => Seq::empty(),
    }
}

/// What is logged of a command and its outcome.
pub fn report(cmd: Command, outcome: &Outcome) -> (r: Dispatch)
    ensures
        r.log_line@ == outcome_line(cmd, *outcome),
        text::texts(r.extra_log_lines@) == outcome_extra(*outcome),
{
    let mut line: String = String::new();
    line.append(cmd.label());
    let mut extra: Vec<String> = Vec::new();
    match outcome {
        Outcome::Done => {
            line.append(" OK");
        },
        Outcome::Feedback(f) => {
            line.append(" OK  pos=");
            line.append(f.position.as_str());
            line.append(" rad  vel=");
            line.append(f.velocity.as_str());
            line.append(" rad/s  τ=");
            line.append(f.torque.as_str());
            line.append(" Nm  T=");
            line.append(f.temperature.as_str());
            line.append("°C");
        },
        Outcome::Found { lo, hi, ids } => {
            line.append(" OK");
            extra = found_lines(*lo, *hi, ids);
        },
        Outcome::Failed(e) => {
            line.append(" FAILED: ");
            line.append(e.as_str());
        },
    }
    assert(line@ =~= outcome_line(cmd, *outcome));
    assert(text::texts(extra@) =~= outcome_extra(*outcome));
    Dispatch { log_line: line, extra_log_lines: extra }
}

/// The lines about what a scan found.
fn found_lines(lo: u8, hi: u8, ids: &Vec<u8>) -> (r: Vec<String>)
    ensures
        text::texts(r@) == outcome_extra(Outcome::Found { lo, hi, ids: *ids }),
{
    let mut extra: Vec<String> = Vec::new();
    if ids.len() == 0 {
        let mut s: String = String::new();
        s.append("  no motors found in ");
        text::push_dec(&mut s, lo as u64);
        s.append("..=");
        text::push_dec(&mut s, hi as u64);
        assert(s@ =~= "  no motors found in "@ + text::dec(lo as nat) + "..="@ + text::dec(
            hi as nat,
        ));
        extra.push(s);
        assert(text::texts(extra@) =~= outcome_extra(Outcome::Found { lo, hi, ids: *ids }));
        return extra;
    }
    let mut s: String = String::new();
    s.append("  found ");
    text::push_dec(&mut s, ids.len() as u64);
    s.append(" motor(s):");
    let ghost head = "  found "@ + text::dec(ids@.len()) + " motor(s):"@;
    assert(s@ =~= head);
    extra.push(s);
    let mut i: usize = 0;
    assert(text::texts(extra@) =~= seq![head] + ids@.take(0).map_values(
        |id: u8| "    id="@ + text::dec(id as nat),
    ));
    while i < ids.len()
        invariant
            i <= ids.len(),
            text::texts(extra@) == seq![head] + ids@.take(i as int).map_values(
                |id: u8| "    id="@ + text::dec(id as nat),
            ),
        decreases ids.len() - i,
    {
        let mut s: String = String::new();
        s.append("    id=");
        text::push_dec(&mut s, ids[i] as u64);
        assert(s@ =~= "    id="@ + text::dec(ids@[i as int] as nat));
        let ghost before = extra@;
        extra.push(s);
        assert(text::texts(extra@) =~= text::texts(before).push(s@));
        assert(text::texts(extra@) =~= seq![head] + ids@.take(i + 1).map_values(
            |id: u8| "    id="@ + text::dec(id as nat),
        ));
        i = i + 1;
    }
    assert(ids@.take(i as int) =~= ids@);
    extra
}

/// Whether the parameter at `i` is the first with its name.
pub open spec fn is_first(params: Seq<FieldView>, i: int) -> bool {
    &&& 0 <= i < params.len()
    &&& forall|j: int| 0 <= j < i ==> (#[trigger] params[j]).name != params[i].name
}

/// Whether no parameter has this name.
pub open spec fn is_missing(params: Seq<FieldView>, name: Seq<char>) -> bool {
    forall|j: int| 0 <= j < params.len() ==> (#[trigger] params[j]).name != name
}

/// The value of a name is the text of the first parameter with that name, and there is
/// none if and only if no parameter has it.
pub proof fn law_value_is_that_of_the_name(params: Seq<FieldView>, i: int, name: Seq<char>)
    ensures
        is_first(params, i) ==> value_of(params, params[i].name) == Some(params[i].value),
        is_missing(params, name) <==> value_of(params, name) is None,
    decreases params.len(),
{
    if params.len() > 0 {
        let rest = params.skip(1);
        law_value_is_that_of_the_name(rest, i - 1, name);
        if is_first(params, i) && i > 0 {
            assert(rest[i - 1] == params[i]);
            assert forall|j: int| 0 <= j < i - 1 implies (#[trigger] rest[j]).name
                != params[i].name by {
                assert(rest[j] == params[j + 1]);
            }
        }
        if params[0].name != name {
            if is_missing(params, name) {
                assert forall|j: int| 0 <= j < rest.len() implies (#[trigger] rest[j]).name
                    != name by {
                    assert(rest[j] == params[j + 1]);
                }
            }
            if is_missing(rest, name) {
                assert forall|j: int| 0 <= j < params.len() implies (#[trigger] params[j]).name
                    != name by {
                    if j > 0 {
                        assert(rest[j - 1] == params[j]);
                    }
                }
            }
        }
    }
}

/// Every quantity of a call is the text of the parameter of the same name: whatever
/// the parameters are, the stiffness of an MIT command is the text of "kp", its
/// damping that of "kd", and so on for every quantity of every command.
pub proof fn law_quantities_are_taken_by_name(params: Seq<FieldView>, i: int)
    requires
        is_first(params, i),
    ensures
        call_for(Command::MitControl, params) matches CallView::MitControl {
            pos,
            vel,
            kp,
            kd,
            torque_ff,
        } && {
            &&& params[i].name == "pos"@ ==> pos.text == Some(params[i].value)
            &&& params[i].name == "vel"@ ==> vel.text == Some(params[i].value)
            &&& params[i].name == "kp"@ ==> kp.text == Some(params[i].value)
            &&& params[i].name == "kd"@ ==> kd.text == Some(params[i].value)
            &&& params[i].name == "torque_ff"@ ==> torque_ff.text == Some(params[i].value)
        },
        call_for(Command::SetPosition, params) matches CallView::SetPosition { pos, max_speed } && {
            &&& params[i].name == "pos"@ ==> pos.text == Some(params[i].value)
            &&& params[i].name == "max_speed"@ ==> max_speed.text == Some(params[i].value)
        },
        call_for(Command::SetVelocity, params) matches CallView::SetVelocity { vel }
            && (params[i].name == "vel"@ ==> vel.text == Some(params[i].value)),
        call_for(Command::SetTorque, params) matches CallView::SetTorque { torque }
            && (params[i].name == "torque"@ ==> torque.text == Some(params[i].value)),
{
    law_value_is_that_of_the_name(params, i, params[i].name);
}

/// A quantity without a parameter of its name has no text, and the number that stands
/// in for it, or for a text that is none, is 0.0, but 5.0 for a speed limit.
pub proof fn law_missing_quantities_have_a_default(params: Seq<FieldView>)
    ensures
        call_for(Command::MitControl, params) matches CallView::MitControl {
            pos,
            vel,
            kp,
            kd,
            torque_ff,
        } && {
            &&& is_missing(params, "pos"@) <==> pos.text is None
            &&& is_missing(params, "vel"@) <==> vel.text is None
            &&& is_missing(params, "kp"@) <==> kp.text is None
            &&& is_missing(params, "kd"@) <==> kd.text is None
            &&& is_missing(params, "torque_ff"@) <==> torque_ff.text is None
            &&& pos.default == "0.0"@ && vel.default == "0.0"@ && kp.default == "0.0"@ && kd.default
                == "0.0"@ && torque_ff.default == "0.0"@
        },
        call_for(Command::SetPosition, params) matches CallView::SetPosition { pos, max_speed } && {
            &&& is_missing(params, "pos"@) <==> pos.text is None
            &&& is_missing(params, "max_speed"@) <==> max_speed.text is None
            &&& pos.default == "0.0"@ && max_speed.default == "5.0"@
        },
        call_for(Command::SetVelocity, params) matches CallView::SetVelocity { vel } && vel.default
            == "0.0"@ && (is_missing(params, "vel"@) <==> vel.text is None),
        call_for(Command::SetTorque, params) matches CallView::SetTorque { torque }
            && torque.default == "0.0"@ && (is_missing(params, "torque"@) <==> torque.text is None),
{
    law_value_is_that_of_the_name(params, 0, "pos"@);
    law_value_is_that_of_the_name(params, 0, "vel"@);
    law_value_is_that_of_the_name(params, 0, "kp"@);
    law_value_is_that_of_the_name(params, 0, "kd"@);
    law_value_is_that_of_the_name(params, 0, "torque_ff"@);
    law_value_is_that_of_the_name(params, 0, "max_speed"@);
    law_value_is_that_of_the_name(params, 0, "torque"@);
}

/// Other values of a parameter do not change what other names hold.
proof fn lemma_value_after_edit(params: Seq<FieldView>, i: int, value: Seq<char>, name: Seq<char>)
    requires
        is_first(params, i),
    ensures
        value_of(params.update(i, FieldView { value, ..params[i] }), name) == (if name
            == params[i].name {
            Some(value)
        } else {
            value_of(params, name)
        }),
    decreases params.len(),
{
    let edited = params.update(i, FieldView { value, ..params[i] });
    if i > 0 {
        let rest = params.skip(1);
        assert(rest[i - 1] == params[i]);
        assert forall|j: int| 0 <= j < i - 1 implies (#[trigger] rest[j]).name
            != params[i].name by {
            assert(rest[j] == params[j + 1]);
        }
        lemma_value_after_edit(rest, i - 1, value, name);
        assert(edited.skip(1) =~= rest.update(i - 1, FieldView { value, ..params[i] }));
    } else {
        assert(edited.skip(1) =~= params.skip(1));
    }
}

/// Editing a parameter of an MIT command changes the quantity of that name to the new
/// text, and no other quantity.
pub proof fn law_editing_changes_one_quantity(params: Seq<FieldView>, i: int, value: Seq<char>)
    requires
        is_first(params, i),
    ensures
        ({
            let edited = params.update(i, FieldView { value, ..params[i] });
            let name = params[i].name;
            &&& call_for(Command::MitControl, params) matches CallView::MitControl {
                pos,
                vel,
                kp,
                kd,
                torque_ff,
            }
            &&& call_for(Command::MitControl, edited) matches CallView::MitControl {
                pos: pos1,
                vel: vel1,
                kp: kp1,
                kd: kd1,
                torque_ff: torque_ff1,
            }
            &&& pos1.text == (if name == "pos"@ {
                Some(value)
            } else {
                pos.text
            })
            &&& vel1.text == (if name == "vel"@ {
                Some(value)
            } else {
                vel.text
            })
            &&& kp1.text == (if name == "kp"@ {
                Some(value)
            } else {
                kp.text
            })
            &&& kd1.text == (if name == "kd"@ {
                Some(value)
            } else {
                kd.text
            })
            &&& torque_ff1.text == (if name == "torque_ff"@ {
                Some(value)
            } else {
                torque_ff.text
            })
        }),
{
    lemma_value_after_edit(params, i, value, "pos"@);
    lemma_value_after_edit(params, i, value, "vel"@);
    lemma_value_after_edit(params, i, value, "kp"@);
    lemma_value_after_edit(params, i, value, "kd"@);
    lemma_value_after_edit(params, i, value, "torque_ff"@);
}

/// What is asked of the actuator where the user left the parameters as they start: no
/// movement but where the starting values say so, with a stiffness of 10.0 and a
/// damping of 0.5.
pub proof fn law_starting_values_reach_the_call()
    ensures
        call_for(Command::MitControl, fields_for(Command::MitControl))
            matches CallView::MitControl { pos, vel, kp, kd, torque_ff } && pos.text == Some("0.0"@)
            && vel.text == Some("0.0"@) && kp.text == Some("10.0"@) && kd.text == Some("0.5"@)
            && torque_ff.text == Some("0.0"@),
        call_for(Command::SetPosition, fields_for(Command::SetPosition))
            matches CallView::SetPosition { pos, max_speed } && pos.text == Some("0.0"@)
            && max_speed.text == Some("5.0"@),
        call_for(Command::SetVelocity, fields_for(Command::SetVelocity))
            matches CallView::SetVelocity { vel } && vel.text == Some("1.0"@),
        call_for(Command::SetTorque, fields_for(Command::SetTorque)) matches CallView::SetTorque {
            torque,
        } && torque.text == Some("0.1"@),
{
    reveal_strlit("pos");
    reveal_strlit("vel");
    reveal_strlit("kp");
    reveal_strlit("kd");
    reveal_strlit("torque_ff");
    reveal_strlit("max_speed");
    let m = fields_for(Command::MitControl);
    assert("pos"@[0] != "vel"@[0]);
    assert("kp"@[1] != "kd"@[1]);
    law_quantities_are_taken_by_name(m, 0);
    law_quantities_are_taken_by_name(m, 1);
    law_quantities_are_taken_by_name(m, 2);
    law_quantities_are_taken_by_name(m, 3);
    law_quantities_are_taken_by_name(m, 4);
    let p = fields_for(Command::SetPosition);
    law_quantities_are_taken_by_name(p, 0);
    law_quantities_are_taken_by_name(p, 1);
    law_quantities_are_taken_by_name(fields_for(Command::SetVelocity), 0);
    law_quantities_are_taken_by_name(fields_for(Command::SetTorque), 0);
}

/// The range and the timeout of a scan are the numbers typed under "from", "to" and
/// "timeout_ms", where they are numbers: the first id is at least 1, the last at least
/// the first.
pub proof fn law_scan_takes_the_typed_range(params: Seq<FieldView>, i: int, n: nat)
    requires
        is_first(params, i),
    ensures
        call_for(Command::Scan, params) matches CallView::Scan { lo, hi, timeout_ms } && {
            &&& params[i].name == "from"@ && text::unsigned_in(params[i].value, 255) == Some(n)
                && n >= 1 ==> lo == n
            &&& params[i].name == "to"@ && text::unsigned_in(params[i].value, 255) == Some(n) && n
                >= lo ==> hi == n
            &&& params[i].name == "timeout_ms"@ && text::unsigned_in(
                params[i].value,
                u64::MAX as nat,
            ) == Some(n) ==> timeout_ms == n
        },
{
    law_value_is_that_of_the_name(params, i, params[i].name);
}

/// Where nothing is typed, ids 1 to 32 are scanned, at 50 ms each.
pub proof fn law_scan_defaults(params: Seq<FieldView>)
    ensures
        call_for(Command::Scan, params) matches CallView::Scan { lo, hi, timeout_ms } && {
            &&& is_missing(params, "from"@) ==> lo == 1
            &&& is_missing(params, "to"@) && lo <= 32 ==> hi == 32
            &&& is_missing(params, "timeout_ms"@) ==> timeout_ms == 50
        },
{
    law_value_is_that_of_the_name(params, 0, "from"@);
    law_value_is_that_of_the_name(params, 0, "to"@);
    law_value_is_that_of_the_name(params, 0, "timeout_ms"@);
}

/// Each command calls the operation that it is named for, and the mode commands ask for
/// the mode that they are named for, whatever the parameters.
pub proof fn law_commands_call_their_operation(cmd: Command, params: Seq<FieldView>)
    ensures
        call_for(cmd, params) is Scan <==> cmd is Scan,
        call_for(cmd, params) is Enable <==> cmd is Enable,
        call_for(cmd, params) is Disable <==> cmd is Disable,
        call_for(cmd, params) is SetZero <==> cmd is SetZero,
        call_for(cmd, params) is Measure <==> cmd is Measure,
        call_for(cmd, params) is ReadStatus <==> cmd is ReadStatus,
        call_for(cmd, params) is SetPosition <==> cmd is SetPosition,
        call_for(cmd, params) is SetVelocity <==> cmd is SetVelocity,
        call_for(cmd, params) is SetTorque <==> cmd is SetTorque,
        call_for(cmd, params) is MitControl <==> cmd is MitControl,
        call_for(cmd, params) == CallView::SetRunMode(RunMode::Mit) <==> cmd is SetModeMit,
        call_for(cmd, params) == CallView::SetRunMode(RunMode::Position) <==> cmd
            is SetModePosition,
        call_for(cmd, params) == CallView::SetRunMode(RunMode::Velocity) <==> cmd
            is SetModeVelocity,
        call_for(cmd, params) == CallView::SetRunMode(RunMode::Torque) <==> cmd is SetModeTorque,
{
}

/// The list calls a mode command by the mode that it asks for, and a target command by
/// the quantity that it sets.
pub proof fn law_labels_name_what_is_called(cmd: Command, params: Seq<FieldView>)
    ensures
        call_for(cmd, params) matches CallView::SetRunMode(mode) ==> cmd.label_text()
            == "Set Mode → "@ + (match mode {
            RunMode::Mit => "MIT"@,
            RunMode::Position => "Position"@,
            RunMode::Velocity => "Velocity"@,
            RunMode::Torque => "Torque"@,
        }),
        call_for(cmd, params) is SetPosition ==> cmd.label_text() == "Set "@ + "Position"@,
        call_for(cmd, params) is SetVelocity ==> cmd.label_text() == "Set "@ + "Velocity"@,
        call_for(cmd, params) is SetTorque ==> cmd.label_text() == "Set "@ + "Torque"@,
{
    reveal_strlit("Set Mode → ");
    reveal_strlit("Set Mode → MIT");
    reveal_strlit("Set Mode → Position");
    reveal_strlit("Set Mode → Velocity");
    reveal_strlit("Set Mode → Torque");
    reveal_strlit("Set ");
    reveal_strlit("MIT");
    reveal_strlit("Position");
    reveal_strlit("Velocity");
    reveal_strlit("Torque");
    reveal_strlit("Set Position");
    reveal_strlit("Set Velocity");
    reveal_strlit("Set Torque");
    match cmd {
        Command::SetModeMit => {
            assert(cmd.label_text() =~= "Set Mode → "@ + "MIT"@);
        },
        Command::SetModePosition => {
            assert(cmd.label_text() =~= "Set Mode → "@ + "Position"@);
        },
        Command::SetModeVelocity => {
            assert(cmd.label_text() =~= "Set Mode → "@ + "Velocity"@);
        },
        Command::SetModeTorque => {
            assert(cmd.label_text() =~= "Set Mode → "@ + "Torque"@);
        },
        Command::SetPosition => {
            assert(cmd.label_text() =~= "Set "@ + "Position"@);
        },
        Command::SetVelocity => {
            assert(cmd.label_text() =~= "Set "@ + "Velocity"@);
        },
        Command::SetTorque => {
            assert(cmd.label_text() =~= "Set "@ + "Torque"@);
        },
        _ => {},
    }
}

/// Every log line starts with the name of its command. After it, a failure shows its
/// message, and a measurement its position, velocity, torque and temperature, each
/// under its own unit.
pub proof fn law_log_line_tells_the_outcome(cmd: Command, outcome: Outcome)
    ensures
        cmd.label_text().is_prefix_of(outcome_line(cmd, outcome)),
        ({
            let tail = outcome_line(cmd, outcome).skip(cmd.label_text().len() as int);
            match outcome {
                Outcome::Failed(e) => tail == " FAILED: "@ + e@,
                Outcome::Done | Outcome::Found { .. } => tail == " OK"@,
                Outcome::Feedback(f) => tail == " OK  pos="@ + (f.position@ + (" rad  vel="@ + (
                f.velocity@ + (" rad/s  τ="@ + (f.torque@ + (" Nm  T="@ + (f.temperature@
                    + "°C"@))))))),
            }
        }),
{
    let label = cmd.label_text();
    let line = outcome_line(cmd, outcome);
    match outcome {
        Outcome::Failed(e) => {
            assert(line =~= label + (" FAILED: "@ + e@));
            assert(line.skip(label.len() as int) =~= " FAILED: "@ + e@);
        },
        Outcome::Done | Outcome::Found { .. } => {
            assert(line.skip(label.len() as int) =~= " OK"@);
        },
        Outcome::Feedback(f) => {
            let tail = " OK  pos="@ + (f.position@ + (" rad  vel="@ + (f.velocity@ + (" rad/s  τ="@
                + (f.torque@ + (" Nm  T="@ + (f.temperature@ + "°C"@)))))));
            assert(line =~= label + tail);
            assert(line.skip(label.len() as int) =~= tail);
        },
    }
}

/// What a scan found is told motor by motor, in the order in which it found them, after
/// a line with their number; a scan that found none tells its range.
pub proof fn law_found_motors_are_told(lo: u8, hi: u8, ids: Vec<u8>, i: int)
    ensures
        ids@.len() == 0 ==> outcome_extra(Outcome::Found { lo, hi, ids }) == seq![
            "  no motors found in "@ + text::dec(lo as nat) + "..="@ + text::dec(hi as nat),
        ],
        ids@.len() > 0 ==> outcome_extra(Outcome::Found { lo, hi, ids }).len() == 1 + ids@.len(),
        ids@.len() > 0 ==> outcome_extra(Outcome::Found { lo, hi, ids })[0] == "  found "@
            + text::dec(ids@.len()) + " motor(s):"@,
        0 <= i < ids@.len() ==> outcome_extra(Outcome::Found { lo, hi, ids })[i + 1] == "    id="@
            + text::dec(ids@[i] as nat),
{
}

/// The parameters of a command are listed in the order in which its call takes them.
pub proof fn law_order_of_the_parameters()
    ensures
        fields_for(Command::MitControl).map_values(|f: FieldView| f.name) == seq![
            "pos"@,
            "vel"@,
            "kp"@,
            "kd"@,
            "torque_ff"@,
        ],
        fields_for(Command::SetPosition).map_values(|f: FieldView| f.name) == seq![
            "pos"@,
            "max_speed"@,
        ],
        fields_for(Command::Scan).map_values(|f: FieldView| f.name) == seq![
            "from"@,
            "to"@,
            "timeout_ms"@,
        ],
        fields_for(Command::SetVelocity).map_values(|f: FieldView| f.name) == seq!["vel"@],
        fields_for(Command::SetTorque).map_values(|f: FieldView| f.name) == seq!["torque"@],
{
    assert(fields_for(Command::MitControl).map_values(|f: FieldView| f.name) =~= seq![
        "pos"@,
        "vel"@,
        "kp"@,
        "kd"@,
        "torque_ff"@,
    ]);
    assert(fields_for(Command::SetPosition).map_values(|f: FieldView| f.name) =~= seq![
        "pos"@,
        "max_speed"@,
    ]);
    assert(fields_for(Command::Scan).map_values(|f: FieldView| f.name) =~= seq![
        "from"@,
        "to"@,
        "timeout_ms"@,
    ]);
    assert(fields_for(Command::SetVelocity).map_values(|f: FieldView| f.name) =~= seq!["vel"@]);
    assert(fields_for(Command::SetTorque).map_values(|f: FieldView| f.name) =~= seq!["torque"@]);
}

/// The starting values of a scan are ids 1 to 32 at 50 ms each.
pub proof fn law_starting_values_of_a_scan()
    ensures
        fields_for(Command::Scan)[0].value == "1"@,
        fields_for(Command::Scan)[1].value == "32"@,
        fields_for(Command::Scan)[2].value == "50"@,
{
}

} // verus!
