//! What the command-line tool for DAMIAO motors does for each of its commands: a
//! list of steps, which whoever owns the motor and the terminal carries out in
//! order, stopping at the first that fails.
use crate::damiao::feedback::{ErrorCode, Feedback};
use crate::damiao::register::{ControlMode, Rid};
use crate::text;
use vstd::prelude::*;
use vstd::string::*;

verus! {

/// A command of the tool. The quantities of motion commands are not needed to
/// tell the steps.
pub enum Command {
    /// Probe ids.
    Scan { from: u8, to: u8 },
    Enable,
    Disable,
    /// Zero the current position, in flash or in memory only.
    Zero { nvm: bool },
    ClearError,
    Status,
    /// Impedance control.
    Mit,
    /// Move to a position.
    MoveTo,
    /// Turn at a velocity.
    Spin,
    /// Show the configuration registers.
    Info,
    /// Assign ids.
    SetId { new_can_id: Option<u8>, new_master_id: Option<u16>, no_save: bool },
    /// Read a register.
    RegRead { rid: u8 },
    /// Write a register: `int_value` as an integer, or the number that
    /// `value_text` writes out.
    RegWrite { rid: u8, int_value: i32, value_text: String, integer: bool, save: bool },
}

/// A control command that is sent over and over.
#[derive(Debug, Clone, Copy, PartialEq, Eq, Structural)]
pub enum Motion {
    Mit,
    PosVel,
    Vel,
}

/// A step.
#[derive(Debug)]
pub enum Step {
    /// Write a line to the output.
    Print(String),
    /// Write a line to the error output.
    Note(String),
    /// Scan and show what [`scan_lines`] says.
    Scan { from: u8, to: u8 },
    /// Enable the motor and, where asked, show what [`enabled_line`] says.
    Enable { report: bool },
    Disable,
    /// Store the zero in flash.
    StoreZero,
    SwitchMode(ControlMode),
    /// Measure, and keep the outcome for later.
    TakeSoftZero,
    /// Fail if the measurement failed; else make it the zero and show it.
    SettleSoftZero,
    ClearError,
    /// Measure and show what [`fmt_fb`] says.
    ShowStatus,
    /// Send a control command until the time is over.
    Loop(Motion),
    /// Read a register and show what [`info_line`] says, also where it fails.
    ShowRegister { label: &'static str, rid: u8, integer: bool },
    /// Read a register and show what [`register_line`] says.
    ReadRegister { rid: u8 },
    WriteInt { rid: u8, value: i32 },
    WriteFloat { rid: u8 },
    /// Read a register and show it, if it can be read.
    ReadBack { rid: u8 },
    /// Save all registers to flash.
    Save,
}

/// A step by its texts.
pub enum StepView {
    Print(Seq<char>),
    Note(Seq<char>),
    Scan { from: u8, to: u8 },
    Enable { report: bool },
    Disable,
    StoreZero,
    SwitchMode(ControlMode),
    TakeSoftZero,
    SettleSoftZero,
    ClearError,
    ShowStatus,
    Loop(Motion),
    ShowRegister { label: Seq<char>, rid: u8, integer: bool },
    ReadRegister { rid: u8 },
    WriteInt { rid: u8, value: i32 },
    WriteFloat { rid: u8 },
    ReadBack { rid: u8 },
    Save,
}

impl View for Step {
    type V = StepView;

    open spec fn view(&self) -> StepView {
        match self {
            Step::Print(s) => StepView::Print(s@),
            Step::Note(s) => StepView::Note(s@),
            Step::Scan { from, to } => StepView::Scan { from: *from, to: *to },
            Step::Enable { report } => StepView::Enable { report: *report },
            Step::Disable => StepView::Disable,
            Step::StoreZero => StepView::StoreZero,
            Step::SwitchMode(m) => StepView::SwitchMode(*m),
            Step::TakeSoftZero => StepView::TakeSoftZero,
            Step::SettleSoftZero => StepView::SettleSoftZero,
            Step::ClearError => StepView::ClearError,
            Step::ShowStatus => StepView::ShowStatus,
            Step::Loop(m) => StepView::Loop(*m),
            Step::ShowRegister { label, rid, integer } => StepView::ShowRegister {
                label: label@,
                rid: *rid,
                integer: *integer,
            },
            Step::ReadRegister { rid } => StepView::ReadRegister { rid: *rid },
            Step::WriteInt { rid, value } => StepView::WriteInt { rid: *rid, value: *value },
            Step::WriteFloat { rid } => StepView::WriteFloat { rid: *rid },
            Step::ReadBack { rid } => StepView::ReadBack { rid: *rid },
            Step::Save => StepView::Save,
        }
    }
}

/// Steps by their texts.
pub open spec fn steps_view(steps: Seq<Step>) -> Seq<StepView> {
    steps.map_values(|s: Step| s@)
}

/// The id that a motor will listen on.
pub open spec fn target_id(motor_id: u8, new_can_id: Option<u8>) -> u8 {
    match new_can_id {
        Some(id) => id,
        None => motor_id,
    }
}

/// The id that a motor will answer on: by convention `0x10` above the one that it
/// listens on.
pub open spec fn target_master(target: u8, new_master_id: Option<u16>) -> u16 {
    match new_master_id {
        Some(id) => id,
        None => (0x10 + target) as u16,
    }
}

/// What is said before ids are assigned.
pub open spec fn assigning_text(motor_id: u8, master: u16, new_can_id: Option<u8>) -> Seq<char> {
    "assigning (addressed at CAN_ID "@ + text::dec(motor_id as nat) + "): MST_ID=0x"@ + text::hex(
        master as nat,
        1,
    ) + (match new_can_id {
        Some(c) => ", CAN_ID="@ + text::dec(c as nat),
        None => Seq::empty(),
    })
}

/// The steps of assigning ids: the id to answer on is written first, the id to
/// listen on last; then they are saved, unless that is not wanted.
pub open spec fn set_id_steps(
    motor_id: u8,
    interface: Seq<char>,
    new_can_id: Option<u8>,
    new_master_id: Option<u16>,
    no_save: bool,
) -> Seq<StepView> {
    let target = target_id(motor_id, new_can_id);
    let master = target_master(target, new_master_id);
    seq![
        StepView::Print(assigning_text(motor_id, master, new_can_id)),
        StepView::WriteInt { rid: Rid::MST_ID, value: master as i32 },
    ] + (match new_can_id {
        Some(c) => seq![StepView::WriteInt { rid: Rid::ESC_ID, value: c as i32 }],
        None => Seq::empty(),
    }) + (if no_save {
        seq![
            StepView::Note(
                "note: --no-save — changes are in RAM only and will be lost on power-cycle"@,
            ),
        ]
    } else {
        seq![StepView::Save, StepView::Print("saved to flash."@)]
    }) + seq![
        StepView::Print(
            "\nNEXT: power-cycle the motor, then address it with:\n  -m "@ + text::dec(
                target as nat,
            ) + " --master-id "@ + text::dec(master as nat),
        ),
        StepView::Print(
            "verify with:  damiao-cli -i "@ + interface + " -m "@ + text::dec(target as nat)
                + " info"@,
        ),
    ]
}

/// The steps of writing a register.
pub open spec fn reg_write_steps(
    rid: u8,
    int_value: i32,
    value_text: Seq<char>,
    integer: bool,
    save: bool,
) -> Seq<StepView> {
    (if integer {
        seq![
            StepView::WriteInt { rid, value: int_value },
            StepView::Print(
                "wrote RID "@ + text::dec(rid as nat) + " = "@ + text::dec_int(int_value as int)
                    + " (int)"@,
            ),
        ]
    } else {
        seq![
            StepView::WriteFloat { rid },
            StepView::Print(
                "wrote RID "@ + text::dec(rid as nat) + " = "@ + value_text + " (f32)"@,
            ),
        ]
    }) + (if save {
        seq![
            StepView::ReadBack { rid },
            StepView::Save,
            StepView::Print("saved to flash."@),
            StepView::Note(
                "note: CAN_ID/MST_ID changes take effect only after a power cycle"@,
            ),
        ]
    } else {
        Seq::empty()
    })
}

/// The steps of showing the configuration registers.
pub open spec fn info_steps(motor_id: u8) -> Seq<StepView> {
    seq![
        StepView::Print(
            "motor config (addressed at CAN_ID "@ + text::dec(motor_id as nat) + "):"@,
        ),
        StepView::ShowRegister { label: "CAN_ID (ESC_ID)"@, rid: Rid::ESC_ID, integer: true },
        StepView::ShowRegister { label: "MST_ID"@, rid: Rid::MST_ID, integer: true },
        StepView::ShowRegister { label: "CTRL_MODE"@, rid: Rid::CTRL_MODE, integer: true },
        StepView::ShowRegister { label: "PMAX"@, rid: Rid::PMAX, integer: false },
        StepView::ShowRegister { label: "VMAX"@, rid: Rid::VMAX, integer: false },
        StepView::ShowRegister { label: "TMAX"@, rid: Rid::TMAX, integer: false },
    ]
}

/// The steps of a motion command: into its mode, on, going, off.
pub open spec fn motion_steps(motion: Motion) -> Seq<StepView> {
    seq![
        StepView::SwitchMode(mode_of(motion)),
        StepView::Enable { report: false },
        StepView::Loop(motion),
        StepView::Disable,
    ]
}

/// The mode that a control command needs.
pub open spec fn mode_of(motion: Motion) -> ControlMode {
    match motion {
        Motion::Mit => ControlMode::Mit,
        Motion::PosVel => ControlMode::PosVel,
        Motion::Vel => ControlMode::Vel,
    }
}

/// The steps of a command; none for a scan of an empty range, which is refused.
pub open spec fn steps_of(cmd: Command, motor_id: u8, interface: Seq<char>) -> Option<
    Seq<StepView>,
> {
    match cmd {
        Command::Scan { from, to } => if to < from {
            None
        } else {
            Some(
                seq![
                    StepView::Print(
                        "scanning CAN_IDs "@ + text::dec(from as nat) + "..="@ + text::dec(
                            to as nat,
                        ) + " on "@ + interface + " ..."@,
                    ),
                    StepView::Scan { from, to },
                ],
            )
        },
        Command::Enable => Some(seq![StepView::Enable { report: true }]),
        Command::Disable => Some(seq![StepView::Disable, StepView::Print("disabled."@)]),
        Command::Zero { nvm } => if nvm {
            Some(
                seq![
                    StepView::StoreZero,
                    StepView::Print("zero written to motor NVM (flash)."@),
                ],
            )
        } else {
            Some(
                seq![
                    StepView::SwitchMode(ControlMode::Mit),
                    StepView::Enable { report: false },
                    StepView::TakeSoftZero,
                    StepView::Disable,
                    StepView::SettleSoftZero,
                ],
            )
        },
        Command::ClearError => Some(
            seq![StepView::ClearError, StepView::Print("clear-error frame (FF..FB) sent."@)],
        ),
        Command::Status => Some(seq![StepView::ShowStatus]),
        Command::Mit => Some(motion_steps(Motion::Mit)),
        Command::MoveTo => Some(motion_steps(Motion::PosVel)),
        Command::Spin => Some(motion_steps(Motion::Vel)),
        Command::Info => Some(info_steps(motor_id)),
        Command::SetId { new_can_id, new_master_id, no_save } => Some(
            set_id_steps(motor_id, interface, new_can_id, new_master_id, no_save),
        ),
        Command::RegRead { rid } => Some(seq![StepView::ReadRegister { rid }]),
        Command::RegWrite { rid, int_value, value_text, integer, save } => Some(
            reg_write_steps(rid, int_value, value_text@, integer, save),
        ),
    }
}

/// No command but the one that enables leaves a motor enabled: wherever a motor
/// is enabled on the way, it is disabled later.
pub proof fn law_motors_are_left_disabled(
    cmd: Command,
    motor_id: u8,
    interface: Seq<char>,
    i: int,
)
    requires
        steps_of(cmd, motor_id, interface) matches Some(steps) && 0 <= i < steps.len() && (steps[i]
            matches StepView::Enable { report } && !report),
    ensures
        exists|j: int|
            i < j < steps_of(cmd, motor_id, interface).unwrap().len()
                && #[trigger] steps_of(cmd, motor_id, interface).unwrap()[j] == StepView::Disable,
{
    let steps = steps_of(cmd, motor_id, interface).unwrap();
    if cmd is Zero || cmd is Mit || cmd is MoveTo || cmd is Spin {
        assert(i == 1);
        assert(steps[3] == StepView::Disable);
    }
}

/// A control command only ever goes out in its own mode, with the motor enabled
/// just before.
pub proof fn law_motion_comes_prepared(
    cmd: Command,
    motor_id: u8,
    interface: Seq<char>,
    i: int,
    motion: Motion,
)
    requires
        steps_of(cmd, motor_id, interface) matches Some(steps) && 0 <= i < steps.len() && steps[i]
            == StepView::Loop(motion),
    ensures
        i == 2,
        steps_of(cmd, motor_id, interface).unwrap()[0] == StepView::SwitchMode(mode_of(motion)),
        steps_of(cmd, motor_id, interface).unwrap()[1] == (StepView::Enable { report: false }),
{
    let steps = steps_of(cmd, motor_id, interface).unwrap();
    assert(steps[i] is Loop);
}

/// Ids that are assigned by convention keep motors apart: different ids to listen
/// on give different ids to answer on, and none of those takes feedback of any
/// motor.
pub proof fn law_id_convention_separates_motors(a: u8, b: u8)
    ensures
        target_master(a, None) == target_master(b, None) ==> a == b,
        target_master(a, None) != 0,
        target_master(a, None) <= 0x7FF,
{
}

/// The steps of assigning ids.
fn plan_set_id(
    motor_id: u8,
    interface: &str,
    new_can_id: Option<u8>,
    new_master_id: Option<u16>,
    no_save: bool,
) -> (r: Vec<Step>)
    ensures
        steps_view(r@) == set_id_steps(motor_id, interface@, new_can_id, new_master_id, no_save),
{
    let target: u8 = match new_can_id {
        Some(id) => id,
        None => motor_id,
    };
    let master: u16 = match new_master_id {
        Some(id) => id,
        None => 0x10 + target as u16,
    };
    let mut steps: Vec<Step> = Vec::new();
    let mut line: String = String::new();
    line.append("assigning (addressed at CAN_ID ");
    text::push_dec(&mut line, motor_id as u64);
    line.append("): MST_ID=0x");
    text::push_hex(&mut line, master as u64, 1);
    if let Some(c) = new_can_id {
        line.append(", CAN_ID=");
        text::push_dec(&mut line, c as u64);
    }
    assert(line@ =~= assigning_text(motor_id, master, new_can_id));
    steps.push(Step::Print(line));
    steps.push(Step::WriteInt { rid: Rid::MST_ID, value: master as i32 });
    if let Some(c) = new_can_id {
        steps.push(Step::WriteInt { rid: Rid::ESC_ID, value: c as i32 });
    }
    if no_save {
        steps.push(
            Step::Note(
                "note: --no-save — changes are in RAM only and will be lost on power-cycle".to_owned(),
            ),
        );
    } else {
        steps.push(Step::Save);
        steps.push(Step::Print("saved to flash.".to_owned()));
    }
    let mut next: String = String::new();
    next.append("\nNEXT: power-cycle the motor, then address it with:\n  -m ");
    text::push_dec(&mut next, target as u64);
    next.append(" --master-id ");
    text::push_dec(&mut next, master as u64);
    assert(next@ =~= "\nNEXT: power-cycle the motor, then address it with:\n  -m "@ + text::dec(
        target as nat,
    ) + " --master-id "@ + text::dec(master as nat));
    steps.push(Step::Print(next));
    let mut verify: String = String::new();
    verify.append("verify with:  damiao-cli -i ");
    verify.append(interface);
    verify.append(" -m ");
    text::push_dec(&mut verify, target as u64);
    verify.append(" info");
    assert(verify@ =~= "verify with:  damiao-cli -i "@ + interface@ + " -m "@ + text::dec(
        target as nat,
    ) + " info"@);
    steps.push(Step::Print(verify));
    assert(steps_view(steps@) =~= set_id_steps(
        motor_id,
        interface@,
        new_can_id,
        new_master_id,
        no_save,
    ));
    steps
}

/// The steps of writing a register.
fn plan_reg_write(rid: u8, int_value: i32, value_text: &str, integer: bool, save: bool) -> (r: Vec<
    Step,
>)
    ensures
        steps_view(r@) == reg_write_steps(rid, int_value, value_text@, integer, save),
{
    let mut steps: Vec<Step> = Vec::new();
    let mut line: String = String::new();
    line.append("wrote RID ");
    text::push_dec(&mut line, rid as u64);
    line.append(" = ");
    if integer {
        text::push_int(&mut line, int_value as i64);
        line.append(" (int)");
        assert(line@ =~= "wrote RID "@ + text::dec(rid as nat) + " = "@ + text::dec_int(
            int_value as int,
        ) + " (int)"@);
        steps.push(Step::WriteInt { rid, value: int_value });
    } else {
        line.append(value_text);
        line.append(" (f32)");
        assert(line@ =~= "wrote RID "@ + text::dec(rid as nat) + " = "@ + value_text@ + " (f32)"@);
        steps.push(Step::WriteFloat { rid });
    }
    steps.push(Step::Print(line));
    if save {
        steps.push(Step::ReadBack { rid });
        steps.push(Step::Save);
        steps.push(Step::Print("saved to flash.".to_owned()));
        steps.push(
            Step::Note(
                "note: CAN_ID/MST_ID changes take effect only after a power cycle".to_owned(),
            ),
        );
    }
    assert(steps_view(steps@) =~= reg_write_steps(rid, int_value, value_text@, integer, save));
    steps
}

/// The steps of showing the configuration registers.
fn plan_info(motor_id: u8) -> (r: Vec<Step>)
    ensures
        steps_view(r@) == info_steps(motor_id),
{
    let mut steps: Vec<Step> = Vec::new();
    let mut line: String = String::new();
    line.append("motor config (addressed at CAN_ID ");
    text::push_dec(&mut line, motor_id as u64);
    line.append("):");
    assert(line@ =~= "motor config (addressed at CAN_ID "@ + text::dec(motor_id as nat) + "):"@);
    steps.push(Step::Print(line));
    steps.push(Step::ShowRegister { label: "CAN_ID (ESC_ID)", rid: Rid::ESC_ID, integer: true });
    steps.push(Step::ShowRegister { label: "MST_ID", rid: Rid::MST_ID, integer: true });
    steps.push(Step::ShowRegister { label: "CTRL_MODE", rid: Rid::CTRL_MODE, integer: true });
    steps.push(Step::ShowRegister { label: "PMAX", rid: Rid::PMAX, integer: false });
    steps.push(Step::ShowRegister { label: "VMAX", rid: Rid::VMAX, integer: false });
    steps.push(Step::ShowRegister { label: "TMAX", rid: Rid::TMAX, integer: false });
    assert(steps_view(steps@) =~= info_steps(motor_id));
    steps
}

/// The steps of a motion command.
fn plan_motion(motion: Motion) -> (r: Vec<Step>)
    ensures
        steps_view(r@) == motion_steps(motion),
{
    let mut steps: Vec<Step> = Vec::new();
    steps.push(
        Step::SwitchMode(
            match motion {
                Motion::Mit => ControlMode::Mit,
                Motion::PosVel => ControlMode::PosVel,
                Motion::Vel => ControlMode::Vel,
            },
        ),
    );
    steps.push(Step::Enable { report: false });
    steps.push(Step::Loop(motion));
    steps.push(Step::Disable);
    assert(steps_view(steps@) =~= motion_steps(motion));
    steps
}

/// The steps of a command, for the motor that is addressed at `motor_id` on
/// `interface`.
pub fn run(cmd: &Command, motor_id: u8, interface: &str) -> (r: Result<Vec<Step>, &'static str>)
    ensures
        match r {
            Ok(steps) => steps_of(*cmd, motor_id, interface@) == Some(steps_view(steps@)),
            Err(e) => steps_of(*cmd, motor_id, interface@) is None && e@
                == "--to must be >= --from"@,
        },
{
    let mut steps: Vec<Step> = Vec::new();
    match cmd {
        Command::Scan { from, to } => {
            if *to < *from {
                return Err("--to must be >= --from");
            }
            let mut line: String = String::new();
            line.append("scanning CAN_IDs ");
            text::push_dec(&mut line, *from as u64);
            line.append("..=");
            text::push_dec(&mut line, *to as u64);
            line.append(" on ");
            line.append(interface);
            line.append(" ...");
            assert(line@ =~= "scanning CAN_IDs "@ + text::dec(*from as nat) + "..="@ + text::dec(
                *to as nat,
            ) + " on "@ + interface@ + " ..."@);
            steps.push(Step::Print(line));
            steps.push(Step::Scan { from: *from, to: *to });
        },
        Command::Enable => {
            steps.push(Step::Enable { report: true });
        },
        Command::Disable => {
            steps.push(Step::Disable);
            steps.push(Step::Print("disabled.".to_owned()));
        },
        Command::Zero { nvm } => {
            if *nvm {
                steps.push(Step::StoreZero);
                steps.push(Step::Print("zero written to motor NVM (flash).".to_owned()));
            } else {
                steps.push(Step::SwitchMode(ControlMode::Mit));
                steps.push(Step::Enable { report: false });
                steps.push(Step::TakeSoftZero);
                steps.push(Step::Disable);
                steps.push(Step::SettleSoftZero);
            }
        },
        Command::ClearError => {
            steps.push(Step::ClearError);
            steps.push(Step::Print("clear-error frame (FF..FB) sent.".to_owned()));
        },
        Command::Status => {
            steps.push(Step::ShowStatus);
        },
        Command::Mit => {
            steps = plan_motion(Motion::Mit);
        },
        Command::MoveTo => {
            steps = plan_motion(Motion::PosVel);
        },
        Command::Spin => {
            steps = plan_motion(Motion::Vel);
        },
        Command::Info => {
            steps = plan_info(motor_id);
        },
        Command::SetId { new_can_id, new_master_id, no_save } => {
            steps = plan_set_id(motor_id, interface, *new_can_id, *new_master_id, *no_save);
        },
        Command::RegRead { rid } => {
            steps.push(Step::ReadRegister { rid: *rid });
        },
        Command::RegWrite { rid, int_value, value_text, integer, save } => {
            steps = plan_reg_write(*rid, *int_value, value_text.as_str(), *integer, *save);
        },
    }
    assert(steps_view(steps@) =~= steps_of(*cmd, motor_id, interface@).unwrap());
    Ok(steps)
}

/// The line about a motor that answered.
pub open spec fn responded_text(id: u8) -> Seq<char> {
    "  motor CAN_ID "@ + text::dec(id as nat) + " (0x"@ + text::hex(id as nat, 2) + ") responded"@
}

/// What is said of a scan.
pub open spec fn scan_texts(found: Seq<u8>) -> Seq<Seq<char>> {
    if found.len() == 0 {
        seq!["no motors responded"@]
    } else {
        found.map_values(|id: u8| responded_text(id))
    }
}

/// What is said of a scan.
pub fn scan_lines(found: &Vec<u8>) -> (r: Vec<String>)
    ensures
        text::texts(r@) == scan_texts(found@),
{
    let mut lines: Vec<String> = Vec::new();
    if found.len() == 0 {
        lines.push("no motors responded".to_owned());
        assert(text::texts(lines@) =~= scan_texts(found@));
        return lines;
    }
    let mut i: usize = 0;
    while i < found.len()
        invariant
            i <= found.len(),
            lines.len() == i,
            forall|j: int| 0 <= j < i ==> (#[trigger] lines@[j])@ == responded_text(found@[j]),
        decreases found.len() - i,
    {
        let id: u8 = found[i];
        let mut line: String = String::new();
        line.append("  motor CAN_ID ");
        text::push_dec(&mut line, id as u64);
        line.append(" (0x");
        text::push_hex(&mut line, id as u64, 2);
        line.append(") responded");
        assert(line@ =~= responded_text(id));
        lines.push(line);
        i = i + 1;
    }
    assert(text::texts(lines@) =~= scan_texts(found@));
    lines
}

/// What is said of an enabled motor, with its feedback where there is any.
pub fn enabled_line(feedback: Option<&str>) -> (r: String)
    ensures
        r@ == "enabled. "@ + (match feedback {
            Some(fb) => fb@,
            None => "(no feedback)"@,
        }),
{
    let mut line: String = String::new();
    line.append("enabled. ");
    match feedback {
        Some(fb) => line.append(fb),
        None => line.append("(no feedback)"),
    }
    assert(line@ =~= "enabled. "@ + (match feedback {
        Some(fb) => fb@,
        None => "(no feedback)"@,
    }));
    line
}

/// A row of the configuration registers: label, number and value.
pub open spec fn info_text(label: Seq<char>, rid: u8, value: Seq<char>) -> Seq<char> {
    "  "@ + text::left_aligned(label, 16) + " (RID "@ + text::right_aligned(
        text::dec(rid as nat),
        2,
    ) + ") = "@ + value
}

/// A row of the configuration registers; where there is no value, why.
pub fn info_line(label: &str, rid: u8, value: Result<&str, &str>) -> (r: String)
    ensures
        r@ == info_text(
            label@,
            rid,
            match value {
                Ok(v) => v@,
                Err(e) => "<no reply: "@ + e@ + ">"@,
            },
        ),
{
    let mut line: String = String::new();
    line.append("  ");
    text::push_left_aligned(&mut line, label, 16);
    line.append(" (RID ");
    text::push_right_aligned(&mut line, text::dec_string(rid as u64).as_str(), 2);
    line.append(") = ");
    match value {
        Ok(v) => line.append(v),
        Err(e) => {
            line.append("<no reply: ");
            line.append(e);
            line.append(">");
        },
    }
    assert(line@ =~= info_text(
        label@,
        rid,
        match value {
            Ok(v) => v@,
            Err(e) => "<no reply: "@ + e@ + ">"@,
        },
    ));
    line
}

/// What is said of a register that was read: an integer, or a number written out.
pub fn register_line(rid: u8, int_value: i32, float_text: &str) -> (r: String)
    ensures
        r@ == "RID "@ + text::dec(rid as nat) + " = "@ + (if crate::damiao::register::holds_int(
            rid,
        ) {
            text::dec_int(int_value as int) + " (int)"@
        } else {
            float_text@ + " (f32)"@
        }),
{
    let mut line: String = String::new();
    line.append("RID ");
    text::push_dec(&mut line, rid as u64);
    line.append(" = ");
    if Rid::is_int(rid) {
        text::push_int(&mut line, int_value as i64);
        line.append(" (int)");
    } else {
        line.append(float_text);
        line.append(" (f32)");
    }
    assert(line@ =~= "RID "@ + text::dec(rid as nat) + " = "@ + (
    if crate::damiao::register::holds_int(rid) {
        text::dec_int(int_value as int) + " (int)"@
    } else {
        float_text@ + " (f32)"@
    }));
    line
}

/// The name of a status code.
pub open spec fn code_text(err: ErrorCode) -> Seq<char> {
    match err {
        ErrorCode::Disabled => "Disabled"@,
        ErrorCode::Enabled => "Enabled"@,
        ErrorCode::OverVoltage => "OverVoltage"@,
        ErrorCode::UnderVoltage => "UnderVoltage"@,
        ErrorCode::OverCurrent => "OverCurrent"@,
        ErrorCode::MosOverTemp => "MosOverTemp"@,
        ErrorCode::CoilOverTemp => "CoilOverTemp"@,
        ErrorCode::CommLost => "CommLost"@,
        ErrorCode::Overload => "Overload"@,
        ErrorCode::Unknown(v) => "Unknown("@ + text::dec(v as nat) + ")"@,
    }
}

/// What is said of feedback, its quantities written out.
pub open spec fn feedback_text(
    fb: Feedback,
    position: Seq<char>,
    velocity: Seq<char>,
    torque: Seq<char>,
) -> Seq<char> {
    "id="@ + text::dec(fb.motor_id as nat) + " pos="@ + position + " rad  vel="@ + velocity
        + " rad/s  tau="@ + torque + " Nm  T_mos="@ + text::dec(fb.t_mos as nat) + "°C  T_rotor="@
        + text::dec(fb.t_rotor as nat) + "°C  err="@ + code_text(fb.err)
}

/// What is said of feedback.
pub fn fmt_fb(fb: &Feedback, position: &str, velocity: &str, torque: &str) -> (r: String)
    ensures
        r@ == feedback_text(*fb, position@, velocity@, torque@),
{
    let mut line: String = String::new();
    line.append("id=");
    text::push_dec(&mut line, fb.motor_id as u64);
    line.append(" pos=");
    line.append(position);
    line.append(" rad  vel=");
    line.append(velocity);
    line.append(" rad/s  tau=");
    line.append(torque);
    line.append(" Nm  T_mos=");
    text::push_dec(&mut line, fb.t_mos as u64);
    line.append("°C  T_rotor=");
    text::push_dec(&mut line, fb.t_rotor as u64);
    line.append("°C  err=");
    let ghost head = line@;
    match fb.err {
        ErrorCode::Disabled => line.append("Disabled"),
        ErrorCode::Enabled => line.append("Enabled"),
        ErrorCode::OverVoltage => line.append("OverVoltage"),
        ErrorCode::UnderVoltage => line.append("UnderVoltage"),
        ErrorCode::OverCurrent => line.append("OverCurrent"),
        ErrorCode::MosOverTemp => line.append("MosOverTemp"),
        ErrorCode::CoilOverTemp => line.append("CoilOverTemp"),
        ErrorCode::CommLost => line.append("CommLost"),
        ErrorCode::Overload => line.append("Overload"),
        ErrorCode::Unknown(v) => {
            line.append("Unknown(");
            text::push_dec(&mut line, v as u64);
            line.append(")");
        },
    }
    assert(line@ =~= head + code_text(fb.err));
    assert(line@ =~= feedback_text(*fb, position@, velocity@, torque@));
    line
}

/// Whether a control loop sends once more: not after it was interrupted, nor when
/// its time is over, if it has any.
pub fn loop_goes_on(running: bool, timed: bool, time_over: bool) -> (r: bool)
    ensures
        r == (running && !(timed && time_over)),
{
    running && !(timed && time_over)
}

/// What a control loop does after sending.
#[derive(Debug, Clone, Copy, PartialEq, Eq, Structural)]
pub enum AfterSend {
    /// Show the feedback.
    Show,
    /// Go on.
    Quiet,
    /// Show the failure and stop.
    Stop,
}

/// What a control loop does after sending: feedback is shown now and then, a
/// failure ends the loop.
pub fn after_send(failed: bool, show_due: bool) -> (r: AfterSend)
    ensures
        r == (if failed {
            AfterSend::Stop
        } else if show_due {
            AfterSend::Show
        } else {
            AfterSend::Quiet
        }),
{
    if failed {
        AfterSend::Stop
    } else if show_due {
        AfterSend::Show
    } else {
        AfterSend::Quiet
    }
}

/// The master id that a motor is given: the one that was asked for, or 16 above the
/// id that it will have.
pub open spec fn is_assigned_master(
    master: int,
    motor_id: u8,
    new_can_id: Option<u8>,
    new_master_id: Option<u16>,
) -> bool {
    match (new_master_id, new_can_id) {
        (Some(id), _) => master == id,
        (None, Some(c)) => master == 16 + c,
        (None, None) => master == 16 + motor_id,
    }
}

/// Whatever a plan writes, stores, scans or moves is what was asked for: no plan
/// writes a register, the flash or a zero, or turns a motor, unless its command is
/// to do that, and then with the values of the command.
pub proof fn law_plans_do_only_what_was_asked(
    cmd: Command,
    motor_id: u8,
    interface: Seq<char>,
    i: int,
)
    requires
        steps_of(cmd, motor_id, interface) is Some,
        0 <= i < steps_of(cmd, motor_id, interface)->Some_0.len(),
    ensures
        match steps_of(cmd, motor_id, interface)->Some_0[i] {
            StepView::WriteInt { rid, value } => match cmd {
                Command::RegWrite { rid: asked, int_value, integer, .. } => integer && rid == asked
                    && value == int_value,
                Command::SetId { new_can_id, new_master_id, .. } => (rid == 7 && is_assigned_master(
                    value as int,
                    motor_id,
                    new_can_id,
                    new_master_id,
                )) || (rid == 8 && (new_can_id matches Some(c) && value == c)),
                _ => false,
            },
            StepView::WriteFloat { rid } => cmd matches Command::RegWrite {
                rid: asked,
                integer,
                ..
            } && !integer && rid == asked,
            StepView::Save => match cmd {
                Command::RegWrite { save, .. } => save,
                Command::SetId { no_save, .. } => !no_save,
                _ => false,
            },
            StepView::StoreZero => cmd matches Command::Zero { nvm } && nvm,
            StepView::TakeSoftZero | StepView::SettleSoftZero => cmd matches Command::Zero { nvm }
                && !nvm,
            StepView::Scan { from, to } => cmd matches Command::Scan { from: a, to: b } && from == a
                && to == b && from <= to,
            StepView::ClearError => cmd is ClearError,
            StepView::Loop(motion) => match motion {
                Motion::Mit => cmd is Mit,
                Motion::PosVel => cmd is MoveTo,
                Motion::Vel => cmd is Spin,
            },
            StepView::SwitchMode(mode) => match mode {
                ControlMode::Mit => cmd is Mit || cmd is Zero,
                ControlMode::PosVel => cmd is MoveTo,
                ControlMode::Vel => cmd is Spin,
                ControlMode::ForcePos => false,
            },
            StepView::Enable { .. } => cmd is Enable || cmd is Mit || cmd is MoveTo || cmd is Spin
                || cmd is Zero,
            StepView::Disable => cmd is Disable || cmd is Mit || cmd is MoveTo || cmd is Spin
                || cmd is Zero,
            StepView::ReadRegister { rid } => cmd matches Command::RegRead { rid: asked } && rid
                == asked,
            StepView::ReadBack { rid } => cmd matches Command::RegWrite { rid: asked, save, .. }
                && save && rid == asked,
            StepView::ShowRegister { rid, integer, .. } => cmd is Info && integer
                == crate::damiao::register::holds_int(rid),
            StepView::ShowStatus => cmd is Status,
            StepView::Print(_) | StepView::Note(_) => true,
        },
{
    crate::damiao::register::law_registers_that_hold_integers(0);
}

/// And what was asked for is in the plan: the write with its value, the assignment
/// of every id that was given, the save, the scan, the zero, the motion in its mode.
pub proof fn law_plans_do_what_was_asked(cmd: Command, motor_id: u8, interface: Seq<char>)
    ensures
        steps_of(cmd, motor_id, interface) is None <==> (cmd matches Command::Scan { from, to }
            && to < from),
        steps_of(cmd, motor_id, interface) matches Some(steps) ==> match cmd {
            Command::Scan { from, to } => steps.contains(StepView::Scan { from, to }),
            Command::Enable => steps.contains(StepView::Enable { report: true }),
            Command::Disable => steps.contains(StepView::Disable),
            Command::Zero { nvm } => if nvm {
                steps.contains(StepView::StoreZero)
            } else {
                steps == seq![
                    StepView::SwitchMode(ControlMode::Mit),
                    StepView::Enable { report: false },
                    StepView::TakeSoftZero,
                    StepView::Disable,
                    StepView::SettleSoftZero,
                ]
            },
            Command::ClearError => steps.contains(StepView::ClearError),
            Command::Status => steps.contains(StepView::ShowStatus),
            Command::Mit => steps.contains(StepView::Loop(Motion::Mit)),
            Command::MoveTo => steps.contains(StepView::Loop(Motion::PosVel)),
            Command::Spin => steps.contains(StepView::Loop(Motion::Vel)),
            Command::Info => true,
            Command::SetId { new_can_id, no_save, .. } => {
                &&& steps[1] matches StepView::WriteInt { rid, .. } && rid == 7
                &&& new_can_id matches Some(c) ==> steps.contains(
                    StepView::WriteInt { rid: 8, value: c as i32 },
                )
                &&& !no_save ==> steps.contains(StepView::Save)
            },
            Command::RegRead { rid } => steps.contains(StepView::ReadRegister { rid }),
            Command::RegWrite { rid, int_value, integer, save, .. } => {
                &&& steps[0] == (if integer {
                    StepView::WriteInt { rid, value: int_value }
                } else {
                    StepView::WriteFloat { rid }
                })
                &&& save ==> steps.contains(StepView::ReadBack { rid }) && steps.contains(
                    StepView::Save,
                )
            },
        },
{
    if let Some(steps) = steps_of(cmd, motor_id, interface) {
        match cmd {
            Command::Scan { from, to } => {
                assert(steps[1] == StepView::Scan { from, to });
            },
            Command::Enable => {
                assert(steps[0] == StepView::Enable { report: true });
            },
            Command::Disable => {
                assert(steps[0] == StepView::Disable);
            },
            Command::Zero { .. } => {
                assert(steps[0] == steps[0]);
            },
            Command::ClearError => {
                assert(steps[0] == StepView::ClearError);
            },
            Command::Status => {
                assert(steps[0] == StepView::ShowStatus);
            },
            Command::Mit | Command::MoveTo | Command::Spin => {
                assert(steps[2] is Loop);
            },
            Command::SetId { new_can_id, no_save, .. } => {
                if let Some(c) = new_can_id {
                    assert(steps[2] == StepView::WriteInt { rid: 8, value: c as i32 });
                    if !no_save {
                        assert(steps[3] == StepView::Save);
                    }
                } else if !no_save {
                    assert(steps[2] == StepView::Save);
                }
            },
            Command::RegRead { rid } => {
                assert(steps[0] == StepView::ReadRegister { rid });
            },
            Command::RegWrite { rid, save, .. } => {
                if save {
                    assert(steps[2] == StepView::ReadBack { rid });
                    assert(steps[3] == StepView::Save);
                }
            },
            Command::Info => {},
        }
    }
}

/// The configuration that is shown is that of the ids, the mode and the three
/// ranges, each under its own name.
pub proof fn law_info_names_its_registers(motor_id: u8)
    ensures
        info_steps(motor_id).len() == 7,
        info_steps(motor_id)[1] == (StepView::ShowRegister {
            label: "CAN_ID (ESC_ID)"@,
            rid: 8,
            integer: true,
        }),
        info_steps(motor_id)[2] == (StepView::ShowRegister {
            label: "MST_ID"@,
            rid: 7,
            integer: true,
        }),
        info_steps(motor_id)[3] == (StepView::ShowRegister {
            label: "CTRL_MODE"@,
            rid: 10,
            integer: true,
        }),
        info_steps(motor_id)[4] == (StepView::ShowRegister {
            label: "PMAX"@,
            rid: 21,
            integer: false,
        }),
        info_steps(motor_id)[5] == (StepView::ShowRegister {
            label: "VMAX"@,
            rid: 22,
            integer: false,
        }),
        info_steps(motor_id)[6] == (StepView::ShowRegister {
            label: "TMAX"@,
            rid: 23,
            integer: false,
        }),
{
}

/// Every motor that was found is told by its id, in decimal and as two hexadecimal
/// digits, in the order in which it was found.
pub proof fn law_found_motors_are_told(found: Seq<u8>, i: int)
    ensures
        found.len() == 0 ==> scan_texts(found) == seq!["no motors responded"@],
        0 <= i < found.len() ==> scan_texts(found).len() == found.len() && scan_texts(found)[i]
            == "  motor CAN_ID "@ + text::dec(found[i] as nat) + " (0x"@ + text::hex(
            found[i] as nat,
            2,
        ) + ") responded"@,
{
}

/// A plan does what it is for before it says so: nothing is reported that may yet fail.
pub proof fn law_plans_act_before_they_report(motor_id: u8, interface: Seq<char>, nvm: bool)
    ensures
        steps_of(Command::Disable, motor_id, interface) matches Some(steps) && steps[0]
            == StepView::Disable,
        steps_of(Command::ClearError, motor_id, interface) matches Some(steps) && steps[0]
            == StepView::ClearError,
        steps_of(Command::Enable, motor_id, interface) matches Some(steps) && steps[0]
            == (StepView::Enable { report: true }),
        nvm ==> (steps_of(Command::Zero { nvm }, motor_id, interface) matches Some(steps)
            && steps[0] == StepView::StoreZero),
{
}

} // verus!
