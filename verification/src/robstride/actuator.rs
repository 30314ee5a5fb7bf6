//! The common actuator operations on a Robstride motor.
//!
//! Status frames only answer MIT commands, so outside MIT mode feedback is read
//! value by value. Targets have to be set before the motor is enabled, or it
//! would follow an old one; in position mode the target is the present position,
//! written once the motor is on.
use crate::error;
use crate::feedback;
use crate::feedback::ErrorFlags;
use crate::robstride::bus::{Phase, RobstrideBus};
use crate::robstride::codec::{Codec, Feedback, MitBits, Param, Request, RunMode, StatusBits};
use crate::robstride::driver;
use crate::robstride::driver::Motor;
use crate::robstride::error as rs_error;
use crate::robstride::plan;
use crate::robstride::plan::{lenient, strict, Gathered, MotorState, Purpose, Step};
use vstd::prelude::*;
use vstd::string::*;

verus! {

/// The speed limit that position mode is enabled with: the bit pattern of 5.0
/// (rad/s).
pub const POSITION_DEFAULT_LIMIT_SPD: u32 = 0x40A0_0000;

/// The status bits as one word, the way the motor sends them.
pub open spec fn status_word(s: StatusBits) -> int {
    (s.mode % 4) * 0x4000 + flag(s.uncalibrated) * 0x2000 + flag(s.stall) * 0x1000 + flag(
        s.magnetic_encoder_fault,
    ) * 0x800 + flag(s.overtemperature) * 0x400 + flag(s.overcurrent) * 0x200 + flag(
        s.undervoltage,
    ) * 0x100 + s.device_id
}

/// 1 for a flag that is set, 0 for one that is not.
pub open spec fn flag(b: bool) -> int {
    if b {
        1
    } else {
        0
    }
}

/// 1 for a flag that is set, 0 for one that is not.
fn bit(b: bool) -> (r: u16)
    ensures
        r == flag(b),
{
    if b {
        1
    } else {
        0
    }
}

/// The status bits as one word.
pub fn raw_status(s: &StatusBits) -> (r: u16)
    ensures
        r == status_word(*s),
{
    (s.mode % 4) as u16 * 0x4000 + bit(s.uncalibrated) * 0x2000 + bit(s.stall) * 0x1000 + bit(
        s.magnetic_encoder_fault,
    ) * 0x800 + bit(s.overtemperature) * 0x400 + bit(s.overcurrent) * 0x200 + bit(s.undervoltage)
        * 0x100 + s.device_id as u16
}

/// The common flags of some status bits.
pub open spec fn status_flags(s: StatusBits) -> u32 {
    feedback::flag_bits(
        s.undervoltage,
        false,
        s.overcurrent,
        s.overtemperature,
        false,
        s.stall,
        false,
        false,
        s.magnetic_encoder_fault,
        s.uncalibrated,
    )
}

/// Status bits as common flags.
pub fn rs_status_to_misa_error(s: &StatusBits, raw_extra: u16) -> (r: ErrorFlags)
    ensures
        r.raw_bits() == raw_extra,
        r.common_bits() == status_flags(*s),
{
    let mut bits: u32 = 0;
    if s.undervoltage {
        bits = bits | ErrorFlags::UNDER_VOLTAGE;
    }
    if s.overcurrent {
        bits = bits | ErrorFlags::OVER_CURRENT;
    }
    if s.overtemperature {
        bits = bits | ErrorFlags::MOTOR_OVERHEAT;
    }
    if s.stall {
        bits = bits | ErrorFlags::STALL;
    }
    if s.magnetic_encoder_fault {
        bits = bits | ErrorFlags::ENCODER_FAULT;
    }
    if s.uncalibrated {
        bits = bits | ErrorFlags::UNCALIBRATED;
    }
    proof {
        feedback::lemma_or_zero();
    }
    ErrorFlags::new(bits, raw_extra as u32)
}

/// The firmware mode for a run mode.
pub open spec fn firmware_mode(m: feedback::RunMode) -> RunMode {
    match m {
        feedback::RunMode::Mit => RunMode::Mit,
        feedback::RunMode::Position => RunMode::Position,
        feedback::RunMode::Velocity => RunMode::Velocity,
        feedback::RunMode::Torque => RunMode::Torque,
    }
}

/// The run mode for a firmware mode.
pub open spec fn common_mode(m: RunMode) -> feedback::RunMode {
    match m {
        RunMode::Mit => feedback::RunMode::Mit,
        RunMode::Position => feedback::RunMode::Position,
        RunMode::Velocity => feedback::RunMode::Velocity,
        RunMode::Torque => feedback::RunMode::Torque,
    }
}

/// Run modes and firmware modes are the same modes.
pub proof fn law_run_modes_correspond(m: feedback::RunMode, f: RunMode)
    ensures
        common_mode(firmware_mode(m)) == m,
        firmware_mode(common_mode(f)) == f,
{
}

/// The firmware mode for a run mode.
pub fn map_misa_run_mode(m: feedback::RunMode) -> (r: RunMode)
    ensures
        r == firmware_mode(m),
{
    match m {
        feedback::RunMode::Mit => RunMode::Mit,
        feedback::RunMode::Position => RunMode::Position,
        feedback::RunMode::Velocity => RunMode::Velocity,
        feedback::RunMode::Torque => RunMode::Torque,
    }
}

/// The run mode for a firmware mode.
pub fn map_rs_run_mode(m: RunMode) -> (r: feedback::RunMode)
    ensures
        r == common_mode(m),
{
    match m {
        RunMode::Mit => feedback::RunMode::Mit,
        RunMode::Position => feedback::RunMode::Position,
        RunMode::Velocity => feedback::RunMode::Velocity,
        RunMode::Torque => feedback::RunMode::Torque,
    }
}

/// The name of a firmware mode.
pub open spec fn mode_text(m: RunMode) -> Seq<char> {
    match m {
        RunMode::Mit => "Mit"@,
        RunMode::Position => "Position"@,
        RunMode::Velocity => "Velocity"@,
        RunMode::Torque => "Torque"@,
    }
}

/// The name of a firmware mode.
fn mode_name(m: RunMode) -> (r: &'static str)
    ensures
        r@ == mode_text(m),
{
    match m {
        RunMode::Mit => "Mit",
        RunMode::Position => "Position",
        RunMode::Velocity => "Velocity",
        RunMode::Torque => "Torque",
    }
}

/// The error of a command in the wrong mode.
pub open spec fn wrong_mode(op: Seq<char>, expected: RunMode, current: RunMode) -> error::ErrorView {
    error::ErrorView::Other(
        op + " requires "@ + mode_text(expected) + " run mode (currently "@ + mode_text(current)
            + "); call set_run_mode("@ + mode_text(expected) + ") first"@,
    )
}

/// Refuses a command in the wrong mode.
pub fn require_mode(current: RunMode, expected: RunMode, op: &str) -> (r: Result<(), error::Error>)
    ensures
        match r {
            Ok(_) => current == expected,
            Err(e) => current != expected && e@ == wrong_mode(op@, expected, current),
        },
{
    if current != expected {
        let mut out: String = String::new();
        out.append(op);
        out.append(" requires ");
        out.append(mode_name(expected));
        out.append(" run mode (currently ");
        out.append(mode_name(current));
        out.append("); call set_run_mode(");
        out.append(mode_name(expected));
        out.append(") first");
        assert(error::ErrorView::Other(out@) =~= wrong_mode(op@, expected, current));
        return Err(error::Error::Other(out));
    }
    Ok(())
}

/// What is written before a motor is enabled in this mode.
pub open spec fn before_enable(mode: RunMode) -> Seq<Step> {
    match mode {
        RunMode::Mit => Seq::empty(),
        RunMode::Velocity => seq![
            plan::must(Request::Write(Param::SpdRef, 0), Purpose::Nothing),
        ],
        RunMode::Torque => seq![
            plan::must(Request::Write(Param::IqRef, 0), Purpose::Nothing),
        ],
        RunMode::Position => seq![plan::limit_step(POSITION_DEFAULT_LIMIT_SPD)],
    }
}

/// What comes after a motor is enabled in this mode.
pub open spec fn after_enable(mode: RunMode) -> Seq<Step> {
    match mode {
        RunMode::Position => seq![plan::may(Request::Read(Param::MechPos), Purpose::Hold)],
        _ => Seq::empty(),
    }
}

/// The steps of enabling a motor in this mode.
pub open spec fn enable_steps(mode: RunMode) -> Seq<Step> {
    before_enable(mode) + seq![plan::must(Request::Enable, Purpose::Enabled)] + after_enable(
        mode,
    )
}

/// The steps of changing the run mode: the firmware ignores a change while the
/// motor is enabled, so it is disabled for it.
pub open spec fn set_run_mode_steps(m: MotorState, mode: RunMode) -> Seq<Step> {
    (if m.enabled {
        seq![plan::may(Request::Disable, Purpose::Disabled)]
    } else {
        Seq::empty()
    }) + seq![plan::must(Request::SetRunMode(mode), Purpose::ModeSet(mode))] + (if m.enabled {
        enable_steps(mode)
    } else {
        Seq::empty()
    })
}

/// Appends the steps of enabling a motor in this mode.
fn push_enable(steps: &mut Vec<Step>, mode: RunMode)
    ensures
        final(steps)@ == old(steps)@ + enable_steps(mode),
{
    match mode {
        RunMode::Mit => {},
        RunMode::Velocity => {
            steps.push(strict(Request::Write(Param::SpdRef, 0), Purpose::Nothing));
        },
        RunMode::Torque => {
            steps.push(strict(Request::Write(Param::IqRef, 0), Purpose::Nothing));
        },
        RunMode::Position => {
            steps.push(
                strict(
                    Request::Write(Param::LimitSpd, POSITION_DEFAULT_LIMIT_SPD),
                    Purpose::SpeedLimited(POSITION_DEFAULT_LIMIT_SPD),
                ),
            );
        },
    }
    steps.push(strict(Request::Enable, Purpose::Enabled));
    if mode == RunMode::Position {
        steps.push(lenient(Request::Read(Param::MechPos), Purpose::Hold));
    }
    assert(steps@ =~= old(steps)@ + enable_steps(mode));
}

/// That `r` is `result`, its error told as a common error.
pub open spec fn common<T>(r: Result<T, error::Error>, result: Result<T, rs_error::Error>) -> bool {
    match result {
        Ok(v) => r == Ok::<T, error::Error>(v),
        Err(e) => r matches Err(c) && c@ == rs_error::common_error(e),
    }
}

/// `result`, its error told as a common error.
fn told<T>(result: Result<T, rs_error::Error>) -> (r: Result<T, error::Error>)
    ensures
        common(r, result),
{
    match result {
        Ok(v) => Ok(v),
        Err(e) => Err(error::Error::from(e)),
    }
}

/// That the operation of these steps took place, without a measurement.
pub open spec fn did<C: Codec>(
    c: C,
    m: MotorState,
    steps: Seq<Step>,
    before_history: Seq<Phase>,
    after_history: Seq<Phase>,
    after: MotorState,
    r: Result<(), error::Error>,
) -> bool {
    exists|x: Result<(), rs_error::Error>|
        {
            &&& #[trigger] driver::done_after(
                c,
                m,
                steps,
                before_history,
                after_history,
                after,
                x,
            )
            &&& common(r, x)
        }
}

/// That the operation of these steps took place, with a measurement.
pub open spec fn did_measure<C: Codec>(
    c: C,
    m: MotorState,
    steps: Seq<Step>,
    before_history: Seq<Phase>,
    after_history: Seq<Phase>,
    after: MotorState,
    r: Result<Feedback, error::Error>,
) -> bool {
    exists|x: Result<Feedback, rs_error::Error>|
        {
            &&& #[trigger] driver::measured_after(
                c,
                m,
                steps,
                before_history,
                after_history,
                after,
                x,
            )
            &&& common(r, x)
        }
}

/// What a command in `expected` mode does: its steps, then a measurement; nothing
/// in any other mode.
pub open spec fn commanded<C: Codec>(
    c: C,
    m: MotorState,
    expected: RunMode,
    op: Seq<char>,
    steps: Seq<Step>,
    before_history: Seq<Phase>,
    after_history: Seq<Phase>,
    after: MotorState,
    r: Result<Feedback, error::Error>,
) -> bool {
    if m.run_mode != expected {
        &&& after_history == before_history
        &&& after == m
        &&& r matches Err(e) && e@ == wrong_mode(op, expected, m.run_mode)
    } else {
        did_measure(
            c,
            m,
            steps + plan::measure_steps(m),
            before_history,
            after_history,
            after,
            r,
        )
    }
}

/// What a position command does.
pub open spec fn position_commanded<C: Codec>(
    c: C,
    m: MotorState,
    position: u32,
    max_speed: u32,
    differs: bool,
    before_history: Seq<Phase>,
    after_history: Seq<Phase>,
    after: MotorState,
    r: Result<Feedback, error::Error>,
) -> bool {
    commanded(
        c,
        m,
        RunMode::Position,
        "set_position"@,
        plan::position_steps(m, position, max_speed, differs),
        before_history,
        after_history,
        after,
        r,
    )
}

/// What a velocity command does.
pub open spec fn velocity_commanded<C: Codec>(
    c: C,
    m: MotorState,
    velocity: u32,
    before_history: Seq<Phase>,
    after_history: Seq<Phase>,
    after: MotorState,
    r: Result<Feedback, error::Error>,
) -> bool {
    commanded(
        c,
        m,
        RunMode::Velocity,
        "set_velocity"@,
        plan::velocity_target(velocity),
        before_history,
        after_history,
        after,
        r,
    )
}

/// What a torque command does.
pub open spec fn torque_commanded<C: Codec>(
    c: C,
    m: MotorState,
    torque: u32,
    before_history: Seq<Phase>,
    after_history: Seq<Phase>,
    after: MotorState,
    r: Result<Feedback, error::Error>,
) -> bool {
    commanded(
        c,
        m,
        RunMode::Torque,
        "set_torque"@,
        plan::current_target(torque),
        before_history,
        after_history,
        after,
        r,
    )
}

/// Enables the motor in its mode: its target is made safe first, and in position
/// mode it is told to stay where it is.
pub fn enable<B: RobstrideBus, C: Codec>(motor: &mut Motor<B, C>) -> (r: Result<
    Feedback,
    error::Error,
>)
    ensures
        final(motor).keeps(old(motor)),
        did_measure(
            old(motor).spec_codec(),
            old(motor).spec_state(),
            enable_steps(old(motor).spec_state().run_mode),
            old(motor).history(),
            final(motor).history(),
            final(motor).spec_state(),
            r,
        ),
{
    let mode = motor.current_run_mode();
    let mut steps: Vec<Step> = Vec::new();
    push_enable(&mut steps, mode);
    proof {
        assert(steps@ =~= enable_steps(mode));
        assert(driver::asks_status(steps@[before_enable(mode).len() as int]));
    }
    told(motor.perform_measured(steps))
}

/// Disables the motor.
pub fn disable<B: RobstrideBus, C: Codec>(motor: &mut Motor<B, C>) -> (r: Result<(), error::Error>)
    ensures
        final(motor).keeps(old(motor)),
        exists|x: Result<Feedback, error::Error>|
            {
                &&& #[trigger] did_measure(
                    old(motor).spec_codec(),
                    old(motor).spec_state(),
                    plan::disabling(),
                    old(motor).history(),
                    final(motor).history(),
                    final(motor).spec_state(),
                    x,
                )
                &&& match x {
                    Ok(_) => r is Ok,
                    Err(e) => r == Err::<(), error::Error>(e),
                }
            },
{
    let x = told(motor.disable());
    assert(did_measure(
        old(motor).spec_codec(),
        old(motor).spec_state(),
        plan::disabling(),
        old(motor).history(),
        motor.history(),
        motor.spec_state(),
        x,
    ));
    match x {
        Ok(_) => Ok(()),
        Err(e) => Err(e),
    }
}

/// Makes the present position zero.
pub fn set_zero<B: RobstrideBus, C: Codec>(motor: &mut Motor<B, C>) -> (r: Result<(), error::Error>)
    ensures
        final(motor).keeps(old(motor)),
        did(
            old(motor).spec_codec(),
            old(motor).spec_state(),
            plan::zeroing(),
            old(motor).history(),
            final(motor).history(),
            final(motor).spec_state(),
            r,
        ),
{
    told(motor.set_zero())
}

/// Changes the run mode; a motor that was enabled is disabled for it, and enabled
/// again.
pub fn set_run_mode<B: RobstrideBus, C: Codec>(motor: &mut Motor<B, C>, mode: feedback::RunMode) -> (r:
    Result<(), error::Error>)
    ensures
        final(motor).keeps(old(motor)),
        did(
            old(motor).spec_codec(),
            old(motor).spec_state(),
            set_run_mode_steps(old(motor).spec_state(), firmware_mode(mode)),
            old(motor).history(),
            final(motor).history(),
            final(motor).spec_state(),
            r,
        ),
{
    let wanted = map_misa_run_mode(mode);
    let was_enabled: bool = motor.is_enabled();
    let mut steps: Vec<Step> = Vec::new();
    if was_enabled {
        steps.push(lenient(Request::Disable, Purpose::Disabled));
    }
    steps.push(strict(Request::SetRunMode(wanted), Purpose::ModeSet(wanted)));
    if was_enabled {
        push_enable(&mut steps, wanted);
    }
    assert(steps@ =~= set_run_mode_steps(motor.spec_state(), wanted));
    told(motor.perform_steps(steps))
}

/// Carries out `steps` and measures.
fn command<B: RobstrideBus, C: Codec>(motor: &mut Motor<B, C>, steps: Vec<Step>) -> (r: Result<
    Feedback,
    error::Error,
>)
    ensures
        final(motor).keeps(old(motor)),
        did_measure(
            old(motor).spec_codec(),
            old(motor).spec_state(),
            steps@ + plan::measure_steps(old(motor).spec_state()),
            old(motor).history(),
            final(motor).history(),
            final(motor).spec_state(),
            r,
        ),
{
    let ghost first = steps@;
    let mut all: Vec<Step> = steps;
    let mut rest: Vec<Step> = motor.state().measure_plan();
    all.append(&mut rest);
    proof {
        assert(all@ =~= first + plan::measure_steps(motor.spec_state()));
        driver::lemma_measuring_last(first, motor.spec_state());
    }
    told(motor.perform_measured(all))
}

/// Sets the target position and the speed limit, in position mode. `differs` is
/// whether `max_speed` differs from the limit that was written last, as numbers.
pub fn set_position<B: RobstrideBus, C: Codec>(motor: &mut Motor<B, C>,
    position: u32,
    max_speed: u32,
    differs: bool,
) -> (r: Result<
    Feedback,
    error::Error,
>)
    ensures
        final(motor).keeps(old(motor)),
        position_commanded(
            old(motor).spec_codec(),
            old(motor).spec_state(),
            position,
            max_speed,
            differs,
            old(motor).history(),
            final(motor).history(),
            final(motor).spec_state(),
            r,
        ),
{
    if let Err(e) = require_mode(motor.current_run_mode(), RunMode::Position, "set_position") {
        return Err(e);
    }
    let steps = motor.state().position_plan(position, max_speed, differs);
    command(motor, steps)
}

/// Sets the target velocity, in velocity mode.
pub fn set_velocity<B: RobstrideBus, C: Codec>(motor: &mut Motor<B, C>, velocity: u32) -> (r: Result<
    Feedback,
    error::Error,
>)
    ensures
        final(motor).keeps(old(motor)),
        velocity_commanded(
            old(motor).spec_codec(),
            old(motor).spec_state(),
            velocity,
            old(motor).history(),
            final(motor).history(),
            final(motor).spec_state(),
            r,
        ),
{
    if let Err(e) = require_mode(motor.current_run_mode(), RunMode::Velocity, "set_velocity") {
        return Err(e);
    }
    let steps = plan::one(strict(Request::Write(Param::SpdRef, velocity), Purpose::Nothing));
    command(motor, steps)
}

/// Sets the target torque, in torque mode: it is written as a current.
pub fn set_torque<B: RobstrideBus, C: Codec>(motor: &mut Motor<B, C>, torque: u32) -> (r: Result<
    Feedback,
    error::Error,
>)
    ensures
        final(motor).keeps(old(motor)),
        torque_commanded(
            old(motor).spec_codec(),
            old(motor).spec_state(),
            torque,
            old(motor).history(),
            final(motor).history(),
            final(motor).spec_state(),
            r,
        ),
{
    if let Err(e) = require_mode(motor.current_run_mode(), RunMode::Torque, "set_torque") {
        return Err(e);
    }
    let steps = plan::one(strict(Request::Write(Param::IqRef, torque), Purpose::Nothing));
    command(motor, steps)
}

/// What an MIT command does: nothing in another mode, or while the motor is not
/// enabled.
pub open spec fn mit_commanded<C: Codec>(
    c: C,
    m: MotorState,
    bits: MitBits,
    before_history: Seq<Phase>,
    after_history: Seq<Phase>,
    after: MotorState,
    r: Result<Feedback, error::Error>,
) -> bool {
    if m.run_mode != RunMode::Mit {
        &&& after_history == before_history
        &&& after == m
        &&& r matches Err(e) && e@ == wrong_mode("mit_control"@, RunMode::Mit, m.run_mode)
    } else {
        exists|x: Result<Feedback, rs_error::Error>|
            {
                &&& #[trigger] driver::mit_commanded(
                    c,
                    m,
                    bits,
                    before_history,
                    after_history,
                    after,
                    x,
                )
                &&& common(r, x)
            }
    }
}

/// Sends an MIT command, in MIT mode. Its answer is the feedback.
pub fn mit_control<B: RobstrideBus, C: Codec>(motor: &mut Motor<B, C>, bits: MitBits) -> (r: Result<
    Feedback,
    error::Error,
>)
    ensures
        final(motor).keeps(old(motor)),
        mit_commanded(
            old(motor).spec_codec(),
            old(motor).spec_state(),
            bits,
            old(motor).history(),
            final(motor).history(),
            final(motor).spec_state(),
            r,
        ),
{
    if let Err(e) = require_mode(motor.current_run_mode(), RunMode::Mit, "mit_control") {
        return Err(e);
    }
    told(motor.mit_control(bits))
}

/// Measures without disturbing the run mode.
pub fn measure<B: RobstrideBus, C: Codec>(motor: &mut Motor<B, C>) -> (r: Result<
    Feedback,
    error::Error,
>)
    ensures
        final(motor).keeps(old(motor)),
        did_measure(
            old(motor).spec_codec(),
            old(motor).spec_state(),
            plan::measure_steps(old(motor).spec_state()),
            old(motor).history(),
            final(motor).history(),
            final(motor).spec_state(),
            r,
        ),
{
    told(motor.measure_safe())
}

/// Slow-changing status, quantities by their bit patterns.
#[derive(Debug, Clone, Copy, PartialEq, Eq, Structural)]
pub struct MotorStatus {
    /// Bus voltage, where it could be read.
    pub voltage: Option<u32>,
    /// Temperature, where the measurement holds it.
    pub temperature: Option<u32>,
    pub error: ErrorFlags,
}

/// The steps of reading the status: a measurement, and the bus voltage if it can
/// be read.
pub open spec fn status_steps(m: MotorState) -> Seq<Step> {
    plan::measure_steps(m).push(plan::may(Request::Read(Param::Vbus), Purpose::Voltage))
}

/// What reading the status gives, having gathered `g`.
pub open spec fn status_result(
    after: MotorState,
    g: Result<Gathered, rs_error::Error>,
    r: Result<MotorStatus, error::Error>,
) -> bool {
    match g {
        Err(e) => r matches Err(c) && c@ == rs_error::common_error(e),
        Ok(g) => {
            &&& plan::measurement(after, g) matches Some(fb)
            &&& r matches Ok(s)
            &&& s.voltage == g.voltage
            &&& s.temperature == fb.temperature
            &&& s.error.raw_bits() == status_word(fb.status)
            &&& s.error.common_bits() == status_flags(fb.status)
        },
    }
}

/// Reads the status without disturbing the run mode.
pub fn read_status<B: RobstrideBus, C: Codec>(motor: &mut Motor<B, C>) -> (r: Result<
    MotorStatus,
    error::Error,
>)
    ensures
        final(motor).keeps(old(motor)),
        exists|g: Result<Gathered, rs_error::Error>|
            {
                &&& #[trigger] driver::performed(
                    old(motor).spec_codec(),
                    old(motor).spec_state(),
                    status_steps(old(motor).spec_state()),
                    old(motor).history(),
                    final(motor).history(),
                    final(motor).spec_state(),
                    g,
                )
                &&& status_result(final(motor).spec_state(), g, r)
            },
{
    let mut steps: Vec<Step> = motor.state().measure_plan();
    steps.push(lenient(Request::Read(Param::Vbus), Purpose::Voltage));
    proof {
        assert(steps@ =~= status_steps(motor.spec_state()));
        if motor.spec_state().run_mode == RunMode::Mit {
            assert(driver::asks_status(steps@[0]));
        } else {
            assert(driver::asks_position(steps@[0]));
            assert(driver::asks_velocity(steps@[1]));
        }
    }
    match motor.perform_measuring(steps) {
        Ok((fb, all)) => {
            let raw: u16 = raw_status(&fb.status);
            Ok(
                MotorStatus {
                    voltage: all.voltage,
                    temperature: fb.temperature,
                    error: rs_status_to_misa_error(&fb.status, raw),
                },
            )
        },
        Err(e) => Err(error::Error::from(e)),
    }
}

/// The run mode that the motor is taken to be in.
pub fn current_run_mode_hint<B: RobstrideBus, C: Codec>(motor: &Motor<B, C>) -> (r: Option<
    feedback::RunMode,
>)
    ensures
        r == Some(common_mode(motor.spec_state().run_mode)),
{
    Some(map_rs_run_mode(motor.current_run_mode()))
}

/// No motor is enabled before its target is safe: whatever an enable writes, it
/// writes before the motor is on, and no position is written before the motor is
/// on and its position known.
pub proof fn law_enable_prepares_first(mode: RunMode, i: int)
    requires
        0 <= i < enable_steps(mode).len(),
    ensures
        enable_steps(mode)[i].request is Write ==> (exists|j: int|
            i < j < enable_steps(mode).len() && #[trigger] enable_steps(mode)[j].request
                == Request::Enable),
        enable_steps(mode)[i].request matches Request::Write(p, _) ==> p != Param::LocRef,
{
    if enable_steps(mode)[i].request is Write {
        assert(i == 0);
        assert(enable_steps(mode)[1].request == Request::Enable);
    }
}

/// In position mode, a motor that was enabled is told to stay where it is: the
/// position that is read is written back as its target.
pub proof fn law_enabled_position_mode_holds(m: MotorState, g: plan::Gathered, position: u32)
    ensures
        plan::settled(
            m,
            plan::RunView { steps: after_enable(RunMode::Position), gathered: g },
            Ok::<plan::Reply, rs_error::Error>(plan::Reply::Value(position)),
        ).1.steps == seq![
            plan::may(Request::Write(Param::LocRef, position), Purpose::Nothing),
        ],
{
    let run = plan::RunView { steps: after_enable(RunMode::Position), gathered: g };
    assert(run.steps.skip(1) =~= Seq::<Step>::empty());
    assert(plan::settled(
        m,
        run,
        Ok::<plan::Reply, rs_error::Error>(plan::Reply::Value(position)),
    ).1.steps =~= seq![plan::may(Request::Write(Param::LocRef, position), Purpose::Nothing)]);
}

/// The run mode is never changed on a motor that was not told to switch off
/// before.
pub proof fn law_mode_changes_while_off(m: MotorState, mode: RunMode)
    requires
        m.enabled,
    ensures
        set_run_mode_steps(m, mode)[0].request == Request::Disable,
        set_run_mode_steps(m, mode)[1].request == Request::SetRunMode(mode),
{
}

/// A run mode that was changed successfully is in force, and a motor is enabled
/// afterwards if and only if it was before.
pub proof fn law_run_mode_is_set<C: Codec>(
    c: C,
    m: MotorState,
    mode: RunMode,
    before_history: Seq<Phase>,
    after_history: Seq<Phase>,
    after: MotorState,
    r: Result<(), error::Error>,
)
    requires
        did(c, m, set_run_mode_steps(m, mode), before_history, after_history, after, r),
        r is Ok,
    ensures
        after.run_mode == mode,
        after.enabled == m.enabled,
{
    let steps = set_run_mode_steps(m, mode);
    let x = choose|x: Result<(), rs_error::Error>|
        {
            &&& #[trigger] driver::done_after(
                c,
                m,
                steps,
                before_history,
                after_history,
                after,
                x,
            )
            &&& common(r, x)
        };
    let g = choose|g: Result<Gathered, rs_error::Error>|
        {
            &&& #[trigger] driver::performed(
                c,
                m,
                steps,
                before_history,
                after_history,
                after,
                g,
            )
            &&& match g {
                Ok(_) => x is Ok,
                Err(e) => x == Err::<(), rs_error::Error>(e),
            }
        };
    let n = before_history.len() as int;
    let run = plan::RunView { steps, gathered: plan::nothing_gathered() };
    let outs = choose|outs: Seq<Result<plan::Reply, rs_error::Error>>| #[trigger]
        driver::carried_out(c, m, run, after_history.skip(n), outs, after, g);
    let phases = after_history.skip(n);
    let got = g->Ok_0;
    let sets = |s: Step| driver::sets_mode(s, mode);
    let on = |s: Step| driver::switches_on(s);
    if m.enabled {
        assert(sets(steps[1]));
        driver::lemma_mode_after(c, m, run, phases, outs, after, got, mode);
        let s = plan::settled(m, run, outs[0]);
        let rest = s.1.steps;
        assert(rest =~= steps.skip(1));
        let k: int = 1 + before_enable(mode).len() as int;
        assert(on(rest[k]));
        driver::lemma_on_after(c, s.0, s.1, phases.skip(1), outs.skip(1), after, got);
    } else {
        assert(sets(steps[0]));
        driver::lemma_mode_after(c, m, run, phases, outs, after, got, mode);
        driver::lemma_on_after(c, m, run, phases, outs, after, got);
        assert(!driver::asks(steps, on));
    }
}

/// The first exchange of a command with a measurement after it is that of its first
/// step.
proof fn lemma_first_exchange<C: Codec>(
    c: C,
    m: MotorState,
    steps: Seq<Step>,
    before_history: Seq<Phase>,
    after_history: Seq<Phase>,
    after: MotorState,
    r: Result<Feedback, error::Error>,
)
    requires
        steps.len() > 0,
        did_measure(c, m, steps, before_history, after_history, after, r),
    ensures
        after_history.len() > before_history.len(),
        exists|out: Result<plan::Reply, rs_error::Error>| #[trigger]
            driver::exchanged(
                c,
                m,
                after_history[before_history.len() as int],
                steps[0].request,
                out,
            ) && (out is Err && !steps[0].optional ==> r is Err),
{
    let x = choose|x: Result<Feedback, rs_error::Error>|
        {
            &&& #[trigger] driver::measured_after(
                c,
                m,
                steps,
                before_history,
                after_history,
                after,
                x,
            )
            &&& common(r, x)
        };
    let g = choose|g: Result<Gathered, rs_error::Error>|
        {
            &&& #[trigger] driver::performed(
                c,
                m,
                steps,
                before_history,
                after_history,
                after,
                g,
            )
            &&& driver::measured(after, g, x)
        };
    let n = before_history.len() as int;
    let run = plan::RunView { steps, gathered: plan::nothing_gathered() };
    let outs = choose|outs: Seq<Result<plan::Reply, rs_error::Error>>| #[trigger]
        driver::carried_out(c, m, run, after_history.skip(n), outs, after, g);
    let phases = after_history.skip(n);
    assert(phases[0] == after_history[n]);
    assert(driver::exchanged(c, m, after_history[n], steps[0].request, outs[0]));
}

/// In the firmware mode of a run mode, the command of that run mode is carried out and
/// all others are refused without a frame: position commands need position mode,
/// velocity commands velocity mode, torque commands torque mode, MIT commands MIT mode.
pub proof fn law_run_mode_admits_its_command<C: Codec>(
    c: C,
    m: MotorState,
    mode: feedback::RunMode,
    bits: MitBits,
    v: u32,
    w: u32,
    differs: bool,
    before_history: Seq<Phase>,
    after_history: Seq<Phase>,
    after: MotorState,
    r: Result<Feedback, error::Error>,
)
    requires
        m.run_mode == firmware_mode(mode),
    ensures
        position_commanded(c, m, v, w, differs, before_history, after_history, after, r) ==> if mode
            == feedback::RunMode::Position {
            after_history.len() > before_history.len()
        } else {
            after_history == before_history && after == m && r is Err
        },
        velocity_commanded(c, m, v, before_history, after_history, after, r) ==> if mode
            == feedback::RunMode::Velocity {
            after_history.len() > before_history.len()
        } else {
            after_history == before_history && after == m && r is Err
        },
        torque_commanded(c, m, v, before_history, after_history, after, r) ==> if mode
            == feedback::RunMode::Torque {
            after_history.len() > before_history.len()
        } else {
            after_history == before_history && after == m && r is Err
        },
        mit_commanded(c, m, bits, before_history, after_history, after, r) ==> if mode
            == feedback::RunMode::Mit && m.enabled {
            after_history.len() > before_history.len()
        } else {
            after_history == before_history && after == m && r is Err
        },
{
    let measuring = plan::measure_steps(m);
    if mode == feedback::RunMode::Position && position_commanded(
        c,
        m,
        v,
        w,
        differs,
        before_history,
        after_history,
        after,
        r,
    ) {
        lemma_first_exchange(
            c,
            m,
            plan::position_steps(m, v, w, differs) + measuring,
            before_history,
            after_history,
            after,
            r,
        );
    }
    if mode == feedback::RunMode::Velocity && velocity_commanded(
        c,
        m,
        v,
        before_history,
        after_history,
        after,
        r,
    ) {
        lemma_first_exchange(
            c,
            m,
            plan::velocity_target(v) + measuring,
            before_history,
            after_history,
            after,
            r,
        );
    }
    if mode == feedback::RunMode::Torque && torque_commanded(
        c,
        m,
        v,
        before_history,
        after_history,
        after,
        r,
    ) {
        lemma_first_exchange(
            c,
            m,
            plan::current_target(v) + measuring,
            before_history,
            after_history,
            after,
            r,
        );
    }
    if m.run_mode == RunMode::Mit && mit_commanded(
        c,
        m,
        bits,
        before_history,
        after_history,
        after,
        r,
    ) {
        let x = choose|x: Result<Feedback, rs_error::Error>|
            {
                &&& #[trigger] driver::mit_commanded(
                    c,
                    m,
                    bits,
                    before_history,
                    after_history,
                    after,
                    x,
                )
                &&& common(r, x)
            };
        driver::law_mit_command_is_sent_as_given(
            c,
            m,
            bits,
            before_history,
            after_history,
            after,
            x,
        );
    }
}

/// What a velocity command sends first is the velocity that was given, as the target
/// speed; what a torque command sends first is the number that was given, as the
/// target current; a position command starts with the speed limit that was given, or
/// with the position itself where the limit is in force.
pub proof fn law_commands_write_their_target<C: Codec>(
    c: C,
    m: MotorState,
    v: u32,
    w: u32,
    differs: bool,
    before_history: Seq<Phase>,
    after_history: Seq<Phase>,
    after: MotorState,
    r: Result<Feedback, error::Error>,
)
    ensures
        m.run_mode == RunMode::Velocity && velocity_commanded(
            c,
            m,
            v,
            before_history,
            after_history,
            after,
            r,
        ) ==> exists|out: Result<plan::Reply, rs_error::Error>| #[trigger]
            driver::exchanged(
                c,
                m,
                after_history[before_history.len() as int],
                Request::Write(Param::SpdRef, v),
                out,
            ) && (out is Err ==> r is Err),
        m.run_mode == RunMode::Torque && torque_commanded(
            c,
            m,
            v,
            before_history,
            after_history,
            after,
            r,
        ) ==> exists|out: Result<plan::Reply, rs_error::Error>| #[trigger]
            driver::exchanged(
                c,
                m,
                after_history[before_history.len() as int],
                Request::Write(Param::IqRef, v),
                out,
            ) && (out is Err ==> r is Err),
        m.run_mode == RunMode::Position && position_commanded(
            c,
            m,
            v,
            w,
            differs,
            before_history,
            after_history,
            after,
            r,
        ) ==> exists|request: Request, out: Result<plan::Reply, rs_error::Error>| #[trigger]
            driver::exchanged(
                c,
                m,
                after_history[before_history.len() as int],
                request,
                out,
            ) && request == (if m.cached_speed_limit is Some && !differs {
                Request::Write(Param::LocRef, v)
            } else {
                Request::Write(Param::LimitSpd, w)
            }) && (out is Err ==> r is Err),
{
    let measuring = plan::measure_steps(m);
    if m.run_mode == RunMode::Velocity && velocity_commanded(
        c,
        m,
        v,
        before_history,
        after_history,
        after,
        r,
    ) {
        lemma_first_exchange(
            c,
            m,
            plan::velocity_target(v) + measuring,
            before_history,
            after_history,
            after,
            r,
        );
    }
    if m.run_mode == RunMode::Torque && torque_commanded(
        c,
        m,
        v,
        before_history,
        after_history,
        after,
        r,
    ) {
        lemma_first_exchange(
            c,
            m,
            plan::current_target(v) + measuring,
            before_history,
            after_history,
            after,
            r,
        );
    }
    if m.run_mode == RunMode::Position && position_commanded(
        c,
        m,
        v,
        w,
        differs,
        before_history,
        after_history,
        after,
        r,
    ) {
        plan::law_position_command_writes_target_and_limit(m, v, w, differs);
        let steps = plan::position_steps(m, v, w, differs) + measuring;
        assert(steps[0] == plan::position_steps(m, v, w, differs)[0]);
        lemma_first_exchange(c, m, steps, before_history, after_history, after, r);
    }
}

/// An enable switches the motor on exactly once, and what else it asks depends on the
/// mode alone: the target speed is made 0 in velocity mode, the target current in
/// torque mode, the speed limit 5.0 in position mode, where the position is read
/// afterwards to be held; nothing in MIT mode.
pub proof fn law_enable_makes_the_target_safe(mode: RunMode)
    ensures
        enable_steps(mode).len() == (if mode is Mit {
            1int
        } else if mode is Position {
            3
        } else {
            2
        }),
        mode is Mit ==> enable_steps(mode)[0].request is Enable,
        !(mode is Mit) ==> enable_steps(mode)[1].request is Enable,
        mode is Velocity ==> enable_steps(mode)[0].request == Request::Write(Param::SpdRef, 0),
        mode is Torque ==> enable_steps(mode)[0].request == Request::Write(Param::IqRef, 0),
        mode is Position ==> {
            &&& enable_steps(mode)[0].request == Request::Write(Param::LimitSpd, 0x40A0_0000)
            &&& enable_steps(mode)[0].purpose == Purpose::SpeedLimited(0x40A0_0000)
            &&& enable_steps(mode)[2].request == Request::Read(Param::MechPos)
            &&& enable_steps(mode)[2].purpose == Purpose::Hold
        },
        forall|i: int|
            0 <= i < enable_steps(mode).len() ==> {
                &&& (#[trigger] enable_steps(mode)[i]).optional == (i == 2)
                &&& enable_steps(mode)[i].request is Enable <==> enable_steps(mode)[i].purpose
                    is Enabled
            },
{
}

/// A mode change of a motor that is off is that one request.
pub proof fn law_mode_change_of_a_motor_that_is_off(m: MotorState, mode: RunMode)
    requires
        !m.enabled,
    ensures
        set_run_mode_steps(m, mode).len() == 1,
        set_run_mode_steps(m, mode)[0].request == Request::SetRunMode(mode),
        !set_run_mode_steps(m, mode)[0].optional,
{
}

/// A motor that was on is switched off, changed and then enabled in the new mode, as
/// any motor in that mode is; only switching it off may fail.
pub proof fn law_mode_change_of_a_motor_that_is_on(m: MotorState, mode: RunMode, i: int)
    requires
        m.enabled,
        0 <= i < enable_steps(mode).len(),
    ensures
        set_run_mode_steps(m, mode).len() == 2 + enable_steps(mode).len(),
        set_run_mode_steps(m, mode)[0].optional,
        !set_run_mode_steps(m, mode)[1].optional,
        set_run_mode_steps(m, mode)[i + 2] == enable_steps(mode)[i],
{
}

/// The status word holds the device id in its low byte, one bit for each fault above
/// it, and the mode in its top two bits.
pub proof fn law_bits_of_the_status_word(s: StatusBits)
    ensures
        0 <= status_word(s) < 0x1_0000,
        status_word(s) % 0x100 == s.device_id,
        (status_word(s) / 0x100) % 2 == 1 <==> s.undervoltage,
        (status_word(s) / 0x200) % 2 == 1 <==> s.overcurrent,
        (status_word(s) / 0x400) % 2 == 1 <==> s.overtemperature,
        (status_word(s) / 0x800) % 2 == 1 <==> s.magnetic_encoder_fault,
        (status_word(s) / 0x1000) % 2 == 1 <==> s.stall,
        (status_word(s) / 0x2000) % 2 == 1 <==> s.uncalibrated,
        status_word(s) / 0x4000 == s.mode % 4,
{
}

/// Each fault of the motor shows as the common flag of the same fault, and no flag
/// shows without its fault.
pub proof fn law_faults_keep_their_meaning(s: StatusBits, common: ErrorFlags)
    requires
        common.common_bits() == status_flags(s),
    ensures
        common.has(ErrorFlags::UNDER_VOLTAGE) == s.undervoltage,
        common.has(ErrorFlags::OVER_CURRENT) == s.overcurrent,
        common.has(ErrorFlags::MOTOR_OVERHEAT) == s.overtemperature,
        common.has(ErrorFlags::STALL) == s.stall,
        common.has(ErrorFlags::ENCODER_FAULT) == s.magnetic_encoder_fault,
        common.has(ErrorFlags::UNCALIBRATED) == s.uncalibrated,
        !common.has(ErrorFlags::OVER_VOLTAGE),
        !common.has(ErrorFlags::DRIVER_OVERHEAT),
        !common.has(ErrorFlags::MOTOR_SHORT),
        !common.has(ErrorFlags::SIGNAL_TIMEOUT),
{
    feedback::law_flags_read_back(
        s.undervoltage,
        false,
        s.overcurrent,
        s.overtemperature,
        false,
        s.stall,
        false,
        false,
        s.magnetic_encoder_fault,
        s.uncalibrated,
        common,
    );
}

/// Reading the status measures, asks for the bus voltage last, and takes no harm where
/// that stays away. The voltage that is told is the one that was read; temperature
/// and faults are those of the measurement.
pub proof fn law_status_is_what_was_read(
    m: MotorState,
    after: MotorState,
    g: Gathered,
    s: MotorStatus,
)
    requires
        status_result(after, Ok(g), Ok(s)),
    ensures
        status_steps(m).len() == plan::measure_steps(m).len() + 1,
        status_steps(m).drop_last() == plan::measure_steps(m),
        status_steps(m).last().request == Request::Read(Param::Vbus),
        status_steps(m).last().purpose == Purpose::Voltage,
        status_steps(m).last().optional,
        s.voltage == g.voltage,
        g.status matches Some(fb) ==> s.temperature == fb.temperature && s.error.has(
            ErrorFlags::STALL,
        ) == fb.status.stall && s.error.has(ErrorFlags::UNDER_VOLTAGE) == fb.status.undervoltage
            && s.error.raw_bits() % 0x100 == fb.status.device_id,
        g.status is None ==> s.temperature is None && s.error.raw_bits() == 0
            && s.error.common_bits() == 0,
{
    assert(status_steps(m).drop_last() =~= plan::measure_steps(m));
    let fb = plan::measurement(after, g)->Some_0;
    law_faults_keep_their_meaning(fb.status, s.error);
    law_bits_of_the_status_word(fb.status);
    if g.status is None {
        feedback::law_flags_read_back(
            false,
            false,
            false,
            false,
            false,
            false,
            false,
            false,
            false,
            false,
            s.error,
        );
    }
}

/// The firmware modes are called by the names of the run modes.
pub proof fn law_names_of_the_modes(m: feedback::RunMode)
    ensures
        mode_text(firmware_mode(m)) == (match m {
            feedback::RunMode::Mit => "Mit"@,
            feedback::RunMode::Position => "Position"@,
            feedback::RunMode::Velocity => "Velocity"@,
            feedback::RunMode::Torque => "Torque"@,
        }),
{
}

} // verus!
