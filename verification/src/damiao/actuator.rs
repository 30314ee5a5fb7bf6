//! The common actuator operations on a DAMIAO motor.
//!
//! Every command goes to a channel of its mode and is ignored in any other mode,
//! so a command in the wrong mode is refused here. There is no torque mode:
//! torque is commanded in MIT mode, without gains.
use crate::bytes;
use crate::damiao::bus::{Action, DamiaoBus, Phase};
use crate::damiao::driver;
use crate::damiao::driver::{DamiaoMotor, MotorView};
use crate::damiao::error as dm_error;
use crate::damiao::feedback::{ErrorCode, Feedback};
use crate::damiao::frame;
use crate::damiao::frame::MitCodes;
use crate::damiao::register::ControlMode;
use crate::damiao::scan;
use crate::damiao::scan::scan_bus_on;
use crate::error;
use crate::feedback;
use crate::feedback::{ErrorFlags, RunMode};
use crate::ids;
use crate::progress::Quiet;
use vstd::prelude::*;
use vstd::string::StringExecFns;

verus! {

/// Slow-changing status. Feedback carries no bus voltage.
#[derive(Debug, Clone, Copy, PartialEq, Eq, Structural)]
pub struct MotorStatus {
    /// Rotor temperature, deg C.
    pub temperature_c: u8,
    pub error: ErrorFlags,
}

/// That `r` is `result`, its error told as a common error.
pub open spec fn common<T>(r: Result<T, error::Error>, result: Result<T, dm_error::Error>) -> bool {
    match result {
        Ok(v) => r == Ok::<T, error::Error>(v),
        Err(e) => r matches Err(c) && c@ == dm_error::common_error(e),
    }
}

/// The common bit of a status code.
pub open spec fn fault_bit(err: ErrorCode) -> u32 {
    match err {
        ErrorCode::OverVoltage => ErrorFlags::OVER_VOLTAGE,
        ErrorCode::UnderVoltage => ErrorFlags::UNDER_VOLTAGE,
        ErrorCode::OverCurrent => ErrorFlags::OVER_CURRENT,
        ErrorCode::MosOverTemp => ErrorFlags::DRIVER_OVERHEAT,
        ErrorCode::CoilOverTemp => ErrorFlags::MOTOR_OVERHEAT,
        ErrorCode::CommLost => ErrorFlags::SIGNAL_TIMEOUT,
        ErrorCode::Overload => ErrorFlags::STALL,
        ErrorCode::Disabled | ErrorCode::Enabled | ErrorCode::Unknown(_) => 0,
    }
}

/// A status code as common flags.
pub fn dm_err_to_misa(err: ErrorCode) -> (r: ErrorFlags)
    ensures
        r.common_bits() == fault_bit(err),
        r.raw_bits() == err.nibble(),
{
    let bits: u32 = match err {
        ErrorCode::OverVoltage => ErrorFlags::OVER_VOLTAGE,
        ErrorCode::UnderVoltage => ErrorFlags::UNDER_VOLTAGE,
        ErrorCode::OverCurrent => ErrorFlags::OVER_CURRENT,
        ErrorCode::MosOverTemp => ErrorFlags::DRIVER_OVERHEAT,
        ErrorCode::CoilOverTemp => ErrorFlags::MOTOR_OVERHEAT,
        ErrorCode::CommLost => ErrorFlags::SIGNAL_TIMEOUT,
        ErrorCode::Overload => ErrorFlags::STALL,
        ErrorCode::Disabled | ErrorCode::Enabled | ErrorCode::Unknown(_) => 0,
    };
    ErrorFlags::new(bits, err.raw() as u32)
}

/// A status raises a common flag if and only if it is a fault.
pub proof fn law_faults_raise_flags(err: ErrorCode)
    ensures
        fault_bit(err) != 0 <==> (!(err is Unknown) && 0x8 <= err.nibble() <= 0xE),
{
}

/// Each fault that a motor reports shows as the common flag of that fault and of no
/// other.
pub proof fn law_faults_keep_their_meaning(err: ErrorCode, flags: ErrorFlags)
    requires
        flags.common_bits() == fault_bit(err),
    ensures
        flags.has(ErrorFlags::OVER_VOLTAGE) <==> err == ErrorCode::OverVoltage,
        flags.has(ErrorFlags::UNDER_VOLTAGE) <==> err == ErrorCode::UnderVoltage,
        flags.has(ErrorFlags::OVER_CURRENT) <==> err == ErrorCode::OverCurrent,
        flags.has(ErrorFlags::DRIVER_OVERHEAT) <==> err == ErrorCode::MosOverTemp,
        flags.has(ErrorFlags::MOTOR_OVERHEAT) <==> err == ErrorCode::CoilOverTemp,
        flags.has(ErrorFlags::SIGNAL_TIMEOUT) <==> err == ErrorCode::CommLost,
        flags.has(ErrorFlags::STALL) <==> err == ErrorCode::Overload,
        !flags.has(ErrorFlags::MOTOR_SHORT),
        !flags.has(ErrorFlags::ENCODER_FAULT),
        !flags.has(ErrorFlags::UNCALIBRATED),
{
    feedback::lemma_or_zero();
    feedback::law_flags_read_back(
        err == ErrorCode::UnderVoltage,
        err == ErrorCode::OverVoltage,
        err == ErrorCode::OverCurrent,
        err == ErrorCode::CoilOverTemp,
        err == ErrorCode::MosOverTemp,
        err == ErrorCode::Overload,
        false,
        err == ErrorCode::CommLost,
        false,
        false,
        flags,
    );
}

/// The control mode for a run mode.
pub open spec fn control_mode_for(m: RunMode) -> ControlMode {
    match m {
        RunMode::Mit => ControlMode::Mit,
        RunMode::Position => ControlMode::PosVel,
        RunMode::Velocity => ControlMode::Vel,
        RunMode::Torque => ControlMode::Mit,
    }
}

/// The run mode for a control mode.
pub open spec fn run_mode_for(m: ControlMode) -> RunMode {
    match m {
        ControlMode::Mit => RunMode::Mit,
        ControlMode::PosVel => RunMode::Position,
        ControlMode::Vel => RunMode::Velocity,
        ControlMode::ForcePos => RunMode::Position,
    }
}

/// The run mode that a motor reports is the one that was set; torque runs in MIT
/// mode and is reported as such.
pub proof fn law_run_mode_round_trip(m: RunMode)
    ensures
        run_mode_for(control_mode_for(m)) == (if m == RunMode::Torque {
            RunMode::Mit
        } else {
            m
        }),
{
}

/// The control mode for a run mode.
pub fn map_misa_run_mode(m: RunMode) -> (r: ControlMode)
    ensures
        r == control_mode_for(m),
{
    match m {
        RunMode::Mit => ControlMode::Mit,
        RunMode::Position => ControlMode::PosVel,
        RunMode::Velocity => ControlMode::Vel,
        RunMode::Torque => ControlMode::Mit,
    }
}

/// The run mode for a control mode.
pub fn map_dm_run_mode(m: ControlMode) -> (r: RunMode)
    ensures
        r == run_mode_for(m),
{
    match m {
        ControlMode::Mit => RunMode::Mit,
        ControlMode::PosVel => RunMode::Position,
        ControlMode::Vel => RunMode::Velocity,
        ControlMode::ForcePos => RunMode::Position,
    }
}

/// The name of a control mode.
pub open spec fn mode_text(m: ControlMode) -> Seq<char> {
    match m {
        ControlMode::Mit => "Mit"@,
        ControlMode::PosVel => "PosVel"@,
        ControlMode::Vel => "Vel"@,
        ControlMode::ForcePos => "ForcePos"@,
    }
}

/// The name of a control mode.
fn mode_name(m: ControlMode) -> (r: &'static str)
    ensures
        r@ == mode_text(m),
{
    match m {
        ControlMode::Mit => "Mit",
        ControlMode::PosVel => "PosVel",
        ControlMode::Vel => "Vel",
        ControlMode::ForcePos => "ForcePos",
    }
}

/// The error of a command in the wrong mode.
pub open spec fn wrong_mode(op: Seq<char>, expected: ControlMode, current: ControlMode) -> error::ErrorView {
    error::ErrorView::Other(
        op + " requires "@ + mode_text(expected) + " control mode (currently "@ + mode_text(current)
            + "); call set_run_mode first"@,
    )
}

/// Refuses a command in the wrong mode.
pub fn require_mode(current: ControlMode, expected: ControlMode, op: &str) -> (r: Result<
    (),
    error::Error,
>)
    ensures
        match r {
            Ok(_) => current == expected,
            Err(e) => current != expected && e@ == wrong_mode(op@, expected, current),
        },
{
    if current != expected {
        let mut out: String = String::new();
        out.append(op);
        out.append(" requires ");
        out.append(mode_name(expected));
        out.append(" control mode (currently ");
        out.append(mode_name(current));
        out.append("); call set_run_mode first");
        assert(error::ErrorView::Other(out@) =~= wrong_mode(op@, expected, current));
        return Err(error::Error::Other(out));
    }
    Ok(())
}

/// What a control command does behind the check of its mode: the wrong mode is an
/// error and nothing is sent.
pub open spec fn mode_controlled(
    m: MotorView,
    after: MotorView,
    h0: Seq<Phase>,
    h: Seq<Phase>,
    r: Result<Feedback, error::Error>,
    op: Seq<char>,
    expected: ControlMode,
    can_id: u16,
    data: Seq<u8>,
) -> bool {
    if m.mode != expected {
        &&& h == h0
        &&& after == m
        &&& r matches Err(e) && e@ == wrong_mode(op, expected, m.mode)
    } else {
        let result = if !m.enabled {
            Err(dm_error::Error::NotEnabled { motor_id: m.can_id })
        } else {
            driver::phase_feedback(m, h.last())
        };
        &&& driver::controlled(m, after, h0, h, result, can_id, data)
        &&& common(r, result)
    }
}

/// What a position command does.
pub open spec fn position_commanded(
    m: MotorView,
    after: MotorView,
    h0: Seq<Phase>,
    h: Seq<Phase>,
    r: Result<Feedback, error::Error>,
    position_bits: u32,
    max_speed_bits: u32,
) -> bool {
    mode_controlled(
        m,
        after,
        h0,
        h,
        r,
        "set_position"@,
        ControlMode::PosVel,
        (0x100 + m.can_id) as u16,
        frame::pos_vel_payload(position_bits, max_speed_bits),
    )
}

/// What a velocity command does.
pub open spec fn velocity_commanded(
    m: MotorView,
    after: MotorView,
    h0: Seq<Phase>,
    h: Seq<Phase>,
    r: Result<Feedback, error::Error>,
    velocity_bits: u32,
) -> bool {
    mode_controlled(
        m,
        after,
        h0,
        h,
        r,
        "set_velocity"@,
        ControlMode::Vel,
        (0x200 + m.can_id) as u16,
        frame::vel_payload(velocity_bits),
    )
}

/// What a torque command does.
pub open spec fn torque_commanded(
    m: MotorView,
    after: MotorView,
    h0: Seq<Phase>,
    h: Seq<Phase>,
    r: Result<Feedback, error::Error>,
    codes: frame::MitCodesView,
) -> bool {
    mode_controlled(
        m,
        after,
        h0,
        h,
        r,
        "set_torque"@,
        ControlMode::Mit,
        m.can_id as u16,
        frame::mit_payload(frame::torque_codes(codes)),
    )
}

/// What a joint command does.
pub open spec fn joint_commanded(
    m: MotorView,
    after: MotorView,
    h0: Seq<Phase>,
    h: Seq<Phase>,
    r: Result<Feedback, error::Error>,
    codes: frame::MitCodesView,
) -> bool {
    mode_controlled(
        m,
        after,
        h0,
        h,
        r,
        "mit_control"@,
        ControlMode::Mit,
        m.can_id as u16,
        frame::mit_payload(codes),
    )
}

/// What a mode switch gives that went through these phases.
pub open spec fn switch_out(m: MotorView, mode: ControlMode, phases: Seq<Phase>) -> Result<
    (),
    dm_error::Error,
> {
    if m.mode_confirmed && m.mode == mode {
        Ok(())
    } else {
        driver::switch_result(m, mode, phases)
    }
}

/// The motor after a successful mode switch that went through these phases.
pub open spec fn mode_changed(m: MotorView, mode: ControlMode, phases: Seq<Phase>) -> MotorView {
    if m.mode_confirmed && m.mode == mode {
        m
    } else {
        driver::switched(m, mode, phases, Ok(()))
    }
}

/// That a mode switch took the motor and the history from one state to another.
pub open spec fn switched_between(
    m: MotorView,
    after: MotorView,
    mode: ControlMode,
    h0: Seq<Phase>,
    h: Seq<Phase>,
) -> bool {
    driver::mode_switch(m, after, mode, h0, h, switch_out(m, mode, h.skip(h0.len() as int)))
}

/// What setting the run mode of an enabled motor does once it is disabled: the
/// mode is switched, and where that succeeds the motor is enabled again.
pub open spec fn switched_and_enabled(
    disabled: MotorView,
    after: MotorView,
    mode: ControlMode,
    h1: Seq<Phase>,
    h: Seq<Phase>,
    r: Result<(), error::Error>,
) -> bool {
    let failed = switch_out(disabled, mode, h.skip(h1.len() as int));
    let changed = mode_changed(disabled, mode, h.drop_last().skip(h1.len() as int));
    ||| {
        &&& switched_between(disabled, after, mode, h1, h)
        &&& failed is Err
        &&& common(r, failed)
    }
    ||| {
        &&& h.len() > h1.len()
        &&& switched_between(disabled, changed, mode, h1, h.drop_last())
        &&& switch_out(disabled, mode, h.drop_last().skip(h1.len() as int)) is Ok
        &&& driver::special_phase(changed, h.last(), 0xFC)
        &&& match driver::phase_feedback_if_any(changed, h.last()) {
            Ok(_) => r is Ok && after == (MotorView { enabled: true, ..changed }),
            Err(e) => after == changed && (r matches Err(c) && c@ == dm_error::common_error(e)),
        }
    }
}

/// What setting the run mode does: a motor that is enabled is disabled for the
/// switch and enabled again after it.
pub open spec fn run_mode_set(
    m: MotorView,
    after: MotorView,
    mode: RunMode,
    h0: Seq<Phase>,
    h: Seq<Phase>,
    r: Result<(), error::Error>,
) -> bool {
    let want = control_mode_for(mode);
    if !m.enabled {
        &&& switched_between(m, after, want, h0, h)
        &&& common(r, switch_out(m, want, h.skip(h0.len() as int)))
    } else {
        let n = h0.len() as int;
        &&& h.len() > n
        &&& h.take(n) == h0
        &&& driver::special_phase(m, h[n], 0xFD)
        &&& match driver::phase_feedback_if_any(m, h[n]) {
            Err(e) => {
                &&& h.len() == n + 1
                &&& after == m
                &&& r matches Err(c) && c@ == dm_error::common_error(e)
            },
            Ok(_) => switched_and_enabled(
                MotorView { enabled: false, ..m },
                after,
                want,
                h.take(n + 1),
                h,
                r,
            ),
        }
    }
}

/// The control mode of each run mode is the one that its command is sent in, by
/// its number in the motor: 2 for position, 3 for velocity, 1 for joint and torque
/// commands.
pub proof fn law_number_of_each_run_mode(mode: RunMode)
    ensures
        control_mode_for(mode).value() == 2 <==> mode == RunMode::Position,
        control_mode_for(mode).value() == 3 <==> mode == RunMode::Velocity,
        control_mode_for(mode).value() == 1 <==> mode == RunMode::Mit || mode == RunMode::Torque,
        run_mode_for(ControlMode::Mit) == RunMode::Mit,
        run_mode_for(ControlMode::PosVel) == RunMode::Position,
        run_mode_for(ControlMode::Vel) == RunMode::Velocity,
        run_mode_for(ControlMode::ForcePos) == RunMode::Position,
{
}

/// After a run mode was set, its command is not refused: an enabled motor gets a
/// frame on the channel of that command, and the other commands send nothing.
pub proof fn law_run_mode_admits_its_command(
    m: MotorView,
    after: MotorView,
    mode: RunMode,
    h0: Seq<Phase>,
    h: Seq<Phase>,
    set: Result<(), error::Error>,
    end: MotorView,
    h2: Seq<Phase>,
    r: Result<Feedback, error::Error>,
    bits: u32,
    speed_bits: u32,
    codes: frame::MitCodesView,
)
    requires
        run_mode_set(m, after, mode, h0, h, set),
        set is Ok,
        after.enabled,
    ensures
        position_commanded(after, end, h, h2, r, bits, speed_bits) ==> if mode
            == RunMode::Position {
            driver::one_frame(h, h2, 0x100 + m.can_id, h2.last().action->Some_0->Send_data)
        } else {
            h2 == h && r is Err
        },
        velocity_commanded(after, end, h, h2, r, bits) ==> if mode == RunMode::Velocity {
            driver::one_frame(h, h2, 0x200 + m.can_id, h2.last().action->Some_0->Send_data)
        } else {
            h2 == h && r is Err
        },
        torque_commanded(after, end, h, h2, r, codes) ==> if mode == RunMode::Torque || mode
            == RunMode::Mit {
            driver::one_frame(h, h2, m.can_id as int, h2.last().action->Some_0->Send_data)
        } else {
            h2 == h && r is Err
        },
        joint_commanded(after, end, h, h2, r, codes) ==> if mode == RunMode::Torque || mode
            == RunMode::Mit {
            driver::one_frame(h, h2, m.can_id as int, h2.last().action->Some_0->Send_data)
        } else {
            h2 == h && r is Err
        },
{
    law_run_mode_keeps_enable_state(m, after, mode, h0, h, set);
    assert(after.can_id == m.can_id);
    if h2.len() == h.len() + 1 {
        assert(h2.take(h.len() as int) =~= h2.drop_last());
    }
}

/// A run mode is set by writing its number to the mode register of the motor,
/// unless the motor is known to be in its mode; an enabled motor is sent the disable
/// frame before.
pub proof fn law_run_mode_reaches_the_register(
    m: MotorView,
    after: MotorView,
    mode: RunMode,
    h0: Seq<Phase>,
    h: Seq<Phase>,
    r: Result<(), error::Error>,
)
    requires
        run_mode_set(m, after, mode, h0, h, r),
        r is Ok,
        !m.mode_confirmed,
    ensures
        ({
            let k = h0.len() + (if m.enabled {
                1int
            } else {
                0
            });
            &&& h.len() > k
            &&& m.enabled ==> (h[h0.len() as int].action matches Some(Action::Send { can_id, data, .. })
                && can_id == m.can_id && data == seq![
                0xFFu8,
                0xFF,
                0xFF,
                0xFF,
                0xFF,
                0xFF,
                0xFF,
                0xFD,
            ])
            &&& h[k].action matches Some(Action::Send { can_id, data, .. }) && can_id == 0x7FF
                && data == seq![
                m.can_id,
                0,
                0x55,
                10,
                match mode {
                    RunMode::Position => 2u8,
                    RunMode::Velocity => 3,
                    RunMode::Mit | RunMode::Torque => 1,
                },
                0,
                0,
                0,
            ]
        }),
{
    let want = control_mode_for(mode);
    let n = h0.len() as int;
    if !m.enabled {
        driver::law_switching_writes_the_number(
            m,
            after,
            want,
            h0,
            h,
            switch_out(m, want, h.skip(n)),
        );
    } else {
        let disabled = MotorView { enabled: false, ..m };
        let h1 = h.take(n + 1);
        let changed = mode_changed(disabled, want, h.drop_last().skip(h1.len() as int));
        driver::law_switching_writes_the_number(
            disabled,
            changed,
            want,
            h1,
            h.drop_last(),
            switch_out(disabled, want, h.drop_last().skip(h1.len() as int)),
        );
    }
}

/// A torque command of an enabled motor in MIT mode sends its torque and no gains.
pub proof fn law_torque_on_the_wire(
    m: MotorView,
    after: MotorView,
    h0: Seq<Phase>,
    h: Seq<Phase>,
    r: Result<Feedback, error::Error>,
    codes: frame::MitCodesView,
)
    requires
        torque_commanded(m, after, h0, h, r, codes),
        codes.fits(),
        m.enabled,
        m.mode == ControlMode::Mit,
    ensures
        ({
            let d = h.last().action->Some_0->Send_data;
            &&& driver::one_frame(h0, h, m.can_id as int, d)
            &&& d.len() == 8
            &&& d[3] % 16 * 0x100 + d[4] == 0
            &&& d[5] * 0x10 + d[6] / 16 == 0
            &&& d[6] % 16 * 0x100 + d[7] == codes.torque
        }),
{
    frame::law_mit_fields(frame::torque_codes(codes));
    assert(h.take(h0.len() as int) =~= h.drop_last());
}

/// A position command of an enabled motor in position mode, and a velocity command
/// in velocity mode, send the numbers that they were given.
pub proof fn law_commands_on_the_wire(
    m: MotorView,
    after: MotorView,
    h0: Seq<Phase>,
    h: Seq<Phase>,
    r: Result<Feedback, error::Error>,
    bits: u32,
    speed_bits: u32,
    codes: frame::MitCodesView,
)
    requires
        m.enabled,
        codes.fits(),
    ensures
        position_commanded(m, after, h0, h, r, bits, speed_bits) && m.mode == ControlMode::PosVel
            ==> {
            let d = h.last().action->Some_0->Send_data;
            &&& driver::one_frame(h0, h, 0x100 + m.can_id, d)
            &&& bytes::le_value(d.take(4)) == bits
            &&& bytes::le_value(d.skip(4)) == speed_bits
        },
        velocity_commanded(m, after, h0, h, r, bits) && m.mode == ControlMode::Vel ==> {
            let d = h.last().action->Some_0->Send_data;
            &&& driver::one_frame(h0, h, 0x200 + m.can_id, d)
            &&& bytes::le_value(d.take(4)) == bits
        },
        joint_commanded(m, after, h0, h, r, codes) && m.mode == ControlMode::Mit ==> {
            let d = h.last().action->Some_0->Send_data;
            &&& driver::one_frame(h0, h, m.can_id as int, d)
            &&& d[0] * 0x100 + d[1] == codes.position
            &&& d[2] * 0x10 + d[3] / 16 == codes.velocity
            &&& d[3] % 16 * 0x100 + d[4] == codes.kp
            &&& d[5] * 0x10 + d[6] / 16 == codes.kd
            &&& d[6] % 16 * 0x100 + d[7] == codes.torque
        },
{
    frame::law_pos_vel_payload_holds_the_numbers(bits, speed_bits);
    frame::law_vel_payload_holds_the_velocity(bits);
    frame::law_mit_fields(codes);
    if h.len() == h0.len() + 1 {
        assert(h.take(h0.len() as int) =~= h.drop_last());
    }
}

/// Once a run mode is set, the motor is in the control mode for it and as enabled
/// as it was before.
pub proof fn law_run_mode_keeps_enable_state(
    m: MotorView,
    after: MotorView,
    mode: RunMode,
    h0: Seq<Phase>,
    h: Seq<Phase>,
    r: Result<(), error::Error>,
)
    requires
        run_mode_set(m, after, mode, h0, h, r),
        r is Ok,
    ensures
        after.mode == control_mode_for(mode),
        after.enabled == m.enabled,
{
}

/// Where setting the run mode fails, the motor is never left enabled in a mode
/// that nobody asked for: it is as before, or disabled.
pub proof fn law_failed_run_mode_is_safe(
    m: MotorView,
    after: MotorView,
    mode: RunMode,
    h0: Seq<Phase>,
    h: Seq<Phase>,
    r: Result<(), error::Error>,
)
    requires
        run_mode_set(m, after, mode, h0, h, r),
        r is Err,
    ensures
        after == m || !after.enabled,
{
}

/// Enables the motor; gives feedback if it sends any.
pub fn enable<B: DamiaoBus>(motor: &mut DamiaoMotor<B>) -> (r: Result<
    Option<Feedback>,
    error::Error,
>)
    ensures
        driver::one_phase(old(motor).history(), final(motor).history()),
        driver::special_phase(old(motor)@, final(motor).history().last(), 0xFC),
        common(r, driver::phase_feedback_if_any(old(motor)@, final(motor).history().last())),
        final(motor)@ == (MotorView { enabled: old(motor)@.enabled || r is Ok, ..old(motor)@ }),
{
    match motor.enable() {
        Ok(fb) => Ok(fb),
        Err(e) => Err(error::Error::from(e)),
    }
}

/// Disables the motor.
pub fn disable<B: DamiaoBus>(motor: &mut DamiaoMotor<B>) -> (r: Result<(), error::Error>)
    ensures
        driver::one_phase(old(motor).history(), final(motor).history()),
        driver::special_phase(old(motor)@, final(motor).history().last(), 0xFD),
        match driver::phase_feedback_if_any(old(motor)@, final(motor).history().last()) {
            Ok(_) => r is Ok,
            Err(e) => r matches Err(c) && c@ == dm_error::common_error(e),
        },
        final(motor)@ == (MotorView { enabled: old(motor)@.enabled && r is Err, ..old(motor)@ }),
{
    match motor.disable() {
        Ok(()) => Ok(()),
        Err(e) => Err(error::Error::from(e)),
    }
}

/// Sets the run mode.
pub fn set_run_mode<B: DamiaoBus>(motor: &mut DamiaoMotor<B>, mode: RunMode) -> (r: Result<
    (),
    error::Error,
>)
    ensures
        run_mode_set(
            old(motor)@,
            final(motor)@,
            mode,
            old(motor).history(),
            final(motor).history(),
            r,
        ),
{
    let want = map_misa_run_mode(mode);
    let was_enabled: bool = motor.is_enabled();
    let ghost h0 = motor.history();
    let ghost m = motor@;
    if was_enabled {
        if let Err(e) = motor.disable() {
            assert(motor.history().take(h0.len() as int) =~= h0);
            return Err(error::Error::from(e));
        }
    }
    let ghost h1 = motor.history();
    let ghost m1 = motor@;
    let switched = motor.switch_mode(want);
    let ghost h2 = motor.history();
    proof {
        assert(h2.take(h1.len() as int) =~= h1);
        if was_enabled {
            assert(h1.take(h0.len() as int) =~= h0);
            assert(h2.take(h0.len() as int) =~= h1.take(h0.len() as int)) by {
                assert forall|k: int| 0 <= k < h1.len() implies h2[k] == h1[k] by {
                    assert(h2.take(h1.len() as int)[k] == h1[k]);
                }
            }
            assert(h2[h0.len() as int] == h2.take(h1.len() as int)[h0.len() as int]);
        }
    }
    if let Err(e) = switched {
        return Err(error::Error::from(e));
    }
    if was_enabled {
        let again = motor.enable();
        proof {
            let h3 = motor.history();
            assert(h3.take(h1.len() as int) =~= h2.take(h1.len() as int)) by {
                assert forall|k: int| 0 <= k < h2.len() implies h3[k] == h2[k] by {
                    assert(h3.drop_last()[k] == h2[k]);
                }
            }
            assert(h3.take(h0.len() as int) =~= h2.take(h0.len() as int)) by {
                assert forall|k: int| 0 <= k < h2.len() implies h3[k] == h2[k] by {
                    assert(h3.drop_last()[k] == h2[k]);
                }
            }
            assert(h3[h0.len() as int] == h3.drop_last()[h0.len() as int]);
            assert(h3.drop_last() == h2);
        }
        if let Err(e) = again {
            return Err(error::Error::from(e));
        }
    }
    Ok(())
}

/// Position control, in position-velocity mode.
pub fn set_position<B: DamiaoBus>(
    motor: &mut DamiaoMotor<B>,
    position_bits: u32,
    max_speed_bits: u32,
) -> (r: Result<Feedback, error::Error>)
    ensures
        position_commanded(
            old(motor)@,
            final(motor)@,
            old(motor).history(),
            final(motor).history(),
            r,
            position_bits,
            max_speed_bits,
        ),
{
    require_mode(motor.mode(), ControlMode::PosVel, "set_position")?;
    match motor.set_pos_vel(position_bits, max_speed_bits) {
        Ok(fb) => Ok(fb),
        Err(e) => Err(error::Error::from(e)),
    }
}

/// Velocity control, in velocity mode.
pub fn set_velocity<B: DamiaoBus>(motor: &mut DamiaoMotor<B>, velocity_bits: u32) -> (r: Result<
    Feedback,
    error::Error,
>)
    ensures
        velocity_commanded(
            old(motor)@,
            final(motor)@,
            old(motor).history(),
            final(motor).history(),
            r,
            velocity_bits,
        ),
{
    require_mode(motor.mode(), ControlMode::Vel, "set_velocity")?;
    match motor.set_vel(velocity_bits) {
        Ok(fb) => Ok(fb),
        Err(e) => Err(error::Error::from(e)),
    }
}

/// Torque control, in MIT mode: the torque of `codes` is sent without gains and
/// without velocity.
pub fn set_torque<B: DamiaoBus>(motor: &mut DamiaoMotor<B>, codes: &MitCodes) -> (r: Result<
    Feedback,
    error::Error,
>)
    ensures
        torque_commanded(
            old(motor)@,
            final(motor)@,
            old(motor).history(),
            final(motor).history(),
            r,
            codes@,
        ),
{
    require_mode(motor.mode(), ControlMode::Mit, "set_torque")?;
    match motor.mit_control(&codes.torque_only()) {
        Ok(fb) => Ok(fb),
        Err(e) => Err(error::Error::from(e)),
    }
}

/// MIT control, in MIT mode.
pub fn mit_control<B: DamiaoBus>(motor: &mut DamiaoMotor<B>, codes: &MitCodes) -> (r: Result<
    Feedback,
    error::Error,
>)
    ensures
        joint_commanded(
            old(motor)@,
            final(motor)@,
            old(motor).history(),
            final(motor).history(),
            r,
            codes@,
        ),
{
    require_mode(motor.mode(), ControlMode::Mit, "mit_control")?;
    match motor.mit_control(codes) {
        Ok(fb) => Ok(fb),
        Err(e) => Err(error::Error::from(e)),
    }
}

/// Reads the state without changing what is commanded.
pub fn measure<B: DamiaoBus>(motor: &mut DamiaoMotor<B>) -> (r: Result<Feedback, error::Error>)
    ensures
        final(motor)@ == old(motor)@,
        exists|x: Result<Feedback, dm_error::Error>|
            {
                &&& #[trigger] driver::measured(
                    old(motor)@,
                    old(motor).history(),
                    final(motor).history(),
                    x,
                )
                &&& common(r, x)
            },
{
    let x = motor.measure();
    assert(driver::measured(old(motor)@, old(motor).history(), motor.history(), x));
    match x {
        Ok(fb) => Ok(fb),
        Err(e) => Err(error::Error::from(e)),
    }
}

/// Makes the present position the soft zero. `new_zero` gives its bit pattern from
/// a measurement and the bit pattern of the old one.
pub fn set_zero<B: DamiaoBus, F: Fn(Feedback, u32) -> u32>(
    motor: &mut DamiaoMotor<B>,
    new_zero: &F,
) -> (r: Result<(), error::Error>)
    requires
        forall|fb: Feedback, old_bits: u32| new_zero.requires((fb, old_bits)),
    ensures
        exists|x: Result<(), dm_error::Error>|
            {
                &&& #[trigger] driver::zeroed(
                    old(motor)@,
                    final(motor)@,
                    old(motor).history(),
                    final(motor).history(),
                    new_zero,
                    x,
                )
                &&& common(r, x)
            },
{
    match motor.set_zero(new_zero) {
        Ok(v) => Ok(v),
        Err(e) => Err(error::Error::from(e)),
    }
}

/// Reads rotor temperature and fault flags.
pub fn read_status<B: DamiaoBus>(motor: &mut DamiaoMotor<B>) -> (r: Result<
    MotorStatus,
    error::Error,
>)
    ensures
        final(motor)@ == old(motor)@,
        exists|x: Result<Feedback, dm_error::Error>|
            {
                &&& #[trigger] driver::measured(
                    old(motor)@,
                    old(motor).history(),
                    final(motor).history(),
                    x,
                )
                &&& match x {
                    Ok(fb) => r matches Ok(s) && s.temperature_c == fb.t_rotor
                        && s.error.common_bits() == fault_bit(fb.err) && s.error.raw_bits()
                        == fb.err.nibble(),
                    Err(e) => r matches Err(c) && c@ == dm_error::common_error(e),
                }
            },
{
    let x = motor.measure();
    assert(driver::measured(old(motor)@, old(motor).history(), motor.history(), x));
    match x {
        Ok(fb) => Ok(MotorStatus { temperature_c: fb.t_rotor, error: dm_err_to_misa(fb.err) }),
        Err(e) => Err(error::Error::from(e)),
    }
}

/// The run mode that the motor is taken to be in.
pub fn current_run_mode_hint<B: DamiaoBus>(motor: &DamiaoMotor<B>) -> (r: Option<RunMode>)
    ensures
        r == Some(run_mode_for(motor@.mode)),
{
    Some(map_dm_run_mode(motor.mode()))
}

/// What a scan did to a motor's bus, and gave.
pub open spec fn scanned(
    h0: Seq<Phase>,
    h: Seq<Phase>,
    from: u8,
    to: u8,
    timeout_ns: u64,
    found: Result<Seq<u8>, error::ErrorView>,
) -> bool {
    let n = h0.len() as int;
    &&& h.len() >= n + 2
    &&& h.take(n) == h0
    &&& scan::drain_phase(h[n])
    &&& h[n + 1].action matches Some(Action::SetTimeout { timeout_ns: t, result })
    &&& t == timeout_ns
    &&& h[n + 1].heard.len() == 0
    &&& match result {
        Err(e) => h.len() == n + 2 && found == Err::<Seq<u8>, error::ErrorView>(
            dm_error::common_error(e),
        ),
        Ok(_) => {
            &&& scan::scan_phases(ids::ids_between(from, to), timeout_ns, h.skip(n + 2))
            &&& found == Ok::<Seq<u8>, error::ErrorView>(
                scan::scan_found(ids::ids_between(from, to), h.skip(n + 2)),
            )
        },
    }
}

/// The ids that a scan found, or what its error says.
pub open spec fn found_view(r: Result<Vec<u8>, error::Error>) -> Result<Seq<u8>, error::ErrorView> {
    match r {
        Ok(ids) => Ok(ids@),
        Err(e) => Err(e@),
    }
}

/// Looks for motors on the bus of `motor`.
pub fn scan_bus<B: DamiaoBus, G: Fn()>(
    motor: &mut DamiaoMotor<B>,
    from: u8,
    to: u8,
    timeout_ns: u64,
    gap: &G,
) -> (r: Result<Vec<u8>, error::Error>)
    requires
        gap.requires(()),
    ensures
        final(motor)@ == old(motor)@,
        scanned(
            old(motor).history(),
            final(motor).history(),
            from,
            to,
            timeout_ns,
            found_view(r),
        ),
        r is Ok && from <= to ==> gap.ensures((), ()),
{
    let mut quiet: Quiet<B> = Quiet::new();
    match scan_bus_on(motor.bus(), from, to, timeout_ns, &mut quiet, gap) {
        Ok(found) => Ok(found),
        Err(e) => Err(error::Error::from(e)),
    }
}

/// Whether a motor with this id answers.
pub fn probe_motor<B: DamiaoBus, G: Fn()>(
    motor: &mut DamiaoMotor<B>,
    motor_id: u8,
    timeout_ns: u64,
    gap: &G,
) -> (r: Result<bool, error::Error>)
    requires
        gap.requires(()),
    ensures
        final(motor)@ == old(motor)@,
        exists|found: Result<Seq<u8>, error::ErrorView>| #[trigger]
            scanned(
                old(motor).history(),
                final(motor).history(),
                motor_id,
                motor_id,
                timeout_ns,
                found,
            ) && match found {
                Ok(ids) => r == Ok::<bool, error::Error>(ids.contains(motor_id)),
                Err(e) => r matches Err(c) && c@ == e,
            },
        r is Ok ==> gap.ensures((), ()),
{
    let r = scan_bus(motor, motor_id, motor_id, timeout_ns, gap);
    let ghost found = found_view(r);
    assert(scanned(
        old(motor).history(),
        motor.history(),
        motor_id,
        motor_id,
        timeout_ns,
        found,
    ));
    match r {
        Ok(ids) => Ok(ids::contains(&ids, motor_id)),
        Err(e) => Err(e),
    }
}

/// The name of a control mode goes with its number in the mode register.
pub proof fn law_names_of_the_modes(m: ControlMode)
    ensures
        m.value() == 1 ==> mode_text(m) == "Mit"@,
        m.value() == 2 ==> mode_text(m) == "PosVel"@,
        m.value() == 3 ==> mode_text(m) == "Vel"@,
        m.value() == 4 ==> mode_text(m) == "ForcePos"@,
        1 <= m.value() <= 4,
{
}

/// A switch to a mode that is confirmed succeeds and changes nothing; any other gives
/// what its frames gave.
pub proof fn law_confirmed_mode_is_kept(m: MotorView, mode: ControlMode, phases: Seq<Phase>)
    ensures
        m.mode_confirmed && m.mode == mode ==> switch_out(m, mode, phases) is Ok && mode_changed(
            m,
            mode,
            phases,
        ) == m,
        !m.mode_confirmed || m.mode != mode ==> switch_out(m, mode, phases)
            == driver::switch_result(m, mode, phases) && mode_changed(m, mode, phases).mode == mode
            && mode_changed(m, mode, phases).mode_confirmed && mode_changed(m, mode, phases).can_id
            == m.can_id && mode_changed(m, mode, phases).enabled == m.enabled,
{
}

} // verus!
