//! A motor together with its bus, behind the common actuator operations.
//!
//! The firmware has no run modes and no command that switches the servo on:
//! every motion command picks its controller. [`LkMotor::enable`] therefore wakes
//! the motor, anchors zero where it stands, and commands it to stay there.
use crate::error;
use crate::feedback;
use crate::feedback::RunMode;
use crate::lkmotor::bus;
use crate::lkmotor::bus::{Exchange, LkBus, Response};
use crate::lkmotor::command::Command;
use crate::lkmotor::error as lk_error;
use crate::lkmotor::motor;
use crate::lkmotor::motor::{ErrorFlags, Motor, MotorFeedback, MotorStatus};
use crate::lkmotor::motor_id::MotorId;
use crate::lkmotor::request;
use vstd::prelude::*;

verus! {

/// When the zero anchor of positions is set.
#[derive(Debug, Clone, Copy, PartialEq, Eq, Structural)]
pub enum PositionAnchor {
    /// By the first position command.
    OnFirstUse,
    /// Only by an explicit `set_zero`.
    Manual,
}

/// A motor on a bus of its own.
pub struct LkMotor<B: LkBus> {
    bus: B,
    motor: Motor,
    anchor: PositionAnchor,
    enabled: bool,
}

/// That `r` is `result`, its error told as a common error.
pub open spec fn common<T>(r: Result<T, error::Error>, result: Result<T, lk_error::Error>) -> bool {
    match result {
        Ok(v) => r == Ok::<T, error::Error>(v),
        Err(e) => r matches Err(c) && c@ == lk_error::common_error(e),
    }
}

/// `first`, then, where it succeeded, `second`.
pub open spec fn after_success<T>(
    first: motor::Outcome<()>,
    second: motor::Outcome<T>,
) -> motor::Outcome<T> {
    match first.result {
        Err(e) => motor::Outcome {
            motor: first.motor,
            requests: first.requests,
            result: Err(e),
        },
        Ok(_) => motor::Outcome {
            motor: second.motor,
            requests: first.requests + second.requests,
            result: second.result,
        },
    }
}

/// Rezero, then a position command.
pub open spec fn rezero_and_position_outcome(
    m: Motor,
    delta_centideg: i64,
    max_speed: u32,
    replies: Seq<Result<Response, lk_error::Error>>,
) -> motor::Outcome<MotorFeedback> {
    let zeroed = motor::rezero_outcome(m, replies);
    after_success(
        zeroed,
        motor::set_position_outcome(
            zeroed.motor,
            delta_centideg,
            max_speed,
            replies.skip(zeroed.requests.len() as int),
        ),
    )
}

/// [`LkMotor::enable`]: run, rezero, hold.
pub open spec fn enable_outcome(
    m: Motor,
    hold_speed: u32,
    replies: Seq<Result<Response, lk_error::Error>>,
) -> motor::Outcome<MotorFeedback> {
    let running = motor::run_outcome(m, replies);
    after_success(
        running,
        rezero_and_position_outcome(running.motor, 0, hold_speed, replies.skip(1)),
    )
}

/// [`LkMotor::set_position`]: where the anchor is missing and may be set on first
/// use, it is, and the command is tried again.
pub open spec fn set_position_outcome(
    m: Motor,
    anchor: PositionAnchor,
    delta_centideg: i64,
    max_speed: u32,
    replies: Seq<Result<Response, lk_error::Error>>,
) -> motor::Outcome<MotorFeedback> {
    let first = motor::set_position_outcome(m, delta_centideg, max_speed, replies);
    if first.result matches Err(lk_error::Error::PositionNotAnchored { .. }) && anchor
        == PositionAnchor::OnFirstUse {
        let second = rezero_and_position_outcome(
            first.motor,
            delta_centideg,
            max_speed,
            replies.skip(first.requests.len() as int),
        );
        motor::Outcome {
            motor: second.motor,
            requests: first.requests + second.requests,
            result: second.result,
        }
    } else {
        first
    }
}

/// The speed limit while holding, and of a joint command without velocity: the bit
/// pattern of 1.0 (rad/s of the output).
pub const DEFAULT_HOLD_MAX_SPEED_BITS: u32 = 0x3F80_0000;

/// The bit pattern of a number without its sign.
pub open spec fn magnitude(bits: u32) -> u32 {
    (bits % 0x8000_0000) as u32
}

/// The speed that caps a joint command with this velocity: its magnitude, or the
/// default where the velocity is zero.
pub open spec fn capping_speed(velocity_bits: u32) -> u32 {
    if magnitude(velocity_bits) == 0 {
        DEFAULT_HOLD_MAX_SPEED_BITS
    } else {
        magnitude(velocity_bits)
    }
}

/// The speed that caps a joint command with this velocity, by bit patterns.
pub fn joint_speed_cap(velocity_bits: u32) -> (r: u32)
    ensures
        r == capping_speed(velocity_bits),
{
    let size: u32 = velocity_bits % 0x8000_0000;
    if size == 0 {
        DEFAULT_HOLD_MAX_SPEED_BITS
    } else {
        size
    }
}

/// [`LkMotor::mit_control`], where `max_speed` is the cap: a position command, in
/// which gains and feedforward have no part.
pub open spec fn mit_control_outcome(
    m: Motor,
    anchor: PositionAnchor,
    delta_centideg: i64,
    max_speed: u32,
    kp_bits: u32,
    kd_bits: u32,
    torque_ff_bits: u32,
    replies: Seq<Result<Response, lk_error::Error>>,
) -> motor::Outcome<MotorFeedback> {
    set_position_outcome(m, anchor, delta_centideg, max_speed, replies)
}

/// A joint command of an anchored motor is a single position request, the same as
/// that of a position command, whatever the gains and the feedforward. (A bus that
/// itself answers that a motor is not anchored is the exception: the anchor may
/// then be set anew.)
pub proof fn law_joint_command_is_a_position_command(
    m: Motor,
    anchor: PositionAnchor,
    delta_centideg: i64,
    max_speed: u32,
    kp_bits: u32,
    kd_bits: u32,
    torque_ff_bits: u32,
    replies: Seq<Result<Response, lk_error::Error>>,
)
    requires
        m.motor_zero_centideg is Some,
        !(replies[0] matches Err(lk_error::Error::PositionNotAnchored { .. })),
    ensures
        ({
            let o = mit_control_outcome(
                m,
                anchor,
                delta_centideg,
                max_speed,
                kp_bits,
                kd_bits,
                torque_ff_bits,
                replies,
            );
            &&& o == motor::set_position_outcome(m, delta_centideg, max_speed, replies)
            &&& o.requests.len() == 1
            &&& o.requests[0].command == Command::PositionClosedLoop2.code()
        }),
{
}

/// A joint command never commands a torque, which would stay on.
pub proof fn law_joint_command_sends_no_torque(
    m: Motor,
    anchor: PositionAnchor,
    delta_centideg: i64,
    max_speed: u32,
    kp_bits: u32,
    kd_bits: u32,
    torque_ff_bits: u32,
    replies: Seq<Result<Response, lk_error::Error>>,
    i: int,
)
    requires
        0 <= i < mit_control_outcome(
            m,
            anchor,
            delta_centideg,
            max_speed,
            kp_bits,
            kd_bits,
            torque_ff_bits,
            replies,
        ).requests.len(),
    ensures
        mit_control_outcome(
            m,
            anchor,
            delta_centideg,
            max_speed,
            kp_bits,
            kd_bits,
            torque_ff_bits,
            replies,
        ).requests[i].command != Command::TorqueClosedLoop.code(),
{
}

/// The default speed caps a joint command only where its velocity is zero, of
/// either sign; any other velocity is its own cap, in either direction.
pub proof fn law_default_speed_only_at_rest(velocity_bits: u32)
    ensures
        velocity_bits == 0 || velocity_bits == 0x8000_0000 ==> capping_speed(velocity_bits)
            == DEFAULT_HOLD_MAX_SPEED_BITS,
        0 < velocity_bits < 0x8000_0000 ==> capping_speed(velocity_bits) == velocity_bits,
        velocity_bits > 0x8000_0000 ==> capping_speed(velocity_bits) == velocity_bits
            - 0x8000_0000,
{
}

/// A motor that was enabled holds where it was found: the last request sends it
/// to the very angle that it had reported.
pub proof fn law_enable_holds_in_place(
    m: Motor,
    hold_speed: u32,
    replies: Seq<Result<Response, lk_error::Error>>,
)
    requires
        replies.len() == enable_outcome(m, hold_speed, replies).requests.len(),
    ensures
        ({
            let o = enable_outcome(m, hold_speed, replies);
            o.result is Ok ==> {
                &&& o.requests.len() == 4
                &&& o.motor.motor_zero_centideg matches Some(angle)
                &&& bus::angle_in(replies[2]) == Ok::<i64, lk_error::Error>(angle)
                &&& o.requests.last() == motor::request_to(
                    m,
                    Command::PositionClosedLoop2,
                    request::position_with_speed_payload(angle, motor::speed_limit(hold_speed)),
                )
            }
        }),
{
    if enable_outcome(m, hold_speed, replies).result is Ok {
        assert(replies.skip(1)[1] == replies[2]);
    }
}

/// Enabling moves nothing before the anchor is set: only its last request is a
/// motion command.
pub proof fn law_enable_moves_last(
    m: Motor,
    hold_speed: u32,
    replies: Seq<Result<Response, lk_error::Error>>,
    i: int,
)
    requires
        0 <= i < enable_outcome(m, hold_speed, replies).requests.len(),
    ensures
        enable_outcome(m, hold_speed, replies).requests[i].command
            == Command::PositionClosedLoop2.code() ==> i == 3,
{
}

/// With a manual anchor, a position command before `set_zero` sends nothing and
/// says why.
pub proof fn law_manual_anchor_is_demanded(
    m: Motor,
    delta_centideg: i64,
    max_speed: u32,
    replies: Seq<Result<Response, lk_error::Error>>,
)
    requires
        m.motor_zero_centideg is None,
    ensures
        ({
            let o = set_position_outcome(
                m,
                PositionAnchor::Manual,
                delta_centideg,
                max_speed,
                replies,
            );
            &&& o.requests.len() == 0
            &&& o.motor == m
            &&& o.result == Err::<MotorFeedback, lk_error::Error>(
                lk_error::Error::PositionNotAnchored { motor_id: m.id@ },
            )
        }),
{
}

/// With an anchor on first use, the first position command goes to the angle that
/// the motor answers plus the displacement.
pub proof fn law_first_use_target(
    m: Motor,
    state: Response,
    angle: Response,
    delta_centideg: i64,
    max_speed: u32,
    replies: Seq<Result<Response, lk_error::Error>>,
)
    requires
        m.motor_zero_centideg is None,
        replies[0] == Ok::<Response, lk_error::Error>(state),
        replies[1] == Ok::<Response, lk_error::Error>(angle),
        replies.len() >= 3,
        state.command == 0x9C,
        state.data@.len() >= 7,
        angle.command == 0x92,
        angle.data@.len() >= 8,
        i64::MIN <= request::signed_in(angle.data@.take(8)) + delta_centideg <= i64::MAX,
    ensures
        ({
            let o = set_position_outcome(
                m,
                PositionAnchor::OnFirstUse,
                delta_centideg,
                max_speed,
                replies,
            );
            &&& o.requests.len() == 3
            &&& o.requests[2].command == 0xA4
            &&& request::signed_in(o.requests[2].data.take(8)) == request::signed_in(
                angle.data@.take(8),
            ) + delta_centideg
        }),
{
    motor::law_rezero_takes_the_answers(m, state, angle, replies);
    let zeroed = motor::rezero_outcome(m, replies);
    let zero = zeroed.motor.motor_zero_centideg->Some_0;
    motor::law_position_target(
        zeroed.motor,
        zero,
        delta_centideg,
        max_speed,
        replies.skip(0).skip(2),
    );
    assert(replies.skip(0) =~= replies);
}

/// With an anchor on first use, no position command that reaches the motor is
/// answered for want of an anchor.
pub proof fn law_first_use_sets_the_anchor(
    m: Motor,
    delta_centideg: i64,
    max_speed: u32,
    replies: Seq<Result<Response, lk_error::Error>>,
)
    ensures
        ({
            let o = set_position_outcome(
                m,
                PositionAnchor::OnFirstUse,
                delta_centideg,
                max_speed,
                replies,
            );
            o.result is Ok ==> o.motor.motor_zero_centideg is Some
        }),
{
}

/// The common flags of the driver's flags.
pub open spec fn common_bits_of(f: ErrorFlags) -> u32 {
    feedback::flag_bits(
        f.bit(0),
        f.bit(1),
        f.bit(4),
        f.bit(3),
        f.bit(2),
        f.bit(6),
        f.bit(5),
        f.bit(7),
        false,
        false,
    )
}

/// Each fault bit of the motor shows as the common flag of the same fault, and no
/// flag shows without its bit.
pub proof fn law_faults_keep_their_meaning(f: ErrorFlags, common: feedback::ErrorFlags)
    requires
        common.common_bits() == common_bits_of(f),
    ensures
        common.has(feedback::ErrorFlags::UNDER_VOLTAGE) == ((f.0 >> 0) & 1 == 1),
        common.has(feedback::ErrorFlags::OVER_VOLTAGE) == ((f.0 >> 1) & 1 == 1),
        common.has(feedback::ErrorFlags::DRIVER_OVERHEAT) == ((f.0 >> 2) & 1 == 1),
        common.has(feedback::ErrorFlags::MOTOR_OVERHEAT) == ((f.0 >> 3) & 1 == 1),
        common.has(feedback::ErrorFlags::OVER_CURRENT) == ((f.0 >> 4) & 1 == 1),
        common.has(feedback::ErrorFlags::MOTOR_SHORT) == ((f.0 >> 5) & 1 == 1),
        common.has(feedback::ErrorFlags::STALL) == ((f.0 >> 6) & 1 == 1),
        common.has(feedback::ErrorFlags::SIGNAL_TIMEOUT) == ((f.0 >> 7) & 1 == 1),
        !common.has(feedback::ErrorFlags::ENCODER_FAULT),
        !common.has(feedback::ErrorFlags::UNCALIBRATED),
{
    feedback::law_flags_read_back(
        f.bit(0),
        f.bit(1),
        f.bit(4),
        f.bit(3),
        f.bit(2),
        f.bit(6),
        f.bit(5),
        f.bit(7),
        false,
        false,
        common,
    );
}

/// Driver flags as common flags.
pub fn lk_to_misa_error(f: ErrorFlags) -> (r: feedback::ErrorFlags)
    ensures
        r.raw_bits() == f.0,
        r.common_bits() == common_bits_of(f),
{
    let raw: u32 = f.raw() as u32;
    let mut bits: u32 = 0;
    if f.under_voltage() {
        bits = bits | feedback::ErrorFlags::UNDER_VOLTAGE;
    }
    if f.over_voltage() {
        bits = bits | feedback::ErrorFlags::OVER_VOLTAGE;
    }
    if f.over_current() {
        bits = bits | feedback::ErrorFlags::OVER_CURRENT;
    }
    if f.motor_overheat() {
        bits = bits | feedback::ErrorFlags::MOTOR_OVERHEAT;
    }
    if f.driver_overheat() {
        bits = bits | feedback::ErrorFlags::DRIVER_OVERHEAT;
    }
    if f.stalled() {
        bits = bits | feedback::ErrorFlags::STALL;
    }
    if f.motor_short() {
        bits = bits | feedback::ErrorFlags::MOTOR_SHORT;
    }
    if f.signal_timeout() {
        bits = bits | feedback::ErrorFlags::SIGNAL_TIMEOUT;
    }
    proof {
        feedback::lemma_or_zero();
    }
    feedback::ErrorFlags::new(bits, raw)
}

impl<B: LkBus> LkMotor<B> {
    /// What the bus has seen.
    pub closed spec fn exchanges(&self) -> Seq<Exchange> {
        self.bus.exchanges()
    }

    /// The motor's state.
    pub closed spec fn state(&self) -> Motor {
        self.motor
    }

    /// The anchor policy.
    pub closed spec fn policy(&self) -> PositionAnchor {
        self.anchor
    }

    /// Whether the motor was last enabled rather than disabled.
    pub closed spec fn enabled_flag(&self) -> bool {
        self.enabled
    }

    /// The replies that came since `before`.
    pub open spec fn replies_since(&self, before: &Self) -> Seq<Result<Response, lk_error::Error>> {
        motor::replies_of(motor::since(before.exchanges(), self.exchanges()))
    }

    /// That an operation with this outcome took the motor from `before` to
    /// `self` and returned `r`.
    pub open spec fn did<T>(
        &self,
        before: &Self,
        r: Result<T, error::Error>,
        outcome: motor::Outcome<T>,
    ) -> bool {
        &&& motor::happened(
            before.exchanges(),
            self.exchanges(),
            self.state(),
            outcome.result,
            outcome,
        )
        &&& common(r, outcome.result)
        &&& self.policy() == before.policy()
    }

    /// A motor on an open bus: not enabled, anchored on first use.
    pub fn new(bus: B, id: MotorId) -> (r: Self)
        ensures
            r.exchanges() == bus.exchanges(),
            r.state() == (Motor {
                id,
                turns: 0,
                prev_raw: None,
                raw_origin: 0,
                motor_zero_centideg: None,
            }),
            r.policy() == PositionAnchor::OnFirstUse,
            !r.enabled_flag(),
    {
        LkMotor {
            bus,
            motor: Motor::new(id),
            anchor: PositionAnchor::OnFirstUse,
            enabled: false,
        }
    }

    /// The same motor with another anchor policy.
    pub fn with_position_anchor(self, anchor: PositionAnchor) -> (r: Self)
        ensures
            r.exchanges() == self.exchanges(),
            r.state() == self.state(),
            r.policy() == anchor,
            r.enabled_flag() == self.enabled_flag(),
    {
        LkMotor { bus: self.bus, motor: self.motor, anchor, enabled: self.enabled }
    }

    /// The bus, for diagnostics.
    pub fn bus(&mut self) -> (r: &mut B)
        ensures
            r.exchanges() == old(self).exchanges(),
            final(self).exchanges() == final(r).exchanges(),
            final(self).state() == old(self).state(),
            final(self).policy() == old(self).policy(),
            final(self).enabled_flag() == old(self).enabled_flag(),
    {
        &mut self.bus
    }

    /// The motor's state.
    pub fn motor(&self) -> (r: &Motor)
        ensures
            *r == self.state(),
    {
        &self.motor
    }

    /// The address of the motor.
    pub fn motor_id(&self) -> (r: u8)
        ensures
            r == self.state().id@,
    {
        self.motor.id().get()
    }

    /// Wakes the motor, anchors zero where it stands and makes it hold there.
    pub fn enable(&mut self, hold_speed: u32) -> (r: Result<MotorFeedback, error::Error>)
        ensures
            final(self).did(
                &*old(self),
                r,
                enable_outcome(
                    old(self).state(),
                    hold_speed,
                    final(self).replies_since(&*old(self)),
                ),
            ),
            final(self).enabled_flag() == (r is Ok || old(self).enabled_flag()),
    {
        let ghost start = self.bus.exchanges();
        if let Err(e) = self.motor.enable(&mut self.bus) {
            return Err(error::Error::from(e));
        }
        let ghost woken = self.bus.exchanges();
        let r = self.rezero_and_position(0, hold_speed);
        proof {
            motor::lemma_split(start, woken, self.bus.exchanges());
            let replies = self.replies_since(&*old(self));
            assert(replies[0] == motor::replies_of(motor::since(start, woken))[0]);
        }
        match r {
            Ok(fb) => {
                self.enabled = true;
                Ok(fb)
            },
            Err(e) => Err(error::Error::from(e)),
        }
    }

    /// Rezero, then a position command.
    fn rezero_and_position(&mut self, delta_centideg: i64, max_speed: u32) -> (r: Result<
        MotorFeedback,
        lk_error::Error,
    >)
        ensures
            motor::happened(
                old(self).exchanges(),
                final(self).exchanges(),
                final(self).state(),
                r,
                rezero_and_position_outcome(
                    old(self).state(),
                    delta_centideg,
                    max_speed,
                    final(self).replies_since(&*old(self)),
                ),
            ),
            final(self).policy() == old(self).policy(),
            final(self).enabled_flag() == old(self).enabled_flag(),
    {
        let ghost start = self.bus.exchanges();
        if let Err(e) = self.motor.rezero(&mut self.bus) {
            return Err(e);
        }
        let ghost zeroed = self.bus.exchanges();
        let r = self.motor.set_position(&mut self.bus, delta_centideg, max_speed);
        proof {
            motor::lemma_split(start, zeroed, self.bus.exchanges());
            let replies = self.replies_since(&*old(self));
            let first = motor::replies_of(motor::since(start, zeroed));
            assert(replies[0] == first[0]);
            assert(replies[1] == first[1]);
        }
        r
    }

    /// Stops the motor.
    pub fn disable(&mut self) -> (r: Result<(), error::Error>)
        ensures
            final(self).did(
                &*old(self),
                r,
                motor::stop_outcome(
                    old(self).state(),
                    final(self).replies_since(&*old(self)),
                ),
            ),
            final(self).enabled_flag() == (r is Err && old(self).enabled_flag()),
    {
        match self.motor.disable(&mut self.bus) {
            Ok(()) => {
                self.enabled = false;
                Ok(())
            },
            Err(e) => Err(error::Error::from(e)),
        }
    }

    /// Makes the present position zero.
    pub fn set_zero(&mut self) -> (r: Result<(), error::Error>)
        ensures
            final(self).did(
                &*old(self),
                r,
                motor::rezero_outcome(old(self).state(), final(self).replies_since(&*old(self))),
            ),
            final(self).enabled_flag() == old(self).enabled_flag(),
    {
        match self.motor.rezero(&mut self.bus) {
            Ok(()) => Ok(()),
            Err(e) => Err(error::Error::from(e)),
        }
    }

    /// Does nothing: the firmware has no run modes.
    pub fn set_run_mode(&mut self, mode: RunMode) -> (r: Result<(), error::Error>)
        ensures
            r is Ok,
            *final(self) == *old(self),
    {
        let _ = mode;
        Ok(())
    }

    /// Position control: `delta_centideg` of the motor shaft from zero.
    pub fn set_position(&mut self, delta_centideg: i64, max_speed: u32) -> (r: Result<
        MotorFeedback,
        error::Error,
    >)
        ensures
            final(self).did(
                &*old(self),
                r,
                set_position_outcome(
                    old(self).state(),
                    old(self).policy(),
                    delta_centideg,
                    max_speed,
                    final(self).replies_since(&*old(self)),
                ),
            ),
            final(self).enabled_flag() == old(self).enabled_flag(),
    {
        let ghost start = self.bus.exchanges();
        let first = self.motor.set_position(&mut self.bus, delta_centideg, max_speed);
        let ghost tried = self.bus.exchanges();
        let anchor_first: bool = match &first {
            Err(lk_error::Error::PositionNotAnchored { .. }) => match self.anchor {
                PositionAnchor::OnFirstUse => true,
                PositionAnchor::Manual => false,
            },
            _ => false,
        };
        let r = if anchor_first {
            self.rezero_and_position(delta_centideg, max_speed)
        } else {
            first
        };
        proof {
            if anchor_first {
                motor::lemma_split(start, tried, self.bus.exchanges());
                if tried.len() > start.len() {
                    let replies = self.replies_since(&*old(self));
                    assert(replies[0] == motor::replies_of(motor::since(start, tried))[0]);
                }
            }
        }
        match r {
            Ok(fb) => Ok(fb),
            Err(e) => Err(error::Error::from(e)),
        }
    }

    /// Velocity control, in 0.01 deg/s of the motor shaft.
    pub fn set_velocity(&mut self, centideg_per_s: i32) -> (r: Result<MotorFeedback, error::Error>)
        ensures
            final(self).did(
                &*old(self),
                r,
                motor::set_velocity_outcome(
                    old(self).state(),
                    centideg_per_s,
                    final(self).replies_since(&*old(self)),
                ),
            ),
            final(self).enabled_flag() == old(self).enabled_flag(),
    {
        match self.motor.set_velocity(&mut self.bus, centideg_per_s) {
            Ok(fb) => Ok(fb),
            Err(e) => Err(error::Error::from(e)),
        }
    }

    /// Torque control by current, in raw units. The motor keeps applying it until
    /// the next command.
    pub fn set_torque(&mut self, iq_raw: i16) -> (r: Result<MotorFeedback, error::Error>)
        ensures
            final(self).did(
                &*old(self),
                r,
                motor::set_current_outcome(
                    old(self).state(),
                    iq_raw,
                    final(self).replies_since(&*old(self)),
                ),
            ),
            final(self).enabled_flag() == old(self).enabled_flag(),
    {
        match self.motor.set_current(&mut self.bus, iq_raw) {
            Ok(fb) => Ok(fb),
            Err(e) => Err(error::Error::from(e)),
        }
    }

    /// A single joint command. A torque would stay on after it, so it is carried
    /// out as a position command, without gains or feedforward. The velocity caps
    /// its speed; `limit_for` gives the cap, 0.01 deg/s of the motor shaft, from the
    /// bit pattern of a speed.
    pub fn mit_control<F: Fn(u32) -> u32>(
        &mut self,
        delta_centideg: i64,
        velocity_bits: u32,
        kp_bits: u32,
        kd_bits: u32,
        torque_ff_bits: u32,
        limit_for: &F,
    ) -> (r: Result<MotorFeedback, error::Error>)
        requires
            forall|bits: u32| limit_for.requires((bits,)),
        ensures
            exists|max_speed: u32|
                {
                    &&& #[trigger] limit_for.ensures((capping_speed(velocity_bits),), max_speed)
                    &&& final(self).did(
                        &*old(self),
                        r,
                        mit_control_outcome(
                            old(self).state(),
                            old(self).policy(),
                            delta_centideg,
                            max_speed,
                            kp_bits,
                            kd_bits,
                            torque_ff_bits,
                            final(self).replies_since(&*old(self)),
                        ),
                    )
                },
            final(self).enabled_flag() == old(self).enabled_flag(),
    {
        let _ = (kp_bits, kd_bits, torque_ff_bits);
        let max_speed: u32 = limit_for(joint_speed_cap(velocity_bits));
        self.set_position(delta_centideg, max_speed)
    }

    /// Reads the position without commanding anything.
    pub fn measure(&mut self) -> (r: Result<MotorFeedback, error::Error>)
        ensures
            final(self).did(
                &*old(self),
                r,
                motor::measure_outcome(old(self).state(), final(self).replies_since(&*old(self))),
            ),
            final(self).enabled_flag() == old(self).enabled_flag(),
    {
        match self.motor.measure(&mut self.bus) {
            Ok(fb) => Ok(fb),
            Err(e) => Err(error::Error::from(e)),
        }
    }

    /// Reads voltage, temperature and error flags.
    pub fn read_status(&mut self) -> (r: Result<MotorStatus, error::Error>)
        ensures
            final(self).did(
                &*old(self),
                r,
                motor::read_status_outcome(
                    old(self).state(),
                    final(self).replies_since(&*old(self)),
                ),
            ),
            final(self).enabled_flag() == old(self).enabled_flag(),
    {
        match self.motor.read_status(&mut self.bus) {
            Ok(s) => Ok(s),
            Err(e) => Err(error::Error::from(e)),
        }
    }

    /// There is no run mode to tell.
    pub fn current_run_mode_hint(&self) -> (r: Option<RunMode>)
        ensures
            r is None,
    {
        None
    }

    /// Whether the motor was last enabled rather than disabled.
    pub fn is_enabled_hint(&self) -> (r: bool)
        ensures
            r == self.enabled_flag(),
    {
        self.enabled
    }
}

} // verus!
