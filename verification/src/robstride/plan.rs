//! What each operation asks of a motor, in order, and what the answers do to the
//! driver's state.
use crate::robstride::codec::{Feedback, MitBits, Param, Request, RunMode, StatusBits};
use crate::robstride::codec;
use crate::robstride::error::Error;
use vstd::prelude::*;

verus! {

/// What an answer is for.
#[derive(Debug, Clone, Copy, PartialEq, Eq, Structural)]
pub enum Purpose {
    /// Nothing more.
    Nothing,
    /// The motor is then enabled, and the status is the result.
    Enabled,
    /// The motor is then disabled, and the status is the result.
    Disabled,
    /// The motor is then in this mode.
    ModeSet(RunMode),
    /// This speed limit is then in force.
    SpeedLimited(u32),
    /// The status is the result.
    Status,
    /// The value is the position of the result.
    Position,
    /// The value is the velocity of the result.
    Velocity,
    /// The value is the torque of the result.
    Torque,
    /// The value is the bus voltage of the result.
    Voltage,
    /// The value is where the motor is made to stay.
    Hold,
}

/// One request of an operation, and what its answer is for.
#[derive(Debug, Clone, Copy, PartialEq, Eq, Structural)]
pub struct Step {
    pub request: Request,
    pub purpose: Purpose,
    /// Whether the operation goes on where this fails.
    pub optional: bool,
}

/// A step that must succeed.
pub open spec fn must(request: Request, purpose: Purpose) -> Step {
    Step { request, purpose, optional: false }
}

/// A step that may fail.
pub open spec fn may(request: Request, purpose: Purpose) -> Step {
    Step { request, purpose, optional: true }
}

/// A step that must succeed.
pub fn strict(request: Request, purpose: Purpose) -> (r: Step)
    ensures
        r == must(request, purpose),
{
    Step { request, purpose, optional: false }
}

/// A step that may fail.
pub fn lenient(request: Request, purpose: Purpose) -> (r: Step)
    ensures
        r == may(request, purpose),
{
    Step { request, purpose, optional: true }
}

/// What a request brought.
#[derive(Debug, Clone, Copy, PartialEq, Eq, Structural)]
pub enum Reply {
    /// It was sent, and that was all.
    Sent,
    /// A status frame.
    Status(Feedback),
    /// The value of a parameter, by its bit pattern.
    Value(u32),
}

/// What an operation has gathered.
#[derive(Debug, Clone, Copy, PartialEq, Eq, Structural)]
pub struct Gathered {
    pub status: Option<Feedback>,
    pub position: Option<u32>,
    pub velocity: Option<u32>,
    pub torque: Option<u32>,
    pub voltage: Option<u32>,
}

/// Nothing gathered.
pub fn gather_nothing() -> (r: Gathered)
    ensures
        r == nothing_gathered(),
{
    Gathered { status: None, position: None, velocity: None, torque: None, voltage: None }
}

/// Nothing gathered.
pub open spec fn nothing_gathered() -> Gathered {
    Gathered { status: None, position: None, velocity: None, torque: None, voltage: None }
}

/// The state that is kept of one motor.
#[derive(Debug, Clone, Copy, PartialEq, Eq, Structural)]
pub struct MotorState {
    pub motor_id: u8,
    pub host_id: u8,
    pub enabled: bool,
    pub run_mode: RunMode,
    /// The speed limit that was written last, by its bit pattern.
    pub cached_speed_limit: Option<u32>,
    /// How long a response is waited for, in nanoseconds.
    pub timeout_ns: u64,
}

/// How long a response is waited for unless told otherwise: 100 ms.
pub const DEFAULT_TIMEOUT_NS: u64 = 100_000_000;

/// A motor of which nothing is known: disabled, in MIT mode.
pub open spec fn fresh(motor_id: u8, host_id: u8) -> MotorState {
    MotorState {
        motor_id,
        host_id,
        enabled: false,
        run_mode: RunMode::Mit,
        cached_speed_limit: None,
        timeout_ns: DEFAULT_TIMEOUT_NS,
    }
}

/// An operation under way: the steps that are left, and what was gathered.
pub struct Run {
    pub steps: Vec<Step>,
    pub gathered: Gathered,
}

/// An operation under way, by its values.
pub struct RunView {
    pub steps: Seq<Step>,
    pub gathered: Gathered,
}

impl View for Run {
    type V = RunView;

    open spec fn view(&self) -> RunView {
        RunView { steps: self.steps@, gathered: self.gathered }
    }
}

/// The motor after an answer for this purpose.
pub open spec fn motor_after(m: MotorState, purpose: Purpose) -> MotorState {
    match purpose {
        Purpose::Enabled => MotorState { enabled: true, ..m },
        Purpose::Disabled => MotorState { enabled: false, ..m },
        Purpose::ModeSet(mode) => MotorState { run_mode: mode, ..m },
        Purpose::SpeedLimited(v) => MotorState { cached_speed_limit: Some(v), ..m },
        _ => m,
    }
}

/// What is gathered after an answer for this purpose.
pub open spec fn gathered_after(g: Gathered, purpose: Purpose, reply: Reply) -> Gathered {
    match (purpose, reply) {
        (Purpose::Enabled, Reply::Status(fb)) => Gathered { status: Some(fb), ..g },
        (Purpose::Disabled, Reply::Status(fb)) => Gathered { status: Some(fb), ..g },
        (Purpose::Status, Reply::Status(fb)) => Gathered { status: Some(fb), ..g },
        (Purpose::Position, Reply::Value(v)) => Gathered { position: Some(v), ..g },
        (Purpose::Velocity, Reply::Value(v)) => Gathered { velocity: Some(v), ..g },
        (Purpose::Torque, Reply::Value(v)) => Gathered { torque: Some(v), ..g },
        (Purpose::Voltage, Reply::Value(v)) => Gathered { voltage: Some(v), ..g },
        _ => g,
    }
}

/// The steps that an answer adds before those that are left: where the motor is
/// made to stay, its position is written back as its target.
pub open spec fn steps_added(purpose: Purpose, reply: Reply) -> Seq<Step> {
    match (purpose, reply) {
        (Purpose::Hold, Reply::Value(v)) => seq![
            may(Request::Write(Param::LocRef, v), Purpose::Nothing),
        ],
        _ => Seq::empty(),
    }
}

/// MotorState and operation after the first step's outcome; nothing is left of an
/// operation whose step failed and had to succeed.
pub open spec fn settled(m: MotorState, run: RunView, outcome: Result<Reply, Error>) -> (
    MotorState,
    RunView,
    Option<Error>,
) {
    let step = run.steps[0];
    let rest = run.steps.skip(1);
    match outcome {
        Ok(reply) => (
            motor_after(m, step.purpose),
            RunView {
                steps: steps_added(step.purpose, reply) + rest,
                gathered: gathered_after(run.gathered, step.purpose, reply),
            },
            None,
        ),
        Err(e) => if step.optional {
            (m, RunView { steps: rest, gathered: run.gathered }, None)
        } else {
            (m, RunView { steps: Seq::empty(), gathered: run.gathered }, Some(e))
        },
    }
}

impl MotorState {
    /// A motor of which nothing is known: disabled, in MIT mode.
    pub fn new(motor_id: u8, host_id: u8) -> (r: Self)
        ensures
            r == fresh(motor_id, host_id),
    {
        MotorState {
            motor_id,
            host_id,
            enabled: false,
            run_mode: RunMode::Mit,
            cached_speed_limit: None,
            timeout_ns: DEFAULT_TIMEOUT_NS,
        }
    }

    /// Takes the outcome of the next request in. An error ends the operation.
    pub fn settle(&mut self, run: &mut Run, outcome: Result<Reply, Error>) -> (r: Result<(), Error>)
        requires
            old(run)@.steps.len() > 0,
        ensures
            ({
                let s = settled(*old(self), old(run)@, outcome);
                &&& *final(self) == s.0
                &&& final(run)@ == s.1
                &&& match s.2 {
                    Some(e) => r == Err::<(), Error>(e),
                    None => r is Ok,
                }
            }),
    {
        let step = run.steps[0];
        let _ = run.steps.remove(0);
        assert(run.steps@ =~= old(run)@.steps.skip(1));
        match outcome {
            Ok(reply) => {
                match step.purpose {
                    Purpose::Enabled => {
                        self.enabled = true;
                        if let Reply::Status(fb) = reply {
                            run.gathered.status = Some(fb);
                        }
                    },
                    Purpose::Disabled => {
                        self.enabled = false;
                        if let Reply::Status(fb) = reply {
                            run.gathered.status = Some(fb);
                        }
                    },
                    Purpose::ModeSet(mode) => {
                        self.run_mode = mode;
                    },
                    Purpose::SpeedLimited(v) => {
                        self.cached_speed_limit = Some(v);
                    },
                    Purpose::Status => {
                        if let Reply::Status(fb) = reply {
                            run.gathered.status = Some(fb);
                        }
                    },
                    Purpose::Position => {
                        if let Reply::Value(v) = reply {
                            run.gathered.position = Some(v);
                        }
                    },
                    Purpose::Velocity => {
                        if let Reply::Value(v) = reply {
                            run.gathered.velocity = Some(v);
                        }
                    },
                    Purpose::Torque => {
                        if let Reply::Value(v) = reply {
                            run.gathered.torque = Some(v);
                        }
                    },
                    Purpose::Voltage => {
                        if let Reply::Value(v) = reply {
                            run.gathered.voltage = Some(v);
                        }
                    },
                    Purpose::Hold => {
                        if let Reply::Value(v) = reply {
                            run.steps.insert(
                                0,
                                lenient(Request::Write(Param::LocRef, v), Purpose::Nothing),
                            );
                        }
                    },
                    Purpose::Nothing => {},
                }
                assert(run.steps@ =~= steps_added(step.purpose, reply) + old(run)@.steps.skip(1));
                Ok(())
            },
            Err(e) => {
                if step.optional {
                    Ok(())
                } else {
                    run.steps.clear();
                    Err(e)
                }
            },
        }
    }

    /// Write the target position, and before it the speed limit, unless it is in
    /// force already. `differs` is whether `max_speed` differs from the limit that
    /// was written last, as numbers.
    pub fn position_plan(&self, position: u32, max_speed: u32, differs: bool) -> (r: Vec<
        Step,
    >)
        ensures
            r@ == position_steps(*self, position, max_speed, differs),
    {
        let mut steps: Vec<Step> = Vec::new();
        if self.cached_speed_limit.is_none() || differs {
            steps.push(
                strict(
                    Request::Write(Param::LimitSpd, max_speed),
                    Purpose::SpeedLimited(max_speed),
                ),
            );
        }
        steps.push(strict(Request::Write(Param::LocRef, position), Purpose::Nothing));
        assert(steps@ =~= position_steps(*self, position, max_speed, differs));
        steps
    }

    /// Measure without disturbing the run mode.
    pub fn measure_plan(&self) -> (r: Vec<Step>)
        ensures
            r@ == measure_steps(*self),
    {
        if self.run_mode == RunMode::Mit {
            return one(
                strict(
                    Request::Mit(MitBits { position: 0, velocity: 0, kp: 0, kd: 0, torque: 0 }),
                    Purpose::Status,
                ),
            );
        }
        let mut steps: Vec<Step> = Vec::new();
        steps.push(strict(Request::Read(Param::MechPos), Purpose::Position));
        steps.push(strict(Request::Read(Param::MechVel), Purpose::Velocity));
        steps.push(lenient(Request::Read(Param::MeasuredTorque), Purpose::Torque));
        assert(steps@ =~= measure_steps(*self));
        steps
    }

    /// The measurement that was gathered: a status as it came; otherwise the
    /// values that were read, without temperature or status.
    pub fn measured(&self, g: &Gathered) -> (r: Option<Feedback>)
        ensures
            r == measurement(*self, *g),
    {
        match g.status {
            Some(fb) => Some(fb),
            None => match (g.position, g.velocity) {
                (Some(position), Some(velocity)) => Some(
                    Feedback {
                        motor_id: self.motor_id,
                        position,
                        velocity,
                        torque: g.torque,
                        temperature: None,
                        status: StatusBits {
                            mode: 0,
                            uncalibrated: false,
                            stall: false,
                            magnetic_encoder_fault: false,
                            overtemperature: false,
                            overcurrent: false,
                            undervoltage: false,
                            device_id: 0,
                        },
                    },
                ),
                _ => None,
            },
        }
    }
}

/// An operation of one step.
pub fn one(step: Step) -> (r: Vec<Step>)
    ensures
        r@ == seq![step],
{
    let mut steps: Vec<Step> = Vec::new();
    steps.push(step);
    assert(steps@ =~= seq![step]);
    steps
}

/// The steps of switching a motor on.
pub open spec fn enabling() -> Seq<Step> {
    seq![must(Request::Enable, Purpose::Enabled)]
}

/// The steps of switching a motor off.
pub open spec fn disabling() -> Seq<Step> {
    seq![must(Request::Disable, Purpose::Disabled)]
}

/// The steps of making the present position zero.
pub open spec fn zeroing() -> Seq<Step> {
    seq![must(Request::SetZero, Purpose::Nothing)]
}

/// The steps of setting the run mode.
pub open spec fn switching(mode: RunMode) -> Seq<Step> {
    seq![must(Request::SetRunMode(mode), Purpose::ModeSet(mode))]
}

/// The steps of an MIT command.
pub open spec fn mit_command(bits: MitBits) -> Seq<Step> {
    seq![must(Request::Mit(bits), Purpose::Status)]
}

/// The steps of reading the status.
pub open spec fn status_reading() -> Seq<Step> {
    seq![must(idle_mit(), Purpose::Status)]
}

/// The steps of writing a parameter.
pub open spec fn writing(param: Param, value: u32) -> Seq<Step> {
    seq![must(Request::Write(param, value), Purpose::Nothing)]
}

/// The steps of setting the target position alone.
pub open spec fn position_target(position: u32) -> Seq<Step> {
    writing(Param::LocRef, position)
}

/// The steps of setting the target velocity.
pub open spec fn velocity_target(velocity: u32) -> Seq<Step> {
    writing(Param::SpdRef, velocity)
}

/// The steps of setting the target current.
pub open spec fn current_target(iq: u32) -> Seq<Step> {
    writing(Param::IqRef, iq)
}

/// The steps of setting the torque limit.
pub open spec fn torque_limit(torque: u32) -> Seq<Step> {
    writing(Param::LimitTorque, torque)
}

/// The steps of setting the current limit.
pub open spec fn current_limit(current: u32) -> Seq<Step> {
    writing(Param::LimitCur, current)
}

/// Writing the speed limit and remembering it.
pub open spec fn limit_step(speed: u32) -> Step {
    must(Request::Write(Param::LimitSpd, speed), Purpose::SpeedLimited(speed))
}

/// An MIT command that commands nothing.
pub open spec fn idle_mit() -> Request {
    Request::Mit(MitBits { position: 0, velocity: 0, kp: 0, kd: 0, torque: 0 })
}

/// The steps of a position command with a speed limit.
pub open spec fn position_steps(
    m: MotorState,
    position: u32,
    max_speed: u32,
    differs: bool,
) -> Seq<Step> {
    (if m.cached_speed_limit is None || differs {
        seq![limit_step(max_speed)]
    } else {
        Seq::empty()
    }) + seq![must(Request::Write(Param::LocRef, position), Purpose::Nothing)]
}

/// The steps of a measurement: the status in MIT mode, single values in any
/// other.
pub open spec fn measure_steps(m: MotorState) -> Seq<Step> {
    if m.run_mode == RunMode::Mit {
        seq![must(idle_mit(), Purpose::Status)]
    } else {
        seq![
            must(Request::Read(Param::MechPos), Purpose::Position),
            must(Request::Read(Param::MechVel), Purpose::Velocity),
            may(Request::Read(Param::MeasuredTorque), Purpose::Torque),
        ]
    }
}

/// The measurement in what was gathered.
pub open spec fn measurement(m: MotorState, g: Gathered) -> Option<Feedback> {
    match g.status {
        Some(fb) => Some(fb),
        None => match (g.position, g.velocity) {
            (Some(position), Some(velocity)) => Some(
                Feedback {
                    motor_id: m.motor_id,
                    position,
                    velocity,
                    torque: g.torque,
                    temperature: None,
                    status: codec::no_status(),
                },
            ),
            _ => None,
        },
    }
}

/// How much of an operation is left at most.
pub open spec fn weight(steps: Seq<Step>) -> nat
    decreases steps.len(),
{
    if steps.len() == 0 {
        0
    } else {
        (if steps[0].purpose == Purpose::Hold {
            2nat
        } else {
            1nat
        }) + weight(steps.skip(1))
    }
}

/// Every outcome leaves less of an operation.
pub proof fn lemma_settling_ends(m: MotorState, run: RunView, outcome: Result<Reply, Error>)
    requires
        run.steps.len() > 0,
    ensures
        weight(settled(m, run, outcome).1.steps) < weight(run.steps),
{
    let rest = run.steps.skip(1);
    let after = settled(m, run, outcome).1.steps;
    if outcome is Ok {
        let added = steps_added(run.steps[0].purpose, outcome->Ok_0);
        if added.len() == 0 {
            assert(after =~= rest);
        } else {
            assert(after.skip(1) =~= rest);
        }
    }
}

/// A speed limit that is repeated is written once: after a position command with
/// a limit, one with the same limit writes the position only.
pub proof fn law_speed_limit_is_written_once(
    m: MotorState,
    after: MotorState,
    position: u32,
    max_speed: u32,
)
    requires
        after == motor_after(m, Purpose::SpeedLimited(max_speed)),
    ensures
        position_steps(after, position, max_speed, false) == seq![
            must(Request::Write(Param::LocRef, position), Purpose::Nothing),
        ],
{
    assert(position_steps(after, position, max_speed, false) =~= seq![
        must(Request::Write(Param::LocRef, position), Purpose::Nothing),
    ]);
}

/// A measurement in MIT mode commands nothing: its one request is an MIT command
/// whose five quantities are all the number with the bit pattern 0. Reading the
/// status sends the same.
pub proof fn law_measuring_in_mit_mode_commands_nothing(m: MotorState)
    requires
        m.run_mode == RunMode::Mit,
    ensures
        measure_steps(m).len() == 1,
        status_reading() == measure_steps(m),
        measure_steps(m)[0].purpose == Purpose::Status,
        !measure_steps(m)[0].optional,
        measure_steps(m)[0].request matches Request::Mit(b) && b.position == 0 && b.velocity == 0
            && b.kp == 0 && b.kd == 0 && b.torque == 0,
{
}

/// Outside MIT mode a measurement asks for the position, the velocity and the
/// torque, in this order, and only the torque may stay away.
pub proof fn law_measuring_elsewhere_reads_the_quantities(m: MotorState)
    requires
        m.run_mode != RunMode::Mit,
    ensures
        measure_steps(m).len() == 3,
        measure_steps(m)[0].request == Request::Read(Param::MechPos),
        measure_steps(m)[0].purpose == Purpose::Position,
        measure_steps(m)[1].request == Request::Read(Param::MechVel),
        measure_steps(m)[1].purpose == Purpose::Velocity,
        measure_steps(m)[2].request == Request::Read(Param::MeasuredTorque),
        measure_steps(m)[2].purpose == Purpose::Torque,
        forall|i: int| 0 <= i < 3 ==> (#[trigger] measure_steps(m)[i]).optional == (i == 2),
{
}

/// Each operation of one request makes the request that it is named for, with the
/// value that it was given, and must succeed.
pub proof fn law_requests_of_the_operations(mode: RunMode, bits: MitBits, param: Param, v: u32)
    ensures
        enabling() == seq![must(Request::Enable, Purpose::Enabled)],
        disabling() == seq![must(Request::Disable, Purpose::Disabled)],
        zeroing() == seq![must(Request::SetZero, Purpose::Nothing)],
        switching(mode).len() == 1 && switching(mode)[0].request == Request::SetRunMode(mode),
        motor_after(fresh(0, 0), switching(mode)[0].purpose).run_mode == mode,
        mit_command(bits) == seq![must(Request::Mit(bits), Purpose::Status)],
        writing(param, v) == seq![must(Request::Write(param, v), Purpose::Nothing)],
        position_target(v) == writing(Param::LocRef, v),
        velocity_target(v) == writing(Param::SpdRef, v),
        current_target(v) == writing(Param::IqRef, v),
        torque_limit(v) == writing(Param::LimitTorque, v),
        current_limit(v) == writing(Param::LimitCur, v),
        !must(Request::Enable, Purpose::Enabled).optional,
        may(Request::Disable, Purpose::Disabled).optional,
{
}

/// The last thing that a position command does is to write the target that was
/// given. Before it, the speed limit that was given is written and remembered,
/// unless one was written before and it does not differ; nothing else is sent.
pub proof fn law_position_command_writes_target_and_limit(
    m: MotorState,
    position: u32,
    max_speed: u32,
    differs: bool,
)
    ensures
        position_steps(m, position, max_speed, differs).last().request == Request::Write(
            Param::LocRef,
            position,
        ),
        ({
            let steps = position_steps(m, position, max_speed, differs);
            if m.cached_speed_limit is Some && !differs {
                steps.len() == 1
            } else {
                &&& steps.len() == 2
                &&& steps[0].request == Request::Write(Param::LimitSpd, max_speed)
                &&& motor_after(m, steps[0].purpose).cached_speed_limit == Some(max_speed)
            }
        }),
        forall|i: int|
            0 <= i < position_steps(m, position, max_speed, differs).len()
                ==> !(#[trigger] position_steps(m, position, max_speed, differs)[i]).optional,
{
}

/// A motor of which nothing is known is taken to be off, in MIT mode, without a
/// speed limit, and is waited for for 100 ms.
pub proof fn law_fresh_motor(motor_id: u8, host_id: u8)
    ensures
        fresh(motor_id, host_id).motor_id == motor_id,
        fresh(motor_id, host_id).host_id == host_id,
        !fresh(motor_id, host_id).enabled,
        fresh(motor_id, host_id).run_mode is Mit,
        fresh(motor_id, host_id).cached_speed_limit is None,
        fresh(motor_id, host_id).timeout_ns == 100 * 1_000_000,
{
}

/// An answer changes of the state that is kept only what it is for, and nothing of
/// the ids and the timeout.
pub proof fn law_answers_change_what_they_are_for(m: MotorState, purpose: Purpose)
    ensures
        motor_after(m, purpose).motor_id == m.motor_id,
        motor_after(m, purpose).host_id == m.host_id,
        motor_after(m, purpose).timeout_ns == m.timeout_ns,
        motor_after(m, purpose).enabled == (if purpose is Enabled {
            true
        } else if purpose is Disabled {
            false
        } else {
            m.enabled
        }),
        purpose matches Purpose::ModeSet(mode) ==> motor_after(m, purpose).run_mode == mode,
        !(purpose is ModeSet) ==> motor_after(m, purpose).run_mode == m.run_mode,
        purpose matches Purpose::SpeedLimited(v) ==> motor_after(m, purpose).cached_speed_limit
            == Some(v),
        !(purpose is SpeedLimited) ==> motor_after(m, purpose).cached_speed_limit
            == m.cached_speed_limit,
{
}

/// A value goes where its purpose says, and nowhere else; a status is kept whole.
pub proof fn law_answers_are_gathered_by_purpose(g: Gathered, purpose: Purpose, reply: Reply)
    ensures
        gathered_after(g, purpose, reply).position == (if purpose is Position && reply is Value {
            Some(reply->Value_0)
        } else {
            g.position
        }),
        gathered_after(g, purpose, reply).velocity == (if purpose is Velocity && reply is Value {
            Some(reply->Value_0)
        } else {
            g.velocity
        }),
        gathered_after(g, purpose, reply).torque == (if purpose is Torque && reply is Value {
            Some(reply->Value_0)
        } else {
            g.torque
        }),
        gathered_after(g, purpose, reply).voltage == (if purpose is Voltage && reply is Value {
            Some(reply->Value_0)
        } else {
            g.voltage
        }),
        gathered_after(g, purpose, reply).status == (if (purpose is Enabled || purpose is Disabled
            || purpose is Status) && reply is Status {
            Some(reply->Status_0)
        } else {
            g.status
        }),
{
}

/// What is measured is the status as it came, or else the position, velocity and
/// torque that were read, each in its place, under the motor's id and with no
/// temperature and no status bit.
pub proof fn law_measurement_is_what_was_gathered(m: MotorState, g: Gathered)
    ensures
        g.status is Some ==> measurement(m, g) == g.status,
        g.status is None ==> (measurement(m, g) is Some <==> g.position is Some && g.velocity
            is Some),
        g.status is None ==> (measurement(m, g) matches Some(fb) ==> {
            &&& fb.motor_id == m.motor_id
            &&& Some(fb.position) == g.position
            &&& Some(fb.velocity) == g.velocity
            &&& fb.torque == g.torque
            &&& fb.temperature is None
            &&& fb.status.mode == 0 && fb.status.device_id == 0
            &&& !fb.status.uncalibrated && !fb.status.stall && !fb.status.magnetic_encoder_fault
            &&& !fb.status.overtemperature && !fb.status.overcurrent && !fb.status.undervoltage
        }),
        nothing_gathered().status is None && nothing_gathered().position is None
            && nothing_gathered().velocity is None && nothing_gathered().torque is None
            && nothing_gathered().voltage is None,
{
}

/// A step that fails ends the operation with its error if it had to succeed, and is
/// passed over otherwise; either way it changes nothing that is kept.
pub proof fn law_failed_steps(m: MotorState, run: RunView, e: Error)
    requires
        run.steps.len() > 0,
    ensures
        ({
            let s = settled(m, run, Err(e));
            &&& s.0 == m
            &&& s.1.gathered == run.gathered
            &&& s.2 == (if run.steps[0].optional {
                None
            } else {
                Some(e)
            })
            &&& run.steps[0].optional ==> s.1.steps == run.steps.skip(1)
        }),
{
}

} // verus!
