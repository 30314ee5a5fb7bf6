//! The bus that LK motors sit on, and the commands that go over it.
use crate::bytes;
use crate::lkmotor::command::{Command, ControlParamId};
use crate::lkmotor::error::Error;
use crate::lkmotor::motor_id::MotorId;
use crate::lkmotor::request;
use crate::lkmotor::request::{control_param_data, position_with_speed_data};
use crate::lkmotor::response;
use crate::lkmotor::response::{
    parse_control_param, parse_multi_turn_angle, parse_state1, parse_state2, parse_state2_payload,
    ControlParamValue, MotorState1, MotorState2, ParseError, PidTriple,
};
use vstd::prelude::*;

verus! {

/// A response frame as the bus hands it over.
#[derive(Debug, Clone)]
pub struct Response {
    /// The command byte that the motor echoed.
    pub command: u8,
    /// The motor that answered.
    pub motor_id: u8,
    /// The payload.
    pub data: Vec<u8>,
}

/// A request as the bus takes it.
pub struct Request {
    pub command: u8,
    pub motor_id: u8,
    pub data: Seq<u8>,
}

/// A request and what became of it.
pub struct Exchange {
    pub request: Request,
    pub reply: Result<Response, Error>,
}

/// Request/response transport for LK motors. A request is a command byte and a
/// payload; the framing on the wire is up to the implementation.
pub trait LkBus {
    /// Every exchange so far, oldest first. The default is
    /// a constant, which nothing that sends can keep to: an implementation that
    /// leaves it, as one outside of verified code may, does not meet this trait's
    /// contract, and nothing that is proved of drivers over histories applies to
    /// it.
    open spec fn exchanges(&self) -> Seq<Exchange> {
        arbitrary()
    }

    /// Sends a request and returns the next response from `motor_id`.
    fn transact(&mut self, command: u8, motor_id: MotorId, data: &[u8]) -> (r: Result<
        Response,
        Error,
    >)
        ensures
            final(self).exchanges() == old(self).exchanges().push(
                Exchange {
                    request: Request { command, motor_id: motor_id@, data: data@ },
                    reply: r,
                },
            ),
    ;

    /// Discards what is buffered or still on the wire.
    fn flush_rx(&mut self) -> (r: Result<(), Error>)
        ensures
            final(self).exchanges() == old(self).exchanges(),
    ;
}

/// That between `before` and `after` there was one exchange, with this request.
pub open spec fn asked(
    before: Seq<Exchange>,
    after: Seq<Exchange>,
    command: Command,
    motor_id: MotorId,
    data: Seq<u8>,
) -> bool {
    after == before.push(
        Exchange {
            request: Request { command: command.code(), motor_id: motor_id@, data },
            reply: after.last().reply,
        },
    )
}

/// A parsed value, with its error as a driver error.
pub open spec fn parsed<T>(r: Result<T, ParseError>) -> Result<T, Error> {
    match r {
        Ok(v) => Ok(v),
        Err(e) => Err(Error::Parse(e)),
    }
}

/// What a command without a result makes of its reply.
pub open spec fn acknowledged(reply: Result<Response, Error>) -> Result<(), Error> {
    match reply {
        Ok(_) => Ok(()),
        Err(e) => Err(e),
    }
}

/// State 1 from its reply.
pub open spec fn state1_in(reply: Result<Response, Error>) -> Result<MotorState1, Error> {
    match reply {
        Ok(resp) => parsed(response::parse_state1_result(resp.command, resp.data@)),
        Err(e) => Err(e),
    }
}

/// State 2 from the reply to a state-2 request.
pub open spec fn state2_in(reply: Result<Response, Error>) -> Result<MotorState2, Error> {
    match reply {
        Ok(resp) => parsed(response::parse_state2_result(resp.command, resp.data@)),
        Err(e) => Err(e),
    }
}

/// State 2 from the reply to a motion command, whatever command byte it echoes.
pub open spec fn motion_state_in(reply: Result<Response, Error>) -> Result<MotorState2, Error> {
    match reply {
        Ok(resp) => parsed(response::parse_state2_payload_result(resp.data@)),
        Err(e) => Err(e),
    }
}

/// The multi-turn angle from its reply.
pub open spec fn angle_in(reply: Result<Response, Error>) -> Result<i64, Error> {
    match reply {
        Ok(resp) => parsed(response::parse_multi_turn_angle_result(resp.command, resp.data@)),
        Err(e) => Err(e),
    }
}

/// A control parameter from its reply.
pub open spec fn control_param_in(reply: Result<Response, Error>, param: ControlParamId) -> Result<
    ControlParamValue,
    Error,
> {
    match reply {
        Ok(resp) => parsed(
            response::parse_control_param_result(resp.command, resp.data@, param),
        ),
        Err(e) => Err(e),
    }
}

/// The gains of a control loop from their reply.
pub open spec fn pid_in(reply: Result<Response, Error>, param: ControlParamId) -> Result<
    PidTriple,
    Error,
> {
    match control_param_in(reply, param) {
        Ok(v) => Ok(v->Pid_0),
        Err(e) => Err(e),
    }
}

/// Turns a parse error into a driver error.
fn lift<T>(r: Result<T, ParseError>) -> (out: Result<T, Error>)
    ensures
        out == parsed(r),
{
    match r {
        Ok(v) => Ok(v),
        Err(e) => Err(Error::Parse(e)),
    }
}

/// State 2 from the reply to any motion command.
pub fn parse_state2_from_response(resp: &Response) -> (r: Result<MotorState2, Error>)
    ensures
        r == parsed(response::parse_state2_payload_result(resp.data@)),
{
    lift(parse_state2_payload(resp.data.as_slice()))
}

/// Typed commands, on any bus.
pub trait LkCommands: LkBus {
    /// Power off the motor (`0x80`). Some firmware hangs the bus on this until
    /// it is power-cycled: [`LkCommands::motor_stop`] is the safer choice.
    fn motor_off(&mut self, motor_id: MotorId) -> (r: Result<(), Error>)
        ensures
            asked(
                old(self).exchanges(),
                final(self).exchanges(),
                Command::MotorOff,
                motor_id,
                Seq::empty(),
            ),
            r == acknowledged(final(self).exchanges().last().reply),
    {
        let none: [u8; 0] = [];
        assert(none@ =~= Seq::<u8>::empty());
        match self.transact(Command::MotorOff.code(), motor_id, &none) {
            Ok(_) => Ok(()),
            Err(e) => Err(e),
        }
    }

    /// Stop the motor, keeping the run flag (`0x81`).
    fn motor_stop(&mut self, motor_id: MotorId) -> (r: Result<(), Error>)
        ensures
            asked(
                old(self).exchanges(),
                final(self).exchanges(),
                Command::MotorStop,
                motor_id,
                Seq::empty(),
            ),
            r == acknowledged(final(self).exchanges().last().reply),
    {
        let none: [u8; 0] = [];
        assert(none@ =~= Seq::<u8>::empty());
        match self.transact(Command::MotorStop.code(), motor_id, &none) {
            Ok(_) => Ok(()),
            Err(e) => Err(e),
        }
    }

    /// Resume motor operation (`0x88`).
    fn motor_run(&mut self, motor_id: MotorId) -> (r: Result<(), Error>)
        ensures
            asked(
                old(self).exchanges(),
                final(self).exchanges(),
                Command::MotorRun,
                motor_id,
                Seq::empty(),
            ),
            r == acknowledged(final(self).exchanges().last().reply),
    {
        let none: [u8; 0] = [];
        assert(none@ =~= Seq::<u8>::empty());
        match self.transact(Command::MotorRun.code(), motor_id, &none) {
            Ok(_) => Ok(()),
            Err(e) => Err(e),
        }
    }

    /// Read motor state 1 (`0x9A`).
    fn read_state1(&mut self, motor_id: MotorId) -> (r: Result<MotorState1, Error>)
        ensures
            asked(
                old(self).exchanges(),
                final(self).exchanges(),
                Command::ReadMotorState1,
                motor_id,
                Seq::empty(),
            ),
            r == state1_in(final(self).exchanges().last().reply),
    {
        let none: [u8; 0] = [];
        assert(none@ =~= Seq::<u8>::empty());
        match self.transact(Command::ReadMotorState1.code(), motor_id, &none) {
            Ok(resp) => lift(parse_state1(resp.command, resp.data.as_slice())),
            Err(e) => Err(e),
        }
    }

    /// Read motor state 2 (`0x9C`).
    fn read_state2(&mut self, motor_id: MotorId) -> (r: Result<MotorState2, Error>)
        ensures
            asked(
                old(self).exchanges(),
                final(self).exchanges(),
                Command::ReadMotorState2,
                motor_id,
                Seq::empty(),
            ),
            r == state2_in(final(self).exchanges().last().reply),
    {
        let none: [u8; 0] = [];
        assert(none@ =~= Seq::<u8>::empty());
        match self.transact(Command::ReadMotorState2.code(), motor_id, &none) {
            Ok(resp) => lift(parse_state2(resp.command, resp.data.as_slice())),
            Err(e) => Err(e),
        }
    }

    /// Read a control parameter (`0xC0`).
    fn read_control_param(&mut self, motor_id: MotorId, param: ControlParamId) -> (r: Result<
        ControlParamValue,
        Error,
    >)
        ensures
            asked(
                old(self).exchanges(),
                final(self).exchanges(),
                Command::ReadControlParam,
                motor_id,
                request::control_param_payload(param),
            ),
            r == control_param_in(final(self).exchanges().last().reply, param),
    {
        let data: [u8; 7] = control_param_data(param);
        match self.transact(Command::ReadControlParam.code(), motor_id, &data) {
            Ok(resp) => lift(parse_control_param(resp.command, resp.data.as_slice(), param)),
            Err(e) => Err(e),
        }
    }

    /// Read the position-loop gains.
    fn read_position_pid(&mut self, motor_id: MotorId) -> (r: Result<PidTriple, Error>)
        ensures
            asked(
                old(self).exchanges(),
                final(self).exchanges(),
                Command::ReadControlParam,
                motor_id,
                request::control_param_payload(ControlParamId::PositionLoopPid),
            ),
            r == pid_in(final(self).exchanges().last().reply, ControlParamId::PositionLoopPid),
    {
        match self.read_control_param(motor_id, ControlParamId::PositionLoopPid) {
            Ok(v) => Ok(pid_gains(v)),
            Err(e) => Err(e),
        }
    }

    /// Read the speed-loop gains.
    fn read_speed_pid(&mut self, motor_id: MotorId) -> (r: Result<PidTriple, Error>)
        ensures
            asked(
                old(self).exchanges(),
                final(self).exchanges(),
                Command::ReadControlParam,
                motor_id,
                request::control_param_payload(ControlParamId::SpeedLoopPid),
            ),
            r == pid_in(final(self).exchanges().last().reply, ControlParamId::SpeedLoopPid),
    {
        match self.read_control_param(motor_id, ControlParamId::SpeedLoopPid) {
            Ok(v) => Ok(pid_gains(v)),
            Err(e) => Err(e),
        }
    }

    /// Read the current-loop gains.
    fn read_current_pid(&mut self, motor_id: MotorId) -> (r: Result<PidTriple, Error>)
        ensures
            asked(
                old(self).exchanges(),
                final(self).exchanges(),
                Command::ReadControlParam,
                motor_id,
                request::control_param_payload(ControlParamId::CurrentLoopPid),
            ),
            r == pid_in(final(self).exchanges().last().reply, ControlParamId::CurrentLoopPid),
    {
        match self.read_control_param(motor_id, ControlParamId::CurrentLoopPid) {
            Ok(v) => Ok(pid_gains(v)),
            Err(e) => Err(e),
        }
    }

    /// Closed-loop torque control (`0xA1`), in raw current units: 2048 is 33 A.
    fn torque_control(&mut self, motor_id: MotorId, iq_raw: i16) -> (r: Result<Response, Error>)
        ensures
            asked(
                old(self).exchanges(),
                final(self).exchanges(),
                Command::TorqueClosedLoop,
                motor_id,
                request::torque_payload(iq_raw),
            ),
            r == final(self).exchanges().last().reply,
    {
        let data: [u8; 2] = bytes::i16_to_le(iq_raw);
        self.transact(Command::TorqueClosedLoop.code(), motor_id, &data)
    }

    /// Closed-loop speed control (`0xA2`), in 0.01 deg/s.
    fn speed_control(&mut self, motor_id: MotorId, centideg_per_s: i32) -> (r: Result<
        Response,
        Error,
    >)
        ensures
            asked(
                old(self).exchanges(),
                final(self).exchanges(),
                Command::SpeedClosedLoop,
                motor_id,
                request::speed_payload(centideg_per_s),
            ),
            r == final(self).exchanges().last().reply,
    {
        let data: [u8; 4] = bytes::i32_to_le(centideg_per_s);
        self.transact(Command::SpeedClosedLoop.code(), motor_id, &data)
    }

    /// Closed-loop multi-turn position control (`0xA3`), in 0.01 deg.
    fn position_control(&mut self, motor_id: MotorId, centideg: i64) -> (r: Result<Response, Error>)
        ensures
            asked(
                old(self).exchanges(),
                final(self).exchanges(),
                Command::PositionClosedLoop1,
                motor_id,
                request::position_payload(centideg),
            ),
            r == final(self).exchanges().last().reply,
    {
        let data: [u8; 8] = bytes::i64_to_le(centideg);
        self.transact(Command::PositionClosedLoop1.code(), motor_id, &data)
    }

    /// Closed-loop multi-turn position control with a speed limit (`0xA4`).
    fn position_control_with_speed(
        &mut self,
        motor_id: MotorId,
        position_centideg: i64,
        max_speed_centideg_per_s: u32,
    ) -> (r: Result<Response, Error>)
        ensures
            asked(
                old(self).exchanges(),
                final(self).exchanges(),
                Command::PositionClosedLoop2,
                motor_id,
                request::position_with_speed_payload(position_centideg, max_speed_centideg_per_s),
            ),
            r == final(self).exchanges().last().reply,
    {
        let data: [u8; 12] = position_with_speed_data(position_centideg, max_speed_centideg_per_s);
        self.transact(Command::PositionClosedLoop2.code(), motor_id, &data)
    }

    /// Read the multi-turn angle (`0x92`), in 0.01 deg of the motor shaft.
    fn read_multi_turn_angle(&mut self, motor_id: MotorId) -> (r: Result<i64, Error>)
        ensures
            asked(
                old(self).exchanges(),
                final(self).exchanges(),
                Command::ReadMultiTurnAngle,
                motor_id,
                Seq::empty(),
            ),
            r == angle_in(final(self).exchanges().last().reply),
    {
        let none: [u8; 0] = [];
        assert(none@ =~= Seq::<u8>::empty());
        match self.transact(Command::ReadMultiTurnAngle.code(), motor_id, &none) {
            Ok(resp) => lift(parse_multi_turn_angle(resp.command, resp.data.as_slice())),
            Err(e) => Err(e),
        }
    }
}

impl<B: LkBus + ?Sized> LkCommands for B {

}

/// The gains in a control parameter value that holds gains.
fn pid_gains(v: ControlParamValue) -> (r: PidTriple)
    requires
        v is Pid,
    ensures
        r == v->Pid_0,
{
    match v {
        ControlParamValue::Pid(p) => p,
        _ => PidTriple { kp: 0, ki: 0, kd: 0 },
    }
}

} // verus!
