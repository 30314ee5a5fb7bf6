//! One motor: encoder turns, the zero anchor, and the commands in units of the
//! wire.
use crate::bytes;
use crate::lkmotor::bus;
use crate::lkmotor::bus::{parse_state2_from_response, Exchange, LkBus, LkCommands, Request, Response};
use crate::lkmotor::command::Command;
use crate::lkmotor::error::Error;
use crate::lkmotor::motor_id::MotorId;
use crate::lkmotor::request;
use crate::lkmotor::response;
use crate::lkmotor::response::{MotorState2, ENCODER_PERIOD};
use vstd::prelude::*;

verus! {

/// Error flags of motor state 1.
#[derive(Debug, Clone, Copy, PartialEq, Eq, Structural)]
pub struct ErrorFlags(pub u8);

impl Default for ErrorFlags {
    fn default() -> (r: Self)
        ensures
            r == ErrorFlags(0),
    {
        ErrorFlags(0)
    }
}

impl ErrorFlags {
    /// Whether bit `k` is set.
    pub open spec fn bit(self, k: u8) -> bool {
        (self.0 >> k) & 1 == 1
    }

    /// The flags as the motor sent them.
    pub fn raw(self) -> (r: u8)
        ensures
            r == self.0,
    {
        self.0
    }

    /// Whether any flag is set.
    pub fn any(self) -> (r: bool)
        ensures
            r == (self.0 != 0),
    {
        self.0 != 0
    }

    /// Bit 0: bus voltage too low.
    pub fn under_voltage(self) -> (r: bool)
        ensures
            r == self.bit(0),
    {
        let v: u8 = self.0;
        assert((v & 0x01 != 0) == ((v >> 0) & 1 == 1)) by (bit_vector);
        self.0 & 0x01 != 0
    }

    /// Bit 1: bus voltage too high.
    pub fn over_voltage(self) -> (r: bool)
        ensures
            r == self.bit(1),
    {
        let v: u8 = self.0;
        assert((v & 0x02 != 0) == ((v >> 1) & 1 == 1)) by (bit_vector);
        self.0 & 0x02 != 0
    }

    /// Bit 2: driver temperature too high.
    pub fn driver_overheat(self) -> (r: bool)
        ensures
            r == self.bit(2),
    {
        let v: u8 = self.0;
        assert((v & 0x04 != 0) == ((v >> 2) & 1 == 1)) by (bit_vector);
        self.0 & 0x04 != 0
    }

    /// Bit 3: motor temperature too high.
    pub fn motor_overheat(self) -> (r: bool)
        ensures
            r == self.bit(3),
    {
        let v: u8 = self.0;
        assert((v & 0x08 != 0) == ((v >> 3) & 1 == 1)) by (bit_vector);
        self.0 & 0x08 != 0
    }

    /// Bit 4: motor over-current.
    pub fn over_current(self) -> (r: bool)
        ensures
            r == self.bit(4),
    {
        let v: u8 = self.0;
        assert((v & 0x10 != 0) == ((v >> 4) & 1 == 1)) by (bit_vector);
        self.0 & 0x10 != 0
    }

    /// Bit 5: motor short circuit.
    pub fn motor_short(self) -> (r: bool)
        ensures
            r == self.bit(5),
    {
        let v: u8 = self.0;
        assert((v & 0x20 != 0) == ((v >> 5) & 1 == 1)) by (bit_vector);
        self.0 & 0x20 != 0
    }

    /// Bit 6: rotor locked.
    pub fn stalled(self) -> (r: bool)
        ensures
            r == self.bit(6),
    {
        let v: u8 = self.0;
        assert((v & 0x40 != 0) == ((v >> 6) & 1 == 1)) by (bit_vector);
        self.0 & 0x40 != 0
    }

    /// Bit 7: the host sent nothing for too long.
    pub fn signal_timeout(self) -> (r: bool)
        ensures
            r == self.bit(7),
    {
        let v: u8 = self.0;
        assert((v & 0x80 != 0) == ((v >> 7) & 1 == 1)) by (bit_vector);
        self.0 & 0x80 != 0
    }
}

/// Slow-changing status, from motor state 1.
#[derive(Debug, Clone, Copy, PartialEq, Eq, Structural)]
pub struct MotorStatus {
    /// Motor temperature, deg C.
    pub temperature_c: i8,
    /// Bus voltage, 0.01 V.
    pub voltage_centivolt: u16,
    /// Error flags.
    pub error: ErrorFlags,
}

/// One measurement, in units of the wire.
#[derive(Debug, Clone, Copy, PartialEq, Eq, Structural)]
pub struct MotorFeedback {
    /// Full turns of the motor shaft since the last [`Motor::rezero`].
    pub turns: i64,
    /// Encoder counts between the origin and the present reading. The shaft has
    /// moved `turns * 65536 + raw_offset` counts in all.
    pub raw_offset: i32,
    /// Speed of the motor shaft, deg/s.
    pub speed_deg_per_s: i16,
    /// Torque current in raw units: 2048 is 33 A.
    pub iq_raw: i16,
    /// Motor temperature, deg C.
    pub temperature_c: i8,
}

/// The state that is kept of one motor.
pub struct Motor {
    pub id: MotorId,
    /// Full turns since the last [`Motor::rezero`].
    pub turns: i64,
    /// The last encoder reading.
    pub prev_raw: Option<u16>,
    /// The encoder reading at the last [`Motor::rezero`].
    pub raw_origin: u16,
    /// The motor's own angle at the last [`Motor::rezero`], 0.01 deg.
    pub motor_zero_centideg: Option<i64>,
}

/// The least speed limit of a position command, 0.01 deg/s.
pub const MIN_SPEED_CENTIDEG_PER_S: u32 = 100;

/// How many turns lie between two readings: the shaft is taken to have moved by
/// less than half a turn.
pub open spec fn turn_step(prev: Option<u16>, raw: u16) -> i64 {
    match prev {
        None => 0,
        Some(p) => if raw - p > 0x8000 {
            (-1) as i64
        } else if raw - p < -0x8000 {
            1
        } else {
            0
        },
    }
}

/// The motor after an encoder reading. The turn counter wraps like the machine
/// integer that it is.
pub open spec fn after_reading(m: Motor, raw: u16) -> Motor {
    Motor {
        turns: m.turns.wrapping_add(turn_step(m.prev_raw, raw)),
        prev_raw: Some(raw),
        ..m
    }
}

/// The measurement in `s`, for the motor after that reading.
pub open spec fn feedback_of(m: Motor, s: MotorState2) -> MotorFeedback {
    MotorFeedback {
        turns: m.turns,
        raw_offset: (s.encoder_raw - m.raw_origin) as i32,
        speed_deg_per_s: s.speed_deg_per_s,
        iq_raw: s.iq_raw,
        temperature_c: s.temperature_c,
    }
}

/// What an operation does to a motor, asks of the bus and returns.
pub struct Outcome<T> {
    pub motor: Motor,
    pub requests: Seq<Request>,
    pub result: Result<T, Error>,
}

/// The exchanges that came after `before`.
pub open spec fn since(before: Seq<Exchange>, after: Seq<Exchange>) -> Seq<Exchange> {
    after.skip(before.len() as int)
}

/// The requests of some exchanges.
pub open spec fn requests_of(exchanges: Seq<Exchange>) -> Seq<Request> {
    exchanges.map_values(|e: Exchange| e.request)
}

/// The replies of some exchanges.
pub open spec fn replies_of(exchanges: Seq<Exchange>) -> Seq<Result<Response, Error>> {
    exchanges.map_values(|e: Exchange| e.reply)
}

/// That an operation with this outcome took place: the bus has seen its requests
/// and nothing else, and motor and result are what it says.
pub open spec fn happened<T>(
    before: Seq<Exchange>,
    after: Seq<Exchange>,
    motor: Motor,
    result: Result<T, Error>,
    outcome: Outcome<T>,
) -> bool {
    &&& before.len() <= after.len()
    &&& after.take(before.len() as int) == before
    &&& requests_of(since(before, after)) == outcome.requests
    &&& motor == outcome.motor
    &&& result == outcome.result
}

/// A request to this motor.
pub open spec fn request_to(m: Motor, command: Command, data: Seq<u8>) -> Request {
    Request { command: command.code(), motor_id: m.id@, data }
}

/// A command that only wants an acknowledgement.
pub open spec fn acknowledge_outcome(
    m: Motor,
    command: Command,
    replies: Seq<Result<Response, Error>>,
) -> Outcome<()> {
    Outcome {
        motor: m,
        requests: seq![request_to(m, command, Seq::empty())],
        result: bus::acknowledged(replies[0]),
    }
}

/// [`Motor::enable`].
pub open spec fn run_outcome(m: Motor, replies: Seq<Result<Response, Error>>) -> Outcome<()> {
    acknowledge_outcome(m, Command::MotorRun, replies)
}

/// [`Motor::disable`].
pub open spec fn stop_outcome(m: Motor, replies: Seq<Result<Response, Error>>) -> Outcome<()> {
    acknowledge_outcome(m, Command::MotorStop, replies)
}

/// [`Motor::rezero`]: the encoder origin is taken first, then the absolute angle.
/// Where the angle cannot be had, the anchor stays what it was.
pub open spec fn rezero_outcome(m: Motor, replies: Seq<Result<Response, Error>>) -> Outcome<()> {
    let ask_state = request_to(m, Command::ReadMotorState2, Seq::empty());
    let ask_angle = request_to(m, Command::ReadMultiTurnAngle, Seq::empty());
    match bus::state2_in(replies[0]) {
        Err(e) => Outcome { motor: m, requests: seq![ask_state], result: Err(e) },
        Ok(s) => {
            let there = Motor {
                prev_raw: Some(s.encoder_raw),
                raw_origin: s.encoder_raw,
                turns: 0,
                ..m
            };
            match bus::angle_in(replies[1]) {
                Err(e) => Outcome {
                    motor: there,
                    requests: seq![ask_state, ask_angle],
                    result: Err(e),
                },
                Ok(angle) => Outcome {
                    motor: Motor { motor_zero_centideg: Some(angle), ..there },
                    requests: seq![ask_state, ask_angle],
                    result: Ok(()),
                },
            }
        },
    }
}

/// One request whose reply holds a state-2 measurement.
pub open spec fn measured_outcome(
    m: Motor,
    ask: Request,
    state: Result<MotorState2, Error>,
) -> Outcome<MotorFeedback> {
    match state {
        Err(e) => Outcome { motor: m, requests: seq![ask], result: Err(e) },
        Ok(s) => {
            let after = after_reading(m, s.encoder_raw);
            Outcome { motor: after, requests: seq![ask], result: Ok(feedback_of(after, s)) }
        },
    }
}

/// [`Motor::measure`].
pub open spec fn measure_outcome(m: Motor, replies: Seq<Result<Response, Error>>) -> Outcome<
    MotorFeedback,
> {
    measured_outcome(
        m,
        request_to(m, Command::ReadMotorState2, Seq::empty()),
        bus::state2_in(replies[0]),
    )
}

/// [`Motor::read_status`].
pub open spec fn read_status_outcome(m: Motor, replies: Seq<Result<Response, Error>>) -> Outcome<
    MotorStatus,
> {
    Outcome {
        motor: m,
        requests: seq![request_to(m, Command::ReadMotorState1, Seq::empty())],
        result: match bus::state1_in(replies[0]) {
            Err(e) => Err(e),
            Ok(s) => Ok(
                MotorStatus {
                    temperature_c: s.temperature_c,
                    voltage_centivolt: s.voltage_centivolt,
                    error: ErrorFlags(s.error_state),
                },
            ),
        },
    }
}

/// The speed limit that is sent for a wanted one.
pub open spec fn speed_limit(wanted: u32) -> u32 {
    if wanted < MIN_SPEED_CENTIDEG_PER_S {
        MIN_SPEED_CENTIDEG_PER_S
    } else {
        wanted
    }
}

/// [`Motor::set_position`]: without an anchor nothing is sent.
pub open spec fn set_position_outcome(
    m: Motor,
    delta_centideg: i64,
    max_speed: u32,
    replies: Seq<Result<Response, Error>>,
) -> Outcome<MotorFeedback> {
    match m.motor_zero_centideg {
        None => Outcome {
            motor: m,
            requests: Seq::empty(),
            result: Err(Error::PositionNotAnchored { motor_id: m.id@ }),
        },
        Some(zero) => measured_outcome(
            m,
            request_to(
                m,
                Command::PositionClosedLoop2,
                request::position_with_speed_payload(
                    zero.wrapping_add(delta_centideg),
                    speed_limit(max_speed),
                ),
            ),
            bus::motion_state_in(replies[0]),
        ),
    }
}

/// [`Motor::set_velocity`].
pub open spec fn set_velocity_outcome(
    m: Motor,
    centideg_per_s: i32,
    replies: Seq<Result<Response, Error>>,
) -> Outcome<MotorFeedback> {
    measured_outcome(
        m,
        request_to(
            m,
            Command::SpeedClosedLoop,
            request::speed_payload(centideg_per_s),
        ),
        bus::motion_state_in(replies[0]),
    )
}

/// [`Motor::set_current`].
pub open spec fn set_current_outcome(
    m: Motor,
    iq_raw: i16,
    replies: Seq<Result<Response, Error>>,
) -> Outcome<MotorFeedback> {
    measured_outcome(
        m,
        request_to(
            m,
            Command::TorqueClosedLoop,
            request::torque_payload(iq_raw),
        ),
        bus::motion_state_in(replies[0]),
    )
}

/// [`Motor::mit_control`], where `iq_raw` is the current for what was measured: a
/// measurement, then the current.
pub open spec fn mit_control_outcome(
    m: Motor,
    iq_raw: i16,
    replies: Seq<Result<Response, Error>>,
) -> Outcome<MotorFeedback> {
    let first = measure_outcome(m, replies);
    if first.result is Err {
        first
    } else {
        let second = set_current_outcome(first.motor, iq_raw, replies.skip(1));
        Outcome {
            motor: second.motor,
            requests: first.requests + second.requests,
            result: second.result,
        }
    }
}

/// The shaft position that a motor has counted, in encoder counts.
pub open spec fn counted(m: Motor) -> int {
    m.turns * 0x1_0000 + m.prev_raw.unwrap()
}

/// The turn counter follows the shaft: if the shaft moves by less than half a
/// turn between two readings, whichever way and across however many encoder
/// wraps since the start, the counted position moves by exactly as much.
pub proof fn law_tracker_follows_shaft(m: Motor, shaft: int, moved: int)
    requires
        m.prev_raw == Some((shaft % 0x1_0000) as u16),
        -0x8000 < moved < 0x8000,
        i64::MIN < m.turns < i64::MAX,
    ensures
        counted(after_reading(m, ((shaft + moved) % 0x1_0000) as u16)) == counted(m) + moved,
{
    let a = shaft % 0x1_0000;
    let b = (shaft + moved) % 0x1_0000;
    assert(b == a + moved || b == a + moved + 0x1_0000 || b == a + moved - 0x1_0000);
}

/// Right after a successful rezero, a motor that has not moved reads position
/// zero.
pub proof fn law_rezero_reads_zero(
    m: Motor,
    replies: Seq<Result<Response, Error>>,
    s: MotorState2,
)
    ensures
        ({
            let z = rezero_outcome(m, replies);
            z.result is Ok && z.motor.prev_raw == Some(s.encoder_raw) ==> {
                let fb = feedback_of(after_reading(z.motor, s.encoder_raw), s);
                fb.turns == 0 && fb.raw_offset == 0
            }
        }),
{
}

/// A successful rezero anchors the motor; a failed one never moves the anchor.
pub proof fn law_rezero_anchors(m: Motor, replies: Seq<Result<Response, Error>>)
    ensures
        ({
            let z = rezero_outcome(m, replies);
            match z.result {
                Ok(_) => z.motor.motor_zero_centideg is Some,
                Err(_) => z.motor.motor_zero_centideg == m.motor_zero_centideg,
            }
        }),
{
}

/// That a motor is the same, with the same anchor and encoder origin.
pub open spec fn same_frame(m: Motor, n: Motor) -> bool {
    &&& n.id == m.id
    &&& n.motor_zero_centideg == m.motor_zero_centideg
    &&& n.raw_origin == m.raw_origin
}

/// No operation but rezero moves the anchor or the encoder origin.
pub proof fn law_commands_keep_the_anchor(
    m: Motor,
    delta: i64,
    speed: u32,
    velocity: i32,
    iq: i16,
    replies: Seq<Result<Response, Error>>,
)
    ensures
        same_frame(m, measure_outcome(m, replies).motor),
        same_frame(m, read_status_outcome(m, replies).motor),
        same_frame(m, set_position_outcome(m, delta, speed, replies).motor),
        same_frame(m, set_velocity_outcome(m, velocity, replies).motor),
        same_frame(m, set_current_outcome(m, iq, replies).motor),
{
}

/// The exchange behind a one-request operation.
proof fn lemma_one_exchange(before: Seq<Exchange>, after: Seq<Exchange>)
    requires
        after == before.push(after.last()),
    ensures
        after.take(before.len() as int) == before,
        since(before, after) == seq![after.last()],
        requests_of(since(before, after)) == seq![after.last().request],
        replies_of(since(before, after)) == seq![after.last().reply],
{
    assert(after.take(before.len() as int) =~= before);
    assert(since(before, after) =~= seq![after.last()]);
    assert(requests_of(since(before, after)) =~= seq![after.last().request]);
    assert(replies_of(since(before, after)) =~= seq![after.last().reply]);
}

/// The 16-bit number in the bytes at `at`, low byte first.
pub open spec fn word(s: Seq<u8>, at: int) -> int {
    s[at] + 0x100 * s[at + 1]
}

/// `w` read as a signed number of `range` values.
pub open spec fn signed(w: int, range: int) -> int {
    if 2 * w >= range {
        w - range
    } else {
        w
    }
}

/// Running and stopping send the one request that runs or stops this motor, never
/// the one that switches it off, and keep all that is known of it.
pub proof fn law_run_and_stop_requests(m: Motor, replies: Seq<Result<Response, Error>>)
    ensures
        run_outcome(m, replies).requests == seq![
            Request { command: 0x88, motor_id: m.id@, data: Seq::<u8>::empty() },
        ],
        stop_outcome(m, replies).requests == seq![
            Request { command: 0x81, motor_id: m.id@, data: Seq::<u8>::empty() },
        ],
        run_outcome(m, replies).motor == m,
        stop_outcome(m, replies).motor == m,
        run_outcome(m, replies).result is Ok <==> replies[0] is Ok,
        stop_outcome(m, replies).result is Ok <==> replies[0] is Ok,
        run_outcome(m, replies).result matches Err(e) ==> replies[0] == Err::<Response, Error>(e),
        stop_outcome(m, replies).result matches Err(e) ==> replies[0] == Err::<Response, Error>(e),
{
}

/// The target of a position command is the anchored zero plus the displacement,
/// over any number of turns, wherever the sum fits; its speed cap is the one that
/// was asked for, and never below 1 deg/s.
pub proof fn law_position_target(
    m: Motor,
    zero: i64,
    delta_centideg: i64,
    max_speed: u32,
    replies: Seq<Result<Response, Error>>,
)
    requires
        m.motor_zero_centideg == Some(zero),
        i64::MIN <= zero + delta_centideg <= i64::MAX,
    ensures
        ({
            let requests = set_position_outcome(m, delta_centideg, max_speed, replies).requests;
            &&& requests.len() == 1
            &&& requests[0].command == 0xA4
            &&& requests[0].motor_id == m.id@
            &&& requests[0].data.len() == 12
            &&& request::signed_in(requests[0].data.take(8)) == zero + delta_centideg
            &&& bytes::le_value(requests[0].data.skip(8)) >= 100
            &&& bytes::le_value(requests[0].data.skip(8)) >= max_speed
            &&& max_speed >= 100 ==> bytes::le_value(requests[0].data.skip(8)) == max_speed
            &&& max_speed < 100 ==> bytes::le_value(requests[0].data.skip(8)) == 100
        }),
{
    request::law_position_payload_holds_the_position(
        (zero + delta_centideg) as i64,
        speed_limit(max_speed),
    );
}

/// Two position commands from one anchor are as far apart as their displacements.
pub proof fn law_position_targets_differ_by_the_displacement(
    m: Motor,
    zero: i64,
    a: i64,
    b: i64,
    max_speed: u32,
    replies: Seq<Result<Response, Error>>,
)
    requires
        m.motor_zero_centideg == Some(zero),
        i64::MIN <= zero + a <= i64::MAX,
        i64::MIN <= zero + b <= i64::MAX,
    ensures
        request::signed_in(
            set_position_outcome(m, a, max_speed, replies).requests[0].data.take(8),
        ) - request::signed_in(
            set_position_outcome(m, b, max_speed, replies).requests[0].data.take(8),
        ) == a - b,
{
    law_position_target(m, zero, a, max_speed, replies);
    law_position_target(m, zero, b, max_speed, replies);
}

/// A velocity command sends the speed that was asked for, in either direction, and
/// a current command the current, each with its own request.
pub proof fn law_velocity_and_current_requests(
    m: Motor,
    centideg_per_s: i32,
    iq_raw: i16,
    replies: Seq<Result<Response, Error>>,
)
    ensures
        ({
            let v = set_velocity_outcome(m, centideg_per_s, replies).requests;
            let c = set_current_outcome(m, iq_raw, replies).requests;
            &&& v.len() == 1
            &&& v[0].command == 0xA2
            &&& v[0].motor_id == m.id@
            &&& v[0].data.len() == 4
            &&& request::signed_in(v[0].data) == centideg_per_s
            &&& c.len() == 1
            &&& c[0].command == 0xA1
            &&& c[0].motor_id == m.id@
            &&& c[0].data.len() == 2
            &&& request::signed_in(c[0].data) == iq_raw
        }),
{
    request::law_speed_payload_holds_the_speed(centideg_per_s);
    request::law_torque_payload_holds_the_current(iq_raw);
}

/// Measuring and reading the status ask for a state and command nothing.
pub proof fn law_reading_commands_nothing(m: Motor, replies: Seq<Result<Response, Error>>)
    ensures
        measure_outcome(m, replies).requests == seq![
            Request { command: 0x9C, motor_id: m.id@, data: Seq::<u8>::empty() },
        ],
        read_status_outcome(m, replies).requests == seq![
            Request { command: 0x9A, motor_id: m.id@, data: Seq::<u8>::empty() },
        ],
        read_status_outcome(m, replies).motor == m,
{
}

/// The status is what the motor answered: its error byte with every fault bit, its
/// voltage and its temperature. Any other answer is a failure.
pub proof fn law_status_is_the_answer(
    m: Motor,
    resp: Response,
    replies: Seq<Result<Response, Error>>,
    k: u8,
)
    requires
        replies[0] == Ok::<Response, Error>(resp),
        k < 8,
    ensures
        ({
            let r = read_status_outcome(m, replies).result;
            let d = resp.data@;
            &&& r is Ok <==> resp.command == 0x9A && d.len() >= 7
            &&& r matches Ok(s) ==> {
                &&& s.error.0 == d[6]
                &&& s.error.bit(k) == ((d[6] >> k) & 1 == 1)
                &&& s.voltage_centivolt == word(d, 1)
                &&& s.temperature_c == signed(d[0] as int, 0x100)
            }
        }),
{
    let d = resp.data@;
    if resp.command == 0x9A && d.len() >= 7 {
        lemma_fields(d);
    }
}

/// The bytes of a state answer as numbers.
proof fn lemma_fields(d: Seq<u8>)
    requires
        d.len() >= 7,
    ensures
        response::signed_field(d, 0, 1) == signed(d[0] as int, 0x100),
        response::field(d, 1, 2) == word(d, 1),
        response::field(d, 5, 2) == word(d, 5),
        response::signed_field(d, 1, 2) == signed(word(d, 1), 0x1_0000),
        response::signed_field(d, 3, 2) == signed(word(d, 3), 0x1_0000),
{
    bytes::lemma_pow256_values();
    assert(d.subrange(0, 1) =~= seq![d[0]]);
    reveal_with_fuel(bytes::le_value, 2);
    bytes::law_value_of_two_bytes(d.subrange(1, 3));
    bytes::law_value_of_two_bytes(d.subrange(3, 5));
    bytes::law_value_of_two_bytes(d.subrange(5, 7));
}

/// The answer to a motion command, or to a measurement, is the feedback: torque
/// current, speed and temperature are those of the answer, and the position is the
/// encoder reading in it, taken from the origin, beside the turns that are counted.
pub proof fn law_feedback_is_the_answer(
    m: Motor,
    resp: Response,
    replies: Seq<Result<Response, Error>>,
    zero: i64,
    delta: i64,
    speed: u32,
    velocity: i32,
    iq: i16,
)
    requires
        replies[0] == Ok::<Response, Error>(resp),
        m.motor_zero_centideg == Some(zero),
    ensures
        resp.data@.len() < 7 ==> set_velocity_outcome(m, velocity, replies).result is Err,
        resp.data@.len() >= 7 ==> {
            let d = resp.data@;
            let o = set_velocity_outcome(m, velocity, replies);
            &&& o.result matches Ok(fb)
            &&& fb.iq_raw == signed(word(d, 1), 0x1_0000)
            &&& fb.speed_deg_per_s == signed(word(d, 3), 0x1_0000)
            &&& fb.temperature_c == signed(d[0] as int, 0x100)
            &&& fb.raw_offset == word(d, 5) - m.raw_origin
            &&& fb.turns == o.motor.turns
            &&& o.motor.prev_raw matches Some(p) && p == word(d, 5)
        },
        set_current_outcome(m, iq, replies).result == set_velocity_outcome(
            m,
            velocity,
            replies,
        ).result,
        set_position_outcome(m, delta, speed, replies).result == set_velocity_outcome(
            m,
            velocity,
            replies,
        ).result,
        resp.command == 0x9C ==> measure_outcome(m, replies).result == set_velocity_outcome(
            m,
            velocity,
            replies,
        ).result,
        resp.command != 0x9C ==> measure_outcome(m, replies).result is Err,
        set_current_outcome(m, iq, replies).motor == set_velocity_outcome(
            m,
            velocity,
            replies,
        ).motor,
        set_position_outcome(m, delta, speed, replies).motor == set_velocity_outcome(
            m,
            velocity,
            replies,
        ).motor,
{
    if resp.data@.len() >= 7 {
        lemma_fields(resp.data@);
    }
}

/// Two feedbacks in a row are as far apart as the shaft has turned, full turns
/// included, as long as it turned less than half a turn between them.
pub proof fn law_feedback_follows_the_shaft(
    m: Motor,
    shaft: int,
    moved: int,
    s: MotorState2,
    t: MotorState2,
)
    requires
        s.encoder_raw == shaft % 0x1_0000,
        t.encoder_raw == (shaft + moved) % 0x1_0000,
        -0x8000 < moved < 0x8000,
        i64::MIN + 1 < m.turns < i64::MAX - 1,
    ensures
        ({
            let once = after_reading(m, s.encoder_raw);
            let twice = after_reading(once, t.encoder_raw);
            let a = feedback_of(once, s);
            let b = feedback_of(twice, t);
            (b.turns * 0x1_0000 + b.raw_offset) - (a.turns * 0x1_0000 + a.raw_offset) == moved
        }),
{
    law_tracker_follows_shaft(after_reading(m, s.encoder_raw), shaft, moved);
}

/// A rezeroed motor counts from the encoder reading that was answered and is
/// anchored at the angle that was answered.
pub proof fn law_rezero_takes_the_answers(
    m: Motor,
    state: Response,
    angle: Response,
    replies: Seq<Result<Response, Error>>,
)
    requires
        replies[0] == Ok::<Response, Error>(state),
        replies[1] == Ok::<Response, Error>(angle),
        state.command == 0x9C,
        state.data@.len() >= 7,
        angle.command == 0x92,
        angle.data@.len() >= 8,
    ensures
        ({
            let z = rezero_outcome(m, replies);
            &&& z.result is Ok
            &&& z.requests == seq![
                Request { command: 0x9C, motor_id: m.id@, data: Seq::<u8>::empty() },
                Request { command: 0x92, motor_id: m.id@, data: Seq::<u8>::empty() },
            ]
            &&& z.motor.raw_origin == word(state.data@, 5)
            &&& z.motor.prev_raw == Some(z.motor.raw_origin)
            &&& z.motor.turns == 0
            &&& z.motor.id == m.id
            &&& z.motor.motor_zero_centideg matches Some(zero) && zero == request::signed_in(
                angle.data@.take(8),
            )
        }),
{
    lemma_fields(state.data@);
    bytes::lemma_pow256_values();
    assert(angle.data@.subrange(0, 8) =~= angle.data@.take(8));
    bytes::law_le_bytes_of_le_value(angle.data@.take(8));
}

/// Joint control on the host measures first and commands the current second, and
/// commands nothing where the measurement fails.
pub proof fn law_joint_control_measures_first(
    m: Motor,
    iq_raw: i16,
    replies: Seq<Result<Response, Error>>,
)
    ensures
        ({
            let o = mit_control_outcome(m, iq_raw, replies);
            &&& o.requests.len() > 0
            &&& o.requests[0].command == 0x9C
            &&& if measure_outcome(m, replies).result is Ok {
                &&& o.requests.len() == 2
                &&& o.requests[1].command == 0xA1
                &&& o.requests[1].motor_id == m.id@
                &&& request::signed_in(o.requests[1].data) == iq_raw
                &&& replies.len() >= 2 ==> o.result == set_current_outcome(
                    measure_outcome(m, replies).motor,
                    iq_raw,
                    seq![replies[1]],
                ).result
            } else {
                &&& o.requests.len() == 1
                &&& o.result is Err
            }
        }),
{
    if replies.len() >= 2 {
        assert(replies.skip(1)[0] == seq![replies[1]][0]);
    }
    request::law_torque_payload_holds_the_current(iq_raw);
}

/// The two halves of a run of exchanges.
pub proof fn lemma_split(start: Seq<Exchange>, middle: Seq<Exchange>, end: Seq<Exchange>)
    requires
        start.len() <= middle.len() <= end.len(),
        middle.take(start.len() as int) == start,
        end.take(middle.len() as int) == middle,
    ensures
        end.take(start.len() as int) == start,
        requests_of(since(start, end)) == requests_of(
            since(start, middle),
        ) + requests_of(since(middle, end)),
        replies_of(since(start, end)) == replies_of(
            since(start, middle),
        ) + replies_of(since(middle, end)),
        replies_of(since(start, end)).skip(middle.len() - start.len())
            == replies_of(since(middle, end)),
        requests_of(since(start, middle)).len() == middle.len() - start.len(),
{
    assert(end.take(start.len() as int) =~= middle.take(start.len() as int));
    assert(since(start, end) =~= since(start, middle) + since(middle, end)) by {
        assert forall|i: int| start.len() <= i < middle.len() implies end[i] == middle[i] by {
            assert(end.take(middle.len() as int)[i] == middle[i]);
        }
    }
    assert(requests_of(since(start, end)) =~= requests_of(
        since(start, middle),
    ) + requests_of(since(middle, end)));
    assert(replies_of(since(start, end)) =~= replies_of(
        since(start, middle),
    ) + replies_of(since(middle, end)));
    assert(replies_of(since(start, end)).skip(middle.len() - start.len())
        =~= replies_of(since(middle, end)));
}

impl Motor {
    /// A motor of which nothing is known yet.
    pub fn new(id: MotorId) -> (r: Self)
        ensures
            r == (Motor {
                id,
                turns: 0,
                prev_raw: None,
                raw_origin: 0,
                motor_zero_centideg: None,
            }),
    {
        Motor { id, turns: 0, prev_raw: None, raw_origin: 0, motor_zero_centideg: None }
    }

    pub fn id(&self) -> (r: MotorId)
        ensures
            r == self.id,
    {
        self.id
    }

    pub fn turns(&self) -> (r: i64)
        ensures
            r == self.turns,
    {
        self.turns
    }

    /// Resume operation (`0x88`).
    pub fn enable<B: LkBus + ?Sized>(&mut self, bus: &mut B) -> (r: Result<(), Error>)
        ensures
            happened(
                old(bus).exchanges(),
                final(bus).exchanges(),
                *final(self),
                r,
                run_outcome(
                    *old(self),
                    replies_of(since(old(bus).exchanges(), final(bus).exchanges())),
                ),
            ),
    {
        let r = bus.motor_run(self.id);
        proof {
            lemma_one_exchange(old(bus).exchanges(), bus.exchanges());
        }
        r
    }

    /// Stop (`0x81`), keeping the run flag.
    pub fn disable<B: LkBus + ?Sized>(&mut self, bus: &mut B) -> (r: Result<(), Error>)
        ensures
            happened(
                old(bus).exchanges(),
                final(bus).exchanges(),
                *final(self),
                r,
                stop_outcome(
                    *old(self),
                    replies_of(since(old(bus).exchanges(), final(bus).exchanges())),
                ),
            ),
    {
        let r = bus.motor_stop(self.id);
        proof {
            lemma_one_exchange(old(bus).exchanges(), bus.exchanges());
        }
        r
    }

    /// Makes the present position the zero of [`Motor::set_position`] and of
    /// measurements.
    pub fn rezero<B: LkBus + ?Sized>(&mut self, bus: &mut B) -> (r: Result<(), Error>)
        ensures
            happened(
                old(bus).exchanges(),
                final(bus).exchanges(),
                *final(self),
                r,
                rezero_outcome(
                    *old(self),
                    replies_of(since(old(bus).exchanges(), final(bus).exchanges())),
                ),
            ),
    {
        let ghost start = bus.exchanges();
        let s = match bus.read_state2(self.id) {
            Ok(s) => s,
            Err(e) => {
                proof {
                    lemma_one_exchange(start, bus.exchanges());
                }
                return Err(e);
            },
        };
        let ghost middle = bus.exchanges();
        self.prev_raw = Some(s.encoder_raw);
        self.raw_origin = s.encoder_raw;
        self.turns = 0;
        let angle = bus.read_multi_turn_angle(self.id);
        proof {
            let end = bus.exchanges();
            assert(end.take(start.len() as int) =~= start);
            assert(since(start, end) =~= seq![middle.last(), end.last()]);
            assert(requests_of(since(start, end)) =~= seq![
                middle.last().request,
                end.last().request,
            ]);
            assert(replies_of(since(start, end)) =~= seq![
                middle.last().reply,
                end.last().reply,
            ]);
        }
        match angle {
            Ok(a) => {
                self.motor_zero_centideg = Some(a);
                Ok(())
            },
            Err(e) => Err(e),
        }
    }

    /// Reads the position without commanding anything.
    pub fn measure<B: LkBus + ?Sized>(&mut self, bus: &mut B) -> (r: Result<MotorFeedback, Error>)
        ensures
            happened(
                old(bus).exchanges(),
                final(bus).exchanges(),
                *final(self),
                r,
                measure_outcome(
                    *old(self),
                    replies_of(since(old(bus).exchanges(), final(bus).exchanges())),
                ),
            ),
    {
        let s = bus.read_state2(self.id);
        proof {
            lemma_one_exchange(old(bus).exchanges(), bus.exchanges());
        }
        match s {
            Ok(s) => Ok(self.feedback_from_state2(s)),
            Err(e) => Err(e),
        }
    }

    /// Reads voltage, temperature and error flags.
    pub fn read_status<B: LkBus + ?Sized>(&mut self, bus: &mut B) -> (r: Result<
        MotorStatus,
        Error,
    >)
        ensures
            happened(
                old(bus).exchanges(),
                final(bus).exchanges(),
                *final(self),
                r,
                read_status_outcome(
                    *old(self),
                    replies_of(since(old(bus).exchanges(), final(bus).exchanges())),
                ),
            ),
    {
        let s = bus.read_state1(self.id);
        proof {
            lemma_one_exchange(old(bus).exchanges(), bus.exchanges());
        }
        match s {
            Ok(s) => Ok(
                MotorStatus {
                    temperature_c: s.temperature_c,
                    voltage_centivolt: s.voltage_centivolt,
                    error: ErrorFlags(s.error_state),
                },
            ),
            Err(e) => Err(e),
        }
    }

    /// Position control (`0xA4`): `delta_centideg` of the motor shaft from the
    /// anchored zero, with a speed limit that is raised to
    /// [`MIN_SPEED_CENTIDEG_PER_S`] where it is below.
    pub fn set_position<B: LkBus + ?Sized>(
        &mut self,
        bus: &mut B,
        delta_centideg: i64,
        max_speed: u32,
    ) -> (r: Result<MotorFeedback, Error>)
        ensures
            happened(
                old(bus).exchanges(),
                final(bus).exchanges(),
                *final(self),
                r,
                set_position_outcome(
                    *old(self),
                    delta_centideg,
                    max_speed,
                    replies_of(since(old(bus).exchanges(), final(bus).exchanges())),
                ),
            ),
    {
        let zero: i64 = match self.motor_zero_centideg {
            Some(zero) => zero,
            None => {
                proof {
                    let start = bus.exchanges();
                    assert(start.take(start.len() as int) =~= start);
                    assert(requests_of(since(start, start)) =~= Seq::empty());
                }
                return Err(Error::PositionNotAnchored { motor_id: self.id.get() });
            },
        };
        let limit: u32 = if max_speed < MIN_SPEED_CENTIDEG_PER_S {
            MIN_SPEED_CENTIDEG_PER_S
        } else {
            max_speed
        };
        let reply = bus.position_control_with_speed(
            self.id,
            zero.wrapping_add(delta_centideg),
            limit,
        );
        proof {
            lemma_one_exchange(old(bus).exchanges(), bus.exchanges());
        }
        self.feedback_from_reply(reply)
    }

    /// Velocity control (`0xA2`), in 0.01 deg/s of the motor shaft.
    pub fn set_velocity<B: LkBus + ?Sized>(&mut self, bus: &mut B, centideg_per_s: i32) -> (r:
        Result<MotorFeedback, Error>)
        ensures
            happened(
                old(bus).exchanges(),
                final(bus).exchanges(),
                *final(self),
                r,
                set_velocity_outcome(
                    *old(self),
                    centideg_per_s,
                    replies_of(since(old(bus).exchanges(), final(bus).exchanges())),
                ),
            ),
    {
        let reply = bus.speed_control(self.id, centideg_per_s);
        proof {
            lemma_one_exchange(old(bus).exchanges(), bus.exchanges());
        }
        self.feedback_from_reply(reply)
    }

    /// Current control (`0xA1`), in raw units: 2048 is 33 A.
    pub fn set_current<B: LkBus + ?Sized>(&mut self, bus: &mut B, iq_raw: i16) -> (r: Result<
        MotorFeedback,
        Error,
    >)
        ensures
            happened(
                old(bus).exchanges(),
                final(bus).exchanges(),
                *final(self),
                r,
                set_current_outcome(
                    *old(self),
                    iq_raw,
                    replies_of(since(old(bus).exchanges(), final(bus).exchanges())),
                ),
            ),
    {
        let reply = bus.torque_control(self.id, iq_raw);
        proof {
            lemma_one_exchange(old(bus).exchanges(), bus.exchanges());
        }
        self.feedback_from_reply(reply)
    }

    /// Joint control on the host: measures, and commands the current that
    /// `current_for` gives for the measurement. The motor keeps applying it until
    /// the next command, so this is for a loop.
    pub fn mit_control<B: LkBus + ?Sized, F: Fn(MotorFeedback) -> i16>(
        &mut self,
        bus: &mut B,
        current_for: &F,
    ) -> (r: Result<MotorFeedback, Error>)
        requires
            forall|fb: MotorFeedback| current_for.requires((fb,)),
        ensures
            ({
                let replies = replies_of(since(old(bus).exchanges(), final(bus).exchanges()));
                exists|iq_raw: i16|
                    {
                        &&& #[trigger] happened(
                            old(bus).exchanges(),
                            final(bus).exchanges(),
                            *final(self),
                            r,
                            mit_control_outcome(*old(self), iq_raw, replies),
                        )
                        &&& measure_outcome(*old(self), replies).result matches Ok(fb)
                            ==> current_for.ensures((fb,), iq_raw)
                    }
            }),
    {
        let ghost start = bus.exchanges();
        let ghost m = *self;
        let measured = self.measure(bus);
        let ghost middle = bus.exchanges();
        match measured {
            Err(e) => {
                assert(happened(
                    start,
                    bus.exchanges(),
                    *self,
                    Err(e),
                    mit_control_outcome(m, 0, replies_of(since(start, middle))),
                ));
                Err(e)
            },
            Ok(fb) => {
                let iq_raw: i16 = current_for(fb);
                let r = self.set_current(bus, iq_raw);
                proof {
                    let end = bus.exchanges();
                    let replies = replies_of(since(start, end));
                    lemma_split(start, middle, end);
                    assert(replies[0] == replies_of(since(start, middle))[0]);
                    assert(happened(
                        start,
                        end,
                        *self,
                        r,
                        mit_control_outcome(m, iq_raw, replies),
                    ));
                }
                r
            },
        }
    }

    /// The measurement in the reply to a motion command.
    fn feedback_from_reply(&mut self, reply: Result<Response, Error>) -> (r: Result<
        MotorFeedback,
        Error,
    >)
        ensures
            match bus::motion_state_in(reply) {
                Err(e) => r == Err::<MotorFeedback, Error>(e) && *final(self) == *old(self),
                Ok(s) => {
                    &&& *final(self) == after_reading(*old(self), s.encoder_raw)
                    &&& r == Ok::<MotorFeedback, Error>(feedback_of(*final(self), s))
                },
            },
    {
        match reply {
            Err(e) => Err(e),
            Ok(resp) => match parse_state2_from_response(&resp) {
                Err(e) => Err(e),
                Ok(s) => Ok(self.feedback_from_state2(s)),
            },
        }
    }

    /// The measurement in a state-2 report, counting turns.
    pub fn feedback_from_state2(&mut self, s: MotorState2) -> (r: MotorFeedback)
        ensures
            *final(self) == after_reading(*old(self), s.encoder_raw),
            r == feedback_of(*final(self), s),
    {
        let raw: u16 = s.encoder_raw;
        if let Some(prev) = self.prev_raw {
            let half: i32 = (ENCODER_PERIOD / 2) as i32;
            let delta: i32 = raw as i32 - prev as i32;
            if delta > half {
                self.turns = self.turns.wrapping_add(-1);
            } else if delta < -half {
                self.turns = self.turns.wrapping_add(1);
            }
        }
        self.prev_raw = Some(raw);
        MotorFeedback {
            turns: self.turns,
            raw_offset: raw as i32 - self.raw_origin as i32,
            speed_deg_per_s: s.speed_deg_per_s,
            iq_raw: s.iq_raw,
            temperature_c: s.temperature_c,
        }
    }
}

} // verus!
