//! Request frames.
use crate::bytes;
use crate::lkmotor::command::{Command, ControlParamId};
use crate::lkmotor::frame;
use crate::lkmotor::frame::{encode, EncodeError};
use vstd::prelude::*;

verus! {

/// That a request with this command and payload was encoded into `out`, which
/// held `before` and now holds `after`, or refused with `r`.
pub open spec fn encoded(
    r: Result<usize, EncodeError>,
    command: Command,
    motor_id: u8,
    data: Seq<u8>,
    before: Seq<u8>,
    after: Seq<u8>,
) -> bool {
    &&& r == frame::encode_result(data.len(), before.len())
    &&& after == frame::encode_buffer(
        frame::FrameView { command: command.code(), motor_id, data },
        before,
    )
}

/// The payload of a multi-turn position command with a speed limit: the angle
/// in 0.01 deg as eight bytes, then the limit in 0.01 deg/s as four.
pub open spec fn position_with_speed_payload(
    position_centideg: i64,
    max_speed_centideg_per_s: u32,
) -> Seq<u8> {
    bytes::le_bytes(bytes::twos_complement(position_centideg as int, 8), 8) + bytes::le_bytes(
        max_speed_centideg_per_s as nat,
        4,
    )
}

/// The payload of a torque request.
pub open spec fn torque_payload(iq_raw: i16) -> Seq<u8> {
    bytes::le_bytes(bytes::twos_complement(iq_raw as int, 2), 2)
}

/// The payload of a speed request.
pub open spec fn speed_payload(centideg_per_s: i32) -> Seq<u8> {
    bytes::le_bytes(bytes::twos_complement(centideg_per_s as int, 4), 4)
}

/// The payload of a multi-turn position request without a speed.
pub open spec fn position_payload(centideg: i64) -> Seq<u8> {
    bytes::le_bytes(bytes::twos_complement(centideg as int, 8), 8)
}

/// The signed number that some bytes spell, low byte first.
pub open spec fn signed_in(s: Seq<u8>) -> int {
    bytes::signed_value(bytes::le_value(s), s.len())
}

/// Every current that is commanded stands in the payload as it is.
pub proof fn law_torque_payload_holds_the_current(iq_raw: i16)
    ensures
        torque_payload(iq_raw).len() == 2,
        signed_in(torque_payload(iq_raw)) == iq_raw,
{
    bytes::lemma_pow256_values();
    bytes::lemma_le_bytes_len(bytes::twos_complement(iq_raw as int, 2), 2);
    bytes::law_signed_value_of_twos_complement(iq_raw as int, 2);
    bytes::law_le_value_of_le_bytes(bytes::twos_complement(iq_raw as int, 2), 2);
}

/// Every speed that is commanded stands in the payload as it is, in either
/// direction.
pub proof fn law_speed_payload_holds_the_speed(centideg_per_s: i32)
    ensures
        speed_payload(centideg_per_s).len() == 4,
        signed_in(speed_payload(centideg_per_s)) == centideg_per_s,
{
    let v = bytes::twos_complement(centideg_per_s as int, 4);
    bytes::lemma_pow256_values();
    bytes::lemma_le_bytes_len(v, 4);
    bytes::law_signed_value_of_twos_complement(centideg_per_s as int, 4);
    bytes::law_le_value_of_le_bytes(v, 4);
}

/// Every position that is commanded stands in the payload as it is, over any
/// number of turns, and with it the speed cap.
pub proof fn law_position_payload_holds_the_position(centideg: i64, max_speed: u32)
    ensures
        position_payload(centideg).len() == 8,
        signed_in(position_payload(centideg)) == centideg,
        position_with_speed_payload(centideg, max_speed).len() == 12,
        signed_in(position_with_speed_payload(centideg, max_speed).take(8)) == centideg,
        bytes::le_value(position_with_speed_payload(centideg, max_speed).skip(8)) == max_speed,
{
    let v = bytes::twos_complement(centideg as int, 8);
    bytes::lemma_pow256_values();
    bytes::lemma_le_bytes_len(v, 8);
    bytes::lemma_le_bytes_len(max_speed as nat, 4);
    bytes::law_signed_value_of_twos_complement(centideg as int, 8);
    bytes::law_le_value_of_le_bytes(v, 8);
    bytes::law_le_value_of_le_bytes(max_speed as nat, 4);
    let all = position_with_speed_payload(centideg, max_speed);
    assert(all.take(8) =~= bytes::le_bytes(v, 8));
    assert(all.skip(8) =~= bytes::le_bytes(max_speed as nat, 4));
}

/// A request for a parameter names that parameter and nothing else.
pub proof fn law_parameter_request_names_the_parameter(p: ControlParamId, i: int)
    requires
        0 < i < 7,
    ensures
        control_param_payload(p).len() == 7,
        control_param_payload(p)[0] == p.code(),
        control_param_payload(p)[i] == 0,
{
}

/// The payload that selects a control parameter: its selector and six zeros.
pub open spec fn control_param_payload(param_id: ControlParamId) -> Seq<u8> {
    seq![param_id.code(), 0, 0, 0, 0, 0, 0]
}

/// Encodes a command without payload.
pub fn encode_simple(command: Command, motor_id: u8, out: &mut [u8]) -> (r: Result<
    usize,
    EncodeError,
>)
    ensures
        encoded(r, command, motor_id, Seq::empty(), old(out)@, final(out)@),
{
    let data: [u8; 0] = [];
    assert(data@ =~= Seq::<u8>::empty());
    encode(command.code(), motor_id, &data, out)
}

/// Power off the motor (`0x80`).
pub fn encode_motor_off(motor_id: u8, out: &mut [u8]) -> (r: Result<usize, EncodeError>)
    ensures
        encoded(r, Command::MotorOff, motor_id, Seq::empty(), old(out)@, final(out)@),
{
    encode_simple(Command::MotorOff, motor_id, out)
}

/// Stop the motor, keeping the run flag (`0x81`).
pub fn encode_motor_stop(motor_id: u8, out: &mut [u8]) -> (r: Result<usize, EncodeError>)
    ensures
        encoded(r, Command::MotorStop, motor_id, Seq::empty(), old(out)@, final(out)@),
{
    encode_simple(Command::MotorStop, motor_id, out)
}

/// Resume motor operation (`0x88`).
pub fn encode_motor_run(motor_id: u8, out: &mut [u8]) -> (r: Result<usize, EncodeError>)
    ensures
        encoded(r, Command::MotorRun, motor_id, Seq::empty(), old(out)@, final(out)@),
{
    encode_simple(Command::MotorRun, motor_id, out)
}

/// Read motor state 1 (`0x9A`).
pub fn encode_read_state1(motor_id: u8, out: &mut [u8]) -> (r: Result<usize, EncodeError>)
    ensures
        encoded(r, Command::ReadMotorState1, motor_id, Seq::empty(), old(out)@, final(out)@),
{
    encode_simple(Command::ReadMotorState1, motor_id, out)
}

/// Read motor state 2 (`0x9C`).
pub fn encode_read_state2(motor_id: u8, out: &mut [u8]) -> (r: Result<usize, EncodeError>)
    ensures
        encoded(r, Command::ReadMotorState2, motor_id, Seq::empty(), old(out)@, final(out)@),
{
    encode_simple(Command::ReadMotorState2, motor_id, out)
}

/// Read motor state 3 (`0x9D`).
pub fn encode_read_state3(motor_id: u8, out: &mut [u8]) -> (r: Result<usize, EncodeError>)
    ensures
        encoded(r, Command::ReadMotorState3, motor_id, Seq::empty(), old(out)@, final(out)@),
{
    encode_simple(Command::ReadMotorState3, motor_id, out)
}

/// Closed-loop torque control (`0xA1`), in raw current units: 2048 is 33 A.
pub fn encode_torque_raw(motor_id: u8, iq_control: i16, out: &mut [u8]) -> (r: Result<
    usize,
    EncodeError,
>)
    ensures
        encoded(
            r,
            Command::TorqueClosedLoop,
            motor_id,
            torque_payload(iq_control),
            old(out)@,
            final(out)@,
        ),
{
    let data: [u8; 2] = bytes::i16_to_le(iq_control);
    encode(Command::TorqueClosedLoop.code(), motor_id, &data, out)
}

/// Closed-loop speed control (`0xA2`), in 0.01 deg/s of the motor shaft.
pub fn encode_speed(motor_id: u8, speed_centideg_per_s: i32, out: &mut [u8]) -> (r: Result<
    usize,
    EncodeError,
>)
    ensures
        encoded(
            r,
            Command::SpeedClosedLoop,
            motor_id,
            speed_payload(speed_centideg_per_s),
            old(out)@,
            final(out)@,
        ),
{
    let data: [u8; 4] = bytes::i32_to_le(speed_centideg_per_s);
    encode(Command::SpeedClosedLoop.code(), motor_id, &data, out)
}

/// Closed-loop multi-turn position (`0xA3`), in 0.01 deg.
pub fn encode_position_multiturn(motor_id: u8, position_centideg: i64, out: &mut [u8]) -> (r:
    Result<usize, EncodeError>)
    ensures
        encoded(
            r,
            Command::PositionClosedLoop1,
            motor_id,
            position_payload(position_centideg),
            old(out)@,
            final(out)@,
        ),
{
    let data: [u8; 8] = bytes::i64_to_le(position_centideg);
    encode(Command::PositionClosedLoop1.code(), motor_id, &data, out)
}

/// The payload of a multi-turn position command with a speed limit.
pub fn position_with_speed_data(position_centideg: i64, max_speed_centideg_per_s: u32) -> (r: [u8;
    12])
    ensures
        r@ == position_with_speed_payload(position_centideg, max_speed_centideg_per_s),
{
    let p: [u8; 8] = bytes::i64_to_le(position_centideg);
    let s: [u8; 4] = bytes::u32_to_le(max_speed_centideg_per_s);
    let r: [u8; 12] = [
        p[0],
        p[1],
        p[2],
        p[3],
        p[4],
        p[5],
        p[6],
        p[7],
        s[0],
        s[1],
        s[2],
        s[3],
    ];
    assert(r@ =~= position_with_speed_payload(position_centideg, max_speed_centideg_per_s));
    r
}

/// Closed-loop multi-turn position with a speed limit (`0xA4`). The limit has no
/// sign: the motor turns whichever way the target lies.
pub fn encode_position_multiturn_with_speed(
    motor_id: u8,
    position_centideg: i64,
    max_speed_centideg_per_s: u32,
    out: &mut [u8],
) -> (r: Result<usize, EncodeError>)
    ensures
        encoded(
            r,
            Command::PositionClosedLoop2,
            motor_id,
            position_with_speed_payload(position_centideg, max_speed_centideg_per_s),
            old(out)@,
            final(out)@,
        ),
{
    let data: [u8; 12] = position_with_speed_data(position_centideg, max_speed_centideg_per_s);
    encode(Command::PositionClosedLoop2.code(), motor_id, &data, out)
}

/// Read the multi-turn angle (`0x92`).
pub fn encode_read_multi_turn_angle(motor_id: u8, out: &mut [u8]) -> (r: Result<
    usize,
    EncodeError,
>)
    ensures
        encoded(r, Command::ReadMultiTurnAngle, motor_id, Seq::empty(), old(out)@, final(out)@),
{
    encode_simple(Command::ReadMultiTurnAngle, motor_id, out)
}

/// The payload that selects a control parameter.
pub fn control_param_data(param_id: ControlParamId) -> (r: [u8; 7])
    ensures
        r@ == control_param_payload(param_id),
{
    let r: [u8; 7] = [param_id.code(), 0, 0, 0, 0, 0, 0];
    assert(r@ =~= control_param_payload(param_id));
    r
}

/// Read a control parameter (`0xC0`).
pub fn encode_read_control_param(motor_id: u8, param_id: ControlParamId, out: &mut [u8]) -> (r:
    Result<usize, EncodeError>)
    ensures
        encoded(
            r,
            Command::ReadControlParam,
            motor_id,
            control_param_payload(param_id),
            old(out)@,
            final(out)@,
        ),
{
    let data: [u8; 7] = control_param_data(param_id);
    encode(Command::ReadControlParam.code(), motor_id, &data, out)
}

/// A request that was encoded can be read back from the buffer: it is the command, the
/// motor and the payload that were asked for, and its length is what was told.
pub proof fn law_encoded_requests_read_back(
    r: Result<usize, EncodeError>,
    command: Command,
    motor_id: u8,
    data: Seq<u8>,
    before: Seq<u8>,
    after: Seq<u8>,
)
    requires
        encoded(r, command, motor_id, data, before, after),
        data.len() <= 255,
        before.len() <= usize::MAX,
    ensures
        r is Ok <==> before.len() >= 5 + (if data.len() == 0 {
            0
        } else {
            data.len() + 1
        }),
        r matches Ok(n) ==> frame::decode_spec(after) == Ok::<
            (frame::FrameView, nat),
            frame::DecodeError,
        >((frame::FrameView { command: command.code(), motor_id, data }, n as nat)),
        r is Err ==> after == before,
{
    let f = frame::FrameView { command: command.code(), motor_id, data };
    frame::law_when_a_frame_is_encoded(f, before);
    frame::law_layout_of_a_frame(f);
    if r is Ok {
        let n = frame::frame_bytes(f).len() as int;
        frame::law_decode_of_frame_bytes(f, before.skip(n));
    }
}

} // verus!
