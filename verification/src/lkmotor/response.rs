//! Response payloads.
use crate::bytes;
use crate::lkmotor::command::{Command, ControlParamId};
use vstd::prelude::*;

verus! {

/// Why a response could not be read.
#[derive(Debug, Clone, Copy, PartialEq, Eq, Structural)]
pub enum ParseError {
    /// The payload is shorter than its layout demands.
    TooShort { expected: usize, got: usize },
    /// The command byte is not the one that the response should carry.
    CommandMismatch { expected: u8, found: u8 },
    /// The response carries another parameter than the one asked for.
    ParamIdMismatch { expected: u8, found: u8 },
}

/// Motor state 1, from `temp | voltage (2) | reserved (3) | error`.
#[derive(Debug, Clone, Copy, PartialEq, Eq, Structural)]
pub struct MotorState1 {
    /// Motor temperature, deg C.
    pub temperature_c: i8,
    /// Bus voltage, 0.01 V.
    pub voltage_centivolt: u16,
    /// Error flags.
    pub error_state: u8,
}

/// The single-turn encoder reading wraps at this value.
pub const ENCODER_PERIOD: u32 = 65_536;

/// Motor state 2, from `temp | iq (2) | speed (2) | encoder (2)`.
#[derive(Debug, Clone, Copy, PartialEq, Eq, Structural)]
pub struct MotorState2 {
    /// Motor temperature, deg C.
    pub temperature_c: i8,
    /// Torque current in raw units: 2048 is 33 A.
    pub iq_raw: i16,
    /// Speed of the motor shaft, deg/s.
    pub speed_deg_per_s: i16,
    /// Single-turn encoder position of the motor shaft.
    pub encoder_raw: u16,
}

/// The three gains of a control loop, in raw units.
#[derive(Debug, Clone, Copy, PartialEq, Eq, Structural)]
pub struct PidTriple {
    pub kp: u16,
    pub ki: u16,
    pub kd: u16,
}

impl Default for PidTriple {
    fn default() -> (r: Self)
        ensures
            r == (PidTriple { kp: 0, ki: 0, kd: 0 }),
    {
        PidTriple { kp: 0, ki: 0, kd: 0 }
    }
}

/// The value of a control parameter.
#[derive(Debug, Clone, Copy, PartialEq, Eq, Structural)]
pub enum ControlParamValue {
    /// Gains of one of the three loops.
    Pid(PidTriple),
    /// Torque (current) limit, raw.
    TorqueLimit(i16),
    /// Speed limit, 0.01 deg/s.
    SpeedLimit(i32),
    /// Angle limit, 0.01 deg.
    AngleLimit(i32),
    /// Current ramp.
    CurrentRamp(i32),
    /// Speed ramp, 1 dps/s.
    SpeedRamp(i32),
}

/// The unsigned number in `n` bytes of `s` from `at` on, little-endian.
pub open spec fn field(s: Seq<u8>, at: int, n: int) -> nat {
    bytes::le_value(s.subrange(at, at + n))
}

/// The signed number in `n` bytes of `s` from `at` on, little-endian.
pub open spec fn signed_field(s: Seq<u8>, at: int, n: int) -> int {
    bytes::signed_value(field(s, at, n), n as nat)
}

/// Whether a payload can hold what it should, given the command it came with:
/// the command is looked at first, then the length.
pub open spec fn envelope_error(expected: Command, command: u8, len: nat, expected_len: nat) -> Option<
    ParseError,
> {
    if command != expected.code() {
        Some(ParseError::CommandMismatch { expected: expected.code(), found: command })
    } else if len < expected_len {
        Some(ParseError::TooShort { expected: expected_len as usize, got: len as usize })
    } else {
        None
    }
}

/// The state in a state-1 payload.
pub open spec fn state1_of(data: Seq<u8>) -> MotorState1 {
    MotorState1 {
        temperature_c: signed_field(data, 0, 1) as i8,
        voltage_centivolt: field(data, 1, 2) as u16,
        error_state: data[6],
    }
}

/// The state in a state-2 payload.
pub open spec fn state2_of(data: Seq<u8>) -> MotorState2 {
    MotorState2 {
        temperature_c: signed_field(data, 0, 1) as i8,
        iq_raw: signed_field(data, 1, 2) as i16,
        speed_deg_per_s: signed_field(data, 3, 2) as i16,
        encoder_raw: field(data, 5, 2) as u16,
    }
}

/// The value in a control parameter payload. Gains start right behind the
/// selector; the single values stand two bytes further.
pub open spec fn control_param_of(data: Seq<u8>, param: ControlParamId) -> ControlParamValue {
    match param {
        ControlParamId::PositionLoopPid
        | ControlParamId::SpeedLoopPid
        | ControlParamId::CurrentLoopPid => ControlParamValue::Pid(
            PidTriple {
                kp: field(data, 1, 2) as u16,
                ki: field(data, 3, 2) as u16,
                kd: field(data, 5, 2) as u16,
            },
        ),
        ControlParamId::TorqueLimit => ControlParamValue::TorqueLimit(
            signed_field(data, 3, 2) as i16,
        ),
        ControlParamId::SpeedLimit => ControlParamValue::SpeedLimit(
            signed_field(data, 3, 4) as i32,
        ),
        ControlParamId::AngleLimit => ControlParamValue::AngleLimit(
            signed_field(data, 3, 4) as i32,
        ),
        ControlParamId::CurrentRamp => ControlParamValue::CurrentRamp(
            signed_field(data, 3, 4) as i32,
        ),
        ControlParamId::SpeedRamp => ControlParamValue::SpeedRamp(signed_field(data, 3, 4) as i32),
    }
}

/// What [`parse_state1`] returns.
pub open spec fn parse_state1_result(command: u8, data: Seq<u8>) -> Result<
    MotorState1,
    ParseError,
> {
    match envelope_error(Command::ReadMotorState1, command, data.len(), 7) {
        Some(e) => Err(e),
        None => Ok(state1_of(data)),
    }
}

/// What [`parse_state2_payload`] returns.
pub open spec fn parse_state2_payload_result(data: Seq<u8>) -> Result<MotorState2, ParseError> {
    if data.len() < 7 {
        Err(ParseError::TooShort { expected: 7, got: data.len() as usize })
    } else {
        Ok(state2_of(data))
    }
}

/// What [`parse_state2`] returns.
pub open spec fn parse_state2_result(command: u8, data: Seq<u8>) -> Result<
    MotorState2,
    ParseError,
> {
    match envelope_error(Command::ReadMotorState2, command, data.len(), 7) {
        Some(e) => Err(e),
        None => Ok(state2_of(data)),
    }
}

/// What [`parse_multi_turn_angle`] returns.
pub open spec fn parse_multi_turn_angle_result(command: u8, data: Seq<u8>) -> Result<
    i64,
    ParseError,
> {
    match envelope_error(Command::ReadMultiTurnAngle, command, data.len(), 8) {
        Some(e) => Err(e),
        None => Ok(signed_field(data, 0, 8) as i64),
    }
}

/// What [`parse_control_param`] returns.
pub open spec fn parse_control_param_result(
    command: u8,
    data: Seq<u8>,
    expected: ControlParamId,
) -> Result<ControlParamValue, ParseError> {
    match envelope_error(Command::ReadControlParam, command, data.len(), 7) {
        Some(e) => Err(e),
        None => if data[0] != expected.code() {
            Err(ParseError::ParamIdMismatch { expected: expected.code(), found: data[0] })
        } else {
            Ok(control_param_of(data, expected))
        },
    }
}

/// The bytes of `v`, as a field at `at` in `s`, read back as `v`.
pub proof fn law_field_of_le_bytes(s: Seq<u8>, at: int, n: nat, v: nat)
    requires
        0 <= at,
        at + n <= s.len(),
        v < bytes::pow256(n),
        s.subrange(at, at + n) == bytes::le_bytes(v, n),
    ensures
        field(s, at, n as int) == v,
{
    bytes::law_le_value_of_le_bytes(v, n);
}

/// A state-1 payload as a motor sends it.
pub open spec fn state1_payload(s: MotorState1, reserved: Seq<u8>) -> Seq<u8> {
    bytes::le_bytes(bytes::twos_complement(s.temperature_c as int, 1), 1) + bytes::le_bytes(
        s.voltage_centivolt as nat,
        2,
    ) + reserved + seq![s.error_state]
}

/// A state-2 payload as a motor sends it.
pub open spec fn state2_payload(s: MotorState2) -> Seq<u8> {
    bytes::le_bytes(bytes::twos_complement(s.temperature_c as int, 1), 1) + bytes::le_bytes(
        bytes::twos_complement(s.iq_raw as int, 2),
        2,
    ) + bytes::le_bytes(bytes::twos_complement(s.speed_deg_per_s as int, 2), 2) + bytes::le_bytes(
        s.encoder_raw as nat,
        2,
    )
}

/// Every state-1 payload that a motor can send is read as the state it spells.
pub proof fn law_state1_round_trip(s: MotorState1, reserved: Seq<u8>)
    requires
        reserved.len() == 3,
    ensures
        parse_state1_result(Command::ReadMotorState1.code(), state1_payload(s, reserved)) == Ok::<
            MotorState1,
            ParseError,
        >(s),
{
    let data = state1_payload(s, reserved);
    bytes::lemma_pow256_values();
    let t = bytes::twos_complement(s.temperature_c as int, 1);
    bytes::lemma_le_bytes_len(t, 1);
    bytes::lemma_le_bytes_len(s.voltage_centivolt as nat, 2);
    bytes::law_signed_value_of_twos_complement(s.temperature_c as int, 1);
    assert(data.subrange(0, 1) =~= bytes::le_bytes(t, 1));
    assert(data.subrange(1, 3) =~= bytes::le_bytes(s.voltage_centivolt as nat, 2));
    law_field_of_le_bytes(data, 0, 1, t);
    law_field_of_le_bytes(data, 1, 2, s.voltage_centivolt as nat);
}

/// Every state-2 payload that a motor can send is read as the state it spells.
pub proof fn law_state2_round_trip(s: MotorState2)
    ensures
        parse_state2_payload_result(state2_payload(s)) == Ok::<MotorState2, ParseError>(s),
        parse_state2_result(Command::ReadMotorState2.code(), state2_payload(s)) == Ok::<
            MotorState2,
            ParseError,
        >(s),
{
    let data = state2_payload(s);
    bytes::lemma_pow256_values();
    let t = bytes::twos_complement(s.temperature_c as int, 1);
    let iq = bytes::twos_complement(s.iq_raw as int, 2);
    let sp = bytes::twos_complement(s.speed_deg_per_s as int, 2);
    bytes::lemma_le_bytes_len(t, 1);
    bytes::lemma_le_bytes_len(iq, 2);
    bytes::lemma_le_bytes_len(sp, 2);
    bytes::lemma_le_bytes_len(s.encoder_raw as nat, 2);
    bytes::law_signed_value_of_twos_complement(s.temperature_c as int, 1);
    bytes::law_signed_value_of_twos_complement(s.iq_raw as int, 2);
    bytes::law_signed_value_of_twos_complement(s.speed_deg_per_s as int, 2);
    assert(data.subrange(0, 1) =~= bytes::le_bytes(t, 1));
    assert(data.subrange(1, 3) =~= bytes::le_bytes(iq, 2));
    assert(data.subrange(3, 5) =~= bytes::le_bytes(sp, 2));
    assert(data.subrange(5, 7) =~= bytes::le_bytes(s.encoder_raw as nat, 2));
    law_field_of_le_bytes(data, 0, 1, t);
    law_field_of_le_bytes(data, 1, 2, iq);
    law_field_of_le_bytes(data, 3, 2, sp);
    law_field_of_le_bytes(data, 5, 2, s.encoder_raw as nat);
}

/// Every multi-turn angle that a motor can send is read as it was sent.
pub proof fn law_multi_turn_angle_round_trip(angle: i64)
    ensures
        parse_multi_turn_angle_result(
            Command::ReadMultiTurnAngle.code(),
            bytes::le_bytes(bytes::twos_complement(angle as int, 8), 8),
        ) == Ok::<i64, ParseError>(angle),
{
    let u = bytes::twos_complement(angle as int, 8);
    let data = bytes::le_bytes(u, 8);
    bytes::lemma_pow256_values();
    bytes::lemma_le_bytes_len(u, 8);
    bytes::law_signed_value_of_twos_complement(angle as int, 8);
    assert(data.subrange(0, 8) =~= data);
    law_field_of_le_bytes(data, 0, 8, u);
}

/// A response is read if and only if it answers the command that it is read as and
/// has all its bytes; and, for a parameter, if it is about that parameter.
pub proof fn law_which_responses_are_read(command: u8, data: Seq<u8>, p: ControlParamId)
    ensures
        parse_state1_result(command, data) is Ok <==> command == 0x9A && data.len() >= 7,
        parse_state2_result(command, data) is Ok <==> command == 0x9C && data.len() >= 7,
        parse_state2_payload_result(data) is Ok <==> data.len() >= 7,
        parse_multi_turn_angle_result(command, data) is Ok <==> command == 0x92 && data.len() >= 8,
        parse_control_param_result(command, data, p) is Ok <==> command == 0xC0 && data.len() >= 7
            && data[0] == p.code(),
        command != 0x9A ==> parse_state1_result(command, data) == Err::<MotorState1, ParseError>(
            ParseError::CommandMismatch { expected: 0x9A, found: command },
        ),
        command == 0x9A && data.len() < 7 ==> parse_state1_result(command, data) == Err::<
            MotorState1,
            ParseError,
        >(ParseError::TooShort { expected: 7, got: data.len() as usize }),
        data.len() < 7 ==> parse_state2_payload_result(data) == Err::<MotorState2, ParseError>(
            ParseError::TooShort { expected: 7, got: data.len() as usize },
        ),
        command != 0x9C ==> parse_state2_result(command, data) == Err::<MotorState2, ParseError>(
            ParseError::CommandMismatch { expected: 0x9C, found: command },
        ),
        command == 0x9C ==> parse_state2_result(command, data) == parse_state2_payload_result(data),
        command != 0x92 ==> parse_multi_turn_angle_result(command, data) == Err::<i64, ParseError>(
            ParseError::CommandMismatch { expected: 0x92, found: command },
        ),
        command == 0x92 && data.len() < 8 ==> parse_multi_turn_angle_result(command, data) == Err::<
            i64,
            ParseError,
        >(ParseError::TooShort { expected: 8, got: data.len() as usize }),
        command == 0xC0 && data.len() >= 7 && data[0] != p.code() ==> parse_control_param_result(
            command,
            data,
            p,
        ) == Err::<ControlParamValue, ParseError>(
            ParseError::ParamIdMismatch { expected: p.code(), found: data[0] },
        ),
{
}

/// The value of a parameter is what its answer spells: three gains one after the
/// other, low byte first, or one signed number behind the number of the parameter.
pub proof fn law_parameter_value_is_the_answer(data: Seq<u8>, p: ControlParamId)
    requires
        data.len() >= 7,
        data[0] == p.code(),
    ensures
        ({
            let r = parse_control_param_result(0xC0, data, p);
            let gains = p == ControlParamId::PositionLoopPid || p == ControlParamId::SpeedLoopPid
                || p == ControlParamId::CurrentLoopPid;
            let wide = bytes::signed_value(
                (data[3] + 0x100 * data[4] + 0x1_0000 * data[5] + 0x100_0000 * data[6]) as nat,
                4,
            );
            match r {
                Ok(ControlParamValue::Pid(g)) => gains && g.kp == data[1] + 0x100 * data[2] && g.ki
                    == data[3] + 0x100 * data[4] && g.kd == data[5] + 0x100 * data[6],
                Ok(ControlParamValue::TorqueLimit(v)) => p == ControlParamId::TorqueLimit && v
                    == bytes::signed_value((data[3] + 0x100 * data[4]) as nat, 2),
                Ok(ControlParamValue::SpeedLimit(v)) => p == ControlParamId::SpeedLimit && v == wide,
                Ok(ControlParamValue::AngleLimit(v)) => p == ControlParamId::AngleLimit && v == wide,
                Ok(ControlParamValue::CurrentRamp(v)) => p == ControlParamId::CurrentRamp && v
                    == wide,
                Ok(ControlParamValue::SpeedRamp(v)) => p == ControlParamId::SpeedRamp && v == wide,
                Err(_) => false,
            }
        }),
{
    bytes::lemma_pow256_values();
    bytes::law_value_of_two_bytes(data.subrange(1, 3));
    bytes::law_value_of_two_bytes(data.subrange(3, 5));
    bytes::law_value_of_two_bytes(data.subrange(5, 7));
    bytes::law_value_of_four_bytes(data.subrange(3, 7));
}

/// The `i8` whose two's complement pattern is `b`.
fn i8_from_byte(b: u8) -> (r: i8)
    ensures
        r == bytes::signed_value(b as nat, 1),
{
    proof {
        bytes::lemma_pow256_values();
    }
    if b >= 0x80 {
        (b as i16 - 0x100) as i8
    } else {
        b as i8
    }
}

/// A one-byte field is the byte.
proof fn lemma_field_1(s: Seq<u8>, at: int)
    requires
        0 <= at < s.len(),
    ensures
        field(s, at, 1) == s[at],
{
    reveal_with_fuel(bytes::le_value, 2);
}

/// A two-byte field, byte by byte.
proof fn lemma_field_2(s: Seq<u8>, at: int)
    requires
        0 <= at,
        at + 2 <= s.len(),
    ensures
        field(s, at, 2) == bytes::le_value(seq![s[at], s[at + 1]]),
{
    assert(s.subrange(at, at + 2) =~= seq![s[at], s[at + 1]]);
}

/// A four-byte field, byte by byte.
proof fn lemma_field_4(s: Seq<u8>, at: int)
    requires
        0 <= at,
        at + 4 <= s.len(),
    ensures
        field(s, at, 4) == bytes::le_value(seq![s[at], s[at + 1], s[at + 2], s[at + 3]]),
{
    assert(s.subrange(at, at + 4) =~= seq![s[at], s[at + 1], s[at + 2], s[at + 3]]);
}

/// Checks the command byte.
fn expect_cmd(expected: Command, found: u8) -> (r: Result<(), ParseError>)
    ensures
        r == (if expected.code() == found {
            Ok(())
        } else {
            Err(ParseError::CommandMismatch { expected: expected.code(), found })
        }),
{
    if expected.code() == found {
        Ok(())
    } else {
        Err(ParseError::CommandMismatch { expected: expected.code(), found })
    }
}

/// Checks that at least `expected` bytes are there.
fn expect_len(data: &[u8], expected: usize) -> (r: Result<(), ParseError>)
    ensures
        r == (if data.len() >= expected {
            Ok(())
        } else {
            Err(ParseError::TooShort { expected, got: data.len() })
        }),
{
    if data.len() >= expected {
        Ok(())
    } else {
        Err(ParseError::TooShort { expected, got: data.len() })
    }
}

/// Reads the payload of a `ReadMotorState1` (`0x9A`) response.
pub fn parse_state1(command: u8, data: &[u8]) -> (r: Result<MotorState1, ParseError>)
    ensures
        r == parse_state1_result(command, data@),
{
    expect_cmd(Command::ReadMotorState1, command)?;
    expect_len(data, 7)?;
    proof {
        lemma_field_1(data@, 0);
        lemma_field_2(data@, 1);
    }
    Ok(
        MotorState1 {
            temperature_c: i8_from_byte(data[0]),
            voltage_centivolt: bytes::u16_from_le(data[1], data[2]),
            error_state: data[6],
        },
    )
}

/// Reads a state-2 payload, whatever command it came with: every motion command
/// is answered with one.
pub fn parse_state2_payload(data: &[u8]) -> (r: Result<MotorState2, ParseError>)
    ensures
        r == parse_state2_payload_result(data@),
{
    expect_len(data, 7)?;
    proof {
        lemma_field_1(data@, 0);
        lemma_field_2(data@, 1);
        lemma_field_2(data@, 3);
        lemma_field_2(data@, 5);
    }
    Ok(
        MotorState2 {
            temperature_c: i8_from_byte(data[0]),
            iq_raw: bytes::i16_from_le(data[1], data[2]),
            speed_deg_per_s: bytes::i16_from_le(data[3], data[4]),
            encoder_raw: bytes::u16_from_le(data[5], data[6]),
        },
    )
}

/// Reads the payload of a `ReadMotorState2` (`0x9C`) response.
pub fn parse_state2(command: u8, data: &[u8]) -> (r: Result<MotorState2, ParseError>)
    ensures
        r == parse_state2_result(command, data@),
{
    expect_cmd(Command::ReadMotorState2, command)?;
    parse_state2_payload(data)
}

/// Reads the payload of a `ReadMultiTurnAngle` (`0x92`) response: the angle of
/// the motor shaft in 0.01 deg.
pub fn parse_multi_turn_angle(command: u8, data: &[u8]) -> (r: Result<i64, ParseError>)
    ensures
        r == parse_multi_turn_angle_result(command, data@),
{
    expect_cmd(Command::ReadMultiTurnAngle, command)?;
    expect_len(data, 8)?;
    proof {
        assert(data@.subrange(0, 8) =~= data@.take(8));
    }
    Ok(bytes::i64_from_le(data))
}

/// Reads the payload of a `ReadControlParam` (`0xC0`) response to a request for
/// the parameter `expected`.
pub fn parse_control_param(command: u8, data: &[u8], expected: ControlParamId) -> (r: Result<
    ControlParamValue,
    ParseError,
>)
    ensures
        r == parse_control_param_result(command, data@, expected),
{
    expect_cmd(Command::ReadControlParam, command)?;
    expect_len(data, 7)?;
    if data[0] != expected.code() {
        return Err(ParseError::ParamIdMismatch { expected: expected.code(), found: data[0] });
    }
    proof {
        lemma_field_2(data@, 1);
        lemma_field_2(data@, 3);
        lemma_field_2(data@, 5);
        lemma_field_4(data@, 3);
    }
    Ok(
        match expected {
            ControlParamId::PositionLoopPid
            | ControlParamId::SpeedLoopPid
            | ControlParamId::CurrentLoopPid => ControlParamValue::Pid(
                PidTriple {
                    kp: bytes::u16_from_le(data[1], data[2]),
                    ki: bytes::u16_from_le(data[3], data[4]),
                    kd: bytes::u16_from_le(data[5], data[6]),
                },
            ),
            ControlParamId::TorqueLimit => ControlParamValue::TorqueLimit(
                bytes::i16_from_le(data[3], data[4]),
            ),
            ControlParamId::SpeedLimit => ControlParamValue::SpeedLimit(
                bytes::i32_from_le(data[3], data[4], data[5], data[6]),
            ),
            ControlParamId::AngleLimit => ControlParamValue::AngleLimit(
                bytes::i32_from_le(data[3], data[4], data[5], data[6]),
            ),
            ControlParamId::CurrentRamp => ControlParamValue::CurrentRamp(
                bytes::i32_from_le(data[3], data[4], data[5], data[6]),
            ),
            ControlParamId::SpeedRamp => ControlParamValue::SpeedRamp(
                bytes::i32_from_le(data[3], data[4], data[5], data[6]),
            ),
        },
    )
}

} // verus!
