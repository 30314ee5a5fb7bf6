use misa_actuator::lkmotor::command::{Command, ControlParamId};
use misa_actuator::lkmotor::frame::{
    encode, encoded_size, try_decode, DecodeError, EncodeError, HEADER_SIZE, MAX_DATA, MAX_FRAME,
};
use misa_actuator::lkmotor::request::{
    control_param_data, encode_motor_off, encode_motor_run, encode_motor_stop,
    encode_position_multiturn, encode_position_multiturn_with_speed, encode_read_control_param,
    encode_read_multi_turn_angle, encode_read_state1, encode_read_state2, encode_read_state3,
    encode_simple, encode_speed, encode_torque_raw, position_with_speed_data,
};
use misa_actuator::lkmotor::response::{
    parse_control_param, parse_multi_turn_angle, parse_state1, parse_state2, parse_state2_payload,
    ControlParamValue, MotorState1, MotorState2, ParseError, PidTriple,
};

fn voltage_v(s: &MotorState1) -> f32 {
    s.voltage_centivolt as f32 * 0.01
}

fn current_amps(s: &MotorState2) -> f32 {
    s.iq_raw as f32 * 33.0 / 2048.0
}

fn encoder_fraction(s: &MotorState2) -> f32 {
    s.encoder_raw as f32 / 65536.0
}

/// A current in raw units, as the float layer of the program computes it.
fn raw_current(amps: f32) -> i16 {
    (amps * (2048.0 / 33.0))
        .round()
        .clamp(i16::MIN as f32, i16::MAX as f32) as i16
}

#[test]
fn encoded_size_no_payload() {
    assert_eq!(encoded_size(0), HEADER_SIZE);
}

#[test]
fn encoded_size_with_payload() {
    assert_eq!(encoded_size(8), HEADER_SIZE + 8 + 1);
}

#[test]
fn encode_no_payload() {
    let mut buf = [0u8; MAX_FRAME];
    let n = encode(0x80, 0x01, &[], &mut buf).unwrap();
    assert_eq!(n, HEADER_SIZE);
    assert_eq!(&buf[..n], &[0x3E, 0x80, 0x01, 0x00, 0xBF]);
}

#[test]
fn encode_with_payload() {
    let mut buf = [0u8; MAX_FRAME];
    let data = [0x10, 0x20, 0x30, 0x40];
    let n = encode(0xA2, 0x01, &data, &mut buf).unwrap();
    // Header sum = 0x3E + 0xA2 + 0x01 + 0x04 = 0xE5
    // Data sum   = 0x10 + 0x20 + 0x30 + 0x40 = 0xA0
    assert_eq!(
        &buf[..n],
        &[0x3E, 0xA2, 0x01, 0x04, 0xE5, 0x10, 0x20, 0x30, 0x40, 0xA0]
    );
}

#[test]
fn encode_buffer_too_small() {
    let mut buf = [0u8; 4];
    let err = encode(0x80, 0x01, &[], &mut buf).unwrap_err();
    assert_eq!(
        err,
        EncodeError::BufferTooSmall {
            needed: HEADER_SIZE,
            got: 4
        }
    );
}

#[test]
fn encode_data_too_long() {
    let data = vec![0u8; MAX_DATA + 1];
    let mut buf = vec![7u8; 2 * MAX_FRAME];
    let err = encode(0x80, 0x01, &data, &mut buf).unwrap_err();
    assert_eq!(err, EncodeError::DataTooLong { got: 256 });
    assert!(buf.iter().all(|&b| b == 7));
}

#[test]
fn encode_longest_payload() {
    let data = vec![0xFFu8; MAX_DATA];
    let mut buf = vec![0u8; MAX_FRAME];
    let n = encode(0x10, 0x20, &data, &mut buf).unwrap();
    assert_eq!(n, MAX_FRAME);
    // 255 * 255 = 65025 = 254 * 256 + 1
    assert_eq!(buf[MAX_FRAME - 1], 0x01);
    let (frame, used) = try_decode(&buf).unwrap();
    assert_eq!(used, MAX_FRAME);
    assert_eq!(frame.data, &data[..]);
}

#[test]
fn encode_leaves_the_rest_of_the_buffer() {
    let mut buf = [9u8; 12];
    let n = encode(0x80, 0x01, &[1], &mut buf).unwrap();
    assert_eq!(n, 7);
    assert_eq!(&buf[7..], &[9, 9, 9, 9, 9]);
}

#[test]
fn round_trip_no_payload() {
    let mut buf = [0u8; MAX_FRAME];
    let n = encode(0x9A, 0x05, &[], &mut buf).unwrap();
    let (frame, used) = try_decode(&buf[..n]).unwrap();
    assert_eq!(used, n);
    assert_eq!(frame.command, 0x9A);
    assert_eq!(frame.motor_id, 0x05);
    assert_eq!(frame.data, &[][..]);
}

#[test]
fn round_trip_with_payload() {
    let mut buf = [0u8; MAX_FRAME];
    let data = [0xDE, 0xAD, 0xBE, 0xEF];
    let n = encode(0xA1, 0x02, &data, &mut buf).unwrap();
    let (frame, used) = try_decode(&buf[..n]).unwrap();
    assert_eq!(used, n);
    assert_eq!(frame.command, 0xA1);
    assert_eq!(frame.motor_id, 0x02);
    assert_eq!(frame.data, &data[..]);
}

#[test]
fn decode_need_more_for_header() {
    let err = try_decode(&[0x3E, 0x80]).unwrap_err();
    assert!(matches!(err, DecodeError::NeedMore { .. }));
}

#[test]
fn decode_need_more_for_payload() {
    // header says len=4, but only 2 payload bytes present
    let buf = [0x3E, 0xA2, 0x01, 0x04, 0xE5, 0x10, 0x20];
    let err = try_decode(&buf).unwrap_err();
    assert!(matches!(err, DecodeError::NeedMore { needed: 3 }));
}

#[test]
fn decode_bad_header() {
    let buf = [0x00, 0x80, 0x01, 0x00, 0xBF];
    let err = try_decode(&buf).unwrap_err();
    assert_eq!(err, DecodeError::BadHeader { found: 0x00 });
}

#[test]
fn decode_header_checksum_mismatch() {
    let buf = [0x3E, 0x80, 0x01, 0x00, 0xFF];
    let err = try_decode(&buf).unwrap_err();
    assert_eq!(
        err,
        DecodeError::HeaderChecksum {
            expected: 0xBF,
            found: 0xFF
        }
    );
}

#[test]
fn decode_data_checksum_mismatch() {
    let buf = [0x3E, 0xA2, 0x01, 0x04, 0xE5, 0x10, 0x20, 0x30, 0x40, 0x00];
    let err = try_decode(&buf).unwrap_err();
    assert_eq!(
        err,
        DecodeError::DataChecksum {
            expected: 0xA0,
            found: 0x00
        }
    );
}

#[test]
fn decode_consumes_only_one_frame() {
    let mut buf = [0u8; MAX_FRAME * 2];
    let n1 = encode(0x80, 0x01, &[], &mut buf).unwrap();
    let n2 = encode(0x81, 0x01, &[], &mut buf[n1..]).unwrap();
    let (_, used) = try_decode(&buf[..n1 + n2]).unwrap();
    assert_eq!(used, n1);
    let (frame2, _) = try_decode(&buf[used..n1 + n2]).unwrap();
    assert_eq!(frame2.command, 0x81);
}

#[test]
fn every_single_byte_change_is_noticed() {
    let mut good = [0u8; 10];
    encode(0xA2, 0x01, &[0x10, 0x20, 0x30, 0x40], &mut good).unwrap();
    for i in 0..10 {
        for b in 0..=255u8 {
            if b != good[i] {
                let mut bad = good;
                bad[i] = b;
                assert!(try_decode(&bad).is_err(), "byte {} as {}", i, b);
            }
        }
    }
}

#[test]
fn wanted_bytes_are_what_is_missing() {
    let mut good = [0u8; 10];
    encode(0xA2, 0x01, &[0x10, 0x20, 0x30, 0x40], &mut good).unwrap();
    let mut longer = good.to_vec();
    longer.extend_from_slice(&[1, 2, 3]);
    assert_eq!(try_decode(&longer), try_decode(&good));
    for n in 0..10 {
        let needed = if n < 5 { 5 - n } else { 10 - n };
        assert_eq!(try_decode(&good[..n]).unwrap_err(), DecodeError::NeedMore { needed });
    }
}

#[test]
fn motor_off_round_trip() {
    let mut buf = [0u8; MAX_FRAME];
    let n = encode_motor_off(0x01, &mut buf).unwrap();
    let (frame, _) = try_decode(&buf[..n]).unwrap();
    assert_eq!(frame.command, Command::MotorOff.code());
    assert_eq!(frame.motor_id, 0x01);
    assert_eq!(frame.data, &[][..]);
}

#[test]
fn speed_round_trip() {
    let mut buf = [0u8; MAX_FRAME];
    let n = encode_speed(0x02, -54_321, &mut buf).unwrap();
    let (frame, _) = try_decode(&buf[..n]).unwrap();
    assert_eq!(frame.command, Command::SpeedClosedLoop.code());
    assert_eq!(frame.motor_id, 0x02);
    let recovered = i32::from_le_bytes(frame.data.try_into().unwrap());
    assert_eq!(recovered, -54_321);
}

#[test]
fn position_multiturn_payload_layout() {
    let mut buf = [0u8; MAX_FRAME];
    let n = encode_position_multiturn(0x03, 12345, &mut buf).unwrap();
    let (frame, _) = try_decode(&buf[..n]).unwrap();
    assert_eq!(frame.data.len(), 8);
    assert_eq!(i64::from_le_bytes(frame.data.try_into().unwrap()), 12345);
}

#[test]
fn position_with_speed_payload_layout() {
    let mut buf = [0u8; MAX_FRAME];
    let n = encode_position_multiturn_with_speed(0x03, -100, 36000, &mut buf).unwrap();
    let (frame, _) = try_decode(&buf[..n]).unwrap();
    assert_eq!(frame.data.len(), 12);
    assert_eq!(i64::from_le_bytes(frame.data[0..8].try_into().unwrap()), -100);
    assert_eq!(u32::from_le_bytes(frame.data[8..12].try_into().unwrap()), 36000);
}

#[test]
fn read_control_param_payload() {
    let mut buf = [0u8; MAX_FRAME];
    let n = encode_read_control_param(0x01, ControlParamId::PositionLoopPid, &mut buf).unwrap();
    let (frame, _) = try_decode(&buf[..n]).unwrap();
    assert_eq!(frame.command, Command::ReadControlParam.code());
    assert_eq!(frame.data.len(), 7);
    assert_eq!(frame.data[0], 0x0A);
    assert!(frame.data[1..7].iter().all(|&b| b == 0));
}

#[test]
fn torque_current_clamps() {
    let mut buf = [0u8; MAX_FRAME];
    // Way over the saturation limit — should clamp to i16::MAX
    let n = encode_torque_raw(0x01, raw_current(1_000.0), &mut buf).unwrap();
    let (frame, _) = try_decode(&buf[..n]).unwrap();
    let raw = i16::from_le_bytes(frame.data.try_into().unwrap());
    assert_eq!(raw, i16::MAX);
}

#[test]
fn simple_requests_carry_their_command() {
    let mut buf = [0u8; MAX_FRAME];
    assert_eq!(encode_motor_stop(1, &mut buf), Ok(5));
    assert_eq!(&buf[..5], &[0x3E, 0x81, 0x01, 0x00, 0xC0]);
    assert_eq!(encode_motor_run(1, &mut buf), Ok(5));
    assert_eq!(buf[1], 0x88);
    assert_eq!(encode_read_state1(1, &mut buf), Ok(5));
    assert_eq!(buf[1], 0x9A);
    assert_eq!(encode_read_state2(1, &mut buf), Ok(5));
    assert_eq!(buf[1], 0x9C);
    assert_eq!(encode_read_state3(1, &mut buf), Ok(5));
    assert_eq!(buf[1], 0x9D);
    assert_eq!(encode_read_multi_turn_angle(1, &mut buf), Ok(5));
    assert_eq!(buf[1], 0x92);
    assert_eq!(encode_simple(Command::MotorOff, 32, &mut buf), Ok(5));
    assert_eq!(&buf[..5], &[0x3E, 0x80, 0x20, 0x00, 0xDE]);
    assert_eq!(u8::from(Command::MotorOff), 0x80);
}

#[test]
fn request_payloads_by_themselves() {
    assert_eq!(
        position_with_speed_data(-2, 0x0102_0304),
        [0xFE, 0xFF, 0xFF, 0xFF, 0xFF, 0xFF, 0xFF, 0xFF, 0x04, 0x03, 0x02, 0x01]
    );
    assert_eq!(control_param_data(ControlParamId::SpeedLimit), [0x20, 0, 0, 0, 0, 0, 0]);
    assert_eq!(ControlParamId::SpeedLimit.code(), 0x20);
}

#[test]
fn state1_parses() {
    // temp=25°C, voltage=24.00V (2400 = 0x0960), error=0x07
    let payload = [25, 0x60, 0x09, 0, 0, 0, 0x07];
    let s = parse_state1(Command::ReadMotorState1.code(), &payload).unwrap();
    assert_eq!(s.temperature_c, 25);
    assert_eq!(s.voltage_centivolt, 2400);
    assert!((voltage_v(&s) - 24.0).abs() < 1e-3);
    assert_eq!(s.error_state, 0x07);
}

#[test]
fn state1_temperature_is_signed() {
    let payload = [0xF6, 0, 0, 0, 0, 0, 0];
    assert_eq!(parse_state1(0x9A, &payload).unwrap().temperature_c, -10);
}

#[test]
fn state2_parses() {
    // temp=30, iq=1024 (≈16.5A), speed=-360 deg/s, encoder=8192
    let mut payload = [0u8; 7];
    payload[0] = 30;
    payload[1..3].copy_from_slice(&1024i16.to_le_bytes());
    payload[3..5].copy_from_slice(&(-360i16).to_le_bytes());
    payload[5..7].copy_from_slice(&8192u16.to_le_bytes());

    let s = parse_state2(Command::ReadMotorState2.code(), &payload).unwrap();
    assert_eq!(s.temperature_c, 30);
    assert_eq!(s.iq_raw, 1024);
    assert!((current_amps(&s) - 16.5).abs() < 0.05);
    assert_eq!(s.speed_deg_per_s, -360);
    assert_eq!(s.encoder_raw, 8192);
    assert!((encoder_fraction(&s) - 8192.0 / 65536.0).abs() < 1e-4);
    assert_eq!(parse_state2_payload(&payload), Ok(s));
}

#[test]
fn state2_command_mismatch() {
    let payload = [0u8; 7];
    let err = parse_state2(0x9A, &payload).unwrap_err();
    assert!(matches!(err, ParseError::CommandMismatch { .. }));
}

#[test]
fn state2_too_short() {
    let err = parse_state2(0x9C, &[0u8; 4]).unwrap_err();
    assert_eq!(err, ParseError::TooShort { expected: 7, got: 4 });
}

#[test]
fn control_param_pid_parses() {
    // paramID=0x0A, kp=100 (0x0064), ki=20 (0x0014), kd=5 (0x0005)
    let payload = [0x0A, 0x64, 0x00, 0x14, 0x00, 0x05, 0x00];
    let v = parse_control_param(
        Command::ReadControlParam.code(),
        &payload,
        ControlParamId::PositionLoopPid,
    )
    .unwrap();
    assert_eq!(
        v,
        ControlParamValue::Pid(PidTriple {
            kp: 100,
            ki: 20,
            kd: 5,
        })
    );
}

#[test]
fn control_param_speed_limit_parses() {
    // paramID=0x20, value=360000 = 0x57E40 (0x40, 0x7E, 0x05, 0x00)
    let payload = [0x20, 0x00, 0x00, 0x40, 0x7E, 0x05, 0x00];
    let v = parse_control_param(
        Command::ReadControlParam.code(),
        &payload,
        ControlParamId::SpeedLimit,
    )
    .unwrap();
    assert_eq!(v, ControlParamValue::SpeedLimit(360_000));
}

#[test]
fn control_param_id_mismatch() {
    let payload = [0x0B, 0, 0, 0, 0, 0, 0];
    let err = parse_control_param(
        Command::ReadControlParam.code(),
        &payload,
        ControlParamId::PositionLoopPid,
    )
    .unwrap_err();
    assert!(matches!(err, ParseError::ParamIdMismatch { .. }));
}

#[test]
fn multi_turn_angle_reads_back() {
    let mut buf = [0u8; MAX_FRAME];
    for angle in [0i64, 1, -1, i64::MAX, i64::MIN, 36_000, -12_345_678_901] {
        let n = encode(0x92, 1, &angle.to_le_bytes(), &mut buf).unwrap();
        let (frame, _) = try_decode(&buf[..n]).unwrap();
        assert_eq!(parse_multi_turn_angle(frame.command, frame.data), Ok(angle));
    }
    assert_eq!(
        parse_multi_turn_angle(0x92, &[0; 7]),
        Err(ParseError::TooShort { expected: 8, got: 7 })
    );
    assert_eq!(
        parse_multi_turn_angle(0x93, &[0; 8]),
        Err(ParseError::CommandMismatch { expected: 0x92, found: 0x93 })
    );
}
