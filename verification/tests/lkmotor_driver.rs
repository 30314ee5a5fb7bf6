use std::collections::VecDeque;
use std::f32::consts::TAU;

use misa_actuator::error;
use misa_actuator::feedback;
use misa_actuator::lkmotor::bus::{parse_state2_from_response, LkBus, LkCommands, Response};
use misa_actuator::lkmotor::command::ControlParamId;
use misa_actuator::lkmotor::driver::{Rs485Driver, RxAction, RxEvent};
use misa_actuator::lkmotor::error::Error;
use misa_actuator::lkmotor::frame::{DecodeError, EncodeError};
use misa_actuator::lkmotor::lk_motor::{
    joint_speed_cap, lk_to_misa_error, LkMotor, PositionAnchor,
};
use misa_actuator::lkmotor::motor::{ErrorFlags, Motor, MotorFeedback};
use misa_actuator::lkmotor::motor_id::MotorId;
use misa_actuator::lkmotor::response::{
    ControlParamValue, MotorState2, ParseError, PidTriple, ENCODER_PERIOD,
};

fn id(n: u8) -> MotorId {
    MotorId::new(n).unwrap()
}

/// The output position in radians, as the float layer of the program computes it.
fn position_rad(fb: &MotorFeedback, gear: f32) -> f32 {
    let counts = fb.turns * ENCODER_PERIOD as i64 + fb.raw_offset as i64;
    counts as f32 / ENCODER_PERIOD as f32 * TAU / gear
}

fn velocity_rad_per_s(fb: &MotorFeedback, gear: f32) -> f32 {
    (fb.speed_deg_per_s as f32).to_radians() / gear
}

fn current_a(fb: &MotorFeedback) -> f32 {
    fb.iq_raw as f32 * 33.0 / 2048.0
}

fn state2(encoder_raw: u16) -> MotorState2 {
    MotorState2 { temperature_c: 25, iq_raw: 0, speed_deg_per_s: 0, encoder_raw }
}

fn state2_data(temp: i8, iq: i16, speed: i16, encoder: u16) -> Vec<u8> {
    let mut data = vec![temp as u8];
    data.extend_from_slice(&iq.to_le_bytes());
    data.extend_from_slice(&speed.to_le_bytes());
    data.extend_from_slice(&encoder.to_le_bytes());
    data
}

/// Answers requests with what was queued, and keeps what was asked.
struct MockBus {
    asked: Vec<(u8, u8, Vec<u8>)>,
    answers: VecDeque<Result<Vec<u8>, Error>>,
}

impl MockBus {
    fn new() -> Self {
        MockBus { asked: Vec::new(), answers: VecDeque::new() }
    }

    fn answer(&mut self, data: Vec<u8>) {
        self.answers.push_back(Ok(data));
    }
}

impl LkBus for MockBus {
    fn transact(&mut self, command: u8, motor_id: MotorId, data: &[u8]) -> Result<Response, Error> {
        self.asked.push((command, motor_id.get(), data.to_vec()));
        match self.answers.pop_front() {
            Some(Ok(data)) => Ok(Response { command, motor_id: motor_id.get(), data }),
            Some(Err(e)) => Err(e),
            None => Err(Error::Timeout { motor_id: motor_id.get() }),
        }
    }

    fn flush_rx(&mut self) -> Result<(), Error> {
        Ok(())
    }
}

#[test]
fn feedback_zero_velocity_for_zero_speed() {
    // Lightweight: construct a Motor, feed it a synthetic State2.
    let mut m = Motor::new(id(1));
    m.raw_origin = 0;
    m.prev_raw = Some(0);
    let s = MotorState2 { temperature_c: 25, iq_raw: 0, speed_deg_per_s: 0, encoder_raw: 0 };
    let fb = m.feedback_from_state2(s);
    assert_eq!(position_rad(&fb, 10.0), 0.0);
    assert_eq!(velocity_rad_per_s(&fb, 10.0), 0.0);
    assert_eq!(current_a(&fb), 0.0);
}

#[test]
fn feedback_quarter_motor_turn_is_quarter_of_2pi_over_gear() {
    let mut m = Motor::new(id(1));
    m.raw_origin = 0;
    m.prev_raw = Some(0);
    let quarter = (ENCODER_PERIOD / 4) as u16;
    let s = MotorState2 {
        temperature_c: 0,
        iq_raw: 0,
        speed_deg_per_s: 0,
        encoder_raw: quarter,
    };
    let fb = m.feedback_from_state2(s);
    // 1/4 motor rev = TAU/4 motor rad = TAU/4 / 10 output rad
    let expected = TAU / 4.0 / 10.0;
    assert!((position_rad(&fb, 10.0) - expected).abs() < 1e-4);
}

#[test]
fn feedback_motor_speed_to_output_velocity() {
    // 360 deg/s motor with 1:10 gearbox = 36 deg/s output
    // = 36 * π/180 rad/s ≈ 0.6283 rad/s
    let mut m = Motor::new(id(1));
    m.raw_origin = 0;
    m.prev_raw = Some(0);
    let s = MotorState2 { temperature_c: 0, iq_raw: 0, speed_deg_per_s: 360, encoder_raw: 0 };
    let fb = m.feedback_from_state2(s);
    assert!((velocity_rad_per_s(&fb, 10.0) - (36.0_f32).to_radians()).abs() < 1e-4);
}

#[test]
fn position_not_anchored_error() {
    let mut m = Motor::new(id(1));
    assert!(m.motor_zero_centideg.is_none());
    let mut bus = MockBus::new();
    let err = m.set_position(&mut bus, 100, 200).unwrap_err();
    assert!(matches!(err, Error::PositionNotAnchored { motor_id: 1 }));
    assert!(bus.asked.is_empty());
}

#[test]
fn error_flags_individual_bits() {
    assert!(ErrorFlags(0x01).under_voltage());
    assert!(ErrorFlags(0x02).over_voltage());
    assert!(ErrorFlags(0x04).driver_overheat());
    assert!(ErrorFlags(0x08).motor_overheat());
    assert!(ErrorFlags(0x10).over_current());
    assert!(ErrorFlags(0x20).motor_short());
    assert!(ErrorFlags(0x40).stalled());
    assert!(ErrorFlags(0x80).signal_timeout());

    let none = ErrorFlags(0x00);
    assert!(!none.any());
    assert!(!none.under_voltage());
    assert!(!none.signal_timeout());

    let multi = ErrorFlags(0x42);
    assert!(multi.over_voltage());
    assert!(multi.stalled());
    assert!(!multi.under_voltage());
    assert_eq!(multi.raw(), 0x42);
    assert!(multi.any());
}

#[test]
fn lk_flags_map_to_common_flags() {
    let f = lk_to_misa_error(ErrorFlags(0x42));
    assert!(f.over_voltage() && f.stall());
    assert!(!f.under_voltage() && !f.over_current() && !f.signal_timeout());
    assert_eq!(f.bits(), feedback::ErrorFlags::OVER_VOLTAGE | feedback::ErrorFlags::STALL);
    assert_eq!(f.raw(), 0x42);
    let all = lk_to_misa_error(ErrorFlags(0xFF));
    assert!(all.under_voltage() && all.driver_overheat() && all.motor_overheat());
    assert!(all.over_current() && all.motor_short() && all.signal_timeout());
    assert!(!all.encoder_fault() && !all.uncalibrated());
    assert!(!lk_to_misa_error(ErrorFlags(0)).any());
}

#[test]
fn motor_ids_are_1_to_32() {
    assert!(MotorId::new(0).is_none());
    assert!(MotorId::new(33).is_none());
    assert_eq!(id(1).get(), 1);
    assert_eq!(u8::from(id(32)), 32);
    let err = MotorId::try_from_u8(40).unwrap_err();
    assert_eq!(err.message(), "invalid motor id 40 (must be 1..=32)");
}

#[test]
fn tracker_counts_turns_both_ways() {
    let mut m = Motor::new(id(1));
    m.raw_origin = 0;
    m.prev_raw = Some(0);
    let mut raw: u16 = 0;
    for step in 1..=20i64 {
        raw = raw.wrapping_add(20_000);
        let fb = m.feedback_from_state2(state2(raw));
        assert_eq!(fb.turns * 65_536 + fb.raw_offset as i64, 20_000 * step);
    }
    for step in 1..=40i64 {
        raw = raw.wrapping_sub(20_000);
        let fb = m.feedback_from_state2(state2(raw));
        assert_eq!(fb.turns * 65_536 + fb.raw_offset as i64, 20_000 * (20 - step));
    }
}

#[test]
fn rezero_anchors_and_reads_zero() {
    let mut m = Motor::new(id(2));
    let mut bus = MockBus::new();
    bus.answer(state2_data(30, 0, 0, 40_000));
    bus.answer(123_456i64.to_le_bytes().to_vec());
    m.rezero(&mut bus).unwrap();
    assert_eq!(m.motor_zero_centideg, Some(123_456));
    assert_eq!(m.turns(), 0);
    let asked: Vec<u8> = bus.asked.iter().map(|a| a.0).collect();
    assert_eq!(asked, vec![0x9C, 0x92]);
    bus.answer(state2_data(30, 0, 0, 40_000));
    let fb = m.measure(&mut bus).unwrap();
    assert_eq!((fb.turns, fb.raw_offset), (0, 0));
}

#[test]
fn position_command_is_absolute_with_a_least_speed() {
    let mut m = Motor::new(id(2));
    m.motor_zero_centideg = Some(1_000);
    let mut bus = MockBus::new();
    bus.answer(state2_data(31, 512, -5, 100));
    let fb = m.set_position(&mut bus, -300, 7).unwrap();
    assert_eq!(fb.temperature_c, 31);
    assert_eq!(fb.iq_raw, 512);
    assert_eq!(fb.speed_deg_per_s, -5);
    let (command, motor, data) = &bus.asked[0];
    assert_eq!((*command, *motor), (0xA4, 2));
    assert_eq!(&data[..8], &700i64.to_le_bytes());
    assert_eq!(&data[8..], &100u32.to_le_bytes());
}

#[test]
fn commands_send_their_values() {
    let mut bus = MockBus::new();
    bus.answer(state2_data(0, 0, 0, 0));
    bus.answer(state2_data(0, 0, 0, 0));
    bus.answer(vec![0x20, 0, 0, 0x40, 0x7E, 0x05, 0]);
    bus.answer(vec![0x0A, 1, 0, 2, 0, 3, 0]);
    bus.torque_control(id(3), -2).unwrap();
    bus.speed_control(id(3), 100_000).unwrap();
    assert_eq!(bus.asked[0], (0xA1, 3, vec![0xFE, 0xFF]));
    assert_eq!(bus.asked[1], (0xA2, 3, vec![0xA0, 0x86, 0x01, 0x00]));
    assert_eq!(
        bus.read_control_param(id(3), ControlParamId::SpeedLimit).unwrap(),
        ControlParamValue::SpeedLimit(360_000)
    );
    assert_eq!(bus.read_position_pid(id(3)).unwrap(), PidTriple { kp: 1, ki: 2, kd: 3 });
    let err = bus.read_state1(id(3)).unwrap_err();
    assert_eq!(err.message(), "timeout waiting for response from motor 3");
}

#[test]
fn a_response_of_any_command_holds_state2() {
    let resp = Response { command: 0xA2, motor_id: 1, data: state2_data(-3, 7, 8, 9) };
    assert_eq!(
        parse_state2_from_response(&resp).unwrap(),
        MotorState2 { temperature_c: -3, iq_raw: 7, speed_deg_per_s: 8, encoder_raw: 9 }
    );
}

#[test]
fn joint_control_answers_the_measurement() {
    let mut m = Motor::new(id(3));
    let mut bus = MockBus::new();
    bus.answer(state2_data(20, 0, 50, 300));
    bus.answer(state2_data(21, -150, 40, 290));
    let fb = m.mit_control(&mut bus, &|fb| -(fb.raw_offset as i16) / 2).unwrap();
    assert_eq!(bus.asked[0], (0x9C, 3, vec![]));
    assert_eq!(bus.asked[1], (0xA1, 3, (-150i16).to_le_bytes().to_vec()));
    assert_eq!((fb.iq_raw, fb.temperature_c, fb.raw_offset), (-150, 21, 290));
    // Where the measurement fails, nothing is commanded.
    let err = m.mit_control(&mut bus, &|_| 0).unwrap_err();
    assert!(matches!(err, Error::Timeout { motor_id: 3 }));
    assert_eq!(bus.asked.len(), 3);
}

#[test]
fn enable_runs_anchors_and_holds() {
    let mut motor = LkMotor::new(MockBus::new(), id(4));
    motor.bus().answer(vec![]);
    motor.bus().answer(state2_data(20, 0, 0, 77));
    motor.bus().answer(5_000i64.to_le_bytes().to_vec());
    motor.bus().answer(state2_data(20, 0, 0, 77));
    let fb = motor.enable(36_000).unwrap();
    assert_eq!((fb.turns, fb.raw_offset), (0, 0));
    assert!(motor.is_enabled_hint());
    let last = motor.bus().asked.last().unwrap().clone();
    assert_eq!(last.0, 0xA4);
    // The target is where the motor is.
    assert_eq!(&last.2[..8], &5_000i64.to_le_bytes());
    assert_eq!(motor.bus().asked[0].0, 0x88);
}

#[test]
fn a_joint_command_is_a_position_command() {
    let limit = |bits: u32| (f32::from_bits(bits) * 1_000.0) as u32;
    for (vel, speed) in [(0.0f32, 1_000u32), (-0.0, 1_000), (0.5, 500), (-2.0, 2_000)] {
        let mut motor = LkMotor::new(MockBus::new(), id(4));
        motor.bus().answer(state2_data(20, 0, 0, 77));
        motor.bus().answer(5_000i64.to_le_bytes().to_vec());
        motor.set_zero().unwrap();
        for gain in [0.0f32, 30.0] {
            motor.bus().asked.clear();
            motor.bus().answer(state2_data(20, 0, 0, 77));
            motor
                .mit_control(
                    25,
                    vel.to_bits(),
                    gain.to_bits(),
                    gain.to_bits(),
                    gain.to_bits(),
                    &limit,
                )
                .unwrap();
            let mut data = 5_025i64.to_le_bytes().to_vec();
            data.extend_from_slice(&speed.to_le_bytes());
            assert_eq!(motor.bus().asked, vec![(0xA4, 4, data)]);
        }
    }
    assert_eq!(joint_speed_cap(0), 1.0f32.to_bits());
    assert_eq!(joint_speed_cap((-0.25f32).to_bits()), 0.25f32.to_bits());
}

#[test]
fn manual_anchor_is_demanded() {
    let mut motor =
        LkMotor::new(MockBus::new(), id(4)).with_position_anchor(PositionAnchor::Manual);
    let err = motor.set_position(10, 1_000).unwrap_err();
    assert!(matches!(err, error::Error::PositionNotAnchored { motor_id: 4 }));
    assert!(motor.bus().asked.is_empty());
}

#[test]
fn first_use_sets_the_anchor() {
    let mut motor =
        LkMotor::new(MockBus::new(), id(4)).with_position_anchor(PositionAnchor::OnFirstUse);
    motor.bus().answer(state2_data(20, 0, 0, 5));
    motor.bus().answer(9_000i64.to_le_bytes().to_vec());
    motor.bus().answer(state2_data(20, 0, 0, 5));
    motor.set_position(10, 1_000).unwrap();
    let last = motor.bus().asked.last().unwrap().clone();
    assert_eq!(&last.2[..8], &9_010i64.to_le_bytes());
    assert_eq!(motor.motor().motor_zero_centideg, Some(9_000));
}

fn frame(command: u8, motor: u8, data: &[u8]) -> Vec<u8> {
    Rs485Driver::new().send_raw(command, id(motor), data).unwrap()
}

#[test]
fn requests_are_framed() {
    assert_eq!(frame(0x80, 1, &[]), vec![0x3E, 0x80, 0x01, 0x00, 0xBF]);
    let long = vec![0u8; 256];
    let err = Rs485Driver::new().send_raw(0x80, id(1), &long).unwrap_err();
    assert!(matches!(err, Error::Encode(EncodeError::DataTooLong { got: 256 })));
    assert_eq!(err.message(), "encode: DataTooLong { got: 256 }");
}

#[test]
fn response_comes_in_pieces_after_noise() {
    let mut driver = Rs485Driver::new();
    let mut stream = vec![0x00, 0xFF];
    stream.extend(frame(0x9C, 2, &[9, 9]));
    let wanted = frame(0x9A, 1, &[1, 2, 3]);
    stream.extend(&wanted);
    stream.push(0x3E);
    assert!(matches!(driver.recv_for(id(1), RxEvent::Start), RxAction::Read));
    let last = stream.len() - 2;
    for (i, b) in stream[..last].iter().enumerate() {
        let piece = [*b];
        assert!(
            matches!(driver.recv_for(id(1), RxEvent::Bytes(&piece)), RxAction::Read),
            "byte {}",
            i
        );
    }
    match driver.recv_for(id(1), RxEvent::Bytes(&stream[last..])) {
        RxAction::Done(Ok(resp)) => {
            assert_eq!((resp.command, resp.motor_id), (0x9A, 1));
            assert_eq!(resp.data, vec![1, 2, 3]);
        }
        _ => panic!("no response"),
    }
    assert_eq!(driver.take_dropped(), vec![(0x9C, 2)]);
    assert!(driver.take_dropped().is_empty());
    // What follows the response stays for the next call.
    let rest = frame(0x80, 1, &[]);
    match driver.recv_for(id(1), RxEvent::Bytes(&rest[1..])) {
        RxAction::Done(Ok(resp)) => assert_eq!(resp.command, 0x80),
        _ => panic!("no second response"),
    }
}

#[test]
fn receiving_ends_with_errors() {
    let mut driver = Rs485Driver::new();
    assert!(matches!(driver.recv_for(id(7), RxEvent::Quiet), RxAction::Read));
    match driver.recv_for(id(7), RxEvent::Expired) {
        RxAction::Done(Err(Error::Timeout { motor_id: 7 })) => {}
        _ => panic!("no timeout"),
    }
    match driver.recv_for(id(7), RxEvent::Failed("gone".to_string())) {
        RxAction::Done(Err(e)) => assert_eq!(e.message(), "io: gone"),
        _ => panic!("no failure"),
    }
    match driver.recv_for(id(7), RxEvent::Bytes(&[0x3E, 0x80, 0x07, 0x00, 0x00])) {
        RxAction::Done(Err(Error::Decode(DecodeError::HeaderChecksum { .. }))) => {}
        _ => panic!("no checksum error"),
    }
}

#[test]
fn error_messages() {
    assert_eq!(Error::SerialPort("x".to_string()).message(), "serial port: x");
    assert_eq!(
        Error::Decode(DecodeError::BadHeader { found: 16 }).message(),
        "decode: BadHeader { found: 16 }"
    );
    assert_eq!(
        Error::Parse(ParseError::TooShort { expected: 7, got: 4 }).message(),
        "parse: TooShort { expected: 7, got: 4 }"
    );
    assert_eq!(
        Error::UnexpectedResponse { command: 0x9C, motor_id: 2, expected_motor_id: 1 }.message(),
        "unexpected response: command=0x9C motor_id=2 (expected motor 1)"
    );
    assert_eq!(
        Error::PositionNotAnchored { motor_id: 3 }.message(),
        "Motor::set_position called before rezero() — absolute zero anchor not set for motor 3"
    );
    let common = error::Error::from(Error::Timeout { motor_id: 5 });
    assert!(matches!(common, error::Error::Timeout { motor_id: 5 }));
}
