use std::cell::Cell;
use std::collections::VecDeque;

use misa_actuator::canbus::FrameId;
use misa_actuator::damiao::actuator;
use misa_actuator::damiao::bus::{
    decode_std, encode_classic, encode_fd, received, std_id, CanFrame, DamiaoBus, SocketEvent,
};
use misa_actuator::damiao::driver::{DamiaoMotor, DEFAULT_TIMEOUT_NS};
use misa_actuator::damiao::error::Error;
use misa_actuator::damiao::feedback::ErrorCode;
use misa_actuator::damiao::frame::{build_mit_frame, MitCodes};
use misa_actuator::damiao::limits::MotorModel;
use misa_actuator::damiao::register::{ControlMode, Rid};
use misa_actuator::damiao::scan::{probe_one, scan_bus_on};
use misa_actuator::error;
use misa_actuator::feedback::RunMode;
use misa_actuator::progress::ScanProgress;

/// In-memory [`DamiaoBus`] that records every transmitted frame and replays a
/// queue of canned replies, so the driver's wire behaviour can be tested without
/// hardware.
#[derive(Default)]
struct MockBus {
    sent: Vec<CanFrame>,
    replies: VecDeque<CanFrame>,
}

impl MockBus {
    fn push_reply(&mut self, can_id: u16, data: [u8; 8]) {
        self.replies.push_back(CanFrame { can_id, data: data.to_vec() });
    }
}

impl DamiaoBus for MockBus {
    fn send(&mut self, can_id: u16, data: &[u8]) -> Result<(), Error> {
        self.sent.push(CanFrame { can_id, data: data.to_vec() });
        Ok(())
    }

    fn recv(&mut self) -> Result<CanFrame, Error> {
        self.replies.pop_front().ok_or(Error::Timeout { motor_id: 0 })
    }

    fn set_timeout(&mut self, _timeout_ns: u64) -> Result<(), Error> {
        Ok(())
    }
}

/// The 16-bit code of a position of a DM4310 in radians.
fn position_code(pos: f32) -> u16 {
    ((pos.clamp(-12.5, 12.5) + 12.5) / 25.0 * 65535.0) as u16
}

fn position_rad(code: u16) -> f32 {
    code as f32 / 65535.0 * 25.0 - 12.5
}

/// Build a feedback payload (master-id frame) the mock can replay, encoding
/// `pos` (rad) in the position field.
fn feedback_at(id: u8, err_nibble: u8, pos: f32) -> [u8; 8] {
    let codes = MitCodes::new(position_code(pos), 0x7FF, 0, 0, 0x7FF).unwrap();
    let (_, mit) = build_mit_frame(id, &codes);
    [
        (err_nibble << 4) | (id & 0x0F),
        mit[0], // pos high
        mit[1], // pos low
        mit[2], // vel high
        mit[3], // vel/torque packed
        mit[7], // torque low
        40,     // T_MOS
        50,     // T_Rotor
    ]
}

/// Feedback at the origin.
fn feedback_payload(id: u8, err_nibble: u8) -> [u8; 8] {
    feedback_at(id, err_nibble, 0.0)
}

fn motor() -> DamiaoMotor<MockBus> {
    DamiaoMotor::with_bus(MockBus::default(), 1, MotorModel::Dm4310)
}

fn enabled_motor() -> DamiaoMotor<MockBus> {
    let mut m = motor();
    m.bus().push_reply(0x00, feedback_payload(1, 0x1));
    m.enable().unwrap();
    m
}

#[test]
fn enable_then_mit_sends_expected_frames_and_parses_feedback() {
    let mut motor = motor();

    // enable() may consume one feedback reply; provide one.
    motor.bus().push_reply(0x00, feedback_payload(1, 0x1));
    let _ = motor.enable().unwrap();

    // MIT control: queue a feedback reply on the master id (0).
    motor.bus().push_reply(0x00, feedback_payload(1, 0x1));
    let fb = motor.mit_control(&MitCodes::idle()).unwrap();
    assert_eq!(fb.motor_id, 1);
    assert_eq!(fb.t_mos as f32, 40.0);
    assert_eq!(fb.t_rotor as f32, 50.0);

    // The enable frame and a MIT frame should both have gone out on CAN_ID=1.
    let sent = &motor.bus().sent;
    assert_eq!(sent[0].can_id, 0x001);
    assert_eq!(sent[0].data, vec![0xFF, 0xFF, 0xFF, 0xFF, 0xFF, 0xFF, 0xFF, 0xFC]);
    assert_eq!(sent[1].can_id, 0x001); // MIT command id == CAN_ID
}

#[test]
fn mit_control_requires_enable() {
    let mut motor = motor();
    let err = motor.mit_control(&MitCodes::idle()).unwrap_err();
    assert!(matches!(err, Error::NotEnabled { motor_id: 1 }));
    assert!(motor.bus().sent.is_empty());
}

#[test]
fn soft_zero_offsets_commands_and_feedback() {
    let mut motor = enabled_motor();

    // Pretend the motor is physically at +1.0 rad and re-zero there.
    motor.set_soft_zero(1.0f32.to_bits());
    motor.bus().push_reply(0x00, feedback_at(1, 0x1, 1.0)); // raw pos = 1.0
    let fb = motor.mit_control(&MitCodes::idle()).unwrap();
    // Reported position is raw - soft_zero = 0.
    let reported = position_rad(fb.position) - f32::from_bits(motor.soft_zero());
    assert!(reported.abs() < 0.05, "reported {}", reported);
}

#[test]
fn set_zero_takes_the_measured_position() {
    let mut motor = enabled_motor();
    motor.set_soft_zero(2.0f32.to_bits());
    motor.bus().push_reply(0x00, feedback_at(1, 0x1, 1.0));
    let zero = |code: u16, old: u32| {
        let old = f32::from_bits(old);
        (old + (position_rad(code) - old)).to_bits()
    };
    motor.set_zero(&|fb, old| zero(fb.position, old)).unwrap();
    assert!((f32::from_bits(motor.soft_zero()) - 1.0).abs() < 0.01);
    // Without feedback the old zero stays.
    motor.set_timeout(1_000_000).unwrap();
    let kept = motor.soft_zero();
    assert!(actuator::set_zero(&mut motor, &|_, _| 7).is_err());
    assert_eq!(motor.soft_zero(), kept);
}

#[test]
fn set_zero_nvm_sends_magic_frame_and_clears_soft_zero() {
    let mut motor = motor();
    motor.set_soft_zero(2.0f32.to_bits());
    motor.bus().push_reply(0x00, feedback_payload(1, 0x0)); // try_recv_feedback
    motor.set_zero_nvm().unwrap();
    assert_eq!(f32::from_bits(motor.soft_zero()), 0.0);
    let last = motor.bus().sent.last().unwrap();
    assert_eq!(last.can_id, 0x001);
    assert_eq!(last.data, vec![0xFF, 0xFF, 0xFF, 0xFF, 0xFF, 0xFF, 0xFF, 0xFE]);
}

#[test]
fn switch_mode_writes_ctrl_mode_register_and_verifies() {
    let mut motor = motor();
    // The motor replies on its Master ID (0x000 by default), NOT on 0x7FF.
    // write_register_int drains the write echo; read_register matches the
    // read reply by content (rid=10, value=PosVel(2)).
    motor.bus().push_reply(0x000, [0x01, 0x00, 0x55, Rid::CTRL_MODE, 0x02, 0, 0, 0]); // write echo
    motor.bus().push_reply(0x000, [0x01, 0x00, 0x33, Rid::CTRL_MODE, 0x02, 0, 0, 0]); // read reply
    motor.switch_mode(ControlMode::PosVel).unwrap();
    assert_eq!(motor.mode(), ControlMode::PosVel);
    assert!(motor.is_mode_answered());

    // The first 0x7FF frame sent must be a CTRL_MODE(=10) write of value 2.
    let write = motor
        .bus()
        .sent
        .iter()
        .find(|f| f.can_id == 0x7FF && f.data[2] == 0x55)
        .expect("a register write was sent");
    assert_eq!(write.data[3], Rid::CTRL_MODE);
    assert_eq!(write.data[4], 0x02);
}

#[test]
fn a_confirmed_mode_is_not_written_again() {
    let mut m = motor();
    m.bus().push_reply(0x000, [0x01, 0x00, 0x55, Rid::CTRL_MODE, 0x02, 0, 0, 0]);
    m.bus().push_reply(0x000, [0x01, 0x00, 0x33, Rid::CTRL_MODE, 0x02, 0, 0, 0]);
    m.switch_mode(ControlMode::PosVel).unwrap();
    let n = m.bus().sent.len();
    m.switch_mode(ControlMode::PosVel).unwrap();
    assert_eq!(m.bus().sent.len(), n);
}

#[test]
fn a_motor_that_answers_no_read_is_believed() {
    let mut m = motor();
    m.set_timeout(100_000).unwrap();
    m.switch_mode(ControlMode::Vel).unwrap();
    assert_eq!(m.mode(), ControlMode::Vel);
    assert!(!m.is_mode_answered());
    assert_eq!(m.bus().sent.len(), 40);
}

#[test]
fn a_motor_that_stays_in_its_mode_fails_the_switch() {
    let mut m = motor();
    m.set_timeout(1).unwrap();
    for _ in 0..20 {
        m.bus().push_reply(0x000, [0x01, 0x00, 0x55, Rid::CTRL_MODE, 0x03, 0, 0, 0]);
        m.bus().push_reply(0x000, [0x01, 0x00, 0x33, Rid::CTRL_MODE, 0x01, 0, 0, 0]);
    }
    m.set_timeout(DEFAULT_TIMEOUT_NS).unwrap();
    let err = m.switch_mode(ControlMode::Vel).unwrap_err();
    assert!(matches!(
        err,
        Error::ModeSwitchFailed { motor_id: 1, requested: 3, actual: 1 }
    ));
    assert_eq!(m.mode(), ControlMode::Mit);
    assert_eq!(m.bus().sent.len(), 40);
}

#[test]
fn feedback_of_others_is_passed_over() {
    let mut m = DamiaoMotor::with_bus_and_master(MockBus::default(), 1, 0x11, MotorModel::Dm4310);
    m.bus().push_reply(0x12, feedback_payload(1, 0x1));
    m.bus().push_reply(0x11, feedback_payload(2, 0x1));
    m.bus().push_reply(0x11, feedback_payload(1, 0x8));
    let fb = m.enable().unwrap().unwrap();
    assert_eq!(fb.err, ErrorCode::OverVoltage);
    assert!(m.bus().replies.is_empty());
    assert!(m.is_enabled());
}

#[test]
fn no_feedback_is_no_failure_of_enable() {
    let mut m = motor();
    m.set_timeout(1_000_000).unwrap();
    assert!(m.enable().unwrap().is_none());
    assert!(m.is_enabled());
    let err = m.measure().unwrap_err();
    assert!(matches!(err, Error::Timeout { motor_id: 1 }));
    assert_eq!(err.message(), error_text_of_timeout());
}

fn error_text_of_timeout() -> String {
    Error::Timeout { motor_id: 1 }.message()
}

#[test]
fn measure_repeats_the_last_command() {
    let mut m = enabled_motor();
    let codes = MitCodes::new(1, 2, 3, 4, 5).unwrap();
    m.bus().push_reply(0x00, feedback_payload(1, 0x1));
    m.mit_control(&codes).unwrap();
    m.bus().push_reply(0x00, feedback_payload(1, 0x1));
    m.measure().unwrap();
    let sent = &m.bus().sent;
    assert_eq!(sent[1].data, sent[2].data);
    assert_eq!(sent[2].data, build_mit_frame(1, &codes).1.to_vec());
}

#[test]
fn register_values_are_written_and_read() {
    let mut m = motor();
    m.bus().push_reply(0x000, [0x01, 0x00, 0x33, 21, 0x00, 0x00, 0x48, 0x41]);
    let reply = m.read_register(Rid::PMAX).unwrap();
    assert_eq!(f32::from_bits(reply.as_f32_bits()), 12.5);
    m.bus().push_reply(0x000, [0x01, 0x00, 0x55, 8, 2, 0, 0, 0]);
    m.write_register_int(Rid::ESC_ID, 2).unwrap();
    assert_eq!(m.bus().sent[1].data, vec![1, 0, 0x55, 8, 2, 0, 0, 0]);
    let waited = Cell::new(0);
    m.save_to_flash(|| waited.set(waited.get() + 1)).unwrap();
    assert_eq!(waited.get(), 1);
    assert_eq!(m.bus().sent.last().unwrap().data, vec![1, 0, 0xAA, 1, 0, 0, 0, 0]);
}

#[test]
fn scan_finds_the_motors_that_answer() {
    struct Motors {
        ids: Vec<u8>,
        sent: Vec<(u16, u8)>,
        pending: VecDeque<CanFrame>,
    }
    impl DamiaoBus for Motors {
        fn send(&mut self, can_id: u16, data: &[u8]) -> Result<(), Error> {
            self.sent.push((can_id, data[7]));
            if data[7] == 0xFC && self.ids.contains(&(can_id as u8)) {
                self.pending.push_back(CanFrame {
                    can_id: 0,
                    data: feedback_payload(can_id as u8, 1).to_vec(),
                });
            }
            Ok(())
        }
        fn recv(&mut self) -> Result<CanFrame, Error> {
            self.pending.pop_front().ok_or(Error::Timeout { motor_id: 0 })
        }
        fn set_timeout(&mut self, _timeout_ns: u64) -> Result<(), Error> {
            Ok(())
        }
    }
    let mut bus = Motors { ids: vec![3, 5], sent: Vec::new(), pending: VecDeque::new() };
    /// Keeps the reports, each with how many frames had been sent.
    struct Told {
        calls: Vec<(usize, usize, u8, usize)>,
    }
    impl ScanProgress<Motors> for Told {
        fn report(&mut self, bus: &Motors, index: usize, total: usize, motor_id: u8) {
            self.calls.push((index, total, motor_id, bus.sent.len()));
        }
    }
    let mut progress = Told { calls: Vec::new() };
    let gaps = Cell::new(0);
    let found = scan_bus_on(
        &mut bus,
        2,
        6,
        1_000_000_000,
        &mut progress,
        &|| gaps.set(gaps.get() + 1),
    )
    .unwrap();
    assert_eq!(found, vec![3, 5]);
    // One report just before each probe, and no other.
    assert_eq!(
        progress.calls,
        vec![(0, 5, 2, 0), (1, 5, 3, 2), (2, 5, 4, 4), (3, 5, 5, 6), (4, 5, 6, 8)]
    );
    assert_eq!(gaps.get(), 5);
    // Each probe enables and disables.
    assert_eq!(bus.sent.len(), 10);
    for i in 0..5u16 {
        assert_eq!(bus.sent[2 * i as usize], (2 + i, 0xFC));
        assert_eq!(bus.sent[2 * i as usize + 1], (2 + i, 0xFD));
    }
    assert!(probe_one(&mut bus, 5, 1_000_000_000, &|| ()).unwrap());
    assert!(!probe_one(&mut bus, 6, 1_000_000_000, &|| ()).unwrap());
}

#[test]
fn a_probe_disables_also_where_enabling_failed() {
    struct Flaky {
        sent: Vec<(u16, u8)>,
    }
    impl DamiaoBus for Flaky {
        fn send(&mut self, can_id: u16, data: &[u8]) -> Result<(), Error> {
            self.sent.push((can_id, data[7]));
            if data[7] == 0xFC {
                Err(Error::CanSocket("busy".to_string()))
            } else {
                Ok(())
            }
        }
        fn recv(&mut self) -> Result<CanFrame, Error> {
            panic!("nothing to listen for")
        }
        fn set_timeout(&mut self, _timeout_ns: u64) -> Result<(), Error> {
            Ok(())
        }
    }
    let mut bus = Flaky { sent: Vec::new() };
    let gaps = Cell::new(0);
    let gap = || gaps.set(gaps.get() + 1);
    assert!(!probe_one(&mut bus, 9, 1_000_000, &gap).unwrap());
    assert_eq!(bus.sent, vec![(9, 0xFC), (9, 0xFD)]);
    assert_eq!(gaps.get(), 1);
}

#[test]
fn torque_is_commanded_without_gains() {
    let mut m = enabled_motor();
    m.bus().push_reply(0x00, feedback_payload(1, 0x1));
    let codes = MitCodes::new(0x1234, 0x111, 0x222, 0x333, 0xABC).unwrap();
    actuator::set_torque(&mut m, &codes).unwrap();
    let wanted = MitCodes::new(0x1234, 0x7FF, 0, 0, 0xABC).unwrap();
    assert_eq!(m.bus().sent[1].data, build_mit_frame(1, &wanted).1.to_vec());
}

#[test]
fn commands_in_the_wrong_mode_send_nothing() {
    let mut m = enabled_motor();
    let n = m.bus().sent.len();
    let err = actuator::set_velocity(&mut m, 0).unwrap_err();
    assert!(matches!(err, error::Error::Other(_)));
    assert_eq!(m.bus().sent.len(), n);
    assert_eq!(actuator::current_run_mode_hint(&m), Some(RunMode::Mit));
    assert!(actuator::require_mode(ControlMode::Vel, ControlMode::Vel, "x").is_ok());
}

#[test]
fn status_codes_map_to_common_flags() {
    let f = actuator::dm_err_to_misa(ErrorCode::MosOverTemp);
    assert!(f.driver_overheat() && !f.motor_overheat());
    assert_eq!(f.raw(), 0xB);
    assert!(!actuator::dm_err_to_misa(ErrorCode::Enabled).any());
    assert_eq!(actuator::dm_err_to_misa(ErrorCode::Enabled).raw(), 1);
    assert!(actuator::dm_err_to_misa(ErrorCode::Overload).stall());
}

#[test]
fn frames_are_checked_before_they_are_sent() {
    assert_eq!(std_id(0x7FF).unwrap(), 0x7FF);
    assert!(matches!(std_id(0x800), Err(Error::InvalidFrame("CAN ID exceeds 11 bits"))));
    let f = encode_classic(0x101, &[1, 2, 3]).unwrap();
    assert_eq!((f.can_id, f.data), (0x101, vec![1, 2, 3]));
    assert!(matches!(
        encode_classic(0x101, &[0; 9]),
        Err(Error::InvalidFrame("payload too long for classic CAN frame"))
    ));
    // The longer frame is filled up to the next length that there is.
    let f = encode_fd(0x101, &[7; 9]).unwrap();
    assert_eq!(f.data.len(), 12);
    assert_eq!(&f.data[..9], &[7; 9]);
    assert_eq!(&f.data[9..], &[0, 0, 0]);
    assert_eq!(encode_fd(0x101, &[7; 8]).unwrap().data.len(), 8);
    assert_eq!(encode_fd(0x101, &[7; 33]).unwrap().data.len(), 48);
    assert_eq!(encode_fd(0x101, &[7; 64]).unwrap().data.len(), 64);
    assert!(matches!(encode_fd(0x101, &[0; 65]), Err(Error::InvalidFrame(_))));
    assert!(matches!(encode_fd(0x800, &[0; 1]), Err(Error::InvalidFrame(_))));
}

#[test]
fn reads_become_frames() {
    let f = decode_std(FrameId::Standard(0x11), &[1]).unwrap();
    assert_eq!((f.can_id, f.data), (0x11, vec![1]));
    assert!(decode_std(FrameId::Extended(0x11), &[1]).is_none());
    assert!(received(SocketEvent::NoData).is_none());
    assert!(received(SocketEvent::Frame(FrameId::Extended(1), &[])).is_none());
    assert!(matches!(
        received(SocketEvent::Quiet),
        Some(Err(Error::Timeout { motor_id: 0 }))
    ));
    match received(SocketEvent::Failed("down".to_string())) {
        Some(Err(Error::CanSocket(s))) => assert_eq!(s, "down"),
        _ => panic!("no failure"),
    }
}
