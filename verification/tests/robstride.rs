use std::cell::RefCell;
use std::collections::VecDeque;

use misa_actuator::canbus::FrameId;
use misa_actuator::error;
use misa_actuator::feedback;
use misa_actuator::progress::{Quiet, ScanProgress};
use misa_actuator::robstride::actuator;
use misa_actuator::robstride::bus::{
    encode_extended, received, CanFrame, RobstrideBus, SocketEvent,
};
use misa_actuator::robstride::codec::{
    Codec, Feedback, FollowUp, FrameKind, IdParts, MitBits, Param, Request, RunMode, StatusBits,
};
use misa_actuator::robstride::driver::Motor;
use misa_actuator::robstride::error::Error;
use misa_actuator::robstride::scan::{dump_bus, judge, scan_bus_on, Verdict};

const STATUS: u8 = 2;
const VALUE: u8 = 17;
const FAULT: u8 = 21;

/// A frame layout made up for these tests: the id holds type, data field and
/// device, the first data byte of a request its kind.
struct Plain {
    paused: RefCell<Vec<u64>>,
}

fn plain() -> Plain {
    Plain { paused: RefCell::new(Vec::new()) }
}

fn id_of(comm_type: u8, extra: u16, device_id: u8) -> u32 {
    ((comm_type as u32) << 24) | ((extra as u32) << 8) | device_id as u32
}

fn number(param: Param) -> u16 {
    match param {
        Param::LocRef => 0x7016,
        Param::LimitSpd => 0x7017,
        Param::LimitTorque => 0x700B,
        Param::LimitCur => 0x7018,
        Param::SpdRef => 0x700A,
        Param::IqRef => 0x7006,
        Param::MechPos => 0x7019,
        Param::MechVel => 0x701B,
        Param::IqFilt => 0x701A,
        Param::Vbus => 0x701C,
        Param::MeasuredTorque => 0x701D,
    }
}

fn with_value(kind: u8, number: u16, value: u32) -> [u8; 8] {
    let v = value.to_le_bytes();
    let n = number.to_le_bytes();
    [kind, n[0], n[1], v[0], v[1], v[2], v[3], 0]
}

impl Codec for Plain {
    fn ping(&self, host_id: u8, motor_id: u8) -> (u32, [u8; 8]) {
        (id_of(0, host_id as u16, motor_id), [0; 8])
    }

    fn encode(&self, host_id: u8, motor_id: u8, request: Request) -> (u32, [u8; 8]) {
        let data = match request {
            Request::Enable => [b'E', 0, 0, 0, 0, 0, 0, 0],
            Request::Disable => [b'D', 0, 0, 0, 0, 0, 0, 0],
            Request::SetZero => [b'Z', 0, 0, 0, 0, 0, 0, 0],
            Request::SetRunMode(m) => [b'M', m as u8, 0, 0, 0, 0, 0, 0],
            Request::Mit(bits) => with_value(b'T', 0, bits.position),
            Request::Read(p) => with_value(b'R', number(p), 0),
            Request::Write(p, v) => with_value(b'W', number(p), v),
        };
        (id_of(1, host_id as u16, motor_id), data)
    }

    fn split(&self, can_id: u32) -> IdParts {
        let comm_type = (can_id >> 24) as u8;
        IdParts {
            comm_type,
            kind: match comm_type {
                STATUS => FrameKind::OperationStatus,
                FAULT => FrameKind::FaultReport,
                VALUE => FrameKind::ReadParameter,
                _ => FrameKind::Other,
            },
            extra: (can_id >> 8) as u16,
            device_id: can_id as u8,
        }
    }

    fn status(&self, frame: &CanFrame) -> Option<Feedback> {
        if frame.data.len() < 8 {
            return None;
        }
        Some(Feedback {
            motor_id: frame.can_id as u8,
            position: frame.data[0] as u32,
            velocity: frame.data[1] as u32,
            torque: Some(frame.data[2] as u32),
            temperature: Some(frame.data[3] as u32),
            status: StatusBits {
                mode: 2,
                uncalibrated: frame.data[4] & 1 != 0,
                stall: frame.data[4] & 2 != 0,
                magnetic_encoder_fault: false,
                overtemperature: false,
                overcurrent: false,
                undervoltage: frame.data[4] & 4 != 0,
                device_id: 7,
            },
        })
    }

    fn value(&self, frame: &CanFrame) -> Option<(u16, u32)> {
        if frame.data.len() < 8 {
            return None;
        }
        let d = &frame.data;
        Some((
            u16::from_le_bytes([d[1], d[2]]),
            u32::from_le_bytes([d[3], d[4], d[5], d[6]]),
        ))
    }

    fn index(&self, param: Param) -> u16 {
        number(param)
    }

    fn pause(&self, ms: u64) {
        self.paused.borrow_mut().push(ms);
    }
}

#[derive(Default)]
struct MockBus {
    sent: Vec<CanFrame>,
    replies: VecDeque<Result<CanFrame, Error>>,
    deaf: bool,
}

impl MockBus {
    fn reply(&mut self, comm_type: u8, extra: u16, device: u8, data: [u8; 8]) {
        self.replies.push_back(Ok(CanFrame {
            can_id: id_of(comm_type, extra, device),
            data: data.to_vec(),
        }));
    }

    fn status(&mut self) {
        self.reply(STATUS, 0, 7, [1, 2, 3, 4, 0, 0, 0, 0]);
    }

    fn value(&mut self, param: Param, v: u32) {
        self.reply(VALUE, 0, 7, with_value(0, number(param), v));
    }

    fn kinds(&self) -> Vec<u8> {
        self.sent.iter().map(|f| f.data[0]).collect()
    }
}

impl RobstrideBus for MockBus {
    fn send(&mut self, can_id: u32, data: &[u8]) -> Result<(), Error> {
        if self.deaf {
            return Err(Error::CanSocket("down".to_string()));
        }
        self.sent.push(CanFrame { can_id, data: data.to_vec() });
        Ok(())
    }

    fn recv(&mut self) -> Result<CanFrame, Error> {
        self.replies.pop_front().unwrap_or(Err(Error::Timeout { motor_id: 0 }))
    }

    fn set_timeout(&mut self, _timeout_ns: u64) -> Result<(), Error> {
        Ok(())
    }
}

fn motor() -> Motor<MockBus, Plain> {
    let mut m = Motor::with_bus_and_host(MockBus::default(), plain(), 7, 0xFD);
    m.set_timeout(2_000_000).unwrap();
    m
}

fn in_mode(mode: RunMode) -> Motor<MockBus, Plain> {
    let mut m = motor();
    m.set_run_mode(mode).unwrap();
    m.bus().sent.clear();
    m
}

fn sent_write(frame: &CanFrame) -> (u16, u32) {
    assert_eq!(frame.data[0], b'W');
    let d = &frame.data;
    (u16::from_le_bytes([d[1], d[2]]), u32::from_le_bytes([d[3], d[4], d[5], d[6]]))
}

#[test]
fn enable_and_disable_follow_the_answer() {
    let mut m = motor();
    assert!(!m.is_enabled());
    m.bus().reply(9, 0, 7, [0; 8]);
    m.bus().status();
    let fb = m.enable().unwrap();
    assert_eq!((fb.position, fb.velocity, fb.torque), (1, 2, Some(3)));
    assert!(m.is_enabled());
    m.bus().status();
    m.disable().unwrap();
    assert!(!m.is_enabled());
    assert_eq!(m.bus().sent[0].can_id, id_of(1, 0xFD, 7));
    assert_eq!(m.bus().kinds(), vec![b'E', b'D']);
    assert_eq!((m.motor_id(), m.host_id()), (7, 0xFD));
}

#[test]
fn faults_and_silence_are_failures() {
    let mut m = motor();
    m.bus().reply(FAULT, 0x1234, 7, [0; 8]);
    let err = m.enable().unwrap_err();
    assert!(matches!(err, Error::MotorFault { motor_id: 7, extra_data: 0x1234 }));
    assert!(!m.is_enabled());
    assert!(matches!(m.enable().unwrap_err(), Error::Timeout { motor_id: 7 }));
    m.bus().replies.push_back(Ok(CanFrame { can_id: id_of(STATUS, 0, 7), data: vec![1] }));
    match m.enable().unwrap_err() {
        Error::InvalidResponse(s) => assert_eq!(s, "failed to parse status frame"),
        e => panic!("{:?}", e),
    }
    m.bus().replies.push_back(Ok(CanFrame { can_id: id_of(VALUE, 0, 7), data: vec![] }));
    match m.read_vbus().unwrap_err() {
        Error::InvalidResponse(s) => assert_eq!(s, "failed to parse param response"),
        e => panic!("{:?}", e),
    }
    m.bus().replies.push_back(Err(Error::CanSocket("gone".to_string())));
    assert!(matches!(m.read_status().unwrap_err(), Error::CanSocket(_)));
}

#[test]
fn stale_values_are_dropped() {
    let mut m = motor();
    m.bus().value(Param::MechVel, 5);
    m.bus().value(Param::MechPos, 6);
    assert_eq!(m.read_position().unwrap(), 6);
    assert_eq!(m.bus().replies.len(), 0);
}

#[test]
fn mit_commands_need_enable() {
    let mut m = motor();
    let bits = MitBits { position: 9, velocity: 0, kp: 0, kd: 0, torque: 0 };
    assert!(matches!(m.mit_control(bits).unwrap_err(), Error::NotEnabled { motor_id: 7 }));
    assert!(m.bus().sent.is_empty());
    m.bus().status();
    m.enable().unwrap();
    m.bus().status();
    assert_eq!(m.mit_control(bits).unwrap().temperature, Some(4));
}

#[test]
fn a_speed_limit_is_written_once() {
    let mut m = in_mode(RunMode::Position);
    m.set_position_with_speed(1, 50, true).unwrap();
    assert_eq!(m.cached_speed_limit(), Some(50));
    m.set_position_with_speed(2, 50, false).unwrap();
    m.set_position_with_speed(3, 60, true).unwrap();
    let writes: Vec<(u16, u32)> = m.bus().sent.iter().map(sent_write).collect();
    assert_eq!(
        writes,
        vec![
            (number(Param::LimitSpd), 50),
            (number(Param::LocRef), 1),
            (number(Param::LocRef), 2),
            (number(Param::LimitSpd), 60),
            (number(Param::LocRef), 3),
        ]
    );
}

#[test]
fn measuring_outside_mit_mode_reads_values() {
    let mut m = in_mode(RunMode::Velocity);
    m.bus().value(Param::MechPos, 11);
    m.bus().value(Param::MechVel, 12);
    let fb = m.measure_safe().unwrap();
    assert_eq!((fb.position, fb.velocity), (11, 12));
    assert_eq!((fb.torque, fb.temperature), (None, None));
    assert_eq!(fb.motor_id, 7);
    assert_eq!(m.bus().kinds(), vec![b'R', b'R', b'R']);
    // A missing velocity is a failure.
    m.bus().value(Param::MechPos, 11);
    assert!(m.measure_safe().is_err());
}

#[test]
fn position_mode_is_enabled_in_place() {
    let mut m = in_mode(RunMode::Position);
    m.bus().status();
    m.bus().value(Param::MechPos, 0x3F80_0000);
    actuator::enable(&mut m).unwrap();
    assert!(m.is_enabled());
    assert_eq!(m.bus().kinds(), vec![b'W', b'E', b'R', b'W']);
    let first = sent_write(&m.bus().sent[0].clone());
    assert_eq!(first, (number(Param::LimitSpd), 5.0f32.to_bits()));
    let last = sent_write(&m.bus().sent[3].clone());
    assert_eq!(last, (number(Param::LocRef), 0x3F80_0000));
    // Without a position there is nothing to hold, which is no failure.
    let mut m = in_mode(RunMode::Position);
    m.bus().status();
    actuator::enable(&mut m).unwrap();
    assert_eq!(m.bus().kinds(), vec![b'W', b'E', b'R']);
}

#[test]
fn targets_are_zeroed_before_enable() {
    let mut m = in_mode(RunMode::Velocity);
    m.bus().status();
    actuator::enable(&mut m).unwrap();
    assert_eq!(sent_write(&m.bus().sent[0].clone()), (number(Param::SpdRef), 0));
    let mut m = in_mode(RunMode::Torque);
    m.bus().status();
    actuator::enable(&mut m).unwrap();
    assert_eq!(sent_write(&m.bus().sent[0].clone()), (number(Param::IqRef), 0));
    assert_eq!(m.bus().kinds(), vec![b'W', b'E']);
}

#[test]
fn the_mode_changes_while_the_motor_is_off() {
    let mut m = motor();
    m.bus().status();
    m.enable().unwrap();
    m.bus().sent.clear();
    m.bus().status();
    m.bus().status();
    actuator::set_run_mode(&mut m, feedback::RunMode::Torque).unwrap();
    assert_eq!(m.bus().kinds(), vec![b'D', b'M', b'W', b'E']);
    assert!(m.is_enabled());
    assert_eq!(actuator::current_run_mode_hint(&m), Some(feedback::RunMode::Torque));
}

#[test]
fn commands_demand_their_mode() {
    let mut m = in_mode(RunMode::Velocity);
    match actuator::set_position(&mut m, 0, 0, true).unwrap_err() {
        error::Error::Other(s) => assert_eq!(
            s,
            "set_position requires Position run mode (currently Velocity); call set_run_mode(Position) first"
        ),
        e => panic!("{}", e.message()),
    }
    assert!(m.bus().sent.is_empty());
    m.bus().value(Param::MechPos, 1);
    m.bus().value(Param::MechVel, 2);
    m.bus().value(Param::MeasuredTorque, 3);
    let fb = actuator::set_velocity(&mut m, 77).unwrap();
    assert_eq!((fb.position, fb.velocity, fb.torque), (1, 2, Some(3)));
    assert_eq!(sent_write(&m.bus().sent[0].clone()), (number(Param::SpdRef), 77));
    let bits = MitBits { position: 0, velocity: 0, kp: 0, kd: 0, torque: 0 };
    assert!(actuator::mit_control(&mut m, bits).is_err());
    assert!(actuator::set_torque(&mut m, 0).is_err());
}

#[test]
fn the_status_holds_flags_and_voltage() {
    let mut m = motor();
    m.bus().reply(STATUS, 0, 7, [1, 2, 3, 4, 0b111, 0, 0, 0]);
    m.bus().value(Param::Vbus, 48);
    let s = actuator::read_status(&mut m).unwrap();
    assert_eq!((s.voltage, s.temperature), (Some(48), Some(4)));
    assert!(s.error.uncalibrated() && s.error.stall() && s.error.under_voltage());
    assert!(!s.error.over_current());
    assert_eq!(s.error.raw(), 0x8000 | 0x2000 | 0x1000 | 0x100 | 7);
}

#[test]
fn ping_returns_the_first_frame() {
    let mut m = motor();
    m.bus().reply(0, 0x0107, 0xFE, [1, 2, 3, 4, 5, 6, 7, 8]);
    assert_eq!(m.ping().unwrap(), (0x0107, vec![1, 2, 3, 4, 5, 6, 7, 8]));
    m.bus().deaf = true;
    assert!(matches!(m.ping().unwrap_err(), Error::CanSocket(_)));
}

#[test]
fn writes_are_given_time() {
    assert_eq!(Request::SetZero.follow_up(), FollowUp::Pause { ms: 50 });
    assert_eq!(Request::SetRunMode(RunMode::Mit).follow_up(), FollowUp::Pause { ms: 10 });
    assert_eq!(Request::Write(Param::IqRef, 0).follow_up(), FollowUp::Pause { ms: 5 });
    assert_eq!(Request::Enable.follow_up(), FollowUp::Status);
    assert_eq!(Request::Read(Param::Vbus).follow_up(), FollowUp::Value(Param::Vbus));
}

#[test]
fn scan_reports_answers_and_skips_echoes() {
    struct Adapter {
        pending: VecDeque<CanFrame>,
    }
    impl RobstrideBus for Adapter {
        fn send(&mut self, can_id: u32, data: &[u8]) -> Result<(), Error> {
            self.pending.clear();
            // The adapter sends every frame back.
            self.pending.push_back(CanFrame { can_id, data: data.to_vec() });
            if can_id as u8 == 4 {
                self.pending.push_back(CanFrame { can_id: id_of(0, 4, 0xFE), data: vec![9; 8] });
            }
            Ok(())
        }
        fn recv(&mut self) -> Result<CanFrame, Error> {
            self.pending.pop_front().ok_or(Error::Timeout { motor_id: 0 })
        }
        fn set_timeout(&mut self, _timeout_ns: u64) -> Result<(), Error> {
            Ok(())
        }
    }
    let mut bus = Adapter { pending: VecDeque::new() };
    struct Told {
        calls: Vec<(usize, usize, u8)>,
    }
    impl ScanProgress<Adapter> for Told {
        fn report(&mut self, _bus: &Adapter, index: usize, total: usize, motor_id: u8) {
            self.calls.push((index, total, motor_id));
        }
    }
    let mut progress = Told { calls: Vec::new() };
    let found =
        scan_bus_on(&mut bus, &plain(), 0xFD, 3, 5, 1_000_000_000, &mut progress).unwrap();
    assert_eq!(found.len(), 1);
    assert_eq!((found[0].motor_id, found[0].payload.clone()), (4, vec![9; 8]));
    assert_eq!(progress.calls, vec![(0, 3, 3), (1, 3, 4), (2, 3, 5), (3, 3, 0)]);
    let echo = plain().split(id_of(0, 0xFD, 4));
    assert_eq!(judge(4, echo), Verdict::Echo);
    assert_eq!(judge(5, echo), Verdict::Foreign);
    assert_eq!(judge(0xFD, echo), Verdict::Answer);
}

#[test]
fn a_broken_bus_ends_scan_and_dump() {
    let mut bus = MockBus::default();
    bus.replies.push_back(Err(Error::CanSocket("gone".to_string())));
    let mut quiet: Quiet<MockBus> = Quiet::new();
    let r = scan_bus_on(&mut bus, &plain(), 0xFD, 1, 3, 1_000_000_000, &mut quiet);
    assert!(matches!(r, Err(Error::CanSocket(_))));
    assert_eq!(bus.sent.len(), 1);

    let mut bus = MockBus::default();
    bus.reply(1, 2, 3, [5; 8]);
    bus.replies.push_back(Err(Error::Timeout { motor_id: 0 }));
    bus.reply(1, 2, 4, [6; 8]);
    let frames = dump_bus(&mut bus, 20_000_000).unwrap();
    assert_eq!(frames.len(), 2);
    assert_eq!(frames[1].can_id, id_of(1, 2, 4));
    assert_eq!(frames[1].data, vec![6; 8]);
}

#[test]
fn extended_frames_are_checked() {
    let f = encode_extended(0x1FFF_FFFF, &[1, 2]).unwrap();
    assert_eq!((f.can_id, f.data), (0x1FFF_FFFF, vec![1, 2]));
    assert!(matches!(
        encode_extended(0x2000_0000, &[]),
        Err(Error::InvalidFrame("CAN ID exceeds 29 bits"))
    ));
    assert!(matches!(
        encode_extended(1, &[0; 9]),
        Err(Error::InvalidFrame("payload too long for CAN frame"))
    ));
    assert!(received(SocketEvent::Frame(FrameId::Standard(1), &[])).is_none());
    match received(SocketEvent::Frame(FrameId::Extended(0x12345), &[7])) {
        Some(Ok(f)) => assert_eq!((f.can_id, f.data), (0x12345, vec![7])),
        _ => panic!("no frame"),
    }
    assert!(matches!(
        received(SocketEvent::Quiet),
        Some(Err(Error::Timeout { motor_id: 0 }))
    ));
    let common = error::Error::from(Error::MotorFault { motor_id: 2, extra_data: 9 });
    assert!(matches!(common, error::Error::MotorFault { motor_id: 2, code: 9 }));
}
