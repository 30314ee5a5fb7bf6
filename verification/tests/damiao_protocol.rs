use misa_actuator::damiao::can_id::{
    force_pos_id, is_feedback_from, mit_id, pos_vel_id, vel_id, REGISTER_ID,
};
use misa_actuator::damiao::feedback::ErrorCode;
use misa_actuator::damiao::frame::{
    build_clear_error_frame, build_disable_frame, build_enable_frame, build_mit_frame,
    build_pos_vel_frame, build_set_zero_frame, build_vel_frame, parse_feedback, MitCodes,
};
use misa_actuator::damiao::limits::{Limits, MotorModel};
use misa_actuator::damiao::register::{
    build_read_reg, build_save_all, build_write_reg_f32, build_write_reg_int, parse_reg_reply,
    ControlMode, Rid,
};

/// Limits as numbers, as the float layer of the program computes them.
fn thousandths(n: u32) -> f32 {
    (n as f64 / 1000.0) as f32
}

fn float_to_uint(x: f32, x_min: f32, x_max: f32, bits: u8) -> u16 {
    let span = x_max - x_min;
    let norm = (x.clamp(x_min, x_max) - x_min) / span;
    (norm * ((1u32 << bits) - 1) as f32) as u16
}

fn uint_to_float(code: u16, x_min: f32, x_max: f32, bits: u8) -> f32 {
    (code as f32) / ((1u32 << bits) - 1) as f32 * (x_max - x_min) + x_min
}

fn codes(l: &Limits, pos: f32, vel: f32, kp: f32, kd: f32, tau: f32) -> MitCodes {
    let (p, v, t) = (thousandths(l.p_max), thousandths(l.v_max), thousandths(l.t_max));
    MitCodes::new(
        float_to_uint(pos, -p, p, 16),
        float_to_uint(vel, -v, v, 12),
        float_to_uint(kp, 0.0, thousandths(l.kp_max), 12),
        float_to_uint(kd, 0.0, thousandths(l.kd_max), 12),
        float_to_uint(tau, -t, t, 12),
    )
    .unwrap()
}

fn dm4310() -> Limits {
    MotorModel::Dm4310.limits()
}

#[test]
fn channel_offsets() {
    assert_eq!(mit_id(1), 0x001);
    assert_eq!(pos_vel_id(1), 0x101);
    assert_eq!(vel_id(1), 0x201);
    assert_eq!(force_pos_id(1), 0x301);
    assert_eq!(REGISTER_ID, 0x7FF);
}

#[test]
fn feedback_matches_master_id() {
    assert!(is_feedback_from(0x00, 0)); // default MST_ID
    assert!(is_feedback_from(0x11, 0x11));
    assert!(is_feedback_from(0x305, 0x305)); // 11-bit master id
    assert!(!is_feedback_from(0x01, 0));
}

#[test]
fn channels_do_not_overlap() {
    for a in 0..=255u8 {
        for b in [0u8, 1, 0x55, 254, 255] {
            let ids = [mit_id(a), pos_vel_id(b), vel_id(a), force_pos_id(b), REGISTER_ID];
            for i in 0..5 {
                for j in 0..i {
                    assert_ne!(ids[i], ids[j]);
                }
            }
        }
    }
}

#[test]
fn nibble_round_trip() {
    for n in 0u8..=0xF {
        let c = ErrorCode::from_nibble(n);
        assert_eq!(c.raw(), n, "nibble {n:#X}");
    }
}

#[test]
fn fault_classification() {
    assert!(!ErrorCode::Disabled.is_fault());
    assert!(!ErrorCode::Enabled.is_fault());
    assert!(ErrorCode::CommLost.is_fault());
    assert!(ErrorCode::Overload.is_fault());
}

#[test]
fn special_frames_match_known_bytes() {
    assert_eq!(
        build_enable_frame(1),
        (0x001, [0xFF, 0xFF, 0xFF, 0xFF, 0xFF, 0xFF, 0xFF, 0xFC])
    );
    assert_eq!(build_disable_frame(1).1[7], 0xFD);
    assert_eq!(build_set_zero_frame(1).1[7], 0xFE);
    assert_eq!(build_clear_error_frame(1).1[7], 0xFB);
}

#[test]
fn mit_frame_id_and_zero_command() {
    // Zero pos/vel/torque over symmetric ranges → ~mid-scale codes.
    let (id, data) = build_mit_frame(1, &codes(&dm4310(), 0.0, 0.0, 0.0, 0.0, 0.0));
    assert_eq!(id, 0x001);
    // position field = bytes 0..2 ≈ 0x7FFF
    let p = ((data[0] as u16) << 8) | data[1] as u16;
    assert!((p as i32 - 0x7FFF).abs() <= 1);
    // kp=kd=0 → those code bits are zero
    assert_eq!(data[4], 0x00); // kp low byte
    assert_eq!(codes(&dm4310(), 0.0, 0.0, 0.0, 0.0, 0.0), MitCodes::idle());
    assert_eq!(codes(&MotorModel::Dm3507.limits(), 0.0, 0.0, 0.0, 0.0, 0.0), MitCodes::idle());
}

#[test]
fn mit_fields_lie_side_by_side() {
    let c = MitCodes::new(0x1234, 0x567, 0x89A, 0xBCD, 0xEF0).unwrap();
    let (id, data) = build_mit_frame(0x21, &c);
    assert_eq!(id, 0x021);
    assert_eq!(data, [0x12, 0x34, 0x56, 0x78, 0x9A, 0xBC, 0xDE, 0xF0]);
    assert!(MitCodes::new(0, 0x1000, 0, 0, 0).is_none());
    assert!(MitCodes::new(0xFFFF, 0xFFF, 0xFFF, 0xFFF, 0xFFF).is_some());
    assert!(MitCodes::new(0, 0, 0, 0, 0x1000).is_none());
}

/// A feedback payload with the given decoded values.
fn make_feedback_fixture(
    id: u8,
    err: ErrorCode,
    pos: f32,
    vel: f32,
    tau: f32,
    l: &Limits,
) -> [u8; 8] {
    let p = float_to_uint(pos, -thousandths(l.p_max), thousandths(l.p_max), 16);
    let v = float_to_uint(vel, -thousandths(l.v_max), thousandths(l.v_max), 12);
    let t = float_to_uint(tau, -thousandths(l.t_max), thousandths(l.t_max), 12);
    [
        (err.raw() << 4) | (id & 0x0F),
        (p >> 8) as u8,
        (p & 0xFF) as u8,
        (v >> 4) as u8,
        (((v & 0x0F) << 4) | ((t >> 8) & 0x0F)) as u8,
        (t & 0xFF) as u8,
        0,
        0,
    ]
}

#[test]
fn feedback_decodes_packed_values() {
    let l = dm4310();
    let fb_frame = make_feedback_fixture(1, ErrorCode::Enabled, 1.5, -4.0, 2.0, &l);
    let fb = parse_feedback(&fb_frame).unwrap();
    assert_eq!(fb.motor_id, 1);
    assert_eq!(fb.err, ErrorCode::Enabled);
    let position = uint_to_float(fb.position, -thousandths(l.p_max), thousandths(l.p_max), 16);
    let velocity = uint_to_float(fb.velocity, -thousandths(l.v_max), thousandths(l.v_max), 12);
    let torque = uint_to_float(fb.torque, -thousandths(l.t_max), thousandths(l.t_max), 12);
    assert!((position - 1.5).abs() < 0.01, "pos {}", position);
    assert!((velocity - (-4.0)).abs() < 0.05, "vel {}", velocity);
    assert!((torque - 2.0).abs() < 0.05, "tau {}", torque);
}

#[test]
fn feedback_temps_are_raw_celsius() {
    let l = dm4310();
    let mut frame = make_feedback_fixture(2, ErrorCode::Enabled, 0.0, 0.0, 0.0, &l);
    frame[6] = 41; // T_MOS
    frame[7] = 55; // T_Rotor
    let fb = parse_feedback(&frame).unwrap();
    assert_eq!(fb.t_mos as f32, 41.0);
    assert_eq!(fb.t_rotor as f32, 55.0);
}

#[test]
fn feedback_codes_are_exact() {
    let fb = parse_feedback(&[0xD5, 0x12, 0x34, 0x56, 0x78, 0x9A, 1, 2, 99]).unwrap();
    assert_eq!(fb.motor_id, 5);
    assert_eq!(fb.err, ErrorCode::CommLost);
    assert_eq!((fb.position, fb.velocity, fb.torque), (0x1234, 0x567, 0x89A));
    assert_eq!((fb.t_mos, fb.t_rotor), (1, 2));
    assert!(parse_feedback(&[0; 7]).is_none());
}

#[test]
fn pos_vel_and_vel_are_le_floats() {
    let (id, data) = build_pos_vel_frame(1, 3.14f32.to_bits(), 5.0f32.to_bits());
    assert_eq!(id, 0x101);
    assert_eq!(f32::from_le_bytes([data[0], data[1], data[2], data[3]]), 3.14);
    assert_eq!(f32::from_le_bytes([data[4], data[5], data[6], data[7]]), 5.0);

    let (id, data) = build_vel_frame(1, (-2.5f32).to_bits());
    assert_eq!(id, 0x201);
    assert_eq!(f32::from_le_bytes([data[0], data[1], data[2], data[3]]), -2.5);
    assert_eq!(&data[4..8], &[0, 0, 0, 0]);
}

#[test]
fn parse_names() {
    assert_eq!(MotorModel::from_name("DM4310"), Some(MotorModel::Dm4310));
    assert_eq!(MotorModel::from_name("dm-j4310-2ec"), Some(MotorModel::Dm4310));
    assert_eq!(MotorModel::from_name("4310"), Some(MotorModel::Dm4310));
    assert_eq!(MotorModel::from_name("DM3507"), Some(MotorModel::Dm3507));
    assert_eq!(MotorModel::from_name("dm-j3507-2ec"), Some(MotorModel::Dm3507));
    assert_eq!(MotorModel::from_name("3507"), Some(MotorModel::Dm3507));
    assert_eq!(MotorModel::from_name("rs05"), None);
}

#[test]
fn names_ignore_case_and_are_cut_short() {
    assert_eq!(MotorModel::from_name("dM4310"), Some(MotorModel::Dm4310));
    assert_eq!(MotorModel::from_name(""), None);
    let late = format!("{}4310", "x".repeat(40));
    assert_eq!(MotorModel::from_name(&late), None);
    assert_eq!(MotorModel::from_name(MotorModel::Dm3507.name()), Some(MotorModel::Dm3507));
    assert_eq!(MotorModel::from_name(MotorModel::Dm4310.name()), Some(MotorModel::Dm4310));
}

#[test]
fn dm3507_limits() {
    let l = MotorModel::Dm3507.limits();
    assert_eq!(thousandths(l.p_max), 12.566);
    assert_eq!(thousandths(l.v_max), 50.0);
    assert_eq!(thousandths(l.t_max), 5.0);
    assert_eq!(thousandths(l.kp_max), 500.0); // global, same as DM4310
    assert_eq!(thousandths(l.kd_max), 5.0);
    assert!(MotorModel::Dm3507.supports_nvm_zero());
}

#[test]
fn dm4310_supports_nvm_zero() {
    assert!(MotorModel::Dm4310.supports_nvm_zero());
}

#[test]
fn dm4310_limits() {
    let l = MotorModel::Dm4310.limits();
    assert_eq!(thousandths(l.p_max), 12.5);
    assert_eq!(thousandths(l.v_max), 30.0);
    assert_eq!(thousandths(l.t_max), 10.0);
    assert_eq!(thousandths(l.kp_max), 500.0);
    assert_eq!(thousandths(l.kd_max), 5.0);
}

#[test]
fn read_frame_layout() {
    let (id, data) = build_read_reg(0x05, Rid::ESC_ID);
    assert_eq!(id, 0x7FF);
    assert_eq!(data, [0x05, 0x00, 0x33, 8, 0, 0, 0, 0]);
}

#[test]
fn write_int_mode_frame() {
    // Switch motor 1 to POS_VEL (mode value 2) via RID 10.
    let (id, data) = build_write_reg_int(0x01, Rid::CTRL_MODE, ControlMode::PosVel.raw());
    assert_eq!(id, 0x7FF);
    assert_eq!(data, [0x01, 0x00, 0x55, 10, 0x02, 0x00, 0x00, 0x00]);
}

#[test]
fn write_f32_frame() {
    let (_, data) = build_write_reg_f32(0x02, Rid::PMAX, 12.5f32.to_bits());
    assert_eq!(&data[0..4], &[0x02, 0x00, 0x55, 21]);
    assert_eq!(f32::from_le_bytes([data[4], data[5], data[6], data[7]]), 12.5);
}

#[test]
fn reg_reply_round_trip() {
    // A real reply (captured on MST_ID 0x000 from a DM-J4310):
    //   000  01 00 33 0A 02 00 00 00  → CTRL_MODE(10) read-back = 2 (PosVel)
    let reply = parse_reg_reply(&[0x01, 0x00, 0x33, Rid::CTRL_MODE, 0x02, 0, 0, 0]).unwrap();
    assert_eq!(reply.can_id, 0x01);
    assert_eq!(reply.rid, Rid::CTRL_MODE);
    assert_eq!(reply.as_i32(), 2);
}

#[test]
fn non_reg_frame_rejected() {
    // A motion-feedback-shaped frame (D2 not a reg cmd) must not parse.
    assert!(parse_reg_reply(&[0x11, 0x00, 0x00, 0x00, 0, 0, 0, 0]).is_none());
}

#[test]
fn save_all_frame_layout() {
    let (id, data) = build_save_all(0x01);
    assert_eq!(id, 0x7FF);
    assert_eq!(data, [0x01, 0x00, 0xAA, 0x01, 0, 0, 0, 0]);
    assert!(parse_reg_reply(&data).is_none());
}

#[test]
fn int_register_classification() {
    assert!(Rid::is_int(Rid::MST_ID));
    assert!(Rid::is_int(Rid::ESC_ID));
    assert!(Rid::is_int(Rid::CTRL_MODE));
    assert!(Rid::is_int(Rid::CAN_BR));
    assert!(!Rid::is_int(Rid::PMAX));
    assert!(!Rid::is_int(Rid::KT_VALUE));
}

#[test]
fn register_writes_read_back() {
    for v in [0i32, 1, -1, i32::MAX, i32::MIN, 0x0102_0304] {
        let (_, data) = build_write_reg_int(7, 9, v);
        let reply = parse_reg_reply(&data).unwrap();
        assert_eq!((reply.can_id, reply.rid, reply.as_i32()), (7, 9, v));
    }
    let (_, data) = build_write_reg_f32(7, Rid::TMAX, (-0.125f32).to_bits());
    assert_eq!(f32::from_bits(parse_reg_reply(&data).unwrap().as_f32_bits()), -0.125);
}

#[test]
fn control_modes_have_numbers() {
    assert_eq!(ControlMode::from_raw(1), Some(ControlMode::Mit));
    assert_eq!(ControlMode::from_raw(4), Some(ControlMode::ForcePos));
    assert_eq!(ControlMode::from_raw(0), None);
    assert_eq!(ControlMode::from_raw(5), None);
    assert_eq!(ControlMode::Vel.raw(), 3);
}
