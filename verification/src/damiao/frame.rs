//! Command and feedback frames. All have eight data bytes:
//!
//! - MIT commands pack position (16 bits), velocity, kp, kd and torque (12 bits
//!   each), most significant bit first;
//! - position-velocity and velocity commands hold little-endian 32-bit floats,
//!   which this module takes by their bit patterns;
//! - special commands are seven `FF` bytes and a command byte.
use crate::bytes;
use crate::damiao::can_id;
use crate::damiao::can_id::{mit_id, pos_vel_id, vel_id};
use crate::damiao::feedback;
use crate::damiao::feedback::{ErrorCode, Feedback};
use vstd::prelude::*;

verus! {

/// Data bytes of every frame.
pub const DATA_LEN: usize = 8;

/// Special command: enable the motor.
const CMD_ENABLE: u8 = 0xFC;

/// Special command: disable the motor.
const CMD_DISABLE: u8 = 0xFD;

/// Special command: store the current position as zero.
const CMD_SET_ZERO: u8 = 0xFE;

/// Special command: clear errors.
const CMD_CLEAR_ERROR: u8 = 0xFB;

/// The five fields of an MIT command as codes of the wire: position over 16
/// bits, the others over 12.
#[derive(Debug, Clone, Copy, PartialEq, Eq)]
pub struct MitCodes {
    position: u16,
    velocity: u16,
    kp: u16,
    kd: u16,
    torque: u16,
}

/// The codes in a [`MitCodes`].
pub struct MitCodesView {
    pub position: nat,
    pub velocity: nat,
    pub kp: nat,
    pub kd: nat,
    pub torque: nat,
}

impl View for MitCodes {
    type V = MitCodesView;

    closed spec fn view(&self) -> MitCodesView {
        MitCodesView {
            position: self.position as nat,
            velocity: self.velocity as nat,
            kp: self.kp as nat,
            kd: self.kd as nat,
            torque: self.torque as nat,
        }
    }
}

impl MitCodesView {
    /// Whether every code fits its field.
    pub open spec fn fits(self) -> bool {
        &&& self.position < 0x1_0000
        &&& self.velocity < 0x1000
        &&& self.kp < 0x1000
        &&& self.kd < 0x1000
        &&& self.torque < 0x1000
    }
}

impl MitCodes {
    #[verifier::type_invariant]
    spec fn inv(self) -> bool {
        self@.fits()
    }

    /// The codes, if each fits its field.
    pub fn new(position: u16, velocity: u16, kp: u16, kd: u16, torque: u16) -> (r: Option<Self>)
        ensures
            r is Some <==> velocity < 0x1000 && kp < 0x1000 && kd < 0x1000 && torque < 0x1000,
            r matches Some(c) ==> c@ == (MitCodesView {
                position: position as nat,
                velocity: velocity as nat,
                kp: kp as nat,
                kd: kd as nat,
                torque: torque as nat,
            }),
    {
        if velocity < 0x1000 && kp < 0x1000 && kd < 0x1000 && torque < 0x1000 {
            Some(MitCodes { position, velocity, kp, kd, torque })
        } else {
            None
        }
    }

    /// The codes that command nothing.
    pub fn idle() -> (r: Self)
        ensures
            r@ == idle_codes(),
    {
        MitCodes { position: 0x7FFF, velocity: 0x7FF, kp: 0, kd: 0, torque: 0x7FF }
    }

    /// The same position and torque, without velocity and without gains.
    pub fn torque_only(&self) -> (r: Self)
        ensures
            r@ == torque_codes(self@),
    {
        proof {
            use_type_invariant(self);
        }
        MitCodes { velocity: 0x7FF, kp: 0, kd: 0, ..*self }
    }
}

/// The codes of a pure torque command: with no gains, position and velocity have
/// no effect.
pub open spec fn torque_codes(c: MitCodesView) -> MitCodesView {
    MitCodesView { velocity: 0x7FF, kp: 0, kd: 0, ..c }
}

/// The codes of an MIT command that commands nothing: the middle of every
/// symmetric range, and no gains.
pub open spec fn idle_codes() -> MitCodesView {
    MitCodesView { position: 0x7FFF, velocity: 0x7FF, kp: 0, kd: 0, torque: 0x7FF }
}

/// The data bytes of an MIT command.
pub open spec fn mit_payload(c: MitCodesView) -> Seq<u8> {
    seq![
        (c.position / 256) as u8,
        (c.position % 256) as u8,
        (c.velocity / 16) as u8,
        (c.velocity % 16 * 16 + c.kp / 256) as u8,
        (c.kp % 256) as u8,
        (c.kd / 16) as u8,
        (c.kd % 16 * 16 + c.torque / 256) as u8,
        (c.torque % 256) as u8,
    ]
}

/// The number that `s` spells, most significant byte first.
pub open spec fn be_value(s: Seq<u8>) -> nat
    decreases s.len(),
{
    if s.len() == 0 {
        0
    } else {
        256 * be_value(s.drop_last()) + s.last() as nat
    }
}

/// The data bytes of a position-velocity command.
pub open spec fn pos_vel_payload(position_bits: u32, max_speed_bits: u32) -> Seq<u8> {
    bytes::le_bytes(position_bits as nat, 4) + bytes::le_bytes(max_speed_bits as nat, 4)
}

/// The data bytes of a velocity command.
pub open spec fn vel_payload(velocity_bits: u32) -> Seq<u8> {
    bytes::le_bytes(velocity_bits as nat, 4) + seq![0, 0, 0, 0]
}

/// The data bytes of a special command.
pub open spec fn special_payload(cmd: u8) -> Seq<u8> {
    seq![0xFF, 0xFF, 0xFF, 0xFF, 0xFF, 0xFF, 0xFF, cmd]
}

/// The data bytes of a feedback frame.
pub open spec fn feedback_payload(fb: Feedback) -> Seq<u8> {
    seq![
        (fb.err.nibble() * 16 + fb.motor_id) as u8,
        (fb.position / 256) as u8,
        (fb.position % 256) as u8,
        (fb.velocity / 16) as u8,
        (fb.velocity % 16 * 16 + fb.torque / 256) as u8,
        (fb.torque % 256) as u8,
        fb.t_mos,
        fb.t_rotor,
    ]
}

/// What feedback bytes decode to: nothing if there are fewer than eight.
pub open spec fn feedback_in(data: Seq<u8>) -> Option<Feedback> {
    if data.len() < DATA_LEN {
        None
    } else {
        Some(
            Feedback {
                motor_id: (data[0] % 16) as u8,
                position: (data[1] * 256 + data[2]) as u16,
                velocity: (data[3] * 16 + data[4] / 16) as u16,
                torque: (data[4] % 16 * 256 + data[5]) as u16,
                t_mos: data[6],
                t_rotor: data[7],
                err: feedback::code_of((data[0] / 16) as u8),
            },
        )
    }
}

/// An MIT command read as one 64-bit number, most significant byte first, is its
/// five fields side by side.
pub proof fn law_mit_fields_side_by_side(c: MitCodesView)
    requires
        c.fits(),
    ensures
        be_value(mit_payload(c)) == c.position * 0x1_0000_0000_0000 + c.velocity * 0x10_0000_0000
            + c.kp * 0x100_0000 + c.kd * 0x1000 + c.torque,
{
    let s = mit_payload(c);
    let s7 = s.drop_last();
    let s6 = s7.drop_last();
    let s5 = s6.drop_last();
    let s4 = s5.drop_last();
    let s3 = s4.drop_last();
    let s2 = s3.drop_last();
    let s1 = s2.drop_last();
    assert(be_value(s1.drop_last()) == 0);
    assert(be_value(s1) == c.position / 256);
    assert(be_value(s2) == c.position);
    assert(be_value(s3) == 256 * c.position + c.velocity / 16);
    assert(be_value(s4) == 0x1_0000 * c.position + 16 * c.velocity + c.kp / 256);
    assert(be_value(s5) == 0x100_0000 * c.position + 0x1000 * c.velocity + c.kp);
    assert(be_value(s6) == 0x1_0000_0000 * c.position + 0x10_0000 * c.velocity + 256 * c.kp + c.kd
        / 16);
    assert(be_value(s7) == 0x100_0000_0000 * c.position + 0x1000_0000 * c.velocity + 0x1_0000
        * c.kp + 16 * c.kd + c.torque / 256);
}

/// Different MIT commands have different data bytes.
pub proof fn law_mit_payload_injective(a: MitCodesView, b: MitCodesView)
    requires
        a.fits(),
        b.fits(),
        mit_payload(a) == mit_payload(b),
    ensures
        a == b,
{
    assert forall|i: int| 0 <= i < 8 implies mit_payload(a)[i] == mit_payload(b)[i] by {}
    assert(mit_payload(a)[0] == a.position / 256 && mit_payload(b)[0] == b.position / 256);
    assert(mit_payload(a)[1] == a.position % 256 && mit_payload(b)[1] == b.position % 256);
    assert(mit_payload(a)[2] == a.velocity / 16 && mit_payload(b)[2] == b.velocity / 16);
    assert(mit_payload(a)[3] == a.velocity % 16 * 16 + a.kp / 256);
    assert(mit_payload(b)[3] == b.velocity % 16 * 16 + b.kp / 256);
    assert(mit_payload(a)[4] == a.kp % 256 && mit_payload(b)[4] == b.kp % 256);
    assert(mit_payload(a)[5] == a.kd / 16 && mit_payload(b)[5] == b.kd / 16);
    assert(mit_payload(a)[6] == a.kd % 16 * 16 + a.torque / 256);
    assert(mit_payload(b)[6] == b.kd % 16 * 16 + b.torque / 256);
    assert(mit_payload(a)[7] == a.torque % 256 && mit_payload(b)[7] == b.torque % 256);
}

/// Every feedback that a motor can send decodes to itself.
pub proof fn law_feedback_round_trip(fb: Feedback)
    requires
        fb.motor_id < 16,
        fb.velocity < 0x1000,
        fb.torque < 0x1000,
        feedback::code_of(fb.err.nibble()) == fb.err,
        fb.err.nibble() < 16,
    ensures
        feedback_in(feedback_payload(fb)) == Some(fb),
{
}

/// Every eight bytes are the encoding of what they decode to.
pub proof fn law_feedback_decodes_all(data: Seq<u8>)
    requires
        data.len() == DATA_LEN,
    ensures
        feedback_payload(feedback_in(data).unwrap()) == data,
{
    feedback::law_nibble_round_trip((data[0] / 16) as u8);
    assert(feedback_payload(feedback_in(data).unwrap()) =~= data);
}

/// A position-velocity command holds the bit patterns of both numbers as they are,
/// low byte first, the position before the speed.
pub proof fn law_pos_vel_payload_holds_the_numbers(position_bits: u32, max_speed_bits: u32)
    ensures
        pos_vel_payload(position_bits, max_speed_bits).len() == 8,
        bytes::le_value(pos_vel_payload(position_bits, max_speed_bits).take(4)) == position_bits,
        bytes::le_value(pos_vel_payload(position_bits, max_speed_bits).skip(4)) == max_speed_bits,
{
    bytes::lemma_pow256_values();
    bytes::lemma_le_bytes_len(position_bits as nat, 4);
    bytes::lemma_le_bytes_len(max_speed_bits as nat, 4);
    bytes::law_le_value_of_le_bytes(position_bits as nat, 4);
    bytes::law_le_value_of_le_bytes(max_speed_bits as nat, 4);
    let all = pos_vel_payload(position_bits, max_speed_bits);
    assert(all.take(4) =~= bytes::le_bytes(position_bits as nat, 4));
    assert(all.skip(4) =~= bytes::le_bytes(max_speed_bits as nat, 4));
}

/// A velocity command holds the bit pattern of the velocity as it is, low byte
/// first, and zeros after it.
pub proof fn law_vel_payload_holds_the_velocity(velocity_bits: u32)
    ensures
        vel_payload(velocity_bits).len() == 8,
        bytes::le_value(vel_payload(velocity_bits).take(4)) == velocity_bits,
        vel_payload(velocity_bits).skip(4) == seq![0u8, 0, 0, 0],
{
    bytes::lemma_pow256_values();
    bytes::lemma_le_bytes_len(velocity_bits as nat, 4);
    bytes::law_le_value_of_le_bytes(velocity_bits as nat, 4);
    let all = vel_payload(velocity_bits);
    assert(all.take(4) =~= bytes::le_bytes(velocity_bits as nat, 4));
    assert(all.skip(4) =~= seq![0u8, 0, 0, 0]);
}

/// A special command is seven bytes `FF` and the command.
pub proof fn law_special_payload(cmd: u8, i: int)
    requires
        0 <= i < 7,
    ensures
        special_payload(cmd).len() == 8,
        special_payload(cmd)[i] == 0xFF,
        special_payload(cmd)[7] == cmd,
{
}

/// Feedback is read off its frame field by field, without a gap: the status and the
/// motor in the first byte, then position, velocity and torque side by side over
/// five bytes, then the temperatures of the driver and of the rotor.
pub proof fn law_feedback_fields(data: Seq<u8>)
    ensures
        feedback_in(data) is Some <==> data.len() >= 8,
        feedback_in(data) matches Some(fb) ==> {
            &&& fb.err.nibble() * 16 + fb.motor_id == data[0]
            &&& fb.motor_id < 16
            &&& fb.velocity < 0x1000
            &&& fb.torque < 0x1000
            &&& fb.position * 0x100_0000 + fb.velocity * 0x1000 + fb.torque == data[1]
                * 0x1_0000_0000 + data[2] * 0x100_0000 + data[3] * 0x1_0000 + data[4] * 0x100
                + data[5]
            &&& fb.t_mos == data[6]
            &&& fb.t_rotor == data[7]
        },
{
    if data.len() >= 8 {
        feedback::law_nibble_round_trip((data[0] / 16) as u8);
    }
}

/// A command that commands nothing has no gains, and no torque and no velocity: the
/// codes in the middle of their ranges.
pub proof fn law_idle_commands_nothing()
    ensures
        idle_codes().kp == 0,
        idle_codes().kd == 0,
        2 * idle_codes().torque + 1 == 0xFFF,
        2 * idle_codes().velocity + 1 == 0xFFF,
        2 * idle_codes().position + 1 == 0xFFFF,
{
}

/// A torque command keeps the torque and has no gains, so nothing else can act.
pub proof fn law_torque_command_has_no_gains(c: MitCodesView)
    ensures
        torque_codes(c).torque == c.torque,
        torque_codes(c).kp == 0,
        torque_codes(c).kd == 0,
        2 * torque_codes(c).velocity + 1 == 0xFFF,
        torque_codes(c).position == c.position,
{
}

/// The codes of an MIT command are read off its payload one by one.
pub proof fn law_mit_fields(c: MitCodesView)
    requires
        c.fits(),
    ensures
        mit_payload(c).len() == 8,
        mit_payload(c)[0] * 0x100 + mit_payload(c)[1] == c.position,
        mit_payload(c)[2] * 0x10 + mit_payload(c)[3] / 16 == c.velocity,
        mit_payload(c)[3] % 16 * 0x100 + mit_payload(c)[4] == c.kp,
        mit_payload(c)[5] * 0x10 + mit_payload(c)[6] / 16 == c.kd,
        mit_payload(c)[6] % 16 * 0x100 + mit_payload(c)[7] == c.torque,
{
}

/// Builds an MIT command: its CAN id and data bytes.
pub fn build_mit_frame(can_id: u8, codes: &MitCodes) -> (r: (u16, [u8; DATA_LEN]))
    ensures
        r.0 == can_id,
        r.1@ == mit_payload(codes@),
{
    proof {
        use_type_invariant(codes);
    }
    let p: u16 = codes.position;
    let v: u16 = codes.velocity;
    let kp: u16 = codes.kp;
    let kd: u16 = codes.kd;
    let t: u16 = codes.torque;
    let data: [u8; DATA_LEN] = [
        (p / 256) as u8,
        (p % 256) as u8,
        (v / 16) as u8,
        (v % 16 * 16 + kp / 256) as u8,
        (kp % 256) as u8,
        (kd / 16) as u8,
        (kd % 16 * 16 + t / 256) as u8,
        (t % 256) as u8,
    ];
    assert(data@ =~= mit_payload(codes@));
    (mit_id(can_id), data)
}

/// Builds a position-velocity command from the bit patterns of the target
/// position (rad) and the highest speed (rad/s).
pub fn build_pos_vel_frame(can_id: u8, position_bits: u32, max_speed_bits: u32) -> (r: (
    u16,
    [u8; DATA_LEN],
))
    ensures
        r.0 == can_id::channel_id(1, can_id),
        r.1@ == pos_vel_payload(position_bits, max_speed_bits),
{
    let p: [u8; 4] = bytes::u32_to_le(position_bits);
    let v: [u8; 4] = bytes::u32_to_le(max_speed_bits);
    let data: [u8; DATA_LEN] = [p[0], p[1], p[2], p[3], v[0], v[1], v[2], v[3]];
    assert(data@ =~= pos_vel_payload(position_bits, max_speed_bits));
    (pos_vel_id(can_id), data)
}

/// Builds a velocity command from the bit pattern of the velocity (rad/s).
pub fn build_vel_frame(can_id: u8, velocity_bits: u32) -> (r: (u16, [u8; DATA_LEN]))
    ensures
        r.0 == can_id::channel_id(2, can_id),
        r.1@ == vel_payload(velocity_bits),
{
    let v: [u8; 4] = bytes::u32_to_le(velocity_bits);
    let data: [u8; DATA_LEN] = [v[0], v[1], v[2], v[3], 0, 0, 0, 0];
    assert(data@ =~= vel_payload(velocity_bits));
    (vel_id(can_id), data)
}

/// Seven `FF` bytes and a command byte, on the motor's MIT channel.
fn special_frame(can_id: u8, cmd: u8) -> (r: (u16, [u8; DATA_LEN]))
    ensures
        r.0 == can_id,
        r.1@ == special_payload(cmd),
{
    let data: [u8; DATA_LEN] = [0xFF, 0xFF, 0xFF, 0xFF, 0xFF, 0xFF, 0xFF, cmd];
    assert(data@ =~= special_payload(cmd));
    (mit_id(can_id), data)
}

/// Builds the special command that enables the motor.
pub fn build_enable_frame(can_id: u8) -> (r: (u16, [u8; DATA_LEN]))
    ensures
        r.0 == can_id,
        r.1@ == special_payload(0xFC),
{
    special_frame(can_id, CMD_ENABLE)
}

/// Builds the special command that disables the motor.
pub fn build_disable_frame(can_id: u8) -> (r: (u16, [u8; DATA_LEN]))
    ensures
        r.0 == can_id,
        r.1@ == special_payload(0xFD),
{
    special_frame(can_id, CMD_DISABLE)
}

/// Builds the special command that stores the current position as zero.
pub fn build_set_zero_frame(can_id: u8) -> (r: (u16, [u8; DATA_LEN]))
    ensures
        r.0 == can_id,
        r.1@ == special_payload(0xFE),
{
    special_frame(can_id, CMD_SET_ZERO)
}

/// Builds the special command that clears errors.
pub fn build_clear_error_frame(can_id: u8) -> (r: (u16, [u8; DATA_LEN]))
    ensures
        r.0 == can_id,
        r.1@ == special_payload(0xFB),
{
    special_frame(can_id, CMD_CLEAR_ERROR)
}

/// Decodes the data bytes of a feedback frame.
pub fn parse_feedback(data: &[u8]) -> (r: Option<Feedback>)
    ensures
        r == feedback_in(data@),
{
    if data.len() < DATA_LEN {
        return None;
    }
    Some(
        Feedback {
            motor_id: data[0] % 16,
            position: data[1] as u16 * 256 + data[2] as u16,
            velocity: data[3] as u16 * 16 + data[4] as u16 / 16,
            torque: (data[4] % 16) as u16 * 256 + data[5] as u16,
            t_mos: data[6],
            t_rotor: data[7],
            err: ErrorCode::from_nibble(data[0] / 16),
        },
    )
}

} // verus!
