//! Registers: reading, writing and saving them on the register channel.
//!
//! | Byte  | D0    | D1    | D2   | D3   | D4..D7  |
//! |-------|-------|-------|------|------|---------|
//! | Read  | id_lo | id_hi | 0x33 | rid  | unused  |
//! | Write | id_lo | id_hi | 0x55 | rid  | value   |
//! | Save  | id_lo | id_hi | 0xAA | 0x01 | unused  |
//!
//! Values are little-endian: 32-bit integers in the integer registers, 32-bit
//! floats in all others, which this module takes by their bit patterns.
use crate::bytes;
use crate::damiao::can_id::REGISTER_ID;
use vstd::prelude::*;

verus! {

const CMD_READ: u8 = 0x33;

const CMD_WRITE: u8 = 0x55;

const CMD_SAVE: u8 = 0xAA;

/// Control mode, as register [`Rid::CTRL_MODE`] holds it.
#[derive(Debug, Clone, Copy, PartialEq, Eq, Structural)]
pub enum ControlMode {
    /// Impedance control with feedforward.
    Mit,
    /// Profile to a position.
    PosVel,
    /// Velocity control.
    Vel,
    /// Force-position control.
    ForcePos,
}

impl ControlMode {
    /// The register value of a mode.
    pub open spec fn value(self) -> i32 {
        match self {
            ControlMode::Mit => 1,
            ControlMode::PosVel => 2,
            ControlMode::Vel => 3,
            ControlMode::ForcePos => 4,
        }
    }

    /// The mode of a register value.
    pub fn from_raw(v: i32) -> (r: Option<Self>)
        ensures
            r matches Some(m) ==> m.value() == v,
            r is None <==> !(1 <= v <= 4),
    {
        match v {
            1 => Some(ControlMode::Mit),
            2 => Some(ControlMode::PosVel),
            3 => Some(ControlMode::Vel),
            4 => Some(ControlMode::ForcePos),
            _ => None,
        }
    }

    /// The register value of the mode.
    pub fn raw(self) -> (r: i32)
        ensures
            r == self.value(),
    {
        match self {
            ControlMode::Mit => 1,
            ControlMode::PosVel => 2,
            ControlMode::Vel => 3,
            ControlMode::ForcePos => 4,
        }
    }
}

/// Register numbers.
pub struct Rid;

/// Whether register `rid` holds an integer.
pub open spec fn holds_int(rid: u8) -> bool {
    7 <= rid <= 10 || 13 <= rid <= 16 || 35 <= rid <= 36
}

impl Rid {
    /// Under-voltage threshold (float).
    pub const UV_VALUE: u8 = 0;

    /// Torque constant (float).
    pub const KT_VALUE: u8 = 1;

    /// Id that the motor answers on (integer).
    pub const MST_ID: u8 = 7;

    /// Id that the motor listens on (integer).
    pub const ESC_ID: u8 = 8;

    /// Control mode (integer).
    pub const CTRL_MODE: u8 = 10;

    /// Position range (float).
    pub const PMAX: u8 = 21;

    /// Velocity range (float).
    pub const VMAX: u8 = 22;

    /// Torque range (float).
    pub const TMAX: u8 = 23;

    /// CAN baud rate code (integer).
    pub const CAN_BR: u8 = 35;

    /// Firmware sub-version (integer).
    pub const SUB_VER: u8 = 36;

    /// Whether register `rid` holds an integer rather than a float.
    pub fn is_int(rid: u8) -> (r: bool)
        ensures
            r == holds_int(rid),
    {
        (7 <= rid && rid <= 10) || (13 <= rid && rid <= 16) || (35 <= rid && rid <= 36)
    }
}

/// A register frame: target motor, command, register and value.
pub open spec fn register_payload(can_id: u8, cmd: u8, rid: u8, value: nat) -> Seq<u8> {
    seq![can_id, 0, cmd, rid] + bytes::le_bytes(value, 4)
}

/// A register reply: motor, register and the four value bytes.
#[derive(Debug, Clone, Copy, PartialEq, Eq)]
pub struct RegReply {
    pub can_id: u8,
    pub rid: u8,
    pub value: [u8; 4],
}

/// What a register reply says.
pub struct RegReplyView {
    pub can_id: u8,
    pub rid: u8,
    pub value: Seq<u8>,
}

impl View for RegReply {
    type V = RegReplyView;

    open spec fn view(&self) -> RegReplyView {
        RegReplyView { can_id: self.can_id, rid: self.rid, value: self.value@ }
    }
}

impl RegReplyView {
    /// The value as a signed integer.
    pub open spec fn int_value(self) -> int {
        bytes::signed_value(bytes::le_value(self.value), 4)
    }

    /// The value as a bit pattern.
    pub open spec fn bits(self) -> nat {
        bytes::le_value(self.value)
    }
}

/// The reply in some data bytes. Replies come on the id that the motor answers
/// on, so they are told by their content: eight bytes that echo a read or write.
pub open spec fn reply_in(data: Seq<u8>) -> Option<RegReplyView> {
    if data.len() < 8 || (data[2] != 0x33 && data[2] != 0x55) {
        None
    } else {
        Some(RegReplyView { can_id: data[0], rid: data[3], value: data.subrange(4, 8) })
    }
}

/// Builds a request to read a register.
pub fn build_read_reg(can_id: u8, rid: u8) -> (r: (u16, [u8; 8]))
    ensures
        r.0 == REGISTER_ID,
        r.1@ == register_payload(can_id, 0x33, rid, 0),
{
    proof {
        reveal_with_fuel(bytes::le_bytes, 5);
    }
    let data: [u8; 8] = [can_id, 0, CMD_READ, rid, 0, 0, 0, 0];
    assert(data@ =~= register_payload(can_id, 0x33, rid, 0));
    (REGISTER_ID, data)
}

/// Builds a request to write a float register, by the float's bit pattern.
pub fn build_write_reg_f32(can_id: u8, rid: u8, value_bits: u32) -> (r: (u16, [u8; 8]))
    ensures
        r.0 == REGISTER_ID,
        r.1@ == register_payload(can_id, 0x55, rid, value_bits as nat),
{
    let v: [u8; 4] = bytes::u32_to_le(value_bits);
    let data: [u8; 8] = [can_id, 0, CMD_WRITE, rid, v[0], v[1], v[2], v[3]];
    assert(data@ =~= register_payload(can_id, 0x55, rid, value_bits as nat));
    (REGISTER_ID, data)
}

/// Builds a request to write an integer register.
pub fn build_write_reg_int(can_id: u8, rid: u8, value: i32) -> (r: (u16, [u8; 8]))
    ensures
        r.0 == REGISTER_ID,
        r.1@ == register_payload(can_id, 0x55, rid, bytes::twos_complement(value as int, 4)),
{
    let v: [u8; 4] = bytes::i32_to_le(value);
    let data: [u8; 8] = [can_id, 0, CMD_WRITE, rid, v[0], v[1], v[2], v[3]];
    assert(data@ =~= register_payload(
        can_id,
        0x55,
        rid,
        bytes::twos_complement(value as int, 4),
    ));
    (REGISTER_ID, data)
}

/// Builds a request to save all registers to flash. Writes alone are lost when
/// the motor loses power; the motor should be disabled before it saves.
pub fn build_save_all(can_id: u8) -> (r: (u16, [u8; 8]))
    ensures
        r.0 == REGISTER_ID,
        r.1@ == register_payload(can_id, 0xAA, 0x01, 0),
{
    proof {
        reveal_with_fuel(bytes::le_bytes, 5);
    }
    let data: [u8; 8] = [can_id, 0, CMD_SAVE, 0x01, 0, 0, 0, 0];
    assert(data@ =~= register_payload(can_id, 0xAA, 0x01, 0));
    (REGISTER_ID, data)
}

impl RegReply {
    /// The value as the bit pattern of a 32-bit float.
    pub fn as_f32_bits(&self) -> (r: u32)
        ensures
            r == self@.bits(),
    {
        proof {
            assert(self.value@ =~= seq![self.value[0], self.value[1], self.value[2], self.value[3]]);
        }
        bytes::u32_from_le(self.value[0], self.value[1], self.value[2], self.value[3])
    }

    /// The value as a signed integer.
    pub fn as_i32(&self) -> (r: i32)
        ensures
            r == self@.int_value(),
    {
        proof {
            assert(self.value@ =~= seq![self.value[0], self.value[1], self.value[2], self.value[3]]);
        }
        bytes::i32_from_le(self.value[0], self.value[1], self.value[2], self.value[3])
    }
}

/// Reads a register reply. The caller has to pass over its own requests, which
/// look the same.
pub fn parse_reg_reply(data: &[u8]) -> (r: Option<RegReply>)
    ensures
        match r {
            Some(reply) => reply_in(data@) == Some(reply@),
            None => reply_in(data@) is None,
        },
{
    if data.len() < 8 {
        return None;
    }
    let cmd: u8 = data[2];
    if cmd != CMD_READ && cmd != CMD_WRITE {
        return None;
    }
    let value: [u8; 4] = [data[4], data[5], data[6], data[7]];
    assert(value@ =~= data@.subrange(4, 8));
    Some(RegReply { can_id: data[0], rid: data[3], value })
}

/// A written integer is read back: the echo of a write request names its motor,
/// its register and its value.
pub proof fn law_int_write_reads_back(can_id: u8, rid: u8, value: i32)
    ensures
        reply_in(
            register_payload(can_id, 0x55, rid, bytes::twos_complement(value as int, 4)),
        ) matches Some(r) && r.can_id == can_id && r.rid == rid && r.int_value() == value,
{
    let u = bytes::twos_complement(value as int, 4);
    bytes::lemma_pow256_values();
    bytes::lemma_le_bytes_len(u, 4);
    bytes::law_signed_value_of_twos_complement(value as int, 4);
    bytes::law_le_value_of_le_bytes(u, 4);
    assert(register_payload(can_id, 0x55, rid, u).subrange(4, 8) =~= bytes::le_bytes(u, 4));
}

/// A written float is read back, bit for bit.
pub proof fn law_float_write_reads_back(can_id: u8, rid: u8, value_bits: u32)
    ensures
        reply_in(register_payload(can_id, 0x55, rid, value_bits as nat)) matches Some(r)
            && r.can_id == can_id && r.rid == rid && r.bits() == value_bits,
{
    let u = value_bits as nat;
    bytes::lemma_pow256_values();
    bytes::lemma_le_bytes_len(u, 4);
    bytes::law_le_value_of_le_bytes(u, 4);
    assert(register_payload(can_id, 0x55, rid, u).subrange(4, 8) =~= bytes::le_bytes(u, 4));
}

/// Neither a save request nor a special command is ever taken for a register
/// reply.
pub proof fn law_only_reads_and_writes_reply(can_id: u8, cmd: u8)
    ensures
        reply_in(register_payload(can_id, 0xAA, 0x01, 0)) is None,
        reply_in(crate::damiao::frame::special_payload(cmd)) is None,
{
}

/// A request about a register goes out with the motor, what is asked, the register
/// and the value, low byte first; and the value can be read off it.
pub proof fn law_register_request_fields(can_id: u8, cmd: u8, rid: u8, value: nat)
    requires
        value < 0x1_0000_0000,
    ensures
        ({
            let p = register_payload(can_id, cmd, rid, value);
            &&& p.len() == 8
            &&& p[0] == can_id
            &&& p[1] == 0
            &&& p[2] == cmd
            &&& p[3] == rid
            &&& p[4] + 0x100 * p[5] + 0x1_0000 * p[6] + 0x100_0000 * p[7] == value
        }),
{
    bytes::lemma_pow256_values();
    bytes::lemma_le_bytes_len(value, 4);
    bytes::law_le_value_of_le_bytes(value, 4);
    bytes::law_value_of_four_bytes(bytes::le_bytes(value, 4));
}

/// A reply is a frame of a read or a write. It names the motor and the register,
/// and its value is spelt in its last four bytes, low byte first.
pub proof fn law_reply_fields(data: Seq<u8>)
    ensures
        reply_in(data) is Some <==> data.len() >= 8 && (data[2] == 0x33 || data[2] == 0x55),
        reply_in(data) matches Some(r) ==> {
            &&& r.can_id == data[0]
            &&& r.rid == data[3]
            &&& r.bits() == data[4] + 0x100 * data[5] + 0x1_0000 * data[6] + 0x100_0000 * data[7]
            &&& r.int_value() == (if data[7] >= 0x80 {
                r.bits() - 0x1_0000_0000
            } else {
                r.bits() as int
            })
        },
{
    if reply_in(data) is Some {
        bytes::lemma_pow256_values();
        bytes::law_value_of_four_bytes(data.subrange(4, 8));
    }
}

/// The control modes have the numbers 1 to 4, one each.
pub proof fn law_numbers_of_the_modes(m: ControlMode)
    ensures
        m.value() == 1 <==> m == ControlMode::Mit,
        m.value() == 2 <==> m == ControlMode::PosVel,
        m.value() == 3 <==> m == ControlMode::Vel,
        m.value() == 4 <==> m == ControlMode::ForcePos,
{
}

/// The registers that hold integers, one by one; all others hold numbers with a
/// fraction.
pub proof fn law_registers_that_hold_integers(rid: u8)
    ensures
        holds_int(rid) <==> set![7u8, 8, 9, 10, 13, 14, 15, 16, 35, 36].contains(rid),
        Rid::MST_ID == 7,
        Rid::ESC_ID == 8,
        Rid::CTRL_MODE == 10,
        Rid::PMAX == 21,
        Rid::VMAX == 22,
        Rid::TMAX == 23,
{
}

} // verus!
