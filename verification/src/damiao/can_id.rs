//! CAN ids: every control mode of a motor has a standard 11-bit id of its own.
use vstd::prelude::*;

verus! {

/// Channel of MIT commands: the motor's own id.
pub fn mit_id(can_id: u8) -> (r: u16)
    ensures
        r == channel_id(0, can_id),
{
    can_id as u16
}

/// Channel of position-velocity commands.
pub fn pos_vel_id(can_id: u8) -> (r: u16)
    ensures
        r == channel_id(1, can_id),
{
    0x100 + can_id as u16
}

/// Channel of velocity commands.
pub fn vel_id(can_id: u8) -> (r: u16)
    ensures
        r == channel_id(2, can_id),
{
    0x200 + can_id as u16
}

/// Channel of force-position commands.
pub fn force_pos_id(can_id: u8) -> (r: u16)
    ensures
        r == channel_id(3, can_id),
{
    0x300 + can_id as u16
}

/// Channel on which registers are read, written and saved.
pub const REGISTER_ID: u16 = 0x7FF;

/// Whether a frame came on the id that a motor answers on.
pub fn is_feedback_from(can_id: u16, mst_id: u16) -> (r: bool)
    ensures
        r == (can_id == mst_id),
{
    can_id == mst_id
}

/// The id of a motor's channel, `mode` being 0 for MIT, 1 for position-velocity,
/// 2 for velocity, 3 for force-position.
pub open spec fn channel_id(mode: nat, can_id: u8) -> nat {
    0x100 * mode + can_id as nat
}

/// Channels never meet: two motors, or two modes of one motor, have different
/// ids, and none of them is the register channel. All are 11-bit ids.
pub proof fn law_channels_are_disjoint(mode_a: nat, a: u8, mode_b: nat, b: u8)
    requires
        mode_a < 4,
        mode_b < 4,
    ensures
        channel_id(mode_a, a) == channel_id(mode_b, b) ==> mode_a == mode_b && a == b,
        channel_id(mode_a, a) < REGISTER_ID,
        REGISTER_ID <= 0x7FF,
{
}

/// From the id of a channel both can be told: the motor by its low byte, the mode
/// by what is above it.
pub proof fn law_channel_tells_mode_and_motor(mode: nat, can_id: u8)
    ensures
        channel_id(mode, can_id) % 0x100 == can_id,
        channel_id(mode, can_id) / 0x100 == mode,
        channel_id(0, can_id) == can_id,
{
}

} // verus!
