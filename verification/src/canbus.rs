//! CAN identifiers and frames, as the SocketCAN library bounds them.
use socketcan::{CanFdFrame, EmbeddedFrame, ExtendedId, Id, StandardId};
use vstd::prelude::*;

verus! {

/// A CAN identifier.
#[derive(Debug, Clone, Copy, PartialEq, Eq, Structural)]
pub enum FrameId {
    /// 11 bits.
    Standard(u16),
    /// 29 bits.
    Extended(u32),
}

/// The highest standard id.
pub const STANDARD_MAX: u16 = 0x7FF;

/// The highest extended id.
pub const EXTENDED_MAX: u32 = 0x1FFF_FFFF;

impl FrameId {
    /// Whether the id fits its width.
    pub open spec fn fits(self) -> bool {
        match self {
            FrameId::Standard(raw) => raw <= STANDARD_MAX,
            FrameId::Extended(raw) => raw <= EXTENDED_MAX,
        }
    }
}

/// Most data bytes of a classic frame.
pub const CLASSIC_MAX: usize = 8;

/// Most data bytes of an FD frame.
pub const FD_MAX: usize = 64;

/// The length of an FD frame that holds `len` data bytes: lengths above 8 go in
/// steps.
pub open spec fn fd_len(len: nat) -> nat {
    if len <= 8 {
        len
    } else if len <= 12 {
        12
    } else if len <= 16 {
        16
    } else if len <= 20 {
        20
    } else if len <= 24 {
        24
    } else if len <= 32 {
        32
    } else if len <= 48 {
        48
    } else {
        64
    }
}

/// The data of an FD frame that was made from `data`: filled with zeros to the
/// next length that there is.
pub open spec fn fd_data(data: Seq<u8>) -> Seq<u8> {
    data + Seq::new((fd_len(data.len()) - data.len()) as nat, |i: int| 0u8)
}

/// `StandardId::new` and `as_raw` of the embedded-can crate, which socketcan
/// re-exports: an id is made of every number up to `0x7FF` and of no other, and
/// gives that number back.
#[verifier::external_body]
pub(crate) fn standard_id(raw: u16) -> (r: Option<u16>)
    ensures
        r == (if raw <= STANDARD_MAX {
            Some(raw)
        } else {
            None
        }),
{
    StandardId::new(raw).map(|id| id.as_raw())
}

/// `ExtendedId::new` and `as_raw` of the embedded-can crate, which socketcan
/// re-exports: an id is made of every number up to `0x1FFF_FFFF` and of no other,
/// and gives that number back.
#[verifier::external_body]
pub(crate) fn extended_id(raw: u32) -> (r: Option<u32>)
    ensures
        r == (if raw <= EXTENDED_MAX {
            Some(raw)
        } else {
            None
        }),
{
    ExtendedId::new(raw).map(|id| id.as_raw())
}

/// `CanFrame::new` and `data` of the socketcan crate, for an id that fits: a
/// classic frame is made of every eight data bytes or fewer, and holds them;
/// none is made of more.
#[verifier::external_body]
pub(crate) fn classic_frame(id: FrameId, data: &[u8]) -> (r: Option<Vec<u8>>)
    requires
        id.fits(),
    ensures
        r is Some <==> data.len() <= CLASSIC_MAX,
        r matches Some(held) ==> held@ == data@,
{
    let id: Id = match id {
        FrameId::Standard(raw) => Id::Standard(StandardId::new(raw)?),
        FrameId::Extended(raw) => Id::Extended(ExtendedId::new(raw)?),
    };
    socketcan::CanFrame::new(id, data).map(|frame| frame.data().to_vec())
}

/// `CanFdFrame::new` and `data` of the socketcan crate, for an id that fits: an
/// FD frame is made of every 64 data bytes or fewer, and holds them, filled with
/// zeros to the next length that FD frames can have; none is made of more.
#[verifier::external_body]
pub(crate) fn fd_frame(id: FrameId, data: &[u8]) -> (r: Option<Vec<u8>>)
    requires
        id.fits(),
    ensures
        r is Some <==> data.len() <= FD_MAX,
        r matches Some(held) ==> held@ == fd_data(data@),
{
    let id: Id = match id {
        FrameId::Standard(raw) => Id::Standard(StandardId::new(raw)?),
        FrameId::Extended(raw) => Id::Extended(ExtendedId::new(raw)?),
    };
    CanFdFrame::new(id, data).map(|frame| frame.data().to_vec())
}

/// Whether an FD frame can have this many data bytes.
pub open spec fn is_fd_len(len: nat) -> bool {
    len <= 8 || len == 12 || len == 16 || len == 20 || len == 24 || len == 32 || len == 48 || len
        == 64
}

/// Data is put into the shortest FD frame that holds it, before zeros.
pub proof fn law_fd_frame_is_the_shortest(data: Seq<u8>, other: nat, i: int)
    requires
        data.len() <= 64,
    ensures
        is_fd_len(fd_len(data.len())),
        data.len() <= fd_len(data.len()),
        is_fd_len(other) && data.len() <= other ==> fd_len(data.len()) <= other,
        fd_data(data).len() == fd_len(data.len()),
        0 <= i < data.len() ==> fd_data(data)[i] == data[i],
        data.len() <= i < fd_data(data).len() ==> fd_data(data)[i] == 0,
{
}

/// Standard ids have 11 bits, extended ids 29.
pub proof fn law_widths_of_ids(standard: u16, extended: u32)
    ensures
        FrameId::Standard(standard).fits() <==> standard < 2048,
        FrameId::Extended(extended).fits() <==> extended < 536_870_912,
{
}

} // verus!
