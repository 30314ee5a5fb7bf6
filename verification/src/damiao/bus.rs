//! The CAN bus that DAMIAO motors sit on.
use crate::canbus;
use crate::canbus::{classic_frame, fd_frame, standard_id, FrameId};
use crate::damiao::error::Error;
use vstd::prelude::*;
use vstd::slice::slice_to_vec;

verus! {

/// A CAN frame with a standard id.
#[derive(Debug, Clone)]
pub struct CanFrame {
    /// The id, `0..=0x7FF`.
    pub can_id: u16,
    /// The data bytes.
    pub data: Vec<u8>,
}

/// What a driver does to a bus besides listening.
pub enum Action {
    /// A frame was sent.
    Send { can_id: u16, data: Seq<u8>, result: Result<(), Error> },
    /// The receive timeout was set, in nanoseconds.
    SetTimeout { timeout_ns: u64, result: Result<(), Error> },
}

/// An action and everything that was received before the next one.
pub struct Phase {
    pub action: Option<Action>,
    pub heard: Seq<Result<CanFrame, Error>>,
}

/// A history after one more action.
pub open spec fn acted(history: Seq<Phase>, action: Action) -> Seq<Phase> {
    history.push(Phase { action: Some(action), heard: Seq::empty() })
}

/// A history after one more receive.
pub open spec fn heard(history: Seq<Phase>, r: Result<CanFrame, Error>) -> Seq<Phase> {
    if history.len() == 0 {
        seq![Phase { action: None, heard: seq![r] }]
    } else {
        history.drop_last().push(
            Phase { action: history.last().action, heard: history.last().heard.push(r) },
        )
    }
}

/// CAN transport for DAMIAO motors.
pub trait DamiaoBus {
    /// Everything that was sent and received so far, oldest first. The default is
    /// a constant, which nothing that sends can keep to: an implementation that
    /// leaves it, as one outside of verified code may, does not meet this trait's
    /// contract, and nothing that is proved of drivers over histories applies to
    /// it.
    open spec fn history(&self) -> Seq<Phase> {
        arbitrary()
    }

    /// Sends one frame to the standard id `can_id`.
    fn send(&mut self, can_id: u16, data: &[u8]) -> (r: Result<(), Error>)
        ensures
            final(self).history() == acted(
                old(self).history(),
                Action::Send { can_id, data: data@, result: r },
            ),
    ;

    /// Receives the next frame, or gives [`Error::Timeout`] (with motor id 0) if
    /// none comes in time.
    fn recv(&mut self) -> (r: Result<CanFrame, Error>)
        ensures
            final(self).history() == heard(old(self).history(), r),
    ;

    /// Sets the receive timeout, in nanoseconds.
    fn set_timeout(&mut self, timeout_ns: u64) -> (r: Result<(), Error>)
        ensures
            final(self).history() == acted(
                old(self).history(),
                Action::SetTimeout { timeout_ns, result: r },
            ),
    ;
}

/// Checks that `can_id` is a standard id.
pub fn std_id(can_id: u16) -> (r: Result<u16, Error>)
    ensures
        match r {
            Ok(id) => can_id <= canbus::STANDARD_MAX && id == can_id,
            Err(e) => can_id > canbus::STANDARD_MAX && (e matches Error::InvalidFrame(s) && s@
                == "CAN ID exceeds 11 bits"@),
        },
{
    match standard_id(can_id) {
        Some(id) => Ok(id),
        None => Err(Error::InvalidFrame("CAN ID exceeds 11 bits")),
    }
}

/// The classic frame to send for `data`: the id is checked first, then the
/// length.
pub fn encode_classic(can_id: u16, data: &[u8]) -> (r: Result<CanFrame, Error>)
    ensures
        match r {
            Ok(f) => {
                &&& can_id <= canbus::STANDARD_MAX
                &&& data.len() <= canbus::CLASSIC_MAX
                &&& f.can_id == can_id
                &&& f.data@ == data@
            },
            Err(Error::InvalidFrame(s)) => if can_id > canbus::STANDARD_MAX {
                s@ == "CAN ID exceeds 11 bits"@
            } else {
                data.len() > canbus::CLASSIC_MAX && s@ == "payload too long for classic CAN frame"@
            },
            Err(_) => false,
        },
{
    let id: u16 = std_id(can_id)?;
    match classic_frame(FrameId::Standard(id), data) {
        Some(held) => Ok(CanFrame { can_id: id, data: held }),
        None => Err(Error::InvalidFrame("payload too long for classic CAN frame")),
    }
}

/// The FD frame to send for `data`: the id is checked first, then the length.
pub fn encode_fd(can_id: u16, data: &[u8]) -> (r: Result<CanFrame, Error>)
    ensures
        match r {
            Ok(f) => {
                &&& can_id <= canbus::STANDARD_MAX
                &&& data.len() <= canbus::FD_MAX
                &&& f.can_id == can_id
                &&& f.data@ == canbus::fd_data(data@)
            },
            Err(Error::InvalidFrame(s)) => if can_id > canbus::STANDARD_MAX {
                s@ == "CAN ID exceeds 11 bits"@
            } else {
                data.len() > canbus::FD_MAX && s@ == "payload too long for CAN-FD frame"@
            },
            Err(_) => false,
        },
{
    let id: u16 = std_id(can_id)?;
    match fd_frame(FrameId::Standard(id), data) {
        Some(held) => Ok(CanFrame { can_id: id, data: held }),
        None => Err(Error::InvalidFrame("payload too long for CAN-FD frame")),
    }
}

/// A received frame, if it has a standard id.
pub fn decode_std(id: FrameId, data: &[u8]) -> (r: Option<CanFrame>)
    ensures
        match id {
            FrameId::Standard(raw) => r matches Some(f) && f.can_id == raw && f.data@ == data@,
            FrameId::Extended(_) => r is None,
        },
{
    match id {
        FrameId::Standard(raw) => Some(CanFrame { can_id: raw, data: slice_to_vec(data) }),
        FrameId::Extended(_) => None,
    }
}

/// What a read from a CAN socket brought.
pub enum SocketEvent<'a> {
    /// A data frame.
    Frame(FrameId, &'a [u8]),
    /// A frame without data of its own (remote or error).
    NoData,
    /// Nothing, for as long as the timeout allows.
    Quiet,
    /// A failure, with this message.
    Failed(String),
}

/// What a receive makes of a read: a result, or nothing where it reads on because
/// the frame is none of this protocol.
pub fn received(event: SocketEvent) -> (r: Option<Result<CanFrame, Error>>)
    ensures
        match event {
            SocketEvent::Frame(FrameId::Standard(raw), data) => {
                r matches Some(Ok(f)) && f.can_id == raw && f.data@ == data@
            },
            SocketEvent::Frame(FrameId::Extended(_), _) | SocketEvent::NoData => r is None,
            SocketEvent::Quiet => r == Some(
                Err::<CanFrame, Error>(Error::Timeout { motor_id: 0 }),
            ),
            SocketEvent::Failed(message) => r == Some(
                Err::<CanFrame, Error>(Error::CanSocket(message)),
            ),
        },
{
    match event {
        SocketEvent::Frame(id, data) => match decode_std(id, data) {
            Some(f) => Some(Ok(f)),
            None => None,
        },
        SocketEvent::NoData => None,
        SocketEvent::Quiet => Some(Err(Error::Timeout { motor_id: 0 })),
        SocketEvent::Failed(message) => Some(Err(Error::CanSocket(message))),
    }
}

} // verus!
