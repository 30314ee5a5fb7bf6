//! The CAN bus that Robstride motors sit on.
use crate::canbus;
use crate::canbus::{classic_frame, extended_id, FrameId};
use crate::robstride::error::Error;
use vstd::prelude::*;
use vstd::slice::slice_to_vec;

verus! {

/// A CAN frame with an extended id.
#[derive(Debug, Clone)]
pub struct CanFrame {
    /// The id, 29 bits.
    pub can_id: u32,
    /// The data bytes.
    pub data: Vec<u8>,
}

/// What a driver does to a bus besides listening.
pub enum Action {
    /// A frame was sent.
    Send { can_id: u32, data: Seq<u8>, result: Result<(), Error> },
    /// The receive timeout was set, in nanoseconds.
    SetTimeout { timeout_ns: u64, result: Result<(), Error> },
}

/// An action and everything that was received before the next one.
pub struct Phase {
    pub action: Option<Action>,
    pub heard: Seq<Result<CanFrame, Error>>,
}

/// A history after one more action.
pub open spec fn acted(history: Seq<Phase>, action: Action) -> Seq<Phase> {
    history.push(Phase { action: Some(action), heard: Seq::empty() })
}

/// A history after one more receive.
pub open spec fn heard(history: Seq<Phase>, r: Result<CanFrame, Error>) -> Seq<Phase> {
    if history.len() == 0 {
        seq![Phase { action: None, heard: seq![r] }]
    } else {
        history.drop_last().push(
            Phase { action: history.last().action, heard: history.last().heard.push(r) },
        )
    }
}

/// That exactly one phase was added.
pub open spec fn one_phase(before: Seq<Phase>, after: Seq<Phase>) -> bool {
    after.len() == before.len() + 1 && after.drop_last() == before
}

/// What became of the frame that was sent in `p`.
pub open spec fn send_result(p: Phase) -> Result<(), Error> {
    p.action->Some_0->Send_result
}

/// That this frame was sent in `p`, and nothing received if sending failed.
pub open spec fn sent(p: Phase, can_id: u32, data: Seq<u8>) -> bool {
    &&& p.action matches Some(Action::Send { can_id: c, data: d, .. }) && c == can_id && d == data
    &&& send_result(p) is Err ==> p.heard.len() == 0
}

/// CAN transport for Robstride motors.
pub trait RobstrideBus {
    /// Everything that was sent and received so far, oldest first. The default is
    /// a constant, which nothing that sends can keep to: an implementation that
    /// leaves it, as one outside of verified code may, does not meet this trait's
    /// contract, and nothing that is proved of drivers over histories applies to
    /// it.
    open spec fn history(&self) -> Seq<Phase> {
        arbitrary()
    }

    /// Sends one frame.
    fn send(&mut self, can_id: u32, data: &[u8]) -> (r: Result<(), Error>)
        ensures
            final(self).history() == acted(
                old(self).history(),
                Action::Send { can_id, data: data@, result: r },
            ),
    ;

    /// Receives the next frame, or gives [`Error::Timeout`] (with motor id 0) if
    /// none comes in time.
    fn recv(&mut self) -> (r: Result<CanFrame, Error>)
        ensures
            final(self).history() == heard(old(self).history(), r),
    ;

    /// Sets the receive timeout, in nanoseconds.
    fn set_timeout(&mut self, timeout_ns: u64) -> (r: Result<(), Error>)
        ensures
            final(self).history() == acted(
                old(self).history(),
                Action::SetTimeout { timeout_ns, result: r },
            ),
    ;
}

/// The frame to send for `data`: the id is checked first, then the length.
pub fn encode_extended(can_id: u32, data: &[u8]) -> (r: Result<CanFrame, Error>)
    ensures
        match r {
            Ok(f) => {
                &&& can_id <= canbus::EXTENDED_MAX
                &&& data.len() <= canbus::CLASSIC_MAX
                &&& f.can_id == can_id
                &&& f.data@ == data@
            },
            Err(Error::InvalidFrame(s)) => if can_id > canbus::EXTENDED_MAX {
                s@ == "CAN ID exceeds 29 bits"@
            } else {
                data.len() > canbus::CLASSIC_MAX && s@ == "payload too long for CAN frame"@
            },
            Err(_) => false,
        },
{
    match extended_id(can_id) {
        Some(id) => match classic_frame(FrameId::Extended(id), data) {
            Some(held) => Ok(CanFrame { can_id: id, data: held }),
            None => Err(Error::InvalidFrame("payload too long for CAN frame")),
        },
        None => Err(Error::InvalidFrame("CAN ID exceeds 29 bits")),
    }
}

/// What a read from a CAN socket brought.
pub enum SocketEvent<'a> {
    /// A frame.
    Frame(FrameId, &'a [u8]),
    /// Nothing, for as long as the timeout allows.
    Quiet,
    /// A failure, with this message.
    Failed(String),
}

/// What a receive makes of a read: a result, or nothing where it reads on because
/// the frame has a standard id.
pub fn received(event: SocketEvent) -> (r: Option<Result<CanFrame, Error>>)
    ensures
        match event {
            SocketEvent::Frame(FrameId::Extended(raw), data) => {
                r matches Some(Ok(f)) && f.can_id == raw && f.data@ == data@
            },
            SocketEvent::Frame(FrameId::Standard(_), _) => r is None,
            SocketEvent::Quiet => r == Some(
                Err::<CanFrame, Error>(Error::Timeout { motor_id: 0 }),
            ),
            SocketEvent::Failed(message) => r == Some(
                Err::<CanFrame, Error>(Error::CanSocket(message)),
            ),
        },
{
    match event {
        SocketEvent::Frame(FrameId::Extended(raw), data) => Some(
            Ok(CanFrame { can_id: raw, data: slice_to_vec(data) }),
        ),
        SocketEvent::Frame(FrameId::Standard(_), _) => None,
        SocketEvent::Quiet => Some(Err(Error::Timeout { motor_id: 0 })),
        SocketEvent::Failed(message) => Some(Err(Error::CanSocket(message))),
    }
}

} // verus!
