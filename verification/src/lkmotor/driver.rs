//! The RS485 side of the driver: what goes on the wire, and how responses are
//! found in what comes back.
//!
//! The serial port itself is not held here. Its owner writes the bytes that
//! [`Rs485Driver::send_raw`] gives, reports what each read brought, and is told
//! whether to read on or what to return.
use crate::lkmotor::bus::Response;
use crate::lkmotor::error::Error;
use crate::lkmotor::frame;
use crate::lkmotor::frame::{encode, try_decode, DecodeError, MAX_FRAME};
use crate::lkmotor::motor_id::MotorId;
use vstd::prelude::*;
use vstd::slice::slice_to_vec;

verus! {

/// What happened at the serial port.
pub enum RxEvent<'a> {
    /// Nothing yet: an operation starts.
    Start,
    /// A read brought these bytes.
    Bytes(&'a [u8]),
    /// A read timed out or would have blocked.
    Quiet,
    /// The time for the operation is over.
    Expired,
    /// A read failed, with this message.
    Failed(String),
}

/// What the owner of the serial port does next.
pub enum RxAction<T> {
    /// Read once more (or report that the time is over).
    Read,
    /// Return this.
    Done(Result<T, Error>),
}

/// Receive buffer of an RS485 bus.
pub struct Rs485Driver {
    rx_buf: Vec<u8>,
    dropped: Vec<(u8, u8)>,
}

impl View for Rs485Driver {
    type V = Seq<u8>;

    /// The bytes that were read and not consumed yet.
    closed spec fn view(&self) -> Seq<u8> {
        self.rx_buf@
    }
}

/// Looks for the next response from motor `id` in `buf`: frames of other motors
/// are dropped, bytes before a start byte are dropped one by one, a damaged
/// frame ends the search and stays where it is. Gives what is left of `buf`, and
/// the response or the damage, or neither where more bytes are needed.
pub open spec fn receive(buf: Seq<u8>, id: u8) -> (Seq<u8>, Option<
    Result<frame::FrameView, DecodeError>,
>)
    decreases buf.len(),
{
    match frame::decode_spec(buf) {
        Ok((f, used)) => if f.motor_id == id {
            (buf.skip(used as int), Some(Ok(f)))
        } else {
            receive(buf.skip(used as int), id)
        },
        Err(DecodeError::NeedMore { .. }) => (buf, None),
        Err(DecodeError::BadHeader { .. }) => receive(buf.skip(1), id),
        Err(e) => (buf, Some(Err(e))),
    }
}

/// The frames of other motors that the search in `buf` drops, by command and
/// motor, in order.
pub open spec fn foreign_frames(buf: Seq<u8>, id: u8) -> Seq<(u8, u8)>
    decreases buf.len(),
{
    match frame::decode_spec(buf) {
        Ok((f, used)) => if f.motor_id == id {
            Seq::empty()
        } else {
            seq![(f.command, f.motor_id)] + foreign_frames(buf.skip(used as int), id)
        },
        Err(DecodeError::BadHeader { .. }) => foreign_frames(buf.skip(1), id),
        Err(_) => Seq::empty(),
    }
}

/// The frame in a response.
pub open spec fn response_view(r: Response) -> frame::FrameView {
    frame::FrameView { command: r.command, motor_id: r.motor_id, data: r.data@ }
}

/// That `action` says what the search found.
pub open spec fn action_reports(
    action: RxAction<Response>,
    found: Option<Result<frame::FrameView, DecodeError>>,
) -> bool {
    match found {
        None => action is Read,
        Some(Ok(f)) => action matches RxAction::Done(Ok(resp)) && response_view(resp) == f,
        Some(Err(e)) => action == RxAction::Done::<Response>(Err(Error::Decode(e))),
    }
}

/// The bytes that an event brings.
pub open spec fn event_bytes(event: RxEvent) -> Seq<u8> {
    match event {
        RxEvent::Bytes(b) => b@,
        _ => Seq::empty(),
    }
}

/// Only frames of other motors are ever dropped as such.
pub proof fn law_dropped_frames_are_foreign(buf: Seq<u8>, id: u8, i: int)
    requires
        0 <= i < foreign_frames(buf, id).len(),
    ensures
        foreign_frames(buf, id)[i].1 != id,
    decreases buf.len(),
{
    match frame::decode_spec(buf) {
        Ok((f, used)) => {
            if f.motor_id != id && i > 0 {
                law_dropped_frames_are_foreign(buf.skip(used as int), id, i - 1);
            }
        },
        Err(DecodeError::BadHeader { .. }) => {
            law_dropped_frames_are_foreign(buf.skip(1), id, i);
        },
        _ => {},
    }
}

/// A frame of another motor in front is dropped and told of, before all that is
/// dropped after it.
pub proof fn law_a_foreign_frame_is_told(f: frame::FrameView, rest: Seq<u8>, id: u8)
    requires
        f.data.len() <= frame::MAX_DATA,
        f.motor_id != id,
    ensures
        foreign_frames(frame::frame_bytes(f) + rest, id) == seq![(f.command, f.motor_id)]
            + foreign_frames(rest, id),
{
    frame::law_decode_of_frame_bytes(f, rest);
    let n = frame::frame_bytes(f).len() as int;
    assert((frame::frame_bytes(f) + rest).skip(n) =~= rest);
}

/// It makes no difference in how many pieces a stream arrives: searching what
/// was left of the first piece together with the second gives what searching
/// both at once gives, and a find in the first piece is the same find.
pub proof fn law_receive_in_pieces(buf: Seq<u8>, more: Seq<u8>, id: u8)
    ensures
        receive(buf, id).1 is None ==> receive(buf + more, id) == receive(
            receive(buf, id).0 + more,
            id,
        ),
        receive(buf, id).1 is Some ==> receive(buf + more, id) == (
            receive(buf, id).0 + more,
            receive(buf, id).1,
        ),
    decreases buf.len(),
{
    match frame::decode_spec(buf) {
        Ok((f, used)) => {
            frame::law_decided_decode_stands(buf, more);
            assert((buf + more).skip(used as int) =~= buf.skip(used as int) + more);
            if f.motor_id != id {
                law_receive_in_pieces(buf.skip(used as int), more, id);
            }
        },
        Err(DecodeError::NeedMore { .. }) => {},
        Err(DecodeError::BadHeader { .. }) => {
            frame::law_decided_decode_stands(buf, more);
            assert((buf + more).skip(1) =~= buf.skip(1) + more);
            law_receive_in_pieces(buf.skip(1), more, id);
        },
        Err(_) => {
            frame::law_decided_decode_stands(buf, more);
        },
    }
}

/// The search only ever drops bytes from the front.
pub proof fn law_receive_leaves_a_suffix(buf: Seq<u8>, id: u8)
    ensures
        receive(buf, id).0.len() <= buf.len(),
        receive(buf, id).0 == buf.skip(buf.len() - receive(buf, id).0.len()),
    decreases buf.len(),
{
    match frame::decode_spec(buf) {
        Ok((f, used)) => {
            if f.motor_id != id {
                law_receive_leaves_a_suffix(buf.skip(used as int), id);
                let rest = receive(buf.skip(used as int), id).0;
                assert(buf.skip(used as int).skip(buf.len() - used - rest.len()) =~= buf.skip(
                    buf.len() - rest.len(),
                ));
            }
        },
        Err(DecodeError::BadHeader { .. }) => {
            law_receive_leaves_a_suffix(buf.skip(1), id);
            let rest = receive(buf.skip(1), id).0;
            assert(buf.skip(1).skip(buf.len() - 1 - rest.len()) =~= buf.skip(
                buf.len() - rest.len(),
            ));
        },
        _ => {
            assert(buf.skip(0) =~= buf);
        },
    }
}

/// A response is found behind any noise that holds no start byte, and nothing
/// behind it is touched.
pub proof fn law_response_found_after_noise(noise: Seq<u8>, f: frame::FrameView, rest: Seq<u8>)
    requires
        f.data.len() <= frame::MAX_DATA,
        forall|i: int| 0 <= i < noise.len() ==> noise[i] != frame::HEADER,
    ensures
        receive(noise + frame::frame_bytes(f) + rest, f.motor_id) == (
            rest,
            Some(Ok::<frame::FrameView, DecodeError>(f)),
        ),
    decreases noise.len(),
{
    let wire = frame::frame_bytes(f) + rest;
    let buf = noise + frame::frame_bytes(f) + rest;
    if noise.len() == 0 {
        assert(buf =~= wire);
        frame::law_decode_of_frame_bytes(f, rest);
        assert(wire.skip(frame::frame_bytes(f).len() as int) =~= rest);
    } else {
        law_response_found_after_noise(noise.skip(1), f, rest);
        assert(buf.skip(1) =~= noise.skip(1) + frame::frame_bytes(f) + rest);
        assert(buf[0] == noise[0]);
    }
}

/// Frames of other motors are passed over whole.
pub proof fn law_foreign_frame_is_dropped(f: frame::FrameView, rest: Seq<u8>, id: u8)
    requires
        f.data.len() <= frame::MAX_DATA,
        f.motor_id != id,
    ensures
        receive(frame::frame_bytes(f) + rest, id) == receive(rest, id),
{
    frame::law_decode_of_frame_bytes(f, rest);
    let wire = frame::frame_bytes(f) + rest;
    assert(wire.skip(frame::frame_bytes(f).len() as int) =~= rest);
}

/// A response that is handed over comes from the motor that was asked.
pub proof fn law_received_response_is_from(buf: Seq<u8>, id: u8)
    ensures
        receive(buf, id).1 matches Some(Ok(f)) ==> f.motor_id == id && f.data.len()
            <= frame::MAX_DATA,
    decreases buf.len(),
{
    match frame::decode_spec(buf) {
        Ok((f, used)) => {
            if f.motor_id != id {
                law_received_response_is_from(buf.skip(used as int), id);
            }
        },
        Err(DecodeError::BadHeader { .. }) => {
            law_received_response_is_from(buf.skip(1), id);
        },
        _ => {},
    }
}

impl Rs485Driver {
    /// The frames of other motors that were dropped, by command and motor, since
    /// they were asked for last.
    pub closed spec fn dropped(&self) -> Seq<(u8, u8)> {
        self.dropped@
    }

    /// An empty receive buffer.
    pub fn new() -> (r: Self)
        ensures
            r@ == Seq::<u8>::empty(),
            r.dropped() == Seq::<(u8, u8)>::empty(),
    {
        Rs485Driver { rx_buf: Vec::with_capacity(MAX_FRAME * 2), dropped: Vec::new() }
    }

    /// The frames of other motors that were dropped, by command and motor, since
    /// this was asked last.
    pub fn take_dropped(&mut self) -> (r: Vec<(u8, u8)>)
        ensures
            r@ == old(self).dropped(),
            final(self).dropped() == Seq::<(u8, u8)>::empty(),
            final(self)@ == old(self)@,
    {
        let mut out: Vec<(u8, u8)> = Vec::new();
        out.append(&mut self.dropped);
        assert(out@ =~= old(self).dropped());
        out
    }

    /// The bytes to write for a request.
    pub fn send_raw(&self, command: u8, motor_id: MotorId, data: &[u8]) -> (r: Result<
        Vec<u8>,
        Error,
    >)
        ensures
            match r {
                Ok(wire) => data.len() <= frame::MAX_DATA && wire@ == frame::frame_bytes(
                    frame::FrameView { command, motor_id: motor_id@, data: data@ },
                ),
                Err(e) => data.len() > frame::MAX_DATA && e == Error::Encode(
                    frame::EncodeError::DataTooLong { got: data.len() },
                ),
            },
    {
        let mut buf: [u8; MAX_FRAME] = [0; MAX_FRAME];
        match encode(command, motor_id.get(), data, &mut buf) {
            Ok(n) => {
                let wire = slice_to_vec(&buf[0..n]);
                assert(wire@ =~= frame::frame_bytes(
                    frame::FrameView { command, motor_id: motor_id@, data: data@ },
                ));
                Ok(wire)
            },
            Err(e) => Err(Error::Encode(e)),
        }
    }

    /// Drops `n` bytes from the front of the buffer.
    fn consume(&mut self, n: usize)
        requires
            n <= old(self)@.len(),
        ensures
            final(self)@ == old(self)@.skip(n as int),
            final(self).dropped() == old(self).dropped(),
    {
        let rest = self.rx_buf.split_off(n);
        self.rx_buf = rest;
        assert(self@ =~= old(self)@.skip(n as int));
    }

    /// Waits for the next response from `motor_id`: takes what happened at the
    /// port and says whether to read on or what to return. Bytes are searched as
    /// soon as they are there; the time limit and a failed read only count while
    /// there is nothing to return.
    pub fn recv_for(&mut self, motor_id: MotorId, event: RxEvent) -> (r: RxAction<Response>)
        ensures
            match event {
                RxEvent::Expired => {
                    &&& r == RxAction::Done::<Response>(
                        Err(Error::Timeout { motor_id: motor_id@ }),
                    )
                    &&& final(self)@ == old(self)@
                    &&& final(self).dropped() == old(self).dropped()
                },
                RxEvent::Failed(message) => {
                    &&& r == RxAction::Done::<Response>(Err(Error::Io(message)))
                    &&& final(self)@ == old(self)@
                    &&& final(self).dropped() == old(self).dropped()
                },
                _ => {
                    let found = receive(old(self)@ + event_bytes(event), motor_id@);
                    &&& final(self)@ == found.0
                    &&& action_reports(r, found.1)
                    &&& final(self).dropped() == old(self).dropped() + foreign_frames(
                        old(self)@ + event_bytes(event),
                        motor_id@,
                    )
                },
            },
    {
        match event {
            RxEvent::Expired => {
                return RxAction::Done(Err(Error::Timeout { motor_id: motor_id.get() }));
            },
            RxEvent::Failed(message) => {
                return RxAction::Done(Err(Error::Io(message)));
            },
            RxEvent::Bytes(bytes) => {
                self.rx_buf.extend_from_slice(bytes);
                assert(self@ =~= old(self)@ + bytes@);
            },
            _ => {
                assert(self@ =~= old(self)@ + event_bytes(event));
            },
        }
        let ghost all = self@;
        loop
            invariant
                !(event is Expired || event is Failed),
                all == old(self)@ + event_bytes(event),
                receive(self@, motor_id@) == receive(all, motor_id@),
                self.dropped() + foreign_frames(self@, motor_id@) == old(self).dropped()
                    + foreign_frames(all, motor_id@),
            decreases self@.len(),
        {
            let used: usize = match try_decode(self.rx_buf.as_slice()) {
                Ok((frame, used)) => {
                    if frame.motor_id == motor_id.get() {
                        let resp = Response {
                            command: frame.command,
                            motor_id: frame.motor_id,
                            data: slice_to_vec(frame.data),
                        };
                        assert(self.dropped() + foreign_frames(self@, motor_id@) =~= self.dropped());
                        self.consume(used);
                        return RxAction::Done(Ok(resp));
                    }
                    let mark: (u8, u8) = (frame.command, frame.motor_id);
                    proof {
                        let rest = foreign_frames(self@.skip(used as int), motor_id@);
                        assert(self.dropped() + (seq![mark] + rest) =~= self.dropped().push(mark)
                            + rest);
                    }
                    self.dropped.push(mark);
                    used
                },
                Err(DecodeError::NeedMore { .. }) => {
                    assert(self.dropped() + foreign_frames(self@, motor_id@) =~= self.dropped());
                    return RxAction::Read;
                },
                Err(DecodeError::BadHeader { .. }) => 1,
                Err(e) => {
                    assert(self.dropped() + foreign_frames(self@, motor_id@) =~= self.dropped());
                    return RxAction::Done(Err(Error::Decode(e)));
                },
            };
            self.consume(used);
        }
    }

    /// Collects whatever arrives, frame or not, in `out`: first what is buffered,
    /// then what each read brings, until the time is over.
    pub fn read_raw_for(&mut self, out: &mut Vec<u8>, event: RxEvent) -> (r: RxAction<()>)
        ensures
            final(self).dropped() == old(self).dropped(),
            match event {
                RxEvent::Start => {
                    &&& r is Read
                    &&& final(out)@ == old(out)@ + old(self)@
                    &&& final(self)@ == Seq::<u8>::empty()
                },
                RxEvent::Bytes(_) | RxEvent::Quiet => {
                    &&& r is Read
                    &&& final(out)@ == old(out)@ + event_bytes(event)
                    &&& final(self)@ == old(self)@
                },
                RxEvent::Expired => {
                    &&& r == RxAction::Done::<()>(Ok(()))
                    &&& final(out)@ == old(out)@
                    &&& final(self)@ == old(self)@
                },
                RxEvent::Failed(message) => {
                    &&& r == RxAction::Done::<()>(Err(Error::Io(message)))
                    &&& final(out)@ == old(out)@
                    &&& final(self)@ == old(self)@
                },
            },
    {
        match event {
            RxEvent::Start => {
                out.append(&mut self.rx_buf);
                RxAction::Read
            },
            RxEvent::Bytes(bytes) => {
                out.extend_from_slice(bytes);
                assert(out@ =~= old(out)@ + bytes@);
                RxAction::Read
            },
            RxEvent::Quiet => {
                assert(out@ =~= old(out)@ + event_bytes(event));
                RxAction::Read
            },
            RxEvent::Expired => RxAction::Done(Ok(())),
            RxEvent::Failed(message) => RxAction::Done(Err(Error::Io(message))),
        }
    }

    /// Discards what is buffered, and what still arrives until a read brings
    /// nothing.
    pub fn flush_rx(&mut self, event: RxEvent) -> (r: RxAction<()>)
        ensures
            final(self)@ == Seq::<u8>::empty(),
            final(self).dropped() == old(self).dropped(),
            match event {
                RxEvent::Start => r is Read,
                RxEvent::Bytes(bytes) => if bytes.len() > 0 {
                    r is Read
                } else {
                    r == RxAction::Done::<()>(Ok(()))
                },
                RxEvent::Quiet | RxEvent::Expired => r == RxAction::Done::<()>(Ok(())),
                RxEvent::Failed(message) => r == RxAction::Done::<()>(Err(Error::Io(message))),
            },
    {
        self.rx_buf.clear();
        match event {
            RxEvent::Start => RxAction::Read,
            RxEvent::Bytes(bytes) => if bytes.len() > 0 {
                RxAction::Read
            } else {
                RxAction::Done(Ok(()))
            },
            RxEvent::Quiet | RxEvent::Expired => RxAction::Done(Ok(())),
            RxEvent::Failed(message) => RxAction::Done(Err(Error::Io(message))),
        }
    }
}

} // verus!
