//! Frame envelope of the RS485 protocol.
//!
//! ```text
//! offset  0       1     2     3      4         5..5+N      5+N
//!         +-------+-----+-----+------+---------+-----------+----------+
//!         | 0x3E  | cmd | id  | len  | hdr_sum | data[..N] | data_sum |
//!         +-------+-----+-----+------+---------+-----------+----------+
//! ```
//!
//! `hdr_sum` is the sum of the four bytes before it, `data_sum` that of the data
//! bytes, both modulo 256. A frame without data has no `data_sum`.
use vstd::prelude::*;

verus! {

/// Frame start byte.
pub const HEADER: u8 = 0x3E;

/// Bytes of the fixed header: start byte, command, id, length, header checksum.
pub const HEADER_SIZE: usize = 5;

/// Longest payload: the length field is one byte.
pub const MAX_DATA: usize = 255;

/// Longest encoded frame.
pub const MAX_FRAME: usize = HEADER_SIZE + MAX_DATA + 1;

/// Why [`encode`] wrote nothing.
#[derive(Debug, Clone, Copy, PartialEq, Eq, Structural)]
pub enum EncodeError {
    /// The output buffer is smaller than the encoded frame.
    BufferTooSmall { needed: usize, got: usize },
    /// The payload is longer than [`MAX_DATA`].
    DataTooLong { got: usize },
}

/// Why [`try_decode`] found no frame at the start of its input.
#[derive(Debug, Clone, Copy, PartialEq, Eq, Structural)]
pub enum DecodeError {
    /// The input ends too early; at least `needed` more bytes are wanted.
    NeedMore { needed: usize },
    /// The first byte is not [`HEADER`].
    BadHeader { found: u8 },
    /// The header checksum failed.
    HeaderChecksum { expected: u8, found: u8 },
    /// The data checksum failed.
    DataChecksum { expected: u8, found: u8 },
}

/// A decoded frame, borrowing its payload from the input buffer.
#[derive(Debug, Clone, Copy, PartialEq, Eq)]
pub struct Frame<'a> {
    pub command: u8,
    pub motor_id: u8,
    pub data: &'a [u8],
}

/// What a frame carries.
pub struct FrameView {
    pub command: u8,
    pub motor_id: u8,
    pub data: Seq<u8>,
}

impl<'a> View for Frame<'a> {
    type V = FrameView;

    open spec fn view(&self) -> FrameView {
        FrameView { command: self.command, motor_id: self.motor_id, data: self.data@ }
    }
}

/// The sum of all bytes of `s`.
pub open spec fn byte_sum(s: Seq<u8>) -> nat
    decreases s.len(),
{
    if s.len() == 0 {
        0
    } else {
        byte_sum(s.drop_last()) + s.last() as nat
    }
}

/// The sum of all bytes of `s`, modulo 256.
pub open spec fn checksum(s: Seq<u8>) -> u8 {
    (byte_sum(s) % 256) as u8
}

/// The checksum over the four header bytes of a frame with `len` payload bytes.
pub open spec fn header_checksum(command: u8, motor_id: u8, len: u8) -> u8 {
    ((HEADER + command + motor_id + len) % 256) as u8
}

/// The five header bytes of a frame with `len` payload bytes.
pub open spec fn header_bytes(command: u8, motor_id: u8, len: u8) -> Seq<u8> {
    seq![HEADER, command, motor_id, len, header_checksum(command, motor_id, len)]
}

/// How many bytes a frame with `len` payload bytes takes.
pub open spec fn frame_len(len: nat) -> nat {
    if len == 0 {
        HEADER_SIZE as nat
    } else {
        HEADER_SIZE as nat + len + 1
    }
}

/// A frame as it stands on the wire.
pub open spec fn frame_bytes(f: FrameView) -> Seq<u8> {
    let head = header_bytes(f.command, f.motor_id, f.data.len() as u8);
    if f.data.len() == 0 {
        head
    } else {
        head + f.data + seq![checksum(f.data)]
    }
}

/// What decoding the start of `input` gives: a frame and how many bytes it took,
/// or the first thing that is wrong with it.
pub open spec fn decode_spec(input: Seq<u8>) -> Result<(FrameView, nat), DecodeError> {
    if input.len() < HEADER_SIZE {
        Err(DecodeError::NeedMore { needed: (HEADER_SIZE - input.len()) as usize })
    } else if input[0] != HEADER {
        Err(DecodeError::BadHeader { found: input[0] })
    } else if input[4] != header_checksum(input[1], input[2], input[3]) {
        Err(
            DecodeError::HeaderChecksum {
                expected: header_checksum(input[1], input[2], input[3]),
                found: input[4],
            },
        )
    } else {
        let len = input[3] as int;
        let data = input.subrange(5, 5 + len);
        if input.len() < frame_len(len as nat) {
            Err(DecodeError::NeedMore { needed: (frame_len(len as nat) - input.len()) as usize })
        } else if len > 0 && input[5 + len] != checksum(data) {
            Err(DecodeError::DataChecksum { expected: checksum(data), found: input[5 + len] })
        } else {
            Ok((FrameView { command: input[1], motor_id: input[2], data }, frame_len(len as nat)))
        }
    }
}

/// A decoding result with the frame taken by what it carries.
pub open spec fn decode_view(r: Result<(Frame, usize), DecodeError>) -> Result<
    (FrameView, nat),
    DecodeError,
> {
    match r {
        Ok((frame, used)) => Ok((frame@, used as nat)),
        Err(e) => Err(e),
    }
}

/// What [`encode`] writes, [`try_decode`] reads back, whatever follows it in the
/// buffer, and it takes exactly the bytes that were written.
pub proof fn law_decode_of_frame_bytes(f: FrameView, rest: Seq<u8>)
    requires
        f.data.len() <= MAX_DATA,
    ensures
        decode_spec(frame_bytes(f) + rest) == Ok::<(FrameView, nat), DecodeError>(
            (f, frame_bytes(f).len()),
        ),
{
    let input = frame_bytes(f) + rest;
    assert(input.subrange(5, 5 + f.data.len() as int) =~= f.data);
}

/// A decoded frame is what stands at the start of the input: its encoding is the
/// bytes that were consumed.
pub proof fn law_frame_bytes_of_decode(input: Seq<u8>)
    ensures
        decode_spec(input) matches Ok((f, used)) ==> {
            &&& f.data.len() <= MAX_DATA
            &&& used <= input.len()
            &&& used == frame_bytes(f).len()
            &&& input.take(used as int) == frame_bytes(f)
        },
{
    if let Ok((f, used)) = decode_spec(input) {
        assert(input.take(used as int) =~= frame_bytes(f));
    }
}

/// Two different frames never have the same encoding, and none is a prefix of
/// another: a stream of frames splits in one way only.
pub proof fn law_frames_are_prefix_free(f: FrameView, g: FrameView, rest: Seq<u8>)
    requires
        f.data.len() <= MAX_DATA,
        g.data.len() <= MAX_DATA,
        frame_bytes(f) + rest == frame_bytes(g),
    ensures
        f == g,
        rest.len() == 0,
{
    law_decode_of_frame_bytes(f, rest);
    law_decode_of_frame_bytes(g, Seq::empty());
    assert(frame_bytes(g) + Seq::<u8>::empty() =~= frame_bytes(g));
}

/// The bytes that `NeedMore` asks for are owed: after a shorter continuation,
/// exactly the rest of them is asked for.
pub proof fn law_need_more_is_a_lower_bound(input: Seq<u8>, more: Seq<u8>)
    ensures
        decode_spec(input) matches Err(DecodeError::NeedMore { needed }) ==> needed > 0 && (
        more.len() < needed ==> decode_spec(input + more) == Err::<
            (FrameView, nat),
            DecodeError,
        >(DecodeError::NeedMore { needed: (needed - more.len()) as usize })),
{
    let all = input + more;
    if let Err(DecodeError::NeedMore { needed }) = decode_spec(input) {
        if more.len() < needed && input.len() >= HEADER_SIZE {
            assert(all[1] == input[1] && all[2] == input[2] && all[3] == input[3] && all[4]
                == input[4]);
        }
    }
}

/// What was decided stands when more bytes follow: a frame that was found, or the
/// first thing that is wrong.
pub proof fn law_decided_decode_stands(buf: Seq<u8>, more: Seq<u8>)
    requires
        !(decode_spec(buf) matches Err(DecodeError::NeedMore { .. })),
    ensures
        decode_spec(buf + more) == decode_spec(buf),
{
    let all = buf + more;
    assert(all[0] == buf[0] && all[1] == buf[1] && all[2] == buf[2] && all[3] == buf[3] && all[4]
        == buf[4]);
    if buf[0] == HEADER && buf[4] == header_checksum(buf[1], buf[2], buf[3]) {
        let len = buf[3] as int;
        assert(all.subrange(5, 5 + len) =~= buf.subrange(5, 5 + len));
    }
}

/// Splitting a sum at any place.
pub proof fn lemma_byte_sum_split(s: Seq<u8>, t: Seq<u8>)
    ensures
        byte_sum(s + t) == byte_sum(s) + byte_sum(t),
    decreases t.len(),
{
    if t.len() == 0 {
        assert(s + t =~= s);
    } else {
        lemma_byte_sum_split(s, t.drop_last());
        assert((s + t).drop_last() =~= s + t.drop_last());
    }
}

/// Changing one payload byte of a frame on the wire is always noticed.
pub proof fn law_corrupted_data_byte_is_detected(f: FrameView, rest: Seq<u8>, i: int, b: u8)
    requires
        f.data.len() <= MAX_DATA,
        0 <= i < f.data.len(),
        b != f.data[i],
    ensures
        decode_spec((frame_bytes(f) + rest).update(5 + i, b)) is Err,
{
    let input = frame_bytes(f) + rest;
    let bad = input.update(5 + i, b);
    let len = f.data.len() as int;
    let data = bad.subrange(5, 5 + len);
    let pre = f.data.take(i);
    let post = f.data.skip(i + 1);
    assert(f.data =~= pre + seq![f.data[i]] + post);
    assert(data =~= pre + seq![b] + post);
    lemma_byte_sum_split(pre + seq![f.data[i]], post);
    lemma_byte_sum_split(pre, seq![f.data[i]]);
    lemma_byte_sum_split(pre + seq![b], post);
    lemma_byte_sum_split(pre, seq![b]);
    reveal_with_fuel(byte_sum, 2);
    assert(byte_sum(data) - byte_sum(f.data) == b - f.data[i]);
    assert(checksum(data) != checksum(f.data));
    assert(bad[5 + len] == checksum(f.data));
}

/// Changing one header byte of a frame on the wire is always noticed.
pub proof fn law_corrupted_header_byte_is_detected(f: FrameView, rest: Seq<u8>, i: int, b: u8)
    requires
        f.data.len() <= MAX_DATA,
        0 <= i < HEADER_SIZE,
        b != frame_bytes(f)[i],
    ensures
        match decode_spec((frame_bytes(f) + rest).update(i, b)) {
            Err(DecodeError::BadHeader { found }) => i == 0 && found == b,
            Err(DecodeError::HeaderChecksum { .. }) => i > 0,
            _ => false,
        },
{
    let bad = (frame_bytes(f) + rest).update(i, b);
    let head = header_bytes(f.command, f.motor_id, f.data.len() as u8);
    assert(bad.take(5) =~= head.update(i, b));
    assert forall|k: int| 0 <= k < 5 implies bad[k] == head.update(i, b)[k] by {
        assert(bad.take(5)[k] == bad[k]);
    }
}

/// A frame starts with the start byte, the command, the motor, the length of the
/// payload and the low byte of the sum of these four. A payload follows as it is,
/// with the low byte of its own sum; without one nothing follows.
pub proof fn law_layout_of_a_frame(f: FrameView)
    requires
        f.data.len() <= MAX_DATA,
    ensures
        frame_bytes(f)[0] == 0x3E,
        frame_bytes(f)[1] == f.command,
        frame_bytes(f)[2] == f.motor_id,
        frame_bytes(f)[3] == f.data.len(),
        frame_bytes(f)[4] == (0x3E + f.command + f.motor_id + f.data.len()) % 256,
        f.data.len() == 0 ==> frame_bytes(f).len() == 5,
        f.data.len() > 0 ==> {
            &&& frame_bytes(f).len() == 6 + f.data.len()
            &&& frame_bytes(f).subrange(5, 5 + f.data.len() as int) == f.data
            &&& frame_bytes(f).last() == byte_sum(f.data) % 256
        },
{
    if f.data.len() > 0 {
        assert(frame_bytes(f).subrange(5, 5 + f.data.len() as int) =~= f.data);
    }
}

/// The sum counts every byte once, wherever it stands.
pub proof fn law_sum_counts_every_byte(s: Seq<u8>, b: u8)
    ensures
        byte_sum(s.push(b)) == byte_sum(s) + b,
        byte_sum(Seq::<u8>::empty()) == 0,
{
    assert(s.push(b).drop_last() =~= s);
}

/// How many bytes a frame with `data_len` payload bytes takes.
pub fn encoded_size(data_len: usize) -> (r: usize)
    requires
        data_len <= usize::MAX - 6,
    ensures
        r == frame_len(data_len as nat),
{
    if data_len == 0 {
        HEADER_SIZE
    } else {
        HEADER_SIZE + data_len + 1
    }
}

/// The checksum of `bytes`.
fn checksum_u8(bytes: &[u8]) -> (r: u8)
    ensures
        r == checksum(bytes@),
{
    let mut acc: u8 = 0;
    let mut i: usize = 0;
    while i < bytes.len()
        invariant
            i <= bytes.len(),
            acc == byte_sum(bytes@.take(i as int)) % 256,
        decreases bytes.len() - i,
    {
        proof {
            assert(bytes@.take(i + 1).drop_last() =~= bytes@.take(i as int));
        }
        acc = acc.wrapping_add(bytes[i]);
        i += 1;
    }
    assert(bytes@.take(i as int) =~= bytes@);
    acc
}

/// The header checksum.
fn header_sum(command: u8, motor_id: u8, len: u8) -> (r: u8)
    ensures
        r == header_checksum(command, motor_id, len),
{
    HEADER.wrapping_add(command).wrapping_add(motor_id).wrapping_add(len)
}

/// Encodes a frame at the start of `out` and returns how many bytes it took. The
/// rest of `out` is left alone, and all of it where the frame cannot be encoded.
pub fn encode(command: u8, motor_id: u8, data: &[u8], out: &mut [u8]) -> (r: Result<
    usize,
    EncodeError,
>)
    ensures
        r == encode_result(data.len() as nat, old(out).len() as nat),
        final(out)@ == encode_buffer(
            FrameView { command, motor_id, data: data@ },
            old(out)@,
        ),
{
    if data.len() > MAX_DATA {
        return Err(EncodeError::DataTooLong { got: data.len() });
    }
    let needed: usize = encoded_size(data.len());
    if out.len() < needed {
        return Err(EncodeError::BufferTooSmall { needed, got: out.len() });
    }
    let ghost f = FrameView { command, motor_id, data: data@ };
    let len_byte: u8 = data.len() as u8;
    out[0] = HEADER;
    out[1] = command;
    out[2] = motor_id;
    out[3] = len_byte;
    out[4] = header_sum(command, motor_id, len_byte);
    if data.len() > 0 {
        let mut i: usize = 0;
        while i < data.len()
            invariant
                0 < data.len() <= MAX_DATA,
                i <= data.len(),
                out.len() == old(out).len(),
                needed == data.len() + 6,
                out.len() >= needed,
                forall|j: int|
                    0 <= j < 5 ==> #[trigger] out@[j] == header_bytes(
                        command,
                        motor_id,
                        data.len() as u8,
                    )[j],
                forall|j: int| 5 <= j < 5 + i ==> #[trigger] out@[j] == data@[j - 5],
                forall|j: int| 5 + i <= j < out.len() ==> #[trigger] out@[j] == old(out)@[j],
            decreases data.len() - i,
        {
            out[5 + i] = data[i];
            i += 1;
        }
        out[5 + data.len()] = checksum_u8(data);
    }
    assert(out@ =~= frame_bytes(f) + old(out)@.skip(needed as int));
    Ok(needed)
}

/// What [`encode`] returns for `data_len` payload bytes and a buffer of `room`
/// bytes.
pub open spec fn encode_result(data_len: nat, room: nat) -> Result<usize, EncodeError> {
    if data_len > MAX_DATA {
        Err(EncodeError::DataTooLong { got: data_len as usize })
    } else if room < frame_len(data_len) {
        Err(EncodeError::BufferTooSmall { needed: frame_len(data_len) as usize, got: room as usize })
    } else {
        Ok(frame_len(data_len) as usize)
    }
}

/// What [`encode`] leaves in a buffer that held `out`.
pub open spec fn encode_buffer(f: FrameView, out: Seq<u8>) -> Seq<u8> {
    if encode_result(f.data.len(), out.len()) is Ok {
        frame_bytes(f) + out.skip(frame_bytes(f).len() as int)
    } else {
        out
    }
}

/// Decodes the frame at the start of `input`, with the number of bytes it took.
pub fn try_decode(input: &[u8]) -> (r: Result<(Frame<'_>, usize), DecodeError>)
    ensures
        decode_view(r) == decode_spec(input@),
{
    if input.len() < HEADER_SIZE {
        return Err(DecodeError::NeedMore { needed: HEADER_SIZE - input.len() });
    }
    if input[0] != HEADER {
        return Err(DecodeError::BadHeader { found: input[0] });
    }
    let command: u8 = input[1];
    let motor_id: u8 = input[2];
    let len_byte: u8 = input[3];
    let data_len: usize = len_byte as usize;
    let found: u8 = input[4];
    let expected: u8 = header_sum(command, motor_id, len_byte);
    if found != expected {
        return Err(DecodeError::HeaderChecksum { expected, found });
    }
    let total: usize = encoded_size(data_len);
    if input.len() < total {
        return Err(DecodeError::NeedMore { needed: total - input.len() });
    }
    let data = &input[5..5 + data_len];
    if data_len > 0 {
        let expected: u8 = checksum_u8(data);
        let found: u8 = input[5 + data_len];
        if found != expected {
            return Err(DecodeError::DataChecksum { expected, found });
        }
    }
    Ok((Frame { command, motor_id, data }, total))
}

/// Of a frame that was cut short it is told how many bytes are missing: of the header
/// while that is incomplete, of the frame afterwards.
pub proof fn law_what_is_missing_of_a_frame(f: FrameView, k: int)
    requires
        f.data.len() <= MAX_DATA,
        0 <= k < frame_bytes(f).len(),
    ensures
        decode_spec(frame_bytes(f).take(k)) matches Err(DecodeError::NeedMore { needed }) && needed
            == (if k < 5 {
            5 - k
        } else {
            frame_bytes(f).len() - k
        }),
{
}

/// A frame is encoded if its payload is at most 255 bytes long and the buffer has room
/// for it, and the number of bytes that it takes is told; otherwise the buffer stays as
/// it was.
pub proof fn law_when_a_frame_is_encoded(f: FrameView, out: Seq<u8>)
    requires
        out.len() <= usize::MAX,
        f.data.len() <= usize::MAX,
    ensures
        f.data.len() > 255 ==> encode_result(f.data.len(), out.len()) == Err::<usize, EncodeError>(
            EncodeError::DataTooLong { got: f.data.len() as usize },
        ),
        f.data.len() <= 255 ==> {
            let needed = frame_bytes(f).len();
            encode_result(f.data.len(), out.len()) == (if out.len() >= needed {
                Ok::<usize, EncodeError>(needed as usize)
            } else {
                Err(EncodeError::BufferTooSmall { needed: needed as usize, got: out.len() as usize })
            })
        },
        encode_result(f.data.len(), out.len()) is Ok ==> encode_buffer(f, out).take(
            frame_bytes(f).len() as int,
        ) == frame_bytes(f),
        encode_result(f.data.len(), out.len()) is Err ==> encode_buffer(f, out) == out,
        encode_buffer(f, out).len() == out.len(),
{
    if encode_result(f.data.len(), out.len()) is Ok {
        assert(encode_buffer(f, out).take(frame_bytes(f).len() as int) =~= frame_bytes(f));
    }
}

} // verus!
