//! Length-delimited framing on a byte stream: a frame is the payload's
//! length as four little-endian bytes, followed by the payload.

use vstd::prelude::*;

verus! {

/// The number of bytes of a frame's length prefix.
pub const PREFIX_LEN: usize = 4;

/// Why a payload cannot be framed.
#[derive(Clone, Copy, Debug, PartialEq, Eq, Structural)]
pub enum FrameError {
    /// The payload's length, given here, does not fit the length prefix.
    DataTooLarge(usize),
}

/// The four little-endian bytes of `n`.
pub open spec fn le32(n: nat) -> Seq<u8> {
    seq![
        (n % 256) as u8,
        ((n / 256) % 256) as u8,
        ((n / 65536) % 256) as u8,
        ((n / 16777216) % 256) as u8,
    ]
}

/// The number that four little-endian bytes stand for.
pub open spec fn le32_value(bytes: Seq<u8>) -> nat
    recommends
        bytes.len() == 4,
{
    (bytes[0] as nat) + 256 * (bytes[1] as nat) + 65536 * (bytes[2] as nat) + 16777216 * (
    bytes[3] as nat)
}

/// The frame that carries `payload`.
pub open spec fn frame_of(payload: Seq<u8>) -> Seq<u8> {
    le32(payload.len()) + payload
}

/// The first frame of a stream, as its payload and the bytes that follow the
/// frame; `None` while the frame is not there in full.
pub open spec fn first_frame(stream: Seq<u8>) -> Option<(Seq<u8>, Seq<u8>)> {
    if stream.len() < 4 {
        None
    } else {
        let len = le32_value(stream.subrange(0, 4)) as int;
        if stream.len() - 4 < len {
            None
        } else {
            Some((stream.subrange(4, 4 + len), stream.subrange(4 + len, stream.len() as int)))
        }
    }
}

/// Reading back the four bytes of a number below 2^32 gives the number.
pub proof fn lemma_le32_round_trip(n: nat)
    requires
        n <= u32::MAX,
    ensures
        le32(n).len() == 4,
        le32_value(le32(n)) == n,
{
    let b0 = n % 256;
    let q1 = n / 256;
    let b1 = q1 % 256;
    let q2 = n / 65536;
    let b2 = q2 % 256;
    let q3 = n / 16777216;
    assert(q2 == q1 / 256 && q3 == q2 / 256 && q3 < 256 && n == 256 * q1 + b0 && q1 == 256 * q2
        + b1 && q2 == 256 * q3 + b2) by (nonlinear_arith)
        requires
            n <= 0xffff_ffff,
            b0 == n % 256,
            q1 == n / 256,
            b1 == q1 % 256,
            q2 == n / 65536,
            b2 == q2 % 256,
            q3 == n / 16777216,
    ;
    assert(q3 % 256 == q3);
}

/// Four bytes stand for a number below 2^32, and writing that number gives
/// the four bytes back.
pub proof fn lemma_le32_value_round_trip(bytes: Seq<u8>)
    requires
        bytes.len() == 4,
    ensures
        le32_value(bytes) <= u32::MAX,
        le32(le32_value(bytes)) == bytes,
{
    let b0 = bytes[0] as nat;
    let b1 = bytes[1] as nat;
    let b2 = bytes[2] as nat;
    let b3 = bytes[3] as nat;
    let n = le32_value(bytes);
    assert(n % 256 == b0 && (n / 256) % 256 == b1 && (n / 65536) % 256 == b2 && (n / 16777216)
        % 256 == b3) by (nonlinear_arith)
        requires
            n == b0 + 256 * b1 + 65536 * b2 + 16777216 * b3,
            b0 < 256,
            b1 < 256,
            b2 < 256,
            b3 < 256,
    ;
    assert(le32(n) =~= bytes);
}

/// A stream that starts with the frame of a payload yields that payload and
/// what follows the frame.
pub proof fn lemma_frame_round_trip(payload: Seq<u8>, rest: Seq<u8>)
    requires
        payload.len() <= u32::MAX,
    ensures
        first_frame(frame_of(payload) + rest) == Some((payload, rest)),
{
    let stream = frame_of(payload) + rest;
    lemma_le32_round_trip(payload.len());
    assert(stream.subrange(0, 4) =~= le32(payload.len()));
    assert(stream.subrange(4, 4 + payload.len() as int) =~= payload);
    assert(stream.subrange(4 + payload.len() as int, stream.len() as int) =~= rest);
}

/// No part of a frame is handed out before the whole frame is there: a
/// stream that holds only the beginning of a frame yields nothing.
pub proof fn lemma_partial_frame_yields_nothing(payload: Seq<u8>, received: int)
    requires
        payload.len() <= u32::MAX,
        0 <= received < frame_of(payload).len(),
    ensures
        first_frame(frame_of(payload).subrange(0, received)) is None,
{
    let frame = frame_of(payload);
    let part = frame.subrange(0, received);
    lemma_le32_round_trip(payload.len());
    if received >= 4 {
        assert(part.subrange(0, 4) =~= le32(payload.len()));
    }
}

/// Writes `n` as four little-endian bytes at the end of `out`.
fn push_le32(out: &mut Vec<u8>, n: u32)
    ensures
        final(out)@ == old(out)@ + le32(n as nat),
{
    let b0: u8 = (n % 256) as u8;
    let b1: u8 = ((n / 256) % 256) as u8;
    let b2: u8 = ((n / 65536) % 256) as u8;
    let b3: u8 = ((n / 16777216) % 256) as u8;
    out.push(b0);
    out.push(b1);
    out.push(b2);
    out.push(b3);
    assert(out@ =~= old(out)@ + le32(n as nat));
}

/// Frames a payload: its length in four little-endian bytes, then the
/// payload. A payload whose length does not fit in 32 bits is refused.
pub fn encode_frame(payload: &[u8]) -> (r: Result<Vec<u8>, FrameError>)
    ensures
        match r {
            Ok(frame) => payload@.len() <= u32::MAX && frame@ == frame_of(payload@),
            Err(e) => payload@.len() > u32::MAX && e == FrameError::DataTooLarge(
                payload@.len() as usize,
            ),
        },
{
    let len: usize = payload.len();
    if len > 0xffff_ffff {
        return Err(FrameError::DataTooLarge(len));
    }
    let mut frame: Vec<u8> = Vec::new();
    push_le32(&mut frame, len as u32);
    let mut i: usize = 0;
    while i < len
        invariant
            i <= len,
            len == payload@.len(),
            frame@ == le32(len as nat) + payload@.subrange(0, i as int),
        decreases len - i,
    {
        frame.push(payload[i]);
        i = i + 1;
        assert(frame@ =~= le32(len as nat) + payload@.subrange(0, i as int));
    }
    assert(payload@.subrange(0, len as int) =~= payload@);
    Ok(frame)
}

/// The bytes received on a connection and not yet handed out as frames.
#[derive(Clone, Debug)]
pub struct FrameBuffer {
    bytes: Vec<u8>,
}

impl View for FrameBuffer {
    type V = Seq<u8>;

    closed spec fn view(&self) -> Seq<u8> {
        self.bytes@
    }
}

impl FrameBuffer {
    /// A buffer that holds nothing.
    pub fn new() -> (buffer: FrameBuffer)
        ensures
            buffer@ == Seq::<u8>::empty(),
    {
        FrameBuffer { bytes: Vec::new() }
    }

    /// The number of bytes held.
    pub fn len(&self) -> (n: usize)
        ensures
            n == self@.len(),
    {
        self.bytes.len()
    }

    /// Adds bytes that were read from the connection.
    pub fn extend(&mut self, received: &[u8])
        ensures
            final(self)@ == old(self)@ + received@,
    {
        let n: usize = received.len();
        let mut i: usize = 0;
        while i < n
            invariant
                i <= n,
                n == received@.len(),
                self.bytes@ == old(self).bytes@ + received@.subrange(0, i as int),
            decreases n - i,
        {
            self.bytes.push(received[i]);
            i = i + 1;
            assert(self.bytes@ =~= old(self).bytes@ + received@.subrange(0, i as int));
        }
        assert(received@.subrange(0, n as int) =~= received@);
    }

    /// Takes the first frame out of the buffer and returns its payload, once
    /// the frame is there in full. Until then the buffer stays as it is.
    pub fn next_frame(&mut self) -> (payload: Option<Vec<u8>>)
        ensures
            match first_frame(old(self)@) {
                Some((first, rest)) => payload matches Some(p) && p@ == first && final(self)@
                    == rest,
                None => payload is None && final(self)@ == old(self)@,
            },
    {
        let total: usize = self.bytes.len();
        if total < 4 {
            return None;
        }
        let b0: u32 = self.bytes[0] as u32;
        let b1: u32 = self.bytes[1] as u32;
        let b2: u32 = self.bytes[2] as u32;
        let b3: u32 = self.bytes[3] as u32;
        let len32: u32 = b0 + 256 * b1 + 65536 * b2 + 16777216 * b3;
        let len: usize = len32 as usize;
        assert(self.bytes@.subrange(0, 4)[0] == self.bytes@[0]);
        assert(self.bytes@.subrange(0, 4)[1] == self.bytes@[1]);
        assert(self.bytes@.subrange(0, 4)[2] == self.bytes@[2]);
        assert(self.bytes@.subrange(0, 4)[3] == self.bytes@[3]);
        assert(len == le32_value(self.bytes@.subrange(0, 4)));
        if total - 4 < len {
            return None;
        }
        let end: usize = 4 + len;
        let mut payload: Vec<u8> = Vec::new();
        let mut i: usize = 4;
        while i < end
            invariant
                4 <= i <= end <= total,
                total == self.bytes@.len(),
                payload@ == self.bytes@.subrange(4, i as int),
            decreases end - i,
        {
            payload.push(self.bytes[i]);
            i = i + 1;
            assert(payload@ =~= self.bytes@.subrange(4, i as int));
        }
        let mut rest: Vec<u8> = Vec::new();
        while i < total
            invariant
                end <= i <= total,
                total == self.bytes@.len(),
                rest@ == self.bytes@.subrange(end as int, i as int),
            decreases total - i,
        {
            rest.push(self.bytes[i]);
            i = i + 1;
            assert(rest@ =~= self.bytes@.subrange(end as int, i as int));
        }
        self.bytes = rest;
        Some(payload)
    }
}

} // verus!
