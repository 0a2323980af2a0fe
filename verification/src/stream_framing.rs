//! Reassembling length-prefixed control frames from the host's stream, which
//! arrives in pieces of any size: a four-byte big-endian length, then that
//! many payload bytes.

use vstd::prelude::*;

use crate::client::EncodedVideoStreamReadError;
use crate::text::{concat2, decimal, decimal_string, owned};

verus! {

/// Length of the frame header.
pub const FRAME_HEADER_LEN: usize = 4;

/// The payload length a complete header announces: its four bytes read as a
/// big-endian number.
pub open spec fn announced_len(header: Seq<u8>) -> nat {
    (header[0] as nat) * 16777216 + (header[1] as nat) * 65536 + (header[2] as nat) * 256 + (
    header[3] as nat)
}

/// The four-byte big-endian header that announces `n` payload bytes, as a
/// sender writes it (`n.to_be_bytes()`).
pub open spec fn be_header(n: u32) -> Seq<u8> {
    seq![(n >> 24u32) as u8, ((n >> 16u32) & 0xff) as u8, ((n >> 8u32) & 0xff) as u8, (n & 0xff) as u8]
}

/// A header announces exactly the length the sender wrote in it: reading
/// `n.to_be_bytes()` gives back `n`, so after such a header the reader wants
/// exactly `n` payload bytes, still wants the rest while fewer have come, and
/// the header with `n` payload bytes is one complete frame.
pub proof fn lemma_header_announces_written_length(n: u32, payload: Seq<u8>)
    ensures
        announced_len(be_header(n)) == n,
        bytes_still_wanted(be_header(n)) == n,
        payload.len() == n ==> (be_header(n) + payload).len() == 4 + announced_len(
            (be_header(n) + payload).take(4),
        ),
        payload.len() < n ==> bytes_still_wanted(be_header(n) + payload) == n - payload.len(),
{
    let b0 = (n >> 24u32) as u8;
    let b1 = ((n >> 16u32) & 0xff) as u8;
    let b2 = ((n >> 8u32) & 0xff) as u8;
    let b3 = (n & 0xff) as u8;
    assert(b0 as u64 * 16777216 + b1 as u64 * 65536 + b2 as u64 * 256 + b3 as u64 == n as u64)
        by (bit_vector)
        requires
            b0 == (n >> 24u32) as u8,
            b1 == ((n >> 16u32) & 0xff) as u8,
            b2 == ((n >> 8u32) & 0xff) as u8,
            b3 == (n & 0xff) as u8,
    ;
    assert(be_header(n).take(4) =~= be_header(n));
    assert((be_header(n) + payload).take(4) =~= be_header(n));
}

/// How many more bytes the frame under way needs: the rest of the header
/// first, then the rest of the payload.
pub open spec fn bytes_still_wanted(received: Seq<u8>) -> int {
    if received.len() < 4 {
        4 - received.len()
    } else {
        4 + announced_len(received.take(4)) - received.len()
    }
}

/// The message reporting a frame longer than the limit.
pub open spec fn frame_too_long_text(len: nat, max_frame_len: nat) -> Seq<char> {
    "控制消息长度 "@ + decimal(len) + " 超过限制 "@ + decimal(max_frame_len)
}

/// Collects the bytes of one frame at a time.
#[derive(Debug)]
pub struct H264EncodedStreamReader {
    received: Vec<u8>,
}

impl View for H264EncodedStreamReader {
    type V = Seq<u8>;

    /// The bytes of the frame under way.
    closed spec fn view(&self) -> Seq<u8> {
        self.received@
    }
}

/// What accepting a piece of the stream gave.
#[derive(Debug, Clone, PartialEq, Eq)]
pub enum FramingProgress {
    /// The frame is not complete yet.
    Incomplete,
    /// A whole frame, header included.
    Frame(Vec<u8>),
}

impl H264EncodedStreamReader {
    /// A reader with no frame under way.
    pub fn new() -> (res: Self)
        ensures
            res@ == Seq::<u8>::empty(),
    {
        H264EncodedStreamReader { received: Vec::new() }
    }

    /// How many more bytes the frame under way needs; the caller reads at most
    /// that many before handing them over.
    pub fn bytes_wanted(&self) -> (res: u64)
        requires
            bytes_still_wanted(self@) > 0,
        ensures
            res == bytes_still_wanted(self@),
    {
        let n = self.received.len();
        if n < FRAME_HEADER_LEN {
            return (FRAME_HEADER_LEN - n) as u64;
        }
        let b0 = self.received[0] as u64;
        let b1 = self.received[1] as u64;
        let b2 = self.received[2] as u64;
        let b3 = self.received[3] as u64;
        let len = b0 * 16777216 + b1 * 65536 + b2 * 256 + b3;
        assert(self@.take(4)[0] == b0 && self@.take(4)[1] == b1 && self@.take(4)[2] == b2
            && self@.take(4)[3] == b3);
        4 + len - n as u64
    }

    /// Whether the reader is between frames.
    pub fn is_idle(&self) -> (res: bool)
        ensures
            res == (self@.len() == 0),
    {
        self.received.len() == 0
    }

    /// Takes a piece of the stream of at most `bytes_wanted` bytes. When the
    /// header completes and announces more than `max_frame_len` bytes, the
    /// frame is refused. When the frame completes, it is handed out whole and
    /// the reader starts over; otherwise the bytes are kept.
    pub fn accept(&mut self, chunk: &[u8], max_frame_len: usize) -> (res: Result<
        FramingProgress,
        EncodedVideoStreamReadError,
    >)
        requires
            bytes_still_wanted(old(self)@) > 0,
            0 < chunk@.len() <= bytes_still_wanted(old(self)@),
            old(self)@.len() >= 4 ==> announced_len(old(self)@.take(4)) <= max_frame_len,
        ensures
            ({
                let all = old(self)@ + chunk@;
                if all.len() >= 4 && old(self)@.len() < 4 && announced_len(all.take(4))
                    > max_frame_len {
                    &&& res matches Err(EncodedVideoStreamReadError::InvalidControl(m)) && m@
                        == frame_too_long_text(announced_len(all.take(4)), max_frame_len as nat)
                    &&& final(self)@ == all
                } else if all.len() >= 4 && all.len() == 4 + announced_len(all.take(4)) {
                    &&& res matches Ok(FramingProgress::Frame(f)) && f@ == all
                    &&& final(self)@ == Seq::<u8>::empty()
                } else {
                    &&& res == Ok::<FramingProgress, EncodedVideoStreamReadError>(
                        FramingProgress::Incomplete,
                    )
                    &&& final(self)@ == all
                    &&& bytes_still_wanted(all) > 0
                    &&& all.len() >= 4 ==> announced_len(all.take(4)) <= max_frame_len
                }
            }),
    {
        let ghost before = self.received@;
        let start_len = self.received.len();
        let mut i: usize = 0;
        while i < chunk.len()
            invariant
                i <= chunk@.len(),
                self.received@ == before + chunk@.take(i as int),
            decreases chunk.len() - i,
        {
            self.received.push(chunk[i]);
            proof {
                assert(chunk@.take(i + 1) =~= chunk@.take(i as int).push(chunk@[i as int]));
            }
            i = i + 1;
        }
        assert(chunk@.take(chunk@.len() as int) =~= chunk@);
        let ghost all = before + chunk@;
        assert(self.received@ == all);
        let n = self.received.len();
        if n < FRAME_HEADER_LEN {
            return Ok(FramingProgress::Incomplete);
        }
        assert(all.take(4) =~= self.received@.take(4));
        let b0 = self.received[0] as u64;
        let b1 = self.received[1] as u64;
        let b2 = self.received[2] as u64;
        let b3 = self.received[3] as u64;
        let len = b0 * 16777216 + b1 * 65536 + b2 * 256 + b3;
        if start_len < FRAME_HEADER_LEN && len > max_frame_len as u64 {
            let digits = decimal_string(len);
            let max = decimal_string(max_frame_len as u64);
            let mut m = concat2("控制消息长度 ", digits.as_str());
            m.append(" 超过限制 ");
            m.append(max.as_str());
            return Err(EncodedVideoStreamReadError::InvalidControl(m));
        }
        proof {
            if before.len() >= 4 {
                assert(before.take(4) =~= all.take(4));
            }
        }
        assert(len <= max_frame_len);
        if n as u64 == 4 + len {
            let mut frame: Vec<u8> = Vec::new();
            std::mem::swap(&mut frame, &mut self.received);
            return Ok(FramingProgress::Frame(frame));
        }
        Ok(FramingProgress::Incomplete)
    }

    /// What an end of stream means: nothing when between frames, an
    /// interruption inside a header or a payload.
    pub fn end_of_stream(&self) -> (res: Result<(), EncodedVideoStreamReadError>)
        ensures
            self@.len() == 0 ==> res is Ok,
            0 < self@.len() < 4 ==> (res matches Err(EncodedVideoStreamReadError::Interrupted(m))
                && m@ == "控制消息长度头不完整"@),
            self@.len() >= 4 ==> (res matches Err(EncodedVideoStreamReadError::Interrupted(m))
                && m@ == "控制消息载荷不完整"@),
    {
        let n = self.received.len();
        if n == 0 {
            Ok(())
        } else if n < FRAME_HEADER_LEN {
            Err(EncodedVideoStreamReadError::Interrupted(owned("控制消息长度头不完整")))
        } else {
            Err(EncodedVideoStreamReadError::Interrupted(owned("控制消息载荷不完整")))
        }
    }

    /// Drops the frame under way.
    pub fn reset(&mut self)
        ensures
            final(self)@ == Seq::<u8>::empty(),
    {
        self.received = Vec::new();
    }
}

/// While a frame is under way the reader asks for at least one more byte
/// and never for more than the rest of that frame, so reads never run past a
/// frame's end, however the stream is split.
pub proof fn lemma_reader_stays_inside_frame(frame: Seq<u8>, k: int)
    requires
        frame.len() >= 4,
        frame.len() == 4 + announced_len(frame.take(4)),
        0 <= k < frame.len(),
    ensures
        0 < bytes_still_wanted(frame.take(k)) <= frame.len() - k,
{
    if k >= 4 {
        assert(frame.take(k).take(4) =~= frame.take(4));
    }
}

} // verus!
