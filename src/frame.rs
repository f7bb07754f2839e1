//! Length-delimited framing: each message travels as a four-byte big-endian
//! length followed by that many payload bytes.
use vstd::prelude::*;

verus! {

/// Bytes in the length prefix of a frame.
pub const PREFIX_LEN: usize = 4;

/// Largest payload a frame may carry (8 MiB).
pub const MAX_FRAME_LEN: usize = 8388608;

/// The four big-endian bytes of `n`.
pub open spec fn length_prefix(n: u32) -> Seq<u8> {
    seq![(n >> 24u32) as u8, (n >> 16u32) as u8, (n >> 8u32) as u8, n as u8]
}

/// The number whose big-endian bytes open `b`.
pub open spec fn prefix_value(b: Seq<u8>) -> u32
    recommends
        b.len() >= 4,
{
    ((b[0] as u32) << 24u32) | ((b[1] as u32) << 16u32) | ((b[2] as u32) << 8u32) | (b[3] as u32)
}

/// The frame that carries `p`.
pub open spec fn frame_of(p: Seq<u8>) -> Seq<u8> {
    length_prefix(p.len() as u32) + p
}

/// What the front of a byte buffer holds.
pub ghost enum FrameView {
    /// A whole frame: its payload, and the bytes it takes up with its prefix.
    Frame(Seq<u8>, nat),
    /// Not yet a whole frame: more bytes are needed.
    Incomplete,
    /// A prefix that announces a payload over `MAX_FRAME_LEN`.
    Oversized,
}

/// How the front of `buf` decodes.
pub open spec fn decode_spec(buf: Seq<u8>) -> FrameView {
    if buf.len() < PREFIX_LEN {
        FrameView::Incomplete
    } else {
        let n = prefix_value(buf) as nat;
        if n > MAX_FRAME_LEN {
            FrameView::Oversized
        } else if buf.len() < PREFIX_LEN + n {
            FrameView::Incomplete
        } else {
            FrameView::Frame(buf.subrange(PREFIX_LEN as int, PREFIX_LEN + n), (PREFIX_LEN + n) as nat)
        }
    }
}

/// Why a payload cannot be framed or unframed.
#[derive(Debug, Clone, Copy, PartialEq, Eq, Structural)]
pub enum FrameError {
    /// The payload is, or is announced to be, longer than `MAX_FRAME_LEN`.
    TooLong,
}

/// The result of decoding the front of a buffer.
#[derive(Debug, Clone, PartialEq, Eq)]
pub enum Decoded {
    /// A whole frame; `consumed` bytes of the buffer belong to it.
    Frame { payload: Vec<u8>, consumed: usize },
    /// More bytes are needed.
    Incomplete,
    /// The prefix announces a payload over `MAX_FRAME_LEN`.
    Oversized,
}

impl View for Decoded {
    type V = FrameView;

    open spec fn view(&self) -> FrameView {
        match self {
            Decoded::Frame { payload, consumed } => FrameView::Frame(payload@, *consumed as nat),
            Decoded::Incomplete => FrameView::Incomplete,
            Decoded::Oversized => FrameView::Oversized,
        }
    }
}

/// Reading the prefix of `n`'s bytes gives `n` back.
pub proof fn lemma_prefix_round_trip(n: u32)
    ensures
        prefix_value(length_prefix(n)) == n,
{
    let b = length_prefix(n);
    assert(b[0] == (n >> 24u32) as u8);
    assert(b[1] == (n >> 16u32) as u8);
    assert(b[2] == (n >> 8u32) as u8);
    assert(b[3] == n as u8);
    assert(((((n >> 24u32) as u8) as u32) << 24u32) | ((((n >> 16u32) as u8) as u32) << 16u32)
        | ((((n >> 8u32) as u8) as u32) << 8u32) | ((n as u8) as u32) == n) by (bit_vector);
}

/// A framed payload decodes to itself, whatever bytes follow the frame.
pub proof fn lemma_frame_round_trip(p: Seq<u8>, rest: Seq<u8>)
    requires
        p.len() <= MAX_FRAME_LEN,
    ensures
        decode_spec(frame_of(p) + rest) == FrameView::Frame(p, (PREFIX_LEN + p.len()) as nat),
{
    let buf = frame_of(p) + rest;
    lemma_prefix_round_trip(p.len() as u32);
    assert(buf.subrange(0, 4) == length_prefix(p.len() as u32));
    assert(prefix_value(buf) == prefix_value(length_prefix(p.len() as u32)));
    assert(buf.subrange(PREFIX_LEN as int, PREFIX_LEN + p.len()) =~= p);
}

/// Frames `payload`: its length in four big-endian bytes, then the payload.
pub fn encode_frame(payload: &Vec<u8>) -> (r: Result<Vec<u8>, FrameError>)
    ensures
        payload@.len() <= MAX_FRAME_LEN ==> (r matches Ok(f) && f@ == frame_of(payload@)),
        payload@.len() > MAX_FRAME_LEN ==> r == Err::<Vec<u8>, FrameError>(FrameError::TooLong),
{
    if payload.len() > MAX_FRAME_LEN {
        return Err(FrameError::TooLong);
    }
    let n: u32 = payload.len() as u32;
    let mut out: Vec<u8> = Vec::with_capacity(PREFIX_LEN + payload.len());
    out.push((n >> 24u32) as u8);
    out.push((n >> 16u32) as u8);
    out.push((n >> 8u32) as u8);
    out.push(n as u8);
    let mut i: usize = 0;
    while i < payload.len()
        invariant
            i <= payload@.len(),
            payload@.len() <= MAX_FRAME_LEN,
            n == payload@.len(),
            out@ == length_prefix(n) + payload@.subrange(0, i as int),
        decreases payload@.len() - i,
    {
        out.push(payload[i]);
        i += 1;
        assert(out@ =~= length_prefix(n) + payload@.subrange(0, i as int));
    }
    assert(payload@.subrange(0, i as int) =~= payload@);
    Ok(out)
}

/// Decodes the frame at the front of `buf`, if a whole one is there.
pub fn decode_frame(buf: &Vec<u8>) -> (r: Decoded)
    ensures
        r@ == decode_spec(buf@),
{
    if buf.len() < PREFIX_LEN {
        return Decoded::Incomplete;
    }
    let n: u32 = ((buf[0] as u32) << 24u32) | ((buf[1] as u32) << 16u32) | ((buf[2] as u32) << 8u32)
        | (buf[3] as u32);
    assert(n == prefix_value(buf@));
    if n as usize > MAX_FRAME_LEN {
        return Decoded::Oversized;
    }
    let len: usize = n as usize;
    if buf.len() - PREFIX_LEN < len {
        return Decoded::Incomplete;
    }
    let end: usize = PREFIX_LEN + len;
    let mut payload: Vec<u8> = Vec::with_capacity(len);
    let mut i: usize = PREFIX_LEN;
    while i < end
        invariant
            PREFIX_LEN <= i <= end,
            end <= buf@.len(),
            payload@ == buf@.subrange(PREFIX_LEN as int, i as int),
        decreases end - i,
    {
        payload.push(buf[i]);
        i += 1;
        assert(payload@ =~= buf@.subrange(PREFIX_LEN as int, i as int));
    }
    Decoded::Frame { payload, consumed: end }
}

/// Bytes received but not yet taken off as frames.
pub struct FrameBuffer {
    pending: Vec<u8>,
}

impl View for FrameBuffer {
    type V = Seq<u8>;

    closed spec fn view(&self) -> Seq<u8> {
        self.pending@
    }
}

/// Taking the next frame off `s` leaves `t` and yields `r`.
pub open spec fn next_frame_spec(
    s: Seq<u8>,
    t: Seq<u8>,
    r: Result<Option<Vec<u8>>, FrameError>,
) -> bool {
    match decode_spec(s) {
        FrameView::Frame(p, n) => r matches Ok(Some(f)) && f@ == p && t == s.subrange(
            n as int,
            s.len() as int,
        ),
        FrameView::Incomplete => r matches Ok(None) && t == s,
        FrameView::Oversized => r matches Err(e) && e == FrameError::TooLong && t == s,
    }
}

impl FrameBuffer {
    /// An empty buffer.
    pub fn new() -> (r: FrameBuffer)
        ensures
            r@ == Seq::<u8>::empty(),
    {
        FrameBuffer { pending: Vec::new() }
    }

    /// Appends received bytes.
    pub fn push(&mut self, bytes: &[u8])
        ensures
            final(self)@ == old(self)@ + bytes@,
    {
        let ghost start = self.pending@;
        let mut i: usize = 0;
        while i < bytes.len()
            invariant
                i <= bytes@.len(),
                self.pending@ == start + bytes@.subrange(0, i as int),
            decreases bytes@.len() - i,
        {
            self.pending.push(bytes[i]);
            i += 1;
            assert(self.pending@ =~= start + bytes@.subrange(0, i as int));
        }
        assert(bytes@.subrange(0, i as int) =~= bytes@);
    }

    /// Takes the frame at the front off the buffer and returns its payload:
    /// `None` while no whole frame is there, and an error for a prefix that
    /// announces a payload over `MAX_FRAME_LEN`, which leaves the buffer as it
    /// was.
    pub fn next_frame(&mut self) -> (r: Result<Option<Vec<u8>>, FrameError>)
        ensures
            next_frame_spec(old(self)@, final(self)@, r),
    {
        match decode_frame(&self.pending) {
            Decoded::Frame { payload, consumed } => {
                let mut rest: Vec<u8> = Vec::new();
                let mut i: usize = consumed;
                while i < self.pending.len()
                    invariant
                        consumed <= i <= self.pending@.len(),
                        rest@ == self.pending@.subrange(consumed as int, i as int),
                    decreases self.pending@.len() - i,
                {
                    rest.push(self.pending[i]);
                    i += 1;
                    assert(rest@ =~= self.pending@.subrange(consumed as int, i as int));
                }
                self.pending = rest;
                Ok(Some(payload))
            },
            Decoded::Incomplete => Ok(None),
            Decoded::Oversized => Err(FrameError::TooLong),
        }
    }
}


/// A framed payload that sits at the front of a buffer comes off it whole,
/// and what followed it stays.
pub proof fn lemma_buffer_round_trip(
    p: Seq<u8>,
    rest: Seq<u8>,
    t: Seq<u8>,
    r: Result<Option<Vec<u8>>, FrameError>,
)
    requires
        p.len() <= MAX_FRAME_LEN,
        next_frame_spec(frame_of(p) + rest, t, r),
    ensures
        r matches Ok(Some(f)) && f@ == p,
        t == rest,
{
    let buf = frame_of(p) + rest;
    let n = (PREFIX_LEN + p.len()) as nat;
    lemma_frame_round_trip(p, rest);
    assert(decode_spec(buf) == FrameView::Frame(p, n));
    assert(buf.len() == n + rest.len());
    assert(buf.subrange(n as int, buf.len() as int) =~= rest);
}

} // verus!
