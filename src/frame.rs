use vstd::prelude::*;

use crate::error::CoreError;

verus! {

/// The largest payload a frame can carry.
pub const MAX_FRAME_SIZE: usize = 65535;

/// The two-byte length prefix of a frame, most significant byte first.
pub open spec fn length_prefix(n: nat) -> Seq<u8> {
    seq![(n / 256) as u8, (n % 256) as u8]
}

/// The number that a two-byte prefix announces.
pub open spec fn prefix_value(hi: u8, lo: u8) -> nat {
    hi as nat * 256 + lo as nat
}

/// The bytes that carry `payload` on the wire.
pub open spec fn wire_of(payload: Seq<u8>) -> Seq<u8> {
    length_prefix(payload.len()) + payload
}

/// What a buffer that starts with a whole frame holds: the payload and the
/// number of bytes the frame takes; `None` while the frame is incomplete.
pub open spec fn parse_wire(bytes: Seq<u8>) -> Option<(Seq<u8>, nat)> {
    if bytes.len() < 2 {
        None
    } else {
        let n = prefix_value(bytes[0], bytes[1]);
        if bytes.len() < 2 + n {
            None
        } else {
            Some((bytes.subrange(2, 2 + n as int), 2 + n))
        }
    }
}

/// Encoding a payload of allowed length and parsing the bytes gives the
/// payload back, and the frame takes all of the bytes.
pub proof fn lemma_wire_round_trip(payload: Seq<u8>)
    requires
        payload.len() <= MAX_FRAME_SIZE,
    ensures
        parse_wire(wire_of(payload)) == Some((payload, payload.len() + 2)),
        wire_of(payload).len() == payload.len() + 2,
{
    let n = payload.len();
    let w = wire_of(payload);
    assert(((n / 256) as u8) as nat == n / 256);
    assert(((n % 256) as u8) as nat == n % 256);
    assert(prefix_value(w[0], w[1]) == n);
    assert(w.subrange(2, 2 + n as int) =~= payload);
}

/// A payload that is about to become a frame.
#[derive(Debug, Clone, PartialEq, Eq)]
pub struct FrameBody {
    pub data: Vec<u8>,
}

impl FrameBody {
    pub fn len(&self) -> (r: usize)
        ensures
            r == self.data@.len(),
    {
        self.data.len()
    }
}

/// A length-prefixed unit of the wire; its payload never exceeds
/// `MAX_FRAME_SIZE` bytes.
#[derive(Debug, PartialEq, Eq)]
pub struct Frame {
    data: Vec<u8>,
}

/// Checks that `length` may be the length of a frame, and returns it as a
/// two-byte number.
pub fn check_length(length: usize) -> (r: Result<u16, CoreError>)
    ensures
        length <= MAX_FRAME_SIZE ==> r == Ok::<u16, CoreError>(length as u16),
        length > MAX_FRAME_SIZE ==> r == Err::<u16, CoreError>(CoreError::FrameTooLarge(length)),
{
    if length > MAX_FRAME_SIZE {
        return Err(CoreError::FrameTooLarge(length));
    }
    Ok(length as u16)
}

impl Frame {
    #[verifier::type_invariant]
    spec fn fits(self) -> bool {
        self.data@.len() <= MAX_FRAME_SIZE
    }

    /// The payload.
    pub closed spec fn payload(self) -> Seq<u8> {
        self.data@
    }

    /// Makes a frame of a copy of `data`.
    pub fn raw(data: &[u8]) -> (r: Result<Frame, CoreError>)
        ensures
            data@.len() <= MAX_FRAME_SIZE ==> r is Ok && r->Ok_0.payload() == data@,
            data@.len() > MAX_FRAME_SIZE ==> r == Err::<Frame, CoreError>(
                CoreError::FrameTooLarge(data@.len() as usize),
            ),
    {
        check_length(data.len())?;
        Ok(Frame { data: vstd::slice::slice_to_vec(data) })
    }

    /// Makes a frame of `body`.
    pub fn build(body: FrameBody) -> (r: Result<Frame, CoreError>)
        ensures
            body.data@.len() <= MAX_FRAME_SIZE ==> r is Ok && r->Ok_0.payload() == body.data@,
            body.data@.len() > MAX_FRAME_SIZE ==> r == Err::<Frame, CoreError>(
                CoreError::FrameTooLarge(body.data@.len() as usize),
            ),
    {
        let length = body.len();
        check_length(length)?;
        Ok(Frame { data: body.data })
    }

    /// The payload length.
    pub fn len(&self) -> (r: u16)
        ensures
            r as nat == self.payload().len(),
    {
        proof {
            use_type_invariant(self);
        }
        self.data.len() as u16
    }

    /// The bytes that carry this frame on the wire: the two-byte length,
    /// most significant byte first, then the payload.
    pub fn encode(&self) -> (r: Vec<u8>)
        ensures
            r@ == wire_of(self.payload()),
    {
        proof {
            use_type_invariant(self);
        }
        let n = self.data.len();
        let mut out: Vec<u8> = Vec::new();
        out.push((n / 256) as u8);
        out.push((n % 256) as u8);
        let mut i: usize = 0;
        while i < n
            invariant
                n == self.data@.len(),
                i <= n,
                out@ =~= length_prefix(n as nat) + self.data@.subrange(0, i as int),
            decreases n - i,
        {
            out.push(self.data[i]);
            i = i + 1;
            assert(self.data@.subrange(0, i as int) =~= self.data@.subrange(0, i - 1) + seq![
                self.data@[i - 1],
            ]);
        }
        assert(self.data@.subrange(0, n as int) =~= self.data@);
        out
    }

    /// The length that a frame header announces.
    pub fn announced_length(hi: u8, lo: u8) -> (r: Result<usize, CoreError>)
        ensures
            r == Ok::<usize, CoreError>(prefix_value(hi, lo) as usize),
            prefix_value(hi, lo) <= MAX_FRAME_SIZE,
    {
        let len: usize = hi as usize * 256 + lo as usize;
        check_length(len)?;
        Ok(len)
    }

    /// Reads the frame at the start of `bytes`: the frame and the number of
    /// bytes it takes, or `None` while the frame is incomplete.
    pub fn decode(bytes: &[u8]) -> (r: Option<(Frame, usize)>)
        ensures
            match parse_wire(bytes@) {
                None => r is None,
                Some((p, used)) => r is Some && r->Some_0.0.payload() == p && r->Some_0.1 == used,
            },
    {
        if bytes.len() < 2 {
            return None;
        }
        let n: usize = bytes[0] as usize * 256 + bytes[1] as usize;
        if bytes.len() - 2 < n {
            return None;
        }
        let total = bytes.len();
        let mut data: Vec<u8> = Vec::new();
        let mut i: usize = 0;
        while i < n
            invariant
                total == bytes@.len(),
                i <= n,
                2 + n <= bytes@.len(),
                data@ =~= bytes@.subrange(2, 2 + i),
            decreases n - i,
        {
            data.push(bytes[2 + i]);
            i = i + 1;
        }
        Some((Frame { data }, n + 2))
    }

    /// The payload.
    pub fn data(&self) -> (r: &[u8])
        ensures
            r@ == self.payload(),
    {
        self.data.as_slice()
    }
}

} // verus!
