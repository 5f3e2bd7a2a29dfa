//! Framing of messages on a byte stream: four bytes that give the length of
//! the payload, least significant byte first, then the payload.
//!
//! A stream hands out its bytes in pieces of any size. The reader of a frame
//! takes the pieces as they come, asks for no more than the frame still
//! lacks, and knows when the frame is whole. A stream that ends before that
//! is an error.

use vstd::prelude::*;
use vstd::bytes::{
    lemma_auto_spec_u32_to_from_le_bytes, spec_u32_from_le_bytes, spec_u32_to_le_bytes,
    u32_from_le_bytes, u32_to_le_bytes,
};

verus! {

/// The number of bytes that give the length of the payload.
pub const HEADER_LEN: usize = 4;

/// What can go wrong with a frame.
#[derive(Clone, Copy, Debug, PartialEq, Eq)]
pub enum FrameError {
    /// The payload has more bytes than the header can tell.
    PayloadTooLong,
    /// The stream ended before the frame was whole.
    UnexpectedEof,
}

/// The length of the payload that the first four of `bytes` announce.
pub open spec fn declared_len(bytes: Seq<u8>) -> nat
    recommends
        bytes.len() >= 4,
{
    spec_u32_from_le_bytes(bytes.take(4)) as nat
}

/// Whether `bytes` are the beginning of a frame, or all of it: there are no
/// more of them than the header and the payload it announces.
pub open spec fn within_frame(bytes: Seq<u8>) -> bool {
    bytes.len() < 4 || bytes.len() <= 4 + declared_len(bytes)
}

/// Whether `bytes` are exactly one frame.
pub open spec fn is_frame(bytes: Seq<u8>) -> bool {
    bytes.len() >= 4 && bytes.len() == 4 + declared_len(bytes)
}

/// The number of bytes that `bytes` lack to be one frame, as far as can be
/// told: the rest of the header while that is not whole, then the rest of
/// the payload.
pub open spec fn missing(bytes: Seq<u8>) -> nat {
    if bytes.len() < 4 {
        (4 - bytes.len()) as nat
    } else if bytes.len() <= 4 + declared_len(bytes) {
        (4 + declared_len(bytes) - bytes.len()) as nat
    } else {
        0
    }
}

/// The payload of a frame.
pub open spec fn payload_of(frame: Seq<u8>) -> Seq<u8> {
    frame.skip(4)
}

/// The frame that carries `payload`.
pub open spec fn frame_of(payload: Seq<u8>) -> Seq<u8>
    recommends
        payload.len() <= u32::MAX,
{
    spec_u32_to_le_bytes(payload.len() as u32) + payload
}

/// Appends the bytes of `source` from `from` up to `to` to `target`.
fn append(target: &mut Vec<u8>, source: &[u8], from: usize, to: usize)
    requires
        from <= to <= source@.len(),
    ensures
        final(target)@ == old(target)@ + source@.subrange(from as int, to as int),
{
    let mut i: usize = from;
    while i < to
        invariant
            from <= i <= to <= source@.len(),
            target@ == old(target)@ + source@.subrange(from as int, i as int),
        decreases to - i,
    {
        target.push(source[i]);
        i = i + 1;
    }
}

/// Frames `payload`: its length in four bytes, then the payload itself.
pub fn encode_frame(payload: &[u8]) -> (frame: Result<Vec<u8>, FrameError>)
    ensures
        match frame {
            Ok(bytes) => payload@.len() <= u32::MAX && bytes@ == frame_of(payload@),
            Err(error) => payload@.len() > u32::MAX && error == FrameError::PayloadTooLong,
        },
{
    if payload.len() > u32::MAX as usize {
        return Err(FrameError::PayloadTooLong);
    }
    let mut bytes = u32_to_le_bytes(payload.len() as u32);
    append(&mut bytes, payload, 0, payload.len());
    Ok(bytes)
}

/// The bytes of one frame as far as they have been read.
#[derive(Debug, PartialEq, Eq)]
pub struct FrameReader {
    header: Vec<u8>,
    payload: Vec<u8>,
}

impl View for FrameReader {
    type V = Seq<u8>;

    /// The bytes read so far, header first.
    closed spec fn view(&self) -> Seq<u8> {
        self.header@ + self.payload@
    }
}

impl FrameReader {
    #[verifier::type_invariant]
    spec fn well_formed(self) -> bool {
        &&& self.header@.len() <= 4
        &&& self.header@.len() < 4 ==> self.payload@.len() == 0
        &&& self.header@.len() == 4 ==> self.payload@.len() <= spec_u32_from_le_bytes(
            self.header@,
        )
    }

    /// A reader that has read nothing.
    pub fn new() -> (reader: FrameReader)
        ensures
            reader@ == Seq::<u8>::empty(),
    {
        FrameReader { header: Vec::new(), payload: Vec::new() }
    }

    /// The number of bytes to read next: what the header lacks, or what the
    /// payload lacks once the header tells its length. Nothing is wanted
    /// exactly when the frame is whole.
    pub fn wanted(&self) -> (count: usize)
        ensures
            within_frame(self@),
            count == missing(self@),
            count == 0 <==> is_frame(self@),
    {
        proof {
            use_type_invariant(self);
            if self.header@.len() == 4 {
                assert(self@.take(4) == self.header@);
            }
        }
        if self.header.len() < HEADER_LEN {
            HEADER_LEN - self.header.len()
        } else {
            let declared = u32_from_le_bytes(self.header.as_slice()) as usize;
            declared - self.payload.len()
        }
    }

    /// Takes the bytes of `chunk` in, up to the end of the frame, and tells
    /// how many were taken. Bytes are left over only where the frame is
    /// whole.
    pub fn accept(&mut self, chunk: &[u8]) -> (taken: usize)
        ensures
            taken <= chunk@.len(),
            final(self)@ == old(self)@ + chunk@.take(taken as int),
            within_frame(final(self)@),
            taken < chunk@.len() ==> is_frame(final(self)@),
    {
        let mut reader = FrameReader::new();
        core::mem::swap(self, &mut reader);
        proof {
            use_type_invariant(&reader);
        }
        let FrameReader { mut header, mut payload } = reader;
        let mut taken: usize = 0;
        if header.len() < HEADER_LEN {
            let lacking = HEADER_LEN - header.len();
            taken = if chunk.len() < lacking {
                chunk.len()
            } else {
                lacking
            };
            append(&mut header, chunk, 0, taken);
        }
        if header.len() == HEADER_LEN {
            let declared = u32_from_le_bytes(header.as_slice()) as usize;
            let lacking = declared - payload.len();
            let rest = chunk.len() - taken;
            let more = if rest < lacking {
                rest
            } else {
                lacking
            };
            append(&mut payload, chunk, taken, taken + more);
            taken = taken + more;
            assert((header@ + payload@).take(4) == header@);
        }
        *self = FrameReader { header, payload };
        taken
    }

    /// Whether the frame is whole.
    pub fn is_complete(&self) -> (complete: bool)
        ensures
            complete == is_frame(self@),
    {
        self.wanted() == 0
    }

    /// Ends the reading: the payload where the frame is whole, and an error
    /// where the stream ended before that.
    pub fn finish(self) -> (payload: Result<Vec<u8>, FrameError>)
        ensures
            match payload {
                Ok(bytes) => is_frame(self@) && bytes@ == payload_of(self@),
                Err(error) => !is_frame(self@) && error == FrameError::UnexpectedEof,
            },
    {
        if self.is_complete() {
            proof {
                use_type_invariant(&self);
            }
            Ok(self.payload)
        } else {
            Err(FrameError::UnexpectedEof)
        }
    }
}

/// Reads one frame from the beginning of `bytes`: its payload and the
/// number of bytes that the frame takes. Fails where `bytes` end before the
/// frame does.
pub fn decode_frame(bytes: &[u8]) -> (decoded: Result<(Vec<u8>, usize), FrameError>)
    ensures
        match decoded {
            Ok((payload, used)) => used <= bytes@.len() && is_frame(bytes@.take(used as int))
                && payload@ == payload_of(bytes@.take(used as int)),
            Err(error) => within_frame(bytes@) && !is_frame(bytes@) && error
                == FrameError::UnexpectedEof,
        },
{
    let mut reader = FrameReader::new();
    let used = reader.accept(bytes);
    assert(used == bytes@.len() ==> bytes@.take(used as int) == bytes@);
    match reader.finish() {
        Ok(payload) => Ok((payload, used)),
        Err(error) => Err(error),
    }
}

/// What goes into a frame comes out of it: the frame of a payload is one
/// frame, its payload is the one that went in, and no shorter beginning of
/// it is a frame, so that a reader fed with it in pieces of any size takes
/// all of it and nothing beyond.
pub proof fn lemma_frame_round_trip(payload: Seq<u8>)
    requires
        payload.len() <= u32::MAX,
    ensures
        is_frame(frame_of(payload)),
        payload_of(frame_of(payload)) == payload,
        forall|k: int|
            0 <= k < frame_of(payload).len() ==> within_frame(#[trigger] frame_of(payload).take(k))
                && !is_frame(frame_of(payload).take(k)),
{
    lemma_auto_spec_u32_to_from_le_bytes();
    let frame = frame_of(payload);
    let header = spec_u32_to_le_bytes(payload.len() as u32);
    assert(frame.take(4) == header);
    assert forall|k: int| 0 <= k < frame.len() implies within_frame(#[trigger] frame.take(k))
        && !is_frame(frame.take(k)) by {
        if k >= 4 {
            assert(frame.take(k).take(4) == header);
        }
    }
}

/// A reader that has read the beginning of a frame and is handed the bytes
/// that follow takes all of them: whatever the size of the pieces, none is
/// cut short before the frame is whole. Here `held` bytes of the frame are
/// read, `offered` more are handed over, and `taken` is a count that meets
/// what `accept` promises of the bytes it takes.
pub proof fn lemma_pieces_are_taken_whole(payload: Seq<u8>, held: int, offered: int, taken: int)
    requires
        payload.len() <= u32::MAX,
        0 <= held <= held + offered <= frame_of(payload).len(),
        0 <= taken <= offered,
        within_frame(
            frame_of(payload).take(held) + frame_of(payload).subrange(held, held + offered).take(
                taken,
            ),
        ),
        taken < offered ==> is_frame(
            frame_of(payload).take(held) + frame_of(payload).subrange(held, held + offered).take(
                taken,
            ),
        ),
    ensures
        taken == offered,
{
    let frame = frame_of(payload);
    lemma_frame_round_trip(payload);
    assert(frame.take(held) + frame.subrange(held, held + offered).take(taken) == frame.take(
        held + taken,
    ));
}

/// One frame at most begins a series of bytes: the beginning of `bytes`
/// that is a frame has the length that the header announces.
pub proof fn lemma_frame_is_unique(bytes: Seq<u8>, used: int)
    requires
        0 <= used <= bytes.len(),
        is_frame(bytes.take(used)),
    ensures
        used == 4 + declared_len(bytes),
{
    assert(bytes.take(used).take(4) == bytes.take(4));
}

/// Two frames are equal only if their payloads are.
pub proof fn lemma_frame_is_injective(first: Seq<u8>, second: Seq<u8>)
    requires
        first.len() <= u32::MAX,
        second.len() <= u32::MAX,
        frame_of(first) == frame_of(second),
    ensures
        first == second,
{
    lemma_frame_round_trip(first);
    lemma_frame_round_trip(second);
}

} // verus!
