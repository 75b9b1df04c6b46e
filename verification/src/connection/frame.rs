use super::wire::{
    le_at, lemma_u32_bytes_of_value, lemma_u32_round_trip, put_bytes, put_u32, take_u32, u32_bytes,
};
use super::ConnectionError;
use vstd::prelude::*;
use vstd::slice::slice_subrange;

verus! {

/// A value that travels as one frame: a length prefix of four bytes, least
/// significant first, and then the payload, which is the value's encoding.
pub trait FrameType: View + Sized {
    /// The payload of a value: its tag, where the type has variants, and then
    /// its fields, integers in fixed width with the least significant byte
    /// first, texts and lists behind their length.
    spec fn payload(value: Self::V) -> Seq<u8>;

    /// The value whose payload `data` is; none where `data` is no value's payload.
    spec fn decoded(data: Seq<u8>) -> Option<Self::V>;

    /// Decoding the payload of a value gives the value back.
    proof fn lemma_decoded_payload(value: Self::V)
        requires
            Self::payload(value).len() <= u64::MAX,
        ensures
            Self::decoded(Self::payload(value)) == Some(value),
    ;

    /// What decodes to a value is that value's payload.
    proof fn lemma_payload_decoded(data: Seq<u8>)
        requires
            Self::decoded(data) is Some,
        ensures
            Self::payload(Self::decoded(data).unwrap()) == data,
    ;

    /// Bytes that decode to nothing are the payload of no value.
    proof fn lemma_undecoded_is_no_payload(data: Seq<u8>)
        requires
            data.len() <= u64::MAX,
            Self::decoded(data) is None,
        ensures
            forall|v: Self::V| #[trigger] Self::payload(v) != data,
    {
        assert forall|v: Self::V| #[trigger] Self::payload(v) != data by {
            if Self::payload(v) == data {
                Self::lemma_decoded_payload(v);
            }
        }
    }

    /// Encodes the value.
    fn encode(&self) -> (bytes: Vec<u8>)
        ensures
            bytes@ == Self::payload(self@),
    ;

    /// Decodes a payload: gives the value whose payload `data` is, and
    /// fails exactly where `data` is the payload of no value.
    fn decode(data: &[u8]) -> (value: Result<Self, ConnectionError>)
        ensures
            match value {
                Ok(v) => Self::payload(v@) == data@ && Self::decoded(data@) == Some(v@),
                Err(e) => {
                    &&& e == ConnectionError::DecodingFailure
                    &&& Self::decoded(data@) is None
                    &&& forall|v: Self::V| #[trigger] Self::payload(v) != data@
                },
            },
    ;

}

/// What reading a frame from the front of a stream gives while the stream
/// has not failed: a frame and the number of bytes it took, or the number of
/// bytes that are still missing.
#[derive(Debug, PartialEq, Eq)]
pub enum FrameRead<F> {
    Complete { frame: F, consumed: usize },
    Incomplete { missing: usize },
}

/// The frame of a payload: its length as a `u32`, then the payload.
pub open spec fn frame_bytes(payload: Seq<u8>) -> Seq<u8> {
    u32_bytes(payload.len() as u32) + payload
}

/// The number of bytes that the first frame of a stream takes, as far as
/// `received` tells: four while the length is not there, then the length's
/// four bytes and as many as it says.
pub open spec fn frame_len(received: Seq<u8>) -> nat {
    if received.len() < 4 {
        4
    } else {
        4 + le_at(received, 0, 4)
    }
}

/// The frame of a value: the length of its payload, then the payload. A
/// payload whose length four bytes cannot say has no frame.
pub fn write_frame_to<F: FrameType>(frame: &F) -> (written: Result<Vec<u8>, ConnectionError>)
    ensures
        match written {
            Ok(bytes) => F::payload(frame@).len() <= u32::MAX && bytes@ == frame_bytes(
                F::payload(frame@),
            ),
            Err(e) => e == ConnectionError::EncodingFailure && F::payload(frame@).len() > u32::MAX,
        },
{
    let payload = frame.encode();
    if payload.len() > 0xffff_ffff {
        return Err(ConnectionError::EncodingFailure);
    }
    let mut bytes: Vec<u8> = Vec::new();
    put_u32(&mut bytes, payload.len() as u32);
    put_bytes(&mut bytes, payload.as_slice());
    assert(bytes@ =~= frame_bytes(payload@));
    Ok(bytes)
}

/// Reads one frame from the front of what a stream has delivered so far,
/// `closed` saying whether the stream has ended. With fewer than the four
/// bytes of a length, or fewer bytes behind them than the length says, the
/// frame is incomplete while the stream is open; once it has closed, the
/// first is the regular end of a connection and the second a frame of the
/// wrong size. With the whole frame there, its payload decodes or the frame
/// is refused. The bytes are only looked at, so a read that was given up
/// loses nothing: the caller keeps them and asks again when more have come.
pub fn read_frame_from<F: FrameType>(received: &[u8], closed: bool) -> (read: Result<
    FrameRead<F>,
    ConnectionError,
>)
    ensures
        match read {
            Ok(FrameRead::Complete { frame, consumed }) => {
                &&& frame_len(received@) <= received@.len()
                &&& consumed == frame_len(received@)
                &&& F::payload(frame@) == received@.subrange(4, consumed as int)
                &&& F::decoded(received@.subrange(4, consumed as int)) == Some(frame@)
            },
            Ok(FrameRead::Incomplete { missing }) => {
                &&& !closed
                &&& received@.len() < frame_len(received@)
                &&& missing == frame_len(received@) - received@.len()
            },
            Err(ConnectionError::ConnectionClosed) => closed && received@.len() < 4,
            Err(ConnectionError::InvalidFrameSize) => {
                &&& closed
                &&& 4 <= received@.len() < frame_len(received@)
            },
            Err(e) => {
                &&& e == ConnectionError::DecodingFailure
                &&& frame_len(received@) <= received@.len()
                &&& F::decoded(received@.subrange(4, frame_len(received@) as int)) is None
                &&& forall|v: F::V| #[trigger]
                    F::payload(v) != received@.subrange(4, frame_len(received@) as int)
            },
        },
{
    let size = match take_u32(received, 0) {
        Some((size, _)) => size,
        None => {
            return if closed {
                Err(ConnectionError::ConnectionClosed)
            } else {
                Ok(FrameRead::Incomplete { missing: 4 - received.len() })
            };
        },
    };
    proof {
        lemma_u32_bytes_of_value(received@.subrange(0, 4));
    }
    let there: usize = received.len() - 4;
    if (there as u64) < (size as u64) {
        return if closed {
            Err(ConnectionError::InvalidFrameSize)
        } else {
            Ok(FrameRead::Incomplete { missing: (size as u64 - there as u64) as usize })
        };
    }
    let end: usize = 4 + size as usize;
    match F::decode(slice_subrange(received, 4, end)) {
        Ok(frame) => Ok(FrameRead::Complete { frame, consumed: end }),
        Err(e) => Err(e),
    }
}

/// A frame reads back as the value it was written from, whatever follows it
/// in the stream, and the length it declares is the length of its payload:
/// for every value whose payload length four bytes can say.
pub proof fn lemma_frame_round_trip<F: FrameType>(value: F::V, rest: Seq<u8>)
    requires
        F::payload(value).len() <= u32::MAX,
    ensures
        le_at(frame_bytes(F::payload(value)) + rest, 0, 4) == F::payload(value).len(),
        frame_len(frame_bytes(F::payload(value)) + rest) == 4 + F::payload(value).len(),
        F::decoded(
            (frame_bytes(F::payload(value)) + rest).subrange(4, 4 + F::payload(value).len() as int),
        ) == Some(value),
{
    let payload = F::payload(value);
    let prefix = u32_bytes(payload.len() as u32);
    let stream = frame_bytes(payload) + rest;
    lemma_u32_round_trip(payload.len() as u32);
    assert(stream.subrange(0, 4) =~= prefix);
    assert(stream.subrange(4, 4 + payload.len() as int) =~= payload);
    F::lemma_decoded_payload(value);
}

} // verus!
