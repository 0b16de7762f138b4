//! The frame codec: from the bytes of a bucket to one record and the entry
//! in it, and from a record back to its bytes.
//!
//! A record keeps the payload that it was decoded from, and is encoded with
//! that payload. So decoding what was encoded gives the record back, byte for
//! byte and field for field.

use vstd::prelude::*;
use vstd::slice::{slice_subrange, slice_to_vec};
use crate::decode::{decode_entry, decoded};
use crate::entry::{BucketEntry, BucketEntryView};
use crate::frame::{framed, locate_payload, next_payload, push_frame, FrameError, MAX_PAYLOAD};

verus! {

/// Why the bytes at a position are no record.
#[derive(Clone, Copy, Debug, PartialEq, Eq, Structural)]
pub enum DecodeError {
    /// Fewer than four bytes are left, so there is no length prefix.
    TruncatedPrefix,
    /// The prefix declares more payload bytes than are left.
    TruncatedPayload,
    /// The payload is not the encoding of one bucket entry, or it is nested
    /// more deeply than the codec is let to read.
    Malformed,
}

/// Why an entry cannot be written as a record.
#[derive(Clone, Copy, Debug, PartialEq, Eq, Structural)]
pub enum EncodeError {
    /// The payload is longer than a length prefix can declare.
    TooLong,
}

/// One record of a bucket: the entry, and the payload that encodes it.
#[derive(Clone, Debug, PartialEq, Eq)]
pub struct Frame {
    /// The bytes of the record after its length prefix.
    pub payload: Vec<u8>,
    /// The entry that the payload encodes.
    pub entry: BucketEntry,
}

/// A record as a mathematical value.
pub struct FrameView {
    pub payload: Seq<u8>,
    pub entry: BucketEntryView,
}

impl View for Frame {
    type V = FrameView;

    open spec fn view(&self) -> FrameView {
        FrameView { payload: self.payload@, entry: self.entry@ }
    }
}

impl FrameView {
    /// Whether this record is one that decoding yields: the payload fits a
    /// length prefix, and the entry is what the payload encodes.
    pub open spec fn wf(self) -> bool {
        self.payload.len() <= MAX_PAYLOAD && decoded(self.payload) == Some(self.entry)
    }
}

/// What a frame error means for a bucket.
pub open spec fn framing_error(e: FrameError) -> DecodeError {
    match e {
        FrameError::TruncatedPrefix => DecodeError::TruncatedPrefix,
        FrameError::TruncatedPayload => DecodeError::TruncatedPayload,
    }
}

/// What lies at `cursor` in `buffer`: the end of the data (`Ok(None)`), a
/// record and the position after it, or the reason why there is no record.
pub open spec fn next_frame(buffer: Seq<u8>, cursor: int) -> Result<
    Option<(FrameView, int)>,
    DecodeError,
> {
    match next_payload(buffer, cursor) {
        Ok(None) => Ok(None),
        Ok(Some((start, end))) => match decoded(buffer.subrange(start, end)) {
            Some(entry) => Ok(Some((FrameView { payload: buffer.subrange(start, end), entry }, end))),
            None => Err(DecodeError::Malformed),
        },
        Err(e) => Err(framing_error(e)),
    }
}

/// The bytes of a record: its length prefix, then its payload.
pub open spec fn encoded(frame: FrameView) -> Seq<u8> {
    framed(frame.payload)
}

/// Decodes the record that starts at `cursor`.
///
/// At or past the end of the buffer there is none: `Ok(None)`. Otherwise the
/// length prefix is read, the declared length is held against what is left
/// of the buffer, and the payload is decoded; the position that comes back
/// is the one after the record.
pub fn decode_next(buffer: &[u8], cursor: usize) -> (r: Result<Option<(Frame, usize)>, DecodeError>)
    ensures
        match next_frame(buffer@, cursor as int) {
            Ok(None) => r matches Ok(None),
            Ok(Some((frame, next))) => r matches Ok(Some((f, n))) && f@ == frame && n == next
                && cursor < n <= buffer@.len() && f@.wf(),
            Err(e) => r matches Err(d) && d == e,
        },
{
    match locate_payload(buffer, cursor) {
        Ok(None) => Ok(None),
        Ok(Some((start, end))) => {
            let bytes = slice_subrange(buffer, start, end);
            match decode_entry(bytes) {
                Some(entry) => {
                    let payload = slice_to_vec(bytes);
                    Ok(Some((Frame { payload, entry }, end)))
                },
                None => Err(DecodeError::Malformed),
            }
        },
        Err(FrameError::TruncatedPrefix) => Err(DecodeError::TruncatedPrefix),
        Err(FrameError::TruncatedPayload) => Err(DecodeError::TruncatedPayload),
    }
}

/// Encodes a record: the length prefix of the payload, then the payload.
///
/// Fails only for a payload that no prefix can declare, which no decoded
/// record has.
///
/// The bytes of a record that decoding yields are decoded to that record
/// again.
pub fn encode(frame: &Frame) -> (r: Result<Vec<u8>, EncodeError>)
    ensures
        match r {
            Ok(bytes) => frame@.payload.len() <= MAX_PAYLOAD && bytes@ == encoded(frame@),
            Err(e) => frame@.payload.len() > MAX_PAYLOAD && e == EncodeError::TooLong,
        },
        frame@.wf() ==> r is Ok && next_frame(encoded(frame@), 0) == Ok::<
            Option<(FrameView, int)>,
            DecodeError,
        >(Some((frame@, encoded(frame@).len() as int))),
{
    if frame.payload.len() > MAX_PAYLOAD {
        return Err(EncodeError::TooLong);
    }
    let mut out: Vec<u8> = Vec::new();
    push_frame(&mut out, frame.payload.as_slice());
    proof {
        assert(out@ =~= framed(frame.payload@));
        if frame@.wf() {
            lemma_decode_encode(Seq::empty(), frame@, Seq::empty());
            assert(Seq::<u8>::empty() + encoded(frame@) + Seq::<u8>::empty() =~= encoded(frame@));
        }
    }
    Ok(out)
}

/// A record that is found at a position is one that decoding yields, and it
/// ends after the position and within the buffer.
pub(crate) proof fn lemma_next_frame(buffer: Seq<u8>, cursor: int)
    ensures
        next_frame(buffer, cursor) matches Ok(Some((frame, next))) ==> frame.wf() && cursor < next
            <= buffer.len() && buffer.subrange(cursor + 4, next) == frame.payload,
{
}

/// Decoding undoes encoding: a record that decoding yields, encoded and put
/// between any bytes, is decoded again to the same record, and the position
/// after it is the one after its bytes.
pub proof fn lemma_decode_encode(before: Seq<u8>, frame: FrameView, after: Seq<u8>)
    requires
        frame.wf(),
    ensures
        next_frame(before + encoded(frame) + after, before.len() as int) == Ok::<
            Option<(FrameView, int)>,
            DecodeError,
        >(Some((frame, before.len() as int + encoded(frame).len() as int))),
{
    let buffer = before + encoded(frame) + after;
    let start = before.len() as int + 4;
    let end = start + frame.payload.len() as int;
    crate::frame::lemma_framed_is_located(before, frame.payload, after);
    assert(next_payload(buffer, before.len() as int) == Ok::<Option<(int, int)>, FrameError>(
        Some((start, end)),
    ));
    assert(buffer.subrange(start, end) == frame.payload);
    assert(encoded(frame).len() == 4 + frame.payload.len());
}

} // verus!
