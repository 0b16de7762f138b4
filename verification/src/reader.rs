//! The reader: the records of one bucket, in the order of the file.

use vstd::prelude::*;
use crate::codec::{
    decode_next, encoded, lemma_decode_encode, lemma_next_frame, next_frame, DecodeError, Frame,
    FrameView,
};

verus! {

/// What reading a buffer from a position yields: the records up to the end
/// of the data or to the first position that holds no record, and the reason
/// why reading stopped there, if it did.
pub struct Reading {
    pub frames: Seq<FrameView>,
    pub error: Option<DecodeError>,
}

/// The reading of `buffer` from `cursor` on.
pub open spec fn read_from(buffer: Seq<u8>, cursor: int) -> Reading
    decreases buffer.len() - cursor,
{
    match next_frame(buffer, cursor) {
        Ok(None) => Reading { frames: Seq::empty(), error: None },
        Ok(Some((frame, next))) => if cursor < next {
            let rest = read_from(buffer, next);
            Reading { frames: seq![frame] + rest.frames, error: rest.error }
        } else {
            Reading { frames: Seq::empty(), error: None }
        },
        Err(e) => Reading { frames: Seq::empty(), error: Some(e) },
    }
}

/// The reading of a whole buffer.
pub open spec fn read(buffer: Seq<u8>) -> Reading {
    read_from(buffer, 0)
}

/// The bytes of a sequence of records, one after the other.
pub open spec fn encoded_all(frames: Seq<FrameView>) -> Seq<u8>
    decreases frames.len(),
{
    if frames.len() == 0 {
        Seq::empty()
    } else {
        encoded(frames.first()) + encoded_all(frames.drop_first())
    }
}

/// Whether every record of a sequence is one that decoding yields.
pub open spec fn all_wf(frames: Seq<FrameView>) -> bool {
    forall|i: int| 0 <= i < frames.len() ==> (#[trigger] frames[i]).wf()
}

/// A forward-only reader over the bytes of one bucket. It yields each record
/// once; after the end of the data or the first error it yields nothing more.
pub struct BucketReader<'a> {
    buffer: &'a [u8],
    cursor: usize,
    stopped: bool,
}

impl<'a> BucketReader<'a> {
    /// The bytes that the reader reads.
    pub closed spec fn buffer(&self) -> Seq<u8> {
        self.buffer@
    }

    /// The position of the next record.
    pub closed spec fn position(&self) -> int {
        self.cursor as int
    }

    /// Whether the reader has stopped on an error.
    pub closed spec fn stopped(&self) -> bool {
        self.stopped
    }

    /// What is still to come: the reading from the reader's position on, and
    /// nothing once it has stopped.
    pub open spec fn remaining(&self) -> Reading {
        if self.stopped() {
            Reading { frames: Seq::empty(), error: None }
        } else {
            read_from(self.buffer(), self.position())
        }
    }

    /// A reader at the start of `buffer`.
    pub fn new(buffer: &'a [u8]) -> (r: BucketReader<'a>)
        ensures
            r.buffer() == buffer@,
            r.position() == 0,
            !r.stopped(),
            r.remaining() == read(buffer@),
    {
        BucketReader { buffer, cursor: 0, stopped: false }
    }

    /// The next record: `Some(Ok(..))` while records are left, `Some(Err(..))`
    /// once where reading stops on an error, and `None` from then on and at
    /// the end of the data.
    pub fn next_entry(&mut self) -> (r: Option<Result<Frame, DecodeError>>)
        ensures
            final(self).buffer() == old(self).buffer(),
            match r {
                Some(Ok(frame)) => {
                    &&& old(self).remaining().frames.len() > 0
                    &&& frame@ == old(self).remaining().frames.first()
                    &&& frame@.wf()
                    &&& final(self).remaining() == Reading {
                        frames: old(self).remaining().frames.drop_first(),
                        error: old(self).remaining().error,
                    }
                },
                Some(Err(e)) => {
                    &&& old(self).remaining().frames.len() == 0
                    &&& old(self).remaining().error == Some(e)
                    &&& final(self).remaining() == Reading { frames: Seq::empty(), error: None }
                },
                None => {
                    &&& old(self).remaining() == Reading { frames: Seq::empty(), error: None }
                    &&& final(self).remaining() == old(self).remaining()
                },
            },
    {
        if self.stopped {
            return None;
        }
        match decode_next(self.buffer, self.cursor) {
            Ok(None) => None,
            Ok(Some((frame, next))) => {
                proof {
                    let rest = read_from(self.buffer@, next as int);
                    assert((seq![frame@] + rest.frames).drop_first() =~= rest.frames);
                }
                self.cursor = next;
                Some(Ok(frame))
            },
            Err(e) => {
                self.stopped = true;
                Some(Err(e))
            },
        }
    }
}

/// Reads a whole bucket: every record up to the end of the data or the first
/// error, and that error.
pub fn read_all(buffer: &[u8]) -> (r: (Vec<Frame>, Option<DecodeError>))
    ensures
        r.0@.map_values(|f: Frame| f@) == read(buffer@).frames,
        r.1 == read(buffer@).error,
{
    let mut reader = BucketReader::new(buffer);
    let mut frames: Vec<Frame> = Vec::new();
    loop
        invariant
            reader.buffer() == buffer@,
            read(buffer@).frames == frames@.map_values(|f: Frame| f@) + reader.remaining().frames,
            read(buffer@).error == reader.remaining().error,
        decreases reader.remaining().frames.len(),
    {
        let ghost before = frames@.map_values(|f: Frame| f@);
        let ghost left = reader.remaining();
        match reader.next_entry() {
            Some(Ok(frame)) => {
                frames.push(frame);
                assert(frames@.map_values(|f: Frame| f@) =~= before.push(frame@));
                assert(before + left.frames =~= before.push(frame@) + left.frames.drop_first());
            },
            Some(Err(e)) => {
                assert(before + left.frames =~= before);
                return (frames, Some(e));
            },
            None => {
                assert(before + left.frames =~= before);
                return (frames, None);
            },
        }
    }
}

/// Every record of a reading is one that decoding yields.
pub proof fn lemma_read_is_wf(buffer: Seq<u8>, cursor: int)
    ensures
        all_wf(read_from(buffer, cursor).frames),
    decreases buffer.len() - cursor,
{
    match next_frame(buffer, cursor) {
        Ok(Some((frame, next))) => {
            if cursor < next {
                lemma_read_is_wf(buffer, next);
                let rest = read_from(buffer, next);
                lemma_next_frame(buffer, cursor);
                assert forall|i: int| 0 <= i < read_from(buffer, cursor).frames.len() implies (
                #[trigger] read_from(buffer, cursor).frames[i]).wf() by {
                    if i > 0 {
                        assert(read_from(buffer, cursor).frames[i] == rest.frames[i - 1]);
                    } else {
                        assert(read_from(buffer, cursor).frames[i] == frame);
                    }
                }
            }
        },
        _ => {},
    }
}

/// The bytes of a sequence of records with one more record at its end.
pub(crate) proof fn lemma_encoded_all_push(frames: Seq<FrameView>, frame: FrameView)
    ensures
        encoded_all(frames.push(frame)) == encoded_all(frames) + encoded(frame),
    decreases frames.len(),
{
    if frames.len() == 0 {
        assert(frames.push(frame).drop_first() =~= Seq::<FrameView>::empty());
        assert(encoded_all(Seq::<FrameView>::empty()) =~= Seq::<u8>::empty());
        assert(encoded_all(frames.push(frame)) =~= encoded(frame) + Seq::<u8>::empty());
        assert(encoded_all(frames) + encoded(frame) =~= encoded(frame));
    } else {
        assert(frames.push(frame).drop_first() =~= frames.drop_first().push(frame));
        lemma_encoded_all_push(frames.drop_first(), frame);
        assert(encoded(frames.first()) + (encoded_all(frames.drop_first()) + encoded(frame))
            =~= (encoded(frames.first()) + encoded_all(frames.drop_first())) + encoded(frame));
    }
}

/// Reading undoes writing: the bytes of records that decoding yields, put
/// after any bytes, are read from there as those same records, in order and
/// without an error.
pub proof fn lemma_read_written(before: Seq<u8>, frames: Seq<FrameView>)
    requires
        all_wf(frames),
    ensures
        read_from(before + encoded_all(frames), before.len() as int) == (Reading {
            frames,
            error: None,
        }),
    decreases frames.len(),
{
    let buffer = before + encoded_all(frames);
    let cursor = before.len() as int;
    if frames.len() == 0 {
        assert(buffer =~= before);
        assert(read_from(buffer, cursor).frames =~= frames);
    } else {
        let first = frames.first();
        let rest = frames.drop_first();
        assert(first.wf());
        assert(all_wf(rest)) by {
            assert forall|i: int| 0 <= i < rest.len() implies (#[trigger] rest[i]).wf() by {
                assert(rest[i] == frames[i + 1]);
            }
        }
        assert(buffer =~= before + encoded(first) + encoded_all(rest));
        lemma_decode_encode(before, first, encoded_all(rest));
        let next = cursor + encoded(first).len() as int;
        assert(buffer =~= (before + encoded(first)) + encoded_all(rest));
        lemma_read_written(before + encoded(first), rest);
        assert((before + encoded(first)).len() == next);
        assert(read_from(buffer, cursor).frames =~= frames);
    }
}

} // verus!
