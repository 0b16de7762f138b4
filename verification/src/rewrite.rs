//! The rewriter: a bucket without the entries that the retention table
//! drops.
//!
//! A kept record is written as the frame codec encodes it: under a fresh
//! length prefix, with the payload it was read with. The output is a bucket
//! that the reader reads, and rewriting it again changes nothing.

use vstd::prelude::*;
use crate::classify::{keep, retained};
use crate::codec::{encoded, DecodeError, FrameView};
use crate::frame::push_frame;
use crate::reader::{
    all_wf, encoded_all, lemma_encoded_all_push, lemma_read_is_wf, lemma_read_written, read,
    BucketReader, Reading,
};

verus! {

/// The test that the rewriter puts to a record.
pub open spec fn is_kept() -> spec_fn(FrameView) -> bool {
    |frame: FrameView| retained(frame.entry)
}

/// The records that the rewriter keeps, in their order.
pub open spec fn kept(frames: Seq<FrameView>) -> Seq<FrameView> {
    frames.filter(is_kept())
}

/// The slimmed bucket: the records of `buffer` that are kept, each encoded
/// again, in the order of the file. Where reading stops on an error, these
/// are the kept records before it.
pub open spec fn slimmed(buffer: Seq<u8>) -> Seq<u8> {
    encoded_all(kept(read(buffer).frames))
}

/// What the rewriter made of a bucket.
pub struct Rewritten {
    /// The slimmed bucket, as far as the input could be read.
    pub bytes: Vec<u8>,
    /// Why reading the input stopped before its end, if it did.
    pub error: Option<DecodeError>,
}

impl Rewritten {
    /// Whether there is anything to write: always for an input that was read
    /// to its end, and for one that failed where records were kept before the
    /// failure. An input that failed before any record was kept leaves no
    /// output.
    pub fn has_output(&self) -> (r: bool)
        ensures
            r == (self.error is None || self.bytes@.len() > 0),
    {
        self.error.is_none() || self.bytes.len() > 0
    }
}

/// The extension of the file that holds a slimmed bucket: it takes the place
/// of the input's extension.
pub fn slim_extension() -> (r: &'static str)
    ensures
        r@ == "slim"@,
{
    "slim"
}

/// Rewrites a bucket, keeping the records that the retention table keeps.
///
/// The output holds the kept records in the order of the input. On a record
/// that cannot be decoded the rewriter stops: the output then holds what was
/// kept before it, and the error is handed back beside it.
pub fn rewrite(buffer: &[u8]) -> (r: Rewritten)
    ensures
        r.bytes@ == slimmed(buffer@),
        r.error == read(buffer@).error,
{
    let mut reader = BucketReader::new(buffer);
    let mut out: Vec<u8> = Vec::new();
    let ghost mut done: Seq<FrameView> = Seq::empty();
    proof {
        reveal(Seq::filter);
        assert(kept(done) =~= Seq::<FrameView>::empty());
    }
    loop
        invariant
            reader.buffer() == buffer@,
            read(buffer@).frames == done + reader.remaining().frames,
            read(buffer@).error == reader.remaining().error,
            out@ == encoded_all(kept(done)),
        decreases reader.remaining().frames.len(),
    {
        let ghost left = reader.remaining();
        match reader.next_entry() {
            Some(Ok(frame)) => {
                proof {
                    lemma_kept_push(done, frame@);
                    lemma_encoded_all_push(kept(done), frame@);
                    assert(done + left.frames =~= done.push(frame@) + left.frames.drop_first());
                }
                if keep(&frame.entry) {
                    push_frame(&mut out, frame.payload.as_slice());
                }
                proof {
                    done = done.push(frame@);
                }
            },
            Some(Err(e)) => {
                assert(done + left.frames =~= done);
                return Rewritten { bytes: out, error: Some(e) };
            },
            None => {
                assert(done + left.frames =~= done);
                return Rewritten { bytes: out, error: None };
            },
        }
    }
}

/// The kept records of a sequence with one more record at its end.
proof fn lemma_kept_push(frames: Seq<FrameView>, frame: FrameView)
    ensures
        kept(frames.push(frame)) == if retained(frame.entry) {
            kept(frames).push(frame)
        } else {
            kept(frames)
        },
{
    reveal(Seq::filter);
    assert(frames.push(frame).drop_last() =~= frames);
}

/// A kept record stays kept: keeping is idempotent, and what is kept of
/// records that decoding yields are such records.
pub proof fn lemma_kept_twice(frames: Seq<FrameView>)
    ensures
        kept(kept(frames)) == kept(frames),
        all_wf(frames) ==> all_wf(kept(frames)),
    decreases frames.len(),
{
    reveal(Seq::filter);
    if frames.len() > 0 {
        let front = frames.drop_last();
        let last = frames.last();
        lemma_kept_twice(front);
        assert(front.push(last) =~= frames);
        lemma_kept_push(front, last);
        if retained(last.entry) {
            lemma_kept_push(kept(front), last);
        }
        if all_wf(frames) {
            assert forall|i: int| 0 <= i < front.len() implies (#[trigger] front[i]).wf() by {
                assert(front[i] == frames[i]);
            }
            assert(last == frames[frames.len() - 1]);
        }
    } else {
        assert(kept(frames) =~= frames);
    }
}

/// Rewriting is idempotent: the slimmed bucket is read without an error, its
/// records are the kept records of the input, and slimming it again gives
/// the same bytes.
pub proof fn lemma_rewrite_idempotent(buffer: Seq<u8>)
    ensures
        read(slimmed(buffer)) == (Reading { frames: kept(read(buffer).frames), error: None }),
        slimmed(slimmed(buffer)) == slimmed(buffer),
{
    let frames = read(buffer).frames;
    lemma_read_is_wf(buffer, 0);
    lemma_kept_twice(frames);
    lemma_read_written(Seq::empty(), kept(frames));
    assert(Seq::<u8>::empty() + encoded_all(kept(frames)) =~= encoded_all(kept(frames)));
}

} // verus!
