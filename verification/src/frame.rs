//! The record framing of a bucket file: each record is a four-byte
//! big-endian prefix followed by as many payload bytes as the prefix declares.
//!
//! The low 31 bits of the prefix are the payload length. The high bit is the
//! last-fragment mark of XDR record marking: it is written set and not
//! interpreted when read.

use vstd::prelude::*;

verus! {

/// The number of bytes of a length prefix.
pub const PREFIX_LEN: usize = 4;

/// The longest payload that a prefix can declare: 31 bits of length.
pub const MAX_PAYLOAD: usize = 0x7fff_ffff;

/// Why a buffer holds no whole record at a position.
#[derive(Clone, Copy, Debug, PartialEq, Eq, Structural)]
pub enum FrameError {
    /// Fewer than four bytes are left, so there is no prefix to read.
    TruncatedPrefix,
    /// The prefix declares more payload bytes than are left after it.
    TruncatedPayload,
}

/// The length that the four bytes at `at` declare: their big-endian value
/// without the high bit.
pub open spec fn declared_len(buffer: Seq<u8>, at: int) -> int {
    (buffer[at] as int % 0x80) * 0x100_0000 + (buffer[at + 1] as int) * 0x1_0000 + (buffer[at
        + 2] as int) * 0x100 + (buffer[at + 3] as int)
}

/// The prefix of a payload of `len` bytes: the length, big-endian, with the
/// high bit set.
pub open spec fn prefix_of(len: int) -> Seq<u8> {
    seq![
        (0x80 + len / 0x100_0000) as u8,
        (len / 0x1_0000 % 0x100) as u8,
        (len / 0x100 % 0x100) as u8,
        (len % 0x100) as u8,
    ]
}

/// One record: the prefix of the payload, then the payload.
pub open spec fn framed(payload: Seq<u8>) -> Seq<u8> {
    prefix_of(payload.len() as int) + payload
}

/// What lies at `cursor` in `buffer`: nothing (`Ok(None)`) at or past the
/// end, the bounds `(start, end)` of the next payload, or the reason why
/// there is no whole record.
pub open spec fn next_payload(buffer: Seq<u8>, cursor: int) -> Result<Option<(int, int)>, FrameError> {
    if cursor < 0 || cursor >= buffer.len() {
        Ok(None)
    } else if buffer.len() - cursor < 4 {
        Err(FrameError::TruncatedPrefix)
    } else if declared_len(buffer, cursor) > buffer.len() - cursor - 4 {
        Err(FrameError::TruncatedPayload)
    } else {
        Ok(Some((cursor + 4, cursor + 4 + declared_len(buffer, cursor))))
    }
}

/// Finds the payload of the record that starts at `cursor`.
pub fn locate_payload(buffer: &[u8], cursor: usize) -> (r: Result<Option<(usize, usize)>, FrameError>)
    ensures
        match next_payload(buffer@, cursor as int) {
            Ok(None) => r == Ok::<Option<(usize, usize)>, FrameError>(None),
            Ok(Some((start, end))) => r == Ok::<Option<(usize, usize)>, FrameError>(
                Some((start as usize, end as usize)),
            ) && cursor < start <= end <= buffer.len(),
            Err(e) => r == Err::<Option<(usize, usize)>, FrameError>(e),
        },
{
    let n: usize = buffer.len();
    if cursor >= n {
        return Ok(None);
    }
    if n - cursor < PREFIX_LEN {
        return Err(FrameError::TruncatedPrefix);
    }
    let b0: u8 = buffer[cursor];
    let b1: u8 = buffer[cursor + 1];
    let b2: u8 = buffer[cursor + 2];
    let b3: u8 = buffer[cursor + 3];
    let len: u32 = (b0 % 0x80) as u32 * 0x100_0000 + b1 as u32 * 0x1_0000 + b2 as u32 * 0x100
        + b3 as u32;
    let left: usize = n - cursor - PREFIX_LEN;
    if len as usize > left {
        return Err(FrameError::TruncatedPayload);
    }
    Ok(Some((cursor + PREFIX_LEN, cursor + PREFIX_LEN + len as usize)))
}

/// Writes the prefix of a payload of `len` bytes at the end of `out`.
pub fn push_prefix(out: &mut Vec<u8>, len: usize)
    requires
        len <= MAX_PAYLOAD,
    ensures
        final(out)@ == old(out)@ + prefix_of(len as int),
{
    let ghost before = out@;
    out.push((0x80 + len / 0x100_0000) as u8);
    out.push((len / 0x1_0000 % 0x100) as u8);
    out.push((len / 0x100 % 0x100) as u8);
    out.push((len % 0x100) as u8);
    assert(out@ =~= before + prefix_of(len as int));
}

/// Writes one record at the end of `out`: the prefix of `payload`, then
/// `payload`.
pub fn push_frame(out: &mut Vec<u8>, payload: &[u8])
    requires
        payload@.len() <= MAX_PAYLOAD,
    ensures
        final(out)@ == old(out)@ + framed(payload@),
{
    let ghost before = out@;
    push_prefix(out, payload.len());
    out.extend_from_slice(payload);
    assert(out@ =~= before + framed(payload@));
}

/// A prefix declares the length it was written for.
pub proof fn lemma_prefix_declares(len: int)
    requires
        0 <= len <= MAX_PAYLOAD,
    ensures
        prefix_of(len).len() == 4,
        declared_len(prefix_of(len), 0) == len,
{
}

/// A record appended to any bytes is found again where it was put: framing
/// and locating are inverse.
pub proof fn lemma_framed_is_located(before: Seq<u8>, payload: Seq<u8>, after: Seq<u8>)
    requires
        payload.len() <= MAX_PAYLOAD,
    ensures
        next_payload(before + framed(payload) + after, before.len() as int) == Ok::<
            Option<(int, int)>,
            FrameError,
        >(Some((before.len() as int + 4, before.len() as int + 4 + payload.len() as int))),
        (before + framed(payload) + after).subrange(
            before.len() as int + 4,
            before.len() as int + 4 + payload.len() as int,
        ) == payload,
{
    let buffer = before + framed(payload) + after;
    let at = before.len() as int;
    let len = payload.len() as int;
    lemma_prefix_declares(len);
    assert(buffer[at] == prefix_of(len)[0]);
    assert(buffer[at + 1] == prefix_of(len)[1]);
    assert(buffer[at + 2] == prefix_of(len)[2]);
    assert(buffer[at + 3] == prefix_of(len)[3]);
    assert(declared_len(buffer, at) == len);
    assert(buffer.subrange(at + 4, at + 4 + len) =~= payload);
}

} // verus!
