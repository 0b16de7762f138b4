//! The sponsored-entry search: the entries of a bucket that a given account
//! sponsors, where only the first record of each key counts.
//!
//! Records are taken in the order of the file. A record whose key was met
//! before is passed over, whatever it holds; a record with a new key takes
//! the key, and is reported if the account sponsors it. So a later record
//! never stands in for an earlier one of the same key.

use vstd::prelude::*;
use crate::classify::{entry_key, is_sponsored_by, key_of, sponsored_by};
use crate::codec::{DecodeError, FrameView};
use crate::entry::LedgerKeyView;
use crate::reader::{read, BucketReader};
use crate::seen::SeenKeys;
use crate::xdr::{base64_of, xdr_base64};

verus! {

/// Whether the record at `i` is the first of its key: it has a key, and no
/// record before it has the same.
pub open spec fn first_of_key(frames: Seq<FrameView>, i: int) -> bool {
    key_of(frames[i].entry) is Some && forall|j: int|
        0 <= j < i ==> key_of((#[trigger] frames[j]).entry) != key_of(frames[i].entry)
}

/// Whether the record at `i` is a match: the first of its key, and sponsored
/// by the given account.
pub open spec fn is_match(frames: Seq<FrameView>, i: int, sponsor: Seq<char>) -> bool {
    first_of_key(frames, i) && sponsored_by(frames[i].entry, sponsor)
}

/// The matches among the first `n` records, in their order.
pub open spec fn matches_in(frames: Seq<FrameView>, n: int, sponsor: Seq<char>) -> Seq<FrameView>
    decreases n,
{
    if n <= 0 {
        Seq::empty()
    } else if is_match(frames, n - 1, sponsor) {
        matches_in(frames, n - 1, sponsor).push(frames[n - 1])
    } else {
        matches_in(frames, n - 1, sponsor)
    }
}

/// The matches of a sequence of records, in their order.
pub open spec fn matches(frames: Seq<FrameView>, sponsor: Seq<char>) -> Seq<FrameView> {
    matches_in(frames, frames.len() as int, sponsor)
}

/// The line that reports a record: the base64 text of its entry.
pub open spec fn line_of(frame: FrameView) -> Option<Seq<char>> {
    base64_of(frame.payload)
}

/// The lines of the first `n` of a sequence of records, as far as each
/// record has one: the lines stop before the first record without.
pub open spec fn lines_in(found: Seq<FrameView>, n: int) -> Seq<Seq<char>>
    decreases n,
{
    if n <= 0 {
        Seq::empty()
    } else if all_lines_in(found, n) {
        lines_in(found, n - 1).push(line_of(found[n - 1])->0)
    } else {
        lines_in(found, n - 1)
    }
}

/// Whether each of the first `n` records has a line.
pub open spec fn all_lines_in(found: Seq<FrameView>, n: int) -> bool {
    forall|i: int| 0 <= i < n ==> line_of(#[trigger] found[i]) is Some
}

/// The keys of the first `n` records.
pub open spec fn keys_in(frames: Seq<FrameView>, n: int) -> Set<LedgerKeyView> {
    Set::new(
        |key: LedgerKeyView|
            exists|j: int| 0 <= j < n && key_of((#[trigger] frames[j]).entry) == Some(key),
    )
}

/// Why a search stopped before the end of the bucket.
#[derive(Clone, Copy, Debug, PartialEq, Eq, Structural)]
pub enum SearchError {
    /// A record could not be decoded.
    Decode(DecodeError),
    /// A match could not be written as text.
    Encode,
}

/// What a search found in a bucket.
pub struct Found {
    /// One line for each match, in the order of the file.
    pub lines: Vec<String>,
    /// Why the search stopped before the end of the data, if it did.
    pub error: Option<SearchError>,
}

/// The lines that a search of `buffer` for `sponsor` reports.
pub open spec fn found_lines(buffer: Seq<u8>, sponsor: Seq<char>) -> Seq<Seq<char>> {
    let found = matches(read(buffer).frames, sponsor);
    lines_in(found, found.len() as int)
}

/// The error on which a search of `buffer` for `sponsor` stops: a match
/// without a line, else the error of reading.
pub open spec fn found_error(buffer: Seq<u8>, sponsor: Seq<char>) -> Option<SearchError> {
    let found = matches(read(buffer).frames, sponsor);
    if !all_lines_in(found, found.len() as int) {
        Some(SearchError::Encode)
    } else {
        match read(buffer).error {
            Some(e) => Some(SearchError::Decode(e)),
            None => None,
        }
    }
}

/// Searches a bucket for the entries that the account with the address
/// `sponsor` sponsors.
///
/// Each match is reported by one line, the base64 text of its entry, in the
/// order of the file. The search stops at a record that cannot be decoded and
/// at a match that cannot be written; what was found before stays.
pub fn search(buffer: &[u8], sponsor: &str) -> (r: Found)
    ensures
        r.lines@.map_values(|s: String| s@) == found_lines(buffer@, sponsor@),
        r.error == found_error(buffer@, sponsor@),
{
    let target: String = sponsor.to_owned();
    let mut reader = BucketReader::new(buffer);
    let mut seen = SeenKeys::new();
    let mut lines: Vec<String> = Vec::new();
    let ghost frames = read(buffer@).frames;
    let ghost mut n: int = 0;
    proof {
        assert(keys_in(frames, 0) =~= Set::<LedgerKeyView>::empty());
        assert(frames.skip(0) =~= frames);
    }
    loop
        invariant
            reader.buffer() == buffer@,
            frames == read(buffer@).frames,
            target@ == sponsor@,
            0 <= n <= frames.len(),
            reader.remaining().frames == frames.skip(n),
            reader.remaining().error == read(buffer@).error,
            seen@ == keys_in(frames, n),
            all_lines_in(matches_in(frames, n, sponsor@), matches_in(frames, n, sponsor@).len() as int),
            lines@.map_values(|s: String| s@) == lines_in(
                matches_in(frames, n, sponsor@),
                matches_in(frames, n, sponsor@).len() as int,
            ),
        decreases frames.len() - n,
    {
        let ghost shown = lines@.map_values(|s: String| s@);
        let ghost before = matches_in(frames, n, sponsor@);
        match reader.next_entry() {
            Some(Ok(frame)) => {
                assert(frames.skip(n).first() == frames[n]);
                assert(frames.skip(n).drop_first() =~= frames.skip(n + 1));
                let new_key = match entry_key(&frame.entry) {
                    Some(key) => seen.insert(key),
                    None => false,
                };
                proof {
                    lemma_keys_step(frames, n);
                    assert(new_key == first_of_key(frames, n)) by {
                        lemma_first_of_key(frames, n);
                    }
                }
                if new_key && is_sponsored_by(&frame.entry, &target) {
                    assert(is_match(frames, n, sponsor@));
                    let ghost after = before.push(frames[n]);
                    assert(matches_in(frames, n + 1, sponsor@) == after);
                    match xdr_base64(frame.payload.as_slice()) {
                        Some(line) => {
                            lines.push(line);
                            proof {
                                assert(line.deep_view() == line@);
                                assert(line_of(frames[n]) == Some(line@));
                                lemma_lines_push(before, frames[n]);
                                assert(lines@.map_values(|s: String| s@) =~= shown.push(line@));
                            }
                        },
                        None => {
                            proof {
                                assert(line_of(frames[n]) is None);
                                lemma_lines_push(before, frames[n]);
                                lemma_no_line_stays(frames, n + 1, frames.len() as int, sponsor@);
                            }
                            return Found { lines, error: Some(SearchError::Encode) };
                        },
                    }
                } else {
                    assert(!is_match(frames, n, sponsor@));
                }
                proof {
                    n = n + 1;
                }
            },
            Some(Err(e)) => {
                assert(n == frames.len());
                return Found { lines, error: Some(SearchError::Decode(e)) };
            },
            None => {
                assert(n == frames.len());
                return Found { lines, error: None };
            },
        }
    }
}

/// The first record of a key wins: a record whose key an earlier record has
/// is no match, whoever sponsors it and whatever the earlier record is.
pub proof fn lemma_first_record_wins(frames: Seq<FrameView>, i: int, j: int, sponsor: Seq<char>)
    requires
        0 <= i < j < frames.len(),
        key_of(frames[i].entry) == key_of(frames[j].entry),
    ensures
        !is_match(frames, j, sponsor),
{
}

/// What is found is what matches: a record is among the matches of the first
/// `n` records exactly when it stands at a position below `n` that is a
/// match.
pub proof fn lemma_matches_are_matches(frames: Seq<FrameView>, n: int, sponsor: Seq<char>)
    requires
        0 <= n <= frames.len(),
    ensures
        forall|frame: FrameView|
            matches_in(frames, n, sponsor).contains(frame) <==> exists|i: int|
                0 <= i < n && is_match(frames, i, sponsor) && #[trigger] frames[i] == frame,
    decreases n,
{
    if n > 0 {
        lemma_matches_are_matches(frames, n - 1, sponsor);
        let before = matches_in(frames, n - 1, sponsor);
        let now = matches_in(frames, n, sponsor);
        assert forall|frame: FrameView| now.contains(frame) <==> exists|i: int|
            0 <= i < n && is_match(frames, i, sponsor) && #[trigger] frames[i] == frame by {
            if now.contains(frame) {
                let k = choose|k: int| 0 <= k < now.len() && now[k] == frame;
                if is_match(frames, n - 1, sponsor) && k == before.len() {
                    assert(frames[n - 1] == frame);
                } else {
                    assert(before[k] == frame);
                    assert(before.contains(frame));
                    let i = choose|i: int|
                        0 <= i < n - 1 && is_match(frames, i, sponsor) && #[trigger] frames[i]
                            == frame;
                    assert(0 <= i < n && is_match(frames, i, sponsor) && frames[i] == frame);
                }
            }
            if exists|i: int|
                0 <= i < n && is_match(frames, i, sponsor) && #[trigger] frames[i] == frame {
                let i = choose|i: int|
                    0 <= i < n && is_match(frames, i, sponsor) && #[trigger] frames[i] == frame;
                if i == n - 1 {
                    assert(now[before.len() as int] == frame);
                } else {
                    assert(0 <= i < n - 1 && is_match(frames, i, sponsor) && frames[i] == frame);
                    assert(before.contains(frame));
                    let k = choose|k: int| 0 <= k < before.len() && before[k] == frame;
                    assert(now[k] == frame);
                }
            }
        }
    } else {
        assert forall|frame: FrameView| !matches_in(frames, n, sponsor).contains(frame) by {
            assert(matches_in(frames, n, sponsor).len() == 0);
        }
    }
}

/// The keys of the first `n + 1` records are those of the first `n` and the
/// key of the record at `n`, if it has one.
proof fn lemma_keys_step(frames: Seq<FrameView>, n: int)
    requires
        0 <= n < frames.len(),
    ensures
        keys_in(frames, n + 1) == match key_of(frames[n].entry) {
            Some(key) => keys_in(frames, n).insert(key),
            None => keys_in(frames, n),
        },
{
    let next = match key_of(frames[n].entry) {
        Some(key) => keys_in(frames, n).insert(key),
        None => keys_in(frames, n),
    };
    assert forall|key: LedgerKeyView| keys_in(frames, n + 1).contains(key) == next.contains(
        key,
    ) by {
        if keys_in(frames, n + 1).contains(key) {
            let j = choose|j: int|
                0 <= j < n + 1 && key_of((#[trigger] frames[j]).entry) == Some(key);
            if j < n {
                assert(keys_in(frames, n).contains(key));
            }
        }
        if keys_in(frames, n).contains(key) {
            let j = choose|j: int| 0 <= j < n && key_of((#[trigger] frames[j]).entry) == Some(key);
            assert(0 <= j < n + 1);
        }
        if key_of(frames[n].entry) == Some(key) {
            assert(0 <= n < n + 1 && key_of(frames[n].entry) == Some(key));
        }
    }
    assert(keys_in(frames, n + 1) =~= next);
}

/// A record is the first of its key exactly when it has a key that is not
/// among the keys of the records before it.
proof fn lemma_first_of_key(frames: Seq<FrameView>, n: int)
    requires
        0 <= n < frames.len(),
    ensures
        first_of_key(frames, n) == match key_of(frames[n].entry) {
            Some(key) => !keys_in(frames, n).contains(key),
            None => false,
        },
{
    match key_of(frames[n].entry) {
        Some(key) => {
            if keys_in(frames, n).contains(key) {
                let j = choose|j: int|
                    0 <= j < n && key_of((#[trigger] frames[j]).entry) == Some(key);
                assert(!first_of_key(frames, n));
            } else {
                assert forall|j: int| 0 <= j < n implies key_of((#[trigger] frames[j]).entry)
                    != key_of(frames[n].entry) by {
                    if key_of(frames[j].entry) == Some(key) {
                        assert(keys_in(frames, n).contains(key));
                    }
                }
            }
        },
        None => {},
    }
}

/// The lines of a sequence of records with one more record at its end, where
/// every record before it has a line.
proof fn lemma_lines_push(found: Seq<FrameView>, frame: FrameView)
    requires
        all_lines_in(found, found.len() as int),
    ensures
        all_lines_in(found.push(frame), found.len() as int + 1) == (line_of(frame) is Some),
        lines_in(found.push(frame), found.len() as int + 1) == match line_of(frame) {
            Some(line) => lines_in(found, found.len() as int).push(line),
            None => lines_in(found, found.len() as int),
        },
{
    let more = found.push(frame);
    assert(more[found.len() as int] == frame);
    assert forall|i: int| 0 <= i < found.len() implies line_of(#[trigger] more[i]) is Some by {
        assert(more[i] == found[i]);
    }
    lemma_lines_prefix(found, more, found.len() as int);
}

/// The lines of the first `n` records depend on those records only.
proof fn lemma_lines_prefix(a: Seq<FrameView>, b: Seq<FrameView>, n: int)
    requires
        n <= a.len(),
        n <= b.len(),
        forall|i: int| 0 <= i < n ==> a[i] == b[i],
    ensures
        lines_in(a, n) == lines_in(b, n),
        all_lines_in(a, n) == all_lines_in(b, n),
    decreases n,
{
    if n > 0 {
        lemma_lines_prefix(a, b, n - 1);
        if all_lines_in(a, n) {
            assert forall|i: int| 0 <= i < n implies line_of(#[trigger] b[i]) is Some by {
                assert(a[i] == b[i]);
                assert(line_of(a[i]) is Some);
            }
        }
        if all_lines_in(b, n) {
            assert forall|i: int| 0 <= i < n implies line_of(#[trigger] a[i]) is Some by {
                assert(a[i] == b[i]);
                assert(line_of(b[i]) is Some);
            }
        }
    }
}

/// The matches among the first `m` records begin with the matches among the
/// first `n`, for `n <= m`.
proof fn lemma_matches_grow(frames: Seq<FrameView>, n: int, m: int, sponsor: Seq<char>)
    requires
        0 <= n <= m,
    ensures
        matches_in(frames, n, sponsor).len() <= matches_in(frames, m, sponsor).len(),
        forall|i: int|
            0 <= i < matches_in(frames, n, sponsor).len() ==> matches_in(frames, m, sponsor)[i]
                == matches_in(frames, n, sponsor)[i],
    decreases m - n,
{
    if n < m {
        lemma_matches_grow(frames, n, m - 1, sponsor);
    }
}

/// Once a match has no line, no later record adds a line: the lines of the
/// matches among the first `m` records are those among the first `n`.
proof fn lemma_no_line_stays(frames: Seq<FrameView>, n: int, m: int, sponsor: Seq<char>)
    requires
        0 <= n <= m,
        !all_lines_in(matches_in(frames, n, sponsor), matches_in(frames, n, sponsor).len() as int),
    ensures
        !all_lines_in(matches_in(frames, m, sponsor), matches_in(frames, m, sponsor).len() as int),
        lines_in(matches_in(frames, m, sponsor), matches_in(frames, m, sponsor).len() as int)
            == lines_in(matches_in(frames, n, sponsor), matches_in(frames, n, sponsor).len() as int),
{
    let a = matches_in(frames, n, sponsor);
    let b = matches_in(frames, m, sponsor);
    lemma_matches_grow(frames, n, m, sponsor);
    lemma_lines_prefix(a, b, a.len() as int);
    lemma_lines_stop(b, a.len() as int, b.len() as int);
}

/// Past a record without a line the lines do not grow.
proof fn lemma_lines_stop(found: Seq<FrameView>, n: int, m: int)
    requires
        0 <= n <= m,
        !all_lines_in(found, n),
    ensures
        !all_lines_in(found, m),
        lines_in(found, m) == lines_in(found, n),
    decreases m - n,
{
    if n < m {
        lemma_lines_stop(found, n, m - 1);
    }
}

} // verus!
