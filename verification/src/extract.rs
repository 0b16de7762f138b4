//! The extractor: the contract code that a bucket holds, each under the
//! name of its content hash.

use vstd::prelude::*;
use vstd::string::StringExecFns;
use crate::classify::{code_of, contract_code};
use crate::codec::{DecodeError, FrameView};
use crate::entry::{copy_bytes, BucketEntry, BucketEntryView, Hash32};
use crate::reader::{read, BucketReader};
use crate::text::{
    digit, hex, hex_lower, is_lower_hex, lemma_hex_is_injective, lemma_hex_shape,
};

verus! {

/// The name of the file that holds the code with the given content hash.
pub open spec fn wasm_name(hash: Hash32) -> Seq<char> {
    hex(hash@) + ".wasm"@
}

/// The name of the code with a 32-byte hash is 64 lowercase hexadecimal
/// digits, two for each byte of the hash in order, and then `.wasm`.
pub proof fn lemma_wasm_name_shape(hash: Hash32)
    ensures
        wasm_name(hash).len() == 69,
        wasm_name(hash).subrange(0, 64) == hex(hash@),
        wasm_name(hash).subrange(64, 69) == seq!['.', 'w', 'a', 's', 'm'],
        forall|i: int| 0 <= i < 64 ==> is_lower_hex(#[trigger] wasm_name(hash)[i]),
        forall|i: int|
            0 <= i < 32 ==> wasm_name(hash)[2 * i] == digit(hash[i] as int / 16) && wasm_name(
                hash,
            )[2 * i + 1] == digit(hash[i] as int % 16),
{
    broadcast use vstd::array::group_array_axioms;

    reveal_strlit(".wasm");
    lemma_hex_shape(hash@);
    assert(wasm_name(hash).subrange(0, 64) =~= hex(hash@));
    assert(wasm_name(hash).subrange(64, 69) =~= seq!['.', 'w', 'a', 's', 'm']);
    assert forall|i: int| 0 <= i < 64 implies is_lower_hex(#[trigger] wasm_name(hash)[i]) by {
        assert(wasm_name(hash)[i] == hex(hash@)[i]);
    }
    assert forall|i: int| 0 <= i < 32 implies wasm_name(hash)[2 * i] == digit(
        hash[i] as int / 16,
    ) && wasm_name(hash)[2 * i + 1] == digit(hash[i] as int % 16) by {
        assert(wasm_name(hash)[2 * i] == hex(hash@)[2 * i]);
        assert(wasm_name(hash)[2 * i + 1] == hex(hash@)[2 * i + 1]);
    }
}

/// Code is told apart by its file name as it is by its hash: two hashes
/// with the same file name are the same hash.
pub proof fn lemma_wasm_name_is_injective(a: Hash32, b: Hash32)
    requires
        wasm_name(a) == wasm_name(b),
    ensures
        a == b,
{
    broadcast use vstd::array::group_array_axioms;

    lemma_wasm_name_shape(a);
    lemma_wasm_name_shape(b);
    assert(hex(a@) == hex(b@));
    lemma_hex_is_injective(a@, b@);
    assert(a =~= b);
}

/// One extracted piece of contract code.
#[derive(Clone, Debug, PartialEq, Eq)]
pub struct WasmFile {
    /// The name of the file: the content hash in lowercase hexadecimal, and
    /// the extension `.wasm`.
    pub name: String,
    /// The code, byte for byte.
    pub bytes: Vec<u8>,
}

/// An extracted file as a mathematical value.
pub struct WasmFileView {
    pub name: Seq<char>,
    pub bytes: Seq<u8>,
}

impl View for WasmFile {
    type V = WasmFileView;

    open spec fn view(&self) -> WasmFileView {
        WasmFileView { name: self.name@, bytes: self.bytes@ }
    }
}

/// The file that an entry yields: for an entry that holds contract code, the
/// code under the name of its hash; for any other entry, none.
pub open spec fn file_of(entry: BucketEntryView) -> Option<WasmFileView> {
    match code_of(entry) {
        Some((hash, code)) => Some(WasmFileView { name: wasm_name(hash), bytes: code }),
        None => None,
    }
}

/// The files that a sequence of records yields, in the order of the records.
/// Code that occurs twice is yielded twice.
pub open spec fn extracted(frames: Seq<FrameView>) -> Seq<WasmFileView>
    decreases frames.len(),
{
    if frames.len() == 0 {
        Seq::empty()
    } else {
        match file_of(frames.last().entry) {
            Some(file) => extracted(frames.drop_last()).push(file),
            None => extracted(frames.drop_last()),
        }
    }
}

/// The file that an entry yields.
pub fn wasm_file(entry: &BucketEntry) -> (r: Option<WasmFile>)
    ensures
        r is Some <==> file_of(entry@) is Some,
        r matches Some(file) ==> file_of(entry@) == Some(file@),
{
    match contract_code(entry) {
        Some((hash, code)) => {
            let mut name = hex_lower(hash.as_slice());
            name.append(".wasm");
            Some(WasmFile { name, bytes: copy_bytes(code) })
        },
        None => None,
    }
}

/// What the extractor found in a bucket.
pub struct Extracted {
    /// The files, in the order of the records that hold them.
    pub files: Vec<WasmFile>,
    /// Why reading stopped before the end of the data, if it did.
    pub error: Option<DecodeError>,
}

/// Extracts the contract code of a bucket.
///
/// Every entry that holds contract code yields one file, in the order of
/// the bucket. On a record that cannot be decoded the extractor stops; what
/// was found before stays.
pub fn extract(buffer: &[u8]) -> (r: Extracted)
    ensures
        r.files@.map_values(|f: WasmFile| f@) == extracted(read(buffer@).frames),
        r.error == read(buffer@).error,
{
    let mut reader = BucketReader::new(buffer);
    let mut files: Vec<WasmFile> = Vec::new();
    let ghost mut done: Seq<FrameView> = Seq::empty();
    loop
        invariant
            reader.buffer() == buffer@,
            read(buffer@).frames == done + reader.remaining().frames,
            read(buffer@).error == reader.remaining().error,
            files@.map_values(|f: WasmFile| f@) == extracted(done),
        decreases reader.remaining().frames.len(),
    {
        let ghost left = reader.remaining();
        let ghost had = files@.map_values(|f: WasmFile| f@);
        match reader.next_entry() {
            Some(Ok(frame)) => {
                proof {
                    assert(done.push(frame@).drop_last() =~= done);
                    assert(done + left.frames =~= done.push(frame@) + left.frames.drop_first());
                }
                match wasm_file(&frame.entry) {
                    Some(file) => {
                        files.push(file);
                        assert(files@.map_values(|f: WasmFile| f@) =~= had.push(file@));
                    },
                    None => {},
                }
                proof {
                    done = done.push(frame@);
                }
            },
            Some(Err(e)) => {
                assert(done + left.frames =~= done);
                return Extracted { files, error: Some(e) };
            },
            None => {
                assert(done + left.frames =~= done);
                return Extracted { files, error: None };
            },
        }
    }
}

} // verus!
