//! What is said to the operator when a file fails: the kinds of failure, the
//! cause of each in words, and the one line that names the file.
//!
//! A failure belongs to one file. It is reported and the file is left
//! behind; no other file is touched by it.

use vstd::prelude::*;
use vstd::string::StringExecFns;
use crate::codec::DecodeError;
use crate::search::SearchError;

verus! {

/// Why a file could not be processed to its end.
#[derive(Clone, Debug, PartialEq, Eq)]
pub enum FileError {
    /// The file could not be read, or its output could not be written: the
    /// cause as the system gave it, behind what was being done.
    Io(String),
    /// A record could not be decoded.
    Decode(DecodeError),
    /// An entry could not be written as text.
    Encode,
}

/// The cause of a decode error, in words.
pub open spec fn decode_cause_of(e: DecodeError) -> Seq<char> {
    match e {
        DecodeError::TruncatedPrefix => "Failed to read entry: the length prefix is cut short"@,
        DecodeError::TruncatedPayload => "Failed to read entry: the record is shorter than its length prefix declares"@,
        DecodeError::Malformed => "Failed to read entry: the payload is not one bucket entry, or is nested too deeply"@,
    }
}

/// The cause of a failure, in words.
pub open spec fn cause_of(e: FileError) -> Seq<char> {
    match e {
        FileError::Io(text) => text@,
        FileError::Decode(d) => decode_cause_of(d),
        FileError::Encode => "Failed to encode entry as XDR"@,
    }
}

/// The failure that a stopped search is for its file.
pub open spec fn search_failure_of(e: SearchError) -> FileError {
    match e {
        SearchError::Decode(d) => FileError::Decode(d),
        SearchError::Encode => FileError::Encode,
    }
}

/// Says in words why a bucket could not be read further.
pub fn decode_cause(e: DecodeError) -> (r: &'static str)
    ensures
        r@ == decode_cause_of(e),
{
    match e {
        DecodeError::TruncatedPrefix => "Failed to read entry: the length prefix is cut short",
        DecodeError::TruncatedPayload => "Failed to read entry: the record is shorter than its length prefix declares",
        DecodeError::Malformed => "Failed to read entry: the payload is not one bucket entry, or is nested too deeply",
    }
}

/// Says in words why a file failed.
pub fn cause(e: &FileError) -> (r: String)
    ensures
        r@ == cause_of(*e),
{
    match e {
        FileError::Io(text) => text.clone(),
        FileError::Decode(d) => String::from_str(decode_cause(*d)),
        FileError::Encode => String::from_str("Failed to encode entry as XDR"),
    }
}

/// The failure of a file whose reading stopped on a decode error; none for a
/// file that was read to its end.
pub fn decode_failure(error: Option<DecodeError>) -> (r: Option<FileError>)
    ensures
        r == match error {
            Some(d) => Some(FileError::Decode(d)),
            None => None,
        },
{
    match error {
        Some(d) => Some(FileError::Decode(d)),
        None => None,
    }
}

/// The failure of a file whose search stopped; none for a file that was
/// searched to its end.
pub fn search_failure(error: Option<SearchError>) -> (r: Option<FileError>)
    ensures
        r == match error {
            Some(e) => Some(search_failure_of(e)),
            None => None,
        },
{
    match error {
        Some(SearchError::Decode(d)) => Some(FileError::Decode(d)),
        Some(SearchError::Encode) => Some(FileError::Encode),
        None => None,
    }
}

/// The line that reports a failed file: the path, then the cause.
pub fn failure_line(path: &str, e: &FileError) -> (r: String)
    ensures
        r@ == "Error processing "@ + path@ + ": "@ + cause_of(*e),
{
    String::from_str("Error processing ").concat(path).concat(": ").concat(cause(e).as_str())
}

} // verus!
