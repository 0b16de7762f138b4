//! Reading, slimming and searching ledger snapshot files ("buckets").
//!
//! A bucket is a file of records. Each record is a length prefix and a
//! payload, and each payload is the XDR encoding of one bucket entry: a
//! ledger entry that was created or is live, the key of one that was
//! removed, or the bucket's metadata.
//!
//! The library is laid out from the bytes up:
//!
//! - [`frame`] finds and writes records in a buffer;
//! - [`xdr`] asks the XDR codec what a payload holds, and [`decode`] puts the
//!   answers together to an entry of [`entry`], with the tags of [`kinds`];
//! - [`codec`] is the frame codec, one record at a time, and [`reader`] the
//!   sequence of the records of a bucket;
//! - [`classify`] holds the tables that decide what is done with an entry;
//! - [`rewrite`], [`search`] with [`seen`], and [`extract`] are the three
//!   things that are done with a bucket;
//! - [`report`] says what went wrong with a file, and [`text`] writes
//!   numbers.
//!
//! [`gateway`] and [`models`] belong to a JSON-RPC gateway to a
//! ledger-history service: what it asks and what it makes of the answers.
//!
//! Everything here works on bytes in memory. Files, threads and the network
//! are the business of the program around the library.

pub mod frame;
pub mod kinds;
pub mod entry;
pub mod xdr;
pub mod decode;
pub mod codec;
pub mod reader;
pub mod classify;
pub mod seen;
pub mod rewrite;
pub mod search;
pub mod extract;
pub mod text;
pub mod report;
pub mod models;
pub mod gateway;
