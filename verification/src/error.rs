//! What can go wrong with the record store.

use serde_json::Error as JsonError;
use vstd::prelude::*;
use vstd::std_specs::convert::FromSpecImpl;

verus! {

/// `std::io::Error`, carried through as it came from the file system.
#[verifier::external_type_specification]
#[verifier::external_body]
pub struct ExIoError(std::io::Error);

/// `serde_json::Error`, carried through as it came from the JSON reader or
/// writer.
#[verifier::external_type_specification]
#[verifier::external_body]
pub struct ExJsonError(JsonError);

/// A failure of a store operation.
#[derive(Debug)]
pub enum Error {
    /// The store file could not be read or written.
    ReadDBError(std::io::Error),
    /// The store file does not hold a JSON array of records, or the records
    /// could not be written as one.
    ParseDBError(serde_json::Error),
    /// A record was asked for at `index`, in a list of only `len` records.
    IndexError { index: usize, len: usize },
}

impl From<std::io::Error> for Error {
    fn from(source: std::io::Error) -> (error: Error) {
        Error::ReadDBError(source)
    }
}

impl FromSpecImpl<std::io::Error> for Error {
    open spec fn obeys_from_spec() -> bool {
        true
    }

    open spec fn from_spec(source: std::io::Error) -> Error {
        Error::ReadDBError(source)
    }
}

impl From<serde_json::Error> for Error {
    fn from(source: serde_json::Error) -> (error: Error) {
        Error::ParseDBError(source)
    }
}

impl FromSpecImpl<serde_json::Error> for Error {
    open spec fn obeys_from_spec() -> bool {
        true
    }

    open spec fn from_spec(source: serde_json::Error) -> Error {
        Error::ParseDBError(source)
    }
}

} // verus!
