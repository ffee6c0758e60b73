//! Error (common to all fidl operations)
use vstd::prelude::*;

verus! {

/// A failure of the underlying channel or operating system.
#[verifier::external_type_specification]
#[verifier::external_body]
pub struct ExIoError(std::io::Error);

/// The closed set of failures that encoding, decoding and dispatch report.
#[derive(Debug)]
pub enum Error {
    InvalidHeader,
    Invalid,
    OutOfRange,
    NotNullable,
    Utf8Error,
    InvalidHandle,
    UnknownOrdinal,
    UnknownUnionTag,
    RemoteClosed,
    IoError(std::io::Error),
}

pub type Result<T> = core::result::Result<T, Error>;

impl From<std::io::Error> for Error {
    fn from(error: std::io::Error) -> (r: Error)
        ensures
            r == Error::IoError(error),
    {
        Error::IoError(error)
    }
}

impl vstd::std_specs::convert::FromSpecImpl<std::io::Error> for Error {
    open spec fn obeys_from_spec() -> bool {
        true
    }

    open spec fn from_spec(error: std::io::Error) -> Error {
        Error::IoError(error)
    }
}

} // verus!
