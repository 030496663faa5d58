//! The library's error type.
use vstd::prelude::*;
use serde_json::Error as JsonError;

verus! {

/// The I/O error of `std::io`, carried through unchanged.
#[verifier::external_type_specification]
#[verifier::external_body]
pub struct ExIoError(std::io::Error);

/// The error `hex::decode` reports, carried through unchanged.
#[verifier::external_type_specification]
#[verifier::external_body]
pub struct ExFromHexError(hex::FromHexError);

/// The error `serde_json` reports, carried through unchanged.
#[verifier::external_type_specification]
#[verifier::external_body]
pub struct ExJsonError(JsonError);

/// Everything that can go wrong in this library.
#[derive(Debug)]
pub enum Error {
    Io(std::io::Error),
    Storage(String),
    Validation(String),
    Hash(String),
    Serialization(String),
    HexDecode(hex::FromHexError),
    Json(JsonError),
    Time(String),
    NotFound(String),
    AlreadyExists(String),
    InvalidFormat(String),
    Unsupported(String),
}

/// The library's result type.
pub type Result<T> = std::result::Result<T, Error>;

/// The errors that may go away when the operation is tried again.
pub open spec fn retriable(e: &Error) -> bool {
    e is Io || e is Storage
}

/// The code that API responses carry for each kind of error.
pub open spec fn code_of(e: &Error) -> Seq<char> {
    match e {
        Error::Io(_) => "IO_ERROR"@,
        Error::Storage(_) => "STORAGE_ERROR"@,
        Error::Validation(_) => "VALIDATION_ERROR"@,
        Error::Hash(_) => "HASH_ERROR"@,
        Error::Serialization(_) => "SERIALIZATION_ERROR"@,
        Error::HexDecode(_) => "HEX_DECODE_ERROR"@,
        Error::Json(_) => "JSON_ERROR"@,
        Error::Time(_) => "TIME_ERROR"@,
        Error::NotFound(_) => "NOT_FOUND"@,
        Error::AlreadyExists(_) => "ALREADY_EXISTS"@,
        Error::InvalidFormat(_) => "INVALID_FORMAT"@,
        Error::Unsupported(_) => "UNSUPPORTED"@,
    }
}

impl Error {
    /// Whether the error is retriable (I/O and storage errors are).
    pub fn is_retriable(&self) -> (r: bool)
        ensures
            r == retriable(self),
    {
        match self {
            Error::Io(_) | Error::Storage(_) => true,
            _ => false,
        }
    }

    /// The error code for API responses.
    pub fn error_code(&self) -> (r: &'static str)
        ensures
            r@ == code_of(self),
    {
        match self {
            Error::Io(_) => "IO_ERROR",
            Error::Storage(_) => "STORAGE_ERROR",
            Error::Validation(_) => "VALIDATION_ERROR",
            Error::Hash(_) => "HASH_ERROR",
            Error::Serialization(_) => "SERIALIZATION_ERROR",
            Error::HexDecode(_) => "HEX_DECODE_ERROR",
            Error::Json(_) => "JSON_ERROR",
            Error::Time(_) => "TIME_ERROR",
            Error::NotFound(_) => "NOT_FOUND",
            Error::AlreadyExists(_) => "ALREADY_EXISTS",
            Error::InvalidFormat(_) => "INVALID_FORMAT",
            Error::Unsupported(_) => "UNSUPPORTED",
        }
    }
}

} // verus!
