//! Failures of the GeoIP database, their category and their message.

use vstd::prelude::*;

verus! {

/// A failure of opening a database or of looking an address up in it.
/// Each variant holds the message that came with the failure.
#[derive(Clone, Debug, PartialEq, Eq)]
pub enum DbError {
    /// The database holds no entry for the address.
    AddressNotFoundError(String),
    /// The file is not a database, or is damaged.
    InvalidDatabaseError(String),
    /// The file could not be read.
    IoError(String),
    /// The file could not be mapped into memory.
    MapError(String),
    /// An entry could not be decoded into a record.
    DecodingError(String),
}

impl DbError {
    /// The message that the failure holds.
    pub open spec fn message(self) -> Seq<char> {
        match self {
            DbError::AddressNotFoundError(msg) => msg@,
            DbError::InvalidDatabaseError(msg) => msg@,
            DbError::IoError(msg) => msg@,
            DbError::MapError(msg) => msg@,
            DbError::DecodingError(msg) => msg@,
        }
    }

    /// The category of the failure. A missing address and a damaged
    /// database share the plain category; the others have one each.
    pub open spec fn category(&self) -> Seq<char> {
        match self {
            DbError::AddressNotFoundError(_) | DbError::InvalidDatabaseError(_) => "maxminddb"@,
            DbError::IoError(_) => "maxminddb/io"@,
            DbError::MapError(_) => "maxminddb/map"@,
            DbError::DecodingError(_) => "maxminddb/decoding"@,
        }
    }
}

/// Names the category of `error`.
pub fn error_type(error: &DbError) -> (category: &'static str)
    ensures
        category@ == error.category(),
{
    match error {
        DbError::AddressNotFoundError(_) | DbError::InvalidDatabaseError(_) => "maxminddb",
        DbError::IoError(_) => "maxminddb/io",
        DbError::MapError(_) => "maxminddb/map",
        DbError::DecodingError(_) => "maxminddb/decoding",
    }
}

/// Takes the message out of `error`.
pub fn error_message(error: DbError) -> (message: String)
    ensures
        message@ == error.message(),
{
    match error {
        DbError::AddressNotFoundError(msg) => msg,
        DbError::InvalidDatabaseError(msg) => msg,
        DbError::IoError(msg) => msg,
        DbError::MapError(msg) => msg,
        DbError::DecodingError(msg) => msg,
    }
}

} // verus!
