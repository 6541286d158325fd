//! The error type of the storage layer.
use vstd::prelude::*;

use vstd::string::to_string_from_display_ensures;

use crate::text::{decimal, decimal_string};

verus! {

/// A failure of a storage operation.
#[derive(Debug, Clone, PartialEq, Eq)]
pub enum StorageError {
    NotFound(String),
    Unauthorized(String),
    Internal(String),
    Io(String),
}

/// The result of a storage operation.
pub type StorageResult<T> = Result<T, StorageError>;

/// The message of a storage error: a label for its variant, then its text.
pub open spec fn storage_error_text(e: StorageError) -> Seq<char> {
    match e {
        StorageError::NotFound(m) => "storage notfound error "@ + m@,
        StorageError::Unauthorized(m) => "storage unauthorized error "@ + m@,
        StorageError::Internal(m) => "storage internal error "@ + m@,
        StorageError::Io(m) => "storage IO error "@ + m@,
    }
}

/// The error for a failed I/O call: `NotFound` when the failure is of kind
/// "not found", else `Io`, carrying the failure's message.
pub open spec fn io_failure_error(not_found: bool, message: String) -> StorageError {
    if not_found {
        StorageError::NotFound(message)
    } else {
        StorageError::Io(message)
    }
}

/// The failure `err` is of kind `std::io::ErrorKind::NotFound`.
pub uninterp spec fn io_error_not_found(err: &std::io::Error) -> bool;

/// `std::io::Error::kind`, told apart as "not found" or anything else.
#[verifier::external_body]
fn io_error_is_not_found(err: &std::io::Error) -> (not_found: bool)
    ensures
        not_found == io_error_not_found(err),
{
    err.kind() == std::io::ErrorKind::NotFound
}

impl StorageError {
    /// The human-readable message of the error.
    pub fn to_string(&self) -> (s: String)
        ensures
            s@ == storage_error_text(*self),
    {
        let (label, text) = match self {
            StorageError::NotFound(m) => ("storage notfound error ", m),
            StorageError::Unauthorized(m) => ("storage unauthorized error ", m),
            StorageError::Internal(m) => ("storage internal error ", m),
            StorageError::Io(m) => ("storage IO error ", m),
        };
        let mut s = String::from_str(label);
        s.append(text.as_str());
        s
    }

    /// The error for a failed I/O call, given whether it failed because
    /// something was not found and the failure's message.
    pub fn from_io_failure(not_found: bool, message: String) -> (e: StorageError)
        ensures
            e == io_failure_error(not_found, message),
    {
        if not_found {
            StorageError::NotFound(message)
        } else {
            StorageError::Io(message)
        }
    }

    /// The error for a failed I/O call: `NotFound` for a failure of kind
    /// `NotFound`, `Io` for any other, with the failure's message (its
    /// `Display` text).
    pub fn from_io_error(err: std::io::Error) -> (e: StorageError)
        ensures
            exists|m: String|
                to_string_from_display_ensures::<std::io::Error>(&err, m) && e == io_failure_error(
                    io_error_not_found(&err),
                    m,
                ),
    {
        let not_found = io_error_is_not_found(&err);
        let message = err.to_string();
        StorageError::from_io_failure(not_found, message)
    }
}

/// The message of the error for a reversed byte range.
pub open spec fn reversed_range_text(start: usize, end: usize) -> Seq<char> {
    "invalid range: start "@ + decimal(start as nat) + " is greater than end "@ + decimal(
        end as nat,
    )
}

/// Checks a byte range `start..end` asked of a stored object and gives its
/// length; a range that ends before it starts is an I/O error.
pub fn checked_range_len(start: usize, end: usize) -> (r: StorageResult<usize>)
    ensures
        start <= end ==> r == Ok::<usize, StorageError>((end - start) as usize),
        start > end ==> (r matches Err(StorageError::Io(m)) && m@ == reversed_range_text(start, end)),
{
    if start > end {
        let mut message = String::from_str("invalid range: start ");
        message.append(decimal_string(start as u64).as_str());
        message.append(" is greater than end ");
        message.append(decimal_string(end as u64).as_str());
        return Err(StorageError::Io(message));
    }
    Ok(end - start)
}

} // verus!
