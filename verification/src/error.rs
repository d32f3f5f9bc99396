//! The recoverable errors of the boundary and their status codes.
//!
//! A boundary operation answers with a status: `0` for success, any other
//! number for an error. Fatal conditions are no errors: the functions of this
//! library leave them out by their preconditions.

use vstd::prelude::*;

verus! {

/// The lowest status of a user error.
pub const USER_ERROR_MIN: i32 = 65536;

/// The highest status of a user error.
pub const USER_ERROR_MAX: i32 = 131071;

/// A recoverable error of the boundary.
#[derive(Clone, Copy, PartialEq, Eq, Structural, Debug)]
pub enum ApiError {
    /// A named argument was not passed.
    MissingArgument,
    /// An argument was malformed or is not supported.
    InvalidArgument,
    /// Bytes could not be turned into a value.
    Deserialize,
    /// Nothing is stored under the key.
    ValueNotFound,
    /// A key of another kind was needed.
    UnexpectedKeyVariant,
    /// An encoding ended before its value was complete.
    EarlyEndOfStream,
    /// An encoding held bytes that no value has.
    Formatting,
    /// An encoding went on after its value was complete.
    LeftOverBytes,
    /// A value was too large to encode.
    OutOfMemory,
    /// No key is registered under the name.
    MissingKey,
    /// The host does not model the operation.
    Unhandled,
    /// The caller's output buffer cannot take the result.
    BufferTooSmall,
    /// The host buffer was read while nothing was staged.
    HostBufferEmpty,
    /// The host buffer already holds a value.
    HostBufferFull,
    /// A dictionary item key is longer than the limit.
    DictionaryItemKeyExceedsLength,
    /// The caller information asked for does not exist.
    InvalidCallerInfoRequest,
    /// No dictionary is registered under the seed.
    DictionaryNotFound,
    /// An error of the contract's own.
    User(u16),
    /// Any other status.
    Status(i32),
}

impl ApiError {
    /// The status of an error.
    pub open spec fn spec_status(self) -> i32 {
        match self {
            ApiError::MissingArgument => 2,
            ApiError::InvalidArgument => 3,
            ApiError::Deserialize => 4,
            ApiError::ValueNotFound => 6,
            ApiError::UnexpectedKeyVariant => 9,
            ApiError::EarlyEndOfStream => 17,
            ApiError::Formatting => 18,
            ApiError::LeftOverBytes => 19,
            ApiError::OutOfMemory => 20,
            ApiError::MissingKey => 24,
            ApiError::Unhandled => 31,
            ApiError::BufferTooSmall => 32,
            ApiError::HostBufferEmpty => 33,
            ApiError::HostBufferFull => 34,
            ApiError::DictionaryItemKeyExceedsLength => 36,
            ApiError::InvalidCallerInfoRequest => 50,
            ApiError::DictionaryNotFound => -1i32,
            ApiError::User(v) => (USER_ERROR_MIN + v) as i32,
            ApiError::Status(c) => c,
        }
    }

    /// The error that a status stands for.
    pub open spec fn spec_from_status(c: i32) -> ApiError {
        if c == 2 {
            ApiError::MissingArgument
        } else if c == 3 {
            ApiError::InvalidArgument
        } else if c == 4 {
            ApiError::Deserialize
        } else if c == 6 {
            ApiError::ValueNotFound
        } else if c == 9 {
            ApiError::UnexpectedKeyVariant
        } else if c == 17 {
            ApiError::EarlyEndOfStream
        } else if c == 18 {
            ApiError::Formatting
        } else if c == 19 {
            ApiError::LeftOverBytes
        } else if c == 20 {
            ApiError::OutOfMemory
        } else if c == 24 {
            ApiError::MissingKey
        } else if c == 31 {
            ApiError::Unhandled
        } else if c == 32 {
            ApiError::BufferTooSmall
        } else if c == 33 {
            ApiError::HostBufferEmpty
        } else if c == 34 {
            ApiError::HostBufferFull
        } else if c == 36 {
            ApiError::DictionaryItemKeyExceedsLength
        } else if c == 50 {
            ApiError::InvalidCallerInfoRequest
        } else if c == -1 {
            ApiError::DictionaryNotFound
        } else if USER_ERROR_MIN <= c <= USER_ERROR_MAX {
            ApiError::User((c - USER_ERROR_MIN) as u16)
        } else {
            ApiError::Status(c)
        }
    }

    /// An error is in its plain form unless it is a `Status` that carries the
    /// status of another variant.
    pub open spec fn wf(self) -> bool {
        match self {
            ApiError::Status(c) => ApiError::spec_from_status(c) == self,
            _ => true,
        }
    }

    /// The status of an error.
    pub fn status(self) -> (c: i32)
        ensures
            c == self.spec_status(),
    {
        match self {
            ApiError::MissingArgument => 2,
            ApiError::InvalidArgument => 3,
            ApiError::Deserialize => 4,
            ApiError::ValueNotFound => 6,
            ApiError::UnexpectedKeyVariant => 9,
            ApiError::EarlyEndOfStream => 17,
            ApiError::Formatting => 18,
            ApiError::LeftOverBytes => 19,
            ApiError::OutOfMemory => 20,
            ApiError::MissingKey => 24,
            ApiError::Unhandled => 31,
            ApiError::BufferTooSmall => 32,
            ApiError::HostBufferEmpty => 33,
            ApiError::HostBufferFull => 34,
            ApiError::DictionaryItemKeyExceedsLength => 36,
            ApiError::InvalidCallerInfoRequest => 50,
            ApiError::DictionaryNotFound => -1,
            ApiError::User(v) => {
                let wide: i32 = v as i32;
                USER_ERROR_MIN + wide
            },
            ApiError::Status(c) => c,
        }
    }

    /// The error that a status stands for.
    pub fn from_status(c: i32) -> (e: ApiError)
        ensures
            e == ApiError::spec_from_status(c),
            e.wf(),
            e.spec_status() == c,
    {
        if c == 2 {
            ApiError::MissingArgument
        } else if c == 3 {
            ApiError::InvalidArgument
        } else if c == 4 {
            ApiError::Deserialize
        } else if c == 6 {
            ApiError::ValueNotFound
        } else if c == 9 {
            ApiError::UnexpectedKeyVariant
        } else if c == 17 {
            ApiError::EarlyEndOfStream
        } else if c == 18 {
            ApiError::Formatting
        } else if c == 19 {
            ApiError::LeftOverBytes
        } else if c == 20 {
            ApiError::OutOfMemory
        } else if c == 24 {
            ApiError::MissingKey
        } else if c == 31 {
            ApiError::Unhandled
        } else if c == 32 {
            ApiError::BufferTooSmall
        } else if c == 33 {
            ApiError::HostBufferEmpty
        } else if c == 34 {
            ApiError::HostBufferFull
        } else if c == 36 {
            ApiError::DictionaryItemKeyExceedsLength
        } else if c == 50 {
            ApiError::InvalidCallerInfoRequest
        } else if c == -1 {
            ApiError::DictionaryNotFound
        } else if USER_ERROR_MIN <= c && c <= USER_ERROR_MAX {
            let narrow: i32 = c - USER_ERROR_MIN;
            ApiError::User(narrow as u16)
        } else {
            ApiError::Status(c)
        }
    }
}

/// Every plain error comes back from its own status, and no error has the
/// status of success.
pub proof fn lemma_status_round_trip(e: ApiError)
    requires
        e.wf(),
    ensures
        ApiError::spec_from_status(e.spec_status()) == e,
        e.spec_status() != 0 || e == ApiError::Status(0),
{
}

/// What a status says of an operation's outcome.
pub open spec fn spec_result_from(status: i32) -> Result<(), ApiError> {
    if status == 0 {
        Ok(())
    } else {
        Err(ApiError::spec_from_status(status))
    }
}

/// The status that reports an outcome.
pub open spec fn spec_i32_from(result: Result<(), ApiError>) -> i32 {
    match result {
        Ok(_) => 0,
        Err(e) => e.spec_status(),
    }
}

/// What a status says of an operation's outcome: `0` is success, any other
/// number the error that it stands for.
pub fn result_from(status: i32) -> (r: Result<(), ApiError>)
    ensures
        r == spec_result_from(status),
{
    if status == 0 {
        Ok(())
    } else {
        Err(ApiError::from_status(status))
    }
}

/// The status that reports an outcome.
pub fn i32_from(result: Result<(), ApiError>) -> (status: i32)
    ensures
        status == spec_i32_from(result),
{
    match result {
        Ok(_) => 0,
        Err(e) => e.status(),
    }
}

/// An error of this kit or of the boundary.
#[derive(Clone, Copy, PartialEq, Eq, Structural, Debug)]
pub enum UniversalError {
    Panic,
    InvalidContext,
    URefAlreadyInitialized,
    Other(ApiError),
}

impl UniversalError {
    /// The number of the variant: the user error that it is reported as, or
    /// zero for an error of the boundary.
    pub open spec fn spec_discriminant(self) -> u16 {
        match self {
            UniversalError::Panic => 56900,
            UniversalError::InvalidContext => 56901,
            UniversalError::URefAlreadyInitialized => 56902,
            UniversalError::Other(_) => 0,
        }
    }

    /// The number of the variant.
    pub fn discriminant(&self) -> (d: u16)
        ensures
            d == self.spec_discriminant(),
    {
        match self {
            UniversalError::Panic => 56900,
            UniversalError::InvalidContext => 56901,
            UniversalError::URefAlreadyInitialized => 56902,
            UniversalError::Other(_) => 0,
        }
    }

    /// The error of the boundary that this error is reported as.
    pub open spec fn spec_api_error(self) -> ApiError {
        match self {
            UniversalError::Other(e) => e,
            _ => ApiError::User(self.spec_discriminant()),
        }
    }

    /// The error of the boundary that this error is reported as: the error
    /// inside `Other`, a user error with the variant's number otherwise.
    pub fn into_api_error(self) -> (e: ApiError)
        ensures
            e == self.spec_api_error(),
    {
        match self {
            UniversalError::Other(e) => e,
            UniversalError::Panic => ApiError::User(56900),
            UniversalError::InvalidContext => ApiError::User(56901),
            UniversalError::URefAlreadyInitialized => ApiError::User(56902),
        }
    }

    /// An error of the boundary, as an error of this kit.
    pub fn from_api_error(e: ApiError) -> (r: UniversalError)
        ensures
            r == UniversalError::Other(e),
    {
        UniversalError::Other(e)
    }
}

} // verus!
