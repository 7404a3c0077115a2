use vstd::prelude::*;
use vstd::string::*;

use crate::codec::DecodeError;

verus! {

/// The transport-layer failure behind an [`Error::Hid`]: the cause as the
/// transport rendered it.
#[derive(Debug, Clone)]
pub struct HidFailure {
    pub message: String,
}

/// A possible error value when opening the sensor or taking a reading.
///
/// This enum may be extended with additional variants, so users should not
/// count on exhaustive matching.
#[derive(Debug, Clone)]
#[non_exhaustive]
pub enum Error {
    /// A hardware access error; the transport's failure is kept as the cause.
    Hid(HidFailure),
    /// The sensor returned an invalid message or a single read timeout expired.
    InvalidMessage,
    /// A checksum error.
    Checksum,
    /// The sensor did not report all values before the timeout expired.
    ///
    /// Only the full-reading operation returns this; a single-frame read
    /// reports an expired timeout as [`Error::InvalidMessage`].
    Timeout,
    /// The configured timeout was too large.
    InvalidTimeout,
}

/// The text that each kind of error renders as; a hardware error renders as
/// its cause.
pub open spec fn error_text(e: Error) -> Seq<char> {
    match e {
        Error::Hid(cause) => cause.message@,
        Error::InvalidMessage => "invalid message"@,
        Error::Checksum => "checksum error"@,
        Error::Timeout => "timeout expired"@,
        Error::InvalidTimeout => "invalid timeout"@,
    }
}

impl Error {
    /// Wraps a transport failure, given as its rendered text.
    pub fn hid(message: String) -> (r: Error)
        ensures
            r == Error::Hid(HidFailure { message }),
    {
        Error::Hid(HidFailure { message })
    }

    /// A short, stable, human-readable message for this error.
    pub fn message(&self) -> (r: String)
        ensures
            r@ == error_text(*self),
    {
        match self {
            Error::Hid(cause) => cause.message.clone(),
            Error::InvalidMessage => String::from_str("invalid message"),
            Error::Checksum => String::from_str("checksum error"),
            Error::Timeout => String::from_str("timeout expired"),
            Error::InvalidTimeout => String::from_str("invalid timeout"),
        }
    }

    /// The underlying cause of this error: present for hardware errors only.
    pub fn source(&self) -> (r: Option<&HidFailure>)
        ensures
            match *self {
                Error::Hid(cause) => r == Some(&cause),
                _ => r is None,
            },
    {
        match self {
            Error::Hid(cause) => Some(cause),
            _ => None,
        }
    }
}


/// The error that a failed decode surfaces as.
pub open spec fn decode_error(e: DecodeError) -> Error {
    match e {
        DecodeError::InvalidMessage => Error::InvalidMessage,
        DecodeError::Checksum => Error::Checksum,
    }
}

impl From<DecodeError> for Error {
    fn from(e: DecodeError) -> (r: Error)
        ensures
            r == decode_error(e),
    {
        match e {
            DecodeError::InvalidMessage => Error::InvalidMessage,
            DecodeError::Checksum => Error::Checksum,
        }
    }
}

impl vstd::std_specs::convert::FromSpecImpl<DecodeError> for Error {
    open spec fn obeys_from_spec() -> bool {
        true
    }

    open spec fn from_spec(e: DecodeError) -> Error {
        decode_error(e)
    }
}

} // verus!
