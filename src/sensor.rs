use vstd::prelude::*;

use crate::codec::{decode_frame, frame_field, DecodedField};
use crate::error::{decode_error, Error};

verus! {

/// USB vendor ID of the sensor.
pub const VENDOR_ID: u16 = 0x04d9;

/// USB product ID of the sensor.
pub const PRODUCT_ID: u16 = 0xa052;

/// Number of bytes in one frame that the sensor sends.
pub const FRAME_LEN: usize = 8;

/// Timeout, in milliseconds, that a sensor is opened with unless told otherwise.
pub const DEFAULT_TIMEOUT_MS: i32 = 5000;

/// The largest timeout, in milliseconds, that the transport can take.
pub const MAX_TIMEOUT_MS: i32 = 0x7fff_ffff;

/// The transport timeout for a requested duration in milliseconds: `None`
/// asks for no limit (the transport's -1); a duration that does not fit the
/// transport's 32-bit millisecond count is refused.
pub open spec fn timeout_setting(requested_ms: Option<u128>) -> Result<i32, Error> {
    match requested_ms {
        None => Ok(-1i32),
        Some(ms) => if ms <= MAX_TIMEOUT_MS as u128 {
            Ok(ms as i32)
        } else {
            Err(Error::InvalidTimeout)
        },
    }
}

/// Converts a requested timeout into the transport's native unit.
pub fn timeout_millis(requested_ms: Option<u128>) -> (r: Result<i32, Error>)
    ensures
        r == timeout_setting(requested_ms),
{
    match requested_ms {
        None => Ok(-1),
        Some(ms) => {
            if ms <= MAX_TIMEOUT_MS as u128 {
                Ok(ms as i32)
            } else {
                Err(Error::InvalidTimeout)
            }
        },
    }
}

/// The outcome of one single-frame read that filled `received` bytes of
/// `frame`: a short read, which is how the transport reports an expired
/// timeout, is an invalid message; otherwise the frame is decoded.
pub open spec fn single_read_result(received: usize, frame: Seq<u8>, key: Seq<u8>) -> Result<DecodedField, Error> {
    if received != FRAME_LEN {
        Err(Error::InvalidMessage)
    } else {
        match frame_field(frame, key) {
            Ok(f) => Ok(f),
            Err(e) => Err(decode_error(e)),
        }
    }
}

/// Interprets one single-frame read: `received` bytes of `frame` were
/// filled by the transport, for a device opened with `key`.
pub fn read_one_outcome(received: usize, frame: &[u8; 8], key: &[u8; 8]) -> (r: Result<DecodedField, Error>)
    ensures
        r == single_read_result(received, frame@, key@),
{
    if received != FRAME_LEN {
        return Err(Error::InvalidMessage);
    }
    match decode_frame(frame, key) {
        Ok(f) => Ok(f),
        Err(e) => Err(Error::from(e)),
    }
}

/// The configuration of an open sensor: the key its frames are mixed with
/// and the timeout, in the transport's milliseconds (-1: no limit).
#[derive(Debug, Clone, Copy)]
pub struct Settings {
    pub key: [u8; 8],
    pub timeout_ms: i32,
}

impl Settings {
    /// Settings with the given key and the default timeout.
    pub fn new(key: [u8; 8]) -> (r: Settings)
        ensures
            r.key == key,
            r.timeout_ms == DEFAULT_TIMEOUT_MS,
    {
        Settings { key, timeout_ms: DEFAULT_TIMEOUT_MS }
    }

    /// Sets the timeout, in milliseconds (`None`: no limit). A duration that
    /// the transport cannot represent is refused with `InvalidTimeout` and
    /// leaves the settings as they were.
    pub fn set_timeout(&mut self, requested_ms: Option<u128>) -> (r: Result<(), Error>)
        ensures
            match timeout_setting(requested_ms) {
                Ok(t) => r is Ok && *final(self) == (Settings { timeout_ms: t, ..*old(self) }),
                Err(e) => r == Err::<(), Error>(e) && *final(self) == *old(self),
            },
    {
        match timeout_millis(requested_ms) {
            Ok(t) => {
                self.timeout_ms = t;
                Ok(())
            },
            Err(e) => Err(e),
        }
    }
}

impl Default for Settings {
    /// An all-zero key and the default timeout.
    fn default() -> (r: Settings)
        ensures
            forall|i: int| 0 <= i < 8 ==> r.key[i] == 0,
            r.timeout_ms == DEFAULT_TIMEOUT_MS,
    {
        Settings { key: [0u8; 8], timeout_ms: DEFAULT_TIMEOUT_MS }
    }
}

} // verus!
