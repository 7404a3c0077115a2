use co2mon::codec::DecodeError;
use co2mon::error::Error;
use co2mon::sensor::{timeout_millis, Settings, DEFAULT_TIMEOUT_MS};

#[test]
fn test_send() {
    fn assert_send<T: Send>() {}
    assert_send::<Error>();
}

#[test]
fn test_sync() {
    fn assert_sync<T: Sync>() {}
    assert_sync::<Error>();
}

#[test]
fn error_messages() {
    assert_eq!(Error::InvalidMessage.message(), "invalid message");
    assert_eq!(Error::Checksum.message(), "checksum error");
    assert_eq!(Error::Timeout.message(), "timeout expired");
    assert_eq!(Error::InvalidTimeout.message(), "invalid timeout");
    assert_eq!(Error::hid("hidapi error: device lost".to_string()).message(), "hidapi error: device lost");
}

#[test]
fn disconnect_is_hid_with_cause() {
    let e = Error::hid("hidapi error: No such device".to_string());
    assert!(matches!(e, Error::Hid(_)));
    let cause = e.source().unwrap();
    assert_eq!(cause.message, "hidapi error: No such device");
    assert!(Error::Timeout.source().is_none());
    assert!(Error::Checksum.source().is_none());
}

#[test]
fn decode_errors_convert() {
    assert!(matches!(Error::from(DecodeError::Checksum), Error::Checksum));
    assert!(matches!(Error::from(DecodeError::InvalidMessage), Error::InvalidMessage));
}

#[test]
fn timeout_conversion() {
    assert!(matches!(timeout_millis(None), Ok(-1)));
    assert!(matches!(timeout_millis(Some(0)), Ok(0)));
    assert!(matches!(timeout_millis(Some(5000)), Ok(5000)));
    assert!(matches!(timeout_millis(Some(i32::MAX as u128)), Ok(i32::MAX)));
    assert!(matches!(timeout_millis(Some(i32::MAX as u128 + 1)), Err(Error::InvalidTimeout)));
    assert!(matches!(timeout_millis(Some(u128::MAX)), Err(Error::InvalidTimeout)));
}

#[test]
fn set_timeout_rejects_unrepresentable() {
    let mut s = Settings::new([1; 8]);
    assert_eq!(s.timeout_ms, DEFAULT_TIMEOUT_MS);
    assert!(matches!(s.set_timeout(Some(1u128 << 40)), Err(Error::InvalidTimeout)));
    assert_eq!(s.timeout_ms, DEFAULT_TIMEOUT_MS);
    assert_eq!(s.key, [1; 8]);
    assert!(s.set_timeout(Some(250)).is_ok());
    assert_eq!(s.timeout_ms, 250);
    assert!(s.set_timeout(None).is_ok());
    assert_eq!(s.timeout_ms, -1);
}

#[test]
fn default_settings() {
    let s = Settings::default();
    assert_eq!(s.key, [0; 8]);
    assert_eq!(s.timeout_ms, 5000);
}
