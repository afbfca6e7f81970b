//! The offchain boundary types: timestamps, capability sets, storage
//! kinds, and http codes.

use wasm_executor::offchain::{
    Capabilities, Capability, Duration, HttpError, HttpRequestStatus, LimitedExternalities,
    StorageKind, Timestamp,
};

#[test]
fn timestamp_ops() {
    let t = Timestamp::from_unix_millis(5);
    assert_eq!(t.add(Duration::from_millis(10)), Timestamp::from_unix_millis(15));
    assert_eq!(t.sub(Duration::from_millis(10)), Timestamp::from_unix_millis(0));
    assert_eq!(t.diff(&Timestamp::from_unix_millis(3)), Duration::from_millis(2));
}

#[test]
fn capabilities() {
    let none = Capabilities::none();
    let all = Capabilities::all();
    let some = Capabilities::from_list(&[Capability::Keystore, Capability::Randomness][..]);

    assert!(!none.has(Capability::Keystore));
    assert!(all.has(Capability::Keystore));
    assert!(some.has(Capability::Keystore));
    assert!(!none.has(Capability::TransactionPool));
    assert!(all.has(Capability::TransactionPool));
    assert!(!some.has(Capability::TransactionPool));
}

#[test]
fn timestamp_saturates() {
    let top = Timestamp::from_unix_millis(u64::MAX);
    assert_eq!(top.add(Duration::from_millis(10)), Timestamp::from_unix_millis(u64::MAX));
    assert_eq!(top.unix_millis(), u64::MAX);
    assert_eq!(Duration::from_millis(7).millis(), 7);
}

#[test]
fn rich_offchain_call_capabilities() {
    let rich = Capabilities::rich_offchain_call();
    assert!(rich.has(Capability::TransactionPool));
    assert!(rich.has(Capability::Keystore));
    assert!(rich.has(Capability::OffchainWorkerDbRead));
    assert!(!rich.has(Capability::OffchainWorkerDbWrite));
    assert!(!rich.has(Capability::Http));
    assert!(!rich.has(Capability::Randomness));
    assert!(!rich.has(Capability::NetworkState));
    assert!(!rich.has_all());
    assert!(Capabilities::all().has_all());
}

#[test]
fn limited_externalities_check() {
    let limited = LimitedExternalities::new(Capabilities::rich_offchain_call(), ());
    assert!(limited.check(Capability::Keystore));
    assert!(!limited.check(Capability::Http));
}

#[test]
fn storage_kind_codes() {
    assert_eq!(StorageKind::PERSISTENT.as_u32(), 1);
    assert_eq!(StorageKind::LOCAL.as_u32(), 2);
    assert_eq!(StorageKind::try_from(1), Ok(StorageKind::PERSISTENT));
    assert_eq!(StorageKind::try_from(2), Ok(StorageKind::LOCAL));
    assert_eq!(StorageKind::try_from(3), Err(()));
    assert_eq!(StorageKind::try_from(0), Err(()));
}

#[test]
fn http_error_codes() {
    assert_eq!(HttpError::DeadlineReached.as_u32(), 1);
    assert_eq!(HttpError::IoError.as_u32(), 2);
    assert_eq!(HttpError::Invalid.as_u32(), 3);
    assert_eq!(HttpError::try_from(1), Ok(HttpError::DeadlineReached));
    assert_eq!(HttpError::try_from(2), Ok(HttpError::IoError));
    assert_eq!(HttpError::try_from(3), Ok(HttpError::Invalid));
    assert_eq!(HttpError::try_from(4), Err(()));
}

#[test]
fn http_status_codes() {
    assert_eq!(HttpRequestStatus::Invalid.as_u32(), 0);
    assert_eq!(HttpRequestStatus::DeadlineReached.as_u32(), 10);
    assert_eq!(HttpRequestStatus::IoError.as_u32(), 20);
    assert_eq!(HttpRequestStatus::Finished(200).as_u32(), 200);
    assert_eq!(HttpRequestStatus::try_from(0), Ok(HttpRequestStatus::Invalid));
    assert_eq!(HttpRequestStatus::try_from(10), Ok(HttpRequestStatus::DeadlineReached));
    assert_eq!(HttpRequestStatus::try_from(20), Ok(HttpRequestStatus::IoError));
    assert_eq!(HttpRequestStatus::try_from(404), Ok(HttpRequestStatus::Finished(404)));
    assert_eq!(HttpRequestStatus::try_from(99), Err(()));
    assert_eq!(HttpRequestStatus::try_from(1000), Err(()));
}
