use sysgenid::bus::{SYGENID_INTERFACE, SYGENID_PATH};
use sysgenid::coordinator::Sysgenid;

#[test]
fn service_names() {
    assert_eq!(SYGENID_INTERFACE, "com.RFC.sysgenid");
    assert_eq!(SYGENID_PATH, "/com/RFC/sysgenid");
}

#[test]
fn stale_acknowledgement_is_an_invalid_argument() {
    let mut sysgenid = Sysgenid::new();
    let error = sysgenid.ack_watcher_gen_counter("w1", 3).unwrap_err();
    assert_eq!(
        error.errorname().to_string(),
        "org.freedesktop.DBus.Error.InvalidArgs"
    );
    assert_eq!(error.description(), "Invalid argument \"watcher_counter\"");
    assert_ne!(error.description(), "watcher_counter");
}

#[test]
fn stale_update_is_an_invalid_argument() {
    let mut sysgenid = Sysgenid::new();
    let error = sysgenid.update_watcher(Some("w1"), true, 1).unwrap_err();
    assert_eq!(
        error.errorname().to_string(),
        "org.freedesktop.DBus.Error.InvalidArgs"
    );
    assert_eq!(error.description(), "Invalid argument \"watcher_counter\"");
}

#[test]
fn missing_sender_is_a_failure() {
    let mut sysgenid = Sysgenid::new();
    let error = sysgenid.update_watcher(None, true, 0).unwrap_err();
    assert_eq!(
        error.errorname().to_string(),
        "org.freedesktop.DBus.Error.Failed"
    );
    assert_eq!(error.description(), "could not identify sender");
    let error = sysgenid.update_watcher(None, false, 0).unwrap_err();
    assert_eq!(
        error.errorname().to_string(),
        "org.freedesktop.DBus.Error.Failed"
    );
    assert_eq!(error.description(), "could not identify sender");
}
