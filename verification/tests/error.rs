use tauri_plugin_notification::com_activator::GuidParseError;
use tauri_plugin_notification::error::Error;

#[test]
fn windows_error_display_includes_message() {
    let e = Error::Windows("HRESULT 0x80004005".to_string());
    assert!(e.message().contains("HRESULT 0x80004005"));
}

#[test]
fn invalid_com_guid_display_includes_the_guid() {
    let e = Error::InvalidComGuid("bad-guid".to_string());
    let msg = e.message();
    assert!(msg.contains("bad-guid"), "must echo the offending GUID: {msg}");
    assert!(msg.contains("XXXXXXXX-XXXX"), "must show expected format: {msg}");
}

#[test]
fn com_already_registered_display_is_non_empty() {
    assert!(!Error::ComAlreadyRegistered.message().is_empty());
}

#[test]
fn main_thread_error_display_is_non_empty() {
    assert!(!Error::MainThread.message().is_empty());
}

#[test]
fn listener_not_available_display_mentions_msix() {
    let msg = Error::ListenerNotAvailable.message();
    assert!(msg.contains("MSIX"), "should mention MSIX in the message: {msg}");
}

#[test]
fn messages_are_exact() {
    assert_eq!(Error::Windows("x".into()).message(), "Windows API error: x");
    assert_eq!(
        Error::InvalidComGuid("g".into()).message(),
        "Invalid COM server GUID: 'g'. Expected format: XXXXXXXX-XXXX-XXXX-XXXX-XXXXXXXXXXXX"
    );
    assert_eq!(Error::Io("disk full".into()).message(), "disk full");
    assert_eq!(Error::ComAlreadyRegistered.message(), "COM activator already registered");
    assert_eq!(GuidParseError::Data4Length.message(), "Invalid GUID data4 length");
}
