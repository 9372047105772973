use tauri_plugin_notification::commands::uninstall_step;
use tauri_plugin_notification::error::Error;
use tauri_plugin_notification::registry_installer::{
    removal_note, uninstall_step as registry_step, RemovalNote,
};

#[test]
fn command_deletes_clsid_then_aumid_then_succeeds() {
    let s = uninstall_step("app", "g", &[]).unwrap();
    assert_eq!(s.as_deref(), Some("Software\\Classes\\CLSID\\g"));
    let s = uninstall_step("app", "g", &[0]).unwrap();
    assert_eq!(s.as_deref(), Some("Software\\Classes\\AppUserModelId\\app"));
    assert!(uninstall_step("app", "g", &[2, 0]).unwrap().is_none());
}

#[test]
fn command_stops_at_the_first_failure_naming_its_key() {
    match uninstall_step("app", "g", &[5]) {
        Err(Error::Windows(m)) => {
            assert_eq!(m, "RegDeleteTreeW(Software\\Classes\\CLSID\\g) failed: WIN32_ERROR(5)")
        }
        other => panic!("unexpected {other:?}"),
    }
    match uninstall_step("app", "g", &[0, 1234]) {
        Err(Error::Windows(m)) => assert_eq!(
            m,
            "RegDeleteTreeW(Software\\Classes\\AppUserModelId\\app) failed: WIN32_ERROR(1234)"
        ),
        other => panic!("unexpected {other:?}"),
    }
}

#[test]
fn registry_uninstall_tries_every_key_and_never_fails() {
    let (p, c) = registry_step("app", "g", &[]).unwrap().unwrap();
    assert_eq!((p.as_str(), c.as_str()), ("Software\\Classes\\AppUserModelId", "app"));
    let (p, c) = registry_step("app", "g", &[Err(Some(5))]).unwrap().unwrap();
    assert_eq!((p.as_str(), c.as_str()), ("Software\\Classes\\CLSID", "{g}"));
    assert!(registry_step("app", "g", &[Err(Some(5)), Err(None)]).unwrap().is_none());
}

#[test]
fn removal_notes() {
    assert_eq!(removal_note(&Ok(())), RemovalNote::Removed);
    assert_eq!(removal_note(&Err(Some(2))), RemovalNote::AlreadyAbsent);
    assert_eq!(removal_note(&Err(Some(3))), RemovalNote::AlreadyAbsent);
    assert_eq!(removal_note(&Err(Some(5))), RemovalNote::Failed);
    assert_eq!(removal_note(&Err(None)), RemovalNote::Failed);
}
