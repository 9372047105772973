use tauri_plugin_notification::shortcut_creator::{
    app_user_model_fmtid, create_or_update, shortcut_path, ShortcutConfig,
    PID_APP_USER_MODEL_ID, PID_TOAST_ACTIVATOR_CLSID,
};
use tauri_plugin_notification::error::Error;

fn test_config() -> ShortcutConfig {
    ShortcutConfig {
        shortcut_name: "Tauri Notification Test".into(),
        aumid: "TauriTest.NotifPlugin".into(),
        com_server_guid: Some("{A1B2C3D4-E5F6-7890-ABCD-EF1234567890}".into()),
        exe_path: Some("C:\\test\\app.exe".into()),
    }
}

#[test]
fn config_fields_accessible() {
    let c = test_config();
    assert_eq!(c.aumid, "TauriTest.NotifPlugin");
    assert!(c.com_server_guid.is_some());
}

#[test]
fn config_without_guid() {
    let c = ShortcutConfig {
        com_server_guid: None,
        ..test_config()
    };
    assert!(c.com_server_guid.is_none());
}

#[test]
fn shortcut_file_ends_with_lnk() {
    assert_eq!(shortcut_path("MyTestApp"), "MyTestApp.lnk");
}

#[test]
fn plan_holds_exe_aumid_and_clsid() {
    let p = create_or_update(&test_config(), Ok("C:\\other.exe".into())).unwrap();
    assert_eq!(p.exe, "C:\\test\\app.exe");
    assert_eq!(p.file_name, "Tauri Notification Test.lnk");
    assert_eq!(p.aumid, "TauriTest.NotifPlugin");
    let g = p.toast_activator.unwrap();
    assert_eq!(g.data1, 0xA1B2C3D4);
    assert_eq!(g.data4, [0xAB, 0xCD, 0xEF, 0x12, 0x34, 0x56, 0x78, 0x90]);
}

#[test]
fn plan_uses_running_exe_when_none_configured() {
    let c = ShortcutConfig { exe_path: None, com_server_guid: None, ..test_config() };
    let p = create_or_update(&c, Ok("C:\\run.exe".into())).unwrap();
    assert_eq!(p.exe, "C:\\run.exe");
    assert!(p.toast_activator.is_none());
    match create_or_update(&c, Err("denied".into())) {
        Err(Error::Windows(m)) => assert_eq!(m, "current_exe: denied"),
        other => panic!("unexpected {other:?}"),
    }
}

#[test]
fn bad_guid_is_reported() {
    let c = ShortcutConfig { com_server_guid: Some("xyz".into()), ..test_config() };
    match create_or_update(&c, Ok("C:\\run.exe".into())) {
        Err(Error::Windows(m)) => assert_eq!(m, "parse COM GUID for shortcut: Invalid GUID format"),
        other => panic!("unexpected {other:?}"),
    }
}

#[test]
fn property_keys() {
    let f = app_user_model_fmtid();
    assert_eq!(f.data1, 0x9F4C2855);
    assert_eq!(f.data4, [0xA8, 0xD0, 0xE1, 0xD4, 0x2D, 0xE1, 0xD5, 0xF3]);
    assert_eq!(PID_APP_USER_MODEL_ID, 5);
    assert_eq!(PID_TOAST_ACTIVATOR_CLSID, 26);
}
