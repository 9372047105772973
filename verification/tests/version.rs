use tauri_plugin_notification::version::WindowsVersion;

const ALL: [WindowsVersion; 6] = [
    WindowsVersion::Win7,
    WindowsVersion::Win8,
    WindowsVersion::Win81,
    WindowsVersion::Win10Pre19041,
    WindowsVersion::Win10,
    WindowsVersion::Win11,
];

#[test]
fn ordering_is_strictly_ascending() {
    for w in ALL.windows(2) {
        assert!(w[0] < w[1], "{} must be < {}", w[0].display_name(), w[1].display_name());
        assert!(w[0].ordinal() < w[1].ordinal());
    }
}

#[test]
fn equality_holds() {
    for v in ALL {
        assert_eq!(v, v);
    }
}

#[test]
fn display_names_are_non_empty() {
    for v in ALL {
        assert!(!v.display_name().is_empty(), "{v:?} must have non-empty display name");
    }
}

#[test]
fn display_names_are_unique() {
    let mut seen = std::collections::HashSet::new();
    for v in ALL {
        assert!(seen.insert(v.display_name()), "duplicate display_name for {v:?}");
    }
}

#[test]
fn win7_has_no_winrt_toast() {
    assert!(!WindowsVersion::Win7.has_winrt_toast());
}

#[test]
fn win8_and_above_have_winrt_toast() {
    for v in ALL.iter().skip(1) {
        assert!(v.has_winrt_toast(), "{} should have WinRT toast", v.display_name());
    }
}

#[test]
fn toast_generic_absent_on_win7_and_win8() {
    assert!(!WindowsVersion::Win7.has_toast_generic());
    assert!(!WindowsVersion::Win8.has_toast_generic());
}

#[test]
fn toast_generic_present_from_win81() {
    for v in [WindowsVersion::Win81, WindowsVersion::Win10Pre19041, WindowsVersion::Win10, WindowsVersion::Win11] {
        assert!(v.has_toast_generic(), "{}", v.display_name());
    }
}

#[test]
fn logo_override_absent_on_win7_and_win8() {
    assert!(!WindowsVersion::Win7.has_logo_override());
    assert!(!WindowsVersion::Win8.has_logo_override());
}

#[test]
fn logo_override_present_from_win81() {
    for v in [WindowsVersion::Win81, WindowsVersion::Win10Pre19041, WindowsVersion::Win10, WindowsVersion::Win11] {
        assert!(v.has_logo_override(), "{}", v.display_name());
    }
}

#[test]
fn rich_features_absent_below_win10pre19041() {
    for v in [WindowsVersion::Win7, WindowsVersion::Win8, WindowsVersion::Win81] {
        assert!(!v.has_actions(), "{}: has_actions", v.display_name());
        assert!(!v.has_text_input(), "{}: has_text_input", v.display_name());
        assert!(!v.has_selection_input(), "{}: has_selection_input", v.display_name());
        assert!(!v.has_hero_image(), "{}: has_hero_image", v.display_name());
        assert!(!v.has_tag_group(), "{}: has_tag_group", v.display_name());
        assert!(!v.has_expiry(), "{}: has_expiry", v.display_name());
        assert!(!v.has_scenario(), "{}: has_scenario", v.display_name());
    }
}

#[test]
fn rich_features_present_from_win10pre19041() {
    for v in [WindowsVersion::Win10Pre19041, WindowsVersion::Win10, WindowsVersion::Win11] {
        assert!(v.has_actions(), "{}: has_actions", v.display_name());
        assert!(v.has_text_input(), "{}: has_text_input", v.display_name());
        assert!(v.has_selection_input(), "{}: has_selection_input", v.display_name());
        assert!(v.has_hero_image(), "{}: has_hero_image", v.display_name());
        assert!(v.has_tag_group(), "{}: has_tag_group", v.display_name());
        assert!(v.has_expiry(), "{}: has_expiry", v.display_name());
        assert!(v.has_scenario(), "{}: has_scenario", v.display_name());
    }
}

#[test]
fn progress_absent_below_win10() {
    for v in [WindowsVersion::Win7, WindowsVersion::Win8, WindowsVersion::Win81, WindowsVersion::Win10Pre19041] {
        assert!(!v.has_progress(), "{}: must not have progress", v.display_name());
    }
}

#[test]
fn progress_present_from_win10() {
    assert!(WindowsVersion::Win10.has_progress());
    assert!(WindowsVersion::Win11.has_progress());
}

#[test]
fn notification_listener_absent_below_win10() {
    for v in [WindowsVersion::Win7, WindowsVersion::Win8, WindowsVersion::Win81, WindowsVersion::Win10Pre19041] {
        assert!(!v.has_notification_listener(), "{}", v.display_name());
    }
}

#[test]
fn notification_listener_present_from_win10() {
    assert!(WindowsVersion::Win10.has_notification_listener());
    assert!(WindowsVersion::Win11.has_notification_listener());
}

#[test]
fn urgent_and_expires_on_reboot_absent_on_win10_and_below() {
    for v in [WindowsVersion::Win7, WindowsVersion::Win8, WindowsVersion::Win81, WindowsVersion::Win10Pre19041, WindowsVersion::Win10] {
        assert!(!v.has_urgent(), "{}: has_urgent", v.display_name());
        assert!(!v.has_expires_on_reboot(), "{}: has_expires_on_reboot", v.display_name());
    }
}

#[test]
fn win11_has_urgent_and_expires_on_reboot() {
    assert!(WindowsVersion::Win11.has_urgent());
    assert!(WindowsVersion::Win11.has_expires_on_reboot());
}

#[test]
fn background_activation_absent_on_win7() {
    assert!(!WindowsVersion::Win7.has_background_activation());
}

#[test]
fn background_activation_present_from_win8() {
    for v in ALL.iter().skip(1) {
        assert!(v.has_background_activation(), "{}", v.display_name());
    }
}

#[test]
fn os_versions_map_to_tiers() {
    assert_eq!(WindowsVersion::from_os_version(6, 1, 7601), WindowsVersion::Win7);
    assert_eq!(WindowsVersion::from_os_version(6, 2, 9200), WindowsVersion::Win8);
    assert_eq!(WindowsVersion::from_os_version(6, 3, 9600), WindowsVersion::Win81);
    assert_eq!(WindowsVersion::from_os_version(10, 0, 10240), WindowsVersion::Win10Pre19041);
    assert_eq!(WindowsVersion::from_os_version(10, 0, 19040), WindowsVersion::Win10Pre19041);
    assert_eq!(WindowsVersion::from_os_version(10, 0, 19041), WindowsVersion::Win10);
    assert_eq!(WindowsVersion::from_os_version(10, 0, 21999), WindowsVersion::Win10);
    assert_eq!(WindowsVersion::from_os_version(10, 0, 22000), WindowsVersion::Win11);
    assert_eq!(WindowsVersion::from_os_version(11, 0, 1), WindowsVersion::Win10);
    assert_eq!(WindowsVersion::from_os_version(5, 1, 2600), WindowsVersion::Win10);
}

#[test]
fn display_names_are_exact() {
    assert_eq!(WindowsVersion::Win7.display_name(), "Windows 7");
    assert_eq!(WindowsVersion::Win10Pre19041.display_name(), "Windows 10 (pre-2004)");
    assert_eq!(WindowsVersion::Win10.display_name(), "Windows 10 (2004+)");
    assert_eq!(WindowsVersion::Win11.display_name(), "Windows 11");
}

#[test]
fn features_never_disappear_on_later_tiers() {
    for w in ALL.windows(2) {
        let (a, b) = (w[0], w[1]);
        assert!(!a.has_actions() || b.has_actions());
        assert!(!a.has_progress() || b.has_progress());
        assert!(!a.has_urgent() || b.has_urgent());
        assert!(!a.has_toast_generic() || b.has_toast_generic());
        assert!(!a.has_winrt_toast() || b.has_winrt_toast());
    }
}
