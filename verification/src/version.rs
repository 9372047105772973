//! Windows release tiers and the notification features each one offers.
use vstd::prelude::*;

verus! {

/// Every Windows release tier relevant to the notification API surface,
/// in ascending order.
#[derive(Debug, Clone, Copy, PartialEq, Eq, PartialOrd, Ord, Hash, Structural)]
pub enum WindowsVersion {
    /// Windows 7 (NT 6.1) — tray balloon.
    Win7,
    /// Windows 8 (NT 6.2) — basic WinRT toast, no adaptive template.
    Win8,
    /// Windows 8.1 (NT 6.3) — basic WinRT toast, `ToastGeneric` available.
    Win81,
    /// Windows 10 builds 10240–19040.
    Win10Pre19041,
    /// Windows 10 build 19041 and later.
    Win10,
    /// Windows 11 (build 22000+).
    Win11,
}

/// The position of a tier in release order (Win7 is 0).
pub open spec fn rank(v: WindowsVersion) -> int {
    match v {
        WindowsVersion::Win7 => 0,
        WindowsVersion::Win8 => 1,
        WindowsVersion::Win81 => 2,
        WindowsVersion::Win10Pre19041 => 3,
        WindowsVersion::Win10 => 4,
        WindowsVersion::Win11 => 5,
    }
}

/// The tier of a running system reported as `major.minor.build`.
pub open spec fn classify(major: u32, minor: u32, build: u32) -> WindowsVersion {
    if major == 6 && minor == 1 {
        WindowsVersion::Win7
    } else if major == 6 && minor == 2 {
        WindowsVersion::Win8
    } else if major == 6 && minor == 3 {
        WindowsVersion::Win81
    } else if major == 10 && minor == 0 && build >= 22000 {
        WindowsVersion::Win11
    } else if major == 10 && minor == 0 && build >= 19041 {
        WindowsVersion::Win10
    } else if major == 10 && minor == 0 {
        WindowsVersion::Win10Pre19041
    } else {
        WindowsVersion::Win10
    }
}

/// The human-readable label of a tier.
pub open spec fn display_name_of(v: WindowsVersion) -> Seq<char> {
    match v {
        WindowsVersion::Win7 => "Windows 7"@,
        WindowsVersion::Win8 => "Windows 8"@,
        WindowsVersion::Win81 => "Windows 8.1"@,
        WindowsVersion::Win10Pre19041 => "Windows 10 (pre-2004)"@,
        WindowsVersion::Win10 => "Windows 10 (2004+)"@,
        WindowsVersion::Win11 => "Windows 11"@,
    }
}

impl WindowsVersion {
    /// The tier of a system whose version is `major.minor.build`; any
    /// release newer than the known ones is treated as Windows 10.
    pub fn from_os_version(major: u32, minor: u32, build: u32) -> (v: WindowsVersion)
        ensures
            v == classify(major, minor, build),
    {
        if major == 6 && minor == 1 {
            WindowsVersion::Win7
        } else if major == 6 && minor == 2 {
            WindowsVersion::Win8
        } else if major == 6 && minor == 3 {
            WindowsVersion::Win81
        } else if major == 10 && minor == 0 && build >= 22000 {
            WindowsVersion::Win11
        } else if major == 10 && minor == 0 && build >= 19041 {
            WindowsVersion::Win10
        } else if major == 10 && minor == 0 {
            WindowsVersion::Win10Pre19041
        } else {
            WindowsVersion::Win10
        }
    }

    /// Position of this tier in release order.
    pub fn ordinal(&self) -> (r: u8)
        ensures
            r as int == rank(*self),
    {
        match self {
            WindowsVersion::Win7 => 0,
            WindowsVersion::Win8 => 1,
            WindowsVersion::Win81 => 2,
            WindowsVersion::Win10Pre19041 => 3,
            WindowsVersion::Win10 => 4,
            WindowsVersion::Win11 => 5,
        }
    }

    /// WinRT `ToastNotificationManager` is available (all but Windows 7).
    pub fn has_winrt_toast(&self) -> (r: bool)
        ensures
            r == (rank(*self) >= 1),
    {
        self.ordinal() >= 1
    }

    /// `ToastGeneric` template (Windows 8.1 and later).
    pub fn has_toast_generic(&self) -> (r: bool)
        ensures
            r == (rank(*self) >= 2),
    {
        self.ordinal() >= 2
    }

    /// Interactive `<action>` buttons (Windows 10 and later).
    pub fn has_actions(&self) -> (r: bool)
        ensures
            r == (rank(*self) >= 3),
    {
        self.ordinal() >= 3
    }

    /// `<input type="text">` quick-reply input (Windows 10 and later).
    pub fn has_text_input(&self) -> (r: bool)
        ensures
            r == (rank(*self) >= 3),
    {
        self.ordinal() >= 3
    }

    /// `<input type="selection">` drop-down input (Windows 10 and later).
    pub fn has_selection_input(&self) -> (r: bool)
        ensures
            r == (rank(*self) >= 3),
    {
        self.ordinal() >= 3
    }

    /// Hero banner image (Windows 10 and later).
    pub fn has_hero_image(&self) -> (r: bool)
        ensures
            r == (rank(*self) >= 3),
    {
        self.ordinal() >= 3
    }

    /// App logo override image (Windows 8.1 and later).
    pub fn has_logo_override(&self) -> (r: bool)
        ensures
            r == (rank(*self) >= 2),
    {
        self.ordinal() >= 2
    }

    /// Tag and group, and the history API (Windows 10 and later).
    pub fn has_tag_group(&self) -> (r: bool)
        ensures
            r == (rank(*self) >= 3),
    {
        self.ordinal() >= 3
    }

    /// Expiration time (Windows 10 and later).
    pub fn has_expiry(&self) -> (r: bool)
        ensures
            r == (rank(*self) >= 3),
    {
        self.ordinal() >= 3
    }

    /// `scenario` attribute on `<toast>` (Windows 10 and later).
    pub fn has_scenario(&self) -> (r: bool)
        ensures
            r == (rank(*self) >= 3),
    {
        self.ordinal() >= 3
    }

    /// `<progress>` element (Windows 10 build 19041 and later).
    pub fn has_progress(&self) -> (r: bool)
        ensures
            r == (rank(*self) >= 4),
    {
        self.ordinal() >= 4
    }

    /// Urgent scenario (Windows 11).
    pub fn has_urgent(&self) -> (r: bool)
        ensures
            r == (rank(*self) >= 5),
    {
        self.ordinal() >= 5
    }

    /// `ExpiresOnReboot` (Windows 11).
    pub fn has_expires_on_reboot(&self) -> (r: bool)
        ensures
            r == (rank(*self) >= 5),
    {
        self.ordinal() >= 5
    }

    /// Notification Listener (Windows 10 build 19041 and later).
    pub fn has_notification_listener(&self) -> (r: bool)
        ensures
            r == (rank(*self) >= 4),
    {
        self.ordinal() >= 4
    }

    /// COM background activation (Windows 8 and later).
    pub fn has_background_activation(&self) -> (r: bool)
        ensures
            r == (rank(*self) >= 1),
    {
        self.ordinal() >= 1
    }

    /// Human-readable label for logging.
    pub fn display_name(&self) -> (r: &'static str)
        ensures
            r@ == display_name_of(*self),
    {
        match self {
            WindowsVersion::Win7 => "Windows 7",
            WindowsVersion::Win8 => "Windows 8",
            WindowsVersion::Win81 => "Windows 8.1",
            WindowsVersion::Win10Pre19041 => "Windows 10 (pre-2004)",
            WindowsVersion::Win10 => "Windows 10 (2004+)",
            WindowsVersion::Win11 => "Windows 11",
        }
    }
}

/// Release order is strict: distinct tiers have distinct positions.
pub proof fn lemma_rank_injective(a: WindowsVersion, b: WindowsVersion)
    ensures
        rank(a) == rank(b) <==> a == b,
        0 <= rank(a) <= 5,
{
}

/// A feature, once available, stays available on every later tier.
pub proof fn lemma_features_monotone(a: WindowsVersion, b: WindowsVersion)
    requires
        rank(a) <= rank(b),
    ensures
        rank(a) >= 1 ==> rank(b) >= 1,
        rank(a) >= 2 ==> rank(b) >= 2,
        rank(a) >= 3 ==> rank(b) >= 3,
        rank(a) >= 4 ==> rank(b) >= 4,
        rank(a) >= 5 ==> rank(b) >= 5,
{
}

/// Distinct tiers have distinct display names.
pub proof fn lemma_display_names_distinct(a: WindowsVersion, b: WindowsVersion)
    requires
        a != b,
    ensures
        display_name_of(a) != display_name_of(b),
        display_name_of(a).len() > 0,
{
    reveal_strlit("Windows 7");
    reveal_strlit("Windows 8");
    reveal_strlit("Windows 8.1");
    reveal_strlit("Windows 10 (pre-2004)");
    reveal_strlit("Windows 10 (2004+)");
    reveal_strlit("Windows 11");
    let x = display_name_of(a);
    let y = display_name_of(b);
    if x.len() == y.len() {
        if x.len() == 9 {
            assert(x[8] != y[8]);
        } else if x.len() == 10 {
            assert(x[9] != y[9]);
        }
    }
}

/// Every system reports the tier that its version number selects, and that
/// tier is Windows 10 or later whenever the major version is 10 or more.
pub proof fn lemma_classify_modern(major: u32, minor: u32, build: u32)
    requires
        major >= 10,
    ensures
        rank(classify(major, minor, build)) >= 3,
{
}

/// The tier table: 6.1 is Windows 7, 6.2 Windows 8, 6.3 Windows 8.1, and
/// 10.0 is Windows 11 from build 22000 on, Windows 10 (2004+) from build
/// 19041 to 21999, and earlier Windows 10 below build 19041.
pub proof fn lemma_tier_table(build: u32)
    ensures
        classify(6, 1, build) == WindowsVersion::Win7,
        classify(6, 2, build) == WindowsVersion::Win8,
        classify(6, 3, build) == WindowsVersion::Win81,
        build >= 22000 ==> classify(10, 0, build) == WindowsVersion::Win11,
        19041 <= build < 22000 ==> classify(10, 0, build) == WindowsVersion::Win10,
        build < 19041 ==> classify(10, 0, build) == WindowsVersion::Win10Pre19041,
{
}

/// Within Windows 10.0 a later build never gets an earlier tier.
pub proof fn lemma_tier_monotone_in_build(b1: u32, b2: u32)
    requires
        b1 <= b2,
    ensures
        rank(classify(10, 0, b1)) <= rank(classify(10, 0, b2)),
{
}

} // verus!
