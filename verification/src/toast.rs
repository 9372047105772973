//! How a notification is shown on each Windows release tier:
//!
//! ```text
//! Windows 7        → tray balloon
//! Windows 8        → basic WinRT toast with the legacy ToastText02 template
//! Windows 8.1      → WinRT toast with the adaptive XML (8.1 features)
//! Windows 10 / 11  → rich toast: adaptive XML plus tag, group, expiry,
//!                    expires-on-reboot and priority
//! ```
use vstd::prelude::*;
use vstd::string::*;
use crate::models::{NotificationData, WindowsPriority};
use crate::text::{copy_opt_string, opt_view};
use crate::version::{rank, WindowsVersion};
use crate::xml_builder::{esc, esc_spec, or_empty};

verus! {

/// The path a notification takes.
#[derive(Debug, Clone, Copy, PartialEq, Eq, Structural)]
pub enum ToastTier {
    /// Windows 7 tray balloon (title and body only).
    Win7Balloon,
    /// Windows 8 legacy template.
    Win8Basic,
    /// Windows 8.1 adaptive toast.
    Win81Basic,
    /// Windows 10 and 11 rich toast.
    Rich,
}

/// The tier of a release.
pub fn show(ver: WindowsVersion) -> (t: ToastTier)
    ensures
        t == match ver {
            WindowsVersion::Win7 => ToastTier::Win7Balloon,
            WindowsVersion::Win8 => ToastTier::Win8Basic,
            WindowsVersion::Win81 => ToastTier::Win81Basic,
            _ => ToastTier::Rich,
        },
{
    match ver {
        WindowsVersion::Win7 => ToastTier::Win7Balloon,
        WindowsVersion::Win8 => ToastTier::Win8Basic,
        WindowsVersion::Win81 => ToastTier::Win81Basic,
        _ => ToastTier::Rich,
    }
}

/// The Windows 8 toast: title and body in the `ToastText02` template.
pub open spec fn win8_xml(d: NotificationData) -> Seq<char> {
    "<toast><visual><binding template=\"ToastText02\"><text id=\"1\">"@ + esc_spec(
        or_empty(d.title),
    ) + "</text><text id=\"2\">"@ + esc_spec(or_empty(d.body))
        + "</text></binding></visual></toast>"@
}

/// The XML of a Windows 8 toast.
pub fn win8_toast_xml(data: &NotificationData) -> (r: String)
    ensures
        r@ == win8_xml(*data),
{
    let mut s = String::from_str("<toast><visual><binding template=\"ToastText02\"><text id=\"1\">");
    let t = match &data.title {
        Some(t) => esc(t.as_str()),
        None => esc(""),
    };
    proof {
        reveal_strlit("");
    }
    s.append(t.as_str());
    s.append("</text><text id=\"2\">");
    let b = match &data.body {
        Some(b) => esc(b.as_str()),
        None => esc(""),
    };
    s.append(b.as_str());
    s.append("</text></binding></visual></toast>");
    s
}

/// Milliseconds between 1601-01-01 (the Windows epoch) and 1970-01-01.
pub const WIN_EPOCH_OFFSET_MS: i64 = 11_644_473_600_000;

/// The WinRT `DateTime` (100 ns ticks since 1601) `offset_ms` after the
/// instant `now_ms` (milliseconds since 1970).
pub open spec fn winrt_ticks(now_ms: int, offset_ms: int) -> int {
    (now_ms + WIN_EPOCH_OFFSET_MS + offset_ms) * 10_000
}

/// The expiry instant `offset_ms` from `now_ms` in WinRT ticks; the result
/// must fit the tick type.
pub fn ms_to_winrt_datetime(now_ms: i64, offset_ms: u64) -> (t: i64)
    requires
        offset_ms <= i64::MAX,
        i64::MIN <= winrt_ticks(now_ms as int, offset_ms as int) <= i64::MAX,
    ensures
        t == winrt_ticks(now_ms as int, offset_ms as int),
{
    let off = offset_ms as i64;
    let base: i128 = now_ms as i128 + WIN_EPOCH_OFFSET_MS as i128 + off as i128;
    let ticks: i128 = base * 10_000;
    ticks as i64
}

/// The priority a toast is delivered with.
#[derive(Debug, Clone, Copy, PartialEq, Eq, Structural)]
pub enum ToastPriority {
    Default,
    High,
}

/// The toast priority for a requested one: `High` and `Urgent` both deliver
/// as `High`.
pub open spec fn priority_of(p: WindowsPriority) -> ToastPriority {
    match p {
        WindowsPriority::Default => ToastPriority::Default,
        _ => ToastPriority::High,
    }
}

/// What a rich toast sets besides its XML.
#[derive(Debug, Clone)]
pub struct RichToastPlan {
    /// The tag to set (Windows 10 and later).
    pub tag: Option<String>,
    /// The group to set (Windows 10 and later).
    pub group: Option<String>,
    /// The expiry instant in WinRT ticks (Windows 10 and later).
    pub expiry: Option<i64>,
    /// Remove from the Action Center on reboot (Windows 11).
    pub expires_on_reboot: bool,
    /// The delivery priority, if requested.
    pub priority: Option<ToastPriority>,
}

/// The expiry instant can be represented for this notification.
pub open spec fn expiry_fits(d: NotificationData, now_ms: i64) -> bool {
    d.expiry_ms matches Some(ms) ==> ms <= i64::MAX && i64::MIN <= winrt_ticks(
        now_ms as int,
        ms as int,
    ) <= i64::MAX
}

/// The settings of a rich toast on release `ver` at time `now_ms`.
pub fn rich_plan(data: &NotificationData, ver: WindowsVersion, now_ms: i64) -> (p: RichToastPlan)
    requires
        rank(ver) >= 3 ==> expiry_fits(*data, now_ms),
    ensures
        opt_view(p.tag) == (if rank(ver) >= 3 {
            opt_view(data.tag)
        } else {
            None
        }),
        opt_view(p.group) == (if rank(ver) >= 3 {
            opt_view(data.group)
        } else {
            None
        }),
        p.expiry == (if rank(ver) >= 3 && data.expiry_ms is Some {
            Some(winrt_ticks(now_ms as int, data.expiry_ms.unwrap() as int) as i64)
        } else {
            None
        }),
        p.expires_on_reboot == (rank(ver) >= 5 && data.expires_on_reboot),
        p.priority == match data.priority {
            Some(pr) => Some(priority_of(pr)),
            None => None,
        },
{
    let tg = ver.has_tag_group();
    let tag = if tg {
        copy_opt_string(&data.tag)
    } else {
        None
    };
    let group = if tg {
        copy_opt_string(&data.group)
    } else {
        None
    };
    let expiry = if ver.has_expiry() {
        match data.expiry_ms {
            Some(ms) => Some(ms_to_winrt_datetime(now_ms, ms)),
            None => None,
        }
    } else {
        None
    };
    let expires_on_reboot = ver.has_expires_on_reboot() && data.expires_on_reboot;
    let priority = match data.priority {
        Some(WindowsPriority::Default) => Some(ToastPriority::Default),
        Some(_) => Some(ToastPriority::High),
        None => None,
    };
    RichToastPlan { tag, group, expiry, expires_on_reboot, priority }
}

} // verus!
