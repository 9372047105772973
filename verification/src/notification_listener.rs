//! Decisions of the Notification Listener (reading the Action Center):
//! when it is available, how the platform's status maps to the plugin's,
//! and what a listed notification carries.
use vstd::prelude::*;
use crate::models::{ListenerAccessStatus, WinActiveNotification};
use crate::text::opt_view;
use crate::version::{rank, WindowsVersion};

verus! {

/// The access status reported by the platform.
#[derive(Debug, Clone, Copy, PartialEq, Eq, Structural)]
pub enum PlatformAccessStatus {
    Allowed,
    Denied,
    Unspecified,
    /// Any value the plugin does not know.
    Other,
}

/// The plugin's status for the platform's.
pub fn winrt_status_to_model(s: PlatformAccessStatus) -> (r: ListenerAccessStatus)
    ensures
        r == match s {
            PlatformAccessStatus::Allowed => ListenerAccessStatus::Allowed,
            PlatformAccessStatus::Denied => ListenerAccessStatus::Denied,
            PlatformAccessStatus::Unspecified => ListenerAccessStatus::Unspecified,
            PlatformAccessStatus::Other => ListenerAccessStatus::NotSupported,
        },
{
    match s {
        PlatformAccessStatus::Allowed => ListenerAccessStatus::Allowed,
        PlatformAccessStatus::Denied => ListenerAccessStatus::Denied,
        PlatformAccessStatus::Unspecified => ListenerAccessStatus::Unspecified,
        PlatformAccessStatus::Other => ListenerAccessStatus::NotSupported,
    }
}

/// The listener can be asked at all: Windows 10 2004 or later, in a
/// packaged (MSIX) app. Otherwise every query answers `NotSupported` (or
/// an empty list).
pub fn listener_available(ver: WindowsVersion, is_packaged: bool) -> (r: bool)
    ensures
        r == (rank(ver) >= 4 && is_packaged),
{
    ver.has_notification_listener() && is_packaged
}

/// The status to report without asking the platform, if any.
pub fn get_access_status(ver: WindowsVersion, is_packaged: bool) -> (r: Option<ListenerAccessStatus>)
    ensures
        r == (if rank(ver) >= 4 && is_packaged {
            None
        } else {
            Some(ListenerAccessStatus::NotSupported)
        }),
{
    if listener_available(ver, is_packaged) {
        None
    } else {
        Some(ListenerAccessStatus::NotSupported)
    }
}

/// Notifications are listed only when the listener is available and access
/// is allowed.
pub fn get_all_notifications(ver: WindowsVersion, is_packaged: bool, status: PlatformAccessStatus) -> (r:
    bool)
    ensures
        r == (rank(ver) >= 4 && is_packaged && status == PlatformAccessStatus::Allowed),
{
    listener_available(ver, is_packaged) && status == PlatformAccessStatus::Allowed
}

/// A text that counts only when it is not empty.
pub fn non_empty(s: Option<String>) -> (r: Option<String>)
    ensures
        opt_view(r) == match opt_view(s) {
            Some(t) => if t.len() > 0 {
                Some(t)
            } else {
                None
            },
            None => None,
        },
{
    match s {
        Some(t) => if t.as_str().is_empty() {
            None
        } else {
            Some(t)
        },
        None => None,
    }
}

/// A listed notification; empty tag, group, title and body count as absent.
pub fn active_notification(
    id: u32,
    app_id: Option<String>,
    tag: Option<String>,
    group: Option<String>,
    title: Option<String>,
    body: Option<String>,
) -> (n: WinActiveNotification)
    ensures
        n.id == id,
        opt_view(n.app_id) == opt_view(app_id),
        opt_view(n.tag) == opt_view(non_empty_spec(tag)),
        opt_view(n.group) == opt_view(non_empty_spec(group)),
        opt_view(n.title) == opt_view(non_empty_spec(title)),
        opt_view(n.body) == opt_view(non_empty_spec(body)),
{
    WinActiveNotification {
        id,
        tag: non_empty(tag),
        group: non_empty(group),
        title: non_empty(title),
        body: non_empty(body),
        app_id,
    }
}

/// `s` when it holds a non-empty text.
pub open spec fn non_empty_spec(s: Option<String>) -> Option<String> {
    match s {
        Some(t) => if t@.len() > 0 {
            Some(t)
        } else {
            None
        },
        None => None,
    }
}

/// Removing by tag or group needs the history API (Windows 10 and later);
/// on earlier releases removal does nothing.
pub fn remove_notification(ver: WindowsVersion) -> (r: bool)
    ensures
        r == (rank(ver) >= 3),
{
    ver.has_tag_group()
}

} // verus!
