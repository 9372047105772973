//! The plugin's setup decisions: the app name, the storage location and its
//! migration, what the COM server does in this process, and the
//! registration of a foreground app.
use vstd::prelude::*;
use vstd::string::*;
use crate::com_activator::{lenient_guid, lenient_guid_panics, parse_guid, GuidParseError};
use crate::com_server::guid_fields;
use crate::guid::Guid;
use crate::models::PluginConfig;
use crate::registry_installer::RegistryConfig;
use crate::shortcut_creator::ShortcutConfig;
use crate::text::{chars_of, copy_string, ends_with, has_suffix, opt_view, string_of};

verus! {

/// `r` is the icon chosen from `icons`: the first `.ico`, else the first
/// `.png`, else none.
pub open spec fn icon_choice(icons: Seq<String>, r: Option<Seq<char>>) -> bool {
    match r {
        Some(i) => {
            ||| (has_suffix(i, ".ico"@) && exists|k: int|
                0 <= k < icons.len() && icons[k]@ == i && forall|j: int|
                    0 <= j < k ==> !has_suffix(#[trigger] icons[j]@, ".ico"@))
            ||| ((forall|j: int| 0 <= j < icons.len() ==> !has_suffix(#[trigger] icons[j]@, ".ico"@))
                && exists|k: int|
                0 <= k < icons.len() && icons[k]@ == i && has_suffix(i, ".png"@) && forall|j: int|
                    0 <= j < k ==> !has_suffix(#[trigger] icons[j]@, ".png"@))
        },
        None => forall|j: int|
            0 <= j < icons.len() ==> !has_suffix(#[trigger] icons[j]@, ".ico"@) && !has_suffix(
                icons[j]@,
                ".png"@,
            ),
    }
}

/// The app icon for the registration: the first `.ico`, else the first
/// `.png`, else none.
pub fn pick_icon(icons: &[String]) -> (r: Option<String>)
    ensures
        icon_choice(icons@, opt_view(r)),
{
    let ico = chars_of(".ico");
    let png = chars_of(".png");
    let mut found_png: Option<String> = None;
    let ghost mut png_at: int = 0;
    let mut i: usize = 0;
    while i < icons.len()
        invariant
            i <= icons@.len(),
            ico@ == ".ico"@,
            png@ == ".png"@,
            forall|j: int| 0 <= j < i ==> !has_suffix(#[trigger] icons@[j]@, ".ico"@),
            match found_png {
                Some(p) => 0 <= png_at < i && icons@[png_at]@ == p@ && has_suffix(p@, ".png"@)
                    && forall|j: int| 0 <= j < png_at ==> !has_suffix(#[trigger] icons@[j]@, ".png"@),
                None => forall|j: int| 0 <= j < i ==> !has_suffix(#[trigger] icons@[j]@, ".png"@),
            },
        decreases icons.len() - i,
    {
        let v = chars_of(icons[i].as_str());
        if ends_with(v.as_slice(), ico.as_slice()) {
            return Some(copy_string(&icons[i]));
        }
        if found_png.is_none() && ends_with(v.as_slice(), png.as_slice()) {
            found_png = Some(copy_string(&icons[i]));
            proof {
                png_at = i as int;
            }
        }
        i = i + 1;
    }
    found_png
}

/// The app's name: its product name, or else its identifier.
pub fn app_name(product_name: &Option<String>, identifier: &str) -> (r: String)
    ensures
        r@ == match product_name {
            Some(p) => p@,
            None => identifier@,
        },
{
    match product_name {
        Some(p) => copy_string(p),
        None => identifier.to_owned(),
    }
}

/// `s` without leading `{` and trailing `}`.
pub open spec fn strip_braces(s: Seq<char>) -> Seq<char>
    decreases s.len(),
{
    if s.len() > 0 && s[0] == '{' {
        strip_braces(s.drop_first())
    } else if s.len() > 0 && s.last() == '}' {
        strip_braces(s.drop_last())
    } else {
        s
    }
}

/// The GUID text without surrounding braces, as used in storage paths.
pub fn guid_dir_name(guid: &str) -> (r: String)
    ensures
        r@ == strip_braces(guid@),
{
    let v = chars_of(guid);
    let mut lo: usize = 0;
    assert(v@.subrange(0, v@.len() as int) =~= guid@);
    while lo < v.len() && v[lo] == '{'
        invariant
            lo <= v@.len(),
            v@ == guid@,
            strip_braces(guid@) == strip_braces(v@.subrange(lo as int, v@.len() as int)),
        decreases v.len() - lo,
    {
        assert(v@.subrange(lo as int, v@.len() as int).drop_first() =~= v@.subrange(
            lo + 1,
            v@.len() as int,
        ));
        lo = lo + 1;
    }
    let mut hi = v.len();
    while hi > lo && v[hi - 1] == '}'
        invariant
            lo <= hi <= v@.len(),
            v@.subrange(lo as int, hi as int).len() == 0 || v@[lo as int] != '{',
            strip_braces(guid@) == strip_braces(v@.subrange(lo as int, hi as int)),
        decreases hi - lo,
    {
        assert(v@.subrange(lo as int, hi as int).drop_last() =~= v@.subrange(lo as int, hi - 1));
        hi = hi - 1;
    }
    let mut out: Vec<char> = Vec::new();
    let mut i = lo;
    while i < hi
        invariant
            lo <= i <= hi <= v@.len(),
            out@ == v@.subrange(lo as int, i as int),
        decreases hi - i,
    {
        out.push(v[i]);
        i = i + 1;
        assert(out@ =~= v@.subrange(lo as int, i as int));
    }
    string_of(out.as_slice())
}

/// Where the activation queue is stored, as path components under the
/// local data directory.
#[derive(Debug)]
pub struct StoragePlan {
    /// `tauri-notification-<identifier>/<app name>/<guid>`: the old layout.
    pub old_dir: (String, String, String),
    /// `<identifier>/<app name>/<guid>`: the current layout.
    pub dir: (String, String, String),
}

/// The storage components for an app.
pub fn storage_plan(identifier: &str, app_name: &str, guid_str: &str) -> (p: StoragePlan)
    ensures
        p.old_dir.0@ == "tauri-notification-"@ + identifier@,
        p.old_dir.1@ == app_name@,
        p.old_dir.2@ == strip_braces(guid_str@),
        p.dir.0@ == identifier@,
        p.dir.1@ == app_name@,
        p.dir.2@ == strip_braces(guid_str@),
{
    let mut old_root = String::from_str("tauri-notification-");
    old_root.append(identifier);
    StoragePlan {
        old_dir: (old_root, app_name.to_owned(), guid_dir_name(guid_str)),
        dir: (identifier.to_owned(), app_name.to_owned(), guid_dir_name(guid_str)),
    }
}

/// Storage is migrated when only the old layout exists.
pub fn should_migrate(old_exists: bool, new_exists: bool) -> (r: bool)
    ensures
        r == (old_exists && !new_exists),
{
    old_exists && !new_exists
}

/// What the COM server does in this process.
#[derive(Debug, Clone, Copy)]
pub enum ComAction {
    /// No GUID is configured: no COM server.
    Skip,
    /// A background-launched process runs the activation message pump.
    BackgroundPump(Guid),
    /// A foreground process registers the class object and returns.
    ForegroundRegister(Guid),
}

/// The COM action for the configured GUID; a GUID that does not parse
/// fails the setup.
pub fn com_action(com_server_guid: &Option<String>, is_background_launch: bool) -> (r: Result<
    ComAction,
    GuidParseError,
>)
    requires
        com_server_guid matches Some(g) ==> !lenient_guid_panics(g@),
    ensures
        match com_server_guid {
            None => r matches Ok(ComAction::Skip),
            Some(g) => match lenient_guid(g@) {
                Ok(f) => match r {
                    Ok(ComAction::BackgroundPump(x)) => is_background_launch && guid_fields(x) == f,
                    Ok(ComAction::ForegroundRegister(x)) => !is_background_launch && guid_fields(x)
                        == f,
                    _ => false,
                },
                Err(e) => r == Err::<ComAction, GuidParseError>(e),
            },
        },
{
    match com_server_guid {
        None => Ok(ComAction::Skip),
        Some(g) => match parse_guid(g.as_str()) {
            Ok(guid) => if is_background_launch {
                Ok(ComAction::BackgroundPump(guid))
            } else {
                Ok(ComAction::ForegroundRegister(guid))
            },
            Err(e) => Err(e),
        },
    }
}

/// The registration of a foreground app with a configured GUID: registry
/// values (AUMID = identifier, display name = product name or identifier,
/// chosen icon, running executable) and the Start Menu shortcut.
pub fn foreground_registration(
    config: &PluginConfig,
    identifier: &str,
    product_name: &Option<String>,
    icons: &[String],
) -> (r: Option<(RegistryConfig, ShortcutConfig)>)
    ensures
        config.com_server_guid is None ==> r is None,
        config.com_server_guid matches Some(g) ==> (r matches Some((rc, sc)) && {
            let name = match product_name {
                Some(p) => p@,
                None => identifier@,
            };
            &&& rc.com_server_guid@ == g@
            &&& rc.aumid@ == identifier@
            &&& rc.display_name@ == name
            &&& rc.exe_path is None
            &&& icon_choice(icons@, opt_view(rc.icon_path))
            &&& sc.shortcut_name@ == name
            &&& sc.aumid@ == identifier@
            &&& opt_view(sc.com_server_guid) == Some(g@)
            &&& sc.exe_path is None
        }),
{
    match &config.com_server_guid {
        None => None,
        Some(g) => {
            let display_name = app_name(product_name, identifier);
            let rc = RegistryConfig {
                com_server_guid: copy_string(g),
                aumid: identifier.to_owned(),
                display_name: copy_string(&display_name),
                icon_path: pick_icon(icons),
                exe_path: None,
            };
            let sc = ShortcutConfig {
                shortcut_name: display_name,
                aumid: identifier.to_owned(),
                com_server_guid: Some(copy_string(g)),
                exe_path: None,
            };
            Some((rc, sc))
        },
    }
}

/// The GUID text used for the activation context: the configured GUID, or
/// `default`.
pub fn context_guid(config: &PluginConfig) -> (r: String)
    ensures
        r@ == match config.com_server_guid {
            Some(g) => g@,
            None => "default"@,
        },
{
    match &config.com_server_guid {
        Some(g) => copy_string(g),
        None => String::from_str("default"),
    }
}

} // verus!
