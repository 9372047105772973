//! The registry entries that connect an app to its COM activator, all under
//! `HKCU`:
//!
//! ```text
//! Software\Classes\AppUserModelId\<aumid>
//!     DisplayName, IconUri (optional), CustomActivator = {GUID}
//! Software\Classes\CLSID\{GUID}             (default) = display name
//! Software\Classes\CLSID\{GUID}\LocalServer32  (default) = exe path
//! ```
//!
//! This module decides every key, name and value; writing them is left to
//! the caller.
use vstd::prelude::*;
use vstd::string::*;
use crate::error::Error;
use crate::text::{chars_of, copy_string, string_of, trim, trimmed};

verus! {

/// What the registration needs to know about the app.
#[derive(Debug, Clone)]
pub struct RegistryConfig {
    /// COM server GUID, with or without braces.
    pub com_server_guid: String,
    /// App User Model ID.
    pub aumid: String,
    /// Display name shown in Windows settings.
    pub display_name: String,
    /// Absolute path of the app icon, if any.
    pub icon_path: Option<String>,
    /// Absolute path of the executable; the running executable when absent.
    pub exe_path: Option<String>,
}

/// One registry value to write.
#[derive(Debug, Clone)]
pub struct RegistryWrite {
    /// The key under `HKCU`.
    pub key: String,
    /// The value name (empty for the default value).
    pub name: String,
    /// The string data.
    pub value: String,
}

/// A write as (key, name, value).
pub open spec fn write_view(w: RegistryWrite) -> (Seq<char>, Seq<char>, Seq<char>) {
    (w.key@, w.name@, w.value@)
}

/// A GUID in braces: the trimmed text as it is when it starts with `{`,
/// otherwise wrapped in `{` and `}`.
pub open spec fn braced(guid: Seq<char>) -> Seq<char> {
    let s = trim(guid);
    if s.len() > 0 && s[0] == '{' {
        s
    } else {
        seq!['{'] + s + seq!['}']
    }
}

/// The AUMID key of an app.
pub open spec fn aumid_key(aumid: Seq<char>) -> Seq<char> {
    "Software\\Classes\\AppUserModelId\\"@ + aumid
}

/// The CLSID key of a (braced) GUID.
pub open spec fn clsid_key(guid: Seq<char>) -> Seq<char> {
    "Software\\Classes\\CLSID\\"@ + guid
}

/// Ensures a GUID string has surrounding braces.
pub fn with_braces(guid: &str) -> (r: String)
    ensures
        r@ == braced(guid@),
{
    let v = chars_of(guid);
    let t = trimmed(v.as_slice(), 0, v.len());
    assert(v@.subrange(0, v@.len() as int) =~= guid@);
    if t.len() > 0 && t[0] == '{' {
        string_of(t.as_slice())
    } else {
        let mut s = String::new();
        crate::text::push_char(&mut s, '{');
        let inner = string_of(t.as_slice());
        s.append(inner.as_str());
        crate::text::push_char(&mut s, '}');
        assert(s@ =~= seq!['{'] + t@ + seq!['}']);
        s
    }
}

fn concat(a: &str, b: &str) -> (r: String)
    ensures
        r@ == a@ + b@,
{
    let mut s = String::from_str(a);
    s.append(b);
    s
}

fn write(key: &str, name: &str, value: &str) -> (w: RegistryWrite)
    ensures
        write_view(w) == (key@, name@, value@),
{
    RegistryWrite { key: key.to_owned(), name: name.to_owned(), value: value.to_owned() }
}

/// The writes of an installation, in order.
pub open spec fn install_writes(c: RegistryConfig, exe: Seq<char>) -> Seq<
    (Seq<char>, Seq<char>, Seq<char>),
> {
    let guid = braced(c.com_server_guid@);
    let ak = aumid_key(c.aumid@);
    let ck = clsid_key(guid);
    seq![(ak, "DisplayName"@, c.display_name@)] + (match c.icon_path {
        Some(i) => seq![(ak, "IconUri"@, i@)],
        None => Seq::empty(),
    }) + seq![
        (ak, "CustomActivator"@, guid),
        (ck, ""@, c.display_name@),
        (ck + "\\LocalServer32"@, ""@, exe),
    ]
}

/// The registry values that enable COM-activated toasts, in the order they
/// are written; `current_exe` stands in for an absent `exe_path`.
pub fn install(config: &RegistryConfig, current_exe: &str) -> (r: Vec<RegistryWrite>)
    ensures
        r@.map_values(|w: RegistryWrite| write_view(w)) == install_writes(
            *config,
            match config.exe_path {
                Some(e) => e@,
                None => current_exe@,
            },
        ),
{
    let guid = with_braces(config.com_server_guid.as_str());
    let exe: &str = match &config.exe_path {
        Some(e) => e.as_str(),
        None => current_exe,
    };
    let aumid_path = concat("Software\\Classes\\AppUserModelId\\", config.aumid.as_str());
    let clsid_path = concat("Software\\Classes\\CLSID\\", guid.as_str());
    let server_path = concat(clsid_path.as_str(), "\\LocalServer32");
    let mut out: Vec<RegistryWrite> = Vec::new();
    out.push(write(aumid_path.as_str(), "DisplayName", config.display_name.as_str()));
    if let Some(icon) = &config.icon_path {
        out.push(write(aumid_path.as_str(), "IconUri", icon.as_str()));
    }
    out.push(write(aumid_path.as_str(), "CustomActivator", guid.as_str()));
    out.push(write(clsid_path.as_str(), "", config.display_name.as_str()));
    out.push(write(server_path.as_str(), "", exe));
    assert(out@.map_values(|w: RegistryWrite| write_view(w)) =~= install_writes(
        *config,
        match config.exe_path {
            Some(e) => e@,
            None => current_exe@,
        },
    ));
    out
}

/// The single `CustomActivator` write for an app and GUID.
pub fn write_custom_activator(aumid: &str, guid: &str) -> (w: RegistryWrite)
    ensures
        write_view(w) == (aumid_key(aumid@), "CustomActivator"@, braced(guid@)),
{
    let g = with_braces(guid);
    let k = concat("Software\\Classes\\AppUserModelId\\", aumid);
    write(k.as_str(), "CustomActivator", g.as_str())
}

/// The key trees an uninstallation removes, as (parent key, child name):
/// the AUMID key, then the CLSID key.
pub fn uninstall(aumid: &str, guid: &str) -> (r: Vec<(String, String)>)
    ensures
        r@.len() == 2,
        r@[0].0@ == "Software\\Classes\\AppUserModelId"@,
        r@[0].1@ == aumid@,
        r@[1].0@ == "Software\\Classes\\CLSID"@,
        r@[1].1@ == braced(guid@),
{
    let mut out: Vec<(String, String)> = Vec::new();
    out.push((String::from_str("Software\\Classes\\AppUserModelId"), aumid.to_owned()));
    out.push((String::from_str("Software\\Classes\\CLSID"), with_braces(guid)));
    out
}

/// The key trees of [`uninstall`] as (parent key, child name).
pub open spec fn uninstall_pairs(aumid: Seq<char>, guid: Seq<char>) -> Seq<(Seq<char>, Seq<char>)> {
    seq![("Software\\Classes\\AppUserModelId"@, aumid), ("Software\\Classes\\CLSID"@, braced(guid))]
}

/// One step of an uninstallation, given the outcomes of the removals made
/// so far (`Err` holding the operating-system error code, if any): the next
/// key tree to remove, or `None` when both were tried. A failed removal does
/// not stop the next one, and the uninstallation itself never fails.
pub fn uninstall_step(aumid: &str, guid: &str, results: &[Result<(), Option<i32>>]) -> (r: Result<
    Option<(String, String)>,
    Error,
>)
    ensures
        results@.len() < 2 ==> (r matches Ok(Some((p, c))) && (p@, c@) == uninstall_pairs(
            aumid@,
            guid@,
        )[results@.len() as int]),
        results@.len() >= 2 ==> r matches Ok(None),
{
    if results.len() >= 2 {
        return Ok(None);
    }
    let mut pairs = uninstall(aumid, guid);
    let n = results.len();
    assert(pairs@[n as int].0@ == uninstall_pairs(aumid@, guid@)[n as int].0);
    let pair = pairs.remove(n);
    Ok(Some(pair))
}

/// How the removal of one key tree is reported.
#[derive(Debug, Clone, Copy, PartialEq, Eq, Structural)]
pub enum RemovalNote {
    /// The tree was removed.
    Removed,
    /// The tree was already absent (quietly accepted).
    AlreadyAbsent,
    /// The removal failed for another reason (logged; the uninstallation
    /// goes on).
    Failed,
}

/// The report of one removal outcome.
pub fn removal_note(result: &Result<(), Option<i32>>) -> (n: RemovalNote)
    ensures
        n == match *result {
            Ok(()) => RemovalNote::Removed,
            Err(c) => if c == Some(2i32) || c == Some(3i32) {
                RemovalNote::AlreadyAbsent
            } else {
                RemovalNote::Failed
            },
        },
{
    match result {
        Ok(()) => RemovalNote::Removed,
        Err(c) => if is_not_found(*c) {
            RemovalNote::AlreadyAbsent
        } else {
            RemovalNote::Failed
        },
    }
}

/// A registry error that means the key or value is already absent
/// (`ERROR_FILE_NOT_FOUND` or `ERROR_PATH_NOT_FOUND`).
pub fn is_not_found(os_error: Option<i32>) -> (r: bool)
    ensures
        r == (os_error == Some(2i32) || os_error == Some(3i32)),
{
    match os_error {
        Some(c) => c == 2 || c == 3,
        None => false,
    }
}

/// The `LocalServer32` key of a GUID.
pub fn server_key(guid: &str) -> (r: String)
    ensures
        r@ == clsid_key(braced(guid@)) + "\\LocalServer32"@,
{
    let g = with_braces(guid);
    let c = concat("Software\\Classes\\CLSID\\", g.as_str());
    concat(c.as_str(), "\\LocalServer32")
}

/// The long-path prefix that older versions wrote before the exe path.
pub open spec fn long_path_prefix() -> Seq<char> {
    "\\\\?\\"@
}

/// The executable whose existence decides whether a registration is still
/// valid: `None` (stale) when the key or its value is absent or empty,
/// otherwise the path without a `\\?\` prefix.
pub open spec fn stale_check(exe: Option<Seq<char>>) -> Option<Seq<char>> {
    match exe {
        None => None,
        Some(e) => if e.len() == 0 {
            None
        } else if long_path_prefix().len() <= e.len() && e.take(long_path_prefix().len() as int)
            == long_path_prefix() {
            Some(e.skip(long_path_prefix().len() as int))
        } else {
            Some(e)
        },
    }
}

/// The path to test for existence when checking a registration, or `None`
/// when the registration is stale already.
pub fn is_registration_stale(exe_value: Option<String>) -> (r: Option<String>)
    ensures
        crate::text::opt_view(r) == stale_check(crate::text::opt_view(exe_value)),
{
    match exe_value {
        None => None,
        Some(e) => {
            let v = chars_of(e.as_str());
            if v.len() == 0 {
                return None;
            }
            let prefix = chars_of("\\\\?\\");
            if crate::text::matches_at(v.as_slice(), 0, prefix.as_slice()) {
                assert(v@.subrange(0, prefix@.len() as int) == v@.take(prefix@.len() as int));
                let mut rest: Vec<char> = Vec::new();
                let mut i = prefix.len();
                while i < v.len()
                    invariant
                        prefix@.len() <= i <= v@.len(),
                        rest@ == v@.subrange(prefix@.len() as int, i as int),
                    decreases v.len() - i,
                {
                    rest.push(v[i]);
                    i = i + 1;
                    assert(rest@ =~= v@.subrange(prefix@.len() as int, i as int));
                }
                assert(rest@ =~= v@.skip(prefix@.len() as int));
                Some(string_of(rest.as_slice()))
            } else {
                proof {
                    if prefix@.len() <= v@.len() {
                        assert(v@.subrange(0, prefix@.len() as int) == v@.take(
                            prefix@.len() as int,
                        ));
                    }
                }
                Some(e)
            }
        },
    }
}

} // verus!
