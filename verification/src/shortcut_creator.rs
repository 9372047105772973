//! The Start Menu shortcut that carries the app's AUMID and COM activator.
//!
//! Unpackaged apps need a shortcut with `PKEY_AppUserModel_ID` (and, for
//! background activation, `PKEY_AppUserModel_ToastActivatorCLSID`) for
//! toasts to reach them. This module decides what the shortcut holds;
//! creating it through the shell is left to the caller.
use vstd::prelude::*;
use vstd::string::*;
use crate::com_activator::{guid_error_message, lenient_guid, lenient_guid_panics, parse_guid};
use crate::com_server::guid_fields;
use crate::error::Error;
use crate::guid::Guid;

verus! {

/// Configuration of the shortcut.
#[derive(Debug, Clone)]
pub struct ShortcutConfig {
    /// File name of the `.lnk`, without extension.
    pub shortcut_name: String,
    /// App User Model ID embedded in the shortcut.
    pub aumid: String,
    /// COM activator GUID for background activation, if any.
    pub com_server_guid: Option<String>,
    /// Target executable; the running executable when absent.
    pub exe_path: Option<String>,
}

/// What the shortcut holds.
#[derive(Debug, Clone)]
pub struct ShortcutPlan {
    /// The target executable.
    pub exe: String,
    /// The file name of the shortcut in the Start Menu `Programs` folder.
    pub file_name: String,
    /// The AUMID property value.
    pub aumid: String,
    /// The toast activator CLSID property value, if any.
    pub toast_activator: Option<Guid>,
}

/// The property-set id of the AppUserModel shell properties
/// ({9F4C2855-9F79-4B39-A8D0-E1D42DE1D5F3}).
pub fn app_user_model_fmtid() -> (g: Guid)
    ensures
        guid_fields(g) == (0x9F4C2855u32, 0x9F79u16, 0x4B39u16, seq![
            0xA8u8,
            0xD0,
            0xE1,
            0xD4,
            0x2D,
            0xE1,
            0xD5,
            0xF3,
        ]),
{
    let g = Guid {
        data1: 0x9F4C2855,
        data2: 0x9F79,
        data3: 0x4B39,
        data4: [0xA8, 0xD0, 0xE1, 0xD4, 0x2D, 0xE1, 0xD5, 0xF3],
    };
    assert(g.data4@ =~= seq![0xA8u8, 0xD0, 0xE1, 0xD4, 0x2D, 0xE1, 0xD5, 0xF3]);
    g
}

/// Property id of `PKEY_AppUserModel_ID`.
pub const PID_APP_USER_MODEL_ID: u32 = 5;

/// Property id of `PKEY_AppUserModel_ToastActivatorCLSID`.
pub const PID_TOAST_ACTIVATOR_CLSID: u32 = 26;

/// The `.lnk` file name of a shortcut.
pub fn shortcut_path(name: &str) -> (r: String)
    ensures
        r@ == name@ + ".lnk"@,
{
    let mut s = name.to_owned();
    s.append(".lnk");
    s
}

/// The target executable: the configured one, or the running executable
/// (whose lookup failure, with its message, is reported).
pub fn resolve_exe(config: &ShortcutConfig, current_exe: Result<String, String>) -> (r: Result<
    String,
    Error,
>)
    ensures
        config.exe_path is Some ==> (r matches Ok(e) && e@ == config.exe_path.unwrap()@),
        config.exe_path is None ==> match current_exe {
            Ok(c) => r matches Ok(e) && e@ == c@,
            Err(m) => r matches Err(Error::Windows(t)) && t@ == "current_exe: "@ + m@,
        },
{
    match &config.exe_path {
        Some(p) => Ok(crate::text::copy_string(p)),
        None => match current_exe {
            Ok(c) => Ok(c),
            Err(m) => {
                let mut s = String::from_str("current_exe: ");
                s.append(m.as_str());
                Err(Error::Windows(s))
            },
        },
    }
}

/// The contents of the shortcut: target, file name, AUMID and, when a GUID
/// is configured, the activator CLSID; a GUID that does not parse is an
/// error.
pub fn create_or_update(config: &ShortcutConfig, current_exe: Result<String, String>) -> (r: Result<
    ShortcutPlan,
    Error,
>)
    requires
        config.com_server_guid matches Some(g) ==> !lenient_guid_panics(g@),
    ensures
        match r {
            Ok(p) => {
                &&& config.exe_path is Some ==> p.exe@ == config.exe_path.unwrap()@
                &&& config.exe_path is None ==> (current_exe matches Ok(c) && p.exe@ == c@)
                &&& p.file_name@ == config.shortcut_name@ + ".lnk"@
                &&& p.aumid@ == config.aumid@
                &&& match config.com_server_guid {
                    Some(g) => p.toast_activator matches Some(a) && lenient_guid(g@) == Ok::<
                        (u32, u16, u16, Seq<u8>),
                        crate::com_activator::GuidParseError,
                    >(guid_fields(a)),
                    None => p.toast_activator is None,
                }
            },
            Err(e) => {
                ||| (config.exe_path is None && current_exe is Err)
                ||| (config.com_server_guid matches Some(g) && lenient_guid(g@) is Err && (e matches Error::Windows(
                    t,
                ) && t@ == "parse COM GUID for shortcut: "@ + guid_error_message(
                    lenient_guid(g@)->Err_0,
                )))
            },
        },
{
    let exe = match resolve_exe(config, current_exe) {
        Ok(e) => e,
        Err(e) => return Err(e),
    };
    let file_name = shortcut_path(config.shortcut_name.as_str());
    let toast_activator = match &config.com_server_guid {
        Some(g) => match parse_guid(g.as_str()) {
            Ok(guid) => Some(guid),
            Err(e) => {
                let mut s = String::from_str("parse COM GUID for shortcut: ");
                s.append(e.message());
                return Err(Error::Windows(s));
            },
        },
        None => None,
    };
    Ok(ShortcutPlan { exe, file_name, aumid: crate::text::copy_string(&config.aumid), toast_activator })
}

} // verus!
