//! Decisions of the uninstall commands.
use vstd::prelude::*;
use vstd::string::*;
use crate::error::Error;
use crate::models::PluginConfig;
use crate::text::{copy_string, push_char};

verus! {

/// The registry key trees removed on uninstallation, in order: the COM
/// server key, then the AUMID key.
pub fn uninstall(aumid: &str, guid: &str) -> (keys: Vec<String>)
    ensures
        keys@.len() == 2,
        keys@[0]@ == "Software\\Classes\\CLSID\\"@ + guid@,
        keys@[1]@ == "Software\\Classes\\AppUserModelId\\"@ + aumid@,
{
    let mut clsid = String::from_str("Software\\Classes\\CLSID\\");
    clsid.append(guid);
    let mut app = String::from_str("Software\\Classes\\AppUserModelId\\");
    app.append(aumid);
    let mut keys: Vec<String> = Vec::new();
    keys.push(clsid);
    keys.push(app);
    keys
}

/// The key trees of [`uninstall`], as text.
pub open spec fn uninstall_keys(aumid: Seq<char>, guid: Seq<char>) -> Seq<Seq<char>> {
    seq!["Software\\Classes\\CLSID\\"@ + guid, "Software\\Classes\\AppUserModelId\\"@ + aumid]
}

/// The decimal digit `d` as a character.
pub open spec fn digit_char(d: nat) -> char {
    if d == 0 { '0' } else if d == 1 { '1' } else if d == 2 { '2' } else if d == 3 { '3' }
    else if d == 4 { '4' } else if d == 5 { '5' } else if d == 6 { '6' } else if d == 7 { '7' }
    else if d == 8 { '8' } else { '9' }
}

/// The decimal text of `n`.
pub open spec fn decimal(n: nat) -> Seq<char>
    decreases n,
{
    if n < 10 {
        seq![digit_char(n)]
    } else {
        decimal(n / 10).push(digit_char(n % 10))
    }
}

/// The message of a failed key-tree deletion: the key and the status as the
/// Windows bindings print it (`WIN32_ERROR(<code>)`).
pub open spec fn tree_failure_message(key: Seq<char>, status: u32) -> Seq<char> {
    "RegDeleteTreeW("@ + key + ") failed: WIN32_ERROR("@ + decimal(status as nat) + ")"@
}

/// The index of the first of the (at most two) deletions made so far whose
/// status is neither success nor not-found, looking from `i` on.
pub open spec fn first_failure(statuses: Seq<u32>, i: int) -> Option<int>
    decreases 2 - i,
{
    if i < 0 || i >= 2 || i >= statuses.len() {
        None
    } else if !(statuses[i] == 0 || statuses[i] == 2) {
        Some(i)
    } else {
        first_failure(statuses, i + 1)
    }
}

fn push_digit(s: &mut String, d: u32)
    requires
        d < 10,
    ensures
        final(s)@ == old(s)@.push(digit_char(d as nat)),
{
    let c = if d == 0 { '0' } else if d == 1 { '1' } else if d == 2 { '2' } else if d == 3 { '3' }
    else if d == 4 { '4' } else if d == 5 { '5' } else if d == 6 { '6' } else if d == 7 { '7' }
    else if d == 8 { '8' } else { '9' };
    push_char(s, c);
}

fn push_decimal(s: &mut String, n: u32)
    ensures
        final(s)@ == old(s)@ + decimal(n as nat),
    decreases n,
{
    if n >= 10 {
        push_decimal(s, n / 10);
    }
    push_digit(s, n % 10);
    assert(s@ =~= old(s)@ + decimal(n as nat));
}

/// One step of the uninstall command, given the statuses of the deletions
/// made so far, in order: the next key tree to delete (`Ok(Some(key))`), or
/// the outcome. A status other than success or not-found ends the command
/// with an error naming its key, so no later key is tried; when both trees
/// are deleted (or absent) the command succeeds.
pub fn uninstall_step(aumid: &str, guid: &str, statuses: &[u32]) -> (r: Result<Option<String>, Error>)
    ensures
        match first_failure(statuses@, 0) {
            Some(j) => r matches Err(Error::Windows(m)) && m@ == tree_failure_message(
                uninstall_keys(aumid@, guid@)[j],
                statuses@[j],
            ),
            None => if statuses@.len() < 2 {
                r matches Ok(Some(k)) && k@ == uninstall_keys(aumid@, guid@)[statuses@.len() as int]
            } else {
                r matches Ok(None)
            },
        },
{
    let keys = uninstall(aumid, guid);
    proof {
        assert(keys@[0]@ == uninstall_keys(aumid@, guid@)[0]);
        assert(keys@[1]@ == uninstall_keys(aumid@, guid@)[1]);
    }
    let mut i: usize = 0;
    while i < 2 && i < statuses.len()
        invariant
            i <= 2,
            i <= statuses@.len(),
            keys@.len() == 2,
            keys@[0]@ == uninstall_keys(aumid@, guid@)[0],
            keys@[1]@ == uninstall_keys(aumid@, guid@)[1],
            first_failure(statuses@, 0) == first_failure(statuses@, i as int),
        decreases 2 - i,
    {
        let st = statuses[i];
        if !uninstall_key(st) {
            let mut m = String::from_str("RegDeleteTreeW(");
            m.append(keys[i].as_str());
            m.append(") failed: WIN32_ERROR(");
            push_decimal(&mut m, st);
            m.append(")");
            assert(m@ =~= tree_failure_message(uninstall_keys(aumid@, guid@)[i as int], st));
            return Err(Error::Windows(m));
        }
        i = i + 1;
    }
    if statuses.len() < 2 {
        Ok(Some(copy_string(&keys[statuses.len()])))
    } else {
        Ok(None)
    }
}

/// Deleting a key tree succeeded or found nothing to delete
/// (`ERROR_SUCCESS` or `ERROR_FILE_NOT_FOUND`).
pub fn uninstall_key(status: u32) -> (ok: bool)
    ensures
        ok == (status == 0 || status == 2),
{
    status == 0 || status == 2
}

/// The AUMID and GUID whose registration is removed, or `None` when no
/// GUID is configured (then there is nothing to remove).
pub fn uninstall_notification_registration(config: &PluginConfig, identifier: &str) -> (r: Option<
    (String, String),
>)
    ensures
        config.com_server_guid is None ==> r is None,
        config.com_server_guid matches Some(g) ==> (r matches Some((a, h)) && a@ == identifier@
            && h@ == g@),
{
    match &config.com_server_guid {
        Some(g) => Some((identifier.to_owned(), copy_string(g))),
        None => None,
    }
}

/// The name of the shortcut to remove: the product name, or else the
/// identifier.
pub fn remove_notification_shortcut(product_name: &Option<String>, identifier: &str) -> (r: String)
    ensures
        r@ == match product_name {
            Some(p) => p@,
            None => identifier@,
        },
{
    crate::plugin::app_name(product_name, identifier)
}

} // verus!
