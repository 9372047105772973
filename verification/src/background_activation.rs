//! The arguments that Windows hands to a COM-activated background process.
//!
//! `xml_builder` writes `action=<id>&amp;tag=<tag>&amp;group=<group>` into
//! the toast; Windows decodes the entities and passes
//! `action=<id>&tag=<tag>&group=<group>` to `Activate()`, which is parsed
//! here without any runtime support.
use vstd::prelude::*;
use vstd::string::*;
use crate::input_map::InputMap;
use crate::query::{parse_pairs, query_map};
use crate::text::{chars_of, has_char, opt_view, replace_all, replace_chars, string_of};

verus! {

/// `s` with the five predefined XML entities decoded, one entity after the
/// other, left to right (`&amp;` first).
pub open spec fn unescape_xml_spec(s: Seq<char>) -> Seq<char> {
    replace_all(
        replace_all(
            replace_all(replace_all(replace_all(s, "&amp;"@, "&"@), "&lt;"@, "<"@), "&gt;"@, ">"@),
            "&quot;"@,
            "\""@,
        ),
        "&apos;"@,
        "'"@,
    )
}

/// The entity decoding of [`unescape_xml_spec`] on a character vector.
pub fn unescape_xml_chars(v: &[char]) -> (r: Vec<char>)
    ensures
        r@ == unescape_xml_spec(v@),
{
    let amp = chars_of("&amp;");
    let amp_r = chars_of("&");
    let lt = chars_of("&lt;");
    let lt_r = chars_of("<");
    let gt = chars_of("&gt;");
    let gt_r = chars_of(">");
    let quot = chars_of("&quot;");
    let quot_r = chars_of("\"");
    let apos = chars_of("&apos;");
    let apos_r = chars_of("'");
    let a = replace_chars(v, amp.as_slice(), amp_r.as_slice());
    let b = replace_chars(a.as_slice(), lt.as_slice(), lt_r.as_slice());
    let c = replace_chars(b.as_slice(), gt.as_slice(), gt_r.as_slice());
    let d = replace_chars(c.as_slice(), quot.as_slice(), quot_r.as_slice());
    replace_chars(d.as_slice(), apos.as_slice(), apos_r.as_slice())
}

/// `s` with the five predefined XML entities decoded.
pub fn unescape_xml(s: &str) -> (r: String)
    ensures
        r@ == unescape_xml_spec(s@),
{
    let v = chars_of(s);
    let u = unescape_xml_chars(v.as_slice());
    string_of(u.as_slice())
}

/// Parsed payload of an `invoked_args` string.
#[derive(Debug, Clone)]
pub struct ActivationPayload {
    /// The action identifier from the toast `arguments` attribute.
    pub action_id: String,
    /// Toast tag carried in the arguments, if present and not empty.
    pub tag: Option<String>,
    /// Toast group carried in the arguments, if present and not empty.
    pub group: Option<String>,
    /// Every other `key=value` pair.
    pub extra: InputMap,
}

/// The pairs of an `invoked_args` string that contains `=`: split at every
/// `&` (empty pieces included), each piece split at its first `=`, both
/// sides trimmed and entity-decoded, later keys replacing earlier ones.
pub open spec fn invoked_map(raw: Seq<char>) -> Map<Seq<char>, Seq<char>> {
    query_map(raw, false, false)
}

/// The action id of an `invoked_args` string: empty for an empty string,
/// the string itself when it holds no `=`, otherwise the `action` value.
pub open spec fn invoked_action(raw: Seq<char>) -> Seq<char> {
    if raw.len() == 0 {
        Seq::empty()
    } else if !has_char(raw, '=') {
        raw
    } else if invoked_map(raw).contains_key("action"@) {
        invoked_map(raw)["action"@]
    } else {
        Seq::empty()
    }
}

/// The non-empty value of `key` in an `invoked_args` string holding `=`.
pub open spec fn invoked_field(raw: Seq<char>, key: Seq<char>) -> Option<Seq<char>> {
    if raw.len() > 0 && has_char(raw, '=') && invoked_map(raw).contains_key(key)
        && invoked_map(raw)[key].len() > 0 {
        Some(invoked_map(raw)[key])
    } else {
        None
    }
}

/// The pairs other than `action`, `tag` and `group`.
pub open spec fn invoked_extra(raw: Seq<char>) -> Map<Seq<char>, Seq<char>> {
    if raw.len() > 0 && has_char(raw, '=') {
        invoked_map(raw).remove("action"@).remove("tag"@).remove("group"@)
    } else {
        Map::empty()
    }
}

/// Removes `key` and returns its value when it is not empty.
pub fn take_nonempty(m: &mut InputMap, key: &str) -> (r: Option<String>)
    ensures
        final(m)@ == old(m)@.remove(key@),
        opt_view(r) == (if old(m)@.contains_key(key@) && old(m)@[key@].len() > 0 {
            Some(old(m)@[key@])
        } else {
            None
        }),
{
    match m.remove(key) {
        Some(v) => {
            if v.as_str().is_empty() {
                None
            } else {
                Some(v)
            }
        },
        None => None,
    }
}

/// Parses the `invoked_args` string passed to
/// `INotificationActivationCallback::Activate`. A string without `=` is a
/// bare action id.
pub fn parse_invoked_args(raw: &str) -> (p: ActivationPayload)
    ensures
        p.action_id@ == invoked_action(raw@),
        opt_view(p.tag) == invoked_field(raw@, "tag"@),
        opt_view(p.group) == invoked_field(raw@, "group"@),
        p.extra@ == invoked_extra(raw@),
{
    let v = chars_of(raw);
    if v.len() == 0 {
        return ActivationPayload {
            action_id: String::new(),
            tag: None,
            group: None,
            extra: InputMap::new(),
        };
    }
    if !crate::text::has_char_exec(raw, '=') {
        return ActivationPayload {
            action_id: raw.to_owned(),
            tag: None,
            group: None,
            extra: InputMap::new(),
        };
    }
    let mut map = parse_pairs(v.as_slice(), false, false);
    let ghost m0 = map@;
    proof {
        reveal_strlit("action");
        reveal_strlit("tag");
        reveal_strlit("group");
        assert("action"@.len() == 6 && "tag"@.len() == 3 && "group"@.len() == 5);
        assert("action"@ != "tag"@ && "action"@ != "group"@ && "tag"@ != "group"@);
    }
    let action_id = match map.remove("action") {
        Some(a) => a,
        None => String::new(),
    };
    let tag = take_nonempty(&mut map, "tag");
    let group = take_nonempty(&mut map, "group");
    assert(m0.remove("action"@).remove("tag"@).contains_key("group"@) == m0.contains_key(
        "group"@,
    ));
    ActivationPayload { action_id, tag, group, extra: map }
}

/// Keeps a background-activated process alive for COM callbacks; on this
/// platform there is no message loop to pump.
pub fn run_pump(timeout_ms: u32) {
}

} // verus!
