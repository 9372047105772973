//! Normalises the two activation paths into one [`ActivationEvent`].
//!
//! * Background activation: Windows calls `Activate()` with the decoded
//!   `arguments` of the clicked button (`action=reply&tag=t&group=g`).
//! * Foreground / deep-link activation: the `launch` attribute arrives as a
//!   deep-link URI (`myapp://notification?tag=t&group=g`) or as the raw
//!   query string.
//!
//! Both are parsed by the same splitter; the `source` field tells them apart.
use vstd::prelude::*;
use vstd::string::*;
use vstd::utf8::*;
use crate::background_activation::{take_nonempty, unescape_xml_chars, unescape_xml_spec};
use crate::input_map::InputMap;
use crate::models::NotificationActionEvent;
use crate::query::{parse_pairs, query_map};
use crate::text::{
    chars_of, contains_char, contains_seq, contains_slice, find_char, has_char, has_char_exec,
    lemma_find_char, lemma_find_char_at, lemma_find_char_none, opt_view, string_of,
};

verus! {

/// How the activation reached the bridge.
#[derive(Debug, Clone, Copy, PartialEq, Eq, Structural)]
pub enum ActivationSource {
    /// The toast body or a foreground button.
    Foreground,
    /// A background button (COM activation).
    Background,
    /// A deep-link URI.
    DeepLink,
}

/// An activation with the path it arrived by.
#[derive(Debug, Clone)]
pub struct ActivationEvent {
    pub action_id: String,
    pub inputs: InputMap,
    pub tag: Option<String>,
    pub group: Option<String>,
    pub source: ActivationSource,
}

impl From<NotificationActionEvent> for ActivationEvent {
    fn from(e: NotificationActionEvent) -> (r: ActivationEvent) {
        ActivationEvent {
            action_id: e.action_id,
            inputs: e.inputs,
            tag: e.tag,
            group: e.group,
            source: ActivationSource::Background,
        }
    }
}

impl vstd::std_specs::convert::FromSpecImpl<NotificationActionEvent> for ActivationEvent {
    open spec fn obeys_from_spec() -> bool {
        true
    }

    open spec fn from_spec(e: NotificationActionEvent) -> ActivationEvent {
        ActivationEvent {
            action_id: e.action_id,
            inputs: e.inputs,
            tag: e.tag,
            group: e.group,
            source: ActivationSource::Background,
        }
    }
}

// ── Decoding ───────────────────────────────────────────────────────────────

/// The value of a hexadecimal digit byte.
pub open spec fn hex_value(b: u8) -> Option<u8> {
    if 48 <= b && b <= 57 {
        Some((b - 48) as u8)
    } else if 97 <= b && b <= 102 {
        Some((b - 87) as u8)
    } else if 65 <= b && b <= 70 {
        Some((b - 55) as u8)
    } else {
        None
    }
}

/// Decoding of `%XX` sequences in a byte string: `%` followed by two more
/// bytes that are both hexadecimal digits becomes the character with that
/// code; every other byte becomes the character with the byte's code.
pub open spec fn percent_decode_spec(b: Seq<u8>) -> Seq<char>
    decreases b.len(),
{
    if b.len() == 0 {
        Seq::empty()
    } else if b[0] == 37 && 2 < b.len() && hex_value(b[1]) is Some && hex_value(b[2]) is Some {
        seq![((hex_value(b[1]).unwrap() * 16 + hex_value(b[2]).unwrap()) as u8) as char]
            + percent_decode_spec(b.skip(3))
    } else {
        seq![b[0] as char] + percent_decode_spec(b.skip(1))
    }
}

/// Percent-decoding of the UTF-8 form of `s`, then entity decoding.
pub open spec fn unescape_spec(s: Seq<char>) -> Seq<char> {
    unescape_xml_spec(percent_decode_spec(encode_utf8(s)))
}

/// The value of a hexadecimal digit.
pub fn hex_nibble(b: u8) -> (r: Option<u8>)
    ensures
        r == hex_value(b),
{
    if 48 <= b && b <= 57 {
        Some(b - 48)
    } else if 97 <= b && b <= 102 {
        Some(b - 87)
    } else if 65 <= b && b <= 70 {
        Some(b - 55)
    } else {
        None
    }
}

fn percent_decode_bytes(b: &[u8]) -> (r: Vec<char>)
    ensures
        r@ == percent_decode_spec(b@),
{
    let mut out: Vec<char> = Vec::new();
    let mut i: usize = 0;
    assert(b@.skip(0) =~= b@);
    while i < b.len()
        invariant
            i <= b@.len(),
            out@ + percent_decode_spec(b@.skip(i as int)) == percent_decode_spec(b@),
        decreases b.len() - i,
    {
        let ghost rest = b@.skip(i as int);
        if b[i] == 37 && b.len() - i > 2 {
            let h = hex_nibble(b[i + 1]);
            let l = hex_nibble(b[i + 2]);
            if h.is_some() && l.is_some() {
                let hv = h.unwrap();
                let lv = l.unwrap();
                let code: u8 = hv * 16 + lv;
                out.push(code as char);
                assert(rest.skip(3) =~= b@.skip(i + 3));
                i = i + 3;
                assert(out@ + percent_decode_spec(b@.skip(i as int)) =~= percent_decode_spec(b@));
                continue;
            }
        }
        out.push(b[i] as char);
        assert(rest.skip(1) =~= b@.skip(i + 1));
        i = i + 1;
        assert(out@ + percent_decode_spec(b@.skip(i as int)) =~= percent_decode_spec(b@));
    }
    assert(out@ + percent_decode_spec(b@.skip(i as int)) =~= out@);
    out
}

/// Decoding of `%XX` sequences in the UTF-8 form of `s`; bytes outside
/// ASCII become the Latin-1 character with the same code.
pub fn percent_decode(s: &str) -> (r: String)
    ensures
        r@ == percent_decode_spec(encode_utf8(s@)),
{
    let v = percent_decode_bytes(s.as_bytes());
    string_of(v.as_slice())
}

/// Decodes both percent-encoding and XML entities, whichever survived the
/// path that delivered the argument.
pub fn unescape(s: &str) -> (r: String)
    ensures
        r@ == unescape_spec(s@),
{
    let v = percent_decode_bytes(s.as_bytes());
    let u = unescape_xml_chars(v.as_slice());
    string_of(u.as_slice())
}

// ── Parsing ────────────────────────────────────────────────────────────────

/// The query part of an activation URI: the text after the first `?`;
/// nothing for a URI (`://`) without `?`; otherwise the whole string.
pub open spec fn query_part(raw: Seq<char>) -> Seq<char> {
    match find_char(raw, '?') {
        Some(p) => raw.skip(p + 1),
        None => if contains_seq(raw, "://"@) {
            Seq::empty()
        } else {
            raw
        },
    }
}

/// The pairs of a query string (empty pieces skipped, keys and values
/// percent- and entity-decoded).
pub open spec fn activation_map(q: Seq<char>) -> Map<Seq<char>, Seq<char>> {
    query_map(q, true, true)
}

/// The action id of a query: empty for an empty query, the decoded query
/// itself when it holds no `=`, otherwise the `action` value.
pub open spec fn parsed_action(q: Seq<char>) -> Seq<char> {
    if q.len() == 0 {
        Seq::empty()
    } else if !has_char(q, '=') {
        unescape_spec(q)
    } else if activation_map(q).contains_key("action"@) {
        activation_map(q)["action"@]
    } else {
        Seq::empty()
    }
}

/// The non-empty value of `key` in a query holding `=`.
pub open spec fn parsed_field(q: Seq<char>, key: Seq<char>) -> Option<Seq<char>> {
    if q.len() > 0 && has_char(q, '=') && activation_map(q).contains_key(key)
        && activation_map(q)[key].len() > 0 {
        Some(activation_map(q)[key])
    } else {
        None
    }
}

/// The pairs of a query other than `action`, `tag` and `group`.
pub open spec fn parsed_inputs(q: Seq<char>) -> Map<Seq<char>, Seq<char>> {
    if q.len() > 0 && has_char(q, '=') {
        activation_map(q).remove("action"@).remove("tag"@).remove("group"@)
    } else {
        Map::empty()
    }
}

/// `e` is the event that parsing the query `q` yields for `source`.
pub open spec fn parsed_event(e: ActivationEvent, q: Seq<char>, source: ActivationSource) -> bool {
    &&& e.action_id@ == parsed_action(q)
    &&& e.inputs@ == parsed_inputs(q)
    &&& opt_view(e.tag) == parsed_field(q, "tag"@)
    &&& opt_view(e.group) == parsed_field(q, "group"@)
    &&& e.source == source
}

/// The query-string portion of an activation URI.
pub fn extract_query(raw: &str) -> (r: &str)
    ensures
        r@ == query_part(raw@),
{
    let v = chars_of(raw);
    let n = v.len();
    let mut i: usize = 0;
    while i < n && v[i] != '?'
        invariant
            n == v@.len(),
            v@ == raw@,
            i <= n,
            forall|j: int| 0 <= j < i ==> v@[j] != '?',
        decreases n - i,
    {
        i = i + 1;
    }
    if i < n {
        proof {
            lemma_find_char_at(raw@, '?', i as int);
        }
        return raw.substring_char(i + 1, n);
    }
    proof {
        lemma_find_char_none(raw@, '?');
    }
    let sep = chars_of("://");
    if contains_slice(v.as_slice(), sep.as_slice()) {
        proof {
            reveal_strlit("");
        }
        ""
    } else {
        raw
    }
}

/// Splits `key=value&…` pairs, takes out `action`, `tag` and `group`, and
/// keeps the other keys as inputs. An empty query gives an empty event; a
/// query without `=` is a plain action id.
pub fn parse_query(query: &str, source: ActivationSource) -> (e: ActivationEvent)
    ensures
        parsed_event(e, query@, source),
{
    let v = chars_of(query);
    if v.len() == 0 {
        return ActivationEvent {
            action_id: String::new(),
            inputs: InputMap::new(),
            tag: None,
            group: None,
            source,
        };
    }
    if !has_char_exec(query, '=') {
        return ActivationEvent {
            action_id: unescape(query),
            inputs: InputMap::new(),
            tag: None,
            group: None,
            source,
        };
    }
    let mut map = parse_pairs(v.as_slice(), true, true);
    let ghost m0 = map@;
    proof {
        reveal_strlit("action");
        reveal_strlit("tag");
        reveal_strlit("group");
        assert("action"@.len() == 6 && "tag"@.len() == 3 && "group"@.len() == 5);
        assert("action"@ != "tag"@ && "action"@ != "group"@ && "tag"@ != "group"@);
    }
    let action_id = match map.remove("action") {
        Some(a) => a,
        None => String::new(),
    };
    let tag = take_nonempty(&mut map, "tag");
    let group = take_nonempty(&mut map, "group");
    assert(m0.remove("action"@).remove("tag"@).contains_key("group"@) == m0.contains_key(
        "group"@,
    ));
    ActivationEvent { action_id, inputs: map, tag, group, source }
}

/// Parses an activation URI or raw query string (`myapp://x?action=a`,
/// `action=a&tag=t`, a plain id, or an empty string).
pub fn parse_activation_uri(raw: &str) -> (e: ActivationEvent)
    ensures
        parsed_event(e, query_part(raw@), ActivationSource::DeepLink),
{
    let query = extract_query(raw);
    parse_query(query, ActivationSource::DeepLink)
}

/// Parses the `launch` arguments of a foreground activation.
pub fn parse_foreground_args(raw: &str) -> (e: ActivationEvent)
    ensures
        parsed_event(e, raw@, ActivationSource::Foreground),
{
    parse_query(raw, ActivationSource::Foreground)
}

/// `e` is the event of the background arguments `q`: action id, tag and
/// group as parsed, and no inputs (the COM activator supplies them).
pub open spec fn background_event(e: ActivationEvent, q: Seq<char>) -> bool {
    &&& e.action_id@ == parsed_action(q)
    &&& e.inputs@ == Map::<Seq<char>, Seq<char>>::empty()
    &&& opt_view(e.tag) == parsed_field(q, "tag"@)
    &&& opt_view(e.group) == parsed_field(q, "group"@)
    &&& e.source == ActivationSource::Background
}

/// Parses the `invoked_args` of a background COM activation. The inputs
/// are left empty: the COM activator merges the user inputs afterwards.
pub fn parse_background_args(raw: &str) -> (e: ActivationEvent)
    ensures
        background_event(e, raw@),
{
    let ev = parse_query(raw, ActivationSource::Background);
    ActivationEvent {
        action_id: ev.action_id,
        inputs: InputMap::new(),
        tag: ev.tag,
        group: ev.group,
        source: ev.source,
    }
}

/// The three entry points read the same action id, tag and group from the
/// same argument string; the deep-link and foreground paths also read the
/// same inputs, and the background path reads none.
pub proof fn lemma_sources_agree(
    deep: ActivationEvent,
    fore: ActivationEvent,
    back: ActivationEvent,
    q: Seq<char>,
)
    requires
        parsed_event(deep, q, ActivationSource::DeepLink),
        parsed_event(fore, q, ActivationSource::Foreground),
        background_event(back, q),
    ensures
        deep.action_id@ == fore.action_id@ && fore.action_id@ == back.action_id@,
        opt_view(deep.tag) == opt_view(fore.tag) && opt_view(fore.tag) == opt_view(back.tag),
        opt_view(deep.group) == opt_view(fore.group) && opt_view(fore.group) == opt_view(
            back.group,
        ),
        deep.inputs@ == fore.inputs@,
        back.inputs@ == Map::<Seq<char>, Seq<char>>::empty(),
{
}

/// The event without its source, for dispatch.
pub fn to_action_event(e: ActivationEvent) -> (r: NotificationActionEvent)
    ensures
        r.action_id == e.action_id,
        r.inputs == e.inputs,
        r.tag == e.tag,
        r.group == e.group,
{
    NotificationActionEvent { action_id: e.action_id, inputs: e.inputs, tag: e.tag, group: e.group }
}

} // verus!
