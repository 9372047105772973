//! Decisions of the hardened COM activator: the lenient GUID parser of the
//! plugin configuration, the event built from an `Activate()` call and where
//! it goes, the registration retry policy and the threading-model check.
use vstd::prelude::*;
use vstd::string::*;
use vstd::utf8::*;
use crate::activation_bridge::{
    parse_background_args, parsed_action, parsed_field, to_action_event,
    ActivationEvent,
};
use crate::com_server::{guid_fields, insert_all, insert_entries};
use crate::guid::{
    d4_cut_panics, d4_value, parse_d4, parse_radix16, radix16, splitn_bytes, splitn_spans, Guid,
};
use crate::input_map::InputEntry;
use crate::models::NotificationActionEvent;
use crate::text::{chars_of, opt_view, string_of, trim, trimmed};

verus! {

// ── Lenient GUID parsing ───────────────────────────────────────────────────

/// Why a GUID text was refused.
#[derive(Debug, Clone, Copy, PartialEq, Eq, Structural)]
pub enum GuidParseError {
    /// Fewer than five dash-separated groups.
    Format,
    /// The first group is not a 32-bit hexadecimal number.
    Data1,
    /// The second group is not a 16-bit hexadecimal number.
    Data2,
    /// The third group is not a 16-bit hexadecimal number.
    Data3,
    /// The last two groups are not sixteen bytes together.
    Data4Length,
    /// A byte pair of the last two groups is not hexadecimal.
    Data4Byte,
}

/// The message of a refusal.
pub open spec fn guid_error_message(e: GuidParseError) -> Seq<char> {
    match e {
        GuidParseError::Format => "Invalid GUID format"@,
        GuidParseError::Data1 => "Invalid GUID data1"@,
        GuidParseError::Data2 => "Invalid GUID data2"@,
        GuidParseError::Data3 => "Invalid GUID data3"@,
        GuidParseError::Data4Length => "Invalid GUID data4 length"@,
        GuidParseError::Data4Byte => "Invalid GUID data4 byte"@,
    }
}

impl GuidParseError {
    /// The message of this refusal.
    pub fn message(&self) -> (r: &'static str)
        ensures
            r@ == guid_error_message(*self),
    {
        match self {
            GuidParseError::Format => "Invalid GUID format",
            GuidParseError::Data1 => "Invalid GUID data1",
            GuidParseError::Data2 => "Invalid GUID data2",
            GuidParseError::Data3 => "Invalid GUID data3",
            GuidParseError::Data4Length => "Invalid GUID data4 length",
            GuidParseError::Data4Byte => "Invalid GUID data4 byte",
        }
    }
}

/// `b` without leading bytes `x`.
pub open spec fn trim_byte_start(b: Seq<u8>, x: u8) -> Seq<u8>
    decreases b.len(),
{
    if b.len() > 0 && b[0] == x {
        trim_byte_start(b.drop_first(), x)
    } else {
        b
    }
}

/// `b` without trailing bytes `x`.
pub open spec fn trim_byte_end(b: Seq<u8>, x: u8) -> Seq<u8>
    decreases b.len(),
{
    if b.len() > 0 && b.last() == x {
        trim_byte_end(b.drop_last(), x)
    } else {
        b
    }
}

/// The groups of a configured GUID: whitespace trimmed, then leading `{`
/// and trailing `}`, then split at the first four dashes.
pub open spec fn lenient_groups(s: Seq<char>) -> Seq<Seq<u8>> {
    splitn_bytes(trim_byte_end(trim_byte_start(encode_utf8(trim(s)), 123), 125), 45, 5)
}

/// The GUID of a configured GUID text, or why it is refused.
pub open spec fn lenient_guid(s: Seq<char>) -> Result<(u32, u16, u16, Seq<u8>), GuidParseError> {
    let p = lenient_groups(s);
    if p.len() != 5 {
        Err(GuidParseError::Format)
    } else if radix16(p[0], 0xFFFF_FFFF) is None {
        Err(GuidParseError::Data1)
    } else if radix16(p[1], 0xFFFF) is None {
        Err(GuidParseError::Data2)
    } else if radix16(p[2], 0xFFFF) is None {
        Err(GuidParseError::Data3)
    } else if (p[3] + p[4]).len() != 16 {
        Err(GuidParseError::Data4Length)
    } else {
        match d4_value(p[3] + p[4]) {
            Some(d) => Ok(
                (
                    radix16(p[0], 0xFFFF_FFFF).unwrap() as u32,
                    radix16(p[1], 0xFFFF).unwrap() as u16,
                    radix16(p[2], 0xFFFF).unwrap() as u16,
                    d,
                ),
            ),
            None => Err(GuidParseError::Data4Byte),
        }
    }
}

/// Parsing stops in a panic: the `data4` digits are sliced through a
/// character after everything before them parsed.
pub open spec fn lenient_guid_panics(s: Seq<char>) -> bool {
    let p = lenient_groups(s);
    &&& p.len() == 5
    &&& radix16(p[0], 0xFFFF_FFFF) is Some
    &&& radix16(p[1], 0xFFFF) is Some
    &&& radix16(p[2], 0xFFFF) is Some
    &&& (p[3] + p[4]).len() == 16
    &&& d4_cut_panics(p[3] + p[4])
}

/// The bounds of `b` without leading `{` and trailing `}`.
fn lenient_bounds(b: &[u8]) -> (r: (usize, usize))
    ensures
        r.0 <= r.1 <= b@.len(),
        b@.subrange(r.0 as int, r.1 as int) == trim_byte_end(trim_byte_start(b@, 123), 125),
{
    let mut lo: usize = 0;
    assert(b@.subrange(0, b@.len() as int) =~= b@);
    while lo < b.len() && b[lo] == 123
        invariant
            lo <= b@.len(),
            trim_byte_start(b@, 123) == trim_byte_start(
                b@.subrange(lo as int, b@.len() as int),
                123,
            ),
        decreases b.len() - lo,
    {
        assert(b@.subrange(lo as int, b@.len() as int).drop_first() =~= b@.subrange(
            lo + 1,
            b@.len() as int,
        ));
        lo = lo + 1;
    }
    let mut hi = b.len();
    while hi > lo && b[hi - 1] == 125
        invariant
            lo <= hi <= b@.len(),
            trim_byte_start(b@, 123) == b@.subrange(lo as int, b@.len() as int),
            trim_byte_end(trim_byte_start(b@, 123), 125) == trim_byte_end(
                b@.subrange(lo as int, hi as int),
                125,
            ),
        decreases hi - lo,
    {
        assert(b@.subrange(lo as int, hi as int).drop_last() =~= b@.subrange(
            lo as int,
            hi - 1,
        ));
        hi = hi - 1;
    }
    (lo, hi)
}

fn concat_spans(b: &[u8], lo1: usize, hi1: usize, lo2: usize, hi2: usize) -> (r: Vec<u8>)
    requires
        lo1 <= hi1 <= b@.len(),
        lo2 <= hi2 <= b@.len(),
    ensures
        r@ == b@.subrange(lo1 as int, hi1 as int) + b@.subrange(lo2 as int, hi2 as int),
{
    let mut out: Vec<u8> = Vec::new();
    let mut i = lo1;
    while i < hi1
        invariant
            lo1 <= i <= hi1 <= b@.len(),
            out@ == b@.subrange(lo1 as int, i as int),
        decreases hi1 - i,
    {
        out.push(b[i]);
        i = i + 1;
        assert(out@ =~= b@.subrange(lo1 as int, i as int));
    }
    let mut j = lo2;
    while j < hi2
        invariant
            lo2 <= j <= hi2 <= b@.len(),
            out@ == b@.subrange(lo1 as int, hi1 as int) + b@.subrange(lo2 as int, j as int),
        decreases hi2 - j,
    {
        out.push(b[j]);
        j = j + 1;
        assert(out@ =~= b@.subrange(lo1 as int, hi1 as int) + b@.subrange(lo2 as int, j as int));
    }
    out
}

/// The trimmed text of a configured GUID, as UTF-8 bytes.
fn trimmed_text(s: &str) -> (r: String)
    ensures
        r@ == trim(s@),
{
    let v = chars_of(s);
    let t = trimmed(v.as_slice(), 0, v.len());
    assert(v@.subrange(0, v@.len() as int) =~= s@);
    string_of(t.as_slice())
}

/// Parses a configured GUID leniently: surrounding whitespace and braces
/// are ignored and the groups may have any length that fits their field.
pub fn parse_guid(s: &str) -> (r: Result<Guid, GuidParseError>)
    requires
        !lenient_guid_panics(s@),
    ensures
        match r {
            Ok(g) => lenient_guid(s@) == Ok::<(u32, u16, u16, Seq<u8>), GuidParseError>(
                guid_fields(g),
            ),
            Err(e) => lenient_guid(s@) == Err::<(u32, u16, u16, Seq<u8>), GuidParseError>(e),
        },
{
    let text = trimmed_text(s);
    let b = text.as_str().as_bytes();
    let (lo, hi) = lenient_bounds(b);
    let parts = splitn_spans(b, lo, hi, 45, 5);
    let ghost p = lenient_groups(s@);
    if parts.len() != 5 {
        return Err(GuidParseError::Format);
    }
    let p0 = parts[0];
    let p1 = parts[1];
    let p2 = parts[2];
    let p3 = parts[3];
    let p4 = parts[4];
    assert(b@.subrange(p0.lo as int, p0.hi as int) == p[0]);
    assert(b@.subrange(p1.lo as int, p1.hi as int) == p[1]);
    assert(b@.subrange(p2.lo as int, p2.hi as int) == p[2]);
    assert(b@.subrange(p3.lo as int, p3.hi as int) == p[3]);
    assert(b@.subrange(p4.lo as int, p4.hi as int) == p[4]);
    let d1 = match parse_radix16(b, p0.lo, p0.hi, 0xFFFF_FFFF) {
        Some(v) => v,
        None => return Err(GuidParseError::Data1),
    };
    let d2 = match parse_radix16(b, p1.lo, p1.hi, 0xFFFF) {
        Some(v) => v,
        None => return Err(GuidParseError::Data2),
    };
    let d3 = match parse_radix16(b, p2.lo, p2.hi, 0xFFFF) {
        Some(v) => v,
        None => return Err(GuidParseError::Data3),
    };
    let d4 = concat_spans(b, p3.lo, p3.hi, p4.lo, p4.hi);
    if d4.len() != 16 {
        return Err(GuidParseError::Data4Length);
    }
    match parse_d4(d4.as_slice()) {
        Some(data4) => Ok(Guid { data1: d1 as u32, data2: d2 as u16, data3: d3 as u16, data4 }),
        None => Err(GuidParseError::Data4Byte),
    }
}

/// Whether [`parse_guid`] would stop in a panic on `s`.
pub fn parse_guid_would_panic(s: &str) -> (r: bool)
    ensures
        r == lenient_guid_panics(s@),
{
    let text = trimmed_text(s);
    let b = text.as_str().as_bytes();
    let (lo, hi) = lenient_bounds(b);
    let parts = splitn_spans(b, lo, hi, 45, 5);
    let ghost p = lenient_groups(s@);
    if parts.len() != 5 {
        return false;
    }
    let p0 = parts[0];
    let p1 = parts[1];
    let p2 = parts[2];
    let p3 = parts[3];
    let p4 = parts[4];
    assert(b@.subrange(p0.lo as int, p0.hi as int) == p[0]);
    assert(b@.subrange(p1.lo as int, p1.hi as int) == p[1]);
    assert(b@.subrange(p2.lo as int, p2.hi as int) == p[2]);
    assert(b@.subrange(p3.lo as int, p3.hi as int) == p[3]);
    assert(b@.subrange(p4.lo as int, p4.hi as int) == p[4]);
    if parse_radix16(b, p0.lo, p0.hi, 0xFFFF_FFFF).is_none() || parse_radix16(
        b,
        p1.lo,
        p1.hi,
        0xFFFF,
    ).is_none() || parse_radix16(b, p2.lo, p2.hi, 0xFFFF).is_none() {
        return false;
    }
    let d4 = concat_spans(b, p3.lo, p3.hi, p4.lo, p4.hi);
    if d4.len() != 16 {
        return false;
    }
    crate::guid::d4_cut_would_panic(d4.as_slice())
}

// ── Activation ─────────────────────────────────────────────────────────────

/// The event of an `Activate()` call: action id, tag and group parsed from
/// the invoked arguments, and the user inputs (set in order, a later entry
/// for a key winning) as its inputs.
pub fn activation_event(raw_args: &str, user_inputs: &[InputEntry]) -> (e: NotificationActionEvent)
    ensures
        e.action_id@ == parsed_action(raw_args@),
        opt_view(e.tag) == parsed_field(raw_args@, "tag"@),
        opt_view(e.group) == parsed_field(raw_args@, "group"@),
        e.inputs@ == insert_all(Map::empty(), user_inputs@),
{
    let ev = parse_background_args(raw_args);
    let mut inputs = ev.inputs;
    insert_entries(&mut inputs, user_inputs);
    to_action_event(
        ActivationEvent {
            action_id: ev.action_id,
            inputs,
            tag: ev.tag,
            group: ev.group,
            source: ev.source,
        },
    )
}

/// Where an activation goes.
#[derive(Debug)]
pub enum ActivationRoute {
    /// A background process queues it (under a fresh id) for the worker.
    Enqueue { id: String, event: NotificationActionEvent },
    /// A foreground process dispatches it at once.
    Dispatch { event: NotificationActionEvent },
}

/// A lower-case hexadecimal digit.
pub open spec fn is_lower_hex(c: char) -> bool {
    ('0' <= c && c <= '9') || ('a' <= c && c <= 'f')
}

/// The hyphenated lower-case text of a version-4 UUID:
/// `xxxxxxxx-xxxx-4xxx-Vxxx-xxxxxxxxxxxx`, with `V` one of `8`, `9`, `a`, `b`.
pub open spec fn is_v4_uuid_text(s: Seq<char>) -> bool {
    &&& s.len() == 36
    &&& forall|i: int|
        0 <= i < 36 ==> if i == 8 || i == 13 || i == 18 || i == 23 {
            #[trigger] s[i] == '-'
        } else {
            is_lower_hex(s[i])
        }
    &&& s[14] == '4'
    &&& (s[19] == '8' || s[19] == '9' || s[19] == 'a' || s[19] == 'b')
}

/// A fresh random activation id: `uuid::Uuid::new_v4().to_string()`, which
/// sets the version nibble to 4 and the variant bits to `10` and displays
/// the UUID hyphenated in lower case. Which UUID comes out is chance, and
/// nothing is claimed of it beyond that form.
#[verifier::external_body]
fn new_activation_id() -> (r: String)
    ensures
        is_v4_uuid_text(r@),
{
    uuid::Uuid::new_v4().to_string()
}

/// Routes an activation: a background-launched process queues it under a
/// fresh version-4 UUID, a foreground process dispatches it.
pub fn route_activation(event: NotificationActionEvent, is_background_launch: bool) -> (r:
    ActivationRoute)
    ensures
        is_background_launch ==> (r matches ActivationRoute::Enqueue { id, event: e } && e
            == event && is_v4_uuid_text(id@)),
        !is_background_launch ==> (r matches ActivationRoute::Dispatch { event: e } && e == event),
{
    if is_background_launch {
        ActivationRoute::Enqueue { id: new_activation_id(), event }
    } else {
        ActivationRoute::Dispatch { event }
    }
}

// ── Registration policy ────────────────────────────────────────────────────

/// The attempt count after a failed registration attempt, or `None` when
/// `retries` attempts have been used up.
pub fn next_attempt(attempt: u32, retries: u32) -> (r: Option<u32>)
    requires
        attempt < u32::MAX,
    ensures
        attempt + 1 >= retries ==> r is None,
        attempt + 1 < retries ==> r == Some((attempt + 1) as u32),
{
    let next = attempt + 1;
    if next >= retries {
        None
    } else {
        Some(next)
    }
}

/// The COM apartment model of a thread.
#[derive(Debug, Clone, Copy, PartialEq, Eq, Structural)]
pub enum ThreadingModel {
    STA,
    MTA,
}

/// Checks the thread's apartment model; a mismatch is refused.
pub fn validate_threading_model(actual: ThreadingModel, expected: ThreadingModel) -> (r: Result<
    (),
    (),
>)
    ensures
        r is Ok <==> actual == expected,
{
    if actual != expected {
        Err(())
    } else {
        Ok(())
    }
}

} // verus!
