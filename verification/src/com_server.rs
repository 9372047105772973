//! The COM server that receives background toast activations: validation
//! of its GUID, the interfaces it answers to, and the event it builds from
//! an `Activate()` call.
use vstd::prelude::*;
use vstd::utf8::*;
use crate::error::Error;
use crate::activation_bridge::{hex_nibble, hex_value};
use crate::guid::{
    d4_pair, d4_value, hex_digits_value, parse_d4, parse_radix16, radix16, splitn_bytes,
    splitn_spans, Guid,
};
use crate::input_map::{InputEntry, InputMap};
use crate::models::NotificationActionEvent;
use crate::text::opt_view;

verus! {

/// The four fields of a GUID, `data4` as a sequence.
pub open spec fn guid_fields(g: Guid) -> (u32, u16, u16, Seq<u8>) {
    (g.data1, g.data2, g.data3, g.data4@)
}

/// A brace byte (`{` or `}`).
pub open spec fn is_brace(b: u8) -> bool {
    b == 123 || b == 125
}

/// `b` without leading braces.
pub open spec fn trim_braces_start(b: Seq<u8>) -> Seq<u8>
    decreases b.len(),
{
    if b.len() > 0 && is_brace(b[0]) {
        trim_braces_start(b.drop_first())
    } else {
        b
    }
}

/// `b` without trailing braces.
pub open spec fn trim_braces_end(b: Seq<u8>) -> Seq<u8>
    decreases b.len(),
{
    if b.len() > 0 && is_brace(b.last()) {
        trim_braces_end(b.drop_last())
    } else {
        b
    }
}

/// The dash-separated groups of a GUID text, braces stripped from both ends
/// (six pieces at most, so that a sixth group shows).
pub open spec fn strict_groups(s: Seq<char>) -> Seq<Seq<u8>> {
    splitn_bytes(trim_braces_end(trim_braces_start(encode_utf8(s))), 45, 6)
}

/// The groups have the `8-4-4-4-12` layout.
pub open spec fn strict_layout(p: Seq<Seq<u8>>) -> bool {
    p.len() == 5 && p[0].len() == 8 && p[1].len() == 4 && p[2].len() == 4 && p[3].len() == 4
        && p[4].len() == 12
}

/// Every byte of `d` is a hexadecimal digit (`0`–`9`, `a`–`f`, `A`–`F`).
pub open spec fn all_hex(d: Seq<u8>) -> bool {
    forall|i: int| 0 <= i < d.len() ==> hex_value(#[trigger] d[i]) is Some
}

/// Sixteen to the power `n`.
pub open spec fn pow16(n: nat) -> int
    decreases n,
{
    if n == 0 {
        1
    } else {
        16 * pow16((n - 1) as nat)
    }
}

/// The value of a string of hexadecimal digits.
pub open spec fn hex_of(d: Seq<u8>) -> int {
    hex_digits_value(d).unwrap()
}

/// The GUID written as `XXXXXXXX-XXXX-XXXX-XXXX-XXXXXXXXXXXX` in hexadecimal
/// digits only, optionally in braces: the first three groups are `data1`
/// to `data3`, and groups four and five give the eight `data4` bytes, two
/// digits each, in order.
pub open spec fn strict_guid(s: Seq<char>) -> Option<(u32, u16, u16, Seq<u8>)> {
    let p = strict_groups(s);
    if strict_layout(p) && all_hex(p[0]) && all_hex(p[1]) && all_hex(p[2]) && all_hex(p[3])
        && all_hex(p[4]) {
        let d4 = p[3] + p[4];
        Some(
            (
                hex_of(p[0]) as u32,
                hex_of(p[1]) as u16,
                hex_of(p[2]) as u16,
                Seq::new(8, |i: int| hex_of(d4_pair(d4, i)) as u8),
            ),
        )
    } else {
        None
    }
}

/// A string of hexadecimal digits has a value below sixteen to the power
/// of its length.
proof fn lemma_hex_bound(d: Seq<u8>)
    requires
        all_hex(d),
    ensures
        hex_digits_value(d) is Some,
        0 <= hex_of(d) < pow16(d.len()),
    decreases d.len(),
{
    if d.len() > 0 {
        assert(all_hex(d.drop_last()));
        lemma_hex_bound(d.drop_last());
        assert(hex_value(d[d.len() - 1]) is Some);
    }
}

/// `from_str_radix` of a non-empty digit string whose value fits is that
/// value.
proof fn lemma_radix_hex(d: Seq<u8>, max: int)
    requires
        all_hex(d),
        d.len() > 0,
        pow16(d.len()) <= max + 1,
    ensures
        radix16(d, max) == Some(hex_of(d)),
{
    lemma_hex_bound(d);
    assert(hex_value(d[0]) is Some);
}

/// Sixteen hexadecimal digits give the `data4` bytes pair by pair.
proof fn lemma_d4_hex(d4: Seq<u8>)
    requires
        d4.len() == 16,
        all_hex(d4),
    ensures
        d4_value(d4) == Some(Seq::new(8, |i: int| hex_of(d4_pair(d4, i)) as u8)),
{
    reveal_with_fuel(pow16, 3);
    assert forall|i: int| 0 <= i < 8 implies radix16(#[trigger] d4_pair(d4, i), 255) == Some(
        hex_of(d4_pair(d4, i)),
    ) by {
        let q = d4_pair(d4, i);
        assert forall|k: int| 0 <= k < q.len() implies hex_value(#[trigger] q[k]) is Some by {
            assert(q[k] == d4[2 * i + k]);
        }
        lemma_radix_hex(q, 255);
    }
    assert(d4_value(d4) =~= Some(Seq::new(8, |i: int| hex_of(d4_pair(d4, i)) as u8)));
}

/// Whether every byte of `b[lo..hi]` is a hexadecimal digit.
fn span_all_hex(b: &[u8], lo: usize, hi: usize) -> (r: bool)
    requires
        lo <= hi <= b@.len(),
    ensures
        r == all_hex(b@.subrange(lo as int, hi as int)),
{
    let mut i = lo;
    while i < hi
        invariant
            lo <= i <= hi <= b@.len(),
            forall|k: int| lo <= k < i ==> hex_value(#[trigger] b@[k]) is Some,
        decreases hi - i,
    {
        if hex_nibble(b[i]).is_none() {
            assert(b@.subrange(lo as int, hi as int)[i - lo] == b@[i as int]);
            return false;
        }
        i = i + 1;
    }
    assert forall|k: int| 0 <= k < hi - lo implies hex_value(
        #[trigger] b@.subrange(lo as int, hi as int)[k],
    ) is Some by {
        assert(b@.subrange(lo as int, hi as int)[k] == b@[lo + k]);
    }
    true
}

/// The bounds of `b` without braces at either end.
fn brace_bounds(b: &[u8]) -> (r: (usize, usize))
    ensures
        r.0 <= r.1 <= b@.len(),
        b@.subrange(r.0 as int, r.1 as int) == trim_braces_end(trim_braces_start(b@)),
{
    let mut lo: usize = 0;
    assert(b@.subrange(0, b@.len() as int) =~= b@);
    while lo < b.len() && (b[lo] == 123 || b[lo] == 125)
        invariant
            lo <= b@.len(),
            trim_braces_start(b@) == trim_braces_start(b@.subrange(lo as int, b@.len() as int)),
        decreases b.len() - lo,
    {
        assert(b@.subrange(lo as int, b@.len() as int).drop_first() =~= b@.subrange(
            lo + 1,
            b@.len() as int,
        ));
        lo = lo + 1;
    }
    let mut hi = b.len();
    while hi > lo && (b[hi - 1] == 123 || b[hi - 1] == 125)
        invariant
            lo <= hi <= b@.len(),
            trim_braces_start(b@) == b@.subrange(lo as int, b@.len() as int),
            trim_braces_end(trim_braces_start(b@)) == trim_braces_end(
                b@.subrange(lo as int, hi as int),
            ),
        decreases hi - lo,
    {
        assert(b@.subrange(lo as int, hi as int).drop_last() =~= b@.subrange(
            lo as int,
            hi - 1,
        ));
        hi = hi - 1;
    }
    (lo, hi)
}

/// The sixteen `data4` digits: group four followed by group five.
fn d4_digits(b: &[u8], p3: (usize, usize), p4: (usize, usize)) -> (r: Vec<u8>)
    requires
        p3.0 <= p3.1 <= b@.len(),
        p4.0 <= p4.1 <= b@.len(),
    ensures
        r@ == b@.subrange(p3.0 as int, p3.1 as int) + b@.subrange(p4.0 as int, p4.1 as int),
{
    let mut out: Vec<u8> = Vec::new();
    let mut i = p3.0;
    while i < p3.1
        invariant
            p3.0 <= i <= p3.1 <= b@.len(),
            out@ == b@.subrange(p3.0 as int, i as int),
        decreases p3.1 - i,
    {
        out.push(b[i]);
        i = i + 1;
        assert(out@ =~= b@.subrange(p3.0 as int, i as int));
    }
    let mut j = p4.0;
    while j < p4.1
        invariant
            p4.0 <= j <= p4.1 <= b@.len(),
            out@ == b@.subrange(p3.0 as int, p3.1 as int) + b@.subrange(p4.0 as int, j as int),
        decreases p4.1 - j,
    {
        out.push(b[j]);
        j = j + 1;
        assert(out@ =~= b@.subrange(p3.0 as int, p3.1 as int) + b@.subrange(p4.0 as int, j as int));
    }
    out
}

/// Parses `XXXXXXXX-XXXX-XXXX-XXXX-XXXXXXXXXXXX` (hexadecimal digits of
/// either case), with or without braces; anything else is an error.
pub fn parse_guid(s: &str) -> (r: Result<Guid, ()>)
    ensures
        match r {
            Ok(g) => strict_guid(s@) == Some(guid_fields(g)),
            Err(_) => strict_guid(s@) is None,
        },
{
    let b = s.as_bytes();
    let (lo, hi) = brace_bounds(b);
    let parts = splitn_spans(b, lo, hi, 45, 6);
    let ghost p = strict_groups(s@);
    if parts.len() != 5 {
        return Err(());
    }
    let p0 = parts[0];
    let p1 = parts[1];
    let p2 = parts[2];
    let p3 = parts[3];
    let p4 = parts[4];
    assert(b@.subrange(p0.lo as int, p0.hi as int) == p[0]);
    assert(b@.subrange(p1.lo as int, p1.hi as int) == p[1]);
    assert(b@.subrange(p2.lo as int, p2.hi as int) == p[2]);
    assert(b@.subrange(p3.lo as int, p3.hi as int) == p[3]);
    assert(b@.subrange(p4.lo as int, p4.hi as int) == p[4]);
    if p0.hi - p0.lo != 8 || p1.hi - p1.lo != 4 || p2.hi - p2.lo != 4 || p3.hi - p3.lo != 4 || p4.hi
        - p4.lo != 12 {
        return Err(());
    }
    if !span_all_hex(b, p0.lo, p0.hi) || !span_all_hex(b, p1.lo, p1.hi) || !span_all_hex(
        b,
        p2.lo,
        p2.hi,
    ) || !span_all_hex(b, p3.lo, p3.hi) || !span_all_hex(b, p4.lo, p4.hi) {
        return Err(());
    }
    proof {
        reveal_with_fuel(pow16, 9);
        lemma_radix_hex(p[0], 0xFFFF_FFFF);
        lemma_radix_hex(p[1], 0xFFFF);
        lemma_radix_hex(p[2], 0xFFFF);
        let d4s = p[3] + p[4];
        assert forall|k: int| 0 <= k < d4s.len() implies hex_value(#[trigger] d4s[k]) is Some by {
            if k < 4 {
                assert(d4s[k] == p[3][k]);
            } else {
                assert(d4s[k] == p[4][k - 4]);
            }
        }
        lemma_d4_hex(d4s);
    }
    let d1 = match parse_radix16(b, p0.lo, p0.hi, 0xFFFF_FFFF) {
        Some(v) => v,
        None => return Err(()),
    };
    let d2 = match parse_radix16(b, p1.lo, p1.hi, 0xFFFF) {
        Some(v) => v,
        None => return Err(()),
    };
    let d3 = match parse_radix16(b, p2.lo, p2.hi, 0xFFFF) {
        Some(v) => v,
        None => return Err(()),
    };
    let d4 = d4_digits(b, (p3.lo, p3.hi), (p4.lo, p4.hi));
    match parse_d4(d4.as_slice()) {
        Some(data4) => {
            let g = Guid { data1: d1 as u32, data2: d2 as u16, data3: d3 as u16, data4 };
            assert(guid_fields(g).3 =~= strict_guid(s@).unwrap().3);
            Ok(g)
        },
        None => Err(()),
    }
}

/// Checks the COM server GUID before registration: the GUID to register,
/// or [`Error::InvalidComGuid`] holding the text when it is malformed.
pub fn register(guid_str: &str) -> (r: Result<Guid, Error>)
    ensures
        match r {
            Ok(g) => strict_guid(guid_str@) == Some(guid_fields(g)),
            Err(e) => strict_guid(guid_str@) is None && (e matches Error::InvalidComGuid(t) && t@
                == guid_str@),
        },
{
    match parse_guid(guid_str) {
        Ok(g) => Ok(g),
        Err(_) => Err(Error::InvalidComGuid(guid_str.to_owned())),
    }
}

// ── Interfaces ─────────────────────────────────────────────────────────────

/// Field-by-field equality of two GUIDs.
pub fn guid_eq(a: &Guid, b: &Guid) -> (r: bool)
    ensures
        r == (guid_fields(*a) == guid_fields(*b)),
{
    if a.data1 != b.data1 || a.data2 != b.data2 || a.data3 != b.data3 {
        return false;
    }
    let mut i: usize = 0;
    while i < 8
        invariant
            i <= 8,
            a.data4@.len() == 8,
            b.data4@.len() == 8,
            forall|j: int| 0 <= j < i ==> a.data4@[j] == b.data4@[j],
        decreases 8 - i,
    {
        if a.data4[i] != b.data4[i] {
            return false;
        }
        i = i + 1;
    }
    assert(a.data4@ =~= b.data4@);
    true
}

/// The fields of `IUnknown`.
pub open spec fn iunknown_fields() -> (u32, u16, u16, Seq<u8>) {
    (0u32, 0u16, 0u16, seq![0xC0u8, 0, 0, 0, 0, 0, 0, 0x46])
}

/// The fields of `IClassFactory`.
pub open spec fn iclass_factory_fields() -> (u32, u16, u16, Seq<u8>) {
    (1u32, 0u16, 0u16, seq![0xC0u8, 0, 0, 0, 0, 0, 0, 0x46])
}

/// The fields of `INotificationActivationCallback`.
pub open spec fn activation_callback_fields() -> (u32, u16, u16, Seq<u8>) {
    (0x53E31837u32, 0x6600u16, 0x4A81u16, seq![0x93u8, 0x95, 0x75, 0xCF, 0xFE, 0x74, 0x6F, 0x94])
}

/// `IUnknown` ({00000000-0000-0000-C000-000000000046}).
pub fn iid_iunknown() -> (g: Guid)
    ensures
        guid_fields(g) == iunknown_fields(),
{
    let g = Guid { data1: 0, data2: 0, data3: 0, data4: [0xC0, 0, 0, 0, 0, 0, 0, 0x46] };
    assert(g.data4@ =~= seq![0xC0u8, 0, 0, 0, 0, 0, 0, 0x46]);
    g
}

/// `IClassFactory` ({00000001-0000-0000-C000-000000000046}).
pub fn iid_iclass_factory() -> (g: Guid)
    ensures
        guid_fields(g) == iclass_factory_fields(),
{
    let g = Guid { data1: 1, data2: 0, data3: 0, data4: [0xC0, 0, 0, 0, 0, 0, 0, 0x46] };
    assert(g.data4@ =~= seq![0xC0u8, 0, 0, 0, 0, 0, 0, 0x46]);
    g
}

/// `INotificationActivationCallback` ({53E31837-6600-4A81-9395-75CFFE746F94}).
pub fn iid_notification_activation_callback() -> (g: Guid)
    ensures
        guid_fields(g) == activation_callback_fields(),
{
    let g = Guid {
        data1: 0x53E31837,
        data2: 0x6600,
        data3: 0x4A81,
        data4: [0x93, 0x95, 0x75, 0xCF, 0xFE, 0x74, 0x6F, 0x94],
    };
    assert(g.data4@ =~= seq![0x93u8, 0x95, 0x75, 0xCF, 0xFE, 0x74, 0x6F, 0x94]);
    g
}

/// The activator answers to `IUnknown` and `INotificationActivationCallback`.
pub fn activator_accepts(riid: &Guid) -> (r: bool)
    ensures
        r == (guid_fields(*riid) == iunknown_fields() || guid_fields(*riid)
            == activation_callback_fields()),
{
    guid_eq(riid, &iid_iunknown()) || guid_eq(riid, &iid_notification_activation_callback())
}

/// The class factory answers to `IUnknown` and `IClassFactory`.
pub fn factory_accepts(riid: &Guid) -> (r: bool)
    ensures
        r == (guid_fields(*riid) == iunknown_fields() || guid_fields(*riid)
            == iclass_factory_fields()),
{
    guid_eq(riid, &iid_iunknown()) || guid_eq(riid, &iid_iclass_factory())
}

// ── The event of an `Activate()` call ──────────────────────────────────────

/// `m` with the entries `s` set in order.
pub open spec fn insert_all(m: Map<Seq<char>, Seq<char>>, s: Seq<InputEntry>) -> Map<
    Seq<char>,
    Seq<char>,
>
    decreases s.len(),
{
    if s.len() == 0 {
        m
    } else {
        insert_all(m, s.drop_last()).insert(s.last().key@, s.last().value@)
    }
}

/// Sets the entries `s` in `m`, in order.
pub fn insert_entries(m: &mut InputMap, s: &[InputEntry])
    ensures
        final(m)@ == insert_all(old(m)@, s@),
{
    let mut i: usize = 0;
    while i < s.len()
        invariant
            i <= s@.len(),
            m@ == insert_all(old(m)@, s@.take(i as int)),
        decreases s.len() - i,
    {
        m.insert(s[i].key.clone(), s[i].value.clone());
        assert(s@.take(i + 1).drop_last() =~= s@.take(i as int));
        i = i + 1;
    }
    assert(s@.take(s@.len() as int) =~= s@);
}

/// The event of an `Activate()` call: the invoked arguments (empty when
/// absent) as the action id and the user inputs, later keys replacing
/// earlier ones; no tag or group.
pub fn event_from_activation(invoked_args: Option<String>, user_inputs: &[InputEntry]) -> (e:
    NotificationActionEvent)
    ensures
        e.action_id@ == (match invoked_args {
            Some(a) => a@,
            None => Seq::<char>::empty(),
        }),
        e.inputs@ == insert_all(Map::empty(), user_inputs@),
        e.tag is None,
        e.group is None,
{
    let action_id = match invoked_args {
        Some(a) => a,
        None => String::new(),
    };
    let mut inputs = InputMap::new();
    insert_entries(&mut inputs, user_inputs);
    NotificationActionEvent { action_id, inputs, tag: None, group: None }
}

} // verus!
