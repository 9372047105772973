//! GUIDs and the byte-level pieces of parsing them from text.
//!
//! Parsing works on the UTF-8 bytes of the text: lengths are byte lengths,
//! and numbers follow `from_str_radix(_, 16)` of an unsigned type: an
//! optional leading `+`, then at least one hexadecimal digit, and a value
//! that fits the type.
use vstd::prelude::*;
use crate::activation_bridge::{hex_nibble, hex_value};

verus! {

/// A 128-bit GUID in its four-field layout.
#[derive(Debug, Clone, Copy, PartialEq, Eq)]
pub struct Guid {
    pub data1: u32,
    pub data2: u16,
    pub data3: u16,
    pub data4: [u8; 8],
}

/// The value of a string of hexadecimal digits, if every byte is one.
pub open spec fn hex_digits_value(d: Seq<u8>) -> Option<int>
    decreases d.len(),
{
    if d.len() == 0 {
        Some(0)
    } else {
        match (hex_digits_value(d.drop_last()), hex_value(d.last())) {
            (Some(v), Some(h)) => Some(v * 16 + h),
            _ => None,
        }
    }
}

/// `from_str_radix(s, 16)` for an unsigned type whose largest value is
/// `max`.
pub open spec fn radix16(s: Seq<u8>, max: int) -> Option<int> {
    let digits = if s.len() > 0 && s[0] == 43 {
        s.skip(1)
    } else {
        s
    };
    if digits.len() == 0 {
        None
    } else {
        match hex_digits_value(digits) {
            Some(v) => if v <= max {
                Some(v)
            } else {
                None
            },
            None => None,
        }
    }
}

/// A longer digit string is worth at least as much as its prefix.
proof fn lemma_hex_prefix(d: Seq<u8>, i: int)
    requires
        0 <= i <= d.len(),
        hex_digits_value(d) is Some,
    ensures
        hex_digits_value(d.take(i)) is Some,
        hex_digits_value(d.take(i)).unwrap() <= hex_digits_value(d).unwrap(),
        hex_digits_value(d).unwrap() >= 0,
    decreases d.len(),
{
    if d.len() > 0 {
        if i == d.len() {
            assert(d.take(i) =~= d);
            lemma_hex_prefix(d.drop_last(), i - 1);
        } else {
            lemma_hex_prefix(d.drop_last(), i);
            assert(d.drop_last().take(i) =~= d.take(i));
        }
    } else {
        assert(d.take(i) =~= d);
    }
}

/// `from_str_radix(b[lo..hi], 16)` with the largest value `max`.
pub fn parse_radix16(b: &[u8], lo: usize, hi: usize, max: u64) -> (r: Option<u64>)
    requires
        lo <= hi <= b@.len(),
        max < 0x1_0000_0000,
    ensures
        match r {
            Some(v) => radix16(b@.subrange(lo as int, hi as int), max as int) == Some(v as int),
            None => radix16(b@.subrange(lo as int, hi as int), max as int) is None,
        },
{
    let ghost s = b@.subrange(lo as int, hi as int);
    let start = if lo < hi && b[lo] == 43 {
        lo + 1
    } else {
        lo
    };
    let ghost digits = b@.subrange(start as int, hi as int);
    assert(digits =~= (if s.len() > 0 && s[0] == 43 {
        s.skip(1)
    } else {
        s
    }));
    if start == hi {
        return None;
    }
    let mut acc: u64 = 0;
    let mut i = start;
    while i < hi
        invariant
            start <= i <= hi <= b@.len(),
            digits == b@.subrange(start as int, hi as int),
            s == b@.subrange(lo as int, hi as int),
            digits == (if s.len() > 0 && s[0] == 43 {
                s.skip(1)
            } else {
                s
            }),
            digits.len() > 0,
            max < 0x1_0000_0000,
            acc <= max,
            hex_digits_value(digits.take(i - start)) == Some(acc as int),
        decreases hi - i,
    {
        assert(digits.take(i - start + 1).drop_last() =~= digits.take(i - start));
        assert(digits.take(i - start + 1).last() == b@[i as int]);
        match hex_nibble(b[i]) {
            Some(h) => {
                let next = acc * 16 + h as u64;
                assert(hex_digits_value(digits.take(i - start + 1)) == Some(next as int));
                if next > max {
                    proof {
                        if hex_digits_value(digits) is Some {
                            lemma_hex_prefix(digits, i - start + 1);
                        }
                        assert(hex_digits_value(digits) is None || hex_digits_value(digits).unwrap()
                            > max);
                    }
                    return None;
                }
                acc = next;
            },
            None => {
                assert(hex_digits_value(digits.take(i - start + 1)) is None);
                proof {
                    if hex_digits_value(digits) is Some {
                        lemma_hex_prefix(digits, i - start + 1);
                    }
                    assert(hex_digits_value(digits) is None);
                }
                return None;
            },
        }
        i = i + 1;
    }
    assert(digits.take(hi - start) =~= digits);
    Some(acc)
}

// ── Bytes of the text ──────────────────────────────────────────────────────

/// Index of the first `x` in `s`.
pub open spec fn find_byte(s: Seq<u8>, x: u8) -> Option<int>
    decreases s.len(),
{
    if s.len() == 0 {
        None
    } else if s[0] == x {
        Some(0)
    } else {
        match find_byte(s.drop_first(), x) {
            Some(i) => Some(i + 1),
            None => None,
        }
    }
}

/// Splits `s` at `sep` into at most `n` pieces; the last piece keeps the
/// rest (`str::splitn`).
pub open spec fn splitn_bytes(s: Seq<u8>, sep: u8, n: nat) -> Seq<Seq<u8>>
    decreases n,
{
    if n <= 1 {
        seq![s]
    } else {
        match find_byte(s, sep) {
            Some(p) => if 0 <= p < s.len() {
                seq![s.take(p)] + splitn_bytes(s.skip(p + 1), sep, (n - 1) as nat)
            } else {
                seq![s]
            },
            None => seq![s],
        }
    }
}

proof fn lemma_find_byte(s: Seq<u8>, x: u8)
    ensures
        match find_byte(s, x) {
            Some(i) => 0 <= i < s.len() && s[i] == x && forall|j: int| 0 <= j < i ==> s[j] != x,
            None => forall|j: int| 0 <= j < s.len() ==> s[j] != x,
        },
    decreases s.len(),
{
    if s.len() > 0 && s[0] != x {
        lemma_find_byte(s.drop_first(), x);
        match find_byte(s.drop_first(), x) {
            Some(i) => {
                assert forall|j: int| 0 <= j < i + 1 implies s[j] != x by {
                    if j > 0 {
                        assert(s[j] == s.drop_first()[j - 1]);
                    }
                }
            },
            None => {
                assert forall|j: int| 0 <= j < s.len() implies s[j] != x by {
                    if j > 0 {
                        assert(s[j] == s.drop_first()[j - 1]);
                    }
                }
            },
        }
    }
}

proof fn lemma_find_byte_at(s: Seq<u8>, x: u8, i: int)
    requires
        0 <= i < s.len(),
        s[i] == x,
        forall|j: int| 0 <= j < i ==> s[j] != x,
    ensures
        find_byte(s, x) == Some(i),
{
    lemma_find_byte(s, x);
    match find_byte(s, x) {
        Some(k) => {
            if k < i {
                assert(s[k] != x);
            } else if k > i {
                assert(s[i] != x);
            }
        },
        None => {
            assert(s[i] != x);
        },
    }
}

proof fn lemma_find_byte_none(s: Seq<u8>, x: u8)
    requires
        forall|j: int| 0 <= j < s.len() ==> s[j] != x,
    ensures
        find_byte(s, x) is None,
{
    lemma_find_byte(s, x);
    if let Some(k) = find_byte(s, x) {
        assert(s[k] != x);
    }
}

/// One piece of a `splitn`: where it starts and ends in the text.
#[derive(Debug, Clone, Copy)]
pub struct Span {
    pub lo: usize,
    pub hi: usize,
}

/// The pieces of `b[lo..hi]` split at `sep`, at most `n` of them, as spans.
pub fn splitn_spans(b: &[u8], lo: usize, hi: usize, sep: u8, n: usize) -> (r: Vec<Span>)
    requires
        lo <= hi <= b@.len(),
        n >= 1,
    ensures
        r@.len() == splitn_bytes(b@.subrange(lo as int, hi as int), sep, n as nat).len(),
        forall|k: int| 0 <= k < r@.len() ==> (#[trigger] r@[k]).lo <= r@[k].hi <= b@.len(),
        forall|k: int|
            0 <= k < r@.len() ==> b@.subrange(
                r@[k].lo as int,
                r@[k].hi as int,
            ) == #[trigger] splitn_bytes(b@.subrange(lo as int, hi as int), sep, n as nat)[k],
{
    let mut out: Vec<Span> = Vec::new();
    let mut start = lo;
    let mut left = n;
    let ghost whole = splitn_bytes(b@.subrange(lo as int, hi as int), sep, n as nat);
    loop
        invariant
            lo <= start <= hi <= b@.len(),
            1 <= left <= n,
            whole == splitn_bytes(b@.subrange(lo as int, hi as int), sep, n as nat),
            out@.len() + splitn_bytes(b@.subrange(start as int, hi as int), sep, left as nat).len()
                == whole.len(),
            forall|k: int| 0 <= k < out@.len() ==> (#[trigger] out@[k]).lo <= out@[k].hi <= b@.len(),
            forall|k: int|
                0 <= k < out@.len() ==> b@.subrange(
                    out@[k].lo as int,
                    out@[k].hi as int,
                ) == #[trigger] whole[k],
            forall|k: int|
                0 <= k < splitn_bytes(b@.subrange(start as int, hi as int), sep, left as nat).len()
                    ==> #[trigger] splitn_bytes(
                    b@.subrange(start as int, hi as int),
                    sep,
                    left as nat,
                )[k] == whole[out@.len() + k],
        decreases left,
    {
        let ghost rest = b@.subrange(start as int, hi as int);
        let ghost pieces = splitn_bytes(rest, sep, left as nat);
        if left == 1 {
            out.push(Span { lo: start, hi });
            assert(pieces == seq![rest]);
            assert(pieces[0] == whole[out@.len() - 1]);
            return out;
        }
        let mut p = start;
        while p < hi && b[p] != sep
            invariant
                start <= p <= hi <= b@.len(),
                forall|j: int| start <= j < p ==> b@[j] != sep,
            decreases hi - p,
        {
            p = p + 1;
        }
        if p == hi {
            proof {
                assert forall|j: int| 0 <= j < rest.len() implies rest[j] != sep by {
                    assert(rest[j] == b@[start + j]);
                }
                lemma_find_byte_none(rest, sep);
                assert(pieces == seq![rest]);
                assert(pieces[0] == whole[out@.len() as int]);
            }
            out.push(Span { lo: start, hi });
            return out;
        }
        proof {
            assert(rest[p - start] == sep);
            assert forall|j: int| 0 <= j < p - start implies rest[j] != sep by {
                assert(rest[j] == b@[start + j]);
            }
            lemma_find_byte_at(rest, sep, p - start);
            assert(rest.take(p - start) =~= b@.subrange(start as int, p as int));
            assert(rest.skip(p - start + 1) =~= b@.subrange(p + 1, hi as int));
            let tail = splitn_bytes(b@.subrange(p + 1, hi as int), sep, (left - 1) as nat);
            assert(pieces == seq![b@.subrange(start as int, p as int)] + tail);
            assert(pieces[0] == whole[out@.len() as int]);
            assert forall|k: int| 0 <= k < tail.len() implies #[trigger] tail[k] == whole[out@.len()
                + 1 + k] by {
                assert(tail[k] == pieces[k + 1]);
            }
        }
        out.push(Span { lo: start, hi: p });
        start = p + 1;
        left = left - 1;
    }
}

/// A byte that continues a multi-byte UTF-8 character.
pub open spec fn is_continuation(b: u8) -> bool {
    0x80 <= b && b < 0xC0
}

/// The `i`-th two-byte slice of the `data4` digits.
pub open spec fn d4_pair(d4: Seq<u8>, i: int) -> Seq<u8> {
    d4.subrange(2 * i, 2 * i + 2)
}

/// Slicing the `data4` digits two bytes at a time cuts through a character
/// before a slice fails to parse (the case in which `str` slicing panics).
pub open spec fn d4_cut_panics(d4: Seq<u8>) -> bool {
    exists|i: int|
        0 <= i < 7 && (forall|j: int| 0 <= j < i ==> radix16(#[trigger] d4_pair(d4, j), 255) is Some)
            && is_continuation(#[trigger] d4[2 * i + 2])
}

/// The `data4` bytes of sixteen digits, if every pair parses.
pub open spec fn d4_value(d4: Seq<u8>) -> Option<Seq<u8>> {
    if forall|i: int| 0 <= i < 8 ==> radix16(#[trigger] d4_pair(d4, i), 255) is Some {
        Some(Seq::new(8, |i: int| radix16(d4_pair(d4, i), 255).unwrap() as u8))
    } else {
        None
    }
}

/// Parses the sixteen `data4` digits `d4`, two at a time.
pub fn parse_d4(d4: &[u8]) -> (r: Option<[u8; 8]>)
    requires
        d4@.len() == 16,
    ensures
        match r {
            Some(a) => d4_value(d4@) == Some(a@),
            None => d4_value(d4@) is None,
        },
{
    let mut out = [0u8;8];
    let mut i: usize = 0;
    while i < 8
        invariant
            d4@.len() == 16,
            i <= 8,
            out@.len() == 8,
            forall|j: int| 0 <= j < i ==> radix16(#[trigger] d4_pair(d4@, j), 255) is Some,
            forall|j: int| 0 <= j < i ==> out@[j] == radix16(d4_pair(d4@, j), 255).unwrap() as u8,
        decreases 8 - i,
    {
        match parse_radix16(d4, 2 * i, 2 * i + 2, 255) {
            Some(v) => {
                assert(d4@.subrange(2 * i as int, 2 * i + 2) == d4_pair(d4@, i as int));
                out[i] = v as u8;
            },
            None => {
                assert(d4@.subrange(2 * i as int, 2 * i + 2) == d4_pair(d4@, i as int));
                return None;
            },
        }
        i = i + 1;
    }
    assert(out@ =~= Seq::new(8, |i: int| radix16(d4_pair(d4@, i), 255).unwrap() as u8));
    Some(out)
}

/// Whether slicing the `data4` digits would cut through a character before
/// a slice fails to parse.
pub fn d4_cut_would_panic(d4: &[u8]) -> (r: bool)
    requires
        d4@.len() == 16,
    ensures
        r == d4_cut_panics(d4@),
{
    let mut i: usize = 0;
    while i < 7
        invariant
            d4@.len() == 16,
            i <= 7,
            forall|j: int| 0 <= j < i ==> radix16(#[trigger] d4_pair(d4@, j), 255) is Some,
            forall|j: int| 0 <= j < i ==> !is_continuation(#[trigger] d4@[2 * j + 2]),
        decreases 7 - i,
    {
        if 0x80 <= d4[2 * i + 2] && d4[2 * i + 2] < 0xC0 {
            assert(is_continuation(d4@[2 * i + 2]));
            return true;
        }
        if parse_radix16(d4, 2 * i, 2 * i + 2, 255).is_none() {
            assert(d4@.subrange(2 * i as int, 2 * i + 2) == d4_pair(d4@, i as int));
            proof {
                assert forall|k: int|
                    0 <= k < 7 && (forall|j: int|
                        0 <= j < k ==> radix16(#[trigger] d4_pair(d4@, j), 255) is Some)
                        implies !is_continuation(#[trigger] d4@[2 * k + 2]) by {
                    if k > i {
                        assert(radix16(d4_pair(d4@, i as int), 255) is Some);
                    }
                }
            }
            return false;
        }
        assert(d4@.subrange(2 * i as int, 2 * i + 2) == d4_pair(d4@, i as int));
        i = i + 1;
    }
    false
}

} // verus!
