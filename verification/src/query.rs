//! Splitting of `key=value&key=value` argument strings, shared by the
//! deep-link and the COM activation paths.
use vstd::prelude::*;
use crate::activation_bridge::{unescape, unescape_spec};
use crate::background_activation::{unescape_xml, unescape_xml_spec};
use crate::input_map::InputMap;
use crate::text::{
    find_char, lemma_find_char_at, lemma_find_char_none, lemma_split_at, lemma_split_no_sep,
    split_char, string_of, trim, trimmed,
};

verus! {

/// The decoding applied to keys and values: percent-decoding followed by
/// entity decoding on the deep-link path, entity decoding alone otherwise.
pub open spec fn decode(s: Seq<char>, percent: bool) -> Seq<char> {
    if percent {
        unescape_spec(s)
    } else {
        unescape_xml_spec(s)
    }
}

/// The key of a `key=value` piece: the text before its first `=` (the whole
/// piece when there is none), trimmed.
pub open spec fn pair_key(p: Seq<char>) -> Seq<char> {
    match find_char(p, '=') {
        Some(e) => trim(p.take(e)),
        None => trim(p),
    }
}

/// The value of a `key=value` piece: the text after its first `=`, trimmed;
/// empty when there is no `=`.
pub open spec fn pair_value(p: Seq<char>) -> Seq<char> {
    match find_char(p, '=') {
        Some(e) => trim(p.skip(e + 1)),
        None => Seq::empty(),
    }
}

/// The map of a sequence of pieces, read left to right, a later key
/// replacing an earlier one; empty pieces are skipped when `skip_empty`.
pub open spec fn pairs_map(pieces: Seq<Seq<char>>, skip_empty: bool, percent: bool) -> Map<
    Seq<char>,
    Seq<char>,
>
    decreases pieces.len(),
{
    if pieces.len() == 0 {
        Map::empty()
    } else {
        let m = pairs_map(pieces.drop_last(), skip_empty, percent);
        let p = pieces.last();
        if skip_empty && p.len() == 0 {
            m
        } else {
            m.insert(decode(pair_key(p), percent), decode(pair_value(p), percent))
        }
    }
}

/// The map of an argument string split at every `&`.
pub open spec fn query_map(q: Seq<char>, skip_empty: bool, percent: bool) -> Map<
    Seq<char>,
    Seq<char>,
> {
    pairs_map(split_char(q, '&'), skip_empty, percent)
}

fn decode_exec(s: &str, percent: bool) -> (r: String)
    ensures
        r@ == decode(s@, percent),
{
    if percent {
        unescape(s)
    } else {
        unescape_xml(s)
    }
}

/// The first position in `v[from..to]` that holds `c`, or `to`.
pub fn find_in(v: &[char], from: usize, to: usize, c: char) -> (p: usize)
    requires
        from <= to <= v@.len(),
    ensures
        from <= p <= to,
        forall|j: int| from <= j < p ==> v@[j] != c,
        p < to ==> v@[p as int] == c,
{
    let mut p = from;
    while p < to && v[p] != c
        invariant
            from <= p <= to <= v@.len(),
            forall|j: int| from <= j < p ==> v@[j] != c,
        decreases to - p,
    {
        p = p + 1;
    }
    p
}

/// Adds the pair of the piece `v[a..b]` to `m` (nothing for an empty piece
/// when `skip_empty`).
fn add_pair(m: &mut InputMap, v: &[char], a: usize, b: usize, skip_empty: bool, percent: bool)
    requires
        a <= b <= v@.len(),
    ensures
        final(m)@ == (if skip_empty && a == b {
            old(m)@
        } else {
            old(m)@.insert(
                decode(pair_key(v@.subrange(a as int, b as int)), percent),
                decode(pair_value(v@.subrange(a as int, b as int)), percent),
            )
        }),
{
    if skip_empty && a == b {
        return ;
    }
    let ghost p = v@.subrange(a as int, b as int);
    let e = find_in(v, a, b, '=');
    let (k, val) = if e < b {
        proof {
            assert(p[e - a] == '=');
            assert forall|j: int| 0 <= j < e - a implies p[j] != '=' by {
                assert(p[j] == v@[a + j]);
            }
            lemma_find_char_at(p, '=', e - a);
            assert(p.take(e - a) =~= v@.subrange(a as int, e as int));
            assert(p.skip(e - a + 1) =~= v@.subrange(e + 1, b as int));
        }
        (trimmed(v, a, e), trimmed(v, e + 1, b))
    } else {
        proof {
            assert forall|j: int| 0 <= j < p.len() implies p[j] != '=' by {
                assert(p[j] == v@[a + j]);
            }
            lemma_find_char_none(p, '=');
        }
        (trimmed(v, a, b), Vec::new())
    };
    let ks = string_of(k.as_slice());
    let vs = string_of(val.as_slice());
    m.insert(decode_exec(ks.as_str(), percent), decode_exec(vs.as_str(), percent));
}

/// The map of the argument string `v`, split at every `&`.
pub fn parse_pairs(v: &[char], skip_empty: bool, percent: bool) -> (m: InputMap)
    ensures
        m@ == query_map(v@, skip_empty, percent),
{
    let mut m = InputMap::new();
    let n = v.len();
    let mut start: usize = 0;
    let ghost mut done: Seq<Seq<char>> = Seq::empty();
    assert(v@.skip(0) =~= v@);
    loop
        invariant
            n == v@.len(),
            start <= n,
            split_char(v@, '&') == done + split_char(v@.skip(start as int), '&'),
            m@ == pairs_map(done, skip_empty, percent),
        decreases n - start,
    {
        let p = find_in(v, start, n, '&');
        let ghost rest = v@.skip(start as int);
        let ghost piece = v@.subrange(start as int, p as int);
        add_pair(&mut m, v, start, p, skip_empty, percent);
        proof {
            assert(done.push(piece).drop_last() =~= done);
        }
        if p == n {
            proof {
                assert(rest =~= piece);
                assert forall|j: int| 0 <= j < rest.len() implies rest[j] != '&' by {
                    assert(rest[j] == v@[start + j]);
                }
                lemma_split_no_sep(rest, '&');
                assert(done + seq![piece] =~= done.push(piece));
            }
            return m;
        }
        proof {
            assert(rest[p - start] == '&');
            assert forall|j: int| 0 <= j < p - start implies rest[j] != '&' by {
                assert(rest[j] == v@[start + j]);
            }
            lemma_split_at(rest, '&', p - start);
            assert(rest.take(p - start) =~= piece);
            assert(rest.skip(p - start + 1) =~= v@.skip(p + 1));
            assert(done + (seq![piece] + split_char(v@.skip(p + 1), '&')) =~= done.push(piece)
                + split_char(v@.skip(p + 1), '&'));
            done = done.push(piece);
        }
        start = p + 1;
    }
}

} // verus!
