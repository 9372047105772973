//! Tag, group and action id survive the trip through the toast.
//!
//! The toast carries them as `key=value` pieces joined by `&`, escaped for
//! XML ([`crate::xml_builder`]); Windows decodes the attribute and hands the
//! pieces back, and the activation parsers recover the values
//! ([`crate::activation_bridge`], [`crate::background_activation`]).
use vstd::prelude::*;
use vstd::string::*;
use vstd::utf8::*;
use crate::activation_bridge::{
    hex_value, parsed_action, parsed_field, parsed_inputs, percent_decode_spec, unescape_spec,
};
use crate::background_activation::{
    invoked_action, invoked_extra, invoked_field, unescape_xml_spec,
};
use crate::models::{NotificationData, WindowsAction, WindowsActionType};
use crate::query::{decode, pair_key, pair_value, pairs_map, query_map};
use crate::text::{
    find_char, has_char, is_whitespace, lemma_find_char, lemma_find_char_at, opt_view,
    replace_all, split_char, trim, trim_end, trim_start,
};
use crate::xml_builder::{
    action_args, esc_char, esc_spec, launch_attr, lemma_esc_concat, tag_group_parts,
};

verus! {

// ── The delivered arguments ────────────────────────────────────────────────

/// Pieces joined by `&`.
pub open spec fn join_amp(ps: Seq<Seq<char>>) -> Seq<char>
    decreases ps.len(),
{
    if ps.len() == 0 {
        Seq::empty()
    } else if ps.len() == 1 {
        ps[0]
    } else {
        join_amp(ps.drop_last()) + seq!['&'] + ps.last()
    }
}

/// The `key=value` pieces for an optional action id, tag and group, in
/// that order.
pub open spec fn arg_pieces(
    action: Option<Seq<char>>,
    tag: Option<Seq<char>>,
    group: Option<Seq<char>>,
) -> Seq<Seq<char>> {
    (match action {
        Some(a) => seq!["action="@ + a],
        None => Seq::empty(),
    }) + (match tag {
        Some(t) => seq!["tag="@ + t],
        None => Seq::empty(),
    }) + (match group {
        Some(g) => seq!["group="@ + g],
        None => Seq::empty(),
    })
}

/// The argument string for an optional action id, tag and group, as
/// Windows delivers it after decoding the XML attribute.
pub open spec fn activation_args(
    action: Option<Seq<char>>,
    tag: Option<Seq<char>>,
    group: Option<Seq<char>>,
) -> Seq<char> {
    join_amp(arg_pieces(action, tag, group))
}

/// The map that parsing the arguments should give back.
pub open spec fn args_map(
    action: Option<Seq<char>>,
    tag: Option<Seq<char>>,
    group: Option<Seq<char>>,
) -> Map<Seq<char>, Seq<char>> {
    let m0 = match action {
        Some(a) => Map::<Seq<char>, Seq<char>>::empty().insert("action"@, a),
        None => Map::empty(),
    };
    let m1 = match tag {
        Some(t) => m0.insert("tag"@, t),
        None => m0,
    };
    match group {
        Some(g) => m1.insert("group"@, g),
        None => m1,
    }
}

/// No `%` followed by two hexadecimal digits.
pub open spec fn no_percent_escape(s: Seq<char>) -> bool {
    forall|i: int|
        0 <= i && i + 2 < s.len() && #[trigger] s[i] == '%' ==> !(hex_value(s[i + 1] as u8) is Some
            && hex_value(s[i + 2] as u8) is Some)
}

/// A value that the activation paths deliver unchanged: without `&`,
/// without surrounding whitespace, and, where the path percent-decodes,
/// ASCII without `%XX` escapes.
pub open spec fn arg_safe(s: Seq<char>, percent: bool) -> bool {
    &&& !has_char(s, '&')
    &&& trim(s) == s
    &&& (percent ==> is_ascii_chars(s) && no_percent_escape(s))
}

// ── Decoding leaves safe values alone ──────────────────────────────────────

proof fn lemma_percent_decode_plain(s: Seq<char>, b: Seq<u8>)
    requires
        is_ascii_chars(s),
        no_percent_escape(s),
        b.len() == s.len(),
        forall|i: int| 0 <= i < s.len() ==> b[i] == s[i] as u8,
    ensures
        percent_decode_spec(b) == s,
    decreases s.len(),
{
    if s.len() > 0 {
        assert(b[0] == s[0] as u8);
        if s.len() > 2 {
            assert(b[1] == s[1] as u8);
            assert(b[2] == s[2] as u8);
        }
        let s1 = s.drop_first();
        let b1 = b.skip(1);
        assert forall|i: int| 0 <= i < s1.len() implies b1[i] == s1[i] as u8 by {
            assert(b[i + 1] == s[i + 1] as u8);
        }
        assert forall|i: int| 0 <= i < s1.len() implies '\0' <= #[trigger] s1[i] <= '\u{7f}' by {
            assert(s1[i] == s[i + 1]);
        }
        assert forall|i: int|
            0 <= i && i + 2 < s1.len() && #[trigger] s1[i] == '%' implies !(hex_value(
                s1[i + 1] as u8,
            ) is Some && hex_value(s1[i + 2] as u8) is Some) by {
            assert(s1[i] == s[i + 1]);
            assert(s[(i + 1)] == '%');
        }
        lemma_percent_decode_plain(s1, b1);
        assert('\0' <= s[0] <= '\u{7f}');
        assert((b[0] as char) == s[0]);
        assert(seq![s[0]] + s1 =~= s);
    }
}

proof fn lemma_replace_absent(s: Seq<char>, pat: Seq<char>, rep: Seq<char>)
    requires
        pat.len() > 0,
        !has_char(s, pat[0]),
    ensures
        replace_all(s, pat, rep) == s,
    decreases s.len(),
{
    if s.len() > 0 {
        if pat.len() <= s.len() && s.take(pat.len() as int) == pat {
            assert(s.take(pat.len() as int)[0] == s[0]);
            assert(s[0] == pat[0]);
        }
        assert forall|i: int| 0 <= i < s.drop_first().len() implies s.drop_first()[i] != pat[0] by {
            assert(s.drop_first()[i] == s[i + 1]);
        }
        lemma_replace_absent(s.drop_first(), pat, rep);
        assert(seq![s[0]] + s.drop_first() =~= s);
    }
}

/// Entity decoding leaves a text without `&` unchanged.
pub proof fn lemma_unescape_xml_plain(s: Seq<char>)
    requires
        !has_char(s, '&'),
    ensures
        unescape_xml_spec(s) == s,
{
    reveal_strlit("&amp;");
    reveal_strlit("&lt;");
    reveal_strlit("&gt;");
    reveal_strlit("&quot;");
    reveal_strlit("&apos;");
    lemma_replace_absent(s, "&amp;"@, "&"@);
    lemma_replace_absent(s, "&lt;"@, "<"@);
    lemma_replace_absent(s, "&gt;"@, ">"@);
    lemma_replace_absent(s, "&quot;"@, "\""@);
    lemma_replace_absent(s, "&apos;"@, "'"@);
}

/// Both decodings leave a safe value unchanged.
pub proof fn lemma_decode_safe(s: Seq<char>, percent: bool)
    requires
        !has_char(s, '&'),
        percent ==> is_ascii_chars(s) && no_percent_escape(s),
    ensures
        decode(s, percent) == s,
{
    if percent {
        is_ascii_chars_encode_utf8(s);
        lemma_percent_decode_plain(s, encode_utf8(s));
    }
    lemma_unescape_xml_plain(s);
}

// ── Splitting the joined pieces ────────────────────────────────────────────

/// Splitting `x & l` at `&` gives the pieces of `x` and then `l`.
pub proof fn lemma_split_append(x: Seq<char>, l: Seq<char>)
    requires
        !has_char(l, '&'),
    ensures
        split_char(x + seq!['&'] + l, '&') == split_char(x, '&') + seq![l],
    decreases x.len(),
{
    let q = x + seq!['&'] + l;
    lemma_find_char(x, '&');
    match find_char(x, '&') {
        Some(p) => {
            lemma_find_char_at(q, '&', p);
            lemma_split_append(x.skip(p + 1), l);
            assert(q.take(p) =~= x.take(p));
            assert(q.skip(p + 1) =~= x.skip(p + 1) + seq!['&'] + l);
            assert(seq![x.take(p)] + (split_char(x.skip(p + 1), '&') + seq![l]) =~= (seq![
                x.take(p),
            ] + split_char(x.skip(p + 1), '&')) + seq![l]);
        },
        None => {
            assert(q[x.len() as int] == '&');
            assert forall|j: int| 0 <= j < x.len() implies q[j] != '&' by {
                assert(q[j] == x[j]);
            }
            lemma_find_char_at(q, '&', x.len() as int);
            assert(q.take(x.len() as int) =~= x);
            assert(q.skip(x.len() as int + 1) =~= l);
            assert forall|j: int| 0 <= j < l.len() implies l[j] != '&' by {}
            crate::text::lemma_split_no_sep(l, '&');
        },
    }
}

/// Splitting joined pieces without `&` gives the pieces back.
pub proof fn lemma_split_join(ps: Seq<Seq<char>>)
    requires
        ps.len() >= 1,
        forall|i: int| 0 <= i < ps.len() ==> !has_char(#[trigger] ps[i], '&'),
    ensures
        split_char(join_amp(ps), '&') == ps,
    decreases ps.len(),
{
    if ps.len() == 1 {
        assert forall|j: int| 0 <= j < ps[0].len() implies ps[0][j] != '&' by {}
        crate::text::lemma_split_no_sep(ps[0], '&');
        assert(seq![ps[0]] =~= ps);
    } else {
        let init = ps.drop_last();
        assert forall|i: int| 0 <= i < init.len() implies !has_char(#[trigger] init[i], '&') by {
            assert(init[i] == ps[i]);
        }
        lemma_split_join(init);
        assert(!has_char(ps[ps.len() - 1], '&'));
        lemma_split_append(join_amp(init), ps.last());
        assert(init + seq![ps.last()] =~= ps);
    }
}

// ── One piece ──────────────────────────────────────────────────────────────

/// A key of the argument format: a non-empty ASCII word without `=`, `&`,
/// `%` or whitespace.
pub open spec fn plain_key(k: Seq<char>) -> bool {
    &&& k.len() > 0
    &&& forall|i: int|
        0 <= i < k.len() ==> 'a' <= #[trigger] k[i] <= 'z'
}

proof fn lemma_plain_key_safe(k: Seq<char>, percent: bool)
    requires
        plain_key(k),
    ensures
        arg_safe(k, percent),
        !has_char(k, '='),
{
    assert(!is_whitespace(k[0]));
    assert(!is_whitespace(k.last()));
    assert(trim_start(k) == k);
    assert(trim_end(k) == k);
    assert forall|i: int| 0 <= i < k.len() implies '\0' <= #[trigger] k[i] <= '\u{7f}' by {}
}

/// The pair of `k=v`.
pub proof fn lemma_piece(k: Seq<char>, v: Seq<char>, percent: bool)
    requires
        plain_key(k),
        arg_safe(v, percent),
    ensures
        decode(pair_key(k + "="@ + v), percent) == k,
        decode(pair_value(k + "="@ + v), percent) == v,
        !has_char(k + "="@ + v, '&'),
        has_char(k + "="@ + v, '='),
{
    reveal_strlit("=");
    lemma_plain_key_safe(k, percent);
    let p = k + "="@ + v;
    assert(p[k.len() as int] == '=');
    assert forall|j: int| 0 <= j < k.len() implies p[j] != '=' by {
        assert(p[j] == k[j]);
    }
    lemma_find_char_at(p, '=', k.len() as int);
    assert(p.take(k.len() as int) =~= k);
    assert(p.skip(k.len() as int + 1) =~= v);
    lemma_decode_safe(k, percent);
    lemma_decode_safe(v, percent);
    assert forall|j: int| 0 <= j < p.len() implies p[j] != '&' by {
        if j < k.len() {
            assert(p[j] == k[j]);
        } else if j > k.len() {
            assert(p[j] == v[j - k.len() - 1]);
        }
    }
}

// ── The whole argument string ──────────────────────────────────────────────

proof fn lemma_keys()
    ensures
        plain_key("action"@),
        plain_key("tag"@),
        plain_key("group"@),
        "action="@ == "action"@ + "="@,
        "tag="@ == "tag"@ + "="@,
        "group="@ == "group"@ + "="@,
        "action"@ != "tag"@,
        "action"@ != "group"@,
        "tag"@ != "group"@,
{
    reveal_strlit("action");
    reveal_strlit("tag");
    reveal_strlit("group");
    reveal_strlit("action=");
    reveal_strlit("tag=");
    reveal_strlit("group=");
    reveal_strlit("=");
    assert("action="@ =~= "action"@ + "="@);
    assert("tag="@ =~= "tag"@ + "="@);
    assert("group="@ =~= "group"@ + "="@);
}

/// Parsing the delivered arguments gives back exactly the action id, tag
/// and group that were written, with no other key.
pub proof fn lemma_args_map(
    action: Option<Seq<char>>,
    tag: Option<Seq<char>>,
    group: Option<Seq<char>>,
    skip_empty: bool,
    percent: bool,
)
    requires
        action is Some || tag is Some || group is Some,
        action matches Some(a) ==> arg_safe(a, percent),
        tag matches Some(t) ==> arg_safe(t, percent),
        group matches Some(g) ==> arg_safe(g, percent),
    ensures
        query_map(activation_args(action, tag, group), skip_empty, percent) == args_map(
            action,
            tag,
            group,
        ),
        activation_args(action, tag, group).len() > 0,
        has_char(activation_args(action, tag, group), '='),
{
    lemma_keys();
    let ps = arg_pieces(action, tag, group);
    let a_part: Seq<Seq<char>> = match action {
        Some(a) => seq!["action="@ + a],
        None => Seq::empty(),
    };
    let t_part: Seq<Seq<char>> = match tag {
        Some(t) => seq!["tag="@ + t],
        None => Seq::empty(),
    };
    let g_part: Seq<Seq<char>> = match group {
        Some(g) => seq!["group="@ + g],
        None => Seq::empty(),
    };
    if let Some(a) = action {
        lemma_piece("action"@, a, percent);
    }
    if let Some(t) = tag {
        lemma_piece("tag"@, t, percent);
    }
    if let Some(g) = group {
        lemma_piece("group"@, g, percent);
    }
    assert forall|i: int| 0 <= i < ps.len() implies !has_char(#[trigger] ps[i], '&') by {
        if i < a_part.len() {
            assert(ps[i] == a_part[i]);
        } else if i < a_part.len() + t_part.len() {
            assert(ps[i] == t_part[i - a_part.len()]);
        } else {
            assert(ps[i] == g_part[i - a_part.len() - t_part.len()]);
        }
    }
    lemma_split_join(ps);
    // The map, piece by piece.
    let at = a_part + t_part;
    assert(ps =~= at + g_part);
    let m0 = match action {
        Some(a) => Map::<Seq<char>, Seq<char>>::empty().insert("action"@, a),
        None => Map::<Seq<char>, Seq<char>>::empty(),
    };
    let m1 = match tag {
        Some(t) => m0.insert("tag"@, t),
        None => m0,
    };
    if let Some(a) = action {
        let pa = "action="@ + a;
        assert(pa == "action"@ + "="@ + a);
        assert(pa.len() > 0);
        assert(a_part.drop_last() =~= Seq::<Seq<char>>::empty());
        assert(a_part.last() == pa);
        assert(pairs_map(a_part.drop_last(), skip_empty, percent) =~= Map::<
            Seq<char>,
            Seq<char>,
        >::empty());
        assert(pairs_map(a_part, skip_empty, percent) == m0);
    } else {
        assert(pairs_map(a_part, skip_empty, percent) == m0);
    }
    if let Some(t) = tag {
        let pt = "tag="@ + t;
        assert(pt == "tag"@ + "="@ + t);
        assert(pt.len() > 0);
        assert(at.drop_last() =~= a_part);
        assert(at.last() == pt);
        assert(pairs_map(at, skip_empty, percent) == m1);
    } else {
        assert(at =~= a_part);
    }
    if let Some(g) = group {
        let pg = "group="@ + g;
        assert(pg == "group"@ + "="@ + g);
        assert(pg.len() > 0);
        assert(ps.drop_last() =~= at);
        assert(ps.last() == pg);
        assert(pairs_map(ps, skip_empty, percent) == m1.insert("group"@, g));
    } else {
        assert(ps =~= at);
    }
    // The joined string is not empty and holds `=`.
    let q = join_amp(ps);
    let first = ps[0];
    assert(has_char(first, '='));
    if ps.len() == 1 {
        assert(q == first);
    } else {
        lemma_join_prefix(ps);
    }
    let w = choose|j: int| 0 <= j < first.len() && first[j] == '=';
    assert(q[w] == '=');
}

/// The first piece stands at the start of the joined string.
proof fn lemma_join_prefix(ps: Seq<Seq<char>>)
    requires
        ps.len() >= 1,
    ensures
        join_amp(ps).len() >= ps[0].len(),
        forall|j: int| 0 <= j < ps[0].len() ==> join_amp(ps)[j] == ps[0][j],
    decreases ps.len(),
{
    if ps.len() > 1 {
        lemma_join_prefix(ps.drop_last());
        let init = join_amp(ps.drop_last());
        assert forall|j: int| 0 <= j < ps[0].len() implies join_amp(ps)[j] == ps[0][j] by {
            assert(join_amp(ps)[j] == init[j]);
        }
    }
}

// ── The laws ───────────────────────────────────────────────────────────────

/// The action id, tag and group come back from the deep-link, foreground
/// and background parsers exactly as written, and no other input appears,
/// whenever each value is safe (no `&`, no surrounding whitespace, ASCII
/// without `%XX`) and tag and group are not empty.
pub proof fn lemma_activation_round_trip(
    action: Option<Seq<char>>,
    tag: Option<Seq<char>>,
    group: Option<Seq<char>>,
)
    requires
        action is Some || tag is Some || group is Some,
        action matches Some(a) ==> arg_safe(a, true),
        tag matches Some(t) ==> arg_safe(t, true) && t.len() > 0,
        group matches Some(g) ==> arg_safe(g, true) && g.len() > 0,
    ensures
        parsed_action(activation_args(action, tag, group)) == match action {
            Some(a) => a,
            None => Seq::<char>::empty(),
        },
        parsed_field(activation_args(action, tag, group), "tag"@) == tag,
        parsed_field(activation_args(action, tag, group), "group"@) == group,
        parsed_inputs(activation_args(action, tag, group)) == Map::<Seq<char>, Seq<char>>::empty(),
{
    lemma_args_map(action, tag, group, true, true);
    lemma_keys();
    let q = activation_args(action, tag, group);
    let m = args_map(action, tag, group);
    assert(m.remove("action"@).remove("tag"@).remove("group"@) =~= Map::<
        Seq<char>,
        Seq<char>,
    >::empty());
}

/// The same for the arguments of a COM-activated background process, which
/// are entity-decoded but not percent-decoded, so that non-ASCII values and
/// `%` come back as well.
pub proof fn lemma_invoked_round_trip(
    action: Option<Seq<char>>,
    tag: Option<Seq<char>>,
    group: Option<Seq<char>>,
)
    requires
        action is Some || tag is Some || group is Some,
        action matches Some(a) ==> arg_safe(a, false),
        tag matches Some(t) ==> arg_safe(t, false) && t.len() > 0,
        group matches Some(g) ==> arg_safe(g, false) && g.len() > 0,
    ensures
        invoked_action(activation_args(action, tag, group)) == match action {
            Some(a) => a,
            None => Seq::<char>::empty(),
        },
        invoked_field(activation_args(action, tag, group), "tag"@) == tag,
        invoked_field(activation_args(action, tag, group), "group"@) == group,
        invoked_extra(activation_args(action, tag, group)) == Map::<Seq<char>, Seq<char>>::empty(),
{
    lemma_args_map(action, tag, group, false, false);
    lemma_keys();
    let m = args_map(action, tag, group);
    assert(m.remove("action"@).remove("tag"@).remove("group"@) =~= Map::<
        Seq<char>,
        Seq<char>,
    >::empty());
}

proof fn lemma_esc_plain(s: Seq<char>)
    requires
        forall|i: int| 0 <= i < s.len() ==> 'a' <= #[trigger] s[i] <= 'z' || s[i] == '=',
    ensures
        esc_spec(s) == s,
    decreases s.len(),
{
    if s.len() > 0 {
        lemma_esc_plain(s.drop_last());
        assert(esc_spec(s.drop_last()) + seq![s.last()] =~= s);
    }
}

proof fn lemma_esc_keys()
    ensures
        esc_spec("action="@) == "action="@,
        esc_spec("tag="@) == "tag="@,
        esc_spec("group="@) == "group="@,
        esc_spec(seq!['&']) == "&amp;"@,
{
    reveal_strlit("action=");
    reveal_strlit("tag=");
    reveal_strlit("group=");
    lemma_esc_plain("action="@);
    lemma_esc_plain("tag="@);
    lemma_esc_plain("group="@);
    let amp = seq!['&'];
    assert(amp.drop_last() =~= Seq::<char>::empty());
    assert(esc_spec(amp.drop_last()) =~= Seq::<char>::empty());
    assert(amp.last() == '&');
    assert(esc_spec(amp) == esc_spec(amp.drop_last()) + esc_char('&'));
    assert(esc_spec(amp) =~= esc_char('&'));
}

/// The escaped joined pieces: each piece escaped, joined by `&amp;`.
proof fn lemma_esc_join(ps: Seq<Seq<char>>)
    requires
        ps.len() >= 2,
    ensures
        esc_spec(join_amp(ps)) == esc_spec(join_amp(ps.drop_last())) + "&amp;"@ + esc_spec(
            ps.last(),
        ),
{
    lemma_esc_keys();
    let x = join_amp(ps.drop_last());
    lemma_esc_concat(x + seq!['&'], ps.last());
    lemma_esc_concat(x, seq!['&']);
}

proof fn lemma_launch_args(d: NotificationData)
    requires
        d.tag is Some || d.group is Some,
    ensures
        tag_group_parts(d, false) == esc_spec(
            activation_args(None, opt_view(d.tag), opt_view(d.group)),
        ),
{
    lemma_esc_keys();
    let tv = opt_view(d.tag);
    let gv = opt_view(d.group);
    let args = activation_args(None, tv, gv);
    if let Some(t) = d.tag {
        let tp = "tag="@ + t@;
        lemma_esc_concat("tag="@, t@);
        if let Some(g) = d.group {
            let gp = "group="@ + g@;
            lemma_esc_concat("group="@, g@);
            assert(arg_pieces(None, tv, gv) =~= seq![tp, gp]);
            assert(seq![tp, gp].drop_last() =~= seq![tp]);
            lemma_esc_join(seq![tp, gp]);
            assert(esc_spec(args) == esc_spec(tp) + "&amp;"@ + esc_spec(gp));
            assert(tag_group_parts(d, false) =~= esc_spec(args));
        } else {
            assert(arg_pieces(None, tv, gv) =~= seq![tp]);
            assert(tag_group_parts(d, false) =~= esc_spec(args));
        }
    } else if let Some(g) = d.group {
        let gp = "group="@ + g@;
        lemma_esc_concat("group="@, g@);
        assert(arg_pieces(None, tv, gv) =~= seq![gp]);
        assert(tag_group_parts(d, false) =~= esc_spec(args));
    }
}

#[verifier::spinoff_prover]
proof fn lemma_button_args(a: WindowsAction, d: NotificationData)
    requires
        a.action_type != WindowsActionType::Protocol,
    ensures
        action_args(a, d) == esc_spec(activation_args(Some(a.id@), opt_view(d.tag), opt_view(d.group))),
{
    lemma_esc_keys();
    let tv = opt_view(d.tag);
    let gv = opt_view(d.group);
    let args = activation_args(Some(a.id@), tv, gv);
    let ap = "action="@ + a.id@;
    lemma_esc_concat("action="@, a.id@);
    if let Some(t) = d.tag {
        let tp = "tag="@ + t@;
        lemma_esc_concat("tag="@, t@);
        if let Some(g) = d.group {
            let gp = "group="@ + g@;
            lemma_esc_concat("group="@, g@);
            assert(arg_pieces(Some(a.id@), tv, gv) =~= seq![ap, tp, gp]);
            assert(seq![ap, tp, gp].drop_last() =~= seq![ap, tp]);
            assert(seq![ap, tp].drop_last() =~= seq![ap]);
            lemma_esc_join(seq![ap, tp, gp]);
            lemma_esc_join(seq![ap, tp]);
            assert(esc_spec(args) == esc_spec(ap) + "&amp;"@ + esc_spec(tp) + "&amp;"@ + esc_spec(
                gp,
            ));
            assert(action_args(a, d) =~= esc_spec(args));
        } else {
            assert(arg_pieces(Some(a.id@), tv, gv) =~= seq![ap, tp]);
            assert(seq![ap, tp].drop_last() =~= seq![ap]);
            lemma_esc_join(seq![ap, tp]);
            assert(action_args(a, d) =~= esc_spec(args));
        }
    } else if let Some(g) = d.group {
        let gp = "group="@ + g@;
        lemma_esc_concat("group="@, g@);
        assert(arg_pieces(Some(a.id@), tv, gv) =~= seq![ap, gp]);
        assert(seq![ap, gp].drop_last() =~= seq![ap]);
        lemma_esc_join(seq![ap, gp]);
        assert(action_args(a, d) =~= esc_spec(args));
    } else {
        assert(arg_pieces(Some(a.id@), tv, gv) =~= seq![ap]);
        assert(action_args(a, d) =~= esc_spec(args));
    }
}

/// The toast writes exactly the escaped arguments: the `launch` attribute
/// holds tag and group, and every button that is not a protocol link holds
/// its action id, tag and group. Windows decodes the XML attribute back to
/// the arguments that [`lemma_activation_round_trip`] reads.
pub proof fn lemma_toast_writes_args(d: NotificationData, a: WindowsAction)
    ensures
        (d.tag is Some || d.group is Some) ==> launch_attr(d) == " launch=\""@ + esc_spec(
            activation_args(None, opt_view(d.tag), opt_view(d.group)),
        ) + "\""@,
        a.action_type != WindowsActionType::Protocol ==> action_args(a, d) == esc_spec(
            activation_args(Some(a.id@), opt_view(d.tag), opt_view(d.group)),
        ),
{
    if d.tag is Some || d.group is Some {
        lemma_launch_args(d);
    }
    if a.action_type != WindowsActionType::Protocol {
        lemma_button_args(a, d);
    }
}

} // verus!
