//! The adaptive toast XML payload built from a [`NotificationData`].
//!
//! Every feature that the target Windows release lacks is left out, so the
//! document is always valid for that release. The layout of the document is
//! stated by [`toast_xml`]; [`build`] produces exactly that text.
use vstd::prelude::*;
use vstd::string::*;
use crate::error::Error;
use crate::sound_player::sound_choice;
use crate::models::{
    NotificationData, ProgressValue, WindowsAction, WindowsActionPlacement, WindowsActionType,
    WindowsInput, WindowsInputType, WindowsScenario, WindowsSelectionItem,
};
use crate::text::{
    chars_of, contains_char, ends_with, eq_ignore_ascii_case, eq_ignore_case, has_suffix,
    push_char, has_char, has_char_exec, contains_seq,
};
use crate::version::{rank, WindowsVersion};

verus! {

// ── Escaping ───────────────────────────────────────────────────────────────

/// The XML form of one character: the five markup characters become their
/// entities, every other character stands for itself.
pub open spec fn esc_char(c: char) -> Seq<char> {
    if c == '&' {
        "&amp;"@
    } else if c == '<' {
        "&lt;"@
    } else if c == '>' {
        "&gt;"@
    } else if c == '"' {
        "&quot;"@
    } else if c == '\'' {
        "&apos;"@
    } else {
        seq![c]
    }
}

/// `s` with every character replaced by its XML form.
pub open spec fn esc_spec(s: Seq<char>) -> Seq<char>
    decreases s.len(),
{
    if s.len() == 0 {
        Seq::empty()
    } else {
        esc_spec(s.drop_last()) + esc_char(s.last())
    }
}

/// Escaping distributes over concatenation.
pub proof fn lemma_esc_concat(a: Seq<char>, b: Seq<char>)
    ensures
        esc_spec(a + b) == esc_spec(a) + esc_spec(b),
    decreases b.len(),
{
    if b.len() == 0 {
        assert(a + b =~= a);
        assert(esc_spec(a) + esc_spec(b) =~= esc_spec(a));
    } else {
        lemma_esc_concat(a, b.drop_last());
        assert((a + b).drop_last() =~= a + b.drop_last());
        assert((a + b).last() == b.last());
        assert(esc_spec(a) + esc_spec(b.drop_last()) + esc_char(b.last()) =~= esc_spec(a) + (
        esc_spec(b.drop_last()) + esc_char(b.last())));
    }
}

/// Escaped text holds no markup character other than the `&` that starts
/// an entity: no `<`, `>`, `"` or `'`, and every `&` is followed by one of
/// `amp;`, `lt;`, `gt;`, `quot;`, `apos;`.
pub proof fn lemma_esc_safe(s: Seq<char>)
    ensures
        forall|i: int|
            0 <= i < esc_spec(s).len() ==> #[trigger] esc_spec(s)[i] != '<' && esc_spec(s)[i] != '>'
                && esc_spec(s)[i] != '"' && esc_spec(s)[i] != '\'',
    decreases s.len(),
{
    reveal_strlit("&amp;");
    reveal_strlit("&lt;");
    reveal_strlit("&gt;");
    reveal_strlit("&quot;");
    reveal_strlit("&apos;");
    if s.len() > 0 {
        lemma_esc_safe(s.drop_last());
        let a = esc_spec(s.drop_last());
        let b = esc_char(s.last());
        assert forall|i: int| 0 <= i < (a + b).len() implies #[trigger] (a + b)[i] != '<' && (a
            + b)[i] != '>' && (a + b)[i] != '"' && (a + b)[i] != '\'' by {
            if i >= a.len() {
                assert((a + b)[i] == b[i - a.len()]);
            } else {
                assert((a + b)[i] == a[i]);
            }
        }
    }
}

/// Appends the XML form of `s` to `out`.
fn push_esc(out: &mut String, s: &str)
    ensures
        final(out)@ == old(out)@ + esc_spec(s@),
{
    let v = chars_of(s);
    let mut i: usize = 0;
    while i < v.len()
        invariant
            v@ == s@,
            i <= v@.len(),
            out@ == old(out)@ + esc_spec(s@.take(i as int)),
        decreases v.len() - i,
    {
        let c = v[i];
        let ghost before = out@;
        if c == '&' {
            out.append("&amp;");
        } else if c == '<' {
            out.append("&lt;");
        } else if c == '>' {
            out.append("&gt;");
        } else if c == '"' {
            out.append("&quot;");
        } else if c == '\'' {
            out.append("&apos;");
        } else {
            push_char(out, c);
        }
        assert(out@ == before + esc_char(c));
        assert(s@.take(i + 1).drop_last() =~= s@.take(i as int));
        i = i + 1;
        assert(out@ =~= old(out)@ + esc_spec(s@.take(i as int)));
    }
    assert(s@.take(v@.len() as int) =~= s@);
}

/// Minimal XML escaping of user-supplied text.
pub fn esc(s: &str) -> (r: String)
    ensures
        r@ == esc_spec(s@),
{
    let mut out = String::new();
    push_esc(&mut out, s);
    assert(out@ =~= esc_spec(s@));
    out
}

/// The text of an optional string, empty when absent.
pub open spec fn or_empty(o: Option<String>) -> Seq<char> {
    match o {
        Some(s) => s@,
        None => Seq::empty(),
    }
}

fn or_empty_str(o: &Option<String>) -> (r: &str)
    ensures
        r@ == or_empty(*o),
{
    proof {
        reveal_strlit("");
    }
    match o {
        Some(s) => s.as_str(),
        None => "",
    }
}

/// An optional attribute: `pre`, the escaped value and a closing quote.
pub open spec fn opt_attr(o: Option<String>, pre: Seq<char>) -> Seq<char> {
    match o {
        Some(v) => pre + esc_spec(v@) + "\""@,
        None => Seq::empty(),
    }
}

fn push_opt_attr(out: &mut String, o: &Option<String>, pre: &str)
    ensures
        final(out)@ == old(out)@ + opt_attr(*o, pre@),
{
    if let Some(v) = o {
        out.append(pre);
        push_esc(out, v.as_str());
        out.append("\"");
    }
    assert(out@ =~= old(out)@ + opt_attr(*o, pre@));
}

// ── The document, piece by piece ───────────────────────────────────────────

/// The scenario is one that loops its audio (alarm or reminder).
pub open spec fn is_looping_scenario(s: Option<WindowsScenario>) -> bool {
    s == Some(WindowsScenario::Alarm) || s == Some(WindowsScenario::Reminder)
}

/// The `scenario` attribute value on a release of rank `r`: `urgent`
/// degrades to `reminder` before Windows 11.
pub open spec fn scenario_name(s: WindowsScenario, r: int) -> Seq<char> {
    match s {
        WindowsScenario::Alarm => "alarm"@,
        WindowsScenario::Reminder => "reminder"@,
        WindowsScenario::IncomingCall => "incomingCall"@,
        WindowsScenario::Urgent => if r >= 5 {
            "urgent"@
        } else {
            "reminder"@
        },
        WindowsScenario::Default => "default"@,
    }
}

/// The `scenario` and `duration` attributes (Windows 10 and later).
pub open spec fn scenario_attrs(d: NotificationData, r: int) -> Seq<char> {
    if r >= 3 && d.scenario is Some {
        " scenario=\""@ + scenario_name(d.scenario.unwrap(), r) + "\""@ + if is_looping_scenario(
            d.scenario,
        ) {
            " duration=\"long\""@
        } else {
            Seq::empty()
        }
    } else {
        Seq::empty()
    }
}

/// The escaped `tag=…` and `group=…` parts, each with the `&amp;` that
/// precedes it when `lead` is set or when it follows another part.
pub open spec fn tag_group_parts(d: NotificationData, lead: bool) -> Seq<char> {
    let t = match d.tag {
        Some(t) => (if lead {
            "&amp;"@
        } else {
            Seq::empty()
        }) + "tag="@ + esc_spec(t@),
        None => Seq::empty(),
    };
    let g = match d.group {
        Some(g) => (if lead || d.tag is Some {
            "&amp;"@
        } else {
            Seq::empty()
        }) + "group="@ + esc_spec(g@),
        None => Seq::empty(),
    };
    t + g
}

/// The `launch` attribute that carries tag and group back on activation.
pub open spec fn launch_attr(d: NotificationData) -> Seq<char> {
    if d.tag is Some || d.group is Some {
        " launch=\""@ + tag_group_parts(d, false) + "\""@
    } else {
        Seq::empty()
    }
}

/// The opening `<toast …>` tag.
pub open spec fn toast_open(d: NotificationData, r: int) -> Seq<char> {
    "<toast"@ + scenario_attrs(d, r) + launch_attr(d) + ">"@
}

/// An optional `<image>` element.
pub open spec fn image_elem(src: Option<String>, ok: bool, pre: Seq<char>, post: Seq<char>) -> Seq<
    char,
> {
    if ok && src is Some {
        pre + esc_spec(src.unwrap()@) + post
    } else {
        Seq::empty()
    }
}

/// An optional `<text>` element.
pub open spec fn text_elem(t: Option<String>, open_tag: Seq<char>) -> Seq<char> {
    match t {
        Some(t) => open_tag + esc_spec(t@) + "</text>"@,
        None => Seq::empty(),
    }
}

/// The decimal digit `k` (0 ≤ k ≤ 9).
pub open spec fn digit(k: int) -> char {
    (48 + k) as char
}

/// The `value` attribute of a progress bar: four decimals, clamped to one.
pub open spec fn progress_value_text(v: ProgressValue) -> Seq<char> {
    match v {
        ProgressValue::Indeterminate => "indeterminate"@,
        ProgressValue::NotANumber => "NaN"@,
        ProgressValue::NegativeZero => "-0.0000"@,
        ProgressValue::TenThousandths(n) => {
            let c: int = if n > 10000 {
                10000
            } else {
                n as int
            };
            seq![
                digit(c / 10000),
                '.',
                digit((c / 1000) % 10),
                digit((c / 100) % 10),
                digit((c / 10) % 10),
                digit(c % 10),
            ]
        },
    }
}

/// The `<progress>` element (Windows 10 2004 and later).
pub open spec fn progress_elem(d: NotificationData, r: int) -> Seq<char> {
    if r >= 4 && d.progress is Some {
        let p = d.progress.unwrap();
        "<progress title=\""@ + esc_spec(or_empty(p.title)) + "\" value=\""@ + progress_value_text(
            p.value,
        ) + "\" valueStringOverride=\""@ + esc_spec(or_empty(p.value_string)) + "\" status=\""@
            + esc_spec(or_empty(p.status)) + "\"/>"@
    } else {
        Seq::empty()
    }
}

/// The `<visual>` element: images, texts and the progress bar.
pub open spec fn visual(d: NotificationData, r: int) -> Seq<char> {
    "<visual><binding template=\"ToastGeneric\">"@ + image_elem(
        d.hero_image,
        r >= 3,
        "<image placement=\"hero\" src=\""@,
        "\"/>"@,
    ) + image_elem(
        d.icon,
        r >= 2,
        "<image placement=\"appLogoOverride\" src=\""@,
        "\" hint-crop=\"circle\"/>"@,
    ) + text_elem(d.title, "<text>"@) + text_elem(d.body, "<text>"@) + text_elem(
        d.large_body,
        "<text hint-maxLines=\"5\">"@,
    ) + progress_elem(d, r) + "</binding></visual>"@
}

/// The `loop` attribute value.
pub open spec fn loop_text(looping: bool) -> Seq<char> {
    if looping {
        "true"@
    } else {
        "false"@
    }
}

/// The `<audio>` element for the notification's sound and silent flag. A
/// sound file that the plugin plays itself mutes the toast, so that Windows
/// does not play a sound of its own as well.
pub open spec fn audio_elem(d: NotificationData, looping: bool) -> Seq<char> {
    if d.silent {
        "<audio silent=\"true\"/>"@
    } else {
        match d.sound {
            None => if looping {
                "<audio src=\"ms-winsoundevent:Notification.Looping.Alarm\" loop=\""@ + loop_text(
                    looping,
                ) + "\"/>"@
            } else {
                Seq::empty()
            },
            Some(s) => if eq_ignore_ascii_case(s@, "silent"@) {
                "<audio silent=\"true\"/>"@
            } else if sound_choice(s@, false) is Some {
                "<audio silent=\"true\"/>"@
            } else if has_suffix(s@, ".wav"@) || has_char(s@, '\\') || has_char(s@, '/') {
                "<audio src=\""@ + esc_spec(s@) + "\" loop=\""@ + loop_text(looping) + "\"/>"@
            } else {
                "<audio src=\"ms-winsoundevent:Notification."@ + esc_spec(s@) + "\" loop=\""@
                    + loop_text(looping) + "\"/>"@
            },
        }
    }
}

/// The audio part of the toast (all releases with WinRT toasts).
pub open spec fn audio_part(d: NotificationData, r: int) -> Seq<char> {
    if r >= 1 {
        audio_elem(d, r >= 3 && is_looping_scenario(d.scenario))
    } else {
        Seq::empty()
    }
}

/// A text input element.
pub open spec fn text_input_elem(inp: WindowsInput) -> Seq<char> {
    "<input id=\""@ + esc_spec(inp.id@) + "\" type=\"text\" placeHolderContent=\""@ + esc_spec(
        or_empty(inp.placeholder),
    ) + "\"/>"@
}

/// One `<selection>` choice.
pub open spec fn selection_elem(item: WindowsSelectionItem) -> Seq<char> {
    "<selection id=\""@ + esc_spec(item.id@) + "\" content=\""@ + esc_spec(item.content@)
        + "\"/>"@
}

/// The choices of a selection input, in order.
pub open spec fn selections_elems(items: Seq<WindowsSelectionItem>) -> Seq<char>
    decreases items.len(),
{
    if items.len() == 0 {
        Seq::empty()
    } else {
        selections_elems(items.drop_last()) + selection_elem(items.last())
    }
}

/// A selection input element with its choices.
pub open spec fn selection_input_elem(inp: WindowsInput) -> Seq<char> {
    "<input id=\""@ + esc_spec(inp.id@) + "\" type=\"selection\""@ + opt_attr(
        inp.default_selection,
        " defaultInput=\""@,
    ) + ">"@ + selections_elems(inp.selections@) + "</input>"@
}

/// One input element; a selection input falls back to a text input where
/// selections are not available.
pub open spec fn input_elem(inp: WindowsInput, r: int) -> Seq<char> {
    if inp.input_type == WindowsInputType::Selection && r >= 3 {
        selection_input_elem(inp)
    } else {
        text_input_elem(inp)
    }
}

/// The input elements, in order.
pub open spec fn inputs_elems(inputs: Seq<WindowsInput>, r: int) -> Seq<char>
    decreases inputs.len(),
{
    if inputs.len() == 0 {
        Seq::empty()
    } else {
        inputs_elems(inputs.drop_last(), r) + input_elem(inputs.last(), r)
    }
}

/// The `activationType` value of an action.
pub open spec fn activation_name(t: WindowsActionType) -> Seq<char> {
    match t {
        WindowsActionType::Background => "background"@,
        WindowsActionType::Protocol => "protocol"@,
        WindowsActionType::Foreground => "foreground"@,
    }
}

/// The `arguments` attribute value of an action: the protocol URI (or the
/// id) for protocol actions, otherwise `action=<id>` followed by the tag and
/// group parts, joined by `&amp;`.
pub open spec fn action_args(a: WindowsAction, d: NotificationData) -> Seq<char> {
    if a.action_type == WindowsActionType::Protocol {
        esc_spec(
            match a.protocol {
                Some(p) => p@,
                None => a.id@,
            },
        )
    } else {
        "action="@ + esc_spec(a.id@) + tag_group_parts(d, true)
    }
}

/// The `placement` attribute of an action.
pub open spec fn placement_attr(p: WindowsActionPlacement) -> Seq<char> {
    if p == WindowsActionPlacement::ContextMenu {
        " placement=\"contextMenu\""@
    } else {
        Seq::empty()
    }
}

/// The start of an `<action>` element: label, arguments and activation.
pub open spec fn action_head(a: WindowsAction, d: NotificationData) -> Seq<char> {
    "<action content=\""@ + esc_spec(a.label@) + "\" arguments=\""@ + action_args(a, d)
        + "\" activationType=\""@ + activation_name(a.action_type) + "\""@
}

/// The end of an `<action>` element: icon, placement and bound input.
pub open spec fn action_tail(a: WindowsAction) -> Seq<char> {
    opt_attr(a.icon, " imageUri=\""@) + placement_attr(a.placement) + opt_attr(
        a.input_id,
        " hint-inputId=\""@,
    ) + "/>"@
}

/// One `<action>` element.
pub open spec fn action_elem(a: WindowsAction, d: NotificationData) -> Seq<char> {
    action_head(a, d) + action_tail(a)
}

/// The action elements, in order.
pub open spec fn actions_elems(actions: Seq<WindowsAction>, d: NotificationData) -> Seq<char>
    decreases actions.len(),
{
    if actions.len() == 0 {
        Seq::empty()
    } else {
        actions_elems(actions.drop_last(), d) + action_elem(actions.last(), d)
    }
}

/// The `<actions>` block (Windows 10 and later, when there is anything to
/// show); inputs come before buttons.
pub open spec fn actions_part(d: NotificationData, r: int) -> Seq<char> {
    if r >= 3 && (d.windows_inputs@.len() > 0 || d.windows_actions@.len() > 0) {
        "<actions>"@ + inputs_elems(d.windows_inputs@, r) + actions_elems(d.windows_actions@, d)
            + "</actions>"@
    } else {
        Seq::empty()
    }
}

/// The complete toast document for `d` on release `v`.
pub open spec fn toast_xml(d: NotificationData, v: WindowsVersion) -> Seq<char> {
    let r = rank(v);
    toast_open(d, r) + visual(d, r) + audio_part(d, r) + actions_part(d, r) + "</toast>"@
}

/// Every document is a `<toast>` element with a `<visual>` child, on every
/// release: it starts with `<toast`, holds `<visual>` right after the
/// opening tag, and ends with `</toast>`.
pub proof fn lemma_toast_shell(d: NotificationData, v: WindowsVersion)
    ensures
        toast_xml(d, v).take(6) == "<toast"@,
        toast_xml(d, v).skip(toast_xml(d, v).len() - 8) == "</toast>"@,
        toast_xml(d, v).subrange(
            toast_open(d, rank(v)).len() as int,
            toast_open(d, rank(v)).len() as int + 8,
        ) == "<visual>"@,
{
    reveal_strlit("<toast");
    reveal_strlit("</toast>");
    reveal_strlit("<visual>");
    reveal_strlit("<visual><binding template=\"ToastGeneric\">");
    let r = rank(v);
    let x = toast_xml(d, v);
    let o = toast_open(d, r);
    assert(x =~= o + visual(d, r) + audio_part(d, r) + actions_part(d, r) + "</toast>"@);
    assert(o =~= "<toast"@ + (scenario_attrs(d, r) + launch_attr(d) + ">"@));
    assert(x.take(6) =~= "<toast"@);
    assert(x.skip(x.len() - 8) =~= "</toast>"@);
    let vis = visual(d, r);
    let head = "<visual><binding template=\"ToastGeneric\">"@;
    assert(vis.subrange(0, 8) =~= head.subrange(0, 8));
    assert(x.subrange(o.len() as int, o.len() as int + 8) =~= vis.subrange(0, 8));
    assert(head.subrange(0, 8) =~= "<visual>"@);
}

/// A sound that names a file path (it holds `/` or `\\`, or ends in
/// `.wav`) and that the plugin does not play itself is used verbatim as the
/// `<audio>` source, escaped, and never as a Windows sound-event name; the
/// loop attribute follows the looping flag.
pub proof fn lemma_audio_path_verbatim(d: NotificationData, s: String, looping: bool)
    requires
        !d.silent,
        d.sound == Some(s),
        !eq_ignore_ascii_case(s@, "silent"@),
        sound_choice(s@, false) is None,
        has_char(s@, '/') || has_char(s@, '\\') || has_suffix(s@, ".wav"@),
    ensures
        audio_elem(d, looping) == "<audio src=\""@ + esc_spec(s@) + "\" loop=\""@ + (if looping {
            "true"@
        } else {
            "false"@
        }) + "\"/>"@,
{
}

/// A sound that is neither silent, nor a file the plugin plays, nor a path
/// (no `/`, no `\\`, no `.wav` ending) is a Windows sound-event name:
/// `ms-winsoundevent:Notification.<name>`.
pub proof fn lemma_audio_event_name(d: NotificationData, s: String, looping: bool)
    requires
        !d.silent,
        d.sound == Some(s),
        !eq_ignore_ascii_case(s@, "silent"@),
        sound_choice(s@, false) is None,
        !has_char(s@, '/') && !has_char(s@, '\\') && !has_suffix(s@, ".wav"@),
    ensures
        audio_elem(d, looping) == "<audio src=\"ms-winsoundevent:Notification."@ + esc_spec(s@)
            + "\" loop=\""@ + (if looping {
            "true"@
        } else {
            "false"@
        }) + "\"/>"@,
{
}

/// On every release with WinRT toasts the toast of such a path sound holds
/// `<audio src="<escaped path>"`: the path itself is the source.
pub proof fn lemma_toast_audio_path(d: NotificationData, s: String, v: WindowsVersion)
    requires
        rank(v) >= 1,
        !d.silent,
        d.sound == Some(s),
        !eq_ignore_ascii_case(s@, "silent"@),
        sound_choice(s@, false) is None,
        has_char(s@, '/') || has_char(s@, '\\') || has_suffix(s@, ".wav"@),
    ensures
        contains_seq(toast_xml(d, v), "<audio src=\""@ + esc_spec(s@) + "\""@),
{
    let r = rank(v);
    let looping = r >= 3 && is_looping_scenario(d.scenario);
    lemma_audio_path_verbatim(d, s, looping);
    reveal_strlit("\" loop=\"");
    reveal_strlit("\"");
    let pre = toast_open(d, r) + visual(d, r);
    let want = "<audio src=\""@ + esc_spec(s@) + "\""@;
    let x = toast_xml(d, v);
    let a = audio_elem(d, looping);
    assert(x =~= pre + a + actions_part(d, r) + "</toast>"@);
    assert(a.subrange(0, want.len() as int) =~= want);
    assert(x.subrange(pre.len() as int, (pre.len() + want.len()) as int) =~= a.subrange(0, want.len() as int));
    assert(x.subrange(pre.len() as int, (pre.len() + want.len()) as int) == want);
}

// ── Executable pieces ──────────────────────────────────────────────────────

fn push_scenario_attrs(out: &mut String, d: &NotificationData, ver: WindowsVersion)
    ensures
        final(out)@ == old(out)@ + scenario_attrs(*d, rank(ver)),
{
    if ver.has_scenario() {
        if let Some(s) = d.scenario {
            out.append(" scenario=\"");
            match s {
                WindowsScenario::Alarm => out.append("alarm"),
                WindowsScenario::Reminder => out.append("reminder"),
                WindowsScenario::IncomingCall => out.append("incomingCall"),
                WindowsScenario::Urgent => {
                    if ver.has_urgent() {
                        out.append("urgent")
                    } else {
                        out.append("reminder")
                    }
                },
                WindowsScenario::Default => out.append("default"),
            }
            out.append("\"");
            let looping = match s {
                WindowsScenario::Alarm => true,
                WindowsScenario::Reminder => true,
                _ => false,
            };
            if looping {
                out.append(" duration=\"long\"");
            }
            assert(out@ =~= old(out)@ + scenario_attrs(*d, rank(ver)));
            return ;
        }
    }
    assert(out@ =~= old(out)@ + scenario_attrs(*d, rank(ver)));
}

fn push_tag_group_parts(out: &mut String, d: &NotificationData, lead: bool)
    ensures
        final(out)@ == old(out)@ + tag_group_parts(*d, lead),
{
    let ghost start = out@;
    if let Some(t) = &d.tag {
        if lead {
            out.append("&amp;");
        }
        out.append("tag=");
        push_esc(out, t.as_str());
    }
    let ghost mid = out@;
    assert(mid =~= start + match d.tag {
        Some(t) => (if lead {
            "&amp;"@
        } else {
            Seq::empty()
        }) + "tag="@ + esc_spec(t@),
        None => Seq::<char>::empty(),
    });
    if let Some(g) = &d.group {
        if lead || d.tag.is_some() {
            out.append("&amp;");
        }
        out.append("group=");
        push_esc(out, g.as_str());
    }
    assert(out@ =~= old(out)@ + tag_group_parts(*d, lead));
}

fn push_toast_open(out: &mut String, d: &NotificationData, ver: WindowsVersion)
    ensures
        final(out)@ == old(out)@ + toast_open(*d, rank(ver)),
{
    out.append("<toast");
    push_scenario_attrs(out, d, ver);
    let ghost mid = out@;
    if d.tag.is_some() || d.group.is_some() {
        out.append(" launch=\"");
        push_tag_group_parts(out, d, false);
        out.append("\"");
    }
    assert(out@ =~= mid + launch_attr(*d));
    out.append(">");
    assert(out@ =~= old(out)@ + toast_open(*d, rank(ver)));
}

fn push_image(out: &mut String, src: &Option<String>, ok: bool, pre: &str, post: &str)
    ensures
        final(out)@ == old(out)@ + image_elem(*src, ok, pre@, post@),
{
    if ok {
        if let Some(s) = src {
            out.append(pre);
            push_esc(out, s.as_str());
            out.append(post);
            assert(out@ =~= old(out)@ + image_elem(*src, ok, pre@, post@));
            return ;
        }
    }
    assert(out@ =~= old(out)@ + image_elem(*src, ok, pre@, post@));
}

fn push_text(out: &mut String, t: &Option<String>, open_tag: &str)
    ensures
        final(out)@ == old(out)@ + text_elem(*t, open_tag@),
{
    if let Some(s) = t {
        out.append(open_tag);
        push_esc(out, s.as_str());
        out.append("</text>");
    }
    assert(out@ =~= old(out)@ + text_elem(*t, open_tag@));
}

fn digit_char(k: u32) -> (c: char)
    requires
        k <= 9,
    ensures
        c == digit(k as int),
{
    let b = (48 + k) as u8;
    b as char
}

fn push_progress_value(out: &mut String, v: ProgressValue)
    ensures
        final(out)@ == old(out)@ + progress_value_text(v),
{
    match v {
        ProgressValue::Indeterminate => out.append("indeterminate"),
        ProgressValue::NotANumber => out.append("NaN"),
        ProgressValue::NegativeZero => out.append("-0.0000"),
        ProgressValue::TenThousandths(n) => {
            let c: u32 = if n > 10000 {
                10000
            } else {
                n
            };
            push_char(out, digit_char(c / 10000));
            push_char(out, '.');
            push_char(out, digit_char((c / 1000) % 10));
            push_char(out, digit_char((c / 100) % 10));
            push_char(out, digit_char((c / 10) % 10));
            push_char(out, digit_char(c % 10));
            assert(out@ =~= old(out)@ + progress_value_text(v));
        },
    }
}

fn push_progress(out: &mut String, d: &NotificationData, ver: WindowsVersion)
    ensures
        final(out)@ == old(out)@ + progress_elem(*d, rank(ver)),
{
    if ver.has_progress() {
        if let Some(p) = &d.progress {
            out.append("<progress title=\"");
            push_esc(out, or_empty_str(&p.title));
            out.append("\" value=\"");
            push_progress_value(out, p.value);
            out.append("\" valueStringOverride=\"");
            push_esc(out, or_empty_str(&p.value_string));
            out.append("\" status=\"");
            push_esc(out, or_empty_str(&p.status));
            out.append("\"/>");
            assert(out@ =~= old(out)@ + progress_elem(*d, rank(ver)));
            return ;
        }
    }
    assert(out@ =~= old(out)@ + progress_elem(*d, rank(ver)));
}

fn push_visual(out: &mut String, d: &NotificationData, ver: WindowsVersion)
    ensures
        final(out)@ == old(out)@ + visual(*d, rank(ver)),
{
    out.append("<visual><binding template=\"ToastGeneric\">");
    let hero_ok = ver.has_hero_image();
    push_image(out, &d.hero_image, hero_ok, "<image placement=\"hero\" src=\"", "\"/>");
    let logo_ok = ver.has_logo_override();
    push_image(
        out,
        &d.icon,
        logo_ok,
        "<image placement=\"appLogoOverride\" src=\"",
        "\" hint-crop=\"circle\"/>",
    );
    push_text(out, &d.title, "<text>");
    push_text(out, &d.body, "<text>");
    push_text(out, &d.large_body, "<text hint-maxLines=\"5\">");
    push_progress(out, d, ver);
    out.append("</binding></visual>");
    assert(out@ =~= old(out)@ + visual(*d, rank(ver)));
}

/// The `<audio>` element for the notification's sound and silent flag;
/// `is_looping` is set for alarm and reminder scenarios.
fn build_audio(d: &NotificationData, is_looping: bool) -> (r: String)
    ensures
        r@ == audio_elem(*d, is_looping),
{
    if d.silent {
        return String::from_str("<audio silent=\"true\"/>");
    }
    let loop_attr = if is_looping {
        "true"
    } else {
        "false"
    };
    match &d.sound {
        None => {
            if is_looping {
                let mut s = String::from_str(
                    "<audio src=\"ms-winsoundevent:Notification.Looping.Alarm\" loop=\"",
                );
                s.append(loop_attr);
                s.append("\"/>");
                assert(s@ =~= audio_elem(*d, is_looping));
                s
            } else {
                String::new()
            }
        },
        Some(sound) => {
            let sv = chars_of(sound.as_str());
            let silent_name = chars_of("silent");
            if eq_ignore_case(sv.as_slice(), silent_name.as_slice()) {
                return String::from_str("<audio silent=\"true\"/>");
            }
            if crate::sound_player::play(sound.as_str(), false).is_some() {
                return String::from_str("<audio silent=\"true\"/>");
            }
            let wav = chars_of(".wav");
            let mut s = if ends_with(sv.as_slice(), wav.as_slice()) || has_char_exec(
                sound.as_str(),
                '\\',
            ) || has_char_exec(sound.as_str(), '/') {
                String::from_str("<audio src=\"")
            } else {
                String::from_str("<audio src=\"ms-winsoundevent:Notification.")
            };
            push_esc(&mut s, sound.as_str());
            s.append("\" loop=\"");
            s.append(loop_attr);
            s.append("\"/>");
            assert(s@ =~= audio_elem(*d, is_looping));
            s
        },
    }
}

fn push_text_input(out: &mut String, inp: &WindowsInput)
    ensures
        final(out)@ == old(out)@ + text_input_elem(*inp),
{
    out.append("<input id=\"");
    push_esc(out, inp.id.as_str());
    out.append("\" type=\"text\" placeHolderContent=\"");
    push_esc(out, or_empty_str(&inp.placeholder));
    out.append("\"/>");
    assert(out@ =~= old(out)@ + text_input_elem(*inp));
}

fn push_selection_input(out: &mut String, inp: &WindowsInput)
    ensures
        final(out)@ == old(out)@ + selection_input_elem(*inp),
{
    out.append("<input id=\"");
    push_esc(out, inp.id.as_str());
    out.append("\" type=\"selection\"");
    push_opt_attr(out, &inp.default_selection, " defaultInput=\"");
    out.append(">");
    let ghost c = out@;
    let items = &inp.selections;
    let mut i: usize = 0;
    while i < items.len()
        invariant
            i <= items@.len(),
            out@ == c + selections_elems(items@.take(i as int)),
        decreases items.len() - i,
    {
        let item = &items[i];
        let ghost before = out@;
        out.append("<selection id=\"");
        push_esc(out, item.id.as_str());
        out.append("\" content=\"");
        push_esc(out, item.content.as_str());
        out.append("\"/>");
        assert(out@ =~= before + selection_elem(*item));
        assert(items@.take(i + 1).drop_last() =~= items@.take(i as int));
        i = i + 1;
        assert(out@ =~= c + selections_elems(items@.take(i as int)));
    }
    assert(items@.take(items@.len() as int) =~= items@);
    out.append("</input>");
    assert(out@ =~= old(out)@ + selection_input_elem(*inp));
}

fn push_inputs(out: &mut String, inputs: &Vec<WindowsInput>, ver: WindowsVersion)
    ensures
        final(out)@ == old(out)@ + inputs_elems(inputs@, rank(ver)),
{
    let mut i: usize = 0;
    while i < inputs.len()
        invariant
            i <= inputs@.len(),
            out@ == old(out)@ + inputs_elems(inputs@.take(i as int), rank(ver)),
        decreases inputs.len() - i,
    {
        let inp = &inputs[i];
        let ghost before = out@;
        match inp.input_type {
            WindowsInputType::Text => push_text_input(out, inp),
            WindowsInputType::Selection => {
                if ver.has_selection_input() {
                    push_selection_input(out, inp)
                } else {
                    push_text_input(out, inp)
                }
            },
        }
        assert(out@ == before + input_elem(*inp, rank(ver)));
        assert(inputs@.take(i + 1).drop_last() =~= inputs@.take(i as int));
        i = i + 1;
        assert(out@ =~= old(out)@ + inputs_elems(inputs@.take(i as int), rank(ver)));
    }
    assert(inputs@.take(inputs@.len() as int) =~= inputs@);
}

fn push_action_args(out: &mut String, a: &WindowsAction, d: &NotificationData)
    ensures
        final(out)@ == old(out)@ + action_args(*a, *d),
{
    if a.action_type == WindowsActionType::Protocol {
        match &a.protocol {
            Some(p) => push_esc(out, p.as_str()),
            None => push_esc(out, a.id.as_str()),
        }
    } else {
        out.append("action=");
        push_esc(out, a.id.as_str());
        push_tag_group_parts(out, d, true);
    }
    assert(out@ =~= old(out)@ + action_args(*a, *d));
}

fn push_action_head(out: &mut String, a: &WindowsAction, d: &NotificationData)
    ensures
        final(out)@ == old(out)@ + action_head(*a, *d),
{
    out.append("<action content=\"");
    push_esc(out, a.label.as_str());
    out.append("\" arguments=\"");
    push_action_args(out, a, d);
    out.append("\" activationType=\"");
    match a.action_type {
        WindowsActionType::Background => out.append("background"),
        WindowsActionType::Protocol => out.append("protocol"),
        WindowsActionType::Foreground => out.append("foreground"),
    }
    out.append("\"");
    assert(out@ =~= old(out)@ + action_head(*a, *d));
}

fn push_action_tail(out: &mut String, a: &WindowsAction)
    ensures
        final(out)@ == old(out)@ + action_tail(*a),
{
    push_opt_attr(out, &a.icon, " imageUri=\"");
    let ghost before_placement = out@;
    match a.placement {
        WindowsActionPlacement::ContextMenu => out.append(" placement=\"contextMenu\""),
        WindowsActionPlacement::Default => {},
    }
    assert(out@ =~= before_placement + placement_attr(a.placement));
    push_opt_attr(out, &a.input_id, " hint-inputId=\"");
    out.append("/>");
    assert(out@ =~= old(out)@ + action_tail(*a));
}

fn push_action(out: &mut String, a: &WindowsAction, d: &NotificationData)
    ensures
        final(out)@ == old(out)@ + action_elem(*a, *d),
{
    push_action_head(out, a, d);
    push_action_tail(out, a);
    assert(out@ =~= old(out)@ + action_elem(*a, *d));
}

fn push_actions(out: &mut String, d: &NotificationData)
    ensures
        final(out)@ == old(out)@ + actions_elems(d.windows_actions@, *d),
{
    let actions = &d.windows_actions;
    let mut i: usize = 0;
    while i < actions.len()
        invariant
            i <= actions@.len(),
            actions@ == d.windows_actions@,
            out@ == old(out)@ + actions_elems(actions@.take(i as int), *d),
        decreases actions.len() - i,
    {
        let ghost before = out@;
        push_action(out, &actions[i], d);
        assert(actions@.take(i + 1).drop_last() =~= actions@.take(i as int));
        i = i + 1;
        assert(out@ =~= old(out)@ + actions_elems(actions@.take(i as int), *d));
    }
    assert(actions@.take(actions@.len() as int) =~= actions@);
}

fn push_actions_part(out: &mut String, d: &NotificationData, ver: WindowsVersion)
    ensures
        final(out)@ == old(out)@ + actions_part(*d, rank(ver)),
{
    if ver.has_actions() && (d.windows_inputs.len() > 0 || d.windows_actions.len() > 0) {
        out.append("<actions>");
        push_inputs(out, &d.windows_inputs, ver);
        push_actions(out, d);
        out.append("</actions>");
    }
    assert(out@ =~= old(out)@ + actions_part(*d, rank(ver)));
}

/// The complete `<toast>` document for `data` on release `ver`; features
/// that `ver` lacks are left out. It never fails.
pub fn build(data: &NotificationData, ver: WindowsVersion) -> (r: Result<String, Error>)
    ensures
        r is Ok,
        r matches Ok(s) && s@ == toast_xml(*data, ver),
{
    let mut xml = String::new();
    push_toast_open(&mut xml, data, ver);
    push_visual(&mut xml, data, ver);
    let ghost before_audio = xml@;
    if ver.has_winrt_toast() {
        let is_looping = ver.has_scenario() && match data.scenario {
            Some(WindowsScenario::Alarm) => true,
            Some(WindowsScenario::Reminder) => true,
            _ => false,
        };
        let audio = build_audio(data, is_looping);
        xml.append(audio.as_str());
    }
    assert(xml@ =~= before_audio + audio_part(*data, rank(ver)));
    push_actions_part(&mut xml, data, ver);
    xml.append("</toast>");
    assert(xml@ =~= toast_xml(*data, ver));
    Ok(xml)
}

} // verus!
