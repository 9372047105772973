//! Which notification sound the plugin plays itself.
//!
//! A sound name with an audio file extension is played from the app's
//! resources; other names are Windows sound events left to the toast XML.
use vstd::prelude::*;
use vstd::string::*;
use crate::text::{
    chars_of, ends_with, eq_ignore_ascii_case, eq_ignore_case, has_suffix, string_of,
    to_ascii_lower, trim, trimmed,
};

verus! {

/// `name` ends, ignoring ASCII case, with an audio file extension.
pub open spec fn file_sound(name: Seq<char>) -> bool {
    let l = to_ascii_lower(name);
    has_suffix(l, ".wav"@) || has_suffix(l, ".mp3"@) || has_suffix(l, ".ogg"@) || has_suffix(
        l,
        ".flac"@,
    )
}

fn lower_chars(v: &[char]) -> (r: Vec<char>)
    ensures
        r@ == to_ascii_lower(v@),
{
    let mut out: Vec<char> = Vec::new();
    let mut i: usize = 0;
    while i < v.len()
        invariant
            i <= v@.len(),
            out@ == to_ascii_lower(v@.take(i as int)),
        decreases v.len() - i,
    {
        out.push(crate::text::lower_ascii(v[i]));
        i = i + 1;
        assert(out@ =~= to_ascii_lower(v@.take(i as int)));
    }
    assert(v@.take(v@.len() as int) =~= v@);
    out
}

/// Whether the sound name names an audio file (`.wav`, `.mp3`, `.ogg` or
/// `.flac`, any case).
pub fn is_file_sound(name: &str) -> (r: bool)
    ensures
        r == file_sound(name@),
{
    let v = chars_of(name);
    let l = lower_chars(v.as_slice());
    let wav = chars_of(".wav");
    let mp3 = chars_of(".mp3");
    let ogg = chars_of(".ogg");
    let flac = chars_of(".flac");
    ends_with(l.as_slice(), wav.as_slice()) || ends_with(l.as_slice(), mp3.as_slice()) || ends_with(
        l.as_slice(),
        ogg.as_slice(),
    ) || ends_with(l.as_slice(), flac.as_slice())
}

/// The sound file the plugin plays for a notification: none when silent,
/// otherwise the trimmed name unless it is empty, `silent` (any case) or not
/// an audio file name.
pub open spec fn sound_choice(sound_name: Seq<char>, silent: bool) -> Option<Seq<char>> {
    let name = trim(sound_name);
    if silent || eq_ignore_ascii_case(name, "silent"@) || name.len() == 0 || !file_sound(name) {
        None
    } else {
        Some(name)
    }
}

/// The sound file to resolve from the resources and play, if any.
pub fn play(sound_name: &str, silent: bool) -> (r: Option<String>)
    ensures
        match r {
            Some(n) => sound_choice(sound_name@, silent) == Some(n@),
            None => sound_choice(sound_name@, silent) is None,
        },
{
    if silent {
        return None;
    }
    let v = chars_of(sound_name);
    let t = trimmed(v.as_slice(), 0, v.len());
    assert(v@.subrange(0, v@.len() as int) =~= sound_name@);
    let silent_word = chars_of("silent");
    if eq_ignore_case(t.as_slice(), silent_word.as_slice()) || t.len() == 0 {
        return None;
    }
    let name = string_of(t.as_slice());
    if !is_file_sound(name.as_str()) {
        return None;
    }
    Some(name)
}

/// The resource-relative places a sound file is looked for, in order: the
/// name as given, then under `sounds/`.
pub fn resource_candidates(name: &str) -> (r: (String, String))
    ensures
        r.0@ == name@,
        r.1@ == "sounds/"@ + name@,
{
    let direct = name.to_owned();
    let mut in_sounds = String::from_str("sounds/");
    in_sounds.append(name);
    (direct, in_sounds)
}

} // verus!
