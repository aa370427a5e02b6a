//! Normalization of detector labels into registry labels.
//!
//! The statistical detector and the transcoding registry are independently
//! maintained vocabularies. A small override table maps the detector's
//! quirky names onto the registry's names, and a fixed set of detector
//! names is rejected outright because the registry has no faithful
//! equivalent. Matching against both tables is ASCII-case-insensitive.

use vstd::prelude::*;

use crate::error::CharsetError;

verus! {

use vstd::string::StrSliceExecFns;
use vstd::string::StringExecFns;

/// ASCII uppercase of one character; everything outside `a..=z` is kept.
pub open spec fn upper_char(c: char) -> char {
    if 'a' <= c && c <= 'z' {
        (c as u32 - 32) as char
    } else {
        c
    }
}

/// ASCII uppercase of a character sequence.
pub open spec fn upper_label(s: Seq<char>) -> Seq<char> {
    Seq::new(s.len(), |i: int| upper_char(s[i]))
}

/// Detector labels that have no faithful registry equivalent; detection
/// fails closed for these rather than substituting a near-miss encoding.
pub open spec fn is_unsupported_label(u: Seq<char>) -> bool {
    ||| u == "UTF-32BE"@
    ||| u == "UTF-32LE"@
    ||| u == "X-ISO-100646-UCS-4-2143"@
    ||| u == "X-ISO-10646-UCS-4-3412"@
    ||| u == "X-EUC-TW"@
    ||| u == "IBM855"@
}

/// The override table: detector-vocabulary quirks that must be substituted
/// before a registry lookup, keyed by the uppercased detector label.
pub open spec fn override_for(u: Seq<char>) -> Option<Seq<char>> {
    if u == "MACCYRILLIC"@ {
        Some("x-mac-cyrillic"@)
    } else if u == "CP932"@ {
        Some("windows-31j"@)
    } else if u == "CP949"@ {
        Some("windows-949"@)
    } else {
        None
    }
}

/// The registry label for a raw detector label: the override table's
/// substitute where one applies, otherwise the raw label unchanged.
pub open spec fn resolved_label(raw: Seq<char>) -> Seq<char> {
    match override_for(upper_label(raw)) {
        Some(sub) => sub,
        None => raw,
    }
}

/// Law: a raw label covered by the override table resolves to the table's
/// substitute, never to the raw label itself.
pub proof fn lemma_override_substitutes(raw: Seq<char>, sub: Seq<char>)
    requires
        override_for(upper_label(raw)) == Some(sub),
    ensures
        resolved_label(raw) == sub,
        raw != sub,
{
    reveal_strlit("MACCYRILLIC");
    reveal_strlit("x-mac-cyrillic");
    reveal_strlit("CP932");
    reveal_strlit("windows-31j");
    reveal_strlit("CP949");
    reveal_strlit("windows-949");
    assert(upper_label(raw).len() == raw.len());
    if upper_label(raw) == "MACCYRILLIC"@ {
        assert(raw.len() == 11);
        assert(sub.len() == 14);
    } else if upper_label(raw) == "CP932"@ {
        assert(raw.len() == 5);
        assert(sub.len() == 11);
    } else {
        assert(upper_label(raw) == "CP949"@);
        assert(raw.len() == 5);
        assert(sub.len() == 11);
    }
}

fn upper_ascii_char(c: char) -> (r: char)
    ensures
        r == upper_char(c),
{
    match c {
        'a' => 'A',
        'b' => 'B',
        'c' => 'C',
        'd' => 'D',
        'e' => 'E',
        'f' => 'F',
        'g' => 'G',
        'h' => 'H',
        'i' => 'I',
        'j' => 'J',
        'k' => 'K',
        'l' => 'L',
        'm' => 'M',
        'n' => 'N',
        'o' => 'O',
        'p' => 'P',
        'q' => 'Q',
        'r' => 'R',
        's' => 'S',
        't' => 'T',
        'u' => 'U',
        'v' => 'V',
        'w' => 'W',
        'x' => 'X',
        'y' => 'Y',
        'z' => 'Z',
        _ => c,
    }
}

/// Whether the ASCII uppercase of `s` equals `t` (`t` is an uppercase
/// table key, so this is a case-insensitive table match).
fn matches_upper(s: &str, t: &str) -> (r: bool)
    ensures
        r == (upper_label(s@) == t@),
{
    let sn = s.unicode_len();
    let tn = t.unicode_len();
    if sn != tn {
        assert(upper_label(s@).len() != t@.len());
        return false;
    }
    let mut i: usize = 0;
    while i < sn
        invariant
            i <= sn,
            sn == s@.len(),
            tn == t@.len(),
            sn == tn,
            forall|j: int| 0 <= j < i ==> upper_char(s@[j]) == t@[j],
        decreases sn - i,
    {
        let c = upper_ascii_char(s.get_char(i));
        let d = t.get_char(i);
        if c != d {
            assert(upper_label(s@)[i as int] != t@[i as int]);
            return false;
        }
        i += 1;
    }
    assert(upper_label(s@) =~= t@);
    true
}

/// Maps a raw detector label to the registry label to use for lookup.
///
/// An empty label means detection gave no usable answer; a label in the
/// unsupported set is rejected with the detected name; a label in the
/// override table is substituted; any other label passes through
/// unchanged, preserving its original spelling.
pub fn resolve_registry_label(raw: &str) -> (r: Result<String, CharsetError>)
    ensures
        match r {
            Ok(l) => raw@.len() > 0 && !is_unsupported_label(upper_label(raw@)) && l@
                == resolved_label(raw@),
            Err(CharsetError::UnknownEncoding { label }) => raw@.len() == 0 && label is None,
            Err(CharsetError::UnsupportedEncoding { detected }) => raw@.len() > 0
                && is_unsupported_label(upper_label(raw@)) && detected@ == raw@,
            Err(CharsetError::InvalidInput { .. }) => false,
        },
{
    if raw.is_empty() {
        return Err(CharsetError::UnknownEncoding { label: None });
    }
    if matches_upper(raw, "UTF-32BE") || matches_upper(raw, "UTF-32LE") || matches_upper(
        raw,
        "X-ISO-100646-UCS-4-2143",
    ) || matches_upper(raw, "X-ISO-10646-UCS-4-3412") || matches_upper(raw, "X-EUC-TW")
        || matches_upper(raw, "IBM855") {
        return Err(CharsetError::UnsupportedEncoding { detected: raw.to_owned() });
    }
    if matches_upper(raw, "MACCYRILLIC") {
        return Ok(String::from_str("x-mac-cyrillic"));
    }
    if matches_upper(raw, "CP932") {
        return Ok(String::from_str("windows-31j"));
    }
    if matches_upper(raw, "CP949") {
        return Ok(String::from_str("windows-949"));
    }
    Ok(raw.to_owned())
}

} // verus!
