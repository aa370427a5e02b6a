//! Transcode dispatcher: decoding bytes to text and encoding text to
//! bytes through the transcoding registry.
//!
//! The registry itself (which labels it knows, and what each encoding
//! produces) is an opaque outside service; its answers are named as pure
//! functions of the label and the data. The dispatch and all error
//! branching — unknown label, unsupported detection, lossy conversion —
//! is verified here.

use vstd::prelude::*;

use crate::charset::{detect_encoding_name, observed_detection};
use crate::error::CharsetError;
use crate::labels::{is_unsupported_label, resolved_label, upper_label};

verus! {

use vstd::string::StringExecFns;

/// Whether the transcoding registry recognizes a label (its matching is
/// case-insensitive and alias-aware, by its own rules).
pub uninterp spec fn registry_knows(label: Seq<char>) -> bool;

/// What the registry's encoding for a label decodes a byte buffer to:
/// the text, and whether any malformed sequence had to be replaced. A
/// pure function of label and bytes; meaningful where the registry knows
/// the label.
pub uninterp spec fn decoded(label: Seq<char>, bytes: Seq<u8>) -> (Seq<char>, bool);

/// What the registry's encoding for a label encodes a text to: the
/// bytes, and whether any character had no faithful representation. A
/// pure function of label and text; meaningful where the registry knows
/// the label.
pub uninterp spec fn encoded(label: Seq<char>, text: Seq<char>) -> (Seq<u8>, bool);

/// Relies on encoding_rs::Encoding::for_label (a fixed, deterministic
/// label table) and Encoding::decode (a pure function of the encoding
/// and the bytes, with BOM handling).
#[verifier::external_body]
fn registry_decode(label: &str, bytes: &[u8]) -> (r: Option<(String, bool)>)
    ensures
        r is Some == registry_knows(label@),
        r matches Some(p) ==> p.0@ == decoded(label@, bytes@).0 && p.1 == decoded(
            label@,
            bytes@,
        ).1,
{
    let enc = encoding_rs::Encoding::for_label(label.as_bytes())?;
    let (text, _, had_errors) = enc.decode(bytes);
    Some((text.into_owned(), had_errors))
}

/// Relies on encoding_rs::Encoding::for_label (a fixed, deterministic
/// label table) and Encoding::encode (a pure function of the encoding
/// and the text).
#[verifier::external_body]
fn registry_encode(label: &str, text: &str) -> (r: Option<(Vec<u8>, bool)>)
    ensures
        r is Some == registry_knows(label@),
        r matches Some(p) ==> p.0@ == encoded(label@, text@).0 && p.1 == encoded(
            label@,
            text@,
        ).1,
{
    let enc = encoding_rs::Encoding::for_label(label.as_bytes())?;
    let (bytes, _, had_errors) = enc.encode(text);
    Some((bytes.into_owned(), had_errors))
}

/// How a decode call picks its registry label: an explicitly supplied
/// label is used as given (never re-normalized), while an omitted label
/// is resolved from the detector's answer, which may fail before any
/// registry lookup happens.
pub enum LabelPlan {
    /// Look this label up in the registry.
    Lookup { label: Seq<char> },
    /// Detection gave no usable answer; no label to look up.
    NoDetection,
    /// Detection named an encoding the registry cannot represent.
    Unsupported { detected: Seq<char> },
}

/// The label plan for a decode of `bytes` with optional explicit label.
pub open spec fn decode_label_plan(bytes: Seq<u8>, explicit: Option<Seq<char>>) -> LabelPlan {
    match explicit {
        Some(l) => LabelPlan::Lookup { label: l },
        None => {
            let raw = observed_detection(bytes).0;
            if raw.len() == 0 {
                LabelPlan::NoDetection
            } else if is_unsupported_label(upper_label(raw)) {
                LabelPlan::Unsupported { detected: raw }
            } else {
                LabelPlan::Lookup { label: resolved_label(raw) }
            }
        },
    }
}

/// Law: when detection names a label in the unsupported set, an
/// unlabeled decode plans the unsupported failure and never reaches a
/// registry lookup; with [`decode`]'s contract, such a call always
/// fails as `UnsupportedEncoding`.
pub proof fn lemma_unsupported_detection_fails_decode(bytes: Seq<u8>)
    requires
        observed_detection(bytes).0.len() > 0,
        is_unsupported_label(upper_label(observed_detection(bytes).0)),
    ensures
        decode_label_plan(bytes, None) == (LabelPlan::Unsupported {
            detected: observed_detection(bytes).0,
        }),
{
}

/// Law: an explicitly supplied label is looked up exactly as given —
/// never re-normalized — whatever the input bytes hold; with
/// [`decode`]'s contract, an unrecognized explicit label therefore
/// fails as `UnknownEncoding` regardless of input content.
pub proof fn lemma_explicit_label_used_as_given(bytes: Seq<u8>, label: Seq<char>)
    ensures
        decode_label_plan(bytes, Some(label)) == (LabelPlan::Lookup { label }),
{
}

/// The view of an optional explicit label argument.
pub open spec fn label_view(label: Option<&str>) -> Option<Seq<char>> {
    match label {
        Some(l) => Some(l@),
        None => None,
    }
}

/// Decodes a byte buffer to text under `label`, or under a label
/// resolved from detection when `label` is omitted. Succeeds exactly
/// when a registry label is found, the registry knows it, and the
/// decode is lossless; every replacement made by the decoder is
/// reported as `InvalidInput` instead of being accepted.
pub fn decode(bytes: &[u8], label: Option<&str>) -> (r: Result<String, CharsetError>)
    ensures
        ({
            let plan = decode_label_plan(bytes@, label_view(label));
            match r {
                Ok(text) => plan matches LabelPlan::Lookup { label: l } && registry_knows(l)
                    && decoded(l, bytes@) == (text@, false),
                Err(CharsetError::UnknownEncoding { label: e }) => (plan is NoDetection && e
                    is None) || ({
                    &&& plan matches LabelPlan::Lookup { label: l }
                    &&& !registry_knows(l)
                    &&& (e matches Some(s) && s@ == l)
                }),
                Err(CharsetError::UnsupportedEncoding { detected }) => plan matches
                    LabelPlan::Unsupported { detected: d } && detected@ == d,
                Err(CharsetError::InvalidInput { label: e }) => plan matches LabelPlan::Lookup {
                    label: l,
                } && registry_knows(l) && decoded(l, bytes@).1 && e@ == l,
            }
        }),
{
    let chosen: String = match label {
        Some(l) => l.to_owned(),
        None => match detect_encoding_name(bytes) {
            Ok(l) => l,
            Err(e) => {
                return Err(e);
            },
        },
    };
    match registry_decode(chosen.as_str(), bytes) {
        Some((text, had_errors)) => {
            if had_errors {
                Err(CharsetError::InvalidInput { label: chosen })
            } else {
                Ok(text)
            }
        },
        None => Err(CharsetError::UnknownEncoding { label: Some(chosen) }),
    }
}

/// Encodes a text to bytes under `label`, which is always required: the
/// input is already text, so there is nothing to detect on. Succeeds
/// exactly when the registry knows the label and every character has a
/// faithful representation; a lossy encode is reported as
/// `InvalidInput` instead of being accepted.
pub fn encode(text: &str, label: &str) -> (r: Result<Vec<u8>, CharsetError>)
    ensures
        match r {
            Ok(out) => registry_knows(label@) && encoded(label@, text@) == (out@, false),
            Err(CharsetError::UnknownEncoding { label: e }) => !registry_knows(label@) && (
            e matches Some(s) && s@ == label@),
            Err(CharsetError::InvalidInput { label: e }) => registry_knows(label@) && encoded(
                label@,
                text@,
            ).1 && e@ == label@,
            Err(CharsetError::UnsupportedEncoding { .. }) => false,
        },
{
    match registry_encode(label, text) {
        Some((out, had_errors)) => {
            if had_errors {
                Err(CharsetError::InvalidInput { label: label.to_owned() })
            } else {
                Ok(out)
            }
        },
        None => Err(CharsetError::UnknownEncoding { label: Some(label.to_owned()) }),
    }
}

} // verus!
