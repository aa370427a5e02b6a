//! Detector adapter: classification of a byte buffer and resolution of a
//! registry label from a detected one.
//!
//! The statistical detector is an opaque outside service; this module
//! states only that its answer is a function of the bytes alone, and keeps
//! the detector away from the one input shape on which its own
//! bookkeeping breaks down (an escape byte in an otherwise 7-bit buffer),
//! answering "no usable detection" there instead.

use vstd::prelude::*;

use crate::error::CharsetError;
use crate::labels::{is_unsupported_label, resolve_registry_label, resolved_label, upper_label};

verus! {

/// What the statistical detector answers for a byte buffer: the raw
/// charset label, the IEEE-754 bit pattern of its 32-bit confidence
/// score, and the language guess. The answer depends on the bytes alone.
pub uninterp spec fn detection_of(bytes: Seq<u8>) -> (Seq<char>, u32, Seq<char>);

/// The buffers this library hands to the statistical detector.
///
/// The detector's closing step only accounts for buffers that are pure
/// 7-bit text or contain a high byte; a buffer that enters its
/// escape-sequence state and never leaves it (an `0x1B` byte but no high
/// byte anywhere) aborts the detector, so such buffers are answered
/// without consulting it.
pub open spec fn detector_handles(bytes: Seq<u8>) -> bool {
    ||| (forall|i: int| 0 <= i < bytes.len() ==> bytes[i] != 0x1b)
    ||| (exists|i: int| 0 <= i < bytes.len() && bytes[i] >= 0x80 && bytes[i] != 0xa0)
}

/// The classification this library reports for a byte buffer: the
/// detector's answer where the detector handles the buffer, and the
/// empty "no usable detection" answer otherwise.
pub open spec fn observed_detection(bytes: Seq<u8>) -> (Seq<char>, u32, Seq<char>) {
    if detector_handles(bytes) {
        detection_of(bytes)
    } else {
        (Seq::empty(), 0, Seq::empty())
    }
}

/// A classification record: a best-effort guess, never an error. An empty
/// `label` signals that nothing usable was detected. `confidence_bits`
/// carries the detector's 32-bit IEEE-754 confidence score as its bit
/// pattern; it is advisory only and never gates success or failure.
pub struct DetectionResult {
    pub label: String,
    pub confidence_bits: u32,
    pub language: String,
}

/// Relies on chardet::detect: a statistical scan whose resulting triple
/// (charset, confidence, language) is a pure function of the bytes. Its
/// closing step aborts on a buffer that holds an escape byte but no high
/// byte (its state match has no arm for that case), so those buffers are
/// excluded here.
#[verifier::external_body]
fn chardet_detect(bytes: &[u8]) -> (r: (String, u32, String))
    requires
        detector_handles(bytes@),
    ensures
        r.0@ == detection_of(bytes@).0,
        r.1 == detection_of(bytes@).1,
        r.2@ == detection_of(bytes@).2,
{
    let (label, confidence, language) = chardet::detect(bytes);
    (label, confidence.to_bits(), language)
}

/// Whether the detector handles this buffer (see [`detector_handles`]).
fn detector_handles_buffer(bytes: &[u8]) -> (r: bool)
    ensures
        r == detector_handles(bytes@),
{
    let n = bytes.len();
    let mut has_esc = false;
    let mut has_high = false;
    let mut i: usize = 0;
    while i < n
        invariant
            i <= n,
            n == bytes@.len(),
            has_esc == exists|j: int| 0 <= j < i && bytes@[j] == 0x1b,
            has_high == exists|j: int| 0 <= j < i && bytes@[j] >= 0x80 && bytes@[j] != 0xa0,
        decreases n - i,
    {
        let b = bytes[i];
        if b == 0x1b {
            has_esc = true;
        }
        if b >= 0x80 && b != 0xa0 {
            has_high = true;
        }
        i += 1;
    }
    !has_esc || has_high
}

/// Classifies a byte buffer: detected charset label, confidence score and
/// language guess. Never fails; unclassifiable input yields an empty
/// label. A pure function of the bytes.
pub fn detect_charset(bytes: &[u8]) -> (r: DetectionResult)
    ensures
        r.label@ == observed_detection(bytes@).0,
        r.confidence_bits == observed_detection(bytes@).1,
        r.language@ == observed_detection(bytes@).2,
{
    if detector_handles_buffer(bytes) {
        let (label, confidence_bits, language) = chardet_detect(bytes);
        DetectionResult { label, confidence_bits, language }
    } else {
        DetectionResult { label: String::new(), confidence_bits: 0, language: String::new() }
    }
}

/// Detects the encoding of a byte buffer and resolves the detected label
/// into a registry label: fails where detection gives no usable answer or
/// names an encoding outside the registry's reach, substitutes the
/// override table's entries, and otherwise returns the detected label
/// unchanged.
pub fn detect_encoding_name(bytes: &[u8]) -> (r: Result<String, CharsetError>)
    ensures
        ({
            let raw = observed_detection(bytes@).0;
            match r {
                Ok(l) => raw.len() > 0 && !is_unsupported_label(upper_label(raw)) && l@
                    == resolved_label(raw),
                Err(CharsetError::UnknownEncoding { label }) => raw.len() == 0 && label is None,
                Err(CharsetError::UnsupportedEncoding { detected }) => raw.len() > 0
                    && is_unsupported_label(upper_label(raw)) && detected@ == raw,
                Err(CharsetError::InvalidInput { .. }) => false,
            }
        }),
{
    let r = detect_charset(bytes);
    resolve_registry_label(r.label.as_str())
}

} // verus!
