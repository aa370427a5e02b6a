//! Character-set detection and transcoding.
//!
//! The library detects the character encoding of a byte buffer, normalizes
//! the detector's encoding name into a label the transcoding registry
//! understands, and decodes or encodes buffers through that registry,
//! classifying every lossy conversion as an error instead of accepting it.

use vstd::prelude::*;

mod charset;
mod error;
mod labels;
mod transcode;

pub use charset::{
    detect_charset, detect_encoding_name, detection_of, detector_handles, observed_detection,
    DetectionResult,
};
pub use error::CharsetError;
pub use labels::{
    is_unsupported_label, lemma_override_substitutes, override_for, resolve_registry_label,
    resolved_label, upper_char, upper_label,
};
pub use transcode::{
    decode, decode_label_plan, decoded, encode, encoded, label_view,
    lemma_explicit_label_used_as_given, lemma_unsupported_detection_fails_decode, registry_knows,
    LabelPlan,
};

verus! {

/// Stateless handle for the charset operations.
pub struct Charset {}

impl Charset {
    pub fn new() -> (r: Charset) {
        Charset {}
    }
}

} // verus!
