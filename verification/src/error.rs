use vstd::prelude::*;

verus! {

/// Why a detection, lookup, or conversion failed.
///
/// The three kinds are kept apart so that a caller can tell "no such
/// encoding" from "the encoding exists but the data does not fit it"
/// without reading message text.
#[derive(Debug, PartialEq, Eq)]
pub enum CharsetError {
    /// No usable encoding label: either automatic detection produced
    /// nothing (`label` is `None`), or the label that was supplied or
    /// resolved is not recognized by the transcoding registry (`label`
    /// holds that label).
    UnknownEncoding { label: Option<String> },
    /// Detection succeeded but named an encoding that the transcoding
    /// registry cannot represent; `detected` holds the detector's label
    /// so the caller understands why the call failed.
    UnsupportedEncoding { detected: String },
    /// Decoding or encoding under `label` was lossy: the data has no
    /// faithful representation, so no output is returned at all.
    InvalidInput { label: String },
}

} // verus!
