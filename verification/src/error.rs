use vstd::prelude::*;

verus! {

/// Failures of the identification core.
///
/// Construction failures are fatal to the caller that loads the model,
/// per-call prediction failures are surfaced so the caller can skip the
/// offending span, a too-short label is recovered locally by keeping the
/// uncleaned label, and a missing record identifier is surfaced by the
/// accessor that needs it.
#[derive(Debug, Clone, PartialEq, Eq)]
pub enum Error {
    /// The classification model could not be loaded; the message comes
    /// from the classification service.
    ModelLoad(String),
    /// One prediction call failed, for instance on text holding an
    /// embedded nul character; the message comes from the service.
    Prediction(String),
    /// A predicted label holds fewer characters than the fixed service
    /// prefix, so it cannot be cleaned.
    LabelTooShort,
    /// The record has no record-identifier header.
    MissingHeader,
}

} // verus!
