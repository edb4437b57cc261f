//! The classification-decision layer: length gating, label cleaning and
//! the turning of raw service output into a possibly-empty identification
//! result.

use vstd::prelude::*;

use crate::error::Error;
use crate::identifiers::spec_cleaned_label;
use crate::identifiers::Identification;
use crate::identifiers::LABEL_PREFIX_LEN;

verus! {

/// Minimum character count a span must strictly exceed before it is
/// worth offering to the classifier; shorter spans give statistically
/// unreliable predictions.
pub const MIN_SENTENCE_LEN: usize = 100;

/// A span is long enough to classify exactly when its character count
/// (not its byte count) strictly exceeds [`MIN_SENTENCE_LEN`].
pub fn valid_len(sentence: &str) -> (r: bool)
    ensures
        r == (sentence@.len() > MIN_SENTENCE_LEN),
{
    sentence.unicode_len() > MIN_SENTENCE_LEN
}

/// Strip the fixed service prefix from a predicted label, keeping the
/// confidence unchanged: `__label__en` becomes `en`.
///
/// Only the character count is checked, not the prefix text itself, so a
/// label of at least [`LABEL_PREFIX_LEN`] characters is always cleaned.
/// A shorter label cannot be cleaned safely and is refused with
/// [`Error::LabelTooShort`]; the caller keeps the original prediction.
pub fn clean_prediction(prediction: &Identification) -> (r: Result<Identification, Error>)
    ensures
        r is Ok <==> prediction.label@.len() >= LABEL_PREFIX_LEN,
        r matches Ok(c) ==> c.label@ == prediction.label@.skip(LABEL_PREFIX_LEN as int)
            && c.prob_bits == prediction.prob_bits,
        r is Err ==> r == Err::<Identification, Error>(Error::LabelTooShort),
{
    let len = prediction.label.as_str().unicode_len();
    if len < LABEL_PREFIX_LEN {
        Err(Error::LabelTooShort)
    } else {
        let rest = prediction.label.as_str().substring_char(LABEL_PREFIX_LEN, len);
        let cleaned = Identification {
            label: String::from_str(rest),
            prob_bits: prediction.prob_bits,
        };
        proof {
            assert(cleaned.label@ =~= prediction.label@.skip(LABEL_PREFIX_LEN as int));
        }
        Ok(cleaned)
    }
}

/// Turn the raw ranked predictions of one service call into the final
/// identification result: no candidate means no reliable identification
/// (`None`); otherwise every candidate is cleaned best-effort, keeping
/// the original label where cleaning is refused, and the ranking order
/// and every confidence are preserved.
pub fn select_identifications(raw: &Vec<Identification>) -> (r: Option<Vec<Identification>>)
    ensures
        r is None <==> raw@.len() == 0,
        r matches Some(out) ==> out@.len() == raw@.len() && (forall|i: int|
            0 <= i < raw@.len() ==> (#[trigger] out@[i]).label@ == spec_cleaned_label(
                raw@[i].label@,
            ) && out@[i].prob_bits == raw@[i].prob_bits),
{
    if raw.len() == 0 {
        return None;
    }
    let mut out: Vec<Identification> = Vec::new();
    let mut i: usize = 0;
    while i < raw.len()
        invariant
            i <= raw@.len(),
            out@.len() == i,
            forall|j: int|
                0 <= j < i ==> (#[trigger] out@[j]).label@ == spec_cleaned_label(raw@[j].label@)
                    && out@[j].prob_bits == raw@[j].prob_bits,
        decreases raw@.len() - i,
    {
        let cleaned = match clean_prediction(&raw[i]) {
            Ok(c) => c,
            Err(_) => Identification {
                label: raw[i].label.clone(),
                prob_bits: raw[i].prob_bits,
            },
        };
        out.push(cleaned);
        i = i + 1;
    }
    Some(out)
}

/// Conclude one prediction call from whatever the classification service
/// handed back: a service failure is surfaced as [`Error::Prediction`]
/// with the service's message, an empty candidate list means no reliable
/// identification, and a non-empty list is cleaned best-effort by
/// [`select_identifications`].
pub fn conclude_prediction(outcome: Result<Vec<Identification>, String>) -> (r: Result<
    Option<Vec<Identification>>,
    Error,
>)
    ensures
        outcome matches Err(m) ==> r == Err::<Option<Vec<Identification>>, Error>(
            Error::Prediction(m),
        ),
        outcome matches Ok(raw) ==> {
            &&& r is Ok
            &&& (r == Ok::<Option<Vec<Identification>>, Error>(None::<Vec<Identification>>) <==> raw@.len() == 0)
            &&& (r matches Ok(Some(out)) ==> out@.len() == raw@.len() && (forall|i: int|
                0 <= i < raw@.len() ==> (#[trigger] out@[i]).label@ == spec_cleaned_label(
                    raw@[i].label@,
                ) && out@[i].prob_bits == raw@[i].prob_bits))
        },
{
    match outcome {
        Ok(raw) => Ok(select_identifications(&raw)),
        Err(m) => Err(Error::Prediction(m)),
    }
}

} // verus!
